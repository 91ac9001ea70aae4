use crate::error::{DockerError, DockerErrorView};
use crate::listing::as_unsigned;
use crate::model::{ImageInfo, ImageInfoView};
use crate::size::{is_digit_char, is_numeric, parse_size, scale_decimal, scaled_decimal, size_in_bytes};
use crate::stats::{stats_missing, ContainerStats, Ratio};
use crate::text::{split, split_str, string_views, strip_space, without_space};
use crate::timestamp::{first_match, parse_timestamp};
use vstd::prelude::*;

verus! {

/// The character that separates the fields of a line of tool output.
pub const FIELD_DELIMITER: char = '|';

/// How many fields a line of the image listing must have at least.
pub const IMAGE_FIELDS: usize = 4;

/// How many fields a line of the live statistics must have at least.
pub const STATS_FIELDS: usize = 5;

/// The factor by which a percentage is scaled to keep six decimal places.
pub const PERCENT_SCALE: u64 = 1_000_000;

/// `s` without one trailing percent sign, if it ends in one.
pub open spec fn without_percent_sign(s: Seq<char>) -> Seq<char> {
    if s.len() > 0 && s.last() == '%' {
        s.drop_last()
    } else {
        s
    }
}

/// Whether `s` holds digits and points only.
pub open spec fn all_numeric(s: Seq<char>) -> bool {
    forall|i: int| 0 <= i < s.len() ==> is_numeric(#[trigger] s[i])
}

/// The share that a percentage field stands for. White space and one
/// trailing percent sign are dropped; what is left must be a decimal
/// number, which is rounded to six decimal places. Anything else is zero.
pub open spec fn percent_ratio(field: Seq<char>) -> Ratio {
    let number = without_percent_sign(without_space(field));
    if all_numeric(number) && scaled_decimal(number, PERCENT_SCALE as int) is Some {
        Ratio {
            numerator: scaled_decimal(number, PERCENT_SCALE as int)->0 as u128,
            denominator: 100_000_000,
        }
    } else {
        Ratio { numerator: 0, denominator: 1 }
    }
}

/// The two sizes of a paired field such as `1.5GB / 2GB`: what stands
/// before the first slash and what stands between the first and the second;
/// a side that is missing is zero.
pub open spec fn pair_sizes(field: Seq<char>) -> (int, int) {
    let parts = split(field, '/');
    (
        size_in_bytes(parts[0]),
        if parts.len() > 1 {
            size_in_bytes(parts[1])
        } else {
            0
        },
    )
}

/// The sample that the fields of a line of live statistics stand for:
/// processor percentage, memory usage and limit, memory percentage, network
/// bytes received and sent, block bytes read and written.
pub open spec fn stats_of_fields(fields: Seq<Seq<char>>) -> ContainerStats {
    ContainerStats {
        cpu_usage_percent: percent_ratio(fields[0]),
        memory_usage: pair_sizes(fields[1]).0 as u64,
        memory_limit: pair_sizes(fields[1]).1 as u64,
        memory_usage_percent: percent_ratio(fields[2]),
        network_rx_bytes: pair_sizes(fields[3]).0 as u64,
        network_tx_bytes: pair_sizes(fields[3]).1 as u64,
        block_read_bytes: pair_sizes(fields[4]).0 as u64,
        block_write_bytes: pair_sizes(fields[4]).1 as u64,
    }
}

/// Parses a percentage such as `12.34%`.
pub fn parse_percent(field: &str) -> (r: Ratio)
    ensures
        r == percent_ratio(field@),
        r.wf(),
{
    let mut number = strip_space(field);
    if number.len() > 0 && number[number.len() - 1] == '%' {
        number.pop();
    }
    assert(number@ =~= without_percent_sign(without_space(field@)));
    let mut k: usize = 0;
    while k < number.len()
        invariant
            k <= number.len(),
            number@ == without_percent_sign(without_space(field@)),
            forall|j: int| 0 <= j < k ==> is_numeric(#[trigger] number@[j]),
        decreases number.len() - k,
    {
        if !(is_digit_char(number[k]) || number[k] == '.') {
            assert(!is_numeric(number@[k as int]));
            return Ratio::zero();
        }
        k = k + 1;
    }
    match scale_decimal(&number, PERCENT_SCALE) {
        Some(scaled) => Ratio { numerator: scaled as u128, denominator: 100_000_000 },
        None => Ratio::zero(),
    }
}

/// Parses a paired field such as `1.5GB / 2GB` into its two sizes.
pub fn parse_size_pair(field: &str) -> (r: (u64, u64))
    ensures
        r.0 == pair_sizes(field@).0,
        r.1 == pair_sizes(field@).1,
{
    let parts = split_str(field, '/');
    assert(string_views(parts@)[0] == parts@[0]@);
    let first = parse_size(parts[0].as_str());
    let second = if parts.len() > 1 {
        assert(string_views(parts@)[1] == parts@[1]@);
        parse_size(parts[1].as_str())
    } else {
        0
    };
    (first, second)
}

/// The first line of `output`: what stands before its first line feed.
pub open spec fn first_line(output: Seq<char>) -> Seq<char> {
    split(output, '\n')[0]
}

/// The message for a line of statistics that has too few fields.
pub open spec fn stats_malformed(line: Seq<char>) -> Seq<char> {
    "Failed to parse stats output: "@ + line
}

/// What the live statistics that the tool wrote for one container stand
/// for. The first line counts. Where it holds nothing but white space the
/// statistics are missing; where it has fewer than five fields it cannot be
/// read; otherwise its first five fields give the sample.
pub open spec fn stats_of_output(container_id: Seq<char>, output: Seq<char>) -> Result<
    ContainerStats,
    DockerErrorView,
> {
    let line = first_line(output);
    let fields = split(line, FIELD_DELIMITER);
    if without_space(line).len() == 0 {
        Err(DockerErrorView::NotFound(stats_missing(container_id)))
    } else if fields.len() < STATS_FIELDS {
        Err(DockerErrorView::OperationError(stats_malformed(line)))
    } else {
        Ok(stats_of_fields(fields))
    }
}

/// Whether `s` holds white space only.
pub fn is_blank(s: &str) -> (r: bool)
    ensures
        r == (without_space(s@).len() == 0),
{
    strip_space(s).len() == 0
}

/// Parses the live statistics that the tool wrote for the container
/// `container_id`.
pub fn parse_stats_output(container_id: &str, output: &str) -> (r: Result<ContainerStats, DockerError>)
    ensures
        match stats_of_output(container_id@, output@) {
            Ok(sample) => r == Ok::<ContainerStats, DockerError>(sample),
            Err(e) => r is Err && r->Err_0@ == e,
        },
{
    let lines = split_str(output, '\n');
    assert(string_views(lines@)[0] == lines@[0]@);
    let line = lines[0].as_str();
    if is_blank(line) {
        return Err(
            DockerError::NotFound(
                String::from_str("No stats found for container ").concat(container_id),
            ),
        );
    }
    let fields = split_str(line, FIELD_DELIMITER);
    if fields.len() < STATS_FIELDS {
        return Err(
            DockerError::OperationError(
                String::from_str("Failed to parse stats output: ").concat(line),
            ),
        );
    }
    proof {
        let views = string_views(fields@);
        assert(views[0] == fields@[0]@);
        assert(views[1] == fields@[1]@);
        assert(views[2] == fields@[2]@);
        assert(views[3] == fields@[3]@);
        assert(views[4] == fields@[4]@);
    }
    let cpu_usage_percent = parse_percent(fields[0].as_str());
    let (memory_usage, memory_limit) = parse_size_pair(fields[1].as_str());
    let memory_usage_percent = parse_percent(fields[2].as_str());
    let (network_rx_bytes, network_tx_bytes) = parse_size_pair(fields[3].as_str());
    let (block_read_bytes, block_write_bytes) = parse_size_pair(fields[4].as_str());
    Ok(
        ContainerStats {
            cpu_usage_percent,
            memory_usage,
            memory_limit,
            memory_usage_percent,
            network_rx_bytes,
            network_tx_bytes,
            block_read_bytes,
            block_write_bytes,
        },
    )
}


/// Whether a line of the image listing has the fields that an image needs.
pub open spec fn is_image_line(line: Seq<char>) -> bool {
    split(line, FIELD_DELIMITER).len() >= IMAGE_FIELDS
}

/// The image that a well-formed line of the listing stands for when the
/// clock reads `now`: the first field is the id, the second the one
/// `repository:tag` reference, the third the size, the fourth the creation
/// time, which is `now` where it cannot be read.
pub open spec fn image_of_line(line: Seq<char>, now: i64) -> ImageInfoView {
    let fields = split(line, FIELD_DELIMITER);
    ImageInfoView {
        id: fields[0],
        repo_tags: seq![fields[1]],
        size: size_in_bytes(fields[2]) as u64,
        created: crate::timestamp::timestamp_or_now(
            first_match(fields[3]),
            now,
        ) as u64,
    }
}

/// Builds the image of a line from its fields and its creation time.
fn image_from_fields(fields: &Vec<String>, created: u64) -> (r: ImageInfo)
    requires
        fields.len() >= IMAGE_FIELDS,
    ensures
        r@ == (ImageInfoView {
            id: fields@[0]@,
            repo_tags: seq![fields@[1]@],
            size: size_in_bytes(fields@[2]@) as u64,
            created,
        }),
        r@.size == size_in_bytes(fields@[2]@),
{
    let mut repo_tags: Vec<String> = Vec::new();
    repo_tags.push(fields[1].clone());
    let r = ImageInfo {
        id: fields[0].clone(),
        repo_tags,
        size: parse_size(fields[2].as_str()),
        created,
    };
    assert(r@.repo_tags =~= seq![fields@[1]@]);
    r
}

/// Parses one line of the image listing as of the time `now`; a line with
/// fewer than four fields stands for no image.
pub fn parse_image_line_at(line: &str, now: i64) -> (r: Option<ImageInfo>)
    ensures
        r is Some <==> is_image_line(line@),
        r matches Some(info) ==> info@ == image_of_line(line@, now),
{
    let fields = split_str(line, FIELD_DELIMITER);
    if fields.len() < IMAGE_FIELDS {
        return None;
    }
    proof {
        let views = string_views(fields@);
        assert(views[0] == fields@[0]@);
        assert(views[1] == fields@[1]@);
        assert(views[2] == fields@[2]@);
        assert(views[3] == fields@[3]@);
    }
    let parsed = crate::timestamp::match_timestamp(fields[3].as_str());
    let created = crate::timestamp::resolve_timestamp(parsed, now);
    Some(image_from_fields(&fields, created))
}

/// Parses one line of the image listing; a line with fewer than four fields
/// stands for no image. A creation time that cannot be read is the current
/// time.
pub fn parse_image_line(line: &str) -> (r: Option<ImageInfo>)
    ensures
        r is Some <==> is_image_line(line@),
        r matches Some(info) ==> ({
            let fields = split(line@, FIELD_DELIMITER);
            &&& info@.id == fields[0]
            &&& info@.repo_tags == seq![fields[1]]
            &&& info@.size == size_in_bytes(fields[2])
            &&& first_match(fields[3]) matches Some(seconds)
                ==> info@.created == as_unsigned(seconds as int)
        }),
{
    let fields = split_str(line, FIELD_DELIMITER);
    if fields.len() < IMAGE_FIELDS {
        return None;
    }
    proof {
        let views = string_views(fields@);
        assert(views[0] == fields@[0]@);
        assert(views[1] == fields@[1]@);
        assert(views[2] == fields@[2]@);
        assert(views[3] == fields@[3]@);
    }
    let created = parse_timestamp(fields[3].as_str());
    Some(image_from_fields(&fields, created))
}

/// The lines of `output` that stand for an image, in order.
pub open spec fn image_lines(output: Seq<char>) -> Seq<Seq<char>> {
    split(output, '\n').filter(|line: Seq<char>| is_image_line(line))
}

/// Parses the image listing that the tool wrote, line by line. Lines with
/// fewer than four fields are dropped; the images come in the order of
/// their lines.
pub fn parse_image_listing(output: &str) -> (r: Vec<ImageInfo>)
    ensures
        r@.len() == image_lines(output@).len(),
        forall|k: int|
            0 <= k < r@.len() ==> {
                let fields = split(image_lines(output@)[k], FIELD_DELIMITER);
                &&& (#[trigger] r@[k])@.id == fields[0]
                &&& r@[k]@.repo_tags == seq![fields[1]]
                &&& r@[k]@.size == size_in_bytes(fields[2])
                &&& first_match(fields[3]) matches Some(seconds)
                    ==> r@[k]@.created == as_unsigned(seconds as int)
            },
{
    let lines = split_str(output, '\n');
    let ghost all = string_views(lines@);
    let mut images: Vec<ImageInfo> = Vec::new();
    let mut i: usize = 0;
    assert(all.take(0) =~= Seq::<Seq<char>>::empty());
    while i < lines.len()
        invariant
            i <= lines.len(),
            all == string_views(lines@),
            all == split(output@, '\n'),
            images@.len() == all.take(i as int).filter(|line: Seq<char>| is_image_line(line)).len(),
            forall|k: int|
                0 <= k < images@.len() ==> {
                    let fields = split(
                        all.take(i as int).filter(|line: Seq<char>| is_image_line(line))[k],
                        FIELD_DELIMITER,
                    );
                    &&& (#[trigger] images@[k])@.id == fields[0]
                    &&& images@[k]@.repo_tags == seq![fields[1]]
                    &&& images@[k]@.size == size_in_bytes(fields[2])
                    &&& first_match(fields[3]) matches Some(seconds)
                        ==> images@[k]@.created == as_unsigned(seconds as int)
                },
        decreases lines.len() - i,
    {
        let ghost line = all[i as int];
        proof {
            assert(line == lines@[i as int]@);
            assert(all.take(i + 1) =~= all.take(i as int).push(line));
            all.take(i as int).lemma_filter_push(line, |line: Seq<char>| is_image_line(line));
        }
        match parse_image_line(lines[i].as_str()) {
            Some(info) => {
                images.push(info);
            },
            None => {},
        }
        i = i + 1;
    }
    assert(all.take(i as int) =~= all);
    images
}

} // verus!
