use vstd::prelude::*;

verus! {

/// Whether `c` carries the Unicode `White_Space` property.
pub open spec fn is_space(c: char) -> bool {
    let n = c as u32;
    ||| 0x09 <= n <= 0x0D
    ||| n == 0x20
    ||| n == 0x85
    ||| n == 0xA0
    ||| n == 0x1680
    ||| 0x2000 <= n <= 0x200A
    ||| n == 0x2028
    ||| n == 0x2029
    ||| n == 0x202F
    ||| n == 0x205F
    ||| n == 0x3000
}

/// Executable test for the Unicode `White_Space` property.
pub fn is_space_char(c: char) -> (r: bool)
    ensures
        r == is_space(c),
{
    let n: u32 = c as u32;
    (0x09 <= n && n <= 0x0D) || n == 0x20 || n == 0x85 || n == 0xA0 || n == 0x1680 || (0x2000 <= n
        && n <= 0x200A) || n == 0x2028 || n == 0x2029 || n == 0x202F || n == 0x205F || n == 0x3000
}


/// `s` without its white space.
pub open spec fn without_space(s: Seq<char>) -> Seq<char> {
    s.filter(|c: char| !is_space(c))
}

/// `String::push` of the standard library appends the character to the end
/// of the string.
pub assume_specification[ String::push ](s: &mut String, c: char)
    ensures
        final(s)@ == old(s)@.push(c),
;

/// The characters of `s`, in order.
pub fn chars_of(s: &str) -> (r: Vec<char>)
    ensures
        r@ == s@,
{
    broadcast use vstd::string::group_string_axioms;

    let mut out: Vec<char> = Vec::new();
    for c in it: s.chars()
        invariant
            it.seq() == s@,
            out@ == s@.take(it.index()),
    {
        assert(s@.take(it.index() + 1) =~= s@.take(it.index()).push(c));
        out.push(c);
    }
    assert(s@.take(s@.len() as int) =~= s@);
    out
}

/// The characters of `s` that are not white space, in order.
pub fn strip_space(s: &str) -> (r: Vec<char>)
    ensures
        r@ == without_space(s@),
{
    let chars = chars_of(s);
    let mut out: Vec<char> = Vec::new();
    let mut i: usize = 0;
    assert(s@.take(0) =~= Seq::<char>::empty());
    while i < chars.len()
        invariant
            chars@ == s@,
            i <= chars.len(),
            out@ == without_space(s@.take(i as int)),
        decreases chars.len() - i,
    {
        let c = chars[i];
        proof {
            assert(s@.take(i + 1) =~= s@.take(i as int).push(c));
            s@.take(i as int).lemma_filter_push(c, |c: char| !is_space(c));
        }
        if !is_space_char(c) {
            out.push(c);
        }
        i = i + 1;
    }
    assert(s@.take(i as int) =~= s@);
    out
}

/// The string made of the characters `v`, in order.
pub fn string_of(v: &Vec<char>) -> (r: String)
    ensures
        r@ == v@,
{
    let mut out = String::new();
    let mut i: usize = 0;
    while i < v.len()
        invariant
            i <= v.len(),
            out@ == v@.take(i as int),
        decreases v.len() - i,
    {
        out.push(v[i]);
        i = i + 1;
    }
    out
}


/// `s` without one leading `c`, if it begins with one.
pub open spec fn strip_one(s: Seq<char>, c: char) -> Seq<char> {
    if s.len() > 0 && s[0] == c {
        s.subrange(1, s.len() as int)
    } else {
        s
    }
}

/// Whether `s` begins with `p`.
pub open spec fn starts_with(s: Seq<char>, p: Seq<char>) -> bool {
    p.len() <= s.len() && s.subrange(0, p.len() as int) == p
}

/// `s` with every leading repetition of the non-empty prefix `p` removed.
pub open spec fn strip_all(s: Seq<char>, p: Seq<char>) -> Seq<char>
    decreases s.len(),
{
    if p.len() > 0 && starts_with(s, p) {
        strip_all(s.subrange(p.len() as int, s.len() as int), p)
    } else {
        s
    }
}

/// Position of the first `c` in `s`, or `s.len()` when there is none.
pub open spec fn first_index(s: Seq<char>, c: char) -> int
    decreases s.len(),
{
    if s.len() == 0 {
        0
    } else if s[0] == c {
        0
    } else {
        1 + first_index(s.drop_first(), c)
    }
}

/// The pieces of `s` between occurrences of `sep`; always at least one piece.
pub open spec fn split(s: Seq<char>, sep: char) -> Seq<Seq<char>>
    decreases s.len(),
{
    let i = first_index(s, sep);
    if 0 <= i < s.len() {
        seq![s.take(i)] + split(s.skip(i + 1), sep)
    } else {
        seq![s]
    }
}

/// `first_index` is in range, points at `c` when inside `s`, and nothing
/// before it is `c`.
pub proof fn lemma_first_index(s: Seq<char>, c: char)
    ensures
        0 <= first_index(s, c) <= s.len(),
        first_index(s, c) < s.len() ==> s[first_index(s, c)] == c,
        forall|j: int| 0 <= j < first_index(s, c) ==> s[j] != c,
    decreases s.len(),
{
    if s.len() > 0 && s[0] != c {
        let t = s.drop_first();
        lemma_first_index(t, c);
        assert forall|j: int| 0 <= j < first_index(s, c) implies s[j] != c by {
            if j > 0 {
                assert(s[j] == t[j - 1]);
            }
        }
    }
}

/// Any position at which `c` stands and before which it does not is the
/// first index.
pub proof fn lemma_first_index_is(s: Seq<char>, c: char, i: int)
    requires
        0 <= i <= s.len(),
        i < s.len() ==> s[i] == c,
        forall|j: int| 0 <= j < i ==> s[j] != c,
    ensures
        first_index(s, c) == i,
    decreases s.len(),
{
    if s.len() > 0 && i > 0 {
        let t = s.drop_first();
        assert(s[0] != c);
        assert forall|j: int| 0 <= j < i - 1 implies t[j] != c by {
            assert(t[j] == s[j + 1]);
        }
        lemma_first_index_is(t, c, i - 1);
    }
}


/// The character sequences that a sequence of strings stands for.
pub open spec fn string_views(v: Seq<String>) -> Seq<Seq<char>> {
    v.map_values(|s: String| s@)
}

/// The characters of `v` from position `from` up to, not including, `to`.
pub(crate) fn slice_chars(v: &Vec<char>, from: usize, to: usize) -> (r: Vec<char>)
    requires
        from <= to <= v.len(),
    ensures
        r@ == v@.subrange(from as int, to as int),
{
    let mut out: Vec<char> = Vec::new();
    let mut i: usize = from;
    while i < to
        invariant
            from <= i <= to <= v.len(),
            out@ == v@.subrange(from as int, i as int),
        decreases to - i,
    {
        out.push(v[i]);
        i = i + 1;
    }
    out
}

/// Splits `s` at every `sep`, as `str::split` does for a character pattern.
pub fn split_str(s: &str, sep: char) -> (r: Vec<String>)
    ensures
        string_views(r@) == split(s@, sep),
        r.len() >= 1,
{
    let chars = chars_of(s);
    let mut out: Vec<String> = Vec::new();
    let mut start: usize = 0;
    let mut i: usize = 0;
    proof {
        assert(s@.skip(0) =~= s@);
        assert(string_views(out@) + split(s@, sep) =~= split(s@, sep));
    }
    while i < chars.len()
        invariant
            chars@ == s@,
            start <= i <= chars.len(),
            forall|j: int| start <= j < i ==> chars@[j] != sep,
            split(s@, sep) == string_views(out@) + split(s@.skip(start as int), sep),
        decreases chars.len() - i,
    {
        if chars[i] == sep {
            let piece = string_of(&slice_chars(&chars, start, i));
            proof {
                let rest = s@.skip(start as int);
                assert forall|j: int| 0 <= j < i - start implies rest[j] != sep by {
                    assert(rest[j] == chars@[start + j]);
                }
                lemma_first_index_is(rest, sep, i - start);
                assert(rest.take(i - start) =~= s@.subrange(start as int, i as int));
                assert(rest.skip(i - start + 1) =~= s@.skip(i + 1));
                assert(string_views(out@.push(piece)) =~= string_views(out@) + seq![piece@]);
            }
            out.push(piece);
            start = i + 1;
        }
        i = i + 1;
    }
    let last = string_of(&slice_chars(&chars, start, i));
    proof {
        let rest = s@.skip(start as int);
        assert forall|j: int| 0 <= j < rest.len() implies rest[j] != sep by {
            assert(rest[j] == chars@[start + j]);
        }
        lemma_first_index_is(rest, sep, rest.len() as int);
        assert(rest =~= s@.subrange(start as int, i as int));
        assert(string_views(out@.push(last)) =~= string_views(out@) + seq![last@]);
    }
    out.push(last);
    out
}


/// Removes one leading `c` from `s`, if there is one.
pub fn strip_leading(s: &str, c: char) -> (r: String)
    ensures
        r@ == strip_one(s@, c),
{
    let chars = chars_of(s);
    if chars.len() > 0 && chars[0] == c {
        string_of(&slice_chars(&chars, 1, chars.len()))
    } else {
        string_of(&chars)
    }
}

/// Whether `p` stands in `v` at position `at`.
fn matches_at(v: &Vec<char>, at: usize, p: &Vec<char>) -> (r: bool)
    requires
        at <= v.len(),
    ensures
        r == (at + p.len() <= v.len() && v@.subrange(at as int, at + p.len()) == p@),
{
    if p.len() > v.len() - at {
        return false;
    }
    let mut k: usize = 0;
    while k < p.len()
        invariant
            at + p.len() <= v.len(),
            k <= p.len(),
            forall|j: int| 0 <= j < k ==> v@[at + j] == p@[j],
        decreases p.len() - k,
    {
        if v[at + k] != p[k] {
            proof {
                assert(v@.subrange(at as int, at + p.len())[k as int] == v@[at + k]);
            }
            return false;
        }
        k = k + 1;
    }
    assert(v@.subrange(at as int, at + p.len()) =~= p@);
    true
}

/// Removes every leading repetition of `prefix` from `s`; an empty prefix
/// removes nothing.
pub fn strip_prefix_all(s: &str, prefix: &str) -> (r: String)
    ensures
        r@ == strip_all(s@, prefix@),
{
    let chars = chars_of(s);
    let p = chars_of(prefix);
    let mut at: usize = 0;
    if p.len() > 0 {
        proof {
            assert(s@.skip(0) =~= s@);
        }
        while matches_at(&chars, at, &p)
            invariant
                chars@ == s@,
                p@ == prefix@,
                p.len() > 0,
                at <= chars.len(),
                strip_all(s@, prefix@) == strip_all(s@.skip(at as int), prefix@),
            decreases chars.len() - at,
        {
            proof {
                let rest = s@.skip(at as int);
                assert(rest.subrange(0, p.len() as int) =~= s@.subrange(at as int, at + p.len()));
                assert(rest.subrange(p.len() as int, rest.len() as int) =~= s@.skip(at + p.len()));
            }
            at = at + p.len();
        }
        proof {
            let rest = s@.skip(at as int);
            if p.len() <= rest.len() {
                assert(rest.subrange(0, p.len() as int) =~= s@.subrange(at as int, at + p.len()));
            }
            assert(rest =~= s@.subrange(at as int, s@.len() as int));
        }
    } else {
        assert(s@.subrange(0, s@.len() as int) =~= s@);
    }
    string_of(&slice_chars(&chars, at, chars.len()))
}

/// Whether `needle` occurs somewhere in `hay`.
pub open spec fn contains(hay: Seq<char>, needle: Seq<char>) -> bool {
    exists|i: int|
        0 <= i && i + needle.len() <= hay.len() && #[trigger] hay.subrange(
            i,
            i + needle.len(),
        ) == needle
}

/// Substring test, as `str::contains` does for a string pattern.
pub fn contains_str(hay: &str, needle: &str) -> (r: bool)
    ensures
        r == contains(hay@, needle@),
{
    let h = chars_of(hay);
    let n = chars_of(needle);
    let mut i: usize = 0;
    while i < h.len()
        invariant
            h@ == hay@,
            n@ == needle@,
            i <= h.len(),
            forall|j: int|
                0 <= j < i ==> !(j + n@.len() <= h@.len() && #[trigger] h@.subrange(
                    j,
                    j + n@.len(),
                ) == n@),
        decreases h.len() - i,
    {
        if matches_at(&h, i, &n) {
            return true;
        }
        i = i + 1;
    }
    matches_at(&h, i, &n)
}


/// The pieces of `parts` written one after another with `sep` between
/// neighbours.
pub open spec fn join(parts: Seq<Seq<char>>, sep: Seq<char>) -> Seq<char>
    decreases parts.len(),
{
    if parts.len() == 0 {
        Seq::empty()
    } else if parts.len() == 1 {
        parts[0]
    } else {
        join(parts.drop_last(), sep) + sep + parts.last()
    }
}

/// Joins `parts` with `sep`, as `[String]::join` does.
pub fn join_strings(parts: &Vec<String>, sep: &str) -> (r: String)
    ensures
        r@ == join(string_views(parts@), sep@),
{
    let mut out = String::new();
    let mut i: usize = 0;
    while i < parts.len()
        invariant
            i <= parts.len(),
            out@ == join(string_views(parts@).take(i as int), sep@),
        decreases parts.len() - i,
    {
        proof {
            let all = string_views(parts@);
            let next = all.take(i + 1);
            assert(next.drop_last() =~= all.take(i as int));
            assert(next.last() == parts@[i as int]@);
        }
        if i > 0 {
            out.append(sep);
        }
        out.append(parts[i].as_str());
        proof {
            if i == 0 {
                assert(out@ =~= parts@[0]@);
            }
        }
        i = i + 1;
    }
    assert(string_views(parts@).take(parts.len() as int) =~= string_views(parts@));
    out
}


/// Whether `a` and `b` hold the same characters.
pub fn text_equals(a: &str, b: &str) -> (r: bool)
    ensures
        r == (a@ == b@),
{
    let x = chars_of(a);
    let y = chars_of(b);
    if x.len() != y.len() {
        return false;
    }
    let mut i: usize = 0;
    while i < x.len()
        invariant
            x@ == a@,
            y@ == b@,
            x.len() == y.len(),
            i <= x.len(),
            forall|j: int| 0 <= j < i ==> x@[j] == y@[j],
        decreases x.len() - i,
    {
        if x[i] != y[i] {
            return false;
        }
        i = i + 1;
    }
    assert(x@ =~= y@);
    true
}


/// The character that writes the digit `d`.
pub open spec fn digit_char(d: int) -> char {
    (d + '0' as int) as char
}

/// The decimal notation of `n`, without leading zeros.
pub open spec fn decimal(n: nat) -> Seq<char>
    decreases n,
{
    if n < 10 {
        seq![digit_char(n as int)]
    } else {
        decimal(n / 10).push(digit_char((n % 10) as int))
    }
}

/// Writes `n` in decimal notation.
pub fn decimal_text(n: u64) -> (r: String)
    ensures
        r@ == decimal(n as nat),
{
    let mut digits: Vec<char> = Vec::new();
    let mut rest: u64 = n;
    // Digits come out least significant first.
    assert(decimal(rest as nat) + digits@.reverse() =~= decimal(n as nat));
    while rest >= 10
        invariant
            decimal(n as nat) == decimal(rest as nat) + digits@.reverse(),
        decreases rest,
    {
        let d: u8 = (rest % 10) as u8;
        let c: char = (d + 48) as char;
        proof {
            assert(c == digit_char((rest % 10) as int));
            assert(digits@.push(c).reverse() =~= seq![c] + digits@.reverse());
            assert(decimal((rest / 10) as nat) + digits@.push(c).reverse() =~= decimal(
                rest as nat,
            ) + digits@.reverse());
        }
        digits.push(c);
        rest = rest / 10;
    }
    let d: u8 = rest as u8;
    let first: char = (d + 48) as char;
    let mut out: Vec<char> = Vec::new();
    out.push(first);
    let mut i: usize = digits.len();
    proof {
        assert(decimal(rest as nat) =~= seq![first]);
        assert(decimal(n as nat) =~= seq![first] + digits@.reverse());
        assert(digits@.reverse().take(0) =~= Seq::<char>::empty());
    }
    while i > 0
        invariant
            i <= digits.len(),
            out@ == seq![first] + digits@.reverse().take(digits.len() - i),
        decreases i,
    {
        i = i - 1;
        proof {
            let rev = digits@.reverse();
            assert(rev.take(digits.len() - i) =~= rev.take(digits.len() - i - 1).push(
                digits@[i as int],
            ));
        }
        out.push(digits[i]);
    }
    assert(digits@.reverse().take(digits.len() as int) =~= digits@.reverse());
    string_of(&out)
}

} // verus!
