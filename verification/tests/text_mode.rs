use docker_core::error::DockerError;
use docker_core::stats::Ratio;
use docker_core::textmode::{
    is_blank, parse_image_line, parse_image_line_at, parse_image_listing, parse_percent,
    parse_size_pair, parse_stats_output,
};
use std::time::{SystemTime, UNIX_EPOCH};

fn percent(ratio: Ratio) -> f64 {
    ratio.numerator as f64 / ratio.denominator as f64 * 100.0
}

fn now() -> u64 {
    SystemTime::now().duration_since(UNIX_EPOCH).unwrap().as_secs()
}

#[test]
fn percent_sign_is_stripped() {
    let ratio = parse_percent("12.34%");
    assert_eq!(ratio.numerator, 12_340_000);
    assert_eq!(ratio.denominator, 100_000_000);
    assert!((percent(ratio) - 12.34).abs() < 1e-9);
    let ratio = parse_percent(" 0.50 % ");
    assert_eq!(ratio.numerator, 500_000);
    assert_eq!(ratio.denominator, 100_000_000);
    let ratio = parse_percent("100");
    assert_eq!(ratio.numerator, 100_000_000);
    assert_eq!(ratio.denominator, 100_000_000);
    let ratio = parse_percent("0%");
    assert_eq!(ratio.numerator, 0);
    assert_eq!(ratio.denominator, 100_000_000);
}

#[test]
fn percent_keeps_six_places() {
    let ratio = parse_percent("0.0000019%");
    assert_eq!(ratio.numerator, 2);
    let ratio = parse_percent("0.0000014%");
    assert_eq!(ratio.numerator, 1);
    assert_eq!(ratio.denominator, 100_000_000);
    let ratio = parse_percent("250.5%");
    assert_eq!(ratio.numerator, 250_500_000);
}

#[test]
fn unreadable_percent_is_zero() {
    for text in ["", "%", "--", "abc%", "1.2.3%", "12%%", "%12", "1e2%", "-5%", "."] {
        let ratio = parse_percent(text);
        assert_eq!(ratio.numerator, 0, "{:?}", text);
        assert_eq!(ratio.denominator, 1, "{:?}", text);
    }
}

#[test]
fn pairs_split_at_the_slash() {
    assert_eq!(parse_size_pair("1.5GB / 2GB"), (1_610_612_736, 2 * 1024 * 1024 * 1024));
    assert_eq!(parse_size_pair("10MB/20MB"), (10 * 1024 * 1024, 20 * 1024 * 1024));
    assert_eq!(parse_size_pair("648B / 0B"), (648, 0));
    assert_eq!(parse_size_pair("5K"), (5 * 1024, 0));
    assert_eq!(parse_size_pair(""), (0, 0));
    assert_eq!(parse_size_pair("/ 7"), (0, 7));
    assert_eq!(parse_size_pair("1 / 2 / 3"), (1, 2));
}

#[test]
fn blank_means_white_space_only() {
    assert!(is_blank(""));
    assert!(is_blank("  \t\r"));
    assert!(!is_blank(" x "));
    assert!(!is_blank("|"));
}

#[test]
fn a_stats_line_gives_a_sample() {
    let output = "12.34%|1.5GB / 2GB|75.00%|10MB / 20MB|1K / 2K\n";
    let sample = parse_stats_output("web-1", output).unwrap();
    assert_eq!(sample.cpu_usage_percent.numerator, 12_340_000);
    assert_eq!(sample.cpu_usage_percent.denominator, 100_000_000);
    assert_eq!(sample.memory_usage, 1_610_612_736);
    assert_eq!(sample.memory_limit, 2 * 1024 * 1024 * 1024);
    assert_eq!(sample.memory_usage_percent.numerator, 75_000_000);
    assert_eq!(sample.memory_usage_percent.denominator, 100_000_000);
    assert!((percent(sample.memory_usage_percent) - 75.0).abs() < 1e-9);
    assert_eq!(sample.network_rx_bytes, 10 * 1024 * 1024);
    assert_eq!(sample.network_tx_bytes, 20 * 1024 * 1024);
    assert_eq!(sample.block_read_bytes, 1024);
    assert_eq!(sample.block_write_bytes, 2048);
}

#[test]
fn only_the_first_stats_line_counts() {
    let output = "1%|1B / 2B|3%|4B / 5B|6B / 7B|extra\n99%|9B / 9B|9%|9B / 9B|9B / 9B";
    let sample = parse_stats_output("c", output).unwrap();
    assert_eq!(sample.cpu_usage_percent.numerator, 1_000_000);
    assert_eq!(sample.memory_usage, 1);
    assert_eq!(sample.memory_limit, 2);
    assert_eq!(sample.memory_usage_percent.numerator, 3_000_000);
    assert_eq!(sample.network_rx_bytes, 4);
    assert_eq!(sample.network_tx_bytes, 5);
    assert_eq!(sample.block_read_bytes, 6);
    assert_eq!(sample.block_write_bytes, 7);
}

#[test]
fn missing_stats_are_not_found() {
    for output in ["", "\n", "   \n1%|1B / 2B|3%|4B / 5B|6B / 7B", " \t "] {
        let error = parse_stats_output("web-1", output).err().unwrap();
        assert!(
            matches!(&error, DockerError::NotFound(m) if m == "No stats found for container web-1"),
            "{:?}: {:?}",
            output,
            error
        );
        assert_eq!(error.to_string(), "Not found: No stats found for container web-1");
    }
}

#[test]
fn a_short_stats_line_is_an_operation_error() {
    let error = parse_stats_output("web-1", "12%|1B / 2B|3%|4B / 5B").err().unwrap();
    assert!(matches!(
        &error,
        DockerError::OperationError(m) if m == "Failed to parse stats output: 12%|1B / 2B|3%|4B / 5B"
    ));
    let error = parse_stats_output("web-1", "Error response from daemon\n").err().unwrap();
    assert!(matches!(
        &error,
        DockerError::OperationError(m) if m == "Failed to parse stats output: Error response from daemon"
    ));
}

#[test]
fn an_image_line_gives_an_image() {
    let image = parse_image_line("abcdef012345|nginx:latest|187MB|2024-01-02 12:04:05 +0900").unwrap();
    assert_eq!(image.id, "abcdef012345");
    assert_eq!(image.repo_tags, vec!["nginx:latest".to_string()]);
    assert_eq!(image.size, 187 * 1024 * 1024);
    assert_eq!(image.created, 1_704_164_645);
}

#[test]
fn further_fields_are_left_out_of_account() {
    let image = parse_image_line("id|repo:tag|1K|2024-01-02T03:04:05|more|and more").unwrap();
    assert_eq!(image.id, "id");
    assert_eq!(image.repo_tags, vec!["repo:tag".to_string()]);
    assert_eq!(image.size, 1024);
    assert_eq!(image.created, 1_704_164_645);
}

#[test]
fn short_image_lines_are_dropped() {
    for line in ["", "id", "id|repo:tag", "id|repo:tag|1MB", "REPOSITORY   TAG   IMAGE ID"] {
        assert!(parse_image_line(line).is_none(), "{:?}", line);
        assert!(parse_image_line_at(line, 5).is_none(), "{:?}", line);
    }
}

#[test]
fn unreadable_creation_time_is_the_given_time() {
    let image = parse_image_line_at("id|<none>:<none>|12.5MB|3 weeks ago", 1_700_000_000).unwrap();
    assert_eq!(image.id, "id");
    assert_eq!(image.repo_tags, vec!["<none>:<none>".to_string()]);
    assert_eq!(image.size, 13_107_200);
    assert_eq!(image.created, 1_700_000_000);
    let image = parse_image_line_at("id|a:b|1B|2024-01-02 03:04:05", 1_700_000_000).unwrap();
    assert_eq!(image.created, 1_704_164_645);
}

#[test]
fn unreadable_creation_time_is_about_now() {
    let before = now();
    let image = parse_image_line("id|a:b|1B|3 weeks ago").unwrap();
    let after = now();
    assert!(before <= image.created + 1 && image.created <= after + 1);
}

#[test]
fn a_listing_keeps_the_order_and_drops_malformed_lines() {
    let output = "a1|nginx:latest|10MB|2024-01-02 03:04:05\n\
                  malformed line\n\
                  b2|redis:7|1.5GB|2024-01-02T03:04:06\n\
                  \n\
                  c3|<none>:<none>|0B|1970-01-01 00:00:00\n";
    let images = parse_image_listing(output);
    assert_eq!(images.len(), 3);
    assert_eq!(images[0].id, "a1");
    assert_eq!(images[0].repo_tags, vec!["nginx:latest".to_string()]);
    assert_eq!(images[0].size, 10 * 1024 * 1024);
    assert_eq!(images[0].created, 1_704_164_645);
    assert_eq!(images[1].id, "b2");
    assert_eq!(images[1].repo_tags, vec!["redis:7".to_string()]);
    assert_eq!(images[1].size, 1_610_612_736);
    assert_eq!(images[1].created, 1_704_164_646);
    assert_eq!(images[2].id, "c3");
    assert_eq!(images[2].size, 0);
    assert_eq!(images[2].created, 0);
    assert!(parse_image_listing("").is_empty());
    assert!(parse_image_listing("no images here\n").is_empty());
}
