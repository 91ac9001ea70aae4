use docker_core::error::DockerError;
use docker_core::stats::{
    calculate_cpu_percentage, counter_delta, get_block_io_stats, get_network_stats, memory_share,
    stats_outcome, BlockIoEntry, ContainerStats, CpuSample, NetworkSample, Ratio, StatsRecord,
};

fn percent(ratio: Ratio) -> f64 {
    ratio.numerator as f64 / ratio.denominator as f64 * 100.0
}

fn cpu_record(
    total: u64,
    previous: u64,
    system: Option<u64>,
    previous_system: Option<u64>,
    online: Option<u64>,
) -> StatsRecord {
    StatsRecord {
        cpu: CpuSample { total_usage: total, system_usage: system, online_cpus: online },
        precpu: CpuSample { total_usage: previous, system_usage: previous_system, online_cpus: None },
        memory_usage: None,
        memory_limit: None,
        networks: None,
        block_io: None,
    }
}

#[test]
fn cpu_percent_of_two_processors() {
    let stats = cpu_record(1200, 1000, Some(6000), Some(5000), Some(2));
    let ratio = calculate_cpu_percentage(&stats);
    assert_eq!(ratio.numerator, 400);
    assert_eq!(ratio.denominator, 1000);
    assert!((percent(ratio) - 40.0).abs() < 1e-9);
}

#[test]
fn cpu_percent_is_zero_without_cpu_delta() {
    for (total, previous) in [(1000u64, 1000u64), (900, 1000), (0, u64::MAX)] {
        let ratio = calculate_cpu_percentage(&cpu_record(total, previous, Some(6000), Some(5000), Some(2)));
        assert_eq!(ratio.numerator, 0);
        assert_eq!(ratio.denominator, 1);
        assert_eq!(percent(ratio), 0.0);
    }
}

#[test]
fn cpu_percent_is_zero_without_system_delta() {
    let cases = [
        (Some(5000u64), Some(5000u64)),
        (Some(4000), Some(5000)),
        (None, Some(5000)),
        (None, None),
        (Some(0), None),
    ];
    for (system, previous) in cases {
        let ratio = calculate_cpu_percentage(&cpu_record(1200, 1000, system, previous, Some(2)));
        assert_eq!(ratio.numerator, 0);
        assert_eq!(ratio.denominator, 1);
    }
}

#[test]
fn unreported_processor_count_is_one() {
    let ratio = calculate_cpu_percentage(&cpu_record(1200, 1000, Some(6000), Some(5000), None));
    assert_eq!(ratio.numerator, 200);
    assert_eq!(ratio.denominator, 1000);
    assert!((percent(ratio) - 20.0).abs() < 1e-9);
}

#[test]
fn unreported_previous_system_counter_is_zero() {
    let ratio = calculate_cpu_percentage(&cpu_record(1200, 1000, Some(6000), None, Some(1)));
    assert_eq!(ratio.numerator, 200);
    assert_eq!(ratio.denominator, 6000);
}

#[test]
fn zero_processors_give_zero_share() {
    let ratio = calculate_cpu_percentage(&cpu_record(1200, 1000, Some(6000), Some(5000), Some(0)));
    assert_eq!(ratio.numerator, 0);
    assert_eq!(ratio.denominator, 1000);
    assert_eq!(percent(ratio), 0.0);
}

#[test]
fn largest_counters_do_not_overflow() {
    let ratio = calculate_cpu_percentage(&cpu_record(u64::MAX, 0, Some(u64::MAX), Some(0), Some(u64::MAX)));
    assert_eq!(ratio.numerator, (u64::MAX as u128) * (u64::MAX as u128));
    assert_eq!(ratio.denominator, u64::MAX as u128);
}

#[test]
fn deltas_never_go_below_zero() {
    assert_eq!(counter_delta(10, 3), 7);
    assert_eq!(counter_delta(3, 10), 0);
    assert_eq!(counter_delta(3, 3), 0);
    assert_eq!(counter_delta(u64::MAX, 0), u64::MAX);
}

#[test]
fn memory_percent_is_zero_without_limit() {
    for usage in [0u64, 1, 1 << 30, u64::MAX] {
        let ratio = memory_share(usage, 0);
        assert_eq!(ratio.numerator, 0);
        assert_eq!(ratio.denominator, 1);
        assert_eq!(percent(ratio), 0.0);
    }
}

#[test]
fn memory_percent_of_a_limit() {
    let ratio = memory_share(512, 2048);
    assert_eq!(ratio.numerator, 512);
    assert_eq!(ratio.denominator, 2048);
    assert!((percent(ratio) - 25.0).abs() < 1e-9);
    assert_eq!(Ratio::zero().numerator, 0);
    assert_eq!(Ratio::zero().denominator, 1);
}

#[test]
fn network_counters_are_summed() {
    let mut stats = cpu_record(0, 0, None, None, None);
    assert_eq!(get_network_stats(&stats), (0, 0));
    stats.networks = Some(vec![]);
    assert_eq!(get_network_stats(&stats), (0, 0));
    stats.networks = Some(vec![
        NetworkSample { rx_bytes: 100, tx_bytes: 1 },
        NetworkSample { rx_bytes: 20, tx_bytes: 2 },
        NetworkSample { rx_bytes: 3, tx_bytes: 300 },
    ]);
    assert_eq!(get_network_stats(&stats), (123, 303));
}

#[test]
fn network_sums_stop_at_the_largest_value() {
    let mut stats = cpu_record(0, 0, None, None, None);
    stats.networks = Some(vec![
        NetworkSample { rx_bytes: u64::MAX - 1, tx_bytes: u64::MAX },
        NetworkSample { rx_bytes: 1, tx_bytes: 1 },
        NetworkSample { rx_bytes: 5, tx_bytes: 0 },
    ]);
    assert_eq!(get_network_stats(&stats), (u64::MAX, u64::MAX));
}

#[test]
fn block_counters_count_read_and_write_only() {
    let mut stats = cpu_record(0, 0, None, None, None);
    assert_eq!(get_block_io_stats(&stats), (0, 0));
    stats.block_io = Some(vec![
        BlockIoEntry { op: "Read".to_string(), value: 10 },
        BlockIoEntry { op: "Write".to_string(), value: 20 },
        BlockIoEntry { op: "Sync".to_string(), value: 1000 },
        BlockIoEntry { op: "read".to_string(), value: 1000 },
        BlockIoEntry { op: "Total".to_string(), value: 1000 },
        BlockIoEntry { op: "Read".to_string(), value: 5 },
        BlockIoEntry { op: "Write".to_string(), value: 7 },
        BlockIoEntry { op: "".to_string(), value: 9 },
    ]);
    assert_eq!(get_block_io_stats(&stats), (15, 27));
}

#[test]
fn block_sums_stop_at_the_largest_value() {
    let mut stats = cpu_record(0, 0, None, None, None);
    stats.block_io = Some(vec![
        BlockIoEntry { op: "Read".to_string(), value: u64::MAX },
        BlockIoEntry { op: "Read".to_string(), value: u64::MAX },
        BlockIoEntry { op: "Write".to_string(), value: 1 },
    ]);
    assert_eq!(get_block_io_stats(&stats), (u64::MAX, 1));
}

#[test]
fn whole_sample() {
    let stats = StatsRecord {
        cpu: CpuSample { total_usage: 700, system_usage: Some(3000), online_cpus: Some(4) },
        precpu: CpuSample { total_usage: 500, system_usage: Some(1000), online_cpus: Some(4) },
        memory_usage: Some(1024),
        memory_limit: Some(4096),
        networks: Some(vec![NetworkSample { rx_bytes: 7, tx_bytes: 9 }]),
        block_io: Some(vec![
            BlockIoEntry { op: "Read".to_string(), value: 11 },
            BlockIoEntry { op: "Write".to_string(), value: 13 },
        ]),
    };
    let sample = ContainerStats::from_record(&stats);
    assert_eq!(sample.cpu_usage_percent.numerator, 800);
    assert_eq!(sample.cpu_usage_percent.denominator, 2000);
    assert!((percent(sample.cpu_usage_percent) - 40.0).abs() < 1e-9);
    assert_eq!(sample.memory_usage, 1024);
    assert_eq!(sample.memory_limit, 4096);
    assert_eq!(sample.memory_usage_percent.numerator, 1024);
    assert_eq!(sample.memory_usage_percent.denominator, 4096);
    assert_eq!(sample.network_rx_bytes, 7);
    assert_eq!(sample.network_tx_bytes, 9);
    assert_eq!(sample.block_read_bytes, 11);
    assert_eq!(sample.block_write_bytes, 13);
}

#[test]
fn sample_without_memory_report() {
    let sample = ContainerStats::from_record(&cpu_record(1, 0, Some(1), Some(0), None));
    assert_eq!(sample.memory_usage, 0);
    assert_eq!(sample.memory_limit, 0);
    assert_eq!(sample.memory_usage_percent.numerator, 0);
    assert_eq!(sample.memory_usage_percent.denominator, 1);
    assert_eq!(sample.cpu_usage_percent.numerator, 1);
    assert_eq!(sample.cpu_usage_percent.denominator, 1);
    assert_eq!(sample.network_rx_bytes, 0);
    assert_eq!(sample.block_write_bytes, 0);
}

#[test]
fn the_first_stats_item_decides() {
    let record = cpu_record(1200, 1000, Some(6000), Some(5000), Some(2));
    let sample = stats_outcome("web-1", Some(Ok(record))).ok().unwrap();
    assert_eq!(sample.cpu_usage_percent.numerator, 400);
    assert_eq!(sample.cpu_usage_percent.denominator, 1000);

    let failed = stats_outcome("web-1", Some(Err(DockerError::PermissionDenied("no".to_string()))));
    assert!(matches!(failed, Err(DockerError::PermissionDenied(m)) if m == "no"));

    let missing = stats_outcome("web-1", None).err().unwrap();
    assert!(matches!(&missing, DockerError::NotFound(m) if m == "No stats found for container web-1"));
    assert_eq!(missing.to_string(), "Not found: No stats found for container web-1");
}
