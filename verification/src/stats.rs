use crate::error::{DockerError, DockerErrorView};
use crate::text::text_equals;
use vstd::prelude::*;

verus! {

/// A non-negative fraction `numerator / denominator` of a whole; one hundred
/// times it is a percentage.
#[derive(Debug, Clone, Copy)]
pub struct Ratio {
    pub numerator: u128,
    pub denominator: u128,
}

impl Ratio {
    /// A ratio is well formed when its denominator is not zero.
    pub open spec fn wf(&self) -> bool {
        self.denominator > 0
    }

    /// Whether the ratio is exactly zero.
    pub open spec fn is_zero(&self) -> bool {
        self.numerator == 0
    }

    /// The ratio that is exactly zero.
    pub fn zero() -> (r: Ratio)
        ensures
            r == (Ratio { numerator: 0, denominator: 1 }),
    {
        Ratio { numerator: 0, denominator: 1 }
    }
}

/// One reading of the cumulative processor counters.
#[derive(Debug)]
pub struct CpuSample {
    pub total_usage: u64,
    pub system_usage: Option<u64>,
    pub online_cpus: Option<u64>,
}

/// The byte counters of one network interface.
#[derive(Debug)]
pub struct NetworkSample {
    pub rx_bytes: u64,
    pub tx_bytes: u64,
}

/// One entry of the block-IO-by-operation counters.
#[derive(Debug)]
pub struct BlockIoEntry {
    pub op: String,
    pub value: u64,
}

/// What one stats query returns: the current and the previous processor
/// reading and the current memory, network and block counters.
#[derive(Debug)]
pub struct StatsRecord {
    pub cpu: CpuSample,
    pub precpu: CpuSample,
    pub memory_usage: Option<u64>,
    pub memory_limit: Option<u64>,
    pub networks: Option<Vec<NetworkSample>>,
    pub block_io: Option<Vec<BlockIoEntry>>,
}

/// A point-in-time sample of a container's resource usage. The two
/// percentages are held as shares of the whole: one hundred times the share
/// is the percentage.
#[derive(Debug)]
pub struct ContainerStats {
    pub cpu_usage_percent: Ratio,
    pub memory_usage: u64,
    pub memory_limit: u64,
    pub memory_usage_percent: Ratio,
    pub network_rx_bytes: u64,
    pub network_tx_bytes: u64,
    pub block_read_bytes: u64,
    pub block_write_bytes: u64,
}

/// How far a cumulative counter moved: `max(0, current - previous)`.
pub open spec fn delta(current: int, previous: int) -> int {
    if current > previous {
        current - previous
    } else {
        0
    }
}

/// A counter that was not reported counts as zero.
pub open spec fn reported(value: Option<u64>) -> int {
    match value {
        Some(v) => v as int,
        None => 0,
    }
}

/// The number of processors online; one when it is not reported.
pub open spec fn cpu_count(sample: CpuSample) -> int {
    match sample.online_cpus {
        Some(n) => n as int,
        None => 1,
    }
}

/// The processor share: `cpu_delta / system_delta * online_cpus` when both
/// deltas are positive, and exactly zero otherwise.
pub open spec fn cpu_ratio(cpu_delta: int, system_delta: int, online_cpus: int) -> Ratio {
    if system_delta > 0 && cpu_delta > 0 {
        Ratio {
            numerator: (cpu_delta * online_cpus) as u128,
            denominator: system_delta as u128,
        }
    } else {
        Ratio { numerator: 0, denominator: 1 }
    }
}

/// The processor share that a current and a previous reading give.
pub open spec fn cpu_usage(current: CpuSample, previous: CpuSample) -> Ratio {
    cpu_ratio(
        delta(current.total_usage as int, previous.total_usage as int),
        delta(reported(current.system_usage), reported(previous.system_usage)),
        cpu_count(current),
    )
}

/// The memory share: `usage / limit` when the limit is positive, and
/// exactly zero otherwise.
pub open spec fn memory_ratio(usage: int, limit: int) -> Ratio {
    if limit > 0 {
        Ratio { numerator: usage as u128, denominator: limit as u128 }
    } else {
        Ratio { numerator: 0, denominator: 1 }
    }
}

/// The sum of `values`.
pub open spec fn total(values: Seq<int>) -> int
    decreases values.len(),
{
    if values.len() == 0 {
        0
    } else {
        total(values.drop_last()) + values.last()
    }
}

/// A sum as a 64-bit counter holds it: the sum itself, or the largest
/// counter value where the sum is beyond it.
pub open spec fn capped(sum: int) -> int {
    if sum > u64::MAX {
        u64::MAX as int
    } else {
        sum
    }
}

/// The bytes received on each interface.
pub open spec fn received(networks: Seq<NetworkSample>) -> Seq<int> {
    networks.map_values(|n: NetworkSample| n.rx_bytes as int)
}

/// The bytes sent on each interface.
pub open spec fn sent(networks: Seq<NetworkSample>) -> Seq<int> {
    networks.map_values(|n: NetworkSample| n.tx_bytes as int)
}

/// What each entry counts towards the operation `op`: its value where its
/// label is `op`, nothing otherwise.
pub open spec fn counted(entries: Seq<BlockIoEntry>, op: Seq<char>) -> Seq<int> {
    entries.map_values(
        |e: BlockIoEntry|
            if e.op@ == op {
                e.value as int
            } else {
                0
            },
    )
}

/// A sum of values that are not negative is not negative.
proof fn lemma_total_nonnegative(values: Seq<int>)
    requires
        forall|i: int| 0 <= i < values.len() ==> values[i] >= 0,
    ensures
        total(values) >= 0,
    decreases values.len(),
{
    if values.len() > 0 {
        lemma_total_nonnegative(values.drop_last());
    }
}


/// How far a cumulative counter moved since the previous reading.
pub fn counter_delta(current: u64, previous: u64) -> (r: u64)
    ensures
        r == delta(current as int, previous as int),
{
    if current > previous {
        current - previous
    } else {
        0
    }
}

/// Adds a counter to a running sum that stops at the largest counter value.
fn add_capped(acc: u64, value: u64) -> (r: u64)
    ensures
        r == capped(acc + value),
{
    if acc > u64::MAX - value {
        u64::MAX
    } else {
        acc + value
    }
}

/// Capping a running sum early does not change the capped total.
proof fn lemma_capped_step(sum: int, value: int)
    requires
        sum >= 0,
        value >= 0,
    ensures
        capped(capped(sum) + value) == capped(sum + value),
{
}

/// The processor share of a stats record, from its current and previous
/// cumulative counters.
pub fn calculate_cpu_percentage(stats: &StatsRecord) -> (r: Ratio)
    ensures
        r == cpu_usage(stats.cpu, stats.precpu),
        r.wf(),
{
    let cpu_delta = counter_delta(stats.cpu.total_usage, stats.precpu.total_usage);
    let system_usage = match stats.cpu.system_usage {
        Some(usage) => usage,
        None => 0,
    };
    let system_previous = match stats.precpu.system_usage {
        Some(usage) => usage,
        None => 0,
    };
    let system_delta = counter_delta(system_usage, system_previous);
    let online_cpus: u64 = match stats.cpu.online_cpus {
        Some(cpus) => cpus,
        None => 1,
    };
    if system_delta > 0 && cpu_delta > 0 {
        assert(cpu_delta as int * online_cpus as int <= 0xffff_ffff_ffff_ffff
            * 0xffff_ffff_ffff_ffff) by (nonlinear_arith)
            requires
                0 <= cpu_delta as int <= 0xffff_ffff_ffff_ffff,
                0 <= online_cpus as int <= 0xffff_ffff_ffff_ffff,
        ;
        Ratio {
            numerator: (cpu_delta as u128) * (online_cpus as u128),
            denominator: system_delta as u128,
        }
    } else {
        Ratio::zero()
    }
}

/// The memory share of a usage under a limit; exactly zero without a limit.
pub fn memory_share(usage: u64, limit: u64) -> (r: Ratio)
    ensures
        r == memory_ratio(usage as int, limit as int),
        r.wf(),
{
    if limit > 0 {
        Ratio { numerator: usage as u128, denominator: limit as u128 }
    } else {
        Ratio::zero()
    }
}

/// Bytes received and sent, summed over all reported interfaces; both are
/// zero where no interface is reported.
pub fn get_network_stats(stats: &StatsRecord) -> (r: (u64, u64))
    ensures
        match stats.networks {
            Some(networks) => r.0 == capped(total(received(networks@))) && r.1 == capped(
                total(sent(networks@)),
            ),
            None => r == (0u64, 0u64),
        },
{
    match &stats.networks {
        Some(networks) => {
            let mut rx_bytes: u64 = 0;
            let mut tx_bytes: u64 = 0;
            let mut i: usize = 0;
            assert(received(networks@).take(0) =~= Seq::<int>::empty());
            assert(sent(networks@).take(0) =~= Seq::<int>::empty());
            while i < networks.len()
                invariant
                    i <= networks.len(),
                    rx_bytes == capped(total(received(networks@).take(i as int))),
                    tx_bytes == capped(total(sent(networks@).take(i as int))),
                decreases networks.len() - i,
            {
                proof {
                    let rx = received(networks@);
                    let tx = sent(networks@);
                    assert(rx.take(i + 1).drop_last() =~= rx.take(i as int));
                    assert(tx.take(i + 1).drop_last() =~= tx.take(i as int));
                    lemma_total_nonnegative(rx.take(i as int));
                    lemma_total_nonnegative(tx.take(i as int));
                    lemma_capped_step(total(rx.take(i as int)), networks@[i as int].rx_bytes as int);
                    lemma_capped_step(total(tx.take(i as int)), networks@[i as int].tx_bytes as int);
                }
                rx_bytes = add_capped(rx_bytes, networks[i].rx_bytes);
                tx_bytes = add_capped(tx_bytes, networks[i].tx_bytes);
                i = i + 1;
            }
            assert(received(networks@).take(i as int) =~= received(networks@));
            assert(sent(networks@).take(i as int) =~= sent(networks@));
            (rx_bytes, tx_bytes)
        },
        None => (0, 0),
    }
}

/// Bytes read and written, summed over the entries labelled `Read` and
/// `Write`; entries with another label count for neither.
pub fn get_block_io_stats(stats: &StatsRecord) -> (r: (u64, u64))
    ensures
        match stats.block_io {
            Some(entries) => r.0 == capped(total(counted(entries@, "Read"@))) && r.1 == capped(
                total(counted(entries@, "Write"@)),
            ),
            None => r == (0u64, 0u64),
        },
{
    match &stats.block_io {
        Some(entries) => {
            let mut read_bytes: u64 = 0;
            let mut write_bytes: u64 = 0;
            let mut i: usize = 0;
            assert(counted(entries@, "Read"@).take(0) =~= Seq::<int>::empty());
            assert(counted(entries@, "Write"@).take(0) =~= Seq::<int>::empty());
            while i < entries.len()
                invariant
                    i <= entries.len(),
                    read_bytes == capped(total(counted(entries@, "Read"@).take(i as int))),
                    write_bytes == capped(total(counted(entries@, "Write"@).take(i as int))),
                decreases entries.len() - i,
            {
                proof {
                    let rd = counted(entries@, "Read"@);
                    let wr = counted(entries@, "Write"@);
                    assert(rd.take(i + 1).drop_last() =~= rd.take(i as int));
                    assert(wr.take(i + 1).drop_last() =~= wr.take(i as int));
                    lemma_total_nonnegative(rd.take(i as int));
                    lemma_total_nonnegative(wr.take(i as int));
                    lemma_capped_step(total(rd.take(i as int)), rd[i as int]);
                    lemma_capped_step(total(wr.take(i as int)), wr[i as int]);
                }
                if text_equals(entries[i].op.as_str(), "Read") {
                    read_bytes = add_capped(read_bytes, entries[i].value);
                }
                if text_equals(entries[i].op.as_str(), "Write") {
                    write_bytes = add_capped(write_bytes, entries[i].value);
                }
                i = i + 1;
            }
            assert(counted(entries@, "Read"@).take(i as int) =~= counted(entries@, "Read"@));
            assert(counted(entries@, "Write"@).take(i as int) =~= counted(entries@, "Write"@));
            (read_bytes, write_bytes)
        },
        None => (0, 0),
    }
}


/// The sample that a stats record gives.
pub open spec fn sample_of(stats: StatsRecord) -> ContainerStats {
    ContainerStats {
        cpu_usage_percent: cpu_usage(stats.cpu, stats.precpu),
        memory_usage: reported(stats.memory_usage) as u64,
        memory_limit: reported(stats.memory_limit) as u64,
        memory_usage_percent: memory_ratio(reported(stats.memory_usage), reported(stats.memory_limit)),
        network_rx_bytes: match stats.networks {
            Some(networks) => capped(total(received(networks@))) as u64,
            None => 0,
        },
        network_tx_bytes: match stats.networks {
            Some(networks) => capped(total(sent(networks@))) as u64,
            None => 0,
        },
        block_read_bytes: match stats.block_io {
            Some(entries) => capped(total(counted(entries@, "Read"@))) as u64,
            None => 0,
        },
        block_write_bytes: match stats.block_io {
            Some(entries) => capped(total(counted(entries@, "Write"@))) as u64,
            None => 0,
        },
    }
}

impl ContainerStats {
    /// Derives the point-in-time sample from the cumulative counters of one
    /// stats query.
    pub fn from_record(stats: &StatsRecord) -> (r: ContainerStats)
        ensures
            r == sample_of(*stats),
            r.cpu_usage_percent.wf(),
            r.memory_usage_percent.wf(),
    {
        let cpu_usage_percent = calculate_cpu_percentage(stats);
        let memory_usage = match stats.memory_usage {
            Some(usage) => usage,
            None => 0,
        };
        let memory_limit = match stats.memory_limit {
            Some(limit) => limit,
            None => 0,
        };
        let memory_usage_percent = memory_share(memory_usage, memory_limit);
        let (network_rx_bytes, network_tx_bytes) = get_network_stats(stats);
        let (block_read_bytes, block_write_bytes) = get_block_io_stats(stats);
        ContainerStats {
            cpu_usage_percent,
            memory_usage,
            memory_limit,
            memory_usage_percent,
            network_rx_bytes,
            network_tx_bytes,
            block_read_bytes,
            block_write_bytes,
        }
    }
}

/// The message for statistics that are missing.
pub open spec fn stats_missing(container_id: Seq<char>) -> Seq<char> {
    "No stats found for container "@ + container_id
}

/// Judges the first item of the statistics stream of the container
/// `container_id`: a record gives its sample, an error is handed on, and a
/// stream without an item means that the statistics were not found.
pub fn stats_outcome(
    container_id: &str,
    first: Option<Result<StatsRecord, DockerError>>,
) -> (r: Result<ContainerStats, DockerError>)
    ensures
        match first {
            Some(Ok(record)) => r == Ok::<ContainerStats, DockerError>(sample_of(record)),
            Some(Err(e)) => r is Err && r->Err_0@ == e@,
            None => r is Err && r->Err_0@ == DockerErrorView::NotFound(
                stats_missing(container_id@),
            ),
        },
{
    match first {
        Some(Ok(record)) => Ok(ContainerStats::from_record(&record)),
        Some(Err(e)) => Err(e),
        None => Err(
            DockerError::NotFound(
                String::from_str("No stats found for container ").concat(container_id),
            ),
        ),
    }
}

/// Without movement of the processor counter or of the system counter the
/// processor share is exactly zero.
pub proof fn lemma_cpu_zero_without_delta(cpu_delta: int, system_delta: int, online_cpus: int)
    requires
        cpu_delta <= 0 || system_delta <= 0,
    ensures
        cpu_ratio(cpu_delta, system_delta, online_cpus).is_zero(),
        cpu_ratio(cpu_delta, system_delta, online_cpus).wf(),
{
}

/// Without a memory limit the memory share is exactly zero, and its
/// denominator is not.
pub proof fn lemma_memory_zero_without_limit(usage: int)
    ensures
        memory_ratio(usage, 0).is_zero(),
        memory_ratio(usage, 0).wf(),
{
}

} // verus!
