//! Performance page: CPU and memory figures from the system's counters, the rolling
//! histories behind the graphs, and which graph a control is.
use vstd::prelude::*;

use crate::resource::{IDC_CPUGRAPH, IDC_CPUMETER, IDC_LAST_CPUGRAPH, IDC_MEMGRAPH, IDC_MEMMETER, STATIC_CPU_GRAPH_COUNT};

verus! {

/// Samples kept per graph.
pub const HIST_SIZE: usize = 2000;
/// Spacing of the graph grid, in pixels.
pub const GRAPH_GRID: i32 = 12;

/// What the main window's status bar and tray icon show of the performance page.
#[derive(Clone, Copy, PartialEq, Eq, Structural, Debug, Default)]
pub struct PerformanceSnapshot {
    pub cpu_usage: u8,
    pub mem_usage_kb: u32,
    pub mem_limit_kb: u32,
    pub process_count: u32,
}

/// A history after one new sample: the newest value first, the oldest dropped, the
/// length unchanged (an empty history stays empty).
pub open spec fn spec_pushed(history: Seq<u8>, value: u8) -> Seq<u8> {
    if history.len() == 0 {
        history
    } else {
        seq![value] + history.take(history.len() - 1)
    }
}

/// Adds a sample to the front of a history, shifting the others back by one.
pub fn push_history(history: &mut Vec<u8>, value: u8)
    ensures
        final(history)@ == spec_pushed(old(history)@, value),
        final(history)@.len() == old(history)@.len(),
        final(history)@.len() > 0 ==> final(history)@[0] == value,
        forall|i: int| 1 <= i < final(history)@.len() ==> #[trigger] final(history)@[i] == old(history)@[i - 1],
{
    let n = history.len();
    if n == 0 {
        return;
    }
    let mut i: usize = n - 1;
    while i > 0
        invariant
            0 <= i < n,
            n == history@.len(),
            forall|k: int| 0 <= k <= i ==> #[trigger] history@[k] == old(history)@[k],
            forall|k: int| i < k < n ==> #[trigger] history@[k] == old(history)@[k - 1],
        decreases i,
    {
        let prev = history[i - 1];
        history.set(i, prev);
        i -= 1;
    }
    history.set(0, value);
    assert(history@ =~= spec_pushed(old(history)@, value));
}

/// A history of `n` zero samples.
pub fn zero_history(n: usize) -> (r: Vec<u8>)
    ensures
        r@ == Seq::new(n as nat, |_i: int| 0u8),
{
    let mut v: Vec<u8> = Vec::new();
    let mut i: usize = 0;
    while i < n
        invariant
            i <= n,
            v@ == Seq::new(i as nat, |_i: int| 0u8),
        decreases n - i,
    {
        v.push(0);
        i += 1;
        assert(v@ =~= Seq::new(i as nat, |_i: int| 0u8));
    }
    v
}

/// The sample at `index` of a history, 0 past its end.
pub open spec fn sample_at(history: Seq<u8>, index: int) -> int {
    if 0 <= index < history.len() { history[index] as int } else { 0 }
}

/// Sum of the samples at `index` over the first `n` histories.
pub open spec fn sum_at(sets: Seq<Vec<u8>>, n: int, index: int) -> int
    decreases n,
{
    if n <= 0 {
        0
    } else {
        sum_at(sets, n - 1, index) + sample_at(sets[n - 1]@, index)
    }
}

proof fn lemma_sum_at_monotone(sets: Seq<Vec<u8>>, k: int, n: int, index: int)
    requires
        0 <= k <= n,
    ensures
        0 <= sum_at(sets, k, index) <= sum_at(sets, n, index),
    decreases n - k,
{
    if k < n {
        lemma_sum_at_monotone(sets, k, n - 1, index);
    } else {
        lemma_sum_at_nonnegative(sets, n, index);
    }
}

proof fn lemma_sum_at_nonnegative(sets: Seq<Vec<u8>>, n: int, index: int)
    ensures
        0 <= sum_at(sets, n, index),
    decreases n,
{
    if n > 0 {
        lemma_sum_at_nonnegative(sets, n - 1, index);
    }
}

/// The sums that `average_history` computes fit in a `u32`.
pub open spec fn average_sums_fit(sets: Seq<Vec<u8>>) -> bool {
    sets.len() > 0 ==> forall|i: int| 0 <= i < sets[0]@.len() ==> #[trigger] sum_at(sets, sets.len() as int, i) <= u32::MAX
}

/// The combined graph of all processors: at each point the mean of the processors'
/// samples (a missing sample counts 0), at most 100; as long as the first history.
pub open spec fn spec_average_history(sets: Seq<Vec<u8>>) -> Seq<u8> {
    if sets.len() == 0 {
        Seq::empty()
    } else {
        Seq::new(sets[0]@.len(), |i: int| {
            let mean = sum_at(sets, sets.len() as int, i) / (sets.len() as int);
            (if mean < 100 { mean } else { 100 }) as u8
        })
    }
}

/// Whether `average_history` can average these histories: their count and every sum it
/// computes fit in a `u32`.
pub fn average_history_in_range(history_sets: &[Vec<u8>]) -> (r: bool)
    ensures
        r == (history_sets@.len() <= u32::MAX && average_sums_fit(history_sets@)),
{
    let n = history_sets.len();
    if n > 0xffff_ffffusize {
        return false;
    }
    if n == 0 {
        return true;
    }
    let len = history_sets[0].len();
    let mut index: usize = 0;
    while index < len
        invariant
            n == history_sets@.len(),
            0 < n <= u32::MAX,
            len == history_sets@[0]@.len(),
            index <= len,
            forall|i: int| 0 <= i < index ==> #[trigger] sum_at(history_sets@, n as int, i) <= u32::MAX,
        decreases len - index,
    {
        let mut sum: u64 = 0;
        let mut k: usize = 0;
        while k < n
            invariant
                n == history_sets@.len(),
                n <= u32::MAX,
                k <= n,
                sum == sum_at(history_sets@, k as int, index as int),
                sum <= 255 * k,
            decreases n - k,
        {
            let value: u64 = if index < history_sets[k].len() { history_sets[k][index] as u64 } else { 0 };
            sum = sum + value;
            k += 1;
        }
        if sum > 0xffff_ffffu64 {
            return false;
        }
        index += 1;
    }
    true
}

/// Averages the per-processor histories point by point.
pub fn average_history(history_sets: &[Vec<u8>]) -> (r: Vec<u8>)
    requires
        history_sets@.len() <= u32::MAX,
        average_sums_fit(history_sets@),
    ensures
        r@ == spec_average_history(history_sets@),
        forall|i: int| 0 <= i < r@.len() ==> #[trigger] r@[i] <= 100,
{
    if history_sets.len() == 0 {
        return Vec::new();
    }
    let n = history_sets.len();
    let len = history_sets[0].len();
    let mut averaged: Vec<u8> = Vec::new();
    let mut index: usize = 0;
    while index < len
        invariant
            n == history_sets@.len(),
            n > 0,
            n <= u32::MAX,
            average_sums_fit(history_sets@),
            len == history_sets@[0]@.len(),
            index <= len,
            averaged@.len() == index,
            forall|i: int| 0 <= i < index ==> #[trigger] averaged@[i] == spec_average_history(history_sets@)[i],
            forall|i: int| 0 <= i < index ==> #[trigger] averaged@[i] <= 100,
        decreases len - index,
    {
        let mut sum: u32 = 0;
        let mut k: usize = 0;
        while k < n
            invariant
                n == history_sets@.len(),
                n > 0,
                index < len,
                len == history_sets@[0]@.len(),
                average_sums_fit(history_sets@),
                k <= n,
                sum == sum_at(history_sets@, k as int, index as int),
            decreases n - k,
        {
            proof {
                lemma_sum_at_monotone(history_sets@, k as int + 1, n as int, index as int);
                assert(sum_at(history_sets@, n as int, index as int) <= u32::MAX);
            }
            let value: u32 = if index < history_sets[k].len() { history_sets[k][index] as u32 } else { 0 };
            sum = sum + value;
            k += 1;
        }
        let mean = sum / (n as u32);
        averaged.push(if mean < 100 { mean as u8 } else { 100 });
        index += 1;
    }
    assert(averaged@ =~= spec_average_history(history_sets@));
    averaged
}

/// `x` held to the range of `i64`, as the saturating operations hold it.
pub open spec fn sat_i64(x: int) -> i64 {
    if x < i64::MIN { i64::MIN } else if x > i64::MAX { i64::MAX } else { x as i64 }
}

/// `i64::saturating_add`.
pub fn saturating_add_i64(a: i64, b: i64) -> (r: i64)
    ensures
        r == sat_i64(a + b),
{
    let s = a as i128 + b as i128;
    if s < i64::MIN as i128 { i64::MIN } else if s > i64::MAX as i128 { i64::MAX } else { s as i64 }
}

/// `i64::saturating_sub`.
pub fn saturating_sub_i64(a: i64, b: i64) -> (r: i64)
    ensures
        r == sat_i64(a - b),
{
    let s = a as i128 - b as i128;
    if s < i64::MIN as i128 { i64::MIN } else if s > i64::MAX as i128 { i64::MAX } else { s as i64 }
}

/// Division rounding toward zero, as Rust's `/` on signed integers does.
pub open spec fn trunc_div(a: int, b: int) -> int {
    if a >= 0 { a / b } else { -((-a) / b) }
}

/// `x` held to 0..=100.
pub open spec fn clamp_percent(x: int) -> u8 {
    if x < 0 { 0 } else if x > 100 { 100 } else { x as u8 }
}

/// Busy share of an interval in percent: 100 minus the idle share.
pub open spec fn spec_busy_percent(idle_delta: i64, total_delta: i64) -> u8 {
    if total_delta > 0 { clamp_percent(100 - trunc_div(idle_delta * 100, total_delta as int)) } else { 0 }
}

/// Share of an interval in percent.
pub open spec fn spec_share_percent(part_delta: i64, total_delta: i64) -> u8 {
    if total_delta > 0 { clamp_percent(trunc_div(part_delta * 100, total_delta as int)) } else { 0 }
}

fn trunc_div_i128(a: i128, b: i128) -> (r: i128)
    requires
        b > 0,
        -0x1_0000_0000_0000_0000_0000 < a < 0x1_0000_0000_0000_0000_0000,
    ensures
        r == trunc_div(a as int, b as int),
{
    if a >= 0 { a / b } else { -((-a) / b) }
}

fn clamp_to_percent(x: i128) -> (r: u8)
    ensures
        r == clamp_percent(x as int),
{
    if x < 0 { 0 } else if x > 100 { 100 } else { x as u8 }
}

/// Busy share of an interval in percent.
pub fn busy_percent(idle_delta: i64, total_delta: i64) -> (r: u8)
    ensures
        r == spec_busy_percent(idle_delta, total_delta),
        r <= 100,
{
    if total_delta > 0 {
        let q = trunc_div_i128(idle_delta as i128 * 100, total_delta as i128);
        clamp_to_percent(100 - q)
    } else {
        0
    }
}

/// Share of an interval in percent.
pub fn share_percent(part_delta: i64, total_delta: i64) -> (r: u8)
    ensures
        r == spec_share_percent(part_delta, total_delta),
        r <= 100,
{
    if total_delta > 0 {
        let q = trunc_div_i128(part_delta as i128 * 100, total_delta as i128);
        clamp_to_percent(q)
    } else {
        0
    }
}

/// A processor's cumulative idle, kernel (idle included) and user times.
#[derive(Clone, Copy, PartialEq, Eq, Structural, Debug)]
pub struct ProcessorTimes {
    pub idle_time: i64,
    pub kernel_time: i64,
    pub user_time: i64,
}

/// Kernel time without idle time.
pub open spec fn busy_kernel(t: ProcessorTimes) -> i64 {
    sat_i64(t.kernel_time - t.idle_time)
}

/// Kernel plus user time.
pub open spec fn total_time(t: ProcessorTimes) -> i64 {
    sat_i64(t.kernel_time + t.user_time)
}

/// The per-processor histories of the CPU graphs and the counters of the previous sample.
pub struct CpuHistories {
    pub processor_count: usize,
    pub previous_idle_times: Vec<i64>,
    pub previous_total_times: Vec<i64>,
    pub previous_kernel_times: Vec<i64>,
    pub cpu_history: Vec<Vec<u8>>,
    pub kernel_history: Vec<Vec<u8>>,
}

impl CpuHistories {
    /// One entry per processor in every table, and full-length histories.
    pub open spec fn wf(&self) -> bool {
        &&& self.previous_idle_times@.len() == self.processor_count
        &&& self.previous_total_times@.len() == self.processor_count
        &&& self.previous_kernel_times@.len() == self.processor_count
        &&& self.cpu_history@.len() == self.processor_count
        &&& self.kernel_history@.len() == self.processor_count
        &&& forall|i: int| 0 <= i < self.processor_count ==> (#[trigger] self.cpu_history@[i])@.len() == HIST_SIZE
        &&& forall|i: int| 0 <= i < self.processor_count ==> (#[trigger] self.kernel_history@[i])@.len() == HIST_SIZE
    }

    /// Tables for `processor_count` processors, all zero.
    pub fn new(processor_count: usize) -> (r: Self)
        ensures
            r.wf(),
            r.processor_count == processor_count,
            forall|i: int| 0 <= i < processor_count ==> #[trigger] r.previous_idle_times@[i] == 0
                && r.previous_total_times@[i] == 0 && r.previous_kernel_times@[i] == 0,
            forall|i: int| 0 <= i < processor_count ==> (#[trigger] r.cpu_history@[i])@ == Seq::new(HIST_SIZE as nat, |_j: int| 0u8),
            forall|i: int| 0 <= i < processor_count ==> (#[trigger] r.kernel_history@[i])@ == Seq::new(HIST_SIZE as nat, |_j: int| 0u8),
    {
        let mut r = CpuHistories {
            processor_count,
            previous_idle_times: Vec::new(),
            previous_total_times: Vec::new(),
            previous_kernel_times: Vec::new(),
            cpu_history: Vec::new(),
            kernel_history: Vec::new(),
        };
        let mut i: usize = 0;
        while i < processor_count
            invariant
                r.processor_count == processor_count,
                i <= processor_count,
                r.previous_idle_times@.len() == i,
                r.previous_total_times@.len() == i,
                r.previous_kernel_times@.len() == i,
                r.cpu_history@.len() == i,
                r.kernel_history@.len() == i,
                forall|k: int| 0 <= k < i ==> #[trigger] r.previous_idle_times@[k] == 0
                    && r.previous_total_times@[k] == 0 && r.previous_kernel_times@[k] == 0,
                forall|k: int| 0 <= k < i ==> (#[trigger] r.cpu_history@[k])@ == Seq::new(HIST_SIZE as nat, |_j: int| 0u8),
                forall|k: int| 0 <= k < i ==> (#[trigger] r.kernel_history@[k])@ == Seq::new(HIST_SIZE as nat, |_j: int| 0u8),
            decreases processor_count - i,
        {
            r.previous_idle_times.push(0);
            r.previous_total_times.push(0);
            r.previous_kernel_times.push(0);
            r.cpu_history.push(zero_history(HIST_SIZE));
            r.kernel_history.push(zero_history(HIST_SIZE));
            i += 1;
        }
        r
    }
}

/// Sums of the idle, kernel and total deltas of the first `n` processors, each addition
/// saturating.
pub open spec fn spec_delta_sums(h: CpuHistories, samples: Seq<ProcessorTimes>, n: int) -> (i64, i64, i64)
    decreases n,
{
    if n <= 0 {
        (0, 0, 0)
    } else {
        let rest = spec_delta_sums(h, samples, n - 1);
        let t = samples[n - 1];
        let d_idle = sat_i64(t.idle_time - h.previous_idle_times@[n - 1]);
        let d_kernel = sat_i64(busy_kernel(t) - h.previous_kernel_times@[n - 1]);
        let d_total = sat_i64(total_time(t) - h.previous_total_times@[n - 1]);
        (sat_i64(rest.0 + d_idle), sat_i64(rest.1 + d_kernel), sat_i64(rest.2 + d_total))
    }
}

/// What one sample of every processor does to the histories.
pub open spec fn spec_sampled(old_h: CpuHistories, new_h: CpuHistories, samples: Seq<ProcessorTimes>, i: int) -> bool {
    let t = samples[i];
    let d_idle = sat_i64(t.idle_time - old_h.previous_idle_times@[i]);
    let d_kernel = sat_i64(busy_kernel(t) - old_h.previous_kernel_times@[i]);
    let d_total = sat_i64(total_time(t) - old_h.previous_total_times@[i]);
    &&& new_h.previous_idle_times@[i] == t.idle_time
    &&& new_h.previous_kernel_times@[i] == busy_kernel(t)
    &&& new_h.previous_total_times@[i] == total_time(t)
    &&& new_h.cpu_history@[i]@ == spec_pushed(old_h.cpu_history@[i]@, spec_busy_percent(d_idle, d_total))
    &&& new_h.kernel_history@[i]@ == spec_pushed(old_h.kernel_history@[i]@, spec_share_percent(d_kernel, d_total))
}

/// Takes one sample of every processor: each processor's graphs get its busy and kernel
/// shares since the previous sample, and the result is the shares over all processors.
pub fn refresh_cpu_histories(h: &mut CpuHistories, samples: &Vec<ProcessorTimes>) -> (r: (u8, u8))
    requires
        old(h).wf(),
        samples@.len() == old(h).processor_count,
    ensures
        final(h).wf(),
        final(h).processor_count == old(h).processor_count,
        forall|i: int| 0 <= i < samples@.len() ==> #[trigger] spec_sampled(*old(h), *final(h), samples@, i),
        ({
            let sums = spec_delta_sums(*old(h), samples@, samples@.len() as int);
            &&& r.0 == spec_busy_percent(sums.0, sums.2)
            &&& r.1 == spec_share_percent(sums.1, sums.2)
        }),
{
    let ghost start = *h;
    let n = samples.len();
    let mut sum_idle: i64 = 0;
    let mut sum_kernel: i64 = 0;
    let mut sum_total: i64 = 0;
    let mut index: usize = 0;
    while index < n
        invariant
            n == samples@.len(),
            start.wf(),
            h.wf(),
            h.processor_count == start.processor_count,
            n == start.processor_count,
            index <= n,
            forall|i: int| 0 <= i < index ==> #[trigger] spec_sampled(start, *h, samples@, i),
            forall|i: int| index <= i < n ==> #[trigger] h.previous_idle_times@[i] == start.previous_idle_times@[i],
            forall|i: int| index <= i < n ==> #[trigger] h.previous_kernel_times@[i] == start.previous_kernel_times@[i],
            forall|i: int| index <= i < n ==> #[trigger] h.previous_total_times@[i] == start.previous_total_times@[i],
            forall|i: int| index <= i < n ==> #[trigger] h.cpu_history@[i] == start.cpu_history@[i],
            forall|i: int| index <= i < n ==> #[trigger] h.kernel_history@[i] == start.kernel_history@[i],
            (sum_idle, sum_kernel, sum_total) == spec_delta_sums(start, samples@, index as int),
        decreases n - index,
    {
        let t = samples[index];
        let idle_time = t.idle_time;
        let kernel_time = saturating_sub_i64(t.kernel_time, t.idle_time);
        let total = saturating_add_i64(t.kernel_time, t.user_time);

        let delta_idle = saturating_sub_i64(idle_time, h.previous_idle_times[index]);
        let delta_kernel = saturating_sub_i64(kernel_time, h.previous_kernel_times[index]);
        let delta_total = saturating_sub_i64(total, h.previous_total_times[index]);

        sum_idle = saturating_add_i64(sum_idle, delta_idle);
        sum_kernel = saturating_add_i64(sum_kernel, delta_kernel);
        sum_total = saturating_add_i64(sum_total, delta_total);

        let cpu_percent = busy_percent(delta_idle, delta_total);
        let kernel_percent = share_percent(delta_kernel, delta_total);

        let ghost before = *h;
        push_history(&mut h.cpu_history[index], cpu_percent);
        push_history(&mut h.kernel_history[index], kernel_percent);
        h.previous_idle_times.set(index, idle_time);
        h.previous_total_times.set(index, total);
        h.previous_kernel_times.set(index, kernel_time);
        proof {
            assert forall|i: int| 0 <= i < index + 1 implies #[trigger] spec_sampled(start, *h, samples@, i) by {
                if i < index {
                    assert(spec_sampled(start, before, samples@, i));
                }
            }
        }
        index += 1;
    }
    (busy_percent(sum_idle, sum_total), share_percent(sum_kernel, sum_total))
}

/// The system-wide counters the performance page shows, as the system reports them.
#[derive(Clone, Copy, PartialEq, Eq, Structural, Debug)]
pub struct PerformanceInfo {
    pub page_size: usize,
    pub physical_total: usize,
    pub physical_available: usize,
    pub system_cache: usize,
    pub commit_total: usize,
    pub commit_limit: usize,
    pub commit_peak: usize,
    pub kernel_total: usize,
    pub kernel_paged: usize,
    pub kernel_nonpaged: usize,
    pub handle_count: u32,
    pub process_count: u32,
    pub thread_count: u32,
}

/// The figures of the performance page's text panel, in kilobytes and counts.
#[derive(Clone, Copy, PartialEq, Eq, Structural, Debug)]
pub struct MemoryFigures {
    pub total_physical_kb: u32,
    pub avail_physical_kb: u32,
    pub file_cache_kb: u32,
    pub physical_mem_limit_kb: u32,
    pub physical_mem_usage_kb: u32,
    pub commit_total_kb: u32,
    pub commit_limit_kb: u32,
    pub commit_peak_kb: u32,
    pub kernel_total_kb: u32,
    pub kernel_paged_kb: u32,
    pub kernel_nonpaged_kb: u32,
    pub handle_count: u32,
    pub process_count: u32,
    pub thread_count: u32,
}

/// Kilobytes in a page: the page size over 1024, at least 1.
pub open spec fn spec_page_kb(page_size: usize) -> int {
    if page_size / 1024 >= 1 { (page_size / 1024) as int } else { 1 }
}

/// A page count in kilobytes, held to what a `u32` holds.
pub open spec fn spec_pages_to_kb(page_count: usize, page_kb: int) -> u32 {
    let product = if page_count * page_kb > usize::MAX { usize::MAX as int } else { page_count * page_kb };
    if product > u32::MAX { u32::MAX } else { product as u32 }
}

fn pages_to_kb(page_count: usize, page_kb: usize) -> (r: u32)
    requires
        page_kb >= 1,
    ensures
        r == spec_pages_to_kb(page_count, page_kb as int),
{
    let product: usize = match page_count.checked_mul(page_kb) {
        Some(p) => p,
        None => usize::MAX,
    };
    if product > 0xffff_ffffusize { u32::MAX } else { product as u32 }
}

/// The memory figures of one system snapshot.
pub fn memory_figures(perf: &PerformanceInfo) -> (r: MemoryFigures)
    ensures
        ({
            let page_kb = spec_page_kb(perf.page_size);
            &&& r.total_physical_kb == spec_pages_to_kb(perf.physical_total, page_kb)
            &&& r.avail_physical_kb == spec_pages_to_kb(perf.physical_available, page_kb)
            &&& r.file_cache_kb == spec_pages_to_kb(perf.system_cache, page_kb)
            &&& r.physical_mem_limit_kb == r.total_physical_kb
            &&& r.physical_mem_usage_kb == (if r.total_physical_kb >= r.avail_physical_kb { r.total_physical_kb - r.avail_physical_kb } else { 0 })
            &&& r.commit_total_kb == spec_pages_to_kb(perf.commit_total, page_kb)
            &&& r.commit_limit_kb == spec_pages_to_kb(perf.commit_limit, page_kb)
            &&& r.commit_peak_kb == spec_pages_to_kb(perf.commit_peak, page_kb)
            &&& r.kernel_total_kb == spec_pages_to_kb(perf.kernel_total, page_kb)
            &&& r.kernel_paged_kb == spec_pages_to_kb(perf.kernel_paged, page_kb)
            &&& r.kernel_nonpaged_kb == spec_pages_to_kb(perf.kernel_nonpaged, page_kb)
            &&& r.handle_count == perf.handle_count
            &&& r.process_count == perf.process_count
            &&& r.thread_count == perf.thread_count
        }),
{
    let page_kb: usize = if perf.page_size / 1024 >= 1 { perf.page_size / 1024 } else { 1 };
    let total_physical_kb = pages_to_kb(perf.physical_total, page_kb);
    let avail_physical_kb = pages_to_kb(perf.physical_available, page_kb);
    MemoryFigures {
        total_physical_kb,
        avail_physical_kb,
        file_cache_kb: pages_to_kb(perf.system_cache, page_kb),
        physical_mem_limit_kb: total_physical_kb,
        physical_mem_usage_kb: total_physical_kb.saturating_sub(avail_physical_kb),
        commit_total_kb: pages_to_kb(perf.commit_total, page_kb),
        commit_limit_kb: pages_to_kb(perf.commit_limit, page_kb),
        commit_peak_kb: pages_to_kb(perf.commit_peak, page_kb),
        kernel_total_kb: pages_to_kb(perf.kernel_total, page_kb),
        kernel_paged_kb: pages_to_kb(perf.kernel_paged, page_kb),
        kernel_nonpaged_kb: pages_to_kb(perf.kernel_nonpaged, page_kb),
        handle_count: perf.handle_count,
        process_count: perf.process_count,
        thread_count: perf.thread_count,
    }
}

/// Share of the physical memory in use, in percent (0 when the limit is 0).
pub open spec fn spec_mem_percent(usage_kb: u32, limit_kb: u32) -> u8 {
    if limit_kb == 0 {
        0
    } else {
        let scaled = if usage_kb * 100 > u32::MAX { u32::MAX as int } else { usage_kb * 100 };
        let p = scaled / (limit_kb as int);
        (if p < 100 { p } else { 100 }) as u8
    }
}

/// Share of the physical memory in use.
pub fn mem_percent(usage_kb: u32, limit_kb: u32) -> (r: u8)
    ensures
        r == spec_mem_percent(usage_kb, limit_kb),
        r <= 100,
{
    if limit_kb == 0 {
        0
    } else {
        let scaled: u32 = match usage_kb.checked_mul(100) {
            Some(s) => s,
            None => u32::MAX,
        };
        let p = scaled / limit_kb;
        if p < 100 { p as u8 } else { 100 }
    }
}

/// The history mode that draws one graph per processor.
pub const CPU_HISTORY_PANES: i32 = 1;

/// How many CPU graphs are shown: one per processor (at least one, at most the dialog's
/// graph controls) in per-processor mode, else one.
pub fn visible_cpu_graph_count(cpu_history_mode: i32, processor_count: usize) -> (r: usize)
    ensures
        r == (if cpu_history_mode == CPU_HISTORY_PANES {
            if processor_count < 1 { 1 } else if processor_count > STATIC_CPU_GRAPH_COUNT { STATIC_CPU_GRAPH_COUNT } else { processor_count }
        } else {
            1usize
        }),
        1 <= r <= STATIC_CPU_GRAPH_COUNT,
{
    if cpu_history_mode == CPU_HISTORY_PANES {
        let at_least_one = if processor_count < 1 { 1 } else { processor_count };
        if at_least_one > STATIC_CPU_GRAPH_COUNT { STATIC_CPU_GRAPH_COUNT } else { at_least_one }
    } else {
        1
    }
}

/// The CPU graph pane a control is, if it is one of the graph controls.
pub fn cpu_graph_pane_index(control_id: i32) -> (r: Option<usize>)
    ensures
        r == (if IDC_CPUGRAPH <= control_id <= IDC_LAST_CPUGRAPH && control_id - IDC_CPUGRAPH < STATIC_CPU_GRAPH_COUNT {
            Some((control_id - IDC_CPUGRAPH) as usize)
        } else {
            None::<usize>
        }),
{
    if IDC_CPUGRAPH <= control_id && control_id <= IDC_LAST_CPUGRAPH {
        let pane_index = (control_id - IDC_CPUGRAPH) as usize;
        if pane_index < STATIC_CPU_GRAPH_COUNT { Some(pane_index) } else { None }
    } else {
        None
    }
}

/// The control id of a CPU graph pane.
pub fn cpu_graph_control_id(pane_index: usize) -> (r: i32)
    requires
        pane_index < STATIC_CPU_GRAPH_COUNT,
    ensures
        r == IDC_CPUGRAPH + pane_index,
{
    IDC_CPUGRAPH + pane_index as i32
}

/// The pane of a pane's control is the pane.
pub proof fn lemma_cpu_graph_control_round_trip(pane_index: usize)
    requires
        pane_index < STATIC_CPU_GRAPH_COUNT,
    ensures
        IDC_CPUGRAPH <= IDC_CPUGRAPH + pane_index <= IDC_LAST_CPUGRAPH,
        (IDC_CPUGRAPH + pane_index) - IDC_CPUGRAPH == pane_index,
{
}

/// Whether a control is drawn by the performance page.
pub fn is_graph_control(control_id: i32) -> (r: bool)
    ensures
        r == (control_id == IDC_MEMGRAPH || control_id == IDC_MEMMETER || control_id == IDC_CPUMETER
            || cpu_graph_pane_index_spec(control_id) is Some),
{
    control_id == IDC_MEMGRAPH || control_id == IDC_MEMMETER || control_id == IDC_CPUMETER
        || cpu_graph_pane_index(control_id).is_some()
}

/// The CPU graph pane a control is.
pub open spec fn cpu_graph_pane_index_spec(control_id: i32) -> Option<usize> {
    if IDC_CPUGRAPH <= control_id <= IDC_LAST_CPUGRAPH && control_id - IDC_CPUGRAPH < STATIC_CPU_GRAPH_COUNT {
        Some((control_id - IDC_CPUGRAPH) as usize)
    } else {
        None
    }
}

/// The grid's horizontal offset after a timer tick: two pixels on, modulo the grid.
pub fn next_scroll_offset(scroll_offset: i32) -> (r: i32)
    requires
        scroll_offset <= i32::MAX - 2,
    ensures
        r == (if scroll_offset + 2 >= 0 { (scroll_offset + 2) % 12 } else { -((-(scroll_offset + 2)) % 12) }),
{
    let s = scroll_offset + 2;
    if s >= 0 { s % GRAPH_GRID } else { -((-s) % GRAPH_GRID) }
}

/// A GDI color reference: red in the low byte, then green, then blue.
pub open spec fn spec_rgb(red: u8, green: u8, blue: u8) -> u32 {
    (red as u32 + green as u32 * 0x100 + blue as u32 * 0x1_0000) as u32
}

/// Packs a GDI color reference.
pub fn rgb(red: u8, green: u8, blue: u8) -> (r: u32)
    ensures
        r == spec_rgb(red, green, blue),
{
    let r = (red as u32) | ((green as u32) << 8u32) | ((blue as u32) << 16u32);
    assert((red as u32) | ((green as u32) << 8u32) | ((blue as u32) << 16u32)
        == red as u32 + (green as u32) * 0x100u32 + (blue as u32) * 0x1_0000u32) by (bit_vector)
        requires red < 256, green < 256, blue < 256;
    r
}


/// Within an interval, a part's share is its hundredfold divided by the interval, rounded
/// down, and the busy share is what the idle share leaves of 100; memory in use is the
/// same share of the limit.
pub proof fn lemma_percent_shares(part: i64, total: i64, usage_kb: u32, limit_kb: u32)
    ensures
        total > 0 && 0 <= part <= total ==> spec_share_percent(part, total) == (part * 100) / (total as int),
        total > 0 && 0 <= part <= total ==> spec_busy_percent(part, total) == 100 - (part * 100) / (total as int),
        limit_kb > 0 && usage_kb <= limit_kb && usage_kb * 100 <= u32::MAX
            ==> spec_mem_percent(usage_kb, limit_kb) == (usage_kb * 100) / (limit_kb as int),
{
    if total > 0 && 0 <= part <= total {
        assert(0 <= (part * 100) / (total as int) <= 100) by (nonlinear_arith)
            requires 0 <= part <= total, total > 0;
    }
    if limit_kb > 0 && usage_kb <= limit_kb {
        assert(0 <= (usage_kb * 100) / (limit_kb as int) <= 100) by (nonlinear_arith)
            requires usage_kb <= limit_kb, limit_kb > 0;
    }
}

} // verus!
