//! Building the rows of a refresh from what the system reported of each process, and
//! sharing a 16-bit host's CPU time among its tasks.
use std::collections::HashMap;
use vstd::prelude::*;

use crate::procpage::{DirtyColumns, PreviousProcSample, ProcEntry, NORMAL_PRIORITY_CLASS};
use crate::proctext::{
    basename_from_path, eq_ignore_ascii_case, spec_basename, spec_eq_ignore_ascii_case,
};
use crate::strings::{chars_of, extend_chars, string_from_chars};

verus! {

broadcast use {vstd::std_specs::hash::group_hash_axioms, vstd::string::group_string_axioms};

/// A `FILETIME`'s two halves as one count of 100-ns units.
pub open spec fn spec_filetime(high: u32, low: u32) -> u64 {
    (high as int * 0x1_0000_0000 + low as int) as u64
}

/// Joins a `FILETIME`'s two halves.
pub fn filetime_to_u64(high: u32, low: u32) -> (r: u64)
    ensures
        r == spec_filetime(high, low),
        r as int == high as int * 0x1_0000_0000 + low as int,
{
    let r = ((high as u64) << 32u64) | (low as u64);
    assert(((high as u64) << 32u64) | (low as u64) == (high as u64) * 0x1_0000_0000u64 + (low as u64)) by (bit_vector);
    r
}

/// The share, in percent and at most 99, that `delta_100ns` of CPU time is of
/// `total_delta_100ns`, rounded to the nearest percent; 0 when no time passed.
pub open spec fn spec_cpu_percent(delta_100ns: u64, total_delta_100ns: u64) -> u8 {
    if total_delta_100ns == 0 {
        0
    } else {
        let scaled_total = if total_delta_100ns / 1000 >= 1 { total_delta_100ns / 1000 } else { 1 };
        let percent = ((delta_100ns / scaled_total) as int + 5) / 10;
        if percent < 99 { percent as u8 } else { 99 }
    }
}

/// CPU share of a process over one refresh interval.
pub fn cpu_percent_from_delta(delta_100ns: u64, total_delta_100ns: u64) -> (r: u8)
    ensures
        r == spec_cpu_percent(delta_100ns, total_delta_100ns),
        r <= 99,
{
    if total_delta_100ns == 0 {
        return 0;
    }
    let scaled_total = if total_delta_100ns / 1000 >= 1 { total_delta_100ns / 1000 } else { 1 };
    let q = delta_100ns / scaled_total;
    let percent = q / 10 + if q % 10 >= 5 { 1 } else { 0 };
    assert(percent as int == (q as int + 5) / 10);
    if percent < 99 {
        percent as u8
    } else {
        99
    }
}

/// What the previous refresh recorded of a process, or zeros for a new one.
pub open spec fn spec_previous(samples: Map<u32, PreviousProcSample>, pid: u32) -> PreviousProcSample {
    if samples.contains_key(pid) {
        samples[pid]
    } else {
        PreviousProcSample { raw_cpu_time_100ns: 0, display_cpu_time_100ns: 0, mem_usage_kb: 0, page_faults: 0 }
    }
}

/// What the previous refresh recorded of a process, or zeros for a new one.
pub fn previous_sample(samples: &HashMap<u32, PreviousProcSample>, pid: u32) -> (r: PreviousProcSample)
    ensures
        r == spec_previous(samples@, pid),
{
    match samples.get(&pid) {
        Some(p) => *p,
        None => PreviousProcSample::zero(),
    }
}

/// The user and session a process runs in, as one source reported them.
pub struct ProcessIdentity {
    pub user_name: String,
    pub session_id: u32,
}

/// What querying a process's token and image type gave.
pub struct IdentityQuery {
    pub user_name: String,
    pub session_id: u32,
    pub is_32_bit: bool,
}

/// The process's memory counters, in bytes and counts.
#[derive(Clone, Copy, PartialEq, Eq, Structural, Debug)]
pub struct MemoryCounters {
    pub working_set_size: u64,
    pub page_fault_count: u32,
    pub private_usage: u64,
    pub quota_paged_pool_usage: u64,
    pub quota_nonpaged_pool_usage: u64,
}

/// What could be read through a handle to the process.
pub struct ProcessCounters {
    pub is_32_bit: bool,
    /// Kernel plus user time, when the times could be read.
    pub cpu_time_100ns: Option<u64>,
    pub memory: Option<MemoryCounters>,
    pub handle_count: Option<u32>,
    /// The priority class, 0 when it could not be read.
    pub priority_class: u32,
}

/// Everything the system reported of one process in one refresh.
pub struct RawProcess {
    pub pid: u32,
    pub thread_count: u32,
    pub image_name: String,
    /// The identity listed by the terminal-services enumeration, if any.
    pub listed_identity: Option<ProcessIdentity>,
    /// The identity read from the process's token, when the process could be opened.
    pub identity_query: Option<IdentityQuery>,
    /// The counters, when the process could be opened for reading.
    pub counters: Option<ProcessCounters>,
}

/// The user name a row gets.
pub open spec fn spec_row_user(raw: RawProcess) -> Seq<char> {
    let listed = match raw.listed_identity {
        Some(id) => id.user_name@,
        None => Seq::empty(),
    };
    if raw.pid == 0 {
        "SYSTEM"@
    } else {
        match raw.identity_query {
            Some(q) => if q.user_name@.len() > 0 { q.user_name@ } else { listed },
            None => listed,
        }
    }
}

/// The session a row gets: the token's session, unless it is 0 and a listed one is not.
pub open spec fn spec_row_session(raw: RawProcess) -> u32 {
    let listed = match raw.listed_identity {
        Some(id) => id.session_id,
        None => 0,
    };
    if raw.pid == 0 {
        listed
    } else {
        match raw.identity_query {
            Some(q) => if q.session_id != 0 || listed == 0 { q.session_id } else { listed },
            None => listed,
        }
    }
}

/// Whether a row shows the 32-bit marker.
pub open spec fn spec_row_is_32_bit(raw: RawProcess) -> bool {
    match raw.counters {
        Some(c) => c.is_32_bit,
        None => match raw.identity_query {
            Some(q) => raw.pid != 0 && q.is_32_bit,
            None => false,
        },
    }
}

/// The row a refresh makes of one process, given the previous refresh's records.
pub open spec fn spec_process_row(
    e: ProcEntry,
    raw: RawProcess,
    previous: Map<u32, PreviousProcSample>,
    total_delta: u64,
) -> bool {
    let prev = spec_previous(previous, raw.pid);
    &&& e.pid == raw.pid
    &&& e.real_pid == raw.pid
    &&& e.image_name@ == raw.image_name@
    &&& e.is_32_bit == spec_row_is_32_bit(raw)
    &&& e.user_name@ == spec_row_user(raw)
    &&& e.session_id == spec_row_session(raw)
    &&& e.thread_count == raw.thread_count
    &&& e.wow_task_handle == 0
    &&& !e.is_wow_task
    &&& e.pass_count == 0
    &&& e.dirty_columns.0 == 0
    &&& match raw.counters {
        Some(c) => {
            &&& match c.cpu_time_100ns {
                Some(t) => {
                    &&& e.cpu_time_100ns == t
                    &&& e.display_cpu_time_100ns == t
                    &&& e.cpu == spec_cpu_percent(
                        if t >= prev.raw_cpu_time_100ns { (t - prev.raw_cpu_time_100ns) as u64 } else { 0 },
                        total_delta,
                    )
                },
                None => e.cpu_time_100ns == 0 && e.display_cpu_time_100ns == 0 && e.cpu == 0,
            }
            &&& match c.memory {
                Some(m) => {
                    &&& e.mem_usage_kb == (m.working_set_size / 1024) as u32
                    &&& e.mem_diff_kb == e.mem_usage_kb as int - prev.mem_usage_kb as int
                    &&& e.page_faults == m.page_fault_count
                    &&& e.page_faults_diff == m.page_fault_count as int - prev.page_faults as int
                    &&& e.commit_charge_kb == (m.private_usage / 1024) as u32
                    &&& e.paged_pool_kb == (m.quota_paged_pool_usage / 1024) as u32
                    &&& e.nonpaged_pool_kb == (m.quota_nonpaged_pool_usage / 1024) as u32
                },
                None => {
                    &&& e.mem_usage_kb == 0 && e.mem_diff_kb == 0 && e.page_faults == 0
                    &&& e.page_faults_diff == 0 && e.commit_charge_kb == 0
                    &&& e.paged_pool_kb == 0 && e.nonpaged_pool_kb == 0
                },
            }
            &&& e.handle_count == (match c.handle_count { Some(h) => h, None => 0 })
            &&& e.priority_class == (if c.priority_class != 0 { c.priority_class } else { NORMAL_PRIORITY_CLASS })
        },
        None => {
            &&& e.cpu == 0 && e.cpu_time_100ns == 0 && e.display_cpu_time_100ns == 0
            &&& e.mem_usage_kb == 0 && e.mem_diff_kb == 0 && e.page_faults == 0
            &&& e.page_faults_diff == 0 && e.commit_charge_kb == 0
            &&& e.paged_pool_kb == 0 && e.nonpaged_pool_kb == 0
            &&& e.handle_count == 0 && e.priority_class == NORMAL_PRIORITY_CLASS
        },
    }
}

/// What a refresh records of a process for the next one: only processes whose counters
/// could be read are recorded.
pub open spec fn spec_process_record(e: ProcEntry, raw: RawProcess) -> Option<PreviousProcSample> {
    match raw.counters {
        Some(c) => Some(PreviousProcSample {
            raw_cpu_time_100ns: match c.cpu_time_100ns { Some(t) => t, None => 0 },
            display_cpu_time_100ns: e.display_cpu_time_100ns,
            mem_usage_kb: e.mem_usage_kb,
            page_faults: e.page_faults,
        }),
        None => None,
    }
}

fn copy_string(s: &String) -> (r: String)
    ensures
        r@ == s@,
{
    s.clone()
}

/// Makes the row of one process and what to record of it for the next refresh.
pub fn build_process_entry(
    raw: &RawProcess,
    previous_samples: &HashMap<u32, PreviousProcSample>,
    total_delta: u64,
) -> (r: (ProcEntry, Option<PreviousProcSample>))
    ensures
        spec_process_row(r.0, *raw, previous_samples@, total_delta),
        r.1 == spec_process_record(r.0, *raw),
{
    let pid = raw.pid;
    let mut user_name = String::new();
    let mut session_id: u32 = 0;
    let mut is_32_bit = false;
    if let Some(id) = &raw.listed_identity {
        user_name = copy_string(&id.user_name);
        session_id = id.session_id;
    }
    if pid == 0 {
        user_name = String::from_str("SYSTEM");
        proof {
            reveal_strlit("SYSTEM");
        }
    } else if let Some(q) = &raw.identity_query {
        if q.user_name.unicode_len() > 0 {
            user_name = copy_string(&q.user_name);
        }
        if q.session_id != 0 || session_id == 0 {
            session_id = q.session_id;
        }
        is_32_bit = q.is_32_bit;
    }

    let mut entry = ProcEntry {
        pid,
        real_pid: pid,
        image_name: copy_string(&raw.image_name),
        is_32_bit,
        user_name,
        session_id,
        cpu: 0,
        cpu_time_100ns: 0,
        display_cpu_time_100ns: 0,
        mem_usage_kb: 0,
        mem_diff_kb: 0,
        page_faults: 0,
        page_faults_diff: 0,
        commit_charge_kb: 0,
        paged_pool_kb: 0,
        nonpaged_pool_kb: 0,
        priority_class: NORMAL_PRIORITY_CLASS,
        handle_count: 0,
        thread_count: raw.thread_count,
        wow_task_handle: 0,
        is_wow_task: false,
        pass_count: 0,
        dirty_columns: DirtyColumns(0),
    };

    match &raw.counters {
        None => (entry, None),
        Some(c) => {
            let mut raw_cpu_time_100ns: u64 = 0;
            entry.is_32_bit = c.is_32_bit;
            if let Some(cpu_time_100ns) = c.cpu_time_100ns {
                let previous = previous_sample(previous_samples, pid);
                let delta = cpu_time_100ns.saturating_sub(previous.raw_cpu_time_100ns);
                raw_cpu_time_100ns = cpu_time_100ns;
                entry.cpu_time_100ns = cpu_time_100ns;
                entry.display_cpu_time_100ns = cpu_time_100ns;
                entry.cpu = cpu_percent_from_delta(delta, total_delta);
            }
            if let Some(m) = c.memory {
                let previous = previous_sample(previous_samples, pid);
                entry.mem_usage_kb = (m.working_set_size / 1024) as u32;
                entry.mem_diff_kb = entry.mem_usage_kb as i64 - previous.mem_usage_kb as i64;
                entry.page_faults = m.page_fault_count;
                entry.page_faults_diff = entry.page_faults as i64 - previous.page_faults as i64;
                entry.commit_charge_kb = (m.private_usage / 1024) as u32;
                entry.paged_pool_kb = (m.quota_paged_pool_usage / 1024) as u32;
                entry.nonpaged_pool_kb = (m.quota_nonpaged_pool_usage / 1024) as u32;
            }
            if let Some(h) = c.handle_count {
                entry.handle_count = h;
            }
            if c.priority_class != 0 {
                entry.priority_class = c.priority_class;
            }
            let record = PreviousProcSample {
                raw_cpu_time_100ns,
                display_cpu_time_100ns: entry.display_cpu_time_100ns,
                mem_usage_kb: entry.mem_usage_kb,
                page_faults: entry.page_faults,
            };
            (entry, Some(record))
        },
    }
}

/// The records of a refresh: each recorded process's record, a later one for the same id
/// replacing an earlier one.
pub open spec fn spec_records(rows: Seq<ProcEntry>, raws: Seq<RawProcess>) -> Map<u32, PreviousProcSample>
    decreases raws.len(),
{
    if raws.len() == 0 || rows.len() != raws.len() {
        Map::empty()
    } else {
        let rest = spec_records(rows.drop_last(), raws.drop_last());
        match spec_process_record(rows.last(), raws.last()) {
            Some(p) => rest.insert(raws.last().pid, p),
            None => rest,
        }
    }
}

/// Makes the rows of every reported process, in the order reported, and the records
/// for the next refresh.
pub fn collect_process_entries(
    raws: &Vec<RawProcess>,
    previous_samples: &HashMap<u32, PreviousProcSample>,
    total_delta: u64,
) -> (r: (Vec<ProcEntry>, HashMap<u32, PreviousProcSample>))
    ensures
        r.0@.len() == raws@.len(),
        forall|i: int| 0 <= i < raws@.len() ==> spec_process_row(#[trigger] r.0@[i], raws@[i], previous_samples@, total_delta),
        r.1@ == spec_records(r.0@, raws@),
{
    let mut entries: Vec<ProcEntry> = Vec::new();
    let mut next_samples: HashMap<u32, PreviousProcSample> = HashMap::new();
    let mut i: usize = 0;
    while i < raws.len()
        invariant
            i <= raws@.len(),
            entries@.len() == i,
            forall|k: int| 0 <= k < i ==> spec_process_row(#[trigger] entries@[k], raws@[k], previous_samples@, total_delta),
            next_samples@ == spec_records(entries@, raws@.subrange(0, i as int)),
        decreases raws.len() - i,
    {
        let (entry, record) = build_process_entry(&raws[i], previous_samples, total_delta);
        let ghost before = entries@;
        proof {
            assert(raws@.subrange(0, i + 1).drop_last() =~= raws@.subrange(0, i as int));
            assert(before.push(entry).drop_last() =~= before);
        }
        if let Some(p) = record {
            next_samples.insert(raws[i].pid, p);
        }
        entries.push(entry);
        i += 1;
    }
    proof {
        assert(raws@.subrange(0, i as int) =~= raws@);
    }
    (entries, next_samples)
}

/// Indexes of the rows of 16-bit hosts (`ntvdm.exe`, in any ASCII case).
pub fn wow_host_indexes(entries: &Vec<ProcEntry>) -> (r: Vec<usize>)
    ensures
        forall|k: int| 0 <= k < r@.len() ==> #[trigger] r@[k] < entries@.len()
            && spec_eq_ignore_ascii_case(entries@[r@[k] as int].image_name@, "ntvdm.exe"@),
        forall|j: int| 0 <= j < entries@.len() && spec_eq_ignore_ascii_case(#[trigger] entries@[j].image_name@, "ntvdm.exe"@)
            ==> r@.contains(j as usize),
        forall|a: int, b: int| 0 <= a < b < r@.len() ==> r@[a] < r@[b],
{
    let mut out: Vec<usize> = Vec::new();
    let mut i: usize = 0;
    while i < entries.len()
        invariant
            i <= entries@.len(),
            forall|k: int| 0 <= k < out@.len() ==> #[trigger] out@[k] < i
                && spec_eq_ignore_ascii_case(entries@[out@[k] as int].image_name@, "ntvdm.exe"@),
            forall|j: int| 0 <= j < i && spec_eq_ignore_ascii_case(#[trigger] entries@[j].image_name@, "ntvdm.exe"@)
                ==> out@.contains(j as usize),
            forall|a: int, b: int| 0 <= a < b < out@.len() ==> out@[a] < out@[b],
        decreases entries.len() - i,
    {
        if eq_ignore_ascii_case(entries[i].image_name.as_str(), "ntvdm.exe") {
            let ghost before = out@;
            out.push(i);
            proof {
                assert forall|j: int| 0 <= j < i + 1 && spec_eq_ignore_ascii_case(#[trigger] entries@[j].image_name@, "ntvdm.exe"@)
                    implies out@.contains(j as usize) by {
                    if j < i {
                        let k = choose|k: int| 0 <= k < before.len() && before[k] == j as usize;
                        assert(out@[k] == j as usize);
                    } else {
                        assert(out@[before.len() as int] == j as usize);
                    }
                }
            }
        }
        i += 1;
    }
    out
}

/// How one 16-bit task's CPU time counts against what is left of its host's.
pub open spec fn spec_wow_delta(cpu_time_100ns: u64, previous_raw: u64, time_left_100ns: u64) -> u64 {
    let delta = if cpu_time_100ns >= previous_raw { (cpu_time_100ns - previous_raw) as u64 } else { 0 };
    if delta > time_left_100ns { time_left_100ns } else { delta }
}

/// The name a 16-bit task is listed under: its file name, indented by two spaces.
pub open spec fn spec_wow_task_name(file_name: Seq<char>) -> Seq<char> {
    seq![' ', ' '] + spec_basename(file_name)
}

/// The row of a 16-bit task run by the host in row `parent`.
pub open spec fn spec_wow_row(
    e: ProcEntry,
    parent: ProcEntry,
    parent_pid: u32,
    thread_id: u32,
    task16: u16,
    file_name: Seq<char>,
    cpu_time_100ns: u64,
    cpu: u8,
) -> bool {
    &&& e.pid == thread_id
    &&& e.real_pid == parent_pid
    &&& e.image_name@ == spec_wow_task_name(file_name)
    &&& e.cpu == cpu
    &&& e.cpu_time_100ns == cpu_time_100ns
    &&& e.display_cpu_time_100ns == cpu_time_100ns
    &&& e.priority_class == parent.priority_class
    &&& e.user_name@ == parent.user_name@
    &&& e.session_id == parent.session_id
    &&& e.handle_count == 0
    &&& e.thread_count == 1
    &&& e.wow_task_handle == task16
    &&& e.is_wow_task
    &&& e.pass_count == 0
    &&& e.dirty_columns.0 == 0
}

/// A row is the 16-bit task run by thread `thread_id`.
pub open spec fn is_wow_row_of(e: ProcEntry, thread_id: u32) -> bool {
    e.is_wow_task && e.pid == thread_id
}

/// Row `i` is the first row of the 16-bit task run by thread `thread_id`.
pub open spec fn first_wow_row(rows: Seq<ProcEntry>, thread_id: u32, i: int) -> bool {
    &&& 0 <= i < rows.len()
    &&& is_wow_row_of(rows[i], thread_id)
    &&& forall|k: int| 0 <= k < i ==> !is_wow_row_of(#[trigger] rows[k], thread_id)
}

/// Two rows agree in the 32-bit marker and the memory figures.
pub open spec fn same_memory(a: ProcEntry, b: ProcEntry) -> bool {
    &&& a.is_32_bit == b.is_32_bit && a.mem_usage_kb == b.mem_usage_kb && a.mem_diff_kb == b.mem_diff_kb
    &&& a.page_faults == b.page_faults && a.page_faults_diff == b.page_faults_diff
    &&& a.commit_charge_kb == b.commit_charge_kb && a.paged_pool_kb == b.paged_pool_kb
    &&& a.nonpaged_pool_kb == b.nonpaged_pool_kb
}

/// A row without the 32-bit marker and with no memory figures.
pub open spec fn no_memory(e: ProcEntry) -> bool {
    &&& !e.is_32_bit && e.mem_usage_kb == 0 && e.mem_diff_kb == 0 && e.page_faults == 0
    &&& e.page_faults_diff == 0 && e.commit_charge_kb == 0 && e.paged_pool_kb == 0 && e.nonpaged_pool_kb == 0
}

/// Index of the row of the 16-bit task run by thread `thread_id`.
fn find_wow_row(entries: &Vec<ProcEntry>, thread_id: u32) -> (r: Option<usize>)
    ensures
        match r {
            Some(i) => i < entries@.len() && entries@[i as int].is_wow_task && entries@[i as int].pid == thread_id
                && forall|k: int| 0 <= k < i ==> !(#[trigger] entries@[k].is_wow_task && entries@[k].pid == thread_id),
            None => forall|k: int| 0 <= k < entries@.len() ==> !(#[trigger] entries@[k].is_wow_task && entries@[k].pid == thread_id),
        },
{
    let mut i: usize = 0;
    while i < entries.len()
        invariant
            i <= entries@.len(),
            forall|k: int| 0 <= k < i ==> !(#[trigger] entries@[k].is_wow_task && entries@[k].pid == thread_id),
        decreases entries.len() - i,
    {
        if entries[i].is_wow_task && entries[i].pid == thread_id {
            return Some(i);
        }
        i += 1;
    }
    None
}

/// Accounts one 16-bit task of the host in row `parent_index`: its CPU time counts
/// against what is left of the host's, its row is updated or added, and it is recorded
/// for the next refresh.
pub fn apply_wow_task(
    entries: &mut Vec<ProcEntry>,
    next_samples: &mut HashMap<u32, PreviousProcSample>,
    previous_samples: &HashMap<u32, PreviousProcSample>,
    total_delta: u64,
    parent_index: usize,
    parent_pid: u32,
    time_left_100ns: &mut u64,
    thread_id: u32,
    task16: u16,
    file_name: &str,
    cpu_time_100ns: u64,
)
    requires
        parent_index < old(entries)@.len(),
    ensures
        ({
            let delta = spec_wow_delta(cpu_time_100ns, spec_previous(previous_samples@, thread_id).raw_cpu_time_100ns, *old(time_left_100ns));
            let cpu = spec_cpu_percent(delta, total_delta);
            let parent = old(entries)@[parent_index as int];
            &&& *final(time_left_100ns) == *old(time_left_100ns) - delta
            &&& forall|i: int| #[trigger] first_wow_row(old(entries)@, thread_id, i) ==> {
                &&& final(entries)@.len() == old(entries)@.len()
                &&& spec_wow_row(final(entries)@[i], parent, parent_pid, thread_id, task16, file_name@, cpu_time_100ns, cpu)
                &&& same_memory(final(entries)@[i], old(entries)@[i])
                &&& forall|k: int| 0 <= k < old(entries)@.len() && k != i ==> #[trigger] final(entries)@[k] == old(entries)@[k]
            }
            &&& (forall|k: int| 0 <= k < old(entries)@.len() ==> !is_wow_row_of(#[trigger] old(entries)@[k], thread_id)) ==> {
                &&& final(entries)@.len() == old(entries)@.len() + 1
                &&& spec_wow_row(final(entries)@[old(entries)@.len() as int], parent, parent_pid, thread_id, task16, file_name@, cpu_time_100ns, cpu)
                &&& no_memory(final(entries)@[old(entries)@.len() as int])
                &&& forall|k: int| 0 <= k < old(entries)@.len() ==> #[trigger] final(entries)@[k] == old(entries)@[k]
            }
        }),
        final(entries)@.len() >= old(entries)@.len(),
        final(entries)@.len() <= old(entries)@.len() + 1,
        final(entries)@[parent_index as int] == old(entries)@[parent_index as int]
            || old(entries)@[parent_index as int].is_wow_task,
        final(next_samples)@ == old(next_samples)@.insert(thread_id, PreviousProcSample {
            raw_cpu_time_100ns: cpu_time_100ns,
            display_cpu_time_100ns: cpu_time_100ns,
            mem_usage_kb: 0,
            page_faults: 0,
        }),
{
    let previous = previous_sample(previous_samples, thread_id);
    let mut delta_100ns = cpu_time_100ns.saturating_sub(previous.raw_cpu_time_100ns);
    if delta_100ns > *time_left_100ns {
        delta_100ns = *time_left_100ns;
    }
    *time_left_100ns = *time_left_100ns - delta_100ns;

    let base = basename_from_path(file_name);
    let mut name_chars: Vec<char> = Vec::new();
    name_chars.push(' ');
    name_chars.push(' ');
    assert(name_chars@ =~= seq![' ', ' ']);
    let base_chars = chars_of(base.as_str());
    extend_chars(&mut name_chars, &base_chars);
    let image_name = string_from_chars(&name_chars);
    assert(image_name@ == spec_wow_task_name(file_name@));
    let cpu = cpu_percent_from_delta(delta_100ns, total_delta);
    let parent_priority = entries[parent_index].priority_class;
    let parent_user_name = copy_string(&entries[parent_index].user_name);
    let parent_session_id = entries[parent_index].session_id;
    let ghost parent = entries@[parent_index as int];

    let row = ProcEntry {
        pid: thread_id,
        real_pid: parent_pid,
        image_name,
        is_32_bit: false,
        user_name: parent_user_name,
        session_id: parent_session_id,
        cpu,
        cpu_time_100ns,
        display_cpu_time_100ns: cpu_time_100ns,
        mem_usage_kb: 0,
        mem_diff_kb: 0,
        page_faults: 0,
        page_faults_diff: 0,
        commit_charge_kb: 0,
        paged_pool_kb: 0,
        nonpaged_pool_kb: 0,
        priority_class: parent_priority,
        handle_count: 0,
        thread_count: 1,
        wow_task_handle: task16,
        is_wow_task: true,
        pass_count: 0,
        dirty_columns: DirtyColumns(0),
    };
    match find_wow_row(entries, thread_id) {
        Some(i) => {
            let mut existing = row;
            existing.is_32_bit = entries[i].is_32_bit;
            existing.mem_usage_kb = entries[i].mem_usage_kb;
            existing.mem_diff_kb = entries[i].mem_diff_kb;
            existing.page_faults = entries[i].page_faults;
            existing.page_faults_diff = entries[i].page_faults_diff;
            existing.commit_charge_kb = entries[i].commit_charge_kb;
            existing.paged_pool_kb = entries[i].paged_pool_kb;
            existing.nonpaged_pool_kb = entries[i].nonpaged_pool_kb;
            let ghost before = entries@;
            entries.set(i, existing);
            assert(spec_wow_row(entries@[i as int], parent, parent_pid, thread_id, task16, file_name@, cpu_time_100ns, cpu));
            assert forall|j: int| #[trigger] first_wow_row(before, thread_id, j) implies j == i as int by {
                if j < i as int {
                    assert(!is_wow_row_of(before[j], thread_id));
                } else if j > i as int {
                    assert(!is_wow_row_of(before[i as int], thread_id));
                }
            }
            assert(is_wow_row_of(before[i as int], thread_id));
        },
        None => {
            entries.push(row);
            assert(spec_wow_row(entries@[entries@.len() - 1], parent, parent_pid, thread_id, task16, file_name@, cpu_time_100ns, cpu));
        },
    }
    next_samples.insert(thread_id, PreviousProcSample {
        raw_cpu_time_100ns: cpu_time_100ns,
        display_cpu_time_100ns: cpu_time_100ns,
        mem_usage_kb: 0,
        page_faults: 0,
    });
}

/// After its tasks: the host shows the CPU time its tasks did not account for, its
/// share over the interval, and that time is what is recorded as its shown time.
pub fn finish_wow_host(
    entries: &mut Vec<ProcEntry>,
    next_samples: &mut HashMap<u32, PreviousProcSample>,
    previous_samples: &HashMap<u32, PreviousProcSample>,
    total_delta: u64,
    parent_index: usize,
    parent_pid: u32,
    time_left_100ns: u64,
)
    requires
        parent_index < old(entries)@.len(),
    ensures
        ({
            let prev = spec_previous(previous_samples@, parent_pid).display_cpu_time_100ns;
            let delta = if time_left_100ns >= prev { (time_left_100ns - prev) as u64 } else { 0 };
            let host = final(entries)@[parent_index as int];
            &&& host.display_cpu_time_100ns == time_left_100ns
            &&& host.cpu == spec_cpu_percent(delta, total_delta)
        }),
        final(entries)@.len() == old(entries)@.len(),
        forall|k: int| 0 <= k < old(entries)@.len() && k != parent_index ==> #[trigger] final(entries)@[k] == old(entries)@[k],
        ({
            let host = final(entries)@[parent_index as int];
            let old_host = old(entries)@[parent_index as int];
            same_but_cpu(host, old_host)
        }),
        final(next_samples)@ == (if old(next_samples)@.contains_key(parent_pid) {
            old(next_samples)@.insert(parent_pid, PreviousProcSample {
                display_cpu_time_100ns: time_left_100ns,
                ..old(next_samples)@[parent_pid]
            })
        } else {
            old(next_samples)@
        }),
{
    let previous_parent = previous_sample(previous_samples, parent_pid);
    let parent_delta = time_left_100ns.saturating_sub(previous_parent.display_cpu_time_100ns);
    let cpu = cpu_percent_from_delta(parent_delta, total_delta);
    let mut host = entries[parent_index].duplicate();
    host.display_cpu_time_100ns = time_left_100ns;
    host.cpu = cpu;
    entries.set(parent_index, host);
    let recorded = match next_samples.get(&parent_pid) {
        Some(sample) => Some(*sample),
        None => None,
    };
    if let Some(sample) = recorded {
        let mut updated = sample;
        updated.display_cpu_time_100ns = time_left_100ns;
        next_samples.insert(parent_pid, updated);
    }
}

/// Two rows agree in everything but the CPU share and the shown CPU time.
pub open spec fn same_but_cpu(a: ProcEntry, b: ProcEntry) -> bool {
    a == ProcEntry { cpu: a.cpu, display_cpu_time_100ns: a.display_cpu_time_100ns, ..b }
}


/// A process's CPU share grows with the CPU time it used in the interval: none is 0 %, and
/// more time never shows a smaller share.
pub proof fn lemma_cpu_percent_grows(d1: u64, d2: u64, total: u64)
    ensures
        spec_cpu_percent(0, total) == 0,
        d1 <= d2 ==> spec_cpu_percent(d1, total) <= spec_cpu_percent(d2, total),
{
    if total != 0 {
        let scaled = if total / 1000 >= 1 { total / 1000 } else { 1 };
        assert(0u64 / scaled == 0);
        if d1 <= d2 {
            assert(d1 / scaled <= d2 / scaled) by (nonlinear_arith)
                requires d1 <= d2, scaled >= 1;
            assert((d1 / scaled + 5) / 10 <= (d2 / scaled + 5) / 10) by (nonlinear_arith)
                requires d1 / scaled <= d2 / scaled;
        }
    }
}

} // verus!
