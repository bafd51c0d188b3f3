//! Process page: the rows of the process list, how a refresh merges new samples into
//! them, how they are ordered, and how each column is rendered.
use vstd::prelude::*;

use crate::localization::{table_text, UiLanguage};
use crate::resource::{
    IDC_BASEPRIORITY, IDC_COMMITCHARGE, IDC_CPU, IDC_CPUTIME, IDC_HANDLECOUNT, IDC_IMAGENAME,
    IDC_MEMUSAGE, IDC_MEMUSAGEDIFF, IDC_NONPAGEDPOOL, IDC_PAGEDPOOL, IDC_PAGEFAULTS,
    IDC_PAGEFAULTSDIFF, IDC_PID, IDC_SESSIONID, IDC_THREADCOUNT, IDC_USERNAME, IDS_CANTCHANGEPRI,
    IDS_CANTDEBUG, IDS_CANTKILL, IDS_CANTSETAFFINITY, IDS_COL_BASEPRIORITY, IDS_COL_COMMITCHARGE,
    IDS_COL_CPU, IDS_COL_CPUTIME, IDS_COL_HANDLECOUNT, IDS_COL_IMAGENAME, IDS_COL_MEMUSAGE,
    IDS_COL_MEMUSAGEDIFF, IDS_COL_NONPAGEDPOOL, IDS_COL_PAGEDPOOL, IDS_COL_PAGEFAULTS,
    IDS_COL_PAGEFAULTSDIFF, IDS_COL_PID, IDS_COL_SESSIONID, IDS_COL_THREADCOUNT, IDS_COL_USERNAME,
    IDS_DEBUG, IDS_HIGH, IDS_INVALIDOPTION, IDS_KILL, IDS_LOW, IDS_NOAFFINITYMASK, IDS_NORMAL,
    IDS_PRICHANGE, IDS_REALTIME, IDS_UNKNOWN, IDS_WARNING,
};
use crate::strings::{
    compare_i64, compare_lowercase, compare_u64, decimal, decimal_chars, extend_chars, extend_str,
    int_order, lowercase_order, pad_left, pad_left_chars, signed_decimal, signed_decimal_chars,
    string_from_chars, SortOrder,
};
use crate::text_key::TextKey;
use crate::winutil::{append_32_bit_suffix, load_string, spec_load_string};

verus! {

broadcast use vstd::string::group_string_axioms;

/// `LVCFMT_LEFT`: left-aligned list-view column.
pub const LVCFMT_LEFT: i32 = 0;
/// `LVCFMT_RIGHT`: right-aligned list-view column.
pub const LVCFMT_RIGHT: i32 = 1;

/// `IDLE_PRIORITY_CLASS`.
pub const IDLE_PRIORITY_CLASS: u32 = 0x40;
/// `NORMAL_PRIORITY_CLASS`.
pub const NORMAL_PRIORITY_CLASS: u32 = 0x20;
/// `HIGH_PRIORITY_CLASS`.
pub const HIGH_PRIORITY_CLASS: u32 = 0x80;
/// `REALTIME_PRIORITY_CLASS`.
pub const REALTIME_PRIORITY_CLASS: u32 = 0x100;

/// The columns of the process list.
#[derive(Clone, Copy, PartialEq, Eq, Structural, Debug)]
pub enum ColumnId {
    ImageName,
    Pid,
    Username,
    SessionId,
    Cpu,
    CpuTime,
    MemUsage,
    MemUsageDiff,
    PageFaults,
    PageFaultsDiff,
    CommitCharge,
    PagedPool,
    NonPagedPool,
    BasePriority,
    HandleCount,
    ThreadCount,
}

impl ColumnId {
    /// Position of the column in the full column table.
    pub open spec fn spec_index(self) -> nat {
        match self {
            ColumnId::ImageName => 0,
            ColumnId::Pid => 1,
            ColumnId::Username => 2,
            ColumnId::SessionId => 3,
            ColumnId::Cpu => 4,
            ColumnId::CpuTime => 5,
            ColumnId::MemUsage => 6,
            ColumnId::MemUsageDiff => 7,
            ColumnId::PageFaults => 8,
            ColumnId::PageFaultsDiff => 9,
            ColumnId::CommitCharge => 10,
            ColumnId::PagedPool => 11,
            ColumnId::NonPagedPool => 12,
            ColumnId::BasePriority => 13,
            ColumnId::HandleCount => 14,
            ColumnId::ThreadCount => 15,
        }
    }

    /// Position of the column in the full column table.
    pub fn index(self) -> (r: u32)
        ensures
            r == self.spec_index(),
            r < 16,
    {
        match self {
            ColumnId::ImageName => 0,
            ColumnId::Pid => 1,
            ColumnId::Username => 2,
            ColumnId::SessionId => 3,
            ColumnId::Cpu => 4,
            ColumnId::CpuTime => 5,
            ColumnId::MemUsage => 6,
            ColumnId::MemUsageDiff => 7,
            ColumnId::PageFaults => 8,
            ColumnId::PageFaultsDiff => 9,
            ColumnId::CommitCharge => 10,
            ColumnId::PagedPool => 11,
            ColumnId::NonPagedPool => 12,
            ColumnId::BasePriority => 13,
            ColumnId::HandleCount => 14,
            ColumnId::ThreadCount => 15,
        }
    }
}

/// The column at a position of the full column table, if the position is one.
pub open spec fn spec_column_id_from_i32(value: i32) -> Option<ColumnId> {
    if value == 0 { Some(ColumnId::ImageName) }
    else if value == 1 { Some(ColumnId::Pid) }
    else if value == 2 { Some(ColumnId::Username) }
    else if value == 3 { Some(ColumnId::SessionId) }
    else if value == 4 { Some(ColumnId::Cpu) }
    else if value == 5 { Some(ColumnId::CpuTime) }
    else if value == 6 { Some(ColumnId::MemUsage) }
    else if value == 7 { Some(ColumnId::MemUsageDiff) }
    else if value == 8 { Some(ColumnId::PageFaults) }
    else if value == 9 { Some(ColumnId::PageFaultsDiff) }
    else if value == 10 { Some(ColumnId::CommitCharge) }
    else if value == 11 { Some(ColumnId::PagedPool) }
    else if value == 12 { Some(ColumnId::NonPagedPool) }
    else if value == 13 { Some(ColumnId::BasePriority) }
    else if value == 14 { Some(ColumnId::HandleCount) }
    else if value == 15 { Some(ColumnId::ThreadCount) }
    else { None }
}

/// Decodes a stored column number.
pub fn column_id_from_i32(value: i32) -> (r: Option<ColumnId>)
    ensures
        r == spec_column_id_from_i32(value),
        r matches Some(c) ==> c.spec_index() == value,
{
    if value == 0 { Some(ColumnId::ImageName) }
    else if value == 1 { Some(ColumnId::Pid) }
    else if value == 2 { Some(ColumnId::Username) }
    else if value == 3 { Some(ColumnId::SessionId) }
    else if value == 4 { Some(ColumnId::Cpu) }
    else if value == 5 { Some(ColumnId::CpuTime) }
    else if value == 6 { Some(ColumnId::MemUsage) }
    else if value == 7 { Some(ColumnId::MemUsageDiff) }
    else if value == 8 { Some(ColumnId::PageFaults) }
    else if value == 9 { Some(ColumnId::PageFaultsDiff) }
    else if value == 10 { Some(ColumnId::CommitCharge) }
    else if value == 11 { Some(ColumnId::PagedPool) }
    else if value == 12 { Some(ColumnId::NonPagedPool) }
    else if value == 13 { Some(ColumnId::BasePriority) }
    else if value == 14 { Some(ColumnId::HandleCount) }
    else if value == 15 { Some(ColumnId::ThreadCount) }
    else { None }
}

/// Decoding a column's own position gives the column back.
pub proof fn lemma_column_id_round_trip(c: ColumnId)
    ensures
        spec_column_id_from_i32(c.spec_index() as i32) == Some(c),
{
}

/// The columns named by a stored column list, skipping the entries that name none.
pub open spec fn spec_columns_from_values(values: Seq<i32>) -> Seq<ColumnId>
    decreases values.len(),
{
    if values.len() == 0 {
        Seq::empty()
    } else {
        let rest = spec_columns_from_values(values.drop_last());
        match spec_column_id_from_i32(values.last()) {
            Some(c) => rest.push(c),
            None => rest,
        }
    }
}

/// The active columns of the process list, in display order.
pub fn columns_from_options(active_process_columns: &[i32]) -> (r: Vec<ColumnId>)
    ensures
        r@ == spec_columns_from_values(active_process_columns@),
{
    let mut out: Vec<ColumnId> = Vec::new();
    let mut i: usize = 0;
    while i < active_process_columns.len()
        invariant
            i <= active_process_columns@.len(),
            out@ == spec_columns_from_values(active_process_columns@.subrange(0, i as int)),
        decreases active_process_columns.len() - i,
    {
        let value = active_process_columns[i];
        let ghost prefix = active_process_columns@.subrange(0, i + 1);
        assert(prefix.drop_last() =~= active_process_columns@.subrange(0, i as int));
        if let Some(c) = column_id_from_i32(value) {
            out.push(c);
        }
        i += 1;
    }
    assert(active_process_columns@.subrange(0, i as int) =~= active_process_columns@);
    out
}

/// Title, alignment and default width of a process-list column.
#[derive(Clone, Copy, PartialEq, Eq, Structural, Debug)]
pub struct ProcessColumn {
    pub title_id: u32,
    pub fmt: i32,
    pub default_width: i32,
}

impl ProcessColumn {
    pub fn new(title_id: u32, fmt: i32, default_width: i32) -> (r: Self)
        ensures
            r == (ProcessColumn { title_id, fmt, default_width }),
    {
        Self { title_id, fmt, default_width }
    }
}

/// The description of every process-list column.
pub open spec fn spec_process_column(c: ColumnId) -> ProcessColumn {
    match c {
        ColumnId::ImageName => ProcessColumn { title_id: IDS_COL_IMAGENAME, fmt: LVCFMT_LEFT, default_width: 107 },
        ColumnId::Pid => ProcessColumn { title_id: IDS_COL_PID, fmt: LVCFMT_RIGHT, default_width: 50 },
        ColumnId::Username => ProcessColumn { title_id: IDS_COL_USERNAME, fmt: LVCFMT_LEFT, default_width: 107 },
        ColumnId::SessionId => ProcessColumn { title_id: IDS_COL_SESSIONID, fmt: LVCFMT_RIGHT, default_width: 60 },
        ColumnId::Cpu => ProcessColumn { title_id: IDS_COL_CPU, fmt: LVCFMT_RIGHT, default_width: 35 },
        ColumnId::CpuTime => ProcessColumn { title_id: IDS_COL_CPUTIME, fmt: LVCFMT_RIGHT, default_width: 70 },
        ColumnId::MemUsage => ProcessColumn { title_id: IDS_COL_MEMUSAGE, fmt: LVCFMT_RIGHT, default_width: 70 },
        ColumnId::MemUsageDiff => ProcessColumn { title_id: IDS_COL_MEMUSAGEDIFF, fmt: LVCFMT_RIGHT, default_width: 70 },
        ColumnId::PageFaults => ProcessColumn { title_id: IDS_COL_PAGEFAULTS, fmt: LVCFMT_RIGHT, default_width: 70 },
        ColumnId::PageFaultsDiff => ProcessColumn { title_id: IDS_COL_PAGEFAULTSDIFF, fmt: LVCFMT_RIGHT, default_width: 70 },
        ColumnId::CommitCharge => ProcessColumn { title_id: IDS_COL_COMMITCHARGE, fmt: LVCFMT_RIGHT, default_width: 70 },
        ColumnId::PagedPool => ProcessColumn { title_id: IDS_COL_PAGEDPOOL, fmt: LVCFMT_RIGHT, default_width: 70 },
        ColumnId::NonPagedPool => ProcessColumn { title_id: IDS_COL_NONPAGEDPOOL, fmt: LVCFMT_RIGHT, default_width: 70 },
        ColumnId::BasePriority => ProcessColumn { title_id: IDS_COL_BASEPRIORITY, fmt: LVCFMT_RIGHT, default_width: 60 },
        ColumnId::HandleCount => ProcessColumn { title_id: IDS_COL_HANDLECOUNT, fmt: LVCFMT_RIGHT, default_width: 60 },
        ColumnId::ThreadCount => ProcessColumn { title_id: IDS_COL_THREADCOUNT, fmt: LVCFMT_RIGHT, default_width: 60 },
    }
}

/// Looks up the description of a process-list column.
pub fn process_column(c: ColumnId) -> (r: ProcessColumn)
    ensures
        r == spec_process_column(c),
{
    match c {
        ColumnId::ImageName => ProcessColumn::new(IDS_COL_IMAGENAME, LVCFMT_LEFT, 107),
        ColumnId::Pid => ProcessColumn::new(IDS_COL_PID, LVCFMT_RIGHT, 50),
        ColumnId::Username => ProcessColumn::new(IDS_COL_USERNAME, LVCFMT_LEFT, 107),
        ColumnId::SessionId => ProcessColumn::new(IDS_COL_SESSIONID, LVCFMT_RIGHT, 60),
        ColumnId::Cpu => ProcessColumn::new(IDS_COL_CPU, LVCFMT_RIGHT, 35),
        ColumnId::CpuTime => ProcessColumn::new(IDS_COL_CPUTIME, LVCFMT_RIGHT, 70),
        ColumnId::MemUsage => ProcessColumn::new(IDS_COL_MEMUSAGE, LVCFMT_RIGHT, 70),
        ColumnId::MemUsageDiff => ProcessColumn::new(IDS_COL_MEMUSAGEDIFF, LVCFMT_RIGHT, 70),
        ColumnId::PageFaults => ProcessColumn::new(IDS_COL_PAGEFAULTS, LVCFMT_RIGHT, 70),
        ColumnId::PageFaultsDiff => ProcessColumn::new(IDS_COL_PAGEFAULTSDIFF, LVCFMT_RIGHT, 70),
        ColumnId::CommitCharge => ProcessColumn::new(IDS_COL_COMMITCHARGE, LVCFMT_RIGHT, 70),
        ColumnId::PagedPool => ProcessColumn::new(IDS_COL_PAGEDPOOL, LVCFMT_RIGHT, 70),
        ColumnId::NonPagedPool => ProcessColumn::new(IDS_COL_NONPAGEDPOOL, LVCFMT_RIGHT, 70),
        ColumnId::BasePriority => ProcessColumn::new(IDS_COL_BASEPRIORITY, LVCFMT_RIGHT, 60),
        ColumnId::HandleCount => ProcessColumn::new(IDS_COL_HANDLECOUNT, LVCFMT_RIGHT, 60),
        ColumnId::ThreadCount => ProcessColumn::new(IDS_COL_THREADCOUNT, LVCFMT_RIGHT, 60),
    }
}

/// The check box of the column-selection dialog that stands for a column.
pub open spec fn spec_column_dialog_id(c: ColumnId) -> i32 {
    match c {
        ColumnId::ImageName => IDC_IMAGENAME,
        ColumnId::Pid => IDC_PID,
        ColumnId::Username => IDC_USERNAME,
        ColumnId::SessionId => IDC_SESSIONID,
        ColumnId::Cpu => IDC_CPU,
        ColumnId::CpuTime => IDC_CPUTIME,
        ColumnId::MemUsage => IDC_MEMUSAGE,
        ColumnId::MemUsageDiff => IDC_MEMUSAGEDIFF,
        ColumnId::PageFaults => IDC_PAGEFAULTS,
        ColumnId::PageFaultsDiff => IDC_PAGEFAULTSDIFF,
        ColumnId::CommitCharge => IDC_COMMITCHARGE,
        ColumnId::PagedPool => IDC_PAGEDPOOL,
        ColumnId::NonPagedPool => IDC_NONPAGEDPOOL,
        ColumnId::BasePriority => IDC_BASEPRIORITY,
        ColumnId::HandleCount => IDC_HANDLECOUNT,
        ColumnId::ThreadCount => IDC_THREADCOUNT,
    }
}

/// The check box of the column-selection dialog that stands for a column.
pub fn column_dialog_id(c: ColumnId) -> (r: i32)
    ensures
        r == spec_column_dialog_id(c),
{
    match c {
        ColumnId::ImageName => IDC_IMAGENAME,
        ColumnId::Pid => IDC_PID,
        ColumnId::Username => IDC_USERNAME,
        ColumnId::SessionId => IDC_SESSIONID,
        ColumnId::Cpu => IDC_CPU,
        ColumnId::CpuTime => IDC_CPUTIME,
        ColumnId::MemUsage => IDC_MEMUSAGE,
        ColumnId::MemUsageDiff => IDC_MEMUSAGEDIFF,
        ColumnId::PageFaults => IDC_PAGEFAULTS,
        ColumnId::PageFaultsDiff => IDC_PAGEFAULTSDIFF,
        ColumnId::CommitCharge => IDC_COMMITCHARGE,
        ColumnId::PagedPool => IDC_PAGEDPOOL,
        ColumnId::NonPagedPool => IDC_NONPAGEDPOOL,
        ColumnId::BasePriority => IDC_BASEPRIORITY,
        ColumnId::HandleCount => IDC_HANDLECOUNT,
        ColumnId::ThreadCount => IDC_THREADCOUNT,
    }
}

/// Whether bit `j` of `x` is set.
#[verifier::opaque]
pub open spec fn bit_set(x: u32, j: u32) -> bool {
    (x >> j) & 1u32 == 1u32
}

/// Setting bit `i` leaves every other bit as it was.
pub proof fn lemma_or_bit(x: u32, i: u32)
    requires
        i < 32,
    ensures
        forall|j: u32| j < 32 ==> #[trigger] bit_set(x | (1u32 << i), j) == (bit_set(x, j) || j == i),
{
    reveal(bit_set);
    assert forall|j: u32| j < 32 implies #[trigger] bit_set(x | (1u32 << i), j) == (bit_set(x, j) || j == i) by {
        assert((((x | (1u32 << i)) >> j) & 1u32 == 1u32) == (((x >> j) & 1u32 == 1u32) || j == i)) by (bit_vector)
            requires i < 32, j < 32;
    }
}

/// The set of columns whose text changed since a row was last drawn, one bit per column.
#[derive(Clone, Copy, PartialEq, Eq, Structural, Debug)]
pub struct DirtyColumns(pub u32);

impl DirtyColumns {
    /// Whether `column` is marked.
    pub open spec fn is_marked(self, column: ColumnId) -> bool {
        bit_set(self.0, column.spec_index() as u32)
    }

    /// No column marked.
    pub fn none() -> (r: Self)
        ensures
            r.0 == 0,
            forall|c: ColumnId| !r.is_marked(c),
    {
        proof {
            reveal(bit_set);
            assert(forall|j: u32| j < 32 ==> !bit_set(0u32, j)) by (bit_vector);
        }
        DirtyColumns(0)
    }

    /// Every column marked.
    pub fn all() -> (r: Self)
        ensures
            r.0 == u32::MAX,
            forall|c: ColumnId| r.is_marked(c),
    {
        proof {
            reveal(bit_set);
            assert(forall|j: u32| j < 32 ==> bit_set(0xffff_ffffu32, j)) by (bit_vector);
        }
        DirtyColumns(u32::MAX)
    }

    /// Only `column_id` marked.
    pub fn from_column(column_id: ColumnId) -> (r: Self)
        ensures
            r.0 == 1u32 << (column_id.spec_index() as u32),
            forall|c: ColumnId| r.is_marked(c) <==> c == column_id,
    {
        let i = column_id.index();
        proof {
            lemma_or_bit(0u32, i);
            assert(0u32 | (1u32 << i) == (1u32 << i)) by (bit_vector);
            reveal(bit_set);
            assert(forall|j: u32| j < 32 ==> !bit_set(0u32, j)) by (bit_vector);
            assert forall|c: ColumnId| #![auto] bit_set(1u32 << i, c.spec_index() as u32) <==> c == column_id by {
                assert(bit_set(0u32 | (1u32 << i), c.spec_index() as u32) == (bit_set(0u32, c.spec_index() as u32)
                    || c.spec_index() as u32 == i));
            }
        }
        DirtyColumns(1u32 << i)
    }

    /// Marks one more column, leaving the others as they were.
    pub fn mark(&mut self, column_id: ColumnId)
        ensures
            forall|c: ColumnId| final(self).is_marked(c) <==> (old(self).is_marked(c) || c == column_id),
    {
        let i = column_id.index();
        proof {
            lemma_or_bit(self.0, i);
            assert forall|c: ColumnId| #![auto] bit_set(self.0 | (1u32 << i), c.spec_index() as u32)
                <==> (bit_set(self.0, c.spec_index() as u32) || c == column_id) by {
                assert(bit_set(self.0 | (1u32 << i), c.spec_index() as u32) == (bit_set(self.0, c.spec_index() as u32)
                    || c.spec_index() as u32 == i));
            }
        }
        self.0 = self.0 | (1u32 << i);
    }

    /// Whether anything is marked.
    pub fn any(self) -> (r: bool)
        ensures
            r == (self.0 != 0),
            !r ==> forall|c: ColumnId| !self.is_marked(c),
    {
        proof {
            reveal(bit_set);
            assert(forall|j: u32| j < 32 ==> !bit_set(0u32, j)) by (bit_vector);
        }
        self.0 != 0
    }
}

} // verus!

verus! {

/// One row of the process list.
pub struct ProcEntry {
    pub pid: u32,
    pub real_pid: u32,
    pub image_name: String,
    pub is_32_bit: bool,
    pub user_name: String,
    pub session_id: u32,
    pub cpu: u8,
    pub cpu_time_100ns: u64,
    pub display_cpu_time_100ns: u64,
    pub mem_usage_kb: u32,
    pub mem_diff_kb: i64,
    pub page_faults: u32,
    pub page_faults_diff: i64,
    pub commit_charge_kb: u32,
    pub paged_pool_kb: u32,
    pub nonpaged_pool_kb: u32,
    pub priority_class: u32,
    pub handle_count: u32,
    pub thread_count: u32,
    pub wow_task_handle: u16,
    pub is_wow_task: bool,
    pub pass_count: u64,
    pub dirty_columns: DirtyColumns,
}

/// What the previous refresh measured of a process, for the per-interval deltas.
#[derive(Clone, Copy, PartialEq, Eq, Structural, Debug)]
pub struct PreviousProcSample {
    pub raw_cpu_time_100ns: u64,
    pub display_cpu_time_100ns: u64,
    pub mem_usage_kb: u32,
    pub page_faults: u32,
}

impl PreviousProcSample {
    /// A process seen for the first time: everything zero.
    pub fn zero() -> (r: Self)
        ensures
            r == (PreviousProcSample { raw_cpu_time_100ns: 0, display_cpu_time_100ns: 0, mem_usage_kb: 0, page_faults: 0 }),
    {
        PreviousProcSample { raw_cpu_time_100ns: 0, display_cpu_time_100ns: 0, mem_usage_kb: 0, page_faults: 0 }
    }
}

/// Two rows hold the same measured values: everything but the refresh pass and the dirty marks.
pub open spec fn same_values(a: ProcEntry, b: ProcEntry) -> bool {
    &&& a.pid == b.pid
    &&& a.real_pid == b.real_pid
    &&& a.image_name@ == b.image_name@
    &&& a.is_32_bit == b.is_32_bit
    &&& a.user_name@ == b.user_name@
    &&& a.session_id == b.session_id
    &&& a.cpu == b.cpu
    &&& a.cpu_time_100ns == b.cpu_time_100ns
    &&& a.display_cpu_time_100ns == b.display_cpu_time_100ns
    &&& a.mem_usage_kb == b.mem_usage_kb
    &&& a.mem_diff_kb == b.mem_diff_kb
    &&& a.page_faults == b.page_faults
    &&& a.page_faults_diff == b.page_faults_diff
    &&& a.commit_charge_kb == b.commit_charge_kb
    &&& a.paged_pool_kb == b.paged_pool_kb
    &&& a.nonpaged_pool_kb == b.nonpaged_pool_kb
    &&& a.priority_class == b.priority_class
    &&& a.handle_count == b.handle_count
    &&& a.thread_count == b.thread_count
    &&& a.wow_task_handle == b.wow_task_handle
    &&& a.is_wow_task == b.is_wow_task
}

/// Whether the text of `column` differs between two rows with these values.
pub open spec fn column_changed(old_entry: ProcEntry, new_entry: ProcEntry, column: ColumnId) -> bool {
    match column {
        ColumnId::ImageName => old_entry.image_name@ != new_entry.image_name@ || old_entry.is_32_bit != new_entry.is_32_bit,
        ColumnId::Pid => old_entry.pid != new_entry.pid,
        ColumnId::Username => old_entry.user_name@ != new_entry.user_name@,
        ColumnId::SessionId => old_entry.session_id != new_entry.session_id,
        ColumnId::Cpu => old_entry.cpu != new_entry.cpu,
        ColumnId::CpuTime => old_entry.display_cpu_time_100ns != new_entry.display_cpu_time_100ns,
        ColumnId::MemUsage => old_entry.mem_usage_kb != new_entry.mem_usage_kb,
        ColumnId::MemUsageDiff => old_entry.mem_diff_kb != new_entry.mem_diff_kb,
        ColumnId::PageFaults => old_entry.page_faults != new_entry.page_faults,
        ColumnId::PageFaultsDiff => old_entry.page_faults_diff != new_entry.page_faults_diff,
        ColumnId::CommitCharge => old_entry.commit_charge_kb != new_entry.commit_charge_kb,
        ColumnId::PagedPool => old_entry.paged_pool_kb != new_entry.paged_pool_kb,
        ColumnId::NonPagedPool => old_entry.nonpaged_pool_kb != new_entry.nonpaged_pool_kb,
        ColumnId::BasePriority => old_entry.priority_class != new_entry.priority_class,
        ColumnId::HandleCount => old_entry.handle_count != new_entry.handle_count,
        ColumnId::ThreadCount => old_entry.thread_count != new_entry.thread_count,
    }
}

/// The word with bit `k` set exactly for the flags `f_k` that hold.
#[verifier::opaque]
pub open spec fn mask_of(f0: bool, f1: bool, f2: bool, f3: bool, f4: bool, f5: bool, f6: bool, f7: bool, f8: bool, f9: bool, f10: bool, f11: bool, f12: bool, f13: bool, f14: bool, f15: bool) -> u32 {
    flag_bit(f0, 0) | flag_bit(f1, 1) | flag_bit(f2, 2) | flag_bit(f3, 3) | flag_bit(f4, 4) | flag_bit(f5, 5) | flag_bit(f6, 6) | flag_bit(f7, 7) | flag_bit(f8, 8) | flag_bit(f9, 9) | flag_bit(f10, 10) | flag_bit(f11, 11) | flag_bit(f12, 12) | flag_bit(f13, 13) | flag_bit(f14, 14) | flag_bit(f15, 15)
}

/// The bits of all columns whose text differs between the two rows: bit `k` for the
/// column at position `k`.
#[verifier::opaque]
pub open spec fn changed_mask(o: ProcEntry, n: ProcEntry) -> u32 {
    mask_of(
        column_changed(o, n, ColumnId::ImageName),
        column_changed(o, n, ColumnId::Pid),
        column_changed(o, n, ColumnId::Username),
        column_changed(o, n, ColumnId::SessionId),
        column_changed(o, n, ColumnId::Cpu),
        column_changed(o, n, ColumnId::CpuTime),
        column_changed(o, n, ColumnId::MemUsage),
        column_changed(o, n, ColumnId::MemUsageDiff),
        column_changed(o, n, ColumnId::PageFaults),
        column_changed(o, n, ColumnId::PageFaultsDiff),
        column_changed(o, n, ColumnId::CommitCharge),
        column_changed(o, n, ColumnId::PagedPool),
        column_changed(o, n, ColumnId::NonPagedPool),
        column_changed(o, n, ColumnId::BasePriority),
        column_changed(o, n, ColumnId::HandleCount),
        column_changed(o, n, ColumnId::ThreadCount),
    )
}

impl ProcEntry {
    /// An exact copy of the row.
    pub fn duplicate(&self) -> (r: ProcEntry)
        ensures
            r == *self,
    {
        ProcEntry {
            pid: self.pid,
            real_pid: self.real_pid,
            image_name: self.image_name.clone(),
            is_32_bit: self.is_32_bit,
            user_name: self.user_name.clone(),
            session_id: self.session_id,
            cpu: self.cpu,
            cpu_time_100ns: self.cpu_time_100ns,
            display_cpu_time_100ns: self.display_cpu_time_100ns,
            mem_usage_kb: self.mem_usage_kb,
            mem_diff_kb: self.mem_diff_kb,
            page_faults: self.page_faults,
            page_faults_diff: self.page_faults_diff,
            commit_charge_kb: self.commit_charge_kb,
            paged_pool_kb: self.paged_pool_kb,
            nonpaged_pool_kb: self.nonpaged_pool_kb,
            priority_class: self.priority_class,
            handle_count: self.handle_count,
            thread_count: self.thread_count,
            wow_task_handle: self.wow_task_handle,
            is_wow_task: self.is_wow_task,
            pass_count: self.pass_count,
            dirty_columns: self.dirty_columns,
        }
    }

    /// A new row, stamped with the refresh pass and with every column to be drawn.
    pub fn with_pass_count(self, pass_count: u64) -> (r: Self)
        ensures
            same_values(r, self),
            r.pass_count == pass_count,
            r.dirty_columns.0 == u32::MAX,
            forall|c: ColumnId| r.dirty_columns.is_marked(c),
    {
        let mut entry = self;
        entry.pass_count = pass_count;
        entry.dirty_columns = DirtyColumns::all();
        entry
    }
}

/// Rows stand for the same process (or the same 16-bit task) across refreshes.
pub open spec fn spec_same_identity(a: ProcEntry, b: ProcEntry) -> bool {
    a.pid == b.pid && a.is_wow_task == b.is_wow_task
}

/// Whether a fresh sample belongs to an existing row.
pub fn same_entry_identity(existing: &ProcEntry, snapshot: &ProcEntry) -> (r: bool)
    ensures
        r == spec_same_identity(*existing, *snapshot),
{
    existing.pid == snapshot.pid && existing.is_wow_task == snapshot.is_wow_task
}

/// Brings a row up to date with a fresh sample of the same process: afterwards it holds the
/// sample's values and the refresh pass, and exactly the columns whose text changed are
/// marked in addition to those marked before.
pub fn update_process_entry(entry: &mut ProcEntry, snapshot: &ProcEntry, pass_count: u64)
    ensures
        same_values(*final(entry), *snapshot),
        final(entry).pass_count == pass_count,
        final(entry).dirty_columns.0 == old(entry).dirty_columns.0 | changed_mask(*old(entry), *snapshot),
{
    let dirty = changed_columns(entry, snapshot);
    update_values(entry, snapshot, pass_count);
    entry.dirty_columns = dirty;
}

/// The bit `1 << k` when `flag` holds, else nothing.
#[verifier::opaque]
pub open spec fn flag_bit(flag: bool, k: u32) -> u32 {
    if flag { 1u32 << k } else { 0u32 }
}

/// The word `1 << k` when `flag` holds, else 0.
fn flag_word(flag: bool, k: u32) -> (r: u32)
    requires
        k < 32,
    ensures
        r == flag_bit(flag, k),
{
    proof {
        reveal(flag_bit);
    }
    if flag { 1u32 << k } else { 0u32 }
}

/// The word with bit `k` set exactly for the flags `f_k` that hold.
fn mask_of_flags(f0: bool, f1: bool, f2: bool, f3: bool, f4: bool, f5: bool, f6: bool, f7: bool, f8: bool, f9: bool, f10: bool, f11: bool, f12: bool, f13: bool, f14: bool, f15: bool) -> (m: u32)
    ensures
        m == mask_of(f0, f1, f2, f3, f4, f5, f6, f7, f8, f9, f10, f11, f12, f13, f14, f15),
{
    proof {
        reveal(mask_of);
    }
    flag_word(f0, 0) | flag_word(f1, 1) | flag_word(f2, 2) | flag_word(f3, 3) | flag_word(f4, 4) | flag_word(f5, 5) | flag_word(f6, 6) | flag_word(f7, 7) | flag_word(f8, 8) | flag_word(f9, 9) | flag_word(f10, 10) | flag_word(f11, 11) | flag_word(f12, 12) | flag_word(f13, 13) | flag_word(f14, 14) | flag_word(f15, 15)
}

/// The marks of `entry` plus the columns whose text differs in `snapshot`.
fn changed_columns(entry: &ProcEntry, snapshot: &ProcEntry) -> (r: DirtyColumns)
    ensures
        r.0 == entry.dirty_columns.0 | changed_mask(*entry, *snapshot),
{
    let f0 = entry.image_name != snapshot.image_name || entry.is_32_bit != snapshot.is_32_bit;
    let f1 = entry.pid != snapshot.pid;
    let f2 = entry.user_name != snapshot.user_name;
    let f3 = entry.session_id != snapshot.session_id;
    let f4 = entry.cpu != snapshot.cpu;
    let f5 = entry.display_cpu_time_100ns != snapshot.display_cpu_time_100ns;
    let f6 = entry.mem_usage_kb != snapshot.mem_usage_kb;
    let f7 = entry.mem_diff_kb != snapshot.mem_diff_kb;
    let f8 = entry.page_faults != snapshot.page_faults;
    let f9 = entry.page_faults_diff != snapshot.page_faults_diff;
    let f10 = entry.commit_charge_kb != snapshot.commit_charge_kb;
    let f11 = entry.paged_pool_kb != snapshot.paged_pool_kb;
    let f12 = entry.nonpaged_pool_kb != snapshot.nonpaged_pool_kb;
    let f13 = entry.priority_class != snapshot.priority_class;
    let f14 = entry.handle_count != snapshot.handle_count;
    let f15 = entry.thread_count != snapshot.thread_count;
    let m = mask_of_flags(f0, f1, f2, f3, f4, f5, f6, f7, f8, f9, f10, f11, f12, f13, f14, f15);
    let x = entry.dirty_columns.0;
    let r = DirtyColumns(x | m);
    assert(m == mask_of(f0, f1, f2, f3, f4, f5, f6, f7, f8, f9, f10, f11, f12, f13, f14, f15));
    proof {
        let e = *entry;
        let s = *snapshot;
        assert(f0 == column_changed(e, s, ColumnId::ImageName));
        assert(f1 == column_changed(e, s, ColumnId::Pid));
        assert(f2 == column_changed(e, s, ColumnId::Username));
        assert(f3 == column_changed(e, s, ColumnId::SessionId));
        assert(f4 == column_changed(e, s, ColumnId::Cpu));
        assert(f5 == column_changed(e, s, ColumnId::CpuTime));
        assert(f6 == column_changed(e, s, ColumnId::MemUsage));
        assert(f7 == column_changed(e, s, ColumnId::MemUsageDiff));
        assert(f8 == column_changed(e, s, ColumnId::PageFaults));
        assert(f9 == column_changed(e, s, ColumnId::PageFaultsDiff));
        assert(f10 == column_changed(e, s, ColumnId::CommitCharge));
        assert(f11 == column_changed(e, s, ColumnId::PagedPool));
        assert(f12 == column_changed(e, s, ColumnId::NonPagedPool));
        assert(f13 == column_changed(e, s, ColumnId::BasePriority));
        assert(f14 == column_changed(e, s, ColumnId::HandleCount));
        assert(f15 == column_changed(e, s, ColumnId::ThreadCount));
        assert(changed_mask(e, s) == mask_of(f0, f1, f2, f3, f4, f5, f6, f7, f8, f9, f10, f11, f12, f13, f14, f15)) by {
            reveal(changed_mask);
        }
        assert(m == changed_mask(e, s));
    }
    r
}

/// Copies the measured values of `snapshot` into `entry` and stamps the refresh pass.
fn update_values(entry: &mut ProcEntry, snapshot: &ProcEntry, pass_count: u64)
    ensures
        same_values(*final(entry), *snapshot),
        final(entry).pass_count == pass_count,
        final(entry).dirty_columns == old(entry).dirty_columns,
{
    if entry.image_name != snapshot.image_name {
        entry.image_name = snapshot.image_name.clone();
    }
    if entry.user_name != snapshot.user_name {
        entry.user_name = snapshot.user_name.clone();
    }
    entry.pass_count = pass_count;
    entry.real_pid = snapshot.real_pid;
    entry.is_32_bit = snapshot.is_32_bit;
    entry.pid = snapshot.pid;
    entry.session_id = snapshot.session_id;
    entry.cpu = snapshot.cpu;
    entry.cpu_time_100ns = snapshot.cpu_time_100ns;
    entry.display_cpu_time_100ns = snapshot.display_cpu_time_100ns;
    entry.mem_usage_kb = snapshot.mem_usage_kb;
    entry.mem_diff_kb = snapshot.mem_diff_kb;
    entry.page_faults = snapshot.page_faults;
    entry.page_faults_diff = snapshot.page_faults_diff;
    entry.commit_charge_kb = snapshot.commit_charge_kb;
    entry.paged_pool_kb = snapshot.paged_pool_kb;
    entry.nonpaged_pool_kb = snapshot.nonpaged_pool_kb;
    entry.priority_class = snapshot.priority_class;
    entry.handle_count = snapshot.handle_count;
    entry.thread_count = snapshot.thread_count;
    entry.wow_task_handle = snapshot.wow_task_handle;
    entry.is_wow_task = snapshot.is_wow_task;
}

} // verus!

verus! {

/// Some row of `rows` stands for the process of `sample` and was refreshed in pass `pass`.
pub open spec fn has_row_for(rows: Seq<ProcEntry>, sample: ProcEntry, pass: u64) -> bool {
    exists|k: int| 0 <= k < rows.len() && #[trigger] spec_same_identity(rows[k], sample) && rows[k].pass_count == pass
}

/// `row` holds the values of one of the samples of its own process.
pub open spec fn is_sampled(samples: Seq<ProcEntry>, row: ProcEntry) -> bool {
    exists|j: int| 0 <= j < samples.len() && #[trigger] spec_same_identity(row, samples[j]) && same_values(row, samples[j])
}

/// No two samples stand for the same process.
pub open spec fn samples_distinct(samples: Seq<ProcEntry>) -> bool {
    forall|a: int, b: int| 0 <= a < b < samples.len() ==> !spec_same_identity(#[trigger] samples[a], #[trigger] samples[b])
}

/// `row` is marked for the columns marked in `old_row` and for those whose text changed
/// since `old_row`, and for no others.
pub open spec fn marks_refreshed(old_row: ProcEntry, row: ProcEntry) -> bool {
    row.dirty_columns.0 == old_row.dirty_columns.0 | changed_mask(old_row, row)
}

/// Which columns change depends on the values alone.
pub proof fn lemma_changed_mask_values(o: ProcEntry, a: ProcEntry, b: ProcEntry)
    requires
        same_values(a, b),
    ensures
        changed_mask(o, a) == changed_mask(o, b),
{
    reveal(changed_mask);
}

/// A word with every bit set keeps them all.
proof fn lemma_full_word(x: u32)
    ensures
        u32::MAX | x == u32::MAX,
{
    assert(0xffff_ffffu32 | x == 0xffff_ffffu32) by (bit_vector);
}

/// Sample `j` is the first of its process, and that process had no row before.
pub open spec fn is_new_sample(old_rows: Seq<ProcEntry>, samples: Seq<ProcEntry>, j: int) -> bool {
    &&& forall|m: int| 0 <= m < old_rows.len() ==> !spec_same_identity(#[trigger] old_rows[m], samples[j])
    &&& forall|j2: int| 0 <= j2 < j ==> !spec_same_identity(#[trigger] samples[j2], samples[j])
}

/// The indices, in sample order, of those of the first `n` samples that open a new row.
pub open spec fn new_samples(old_rows: Seq<ProcEntry>, samples: Seq<ProcEntry>, n: int) -> Seq<int>
    decreases n,
{
    if n <= 0 {
        Seq::empty()
    } else {
        let earlier = new_samples(old_rows, samples, n - 1);
        if is_new_sample(old_rows, samples, n - 1) { earlier.push(n - 1) } else { earlier }
    }
}

/// No row before row `k` stands for its process.
pub open spec fn is_first_row(rows: Seq<ProcEntry>, k: int) -> bool {
    forall|m: int| 0 <= m < k ==> !spec_same_identity(#[trigger] rows[m], rows[k])
}

/// No sample after sample `j`, among the first `n`, stands for its process.
pub open spec fn last_sample_before(samples: Seq<ProcEntry>, j: int, n: int) -> bool {
    forall|j2: int| j < j2 < n ==> !spec_same_identity(samples[j], #[trigger] samples[j2])
}

/// The indices that `new_samples` lists lie below `n`, in increasing order.
proof fn lemma_new_samples_bound(old_rows: Seq<ProcEntry>, samples: Seq<ProcEntry>, n: int)
    requires
        n >= 0,
    ensures
        new_samples(old_rows, samples, n).len() <= n,
        forall|t: int| 0 <= t < new_samples(old_rows, samples, n).len()
            ==> 0 <= #[trigger] new_samples(old_rows, samples, n)[t] < n,
        forall|t: int, u: int| 0 <= t < u < new_samples(old_rows, samples, n).len()
            ==> #[trigger] new_samples(old_rows, samples, n)[t] < #[trigger] new_samples(old_rows, samples, n)[u],
    decreases n,
{
    if n > 0 {
        lemma_new_samples_bound(old_rows, samples, n - 1);
    }
}

/// What the merge has done so far with the first `i` samples: the rows past the old ones are
/// the new samples in order, and the first row of each process holds the values of the
/// latest of its samples.
#[verifier::opaque]
spec fn merge_order_inv(old_rows: Seq<ProcEntry>, samples: Seq<ProcEntry>, rows: Seq<ProcEntry>, i: int) -> bool {
    let ns = new_samples(old_rows, samples, i);
    &&& rows.len() == old_rows.len() + ns.len()
    &&& forall|t: int| 0 <= t < ns.len() ==> spec_same_identity(#[trigger] rows[old_rows.len() + t], samples[ns[t]])
    &&& forall|k: int, j: int| 0 <= k < rows.len() && 0 <= j < i && #[trigger] spec_same_identity(rows[k], #[trigger] samples[j])
        && is_first_row(rows, k) && last_sample_before(samples, j, i) ==> same_values(rows[k], samples[j])
}

/// Updating the first row of the process of sample `i` keeps `merge_order_inv`.
proof fn lemma_order_update(
    old_rows: Seq<ProcEntry>,
    samples: Seq<ProcEntry>,
    before: Seq<ProcEntry>,
    after: Seq<ProcEntry>,
    i: int,
    idx: int,
)
    requires
        merge_order_inv(old_rows, samples, before, i),
        0 <= i < samples.len(),
        0 <= idx < before.len(),
        before.len() >= old_rows.len(),
        after.len() == before.len(),
        forall|k: int| 0 <= k < after.len() && k != idx ==> after[k] == before[k],
        same_values(after[idx], samples[i]),
        spec_same_identity(before[idx], samples[i]),
        forall|k: int| 0 <= k < idx ==> !spec_same_identity(#[trigger] before[k], samples[i]),
        forall|k: int| 0 <= k < old_rows.len() ==> spec_same_identity(#[trigger] before[k], old_rows[k]),
    ensures
        merge_order_inv(old_rows, samples, after, i + 1),
{
    reveal(merge_order_inv);
    lemma_new_samples_bound(old_rows, samples, i);
    let ns = new_samples(old_rows, samples, i);
    if idx < old_rows.len() {
        assert(spec_same_identity(before[idx], old_rows[idx]));
        assert(!is_new_sample(old_rows, samples, i));
    } else {
        let t = idx - old_rows.len();
        assert(spec_same_identity(before[old_rows.len() + t], samples[ns[t]]));
        assert(0 <= ns[t] < i);
        assert(!is_new_sample(old_rows, samples, i));
    }
    assert(new_samples(old_rows, samples, i + 1) == ns);
    assert forall|k: int| 0 <= k < after.len() implies #[trigger] after[k].pid == before[k].pid
        && after[k].is_wow_task == before[k].is_wow_task by {
        if k != idx {
            assert(after[k] == before[k]);
        }
    }
    assert forall|t: int| 0 <= t < ns.len() implies spec_same_identity(#[trigger] after[old_rows.len() + t], samples[ns[t]]) by {
        assert(spec_same_identity(before[old_rows.len() + t], samples[ns[t]]));
        assert(after[old_rows.len() + t].pid == before[old_rows.len() + t].pid);
    }
    assert forall|k: int, j: int| 0 <= k < after.len() && 0 <= j < i + 1 && #[trigger] spec_same_identity(after[k], #[trigger] samples[j])
        && is_first_row(after, k) && last_sample_before(samples, j, i + 1) implies same_values(after[k], samples[j]) by {
        assert(after[k].pid == before[k].pid && after[k].is_wow_task == before[k].is_wow_task);
        assert forall|m: int| 0 <= m < k implies !spec_same_identity(#[trigger] before[m], before[k]) by {
            assert(!spec_same_identity(after[m], after[k]));
            assert(after[m].pid == before[m].pid && after[m].is_wow_task == before[m].is_wow_task);
        }
        if k == idx {
            if j < i {
                assert(!spec_same_identity(samples[j], samples[i]));
            }
        } else {
            assert(after[k] == before[k]);
            if j == i {
                if k > idx {
                    assert(!spec_same_identity(after[idx], after[k]));
                }
            } else {
                assert(last_sample_before(samples, j, i));
                assert(spec_same_identity(before[k], samples[j]));
            }
        }
    }
}

/// Appending a row for sample `i`, whose process has no row yet, keeps `merge_order_inv`.
proof fn lemma_order_push(
    old_rows: Seq<ProcEntry>,
    samples: Seq<ProcEntry>,
    before: Seq<ProcEntry>,
    after: Seq<ProcEntry>,
    i: int,
    pass: u64,
)
    requires
        merge_order_inv(old_rows, samples, before, i),
        0 <= i < samples.len(),
        before.len() >= old_rows.len(),
        after.len() == before.len() + 1,
        forall|k: int| 0 <= k < before.len() ==> after[k] == before[k],
        same_values(after[before.len() as int], samples[i]),
        forall|k: int| 0 <= k < before.len() ==> !spec_same_identity(#[trigger] before[k], samples[i]),
        forall|k: int| 0 <= k < old_rows.len() ==> spec_same_identity(#[trigger] before[k], old_rows[k]),
        forall|j: int| 0 <= j < i ==> has_row_for(before, #[trigger] samples[j], pass),
    ensures
        merge_order_inv(old_rows, samples, after, i + 1),
{
    reveal(merge_order_inv);
    let ns = new_samples(old_rows, samples, i);
    let last = before.len() as int;
    assert forall|m: int| 0 <= m < old_rows.len() implies !spec_same_identity(#[trigger] old_rows[m], samples[i]) by {
        assert(!spec_same_identity(before[m], samples[i]));
        assert(spec_same_identity(before[m], old_rows[m]));
    }
    assert forall|j2: int| 0 <= j2 < i implies !spec_same_identity(#[trigger] samples[j2], samples[i]) by {
        assert(has_row_for(before, samples[j2], pass));
        let k = choose|k: int| 0 <= k < before.len() && #[trigger] spec_same_identity(before[k], samples[j2]) && before[k].pass_count == pass;
        assert(!spec_same_identity(before[k], samples[i]));
    }
    assert(is_new_sample(old_rows, samples, i));
    assert(new_samples(old_rows, samples, i + 1) == ns.push(i));
    assert forall|t: int| 0 <= t < ns.len() + 1 implies spec_same_identity(#[trigger] after[old_rows.len() + t], samples[ns.push(i)[t]]) by {
        if t < ns.len() {
            assert(after[old_rows.len() + t] == before[old_rows.len() + t]);
            assert(spec_same_identity(before[old_rows.len() + t], samples[ns[t]]));
        }
    }
    assert forall|k: int, j: int| 0 <= k < after.len() && 0 <= j < i + 1 && #[trigger] spec_same_identity(after[k], #[trigger] samples[j])
        && is_first_row(after, k) && last_sample_before(samples, j, i + 1) implies same_values(after[k], samples[j]) by {
        if k == last {
            if j < i {
                assert(has_row_for(before, samples[j], pass));
                let m = choose|m: int| 0 <= m < before.len() && #[trigger] spec_same_identity(before[m], samples[j]) && before[m].pass_count == pass;
                assert(!spec_same_identity(before[m], samples[i]));
            }
        } else {
            assert(after[k] == before[k]);
            if j < i {
                assert forall|m: int| 0 <= m < k implies !spec_same_identity(#[trigger] before[m], before[k]) by {
                    assert(after[m] == before[m]);
                    assert(!spec_same_identity(after[m], after[k]));
                }
                assert(last_sample_before(samples, j, i));
                assert(spec_same_identity(before[k], samples[j]));
            } else {
                assert(!spec_same_identity(before[k], samples[i]));
            }
        }
    }
}

/// Index of the first row with the identity of `sample`.
fn find_row(rows: &Vec<ProcEntry>, sample: &ProcEntry) -> (r: Option<usize>)
    ensures
        match r {
            Some(i) => i < rows@.len() && spec_same_identity(rows@[i as int], *sample)
                && forall|k: int| 0 <= k < i ==> !spec_same_identity(#[trigger] rows@[k], *sample),
            None => forall|k: int| 0 <= k < rows@.len() ==> !spec_same_identity(#[trigger] rows@[k], *sample),
        },
{
    let mut i: usize = 0;
    while i < rows.len()
        invariant
            i <= rows@.len(),
            forall|k: int| 0 <= k < i ==> !spec_same_identity(#[trigger] rows@[k], *sample),
        decreases rows.len() - i,
    {
        if same_entry_identity(&rows[i], sample) {
            return Some(i);
        }
        i += 1;
    }
    None
}

/// Merges a refresh's samples into the rows: a sample of a process that already has a
/// row updates that row, any other sample becomes a new row; every row touched is stamped
/// with `current_pass`, and no new row repeats the process of another row. The new rows
/// come after the old ones in the order of their processes' first samples, and the first
/// row of each sampled process holds the values of its latest sample.
pub fn merge_process_snapshots(entries: &mut Vec<ProcEntry>, snapshots: Vec<ProcEntry>, current_pass: u64)
    ensures
        final(entries)@.len() >= old(entries)@.len(),
        forall|j: int| 0 <= j < snapshots@.len() ==> has_row_for(final(entries)@, #[trigger] snapshots@[j], current_pass),
        forall|k: int| 0 <= k < final(entries)@.len() && #[trigger] final(entries)@[k].pass_count == current_pass
            ==> is_sampled(snapshots@, final(entries)@[k]) || (k < old(entries)@.len() && old(entries)@[k].pass_count == current_pass),
        forall|k: int| 0 <= k < final(entries)@.len() && #[trigger] final(entries)@[k].pass_count != current_pass
            ==> k < old(entries)@.len() && final(entries)@[k] == old(entries)@[k],
        forall|m: int, k: int| 0 <= m < k < final(entries)@.len() && old(entries)@.len() <= k
            ==> !spec_same_identity(#[trigger] final(entries)@[m], #[trigger] final(entries)@[k]),
        forall|k: int| old(entries)@.len() <= k < final(entries)@.len() ==> #[trigger] final(entries)@[k].dirty_columns.0 == u32::MAX,
        forall|k: int| 0 <= k < old(entries)@.len() ==> spec_same_identity(#[trigger] final(entries)@[k], old(entries)@[k]),
        samples_distinct(snapshots@) ==> forall|k: int| 0 <= k < old(entries)@.len() && #[trigger] final(entries)@[k] != old(entries)@[k]
            ==> marks_refreshed(old(entries)@[k], final(entries)@[k]),
        final(entries)@.len() == old(entries)@.len() + new_samples(old(entries)@, snapshots@, snapshots@.len() as int).len(),
        forall|t: int| 0 <= t < new_samples(old(entries)@, snapshots@, snapshots@.len() as int).len()
            ==> spec_same_identity(#[trigger] final(entries)@[old(entries)@.len() + t],
                snapshots@[new_samples(old(entries)@, snapshots@, snapshots@.len() as int)[t]]),
        forall|k: int, j: int| 0 <= k < final(entries)@.len() && 0 <= j < snapshots@.len()
            && #[trigger] spec_same_identity(final(entries)@[k], #[trigger] snapshots@[j])
            && is_first_row(final(entries)@, k) && last_sample_before(snapshots@, j, snapshots@.len() as int)
            ==> same_values(final(entries)@[k], snapshots@[j]),
{
    let ghost old_rows = entries@;
    let ghost samples = snapshots@;
    let n = snapshots.len();
    let mut i: usize = 0;
    proof {
        reveal(merge_order_inv);
        assert(new_samples(old_rows, samples, 0) =~= Seq::<int>::empty());
    }
    while i < n
        invariant
            n == samples.len(),
            snapshots@ == samples,
            i <= n,
            entries@.len() >= old_rows.len(),
            forall|j: int| 0 <= j < i ==> has_row_for(entries@, #[trigger] samples[j], current_pass),
            forall|k: int| 0 <= k < entries@.len() && #[trigger] entries@[k].pass_count == current_pass
                ==> is_sampled(samples, entries@[k]) || (k < old_rows.len() && old_rows[k].pass_count == current_pass),
            forall|k: int| 0 <= k < entries@.len() && #[trigger] entries@[k].pass_count != current_pass
                ==> k < old_rows.len() && entries@[k] == old_rows[k],
            forall|m: int, k: int| 0 <= m < k < entries@.len() && old_rows.len() <= k
                ==> !spec_same_identity(#[trigger] entries@[m], #[trigger] entries@[k]),
            forall|k: int| old_rows.len() <= k < entries@.len() ==> #[trigger] entries@[k].dirty_columns.0 == u32::MAX,
            forall|k: int| 0 <= k < old_rows.len() ==> spec_same_identity(#[trigger] entries@[k], old_rows[k]),
            forall|k: int| 0 <= k < old_rows.len() && (forall|j: int| 0 <= j < i ==> !spec_same_identity(old_rows[k], #[trigger] samples[j]))
                ==> #[trigger] entries@[k] == old_rows[k],
            samples_distinct(samples) ==> forall|k: int| 0 <= k < old_rows.len() && #[trigger] entries@[k] != old_rows[k]
                ==> marks_refreshed(old_rows[k], entries@[k]),
            merge_order_inv(old_rows, samples, entries@, i as int),
        decreases n - i,
    {
        let snapshot = samples_at(&snapshots, i);
        assert(snapshot == samples[i as int]);
        let ghost before = entries@;
        match find_row(entries, &snapshot) {
            Some(idx) => {
                let ghost old_row = entries@[idx as int];
                update_process_entry(&mut entries[idx], &snapshot, current_pass);
                proof {
                    lemma_order_update(old_rows, samples, before, entries@, i as int, idx as int);
                }
                assert(entries@[idx as int].pass_count == current_pass);
                assert(spec_same_identity(entries@[idx as int], samples[i as int]));
                assert(is_sampled(samples, entries@[idx as int]));
                assert forall|j: int| 0 <= j <= i implies has_row_for(entries@, #[trigger] samples[j], current_pass) by {
                    if j < i {
                        let k = choose|k: int| 0 <= k < before.len() && #[trigger] spec_same_identity(before[k], samples[j]) && before[k].pass_count == current_pass;
                        if k == idx as int {
                            assert(spec_same_identity(entries@[k], samples[j]));
                        } else {
                            assert(entries@[k] == before[k]);
                        }
                    } else {
                        assert(spec_same_identity(entries@[idx as int], samples[j]));
                    }
                }
                assert forall|k: int| 0 <= k < entries@.len() && #[trigger] entries@[k].pass_count == current_pass
                    implies is_sampled(samples, entries@[k]) || (k < old_rows.len() && old_rows[k].pass_count == current_pass) by {
                    if k != idx as int {
                        assert(entries@[k] == before[k]);
                    }
                }
                assert forall|k: int| 0 <= k < entries@.len() && #[trigger] entries@[k].pass_count != current_pass
                    implies k < old_rows.len() && entries@[k] == old_rows[k] by {
                    assert(k != idx as int);
                    assert(entries@[k] == before[k]);
                }
                assert(spec_same_identity(before[idx as int], samples[i as int]));
                assert forall|m: int, k: int| 0 <= m < k < entries@.len() && old_rows.len() <= k
                    implies !spec_same_identity(#[trigger] entries@[m], #[trigger] entries@[k]) by {
                    assert(entries@[m].pid == before[m].pid && entries@[m].is_wow_task == before[m].is_wow_task);
                    assert(entries@[k].pid == before[k].pid && entries@[k].is_wow_task == before[k].is_wow_task);
                }
                assert forall|k: int| old_rows.len() <= k < entries@.len() implies #[trigger] entries@[k].dirty_columns.0 == u32::MAX by {
                    if k == idx as int {
                        lemma_full_word(changed_mask(old_row, snapshot));
                    } else {
                        assert(entries@[k] == before[k]);
                    }
                }
                assert forall|k: int| 0 <= k < old_rows.len() implies spec_same_identity(#[trigger] entries@[k], old_rows[k]) by {
                    if k != idx as int {
                        assert(entries@[k] == before[k]);
                    }
                }
                assert forall|k: int| 0 <= k < old_rows.len() && (forall|j: int| 0 <= j < i + 1 ==> !spec_same_identity(old_rows[k], #[trigger] samples[j]))
                    implies #[trigger] entries@[k] == old_rows[k] by {
                    if k == idx as int {
                        assert(spec_same_identity(old_rows[k], samples[i as int]));
                    } else {
                        assert(entries@[k] == before[k]);
                    }
                }
                assert(samples_distinct(samples) ==> forall|k: int| 0 <= k < old_rows.len() && #[trigger] entries@[k] != old_rows[k]
                    ==> marks_refreshed(old_rows[k], entries@[k])) by {
                    if samples_distinct(samples) {
                        assert forall|k: int| 0 <= k < old_rows.len() && #[trigger] entries@[k] != old_rows[k]
                            implies marks_refreshed(old_rows[k], entries@[k]) by {
                            if k == idx as int {
                                assert forall|j: int| 0 <= j < i implies !spec_same_identity(old_rows[k], #[trigger] samples[j]) by {
                                    assert(!spec_same_identity(samples[j], samples[i as int]));
                                }
                                assert(before[k] == old_rows[k]);
                                lemma_changed_mask_values(old_rows[k], entries@[k], snapshot);
                            } else {
                                assert(entries@[k] == before[k]);
                            }
                        }
                    }
                }
            },
            None => {
                let row = snapshot.with_pass_count(current_pass);
                entries.push(row);
                proof {
                    lemma_order_push(old_rows, samples, before, entries@, i as int, current_pass);
                }
                assert(entries@[before.len() as int] == row);
                assert(spec_same_identity(entries@[before.len() as int], samples[i as int]));
                assert(is_sampled(samples, entries@[before.len() as int]));
                assert forall|j: int| 0 <= j <= i implies has_row_for(entries@, #[trigger] samples[j], current_pass) by {
                    if j < i {
                        let k = choose|k: int| 0 <= k < before.len() && #[trigger] spec_same_identity(before[k], samples[j]) && before[k].pass_count == current_pass;
                        assert(entries@[k] == before[k]);
                    } else {
                        assert(spec_same_identity(entries@[before.len() as int], samples[j]));
                    }
                }
                assert forall|k: int| 0 <= k < entries@.len() && #[trigger] entries@[k].pass_count == current_pass
                    implies is_sampled(samples, entries@[k]) || (k < old_rows.len() && old_rows[k].pass_count == current_pass) by {
                    if k < before.len() {
                        assert(entries@[k] == before[k]);
                    }
                }
                assert forall|k: int| 0 <= k < entries@.len() && #[trigger] entries@[k].pass_count != current_pass
                    implies k < old_rows.len() && entries@[k] == old_rows[k] by {
                    assert(k < before.len());
                    assert(entries@[k] == before[k]);
                }
                assert forall|m: int, k: int| 0 <= m < k < entries@.len() && old_rows.len() <= k
                    implies !spec_same_identity(#[trigger] entries@[m], #[trigger] entries@[k]) by {
                    assert(entries@[m] == before[m]);
                    if k < before.len() {
                        assert(entries@[k] == before[k]);
                    } else {
                        assert(!spec_same_identity(before[m], samples[i as int]));
                    }
                }
                assert forall|k: int| old_rows.len() <= k < entries@.len() implies #[trigger] entries@[k].dirty_columns.0 == u32::MAX by {
                    if k < before.len() {
                        assert(entries@[k] == before[k]);
                    }
                }
                assert forall|k: int| 0 <= k < old_rows.len() implies spec_same_identity(#[trigger] entries@[k], old_rows[k]) by {
                    assert(entries@[k] == before[k]);
                }
                assert forall|k: int| 0 <= k < old_rows.len() && (forall|j: int| 0 <= j < i + 1 ==> !spec_same_identity(old_rows[k], #[trigger] samples[j]))
                    implies #[trigger] entries@[k] == old_rows[k] by {
                    assert(entries@[k] == before[k]);
                }
                assert forall|k: int| 0 <= k < old_rows.len() && #[trigger] entries@[k] != old_rows[k]
                    implies before[k] != old_rows[k] by {
                    assert(entries@[k] == before[k]);
                }
            },
        }
        i += 1;
    }
    proof {
        reveal(merge_order_inv);
    }
}

/// A copy of the `i`-th sample.
fn samples_at(samples: &Vec<ProcEntry>, i: usize) -> (r: ProcEntry)
    requires
        i < samples@.len(),
    ensures
        r == samples@[i as int],
{
    samples[i].duplicate()
}

/// Drops the rows that the current refresh did not see, keeping the order of the others.
pub fn remove_stale_entries(entries: &mut Vec<ProcEntry>, current_pass: u64)
    ensures
        final(entries)@ == old(entries)@.filter(|e: ProcEntry| e.pass_count == current_pass),
{
    let ghost before = entries@;
    let mut kept: Vec<ProcEntry> = Vec::new();
    let mut index: usize = 0;
    while index < entries.len()
        invariant
            entries@ == before,
            index <= before.len(),
            kept@ == before.subrange(0, index as int).filter(|e: ProcEntry| e.pass_count == current_pass),
        decreases before.len() - index,
    {
        proof {
            reveal(Seq::filter);
            assert(before.subrange(0, index + 1).drop_last() =~= before.subrange(0, index as int));
        }
        if entries[index].pass_count == current_pass {
            kept.push(entries[index].duplicate());
        }
        index += 1;
    }
    proof {
        assert(before.subrange(0, index as int) =~= before);
    }
    *entries = kept;
}

} // verus!
