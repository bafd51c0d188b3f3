//! Ordering of the process list: 16-bit tasks sort with their host process, every
//! column has its own key, and ties fall back to the process id.
use std::collections::HashMap;
use vstd::prelude::*;

use crate::procpage::{
    has_row_for, is_sampled, marks_refreshed, merge_process_snapshots, remove_stale_entries,
    samples_distinct, spec_same_identity,
    ColumnId, ProcEntry,
    HIGH_PRIORITY_CLASS, NORMAL_PRIORITY_CLASS, REALTIME_PRIORITY_CLASS,
};
use crate::sort::{adjacent_sorted, insertion_sort, stable_rearrangement, RowOrder};
use crate::strings::{
    compare_lowercase, compare_u64, compare_i64, int_order, lemma_seq_order_antisymmetric, lemma_seq_order_equal, str_lowercase,
    lowercase_order, SortOrder,
};

verus! {

broadcast use vstd::std_specs::hash::group_hash_axioms;

/// The rows keyed by process id; a later row with the same id replaces an earlier one.
pub open spec fn spec_sort_context(entries: Seq<ProcEntry>) -> Map<u32, ProcEntry>
    decreases entries.len(),
{
    if entries.len() == 0 {
        Map::empty()
    } else {
        spec_sort_context(entries.drop_last()).insert(entries.last().pid, entries.last())
    }
}

/// Indexes the rows by process id, for finding the host process of a 16-bit task.
pub fn build_sort_context(entries: &[ProcEntry]) -> (r: HashMap<u32, ProcEntry>)
    ensures
        r@ == spec_sort_context(entries@),
{
    let mut context: HashMap<u32, ProcEntry> = HashMap::new();
    let mut i: usize = 0;
    while i < entries.len()
        invariant
            i <= entries@.len(),
            context@ == spec_sort_context(entries@.subrange(0, i as int)),
        decreases entries.len() - i,
    {
        proof {
            assert(entries@.subrange(0, i + 1).drop_last() =~= entries@.subrange(0, i as int));
        }
        let row = entries[i].duplicate();
        context.insert(entries[i].pid, row);
        i += 1;
    }
    proof {
        assert(entries@.subrange(0, i as int) =~= entries@);
    }
    context
}

/// The row a row sorts as: a 16-bit task sorts as its host process, when that is listed.
pub open spec fn spec_proxy(entry: ProcEntry, context: Map<u32, ProcEntry>) -> ProcEntry {
    if entry.is_wow_task && context.contains_key(entry.real_pid) {
        context[entry.real_pid]
    } else {
        entry
    }
}

/// The row a row sorts as.
pub fn sort_proxy_entry<'a>(entry: &'a ProcEntry, sort_context: &'a HashMap<u32, ProcEntry>) -> (r: &'a ProcEntry)
    ensures
        *r == spec_proxy(*entry, sort_context@),
{
    if entry.is_wow_task {
        match sort_context.get(&entry.real_pid) {
            Some(host) => host,
            None => entry,
        }
    } else {
        entry
    }
}

/// Sort key of a priority class: realtime above high above normal above the rest.
pub open spec fn spec_priority_rank(priority_class: u32) -> u8 {
    if priority_class == REALTIME_PRIORITY_CLASS {
        3
    } else if priority_class == HIGH_PRIORITY_CLASS {
        2
    } else if priority_class == NORMAL_PRIORITY_CLASS {
        1
    } else {
        0
    }
}

/// Sort key of a priority class.
pub fn priority_rank(priority_class: u32) -> (r: u8)
    ensures
        r == spec_priority_rank(priority_class),
{
    if priority_class == REALTIME_PRIORITY_CLASS {
        3
    } else if priority_class == HIGH_PRIORITY_CLASS {
        2
    } else if priority_class == NORMAL_PRIORITY_CLASS {
        1
    } else {
        0
    }
}

/// Ascending order of two rows by one column's key.
pub open spec fn spec_column_order(l: ProcEntry, r: ProcEntry, column: ColumnId) -> SortOrder {
    match column {
        ColumnId::ImageName => lowercase_order(l.image_name@, r.image_name@),
        ColumnId::Pid => int_order(l.pid as int, r.pid as int),
        ColumnId::Username => lowercase_order(l.user_name@, r.user_name@),
        ColumnId::SessionId => int_order(l.session_id as int, r.session_id as int),
        ColumnId::Cpu => int_order(l.cpu as int, r.cpu as int),
        ColumnId::CpuTime => int_order(l.cpu_time_100ns as int, r.cpu_time_100ns as int),
        ColumnId::MemUsage => int_order(l.mem_usage_kb as int, r.mem_usage_kb as int),
        ColumnId::MemUsageDiff => int_order(l.mem_diff_kb as int, r.mem_diff_kb as int),
        ColumnId::PageFaults => int_order(l.page_faults as int, r.page_faults as int),
        ColumnId::PageFaultsDiff => int_order(l.page_faults_diff as int, r.page_faults_diff as int),
        ColumnId::CommitCharge => int_order(l.commit_charge_kb as int, r.commit_charge_kb as int),
        ColumnId::PagedPool => int_order(l.paged_pool_kb as int, r.paged_pool_kb as int),
        ColumnId::NonPagedPool => int_order(l.nonpaged_pool_kb as int, r.nonpaged_pool_kb as int),
        ColumnId::BasePriority => int_order(
            spec_priority_rank(l.priority_class) as int,
            spec_priority_rank(r.priority_class) as int,
        ),
        ColumnId::HandleCount => int_order(l.handle_count as int, r.handle_count as int),
        ColumnId::ThreadCount => int_order(l.thread_count as int, r.thread_count as int),
    }
}

/// Ascending order of two rows by one column's key.
fn column_order(l: &ProcEntry, r: &ProcEntry, column: ColumnId) -> (o: SortOrder)
    ensures
        o == spec_column_order(*l, *r, column),
{
    match column {
        ColumnId::ImageName => compare_lowercase(l.image_name.as_str(), r.image_name.as_str()),
        ColumnId::Pid => compare_u64(l.pid as u64, r.pid as u64),
        ColumnId::Username => compare_lowercase(l.user_name.as_str(), r.user_name.as_str()),
        ColumnId::SessionId => compare_u64(l.session_id as u64, r.session_id as u64),
        ColumnId::Cpu => compare_u64(l.cpu as u64, r.cpu as u64),
        ColumnId::CpuTime => compare_u64(l.cpu_time_100ns, r.cpu_time_100ns),
        ColumnId::MemUsage => compare_u64(l.mem_usage_kb as u64, r.mem_usage_kb as u64),
        ColumnId::MemUsageDiff => compare_i64(l.mem_diff_kb, r.mem_diff_kb),
        ColumnId::PageFaults => compare_u64(l.page_faults as u64, r.page_faults as u64),
        ColumnId::PageFaultsDiff => compare_i64(l.page_faults_diff, r.page_faults_diff),
        ColumnId::CommitCharge => compare_u64(l.commit_charge_kb as u64, r.commit_charge_kb as u64),
        ColumnId::PagedPool => compare_u64(l.paged_pool_kb as u64, r.paged_pool_kb as u64),
        ColumnId::NonPagedPool => compare_u64(l.nonpaged_pool_kb as u64, r.nonpaged_pool_kb as u64),
        ColumnId::BasePriority => compare_u64(
            priority_rank(l.priority_class) as u64,
            priority_rank(r.priority_class) as u64,
        ),
        ColumnId::HandleCount => compare_u64(l.handle_count as u64, r.handle_count as u64),
        ColumnId::ThreadCount => compare_u64(l.thread_count as u64, r.thread_count as u64),
    }
}

/// `o` turned around for a descending sort (`sort_direction < 0`).
pub open spec fn directed(o: SortOrder, sort_direction: i32) -> SortOrder {
    if sort_direction < 0 {
        o.spec_reverse()
    } else {
        o
    }
}

/// How two rows of the process list are ordered.
///
/// A 16-bit task sorts as its host process, right after it, and the tasks of one host
/// sort by name; otherwise rows sort by the column's key, then by process id, both
/// turned around for a descending sort.
pub open spec fn spec_compare_entries(
    left: ProcEntry,
    right: ProcEntry,
    context: Map<u32, ProcEntry>,
    sort_column: ColumnId,
    sort_direction: i32,
) -> SortOrder {
    let lp = spec_proxy(left, context);
    let rp = spec_proxy(right, context);
    if lp.pid == rp.pid && left.is_wow_task {
        if right.is_wow_task {
            lowercase_order(left.image_name@, right.image_name@)
        } else {
            SortOrder::Greater
        }
    } else if lp.pid == rp.pid && right.is_wow_task {
        SortOrder::Less
    } else {
        let o = spec_column_order(lp, rp, sort_column);
        if o == SortOrder::Equal {
            directed(int_order(lp.pid as int, rp.pid as int), sort_direction)
        } else {
            directed(o, sort_direction)
        }
    }
}

/// Compares two rows of the process list.
pub fn compare_entries(
    left: &ProcEntry,
    right: &ProcEntry,
    sort_context: &HashMap<u32, ProcEntry>,
    sort_column: ColumnId,
    sort_direction: i32,
) -> (r: SortOrder)
    ensures
        r == spec_compare_entries(*left, *right, sort_context@, sort_column, sort_direction),
{
    let left_proxy = sort_proxy_entry(left, sort_context);
    let right_proxy = sort_proxy_entry(right, sort_context);

    if left_proxy.pid == right_proxy.pid {
        if left.is_wow_task {
            return if right.is_wow_task {
                compare_lowercase(left.image_name.as_str(), right.image_name.as_str())
            } else {
                SortOrder::Greater
            };
        }
        if right.is_wow_task {
            return SortOrder::Less;
        }
    }

    let ordering = column_order(left_proxy, right_proxy, sort_column);
    let ordering = if ordering == SortOrder::Equal {
        compare_u64(left_proxy.pid as u64, right_proxy.pid as u64)
    } else {
        ordering
    };
    if sort_direction < 0 {
        ordering.reverse()
    } else {
        ordering
    }
}

/// Swapping the operands reverses a column's order.
pub proof fn lemma_column_order_antisymmetric(l: ProcEntry, r: ProcEntry, column: ColumnId)
    ensures
        spec_column_order(r, l, column) == spec_column_order(l, r, column).spec_reverse(),
{
    match column {
        ColumnId::ImageName => {
            lemma_seq_order_antisymmetric(
                crate::strings::str_lowercase(l.image_name@),
                crate::strings::str_lowercase(r.image_name@),
            );
        },
        ColumnId::Username => {
            lemma_seq_order_antisymmetric(
                crate::strings::str_lowercase(l.user_name@),
                crate::strings::str_lowercase(r.user_name@),
            );
        },
        _ => {},
    }
}

/// Comparing two rows the other way round gives the opposite answer, whatever the
/// column, direction and host processes.
pub proof fn lemma_compare_entries_antisymmetric(
    left: ProcEntry,
    right: ProcEntry,
    context: Map<u32, ProcEntry>,
    sort_column: ColumnId,
    sort_direction: i32,
)
    ensures
        spec_compare_entries(right, left, context, sort_column, sort_direction)
            == spec_compare_entries(left, right, context, sort_column, sort_direction).spec_reverse(),
{
    let lp = spec_proxy(left, context);
    let rp = spec_proxy(right, context);
    lemma_column_order_antisymmetric(lp, rp, sort_column);
    if left.is_wow_task && right.is_wow_task {
        lemma_seq_order_antisymmetric(
            crate::strings::str_lowercase(left.image_name@),
            crate::strings::str_lowercase(right.image_name@),
        );
    }
}

/// The process-list order for one sort column and direction, over a fixed set of rows.
pub struct ProcessRowOrder {
    pub context: HashMap<u32, ProcEntry>,
    pub sort_column: ColumnId,
    pub sort_direction: i32,
}

impl RowOrder<ProcEntry> for ProcessRowOrder {
    open spec fn spec_order(&self, a: ProcEntry, b: ProcEntry) -> SortOrder {
        spec_compare_entries(a, b, self.context@, self.sort_column, self.sort_direction)
    }

    fn order(&self, a: &ProcEntry, b: &ProcEntry) -> (r: SortOrder) {
        compare_entries(a, b, &self.context, self.sort_column, self.sort_direction)
    }

    proof fn lemma_antisymmetric(&self, a: ProcEntry, b: ProcEntry) {
        lemma_compare_entries_antisymmetric(a, b, self.context@, self.sort_column, self.sort_direction);
    }
}

/// Sorts the rows for the list: the result holds the same rows, and no row is ordered
/// after the one that follows it; rows that compare equal keep their relative order.
pub fn resort_entries(entries: &mut Vec<ProcEntry>, sort_column: ColumnId, sort_direction: i32)
    ensures
        final(entries)@.to_multiset() == old(entries)@.to_multiset(),
        final(entries)@.len() == old(entries)@.len(),
        forall|i: int| 0 <= i < final(entries)@.len() - 1 ==> #[trigger] spec_compare_entries(
            final(entries)@[i],
            final(entries)@[i + 1],
            spec_sort_context(old(entries)@),
            sort_column,
            sort_direction,
        ) != SortOrder::Greater,
        stable_rearrangement(
            |a: ProcEntry, b: ProcEntry| spec_compare_entries(a, b, spec_sort_context(old(entries)@), sort_column, sort_direction),
            old(entries)@,
            final(entries)@,
        ),
{
    let context = build_sort_context(entries.as_slice());
    let order = ProcessRowOrder { context, sort_column, sort_direction };
    insertion_sort(&order, entries);
    proof {
        assert((|a: ProcEntry, b: ProcEntry| order.spec_order(a, b)) =~= (|a: ProcEntry, b: ProcEntry| spec_compare_entries(a, b, spec_sort_context(old(entries)@), sort_column, sort_direction)));
        assert(adjacent_sorted(&order, entries@));
        assert forall|i: int| 0 <= i < entries@.len() - 1 implies #[trigger] spec_compare_entries(
            entries@[i],
            entries@[i + 1],
            spec_sort_context(old(entries)@),
            sort_column,
            sort_direction,
        ) != SortOrder::Greater by {
            assert(order.spec_order(entries@[i], entries@[i + 1]) != SortOrder::Greater);
        }
    }
}

/// `rows` are in order for the column and direction, host processes being looked up
/// among `lookup`.
pub open spec fn rows_in_order(rows: Seq<ProcEntry>, lookup: Seq<ProcEntry>, sort_column: ColumnId, sort_direction: i32) -> bool {
    forall|i: int| 0 <= i < rows.len() - 1 ==> #[trigger] spec_compare_entries(
        rows[i],
        rows[i + 1],
        spec_sort_context(lookup),
        sort_column,
        sort_direction,
    ) != SortOrder::Greater
}

/// Some row of `old_rows` stands for the process of `row`.
pub open spec fn has_old_row(old_rows: Seq<ProcEntry>, row: ProcEntry) -> bool {
    exists|m: int| 0 <= m < old_rows.len() && #[trigger] spec_same_identity(old_rows[m], row)
}

/// `row` carries the marks of a row of `old_rows` of its process plus the columns whose
/// text changed since that row.
pub open spec fn refreshed_from_old(old_rows: Seq<ProcEntry>, row: ProcEntry) -> bool {
    exists|m: int| 0 <= m < old_rows.len() && spec_same_identity(old_rows[m], row) && #[trigger] marks_refreshed(old_rows[m], row)
}

/// The columns of a refreshed row that are to be drawn again: all of them for a process that
/// had no row before; otherwise, where the samples name each process once, those marked
/// before plus those whose text changed.
pub open spec fn refreshed_marks(old_rows: Seq<ProcEntry>, samples: Seq<ProcEntry>, row: ProcEntry) -> bool {
    if has_old_row(old_rows, row) {
        samples_distinct(samples) ==> refreshed_from_old(old_rows, row)
    } else {
        row.dirty_columns.0 == u32::MAX
    }
}

/// One refresh of the rows: merges the pass's samples, drops the rows that the pass did
/// not see and sorts the rest. Afterwards every sampled process has a row stamped with the
/// pass, every row is stamped with the pass and holds the values of one of its process's
/// samples, and the rows are in order, host processes being looked up among the same
/// rows as they stood before the sort, where rows that compare equal keep their order.
/// Each row is marked for redrawing as `refreshed_marks` says.
#[verifier::spinoff_prover]
#[verifier::rlimit(40)]
pub fn refresh_entries(
    entries: &mut Vec<ProcEntry>,
    snapshots: Vec<ProcEntry>,
    current_pass: u64,
    sort_column: ColumnId,
    sort_direction: i32,
)
    requires
        forall|k: int| 0 <= k < old(entries)@.len() ==> #[trigger] old(entries)@[k].pass_count != current_pass,
    ensures
        forall|k: int| 0 <= k < final(entries)@.len() ==> #[trigger] final(entries)@[k].pass_count == current_pass,
        forall|k: int| 0 <= k < final(entries)@.len() ==> is_sampled(snapshots@, #[trigger] final(entries)@[k]),
        forall|j: int| 0 <= j < snapshots@.len() ==> has_row_for(final(entries)@, #[trigger] snapshots@[j], current_pass),
        exists|lookup: Seq<ProcEntry>|
            #[trigger] rows_in_order(final(entries)@, lookup, sort_column, sort_direction)
                && lookup.to_multiset() == final(entries)@.to_multiset()
                && stable_rearrangement(
                    |a: ProcEntry, b: ProcEntry| spec_compare_entries(a, b, spec_sort_context(lookup), sort_column, sort_direction),
                    lookup,
                    final(entries)@,
                ),
        forall|k: int| 0 <= k < final(entries)@.len() ==> refreshed_marks(old(entries)@, snapshots@, #[trigger] final(entries)@[k]),
{
    let ghost samples = snapshots@;
    let ghost old_rows = entries@;
    merge_process_snapshots(entries, snapshots, current_pass);
    let ghost merged = entries@;
    let ghost marked = |r: ProcEntry| refreshed_marks(old_rows, samples, r);
    proof {
        lemma_merged_marks(old_rows, merged, samples, current_pass);
    }
    remove_stale_entries(entries, current_pass);
    proof {
        lemma_current_rows_kept(merged, entries@, samples, current_pass);
        lemma_filter_keeps(merged, entries@, current_pass, marked);
    }
    let ghost kept = entries@;
    resort_entries(entries, sort_column, sort_direction);
    proof {
        lemma_permutation_keeps(kept, entries@, marked);
        lemma_current_rows_permuted(kept, entries@, samples, current_pass);
        assert(rows_in_order(entries@, kept, sort_column, sort_direction));
    }
}

/// Every row of the current pass that the merge leaves carries the marks that
/// `refreshed_marks` describes.
proof fn lemma_merged_marks(old_rows: Seq<ProcEntry>, merged: Seq<ProcEntry>, samples: Seq<ProcEntry>, pass: u64)
    requires
        merged.len() >= old_rows.len(),
        forall|k: int| 0 <= k < old_rows.len() ==> #[trigger] old_rows[k].pass_count != pass,
        forall|m: int, k: int| 0 <= m < k < merged.len() && old_rows.len() <= k
            ==> !spec_same_identity(#[trigger] merged[m], #[trigger] merged[k]),
        forall|k: int| old_rows.len() <= k < merged.len() ==> #[trigger] merged[k].dirty_columns.0 == u32::MAX,
        forall|k: int| 0 <= k < old_rows.len() ==> spec_same_identity(#[trigger] merged[k], old_rows[k]),
        samples_distinct(samples) ==> forall|k: int| 0 <= k < old_rows.len() && #[trigger] merged[k] != old_rows[k]
            ==> marks_refreshed(old_rows[k], merged[k]),
    ensures
        forall|k: int| 0 <= k < merged.len() && #[trigger] merged[k].pass_count == pass ==> refreshed_marks(old_rows, samples, merged[k]),
{
    assert forall|k: int| 0 <= k < merged.len() && #[trigger] merged[k].pass_count == pass implies refreshed_marks(old_rows, samples, merged[k]) by {
        if k < old_rows.len() {
            assert(spec_same_identity(old_rows[k], merged[k]));
            assert(has_old_row(old_rows, merged[k]));
            assert(old_rows[k].pass_count != pass);
            assert(merged[k] != old_rows[k]);
            if samples_distinct(samples) {
                assert(marks_refreshed(old_rows[k], merged[k]));
                assert(refreshed_from_old(old_rows, merged[k]));
            }
        } else {
            assert forall|m: int| 0 <= m < old_rows.len() implies !spec_same_identity(#[trigger] old_rows[m], merged[k]) by {
                assert(spec_same_identity(merged[m], old_rows[m]));
                assert(!spec_same_identity(merged[m], merged[k]));
            }
            assert(!has_old_row(old_rows, merged[k]));
        }
    }
}

/// What holds of every row of the current pass holds of every row that the removal
/// of the rows of earlier passes keeps.
proof fn lemma_filter_keeps(merged: Seq<ProcEntry>, kept: Seq<ProcEntry>, pass: u64, p: spec_fn(ProcEntry) -> bool)
    requires
        kept == merged.filter(|e: ProcEntry| e.pass_count == pass),
        forall|k: int| 0 <= k < merged.len() && #[trigger] merged[k].pass_count == pass ==> p(merged[k]),
    ensures
        forall|k: int| 0 <= k < kept.len() ==> p(#[trigger] kept[k]),
{
    let pred = |e: ProcEntry| e.pass_count == pass;
    assert forall|k: int| 0 <= k < kept.len() implies p(#[trigger] kept[k]) by {
        assert(kept.contains(kept[k]));
        merged.lemma_filter_contains_rev(pred, kept[k]);
        let m = choose|m: int| 0 <= m < merged.len() && merged[m] == kept[k];
        assert(merged[m].pass_count == pass);
    }
}

/// What holds of every row holds of every row of a reordering.
proof fn lemma_permutation_keeps(rows: Seq<ProcEntry>, reordered: Seq<ProcEntry>, p: spec_fn(ProcEntry) -> bool)
    requires
        reordered.to_multiset() == rows.to_multiset(),
        forall|k: int| 0 <= k < rows.len() ==> p(#[trigger] rows[k]),
    ensures
        forall|k: int| 0 <= k < reordered.len() ==> p(#[trigger] reordered[k]),
{
    broadcast use vstd::seq_lib::group_to_multiset_ensures;
    assert forall|k: int| 0 <= k < reordered.len() implies p(#[trigger] reordered[k]) by {
        assert(reordered.contains(reordered[k]));
        assert(reordered.to_multiset().count(reordered[k]) > 0);
        assert(rows.contains(reordered[k]));
        let m = choose|m: int| 0 <= m < rows.len() && rows[m] == reordered[k];
        assert(p(rows[m]));
    }
}

/// The rows of the current pass, with what each of them holds, survive the removal
/// of the rows of earlier passes.
proof fn lemma_current_rows_kept(merged: Seq<ProcEntry>, kept: Seq<ProcEntry>, samples: Seq<ProcEntry>, pass: u64)
    requires
        kept == merged.filter(|e: ProcEntry| e.pass_count == pass),
        forall|j: int| 0 <= j < samples.len() ==> has_row_for(merged, #[trigger] samples[j], pass),
        forall|k: int| 0 <= k < merged.len() && #[trigger] merged[k].pass_count == pass ==> is_sampled(samples, merged[k]),
    ensures
        forall|k: int| #![trigger kept[k]] 0 <= k < kept.len() ==> kept[k].pass_count == pass && is_sampled(samples, kept[k]),
        forall|j: int| 0 <= j < samples.len() ==> has_row_for(kept, #[trigger] samples[j], pass),
{
    let pred = |e: ProcEntry| e.pass_count == pass;
    assert forall|j: int| 0 <= j < samples.len() implies has_row_for(kept, #[trigger] samples[j], pass) by {
        assert(has_row_for(merged, samples[j], pass));
        let k = choose|k: int| 0 <= k < merged.len() && #[trigger] spec_same_identity(merged[k], samples[j]) && merged[k].pass_count == pass;
        merged.lemma_filter_contains(pred, k);
        let m = choose|m: int| 0 <= m < kept.len() && kept[m] == merged[k];
        assert(spec_same_identity(kept[m], samples[j]));
    }
    assert forall|k: int| #![trigger kept[k]] 0 <= k < kept.len() implies kept[k].pass_count == pass && is_sampled(samples, kept[k]) by {
        merged.lemma_filter_pred(pred, k);
        assert(kept.contains(kept[k]));
        merged.lemma_filter_contains_rev(pred, kept[k]);
        let m = choose|m: int| 0 <= m < merged.len() && merged[m] == kept[k];
        assert(merged[m].pass_count == pass);
    }
}

/// Reordering the rows keeps what holds of each of them and of the samples.
proof fn lemma_current_rows_permuted(kept: Seq<ProcEntry>, sorted: Seq<ProcEntry>, samples: Seq<ProcEntry>, pass: u64)
    requires
        sorted.to_multiset() == kept.to_multiset(),
        forall|k: int| #![trigger kept[k]] 0 <= k < kept.len() ==> kept[k].pass_count == pass && is_sampled(samples, kept[k]),
        forall|j: int| 0 <= j < samples.len() ==> has_row_for(kept, #[trigger] samples[j], pass),
    ensures
        forall|k: int| #![trigger sorted[k]] 0 <= k < sorted.len() ==> sorted[k].pass_count == pass && is_sampled(samples, sorted[k]),
        forall|j: int| 0 <= j < samples.len() ==> has_row_for(sorted, #[trigger] samples[j], pass),
{
    broadcast use vstd::seq_lib::group_to_multiset_ensures;
    assert forall|k: int| #![trigger sorted[k]] 0 <= k < sorted.len() implies sorted[k].pass_count == pass && is_sampled(samples, sorted[k]) by {
        assert(sorted.contains(sorted[k]));
        assert(sorted.to_multiset().count(sorted[k]) > 0);
        assert(kept.contains(sorted[k]));
        let m = choose|m: int| 0 <= m < kept.len() && kept[m] == sorted[k];
        assert(kept[m].pass_count == pass && is_sampled(samples, kept[m]));
    }
    assert forall|j: int| 0 <= j < samples.len() implies has_row_for(sorted, #[trigger] samples[j], pass) by {
        assert(has_row_for(kept, samples[j], pass));
        let k = choose|k: int| 0 <= k < kept.len() && #[trigger] spec_same_identity(kept[k], samples[j]) && kept[k].pass_count == pass;
        assert(kept.contains(kept[k]));
        assert(kept.to_multiset().count(kept[k]) > 0);
        assert(sorted.contains(kept[k]));
        let m = choose|m: int| 0 <= m < sorted.len() && sorted[m] == kept[k];
        assert(spec_same_identity(sorted[m], samples[j]));
    }
}


/// `Less` when the left row is to come first in a sort in this direction, else `Greater`.
pub open spec fn ranked(left_smaller: bool, sort_direction: i32) -> SortOrder {
    if left_smaller == (sort_direction >= 0) { SortOrder::Less } else { SortOrder::Greater }
}

/// Each column of the process list sorts two ordinary rows by that column's own value:
/// the number it shows (the priority by its rank, realtime above high above normal above
/// the rest), or the name, compared without case, ascending for a direction of 0 or more
/// and descending otherwise.
pub proof fn lemma_columns_sort_by_their_values(
    l: ProcEntry,
    r: ProcEntry,
    context: Map<u32, ProcEntry>,
    sort_direction: i32,
)
    requires
        !l.is_wow_task,
        !r.is_wow_task,
    ensures
        l.pid != r.pid ==> spec_compare_entries(l, r, context, ColumnId::Pid, sort_direction)
            == ranked(l.pid < r.pid, sort_direction),
        l.session_id != r.session_id ==> spec_compare_entries(l, r, context, ColumnId::SessionId, sort_direction)
            == ranked(l.session_id < r.session_id, sort_direction),
        l.cpu != r.cpu ==> spec_compare_entries(l, r, context, ColumnId::Cpu, sort_direction)
            == ranked(l.cpu < r.cpu, sort_direction),
        l.cpu_time_100ns != r.cpu_time_100ns ==> spec_compare_entries(l, r, context, ColumnId::CpuTime, sort_direction)
            == ranked(l.cpu_time_100ns < r.cpu_time_100ns, sort_direction),
        l.mem_usage_kb != r.mem_usage_kb ==> spec_compare_entries(l, r, context, ColumnId::MemUsage, sort_direction)
            == ranked(l.mem_usage_kb < r.mem_usage_kb, sort_direction),
        l.mem_diff_kb != r.mem_diff_kb ==> spec_compare_entries(l, r, context, ColumnId::MemUsageDiff, sort_direction)
            == ranked(l.mem_diff_kb < r.mem_diff_kb, sort_direction),
        l.page_faults != r.page_faults ==> spec_compare_entries(l, r, context, ColumnId::PageFaults, sort_direction)
            == ranked(l.page_faults < r.page_faults, sort_direction),
        l.page_faults_diff != r.page_faults_diff ==> spec_compare_entries(l, r, context, ColumnId::PageFaultsDiff, sort_direction)
            == ranked(l.page_faults_diff < r.page_faults_diff, sort_direction),
        l.commit_charge_kb != r.commit_charge_kb ==> spec_compare_entries(l, r, context, ColumnId::CommitCharge, sort_direction)
            == ranked(l.commit_charge_kb < r.commit_charge_kb, sort_direction),
        l.paged_pool_kb != r.paged_pool_kb ==> spec_compare_entries(l, r, context, ColumnId::PagedPool, sort_direction)
            == ranked(l.paged_pool_kb < r.paged_pool_kb, sort_direction),
        l.nonpaged_pool_kb != r.nonpaged_pool_kb ==> spec_compare_entries(l, r, context, ColumnId::NonPagedPool, sort_direction)
            == ranked(l.nonpaged_pool_kb < r.nonpaged_pool_kb, sort_direction),
        l.handle_count != r.handle_count ==> spec_compare_entries(l, r, context, ColumnId::HandleCount, sort_direction)
            == ranked(l.handle_count < r.handle_count, sort_direction),
        l.thread_count != r.thread_count ==> spec_compare_entries(l, r, context, ColumnId::ThreadCount, sort_direction)
            == ranked(l.thread_count < r.thread_count, sort_direction),
        spec_priority_rank(l.priority_class) != spec_priority_rank(r.priority_class)
            ==> spec_compare_entries(l, r, context, ColumnId::BasePriority, sort_direction)
            == ranked(spec_priority_rank(l.priority_class) < spec_priority_rank(r.priority_class), sort_direction),
        str_lowercase(l.image_name@) != str_lowercase(r.image_name@) && sort_direction >= 0
            ==> spec_compare_entries(l, r, context, ColumnId::ImageName, sort_direction) == lowercase_order(l.image_name@, r.image_name@),
        str_lowercase(l.image_name@) != str_lowercase(r.image_name@) && sort_direction < 0
            ==> spec_compare_entries(l, r, context, ColumnId::ImageName, sort_direction) == lowercase_order(r.image_name@, l.image_name@),
        str_lowercase(l.user_name@) != str_lowercase(r.user_name@) && sort_direction >= 0
            ==> spec_compare_entries(l, r, context, ColumnId::Username, sort_direction) == lowercase_order(l.user_name@, r.user_name@),
        str_lowercase(l.user_name@) != str_lowercase(r.user_name@) && sort_direction < 0
            ==> spec_compare_entries(l, r, context, ColumnId::Username, sort_direction) == lowercase_order(r.user_name@, l.user_name@),
        spec_priority_rank(REALTIME_PRIORITY_CLASS) > spec_priority_rank(HIGH_PRIORITY_CLASS),
        spec_priority_rank(HIGH_PRIORITY_CLASS) > spec_priority_rank(NORMAL_PRIORITY_CLASS),
        forall|c: u32| c != REALTIME_PRIORITY_CLASS && c != HIGH_PRIORITY_CLASS && c != NORMAL_PRIORITY_CLASS
            ==> #[trigger] spec_priority_rank(c) < spec_priority_rank(NORMAL_PRIORITY_CLASS),
{
    lemma_seq_order_antisymmetric(str_lowercase(l.image_name@), str_lowercase(r.image_name@));
    lemma_seq_order_antisymmetric(str_lowercase(l.user_name@), str_lowercase(r.user_name@));
    lemma_seq_order_equal(str_lowercase(l.image_name@), str_lowercase(r.image_name@));
    lemma_seq_order_equal(str_lowercase(l.user_name@), str_lowercase(r.user_name@));
}

/// Two rows of the same value in the sorted column, neither of them a 16-bit task, sort by
/// process id, in the same direction.
pub proof fn lemma_ties_sort_by_pid(
    l: ProcEntry,
    r: ProcEntry,
    context: Map<u32, ProcEntry>,
    sort_column: ColumnId,
    sort_direction: i32,
)
    requires
        !l.is_wow_task,
        !r.is_wow_task,
        l.pid != r.pid,
        spec_column_order(l, r, sort_column) == SortOrder::Equal,
    ensures
        spec_compare_entries(l, r, context, sort_column, sort_direction) == ranked(l.pid < r.pid, sort_direction),
{
}

} // verus!
