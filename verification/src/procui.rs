//! Decisions of the process page's window: the commands, the context menu, the sort
//! column, the column and affinity dialogs, selection lookups and the layout.
use std::collections::HashMap;
use vstd::prelude::*;

use crate::procpage::{
    bit_set, lemma_or_bit, column_id_from_i32, process_column, spec_column_id_from_i32, spec_process_column, ColumnId,
    ProcEntry, HIGH_PRIORITY_CLASS, IDLE_PRIORITY_CLASS, NORMAL_PRIORITY_CLASS,
    REALTIME_PRIORITY_CLASS,
};
use crate::resource::{
    IDC_DEBUG, IDC_TERMINATE, IDM_AFFINITY, IDM_PROCCOLS, IDM_PROC_DEBUG, IDM_PROC_HIGH,
    IDM_PROC_LOW, IDM_PROC_NORMAL, IDM_PROC_REALTIME, IDM_PROC_TERMINATE, MAX_AFFINITY_CPU,
    NUM_COLUMN,
};
use crate::winutil::Rect;

verus! {

broadcast use vstd::std_specs::hash::group_hash_axioms;

/// What a command of the process page asks for.
#[derive(Clone, Copy, PartialEq, Eq, Structural, Debug)]
pub enum ProcessCommand {
    Terminate,
    Debug,
    Affinity,
    /// Set the priority class given.
    SetPriority(u32),
    PickColumns,
    Ignore,
}

/// The priority class a priority menu command sets.
pub open spec fn spec_priority_for_command(command_id: u16) -> u32 {
    if command_id == IDM_PROC_LOW {
        IDLE_PRIORITY_CLASS
    } else if command_id == IDM_PROC_HIGH {
        HIGH_PRIORITY_CLASS
    } else if command_id == IDM_PROC_REALTIME {
        REALTIME_PRIORITY_CLASS
    } else {
        NORMAL_PRIORITY_CLASS
    }
}

/// The priority class a priority menu command sets.
pub fn priority_for_command(command_id: u16) -> (r: u32)
    ensures
        r == spec_priority_for_command(command_id),
{
    if command_id == IDM_PROC_LOW {
        IDLE_PRIORITY_CLASS
    } else if command_id == IDM_PROC_HIGH {
        HIGH_PRIORITY_CLASS
    } else if command_id == IDM_PROC_REALTIME {
        REALTIME_PRIORITY_CLASS
    } else {
        NORMAL_PRIORITY_CLASS
    }
}

/// The priority menu item checked for a priority class.
pub open spec fn spec_checked_priority_item(priority_class: u32) -> u16 {
    if priority_class == IDLE_PRIORITY_CLASS {
        IDM_PROC_LOW
    } else if priority_class == HIGH_PRIORITY_CLASS {
        IDM_PROC_HIGH
    } else if priority_class == REALTIME_PRIORITY_CLASS {
        IDM_PROC_REALTIME
    } else {
        IDM_PROC_NORMAL
    }
}

/// The priority menu item checked for a priority class.
pub fn checked_priority_item(priority_class: u32) -> (r: u16)
    ensures
        r == spec_checked_priority_item(priority_class),
{
    if priority_class == IDLE_PRIORITY_CLASS {
        IDM_PROC_LOW
    } else if priority_class == HIGH_PRIORITY_CLASS {
        IDM_PROC_HIGH
    } else if priority_class == REALTIME_PRIORITY_CLASS {
        IDM_PROC_REALTIME
    } else {
        IDM_PROC_NORMAL
    }
}

/// The item checked for a class is the one that sets that class, for the four classes
/// the menu offers; and choosing one of the four items checks it again afterwards.
pub proof fn lemma_priority_menu_round_trip(priority_class: u32, command_id: u16)
    ensures
        (priority_class == IDLE_PRIORITY_CLASS || priority_class == NORMAL_PRIORITY_CLASS
            || priority_class == HIGH_PRIORITY_CLASS || priority_class == REALTIME_PRIORITY_CLASS)
            ==> spec_priority_for_command(spec_checked_priority_item(priority_class)) == priority_class,
        (command_id == IDM_PROC_LOW || command_id == IDM_PROC_NORMAL || command_id == IDM_PROC_HIGH
            || command_id == IDM_PROC_REALTIME)
            ==> spec_checked_priority_item(spec_priority_for_command(command_id)) == command_id,
{
}

/// What a command id of the page asks for.
pub open spec fn spec_process_command(command_id: u16) -> ProcessCommand {
    if command_id == IDC_TERMINATE as u16 || command_id == IDM_PROC_TERMINATE {
        ProcessCommand::Terminate
    } else if command_id == IDC_DEBUG as u16 || command_id == IDM_PROC_DEBUG {
        ProcessCommand::Debug
    } else if command_id == IDM_AFFINITY {
        ProcessCommand::Affinity
    } else if command_id == IDM_PROC_REALTIME || command_id == IDM_PROC_HIGH || command_id == IDM_PROC_NORMAL
        || command_id == IDM_PROC_LOW {
        ProcessCommand::SetPriority(spec_priority_for_command(command_id))
    } else if command_id == IDM_PROCCOLS {
        ProcessCommand::PickColumns
    } else {
        ProcessCommand::Ignore
    }
}

/// Decodes a command of the process page.
pub fn process_command(command_id: u16) -> (r: ProcessCommand)
    ensures
        r == spec_process_command(command_id),
{
    if command_id == IDC_TERMINATE as u16 || command_id == IDM_PROC_TERMINATE {
        ProcessCommand::Terminate
    } else if command_id == IDC_DEBUG as u16 || command_id == IDM_PROC_DEBUG {
        ProcessCommand::Debug
    } else if command_id == IDM_AFFINITY {
        ProcessCommand::Affinity
    } else if command_id == IDM_PROC_REALTIME || command_id == IDM_PROC_HIGH || command_id == IDM_PROC_NORMAL
        || command_id == IDM_PROC_LOW {
        ProcessCommand::SetPriority(priority_for_command(command_id))
    } else if command_id == IDM_PROCCOLS {
        ProcessCommand::PickColumns
    } else {
        ProcessCommand::Ignore
    }
}

/// How the context menu of a process row is shown.
#[derive(Clone, Copy, PartialEq, Eq, Structural, Debug)]
pub struct ProcessMenuState {
    /// "Debug" stays enabled.
    pub debug_enabled: bool,
    /// The priority items stay enabled.
    pub priority_enabled: bool,
    /// "Set affinity" is offered.
    pub affinity_shown: bool,
    /// The priority item checked.
    pub checked_priority: u16,
}

/// The context menu of a row: no debugging without a debugger or for a 16-bit task, no
/// priorities for a 16-bit task, no affinity on one processor or for a 16-bit task.
pub fn context_menu_state(has_debugger: bool, entry: &ProcEntry, processor_count: usize) -> (r: ProcessMenuState)
    ensures
        r.debug_enabled == (has_debugger && !entry.is_wow_task),
        r.priority_enabled == !entry.is_wow_task,
        r.affinity_shown == (processor_count > 1 && !entry.is_wow_task),
        r.checked_priority == spec_checked_priority_item(entry.priority_class),
{
    ProcessMenuState {
        debug_enabled: has_debugger && !entry.is_wow_task,
        priority_enabled: !entry.is_wow_task,
        affinity_shown: !(processor_count <= 1 || entry.is_wow_task),
        checked_priority: checked_priority_item(entry.priority_class),
    }
}

/// The column a header click names: the active column at that position, else the id.
pub fn clicked_column(active_columns: &Vec<ColumnId>, sub_item: usize) -> (r: ColumnId)
    ensures
        r == (if sub_item < active_columns@.len() { active_columns@[sub_item as int] } else { ColumnId::Pid }),
{
    if sub_item < active_columns.len() {
        active_columns[sub_item]
    } else {
        ColumnId::Pid
    }
}

/// The sort after a header click: clicking the sort column turns the direction around;
/// clicking another column sorts by it, descending.
pub fn next_sort(sort_column: ColumnId, sort_direction: i32, clicked: ColumnId) -> (r: (ColumnId, i32))
    requires
        sort_direction != i32::MIN,
    ensures
        r.0 == clicked,
        r.1 == (if clicked == sort_column { -sort_direction } else { -1 }),
{
    if sort_column == clicked {
        (sort_column, -sort_direction)
    } else {
        (clicked, -1)
    }
}

/// The process a "find process" request selects: for a thread id naming a listed 16-bit
/// task, that task; otherwise the process id; and the first row of that id.
pub open spec fn spec_find_target(entries: Seq<ProcEntry>, thread_id: u32, pid: u32) -> u32 {
    if thread_id != 0 && exists|k: int| 0 <= k < entries.len() && #[trigger] entries[k].is_wow_task && entries[k].pid == thread_id {
        thread_id
    } else {
        pid
    }
}

fn lists_wow_task(entries: &Vec<ProcEntry>, thread_id: u32) -> (r: bool)
    ensures
        r == exists|k: int| 0 <= k < entries@.len() && #[trigger] entries@[k].is_wow_task && entries@[k].pid == thread_id,
{
    let mut i: usize = 0;
    while i < entries.len()
        invariant
            i <= entries@.len(),
            forall|k: int| 0 <= k < i ==> !(#[trigger] entries@[k].is_wow_task && entries@[k].pid == thread_id),
        decreases entries.len() - i,
    {
        if entries[i].is_wow_task && entries[i].pid == thread_id {
            return true;
        }
        i += 1;
    }
    false
}

/// Finds the row a "find process" request selects, if any: the id selected and its row.
pub fn find_process_target(entries: &Vec<ProcEntry>, thread_id: u32, pid: u32) -> (r: Option<(u32, usize)>)
    ensures
        match r {
            Some((target, index)) => target == spec_find_target(entries@, thread_id, pid)
                && index < entries@.len() && entries@[index as int].pid == target
                && forall|k: int| 0 <= k < index ==> #[trigger] entries@[k].pid != target,
            None => forall|k: int| 0 <= k < entries@.len() ==> #[trigger] entries@[k].pid != spec_find_target(entries@, thread_id, pid),
        },
{
    let target = if thread_id != 0 && lists_wow_task(entries, thread_id) { thread_id } else { pid };
    let mut j: usize = 0;
    while j < entries.len()
        invariant
            j <= entries@.len(),
            target == spec_find_target(entries@, thread_id, pid),
            forall|k: int| 0 <= k < j ==> #[trigger] entries@[k].pid != target,
        decreases entries.len() - j,
    {
        if entries[j].pid == target {
            return Some((target, j));
        }
        j += 1;
    }
    None
}

/// The row a list item shows: the row of the process the item stands for, when the item
/// names one, else the row at the item's position.
pub fn display_entry_index(entries: &Vec<ProcEntry>, item_pid: u32, item_index: usize) -> (r: Option<usize>)
    ensures
        item_pid != 0 ==> match r {
            Some(i) => i < entries@.len() && entries@[i as int].pid == item_pid
                && forall|k: int| 0 <= k < i ==> #[trigger] entries@[k].pid != item_pid,
            None => forall|k: int| 0 <= k < entries@.len() ==> #[trigger] entries@[k].pid != item_pid,
        },
        item_pid == 0 ==> r == (if item_index < entries@.len() { Some(item_index) } else { None::<usize> }),
{
    if item_pid != 0 {
        let mut i: usize = 0;
        while i < entries.len()
            invariant
                item_pid != 0,
                i <= entries@.len(),
                forall|k: int| 0 <= k < i ==> #[trigger] entries@[k].pid != item_pid,
            decreases entries.len() - i,
        {
            if entries[i].pid == item_pid {
                return Some(i);
            }
            i += 1;
        }
        None
    } else if item_index < entries.len() {
        Some(item_index)
    } else {
        None
    }
}

/// The width a column is set up with: the stored width at its position when positive,
/// else the column's default.
pub fn column_width(column_widths: &Vec<i32>, index: usize, column: ColumnId) -> (r: i32)
    ensures
        r == (if index < column_widths@.len() && column_widths@[index as int] > 0 {
            column_widths@[index as int]
        } else {
            spec_process_column(column).default_width
        }),
{
    if index < column_widths.len() && column_widths[index] > 0 {
        column_widths[index]
    } else {
        process_column(column).default_width
    }
}

/// The stored widths after the list is left: every slot -1, then the measured width of
/// each active column at its position, as far as there are slots.
pub fn store_column_widths(column_widths: &mut Vec<i32>, measured: &Vec<i32>)
    ensures
        final(column_widths)@.len() == old(column_widths)@.len(),
        forall|k: int| 0 <= k < final(column_widths)@.len() ==> #[trigger] final(column_widths)@[k]
            == (if k < measured@.len() { measured@[k] } else { -1i32 }),
{
    let n = column_widths.len();
    let mut i: usize = 0;
    while i < n
        invariant
            n == column_widths@.len(),
            n == old(column_widths)@.len(),
            i <= n,
            forall|k: int| 0 <= k < i ==> #[trigger] column_widths@[k]
                == (if k < measured@.len() { measured@[k] } else { -1i32 }),
        decreases n - i,
    {
        let value = if i < measured.len() { measured[i] } else { -1 };
        column_widths.set(i, value);
        i += 1;
    }
}

/// The width stored for `column` before the dialog: the width at the last position where
/// the stored columns named it, scanning up to the first slot that names none.
pub open spec fn spec_existing_widths(columns: Seq<i32>, widths: Seq<i32>) -> Map<i32, i32>
    decreases columns.len(),
{
    if columns.len() == 0 {
        Map::empty()
    } else {
        let rest = spec_existing_widths(columns.drop_last(), widths);
        if forall|k: int| 0 <= k < columns.len() ==> #[trigger] spec_column_id_from_i32(columns[k]) is Some {
            rest.insert(columns.last(), widths[columns.len() - 1])
        } else {
            rest
        }
    }
}

/// The width a selected column gets: its earlier width when positive, else its default.
pub open spec fn spec_selected_width(existing: Map<i32, i32>, column: ColumnId) -> i32 {
    let key = column.spec_index() as i32;
    if existing.contains_key(key) && existing[key] > 0 {
        existing[key]
    } else {
        spec_process_column(column).default_width
    }
}

/// The columns the dialog selects, in table order: the image name always, then each
/// checked column.
pub open spec fn spec_selected_columns(checked: Seq<bool>) -> Seq<ColumnId>
    decreases checked.len(),
{
    if checked.len() <= 1 {
        seq![ColumnId::ImageName]
    } else {
        let rest = spec_selected_columns(checked.drop_last());
        match spec_column_id_from_i32((checked.len() - 1) as i32) {
            Some(c) => if checked.last() { rest.push(c) } else { rest },
            None => rest,
        }
    }
}

fn selected_width(existing: &HashMap<i32, i32>, column: ColumnId) -> (r: i32)
    ensures
        r == spec_selected_width(existing@, column),
{
    let key = column.index() as i32;
    match existing.get(&key) {
        Some(w) => if *w > 0 { *w } else { process_column(column).default_width },
        None => process_column(column).default_width,
    }
}

/// Stores the columns checked in the selection dialog: the image name first, then the
/// checked columns in table order, each with its earlier width when it had a positive
/// one, else its default; the slots after them hold -1.
pub fn apply_selected_columns(
    checked: &Vec<bool>,
    active_process_columns: &mut Vec<i32>,
    column_widths: &mut Vec<i32>,
)
    requires
        checked@.len() == NUM_COLUMN,
        old(active_process_columns)@.len() == NUM_COLUMN,
        old(column_widths)@.len() == NUM_COLUMN,
    ensures
        ({
            let selected = spec_selected_columns(checked@);
            let existing = spec_existing_widths(old(active_process_columns)@, old(column_widths)@);
            &&& final(active_process_columns)@.len() == NUM_COLUMN
            &&& final(column_widths)@.len() == NUM_COLUMN
            &&& forall|k: int| 0 <= k < NUM_COLUMN ==> #[trigger] final(active_process_columns)@[k]
                == (if k < selected.len() { selected[k].spec_index() as i32 } else { -1i32 })
            &&& forall|k: int| 0 <= k < NUM_COLUMN ==> #[trigger] final(column_widths)@[k]
                == (if k < selected.len() { spec_selected_width(existing, selected[k]) } else { -1i32 })
        }),
{
    let ghost old_columns = active_process_columns@;
    let ghost old_widths = column_widths@;
    let mut existing: HashMap<i32, i32> = HashMap::new();
    let mut valid = true;
    let mut index: usize = 0;
    while index < NUM_COLUMN
        invariant
            active_process_columns@ == old_columns,
            column_widths@ == old_widths,
            old_columns.len() == NUM_COLUMN,
            old_widths.len() == NUM_COLUMN,
            index <= NUM_COLUMN,
            valid ==> forall|k: int| 0 <= k < index ==> #[trigger] spec_column_id_from_i32(old_columns[k]) is Some,
            !valid ==> exists|k: int| 0 <= k < index && !(#[trigger] spec_column_id_from_i32(old_columns[k]) is Some),
            existing@ == spec_existing_widths(old_columns.subrange(0, index as int), old_widths),
        decreases NUM_COLUMN - index,
    {
        let ghost prefix = old_columns.subrange(0, index + 1);
        proof {
            assert(prefix.drop_last() =~= old_columns.subrange(0, index as int));
            assert forall|k: int| 0 <= k < prefix.len() implies #[trigger] prefix[k] == old_columns[k] by {}
        }
        let value = active_process_columns[index];
        let is_column = column_id_from_i32(value).is_some();
        let ghost was_valid = valid;
        valid = valid && is_column;
        proof {
            if valid {
                assert forall|k: int| 0 <= k < prefix.len() implies #[trigger] spec_column_id_from_i32(prefix[k]) is Some by {
                    assert(prefix[k] == old_columns[k]);
                }
            } else if !is_column {
                assert(!(spec_column_id_from_i32(prefix[index as int]) is Some));
            } else {
                let w = choose|k: int| 0 <= k < index && !(#[trigger] spec_column_id_from_i32(old_columns[k]) is Some);
                assert(prefix[w] == old_columns[w]);
                assert(!(spec_column_id_from_i32(prefix[w]) is Some));
            }
        }
        if valid {
            existing.insert(value, column_widths[index]);
        }
        index += 1;
    }
    proof {
        assert(old_columns.subrange(0, NUM_COLUMN as int) =~= old_columns);
    }
    let ghost existing_map = existing@;

    let mut k: usize = 0;
    while k < NUM_COLUMN
        invariant
            active_process_columns@.len() == NUM_COLUMN,
            column_widths@.len() == NUM_COLUMN,
            k <= NUM_COLUMN,
            forall|j: int| 0 <= j < k ==> #[trigger] active_process_columns@[j] == -1i32,
            forall|j: int| 0 <= j < k ==> #[trigger] column_widths@[j] == -1i32,
        decreases NUM_COLUMN - k,
    {
        active_process_columns.set(k, -1);
        column_widths.set(k, -1);
        k += 1;
    }

    active_process_columns.set(0, 0);
    column_widths.set(0, selected_width(&existing, ColumnId::ImageName));
    let mut next_index: usize = 1;
    let mut column_index: usize = 1;
    assert(checked@.subrange(0, 1).len() == 1);
    while column_index < NUM_COLUMN
        invariant
            checked@.len() == NUM_COLUMN,
            existing@ == existing_map,
            1 <= column_index <= NUM_COLUMN,
            active_process_columns@.len() == NUM_COLUMN,
            column_widths@.len() == NUM_COLUMN,
            next_index == spec_selected_columns(checked@.subrange(0, column_index as int)).len(),
            next_index <= column_index,
            forall|j: int| 0 <= j < NUM_COLUMN ==> #[trigger] active_process_columns@[j]
                == (if j < next_index { spec_selected_columns(checked@.subrange(0, column_index as int))[j].spec_index() as i32 } else { -1i32 }),
            forall|j: int| 0 <= j < NUM_COLUMN ==> #[trigger] column_widths@[j]
                == (if j < next_index { spec_selected_width(existing_map, spec_selected_columns(checked@.subrange(0, column_index as int))[j]) } else { -1i32 }),
        decreases NUM_COLUMN - column_index,
    {
        let ghost before = spec_selected_columns(checked@.subrange(0, column_index as int));
        proof {
            assert(checked@.subrange(0, column_index + 1).drop_last() =~= checked@.subrange(0, column_index as int));
        }
        if checked[column_index] {
            let column = match column_id_from_i32(column_index as i32) {
                Some(c) => c,
                None => ColumnId::Pid,
            };
            active_process_columns.set(next_index, column.index() as i32);
            column_widths.set(next_index, selected_width(&existing, column));
            next_index += 1;
        }
        column_index += 1;
    }
    proof {
        assert(checked@.subrange(0, NUM_COLUMN as int) =~= checked@);
    }
}

/// Whether the affinity dialog's box for `cpu_index` is enabled and whether it is checked.
pub fn affinity_box_state(cpu_index: u32, processor_count: usize, process_mask: usize) -> (r: (bool, bool))
    requires
        cpu_index <= MAX_AFFINITY_CPU,
    ensures
        r.0 == (cpu_index < processor_count),
        r.1 == (cpu_index < processor_count && (process_mask >> cpu_index) & 1usize == 1usize),
{
    let enabled = (cpu_index as usize) < processor_count;
    let bit = (process_mask >> (cpu_index as usize)) & 1usize;
    (enabled, enabled && bit == 1usize)
}

/// The mask the checked boxes of the affinity dialog give: bit `i` for each checked box
/// `i` below both the processor count and 32.
pub open spec fn spec_affinity_mask_bit(checked: Seq<bool>, processor_count: usize, i: int) -> bool {
    0 <= i < processor_count && i <= MAX_AFFINITY_CPU && i < checked.len() && checked[i]
}

/// Collects the affinity mask from the dialog's boxes; `None` when no box is checked,
/// which the dialog refuses.
pub fn affinity_mask_from_checks(checked: &Vec<bool>, processor_count: usize) -> (r: Option<u32>)
    ensures
        match r {
            Some(mask) => mask != 0 && forall|i: u32| i < 32 ==> #[trigger] bit_set(mask, i)
                == spec_affinity_mask_bit(checked@, processor_count, i as int),
            None => forall|i: int| !#[trigger] spec_affinity_mask_bit(checked@, processor_count, i),
        },
{
    let limit: usize = if processor_count < 32 { processor_count } else { 32 };
    let mut mask: u32 = 0;
    let mut i: usize = 0;
    proof {
        reveal(bit_set);
        assert(forall|j: u32| j < 32 ==> !bit_set(0u32, j)) by (bit_vector);
    }
    while i < limit
        invariant
            limit <= 32,
            limit == (if processor_count < 32 { processor_count } else { 32 }),
            i <= limit,
            forall|j: u32| j < 32 ==> #[trigger] bit_set(mask, j)
                == (j < i && spec_affinity_mask_bit(checked@, processor_count, j as int)),
        decreases limit - i,
    {
        if i < checked.len() && checked[i] {
            let ii = i as u32;
            proof {
                lemma_or_bit(mask, ii);
            }
            mask = mask | (1u32 << ii);
        } else {
            assert(!spec_affinity_mask_bit(checked@, processor_count, i as int));
        }
        i += 1;
    }
    if mask == 0 {
        proof {
            reveal(bit_set);
            assert(forall|j: u32| j < 32 ==> !bit_set(0u32, j)) by (bit_vector);
        }
        assert forall|i: int| !#[trigger] spec_affinity_mask_bit(checked@, processor_count, i) by {
            if spec_affinity_mask_bit(checked@, processor_count, i) {
                assert(bit_set(mask, i as u32));
            }
        }
        None
    } else {
        Some(mask)
    }
}

/// Where the page's controls go: the button keeps its margins to the bottom right
/// corner, and the list fills the space above the button.
#[derive(Clone, Copy, PartialEq, Eq, Structural, Debug)]
pub struct ProcessPageLayout {
    pub button_x: i32,
    pub button_y: i32,
    pub list_width: i32,
    pub list_height: i32,
}

/// Margin between the page's edge and its controls.
pub const DEFAULT_MARGIN: i32 = 8;

/// Whether a value fits in an `i32`.
pub open spec fn fits_i32(x: int) -> bool {
    i32::MIN <= x <= i32::MAX
}

/// Every value that a page's layout computes fits in an `i32`: the page moves the button
/// `master` and the controls beside it to keep `spacing` from its bottom right corner, and
/// stretches `list` to end `spacing` above them.
pub open spec fn page_layout_fits(parent: Rect, master: Rect, list: Rect, spacing: int) -> bool {
    let dx = parent.right - spacing * 2 - master.right;
    let dy = parent.bottom - spacing * 2 - master.bottom;
    &&& fits_i32(parent.right - spacing * 2) && fits_i32(parent.bottom - spacing * 2)
    &&& fits_i32(dx) && fits_i32(dy)
    &&& fits_i32(master.left + dx) && fits_i32(master.top + dy)
    &&& fits_i32(master.right - list.left) && fits_i32(master.right - list.left + dx)
    &&& fits_i32(master.top - list.top) && fits_i32(master.top - list.top + dy)
    &&& fits_i32(master.top - list.top + dy - spacing)
}

/// Whether a value fits in an `i32`.
fn value_fits(x: i64) -> (r: bool)
    ensures
        r == fits_i32(x as int),
{
    -0x8000_0000i64 <= x && x <= 0x7fff_ffffi64
}

/// Whether a page with these rectangles and a spacing from 0 to `0x1_0000` can be laid out
/// by `process_page_layout` (spacing 8) or `user_page_layout`.
pub fn page_layout_in_range(parent: &Rect, master: &Rect, list: &Rect, spacing: i32) -> (r: bool)
    ensures
        r == (0 <= spacing <= 0x1_0000 && page_layout_fits(*parent, *master, *list, spacing as int)),
{
    if spacing < 0 || spacing > 0x1_0000 {
        return false;
    }
    let s = spacing as i64;
    let pr = parent.right as i64 - s * 2;
    let pb = parent.bottom as i64 - s * 2;
    let dx = pr - master.right as i64;
    let dy = pb - master.bottom as i64;
    let w = master.right as i64 - list.left as i64;
    let h = master.top as i64 - list.top as i64;
    value_fits(pr) && value_fits(pb) && value_fits(dx) && value_fits(dy)
        && value_fits(master.left as i64 + dx) && value_fits(master.top as i64 + dy)
        && value_fits(w) && value_fits(w + dx) && value_fits(h) && value_fits(h + dy)
        && value_fits(h + dy - s)
}

/// Lays out the process page in its client rectangle, given where the terminate button
/// and the list are now. The arithmetic is the page's own `i32` arithmetic, so every
/// intermediate value must fit.
pub fn process_page_layout(parent: &Rect, terminate: &Rect, list: &Rect) -> (r: ProcessPageLayout)
    requires
        page_layout_fits(*parent, *terminate, *list, 8),
    ensures
        ({
            let dx = parent.right - 16 - terminate.right;
            let dy = parent.bottom - 16 - terminate.bottom;
            let w = terminate.right - list.left + dx;
            let h = terminate.top - list.top + dy - 8;
            &&& r.button_x == terminate.left + dx
            &&& r.button_y == terminate.top + dy
            &&& r.list_width == (if w > 0 { w } else { 0 })
            &&& r.list_height == (if h > 0 { h } else { 0 })
        }),
{
    let dx = (parent.right - DEFAULT_MARGIN * 2) - terminate.right;
    let dy = (parent.bottom - DEFAULT_MARGIN * 2) - terminate.bottom;
    let w = terminate.right - list.left + dx;
    let h = terminate.top - list.top + dy - DEFAULT_MARGIN;
    ProcessPageLayout {
        button_x: terminate.left + dx,
        button_y: terminate.top + dy,
        list_width: if w > 0 { w } else { 0 },
        list_height: if h > 0 { h } else { 0 },
    }
}

/// The 16-bit task a terminate request names: the first row of that id that is a task,
/// with its host's id and its task handle.
pub fn wow_task_for_pid(entries: &Vec<ProcEntry>, pid: u32) -> (r: Option<(u32, u16)>)
    ensures
        match r {
            Some((real_pid, task)) => exists|k: int| 0 <= k < entries@.len() && #[trigger] entries@[k].pid == pid
                && entries@[k].is_wow_task && entries@[k].real_pid == real_pid && entries@[k].wow_task_handle == task
                && forall|m: int| 0 <= m < k ==> !(#[trigger] entries@[m].pid == pid && entries@[m].is_wow_task),
            None => forall|k: int| 0 <= k < entries@.len() ==> !(#[trigger] entries@[k].pid == pid && entries@[k].is_wow_task),
        },
{
    let mut i: usize = 0;
    while i < entries.len()
        invariant
            i <= entries@.len(),
            forall|k: int| 0 <= k < i ==> !(#[trigger] entries@[k].pid == pid && entries@[k].is_wow_task),
        decreases entries.len() - i,
    {
        if entries[i].pid == pid && entries[i].is_wow_task {
            return Some((entries[i].real_pid, entries[i].wow_task_handle));
        }
        i += 1;
    }
    None
}

/// The title and text of a failure message box: the warning title ("Task Manager" when
/// it is empty), and the message followed by the Win32 error code.
pub fn failure_message(warning: &str, body: &str, error: u32) -> (r: (String, String))
    ensures
        r.0@ == (if warning@.len() == 0 { "Task Manager"@ } else { warning@ }),
        r.1@ == body@ + "\r\n\r\nWin32 error: "@ + crate::strings::decimal(error as nat),
{
    let title = if warning.unicode_len() == 0 { String::from_str("Task Manager") } else { String::from_str(warning) };
    let mut text = crate::strings::chars_of(body);
    let middle = crate::strings::chars_of("\r\n\r\nWin32 error: ");
    crate::strings::extend_chars(&mut text, &middle);
    let digits = crate::strings::decimal_chars(error as u64);
    crate::strings::extend_chars(&mut text, &digits);
    (title, crate::strings::string_from_chars(&text))
}

/// The name of a well-known service account, by which of the three it is.
pub fn well_known_service_name(is_local_system: bool, is_local_service: bool, is_network_service: bool) -> (r: Option<String>)
    ensures
        match r {
            Some(s) => (is_local_system && s@ == "SYSTEM"@)
                || (!is_local_system && is_local_service && s@ == "LOCAL SERVICE"@)
                || (!is_local_system && !is_local_service && is_network_service && s@ == "NETWORK SERVICE"@),
            None => !is_local_system && !is_local_service && !is_network_service,
        },
{
    if is_local_system {
        Some(String::from_str("SYSTEM"))
    } else if is_local_service {
        Some(String::from_str("LOCAL SERVICE"))
    } else if is_network_service {
        Some(String::from_str("NETWORK SERVICE"))
    } else {
        None
    }
}

/// The user a terminal-services listing gives a process: `SYSTEM` for the idle process,
/// else the account looked up.
pub fn listed_user_name(pid: u32, looked_up: String) -> (r: String)
    ensures
        r@ == (if pid == 0 { "SYSTEM"@ } else { looked_up@ }),
{
    if pid == 0 { String::from_str("SYSTEM") } else { looked_up }
}

} // verus!
