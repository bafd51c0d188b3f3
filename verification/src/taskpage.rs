//! Applications page: the rows of the task list, how a refresh merges the windows found
//! into them, their order, the texts of their cells and the page's commands.
use vstd::prelude::*;

use crate::localization::{table_text, text, UiLanguage};
use crate::procpage::{bit_set, lemma_or_bit};
use crate::proctext::{eq_ignore_ascii_case, spec_eq_ignore_ascii_case};
use crate::resource::{
    IDC_CASCADE, IDC_ENDTASK, IDC_MAXIMIZE, IDC_MINIMIZE, IDC_SWITCHTO, IDC_TILEHORZ, IDC_TILEVERT,
    IDM_DETAILS, IDM_LARGEICONS, IDM_RUN, IDM_SMALLICONS, IDM_TASK_BRINGTOFRONT, IDM_TASK_CASCADE,
    IDM_TASK_ENDTASK, IDM_TASK_FINDPROCESS, IDM_TASK_MAXIMIZE, IDM_TASK_MINIMIZE, IDM_TASK_SWITCHTO,
    IDM_TASK_TILEHORZ, IDM_TASK_TILEVERT, IDS_COL_TASKDESKTOP, IDS_COL_TASKNAME, IDS_COL_TASKSTATUS,
    IDS_COL_TASKWINSTATION,
};
use crate::sort::{adjacent_sorted, insertion_sort, stable_rearrangement, RowOrder};
use crate::strings::{
    compare_lowercase, int_order, lemma_seq_order_antisymmetric, lemma_seq_order_equal, lowercase_order, str_lowercase,
    SortOrder,
};
use crate::text_key::TextKey;
use crate::winutil::append_32_bit_suffix;

verus! {

broadcast use vstd::string::group_string_axioms;

/// The columns of the task list.
#[derive(Clone, Copy, PartialEq, Eq, Structural, Debug)]
pub enum TaskColumnId {
    Name,
    Status,
    Winstation,
    Desktop,
}

impl TaskColumnId {
    /// Position of the column in the column table.
    pub open spec fn spec_index(self) -> nat {
        match self {
            TaskColumnId::Name => 0,
            TaskColumnId::Status => 1,
            TaskColumnId::Winstation => 2,
            TaskColumnId::Desktop => 3,
        }
    }

    /// Position of the column in the column table.
    pub fn index(self) -> (r: u32)
        ensures
            r == self.spec_index(),
    {
        match self {
            TaskColumnId::Name => 0,
            TaskColumnId::Status => 1,
            TaskColumnId::Winstation => 2,
            TaskColumnId::Desktop => 3,
        }
    }
}

/// Title and width of a task-list column.
#[derive(Clone, Copy, PartialEq, Eq, Structural, Debug)]
pub struct TaskColumn {
    pub title_id: u32,
    pub width: i32,
}

impl TaskColumn {
    pub fn new(title_id: u32, width: i32) -> (r: Self)
        ensures
            r == (TaskColumn { title_id, width }),
    {
        TaskColumn { title_id, width }
    }
}

/// The description of each task-list column.
pub fn task_column(column: TaskColumnId) -> (r: TaskColumn)
    ensures
        r == (match column {
            TaskColumnId::Name => TaskColumn { title_id: IDS_COL_TASKNAME, width: 250 },
            TaskColumnId::Status => TaskColumn { title_id: IDS_COL_TASKSTATUS, width: 97 },
            TaskColumnId::Winstation => TaskColumn { title_id: IDS_COL_TASKWINSTATION, width: 70 },
            TaskColumnId::Desktop => TaskColumn { title_id: IDS_COL_TASKDESKTOP, width: 70 },
        }),
{
    match column {
        TaskColumnId::Name => TaskColumn::new(IDS_COL_TASKNAME, 250),
        TaskColumnId::Status => TaskColumn::new(IDS_COL_TASKSTATUS, 97),
        TaskColumnId::Winstation => TaskColumn::new(IDS_COL_TASKWINSTATION, 70),
        TaskColumnId::Desktop => TaskColumn::new(IDS_COL_TASKDESKTOP, 70),
    }
}

/// The shown column at a position of the list: the name, then the status.
pub fn active_task_column(sub_item: usize) -> (r: Option<TaskColumnId>)
    ensures
        r == (if sub_item == 0 { Some(TaskColumnId::Name) } else if sub_item == 1 { Some(TaskColumnId::Status) } else { None }),
{
    if sub_item == 0 {
        Some(TaskColumnId::Name)
    } else if sub_item == 1 {
        Some(TaskColumnId::Status)
    } else {
        None
    }
}

/// The set of columns whose text changed since a row was drawn, one bit per column.
#[derive(Clone, Copy, PartialEq, Eq, Structural, Debug)]
pub struct DirtyTaskColumns(pub u32);

impl DirtyTaskColumns {
    /// Whether `column` is marked.
    pub open spec fn is_marked(self, column: TaskColumnId) -> bool {
        bit_set(self.0, column.spec_index() as u32)
    }

    /// No column marked.
    pub fn none() -> (r: Self)
        ensures
            r.0 == 0,
            forall|c: TaskColumnId| !r.is_marked(c),
    {
        proof {
            reveal(bit_set);
            assert(forall|j: u32| j < 32 ==> !bit_set(0u32, j)) by (bit_vector);
        }
        DirtyTaskColumns(0)
    }

    /// Every column marked.
    pub fn all() -> (r: Self)
        ensures
            r.0 == u32::MAX,
            forall|c: TaskColumnId| r.is_marked(c),
    {
        proof {
            reveal(bit_set);
            assert(forall|j: u32| j < 32 ==> bit_set(0xffff_ffffu32, j)) by (bit_vector);
        }
        DirtyTaskColumns(u32::MAX)
    }

    /// Marks one more column.
    pub fn mark(&mut self, column_id: TaskColumnId)
        ensures
            forall|c: TaskColumnId| final(self).is_marked(c) <==> (old(self).is_marked(c) || c == column_id),
    {
        let i = column_id.index();
        proof {
            lemma_or_bit(self.0, i);
            assert forall|c: TaskColumnId| #![auto] bit_set(self.0 | (1u32 << i), c.spec_index() as u32)
                <==> (bit_set(self.0, c.spec_index() as u32) || c == column_id) by {
                assert(bit_set(self.0 | (1u32 << i), c.spec_index() as u32) == (bit_set(self.0, c.spec_index() as u32)
                    || c.spec_index() as u32 == i));
            }
        }
        self.0 = self.0 | (1u32 << i);
    }

    /// Whether anything is marked.
    pub fn any(self) -> (r: bool)
        ensures
            r == (self.0 != 0),
            !r ==> forall|c: TaskColumnId| !self.is_marked(c),
    {
        proof {
            reveal(bit_set);
            assert(forall|j: u32| j < 32 ==> !bit_set(0u32, j)) by (bit_vector);
        }
        self.0 != 0
    }
}

/// A top-level window found by a refresh.
pub struct WorkerTaskEntry {
    /// The window's handle, as a number.
    pub hwnd: usize,
    pub title: String,
    pub is_32_bit: bool,
    pub winstation: String,
    pub desktop: String,
    pub is_hung: bool,
}

/// One row of the task list.
pub struct TaskEntry {
    /// The window's handle, as a number.
    pub hwnd: usize,
    pub title: String,
    pub is_32_bit: bool,
    pub winstation: String,
    pub desktop: String,
    pub is_hung: bool,
    /// Positions of the window's icons in the small and large image lists.
    pub small_icon: usize,
    pub large_icon: usize,
    pub pass_count: u64,
    pub dirty_columns: DirtyTaskColumns,
}

/// The status of a window: not responding, or running.
pub fn status_text(language: UiLanguage, is_hung: bool) -> (r: &'static str)
    ensures
        r == table_text(language, if is_hung { TextKey::NotResponding } else { TextKey::Running }),
{
    if is_hung {
        text(language, TextKey::NotResponding)
    } else {
        text(language, TextKey::Running)
    }
}

/// The text of a cell of the task list.
pub fn task_cell_text(language: UiLanguage, task: &TaskEntry, column: TaskColumnId) -> (r: String)
    ensures
        r@ == (match column {
            TaskColumnId::Name => if task.is_32_bit {
                task.title@ + seq![' '] + table_text(language, TextKey::Bitness32Suffix)@
            } else {
                task.title@
            },
            TaskColumnId::Status => table_text(language, if task.is_hung { TextKey::NotResponding } else { TextKey::Running })@,
            TaskColumnId::Winstation => task.winstation@,
            TaskColumnId::Desktop => task.desktop@,
        }),
{
    match column {
        TaskColumnId::Name => append_32_bit_suffix(language, task.title.as_str(), task.is_32_bit),
        TaskColumnId::Status => String::from_str(status_text(language, task.is_hung)),
        TaskColumnId::Winstation => task.winstation.clone(),
        TaskColumnId::Desktop => task.desktop.clone(),
    }
}

/// Whether a window found on a desktop is listed: unowned, visible, not this program's
/// own window, and titled, but not the desktop's "Program Manager".
pub open spec fn spec_lists_window(has_owner: bool, visible: bool, is_main: bool, title: Seq<char>) -> bool {
    !has_owner && visible && !is_main && title.len() > 0 && !spec_eq_ignore_ascii_case(title, "Program Manager"@)
}

/// Whether a window found on a desktop is listed.
pub fn lists_window(has_owner: bool, visible: bool, is_main: bool, title: &str) -> (r: bool)
    ensures
        r == spec_lists_window(has_owner, visible, is_main, title@),
{
    if has_owner || !visible || is_main {
        return false;
    }
    title.unicode_len() > 0 && !eq_ignore_ascii_case(title, "Program Manager")
}

/// Adds a found window unless a window with its handle was already found.
pub fn add_worker_task(tasks: &mut Vec<WorkerTaskEntry>, task: WorkerTaskEntry)
    ensures
        (exists|k: int| 0 <= k < old(tasks)@.len() && #[trigger] old(tasks)@[k].hwnd == task.hwnd)
            ==> final(tasks)@ == old(tasks)@,
        !(exists|k: int| 0 <= k < old(tasks)@.len() && #[trigger] old(tasks)@[k].hwnd == task.hwnd)
            ==> final(tasks)@ == old(tasks)@.push(task),
{
    let mut i: usize = 0;
    while i < tasks.len()
        invariant
            i <= tasks@.len(),
            tasks@ == old(tasks)@,
            forall|k: int| 0 <= k < i ==> #[trigger] tasks@[k].hwnd != task.hwnd,
        decreases tasks.len() - i,
    {
        if tasks[i].hwnd == task.hwnd {
            return;
        }
        i += 1;
    }
    tasks.push(task);
}

impl TaskEntry {
    /// A new row for a found window, with its icons, stamped with the pass, every
    /// column to be drawn.
    pub fn from_worker(worker: WorkerTaskEntry, small_icon: usize, large_icon: usize, pass_count: u64) -> (r: Self)
        ensures
            r.hwnd == worker.hwnd && r.title@ == worker.title@ && r.is_32_bit == worker.is_32_bit,
            r.winstation@ == worker.winstation@ && r.desktop@ == worker.desktop@ && r.is_hung == worker.is_hung,
            r.small_icon == small_icon && r.large_icon == large_icon,
            r.pass_count == pass_count,
            r.dirty_columns.0 == u32::MAX,
    {
        TaskEntry {
            hwnd: worker.hwnd,
            title: worker.title,
            is_32_bit: worker.is_32_bit,
            winstation: worker.winstation,
            desktop: worker.desktop,
            is_hung: worker.is_hung,
            small_icon,
            large_icon,
            pass_count,
            dirty_columns: DirtyTaskColumns::all(),
        }
    }
}

/// Whether the text of `column` differs between a row and a fresh sighting.
pub open spec fn task_column_changed(task: TaskEntry, worker: WorkerTaskEntry, column: TaskColumnId) -> bool {
    match column {
        TaskColumnId::Name => task.title@ != worker.title@ || task.is_32_bit != worker.is_32_bit,
        TaskColumnId::Status => task.is_hung != worker.is_hung,
        TaskColumnId::Winstation => task.winstation@ != worker.winstation@,
        TaskColumnId::Desktop => task.desktop@ != worker.desktop@,
    }
}

fn copy_text(s: &String) -> (r: String)
    ensures
        r@ == s@,
{
    s.clone()
}

/// Brings a row up to date with a fresh sighting of its window: it then holds the
/// sighting's texts and flags and the pass, its icons stay, and exactly the columns
/// whose text changed are marked in addition to those marked before.
pub fn update_task_entry(task: &mut TaskEntry, worker: &WorkerTaskEntry, pass_count: u64)
    ensures
        final(task).hwnd == old(task).hwnd,
        final(task).title@ == worker.title@ && final(task).is_32_bit == worker.is_32_bit,
        final(task).winstation@ == worker.winstation@ && final(task).desktop@ == worker.desktop@,
        final(task).is_hung == worker.is_hung,
        final(task).small_icon == old(task).small_icon && final(task).large_icon == old(task).large_icon,
        final(task).pass_count == pass_count,
        forall|c: TaskColumnId| #[trigger] final(task).dirty_columns.is_marked(c)
            <==> (old(task).dirty_columns.is_marked(c) || task_column_changed(*old(task), *worker, c)),
{
    let ghost before = *task;
    let mut dirty = task.dirty_columns;
    let name_changed = !crate::localization_terms::str_eq(task.title.as_str(), worker.title.as_str())
        || task.is_32_bit != worker.is_32_bit;
    let status_changed = task.is_hung != worker.is_hung;
    let winstation_changed = !crate::localization_terms::str_eq(task.winstation.as_str(), worker.winstation.as_str());
    let desktop_changed = !crate::localization_terms::str_eq(task.desktop.as_str(), worker.desktop.as_str());
    let ghost d0 = dirty;
    if name_changed {
        dirty.mark(TaskColumnId::Name);
    }
    let ghost d1 = dirty;
    if status_changed {
        dirty.mark(TaskColumnId::Status);
    }
    let ghost d2 = dirty;
    if winstation_changed {
        dirty.mark(TaskColumnId::Winstation);
    }
    let ghost d3 = dirty;
    if desktop_changed {
        dirty.mark(TaskColumnId::Desktop);
    }
    assert forall|c: TaskColumnId| #[trigger] dirty.is_marked(c)
        <==> (before.dirty_columns.is_marked(c) || task_column_changed(before, *worker, c)) by {
        assert(d1.is_marked(c) <==> (d0.is_marked(c) || (name_changed && c == TaskColumnId::Name)));
        assert(d2.is_marked(c) <==> (d1.is_marked(c) || (status_changed && c == TaskColumnId::Status)));
        assert(d3.is_marked(c) <==> (d2.is_marked(c) || (winstation_changed && c == TaskColumnId::Winstation)));
        assert(dirty.is_marked(c) <==> (d3.is_marked(c) || (desktop_changed && c == TaskColumnId::Desktop)));
    }
    task.pass_count = pass_count;
    task.winstation = copy_text(&worker.winstation);
    task.desktop = copy_text(&worker.desktop);
    task.title = copy_text(&worker.title);
    task.is_32_bit = worker.is_32_bit;
    task.is_hung = worker.is_hung;
    task.dirty_columns = dirty;
}

/// Index of the row of window `hwnd`.
pub fn find_task(tasks: &Vec<TaskEntry>, hwnd: usize) -> (r: Option<usize>)
    ensures
        match r {
            Some(i) => i < tasks@.len() && tasks@[i as int].hwnd == hwnd
                && forall|k: int| 0 <= k < i ==> #[trigger] tasks@[k].hwnd != hwnd,
            None => forall|k: int| 0 <= k < tasks@.len() ==> #[trigger] tasks@[k].hwnd != hwnd,
        },
{
    let mut i: usize = 0;
    while i < tasks.len()
        invariant
            i <= tasks@.len(),
            forall|k: int| 0 <= k < i ==> #[trigger] tasks@[k].hwnd != hwnd,
        decreases tasks.len() - i,
    {
        if tasks[i].hwnd == hwnd {
            return Some(i);
        }
        i += 1;
    }
    None
}

/// Whether a found window gets a new row: no row and no earlier found window has its
/// handle.
pub open spec fn spec_needs_row(tasks: Seq<TaskEntry>, workers: Seq<WorkerTaskEntry>, j: int) -> bool {
    &&& forall|k: int| 0 <= k < tasks.len() ==> #[trigger] tasks[k].hwnd != workers[j].hwnd
    &&& forall|i: int| 0 <= i < j ==> #[trigger] workers[i].hwnd != workers[j].hwnd
}

/// Which found windows get a new row, and so need their icons fetched.
pub fn windows_needing_rows(tasks: &Vec<TaskEntry>, workers: &Vec<WorkerTaskEntry>) -> (r: Vec<bool>)
    ensures
        r@.len() == workers@.len(),
        forall|j: int| 0 <= j < workers@.len() ==> #[trigger] r@[j] == spec_needs_row(tasks@, workers@, j),
{
    let mut out: Vec<bool> = Vec::new();
    let mut j: usize = 0;
    while j < workers.len()
        invariant
            j <= workers@.len(),
            out@.len() == j,
            forall|k: int| 0 <= k < j ==> #[trigger] out@[k] == spec_needs_row(tasks@, workers@, k),
        decreases workers.len() - j,
    {
        let no_row = find_task(tasks, workers[j].hwnd).is_none();
        let mut first = true;
        let mut i: usize = 0;
        while i < j
            invariant
                i <= j,
                j < workers@.len(),
                first == forall|k: int| 0 <= k < i ==> #[trigger] workers@[k].hwnd != workers@[j as int].hwnd,
            decreases j - i,
        {
            if workers[i].hwnd == workers[j].hwnd {
                first = false;
            }
            i += 1;
        }
        out.push(no_row && first);
        j += 1;
    }
    out
}

/// Some row stands for window `hwnd` and was refreshed in pass `pass`.
pub open spec fn has_task_row(tasks: Seq<TaskEntry>, hwnd: usize, pass: u64) -> bool {
    exists|k: int| 0 <= k < tasks.len() && #[trigger] tasks[k].hwnd == hwnd && tasks[k].pass_count == pass
}

/// `a` stands for the window of `b` at the same icon positions.
pub open spec fn same_window_and_icons(a: TaskEntry, b: TaskEntry) -> bool {
    a.hwnd == b.hwnd && a.small_icon == b.small_icon && a.large_icon == b.large_icon
}

/// A row holds what a sighting of its window reported.
pub open spec fn task_holds(t: TaskEntry, w: WorkerTaskEntry) -> bool {
    &&& t.hwnd == w.hwnd && t.title@ == w.title@ && t.is_32_bit == w.is_32_bit
    &&& t.winstation@ == w.winstation@ && t.desktop@ == w.desktop@ && t.is_hung == w.is_hung
}

/// A row holds what one of the found windows reported.
pub open spec fn holds_found(workers: Seq<WorkerTaskEntry>, t: TaskEntry) -> bool {
    exists|j: int| 0 <= j < workers.len() && #[trigger] task_holds(t, workers[j])
}

/// A row's icons are those fetched for a found window with its handle.
pub open spec fn icons_found(workers: Seq<WorkerTaskEntry>, icons: Seq<(usize, usize)>, t: TaskEntry) -> bool {
    exists|j: int| #![trigger workers[j]] 0 <= j < workers.len() && workers[j].hwnd == t.hwnd
        && icons[j] == (t.small_icon, t.large_icon)
}

/// Merges the windows found by a refresh into the rows: a window that has a row updates
/// it, any other window gets a new row with the icons fetched for it; every row touched
/// is stamped with `current_pass`, and no new row repeats the window of another row.
pub fn refresh_task_entries(
    tasks: &mut Vec<TaskEntry>,
    workers: Vec<WorkerTaskEntry>,
    current_pass: u64,
    icons: &Vec<(usize, usize)>,
)
    requires
        icons@.len() == workers@.len(),
    ensures
        final(tasks)@.len() >= old(tasks)@.len(),
        forall|j: int| 0 <= j < workers@.len() ==> has_task_row(final(tasks)@, #[trigger] workers@[j].hwnd, current_pass),
        forall|k: int| 0 <= k < final(tasks)@.len() && #[trigger] final(tasks)@[k].pass_count != current_pass
            ==> k < old(tasks)@.len() && final(tasks)@[k] == old(tasks)@[k],
        forall|k: int| 0 <= k < final(tasks)@.len() && #[trigger] final(tasks)@[k].pass_count == current_pass
            ==> holds_found(workers@, final(tasks)@[k]) || (k < old(tasks)@.len() && old(tasks)@[k].pass_count == current_pass),
        forall|k: int| old(tasks)@.len() <= k < final(tasks)@.len() ==> icons_found(workers@, icons@, #[trigger] final(tasks)@[k]),
        forall|k: int| 0 <= k < old(tasks)@.len() ==> same_window_and_icons(#[trigger] final(tasks)@[k], old(tasks)@[k]),
        forall|m: int, k: int| 0 <= m < k < final(tasks)@.len() && old(tasks)@.len() <= k
            ==> #[trigger] final(tasks)@[m].hwnd != #[trigger] final(tasks)@[k].hwnd,
{
    let ghost old_rows = tasks@;
    let ghost found = workers@;
    let mut workers = workers;
    let n = workers.len();
    let mut done: usize = 0;
    while workers.len() > 0
        invariant
            n == found.len(),
            done + workers@.len() == n,
            workers@ == found.subrange(done as int, n as int),
            icons@.len() == n,
            tasks@.len() >= old_rows.len(),
            forall|j: int| 0 <= j < done ==> has_task_row(tasks@, #[trigger] found[j].hwnd, current_pass),
            forall|k: int| 0 <= k < tasks@.len() && #[trigger] tasks@[k].pass_count != current_pass
                ==> k < old_rows.len() && tasks@[k] == old_rows[k],
            forall|k: int| 0 <= k < tasks@.len() && #[trigger] tasks@[k].pass_count == current_pass
                ==> holds_found(found, tasks@[k]) || (k < old_rows.len() && old_rows[k].pass_count == current_pass),
            forall|k: int| old_rows.len() <= k < tasks@.len() ==> icons_found(found, icons@, #[trigger] tasks@[k]),
            forall|k: int| 0 <= k < old_rows.len() ==> same_window_and_icons(#[trigger] tasks@[k], old_rows[k]),
            forall|m: int, k: int| 0 <= m < k < tasks@.len() && old_rows.len() <= k
                ==> #[trigger] tasks@[m].hwnd != #[trigger] tasks@[k].hwnd,
        decreases workers@.len(),
    {
        let worker = workers.remove(0);
        assert(worker == found[done as int]);
        let ghost before = tasks@;
        match find_task(tasks, worker.hwnd) {
            Some(idx) => {
                update_task_entry(&mut tasks[idx], &worker, current_pass);
                assert forall|j: int| 0 <= j < done + 1 implies has_task_row(tasks@, #[trigger] found[j].hwnd, current_pass) by {
                    if j < done {
                        let k = choose|k: int| 0 <= k < before.len() && #[trigger] before[k].hwnd == found[j].hwnd && before[k].pass_count == current_pass;
                        if k != idx as int {
                            assert(tasks@[k] == before[k]);
                        }
                    } else {
                        assert(tasks@[idx as int].hwnd == found[j].hwnd);
                    }
                }
                assert forall|k: int| 0 <= k < tasks@.len() && #[trigger] tasks@[k].pass_count != current_pass
                    implies k < old_rows.len() && tasks@[k] == old_rows[k] by {
                    assert(k != idx as int);
                    assert(tasks@[k] == before[k]);
                }
                assert(task_holds(tasks@[idx as int], found[done as int]));
                assert forall|k: int| 0 <= k < tasks@.len() && #[trigger] tasks@[k].pass_count == current_pass
                    implies holds_found(found, tasks@[k]) || (k < old_rows.len() && old_rows[k].pass_count == current_pass) by {
                    if k != idx as int {
                        assert(tasks@[k] == before[k]);
                    }
                }
                assert forall|k: int| old_rows.len() <= k < tasks@.len() implies icons_found(found, icons@, #[trigger] tasks@[k]) by {
                    if k != idx as int {
                        assert(tasks@[k] == before[k]);
                    } else {
                        assert(icons_found(found, icons@, before[k]));
                        let j = choose|j: int| #![trigger found[j]] 0 <= j < found.len() && found[j].hwnd == before[k].hwnd
                            && icons@[j] == (before[k].small_icon, before[k].large_icon);
                        assert(found[j].hwnd == tasks@[k].hwnd);
                    }
                }
                assert forall|k: int| 0 <= k < old_rows.len() implies same_window_and_icons(#[trigger] tasks@[k], old_rows[k]) by {
                    assert(same_window_and_icons(before[k], old_rows[k]));
                    if k != idx as int {
                        assert(tasks@[k] == before[k]);
                    }
                }
                assert forall|m: int, k: int| 0 <= m < k < tasks@.len() && old_rows.len() <= k
                    implies #[trigger] tasks@[m].hwnd != #[trigger] tasks@[k].hwnd by {
                    assert(tasks@[m].hwnd == before[m].hwnd);
                    assert(tasks@[k].hwnd == before[k].hwnd);
                }
            },
            None => {
                let (small, large) = icons[done];
                let row = TaskEntry::from_worker(worker, small, large, current_pass);
                tasks.push(row);
                assert forall|j: int| 0 <= j < done + 1 implies has_task_row(tasks@, #[trigger] found[j].hwnd, current_pass) by {
                    if j < done {
                        let k = choose|k: int| 0 <= k < before.len() && #[trigger] before[k].hwnd == found[j].hwnd && before[k].pass_count == current_pass;
                        assert(tasks@[k] == before[k]);
                    } else {
                        assert(tasks@[before.len() as int].hwnd == found[j].hwnd);
                    }
                }
                assert forall|k: int| 0 <= k < tasks@.len() && #[trigger] tasks@[k].pass_count != current_pass
                    implies k < old_rows.len() && tasks@[k] == old_rows[k] by {
                    assert(k < before.len());
                    assert(tasks@[k] == before[k]);
                }
                assert(task_holds(tasks@[before.len() as int], found[done as int]));
                assert forall|k: int| 0 <= k < tasks@.len() && #[trigger] tasks@[k].pass_count == current_pass
                    implies holds_found(found, tasks@[k]) || (k < old_rows.len() && old_rows[k].pass_count == current_pass) by {
                    if k < before.len() {
                        assert(tasks@[k] == before[k]);
                    }
                }
                assert forall|k: int| old_rows.len() <= k < tasks@.len() implies icons_found(found, icons@, #[trigger] tasks@[k]) by {
                    if k < before.len() {
                        assert(tasks@[k] == before[k]);
                    } else {
                        assert(found[done as int].hwnd == tasks@[k].hwnd);
                        assert(icons@[done as int] == (tasks@[k].small_icon, tasks@[k].large_icon));
                    }
                }
                assert forall|k: int| 0 <= k < old_rows.len() implies same_window_and_icons(#[trigger] tasks@[k], old_rows[k]) by {
                    assert(k < before.len());
                    assert(same_window_and_icons(before[k], old_rows[k]));
                    assert(tasks@[k] == before[k]);
                }
                assert forall|m: int, k: int| 0 <= m < k < tasks@.len() && old_rows.len() <= k
                    implies #[trigger] tasks@[m].hwnd != #[trigger] tasks@[k].hwnd by {
                    assert(tasks@[m] == before[m]);
                    if k < before.len() {
                        assert(tasks@[k] == before[k]);
                    } else {
                        assert(tasks@[k].hwnd == worker.hwnd);
                    }
                }
            },
        }
        done += 1;
        proof {
            assert(workers@ =~= found.subrange(done as int, n as int));
        }
    }
}

/// An icon position after the icon at `removed` left its image list: positions past it
/// move down by one (position 0, the default icon, is never removed).
pub open spec fn shifted_icon(icon: usize, removed: usize) -> usize {
    if removed > 0 && icon > removed { (icon - 1) as usize } else { icon }
}

/// An icon position after the icons at `removed` left their image list, in order.
pub open spec fn shift_all(icon: usize, removed: Seq<usize>) -> usize
    decreases removed.len(),
{
    if removed.len() == 0 {
        icon
    } else {
        shifted_icon(shift_all(icon, removed.drop_last()), removed.last())
    }
}

/// The small (or large) icon of a row.
pub open spec fn icon_of(t: TaskEntry, small: bool) -> usize {
    if small { t.small_icon } else { t.large_icon }
}

/// The icon positions the rows of earlier passes give up, in row order, each as it is
/// when its row goes (after the positions given up before it).
pub open spec fn removed_icons(tasks: Seq<TaskEntry>, pass: u64, small: bool) -> Seq<usize>
    decreases tasks.len(),
{
    if tasks.len() == 0 {
        Seq::empty()
    } else {
        let prev = removed_icons(tasks.drop_last(), pass, small);
        let t = tasks.last();
        if t.pass_count != pass { prev.push(shift_all(icon_of(t, small), prev)) } else { prev }
    }
}

/// `b` is row `a` with its icons renumbered.
pub open spec fn same_task_but_icons(a: TaskEntry, b: TaskEntry) -> bool {
    &&& a.hwnd == b.hwnd && a.title@ == b.title@ && a.is_32_bit == b.is_32_bit
    &&& a.winstation@ == b.winstation@ && a.desktop@ == b.desktop@ && a.is_hung == b.is_hung
    &&& a.pass_count == b.pass_count && a.dirty_columns == b.dirty_columns
}

fn shift_all_exec(icon: usize, removed: &Vec<usize>) -> (r: usize)
    ensures
        r == shift_all(icon, removed@),
{
    let mut v = icon;
    let mut i: usize = 0;
    while i < removed.len()
        invariant
            i <= removed@.len(),
            v == shift_all(icon, removed@.subrange(0, i as int)),
        decreases removed.len() - i,
    {
        proof {
            assert(removed@.subrange(0, i + 1).drop_last() =~= removed@.subrange(0, i as int));
        }
        let r = removed[i];
        if r > 0 && v > r {
            v = v - 1;
        }
        i += 1;
    }
    proof {
        assert(removed@.subrange(0, i as int) =~= removed@);
    }
    v
}

/// Drops the rows of windows the current refresh did not find, keeping the others in
/// order. A dropped row's icons leave their image lists, so every icon past them moves
/// down by one; the result lists, in order, the icon positions given up (as they are
/// when their row goes) for the image lists to drop too.
pub fn remove_stale_tasks(tasks: &mut Vec<TaskEntry>, current_pass: u64) -> (removed: Vec<(usize, usize)>)
    ensures
        ({
            let kept = old(tasks)@.filter(|t: TaskEntry| t.pass_count == current_pass);
            let small = removed_icons(old(tasks)@, current_pass, true);
            let large = removed_icons(old(tasks)@, current_pass, false);
            &&& final(tasks)@.len() == kept.len()
            &&& forall|k: int| 0 <= k < kept.len() ==> same_task_but_icons(kept[k], #[trigger] final(tasks)@[k])
            &&& forall|k: int| 0 <= k < kept.len() ==> #[trigger] final(tasks)@[k].small_icon == shift_all(kept[k].small_icon, small)
            &&& forall|k: int| 0 <= k < kept.len() ==> #[trigger] final(tasks)@[k].large_icon == shift_all(kept[k].large_icon, large)
            &&& removed@.len() == small.len() && small.len() == large.len()
            &&& forall|k: int| 0 <= k < removed@.len() ==> #[trigger] removed@[k] == (small[k], large[k])
        }),
{
    let ghost before = tasks@;
    let mut small: Vec<usize> = Vec::new();
    let mut large: Vec<usize> = Vec::new();
    let mut pairs: Vec<(usize, usize)> = Vec::new();
    let mut i: usize = 0;
    while i < tasks.len()
        invariant
            tasks@ == before,
            i <= before.len(),
            small@ == removed_icons(before.subrange(0, i as int), current_pass, true),
            large@ == removed_icons(before.subrange(0, i as int), current_pass, false),
            pairs@.len() == small@.len() && small@.len() == large@.len(),
            forall|k: int| 0 <= k < pairs@.len() ==> #[trigger] pairs@[k] == (small@[k], large@[k]),
        decreases before.len() - i,
    {
        proof {
            assert(before.subrange(0, i + 1).drop_last() =~= before.subrange(0, i as int));
        }
        if tasks[i].pass_count != current_pass {
            let s = shift_all_exec(tasks[i].small_icon, &small);
            let l = shift_all_exec(tasks[i].large_icon, &large);
            small.push(s);
            large.push(l);
            pairs.push((s, l));
        }
        i += 1;
    }
    proof {
        assert(before.subrange(0, i as int) =~= before);
    }
    let mut kept: Vec<TaskEntry> = Vec::new();
    let mut j: usize = 0;
    proof {
        reveal(Seq::filter);
    }
    while j < tasks.len()
        invariant
            tasks@ == before,
            j <= before.len(),
            small@ == removed_icons(before, current_pass, true),
            large@ == removed_icons(before, current_pass, false),
            kept@.len() == before.subrange(0, j as int).filter(|t: TaskEntry| t.pass_count == current_pass).len(),
            forall|k: int| 0 <= k < kept@.len() ==> same_task_but_icons(
                before.subrange(0, j as int).filter(|t: TaskEntry| t.pass_count == current_pass)[k], #[trigger] kept@[k]),
            forall|k: int| 0 <= k < kept@.len() ==> #[trigger] kept@[k].small_icon == shift_all(
                before.subrange(0, j as int).filter(|t: TaskEntry| t.pass_count == current_pass)[k].small_icon, small@),
            forall|k: int| 0 <= k < kept@.len() ==> #[trigger] kept@[k].large_icon == shift_all(
                before.subrange(0, j as int).filter(|t: TaskEntry| t.pass_count == current_pass)[k].large_icon, large@),
        decreases before.len() - j,
    {
        let ghost prefix = before.subrange(0, j + 1);
        proof {
            reveal(Seq::filter);
            assert(prefix.drop_last() =~= before.subrange(0, j as int));
        }
        if tasks[j].pass_count == current_pass {
            let t = &tasks[j];
            let row = TaskEntry {
                hwnd: t.hwnd,
                title: copy_text(&t.title),
                is_32_bit: t.is_32_bit,
                winstation: copy_text(&t.winstation),
                desktop: copy_text(&t.desktop),
                is_hung: t.is_hung,
                small_icon: shift_all_exec(t.small_icon, &small),
                large_icon: shift_all_exec(t.large_icon, &large),
                pass_count: t.pass_count,
                dirty_columns: t.dirty_columns,
            };
            kept.push(row);
        }
        j += 1;
    }
    proof {
        assert(before.subrange(0, j as int) =~= before);
    }
    *tasks = kept;
    pairs
}

/// An image list after the images at `removed` leave it, in order; position 0 (the
/// default icon) and positions past the end are never removed.
pub open spec fn images_after<T>(images: Seq<T>, removed: Seq<usize>) -> Seq<T>
    decreases removed.len(),
{
    if removed.len() == 0 {
        images
    } else {
        let before = images_after(images, removed.drop_last());
        let r = removed.last();
        if 0 < r < before.len() {
            before.remove(r as int)
        } else {
            before
        }
    }
}

/// No two rows share an icon position, the default icon 0 aside.
pub open spec fn icons_distinct(tasks: Seq<TaskEntry>, small: bool) -> bool {
    forall|i: int, j: int|
        0 <= i < j < tasks.len() && #[trigger] icon_of(tasks[i], small) == #[trigger] icon_of(tasks[j], small)
            ==> icon_of(tasks[i], small) == 0
}

/// Position `x` is the default icon or the icon of no row of an earlier pass.
spec fn survives(x: usize, tasks: Seq<TaskEntry>, pass: u64, small: bool) -> bool {
    x == 0 || forall|i: int| 0 <= i < tasks.len() && #[trigger] tasks[i].pass_count != pass ==> icon_of(tasks[i], small) != x
}

proof fn lemma_shift_zero(removed: Seq<usize>)
    ensures
        shift_all(0, removed) == 0,
    decreases removed.len(),
{
    if removed.len() > 0 {
        lemma_shift_zero(removed.drop_last());
    }
}

proof fn lemma_survives_front(x: usize, tasks: Seq<TaskEntry>, pass: u64, small: bool)
    requires
        tasks.len() > 0,
        survives(x, tasks, pass, small),
    ensures
        survives(x, tasks.drop_last(), pass, small),
{
    let front = tasks.drop_last();
    if x != 0 {
        assert forall|i: int| 0 <= i < front.len() && #[trigger] front[i].pass_count != pass implies icon_of(front[i], small) != x by {
            assert(front[i] == tasks[i]);
        }
    }
}

proof fn lemma_last_icon_survives_front(tasks: Seq<TaskEntry>, pass: u64, small: bool)
    requires
        tasks.len() > 0,
        icons_distinct(tasks, small),
    ensures
        survives(icon_of(tasks.last(), small), tasks.drop_last(), pass, small),
        icons_distinct(tasks.drop_last(), small),
{
    let front = tasks.drop_last();
    let c = icon_of(tasks.last(), small);
    let n = tasks.len() - 1;
    if c != 0 {
        assert forall|i: int| 0 <= i < front.len() && #[trigger] front[i].pass_count != pass implies icon_of(front[i], small) != c by {
            assert(front[i] == tasks[i]);
            if icon_of(tasks[i], small) == icon_of(tasks[n], small) {
                assert(icon_of(tasks[i], small) == 0);
            }
        }
    }
    assert forall|i: int, j: int|
        0 <= i < j < front.len() && #[trigger] icon_of(front[i], small) == #[trigger] icon_of(front[j], small)
        implies icon_of(front[i], small) == 0 by {
        assert(front[i] == tasks[i] && front[j] == tasks[j]);
    }
}

/// Two positions that no removal hits stay apart however many removals come.
proof fn lemma_shift_distinct(tasks: Seq<TaskEntry>, pass: u64, small: bool, a: usize, b: usize)
    requires
        icons_distinct(tasks, small),
        a != b,
        survives(a, tasks, pass, small),
        survives(b, tasks, pass, small),
    ensures
        shift_all(a, removed_icons(tasks, pass, small)) != shift_all(b, removed_icons(tasks, pass, small)),
    decreases tasks.len(),
{
    if tasks.len() > 0 {
        let t = tasks.last();
        let front = tasks.drop_last();
        lemma_survives_front(a, tasks, pass, small);
        lemma_survives_front(b, tasks, pass, small);
        lemma_last_icon_survives_front(tasks, pass, small);
        lemma_shift_distinct(front, pass, small, a, b);
        if t.pass_count != pass {
            let prev = removed_icons(front, pass, small);
            let c = icon_of(t, small);
            let r = shift_all(c, prev);
            assert(removed_icons(tasks, pass, small) == prev.push(r));
            assert(prev.push(r).drop_last() =~= prev);
            if r > 0 {
                assert(c != 0) by {
                    if c == 0 {
                        lemma_shift_zero(prev);
                    }
                }
                if a == 0 {
                    lemma_shift_zero(prev);
                } else {
                    assert(tasks[tasks.len() - 1].pass_count != pass);
                    assert(a != c);
                    lemma_shift_distinct(front, pass, small, a, c);
                }
                if b == 0 {
                    lemma_shift_zero(prev);
                } else {
                    assert(tasks[tasks.len() - 1].pass_count != pass);
                    assert(b != c);
                    lemma_shift_distinct(front, pass, small, b, c);
                }
            }
        }
    }
}

/// A position that no removal hits still shows its image after the removals.
proof fn lemma_survivor_keeps_image<T>(tasks: Seq<TaskEntry>, pass: u64, small: bool, images: Seq<T>, x: usize)
    requires
        icons_distinct(tasks, small),
        survives(x, tasks, pass, small),
        x < images.len(),
    ensures
        ({
            let removed = removed_icons(tasks, pass, small);
            let after = images_after(images, removed);
            &&& shift_all(x, removed) < after.len()
            &&& after[shift_all(x, removed) as int] == images[x as int]
        }),
    decreases tasks.len(),
{
    if tasks.len() > 0 {
        let t = tasks.last();
        let front = tasks.drop_last();
        lemma_survives_front(x, tasks, pass, small);
        lemma_last_icon_survives_front(tasks, pass, small);
        lemma_survivor_keeps_image(front, pass, small, images, x);
        if t.pass_count != pass {
            let prev = removed_icons(front, pass, small);
            let c = icon_of(t, small);
            let r = shift_all(c, prev);
            let before = images_after(images, prev);
            let p = shift_all(x, prev);
            assert(removed_icons(tasks, pass, small) == prev.push(r));
            assert(prev.push(r).drop_last() =~= prev);
            assert(images_after(images, prev.push(r)) == (if 0 < r < before.len() { before.remove(r as int) } else { before }));
            assert(shift_all(x, prev.push(r)) == shifted_icon(p, r));
            if 0 < r < before.len() {
                assert(p != r) by {
                    if x == 0 {
                        lemma_shift_zero(prev);
                    } else {
                        assert(tasks[tasks.len() - 1].pass_count != pass);
                        assert(x != c);
                        if c == 0 {
                            lemma_shift_zero(prev);
                        } else {
                            lemma_shift_distinct(front, pass, small, x, c);
                        }
                    }
                }
                before.remove_ensures(r as int);
            }
        }
    }
}

/// Dropping the stale rows keeps every remaining row on its own image: when no two rows
/// share an icon position (the default icon 0 aside), once the icon positions that
/// `remove_stale_tasks` gives up leave the image list in order, each remaining row's
/// renumbered icon shows the image its old icon showed.
pub proof fn lemma_kept_icons_keep_their_images<T>(
    tasks: Seq<TaskEntry>,
    current_pass: u64,
    small: bool,
    images: Seq<T>,
    k: int,
)
    requires
        icons_distinct(tasks, small),
        forall|i: int| 0 <= i < tasks.len() ==> icon_of(#[trigger] tasks[i], small) < images.len(),
        0 <= k < tasks.filter(|t: TaskEntry| t.pass_count == current_pass).len(),
    ensures
        ({
            let kept = tasks.filter(|t: TaskEntry| t.pass_count == current_pass);
            let removed = removed_icons(tasks, current_pass, small);
            let after = images_after(images, removed);
            let renumbered = shift_all(icon_of(kept[k], small), removed);
            &&& renumbered < after.len()
            &&& after[renumbered as int] == images[icon_of(kept[k], small) as int]
        }),
{
    let pred = |t: TaskEntry| t.pass_count == current_pass;
    let kept = tasks.filter(pred);
    tasks.lemma_filter_pred(pred, k);
    assert(kept.contains(kept[k]));
    tasks.lemma_filter_contains_rev(pred, kept[k]);
    let j = choose|j: int| 0 <= j < tasks.len() && tasks[j] == kept[k];
    let x = icon_of(kept[k], small);
    assert(tasks[j].pass_count == current_pass);
    if x != 0 {
        assert forall|i: int| 0 <= i < tasks.len() && #[trigger] tasks[i].pass_count != current_pass
            implies icon_of(tasks[i], small) != x by {
            assert(i != j);
            if icon_of(tasks[i], small) == icon_of(tasks[j], small) {
                if i < j {
                    assert(icon_of(tasks[i], small) == 0);
                } else {
                    assert(icon_of(tasks[j], small) == icon_of(tasks[i], small));
                    assert(icon_of(tasks[j], small) == 0);
                }
            }
        }
    }
    assert(x < images.len()) by {
        assert(icon_of(tasks[j], small) < images.len());
    }
    lemma_survivor_keeps_image(tasks, current_pass, small, images, x);
}

/// Ascending order of two rows by one column: names case-insensitively, not-responding
/// after running.
pub open spec fn spec_task_column_order(l: TaskEntry, r: TaskEntry, column: TaskColumnId) -> SortOrder {
    match column {
        TaskColumnId::Name => lowercase_order(l.title@, r.title@),
        TaskColumnId::Status => int_order(if l.is_hung { 1 } else { 0 }, if r.is_hung { 1 } else { 0 }),
        TaskColumnId::Winstation => lowercase_order(l.winstation@, r.winstation@),
        TaskColumnId::Desktop => lowercase_order(l.desktop@, r.desktop@),
    }
}

/// How two rows of the task list are ordered: by the column, then by window handle, both
/// turned around for a descending sort.
pub open spec fn spec_compare_tasks(l: TaskEntry, r: TaskEntry, column: TaskColumnId, sort_direction: i32) -> SortOrder {
    let o = spec_task_column_order(l, r, column);
    let o = if o == SortOrder::Equal { int_order(l.hwnd as int, r.hwnd as int) } else { o };
    if sort_direction < 0 { o.spec_reverse() } else { o }
}

/// Compares two rows of the task list.
pub fn compare_tasks(left: &TaskEntry, right: &TaskEntry, sort_column: TaskColumnId, sort_direction: i32) -> (r: SortOrder)
    ensures
        r == spec_compare_tasks(*left, *right, sort_column, sort_direction),
{
    let ordering = match sort_column {
        TaskColumnId::Name => compare_lowercase(left.title.as_str(), right.title.as_str()),
        TaskColumnId::Status => crate::strings::compare_u64(
            if left.is_hung { 1 } else { 0 },
            if right.is_hung { 1 } else { 0 },
        ),
        TaskColumnId::Winstation => compare_lowercase(left.winstation.as_str(), right.winstation.as_str()),
        TaskColumnId::Desktop => compare_lowercase(left.desktop.as_str(), right.desktop.as_str()),
    };
    let ordering = if ordering == SortOrder::Equal {
        crate::strings::compare_u64(left.hwnd as u64, right.hwnd as u64)
    } else {
        ordering
    };
    if sort_direction < 0 { ordering.reverse() } else { ordering }
}

/// Comparing two rows the other way round gives the opposite answer.
pub proof fn lemma_compare_tasks_antisymmetric(l: TaskEntry, r: TaskEntry, column: TaskColumnId, sort_direction: i32)
    ensures
        spec_compare_tasks(r, l, column, sort_direction) == spec_compare_tasks(l, r, column, sort_direction).spec_reverse(),
{
    match column {
        TaskColumnId::Name => lemma_seq_order_antisymmetric(
            crate::strings::str_lowercase(l.title@),
            crate::strings::str_lowercase(r.title@),
        ),
        TaskColumnId::Winstation => lemma_seq_order_antisymmetric(
            crate::strings::str_lowercase(l.winstation@),
            crate::strings::str_lowercase(r.winstation@),
        ),
        TaskColumnId::Desktop => lemma_seq_order_antisymmetric(
            crate::strings::str_lowercase(l.desktop@),
            crate::strings::str_lowercase(r.desktop@),
        ),
        TaskColumnId::Status => {},
    }
}

/// The task-list order for one sort column and direction.
pub struct TaskRowOrder {
    pub sort_column: TaskColumnId,
    pub sort_direction: i32,
}

impl RowOrder<TaskEntry> for TaskRowOrder {
    open spec fn spec_order(&self, a: TaskEntry, b: TaskEntry) -> SortOrder {
        spec_compare_tasks(a, b, self.sort_column, self.sort_direction)
    }

    fn order(&self, a: &TaskEntry, b: &TaskEntry) -> (r: SortOrder) {
        compare_tasks(a, b, self.sort_column, self.sort_direction)
    }

    proof fn lemma_antisymmetric(&self, a: TaskEntry, b: TaskEntry) {
        lemma_compare_tasks_antisymmetric(a, b, self.sort_column, self.sort_direction);
    }
}

/// Sorts the task rows: the same rows, none ordered after the one that follows it,
/// and rows that compare equal keep their relative order.
pub fn resort_tasks(tasks: &mut Vec<TaskEntry>, sort_column: TaskColumnId, sort_direction: i32)
    ensures
        final(tasks)@.to_multiset() == old(tasks)@.to_multiset(),
        final(tasks)@.len() == old(tasks)@.len(),
        forall|i: int| 0 <= i < final(tasks)@.len() - 1 ==> #[trigger] spec_compare_tasks(
            final(tasks)@[i], final(tasks)@[i + 1], sort_column, sort_direction) != SortOrder::Greater,
        stable_rearrangement(
            |a: TaskEntry, b: TaskEntry| spec_compare_tasks(a, b, sort_column, sort_direction),
            old(tasks)@,
            final(tasks)@,
        ),
{
    let order = TaskRowOrder { sort_column, sort_direction };
    insertion_sort(&order, tasks);
    proof {
        assert((|a: TaskEntry, b: TaskEntry| order.spec_order(a, b)) =~= (|a: TaskEntry, b: TaskEntry| spec_compare_tasks(a, b, sort_column, sort_direction)));
        assert(adjacent_sorted(&order, tasks@));
        assert forall|i: int| 0 <= i < tasks@.len() - 1 implies #[trigger] spec_compare_tasks(
            tasks@[i], tasks@[i + 1], sort_column, sort_direction) != SortOrder::Greater by {
            assert(order.spec_order(tasks@[i], tasks@[i + 1]) != SortOrder::Greater);
        }
    }
}

/// The sort after a click on the header of shown column `sub_item` (the name past the
/// shown ones): clicking the sort column turns the direction around; clicking another
/// column sorts by it, descending.
pub fn next_task_sort(sort_column: TaskColumnId, sort_direction: i32, sub_item: usize) -> (r: (TaskColumnId, i32))
    requires
        sort_direction != i32::MIN,
    ensures
        ({
            let clicked = if sub_item == 1 { TaskColumnId::Status } else { TaskColumnId::Name };
            &&& r.0 == clicked
            &&& r.1 == (if clicked == sort_column { -sort_direction } else { -1 })
        }),
{
    let clicked = match active_task_column(sub_item) {
        Some(column) => column,
        None => TaskColumnId::Name,
    };
    if clicked == sort_column {
        (sort_column, -sort_direction)
    } else {
        (clicked, -1)
    }
}

/// The list's view modes.
pub const VIEW_LARGE_ICONS: i32 = 0;
pub const VIEW_SMALL_ICONS: i32 = 1;
pub const VIEW_DETAILS: i32 = 2;

/// List-view style bits (`LVS_*`).
pub const LVS_ICON: u32 = 0x0;
pub const LVS_REPORT: u32 = 0x1;
pub const LVS_SMALLICON: u32 = 0x2;
pub const LVS_TYPEMASK: u32 = 0x3;
pub const LVS_SHOWSELALWAYS: u32 = 0x8;
pub const LVS_AUTOARRANGE: u32 = 0x100;

/// The list's style for a view mode: its view type replaced, selection always shown.
pub fn list_view_style(current_style: u32, view_mode: i32) -> (r: u32)
    ensures
        r == ((current_style & !LVS_TYPEMASK)
            | (if view_mode == VIEW_SMALL_ICONS { LVS_SMALLICON | LVS_AUTOARRANGE }
               else if view_mode == VIEW_DETAILS { LVS_REPORT }
               else { LVS_ICON | LVS_AUTOARRANGE })
            | LVS_SHOWSELALWAYS),
{
    let kind = if view_mode == VIEW_SMALL_ICONS {
        LVS_SMALLICON | LVS_AUTOARRANGE
    } else if view_mode == VIEW_DETAILS {
        LVS_REPORT
    } else {
        LVS_ICON | LVS_AUTOARRANGE
    };
    ((current_style & !LVS_TYPEMASK) | kind) | LVS_SHOWSELALWAYS
}

/// The icon a row shows: the large one in large-icon view, else the small one.
pub fn task_image_index(task: &TaskEntry, view_mode: i32) -> (r: usize)
    ensures
        r == (if view_mode == VIEW_LARGE_ICONS { task.large_icon } else { task.small_icon }),
{
    if view_mode == VIEW_LARGE_ICONS { task.large_icon } else { task.small_icon }
}

/// What a command of the applications page asks for.
#[derive(Clone, Copy, PartialEq, Eq, Structural, Debug)]
pub enum TaskCommand {
    /// Handled by the main window.
    Forward,
    SwitchTo,
    TileHorizontally,
    TileVertically,
    Cascade,
    Minimize,
    Maximize,
    BringToFront,
    EndTask,
    FindProcess,
    Ignore,
}

/// Decodes a command of the applications page.
pub fn task_command(command_id: u16) -> (r: TaskCommand)
    ensures
        r == (if command_id == IDM_LARGEICONS || command_id == IDM_SMALLICONS || command_id == IDM_DETAILS || command_id == IDM_RUN {
            TaskCommand::Forward
        } else if command_id == IDM_TASK_SWITCHTO || command_id == IDC_SWITCHTO as u16 {
            TaskCommand::SwitchTo
        } else if command_id == IDM_TASK_TILEHORZ || command_id == IDC_TILEHORZ as u16 {
            TaskCommand::TileHorizontally
        } else if command_id == IDM_TASK_TILEVERT || command_id == IDC_TILEVERT as u16 {
            TaskCommand::TileVertically
        } else if command_id == IDM_TASK_CASCADE || command_id == IDC_CASCADE as u16 {
            TaskCommand::Cascade
        } else if command_id == IDM_TASK_MINIMIZE || command_id == IDC_MINIMIZE as u16 {
            TaskCommand::Minimize
        } else if command_id == IDM_TASK_MAXIMIZE || command_id == IDC_MAXIMIZE as u16 {
            TaskCommand::Maximize
        } else if command_id == IDM_TASK_BRINGTOFRONT {
            TaskCommand::BringToFront
        } else if command_id == IDM_TASK_ENDTASK || command_id == IDC_ENDTASK as u16 {
            TaskCommand::EndTask
        } else if command_id == IDM_TASK_FINDPROCESS {
            TaskCommand::FindProcess
        } else {
            TaskCommand::Ignore
        }),
{
    if command_id == IDM_LARGEICONS || command_id == IDM_SMALLICONS || command_id == IDM_DETAILS || command_id == IDM_RUN {
        TaskCommand::Forward
    } else if command_id == IDM_TASK_SWITCHTO || command_id == IDC_SWITCHTO as u16 {
        TaskCommand::SwitchTo
    } else if command_id == IDM_TASK_TILEHORZ || command_id == IDC_TILEHORZ as u16 {
        TaskCommand::TileHorizontally
    } else if command_id == IDM_TASK_TILEVERT || command_id == IDC_TILEVERT as u16 {
        TaskCommand::TileVertically
    } else if command_id == IDM_TASK_CASCADE || command_id == IDC_CASCADE as u16 {
        TaskCommand::Cascade
    } else if command_id == IDM_TASK_MINIMIZE || command_id == IDC_MINIMIZE as u16 {
        TaskCommand::Minimize
    } else if command_id == IDM_TASK_MAXIMIZE || command_id == IDC_MAXIMIZE as u16 {
        TaskCommand::Maximize
    } else if command_id == IDM_TASK_BRINGTOFRONT {
        TaskCommand::BringToFront
    } else if command_id == IDM_TASK_ENDTASK || command_id == IDC_ENDTASK as u16 {
        TaskCommand::EndTask
    } else if command_id == IDM_TASK_FINDPROCESS {
        TaskCommand::FindProcess
    } else {
        TaskCommand::Ignore
    }
}

/// How the applications page's context menu is shown.
#[derive(Clone, Copy, PartialEq, Eq, Structural, Debug)]
pub struct TaskMenuState {
    /// Show the view menu (nothing selected) rather than the task menu.
    pub view_menu: bool,
    /// The view item checked in the view menu.
    pub checked_view: u16,
    /// Cascade and tile stay enabled.
    pub arrange_enabled: bool,
}

/// The context menu for a selection: the view menu with the current view checked when
/// nothing is selected; else the task menu, whose arranging needs two windows.
pub fn task_menu_state(selected_count: usize, view_mode: i32) -> (r: TaskMenuState)
    ensures
        r.view_menu == (selected_count == 0),
        r.checked_view == (if view_mode == VIEW_LARGE_ICONS { IDM_LARGEICONS } else if view_mode == VIEW_SMALL_ICONS { IDM_SMALLICONS } else { IDM_DETAILS }),
        r.arrange_enabled == (selected_count >= 2),
{
    TaskMenuState {
        view_menu: selected_count == 0,
        checked_view: if view_mode == VIEW_LARGE_ICONS { IDM_LARGEICONS } else if view_mode == VIEW_SMALL_ICONS { IDM_SMALLICONS } else { IDM_DETAILS },
        arrange_enabled: selected_count >= 2,
    }
}

/// Whether "End task" forces: the Control key is down (the high bit of its key state).
pub fn end_task_forced(control_key_state: i16) -> (r: bool)
    ensures
        r == (control_key_state < 0),
{
    control_key_state < 0
}


/// Each column of the task list sorts by its own value: the title, the window station or
/// the desktop without regard to case, or the status with running windows before hung
/// ones; ties go by window handle, and a descending sort turns everything round.
pub proof fn lemma_task_columns_sort_by_their_values(l: TaskEntry, r: TaskEntry, sort_direction: i32)
    ensures
        str_lowercase(l.title@) != str_lowercase(r.title@) && sort_direction >= 0
            ==> spec_compare_tasks(l, r, TaskColumnId::Name, sort_direction) == lowercase_order(l.title@, r.title@),
        str_lowercase(l.title@) != str_lowercase(r.title@) && sort_direction < 0
            ==> spec_compare_tasks(l, r, TaskColumnId::Name, sort_direction) == lowercase_order(r.title@, l.title@),
        str_lowercase(l.winstation@) != str_lowercase(r.winstation@) && sort_direction >= 0
            ==> spec_compare_tasks(l, r, TaskColumnId::Winstation, sort_direction) == lowercase_order(l.winstation@, r.winstation@),
        str_lowercase(l.winstation@) != str_lowercase(r.winstation@) && sort_direction < 0
            ==> spec_compare_tasks(l, r, TaskColumnId::Winstation, sort_direction) == lowercase_order(r.winstation@, l.winstation@),
        str_lowercase(l.desktop@) != str_lowercase(r.desktop@) && sort_direction >= 0
            ==> spec_compare_tasks(l, r, TaskColumnId::Desktop, sort_direction) == lowercase_order(l.desktop@, r.desktop@),
        str_lowercase(l.desktop@) != str_lowercase(r.desktop@) && sort_direction < 0
            ==> spec_compare_tasks(l, r, TaskColumnId::Desktop, sort_direction) == lowercase_order(r.desktop@, l.desktop@),
        !l.is_hung && r.is_hung ==> spec_compare_tasks(l, r, TaskColumnId::Status, sort_direction)
            == (if sort_direction >= 0 { SortOrder::Less } else { SortOrder::Greater }),
        l.is_hung && !r.is_hung ==> spec_compare_tasks(l, r, TaskColumnId::Status, sort_direction)
            == (if sort_direction >= 0 { SortOrder::Greater } else { SortOrder::Less }),
        l.is_hung == r.is_hung && l.hwnd != r.hwnd ==> spec_compare_tasks(l, r, TaskColumnId::Status, sort_direction)
            == (if (l.hwnd < r.hwnd) == (sort_direction >= 0) { SortOrder::Less } else { SortOrder::Greater }),
{
    lemma_seq_order_antisymmetric(str_lowercase(l.title@), str_lowercase(r.title@));
    lemma_seq_order_antisymmetric(str_lowercase(l.winstation@), str_lowercase(r.winstation@));
    lemma_seq_order_antisymmetric(str_lowercase(l.desktop@), str_lowercase(r.desktop@));
    lemma_seq_order_equal(str_lowercase(l.title@), str_lowercase(r.title@));
    lemma_seq_order_equal(str_lowercase(l.winstation@), str_lowercase(r.winstation@));
    lemma_seq_order_equal(str_lowercase(l.desktop@), str_lowercase(r.desktop@));
}

} // verus!
