use taskmgr::localization::UiLanguage;
use taskmgr::resource::{
    IDC_ENDTASK, IDC_SWITCHTO, IDM_DETAILS, IDM_LARGEICONS, IDM_RUN, IDM_SMALLICONS,
    IDM_TASK_BRINGTOFRONT, IDM_TASK_CASCADE, IDM_TASK_ENDTASK, IDM_TASK_FINDPROCESS,
    IDS_COL_TASKNAME, IDS_COL_TASKSTATUS,
};
use taskmgr::strings::SortOrder;
use taskmgr::taskpage::{
    active_task_column, add_worker_task, compare_tasks, end_task_forced, find_task, list_view_style,
    lists_window, next_task_sort, refresh_task_entries, remove_stale_tasks, resort_tasks, status_text,
    task_cell_text, task_column, task_command, task_image_index, task_menu_state,
    update_task_entry, windows_needing_rows, DirtyTaskColumns, TaskColumnId, TaskCommand,
    TaskEntry, WorkerTaskEntry, LVS_AUTOARRANGE, LVS_REPORT, LVS_SHOWSELALWAYS, LVS_SMALLICON,
    VIEW_DETAILS, VIEW_LARGE_ICONS, VIEW_SMALL_ICONS,
};

fn worker(hwnd: usize, title: &str) -> WorkerTaskEntry {
    WorkerTaskEntry {
        hwnd,
        title: title.to_string(),
        is_32_bit: false,
        winstation: "WinSta0".to_string(),
        desktop: "Default".to_string(),
        is_hung: false,
    }
}

fn task(hwnd: usize, title: &str, icon: usize, pass: u64) -> TaskEntry {
    TaskEntry::from_worker(worker(hwnd, title), icon, icon, pass)
}

fn hwnds(tasks: &[TaskEntry]) -> Vec<usize> {
    tasks.iter().map(|t| t.hwnd).collect()
}

#[test]
fn columns_and_texts() {
    let c = task_column(TaskColumnId::Name);
    assert_eq!((c.title_id, c.width), (IDS_COL_TASKNAME, 250));
    let c = task_column(TaskColumnId::Status);
    assert_eq!((c.title_id, c.width), (IDS_COL_TASKSTATUS, 97));
    assert_eq!(active_task_column(0), Some(TaskColumnId::Name));
    assert_eq!(active_task_column(1), Some(TaskColumnId::Status));
    assert_eq!(active_task_column(2), None);
    assert_eq!(status_text(UiLanguage::EnUs, true), "Not Responding");
    assert_eq!(status_text(UiLanguage::EnUs, false), "Running");
    let mut t = task(1, "Notepad", 0, 0);
    t.is_32_bit = true;
    assert_eq!(task_cell_text(UiLanguage::EnUs, &t, TaskColumnId::Name), "Notepad (32-bit)");
    assert_eq!(task_cell_text(UiLanguage::EnUs, &t, TaskColumnId::Status), "Running");
    assert_eq!(task_cell_text(UiLanguage::EnUs, &t, TaskColumnId::Winstation), "WinSta0");
    assert_eq!(task_cell_text(UiLanguage::EnUs, &t, TaskColumnId::Desktop), "Default");
}

#[test]
fn which_windows_are_listed() {
    assert!(lists_window(false, true, false, "Notepad"));
    assert!(!lists_window(true, true, false, "Notepad"));
    assert!(!lists_window(false, false, false, "Notepad"));
    assert!(!lists_window(false, true, true, "Notepad"));
    assert!(!lists_window(false, true, false, ""));
    assert!(!lists_window(false, true, false, "PROGRAM MANAGER"));
}

#[test]
fn found_windows_are_unique() {
    let mut found = Vec::new();
    add_worker_task(&mut found, worker(1, "a"));
    add_worker_task(&mut found, worker(2, "b"));
    add_worker_task(&mut found, worker(1, "again"));
    assert_eq!(found.len(), 2);
    assert_eq!(found[0].title, "a");
}

#[test]
fn task_updates_mark_changed_columns() {
    let mut t = task(1, "Notepad", 3, 1);
    t.dirty_columns = DirtyTaskColumns::none();
    let mut w = worker(1, "Notepad - x.txt");
    w.is_hung = true;
    update_task_entry(&mut t, &w, 2);
    assert_eq!(t.title, "Notepad - x.txt");
    assert!(t.is_hung);
    assert_eq!(t.pass_count, 2);
    assert_eq!((t.small_icon, t.large_icon), (3, 3));
    assert_eq!(t.dirty_columns.0, 0b11);
    assert!(t.dirty_columns.any());
}

#[test]
fn refresh_keeps_rows_and_icons() {
    let mut tasks = vec![task(10, "A", 1, 1), task(20, "B", 2, 1), task(30, "C", 3, 1)];
    let workers = vec![worker(20, "B2"), worker(40, "D"), worker(40, "D again")];
    assert_eq!(windows_needing_rows(&tasks, &workers), vec![false, true, false]);
    assert_eq!(find_task(&tasks, 30), Some(2));
    assert_eq!(find_task(&tasks, 99), None);
    refresh_task_entries(&mut tasks, workers, 2, &vec![(0, 0), (4, 5), (0, 0)]);
    assert_eq!(hwnds(&tasks), vec![10, 20, 30, 40]);
    assert_eq!(tasks[1].title, "B2");
    assert_eq!(tasks[1].pass_count, 2);
    assert_eq!((tasks[3].small_icon, tasks[3].large_icon), (4, 5));
    assert_eq!(tasks[3].title, "D again");
    let removed = remove_stale_tasks(&mut tasks, 2);
    assert_eq!(hwnds(&tasks), vec![20, 40]);
    assert_eq!(removed, vec![(1, 1), (2, 2)]);
    assert_eq!((tasks[0].small_icon, tasks[1].small_icon, tasks[1].large_icon), (1, 2, 3));
}

#[test]
fn removing_default_icons_shifts_nothing() {
    let mut tasks = vec![task(1, "A", 0, 1), task(2, "B", 5, 2)];
    let removed = remove_stale_tasks(&mut tasks, 2);
    assert_eq!(removed, vec![(0, 0)]);
    assert_eq!(tasks[0].small_icon, 5);
}

#[test]
fn task_order() {
    let a = task(3, "beta", 0, 0);
    let b = task(1, "Alpha", 0, 0);
    let mut c = task(2, "beta", 0, 0);
    c.is_hung = true;
    assert_eq!(compare_tasks(&a, &b, TaskColumnId::Name, 1), SortOrder::Greater);
    assert_eq!(compare_tasks(&a, &c, TaskColumnId::Name, 1), SortOrder::Greater);
    assert_eq!(compare_tasks(&a, &c, TaskColumnId::Status, 1), SortOrder::Less);
    assert_eq!(compare_tasks(&a, &b, TaskColumnId::Name, -1), SortOrder::Less);
    let mut tasks = vec![a, b, c];
    resort_tasks(&mut tasks, TaskColumnId::Name, 1);
    assert_eq!(hwnds(&tasks), vec![1, 2, 3]);
    resort_tasks(&mut tasks, TaskColumnId::Name, -1);
    assert_eq!(hwnds(&tasks), vec![3, 2, 1]);
}

#[test]
fn view_styles_and_images() {
    assert_eq!(list_view_style(0x3, VIEW_DETAILS), LVS_REPORT | LVS_SHOWSELALWAYS);
    assert_eq!(list_view_style(0x1, VIEW_SMALL_ICONS), LVS_SMALLICON | LVS_AUTOARRANGE | LVS_SHOWSELALWAYS);
    assert_eq!(list_view_style(0x4000_0001, VIEW_LARGE_ICONS), 0x4000_0000 | LVS_AUTOARRANGE | LVS_SHOWSELALWAYS);
    let mut t = task(1, "A", 0, 0);
    t.small_icon = 4;
    t.large_icon = 7;
    assert_eq!(task_image_index(&t, VIEW_LARGE_ICONS), 7);
    assert_eq!(task_image_index(&t, VIEW_DETAILS), 4);
}

#[test]
fn task_commands_and_menus() {
    assert_eq!(task_command(IDM_RUN), TaskCommand::Forward);
    assert_eq!(task_command(IDM_LARGEICONS), TaskCommand::Forward);
    assert_eq!(task_command(IDC_SWITCHTO as u16), TaskCommand::SwitchTo);
    assert_eq!(task_command(IDM_TASK_CASCADE), TaskCommand::Cascade);
    assert_eq!(task_command(IDM_TASK_BRINGTOFRONT), TaskCommand::BringToFront);
    assert_eq!(task_command(IDM_TASK_ENDTASK), TaskCommand::EndTask);
    assert_eq!(task_command(IDC_ENDTASK as u16), TaskCommand::EndTask);
    assert_eq!(task_command(IDM_TASK_FINDPROCESS), TaskCommand::FindProcess);
    assert_eq!(task_command(7), TaskCommand::Ignore);
    let m = task_menu_state(0, VIEW_SMALL_ICONS);
    assert!(m.view_menu && !m.arrange_enabled);
    assert_eq!(m.checked_view, IDM_SMALLICONS);
    let m = task_menu_state(2, VIEW_DETAILS);
    assert!(!m.view_menu && m.arrange_enabled);
    assert_eq!(m.checked_view, IDM_DETAILS);
    assert!(!task_menu_state(1, VIEW_DETAILS).arrange_enabled);
    assert!(end_task_forced(-32768));
    assert!(!end_task_forced(1));
}

#[test]
fn header_clicks_sort_the_tasks() {
    assert_eq!(next_task_sort(TaskColumnId::Name, 1, 0), (TaskColumnId::Name, -1));
    assert_eq!(next_task_sort(TaskColumnId::Name, -1, 0), (TaskColumnId::Name, 1));
    assert_eq!(next_task_sort(TaskColumnId::Name, 1, 1), (TaskColumnId::Status, -1));
    assert_eq!(next_task_sort(TaskColumnId::Status, 1, 7), (TaskColumnId::Name, -1));
}

#[test]
fn kept_rows_still_show_their_images_after_removals() {
    let mut tasks = vec![
        task(1, "A", 3, 1),
        task(2, "B", 1, 2),
        task(3, "C", 5, 1),
        task(4, "D", 4, 2),
        task(5, "E", 2, 1),
        task(6, "F", 6, 2),
    ];
    let mut images = vec!["default", "b", "e", "a", "d", "c", "f"];
    let before: Vec<(usize, &str)> = tasks
        .iter()
        .filter(|t| t.pass_count == 2)
        .map(|t| (t.hwnd, images[t.small_icon]))
        .collect();
    let removed = remove_stale_tasks(&mut tasks, 2);
    for (small, _) in &removed {
        if *small > 0 && *small < images.len() {
            images.remove(*small);
        }
    }
    let after: Vec<(usize, &str)> = tasks.iter().map(|t| (t.hwnd, images[t.small_icon])).collect();
    assert_eq!(after, before);
    assert_eq!(images, vec!["default", "b", "d", "f"]);
}
