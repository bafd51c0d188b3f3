use taskmgr::procpage::{
    ColumnId, DirtyColumns, ProcEntry, HIGH_PRIORITY_CLASS, IDLE_PRIORITY_CLASS, NORMAL_PRIORITY_CLASS,
    REALTIME_PRIORITY_CLASS,
};
use taskmgr::procui::{
    affinity_box_state, affinity_mask_from_checks, apply_selected_columns, checked_priority_item,
    clicked_column, column_width, context_menu_state, display_entry_index, failure_message,
    find_process_target, listed_user_name, next_sort, priority_for_command, process_command,
    page_layout_in_range, process_page_layout, store_column_widths, well_known_service_name, wow_task_for_pid,
    ProcessCommand,
};
use taskmgr::resource::{
    IDC_TERMINATE, IDM_AFFINITY, IDM_PROCCOLS, IDM_PROC_DEBUG, IDM_PROC_HIGH, IDM_PROC_LOW,
    IDM_PROC_NORMAL, IDM_PROC_REALTIME, IDM_PROC_TERMINATE, NUM_COLUMN,
};
use taskmgr::winutil::Rect;

fn row(pid: u32) -> ProcEntry {
    ProcEntry {
        pid,
        real_pid: pid,
        image_name: format!("p{}.exe", pid),
        is_32_bit: false,
        user_name: String::new(),
        session_id: 0,
        cpu: 0,
        cpu_time_100ns: 0,
        display_cpu_time_100ns: 0,
        mem_usage_kb: 0,
        mem_diff_kb: 0,
        page_faults: 0,
        page_faults_diff: 0,
        commit_charge_kb: 0,
        paged_pool_kb: 0,
        nonpaged_pool_kb: 0,
        priority_class: NORMAL_PRIORITY_CLASS,
        handle_count: 0,
        thread_count: 1,
        wow_task_handle: 0,
        is_wow_task: false,
        pass_count: 0,
        dirty_columns: DirtyColumns(0),
    }
}

fn wow_row(thread_id: u32, host: u32, task: u16) -> ProcEntry {
    let mut r = row(thread_id);
    r.real_pid = host;
    r.is_wow_task = true;
    r.wow_task_handle = task;
    r
}

#[test]
fn priority_menu_round_trip() {
    for class in [IDLE_PRIORITY_CLASS, NORMAL_PRIORITY_CLASS, HIGH_PRIORITY_CLASS, REALTIME_PRIORITY_CLASS] {
        assert_eq!(priority_for_command(checked_priority_item(class)), class);
    }
    for id in [IDM_PROC_LOW, IDM_PROC_NORMAL, IDM_PROC_HIGH, IDM_PROC_REALTIME] {
        assert_eq!(checked_priority_item(priority_for_command(id)), id);
    }
    assert_eq!(checked_priority_item(0x8000), IDM_PROC_NORMAL);
}

#[test]
fn process_commands_decode() {
    assert_eq!(process_command(IDC_TERMINATE as u16), ProcessCommand::Terminate);
    assert_eq!(process_command(IDM_PROC_TERMINATE), ProcessCommand::Terminate);
    assert_eq!(process_command(IDM_PROC_DEBUG), ProcessCommand::Debug);
    assert_eq!(process_command(IDM_AFFINITY), ProcessCommand::Affinity);
    assert_eq!(process_command(IDM_PROC_HIGH), ProcessCommand::SetPriority(HIGH_PRIORITY_CLASS));
    assert_eq!(process_command(IDM_PROCCOLS), ProcessCommand::PickColumns);
    assert_eq!(process_command(1), ProcessCommand::Ignore);
}

#[test]
fn wow_task_menu_is_restricted() {
    let mut e = row(5);
    e.priority_class = HIGH_PRIORITY_CLASS;
    let s = context_menu_state(true, &e, 4);
    assert!(s.debug_enabled && s.priority_enabled && s.affinity_shown);
    assert_eq!(s.checked_priority, IDM_PROC_HIGH);
    let s = context_menu_state(false, &e, 1);
    assert!(!s.debug_enabled && !s.affinity_shown);
    let t = wow_row(9, 5, 2);
    let s = context_menu_state(true, &t, 4);
    assert!(!s.debug_enabled && !s.priority_enabled && !s.affinity_shown);
}

#[test]
fn header_clicks_and_sort() {
    let cols = vec![ColumnId::ImageName, ColumnId::Cpu];
    assert_eq!(clicked_column(&cols, 1), ColumnId::Cpu);
    assert_eq!(clicked_column(&cols, 5), ColumnId::Pid);
    assert_eq!(next_sort(ColumnId::Cpu, -1, ColumnId::Cpu), (ColumnId::Cpu, 1));
    assert_eq!(next_sort(ColumnId::Cpu, 1, ColumnId::Pid), (ColumnId::Pid, -1));
}

#[test]
fn find_process_prefers_wow_thread() {
    let rows = vec![row(10), wow_row(77, 10, 1), row(77)];
    assert_eq!(find_process_target(&rows, 77, 10), Some((77, 1)));
    assert_eq!(find_process_target(&rows, 0, 10), Some((10, 0)));
    assert_eq!(find_process_target(&rows, 55, 10), Some((10, 0)));
    assert_eq!(find_process_target(&rows, 0, 99), None);
    assert_eq!(wow_task_for_pid(&rows, 77), Some((10, 1)));
    assert_eq!(wow_task_for_pid(&rows, 10), None);
}

#[test]
fn list_items_keep_their_process() {
    let rows = vec![row(3), row(4), row(5)];
    assert_eq!(display_entry_index(&rows, 5, 0), Some(2));
    assert_eq!(display_entry_index(&rows, 6, 0), None);
    assert_eq!(display_entry_index(&rows, 0, 1), Some(1));
    assert_eq!(display_entry_index(&rows, 0, 3), None);
}

#[test]
fn column_widths_stored_and_restored() {
    let widths = vec![200, -1, 0];
    assert_eq!(column_width(&widths, 0, ColumnId::ImageName), 200);
    assert_eq!(column_width(&widths, 1, ColumnId::Pid), 50);
    assert_eq!(column_width(&widths, 9, ColumnId::Cpu), 35);
    let mut stored = vec![1, 2, 3, 4];
    store_column_widths(&mut stored, &vec![90, 80]);
    assert_eq!(stored, vec![90, 80, -1, -1]);
}

#[test]
fn selected_columns_keep_earlier_widths() {
    let mut checked = vec![false; NUM_COLUMN];
    checked[1] = true;
    checked[4] = true;
    let mut active = vec![-1; NUM_COLUMN];
    active[0] = 0;
    active[1] = 4;
    let mut widths = vec![-1; NUM_COLUMN];
    widths[0] = 150;
    widths[1] = 44;
    apply_selected_columns(&checked, &mut active, &mut widths);
    let mut expected_active = vec![-1; NUM_COLUMN];
    expected_active[0] = 0;
    expected_active[1] = 1;
    expected_active[2] = 4;
    assert_eq!(active, expected_active);
    let mut expected_widths = vec![-1; NUM_COLUMN];
    expected_widths[0] = 150;
    expected_widths[1] = 50;
    expected_widths[2] = 44;
    assert_eq!(widths, expected_widths);
}

#[test]
fn affinity_dialog() {
    assert_eq!(affinity_box_state(0, 2, 0b10), (true, false));
    assert_eq!(affinity_box_state(1, 2, 0b10), (true, true));
    assert_eq!(affinity_box_state(2, 2, 0b111), (false, false));
    assert_eq!(affinity_mask_from_checks(&vec![true, false, true, true], 3), Some(0b101));
    assert_eq!(affinity_mask_from_checks(&vec![false, false, false, true], 3), None);
    assert_eq!(affinity_mask_from_checks(&vec![], 8), None);
}

#[test]
fn page_layout_keeps_margins() {
    let parent = Rect { left: 0, top: 0, right: 400, bottom: 300 };
    let terminate = Rect { left: 300, top: 250, right: 380, bottom: 275 };
    let list = Rect { left: 8, top: 8, right: 380, bottom: 240 };
    assert!(page_layout_in_range(&parent, &terminate, &list, 8));
    assert!(!page_layout_in_range(&parent, &terminate, &list, -1));
    assert!(!page_layout_in_range(&Rect { left: 0, top: 0, right: i32::MIN + 4, bottom: 300 }, &terminate, &list, 8));
    let l = process_page_layout(&parent, &terminate, &list);
    assert_eq!((l.button_x, l.button_y), (304, 259));
    assert_eq!((l.list_width, l.list_height), (376, 243));
    let tiny = Rect { left: 0, top: 0, right: 10, bottom: 10 };
    let l = process_page_layout(&tiny, &terminate, &list);
    assert_eq!((l.list_width, l.list_height), (0, 0));
}

#[test]
fn messages_and_accounts() {
    let (title, body) = failure_message("", "Unable to Terminate Process", 5);
    assert_eq!(title, "Task Manager");
    assert_eq!(body, "Unable to Terminate Process\r\n\r\nWin32 error: 5");
    let (title, _) = failure_message("Warning", "x", 0);
    assert_eq!(title, "Warning");
    assert_eq!(well_known_service_name(true, true, false), Some("SYSTEM".to_string()));
    assert_eq!(well_known_service_name(false, true, true), Some("LOCAL SERVICE".to_string()));
    assert_eq!(well_known_service_name(false, false, true), Some("NETWORK SERVICE".to_string()));
    assert_eq!(well_known_service_name(false, false, false), None);
    assert_eq!(listed_user_name(0, "bob".to_string()), "SYSTEM");
    assert_eq!(listed_user_name(4, "bob".to_string()), "bob");
}
