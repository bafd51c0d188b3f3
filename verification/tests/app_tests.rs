use taskmgr::appstate::{
    borderless_window_style, framed_window_style, hides_on_right_button, memory_kb,
    menu_radio_items, menu_selection, nc_hit_test, next_tab_index, on_command,
    runtime_cpu_usage, size_from_lparam, switching_pages, tabs_size, timer_delay,
    tray_icon_index, AppAction, AppOptions, CommandOutcome, MenuSelection, HTCAPTION, HTCLIENT,
    IDCANCEL, MF_POPUP, MF_SEPARATOR, WS_CAPTION, WS_DLGFRAME, WS_MAXIMIZEBOX, WS_MINIMIZEBOX,
    WS_POPUP, WS_SYSMENU, WS_TILEDWINDOW,
};
use taskmgr::listplan::{callback_text, list_update_plan, selection_after_update, RowAction};
use taskmgr::pages::{
    accelerators, menu_items_removed, page_descriptor, perf_draw_target, to_wide_resource_name,
    tray_icon_resource_name, PageFocusTarget, PerfDrawTarget, FCONTROL, FNOINVERT, FSHIFT,
    FVIRTKEY, TRAY_ICON_COUNT, VK_DELETE, VK_TAB,
};
use taskmgr::resource::{
    IDC_ENDTASK, IDC_NEXTTAB, IDC_PREVTAB, IDC_TASKLIST, IDD_PROCPAGE, IDM_ABOUT, IDM_ALLCPUS,
    IDM_ALWAYSONTOP, IDM_CONFIRMATIONS, IDM_DETAILS, IDM_EXIT, IDM_HELP, IDM_HIDE,
    IDM_HIDEWHENMIN, IDM_KERNELTIMES, IDM_LARGEICONS, IDM_LOGOFF, IDM_LOW, IDM_MINIMIZEONUSE,
    IDM_MULTIGRAPH, IDM_NOTITLE, IDM_NORMAL, IDM_PAUSED, IDM_PROC_DEBUG, IDM_REFRESH,
    IDM_RESTORETASKMAN, IDM_RUN, IDM_SMALLICONS, IDM_TASK_CASCADE, IDS_PROCPAGETITLE,
    IDS_TASKPAGETITLE,
};

fn options() -> AppOptions {
    AppOptions {
        always_on_top: false,
        hide_when_minimized: true,
        minimize_on_use: true,
        confirmations: true,
        no_title: false,
        kernel_times: false,
        view_mode: 2,
        cpu_history_mode: 0,
        update_speed: 1,
        timer_interval: 2000,
        current_page: 0,
    }
}

fn outcome(action: AppAction, update_menus: bool) -> CommandOutcome {
    CommandOutcome { action, update_menus }
}

#[test]
fn window_commands() {
    let mut o = options();
    assert_eq!(on_command(&mut o, IDM_HIDE), outcome(AppAction::Minimize, false));
    assert_eq!(on_command(&mut o, IDCANCEL), outcome(AppAction::Destroy, false));
    assert_eq!(on_command(&mut o, IDM_EXIT), outcome(AppAction::Destroy, false));
    assert_eq!(on_command(&mut o, IDM_RESTORETASKMAN), outcome(AppAction::ShowRunningInstance, false));
    assert_eq!(on_command(&mut o, IDC_NEXTTAB), outcome(AppAction::SwitchTab { forward: true }, false));
    assert_eq!(on_command(&mut o, IDC_PREVTAB), outcome(AppAction::SwitchTab { forward: false }, false));
    assert_eq!(on_command(&mut o, IDM_REFRESH), outcome(AppAction::Refresh, false));
    assert_eq!(on_command(&mut o, IDM_ABOUT), outcome(AppAction::About, false));
    assert_eq!(on_command(&mut o, IDM_RUN), outcome(AppAction::Run, false));
    assert_eq!(on_command(&mut o, IDM_HELP), outcome(AppAction::Help, false));
    assert_eq!(on_command(&mut o, 1), outcome(AppAction::Nothing, false));
    assert_eq!(o, options());
}

#[test]
fn toggles_twice_restore_the_options() {
    for id in [IDM_ALWAYSONTOP, IDM_HIDEWHENMIN, IDM_MINIMIZEONUSE, IDM_CONFIRMATIONS, IDM_NOTITLE, IDM_KERNELTIMES] {
        let mut o = options();
        let first = on_command(&mut o, id);
        assert!(first.update_menus);
        assert_ne!(o, options());
        on_command(&mut o, id);
        assert_eq!(o, options());
    }
    let mut o = options();
    assert_eq!(on_command(&mut o, IDM_ALWAYSONTOP), outcome(AppAction::SetTopmost(true), true));
    assert_eq!(on_command(&mut o, IDM_NOTITLE), outcome(AppAction::ApplyOptionsToPages, true));
    assert_eq!(on_command(&mut o, IDM_KERNELTIMES), outcome(AppAction::RefreshPerformancePage, true));
}

#[test]
fn radio_choices_are_remembered() {
    let mut o = options();
    assert_eq!(on_command(&mut o, IDM_SMALLICONS), outcome(AppAction::RefreshTaskPage, true));
    assert_eq!(o.view_mode, 1);
    on_command(&mut o, IDM_MULTIGRAPH);
    assert_eq!(o.cpu_history_mode, 1);
    assert_eq!(on_command(&mut o, IDM_LOW), outcome(AppAction::ResetTimer(4000), true));
    assert_eq!((o.update_speed, o.timer_interval), (2, 4000));
    assert_eq!(on_command(&mut o, IDM_PAUSED), outcome(AppAction::ResetTimer(0), true));
    assert_eq!(menu_radio_items(&o), (IDM_SMALLICONS, IDM_MULTIGRAPH, IDM_PAUSED));
    on_command(&mut o, IDM_NORMAL);
    on_command(&mut o, IDM_ALLCPUS);
    on_command(&mut o, IDM_LARGEICONS);
    assert_eq!(menu_radio_items(&o), (IDM_LARGEICONS, IDM_ALLCPUS, IDM_NORMAL));
    assert_eq!(o.timer_interval, 2000);
    on_command(&mut o, IDM_DETAILS);
    assert_eq!(o.view_mode, 2);
    assert_eq!((timer_delay(0), timer_delay(1), timer_delay(2), timer_delay(3)), (500, 2000, 4000, 0));
}

#[test]
fn page_commands_go_to_their_page() {
    let mut o = options();
    assert_eq!(on_command(&mut o, IDM_TASK_CASCADE), outcome(AppAction::ForwardToTaskPage(IDM_TASK_CASCADE), false));
    assert_eq!(on_command(&mut o, IDM_PROC_DEBUG), outcome(AppAction::Beep, false));
    assert_eq!(on_command(&mut o, IDM_LOGOFF), outcome(AppAction::Beep, false));
    o.current_page = 1;
    assert_eq!(on_command(&mut o, IDM_PROC_DEBUG), outcome(AppAction::ForwardToProcessPage(IDM_PROC_DEBUG), false));
    o.current_page = 4;
    assert_eq!(on_command(&mut o, IDM_LOGOFF), outcome(AppAction::ForwardToUserPage(IDM_LOGOFF), true));
}

#[test]
fn tabs_wrap_around() {
    assert_eq!(next_tab_index(0, 5, true), 1);
    assert_eq!(next_tab_index(4, 5, true), 0);
    assert_eq!(next_tab_index(0, 5, false), 4);
    assert_eq!(next_tab_index(-1, 5, false), 4);
    assert_eq!(next_tab_index(-1, 5, true), 1);
    for page in 0..5 {
        for forward in [true, false] {
            let next = next_tab_index(page, 5, forward);
            assert_eq!(next_tab_index(next as i32, 5, !forward) as i32, page);
        }
    }
    assert!(switching_pages(0, 1));
    assert!(!switching_pages(1, 1));
    assert!(!switching_pages(-1, 0));
}

#[test]
fn tray_icons_and_cpu_usage() {
    assert_eq!(tray_icon_index(0, 12), 0);
    assert_eq!(tray_icon_index(50, 12), 6);
    assert_eq!(tray_icon_index(99, 12), 11);
    assert_eq!(tray_icon_index(100, 12), 11);
    assert_eq!(runtime_cpu_usage((0, 0, 0), (10, 10, 10)), None);
    assert_eq!(runtime_cpu_usage((100, 200, 300), (150, 300, 300)), Some(50));
    assert_eq!(runtime_cpu_usage((100, 200, 300), (100, 200, 300)), None);
    assert_eq!(runtime_cpu_usage((100, 200, 300), (300, 250, 350)), Some(0));
    assert_eq!(memory_kb(8 * 1024 * 1024, 2 * 1024 * 1024), (6 * 1024, 8 * 1024));
}

#[test]
fn window_styles_and_hit_tests() {
    let framed = framed_window_style(WS_POPUP | 0x1);
    assert_eq!(framed, WS_TILEDWINDOW | 0x1);
    assert_eq!(framed & WS_POPUP, 0);
    let borderless = borderless_window_style(framed);
    assert_eq!(borderless & (WS_DLGFRAME | WS_SYSMENU | WS_MINIMIZEBOX | WS_MAXIMIZEBOX), 0);
    assert_eq!(borderless & WS_CAPTION, WS_CAPTION & !WS_DLGFRAME);
    assert_eq!(nc_hit_test(HTCLIENT, true, false), HTCAPTION);
    assert_eq!(nc_hit_test(HTCLIENT, true, true), HTCLIENT);
    assert_eq!(nc_hit_test(HTCLIENT, false, false), HTCLIENT);
    assert_eq!(nc_hit_test(5, true, false), 5);
    assert!(hides_on_right_button(false, false, false, true));
    assert!(!hides_on_right_button(true, false, false, true));
    assert!(!hides_on_right_button(false, false, false, false));
}

#[test]
fn menu_selections_and_sizes() {
    assert_eq!(menu_selection(0xFFFF, 0, true), MenuSelection::EndTracking);
    assert_eq!(menu_selection(5, MF_SEPARATOR as u16, false), MenuSelection::EndTracking);
    assert_eq!(menu_selection(2, MF_POPUP as u16, false), MenuSelection::SubmenuHelp(2));
    assert_eq!(menu_selection(2, MF_POPUP as u16, true), MenuSelection::ItemHelp(2));
    assert_eq!(menu_selection(40001, 0, false), MenuSelection::ItemHelp(40001));
    assert_eq!(size_from_lparam(0x0190_0280), (0x280, 0x190));
    assert_eq!(tabs_size(640, 480, 450, 4, 6), (632, 438));
}

#[test]
fn pages_and_resources() {
    let task = page_descriptor(0).unwrap();
    assert_eq!(task.title_id, IDS_TASKPAGETITLE);
    assert_eq!(task.initial_focus, PageFocusTarget::Control(IDC_TASKLIST));
    let proc_page = page_descriptor(1).unwrap();
    assert_eq!((proc_page.dialog_id, proc_page.title_id), (IDD_PROCPAGE, IDS_PROCPAGETITLE));
    assert_eq!(proc_page.initial_focus, PageFocusTarget::Tabs);
    assert_eq!(page_descriptor(2).unwrap().initial_focus, PageFocusTarget::NoFocus);
    assert!(page_descriptor(5).is_none());
    assert_eq!(perf_draw_target(1201), PerfDrawTarget::CpuGraph(0));
    assert_eq!(perf_draw_target(1020), PerfDrawTarget::CpuMeter);
    assert_eq!(perf_draw_target(1024), PerfDrawTarget::MemMeter);
    assert_eq!(perf_draw_target(1021), PerfDrawTarget::MemGraph);
    assert_eq!(perf_draw_target(7), PerfDrawTarget::Nothing);
    assert_eq!(to_wide_resource_name("APP"), vec![0x41, 0x50, 0x50, 0]);
    assert_eq!(tray_icon_resource_name(0), "APP_TRAY_0_ICON");
    assert_eq!(tray_icon_resource_name(TRAY_ICON_COUNT - 1), "APP_TRAY_11_ICON");
    let keys = accelerators();
    assert_eq!(keys.len(), 6);
    assert_eq!((keys[0].flags, keys[0].key, keys[0].command), (FVIRTKEY | FNOINVERT, VK_DELETE, IDC_ENDTASK as u16));
    assert_eq!((keys[1].command, keys[1].flags & FSHIFT), (IDM_HIDE, FSHIFT));
    assert_eq!((keys[5].flags, keys[5].key, keys[5].command), (FVIRTKEY | FSHIFT | FCONTROL | FNOINVERT, VK_TAB, IDC_PREVTAB));
    assert_eq!(menu_items_removed(true, 1), (true, true));
    assert_eq!(menu_items_removed(false, 4), (false, false));
}

#[test]
fn list_updates() {
    let current = vec![Some(1), Some(2), None, Some(4)];
    let plan = list_update_plan(&current, &vec![1, 2, 3], &vec![false, true, false], Some(2));
    assert_eq!(plan.actions, vec![RowAction::Keep, RowAction::Redraw, RowAction::Replace]);
    assert_eq!(plan.delete_count, 1);
    assert_eq!(plan.insert_from, 3);
    assert_eq!(plan.selected_index, Some(1));
    let plan = list_update_plan(&vec![Some(9)], &vec![1, 2, 1], &vec![false, false, false], Some(1));
    assert_eq!(plan.actions, vec![RowAction::Replace]);
    assert_eq!((plan.delete_count, plan.insert_from), (0, 1));
    assert_eq!(plan.selected_index, Some(2));
    let plan = list_update_plan(&vec![], &vec![5], &vec![true], Some(7));
    assert_eq!(plan.selected_index, None);
    assert_eq!(selection_after_update(Some(7), None), None);
    assert_eq!(selection_after_update(Some(7), Some(0)), Some(7));
    assert_eq!(callback_text(&vec![0x61, 0x62, 0x63], 3), vec![0x61, 0x62, 0]);
    assert_eq!(callback_text(&vec![0x61], 10), vec![0x61, 0]);
    assert_eq!(callback_text(&vec![0x61], 0), Vec::<u16>::new());
}
