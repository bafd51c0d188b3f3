use taskmgr::appstate::{
    double_click_toggles_title, restore_after_right_button, tray_action, tray_menu_state, RestoreShow, TrayAction,
    TrayMenuState, WM_LBUTTONDBLCLK, WM_RBUTTONDOWN,
};
use taskmgr::language::text;
use taskmgr::localization::UiLanguage;
use taskmgr::resource::{
    IDC_AFFINITY_DESC, IDC_AFFINITY_GROUP, IDC_CPUFRAME, IDC_ENDTASK, IDC_STATIC14, IDC_SWITCHTO,
    IDD_AFFINITY, IDD_MAINWND, IDD_PERFPAGE, IDD_SELECTPROCCOLS, IDD_TASKPAGE, IDM_PROCCOLS, IDM_RESTORETASKMAN,
    IDM_RUN, IDM_USERCOLS, IDR_ACCELERATORS, IDR_MAINMENU_NET, IDR_MAINMENU_PERF, IDR_MAINMENU_TASK,
    IDR_MAINMENU_USER, IDR_PROC_CONTEXT, IDR_TASKVIEW, IDR_TASK_CONTEXT, IDR_TRAYMENU,
};
use taskmgr::text_key::TextKey;
use taskmgr::ui_texts::{
    dialog_texts, menu_command_texts, submenu_titles, DialogText, MenuCommandText, SubmenuTitle, TextTarget,
    IDCANCEL, IDOK,
};

#[test]
fn the_affinity_dialog_gets_its_title_buttons_and_labels() {
    let texts = dialog_texts(IDD_AFFINITY);
    assert_eq!(
        texts,
        vec![
            DialogText { target: TextTarget::Window, key: TextKey::ProcessorAffinity },
            DialogText { target: TextTarget::Item(IDOK), key: TextKey::OkButton },
            DialogText { target: TextTarget::Item(IDCANCEL), key: TextKey::Cancel },
            DialogText { target: TextTarget::Item(IDC_AFFINITY_GROUP), key: TextKey::Processors },
            DialogText { target: TextTarget::Item(IDC_AFFINITY_DESC), key: TextKey::ProcessorAffinityDescription },
        ]
    );
}

#[test]
fn the_task_page_buttons_are_named() {
    let texts = dialog_texts(IDD_TASKPAGE);
    assert_eq!(texts.len(), 3);
    assert_eq!(texts[0], DialogText { target: TextTarget::Item(IDC_SWITCHTO), key: TextKey::SwitchTo });
    assert_eq!(texts[1], DialogText { target: TextTarget::Item(IDC_ENDTASK), key: TextKey::EndTask });
    assert_eq!(texts[2], DialogText { target: TextTarget::Item(IDM_RUN as i32), key: TextKey::NewTaskButton });
}

#[test]
fn the_performance_frames_are_set_only_when_present() {
    let texts = dialog_texts(IDD_PERFPAGE);
    assert_eq!(texts.len(), 20);
    assert_eq!(texts[0], DialogText { target: TextTarget::Item(IDC_STATIC14), key: TextKey::Handles });
    assert_eq!(texts[12], DialogText { target: TextTarget::Control(IDC_CPUFRAME), key: TextKey::CpuUsageHistory });
    assert_eq!(texts.iter().filter(|t| matches!(t.target, TextTarget::Control(_))).count(), 8);
}

#[test]
fn the_column_dialog_names_every_column() {
    let texts = dialog_texts(IDD_SELECTPROCCOLS);
    assert_eq!(texts.len(), 20);
    assert_eq!(texts[0].target, TextTarget::Window);
    assert_eq!(texts[19].key, TextKey::ThreadCount);
}

#[test]
fn a_dialog_without_texts_of_its_own_gets_none() {
    assert!(dialog_texts(IDD_MAINWND).is_empty());
    assert!(dialog_texts(0).is_empty());
}

#[test]
fn every_menu_command_has_a_text() {
    let texts = menu_command_texts();
    assert_eq!(texts.len(), 43);
    assert_eq!(texts[0], MenuCommandText { command: IDM_RUN, key: TextKey::NewTaskMenu });
    assert_eq!(texts[42], MenuCommandText { command: IDM_RESTORETASKMAN, key: TextKey::RestoreTaskManager });
    let both: Vec<TextKey> = texts
        .iter()
        .filter(|t| t.command == IDM_PROCCOLS || t.command == IDM_USERCOLS)
        .map(|t| t.key)
        .collect();
    assert_eq!(both, vec![TextKey::SelectColumnsMenu, TextKey::SelectColumnsMenu]);
}

#[test]
fn the_main_menus_name_their_submenus() {
    let task = submenu_titles(IDR_MAINMENU_TASK);
    assert_eq!(task.len(), 6);
    assert_eq!(task[3], SubmenuTitle { outer: 3, inner: None, key: TextKey::Windows });
    assert_eq!(task[5], SubmenuTitle { outer: 2, inner: Some(1), key: TextKey::UpdateSpeed });
    let perf = submenu_titles(IDR_MAINMENU_PERF);
    assert_eq!(perf.len(), 6);
    assert_eq!(perf[5], SubmenuTitle { outer: 2, inner: Some(3), key: TextKey::CpuHistory });
    assert_eq!(submenu_titles(IDR_MAINMENU_NET), submenu_titles(IDR_MAINMENU_USER));
    assert_eq!(submenu_titles(IDR_MAINMENU_NET).len(), 5);
}

#[test]
fn the_popup_menus_name_their_one_submenu() {
    assert_eq!(submenu_titles(IDR_TASK_CONTEXT), vec![SubmenuTitle { outer: 0, inner: None, key: TextKey::Tasks }]);
    assert_eq!(submenu_titles(IDR_TASKVIEW), submenu_titles(IDR_TASK_CONTEXT));
    assert_eq!(
        submenu_titles(IDR_PROC_CONTEXT),
        vec![
            SubmenuTitle { outer: 0, inner: None, key: TextKey::Processes },
            SubmenuTitle { outer: 0, inner: Some(3), key: TextKey::SetPriority },
        ]
    );
    assert_eq!(submenu_titles(IDR_TRAYMENU), vec![SubmenuTitle { outer: 0, inner: None, key: TextKey::TaskManager }]);
    assert!(submenu_titles(IDR_ACCELERATORS).is_empty());
}

#[test]
fn dialog_texts_read_in_each_language() {
    let texts = dialog_texts(IDD_AFFINITY);
    assert_eq!(text(UiLanguage::EnUs, texts[1].key), text(UiLanguage::EnUs, TextKey::OkButton));
    assert!(!text(UiLanguage::Fr, texts[0].key).is_empty());
}

#[test]
fn the_tray_icon_answers_double_clicks_and_the_right_button() {
    assert_eq!(tray_action(WM_LBUTTONDBLCLK), TrayAction::ShowWindow);
    assert_eq!(tray_action(WM_RBUTTONDOWN), TrayAction::PopupMenu);
    assert_eq!(tray_action(0x0205), TrayAction::Nothing);
    assert_eq!(tray_action(0x0200), TrayAction::Nothing);
}

#[test]
fn the_tray_menu_offers_restore_only_while_hidden() {
    assert_eq!(
        tray_menu_state(true, false),
        TrayMenuState { remove_restore: true, restore_is_default: false, always_on_top_checked: false }
    );
    assert_eq!(
        tray_menu_state(false, true),
        TrayMenuState { remove_restore: false, restore_is_default: true, always_on_top_checked: true }
    );
}

#[test]
fn a_hidden_window_comes_back_as_it_was() {
    assert_eq!(restore_after_right_button(true, true), RestoreShow::Minimized);
    assert_eq!(restore_after_right_button(false, true), RestoreShow::Maximized);
    assert_eq!(restore_after_right_button(false, false), RestoreShow::Normal);
}

#[test]
fn double_clicks_on_the_frame_only_restore_the_title() {
    assert!(double_click_toggles_title(false, false));
    assert!(double_click_toggles_title(false, true));
    assert!(double_click_toggles_title(true, true));
    assert!(!double_click_toggles_title(true, false));
}
