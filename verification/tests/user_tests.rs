use taskmgr::localization::UiLanguage;
use taskmgr::resource::{IDM_DISCONNECT, IDM_LOGOFF, IDM_SENDMESSAGE};
use taskmgr::strings::SortOrder;
use taskmgr::winutil::Rect;
use taskmgr::userpage::{
    build_session_entry, command_failure_text, compare_user_sessions, find_previous_session,
    is_session_state_command, next_user_sort, session_actions, session_failure, session_prompt,
    refresh_sessions, session_state_text, sort_sessions, user_page_layout, RawSession, UserSessionEntry,
};

fn raw(id: u32, user: &str, domain: &str, state: i32) -> RawSession {
    RawSession {
        session_id: id,
        user_name: user.to_string(),
        domain_name: domain.to_string(),
        client_name: String::new(),
        state,
        station_name: "Console".to_string(),
    }
}

fn row(id: u32, name: &str, status: &str) -> UserSessionEntry {
    UserSessionEntry {
        session_id: id,
        display_name: name.to_string(),
        status: status.to_string(),
        client_name: "-".to_string(),
        session_name: "Console".to_string(),
        dirty: false,
    }
}

#[test]
fn session_states() {
    assert_eq!(session_state_text(UiLanguage::EnUs, 0), "Active");
    assert_eq!(session_state_text(UiLanguage::EnUs, 4), "Disconnected");
    assert_eq!(session_state_text(UiLanguage::EnUs, 5), "Idle");
    assert_eq!(session_state_text(UiLanguage::Fr, 0), "Actif");
    assert_eq!(session_state_text(UiLanguage::EnUs, 77), "Unknown");
}

#[test]
fn session_rows() {
    let e = build_session_entry(UiLanguage::EnUs, &raw(1, "alice", "CORP", 0), true, None).unwrap();
    assert_eq!(e.display_name, "CORP\\alice");
    assert_eq!(e.status, "Active");
    assert_eq!(e.client_name, "-");
    assert_eq!(e.session_name, "Console");
    assert!(e.dirty);
    let same = build_session_entry(UiLanguage::EnUs, &raw(1, "alice", "CORP", 0), true, Some(&e)).unwrap();
    assert!(!same.dirty);
    let plain = build_session_entry(UiLanguage::EnUs, &raw(1, "alice", "CORP", 0), false, Some(&e)).unwrap();
    assert_eq!(plain.display_name, "alice");
    assert!(plain.dirty);
    let mut with_client = raw(2, "bob", "", 4);
    with_client.client_name = "PC7".to_string();
    let b = build_session_entry(UiLanguage::EnUs, &with_client, true, None).unwrap();
    assert_eq!(b.display_name, "bob");
    assert_eq!(b.client_name, "PC7");
    assert_eq!(b.status, "Disconnected");
    assert!(build_session_entry(UiLanguage::EnUs, &raw(3, "", "CORP", 0), true, None).is_none());
}

#[test]
fn previous_rows_by_session() {
    let rows = vec![row(1, "a", "Active"), row(2, "b", "Active"), row(1, "c", "Active")];
    assert_eq!(find_previous_session(&rows, 1), Some(2));
    assert_eq!(find_previous_session(&rows, 2), Some(1));
    assert_eq!(find_previous_session(&rows, 9), None);
}

#[test]
fn session_order() {
    let a = row(2, "bob", "Active");
    let b = row(1, "Alice", "Disconnected");
    assert_eq!(compare_user_sessions(&a, &b, 0, true), SortOrder::Greater);
    assert_eq!(compare_user_sessions(&a, &b, 1, true), SortOrder::Greater);
    assert_eq!(compare_user_sessions(&a, &b, 2, true), SortOrder::Less);
    assert_eq!(compare_user_sessions(&a, &b, 0, false), SortOrder::Less);
    assert_eq!(compare_user_sessions(&a, &a, 3, true), SortOrder::Equal);
    let mut rows = vec![row(3, "carol", "Idle"), a, b];
    sort_sessions(&mut rows, 0, true);
    let ids: Vec<u32> = rows.iter().map(|r| r.session_id).collect();
    assert_eq!(ids, vec![1, 2, 3]);
    sort_sessions(&mut rows, 1, false);
    let ids: Vec<u32> = rows.iter().map(|r| r.session_id).collect();
    assert_eq!(ids, vec![3, 2, 1]);
    assert_eq!(next_user_sort(2, true, 2), (2, false));
    assert_eq!(next_user_sort(2, true, 3), (3, true));
    assert_eq!(next_user_sort(0, false, -1), (0, true));
}

#[test]
fn commands_the_selection_allows() {
    let rows = vec![row(1, "a", "Active"), row(2, "b", "Disconnected")];
    let a = session_actions(UiLanguage::EnUs, &vec![1], &rows, Some(1));
    assert!(!a.send_enabled && a.disconnect_enabled && a.logoff_enabled);
    let a = session_actions(UiLanguage::EnUs, &vec![1, 2], &rows, Some(1));
    assert!(a.send_enabled && !a.disconnect_enabled && a.logoff_enabled);
    let a = session_actions(UiLanguage::EnUs, &vec![], &rows, Some(1));
    assert!(!a.send_enabled && !a.disconnect_enabled && !a.logoff_enabled);
    let a = session_actions(UiLanguage::EnUs, &vec![1], &rows, None);
    assert!(a.send_enabled);
}

#[test]
fn prompts_and_failures() {
    assert_eq!(session_prompt(UiLanguage::EnUs, IDM_LOGOFF), "Are you sure you want to logoff the selected user(s)?");
    assert_eq!(session_failure(UiLanguage::EnUs, IDM_LOGOFF), "The selected user could not be logged off.");
    assert_eq!(session_failure(UiLanguage::EnUs, IDM_DISCONNECT), "The selected user could not be disconnected.");
    assert_eq!(command_failure_text(UiLanguage::EnUs, "Failed.", 0), "Failed.");
    assert_eq!(command_failure_text(UiLanguage::EnUs, "Failed.", 5), "Failed.\n\nWin32 error: 5");
    assert!(is_session_state_command(IDM_LOGOFF));
    assert!(is_session_state_command(IDM_DISCONNECT));
    assert!(!is_session_state_command(IDM_SENDMESSAGE));
}

#[test]
fn users_page_layout_keeps_two_spacings() {
    let parent = Rect { left: 0, top: 0, right: 400, bottom: 300 };
    let master = Rect { left: 300, top: 250, right: 380, bottom: 275 };
    let list = Rect { left: 6, top: 6, right: 380, bottom: 240 };
    let l = user_page_layout(&parent, &master, &list, 6);
    assert_eq!((l.button_x, l.button_y), (308, 263));
    assert_eq!((l.list_width, l.list_height), (382, 251));
    let l = user_page_layout(&Rect { left: 0, top: 0, right: 10, bottom: 10 }, &master, &list, 6);
    assert_eq!((l.list_width, l.list_height), (0, 0));
}

#[test]
fn sessions_with_equal_keys_keep_their_order() {
    let mut rows = vec![
        row(4, "dave", "Active"),
        row(2, "bob", "Disconnected"),
        row(7, "amy", "Active"),
        row(5, "cat", "Disconnected"),
    ];
    sort_sessions(&mut rows, 2, true);
    let ids: Vec<u32> = rows.iter().map(|r| r.session_id).collect();
    assert_eq!(ids, vec![4, 7, 2, 5]);
}

#[test]
fn a_refresh_lists_sessions_with_users_sorted_and_marks_changes() {
    let first = refresh_sessions(
        UiLanguage::EnUs,
        &vec![raw(3, "zoe", "CORP", 0), raw(1, "", "CORP", 0), raw(2, "adam", "CORP", 4)],
        &Vec::new(),
        false,
        0,
        true,
    );
    let ids: Vec<u32> = first.iter().map(|r| r.session_id).collect();
    assert_eq!(ids, vec![2, 3]);
    assert!(first.iter().all(|r| r.dirty));
    let second = refresh_sessions(
        UiLanguage::EnUs,
        &vec![raw(3, "zoe", "CORP", 0), raw(2, "adam", "CORP", 0)],
        &first,
        false,
        0,
        true,
    );
    assert_eq!(second[0].session_id, 2);
    assert!(second[0].dirty);
    assert_eq!(second[0].status, "Active");
    assert!(!second[1].dirty);
}
