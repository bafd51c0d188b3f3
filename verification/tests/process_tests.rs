use std::collections::HashMap;

use taskmgr::localization::UiLanguage;
use taskmgr::proccollect::{
    apply_wow_task, build_process_entry, collect_process_entries, cpu_percent_from_delta,
    filetime_to_u64, finish_wow_host, previous_sample, wow_host_indexes, IdentityQuery,
    MemoryCounters, ProcessCounters, ProcessIdentity, RawProcess,
};
use taskmgr::procpage::{
    column_dialog_id, column_id_from_i32, columns_from_options, merge_process_snapshots,
    process_column, remove_stale_entries, same_entry_identity, update_process_entry, ColumnId,
    DirtyColumns, PreviousProcSample, ProcEntry, HIGH_PRIORITY_CLASS, IDLE_PRIORITY_CLASS,
    LVCFMT_LEFT, LVCFMT_RIGHT, NORMAL_PRIORITY_CLASS, REALTIME_PRIORITY_CLASS,
};
use taskmgr::procsort::{build_sort_context, compare_entries, priority_rank, refresh_entries, resort_entries, sort_proxy_entry};
use taskmgr::proctext::{
    basename_from_path, cell_text, column_text, debugger_command_line, debugger_from_command,
    eq_ignore_ascii_case, extract_first_command_token, format_elapsed_time, format_kilobytes,
    format_signed_kilobytes, utf16_buffer_to_string, ProcessStrings,
};
use taskmgr::resource::{IDC_PID, IDS_COL_IMAGENAME, IDS_COL_PID};
use taskmgr::strings::SortOrder;

fn entry(pid: u32, name: &str) -> ProcEntry {
    ProcEntry {
        pid,
        real_pid: pid,
        image_name: name.to_string(),
        is_32_bit: false,
        user_name: "alice".to_string(),
        session_id: 1,
        cpu: 0,
        cpu_time_100ns: 0,
        display_cpu_time_100ns: 0,
        mem_usage_kb: 100,
        mem_diff_kb: 0,
        page_faults: 0,
        page_faults_diff: 0,
        commit_charge_kb: 0,
        paged_pool_kb: 0,
        nonpaged_pool_kb: 0,
        priority_class: NORMAL_PRIORITY_CLASS,
        handle_count: 0,
        thread_count: 1,
        wow_task_handle: 0,
        is_wow_task: false,
        pass_count: 0,
        dirty_columns: DirtyColumns::none(),
    }
}

fn pids(entries: &[ProcEntry]) -> Vec<u32> {
    entries.iter().map(|e| e.pid).collect()
}

#[test]
fn elapsed_time_and_kilobytes() {
    assert_eq!(format_elapsed_time(36_610 * 10_000_000), "10:10:10");
    assert_eq!(format_elapsed_time(3_605 * 10_000_000), " 1:00:05");
    assert_eq!(format_elapsed_time(0), " 0:00:00");
    assert_eq!(format_elapsed_time(400_000 * 10_000_000), "111:06:40");
    assert_eq!(format_kilobytes(2048), "2048 K");
    assert_eq!(format_signed_kilobytes(-12), "-12 K");
    assert_eq!(format_signed_kilobytes(0), "0 K");
}

#[test]
fn column_table_and_codes() {
    assert_eq!(column_id_from_i32(1), Some(ColumnId::Pid));
    assert_eq!(column_id_from_i32(15), Some(ColumnId::ThreadCount));
    assert_eq!(column_id_from_i32(16), None);
    assert_eq!(column_id_from_i32(-1), None);
    assert_eq!(columns_from_options(&[0, 99, 4, -1, 1]), vec![ColumnId::ImageName, ColumnId::Cpu, ColumnId::Pid]);
    let c = process_column(ColumnId::Pid);
    assert_eq!((c.title_id, c.fmt, c.default_width), (IDS_COL_PID, LVCFMT_RIGHT, 50));
    let c = process_column(ColumnId::ImageName);
    assert_eq!((c.title_id, c.fmt, c.default_width), (IDS_COL_IMAGENAME, LVCFMT_LEFT, 107));
    assert_eq!(column_dialog_id(ColumnId::Pid), IDC_PID);
    assert_eq!(ColumnId::BasePriority.index(), 13);
}

#[test]
fn dirty_columns_mark_and_query() {
    let mut d = DirtyColumns::none();
    assert!(!d.any());
    d.mark(ColumnId::Cpu);
    assert_eq!(d.0, 1 << 4);
    d.mark(ColumnId::Pid);
    assert_eq!(d.0, (1 << 4) | (1 << 1));
    assert!(d.any());
    assert_eq!(DirtyColumns::from_column(ColumnId::ThreadCount).0, 1 << 15);
    assert_eq!(DirtyColumns::all().0, u32::MAX);
}

#[test]
fn update_marks_only_changed_columns() {
    let mut row = entry(10, "a.exe");
    row.dirty_columns = DirtyColumns::none();
    let mut sample = entry(10, "a.exe");
    sample.cpu = 7;
    sample.mem_usage_kb = 200;
    update_process_entry(&mut row, &sample, 5);
    assert_eq!(row.pass_count, 5);
    assert_eq!(row.cpu, 7);
    assert_eq!(row.mem_usage_kb, 200);
    assert_eq!(row.dirty_columns.0, (1 << 4) | (1 << 6));
    assert!(same_entry_identity(&row, &sample));
}

#[test]
fn merge_updates_in_place_and_appends_new_rows() {
    let mut rows = vec![entry(1, "a.exe").with_pass_count(1), entry(2, "b.exe").with_pass_count(1)];
    let mut changed = entry(2, "b.exe");
    changed.cpu = 3;
    merge_process_snapshots(&mut rows, vec![changed, entry(3, "c.exe")], 2);
    assert_eq!(pids(&rows), vec![1, 2, 3]);
    assert_eq!(rows[0].pass_count, 1);
    assert_eq!(rows[1].pass_count, 2);
    assert_eq!(rows[1].cpu, 3);
    assert_eq!(rows[2].pass_count, 2);
    assert_eq!(rows[2].dirty_columns.0, u32::MAX);
    remove_stale_entries(&mut rows, 2);
    assert_eq!(pids(&rows), vec![2, 3]);
}

#[test]
fn merge_marks_changed_columns_of_updated_rows() {
    let mut old_row = entry(2, "b.exe");
    old_row.pass_count = 1;
    old_row.dirty_columns = DirtyColumns(1 << 20);
    let mut rows = vec![old_row];
    let mut changed = entry(2, "b.exe");
    changed.mem_usage_kb = 300;
    changed.thread_count = 4;
    merge_process_snapshots(&mut rows, vec![changed], 2);
    assert_eq!(rows[0].dirty_columns.0, (1 << 20) | (1 << 6) | (1 << 15));
    assert!(rows[0].dirty_columns.any());
}

#[test]
fn refresh_marks_rows_for_redrawing() {
    let mut rows = vec![entry(1, "a.exe").with_pass_count(1), entry(2, "b.exe")];
    rows[1].pass_count = 1;
    let mut changed = entry(2, "b.exe");
    changed.cpu = 9;
    refresh_entries(&mut rows, vec![entry(3, "c.exe"), changed], 2, ColumnId::Pid, 1);
    assert_eq!(pids(&rows), vec![2, 3]);
    assert_eq!(rows[0].dirty_columns.0, 1 << 4);
    assert_eq!(rows[1].dirty_columns.0, u32::MAX);
}

#[test]
fn merge_appends_new_processes_in_sample_order_and_keeps_latest_values() {
    let mut rows = vec![entry(1, "a.exe").with_pass_count(1)];
    let mut first = entry(5, "e.exe");
    first.cpu = 1;
    let mut again = entry(5, "e.exe");
    again.cpu = 9;
    let mut older = entry(1, "a.exe");
    older.cpu = 4;
    let mut newer = entry(1, "a.exe");
    newer.cpu = 6;
    merge_process_snapshots(&mut rows, vec![first, older, entry(3, "c.exe"), again, newer], 2);
    assert_eq!(pids(&rows), vec![1, 5, 3]);
    assert_eq!(rows[0].cpu, 6);
    assert_eq!(rows[1].cpu, 9);
    assert_eq!(rows[2].cpu, 0);
}

#[test]
fn sorting_by_columns_and_direction() {
    let mut a = entry(30, "Zeta.exe");
    a.mem_usage_kb = 50;
    let mut b = entry(10, "alpha.exe");
    b.mem_usage_kb = 70;
    let mut c = entry(20, "beta.exe");
    c.mem_usage_kb = 50;
    let mut rows = vec![a, b, c];
    resort_entries(&mut rows, ColumnId::ImageName, 1);
    assert_eq!(pids(&rows), vec![10, 20, 30]);
    resort_entries(&mut rows, ColumnId::MemUsage, 1);
    assert_eq!(pids(&rows), vec![20, 30, 10]);
    resort_entries(&mut rows, ColumnId::MemUsage, -1);
    assert_eq!(pids(&rows), vec![10, 30, 20]);
}

#[test]
fn wow_tasks_sort_after_their_host() {
    let host = entry(100, "ntvdm.exe");
    let other = entry(50, "zzz.exe");
    let mut task_b = entry(7, "  b.exe");
    task_b.real_pid = 100;
    task_b.is_wow_task = true;
    let mut task_a = entry(8, "  a.exe");
    task_a.real_pid = 100;
    task_a.is_wow_task = true;
    let mut rows = vec![task_b, other, host, task_a];
    resort_entries(&mut rows, ColumnId::ImageName, 1);
    assert_eq!(pids(&rows), vec![100, 8, 7, 50]);
    let context = build_sort_context(&rows);
    assert_eq!(sort_proxy_entry(&rows[1], &context).pid, 100);
    assert_eq!(compare_entries(&rows[1], &rows[0], &context, ColumnId::Pid, 1), SortOrder::Greater);
}

#[test]
fn priority_ranks() {
    assert_eq!(priority_rank(REALTIME_PRIORITY_CLASS), 3);
    assert_eq!(priority_rank(HIGH_PRIORITY_CLASS), 2);
    assert_eq!(priority_rank(NORMAL_PRIORITY_CLASS), 1);
    assert_eq!(priority_rank(IDLE_PRIORITY_CLASS), 0);
}

#[test]
fn refresh_keeps_only_the_current_pass() {
    let mut rows = vec![entry(1, "a.exe").with_pass_count(1), entry(2, "b.exe").with_pass_count(1)];
    refresh_entries(&mut rows, vec![entry(3, "c.exe"), entry(2, "b.exe")], 2, ColumnId::Pid, 1);
    assert_eq!(pids(&rows), vec![2, 3]);
    assert!(rows.iter().all(|r| r.pass_count == 2));
}

#[test]
fn cell_texts() {
    let strings = ProcessStrings::load(UiLanguage::EnUs);
    let mut e = entry(42, "app.exe");
    e.is_32_bit = true;
    e.cpu = 7;
    e.mem_diff_kb = -5;
    e.priority_class = HIGH_PRIORITY_CLASS;
    assert_eq!(column_text(UiLanguage::EnUs, &e, ColumnId::ImageName, &strings), "app.exe (32-bit)");
    assert_eq!(column_text(UiLanguage::EnUs, &e, ColumnId::Pid, &strings), "42");
    assert_eq!(column_text(UiLanguage::EnUs, &e, ColumnId::Cpu, &strings), "07 %");
    assert_eq!(column_text(UiLanguage::EnUs, &e, ColumnId::MemUsageDiff, &strings), "-5 K");
    assert_eq!(column_text(UiLanguage::EnUs, &e, ColumnId::BasePriority, &strings), "High");
    assert_eq!(strings.priority_label(0x1234), "Unknown");
    e.is_wow_task = true;
    assert_eq!(cell_text(UiLanguage::EnUs, &e, ColumnId::MemUsage, &strings), "");
    assert_eq!(cell_text(UiLanguage::EnUs, &e, ColumnId::Pid, &strings), "");
    assert_eq!(cell_text(UiLanguage::EnUs, &e, ColumnId::Cpu, &strings), "07 %");
    let fr = ProcessStrings::load(UiLanguage::Fr);
    assert_eq!(fr.priority_label(NORMAL_PRIORITY_CLASS), "Normale");
}

#[test]
fn names_and_command_lines() {
    assert_eq!(utf16_buffer_to_string(&[0x61, 0x62, 0, 0x63]), "ab");
    assert_eq!(utf16_buffer_to_string(&[0x61, 0x62]), "ab");
    assert_eq!(basename_from_path("C:\\Windows\\notepad.exe"), "notepad.exe");
    assert_eq!(basename_from_path("/usr/bin/x"), "x");
    assert_eq!(basename_from_path("plain"), "plain");
    assert_eq!(basename_from_path("dir\\"), "");
    assert_eq!(extract_first_command_token("  \"C:\\Program Files\\dbg.exe\" -p %ld"), "C:\\Program Files\\dbg.exe");
    assert_eq!(extract_first_command_token("ntsd.exe -p %ld -e %ld"), "ntsd.exe");
    assert_eq!(extract_first_command_token("   "), "");
    assert!(eq_ignore_ascii_case("DrWtsn32.EXE", "drwtsn32.exe"));
    assert!(!eq_ignore_ascii_case("drwtsn32", "drwtsn3"));
    assert_eq!(debugger_from_command("drwtsn32 -p %ld -e %ld -g"), None);
    assert_eq!(debugger_from_command("\"DRWTSN32.exe\" -p"), None);
    assert_eq!(debugger_from_command(""), None);
    assert_eq!(debugger_from_command("windbg.exe -p %ld"), Some("windbg.exe".to_string()));
    assert_eq!(debugger_command_line("windbg.exe", 1234), "windbg.exe -p 1234");
}

#[test]
fn cpu_shares_and_filetimes() {
    assert_eq!(filetime_to_u64(1, 2), (1u64 << 32) + 2);
    assert_eq!(cpu_percent_from_delta(500, 1000), 50);
    assert_eq!(cpu_percent_from_delta(5000, 1000), 99);
    assert_eq!(cpu_percent_from_delta(5, 0), 0);
    assert_eq!(cpu_percent_from_delta(125_000, 1_000_000), 13);
    assert_eq!(cpu_percent_from_delta(124_999, 1_000_000), 12);
}

fn sample(raw: u64, display: u64, mem: u32, faults: u32) -> PreviousProcSample {
    PreviousProcSample { raw_cpu_time_100ns: raw, display_cpu_time_100ns: display, mem_usage_kb: mem, page_faults: faults }
}

#[test]
fn process_rows_from_reports() {
    let mut previous = HashMap::new();
    previous.insert(5u32, sample(1_000, 1_000, 80, 10));
    assert_eq!(previous_sample(&previous, 5), sample(1_000, 1_000, 80, 10));
    assert_eq!(previous_sample(&previous, 6), PreviousProcSample::zero());
    let raw = RawProcess {
        pid: 5,
        thread_count: 3,
        image_name: "app.exe".to_string(),
        listed_identity: Some(ProcessIdentity { user_name: "listed".to_string(), session_id: 2 }),
        identity_query: Some(IdentityQuery { user_name: String::new(), session_id: 0, is_32_bit: true }),
        counters: Some(ProcessCounters {
            is_32_bit: false,
            cpu_time_100ns: Some(501_000),
            memory: Some(MemoryCounters {
                working_set_size: 100 * 1024,
                page_fault_count: 15,
                private_usage: 2048,
                quota_paged_pool_usage: 4096,
                quota_nonpaged_pool_usage: 1023,
            }),
            handle_count: Some(9),
            priority_class: 0,
        }),
    };
    let (row, record) = build_process_entry(&raw, &previous, 1_000_000);
    assert_eq!(row.user_name, "listed");
    assert_eq!(row.session_id, 2);
    assert!(!row.is_32_bit);
    assert_eq!(row.cpu, 50);
    assert_eq!(row.mem_usage_kb, 100);
    assert_eq!(row.mem_diff_kb, 20);
    assert_eq!(row.page_faults_diff, 5);
    assert_eq!(row.commit_charge_kb, 2);
    assert_eq!(row.paged_pool_kb, 4);
    assert_eq!(row.nonpaged_pool_kb, 0);
    assert_eq!(row.handle_count, 9);
    assert_eq!(row.priority_class, NORMAL_PRIORITY_CLASS);
    assert_eq!(record, Some(sample(501_000, 501_000, 100, 15)));

    let idle = RawProcess {
        pid: 0,
        thread_count: 4,
        image_name: "System Idle Process".to_string(),
        listed_identity: None,
        identity_query: None,
        counters: None,
    };
    let (rows, records) = collect_process_entries(&vec![raw, idle], &previous, 1_000_000);
    assert_eq!(pids(&rows), vec![5, 0]);
    assert_eq!(rows[1].user_name, "SYSTEM");
    assert_eq!(rows[1].priority_class, NORMAL_PRIORITY_CLASS);
    assert_eq!(records.len(), 1);
    assert_eq!(records.get(&5), Some(&sample(501_000, 501_000, 100, 15)));
}

#[test]
fn wow_tasks_share_their_host_time() {
    let mut rows = vec![entry(1, "a.exe"), entry(100, "NTVDM.EXE"), entry(2, "ntvdm.exe")];
    assert_eq!(wow_host_indexes(&rows), vec![1, 2]);
    let previous = HashMap::new();
    let mut next: HashMap<u32, PreviousProcSample> = HashMap::new();
    next.insert(100, sample(9_000, 9_000, 100, 0));
    let mut left: u64 = 10_000;
    apply_wow_task(&mut rows, &mut next, &previous, 100_000, 1, 100, &mut left, 77, 3, "C:\\APPS\\GAME.EXE", 4_000);
    assert_eq!(left, 6_000);
    assert_eq!(rows.len(), 4);
    assert_eq!(rows[3].image_name, "  GAME.EXE");
    assert_eq!(rows[3].pid, 77);
    assert_eq!(rows[3].real_pid, 100);
    assert_eq!(rows[3].cpu, 4);
    assert!(rows[3].is_wow_task);
    assert_eq!(next.get(&77), Some(&sample(4_000, 4_000, 0, 0)));
    finish_wow_host(&mut rows, &mut next, &previous, 100_000, 1, 100, left);
    assert_eq!(rows[1].display_cpu_time_100ns, 6_000);
    assert_eq!(rows[1].cpu, 6);
    assert_eq!(next.get(&100), Some(&sample(9_000, 6_000, 100, 0)));
}
