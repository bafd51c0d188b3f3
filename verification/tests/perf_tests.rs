use taskmgr::perfcalc::{
    average_history, average_history_in_range, busy_percent, cpu_graph_control_id, cpu_graph_pane_index, is_graph_control,
    mem_percent, memory_figures, next_scroll_offset, push_history, refresh_cpu_histories, rgb,
    saturating_add_i64, saturating_sub_i64, share_percent, visible_cpu_graph_count, zero_history,
    CpuHistories, PerformanceInfo, ProcessorTimes, HIST_SIZE,
};
use taskmgr::perflayout::{
    graph_geometry, grid_lines, history_points, perf_layout, perf_layout_in_range, strip_chunks, strip_meter,
    strip_meter_in_range,
    PerfLayoutInput, Placement, StripMeter,
};
use taskmgr::winutil::Rect;

fn rect(left: i32, top: i32, right: i32, bottom: i32) -> Rect {
    Rect { left, top, right, bottom }
}

#[test]
fn history_shifts_newest_first() {
    let mut h = vec![1, 2, 3];
    push_history(&mut h, 9);
    assert_eq!(h, vec![9, 1, 2]);
    let mut empty: Vec<u8> = Vec::new();
    push_history(&mut empty, 9);
    assert!(empty.is_empty());
    assert_eq!(zero_history(3), vec![0, 0, 0]);
}

#[test]
fn averaged_history_counts_missing_samples_as_zero() {
    assert_eq!(average_history(&[vec![10, 20], vec![30, 41, 99]]), vec![20, 30]);
    assert_eq!(average_history(&[vec![10, 20, 5], vec![30]]), vec![20, 10, 2]);
    assert_eq!(average_history(&[vec![255, 200], vec![255, 100]]), vec![100, 100]);
    assert_eq!(average_history(&[]), Vec::<u8>::new());
    assert!(average_history_in_range(&[vec![10, 20], vec![30]]));
    assert!(average_history_in_range(&[]));
}

#[test]
fn percentages_of_intervals() {
    assert_eq!(busy_percent(25, 100), 75);
    assert_eq!(busy_percent(-10, 100), 100);
    assert_eq!(busy_percent(150, 100), 0);
    assert_eq!(busy_percent(5, 0), 0);
    assert_eq!(share_percent(50, 200), 25);
    assert_eq!(share_percent(-5, 100), 0);
    assert_eq!(share_percent(1, 3), 33);
    assert_eq!(saturating_add_i64(i64::MAX, 1), i64::MAX);
    assert_eq!(saturating_sub_i64(i64::MIN, 1), i64::MIN);
    assert_eq!(saturating_sub_i64(10, 3), 7);
}

#[test]
fn cpu_histories_take_one_sample_per_processor() {
    let mut h = CpuHistories::new(2);
    assert_eq!(h.cpu_history[1].len(), HIST_SIZE);
    let samples = vec![
        ProcessorTimes { idle_time: 50, kernel_time: 80, user_time: 20 },
        ProcessorTimes { idle_time: 0, kernel_time: 100, user_time: 0 },
    ];
    assert_eq!(refresh_cpu_histories(&mut h, &samples), (75, 65));
    assert_eq!((h.cpu_history[0][0], h.cpu_history[1][0]), (50, 100));
    assert_eq!((h.kernel_history[0][0], h.kernel_history[1][0]), (30, 100));
    assert_eq!(h.previous_idle_times, vec![50, 0]);
    assert_eq!(h.previous_kernel_times, vec![30, 100]);
    assert_eq!(h.previous_total_times, vec![100, 100]);
    let next = vec![
        ProcessorTimes { idle_time: 150, kernel_time: 180, user_time: 120 },
        ProcessorTimes { idle_time: 0, kernel_time: 100, user_time: 0 },
    ];
    assert_eq!(refresh_cpu_histories(&mut h, &next), (50, 0));
    assert_eq!(&h.cpu_history[0][..2], &[50, 50]);
    assert_eq!(&h.cpu_history[1][..2], &[0, 100]);
}

#[test]
fn memory_figures_in_kilobytes() {
    let perf = PerformanceInfo {
        page_size: 4096,
        physical_total: 1000,
        physical_available: 250,
        system_cache: 10,
        commit_total: 300,
        commit_limit: usize::MAX,
        commit_peak: 400,
        kernel_total: 20,
        kernel_paged: 15,
        kernel_nonpaged: 5,
        handle_count: 7,
        process_count: 8,
        thread_count: 9,
    };
    let m = memory_figures(&perf);
    assert_eq!((m.total_physical_kb, m.avail_physical_kb, m.physical_mem_usage_kb), (4000, 1000, 3000));
    assert_eq!(m.physical_mem_limit_kb, 4000);
    assert_eq!(m.file_cache_kb, 40);
    assert_eq!(m.commit_limit_kb, u32::MAX);
    assert_eq!((m.kernel_total_kb, m.kernel_paged_kb, m.kernel_nonpaged_kb), (80, 60, 20));
    assert_eq!((m.handle_count, m.process_count, m.thread_count), (7, 8, 9));
    let small = PerformanceInfo { page_size: 512, physical_available: 2000, ..perf };
    let m = memory_figures(&small);
    assert_eq!((m.total_physical_kb, m.avail_physical_kb, m.physical_mem_usage_kb), (1000, 2000, 0));
}

#[test]
fn memory_share() {
    assert_eq!(mem_percent(3000, 4000), 75);
    assert_eq!(mem_percent(0, 0), 0);
    assert_eq!(mem_percent(u32::MAX, 10), 100);
    assert_eq!(mem_percent(50_000_000, 100_000_000), 42);
}

#[test]
fn graph_panes_and_controls() {
    assert_eq!(visible_cpu_graph_count(1, 4), 4);
    assert_eq!(visible_cpu_graph_count(1, 0), 1);
    assert_eq!(visible_cpu_graph_count(1, 64), 32);
    assert_eq!(visible_cpu_graph_count(0, 8), 1);
    assert_eq!(cpu_graph_pane_index(1201), Some(0));
    assert_eq!(cpu_graph_pane_index(1232), Some(31));
    assert_eq!(cpu_graph_pane_index(1233), None);
    assert_eq!(cpu_graph_pane_index(1200), None);
    assert_eq!(cpu_graph_control_id(5), 1206);
    assert_eq!(cpu_graph_pane_index(cpu_graph_control_id(17)), Some(17));
    assert!(is_graph_control(1021) && is_graph_control(1024) && is_graph_control(1020));
    assert!(is_graph_control(1210));
    assert!(!is_graph_control(1000));
}

#[test]
fn scrolling_and_colors() {
    assert_eq!(next_scroll_offset(10), 0);
    assert_eq!(next_scroll_offset(3), 5);
    assert_eq!(next_scroll_offset(-7), -5);
    assert_eq!(rgb(255, 0, 0), 0xFF);
    assert_eq!(rgb(1, 2, 3), 0x030201);
}

#[test]
fn performance_page_layout() {
    let input = PerfLayoutInput {
        parent: rect(0, 0, 600, 400),
        no_title: false,
        pane_count: 2,
        base_x: 8,
        base_y: 16,
        master: rect(0, 280, 100, 300),
        top_frame: rect(0, 250, 100, 260),
        cpu_history_frame: rect(100, 10, 590, 150),
        cpu_usage_frame: rect(10, 10, 90, 150),
        cpu_meter: rect(18, 30, 78, 150),
        mem_bar_frame: rect(10, 160, 90, 300),
        mem_meter: rect(18, 180, 78, 300),
        mem_frame: rect(100, 160, 590, 300),
    };
    assert!(perf_layout_in_range(&input));
    assert!(!perf_layout_in_range(&PerfLayoutInput { pane_count: 0, ..input }));
    assert!(!perf_layout_in_range(&PerfLayoutInput { parent: rect(0, 0, 600, i32::MIN + 5), ..input }));
    let l = perf_layout(&input);
    assert_eq!((l.def_spacing, l.inner_spacing, l.top_spacing), (6, 4, 20));
    assert_eq!((l.dy, l.y_hist), (88, 160));
    assert_eq!((l.cpu_history_frame_width, l.cpu_usage_frame_width), (488, 80));
    assert_eq!(l.cpu_meter, Placement { x: 18, y: 30, width: 60, height: 132 });
    assert_eq!(l.mem_bar_frame, Placement { x: 10, y: 172, width: 80, height: 160 });
    assert_eq!(l.mem_meter, Placement { x: 18, y: 192, width: 60, height: 132 });
    assert_eq!(l.mem_frame, Placement { x: 100, y: 172, width: 488, height: 160 });
    assert_eq!(l.mem_graph, Placement { x: 108, y: 192, width: 472, height: 132 });
    assert_eq!(
        l.panes,
        vec![
            Placement { x: 108, y: 30, width: 234, height: 132 },
            Placement { x: 346, y: 30, width: 234, height: 132 },
        ]
    );
    let l = perf_layout(&PerfLayoutInput { no_title: true, ..input });
    assert_eq!(l.y_hist, 388);
}

#[test]
fn graph_geometry_and_lines() {
    let g = graph_geometry(&rect(0, 0, 2001, 101), true, 3000, 200, false);
    assert!(g.use_backbuffer);
    assert_eq!(g.target, rect(0, 0, 2001, 101));
    assert_eq!((g.width, g.height, g.graph_height, g.scale), (2001, 101, 100, 1));
    let g = graph_geometry(&rect(0, 0, 2001, 101), true, 3000, 200, true);
    assert_eq!(g.target, rect(0, 0, 3000, 101));
    let g = graph_geometry(&rect(10, 10, 110, 60), false, 0, 0, false);
    assert!(!g.use_backbuffer);
    assert_eq!(g.target, rect(10, 10, 110, 60));
    assert_eq!((g.graph_height, g.scale), (49, 2));

    let history = vec![50, 100, 0, 25];
    let (points, n) = history_points(100, 50, 40, 5, 2, &history, true);
    assert_eq!(n, 2);
    assert_eq!(points, vec![(100, 30), (100, 30), (98, 10)]);
    let (points, n) = history_points(100, 50, 40, 5, 2, &history, false);
    assert_eq!(n, 3);
    assert_eq!(points, vec![(100, 30), (100, 30), (98, 10), (96, 50)]);
    let (points, n) = history_points(100, 50, 40, 5, 2, &vec![], false);
    assert_eq!((points.len(), n), (0, 0));

    let (ys, xs) = grid_lines(&rect(0, 0, 50, 30), 50, 4);
    assert_eq!(ys, vec![11, 23]);
    assert_eq!(xs, vec![46, 34, 22, 10]);
}

#[test]
fn strip_meters() {
    assert_eq!(strip_chunks(160), vec![75, 75, 10]);
    assert_eq!(strip_chunks(150), vec![75, 75]);
    assert_eq!(strip_chunks(0), Vec::<i32>::new());
    assert_eq!(
        strip_meter(&rect(0, 0, 45, 100), 10, 6, 50, 20),
        Some(StripMeter { x_offset: 6, bar_height: 72, unlit_height: 36, lit_top: 42, lit_height: 22, red_top: 64, red_height: 14 })
    );
    assert_eq!(
        strip_meter(&rect(0, 0, 45, 100), 10, 6, 55, 20),
        Some(StripMeter { x_offset: 6, bar_height: 72, unlit_height: 33, lit_top: 39, lit_height: 25, red_top: 64, red_height: 14 })
    );
    assert_eq!(strip_meter(&rect(0, 0, 45, 20), 10, 6, 50, 20), None);
}

#[test]
fn strip_meter_range_checks() {
    assert!(strip_meter_in_range(&rect(0, 0, 45, 100), 10, 6, 50, 20));
    assert!(!strip_meter_in_range(&rect(0, 0, 45, 100), 10, 6, 101, 20));
    assert!(!strip_meter_in_range(&rect(0, i32::MIN, 45, i32::MAX), 10, 6, 50, 20));
    assert!(!strip_meter_in_range(&rect(0, 0, 45, 40_000_000), 10, 6, 100, 20));
}
