use taskmgr::localization::UiLanguage;
use taskmgr::localization_terms::{
    adapter_state, network_column_titles, network_graph_labels, session_state, str_eq,
    user_column_titles, user_session_column_title,
};
use taskmgr::netadapters::{
    adapter_deltas, build_adapter, match_previous, net_graph_geometry, net_graph_in_range, net_history_in_range,
    net_history_points, net_scale_in_range,
    net_scale_geometry, sort_adapters_by_name, NetworkAdapterEntry, RawAdapter,
};
use taskmgr::netcalc::{
    adapter_key, adapter_name, adapter_state_text, first_visible_adapter, format_counter,
    graph_pane_index, graph_zoom, graphs_per_page, include_adapter, net_grid_lines, net_grid_square,
    net_history_scale, net_layout, net_layout_in_range, percent_label, scale_max, scaled_history_y, scroll_position, scroll_position_in_range,
    size_graph, size_graph_in_range, utilization_text, wide_array_to_string, SB_BOTTOM, SB_LINEDOWN, SB_LINEUP,
    SB_PAGEDOWN, SB_PAGEUP, SB_THUMBTRACK, SB_TOP,
};
use taskmgr::perfcalc::HIST_SIZE;
use taskmgr::winutil::Rect;

fn raw(key: &str, name: &str, sent: u64, received: u64) -> RawAdapter {
    RawAdapter {
        interface_index: 1,
        key: key.to_string(),
        name: name.to_string(),
        state: "Connected".to_string(),
        link_speed_bps: 1_000_000,
        bytes_sent: sent,
        bytes_received: received,
    }
}

fn listed(key: &str, name: &str) -> NetworkAdapterEntry {
    build_adapter(&raw(key, name, 0, 0), None, (0, 0, 0), "1 Mbps".to_string())
}

#[test]
fn graphs_fit_the_page() {
    assert_eq!(graphs_per_page(600, 3), 3);
    assert_eq!(graphs_per_page(100, 5), 1);
    assert_eq!(graphs_per_page(0, 3), 0);
    assert_eq!(graphs_per_page(500, 0), 0);
    assert_eq!(graphs_per_page(500, 10), 4);
    assert_eq!(first_visible_adapter(10, 4, 8), 6);
    assert_eq!(first_visible_adapter(10, 4, 2), 2);
    assert_eq!(first_visible_adapter(3, 4, 2), 0);
    assert_eq!(first_visible_adapter(0, 4, 2), 0);
    assert_eq!(graph_pane_index(1401, 2), Some(0));
    assert_eq!(graph_pane_index(1403, 2), None);
    assert_eq!(graph_pane_index(1400, 2), None);
}

#[test]
fn scroll_requests() {
    assert_eq!(scroll_position(SB_LINEDOWN, 2, 0, 6, 0, 4), 3);
    assert_eq!(scroll_position(SB_LINEUP, 0, 0, 6, 0, 4), 0);
    assert_eq!(scroll_position(SB_PAGEDOWN, 4, 0, 6, 0, 4), 6);
    assert_eq!(scroll_position(SB_PAGEUP, 5, 0, 6, 0, 4), 1);
    assert_eq!(scroll_position(SB_THUMBTRACK, 0, 0, 6, 5, 4), 5);
    assert_eq!(scroll_position(SB_TOP, 3, 0, 6, 0, 4), 0);
    assert_eq!(scroll_position(SB_BOTTOM, 3, 0, 6, 0, 4), 6);
    assert_eq!(scroll_position(99, 3, 0, 6, 0, 4), 3);
}

#[test]
fn adapter_texts() {
    assert_eq!(wide_array_to_string(&[0x20, 0x45, 0x74, 0x68, 0x20, 0, 0x41]), "Eth");
    assert_eq!(adapter_state_text(UiLanguage::EnUs, 1), "Connected");
    assert_eq!(adapter_state_text(UiLanguage::Fr, 2), "Déconnecté");
    assert_eq!(adapter_state_text(UiLanguage::EnUs, 42), "Unknown");
    assert_eq!(format_counter(1234567), "1,234,567");
    assert_eq!(format_counter(999), "999");
    assert_eq!(format_counter(1000), "1,000");
    assert_eq!(format_counter(0), "0");
    assert_eq!(format_counter(u64::MAX), "18,446,744,073,709,551,615");
    assert_eq!(percent_label(25), "25 %");
    assert_eq!(utilization_text(7), "7%");
    assert!(include_adapter(6));
    assert!(!include_adapter(24));
    assert!(!include_adapter(131));
    assert_eq!(adapter_name("Wi-Fi", "Intel"), "Wi-Fi");
    assert_eq!(adapter_name("", "Intel"), "Intel");
    assert_eq!(adapter_key(12, "Wi-Fi", "Intel"), "12|Wi-Fi|Intel");
}

#[test]
fn counter_text_without_commas_is_the_number() {
    for value in [0u64, 7, 1000, 65_536, 9_876_543_210] {
        let text = format_counter(value);
        assert_eq!(text.replace(',', ""), value.to_string());
    }
}

#[test]
fn zoom_and_scale() {
    assert_eq!(graph_zoom(0), 100);
    assert_eq!(graph_zoom(4), 20);
    assert_eq!(graph_zoom(24), 4);
    assert_eq!(graph_zoom(49), 2);
    assert_eq!(graph_zoom(50), 1);
    assert_eq!(scale_max(&vec![1, 9], &vec![30], &vec![]), 30);
    assert_eq!(scale_max(&vec![], &vec![], &vec![]), 0);
    assert_eq!(net_grid_square(1), 12);
    assert_eq!(net_grid_square(4), 27);
    assert_eq!(net_grid_square(100), 31);
    assert_eq!(scaled_history_y(100, 50, 0, 4), 99);
    assert_eq!(scaled_history_y(100, 50, 10, 4), 80);
    assert_eq!(scaled_history_y(100, 50, 90, 4), 50);
    assert_eq!(scaled_history_y(100, 50, 1, 1), 99);
    assert_eq!(net_history_scale(1), 1);
    assert_eq!(net_history_scale(6001), 3);
}

#[test]
fn adapters_match_by_key() {
    let previous = vec![listed("a", "A"), listed("b", "B"), listed("a", "A2")];
    let raws = vec![raw("a", "A", 0, 0), raw("c", "C", 0, 0), raw("a", "A", 0, 0), raw("b", "B", 0, 0)];
    assert_eq!(match_previous(&raws, &previous), vec![Some(2), None, None, Some(1)]);
}

#[test]
fn adapter_traffic_and_rows() {
    let mut prev = listed("k", "Eth");
    prev.current_sent = 100;
    prev.current_received = 500;
    let now = raw("k", "Eth", 150, 400);
    assert_eq!(adapter_deltas(&now, Some(&prev)), (50, 0, 50));
    assert_eq!(adapter_deltas(&now, None), (0, 0, 0));
    let big = raw("k", "Eth", u64::MAX, u64::MAX);
    assert_eq!(adapter_deltas(&big, Some(&prev)), (u64::MAX - 100, u64::MAX - 500, u64::MAX));

    let fresh = build_adapter(&now, None, (1, 2, 3), "1 Mbps".to_string());
    assert_eq!(fresh.sent_history.len(), HIST_SIZE);
    assert_eq!((fresh.sent_history[0], fresh.received_history[0], fresh.total_history[0]), (1, 2, 3));
    assert_eq!(fresh.utilization, "3%");
    assert_eq!(fresh.bytes_sent, "150");
    assert_eq!(fresh.bytes_total, "550");
    assert!(fresh.dirty);
    let again = build_adapter(&now, Some(&fresh), (4, 5, 3), "1 Mbps".to_string());
    assert_eq!(&again.sent_history[..2], &[4, 1]);
    assert!(!again.dirty);
    let changed = build_adapter(&now, Some(&again), (4, 5, 6), "1 Mbps".to_string());
    assert!(changed.dirty);
}

#[test]
fn adapters_sort_by_name() {
    let mut adapters = vec![listed("1", "Wi-Fi"), listed("2", "Ethernet"), listed("3", "Bluetooth")];
    sort_adapters_by_name(&mut adapters);
    let names: Vec<String> = adapters.iter().map(|a| a.name.clone()).collect();
    assert_eq!(names, vec!["Bluetooth", "Ethernet", "Wi-Fi"]);
}

#[test]
fn graph_parts() {
    let g = net_graph_geometry(&Rect { left: 0, top: 0, right: 200, bottom: 100 }, 40);
    assert_eq!(g.plot, Rect { left: 40, top: 0, right: 200, bottom: 100 });
    assert!(g.draw_plot);
    assert_eq!(g.utilization_text, Rect { left: 44, top: 4, right: 92, bottom: 16 });
    assert_eq!(g.total_label, Rect { left: 92, top: 4, right: 128, bottom: 16 });
    assert_eq!(g.received_label, Rect { left: 128, top: 4, right: 164, bottom: 16 });
    assert_eq!(g.sent_label, Rect { left: 164, top: 4, right: 196, bottom: 16 });
    assert_eq!(g.link_speed_text, Rect { left: 44, top: 86, right: 196, bottom: 98 });
    let narrow = net_graph_geometry(&Rect { left: 0, top: 0, right: 30, bottom: 100 }, 40);
    assert!(!narrow.draw_plot);
    assert_eq!(narrow.plot.left, 30);

    let s = net_scale_geometry(&Rect { left: 10, top: 0, right: 200, bottom: 100 }, [20, 35, 10, 5], [12, 14, 13, 0]);
    assert_eq!(s.divider_x, 45);
    assert_eq!(s.plot_offset, 38);
    assert_eq!(s.top_text, Rect { left: 10, top: 0, right: 42, bottom: 14 });
    assert_eq!(s.middle_text, Rect { left: 10, top: 43, right: 42, bottom: 57 });
    assert_eq!(s.bottom_text, Rect { left: 10, top: 86, right: 42, bottom: 100 });

    let points = net_history_points(&Rect { left: 0, top: 0, right: 4, bottom: 100 }, 50, &vec![10, 0, 90, 5, 5, 5], 4);
    assert_eq!(points, vec![(4, 80), (4, 80), (3, 99), (2, 50), (1, 90)]);
    assert!(net_history_points(&Rect { left: 0, top: 0, right: 4, bottom: 100 }, 50, &vec![], 4).is_empty());
}

#[test]
fn page_layout() {
    let band = size_graph(10, 20, 300, 150, 6, 20);
    assert_eq!((band.frame_left, band.frame_top, band.frame_width, band.frame_height), (10, 20, 300, 150));
    assert_eq!((band.graph_left, band.graph_top, band.graph_width, band.graph_height), (16, 40, 288, 124));
    let collapsed = size_graph(10, 20, 5, 5, 6, 20);
    assert_eq!((collapsed.graph_width, collapsed.graph_height), (0, 0));

    let parent = Rect { left: 0, top: 0, right: 600, bottom: 406 };
    assert!(net_layout_in_range(&parent, false, 6, 5));
    assert!(!net_layout_in_range(&parent, false, -1, 5));
    assert!(!net_layout_in_range(&Rect { left: 0, top: i32::MIN, right: 100, bottom: i32::MAX }, false, 6, 5));
    let l = net_layout(&parent, false, 6, 5);
    assert_eq!(l.graphs_per_page, 2);
    assert!(l.need_scrollbar);
    assert_eq!((l.graph_left, l.graph_top), (6, 6));
    assert_eq!(l.graph_width, 600 - 12 - 17 - 6);
    assert_eq!(l.graph_band_height, 150);
    assert_eq!(l.list_top, 306);
    assert_eq!((l.list_width, l.list_height), (588, 94));
    assert_eq!((l.scrollbar_x, l.scrollbar_y, l.scrollbar_height), (577, 6, 300));
    assert_eq!((l.label_y, l.label_width, l.label_height), (163, 600, 406));
    assert_eq!(l.scroll_max, 3);
    let empty = net_layout(&parent, true, 6, 0);
    assert_eq!((empty.graphs_per_page, empty.graph_band_height, empty.list_top), (0, 0, 0));
    assert!(!empty.need_scrollbar);
}

#[test]
fn localized_terms() {
    assert!(str_eq("abc", "abc"));
    assert!(!str_eq("abc", "abd"));
    assert_eq!(user_column_titles(UiLanguage::EnUs)[0], "User");
    assert_eq!(user_column_titles(UiLanguage::Fr)[0], "Utilisateur");
    assert_eq!(user_session_column_title(UiLanguage::EnUs), "Session");
    assert_eq!(network_column_titles(UiLanguage::Fr)[0], "Adaptateur");
    assert_eq!(network_graph_labels(UiLanguage::EnUs), ["Total", "Recv", "Sent"]);
    assert_eq!(adapter_state(UiLanguage::Fr, "Connected"), "Connecté");
    assert_eq!(adapter_state(UiLanguage::EnUs, "Bogus"), "Unknown");
    assert_eq!(session_state(UiLanguage::Fr, "Active"), "Actif");
    assert_eq!(session_state(UiLanguage::EnUs, "Idle"), "Idle");
}

#[test]
fn adapters_with_the_same_name_keep_their_order() {
    let mut adapters = vec![listed("b", "Ethernet"), listed("a", "Ethernet"), listed("c", "Bluetooth")];
    sort_adapters_by_name(&mut adapters);
    let keys: Vec<String> = adapters.iter().map(|a| a.key.clone()).collect();
    assert_eq!(keys, vec!["c", "b", "a"]);
}

#[test]
fn network_grid_lines_step_by_square() {
    let plot = Rect { left: 0, top: 0, right: 30, bottom: 40 };
    let (rows, columns) = net_grid_lines(&plot, 1, 2);
    assert_eq!(rows, vec![27, 15, 3]);
    assert_eq!(columns, vec![28, 16, 4]);
    let (rows, columns) = net_grid_lines(&plot, 100, 0);
    assert_eq!(rows, vec![8]);
    assert_eq!(columns, vec![30, 18, 6]);
}

#[test]
fn counter_groups_of_three() {
    assert_eq!(format_counter(1234567), "1,234,567");
    assert_eq!(format_counter(12345), "12,345");
    assert_eq!(format_counter(999), "999");
    assert_eq!(format_counter(0), "0");
}

#[test]
fn network_graph_range_checks() {
    let r = Rect { left: 0, top: 0, right: 200, bottom: 100 };
    assert!(net_graph_in_range(&r, 40));
    assert!(!net_graph_in_range(&Rect { left: 0, top: i32::MAX - 10, right: 200, bottom: i32::MAX }, 40));
    assert!(net_scale_in_range(&r, [20, 35, 10, 5], [12, 14, 13, 0]));
    assert!(!net_scale_in_range(&r, [20, -1, 10, 5], [12, 14, 13, 0]));
    let narrow = Rect { left: 0, top: 0, right: 4, bottom: 100 };
    assert!(net_history_in_range(&narrow, 50, &vec![10, 0, 90], 4));
    assert!(!net_history_in_range(&narrow, 0x7fff_ffff, &vec![10], 4));
    assert!(net_history_in_range(&narrow, 0x7fff_ffff, &vec![0, 0], 4));
    assert!(!net_history_in_range(&narrow, 50, &vec![10], 0));
}

#[test]
fn graph_band_and_scroll_range_checks() {
    assert!(size_graph(10, 20, 300, 150, 6, 20).graph_width == 288);
    assert!(size_graph_in_range(10, 20, 300, 150, 6, 20));
    assert!(!size_graph_in_range(10, i32::MAX - 5, 300, 150, 6, 20));
    assert!(scroll_position_in_range(3, 2));
    assert!(!scroll_position_in_range(i32::MAX, 2));
    assert!(!scroll_position_in_range(0, 0x8000_0000));
}
