//! Network page refresh: recognizing the adapters of the previous refresh, advancing
//! their histories and texts, ordering them by name, and the geometry of their graphs.
use vstd::prelude::*;

use crate::netcalc::{format_counter, spec_counter_text, spec_scaled_y, utilization_text};
use crate::perfcalc::{push_history, spec_pushed, zero_history, HIST_SIZE};
use crate::procui::fits_i32;
use crate::sort::{adjacent_sorted, insertion_sort, stable_rearrangement, RowOrder};
use crate::strings::{chars_of, compare_chars, decimal, lemma_seq_order_antisymmetric, seq_order, SortOrder};
use crate::winutil::Rect;

verus! {

broadcast use vstd::string::group_string_axioms;

/// One adapter as the system reported it in this refresh.
pub struct RawAdapter {
    pub interface_index: u32,
    pub key: String,
    pub name: String,
    pub state: String,
    pub link_speed_bps: u64,
    pub bytes_sent: u64,
    pub bytes_received: u64,
}

/// One listed adapter: its texts, counters and graph histories.
pub struct NetworkAdapterEntry {
    pub interface_index: u32,
    pub key: String,
    pub name: String,
    pub state: String,
    pub link_speed: String,
    pub utilization: String,
    pub bytes_sent: String,
    pub bytes_received: String,
    pub bytes_total: String,
    pub current_sent: u64,
    pub current_received: u64,
    pub sent_history: Vec<u8>,
    pub received_history: Vec<u8>,
    pub total_history: Vec<u8>,
    /// Its row's texts changed since the list last showed it.
    pub dirty: bool,
}

/// Index of the last previous adapter with `key`, if any.
pub open spec fn last_with_key(previous: Seq<NetworkAdapterEntry>, key: Seq<char>, n: int) -> Option<int>
    decreases n,
{
    if n <= 0 {
        None
    } else if previous[n - 1].key@ == key {
        Some(n - 1)
    } else {
        last_with_key(previous, key, n - 1)
    }
}

/// The previous adapter a new report continues: the last one with its key, unless an
/// earlier report of this refresh with the same key already took it.
pub open spec fn spec_match(raws: Seq<RawAdapter>, previous: Seq<NetworkAdapterEntry>, j: int) -> Option<int> {
    if exists|i: int| 0 <= i < j && #[trigger] raws[i].key@ == raws[j].key@ {
        None
    } else {
        last_with_key(previous, raws[j].key@, previous.len() as int)
    }
}

fn str_eq_string(a: &String, b: &String) -> (r: bool)
    ensures
        r == (a@ == b@),
{
    crate::localization_terms::str_eq(a.as_str(), b.as_str())
}

fn find_last_key(previous: &Vec<NetworkAdapterEntry>, key: &String) -> (r: Option<usize>)
    ensures
        match r {
            Some(i) => last_with_key(previous@, key@, previous@.len() as int) == Some(i as int),
            None => last_with_key(previous@, key@, previous@.len() as int) is None,
        },
{
    let mut n = previous.len();
    while n > 0
        invariant
            n <= previous@.len(),
            last_with_key(previous@, key@, previous@.len() as int) == last_with_key(previous@, key@, n as int),
        decreases n,
    {
        if str_eq_string(&previous[n - 1].key, key) {
            return Some(n - 1);
        }
        n -= 1;
    }
    None
}

/// For each report, the previous adapter it continues.
pub fn match_previous(raws: &Vec<RawAdapter>, previous: &Vec<NetworkAdapterEntry>) -> (r: Vec<Option<usize>>)
    ensures
        r@.len() == raws@.len(),
        forall|j: int| 0 <= j < raws@.len() ==> match #[trigger] r@[j] {
            Some(i) => spec_match(raws@, previous@, j) == Some(i as int),
            None => spec_match(raws@, previous@, j) is None,
        },
{
    let mut out: Vec<Option<usize>> = Vec::new();
    let mut j: usize = 0;
    while j < raws.len()
        invariant
            j <= raws@.len(),
            out@.len() == j,
            forall|k: int| 0 <= k < j ==> match #[trigger] out@[k] {
                Some(i) => spec_match(raws@, previous@, k) == Some(i as int),
                None => spec_match(raws@, previous@, k) is None,
            },
        decreases raws.len() - j,
    {
        let mut seen = false;
        let mut i: usize = 0;
        while i < j
            invariant
                i <= j,
                j < raws@.len(),
                seen == exists|k: int| 0 <= k < i && #[trigger] raws@[k].key@ == raws@[j as int].key@,
            decreases j - i,
        {
            if str_eq_string(&raws[i].key, &raws[j].key) {
                seen = true;
            }
            i += 1;
        }
        if seen {
            out.push(None);
        } else {
            out.push(find_last_key(previous, &raws[j].key));
        }
        j += 1;
    }
    out
}

/// Bytes sent, received and both since the previous refresh (0 for a new adapter).
pub open spec fn spec_deltas(raw: RawAdapter, previous: Option<NetworkAdapterEntry>) -> (u64, u64, u64) {
    match previous {
        Some(p) => {
            let s = if raw.bytes_sent >= p.current_sent { (raw.bytes_sent - p.current_sent) as u64 } else { 0 };
            let r = if raw.bytes_received >= p.current_received { (raw.bytes_received - p.current_received) as u64 } else { 0 };
            (s, r, if s + r > u64::MAX { u64::MAX } else { (s + r) as u64 })
        },
        None => (0, 0, 0),
    }
}

/// The traffic of an adapter since the previous refresh.
pub fn adapter_deltas(raw: &RawAdapter, previous: Option<&NetworkAdapterEntry>) -> (r: (u64, u64, u64))
    ensures
        r == spec_deltas(*raw, match previous { Some(p) => Some(*p), None => None }),
{
    match previous {
        Some(p) => {
            let s = raw.bytes_sent.saturating_sub(p.current_sent);
            let r = raw.bytes_received.saturating_sub(p.current_received);
            (s, r, s.saturating_add(r))
        },
        None => (0, 0, 0),
    }
}

fn copy_history(h: &Vec<u8>) -> (r: Vec<u8>)
    ensures
        r@ == h@,
{
    let mut out: Vec<u8> = Vec::new();
    let mut i: usize = 0;
    while i < h.len()
        invariant
            i <= h@.len(),
            out@ == h@.subrange(0, i as int),
        decreases h.len() - i,
    {
        out.push(h[i]);
        i += 1;
        assert(out@ =~= h@.subrange(0, i as int));
    }
    assert(out@ =~= h@);
    out
}

/// A history to continue: the previous adapter's, or zeros for a new adapter.
pub open spec fn base_history(previous: Option<Seq<u8>>) -> Seq<u8> {
    match previous {
        Some(h) => h,
        None => Seq::new(HIST_SIZE as nat, |_i: int| 0u8),
    }
}

/// The listed adapter a report makes, given the previous adapter it continues, the
/// utilizations of its traffic (sent, received, total) and its link speed's text.
pub open spec fn spec_adapter_entry(
    e: NetworkAdapterEntry,
    raw: RawAdapter,
    previous: Option<NetworkAdapterEntry>,
    utilization: (u8, u8, u8),
    link_speed: Seq<char>,
) -> bool {
    let bytes_total = if raw.bytes_sent + raw.bytes_received > u64::MAX { u64::MAX } else { (raw.bytes_sent + raw.bytes_received) as u64 };
    &&& e.interface_index == raw.interface_index
    &&& e.key@ == raw.key@
    &&& e.name@ == raw.name@
    &&& e.state@ == raw.state@
    &&& e.link_speed@ == link_speed
    &&& e.utilization@ == decimal(utilization.2 as nat) + seq!['%']
    &&& e.bytes_sent@ == spec_counter_text(raw.bytes_sent)
    &&& e.bytes_received@ == spec_counter_text(raw.bytes_received)
    &&& e.bytes_total@ == spec_counter_text(bytes_total)
    &&& e.current_sent == raw.bytes_sent
    &&& e.current_received == raw.bytes_received
    &&& e.sent_history@ == spec_pushed(base_history(match previous { Some(p) => Some(p.sent_history@), None => None }), utilization.0)
    &&& e.received_history@ == spec_pushed(base_history(match previous { Some(p) => Some(p.received_history@), None => None }), utilization.1)
    &&& e.total_history@ == spec_pushed(base_history(match previous { Some(p) => Some(p.total_history@), None => None }), utilization.2)
    &&& e.dirty == match previous {
        Some(p) => p.name@ != e.name@ || p.state@ != e.state@ || p.link_speed@ != e.link_speed@
            || p.utilization@ != e.utilization@ || p.bytes_sent@ != e.bytes_sent@
            || p.bytes_received@ != e.bytes_received@ || p.bytes_total@ != e.bytes_total@,
        None => true,
    }
}

/// Makes the listed adapter of one report.
pub fn build_adapter(
    raw: &RawAdapter,
    previous: Option<&NetworkAdapterEntry>,
    utilization: (u8, u8, u8),
    link_speed: String,
) -> (r: NetworkAdapterEntry)
    ensures
        spec_adapter_entry(r, *raw, match previous { Some(p) => Some(*p), None => None }, utilization, link_speed@),
{
    let (sent_util, received_util, total_util) = utilization;
    let mut sent_history = match previous { Some(p) => copy_history(&p.sent_history), None => zero_history(HIST_SIZE) };
    let mut received_history = match previous { Some(p) => copy_history(&p.received_history), None => zero_history(HIST_SIZE) };
    let mut total_history = match previous { Some(p) => copy_history(&p.total_history), None => zero_history(HIST_SIZE) };
    push_history(&mut sent_history, sent_util);
    push_history(&mut received_history, received_util);
    push_history(&mut total_history, total_util);
    let bytes_total = raw.bytes_sent.saturating_add(raw.bytes_received);
    let mut adapter = NetworkAdapterEntry {
        interface_index: raw.interface_index,
        key: raw.key.clone(),
        name: raw.name.clone(),
        state: raw.state.clone(),
        link_speed,
        utilization: utilization_text(total_util),
        bytes_sent: format_counter(raw.bytes_sent),
        bytes_received: format_counter(raw.bytes_received),
        bytes_total: format_counter(bytes_total),
        current_sent: raw.bytes_sent,
        current_received: raw.bytes_received,
        sent_history,
        received_history,
        total_history,
        dirty: true,
    };
    if let Some(p) = previous {
        adapter.dirty = !str_eq_string(&p.name, &adapter.name) || !str_eq_string(&p.state, &adapter.state)
            || !str_eq_string(&p.link_speed, &adapter.link_speed)
            || !str_eq_string(&p.utilization, &adapter.utilization)
            || !str_eq_string(&p.bytes_sent, &adapter.bytes_sent)
            || !str_eq_string(&p.bytes_received, &adapter.bytes_received)
            || !str_eq_string(&p.bytes_total, &adapter.bytes_total);
    }
    adapter
}

/// The adapters in name order, by code point.
pub struct AdapterNameOrder;

impl RowOrder<NetworkAdapterEntry> for AdapterNameOrder {
    open spec fn spec_order(&self, a: NetworkAdapterEntry, b: NetworkAdapterEntry) -> SortOrder {
        seq_order(a.name@, b.name@)
    }

    fn order(&self, a: &NetworkAdapterEntry, b: &NetworkAdapterEntry) -> (r: SortOrder) {
        let ca = chars_of(a.name.as_str());
        let cb = chars_of(b.name.as_str());
        compare_chars(&ca, &cb)
    }

    proof fn lemma_antisymmetric(&self, a: NetworkAdapterEntry, b: NetworkAdapterEntry) {
        lemma_seq_order_antisymmetric(a.name@, b.name@);
    }
}

/// Orders the adapters by name: the same adapters, none named after the one that follows it,
/// and adapters with equal names keep their relative order.
pub fn sort_adapters_by_name(adapters: &mut Vec<NetworkAdapterEntry>)
    ensures
        final(adapters)@.to_multiset() == old(adapters)@.to_multiset(),
        final(adapters)@.len() == old(adapters)@.len(),
        forall|i: int| 0 <= i < final(adapters)@.len() - 1
            ==> #[trigger] seq_order(final(adapters)@[i].name@, final(adapters)@[i + 1].name@) != SortOrder::Greater,
        stable_rearrangement(
            |a: NetworkAdapterEntry, b: NetworkAdapterEntry| seq_order(a.name@, b.name@),
            old(adapters)@,
            final(adapters)@,
        ),
{
    let order = AdapterNameOrder;
    insertion_sort(&order, adapters);
    proof {
        assert((|a: NetworkAdapterEntry, b: NetworkAdapterEntry| order.spec_order(a, b)) =~= (|a: NetworkAdapterEntry, b: NetworkAdapterEntry| seq_order(a.name@, b.name@)));
        assert(adjacent_sorted(&order, adapters@));
        assert forall|i: int| 0 <= i < adapters@.len() - 1
            implies #[trigger] seq_order(adapters@[i].name@, adapters@[i + 1].name@) != SortOrder::Greater by {
            assert(order.spec_order(adapters@[i], adapters@[i + 1]) != SortOrder::Greater);
        }
    }
}

/// Where the parts of one network graph go.
#[derive(Clone, Copy, PartialEq, Eq, Structural, Debug)]
pub struct NetGraphGeometry {
    /// The plotting area, right of the scale.
    pub plot: Rect,
    /// Whether the plotting area has any width.
    pub draw_plot: bool,
    pub utilization_text: Rect,
    pub total_label: Rect,
    pub received_label: Rect,
    pub sent_label: Rect,
    pub link_speed_text: Rect,
}

/// Every value that `net_graph_geometry` computes fits in an `i32`.
pub open spec fn net_graph_fits(rect: Rect, plot_left: int) -> bool {
    let pl = if rect.left + plot_left < rect.right { rect.left + plot_left } else { rect.right as int };
    &&& fits_i32(rect.left + plot_left)
    &&& rect.top + 16 <= i32::MAX
    &&& rect.right - 108 >= i32::MIN
    &&& rect.bottom - 14 >= i32::MIN
    &&& pl + 52 <= i32::MAX
}

/// Whether `net_graph_geometry` can lay out a graph for these arguments.
pub fn net_graph_in_range(rect: &Rect, plot_left: i32) -> (r: bool)
    ensures
        r == net_graph_fits(*rect, plot_left as int),
{
    let start = rect.left as i64 + plot_left as i64;
    let pl = if start < rect.right as i64 { start } else { rect.right as i64 };
    -0x8000_0000i64 <= start && start <= 0x7fff_ffffi64
        && rect.top as i64 + 16 <= 0x7fff_ffffi64
        && rect.right as i64 - 108 >= -0x8000_0000i64
        && rect.bottom as i64 - 14 >= -0x8000_0000i64
        && pl + 52 <= 0x7fff_ffffi64
}

/// Lays out one network graph, given the width the scale takes.
pub fn net_graph_geometry(rect: &Rect, plot_left: i32) -> (r: NetGraphGeometry)
    requires
        net_graph_fits(*rect, plot_left as int),
    ensures
        ({
            let pl = if rect.left + plot_left < rect.right { rect.left + plot_left } else { rect.right as int };
            let top = rect.top + 4;
            let mx = |v: int| if v > pl { v } else { pl };
            &&& r.plot == (Rect { left: pl as i32, top: rect.top, right: rect.right, bottom: rect.bottom })
            &&& r.draw_plot == (rect.right > pl)
            &&& r.utilization_text == (Rect {
                left: (pl + 4) as i32,
                top: top as i32,
                right: (if pl + 52 < rect.right { pl + 52 } else { rect.right as int }) as i32,
                bottom: (top + 12) as i32,
            })
            &&& r.total_label == (Rect { left: mx(rect.right - 108) as i32, top: top as i32, right: mx(rect.right - 72) as i32, bottom: (top + 12) as i32 })
            &&& r.received_label == (Rect { left: mx(rect.right - 72) as i32, top: top as i32, right: mx(rect.right - 36) as i32, bottom: (top + 12) as i32 })
            &&& r.sent_label == (Rect { left: mx(rect.right - 36) as i32, top: top as i32, right: (rect.right - 4) as i32, bottom: (top + 12) as i32 })
            &&& r.link_speed_text == (Rect {
                left: (pl + 4) as i32,
                top: (rect.bottom - 14) as i32,
                right: (rect.right - 4) as i32,
                bottom: (rect.bottom - 2) as i32,
            })
        }),
{
    let pl = if rect.left + plot_left < rect.right { rect.left + plot_left } else { rect.right };
    let top = rect.top + 4;
    let m108 = if rect.right - 108 > pl { rect.right - 108 } else { pl };
    let m72 = if rect.right - 72 > pl { rect.right - 72 } else { pl };
    let m36 = if rect.right - 36 > pl { rect.right - 36 } else { pl };
    NetGraphGeometry {
        plot: Rect { left: pl, top: rect.top, right: rect.right, bottom: rect.bottom },
        draw_plot: rect.right > pl,
        utilization_text: Rect {
            left: pl + 4,
            top,
            right: if pl + 52 < rect.right { pl + 52 } else { rect.right },
            bottom: top + 12,
        },
        total_label: Rect { left: m108, top, right: m72, bottom: top + 12 },
        received_label: Rect { left: m72, top, right: m36, bottom: top + 12 },
        sent_label: Rect { left: m36, top, right: rect.right - 4, bottom: top + 12 },
        link_speed_text: Rect { left: pl + 4, top: rect.bottom - 14, right: rect.right - 4, bottom: rect.bottom - 2 },
    }
}

/// Where the scale of a network graph goes, given the measured sizes of its texts.
#[derive(Clone, Copy, PartialEq, Eq, Structural, Debug)]
pub struct NetScaleGeometry {
    pub divider_x: i32,
    pub top_text: Rect,
    pub middle_text: Rect,
    pub bottom_text: Rect,
    /// Width the scale takes, divider included.
    pub plot_offset: i32,
}

/// The measured sizes are not negative, and every value that `net_scale_geometry`
/// computes fits in an `i32`.
pub open spec fn net_scale_fits(rect: Rect, w: Seq<i32>, h: Seq<i32>) -> bool {
    let sw = max4(w[0] as int, w[1] as int, w[2] as int, w[3] as int);
    let sh = max4(h[0] as int, h[1] as int, h[2] as int, h[3] as int);
    &&& w.len() == 4 && h.len() == 4
    &&& w[0] >= 0 && w[1] >= 0 && w[2] >= 0 && w[3] >= 0
    &&& h[0] >= 0 && h[1] >= 0 && h[2] >= 0 && h[3] >= 0
    &&& fits_i32(rect.left + sw) && fits_i32(rect.left + sw - 3) && fits_i32(sw + 3)
    &&& fits_i32(rect.top + sh) && fits_i32(rect.bottom - sh)
    &&& fits_i32(rect.bottom - rect.top)
    &&& fits_i32(rect.bottom - rect.top - sh) && fits_i32(rect.bottom - rect.top + sh)
    &&& fits_i32(rect.top + crate::perfcalc::trunc_div(rect.bottom - rect.top - sh, 2))
    &&& fits_i32(rect.top + crate::perfcalc::trunc_div(rect.bottom - rect.top + sh, 2))
}

/// Half of `a`, rounded toward zero.
fn half_toward_zero(a: i64) -> (r: i64)
    requires
        a > i64::MIN,
    ensures
        r == crate::perfcalc::trunc_div(a as int, 2),
{
    if a >= 0 { a / 2 } else { -((-a) / 2) }
}

/// Whether `net_scale_geometry` can lay out a scale for these sizes.
pub fn net_scale_in_range(rect: &Rect, widths: [i32; 4], heights: [i32; 4]) -> (r: bool)
    ensures
        r == net_scale_fits(*rect, widths@, heights@),
{
    let sw = max_i32(max_i32(widths[0], widths[1]), max_i32(widths[2], widths[3])) as i64;
    let sh = max_i32(max_i32(heights[0], heights[1]), max_i32(heights[2], heights[3])) as i64;
    let left = rect.left as i64;
    let top = rect.top as i64;
    let bottom = rect.bottom as i64;
    let ok = |x: i64| -> (b: bool)
        ensures
            b == fits_i32(x as int),
        { -0x8000_0000i64 <= x && x <= 0x7fff_ffffi64 };
    widths[0] >= 0 && widths[1] >= 0 && widths[2] >= 0 && widths[3] >= 0
        && heights[0] >= 0 && heights[1] >= 0 && heights[2] >= 0 && heights[3] >= 0
        && ok(left + sw) && ok(left + sw - 3) && ok(sw + 3) && ok(top + sh) && ok(bottom - sh)
        && ok(bottom - top) && ok(bottom - top - sh) && ok(bottom - top + sh)
        && ok(top + half_toward_zero(bottom - top - sh)) && ok(top + half_toward_zero(bottom - top + sh))
}

/// Lays out a network graph's scale from the widths and heights of its texts.
pub fn net_scale_geometry(rect: &Rect, widths: [i32; 4], heights: [i32; 4]) -> (r: NetScaleGeometry)
    requires
        net_scale_fits(*rect, widths@, heights@),
    ensures
        ({
            let w = widths@;
            let h = heights@;
            let sw = crate::netadapters::max4(w[0] as int, w[1] as int, w[2] as int, w[3] as int);
            let sh = crate::netadapters::max4(h[0] as int, h[1] as int, h[2] as int, h[3] as int);
            let d = rect.left + sw;
            &&& r.divider_x == d
            &&& r.top_text == (Rect { left: rect.left, top: rect.top, right: (d - 3) as i32, bottom: (rect.top + sh) as i32 })
            &&& r.middle_text == (Rect {
                left: rect.left,
                top: (rect.top + crate::perfcalc::trunc_div(rect.bottom - rect.top - sh, 2)) as i32,
                right: (d - 3) as i32,
                bottom: (rect.top + crate::perfcalc::trunc_div(rect.bottom - rect.top + sh, 2)) as i32,
            })
            &&& r.bottom_text == (Rect { left: rect.left, top: (rect.bottom - sh) as i32, right: (d - 3) as i32, bottom: rect.bottom })
            &&& r.plot_offset == sw + 3
        }),
{
    let sw = max_i32(max_i32(widths[0], widths[1]), max_i32(widths[2], widths[3]));
    let sh = max_i32(max_i32(heights[0], heights[1]), max_i32(heights[2], heights[3]));
    let d = rect.left + sw;
    let a = rect.bottom - rect.top - sh;
    let b = rect.bottom - rect.top + sh;
    let ha = half_toward_zero(a as i64) as i32;
    let hb = half_toward_zero(b as i64) as i32;
    NetScaleGeometry {
        divider_x: d,
        top_text: Rect { left: rect.left, top: rect.top, right: d - 3, bottom: rect.top + sh },
        middle_text: Rect { left: rect.left, top: rect.top + ha, right: d - 3, bottom: rect.top + hb },
        bottom_text: Rect { left: rect.left, top: rect.bottom - sh, right: d - 3, bottom: rect.bottom },
        plot_offset: sw + 3,
    }
}

/// The largest of four numbers.
pub open spec fn max4(a: int, b: int, c: int, d: int) -> int {
    let ab = if a > b { a } else { b };
    let cd = if c > d { c } else { d };
    if ab > cd { ab } else { cd }
}

fn max_i32(a: i32, b: i32) -> (r: i32)
    ensures
        r == (if a > b { a } else { b }),
{
    if a > b { a } else { b }
}

/// Pixels per sample on a network graph in `rect`: at least one.
pub open spec fn spec_history_scale(rect: Rect) -> int {
    let w = rect.right - rect.left;
    let width = if w > 1 { w } else { 1 };
    let s = (width - 1) / 2000;
    if s > 1 { s } else { 1 }
}

/// Every value that `net_history_points` computes fits in an `i32`: in particular the
/// magnified height of each sample that is drawn.
pub open spec fn net_history_fits(rect: Rect, graph_height: i32, history: Seq<u8>, zoom: u32) -> bool {
    let w = rect.right - rect.left;
    let width = if w > 1 { w } else { 1 };
    &&& fits_i32(rect.right - rect.left)
    &&& fits_i32(rect.bottom - 1) && fits_i32(rect.bottom - graph_height)
    &&& forall|k: int| 0 <= k < history.len() && k * spec_history_scale(rect) < width
        ==> fits_i32(#[trigger] history[k] as int * graph_height * zoom)
}

/// Whether `net_history_points` can draw this history.
pub fn net_history_in_range(rect: &Rect, graph_height: i32, history: &Vec<u8>, zoom: u32) -> (r: bool)
    ensures
        r == (graph_height >= 1 && 1 <= zoom <= 100 && net_history_fits(*rect, graph_height, history@, zoom)),
{
    if graph_height < 1 || zoom < 1 || zoom > 100 {
        return false;
    }
    let w = rect.right as i64 - rect.left as i64;
    let bottom = rect.bottom as i64;
    if !(-0x8000_0000i64 <= w && w <= 0x7fff_ffffi64 && bottom - 1 >= -0x8000_0000i64
        && bottom - graph_height as i64 >= -0x8000_0000i64 && bottom - graph_height as i64 <= 0x7fff_ffffi64) {
        return false;
    }
    let width: i64 = if w > 1 { w } else { 1 };
    let s = (width - 1) / 2000;
    let scale: i64 = if s > 1 { s } else { 1 };
    assert(scale == spec_history_scale(*rect));
    let limit: usize = if (width as usize) < history.len() { width as usize } else { history.len() };
    let mut k: usize = 0;
    while k < limit
        invariant
            k <= limit,
            limit <= history@.len(),
            limit <= width,
            graph_height >= 1,
            1 <= zoom <= 100,
            scale == spec_history_scale(*rect),
            1 <= scale <= width,
            width == (if rect.right - rect.left > 1 { rect.right - rect.left } else { 1int }),
            1 <= width <= 0x7fff_ffff,
            forall|j: int| 0 <= j < k && j * spec_history_scale(*rect) < width
                ==> fits_i32(#[trigger] history@[j] as int * graph_height * zoom),
        decreases limit - k,
    {
        assert(0 <= k as int * scale <= 0x7fff_ffff * 0x7fff_ffff) by (nonlinear_arith)
            requires 0 <= k < width, 1 <= scale <= width, width <= 0x7fff_ffff;
        assert(0 <= history@[k as int] as int * graph_height * zoom <= 255 * 0x7fff_ffff * 100) by (nonlinear_arith)
            requires 1 <= graph_height <= 0x7fff_ffff, 1 <= zoom <= 100, 0 <= history@[k as int] <= 255;
        assert(0 <= history@[k as int] as int * graph_height <= 255 * 0x7fff_ffff) by (nonlinear_arith)
            requires 1 <= graph_height <= 0x7fff_ffff, 0 <= history@[k as int] <= 255;
        let step = k as i64 * scale;
        let product = history[k] as i64 * graph_height as i64 * zoom as i64;
        if step < width && product > 0x7fff_ffffi64 {
            assert(!fits_i32(history@[k as int] as int * graph_height * zoom));
            return false;
        }
        k += 1;
    }
    assert forall|j: int| 0 <= j < history@.len() && j * spec_history_scale(*rect) < width
        implies fits_i32(#[trigger] history@[j] as int * graph_height * zoom) by {
        if j >= limit {
            assert(j * scale >= j) by (nonlinear_arith) requires scale >= 1, j >= 0;
        }
    }
    true
}

/// The points of a network history's line: from the right edge at the newest sample,
/// one point per sample while inside the width, `scale` pixels further left each.
pub fn net_history_points(rect: &Rect, graph_height: i32, history: &Vec<u8>, zoom: u32) -> (r: Vec<(i32, i32)>)
    requires
        graph_height >= 1,
        1 <= zoom <= 100,
        net_history_fits(*rect, graph_height, history@, zoom),
    ensures
        ({
            let w = rect.right - rect.left;
            let width = if w > 1 { w } else { 1 };
            let s = (width - 1) / 2000;
            let scale = if s > 1 { s } else { 1 };
            let count = if history@.len() == 0 { 0 } else {
                let c = (width + scale - 1) / scale;
                if c < history@.len() { c } else { history@.len() as int }
            };
            &&& history@.len() == 0 ==> r@.len() == 0
            &&& history@.len() > 0 ==> r@.len() == count + 1
                && r@[0] == (rect.right, spec_scaled_y(rect.bottom, graph_height, history@[0], zoom) as i32)
                && forall|k: int| 0 <= k < count ==> #[trigger] r@[k + 1]
                    == ((rect.right - k * scale) as i32, spec_scaled_y(rect.bottom, graph_height, history@[k], zoom) as i32)
        }),
{
    let mut points: Vec<(i32, i32)> = Vec::new();
    if history.len() == 0 {
        return points;
    }
    let w = rect.right as i64 - rect.left as i64;
    let width: i64 = if w > 1 { w } else { 1 };
    let s = (width - 1) / 2000;
    let scale: i64 = if s > 1 { s } else { 1 };
    assert(scale == spec_history_scale(*rect));
    let c = (width + scale - 1) / scale;
    assert(1 <= c <= width + scale) by (nonlinear_arith)
        requires c == (width + scale - 1) / (scale as int), scale >= 1, width >= 1;
    let count: usize = if (c as usize) < history.len() { c as usize } else { history.len() };
    assert(0 * scale < width);
    assert(fits_i32(history@[0] as int * graph_height * zoom));
    assert(0 <= history@[0] as int * graph_height <= history@[0] as int * graph_height * zoom) by (nonlinear_arith)
        requires graph_height >= 1, zoom >= 1;
    let y0 = crate::netcalc::scaled_history_y(rect.bottom, graph_height, history[0], zoom);
    points.push((rect.right, y0));
    let mut index: usize = 0;
    while index < count
        invariant
            count <= history@.len(),
            count <= c,
            c == (width + scale - 1) / (scale as int),
            1 <= scale <= width,
            scale == spec_history_scale(*rect),
            width == (if rect.right - rect.left > 1 { rect.right - rect.left } else { 1int }),
            1 <= width <= 0x7fff_ffff,
            graph_height >= 1,
            1 <= zoom <= 100,
            net_history_fits(*rect, graph_height, history@, zoom),
            index <= count,
            points@.len() == index + 1,
            points@[0] == (rect.right, spec_scaled_y(rect.bottom, graph_height, history@[0], zoom) as i32),
            forall|k: int| 0 <= k < index ==> #[trigger] points@[k + 1]
                == ((rect.right - k * scale) as i32, spec_scaled_y(rect.bottom, graph_height, history@[k], zoom) as i32),
        decreases count - index,
    {
        let value = history[index];
        assert(0 <= index as int * scale < width) by (nonlinear_arith)
            requires index < c, c == (width + scale - 1) / (scale as int), scale >= 1, width >= 1;
        assert(fits_i32(value as int * graph_height * zoom));
        assert(0 <= value as int * graph_height <= value as int * graph_height * zoom) by (nonlinear_arith)
            requires graph_height >= 1, zoom >= 1, value >= 0;
        let x = rect.right as i64 - (index as i64) * scale;
        let y = crate::netcalc::scaled_history_y(rect.bottom, graph_height, value, zoom);
        points.push((x as i32, y));
        index += 1;
    }
    points
}

} // verus!
