//! Network page: paging of the adapter graphs, the graph scale, the text of the
//! counters, and where the page's controls and graph parts go.
use vstd::prelude::*;

use crate::localization::{table_text, text, UiLanguage};
use crate::localization_terms::{adapter_state, spec_adapter_state_key};
use crate::perfcalc::trunc_div;
use crate::proctext::{before_nul, utf16_buffer_to_string};
use crate::procui::fits_i32;
use crate::resource::IDC_NICGRAPH;
use crate::strings::{chars_of, decimal, decimal_chars, spec_trim, string_from_chars, trim_chars};
use crate::text_key::TextKey;
use crate::winutil::{utf16_lossy, Rect};

verus! {

broadcast use vstd::string::group_string_axioms;

/// Smallest height a network graph gets before the graphs are paged.
pub const MIN_GRAPH_HEIGHT: i32 = 120;
/// Width of the graphs' scroll bar.
pub const SCROLLBAR_WIDTH: i32 = 17;

/// How many adapter graphs fit on one page: as many as the height holds at the larger of
/// an even share and the minimum height, at least one; none without height or adapters.
pub open spec fn spec_graphs_per_page(graph_height: i32, adapter_count: usize) -> usize {
    if graph_height <= 0 || adapter_count == 0 {
        0
    } else {
        let share = (graph_height as int) / (adapter_count as int);
        let average = if share > MIN_GRAPH_HEIGHT { share } else { MIN_GRAPH_HEIGHT as int };
        if graph_height > average {
            let n = (graph_height as int) / average;
            (if n > 1 { n } else { 1 }) as usize
        } else {
            1
        }
    }
}

/// How many adapter graphs fit on one page.
pub fn graphs_per_page(graph_height: i32, adapter_count: usize) -> (r: usize)
    requires
        adapter_count <= i32::MAX,
    ensures
        r == spec_graphs_per_page(graph_height, adapter_count),
        graph_height > 0 && adapter_count > 0 ==> r >= 1,
{
    if graph_height <= 0 || adapter_count == 0 {
        return 0;
    }
    let share = graph_height / (adapter_count as i32);
    let average_height = if share > MIN_GRAPH_HEIGHT { share } else { MIN_GRAPH_HEIGHT };
    if graph_height > average_height {
        let n = graph_height / average_height;
        (if n > 1 { n } else { 1 }) as usize
    } else {
        1
    }
}

/// The first adapter shown: the scroll position, held so that a full page stays in view.
pub open spec fn spec_first_visible(adapter_count: usize, graphs_per_page: usize, first_visible: usize) -> usize {
    if adapter_count == 0 || graphs_per_page == 0 {
        0
    } else {
        let page = if graphs_per_page < adapter_count { graphs_per_page } else { adapter_count };
        let last_start = (adapter_count - page) as usize;
        if first_visible < last_start { first_visible } else { last_start }
    }
}

/// The first adapter shown.
pub fn first_visible_adapter(adapter_count: usize, graphs_per_page: usize, first_visible: usize) -> (r: usize)
    ensures
        r == spec_first_visible(adapter_count, graphs_per_page, first_visible),
        adapter_count > 0 && graphs_per_page > 0 ==> r + (if graphs_per_page < adapter_count { graphs_per_page } else { adapter_count }) <= adapter_count,
{
    if adapter_count == 0 || graphs_per_page == 0 {
        return 0;
    }
    let page = if graphs_per_page < adapter_count { graphs_per_page } else { adapter_count };
    let last_start = adapter_count - page;
    if first_visible < last_start { first_visible } else { last_start }
}

/// The graph pane a control is, if it is one of the `graph_count` graphs.
pub fn graph_pane_index(control_id: i32, graph_count: usize) -> (r: Option<usize>)
    ensures
        r == (if control_id >= IDC_NICGRAPH && ((control_id - IDC_NICGRAPH) as usize) < graph_count {
            Some((control_id - IDC_NICGRAPH) as usize)
        } else {
            None::<usize>
        }),
{
    if control_id >= IDC_NICGRAPH {
        let pane_index = (control_id - IDC_NICGRAPH) as usize;
        if pane_index < graph_count { Some(pane_index) } else { None }
    } else {
        None
    }
}

/// Scroll-bar request codes (`SB_*`).
pub const SB_LINEUP: i32 = 0;
pub const SB_LINEDOWN: i32 = 1;
pub const SB_PAGEUP: i32 = 2;
pub const SB_PAGEDOWN: i32 = 3;
pub const SB_THUMBPOSITION: i32 = 4;
pub const SB_THUMBTRACK: i32 = 5;
pub const SB_TOP: i32 = 6;
pub const SB_BOTTOM: i32 = 7;

/// The scroll position a request asks for, before it is held to the range.
pub open spec fn spec_requested_position(code: i32, pos: i32, min: i32, max: i32, thumb: u16, page: int) -> int {
    if code == SB_BOTTOM {
        max as int
    } else if code == SB_TOP {
        min as int
    } else if code == SB_LINEDOWN {
        pos + 1
    } else if code == SB_LINEUP {
        pos - 1
    } else if code == SB_PAGEDOWN {
        pos + page
    } else if code == SB_PAGEUP {
        pos - page
    } else if code == SB_THUMBTRACK || code == SB_THUMBPOSITION {
        thumb as int
    } else {
        pos as int
    }
}

/// The position after a scroll request: the requested one held to `min..=max` (`min`
/// Whether `scroll_position` can move from `pos` by a line or a page of `graphs_per_page`.
pub fn scroll_position_in_range(pos: i32, graphs_per_page: usize) -> (r: bool)
    ensures
        r == (graphs_per_page <= i32::MAX && fits_i32(pos + 1) && fits_i32(pos - 1)
            && fits_i32(pos + graphs_per_page) && fits_i32(pos - graphs_per_page)),
{
    if graphs_per_page > 0x7fff_ffffusize {
        return false;
    }
    let p = pos as i64;
    let page = graphs_per_page as i64;
    fits_value(p + 1) && fits_value(p - 1) && fits_value(p + page) && fits_value(p - page)
}

/// winning when the range is empty).
pub fn scroll_position(code: i32, pos: i32, min: i32, max: i32, thumb: u16, graphs_per_page: usize) -> (r: i32)
    requires
        graphs_per_page <= i32::MAX,
        fits_i32(pos + 1) && fits_i32(pos - 1),
        fits_i32(pos + graphs_per_page) && fits_i32(pos - graphs_per_page),
    ensures
        ({
            let p = spec_requested_position(code, pos, min, max, thumb, graphs_per_page as int);
            let low = if p < min { min as int } else { p };
            r == (if low > max { max as int } else { low })
        }),
{
    let page = graphs_per_page as i32;
    let mut p = pos;
    if code == SB_BOTTOM {
        p = max;
    } else if code == SB_TOP {
        p = min;
    } else if code == SB_LINEDOWN {
        p = pos + 1;
    } else if code == SB_LINEUP {
        p = pos - 1;
    } else if code == SB_PAGEDOWN {
        p = pos + page;
    } else if code == SB_PAGEUP {
        p = pos - page;
    } else if code == SB_THUMBTRACK || code == SB_THUMBPOSITION {
        p = thumb as i32;
    }
    if p < min {
        p = min;
    }
    if p > max {
        p = max;
    }
    p
}

/// The text of a NUL-terminated UTF-16 field, without surrounding white space.
pub fn wide_array_to_string(value: &[u16]) -> (r: String)
    ensures
        r@ == spec_trim(utf16_lossy(before_nul(value@))),
{
    let s = utf16_buffer_to_string(value);
    let chars = chars_of(s.as_str());
    let trimmed = trim_chars(&chars);
    string_from_chars(&trimmed)
}

/// `IfOperStatusUp`.
pub const IF_OPER_STATUS_UP: i32 = 1;

/// The English name of an adapter's operational status.
pub open spec fn spec_oper_status_name(oper_status: i32) -> Seq<char> {
    if oper_status == IF_OPER_STATUS_UP {
        "Connected"@
    } else if oper_status == 2 {
        "Disconnected"@
    } else if oper_status == 3 {
        "Connecting"@
    } else if oper_status == 4 {
        "Disconnecting"@
    } else if oper_status == 5 {
        "Hardware Missing"@
    } else if oper_status == 6 {
        "Hardware Disabled"@
    } else if oper_status == 7 {
        "Hardware Malfunction"@
    } else {
        "Unknown"@
    }
}

/// The localized name of an adapter's operational status.
pub fn adapter_state_text(language: UiLanguage, oper_status: i32) -> (r: String)
    ensures
        r@ == table_text(language, spec_adapter_state_key(spec_oper_status_name(oper_status)))@,
{
    let name = if oper_status == IF_OPER_STATUS_UP {
        "Connected"
    } else if oper_status == 2 {
        "Disconnected"
    } else if oper_status == 3 {
        "Connecting"
    } else if oper_status == 4 {
        "Disconnecting"
    } else if oper_status == 5 {
        "Hardware Missing"
    } else if oper_status == 6 {
        "Hardware Disabled"
    } else if oper_status == 7 {
        "Hardware Malfunction"
    } else {
        "Unknown"
    };
    String::from_str(adapter_state(language, name))
}

/// The text of a counter as `format_counter` writes it: the decimal digits with a comma
/// before each group of three counted from the right, built left to right.
pub open spec fn commas_prefix(d: Seq<char>, i: int) -> Seq<char>
    decreases i,
{
    if i <= 0 {
        Seq::empty()
    } else {
        let k = i - 1;
        let sep = if k != 0 && (d.len() - k) % 3 == 0 { seq![','] } else { Seq::<char>::empty() };
        commas_prefix(d, k) + sep + seq![d[k]]
    }
}

/// A counter with thousands separators.
pub open spec fn spec_counter_text(value: u64) -> Seq<char> {
    let d = decimal(value as nat);
    commas_prefix(d, d.len() as int)
}

/// Writes a counter with thousands separators.
pub fn format_counter(value: u64) -> (r: String)
    ensures
        r@ == spec_counter_text(value),
{
    let digits = decimal_chars(value);
    let n = digits.len();
    let mut output: Vec<char> = Vec::new();
    let mut index: usize = 0;
    while index < n
        invariant
            n == digits@.len(),
            index <= n,
            output@ == commas_prefix(digits@, index as int),
        decreases n - index,
    {
        if index != 0 && (n - index) % 3 == 0 {
            output.push(',');
        }
        output.push(digits[index]);
        index += 1;
        assert(output@ =~= commas_prefix(digits@, index as int));
    }
    string_from_chars(&output)
}

/// The characters of `s` other than commas.
pub open spec fn without_commas(s: Seq<char>) -> Seq<char> {
    s.filter(|c: char| c != ',')
}

proof fn lemma_decimal_has_no_comma(n: nat)
    ensures
        forall|i: int| 0 <= i < decimal(n).len() ==> #[trigger] decimal(n)[i] != ',',
    decreases n,
{
    if n >= 10 {
        lemma_decimal_has_no_comma(n / 10);
        let prefix = decimal(n / 10);
        assert(decimal(n) == prefix.push(crate::strings::digit_char((n % 10) as int)));
        assert forall|i: int| 0 <= i < decimal(n).len() implies #[trigger] decimal(n)[i] != ',' by {
            if i < prefix.len() {
                assert(decimal(n)[i] == prefix[i]);
            }
        }
    }
}

proof fn lemma_commas_prefix_digits(d: Seq<char>, i: int)
    requires
        0 <= i <= d.len(),
        forall|k: int| 0 <= k < d.len() ==> #[trigger] d[k] != ',',
    ensures
        without_commas(commas_prefix(d, i)) == d.take(i),
    decreases i,
{
    reveal(Seq::filter);
    if i > 0 {
        let k = i - 1;
        lemma_commas_prefix_digits(d, k);
        let sep = if k != 0 && (d.len() - k) % 3 == 0 { seq![','] } else { Seq::<char>::empty() };
        let p = commas_prefix(d, k);
        Seq::filter_distributes_over_add(p + sep, seq![d[k]], |c: char| c != ',');
        Seq::filter_distributes_over_add(p, sep, |c: char| c != ',');
        assert(sep.filter(|c: char| c != ',') =~= Seq::<char>::empty()) by {
            reveal_with_fuel(Seq::filter, 2);
        }
        assert(seq![d[k]].filter(|c: char| c != ',') =~= seq![d[k]]) by {
            reveal_with_fuel(Seq::filter, 2);
        }
        assert(d.take(k) + seq![d[k]] =~= d.take(i));
        assert(p + Seq::<char>::empty() =~= p);
    } else {
        assert(d.take(0) =~= Seq::<char>::empty());
    }
}

/// Dropping the separators from a formatted counter gives back its decimal digits.
pub proof fn lemma_counter_text_digits(value: u64)
    ensures
        without_commas(spec_counter_text(value)) == decimal(value as nat),
{
    let d = decimal(value as nat);
    lemma_decimal_has_no_comma(value as nat);
    lemma_commas_prefix_digits(d, d.len() as int);
    assert(d.take(d.len() as int) =~= d);
}

/// How the lengths of the digit groups come out: `m` digits remain to the right of a point.
proof fn lemma_group_arith(m: int)
    requires
        m >= 1,
    ensures
        m % 3 == 0 ==> (m - 1) / 3 == m / 3 - 1 && (m + m / 3) % 4 == 0,
        m % 3 != 0 ==> (m - 1) / 3 == m / 3 && (m + m / 3) % 4 != 0,
{
}

/// Where the commas of a partly written counter stand: `i` digits of `d` are written, and a
/// comma stands exactly where the finished text has `4 * j` characters from it to its end.
proof fn lemma_commas_prefix_layout(d: Seq<char>, i: int)
    requires
        1 <= i <= d.len(),
        forall|k: int| 0 <= k < d.len() ==> #[trigger] d[k] != ',',
    ensures
        commas_prefix(d, i).len() == i + (d.len() - 1) / 3 - (d.len() - i) / 3,
        forall|p: int| 0 <= p < commas_prefix(d, i).len() ==> (#[trigger] commas_prefix(d, i)[p] == ','
            <==> (p > 0 && (d.len() + (d.len() - 1) / 3 - p) % 4 == 0)),
    decreases i,
{
    let n = d.len() as int;
    let total = n + (n - 1) / 3;
    if i == 1 {
        assert(commas_prefix(d, 0) =~= Seq::<char>::empty());
        assert(commas_prefix(d, 1) =~= seq![d[0]]);
    } else {
        let k = i - 1;
        lemma_commas_prefix_layout(d, k);
        lemma_group_arith(n - k);
        let prev = commas_prefix(d, k);
        let cur = commas_prefix(d, i);
        if (n - k) % 3 == 0 {
            assert(cur == prev + seq![','] + seq![d[k]]);
            assert forall|p: int| 0 <= p < cur.len() implies (#[trigger] cur[p] == ',' <==> (p > 0 && (total - p) % 4 == 0)) by {
                if p < prev.len() {
                    assert(cur[p] == prev[p]);
                } else if p == prev.len() {
                    assert(cur[p] == ',');
                } else {
                    assert(cur[p] == d[k]);
                }
            }
        } else {
            assert(cur == prev + Seq::<char>::empty() + seq![d[k]]);
            assert forall|p: int| 0 <= p < cur.len() implies (#[trigger] cur[p] == ',' <==> (p > 0 && (total - p) % 4 == 0)) by {
                if p < prev.len() {
                    assert(cur[p] == prev[p]);
                } else {
                    assert(cur[p] == d[k]);
                }
            }
        }
    }
}

/// A formatted counter is a first group of one to three digits followed by groups of
/// exactly three, each group after the first preceded by a comma: the first group is as
/// long as the text's length modulo 4, and a comma stands exactly where a multiple of 4
/// characters, counted from it, remain to the end.
pub proof fn lemma_counter_text_groups(value: u64)
    ensures
        1 <= spec_counter_text(value).len() % 4 <= 3,
        forall|p: int| 0 <= p < spec_counter_text(value).len() ==> (#[trigger] spec_counter_text(value)[p] == ','
            <==> (spec_counter_text(value).len() - p) % 4 == 0),
        without_commas(spec_counter_text(value)) == decimal(value as nat),
{
    let d = decimal(value as nat);
    let n = d.len() as int;
    assert(n >= 1);
    lemma_decimal_has_no_comma(value as nat);
    lemma_commas_prefix_layout(d, n);
    lemma_counter_text_digits(value);
    assert((n - n) / 3 == 0);
    assert(1 <= (n + (n - 1) / 3) % 4 <= 3);
}

/// The zoom of a network graph: the smaller the largest sample, the more the graph is
/// magnified.
pub open spec fn spec_graph_zoom(scale_max: u8) -> u32 {
    if scale_max == 0 {
        100
    } else if scale_max <= 4 {
        20
    } else if scale_max <= 24 {
        4
    } else if scale_max <= 49 {
        2
    } else {
        1
    }
}

/// The zoom of a network graph.
pub fn graph_zoom(scale_max: u8) -> (r: u32)
    ensures
        r == spec_graph_zoom(scale_max),
        1 <= r <= 100,
{
    if scale_max == 0 {
        100
    } else if scale_max <= 4 {
        20
    } else if scale_max <= 24 {
        4
    } else if scale_max <= 49 {
        2
    } else {
        1
    }
}

/// The largest sample of three histories, 0 when all are empty.
pub open spec fn max_sample(a: Seq<u8>, b: Seq<u8>, c: Seq<u8>, m: u8) -> bool {
    &&& forall|i: int| 0 <= i < a.len() ==> #[trigger] a[i] <= m
    &&& forall|i: int| 0 <= i < b.len() ==> #[trigger] b[i] <= m
    &&& forall|i: int| 0 <= i < c.len() ==> #[trigger] c[i] <= m
    &&& (m == 0 || (exists|i: int| 0 <= i < a.len() && a[i] == m) || (exists|i: int| 0 <= i < b.len() && b[i] == m)
        || (exists|i: int| 0 <= i < c.len() && c[i] == m))
}

fn max_of(h: &Vec<u8>, start: u8) -> (r: u8)
    ensures
        r >= start,
        forall|i: int| 0 <= i < h@.len() ==> #[trigger] h@[i] <= r,
        r == start || exists|i: int| 0 <= i < h@.len() && h@[i] == r,
{
    let mut m = start;
    let mut i: usize = 0;
    while i < h.len()
        invariant
            i <= h@.len(),
            m >= start,
            forall|k: int| 0 <= k < i ==> #[trigger] h@[k] <= m,
            m == start || exists|k: int| 0 <= k < i && h@[k] == m,
        decreases h.len() - i,
    {
        if h[i] > m {
            m = h[i];
        }
        i += 1;
    }
    m
}

/// The largest sample over an adapter's three histories.
pub fn scale_max(sent: &Vec<u8>, received: &Vec<u8>, total: &Vec<u8>) -> (r: u8)
    ensures
        max_sample(sent@, received@, total@, r),
{
    let m1 = max_of(sent, 0);
    let m2 = max_of(received, m1);
    let m3 = max_of(total, m2);
    m3
}

/// Height of a network graph's grid squares: taller the more the graph is magnified.
pub fn net_grid_square(zoom: u32) -> (r: i32)
    requires
        1 <= zoom <= 100,
    ensures
        r == 12 + (20 * (100 - 100int / (zoom as int))) / 100,
{
    let z = zoom as i32;
    12 + (20 * (100 - 100 / z)) / 100
}

/// Height of a network graph's grid squares at this zoom.
pub open spec fn spec_grid_square(zoom: u32) -> int {
    12 + (20 * (100 - 100int / (zoom as int))) / 100
}

/// The grid of a network graph: horizontal lines one square apart from a square above the
/// bottom row, while below the top; vertical lines 12 pixels apart from `scroll_offset`
/// left of the right edge, while right of the left edge.
pub fn net_grid_lines(plot: &Rect, zoom: u32, scroll_offset: i32) -> (r: (Vec<i32>, Vec<i32>))
    requires
        1 <= zoom <= 100,
        0 <= scroll_offset,
    ensures
        ({
            let sq = spec_grid_square(zoom);
            let y0 = plot.bottom - sq - 1;
            &&& forall|k: int| 0 <= k < r.0@.len() ==> #[trigger] r.0@[k] == y0 - sq * k && r.0@[k] > plot.top
            &&& y0 - sq * r.0@.len() <= plot.top
        }),
        forall|k: int| 0 <= k < r.1@.len() ==> #[trigger] r.1@[k] == plot.right - scroll_offset - 12 * k && r.1@[k] > plot.left,
        plot.right - scroll_offset - 12 * r.1@.len() <= plot.left,
{
    let square = net_grid_square(zoom) as i64;
    let y0: i64 = plot.bottom as i64 - square - 1;
    let top = plot.top as i64;
    let mut ys: Vec<i32> = Vec::new();
    let mut y: i64 = y0;
    while y > top
        invariant
            square == spec_grid_square(zoom),
            12 <= square <= 32,
            top == plot.top,
            y0 == plot.bottom - square - 1,
            y == y0 - square * ys@.len(),
            y <= y0,
            forall|k: int| 0 <= k < ys@.len() ==> #[trigger] ys@[k] == y0 - square * k && ys@[k] > top,
        decreases y - top + square,
    {
        let ghost n = ys@.len() as int;
        assert(square * (n + 1) == square * n + square) by (nonlinear_arith);
        ys.push(y as i32);
        y = y - square;
    }
    let x0: i64 = plot.right as i64 - scroll_offset as i64;
    let left = plot.left as i64;
    let mut xs: Vec<i32> = Vec::new();
    let mut x: i64 = x0;
    while x > left
        invariant
            left == plot.left,
            x0 == plot.right - scroll_offset,
            x0 <= i32::MAX,
            x == x0 - 12 * xs@.len(),
            x <= x0,
            forall|k: int| 0 <= k < xs@.len() ==> #[trigger] xs@[k] == x0 - 12 * k && xs@[k] > left,
        decreases x - left + 12,
    {
        xs.push(x as i32);
        x = x - 12;
    }
    (ys, xs)
}

/// The y of a sample on a magnified network graph: the bottom row for 0, else the
/// magnified height held to `1..=graph_height` above the bottom.
pub open spec fn spec_scaled_y(bottom: i32, graph_height: i32, value: u8, zoom: u32) -> int {
    if value == 0 {
        bottom - 1
    } else {
        let scaled = (value as int * graph_height * zoom) / 100;
        let held = if scaled < 1 { 1 } else if scaled > graph_height { graph_height as int } else { scaled };
        bottom - held
    }
}

/// The y of a sample on a magnified network graph.
pub fn scaled_history_y(bottom: i32, graph_height: i32, value: u8, zoom: u32) -> (r: i32)
    requires
        graph_height >= 1,
        1 <= zoom <= 100,
        fits_i32(value as int * graph_height),
        fits_i32(value as int * graph_height * zoom),
        fits_i32(bottom - graph_height),
        fits_i32(bottom - 1),
    ensures
        r == spec_scaled_y(bottom, graph_height, value, zoom),
{
    if value == 0 {
        return bottom - 1;
    }
    assert(0 <= value as int * graph_height) by (nonlinear_arith) requires value >= 0, graph_height >= 1;
    assert(0 <= value as int * graph_height * zoom) by (nonlinear_arith)
        requires value as int * graph_height >= 0, zoom >= 1;
    let scaled = (value as i32 * graph_height * zoom as i32) / 100;
    let held = if scaled < 1 { 1 } else if scaled > graph_height { graph_height } else { scaled };
    bottom - held
}

/// Pixels per sample on a network graph of `width` pixels: at least one.
pub fn net_history_scale(width: usize) -> (r: usize)
    requires
        width >= 1,
    ensures
        r == (if (width - 1) / 2000 > 1 { (width - 1) / 2000 } else { 1 }),
{
    let s = (width - 1) / 2000;
    if s > 1 { s } else { 1 }
}

/// `{value} %`: a label of the network graph's scale.
pub fn percent_label(value: u32) -> (r: String)
    ensures
        r@ == decimal(value as nat) + seq![' ', '%'],
{
    let mut out = decimal_chars(value as u64);
    out.push(' ');
    out.push('%');
    string_from_chars(&out)
}

/// `{value}%`: the utilization shown on a network graph and in the list.
pub fn utilization_text(value: u8) -> (r: String)
    ensures
        r@ == decimal(value as nat) + seq!['%'],
{
    let mut out = decimal_chars(value as u64);
    out.push('%');
    string_from_chars(&out)
}

/// Interface types the page leaves out: software loopback and tunnels.
pub const IF_TYPE_SOFTWARE_LOOPBACK: u32 = 24;
pub const IF_TYPE_TUNNEL: u32 = 131;

/// Whether an interface is listed.
pub fn include_adapter(if_type: u32) -> (r: bool)
    ensures
        r == (if_type != IF_TYPE_SOFTWARE_LOOPBACK && if_type != IF_TYPE_TUNNEL),
{
    if_type != IF_TYPE_SOFTWARE_LOOPBACK && if_type != IF_TYPE_TUNNEL
}

/// The name an adapter is listed under: its alias, or its description when the alias is
/// blank.
pub fn adapter_name(alias: &str, description: &str) -> (r: String)
    ensures
        r@ == (if alias@.len() > 0 { alias@ } else { description@ }),
{
    if alias.unicode_len() > 0 {
        String::from_str(alias)
    } else {
        String::from_str(description)
    }
}

/// The key an adapter is recognized by across refreshes: `{index}|{name}|{description}`.
pub fn adapter_key(interface_index: u32, name: &str, description: &str) -> (r: String)
    ensures
        r@ == decimal(interface_index as nat) + seq!['|'] + name@ + seq!['|'] + description@,
{
    let mut out = decimal_chars(interface_index as u64);
    out.push('|');
    let n = chars_of(name);
    crate::strings::extend_chars(&mut out, &n);
    out.push('|');
    let d = chars_of(description);
    crate::strings::extend_chars(&mut out, &d);
    string_from_chars(&out)
}

/// Where one adapter graph's frame and owner-drawn control go.
#[derive(Clone, Copy, PartialEq, Eq, Structural, Debug)]
pub struct GraphPlacement {
    pub frame_left: i32,
    pub frame_top: i32,
    pub frame_width: i32,
    pub frame_height: i32,
    pub graph_left: i32,
    pub graph_top: i32,
    pub graph_width: i32,
    pub graph_height: i32,
}

/// Whether `size_graph` can place a graph with these arguments: every value it computes
/// fits in an `i32`.
pub fn size_graph_in_range(left: i32, top: i32, width: i32, height: i32, def_spacing: i32, top_spacing: i32) -> (r: bool)
    ensures
        r == (fits_i32(width - def_spacing * 2) && fits_i32(height - top_spacing - def_spacing)
            && fits_i32(height - top_spacing) && fits_i32(def_spacing * 2)
            && fits_i32(left + def_spacing) && fits_i32(top + top_spacing)
            && fits_i32(left + def_spacing + (if width - def_spacing * 2 > 0 { width - def_spacing * 2 } else { 0 }))
            && fits_i32(top + top_spacing + (if height - top_spacing - def_spacing > 0 { height - top_spacing - def_spacing } else { 0 }))),
{
    let d = def_spacing as i64;
    let t = top_spacing as i64;
    let w = width as i64 - d * 2;
    let h = height as i64 - t - d;
    let gw = if w > 0 { w } else { 0 };
    let gh = if h > 0 { h } else { 0 };
    fits_value(w) && fits_value(h) && fits_value(height as i64 - t) && fits_value(d * 2)
        && fits_value(left as i64 + d) && fits_value(top as i64 + t)
        && fits_value(left as i64 + d + gw) && fits_value(top as i64 + t + gh)
}

/// Places one adapter graph in the band `(left, top, width, height)`.
pub fn size_graph(left: i32, top: i32, width: i32, height: i32, def_spacing: i32, top_spacing: i32) -> (r: GraphPlacement)
    requires
        fits_i32(width - def_spacing * 2),
        fits_i32(height - top_spacing - def_spacing),
        fits_i32(height - top_spacing),
        fits_i32(def_spacing * 2),
        fits_i32(left + def_spacing),
        fits_i32(top + top_spacing),
        fits_i32(left + def_spacing + (if width - def_spacing * 2 > 0 { width - def_spacing * 2 } else { 0 })),
        fits_i32(top + top_spacing + (if height - top_spacing - def_spacing > 0 { height - top_spacing - def_spacing } else { 0 })),
    ensures
        ({
            let w = width - def_spacing * 2;
            let h = height - top_spacing - def_spacing;
            &&& r.frame_left == left && r.frame_top == top
            &&& r.frame_width == width && r.frame_height == height
            &&& r.graph_left == left + def_spacing
            &&& r.graph_top == top + top_spacing
            &&& r.graph_width == (if w > 0 { w } else { 0 })
            &&& r.graph_height == (if h > 0 { h } else { 0 })
        }),
{
    let w = width - def_spacing * 2;
    let h = height - top_spacing - def_spacing;
    let graph_width = if w > 0 { w } else { 0 };
    let graph_height = if h > 0 { h } else { 0 };
    let graph_left = left + def_spacing;
    let graph_top = top + top_spacing;
    let right = graph_left + graph_width;
    let bottom = graph_top + graph_height;
    GraphPlacement {
        frame_left: left,
        frame_top: top,
        frame_width: width,
        frame_height: height,
        graph_left,
        graph_top,
        graph_width: right - graph_left,
        graph_height: bottom - graph_top,
    }
}

/// The network page's layout.
pub struct NetLayout {
    pub graphs_per_page: usize,
    pub need_scrollbar: bool,
    /// Left, width and height of each graph band; the bands stack from `graph_top`.
    pub graph_left: i32,
    pub graph_width: i32,
    pub graph_band_height: i32,
    pub graph_top: i32,
    /// Top of the list: below the last graph band.
    pub list_top: i32,
    pub list_width: i32,
    pub list_height: i32,
    pub scrollbar_x: i32,
    pub scrollbar_y: i32,
    pub scrollbar_height: i32,
    pub label_y: i32,
    pub label_width: i32,
    pub label_height: i32,
    /// Largest scroll position.
    pub scroll_max: i32,
}

/// The height the graphs share: all of the page without a title bar, else three
/// quarters of the tab area.
pub open spec fn spec_graph_history_height(parent: Rect, no_title: bool, def_spacing: i32) -> int {
    if no_title {
        let h = parent.bottom - parent.top - def_spacing;
        if h > 0 { h } else { 0 }
    } else {
        let h = trunc_div((parent.bottom - parent.top - def_spacing) * 3, 4);
        if h > 0 { h } else { 0 }
    }
}

/// Every value that `net_layout` computes fits in an `i32`.
pub open spec fn net_layout_fits(parent: Rect, no_title: bool, def_spacing: i32, adapter_count: usize) -> bool {
    let h0 = parent.bottom - parent.top - def_spacing;
    let height = spec_graph_history_height(parent, no_title, def_spacing);
    let gpp = if adapter_count != 0 { spec_graphs_per_page(height as i32, adapter_count) } else { 0 };
    let need = adapter_count != 0 && adapter_count > gpp;
    let graph_left = if adapter_count != 0 { parent.left + def_spacing } else { 0 };
    let graph_top = if adapter_count != 0 { parent.top + def_spacing } else { 0 };
    let band = if adapter_count != 0 && gpp > 0 { height / (gpp as int) } else { 0 };
    let list_top = graph_top + band * gpp;
    let half = trunc_div(parent.bottom - parent.top, 2);
    &&& fits_i32(parent.bottom - parent.top) && fits_i32(h0)
    &&& (!no_title ==> fits_i32(h0 * 3))
    &&& fits_i32(parent.right - parent.left)
    &&& fits_i32(parent.top + def_spacing)
    &&& (adapter_count != 0 ==> {
        &&& fits_i32(parent.left + def_spacing)
        &&& fits_i32(parent.right - parent.left - def_spacing * 2)
        &&& fits_i32(parent.right - parent.left - def_spacing * 2 - (if need { SCROLLBAR_WIDTH + def_spacing } else { 0 }))
    })
    &&& fits_i32(list_top)
    &&& fits_i32(parent.right - parent.left - graph_left) && fits_i32(parent.right - parent.left - graph_left - def_spacing)
    &&& fits_i32(parent.bottom - list_top) && fits_i32(parent.bottom - list_top - def_spacing)
    &&& fits_i32(parent.right - def_spacing) && fits_i32(parent.right - def_spacing - SCROLLBAR_WIDTH)
    &&& fits_i32(parent.top + half) && fits_i32(parent.top + half - 40)
}

/// Whether a value fits in an `i32`.
fn fits_value(x: i64) -> (r: bool)
    ensures
        r == fits_i32(x as int),
{
    -0x8000_0000i64 <= x && x <= 0x7fff_ffffi64
}

/// Whether `net_layout` can lay out the page for these arguments.
pub fn net_layout_in_range(parent: &Rect, no_title: bool, def_spacing: i32, adapter_count: usize) -> (r: bool)
    ensures
        r == (0 <= def_spacing <= 0x1_0000 && adapter_count <= 0x7fff_ffff
            && net_layout_fits(*parent, no_title, def_spacing, adapter_count)),
{
    if def_spacing < 0 || def_spacing > 0x1_0000 || adapter_count > 0x7fff_ffff {
        return false;
    }
    let left = parent.left as i64;
    let top = parent.top as i64;
    let right = parent.right as i64;
    let bottom = parent.bottom as i64;
    let d = def_spacing as i64;
    let full_h = bottom - top;
    let h0 = full_h - d;
    if !(fits_value(full_h) && fits_value(h0)) {
        return false;
    }
    if !no_title && !fits_value(h0 * 3) {
        return false;
    }
    let height: i64 = if no_title {
        if h0 > 0 { h0 } else { 0 }
    } else {
        let t = h0 * 3;
        let q = if t >= 0 { t / 4 } else { -((-t) / 4) };
        if q > 0 { q } else { 0 }
    };
    assert(height == spec_graph_history_height(*parent, no_title, def_spacing));
    let gpp: usize = if adapter_count != 0 { graphs_per_page(height as i32, adapter_count) } else { 0 };
    let need = adapter_count != 0 && adapter_count > gpp;
    let graph_left: i64 = if adapter_count != 0 { left + d } else { 0 };
    let graph_top: i64 = if adapter_count != 0 { top + d } else { 0 };
    let band: i64 = if adapter_count != 0 && gpp > 0 { height / (gpp as i64) } else { 0 };
    proof {
        if adapter_count != 0 && gpp > 0 {
            assert(0 <= band as int * gpp <= height) by (nonlinear_arith)
                requires band == (height as int) / (gpp as int), gpp > 0, height >= 0;
        }
    }
    let list_top = graph_top + band * (gpp as i64);
    let half = if full_h >= 0 { full_h / 2 } else { -((-full_h) / 2) };
    let width = right - left;
    let sized = if adapter_count != 0 {
        fits_value(left + d) && fits_value(width - d * 2)
            && fits_value(width - d * 2 - (if need { 17 + d } else { 0 }))
    } else {
        true
    };
    fits_value(width) && fits_value(top + d) && sized && fits_value(list_top)
        && fits_value(width - graph_left) && fits_value(width - graph_left - d)
        && fits_value(bottom - list_top) && fits_value(bottom - list_top - d)
        && fits_value(right - d) && fits_value(right - d - 17)
        && fits_value(top + half) && fits_value(top + half - 40)
}

/// Lays out the network page in `parent` for `adapter_count` adapters.
pub fn net_layout(parent: &Rect, no_title: bool, def_spacing: i32, adapter_count: usize) -> (r: NetLayout)
    requires
        0 <= def_spacing <= 0x1_0000,
        adapter_count <= 0x7fff_ffff,
        net_layout_fits(*parent, no_title, def_spacing, adapter_count),
    ensures
        ({
            let height = spec_graph_history_height(*parent, no_title, def_spacing);
            let gpp = if adapter_count != 0 { spec_graphs_per_page(height as i32, adapter_count) } else { 0 };
            let need = adapter_count != 0 && adapter_count > gpp;
            &&& r.graphs_per_page == gpp
            &&& r.need_scrollbar == need
            &&& (adapter_count != 0 ==> {
                &&& r.graph_left == parent.left + def_spacing
                &&& r.graph_width == (parent.right - parent.left) - def_spacing * 2 - (if need { SCROLLBAR_WIDTH + def_spacing } else { 0 })
                &&& r.graph_top == parent.top + def_spacing
                &&& r.graph_band_height == (if gpp > 0 { height / (gpp as int) } else { 0int })
            })
            &&& (adapter_count == 0 ==> r.graph_left == 0 && r.graph_width == 0 && r.graph_top == 0 && r.graph_band_height == 0)
            &&& r.list_top == r.graph_top + r.graph_band_height * gpp
            &&& r.list_width == (if parent.right - parent.left - r.graph_left - def_spacing > 0 {
                parent.right - parent.left - r.graph_left - def_spacing
            } else {
                0int
            })
            &&& r.list_height == (if parent.bottom - r.list_top - def_spacing > 0 {
                parent.bottom - r.list_top - def_spacing
            } else {
                0int
            })
            &&& r.scrollbar_x == parent.right - def_spacing - SCROLLBAR_WIDTH
            &&& r.scrollbar_y == parent.top + def_spacing
            &&& r.scrollbar_height == r.graph_band_height * gpp
            &&& r.label_y == parent.top + trunc_div(parent.bottom - parent.top, 2) - 40
            &&& r.label_width == (if parent.right - parent.left > 0 { parent.right - parent.left } else { 0int })
            &&& r.label_height == (if parent.bottom - parent.top > 0 { parent.bottom - parent.top } else { 0int })
            &&& r.scroll_max == (if adapter_count > gpp { adapter_count - gpp } else { 0 })
        }),
{
    let h0 = parent.bottom - parent.top - def_spacing;
    let height: i32 = if no_title {
        if h0 > 0 { h0 } else { 0 }
    } else {
        let t = h0 * 3;
        let q = if t >= 0 { t / 4 } else { -((-t) / 4) };
        if q > 0 { q } else { 0 }
    };
    let mut gpp: usize = 0;
    let mut need = false;
    let mut graph_left: i32 = 0;
    let mut graph_width: i32 = 0;
    let mut graph_top: i32 = 0;
    let mut band: i32 = 0;
    if adapter_count != 0 {
        gpp = graphs_per_page(height, adapter_count);
        need = adapter_count > gpp;
        graph_left = parent.left + def_spacing;
        graph_width = (parent.right - parent.left) - def_spacing * 2 - if need { SCROLLBAR_WIDTH + def_spacing } else { 0 };
        graph_top = parent.top + def_spacing;
        band = if gpp > 0 { height / (gpp as i32) } else { 0 };
    }
    proof {
        if gpp > 0 {
            assert(band as int * gpp <= height) by (nonlinear_arith)
                requires band == (height as int) / (gpp as int), gpp > 0, height >= 0;
            assert(band as int * gpp >= 0) by (nonlinear_arith)
                requires band >= 0, gpp > 0;
        }
    }
    let stack: i32 = if gpp > 0 { band * (gpp as i32) } else { 0 };
    let list_top = graph_top + stack;
    let lw = parent.right - parent.left - graph_left - def_spacing;
    let lh = parent.bottom - list_top - def_spacing;
    let full_w = parent.right - parent.left;
    let full_h = parent.bottom - parent.top;
    let half = if full_h >= 0 {
        full_h / 2
    } else if full_h == -0x8000_0000i32 {
        -0x4000_0000i32
    } else {
        -((-full_h) / 2)
    };
    NetLayout {
        graphs_per_page: gpp,
        need_scrollbar: need,
        graph_left,
        graph_width,
        graph_band_height: band,
        graph_top,
        list_top,
        list_width: if lw > 0 { lw } else { 0 },
        list_height: if lh > 0 { lh } else { 0 },
        scrollbar_x: parent.right - def_spacing - SCROLLBAR_WIDTH,
        scrollbar_y: parent.top + def_spacing,
        scrollbar_height: stack,
        label_y: parent.top + half - 40,
        label_width: if full_w > 0 { full_w } else { 0 },
        label_height: if full_h > 0 { full_h } else { 0 },
        scroll_max: if adapter_count > gpp { (adapter_count - gpp) as i32 } else { 0 },
    }
}

} // verus!
