//! Geometry of the performance page: where its controls go when it is resized, and
//! where the graphs, grid lines and meters are drawn.
use vstd::prelude::*;

use crate::perfcalc::{trunc_div, HIST_SIZE};
use crate::procui::fits_i32;
use crate::winutil::Rect;

verus! {

/// A control's new position and size.
#[derive(Clone, Copy, PartialEq, Eq, Structural, Debug)]
pub struct Placement {
    pub x: i32,
    pub y: i32,
    pub width: i32,
    pub height: i32,
}

/// The current rectangles of the controls that the performance page lays out.
#[derive(Clone, Copy, PartialEq, Eq, Structural, Debug)]
pub struct PerfLayoutInput {
    pub parent: Rect,
    pub no_title: bool,
    pub pane_count: i32,
    /// Horizontal and vertical dialog base units.
    pub base_x: u16,
    pub base_y: u16,
    /// The bottom text control that the text panel is aligned by.
    pub master: Rect,
    /// The top frame of the text panel.
    pub top_frame: Rect,
    pub cpu_history_frame: Rect,
    pub cpu_usage_frame: Rect,
    pub cpu_meter: Rect,
    pub mem_bar_frame: Rect,
    pub mem_meter: Rect,
    pub mem_frame: Rect,
}

/// Where everything goes.
pub struct PerfLayout {
    pub def_spacing: i32,
    pub inner_spacing: i32,
    pub top_spacing: i32,
    /// How far the text panel moves down.
    pub dy: i32,
    /// Height of the graph rows.
    pub y_hist: i32,
    pub cpu_history_frame_width: i32,
    pub cpu_usage_frame_width: i32,
    pub cpu_meter: Placement,
    pub mem_bar_frame: Placement,
    pub mem_meter: Placement,
    pub mem_frame: Placement,
    pub mem_graph: Placement,
    /// One placement per CPU graph pane.
    pub panes: Vec<Placement>,
}

/// Spacing between controls, from the horizontal dialog unit.
pub open spec fn spec_def_spacing(i: PerfLayoutInput) -> int { (3 * i.base_x) / 4 }
/// Spacing inside a frame.
pub open spec fn spec_inner_spacing(i: PerfLayoutInput) -> int { (2 * i.base_x) / 4 }
/// Spacing below a frame's caption, from the vertical dialog unit.
pub open spec fn spec_top_spacing(i: PerfLayoutInput) -> int { (10 * i.base_y) / 8 }

/// How far the text panel moves so its bottom keeps two spacings from the page's bottom,
/// but never above the page's top.
pub open spec fn spec_dy(i: PerfLayoutInput) -> int {
    let d = (i.parent.bottom - spec_def_spacing(i) * 2) - i.master.bottom;
    if d > -i.master.bottom { d } else { -i.master.bottom }
}

/// Height of each of the two graph rows.
pub open spec fn spec_y_hist(i: PerfLayoutInput) -> int {
    if i.no_title {
        i.parent.bottom - i.parent.top - spec_def_spacing(i) * 2
    } else {
        trunc_div(i.top_frame.top + spec_dy(i) - spec_def_spacing(i) * 3, 2)
    }
}

/// Width left for the CPU graphs inside the history frame.
pub open spec fn spec_pane_area(i: PerfLayoutInput) -> int {
    (i.parent.right - i.parent.left) - (i.cpu_history_frame.left - i.parent.left) - spec_def_spacing(i) * 2
        - spec_inner_spacing(i) * 3
}

/// Width of each CPU graph pane.
pub open spec fn spec_pane_width(i: PerfLayoutInput) -> int {
    let w = trunc_div(spec_pane_area(i) - i.pane_count * spec_inner_spacing(i), i.pane_count as int);
    if w > 0 { w } else { 0 }
}

/// Left edge of CPU graph pane `k`.
pub open spec fn spec_pane_left(i: PerfLayoutInput, k: int) -> int {
    i.cpu_history_frame.left + spec_inner_spacing(i) * (k + 2) + spec_pane_width(i) * k
}

/// Every value the layout computes fits in an `i32`, as the page's own arithmetic needs.
pub open spec fn perf_layout_fits(i: PerfLayoutInput) -> bool {
    let inner = spec_inner_spacing(i);
    &&& perf_frames_fit(i)
    &&& forall|k: int| 0 <= k < i.pane_count ==> fits_i32(#[trigger] spec_pane_left(i, k))
        && fits_i32(i.cpu_history_frame.left + inner * (k + 2)) && fits_i32(spec_pane_width(i) * k)
}

/// Every value the layout computes outside the CPU graph panes fits in an `i32`.
pub open spec fn perf_frames_fit(i: PerfLayoutInput) -> bool {
    let def = spec_def_spacing(i);
    let inner = spec_inner_spacing(i);
    let top = spec_top_spacing(i);
    let y_hist = spec_y_hist(i);
    &&& i.pane_count >= 1
    &&& fits_i32(i.parent.bottom - def * 2) && fits_i32((i.parent.bottom - def * 2) - i.master.bottom)
    &&& fits_i32(-i.master.bottom)
    &&& fits_i32(i.top_frame.top + spec_dy(i)) && fits_i32(i.top_frame.top + spec_dy(i) - def * 3)
    &&& fits_i32(i.parent.bottom - i.parent.top) && fits_i32(i.parent.bottom - i.parent.top - def * 2)
    &&& fits_i32(i.parent.right - i.cpu_history_frame.left)
    &&& fits_i32((i.parent.right - i.cpu_history_frame.left) - def * 2)
    &&& fits_i32(i.cpu_usage_frame.right - i.cpu_usage_frame.left)
    &&& fits_i32(i.cpu_usage_frame.left + inner * 2) && fits_i32(i.cpu_usage_frame.top + top)
    &&& fits_i32(i.cpu_meter.right - i.cpu_meter.left)
    &&& fits_i32(y_hist - top) && fits_i32(y_hist - top - inner * 2)
    &&& fits_i32(y_hist + def * 2) && fits_i32(y_hist + def * 2 + top)
    &&& fits_i32(i.mem_bar_frame.right - i.mem_bar_frame.left)
    &&& fits_i32(i.mem_meter.right - i.mem_meter.left)
    &&& fits_i32(y_hist - inner * 2) && fits_i32(y_hist - inner * 2 - top)
    &&& fits_i32(i.parent.right - i.mem_frame.left) && fits_i32((i.parent.right - i.mem_frame.left) - def * 2)
    &&& fits_i32(i.parent.right - i.parent.left) && fits_i32(i.cpu_history_frame.left - i.parent.left)
    &&& fits_i32((i.parent.right - i.parent.left) - (i.cpu_history_frame.left - i.parent.left))
    &&& fits_i32((i.parent.right - i.parent.left) - (i.cpu_history_frame.left - i.parent.left) - def * 2)
    &&& fits_i32(spec_pane_area(i))
    &&& fits_i32(i.cpu_history_frame.left + inner * 2) && fits_i32(spec_pane_area(i) - inner)
    &&& fits_i32(i.pane_count * inner) && fits_i32(spec_pane_area(i) - i.pane_count * inner)
    &&& fits_i32(i.cpu_history_frame.top + top)
}

fn trunc_div_i64(a: i64, b: i64) -> (r: i64)
    requires
        b > 0,
        a > i64::MIN,
    ensures
        r == trunc_div(a as int, b as int),
{
    if a >= 0 { a / b } else { -((-a) / b) }
}

/// Whether a value fits in an `i32`.
fn fits_in_i32(x: i64) -> (r: bool)
    ensures
        r == fits_i32(x as int),
{
    -0x8000_0000i64 <= x && x <= 0x7fff_ffffi64
}

/// Whether `perf_layout` can lay out the page for these rectangles: every value its
/// arithmetic computes fits in an `i32`.
pub fn perf_layout_in_range(input: &PerfLayoutInput) -> (r: bool)
    ensures
        r == perf_layout_fits(*input),
{
    let i = input;
    if i.pane_count < 1 {
        return false;
    }
    let def = (3 * i.base_x as i64) / 4;
    let inner = (2 * i.base_x as i64) / 4;
    let top = (10 * i.base_y as i64) / 8;
    let pl = i.parent.left as i64;
    let pt = i.parent.top as i64;
    let pr = i.parent.right as i64;
    let pb = i.parent.bottom as i64;
    let mb = i.master.bottom as i64;
    let chl = i.cpu_history_frame.left as i64;
    let d = (pb - def * 2) - mb;
    let dy = if d > -mb { d } else { -mb };
    let tt = i.top_frame.top as i64;
    let y_hist = if i.no_title { pb - pt - def * 2 } else { trunc_div_i64(tt + dy - def * 3, 2) };
    let area = (pr - pl) - (chl - pl) - def * 2 - inner * 3;
    let panes = i.pane_count as i64;
    let cuf = i.cpu_usage_frame;
    let mbf = i.mem_bar_frame;
    assert(0 <= panes * inner <= 0x8000_0000 * 0x8000) by (nonlinear_arith)
        requires 1 <= panes <= 0x8000_0000, 0 <= inner <= 0x8000;
    let fixed = fits_in_i32(pb - def * 2) && fits_in_i32((pb - def * 2) - mb) && fits_in_i32(-mb)
        && fits_in_i32(tt + dy) && fits_in_i32(tt + dy - def * 3)
        && fits_in_i32(pb - pt) && fits_in_i32(pb - pt - def * 2)
        && fits_in_i32(pr - chl) && fits_in_i32((pr - chl) - def * 2)
        && fits_in_i32(cuf.right as i64 - cuf.left as i64)
        && fits_in_i32(cuf.left as i64 + inner * 2) && fits_in_i32(cuf.top as i64 + top)
        && fits_in_i32(i.cpu_meter.right as i64 - i.cpu_meter.left as i64)
        && fits_in_i32(y_hist - top) && fits_in_i32(y_hist - top - inner * 2)
        && fits_in_i32(y_hist + def * 2) && fits_in_i32(y_hist + def * 2 + top)
        && fits_in_i32(mbf.right as i64 - mbf.left as i64)
        && fits_in_i32(i.mem_meter.right as i64 - i.mem_meter.left as i64)
        && fits_in_i32(y_hist - inner * 2) && fits_in_i32(y_hist - inner * 2 - top)
        && fits_in_i32(pr - i.mem_frame.left as i64) && fits_in_i32((pr - i.mem_frame.left as i64) - def * 2)
        && fits_in_i32(pr - pl) && fits_in_i32(chl - pl)
        && fits_in_i32((pr - pl) - (chl - pl)) && fits_in_i32((pr - pl) - (chl - pl) - def * 2)
        && fits_in_i32(area)
        && fits_in_i32(chl + inner * 2) && fits_in_i32(area - inner)
        && fits_in_i32(panes * inner) && fits_in_i32(area - panes * inner)
        && fits_in_i32(i.cpu_history_frame.top as i64 + top);
    proof {
        assert(def == spec_def_spacing(*i));
        assert(inner == spec_inner_spacing(*i));
        assert(top == spec_top_spacing(*i));
        assert(dy == spec_dy(*i));
        assert(y_hist == spec_y_hist(*i));
        assert(area == spec_pane_area(*i));
        assert(fixed == perf_frames_fit(*i));
    }
    if !fixed {
        return false;
    }
    let raw = trunc_div_i64(area - panes * inner, panes);
    proof {
        let a = area - panes * inner;
        if a >= 0 {
            assert(a / (panes as int) <= a) by (nonlinear_arith)
                requires a >= 0, panes >= 1;
        } else {
            assert((-a) / (panes as int) <= -a) by (nonlinear_arith)
                requires -a >= 0, panes >= 1;
        }
    }
    let width = if raw > 0 { raw } else { 0 };
    assert(width == spec_pane_width(*i));
    let mut k: i64 = 0;
    while k < panes
        invariant
            0 <= k <= panes,
            *i == *input,
            panes == i.pane_count,
            perf_frames_fit(*i),
            0 <= inner <= 0x8000,
            0 <= width <= 0x8000_0000,
            width == spec_pane_width(*i),
            inner == spec_inner_spacing(*i),
            chl == i.cpu_history_frame.left,
            forall|j: int| 0 <= j < k ==> fits_i32(#[trigger] spec_pane_left(*i, j))
                && fits_i32(i.cpu_history_frame.left + inner * (j + 2)) && fits_i32(spec_pane_width(*i) * j),
        decreases panes - k,
    {
        assert(0 <= width * k <= 0x8000_0000 * 0x8000_0000) by (nonlinear_arith)
            requires 0 <= width <= 0x8000_0000, 0 <= k <= 0x8000_0000;
        assert(0 <= inner * (k + 2) <= 0x8000 * 0x8000_0002) by (nonlinear_arith)
            requires 0 <= inner <= 0x8000, 0 <= k <= 0x8000_0000;
        let base = chl + inner * (k + 2);
        let wk = width * k;
        assert(base + wk == spec_pane_left(*i, k as int));
        if !(fits_in_i32(base + wk) && fits_in_i32(base) && fits_in_i32(wk)) {
            assert(!(fits_i32(spec_pane_left(*i, k as int)) && fits_i32(i.cpu_history_frame.left + inner * (k + 2))
                && fits_i32(spec_pane_width(*i) * k)));
            return false;
        }
        k += 1;
    }
    true
}

/// Lays out the performance page.
pub fn perf_layout(input: &PerfLayoutInput) -> (r: PerfLayout)
    requires
        perf_layout_fits(*input),
    ensures
        ({
            let i = *input;
            let def = spec_def_spacing(i);
            let inner = spec_inner_spacing(i);
            let top = spec_top_spacing(i);
            let y_hist = spec_y_hist(i);
            &&& r.def_spacing == def && r.inner_spacing == inner && r.top_spacing == top
            &&& r.dy == spec_dy(i)
            &&& r.y_hist == y_hist
            &&& r.cpu_history_frame_width == (i.parent.right - i.cpu_history_frame.left) - def * 2
            &&& r.cpu_usage_frame_width == i.cpu_usage_frame.right - i.cpu_usage_frame.left
            &&& r.cpu_meter == (Placement {
                x: (i.cpu_usage_frame.left + inner * 2) as i32,
                y: (i.cpu_usage_frame.top + top) as i32,
                width: (i.cpu_meter.right - i.cpu_meter.left) as i32,
                height: (y_hist - top - inner * 2) as i32,
            })
            &&& r.mem_bar_frame == (Placement {
                x: i.mem_bar_frame.left,
                y: (y_hist + def * 2) as i32,
                width: (i.mem_bar_frame.right - i.mem_bar_frame.left) as i32,
                height: y_hist as i32,
            })
            &&& r.mem_meter == (Placement {
                x: i.mem_meter.left,
                y: (y_hist + def * 2 + top) as i32,
                width: (i.mem_meter.right - i.mem_meter.left) as i32,
                height: (y_hist - inner * 2 - top) as i32,
            })
            &&& r.mem_frame == (Placement {
                x: i.mem_frame.left,
                y: (y_hist + def * 2) as i32,
                width: ((i.parent.right - i.mem_frame.left) - def * 2) as i32,
                height: y_hist as i32,
            })
            &&& r.mem_graph == (Placement {
                x: (i.cpu_history_frame.left + inner * 2) as i32,
                y: (y_hist + def * 2 + top) as i32,
                width: (spec_pane_area(i) - inner) as i32,
                height: (y_hist - inner * 2 - top) as i32,
            })
            &&& r.panes@.len() == i.pane_count
            &&& forall|k: int| 0 <= k < i.pane_count ==> #[trigger] r.panes@[k] == (Placement {
                x: spec_pane_left(i, k) as i32,
                y: (i.cpu_history_frame.top + top) as i32,
                width: spec_pane_width(i) as i32,
                height: (y_hist - inner * 2 - top) as i32,
            })
        }),
{
    let i = input;
    let def = (3 * i.base_x as i64) / 4;
    let inner = (2 * i.base_x as i64) / 4;
    let top = (10 * i.base_y as i64) / 8;
    let d = (i.parent.bottom as i64 - def * 2) - i.master.bottom as i64;
    let dy = if d > -(i.master.bottom as i64) { d } else { -(i.master.bottom as i64) };
    let y_hist = if i.no_title {
        i.parent.bottom as i64 - i.parent.top as i64 - def * 2
    } else {
        trunc_div_i64(i.top_frame.top as i64 + dy - def * 3, 2)
    };
    let pane_area = (i.parent.right as i64 - i.parent.left as i64) - (i.cpu_history_frame.left as i64 - i.parent.left as i64)
        - def * 2 - inner * 3;
    let pane_count = i.pane_count as i64;
    let w = trunc_div_i64(pane_area - pane_count * inner, pane_count);
    let pane_width = if w > 0 { w } else { 0 };
    let mut panes: Vec<Placement> = Vec::new();
    let mut k: i64 = 0;
    while k < pane_count
        invariant
            perf_layout_fits(*i),
            0 <= k <= pane_count,
            pane_count == i.pane_count,
            def == spec_def_spacing(*i),
            inner == spec_inner_spacing(*i),
            top == spec_top_spacing(*i),
            y_hist == spec_y_hist(*i),
            pane_width == spec_pane_width(*i),
            panes@.len() == k,
            forall|j: int| 0 <= j < k ==> #[trigger] panes@[j] == (Placement {
                x: spec_pane_left(*i, j) as i32,
                y: (i.cpu_history_frame.top + top) as i32,
                width: spec_pane_width(*i) as i32,
                height: (y_hist - inner * 2 - top) as i32,
            }),
        decreases pane_count - k,
    {
        assert(fits_i32(spec_pane_left(*i, k as int)));
        assert(fits_i32(i.cpu_history_frame.left + inner * (k + 2)) && fits_i32(spec_pane_width(*i) * k));
        let left = i.cpu_history_frame.left as i64 + inner * (k + 2) + pane_width * k;
        panes.push(Placement {
            x: left as i32,
            y: (i.cpu_history_frame.top as i64 + top) as i32,
            width: pane_width as i32,
            height: (y_hist - inner * 2 - top) as i32,
        });
        k += 1;
    }
    PerfLayout {
        def_spacing: def as i32,
        inner_spacing: inner as i32,
        top_spacing: top as i32,
        dy: dy as i32,
        y_hist: y_hist as i32,
        cpu_history_frame_width: ((i.parent.right as i64 - i.cpu_history_frame.left as i64) - def * 2) as i32,
        cpu_usage_frame_width: (i.cpu_usage_frame.right as i64 - i.cpu_usage_frame.left as i64) as i32,
        cpu_meter: Placement {
            x: (i.cpu_usage_frame.left as i64 + inner * 2) as i32,
            y: (i.cpu_usage_frame.top as i64 + top) as i32,
            width: (i.cpu_meter.right as i64 - i.cpu_meter.left as i64) as i32,
            height: (y_hist - top - inner * 2) as i32,
        },
        mem_bar_frame: Placement {
            x: i.mem_bar_frame.left,
            y: (y_hist + def * 2) as i32,
            width: (i.mem_bar_frame.right as i64 - i.mem_bar_frame.left as i64) as i32,
            height: y_hist as i32,
        },
        mem_meter: Placement {
            x: i.mem_meter.left,
            y: (y_hist + def * 2 + top) as i32,
            width: (i.mem_meter.right as i64 - i.mem_meter.left as i64) as i32,
            height: (y_hist - inner * 2 - top) as i32,
        },
        mem_frame: Placement {
            x: i.mem_frame.left,
            y: (y_hist + def * 2) as i32,
            width: ((i.parent.right as i64 - i.mem_frame.left as i64) - def * 2) as i32,
            height: y_hist as i32,
        },
        mem_graph: Placement {
            x: (i.cpu_history_frame.left as i64 + inner * 2) as i32,
            y: (y_hist + def * 2 + top) as i32,
            width: (pane_area - inner) as i32,
            height: (y_hist - inner * 2 - top) as i32,
        },
        panes,
    }
}

/// Where a graph is drawn and how its history is scaled.
#[derive(Clone, Copy, PartialEq, Eq, Structural, Debug)]
pub struct GraphGeometry {
    pub width: i32,
    pub height: i32,
    /// Draw into the off-screen bitmap, then copy.
    pub use_backbuffer: bool,
    pub target: Rect,
    /// Height that 100 % maps to.
    pub graph_height: i32,
    /// Horizontal pixels per sample.
    pub scale: i32,
}

/// The geometry of a graph control's rectangle. A CPU graph drawn off-screen spans the
/// bitmap's whole width; a memory graph only its own.
pub fn graph_geometry(rect: &Rect, has_surface: bool, surface_width: i32, surface_height: i32, full_surface_width: bool) -> (r: GraphGeometry)
    requires
        fits_i32(rect.right - rect.left),
        fits_i32(rect.bottom - rect.top),
        fits_i32(rect.bottom - rect.top - 1),
    ensures
        ({
            let w = rect.right - rect.left;
            let h = rect.bottom - rect.top;
            let width = if w > 1 { w } else { 1 };
            let height = if h > 1 { h } else { 1 };
            let back = has_surface && surface_width >= width && surface_height >= height;
            let target = if back {
                Rect { left: 0, top: 0, right: if full_surface_width { surface_width } else { width as i32 }, bottom: height as i32 }
            } else {
                *rect
            };
            let gh = target.bottom - target.top - 1;
            let s = (width - 1) / (HIST_SIZE as int);
            &&& r.width == width && r.height == height
            &&& r.use_backbuffer == back
            &&& r.target == target
            &&& r.graph_height == (if gh > 1 { gh } else { 1 })
            &&& r.scale == (if s == 0 { 2 } else { s })
        }),
{
    let w = rect.right - rect.left;
    let h = rect.bottom - rect.top;
    let width = if w > 1 { w } else { 1 };
    let height = if h > 1 { h } else { 1 };
    let use_backbuffer = has_surface && surface_width >= width && surface_height >= height;
    let target = if use_backbuffer {
        Rect { left: 0, top: 0, right: if full_surface_width { surface_width } else { width }, bottom: height }
    } else {
        *rect
    };
    let gh = target.bottom - target.top - 1;
    let s = (width - 1) / (HIST_SIZE as i32);
    GraphGeometry {
        width,
        height,
        use_backbuffer,
        target,
        graph_height: if gh > 1 { gh } else { 1 },
        scale: if s == 0 { 2 } else { s },
    }
}

/// The y coordinate of a sample: `bottom - value * graph_height / 100`.
pub open spec fn sample_y(bottom: i32, value: u8, graph_height: i32) -> int {
    bottom - trunc_div(value * graph_height, 100)
}

/// Whether sample `k` of a graph lies inside its width.
pub open spec fn offset_inside(k: int, scale: int, width: int) -> bool {
    k * scale < width
}

/// How many samples of a history a graph draws: while `index * scale` is inside the
/// width, stopping at a zero sample when asked.
pub open spec fn drawn_count(history: Seq<u8>, width: int, scale: int, stop_on_zero: bool, n: int) -> bool {
    &&& 0 <= n <= history.len()
    &&& forall|k: int| 0 <= k < n ==> #[trigger] offset_inside(k, scale, width)
    &&& forall|k: int| 0 <= k < n ==> !(stop_on_zero && #[trigger] history[k] == 0)
    &&& n < history.len() ==> (!offset_inside(n, scale, width) || (stop_on_zero && history[n] == 0))
}

fn continues_line(index: usize, scale: i32, width: i32, value: u8, stop_on_zero: bool) -> (r: bool)
    requires
        1 <= scale,
        index <= 0x1_0000_0000,
    ensures
        r == (offset_inside(index as int, scale as int, width as int) && !(stop_on_zero && value == 0)),
{
    assert(0 <= index as int * scale <= 0x1_0000_0000 * 0x8000_0000) by (nonlinear_arith)
        requires index <= 0x1_0000_0000, 1 <= scale <= 0x7fff_ffff;
    let offset: i128 = index as i128 * scale as i128;
    offset < width as i128 && !(stop_on_zero && value == 0)
}

/// The points of a history's line: it starts at the right edge at the newest sample's
/// height, then one point per drawn sample, `scale` pixels further left each.
pub fn history_points(
    right: i32,
    bottom: i32,
    graph_height: i32,
    width: i32,
    scale: i32,
    history: &Vec<u8>,
    stop_on_zero: bool,
) -> (r: (Vec<(i32, i32)>, usize))
    requires
        graph_height >= 1,
        scale >= 1,
        graph_height * 255 <= i32::MAX,
        fits_i32(bottom - graph_height * 3),
        fits_i32(right - scale * (history@.len() as int)),
        history@.len() <= 0x1_0000_0000,
    ensures
        drawn_count(history@, width as int, scale as int, stop_on_zero, r.1 as int),
        history@.len() == 0 ==> r.0@.len() == 0,
        history@.len() > 0 ==> r.0@.len() == r.1 + 1
            && r.0@[0] == (right, sample_y(bottom, history@[0], graph_height) as i32)
            && forall|k: int| 0 <= k < r.1 ==> #[trigger] r.0@[k + 1] == ((right - k * scale) as i32, sample_y(bottom, history@[k], graph_height) as i32),
{
    let len = history.len();
    let mut points: Vec<(i32, i32)> = Vec::new();
    if len == 0 {
        return (points, 0);
    }
    let v0 = history[0];
    assert(0 <= v0 as int * graph_height <= 255 * graph_height) by (nonlinear_arith)
        requires v0 <= 255, graph_height >= 1;
    let first = v0 as i32 * graph_height;
    points.push((right, bottom - (first / 100)));
    let mut index: usize = 0;
    while index < len && continues_line(index, scale, width, history[index], stop_on_zero)
        invariant
            len == history@.len(),
            len <= 0x1_0000_0000,
            len > 0,
            graph_height >= 1,
            scale >= 1,
            graph_height * 255 <= i32::MAX,
            fits_i32(bottom - graph_height * 3),
            fits_i32(right - scale * (len as int)),
            index <= len,
            points@.len() == index + 1,
            points@[0] == (right, sample_y(bottom, history@[0], graph_height) as i32),
            forall|k: int| 0 <= k < index ==> #[trigger] offset_inside(k, scale as int, width as int),
            forall|k: int| 0 <= k < index ==> !(stop_on_zero && #[trigger] history@[k] == 0),
            forall|k: int| 0 <= k < index ==> #[trigger] points@[k + 1] == ((right - k * scale) as i32, sample_y(bottom, history@[k], graph_height) as i32),
        decreases len - index,
    {
        let value = history[index];
        assert(0 <= index as int * scale <= len as int * scale) by (nonlinear_arith)
            requires index <= len, scale >= 1;
        assert(0 <= value as int * graph_height <= 255 * graph_height) by (nonlinear_arith)
            requires value <= 255, graph_height >= 1;
        assert(len as int * scale <= 0x1_0000_0000 * 0x8000_0000) by (nonlinear_arith)
            requires len <= 0x1_0000_0000, 1 <= scale <= 0x7fff_ffff;
        let offset: i128 = index as i128 * scale as i128;
        let y = bottom - (value as i32 * graph_height) / 100;
        let ghost before = points@;
        points.push(((right as i128 - offset) as i32, y));
        proof {
            assert(offset_inside(index as int, scale as int, width as int) && !(stop_on_zero && history@[index as int] == 0));
            assert forall|k: int| 0 <= k < index + 1 implies #[trigger] points@[k + 1] == ((right - k * scale) as i32, sample_y(bottom, history@[k], graph_height) as i32) by {
                if k < index {
                    assert(points@[k + 1] == before[k + 1]);
                }
            }
        }
        index += 1;
    }
    (points, index)
}

/// How many of `start`, `start + 12`, ... lie below `end`.
pub open spec fn steps_below(start: int, end: int) -> int {
    if start < end { (end - start + 11) / 12 } else { 0 }
}

/// The grid of a graph: horizontal lines every 12 pixels from 11 below the top, while
/// above the bottom; vertical lines every 12 pixels from `scroll_offset` left of the
/// right edge, while right of the graph's left edge.
pub fn grid_lines(rect: &Rect, width: i32, scroll_offset: i32) -> (r: (Vec<i32>, Vec<i32>))
    requires
        0 <= scroll_offset,
        fits_i32(rect.right - (if width > 0 { width as int } else { 0 })),
        fits_i32(rect.right - scroll_offset),
        rect.top <= i32::MAX - 24,
    ensures
        r.0@.len() == steps_below(rect.top + 11, rect.bottom as int),
        forall|k: int| 0 <= k < r.0@.len() ==> #[trigger] r.0@[k] == rect.top + 11 + 12 * k,
        r.1@.len() == steps_below(-(rect.right - scroll_offset), -(rect.right - (if width > 0 { width as int } else { 0 }))),
        forall|k: int| 0 <= k < r.1@.len() ==> #[trigger] r.1@[k] == rect.right - scroll_offset - 12 * k,
{
    let left: i64 = rect.right as i64 - if width > 0 { width as i64 } else { 0 };
    let y0: i64 = rect.top as i64 + 11;
    let y_count: i64 = if y0 < rect.bottom as i64 { (rect.bottom as i64 - y0 + 11) / 12 } else { 0 };
    let mut ys: Vec<i32> = Vec::new();
    let mut k: i64 = 0;
    while k < y_count
        invariant
            0 <= k <= y_count,
            y_count == steps_below(rect.top + 11, rect.bottom as int),
            y0 == rect.top + 11,
            rect.top <= i32::MAX - 24,
            ys@.len() == k,
            forall|j: int| 0 <= j < k ==> #[trigger] ys@[j] == rect.top + 11 + 12 * j,
        decreases y_count - k,
    {
        assert(y0 + 12 * k < rect.bottom + 12);
        ys.push((y0 + 12 * k) as i32);
        k += 1;
    }
    let x0: i64 = rect.right as i64 - scroll_offset as i64;
    let x_count: i64 = if x0 > left { (x0 - left + 11) / 12 } else { 0 };
    let mut xs: Vec<i32> = Vec::new();
    let mut j: i64 = 0;
    while j < x_count
        invariant
            0 <= j <= x_count,
            x_count == steps_below(-(rect.right - scroll_offset), -(rect.right - (if width > 0 { width as int } else { 0 }))),
            x0 == rect.right - scroll_offset,
            left == rect.right - (if width > 0 { width as int } else { 0 }),
            fits_i32(left as int),
            fits_i32(x0 as int),
            xs@.len() == j,
            forall|i: int| 0 <= i < j ==> #[trigger] xs@[i] == rect.right - scroll_offset - 12 * i,
        decreases x_count - j,
    {
        assert(x0 - 12 * j > left - 12);
        xs.push((x0 - 12 * j) as i32);
        j += 1;
    }
    (ys, xs)
}

/// Pieces of a strip meter's bitmap blit: heights of at most one bitmap (75 pixels)
/// each, top to bottom, adding up to `height`.
pub fn strip_chunks(height: i32) -> (r: Vec<i32>)
    ensures
        forall|k: int| 0 <= k < r@.len() ==> 0 < #[trigger] r@[k] <= 75,
        height <= 0 ==> r@.len() == 0,
        height > 0 ==> r@.len() == height / 75 + (if height % 75 > 0 { 1int } else { 0 }),
        height > 0 ==> forall|k: int| 0 <= k < height / 75 ==> #[trigger] r@[k] == 75,
        height > 0 && height % 75 > 0 ==> r@.last() == height % 75,
{
    let mut chunks: Vec<i32> = Vec::new();
    if height <= 0 {
        return chunks;
    }
    let full = height / 75;
    let rest = height % 75;
    let mut k: i32 = 0;
    while k < full
        invariant
            0 <= k <= full,
            full == height / 75,
            chunks@.len() == k,
            forall|j: int| 0 <= j < k ==> #[trigger] chunks@[j] == 75,
        decreases full - k,
    {
        chunks.push(75);
        k += 1;
    }
    if rest > 0 {
        chunks.push(rest);
    }
    chunks
}

/// The bar of a strip meter: its offset in the meter, its height, and the pixel rows
/// drawn unlit, lit and red.
#[derive(Clone, Copy, PartialEq, Eq, Structural, Debug)]
pub struct StripMeter {
    pub x_offset: i32,
    pub bar_height: i32,
    pub unlit_height: i32,
    pub lit_top: i32,
    pub lit_height: i32,
    pub red_top: i32,
    pub red_height: i32,
}

/// Every value that `strip_meter` computes fits in an `i32`.
pub open spec fn strip_meter_fits(rect: Rect, font_height: int, def_spacing: int, lit_percent: int, red_percent: int) -> bool {
    let bar = rect.bottom - rect.top - (font_height + def_spacing * 3);
    let lit = lit_percent * bar / 100;
    let red0 = red_percent * bar / 100;
    let red = if red0 > lit { lit } else { red0 };
    let lit_pixels = bar - ((bar - lit) / 3) * 3;
    &&& fits_i32(rect.bottom - rect.top)
    &&& fits_i32(def_spacing * 3) && fits_i32(font_height + def_spacing * 3)
    &&& fits_i32(bar)
    &&& (bar > 0 ==> {
        &&& fits_i32(rect.right - rect.left) && fits_i32((rect.right - rect.left) - 33)
        &&& fits_i32(lit_percent * bar) && fits_i32(red_percent * bar)
        &&& fits_i32(def_spacing + (bar - lit_pixels)) && fits_i32(def_spacing + (bar - red))
    })
}

/// Whether `strip_meter` can lay out a bar for these arguments.
pub fn strip_meter_in_range(rect: &Rect, font_height: i32, def_spacing: i32, lit_percent: u8, red_percent: u8) -> (r: bool)
    ensures
        r == (lit_percent <= 100 && red_percent <= 100
            && strip_meter_fits(*rect, font_height as int, def_spacing as int, lit_percent as int, red_percent as int)),
{
    if lit_percent > 100 || red_percent > 100 {
        return false;
    }
    let height = rect.bottom as i64 - rect.top as i64;
    let spacing3 = def_spacing as i64 * 3;
    let reserved = font_height as i64 + spacing3;
    let bar = height - reserved;
    if !(fits_in_i32(height) && fits_in_i32(spacing3) && fits_in_i32(reserved) && fits_in_i32(bar)) {
        return false;
    }
    if bar <= 0 {
        return true;
    }
    let width = rect.right as i64 - rect.left as i64;
    assert(0 <= lit_percent as int * bar <= 100 * 0x8000_0000) by (nonlinear_arith)
        requires 0 <= lit_percent <= 100, 0 < bar <= 0x8000_0000;
    assert(0 <= red_percent as int * bar <= 100 * 0x8000_0000) by (nonlinear_arith)
        requires 0 <= red_percent <= 100, 0 < bar <= 0x8000_0000;
    let lit_product = lit_percent as i64 * bar;
    let red_product = red_percent as i64 * bar;
    let lit = lit_product / 100;
    let red0 = red_product / 100;
    let red = if red0 > lit { lit } else { red0 };
    assert(lit <= bar) by (nonlinear_arith)
        requires lit == lit_product / 100, lit_product == lit_percent as int * bar, lit_percent <= 100, bar > 0;
    let lit_pixels = bar - ((bar - lit) / 3) * 3;
    fits_in_i32(width) && fits_in_i32(width - 33) && fits_in_i32(lit_product) && fits_in_i32(red_product)
        && fits_in_i32(def_spacing as i64 + (bar - lit_pixels)) && fits_in_i32(def_spacing as i64 + (bar - red))
}

/// Lays out a strip meter's bar: lit rows in whole three-pixel steps from the bottom,
/// red rows over the bottom of the lit ones; `None` when no room is left for a bar.
pub fn strip_meter(rect: &Rect, font_height: i32, def_spacing: i32, lit_percent: u8, red_percent: u8) -> (r: Option<StripMeter>)
    requires
        lit_percent <= 100,
        red_percent <= 100,
        strip_meter_fits(*rect, font_height as int, def_spacing as int, lit_percent as int, red_percent as int),
    ensures
        ({
            let bar = rect.bottom - rect.top - (font_height + def_spacing * 3);
            &&& (bar <= 0 ==> r is None)
            &&& (bar > 0 ==> (r matches Some(m) && {
                let lit = lit_percent * bar / 100;
                let red0 = red_percent * bar / 100;
                let red = if red0 > lit { lit } else { red0 };
                let unlit = ((bar - lit) / 3) * 3;
                let lit_pixels = bar - unlit;
                &&& m.x_offset == trunc_div((rect.right - rect.left) - 33, 2)
                &&& m.bar_height == bar
                &&& m.unlit_height == bar - lit_pixels
                &&& m.lit_top == def_spacing + (bar - lit_pixels)
                &&& m.lit_height == (if lit_pixels - red > 0 { lit_pixels - red } else { 0 })
                &&& m.red_top == def_spacing + (bar - red)
                &&& m.red_height == red
            }))
        }),
{
    let bar = rect.bottom - rect.top - (font_height + def_spacing * 3);
    if bar <= 0 {
        return None;
    }
    let span = (rect.right - rect.left) - 33;
    let x_offset = if span >= 0 {
        span / 2
    } else if span == -0x8000_0000i32 {
        -0x4000_0000i32
    } else {
        -((-span) / 2)
    };
    assert(lit_percent as int * bar >= 0) by (nonlinear_arith) requires lit_percent >= 0, bar > 0;
    assert(red_percent as int * bar >= 0) by (nonlinear_arith) requires red_percent >= 0, bar > 0;
    let lit = (lit_percent as i32 * bar) / 100;
    let red0 = (red_percent as i32 * bar) / 100;
    assert(lit <= bar) by (nonlinear_arith) requires lit == (lit_percent as int * bar) / 100, lit_percent <= 100, bar > 0;
    let red = if red0 > lit { lit } else { red0 };
    let unlit = ((bar - lit) / 3) * 3;
    let lit_pixels = bar - unlit;
    let lit_only = lit_pixels - red;
    Some(StripMeter {
        x_offset,
        bar_height: bar,
        unlit_height: bar - lit_pixels,
        lit_top: def_spacing + (bar - lit_pixels),
        lit_height: if lit_only > 0 { lit_only } else { 0 },
        red_top: def_spacing + (bar - red),
        red_height: red,
    })
}

} // verus!
