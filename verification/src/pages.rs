//! The five pages' fixed descriptions, what an owner-drawn control of the performance
//! page shows, the resource names of the embedded assets and the keyboard shortcuts.
use vstd::prelude::*;

use crate::perfcalc::{cpu_graph_pane_index, cpu_graph_pane_index_spec};
use crate::resource::{
    IDC_CPUMETER, IDC_ENDTASK, IDC_MEMGRAPH, IDC_MEMMETER, IDC_NEXTTAB, IDC_NICTOTALS, IDC_PREVTAB,
    IDC_SWITCHTO, IDC_TASKLIST, IDC_USERLIST, IDD_NETPAGE, IDD_PERFPAGE, IDD_PROCPAGE,
    IDD_TASKPAGE, IDD_USERSPAGE, IDM_HIDE, IDM_REFRESH, IDR_MAINMENU_NET, IDR_MAINMENU_PERF,
    IDR_MAINMENU_PROC, IDR_MAINMENU_TASK, IDR_MAINMENU_USER, IDS_NETPAGETITLE, IDS_PERFPAGETITLE,
    IDS_PROCPAGETITLE, IDS_TASKPAGETITLE, IDS_USERPAGETITLE, NET_PAGE, PERF_PAGE, PROC_PAGE,
    TASK_PAGE, USER_PAGE,
};
use crate::strings::{chars_of, decimal, decimal_chars, extend_chars, string_from_chars};
use crate::winutil::{to_wide_null, utf16_units};

verus! {

broadcast use vstd::string::group_string_axioms;

/// Where the keyboard focus goes when a page is shown.
#[derive(Clone, Copy, PartialEq, Eq, Structural, Debug)]
pub enum PageFocusTarget {
    NoFocus,
    Tabs,
    Control(i32),
}

/// A page's dialog, menu, title and first focus.
#[derive(Clone, Copy, PartialEq, Eq, Structural, Debug)]
pub struct PageDescriptor {
    pub dialog_id: u16,
    pub menu_id: u16,
    pub title_id: u32,
    pub initial_focus: PageFocusTarget,
}

/// The description of the page at `index`, in tab order.
pub open spec fn spec_page_descriptor(index: usize) -> Option<PageDescriptor> {
    if index == TASK_PAGE {
        Some(PageDescriptor { dialog_id: IDD_TASKPAGE, menu_id: IDR_MAINMENU_TASK, title_id: IDS_TASKPAGETITLE, initial_focus: PageFocusTarget::Control(IDC_TASKLIST) })
    } else if index == PROC_PAGE {
        Some(PageDescriptor { dialog_id: IDD_PROCPAGE, menu_id: IDR_MAINMENU_PROC, title_id: IDS_PROCPAGETITLE, initial_focus: PageFocusTarget::Tabs })
    } else if index == PERF_PAGE {
        Some(PageDescriptor { dialog_id: IDD_PERFPAGE, menu_id: IDR_MAINMENU_PERF, title_id: IDS_PERFPAGETITLE, initial_focus: PageFocusTarget::NoFocus })
    } else if index == NET_PAGE {
        Some(PageDescriptor { dialog_id: IDD_NETPAGE, menu_id: IDR_MAINMENU_NET, title_id: IDS_NETPAGETITLE, initial_focus: PageFocusTarget::Control(IDC_NICTOTALS) })
    } else if index == USER_PAGE {
        Some(PageDescriptor { dialog_id: IDD_USERSPAGE, menu_id: IDR_MAINMENU_USER, title_id: IDS_USERPAGETITLE, initial_focus: PageFocusTarget::Control(IDC_USERLIST) })
    } else {
        None
    }
}

/// The description of the page at `index`.
pub fn page_descriptor(index: usize) -> (r: Option<PageDescriptor>)
    ensures
        r == spec_page_descriptor(index),
{
    if index == TASK_PAGE {
        Some(PageDescriptor { dialog_id: IDD_TASKPAGE, menu_id: IDR_MAINMENU_TASK, title_id: IDS_TASKPAGETITLE, initial_focus: PageFocusTarget::Control(IDC_TASKLIST) })
    } else if index == PROC_PAGE {
        Some(PageDescriptor { dialog_id: IDD_PROCPAGE, menu_id: IDR_MAINMENU_PROC, title_id: IDS_PROCPAGETITLE, initial_focus: PageFocusTarget::Tabs })
    } else if index == PERF_PAGE {
        Some(PageDescriptor { dialog_id: IDD_PERFPAGE, menu_id: IDR_MAINMENU_PERF, title_id: IDS_PERFPAGETITLE, initial_focus: PageFocusTarget::NoFocus })
    } else if index == NET_PAGE {
        Some(PageDescriptor { dialog_id: IDD_NETPAGE, menu_id: IDR_MAINMENU_NET, title_id: IDS_NETPAGETITLE, initial_focus: PageFocusTarget::Control(IDC_NICTOTALS) })
    } else if index == USER_PAGE {
        Some(PageDescriptor { dialog_id: IDD_USERSPAGE, menu_id: IDR_MAINMENU_USER, title_id: IDS_USERPAGETITLE, initial_focus: PageFocusTarget::Control(IDC_USERLIST) })
    } else {
        None
    }
}

/// What an owner-drawn control of the performance page shows.
#[derive(Clone, Copy, PartialEq, Eq, Structural, Debug)]
pub enum PerfDrawTarget {
    CpuGraph(usize),
    CpuMeter,
    MemMeter,
    MemGraph,
    Nothing,
}

/// What an owner-drawn control of the performance page shows.
pub fn perf_draw_target(control_id: i32) -> (r: PerfDrawTarget)
    ensures
        r == (match cpu_graph_pane_index_spec(control_id) {
            Some(pane) => PerfDrawTarget::CpuGraph(pane),
            None => if control_id == IDC_CPUMETER {
                PerfDrawTarget::CpuMeter
            } else if control_id == IDC_MEMMETER {
                PerfDrawTarget::MemMeter
            } else if control_id == IDC_MEMGRAPH {
                PerfDrawTarget::MemGraph
            } else {
                PerfDrawTarget::Nothing
            },
        }),
{
    match cpu_graph_pane_index(control_id) {
        Some(pane) => PerfDrawTarget::CpuGraph(pane),
        None => if control_id == IDC_CPUMETER {
            PerfDrawTarget::CpuMeter
        } else if control_id == IDC_MEMMETER {
            PerfDrawTarget::MemMeter
        } else if control_id == IDC_MEMGRAPH {
            PerfDrawTarget::MemGraph
        } else {
            PerfDrawTarget::Nothing
        },
    }
}

/// NUL-terminated UTF-16 form of a resource name.
pub fn to_wide_resource_name(resource_name: &str) -> (r: Vec<u16>)
    ensures
        r@ == utf16_units(resource_name@).push(0u16),
{
    to_wide_null(resource_name)
}

/// How many tray icons there are, one per step of CPU usage.
pub const TRAY_ICON_COUNT: usize = 12;

/// The resource name of tray icon `index`: `APP_TRAY_{index}_ICON`.
pub fn tray_icon_resource_name(index: usize) -> (r: String)
    requires
        index < TRAY_ICON_COUNT,
    ensures
        r@ == "APP_TRAY_"@ + decimal(index as nat) + "_ICON"@,
{
    let mut out = chars_of("APP_TRAY_");
    let digits = decimal_chars(index as u64);
    extend_chars(&mut out, &digits);
    let tail = chars_of("_ICON");
    extend_chars(&mut out, &tail);
    string_from_chars(&out)
}

/// Accelerator flags (`FVIRTKEY`, `FSHIFT`, `FCONTROL`, `FNOINVERT`) and virtual keys.
pub const FVIRTKEY: u8 = 0x01;
pub const FSHIFT: u8 = 0x04;
pub const FCONTROL: u8 = 0x08;
pub const FNOINVERT: u8 = 0x02;
pub const VK_TAB: u16 = 0x09;
pub const VK_RETURN: u16 = 0x0D;
pub const VK_ESCAPE: u16 = 0x1B;
pub const VK_F5: u16 = 0x74;
pub const VK_DELETE: u16 = 0x2E;

/// One keyboard shortcut: flags, key and command.
#[derive(Clone, Copy, PartialEq, Eq, Structural, Debug)]
pub struct Accelerator {
    pub flags: u8,
    pub key: u16,
    pub command: u16,
}

/// The keyboard shortcuts: Delete ends a task, Shift+Escape hides, F5 refreshes, Enter
/// switches to a task, Ctrl+Tab and Ctrl+Shift+Tab change tabs.
pub fn accelerators() -> (r: Vec<Accelerator>)
    ensures
        r@ == seq![
            Accelerator { flags: FVIRTKEY | FNOINVERT, key: VK_DELETE, command: IDC_ENDTASK as u16 },
            Accelerator { flags: FVIRTKEY | FSHIFT | FNOINVERT, key: VK_ESCAPE, command: IDM_HIDE },
            Accelerator { flags: FVIRTKEY | FNOINVERT, key: VK_F5, command: IDM_REFRESH },
            Accelerator { flags: FVIRTKEY | FNOINVERT, key: VK_RETURN, command: IDC_SWITCHTO as u16 },
            Accelerator { flags: FVIRTKEY | FCONTROL | FNOINVERT, key: VK_TAB, command: IDC_NEXTTAB },
            Accelerator { flags: FVIRTKEY | FSHIFT | FCONTROL | FNOINVERT, key: VK_TAB, command: IDC_PREVTAB },
        ],
{
    let mut v: Vec<Accelerator> = Vec::new();
    v.push(Accelerator { flags: FVIRTKEY | FNOINVERT, key: VK_DELETE, command: IDC_ENDTASK as u16 });
    v.push(Accelerator { flags: FVIRTKEY | FSHIFT | FNOINVERT, key: VK_ESCAPE, command: IDM_HIDE });
    v.push(Accelerator { flags: FVIRTKEY | FNOINVERT, key: VK_F5, command: IDM_REFRESH });
    v.push(Accelerator { flags: FVIRTKEY | FNOINVERT, key: VK_RETURN, command: IDC_SWITCHTO as u16 });
    v.push(Accelerator { flags: FVIRTKEY | FCONTROL | FNOINVERT, key: VK_TAB, command: IDC_NEXTTAB });
    v.push(Accelerator { flags: FVIRTKEY | FSHIFT | FCONTROL | FNOINVERT, key: VK_TAB, command: IDC_PREVTAB });
    assert(v@ =~= seq![
        Accelerator { flags: FVIRTKEY | FNOINVERT, key: VK_DELETE, command: IDC_ENDTASK as u16 },
        Accelerator { flags: FVIRTKEY | FSHIFT | FNOINVERT, key: VK_ESCAPE, command: IDM_HIDE },
        Accelerator { flags: FVIRTKEY | FNOINVERT, key: VK_F5, command: IDM_REFRESH },
        Accelerator { flags: FVIRTKEY | FNOINVERT, key: VK_RETURN, command: IDC_SWITCHTO as u16 },
        Accelerator { flags: FVIRTKEY | FCONTROL | FNOINVERT, key: VK_TAB, command: IDC_NEXTTAB },
        Accelerator { flags: FVIRTKEY | FSHIFT | FCONTROL | FNOINVERT, key: VK_TAB, command: IDC_PREVTAB },
    ]);
    v
}

/// The menu items removed from a loaded menu: "Run" when policy forbids it, the
/// per-processor graph choice "All CPUs" on a single processor.
pub fn menu_items_removed(run_restricted: bool, processor_count: usize) -> (r: (bool, bool))
    ensures
        r == (run_restricted, processor_count <= 1),
{
    (run_restricted, processor_count <= 1)
}

} // verus!
