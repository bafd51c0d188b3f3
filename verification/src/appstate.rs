//! The main window's decisions: what a menu command changes in the settings and asks the
//! window to do, tab switching, the tray icon, the status bar, and the window styles.
use vstd::prelude::*;

use crate::resource::{
    CM_FIRST, IDC_NEXTTAB, IDC_PREVTAB, IDM_ABOUT, IDM_AFFINITY, IDM_ALLCPUS, IDM_ALWAYSONTOP,
    IDM_CONFIRMATIONS, IDM_DETAILS, IDM_DISCONNECT, IDM_EXIT, IDM_HELP, IDM_HIDE, IDM_HIDEWHENMIN,
    IDM_HIGH, IDM_KERNELTIMES, IDM_LARGEICONS, IDM_LOGOFF, IDM_LOW, IDM_MINIMIZEONUSE,
    IDM_MULTIGRAPH, IDM_NORMAL, IDM_NOTITLE, IDM_PAUSED, IDM_PROCCOLS, IDM_PROC_DEBUG,
    IDM_PROC_HIGH, IDM_PROC_LOW, IDM_PROC_NORMAL, IDM_PROC_REALTIME, IDM_PROC_TERMINATE,
    IDM_REFRESH, IDM_RESTORETASKMAN, IDM_RUN, IDM_SENDMESSAGE, IDM_SHOWDOMAINNAMES,
    IDM_SMALLICONS, IDM_TASK_BRINGTOFRONT, IDM_TASK_CASCADE, IDM_TASK_MAXIMIZE,
    IDM_TASK_MINIMIZE, IDM_TASK_TILEHORZ, IDM_TASK_TILEVERT, PROC_PAGE, US_FIRST, USER_PAGE,
    VM_FIRST,
};

verus! {

/// `IDCANCEL`.
pub const IDCANCEL: u16 = 2;

/// The settings the main window's commands change.
#[derive(Clone, Copy, PartialEq, Eq, Structural, Debug)]
pub struct AppOptions {
    pub always_on_top: bool,
    pub hide_when_minimized: bool,
    pub minimize_on_use: bool,
    pub confirmations: bool,
    pub no_title: bool,
    pub kernel_times: bool,
    /// Large icons, small icons or details (0, 1, 2).
    pub view_mode: i32,
    /// One graph for all processors, or one per processor (0, 1).
    pub cpu_history_mode: i32,
    /// High, normal, low or paused (0 to 3).
    pub update_speed: i32,
    /// Milliseconds between refreshes, 0 when paused.
    pub timer_interval: u32,
    /// The page shown, or -1 before any.
    pub current_page: i32,
}

/// What the main window does after a command.
#[derive(Clone, Copy, PartialEq, Eq, Structural, Debug)]
pub enum AppAction {
    Nothing,
    Minimize,
    Destroy,
    ShowRunningInstance,
    SwitchTab { forward: bool },
    /// Put the window above (or back among) the others.
    SetTopmost(bool),
    /// Hand the settings to every page and lay out the active one again.
    ApplyOptionsToPages,
    RefreshPerformancePage,
    RefreshTaskPage,
    /// Restart the refresh timer (no timer for 0).
    ResetTimer(u32),
    Refresh,
    About,
    ForwardToTaskPage(u16),
    ForwardToProcessPage(u16),
    ForwardToUserPage(u16),
    Beep,
    Run,
    Help,
}

/// What a command does: the action, and whether the menu's checks are brought up to date.
#[derive(Clone, Copy, PartialEq, Eq, Structural, Debug)]
pub struct CommandOutcome {
    pub action: AppAction,
    pub update_menus: bool,
}

/// Milliseconds between refreshes for each update speed: high, normal, low, paused.
pub open spec fn spec_timer_delay(update_speed: int) -> u32 {
    if update_speed == 0 { 500 } else if update_speed == 1 { 2000 } else if update_speed == 2 { 4000 } else { 0 }
}

/// What a menu command does to the settings and asks of the window.
pub open spec fn spec_on_command(o: AppOptions, command_id: u16) -> (AppOptions, CommandOutcome) {
    let nothing = CommandOutcome { action: AppAction::Nothing, update_menus: false };
    if command_id == IDM_HIDE {
        (o, CommandOutcome { action: AppAction::Minimize, update_menus: false })
    } else if command_id == IDCANCEL || command_id == IDM_EXIT {
        (o, CommandOutcome { action: AppAction::Destroy, update_menus: false })
    } else if command_id == IDM_RESTORETASKMAN {
        (o, CommandOutcome { action: AppAction::ShowRunningInstance, update_menus: false })
    } else if command_id == IDC_NEXTTAB || command_id == IDC_PREVTAB {
        (o, CommandOutcome { action: AppAction::SwitchTab { forward: command_id == IDC_NEXTTAB }, update_menus: false })
    } else if command_id == IDM_ALWAYSONTOP {
        (AppOptions { always_on_top: !o.always_on_top, ..o },
         CommandOutcome { action: AppAction::SetTopmost(!o.always_on_top), update_menus: true })
    } else if command_id == IDM_HIDEWHENMIN {
        (AppOptions { hide_when_minimized: !o.hide_when_minimized, ..o }, CommandOutcome { action: AppAction::Nothing, update_menus: true })
    } else if command_id == IDM_MINIMIZEONUSE {
        (AppOptions { minimize_on_use: !o.minimize_on_use, ..o }, CommandOutcome { action: AppAction::Nothing, update_menus: true })
    } else if command_id == IDM_CONFIRMATIONS {
        (AppOptions { confirmations: !o.confirmations, ..o }, CommandOutcome { action: AppAction::Nothing, update_menus: true })
    } else if command_id == IDM_NOTITLE {
        (AppOptions { no_title: !o.no_title, ..o }, CommandOutcome { action: AppAction::ApplyOptionsToPages, update_menus: true })
    } else if command_id == IDM_KERNELTIMES {
        (AppOptions { kernel_times: !o.kernel_times, ..o }, CommandOutcome { action: AppAction::RefreshPerformancePage, update_menus: true })
    } else if command_id == IDM_LARGEICONS || command_id == IDM_SMALLICONS || command_id == IDM_DETAILS {
        (AppOptions { view_mode: (command_id - VM_FIRST) as i32, ..o }, CommandOutcome { action: AppAction::RefreshTaskPage, update_menus: true })
    } else if command_id == IDM_ALLCPUS || command_id == IDM_MULTIGRAPH {
        (AppOptions { cpu_history_mode: (command_id - CM_FIRST) as i32, ..o },
         CommandOutcome { action: AppAction::RefreshPerformancePage, update_menus: true })
    } else if command_id == IDM_HIGH || command_id == IDM_NORMAL || command_id == IDM_LOW || command_id == IDM_PAUSED {
        let speed = (command_id - US_FIRST) as i32;
        (AppOptions { update_speed: speed, timer_interval: spec_timer_delay(speed as int), ..o },
         CommandOutcome { action: AppAction::ResetTimer(spec_timer_delay(speed as int)), update_menus: true })
    } else if command_id == IDM_REFRESH {
        (o, CommandOutcome { action: AppAction::Refresh, update_menus: false })
    } else if command_id == IDM_ABOUT {
        (o, CommandOutcome { action: AppAction::About, update_menus: false })
    } else if command_id == IDM_TASK_CASCADE || command_id == IDM_TASK_MINIMIZE || command_id == IDM_TASK_MAXIMIZE
        || command_id == IDM_TASK_TILEHORZ || command_id == IDM_TASK_TILEVERT || command_id == IDM_TASK_BRINGTOFRONT {
        (o, CommandOutcome { action: AppAction::ForwardToTaskPage(command_id), update_menus: false })
    } else if command_id == IDM_PROCCOLS || command_id == IDM_AFFINITY || command_id == IDM_PROC_DEBUG
        || command_id == IDM_PROC_TERMINATE || command_id == IDM_PROC_REALTIME || command_id == IDM_PROC_HIGH
        || command_id == IDM_PROC_NORMAL || command_id == IDM_PROC_LOW {
        if o.current_page == PROC_PAGE as i32 {
            (o, CommandOutcome { action: AppAction::ForwardToProcessPage(command_id), update_menus: false })
        } else {
            (o, CommandOutcome { action: AppAction::Beep, update_menus: false })
        }
    } else if command_id == IDM_SHOWDOMAINNAMES || command_id == IDM_SENDMESSAGE || command_id == IDM_DISCONNECT
        || command_id == IDM_LOGOFF {
        if o.current_page == USER_PAGE as i32 {
            (o, CommandOutcome { action: AppAction::ForwardToUserPage(command_id), update_menus: true })
        } else {
            (o, CommandOutcome { action: AppAction::Beep, update_menus: false })
        }
    } else if command_id == IDM_RUN {
        (o, CommandOutcome { action: AppAction::Run, update_menus: false })
    } else if command_id == IDM_HELP {
        (o, CommandOutcome { action: AppAction::Help, update_menus: false })
    } else {
        (o, nothing)
    }
}

/// Milliseconds between refreshes for an update speed.
pub fn timer_delay(update_speed: i32) -> (r: u32)
    requires
        0 <= update_speed < 4,
    ensures
        r == spec_timer_delay(update_speed as int),
{
    if update_speed == 0 { 500 } else if update_speed == 1 { 2000 } else if update_speed == 2 { 4000 } else { 0 }
}

/// Applies a menu command to the settings and says what the window does next.
pub fn on_command(options: &mut AppOptions, command_id: u16) -> (r: CommandOutcome)
    ensures
        (*final(options), r) == spec_on_command(*old(options), command_id),
{
    if command_id == IDM_HIDE {
        CommandOutcome { action: AppAction::Minimize, update_menus: false }
    } else if command_id == IDCANCEL || command_id == IDM_EXIT {
        CommandOutcome { action: AppAction::Destroy, update_menus: false }
    } else if command_id == IDM_RESTORETASKMAN {
        CommandOutcome { action: AppAction::ShowRunningInstance, update_menus: false }
    } else if command_id == IDC_NEXTTAB || command_id == IDC_PREVTAB {
        CommandOutcome { action: AppAction::SwitchTab { forward: command_id == IDC_NEXTTAB }, update_menus: false }
    } else if command_id == IDM_ALWAYSONTOP {
        let always_on_top = !options.always_on_top;
        options.always_on_top = always_on_top;
        CommandOutcome { action: AppAction::SetTopmost(always_on_top), update_menus: true }
    } else if command_id == IDM_HIDEWHENMIN {
        options.hide_when_minimized = !options.hide_when_minimized;
        CommandOutcome { action: AppAction::Nothing, update_menus: true }
    } else if command_id == IDM_MINIMIZEONUSE {
        options.minimize_on_use = !options.minimize_on_use;
        CommandOutcome { action: AppAction::Nothing, update_menus: true }
    } else if command_id == IDM_CONFIRMATIONS {
        options.confirmations = !options.confirmations;
        CommandOutcome { action: AppAction::Nothing, update_menus: true }
    } else if command_id == IDM_NOTITLE {
        options.no_title = !options.no_title;
        CommandOutcome { action: AppAction::ApplyOptionsToPages, update_menus: true }
    } else if command_id == IDM_KERNELTIMES {
        options.kernel_times = !options.kernel_times;
        CommandOutcome { action: AppAction::RefreshPerformancePage, update_menus: true }
    } else if command_id == IDM_LARGEICONS || command_id == IDM_SMALLICONS || command_id == IDM_DETAILS {
        options.view_mode = (command_id - VM_FIRST) as i32;
        CommandOutcome { action: AppAction::RefreshTaskPage, update_menus: true }
    } else if command_id == IDM_ALLCPUS || command_id == IDM_MULTIGRAPH {
        options.cpu_history_mode = (command_id - CM_FIRST) as i32;
        CommandOutcome { action: AppAction::RefreshPerformancePage, update_menus: true }
    } else if command_id == IDM_HIGH || command_id == IDM_NORMAL || command_id == IDM_LOW || command_id == IDM_PAUSED {
        let speed = (command_id - US_FIRST) as i32;
        let delay = timer_delay(speed);
        options.update_speed = speed;
        options.timer_interval = delay;
        CommandOutcome { action: AppAction::ResetTimer(delay), update_menus: true }
    } else if command_id == IDM_REFRESH {
        CommandOutcome { action: AppAction::Refresh, update_menus: false }
    } else if command_id == IDM_ABOUT {
        CommandOutcome { action: AppAction::About, update_menus: false }
    } else if command_id == IDM_TASK_CASCADE || command_id == IDM_TASK_MINIMIZE || command_id == IDM_TASK_MAXIMIZE
        || command_id == IDM_TASK_TILEHORZ || command_id == IDM_TASK_TILEVERT || command_id == IDM_TASK_BRINGTOFRONT {
        CommandOutcome { action: AppAction::ForwardToTaskPage(command_id), update_menus: false }
    } else if command_id == IDM_PROCCOLS || command_id == IDM_AFFINITY || command_id == IDM_PROC_DEBUG
        || command_id == IDM_PROC_TERMINATE || command_id == IDM_PROC_REALTIME || command_id == IDM_PROC_HIGH
        || command_id == IDM_PROC_NORMAL || command_id == IDM_PROC_LOW {
        if options.current_page == PROC_PAGE as i32 {
            CommandOutcome { action: AppAction::ForwardToProcessPage(command_id), update_menus: false }
        } else {
            CommandOutcome { action: AppAction::Beep, update_menus: false }
        }
    } else if command_id == IDM_SHOWDOMAINNAMES || command_id == IDM_SENDMESSAGE || command_id == IDM_DISCONNECT
        || command_id == IDM_LOGOFF {
        if options.current_page == USER_PAGE as i32 {
            CommandOutcome { action: AppAction::ForwardToUserPage(command_id), update_menus: true }
        } else {
            CommandOutcome { action: AppAction::Beep, update_menus: false }
        }
    } else if command_id == IDM_RUN {
        CommandOutcome { action: AppAction::Run, update_menus: false }
    } else if command_id == IDM_HELP {
        CommandOutcome { action: AppAction::Help, update_menus: false }
    } else {
        CommandOutcome { action: AppAction::Nothing, update_menus: false }
    }
}

/// Choosing a toggle twice leaves the settings as they were.
pub proof fn lemma_toggle_twice(o: AppOptions, command_id: u16)
    requires
        command_id == IDM_ALWAYSONTOP || command_id == IDM_HIDEWHENMIN || command_id == IDM_MINIMIZEONUSE
            || command_id == IDM_CONFIRMATIONS || command_id == IDM_NOTITLE || command_id == IDM_KERNELTIMES,
    ensures
        spec_on_command(spec_on_command(o, command_id).0, command_id).0 == o,
{
}

/// Each option command flips its own option and leaves every other setting as it was, and
/// the menus are brought up to date.
pub proof fn lemma_toggle_flips_only_its_option(o: AppOptions)
    ensures
        spec_on_command(o, IDM_ALWAYSONTOP).0.always_on_top == !o.always_on_top,
        (AppOptions { always_on_top: o.always_on_top, ..spec_on_command(o, IDM_ALWAYSONTOP).0 }) == o,
        spec_on_command(o, IDM_ALWAYSONTOP).1.update_menus,
        spec_on_command(o, IDM_HIDEWHENMIN).0.hide_when_minimized == !o.hide_when_minimized,
        (AppOptions { hide_when_minimized: o.hide_when_minimized, ..spec_on_command(o, IDM_HIDEWHENMIN).0 }) == o,
        spec_on_command(o, IDM_HIDEWHENMIN).1.update_menus,
        spec_on_command(o, IDM_MINIMIZEONUSE).0.minimize_on_use == !o.minimize_on_use,
        (AppOptions { minimize_on_use: o.minimize_on_use, ..spec_on_command(o, IDM_MINIMIZEONUSE).0 }) == o,
        spec_on_command(o, IDM_MINIMIZEONUSE).1.update_menus,
        spec_on_command(o, IDM_CONFIRMATIONS).0.confirmations == !o.confirmations,
        (AppOptions { confirmations: o.confirmations, ..spec_on_command(o, IDM_CONFIRMATIONS).0 }) == o,
        spec_on_command(o, IDM_CONFIRMATIONS).1.update_menus,
        spec_on_command(o, IDM_NOTITLE).0.no_title == !o.no_title,
        (AppOptions { no_title: o.no_title, ..spec_on_command(o, IDM_NOTITLE).0 }) == o,
        spec_on_command(o, IDM_NOTITLE).1.update_menus,
        spec_on_command(o, IDM_KERNELTIMES).0.kernel_times == !o.kernel_times,
        (AppOptions { kernel_times: o.kernel_times, ..spec_on_command(o, IDM_KERNELTIMES).0 }) == o,
        spec_on_command(o, IDM_KERNELTIMES).1.update_menus,
        forall|c: u16| IDM_LARGEICONS <= c <= IDM_DETAILS
            ==> (AppOptions { view_mode: o.view_mode, ..#[trigger] spec_on_command(o, c).0 }) == o,
        forall|c: u16| IDM_ALLCPUS <= c <= IDM_MULTIGRAPH
            ==> (AppOptions { cpu_history_mode: o.cpu_history_mode, ..#[trigger] spec_on_command(o, c).0 }) == o,
        forall|c: u16| IDM_HIGH <= c <= IDM_PAUSED
            ==> (AppOptions { update_speed: o.update_speed, timer_interval: o.timer_interval, ..#[trigger] spec_on_command(o, c).0 }) == o,
        spec_on_command(o, IDM_HIGH).0.timer_interval == 500,
        spec_on_command(o, IDM_NORMAL).0.timer_interval == 2000,
        spec_on_command(o, IDM_LOW).0.timer_interval == 4000,
        spec_on_command(o, IDM_PAUSED).0.timer_interval == 0,
        forall|c: u16| !(c == IDM_ALWAYSONTOP || c == IDM_HIDEWHENMIN || c == IDM_MINIMIZEONUSE || c == IDM_CONFIRMATIONS
            || c == IDM_NOTITLE || c == IDM_KERNELTIMES || IDM_LARGEICONS <= c <= IDM_DETAILS
            || IDM_ALLCPUS <= c <= IDM_MULTIGRAPH || IDM_HIGH <= c <= IDM_PAUSED)
            ==> #[trigger] spec_on_command(o, c).0 == o,
{
}

/// A choice of view, graph mode or update speed is remembered as its place in its run of
/// menu items, so the menu checks the item chosen.
pub proof fn lemma_radio_choice_round_trip(o: AppOptions, command_id: u16)
    ensures
        (IDM_LARGEICONS <= command_id <= IDM_DETAILS) ==> VM_FIRST + spec_on_command(o, command_id).0.view_mode == command_id,
        (IDM_ALLCPUS <= command_id <= IDM_MULTIGRAPH) ==> CM_FIRST + spec_on_command(o, command_id).0.cpu_history_mode == command_id,
        (IDM_HIGH <= command_id <= IDM_PAUSED) ==> US_FIRST + spec_on_command(o, command_id).0.update_speed == command_id,
{
}

/// The page after switching tabs: the next one, wrapping to the first; or the previous
/// one, wrapping to the last. No page shown counts as the first.
pub open spec fn spec_next_tab(current_page: i32, page_count: usize, forward: bool) -> usize {
    let current = if current_page > 0 { current_page as int } else { 0 };
    if forward {
        ((current + 1) % (page_count as int)) as usize
    } else if current == 0 {
        (page_count - 1) as usize
    } else {
        (current - 1) as usize
    }
}

/// The page after switching tabs.
pub fn next_tab_index(current_page: i32, page_count: usize, forward: bool) -> (r: usize)
    requires
        page_count > 0,
        current_page < page_count,
    ensures
        r == spec_next_tab(current_page, page_count, forward),
        r < page_count,
{
    let current: usize = if current_page > 0 { current_page as usize } else { 0 };
    if forward {
        (current + 1) % page_count
    } else if current == 0 {
        page_count - 1
    } else {
        current - 1
    }
}

/// Switching forward and then back (or back and then forward) returns to the page shown.
pub proof fn lemma_tabs_round_trip(current_page: i32, page_count: usize, forward: bool)
    requires
        0 < page_count <= i32::MAX,
        0 <= current_page < page_count,
    ensures
        spec_next_tab(spec_next_tab(current_page, page_count, forward) as i32, page_count, !forward) == current_page,
{
    let n = page_count as int;
    let c = current_page as int;
    let m = spec_next_tab(current_page, page_count, forward);
    if forward {
        if c + 1 < n {
            assert((c + 1) % n == c + 1) by (nonlinear_arith) requires 0 <= c + 1 < n;
        } else {
            assert((c + 1) % n == 0) by (nonlinear_arith) requires c + 1 == n, n > 0;
        }
    } else {
        if c == 0 {
            assert((n - 1 + 1) % n == 0) by (nonlinear_arith) requires n > 0;
        } else {
            assert((c - 1 + 1) % n == c) by (nonlinear_arith) requires 0 < c < n;
        }
    }
    assert(0 <= m < n);
    assert(m as i32 as int == m as int);
}

/// The tray icon for a CPU usage: icons in even steps of the usage, the last for the top.
pub open spec fn spec_tray_icon_index(cpu_usage: u8, icon_count: usize) -> usize {
    let i = (cpu_usage as int * icon_count as int) / 100;
    if i >= icon_count { (icon_count - 1) as usize } else { i as usize }
}

/// The tray icon for a CPU usage.
pub fn tray_icon_index(cpu_usage: u8, icon_count: usize) -> (r: usize)
    requires
        icon_count > 0,
        icon_count <= 0x100_0000,
    ensures
        r == spec_tray_icon_index(cpu_usage, icon_count),
        r < icon_count,
{
    assert(cpu_usage as int * icon_count as int <= 255 * 0x100_0000) by (nonlinear_arith)
        requires cpu_usage <= 255, icon_count <= 0x100_0000;
    assert(0 <= cpu_usage as int * icon_count as int) by (nonlinear_arith)
        requires cpu_usage >= 0, icon_count >= 0;
    let i = (cpu_usage as usize * icon_count) / 100;
    if i >= icon_count { icon_count - 1 } else { i }
}

/// Mouse messages that the tray icon forwards (`WM_LBUTTONDBLCLK`, `WM_RBUTTONDOWN`).
pub const WM_LBUTTONDBLCLK: u32 = 0x0203;
pub const WM_RBUTTONDOWN: u32 = 0x0204;

/// What a mouse message on the tray icon asks for.
#[derive(Clone, Copy, PartialEq, Eq, Structural, Debug)]
pub enum TrayAction {
    Nothing,
    /// Bring the window back and to the front.
    ShowWindow,
    /// Show the tray icon's popup menu.
    PopupMenu,
}

/// A double click on the tray icon shows the window; pressing the right button opens
/// the popup menu; other messages do nothing.
pub fn tray_action(mouse_message: u32) -> (r: TrayAction)
    ensures
        r == (if mouse_message == WM_LBUTTONDBLCLK {
            TrayAction::ShowWindow
        } else if mouse_message == WM_RBUTTONDOWN {
            TrayAction::PopupMenu
        } else {
            TrayAction::Nothing
        }),
{
    if mouse_message == WM_LBUTTONDBLCLK {
        TrayAction::ShowWindow
    } else if mouse_message == WM_RBUTTONDOWN {
        TrayAction::PopupMenu
    } else {
        TrayAction::Nothing
    }
}

/// How the tray icon's popup menu is prepared.
#[derive(Clone, Copy, PartialEq, Eq, Structural, Debug)]
pub struct TrayMenuState {
    /// "Restore" is taken out of the menu.
    pub remove_restore: bool,
    /// "Restore" is the menu's default item.
    pub restore_is_default: bool,
    /// "Always on top" carries a check mark.
    pub always_on_top_checked: bool,
}

/// While the window shows, "Restore" leaves the tray menu; while it is hidden, it is
/// the default item. "Always on top" is checked when that option is on.
pub fn tray_menu_state(window_visible: bool, always_on_top: bool) -> (r: TrayMenuState)
    ensures
        r == (TrayMenuState {
            remove_restore: window_visible,
            restore_is_default: !window_visible,
            always_on_top_checked: always_on_top,
        }),
{
    TrayMenuState { remove_restore: window_visible, restore_is_default: !window_visible, always_on_top_checked: always_on_top }
}

/// Busy share of the whole machine since the previous sample, from its idle, kernel and
/// user times; `None` when this is the first sample or no time passed (the share stays).
pub open spec fn spec_runtime_cpu(previous: (u64, u64, u64), current: (u64, u64, u64)) -> Option<u8> {
    let sat_sub = |a: u64, b: u64| if a >= b { (a - b) as int } else { 0int };
    if previous.0 == 0 {
        None
    } else {
        let d_idle = sat_sub(current.0, previous.0);
        let k = sat_sub(current.1, previous.1);
        let u = sat_sub(current.2, previous.2);
        let d_total = if k + u > u64::MAX { u64::MAX as int } else { k + u };
        if d_total == 0 {
            None
        } else {
            let active = if d_total >= d_idle { d_total - d_idle } else { 0 };
            Some(((active * 100) / d_total) as u8)
        }
    }
}

/// The busy share is the part of the elapsed kernel and user time (kernel time counting
/// the idle time) that was not idle, in whole percent rounded down: with the counters going
/// forward by `di` idle, `dk` kernel and `du` user time, it is `(dk + du - di) * 100 / (dk + du)`.
/// A wholly idle interval is 0 %, one without idle time 100 %.
pub proof fn lemma_runtime_cpu_share(previous: (u64, u64, u64), current: (u64, u64, u64))
    requires
        previous.0 != 0,
        previous.0 <= current.0,
        previous.1 <= current.1,
        previous.2 <= current.2,
        (current.1 - previous.1) + (current.2 - previous.2) <= u64::MAX,
        (current.1 - previous.1) + (current.2 - previous.2) > 0,
        current.0 - previous.0 <= (current.1 - previous.1) + (current.2 - previous.2),
    ensures
        ({
            let di = current.0 - previous.0;
            let total = (current.1 - previous.1) + (current.2 - previous.2);
            &&& spec_runtime_cpu(previous, current) == Some((((total - di) * 100) / total) as u8)
            &&& (di == total ==> spec_runtime_cpu(previous, current) == Some(0u8))
            &&& (di == 0 ==> spec_runtime_cpu(previous, current) == Some(100u8))
        }),
{
    let di = current.0 - previous.0;
    let total = (current.1 - previous.1) + (current.2 - previous.2);
    assert(0 <= ((total - di) * 100) / total <= 100) by (nonlinear_arith)
        requires 0 <= di <= total, total > 0;
    assert((total * 100) / total == 100) by (nonlinear_arith)
        requires total > 0;
}

/// Without a previous sample, or when no time passed, there is no new busy share.
pub proof fn lemma_runtime_cpu_none(previous: (u64, u64, u64), current: (u64, u64, u64))
    ensures
        previous.0 == 0 ==> spec_runtime_cpu(previous, current) is None,
        previous.1 == current.1 && previous.2 == current.2 ==> spec_runtime_cpu(previous, current) is None,
{
}

/// The machine's busy share since the previous sample.
pub fn runtime_cpu_usage(previous: (u64, u64, u64), current: (u64, u64, u64)) -> (r: Option<u8>)
    ensures
        r == spec_runtime_cpu(previous, current),
        r matches Some(p) ==> p <= 100,
{
    if previous.0 == 0 {
        return None;
    }
    let d_idle = current.0.saturating_sub(previous.0);
    let d_total = current.1.saturating_sub(previous.1).saturating_add(current.2.saturating_sub(previous.2));
    if d_total == 0 {
        return None;
    }
    let active = d_total.saturating_sub(d_idle);
    let p = (active as u128 * 100) / (d_total as u128);
    assert(p <= 100) by (nonlinear_arith)
        requires p == (active as int * 100) / (d_total as int), active <= d_total, d_total > 0;
    Some(p as u8)
}

/// Physical memory in use and in total, in kilobytes, as the status bar shows them.
pub fn memory_kb(total_phys: u64, avail_phys: u64) -> (r: (u32, u32))
    requires
        avail_phys <= total_phys,
    ensures
        r.0 == ((total_phys - avail_phys) / 1024) as u32,
        r.1 == (total_phys / 1024) as u32,
{
    (((total_phys - avail_phys) / 1024) as u32, (total_phys / 1024) as u32)
}

/// Window style bits (`WS_*`).
pub const WS_MAXIMIZEBOX: u32 = 0x0001_0000;
pub const WS_MINIMIZEBOX: u32 = 0x0002_0000;
pub const WS_THICKFRAME: u32 = 0x0004_0000;
pub const WS_SYSMENU: u32 = 0x0008_0000;
pub const WS_DLGFRAME: u32 = 0x0040_0000;
pub const WS_BORDER: u32 = 0x0080_0000;
pub const WS_CAPTION: u32 = 0x00C0_0000;
pub const WS_POPUP: u32 = 0x8000_0000;
pub const WS_TILEDWINDOW: u32 = 0x00CF_0000;

/// The main window's style with its frame: popup, caption and system-menu bits replaced
/// by a normal overlapped window's.
pub fn framed_window_style(current_style: u32) -> (r: u32)
    ensures
        r == ((current_style & !(WS_POPUP | WS_CAPTION | WS_SYSMENU | WS_DLGFRAME)) | WS_TILEDWINDOW),
{
    (current_style & !(WS_POPUP | WS_CAPTION | WS_SYSMENU | WS_DLGFRAME)) | WS_TILEDWINDOW
}

/// The main window's style without frame controls, for the title-less mode.
pub fn borderless_window_style(framed_style: u32) -> (r: u32)
    ensures
        r == (framed_style & !(WS_DLGFRAME | WS_SYSMENU | WS_MINIMIZEBOX | WS_MAXIMIZEBOX)),
{
    framed_style & !(WS_DLGFRAME | WS_SYSMENU | WS_MINIMIZEBOX | WS_MAXIMIZEBOX)
}

/// A framed window made borderless keeps no system menu, dialog frame or boxes.
pub proof fn lemma_borderless_has_no_frame_controls(style: u32)
    ensures
        borderless_style_spec(style) & (WS_DLGFRAME | WS_SYSMENU | WS_MINIMIZEBOX | WS_MAXIMIZEBOX) == 0,
{
    assert((style & !(0x0040_0000u32 | 0x0008_0000u32 | 0x0002_0000u32 | 0x0001_0000u32))
        & (0x0040_0000u32 | 0x0008_0000u32 | 0x0002_0000u32 | 0x0001_0000u32) == 0) by (bit_vector);
}

/// The borderless style, as a spec function.
pub open spec fn borderless_style_spec(style: u32) -> u32 {
    style & !(WS_DLGFRAME | WS_SYSMENU | WS_MINIMIZEBOX | WS_MAXIMIZEBOX)
}

/// Menu flag bits seen in a menu selection (`MF_*`).
pub const MF_POPUP: u32 = 0x0010;
pub const MF_SEPARATOR: u32 = 0x0800;
pub const MF_SYSMENU: u32 = 0x2000;

/// What a menu selection does to the status bar.
#[derive(Clone, Copy, PartialEq, Eq, Structural, Debug)]
pub enum MenuSelection {
    /// The menu closed, or a system item or separator is highlighted: show the figures.
    EndTracking,
    /// Look up the item of a submenu, then show its help.
    SubmenuHelp(u32),
    /// Show the help of this item.
    ItemHelp(u32),
}

/// Decodes a menu selection.
pub fn menu_selection(item_id: u16, flags: u16, menu_is_null: bool) -> (r: MenuSelection)
    ensures
        r == (if (item_id == 0xFFFF && menu_is_null) || (flags as u32 & (MF_SYSMENU | MF_SEPARATOR)) != 0 {
            MenuSelection::EndTracking
        } else if (flags as u32 & MF_POPUP) != 0 && !menu_is_null {
            MenuSelection::SubmenuHelp(item_id as u32)
        } else {
            MenuSelection::ItemHelp(item_id as u32)
        }),
{
    let f = flags as u32;
    if (item_id == 0xFFFF && menu_is_null) || (f & (MF_SYSMENU | MF_SEPARATOR)) != 0 {
        MenuSelection::EndTracking
    } else if (f & MF_POPUP) != 0 && !menu_is_null {
        MenuSelection::SubmenuHelp(item_id as u32)
    } else {
        MenuSelection::ItemHelp(item_id as u32)
    }
}

/// Whether a right click hides the always-on-top window while the button is down.
pub fn hides_on_right_button(in_popup: bool, temporarily_hidden: bool, cant_hide: bool, always_on_top: bool) -> (r: bool)
    ensures
        r == (!in_popup && !temporarily_hidden && !cant_hide && always_on_top),
{
    !in_popup && !temporarily_hidden && !cant_hide && always_on_top
}

/// How the window comes back when the right button that hid it is released.
#[derive(Clone, Copy, PartialEq, Eq, Structural, Debug)]
pub enum RestoreShow {
    /// Shown minimized, without taking the focus.
    Minimized,
    /// Shown maximized and brought to the front.
    Maximized,
    /// Shown as it was, without taking the focus, and brought to the front.
    Normal,
}

/// A minimized window comes back minimized, a maximized one maximized, any other as it was.
pub fn restore_after_right_button(iconic: bool, zoomed: bool) -> (r: RestoreShow)
    ensures
        r == (if iconic {
            RestoreShow::Minimized
        } else if zoomed {
            RestoreShow::Maximized
        } else {
            RestoreShow::Normal
        }),
{
    if iconic {
        RestoreShow::Minimized
    } else if zoomed {
        RestoreShow::Maximized
    } else {
        RestoreShow::Normal
    }
}

/// A double click in the client area toggles the title bar; one on the frame does so
/// only while the title bar is hidden.
pub fn double_click_toggles_title(on_frame: bool, no_title: bool) -> (r: bool)
    ensures
        r == (!on_frame || no_title),
{
    !on_frame || no_title
}

/// `HTCLIENT` and `HTCAPTION`.
pub const HTCLIENT: isize = 1;
pub const HTCAPTION: isize = 2;

/// Hit-testing of the main window: without a title bar, dragging the client area of a
/// window that is not maximized moves it.
pub fn nc_hit_test(default_result: isize, no_title: bool, zoomed: bool) -> (r: isize)
    ensures
        r == (if no_title && default_result == HTCLIENT && !zoomed { HTCAPTION } else { default_result }),
{
    if no_title && default_result == HTCLIENT && !zoomed { HTCAPTION } else { default_result }
}

/// Width and height packed in a size message's parameter.
pub fn size_from_lparam(lparam: isize) -> (r: (i32, i32))
    ensures
        r.0 == (lparam & 0xFFFF),
        r.1 == ((lparam >> 16u32) & 0xFFFF),
{
    let w = lparam & 0xFFFF;
    let h = (lparam >> 16u32) & 0xFFFF;
    assert(0 <= lparam & 0xFFFF <= 0xFFFF) by (bit_vector);
    assert(0 <= (lparam >> 16u32) & 0xFFFF <= 0xFFFF) by (bit_vector);
    (w as i32, h as i32)
}

/// The tab control's size in a main window of `width` by `height` whose status bar starts
/// at `status_top`: it keeps its left and top margins on both sides.
pub fn tabs_size(width: i32, height: i32, status_top: i32, tabs_left: i32, tabs_top: i32) -> (r: (i32, i32))
    requires
        0 <= width <= 0xFFFF,
        0 <= height <= 0xFFFF,
        -0x100_0000 <= status_top <= 0x100_0000,
        -0x100_0000 <= tabs_left <= 0x100_0000,
        -0x100_0000 <= tabs_top <= 0x100_0000,
    ensures
        r.0 == width - 2 * tabs_left,
        r.1 == height - (height - status_top) - tabs_top * 2,
{
    (width - 2 * tabs_left, height - (height - status_top) - tabs_top * 2)
}

/// The checked items of the three radio runs of the Options and View menus.
pub fn menu_radio_items(options: &AppOptions) -> (r: (u16, u16, u16))
    requires
        0 <= options.view_mode <= 2,
        0 <= options.cpu_history_mode <= 1,
        0 <= options.update_speed <= 3,
    ensures
        r == ((VM_FIRST + options.view_mode) as u16, (CM_FIRST + options.cpu_history_mode) as u16, (US_FIRST + options.update_speed) as u16),
{
    (VM_FIRST + options.view_mode as u16, CM_FIRST + options.cpu_history_mode as u16, US_FIRST + options.update_speed as u16)
}

/// Whether showing another page first hides the one shown.
pub fn switching_pages(current_page: i32, index: usize) -> (r: bool)
    ensures
        r == (current_page >= 0 && current_page as int != index as int),
{
    current_page >= 0 && (current_page as usize) != index
}

} // verus!
