//! Which texts a dialog or a menu receives when the interface is shown in a language:
//! each dialog's controls, each menu command, and the titles of the submenus.
use vstd::prelude::*;

use crate::resource::{
    IDC_AFFINITY_DESC, IDC_AFFINITY_GROUP, IDC_BASEPRIORITY, IDC_COMMITCHARGE, IDC_CPU,
    IDC_CPUFRAME, IDC_CPUTIME, IDC_CPUUSAGEFRAME, IDC_ENDTASK, IDC_HANDLECOUNT, IDC_IMAGENAME,
    IDC_MEMBARFRAME, IDC_MEMFRAME, IDC_MEMUSAGE, IDC_MEMUSAGEDIFF, IDC_MESSAGE_BODY_LABEL,
    IDC_MESSAGE_TITLE_LABEL, IDC_NOADAPTERS, IDC_NONPAGEDPOOL, IDC_PAGEDPOOL, IDC_PAGEFAULTS,
    IDC_PAGEFAULTSDIFF, IDC_PID, IDC_SELECTPROCCOLS_DESC, IDC_SESSIONID, IDC_STATIC1,
    IDC_STATIC10, IDC_STATIC11, IDC_STATIC12, IDC_STATIC13, IDC_STATIC14, IDC_STATIC15,
    IDC_STATIC16, IDC_STATIC17, IDC_STATIC2, IDC_STATIC3, IDC_STATIC4, IDC_STATIC5, IDC_STATIC6,
    IDC_STATIC8, IDC_STATIC9, IDC_SWITCHTO, IDC_TERMINATE, IDC_THREADCOUNT, IDC_USERNAME,
    IDD_AFFINITY, IDD_MESSAGE, IDD_NETPAGE, IDD_PERFPAGE, IDD_PROCPAGE, IDD_SELECTPROCCOLS,
    IDD_TASKPAGE, IDD_USERSPAGE, IDM_ABOUT, IDM_AFFINITY, IDM_ALLCPUS, IDM_ALWAYSONTOP,
    IDM_CONFIRMATIONS, IDM_DETAILS, IDM_DISCONNECT, IDM_EXIT, IDM_HELP, IDM_HIDEWHENMIN,
    IDM_HIGH, IDM_KERNELTIMES, IDM_LARGEICONS, IDM_LOGOFF, IDM_LOW, IDM_MINIMIZEONUSE,
    IDM_MULTIGRAPH, IDM_NORMAL, IDM_NOTITLE, IDM_PAUSED, IDM_PROCCOLS, IDM_PROC_DEBUG,
    IDM_PROC_HIGH, IDM_PROC_LOW, IDM_PROC_NORMAL, IDM_PROC_REALTIME, IDM_PROC_TERMINATE,
    IDM_REFRESH, IDM_RESTORETASKMAN, IDM_RUN, IDM_SENDMESSAGE, IDM_SHOWDOMAINNAMES,
    IDM_SMALLICONS, IDM_TASK_BRINGTOFRONT, IDM_TASK_CASCADE, IDM_TASK_ENDTASK,
    IDM_TASK_FINDPROCESS, IDM_TASK_MAXIMIZE, IDM_TASK_MINIMIZE, IDM_TASK_SWITCHTO,
    IDM_TASK_TILEHORZ, IDM_TASK_TILEVERT, IDM_USERCOLS, IDR_MAINMENU_NET, IDR_MAINMENU_PERF,
    IDR_MAINMENU_PROC, IDR_MAINMENU_TASK, IDR_MAINMENU_USER, IDR_PROC_CONTEXT, IDR_TASKVIEW,
    IDR_TASK_CONTEXT, IDR_TRAYMENU, IDR_USER_CONTEXT,
};
use crate::text_key::TextKey;

verus! {

/// The standard push buttons of a dialog (`IDOK`, `IDCANCEL`).
pub const IDOK: i32 = 1;
pub const IDCANCEL: i32 = 2;

/// Where a dialog text goes.
#[derive(Clone, Copy, PartialEq, Eq, Structural, Debug)]
pub enum TextTarget {
    /// The dialog's own title.
    Window,
    /// A control, addressed through the dialog by its id.
    Item(i32),
    /// A control that is looked up first and left alone when the dialog lacks it.
    Control(i32),
}

/// One text of a dialog.
#[derive(Clone, Copy, PartialEq, Eq, Structural, Debug)]
pub struct DialogText {
    pub target: TextTarget,
    pub key: TextKey,
}

/// The texts that the dialog `dialog_id` receives, in the order they are set.
pub open spec fn spec_dialog_texts(dialog_id: u16) -> Seq<DialogText> {
    if dialog_id == IDD_TASKPAGE {
        seq![
            DialogText { target: TextTarget::Item(IDC_SWITCHTO), key: TextKey::SwitchTo },
            DialogText { target: TextTarget::Item(IDC_ENDTASK), key: TextKey::EndTask },
            DialogText { target: TextTarget::Item(IDM_RUN as i32), key: TextKey::NewTaskButton },
        ]
    } else if dialog_id == IDD_PROCPAGE {
        seq![
            DialogText { target: TextTarget::Item(IDC_TERMINATE), key: TextKey::EndProcess },
        ]
    } else if dialog_id == IDD_NETPAGE {
        seq![
            DialogText { target: TextTarget::Item(IDC_NOADAPTERS), key: TextKey::NoActiveNetworkAdaptersFound },
        ]
    } else if dialog_id == IDD_USERSPAGE {
        seq![
            DialogText { target: TextTarget::Item(IDM_DISCONNECT as i32), key: TextKey::Disconnect },
            DialogText { target: TextTarget::Item(IDM_LOGOFF as i32), key: TextKey::Logoff },
            DialogText { target: TextTarget::Item(IDM_SENDMESSAGE as i32), key: TextKey::SendMessage },
        ]
    } else if dialog_id == IDD_PERFPAGE {
        seq![
            DialogText { target: TextTarget::Item(IDC_STATIC14), key: TextKey::Handles },
            DialogText { target: TextTarget::Item(IDC_STATIC15), key: TextKey::Threads },
            DialogText { target: TextTarget::Item(IDC_STATIC16), key: TextKey::ProcessesLabel },
            DialogText { target: TextTarget::Item(IDC_STATIC2), key: TextKey::Total },
            DialogText { target: TextTarget::Item(IDC_STATIC3), key: TextKey::Available },
            DialogText { target: TextTarget::Item(IDC_STATIC4), key: TextKey::FileCache },
            DialogText { target: TextTarget::Item(IDC_STATIC6), key: TextKey::Total },
            DialogText { target: TextTarget::Item(IDC_STATIC8), key: TextKey::Limit },
            DialogText { target: TextTarget::Item(IDC_STATIC9), key: TextKey::Peak },
            DialogText { target: TextTarget::Item(IDC_STATIC11), key: TextKey::Total },
            DialogText { target: TextTarget::Item(IDC_STATIC12), key: TextKey::Paged },
            DialogText { target: TextTarget::Item(IDC_STATIC17), key: TextKey::Nonpaged },
            DialogText { target: TextTarget::Control(IDC_CPUFRAME), key: TextKey::CpuUsageHistory },
            DialogText { target: TextTarget::Control(IDC_CPUUSAGEFRAME), key: TextKey::CpuUsage },
            DialogText { target: TextTarget::Control(IDC_MEMBARFRAME), key: TextKey::MemUsage },
            DialogText { target: TextTarget::Control(IDC_MEMFRAME), key: TextKey::MemoryUsageHistory },
            DialogText { target: TextTarget::Control(IDC_STATIC1), key: TextKey::PhysicalMemoryK },
            DialogText { target: TextTarget::Control(IDC_STATIC5), key: TextKey::CommitChargeK },
            DialogText { target: TextTarget::Control(IDC_STATIC10), key: TextKey::KernelMemoryK },
            DialogText { target: TextTarget::Control(IDC_STATIC13), key: TextKey::Totals },
        ]
    } else if dialog_id == IDD_SELECTPROCCOLS {
        seq![
            DialogText { target: TextTarget::Window, key: TextKey::SelectColumnsTitle },
            DialogText { target: TextTarget::Item(IDOK), key: TextKey::OkButton },
            DialogText { target: TextTarget::Item(IDCANCEL), key: TextKey::Cancel },
            DialogText { target: TextTarget::Item(IDC_SELECTPROCCOLS_DESC), key: TextKey::SelectProcessColumnsDescription },
            DialogText { target: TextTarget::Item(IDC_IMAGENAME), key: TextKey::ImageName },
            DialogText { target: TextTarget::Item(IDC_PID), key: TextKey::PidProcessIdentifier },
            DialogText { target: TextTarget::Item(IDC_USERNAME), key: TextKey::UserName },
            DialogText { target: TextTarget::Item(IDC_SESSIONID), key: TextKey::SessionId },
            DialogText { target: TextTarget::Item(IDC_CPU), key: TextKey::CpuUsage },
            DialogText { target: TextTarget::Item(IDC_CPUTIME), key: TextKey::CpuTime },
            DialogText { target: TextTarget::Item(IDC_MEMUSAGE), key: TextKey::MemoryUsage },
            DialogText { target: TextTarget::Item(IDC_MEMUSAGEDIFF), key: TextKey::MemoryUsageDelta },
            DialogText { target: TextTarget::Item(IDC_PAGEFAULTS), key: TextKey::PageFaults },
            DialogText { target: TextTarget::Item(IDC_PAGEFAULTSDIFF), key: TextKey::PageFaultsDelta },
            DialogText { target: TextTarget::Item(IDC_COMMITCHARGE), key: TextKey::VirtualMemorySize },
            DialogText { target: TextTarget::Item(IDC_PAGEDPOOL), key: TextKey::PagedPool },
            DialogText { target: TextTarget::Item(IDC_NONPAGEDPOOL), key: TextKey::NonPagedPool },
            DialogText { target: TextTarget::Item(IDC_BASEPRIORITY), key: TextKey::BasePriority },
            DialogText { target: TextTarget::Item(IDC_HANDLECOUNT), key: TextKey::HandleCount },
            DialogText { target: TextTarget::Item(IDC_THREADCOUNT), key: TextKey::ThreadCount },
        ]
    } else if dialog_id == IDD_AFFINITY {
        seq![
            DialogText { target: TextTarget::Window, key: TextKey::ProcessorAffinity },
            DialogText { target: TextTarget::Item(IDOK), key: TextKey::OkButton },
            DialogText { target: TextTarget::Item(IDCANCEL), key: TextKey::Cancel },
            DialogText { target: TextTarget::Item(IDC_AFFINITY_GROUP), key: TextKey::Processors },
            DialogText { target: TextTarget::Item(IDC_AFFINITY_DESC), key: TextKey::ProcessorAffinityDescription },
        ]
    } else if dialog_id == IDD_MESSAGE {
        seq![
            DialogText { target: TextTarget::Window, key: TextKey::SendMessageTitle },
            DialogText { target: TextTarget::Item(IDOK), key: TextKey::OkButton },
            DialogText { target: TextTarget::Item(IDCANCEL), key: TextKey::Cancel },
            DialogText { target: TextTarget::Item(IDC_MESSAGE_TITLE_LABEL), key: TextKey::MessageTitleLabel },
            DialogText { target: TextTarget::Item(IDC_MESSAGE_BODY_LABEL), key: TextKey::MessageLabel },
        ]
    } else {
        seq![]
    }
}

/// The texts that the dialog `dialog_id` receives; none for a dialog without texts of its own.
pub fn dialog_texts(dialog_id: u16) -> (r: Vec<DialogText>)
    ensures
        r@ == spec_dialog_texts(dialog_id),
{
    let mut v: Vec<DialogText> = Vec::new();
    if dialog_id == IDD_TASKPAGE {
        v.push(DialogText { target: TextTarget::Item(IDC_SWITCHTO), key: TextKey::SwitchTo });
        v.push(DialogText { target: TextTarget::Item(IDC_ENDTASK), key: TextKey::EndTask });
        v.push(DialogText { target: TextTarget::Item(IDM_RUN as i32), key: TextKey::NewTaskButton });
    } else if dialog_id == IDD_PROCPAGE {
        v.push(DialogText { target: TextTarget::Item(IDC_TERMINATE), key: TextKey::EndProcess });
    } else if dialog_id == IDD_NETPAGE {
        v.push(DialogText { target: TextTarget::Item(IDC_NOADAPTERS), key: TextKey::NoActiveNetworkAdaptersFound });
    } else if dialog_id == IDD_USERSPAGE {
        v.push(DialogText { target: TextTarget::Item(IDM_DISCONNECT as i32), key: TextKey::Disconnect });
        v.push(DialogText { target: TextTarget::Item(IDM_LOGOFF as i32), key: TextKey::Logoff });
        v.push(DialogText { target: TextTarget::Item(IDM_SENDMESSAGE as i32), key: TextKey::SendMessage });
    } else if dialog_id == IDD_PERFPAGE {
        v.push(DialogText { target: TextTarget::Item(IDC_STATIC14), key: TextKey::Handles });
        v.push(DialogText { target: TextTarget::Item(IDC_STATIC15), key: TextKey::Threads });
        v.push(DialogText { target: TextTarget::Item(IDC_STATIC16), key: TextKey::ProcessesLabel });
        v.push(DialogText { target: TextTarget::Item(IDC_STATIC2), key: TextKey::Total });
        v.push(DialogText { target: TextTarget::Item(IDC_STATIC3), key: TextKey::Available });
        v.push(DialogText { target: TextTarget::Item(IDC_STATIC4), key: TextKey::FileCache });
        v.push(DialogText { target: TextTarget::Item(IDC_STATIC6), key: TextKey::Total });
        v.push(DialogText { target: TextTarget::Item(IDC_STATIC8), key: TextKey::Limit });
        v.push(DialogText { target: TextTarget::Item(IDC_STATIC9), key: TextKey::Peak });
        v.push(DialogText { target: TextTarget::Item(IDC_STATIC11), key: TextKey::Total });
        v.push(DialogText { target: TextTarget::Item(IDC_STATIC12), key: TextKey::Paged });
        v.push(DialogText { target: TextTarget::Item(IDC_STATIC17), key: TextKey::Nonpaged });
        v.push(DialogText { target: TextTarget::Control(IDC_CPUFRAME), key: TextKey::CpuUsageHistory });
        v.push(DialogText { target: TextTarget::Control(IDC_CPUUSAGEFRAME), key: TextKey::CpuUsage });
        v.push(DialogText { target: TextTarget::Control(IDC_MEMBARFRAME), key: TextKey::MemUsage });
        v.push(DialogText { target: TextTarget::Control(IDC_MEMFRAME), key: TextKey::MemoryUsageHistory });
        v.push(DialogText { target: TextTarget::Control(IDC_STATIC1), key: TextKey::PhysicalMemoryK });
        v.push(DialogText { target: TextTarget::Control(IDC_STATIC5), key: TextKey::CommitChargeK });
        v.push(DialogText { target: TextTarget::Control(IDC_STATIC10), key: TextKey::KernelMemoryK });
        v.push(DialogText { target: TextTarget::Control(IDC_STATIC13), key: TextKey::Totals });
    } else if dialog_id == IDD_SELECTPROCCOLS {
        v.push(DialogText { target: TextTarget::Window, key: TextKey::SelectColumnsTitle });
        v.push(DialogText { target: TextTarget::Item(IDOK), key: TextKey::OkButton });
        v.push(DialogText { target: TextTarget::Item(IDCANCEL), key: TextKey::Cancel });
        v.push(DialogText { target: TextTarget::Item(IDC_SELECTPROCCOLS_DESC), key: TextKey::SelectProcessColumnsDescription });
        v.push(DialogText { target: TextTarget::Item(IDC_IMAGENAME), key: TextKey::ImageName });
        v.push(DialogText { target: TextTarget::Item(IDC_PID), key: TextKey::PidProcessIdentifier });
        v.push(DialogText { target: TextTarget::Item(IDC_USERNAME), key: TextKey::UserName });
        v.push(DialogText { target: TextTarget::Item(IDC_SESSIONID), key: TextKey::SessionId });
        v.push(DialogText { target: TextTarget::Item(IDC_CPU), key: TextKey::CpuUsage });
        v.push(DialogText { target: TextTarget::Item(IDC_CPUTIME), key: TextKey::CpuTime });
        v.push(DialogText { target: TextTarget::Item(IDC_MEMUSAGE), key: TextKey::MemoryUsage });
        v.push(DialogText { target: TextTarget::Item(IDC_MEMUSAGEDIFF), key: TextKey::MemoryUsageDelta });
        v.push(DialogText { target: TextTarget::Item(IDC_PAGEFAULTS), key: TextKey::PageFaults });
        v.push(DialogText { target: TextTarget::Item(IDC_PAGEFAULTSDIFF), key: TextKey::PageFaultsDelta });
        v.push(DialogText { target: TextTarget::Item(IDC_COMMITCHARGE), key: TextKey::VirtualMemorySize });
        v.push(DialogText { target: TextTarget::Item(IDC_PAGEDPOOL), key: TextKey::PagedPool });
        v.push(DialogText { target: TextTarget::Item(IDC_NONPAGEDPOOL), key: TextKey::NonPagedPool });
        v.push(DialogText { target: TextTarget::Item(IDC_BASEPRIORITY), key: TextKey::BasePriority });
        v.push(DialogText { target: TextTarget::Item(IDC_HANDLECOUNT), key: TextKey::HandleCount });
        v.push(DialogText { target: TextTarget::Item(IDC_THREADCOUNT), key: TextKey::ThreadCount });
    } else if dialog_id == IDD_AFFINITY {
        v.push(DialogText { target: TextTarget::Window, key: TextKey::ProcessorAffinity });
        v.push(DialogText { target: TextTarget::Item(IDOK), key: TextKey::OkButton });
        v.push(DialogText { target: TextTarget::Item(IDCANCEL), key: TextKey::Cancel });
        v.push(DialogText { target: TextTarget::Item(IDC_AFFINITY_GROUP), key: TextKey::Processors });
        v.push(DialogText { target: TextTarget::Item(IDC_AFFINITY_DESC), key: TextKey::ProcessorAffinityDescription });
    } else if dialog_id == IDD_MESSAGE {
        v.push(DialogText { target: TextTarget::Window, key: TextKey::SendMessageTitle });
        v.push(DialogText { target: TextTarget::Item(IDOK), key: TextKey::OkButton });
        v.push(DialogText { target: TextTarget::Item(IDCANCEL), key: TextKey::Cancel });
        v.push(DialogText { target: TextTarget::Item(IDC_MESSAGE_TITLE_LABEL), key: TextKey::MessageTitleLabel });
        v.push(DialogText { target: TextTarget::Item(IDC_MESSAGE_BODY_LABEL), key: TextKey::MessageLabel });
    }
    assert(v@ =~= spec_dialog_texts(dialog_id));
    v
}

/// The text of one menu command, found in any menu by its command id.
#[derive(Clone, Copy, PartialEq, Eq, Structural, Debug)]
pub struct MenuCommandText {
    pub command: u16,
    pub key: TextKey,
}

/// The texts of the menu commands, in the order they are set.
pub open spec fn spec_menu_command_texts() -> Seq<MenuCommandText> {
    seq![
        MenuCommandText { command: IDM_RUN, key: TextKey::NewTaskMenu },
        MenuCommandText { command: IDM_EXIT, key: TextKey::ExitTaskManager },
        MenuCommandText { command: IDM_ALWAYSONTOP, key: TextKey::AlwaysOnTop },
        MenuCommandText { command: IDM_MINIMIZEONUSE, key: TextKey::MinimizeOnUse },
        MenuCommandText { command: IDM_LARGEICONS, key: TextKey::LargeIcons },
        MenuCommandText { command: IDM_SMALLICONS, key: TextKey::SmallIcons },
        MenuCommandText { command: IDM_DETAILS, key: TextKey::Details },
        MenuCommandText { command: IDM_ALLCPUS, key: TextKey::OneGraphAllCpus },
        MenuCommandText { command: IDM_MULTIGRAPH, key: TextKey::OneGraphPerCpu },
        MenuCommandText { command: IDM_ABOUT, key: TextKey::AboutTaskManager },
        MenuCommandText { command: IDM_HIGH, key: TextKey::High },
        MenuCommandText { command: IDM_NORMAL, key: TextKey::Normal },
        MenuCommandText { command: IDM_LOW, key: TextKey::Low },
        MenuCommandText { command: IDM_PAUSED, key: TextKey::Paused },
        MenuCommandText { command: IDM_CONFIRMATIONS, key: TextKey::Confirmations },
        MenuCommandText { command: IDM_PROC_DEBUG, key: TextKey::Debug },
        MenuCommandText { command: IDM_PROC_TERMINATE, key: TextKey::EndProcess },
        MenuCommandText { command: IDM_PROC_REALTIME, key: TextKey::Realtime },
        MenuCommandText { command: IDM_PROC_HIGH, key: TextKey::High },
        MenuCommandText { command: IDM_PROC_NORMAL, key: TextKey::Normal },
        MenuCommandText { command: IDM_PROC_LOW, key: TextKey::Low },
        MenuCommandText { command: IDM_HELP, key: TextKey::HelpTopics },
        MenuCommandText { command: IDM_PROCCOLS, key: TextKey::SelectColumnsMenu },
        MenuCommandText { command: IDM_USERCOLS, key: TextKey::SelectColumnsMenu },
        MenuCommandText { command: IDM_REFRESH, key: TextKey::RefreshNow },
        MenuCommandText { command: IDM_AFFINITY, key: TextKey::SetAffinity },
        MenuCommandText { command: IDM_KERNELTIMES, key: TextKey::ShowKernelTimes },
        MenuCommandText { command: IDM_HIDEWHENMIN, key: TextKey::HideWhenMinimized },
        MenuCommandText { command: IDM_NOTITLE, key: TextKey::NoTitle },
        MenuCommandText { command: IDM_SENDMESSAGE, key: TextKey::SendMessage },
        MenuCommandText { command: IDM_DISCONNECT, key: TextKey::Disconnect },
        MenuCommandText { command: IDM_LOGOFF, key: TextKey::Logoff },
        MenuCommandText { command: IDM_SHOWDOMAINNAMES, key: TextKey::ShowFullAccountName },
        MenuCommandText { command: IDM_TASK_MINIMIZE, key: TextKey::Minimize },
        MenuCommandText { command: IDM_TASK_MAXIMIZE, key: TextKey::Maximize },
        MenuCommandText { command: IDM_TASK_CASCADE, key: TextKey::Cascade },
        MenuCommandText { command: IDM_TASK_TILEHORZ, key: TextKey::TileHorizontally },
        MenuCommandText { command: IDM_TASK_TILEVERT, key: TextKey::TileVertically },
        MenuCommandText { command: IDM_TASK_SWITCHTO, key: TextKey::SwitchTo },
        MenuCommandText { command: IDM_TASK_BRINGTOFRONT, key: TextKey::BringToFront },
        MenuCommandText { command: IDM_TASK_ENDTASK, key: TextKey::EndTask },
        MenuCommandText { command: IDM_TASK_FINDPROCESS, key: TextKey::GoToProcess },
        MenuCommandText { command: IDM_RESTORETASKMAN, key: TextKey::RestoreTaskManager },
    ]
}

/// The texts of the menu commands; every menu receives all of them, and a command
/// that a menu lacks is passed over.
pub fn menu_command_texts() -> (r: Vec<MenuCommandText>)
    ensures
        r@ == spec_menu_command_texts(),
{
    let mut v: Vec<MenuCommandText> = Vec::new();
    v.push(MenuCommandText { command: IDM_RUN, key: TextKey::NewTaskMenu });
    v.push(MenuCommandText { command: IDM_EXIT, key: TextKey::ExitTaskManager });
    v.push(MenuCommandText { command: IDM_ALWAYSONTOP, key: TextKey::AlwaysOnTop });
    v.push(MenuCommandText { command: IDM_MINIMIZEONUSE, key: TextKey::MinimizeOnUse });
    v.push(MenuCommandText { command: IDM_LARGEICONS, key: TextKey::LargeIcons });
    v.push(MenuCommandText { command: IDM_SMALLICONS, key: TextKey::SmallIcons });
    v.push(MenuCommandText { command: IDM_DETAILS, key: TextKey::Details });
    v.push(MenuCommandText { command: IDM_ALLCPUS, key: TextKey::OneGraphAllCpus });
    v.push(MenuCommandText { command: IDM_MULTIGRAPH, key: TextKey::OneGraphPerCpu });
    v.push(MenuCommandText { command: IDM_ABOUT, key: TextKey::AboutTaskManager });
    v.push(MenuCommandText { command: IDM_HIGH, key: TextKey::High });
    v.push(MenuCommandText { command: IDM_NORMAL, key: TextKey::Normal });
    v.push(MenuCommandText { command: IDM_LOW, key: TextKey::Low });
    v.push(MenuCommandText { command: IDM_PAUSED, key: TextKey::Paused });
    v.push(MenuCommandText { command: IDM_CONFIRMATIONS, key: TextKey::Confirmations });
    v.push(MenuCommandText { command: IDM_PROC_DEBUG, key: TextKey::Debug });
    v.push(MenuCommandText { command: IDM_PROC_TERMINATE, key: TextKey::EndProcess });
    v.push(MenuCommandText { command: IDM_PROC_REALTIME, key: TextKey::Realtime });
    v.push(MenuCommandText { command: IDM_PROC_HIGH, key: TextKey::High });
    v.push(MenuCommandText { command: IDM_PROC_NORMAL, key: TextKey::Normal });
    v.push(MenuCommandText { command: IDM_PROC_LOW, key: TextKey::Low });
    v.push(MenuCommandText { command: IDM_HELP, key: TextKey::HelpTopics });
    v.push(MenuCommandText { command: IDM_PROCCOLS, key: TextKey::SelectColumnsMenu });
    v.push(MenuCommandText { command: IDM_USERCOLS, key: TextKey::SelectColumnsMenu });
    v.push(MenuCommandText { command: IDM_REFRESH, key: TextKey::RefreshNow });
    v.push(MenuCommandText { command: IDM_AFFINITY, key: TextKey::SetAffinity });
    v.push(MenuCommandText { command: IDM_KERNELTIMES, key: TextKey::ShowKernelTimes });
    v.push(MenuCommandText { command: IDM_HIDEWHENMIN, key: TextKey::HideWhenMinimized });
    v.push(MenuCommandText { command: IDM_NOTITLE, key: TextKey::NoTitle });
    v.push(MenuCommandText { command: IDM_SENDMESSAGE, key: TextKey::SendMessage });
    v.push(MenuCommandText { command: IDM_DISCONNECT, key: TextKey::Disconnect });
    v.push(MenuCommandText { command: IDM_LOGOFF, key: TextKey::Logoff });
    v.push(MenuCommandText { command: IDM_SHOWDOMAINNAMES, key: TextKey::ShowFullAccountName });
    v.push(MenuCommandText { command: IDM_TASK_MINIMIZE, key: TextKey::Minimize });
    v.push(MenuCommandText { command: IDM_TASK_MAXIMIZE, key: TextKey::Maximize });
    v.push(MenuCommandText { command: IDM_TASK_CASCADE, key: TextKey::Cascade });
    v.push(MenuCommandText { command: IDM_TASK_TILEHORZ, key: TextKey::TileHorizontally });
    v.push(MenuCommandText { command: IDM_TASK_TILEVERT, key: TextKey::TileVertically });
    v.push(MenuCommandText { command: IDM_TASK_SWITCHTO, key: TextKey::SwitchTo });
    v.push(MenuCommandText { command: IDM_TASK_BRINGTOFRONT, key: TextKey::BringToFront });
    v.push(MenuCommandText { command: IDM_TASK_ENDTASK, key: TextKey::EndTask });
    v.push(MenuCommandText { command: IDM_TASK_FINDPROCESS, key: TextKey::GoToProcess });
    v.push(MenuCommandText { command: IDM_RESTORETASKMAN, key: TextKey::RestoreTaskManager });
    assert(v@ =~= spec_menu_command_texts());
    v
}

/// The title of a submenu: item `outer` of the menu bar or popup when `inner` is
/// `None`, else item `inner` of the submenu at `outer`.
#[derive(Clone, Copy, PartialEq, Eq, Structural, Debug)]
pub struct SubmenuTitle {
    pub outer: i32,
    pub inner: Option<i32>,
    pub key: TextKey,
}

/// The submenu titles of the menu resource `menu_id`, in the order they are set.
pub open spec fn spec_submenu_titles(menu_id: u16) -> Seq<SubmenuTitle> {
    if menu_id == IDR_MAINMENU_TASK {
        seq![
            SubmenuTitle { outer: 0, inner: None, key: TextKey::File },
            SubmenuTitle { outer: 1, inner: None, key: TextKey::Options },
            SubmenuTitle { outer: 2, inner: None, key: TextKey::View },
            SubmenuTitle { outer: 3, inner: None, key: TextKey::Windows },
            SubmenuTitle { outer: 4, inner: None, key: TextKey::Help },
            SubmenuTitle { outer: 2, inner: Some(1), key: TextKey::UpdateSpeed },
        ]
    } else if menu_id == IDR_MAINMENU_PROC {
        seq![
            SubmenuTitle { outer: 0, inner: None, key: TextKey::File },
            SubmenuTitle { outer: 1, inner: None, key: TextKey::Options },
            SubmenuTitle { outer: 2, inner: None, key: TextKey::View },
            SubmenuTitle { outer: 3, inner: None, key: TextKey::Help },
            SubmenuTitle { outer: 2, inner: Some(1), key: TextKey::UpdateSpeed },
        ]
    } else if menu_id == IDR_MAINMENU_PERF {
        seq![
            SubmenuTitle { outer: 0, inner: None, key: TextKey::File },
            SubmenuTitle { outer: 1, inner: None, key: TextKey::Options },
            SubmenuTitle { outer: 2, inner: None, key: TextKey::View },
            SubmenuTitle { outer: 3, inner: None, key: TextKey::Help },
            SubmenuTitle { outer: 2, inner: Some(1), key: TextKey::UpdateSpeed },
            SubmenuTitle { outer: 2, inner: Some(3), key: TextKey::CpuHistory },
        ]
    } else if menu_id == IDR_MAINMENU_NET || menu_id == IDR_MAINMENU_USER {
        seq![
            SubmenuTitle { outer: 0, inner: None, key: TextKey::File },
            SubmenuTitle { outer: 1, inner: None, key: TextKey::Options },
            SubmenuTitle { outer: 2, inner: None, key: TextKey::View },
            SubmenuTitle { outer: 3, inner: None, key: TextKey::Help },
            SubmenuTitle { outer: 2, inner: Some(1), key: TextKey::UpdateSpeed },
        ]
    } else if menu_id == IDR_TASK_CONTEXT || menu_id == IDR_TASKVIEW {
        seq![
            SubmenuTitle { outer: 0, inner: None, key: TextKey::Tasks },
        ]
    } else if menu_id == IDR_PROC_CONTEXT {
        seq![
            SubmenuTitle { outer: 0, inner: None, key: TextKey::Processes },
            SubmenuTitle { outer: 0, inner: Some(3), key: TextKey::SetPriority },
        ]
    } else if menu_id == IDR_USER_CONTEXT {
        seq![
            SubmenuTitle { outer: 0, inner: None, key: TextKey::Users },
        ]
    } else if menu_id == IDR_TRAYMENU {
        seq![
            SubmenuTitle { outer: 0, inner: None, key: TextKey::TaskManager },
        ]
    } else {
        seq![]
    }
}

/// The submenu titles of the menu resource `menu_id`; none for a menu without submenus
/// of its own.
pub fn submenu_titles(menu_id: u16) -> (r: Vec<SubmenuTitle>)
    ensures
        r@ == spec_submenu_titles(menu_id),
{
    let mut v: Vec<SubmenuTitle> = Vec::new();
    if menu_id == IDR_MAINMENU_TASK {
        v.push(SubmenuTitle { outer: 0, inner: None, key: TextKey::File });
        v.push(SubmenuTitle { outer: 1, inner: None, key: TextKey::Options });
        v.push(SubmenuTitle { outer: 2, inner: None, key: TextKey::View });
        v.push(SubmenuTitle { outer: 3, inner: None, key: TextKey::Windows });
        v.push(SubmenuTitle { outer: 4, inner: None, key: TextKey::Help });
        v.push(SubmenuTitle { outer: 2, inner: Some(1), key: TextKey::UpdateSpeed });
    } else if menu_id == IDR_MAINMENU_PROC {
        v.push(SubmenuTitle { outer: 0, inner: None, key: TextKey::File });
        v.push(SubmenuTitle { outer: 1, inner: None, key: TextKey::Options });
        v.push(SubmenuTitle { outer: 2, inner: None, key: TextKey::View });
        v.push(SubmenuTitle { outer: 3, inner: None, key: TextKey::Help });
        v.push(SubmenuTitle { outer: 2, inner: Some(1), key: TextKey::UpdateSpeed });
    } else if menu_id == IDR_MAINMENU_PERF {
        v.push(SubmenuTitle { outer: 0, inner: None, key: TextKey::File });
        v.push(SubmenuTitle { outer: 1, inner: None, key: TextKey::Options });
        v.push(SubmenuTitle { outer: 2, inner: None, key: TextKey::View });
        v.push(SubmenuTitle { outer: 3, inner: None, key: TextKey::Help });
        v.push(SubmenuTitle { outer: 2, inner: Some(1), key: TextKey::UpdateSpeed });
        v.push(SubmenuTitle { outer: 2, inner: Some(3), key: TextKey::CpuHistory });
    } else if menu_id == IDR_MAINMENU_NET || menu_id == IDR_MAINMENU_USER {
        v.push(SubmenuTitle { outer: 0, inner: None, key: TextKey::File });
        v.push(SubmenuTitle { outer: 1, inner: None, key: TextKey::Options });
        v.push(SubmenuTitle { outer: 2, inner: None, key: TextKey::View });
        v.push(SubmenuTitle { outer: 3, inner: None, key: TextKey::Help });
        v.push(SubmenuTitle { outer: 2, inner: Some(1), key: TextKey::UpdateSpeed });
    } else if menu_id == IDR_TASK_CONTEXT || menu_id == IDR_TASKVIEW {
        v.push(SubmenuTitle { outer: 0, inner: None, key: TextKey::Tasks });
    } else if menu_id == IDR_PROC_CONTEXT {
        v.push(SubmenuTitle { outer: 0, inner: None, key: TextKey::Processes });
        v.push(SubmenuTitle { outer: 0, inner: Some(3), key: TextKey::SetPriority });
    } else if menu_id == IDR_USER_CONTEXT {
        v.push(SubmenuTitle { outer: 0, inner: None, key: TextKey::Users });
    } else if menu_id == IDR_TRAYMENU {
        v.push(SubmenuTitle { outer: 0, inner: None, key: TextKey::TaskManager });
    }
    assert(v@ =~= spec_submenu_titles(menu_id));
    v
}

} // verus!
