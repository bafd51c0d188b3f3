use vstd::prelude::*;
use crate::resource::{IDS_APPTITLE, IDS_CANTCHANGEPRI, IDS_CANTDEBUG, IDS_CANTKILL, IDS_CANTSETAFFINITY, IDS_COL_BASEPRIORITY, IDS_COL_COMMITCHARGE, IDS_COL_CPU, IDS_COL_CPUTIME, IDS_COL_HANDLECOUNT, IDS_COL_IMAGENAME, IDS_COL_MEMUSAGE, IDS_COL_MEMUSAGEDIFF, IDS_COL_NONPAGEDPOOL, IDS_COL_PAGEDPOOL, IDS_COL_PAGEFAULTS, IDS_COL_PAGEFAULTSDIFF, IDS_COL_PID, IDS_COL_SESSIONID, IDS_COL_TASKDESKTOP, IDS_COL_TASKNAME, IDS_COL_TASKSTATUS, IDS_COL_TASKWINSTATION, IDS_COL_THREADCOUNT, IDS_COL_USERNAME, IDS_DEBUG, IDS_FMTCPU, IDS_FMTCPUNUM, IDS_FMTMEM, IDS_FMTPROCS, IDS_HIGH, IDS_INVALIDOPTION, IDS_KERNELTIME, IDS_KILL, IDS_LOW, IDS_MEMUSAGE, IDS_NETPAGETITLE, IDS_NOAFFINITYMASK, IDS_NORMAL, IDS_PERFPAGETITLE, IDS_PRICHANGE, IDS_PROCPAGETITLE, IDS_REALTIME, IDS_RUNTEXT, IDS_RUNTITLE, IDS_TASKMGR, IDS_TASKMGRDISABLED, IDS_TASKPAGETITLE, IDS_TOTALTIME, IDS_UNKNOWN, IDS_USERPAGETITLE, IDS_WARNING};
use crate::text_key::TextKey;

verus! {

/// The English (United States) string of a numbered string resource; empty when the table has none.
pub open spec fn spec_resource(id: u32) -> &'static str {
    if id == IDS_PERFPAGETITLE {
        "Performance"
    } else if id == IDS_NETPAGETITLE {
        "Networking"
    } else if id == IDS_RUNTITLE {
        "Run"
    } else if id == IDS_RUNTEXT {
        "Type the name of a program, folder, document, or Internet resource, and Windows will open it for you."
    } else if id == IDS_APPTITLE || id == IDS_TASKMGR {
        "Windows NT Task Manager"
    } else if id == IDS_PROCPAGETITLE {
        "Processes"
    } else if id == IDS_TASKPAGETITLE {
        "Applications"
    } else if id == IDS_USERPAGETITLE {
        "Users"
    } else if id == IDS_TASKMGRDISABLED {
        "Task Manager has been disabled by your administrator."
    } else if id == IDS_WARNING {
        "Task Manager Warning"
    } else if id == IDS_PRICHANGE {
        "WARNING: Changing the priority class of this process may\ncause undesired results including system instability.  Are you\nsure you want to change the priority class?"
    } else if id == IDS_KILL {
        "WARNING: Terminating a process can cause undesired\nresults including loss of data and system instability.  The\nprocess will not be given the chance to save its state or\ndata before it is terminated.  Are you sure you want to\nterminate the process?"
    } else if id == IDS_DEBUG {
        "WARNING: Debugging this process may result in loss of data.\nAre you sure you wish to attach the debugger?"
    } else if id == IDS_LOW {
        "Low"
    } else if id == IDS_HIGH {
        "High"
    } else if id == IDS_REALTIME {
        "Realtime"
    } else if id == IDS_NORMAL {
        "Normal"
    } else if id == IDS_UNKNOWN {
        "Unknown"
    } else if id == IDS_CANTSETAFFINITY {
        "The operation could not be completed.\n\n"
    } else if id == IDS_CANTKILL {
        "Unable to Terminate Process"
    } else if id == IDS_CANTDEBUG {
        "Unable to Attach Debugger"
    } else if id == IDS_CANTCHANGEPRI {
        "Unable to Change Priority"
    } else if id == IDS_FMTPROCS {
        "Processes: %d"
    } else if id == IDS_FMTCPU {
        "CPU Usage: %d%%"
    } else if id == IDS_FMTMEM {
        "Mem Usage: %dK / %dK"
    } else if id == IDS_COL_TASKNAME {
        "Task"
    } else if id == IDS_COL_TASKSTATUS {
        "Status"
    } else if id == IDS_COL_TASKWINSTATION {
        "WinStation"
    } else if id == IDS_COL_TASKDESKTOP {
        "Desktop"
    } else if id == IDS_INVALIDOPTION {
        "Invalid Option"
    } else if id == IDS_NOAFFINITYMASK {
        "The process must have affinity with at least one processor."
    } else if id == IDS_FMTCPUNUM {
        "CPU %d"
    } else if id == IDS_TOTALTIME {
        "Total CPU"
    } else if id == IDS_KERNELTIME {
        "Kernel CPU"
    } else if id == IDS_MEMUSAGE {
        "Memory Usage"
    } else if id == IDS_COL_IMAGENAME {
        "Image Name"
    } else if id == IDS_COL_PID {
        "PID"
    } else if id == IDS_COL_CPU {
        "CPU"
    } else if id == IDS_COL_CPUTIME {
        "CPU Time"
    } else if id == IDS_COL_MEMUSAGE {
        "Mem Usage"
    } else if id == IDS_COL_MEMUSAGEDIFF {
        "Mem Delta"
    } else if id == IDS_COL_PAGEFAULTS {
        "Page Faults"
    } else if id == IDS_COL_PAGEFAULTSDIFF {
        "PF Delta"
    } else if id == IDS_COL_COMMITCHARGE {
        "VM Size"
    } else if id == IDS_COL_PAGEDPOOL {
        "Paged Pool"
    } else if id == IDS_COL_NONPAGEDPOOL {
        "NP Pool"
    } else if id == IDS_COL_BASEPRIORITY {
        "Base Pri"
    } else if id == IDS_COL_HANDLECOUNT {
        "Handles"
    } else if id == IDS_COL_THREADCOUNT {
        "Threads"
    } else if id == IDS_COL_SESSIONID {
        "Session ID"
    } else if id == IDS_COL_USERNAME {
        "User Name"
    } else {
        ""
    }
}

/// Whether the English (United States) table holds a string for the resource `id`.
pub open spec fn has_resource(id: u32) -> bool {
    id == IDS_PERFPAGETITLE
    || id == IDS_NETPAGETITLE
    || id == IDS_RUNTITLE
    || id == IDS_RUNTEXT
    || id == IDS_APPTITLE
    || id == IDS_TASKMGR
    || id == IDS_PROCPAGETITLE
    || id == IDS_TASKPAGETITLE
    || id == IDS_USERPAGETITLE
    || id == IDS_TASKMGRDISABLED
    || id == IDS_WARNING
    || id == IDS_PRICHANGE
    || id == IDS_KILL
    || id == IDS_DEBUG
    || id == IDS_LOW
    || id == IDS_HIGH
    || id == IDS_REALTIME
    || id == IDS_NORMAL
    || id == IDS_UNKNOWN
    || id == IDS_CANTSETAFFINITY
    || id == IDS_CANTKILL
    || id == IDS_CANTDEBUG
    || id == IDS_CANTCHANGEPRI
    || id == IDS_FMTPROCS
    || id == IDS_FMTCPU
    || id == IDS_FMTMEM
    || id == IDS_COL_TASKNAME
    || id == IDS_COL_TASKSTATUS
    || id == IDS_COL_TASKWINSTATION
    || id == IDS_COL_TASKDESKTOP
    || id == IDS_INVALIDOPTION
    || id == IDS_NOAFFINITYMASK
    || id == IDS_FMTCPUNUM
    || id == IDS_TOTALTIME
    || id == IDS_KERNELTIME
    || id == IDS_MEMUSAGE
    || id == IDS_COL_IMAGENAME
    || id == IDS_COL_PID
    || id == IDS_COL_CPU
    || id == IDS_COL_CPUTIME
    || id == IDS_COL_MEMUSAGE
    || id == IDS_COL_MEMUSAGEDIFF
    || id == IDS_COL_PAGEFAULTS
    || id == IDS_COL_PAGEFAULTSDIFF
    || id == IDS_COL_COMMITCHARGE
    || id == IDS_COL_PAGEDPOOL
    || id == IDS_COL_NONPAGEDPOOL
    || id == IDS_COL_BASEPRIORITY
    || id == IDS_COL_HANDLECOUNT
    || id == IDS_COL_THREADCOUNT
    || id == IDS_COL_SESSIONID
    || id == IDS_COL_USERNAME
}

/// Looks up a numbered string resource in the English (United States) table.
pub fn resource(id: u32) -> (r: &'static str)
    ensures
        r == spec_resource(id),
{
    if id == IDS_PERFPAGETITLE {
        "Performance"
    } else if id == IDS_NETPAGETITLE {
        "Networking"
    } else if id == IDS_RUNTITLE {
        "Run"
    } else if id == IDS_RUNTEXT {
        "Type the name of a program, folder, document, or Internet resource, and Windows will open it for you."
    } else if id == IDS_APPTITLE || id == IDS_TASKMGR {
        "Windows NT Task Manager"
    } else if id == IDS_PROCPAGETITLE {
        "Processes"
    } else if id == IDS_TASKPAGETITLE {
        "Applications"
    } else if id == IDS_USERPAGETITLE {
        "Users"
    } else if id == IDS_TASKMGRDISABLED {
        "Task Manager has been disabled by your administrator."
    } else if id == IDS_WARNING {
        "Task Manager Warning"
    } else if id == IDS_PRICHANGE {
        "WARNING: Changing the priority class of this process may\ncause undesired results including system instability.  Are you\nsure you want to change the priority class?"
    } else if id == IDS_KILL {
        "WARNING: Terminating a process can cause undesired\nresults including loss of data and system instability.  The\nprocess will not be given the chance to save its state or\ndata before it is terminated.  Are you sure you want to\nterminate the process?"
    } else if id == IDS_DEBUG {
        "WARNING: Debugging this process may result in loss of data.\nAre you sure you wish to attach the debugger?"
    } else if id == IDS_LOW {
        "Low"
    } else if id == IDS_HIGH {
        "High"
    } else if id == IDS_REALTIME {
        "Realtime"
    } else if id == IDS_NORMAL {
        "Normal"
    } else if id == IDS_UNKNOWN {
        "Unknown"
    } else if id == IDS_CANTSETAFFINITY {
        "The operation could not be completed.\n\n"
    } else if id == IDS_CANTKILL {
        "Unable to Terminate Process"
    } else if id == IDS_CANTDEBUG {
        "Unable to Attach Debugger"
    } else if id == IDS_CANTCHANGEPRI {
        "Unable to Change Priority"
    } else if id == IDS_FMTPROCS {
        "Processes: %d"
    } else if id == IDS_FMTCPU {
        "CPU Usage: %d%%"
    } else if id == IDS_FMTMEM {
        "Mem Usage: %dK / %dK"
    } else if id == IDS_COL_TASKNAME {
        "Task"
    } else if id == IDS_COL_TASKSTATUS {
        "Status"
    } else if id == IDS_COL_TASKWINSTATION {
        "WinStation"
    } else if id == IDS_COL_TASKDESKTOP {
        "Desktop"
    } else if id == IDS_INVALIDOPTION {
        "Invalid Option"
    } else if id == IDS_NOAFFINITYMASK {
        "The process must have affinity with at least one processor."
    } else if id == IDS_FMTCPUNUM {
        "CPU %d"
    } else if id == IDS_TOTALTIME {
        "Total CPU"
    } else if id == IDS_KERNELTIME {
        "Kernel CPU"
    } else if id == IDS_MEMUSAGE {
        "Memory Usage"
    } else if id == IDS_COL_IMAGENAME {
        "Image Name"
    } else if id == IDS_COL_PID {
        "PID"
    } else if id == IDS_COL_CPU {
        "CPU"
    } else if id == IDS_COL_CPUTIME {
        "CPU Time"
    } else if id == IDS_COL_MEMUSAGE {
        "Mem Usage"
    } else if id == IDS_COL_MEMUSAGEDIFF {
        "Mem Delta"
    } else if id == IDS_COL_PAGEFAULTS {
        "Page Faults"
    } else if id == IDS_COL_PAGEFAULTSDIFF {
        "PF Delta"
    } else if id == IDS_COL_COMMITCHARGE {
        "VM Size"
    } else if id == IDS_COL_PAGEDPOOL {
        "Paged Pool"
    } else if id == IDS_COL_NONPAGEDPOOL {
        "NP Pool"
    } else if id == IDS_COL_BASEPRIORITY {
        "Base Pri"
    } else if id == IDS_COL_HANDLECOUNT {
        "Handles"
    } else if id == IDS_COL_THREADCOUNT {
        "Threads"
    } else if id == IDS_COL_SESSIONID {
        "Session ID"
    } else if id == IDS_COL_USERNAME {
        "User Name"
    } else {
        ""
    }
}

/// A resource of the English (United States) table is non-empty exactly when the table lists it.
pub proof fn lemma_resource_nonempty(id: u32)
    ensures
        spec_resource(id)@.len() > 0 <==> has_resource(id),
{
    if id == IDS_PERFPAGETITLE {
        reveal_strlit("Performance");
    } else if id == IDS_NETPAGETITLE {
        reveal_strlit("Networking");
    } else if id == IDS_RUNTITLE {
        reveal_strlit("Run");
    } else if id == IDS_RUNTEXT {
        reveal_strlit("Type the name of a program, folder, document, or Internet resource, and Windows will open it for you.");
    } else if id == IDS_APPTITLE || id == IDS_TASKMGR {
        reveal_strlit("Windows NT Task Manager");
    } else if id == IDS_PROCPAGETITLE {
        reveal_strlit("Processes");
    } else if id == IDS_TASKPAGETITLE {
        reveal_strlit("Applications");
    } else if id == IDS_USERPAGETITLE {
        reveal_strlit("Users");
    } else if id == IDS_TASKMGRDISABLED {
        reveal_strlit("Task Manager has been disabled by your administrator.");
    } else if id == IDS_WARNING {
        reveal_strlit("Task Manager Warning");
    } else if id == IDS_PRICHANGE {
        reveal_strlit("WARNING: Changing the priority class of this process may\ncause undesired results including system instability.  Are you\nsure you want to change the priority class?");
    } else if id == IDS_KILL {
        reveal_strlit("WARNING: Terminating a process can cause undesired\nresults including loss of data and system instability.  The\nprocess will not be given the chance to save its state or\ndata before it is terminated.  Are you sure you want to\nterminate the process?");
    } else if id == IDS_DEBUG {
        reveal_strlit("WARNING: Debugging this process may result in loss of data.\nAre you sure you wish to attach the debugger?");
    } else if id == IDS_LOW {
        reveal_strlit("Low");
    } else if id == IDS_HIGH {
        reveal_strlit("High");
    } else if id == IDS_REALTIME {
        reveal_strlit("Realtime");
    } else if id == IDS_NORMAL {
        reveal_strlit("Normal");
    } else if id == IDS_UNKNOWN {
        reveal_strlit("Unknown");
    } else if id == IDS_CANTSETAFFINITY {
        reveal_strlit("The operation could not be completed.\n\n");
    } else if id == IDS_CANTKILL {
        reveal_strlit("Unable to Terminate Process");
    } else if id == IDS_CANTDEBUG {
        reveal_strlit("Unable to Attach Debugger");
    } else if id == IDS_CANTCHANGEPRI {
        reveal_strlit("Unable to Change Priority");
    } else if id == IDS_FMTPROCS {
        reveal_strlit("Processes: %d");
    } else if id == IDS_FMTCPU {
        reveal_strlit("CPU Usage: %d%%");
    } else if id == IDS_FMTMEM {
        reveal_strlit("Mem Usage: %dK / %dK");
    } else if id == IDS_COL_TASKNAME {
        reveal_strlit("Task");
    } else if id == IDS_COL_TASKSTATUS {
        reveal_strlit("Status");
    } else if id == IDS_COL_TASKWINSTATION {
        reveal_strlit("WinStation");
    } else if id == IDS_COL_TASKDESKTOP {
        reveal_strlit("Desktop");
    } else if id == IDS_INVALIDOPTION {
        reveal_strlit("Invalid Option");
    } else if id == IDS_NOAFFINITYMASK {
        reveal_strlit("The process must have affinity with at least one processor.");
    } else if id == IDS_FMTCPUNUM {
        reveal_strlit("CPU %d");
    } else if id == IDS_TOTALTIME {
        reveal_strlit("Total CPU");
    } else if id == IDS_KERNELTIME {
        reveal_strlit("Kernel CPU");
    } else if id == IDS_MEMUSAGE {
        reveal_strlit("Memory Usage");
    } else if id == IDS_COL_IMAGENAME {
        reveal_strlit("Image Name");
    } else if id == IDS_COL_PID {
        reveal_strlit("PID");
    } else if id == IDS_COL_CPU {
        reveal_strlit("CPU");
    } else if id == IDS_COL_CPUTIME {
        reveal_strlit("CPU Time");
    } else if id == IDS_COL_MEMUSAGE {
        reveal_strlit("Mem Usage");
    } else if id == IDS_COL_MEMUSAGEDIFF {
        reveal_strlit("Mem Delta");
    } else if id == IDS_COL_PAGEFAULTS {
        reveal_strlit("Page Faults");
    } else if id == IDS_COL_PAGEFAULTSDIFF {
        reveal_strlit("PF Delta");
    } else if id == IDS_COL_COMMITCHARGE {
        reveal_strlit("VM Size");
    } else if id == IDS_COL_PAGEDPOOL {
        reveal_strlit("Paged Pool");
    } else if id == IDS_COL_NONPAGEDPOOL {
        reveal_strlit("NP Pool");
    } else if id == IDS_COL_BASEPRIORITY {
        reveal_strlit("Base Pri");
    } else if id == IDS_COL_HANDLECOUNT {
        reveal_strlit("Handles");
    } else if id == IDS_COL_THREADCOUNT {
        reveal_strlit("Threads");
    } else if id == IDS_COL_SESSIONID {
        reveal_strlit("Session ID");
    } else if id == IDS_COL_USERNAME {
        reveal_strlit("User Name");
    } else {
        reveal_strlit("");
    }
}

/// The English (United States) string of a text key.
pub open spec fn spec_text(key: TextKey) -> &'static str {
    match key {
        TextKey::File => "&File",
        TextKey::Options => "&Options",
        TextKey::View => "&View",
        TextKey::Windows => "&Windows",
        TextKey::Help => "&Help",
        TextKey::UpdateSpeed => "&Update Speed",
        TextKey::CpuHistory => "&CPU History",
        TextKey::NewTaskMenu => "&Run...",
        TextKey::NewTaskButton => "&Run...",
        TextKey::ExitTaskManager => "E&xit Task Manager",
        TextKey::AlwaysOnTop => "&Always On Top",
        TextKey::MinimizeOnUse => "&Minimize On Use",
        TextKey::Confirmations => "&Confirmations",
        TextKey::HideWhenMinimized => "&Hide When Minimized",
        TextKey::RefreshNow => "&Refresh Now",
        TextKey::High => "&High",
        TextKey::Normal => "&Normal",
        TextKey::Low => "&Low",
        TextKey::Paused => "&Paused",
        TextKey::LargeIcons => "Lar&ge Icons",
        TextKey::SmallIcons => "S&mall Icons",
        TextKey::Details => "&Details",
        TextKey::TileHorizontally => "Tile &Horizontally",
        TextKey::TileVertically => "Tile &Vertically",
        TextKey::Minimize => "&Minimize",
        TextKey::Maximize => "Ma&ximize",
        TextKey::Cascade => "&Cascade",
        TextKey::BringToFront => "&Bring to Front",
        TextKey::HelpTopics => "Task Manager &Help Topics",
        TextKey::AboutTaskManager => "&About Task Manager",
        TextKey::OneGraphAllCpus => "One Graph, &All CPUs",
        TextKey::OneGraphPerCpu => "One Graph &Per CPU",
        TextKey::SelectColumnsMenu => "Select &Columns...",
        TextKey::SelectColumnsTitle => "Select Columns",
        TextKey::SelectProcessColumnsDescription => "Select the columns that will appear on the Process page of the Task Manager.",
        TextKey::ShowKernelTimes => "Show &Kernel Times",
        TextKey::RestoreTaskManager => "&Restore Task Manager",
        TextKey::EndProcess => "&End Process",
        TextKey::EndProcessTree => "End Process &Tree",
        TextKey::OpenFileLocation => "Open File &Location",
        TextKey::Debug => "&Debug",
        TextKey::SetPriority => "Set &Priority",
        TextKey::Realtime => "&Realtime",
        TextKey::AboveNormal => "&Above Normal",
        TextKey::BelowNormal => "&Below Normal",
        TextKey::SetAffinity => "Set &Affinity...",
        TextKey::SwitchTo => "&Switch To",
        TextKey::EndTask => "&End Task",
        TextKey::GoToProcess => "&Go To Process",
        TextKey::Disconnect => "&Disconnect",
        TextKey::Logoff => "&Logoff",
        TextKey::SendMessage => "&Send Message...",
        TextKey::SendMessageTitle => "Send Message",
        TextKey::TaskManager => "Task Manager",
        TextKey::Handles => "Handles",
        TextKey::Threads => "Threads",
        TextKey::ProcessesLabel => "Processes",
        TextKey::CpuUsageHistory => "CPU Usage History",
        TextKey::CpuUsage => "CPU Usage",
        TextKey::MemUsage => "MEM Usage",
        TextKey::MemoryUsageHistory => "Memory Usage History",
        TextKey::PhysicalMemoryK => "Physical Memory (K)",
        TextKey::CommitChargeK => "Commit Charge (K)",
        TextKey::KernelMemoryK => "Kernel Memory (K)",
        TextKey::Totals => "Totals",
        TextKey::Total => "Total",
        TextKey::Available => "Available",
        TextKey::FileCache => "File Cache",
        TextKey::Paged => "Paged",
        TextKey::Nonpaged => "Nonpaged",
        TextKey::Limit => "Limit",
        TextKey::Peak => "Peak",
        TextKey::NoActiveNetworkAdaptersFound => "No Active Network Adapters Found.",
        TextKey::OkButton => "OK",
        TextKey::Cancel => "Cancel",
        TextKey::ImageName => "&Image Name",
        TextKey::PidProcessIdentifier => "PID (Process Identifier)",
        TextKey::UserName => "User Name",
        TextKey::SessionId => "Session ID",
        TextKey::CpuTime => "CPU Time",
        TextKey::MemoryUsage => "Memory Usage",
        TextKey::MemoryUsageDelta => "Memory Usage Delta",
        TextKey::PageFaults => "Page Faults",
        TextKey::PageFaultsDelta => "Page Faults Delta",
        TextKey::VirtualMemorySize => "Virtual Memory Size",
        TextKey::PagedPool => "Paged Pool",
        TextKey::NonPagedPool => "Non-paged Pool",
        TextKey::BasePriority => "Base Priority",
        TextKey::HandleCount => "Handle Count",
        TextKey::ThreadCount => "Thread Count",
        TextKey::ProcessorAffinity => "Processor Affinity",
        TextKey::Processors => "Processors",
        TextKey::ProcessorAffinityDescription => "The Processor Affinity setting controls which CPUs the process will be allowed to execute on.",
        TextKey::MessageTitleLabel => "&Message title:",
        TextKey::MessageLabel => "Me&ssage:",
        TextKey::ShowFullAccountName => "&Show Full Account Name",
        TextKey::User => "User",
        TextKey::Status => "Status",
        TextKey::ClientName => "Client Name",
        TextKey::Session => "Session",
        TextKey::Adapter => "Adapter",
        TextKey::NetworkUtilization => "Network Utilization",
        TextKey::LinkSpeed => "Link Speed",
        TextKey::State => "State",
        TextKey::BytesSent => "Bytes Sent",
        TextKey::BytesReceived => "Bytes Received",
        TextKey::BytesTotal => "Bytes Total",
        TextKey::Connected => "Connected",
        TextKey::Disconnected => "Disconnected",
        TextKey::Connecting => "Connecting",
        TextKey::Disconnecting => "Disconnecting",
        TextKey::HardwareMissing => "Hardware Missing",
        TextKey::HardwareDisabled => "Hardware Disabled",
        TextKey::HardwareMalfunction => "Hardware Malfunction",
        TextKey::Unknown => "Unknown",
        TextKey::Active => "Active",
        TextKey::ConnectQuery => "Connect Query",
        TextKey::Shadow => "Shadow",
        TextKey::Idle => "Idle",
        TextKey::Listening => "Listening",
        TextKey::Reset => "Reset",
        TextKey::Down => "Down",
        TextKey::Init => "Init",
        TextKey::Bitness32Suffix => "(32-bit)",
        TextKey::NotResponding => "Not Responding",
        TextKey::Running => "Running",
        TextKey::MessageCouldNotBeSent => "The message could not be sent.",
        TextKey::UnableToOpenFileLocation => "Unable to Open File Location",
        TextKey::KillProcessTreePrompt => "This operation will attempt to terminate this process and any\nprocesses which were directly or indirectly started by it.\n\nForcing processes to terminate in this manner can cause\ndata loss and system instability.\n\nAre you sure you wish to continue?",
        TextKey::KillProcessTreeFailed => "Unable to Completely End the Process Tree",
        TextKey::KillProcessTreeFailedBody => "One or more of the processes in this process tree could not\nbe ended. The operation was not fully successful.",
        TextKey::ConfirmLogoffSelectedUsers => "Are you sure you want to logoff the selected user(s)?",
        TextKey::ConfirmDisconnectSelectedUsers => "Are you sure you want to disconnect the selected user(s)?",
        TextKey::SelectedUserCouldNotBeLoggedOff => "The selected user could not be logged off.",
        TextKey::SelectedUserCouldNotBeDisconnected => "The selected user could not be disconnected.",
        TextKey::Win32ErrorPrefix => "Win32 error:",
        TextKey::Recv => "Recv",
        TextKey::Sent => "Sent",
        TextKey::Tasks => "Tasks",
        TextKey::Processes => "Processes",
        TextKey::Users => "Users",
        TextKey::NoTitle => "&No Title",
    }
}

/// Looks up a text key in the English (United States) table.
pub fn text(key: TextKey) -> (r: &'static str)
    ensures
        r == spec_text(key),
{
    match key {
        TextKey::File => "&File",
        TextKey::Options => "&Options",
        TextKey::View => "&View",
        TextKey::Windows => "&Windows",
        TextKey::Help => "&Help",
        TextKey::UpdateSpeed => "&Update Speed",
        TextKey::CpuHistory => "&CPU History",
        TextKey::NewTaskMenu => "&Run...",
        TextKey::NewTaskButton => "&Run...",
        TextKey::ExitTaskManager => "E&xit Task Manager",
        TextKey::AlwaysOnTop => "&Always On Top",
        TextKey::MinimizeOnUse => "&Minimize On Use",
        TextKey::Confirmations => "&Confirmations",
        TextKey::HideWhenMinimized => "&Hide When Minimized",
        TextKey::RefreshNow => "&Refresh Now",
        TextKey::High => "&High",
        TextKey::Normal => "&Normal",
        TextKey::Low => "&Low",
        TextKey::Paused => "&Paused",
        TextKey::LargeIcons => "Lar&ge Icons",
        TextKey::SmallIcons => "S&mall Icons",
        TextKey::Details => "&Details",
        TextKey::TileHorizontally => "Tile &Horizontally",
        TextKey::TileVertically => "Tile &Vertically",
        TextKey::Minimize => "&Minimize",
        TextKey::Maximize => "Ma&ximize",
        TextKey::Cascade => "&Cascade",
        TextKey::BringToFront => "&Bring to Front",
        TextKey::HelpTopics => "Task Manager &Help Topics",
        TextKey::AboutTaskManager => "&About Task Manager",
        TextKey::OneGraphAllCpus => "One Graph, &All CPUs",
        TextKey::OneGraphPerCpu => "One Graph &Per CPU",
        TextKey::SelectColumnsMenu => "Select &Columns...",
        TextKey::SelectColumnsTitle => "Select Columns",
        TextKey::SelectProcessColumnsDescription => "Select the columns that will appear on the Process page of the Task Manager.",
        TextKey::ShowKernelTimes => "Show &Kernel Times",
        TextKey::RestoreTaskManager => "&Restore Task Manager",
        TextKey::EndProcess => "&End Process",
        TextKey::EndProcessTree => "End Process &Tree",
        TextKey::OpenFileLocation => "Open File &Location",
        TextKey::Debug => "&Debug",
        TextKey::SetPriority => "Set &Priority",
        TextKey::Realtime => "&Realtime",
        TextKey::AboveNormal => "&Above Normal",
        TextKey::BelowNormal => "&Below Normal",
        TextKey::SetAffinity => "Set &Affinity...",
        TextKey::SwitchTo => "&Switch To",
        TextKey::EndTask => "&End Task",
        TextKey::GoToProcess => "&Go To Process",
        TextKey::Disconnect => "&Disconnect",
        TextKey::Logoff => "&Logoff",
        TextKey::SendMessage => "&Send Message...",
        TextKey::SendMessageTitle => "Send Message",
        TextKey::TaskManager => "Task Manager",
        TextKey::Handles => "Handles",
        TextKey::Threads => "Threads",
        TextKey::ProcessesLabel => "Processes",
        TextKey::CpuUsageHistory => "CPU Usage History",
        TextKey::CpuUsage => "CPU Usage",
        TextKey::MemUsage => "MEM Usage",
        TextKey::MemoryUsageHistory => "Memory Usage History",
        TextKey::PhysicalMemoryK => "Physical Memory (K)",
        TextKey::CommitChargeK => "Commit Charge (K)",
        TextKey::KernelMemoryK => "Kernel Memory (K)",
        TextKey::Totals => "Totals",
        TextKey::Total => "Total",
        TextKey::Available => "Available",
        TextKey::FileCache => "File Cache",
        TextKey::Paged => "Paged",
        TextKey::Nonpaged => "Nonpaged",
        TextKey::Limit => "Limit",
        TextKey::Peak => "Peak",
        TextKey::NoActiveNetworkAdaptersFound => "No Active Network Adapters Found.",
        TextKey::OkButton => "OK",
        TextKey::Cancel => "Cancel",
        TextKey::ImageName => "&Image Name",
        TextKey::PidProcessIdentifier => "PID (Process Identifier)",
        TextKey::UserName => "User Name",
        TextKey::SessionId => "Session ID",
        TextKey::CpuTime => "CPU Time",
        TextKey::MemoryUsage => "Memory Usage",
        TextKey::MemoryUsageDelta => "Memory Usage Delta",
        TextKey::PageFaults => "Page Faults",
        TextKey::PageFaultsDelta => "Page Faults Delta",
        TextKey::VirtualMemorySize => "Virtual Memory Size",
        TextKey::PagedPool => "Paged Pool",
        TextKey::NonPagedPool => "Non-paged Pool",
        TextKey::BasePriority => "Base Priority",
        TextKey::HandleCount => "Handle Count",
        TextKey::ThreadCount => "Thread Count",
        TextKey::ProcessorAffinity => "Processor Affinity",
        TextKey::Processors => "Processors",
        TextKey::ProcessorAffinityDescription => "The Processor Affinity setting controls which CPUs the process will be allowed to execute on.",
        TextKey::MessageTitleLabel => "&Message title:",
        TextKey::MessageLabel => "Me&ssage:",
        TextKey::ShowFullAccountName => "&Show Full Account Name",
        TextKey::User => "User",
        TextKey::Status => "Status",
        TextKey::ClientName => "Client Name",
        TextKey::Session => "Session",
        TextKey::Adapter => "Adapter",
        TextKey::NetworkUtilization => "Network Utilization",
        TextKey::LinkSpeed => "Link Speed",
        TextKey::State => "State",
        TextKey::BytesSent => "Bytes Sent",
        TextKey::BytesReceived => "Bytes Received",
        TextKey::BytesTotal => "Bytes Total",
        TextKey::Connected => "Connected",
        TextKey::Disconnected => "Disconnected",
        TextKey::Connecting => "Connecting",
        TextKey::Disconnecting => "Disconnecting",
        TextKey::HardwareMissing => "Hardware Missing",
        TextKey::HardwareDisabled => "Hardware Disabled",
        TextKey::HardwareMalfunction => "Hardware Malfunction",
        TextKey::Unknown => "Unknown",
        TextKey::Active => "Active",
        TextKey::ConnectQuery => "Connect Query",
        TextKey::Shadow => "Shadow",
        TextKey::Idle => "Idle",
        TextKey::Listening => "Listening",
        TextKey::Reset => "Reset",
        TextKey::Down => "Down",
        TextKey::Init => "Init",
        TextKey::Bitness32Suffix => "(32-bit)",
        TextKey::NotResponding => "Not Responding",
        TextKey::Running => "Running",
        TextKey::MessageCouldNotBeSent => "The message could not be sent.",
        TextKey::UnableToOpenFileLocation => "Unable to Open File Location",
        TextKey::KillProcessTreePrompt => "This operation will attempt to terminate this process and any\nprocesses which were directly or indirectly started by it.\n\nForcing processes to terminate in this manner can cause\ndata loss and system instability.\n\nAre you sure you wish to continue?",
        TextKey::KillProcessTreeFailed => "Unable to Completely End the Process Tree",
        TextKey::KillProcessTreeFailedBody => "One or more of the processes in this process tree could not\nbe ended. The operation was not fully successful.",
        TextKey::ConfirmLogoffSelectedUsers => "Are you sure you want to logoff the selected user(s)?",
        TextKey::ConfirmDisconnectSelectedUsers => "Are you sure you want to disconnect the selected user(s)?",
        TextKey::SelectedUserCouldNotBeLoggedOff => "The selected user could not be logged off.",
        TextKey::SelectedUserCouldNotBeDisconnected => "The selected user could not be disconnected.",
        TextKey::Win32ErrorPrefix => "Win32 error:",
        TextKey::Recv => "Recv",
        TextKey::Sent => "Sent",
        TextKey::Tasks => "Tasks",
        TextKey::Processes => "Processes",
        TextKey::Users => "Users",
        TextKey::NoTitle => "&No Title",
    }
}

/// Every text key has a non-empty English (United States) string.
pub proof fn lemma_text_nonempty(key: TextKey)
    ensures
        spec_text(key)@.len() > 0,
{
    match key {
        TextKey::File => { reveal_strlit("&File"); }
        TextKey::Options => { reveal_strlit("&Options"); }
        TextKey::View => { reveal_strlit("&View"); }
        TextKey::Windows => { reveal_strlit("&Windows"); }
        TextKey::Help => { reveal_strlit("&Help"); }
        TextKey::UpdateSpeed => { reveal_strlit("&Update Speed"); }
        TextKey::CpuHistory => { reveal_strlit("&CPU History"); }
        TextKey::NewTaskMenu => { reveal_strlit("&Run..."); }
        TextKey::NewTaskButton => { reveal_strlit("&Run..."); }
        TextKey::ExitTaskManager => { reveal_strlit("E&xit Task Manager"); }
        TextKey::AlwaysOnTop => { reveal_strlit("&Always On Top"); }
        TextKey::MinimizeOnUse => { reveal_strlit("&Minimize On Use"); }
        TextKey::Confirmations => { reveal_strlit("&Confirmations"); }
        TextKey::HideWhenMinimized => { reveal_strlit("&Hide When Minimized"); }
        TextKey::RefreshNow => { reveal_strlit("&Refresh Now"); }
        TextKey::High => { reveal_strlit("&High"); }
        TextKey::Normal => { reveal_strlit("&Normal"); }
        TextKey::Low => { reveal_strlit("&Low"); }
        TextKey::Paused => { reveal_strlit("&Paused"); }
        TextKey::LargeIcons => { reveal_strlit("Lar&ge Icons"); }
        TextKey::SmallIcons => { reveal_strlit("S&mall Icons"); }
        TextKey::Details => { reveal_strlit("&Details"); }
        TextKey::TileHorizontally => { reveal_strlit("Tile &Horizontally"); }
        TextKey::TileVertically => { reveal_strlit("Tile &Vertically"); }
        TextKey::Minimize => { reveal_strlit("&Minimize"); }
        TextKey::Maximize => { reveal_strlit("Ma&ximize"); }
        TextKey::Cascade => { reveal_strlit("&Cascade"); }
        TextKey::BringToFront => { reveal_strlit("&Bring to Front"); }
        TextKey::HelpTopics => { reveal_strlit("Task Manager &Help Topics"); }
        TextKey::AboutTaskManager => { reveal_strlit("&About Task Manager"); }
        TextKey::OneGraphAllCpus => { reveal_strlit("One Graph, &All CPUs"); }
        TextKey::OneGraphPerCpu => { reveal_strlit("One Graph &Per CPU"); }
        TextKey::SelectColumnsMenu => { reveal_strlit("Select &Columns..."); }
        TextKey::SelectColumnsTitle => { reveal_strlit("Select Columns"); }
        TextKey::SelectProcessColumnsDescription => { reveal_strlit("Select the columns that will appear on the Process page of the Task Manager."); }
        TextKey::ShowKernelTimes => { reveal_strlit("Show &Kernel Times"); }
        TextKey::RestoreTaskManager => { reveal_strlit("&Restore Task Manager"); }
        TextKey::EndProcess => { reveal_strlit("&End Process"); }
        TextKey::EndProcessTree => { reveal_strlit("End Process &Tree"); }
        TextKey::OpenFileLocation => { reveal_strlit("Open File &Location"); }
        TextKey::Debug => { reveal_strlit("&Debug"); }
        TextKey::SetPriority => { reveal_strlit("Set &Priority"); }
        TextKey::Realtime => { reveal_strlit("&Realtime"); }
        TextKey::AboveNormal => { reveal_strlit("&Above Normal"); }
        TextKey::BelowNormal => { reveal_strlit("&Below Normal"); }
        TextKey::SetAffinity => { reveal_strlit("Set &Affinity..."); }
        TextKey::SwitchTo => { reveal_strlit("&Switch To"); }
        TextKey::EndTask => { reveal_strlit("&End Task"); }
        TextKey::GoToProcess => { reveal_strlit("&Go To Process"); }
        TextKey::Disconnect => { reveal_strlit("&Disconnect"); }
        TextKey::Logoff => { reveal_strlit("&Logoff"); }
        TextKey::SendMessage => { reveal_strlit("&Send Message..."); }
        TextKey::SendMessageTitle => { reveal_strlit("Send Message"); }
        TextKey::TaskManager => { reveal_strlit("Task Manager"); }
        TextKey::Handles => { reveal_strlit("Handles"); }
        TextKey::Threads => { reveal_strlit("Threads"); }
        TextKey::ProcessesLabel => { reveal_strlit("Processes"); }
        TextKey::CpuUsageHistory => { reveal_strlit("CPU Usage History"); }
        TextKey::CpuUsage => { reveal_strlit("CPU Usage"); }
        TextKey::MemUsage => { reveal_strlit("MEM Usage"); }
        TextKey::MemoryUsageHistory => { reveal_strlit("Memory Usage History"); }
        TextKey::PhysicalMemoryK => { reveal_strlit("Physical Memory (K)"); }
        TextKey::CommitChargeK => { reveal_strlit("Commit Charge (K)"); }
        TextKey::KernelMemoryK => { reveal_strlit("Kernel Memory (K)"); }
        TextKey::Totals => { reveal_strlit("Totals"); }
        TextKey::Total => { reveal_strlit("Total"); }
        TextKey::Available => { reveal_strlit("Available"); }
        TextKey::FileCache => { reveal_strlit("File Cache"); }
        TextKey::Paged => { reveal_strlit("Paged"); }
        TextKey::Nonpaged => { reveal_strlit("Nonpaged"); }
        TextKey::Limit => { reveal_strlit("Limit"); }
        TextKey::Peak => { reveal_strlit("Peak"); }
        TextKey::NoActiveNetworkAdaptersFound => { reveal_strlit("No Active Network Adapters Found."); }
        TextKey::OkButton => { reveal_strlit("OK"); }
        TextKey::Cancel => { reveal_strlit("Cancel"); }
        TextKey::ImageName => { reveal_strlit("&Image Name"); }
        TextKey::PidProcessIdentifier => { reveal_strlit("PID (Process Identifier)"); }
        TextKey::UserName => { reveal_strlit("User Name"); }
        TextKey::SessionId => { reveal_strlit("Session ID"); }
        TextKey::CpuTime => { reveal_strlit("CPU Time"); }
        TextKey::MemoryUsage => { reveal_strlit("Memory Usage"); }
        TextKey::MemoryUsageDelta => { reveal_strlit("Memory Usage Delta"); }
        TextKey::PageFaults => { reveal_strlit("Page Faults"); }
        TextKey::PageFaultsDelta => { reveal_strlit("Page Faults Delta"); }
        TextKey::VirtualMemorySize => { reveal_strlit("Virtual Memory Size"); }
        TextKey::PagedPool => { reveal_strlit("Paged Pool"); }
        TextKey::NonPagedPool => { reveal_strlit("Non-paged Pool"); }
        TextKey::BasePriority => { reveal_strlit("Base Priority"); }
        TextKey::HandleCount => { reveal_strlit("Handle Count"); }
        TextKey::ThreadCount => { reveal_strlit("Thread Count"); }
        TextKey::ProcessorAffinity => { reveal_strlit("Processor Affinity"); }
        TextKey::Processors => { reveal_strlit("Processors"); }
        TextKey::ProcessorAffinityDescription => { reveal_strlit("The Processor Affinity setting controls which CPUs the process will be allowed to execute on."); }
        TextKey::MessageTitleLabel => { reveal_strlit("&Message title:"); }
        TextKey::MessageLabel => { reveal_strlit("Me&ssage:"); }
        TextKey::ShowFullAccountName => { reveal_strlit("&Show Full Account Name"); }
        TextKey::User => { reveal_strlit("User"); }
        TextKey::Status => { reveal_strlit("Status"); }
        TextKey::ClientName => { reveal_strlit("Client Name"); }
        TextKey::Session => { reveal_strlit("Session"); }
        TextKey::Adapter => { reveal_strlit("Adapter"); }
        TextKey::NetworkUtilization => { reveal_strlit("Network Utilization"); }
        TextKey::LinkSpeed => { reveal_strlit("Link Speed"); }
        TextKey::State => { reveal_strlit("State"); }
        TextKey::BytesSent => { reveal_strlit("Bytes Sent"); }
        TextKey::BytesReceived => { reveal_strlit("Bytes Received"); }
        TextKey::BytesTotal => { reveal_strlit("Bytes Total"); }
        TextKey::Connected => { reveal_strlit("Connected"); }
        TextKey::Disconnected => { reveal_strlit("Disconnected"); }
        TextKey::Connecting => { reveal_strlit("Connecting"); }
        TextKey::Disconnecting => { reveal_strlit("Disconnecting"); }
        TextKey::HardwareMissing => { reveal_strlit("Hardware Missing"); }
        TextKey::HardwareDisabled => { reveal_strlit("Hardware Disabled"); }
        TextKey::HardwareMalfunction => { reveal_strlit("Hardware Malfunction"); }
        TextKey::Unknown => { reveal_strlit("Unknown"); }
        TextKey::Active => { reveal_strlit("Active"); }
        TextKey::ConnectQuery => { reveal_strlit("Connect Query"); }
        TextKey::Shadow => { reveal_strlit("Shadow"); }
        TextKey::Idle => { reveal_strlit("Idle"); }
        TextKey::Listening => { reveal_strlit("Listening"); }
        TextKey::Reset => { reveal_strlit("Reset"); }
        TextKey::Down => { reveal_strlit("Down"); }
        TextKey::Init => { reveal_strlit("Init"); }
        TextKey::Bitness32Suffix => { reveal_strlit("(32-bit)"); }
        TextKey::NotResponding => { reveal_strlit("Not Responding"); }
        TextKey::Running => { reveal_strlit("Running"); }
        TextKey::MessageCouldNotBeSent => { reveal_strlit("The message could not be sent."); }
        TextKey::UnableToOpenFileLocation => { reveal_strlit("Unable to Open File Location"); }
        TextKey::KillProcessTreePrompt => { reveal_strlit("This operation will attempt to terminate this process and any\nprocesses which were directly or indirectly started by it.\n\nForcing processes to terminate in this manner can cause\ndata loss and system instability.\n\nAre you sure you wish to continue?"); }
        TextKey::KillProcessTreeFailed => { reveal_strlit("Unable to Completely End the Process Tree"); }
        TextKey::KillProcessTreeFailedBody => { reveal_strlit("One or more of the processes in this process tree could not\nbe ended. The operation was not fully successful."); }
        TextKey::ConfirmLogoffSelectedUsers => { reveal_strlit("Are you sure you want to logoff the selected user(s)?"); }
        TextKey::ConfirmDisconnectSelectedUsers => { reveal_strlit("Are you sure you want to disconnect the selected user(s)?"); }
        TextKey::SelectedUserCouldNotBeLoggedOff => { reveal_strlit("The selected user could not be logged off."); }
        TextKey::SelectedUserCouldNotBeDisconnected => { reveal_strlit("The selected user could not be disconnected."); }
        TextKey::Win32ErrorPrefix => { reveal_strlit("Win32 error:"); }
        TextKey::Recv => { reveal_strlit("Recv"); }
        TextKey::Sent => { reveal_strlit("Sent"); }
        TextKey::Tasks => { reveal_strlit("Tasks"); }
        TextKey::Processes => { reveal_strlit("Processes"); }
        TextKey::Users => { reveal_strlit("Users"); }
        TextKey::NoTitle => { reveal_strlit("&No Title"); }
    }
}

} // verus!
