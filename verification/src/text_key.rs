use vstd::prelude::*;

verus! {

/// Declarative keys of the user-interface strings.
#[derive(Clone, Copy, PartialEq, Eq, Structural, Debug)]
pub enum TextKey {
    File,
    Options,
    View,
    Windows,
    Help,
    UpdateSpeed,
    CpuHistory,
    NewTaskMenu,
    NewTaskButton,
    ExitTaskManager,
    AlwaysOnTop,
    MinimizeOnUse,
    Confirmations,
    HideWhenMinimized,
    RefreshNow,
    High,
    Normal,
    Low,
    Paused,
    LargeIcons,
    SmallIcons,
    Details,
    TileHorizontally,
    TileVertically,
    Minimize,
    Maximize,
    Cascade,
    BringToFront,
    HelpTopics,
    AboutTaskManager,
    OneGraphAllCpus,
    OneGraphPerCpu,
    SelectColumnsMenu,
    SelectColumnsTitle,
    SelectProcessColumnsDescription,
    ShowKernelTimes,
    RestoreTaskManager,
    EndProcess,
    EndProcessTree,
    OpenFileLocation,
    Debug,
    SetPriority,
    Realtime,
    AboveNormal,
    BelowNormal,
    SetAffinity,
    SwitchTo,
    EndTask,
    GoToProcess,
    Disconnect,
    Logoff,
    SendMessage,
    SendMessageTitle,
    TaskManager,
    Handles,
    Threads,
    ProcessesLabel,
    CpuUsageHistory,
    CpuUsage,
    MemUsage,
    MemoryUsageHistory,
    PhysicalMemoryK,
    CommitChargeK,
    KernelMemoryK,
    Totals,
    Total,
    Available,
    FileCache,
    Paged,
    Nonpaged,
    Limit,
    Peak,
    NoActiveNetworkAdaptersFound,
    OkButton,
    Cancel,
    ImageName,
    PidProcessIdentifier,
    UserName,
    SessionId,
    CpuTime,
    MemoryUsage,
    MemoryUsageDelta,
    PageFaults,
    PageFaultsDelta,
    VirtualMemorySize,
    PagedPool,
    NonPagedPool,
    BasePriority,
    HandleCount,
    ThreadCount,
    ProcessorAffinity,
    Processors,
    ProcessorAffinityDescription,
    MessageTitleLabel,
    MessageLabel,
    ShowFullAccountName,
    User,
    Status,
    ClientName,
    Session,
    Adapter,
    NetworkUtilization,
    LinkSpeed,
    State,
    BytesSent,
    BytesReceived,
    BytesTotal,
    Connected,
    Disconnected,
    Connecting,
    Disconnecting,
    HardwareMissing,
    HardwareDisabled,
    HardwareMalfunction,
    Unknown,
    Active,
    ConnectQuery,
    Shadow,
    Idle,
    Listening,
    Reset,
    Down,
    Init,
    Bitness32Suffix,
    NotResponding,
    Running,
    MessageCouldNotBeSent,
    UnableToOpenFileLocation,
    KillProcessTreePrompt,
    KillProcessTreeFailed,
    KillProcessTreeFailedBody,
    ConfirmLogoffSelectedUsers,
    ConfirmDisconnectSelectedUsers,
    SelectedUserCouldNotBeLoggedOff,
    SelectedUserCouldNotBeDisconnected,
    Win32ErrorPrefix,
    Recv,
    Sent,
    Tasks,
    Processes,
    Users,
    NoTitle,
}

} // verus!
