use vstd::prelude::*;

verus! {

// Numbered string resources.
pub const IDS_PERFPAGETITLE: u32 = 10001;
pub const IDS_NETPAGETITLE: u32 = 10002;
pub const IDS_RUNTITLE: u32 = 10003;
pub const IDS_RUNTEXT: u32 = 10004;
pub const IDS_APPTITLE: u32 = 10005;
pub const IDS_TASKMGR: u32 = 10006;
pub const IDS_PROCPAGETITLE: u32 = 10007;
pub const IDS_TASKPAGETITLE: u32 = 10008;
pub const IDS_USERPAGETITLE: u32 = 10009;
pub const IDS_TASKMGRDISABLED: u32 = 10010;
pub const IDS_WARNING: u32 = 10011;
pub const IDS_PRICHANGE: u32 = 10012;
pub const IDS_KILL: u32 = 10013;
pub const IDS_DEBUG: u32 = 10014;
pub const IDS_LOW: u32 = 10015;
pub const IDS_HIGH: u32 = 10016;
pub const IDS_REALTIME: u32 = 10017;
pub const IDS_NORMAL: u32 = 10018;
pub const IDS_UNKNOWN: u32 = 10019;
pub const IDS_CANTSETAFFINITY: u32 = 10020;
pub const IDS_CANTKILL: u32 = 10021;
pub const IDS_CANTDEBUG: u32 = 10022;
pub const IDS_CANTCHANGEPRI: u32 = 10023;
pub const IDS_FMTPROCS: u32 = 10024;
pub const IDS_FMTCPU: u32 = 10025;
pub const IDS_FMTMEM: u32 = 10026;
pub const IDS_COL_TASKNAME: u32 = 10027;
pub const IDS_COL_TASKSTATUS: u32 = 10028;
pub const IDS_COL_TASKWINSTATION: u32 = 10029;
pub const IDS_COL_TASKDESKTOP: u32 = 10030;
pub const IDS_INVALIDOPTION: u32 = 10031;
pub const IDS_NOAFFINITYMASK: u32 = 10032;
pub const IDS_FMTCPUNUM: u32 = 10033;
pub const IDS_TOTALTIME: u32 = 10034;
pub const IDS_KERNELTIME: u32 = 10035;
pub const IDS_MEMUSAGE: u32 = 10036;
pub const IDS_COL_IMAGENAME: u32 = 10037;
pub const IDS_COL_PID: u32 = 10038;
pub const IDS_COL_CPU: u32 = 10039;
pub const IDS_COL_CPUTIME: u32 = 10040;
pub const IDS_COL_MEMUSAGE: u32 = 10041;
pub const IDS_COL_MEMUSAGEDIFF: u32 = 10042;
pub const IDS_COL_PAGEFAULTS: u32 = 10043;
pub const IDS_COL_PAGEFAULTSDIFF: u32 = 10044;
pub const IDS_COL_COMMITCHARGE: u32 = 10045;
pub const IDS_COL_PAGEDPOOL: u32 = 10046;
pub const IDS_COL_NONPAGEDPOOL: u32 = 10047;
pub const IDS_COL_BASEPRIORITY: u32 = 10048;
pub const IDS_COL_HANDLECOUNT: u32 = 10049;
pub const IDS_COL_THREADCOUNT: u32 = 10050;
pub const IDS_COL_SESSIONID: u32 = 10051;
pub const IDS_COL_USERNAME: u32 = 10052;
pub const IDS_FMTTASKS: u32 = 10053;

// Menu commands.  The runs VM_, CM_, US_ and IDM_PROC_ are contiguous: code
// adds an option value to the first command of a run.
pub const IDM_RUN: u16 = 40001;
pub const IDM_EXIT: u16 = 40002;
pub const IDM_ALWAYSONTOP: u16 = 40003;
pub const IDM_MINIMIZEONUSE: u16 = 40004;
pub const IDM_CONFIRMATIONS: u16 = 40005;
pub const IDM_HIDEWHENMIN: u16 = 40006;
pub const IDM_NOTITLE: u16 = 40007;
pub const IDM_KERNELTIMES: u16 = 40008;
pub const IDM_LARGEICONS: u16 = 40009;
pub const IDM_SMALLICONS: u16 = 40010;
pub const IDM_DETAILS: u16 = 40011;
pub const IDM_ALLCPUS: u16 = 40012;
pub const IDM_MULTIGRAPH: u16 = 40013;
pub const IDM_HIGH: u16 = 40014;
pub const IDM_NORMAL: u16 = 40015;
pub const IDM_LOW: u16 = 40016;
pub const IDM_PAUSED: u16 = 40017;
pub const IDM_ABOUT: u16 = 40018;
pub const IDM_HELP: u16 = 40019;
pub const IDM_REFRESH: u16 = 40020;
pub const IDM_HIDE: u16 = 40021;
pub const IDM_RESTORETASKMAN: u16 = 40022;
pub const IDM_PROCCOLS: u16 = 40023;
pub const IDM_AFFINITY: u16 = 40024;
pub const IDM_PROC_DEBUG: u16 = 40025;
pub const IDM_PROC_TERMINATE: u16 = 40026;
pub const IDM_PROC_ENDTREE: u16 = 40027;
pub const IDM_PROC_REALTIME: u16 = 40028;
pub const IDM_PROC_HIGH: u16 = 40029;
pub const IDM_PROC_NORMAL: u16 = 40030;
pub const IDM_PROC_LOW: u16 = 40031;
pub const IDM_TASK_SWITCHTO: u16 = 40032;
pub const IDM_TASK_ENDTASK: u16 = 40033;
pub const IDM_TASK_FINDPROCESS: u16 = 40034;
pub const IDM_TASK_MINIMIZE: u16 = 40035;
pub const IDM_TASK_MAXIMIZE: u16 = 40036;
pub const IDM_TASK_CASCADE: u16 = 40037;
pub const IDM_TASK_TILEHORZ: u16 = 40038;
pub const IDM_TASK_TILEVERT: u16 = 40039;
pub const IDM_TASK_BRINGTOFRONT: u16 = 40040;
pub const IDM_SHOWDOMAINNAMES: u16 = 40041;
pub const IDM_SENDMESSAGE: u16 = 40042;
pub const IDM_DISCONNECT: u16 = 40043;
pub const IDM_LOGOFF: u16 = 40044;
pub const IDM_USERCOLS: u16 = 40045;
pub const VM_FIRST: u16 = IDM_LARGEICONS;
pub const VM_LAST: u16 = IDM_DETAILS;
pub const CM_FIRST: u16 = IDM_ALLCPUS;
pub const CM_LAST: u16 = IDM_MULTIGRAPH;
pub const US_FIRST: u16 = IDM_HIGH;
pub const US_LAST: u16 = IDM_PAUSED;

// Accelerator commands.
pub const IDC_NEXTTAB: u16 = 40101;
pub const IDC_PREVTAB: u16 = 40102;

// Dialog controls.
pub const IDC_TABS: i32 = 1001;
pub const IDC_STATUSWND: i32 = 1002;
pub const IDC_TASKLIST: i32 = 1003;
pub const IDC_SWITCHTO: i32 = 1004;
pub const IDC_ENDTASK: i32 = 1005;
pub const IDC_MINIMIZE: i32 = 1006;
pub const IDC_MAXIMIZE: i32 = 1007;
pub const IDC_CASCADE: i32 = 1008;
pub const IDC_TILEHORZ: i32 = 1009;
pub const IDC_TILEVERT: i32 = 1010;
pub const IDC_PROCLIST: i32 = 1011;
pub const IDC_TERMINATE: i32 = 1012;
pub const IDC_DEBUG: i32 = 1013;
pub const IDC_USERLIST: i32 = 1014;
pub const IDC_NICTOTALS: i32 = 1015;
pub const IDC_NOADAPTERS: i32 = 1016;
pub const IDC_GRAPHSCROLLVERT: i32 = 1017;
pub const IDC_CPUFRAME: i32 = 1018;
pub const IDC_CPUUSAGEFRAME: i32 = 1019;
pub const IDC_CPUMETER: i32 = 1020;
pub const IDC_MEMGRAPH: i32 = 1021;
pub const IDC_MEMFRAME: i32 = 1022;
pub const IDC_MEMBARFRAME: i32 = 1023;
pub const IDC_MEMMETER: i32 = 1024;
pub const IDC_TOTAL_PHYSICAL: i32 = 1025;
pub const IDC_AVAIL_PHYSICAL: i32 = 1026;
pub const IDC_FILE_CACHE: i32 = 1027;
pub const IDC_COMMIT_TOTAL: i32 = 1028;
pub const IDC_COMMIT_LIMIT: i32 = 1029;
pub const IDC_COMMIT_PEAK: i32 = 1030;
pub const IDC_KERNEL_TOTAL: i32 = 1031;
pub const IDC_KERNEL_PAGED: i32 = 1032;
pub const IDC_KERNEL_NONPAGED: i32 = 1033;
pub const IDC_TOTAL_HANDLES: i32 = 1034;
pub const IDC_TOTAL_THREADS: i32 = 1035;
pub const IDC_TOTAL_PROCESSES: i32 = 1036;
pub const IDC_STATIC1: i32 = 1037;
pub const IDC_STATIC2: i32 = 1038;
pub const IDC_STATIC3: i32 = 1039;
pub const IDC_STATIC4: i32 = 1040;
pub const IDC_STATIC5: i32 = 1041;
pub const IDC_STATIC6: i32 = 1042;
pub const IDC_STATIC8: i32 = 1043;
pub const IDC_STATIC9: i32 = 1044;
pub const IDC_STATIC10: i32 = 1045;
pub const IDC_STATIC11: i32 = 1046;
pub const IDC_STATIC12: i32 = 1047;
pub const IDC_STATIC13: i32 = 1048;
pub const IDC_STATIC14: i32 = 1049;
pub const IDC_STATIC15: i32 = 1050;
pub const IDC_STATIC16: i32 = 1051;
pub const IDC_STATIC17: i32 = 1052;
pub const IDC_IMAGENAME: i32 = 1053;
pub const IDC_PID: i32 = 1054;
pub const IDC_USERNAME: i32 = 1055;
pub const IDC_SESSIONID: i32 = 1056;
pub const IDC_CPU: i32 = 1057;
pub const IDC_CPUTIME: i32 = 1058;
pub const IDC_MEMUSAGE: i32 = 1059;
pub const IDC_MEMUSAGEDIFF: i32 = 1060;
pub const IDC_PAGEFAULTS: i32 = 1061;
pub const IDC_PAGEFAULTSDIFF: i32 = 1062;
pub const IDC_COMMITCHARGE: i32 = 1063;
pub const IDC_PAGEDPOOL: i32 = 1064;
pub const IDC_NONPAGEDPOOL: i32 = 1065;
pub const IDC_BASEPRIORITY: i32 = 1066;
pub const IDC_HANDLECOUNT: i32 = 1067;
pub const IDC_THREADCOUNT: i32 = 1068;
pub const IDC_SELECTPROCCOLS_DESC: i32 = 1069;
pub const IDC_AFFINITY_GROUP: i32 = 1070;
pub const IDC_AFFINITY_DESC: i32 = 1071;
pub const IDC_MESSAGE_TITLE: i32 = 1072;
pub const IDC_MESSAGE_MESSAGE: i32 = 1073;
pub const IDC_MESSAGE_TITLE_LABEL: i32 = 1074;
pub const IDC_MESSAGE_BODY_LABEL: i32 = 1075;

// Runs of numbered controls.
pub const STATIC_CPU_GRAPH_COUNT: usize = 32;
pub const IDC_CPUGRAPH: i32 = 1201;
pub const IDC_LAST_CPUGRAPH: i32 = 1232;
pub const MAX_AFFINITY_CPU: i32 = 31;
pub const IDC_CPU0: i32 = 1301;
pub const IDC_NICGRAPH: i32 = 1401;

// Dialogs, menus, icons and bitmaps.
pub const IDD_MAINWND: u16 = 101;
pub const IDD_TASKPAGE: u16 = 102;
pub const IDD_PROCPAGE: u16 = 103;
pub const IDD_PERFPAGE: u16 = 104;
pub const IDD_NETPAGE: u16 = 105;
pub const IDD_USERSPAGE: u16 = 106;
pub const IDD_SELECTPROCCOLS: u16 = 107;
pub const IDD_AFFINITY: u16 = 108;
pub const IDD_MESSAGE: u16 = 109;
pub const IDR_MAINMENU_TASK: u16 = 110;
pub const IDR_MAINMENU_PROC: u16 = 111;
pub const IDR_MAINMENU_PERF: u16 = 112;
pub const IDR_MAINMENU_NET: u16 = 113;
pub const IDR_MAINMENU_USER: u16 = 114;
pub const IDR_TASKVIEW: u16 = 115;
pub const IDR_TASK_CONTEXT: u16 = 116;
pub const IDR_PROC_CONTEXT: u16 = 117;
pub const IDR_USER_CONTEXT: u16 = 118;
pub const IDR_TRAYMENU: u16 = 119;
pub const IDR_ACCELERATORS: u16 = 120;
pub const IDI_MAIN: u16 = 121;
pub const IDI_DEFAULT: u16 = 122;
pub const LED_STRIP_LIT: u16 = 123;
pub const LED_STRIP_LIT_RED: u16 = 124;
pub const LED_STRIP_UNLIT: u16 = 125;

// Private window messages.
pub const PWM_TRAYICON: u32 = 0x0401;
pub const PWM_ACTIVATE: u32 = 0x0402;
pub const PWM_INPOPUP: u32 = 0x0403;

// Pages, in tab order.
pub const TASK_PAGE: usize = 0;
pub const PROC_PAGE: usize = 1;
pub const PERF_PAGE: usize = 2;
pub const NET_PAGE: usize = 3;
pub const USER_PAGE: usize = 4;
pub const NUM_PAGES: usize = 5;

/// Number of process-page columns.
pub const NUM_COLUMN: usize = 16;

} // verus!
