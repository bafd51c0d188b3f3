use windows_sys::Win32::NetworkManagement::IpHelper as ip;
use windows_sys::Win32::NetworkManagement::Ndis as ndis;
use windows_sys::Win32::System::RemoteDesktop as rd;
use windows_sys::Win32::System::Threading as th;
use windows_sys::Win32::UI::Controls as ctl;
use windows_sys::Win32::UI::Input::KeyboardAndMouse as kb;
use windows_sys::Win32::UI::WindowsAndMessaging as wm;

use taskmgr::appstate;
use taskmgr::netcalc;
use taskmgr::pages;
use taskmgr::procpage;
use taskmgr::taskpage;
use taskmgr::ui_texts;
use taskmgr::userpage::session_state_text;
use taskmgr::localization::UiLanguage;

#[test]
fn list_and_priority_constants_match_the_system_headers() {
    assert_eq!(procpage::LVCFMT_LEFT as i64, ctl::LVCFMT_LEFT as i64);
    assert_eq!(procpage::LVCFMT_RIGHT as i64, ctl::LVCFMT_RIGHT as i64);
    assert_eq!(procpage::IDLE_PRIORITY_CLASS as i64, th::IDLE_PRIORITY_CLASS as i64);
    assert_eq!(procpage::NORMAL_PRIORITY_CLASS as i64, th::NORMAL_PRIORITY_CLASS as i64);
    assert_eq!(procpage::HIGH_PRIORITY_CLASS as i64, th::HIGH_PRIORITY_CLASS as i64);
    assert_eq!(procpage::REALTIME_PRIORITY_CLASS as i64, th::REALTIME_PRIORITY_CLASS as i64);
    assert_eq!(taskpage::LVS_ICON as i64, ctl::LVS_ICON as i64);
    assert_eq!(taskpage::LVS_REPORT as i64, ctl::LVS_REPORT as i64);
    assert_eq!(taskpage::LVS_SMALLICON as i64, ctl::LVS_SMALLICON as i64);
    assert_eq!(taskpage::LVS_TYPEMASK as i64, ctl::LVS_TYPEMASK as i64);
    assert_eq!(taskpage::LVS_SHOWSELALWAYS as i64, ctl::LVS_SHOWSELALWAYS as i64);
    assert_eq!(taskpage::LVS_AUTOARRANGE as i64, ctl::LVS_AUTOARRANGE as i64);
}

#[test]
fn window_constants_match_the_system_headers() {
    assert_eq!(appstate::WS_MAXIMIZEBOX as i64, wm::WS_MAXIMIZEBOX as i64);
    assert_eq!(appstate::WS_MINIMIZEBOX as i64, wm::WS_MINIMIZEBOX as i64);
    assert_eq!(appstate::WS_THICKFRAME as i64, wm::WS_THICKFRAME as i64);
    assert_eq!(appstate::WS_SYSMENU as i64, wm::WS_SYSMENU as i64);
    assert_eq!(appstate::WS_DLGFRAME as i64, wm::WS_DLGFRAME as i64);
    assert_eq!(appstate::WS_BORDER as i64, wm::WS_BORDER as i64);
    assert_eq!(appstate::WS_CAPTION as i64, wm::WS_CAPTION as i64);
    assert_eq!(appstate::WS_POPUP as i64, wm::WS_POPUP as i64);
    assert_eq!(appstate::WS_TILEDWINDOW as i64, wm::WS_TILEDWINDOW as i64);
    assert_eq!(appstate::MF_POPUP as i64, wm::MF_POPUP as i64);
    assert_eq!(appstate::MF_SEPARATOR as i64, wm::MF_SEPARATOR as i64);
    assert_eq!(appstate::MF_SYSMENU as i64, wm::MF_SYSMENU as i64);
    assert_eq!(appstate::HTCLIENT as i64, wm::HTCLIENT as i64);
    assert_eq!(appstate::HTCAPTION as i64, wm::HTCAPTION as i64);
    assert_eq!(appstate::IDCANCEL as i64, wm::IDCANCEL as i64);
    assert_eq!(ui_texts::IDOK as i64, wm::IDOK as i64);
    assert_eq!(ui_texts::IDCANCEL as i64, wm::IDCANCEL as i64);
    assert_eq!(appstate::WM_LBUTTONDBLCLK as i64, wm::WM_LBUTTONDBLCLK as i64);
    assert_eq!(appstate::WM_RBUTTONDOWN as i64, wm::WM_RBUTTONDOWN as i64);
    assert_eq!(netcalc::SB_LINEUP as i64, wm::SB_LINEUP as i64);
    assert_eq!(netcalc::SB_LINEDOWN as i64, wm::SB_LINEDOWN as i64);
    assert_eq!(netcalc::SB_PAGEUP as i64, wm::SB_PAGEUP as i64);
    assert_eq!(netcalc::SB_PAGEDOWN as i64, wm::SB_PAGEDOWN as i64);
    assert_eq!(netcalc::SB_THUMBPOSITION as i64, wm::SB_THUMBPOSITION as i64);
    assert_eq!(netcalc::SB_THUMBTRACK as i64, wm::SB_THUMBTRACK as i64);
    assert_eq!(netcalc::SB_TOP as i64, wm::SB_TOP as i64);
    assert_eq!(netcalc::SB_BOTTOM as i64, wm::SB_BOTTOM as i64);
}

#[test]
fn keyboard_and_network_constants_match_the_system_headers() {
    assert_eq!(pages::FVIRTKEY as i64, wm::FVIRTKEY as i64);
    assert_eq!(pages::FSHIFT as i64, wm::FSHIFT as i64);
    assert_eq!(pages::FCONTROL as i64, wm::FCONTROL as i64);
    assert_eq!(pages::FNOINVERT as i64, wm::FNOINVERT as i64);
    assert_eq!(pages::VK_TAB as i64, kb::VK_TAB as i64);
    assert_eq!(pages::VK_RETURN as i64, kb::VK_RETURN as i64);
    assert_eq!(pages::VK_ESCAPE as i64, kb::VK_ESCAPE as i64);
    assert_eq!(pages::VK_F5 as i64, kb::VK_F5 as i64);
    assert_eq!(pages::VK_DELETE as i64, kb::VK_DELETE as i64);
    assert_eq!(netcalc::IF_TYPE_SOFTWARE_LOOPBACK as i64, ip::IF_TYPE_SOFTWARE_LOOPBACK as i64);
    assert_eq!(netcalc::IF_TYPE_TUNNEL as i64, ip::IF_TYPE_TUNNEL as i64);
    assert_eq!(netcalc::IF_OPER_STATUS_UP as i64, ndis::IfOperStatusUp as i64);
}

#[test]
fn session_states_follow_the_system_numbering() {
    assert_eq!(session_state_text(UiLanguage::EnUs, rd::WTSActive), "Active");
    assert_eq!(session_state_text(UiLanguage::EnUs, rd::WTSConnected), "Connected");
    assert_eq!(session_state_text(UiLanguage::EnUs, rd::WTSDisconnected), "Disconnected");
    assert_eq!(session_state_text(UiLanguage::EnUs, rd::WTSIdle), "Idle");
    assert_eq!(session_state_text(UiLanguage::EnUs, rd::WTSListen), "Listening");
    assert_eq!(session_state_text(UiLanguage::EnUs, rd::WTSInit), "Init");
    assert_eq!(netcalc::adapter_state_text(UiLanguage::EnUs, ndis::IfOperStatusDown), "Disconnected");
}
