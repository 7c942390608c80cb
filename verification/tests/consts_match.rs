//! The library models the native message numbers and descriptor flags as
//! plain constants; these tests hold each one to the platform bindings'
//! own definition.

use tray_icon::consts;
use windows_sys::Win32::UI::Shell as sh;
use windows_sys::Win32::UI::WindowsAndMessaging as wm;

#[test]
fn window_messages_match_the_platform() {
    assert_eq!(consts::WM_CREATE, wm::WM_CREATE);
    assert_eq!(consts::WM_DESTROY, wm::WM_DESTROY);
    assert_eq!(consts::WM_COMMAND, wm::WM_COMMAND);
    assert_eq!(consts::WM_CONTEXTMENU, wm::WM_CONTEXTMENU);
    assert_eq!(consts::WM_USER, wm::WM_USER);
    assert_eq!(consts::WM_TRAY_CALLBACK, wm::WM_USER + 0x100);
    assert_eq!(consts::NIN_SELECT, sh::NIN_SELECT);
}

#[test]
fn notify_icon_values_match_the_platform() {
    assert_eq!(consts::NIF_MESSAGE, sh::NIF_MESSAGE);
    assert_eq!(consts::NIF_ICON, sh::NIF_ICON);
    assert_eq!(consts::NIF_TIP, sh::NIF_TIP);
    assert_eq!(consts::NIF_GUID, sh::NIF_GUID);
    assert_eq!(consts::NIF_SHOWTIP, sh::NIF_SHOWTIP);
    assert_eq!(consts::NIM_ADD, sh::NIM_ADD);
    assert_eq!(consts::NIM_MODIFY, sh::NIM_MODIFY);
    assert_eq!(consts::NIM_SETVERSION, sh::NIM_SETVERSION);
    assert_eq!(consts::NOTIFYICON_VERSION_4, sh::NOTIFYICON_VERSION_4);
}

#[test]
fn menu_descriptor_values_match_the_platform() {
    assert_eq!(consts::MIIM_STATE, wm::MIIM_STATE);
    assert_eq!(consts::MIIM_ID, wm::MIIM_ID);
    assert_eq!(consts::MIIM_TYPE, wm::MIIM_TYPE);
    assert_eq!(consts::MFT_STRING, wm::MFT_STRING);
    assert_eq!(consts::MFT_SEPARATOR, wm::MFT_SEPARATOR);
    assert_eq!(consts::MFS_GRAYED, wm::MFS_GRAYED);
    assert_eq!(consts::TPM_LEFTALIGN, wm::TPM_LEFTALIGN);
    assert_eq!(consts::TPM_BOTTOMALIGN, wm::TPM_BOTTOMALIGN);
    assert_eq!(consts::TPM_LEFTBUTTON, wm::TPM_LEFTBUTTON);
    assert_eq!(consts::WS_EX_NOACTIVATE, wm::WS_EX_NOACTIVATE);
}
