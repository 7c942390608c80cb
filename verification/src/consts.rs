//! Native message numbers and descriptor flags.
//!
//! The numeric values the shell protocol fixes: window messages, the
//! notification-icon flags and commands, and the popup-menu descriptor
//! masks. The backends and the routing layer speak in these values; the
//! descriptor builders put them into the fields the native calls read.

use vstd::prelude::*;

verus! {

/// Window creation, the first message a window procedure sees.
pub const WM_CREATE: u32 = 0x0001;

/// Window destruction; the loop posts its quit signal on it.
pub const WM_DESTROY: u32 = 0x0002;

/// A menu selection: the chosen item's identifier rides in the low half of
/// the first parameter.
pub const WM_COMMAND: u32 = 0x0111;

/// A context-menu activation; as a notify-icon event it rides in the low
/// half of the second parameter.
pub const WM_CONTEXTMENU: u32 = 0x007B;

/// The first message number private to an application.
pub const WM_USER: u32 = 0x0400;

/// The callback message this library asks the shell to deliver tray events
/// with: a private number well above `WM_USER`.
pub const WM_TRAY_CALLBACK: u32 = WM_USER + 0x100;

/// Primary activation of the notify icon (a click).
pub const NIN_SELECT: u32 = 0x0400;

/// Notify-icon descriptor flags: a callback message is set.
pub const NIF_MESSAGE: u32 = 0x0001;

/// Notify-icon descriptor flags: an icon handle is set.
pub const NIF_ICON: u32 = 0x0002;

/// Notify-icon descriptor flags: tooltip text is set.
pub const NIF_TIP: u32 = 0x0004;

/// Notify-icon descriptor flags: the 128-bit identifier is set.
pub const NIF_GUID: u32 = 0x0020;

/// Notify-icon descriptor flags: show the standard tooltip.
pub const NIF_SHOWTIP: u32 = 0x0080;

/// Shell command: add a notify icon.
pub const NIM_ADD: u32 = 0x0000;

/// Shell command: modify an existing notify icon.
pub const NIM_MODIFY: u32 = 0x0001;

/// Shell command: negotiate the notify-icon protocol version.
pub const NIM_SETVERSION: u32 = 0x0004;

/// The protocol version this library negotiates.
pub const NOTIFYICON_VERSION_4: u32 = 4;

/// Menu-item descriptor mask: the state field is valid.
pub const MIIM_STATE: u32 = 0x0001;

/// Menu-item descriptor mask: the identifier field is valid.
pub const MIIM_ID: u32 = 0x0002;

/// Menu-item descriptor mask: the type and text fields are valid.
pub const MIIM_TYPE: u32 = 0x0010;

/// Menu-item type: a text entry.
pub const MFT_STRING: u32 = 0x0000;

/// Menu-item type: a separator.
pub const MFT_SEPARATOR: u32 = 0x0800;

/// Menu-item state: disabled and drawn grayed.
pub const MFS_GRAYED: u32 = 0x0003;

/// Popup tracking: align the popup's left edge at the given x.
pub const TPM_LEFTALIGN: u32 = 0x0000;

/// Popup tracking: align the popup's bottom edge at the given y.
pub const TPM_BOTTOMALIGN: u32 = 0x0020;

/// Popup tracking: items are selected with the left button.
pub const TPM_LEFTBUTTON: u32 = 0x0000;

/// Extended window style: the hidden message window never takes focus.
pub const WS_EX_NOACTIVATE: u32 = 0x08000000;

} // verus!
