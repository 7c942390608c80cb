//! The notify-icon descriptor.
//!
//! Installing (and, after a shell restart, re-installing) the icon sends
//! the shell one descriptor: the tray's 128-bit identifier under the
//! use-GUID flag, the tooltip text, the callback message number, and the
//! version-4 behaviour request. [`notify_icon_data`] builds it from the
//! tray alone, so the recreation path — which re-runs the same builder on
//! the unchanged tray — provably re-installs the identical icon.

use vstd::prelude::*;

use crate::consts::{NIF_GUID, NIF_ICON, NIF_MESSAGE, NIF_SHOWTIP, NIF_TIP, NIN_SELECT,
    NOTIFYICON_VERSION_4, WM_TRAY_CALLBACK};
use crate::router::{spec_route, TrayAction};
use crate::string::{utf16, NativeString};
use crate::tray::Tray;

verus! {

/// The size, in units, of the fixed tooltip field of the native descriptor.
pub const TIP_UNITS: usize = 128;

/// The descriptor handed to the shell's notify-icon calls: the fields this
/// library sets.
pub struct NotifyIconData {
    /// The tray's stable identifier, sent under the use-GUID flag.
    pub guid: u128,
    /// The message number tray events come back under.
    pub callback_message: u32,
    /// Which descriptor fields are valid: GUID, tooltip (shown), icon and
    /// callback message.
    pub flags: u32,
    /// The tooltip text: the title's UTF-16 units, NUL-terminated, padded
    /// with NULs to the fixed field size.
    pub tip: Vec<u16>,
    /// The protocol version negotiated after adding.
    pub version: u32,
}

/// What the descriptor built for a tray must hold.
pub open spec fn notify_data_matches(t: Tray, d: NotifyIconData) -> bool {
    &&& d.guid == t.spec_guid()
    &&& d.callback_message == WM_TRAY_CALLBACK
    &&& d.flags == NIF_GUID | NIF_SHOWTIP | NIF_TIP | NIF_ICON | NIF_MESSAGE
    &&& d.version == NOTIFYICON_VERSION_4
    &&& d.tip.len() == TIP_UNITS
    &&& utf16(t.spec_title()).len() + 1 <= TIP_UNITS
    &&& d.tip@.take(utf16(t.spec_title()).len() + 1int) == utf16(t.spec_title()).push(0u16)
    &&& forall|i: int| utf16(t.spec_title()).len() + 1 <= i < TIP_UNITS ==> d.tip@[i] == 0u16
}

/// Whether the tray's title fits the fixed tooltip field; the descriptor
/// builder demands it, so check before building.
pub fn tip_fits(tray: &Tray) -> (b: bool)
    requires
        tray.wf(),
    ensures
        b == (utf16(tray.spec_title()).len() + 1 <= TIP_UNITS),
{
    let title = tray.title();
    proof {
        crate::string::lemma_utf16_len(title@);
    }
    let encoded = NativeString::new(title.as_str());
    encoded.len() <= TIP_UNITS as u32
}

/// Build the shell descriptor for this tray. Pure in the tray: the
/// recreation path calls it again on the unchanged data and gets the same
/// descriptor.
pub fn notify_icon_data(tray: &Tray) -> (d: NotifyIconData)
    requires
        tray.wf(),
        utf16(tray.spec_title()).len() + 1 <= TIP_UNITS,
    ensures
        notify_data_matches(*tray, d),
{
    let title = tray.title();
    proof {
        crate::string::lemma_utf16_len(title@);
    }
    let encoded = NativeString::new(title.as_str());
    let tip = encoded.to_padded(TIP_UNITS);
    NotifyIconData {
        guid: tray.guid(),
        callback_message: WM_TRAY_CALLBACK,
        flags: NIF_GUID | NIF_SHOWTIP | NIF_TIP | NIF_ICON | NIF_MESSAGE,
        tip,
        version: NOTIFYICON_VERSION_4,
    }
}

/// Icon recreation re-installs the identical tray. Any two descriptors
/// built from the same tray — the original installation's and the one the
/// restart broadcast triggers — agree on every field: same identifier,
/// same tooltip, same flags, same version. And because the tray data is
/// unchanged, a subsequent click still routes to the original click
/// action.
pub proof fn lemma_recreation_identical(
    t: Tray,
    d1: NotifyIconData,
    d2: NotifyIconData,
    wparam: usize,
    restart_msg: u32,
)
    requires
        notify_data_matches(t, d1),
        notify_data_matches(t, d2),
    ensures
        d1.guid == d2.guid,
        d1.callback_message == d2.callback_message,
        d1.flags == d2.flags,
        d1.version == d2.version,
        d1.tip@ == d2.tip@,
        t.spec_click() matches Some(a) ==> spec_route(
            t,
            WM_TRAY_CALLBACK,
            wparam,
            NIN_SELECT as usize,
            restart_msg,
        ) == TrayAction::InvokeClick(a),
{
    let n = utf16(t.spec_title()).len() as int;
    assert forall|i: int| 0 <= i < TIP_UNITS implies d1.tip@[i] == d2.tip@[i] by {
        if i < n + 1 {
            assert(d1.tip@[i] == d1.tip@.take(n + 1)[i]);
            assert(d2.tip@[i] == d2.tip@.take(n + 1)[i]);
        }
    }
    assert(d1.tip@ =~= d2.tip@);
    assert(NIN_SELECT as usize as int % 0x10000 == NIN_SELECT);
}

} // verus!
