//! The popup-menu sub-protocol.
//!
//! A context-menu activation builds a native popup fresh every time: one
//! native item per menu item, in order, each button tagged with its position
//! so a selection can be routed back (see the router), labels grayed,
//! separators as separators. [`popup_items`] builds those descriptors;
//! [`popup_protocol`] is the sub-protocol itself — which failure aborts the
//! attempt with which error, and that the popup resource is released
//! unconditionally, whatever the outcome.
//!
//! Character counts in the descriptors exclude the trailing NUL; the text
//! buffers include it.

use vstd::prelude::*;

use crate::consts::{MFS_GRAYED, MFT_SEPARATOR, MFT_STRING, MIIM_ID, MIIM_STATE, MIIM_TYPE};
use crate::error::{MenuError, WinError};
use crate::menu::MenuItem;
use crate::string::{utf16, NativeString};
use crate::tray::Tray;

verus! {

/// One native menu-item descriptor: the fields the insertion call reads.
pub struct MenuItemDesc {
    /// Which descriptor fields are valid.
    pub mask: u32,
    /// Text entry or separator.
    pub item_type: u32,
    /// Grayed for labels, default for the rest.
    pub state: u32,
    /// The item's position, for buttons; a selection hands it back.
    pub id: u32,
    /// The label text, NUL-terminated; separators have none.
    pub text: Option<NativeString>,
    /// The label's unit count, excluding the terminator.
    pub char_count: u32,
}

/// How the descriptor at position `i` must render the item there.
pub open spec fn desc_matches(d: MenuItemDesc, item: MenuItem, i: int) -> bool {
    match item {
        MenuItem::Button { label, action } => {
            &&& d.mask == MIIM_TYPE | MIIM_ID
            &&& d.item_type == MFT_STRING
            &&& d.state == 0
            &&& d.id == i
            &&& (d.text matches Some(t) && t@ == utf16(label@).push(0u16))
            &&& d.char_count == utf16(label@).len()
        },
        MenuItem::Label { label } => {
            &&& d.mask == MIIM_TYPE | MIIM_STATE
            &&& d.item_type == MFT_STRING
            &&& d.state == MFS_GRAYED
            &&& d.id == 0
            &&& (d.text matches Some(t) && t@ == utf16(label@).push(0u16))
            &&& d.char_count == utf16(label@).len()
        },
        MenuItem::Separator => {
            &&& d.mask == MIIM_TYPE
            &&& d.item_type == MFT_SEPARATOR
            &&& d.state == 0
            &&& d.id == 0
            &&& d.text is None
            &&& d.char_count == 0
        },
    }
}

/// Build the native descriptors for the tray's menu, fresh for one popup
/// display: one per item, in order. A tray without a menu yields nothing —
/// the popup request is then a silent no-op.
pub fn popup_items(tray: &Tray) -> (r: Option<Vec<MenuItemDesc>>)
    requires
        tray.wf(),
    ensures
        match tray.spec_menu() {
            Some(m) => (r matches Some(v) && v@.len() == m.len() && forall|i: int|
                0 <= i < m.len() ==> #[trigger] desc_matches(v@[i], m[i], i)),
            None => r is None,
        },
{
    match tray.menu_items() {
        Some(items) => {
            let ghost m = tray.spec_menu().unwrap();
            let mut v: Vec<MenuItemDesc> = Vec::new();
            for i in 0..items.len()
                invariant
                    items@ == m,
                    tray.wf(),
                    tray.spec_menu() == Some(m),
                    v@.len() == i,
                    forall|j: int| 0 <= j < i ==> #[trigger] desc_matches(v@[j], m[j], j),
            {
                let desc = match &items[i] {
                    MenuItem::Button { label, .. } => {
                        proof {
                            assert(m[i as int].wf());
                            crate::string::lemma_utf16_len(label@);
                        }
                        let text = NativeString::new(label.as_str());
                        let char_count = text.len() - 1;
                        MenuItemDesc {
                            mask: MIIM_TYPE | MIIM_ID,
                            item_type: MFT_STRING,
                            state: 0,
                            id: i as u32,
                            text: Some(text),
                            char_count,
                        }
                    },
                    MenuItem::Label { label } => {
                        proof {
                            assert(m[i as int].wf());
                            crate::string::lemma_utf16_len(label@);
                        }
                        let text = NativeString::new(label.as_str());
                        let char_count = text.len() - 1;
                        MenuItemDesc {
                            mask: MIIM_TYPE | MIIM_STATE,
                            item_type: MFT_STRING,
                            state: MFS_GRAYED,
                            id: 0,
                            text: Some(text),
                            char_count,
                        }
                    },
                    MenuItem::Separator => MenuItemDesc {
                        mask: MIIM_TYPE,
                        item_type: MFT_SEPARATOR,
                        state: 0,
                        id: 0,
                        text: None,
                        char_count: 0,
                    },
                };
                v.push(desc);
            }
            Some(v)
        },
        None => None,
    }
}

/// The native outcomes one popup attempt can meet, in the order the calls
/// are made: creating the popup resource, inserting each item (the first
/// failing position, if any), bringing the window to the foreground, and
/// tracking the popup.
pub struct PopupOutcomes {
    pub create: Result<(), WinError>,
    pub insert_failure: Option<(usize, WinError)>,
    pub foreground_ok: bool,
    pub track: Result<(), WinError>,
}

/// How many popup resources one attempt created and destroyed.
pub struct PopupTrace {
    pub menus_created: u32,
    pub menus_destroyed: u32,
}

/// A trace is balanced when everything created was also destroyed.
pub open spec fn balanced(t: PopupTrace) -> bool {
    t.menus_created == t.menus_destroyed
}

/// The popup sub-protocol for one context-menu activation, over the given
/// native outcomes: a tray without a menu is a silent no-op; otherwise a
/// fresh popup is built, and whichever step fails first decides the error.
/// The popup resource is released unconditionally — every trace comes back
/// balanced, so repeated activations never leak.
pub fn popup_protocol(tray: &Tray, outcomes: PopupOutcomes) -> (r: (
    Result<(), MenuError>,
    PopupTrace,
))
    requires
        match (tray.spec_menu(), outcomes.insert_failure) {
            (Some(m), Some((i, e))) => i < m.len(),
            _ => true,
        },
    ensures
        balanced(r.1),
        r.1.menus_created <= 1,
        tray.spec_menu() is None ==> r.0 is Ok && r.1.menus_created == 0,
        tray.spec_menu() is Some ==> match outcomes.create {
            Err(e) => r.0 == Err::<(), MenuError>(MenuError::Create(e)) && r.1.menus_created == 0,
            Ok(()) => {
                &&& r.1.menus_created == 1
                &&& match outcomes.insert_failure {
                    Some((i, e)) => r.0 == Err::<(), MenuError>(MenuError::AddItem(e)),
                    None => if !outcomes.foreground_ok {
                        r.0 == Err::<(), MenuError>(MenuError::WindowForground)
                    } else {
                        match outcomes.track {
                            Err(e) => r.0 == Err::<(), MenuError>(MenuError::Display(e)),
                            Ok(()) => r.0 is Ok,
                        }
                    },
                }
            },
        },
{
    let no_menu = match tray.menu_items() {
        Some(_) => false,
        None => true,
    };
    if no_menu {
        return (Ok(()), PopupTrace { menus_created: 0, menus_destroyed: 0 });
    }
    match outcomes.create {
        Err(e) => (
            Err(MenuError::Create(e)),
            PopupTrace { menus_created: 0, menus_destroyed: 0 },
        ),
        Ok(()) => {
            let trace = PopupTrace { menus_created: 1, menus_destroyed: 1 };
            match outcomes.insert_failure {
                Some((_, e)) => (Err(MenuError::AddItem(e)), trace),
                None => {
                    if !outcomes.foreground_ok {
                        (Err(MenuError::WindowForground), trace)
                    } else {
                        match outcomes.track {
                            Err(e) => (Err(MenuError::Display(e)), trace),
                            Ok(()) => (Ok(()), trace),
                        }
                    }
                },
            }
        },
    }
}

/// The total resources created and destroyed over a run of popups.
pub open spec fn total_created(ts: Seq<PopupTrace>) -> int
    decreases ts.len(),
{
    if ts.len() == 0 {
        0
    } else {
        total_created(ts.drop_last()) + ts.last().menus_created
    }
}

/// See [`total_created`].
pub open spec fn total_destroyed(ts: Seq<PopupTrace>) -> int
    decreases ts.len(),
{
    if ts.len() == 0 {
        0
    } else {
        total_destroyed(ts.drop_last()) + ts.last().menus_destroyed
    }
}

/// Popup construction is idempotent per display: since every single
/// activation's trace is balanced, any number of repeated activations
/// destroys exactly as many popup resources as it creates — none leak.
pub proof fn lemma_repeated_popups_leak_nothing(ts: Seq<PopupTrace>)
    requires
        forall|i: int| 0 <= i < ts.len() ==> #[trigger] balanced(ts[i]),
    ensures
        total_created(ts) == total_destroyed(ts),
    decreases ts.len(),
{
    if ts.len() > 0 {
        lemma_repeated_popups_leak_nothing(ts.drop_last());
        assert(balanced(ts[ts.len() - 1]));
    }
}

} // verus!
