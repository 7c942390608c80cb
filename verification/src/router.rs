//! The event router: what each native message means for the tray.
//!
//! The window procedure of the hidden message window decides, for every
//! message, which of a handful of things happens: an action is invoked, the
//! popup is shown, the icon is recreated, the loop ends, or nothing. Those
//! decisions are pure functions of the tray data and the message words, and
//! they are written and proved here; the host performs whatever
//! [`TrayAction`] comes back.
//!
//! Item identity in a menu is positional: a selection message carries the
//! item's position, and [`command_action`] maps it back to the action token
//! of the button at that same position — and to nothing for a label, a
//! separator, or an out-of-range position.

use vstd::prelude::*;

use crate::consts::{NIN_SELECT, WM_COMMAND, WM_CONTEXTMENU, WM_CREATE, WM_DESTROY,
    WM_TRAY_CALLBACK};
use crate::menu::{ActionId, MenuItem};
use crate::tray::Tray;
use crate::util::{get_x, get_y, hiword, loword, signed16};

verus! {

/// What the host must do in response to one routed message.
#[derive(Clone, Copy, PartialEq, Eq, Structural, Debug)]
pub enum TrayAction {
    /// Register for the shell's restart broadcast (on window creation).
    RegisterRestartHandler,
    /// Invoke the click action with this token.
    InvokeClick(ActionId),
    /// Run the popup-menu sub-protocol at these screen coordinates.
    ShowMenu { x: i32, y: i32 },
    /// Invoke the menu action with this token.
    InvokeMenuAction(ActionId),
    /// Leave the event loop.
    Quit,
    /// The shell restarted and dropped the icon: re-install it from the
    /// unchanged tray data.
    RecreateIcon,
    /// Nothing to do; hand the message to the default procedure.
    Nothing,
}

/// The action token a selection at `index` resolves to: the button at that
/// position, if the tray has a menu and that position holds a button.
pub open spec fn spec_command_action(menu: Option<Seq<MenuItem>>, index: int) -> Option<ActionId> {
    match menu {
        Some(m) => if 0 <= index < m.len() {
            m[index].spec_action()
        } else {
            None
        },
        None => None,
    }
}

/// The routing table: what one message, with its packed parameters, means
/// for a tray. `restart_msg` is the number the shell's restart broadcast
/// was registered under — 0 while unregistered, and no message is treated
/// as the broadcast then.
pub open spec fn spec_route(
    tray: Tray,
    msg: u32,
    wparam: usize,
    lparam: usize,
    restart_msg: u32,
) -> TrayAction {
    if msg == WM_CREATE {
        TrayAction::RegisterRestartHandler
    } else if msg == WM_TRAY_CALLBACK {
        let event = lparam as int % 0x10000;
        if event == NIN_SELECT {
            match tray.spec_click() {
                Some(a) => TrayAction::InvokeClick(a),
                None => TrayAction::Nothing,
            }
        } else if event == WM_CONTEXTMENU {
            TrayAction::ShowMenu {
                x: signed16(wparam as int % 0x10000) as i32,
                y: signed16((wparam as int % 0x100000000) / 0x10000) as i32,
            }
        } else {
            TrayAction::Nothing
        }
    } else if msg == WM_COMMAND {
        if (wparam as int % 0x100000000) / 0x10000 == 0 {
            match spec_command_action(tray.spec_menu(), wparam as int % 0x10000) {
                Some(a) => TrayAction::InvokeMenuAction(a),
                None => TrayAction::Nothing,
            }
        } else {
            TrayAction::Nothing
        }
    } else if msg == WM_DESTROY {
        TrayAction::Quit
    } else if msg == restart_msg && restart_msg != 0 {
        TrayAction::RecreateIcon
    } else {
        TrayAction::Nothing
    }
}

/// Resolve a selection position to the token of the button standing there.
///
/// Returns the action of the button at `index`; nothing when the tray has
/// no menu, the position is out of range, or the item there is a label or
/// a separator — those never fire.
pub fn command_action(tray: &Tray, index: usize) -> (r: Option<ActionId>)
    ensures
        r == spec_command_action(tray.spec_menu(), index as int),
{
    match tray.menu_items() {
        Some(m) => {
            if index < m.len() {
                match &m[index] {
                    MenuItem::Button { action, .. } => Some(*action),
                    _ => None,
                }
            } else {
                None
            }
        },
        None => None,
    }
}

/// Route one message: the verified window procedure.
pub fn route_message(tray: &Tray, msg: u32, wparam: usize, lparam: usize, restart_msg: u32) -> (a:
    TrayAction)
    ensures
        a == spec_route(*tray, msg, wparam, lparam, restart_msg),
        a is Quit <==> msg == WM_DESTROY,
{
    if msg == WM_CREATE {
        TrayAction::RegisterRestartHandler
    } else if msg == WM_TRAY_CALLBACK {
        let event = loword(lparam);
        if event == NIN_SELECT {
            match tray.activate() {
                Some(a) => TrayAction::InvokeClick(a),
                None => TrayAction::Nothing,
            }
        } else if event == WM_CONTEXTMENU {
            TrayAction::ShowMenu { x: get_x(wparam), y: get_y(wparam) }
        } else {
            TrayAction::Nothing
        }
    } else if msg == WM_COMMAND {
        if hiword(wparam) == 0 {
            let index = loword(wparam) as usize;
            match command_action(tray, index) {
                Some(a) => TrayAction::InvokeMenuAction(a),
                None => TrayAction::Nothing,
            }
        } else {
            TrayAction::Nothing
        }
    } else if msg == WM_DESTROY {
        TrayAction::Quit
    } else if msg == restart_msg && restart_msg != 0 {
        TrayAction::RecreateIcon
    } else {
        TrayAction::Nothing
    }
}

/// A selection at position `i` of an `N`-item menu invokes exactly the
/// action of the Button at position `i` when that position holds a button,
/// and invokes no action otherwise: labels and separators never fire.
pub proof fn lemma_selection_dispatch(tray: Tray, i: usize, restart_msg: u32)
    requires
        tray.spec_menu() matches Some(m) && i < m.len(),
        i < 0x10000,
    ensures
        match tray.spec_menu().unwrap()[i as int].spec_action() {
            Some(a) => spec_route(tray, WM_COMMAND, i as usize, 0, restart_msg)
                == TrayAction::InvokeMenuAction(a),
            None => spec_route(tray, WM_COMMAND, i as usize, 0, restart_msg)
                == TrayAction::Nothing,
        },
{
}

/// One event the blocking loop pulls from the platform: a message to
/// dispatch, or the quit signal that `exit` (or window destruction) posted.
#[derive(Clone, Copy, PartialEq, Eq, Structural, Debug)]
pub enum LoopEvent {
    Message { msg: u32, wparam: usize, lparam: usize },
    Quit,
}

/// The blocking loop, over the events the platform hands it: every message
/// before the first quit signal is routed, in order, and the loop ends at
/// that signal — so a posted `exit` always terminates the loop, and an
/// event stream without one is dispatched in full.
pub fn run_loop_model(tray: &Tray, events: &Vec<LoopEvent>, restart_msg: u32) -> (r: (
    Vec<TrayAction>,
    bool,
))
    ensures
        r.0@.len() <= events@.len(),
        forall|j: int|
            0 <= j < r.0@.len() ==> (#[trigger] events@[j] matches LoopEvent::Message {
                msg,
                wparam,
                lparam,
            } && r.0@[j] == spec_route(*tray, msg, wparam, lparam, restart_msg)),
        r.1 ==> r.0@.len() < events@.len() && events@[r.0@.len() as int] is Quit,
        !r.1 ==> r.0@.len() == events@.len(),
        r.1 <==> exists|i: int| 0 <= i < events@.len() && events@[i] is Quit,
{
    let mut actions: Vec<TrayAction> = Vec::new();
    let mut quit = false;
    let mut i: usize = 0;
    while i < events.len() && !quit
        invariant
            i <= events@.len(),
            actions@.len() == i,
            quit ==> i < events@.len() && events@[i as int] is Quit,
            forall|j: int|
                0 <= j < i ==> (#[trigger] events@[j] matches LoopEvent::Message {
                    msg,
                    wparam,
                    lparam,
                } && actions@[j] == spec_route(*tray, msg, wparam, lparam, restart_msg)),
        decreases events@.len() - i + (if quit { 0int } else { 1 }),
    {
        match &events[i] {
            LoopEvent::Message { msg, wparam, lparam } => {
                actions.push(route_message(tray, *msg, *wparam, *lparam, restart_msg));
                i = i + 1;
            },
            LoopEvent::Quit => {
                quit = true;
            },
        }
    }
    (actions, quit)
}

} // verus!
