//! A tray-icon library: one model — title, icon, click action, context menu —
//! presented over per-platform notification-area mechanisms.
//!
//! The data model ([`Tray`], [`MenuItem`]) and every decision the backends
//! make (message routing, setup-failure handling, popup-menu construction,
//! icon recreation after a shell restart) live here as verified functions on
//! plain values. The native calls themselves — window creation, the shell
//! notification calls, the D-Bus service — stand outside, driven by the
//! state machines and descriptor builders of this crate.

pub mod consts;
pub mod decimal;
pub mod error;
pub mod menu;
pub mod notify;
pub mod popup;
pub mod router;
pub mod service;
pub mod setup;
pub mod string;
pub mod tray;
pub mod util;

pub use error::{MenuError, TrayError, WinError};
pub use menu::{ActionId, MenuItem};
pub use string::NativeString;
pub use tray::{IconImage, MenuEntry, Tray};
pub use util::{get_x, get_y, hiword, loword};
