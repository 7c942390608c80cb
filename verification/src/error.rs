//! Error taxonomy of the backends.
//!
//! Fatal setup errors — everything that can stop `display` before its loop
//! starts — carry the OS-reported error as a [`WinError`]: the numeric code
//! together with the message text the host resolved for it. Failures after
//! the icon is up (popup construction, focus, icon recreation) are carried
//! by [`MenuError`] and reported by logging; they never unwind the loop.

use vstd::prelude::*;

verus! {

/// An OS-reported failure: the native error code and its resolved
/// human-readable message.
///
/// Resolving a code into text is the host environment's affair; this type
/// only carries the pair.
#[derive(Debug, Clone)]
pub struct WinError {
    code: u32,
    message: String,
}

impl WinError {
    /// The native error code.
    pub closed spec fn spec_code(&self) -> u32 {
        self.code
    }

    /// The resolved message text.
    pub closed spec fn spec_message(&self) -> Seq<char> {
        self.message@
    }

    /// Pair a native error code with its resolved message text.
    pub fn new(code: u32, message: String) -> (r: Self)
        ensures
            r.spec_code() == code,
            r.spec_message() == message@,
    {
        WinError { code, message }
    }

    /// The native error code.
    pub fn code(&self) -> (r: u32)
        ensures
            r == self.spec_code(),
    {
        self.code
    }

    /// The resolved message text.
    pub fn message(&self) -> (r: &String)
        ensures
            r@ == self.spec_message(),
    {
        &self.message
    }
}

/// A fatal failure of `display`: setup stopped before the event loop began.
#[derive(Debug)]
pub enum TrayError {
    /// The process module handle could not be resolved.
    NoInstance(WinError),
    /// The hidden window's class could not be registered.
    WndClassRegister(WinError),
    /// The hidden message window could not be created.
    WindowCreate(WinError),
    /// The icon resource could not be loaded.
    IconLoad(WinError),
    /// The shell accepted neither adding nor modifying the notify icon.
    Display,
    /// The shell refused the newer notify-icon protocol version; the
    /// behaviour contract cannot be kept, so setup is aborted.
    Version,
    /// The status-notifier service lost its bus connection.
    Dbus,
}

impl TrayError {
    /// A fixed description of the failure, for diagnostics.
    pub fn describe(&self) -> (r: &'static str)
        ensures
            (*self is NoInstance) ==> r@ == "Failed to get process instance handle."@,
            (*self is WndClassRegister) ==> r@ == "Failed to register tray window class."@,
            (*self is WindowCreate) ==> r@ == "Failed to create tray window."@,
            (*self is IconLoad) ==> r@ == "Failed to load icon for tray."@,
            (*self is Display) ==> r@ == "Failed to display notify icon."@,
            (*self is Version) ==> r@ == "Notify icon API version is not supported by the OS."@,
            (*self is Dbus) ==> r@ == "DBus error"@,
    {
        match self {
            TrayError::NoInstance(_) => "Failed to get process instance handle.",
            TrayError::WndClassRegister(_) => "Failed to register tray window class.",
            TrayError::WindowCreate(_) => "Failed to create tray window.",
            TrayError::IconLoad(_) => "Failed to load icon for tray.",
            TrayError::Display => "Failed to display notify icon.",
            TrayError::Version => "Notify icon API version is not supported by the OS.",
            TrayError::Dbus => "DBus error",
        }
    }

    /// The OS error behind this failure, where one was reported.
    pub fn source_error(&self) -> (r: Option<&WinError>)
        ensures
            match *self {
                TrayError::NoInstance(e) => r matches Some(s) && *s == e,
                TrayError::WndClassRegister(e) => r matches Some(s) && *s == e,
                TrayError::WindowCreate(e) => r matches Some(s) && *s == e,
                TrayError::IconLoad(e) => r matches Some(s) && *s == e,
                _ => r is None,
            },
    {
        match self {
            TrayError::NoInstance(e) => Some(e),
            TrayError::WndClassRegister(e) => Some(e),
            TrayError::WindowCreate(e) => Some(e),
            TrayError::IconLoad(e) => Some(e),
            TrayError::Display => None,
            TrayError::Version => None,
            TrayError::Dbus => None,
        }
    }
}

/// A non-fatal failure of the popup-menu sub-protocol; reported by logging,
/// the event loop keeps running.
#[derive(Debug)]
pub enum MenuError {
    /// The native popup-menu resource could not be created.
    Create(WinError),
    /// An item could not be inserted into the popup.
    AddItem(WinError),
    /// The owning window could not be brought to the foreground, which the
    /// native popup-tracking call needs; the popup attempt is abandoned.
    WindowForground,
    /// The populated popup could not be displayed.
    Display(WinError),
}

impl MenuError {
    /// A fixed description of the failure, for diagnostics.
    pub fn describe(&self) -> (r: &'static str)
        ensures
            (*self is Create) ==> r@ == "Failed to create popup menu."@,
            (*self is AddItem) ==> r@ == "Failed to add menu item."@,
            (*self is WindowForground) ==> r@ == "Failed to bring dummy window to foreground."@,
            (*self is Display) ==> r@ == "Failed to display popup menu."@,
    {
        match self {
            MenuError::Create(_) => "Failed to create popup menu.",
            MenuError::AddItem(_) => "Failed to add menu item.",
            MenuError::WindowForground => "Failed to bring dummy window to foreground.",
            MenuError::Display(_) => "Failed to display popup menu.",
        }
    }
}

} // verus!
