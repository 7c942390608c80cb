//! The status-notifier service: run and shutdown decisions.
//!
//! On the D-Bus backend, `display` hands the tray to a service object and
//! blocks running it; `exit` shuts the service down through a handle
//! retained at start. The decisions — how a run's outcome maps to the
//! caller's result, and what `exit` does when no handle was ever retained —
//! are here; running the bus connection itself is the host's.

use vstd::prelude::*;

use crate::error::TrayError;

verus! {

/// What `display` returns for a service run: success for an orderly
/// shutdown, the bus error otherwise.
pub fn service_result(run_ok: bool) -> (r: Result<(), TrayError>)
    ensures
        run_ok ==> r is Ok,
        !run_ok ==> r == Err::<(), TrayError>(TrayError::Dbus),
{
    if run_ok {
        Ok(())
    } else {
        Err(TrayError::Dbus)
    }
}

/// Whether `exit` shuts the service down: only when a tray is displayed
/// and its handle retained. With no tray running there is nothing to do —
/// `exit` is a safe no-op and reports no error.
pub fn exit_shutdown(handle_present: bool) -> (shutdown: bool)
    ensures
        shutdown == handle_present,
{
    handle_present
}

} // verus!
