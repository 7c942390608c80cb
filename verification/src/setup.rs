//! The tray lifecycle state machine.
//!
//! `display` walks the native setup in fixed order: resolve the process
//! instance, register the window class, create the hidden window, load the
//! icon, install it (add; on failure, modify), negotiate the protocol
//! version, then block in the event loop until a quit signal. Each native
//! call's outcome is an event of this machine; the machine decides what the
//! failure means, which error `display` returns, and which partially
//! acquired resources — the registered class, the window, the loaded icon
//! handle — must be released: on every fatal path, all of them, before any
//! loop is entered.
//!
//! After a shell restart broadcast the icon is re-installed with the same
//! unchanged data; failure there is logged, not fatal, and the machine
//! stays running.

use vstd::prelude::*;

use crate::error::{TrayError, WinError};

verus! {

/// Where setup stands.
#[derive(Clone, Copy, PartialEq, Eq, Structural, Debug)]
pub enum SetupPhase {
    /// Nothing acquired yet.
    Uninitialized,
    /// The process instance handle is known.
    InstanceResolved,
    /// The hidden window's class is registered.
    ClassRegistered,
    /// The hidden message window exists.
    WindowCreated,
    /// The icon resource is loaded.
    IconLoaded,
    /// The shell accepted the add; the version negotiation is owed.
    VersionPending,
    /// The add failed (a stale icon may linger from a crash); the modify
    /// fallback is owed.
    FallbackPending,
    /// The icon stands in the shell, version negotiated where owed.
    IconInstalled,
    /// The blocking event loop is running.
    Running,
    /// The loop ended on a quit signal: orderly shutdown.
    Terminated,
    /// A fatal setup failure; `display` returns the error, the loop is
    /// never entered.
    Failed,
}

/// What one step tells the host: the error to return, if the step was
/// fatal, and which acquired resources to release now.
pub struct StepOutcome {
    /// `Err` aborts setup with this error.
    pub result: Result<(), TrayError>,
    /// Unregister the window class now.
    pub release_class: bool,
    /// Destroy the hidden window now.
    pub release_window: bool,
    /// Destroy the loaded icon handle now. (The shell keeps its own copy,
    /// so the handle is released on success as well.)
    pub release_icon: bool,
}

impl StepOutcome {
    /// A step that directs no release.
    fn keep(result: Result<(), TrayError>) -> (o: StepOutcome)
        ensures
            o.result == result,
            !o.release_class && !o.release_window && !o.release_icon,
    {
        StepOutcome { result, release_class: false, release_window: false, release_icon: false }
    }
}

/// After the add attempt: which call is owed next.
#[derive(Clone, Copy, PartialEq, Eq, Structural, Debug)]
pub enum InstallNext {
    /// The add succeeded: negotiate the protocol version.
    NegotiateVersion,
    /// The add failed: try modifying an icon left over from a crash.
    TryModify,
}

/// The decision of one icon-installation pass: load, add, fall back to
/// modify, negotiate.
pub open spec fn spec_install_result(
    load_ok: bool,
    load_error: WinError,
    add_ok: bool,
    modify_ok: bool,
    version_ok: bool,
) -> Result<(), TrayError> {
    if !load_ok {
        Err(TrayError::IconLoad(load_error))
    } else if add_ok {
        if version_ok {
            Ok(())
        } else {
            Err(TrayError::Version)
        }
    } else if modify_ok {
        Ok(())
    } else {
        Err(TrayError::Display)
    }
}

/// The decision of one icon-installation pass, as an executable step.
pub fn install_result(
    load_ok: bool,
    load_error: WinError,
    add_ok: bool,
    modify_ok: bool,
    version_ok: bool,
) -> (r: Result<(), TrayError>)
    ensures
        r == spec_install_result(load_ok, load_error, add_ok, modify_ok, version_ok),
{
    if !load_ok {
        Err(TrayError::IconLoad(load_error))
    } else if add_ok {
        if version_ok {
            Ok(())
        } else {
            Err(TrayError::Version)
        }
    } else if modify_ok {
        Ok(())
    } else {
        Err(TrayError::Display)
    }
}

/// The decision of the whole recreation pass after a shell restart: the
/// instance handle is resolved anew, then the icon is re-installed.
pub open spec fn spec_recreate_result(
    instance_ok: bool,
    instance_error: WinError,
    load_ok: bool,
    load_error: WinError,
    add_ok: bool,
    modify_ok: bool,
    version_ok: bool,
) -> Result<(), TrayError> {
    if !instance_ok {
        Err(TrayError::NoInstance(instance_error))
    } else {
        spec_install_result(load_ok, load_error, add_ok, modify_ok, version_ok)
    }
}

/// The decision of the whole recreation pass, as an executable step: what
/// the recreation path reports for the outcomes it met.
pub fn recreate_result(
    instance_ok: bool,
    instance_error: WinError,
    load_ok: bool,
    load_error: WinError,
    add_ok: bool,
    modify_ok: bool,
    version_ok: bool,
) -> (r: Result<(), TrayError>)
    ensures
        r == spec_recreate_result(
            instance_ok,
            instance_error,
            load_ok,
            load_error,
            add_ok,
            modify_ok,
            version_ok,
        ),
{
    if !instance_ok {
        Err(TrayError::NoInstance(instance_error))
    } else {
        install_result(load_ok, load_error, add_ok, modify_ok, version_ok)
    }
}

/// The lifecycle state machine: the phase and which native resources are
/// currently held.
pub struct WinSetup {
    phase: SetupPhase,
    class_live: bool,
    window_live: bool,
    icon_live: bool,
}

impl WinSetup {
    /// Where setup stands.
    pub closed spec fn spec_phase(&self) -> SetupPhase {
        self.phase
    }

    /// The window class is registered and owed a release.
    pub closed spec fn spec_class_live(&self) -> bool {
        self.class_live
    }

    /// The hidden window exists and is owed a release.
    pub closed spec fn spec_window_live(&self) -> bool {
        self.window_live
    }

    /// The loaded icon handle is owed a release.
    pub closed spec fn spec_icon_live(&self) -> bool {
        self.icon_live
    }

    /// Nothing is held: every acquired resource was released.
    pub open spec fn nothing_held(&self) -> bool {
        !self.spec_class_live() && !self.spec_window_live() && !self.spec_icon_live()
    }

    /// Resource bookkeeping agrees with the phase: the class lives from its
    /// registration until failure, the window from its creation until
    /// failure, the icon handle only while installing.
    pub open spec fn inv(&self) -> bool {
        &&& self.spec_class_live() <==> match self.spec_phase() {
            SetupPhase::ClassRegistered
            | SetupPhase::WindowCreated
            | SetupPhase::IconLoaded
            | SetupPhase::VersionPending
            | SetupPhase::FallbackPending
            | SetupPhase::IconInstalled
            | SetupPhase::Running
            | SetupPhase::Terminated => true,
            _ => false,
        }
        &&& self.spec_window_live() <==> match self.spec_phase() {
            SetupPhase::WindowCreated
            | SetupPhase::IconLoaded
            | SetupPhase::VersionPending
            | SetupPhase::FallbackPending
            | SetupPhase::IconInstalled
            | SetupPhase::Running
            | SetupPhase::Terminated => true,
            _ => false,
        }
        &&& self.spec_icon_live() <==> match self.spec_phase() {
            SetupPhase::IconLoaded | SetupPhase::VersionPending | SetupPhase::FallbackPending
                => true,
            _ => false,
        }
    }

    /// A fresh machine: nothing resolved, nothing held.
    pub fn new() -> (r: Self)
        ensures
            r.spec_phase() == SetupPhase::Uninitialized,
            r.inv(),
    {
        WinSetup {
            phase: SetupPhase::Uninitialized,
            class_live: false,
            window_live: false,
            icon_live: false,
        }
    }

    /// The instance-resolution outcome. Failure is fatal before anything
    /// was acquired.
    pub fn on_instance(&mut self, ok: bool, error: WinError) -> (o: StepOutcome)
        requires
            old(self).inv(),
            old(self).spec_phase() == SetupPhase::Uninitialized,
        ensures
            final(self).inv(),
            ok ==> final(self).spec_phase() == SetupPhase::InstanceResolved && o.result is Ok,
            !ok ==> final(self).spec_phase() == SetupPhase::Failed && o.result == Err::<
                (),
                TrayError,
            >(TrayError::NoInstance(error)),
            !o.release_class && !o.release_window && !o.release_icon,
            final(self).nothing_held(),
    {
        if ok {
            self.phase = SetupPhase::InstanceResolved;
            StepOutcome::keep(Ok(()))
        } else {
            self.phase = SetupPhase::Failed;
            StepOutcome::keep(Err(TrayError::NoInstance(error)))
        }
    }

    /// The class-registration outcome. On success the machine holds the
    /// registered class; failure is fatal with nothing yet to release.
    pub fn on_class_registered(&mut self, ok: bool, error: WinError) -> (o: StepOutcome)
        requires
            old(self).inv(),
            old(self).spec_phase() == SetupPhase::InstanceResolved,
        ensures
            final(self).inv(),
            ok ==> final(self).spec_phase() == SetupPhase::ClassRegistered && o.result is Ok
                && final(self).spec_class_live(),
            !ok ==> final(self).spec_phase() == SetupPhase::Failed && o.result == Err::<
                (),
                TrayError,
            >(TrayError::WndClassRegister(error)) && final(self).nothing_held(),
            !o.release_class && !o.release_window && !o.release_icon,
            !final(self).spec_window_live() && !final(self).spec_icon_live(),
    {
        if ok {
            self.phase = SetupPhase::ClassRegistered;
            self.class_live = true;
            StepOutcome::keep(Ok(()))
        } else {
            self.phase = SetupPhase::Failed;
            StepOutcome::keep(Err(TrayError::WndClassRegister(error)))
        }
    }

    /// The window-creation outcome. On success the machine holds the
    /// window; on failure the just-registered class is released before the
    /// error returns.
    pub fn on_window_created(&mut self, ok: bool, error: WinError) -> (o: StepOutcome)
        requires
            old(self).inv(),
            old(self).spec_phase() == SetupPhase::ClassRegistered,
        ensures
            final(self).inv(),
            ok ==> final(self).spec_phase() == SetupPhase::WindowCreated && o.result is Ok
                && final(self).spec_window_live() && !o.release_class && !o.release_window
                && !o.release_icon,
            !ok ==> final(self).spec_phase() == SetupPhase::Failed && o.result == Err::<
                (),
                TrayError,
            >(TrayError::WindowCreate(error)) && o.release_class && !o.release_window
                && !o.release_icon && final(self).nothing_held(),
            !final(self).spec_icon_live(),
    {
        if ok {
            self.phase = SetupPhase::WindowCreated;
            self.window_live = true;
            StepOutcome::keep(Ok(()))
        } else {
            self.phase = SetupPhase::Failed;
            self.class_live = false;
            StepOutcome {
                result: Err(TrayError::WindowCreate(error)),
                release_class: true,
                release_window: false,
                release_icon: false,
            }
        }
    }

    /// The icon-load outcome. On failure the window and the class acquired
    /// before are released: fatal errors leave nothing held.
    pub fn on_icon_loaded(&mut self, ok: bool, error: WinError) -> (o: StepOutcome)
        requires
            old(self).inv(),
            old(self).spec_phase() == SetupPhase::WindowCreated,
        ensures
            final(self).inv(),
            ok ==> final(self).spec_phase() == SetupPhase::IconLoaded && o.result is Ok
                && !o.release_class && !o.release_window && !o.release_icon,
            !ok ==> final(self).spec_phase() == SetupPhase::Failed && o.result == Err::<
                (),
                TrayError,
            >(TrayError::IconLoad(error)) && o.release_class && o.release_window
                && !o.release_icon && final(self).nothing_held(),
    {
        if ok {
            self.phase = SetupPhase::IconLoaded;
            self.icon_live = true;
            StepOutcome::keep(Ok(()))
        } else {
            self.phase = SetupPhase::Failed;
            self.class_live = false;
            self.window_live = false;
            StepOutcome {
                result: Err(TrayError::IconLoad(error)),
                release_class: true,
                release_window: true,
                release_icon: false,
            }
        }
    }

    /// The add attempt's outcome: success owes the version negotiation,
    /// failure owes the modify fallback. Neither is fatal here.
    pub fn on_icon_added(&mut self, ok: bool) -> (next: InstallNext)
        requires
            old(self).inv(),
            old(self).spec_phase() == SetupPhase::IconLoaded,
        ensures
            final(self).inv(),
            ok ==> final(self).spec_phase() == SetupPhase::VersionPending && next
                == InstallNext::NegotiateVersion,
            !ok ==> final(self).spec_phase() == SetupPhase::FallbackPending && next
                == InstallNext::TryModify,
            final(self).spec_class_live() && final(self).spec_window_live()
                && final(self).spec_icon_live(),
    {
        if ok {
            self.phase = SetupPhase::VersionPending;
            InstallNext::NegotiateVersion
        } else {
            self.phase = SetupPhase::FallbackPending;
            InstallNext::TryModify
        }
    }

    /// The modify fallback's outcome. Success installs the icon; failure
    /// is the fatal `Display` error, releasing the window and the class.
    /// The loaded icon handle is released either way — the shell keeps its
    /// own copy.
    pub fn on_icon_modified(&mut self, ok: bool) -> (o: StepOutcome)
        requires
            old(self).inv(),
            old(self).spec_phase() == SetupPhase::FallbackPending,
        ensures
            final(self).inv(),
            o.release_icon,
            !final(self).spec_icon_live(),
            ok ==> final(self).spec_phase() == SetupPhase::IconInstalled && o.result is Ok
                && !o.release_class && !o.release_window && final(self).spec_window_live()
                && final(self).spec_class_live(),
            !ok ==> final(self).spec_phase() == SetupPhase::Failed && o.result == Err::<
                (),
                TrayError,
            >(TrayError::Display) && o.release_class && o.release_window
                && final(self).nothing_held(),
    {
        self.icon_live = false;
        if ok {
            self.phase = SetupPhase::IconInstalled;
            StepOutcome {
                result: Ok(()),
                release_class: false,
                release_window: false,
                release_icon: true,
            }
        } else {
            self.phase = SetupPhase::Failed;
            self.class_live = false;
            self.window_live = false;
            StepOutcome {
                result: Err(TrayError::Display),
                release_class: true,
                release_window: true,
                release_icon: true,
            }
        }
    }

    /// The version negotiation's outcome. Failure is fatal even though the
    /// icon was added — the version-4 behaviour contract cannot be kept —
    /// and releases the window and the class. The loaded icon handle is
    /// released either way.
    pub fn on_version_set(&mut self, ok: bool) -> (o: StepOutcome)
        requires
            old(self).inv(),
            old(self).spec_phase() == SetupPhase::VersionPending,
        ensures
            final(self).inv(),
            o.release_icon,
            !final(self).spec_icon_live(),
            ok ==> final(self).spec_phase() == SetupPhase::IconInstalled && o.result is Ok
                && !o.release_class && !o.release_window && final(self).spec_window_live()
                && final(self).spec_class_live(),
            !ok ==> final(self).spec_phase() == SetupPhase::Failed && o.result == Err::<
                (),
                TrayError,
            >(TrayError::Version) && o.release_class && o.release_window
                && final(self).nothing_held(),
    {
        self.icon_live = false;
        if ok {
            self.phase = SetupPhase::IconInstalled;
            StepOutcome {
                result: Ok(()),
                release_class: false,
                release_window: false,
                release_icon: true,
            }
        } else {
            self.phase = SetupPhase::Failed;
            self.class_live = false;
            self.window_live = false;
            StepOutcome {
                result: Err(TrayError::Version),
                release_class: true,
                release_window: true,
                release_icon: true,
            }
        }
    }

    /// Enter the blocking event loop. Only a fully installed icon gets
    /// here: a failed setup can never reach the loop.
    pub fn enter_loop(&mut self)
        requires
            old(self).inv(),
            old(self).spec_phase() == SetupPhase::IconInstalled,
        ensures
            final(self).inv(),
            final(self).spec_phase() == SetupPhase::Running,
    {
        self.phase = SetupPhase::Running;
    }

    /// The loop observed its quit signal: orderly shutdown, `display`
    /// returns success.
    pub fn on_quit(&mut self)
        requires
            old(self).inv(),
            old(self).spec_phase() == SetupPhase::Running,
        ensures
            final(self).inv(),
            final(self).spec_phase() == SetupPhase::Terminated,
    {
        self.phase = SetupPhase::Terminated;
    }

    /// One whole re-installation after the shell's restart broadcast, with
    /// the unchanged tray data: resolve the instance anew, load, add, fall
    /// back to modify, negotiate. Failure is reported for logging but is
    /// not fatal — the machine stays running either way, with no icon
    /// handle held.
    pub fn recreate(
        &mut self,
        instance_ok: bool,
        instance_error: WinError,
        load_ok: bool,
        load_error: WinError,
        add_ok: bool,
        modify_ok: bool,
        version_ok: bool,
    ) -> (r: Result<(), TrayError>)
        requires
            old(self).inv(),
            old(self).spec_phase() == SetupPhase::Running,
        ensures
            final(self).inv(),
            final(self).spec_phase() == SetupPhase::Running,
            !final(self).spec_icon_live(),
            r == spec_recreate_result(
                instance_ok,
                instance_error,
                load_ok,
                load_error,
                add_ok,
                modify_ok,
                version_ok,
            ),
    {
        recreate_result(
            instance_ok,
            instance_error,
            load_ok,
            load_error,
            add_ok,
            modify_ok,
            version_ok,
        )
    }
}

} // verus!
