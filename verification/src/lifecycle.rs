//! The service-lifecycle operations and the state machine they observe.
//!
//! The registration itself is owned by the OS service supervisor; this
//! module issues commands against it by label and surfaces each refusal.
//! The state machine of the registration — not installed, installed and
//! stopped, installed and running — is modelled here explicitly, with the
//! transition each operation makes and the error it reports where the
//! supervisor must refuse it.

use vstd::prelude::*;

use crate::supervisor::supervisor_install;
use crate::supervisor::supervisor_start;
use crate::supervisor::supervisor_stop;
use crate::supervisor::supervisor_uninstall;

verus! {

/// The observable state of the daemon's service registration.
#[derive(PartialEq, Eq, Structural, Clone, Copy, Debug)]
pub enum ServiceState {
    NotInstalled,
    Stopped,
    Running,
}

/// Which lifecycle operation a refusal belongs to.
#[derive(PartialEq, Eq, Structural, Clone, Copy, Debug)]
pub enum ErrorKind {
    InstallError,
    UninstallError,
    ServiceControlError,
}

/// A refused lifecycle operation, carrying the supervisor's own message.
#[derive(Clone, Debug)]
pub enum LifecycleError {
    InstallError(String),
    UninstallError(String),
    ServiceControlError(String),
}

impl LifecycleError {
    /// Which operation's refusal this is.
    pub fn kind(&self) -> (k: ErrorKind)
        ensures
            k == ErrorKind::InstallError <==> self is InstallError,
            k == ErrorKind::UninstallError <==> self is UninstallError,
            k == ErrorKind::ServiceControlError <==> self is ServiceControlError,
    {
        match self {
            LifecycleError::InstallError(_) => ErrorKind::InstallError,
            LifecycleError::UninstallError(_) => ErrorKind::UninstallError,
            LifecycleError::ServiceControlError(_) => ErrorKind::ServiceControlError,
        }
    }

    /// The supervisor's message.
    pub fn message(&self) -> (m: &String)
        ensures
            self matches LifecycleError::InstallError(s) ==> m == s,
            self matches LifecycleError::UninstallError(s) ==> m == s,
            self matches LifecycleError::ServiceControlError(s) ==> m == s,
    {
        match self {
            LifecycleError::InstallError(s) => s,
            LifecycleError::UninstallError(s) => s,
            LifecycleError::ServiceControlError(s) => s,
        }
    }
}

/// Install: the one transition out of `NotInstalled`, landing in `Running`
/// through the start that installation issues; refused on an existing
/// registration.
pub open spec fn spec_install_transition(s: ServiceState) -> Result<ServiceState, ErrorKind> {
    if s == ServiceState::NotInstalled {
        Ok(ServiceState::Running)
    } else {
        Err(ErrorKind::InstallError)
    }
}

/// Uninstall: the one transition back to `NotInstalled`, valid from either
/// installed state; refused where nothing is installed.
pub open spec fn spec_uninstall_transition(s: ServiceState) -> Result<ServiceState, ErrorKind> {
    if s == ServiceState::NotInstalled {
        Err(ErrorKind::UninstallError)
    } else {
        Ok(ServiceState::NotInstalled)
    }
}

/// Start: `Stopped` to `Running` within an installed registration; refused
/// where nothing is installed or the service already runs.
pub open spec fn spec_start_transition(s: ServiceState) -> Result<ServiceState, ErrorKind> {
    if s == ServiceState::Stopped {
        Ok(ServiceState::Running)
    } else {
        Err(ErrorKind::ServiceControlError)
    }
}

/// Stop: `Running` to `Stopped` within an installed registration; refused
/// where nothing is installed or the service is already stopped.
pub open spec fn spec_stop_transition(s: ServiceState) -> Result<ServiceState, ErrorKind> {
    if s == ServiceState::Running {
        Ok(ServiceState::Stopped)
    } else {
        Err(ErrorKind::ServiceControlError)
    }
}

/// Restart: stop, then start only where the stop was accepted; a refused
/// stop is surfaced unchanged and the start is never reached.
pub open spec fn spec_restart_transition(s: ServiceState) -> Result<ServiceState, ErrorKind> {
    match spec_stop_transition(s) {
        Ok(s2) => spec_start_transition(s2),
        Err(e) => Err(e),
    }
}

/// The transition `install` makes on a registration in state `s`.
pub fn install_transition(s: ServiceState) -> (r: Result<ServiceState, ErrorKind>)
    ensures
        r == spec_install_transition(s),
{
    if s == ServiceState::NotInstalled {
        Ok(ServiceState::Running)
    } else {
        Err(ErrorKind::InstallError)
    }
}

/// The transition `uninstall` makes on a registration in state `s`.
pub fn uninstall_transition(s: ServiceState) -> (r: Result<ServiceState, ErrorKind>)
    ensures
        r == spec_uninstall_transition(s),
{
    if s == ServiceState::NotInstalled {
        Err(ErrorKind::UninstallError)
    } else {
        Ok(ServiceState::NotInstalled)
    }
}

/// The transition `start` makes on a registration in state `s`.
pub fn start_transition(s: ServiceState) -> (r: Result<ServiceState, ErrorKind>)
    ensures
        r == spec_start_transition(s),
{
    if s == ServiceState::Stopped {
        Ok(ServiceState::Running)
    } else {
        Err(ErrorKind::ServiceControlError)
    }
}

/// The transition `stop` makes on a registration in state `s`.
pub fn stop_transition(s: ServiceState) -> (r: Result<ServiceState, ErrorKind>)
    ensures
        r == spec_stop_transition(s),
{
    if s == ServiceState::Running {
        Ok(ServiceState::Stopped)
    } else {
        Err(ErrorKind::ServiceControlError)
    }
}

/// The transition `restart` makes on a registration in state `s`: the stop
/// transition, then, only where it was accepted, the start transition.
pub fn restart_transition(s: ServiceState) -> (r: Result<ServiceState, ErrorKind>)
    ensures
        r == spec_restart_transition(s),
{
    match stop_transition(s) {
        Ok(s2) => start_transition(s2),
        Err(e) => Err(e),
    }
}

/// Law: where the stop transition is refused, restart surfaces exactly the
/// stop refusal, and no start transition is taken.
pub proof fn lemma_restart_surfaces_stop_error(s: ServiceState)
    requires
        spec_stop_transition(s) is Err,
    ensures
        spec_restart_transition(s) == spec_stop_transition(s),
{
}

/// Register the daemon with the supervisor under the given label — program
/// and the argument that selects monitor mode, run-as user where given, a
/// keep-alive restart policy — and, on acceptance, immediately start it. A
/// refused registration is an `InstallError`; a refused start after an
/// accepted registration is a `ServiceControlError`.
pub fn install_service(
    mgr: &service_manager::LaunchdServiceManager,
    label: &service_manager::ServiceLabel,
    program: String,
    user: Option<String>,
) -> (r: Result<(), LifecycleError>)
    ensures
        r matches Err(e) ==> (e is InstallError || e is ServiceControlError),
{
    let run_arg = "run".to_owned();
    match supervisor_install(mgr, label, program, run_arg, user) {
        Err(msg) => Err(LifecycleError::InstallError(msg)),
        Ok(()) => match supervisor_start(mgr, label) {
            Err(msg) => Err(LifecycleError::ServiceControlError(msg)),
            Ok(()) => Ok(()),
        },
    }
}

/// Remove the daemon's registration. A refusal is an `UninstallError`.
pub fn uninstall_service(
    mgr: &service_manager::LaunchdServiceManager,
    label: &service_manager::ServiceLabel,
) -> (r: Result<(), LifecycleError>)
    ensures
        r matches Err(e) ==> e is UninstallError,
{
    match supervisor_uninstall(mgr, label) {
        Err(msg) => Err(LifecycleError::UninstallError(msg)),
        Ok(()) => Ok(()),
    }
}

/// Start the registered service. A refusal is a `ServiceControlError`
/// carrying the supervisor's message.
pub fn start_service(
    mgr: &service_manager::LaunchdServiceManager,
    label: &service_manager::ServiceLabel,
) -> (r: Result<(), LifecycleError>)
    ensures
        r matches Err(e) ==> e is ServiceControlError,
{
    match supervisor_start(mgr, label) {
        Err(msg) => Err(LifecycleError::ServiceControlError(msg)),
        Ok(()) => Ok(()),
    }
}

/// Stop the registered service. A refusal is a `ServiceControlError`
/// carrying the supervisor's message.
pub fn stop_service(
    mgr: &service_manager::LaunchdServiceManager,
    label: &service_manager::ServiceLabel,
) -> (r: Result<(), LifecycleError>)
    ensures
        r matches Err(e) ==> e is ServiceControlError,
{
    match supervisor_stop(mgr, label) {
        Err(msg) => Err(LifecycleError::ServiceControlError(msg)),
        Ok(()) => Ok(()),
    }
}

/// Stop the registered service, then start it only where the stop was
/// accepted; a refused stop is surfaced as the operation's error and the
/// start is never issued. Either refusal is a `ServiceControlError`.
pub fn restart_service(
    mgr: &service_manager::LaunchdServiceManager,
    label: &service_manager::ServiceLabel,
) -> (r: Result<(), LifecycleError>)
    ensures
        r matches Err(e) ==> e is ServiceControlError,
{
    match supervisor_stop(mgr, label) {
        Err(msg) => Err(LifecycleError::ServiceControlError(msg)),
        Ok(()) => match supervisor_start(mgr, label) {
            Err(msg) => Err(LifecycleError::ServiceControlError(msg)),
            Ok(()) => Ok(()),
        },
    }
}

} // verus!
