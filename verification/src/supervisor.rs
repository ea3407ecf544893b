//! Trusted boundary to the OS service supervisor.
//!
//! Each function here issues one command against the supervisor through the
//! service-manager crate's launchd binding and reports the supervisor's
//! refusal, if any, as a plain error message. Whether a command succeeds
//! depends on the machine's state, so nothing more is stated of the
//! outcomes; the lifecycle operations take each outcome as it comes.

use vstd::prelude::*;

verus! {

#[verifier::external_type_specification]
#[verifier::external_body]
pub struct ExLaunchdServiceManager(service_manager::LaunchdServiceManager);

#[verifier::external_type_specification]
#[verifier::external_body]
pub struct ExServiceLabel(service_manager::ServiceLabel);

/// Relies on the launchd impl of service_manager::ServiceManager::install:
/// registers the labelled program with the supervisor, under a keep-alive
/// restart policy and, where given, the run-as user; the supervisor's
/// refusal comes back as an error.
#[verifier::external_body]
pub(crate) fn supervisor_install(
    mgr: &service_manager::LaunchdServiceManager,
    label: &service_manager::ServiceLabel,
    program: String,
    arg: String,
    user: Option<String>,
) -> Result<(), String> {
    let ctx = service_manager::ServiceInstallCtx {
        label: label.clone(),
        program: program.into(),
        args: vec![arg.into()],
        contents: None,
        username: user,
        working_directory: None,
        environment: None,
        autostart: true,
        restart_policy: service_manager::RestartPolicy::Always { delay_secs: None },
    };
    match service_manager::ServiceManager::install(mgr, ctx) {
        Ok(()) => Ok(()),
        Err(e) => Err(e.to_string()),
    }
}

/// Relies on the launchd impl of service_manager::ServiceManager::uninstall:
/// removes the labelled registration; the supervisor's refusal comes back
/// as an error.
#[verifier::external_body]
pub(crate) fn supervisor_uninstall(
    mgr: &service_manager::LaunchdServiceManager,
    label: &service_manager::ServiceLabel,
) -> Result<(), String> {
    let ctx = service_manager::ServiceUninstallCtx { label: label.clone() };
    match service_manager::ServiceManager::uninstall(mgr, ctx) {
        Ok(()) => Ok(()),
        Err(e) => Err(e.to_string()),
    }
}

/// Relies on the launchd impl of service_manager::ServiceManager::start:
/// starts the labelled registration; the supervisor's refusal, among it
/// that the label is not installed, comes back as an error.
#[verifier::external_body]
pub(crate) fn supervisor_start(
    mgr: &service_manager::LaunchdServiceManager,
    label: &service_manager::ServiceLabel,
) -> Result<(), String> {
    let ctx = service_manager::ServiceStartCtx { label: label.clone() };
    match service_manager::ServiceManager::start(mgr, ctx) {
        Ok(()) => Ok(()),
        Err(e) => Err(e.to_string()),
    }
}

/// Relies on the launchd impl of service_manager::ServiceManager::stop:
/// stops the labelled registration; the supervisor's refusal comes back as
/// an error.
#[verifier::external_body]
pub(crate) fn supervisor_stop(
    mgr: &service_manager::LaunchdServiceManager,
    label: &service_manager::ServiceLabel,
) -> Result<(), String> {
    let ctx = service_manager::ServiceStopCtx { label: label.clone() };
    match service_manager::ServiceManager::stop(mgr, ctx) {
        Ok(()) => Ok(()),
        Err(e) => Err(e.to_string()),
    }
}

} // verus!
