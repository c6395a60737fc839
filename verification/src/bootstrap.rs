//! The startup decision: validation strictly precedes the listener. From an
//! environment snapshot the planner either orders an abort, carrying the full
//! aggregated diagnostic and the distinguished exit status, or orders the
//! listener up, with the fixed bind address and the uniform payload ceiling.
//! The listener step is unreachable while any required setting is missing.

use vstd::prelude::*;
use crate::config::EnvSnapshot;
use crate::report::aggregate_of;
use crate::validate::{spec_violations, validate_client_configuration, CONFIG_FAILURE_EXIT_CODE};
use crate::{server_host, spec_server_host, MAX_PAYLOAD_BYTES, SERVER_PORT};

verus! {

/// What the process does right after the configuration gate.
pub enum BootstrapAction {
    /// Write the aggregated diagnostic to standard output and terminate with
    /// the given status; the listener is never bound.
    AbortWithDiagnostic { diagnostic: String, exit_code: i32 },
    /// Bind one listener to the given host and port, with the uniform
    /// request-body ceiling, and serve until the process is terminated.
    Serve { host: String, port: u16, payload_limit: usize },
}

/// Runs the configuration gate and decides how the process proceeds: the
/// listener is ordered up exactly when no required setting is missing;
/// otherwise the whole diagnostic and the distinguished configuration-failure
/// status are handed out, and no bind step follows.
pub fn plan_bootstrap(env: &EnvSnapshot) -> (action: BootstrapAction)
    ensures
        spec_violations(env@).len() == 0 ==> (action matches BootstrapAction::Serve {
            host,
            port,
            payload_limit,
        } && host@ == spec_server_host() && port == SERVER_PORT
            && payload_limit == MAX_PAYLOAD_BYTES),
        spec_violations(env@).len() != 0 ==> (action matches BootstrapAction::AbortWithDiagnostic {
            diagnostic,
            exit_code,
        } && diagnostic@ == aggregate_of(spec_violations(env@))
            && exit_code == CONFIG_FAILURE_EXIT_CODE),
{
    let report = validate_client_configuration(env);
    if report.has_violations() {
        BootstrapAction::AbortWithDiagnostic {
            diagnostic: report.aggregate(),
            exit_code: CONFIG_FAILURE_EXIT_CODE,
        }
    } else {
        BootstrapAction::Serve {
            host: server_host().to_owned(),
            port: SERVER_PORT,
            payload_limit: MAX_PAYLOAD_BYTES,
        }
    }
}

} // verus!
