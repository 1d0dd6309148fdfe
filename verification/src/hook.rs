//! The interceptor's decision step: from the failure data and the policy
//! inputs (build mode, environment opt-out) to exactly what one invocation
//! of the hook does — whether the previously active handler runs, what is
//! appended to the log, and what is printed to the terminal.
//!
//! The surrounding plumbing — registering the hook with the runtime,
//! reading the environment, writing the log, printing — performs whatever
//! this step decides; every decision and every rendered character is fixed
//! here, by contract.

use vstd::prelude::*;
use crate::Metadata;
use crate::message::{render_user_message, user_message_text};
use crate::report::{FailureRecord, StackFrame, format_log_record, frames_view, log_record_text};

verus! {

/// The policy inputs of one interceptor invocation.
pub struct HookPolicy {
    /// True when the binary was built in a "debug" configuration.
    pub debug_build: bool,
    /// True when the environment variable requesting verbose native
    /// diagnostics (`RUST_BACKTRACE`) is set, which opts out of all custom
    /// behavior.
    pub verbose_env_set: bool,
}

/// Everything one interceptor invocation decided to do. The caller performs
/// the actions in field order: default handler first, then the log append,
/// then the terminal message.
pub struct HandlerOutcome {
    /// Invoke the previously active ("default") handler, so the native
    /// diagnostic trace stays visible where the policy asks for it.
    pub invoke_default: bool,
    /// The record to append to the log sink, if any.
    pub log_record: Option<String>,
    /// The message to print to the terminal, if any.
    pub user_message: Option<String>,
}

/// Decides and renders everything one failure asks for:
/// - with the environment opt-out set, only the previously active handler
///   runs — no log record, no terminal message;
/// - otherwise a log record is always produced, rendered exactly as
///   [`log_record_text`] says;
/// - in a debug build the previously active handler also runs and the
///   terminal message is withheld; in a release build the terminal message
///   is produced, rendered exactly as [`user_message_text`] says.
pub fn handle_failure(
    record: &FailureRecord,
    frames: &Vec<StackFrame>,
    policy: &HookPolicy,
    log_path: &str,
    meta: &Metadata,
) -> (o: HandlerOutcome)
    ensures
        o.invoke_default == (policy.verbose_env_set || policy.debug_build),
        policy.verbose_env_set ==> o.log_record is None,
        !policy.verbose_env_set ==> (o.log_record matches Some(rec) && rec@ == log_record_text(
            record@,
            frames_view(frames@),
        )),
        (policy.verbose_env_set || policy.debug_build) ==> o.user_message is None,
        (!policy.verbose_env_set && !policy.debug_build) ==> (o.user_message matches Some(m)
            && m@ == user_message_text(log_path@, meta@)),
{
    if policy.verbose_env_set {
        HandlerOutcome { invoke_default: true, log_record: None, user_message: None }
    } else {
        let log_record = Some(format_log_record(record, frames));
        if policy.debug_build {
            HandlerOutcome { invoke_default: true, log_record, user_message: None }
        } else {
            HandlerOutcome {
                invoke_default: false,
                log_record,
                user_message: Some(render_user_message(log_path, meta)),
            }
        }
    }
}

} // verus!
