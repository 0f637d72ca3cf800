//! Admin client invoker: decides how one invocation of the command ends.
//!
//! The transport work itself (connecting to the node's local control
//! channel and awaiting the single remote call) happens outside this
//! library; the caller performs each step and hands back its outcome as an
//! event.  Every decision around those steps is made here: which address to
//! contact, whether a connection may be attempted at all, and how each
//! outcome maps to the result the invoking user sees.

use vstd::prelude::*;
use vstd::string::StringExecFns;
use crate::args::{
    ArgumentError, ValidatorWhitelistArgs, missing_path, resolve, surplus_argument,
};

verus! {

/// Why delivery to the running node failed.
#[derive(Debug, PartialEq)]
pub enum InvocationError {
    /// No node was listening at the resolved address (node not running, or
    /// wrong data directory); carries the underlying transport error text.
    Unreachable(String),
    /// The node received the request but declined it; carries the node's
    /// error detail unchanged.
    Rejected(String),
}

/// Outcome of one attempt to establish a connection to the control channel.
#[derive(Debug, PartialEq)]
pub enum ConnectEvent {
    /// A connection was established.
    Established,
    /// No connection could be established; carries the transport error text.
    Failed(String),
}

/// Outcome of the single remote `set_validator_whitelist` call.
#[derive(Debug, PartialEq)]
pub enum CallEvent {
    /// The node accepted the request.
    Succeeded,
    /// The node declined the request; carries its error detail.
    Rejected(String),
}

/// The first step of one invocation: either abort before any connection
/// attempt, or connect to the given control-channel address and deliver the
/// given request.
#[derive(Debug, PartialEq)]
pub enum InvocationStep {
    Abort(ArgumentError),
    Connect { address: String, request: ValidatorWhitelistArgs },
}

/// The control-channel address of the node whose data directory is
/// `data_dir`: the fixed, well-known socket name `admin.rpc` under that
/// directory.  No discovery or negotiation takes place.
pub open spec fn admin_address_of(data_dir: Seq<char>) -> Seq<char> {
    data_dir + "/admin.rpc"@
}

/// What planning must produce for a given node identity and raw token list:
/// an abort carrying the resolution error whenever resolution fails, and
/// otherwise a single connect action at the address derived from the
/// identity, carrying the resolved request.
pub open spec fn plan_obeys_protocol(
    identity: Seq<char>,
    raw: Seq<String>,
    step: InvocationStep,
) -> bool {
    if missing_path(raw) {
        step matches InvocationStep::Abort(e)
            && e matches ArgumentError::MissingRequiredValue(name) && name@ == "path"@
    } else if surplus_argument(raw) {
        step matches InvocationStep::Abort(e)
            && e matches ArgumentError::UnexpectedArgument(value) && value@ == raw[2]@
    } else {
        step matches InvocationStep::Connect { address, request }
            && address@ == admin_address_of(identity) && request.path@ == raw[1]@
    }
}

/// How the connection outcome maps to the invocation's fate: a failure to
/// connect ends the invocation with `Unreachable`, carrying the transport
/// error text unchanged; an established connection lets the request through
/// unchanged for the single remote call.
pub open spec fn connect_outcome_obeys_protocol(
    request: ValidatorWhitelistArgs,
    event: ConnectEvent,
    r: Result<ValidatorWhitelistArgs, InvocationError>,
) -> bool {
    match event {
        ConnectEvent::Established => r matches Ok(ready) && ready.path@ == request.path@,
        ConnectEvent::Failed(detail) => r matches Err(e)
            && e matches InvocationError::Unreachable(cause) && cause@ == detail@,
    }
}

/// How the remote call's outcome maps to the invocation's result: success
/// with no payload when the node accepted, and `Rejected` carrying the
/// node's error detail unchanged when it declined.
pub open spec fn call_outcome_obeys_protocol(
    event: CallEvent,
    r: Result<(), InvocationError>,
) -> bool {
    match event {
        CallEvent::Succeeded => r is Ok,
        CallEvent::Rejected(detail) => r matches Err(e)
            && e matches InvocationError::Rejected(cause) && cause@ == detail@,
    }
}

/// The control-channel address of the node whose data directory is
/// `data_dir`.
pub fn admin_channel_address(data_dir: &String) -> (addr: String)
    ensures
        addr@ == admin_address_of(data_dir@),
{
    let mut addr = data_dir.clone();
    addr.append("/admin.rpc");
    addr
}

/// Plan one invocation: validate the raw tokens, and on success resolve the
/// control-channel address of the node identified by `identity` (its data
/// directory).  Validation happens before any connection attempt, so a
/// malformed invocation yields an abort and no connect action.
pub fn plan_invocation(identity: &String, raw_arguments: &Vec<String>) -> (step:
    InvocationStep)
    ensures
        plan_obeys_protocol(identity@, raw_arguments@, step),
{
    match resolve(raw_arguments) {
        Err(e) => InvocationStep::Abort(e),
        Ok(request) => InvocationStep::Connect {
            address: admin_channel_address(identity),
            request,
        },
    }
}

/// Decide how the invocation goes on once the connection attempt has an
/// outcome: fail with `Unreachable` when nothing was listening, otherwise
/// hand the request on, unchanged, for the single remote call.
pub fn after_connect(request: ValidatorWhitelistArgs, event: ConnectEvent) -> (r: Result<
    ValidatorWhitelistArgs,
    InvocationError,
>)
    ensures
        connect_outcome_obeys_protocol(request, event, r),
{
    match event {
        ConnectEvent::Established => Ok(request),
        ConnectEvent::Failed(detail) => Err(InvocationError::Unreachable(detail)),
    }
}

/// Decide the invocation's final result from the remote call's outcome.
/// The call is issued at most once: no outcome leads to a retry.
pub fn after_call(event: CallEvent) -> (r: Result<(), InvocationError>)
    ensures
        call_outcome_obeys_protocol(event, r),
{
    match event {
        CallEvent::Succeeded => Ok(()),
        CallEvent::Rejected(detail) => Err(InvocationError::Rejected(detail)),
    }
}

/// A raw token list that omits the required `path` value makes resolution
/// fail with the missing-value error, and planning then aborts: no connect
/// action is produced, so no connection attempt is ever made for such an
/// invocation.
pub proof fn lemma_missing_path_never_connects(
    identity: Seq<char>,
    raw: Seq<String>,
    step: InvocationStep,
)
    requires
        missing_path(raw),
        plan_obeys_protocol(identity, raw, step),
    ensures
        step matches InvocationStep::Abort(e)
            && e matches ArgumentError::MissingRequiredValue(name) && name@ == "path"@,
        !(step matches InvocationStep::Connect { .. }),
{
}

/// When no node listens at the resolved address, the invocation ends with
/// `Unreachable`, carrying the transport failure's text unchanged: "nothing
/// is listening" stays distinguishable from "the listener declined".
pub proof fn lemma_no_listener_reports_unreachable(
    request: ValidatorWhitelistArgs,
    detail: String,
    r: Result<ValidatorWhitelistArgs, InvocationError>,
)
    requires
        connect_outcome_obeys_protocol(request, ConnectEvent::Failed(detail), r),
    ensures
        r matches Err(e) && e matches InvocationError::Unreachable(cause)
            && cause@ == detail@,
{
}

/// A remote call the node accepts ends the invocation with success and no
/// payload.
pub proof fn lemma_remote_success_reported(r: Result<(), InvocationError>)
    requires
        call_outcome_obeys_protocol(CallEvent::Succeeded, r),
    ensures
        r is Ok,
{
}

/// A remote call the node declines ends the invocation with `Rejected`,
/// carrying the node's error detail unchanged, so the user sees the actual
/// cause.
pub proof fn lemma_remote_rejection_carries_detail(
    detail: String,
    r: Result<(), InvocationError>,
)
    requires
        call_outcome_obeys_protocol(CallEvent::Rejected(detail), r),
    ensures
        r matches Err(e) && e matches InvocationError::Rejected(cause)
            && cause@ == detail@,
{
}

} // verus!
