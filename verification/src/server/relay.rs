//! The relays: calls that this node takes from a producer and passes on to the
//! remote authority, one kind for each table of definitions. A relay lets a
//! call through only while the authority is reachable, and answers with what
//! the authority answered.

use vstd::prelude::*;
use crate::configuration::action::ActionConfiguration;
use crate::configuration::state::AppReadiness;
use crate::server::action_transfer::Authorization;
use crate::status::Rejection;

verus! {

/// The tables that are relayed.
#[derive(Clone, Copy, Debug, PartialEq, Eq, Structural)]
pub enum RelayKind {
    /// The configurations of the producers.
    ActionConfiguration,
    /// The data types.
    DataType,
    /// The flow types.
    FlowType,
    /// The modules, each with its data types, flow types and functions.
    Module,
    /// The definitions of the runtime functions.
    RuntimeFunction,
    /// The status of the runtimes.
    RuntimeStatus,
    /// The usage of the runtimes.
    RuntimeUsage,
}

impl RelayKind {
    /// The name under which the relay writes to the log.
    pub open spec fn spec_label(self) -> Seq<char> {
        match self {
            RelayKind::ActionConfiguration => "ActionConfiguration"@,
            RelayKind::DataType => "DataTypes"@,
            RelayKind::FlowType => "FlowTypes"@,
            RelayKind::Module => "Modules"@,
            RelayKind::RuntimeFunction => "RuntimeFunctions"@,
            RelayKind::RuntimeStatus => "RuntimeStatus"@,
            RelayKind::RuntimeUsage => "RuntimeUsage"@,
        }
    }

    /// The name under which the relay writes to the log.
    pub fn label(self) -> (label: &'static str)
        ensures
            label@ == self.spec_label(),
    {
        match self {
            RelayKind::ActionConfiguration => "ActionConfiguration",
            RelayKind::DataType => "DataTypes",
            RelayKind::FlowType => "FlowTypes",
            RelayKind::Module => "Modules",
            RelayKind::RuntimeFunction => "RuntimeFunctions",
            RelayKind::RuntimeStatus => "RuntimeStatus",
            RelayKind::RuntimeUsage => "RuntimeUsage",
        }
    }
}

/// How the call to the remote authority went.
#[derive(Clone, Copy, Debug, PartialEq, Eq, Structural)]
pub enum Upstream {
    /// The authority answered, and said whether it took the update.
    Answered { success: bool },
    /// The call failed.
    Failed,
}

/// What a relay does with a call.
#[derive(Clone, Copy, Debug, PartialEq, Eq, Structural)]
pub enum RelayDecision {
    /// Pass the call on to the authority.
    Forward,
    /// Turn the call away.
    Reject(Rejection),
}

/// The success that is reported to the caller: what the authority answered,
/// and failure where the call to it failed.
pub open spec fn reported_success(upstream: Upstream) -> bool {
    match upstream {
        Upstream::Answered { success } => success,
        Upstream::Failed => false,
    }
}

/// A relay of one kind.
#[derive(Clone, Copy, Debug)]
pub struct Relay {
    /// The table that the relay passes on.
    pub kind: RelayKind,
}

impl Relay {
    /// A relay for `kind`.
    pub fn new(kind: RelayKind) -> (relay: Self)
        ensures
            relay.kind == kind,
    {
        Relay { kind }
    }

    /// Decides whether a call passes: it does exactly while the authority is
    /// reachable. While it is not, the call is turned away at once as
    /// unavailable; it is neither queued nor held back.
    pub fn intercept(&self, readiness: &AppReadiness) -> (decision: RelayDecision)
        ensures
            decision == if readiness.ready() {
                RelayDecision::Forward
            } else {
                RelayDecision::Reject(Rejection::BackendNotReady)
            },
    {
        match readiness.intercept() {
            Ok(()) => RelayDecision::Forward,
            Err(rejection) => RelayDecision::Reject(rejection),
        }
    }

    /// The success that the caller is told.
    pub fn respond(&self, upstream: Upstream) -> (success: bool)
        ensures
            success == reported_success(upstream),
    {
        match upstream {
            Upstream::Answered { success } => success,
            Upstream::Failed => false,
        }
    }
}

/// The rejection, if any, of a producer that wants to change the
/// configuration `action_identifier`.
pub open spec fn update_rejection(
    actions: ActionConfiguration,
    authorization: Authorization,
    action_identifier: Seq<char>,
) -> Option<Rejection> {
    match authorization {
        Authorization::Missing => Some(Rejection::MissingToken),
        Authorization::Unreadable => Some(Rejection::UnreadableToken),
        Authorization::Token(token) => if actions.allows(token@, action_identifier) {
            None
        } else {
            Some(Rejection::NotRegistered)
        },
    }
}

/// Checks that a producer may change the configuration `action_identifier`:
/// it has to show the token under which the allow-list holds that identifier.
pub fn authorize_update(
    actions: &ActionConfiguration,
    authorization: &Authorization,
    action_identifier: &String,
) -> (checked: Result<(), Rejection>)
    ensures
        match checked {
            Ok(_) => update_rejection(*actions, *authorization, action_identifier@) is None,
            Err(rejection) => update_rejection(*actions, *authorization, action_identifier@)
                == Some(rejection),
        },
{
    match authorization {
        Authorization::Missing => Err(Rejection::MissingToken),
        Authorization::Unreadable => Err(Rejection::UnreadableToken),
        Authorization::Token(token) => {
            if actions.is_allowed(token, action_identifier) {
                Ok(())
            } else {
                Err(Rejection::NotRegistered)
            }
        },
    }
}

} // verus!
