//! The producers that may connect: each is known by its service name and the
//! token that it has to show.

use vstd::prelude::*;

verus! {

/// One producer that may connect.
#[derive(Debug, PartialEq, Eq)]
pub struct ActionServiceConfiguration {
    token: String,
    service_name: String,
}

impl ActionServiceConfiguration {
    /// The token that the producer shows.
    pub closed spec fn spec_token(&self) -> Seq<char> {
        self.token@
    }

    /// The name that the producer logs on with.
    pub closed spec fn spec_service_name(&self) -> Seq<char> {
        self.service_name@
    }

    /// The producer `service_name` with its token.
    pub fn new(token: String, service_name: String) -> (service: Self)
        ensures
            service.spec_token() == token@,
            service.spec_service_name() == service_name@,
    {
        ActionServiceConfiguration { token, service_name }
    }

    /// The token that the producer shows.
    pub fn token(&self) -> (token: &String)
        ensures
            token@ == self.spec_token(),
    {
        &self.token
    }

    /// The name that the producer logs on with.
    pub fn service_name(&self) -> (name: &String)
        ensures
            name@ == self.spec_service_name(),
    {
        &self.service_name
    }
}

/// The list of the producers that may connect. It is read once and not
/// changed afterwards.
#[derive(Debug, PartialEq, Eq)]
pub struct ActionConfiguration {
    actions: Vec<ActionServiceConfiguration>,
}

/// Whether `services` list the producer `action_identifier` with the token
/// `token`.
pub open spec fn lists_action(
    services: Seq<ActionServiceConfiguration>,
    token: Seq<char>,
    action_identifier: Seq<char>,
) -> bool {
    exists|i: int|
        0 <= i < services.len() && (#[trigger] services[i]).spec_token() == token
            && services[i].spec_service_name() == action_identifier
}

impl ActionConfiguration {
    /// The listed producers.
    pub closed spec fn services(&self) -> Seq<ActionServiceConfiguration> {
        self.actions@
    }

    /// Whether the producer `action_identifier` is listed with `token`.
    pub open spec fn allows(&self, token: Seq<char>, action_identifier: Seq<char>) -> bool {
        lists_action(self.services(), token, action_identifier)
    }

    /// The list of `actions`.
    pub fn new(actions: Vec<ActionServiceConfiguration>) -> (configuration: Self)
        ensures
            configuration.services() == actions@,
    {
        ActionConfiguration { actions }
    }

    /// Whether the producer `action_identifier` is listed with `token`.
    pub fn is_allowed(&self, token: &String, action_identifier: &String) -> (allowed: bool)
        ensures
            allowed == self.allows(token@, action_identifier@),
    {
        let mut i: usize = 0;
        while i < self.actions.len()
            invariant
                i <= self.actions.len(),
                forall|j: int|
                    0 <= j < i ==> !((#[trigger] self.services()[j]).spec_token() == token@
                        && self.services()[j].spec_service_name() == action_identifier@),
            decreases self.actions.len() - i,
        {
            if self.actions[i].token == *token && self.actions[i].service_name
                == *action_identifier {
                return true;
            }
            i = i + 1;
        }
        false
    }

    /// Whether the producer `action_identifier` is listed with `token`.
    pub fn has_action(self, token: String, action_identifier: &String) -> (found: bool)
        ensures
            found == self.allows(token@, action_identifier@),
    {
        self.is_allowed(&token, action_identifier)
    }
}

} // verus!
