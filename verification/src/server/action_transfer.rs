//! The dispatch coordinator: the protocol that a producer speaks on its
//! stream. A stream first logs on, then sends events and results; events are
//! matched against the stored flows and turned into execution requests.

use vstd::prelude::*;
use vstd::string::StringExecFns;
use crate::configuration::action::ActionConfiguration;
use crate::flow::{bytes_view, decoded_flow, ValidationFlow, ValidationFlowView};
use crate::key::{
    compose_event_pattern, event_pattern, is_matching_key, matches_key, separator, wildcard,
};
use crate::server::execution::{
    execution_request, is_execution_identifier, new_execution_identifier, requested,
    ExecutionRequest, ExecutionRequestView,
};
use crate::status::Rejection;
use crate::store::{copy_bytes, FlowCache};
use crate::text::push_text;

verus! {

/// What a stream carries under `authorization`.
#[derive(Debug, PartialEq, Eq)]
pub enum Authorization {
    /// There is no such entry.
    Missing,
    /// The entry is not readable text.
    Unreadable,
    /// The entry, as text.
    Token(String),
}

/// The logon of a producer.
#[derive(Debug, PartialEq, Eq)]
pub struct ActionLogon {
    /// The name under which the producer is known.
    pub action_identifier: String,
}

/// Something that happened at a producer and may start flows.
#[derive(Debug, PartialEq, Eq)]
pub struct Event {
    /// The kind of the event; flows of this type are started.
    pub event_type: String,
    /// The project in which it happened.
    pub project_id: i64,
    /// The encoded value that the flows start from.
    pub payload: Option<Vec<u8>>,
}

/// The outcome of an execution, as a producer reports it.
#[derive(Debug, PartialEq, Eq)]
pub struct ExecutionResult {
    /// The correlation id of the execution.
    pub execution_identifier: String,
    /// The encoded outcome.
    pub result: Vec<u8>,
}

/// What one message of a producer's stream holds.
#[derive(Debug, PartialEq, Eq)]
pub enum TransferData {
    Logon(ActionLogon),
    Event(Event),
    Result(ExecutionResult),
}

/// One message of a producer's stream; it may come empty.
#[derive(Debug, PartialEq, Eq)]
pub struct TransferRequest {
    pub data: Option<TransferData>,
}

/// Where a stream stands in the protocol.
#[derive(Clone, Copy, Debug, PartialEq, Eq, Structural)]
pub enum Phase {
    /// Nothing but a logon is accepted.
    AwaitingLogon,
    /// The producer is logged on and subscribed.
    Active,
    /// The stream is over.
    Closed,
}

/// What the coordinator asks to be done for a stream.
#[derive(Debug, PartialEq, Eq)]
pub enum SessionAction {
    /// Open the subscription to this topic pattern.
    Subscribe(String),
    /// Cancel the subscription to this topic pattern.
    Unsubscribe(String),
    /// Publish this execution request.
    Publish(ExecutionRequest),
    /// Hand this result on to where results go.
    Deliver(ExecutionResult),
    /// Close the stream with this rejection.
    Reject(Rejection),
}

/// What a `SessionAction` is in contracts.
pub enum SessionActionView {
    Subscribe(Seq<char>),
    Unsubscribe(Seq<char>),
    Publish(ExecutionRequestView),
    Deliver(Seq<char>, Seq<u8>),
    Reject(Rejection),
}

impl View for SessionAction {
    type V = SessionActionView;

    open spec fn view(&self) -> SessionActionView {
        match self {
            SessionAction::Subscribe(topic) => SessionActionView::Subscribe(topic@),
            SessionAction::Unsubscribe(topic) => SessionActionView::Unsubscribe(topic@),
            SessionAction::Publish(request) => SessionActionView::Publish(request@),
            SessionAction::Deliver(result) => SessionActionView::Deliver(
                result.execution_identifier@,
                result.result@,
            ),
            SessionAction::Reject(rejection) => SessionActionView::Reject(*rejection),
        }
    }
}

/// The views of a list of actions.
pub open spec fn action_views(actions: Seq<SessionAction>) -> Seq<SessionActionView> {
    Seq::new(actions.len(), |i: int| actions[i]@)
}

/// The topic pattern that the producer `action_identifier` is subscribed to:
/// `action.<identifier>.*`.
pub open spec fn action_topic(action_identifier: Seq<char>) -> Seq<char> {
    "action"@ + seq![separator()] + action_identifier + seq![separator()] + wildcard()
}

/// The flows that `pattern` selects from the stored pairs: of each pair whose
/// key the pattern matches and whose value decodes, the decoded flow, in
/// listing order.
pub open spec fn matching_flows(
    pairs: Seq<(Seq<char>, Seq<u8>)>,
    pattern: Seq<char>,
) -> Seq<ValidationFlowView>
    decreases pairs.len(),
{
    if pairs.len() == 0 {
        Seq::empty()
    } else {
        let before = matching_flows(pairs.drop_last(), pattern);
        let last = pairs.last();
        if matches_key(pattern, last.0) && decoded_flow(last.1) is Some {
            before.push(decoded_flow(last.1)->0)
        } else {
            before
        }
    }
}

/// The views of a list of flows.
pub open spec fn validation_flow_views(flows: Seq<ValidationFlow>) -> Seq<ValidationFlowView> {
    Seq::new(flows.len(), |i: int| flows[i]@)
}

/// Whether `actions` publish one execution request for each of `flows`, in
/// order, each on `payload` and under a correlation id of its own choosing.
pub open spec fn publishes_each(
    actions: Seq<SessionActionView>,
    flows: Seq<ValidationFlowView>,
    payload: Option<Seq<u8>>,
) -> bool {
    &&& actions.len() == flows.len()
    &&& forall|i: int|
        0 <= i < actions.len() ==> (#[trigger] actions[i] matches SessionActionView::Publish(
            request,
        ) && is_execution_identifier(request.execution_identifier) && request == requested(
            flows[i],
            payload,
            request.execution_identifier,
        ))
}

/// The kind of a message, as far as the protocol looks at it.
pub enum Frame {
    /// A message without content.
    Empty,
    /// A logon; `allowed` says whether the allow-list holds the identifier
    /// with the stream's token.
    Logon { allowed: bool },
    /// An event.
    Event,
    /// A result.
    Result,
}

/// The phase after a message.
pub open spec fn next_phase(phase: Phase, frame: Frame) -> Phase {
    match (phase, frame) {
        (Phase::Closed, _) => Phase::Closed,
        (_, Frame::Empty) => phase,
        (Phase::AwaitingLogon, Frame::Logon { allowed }) => if allowed {
            Phase::Active
        } else {
            Phase::Closed
        },
        (Phase::AwaitingLogon, _) => Phase::Closed,
        (Phase::Active, Frame::Logon { .. }) => Phase::Closed,
        (Phase::Active, _) => Phase::Active,
    }
}

/// Whether a message makes the coordinator open a subscription.
pub open spec fn subscribes(phase: Phase, frame: Frame) -> bool {
    &&& phase == Phase::AwaitingLogon
    &&& frame matches Frame::Logon { allowed }
    &&& allowed
}

/// Whether a message may make the coordinator publish execution requests.
pub open spec fn may_publish(phase: Phase, frame: Frame) -> bool {
    phase == Phase::Active && frame is Event
}

/// The phase after a run of messages on a fresh stream.
pub open spec fn phase_after(frames: Seq<Frame>) -> Phase
    decreases frames.len(),
{
    if frames.len() == 0 {
        Phase::AwaitingLogon
    } else {
        next_phase(phase_after(frames.drop_last()), frames.last())
    }
}

/// How many subscriptions a run of messages on a fresh stream opens.
pub open spec fn subscriptions_opened(frames: Seq<Frame>) -> nat
    decreases frames.len(),
{
    if frames.len() == 0 {
        0
    } else {
        let before = subscriptions_opened(frames.drop_last());
        if subscribes(phase_after(frames.drop_last()), frames.last()) {
            before + 1
        } else {
            before
        }
    }
}

/// A stream that sends an event or a result before it has logged on is closed,
/// and nothing is subscribed or published for it.
pub proof fn lemma_logon_comes_first(frame: Frame)
    requires
        frame is Event || frame is Result,
    ensures
        next_phase(Phase::AwaitingLogon, frame) == Phase::Closed,
        !subscribes(Phase::AwaitingLogon, frame),
        !may_publish(Phase::AwaitingLogon, frame),
{
}

/// A second logon closes a stream that is logged on, whatever it holds.
pub proof fn lemma_second_logon_closes(allowed: bool)
    ensures
        next_phase(Phase::Active, Frame::Logon { allowed }) == Phase::Closed,
        !subscribes(Phase::Active, Frame::Logon { allowed }),
{
}

/// A logon whose token does not belong to the identifier closes the stream
/// and opens no subscription.
pub proof fn lemma_unknown_action_never_subscribes(phase: Phase)
    ensures
        next_phase(phase, Frame::Logon { allowed: false }) == Phase::Closed || phase
            == Phase::Closed,
        !subscribes(phase, Frame::Logon { allowed: false }),
        next_phase(phase, Frame::Logon { allowed: false }) != Phase::Active,
{
}

/// A closed stream stays closed, and a stream never goes back to waiting for
/// a logon once it has left that phase.
pub proof fn lemma_phases_only_advance(phase: Phase, frame: Frame)
    ensures
        phase == Phase::Closed ==> next_phase(phase, frame) == Phase::Closed,
        phase != Phase::AwaitingLogon ==> next_phase(phase, frame) != Phase::AwaitingLogon,
        next_phase(phase, frame) == Phase::Active && phase != Phase::Active ==> subscribes(
            phase,
            frame,
        ),
{
}

/// Over any run of messages a stream is subscribed at most once, and it is
/// exactly if it ever became active; while it still waits for its logon
/// nothing has been subscribed.
pub proof fn lemma_one_logon(frames: Seq<Frame>)
    ensures
        subscriptions_opened(frames) <= 1,
        phase_after(frames) == Phase::AwaitingLogon ==> subscriptions_opened(frames) == 0,
        phase_after(frames) == Phase::Active ==> subscriptions_opened(frames) == 1,
    decreases frames.len(),
{
    if frames.len() > 0 {
        lemma_one_logon(frames.drop_last());
    }
}

/// The state of one producer's stream.
#[derive(Debug, PartialEq, Eq)]
pub struct Session {
    phase: Phase,
    token: String,
    action_identifier: String,
}

impl Session {
    /// Where the stream stands.
    pub closed spec fn phase(&self) -> Phase {
        self.phase
    }

    /// The token that the stream came with.
    pub closed spec fn token(&self) -> Seq<char> {
        self.token@
    }

    /// The name that the producer logged on with; meaningful while the stream
    /// is active.
    pub closed spec fn action_identifier(&self) -> Seq<char> {
        self.action_identifier@
    }

    /// The topic pattern that the stream is subscribed to, if it is.
    pub open spec fn subscription(&self) -> Option<Seq<char>> {
        if self.phase() == Phase::Active {
            Some(action_topic(self.action_identifier()))
        } else {
            None
        }
    }

    /// Opens the session of a stream from what it carries under
    /// `authorization`. A stream without a token is turned away as
    /// unauthenticated, one with an unreadable token as an internal error.
    pub fn open(authorization: Authorization) -> (opened: Result<Session, Rejection>)
        ensures
            match authorization {
                Authorization::Missing => opened == Err::<Session, Rejection>(
                    Rejection::MissingToken,
                ),
                Authorization::Unreadable => opened == Err::<Session, Rejection>(
                    Rejection::UnreadableToken,
                ),
                Authorization::Token(token) => opened matches Ok(session) && session.phase()
                    == Phase::AwaitingLogon && session.token() == token@,
            },
    {
        match authorization {
            Authorization::Missing => Err(Rejection::MissingToken),
            Authorization::Unreadable => Err(Rejection::UnreadableToken),
            Authorization::Token(token) => Ok(
                Session { phase: Phase::AwaitingLogon, token, action_identifier: String::new() },
            ),
        }
    }

    /// Where the stream stands.
    pub fn current_phase(&self) -> (phase: Phase)
        ensures
            phase == self.phase(),
    {
        self.phase
    }

    /// The topic pattern that the stream is subscribed to, if it is.
    pub fn current_subscription(&self) -> (topic: Option<String>)
        ensures
            match topic {
                Some(t) => self.subscription() == Some(t@),
                None => self.subscription() is None,
            },
    {
        if self.phase == Phase::Active {
            Some(compose_action_topic(&self.action_identifier))
        } else {
            None
        }
    }

    /// Takes note that the subscription which a logon asked for could not be
    /// opened: an active stream is closed with an internal error. A stream in
    /// another phase is left as it is and nothing is to be done.
    pub fn subscription_failed(&mut self) -> (rejection: Option<Rejection>)
        ensures
            final(self).token() == old(self).token(),
            old(self).phase() == Phase::Active ==> final(self).phase() == Phase::Closed
                && rejection == Some(Rejection::SubscriptionFailed),
            old(self).phase() != Phase::Active ==> final(self).phase() == old(self).phase()
                && rejection is None,
    {
        if self.phase == Phase::Active {
            self.phase = Phase::Closed;
            Some(Rejection::SubscriptionFailed)
        } else {
            None
        }
    }

    /// Ends the session because the stream ended or broke. The subscription
    /// of an active stream is to be cancelled; afterwards the stream is closed
    /// and holds no subscription.
    pub fn close(&mut self) -> (actions: Vec<SessionAction>)
        ensures
            final(self).phase() == Phase::Closed,
            final(self).subscription() is None,
            final(self).token() == old(self).token(),
            match old(self).subscription() {
                Some(topic) => action_views(actions@) == seq![
                    SessionActionView::Unsubscribe(topic),
                ],
                None => actions@.len() == 0,
            },
    {
        let mut actions: Vec<SessionAction> = Vec::new();
        if self.phase == Phase::Active {
            actions.push(SessionAction::Unsubscribe(compose_action_topic(&self.action_identifier)));
        }
        self.phase = Phase::Closed;
        actions
    }
}

/// Builds the topic pattern `action.<identifier>.*`.
pub fn compose_action_topic(action_identifier: &String) -> (topic: String)
    ensures
        topic@ == action_topic(action_identifier@),
{
    proof {
        reveal_strlit(".");
        reveal_strlit("*");
    }
    let mut topic = String::from_str("action");
    topic.append(".");
    push_text(&mut topic, action_identifier);
    topic.append(".");
    topic.append("*");
    topic
}

/// The flows that `pattern` selects from the store: every stored key is tried
/// against the pattern, the value of each matching key is decoded, and what
/// does not decode is passed over.
pub fn get_flows(pattern: &String, cache: &FlowCache) -> (flows: Vec<ValidationFlow>)
    ensures
        validation_flow_views(flows@) == matching_flows(cache.pairs(), pattern@),
{
    let mut flows: Vec<ValidationFlow> = Vec::new();
    let n = cache.len();
    let mut i: usize = 0;
    while i < n
        invariant
            i <= n,
            n == cache.pairs().len(),
            validation_flow_views(flows@) == matching_flows(
                cache.pairs().subrange(0, i as int),
                pattern@,
            ),
        decreases n - i,
    {
        let ghost seen = cache.pairs().subrange(0, i as int);
        let ghost next = cache.pairs().subrange(0, i + 1);
        assert(next.drop_last() =~= seen);
        if let Some(entry) = cache.entry_at(i) {
            if is_matching_key(pattern, &entry.key) {
                match ValidationFlow::decode(copy_bytes(&entry.value)) {
                    Some(flow) => {
                        flows.push(flow);
                    },
                    None => {},
                }
            }
        }
        i = i + 1;
    }
    assert(cache.pairs().subrange(0, n as int) =~= cache.pairs());
    flows
}

/// Makes one execution request for each of `flows`, in order, each on
/// `payload` and under a fresh correlation id.
pub fn request_executions(flows: &Vec<ValidationFlow>, payload: &Option<Vec<u8>>) -> (actions: Vec<
    SessionAction,
>)
    ensures
        publishes_each(action_views(actions@), validation_flow_views(flows@), bytes_view(*payload)),
{
    let mut actions: Vec<SessionAction> = Vec::new();
    let mut i: usize = 0;
    while i < flows.len()
        invariant
            i <= flows.len(),
            actions@.len() == i,
            forall|j: int|
                0 <= j < i ==> (#[trigger] action_views(actions@)[j] matches SessionActionView::Publish(
                    request,
                ) && is_execution_identifier(request.execution_identifier) && request == requested(
                    flows@[j]@,
                    bytes_view(*payload),
                    request.execution_identifier,
                )),
        decreases flows.len() - i,
    {
        let id = new_execution_identifier();
        let request = execution_request(&flows[i], payload, id);
        let ghost before = actions@;
        actions.push(SessionAction::Publish(request));
        assert forall|j: int| 0 <= j < i + 1 implies (#[trigger] action_views(
            actions@,
        )[j] matches SessionActionView::Publish(request) && is_execution_identifier(
            request.execution_identifier,
        ) && request == requested(
            flows@[j]@,
            bytes_view(*payload),
            request.execution_identifier,
        )) by {
            if j < i {
                assert(action_views(actions@)[j] == action_views(before)[j]);
            }
        }
        i = i + 1;
    }
    actions
}

/// The coordinator for the streams of the producers. It holds the list of
/// the producers that may log on.
#[derive(Debug, PartialEq, Eq)]
pub struct AquilaActionTransferServiceServer {
    actions: ActionConfiguration,
}

impl AquilaActionTransferServiceServer {
    /// The list of the producers that may log on.
    pub closed spec fn actions(&self) -> ActionConfiguration {
        self.actions
    }

    /// A coordinator that lets in the producers that `actions` list.
    pub fn new(actions: ActionConfiguration) -> (server: Self)
        ensures
            server.actions() == actions,
    {
        Self { actions }
    }

    /// The kind of `request` for a stream with the token `token`.
    pub open spec fn frame_of(&self, token: Seq<char>, request: TransferRequest) -> Frame {
        match request.data {
            None => Frame::Empty,
            Some(TransferData::Logon(logon)) => Frame::Logon {
                allowed: self.actions().allows(token, logon.action_identifier@),
            },
            Some(TransferData::Event(_)) => Frame::Event,
            Some(TransferData::Result(_)) => Frame::Result,
        }
    }

    /// The flows that an event starts: those stored under a key that the
    /// pattern `event_type.*.project_id.*` matches.
    pub fn flows_of_event(&self, cache: &FlowCache, event: &Event) -> (flows: Vec<ValidationFlow>)
        ensures
            validation_flow_views(flows@) == matching_flows(
                cache.pairs(),
                event_pattern(event.event_type@, event.project_id as int),
            ),
    {
        let pattern = compose_event_pattern(&event.event_type, event.project_id);
        get_flows(&pattern, cache)
    }

    /// Handles one message of a producer's stream and says what is to be done
    /// for it.
    ///
    /// A closed stream and an empty message ask for nothing. The first full
    /// message must be a logon whose identifier the allow-list holds with the
    /// stream's token: then the stream becomes active and its subscription is
    /// to be opened; any other first message closes the stream with a
    /// rejection and nothing else. On an active stream a logon closes the
    /// stream, an event asks for one execution request per matching flow, and
    /// a result is handed on.
    pub fn transfer(&self, session: &mut Session, cache: &FlowCache, request: &TransferRequest) -> (actions:
        Vec<SessionAction>)
        ensures
            final(session).token() == old(session).token(),
            final(session).phase() == next_phase(
                old(session).phase(),
                self.frame_of(old(session).token(), *request),
            ),
            match (old(session).phase(), request.data) {
                (Phase::Closed, _) => actions@.len() == 0,
                (_, None) => actions@.len() == 0 && final(session).action_identifier() == old(
                    session,
                ).action_identifier(),
                (Phase::AwaitingLogon, Some(TransferData::Logon(logon))) => if self.actions().allows(
                    old(session).token(),
                    logon.action_identifier@,
                ) {
                    &&& final(session).action_identifier() == logon.action_identifier@
                    &&& action_views(actions@) == seq![
                        SessionActionView::Subscribe(action_topic(logon.action_identifier@)),
                    ]
                } else {
                    action_views(actions@) == seq![
                        SessionActionView::Reject(Rejection::UnknownAction),
                    ]
                },
                (Phase::AwaitingLogon, Some(_)) => action_views(actions@) == seq![
                    SessionActionView::Reject(Rejection::LogonExpected),
                ],
                (Phase::Active, Some(TransferData::Logon(_))) => action_views(actions@) == seq![
                    SessionActionView::Unsubscribe(action_topic(old(session).action_identifier())),
                    SessionActionView::Reject(Rejection::AlreadyLoggedOn),
                ],
                (Phase::Active, Some(TransferData::Event(event))) => {
                    &&& final(session).action_identifier() == old(session).action_identifier()
                    &&& publishes_each(
                        action_views(actions@),
                        matching_flows(
                            cache.pairs(),
                            event_pattern(event.event_type@, event.project_id as int),
                        ),
                        bytes_view(event.payload),
                    )
                },
                (Phase::Active, Some(TransferData::Result(result))) => {
                    &&& final(session).action_identifier() == old(session).action_identifier()
                    &&& action_views(actions@) == seq![
                        SessionActionView::Deliver(result.execution_identifier@, result.result@),
                    ]
                },
            },
    {
        let mut actions: Vec<SessionAction> = Vec::new();
        if session.phase == Phase::Closed {
            return actions;
        }
        let data = match &request.data {
            None => {
                return actions;
            },
            Some(data) => data,
        };
        if session.phase == Phase::AwaitingLogon {
            match data {
                TransferData::Logon(logon) => {
                    if self.actions.is_allowed(&session.token, &logon.action_identifier) {
                        session.phase = Phase::Active;
                        session.action_identifier = logon.action_identifier.clone();
                        actions.push(
                            SessionAction::Subscribe(
                                compose_action_topic(&logon.action_identifier),
                            ),
                        );
                    } else {
                        session.phase = Phase::Closed;
                        actions.push(SessionAction::Reject(Rejection::UnknownAction));
                    }
                },
                _ => {
                    session.phase = Phase::Closed;
                    actions.push(SessionAction::Reject(Rejection::LogonExpected));
                },
            }
            return actions;
        }
        match data {
            TransferData::Logon(_) => {
                session.phase = Phase::Closed;
                actions.push(
                    SessionAction::Unsubscribe(compose_action_topic(&session.action_identifier)),
                );
                actions.push(SessionAction::Reject(Rejection::AlreadyLoggedOn));
                actions
            },
            TransferData::Event(event) => {
                let flows = self.flows_of_event(cache, event);
                request_executions(&flows, &event.payload)
            },
            TransferData::Result(result) => {
                actions.push(
                    SessionAction::Deliver(
                        ExecutionResult {
                            execution_identifier: result.execution_identifier.clone(),
                            result: copy_bytes(&result.result),
                        },
                    ),
                );
                actions
            },
        }
    }
}

} // verus!
