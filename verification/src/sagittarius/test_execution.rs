//! Test executions: the remote authority asks for a stored flow to be run
//! once on a given body and gets the result back on the same stream.

use vstd::prelude::*;
use crate::flow::{
    bytes_view, decoded_flow, flow_key, FlowView, ValidationFlow, ValidationFlowView,
};
use crate::key::{holds_flow_id, lemma_flow_identifier_holds_its_id, separator};
use crate::sagittarius::flow_client::upsert;
use crate::server::execution::{
    is_execution_identifier, new_execution_identifier, test_execution_request, test_requested,
    ExecutionRequest, ExecutionRequestView,
};
use crate::store::{
    copy_bytes, distinct_keys, first_of_flow, has_key, index_of, lemma_first_of_flow,
    lemma_put_pair, FlowCache,
};

verus! {

/// The authority's request to run a flow as a test.
#[derive(Debug, PartialEq, Eq)]
pub struct TestExecutionRequest {
    /// The flow to run.
    pub flow_id: i64,
    /// The encoded body to run it on.
    pub body: Option<Vec<u8>>,
}

/// One entry of the application log that goes back with a response.
#[derive(Debug, PartialEq, Eq)]
pub struct ApplicationLog {
    /// What is reported.
    pub message: String,
}

/// What goes back to the authority for one request.
#[derive(Debug, PartialEq, Eq)]
pub struct TestExecutionResponse {
    /// The flow that was asked for.
    pub flow_id: i64,
    /// The correlation id of the execution.
    pub execution_uuid: String,
    /// The encoded result of the execution, where it ran.
    pub result: Option<Vec<u8>>,
    /// What there is to report beside the result.
    pub logs: Vec<ApplicationLog>,
}

/// What a `TestExecutionResponse` is in contracts.
pub struct TestExecutionResponseView {
    pub flow_id: int,
    pub execution_uuid: Seq<char>,
    pub result: Option<Seq<u8>>,
    pub logs: Seq<Seq<char>>,
}

/// The messages of a list of log entries.
pub open spec fn log_messages(logs: Seq<ApplicationLog>) -> Seq<Seq<char>> {
    Seq::new(logs.len(), |i: int| logs[i].message@)
}

impl View for TestExecutionResponse {
    type V = TestExecutionResponseView;

    open spec fn view(&self) -> TestExecutionResponseView {
        TestExecutionResponseView {
            flow_id: self.flow_id as int,
            execution_uuid: self.execution_uuid@,
            result: bytes_view(self.result),
            logs: log_messages(self.logs@),
        }
    }
}

/// What the client sends on its stream.
#[derive(Debug, PartialEq, Eq)]
pub enum ExecutionLogonRequest {
    /// The first message of the stream.
    Logon,
    /// The answer to one request.
    Response(TestExecutionResponse),
}

/// What is to be done for one request.
#[derive(Debug, PartialEq, Eq)]
pub enum TestExecutionStep {
    /// Nothing: the flow is not stored here.
    Skip,
    /// Send this response; nothing is executed.
    Respond(TestExecutionResponse),
    /// Publish this request and wait for its one reply.
    Execute(ExecutionRequest),
}

/// What a `TestExecutionStep` is in contracts.
pub enum TestExecutionStepView {
    Skip,
    Respond(TestExecutionResponseView),
    Execute(ExecutionRequestView),
}

impl View for TestExecutionStep {
    type V = TestExecutionStepView;

    open spec fn view(&self) -> TestExecutionStepView {
        match self {
            TestExecutionStep::Skip => TestExecutionStepView::Skip,
            TestExecutionStep::Respond(response) => TestExecutionStepView::Respond(response@),
            TestExecutionStep::Execute(request) => TestExecutionStepView::Execute(request@),
        }
    }
}

/// The flow that is stored for `flow_id`: what the first key whose flow-id
/// segment is that id holds, decoded.
pub open spec fn stored_flow(
    pairs: Seq<(Seq<char>, Seq<u8>)>,
    flow_id: int,
) -> Option<ValidationFlowView> {
    match first_of_flow(pairs, flow_id) {
        Some(bytes) => decoded_flow(bytes),
        None => None,
    }
}

/// The view of an optional flow.
pub open spec fn optional_flow_view(flow: Option<ValidationFlow>) -> Option<ValidationFlowView> {
    match flow {
        Some(f) => Some(f@),
        None => None,
    }
}

/// The message of an optional log entry.
pub open spec fn optional_log_view(log: Option<ApplicationLog>) -> Option<Seq<char>> {
    match log {
        Some(l) => Some(l.message@),
        None => None,
    }
}

/// What is to be done for a request, once it is known which flow is stored
/// for it, what the check of its body found, and which correlation id the
/// execution gets.
///
/// Without a stored flow the request is passed over. A body that breaks the
/// flow's rules is answered with the violation and not executed; a request
/// without a body is not checked.
pub open spec fn planned_step(
    flow: Option<ValidationFlowView>,
    flow_id: int,
    body: Option<Seq<u8>>,
    violation: Option<Seq<char>>,
    id: Seq<char>,
) -> TestExecutionStepView {
    match flow {
        None => TestExecutionStepView::Skip,
        Some(f) => if body is Some && violation is Some {
            TestExecutionStepView::Respond(
                TestExecutionResponseView {
                    flow_id,
                    execution_uuid: id,
                    result: None,
                    logs: seq![violation->0],
                },
            )
        } else {
            TestExecutionStepView::Execute(test_requested(f, body, id))
        },
    }
}

/// The response that carries the reply to an execution: the decoded result
/// under the correlation id of its request. A reply that did not come, or
/// that could not be read, gives no response.
pub open spec fn reply_response(
    flow_id: int,
    id: Seq<char>,
    reply: Option<Seq<u8>>,
) -> Option<TestExecutionResponseView> {
    match reply {
        Some(value) => Some(
            TestExecutionResponseView {
                flow_id,
                execution_uuid: id,
                result: Some(value),
                logs: Seq::empty(),
            },
        ),
        None => None,
    }
}

/// The view of an optional response.
pub open spec fn optional_response_view(
    response: Option<TestExecutionResponse>,
) -> Option<TestExecutionResponseView> {
    match response {
        Some(r) => Some(r@),
        None => None,
    }
}

/// A flow that was stored is found by its id: after a flow is stored under
/// its own key, the lookup of its id gives what its definition decodes to,
/// provided no variant of that flow id is stored under another key.
pub proof fn lemma_stored_flow_is_found(pairs: Seq<(Seq<char>, Seq<u8>)>, flow: FlowView)
    requires
        distinct_keys(pairs),
        !flow.flow_type.contains(separator()),
        !flow.project_slug.contains(separator()),
        forall|i: int|
            0 <= i < pairs.len() && holds_flow_id((#[trigger] pairs[i]).0, flow.flow_id)
                ==> pairs[i].0 == flow_key(flow),
    ensures
        stored_flow(upsert(pairs, flow), flow.flow_id) == decoded_flow(flow.definition),
{
    let key = flow_key(flow);
    let after = upsert(pairs, flow);
    lemma_flow_identifier_holds_its_id(
        flow.flow_type,
        flow.project_slug,
        flow.project_id,
        flow.flow_id,
        flow.flow_id,
    );
    lemma_put_pair(pairs, key, flow.definition);
    lemma_first_of_flow(after, flow.flow_id);
    let at = if has_key(pairs, key) {
        index_of(pairs, key)
    } else {
        pairs.len() as int
    };
    assert(after[at] == (key, flow.definition));
    assert(first_of_flow(after, flow.flow_id) is Some);
    let found = first_of_flow(after, flow.flow_id)->0;
    let i = choose|i: int|
        0 <= i < after.len() && holds_flow_id((#[trigger] after[i]).0, flow.flow_id) && after[i].1
            == found;
    if i != at {
        assert(after[i] == pairs[i]);
        assert(pairs[i].0 == key);
        assert(after[i].0 != after[at].0);
    }
}

/// A body that breaks the rules is never executed, and what is answered
/// carries the correlation id and the violation.
pub proof fn lemma_violation_is_not_executed(
    flow: ValidationFlowView,
    flow_id: int,
    body: Seq<u8>,
    violation: Seq<char>,
    id: Seq<char>,
)
    ensures
        planned_step(Some(flow), flow_id, Some(body), Some(violation), id)
            matches TestExecutionStepView::Respond(response) && response.execution_uuid == id
            && response.logs == seq![violation] && response.result is None,
{
}

/// The client that serves the authority's test executions.
#[derive(Debug, PartialEq, Eq)]
pub struct SagittariusTestExecutionServiceClient {
    token: String,
}

impl SagittariusTestExecutionServiceClient {
    /// The token that the client shows.
    pub closed spec fn spec_token(&self) -> Seq<char> {
        self.token@
    }

    /// A client that shows `token`.
    pub fn new(token: String) -> (client: Self)
        ensures
            client.spec_token() == token@,
    {
        SagittariusTestExecutionServiceClient { token }
    }

    /// The token that the client shows.
    pub fn token(&self) -> (token: &String)
        ensures
            token@ == self.spec_token(),
    {
        &self.token
    }

    /// The first message of the stream: the logon.
    pub fn logon(&self) -> (first: ExecutionLogonRequest)
        ensures
            first is Logon,
    {
        ExecutionLogonRequest::Logon
    }

    /// Loads the flow that is stored for `flow_id`: the value of the first
    /// key whose flow-id segment is that id, decoded. Gives nothing where no
    /// such key is stored or its value does not decode.
    pub fn load_validation_flow(&self, cache: &FlowCache, flow_id: i64) -> (flow: Option<
        ValidationFlow,
    >)
        ensures
            optional_flow_view(flow) == stored_flow(cache.pairs(), flow_id as int),
    {
        match cache.get_by_flow_id(flow_id) {
            Some(bytes) => ValidationFlow::decode(copy_bytes(bytes)),
            None => None,
        }
    }

    /// Says what is to be done for `request` under the correlation id
    /// `execution_identifier`, given the flow that is stored for it and what
    /// the check of its body found.
    pub fn plan(
        &self,
        flow: Option<ValidationFlow>,
        request: &TestExecutionRequest,
        violation: Option<ApplicationLog>,
        execution_identifier: String,
    ) -> (step: TestExecutionStep)
        ensures
            step@ == planned_step(
                optional_flow_view(flow),
                request.flow_id as int,
                bytes_view(request.body),
                optional_log_view(violation),
                execution_identifier@,
            ),
    {
        let flow = match flow {
            None => {
                return TestExecutionStep::Skip;
            },
            Some(flow) => flow,
        };
        if request.body.is_some() {
            if let Some(log) = violation {
                let mut logs: Vec<ApplicationLog> = Vec::new();
                logs.push(log);
                assert(log_messages(logs@) =~= seq![log.message@]);
                return TestExecutionStep::Respond(
                    TestExecutionResponse {
                        flow_id: request.flow_id,
                        execution_uuid: execution_identifier,
                        result: None,
                        logs,
                    },
                );
            }
        }
        TestExecutionStep::Execute(
            test_execution_request(&flow, &request.body, execution_identifier),
        )
    }

    /// Says what is to be done for `request`, under a fresh correlation id.
    pub fn handle_request(
        &self,
        cache: &FlowCache,
        request: &TestExecutionRequest,
        violation: Option<ApplicationLog>,
    ) -> (step: TestExecutionStep)
        ensures
            match step@ {
                TestExecutionStepView::Skip => stored_flow(cache.pairs(), request.flow_id as int)
                    is None,
                TestExecutionStepView::Respond(response) => is_execution_identifier(
                    response.execution_uuid,
                ) && step@ == planned_step(
                    stored_flow(cache.pairs(), request.flow_id as int),
                    request.flow_id as int,
                    bytes_view(request.body),
                    optional_log_view(violation),
                    response.execution_uuid,
                ),
                TestExecutionStepView::Execute(execution) => is_execution_identifier(
                    execution.execution_identifier,
                ) && step@ == planned_step(
                    stored_flow(cache.pairs(), request.flow_id as int),
                    request.flow_id as int,
                    bytes_view(request.body),
                    optional_log_view(violation),
                    execution.execution_identifier,
                ),
            },
    {
        let flow = self.load_validation_flow(cache, request.flow_id);
        let id = new_execution_identifier();
        self.plan(flow, request, violation, id)
    }

    /// Makes the response that carries the reply to the execution
    /// `execution_identifier` of the flow `flow_id`. The result goes back under
    /// the same correlation id; without a readable reply nothing goes back.
    pub fn handle_reply(&self, flow_id: i64, execution_identifier: String, reply: Option<Vec<u8>>) -> (response:
        Option<TestExecutionResponse>)
        ensures
            optional_response_view(response) == reply_response(
                flow_id as int,
                execution_identifier@,
                bytes_view(reply),
            ),
    {
        match reply {
            Some(value) => {
                let logs: Vec<ApplicationLog> = Vec::new();
                assert(log_messages(logs@) =~= Seq::<Seq<char>>::empty());
                Some(
                    TestExecutionResponse {
                        flow_id,
                        execution_uuid: execution_identifier,
                        result: Some(value),
                        logs,
                    },
                )
            },
            None => None,
        }
    }
}

} // verus!
