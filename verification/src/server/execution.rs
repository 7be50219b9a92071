//! Execution requests: a flow made ready for one run, addressed by a
//! correlation id that no other request shares.

use vstd::prelude::*;
use vstd::string::StringExecFns;
use crate::flow::{
    bytes_view, convert_validation_flow, copy_optional_bytes, execution_of, ExecutionFlow,
    ExecutionFlowView, ValidationFlow, ValidationFlowView,
};
use crate::key::{lemma_segments_append, lemma_segments_of_plain, segments, separator};
use crate::store::copy_bytes;
use crate::text::push_text;

verus! {

/// Whether `c` is a digit of a lower-case hexadecimal number, or a hyphen.
pub open spec fn is_identifier_char(c: char) -> bool {
    ||| c == '-'
    ||| c == '0'
    ||| c == '1'
    ||| c == '2'
    ||| c == '3'
    ||| c == '4'
    ||| c == '5'
    ||| c == '6'
    ||| c == '7'
    ||| c == '8'
    ||| c == '9'
    ||| c == 'a'
    ||| c == 'b'
    ||| c == 'c'
    ||| c == 'd'
    ||| c == 'e'
    ||| c == 'f'
}

/// The shape of a correlation id: 36 characters, each a lower-case
/// hexadecimal digit or a hyphen.
pub open spec fn is_execution_identifier(id: Seq<char>) -> bool {
    &&& id.len() == 36
    &&& forall|i: int| 0 <= i < id.len() ==> is_identifier_char(#[trigger] id[i])
}

/// `Uuid::new_v4` of the uuid crate, written out by `to_string`: a random
/// version-4 UUID in its hyphenated lower-case form. Nothing is claimed of
/// which one comes; the crate stops the process where the operating system
/// gives it no random bytes.
#[verifier::external_body]
fn random_identifier() -> (id: String)
    ensures
        is_execution_identifier(id@),
{
    uuid::Uuid::new_v4().to_string()
}

/// A fresh correlation id.
pub fn new_execution_identifier() -> (id: String)
    ensures
        is_execution_identifier(id@),
{
    random_identifier()
}

/// The topic on which the execution `id` is requested: `execution.` and the
/// id.
pub open spec fn execution_topic(id: Seq<char>) -> Seq<char> {
    "execution"@ + seq![separator()] + id
}

/// The topic on which the test execution `id` is requested:
/// `test_execution.` and the id.
pub open spec fn test_execution_topic(id: Seq<char>) -> Seq<char> {
    "test_execution"@ + seq![separator()] + id
}

/// The request to run a flow once.
#[derive(Debug, PartialEq, Eq)]
pub struct ExecutionRequest {
    /// The correlation id of this run.
    pub execution_identifier: String,
    /// The topic that the request is published on.
    pub topic: String,
    /// What is to be run.
    pub flow: ExecutionFlow,
}

/// What an `ExecutionRequest` is in contracts.
pub struct ExecutionRequestView {
    pub execution_identifier: Seq<char>,
    pub topic: Seq<char>,
    pub flow: ExecutionFlowView,
}

impl View for ExecutionRequest {
    type V = ExecutionRequestView;

    open spec fn view(&self) -> ExecutionRequestView {
        ExecutionRequestView {
            execution_identifier: self.execution_identifier@,
            topic: self.topic@,
            flow: self.flow@,
        }
    }
}

/// The request that runs `flow` on `payload` under the correlation id `id`.
pub open spec fn requested(
    flow: ValidationFlowView,
    payload: Option<Seq<u8>>,
    id: Seq<char>,
) -> ExecutionRequestView {
    ExecutionRequestView {
        execution_identifier: id,
        topic: execution_topic(id),
        flow: execution_of(flow, payload),
    }
}

/// The request that runs `flow` on `body` as a test, under the correlation id
/// `id`.
pub open spec fn test_requested(
    flow: ValidationFlowView,
    body: Option<Seq<u8>>,
    id: Seq<char>,
) -> ExecutionRequestView {
    ExecutionRequestView {
        execution_identifier: id,
        topic: test_execution_topic(id),
        flow: execution_of(flow, body),
    }
}

/// A correlation id holds no separator, so a topic made with it has exactly
/// two segments: the channel's name and the id.
pub proof fn lemma_topic_segments(id: Seq<char>)
    requires
        is_execution_identifier(id),
    ensures
        !id.contains(separator()),
        segments(execution_topic(id)) == seq!["execution"@, id],
        segments(test_execution_topic(id)) == seq!["test_execution"@, id],
{
    reveal_strlit("execution");
    reveal_strlit("test_execution");
    if id.contains(separator()) {
        let i = choose|i: int| 0 <= i < id.len() && id[i] == separator();
        assert(is_identifier_char(id[i]));
    }
    let e = "execution"@;
    let t = "test_execution"@;
    assert(!e.contains(separator())) by {
        if e.contains(separator()) {
            let i = choose|i: int| 0 <= i < e.len() && e[i] == separator();
            assert(e[i] != '.');
        }
    }
    assert(!t.contains(separator())) by {
        if t.contains(separator()) {
            let i = choose|i: int| 0 <= i < t.len() && t[i] == separator();
            assert(t[i] != '.');
        }
    }
    lemma_segments_of_plain(e);
    lemma_segments_of_plain(t);
    lemma_segments_append(e, id);
    lemma_segments_append(t, id);
    assert(seq![e].push(id) =~= seq![e, id]);
    assert(seq![t].push(id) =~= seq![t, id]);
}

fn copy_flow(flow: &ValidationFlow) -> (copy: ValidationFlow)
    ensures
        copy@ == flow@,
{
    ValidationFlow {
        flow_id: flow.flow_id,
        project_id: flow.project_id,
        starting_node_id: flow.starting_node_id,
        definition: copy_bytes(&flow.definition),
    }
}

/// Makes the request that runs `flow` on `payload` under the correlation id
/// `execution_identifier`, for the topic `execution.<id>`.
pub fn execution_request(
    flow: &ValidationFlow,
    payload: &Option<Vec<u8>>,
    execution_identifier: String,
) -> (request: ExecutionRequest)
    ensures
        request@ == requested(flow@, bytes_view(*payload), execution_identifier@),
{
    proof {
        reveal_strlit(".");
    }
    let mut topic = String::from_str("execution");
    topic.append(".");
    push_text(&mut topic, &execution_identifier);
    assert(topic@ =~= execution_topic(execution_identifier@));
    let input = copy_optional_bytes(payload);
    ExecutionRequest {
        execution_identifier,
        topic,
        flow: convert_validation_flow(copy_flow(flow), input),
    }
}

/// Makes the request that runs `flow` on `body` as a test under the
/// correlation id `execution_identifier`, for the topic
/// `test_execution.<id>`.
pub fn test_execution_request(
    flow: &ValidationFlow,
    body: &Option<Vec<u8>>,
    execution_identifier: String,
) -> (request: ExecutionRequest)
    ensures
        request@ == test_requested(flow@, bytes_view(*body), execution_identifier@),
{
    proof {
        reveal_strlit(".");
    }
    let mut topic = String::from_str("test_execution");
    topic.append(".");
    push_text(&mut topic, &execution_identifier);
    assert(topic@ =~= test_execution_topic(execution_identifier@));
    let input = copy_optional_bytes(body);
    ExecutionRequest {
        execution_identifier,
        topic,
        flow: convert_validation_flow(copy_flow(flow), input),
    }
}

} // verus!
