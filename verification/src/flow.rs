//! Flows as this node holds them. A `Flow` is the record that the remote
//! authority sends: the fields that its key is built from, next to its
//! encoded definition, which is stored and handed on untouched. A
//! `ValidationFlow` is what an encoded definition decodes to, as far as an
//! execution needs it.

use vstd::prelude::*;
use crate::key::{compose_flow_identifier, flow_identifier};
use crate::store::copy_bytes;

verus! {

/// A flow as the remote authority sends it.
#[derive(Debug, PartialEq, Eq)]
pub struct Flow {
    /// The id that the authority gave the flow.
    pub flow_id: i64,
    /// The project that the flow belongs to.
    pub project_id: i64,
    /// The kind of trigger that starts the flow.
    pub flow_type: String,
    /// The short name of the project.
    pub project_slug: String,
    /// The whole flow in its encoded form.
    pub definition: Vec<u8>,
}

/// What a `Flow` is in contracts.
pub struct FlowView {
    pub flow_id: int,
    pub project_id: int,
    pub flow_type: Seq<char>,
    pub project_slug: Seq<char>,
    pub definition: Seq<u8>,
}

impl View for Flow {
    type V = FlowView;

    open spec fn view(&self) -> FlowView {
        FlowView {
            flow_id: self.flow_id as int,
            project_id: self.project_id as int,
            flow_type: self.flow_type@,
            project_slug: self.project_slug@,
            definition: self.definition@,
        }
    }
}

/// The part of a stored flow that is needed to execute it.
#[derive(Debug, PartialEq, Eq)]
pub struct ValidationFlow {
    pub flow_id: i64,
    pub project_id: i64,
    /// The node at which execution starts.
    pub starting_node_id: i64,
    /// The encoded flow that these fields were read from.
    pub definition: Vec<u8>,
}

/// What a `ValidationFlow` is in contracts.
pub struct ValidationFlowView {
    pub flow_id: int,
    pub project_id: int,
    pub starting_node_id: int,
    pub definition: Seq<u8>,
}

impl View for ValidationFlow {
    type V = ValidationFlowView;

    open spec fn view(&self) -> ValidationFlowView {
        ValidationFlowView {
            flow_id: self.flow_id as int,
            project_id: self.project_id as int,
            starting_node_id: self.starting_node_id as int,
            definition: self.definition@,
        }
    }
}

/// A flow made ready for one execution: what the executor needs of the flow,
/// and the value that the execution starts from.
#[derive(Debug, PartialEq, Eq)]
pub struct ExecutionFlow {
    pub flow_id: i64,
    pub project_id: i64,
    pub starting_node_id: i64,
    /// The encoded flow that the execution runs.
    pub definition: Vec<u8>,
    /// The encoded input value, where the trigger brought one.
    pub input_value: Option<Vec<u8>>,
}

/// What an `ExecutionFlow` is in contracts.
pub struct ExecutionFlowView {
    pub flow_id: int,
    pub project_id: int,
    pub starting_node_id: int,
    pub definition: Seq<u8>,
    pub input_value: Option<Seq<u8>>,
}

/// The view of an optional byte string.
pub open spec fn bytes_view(bytes: Option<Vec<u8>>) -> Option<Seq<u8>> {
    match bytes {
        Some(b) => Some(b@),
        None => None,
    }
}

impl View for ExecutionFlow {
    type V = ExecutionFlowView;

    open spec fn view(&self) -> ExecutionFlowView {
        ExecutionFlowView {
            flow_id: self.flow_id as int,
            project_id: self.project_id as int,
            starting_node_id: self.starting_node_id as int,
            definition: self.definition@,
            input_value: bytes_view(self.input_value),
        }
    }
}

/// The key under which a flow is stored.
pub open spec fn flow_key(flow: FlowView) -> Seq<char> {
    flow_identifier(flow.flow_type, flow.project_slug, flow.project_id, flow.flow_id)
}

/// The execution of `flow` on `input_value`.
pub open spec fn execution_of(
    flow: ValidationFlowView,
    input_value: Option<Seq<u8>>,
) -> ExecutionFlowView {
    ExecutionFlowView {
        flow_id: flow.flow_id,
        project_id: flow.project_id,
        starting_node_id: flow.starting_node_id,
        definition: flow.definition,
        input_value,
    }
}

/// The views of a list of flows.
pub open spec fn flow_views(flows: Seq<Flow>) -> Seq<FlowView> {
    Seq::new(flows.len(), |i: int| flows[i]@)
}

/// What the protobuf decoding of `bytes` as a validation flow yields: the
/// flow id, the project id and the starting node id, in this order; `None`
/// where the bytes are no such message.
pub uninterp spec fn decoded_ids(bytes: Seq<u8>) -> Option<(int, int, int)>;

/// The flow that `bytes` decode to: the decoded ids beside the bytes
/// themselves.
pub open spec fn decoded_flow(bytes: Seq<u8>) -> Option<ValidationFlowView> {
    match decoded_ids(bytes) {
        Some(ids) => Some(
            ValidationFlowView {
                flow_id: ids.0,
                project_id: ids.1,
                starting_node_id: ids.2,
                definition: bytes,
            },
        ),
        None => None,
    }
}

/// `prost::Message::decode` for `tucana::shared::ValidationFlow`: reads
/// `bytes` as that protobuf message and hands out its flow id, project id and
/// starting node id, or nothing where decoding fails. The result depends on
/// the bytes alone.
#[verifier::external_body]
fn decode_ids(bytes: &Vec<u8>) -> (ids: Option<(i64, i64, i64)>)
    ensures
        match ids {
            Some(f) => decoded_ids(bytes@) == Some((f.0 as int, f.1 as int, f.2 as int)),
            None => decoded_ids(bytes@) is None,
        },
{
    let decoded: Result<tucana::shared::ValidationFlow, prost::DecodeError> =
        prost::Message::decode(bytes.as_slice());
    match decoded {
        Ok(m) => Some((m.flow_id, m.project_id, m.starting_node_id)),
        Err(_) => None,
    }
}

impl ValidationFlow {
    /// Reads an encoded flow. Succeeds exactly where the bytes decode as a
    /// validation flow; the result keeps the bytes as its definition.
    pub fn decode(bytes: Vec<u8>) -> (flow: Option<ValidationFlow>)
        ensures
            match flow {
                Some(f) => decoded_flow(bytes@) == Some(f@),
                None => decoded_flow(bytes@) is None,
            },
    {
        match decode_ids(&bytes) {
            Some(ids) => Some(
                ValidationFlow {
                    flow_id: ids.0,
                    project_id: ids.1,
                    starting_node_id: ids.2,
                    definition: bytes,
                },
            ),
            None => None,
        }
    }
}

/// The key of `flow` in the store: `type.project_slug.project_id.flow_id`.
pub fn get_flow_identifier(flow: &Flow) -> (key: String)
    ensures
        key@ == flow_key(flow@),
{
    compose_flow_identifier(&flow.flow_type, &flow.project_slug, flow.project_id, flow.flow_id)
}

/// Makes the execution of `flow` on `input_value`: the ids and the definition
/// come from the flow, the input from the trigger.
pub fn convert_validation_flow(flow: ValidationFlow, input_value: Option<Vec<u8>>) -> (execution:
    ExecutionFlow)
    ensures
        execution@ == execution_of(flow@, bytes_view(input_value)),
{
    ExecutionFlow {
        flow_id: flow.flow_id,
        project_id: flow.project_id,
        starting_node_id: flow.starting_node_id,
        definition: flow.definition,
        input_value,
    }
}

/// A copy of an optional byte string.
pub fn copy_optional_bytes(bytes: &Option<Vec<u8>>) -> (copy: Option<Vec<u8>>)
    ensures
        bytes_view(copy) == bytes_view(*bytes),
{
    match bytes {
        Some(b) => Some(copy_bytes(b)),
        None => None,
    }
}

} // verus!
