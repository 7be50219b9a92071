//! The flow synchronization engine: applies the change events that the remote
//! authority pushes to the local store, one by one and in arrival order, and
//! decides when the stream has to be opened again.
//!
//! The engine never ends by itself. A stream that breaks or ends is opened
//! again, and each new stream starts with a logon.

use vstd::prelude::*;
use crate::configuration::environment::Environment;
use crate::configuration::state::{ConnectionEvent, ReadinessGate};
use crate::flow::{flow_key, flow_views, get_flow_identifier, Flow, FlowView};
use crate::key::{holds_flow_id, lemma_flow_identifier_holds_its_id, separator};
use crate::store::{
    copy_bytes, distinct_keys, has_key, index_of, lemma_index_of, lemma_put_pair,
    lemma_retain_keys, lemma_retain_other_than, outside_flow, pairs_map, put_pair, retain_keys,
    FlowCache,
};

verus! {

/// One change that the remote authority announces.
#[derive(Debug, PartialEq, Eq)]
pub enum Data {
    /// Every stored variant of the flow with this id is to go.
    DeletedFlowId(i64),
    /// This flow is new or has changed.
    UpdatedFlow(Flow),
    /// These are all the flows there are.
    Flows(Vec<Flow>),
}

/// One message of the change stream; it may come without a change.
#[derive(Debug, PartialEq, Eq)]
pub struct FlowResponse {
    pub data: Option<Data>,
}

/// The pairs after `flow` is stored under its key.
pub open spec fn upsert(pairs: Seq<(Seq<char>, Seq<u8>)>, flow: FlowView) -> Seq<
    (Seq<char>, Seq<u8>),
> {
    put_pair(pairs, flow_key(flow), flow.definition)
}

/// The pairs after each of `flows` is stored, first to last.
pub open spec fn upsert_all(pairs: Seq<(Seq<char>, Seq<u8>)>, flows: Seq<FlowView>) -> Seq<
    (Seq<char>, Seq<u8>),
>
    decreases flows.len(),
{
    if flows.len() == 0 {
        pairs
    } else {
        upsert(upsert_all(pairs, flows.drop_last()), flows.last())
    }
}

/// The pairs that a snapshot of `flows` leaves: those flows stored into an
/// empty store.
pub open spec fn snapshot(flows: Seq<FlowView>) -> Seq<(Seq<char>, Seq<u8>)> {
    upsert_all(Seq::empty(), flows)
}

/// Whether the deletion of `flow_id` takes the key `key` out: it does exactly
/// if the flow-id segment of the key, the last of its four, is that id.
pub open spec fn deleted_with(flow_id: int, key: Seq<char>) -> bool {
    holds_flow_id(key, flow_id)
}

/// The pairs after every stored variant of the flow `flow_id` is taken out.
pub open spec fn without_flow(pairs: Seq<(Seq<char>, Seq<u8>)>, flow_id: int) -> Seq<
    (Seq<char>, Seq<u8>),
> {
    retain_keys(pairs, outside_flow(flow_id))
}

/// The pairs after every stored variant of each of `flow_ids` is taken out,
/// first to last.
pub open spec fn without_flows(pairs: Seq<(Seq<char>, Seq<u8>)>, flow_ids: Seq<i64>) -> Seq<
    (Seq<char>, Seq<u8>),
>
    decreases flow_ids.len(),
{
    if flow_ids.len() == 0 {
        pairs
    } else {
        without_flow(without_flows(pairs, flow_ids.drop_last()), flow_ids.last() as int)
    }
}

/// The pairs after one change.
pub open spec fn applied(pairs: Seq<(Seq<char>, Seq<u8>)>, data: Data) -> Seq<
    (Seq<char>, Seq<u8>),
> {
    match data {
        Data::DeletedFlowId(flow_id) => without_flow(pairs, flow_id as int),
        Data::UpdatedFlow(flow) => upsert(pairs, flow@),
        Data::Flows(flows) => snapshot(flow_views(flows@)),
    }
}

/// The pairs after one message of the stream: a message without a change
/// leaves them as they are.
pub open spec fn applied_response(
    pairs: Seq<(Seq<char>, Seq<u8>)>,
    response: FlowResponse,
) -> Seq<(Seq<char>, Seq<u8>)> {
    match response.data {
        Some(data) => applied(pairs, data),
        None => pairs,
    }
}

/// The pairs after a run of messages, applied in arrival order.
pub open spec fn applied_all(
    pairs: Seq<(Seq<char>, Seq<u8>)>,
    responses: Seq<FlowResponse>,
) -> Seq<(Seq<char>, Seq<u8>)>
    decreases responses.len(),
{
    if responses.len() == 0 {
        pairs
    } else {
        applied_response(applied_all(pairs, responses.drop_last()), responses.last())
    }
}

/// Whether one of `flows` has the key `key`.
pub open spec fn names_key(flows: Seq<FlowView>, key: Seq<char>) -> bool {
    exists|i: int| 0 <= i < flows.len() && flow_key(#[trigger] flows[i]) == key
}

/// Storing flows keeps the keys distinct.
pub proof fn lemma_upsert_all_distinct(pairs: Seq<(Seq<char>, Seq<u8>)>, flows: Seq<FlowView>)
    requires
        distinct_keys(pairs),
    ensures
        distinct_keys(upsert_all(pairs, flows)),
    decreases flows.len(),
{
    if flows.len() > 0 {
        lemma_upsert_all_distinct(pairs, flows.drop_last());
    }
}

/// Storing the same flow key twice leaves one entry under that key, and it
/// holds the contents that came second: the first store makes no difference
/// to what the second leaves.
pub proof fn lemma_upsert_twice(pairs: Seq<(Seq<char>, Seq<u8>)>, first: FlowView, second: FlowView)
    requires
        distinct_keys(pairs),
        flow_key(first) == flow_key(second),
    ensures
        upsert(upsert(pairs, first), second) == upsert(pairs, second),
        distinct_keys(upsert(upsert(pairs, first), second)),
        pairs_map(upsert(upsert(pairs, first), second)).contains_key(flow_key(second)),
        pairs_map(upsert(upsert(pairs, first), second))[flow_key(second)] == second.definition,
        upsert(upsert(pairs, first), second).len() == upsert(pairs, first).len(),
{
    let key = flow_key(first);
    let once = upsert(pairs, first);
    let twice = upsert(once, second);
    lemma_put_pair(pairs, key, first.definition);
    lemma_put_pair(pairs, key, second.definition);
    lemma_put_pair(once, key, second.definition);
    assert(pairs_map(once).contains_key(key));
    assert(has_key(once, key));
    if has_key(pairs, key) {
        let at = index_of(pairs, key);
        assert(once[at].0 == key);
        lemma_index_of(once, at);
        assert(twice =~= upsert(pairs, second));
    } else {
        let at = pairs.len() as int;
        assert(once[at].0 == key);
        lemma_index_of(once, at);
        assert(twice =~= upsert(pairs, second));
    }
}

/// Applying the same upsert twice gives what applying it once gives.
pub proof fn lemma_upsert_idempotent(pairs: Seq<(Seq<char>, Seq<u8>)>, flow: FlowView)
    requires
        distinct_keys(pairs),
    ensures
        upsert(upsert(pairs, flow), flow) == upsert(pairs, flow),
{
    lemma_upsert_twice(pairs, flow, flow);
}

/// What a snapshot holds: a key is stored exactly if one of the snapshot's
/// flows has it, and its value is the definition of the last such flow.
pub proof fn lemma_snapshot_contents(flows: Seq<FlowView>)
    ensures
        distinct_keys(snapshot(flows)),
        forall|k: Seq<char>| #[trigger]
            pairs_map(snapshot(flows)).contains_key(k) <==> names_key(flows, k),
        forall|i: int|
            0 <= i < flows.len() && (forall|j: int|
                i < j < flows.len() ==> flow_key(#[trigger] flows[j]) != flow_key(flows[i]))
                ==> pairs_map(snapshot(flows))[flow_key(#[trigger] flows[i])]
                == flows[i].definition,
    decreases flows.len(),
{
    let empty = Seq::<(Seq<char>, Seq<u8>)>::empty();
    if flows.len() == 0 {
        assert forall|k: Seq<char>| #[trigger]
            pairs_map(snapshot(flows)).contains_key(k) <==> names_key(flows, k) by {
            assert(!has_key(empty, k));
        }
    } else {
        let init = flows.drop_last();
        let last = flows.last();
        lemma_snapshot_contents(init);
        lemma_put_pair(snapshot(init), flow_key(last), last.definition);
        assert(snapshot(flows) == upsert(snapshot(init), last));
        assert forall|k: Seq<char>| #[trigger]
            pairs_map(snapshot(flows)).contains_key(k) <==> names_key(flows, k) by {
            if names_key(flows, k) {
                let i = choose|i: int| 0 <= i < flows.len() && flow_key(#[trigger] flows[i]) == k;
                if i < init.len() {
                    assert(init[i] == flows[i]);
                    assert(names_key(init, k));
                    assert(pairs_map(snapshot(init)).contains_key(k));
                }
            }
            if pairs_map(snapshot(flows)).contains_key(k) {
                if k == flow_key(last) {
                    assert(flow_key(flows[flows.len() - 1]) == k);
                } else {
                    assert(pairs_map(snapshot(init)).contains_key(k));
                    assert(names_key(init, k));
                    let i = choose|i: int| 0 <= i < init.len() && flow_key(#[trigger] init[i]) == k;
                    assert(flows[i] == init[i]);
                }
            }
        }
        assert forall|i: int|
            0 <= i < flows.len() && (forall|j: int|
                i < j < flows.len() ==> flow_key(#[trigger] flows[j]) != flow_key(
                    flows[i],
                )) implies pairs_map(snapshot(flows))[flow_key(#[trigger] flows[i])]
            == flows[i].definition by {
            if i < init.len() {
                assert(init[i] == flows[i]);
                assert(flow_key(flows[flows.len() - 1]) != flow_key(flows[i]));
                assert forall|j: int| i < j < init.len() implies flow_key(#[trigger] init[j])
                    != flow_key(init[i]) by {
                    assert(init[j] == flows[j]);
                }
            }
        }
    }
}

/// A snapshot replaces the store: what was stored before makes no difference,
/// and a key that none of the snapshot's flows has is not retrievable
/// afterwards.
pub proof fn lemma_snapshot_replaces(
    before: Seq<(Seq<char>, Seq<u8>)>,
    flows: Vec<Flow>,
    key: Seq<char>,
)
    ensures
        applied(before, Data::Flows(flows)) == snapshot(flow_views(flows@)),
        !names_key(flow_views(flows@), key) ==> !pairs_map(
            applied(before, Data::Flows(flows)),
        ).contains_key(key),
{
    lemma_snapshot_contents(flow_views(flows@));
}

/// What a deletion by flow id does: it takes out exactly the keys whose
/// flow-id segment is the id, whatever their type, slug and project; every
/// other key stays, with its value.
pub proof fn lemma_delete_by_flow_id(pairs: Seq<(Seq<char>, Seq<u8>)>, flow_id: int)
    requires
        distinct_keys(pairs),
    ensures
        distinct_keys(without_flow(pairs, flow_id)),
        pairs_map(without_flow(pairs, flow_id)) == pairs_map(pairs).remove_keys(
            Set::new(|k: Seq<char>| deleted_with(flow_id, k)),
        ),
        forall|k: Seq<char>|
            deleted_with(flow_id, k) ==> !(#[trigger] pairs_map(
                without_flow(pairs, flow_id),
            ).contains_key(k)),
        forall|k: Seq<char>|
            pairs_map(pairs).contains_key(k) && !deleted_with(flow_id, k) ==> (#[trigger] pairs_map(
                without_flow(pairs, flow_id),
            ).contains_key(k)) && pairs_map(without_flow(pairs, flow_id))[k] == pairs_map(
                pairs,
            )[k],
{
    lemma_retain_keys(pairs, outside_flow(flow_id));
}

/// Which flows a deletion reaches: a flow stored under its own key, with a
/// type and a slug that hold no separator, goes with the deletion of `flow_id`
/// exactly if `flow_id` is its id.
pub proof fn lemma_deletion_goes_by_flow_id(flow_id: int, flow: FlowView)
    requires
        !flow.flow_type.contains(separator()),
        !flow.project_slug.contains(separator()),
    ensures
        deleted_with(flow_id, flow_key(flow)) <==> flow.flow_id == flow_id,
{
    lemma_flow_identifier_holds_its_id(
        flow.flow_type,
        flow.project_slug,
        flow.project_id,
        flow.flow_id,
        flow_id,
    );
}

/// Deleting a flow's id undoes storing the flow: after both, the flow's key
/// is not retrievable, and every key of another flow id that was stored
/// before is still there with its value.
pub proof fn lemma_delete_undoes_insert(pairs: Seq<(Seq<char>, Seq<u8>)>, flow: FlowView)
    requires
        distinct_keys(pairs),
        !flow.flow_type.contains(separator()),
        !flow.project_slug.contains(separator()),
    ensures
        !pairs_map(without_flow(upsert(pairs, flow), flow.flow_id)).contains_key(flow_key(flow)),
        forall|k: Seq<char>|
            pairs_map(pairs).contains_key(k) && !deleted_with(flow.flow_id, k) ==> (
            #[trigger] pairs_map(without_flow(upsert(pairs, flow), flow.flow_id)).contains_key(k))
                && pairs_map(without_flow(upsert(pairs, flow), flow.flow_id))[k] == pairs_map(
                pairs,
            )[k],
{
    lemma_deletion_goes_by_flow_id(flow.flow_id, flow);
    lemma_put_pair(pairs, flow_key(flow), flow.definition);
    lemma_delete_by_flow_id(upsert(pairs, flow), flow.flow_id);
}

/// What a deletion of several flow ids does: a key stays exactly if it was
/// stored and none of the ids is its flow id, and a key that stays keeps its
/// value. An id of which nothing is stored makes no difference.
pub proof fn lemma_delete_flows(pairs: Seq<(Seq<char>, Seq<u8>)>, flow_ids: Seq<i64>)
    requires
        distinct_keys(pairs),
    ensures
        distinct_keys(without_flows(pairs, flow_ids)),
        forall|k: Seq<char>| #[trigger]
            pairs_map(without_flows(pairs, flow_ids)).contains_key(k) <==> (pairs_map(
                pairs,
            ).contains_key(k) && forall|i: int|
                0 <= i < flow_ids.len() ==> !deleted_with(#[trigger] flow_ids[i] as int, k)),
        forall|k: Seq<char>| #[trigger]
            pairs_map(without_flows(pairs, flow_ids)).contains_key(k) ==> pairs_map(
                without_flows(pairs, flow_ids),
            )[k] == pairs_map(pairs)[k],
    decreases flow_ids.len(),
{
    if flow_ids.len() > 0 {
        let init = flow_ids.drop_last();
        let last = flow_ids.last() as int;
        lemma_delete_flows(pairs, init);
        lemma_delete_by_flow_id(without_flows(pairs, init), last);
        assert forall|k: Seq<char>| #[trigger]
            pairs_map(without_flows(pairs, flow_ids)).contains_key(k) <==> (pairs_map(
                pairs,
            ).contains_key(k) && forall|i: int|
                0 <= i < flow_ids.len() ==> !deleted_with(#[trigger] flow_ids[i] as int, k)) by {
            let before = pairs_map(without_flows(pairs, init));
            if before.contains_key(k) && !deleted_with(last, k) {
                assert forall|i: int| 0 <= i < flow_ids.len() implies !deleted_with(
                    #[trigger] flow_ids[i] as int,
                    k,
                ) by {
                    if i < init.len() {
                        assert(init[i] == flow_ids[i]);
                    }
                }
            }
            if pairs_map(pairs).contains_key(k) && forall|i: int|
                0 <= i < flow_ids.len() ==> !deleted_with(#[trigger] flow_ids[i] as int, k) {
                assert forall|i: int| 0 <= i < init.len() implies !deleted_with(
                    #[trigger] init[i] as int,
                    k,
                ) by {
                    assert(init[i] == flow_ids[i]);
                }
                assert(!deleted_with(flow_ids[flow_ids.len() - 1] as int, k));
            }
        }
    }
}

/// An upsert that follows a snapshot is visible: whatever was stored before
/// the two, afterwards the flow's key holds the flow's definition.
pub proof fn lemma_upsert_after_snapshot(
    before: Seq<(Seq<char>, Seq<u8>)>,
    flows: Vec<Flow>,
    flow: Flow,
)
    ensures
        pairs_map(
            applied_all(
                before,
                seq![
                    FlowResponse { data: Some(Data::Flows(flows)) },
                    FlowResponse { data: Some(Data::UpdatedFlow(flow)) },
                ],
            ),
        ).contains_key(flow_key(flow@)),
        pairs_map(
            applied_all(
                before,
                seq![
                    FlowResponse { data: Some(Data::Flows(flows)) },
                    FlowResponse { data: Some(Data::UpdatedFlow(flow)) },
                ],
            ),
        )[flow_key(flow@)] == flow@.definition,
{
    let first = FlowResponse { data: Some(Data::Flows(flows)) };
    let second = FlowResponse { data: Some(Data::UpdatedFlow(flow)) };
    let both = seq![first, second];
    assert(both.drop_last() =~= seq![first]);
    assert(applied_all(before, seq![first]) == snapshot(flow_views(flows@)));
    lemma_snapshot_contents(flow_views(flows@));
    lemma_put_pair(snapshot(flow_views(flows@)), flow_key(flow@), flow@.definition);
}

/// Stores `flow` under its key, over whatever the key held.
pub fn insert_flow(cache: &mut FlowCache, flow: &Flow)
    ensures
        final(cache).pairs() == upsert(old(cache).pairs(), flow@),
        final(cache)@ == old(cache)@.insert(flow_key(flow@), flow@.definition),
{
    let key = get_flow_identifier(flow);
    cache.put(key, copy_bytes(&flow.definition));
}

/// Stores each of `flows` under its key, first to last.
pub fn insert_flows(cache: &mut FlowCache, flows: &Vec<Flow>)
    ensures
        final(cache).pairs() == upsert_all(old(cache).pairs(), flow_views(flows@)),
{
    let ghost all = flow_views(flows@);
    let mut i: usize = 0;
    while i < flows.len()
        invariant
            i <= flows.len(),
            all == flow_views(flows@),
            cache.pairs() == upsert_all(old(cache).pairs(), all.subrange(0, i as int)),
        decreases flows.len() - i,
    {
        assert(all.subrange(0, i + 1).drop_last() =~= all.subrange(0, i as int));
        insert_flow(cache, &flows[i]);
        i = i + 1;
    }
    assert(all.subrange(0, flows.len() as int) =~= all);
}

/// Takes out every stored variant of the flow `flow_id`: the keys whose
/// flow-id segment is that id, whatever their type, slug and project. Returns
/// how many there were.
pub fn delete_flow(cache: &mut FlowCache, flow_id: i64) -> (removed: usize)
    ensures
        final(cache).pairs() == without_flow(old(cache).pairs(), flow_id as int),
        final(cache)@ == old(cache)@.remove_keys(
            Set::new(|k: Seq<char>| deleted_with(flow_id as int, k)),
        ),
        removed == old(cache).pairs().len() - final(cache).pairs().len(),
{
    cache.delete_by_flow_id(flow_id)
}

/// Takes out every stored variant of each of the flows `flow_ids`.
pub fn delete_flows(cache: &mut FlowCache, flow_ids: &Vec<i64>)
    ensures
        final(cache).pairs() == without_flows(old(cache).pairs(), flow_ids@),
{
    let mut i: usize = 0;
    while i < flow_ids.len()
        invariant
            i <= flow_ids.len(),
            cache.pairs() == without_flows(old(cache).pairs(), flow_ids@.subrange(0, i as int)),
        decreases flow_ids.len() - i,
    {
        assert(flow_ids@.subrange(0, i + 1).drop_last() =~= flow_ids@.subrange(0, i as int));
        delete_flow(cache, flow_ids[i]);
        i = i + 1;
    }
    assert(flow_ids@.subrange(0, flow_ids.len() as int) =~= flow_ids@);
}

/// Takes out every key that is stored, one by one, and says how many went.
pub fn purge_all(cache: &mut FlowCache) -> (purged: usize)
    ensures
        final(cache).pairs() == Seq::<(Seq<char>, Seq<u8>)>::empty(),
        purged == old(cache).pairs().len(),
{
    let keys = cache.keys();
    let ghost before = cache.pairs();
    let mut purged: usize = 0;
    let mut i: usize = 0;
    while i < keys.len()
        invariant
            i <= keys.len(),
            purged == i,
            keys@.len() == before.len(),
            distinct_keys(before),
            forall|j: int| 0 <= j < keys@.len() ==> (#[trigger] keys@[j])@ == before[j].0,
            cache.pairs() == before.subrange(i as int, before.len() as int),
        decreases keys.len() - i,
    {
        let ghost current = cache.pairs();
        cache.delete(&keys[i]);
        proof {
            lemma_retain_other_than(current, 0);
        }
        purged = purged + 1;
        i = i + 1;
    }
    purged
}

/// Applies one message of the change stream to the store.
///
/// A snapshot takes out every stored key and then stores each of its flows; an
/// updated flow is stored under its key; a deleted flow id takes out every
/// key whose flow-id segment is that id. A message without a change does
/// nothing.
pub fn handle_response(cache: &mut FlowCache, response: &FlowResponse)
    ensures
        final(cache).pairs() == applied_response(old(cache).pairs(), *response),
{
    match &response.data {
        None => {},
        Some(Data::DeletedFlowId(flow_id)) => {
            delete_flow(cache, *flow_id);
        },
        Some(Data::UpdatedFlow(flow)) => {
            insert_flow(cache, flow);
        },
        Some(Data::Flows(flows)) => {
            purge_all(cache);
            insert_flows(cache, flows);
        },
    }
}

/// Whether a message is to be written to the snapshot file as well: it is
/// exactly if it carries a snapshot and the node runs in development.
pub open spec fn is_kept_on_file(environment: Environment, response: FlowResponse) -> bool {
    environment == Environment::Development && response.data matches Some(Data::Flows(_))
}

/// Whether `response` is to be written to the snapshot file as well, so that
/// a later start can take its flows from there.
pub fn keeps_on_file(environment: Environment, response: &FlowResponse) -> (kept: bool)
    ensures
        kept == is_kept_on_file(environment, *response),
{
    match &response.data {
        Some(Data::Flows(_)) => environment == Environment::Development,
        _ => false,
    }
}

/// Applies a run of messages in arrival order.
pub fn handle_responses(cache: &mut FlowCache, responses: &Vec<FlowResponse>)
    ensures
        final(cache).pairs() == applied_all(old(cache).pairs(), responses@),
{
    let mut i: usize = 0;
    while i < responses.len()
        invariant
            i <= responses.len(),
            cache.pairs() == applied_all(old(cache).pairs(), responses@.subrange(0, i as int)),
        decreases responses.len() - i,
    {
        assert(responses@.subrange(0, i + 1).drop_last() =~= responses@.subrange(0, i as int));
        handle_response(cache, &responses[i]);
        i = i + 1;
    }
    assert(responses@.subrange(0, responses.len() as int) =~= responses@);
}

/// Where the change stream stands.
#[derive(Clone, Copy, Debug, PartialEq, Eq, Structural)]
pub enum StreamPhase {
    /// Nothing has been started.
    Idle,
    /// A connection is being made.
    Connecting,
    /// The stream is open and changes are read from it.
    Streaming,
}

/// What the transport reports to the engine.
#[derive(Debug, PartialEq, Eq)]
pub enum StreamInput {
    /// The connection stands.
    Connected,
    /// The connection could not be made.
    ConnectFailed,
    /// A message arrived on the stream.
    Message(FlowResponse),
    /// Reading the stream failed.
    StreamFailed,
    /// The stream ended.
    StreamEnded,
}

/// What the engine asks the transport to do next.
#[derive(Clone, Copy, Debug, PartialEq, Eq, Structural)]
pub enum StreamAction {
    /// Connect to the authority, waiting as the retry policy says.
    Connect,
    /// Send the logon with the token, then read the first message.
    Logon,
    /// Read the next message.
    Receive,
}

/// The phase after an input.
pub open spec fn next_stream_phase(phase: StreamPhase, input: StreamInput) -> StreamPhase {
    match (phase, input) {
        (StreamPhase::Connecting, StreamInput::Connected) => StreamPhase::Streaming,
        (StreamPhase::Streaming, StreamInput::Message(_)) => StreamPhase::Streaming,
        (StreamPhase::Streaming, StreamInput::Connected) => StreamPhase::Streaming,
        (StreamPhase::Streaming, StreamInput::ConnectFailed) => StreamPhase::Streaming,
        _ => StreamPhase::Connecting,
    }
}

/// What is asked for after an input.
pub open spec fn next_stream_action(phase: StreamPhase, input: StreamInput) -> StreamAction {
    match (phase, input) {
        (StreamPhase::Connecting, StreamInput::Connected) => StreamAction::Logon,
        (StreamPhase::Streaming, StreamInput::Message(_)) => StreamAction::Receive,
        (StreamPhase::Streaming, StreamInput::Connected) => StreamAction::Receive,
        (StreamPhase::Streaming, StreamInput::ConnectFailed) => StreamAction::Receive,
        _ => StreamAction::Connect,
    }
}

/// The stored pairs after an input: only a message that arrives on the open
/// stream changes them.
pub open spec fn pairs_after_input(
    pairs: Seq<(Seq<char>, Seq<u8>)>,
    phase: StreamPhase,
    input: StreamInput,
) -> Seq<(Seq<char>, Seq<u8>)> {
    match (phase, input) {
        (StreamPhase::Streaming, StreamInput::Message(response)) => applied_response(
            pairs,
            response,
        ),
        _ => pairs,
    }
}

/// Whether the authority counts as reachable after an input: it does once a
/// connection that was being made stands, and no longer once a stream broke
/// or ended or a connection could not be made. Nothing else changes it.
pub open spec fn ready_after_input(ready: bool, phase: StreamPhase, input: StreamInput) -> bool {
    match (phase, input) {
        (StreamPhase::Connecting, StreamInput::Connected) => true,
        (_, StreamInput::StreamFailed) => false,
        (_, StreamInput::StreamEnded) => false,
        (_, StreamInput::ConnectFailed) => false,
        _ => ready,
    }
}

/// No failure ends the engine: after a stream that broke or ended, and after
/// a connection that could not be made, the engine connects again, and the
/// next connection that stands is followed by a logon.
pub proof fn lemma_stream_is_resumed(phase: StreamPhase)
    ensures
        phase != StreamPhase::Streaming ==> next_stream_action(phase, StreamInput::ConnectFailed)
            == StreamAction::Connect,
        next_stream_phase(phase, StreamInput::StreamFailed) == StreamPhase::Connecting,
        next_stream_action(phase, StreamInput::StreamFailed) == StreamAction::Connect,
        next_stream_phase(phase, StreamInput::StreamEnded) == StreamPhase::Connecting,
        next_stream_action(phase, StreamInput::StreamEnded) == StreamAction::Connect,
        next_stream_phase(StreamPhase::Connecting, StreamInput::Connected)
            == StreamPhase::Streaming,
        next_stream_action(StreamPhase::Connecting, StreamInput::Connected)
            == StreamAction::Logon,
        !ready_after_input(true, phase, StreamInput::StreamFailed),
        !ready_after_input(true, phase, StreamInput::StreamEnded),
        ready_after_input(false, StreamPhase::Connecting, StreamInput::Connected),
{
}

/// The client of the authority's change stream.
#[derive(Debug, PartialEq, Eq)]
pub struct SagittariusFlowClient {
    token: String,
    phase: StreamPhase,
}

impl SagittariusFlowClient {
    /// Where the stream stands.
    pub closed spec fn phase(&self) -> StreamPhase {
        self.phase
    }

    /// The token that each logon carries.
    pub closed spec fn spec_token(&self) -> Seq<char> {
        self.token@
    }

    /// A client that logs on with `token`; nothing is started yet.
    pub fn new(token: String) -> (client: Self)
        ensures
            client.phase() == StreamPhase::Idle,
            client.spec_token() == token@,
    {
        SagittariusFlowClient { token, phase: StreamPhase::Idle }
    }

    /// The token that each logon carries.
    pub fn token(&self) -> (token: &String)
        ensures
            token@ == self.spec_token(),
    {
        &self.token
    }

    /// Where the stream stands.
    pub fn current_phase(&self) -> (phase: StreamPhase)
        ensures
            phase == self.phase(),
    {
        self.phase
    }

    /// Starts the stream: the first thing to do is to connect.
    pub fn init_flow_stream(&mut self) -> (action: StreamAction)
        ensures
            final(self).phase() == StreamPhase::Connecting,
            final(self).spec_token() == old(self).spec_token(),
            action == StreamAction::Connect,
    {
        self.phase = StreamPhase::Connecting;
        StreamAction::Connect
    }

    /// Takes what the transport reports and says what to do next. A message
    /// that arrives on the open stream is applied to the store; nothing else
    /// touches the store. The readiness of the authority follows the
    /// connection: ready once it stands, not ready once it is lost.
    pub fn step(
        &mut self,
        cache: &mut FlowCache,
        gate: &mut ReadinessGate,
        input: &StreamInput,
    ) -> (action: StreamAction)
        ensures
            final(self).spec_token() == old(self).spec_token(),
            final(self).phase() == next_stream_phase(old(self).phase(), *input),
            action == next_stream_action(old(self).phase(), *input),
            final(cache).pairs() == pairs_after_input(
                old(cache).pairs(),
                old(self).phase(),
                *input,
            ),
            final(gate).ready() == ready_after_input(old(gate).ready(), old(self).phase(), *input),
    {
        match input {
            StreamInput::StreamFailed => gate.observe(ConnectionEvent::TornDown),
            StreamInput::StreamEnded => gate.observe(ConnectionEvent::TornDown),
            StreamInput::ConnectFailed => gate.observe(ConnectionEvent::AttemptFailed),
            _ => {},
        }
        match self.phase {
            StreamPhase::Connecting => match input {
                StreamInput::Connected => {
                    gate.observe(ConnectionEvent::Connected);
                    self.phase = StreamPhase::Streaming;
                    StreamAction::Logon
                },
                _ => StreamAction::Connect,
            },
            StreamPhase::Streaming => match input {
                StreamInput::Message(response) => {
                    handle_response(cache, response);
                    StreamAction::Receive
                },
                StreamInput::Connected => StreamAction::Receive,
                StreamInput::ConnectFailed => StreamAction::Receive,
                _ => {
                    self.phase = StreamPhase::Connecting;
                    StreamAction::Connect
                },
            },
            StreamPhase::Idle => {
                self.phase = StreamPhase::Connecting;
                StreamAction::Connect
            },
        }
    }
}

} // verus!
