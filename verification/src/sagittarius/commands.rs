//! Changes written out as commands for a key-value store that lives outside
//! this process. A change becomes a short program of puts and purges; run on
//! a store, in order, it leaves what applying the change leaves.

use vstd::prelude::*;
use crate::flow::{flow_key, flow_views, get_flow_identifier, FlowView};
use crate::key::{holds_flow_id, is_key_of_flow};
use crate::sagittarius::flow_client::{applied_response, upsert_all, Data, FlowResponse};
use crate::store::{
    both, copy_bytes, keys_of, lemma_retain_agree, lemma_retain_all_or_none, lemma_retain_twice,
    other_than, outside_flow, put_pair, retain_keys, FlowCache,
};

verus! {

/// One command to a key-value store.
#[derive(Debug, PartialEq, Eq)]
pub enum StoreCommand {
    /// Store `value` under `key`, over whatever the key held.
    Put { key: String, value: Vec<u8> },
    /// Take out `key`.
    Purge { key: String },
}

/// What a `StoreCommand` is in contracts.
pub enum StoreCommandView {
    Put { key: Seq<char>, value: Seq<u8> },
    Purge { key: Seq<char> },
}

impl View for StoreCommand {
    type V = StoreCommandView;

    open spec fn view(&self) -> StoreCommandView {
        match self {
            StoreCommand::Put { key, value } => StoreCommandView::Put { key: key@, value: value@ },
            StoreCommand::Purge { key } => StoreCommandView::Purge { key: key@ },
        }
    }
}

/// The views of a list of commands.
pub open spec fn command_views(commands: Seq<StoreCommand>) -> Seq<StoreCommandView> {
    Seq::new(commands.len(), |i: int| commands[i]@)
}

/// The views of a list of texts.
pub open spec fn text_views(texts: Seq<String>) -> Seq<Seq<char>> {
    Seq::new(texts.len(), |i: int| texts[i]@)
}

/// The pairs after one command.
pub open spec fn run_command(
    pairs: Seq<(Seq<char>, Seq<u8>)>,
    command: StoreCommandView,
) -> Seq<(Seq<char>, Seq<u8>)> {
    match command {
        StoreCommandView::Put { key, value } => put_pair(pairs, key, value),
        StoreCommandView::Purge { key } => retain_keys(pairs, other_than(key)),
    }
}

/// The pairs after a run of commands, first to last.
pub open spec fn run_commands(
    pairs: Seq<(Seq<char>, Seq<u8>)>,
    commands: Seq<StoreCommandView>,
) -> Seq<(Seq<char>, Seq<u8>)>
    decreases commands.len(),
{
    if commands.len() == 0 {
        pairs
    } else {
        run_command(run_commands(pairs, commands.drop_last()), commands.last())
    }
}

/// One purge for each of `keys`, in order.
pub open spec fn purges(keys: Seq<Seq<char>>) -> Seq<StoreCommandView> {
    Seq::new(keys.len(), |i: int| StoreCommandView::Purge { key: keys[i] })
}

/// One put for each of `flows`, in order.
pub open spec fn puts(flows: Seq<FlowView>) -> Seq<StoreCommandView> {
    Seq::new(
        flows.len(),
        |i: int| StoreCommandView::Put { key: flow_key(flows[i]), value: flows[i].definition },
    )
}

/// Those of `keys` that are keys of a flow with the id `flow_id`, in order.
pub open spec fn keys_of_flow(keys: Seq<Seq<char>>, flow_id: int) -> Seq<Seq<char>>
    decreases keys.len(),
{
    if keys.len() == 0 {
        Seq::empty()
    } else {
        let before = keys_of_flow(keys.drop_last(), flow_id);
        if holds_flow_id(keys.last(), flow_id) {
            before.push(keys.last())
        } else {
            before
        }
    }
}

/// Accepts every key that is not among `keys`.
pub open spec fn not_among(keys: Seq<Seq<char>>) -> spec_fn(Seq<char>) -> bool {
    |k: Seq<char>| !keys.contains(k)
}

/// The commands that carry out one message of the change stream on a store
/// that lists `keys`: a snapshot purges every listed key and then puts each
/// of its flows; an updated flow is one put; a deleted flow id purges each
/// listed key whose flow-id segment is that id; a message without a change is
/// no command.
pub open spec fn planned(keys: Seq<Seq<char>>, response: FlowResponse) -> Seq<StoreCommandView> {
    match response.data {
        None => Seq::empty(),
        Some(Data::DeletedFlowId(flow_id)) => purges(keys_of_flow(keys, flow_id as int)),
        Some(Data::UpdatedFlow(flow)) => seq![
            StoreCommandView::Put { key: flow_key(flow@), value: flow@.definition },
        ],
        Some(Data::Flows(flows)) => purges(keys) + puts(flow_views(flows@)),
    }
}

/// Running two runs of commands one after the other is running them as one.
pub proof fn lemma_run_commands_concat(
    pairs: Seq<(Seq<char>, Seq<u8>)>,
    first: Seq<StoreCommandView>,
    second: Seq<StoreCommandView>,
)
    ensures
        run_commands(pairs, first + second) == run_commands(run_commands(pairs, first), second),
    decreases second.len(),
{
    if second.len() == 0 {
        assert(first + second =~= first);
    } else {
        lemma_run_commands_concat(pairs, first, second.drop_last());
        assert((first + second).drop_last() =~= first + second.drop_last());
        assert((first + second).last() == second.last());
    }
}

/// Purging keys one by one leaves the pairs whose keys are not among them.
pub proof fn lemma_purges(pairs: Seq<(Seq<char>, Seq<u8>)>, keys: Seq<Seq<char>>)
    ensures
        run_commands(pairs, purges(keys)) == retain_keys(pairs, not_among(keys)),
    decreases keys.len(),
{
    if keys.len() == 0 {
        lemma_retain_all_or_none(pairs, not_among(keys));
    } else {
        let init = keys.drop_last();
        let last = keys.last();
        lemma_purges(pairs, init);
        assert(purges(keys).drop_last() =~= purges(init));
        assert(purges(keys).last() == StoreCommandView::Purge { key: last });
        lemma_retain_twice(pairs, not_among(init), other_than(last));
        assert forall|i: int| 0 <= i < pairs.len() implies both(
            not_among(init),
            other_than(last),
        )((#[trigger] pairs[i]).0) == not_among(keys)(pairs[i].0) by {
            let k = pairs[i].0;
            if keys.contains(k) {
                let j = choose|j: int| 0 <= j < keys.len() && keys[j] == k;
                if j < init.len() {
                    assert(init[j] == k);
                }
            }
            if init.contains(k) {
                let j = choose|j: int| 0 <= j < init.len() && init[j] == k;
                assert(keys[j] == k);
            }
            if k == last {
                assert(keys[keys.len() - 1] == k);
            }
        }
        lemma_retain_agree(pairs, both(not_among(init), other_than(last)), not_among(keys));
    }
}

/// The keys of a flow id among some keys are exactly those of the keys whose
/// flow-id segment is the id.
pub proof fn lemma_keys_of_flow(keys: Seq<Seq<char>>, flow_id: int)
    ensures
        forall|k: Seq<char>| #[trigger]
            keys_of_flow(keys, flow_id).contains(k) <==> (keys.contains(k) && holds_flow_id(
                k,
                flow_id,
            )),
    decreases keys.len(),
{
    if keys.len() > 0 {
        let init = keys.drop_last();
        let last = keys.last();
        let before = keys_of_flow(init, flow_id);
        let picked = keys_of_flow(keys, flow_id);
        lemma_keys_of_flow(init, flow_id);
        assert forall|k: Seq<char>| #[trigger]
            picked.contains(k) <==> (keys.contains(k) && holds_flow_id(k, flow_id)) by {
            if picked.contains(k) {
                let j = choose|j: int| 0 <= j < picked.len() && picked[j] == k;
                if j < before.len() {
                    assert(before[j] == k);
                    assert(before.contains(k));
                    let i = choose|i: int| 0 <= i < init.len() && init[i] == k;
                    assert(keys[i] == k);
                } else {
                    assert(keys[keys.len() - 1] == k);
                }
            }
            if keys.contains(k) && holds_flow_id(k, flow_id) {
                let i = choose|i: int| 0 <= i < keys.len() && keys[i] == k;
                if i < init.len() {
                    assert(init[i] == k);
                    assert(before.contains(k));
                    let j = choose|j: int| 0 <= j < before.len() && before[j] == k;
                    assert(picked[j] == k);
                } else {
                    assert(picked[picked.len() - 1] == k);
                }
            }
        }
    }
}

/// Putting each flow is storing each flow.
proof fn lemma_puts_store(pairs: Seq<(Seq<char>, Seq<u8>)>, flows: Seq<FlowView>)
    ensures
        run_commands(pairs, puts(flows)) == upsert_all(pairs, flows),
    decreases flows.len(),
{
    if flows.len() > 0 {
        lemma_puts_store(pairs, flows.drop_last());
        assert(puts(flows).drop_last() =~= puts(flows.drop_last()));
    }
}

/// The planned commands carry the change out: run on a store in the order in
/// which they stand, with the store's own listing of its keys, they leave
/// exactly what applying the message leaves. In particular the purges and
/// puts of a snapshot leave the snapshot's flows and nothing else, and the
/// purges of a deleted flow id leave every key of another flow id.
pub proof fn lemma_plan_carries_out(pairs: Seq<(Seq<char>, Seq<u8>)>, response: FlowResponse)
    ensures
        run_commands(pairs, planned(keys_of(pairs), response)) == applied_response(
            pairs,
            response,
        ),
{
    let keys = keys_of(pairs);
    let plan = planned(keys, response);
    match response.data {
        None => {},
        Some(Data::DeletedFlowId(flow_id)) => {
            let picked = keys_of_flow(keys, flow_id as int);
            lemma_purges(pairs, picked);
            lemma_keys_of_flow(keys, flow_id as int);
            assert forall|i: int| 0 <= i < pairs.len() implies not_among(picked)(
                (#[trigger] pairs[i]).0,
            ) == outside_flow(flow_id as int)(pairs[i].0) by {
                assert(keys[i] == pairs[i].0);
                assert(keys.contains(pairs[i].0));
            }
            lemma_retain_agree(pairs, not_among(picked), outside_flow(flow_id as int));
        },
        Some(Data::UpdatedFlow(_)) => {
            assert(run_commands(pairs, plan.drop_last()) == pairs);
        },
        Some(Data::Flows(flows)) => {
            lemma_run_commands_concat(pairs, purges(keys), puts(flow_views(flows@)));
            lemma_purges(pairs, keys);
            assert forall|i: int| 0 <= i < pairs.len() implies !not_among(keys)(
                (#[trigger] pairs[i]).0,
            ) by {
                assert(keys[i] == pairs[i].0);
                assert(keys.contains(pairs[i].0));
            }
            lemma_retain_all_or_none(pairs, not_among(keys));
            lemma_puts_store(Seq::empty(), flow_views(flows@));
        },
    }
}

/// Writes one message of the change stream out as commands for a store that
/// lists `keys`.
pub fn plan_response(keys: &Vec<String>, response: &FlowResponse) -> (commands: Vec<StoreCommand>)
    ensures
        command_views(commands@) == planned(text_views(keys@), *response),
{
    let mut commands: Vec<StoreCommand> = Vec::new();
    let ghost listed = text_views(keys@);
    match &response.data {
        None => {},
        Some(Data::DeletedFlowId(flow_id)) => {
            let mut i: usize = 0;
            assert(listed.subrange(0, 0) =~= Seq::<Seq<char>>::empty());
            while i < keys.len()
                invariant
                    i <= keys.len(),
                    listed == text_views(keys@),
                    command_views(commands@) == purges(
                        keys_of_flow(listed.subrange(0, i as int), *flow_id as int),
                    ),
                decreases keys.len() - i,
            {
                let ghost before = command_views(commands@);
                assert(listed.subrange(0, i + 1).drop_last() =~= listed.subrange(0, i as int));
                assert(listed.subrange(0, i + 1).last() == keys@[i as int]@);
                if is_key_of_flow(&keys[i], *flow_id) {
                    commands.push(StoreCommand::Purge { key: keys[i].clone() });
                    assert(command_views(commands@) =~= before.push(
                        StoreCommandView::Purge { key: keys@[i as int]@ },
                    ));
                    assert(before.push(StoreCommandView::Purge { key: keys@[i as int]@ })
                        =~= purges(keys_of_flow(listed.subrange(0, i + 1), *flow_id as int)));
                }
                i = i + 1;
            }
            assert(listed.subrange(0, keys.len() as int) =~= listed);
        },
        Some(Data::UpdatedFlow(flow)) => {
            commands.push(
                StoreCommand::Put {
                    key: get_flow_identifier(flow),
                    value: copy_bytes(&flow.definition),
                },
            );
        },
        Some(Data::Flows(flows)) => {
            let ghost all = flow_views(flows@);
            let mut i: usize = 0;
            while i < keys.len()
                invariant
                    i <= keys.len(),
                    listed == text_views(keys@),
                    commands@.len() == i,
                    command_views(commands@) == purges(listed.subrange(0, i as int)),
                decreases keys.len() - i,
            {
                let ghost before = command_views(commands@);
                commands.push(StoreCommand::Purge { key: keys[i].clone() });
                i = i + 1;
                assert forall|k: int| 0 <= k < i implies #[trigger] command_views(commands@)[k]
                    == purges(listed.subrange(0, i as int))[k] by {
                    if k < i - 1 {
                        assert(command_views(commands@)[k] == before[k]);
                    }
                }
            }
            let mut j: usize = 0;
            while j < flows.len()
                invariant
                    j <= flows.len(),
                    all == flow_views(flows@),
                    listed.len() == keys.len(),
                    commands@.len() == keys.len() + j,
                    command_views(commands@) == purges(listed) + puts(all.subrange(0, j as int)),
                decreases flows.len() - j,
            {
                let ghost before = command_views(commands@);
                commands.push(
                    StoreCommand::Put {
                        key: get_flow_identifier(&flows[j]),
                        value: copy_bytes(&flows[j].definition),
                    },
                );
                j = j + 1;
                let ghost after = purges(listed) + puts(all.subrange(0, j as int));
                assert forall|k: int| 0 <= k < after.len() implies #[trigger] command_views(
                    commands@,
                )[k] == after[k] by {
                    if k < after.len() - 1 {
                        assert(command_views(commands@)[k] == before[k]);
                    }
                }
            }
        },
    }
    commands
}

/// Carries one command out on the local store.
pub fn execute(cache: &mut FlowCache, command: &StoreCommand)
    ensures
        final(cache).pairs() == run_command(old(cache).pairs(), command@),
{
    match command {
        StoreCommand::Put { key, value } => {
            cache.put(key.clone(), copy_bytes(value));
        },
        StoreCommand::Purge { key } => {
            cache.delete(key);
        },
    }
}

/// Carries a run of commands out on the local store, first to last.
pub fn execute_all(cache: &mut FlowCache, commands: &Vec<StoreCommand>)
    ensures
        final(cache).pairs() == run_commands(old(cache).pairs(), command_views(commands@)),
{
    let ghost all = command_views(commands@);
    let mut i: usize = 0;
    while i < commands.len()
        invariant
            i <= commands.len(),
            all == command_views(commands@),
            cache.pairs() == run_commands(old(cache).pairs(), all.subrange(0, i as int)),
        decreases commands.len() - i,
    {
        assert(all.subrange(0, i + 1).drop_last() =~= all.subrange(0, i as int));
        execute(cache, &commands[i]);
        i = i + 1;
    }
    assert(all.subrange(0, commands.len() as int) =~= all);
}

} // verus!
