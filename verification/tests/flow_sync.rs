use aquila::configuration::environment::Environment;
use aquila::configuration::state::ReadinessGate;
use aquila::flow::Flow;
use aquila::sagittarius::flow_client::{
    delete_flow, delete_flows, handle_response, handle_responses, insert_flow, insert_flows, keeps_on_file,
    purge_all, Data, FlowResponse, SagittariusFlowClient, StreamAction, StreamInput, StreamPhase,
};
use aquila::store::FlowCache;

fn s(text: &str) -> String {
    text.to_string()
}

fn flow(flow_type: &str, slug: &str, project_id: i64, flow_id: i64, definition: &[u8]) -> Flow {
    Flow {
        flow_id,
        project_id,
        flow_type: s(flow_type),
        project_slug: s(slug),
        definition: definition.to_vec(),
    }
}

fn upsert(flow: Flow) -> FlowResponse {
    FlowResponse { data: Some(Data::UpdatedFlow(flow)) }
}

fn snapshot(flows: Vec<Flow>) -> FlowResponse {
    FlowResponse { data: Some(Data::Flows(flows)) }
}

fn delete(flow_id: i64) -> FlowResponse {
    FlowResponse { data: Some(Data::DeletedFlowId(flow_id)) }
}

#[test]
fn upsert_stores_the_flow_under_its_key() {
    let mut cache = FlowCache::new();
    handle_response(&mut cache, &upsert(flow("click", "myslug", 42, 7, &[1, 2])));
    assert_eq!(cache.keys(), vec![s("click.myslug.42.7")]);
    assert_eq!(cache.get(&s("click.myslug.42.7")), Some(&vec![1, 2]));
}

#[test]
fn upsert_twice_leaves_one_entry_with_the_second_contents() {
    let mut cache = FlowCache::new();
    handle_response(&mut cache, &upsert(flow("click", "myslug", 42, 7, &[1])));
    handle_response(&mut cache, &upsert(flow("click", "myslug", 42, 7, &[2, 2])));
    assert_eq!(cache.len(), 1);
    assert_eq!(cache.get(&s("click.myslug.42.7")), Some(&vec![2, 2]));

    let mut once = FlowCache::new();
    handle_response(&mut once, &upsert(flow("click", "myslug", 42, 7, &[2, 2])));
    assert_eq!(cache, once);
}

#[test]
fn upsert_of_the_same_flow_is_idempotent() {
    let mut cache = FlowCache::new();
    insert_flow(&mut cache, &flow("a", "b", 1, 2, &[5]));
    insert_flow(&mut cache, &flow("x", "y", 1, 3, &[6]));
    let mut again = FlowCache::new();
    insert_flow(&mut again, &flow("a", "b", 1, 2, &[5]));
    insert_flow(&mut again, &flow("x", "y", 1, 3, &[6]));
    insert_flow(&mut again, &flow("a", "b", 1, 2, &[5]));
    assert_eq!(cache, again);
    assert_eq!(again.keys(), vec![s("a.b.1.2"), s("x.y.1.3")]);
}

#[test]
fn snapshot_replaces_what_was_stored() {
    let mut cache = FlowCache::new();
    insert_flow(&mut cache, &flow("t", "a", 1, 1, &[1]));
    insert_flow(&mut cache, &flow("t", "b", 1, 2, &[2]));
    handle_response(&mut cache, &snapshot(vec![flow("t", "c", 1, 3, &[3])]));
    assert_eq!(cache.keys(), vec![s("t.c.1.3")]);
    assert_eq!(cache.get(&s("t.c.1.3")), Some(&vec![3]));
    assert_eq!(cache.get(&s("t.a.1.1")), None);
    assert_eq!(cache.get(&s("t.b.1.2")), None);
}

#[test]
fn empty_snapshot_empties_the_store() {
    let mut cache = FlowCache::new();
    insert_flow(&mut cache, &flow("t", "a", 1, 1, &[1]));
    handle_response(&mut cache, &snapshot(vec![]));
    assert!(cache.is_empty());
}

#[test]
fn snapshot_with_a_repeated_key_keeps_the_last_contents() {
    let mut cache = FlowCache::new();
    handle_response(
        &mut cache,
        &snapshot(vec![
            flow("t", "a", 1, 1, &[1]),
            flow("t", "b", 1, 2, &[2]),
            flow("t", "a", 1, 1, &[9]),
        ]),
    );
    assert_eq!(cache.keys(), vec![s("t.a.1.1"), s("t.b.1.2")]);
    assert_eq!(cache.get(&s("t.a.1.1")), Some(&vec![9]));
}

#[test]
fn snapshot_then_upsert_leaves_the_upsert_visible() {
    let mut cache = FlowCache::new();
    handle_responses(
        &mut cache,
        &vec![
            upsert(flow("t", "old", 1, 9, &[0])),
            snapshot(vec![flow("t", "a", 1, 1, &[1])]),
            upsert(flow("t", "b", 1, 2, &[2])),
            upsert(flow("t", "a", 1, 1, &[7])),
        ],
    );
    assert_eq!(cache.keys(), vec![s("t.a.1.1"), s("t.b.1.2")]);
    assert_eq!(cache.get(&s("t.a.1.1")), Some(&vec![7]));
    assert_eq!(cache.get(&s("t.b.1.2")), Some(&vec![2]));
}

#[test]
fn delete_takes_out_every_variant_of_the_flow_id() {
    let mut cache = FlowCache::new();
    cache.put(s("t1.slugA.1.5"), vec![1]);
    cache.put(s("t2.slugB.1.5"), vec![2]);
    cache.put(s("t1.slugA.1.6"), vec![3]);
    handle_response(&mut cache, &delete(5));
    assert_eq!(cache.get(&s("t1.slugA.1.5")), None);
    assert_eq!(cache.get(&s("t2.slugB.1.5")), None);
    assert_eq!(cache.get(&s("t1.slugA.1.6")), Some(&vec![3]));
    assert_eq!(cache.keys(), vec![s("t1.slugA.1.6")]);
}

#[test]
fn delete_compares_the_id_with_the_flow_id_segment_only() {
    let mut cache = FlowCache::new();
    cache.put(s("t1.slugA.5.6"), vec![1]);
    cache.put(s("t1.slugA.1.5"), vec![2]);
    handle_response(&mut cache, &delete(5));
    assert_eq!(cache.keys(), vec![s("t1.slugA.5.6")]);

    let mut by_type = FlowCache::new();
    insert_flow(&mut by_type, &flow("5", "slugB", 1, 6, &[2]));
    insert_flow(&mut by_type, &flow("t1", "5", 1, 7, &[3]));
    handle_response(&mut by_type, &delete(5));
    assert_eq!(by_type.keys(), vec![s("5.slugB.1.6"), s("t1.5.1.7")]);
}

#[test]
fn delete_undoes_insert() {
    let mut cache = FlowCache::new();
    insert_flow(&mut cache, &flow("rest", "proj", 9, 1, &[1]));
    assert_eq!(cache.get(&s("rest.proj.9.1")), Some(&vec![1]));
    assert_eq!(cache.len(), 1);
    assert_eq!(delete_flow(&mut cache, 1), 1);
    assert_eq!(cache.get(&s("rest.proj.9.1")), None);
    assert_eq!(cache.len(), 0);
}

#[test]
fn delete_of_an_unknown_flow_id_changes_nothing() {
    let mut cache = FlowCache::new();
    assert_eq!(cache.get(&s("rest.proj.9.1")), None);
    assert_eq!(delete_flow(&mut cache, 1), 0);
    assert_eq!(cache.len(), 0);
    insert_flow(&mut cache, &flow("rest", "proj", 9, 6, &[3]));
    assert_eq!(delete_flow(&mut cache, 5), 0);
    assert_eq!(cache.keys(), vec![s("rest.proj.9.6")]);
    assert_eq!(delete_flow(&mut cache, 6), 1);
    assert!(cache.is_empty());
    assert_eq!(delete_flow(&mut cache, 6), 0);
}

#[test]
fn response_without_data_changes_nothing() {
    let mut cache = FlowCache::new();
    insert_flow(&mut cache, &flow("t", "a", 1, 1, &[1]));
    handle_response(&mut cache, &FlowResponse { data: None });
    assert_eq!(cache.keys(), vec![s("t.a.1.1")]);
    handle_responses(&mut cache, &vec![]);
    assert_eq!(cache.keys(), vec![s("t.a.1.1")]);
}

#[test]
fn insert_flows_stores_each_flow() {
    let mut cache = FlowCache::new();
    insert_flows(&mut cache, &vec![flow("t", "a", 1, 1, &[1]), flow("t", "a", 1, 2, &[2])]);
    assert_eq!(cache.len(), 2);
    insert_flows(&mut cache, &vec![]);
    assert_eq!(cache.len(), 2);
}

#[test]
fn purge_all_says_how_many_keys_went() {
    let mut cache = FlowCache::new();
    assert_eq!(purge_all(&mut cache), 0);
    insert_flows(&mut cache, &vec![flow("t", "a", 1, 1, &[1]), flow("t", "a", 1, 2, &[2])]);
    assert_eq!(purge_all(&mut cache), 2);
    assert!(cache.is_empty());
}

#[test]
fn stream_connects_logs_on_and_reads() {
    let mut cache = FlowCache::new();
    let mut gate = ReadinessGate::new();
    let mut client = SagittariusFlowClient::new(s("token"));
    assert_eq!(client.token(), "token");
    assert_eq!(client.current_phase(), StreamPhase::Idle);
    assert_eq!(client.init_flow_stream(), StreamAction::Connect);
    assert_eq!(client.current_phase(), StreamPhase::Connecting);
    assert!(!gate.is_ready());
    assert_eq!(client.step(&mut cache, &mut gate, &StreamInput::Connected), StreamAction::Logon);
    assert_eq!(client.current_phase(), StreamPhase::Streaming);
    assert!(gate.is_ready());
    let message = StreamInput::Message(upsert(flow("t", "a", 1, 1, &[1])));
    assert_eq!(client.step(&mut cache, &mut gate, &message), StreamAction::Receive);
    assert_eq!(client.current_phase(), StreamPhase::Streaming);
    assert!(gate.is_ready());
    assert_eq!(cache.keys(), vec![s("t.a.1.1")]);
}

#[test]
fn broken_stream_is_opened_again_with_a_new_logon() {
    let mut cache = FlowCache::new();
    let mut gate = ReadinessGate::new();
    let mut client = SagittariusFlowClient::new(s("token"));
    client.init_flow_stream();
    client.step(&mut cache, &mut gate, &StreamInput::Connected);
    assert!(gate.is_ready());
    assert_eq!(client.step(&mut cache, &mut gate, &StreamInput::StreamFailed), StreamAction::Connect);
    assert_eq!(client.current_phase(), StreamPhase::Connecting);
    assert!(!gate.is_ready());
    assert_eq!(client.step(&mut cache, &mut gate, &StreamInput::ConnectFailed), StreamAction::Connect);
    assert_eq!(client.current_phase(), StreamPhase::Connecting);
    assert_eq!(client.step(&mut cache, &mut gate, &StreamInput::Connected), StreamAction::Logon);
    assert!(gate.is_ready());
    assert_eq!(client.step(&mut cache, &mut gate, &StreamInput::StreamEnded), StreamAction::Connect);
    assert_eq!(client.current_phase(), StreamPhase::Connecting);
    assert!(!gate.is_ready());
}

#[test]
fn message_outside_an_open_stream_does_not_touch_the_store() {
    let mut cache = FlowCache::new();
    let mut gate = ReadinessGate::new();
    let mut client = SagittariusFlowClient::new(s("token"));
    let message = StreamInput::Message(upsert(flow("t", "a", 1, 1, &[1])));
    assert_eq!(client.step(&mut cache, &mut gate, &message), StreamAction::Connect);
    assert!(cache.is_empty());
    assert_eq!(client.step(&mut cache, &mut gate, &message), StreamAction::Connect);
    assert!(cache.is_empty());
    assert_eq!(client.current_phase(), StreamPhase::Connecting);
}

#[test]
fn snapshot_is_kept_on_file_in_development_only() {
    let flows = snapshot(vec![]);
    assert!(keeps_on_file(Environment::Development, &flows));
    assert!(!keeps_on_file(Environment::Staging, &flows));
    assert!(!keeps_on_file(Environment::Production, &flows));
    assert!(!keeps_on_file(Environment::Development, &delete(1)));
    assert!(!keeps_on_file(Environment::Development, &upsert(flow("t", "a", 1, 1, &[1]))));
    assert!(!keeps_on_file(Environment::Development, &FlowResponse { data: None }));
}

#[test]
fn delete_flows_takes_out_the_listed_flows_only() {
    let mut cache = FlowCache::new();
    insert_flows(&mut cache, &vec![flow("t", "a", 1, 1, &[1]), flow("t", "a", 1, 2, &[2])]);
    delete_flows(&mut cache, &vec![1, 3]);
    assert_eq!(cache.get(&s("t.a.1.1")), None);
    assert_eq!(cache.get(&s("t.a.1.2")), Some(&vec![2]));
    delete_flows(&mut cache, &vec![]);
    assert_eq!(cache.keys(), vec![s("t.a.1.2")]);
}

#[test]
fn delete_flows_takes_out_all_that_are_listed() {
    let mut cache = FlowCache::new();
    insert_flows(
        &mut cache,
        &vec![flow("t", "a", 1, 1, &[1]), flow("t", "a", 1, 2, &[2]), flow("t", "a", 1, 3, &[3])],
    );
    assert_eq!(cache.len(), 3);
    delete_flows(&mut cache, &vec![1, 2]);
    assert_eq!(cache.len(), 1);
    assert_eq!(cache.keys(), vec![s("t.a.1.3")]);
    delete_flows(&mut cache, &vec![3, 3]);
    assert!(cache.is_empty());
}
