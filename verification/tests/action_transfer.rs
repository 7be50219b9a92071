use aquila::configuration::action::{ActionConfiguration, ActionServiceConfiguration};
use aquila::flow::{convert_validation_flow, ExecutionFlow, Flow, ValidationFlow};
use aquila::sagittarius::flow_client::insert_flow;
use aquila::server::action_transfer::{
    compose_action_topic, get_flows, request_executions, ActionLogon, AquilaActionTransferServiceServer,
    Authorization, Event, ExecutionResult, Phase, Session, SessionAction, TransferData,
    TransferRequest,
};
use aquila::server::execution::{
    execution_request, new_execution_identifier, test_execution_request,
};
use aquila::server::relay::authorize_update;
use aquila::status::Rejection;
use aquila::store::FlowCache;

fn s(text: &str) -> String {
    text.to_string()
}

fn encoded(flow_id: i64, project_id: i64, starting_node_id: i64) -> Vec<u8> {
    let message = tucana::shared::ValidationFlow {
        flow_id,
        project_id,
        starting_node_id,
        project_slug: s("proj"),
        ..Default::default()
    };
    prost::Message::encode_to_vec(&message)
}

fn stored(flow_type: &str, slug: &str, project_id: i64, flow_id: i64) -> Flow {
    Flow {
        flow_id,
        project_id,
        flow_type: s(flow_type),
        project_slug: s(slug),
        definition: encoded(flow_id, project_id, 3),
    }
}

fn server() -> AquilaActionTransferServiceServer {
    AquilaActionTransferServiceServer::new(ActionConfiguration::new(vec![
        ActionServiceConfiguration::new(s("T"), s("svcA")),
        ActionServiceConfiguration::new(s("U"), s("svcB")),
    ]))
}

fn session(token: &str) -> Session {
    Session::open(Authorization::Token(s(token))).unwrap()
}

fn logon(identifier: &str) -> TransferRequest {
    TransferRequest {
        data: Some(TransferData::Logon(ActionLogon { action_identifier: s(identifier) })),
    }
}

fn event(event_type: &str, project_id: i64, payload: Option<Vec<u8>>) -> TransferRequest {
    TransferRequest {
        data: Some(TransferData::Event(Event { event_type: s(event_type), project_id, payload })),
    }
}

fn result(id: &str, bytes: Vec<u8>) -> TransferRequest {
    TransferRequest {
        data: Some(TransferData::Result(ExecutionResult {
            execution_identifier: s(id),
            result: bytes,
        })),
    }
}

#[test]
fn stream_without_token_is_turned_away() {
    assert_eq!(Session::open(Authorization::Missing), Err(Rejection::MissingToken));
    assert_eq!(Session::open(Authorization::Unreadable), Err(Rejection::UnreadableToken));
    let opened = session("T");
    assert_eq!(opened.current_phase(), Phase::AwaitingLogon);
    assert_eq!(opened.current_subscription(), None);
}

#[test]
fn logon_with_the_right_token_subscribes() {
    let server = server();
    let cache = FlowCache::new();
    let mut session = session("T");
    let actions = server.transfer(&mut session, &cache, &logon("svcA"));
    assert_eq!(actions, vec![SessionAction::Subscribe(s("action.svcA.*"))]);
    assert_eq!(session.current_phase(), Phase::Active);
    assert_eq!(session.current_subscription(), Some(s("action.svcA.*")));
    assert_eq!(compose_action_topic(&s("svcA")), "action.svcA.*");
}

#[test]
fn logon_event_publishes_one_execution_request() {
    let server = server();
    let mut cache = FlowCache::new();
    insert_flow(&mut cache, &stored("click", "proj", 42, 7));
    assert_eq!(cache.keys(), vec![s("click.proj.42.7")]);
    let mut session = session("T");
    server.transfer(&mut session, &cache, &logon("svcA"));

    let payload = vec![80u8, 1, 2];
    let actions = server.transfer(&mut session, &cache, &event("click", 42, Some(payload.clone())));
    assert_eq!(actions.len(), 1);
    match &actions[0] {
        SessionAction::Publish(request) => {
            assert_eq!(request.flow.flow_id, 7);
            assert_eq!(request.flow.project_id, 42);
            assert_eq!(request.flow.starting_node_id, 3);
            assert_eq!(request.flow.input_value, Some(payload));
            assert_eq!(request.flow.definition, encoded(7, 42, 3));
            assert_eq!(request.execution_identifier.len(), 36);
            assert_eq!(request.topic, format!("execution.{}", request.execution_identifier));
        }
        other => panic!("expected a publish, got {:?}", other),
    }
    assert_eq!(session.current_phase(), Phase::Active);
}

#[test]
fn event_matches_by_type_and_project() {
    let server = server();
    let mut cache = FlowCache::new();
    insert_flow(&mut cache, &stored("click", "a", 42, 1));
    insert_flow(&mut cache, &stored("view", "a", 42, 2));
    insert_flow(&mut cache, &stored("click", "b", 43, 3));
    insert_flow(&mut cache, &stored("click", "c", 42, 4));
    let mut session = session("T");
    server.transfer(&mut session, &cache, &logon("svcA"));
    let actions = server.transfer(&mut session, &cache, &event("click", 42, None));
    let ids: Vec<i64> = actions
        .iter()
        .map(|action| match action {
            SessionAction::Publish(request) => request.flow.flow_id,
            other => panic!("expected a publish, got {:?}", other),
        })
        .collect();
    assert_eq!(ids, vec![1, 4]);
    assert!(server.transfer(&mut session, &cache, &event("hover", 42, None)).is_empty());
    assert!(server.transfer(&mut session, &cache, &event("click", 44, None)).is_empty());
}

#[test]
fn each_execution_gets_its_own_identifier() {
    let server = server();
    let mut cache = FlowCache::new();
    insert_flow(&mut cache, &stored("click", "a", 42, 1));
    insert_flow(&mut cache, &stored("click", "b", 42, 2));
    let mut session = session("T");
    server.transfer(&mut session, &cache, &logon("svcA"));
    let actions = server.transfer(&mut session, &cache, &event("click", 42, None));
    let ids: Vec<String> = actions
        .iter()
        .map(|action| match action {
            SessionAction::Publish(request) => request.execution_identifier.clone(),
            other => panic!("expected a publish, got {:?}", other),
        })
        .collect();
    assert_eq!(ids.len(), 2);
    assert_ne!(ids[0], ids[1]);
}

#[test]
fn stored_value_that_does_not_decode_is_passed_over() {
    let server = server();
    let mut cache = FlowCache::new();
    cache.put(s("click.bad.42.1"), vec![0xff, 0xff, 0xff]);
    insert_flow(&mut cache, &stored("click", "good", 42, 2));
    let flows = get_flows(&s("click.*.42.*"), &cache);
    assert_eq!(flows.len(), 1);
    assert_eq!(flows[0].flow_id, 2);
    let mut session = session("T");
    server.transfer(&mut session, &cache, &logon("svcA"));
    assert_eq!(server.transfer(&mut session, &cache, &event("click", 42, None)).len(), 1);
}

#[test]
fn event_before_logon_closes_the_stream_without_side_effects() {
    let server = server();
    let mut cache = FlowCache::new();
    insert_flow(&mut cache, &stored("click", "proj", 42, 7));
    let mut session = session("T");
    let actions = server.transfer(&mut session, &cache, &event("click", 42, None));
    assert_eq!(actions, vec![SessionAction::Reject(Rejection::LogonExpected)]);
    assert_eq!(session.current_phase(), Phase::Closed);
    assert_eq!(session.current_subscription(), None);
    assert!(server.transfer(&mut session, &cache, &logon("svcA")).is_empty());
    assert!(server.transfer(&mut session, &cache, &event("click", 42, None)).is_empty());
    assert_eq!(session.current_phase(), Phase::Closed);
}

#[test]
fn result_before_logon_closes_the_stream() {
    let server = server();
    let cache = FlowCache::new();
    let mut session = session("T");
    let actions = server.transfer(&mut session, &cache, &result("id", vec![1]));
    assert_eq!(actions, vec![SessionAction::Reject(Rejection::LogonExpected)]);
    assert_eq!(session.current_phase(), Phase::Closed);
}

#[test]
fn second_logon_closes_the_stream() {
    let server = server();
    let cache = FlowCache::new();
    let mut session = session("T");
    server.transfer(&mut session, &cache, &logon("svcA"));
    let actions = server.transfer(&mut session, &cache, &logon("svcA"));
    assert_eq!(
        actions,
        vec![
            SessionAction::Unsubscribe(s("action.svcA.*")),
            SessionAction::Reject(Rejection::AlreadyLoggedOn),
        ]
    );
    assert_eq!(session.current_phase(), Phase::Closed);
    assert_eq!(session.current_subscription(), None);
}

#[test]
fn logon_with_a_foreign_token_never_subscribes() {
    let server = server();
    let cache = FlowCache::new();
    let mut wrong_token = session("U");
    let actions = server.transfer(&mut wrong_token, &cache, &logon("svcA"));
    assert_eq!(actions, vec![SessionAction::Reject(Rejection::UnknownAction)]);
    assert!(Rejection::UnknownAction.code() == aquila::status::Code::Unauthenticated);
    assert_eq!(wrong_token.current_phase(), Phase::Closed);
    assert_eq!(wrong_token.current_subscription(), None);

    let mut unknown = session("T");
    let actions = server.transfer(&mut unknown, &cache, &logon("svcC"));
    assert_eq!(actions, vec![SessionAction::Reject(Rejection::UnknownAction)]);
    assert_eq!(unknown.current_phase(), Phase::Closed);
}

#[test]
fn empty_message_is_passed_over() {
    let server = server();
    let cache = FlowCache::new();
    let mut session = session("T");
    let empty = TransferRequest { data: None };
    assert!(server.transfer(&mut session, &cache, &empty).is_empty());
    assert_eq!(session.current_phase(), Phase::AwaitingLogon);
    server.transfer(&mut session, &cache, &logon("svcA"));
    assert!(server.transfer(&mut session, &cache, &empty).is_empty());
    assert_eq!(session.current_phase(), Phase::Active);
    assert_eq!(session.current_subscription(), Some(s("action.svcA.*")));
}

#[test]
fn result_is_handed_on() {
    let server = server();
    let cache = FlowCache::new();
    let mut session = session("T");
    server.transfer(&mut session, &cache, &logon("svcA"));
    let actions = server.transfer(&mut session, &cache, &result("abc", vec![4, 5]));
    assert_eq!(
        actions,
        vec![SessionAction::Deliver(ExecutionResult {
            execution_identifier: s("abc"),
            result: vec![4, 5],
        })]
    );
    assert_eq!(session.current_phase(), Phase::Active);
}

#[test]
fn closing_cancels_the_subscription() {
    let server = server();
    let cache = FlowCache::new();
    let mut active = session("T");
    server.transfer(&mut active, &cache, &logon("svcA"));
    assert_eq!(active.close(), vec![SessionAction::Unsubscribe(s("action.svcA.*"))]);
    assert_eq!(active.current_phase(), Phase::Closed);
    assert!(active.close().is_empty());

    let mut waiting = session("T");
    assert!(waiting.close().is_empty());
    assert_eq!(waiting.current_phase(), Phase::Closed);
}

#[test]
fn failed_subscription_closes_the_stream() {
    let server = server();
    let cache = FlowCache::new();
    let mut session = session("T");
    assert_eq!(session.subscription_failed(), None);
    assert_eq!(session.current_phase(), Phase::AwaitingLogon);
    server.transfer(&mut session, &cache, &logon("svcA"));
    assert_eq!(session.subscription_failed(), Some(Rejection::SubscriptionFailed));
    assert_eq!(session.current_phase(), Phase::Closed);
    assert_eq!(session.subscription_failed(), None);
}

#[test]
fn decode_reads_the_ids_of_an_encoded_flow() {
    let bytes = encoded(7, 42, 3);
    let flow = ValidationFlow::decode(bytes.clone()).unwrap();
    assert_eq!(flow.flow_id, 7);
    assert_eq!(flow.project_id, 42);
    assert_eq!(flow.starting_node_id, 3);
    assert_eq!(flow.definition, bytes);

    let other = ValidationFlow::decode(encoded(-1, i64::MAX, i64::MIN)).unwrap();
    assert_eq!(other.flow_id, -1);
    assert_eq!(other.project_id, i64::MAX);
    assert_eq!(other.starting_node_id, i64::MIN);

    let empty = ValidationFlow::decode(vec![]).unwrap();
    assert_eq!(empty.flow_id, 0);
    assert_eq!(empty.project_id, 0);
    assert_eq!(empty.starting_node_id, 0);

    assert_eq!(ValidationFlow::decode(vec![0xff, 0xff, 0xff]), None);
    assert_eq!(ValidationFlow::decode(vec![0x08]), None);
}

fn sample_flow() -> ValidationFlow {
    ValidationFlow { flow_id: 7, project_id: 42, starting_node_id: 3, definition: vec![9, 9] }
}

#[test]
fn conversion_keeps_the_flow_and_takes_the_input() {
    assert_eq!(
        convert_validation_flow(sample_flow(), Some(vec![1])),
        ExecutionFlow {
            flow_id: 7,
            project_id: 42,
            starting_node_id: 3,
            definition: vec![9, 9],
            input_value: Some(vec![1]),
        }
    );
    assert_eq!(convert_validation_flow(sample_flow(), None).input_value, None);
}

#[test]
fn execution_requests_are_addressed_by_their_identifier() {
    let flow = sample_flow();
    let request = execution_request(&flow, &Some(vec![1, 2]), s("abc"));
    assert_eq!(request.execution_identifier, "abc");
    assert_eq!(request.topic, "execution.abc");
    assert_eq!(request.flow, convert_validation_flow(sample_flow(), Some(vec![1, 2])));
    let test = test_execution_request(&flow, &None, s("abc"));
    assert_eq!(test.topic, "test_execution.abc");
    assert_eq!(test.flow, convert_validation_flow(sample_flow(), None));

    let actions = request_executions(&vec![sample_flow(), sample_flow()], &None);
    assert_eq!(actions.len(), 2);
    assert!(request_executions(&vec![], &None).is_empty());
}

#[test]
fn execution_identifiers_are_hyphenated_and_fresh() {
    let first = new_execution_identifier();
    let second = new_execution_identifier();
    assert_ne!(first, second);
    for id in [first, second] {
        assert_eq!(id.chars().count(), 36);
        assert!(id.chars().all(|c| c == '-' || c.is_ascii_digit() || ('a'..='f').contains(&c)));
        assert_eq!(id.chars().filter(|c| *c == '-').count(), 4);
        assert!(uuid::Uuid::parse_str(&id).is_ok());
    }
}

#[test]
fn configuration_update_needs_the_right_token() {
    let actions = ActionConfiguration::new(vec![ActionServiceConfiguration::new(s("T"), s("svcA"))]);
    assert_eq!(authorize_update(&actions, &Authorization::Token(s("T")), &s("svcA")), Ok(()));
    assert_eq!(
        authorize_update(&actions, &Authorization::Token(s("X")), &s("svcA")),
        Err(Rejection::NotRegistered)
    );
    assert_eq!(
        authorize_update(&actions, &Authorization::Token(s("T")), &s("svcB")),
        Err(Rejection::NotRegistered)
    );
    assert_eq!(
        authorize_update(&actions, &Authorization::Missing, &s("svcA")),
        Err(Rejection::MissingToken)
    );
    assert_eq!(
        authorize_update(&actions, &Authorization::Unreadable, &s("svcA")),
        Err(Rejection::UnreadableToken)
    );
}
