use operator_runtime::event::{terminal_event, OperatorEvent};
use operator_runtime::host::{HostError, Terminal};
use operator_runtime::state::{lookup, merge_state, Attribute};
use operator_runtime::supervisor::{run_operator, HostKind, OperatorSource};
use operator_runtime::transport::{
    IceoryxCommunicationLayer, SUBSCRIBER_QUEUE_CAPACITY,
};
use operator_runtime::types::{
    interpret_status, EventType, EventView, IncomingEvent, LoopAction, Metadata, StopReason,
    STATUS_CONTINUE, STATUS_STOP, STATUS_STOP_ALL,
};

fn attr(name: &str, value: u64) -> Attribute {
    Attribute { name: name.to_string(), value }
}

#[test]
fn status_values_map_to_loop_actions() {
    assert_eq!((STATUS_CONTINUE, STATUS_STOP, STATUS_STOP_ALL), (0, 1, 2));
    assert_eq!(interpret_status(0), Some(LoopAction::Continue));
    assert_eq!(interpret_status(1), Some(LoopAction::Exit(StopReason::ExplicitStop)));
    assert_eq!(interpret_status(2), Some(LoopAction::Exit(StopReason::ExplicitStopAll)));
    assert_eq!(interpret_status(3), None);
    assert_eq!(interpret_status(-1), None);
    assert_eq!(interpret_status(i32::MAX), None);
}

#[test]
fn input_view_carries_bytes_verbatim() {
    let metadata = Metadata {
        open_telemetry_context: "ctx".to_string(),
        parameters: vec![("a".to_string(), "b".to_string())],
    };
    let event = IncomingEvent::Input {
        input_id: "in".to_string(),
        metadata: metadata.clone(),
        data: Some(vec![0, 255, 7, 7]),
    };
    let view = event.into_view();
    assert_eq!(
        view,
        EventView {
            event_type: Some(EventType::Input),
            id: Some("in".to_string()),
            data: Some(vec![0, 255, 7, 7]),
            metadata: Some(metadata),
        }
    );
}

#[test]
fn absent_payload_is_seen_as_empty_bytes() {
    let event = IncomingEvent::Input {
        input_id: "in".to_string(),
        metadata: Metadata::empty(),
        data: None,
    };
    assert_eq!(event.into_view().data, Some(vec![]));
}

#[test]
fn views_of_the_other_events() {
    assert_eq!(
        IncomingEvent::Stop.into_view(),
        EventView { event_type: Some(EventType::Stop), id: None, data: None, metadata: None }
    );
    assert_eq!(
        IncomingEvent::InputClosed { input_id: "p".to_string() }.into_view(),
        EventView {
            event_type: Some(EventType::InputClosed),
            id: Some("p".to_string()),
            data: None,
            metadata: None,
        }
    );
    assert_eq!(
        IncomingEvent::Reload.into_view(),
        EventView { event_type: None, id: None, data: None, metadata: None }
    );
    assert_eq!(EventType::Stop.name(), "STOP");
    assert_eq!(EventType::Input.name(), "INPUT");
    assert_eq!(EventType::InputClosed.name(), "INPUT_CLOSED");
}

#[test]
fn empty_metadata_has_default_context() {
    let m = Metadata::empty();
    assert_eq!(m.open_telemetry_context, "");
    assert!(m.parameters.is_empty());
}

#[test]
fn reload_keeps_old_values_and_new_keys() {
    let previous = vec![attr("x", 42)];
    let fresh = vec![attr("x", 1), attr("y", 2)];
    let merged = merge_state(fresh, previous);
    assert_eq!(lookup(&merged, &"x".to_string()), Some(42));
    assert_eq!(lookup(&merged, &"y".to_string()), Some(2));
    assert_eq!(lookup(&merged, &"z".to_string()), None);
}

#[test]
fn merged_state_lists_previous_first() {
    let merged = merge_state(vec![attr("n", 0), attr("m", 9)], vec![attr("n", 3)]);
    assert_eq!(merged, vec![attr("n", 3), attr("n", 0), attr("m", 9)]);
    assert_eq!(merge_state(vec![], vec![]), vec![]);
}

#[test]
fn terminal_events_mirror_the_outcome() {
    assert_eq!(
        terminal_event(Terminal::Finished(StopReason::ExplicitStopAll)),
        OperatorEvent::Finished { reason: StopReason::ExplicitStopAll }
    );
    assert_eq!(
        terminal_event(Terminal::Error(HostError::HandlerRaised)),
        OperatorEvent::Error(HostError::HandlerRaised)
    );
    assert!(terminal_event(Terminal::Panic).closes_operator());
    assert!(!OperatorEvent::AllocateOutputSample { len: 1 }.closes_operator());
}

#[test]
fn wasm_sources_are_unsupported() {
    assert_eq!(run_operator(&OperatorSource::Wasm("op.wasm".to_string())), Err(HostError::Unsupported));
    assert_eq!(run_operator(&OperatorSource::Script("op.py".to_string())), Ok(HostKind::Script));
    assert_eq!(
        run_operator(&OperatorSource::SharedLibrary("libop.so".to_string())),
        Ok(HostKind::SharedLibrary)
    );
}

#[test]
fn publishers_are_memoized_per_topic() {
    let mut layer =
        IceoryxCommunicationLayer::init("app".to_string(), "g".to_string(), "i".to_string())
            .unwrap();
    assert_eq!(layer.group_name, "g");
    assert_eq!(layer.instance_name, "i");
    assert_eq!(layer.find_publisher(&"a".to_string()), None);
    assert_eq!(layer.get_or_create_publisher("a".to_string()), (0, true));
    assert_eq!(layer.get_or_create_publisher("b".to_string()), (1, true));
    assert_eq!(layer.get_or_create_publisher("a".to_string()), (0, false));
    assert_eq!(layer.find_publisher(&"b".to_string()), Some(1));
    assert_eq!(layer.topics, vec!["a".to_string(), "b".to_string()]);
    assert_eq!(SUBSCRIBER_QUEUE_CAPACITY, 5);
}
