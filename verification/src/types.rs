//! Events, stop reasons and status codes exchanged between the host, the
//! operator and the transport.

use vstd::prelude::*;

verus! {

/// Why an operator's event loop ended without a failure.
#[derive(Debug, Clone, Copy, PartialEq, Eq, Structural)]
pub enum StopReason {
    /// The incoming channel closed.
    InputsClosed,
    /// The operator asked to stop itself.
    ExplicitStop,
    /// The operator asked to stop the whole dataflow.
    ExplicitStopAll,
}

/// Status value with which a handler asks for the next event.
pub const STATUS_CONTINUE: i32 = 0;

/// Status value with which a handler asks to stop its operator.
pub const STATUS_STOP: i32 = 1;

/// Status value with which a handler asks to stop the whole dataflow.
pub const STATUS_STOP_ALL: i32 = 2;

/// What a handler's status value asks of the event loop.
#[derive(Debug, Clone, Copy, PartialEq, Eq, Structural)]
pub enum LoopAction {
    /// Take the next event.
    Continue,
    /// Leave the loop with the given reason.
    Exit(StopReason),
}

/// The loop action that a status value stands for, if it stands for one.
pub open spec fn status_action(status: i32) -> Option<LoopAction> {
    if status == 0 {
        Some(LoopAction::Continue)
    } else if status == 1 {
        Some(LoopAction::Exit(StopReason::ExplicitStop))
    } else if status == 2 {
        Some(LoopAction::Exit(StopReason::ExplicitStopAll))
    } else {
        None
    }
}

/// Maps a handler's status value to a loop action; `None` for a value
/// outside the protocol.
pub fn interpret_status(status: i32) -> (action: Option<LoopAction>)
    ensures
        action == status_action(status),
        action is None <==> (status < 0 || status > 2),
{
    if status == STATUS_CONTINUE {
        Some(LoopAction::Continue)
    } else if status == STATUS_STOP {
        Some(LoopAction::Exit(StopReason::ExplicitStop))
    } else if status == STATUS_STOP_ALL {
        Some(LoopAction::Exit(StopReason::ExplicitStopAll))
    } else {
        None
    }
}

/// Key-value bundle that travels with every input and every output.
#[derive(Debug, Clone, PartialEq, Eq)]
pub struct Metadata {
    /// Serialized span context; empty when no trace is propagated.
    pub open_telemetry_context: String,
    /// User parameters, in the order in which they were given.
    pub parameters: Vec<(String, String)>,
}

impl Metadata {
    /// True of the bundle that stands for absent metadata.
    pub open spec fn is_empty(&self) -> bool {
        &&& self.open_telemetry_context@ == Seq::<char>::empty()
        &&& self.parameters@ == Seq::<(String, String)>::empty()
    }

    /// The bundle used where an output carries no metadata: no parameters
    /// and the default (empty) telemetry context.
    pub fn empty() -> (r: Metadata)
        ensures
            r.is_empty(),
    {
        Metadata { open_telemetry_context: String::new(), parameters: Vec::new() }
    }
}

/// An event delivered to the host.
#[derive(Debug, Clone, PartialEq, Eq)]
pub enum IncomingEvent {
    /// Request to shut the operator down cleanly.
    Stop,
    /// A datum on a named port; absent bytes mean a zero-length payload.
    Input { input_id: String, metadata: Metadata, data: Option<Vec<u8>> },
    /// The named port will never deliver again.
    InputClosed { input_id: String },
    /// Request to re-read the operator implementation, keeping its state.
    Reload,
}

/// The `type` entry of the mapping under which an event reaches the handler.
#[derive(Debug, Clone, Copy, PartialEq, Eq, Structural)]
pub enum EventType {
    Stop,
    Input,
    InputClosed,
}

impl EventType {
    /// The text of the `type` entry.
    pub fn name(&self) -> (r: &'static str)
        ensures
            r@ == match *self {
                EventType::Stop => "STOP"@,
                EventType::Input => "INPUT"@,
                EventType::InputClosed => "INPUT_CLOSED"@,
            },
    {
        match self {
            EventType::Stop => "STOP",
            EventType::Input => "INPUT",
            EventType::InputClosed => "INPUT_CLOSED",
        }
    }
}

/// The mapping `{type, id?, data?, metadata?}` that the handler receives.
#[derive(Debug, Clone, PartialEq, Eq)]
pub struct EventView {
    /// The `type` entry; absent for an event that has no scripted type.
    pub event_type: Option<EventType>,
    /// The `id` entry: the port's name.
    pub id: Option<String>,
    /// The `data` entry: always bytes, empty for an absent payload.
    pub data: Option<Vec<u8>>,
    /// The `metadata` entry.
    pub metadata: Option<Metadata>,
}

/// The bytes that an input's payload stands for.
pub open spec fn payload_bytes(data: Option<Vec<u8>>) -> Seq<u8> {
    match data {
        Some(bytes) => bytes@,
        None => Seq::empty(),
    }
}

impl IncomingEvent {
    /// Tells a reload request from the events that go to the handler as
    /// they are.
    pub fn is_reload(&self) -> (r: bool)
        ensures
            r == (*self is Reload),
    {
        match self {
            IncomingEvent::Reload => true,
            _ => false,
        }
    }

    /// Puts an updated trace context into the metadata of an input; every
    /// other event, and everything else of an input, stays as it is.
    pub fn with_trace_context(self, context: String) -> (event: IncomingEvent)
        ensures
            match self {
                IncomingEvent::Input { input_id, metadata, data } => event == (
                IncomingEvent::Input {
                    input_id,
                    metadata: Metadata {
                        open_telemetry_context: context,
                        parameters: metadata.parameters,
                    },
                    data,
                }),
                _ => event == self,
            },
    {
        match self {
            IncomingEvent::Input { input_id, metadata, data } => IncomingEvent::Input {
                input_id,
                metadata: Metadata {
                    open_telemetry_context: context,
                    parameters: metadata.parameters,
                },
                data,
            },
            other => other,
        }
    }

    /// Projects the event to the mapping handed to the handler. An input
    /// carries its id, its metadata and its payload byte for byte (no
    /// bytes for an absent payload); a closed input carries its id; a stop
    /// carries only its type; a reload request carries nothing.
    pub fn into_view(self) -> (view: EventView)
        ensures
            match self {
                IncomingEvent::Stop => view == (EventView {
                    event_type: Some(EventType::Stop),
                    id: None,
                    data: None,
                    metadata: None,
                }),
                IncomingEvent::Input { input_id, metadata, data } => {
                    &&& view.event_type == Some(EventType::Input)
                    &&& view.id == Some(input_id)
                    &&& view.metadata == Some(metadata)
                    &&& view.data is Some
                    &&& view.data->0@ == payload_bytes(data)
                },
                IncomingEvent::InputClosed { input_id } => view == (EventView {
                    event_type: Some(EventType::InputClosed),
                    id: Some(input_id),
                    data: None,
                    metadata: None,
                }),
                IncomingEvent::Reload => view == (EventView {
                    event_type: None,
                    id: None,
                    data: None,
                    metadata: None,
                }),
            },
    {
        match self {
            IncomingEvent::Stop => EventView {
                event_type: Some(EventType::Stop),
                id: None,
                data: None,
                metadata: None,
            },
            IncomingEvent::Input { input_id, metadata, data } => {
                let bytes = match data {
                    Some(bytes) => bytes,
                    None => Vec::new(),
                };
                EventView {
                    event_type: Some(EventType::Input),
                    id: Some(input_id),
                    data: Some(bytes),
                    metadata: Some(metadata),
                }
            },
            IncomingEvent::InputClosed { input_id } => EventView {
                event_type: Some(EventType::InputClosed),
                id: Some(input_id),
                data: None,
                metadata: None,
            },
            IncomingEvent::Reload => EventView {
                event_type: None,
                id: None,
                data: None,
                metadata: None,
            },
        }
    }
}

} // verus!
