//! The events that a host puts on the operator-events channel.

use vstd::prelude::*;
use crate::columnar::ArrowTypeInfo;
use crate::host::{HostError, Terminal};
use crate::sample::Sample;
use crate::types::{Metadata, StopReason};

verus! {

/// Layout of an output's payload.
#[derive(Debug, PartialEq, Eq)]
pub enum TypeInfo {
    /// Plain bytes, `len` of them.
    ByteArray { len: usize },
    /// A columnar array whose buffers, and those of its children, lie in
    /// the sample as the layout says.
    Columnar(ArrowTypeInfo),
}

/// An event produced by the host toward the transport.
#[derive(Debug, PartialEq, Eq)]
pub enum OperatorEvent {
    /// A datum to publish.
    Output { output_id: String, type_info: TypeInfo, parameters: Metadata, data: Option<Sample> },
    /// Request to the transport to loan a region of `len` bytes.
    AllocateOutputSample { len: usize },
    /// The host failed; the operator is terminated.
    Error(HostError),
    /// The host panicked; the operator is terminated.
    Panic,
    /// The operator ended normally.
    Finished { reason: StopReason },
}

impl OperatorEvent {
    /// True of the events that close an operator.
    pub open spec fn is_terminal(&self) -> bool {
        self is Error || self is Panic || self is Finished
    }

    /// Tells whether the event closes its operator.
    pub fn closes_operator(&self) -> (r: bool)
        ensures
            r == self.is_terminal(),
    {
        match self {
            OperatorEvent::Error(_) => true,
            OperatorEvent::Panic => true,
            OperatorEvent::Finished { reason: _ } => true,
            _ => false,
        }
    }
}

/// The event that reports how a host ended.
pub open spec fn terminal_event_of(terminal: Terminal) -> OperatorEvent {
    match terminal {
        Terminal::Finished(reason) => OperatorEvent::Finished { reason },
        Terminal::Error(error) => OperatorEvent::Error(error),
        Terminal::Panic => OperatorEvent::Panic,
    }
}

/// Builds the one event that closes an operator: `Finished` after a
/// normal exit, `Error` after a failure, `Panic` after a caught unwind.
pub fn terminal_event(terminal: Terminal) -> (event: OperatorEvent)
    ensures
        event == terminal_event_of(terminal),
        event.is_terminal(),
{
    match terminal {
        Terminal::Finished(reason) => OperatorEvent::Finished { reason },
        Terminal::Error(error) => OperatorEvent::Error(error),
        Terminal::Panic => OperatorEvent::Panic,
    }
}

} // verus!
