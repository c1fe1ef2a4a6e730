//! The supervisor's choice of a host for an operator.

use vstd::prelude::*;
use crate::host::HostError;

verus! {

/// Where an operator's implementation comes from.
#[derive(Debug, Clone, PartialEq, Eq)]
pub enum OperatorSource {
    /// A shared library at the given path or URL.
    SharedLibrary(String),
    /// A script module at the given path or URL.
    Script(String),
    /// A WebAssembly module; reserved.
    Wasm(String),
}

/// The host that runs an operator.
#[derive(Debug, Clone, Copy, PartialEq, Eq, Structural)]
pub enum HostKind {
    SharedLibrary,
    Script,
}

/// Chooses the host for an operator by the kind of its source. A
/// WebAssembly source is refused as unsupported without anything being
/// run.
pub fn run_operator(source: &OperatorSource) -> (r: Result<HostKind, HostError>)
    ensures
        r == match *source {
            OperatorSource::SharedLibrary(_) => Ok::<HostKind, HostError>(HostKind::SharedLibrary),
            OperatorSource::Script(_) => Ok::<HostKind, HostError>(HostKind::Script),
            OperatorSource::Wasm(_) => Err::<HostKind, HostError>(HostError::Unsupported),
        },
{
    match source {
        OperatorSource::SharedLibrary(_) => Ok(HostKind::SharedLibrary),
        OperatorSource::Script(_) => Ok(HostKind::Script),
        OperatorSource::Wasm(_) => Err(HostError::Unsupported),
    }
}

} // verus!
