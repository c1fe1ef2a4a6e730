//! Operator runtime core: the decisions of an event-driven operator host,
//! its output path and its transport bookkeeping, with machine-checked
//! contracts.

pub mod buffer;
pub mod columnar;
pub mod event;
pub mod host;
pub mod output;
pub mod replay;
pub mod sample;
pub mod source;
pub mod state;
pub mod supervisor;
pub mod transport;
pub mod types;
