//! Transparent timing instrumentation for the exported functions of a
//! sandboxed module: the span model, the enter/exit correlator, the logic of
//! an observed call, and the exporter's life cycle as a state machine.

pub mod span;
pub mod ids;
pub mod clock;
pub mod observer;
pub mod telemetry;
pub mod instrument;
pub mod exporter;
