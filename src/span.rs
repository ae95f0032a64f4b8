use vstd::prelude::*;

verus! {

/// Where an invocation record stands.
#[derive(Debug, Clone)]
pub enum SpanStatus {
    Started,
    Completed,
    Failed(String),
}

/// One completed invocation of an exported function.
#[derive(Debug, Clone)]
pub struct WasmSpan {
    /// Unique per emitted record.
    pub id: u128,
    /// Unique per invocation; pairs the enter and exit notifications.
    pub runtime_id: u128,
    pub function_name: String,
    pub start_time_ns: u64,
    pub end_time_ns: Option<u64>,
    /// Reserved; always zero for now.
    pub memory_bytes: usize,
    pub status: SpanStatus,
}

/// The end of a call that started at `start` and lasted `duration`
/// nanoseconds, held at the largest timestamp where the sum does not fit.
pub open spec fn end_of(start: u64, duration: u64) -> u64 {
    if start + duration <= u64::MAX {
        (start + duration) as u64
    } else {
        u64::MAX
    }
}

/// `span` is the completed record of the invocation `runtime_id` of the
/// function `name`, begun at `start` and measured at `duration`, under the
/// record id `span_id`.
pub open spec fn is_completed_span(
    span: WasmSpan,
    span_id: u128,
    runtime_id: u128,
    name: Seq<char>,
    start: u64,
    duration: u64,
) -> bool {
    &&& span.id == span_id
    &&& span.runtime_id == runtime_id
    &&& span.function_name@ == name
    &&& span.start_time_ns == start
    &&& span.end_time_ns == Some(end_of(start, duration))
    &&& span.memory_bytes == 0
    &&& span.status is Completed
}

} // verus!
