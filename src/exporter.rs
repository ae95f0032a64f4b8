use vstd::prelude::*;
use crate::ids::{hyphenated, id_text};
use crate::span::WasmSpan;

verus! {

/// How long the shutdown flush may take, in milliseconds, before the
/// exporter gives up waiting for it.
pub const SHUTDOWN_TIMEOUT_MS: u64 = 5000;

/// The life cycle of the exporter task.
#[derive(Debug, Clone, Copy, PartialEq, Eq, Structural)]
pub enum ExporterPhase {
    Configuring,
    Ready,
    Draining,
    ShuttingDown,
    Terminated,
}

/// What the exporter's surroundings report to it.
#[derive(Debug, Clone)]
pub enum ExporterEvent {
    /// The connection to the telemetry backend was set up.
    Configured,
    /// The backend could not be set up.
    ConfigurationFailed,
    /// The readiness signal reached whoever waits for it.
    ReadyDelivered,
    /// Nobody waits for the readiness signal any more.
    ReadyRefused,
    /// A span came off the delivery channel.
    Received(WasmSpan),
    /// Every producer handle is released and the channel is empty.
    ChannelClosed,
    /// The backend's flush finished.
    FlushCompleted,
    /// The backend's flush did not finish within its time limit.
    FlushTimedOut,
}

/// A span in the shape the telemetry backend takes: a name, explicit start
/// and end timestamps, and key-value attributes.
#[derive(Debug, Clone)]
pub struct ExportSpan {
    pub name: String,
    pub start_time_ns: u64,
    pub end_time_ns: u64,
    pub attributes: Vec<(String, String)>,
}

/// What the exporter asks its surroundings to do next.
#[derive(Debug, Clone)]
pub enum ExporterAction {
    /// Send the one readiness signal.
    SignalReady,
    /// Wait for the next span or for the end of the channel.
    Receive,
    /// Hand this span to the backend, then receive the next.
    Export(ExportSpan),
    /// Drop the incomplete span just received, then receive the next.
    Skip,
    /// Flush the backend, bounded by the shutdown time limit.
    Flush,
    /// Give up starting: the backend has no valid destination.
    Abort,
    /// The task is over.
    Stop,
    /// The event means nothing in this phase; nothing changes.
    Ignore,
}

/// The prefix of every exported span's name.
pub open spec fn name_prefix() -> Seq<char> {
    seq!['w', 'a', 's', 'm', ':', ':']
}

/// The key of the attribute that carries the correlation id.
pub open spec fn runtime_id_key() -> Seq<char> {
    seq!['w', 'a', 's', 'm', '.', 'r', 'u', 'n', 't', 'i', 'm', 'e', '_', 'i', 'd']
}

/// A span goes to the backend only where it has an end strictly after its start.
pub open spec fn exportable(span: WasmSpan) -> bool {
    span.end_time_ns matches Some(end_ns) && end_ns > span.start_time_ns
}

/// `e` is the backend shape of the exportable span `span`.
pub open spec fn exports(e: ExportSpan, span: WasmSpan) -> bool {
    &&& e.name@ == name_prefix() + span.function_name@
    &&& e.start_time_ns == span.start_time_ns
    &&& Some(e.end_time_ns) == span.end_time_ns
    &&& e.attributes@.len() == 1
    &&& e.attributes@[0].0@ == runtime_id_key()
    &&& e.attributes@[0].1@ == hyphenated(span.runtime_id)
}

/// The backend shape of `span`, or `None` for a span without a valid end.
pub fn to_export_span(span: &WasmSpan) -> (r: Option<ExportSpan>)
    ensures
        r is Some <==> exportable(*span),
        r matches Some(e) ==> exports(e, *span),
{
    match span.end_time_ns {
        Some(end_ns) if end_ns > span.start_time_ns => {
            let mut name = String::from_str("wasm::");
            name.append(span.function_name.as_str());
            let key = String::from_str("wasm.runtime_id");
            let value = id_text(span.runtime_id);
            let mut attributes: Vec<(String, String)> = Vec::new();
            attributes.push((key, value));
            proof {
                reveal_strlit("wasm::");
                reveal_strlit("wasm.runtime_id");
                assert(name@ =~= name_prefix() + span.function_name@);
                assert(attributes@[0].0@ =~= runtime_id_key());
            }
            Some(ExportSpan { name, start_time_ns: span.start_time_ns, end_time_ns: end_ns, attributes })
        },
        _ => None,
    }
}

/// The phase that follows `phase` on `event`.
pub open spec fn next_phase(phase: ExporterPhase, event: ExporterEvent) -> ExporterPhase {
    match (phase, event) {
        (ExporterPhase::Configuring, ExporterEvent::Configured) => ExporterPhase::Ready,
        (ExporterPhase::Configuring, ExporterEvent::ConfigurationFailed) => ExporterPhase::Terminated,
        (ExporterPhase::Ready, ExporterEvent::ReadyDelivered) => ExporterPhase::Draining,
        (ExporterPhase::Ready, ExporterEvent::ReadyRefused) => ExporterPhase::Terminated,
        (ExporterPhase::Draining, ExporterEvent::ChannelClosed) => ExporterPhase::ShuttingDown,
        (ExporterPhase::ShuttingDown, ExporterEvent::FlushCompleted) => ExporterPhase::Terminated,
        (ExporterPhase::ShuttingDown, ExporterEvent::FlushTimedOut) => ExporterPhase::Terminated,
        _ => phase,
    }
}

/// `action` is what the exporter asks for on `event` in `phase`.
pub open spec fn action_for(phase: ExporterPhase, event: ExporterEvent, action: ExporterAction) -> bool {
    match (phase, event) {
        (ExporterPhase::Configuring, ExporterEvent::Configured) => action is SignalReady,
        (ExporterPhase::Configuring, ExporterEvent::ConfigurationFailed) => action is Abort,
        (ExporterPhase::Ready, ExporterEvent::ReadyDelivered) => action is Receive,
        (ExporterPhase::Ready, ExporterEvent::ReadyRefused) => action is Stop,
        (ExporterPhase::Draining, ExporterEvent::Received(span)) => if exportable(span) {
            action matches ExporterAction::Export(e) && exports(e, span)
        } else {
            action is Skip
        },
        (ExporterPhase::Draining, ExporterEvent::ChannelClosed) => action is Flush,
        (ExporterPhase::ShuttingDown, ExporterEvent::FlushCompleted) => action is Stop,
        (ExporterPhase::ShuttingDown, ExporterEvent::FlushTimedOut) => action is Stop,
        _ => action is Ignore,
    }
}

/// The decisions of the exporter task, one event at a time.
pub struct Exporter {
    phase: ExporterPhase,
}

impl Exporter {
    pub closed spec fn current(&self) -> ExporterPhase {
        self.phase
    }

    pub fn new() -> (r: Self)
        ensures
            r.current() == ExporterPhase::Configuring,
    {
        Exporter { phase: ExporterPhase::Configuring }
    }

    pub fn phase(&self) -> (r: ExporterPhase)
        ensures
            r == self.current(),
    {
        self.phase
    }

    /// Takes one event and says what to do about it.
    pub fn step(&mut self, event: ExporterEvent) -> (r: ExporterAction)
        ensures
            final(self).current() == next_phase(old(self).current(), event),
            action_for(old(self).current(), event, r),
    {
        match (self.phase, event) {
            (ExporterPhase::Configuring, ExporterEvent::Configured) => {
                self.phase = ExporterPhase::Ready;
                ExporterAction::SignalReady
            },
            (ExporterPhase::Configuring, ExporterEvent::ConfigurationFailed) => {
                self.phase = ExporterPhase::Terminated;
                ExporterAction::Abort
            },
            (ExporterPhase::Ready, ExporterEvent::ReadyDelivered) => {
                self.phase = ExporterPhase::Draining;
                ExporterAction::Receive
            },
            (ExporterPhase::Ready, ExporterEvent::ReadyRefused) => {
                self.phase = ExporterPhase::Terminated;
                ExporterAction::Stop
            },
            (ExporterPhase::Draining, ExporterEvent::Received(span)) => {
                match to_export_span(&span) {
                    Some(e) => ExporterAction::Export(e),
                    None => ExporterAction::Skip,
                }
            },
            (ExporterPhase::Draining, ExporterEvent::ChannelClosed) => {
                self.phase = ExporterPhase::ShuttingDown;
                ExporterAction::Flush
            },
            (ExporterPhase::ShuttingDown, ExporterEvent::FlushCompleted) => {
                self.phase = ExporterPhase::Terminated;
                ExporterAction::Stop
            },
            (ExporterPhase::ShuttingDown, ExporterEvent::FlushTimedOut) => {
                self.phase = ExporterPhase::Terminated;
                ExporterAction::Stop
            },
            _ => ExporterAction::Ignore,
        }
    }
}

/// The phase reached from `phase` after the events `events`, in order.
pub open spec fn phase_after(phase: ExporterPhase, events: Seq<ExporterEvent>) -> ExporterPhase
    decreases events.len(),
{
    if events.len() == 0 {
        phase
    } else {
        phase_after(next_phase(phase, events[0]), events.drop_first())
    }
}

/// The events of receiving each of `spans`, in order.
pub open spec fn received_all(spans: Seq<WasmSpan>) -> Seq<ExporterEvent> {
    spans.map_values(|span: WasmSpan| ExporterEvent::Received(span))
}

/// Running two stretches of events one after the other is running them joined.
pub proof fn lemma_phase_after_concat(
    phase: ExporterPhase,
    first: Seq<ExporterEvent>,
    second: Seq<ExporterEvent>,
)
    ensures
        phase_after(phase, first + second) == phase_after(phase_after(phase, first), second),
    decreases first.len(),
{
    if first.len() == 0 {
        assert(first + second =~= second);
    } else {
        assert((first + second).drop_first() =~= first.drop_first() + second);
        lemma_phase_after_concat(next_phase(phase, first[0]), first.drop_first(), second);
    }
}

/// However many spans arrive, draining goes on: nothing but the end of the
/// channel ends it.
pub proof fn lemma_receiving_keeps_draining(spans: Seq<WasmSpan>)
    ensures
        phase_after(ExporterPhase::Draining, received_all(spans)) == ExporterPhase::Draining,
    decreases spans.len(),
{
    if spans.len() > 0 {
        assert(received_all(spans).drop_first() =~= received_all(spans.drop_first()));
        lemma_receiving_keeps_draining(spans.drop_first());
    }
}

/// Once every producer handle is released, the exporter has handled each
/// span sent before (exported it, or skipped it as incomplete), goes on to
/// shut down, and after the flush, finished or timed out, terminates.
pub proof fn lemma_drain_to_completion(spans: Seq<WasmSpan>, flush: ExporterEvent)
    requires
        flush is FlushCompleted || flush is FlushTimedOut,
    ensures
        forall|i: int, a: ExporterAction|
            0 <= i < spans.len() && action_for(ExporterPhase::Draining, received_all(spans)[i], a)
                ==> (a is Export || a is Skip),
        phase_after(ExporterPhase::Draining, received_all(spans).push(ExporterEvent::ChannelClosed))
            == ExporterPhase::ShuttingDown,
        phase_after(
            ExporterPhase::Draining,
            received_all(spans) + seq![ExporterEvent::ChannelClosed, flush],
        ) == ExporterPhase::Terminated,
{
    let events = received_all(spans);
    let closed = seq![ExporterEvent::ChannelClosed];
    lemma_receiving_keeps_draining(spans);
    lemma_phase_after_concat(ExporterPhase::Draining, events, closed);
    assert(events.push(ExporterEvent::ChannelClosed) =~= events + closed);
    assert(phase_after(ExporterPhase::Draining, closed) == ExporterPhase::ShuttingDown) by {
        assert(closed[0] == ExporterEvent::ChannelClosed);
        assert(closed.drop_first() =~= Seq::<ExporterEvent>::empty());
        assert(phase_after(ExporterPhase::ShuttingDown, Seq::<ExporterEvent>::empty())
            == ExporterPhase::ShuttingDown);
    }
    let tail = seq![ExporterEvent::ChannelClosed, flush];
    lemma_phase_after_concat(ExporterPhase::Draining, events, tail);
    assert(phase_after(ExporterPhase::Draining, tail) == ExporterPhase::Terminated) by {
        let rest = seq![flush];
        assert(tail[0] == ExporterEvent::ChannelClosed);
        assert(tail.drop_first() =~= rest);
        assert(rest[0] == flush);
        assert(rest.drop_first() =~= Seq::<ExporterEvent>::empty());
        assert(phase_after(ExporterPhase::Terminated, Seq::<ExporterEvent>::empty())
            == ExporterPhase::Terminated);
        assert(phase_after(ExporterPhase::ShuttingDown, rest) == ExporterPhase::Terminated);
    }
}

/// The shutdown phase ends on either outcome of the bounded flush: the
/// exporter terminates whether the backend finished in time or not.
pub proof fn lemma_shutdown_bounded(flush: ExporterEvent, action: ExporterAction)
    requires
        flush is FlushCompleted || flush is FlushTimedOut,
        action_for(ExporterPhase::ShuttingDown, flush, action),
    ensures
        next_phase(ExporterPhase::ShuttingDown, flush) == ExporterPhase::Terminated,
        action is Stop,
{
}

} // verus!
