use vstd::prelude::*;
use std::collections::HashMap;
use crate::clock::{nanos_since_epoch, now_ns};
use crate::ids::fresh_id;
use crate::observer::{Hook, WasmObserver};
use crate::span::{end_of, is_completed_span, SpanStatus, WasmSpan};

verus! {

broadcast use vstd::std_specs::hash::group_hash_axioms;

#[verifier::external_type_specification]
#[verifier::external_body]
#[verifier::reject_recursive_types(T)]
pub struct ExUnboundedSender<T>(tokio::sync::mpsc::UnboundedSender<T>);

/// Relies on tokio's UnboundedSender::send: queues the span without
/// blocking; `false` where the receiving side is gone, which only the
/// channel knows.
#[verifier::external_body]
fn deliver(sender: &tokio::sync::mpsc::UnboundedSender<WasmSpan>, span: WasmSpan) -> (r: bool) {
    sender.send(span).is_ok()
}

/// Turns enter/exit notifications into completed spans and sends them on
/// the delivery channel.
pub struct TelemetryObserver {
    sender: tokio::sync::mpsc::UnboundedSender<WasmSpan>,
    /// Start time of each invocation in flight, by correlation id.
    pending_starts: HashMap<u128, u64>,
    received: Ghost<Seq<Hook>>,
    /// Every span handed to the channel, in order.
    handed_off: Ghost<Seq<WasmSpan>>,
    /// How many exits named no invocation in flight.
    unmatched: u64,
}

impl TelemetryObserver {
    /// The start time of each invocation in flight, by correlation id.
    pub closed spec fn pending(&self) -> Map<u128, u64> {
        self.pending_starts@
    }

    /// The spans handed to the delivery channel so far, in order; a span
    /// counts once handed over, whether or not a receiver still takes it.
    pub closed spec fn sent(&self) -> Seq<WasmSpan> {
        self.handed_off@
    }

    pub closed spec fn unmatched_count(&self) -> u64 {
        self.unmatched
    }

    /// How many exit notifications named no invocation in flight (held at
    /// `u64::MAX`); each such exit is a correlation mismatch.
    pub fn unmatched_exits(&self) -> (r: u64)
        ensures
            r == self.unmatched_count(),
    {
        self.unmatched
    }

    pub fn new(sender: tokio::sync::mpsc::UnboundedSender<WasmSpan>) -> (r: Self)
        ensures
            r.pending() == Map::<u128, u64>::empty(),
            r.hooks() == Seq::<Hook>::empty(),
            r.sent() == Seq::<WasmSpan>::empty(),
            r.unmatched_count() == 0,
    {
        TelemetryObserver {
            sender,
            pending_starts: HashMap::new(),
            received: Ghost(Seq::empty()),
            handed_off: Ghost(Seq::empty()),
            unmatched: 0,
        }
    }

    /// Whether the invocation `runtime_id` is in flight.
    pub fn is_pending(&self, runtime_id: u128) -> (r: bool)
        ensures
            r == self.pending().contains_key(runtime_id),
    {
        self.pending_starts.contains_key(&runtime_id)
    }

    /// Notes that the invocation `runtime_id` began at `start_ns`.
    pub fn record_start(&mut self, runtime_id: u128, start_ns: u64)
        ensures
            final(self).pending() == old(self).pending().insert(runtime_id, start_ns),
            final(self).hooks() == old(self).hooks(),
            final(self).sent() == old(self).sent(),
            final(self).unmatched_count() == old(self).unmatched_count(),
    {
        self.pending_starts.insert(runtime_id, start_ns);
    }

    /// Ends the invocation `runtime_id` after `duration_ns`: where it is in
    /// flight, removes it and returns its completed span under the record id
    /// `span_id`; where it is not, returns `None` and changes nothing.
    pub fn complete_span(
        &mut self,
        runtime_id: u128,
        func_name: &str,
        duration_ns: u64,
        span_id: u128,
    ) -> (r: Option<WasmSpan>)
        ensures
            final(self).pending() == old(self).pending().remove(runtime_id),
            final(self).hooks() == old(self).hooks(),
            final(self).sent() == old(self).sent(),
            final(self).unmatched_count() == old(self).unmatched_count(),
            r is Some <==> old(self).pending().contains_key(runtime_id),
            r matches Some(span) ==> (span.end_time_ns matches Some(end_ns) && end_ns >= span.start_time_ns),
            r matches Some(span) ==> is_completed_span(
                span,
                span_id,
                runtime_id,
                func_name@,
                old(self).pending()[runtime_id],
                duration_ns,
            ),
    {
        match self.pending_starts.remove(&runtime_id) {
            Some(start_ns) => {
                let end_ns = start_ns.saturating_add(duration_ns);
                Some(WasmSpan {
                    id: span_id,
                    runtime_id,
                    function_name: func_name.to_string(),
                    start_time_ns: start_ns,
                    end_time_ns: Some(end_ns),
                    memory_bytes: 0,
                    status: SpanStatus::Completed,
                })
            },
            None => {
                proof {
                    assert(old(self).pending().remove(runtime_id) =~= old(self).pending());
                }
                None
            },
        }
    }
}

impl WasmObserver for TelemetryObserver {
    closed spec fn hooks(&self) -> Seq<Hook> {
        self.received@
    }

    /// Records the wall-clock start of the invocation; sends nothing.
    fn on_func_enter(&mut self, runtime_id: u128, func_name: &str)
        ensures
            final(self).pending().dom() == old(self).pending().dom().insert(runtime_id),
            forall|k: u128| k != runtime_id && old(self).pending().contains_key(k)
                ==> final(self).pending()[k] == old(self).pending()[k],
            final(self).sent() == old(self).sent(),
            final(self).unmatched_count() == old(self).unmatched_count(),
    {
        let clock = std::time::SystemTime::now();
        let start_ns = now_ns(nanos_since_epoch(&clock));
        self.record_start(runtime_id, start_ns);
        self.received = Ghost(self.received@.push(Hook::Enter(runtime_id, func_name@)));
    }

    /// Completes the invocation and hands its span to the channel. An exit
    /// that names no invocation in flight sends nothing and is counted as
    /// unmatched; a channel whose receiver is gone drops the span.
    fn on_func_exit(&mut self, runtime_id: u128, func_name: &str, duration_ns: u64)
        ensures
            final(self).pending() == old(self).pending().remove(runtime_id),
            !old(self).pending().contains_key(runtime_id) ==> {
                &&& final(self).sent() == old(self).sent()
                &&& final(self).unmatched_count() == if old(self).unmatched_count() < u64::MAX {
                    (old(self).unmatched_count() + 1) as u64
                } else {
                    u64::MAX
                }
            },
            old(self).pending().contains_key(runtime_id) ==> {
                &&& final(self).sent().len() == old(self).sent().len() + 1
                &&& final(self).sent().drop_last() == old(self).sent()
                &&& is_completed_span(
                    final(self).sent().last(),
                    final(self).sent().last().id,
                    runtime_id,
                    func_name@,
                    old(self).pending()[runtime_id],
                    duration_ns,
                )
                &&& final(self).unmatched_count() == old(self).unmatched_count()
            },
    {
        let span_id = fresh_id();
        match self.complete_span(runtime_id, func_name, duration_ns, span_id) {
            Some(span) => {
                self.handed_off = Ghost(self.handed_off@.push(span));
                assert(self.sent().drop_last() =~= old(self).sent());
                let _ = deliver(&self.sender, span);
            },
            None => {
                self.unmatched = self.unmatched.saturating_add(1);
            },
        }
        self.received = Ghost(self.received@.push(Hook::Exit(runtime_id, func_name@, duration_ns)));
    }
}

/// An enter and an exit that share a correlation id make one span whose
/// length is exactly the duration that the caller measured, wherever the end
/// fits in a timestamp; the table is then as it was but for that id.
pub proof fn lemma_pairing(
    before: Map<u128, u64>,
    runtime_id: u128,
    start_ns: u64,
    duration_ns: u64,
    span_id: u128,
    name: Seq<char>,
    span: WasmSpan,
)
    requires
        start_ns + duration_ns <= u64::MAX,
        is_completed_span(
            span,
            span_id,
            runtime_id,
            name,
            before.insert(runtime_id, start_ns)[runtime_id],
            duration_ns,
        ),
    ensures
        before.insert(runtime_id, start_ns).contains_key(runtime_id),
        span.start_time_ns == start_ns,
        span.end_time_ns matches Some(end_ns) && end_ns - span.start_time_ns == duration_ns,
        before.insert(runtime_id, start_ns).remove(runtime_id) == before.remove(runtime_id),
{
    assert(before.insert(runtime_id, start_ns).remove(runtime_id) =~= before.remove(runtime_id));
}

/// An exit whose correlation id is not in flight leaves the table as it was.
pub proof fn lemma_orphan_exit(pending: Map<u128, u64>, runtime_id: u128)
    requires
        !pending.contains_key(runtime_id),
    ensures
        pending.remove(runtime_id) == pending,
{
    assert(pending.remove(runtime_id) =~= pending);
}

} // verus!
