use std::collections::HashSet;

use tokio::sync::mpsc::unbounded_channel;
use wasm_obs_agent::instrument::{observe_call, observe_call_as};
use wasm_obs_agent::observer::{HookCall, HookLog, WasmObserver};
use wasm_obs_agent::span::{SpanStatus, WasmSpan};
use wasm_obs_agent::telemetry::TelemetryObserver;

fn drain(rx: &mut tokio::sync::mpsc::UnboundedReceiver<WasmSpan>) -> Vec<WasmSpan> {
    let mut out = Vec::new();
    while let Ok(span) = rx.try_recv() {
        out.push(span);
    }
    out
}

#[test]
fn two_functions_called_in_turn_give_two_spans_in_order() {
    let (tx, mut rx) = unbounded_channel();
    let mut observer = TelemetryObserver::new(tx);
    let sum = observe_call(&mut observer, "add", || 5 + 3);
    let product = observe_call(&mut observer, "multiply", || 4 * 7);
    assert_eq!(sum, 8);
    assert_eq!(product, 28);
    let spans = drain(&mut rx);
    assert_eq!(spans.len(), 2);
    assert_eq!(spans[0].function_name, "add");
    assert_eq!(spans[1].function_name, "multiply");
    for span in &spans {
        assert!(matches!(span.status, SpanStatus::Completed));
        assert!(span.end_time_ns.unwrap() >= span.start_time_ns);
        assert_eq!(span.memory_bytes, 0);
    }
    assert_ne!(spans[0].runtime_id, spans[1].runtime_id);
    assert_ne!(spans[0].id, spans[1].id);
}

#[test]
fn eight_overlapping_invocations_give_eight_distinct_spans() {
    let (tx, mut rx) = unbounded_channel();
    let mut observer = TelemetryObserver::new(tx);
    let ids: Vec<u128> = (1..=8u128).map(|k| k.wrapping_mul(0x9e37_79b9_7f4a_7c15_f39c_c060_5ced_c835)).collect();
    for id in &ids {
        observer.on_func_enter(*id, "work");
    }
    for id in &ids {
        assert!(observer.is_pending(*id));
    }
    for (k, id) in ids.iter().enumerate().rev() {
        observer.on_func_exit(*id, "work", 10 + k as u64);
    }
    for id in &ids {
        assert!(!observer.is_pending(*id));
    }
    let spans = drain(&mut rx);
    assert_eq!(spans.len(), 8);
    let distinct: HashSet<u128> = spans.iter().map(|s| s.runtime_id).collect();
    assert_eq!(distinct.len(), 8);
    for span in &spans {
        assert!(matches!(span.status, SpanStatus::Completed));
        assert_eq!(span.function_name, "work");
        let k = ids.iter().position(|id| *id == span.runtime_id).unwrap() as u64;
        assert_eq!(span.end_time_ns.unwrap() - span.start_time_ns, 10 + k);
    }
}

#[test]
fn wrapped_call_hands_back_the_value() {
    let mut log = HookLog::new();
    let r: Result<i32, String> = observe_call(&mut log, "add", || Ok(5 + 3));
    assert_eq!(r, Ok(8));
}

#[test]
fn wrapped_call_hands_back_the_error_unchanged() {
    let mut log = HookLog::new();
    let r: Result<i32, String> =
        observe_call(&mut log, "div", || Err(String::from("integer divide by zero")));
    assert_eq!(r, Err(String::from("integer divide by zero")));
}

#[test]
fn exit_fires_once_on_success() {
    let mut log = HookLog::new();
    let r: Result<u8, String> = observe_call_as(&mut log, "f", 77, || Ok(1));
    assert_eq!(r, Ok(1));
    assert_eq!(log.events.len(), 2);
    assert_eq!(log.events[0], HookCall::Enter(77, String::from("f")));
    assert!(matches!(&log.events[1], HookCall::Exit(77, name, _) if name == "f"));
}

#[test]
fn exit_fires_once_on_error() {
    let mut log = HookLog::new();
    let r: Result<u8, String> = observe_call(&mut log, "f", || Err(String::from("trap")));
    assert!(r.is_err());
    assert_eq!(log.events.len(), 2);
    let id = match &log.events[0] {
        HookCall::Enter(id, name) => {
            assert_eq!(name, "f");
            *id
        }
        other => panic!("expected an enter first, got {:?}", other),
    };
    assert_eq!(log.events.iter().filter(|h| matches!(h, HookCall::Exit(..))).count(), 1);
    assert!(matches!(&log.events[1], HookCall::Exit(x, name, _) if *x == id && name == "f"));
}

#[test]
fn each_call_gets_a_fresh_correlation_id() {
    let mut log = HookLog::new();
    observe_call(&mut log, "f", || ());
    observe_call(&mut log, "f", || ());
    assert_eq!(log.events.len(), 4);
    assert_ne!(log.events[0], log.events[2]);
    for event in &log.events {
        let id = match event {
            HookCall::Enter(id, _) => *id,
            HookCall::Exit(id, _, _) => *id,
        };
        assert_eq!((id >> 76) & 0xf, 4);
        assert_eq!((id >> 62) & 0x3, 2);
    }
}

#[test]
fn paired_span_length_is_the_measured_duration() {
    let (tx, _rx) = unbounded_channel();
    let mut observer = TelemetryObserver::new(tx);
    observer.record_start(1, 1_000);
    let span = observer.complete_span(1, "add", 250, 42).unwrap();
    assert_eq!(span.id, 42);
    assert_eq!(span.runtime_id, 1);
    assert_eq!(span.function_name, "add");
    assert_eq!(span.start_time_ns, 1_000);
    assert_eq!(span.end_time_ns, Some(1_250));
    assert_eq!(span.memory_bytes, 0);
    assert!(matches!(span.status, SpanStatus::Completed));
    assert!(!observer.is_pending(1));
}

#[test]
fn end_past_the_largest_timestamp_is_held_there() {
    let (tx, _rx) = unbounded_channel();
    let mut observer = TelemetryObserver::new(tx);
    observer.record_start(3, u64::MAX - 1);
    let span = observer.complete_span(3, "slow", 5, 1).unwrap();
    assert_eq!(span.end_time_ns, Some(u64::MAX));
}

#[test]
fn zero_duration_call_ends_at_its_start() {
    let (tx, _rx) = unbounded_channel();
    let mut observer = TelemetryObserver::new(tx);
    observer.record_start(4, 500);
    let span = observer.complete_span(4, "noop", 0, 2).unwrap();
    assert_eq!(span.end_time_ns, Some(500));
}

#[test]
fn orphan_exit_gives_no_span() {
    let (tx, mut rx) = unbounded_channel();
    let mut observer = TelemetryObserver::new(tx);
    observer.record_start(5, 10);
    assert!(observer.complete_span(6, "ghost", 3, 1).is_none());
    assert!(observer.is_pending(5));
    assert_eq!(observer.unmatched_exits(), 0);
    observer.on_func_exit(99, "ghost", 3);
    assert!(drain(&mut rx).is_empty());
    assert!(observer.is_pending(5));
    assert_eq!(observer.unmatched_exits(), 1);
}

#[test]
fn exit_hook_sends_the_paired_span() {
    let (tx, mut rx) = unbounded_channel();
    let mut observer = TelemetryObserver::new(tx);
    observer.on_func_enter(12, "add");
    assert!(drain(&mut rx).is_empty());
    observer.on_func_exit(12, "add", 400);
    let spans = drain(&mut rx);
    assert_eq!(spans.len(), 1);
    assert_eq!(spans[0].runtime_id, 12);
    assert_eq!(spans[0].function_name, "add");
    assert_eq!(spans[0].end_time_ns, Some(spans[0].start_time_ns + 400));
    assert_eq!(spans[0].memory_bytes, 0);
    assert!(matches!(spans[0].status, SpanStatus::Completed));
    assert!(!observer.is_pending(12));
    assert_eq!(observer.unmatched_exits(), 0);
}

#[test]
fn second_exit_for_one_id_is_an_orphan() {
    let (tx, mut rx) = unbounded_channel();
    let mut observer = TelemetryObserver::new(tx);
    observer.on_func_enter(8, "f");
    observer.on_func_exit(8, "f", 1);
    observer.on_func_exit(8, "f", 1);
    assert_eq!(drain(&mut rx).len(), 1);
    assert_eq!(observer.unmatched_exits(), 1);
}

#[test]
fn exit_after_receiver_is_gone_does_not_fail() {
    let (tx, rx) = unbounded_channel();
    drop(rx);
    let mut observer = TelemetryObserver::new(tx);
    let v = observe_call(&mut observer, "add", || 2 + 2);
    assert_eq!(v, 4);
    assert!(!observer.is_pending(0));
}

#[test]
fn later_enter_with_same_id_replaces_the_start() {
    let (tx, _rx) = unbounded_channel();
    let mut observer = TelemetryObserver::new(tx);
    observer.record_start(9, 100);
    observer.record_start(9, 200);
    let span = observer.complete_span(9, "f", 1, 1).unwrap();
    assert_eq!(span.start_time_ns, 200);
    assert!(observer.complete_span(9, "f", 1, 1).is_none());
}

#[test]
fn failed_status_carries_its_reason() {
    let s = SpanStatus::Failed(String::from("trap"));
    match s {
        SpanStatus::Failed(reason) => assert_eq!(reason, "trap"),
        _ => panic!("wrong variant"),
    }
    assert!(matches!(SpanStatus::Started, SpanStatus::Started));
}
