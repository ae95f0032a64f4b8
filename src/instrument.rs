use vstd::prelude::*;
use crate::clock::{nanos_elapsed, truncate_nanos};
use crate::ids::fresh_id;
use crate::observer::{Hook, WasmObserver};

verus! {

/// The two notifications of one invocation of the function `name`, in order.
pub open spec fn invocation_hooks(runtime_id: u128, name: Seq<char>, duration_ns: u64) -> Seq<Hook> {
    seq![Hook::Enter(runtime_id, name), Hook::Exit(runtime_id, name, duration_ns)]
}

/// `after` is `before` followed by exactly the enter and the one exit of
/// the invocation `runtime_id` of the function `name`.
pub open spec fn one_invocation(
    before: Seq<Hook>,
    after: Seq<Hook>,
    runtime_id: u128,
    name: Seq<char>,
) -> bool {
    exists|duration_ns: u64| after == before + #[trigger] invocation_hooks(runtime_id, name, duration_ns)
}

/// Makes the call `call` as the invocation `runtime_id` of `func_name`:
/// tells the observer first, times the call, tells the observer once more
/// with the measured duration, and hands back what the call returned.
pub fn observe_call_as<O: WasmObserver, R, F: FnOnce() -> R>(
    observer: &mut O,
    func_name: &str,
    runtime_id: u128,
    call: F,
) -> (r: R)
    requires
        call.requires(()),
    ensures
        call.ensures((), r),
        one_invocation(old(observer).hooks(), final(observer).hooks(), runtime_id, func_name@),
{
    observer.on_func_enter(runtime_id, func_name);
    let start = std::time::Instant::now();
    let result = call();
    let duration_ns = truncate_nanos(nanos_elapsed(&start));
    observer.on_func_exit(runtime_id, func_name, duration_ns);
    assert(observer.hooks() =~= old(observer).hooks() + invocation_hooks(runtime_id, func_name@, duration_ns));
    result
}

/// Makes the call `call` under a fresh correlation id, between the
/// observer's two notifications; the result is the call's own, whether it
/// holds a value or an error.
pub fn observe_call<O: WasmObserver, R, F: FnOnce() -> R>(
    observer: &mut O,
    func_name: &str,
    call: F,
) -> (r: R)
    requires
        call.requires(()),
    ensures
        call.ensures((), r),
        exists|runtime_id: u128|
            one_invocation(old(observer).hooks(), final(observer).hooks(), runtime_id, func_name@),
{
    let runtime_id = fresh_id();
    observe_call_as(observer, func_name, runtime_id, call)
}

/// The exports that resolve to a callable, with their names, in their order;
/// the others are left out.
pub open spec fn callable_exports<F>(exports: Seq<(String, Option<F>)>) -> Seq<(String, F)>
    decreases exports.len(),
{
    if exports.len() == 0 {
        Seq::empty()
    } else {
        let kept = callable_exports(exports.drop_last());
        match exports.last().1 {
            Some(f) => kept.push((exports.last().0, f)),
            None => kept,
        }
    }
}

/// Keeps, in order, the exports that resolve to a callable: each of those is
/// to be wrapped, and the others are skipped.
pub fn select_callable_exports<F>(exports: Vec<(String, Option<F>)>) -> (r: Vec<(String, F)>)
    ensures
        r@ == callable_exports(exports@),
{
    let ghost all = exports@;
    let total: usize = exports.len();
    let mut rest = exports;
    let mut kept: Vec<(String, F)> = Vec::new();
    let mut done: usize = 0;
    while rest.len() > 0
        invariant
            done + rest@.len() == all.len(),
            all.len() == total,
            rest@ == all.subrange(done as int, all.len() as int),
            kept@ == callable_exports(all.subrange(0, done as int)),
        decreases rest@.len(),
    {
        let (name, func) = rest.remove(0);
        proof {
            assert(all.subrange(0, done + 1).drop_last() =~= all.subrange(0, done as int));
        }
        match func {
            Some(f) => kept.push((name, f)),
            None => {},
        }
        done = done + 1;
        assert(rest@ =~= all.subrange(done as int, all.len() as int));
    }
    assert(all.subrange(0, done as int) =~= all);
    kept
}

} // verus!
