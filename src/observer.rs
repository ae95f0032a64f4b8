use vstd::prelude::*;

verus! {

/// One notification that an observer received, as contracts speak of it.
pub enum Hook {
    /// A call of the function `name` with this correlation id began.
    Enter(u128, Seq<char>),
    /// The call with this correlation id of the function `name` returned
    /// after this many nanoseconds.
    Exit(u128, Seq<char>, u64),
}

/// One notification as a value that a program can keep and inspect.
#[derive(Debug, Clone, PartialEq, Eq)]
pub enum HookCall {
    Enter(u128, String),
    Exit(u128, String, u64),
}

impl View for HookCall {
    type V = Hook;

    open spec fn view(&self) -> Hook {
        match self {
            HookCall::Enter(id, name) => Hook::Enter(*id, name@),
            HookCall::Exit(id, name, d) => Hook::Exit(*id, name@, *d),
        }
    }
}

/// Receives a notification before and after each observed call.
///
/// `hooks` is the sequence of notifications received so far; each method
/// appends exactly its own.
pub trait WasmObserver {
    spec fn hooks(&self) -> Seq<Hook>;

    fn on_func_enter(&mut self, runtime_id: u128, func_name: &str)
        ensures
            final(self).hooks() == old(self).hooks().push(Hook::Enter(runtime_id, func_name@)),
    ;

    fn on_func_exit(&mut self, runtime_id: u128, func_name: &str, duration_ns: u64)
        ensures
            final(self).hooks() == old(self).hooks().push(
                Hook::Exit(runtime_id, func_name@, duration_ns),
            ),
    ;
}

/// An observer that keeps the notifications and does nothing else.
pub struct HookLog {
    pub events: Vec<HookCall>,
}

impl HookLog {
    pub fn new() -> (r: Self)
        ensures
            r.hooks() == Seq::<Hook>::empty(),
    {
        let r = HookLog { events: Vec::new() };
        assert(r.hooks() =~= Seq::<Hook>::empty());
        r
    }
}

impl WasmObserver for HookLog {
    open spec fn hooks(&self) -> Seq<Hook> {
        self.events@.map_values(|c: HookCall| c@)
    }

    fn on_func_enter(&mut self, runtime_id: u128, func_name: &str) {
        self.events.push(HookCall::Enter(runtime_id, func_name.to_string()));
        assert(self.hooks() =~= old(self).hooks().push(Hook::Enter(runtime_id, func_name@)));
    }

    fn on_func_exit(&mut self, runtime_id: u128, func_name: &str, duration_ns: u64) {
        self.events.push(HookCall::Exit(runtime_id, func_name.to_string(), duration_ns));
        assert(self.hooks() =~= old(self).hooks().push(
            Hook::Exit(runtime_id, func_name@, duration_ns),
        ));
    }
}

} // verus!
