//! What a library function may ask of the kernel that called it.

use vstd::prelude::*;

verus! {

/// The kernel's side of a running library function.
pub trait EngineInterface {
    /// Returns `true` if the user has requested that the current evaluation be aborted.
    ///
    /// Programs should finish what they are doing and return control of this thread to
    /// the kernel as quickly as possible. They should not exit the process or otherwise
    /// terminate execution, simply return up the call stack.
    fn aborted(&self) -> bool;
}

/// The engine that a library function is given.
pub type Engine = Box<dyn EngineInterface>;

/// The kernel's reply to the abort query asks for an abort.
pub open spec fn asks_for_abort(reply: Option<i64>) -> bool {
    reply == Some(1i64)
}

/// Whether the kernel's reply to the abort query asks for an abort. The reply is missing
/// where the kernel offers no abort query: no abort is then assumed.
pub fn abort_requested(reply: Option<i64>) -> (requested: bool)
    ensures
        requested == asks_for_abort(reply),
        requested == (reply == Some(1i64)),
{
    match reply {
        Some(val) => val == 1,
        None => false,
    }
}

/// An engine made of the callbacks that the kernel passes to a library function.
pub struct EngineCallbacks<F: Fn() -> i64> {
    abortq: Option<F>,
}

impl<F: Fn() -> i64> EngineCallbacks<F> {
    /// The callback that asks the kernel whether an abort was requested, if there is one.
    pub closed spec fn abortq(self) -> Option<F> {
        self.abortq
    }

    #[verifier::type_invariant]
    spec fn callable(self) -> bool {
        self.abortq matches Some(func) ==> func.requires(())
    }

    /// Engine over the kernel's abort query, which may be missing.
    pub fn new(abortq: Option<F>) -> (engine: EngineCallbacks<F>)
        requires
            abortq matches Some(func) ==> func.requires(()),
        ensures
            engine.abortq() == abortq,
    {
        EngineCallbacks { abortq }
    }
}

impl<F: Fn() -> i64> EngineInterface for EngineCallbacks<F> {
    /// Asks the kernel, if it offers an abort query; the answer 1 means an abort.
    fn aborted(&self) -> (aborted: bool)
        ensures
            self.abortq() is None ==> !aborted,
            self.abortq() matches Some(func) ==> exists|val: i64|
                #[trigger] func.ensures((), val) && aborted == (val == 1) && aborted
                    == asks_for_abort(Some(val)),
    {
        proof {
            use_type_invariant(self);
        }
        match &self.abortq {
            Some(func) => {
                let val: i64 = func();
                abort_requested(Some(val))
            },
            // An empty callback cannot be asked: assume no abort has been requested.
            None => abort_requested(None),
        }
    }
}

/// An abort is asked for by the reply 1, and by no other reply or the lack of one.
pub proof fn law_only_one_asks_for_abort(val: i64)
    ensures
        asks_for_abort(Some(val)) <==> val == 1,
        !asks_for_abort(None),
{
}

} // verus!
