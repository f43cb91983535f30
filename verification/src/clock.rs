//! Leave to freeze tokio time.
//!
//! Tokio can pause time on a current-thread runtime only. Asking for the clock
//! anywhere else is refused, with a message that names the problem: it means
//! that chaos was wired into a path that is no test.

use vstd::prelude::*;

verus! {

/// The kind of scheduler that a runtime has.
#[derive(Debug, Clone, Copy, PartialEq, Eq, Structural)]
pub enum RuntimeFlavor {
    /// All tasks run on the current thread.
    CurrentThread,
    /// Tasks run across several threads.
    MultiThread,
    /// A flavor that is neither.
    Other,
}

/// Why time cannot be frozen.
#[derive(Debug, Clone, Copy, PartialEq, Eq, Structural)]
pub enum PauseRefusal {
    /// No runtime is running on this thread.
    NoRuntime,
    /// The runtime is not a current-thread one.
    NotCurrentThread,
}

impl PauseRefusal {
    /// What the refusal reads as.
    pub open spec fn text(self) -> Seq<char> {
        match self {
            PauseRefusal::NoRuntime => "chaos-kit: PausableClock::pause requires a tokio runtime with time enabled — call it inside #[tokio::test] (current-thread), not from a plain #[test] or a helper thread"@,
            PauseRefusal::NotCurrentThread => "chaos-kit: tokio cannot freeze time on a multi-thread runtime — use the default #[tokio::test] (current-thread), not #[tokio::test(flavor = \"multi_thread\")]"@,
        }
    }

    /// The refusal as readable text.
    pub fn message(&self) -> (message: &'static str)
        ensures
            message@ == self.text(),
    {
        match self {
            PauseRefusal::NoRuntime => "chaos-kit: PausableClock::pause requires a tokio runtime with time enabled — call it inside #[tokio::test] (current-thread), not from a plain #[test] or a helper thread",
            PauseRefusal::NotCurrentThread => "chaos-kit: tokio cannot freeze time on a multi-thread runtime — use the default #[tokio::test] (current-thread), not #[tokio::test(flavor = \"multi_thread\")]",
        }
    }
}

/// Leave to freeze and step tokio time, given on a current-thread runtime only.
#[derive(Debug, Clone, Copy)]
pub struct PausableClock {
    _private: (),
}

/// The flavor of the runtime that the calling thread is in, if it is in one.
///
/// Asks `tokio::runtime::Handle::try_current`, which fails outside a runtime
/// and never panics, and reads `Handle::runtime_flavor` of what it returns.
/// Both depend on where the call is made, so nothing is claimed of the result.
#[verifier::external_body]
pub fn current_flavor() -> (flavor: Option<RuntimeFlavor>) {
    match tokio::runtime::Handle::try_current() {
        Ok(handle) => Some(
            match handle.runtime_flavor() {
                tokio::runtime::RuntimeFlavor::CurrentThread => RuntimeFlavor::CurrentThread,
                tokio::runtime::RuntimeFlavor::MultiThread => RuntimeFlavor::MultiThread,
                _ => RuntimeFlavor::Other,
            },
        ),
        Err(_) => None,
    }
}

impl PausableClock {
    /// Why time cannot be frozen on the given runtime, if it cannot.
    pub open spec fn refusal(runtime: Option<RuntimeFlavor>) -> Option<PauseRefusal> {
        match runtime {
            None => Some(PauseRefusal::NoRuntime),
            Some(RuntimeFlavor::CurrentThread) => None,
            Some(_) => Some(PauseRefusal::NotCurrentThread),
        }
    }

    /// Decide whether time can be frozen on the given runtime.
    pub fn pause_on(runtime: Option<RuntimeFlavor>) -> (clock: Result<PausableClock, PauseRefusal>)
        ensures
            match Self::refusal(runtime) {
                None => clock is Ok,
                Some(refusal) => clock == Err::<PausableClock, PauseRefusal>(refusal),
            },
    {
        match runtime {
            None => Err(PauseRefusal::NoRuntime),
            Some(RuntimeFlavor::CurrentThread) => Ok(PausableClock { _private: () }),
            Some(_) => Err(PauseRefusal::NotCurrentThread),
        }
    }

    /// Ask for the clock of the runtime that the calling thread is in. Whoever
    /// is given it freezes tokio's time; whoever is refused must not.
    pub fn pause() -> (clock: Result<PausableClock, PauseRefusal>)
        ensures
            exists|runtime: Option<RuntimeFlavor>|
                call_ensures(current_flavor, (), runtime) && match #[trigger] Self::refusal(
                    runtime,
                ) {
                    None => clock is Ok,
                    Some(refusal) => clock == Err::<PausableClock, PauseRefusal>(refusal),
                },
    {
        PausableClock::pause_on(current_flavor())
    }
}

/// The clock is given on a current-thread runtime and nowhere else.
pub proof fn clock_is_given_on_current_thread_only(runtime: Option<RuntimeFlavor>)
    ensures
        PausableClock::refusal(runtime) is None <==> runtime == Some(RuntimeFlavor::CurrentThread),
{
}

} // verus!
