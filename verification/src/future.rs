//! The call futures: what one poll of a chaos-gated call does.
//!
//! A future here is a plain state. Polling it says which part to poll next;
//! whoever drives it polls that part, and after a sleep reports whether the
//! sleep is over. A delayed call is forwarded when its sleep is over, and not
//! before.

use crate::layer::CallAction;
use std::time::Duration;
use vstd::prelude::*;

verus! {

/// The state of one chaos-gated call: `D` is a sleep, `C` what the wrapped
/// service is called with, `F` the wrapped service's future, `O` the answer of a
/// rejected call.
#[derive(Debug)]
pub enum Gate<D, C, F, O> {
    /// Forwarded to the wrapped service.
    Passthrough {
        /// The wrapped service's future.
        future: F,
    },
    /// Sleeping, and forwarded when the sleep is over.
    Delayed {
        /// The sleep.
        sleep: D,
        /// The call that is to be made, until it is made.
        call: Option<C>,
    },
    /// Answered without the wrapped service.
    Faulted {
        /// The answer, until it is given.
        answer: Option<O>,
    },
}

/// The next step of a poll.
#[derive(Debug)]
pub enum PollStep<'a, D, F, O> {
    /// Poll the wrapped service's future; what it gives is what the poll
    /// gives.
    Inner(&'a mut F),
    /// Poll the sleep, then report to `slept` whether it is over.
    Sleep(&'a mut D),
    /// The poll is ready with this answer.
    Ready(O),
    /// The poll is pending.
    Pending,
}

impl<D, C, F, O> Gate<D, C, F, O> {
    /// The state after a poll that reaches neither the sleep nor the wrapped
    /// service: an answer is given once.
    pub open spec fn answered(self) -> Self {
        match self {
            Gate::Faulted { .. } => Gate::Faulted { answer: None },
            forwarded => forwarded,
        }
    }

    /// The state after `n` polls that reach neither the sleep nor the wrapped
    /// service.
    pub open spec fn answered_times(self, n: nat) -> Self
        decreases n,
    {
        if n == 0 {
            self
        } else {
            self.answered_times((n - 1) as nat).answered()
        }
    }

    /// The state after a poll that left the sleep as `nap`, which is not over
    /// yet.
    pub open spec fn napped(self, nap: D) -> Self {
        match self {
            Gate::Delayed { call, .. } => Gate::Delayed { sleep: nap, call },
            awake => awake,
        }
    }

    /// The state after polls that left the sleep as each of `naps` in turn,
    /// none of which is over.
    pub open spec fn napped_through(self, naps: Seq<D>) -> Self
        decreases naps.len(),
    {
        if naps.len() == 0 {
            self
        } else {
            self.napped_through(naps.drop_last()).napped(naps.last())
        }
    }

    /// The action `action` was begun on `call` in this state, with the sleep,
    /// the burn and the wrapped service's future coming from these functions.
    ///
    /// A call is forwarded with what its burn left behind, if there was one,
    /// so a burn comes before the forwarding. A delayed call has a sleep that
    /// was started, and is kept as it is, not forwarded yet.
    pub open spec fn begun<
        K,
        P: FnOnce(Duration) -> D,
        B: FnOnce(Duration) -> K,
        W: FnOnce(C, Option<K>) -> F,
    >(self, action: CallAction<O>, call: C, sleep: P, burn: B, forward: W) -> bool {
        match action {
            CallAction::Forward => {
                &&& self matches Gate::Passthrough { future }
                &&& call_ensures(forward, (call, None), future)
            },
            CallAction::Delay(delay) => {
                &&& self matches Gate::Delayed { sleep: started, call: kept }
                &&& call_ensures(sleep, (delay,), started)
                &&& kept == Some(call)
            },
            CallAction::Burn(duration) => {
                &&& self matches Gate::Passthrough { future }
                &&& exists|burnt: K| #[trigger]
                    call_ensures(burn, (duration,), burnt) && call_ensures(
                        forward,
                        (call, Some(burnt)),
                        future,
                    )
            },
            CallAction::Answer(given) => self == (Gate::<D, C, F, O>::Faulted {
                answer: Some(given),
            }),
        }
    }

    /// Begin a call: forward it, put it to sleep, burn and forward it, or
    /// answer it without forwarding.
    fn begin<
        K,
        P: FnOnce(Duration) -> D,
        B: FnOnce(Duration) -> K,
        W: FnOnce(C, Option<K>) -> F,
    >(action: CallAction<O>, call: C, sleep: P, burn: B, forward: W) -> (gate: Self)
        requires
            action is Forward ==> call_requires(forward, (call, None)),
            action matches CallAction::Delay(delay) ==> call_requires(sleep, (delay,)),
            action matches CallAction::Burn(duration) ==> {
                &&& call_requires(burn, (duration,))
                &&& forall|burnt: K| #[trigger]
                    call_ensures(burn, (duration,), burnt) ==> call_requires(
                        forward,
                        (call, Some(burnt)),
                    )
            },
        ensures
            gate.begun(action, call, sleep, burn, forward),
    {
        match action {
            CallAction::Forward => Gate::Passthrough { future: forward(call, None) },
            CallAction::Delay(delay) => Gate::Delayed { sleep: sleep(delay), call: Some(call) },
            CallAction::Burn(duration) => {
                let burnt = burn(duration);
                Gate::Passthrough { future: forward(call, Some(burnt)) }
            },
            CallAction::Answer(given) => Gate::Faulted { answer: Some(given) },
        }
    }

    /// `mapped` is this state with the call that is to be made, if there is
    /// one, put through `convert`.
    pub open spec fn has_call_mapped<C2, G: FnOnce(C) -> C2>(
        self,
        mapped: Gate<D, C2, F, O>,
        convert: G,
    ) -> bool {
        match self {
            Gate::Passthrough { future } => mapped == (Gate::<D, C2, F, O>::Passthrough { future }),
            Gate::Delayed { sleep, call: Some(call) } => {
                &&& mapped matches Gate::Delayed { sleep: same, call: Some(converted) }
                &&& same == sleep
                &&& call_ensures(convert, (call,), converted)
            },
            Gate::Delayed { sleep, call: None } => mapped == (Gate::<D, C2, F, O>::Delayed {
                sleep,
                call: None,
            }),
            Gate::Faulted { answer } => mapped == (Gate::<D, C2, F, O>::Faulted { answer }),
        }
    }

    fn map_call<C2, G: FnOnce(C) -> C2>(self, convert: G) -> (mapped: Gate<D, C2, F, O>)
        requires
            self matches Gate::Delayed { call: Some(call), .. } ==> call_requires(convert, (call,)),
        ensures
            self.has_call_mapped(mapped, convert),
    {
        match self {
            Gate::Passthrough { future } => Gate::Passthrough { future },
            Gate::Delayed { sleep, call: Some(call) } => Gate::Delayed {
                sleep,
                call: Some(convert(call)),
            },
            Gate::Delayed { sleep, call: None } => Gate::Delayed { sleep, call: None },
            Gate::Faulted { answer } => Gate::Faulted { answer },
        }
    }

    fn poll(&mut self) -> (step: PollStep<'_, D, F, O>)
        ensures
            match *old(self) {
                Gate::Passthrough { future } => {
                    &&& step matches PollStep::Inner(polled)
                    &&& *polled == future
                    &&& *final(self) == (Gate::<D, C, F, O>::Passthrough { future: *final(polled) })
                },
                Gate::Delayed { sleep, .. } => {
                    &&& step matches PollStep::Sleep(polled)
                    &&& *polled == sleep
                    &&& *final(self) == old(self).napped(*final(polled))
                },
                Gate::Faulted { answer: Some(answer) } => {
                    &&& step matches PollStep::Ready(given)
                    &&& given == answer
                    &&& *final(self) == old(self).answered()
                },
                Gate::Faulted { answer: None } => {
                    &&& step is Pending
                    &&& *final(self) == old(self).answered()
                },
            },
    {
        match self {
            Gate::Passthrough { future } => PollStep::Inner(future),
            Gate::Delayed { sleep, .. } => PollStep::Sleep(sleep),
            Gate::Faulted { answer } => match answer.take() {
                Some(given) => PollStep::Ready(given),
                None => PollStep::Pending,
            },
        }
    }

    fn slept<K, W: FnOnce(C, Option<K>) -> F>(&mut self, over: bool, forward: W) -> (step: PollStep<
        '_,
        D,
        F,
        O,
    >)
        requires
            *old(self) is Delayed,
            over ==> (old(self)->call matches Some(call) ==> call_requires(forward, (call, None))),
        ensures
            match old(self)->call {
                Some(call) if over => {
                    &&& step matches PollStep::Inner(polled)
                    &&& call_ensures(forward, (call, None), *polled)
                    &&& *final(self) == (Gate::<D, C, F, O>::Passthrough { future: *final(polled) })
                },
                _ => step is Pending && *final(self) == *old(self),
            },
    {
        if !over {
            return PollStep::Pending;
        }
        let waiting = match self {
            Gate::Delayed { call, .. } => call.take(),
            _ => None,
        };
        match waiting {
            Some(call) => {
                *self = Gate::Passthrough { future: forward(call, None) };
                match self {
                    Gate::Passthrough { future } => PollStep::Inner(future),
                    _ => PollStep::Pending,
                }
            },
            None => PollStep::Pending,
        }
    }
}

/// The future of one call through a [`ChaosLayer`](crate::ChaosLayer).
#[derive(Debug)]
pub struct ChaosFuture<D, C, F, E> {
    gate: Gate<D, C, F, E>,
}

impl<D, C, F, E> View for ChaosFuture<D, C, F, E> {
    type V = Gate<D, C, F, E>;

    closed spec fn view(&self) -> Gate<D, C, F, E> {
        self.gate
    }
}

impl<D, C, F, E> ChaosFuture<D, C, F, E> {
    /// Begin `call` as its action says. `sleep` starts a sleep, `burn` keeps
    /// a core busy, and `forward` makes the call, with what the burn left behind
    /// where there was one. A delayed call is put to sleep and not forwarded yet,
    /// and a call that is answered uses none of the three.
    pub fn begin<
        K,
        P: FnOnce(Duration) -> D,
        B: FnOnce(Duration) -> K,
        W: FnOnce(C, Option<K>) -> F,
    >(action: CallAction<E>, call: C, sleep: P, burn: B, forward: W) -> (future: Self)
        requires
            action is Forward ==> call_requires(forward, (call, None)),
            action matches CallAction::Delay(delay) ==> call_requires(sleep, (delay,)),
            action matches CallAction::Burn(duration) ==> {
                &&& call_requires(burn, (duration,))
                &&& forall|burnt: K| #[trigger]
                    call_ensures(burn, (duration,), burnt) ==> call_requires(
                        forward,
                        (call, Some(burnt)),
                    )
            },
        ensures
            future@.begun(action, call, sleep, burn, forward),
    {
        ChaosFuture { gate: Gate::begin(action, call, sleep, burn, forward) }
    }

    /// Put the call that is to be made after a sleep, if there is one, through
    /// `convert`: a call that was only borrowed has to be made to last.
    pub fn map_call<C2, G: FnOnce(C) -> C2>(self, convert: G) -> (mapped: ChaosFuture<D, C2, F, E>)
        requires
            self@ matches Gate::Delayed { call: Some(call), .. } ==> call_requires(convert, (call,)),
        ensures
            self@.has_call_mapped(mapped@, convert),
    {
        ChaosFuture { gate: self.gate.map_call(convert) }
    }

    /// Forward directly to the wrapped service.
    pub fn passthrough(future: F) -> (gated: Self)
        ensures
            gated@ == (Gate::<D, C, F, E>::Passthrough { future }),
    {
        ChaosFuture { gate: Gate::Passthrough { future } }
    }

    /// Sleep, then make the call.
    pub fn delayed(sleep: D, call: C) -> (gated: Self)
        ensures
            gated@ == (Gate::<D, C, F, E>::Delayed { sleep, call: Some(call) }),
    {
        ChaosFuture { gate: Gate::Delayed { sleep, call: Some(call) } }
    }

    /// Resolve immediately with the injected error.
    pub fn faulted(error: E) -> (gated: Self)
        ensures
            gated@ == (Gate::<D, C, F, E>::Faulted { answer: Some(error) }),
    {
        ChaosFuture { gate: Gate::Faulted { answer: Some(error) } }
    }

    /// Start a poll. A faulted call is ready with its error once, and stays
    /// pending from then on.
    pub fn poll<T>(&mut self) -> (step: PollStep<'_, D, F, Result<T, E>>)
        ensures
            match old(self)@ {
                Gate::Passthrough { future } => {
                    &&& step matches PollStep::Inner(polled)
                    &&& *polled == future
                    &&& final(self)@ == (Gate::<D, C, F, E>::Passthrough { future: *final(polled) })
                },
                Gate::Delayed { sleep, .. } => {
                    &&& step matches PollStep::Sleep(polled)
                    &&& *polled == sleep
                    &&& final(self)@ == old(self)@.napped(*final(polled))
                },
                Gate::Faulted { answer: Some(error) } => {
                    &&& step matches PollStep::Ready(given)
                    &&& given == Err::<T, E>(error)
                    &&& final(self)@ == old(self)@.answered()
                },
                Gate::Faulted { answer: None } => {
                    &&& step is Pending
                    &&& final(self)@ == old(self)@.answered()
                },
            },
    {
        match self.gate.poll() {
            PollStep::Inner(polled) => PollStep::Inner(polled),
            PollStep::Sleep(polled) => PollStep::Sleep(polled),
            PollStep::Ready(error) => PollStep::Ready(Err(error)),
            PollStep::Pending => PollStep::Pending,
        }
    }

    /// Go on with the poll of a delayed call whose sleep was polled. A sleep
    /// that is over has the call forwarded, as a clean call is; until then nothing
    /// changes.
    pub fn slept<T, K, W: FnOnce(C, Option<K>) -> F>(&mut self, over: bool, forward: W) -> (step:
        PollStep<'_, D, F, Result<T, E>>)
        requires
            old(self)@ is Delayed,
            over ==> (old(self)@->call matches Some(call) ==> call_requires(forward, (call, None))),
        ensures
            match old(self)@->call {
                Some(call) if over => {
                    &&& step matches PollStep::Inner(polled)
                    &&& call_ensures(forward, (call, None), *polled)
                    &&& final(self)@ == (Gate::<D, C, F, E>::Passthrough {
                        future: *final(polled),
                    })
                },
                _ => step is Pending && final(self)@ == old(self)@,
            },
    {
        match self.gate.slept(over, forward) {
            PollStep::Inner(polled) => PollStep::Inner(polled),
            PollStep::Sleep(polled) => PollStep::Sleep(polled),
            PollStep::Ready(error) => PollStep::Ready(Err(error)),
            PollStep::Pending => PollStep::Pending,
        }
    }
}

/// The future of one call through a [`ChaosMapLayer`](crate::ChaosMapLayer).
#[derive(Debug)]
pub struct ChaosMapFuture<D, C, F, T, E> {
    gate: Gate<D, C, F, Result<T, E>>,
}

impl<D, C, F, T, E> View for ChaosMapFuture<D, C, F, T, E> {
    type V = Gate<D, C, F, Result<T, E>>;

    closed spec fn view(&self) -> Gate<D, C, F, Result<T, E>> {
        self.gate
    }
}

impl<D, C, F, T, E> ChaosMapFuture<D, C, F, T, E> {
    /// Begin `call` as its action says. `sleep` starts a sleep, `burn` keeps
    /// a core busy, and `forward` makes the call, with what the burn left behind
    /// where there was one. A delayed call is put to sleep and not forwarded yet,
    /// and a call that is answered uses none of the three.
    pub fn begin<
        K,
        P: FnOnce(Duration) -> D,
        B: FnOnce(Duration) -> K,
        W: FnOnce(C, Option<K>) -> F,
    >(action: CallAction<Result<T, E>>, call: C, sleep: P, burn: B, forward: W) -> (future: Self)
        requires
            action is Forward ==> call_requires(forward, (call, None)),
            action matches CallAction::Delay(delay) ==> call_requires(sleep, (delay,)),
            action matches CallAction::Burn(duration) ==> {
                &&& call_requires(burn, (duration,))
                &&& forall|burnt: K| #[trigger]
                    call_ensures(burn, (duration,), burnt) ==> call_requires(
                        forward,
                        (call, Some(burnt)),
                    )
            },
        ensures
            future@.begun(action, call, sleep, burn, forward),
    {
        ChaosMapFuture { gate: Gate::begin(action, call, sleep, burn, forward) }
    }

    /// Put the call that is to be made after a sleep, if there is one, through
    /// `convert`: a call that was only borrowed has to be made to last.
    pub fn map_call<C2, G: FnOnce(C) -> C2>(self, convert: G) -> (mapped: ChaosMapFuture<D, C2, F, T, E>)
        requires
            self@ matches Gate::Delayed { call: Some(call), .. } ==> call_requires(convert, (call,)),
        ensures
            self@.has_call_mapped(mapped@, convert),
    {
        ChaosMapFuture { gate: self.gate.map_call(convert) }
    }

    /// Forward directly to the wrapped service.
    pub fn passthrough(future: F) -> (gated: Self)
        ensures
            gated@ == (Gate::<D, C, F, Result<T, E>>::Passthrough { future }),
    {
        ChaosMapFuture { gate: Gate::Passthrough { future } }
    }

    /// Sleep, then make the call.
    pub fn delayed(sleep: D, call: C) -> (gated: Self)
        ensures
            gated@ == (Gate::<D, C, F, Result<T, E>>::Delayed { sleep, call: Some(call) }),
    {
        ChaosMapFuture { gate: Gate::Delayed { sleep, call: Some(call) } }
    }

    /// Resolve immediately with the mapped outcome.
    pub fn faulted(outcome: Result<T, E>) -> (gated: Self)
        ensures
            gated@ == (Gate::<D, C, F, Result<T, E>>::Faulted { answer: Some(outcome) }),
    {
        ChaosMapFuture { gate: Gate::Faulted { answer: Some(outcome) } }
    }

    /// Start a poll. A faulted call is ready with its outcome once, and stays
    /// pending from then on.
    pub fn poll(&mut self) -> (step: PollStep<'_, D, F, Result<T, E>>)
        ensures
            match old(self)@ {
                Gate::Passthrough { future } => {
                    &&& step matches PollStep::Inner(polled)
                    &&& *polled == future
                    &&& final(self)@ == (Gate::<D, C, F, Result<T, E>>::Passthrough {
                        future: *final(polled),
                    })
                },
                Gate::Delayed { sleep, .. } => {
                    &&& step matches PollStep::Sleep(polled)
                    &&& *polled == sleep
                    &&& final(self)@ == old(self)@.napped(*final(polled))
                },
                Gate::Faulted { answer: Some(outcome) } => {
                    &&& step matches PollStep::Ready(given)
                    &&& given == outcome
                    &&& final(self)@ == old(self)@.answered()
                },
                Gate::Faulted { answer: None } => {
                    &&& step is Pending
                    &&& final(self)@ == old(self)@.answered()
                },
            },
    {
        self.gate.poll()
    }

    /// Go on with the poll of a delayed call whose sleep was polled. A sleep
    /// that is over has the call forwarded, as a clean call is; until then nothing
    /// changes.
    pub fn slept<K, W: FnOnce(C, Option<K>) -> F>(&mut self, over: bool, forward: W) -> (step:
        PollStep<'_, D, F, Result<T, E>>)
        requires
            old(self)@ is Delayed,
            over ==> (old(self)@->call matches Some(call) ==> call_requires(forward, (call, None))),
        ensures
            match old(self)@->call {
                Some(call) if over => {
                    &&& step matches PollStep::Inner(polled)
                    &&& call_ensures(forward, (call, None), *polled)
                    &&& final(self)@ == (Gate::<D, C, F, Result<T, E>>::Passthrough {
                        future: *final(polled),
                    })
                },
                _ => step is Pending && final(self)@ == old(self)@,
            },
    {
        self.gate.slept(over, forward)
    }
}

/// A faulted call gives its answer to the first poll and stays pending at
/// every later one.
pub proof fn answers_are_given_once<D, C, F, O>(answer: O, n: nat)
    ensures
        (Gate::<D, C, F, O>::Faulted { answer: Some(answer) }).answered_times(n) == (Gate::<
            D,
            C,
            F,
            O,
        >::Faulted {
            answer: if n == 0 {
                Some(answer)
            } else {
                None
            },
        }),
    decreases n,
{
    if n > 0 {
        answers_are_given_once::<D, C, F, O>(answer, (n - 1) as nat);
    }
}

/// A delayed call waits: however often it is polled, it is not forwarded while
/// its sleep is not over, and the call that was to be made is still to be made.
pub proof fn delayed_calls_wait<D, C, F, O>(sleep: D, call: C, naps: Seq<D>)
    ensures
        (Gate::<D, C, F, O>::Delayed { sleep, call: Some(call) }).napped_through(naps) == (Gate::<
            D,
            C,
            F,
            O,
        >::Delayed {
            sleep: if naps.len() == 0 {
                sleep
            } else {
                naps.last()
            },
            call: Some(call),
        }),
    decreases naps.len(),
{
    if naps.len() > 0 {
        delayed_calls_wait::<D, C, F, O>(sleep, call, naps.drop_last());
    }
}

} // verus!
