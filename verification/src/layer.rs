//! Services wrapped in chaos: one fault per call index.
//!
//! A layer numbers its calls, consults its schedule and says what to do with
//! each call; whoever holds the wrapped service carries that out. There are
//! two error contracts: [`ChaosLayer`] turns an injected [`ChaosError`] into
//! the caller's error type by `From`, and [`ChaosMapLayer`] hands it to a
//! closure, which may answer with a response or an error of its own choosing.

use crate::fault::ChaosError;
use crate::recorder::ChaosRecorder;
use crate::schedule::{ChaosSchedule, Fate, ScheduleView};
use crate::store::{ChaosStore, CounterId, StoreView};
use std::time::Duration;
use vstd::prelude::*;

verus! {

/// What to do with one call. `O` is what a rejected call is answered with.
#[derive(Debug)]
pub enum CallAction<O> {
    /// Forward the call.
    Forward,
    /// Sleep this long, then forward the call.
    Delay(Duration),
    /// Keep a core busy this long, then forward the call.
    Burn(Duration),
    /// Answer at once; the wrapped service is not called.
    Answer(O),
}

impl<O> CallAction<O> {
    /// The same action, with the answer of a rejected call put through
    /// `convert`.
    pub fn map_answer<P, G: FnOnce(O) -> P>(self, convert: G) -> (action: CallAction<P>)
        requires
            self matches CallAction::Answer(answer) ==> call_requires(convert, (answer,)),
        ensures
            match self {
                CallAction::Forward => action == CallAction::<P>::Forward,
                CallAction::Delay(delay) => action == CallAction::<P>::Delay(delay),
                CallAction::Burn(duration) => action == CallAction::<P>::Burn(duration),
                CallAction::Answer(answer) => action matches CallAction::Answer(converted)
                    && call_ensures(convert, (answer,), converted),
            },
    {
        match self {
            CallAction::Forward => CallAction::Forward,
            CallAction::Delay(delay) => CallAction::Delay(delay),
            CallAction::Burn(duration) => CallAction::Burn(duration),
            CallAction::Answer(answer) => CallAction::Answer(convert(answer)),
        }
    }
}

/// `action` carries out `fate`, where a call that is rejected with an
/// error may be given any of the answers that `answers` relates to it.
pub open spec fn carries_out<O>(
    action: CallAction<O>,
    fate: Fate,
    answers: spec_fn(ChaosError, O) -> bool,
) -> bool {
    match fate {
        Fate::Forward => action == CallAction::<O>::Forward,
        Fate::Delay(delay) => action == CallAction::<O>::Delay(delay),
        Fate::Burn(duration) => action == CallAction::<O>::Burn(duration),
        Fate::Reject(error) => action matches CallAction::Answer(answer) && answers(
            error,
            answer,
        ),
    }
}

/// The parts of a layer that decide about calls.
#[verifier::ext_equal]
pub struct LayerView {
    /// The schedule that is consulted.
    pub schedule: ScheduleView,
    /// The place of the call counter in the store.
    pub counter: nat,
}

impl LayerView {
    /// The layer's recorder and counter are in the store.
    pub open spec fn lives_in(self, store: StoreView) -> bool {
        &&& self.schedule.lives_in(store)
        &&& self.counter < store.counters.len()
    }

    /// The index that the next call gets.
    pub open spec fn next_index(self, store: StoreView) -> u64 {
        store.counters[self.counter as int]
    }

    /// What becomes of the next call.
    pub open spec fn next_fate(self, store: StoreView) -> Fate {
        self.schedule.fate(self.next_index(store))
    }

    /// The store after the next call: its index is taken, and the fault that
    /// it meets is counted.
    pub open spec fn after_call(self, store: StoreView) -> StoreView {
        self.schedule.after_index(store.with_index_taken(self.counter), self.next_index(store))
    }

    /// The store after `n` calls.
    pub open spec fn after_calls(self, store: StoreView, n: nat) -> StoreView
        decreases n,
    {
        if n == 0 {
            store
        } else {
            self.after_call(self.after_calls(store, (n - 1) as nat))
        }
    }
}

/// Number the next call of the counter and decide what becomes of it.
fn next_call(schedule: &ChaosSchedule, counter: CounterId, store: &mut ChaosStore) -> (fate:
    Fate)
    requires
        (LayerView { schedule: schedule@, counter: counter.slot() }).lives_in(old(store)@),
    ensures
        fate == (LayerView { schedule: schedule@, counter: counter.slot() }).next_fate(
            old(store)@,
        ),
        final(store)@ == (LayerView { schedule: schedule@, counter: counter.slot() }).after_call(
            old(store)@,
        ),
{
    let index: u64 = store.take_index(counter);
    schedule.strike(index, store)
}

/// Wraps services in a [`ChaosSchedule`]; made by [`chaos_layer`].
#[derive(Debug)]
pub struct ChaosMakeLayer {
    schedule: ChaosSchedule,
}

impl View for ChaosMakeLayer {
    type V = ScheduleView;

    closed spec fn view(&self) -> ScheduleView {
        self.schedule@
    }
}

impl Clone for ChaosMakeLayer {
    fn clone(&self) -> (copy: Self)
        ensures
            copy@ == self@,
    {
        ChaosMakeLayer { schedule: self.schedule.clone() }
    }
}

impl ChaosMakeLayer {
    /// Wrap `inner`. The layer shares the schedule's recorder and numbers its
    /// own calls from zero.
    pub fn layer<S>(&self, inner: S, store: &mut ChaosStore) -> (layer: ChaosLayer<S>)
        ensures
            layer.wrapped() == inner,
            layer@ == (LayerView { schedule: self@, counter: old(store)@.counters.len() }),
            final(store)@ == (StoreView {
                recorders: old(store)@.recorders,
                counters: old(store)@.counters.push(0),
            }),
    {
        ChaosLayer::new(inner, self.schedule.clone(), store)
    }
}

/// Build a chaos layer for `schedule`, ready to wrap a service.
pub fn chaos_layer(schedule: ChaosSchedule) -> (make: ChaosMakeLayer)
    ensures
        make@ == schedule@,
{
    ChaosMakeLayer { schedule }
}

/// A service wrapped in chaos.
///
/// Clones share the call counter and the recorder.
#[derive(Debug)]
pub struct ChaosLayer<S> {
    inner: S,
    schedule: ChaosSchedule,
    counter: CounterId,
}

impl<S> View for ChaosLayer<S> {
    type V = LayerView;

    closed spec fn view(&self) -> LayerView {
        LayerView { schedule: self.schedule@, counter: self.counter.slot() }
    }
}

impl<S: Clone> Clone for ChaosLayer<S> {
    fn clone(&self) -> (copy: Self)
        ensures
            copy@ == self@,
            cloned(self.wrapped(), copy.wrapped()),
    {
        ChaosLayer {
            inner: self.inner.clone(),
            schedule: self.schedule.clone(),
            counter: self.counter,
        }
    }
}

impl<S> ChaosLayer<S> {
    /// The wrapped service.
    pub closed spec fn wrapped(&self) -> S {
        self.inner
    }

    /// Wrap `inner` so that calls are gated by `schedule`. The layer's first
    /// call has index zero.
    pub fn new(inner: S, schedule: ChaosSchedule, store: &mut ChaosStore) -> (layer: Self)
        ensures
            layer.wrapped() == inner,
            layer@ == (LayerView { schedule: schedule@, counter: old(store)@.counters.len() }),
            final(store)@ == (StoreView {
                recorders: old(store)@.recorders,
                counters: old(store)@.counters.push(0),
            }),
    {
        let counter = store.open_counter();
        ChaosLayer { inner, schedule, counter }
    }

    /// The wrapped service, to be called.
    pub fn inner_mut(&mut self) -> (inner: &mut S)
        ensures
            *inner == old(self).wrapped(),
            final(self).wrapped() == *final(inner),
            final(self)@ == old(self)@,
    {
        &mut self.inner
    }

    /// The schedule driving this layer.
    pub fn schedule(&self) -> (schedule: &ChaosSchedule)
        ensures
            schedule@ == self@.schedule,
    {
        &self.schedule
    }

    /// The recorder that counts the faults this layer applies.
    pub fn recorder<'a>(&self, store: &'a ChaosStore) -> (recorder: &'a ChaosRecorder)
        requires
            self@.schedule.lives_in(store@),
        ensures
            recorder@ == self@.schedule.counts_in(store@),
    {
        self.schedule.recorder(store)
    }

    /// Number the next call, count the fault that it meets, and decide what
    /// becomes of it.
    pub fn next_call(&self, store: &mut ChaosStore) -> (fate: Fate)
        requires
            self@.lives_in(old(store)@),
        ensures
            fate == self@.next_fate(old(store)@),
            final(store)@ == self@.after_call(old(store)@),
    {
        next_call(&self.schedule, self.counter, store)
    }

    /// Say what to do with a call that this was decided of. An injected error
    /// is converted by `From`.
    pub fn resolve<E: From<ChaosError>>(&self, fate: Fate) -> (action: CallAction<E>)
        ensures
            carries_out(
                action,
                fate,
                |error: ChaosError, answer: E| call_ensures(E::from, (error,), answer),
            ),
    {
        match fate {
            Fate::Forward => CallAction::Forward,
            Fate::Delay(delay) => CallAction::Delay(delay),
            Fate::Burn(duration) => CallAction::Burn(duration),
            Fate::Reject(error) => CallAction::Answer(error.into()),
        }
    }

    /// Number the next call, count the fault that it meets, and say what to
    /// do with it. An injected error is converted by `From`.
    pub fn call<E: From<ChaosError>>(&self, store: &mut ChaosStore) -> (action: CallAction<E>)
        requires
            self@.lives_in(old(store)@),
        ensures
            carries_out(
                action,
                self@.next_fate(old(store)@),
                |error: ChaosError, answer: E| call_ensures(E::from, (error,), answer),
            ),
            final(store)@ == self@.after_call(old(store)@),
    {
        let fate = self.next_call(store);
        self.resolve(fate)
    }
}

/// Wraps services in a [`ChaosSchedule`] with a mapping for injected errors;
/// made by [`chaos_layer_map`].
pub struct ChaosMakeMapLayer<F> {
    schedule: ChaosSchedule,
    map: F,
}

impl<F> View for ChaosMakeMapLayer<F> {
    type V = ScheduleView;

    closed spec fn view(&self) -> ScheduleView {
        self.schedule@
    }
}

impl<F: Clone> Clone for ChaosMakeMapLayer<F> {
    fn clone(&self) -> (copy: Self)
        ensures
            copy@ == self@,
            cloned(self.mapping(), copy.mapping()),
    {
        ChaosMakeMapLayer { schedule: self.schedule.clone(), map: self.map.clone() }
    }
}

impl<F> ChaosMakeMapLayer<F> {
    /// The mapping for injected errors.
    pub closed spec fn mapping(&self) -> F {
        self.map
    }
}

impl<F: Clone> ChaosMakeMapLayer<F> {
    /// Wrap `inner`. The layer shares the schedule's recorder, has a clone of
    /// the mapping and numbers its own calls from zero.
    pub fn layer<S>(&self, inner: S, store: &mut ChaosStore) -> (layer: ChaosMapLayer<S, F>)
        ensures
            layer.wrapped() == inner,
            cloned(self.mapping(), layer.mapping()),
            layer@ == (LayerView { schedule: self@, counter: old(store)@.counters.len() }),
            final(store)@ == (StoreView {
                recorders: old(store)@.recorders,
                counters: old(store)@.counters.push(0),
            }),
    {
        ChaosMapLayer::new(inner, self.schedule.clone(), self.map.clone(), store)
    }
}

/// Build a chaos layer whose injected errors go through `map`, for services
/// whose error type cannot absorb a [`ChaosError`].
pub fn chaos_layer_map<F>(schedule: ChaosSchedule, map: F) -> (make: ChaosMakeMapLayer<F>)
    ensures
        make@ == schedule@,
        make.mapping() == map,
{
    ChaosMakeMapLayer { schedule, map }
}

/// A service wrapped in chaos, with a mapping for injected errors.
///
/// Clones share the call counter and the recorder.
pub struct ChaosMapLayer<S, F> {
    inner: S,
    schedule: ChaosSchedule,
    counter: CounterId,
    map: F,
}

impl<S, F> View for ChaosMapLayer<S, F> {
    type V = LayerView;

    closed spec fn view(&self) -> LayerView {
        LayerView { schedule: self.schedule@, counter: self.counter.slot() }
    }
}

impl<S: Clone, F: Clone> Clone for ChaosMapLayer<S, F> {
    fn clone(&self) -> (copy: Self)
        ensures
            copy@ == self@,
            cloned(self.wrapped(), copy.wrapped()),
            cloned(self.mapping(), copy.mapping()),
    {
        ChaosMapLayer {
            inner: self.inner.clone(),
            schedule: self.schedule.clone(),
            counter: self.counter,
            map: self.map.clone(),
        }
    }
}

impl<S, F> ChaosMapLayer<S, F> {
    /// The wrapped service.
    pub closed spec fn wrapped(&self) -> S {
        self.inner
    }

    /// The mapping for injected errors.
    pub closed spec fn mapping(&self) -> F {
        self.map
    }

    /// Wrap `inner` so that calls are gated by `schedule` and injected errors
    /// go through `map`. The layer's first call has index zero.
    pub fn new(inner: S, schedule: ChaosSchedule, map: F, store: &mut ChaosStore) -> (layer: Self)
        ensures
            layer.wrapped() == inner,
            layer.mapping() == map,
            layer@ == (LayerView { schedule: schedule@, counter: old(store)@.counters.len() }),
            final(store)@ == (StoreView {
                recorders: old(store)@.recorders,
                counters: old(store)@.counters.push(0),
            }),
    {
        let counter = store.open_counter();
        ChaosMapLayer { inner, schedule, counter, map }
    }

    /// The wrapped service.
    pub fn inner(&self) -> (inner: &S)
        ensures
            *inner == self.wrapped(),
    {
        &self.inner
    }

    /// The wrapped service, to be called.
    pub fn inner_mut(&mut self) -> (inner: &mut S)
        ensures
            *inner == old(self).wrapped(),
            final(self).wrapped() == *final(inner),
            final(self).mapping() == old(self).mapping(),
            final(self)@ == old(self)@,
    {
        &mut self.inner
    }

    /// The schedule driving this layer.
    pub fn schedule(&self) -> (schedule: &ChaosSchedule)
        ensures
            schedule@ == self@.schedule,
    {
        &self.schedule
    }

    /// The recorder that counts the faults this layer applies.
    pub fn recorder<'a>(&self, store: &'a ChaosStore) -> (recorder: &'a ChaosRecorder)
        requires
            self@.schedule.lives_in(store@),
        ensures
            recorder@ == self@.schedule.counts_in(store@),
    {
        self.schedule.recorder(store)
    }

    /// Number the next call, count the fault that it meets, and decide what
    /// becomes of it.
    pub fn next_call(&self, store: &mut ChaosStore) -> (fate: Fate)
        requires
            self@.lives_in(old(store)@),
        ensures
            fate == self@.next_fate(old(store)@),
            final(store)@ == self@.after_call(old(store)@),
    {
        next_call(&self.schedule, self.counter, store)
    }

    /// Say what to do with a call that this was decided of. An injected error
    /// goes through the mapping.
    pub fn resolve<T, E>(&self, fate: Fate) -> (action: CallAction<Result<T, E>>) where
        F: Fn(ChaosError) -> Result<T, E>,

        requires
            fate matches Fate::Reject(error) ==> call_requires(self.mapping(), (error,)),
        ensures
            carries_out(
                action,
                fate,
                |error: ChaosError, answer: Result<T, E>|
                    call_ensures(self.mapping(), (error,), answer),
            ),
    {
        match fate {
            Fate::Forward => CallAction::Forward,
            Fate::Delay(delay) => CallAction::Delay(delay),
            Fate::Burn(duration) => CallAction::Burn(duration),
            Fate::Reject(error) => CallAction::Answer((self.map)(error)),
        }
    }

    /// Say what to do with a call that this was decided of, for a mapping that
    /// takes errors of another type. An injected error is put through `convert`
    /// and then through the mapping.
    pub fn resolve_as<A, T, E, G: FnOnce(ChaosError) -> A>(&self, fate: Fate, convert: G) -> (action:
        CallAction<Result<T, E>>) where F: Fn(A) -> Result<T, E>
        requires
            fate matches Fate::Reject(error) ==> {
                &&& call_requires(convert, (error,))
                &&& forall|converted: A| #[trigger]
                    call_ensures(convert, (error,), converted) ==> call_requires(
                        self.mapping(),
                        (converted,),
                    )
            },
        ensures
            carries_out(
                action,
                fate,
                |error: ChaosError, answer: Result<T, E>|
                    exists|converted: A| #[trigger]
                        call_ensures(convert, (error,), converted) && call_ensures(
                            self.mapping(),
                            (converted,),
                            answer,
                        ),
            ),
    {
        match fate {
            Fate::Forward => CallAction::Forward,
            Fate::Delay(delay) => CallAction::Delay(delay),
            Fate::Burn(duration) => CallAction::Burn(duration),
            Fate::Reject(error) => CallAction::Answer((self.map)(convert(error))),
        }
    }

    /// Number the next call, count the fault that it meets, and say what to
    /// do with it. An injected error goes through the mapping.
    pub fn call<T, E>(&self, store: &mut ChaosStore) -> (action: CallAction<Result<T, E>>) where
        F: Fn(ChaosError) -> Result<T, E>,

        requires
            self@.lives_in(old(store)@),
            self@.next_fate(old(store)@) matches Fate::Reject(error) ==> call_requires(
                self.mapping(),
                (error,),
            ),
        ensures
            carries_out(
                action,
                self@.next_fate(old(store)@),
                |error: ChaosError, answer: Result<T, E>|
                    call_ensures(self.mapping(), (error,), answer),
            ),
            final(store)@ == self@.after_call(old(store)@),
    {
        let fate = self.next_call(store);
        self.resolve(fate)
    }
}

} // verus!
