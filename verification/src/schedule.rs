//! Deterministic chaos scheduling.
//!
//! A [`ChaosSchedule`] maps call indices to [`Fault`]s as a pure function of
//! the index, the rules and the seed: the same seed and the same call
//! sequence give the same chaos.

use crate::fault::{ChaosError, Fault, FaultKind};
use crate::laws::{clean_exactly_where_no_rule_fires, latest_firing_rule_wins};
use crate::rate::{Rate, DRAW_SCALE};
use crate::recorder::{no_counts, ChaosRecorder};
use crate::splitmix::{splitmix64, word, GOLDEN_GAMMA};
use crate::store::{ChaosStore, RecorderId, StoreView};
use std::time::Duration;
use vstd::prelude::*;

verus! {

/// One scheduling rule; later rules take precedence over earlier ones.
#[derive(Debug)]
pub enum Rule {
    /// Fire exactly once, at this call index.
    At(u64, Fault),
    /// Fire on every call index that this number divides; never for zero.
    Every(u64, Fault),
    /// Fire on the inclusive range of call indices, empty when reversed.
    Window(u64, u64, Fault),
}

impl Clone for Rule {
    fn clone(&self) -> (copy: Self)
        ensures
            copy == *self,
    {
        match self {
            Rule::At(at, fault) => Rule::At(*at, fault.clone()),
            Rule::Every(period, fault) => Rule::Every(*period, fault.clone()),
            Rule::Window(from, to, fault) => Rule::Window(*from, *to, fault.clone()),
        }
    }
}

impl Rule {
    /// The rule fires at `index`.
    pub open spec fn fires_at(self, index: u64) -> bool {
        match self {
            Rule::At(at, _) => at == index,
            Rule::Every(period, _) => period != 0 && index % period == 0,
            Rule::Window(from, to, _) => from <= index <= to,
        }
    }

    /// The fault that the rule schedules.
    pub open spec fn payload(self) -> Fault {
        match self {
            Rule::At(_, fault) => fault,
            Rule::Every(_, fault) => fault,
            Rule::Window(_, _, fault) => fault,
        }
    }

    /// Whether the rule fires at `call_index`.
    pub fn matches(&self, call_index: u64) -> (fires: bool)
        ensures
            fires == self.fires_at(call_index),
    {
        match self {
            Rule::At(at, _) => *at == call_index,
            Rule::Every(period, _) => *period != 0 && call_index % *period == 0,
            Rule::Window(from, to, _) => *from <= call_index && call_index <= *to,
        }
    }

    /// The fault that the rule schedules.
    pub fn fault(&self) -> (fault: &Fault)
        ensures
            *fault == self.payload(),
    {
        match self {
            Rule::At(_, fault) => fault,
            Rule::Every(_, fault) => fault,
            Rule::Window(_, _, fault) => fault,
        }
    }
}

/// The fault of the last rule that fires at `index`, if one does.
pub open spec fn last_firing(rules: Seq<Rule>, index: u64) -> Option<Fault>
    decreases rules.len(),
{
    if rules.len() == 0 {
        None
    } else if rules.last().fires_at(index) {
        Some(rules.last().payload())
    } else {
        last_firing(rules.drop_last(), index)
    }
}

/// What becomes of one call.
#[derive(Debug)]
pub enum Fate {
    /// The call goes through untouched.
    Forward,
    /// The call goes through after this delay.
    Delay(Duration),
    /// The call goes through after a core was kept busy this long.
    Burn(Duration),
    /// The call is answered with this error and does not go through.
    Reject(ChaosError),
}

impl Fate {
    /// The call reaches the wrapped service.
    pub open spec fn forwards(self) -> bool {
        self !is Reject
    }
}

/// A deterministic fault schedule.
///
/// Clones keep the seed and the rules, and count into the same recorder.
#[derive(Debug)]
pub struct ChaosSchedule {
    seed: u64,
    rules: Vec<Rule>,
    recorder: RecorderId,
}

/// What a [`ChaosSchedule`] holds.
#[verifier::ext_equal]
pub struct ScheduleView {
    /// The seed behind every draw.
    pub seed: u64,
    /// The rules, oldest first.
    pub rules: Seq<Rule>,
    /// The place of the recorder in the store.
    pub recorder: nat,
}

impl ScheduleView {
    /// The schedule's recorder is in the store.
    pub open spec fn lives_in(self, store: StoreView) -> bool {
        self.recorder < store.recorders.len()
    }

    /// The counts of the schedule's recorder.
    pub open spec fn counts_in(self, store: StoreView) -> Map<FaultKind, usize> {
        store.recorders[self.recorder as int]
    }

    /// The schedule with one more rule.
    pub open spec fn with_rule(self, rule: Rule) -> ScheduleView {
        ScheduleView { seed: self.seed, rules: self.rules.push(rule), recorder: self.recorder }
    }

    /// The fault scheduled for `index`.
    pub open spec fn fault_for(self, index: u64) -> Option<Fault> {
        last_firing(self.rules, index)
    }

    /// The draw for `index`, in units of `2^-53`: the upper 53 bits of its
    /// word.
    pub open spec fn draw(self, index: u64) -> nat {
        word(self.seed, index) as nat / 2048
    }

    /// The draw for `index` is less than `rate`.
    pub open spec fn drops(self, index: u64, rate: Rate) -> bool {
        rate.above(self.draw(index))
    }

    /// The fault that a call at `index` meets: the scheduled one, unless it
    /// is a throttle that this index survives.
    pub open spec fn applied(self, index: u64) -> Option<Fault> {
        match self.fault_for(index) {
            Some(Fault::Throttle { rate }) if !self.drops(index, rate) => None,
            scheduled => scheduled,
        }
    }

    /// What becomes of a call at `index`.
    pub open spec fn fate(self, index: u64) -> Fate {
        match self.applied(index) {
            None => Fate::Forward,
            Some(Fault::Latency(delay)) => Fate::Delay(delay),
            Some(Fault::Error(error)) => Fate::Reject(error),
            Some(Fault::Partition { .. }) => Fate::Reject(ChaosError::Unavailable),
            Some(Fault::Throttle { .. }) => Fate::Reject(ChaosError::Unavailable),
            Some(Fault::Cpu(duration)) => Fate::Burn(duration),
        }
    }

    /// The store after the fault that a call at `index` meets was counted.
    pub open spec fn after_index(self, store: StoreView, index: u64) -> StoreView {
        match self.applied(index) {
            None => store,
            Some(fault) => store.with_record(self.recorder, fault.spec_kind()),
        }
    }
}

impl View for ChaosSchedule {
    type V = ScheduleView;

    closed spec fn view(&self) -> ScheduleView {
        ScheduleView { seed: self.seed, rules: self.rules@, recorder: self.recorder.slot() }
    }
}

impl Clone for ChaosSchedule {
    fn clone(&self) -> (copy: Self)
        ensures
            copy@ == self@,
    {
        let mut rules: Vec<Rule> = Vec::new();
        let count: usize = self.rules.len();
        for i in 0..count
            invariant
                count == self.rules@.len(),
                rules@ == self.rules@.take(i as int),
        {
            rules.push(self.rules[i].clone());
        }
        ChaosSchedule { seed: self.seed, rules, recorder: self.recorder }
    }
}

impl ChaosSchedule {
    /// A schedule with the given seed, no rules and a recorder of its own, at
    /// zero. Nothing fires until rules are added.
    pub fn seeded(seed: u64, store: &mut ChaosStore) -> (schedule: Self)
        ensures
            schedule@ == (ScheduleView {
                seed,
                rules: Seq::empty(),
                recorder: old(store)@.recorders.len(),
            }),
            final(store)@ == (StoreView {
                recorders: old(store)@.recorders.push(no_counts()),
                counters: old(store)@.counters,
            }),
    {
        let recorder = store.open_recorder();
        ChaosSchedule { seed, rules: Vec::new(), recorder }
    }

    /// Schedule `fault` at exactly `call_index`.
    pub fn fault_at(self, call_index: u64, fault: Fault) -> (schedule: Self)
        ensures
            schedule@ == self@.with_rule(Rule::At(call_index, fault)),
    {
        self.ruled(Rule::At(call_index, fault))
    }

    /// Schedule `fault` on every call index divisible by `n`; never for
    /// `n == 0`.
    pub fn fault_every(self, n: u64, fault: Fault) -> (schedule: Self)
        ensures
            schedule@ == self@.with_rule(Rule::Every(n, fault)),
    {
        self.ruled(Rule::Every(n, fault))
    }

    /// Schedule `fault` on the inclusive call-index range
    /// `[from_call, to_call]`; never when it is reversed.
    pub fn window(self, from_call: u64, to_call: u64, fault: Fault) -> (schedule: Self)
        ensures
            schedule@ == self@.with_rule(Rule::Window(from_call, to_call, fault)),
    {
        self.ruled(Rule::Window(from_call, to_call, fault))
    }

    fn ruled(self, rule: Rule) -> (schedule: Self)
        ensures
            schedule@ == self@.with_rule(rule),
    {
        let ChaosSchedule { seed, mut rules, recorder } = self;
        rules.push(rule);
        ChaosSchedule { seed, rules, recorder }
    }

    /// The place of the rule that decides at `call_index`, if one fires there:
    /// the most recently added one, counting from the oldest.
    pub fn rule_for(&self, call_index: u64) -> (place: Option<usize>)
        ensures
            match place {
                Some(latest) => {
                    &&& latest < self@.rules.len()
                    &&& self@.rules[latest as int].fires_at(call_index)
                    &&& forall|later: int|
                        latest < later < self@.rules.len() ==> !(
                        #[trigger] self@.rules[later]).fires_at(call_index)
                },
                None => forall|i: int|
                    0 <= i < self@.rules.len() ==> !(#[trigger] self@.rules[i]).fires_at(
                        call_index,
                    ),
            },
    {
        let mut left: usize = self.rules.len();
        while left > 0
            invariant
                left <= self.rules@.len(),
                forall|later: int|
                    left <= later < self.rules@.len() ==> !(
                    #[trigger] self.rules@[later]).fires_at(call_index),
            decreases left,
        {
            left = left - 1;
            if self.rules[left].matches(call_index) {
                return Some(left);
            }
        }
        None
    }

    /// The fault scheduled for `call_index`, if any. When several rules fire,
    /// the most recently added one wins.
    pub fn fault_for(&self, call_index: u64) -> (fault: Option<&Fault>)
        ensures
            match fault {
                Some(scheduled) => self@.fault_for(call_index) == Some(*scheduled),
                None => self@.fault_for(call_index) is None,
            },
    {
        match self.rule_for(call_index) {
            Some(latest) => {
                proof {
                    latest_firing_rule_wins(self@.rules, latest as int, call_index);
                }
                Some(self.rules[latest].fault())
            },
            None => {
                proof {
                    clean_exactly_where_no_rule_fires(self@.rules, call_index);
                }
                None
            },
        }
    }

    /// The draw for `call_index`: a number below `2^53`, standing for the
    /// probability of that many `2^53`ths. A function of the seed and the
    /// index alone.
    pub fn draw(&self, call_index: u64) -> (draw: u64)
        ensures
            draw == self@.draw(call_index),
            draw < DRAW_SCALE,
    {
        let mut state: u64 = self.seed ^ call_index.wrapping_mul(GOLDEN_GAMMA);
        let _ = splitmix64(&mut state);
        let z: u64 = splitmix64(&mut state);
        assert(z >> 11 == z / 2048) by (bit_vector);
        z >> 11
    }

    /// Whether a [`Fault::Throttle`] with this rate drops `call_index`.
    pub fn drops(&self, call_index: u64, rate: Rate) -> (dropped: bool)
        ensures
            dropped == self@.drops(call_index, rate),
    {
        rate.exceeds(self.draw(call_index))
    }

    /// The seed this schedule was built with.
    pub fn seed(&self) -> (seed: u64)
        ensures
            seed == self@.seed,
    {
        self.seed
    }

    /// The recorder that this schedule and its clones count into.
    pub fn recorder<'a>(&self, store: &'a ChaosStore) -> (recorder: &'a ChaosRecorder)
        requires
            self@.lives_in(store@),
        ensures
            recorder@ == self@.counts_in(store@),
    {
        store.recorder(self.recorder)
    }

    /// The recorder that this schedule and its clones count into, to be
    /// changed in place.
    pub fn recorder_mut<'a>(&self, store: &'a mut ChaosStore) -> (recorder: &'a mut ChaosRecorder)
        requires
            self@.lives_in(old(store)@),
        ensures
            recorder@ == self@.counts_in(old(store)@),
            final(store)@ == old(store)@.with_counts(self@.recorder, final(recorder)@),
    {
        store.recorder_mut(self.recorder)
    }

    /// Count an injected fault of `kind` in the schedule's recorder.
    pub fn record(&self, kind: FaultKind, store: &mut ChaosStore)
        requires
            self@.lives_in(old(store)@),
        ensures
            final(store)@ == old(store)@.with_record(self@.recorder, kind),
    {
        self.recorder_mut(store).record(kind);
    }

    /// Decide what becomes of a call at `call_index`, and count the fault
    /// that it meets, if any.
    pub fn strike(&self, call_index: u64, store: &mut ChaosStore) -> (fate: Fate)
        requires
            self@.lives_in(old(store)@),
        ensures
            fate == self@.fate(call_index),
            final(store)@ == self@.after_index(old(store)@, call_index),
    {
        match self.fault_for(call_index) {
            Some(Fault::Latency(delay)) => {
                self.record(FaultKind::Latency, store);
                Fate::Delay(*delay)
            },
            Some(Fault::Error(error)) => {
                self.record(FaultKind::Error, store);
                Fate::Reject(error.clone())
            },
            Some(Fault::Partition { .. }) => {
                self.record(FaultKind::Partition, store);
                Fate::Reject(ChaosError::Unavailable)
            },
            Some(Fault::Throttle { rate }) => {
                if self.drops(call_index, *rate) {
                    self.record(FaultKind::Throttle, store);
                    Fate::Reject(ChaosError::Unavailable)
                } else {
                    Fate::Forward
                }
            },
            Some(Fault::Cpu(duration)) => {
                self.record(FaultKind::Cpu, store);
                Fate::Burn(*duration)
            },
            None => Fate::Forward,
        }
    }
}

} // verus!
