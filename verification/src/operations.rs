//! What the operations do, stated of their calls: whatever a call was given and
//! whatever it returned, these hold of the two.

use crate::burn::{burn_cpu, BurnStep};
use crate::clock::{current_flavor, PausableClock, PauseRefusal, RuntimeFlavor};
use crate::fault::{ChaosError, Fault, FaultKind};
use crate::future::{ChaosFuture, ChaosMapFuture, Gate, PollStep};
use crate::laws::{
    clean_exactly_where_no_rule_fires, draws_are_upper_bits_of_the_stream, draws_stride_the_seed, latest_firing_rule_wins,
    rates_mean_their_bits, strikes_count_once,
};
use crate::layer::{
    chaos_layer, chaos_layer_map, CallAction, ChaosLayer, ChaosMakeLayer, ChaosMakeMapLayer,
    ChaosMapLayer,
};
use crate::rate::Rate;
use crate::recorder::ChaosRecorder;
use crate::schedule::{ChaosSchedule, Fate, Rule};
use crate::splitmix::{mixing_is_undone, splitmix64};
use crate::store::{ChaosStore, CounterId};
use std::time::Duration;
use vstd::arithmetic::div_mod::lemma_fundamental_div_mod_converse;
use vstd::arithmetic::power2::pow2;
use vstd::prelude::*;

verus! {

/// A new schedule has its seed, schedules nothing, and counts from zero in a
/// recorder of its own; all that the store held before stays as it was.
pub proof fn seeded_schedules_are_clean(
    seed: u64,
    store: &mut ChaosStore,
    schedule: ChaosSchedule,
    told: u64,
    index: u64,
    found: Option<&Fault>,
    kind: FaultKind,
    earlier: int,
)
    requires
        call_ensures(ChaosSchedule::seeded, (seed, store), schedule),
        call_ensures(ChaosSchedule::seed, (&schedule,), told),
        call_ensures(ChaosSchedule::fault_for, (&schedule, index), found),
        0 <= earlier < old(store)@.recorders.len(),
    ensures
        told == seed,
        found is None,
        schedule@.recorder == old(store)@.recorders.len(),
        final(store)@.recorders.len() == old(store)@.recorders.len() + 1,
        final(store)@.recorders[old(store)@.recorders.len() as int][kind] == 0,
        final(store)@.recorders[earlier] == old(store)@.recorders[earlier],
        final(store)@.counters == old(store)@.counters,
{
}

/// A fault scheduled at an index is found there, and everywhere else what was
/// found before.
pub proof fn fault_at_schedules_one_index(
    schedule: ChaosSchedule,
    at: u64,
    fault: Fault,
    ruled: ChaosSchedule,
    index: u64,
    before: Option<&Fault>,
    found: Option<&Fault>,
)
    requires
        call_ensures(ChaosSchedule::fault_at, (schedule, at, fault), ruled),
        call_ensures(ChaosSchedule::fault_for, (&schedule, index), before),
        call_ensures(ChaosSchedule::fault_for, (&ruled, index), found),
    ensures
        index == at ==> found == Some(&fault),
        index != at ==> found == before,
        ruled@.seed == schedule@.seed,
        ruled@.recorder == schedule@.recorder,
{
    assert(schedule@.rules.push(Rule::At(at, fault)).drop_last() =~= schedule@.rules);
}

/// A fault scheduled on a period is found at the period's multiples; between
/// two multiples, and for the period zero, what was found before is found.
pub proof fn fault_every_schedules_multiples(
    schedule: ChaosSchedule,
    period: u64,
    fault: Fault,
    ruled: ChaosSchedule,
    index: u64,
    before: Option<&Fault>,
    found: Option<&Fault>,
    multiple: nat,
)
    requires
        call_ensures(ChaosSchedule::fault_every, (schedule, period, fault), ruled),
        call_ensures(ChaosSchedule::fault_for, (&schedule, index), before),
        call_ensures(ChaosSchedule::fault_for, (&ruled, index), found),
    ensures
        period == 0 ==> found == before,
        period > 0 && index == multiple * period ==> found == Some(&fault),
        multiple * period < index < multiple * period + period ==> found == before,
        ruled@.seed == schedule@.seed,
        ruled@.recorder == schedule@.recorder,
{
    assert(schedule@.rules.push(Rule::Every(period, fault)).drop_last() =~= schedule@.rules);
    let rest: int = index - multiple * period;
    if 0 <= rest < period {
        lemma_fundamental_div_mod_converse(
            index as int,
            period as int,
            multiple as int,
            rest,
        );
    }
}

/// A fault scheduled on a range is found from one end to the other, both
/// included, and everywhere else what was found before.
pub proof fn window_schedules_a_range(
    schedule: ChaosSchedule,
    from: u64,
    to: u64,
    fault: Fault,
    ruled: ChaosSchedule,
    index: u64,
    before: Option<&Fault>,
    found: Option<&Fault>,
)
    requires
        call_ensures(ChaosSchedule::window, (schedule, from, to, fault), ruled),
        call_ensures(ChaosSchedule::fault_for, (&schedule, index), before),
        call_ensures(ChaosSchedule::fault_for, (&ruled, index), found),
    ensures
        from <= index && index <= to ==> found == Some(&fault),
        index < from || to < index ==> found == before,
        ruled@.seed == schedule@.seed,
        ruled@.recorder == schedule@.recorder,
{
    assert(schedule@.rules.push(Rule::Window(from, to, fault)).drop_last() =~= schedule@.rules);
}

/// A rule fires where it was made to, and carries the fault that it was made
/// with.
pub proof fn rules_fire_where_they_were_made_to(
    at: u64,
    period: u64,
    from: u64,
    to: u64,
    fault: Fault,
    index: u64,
    multiple: nat,
    once: bool,
    every: bool,
    ranged: bool,
    carried: (&Fault, &Fault, &Fault),
)
    requires
        call_ensures(Rule::matches, (&Rule::At(at, fault), index), once),
        call_ensures(Rule::matches, (&Rule::Every(period, fault), index), every),
        call_ensures(Rule::matches, (&Rule::Window(from, to, fault), index), ranged),
        call_ensures(Rule::fault, (&Rule::At(at, fault),), carried.0),
        call_ensures(Rule::fault, (&Rule::Every(period, fault),), carried.1),
        call_ensures(Rule::fault, (&Rule::Window(from, to, fault),), carried.2),
    ensures
        once <==> at == index,
        period == 0 ==> !every,
        period > 0 && index == multiple * period ==> every,
        multiple * period < index < multiple * period + period ==> !every,
        ranged <==> !(index < from) && !(to < index),
        *carried.0 == fault && *carried.1 == fault && *carried.2 == fault,
{
    let rest: int = index - multiple * period;
    if 0 <= rest < period {
        lemma_fundamental_div_mod_converse(
            index as int,
            period as int,
            multiple as int,
            rest,
        );
    }
}

/// The place of the deciding rule is told exactly where a fault is found, and
/// the fault found is the one that this rule carries.
pub proof fn the_deciding_rule_carries_the_fault(
    schedule: ChaosSchedule,
    index: u64,
    place: Option<usize>,
    found: Option<&Fault>,
)
    requires
        call_ensures(ChaosSchedule::rule_for, (&schedule, index), place),
        call_ensures(ChaosSchedule::fault_for, (&schedule, index), found),
    ensures
        place is Some <==> found is Some,
        place matches Some(latest) ==> latest < schedule@.rules.len() && found == Some(
            &schedule@.rules[latest as int].payload(),
        ),
{
    match place {
        Some(latest) => latest_firing_rule_wins(schedule@.rules, latest as int, index),
        None => clean_exactly_where_no_rule_fires(schedule@.rules, index),
    }
}

/// One round moves the state on by the golden gamma, modulo `2^64`, and its
/// output leads back to the new state when the finalizer is undone.
pub proof fn rounds_step_and_mix(state: &mut u64, output: u64)
    requires
        call_ensures(splitmix64, (state,), output),
    ensures
        *final(state) == (*old(state) + 0x9E37_79B9_7F4A_7C15) % 0x1_0000_0000_0000_0000,
        ({
            let second = output ^ (output >> 31) ^ (output >> 62);
            let shifted = second.wrapping_mul(0x3196_42B2_D24D_8EC3);
            let first = shifted ^ (shifted >> 27) ^ (shifted >> 54);
            let start = first.wrapping_mul(0x96DE_1B17_3F11_9089);
            start ^ (start >> 30) ^ (start >> 60) == *final(state)
        }),
{
    mixing_is_undone(*final(state), output);
}

/// A draw is the upper 53 bits of the word that leads back to the seed, strode
/// on by the index and moved on by two rounds.
pub proof fn draws_lead_back_to_seed_and_index(
    schedule: ChaosSchedule,
    index: u64,
    draw: u64,
    output: u64,
)
    requires
        call_ensures(ChaosSchedule::draw, (&schedule, index), draw),
        ({
            let second = output ^ (output >> 31) ^ (output >> 62);
            let shifted = second.wrapping_mul(0x3196_42B2_D24D_8EC3);
            let first = shifted ^ (shifted >> 27) ^ (shifted >> 54);
            let start = first.wrapping_mul(0x96DE_1B17_3F11_9089);
            start ^ (start >> 30) ^ (start >> 60) == (schedule@.seed ^ index.wrapping_mul(
                0x9E37_79B9_7F4A_7C15,
            )).wrapping_add(0x3C6E_F372_FE94_F82A)
        }),
    ensures
        draw == output / 0x800,
        draw < 0x20_0000_0000_0000,
{
    draws_are_upper_bits_of_the_stream(schedule@, index, output);
}

/// A draw is the upper 53 bits of the second of two rounds, from the seed with
/// the index as a golden-gamma stride in it.
pub proof fn draws_take_the_second_round(
    schedule: ChaosSchedule,
    index: u64,
    draw: u64,
    first: &mut u64,
    discarded: u64,
    second: &mut u64,
    output: u64,
)
    requires
        call_ensures(ChaosSchedule::draw, (&schedule, index), draw),
        *first == schedule@.seed ^ index.wrapping_mul(0x9E37_79B9_7F4A_7C15),
        call_ensures(splitmix64, (first,), discarded),
        *second == *final(first),
        call_ensures(splitmix64, (second,), output),
    ensures
        draw == output / 0x800,
{
}

/// Schedules whose seeds differ by an index's stride draw alike, the one at
/// that index and the other at index zero.
pub proof fn draws_are_shifted_by_the_stride(
    schedule: ChaosSchedule,
    index: u64,
    draw: u64,
    other: ChaosSchedule,
    first: u64,
)
    requires
        call_ensures(ChaosSchedule::draw, (&schedule, index), draw),
        call_ensures(ChaosSchedule::draw, (&other, 0), first),
        other@.seed == schedule@.seed ^ index.wrapping_mul(0x9E37_79B9_7F4A_7C15),
    ensures
        draw == first,
{
    draws_stride_the_seed(schedule@, other@, index);
}

/// A rate made from bits gives the same bits back, and drops a call exactly
/// when the call's draw, as a fraction of `2^53`, is less than the value that
/// those bits stand for in IEEE 754.
pub proof fn drops_compare_draw_and_value(
    schedule: ChaosSchedule,
    index: u64,
    bits: u64,
    sign: nat,
    exponent: nat,
    fraction: nat,
    rate: Rate,
    back: u64,
    draw: u64,
    dropped: bool,
)
    requires
        sign < 2,
        exponent < 0x800,
        fraction < 0x10_0000_0000_0000,
        bits == sign * 0x8000_0000_0000_0000 + exponent * 0x10_0000_0000_0000 + fraction,
        call_ensures(Rate::from_bits, (bits,), rate),
        call_ensures(Rate::to_bits, (rate,), back),
        call_ensures(ChaosSchedule::draw, (&schedule, index), draw),
        call_ensures(ChaosSchedule::drops, (&schedule, index, rate), dropped),
    ensures
        back == bits,
        sign == 1 ==> !dropped,
        exponent == 0x7FF && fraction > 0 ==> !dropped,
        sign == 0 && exponent == 0x7FF && fraction == 0 ==> dropped,
        sign == 0 && exponent == 0 ==> (dropped <==> draw * pow2(1022) < fraction * 2),
        sign == 0 && 0 < exponent < 0x7FF ==> (dropped <==> draw * pow2(1022) < (
        0x10_0000_0000_0000 + fraction) * pow2(exponent)),
{
    rates_mean_their_bits(rate, sign, exponent, fraction, draw as nat);
}

/// Whether a rate exceeds a draw is the same question that a throttle asks.
pub proof fn rates_exceed_what_they_drop(
    schedule: ChaosSchedule,
    index: u64,
    rate: Rate,
    draw: u64,
    dropped: bool,
    exceeded: bool,
)
    requires
        call_ensures(ChaosSchedule::draw, (&schedule, index), draw),
        call_ensures(ChaosSchedule::drops, (&schedule, index, rate), dropped),
        call_ensures(Rate::exceeds, (rate, draw), exceeded),
    ensures
        dropped == exceeded,
{
}

/// Rates are equal when their bits are, or when both are a zero of either sign;
/// a rate that is no number equals nothing.
pub proof fn equal_rates_have_equal_values(a: Rate, b: Rate, bits_a: u64, bits_b: u64, same: bool)
    requires
        call_ensures(Rate::to_bits, (a,), bits_a),
        call_ensures(Rate::to_bits, (b,), bits_b),
        call_ensures(<Rate as PartialEq>::eq, (&a, &b), same),
    ensures
        bits_a % 0x8000_0000_0000_0000 > 0x7FF0_0000_0000_0000 ==> !same,
        bits_a % 0x8000_0000_0000_0000 <= 0x7FF0_0000_0000_0000 && bits_a == bits_b ==> same,
        bits_a % 0x8000_0000_0000_0000 == 0 && bits_b % 0x8000_0000_0000_0000 == 0 ==> same,
        bits_a != bits_b && bits_a % 0x8000_0000_0000_0000 != 0 ==> !same,
        bits_a != bits_b && bits_b % 0x8000_0000_0000_0000 != 0 ==> !same,
{
}

/// A call at an index meets the fault that is scheduled there: a latency delays
/// it by the scheduled time, an error answers it as scripted, a partition makes
/// it unavailable, a throttle does where it drops, a CPU fault burns the
/// scheduled time, and without a fault it is forwarded. The fault is counted
/// once, under its kind, and nothing else is.
pub proof fn strikes_apply_the_scheduled_fault(
    schedule: ChaosSchedule,
    index: u64,
    store: &mut ChaosStore,
    fate: Fate,
    found: Option<&Fault>,
    dropped: bool,
    recorder: nat,
    kind: FaultKind,
)
    requires
        schedule@.lives_in(old(store)@),
        recorder < old(store)@.recorders.len(),
        call_ensures(ChaosSchedule::strike, (&schedule, index, store), fate),
        call_ensures(ChaosSchedule::fault_for, (&schedule, index), found),
        found matches Some(Fault::Throttle { rate }) ==> call_ensures(
            ChaosSchedule::drops,
            (&schedule, index, *rate),
            dropped,
        ),
    ensures
        found is None ==> fate == Fate::Forward,
        found matches Some(Fault::Latency(delay)) ==> fate == Fate::Delay(*delay),
        found matches Some(Fault::Error(error)) ==> fate == Fate::Reject(*error),
        found matches Some(Fault::Partition { .. }) ==> fate == Fate::Reject(
            ChaosError::Unavailable,
        ),
        found matches Some(Fault::Throttle { .. }) && dropped ==> fate == Fate::Reject(
            ChaosError::Unavailable,
        ),
        found matches Some(Fault::Throttle { .. }) && !dropped ==> fate == Fate::Forward,
        found matches Some(Fault::Cpu(duration)) ==> fate == Fate::Burn(*duration),
        final(store)@.counters == old(store)@.counters,
        final(store)@.recorders.len() == old(store)@.recorders.len(),
        ({
            let before = old(store)@.recorders[recorder as int][kind];
            let after = final(store)@.recorders[recorder as int][kind];
            let counts = recorder == schedule@.recorder && match kind {
                FaultKind::Latency => found matches Some(Fault::Latency(_)),
                FaultKind::Error => found matches Some(Fault::Error(_)),
                FaultKind::Partition => found matches Some(Fault::Partition { .. }),
                FaultKind::Throttle => found matches Some(Fault::Throttle { .. }) && dropped,
                FaultKind::Cpu => found matches Some(Fault::Cpu(_)),
            };
            &&& !counts ==> after == before
            &&& counts && before < usize::MAX ==> after == before + 1
            &&& counts && before == usize::MAX ==> after == 0
        }),
{
    strikes_count_once(schedule@, old(store)@, index, recorder, kind);
}

/// A record moves the count of its kind on by one, back to zero past
/// `usize::MAX`, and no other.
pub proof fn records_are_injected(
    recorder: &mut ChaosRecorder,
    kind: FaultKind,
    other: FaultKind,
    before: usize,
    after: usize,
)
    requires
        call_ensures(ChaosRecorder::record, (recorder, kind), ()),
        call_ensures(ChaosRecorder::injected, (&*old(recorder), other), before),
        call_ensures(ChaosRecorder::injected, (&*final(recorder), other), after),
    ensures
        other != kind ==> after == before,
        other == kind && before < usize::MAX ==> after == before + 1,
        other == kind && before == usize::MAX ==> after == 0,
{
}

/// A new recorder, and one that was reset, has nothing injected of any kind.
pub proof fn fresh_recorders_are_empty(
    fresh: ChaosRecorder,
    made: ChaosRecorder,
    recorder: &mut ChaosRecorder,
    kind: FaultKind,
    counts: (usize, usize, usize),
)
    requires
        call_ensures(ChaosRecorder::new, (), fresh),
        call_ensures(<ChaosRecorder as Default>::default, (), made),
        call_ensures(ChaosRecorder::reset, (recorder,), ()),
        call_ensures(ChaosRecorder::injected, (&fresh, kind), counts.0),
        call_ensures(ChaosRecorder::injected, (&made, kind), counts.1),
        call_ensures(ChaosRecorder::injected, (&*final(recorder), kind), counts.2),
    ensures
        counts.0 == 0 && counts.1 == 0 && counts.2 == 0,
{
}

/// The total is the sum of what was injected of each kind.
pub proof fn totals_add_up(
    recorder: ChaosRecorder,
    latency: usize,
    error: usize,
    partition: usize,
    throttle: usize,
    cpu: usize,
    total: usize,
)
    requires
        call_ensures(ChaosRecorder::injected, (&recorder, FaultKind::Latency), latency),
        call_ensures(ChaosRecorder::injected, (&recorder, FaultKind::Error), error),
        call_ensures(ChaosRecorder::injected, (&recorder, FaultKind::Partition), partition),
        call_ensures(ChaosRecorder::injected, (&recorder, FaultKind::Throttle), throttle),
        call_ensures(ChaosRecorder::injected, (&recorder, FaultKind::Cpu), cpu),
        call_ensures(ChaosRecorder::total, (&recorder,), total),
    ensures
        total == latency + error + partition + throttle + cpu,
{
}

/// What is recorded through a schedule is seen in the recorder that it gives,
/// and in no other.
pub proof fn schedules_record_in_their_recorder(
    schedule: ChaosSchedule,
    other: ChaosSchedule,
    store: &mut ChaosStore,
    kind: FaultKind,
    asked: FaultKind,
    recorder_before: &ChaosRecorder,
    recorder_after: &ChaosRecorder,
    before: usize,
    after: usize,
)
    requires
        schedule@.lives_in(old(store)@),
        other@.lives_in(old(store)@),
        call_ensures(ChaosSchedule::record, (&schedule, kind, store), ()),
        call_ensures(ChaosSchedule::recorder, (&other, &*old(store)), recorder_before),
        call_ensures(ChaosSchedule::recorder, (&other, &*final(store)), recorder_after),
        call_ensures(ChaosRecorder::injected, (recorder_before, asked), before),
        call_ensures(ChaosRecorder::injected, (recorder_after, asked), after),
    ensures
        other@.recorder != schedule@.recorder || asked != kind ==> after == before,
        other@.recorder == schedule@.recorder && asked == kind && before < usize::MAX ==> after
            == before + 1,
        final(store)@.counters == old(store)@.counters,
{
}

/// The kind of a fault names what the fault is.
pub proof fn kinds_name_the_fault(fault: Fault, kind: FaultKind)
    requires
        call_ensures(Fault::kind, (&fault,), kind),
    ensures
        kind == FaultKind::Latency <==> fault is Latency,
        kind == FaultKind::Error <==> fault is Error,
        kind == FaultKind::Partition <==> fault is Partition,
        kind == FaultKind::Throttle <==> fault is Throttle,
        kind == FaultKind::Cpu <==> fault is Cpu,
{
}

/// An error reads as `chaos: ` and what happened, which for a scripted error is
/// its whole message.
pub proof fn errors_read_as_what_happened(error: ChaosError, text: String)
    requires
        call_ensures(ChaosError::to_string, (&error,), text),
    ensures
        text@.len() >= 7,
        text@.take(7) == "chaos: "@,
        match error {
            ChaosError::Unavailable => text@.skip(7) == "dependency unavailable"@,
            ChaosError::Timeout => text@.skip(7) == "dependency timed out"@,
            ChaosError::Custom(message) => text@.skip(7) == message@,
        },
{
    reveal_strlit("chaos: ");
    reveal_strlit("chaos: dependency unavailable");
    reveal_strlit("chaos: dependency timed out");
    reveal_strlit("dependency unavailable");
    reveal_strlit("dependency timed out");
    assert(text@.take(7) =~= "chaos: "@);
    match error {
        ChaosError::Unavailable => {
            assert(text@.skip(7) =~= "dependency unavailable"@);
        },
        ChaosError::Timeout => {
            assert(text@.skip(7) =~= "dependency timed out"@);
        },
        ChaosError::Custom(message) => {
            assert(text@.skip(7) =~= message@);
        },
    }
}

/// A burn of zero is over before its clock is started. Any other starts its
/// clock, spins while less than its duration has elapsed, and is over from then
/// on.
pub proof fn burns_spin_until_their_time(duration: u128, elapsed: u128, start: BurnStep, step: BurnStep)
    requires
        call_ensures(burn_cpu, (duration, None), start),
        call_ensures(burn_cpu, (duration, Some(elapsed)), step),
    ensures
        duration == 0 ==> start == BurnStep::Done,
        duration > 0 ==> start == BurnStep::StartClock,
        elapsed < duration ==> step == BurnStep::Spin,
        elapsed >= duration ==> step == BurnStep::Done,
{
}

/// Time is frozen on a current-thread runtime. Without a runtime, and on any
/// other, it is refused, each for its own reason.
pub proof fn clocks_are_given_by_flavor(
    runtime: Option<RuntimeFlavor>,
    clock: Result<PausableClock, PauseRefusal>,
)
    requires
        call_ensures(PausableClock::pause_on, (runtime,), clock),
    ensures
        clock is Ok <==> runtime == Some(RuntimeFlavor::CurrentThread),
        (clock matches Err(refusal) && refusal == PauseRefusal::NoRuntime) <==> runtime is None,
        (clock matches Err(refusal) && refusal == PauseRefusal::NotCurrentThread) <==> (
        runtime matches Some(flavor) && flavor != RuntimeFlavor::CurrentThread),
{
}

/// A refusal names the kit and what to do about it, each in its own words.
pub proof fn refusals_name_the_problem(refusal: PauseRefusal, message: &'static str)
    requires
        call_ensures(PauseRefusal::message, (&refusal,), message),
    ensures
        message@.len() >= 11,
        message@.take(11) == "chaos-kit: "@,
        match refusal {
            PauseRefusal::NoRuntime => message@.skip(11)
                == "PausableClock::pause requires a tokio runtime with time enabled — call it inside #[tokio::test] (current-thread), not from a plain #[test] or a helper thread"@,
            PauseRefusal::NotCurrentThread => message@.skip(11)
                == "tokio cannot freeze time on a multi-thread runtime — use the default #[tokio::test] (current-thread), not #[tokio::test(flavor = \"multi_thread\")]"@,
        },
{
    reveal_strlit("chaos-kit: ");
    reveal_strlit(
        "chaos-kit: PausableClock::pause requires a tokio runtime with time enabled — call it inside #[tokio::test] (current-thread), not from a plain #[test] or a helper thread",
    );
    reveal_strlit(
        "PausableClock::pause requires a tokio runtime with time enabled — call it inside #[tokio::test] (current-thread), not from a plain #[test] or a helper thread",
    );
    reveal_strlit(
        "chaos-kit: tokio cannot freeze time on a multi-thread runtime — use the default #[tokio::test] (current-thread), not #[tokio::test(flavor = \"multi_thread\")]",
    );
    reveal_strlit(
        "tokio cannot freeze time on a multi-thread runtime — use the default #[tokio::test] (current-thread), not #[tokio::test(flavor = \"multi_thread\")]",
    );
    assert(message@.take(11) =~= "chaos-kit: "@);
    match refusal {
        PauseRefusal::NoRuntime => {
            assert(message@.skip(11)
                =~= "PausableClock::pause requires a tokio runtime with time enabled — call it inside #[tokio::test] (current-thread), not from a plain #[test] or a helper thread"@);
        },
        PauseRefusal::NotCurrentThread => {
            assert(message@.skip(11)
                =~= "tokio cannot freeze time on a multi-thread runtime — use the default #[tokio::test] (current-thread), not #[tokio::test(flavor = \"multi_thread\")]"@);
        },
    }
}

/// A layer wraps the service that it was given, under the schedule that it was
/// given, and its first index is zero; no other counter moves and no count does.
pub proof fn layers_start_at_index_zero<S>(
    schedule: ChaosSchedule,
    make: ChaosMakeLayer,
    inner: S,
    store: &mut ChaosStore,
    layer: ChaosLayer<S>,
    earlier: int,
)
    requires
        call_ensures(chaos_layer, (schedule,), make),
        call_ensures(ChaosMakeLayer::layer::<S>, (&make, inner, store), layer),
        0 <= earlier < old(store)@.counters.len(),
    ensures
        layer.wrapped() == inner,
        layer@.schedule == schedule@,
        layer@.counter == old(store)@.counters.len(),
        final(store)@.counters.len() == old(store)@.counters.len() + 1,
        final(store)@.counters[old(store)@.counters.len() as int] == 0,
        final(store)@.counters[earlier] == old(store)@.counters[earlier],
        final(store)@.recorders == old(store)@.recorders,
{
}

/// A mapping layer wraps the service that it was given, under the schedule that
/// it was given and with a clone of the mapping, and its first index is zero; no
/// other counter moves and no count does.
pub proof fn map_layers_start_at_index_zero<S, F: Clone>(
    schedule: ChaosSchedule,
    map: F,
    make: ChaosMakeMapLayer<F>,
    inner: S,
    store: &mut ChaosStore,
    layer: ChaosMapLayer<S, F>,
    earlier: int,
)
    requires
        call_ensures(chaos_layer_map::<F>, (schedule, map), make),
        call_ensures(ChaosMakeMapLayer::<F>::layer::<S>, (&make, inner, store), layer),
        0 <= earlier < old(store)@.counters.len(),
    ensures
        layer.wrapped() == inner,
        cloned(map, layer.mapping()),
        layer@.schedule == schedule@,
        layer@.counter == old(store)@.counters.len(),
        final(store)@.counters.len() == old(store)@.counters.len() + 1,
        final(store)@.counters[old(store)@.counters.len() as int] == 0,
        final(store)@.counters[earlier] == old(store)@.counters[earlier],
        final(store)@.recorders == old(store)@.recorders,
{
}

/// A layer's next call is struck at the index that its counter is at, and the
/// counter moves on by one, back to zero past `u64::MAX`; no other counter
/// moves. A mapping layer does the same.
pub proof fn calls_are_struck_at_their_index<S, F>(
    layer: ChaosLayer<S>,
    store: &mut ChaosStore,
    fate: Fate,
    mapped: ChaosMapLayer<S, F>,
    mapped_store: &mut ChaosStore,
    mapped_fate: Fate,
    schedule: ChaosSchedule,
    struck: &mut ChaosStore,
    struck_fate: Fate,
    other: int,
)
    requires
        layer@.lives_in(old(store)@),
        mapped@ == layer@,
        old(mapped_store)@ == old(store)@,
        schedule@ == layer@.schedule,
        old(struck)@ == old(store)@,
        0 <= other < old(store)@.counters.len(),
        call_ensures(ChaosLayer::<S>::next_call, (&layer, store), fate),
        call_ensures(ChaosMapLayer::<S, F>::next_call, (&mapped, mapped_store), mapped_fate),
        call_ensures(
            ChaosSchedule::strike,
            (&schedule, old(store)@.counters[layer@.counter as int], struck),
            struck_fate,
        ),
    ensures
        fate == struck_fate,
        final(store)@.recorders == final(struck)@.recorders,
        ({
            let before = old(store)@.counters[other];
            let after = final(store)@.counters[other];
            &&& other != layer@.counter ==> after == before
            &&& other == layer@.counter && before < u64::MAX ==> after == before + 1
            &&& other == layer@.counter && before == u64::MAX ==> after == 0
        }),
        final(store)@.counters.len() == old(store)@.counters.len(),
        mapped_fate == fate,
        final(mapped_store)@ == final(store)@,
{
}

/// What was decided of a call is what is done with it: it is forwarded, delayed
/// or burnt as decided, and a rejected call is answered with its error converted
/// by `From`.
pub proof fn decisions_are_resolved<S, E: From<ChaosError>>(
    layer: ChaosLayer<S>,
    fate: Fate,
    action: CallAction<E>,
)
    requires
        call_ensures(ChaosLayer::<S>::resolve::<E>, (&layer, fate), action),
    ensures
        fate is Forward <==> action is Forward,
        fate matches Fate::Delay(delay) ==> action == CallAction::<E>::Delay(delay),
        fate matches Fate::Burn(duration) ==> action == CallAction::<E>::Burn(duration),
        fate matches Fate::Reject(error) ==> (action matches CallAction::Answer(answer)
            && call_ensures(E::from, (error,), answer)),
{
}

/// What was decided of a call through a mapping layer is what is done with it,
/// and a rejected call is answered with what the mapping makes of its error.
pub proof fn decisions_are_mapped<S, T, E, F: Fn(ChaosError) -> Result<T, E>>(
    layer: ChaosMapLayer<S, F>,
    fate: Fate,
    action: CallAction<Result<T, E>>,
)
    requires
        call_ensures(ChaosMapLayer::<S, F>::resolve::<T, E>, (&layer, fate), action),
    ensures
        fate is Forward <==> action is Forward,
        fate matches Fate::Delay(delay) ==> action == CallAction::<Result<T, E>>::Delay(delay),
        fate matches Fate::Burn(duration) ==> action == CallAction::<Result<T, E>>::Burn(duration),
        fate matches Fate::Reject(error) ==> (action matches CallAction::Answer(answer)
            && call_ensures(layer.mapping(), (error,), answer)),
{
}

/// A call is numbered, counted and decided as the next call is, and then
/// resolved.
pub proof fn calls_are_decided_and_resolved<S, E: From<ChaosError>>(
    layer: ChaosLayer<S>,
    store: &mut ChaosStore,
    action: CallAction<E>,
    decided: &mut ChaosStore,
    fate: Fate,
)
    requires
        layer@.lives_in(old(store)@),
        old(decided)@ == old(store)@,
        call_ensures(ChaosLayer::<S>::call::<E>, (&layer, store), action),
        call_ensures(ChaosLayer::<S>::next_call, (&layer, decided), fate),
    ensures
        final(store)@ == final(decided)@,
        fate is Forward <==> action is Forward,
        fate matches Fate::Delay(delay) ==> action == CallAction::<E>::Delay(delay),
        fate matches Fate::Burn(duration) ==> action == CallAction::<E>::Burn(duration),
        fate matches Fate::Reject(error) ==> (action matches CallAction::Answer(answer)
            && call_ensures(E::from, (error,), answer)),
{
}

/// A call through a mapping layer is numbered, counted and decided as the next
/// call is, and then mapped.
pub proof fn calls_are_decided_and_mapped<S, T, E, F: Fn(ChaosError) -> Result<T, E>>(
    layer: ChaosMapLayer<S, F>,
    store: &mut ChaosStore,
    action: CallAction<Result<T, E>>,
    decided: &mut ChaosStore,
    fate: Fate,
)
    requires
        layer@.lives_in(old(store)@),
        old(decided)@ == old(store)@,
        call_ensures(ChaosMapLayer::<S, F>::call::<T, E>, (&layer, store), action),
        call_ensures(ChaosMapLayer::<S, F>::next_call, (&layer, decided), fate),
    ensures
        final(store)@ == final(decided)@,
        fate is Forward <==> action is Forward,
        fate matches Fate::Delay(delay) ==> action == CallAction::<Result<T, E>>::Delay(delay),
        fate matches Fate::Burn(duration) ==> action == CallAction::<Result<T, E>>::Burn(duration),
        fate matches Fate::Reject(error) ==> (action matches CallAction::Answer(answer)
            && call_ensures(layer.mapping(), (error,), answer)),
{
}

/// A decision that is mapped through a conversion is carried out as it is
/// without one, and a rejected call is answered with what the mapping makes of
/// the converted error.
pub proof fn decisions_are_converted_and_mapped<
    S,
    A,
    T,
    E,
    F: Fn(A) -> Result<T, E>,
    G: FnOnce(ChaosError) -> A,
>(layer: ChaosMapLayer<S, F>, fate: Fate, convert: G, action: CallAction<Result<T, E>>)
    requires
        call_ensures(
            ChaosMapLayer::<S, F>::resolve_as::<A, T, E, G>,
            (&layer, fate, convert),
            action,
        ),
    ensures
        fate is Forward <==> action is Forward,
        fate matches Fate::Delay(delay) ==> action == CallAction::<Result<T, E>>::Delay(delay),
        fate matches Fate::Burn(duration) ==> action == CallAction::<Result<T, E>>::Burn(duration),
        fate matches Fate::Reject(error) ==> (action matches CallAction::Answer(answer)
            && exists|converted: A| #[trigger]
            call_ensures(convert, (error,), converted) && call_ensures(
                layer.mapping(),
                (converted,),
                answer,
            )),
{
}

/// A forwarded call, once begun, polls what its forwarding gave.
pub proof fn forwarded_calls_poll_the_service<
    D,
    C,
    F,
    T,
    E,
    K,
    P: FnOnce(Duration) -> D,
    B: FnOnce(Duration) -> K,
    W: FnOnce(C, Option<K>) -> F,
>(
    call: C,
    sleep: P,
    burn: B,
    forward: W,
    begun: ChaosFuture<D, C, F, E>,
    polled: &mut ChaosFuture<D, C, F, E>,
    step: PollStep<'_, D, F, Result<T, E>>,
)
    requires
        call_ensures(
            ChaosFuture::<D, C, F, E>::begin::<K, P, B, W>,
            (CallAction::<E>::Forward, call, sleep, burn, forward),
            begun,
        ),
        *old(polled) == begun,
        call_ensures(ChaosFuture::<D, C, F, E>::poll::<T>, (polled,), step),
    ensures
        step matches PollStep::Inner(future) && call_ensures(forward, (call, None), *future),
{
}

/// A burnt call, once begun, polls what its forwarding gave, and the forwarding
/// was given what the burn of the scheduled time left behind.
pub proof fn burnt_calls_poll_the_service<
    D,
    C,
    F,
    T,
    E,
    K,
    P: FnOnce(Duration) -> D,
    B: FnOnce(Duration) -> K,
    W: FnOnce(C, Option<K>) -> F,
>(
    duration: Duration,
    call: C,
    sleep: P,
    burn: B,
    forward: W,
    begun: ChaosFuture<D, C, F, E>,
    polled: &mut ChaosFuture<D, C, F, E>,
    step: PollStep<'_, D, F, Result<T, E>>,
)
    requires
        call_ensures(
            ChaosFuture::<D, C, F, E>::begin::<K, P, B, W>,
            (CallAction::<E>::Burn(duration), call, sleep, burn, forward),
            begun,
        ),
        *old(polled) == begun,
        call_ensures(ChaosFuture::<D, C, F, E>::poll::<T>, (polled,), step),
    ensures
        step matches PollStep::Inner(future) && exists|burnt: K| #[trigger]
            call_ensures(burn, (duration,), burnt) && call_ensures(
                forward,
                (call, Some(burnt)),
                *future,
            ),
{
}

/// A delayed call, once begun, polls the sleep that was started for the
/// scheduled time. While that is not over nothing is forwarded; when it is, the
/// call is forwarded, and later polls go to what the forwarding gave.
pub proof fn delayed_calls_sleep_before_the_service<
    D,
    C,
    F,
    T,
    E,
    K,
    P: FnOnce(Duration) -> D,
    B: FnOnce(Duration) -> K,
    W: FnOnce(C, Option<K>) -> F,
>(
    delay: Duration,
    call: C,
    sleep: P,
    burn: B,
    forward: W,
    begun: ChaosFuture<D, C, F, E>,
    first: &mut ChaosFuture<D, C, F, E>,
    asleep: PollStep<'_, D, F, Result<T, E>>,
    second: &mut ChaosFuture<D, C, F, E>,
    waiting: PollStep<'_, D, F, Result<T, E>>,
    third: &mut ChaosFuture<D, C, F, E>,
    awake: PollStep<'_, D, F, Result<T, E>>,
    fourth: &mut ChaosFuture<D, C, F, E>,
    later: PollStep<'_, D, F, Result<T, E>>,
)
    requires
        call_ensures(
            ChaosFuture::<D, C, F, E>::begin::<K, P, B, W>,
            (CallAction::<E>::Delay(delay), call, sleep, burn, forward),
            begun,
        ),
        *old(first) == begun,
        call_ensures(ChaosFuture::<D, C, F, E>::poll::<T>, (first,), asleep),
        *old(second) == *final(first),
        call_ensures(
            ChaosFuture::<D, C, F, E>::slept::<T, K, W>,
            (second, false, forward),
            waiting,
        ),
        *old(third) == *final(second),
        call_ensures(ChaosFuture::<D, C, F, E>::slept::<T, K, W>, (third, true, forward), awake),
        *old(fourth) == *final(third),
        call_ensures(ChaosFuture::<D, C, F, E>::poll::<T>, (fourth,), later),
    ensures
        asleep matches PollStep::Sleep(started) && call_ensures(sleep, (delay,), *started),
        waiting is Pending,
        awake matches PollStep::Inner(future) && call_ensures(forward, (call, None), *future) && (
        later matches PollStep::Inner(again) && *again == *final(future)),
{
}

/// An answered call, once begun, is ready with its answer at the first poll and
/// pending at every later one.
pub proof fn answered_calls_are_ready_once<
    D,
    C,
    F,
    T,
    E,
    K,
    P: FnOnce(Duration) -> D,
    B: FnOnce(Duration) -> K,
    W: FnOnce(C, Option<K>) -> F,
>(
    error: E,
    call: C,
    sleep: P,
    burn: B,
    forward: W,
    begun: ChaosFuture<D, C, F, E>,
    first: &mut ChaosFuture<D, C, F, E>,
    ready: PollStep<'_, D, F, Result<T, E>>,
    second: &mut ChaosFuture<D, C, F, E>,
    later: PollStep<'_, D, F, Result<T, E>>,
)
    requires
        call_ensures(
            ChaosFuture::<D, C, F, E>::begin::<K, P, B, W>,
            (CallAction::<E>::Answer(error), call, sleep, burn, forward),
            begun,
        ),
        *old(first) == begun,
        call_ensures(ChaosFuture::<D, C, F, E>::poll::<T>, (first,), ready),
        *old(second) == *final(first),
        call_ensures(ChaosFuture::<D, C, F, E>::poll::<T>, (second,), later),
    ensures
        ready matches PollStep::Ready(answer) && answer == Err::<T, E>(error),
        later is Pending,
        final(second)@ == final(first)@,
{
}
/// A forwarded call through a mapping, once begun, polls what its forwarding gave.
pub proof fn forwarded_map_calls_poll_the_service<
    D,
    C,
    F,
    T,
    E,
    K,
    P: FnOnce(Duration) -> D,
    B: FnOnce(Duration) -> K,
    W: FnOnce(C, Option<K>) -> F,
>(
    call: C,
    sleep: P,
    burn: B,
    forward: W,
    begun: ChaosMapFuture<D, C, F, T, E>,
    polled: &mut ChaosMapFuture<D, C, F, T, E>,
    step: PollStep<'_, D, F, Result<T, E>>,
)
    requires
        call_ensures(
            ChaosMapFuture::<D, C, F, T, E>::begin::<K, P, B, W>,
            (CallAction::<Result<T, E>>::Forward, call, sleep, burn, forward),
            begun,
        ),
        *old(polled) == begun,
        call_ensures(ChaosMapFuture::<D, C, F, T, E>::poll, (polled,), step),
    ensures
        step matches PollStep::Inner(future) && call_ensures(forward, (call, None), *future),
{
}

/// A burnt call through a mapping, once begun, polls what its forwarding gave, and the forwarding
/// was given what the burn of the scheduled time left behind.
pub proof fn burnt_map_calls_poll_the_service<
    D,
    C,
    F,
    T,
    E,
    K,
    P: FnOnce(Duration) -> D,
    B: FnOnce(Duration) -> K,
    W: FnOnce(C, Option<K>) -> F,
>(
    duration: Duration,
    call: C,
    sleep: P,
    burn: B,
    forward: W,
    begun: ChaosMapFuture<D, C, F, T, E>,
    polled: &mut ChaosMapFuture<D, C, F, T, E>,
    step: PollStep<'_, D, F, Result<T, E>>,
)
    requires
        call_ensures(
            ChaosMapFuture::<D, C, F, T, E>::begin::<K, P, B, W>,
            (CallAction::<Result<T, E>>::Burn(duration), call, sleep, burn, forward),
            begun,
        ),
        *old(polled) == begun,
        call_ensures(ChaosMapFuture::<D, C, F, T, E>::poll, (polled,), step),
    ensures
        step matches PollStep::Inner(future) && exists|burnt: K| #[trigger]
            call_ensures(burn, (duration,), burnt) && call_ensures(
                forward,
                (call, Some(burnt)),
                *future,
            ),
{
}

/// A delayed call through a mapping, once begun, polls the sleep that was started for the
/// scheduled time. While that is not over nothing is forwarded; when it is, the
/// call is forwarded, and later polls go to what the forwarding gave.
pub proof fn delayed_map_calls_sleep_before_the_service<
    D,
    C,
    F,
    T,
    E,
    K,
    P: FnOnce(Duration) -> D,
    B: FnOnce(Duration) -> K,
    W: FnOnce(C, Option<K>) -> F,
>(
    delay: Duration,
    call: C,
    sleep: P,
    burn: B,
    forward: W,
    begun: ChaosMapFuture<D, C, F, T, E>,
    first: &mut ChaosMapFuture<D, C, F, T, E>,
    asleep: PollStep<'_, D, F, Result<T, E>>,
    second: &mut ChaosMapFuture<D, C, F, T, E>,
    waiting: PollStep<'_, D, F, Result<T, E>>,
    third: &mut ChaosMapFuture<D, C, F, T, E>,
    awake: PollStep<'_, D, F, Result<T, E>>,
    fourth: &mut ChaosMapFuture<D, C, F, T, E>,
    later: PollStep<'_, D, F, Result<T, E>>,
)
    requires
        call_ensures(
            ChaosMapFuture::<D, C, F, T, E>::begin::<K, P, B, W>,
            (CallAction::<Result<T, E>>::Delay(delay), call, sleep, burn, forward),
            begun,
        ),
        *old(first) == begun,
        call_ensures(ChaosMapFuture::<D, C, F, T, E>::poll, (first,), asleep),
        *old(second) == *final(first),
        call_ensures(
            ChaosMapFuture::<D, C, F, T, E>::slept::<K, W>,
            (second, false, forward),
            waiting,
        ),
        *old(third) == *final(second),
        call_ensures(ChaosMapFuture::<D, C, F, T, E>::slept::<K, W>, (third, true, forward), awake),
        *old(fourth) == *final(third),
        call_ensures(ChaosMapFuture::<D, C, F, T, E>::poll, (fourth,), later),
    ensures
        asleep matches PollStep::Sleep(started) && call_ensures(sleep, (delay,), *started),
        waiting is Pending,
        awake matches PollStep::Inner(future) && call_ensures(forward, (call, None), *future) && (
        later matches PollStep::Inner(again) && *again == *final(future)),
{
}

/// An answered call through a mapping, once begun, is ready with its answer at the first poll and
/// pending at every later one.
pub proof fn answered_map_calls_are_ready_once<
    D,
    C,
    F,
    T,
    E,
    K,
    P: FnOnce(Duration) -> D,
    B: FnOnce(Duration) -> K,
    W: FnOnce(C, Option<K>) -> F,
>(
    outcome: Result<T, E>,
    call: C,
    sleep: P,
    burn: B,
    forward: W,
    begun: ChaosMapFuture<D, C, F, T, E>,
    first: &mut ChaosMapFuture<D, C, F, T, E>,
    ready: PollStep<'_, D, F, Result<T, E>>,
    second: &mut ChaosMapFuture<D, C, F, T, E>,
    later: PollStep<'_, D, F, Result<T, E>>,
)
    requires
        call_ensures(
            ChaosMapFuture::<D, C, F, T, E>::begin::<K, P, B, W>,
            (CallAction::<Result<T, E>>::Answer(outcome), call, sleep, burn, forward),
            begun,
        ),
        *old(first) == begun,
        call_ensures(ChaosMapFuture::<D, C, F, T, E>::poll, (first,), ready),
        *old(second) == *final(first),
        call_ensures(ChaosMapFuture::<D, C, F, T, E>::poll, (second,), later),
    ensures
        ready matches PollStep::Ready(answer) && answer == outcome,
        later is Pending,
        final(second)@ == final(first)@,
{
}

/// A conversion reaches the call that waits for a sleep and nothing else: the
/// sleep, a forwarded call and an answer stay as they were.
pub proof fn conversions_reach_waiting_calls_only<D, C, C2, F, T, E, G: FnOnce(C) -> C2>(
    sleep: D,
    call: C,
    future: F,
    error: E,
    outcome: Result<T, E>,
    convert: G,
    kept: ChaosFuture<D, C2, F, E>,
    passed: ChaosFuture<D, C2, F, E>,
    answered: ChaosFuture<D, C2, F, E>,
    map_kept: ChaosMapFuture<D, C2, F, T, E>,
    map_passed: ChaosMapFuture<D, C2, F, T, E>,
    map_answered: ChaosMapFuture<D, C2, F, T, E>,
    delayed: ChaosFuture<D, C, F, E>,
    passthrough: ChaosFuture<D, C, F, E>,
    faulted: ChaosFuture<D, C, F, E>,
    map_delayed: ChaosMapFuture<D, C, F, T, E>,
    map_passthrough: ChaosMapFuture<D, C, F, T, E>,
    map_faulted: ChaosMapFuture<D, C, F, T, E>,
)
    requires
        call_ensures(ChaosFuture::<D, C, F, E>::delayed, (sleep, call), delayed),
        call_ensures(ChaosFuture::<D, C, F, E>::passthrough, (future,), passthrough),
        call_ensures(ChaosFuture::<D, C, F, E>::faulted, (error,), faulted),
        call_ensures(ChaosMapFuture::<D, C, F, T, E>::delayed, (sleep, call), map_delayed),
        call_ensures(ChaosMapFuture::<D, C, F, T, E>::passthrough, (future,), map_passthrough),
        call_ensures(ChaosMapFuture::<D, C, F, T, E>::faulted, (outcome,), map_faulted),
        call_ensures(ChaosFuture::<D, C, F, E>::map_call::<C2, G>, (delayed, convert), kept),
        call_ensures(ChaosFuture::<D, C, F, E>::map_call::<C2, G>, (passthrough, convert), passed),
        call_ensures(ChaosFuture::<D, C, F, E>::map_call::<C2, G>, (faulted, convert), answered),
        call_ensures(
            ChaosMapFuture::<D, C, F, T, E>::map_call::<C2, G>,
            (map_delayed, convert),
            map_kept,
        ),
        call_ensures(
            ChaosMapFuture::<D, C, F, T, E>::map_call::<C2, G>,
            (map_passthrough, convert),
            map_passed,
        ),
        call_ensures(
            ChaosMapFuture::<D, C, F, T, E>::map_call::<C2, G>,
            (map_faulted, convert),
            map_answered,
        ),
    ensures
        kept@ matches Gate::Delayed { sleep: same, call: Some(converted) } && same == sleep
            && call_ensures(convert, (call,), converted),
        map_kept@ matches Gate::Delayed { sleep: same, call: Some(converted) } && same == sleep
            && call_ensures(convert, (call,), converted),
        passed@ matches Gate::Passthrough { future: same } && same == future,
        map_passed@ matches Gate::Passthrough { future: same } && same == future,
        answered@ matches Gate::Faulted { answer: Some(same) } && same == error,
        map_answered@ matches Gate::Faulted { answer: Some(same) } && same == outcome,
{
}

/// The clock is given or refused by the flavor that tokio tells of the calling
/// thread's runtime.
pub proof fn pausing_goes_by_the_flavor_told(clock: Result<PausableClock, PauseRefusal>)
    requires
        call_ensures(PausableClock::pause, (), clock),
    ensures
        exists|runtime: Option<RuntimeFlavor>| #[trigger]
            call_ensures(current_flavor, (), runtime) && (clock is Ok <==> runtime == Some(
                RuntimeFlavor::CurrentThread,
            )) && (clock == Err::<PausableClock, PauseRefusal>(PauseRefusal::NoRuntime)
                <==> runtime is None),
{
    let runtime = choose|runtime: Option<RuntimeFlavor>|
        call_ensures(current_flavor, (), runtime) && match #[trigger] PausableClock::refusal(
            runtime,
        ) {
            None => clock is Ok,
            Some(refusal) => clock == Err::<PausableClock, PauseRefusal>(refusal),
        };
    assert(call_ensures(current_flavor, (), runtime));
}

/// A clone of a schedule finds the same faults, draws the same draws and counts
/// in the same recorder.
pub proof fn cloned_schedules_are_the_same(
    schedule: ChaosSchedule,
    copy: ChaosSchedule,
    index: u64,
    found: Option<&Fault>,
    copied: Option<&Fault>,
    draw: u64,
    copied_draw: u64,
)
    requires
        call_ensures(<ChaosSchedule as Clone>::clone, (&schedule,), copy),
        call_ensures(ChaosSchedule::fault_for, (&schedule, index), found),
        call_ensures(ChaosSchedule::fault_for, (&copy, index), copied),
        call_ensures(ChaosSchedule::draw, (&schedule, index), draw),
        call_ensures(ChaosSchedule::draw, (&copy, index), copied_draw),
    ensures
        copied == found,
        copied_draw == draw,
        copy@.recorder == schedule@.recorder,
{
}

/// Clones of a layer take turns at one counter: two calls, through the layer and
/// then through its clone, are struck at consecutive indices.
pub proof fn cloned_layers_take_turns<S: Clone>(
    layer: ChaosLayer<S>,
    copy: ChaosLayer<S>,
    first: &mut ChaosStore,
    fate: Fate,
    second: &mut ChaosStore,
    next_fate: Fate,
)
    requires
        layer@.lives_in(old(first)@),
        call_ensures(<ChaosLayer<S> as Clone>::clone, (&layer,), copy),
        call_ensures(ChaosLayer::<S>::next_call, (&layer, first), fate),
        *old(second) == *final(first),
        call_ensures(ChaosLayer::<S>::next_call, (&copy, second), next_fate),
        old(first)@.counters[layer@.counter as int] < u64::MAX - 1,
    ensures
        cloned(layer.wrapped(), copy.wrapped()),
        fate == layer@.schedule.fate(old(first)@.counters[layer@.counter as int]),
        next_fate == layer@.schedule.fate(
            (old(first)@.counters[layer@.counter as int] + 1) as u64,
        ),
        final(second)@.counters[layer@.counter as int]
            == old(first)@.counters[layer@.counter as int] + 2,
{
}

/// Clones of a mapping layer take turns at one counter in the same way.
pub proof fn cloned_map_layers_take_turns<S: Clone, F: Clone>(
    layer: ChaosMapLayer<S, F>,
    copy: ChaosMapLayer<S, F>,
    first: &mut ChaosStore,
    fate: Fate,
    second: &mut ChaosStore,
    next_fate: Fate,
)
    requires
        layer@.lives_in(old(first)@),
        call_ensures(<ChaosMapLayer<S, F> as Clone>::clone, (&layer,), copy),
        call_ensures(ChaosMapLayer::<S, F>::next_call, (&layer, first), fate),
        *old(second) == *final(first),
        call_ensures(ChaosMapLayer::<S, F>::next_call, (&copy, second), next_fate),
        old(first)@.counters[layer@.counter as int] < u64::MAX - 1,
    ensures
        cloned(layer.wrapped(), copy.wrapped()),
        cloned(layer.mapping(), copy.mapping()),
        fate == layer@.schedule.fate(old(first)@.counters[layer@.counter as int]),
        next_fate == layer@.schedule.fate(
            (old(first)@.counters[layer@.counter as int] + 1) as u64,
        ),
        final(second)@.counters[layer@.counter as int]
            == old(first)@.counters[layer@.counter as int] + 2,
{
}

/// A counter hands out its indices one after the other, from zero; it tells the
/// index that it hands out next, and leaves the other counters and all counts
/// alone.
pub proof fn counters_hand_out_indices_in_order(
    opened: &mut ChaosStore,
    counter: CounterId,
    store: &mut ChaosStore,
    other: CounterId,
    told: u64,
    index: u64,
    next: u64,
    other_before: u64,
    other_after: u64,
    fresh: u64,
)
    requires
        call_ensures(ChaosStore::open_counter, (opened,), counter),
        call_ensures(ChaosStore::next_index, (&*final(opened), counter), fresh),
        counter.slot() < old(store)@.counters.len(),
        other.slot() < old(store)@.counters.len(),
        call_ensures(ChaosStore::next_index, (&*old(store), counter), told),
        call_ensures(ChaosStore::next_index, (&*old(store), other), other_before),
        call_ensures(ChaosStore::take_index, (store, counter), index),
        call_ensures(ChaosStore::next_index, (&*final(store), counter), next),
        call_ensures(ChaosStore::next_index, (&*final(store), other), other_after),
    ensures
        fresh == 0,
        counter.slot() == old(opened)@.counters.len(),
        final(opened)@.recorders == old(opened)@.recorders,
        index == told,
        index < u64::MAX ==> next == index + 1,
        index == u64::MAX ==> next == 0,
        other.slot() != counter.slot() ==> other_after == other_before,
        final(store)@.recorders == old(store)@.recorders,
        final(store)@.counters.len() == old(store)@.counters.len(),
{
}

/// Putting the answer of an action through a function changes no other action.
pub proof fn only_answers_are_converted<O, Q, G: FnOnce(O) -> Q>(
    action: CallAction<O>,
    convert: G,
    converted: CallAction<Q>,
)
    requires
        call_ensures(CallAction::<O>::map_answer::<Q, G>, (action, convert), converted),
    ensures
        action is Forward <==> converted is Forward,
        action matches CallAction::Delay(delay) ==> converted == CallAction::<Q>::Delay(delay),
        action matches CallAction::Burn(duration) ==> converted == CallAction::<Q>::Burn(duration),
        action matches CallAction::Answer(answer) ==> (converted matches CallAction::Answer(given)
            && call_ensures(convert, (answer,), given)),
{
}

/// Resetting a schedule's recorder clears its counts, leaves those of every
/// other recorder alone, and moves no call counter.
pub proof fn resets_clear_one_recorder(
    schedule: ChaosSchedule,
    store: &mut ChaosStore,
    recorder: &mut ChaosRecorder,
    other: int,
    kind: FaultKind,
)
    requires
        schedule@.lives_in(old(store)@),
        0 <= other < old(store)@.recorders.len(),
        call_ensures(ChaosSchedule::recorder_mut, (&schedule, store), recorder),
        call_ensures(ChaosRecorder::reset, (recorder,), ()),
    ensures
        final(store)@.recorders.len() == old(store)@.recorders.len(),
        other == schedule@.recorder ==> final(store)@.recorders[other][kind] == 0,
        other != schedule@.recorder ==> final(store)@.recorders[other]
            == old(store)@.recorders[other],
        final(store)@.counters == old(store)@.counters,
{
}

/// A layer shows the schedule that drives it and the counts of that schedule's
/// recorder, and so does a mapping layer.
pub proof fn layers_show_schedule_and_counts<S, F>(
    layer: ChaosLayer<S>,
    mapped: ChaosMapLayer<S, F>,
    store: ChaosStore,
    shown: &ChaosSchedule,
    map_shown: &ChaosSchedule,
    counts: &ChaosRecorder,
    map_counts: &ChaosRecorder,
    kind: FaultKind,
    injected: usize,
    map_injected: usize,
)
    requires
        layer@.schedule.lives_in(store@),
        mapped@.schedule.lives_in(store@),
        call_ensures(ChaosLayer::<S>::schedule, (&layer,), shown),
        call_ensures(ChaosMapLayer::<S, F>::schedule, (&mapped,), map_shown),
        call_ensures(ChaosLayer::<S>::recorder, (&layer, &store), counts),
        call_ensures(ChaosMapLayer::<S, F>::recorder, (&mapped, &store), map_counts),
        call_ensures(ChaosRecorder::injected, (counts, kind), injected),
        call_ensures(ChaosRecorder::injected, (map_counts, kind), map_injected),
    ensures
        shown@ == layer@.schedule,
        map_shown@ == mapped@.schedule,
        injected == store@.recorders[layer@.schedule.recorder as int][kind],
        map_injected == store@.recorders[mapped@.schedule.recorder as int][kind],
{
}

} // verus!
