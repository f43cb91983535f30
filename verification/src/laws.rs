//! What holds of schedules, recorders and layers together.

use crate::fault::{ChaosError, Fault, FaultKind};
use crate::future::Gate;
use crate::layer::{carries_out, CallAction, LayerView};
use crate::rate::{Rate, DRAW_SCALE};
use crate::recorder::{counted, no_counts};
use crate::schedule::{last_firing, Fate, Rule, ScheduleView};
use crate::splitmix::{
    first_index_draws_the_second_output, indices_stride_the_seed, mixing_is_undone,
    seed_zero_walks_the_stream, stream, unmixed, word, words_lead_back_to_seed_and_index,
};
use crate::store::StoreView;
use std::time::Duration;
use vstd::arithmetic::div_mod::{
    lemma_fundamental_div_mod, lemma_fundamental_div_mod_converse, lemma_mod_bound, lemma_small_mod,
};
use vstd::arithmetic::mul::{lemma_mul_is_commutative, lemma_mul_is_distributive_add};
use vstd::arithmetic::power2::{
    lemma2_to64, lemma2_to64_rest, lemma_pow2_adds, lemma_pow2_pos, pow2,
};
use vstd::prelude::*;

verus! {

/// The same seed and the same rules give the same chaos at every index: the
/// same scheduled fault, the same draw, the same throttle decision and the
/// same fate.
pub proof fn same_seed_same_chaos(a: ScheduleView, b: ScheduleView, index: u64, rate: Rate)
    requires
        a.seed == b.seed,
        a.rules == b.rules,
    ensures
        a.fault_for(index) == b.fault_for(index),
        a.draw(index) == b.draw(index),
        a.drops(index, rate) == b.drops(index, rate),
        a.applied(index) == b.applied(index),
        a.fate(index) == b.fate(index),
{
}

/// The rules alone decide which fault is scheduled, and the seed alone what
/// is drawn.
pub proof fn rules_schedule_and_seed_draws(a: ScheduleView, b: ScheduleView, index: u64, rate: Rate)
    ensures
        a.rules == b.rules ==> a.fault_for(index) == b.fault_for(index),
        a.seed == b.seed ==> a.draw(index) == b.draw(index) && a.drops(index, rate) == b.drops(
            index,
            rate,
        ),
{
}

/// Of the rules that fire at an index, the latest one decides.
pub proof fn latest_firing_rule_wins(rules: Seq<Rule>, latest: int, index: u64)
    requires
        0 <= latest < rules.len(),
        rules[latest].fires_at(index),
        forall|later: int| latest < later < rules.len() ==> !(#[trigger] rules[later]).fires_at(index),
    ensures
        last_firing(rules, index) == Some(rules[latest].payload()),
    decreases rules.len(),
{
    if latest < rules.len() - 1 {
        assert(rules[rules.len() - 1] == rules.last());
        let earlier = rules.drop_last();
        assert forall|later: int| latest < later < earlier.len() implies !(
        #[trigger] earlier[later]).fires_at(index) by {
            assert(earlier[later] == rules[later]);
        }
        latest_firing_rule_wins(earlier, latest, index);
    }
}

/// Nothing is scheduled at an index exactly when no rule fires there.
pub proof fn clean_exactly_where_no_rule_fires(rules: Seq<Rule>, index: u64)
    ensures
        last_firing(rules, index) is None <==> forall|i: int|
            0 <= i < rules.len() ==> !(#[trigger] rules[i]).fires_at(index),
    decreases rules.len(),
{
    if rules.len() > 0 {
        let earlier = rules.drop_last();
        clean_exactly_where_no_rule_fires(earlier, index);
        if !rules.last().fires_at(index) {
            if last_firing(earlier, index) is None {
                assert forall|i: int| 0 <= i < rules.len() implies !(
                #[trigger] rules[i]).fires_at(index) by {
                    if i < earlier.len() {
                        assert(earlier[i] == rules[i]);
                    }
                }
            } else {
                let i = choose|i: int|
                    0 <= i < earlier.len() && (#[trigger] earlier[i]).fires_at(index);
                assert(rules[i].fires_at(index));
            }
        } else {
            assert(rules[rules.len() - 1].fires_at(index));
        }
    }
}

/// A rule that is added last decides where it fires and changes nothing
/// elsewhere.
pub proof fn newest_rule_overrides(schedule: ScheduleView, rule: Rule, index: u64)
    ensures
        schedule.with_rule(rule).fault_for(index) == if rule.fires_at(index) {
            Some(rule.payload())
        } else {
            schedule.fault_for(index)
        },
{
    assert(schedule.rules.push(rule).drop_last() =~= schedule.rules);
}

/// A schedule without rules is clean at every index: every call is forwarded
/// and nothing is counted.
pub proof fn empty_schedule_is_clean(schedule: ScheduleView, store: StoreView, index: u64)
    requires
        schedule.rules.len() == 0,
    ensures
        schedule.fault_for(index) is None,
        schedule.fate(index) == Fate::Forward,
        schedule.after_index(store, index) == store,
{
}

/// A fault scheduled at one index fires there and nowhere else.
pub proof fn fault_at_fires_exactly_once(
    schedule: ScheduleView,
    at: u64,
    fault: Fault,
    index: u64,
)
    requires
        schedule.rules.len() == 0,
    ensures
        schedule.with_rule(Rule::At(at, fault)).fault_for(index) == if index == at {
            Some(fault)
        } else {
            None
        },
{
    newest_rule_overrides(schedule, Rule::At(at, fault), index);
}

/// A periodic fault fires on the multiples of its period.
pub proof fn fault_every_fires_on_multiples(
    schedule: ScheduleView,
    period: u64,
    fault: Fault,
    index: u64,
)
    requires
        schedule.rules.len() == 0,
        period > 0,
    ensures
        schedule.with_rule(Rule::Every(period, fault)).fault_for(index) == if index % period == 0 {
            Some(fault)
        } else {
            None
        },
{
    newest_rule_overrides(schedule, Rule::Every(period, fault), index);
}

/// A fault scheduled on a range fires on the whole range, both ends
/// included, and nowhere else.
pub proof fn window_is_inclusive(
    schedule: ScheduleView,
    from: u64,
    to: u64,
    fault: Fault,
    index: u64,
)
    requires
        schedule.rules.len() == 0,
    ensures
        schedule.with_rule(Rule::Window(from, to, fault)).fault_for(index) == if from <= index
            <= to {
            Some(fault)
        } else {
            None
        },
{
    newest_rule_overrides(schedule, Rule::Window(from, to, fault), index);
}

/// A period of zero and a reversed range never fire: adding such a rule to
/// any schedule changes nothing.
pub proof fn inert_rules_change_nothing(
    schedule: ScheduleView,
    from: u64,
    to: u64,
    fault: Fault,
    index: u64,
)
    requires
        from > to,
    ensures
        schedule.with_rule(Rule::Every(0, fault)).fault_for(index) == schedule.fault_for(index),
        schedule.with_rule(Rule::Window(from, to, fault)).fault_for(index) == schedule.fault_for(
            index,
        ),
{
    newest_rule_overrides(schedule, Rule::Every(0, fault), index);
    newest_rule_overrides(schedule, Rule::Window(from, to, fault), index);
}

/// Draws stand for probabilities in `[0, 1)`.
pub proof fn draws_stay_in_the_unit_interval(schedule: ScheduleView, index: u64)
    ensures
        schedule.draw(index) < DRAW_SCALE,
{
    assert(word(schedule.seed, index) <= u64::MAX);
}

/// The draw for an index is the upper 53 bits of the word that undoing the
/// finalizer leads from to the seed, strode on by the index and moved on by two
/// rounds.
pub proof fn draws_are_upper_bits_of_the_stream(schedule: ScheduleView, index: u64, output: u64)
    requires
        unmixed(output) == (schedule.seed ^ index.wrapping_mul(
            0x9E37_79B9_7F4A_7C15,
        )).wrapping_add(0x3C6E_F372_FE94_F82A),
    ensures
        schedule.draw(index) == output as nat / 0x800,
{
    words_lead_back_to_seed_and_index(schedule.seed, index);
    mixing_is_undone(0, output);
    mixing_is_undone(0, word(schedule.seed, index));
}

/// At index zero the draw is that of the second output of the generator started
/// at the seed, and an index acts as a golden-gamma stride of the seed.
pub proof fn draws_stride_the_seed(a: ScheduleView, b: ScheduleView, index: u64)
    requires
        b.seed == a.seed ^ index.wrapping_mul(0x9E37_79B9_7F4A_7C15),
    ensures
        a.draw(index) == b.draw(0),
        b.draw(0) == stream(b.seed, 1) as nat / 0x800,
{
    indices_stride_the_seed(a.seed, index);
    first_index_draws_the_second_output(b.seed);
}

/// With seed zero, the draw at an index is that of the output two further along
/// the generator's stream from zero.
pub proof fn seed_zero_draws_along_the_stream(schedule: ScheduleView, index: u64)
    requires
        schedule.seed == 0,
    ensures
        schedule.draw(index) == stream(0, index as nat + 1) as nat / 0x800,
{
    seed_zero_walks_the_stream(index);
}

/// A throttle drops a call exactly when the call's draw, as a fraction of
/// `2^53`, is less than the rate's value; nothing is less than `NaN` or than a
/// negative rate.
pub proof fn drops_exactly_below_the_rate(schedule: ScheduleView, index: u64, rate: Rate)
    ensures
        schedule.drops(index, rate) <==> !rate.is_nan() && !rate.is_signed() && (rate.is_infinite()
            || schedule.draw(index) * pow2(1022) < rate.magnitude()),
{
}

/// Of two calls under one rate, the one with the smaller draw is dropped where
/// the other is; calls with the same draw share their fate under any rate.
pub proof fn smaller_draws_are_dropped_first(
    a: ScheduleView,
    b: ScheduleView,
    index: u64,
    other: u64,
    rate: Rate,
)
    requires
        a.draw(index) <= b.draw(other),
    ensures
        b.drops(other, rate) ==> a.drops(index, rate),
        a.draw(index) == b.draw(other) ==> a.drops(index, rate) == b.drops(other, rate),
{
    let low = a.draw(index);
    let high = b.draw(other);
    assert(low * pow2(1022) <= high * pow2(1022)) by (nonlinear_arith)
        requires
            low <= high,
    ;
}

/// What a rate is, read off its sign, exponent and fraction bits: the bits
/// `sign`, `exponent`, `fraction` stand for a value as IEEE 754 says, and draws
/// are compared with that value.
pub proof fn rates_mean_their_bits(
    rate: Rate,
    sign: nat,
    exponent: nat,
    fraction: nat,
    draw: nat,
)
    requires
        sign < 2,
        exponent < 0x800,
        fraction < 0x10_0000_0000_0000,
        rate.pattern() == sign * 0x8000_0000_0000_0000 + exponent * 0x10_0000_0000_0000 + fraction,
    ensures
        rate.is_nan() <==> exponent == 0x7FF && fraction > 0,
        rate.is_infinite() <==> exponent == 0x7FF && fraction == 0,
        rate.is_zero() <==> exponent == 0 && fraction == 0,
        rate.is_signed() <==> sign == 1,
        exponent == 0 ==> rate.magnitude() == fraction * 2,
        0 < exponent < 0x7FF ==> rate.magnitude() == (0x10_0000_0000_0000 + fraction) * pow2(
            exponent,
        ),
        sign == 1 || exponent == 0x7FF && fraction > 0 ==> !rate.above(draw),
        sign == 0 && exponent == 0x7FF && fraction == 0 ==> rate.above(draw),
        sign == 0 && exponent == 0 ==> (rate.above(draw) <==> draw * pow2(1022) < fraction * 2),
        sign == 0 && 0 < exponent < 0x7FF ==> (rate.above(draw) <==> draw * pow2(1022) < (
        0x10_0000_0000_0000 + fraction) * pow2(exponent)),
{
    lemma2_to64();
    let pattern = rate.pattern() as nat;
    let upper = sign * 0x800 + exponent;
    assert(pattern == upper * 0x10_0000_0000_0000 + fraction);
    assert(pattern / 0x10_0000_0000_0000 == upper);
    assert(pattern % 0x10_0000_0000_0000 == fraction);
    assert(upper % 0x800 == exponent);
}

/// A rate of one or more drops every call; a rate of zero or less, and `NaN`,
/// drops none.
pub proof fn throttle_rates_saturate(schedule: ScheduleView, index: u64, rate: Rate)
    ensures
        rate.at_least_one() ==> schedule.drops(index, rate),
        rate.is_signed() || rate.is_zero() || rate.is_nan() ==> !schedule.drops(index, rate),
{
    let draw = schedule.draw(index);
    draws_stay_in_the_unit_interval(schedule, index);
    lemma_pow2_pos(1022);
    lemma2_to64_rest();
    lemma_pow2_adds(53, 1022);
    assert(draw * pow2(1022) < pow2(53) * pow2(1022)) by (nonlinear_arith)
        requires
            draw < pow2(53),
            pow2(1022) > 0,
    ;
    if rate.is_zero() {
        assert(rate.magnitude() == 0) by (nonlinear_arith)
            requires
                rate.significand() == 0,
                rate.magnitude() == rate.significand() * pow2(rate.exponent()),
        ;
    }
}

/// A higher rate drops every call that a lower one drops.
pub proof fn higher_rates_drop_no_less(schedule: ScheduleView, index: u64, low: Rate, high: Rate)
    requires
        low.at_most(high),
        schedule.drops(index, low),
    ensures
        schedule.drops(index, high),
{
    throttle_rates_saturate(schedule, index, low);
}

/// What is done to the recorder through one clone of a schedule, be it a
/// record or a reset, is seen through every other.
pub proof fn clones_share_the_recorder(
    original: ScheduleView,
    copy: ScheduleView,
    store: StoreView,
    kind: FaultKind,
)
    requires
        original == copy,
        original.lives_in(store),
    ensures
        original.counts_in(store.with_record(copy.recorder, kind)) == counted(
            original.counts_in(store),
            kind,
        ),
        original.counts_in(store.with_counts(copy.recorder, no_counts())) == no_counts(),
{
}

/// Adding a rule keeps the recorder.
pub proof fn rules_keep_the_recorder(schedule: ScheduleView, rule: Rule, store: StoreView)
    ensures
        schedule.with_rule(rule).counts_in(store) == schedule.counts_in(store),
        schedule.with_rule(rule).seed == schedule.seed,
{
}

/// Schedules with recorders of their own count apart.
pub proof fn unrelated_schedules_count_apart(
    a: ScheduleView,
    b: ScheduleView,
    store: StoreView,
    kind: FaultKind,
)
    requires
        a.lives_in(store),
        b.lives_in(store),
        a.recorder != b.recorder,
    ensures
        b.counts_in(store.with_record(a.recorder, kind)) == b.counts_in(store),
{
}

/// A new schedule's recorder starts at zero, and making it leaves the counts
/// of every earlier schedule alone.
pub proof fn new_schedules_start_at_zero(earlier: ScheduleView, store: StoreView, seed: u64)
    requires
        earlier.lives_in(store),
    ensures
        ({
            let made = ScheduleView {
                seed,
                rules: Seq::empty(),
                recorder: store.recorders.len(),
            };
            let later = StoreView {
                recorders: store.recorders.push(no_counts()),
                counters: store.counters,
            };
            &&& made.lives_in(later)
            &&& made.counts_in(later) == no_counts()
            &&& earlier.lives_in(later)
            &&& earlier.counts_in(later) == earlier.counts_in(store)
            &&& earlier.recorder != made.recorder
        }),
{
}

/// Slots are never given up: what lives in a store lives in it when it has
/// grown, and calls never shrink it.
pub proof fn names_stay_valid(layer: LayerView, other: LayerView, store: StoreView, later: StoreView)
    requires
        layer.lives_in(store),
        other.lives_in(store),
        store.grows_to(later),
    ensures
        other.lives_in(later),
        store.grows_to(layer.after_call(store)),
{
}

/// A scheduled fault is met by the call at its index, unless it is a throttle
/// that the index survives. Where nothing is scheduled, nothing is met.
pub proof fn scheduled_faults_are_applied(schedule: ScheduleView, index: u64, fault: Fault)
    ensures
        schedule.fault_for(index) is None ==> schedule.applied(index) is None,
        schedule.fault_for(index) == Some(fault) && !(fault is Throttle) ==> schedule.applied(index)
            == Some(fault),
        schedule.fault_for(index) == Some(fault) && (fault matches Fault::Throttle { rate }
            && schedule.drops(index, rate)) ==> schedule.applied(index) == Some(fault),
        schedule.fault_for(index) == Some(fault) && (fault matches Fault::Throttle { rate }
            && !schedule.drops(index, rate)) ==> schedule.applied(index) is None,
{
}

/// A call that meets a latency is delayed by the scheduled time.
pub proof fn latency_delays_the_call(schedule: ScheduleView, index: u64, delay: Duration)
    requires
        schedule.fault_for(index) == Some(Fault::Latency(delay)),
    ensures
        schedule.fate(index) == Fate::Delay(delay),
{
}

/// A call that meets an error is answered with the scripted error.
pub proof fn errors_are_answered_as_scripted(
    schedule: ScheduleView,
    index: u64,
    error: ChaosError,
)
    requires
        schedule.fault_for(index) == Some(Fault::Error(error)),
    ensures
        schedule.fate(index) == Fate::Reject(error),
{
}

/// A call that meets a CPU fault keeps a core busy for the scheduled time.
pub proof fn cpu_faults_burn_their_time(schedule: ScheduleView, index: u64, duration: Duration)
    requires
        schedule.fault_for(index) == Some(Fault::Cpu(duration)),
    ensures
        schedule.fate(index) == Fate::Burn(duration),
{
}

/// A call that meets a throttle is unavailable when its draw is less than the
/// rate, and untouched otherwise.
pub proof fn throttles_go_by_the_draw(schedule: ScheduleView, index: u64, rate: Rate)
    requires
        schedule.fault_for(index) == Some(Fault::Throttle { rate }),
    ensures
        schedule.drops(index, rate) ==> schedule.fate(index) == Fate::Reject(
            ChaosError::Unavailable,
        ),
        !schedule.drops(index, rate) ==> schedule.fate(index) == Fate::Forward,
{
}

/// A call for which nothing is scheduled is untouched.
pub proof fn clean_calls_are_untouched(schedule: ScheduleView, index: u64)
    requires
        schedule.fault_for(index) is None,
    ensures
        schedule.fate(index) == Fate::Forward,
{
}

/// The kind of fault that a call at `index` is counted as, told by the
/// scheduled fault alone.
pub open spec fn counted_as(schedule: ScheduleView, index: u64, kind: FaultKind) -> bool {
    match kind {
        FaultKind::Latency => schedule.fault_for(index) matches Some(Fault::Latency(_)),
        FaultKind::Error => schedule.fault_for(index) matches Some(Fault::Error(_)),
        FaultKind::Partition => schedule.fault_for(index) matches Some(Fault::Partition { .. }),
        FaultKind::Throttle => schedule.fault_for(index) matches Some(Fault::Throttle { rate })
            && schedule.drops(index, rate),
        FaultKind::Cpu => schedule.fault_for(index) matches Some(Fault::Cpu(_)),
    }
}

/// A call counts the fault that it meets once, under the kind of that fault and
/// in its schedule's recorder; no other count moves, and no call counter.
pub proof fn strikes_count_once(
    schedule: ScheduleView,
    store: StoreView,
    index: u64,
    recorder: nat,
    kind: FaultKind,
)
    requires
        schedule.lives_in(store),
        recorder < store.recorders.len(),
    ensures
        ({
            let before = store.recorders[recorder as int][kind];
            let after = schedule.after_index(store, index).recorders[recorder as int][kind];
            if recorder == schedule.recorder && counted_as(schedule, index, kind) {
                if before < usize::MAX {
                    after == before + 1
                } else {
                    after == 0
                }
            } else {
                after == before
            }
        }),
        schedule.after_index(store, index).recorders.len() == store.recorders.len(),
        schedule.after_index(store, index).counters == store.counters,
{
}

/// A call meets at most one fault, and reaches the wrapped service exactly
/// when that fault is absent, a latency or a CPU burn.
pub proof fn only_latency_and_cpu_faults_forward(schedule: ScheduleView, index: u64)
    ensures
        schedule.fate(index).forwards() <==> match schedule.applied(index) {
            None => true,
            Some(fault) => fault.spec_kind() == FaultKind::Latency || fault.spec_kind()
                == FaultKind::Cpu,
        },
{
}

/// A rejected call is answered with the scripted error of an error fault, and
/// with `Unavailable` for a partition or a throttle.
pub proof fn rejections_carry_the_right_error(
    schedule: ScheduleView,
    index: u64,
    error: ChaosError,
)
    requires
        schedule.fate(index) == Fate::Reject(error),
    ensures
        schedule.fault_for(index) == Some(Fault::Error(error)) || (error
            == ChaosError::Unavailable && (schedule.fault_for(index) matches Some(
            Fault::Partition { .. },
        ) || (schedule.fault_for(index) matches Some(Fault::Throttle { rate }) && schedule.drops(
            index,
            rate,
        )))),
{
}

/// Both directions of a partition sever the call in the same way, whatever
/// outage length they document.
pub proof fn partitions_sever_either_way(a: ScheduleView, b: ScheduleView, index: u64)
    requires
        a.fault_for(index) matches Some(Fault::Partition { .. }),
        b.fault_for(index) matches Some(Fault::Partition { .. }),
    ensures
        a.fate(index) == Fate::Reject(ChaosError::Unavailable),
        b.fate(index) == a.fate(index),
{
}

/// The index that is `n` further on than `start`, wrapping to zero past
/// `u64::MAX`.
#[verifier::opaque]
pub open spec fn index_after(start: u64, n: nat) -> u64 {
    ((start + n) % (u64::MAX + 1)) as u64
}

/// The count that is `n` more than `count`, wrapping to zero past
/// `usize::MAX`.
#[verifier::opaque]
pub open spec fn count_after(count: usize, n: nat) -> usize {
    ((count + n) % (usize::MAX + 1)) as usize
}

/// A remainder moves on by one, or back to zero.
proof fn lemma_mod_step(sum: nat, size: nat)
    requires
        size > 0,
    ensures
        0 <= sum % size < size,
        sum < size ==> sum % size == sum,
        (sum + 1) % size == if sum % size + 1 == size {
            0
        } else {
            sum % size + 1
        },
{
    let total: int = sum as int;
    let range: int = size as int;
    lemma_fundamental_div_mod(total, range);
    lemma_mod_bound(total, range);
    if sum < size {
        lemma_small_mod(sum, size);
    }
    let quotient: int = total / range;
    if total % range + 1 == range {
        lemma_mul_is_distributive_add(range, quotient, 1);
        lemma_mul_is_commutative(range, quotient + 1);
        lemma_fundamental_div_mod_converse(total + 1, range, quotient + 1, 0);
    } else {
        lemma_mul_is_commutative(range, quotient);
        lemma_fundamental_div_mod_converse(total + 1, range, quotient, total % range + 1);
    }
}

/// Each index is one more than the one before it, and back at zero past
/// `u64::MAX`.
pub proof fn indices_follow_on(start: u64, n: nat)
    ensures
        index_after(start, 0) == start,
        index_after(start, n + 1) == index_after(start, n).wrapping_add(1),
        start + n <= u64::MAX ==> index_after(start, n) == start + n,
{
    reveal(index_after);
    let size: nat = (u64::MAX + 1) as nat;
    lemma_mod_step(start as nat, size);
    lemma_mod_step((start + n) as nat, size);
}

/// Each count is one more than the one before it, and back at zero past
/// `usize::MAX`.
pub proof fn counts_follow_on(count: usize, n: nat)
    ensures
        count_after(count, 0) == count,
        count_after(count, n + 1) == count_after(count, n).wrapping_add(1),
        count + n <= usize::MAX ==> count_after(count, n) == count + n,
{
    reveal(count_after);
    let size: nat = (usize::MAX + 1) as nat;
    lemma_mod_step(count as nat, size);
    lemma_mod_step((count + n) as nat, size);
}

/// How many of the indices from `start` on, `n` of them, meet a fault of
/// `kind`.
pub open spec fn faults_met(schedule: ScheduleView, start: u64, n: nat, kind: FaultKind) -> nat
    decreases n,
{
    if n == 0 {
        0
    } else {
        let here: nat = if schedule.applied(index_after(start, (n - 1) as nat)) matches Some(fault)
            && fault.spec_kind() == kind {
            1
        } else {
            0
        };
        faults_met(schedule, start, (n - 1) as nat, kind) + here
    }
}

/// How many of the indices from `start` on, `n` of them, are forwarded.
pub open spec fn forwarded(schedule: ScheduleView, start: u64, n: nat) -> nat
    decreases n,
{
    if n == 0 {
        0
    } else {
        let here: nat = if schedule.fate(index_after(start, (n - 1) as nat)).forwards() {
            1
        } else {
            0
        };
        forwarded(schedule, start, (n - 1) as nat) + here
    }
}

/// Calls are numbered one after the other: after `n` calls the next one has
/// the index that is `n` further on, wrapping as the counter does.
pub proof fn calls_are_numbered_in_order(layer: LayerView, store: StoreView, n: nat)
    requires
        layer.lives_in(store),
    ensures
        layer.lives_in(layer.after_calls(store, n)),
        layer.next_index(layer.after_calls(store, n)) == index_after(layer.next_index(store), n),
        layer.next_index(store) + n <= u64::MAX ==> layer.next_index(layer.after_calls(store, n))
            == layer.next_index(store) + n,
        layer.next_fate(layer.after_calls(store, n)) == layer.schedule.fate(
            index_after(layer.next_index(store), n),
        ),
    decreases n,
{
    indices_follow_on(layer.next_index(store), n);
    if n > 0 {
        calls_are_numbered_in_order(layer, store, (n - 1) as nat);
        indices_follow_on(layer.next_index(store), (n - 1) as nat);
    }
}

/// The recorder counts every applied fault: over a run of calls, however long,
/// each kind's count grows by the number of calls that met a fault of that
/// kind, wrapping as the counter does.
pub proof fn recorder_counts_every_applied_fault(
    layer: LayerView,
    store: StoreView,
    n: nat,
    kind: FaultKind,
)
    requires
        layer.lives_in(store),
    ensures
        ({
            let met = faults_met(layer.schedule, layer.next_index(store), n, kind);
            let before = layer.schedule.counts_in(store)[kind];
            let after = layer.schedule.counts_in(layer.after_calls(store, n))[kind];
            &&& met <= n
            &&& after == count_after(before, met)
            &&& before + met <= usize::MAX ==> after == before + met
        }),
    decreases n,
{
    let before = layer.schedule.counts_in(store)[kind];
    counts_follow_on(before, faults_met(layer.schedule, layer.next_index(store), n, kind));
    if n > 0 {
        calls_are_numbered_in_order(layer, store, (n - 1) as nat);
        recorder_counts_every_applied_fault(layer, store, (n - 1) as nat, kind);
        counts_follow_on(
            before,
            faults_met(layer.schedule, layer.next_index(store), (n - 1) as nat, kind),
        );
    }
}

/// Over a run of calls, those that do not reach the wrapped service are the
/// ones that met an error, a partition or a dropping throttle.
pub proof fn every_call_is_forwarded_or_rejected(schedule: ScheduleView, start: u64, n: nat)
    ensures
        forwarded(schedule, start, n) + faults_met(schedule, start, n, FaultKind::Error)
            + faults_met(schedule, start, n, FaultKind::Partition) + faults_met(
            schedule,
            start,
            n,
            FaultKind::Throttle,
        ) == n,
    decreases n,
{
    if n > 0 {
        every_call_is_forwarded_or_rejected(schedule, start, (n - 1) as nat);
    }
}

/// The store after one call through each of `callers`, in order.
pub open spec fn after_run(callers: Seq<LayerView>, store: StoreView) -> StoreView
    decreases callers.len(),
{
    if callers.len() == 0 {
        store
    } else {
        callers.last().after_call(after_run(callers.drop_last(), store))
    }
}

/// How many of `callers` number their calls from the counter at `counter`.
pub open spec fn calls_numbered(callers: Seq<LayerView>, counter: nat) -> nat
    decreases callers.len(),
{
    if callers.len() == 0 {
        0
    } else {
        calls_numbered(callers.drop_last(), counter) + if callers.last().counter == counter {
            1nat
        } else {
            0nat
        }
    }
}

/// How many of the calls of a run meet a fault of `kind` and count it in the
/// recorder at `recorder`.
pub open spec fn faults_counted(
    callers: Seq<LayerView>,
    store: StoreView,
    recorder: nat,
    kind: FaultKind,
) -> nat
    decreases callers.len(),
{
    if callers.len() == 0 {
        0
    } else {
        let before = after_run(callers.drop_last(), store);
        let caller = callers.last();
        let here: nat = if caller.schedule.recorder == recorder && (caller.schedule.applied(
            caller.next_index(before),
        ) matches Some(fault) && fault.spec_kind() == kind) {
            1
        } else {
            0
        };
        faults_counted(callers.drop_last(), store, recorder, kind) + here
    }
}

/// Every caller of a run lives in the store.
pub open spec fn all_live_in(callers: Seq<LayerView>, store: StoreView) -> bool {
    forall|i: int| 0 <= i < callers.len() ==> (#[trigger] callers[i]).lives_in(store)
}

/// A run neither adds nor removes slots.
proof fn lemma_run_keeps_slots(callers: Seq<LayerView>, store: StoreView)
    requires
        all_live_in(callers, store),
    ensures
        after_run(callers, store).recorders.len() == store.recorders.len(),
        after_run(callers, store).counters.len() == store.counters.len(),
    decreases callers.len(),
{
    if callers.len() > 0 {
        let earlier = callers.drop_last();
        assert forall|i: int| 0 <= i < earlier.len() implies (#[trigger] earlier[i]).lives_in(
            store,
        ) by {
            assert(callers[i].lives_in(store));
        }
        lemma_run_keeps_slots(earlier, store);
        assert(callers[callers.len() - 1].lives_in(store));
    }
}

/// Layers share a counter or they do not: in any run, however the layers take
/// turns, a layer's next index moves on by the number of calls that were made
/// through layers with the same counter.
pub proof fn sharing_layers_share_the_numbering(
    callers: Seq<LayerView>,
    layer: LayerView,
    store: StoreView,
)
    requires
        all_live_in(callers, store),
        layer.lives_in(store),
    ensures
        ({
            let calls = calls_numbered(callers, layer.counter);
            let before = layer.next_index(store);
            let after = layer.next_index(after_run(callers, store));
            &&& calls <= callers.len()
            &&& after == index_after(before, calls)
            &&& before + calls <= u64::MAX ==> after == before + calls
        }),
    decreases callers.len(),
{
    let before = layer.next_index(store);
    indices_follow_on(before, calls_numbered(callers, layer.counter));
    if callers.len() > 0 {
        let earlier = callers.drop_last();
        indices_follow_on(before, calls_numbered(earlier, layer.counter));
        assert forall|i: int| 0 <= i < earlier.len() implies (#[trigger] earlier[i]).lives_in(
            store,
        ) by {
            assert(callers[i].lives_in(store));
        }
        sharing_layers_share_the_numbering(earlier, layer, store);
        lemma_run_keeps_slots(earlier, store);
        assert(callers[callers.len() - 1].lives_in(store));
    }
}

/// Layers that share a recorder count into it together: in any run, however
/// the layers take turns, each count grows by the number of calls through
/// those layers that met a fault of that kind.
pub proof fn sharing_layers_share_the_counts(
    callers: Seq<LayerView>,
    schedule: ScheduleView,
    store: StoreView,
    kind: FaultKind,
)
    requires
        all_live_in(callers, store),
        schedule.lives_in(store),
    ensures
        ({
            let faults = faults_counted(callers, store, schedule.recorder, kind);
            let before = schedule.counts_in(store)[kind];
            let after = schedule.counts_in(after_run(callers, store))[kind];
            &&& faults <= callers.len()
            &&& after == count_after(before, faults)
            &&& before + faults <= usize::MAX ==> after == before + faults
        }),
    decreases callers.len(),
{
    let before = schedule.counts_in(store)[kind];
    counts_follow_on(before, faults_counted(callers, store, schedule.recorder, kind));
    if callers.len() > 0 {
        let earlier = callers.drop_last();
        counts_follow_on(before, faults_counted(earlier, store, schedule.recorder, kind));
        assert forall|i: int| 0 <= i < earlier.len() implies (#[trigger] earlier[i]).lives_in(
            store,
        ) by {
            assert(callers[i].lives_in(store));
        }
        sharing_layers_share_the_counts(earlier, schedule, store, kind);
        lemma_run_keeps_slots(earlier, store);
        assert(callers[callers.len() - 1].lives_in(store));
    }
}

/// Clones of a layer share the call counter and the recorder: a run of calls
/// leaves the same store whichever clone each call goes through.
pub proof fn clones_are_interchangeable(
    original: LayerView,
    clones: Seq<LayerView>,
    store: StoreView,
)
    requires
        forall|i: int| 0 <= i < clones.len() ==> #[trigger] clones[i] == original,
    ensures
        after_run(clones, store) == original.after_calls(store, clones.len()),
    decreases clones.len(),
{
    if clones.len() > 0 {
        let earlier = clones.drop_last();
        assert forall|i: int| 0 <= i < earlier.len() implies #[trigger] earlier[i] == original by {
            assert(clones[i] == original);
        }
        clones_are_interchangeable(original, earlier, store);
        assert(clones[clones.len() - 1] == original);
    }
}

/// Layers with counters of their own number their own calls: a call through
/// one leaves the other's next index alone.
pub proof fn layers_number_their_own_calls(a: LayerView, b: LayerView, store: StoreView)
    requires
        a.lives_in(store),
        b.lives_in(store),
        a.counter != b.counter,
    ensures
        b.next_index(a.after_call(store)) == b.next_index(store),
        b.next_fate(a.after_call(store)) == b.next_fate(store),
{
}

/// A new layer starts at index zero and leaves every earlier layer's next
/// index and counts alone.
pub proof fn new_layers_start_at_zero(
    earlier: LayerView,
    schedule: ScheduleView,
    store: StoreView,
)
    requires
        earlier.lives_in(store),
        schedule.lives_in(store),
    ensures
        ({
            let made = LayerView { schedule, counter: store.counters.len() };
            let later = StoreView { recorders: store.recorders, counters: store.counters.push(0) };
            &&& made.lives_in(later)
            &&& made.next_index(later) == 0
            &&& earlier.lives_in(later)
            &&& earlier.next_index(later) == earlier.next_index(store)
            &&& earlier.schedule.counts_in(later) == earlier.schedule.counts_in(store)
            &&& made.counter != earlier.counter
        }),
{
}

/// The same seed, the same rules and the same call sequence give the same
/// chaos: two layers that start at the same index decide alike about every
/// call of a run, whatever else their stores hold.
pub proof fn same_calls_same_chaos(
    a: LayerView,
    b: LayerView,
    store_a: StoreView,
    store_b: StoreView,
    n: nat,
)
    requires
        a.schedule.seed == b.schedule.seed,
        a.schedule.rules == b.schedule.rules,
        a.lives_in(store_a),
        b.lives_in(store_b),
        a.next_index(store_a) == b.next_index(store_b),
    ensures
        a.lives_in(a.after_calls(store_a, n)),
        b.lives_in(b.after_calls(store_b, n)),
        a.next_index(a.after_calls(store_a, n)) == b.next_index(b.after_calls(store_b, n)),
        a.next_fate(a.after_calls(store_a, n)) == b.next_fate(b.after_calls(store_b, n)),
    decreases n,
{
    if n > 0 {
        same_calls_same_chaos(a, b, store_a, store_b, (n - 1) as nat);
    }
}

/// An empty schedule is a pure pass-through: over any run of calls, every
/// call is forwarded and no count moves.
pub proof fn empty_schedule_passes_through(layer: LayerView, store: StoreView, n: nat)
    requires
        layer.schedule.rules.len() == 0,
        layer.lives_in(store),
    ensures
        layer.next_fate(layer.after_calls(store, n)) == Fate::Forward,
        layer.after_calls(store, n).recorders == store.recorders,
    decreases n,
{
    if n > 0 {
        empty_schedule_passes_through(layer, store, (n - 1) as nat);
    }
}

/// A converted error and a mapped one differ in the answer alone: whichever is
/// used, the same calls are forwarded, delayed, burnt and answered, for the
/// same time.
pub proof fn conversions_and_mappings_act_alike<A, B>(
    fate: Fate,
    plain: CallAction<A>,
    mapped: CallAction<B>,
    converts: spec_fn(ChaosError, A) -> bool,
    maps: spec_fn(ChaosError, B) -> bool,
)
    requires
        carries_out(plain, fate, converts),
        carries_out(mapped, fate, maps),
    ensures
        plain is Forward <==> mapped is Forward,
        plain is Answer <==> mapped is Answer,
        plain matches CallAction::Delay(delay) ==> mapped == CallAction::<B>::Delay(delay),
        mapped matches CallAction::Delay(delay) ==> plain == CallAction::<A>::Delay(delay),
        plain matches CallAction::Burn(duration) ==> mapped == CallAction::<B>::Burn(duration),
        mapped matches CallAction::Burn(duration) ==> plain == CallAction::<A>::Burn(duration),
{
}

/// A call that is rejected is answered without the wrapped service. A clean
/// call is forwarded at once, a burnt one after the burn, and a delayed one is
/// begun with its sleep started and the forwarding still to come.
pub proof fn calls_begin_as_their_fate_says<
    D,
    F,
    O,
    K,
    C,
    P: FnOnce(Duration) -> D,
    B: FnOnce(Duration) -> K,
    W: FnOnce(C, Option<K>) -> F,
>(
    fate: Fate,
    action: CallAction<O>,
    answers: spec_fn(ChaosError, O) -> bool,
    gate: Gate<D, C, F, O>,
    call: C,
    sleep: P,
    burn: B,
    forward: W,
)
    requires
        carries_out(action, fate, answers),
        gate.begun(action, call, sleep, burn, forward),
    ensures
        gate is Faulted <==> !fate.forwards(),
        match fate {
            Fate::Forward => {
                &&& gate matches Gate::Passthrough { future }
                &&& call_ensures(forward, (call, None), future)
            },
            Fate::Delay(delay) => {
                &&& gate matches Gate::Delayed { sleep: started, call: kept }
                &&& call_ensures(sleep, (delay,), started)
                &&& kept == Some(call)
            },
            Fate::Burn(duration) => {
                &&& gate matches Gate::Passthrough { future }
                &&& exists|burnt: K| #[trigger]
                    call_ensures(burn, (duration,), burnt) && call_ensures(
                        forward,
                        (call, Some(burnt)),
                        future,
                    )
            },
            Fate::Reject(error) => {
                &&& gate matches Gate::Faulted { answer: Some(answer) }
                &&& answers(error, answer)
            },
        },
{
}

} // verus!
