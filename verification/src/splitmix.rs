//! The `SplitMix64` generator (Steele and Lea), kept in the crate so that its
//! output stream never changes.

use vstd::arithmetic::div_mod::{
    lemma_add_mod_noop, lemma_mul_mod_noop_left, lemma_mul_mod_noop_right, lemma_small_mod,
};
use vstd::prelude::*;

verus! {

/// The `SplitMix64` golden-gamma increment.
pub const GOLDEN_GAMMA: u64 = 0x9E37_79B9_7F4A_7C15;

/// The first finalizer multiplier.
pub const MIX_FIRST: u64 = 0xBF58_476D_1CE4_E5B9;

/// The second finalizer multiplier.
pub const MIX_SECOND: u64 = 0x94D0_49BB_1331_11EB;

/// The `SplitMix64` finalizer.
pub open spec fn mix(state: u64) -> u64 {
    let first = (state ^ (state >> 30)).wrapping_mul(MIX_FIRST);
    let second = (first ^ (first >> 27)).wrapping_mul(MIX_SECOND);
    second ^ (second >> 31)
}

/// One round of `SplitMix64`: the state moves on by the golden gamma, and the
/// output is the finalizer of the new state.
pub fn splitmix64(state: &mut u64) -> (output: u64)
    ensures
        *final(state) == old(state).wrapping_add(GOLDEN_GAMMA),
        output == mix(*final(state)),
{
    *state = state.wrapping_add(GOLDEN_GAMMA);
    let mut z: u64 = *state;
    z = (z ^ (z >> 30)).wrapping_mul(MIX_FIRST);
    z = (z ^ (z >> 27)).wrapping_mul(MIX_SECOND);
    z ^ (z >> 31)
}

/// The generator state that a schedule's draw for `index` starts from.
pub open spec fn start_state(seed: u64, index: u64) -> u64 {
    seed ^ index.wrapping_mul(GOLDEN_GAMMA)
}

/// The word drawn for `index`: the second output of the generator started at
/// [`start_state`].
pub open spec fn word(seed: u64, index: u64) -> u64 {
    mix(start_state(seed, index).wrapping_add(GOLDEN_GAMMA).wrapping_add(GOLDEN_GAMMA))
}

/// Multiplying by an invertible factor is injective modulo `2^64`.
proof fn lemma_mul_injective(a: u64, b: u64, factor: u64, inverse: u64)
    requires
        (factor as int * inverse as int) % 0x1_0000_0000_0000_0000 == 1,
        a.wrapping_mul(factor) == b.wrapping_mul(factor),
    ensures
        a == b,
{
    lemma_mul_undone(a, factor, inverse);
    lemma_mul_undone(b, factor, inverse);
}

/// Multiplying by the inverse undoes a multiplication modulo `2^64`.
proof fn lemma_mul_undone(a: u64, factor: u64, inverse: u64)
    requires
        (factor as int * inverse as int) % 0x1_0000_0000_0000_0000 == 1,
    ensures
        a.wrapping_mul(factor).wrapping_mul(inverse) == a,
{
    let range = 0x1_0000_0000_0000_0000int;
    let product = a as int * factor as int;
    lemma_mul_mod_noop_left(product, inverse as int, range);
    assert(product * inverse as int == a as int * (factor as int * inverse as int))
        by (nonlinear_arith)
        requires
            product == a as int * factor as int,
    ;
    lemma_mul_mod_noop_right(a as int, factor as int * inverse as int, range);
    lemma_small_mod(a as nat, range as nat);
}

/// The finalizer never maps two states to one output.
pub proof fn mix_is_injective(a: u64, b: u64)
    requires
        mix(a) == mix(b),
    ensures
        a == b,
{
    let first_a = (a ^ (a >> 30)).wrapping_mul(MIX_FIRST);
    let first_b = (b ^ (b >> 30)).wrapping_mul(MIX_FIRST);
    let second_a = (first_a ^ (first_a >> 27)).wrapping_mul(MIX_SECOND);
    let second_b = (first_b ^ (first_b >> 27)).wrapping_mul(MIX_SECOND);
    assert(second_a ^ (second_a >> 31) == second_b ^ (second_b >> 31) ==> second_a == second_b)
        by (bit_vector);
    lemma_mul_injective(
        first_a ^ (first_a >> 27),
        first_b ^ (first_b >> 27),
        MIX_SECOND,
        0x3196_42B2_D24D_8EC3,
    );
    assert(first_a ^ (first_a >> 27) == first_b ^ (first_b >> 27) ==> first_a == first_b)
        by (bit_vector);
    lemma_mul_injective(a ^ (a >> 30), b ^ (b >> 30), MIX_FIRST, 0x96DE_1B17_3F11_9089);
    assert(a ^ (a >> 30) == b ^ (b >> 30) ==> a == b) by (bit_vector);
}

/// Two seeds never draw the same word at the same index.
pub proof fn words_differ_across_seeds(seed: u64, other: u64, index: u64)
    requires
        seed != other,
    ensures
        word(seed, index) != word(other, index),
{
    if word(seed, index) == word(other, index) {
        mix_is_injective(
            start_state(seed, index).wrapping_add(GOLDEN_GAMMA).wrapping_add(GOLDEN_GAMMA),
            start_state(other, index).wrapping_add(GOLDEN_GAMMA).wrapping_add(GOLDEN_GAMMA),
        );
        let stride = index.wrapping_mul(GOLDEN_GAMMA);
        assert(seed ^ stride == other ^ stride ==> seed == other) by (bit_vector);
    }
}

/// One seed never draws the same word at two indices.
pub proof fn words_differ_across_indices(seed: u64, index: u64, other: u64)
    requires
        index != other,
    ensures
        word(seed, index) != word(seed, other),
{
    if word(seed, index) == word(seed, other) {
        mix_is_injective(
            start_state(seed, index).wrapping_add(GOLDEN_GAMMA).wrapping_add(GOLDEN_GAMMA),
            start_state(seed, other).wrapping_add(GOLDEN_GAMMA).wrapping_add(GOLDEN_GAMMA),
        );
        let stride = index.wrapping_mul(GOLDEN_GAMMA);
        let other_stride = other.wrapping_mul(GOLDEN_GAMMA);
        assert(seed ^ stride == seed ^ other_stride ==> stride == other_stride) by (bit_vector);
        lemma_mul_injective(index, other, GOLDEN_GAMMA, 0xF1DE_83E1_9937_733D);
    }
}

/// The state whose finalizer is `output`: every step of the finalizer is taken
/// back, last step first, each multiplier by its inverse modulo `2^64`.
pub open spec fn unmixed(output: u64) -> u64 {
    let second = output ^ (output >> 31) ^ (output >> 62);
    let shifted = second.wrapping_mul(0x3196_42B2_D24D_8EC3);
    let first = shifted ^ (shifted >> 27) ^ (shifted >> 54);
    let start = first.wrapping_mul(0x96DE_1B17_3F11_9089);
    start ^ (start >> 30) ^ (start >> 60)
}

/// The finalizer loses nothing: it is undone step by step, last step first,
/// each multiplier by its inverse modulo `2^64`; and it undoes that in turn.
pub proof fn mixing_is_undone(state: u64, output: u64)
    ensures
        unmixed(mix(state)) == state,
        mix(unmixed(output)) == output,
        ({
            let mixed = mix(state);
            let second = mixed ^ (mixed >> 31) ^ (mixed >> 62);
            let shifted = second.wrapping_mul(0x3196_42B2_D24D_8EC3);
            let first = shifted ^ (shifted >> 27) ^ (shifted >> 54);
            let start = first.wrapping_mul(0x96DE_1B17_3F11_9089);
            start ^ (start >> 30) ^ (start >> 60) == state
        }),
{
    lemma_unmixed_after_mix(state);
    let source = unmixed(output);
    lemma_unmixed_after_mix(source);
    lemma_unmixed_is_injective(mix(source), output);
}

proof fn lemma_unmixed_after_mix(state: u64)
    ensures
        unmixed(mix(state)) == state,
{
    let start = state ^ (state >> 30);
    let first = start.wrapping_mul(MIX_FIRST);
    let shifted = first ^ (first >> 27);
    let second = shifted.wrapping_mul(MIX_SECOND);
    let output = second ^ (second >> 31);
    assert(output == second ^ (second >> 31) ==> output ^ (output >> 31) ^ (output >> 62) == second)
        by (bit_vector);
    lemma_mul_undone(shifted, MIX_SECOND, 0x3196_42B2_D24D_8EC3);
    assert(shifted == first ^ (first >> 27) ==> shifted ^ (shifted >> 27) ^ (shifted >> 54) == first)
        by (bit_vector);
    lemma_mul_undone(start, MIX_FIRST, 0x96DE_1B17_3F11_9089);
    assert(start == state ^ (state >> 30) ==> start ^ (start >> 30) ^ (start >> 60) == state)
        by (bit_vector);
}

proof fn lemma_unmixed_is_injective(a: u64, b: u64)
    requires
        unmixed(a) == unmixed(b),
    ensures
        a == b,
{
    let second_a = a ^ (a >> 31) ^ (a >> 62);
    let second_b = b ^ (b >> 31) ^ (b >> 62);
    let shifted_a = second_a.wrapping_mul(0x3196_42B2_D24D_8EC3);
    let shifted_b = second_b.wrapping_mul(0x3196_42B2_D24D_8EC3);
    let first_a = shifted_a ^ (shifted_a >> 27) ^ (shifted_a >> 54);
    let first_b = shifted_b ^ (shifted_b >> 27) ^ (shifted_b >> 54);
    let start_a = first_a.wrapping_mul(0x96DE_1B17_3F11_9089);
    let start_b = first_b.wrapping_mul(0x96DE_1B17_3F11_9089);
    assert(start_a ^ (start_a >> 30) ^ (start_a >> 60) == start_b ^ (start_b >> 30) ^ (start_b >> 60)
        ==> start_a == start_b) by (bit_vector);
    lemma_mul_injective(first_a, first_b, 0x96DE_1B17_3F11_9089, MIX_FIRST);
    assert(shifted_a ^ (shifted_a >> 27) ^ (shifted_a >> 54) == shifted_b ^ (shifted_b >> 27) ^ (
    shifted_b >> 54) ==> shifted_a == shifted_b) by (bit_vector);
    lemma_mul_injective(second_a, second_b, 0x3196_42B2_D24D_8EC3, MIX_SECOND);
    assert(a ^ (a >> 31) ^ (a >> 62) == b ^ (b >> 31) ^ (b >> 62) ==> a == b) by (bit_vector);
}

/// Output number `n`, counted from zero, of the generator started at `state`:
/// every output is taken from where the one before it left the generator.
pub open spec fn stream(state: u64, n: nat) -> u64
    decreases n,
{
    let next = state.wrapping_add(0x9E37_79B9_7F4A_7C15);
    if n == 0 {
        mix(next)
    } else {
        stream(next, (n - 1) as nat)
    }
}

/// The word drawn for `index` is read off by undoing the finalizer: it comes
/// from the seed, with the index as a golden-gamma stride in it, moved on by two
/// rounds.
pub proof fn words_lead_back_to_seed_and_index(seed: u64, index: u64)
    ensures
        unmixed(word(seed, index)) == (seed ^ index.wrapping_mul(
            0x9E37_79B9_7F4A_7C15,
        )).wrapping_add(0x3C6E_F372_FE94_F82A),
{
    lemma_unmixed_after_mix(
        start_state(seed, index).wrapping_add(GOLDEN_GAMMA).wrapping_add(GOLDEN_GAMMA),
    );
}

/// The first index draws the second output of the generator started at the
/// seed.
pub proof fn first_index_draws_the_second_output(seed: u64)
    ensures
        word(seed, 0) == stream(seed, 1),
{
    assert(seed ^ 0 == seed) by (bit_vector);
    reveal_with_fuel(stream, 2);
}

/// An index acts as a golden-gamma stride of the seed and in no other way.
pub proof fn indices_stride_the_seed(seed: u64, index: u64)
    ensures
        word(seed, index) == word(seed ^ index.wrapping_mul(0x9E37_79B9_7F4A_7C15), 0),
{
    let state = seed ^ index.wrapping_mul(GOLDEN_GAMMA);
    assert(state ^ 0 == state) by (bit_vector);
}

/// With seed zero, each index draws one output further along the generator's
/// stream from zero.
pub proof fn seed_zero_walks_the_stream(index: u64)
    ensures
        word(0, index) == stream(0, index as nat + 1),
{
    let stride = index.wrapping_mul(GOLDEN_GAMMA);
    assert(0u64 ^ stride == stride) by (bit_vector);
    lemma_stream_position(0, index as nat + 1);
    let range = 0x1_0000_0000_0000_0000int;
    let gamma = GOLDEN_GAMMA as int;
    assert((index as int + 2) * gamma == index as int * gamma + 2 * gamma) by (nonlinear_arith);
    lemma_add_mod_noop(index as int * gamma, 2 * gamma, range);
    lemma_add_mod_noop(stride as int, 2 * gamma, range);
}

/// Every output is the finalizer of a state that as many golden gammas lead to.
proof fn lemma_stream_position(state: u64, n: nat)
    ensures
        stream(state, n) == mix(
            ((state + (n + 1) * GOLDEN_GAMMA as int) % 0x1_0000_0000_0000_0000) as u64,
        ),
    decreases n,
{
    let range = 0x1_0000_0000_0000_0000int;
    let gamma = GOLDEN_GAMMA as int;
    let next = state.wrapping_add(GOLDEN_GAMMA);
    if n > 0 {
        lemma_stream_position(next, (n - 1) as nat);
        assert((n + 1) * gamma == n * gamma + gamma) by (nonlinear_arith);
        lemma_add_mod_noop(next as int, n * gamma, range);
        lemma_add_mod_noop(state + gamma, n * gamma, range);
    }
}

} // verus!
