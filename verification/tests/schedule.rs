//! Schedule determinism and builder semantics.

use chaos_kit::{
    ChaosError, ChaosSchedule, ChaosStore, Direction, Fault, FaultKind, Rate, DRAW_SCALE,
};
use std::time::Duration;

fn rate(value: f64) -> Rate {
    Rate::from_bits(value.to_bits())
}

/// The draw as the probability it stands for.
fn probability(draw: u64) -> f64 {
    draw as f64 * (1.0 / (1_u64 << 53) as f64)
}

fn latency(ms: u64) -> Fault {
    Fault::Latency(Duration::from_millis(ms))
}

fn timeout() -> Fault {
    Fault::Error(ChaosError::Timeout)
}

fn seeded(seed: u64) -> ChaosSchedule {
    ChaosSchedule::seeded(seed, &mut ChaosStore::new())
}

#[test]
fn draw_is_splitmix64_of_seeded_state() {
    let schedule = seeded(0);
    assert_eq!(
        probability(schedule.draw(0)),
        0.4315_2799_7048_5099_7
    );
    assert_eq!(schedule.draw(0), 0x6E78_9E6A_A1B9_65F4 >> 11);
}

#[test]
fn same_seed_reproduces_the_fault_sequence_over_1000_indices() {
    let build = || {
        seeded(1234)
            .fault_at(7, timeout())
            .fault_every(3, latency(10))
            .window(900, 999, Fault::Throttle { rate: rate(0.5) })
    };
    let a = build();
    let b = build();

    assert_eq!(a.seed(), b.seed());
    for index in 0..1000 {
        assert_eq!(a.fault_for(index), b.fault_for(index), "index {index}");
        assert_eq!(a.fault_for(index), a.fault_for(index), "index {index}");
    }
}

#[test]
fn same_seed_reproduces_throttle_decisions_over_1000_indices() {
    let a = seeded(0xFEED);
    let b = seeded(0xFEED);

    for index in 0..1000 {
        assert_eq!(a.draw(index), b.draw(index), "index {index}");
        assert_eq!(
            a.drops(index, rate(0.5)),
            b.drops(index, rate(0.5)),
            "index {index}"
        );
    }
}

#[test]
fn different_seed_diverges_within_100_indices() {
    let a = seeded(1);
    let b = seeded(2);

    assert_ne!(a.seed(), b.seed());
    let diverged = (0..100).any(|index| a.drops(index, rate(0.5)) != b.drops(index, rate(0.5)));
    assert!(diverged, "seeds 1 and 2 agreed on every drop in 0..100");
}

#[test]
fn fault_at_fires_exactly_once() {
    let schedule = seeded(9).fault_at(5, timeout());

    assert_eq!(schedule.fault_for(4), None);
    assert_eq!(schedule.fault_for(5), Some(&timeout()));
    assert_eq!(schedule.fault_for(6), None);
}

#[test]
fn fault_every_fires_on_multiples_and_never_at_a_zero_period() {
    let schedule = seeded(9).fault_every(4, latency(1));

    assert_eq!(schedule.fault_for(0), Some(&latency(1)));
    assert_eq!(schedule.fault_for(3), None);
    assert_eq!(schedule.fault_for(4), Some(&latency(1)));
    assert_eq!(schedule.fault_for(8), Some(&latency(1)));

    let zero = seeded(9).fault_every(0, timeout());
    for index in [0, 1, 7, 1_000_000] {
        assert_eq!(zero.fault_for(index), None, "index {index}");
    }
}

#[test]
fn window_is_inclusive_and_empty_when_reversed() {
    let schedule = seeded(9).window(10, 12, timeout());

    assert_eq!(schedule.fault_for(9), None);
    assert_eq!(schedule.fault_for(10), Some(&timeout()));
    assert_eq!(schedule.fault_for(11), Some(&timeout()));
    assert_eq!(schedule.fault_for(12), Some(&timeout()));
    assert_eq!(schedule.fault_for(13), None);

    let reversed = seeded(9).window(12, 10, timeout());
    assert_eq!(reversed.fault_for(11), None);
    assert_eq!(reversed.fault_for(12), None);
}

#[test]
fn later_rules_override_earlier_ones() {
    let schedule = seeded(9)
        .fault_every(2, latency(1))
        .fault_at(4, timeout());

    // Index 4 matches both rules; the later one wins.
    assert_eq!(schedule.fault_for(4), Some(&timeout()));
    assert_eq!(schedule.fault_for(2), Some(&latency(1)));
    assert_eq!(schedule.rule_for(4), Some(1));
    assert_eq!(schedule.rule_for(2), Some(0));
    assert_eq!(schedule.rule_for(3), None);
}

#[test]
fn draws_stay_in_the_unit_interval() {
    for seed in [0_u64, 1, 42, u64::MAX] {
        let schedule = seeded(seed);
        for index in 0..1000 {
            assert!(schedule.draw(index) < DRAW_SCALE);
            let draw = probability(schedule.draw(index));
            assert!(
                (0.0..1.0).contains(&draw),
                "seed {seed} index {index} drew {draw}"
            );
        }
    }
}

#[test]
fn throttle_rates_saturate_outside_the_unit_interval() {
    let schedule = seeded(5).fault_every(1, Fault::Throttle { rate: rate(0.5) });

    assert!((0..1000).all(|index| schedule.drops(index, rate(2.0))));
    assert!((0..1000).all(|index| !schedule.drops(index, rate(-1.0))));
    assert!((0..1000).all(|index| !schedule.drops(index, rate(0.0))));
    assert!((0..1000).all(|index| schedule.drops(index, rate(1.0))));
    assert!((0..1000).all(|index| schedule.drops(index, rate(f64::INFINITY))));
    assert!((0..1000).all(|index| !schedule.drops(index, rate(f64::NEG_INFINITY))));
    assert!((0..1000).all(|index| !schedule.drops(index, rate(f64::NAN))));
    assert!((0..1000).all(|index| !schedule.drops(index, rate(-0.0))));
}

#[test]
fn empty_schedule_is_clean_everywhere() {
    let mut store = ChaosStore::new();
    let schedule = ChaosSchedule::seeded(u64::MAX, &mut store);
    for index in [0, 1, 1_000, u64::MAX] {
        assert_eq!(schedule.fault_for(index), None);
    }
    assert_eq!(schedule.recorder(&store).total(), 0);
}

#[test]
fn cloned_schedules_share_the_recorder() {
    let mut store = ChaosStore::new();
    let original = ChaosSchedule::seeded(3, &mut store);
    let clone = original.clone();
    clone.recorder_mut(&mut store).record(FaultKind::Partition);

    assert_eq!(
        original.recorder(&store).injected(FaultKind::Partition),
        1
    );
}

#[test]
fn partition_faults_carry_direction_metadata() {
    let ingress = Fault::Partition {
        direction: Direction::Ingress,
        for_duration: Duration::from_secs(30),
    };
    let egress = Fault::Partition {
        direction: Direction::Egress,
        for_duration: Duration::from_secs(30),
    };

    assert_ne!(ingress, egress);
    assert_eq!(ingress.kind(), egress.kind());

    let schedule = seeded(1).fault_at(0, ingress.clone());
    assert_eq!(schedule.fault_for(0), Some(&ingress));
}

/// The schedule that the crate's front page shows.
#[test]
fn front_page_example_holds() {
    let schedule = seeded(0xC0FFEE)
        .fault_at(2, latency(500))
        .window(
            10,
            20,
            Fault::Partition {
                direction: Direction::Egress,
                for_duration: Duration::from_secs(30),
            },
        )
        .fault_every(5, timeout());
    assert_eq!(schedule.fault_for(2), Some(&latency(500)));
    assert_eq!(schedule.fault_for(5), Some(&timeout()));
    assert_eq!(schedule.fault_for(6), None);
    assert_eq!(schedule.fault_for(10), Some(&timeout()));
    assert!(matches!(
        schedule.fault_for(11),
        Some(&Fault::Partition {
            direction: Direction::Egress,
            ..
        })
    ));
    assert_eq!(schedule.draw(42), schedule.draw(42));
}

#[test]
fn rules_added_to_a_clone_leave_the_original_alone() {
    let mut store = ChaosStore::new();
    let original = ChaosSchedule::seeded(3, &mut store).fault_at(1, latency(1));
    let extended = original.clone().fault_at(0, timeout());

    assert_eq!(original.fault_for(0), None);
    assert_eq!(extended.fault_for(0), Some(&timeout()));
    assert_eq!(extended.fault_for(1), Some(&latency(1)));

    // The recorder is still one.
    extended.record(FaultKind::Error, &mut store);
    assert_eq!(original.recorder(&store).injected(FaultKind::Error), 1);
}

/// Throttle decisions are exactly the comparison of the draw with the rate.
#[test]
fn drops_agree_with_the_draw_for_any_rate() {
    let mut rates = vec![
        0.0,
        -0.0,
        1.0,
        f64::MIN_POSITIVE,
        f64::from_bits(1),
        f64::EPSILON,
        1.0 - f64::EPSILON / 2.0,
        1.0 + f64::EPSILON,
        f64::MAX,
        f64::MIN,
        f64::INFINITY,
        f64::NEG_INFINITY,
        f64::NAN,
    ];
    for percent in 0..=100_u32 {
        rates.push(f64::from(percent) / 100.0);
    }
    for seed in [0_u64, 7, 0xFEED, u64::MAX] {
        let schedule = seeded(seed);
        for index in (0..200).chain([u64::MAX - 1, u64::MAX]) {
            let draw = probability(schedule.draw(index));
            // Rates right at the draw, and a step to either side of it.
            let near = [
                draw,
                f64::from_bits(draw.to_bits() + 1),
                f64::from_bits(draw.to_bits() - 1),
            ];
            for value in rates.iter().copied().chain(near) {
                assert_eq!(
                    schedule.drops(index, rate(value)),
                    draw < value,
                    "seed {seed} index {index} rate {value}"
                );
            }
        }
    }
}

#[test]
fn distinct_seeds_and_distinct_indices_draw_distinct_numbers() {
    let mut drawn: Vec<u64> = Vec::new();
    for seed in 0..30 {
        drawn.push(seeded(seed).draw(0));
    }
    for index in 1..30 {
        drawn.push(seeded(0).draw(index));
    }
    let count = drawn.len();
    drawn.sort_unstable();
    drawn.dedup();
    assert_eq!(drawn.len(), count);
}

#[test]
fn higher_rates_drop_no_less() {
    let schedule = seeded(11);
    for index in 0..1000 {
        for percent in 0..100_u32 {
            let low = rate(f64::from(percent) / 100.0);
            let high = rate(f64::from(percent + 1) / 100.0);
            assert!(!schedule.drops(index, low) || schedule.drops(index, high));
        }
    }
}
