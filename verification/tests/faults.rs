//! The fault model: kinds, error texts, equality and rates.

use chaos_kit::{splitmix64, ChaosError, Direction, Fault, FaultKind, Rate, DRAW_SCALE};
use std::time::Duration;

fn rate(value: f64) -> Rate {
    Rate::from_bits(value.to_bits())
}

#[test]
fn chaos_error_display_is_stable() {
    assert_eq!(
        ChaosError::Unavailable.to_string(),
        "chaos: dependency unavailable"
    );
    assert_eq!(
        ChaosError::Timeout.to_string(),
        "chaos: dependency timed out"
    );
    assert_eq!(
        ChaosError::Custom("partition".into()).to_string(),
        "chaos: partition"
    );
}

#[test]
fn owned_messages_read_like_borrowed_ones() {
    let owned = ChaosError::Custom(String::from("partition").into());
    assert_eq!(owned.to_string(), "chaos: partition");
    assert_eq!(owned, ChaosError::Custom("partition".into()));
    assert_eq!(owned.clone(), owned);
    assert_eq!(ChaosError::Custom("".into()).to_string(), "chaos: ");
}

#[test]
fn splitmix64_matches_reference_stream() {
    let mut state = 0_u64;
    assert_eq!(splitmix64(&mut state), 0xE220_A839_7B1D_CDAF);
    assert_eq!(splitmix64(&mut state), 0x6E78_9E6A_A1B9_65F4);
    assert_eq!(splitmix64(&mut state), 0x06C4_5D18_8009_454F);
}

#[test]
fn fault_kind_maps_every_variant() {
    let faults = [
        Fault::Latency(Duration::from_millis(1)),
        Fault::Error(ChaosError::Custom("boom".into())),
        Fault::Partition {
            direction: Direction::Ingress,
            for_duration: Duration::from_secs(1),
        },
        Fault::Throttle { rate: rate(0.5) },
        Fault::Cpu(Duration::from_nanos(1)),
    ];
    let kinds = [
        FaultKind::Latency,
        FaultKind::Error,
        FaultKind::Partition,
        FaultKind::Throttle,
        FaultKind::Cpu,
    ];
    for (fault, kind) in faults.iter().zip(kinds) {
        assert_eq!(fault.kind(), kind);
        assert_eq!(fault.clone(), *fault);
    }
}

#[test]
fn rates_compare_as_the_values_they_hold() {
    let values = [
        0.0,
        -0.0,
        0.5,
        -0.5,
        1.0,
        f64::from_bits(1),
        f64::MAX,
        f64::INFINITY,
        f64::NEG_INFINITY,
        f64::NAN,
    ];
    for a in values {
        assert_eq!(rate(a).to_bits(), a.to_bits());
        for b in values {
            assert_eq!(rate(a) == rate(b), a == b, "{a} against {b}");
        }
    }
}

#[test]
fn rates_are_compared_with_draws_exactly() {
    // Half: everything below the middle draw.
    assert!(rate(0.5).exceeds(DRAW_SCALE / 2 - 1));
    assert!(!rate(0.5).exceeds(DRAW_SCALE / 2));
    // One step of the draws.
    let step = 1.0 / DRAW_SCALE as f64;
    assert!(rate(step).exceeds(0));
    assert!(!rate(step).exceeds(1));
    // Half a step, and the smallest positive value, are above zero alone.
    assert!(rate(step / 2.0).exceeds(0));
    assert!(!rate(step / 2.0).exceeds(1));
    assert!(rate(f64::from_bits(1)).exceeds(0));
    assert!(!rate(f64::from_bits(1)).exceeds(1));
    // A step and a half lies between the first and the second draw.
    assert!(rate(step * 1.5).exceeds(1));
    assert!(!rate(step * 1.5).exceeds(2));
    assert!(rate(1.0).exceeds(DRAW_SCALE - 1));
}
