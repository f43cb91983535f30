//! Recorder: exact per-kind counts, shared through schedule clones.

use chaos_kit::{ChaosRecorder, ChaosSchedule, ChaosStore, FaultKind};

const KINDS: [FaultKind; 5] = [
    FaultKind::Latency,
    FaultKind::Error,
    FaultKind::Partition,
    FaultKind::Throttle,
    FaultKind::Cpu,
];

#[test]
fn counters_round_trip() {
    let mut recorder = ChaosRecorder::new();
    assert_eq!(recorder.total(), 0);
    recorder.record(FaultKind::Cpu);
    recorder.record(FaultKind::Cpu);
    recorder.record(FaultKind::Partition);
    assert_eq!(recorder.injected(FaultKind::Cpu), 2);
    assert_eq!(recorder.injected(FaultKind::Partition), 1);
    assert_eq!(recorder.total(), 3);
    recorder.reset();
    assert_eq!(recorder.total(), 0);
}

#[test]
fn starts_at_zero() {
    let recorder = ChaosRecorder::new();
    for kind in KINDS {
        assert_eq!(recorder.injected(kind), 0, "{kind:?}");
    }
    assert_eq!(recorder.total(), 0);
}

#[test]
fn default_starts_at_zero() {
    let recorder = ChaosRecorder::default();
    for kind in KINDS {
        assert_eq!(recorder.injected(kind), 0, "{kind:?}");
    }
}

#[test]
fn counts_are_exact_per_kind() {
    let mut recorder = ChaosRecorder::new();

    for _ in 0..3 {
        recorder.record(FaultKind::Latency);
    }
    for _ in 0..7 {
        recorder.record(FaultKind::Error);
    }
    for _ in 0..2 {
        recorder.record(FaultKind::Partition);
    }
    for _ in 0..11 {
        recorder.record(FaultKind::Throttle);
    }
    recorder.record(FaultKind::Cpu);

    assert_eq!(recorder.injected(FaultKind::Latency), 3);
    assert_eq!(recorder.injected(FaultKind::Error), 7);
    assert_eq!(recorder.injected(FaultKind::Partition), 2);
    assert_eq!(recorder.injected(FaultKind::Throttle), 11);
    assert_eq!(recorder.injected(FaultKind::Cpu), 1);
    assert_eq!(recorder.total(), 3 + 7 + 2 + 11 + 1);
}

#[test]
fn reset_zeroes_everything() {
    let mut recorder = ChaosRecorder::new();
    recorder.record(FaultKind::Latency);
    recorder.record(FaultKind::Cpu);
    assert_eq!(recorder.total(), 2);

    recorder.reset();
    assert_eq!(recorder.total(), 0);
    assert_eq!(recorder.injected(FaultKind::Latency), 0);
    assert_eq!(recorder.injected(FaultKind::Cpu), 0);
}

#[test]
fn the_order_of_records_does_not_matter() {
    let mut forwards = ChaosRecorder::new();
    let mut backwards = ChaosRecorder::new();
    for kind in KINDS {
        forwards.record(kind);
        forwards.record(FaultKind::Error);
    }
    for kind in KINDS.into_iter().rev() {
        backwards.record(FaultKind::Error);
        backwards.record(kind);
    }
    for kind in KINDS {
        assert_eq!(forwards.injected(kind), backwards.injected(kind), "{kind:?}");
    }
    assert_eq!(forwards.injected(FaultKind::Error), 6);
}

#[test]
fn a_reset_is_seen_through_every_clone() {
    let mut store = ChaosStore::new();
    let schedule = ChaosSchedule::seeded(1, &mut store);
    let other = ChaosSchedule::seeded(2, &mut store);
    let probe = schedule.clone();
    schedule.record(FaultKind::Cpu, &mut store);
    other.record(FaultKind::Cpu, &mut store);
    probe.recorder_mut(&mut store).reset();
    assert_eq!(schedule.recorder(&store).total(), 0);
    assert_eq!(other.recorder(&store).total(), 1);
}

#[test]
fn interleaved_clones_count_into_one_recorder() {
    let mut store = ChaosStore::new();
    let schedule = ChaosSchedule::seeded(1, &mut store);
    let handles: Vec<ChaosSchedule> = (0..4).map(|_| schedule.clone()).collect();
    for _ in 0..250 {
        for handle in &handles {
            handle.record(FaultKind::Throttle, &mut store);
        }
    }
    assert_eq!(schedule.recorder(&store).injected(FaultKind::Throttle), 1000);
    assert_eq!(schedule.recorder(&store).total(), 1000);
}

/// Clones of a schedule count into one recorder, so a test can hold one end
/// while a layer drives the other.
#[test]
fn schedule_recorder_is_shared_with_clones() {
    let mut store = ChaosStore::new();
    let schedule = ChaosSchedule::seeded(1, &mut store);
    let probe = schedule.clone();

    probe.recorder_mut(&mut store).record(FaultKind::Error);
    schedule.recorder_mut(&mut store).record(FaultKind::Error);
    schedule.recorder_mut(&mut store).record(FaultKind::Error);

    assert_eq!(probe.recorder(&store).injected(FaultKind::Error), 3);
    assert_eq!(
        probe.recorder(&store).injected(FaultKind::Error),
        schedule.recorder(&store).injected(FaultKind::Error)
    );
    assert_eq!(
        ChaosSchedule::seeded(2, &mut store)
            .recorder(&store)
            .injected(FaultKind::Error),
        0
    );
}
