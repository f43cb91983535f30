//! The clock is given on a current-thread runtime only; burns last as long as
//! they are asked to.

use chaos_kit::{burn_cpu, BurnStep, PausableClock, PauseRefusal, RuntimeFlavor};

#[test]
fn pause_outside_any_runtime_is_refused() {
    let refusal = PausableClock::pause().unwrap_err();
    assert_eq!(refusal, PauseRefusal::NoRuntime);
    assert_eq!(
        refusal.message(),
        "chaos-kit: PausableClock::pause requires a tokio runtime with time enabled — \
         call it inside #[tokio::test] (current-thread), not from a plain #[test] \
         or a helper thread"
    );
}

#[test]
fn pause_on_a_multi_thread_runtime_is_refused() {
    let runtime = tokio::runtime::Builder::new_multi_thread()
        .worker_threads(1)
        .enable_time()
        .build()
        .unwrap();
    let refusal = runtime.block_on(async { PausableClock::pause() }).unwrap_err();
    assert_eq!(refusal, PauseRefusal::NotCurrentThread);
    assert_eq!(
        refusal.message(),
        "chaos-kit: tokio cannot freeze time on a multi-thread runtime — \
         use the default #[tokio::test] (current-thread), not \
         #[tokio::test(flavor = \"multi_thread\")]"
    );
}

#[test]
fn pause_on_a_current_thread_runtime_is_given() {
    let runtime = tokio::runtime::Builder::new_current_thread()
        .enable_time()
        .build()
        .unwrap();
    assert!(runtime.block_on(async { PausableClock::pause() }).is_ok());
}

#[test]
fn every_flavor_but_current_thread_is_refused() {
    assert!(PausableClock::pause_on(Some(RuntimeFlavor::CurrentThread)).is_ok());
    for (runtime, refusal) in [
        (None, PauseRefusal::NoRuntime),
        (
            Some(RuntimeFlavor::MultiThread),
            PauseRefusal::NotCurrentThread,
        ),
        (Some(RuntimeFlavor::Other), PauseRefusal::NotCurrentThread),
    ] {
        assert_eq!(PausableClock::pause_on(runtime).unwrap_err(), refusal);
    }
}

#[test]
fn burns_spin_until_their_duration_has_elapsed() {
    assert_eq!(burn_cpu(0, None), BurnStep::Done);
    assert_eq!(burn_cpu(0, Some(0)), BurnStep::Done);
    assert_eq!(burn_cpu(10, None), BurnStep::StartClock);
    assert_eq!(burn_cpu(10, Some(0)), BurnStep::Spin);
    assert_eq!(burn_cpu(10, Some(9)), BurnStep::Spin);
    assert_eq!(burn_cpu(10, Some(10)), BurnStep::Done);
    assert_eq!(burn_cpu(10, Some(11)), BurnStep::Done);
}
