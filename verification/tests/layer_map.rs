//! Every fault carried out through the error-mapping bridge.

use chaos_kit::{
    burn_cpu, chaos_layer, chaos_layer_map, BurnStep, CallAction, ChaosError, ChaosFuture,
    ChaosMapFuture, ChaosMapLayer, ChaosSchedule, ChaosStore, Direction, Fault, FaultKind,
    PausableClock, PollStep, Rate,
};
use std::cell::Cell;
use std::future::{poll_fn, Future};
use std::pin::Pin;
use std::task::{Context, Poll, Waker};
use std::time::Duration;
use tokio::time::Sleep;

fn rate(value: f64) -> Rate {
    Rate::from_bits(value.to_bits())
}

#[derive(Debug, PartialEq, Eq)]
struct HostError {
    chaos: ChaosError,
}

/// Inner service: the number of calls it has seen.
#[derive(Clone)]
struct Echo {
    calls: usize,
}

/// Keep a core busy for `duration`.
fn burn(duration: Duration) {
    let mut step = burn_cpu(duration.as_nanos(), None);
    if step == BurnStep::Done {
        return;
    }
    let start = std::time::Instant::now();
    while step != BurnStep::Done {
        step = burn_cpu(duration.as_nanos(), Some(start.elapsed().as_nanos()));
    }
}

/// Make one call, with sleeps that are over when they have been polled
/// `naps` times.
fn answer<F, E>(
    layer: &mut ChaosMapLayer<Echo, F>,
    store: &mut ChaosStore,
    naps: usize,
) -> Result<&'static str, E>
where
    F: Fn(ChaosError) -> Result<&'static str, E>,
{
    let action = layer.call(store);
    let forward = |echo: &mut Echo, _burnt: Option<()>| {
        echo.calls += 1;
        "ok"
    };
    let mut call: ChaosMapFuture<usize, _, &'static str, &'static str, E> = ChaosMapFuture::begin(
        action,
        layer.inner_mut(),
        |_delay| naps,
        burn,
        forward,
    );
    loop {
        match call.poll() {
            PollStep::Ready(given) => return given,
            PollStep::Inner(response) => return Ok(*response),
            PollStep::Sleep(left) => {
                let over = *left == 0;
                if !over {
                    *left -= 1;
                }
                match call.slept(over, forward) {
                    PollStep::Inner(response) => {
                        assert!(over);
                        return Ok(*response);
                    }
                    _ => assert!(!over),
                }
            }
            PollStep::Pending => panic!("pending for good"),
        }
    }
}

#[test]
fn map_error_fault_becomes_a_response() {
    let mut store = ChaosStore::new();
    let schedule = ChaosSchedule::seeded(7, &mut store)
        .fault_at(0, Fault::Error(ChaosError::Timeout))
        .fault_at(1, Fault::Error(ChaosError::Custom("scripted".into())));
    let probe = schedule.clone();

    let mut layer = chaos_layer_map(schedule, |error: ChaosError| {
        Ok::<_, ChaosError>(if matches!(error, ChaosError::Timeout) {
            "faulted: timeout"
        } else {
            "faulted: scripted"
        })
    })
    .layer(Echo { calls: 0 }, &mut store);

    assert_eq!(
        answer(&mut layer, &mut store, 0).unwrap(),
        "faulted: timeout"
    );
    assert_eq!(
        answer(&mut layer, &mut store, 0).unwrap(),
        "faulted: scripted"
    );
    assert_eq!(layer.inner_mut().calls, 0);
    assert_eq!(probe.recorder(&store).injected(FaultKind::Error), 2);
}

#[test]
fn map_partition_fault_calls_the_closure_with_unavailable() {
    let mut store = ChaosStore::new();
    let schedule = ChaosSchedule::seeded(7, &mut store).fault_at(
        1,
        Fault::Partition {
            direction: Direction::Egress,
            for_duration: Duration::from_secs(30),
        },
    );
    let probe = schedule.clone();

    let mut layer = chaos_layer_map(schedule, |error: ChaosError| {
        Ok::<_, ChaosError>(if matches!(error, ChaosError::Unavailable) {
            "partitioned"
        } else {
            "unexpected"
        })
    })
    .layer(Echo { calls: 0 }, &mut store);

    assert_eq!(answer(&mut layer, &mut store, 0).unwrap(), "ok");
    assert_eq!(answer(&mut layer, &mut store, 0).unwrap(), "partitioned");
    assert_eq!(layer.inner_mut().calls, 1);
    assert_eq!(probe.recorder(&store).injected(FaultKind::Partition), 1);
}

#[test]
fn map_latency_fault_waits_for_the_sleep() {
    let mut store = ChaosStore::new();
    let schedule = ChaosSchedule::seeded(7, &mut store)
        .fault_at(0, Fault::Latency(Duration::from_secs(1)));
    let probe = schedule.clone();

    let mut layer = chaos_layer_map(schedule, |_error: ChaosError| {
        Ok::<_, ChaosError>("faulted")
    })
    .layer(Echo { calls: 0 }, &mut store);

    assert_eq!(answer(&mut layer, &mut store, 5).unwrap(), "ok");
    assert_eq!(layer.inner_mut().calls, 1);
    assert_eq!(probe.recorder(&store).injected(FaultKind::Latency), 1);
}

#[test]
fn map_latency_fault_delays_forwarding_on_virtual_time() {
    let runtime = tokio::runtime::Builder::new_current_thread()
        .enable_time()
        .build()
        .unwrap();
    runtime.block_on(async {
        PausableClock::pause().unwrap();
        tokio::time::pause();
        let mut store = ChaosStore::new();
        let schedule = ChaosSchedule::seeded(7, &mut store)
            .fault_at(0, Fault::Latency(Duration::from_secs(1)));
        let probe = schedule.clone();
        let layer = chaos_layer_map(schedule, |_error: ChaosError| {
            Ok::<_, ChaosError>("faulted")
        })
        .layer(Echo { calls: 0 }, &mut store);

        let action = layer.call(&mut store);
        let calls = Cell::new(0);
        let forward = |(), _burnt: Option<()>| {
            calls.set(calls.get() + 1);
            "ok"
        };
        let mut call: ChaosMapFuture<Pin<Box<Sleep>>, (), &'static str, &'static str, ChaosError> =
            ChaosMapFuture::begin(
                action,
                (),
                |delay| Box::pin(tokio::time::sleep(delay)),
                burn,
                forward,
            );
        let mut poll = |cx: &mut Context<'_>| {
            let over = match call.poll() {
                PollStep::Sleep(sleep) => sleep.as_mut().poll(cx).is_ready(),
                other => panic!("unexpected {other:?}"),
            };
            match call.slept(over, forward) {
                PollStep::Inner(response) => Poll::Ready(*response),
                _ => Poll::Pending,
            }
        };

        let mut cx = Context::from_waker(Waker::noop());
        assert_eq!(calls.get(), 0, "forwarded when it was begun");
        assert!(poll(&mut cx).is_pending());
        assert_eq!(calls.get(), 0, "forwarded at the first poll");
        tokio::time::advance(Duration::from_millis(999)).await;
        assert!(poll(&mut cx).is_pending(), "latency fault resolved 1ms early");
        assert_eq!(calls.get(), 0, "forwarded before the sleep was over");
        tokio::time::advance(Duration::from_millis(101)).await;
        assert_eq!(poll_fn(poll).await, "ok");

        assert_eq!(calls.get(), 1);
        assert_eq!(probe.recorder(&store).injected(FaultKind::Latency), 1);
    });
}

#[test]
fn map_throttle_drops_are_seeded_and_exact() {
    let mut store = ChaosStore::new();
    let schedule = ChaosSchedule::seeded(0xFEED, &mut store)
        .fault_every(1, Fault::Throttle { rate: rate(0.3) });
    let probe = schedule.clone();

    let mut layer = chaos_layer_map(schedule, |_error: ChaosError| {
        Ok::<_, ChaosError>("throttled")
    })
    .layer(Echo { calls: 0 }, &mut store);

    for index in 0_u64..200 {
        let result = answer(&mut layer, &mut store, 0).unwrap();
        // The mapped outcome must be exactly the schedule's seeded draw.
        assert_eq!(
            result == "throttled",
            probe.drops(index, rate(0.3)),
            "index {index}"
        );
    }
}

#[test]
fn map_cpu_fault_burns_then_forwards() {
    let mut store = ChaosStore::new();
    let schedule = ChaosSchedule::seeded(7, &mut store)
        .fault_at(0, Fault::Cpu(Duration::from_nanos(1)))
        .fault_at(1, Fault::Cpu(Duration::ZERO));
    let probe = schedule.clone();

    let mut layer = chaos_layer_map(schedule, |_error: ChaosError| {
        Ok::<_, ChaosError>("faulted")
    })
    .layer(Echo { calls: 0 }, &mut store);

    assert_eq!(answer(&mut layer, &mut store, 0).unwrap(), "ok");
    assert_eq!(answer(&mut layer, &mut store, 0).unwrap(), "ok");
    assert_eq!(layer.inner_mut().calls, 2);
    assert_eq!(probe.recorder(&store).injected(FaultKind::Cpu), 2);
}

#[test]
fn zero_length_burns_are_done_before_the_clock_starts() {
    let mut store = ChaosStore::new();
    let schedule = ChaosSchedule::seeded(7, &mut store)
        .fault_at(0, Fault::Cpu(Duration::ZERO))
        .fault_at(1, Fault::Cpu(Duration::from_nanos(1)));
    let layer = chaos_layer_map(schedule, Err::<(), ChaosError>).layer((), &mut store);
    for steps in [
        vec![BurnStep::Done],
        vec![BurnStep::StartClock, BurnStep::Spin, BurnStep::Done],
    ] {
        let mut seen = Vec::new();
        let mut call: ChaosMapFuture<(), (), Vec<BurnStep>, (), ChaosError> = ChaosMapFuture::begin(
            layer.call(&mut store),
            (),
            |_delay| panic!("a burn does not sleep"),
            |duration| {
                seen.push(burn_cpu(duration.as_nanos(), None));
                for elapsed in 0..2 {
                    if *seen.last().unwrap() != BurnStep::Done {
                        seen.push(burn_cpu(duration.as_nanos(), Some(elapsed)));
                    }
                }
                seen
            },
            |(), burnt| burnt.unwrap(),
        );
        match call.poll() {
            PollStep::Inner(seen) => assert_eq!(*seen, steps),
            other => panic!("unexpected {other:?}"),
        }
    }
    assert_eq!(layer.recorder(&store).injected(FaultKind::Cpu), 2);
}

#[test]
fn mappings_may_take_errors_of_another_type() {
    let mut store = ChaosStore::new();
    let schedule = ChaosSchedule::seeded(7, &mut store)
        .fault_at(0, Fault::Error(ChaosError::Timeout))
        .fault_at(1, Fault::Latency(Duration::from_secs(2)));
    let layer = chaos_layer_map(schedule, |error: HostError| Err::<(), _>((error, "mapped")))
        .layer((), &mut store);

    let fate = layer.next_call(&mut store);
    match layer.resolve_as(fate, |error| HostError { chaos: error }) {
        CallAction::Answer(answer) => assert_eq!(
            answer,
            Err((
                HostError {
                    chaos: ChaosError::Timeout
                },
                "mapped"
            ))
        ),
        other => panic!("unexpected {other:?}"),
    }
    let fate = layer.next_call(&mut store);
    match layer.resolve_as(fate, |error| HostError { chaos: error }) {
        CallAction::Delay(delay) => assert_eq!(delay, Duration::from_secs(2)),
        other => panic!("unexpected {other:?}"),
    }
    let fate = layer.next_call(&mut store);
    assert!(matches!(
        layer.resolve_as(fate, |error| HostError { chaos: error }),
        CallAction::Forward
    ));
}

#[test]
fn map_err_side_propagates_the_host_error() {
    let mut store = ChaosStore::new();
    let schedule =
        ChaosSchedule::seeded(7, &mut store).fault_at(0, Fault::Error(ChaosError::Timeout));

    let mut layer = chaos_layer_map(schedule, |error: ChaosError| {
        Err::<&'static str, _>(HostError { chaos: error })
    })
    .layer(Echo { calls: 0 }, &mut store);

    let err = answer(&mut layer, &mut store, 0).expect_err("mapped");
    assert_eq!(
        err,
        HostError {
            chaos: ChaosError::Timeout
        }
    );
    assert_eq!(layer.inner_mut().calls, 0);
}

#[test]
fn map_clean_calls_forward_untouched_through_fallible_inner() {
    let mut store = ChaosStore::new();
    let schedule =
        ChaosSchedule::seeded(7, &mut store).fault_at(1, Fault::Error(ChaosError::Timeout));

    let mut layer = chaos_layer_map(schedule, |error: ChaosError| {
        Err::<&'static str, _>(HostError { chaos: error })
    })
    .layer(Echo { calls: 0 }, &mut store);

    assert_eq!(answer(&mut layer, &mut store, 0).unwrap(), "ok");
    assert_eq!(
        answer(&mut layer, &mut store, 0).unwrap_err().chaos,
        ChaosError::Timeout
    );
    assert_eq!(layer.inner_mut().calls, 1);
}

#[test]
fn cloned_map_layers_share_the_call_counter() {
    let mut store = ChaosStore::new();
    let schedule =
        ChaosSchedule::seeded(7, &mut store).fault_at(0, Fault::Error(ChaosError::Timeout));
    let make = chaos_layer_map(schedule, |error: ChaosError| {
        Ok::<_, ChaosError>(if matches!(error, ChaosError::Timeout) {
            "timeout"
        } else {
            "faulted"
        })
    });

    let mut a = make.layer(Echo { calls: 0 }, &mut store);
    let mut b = a.clone();
    let mut fresh = make.clone().layer(Echo { calls: 0 }, &mut store);

    // Index 0 faults through the first clone...
    assert_eq!(answer(&mut a, &mut store, 0).unwrap(), "timeout");
    // ...index 1 is clean through the second (shared counter).
    assert_eq!(answer(&mut b, &mut store, 0).unwrap(), "ok");
    // A layer made anew starts at zero.
    assert_eq!(answer(&mut fresh, &mut store, 0).unwrap(), "timeout");
}

#[test]
fn map_layer_accessors_show_the_schedule() {
    let mut store = ChaosStore::new();
    let schedule = ChaosSchedule::seeded(0xABCD, &mut store);
    let layer = chaos_layer_map(schedule, |_error: ChaosError| {
        Ok::<_, ChaosError>("faulted")
    })
    .layer(Echo { calls: 0 }, &mut store);
    assert_eq!(layer.schedule().seed(), 0xABCD);
    assert_eq!(layer.recorder(&store).total(), 0);
}

#[test]
fn both_bridges_decide_alike() {
    let mut store = ChaosStore::new();
    let schedule = ChaosSchedule::seeded(21, &mut store)
        .fault_every(3, Fault::Throttle { rate: rate(0.5) })
        .fault_every(5, Fault::Latency(Duration::from_millis(2)))
        .fault_at(7, Fault::Error(ChaosError::Timeout))
        .fault_at(8, Fault::Cpu(Duration::from_nanos(3)));
    let plain = chaos_layer(schedule.clone()).layer((), &mut store);
    let mapped = chaos_layer_map(schedule, Err::<(), ChaosError>).layer((), &mut store);
    for _ in 0..200 {
        let mapped_action = match mapped.call(&mut store) {
            CallAction::Answer(Err(error)) => CallAction::Answer(error),
            CallAction::Answer(Ok(())) => panic!("the mapping never responds"),
            CallAction::Forward => CallAction::Forward,
            CallAction::Delay(delay) => CallAction::Delay(delay),
            CallAction::Burn(duration) => CallAction::Burn(duration),
        };
        let plain_action: CallAction<ChaosError> = plain.call(&mut store);
        assert_eq!(format!("{plain_action:?}"), format!("{mapped_action:?}"));
    }
}

#[test]
fn futures_made_faulted_stay_pending_after_readiness() {
    let mut plain: ChaosFuture<(), (), u16, ChaosError> = ChaosFuture::faulted(ChaosError::Timeout);
    assert!(matches!(
        plain.poll::<()>(),
        PollStep::Ready(Err(ChaosError::Timeout))
    ));
    assert!(matches!(plain.poll::<()>(), PollStep::Pending));
    assert!(matches!(plain.poll::<()>(), PollStep::Pending));

    let mut mapped: ChaosMapFuture<(), (), u16, &'static str, ChaosError> =
        ChaosMapFuture::faulted(Ok("folded"));
    assert!(matches!(mapped.poll(), PollStep::Ready(Ok("folded"))));
    assert!(matches!(mapped.poll(), PollStep::Pending));
    assert!(matches!(mapped.poll(), PollStep::Pending));
}

#[test]
fn faulted_futures_stay_pending_after_readiness() {
    let mut store = ChaosStore::new();
    let schedule =
        ChaosSchedule::seeded(7, &mut store).fault_at(0, Fault::Error(ChaosError::Timeout));
    let mut plain = chaos_layer(schedule).layer(Echo { calls: 0 }, &mut store);
    let schedule =
        ChaosSchedule::seeded(7, &mut store).fault_at(0, Fault::Error(ChaosError::Timeout));
    let mut mapped = chaos_layer_map(schedule, |error: ChaosError| {
        Err::<&'static str, _>(ChaosError::Custom(error.to_string().into()))
    })
    .layer(Echo { calls: 0 }, &mut store);

    let action = plain.call::<ChaosError>(&mut store);
    let mut plain_call: ChaosFuture<(), _, &'static str, ChaosError> = ChaosFuture::begin(
        action,
        plain.inner_mut(),
        |_delay| (),
        burn,
        |_echo: &mut Echo, _burnt| "ok",
    );
    assert!(matches!(
        plain_call.poll::<&'static str>(),
        PollStep::Ready(Err(ChaosError::Timeout))
    ));
    assert!(matches!(
        plain_call.poll::<&'static str>(),
        PollStep::Pending
    ));

    let action = mapped.call(&mut store);
    let mut mapped_call: ChaosMapFuture<(), _, &'static str, &'static str, ChaosError> =
        ChaosMapFuture::begin(
            action,
            mapped.inner_mut(),
            |_delay| (),
            burn,
            |_echo: &mut Echo, _burnt| "ok",
        );
    match mapped_call.poll() {
        PollStep::Ready(Err(error)) => assert_eq!(
            error,
            ChaosError::Custom(ChaosError::Timeout.to_string().into())
        ),
        other => panic!("unexpected {other:?}"),
    }
    assert!(matches!(mapped_call.poll(), PollStep::Pending));
}

#[test]
fn futures_poll_what_they_were_made_of() {
    let forward = |call: u8, _burnt: Option<()>| u16::from(call) + 1;
    let mut plain: ChaosFuture<u8, u8, u16, ChaosError> = ChaosFuture::passthrough(5);
    assert!(matches!(plain.poll::<()>(), PollStep::Inner(5)));
    assert!(matches!(plain.poll::<()>(), PollStep::Inner(5)));

    let mut delayed: ChaosFuture<u8, u8, u16, ChaosError> = ChaosFuture::delayed(1, 7);
    assert!(matches!(delayed.poll::<()>(), PollStep::Sleep(1)));
    assert!(matches!(
        delayed.slept::<(), _, _>(false, forward),
        PollStep::Pending
    ));
    assert!(matches!(delayed.poll::<()>(), PollStep::Sleep(1)));
    assert!(matches!(
        delayed.slept::<(), _, _>(true, forward),
        PollStep::Inner(8)
    ));
    assert!(matches!(delayed.poll::<()>(), PollStep::Inner(8)));

    let mut mapped: ChaosMapFuture<u8, u8, u16, (), ChaosError> = ChaosMapFuture::passthrough(5);
    assert!(matches!(mapped.poll(), PollStep::Inner(5)));

    let mut napping: ChaosMapFuture<u8, u8, u16, (), ChaosError> = ChaosMapFuture::delayed(1, 7);
    assert!(matches!(napping.poll(), PollStep::Sleep(1)));
    assert!(matches!(napping.slept(false, forward), PollStep::Pending));
    assert!(matches!(napping.slept(true, forward), PollStep::Inner(8)));
    assert!(matches!(napping.poll(), PollStep::Inner(8)));

    // What is not asleep, and the sleep itself, are not touched by a conversion.
    let mut kept: ChaosMapFuture<u8, u8, u16, (), ChaosError> =
        ChaosMapFuture::delayed(1, "seven").map_call(|call: &str| call.len() as u8);
    assert!(matches!(kept.poll(), PollStep::Sleep(1)));
    assert!(matches!(kept.slept(true, forward), PollStep::Inner(6)));
}
