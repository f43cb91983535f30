# chaos-kit

Deterministic fault injection for tests: latency, errors, partitions,
throttling and CPU starvation, scheduled by call index and seed. The same seed
and the same call sequence give the same chaos.

- `src/` is the library, verified with Verus. It decides: which fault a call
  meets, what is counted, what one poll of a call does. Contracts fix the
  result; where tokio's runtime decides, they fix it for each answer that tokio
  can give. `src/laws.rs` states what holds across functions.
- `app/` carries the decisions out: handles that share one store between clones
  and threads, `tower` layers, and tokio's frozen clock.
- `tests/` runs the library, with real tokio timers where time matters.

## Points worth knowing

- Counters that clones share live in a `ChaosStore`, which is passed to whatever
  reads or moves them. A clone keeps the name of its slot and so shares it.
- Draws are exact: a draw is a 53-bit number standing for that many `2^53`ths,
  and a rate is a binary64 bit pattern (`Rate::from_bits(0.3_f64.to_bits())`).
  The two are compared without rounding.
- A throttle's rate is the fraction of calls to drop. One or more drops every
  call; zero or less, and `NaN`, drops none.
- A delayed call is forwarded when its sleep is over. The layers in `app/` move
  the ready service into such a call and leave a clone behind, so they need
  `S: Clone`; every other call uses the service in place.
- Leave to freeze time is given on a current-thread tokio runtime only.
