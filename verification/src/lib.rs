//! Deterministic fault injection: latency, errors, partitions, throttling and
//! CPU starvation, scheduled as a pure function of a seed and a call index.
//! The same seed and the same call sequence give the same chaos.
//!
//! - [`schedule`] maps call indices to [`Fault`]s: explicit rules, the latest
//!   of which wins, and a seeded draw per index for throttling.
//! - [`layer`] numbers the calls of a wrapped service and decides what becomes
//!   of each; [`future`] says what one poll of such a call does.
//! - [`recorder`] counts what was injected, and [`store`] keeps the counters
//!   that clones share.
//! - [`clock`] gives leave to freeze tokio time; [`burn`] says how long a core
//!   is kept busy.
//! - [`laws`] states what holds of all of them together, and [`operations`] what
//!   each operation does to what it is called on.
//!
//! Carrying a decision out, that is calling the wrapped service, sleeping and
//! spinning, is left to the host.
//!
//! ```
//! use chaos_kit::{ChaosError, ChaosSchedule, ChaosStore, Fault};
//! use std::time::Duration;
//!
//! let mut store = ChaosStore::new();
//! let schedule = ChaosSchedule::seeded(0xC0FFEE, &mut store)
//!     .fault_at(2, Fault::Latency(Duration::from_millis(500)))
//!     .fault_every(5, Fault::Error(ChaosError::Timeout));
//!
//! assert_eq!(
//!     schedule.fault_for(2),
//!     Some(&Fault::Latency(Duration::from_millis(500)))
//! );
//! assert_eq!(schedule.fault_for(5), Some(&Fault::Error(ChaosError::Timeout)));
//! assert_eq!(schedule.fault_for(6), None);
//! ```

pub mod burn;
pub mod clock;
pub mod fault;
pub mod future;
pub mod laws;
pub mod layer;
pub mod operations;
pub mod rate;
pub mod recorder;
pub mod schedule;
pub mod splitmix;
pub mod store;

pub use burn::{burn_cpu, BurnStep};
pub use clock::{PausableClock, PauseRefusal, RuntimeFlavor};
pub use fault::{ChaosError, Direction, Fault, FaultKind};
pub use future::{ChaosFuture, ChaosMapFuture, Gate, PollStep};
pub use layer::{
    chaos_layer, chaos_layer_map, CallAction, ChaosLayer, ChaosMakeLayer, ChaosMakeMapLayer,
    ChaosMapLayer, LayerView,
};
pub use rate::{Rate, DRAW_SCALE};
pub use recorder::ChaosRecorder;
pub use schedule::{ChaosSchedule, Fate, Rule, ScheduleView};
pub use splitmix::{splitmix64, GOLDEN_GAMMA};
pub use store::{ChaosStore, CounterId, RecorderId, StoreView};
