//! The fault model: what chaos can be injected, and the errors it produces.

use crate::rate::Rate;
use std::borrow::Cow;
use std::time::Duration;
use vstd::prelude::*;

verus! {

/// Which side of a service boundary a [`Fault::Partition`] severs.
///
/// Both directions cut the call before the wrapped service is reached; the
/// direction says which failure is being modelled.
#[derive(Debug, Clone, Copy, PartialEq, Eq, Hash, Structural)]
pub enum Direction {
    /// Requests cannot reach the wrapped service.
    Ingress,
    /// Responses cannot leave the call path.
    Egress,
}

/// The error injected in place of a real response.
#[derive(Debug, PartialEq, Eq)]
pub enum ChaosError {
    /// A modelled dependency outage.
    Unavailable,
    /// A modelled timeout.
    Timeout,
    /// A free-form scripted failure message.
    Custom(Cow<'static, str>),
}

impl Clone for ChaosError {
    fn clone(&self) -> (copy: Self)
        ensures
            copy == *self,
    {
        match self {
            ChaosError::Unavailable => ChaosError::Unavailable,
            ChaosError::Timeout => ChaosError::Timeout,
            ChaosError::Custom(Cow::Borrowed(message)) => ChaosError::Custom(
                Cow::Borrowed(*message),
            ),
            ChaosError::Custom(Cow::Owned(message)) => ChaosError::Custom(
                Cow::Owned(message.clone()),
            ),
        }
    }
}

impl ChaosError {
    /// What the error reads as.
    pub open spec fn text(self) -> Seq<char> {
        match self {
            ChaosError::Unavailable => "chaos: dependency unavailable"@,
            ChaosError::Timeout => "chaos: dependency timed out"@,
            ChaosError::Custom(message) => "chaos: "@ + message@,
        }
    }

    /// The error as readable text: a fixed sentence for the modelled
    /// failures, the scripted message after `chaos: ` for a custom one.
    pub fn to_string(&self) -> (text: String)
        ensures
            text@ == self.text(),
    {
        match self {
            ChaosError::Unavailable => "chaos: dependency unavailable".to_owned(),
            ChaosError::Timeout => "chaos: dependency timed out".to_owned(),
            ChaosError::Custom(Cow::Borrowed(message)) => "chaos: ".to_owned().concat(message),
            ChaosError::Custom(Cow::Owned(message)) => "chaos: ".to_owned().concat(
                message.as_str(),
            ),
        }
    }
}

/// The kind of a [`Fault`], without its payload.
#[derive(Debug, Clone, Copy, PartialEq, Eq, Hash, Structural)]
pub enum FaultKind {
    /// See [`Fault::Latency`].
    Latency,
    /// See [`Fault::Error`].
    Error,
    /// See [`Fault::Partition`].
    Partition,
    /// See [`Fault::Throttle`].
    Throttle,
    /// See [`Fault::Cpu`].
    Cpu,
}

/// A single fault that a schedule can inject.
#[derive(Debug, PartialEq)]
pub enum Fault {
    /// Delay the call, then forward it.
    Latency(Duration),
    /// Answer with this error; the wrapped service is not called.
    Error(ChaosError),
    /// Sever the call with [`ChaosError::Unavailable`]; the wrapped service is
    /// not called.
    Partition {
        /// Which side of the boundary is severed.
        direction: Direction,
        /// The outage length that is being modelled. Injection goes by call
        /// index alone and does not consult it.
        for_duration: Duration,
    },
    /// Drop the call with [`ChaosError::Unavailable`] when its seeded draw
    /// from `[0, 1)` is less than `rate`; forward it otherwise. A rate of one
    /// or more drops every call, a rate of zero or less drops none.
    Throttle {
        /// The fraction of calls to drop.
        rate: Rate,
    },
    /// Busy-spin one core for this long, then forward.
    Cpu(Duration),
}

impl Clone for Fault {
    fn clone(&self) -> (copy: Self)
        ensures
            copy == *self,
    {
        match self {
            Fault::Latency(delay) => Fault::Latency(*delay),
            Fault::Error(error) => Fault::Error(error.clone()),
            Fault::Partition { direction, for_duration } => Fault::Partition {
                direction: *direction,
                for_duration: *for_duration,
            },
            Fault::Throttle { rate } => Fault::Throttle { rate: *rate },
            Fault::Cpu(duration) => Fault::Cpu(*duration),
        }
    }
}

impl Fault {
    /// The kind of a fault.
    pub open spec fn spec_kind(self) -> FaultKind {
        match self {
            Fault::Latency(_) => FaultKind::Latency,
            Fault::Error(_) => FaultKind::Error,
            Fault::Partition { .. } => FaultKind::Partition,
            Fault::Throttle { .. } => FaultKind::Throttle,
            Fault::Cpu(_) => FaultKind::Cpu,
        }
    }

    /// The [`FaultKind`] of this fault, for recorder lookups.
    pub fn kind(&self) -> (kind: FaultKind)
        ensures
            kind == self.spec_kind(),
    {
        match self {
            Fault::Latency(_) => FaultKind::Latency,
            Fault::Error(_) => FaultKind::Error,
            Fault::Partition { .. } => FaultKind::Partition,
            Fault::Throttle { .. } => FaultKind::Throttle,
            Fault::Cpu(_) => FaultKind::Cpu,
        }
    }
}

} // verus!
