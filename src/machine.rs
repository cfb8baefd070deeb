use vstd::prelude::*;
use crate::response::Response;

verus! {

/// A unit of non-blocking logic that the driver advances one trigger at a
/// time. Each entry point consumes the machine and returns the one outcome
/// that says what happens next.
pub trait Machine: Sized {
    /// The payload that this machine hands to the driver to spawn a sibling.
    type Creator: Creator<Machine = Self>;

    /// Registered readiness was reported.
    fn ready(self, events: mio::Interest) -> Response<Self, Self::Creator>;

    /// The machine was just registered after a spawn.
    fn spawned(self) -> Response<Self, Self::Creator>;

    /// The deadline that the machine set has passed.
    fn timeout(self) -> Response<Self, Self::Creator>;

    /// An out-of-band notification arrived.
    fn wakeup(self) -> Response<Self, Self::Creator>;
}

/// A light descriptor that the driver consumes once to build a new machine.
pub trait Creator: Sized {
    /// The machine that is built.
    type Machine;

    /// Why building can fail.
    type Error;

    fn create(self) -> Result<Self::Machine, Self::Error>;
}

} // verus!
