//! The outcome protocol between non-blocking state machines and the event
//! loop that drives them.

pub mod machine;
pub mod response;

pub use machine::{Creator, Machine};
pub use response::{decompose, decompose_with_report, MachineError, Report, Response, ResponseImpl, Time};
