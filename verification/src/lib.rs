//! A scripted stand-in for a byte-stream transport, for tests of
//! asynchronous code.
//!
//! A test holds a [`Handle`] and queues the reads, writes and errors it
//! expects; the code under test drives the paired [`Mock`] as it would a
//! socket; the test then reads back, as [`Event`]s, what took place.
pub mod buffer;
pub mod channel;
pub mod engine;
pub mod fault;
pub mod handle;
pub mod matcher;
pub mod operation;
pub mod order;
pub mod script;

pub use channel::Delivery;
pub use engine::{mock, Mock};
pub use fault::{Fault, FaultView, Violation, ViolationView};
pub use handle::Handle;
pub use matcher::{Matching, MatchingView, Verdict, VerdictView};
pub use operation::Progress;
pub use script::{Action, ActionView, Direction, Event, Payload, PayloadView};
