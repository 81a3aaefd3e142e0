//! Publish/subscribe dispatch over a single first-in, first-out job queue.
//!
//! A [`Publisher`] keeps, for every [`Event`], the subscribers registered for
//! it in the order of their registration. Publishing an event runs no
//! subscriber: it puts one [`Job`] per subscriber on the publisher's
//! [`MessageBus`], and a single worker takes the jobs off the bus one at a
//! time, in the order in which they were put there.

pub mod event;
pub mod message_bus;
pub mod publisher;

pub use event::Event;
pub use message_bus::{BusOp, BusState, MessageBus, SubmissionAfterShutdown, WorkerStep};
pub use publisher::{Job, Publisher, PublisherState};
