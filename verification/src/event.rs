//! The identities under which events are published and subscribed to.

use vstd::prelude::*;

verus! {

/// The kind of an occurrence. Two events are equal exactly when they name the
/// same kind.
#[derive(Clone, Copy, Debug, PartialEq, Eq, Hash, Structural)]
pub enum Event {
    SomeEvent,
    AnotherEvent,
}

} // verus!
