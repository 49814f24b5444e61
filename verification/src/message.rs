//! The capability contract a type must satisfy to travel through the bus.

use vstd::prelude::*;

verus! {

/// Capabilities required of every message type: a published value must be
/// duplicable so that each subscriber gets its own copy (`Clone`), and it must
/// be transferable across concurrently executing contexts without
/// thread-confinement constraints (`Send + Sync + 'static`). Inspectability
/// for diagnostics is carried by a `Debug` derive on each concrete message
/// type. No ordering relation, default value, or serialization is required.
pub trait Message: Clone + Send + Sync + 'static {

}

/// The side of an order request exchanged between collaborators.
#[derive(Clone, Copy, Debug, PartialEq, Eq, Structural)]
pub enum OrderSide {
    Buy,
    Sell,
}

impl Message for OrderSide {

}

} // verus!
