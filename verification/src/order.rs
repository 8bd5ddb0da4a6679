use vstd::prelude::*;

use crate::resource::Resource;

verus! {

/// Which side of the book an order rests on.
#[derive(Debug, Clone, Copy, PartialEq, Eq, Structural)]
pub enum Side {
    Buy,
    Sell,
}

/// A limit order.
///
/// Prices and quantities travel as order keys: the IEEE-754 bit pattern of
/// a nonnegative, non-NaN `f32`. For such values the unsigned order of the
/// bit patterns is the numeric order, so the book ranks and compares orders
/// on the keys exactly as it would on the numbers they stand for.
#[derive(Debug, Clone, Copy, PartialEq, Eq, Structural)]
pub struct Order {
    pub id: u64,
    pub agent_id: usize,
    pub resource: Resource,
    pub side: Side,
    pub price_key: u32,
    pub quantity_key: u32,
}

} // verus!
