//! Values read from the broker's property interface.
//!
//! The broker answers property queries with typed bus values; the protocol
//! only ever reads integers from them. A value is modelled by what the logic
//! reads: a 32-bit integer, a 64-bit integer, or something else entirely,
//! which the protocol rejects.

use vstd::prelude::*;

use crate::errors::PromotionError;

verus! {

/// A property value as it arrives from the broker over the bus.
#[derive(Clone, Copy, Debug, PartialEq, Eq, Structural)]
pub enum BusValue {
    /// A 32-bit signed integer property.
    Int32(i32),
    /// A 64-bit signed integer property.
    Int64(i64),
    /// Any non-integer payload; the negotiation cannot use it.
    Other,
}

/// The integer a bus value carries, if it carries one.
pub open spec fn spec_item_i64(v: BusValue) -> Option<i64> {
    match v {
        BusValue::Int32(x) => Some(x as i64),
        BusValue::Int64(x) => Some(x),
        BusValue::Other => None,
    }
}

/// Reads an integer property value; a non-integer aborts the negotiation
/// with a broker query failure.
pub fn item_as_i64(i: BusValue) -> (r: Result<i64, PromotionError>)
    ensures
        spec_item_i64(i) matches Some(x) ==> r == Ok::<i64, PromotionError>(x),
        spec_item_i64(i) is None ==> (r matches Err(e) && e == PromotionError::BrokerQueryFailure),
{
    match i {
        BusValue::Int32(x) => Ok(x as i64),
        BusValue::Int64(x) => Ok(x),
        BusValue::Other => Err(PromotionError::BrokerQueryFailure),
    }
}

} // verus!
