//! The fields of a room that a caller writes.
use vstd::prelude::*;
use rust_decimal::Decimal;

verus! {

/// The fields of a room that a create or an update sets.
#[derive(Debug, PartialEq)]
pub struct RoomSchemaIn {
    pub hotel_id: u128,
    pub room_number: String,
    pub room_type: String,
    pub price_per_night: Decimal,
    pub is_available: bool,
}

/// A room as the services return it: the stored row itself.
pub type RoomSchemaOut = crate::models::rooms::Model;

} // verus!
