//! The fields of a booking that a caller writes.
use vstd::prelude::*;
use rust_decimal::Decimal;
use crate::clock::Timestamp;
use crate::models::BookingStatus;

verus! {

/// The fields of a booking that a create or an update sets.
#[derive(Debug, PartialEq)]
pub struct BookingSchemaIn {
    pub room_id: u128,
    pub guest_id: u128,
    pub check_in_date: Timestamp,
    pub check_out_date: Timestamp,
    pub total_price: Decimal,
    pub status: BookingStatus,
}

/// A booking as the services return it: the stored row itself.
pub type BookingSchemaOut = crate::models::bookings::Model;

} // verus!
