//! The rows of the four tables, and the values they share.
use vstd::prelude::*;

pub mod bookings;
pub mod guests;
pub mod hotels;
pub mod rooms;

verus! {

/// A fixed-point decimal, carried through the library unchanged.
#[verifier::external_type_specification]
#[verifier::external_body]
pub struct ExDecimal(rust_decimal::Decimal);

/// Where a booking stands. Any status may follow any other.
#[derive(Clone, Copy, Debug, PartialEq, Eq, Structural)]
pub enum BookingStatus {
    Pending,
    Confirmed,
    Cancelled,
    Completed,
}

impl BookingStatus {
    /// The name under which the status is persisted.
    pub open spec fn spec_name(self) -> Seq<char> {
        match self {
            BookingStatus::Pending => "pending"@,
            BookingStatus::Confirmed => "confirmed"@,
            BookingStatus::Cancelled => "cancelled"@,
            BookingStatus::Completed => "completed"@,
        }
    }

    /// The name under which the status is persisted.
    pub fn name(&self) -> (r: &'static str)
        ensures
            r@ == self.spec_name(),
    {
        match self {
            BookingStatus::Pending => "pending",
            BookingStatus::Confirmed => "confirmed",
            BookingStatus::Cancelled => "cancelled",
            BookingStatus::Completed => "completed",
        }
    }
}

} // verus!
