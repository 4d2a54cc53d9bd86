//! The fields of a hotel that a caller writes.
use vstd::prelude::*;

verus! {

/// The fields of a hotel that a create or an update sets.
#[derive(Debug, PartialEq)]
pub struct HotelSchemaIn {
    pub name: String,
    pub address: String,
    /// The rating, a binary64 floating-point number, as its IEEE 754 bits.
    pub rating_bits: u64,
    pub description: Option<String>,
}

/// A hotel as the services return it: the stored row itself.
pub type HotelSchemaOut = crate::models::hotels::Model;

} // verus!
