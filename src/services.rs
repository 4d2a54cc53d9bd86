//! One service per entity. Each takes the store as an explicit argument.
pub mod bookings;
pub mod guests;
pub mod hotels;
pub mod rooms;
