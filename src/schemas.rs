//! What callers hand to the services and what the services hand back.
pub mod booking;
pub mod guests;
pub mod hotels;
pub mod rooms;
