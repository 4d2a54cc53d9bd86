//! Hotel booking core: an entity store for hotels, rooms, guests and
//! bookings, the services that create, read, update and delete them, and the
//! referential checks that guard writes which name a parent entity.
pub mod clock;
pub mod config;
pub mod error;
pub mod laws;
pub mod models;
pub mod schemas;
pub mod services;
pub mod store;
