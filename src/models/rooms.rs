//! A room row.
use vstd::prelude::*;
use rust_decimal::Decimal;
use crate::clock::Timestamp;
use crate::store::{EntityKind, Row};
use crate::schemas::rooms::RoomSchemaIn;

verus! {

/// A room of the hotel `hotel_id`. It owns the bookings whose `room_id` is
/// its `id`.
#[derive(Debug, PartialEq)]
pub struct Model {
    pub id: u128,
    pub hotel_id: u128,
    pub room_number: String,
    pub room_type: String,
    pub price_per_night: Decimal,
    pub is_available: bool,
    pub created_at: Timestamp,
    pub updated_at: Option<Timestamp>,
}

impl Model {
    /// The row a create writes for `req`.
    pub open spec fn created(req: RoomSchemaIn, id: u128, now: Timestamp) -> Self {
        Model {
            id,
            hotel_id: req.hotel_id,
            room_number: req.room_number,
            room_type: req.room_type,
            price_per_night: req.price_per_night,
            is_available: req.is_available,
            created_at: now,
            updated_at: None,
        }
    }

    /// The row an update writes over `self` for `req`: every field that a
    /// caller writes is replaced, `id` and `created_at` are kept.
    pub open spec fn revised(self, req: RoomSchemaIn, now: Timestamp) -> Self {
        Model {
            id: self.id,
            hotel_id: req.hotel_id,
            room_number: req.room_number,
            room_type: req.room_type,
            price_per_night: req.price_per_night,
            is_available: req.is_available,
            created_at: self.created_at,
            updated_at: Some(now),
        }
    }

    pub fn create(req: RoomSchemaIn, id: u128, now: Timestamp) -> (r: Self)
        ensures
            r == Self::created(req, id, now),
    {
        Model {
            id,
            hotel_id: req.hotel_id,
            room_number: req.room_number,
            room_type: req.room_type,
            price_per_night: req.price_per_night,
            is_available: req.is_available,
            created_at: now,
            updated_at: None,
        }
    }

    pub fn revise(self, req: RoomSchemaIn, now: Timestamp) -> (r: Self)
        ensures
            r == self.revised(req, now),
    {
        Model {
            id: self.id,
            hotel_id: req.hotel_id,
            room_number: req.room_number,
            room_type: req.room_type,
            price_per_night: req.price_per_night,
            is_available: req.is_available,
            created_at: self.created_at,
            updated_at: Some(now),
        }
    }
}

impl Row for Model {
    open spec fn key(&self) -> u128 {
        self.id
    }

    open spec fn refers_to(&self, parent: EntityKind, id: u128) -> bool {
        parent == EntityKind::Hotel && self.hotel_id == id
    }

    fn id(&self) -> (r: u128) {
        self.id
    }

    fn references(&self, parent: EntityKind, id: u128) -> (r: bool) {
        match parent {
            EntityKind::Hotel => self.hotel_id == id,
            _ => false,
        }
    }

    fn duplicate(&self) -> (r: Self) {
        Model {
            id: self.id,
            hotel_id: self.hotel_id,
            room_number: self.room_number.clone(),
            room_type: self.room_type.clone(),
            price_per_night: self.price_per_night,
            is_available: self.is_available,
            created_at: self.created_at,
            updated_at: self.updated_at,
        }
    }
}

} // verus!
