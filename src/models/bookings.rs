//! A booking row.
use vstd::prelude::*;
use rust_decimal::Decimal;
use crate::clock::Timestamp;
use crate::models::BookingStatus;
use crate::store::{EntityKind, Row};
use crate::schemas::booking::BookingSchemaIn;

verus! {

/// A booking of the room `room_id` by the guest `guest_id`. No order between
/// `check_in_date` and `check_out_date` is required.
#[derive(Debug, PartialEq)]
pub struct Model {
    pub id: u128,
    pub room_id: u128,
    pub guest_id: u128,
    pub check_in_date: Timestamp,
    pub check_out_date: Timestamp,
    pub total_price: Decimal,
    pub status: BookingStatus,
    pub created_at: Timestamp,
    pub updated_at: Option<Timestamp>,
}

impl Model {
    /// The row a create writes for `req`.
    pub open spec fn created(req: BookingSchemaIn, id: u128, now: Timestamp) -> Self {
        Model {
            id,
            room_id: req.room_id,
            guest_id: req.guest_id,
            check_in_date: req.check_in_date,
            check_out_date: req.check_out_date,
            total_price: req.total_price,
            status: req.status,
            created_at: now,
            updated_at: None,
        }
    }

    /// The row an update writes over `self` for `req`: every field that a
    /// caller writes is replaced, `id` and `created_at` are kept.
    pub open spec fn revised(self, req: BookingSchemaIn, now: Timestamp) -> Self {
        Model {
            id: self.id,
            room_id: req.room_id,
            guest_id: req.guest_id,
            check_in_date: req.check_in_date,
            check_out_date: req.check_out_date,
            total_price: req.total_price,
            status: req.status,
            created_at: self.created_at,
            updated_at: Some(now),
        }
    }

    pub fn create(req: BookingSchemaIn, id: u128, now: Timestamp) -> (r: Self)
        ensures
            r == Self::created(req, id, now),
    {
        Model {
            id,
            room_id: req.room_id,
            guest_id: req.guest_id,
            check_in_date: req.check_in_date,
            check_out_date: req.check_out_date,
            total_price: req.total_price,
            status: req.status,
            created_at: now,
            updated_at: None,
        }
    }

    pub fn revise(self, req: BookingSchemaIn, now: Timestamp) -> (r: Self)
        ensures
            r == self.revised(req, now),
    {
        Model {
            id: self.id,
            room_id: req.room_id,
            guest_id: req.guest_id,
            check_in_date: req.check_in_date,
            check_out_date: req.check_out_date,
            total_price: req.total_price,
            status: req.status,
            created_at: self.created_at,
            updated_at: Some(now),
        }
    }
}

impl Row for Model {
    open spec fn key(&self) -> u128 {
        self.id
    }

    open spec fn refers_to(&self, parent: EntityKind, id: u128) -> bool {
        (parent == EntityKind::Room && self.room_id == id) || (parent == EntityKind::Guest
            && self.guest_id == id)
    }

    fn id(&self) -> (r: u128) {
        self.id
    }

    fn references(&self, parent: EntityKind, id: u128) -> (r: bool) {
        match parent {
            EntityKind::Room => self.room_id == id,
            EntityKind::Guest => self.guest_id == id,
            _ => false,
        }
    }

    fn duplicate(&self) -> (r: Self) {
        Model {
            id: self.id,
            room_id: self.room_id,
            guest_id: self.guest_id,
            check_in_date: self.check_in_date,
            check_out_date: self.check_out_date,
            total_price: self.total_price,
            status: self.status,
            created_at: self.created_at,
            updated_at: self.updated_at,
        }
    }
}

} // verus!
