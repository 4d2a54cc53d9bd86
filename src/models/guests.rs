//! A guest row.
use vstd::prelude::*;
use crate::clock::Timestamp;
use crate::store::{EntityKind, Row};
use crate::schemas::guests::GuestSchemaIn;

verus! {

/// A guest. It owns the bookings whose `guest_id` is its `id`.
#[derive(Debug, PartialEq)]
pub struct Model {
    pub id: u128,
    pub first_name: String,
    pub last_name: String,
    pub email: String,
    pub phone: Option<String>,
    pub created_at: Timestamp,
    pub updated_at: Option<Timestamp>,
}

impl Model {
    /// The row a create writes for `req`.
    pub open spec fn created(req: GuestSchemaIn, id: u128, now: Timestamp) -> Self {
        Model {
            id,
            first_name: req.first_name,
            last_name: req.last_name,
            email: req.email,
            phone: req.phone,
            created_at: now,
            updated_at: None,
        }
    }

    /// The row an update writes over `self` for `req`: every field that a
    /// caller writes is replaced, `id` and `created_at` are kept.
    pub open spec fn revised(self, req: GuestSchemaIn, now: Timestamp) -> Self {
        Model {
            id: self.id,
            first_name: req.first_name,
            last_name: req.last_name,
            email: req.email,
            phone: req.phone,
            created_at: self.created_at,
            updated_at: Some(now),
        }
    }

    pub fn create(req: GuestSchemaIn, id: u128, now: Timestamp) -> (r: Self)
        ensures
            r == Self::created(req, id, now),
    {
        Model {
            id,
            first_name: req.first_name,
            last_name: req.last_name,
            email: req.email,
            phone: req.phone,
            created_at: now,
            updated_at: None,
        }
    }

    pub fn revise(self, req: GuestSchemaIn, now: Timestamp) -> (r: Self)
        ensures
            r == self.revised(req, now),
    {
        Model {
            id: self.id,
            first_name: req.first_name,
            last_name: req.last_name,
            email: req.email,
            phone: req.phone,
            created_at: self.created_at,
            updated_at: Some(now),
        }
    }
}

impl Row for Model {
    open spec fn key(&self) -> u128 {
        self.id
    }

    open spec fn refers_to(&self, parent: EntityKind, id: u128) -> bool {
        false
    }

    fn id(&self) -> (r: u128) {
        self.id
    }

    fn references(&self, parent: EntityKind, id: u128) -> (r: bool) {
        false
    }

    fn duplicate(&self) -> (r: Self) {
        Model {
            id: self.id,
            first_name: self.first_name.clone(),
            last_name: self.last_name.clone(),
            email: self.email.clone(),
            phone: match &self.phone {
                Some(p) => Some(p.clone()),
                None => None,
            },
            created_at: self.created_at,
            updated_at: self.updated_at,
        }
    }
}

} // verus!
