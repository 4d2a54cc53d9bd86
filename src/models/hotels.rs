//! A hotel row.
use vstd::prelude::*;
use crate::clock::Timestamp;
use crate::store::{EntityKind, Row};
use crate::schemas::hotels::HotelSchemaIn;

verus! {

/// A hotel. It owns the rooms whose `hotel_id` is its `id`.
#[derive(Debug, PartialEq)]
pub struct Model {
    pub id: u128,
    pub name: String,
    pub address: String,
    /// The rating, a binary64 floating-point number, as its IEEE 754 bits.
    pub rating_bits: u64,
    pub description: Option<String>,
    pub created_at: Timestamp,
    pub updated_at: Option<Timestamp>,
}

impl Model {
    /// The row a create writes for `req`.
    pub open spec fn created(req: HotelSchemaIn, id: u128, now: Timestamp) -> Self {
        Model {
            id,
            name: req.name,
            address: req.address,
            rating_bits: req.rating_bits,
            description: req.description,
            created_at: now,
            updated_at: None,
        }
    }

    /// The row an update writes over `self` for `req`: every field that a
    /// caller writes is replaced, `id` and `created_at` are kept.
    pub open spec fn revised(self, req: HotelSchemaIn, now: Timestamp) -> Self {
        Model {
            id: self.id,
            name: req.name,
            address: req.address,
            rating_bits: req.rating_bits,
            description: req.description,
            created_at: self.created_at,
            updated_at: Some(now),
        }
    }

    pub fn create(req: HotelSchemaIn, id: u128, now: Timestamp) -> (r: Self)
        ensures
            r == Self::created(req, id, now),
    {
        Model {
            id,
            name: req.name,
            address: req.address,
            rating_bits: req.rating_bits,
            description: req.description,
            created_at: now,
            updated_at: None,
        }
    }

    pub fn revise(self, req: HotelSchemaIn, now: Timestamp) -> (r: Self)
        ensures
            r == self.revised(req, now),
    {
        Model {
            id: self.id,
            name: req.name,
            address: req.address,
            rating_bits: req.rating_bits,
            description: req.description,
            created_at: self.created_at,
            updated_at: Some(now),
        }
    }
}

impl Row for Model {
    open spec fn key(&self) -> u128 {
        self.id
    }

    open spec fn refers_to(&self, parent: EntityKind, id: u128) -> bool {
        false
    }

    fn id(&self) -> (r: u128) {
        self.id
    }

    fn references(&self, parent: EntityKind, id: u128) -> (r: bool) {
        false
    }

    fn duplicate(&self) -> (r: Self) {
        Model {
            id: self.id,
            name: self.name.clone(),
            address: self.address.clone(),
            rating_bits: self.rating_bits,
            description: match &self.description {
                Some(d) => Some(d.clone()),
                None => None,
            },
            created_at: self.created_at,
            updated_at: self.updated_at,
        }
    }
}

} // verus!
