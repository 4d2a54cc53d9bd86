//! Listing, reading, creating, updating and deleting hotels.
use vstd::prelude::*;
use crate::clock::{current_time, fresh_id, uuid_variant, uuid_version, Timestamp};
use crate::models::hotels::Model;
use crate::schemas::hotels::{HotelSchemaIn, HotelSchemaOut};
use crate::store::{has_key, lookup, position, Database, DatabaseView, StoreError};

verus! {

/// The hotel service. A hotel names no parent, so its writes need no check.
pub struct HotelService {}

impl HotelService {
    pub fn new() -> Self {
        HotelService {  }
    }

    /// All hotels, in store order.
    pub fn list_hotels(&self, db: &Database) -> (r: Vec<HotelSchemaOut>)
        ensures
            r@ == db@.hotels,
    {
        db.hotels.all()
    }

    /// The hotel `id`, if there is one.
    pub fn get_hotel(&self, db: &Database, id: u128) -> (r: Option<HotelSchemaOut>)
        requires
            db.wf(),
        ensures
            r == lookup(db@.hotels, id),
    {
        db.hotels.find(id)
    }

    /// Creates the hotel `req` under the id `id`, created at `now`.
    pub fn insert_hotel(&self, db: &mut Database, req: HotelSchemaIn, id: u128, now: Timestamp) -> (r:
        Result<HotelSchemaOut, StoreError>)
        requires
            old(db).wf(),
        ensures
            final(db).wf(),
            has_key(old(db)@.hotels, id) ==> r == Err::<HotelSchemaOut, StoreError>(
                StoreError::DuplicateKey(id),
            ) && final(db)@ == old(db)@,
            !has_key(old(db)@.hotels, id) ==> r == Ok::<HotelSchemaOut, StoreError>(
                Model::created(req, id, now),
            ) && final(db)@ == (DatabaseView {
                hotels: old(db)@.hotels.push(Model::created(req, id, now)),
                ..old(db)@
            }),
    {
        let row = Model::create(req, id, now);
        db.hotels.insert(row)
    }

    /// Creates the hotel `req` under a fresh random id, created now.
    pub fn create_hotel(&self, db: &mut Database, req: HotelSchemaIn) -> (r: Result<
        HotelSchemaOut,
        StoreError,
    >)
        requires
            old(db).wf(),
        ensures
            final(db).wf(),
            r matches Ok(h) ==> {
                &&& h == Model::created(req, h.id, h.created_at)
                &&& uuid_version(h.id) == 4 && uuid_variant(h.id) == 2
                &&& !has_key(old(db)@.hotels, h.id)
                &&& final(db)@ == (DatabaseView { hotels: old(db)@.hotels.push(h), ..old(db)@ })
            },
            r matches Err(e) ==> e matches StoreError::DuplicateKey(k) && has_key(
                old(db)@.hotels,
                k,
            ) && final(db)@ == old(db)@,
    {
        let id = fresh_id();
        let now = current_time();
        self.insert_hotel(db, req, id, now)
    }

    /// Replaces every written field of the hotel `id` by those of `req`,
    /// stamping `now` as its update time; `None`, with no write, if there is
    /// no such hotel.
    pub fn revise_hotel(&self, db: &mut Database, id: u128, req: HotelSchemaIn, now: Timestamp) -> (r:
        Option<HotelSchemaOut>)
        requires
            old(db).wf(),
        ensures
            final(db).wf(),
            !has_key(old(db)@.hotels, id) ==> r is None && final(db)@ == old(db)@,
            has_key(old(db)@.hotels, id) ==> {
                let p = position(old(db)@.hotels, id);
                let h = old(db)@.hotels[p].revised(req, now);
                &&& r == Some(h)
                &&& final(db)@ == (DatabaseView { hotels: old(db)@.hotels.update(p, h), ..old(db)@ })
            },
    {
        match db.hotels.find(id) {
            None => None,
            Some(found) => {
                let row = found.revise(req, now);
                match db.hotels.update(row) {
                    Ok(h) => Some(h),
                    Err(_) => None,
                }
            },
        }
    }

    /// Replaces every written field of the hotel `id` by those of `req`,
    /// stamping the current time as its update time; `None`, with no write,
    /// if there is no such hotel.
    pub fn update_hotel(&self, db: &mut Database, id: u128, req: HotelSchemaIn) -> (r: Option<
        HotelSchemaOut,
    >)
        requires
            old(db).wf(),
        ensures
            final(db).wf(),
            !has_key(old(db)@.hotels, id) ==> r is None && final(db)@ == old(db)@,
            has_key(old(db)@.hotels, id) ==> {
                let p = position(old(db)@.hotels, id);
                &&& r matches Some(h)
                &&& h.updated_at matches Some(now)
                &&& h == old(db)@.hotels[p].revised(req, now)
                &&& final(db)@ == (DatabaseView { hotels: old(db)@.hotels.update(p, h), ..old(db)@ })
            },
    {
        let now = current_time();
        self.revise_hotel(db, id, req, now)
    }

    /// Deletes the hotel `id`; whether a row was removed. Its rooms stay.
    pub fn delete_hotel(&self, db: &mut Database, id: u128) -> (r: bool)
        requires
            old(db).wf(),
        ensures
            final(db).wf(),
            r == has_key(old(db)@.hotels, id),
            !r ==> final(db)@ == old(db)@,
            r ==> final(db)@ == (DatabaseView {
                hotels: old(db)@.hotels.remove(position(old(db)@.hotels, id)),
                ..old(db)@
            }),
    {
        db.hotels.delete(id) > 0
    }
}

} // verus!
