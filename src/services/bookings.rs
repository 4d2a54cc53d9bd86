//! Listing, reading, creating, updating and deleting bookings. A create
//! checks that the room and the guest it names exist; an update does not,
//! and neither do the listings by guest or by room. As for rooms, the checks
//! and the insert happen under one exclusive borrow of the store.
use vstd::prelude::*;
use crate::clock::{current_time, fresh_id, uuid_variant, uuid_version, Timestamp};
use crate::error::ApiError;
use crate::models::bookings::Model;
use crate::schemas::booking::{BookingSchemaIn, BookingSchemaOut};
use crate::store::{
    has_key, linked, lookup, position, Database, DatabaseView, EntityKind, StoreError,
};

verus! {

/// The error a booking create reports for `req`, if either parent is
/// missing: the room is checked first.
pub open spec fn missing_parent(db: DatabaseView, req: BookingSchemaIn) -> Option<ApiError> {
    if !has_key(db.rooms, req.room_id) {
        Some(ApiError::ParentNotFound(EntityKind::Room, req.room_id))
    } else if !has_key(db.guests, req.guest_id) {
        Some(ApiError::ParentNotFound(EntityKind::Guest, req.guest_id))
    } else {
        None
    }
}

/// The booking service.
pub struct BookingService {}

impl BookingService {
    pub fn new() -> Self {
        BookingService {  }
    }

    /// All bookings, in store order.
    pub fn list_bookings(&self, db: &Database) -> (r: Vec<BookingSchemaOut>)
        ensures
            r@ == db@.bookings,
    {
        db.bookings.all()
    }

    /// The booking `id`, if there is one.
    pub fn get_booking(&self, db: &Database, id: u128) -> (r: Option<BookingSchemaOut>)
        requires
            db.wf(),
        ensures
            r == lookup(db@.bookings, id),
    {
        db.bookings.find(id)
    }

    /// Creates the booking `req` under the id `id`, created at `now`, once
    /// its room and its guest are found.
    pub fn insert_booking(&self, db: &mut Database, req: BookingSchemaIn, id: u128, now: Timestamp) -> (r:
        Result<BookingSchemaOut, ApiError>)
        requires
            old(db).wf(),
        ensures
            final(db).wf(),
            missing_parent(old(db)@, req) matches Some(e) ==> r == Err::<BookingSchemaOut, ApiError>(e)
                && final(db)@ == old(db)@,
            missing_parent(old(db)@, req) is None && has_key(old(db)@.bookings, id) ==> r == Err::<
                BookingSchemaOut,
                ApiError,
            >(ApiError::Database(StoreError::DuplicateKey(id))) && final(db)@ == old(db)@,
            missing_parent(old(db)@, req) is None && !has_key(old(db)@.bookings, id) ==> r == Ok::<
                BookingSchemaOut,
                ApiError,
            >(Model::created(req, id, now)) && final(db)@ == (DatabaseView {
                bookings: old(db)@.bookings.push(Model::created(req, id, now)),
                ..old(db)@
            }),
    {
        if !db.entity_exists(EntityKind::Room, req.room_id) {
            return Err(ApiError::ParentNotFound(EntityKind::Room, req.room_id));
        }
        if !db.entity_exists(EntityKind::Guest, req.guest_id) {
            return Err(ApiError::ParentNotFound(EntityKind::Guest, req.guest_id));
        }
        let row = Model::create(req, id, now);
        match db.bookings.insert(row) {
            Ok(m) => Ok(m),
            Err(e) => Err(ApiError::Database(e)),
        }
    }

    /// Creates the booking `req` under a fresh random id, created now, once
    /// its room and its guest are found.
    pub fn create_booking(&self, db: &mut Database, req: BookingSchemaIn) -> (r: Result<
        BookingSchemaOut,
        ApiError,
    >)
        requires
            old(db).wf(),
        ensures
            final(db).wf(),
            missing_parent(old(db)@, req) matches Some(e) ==> r == Err::<BookingSchemaOut, ApiError>(e)
                && final(db)@ == old(db)@,
            r matches Ok(m) ==> {
                &&& m == Model::created(req, m.id, m.created_at)
                &&& uuid_version(m.id) == 4 && uuid_variant(m.id) == 2
                &&& missing_parent(old(db)@, req) is None
                &&& !has_key(old(db)@.bookings, m.id)
                &&& final(db)@ == (DatabaseView { bookings: old(db)@.bookings.push(m), ..old(db)@ })
            },
            r matches Err(e) ==> {
                &&& final(db)@ == old(db)@
                &&& missing_parent(old(db)@, req) == Some(e) || (e matches ApiError::Database(
                    StoreError::DuplicateKey(k),
                ) && has_key(old(db)@.bookings, k))
            },
    {
        let id = fresh_id();
        let now = current_time();
        self.insert_booking(db, req, id, now)
    }

    /// Replaces every written field of the booking `id` by those of `req`,
    /// stamping `now` as its update time; `None`, with no write, if there is
    /// no such booking. The room and the guest `req` names are not checked.
    pub fn revise_booking(&self, db: &mut Database, id: u128, req: BookingSchemaIn, now: Timestamp) -> (r:
        Option<BookingSchemaOut>)
        requires
            old(db).wf(),
        ensures
            final(db).wf(),
            !has_key(old(db)@.bookings, id) ==> r is None && final(db)@ == old(db)@,
            has_key(old(db)@.bookings, id) ==> {
                let p = position(old(db)@.bookings, id);
                let m = old(db)@.bookings[p].revised(req, now);
                &&& r == Some(m)
                &&& final(db)@ == (DatabaseView {
                    bookings: old(db)@.bookings.update(p, m),
                    ..old(db)@
                })
            },
    {
        match db.bookings.find(id) {
            None => None,
            Some(found) => {
                let row = found.revise(req, now);
                match db.bookings.update(row) {
                    Ok(m) => Some(m),
                    Err(_) => None,
                }
            },
        }
    }

    /// Replaces every written field of the booking `id` by those of `req`,
    /// stamping the current time as its update time; `None`, with no write,
    /// if there is no such booking. The room and the guest `req` names are
    /// not checked.
    pub fn update_booking(&self, db: &mut Database, id: u128, req: BookingSchemaIn) -> (r: Option<
        BookingSchemaOut,
    >)
        requires
            old(db).wf(),
        ensures
            final(db).wf(),
            !has_key(old(db)@.bookings, id) ==> r is None && final(db)@ == old(db)@,
            has_key(old(db)@.bookings, id) ==> {
                let p = position(old(db)@.bookings, id);
                &&& r matches Some(m)
                &&& m.updated_at matches Some(now)
                &&& m == old(db)@.bookings[p].revised(req, now)
                &&& final(db)@ == (DatabaseView {
                    bookings: old(db)@.bookings.update(p, m),
                    ..old(db)@
                })
            },
    {
        let now = current_time();
        self.revise_booking(db, id, req, now)
    }

    /// Deletes the booking `id`; whether a row was removed.
    pub fn delete_booking(&self, db: &mut Database, id: u128) -> (r: bool)
        requires
            old(db).wf(),
        ensures
            final(db).wf(),
            r == has_key(old(db)@.bookings, id),
            !r ==> final(db)@ == old(db)@,
            r ==> final(db)@ == (DatabaseView {
                bookings: old(db)@.bookings.remove(position(old(db)@.bookings, id)),
                ..old(db)@
            }),
    {
        db.bookings.delete(id) > 0
    }

    /// The bookings of the guest `guest_id`, in store order. An unknown guest
    /// is not an error.
    pub fn get_guest_bookings(&self, db: &Database, guest_id: u128) -> (r: Vec<BookingSchemaOut>)
        ensures
            r@ == linked(db@.bookings, EntityKind::Guest, guest_id),
    {
        db.bookings.find_where(EntityKind::Guest, guest_id)
    }

    /// The bookings of the room `room_id`, in store order. An unknown room is
    /// not an error.
    pub fn get_room_bookings(&self, db: &Database, room_id: u128) -> (r: Vec<BookingSchemaOut>)
        ensures
            r@ == linked(db@.bookings, EntityKind::Room, room_id),
    {
        db.bookings.find_where(EntityKind::Room, room_id)
    }
}

} // verus!
