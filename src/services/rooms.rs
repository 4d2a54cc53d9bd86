//! Listing, reading, creating, updating and deleting rooms. A room names its
//! hotel, and every write or listing by hotel checks that the hotel exists.
//! The check and the write it guards happen under one exclusive borrow of
//! the store, so the hotel cannot vanish between them.
use vstd::prelude::*;
use crate::clock::{current_time, fresh_id, uuid_variant, uuid_version, Timestamp};
use crate::error::ApiError;
use crate::models::rooms::Model;
use crate::schemas::rooms::{RoomSchemaIn, RoomSchemaOut};
use crate::store::{
    has_key, linked, lookup, position, Database, DatabaseView, EntityKind, StoreError,
};

verus! {

/// The room service.
pub struct RoomService {}

impl RoomService {
    pub fn new() -> Self {
        RoomService {  }
    }

    /// Whether the hotel `hotel_id` exists.
    fn check_hotel_exists(&self, db: &Database, hotel_id: u128) -> (r: bool)
        requires
            db.wf(),
        ensures
            r == has_key(db@.hotels, hotel_id),
    {
        db.entity_exists(EntityKind::Hotel, hotel_id)
    }

    /// All rooms, in store order.
    pub fn get_all_rooms(&self, db: &Database) -> (r: Vec<RoomSchemaOut>)
        ensures
            r@ == db@.rooms,
    {
        db.rooms.all()
    }

    /// The room `id`, if there is one.
    pub fn get_room(&self, db: &Database, id: u128) -> (r: Option<RoomSchemaOut>)
        requires
            db.wf(),
        ensures
            r == lookup(db@.rooms, id),
    {
        db.rooms.find(id)
    }

    /// Creates the room `req` under the id `id`, created at `now`, once its
    /// hotel is found.
    pub fn insert_room(&self, db: &mut Database, req: RoomSchemaIn, id: u128, now: Timestamp) -> (r:
        Result<RoomSchemaOut, ApiError>)
        requires
            old(db).wf(),
        ensures
            final(db).wf(),
            !has_key(old(db)@.hotels, req.hotel_id) ==> r == Err::<RoomSchemaOut, ApiError>(
                ApiError::ParentNotFound(EntityKind::Hotel, req.hotel_id),
            ) && final(db)@ == old(db)@,
            has_key(old(db)@.hotels, req.hotel_id) && has_key(old(db)@.rooms, id) ==> r == Err::<
                RoomSchemaOut,
                ApiError,
            >(ApiError::Database(StoreError::DuplicateKey(id))) && final(db)@ == old(db)@,
            has_key(old(db)@.hotels, req.hotel_id) && !has_key(old(db)@.rooms, id) ==> r == Ok::<
                RoomSchemaOut,
                ApiError,
            >(Model::created(req, id, now)) && final(db)@ == (DatabaseView {
                rooms: old(db)@.rooms.push(Model::created(req, id, now)),
                ..old(db)@
            }),
    {
        if !self.check_hotel_exists(db, req.hotel_id) {
            return Err(ApiError::ParentNotFound(EntityKind::Hotel, req.hotel_id));
        }
        let row = Model::create(req, id, now);
        match db.rooms.insert(row) {
            Ok(m) => Ok(m),
            Err(e) => Err(ApiError::Database(e)),
        }
    }

    /// Creates the room `req` under a fresh random id, created now, once its
    /// hotel is found.
    pub fn create_room(&self, db: &mut Database, req: RoomSchemaIn) -> (r: Result<
        RoomSchemaOut,
        ApiError,
    >)
        requires
            old(db).wf(),
        ensures
            final(db).wf(),
            !has_key(old(db)@.hotels, req.hotel_id) ==> r == Err::<RoomSchemaOut, ApiError>(
                ApiError::ParentNotFound(EntityKind::Hotel, req.hotel_id),
            ) && final(db)@ == old(db)@,
            r matches Ok(m) ==> {
                &&& m == Model::created(req, m.id, m.created_at)
                &&& uuid_version(m.id) == 4 && uuid_variant(m.id) == 2
                &&& has_key(old(db)@.hotels, req.hotel_id)
                &&& !has_key(old(db)@.rooms, m.id)
                &&& final(db)@ == (DatabaseView { rooms: old(db)@.rooms.push(m), ..old(db)@ })
            },
            r matches Err(e) ==> {
                &&& final(db)@ == old(db)@
                &&& !has_key(old(db)@.hotels, req.hotel_id) ==> e == ApiError::ParentNotFound(
                    EntityKind::Hotel,
                    req.hotel_id,
                )
                &&& has_key(old(db)@.hotels, req.hotel_id) ==> (e matches ApiError::Database(
                    StoreError::DuplicateKey(k),
                ) && has_key(old(db)@.rooms, k))
            },
    {
        let id = fresh_id();
        let now = current_time();
        self.insert_room(db, req, id, now)
    }

    /// Replaces every written field of the room `id` by those of `req`,
    /// stamping `now` as its update time, once the hotel `req` names is
    /// found; `Ok(None)`, with no write, if there is no such room.
    pub fn revise_room(&self, db: &mut Database, id: u128, req: RoomSchemaIn, now: Timestamp) -> (r:
        Result<Option<RoomSchemaOut>, ApiError>)
        requires
            old(db).wf(),
        ensures
            final(db).wf(),
            !has_key(old(db)@.hotels, req.hotel_id) ==> r == Err::<Option<RoomSchemaOut>, ApiError>(
                ApiError::ParentNotFound(EntityKind::Hotel, req.hotel_id),
            ) && final(db)@ == old(db)@,
            has_key(old(db)@.hotels, req.hotel_id) && !has_key(old(db)@.rooms, id) ==> r == Ok::<
                Option<RoomSchemaOut>,
                ApiError,
            >(None) && final(db)@ == old(db)@,
            has_key(old(db)@.hotels, req.hotel_id) && has_key(old(db)@.rooms, id) ==> {
                let p = position(old(db)@.rooms, id);
                let m = old(db)@.rooms[p].revised(req, now);
                &&& r == Ok::<Option<RoomSchemaOut>, ApiError>(Some(m))
                &&& final(db)@ == (DatabaseView { rooms: old(db)@.rooms.update(p, m), ..old(db)@ })
            },
    {
        if !self.check_hotel_exists(db, req.hotel_id) {
            return Err(ApiError::ParentNotFound(EntityKind::Hotel, req.hotel_id));
        }
        match db.rooms.find(id) {
            None => Ok(None),
            Some(found) => {
                let row = found.revise(req, now);
                match db.rooms.update(row) {
                    Ok(m) => Ok(Some(m)),
                    Err(e) => Err(ApiError::Database(e)),
                }
            },
        }
    }

    /// Replaces every written field of the room `id` by those of `req`,
    /// stamping the current time as its update time, once the hotel `req`
    /// names is found; `Ok(None)`, with no write, if there is no such room.
    pub fn update_room(&self, db: &mut Database, id: u128, req: RoomSchemaIn) -> (r: Result<
        Option<RoomSchemaOut>,
        ApiError,
    >)
        requires
            old(db).wf(),
        ensures
            final(db).wf(),
            !has_key(old(db)@.hotels, req.hotel_id) ==> r == Err::<Option<RoomSchemaOut>, ApiError>(
                ApiError::ParentNotFound(EntityKind::Hotel, req.hotel_id),
            ) && final(db)@ == old(db)@,
            has_key(old(db)@.hotels, req.hotel_id) && !has_key(old(db)@.rooms, id) ==> r == Ok::<
                Option<RoomSchemaOut>,
                ApiError,
            >(None) && final(db)@ == old(db)@,
            has_key(old(db)@.hotels, req.hotel_id) && has_key(old(db)@.rooms, id) ==> {
                let p = position(old(db)@.rooms, id);
                &&& r matches Ok(Some(m))
                &&& m.updated_at matches Some(now)
                &&& m == old(db)@.rooms[p].revised(req, now)
                &&& final(db)@ == (DatabaseView { rooms: old(db)@.rooms.update(p, m), ..old(db)@ })
            },
    {
        let now = current_time();
        self.revise_room(db, id, req, now)
    }

    /// Deletes the room `id`; whether a row was removed. Its bookings stay.
    pub fn delete_room(&self, db: &mut Database, id: u128) -> (r: bool)
        requires
            old(db).wf(),
        ensures
            final(db).wf(),
            r == has_key(old(db)@.rooms, id),
            !r ==> final(db)@ == old(db)@,
            r ==> final(db)@ == (DatabaseView {
                rooms: old(db)@.rooms.remove(position(old(db)@.rooms, id)),
                ..old(db)@
            }),
    {
        db.rooms.delete(id) > 0
    }

    /// The rooms of the hotel `hotel_id`, in store order, once the hotel is
    /// found.
    pub fn get_rooms_by_hotel(&self, db: &Database, hotel_id: u128) -> (r: Result<
        Vec<RoomSchemaOut>,
        ApiError,
    >)
        requires
            db.wf(),
        ensures
            !has_key(db@.hotels, hotel_id) ==> r == Err::<Vec<RoomSchemaOut>, ApiError>(
                ApiError::ParentNotFound(EntityKind::Hotel, hotel_id),
            ),
            has_key(db@.hotels, hotel_id) ==> (r matches Ok(v) && v@ == linked(
                db@.rooms,
                EntityKind::Hotel,
                hotel_id,
            )),
    {
        if !self.check_hotel_exists(db, hotel_id) {
            return Err(ApiError::ParentNotFound(EntityKind::Hotel, hotel_id));
        }
        Ok(db.rooms.find_where(EntityKind::Hotel, hotel_id))
    }
}

} // verus!
