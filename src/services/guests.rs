//! Listing, reading, creating, updating and deleting guests.
use vstd::prelude::*;
use crate::clock::{current_time, fresh_id, uuid_variant, uuid_version, Timestamp};
use crate::models::guests::Model;
use crate::schemas::guests::{GuestSchemaIn, GuestSchemaOut};
use crate::store::{has_key, lookup, position, Database, DatabaseView, Row, StoreError};

verus! {

/// `shown` shows the rows `rows`, one for one and in order.
pub open spec fn shows_all(shown: Seq<GuestSchemaOut>, rows: Seq<Model>) -> bool {
    &&& shown.len() == rows.len()
    &&& forall|i: int| 0 <= i < rows.len() ==> #[trigger] shown[i].shows(rows[i])
}

/// `shown` shows the row `row`, if there is one, and is `None` if not.
pub open spec fn shows_opt(shown: Option<GuestSchemaOut>, row: Option<Model>) -> bool {
    match row {
        Some(m) => shown matches Some(g) && g.shows(m),
        None => shown is None,
    }
}

/// The guest service. A guest names no parent, so its writes need no check.
pub struct GuestService {}

impl GuestService {
    pub fn new() -> Self {
        GuestService {  }
    }

    /// All guests, in store order.
    pub fn list_guests(&self, db: &Database) -> (r: Vec<GuestSchemaOut>)
        ensures
            shows_all(r@, db@.guests),
    {
        let rows = db.guests.all();
        let mut out: Vec<GuestSchemaOut> = Vec::new();
        let mut i: usize = 0;
        while i < rows.len()
            invariant
                rows@ == db@.guests,
                i <= rows@.len(),
                shows_all(out@, rows@.subrange(0, i as int)),
            decreases rows@.len() - i,
        {
            let shown = GuestSchemaOut::from_model(rows[i].duplicate());
            out.push(shown);
            i = i + 1;
        }
        proof {
            assert(rows@.subrange(0, rows@.len() as int) == rows@);
        }
        out
    }

    /// The guest `id`, if there is one.
    pub fn get_guest(&self, db: &Database, id: u128) -> (r: Option<GuestSchemaOut>)
        requires
            db.wf(),
        ensures
            shows_opt(r, lookup(db@.guests, id)),
    {
        match db.guests.find(id) {
            Some(m) => Some(GuestSchemaOut::from_model(m)),
            None => None,
        }
    }

    /// Creates the guest `req` under the id `id`, created at `now`.
    pub fn insert_guest(&self, db: &mut Database, req: GuestSchemaIn, id: u128, now: Timestamp) -> (r:
        Result<GuestSchemaOut, StoreError>)
        requires
            old(db).wf(),
        ensures
            final(db).wf(),
            has_key(old(db)@.guests, id) ==> r == Err::<GuestSchemaOut, StoreError>(
                StoreError::DuplicateKey(id),
            ) && final(db)@ == old(db)@,
            !has_key(old(db)@.guests, id) ==> {
                &&& r matches Ok(g) && g.shows(Model::created(req, id, now))
                &&& final(db)@ == (DatabaseView {
                    guests: old(db)@.guests.push(Model::created(req, id, now)),
                    ..old(db)@
                })
            },
    {
        let row = Model::create(req, id, now);
        match db.guests.insert(row) {
            Ok(m) => Ok(GuestSchemaOut::from_model(m)),
            Err(e) => Err(e),
        }
    }

    /// Creates the guest `req` under a fresh random id, created now.
    pub fn create_guest(&self, db: &mut Database, req: GuestSchemaIn) -> (r: Result<
        GuestSchemaOut,
        StoreError,
    >)
        requires
            old(db).wf(),
        ensures
            final(db).wf(),
            r matches Ok(g) ==> {
                let row = Model::created(req, g.id, g.created_at);
                &&& g.shows(row)
                &&& uuid_version(g.id) == 4 && uuid_variant(g.id) == 2
                &&& !has_key(old(db)@.guests, g.id)
                &&& final(db)@ == (DatabaseView { guests: old(db)@.guests.push(row), ..old(db)@ })
            },
            r matches Err(e) ==> e matches StoreError::DuplicateKey(k) && has_key(
                old(db)@.guests,
                k,
            ) && final(db)@ == old(db)@,
    {
        let id = fresh_id();
        let now = current_time();
        self.insert_guest(db, req, id, now)
    }

    /// Replaces every written field of the guest `id` by those of `req`,
    /// stamping `now` as its update time; `None`, with no write, if there is
    /// no such guest.
    pub fn revise_guest(&self, db: &mut Database, id: u128, req: GuestSchemaIn, now: Timestamp) -> (r:
        Option<GuestSchemaOut>)
        requires
            old(db).wf(),
        ensures
            final(db).wf(),
            !has_key(old(db)@.guests, id) ==> r is None && final(db)@ == old(db)@,
            has_key(old(db)@.guests, id) ==> {
                let p = position(old(db)@.guests, id);
                let row = old(db)@.guests[p].revised(req, now);
                &&& r matches Some(g) && g.shows(row)
                &&& final(db)@ == (DatabaseView { guests: old(db)@.guests.update(p, row), ..old(db)@ })
            },
    {
        match db.guests.find(id) {
            None => None,
            Some(found) => {
                let row = found.revise(req, now);
                match db.guests.update(row) {
                    Ok(m) => Some(GuestSchemaOut::from_model(m)),
                    Err(_) => None,
                }
            },
        }
    }

    /// Replaces every written field of the guest `id` by those of `req`,
    /// stamping the current time as its update time; `None`, with no write,
    /// if there is no such guest.
    pub fn update_guest(&self, db: &mut Database, id: u128, req: GuestSchemaIn) -> (r: Option<
        GuestSchemaOut,
    >)
        requires
            old(db).wf(),
        ensures
            final(db).wf(),
            !has_key(old(db)@.guests, id) ==> r is None && final(db)@ == old(db)@,
            has_key(old(db)@.guests, id) ==> {
                let p = position(old(db)@.guests, id);
                &&& r matches Some(g)
                &&& g.updated_at matches Some(now)
                &&& g.shows(old(db)@.guests[p].revised(req, now))
                &&& final(db)@ == (DatabaseView {
                    guests: old(db)@.guests.update(p, old(db)@.guests[p].revised(req, now)),
                    ..old(db)@
                })
            },
    {
        let now = current_time();
        self.revise_guest(db, id, req, now)
    }

    /// Deletes the guest `id`; whether a row was removed. Its bookings stay.
    pub fn delete_guest(&self, db: &mut Database, id: u128) -> (r: bool)
        requires
            old(db).wf(),
        ensures
            final(db).wf(),
            r == has_key(old(db)@.guests, id),
            !r ==> final(db)@ == old(db)@,
            r ==> final(db)@ == (DatabaseView {
                guests: old(db)@.guests.remove(position(old(db)@.guests, id)),
                ..old(db)@
            }),
    {
        db.guests.delete(id) > 0
    }
}

} // verus!
