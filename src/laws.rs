//! Properties that relate several calls of the services, stated over the
//! store's contents that the services' own contracts describe.
use vstd::prelude::*;
use crate::clock::Timestamp;
use crate::models::{bookings, hotels};
use crate::schemas::hotels::HotelSchemaIn;
use crate::store::{
    has_key, lemma_position_unique, linked, lookup, position, unique_keys, DatabaseView,
    EntityKind, Row,
};

verus! {

/// Adding a row under a key not yet taken keeps keys unique, and the key then
/// finds exactly that row.
pub proof fn lemma_push_fresh<T: Row>(rows: Seq<T>, row: T)
    requires
        unique_keys(rows),
        !has_key(rows, row.key()),
    ensures
        unique_keys(rows.push(row)),
        lookup(rows.push(row), row.key()) == Some(row),
{
    let s = rows.push(row);
    assert forall|i: int, j: int|
        0 <= i < s.len() && 0 <= j < s.len() && #[trigger] s[i].key() == #[trigger] s[j].key()
        implies i == j by {
        if i < rows.len() {
            assert(s[i] == rows[i]);
        }
        if j < rows.len() {
            assert(s[j] == rows[j]);
        }
    }
    lemma_position_unique(s, rows.len() as int);
}

/// Removing the row with key `id` leaves no row with that key.
pub proof fn lemma_remove_key<T: Row>(rows: Seq<T>, id: u128)
    requires
        unique_keys(rows),
        has_key(rows, id),
    ensures
        !has_key(rows.remove(position(rows, id)), id),
        unique_keys(rows.remove(position(rows, id))),
{
    let p = position(rows, id);
    let s = rows.remove(p);
    assert forall|i: int| 0 <= i < s.len() implies #[trigger] s[i].key() != id by {
        let k = if i < p { i } else { i + 1 };
        assert(s[i] == rows[k]);
    }
    assert forall|i: int, j: int|
        0 <= i < s.len() && 0 <= j < s.len() && #[trigger] s[i].key() == #[trigger] s[j].key()
        implies i == j by {
        let a = if i < p { i } else { i + 1 };
        let b = if j < p { j } else { j + 1 };
        assert(s[i] == rows[a]);
        assert(s[j] == rows[b]);
    }
}

/// If no row refers to `id` as its `parent`, the rows linked to it are none.
pub proof fn lemma_linked_none<T: Row>(rows: Seq<T>, parent: EntityKind, id: u128)
    requires
        forall|i: int| 0 <= i < rows.len() ==> !(#[trigger] rows[i].refers_to(parent, id)),
    ensures
        linked(rows, parent, id) == Seq::<T>::empty(),
    decreases rows.len(),
{
    reveal(Seq::filter);
    if rows.len() > 0 {
        let rest = rows.drop_last();
        assert forall|i: int| 0 <= i < rest.len() implies !(#[trigger] rest[i].refers_to(
            parent,
            id,
        )) by {
            assert(rest[i] == rows[i]);
        }
        lemma_linked_none(rest, parent, id);
        assert(!rows[rows.len() - 1].refers_to(parent, id));
    }
}

/// Creating a hotel and then reading its id gives back the record written:
/// the fields of the request, the generated id and the creation time, and
/// no update time.
pub proof fn create_then_get_hotel(db: DatabaseView, req: HotelSchemaIn, id: u128, now: Timestamp)
    requires
        db.wf(),
        !has_key(db.hotels, id),
    ensures
        ({
            let h = hotels::Model::created(req, id, now);
            &&& lookup(db.hotels.push(h), id) == Some(h)
            &&& h.id == id
            &&& h.name == req.name
            &&& h.address == req.address
            &&& h.rating_bits == req.rating_bits
            &&& h.description == req.description
            &&& h.created_at == now
            &&& h.updated_at is None
        }),
{
    lemma_push_fresh(db.hotels, hotels::Model::created(req, id, now));
}

/// In any table, once the row `id` is deleted, reading `id` finds nothing.
pub proof fn delete_then_get<T: Row>(rows: Seq<T>, id: u128)
    requires
        unique_keys(rows),
        has_key(rows, id),
    ensures
        lookup(rows.remove(position(rows, id)), id) is None,
{
    lemma_remove_key(rows, id);
}

/// In any table, deleting `id` a second time removes nothing: whether or not
/// the first delete removed a row, no row with key `id` is left after it.
pub proof fn delete_twice<T: Row>(rows: Seq<T>, id: u128)
    requires
        unique_keys(rows),
    ensures
        ({
            let after = if has_key(rows, id) {
                rows.remove(position(rows, id))
            } else {
                rows
            };
            !has_key(after, id)
        }),
{
    if has_key(rows, id) {
        lemma_remove_key(rows, id);
    }
}

/// Listing the rooms of a hotel that no room names gives an empty sequence.
pub proof fn rooms_of_empty_hotel(db: DatabaseView, hotel_id: u128)
    requires
        forall|i: int| 0 <= i < db.rooms.len() ==> (#[trigger] db.rooms[i]).hotel_id != hotel_id,
    ensures
        linked(db.rooms, EntityKind::Hotel, hotel_id) == Seq::<crate::models::rooms::Model>::empty(),
{
    assert forall|i: int| 0 <= i < db.rooms.len() implies !(#[trigger] db.rooms[i].refers_to(
        EntityKind::Hotel,
        hotel_id,
    )) by {
        assert(db.rooms[i].hotel_id != hotel_id);
    }
    lemma_linked_none(db.rooms, EntityKind::Hotel, hotel_id);
}

/// Every booking names a room and a guest that exist.
pub open spec fn bookings_intact(db: DatabaseView) -> bool {
    forall|i: int|
        0 <= i < db.bookings.len() ==> has_key(db.rooms, (#[trigger] db.bookings[i]).room_id)
            && has_key(db.guests, db.bookings[i].guest_id)
}

/// Where every booking names a room and a guest that exist, listing the
/// bookings of an unknown guest or of an unknown room gives an empty
/// sequence.
pub proof fn bookings_of_unknown_parent(db: DatabaseView, parent: EntityKind, id: u128)
    requires
        bookings_intact(db),
        parent == EntityKind::Guest || parent == EntityKind::Room,
        !db.has(parent, id),
    ensures
        linked(db.bookings, parent, id) == Seq::<bookings::Model>::empty(),
{
    assert forall|i: int| 0 <= i < db.bookings.len() implies !(
    #[trigger] db.bookings[i].refers_to(parent, id)) by {
        assert(has_key(db.rooms, db.bookings[i].room_id));
        assert(has_key(db.guests, db.bookings[i].guest_id));
    }
    lemma_linked_none(db.bookings, parent, id);
}

} // verus!
