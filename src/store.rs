//! The entity store: one table per entity, each an ordered list of rows with
//! unique primary keys, offering lookup by key, full scans, scans filtered by
//! a foreign key, insert, update and delete.
use vstd::prelude::*;
use crate::models::{bookings, guests, hotels, rooms};

verus! {

/// The four kinds of entity the store keeps.
#[derive(Clone, Copy, Debug, PartialEq, Eq, Structural)]
pub enum EntityKind {
    Hotel,
    Room,
    Guest,
    Booking,
}

/// A failure of the store itself.
#[derive(Clone, Copy, Debug, PartialEq, Eq, Structural)]
pub enum StoreError {
    /// An insert named a primary key that is already taken.
    DuplicateKey(u128),
    /// An update named a primary key that no row has.
    RecordNotFound(u128),
}

/// A row of a table: it has a primary key and may refer to parent rows.
pub trait Row: Sized {
    /// The row's primary key.
    spec fn key(&self) -> u128;

    /// Whether the row's foreign key for `parent` holds `id`.
    spec fn refers_to(&self, parent: EntityKind, id: u128) -> bool;

    fn id(&self) -> (r: u128)
        ensures
            r == self.key(),
    ;

    fn references(&self, parent: EntityKind, id: u128) -> (r: bool)
        ensures
            r == self.refers_to(parent, id),
    ;

    fn duplicate(&self) -> (r: Self)
        ensures
            r == *self,
    ;
}

/// Some row of `rows` has primary key `id`.
pub open spec fn has_key<T: Row>(rows: Seq<T>, id: u128) -> bool {
    exists|i: int| 0 <= i < rows.len() && #[trigger] rows[i].key() == id
}

/// No two rows of `rows` share a primary key.
pub open spec fn unique_keys<T: Row>(rows: Seq<T>) -> bool {
    forall|i: int, j: int|
        0 <= i < rows.len() && 0 <= j < rows.len() && #[trigger] rows[i].key()
            == #[trigger] rows[j].key() ==> i == j
}

/// The index of the row with primary key `id`.
pub open spec fn position<T: Row>(rows: Seq<T>, id: u128) -> int {
    choose|i: int| 0 <= i < rows.len() && #[trigger] rows[i].key() == id
}

/// The row with primary key `id`, if there is one.
pub open spec fn lookup<T: Row>(rows: Seq<T>, id: u128) -> Option<T> {
    if has_key(rows, id) {
        Some(rows[position(rows, id)])
    } else {
        None
    }
}

/// The rows whose foreign key for `parent` holds `id`, in table order.
pub open spec fn linked<T: Row>(rows: Seq<T>, parent: EntityKind, id: u128) -> Seq<T> {
    rows.filter(|r: T| r.refers_to(parent, id))
}

/// If the keys are unique, the row at index `i` is the one `position` finds.
pub proof fn lemma_position_unique<T: Row>(rows: Seq<T>, i: int)
    requires
        unique_keys(rows),
        0 <= i < rows.len(),
    ensures
        has_key(rows, rows[i].key()),
        position(rows, rows[i].key()) == i,
{
    let k = rows[i].key();
    assert(rows[i].key() == k);
    let j = position(rows, k);
    assert(rows[j].key() == rows[i].key());
}

/// One table of the store.
pub struct Table<T> {
    rows: Vec<T>,
}

impl<T: Row> View for Table<T> {
    type V = Seq<T>;

    closed spec fn view(&self) -> Seq<T> {
        self.rows@
    }
}

impl<T: Row> Table<T> {
    /// The table's invariant: primary keys are unique.
    pub open spec fn wf(&self) -> bool {
        unique_keys(self@)
    }

    /// An empty table.
    pub fn new() -> (r: Self)
        ensures
            r@ == Seq::<T>::empty(),
            r.wf(),
    {
        Table { rows: Vec::new() }
    }

    /// The index of the row with primary key `id`, if there is one.
    fn index_of(&self, id: u128) -> (r: Option<usize>)
        requires
            self.wf(),
        ensures
            r is None <==> !has_key(self@, id),
            r matches Some(i) ==> i == position(self@, id) && i < self@.len(),
    {
        let mut i: usize = 0;
        while i < self.rows.len()
            invariant
                self.wf(),
                i <= self.rows@.len(),
                forall|j: int| 0 <= j < i ==> #[trigger] self.rows@[j].key() != id,
            decreases self.rows@.len() - i,
        {
            if self.rows[i].id() == id {
                proof {
                    lemma_position_unique(self@, i as int);
                }
                return Some(i);
            }
            i = i + 1;
        }
        None
    }

    /// Whether a row with primary key `id` exists.
    pub fn contains(&self, id: u128) -> (r: bool)
        requires
            self.wf(),
        ensures
            r == has_key(self@, id),
    {
        self.index_of(id).is_some()
    }

    /// A copy of the row with primary key `id`, if there is one.
    pub fn find(&self, id: u128) -> (r: Option<T>)
        requires
            self.wf(),
        ensures
            r == lookup(self@, id),
    {
        match self.index_of(id) {
            Some(i) => Some(self.rows[i].duplicate()),
            None => None,
        }
    }

    /// Copies of all rows, in table order.
    pub fn all(&self) -> (r: Vec<T>)
        ensures
            r@ == self@,
    {
        let mut out: Vec<T> = Vec::new();
        let mut i: usize = 0;
        while i < self.rows.len()
            invariant
                i <= self.rows@.len(),
                out@ == self.rows@.subrange(0, i as int),
            decreases self.rows@.len() - i,
        {
            out.push(self.rows[i].duplicate());
            i = i + 1;
        }
        out
    }

    /// Copies of the rows whose foreign key for `parent` holds `id`, in
    /// table order.
    pub fn find_where(&self, parent: EntityKind, id: u128) -> (r: Vec<T>)
        ensures
            r@ == linked(self@, parent, id),
    {
        let mut out: Vec<T> = Vec::new();
        let mut i: usize = 0;
        while i < self.rows.len()
            invariant
                i <= self.rows@.len(),
                out@ == linked(self.rows@.subrange(0, i as int), parent, id),
            decreases self.rows@.len() - i,
        {
            let ghost before = self.rows@.subrange(0, i as int);
            let ghost after = self.rows@.subrange(0, i + 1);
            proof {
                assert(after.drop_last() == before);
                assert(after.last() == self.rows@[i as int]);
                reveal(Seq::filter);
            }
            if self.rows[i].references(parent, id) {
                out.push(self.rows[i].duplicate());
            }
            i = i + 1;
        }
        proof {
            assert(self.rows@.subrange(0, self.rows@.len() as int) == self.rows@);
        }
        out
    }

    /// Adds `row`, unless its primary key is taken.
    pub fn insert(&mut self, row: T) -> (r: Result<T, StoreError>)
        requires
            old(self).wf(),
        ensures
            final(self).wf(),
            has_key(old(self)@, row.key()) ==> r == Err::<T, StoreError>(
                StoreError::DuplicateKey(row.key()),
            ) && final(self)@ == old(self)@,
            !has_key(old(self)@, row.key()) ==> r == Ok::<T, StoreError>(row) && final(self)@
                == old(self)@.push(row),
    {
        let id = row.id();
        if self.contains(id) {
            return Err(StoreError::DuplicateKey(id));
        }
        let copy = row.duplicate();
        self.rows.push(row);
        proof {
            let s = self.rows@;
            assert forall|i: int, j: int|
                0 <= i < s.len() && 0 <= j < s.len() && #[trigger] s[i].key() == #[trigger] s[j].key()
                implies i == j by {
                if i < s.len() - 1 && j < s.len() - 1 {
                    assert(old(self)@[i] == s[i] && old(self)@[j] == s[j]);
                } else if i < s.len() - 1 {
                    assert(old(self)@[i] == s[i]);
                } else if j < s.len() - 1 {
                    assert(old(self)@[j] == s[j]);
                }
            }
        }
        Ok(copy)
    }

    /// Replaces the row whose primary key is that of `row` by `row`.
    pub fn update(&mut self, row: T) -> (r: Result<T, StoreError>)
        requires
            old(self).wf(),
        ensures
            final(self).wf(),
            !has_key(old(self)@, row.key()) ==> r == Err::<T, StoreError>(
                StoreError::RecordNotFound(row.key()),
            ) && final(self)@ == old(self)@,
            has_key(old(self)@, row.key()) ==> r == Ok::<T, StoreError>(row) && final(self)@
                == old(self)@.update(position(old(self)@, row.key()), row),
    {
        let id = row.id();
        match self.index_of(id) {
            None => Err(StoreError::RecordNotFound(id)),
            Some(i) => {
                let copy = row.duplicate();
                self.rows.set(i, row);
                proof {
                    let s = self.rows@;
                    assert forall|a: int, b: int|
                        0 <= a < s.len() && 0 <= b < s.len() && #[trigger] s[a].key()
                            == #[trigger] s[b].key() implies a == b by {
                        if a != i && b != i {
                            assert(old(self)@[a] == s[a] && old(self)@[b] == s[b]);
                        } else if a != i {
                            assert(old(self)@[a] == s[a]);
                            assert(old(self)@[i as int].key() == id);
                        } else if b != i {
                            assert(old(self)@[b] == s[b]);
                            assert(old(self)@[i as int].key() == id);
                        }
                    }
                }
                Ok(copy)
            },
        }
    }

    /// Removes the row with primary key `id`; the number of rows removed.
    pub fn delete(&mut self, id: u128) -> (r: u64)
        requires
            old(self).wf(),
        ensures
            final(self).wf(),
            !has_key(old(self)@, id) ==> r == 0 && final(self)@ == old(self)@,
            has_key(old(self)@, id) ==> r == 1 && final(self)@ == old(self)@.remove(
                position(old(self)@, id),
            ),
    {
        match self.index_of(id) {
            None => 0,
            Some(i) => {
                self.rows.remove(i);
                proof {
                    let s = self.rows@;
                    let o = old(self)@;
                    assert forall|a: int, b: int|
                        0 <= a < s.len() && 0 <= b < s.len() && #[trigger] s[a].key()
                            == #[trigger] s[b].key() implies a == b by {
                        let a2 = if a < i { a } else { a + 1 };
                        let b2 = if b < i { b } else { b + 1 };
                        assert(s[a] == o[a2]);
                        assert(s[b] == o[b2]);
                    }
                }
                1
            },
        }
    }
}

/// The contents of the whole store.
pub struct DatabaseView {
    pub hotels: Seq<hotels::Model>,
    pub rooms: Seq<rooms::Model>,
    pub guests: Seq<guests::Model>,
    pub bookings: Seq<bookings::Model>,
}

impl DatabaseView {
    /// Primary keys are unique within each table.
    pub open spec fn wf(self) -> bool {
        &&& unique_keys(self.hotels)
        &&& unique_keys(self.rooms)
        &&& unique_keys(self.guests)
        &&& unique_keys(self.bookings)
    }

    /// A row of kind `kind` with primary key `id` exists.
    pub open spec fn has(self, kind: EntityKind, id: u128) -> bool {
        match kind {
            EntityKind::Hotel => has_key(self.hotels, id),
            EntityKind::Room => has_key(self.rooms, id),
            EntityKind::Guest => has_key(self.guests, id),
            EntityKind::Booking => has_key(self.bookings, id),
        }
    }
}

/// The store: one table per entity. Deleting a row never touches the rows
/// of other tables that refer to it.
pub struct Database {
    pub hotels: Table<hotels::Model>,
    pub rooms: Table<rooms::Model>,
    pub guests: Table<guests::Model>,
    pub bookings: Table<bookings::Model>,
}

impl View for Database {
    type V = DatabaseView;

    open spec fn view(&self) -> DatabaseView {
        DatabaseView {
            hotels: self.hotels@,
            rooms: self.rooms@,
            guests: self.guests@,
            bookings: self.bookings@,
        }
    }
}

impl Database {
    pub open spec fn wf(&self) -> bool {
        &&& self.hotels.wf()
        &&& self.rooms.wf()
        &&& self.guests.wf()
        &&& self.bookings.wf()
    }

    /// An empty store.
    pub fn new() -> (r: Self)
        ensures
            r.wf(),
            r@.hotels.len() == 0,
            r@.rooms.len() == 0,
            r@.guests.len() == 0,
            r@.bookings.len() == 0,
    {
        Database {
            hotels: Table::new(),
            rooms: Table::new(),
            guests: Table::new(),
            bookings: Table::new(),
        }
    }

    /// Whether a row of kind `kind` with primary key `id` exists: the check
    /// made before a write that names a parent.
    pub fn entity_exists(&self, kind: EntityKind, id: u128) -> (r: bool)
        requires
            self.wf(),
        ensures
            r == self@.has(kind, id),
    {
        match kind {
            EntityKind::Hotel => self.hotels.contains(id),
            EntityKind::Room => self.rooms.contains(id),
            EntityKind::Guest => self.guests.contains(id),
            EntityKind::Booking => self.bookings.contains(id),
        }
    }
}

} // verus!
