//! The fields of a guest that a caller writes, and a guest as it is shown.
use vstd::prelude::*;
use crate::clock::Timestamp;
use crate::models::guests::Model;

verus! {

/// The fields of a guest that a create or an update sets.
#[derive(Debug, PartialEq)]
pub struct GuestSchemaIn {
    pub first_name: String,
    pub last_name: String,
    pub email: String,
    pub phone: Option<String>,
}

/// A guest as the services return it: a missing phone shows as empty text.
#[derive(Debug, PartialEq)]
pub struct GuestSchemaOut {
    pub id: u128,
    pub first_name: String,
    pub last_name: String,
    pub email: String,
    pub phone: String,
    pub created_at: Timestamp,
    pub updated_at: Option<Timestamp>,
}

impl GuestSchemaOut {
    /// `self` shows the row `m`.
    pub open spec fn shows(self, m: Model) -> bool {
        &&& self.id == m.id
        &&& self.first_name == m.first_name
        &&& self.last_name == m.last_name
        &&& self.email == m.email
        &&& self.phone@ == match m.phone {
            Some(p) => p@,
            None => Seq::<char>::empty(),
        }
        &&& self.created_at == m.created_at
        &&& self.updated_at == m.updated_at
    }

    /// The row `m` as it is shown.
    pub fn from_model(m: Model) -> (r: Self)
        ensures
            r.shows(m),
    {
        GuestSchemaOut {
            id: m.id,
            first_name: m.first_name,
            last_name: m.last_name,
            email: m.email,
            phone: match m.phone {
                Some(p) => p,
                None => String::new(),
            },
            created_at: m.created_at,
            updated_at: m.updated_at,
        }
    }
}

} // verus!
