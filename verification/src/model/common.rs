//! Models shared for usage by more than one endpoint.

use vstd::prelude::*;
use serde_json::Value as JsonValue;
use crate::clone::FaithfulClone;
use crate::json::{Json, value_as_object};
use crate::serde::{FromJson, field_ok, plain_field, read_or, read_text, text_field};

verus! {

/// A struct representing a brawler's star power.
#[derive(Debug, Hash, PartialEq, Eq)]
pub struct StarPower {
    /// The star power name.
    pub name: String,
    /// The star power's id (an arbitrary number).
    pub id: usize,
}

impl Clone for StarPower {
    /// A clone holds the same as this `StarPower`.
    fn clone(&self) -> (r: StarPower)
        ensures
            r.same(self),
    {
        StarPower {
            name: self.name.clone(),
            id: self.id,
        }
    }
}

impl FaithfulClone for StarPower {
    open spec fn same(&self, other: &StarPower) -> bool {
        &&& self.name@ == other.name@
        &&& self.id == other.id
    }

    proof fn same_is_reflexive(value: StarPower) {
    }

    proof fn clone_is_same(value: StarPower, copy: StarPower) {
        if value == copy {
            Self::same_is_reflexive(value);
        }
    }
}

impl StarPower {
    /// Whether this is the instance with initial values.
    pub open spec fn is_default(&self) -> bool {
        &&& self.name@.len() == 0
        &&& self.id == 0
    }
}

impl Default for StarPower {
    /// Returns an instance of `StarPower` with initial values.
    fn default() -> (r: StarPower)
        ensures
            r.is_default(),
    {
        StarPower {
            name: String::new(),
            id: 0,
        }
    }
}

impl FromJson for StarPower {
    open spec fn json_ok(json: Json) -> bool {
        json matches Json::Object(members) && {
            &&& field_ok::<String>(members, "name"@)
            &&& field_ok::<usize>(members, "id"@)
        }
    }

    open spec fn json_matches(&self, json: Json) -> bool {
        json matches Json::Object(members) && {
            &&& text_field(self.name, members, "name"@)
            &&& plain_field(self.id, members, "id"@, 0)
        }
    }

    fn from_json(value: &JsonValue) -> (r: Option<StarPower>) {
        let object = value_as_object(value)?;
        let name = read_text(object, "name")?;
        let id = read_or::<usize>(object, "id", 0)?;
        Some(StarPower { name, id })
    }
}

impl StarPower {
    /// A field that the object lacks has its initial value in the `StarPower` that
    /// the object reads as.
    pub proof fn absent_fields_are_initial(self, members: Map<Seq<char>, Json>)
        requires
            self.json_matches(Json::Object(members)),
        ensures
            !members.contains_key("name"@) ==> self.name@ == Seq::<char>::empty(),
            !members.contains_key("id"@) ==> self.id == 0,
    {
        assert(self.name@.len() == 0 ==> self.name@ =~= Seq::<char>::empty());
    }

    /// An object that holds none of the fields can be read, and reads as the
    /// `StarPower` with initial values.
    pub proof fn reads_without_fields(self)
        ensures
            StarPower::json_ok(Json::Object(Map::empty())),
            self.json_matches(Json::Object(Map::empty())) ==> self.is_default(),
    {
    }
}

} // verus!
