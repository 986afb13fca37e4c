//! Resources: energy devices or systems under the control of a VEN.

use vstd::prelude::*;

use crate::copy::DeepCopy;

use crate::ids::{ResourceId, VenId};
use crate::text::str_eq;
use crate::time::Timestamp;
use crate::values::ValuesMap;

verus! {

/// Discriminator of resource objects.
#[derive(Debug, Clone, Copy, PartialEq, Eq, Hash)]
pub enum ObjectType {
    /// Written `RESOURCE`.
    Resource,
}

impl View for ObjectType {
    type V = (nat, Seq<char>);

    /// The variant's position and, for a private value, its text.
    open spec fn view(&self) -> (nat, Seq<char>) {
        match self {
            ObjectType::Resource => (0nat, Seq::empty()),
        }
    }
}

/// The text a `ObjectType` is written as.
pub open spec fn resource_object_type_text(v: (nat, Seq<char>)) -> Seq<char> {
    if v.0 == 0 { "RESOURCE"@ } else { Seq::empty() }
}

/// The `ObjectType` a text denotes, by its position and private text.
pub open spec fn resource_object_type_of_text(s: Seq<char>) -> Option<(nat, Seq<char>)> {
    if s == "RESOURCE"@ { Some((0nat, Seq::empty())) } else { None }
}

/// The text is one of the names reserved for the named variants of `ObjectType`.
pub open spec fn resource_object_type_reserved(s: Seq<char>) -> bool {
    s == "RESOURCE"@
}

impl ObjectType {
    /// The text this value is written as on the wire.
    pub fn as_str(&self) -> (r: &str)
        ensures
            r@ == resource_object_type_text(self@),
    {
        match self {
            ObjectType::Resource => "RESOURCE",
        }
    }

    /// The value a text denotes, if it is one of the names.
    pub fn from_text(s: &str) -> (r: Option<Self>)
        ensures
            r matches Some(v) ==> resource_object_type_of_text(s@) == Some(v@),
            r is None <==> resource_object_type_of_text(s@) is None,
    {
        if str_eq(s, "RESOURCE") {
            Some(ObjectType::Resource)
        } else {
            None
        }
    }

    /// The position of the variant.
    pub fn variant_index(&self) -> (r: u8)
        ensures
            r as nat == self@.0,
    {
        match self {
            ObjectType::Resource => 0,
        }
    }

    /// Compares two values variant by variant, private values by their text.
    pub fn same_as(&self, other: &Self) -> (r: bool)
        ensures
            r == (self@ == other@),
    {
        self.variant_index() == other.variant_index()
    }

    /// The default value, `Resource`.
    pub fn default_value() -> (r: Self)
        ensures
            r@ == ObjectType::Resource@,
    {
        ObjectType::Resource
    }

}

/// Reading back the text of a `ObjectType` gives the value again, unless the
/// value is a private one spelled like a named variant.
pub proof fn lemma_resource_object_type_text_roundtrip(v: ObjectType)
    ensures
        resource_object_type_of_text(resource_object_type_text(v@)) == Some(v@),
{
    reveal_strlit("RESOURCE");
    match v {
        ObjectType::Resource => {
        },
    }
}

/// Every text that denotes a `ObjectType` is the text of what it denotes.
pub proof fn lemma_resource_object_type_parse_then_text(s: Seq<char>)
    requires
        resource_object_type_of_text(s) is Some,
    ensures
        resource_object_type_text(resource_object_type_of_text(s)->0) == s,
{
}


/// The content of a resource, as sent to create or update it.
#[derive(Debug, Clone, PartialEq)]
pub struct ResourceContent {
    pub object_type: Option<ObjectType>,
    /// User generated identifier (1..=128 characters on the wire).
    pub resource_name: String,
    /// Values maps describing attributes.
    pub attributes: Option<Vec<ValuesMap>>,
    /// Values maps describing target criteria.
    pub targets: Option<Vec<ValuesMap>>,
}

/// A resource as stored by the VTN.
#[derive(Debug, Clone, PartialEq)]
pub struct Resource {
    pub id: ResourceId,
    pub created_date_time: Timestamp,
    pub modification_date_time: Timestamp,
    /// The VEN the resource belongs to.
    pub ven_id: VenId,
    pub content: ResourceContent,
}


impl DeepView for ObjectType {
    type V = (nat, Seq<char>);

    open spec fn deep_view(&self) -> (nat, Seq<char>) {
        self@
    }
}

impl DeepCopy for ObjectType {
    fn deep_copy(&self) -> (r: Self) {
        *self
    }
}

} // verus!
