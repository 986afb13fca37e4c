//! VENs: clients in the VEN role.

use vstd::prelude::*;

use crate::copy::DeepCopy;

use crate::ids::VenId;
use crate::resource::Resource;
use crate::text::str_eq;
use crate::time::Timestamp;
use crate::values::ValuesMap;

verus! {

/// Discriminator of VEN objects.
#[derive(Debug, Clone, Copy, PartialEq, Eq, Hash)]
pub enum ObjectType {
    /// Written `VEN`.
    Ven,
}

impl View for ObjectType {
    type V = (nat, Seq<char>);

    /// The variant's position and, for a private value, its text.
    open spec fn view(&self) -> (nat, Seq<char>) {
        match self {
            ObjectType::Ven => (0nat, Seq::empty()),
        }
    }
}

/// The text a `ObjectType` is written as.
pub open spec fn ven_object_type_text(v: (nat, Seq<char>)) -> Seq<char> {
    if v.0 == 0 { "VEN"@ } else { Seq::empty() }
}

/// The `ObjectType` a text denotes, by its position and private text.
pub open spec fn ven_object_type_of_text(s: Seq<char>) -> Option<(nat, Seq<char>)> {
    if s == "VEN"@ { Some((0nat, Seq::empty())) } else { None }
}

/// The text is one of the names reserved for the named variants of `ObjectType`.
pub open spec fn ven_object_type_reserved(s: Seq<char>) -> bool {
    s == "VEN"@
}

impl ObjectType {
    /// The text this value is written as on the wire.
    pub fn as_str(&self) -> (r: &str)
        ensures
            r@ == ven_object_type_text(self@),
    {
        match self {
            ObjectType::Ven => "VEN",
        }
    }

    /// The value a text denotes, if it is one of the names.
    pub fn from_text(s: &str) -> (r: Option<Self>)
        ensures
            r matches Some(v) ==> ven_object_type_of_text(s@) == Some(v@),
            r is None <==> ven_object_type_of_text(s@) is None,
    {
        if str_eq(s, "VEN") {
            Some(ObjectType::Ven)
        } else {
            None
        }
    }

    /// The position of the variant.
    pub fn variant_index(&self) -> (r: u8)
        ensures
            r as nat == self@.0,
    {
        match self {
            ObjectType::Ven => 0,
        }
    }

    /// Compares two values variant by variant, private values by their text.
    pub fn same_as(&self, other: &Self) -> (r: bool)
        ensures
            r == (self@ == other@),
    {
        self.variant_index() == other.variant_index()
    }

    /// The default value, `Ven`.
    pub fn default_value() -> (r: Self)
        ensures
            r@ == ObjectType::Ven@,
    {
        ObjectType::Ven
    }

}

/// Reading back the text of a `ObjectType` gives the value again, unless the
/// value is a private one spelled like a named variant.
pub proof fn lemma_ven_object_type_text_roundtrip(v: ObjectType)
    ensures
        ven_object_type_of_text(ven_object_type_text(v@)) == Some(v@),
{
    reveal_strlit("VEN");
    match v {
        ObjectType::Ven => {
        },
    }
}

/// Every text that denotes a `ObjectType` is the text of what it denotes.
pub proof fn lemma_ven_object_type_parse_then_text(s: Seq<char>)
    requires
        ven_object_type_of_text(s) is Some,
    ensures
        ven_object_type_text(ven_object_type_of_text(s)->0) == s,
{
}


/// The content of a VEN, as sent to create or update it.
#[derive(Debug, Clone, PartialEq)]
pub struct VenContent {
    pub object_type: Option<ObjectType>,
    /// User generated identifier (1..=128 characters on the wire).
    pub ven_name: String,
    /// Values maps describing attributes.
    pub attributes: Option<Vec<ValuesMap>>,
    /// Values maps describing target criteria.
    pub targets: Option<Vec<ValuesMap>>,
    /// The end devices or systems of the VEN.
    pub resources: Option<Vec<Resource>>,
}

/// A VEN as stored by the VTN.
#[derive(Debug, Clone, PartialEq)]
pub struct Ven {
    pub id: VenId,
    pub created_date_time: Timestamp,
    pub modification_date_time: Timestamp,
    pub content: VenContent,
}


impl DeepView for ObjectType {
    type V = (nat, Seq<char>);

    open spec fn deep_view(&self) -> (nat, Seq<char>) {
        self@
    }
}

impl DeepCopy for ObjectType {
    fn deep_copy(&self) -> (r: Self) {
        *self
    }
}

} // verus!
