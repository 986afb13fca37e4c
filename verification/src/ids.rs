//! Object identifiers assigned by the VTN.

use vstd::prelude::*;
use crate::copy::DeepCopy;

use crate::identifier::{identifier_rejects, valid_identifier, Identifier, IdentifierError};

verus! {

/// URL safe VTN assigned identifier of an event.
#[derive(Debug, PartialEq, Eq, Hash, PartialOrd, Ord)]
pub struct EventId(Identifier);

impl View for EventId {
    type V = Seq<char>;

    closed spec fn view(&self) -> Seq<char> {
        self.0@
    }
}

impl Clone for EventId {
    fn clone(&self) -> (r: Self)
        ensures
            r@ == self@,
    {
        EventId(self.0.clone())
    }
}

impl EventId {
    /// Wraps an identifier.
    pub fn from_identifier(id: Identifier) -> (r: Self)
        ensures
            r@ == id@,
    {
        EventId(id)
    }

    /// The identifier as text.
    pub fn as_str(&self) -> (r: &str)
        ensures
            r@ == self@,
            valid_identifier(r@),
    {
        self.0.as_str()
    }

    /// Checks `s` against the identifier rules.
    pub fn parse(s: &str) -> (r: Result<Self, IdentifierError>)
        ensures
            r is Ok <==> valid_identifier(s@),
            r matches Ok(id) ==> id@ == s@,
            r matches Err(e) ==> identifier_rejects(s, e),
    {
        match Identifier::parse(s) {
            Ok(id) => Ok(EventId(id)),
            Err(e) => Err(e),
        }
    }

    /// Compares two identifiers by their text.
    pub fn same_as(&self, other: &Self) -> (r: bool)
        ensures
            r == (self@ == other@),
    {
        self.0.same_as(&other.0)
    }
}

impl std::str::FromStr for EventId {
    type Err = IdentifierError;

    fn from_str(s: &str) -> (r: Result<Self, Self::Err>)
        ensures
            r is Ok <==> valid_identifier(s@),
            r matches Ok(id) ==> id@ == s@,
            r matches Err(e) ==> identifier_rejects(s, e),
    {
        EventId::parse(s)
    }
}

/// URL safe VTN assigned identifier of a program.
#[derive(Debug, PartialEq, Eq, Hash, PartialOrd, Ord)]
pub struct ProgramId(Identifier);

impl View for ProgramId {
    type V = Seq<char>;

    closed spec fn view(&self) -> Seq<char> {
        self.0@
    }
}

impl Clone for ProgramId {
    fn clone(&self) -> (r: Self)
        ensures
            r@ == self@,
    {
        ProgramId(self.0.clone())
    }
}

impl ProgramId {
    /// Wraps an identifier.
    pub fn from_identifier(id: Identifier) -> (r: Self)
        ensures
            r@ == id@,
    {
        ProgramId(id)
    }

    /// The identifier as text.
    pub fn as_str(&self) -> (r: &str)
        ensures
            r@ == self@,
            valid_identifier(r@),
    {
        self.0.as_str()
    }

    /// Checks `s` against the identifier rules.
    pub fn parse(s: &str) -> (r: Result<Self, IdentifierError>)
        ensures
            r is Ok <==> valid_identifier(s@),
            r matches Ok(id) ==> id@ == s@,
            r matches Err(e) ==> identifier_rejects(s, e),
    {
        match Identifier::parse(s) {
            Ok(id) => Ok(ProgramId(id)),
            Err(e) => Err(e),
        }
    }

    /// The identifier `s`, if it satisfies the identifier rules.
    pub fn new(s: &str) -> (r: Option<Self>)
        ensures
            r is Some <==> valid_identifier(s@),
            r matches Some(id) ==> id@ == s@,
    {
        match Identifier::parse(s) {
            Ok(id) => Some(ProgramId(id)),
            Err(_) => None,
        }
    }

    /// Compares two identifiers by their text.
    pub fn same_as(&self, other: &Self) -> (r: bool)
        ensures
            r == (self@ == other@),
    {
        self.0.same_as(&other.0)
    }
}

impl std::str::FromStr for ProgramId {
    type Err = IdentifierError;

    fn from_str(s: &str) -> (r: Result<Self, Self::Err>)
        ensures
            r is Ok <==> valid_identifier(s@),
            r matches Ok(id) ==> id@ == s@,
            r matches Err(e) ==> identifier_rejects(s, e),
    {
        ProgramId::parse(s)
    }
}

/// URL safe VTN assigned identifier of a report.
#[derive(Debug, PartialEq, Eq, Hash, PartialOrd, Ord)]
pub struct ReportId(Identifier);

impl View for ReportId {
    type V = Seq<char>;

    closed spec fn view(&self) -> Seq<char> {
        self.0@
    }
}

impl Clone for ReportId {
    fn clone(&self) -> (r: Self)
        ensures
            r@ == self@,
    {
        ReportId(self.0.clone())
    }
}

impl ReportId {
    /// Wraps an identifier.
    pub fn from_identifier(id: Identifier) -> (r: Self)
        ensures
            r@ == id@,
    {
        ReportId(id)
    }

    /// The identifier as text.
    pub fn as_str(&self) -> (r: &str)
        ensures
            r@ == self@,
            valid_identifier(r@),
    {
        self.0.as_str()
    }

    /// Checks `s` against the identifier rules.
    pub fn parse(s: &str) -> (r: Result<Self, IdentifierError>)
        ensures
            r is Ok <==> valid_identifier(s@),
            r matches Ok(id) ==> id@ == s@,
            r matches Err(e) ==> identifier_rejects(s, e),
    {
        match Identifier::parse(s) {
            Ok(id) => Ok(ReportId(id)),
            Err(e) => Err(e),
        }
    }

    /// Compares two identifiers by their text.
    pub fn same_as(&self, other: &Self) -> (r: bool)
        ensures
            r == (self@ == other@),
    {
        self.0.same_as(&other.0)
    }
}

impl std::str::FromStr for ReportId {
    type Err = IdentifierError;

    fn from_str(s: &str) -> (r: Result<Self, Self::Err>)
        ensures
            r is Ok <==> valid_identifier(s@),
            r matches Ok(id) ==> id@ == s@,
            r matches Err(e) ==> identifier_rejects(s, e),
    {
        ReportId::parse(s)
    }
}

/// URL safe VTN assigned identifier of a resource.
#[derive(Debug, PartialEq, Eq, Hash, PartialOrd, Ord)]
pub struct ResourceId(Identifier);

impl View for ResourceId {
    type V = Seq<char>;

    closed spec fn view(&self) -> Seq<char> {
        self.0@
    }
}

impl Clone for ResourceId {
    fn clone(&self) -> (r: Self)
        ensures
            r@ == self@,
    {
        ResourceId(self.0.clone())
    }
}

impl ResourceId {
    /// Wraps an identifier.
    pub fn from_identifier(id: Identifier) -> (r: Self)
        ensures
            r@ == id@,
    {
        ResourceId(id)
    }

    /// The identifier as text.
    pub fn as_str(&self) -> (r: &str)
        ensures
            r@ == self@,
            valid_identifier(r@),
    {
        self.0.as_str()
    }

    /// Checks `s` against the identifier rules.
    pub fn parse(s: &str) -> (r: Result<Self, IdentifierError>)
        ensures
            r is Ok <==> valid_identifier(s@),
            r matches Ok(id) ==> id@ == s@,
            r matches Err(e) ==> identifier_rejects(s, e),
    {
        match Identifier::parse(s) {
            Ok(id) => Ok(ResourceId(id)),
            Err(e) => Err(e),
        }
    }

    /// The identifier `s`, if it satisfies the identifier rules.
    pub fn new(s: &str) -> (r: Option<Self>)
        ensures
            r is Some <==> valid_identifier(s@),
            r matches Some(id) ==> id@ == s@,
    {
        match Identifier::parse(s) {
            Ok(id) => Some(ResourceId(id)),
            Err(_) => None,
        }
    }

    /// Compares two identifiers by their text.
    pub fn same_as(&self, other: &Self) -> (r: bool)
        ensures
            r == (self@ == other@),
    {
        self.0.same_as(&other.0)
    }
}

impl std::str::FromStr for ResourceId {
    type Err = IdentifierError;

    fn from_str(s: &str) -> (r: Result<Self, Self::Err>)
        ensures
            r is Ok <==> valid_identifier(s@),
            r matches Ok(id) ==> id@ == s@,
            r matches Err(e) ==> identifier_rejects(s, e),
    {
        ResourceId::parse(s)
    }
}

/// URL safe VTN assigned identifier of a VEN.
#[derive(Debug, PartialEq, Eq, Hash, PartialOrd, Ord)]
pub struct VenId(Identifier);

impl View for VenId {
    type V = Seq<char>;

    closed spec fn view(&self) -> Seq<char> {
        self.0@
    }
}

impl Clone for VenId {
    fn clone(&self) -> (r: Self)
        ensures
            r@ == self@,
    {
        VenId(self.0.clone())
    }
}

impl VenId {
    /// Wraps an identifier.
    pub fn from_identifier(id: Identifier) -> (r: Self)
        ensures
            r@ == id@,
    {
        VenId(id)
    }

    /// The identifier as text.
    pub fn as_str(&self) -> (r: &str)
        ensures
            r@ == self@,
            valid_identifier(r@),
    {
        self.0.as_str()
    }

    /// Checks `s` against the identifier rules.
    pub fn parse(s: &str) -> (r: Result<Self, IdentifierError>)
        ensures
            r is Ok <==> valid_identifier(s@),
            r matches Ok(id) ==> id@ == s@,
            r matches Err(e) ==> identifier_rejects(s, e),
    {
        match Identifier::parse(s) {
            Ok(id) => Ok(VenId(id)),
            Err(e) => Err(e),
        }
    }

    /// The identifier `s`, if it satisfies the identifier rules.
    pub fn new(s: &str) -> (r: Option<Self>)
        ensures
            r is Some <==> valid_identifier(s@),
            r matches Some(id) ==> id@ == s@,
    {
        match Identifier::parse(s) {
            Ok(id) => Some(VenId(id)),
            Err(_) => None,
        }
    }

    /// Compares two identifiers by their text.
    pub fn same_as(&self, other: &Self) -> (r: bool)
        ensures
            r == (self@ == other@),
    {
        self.0.same_as(&other.0)
    }
}

impl std::str::FromStr for VenId {
    type Err = IdentifierError;

    fn from_str(s: &str) -> (r: Result<Self, Self::Err>)
        ensures
            r is Ok <==> valid_identifier(s@),
            r matches Ok(id) ==> id@ == s@,
            r matches Err(e) ==> identifier_rejects(s, e),
    {
        VenId::parse(s)
    }
}


impl DeepView for EventId {
    type V = Seq<char>;

    open spec fn deep_view(&self) -> Seq<char> {
        self@
    }
}

impl DeepCopy for EventId {
    fn deep_copy(&self) -> (r: Self) {
        self.clone()
    }
}

impl DeepView for ProgramId {
    type V = Seq<char>;

    open spec fn deep_view(&self) -> Seq<char> {
        self@
    }
}

impl DeepCopy for ProgramId {
    fn deep_copy(&self) -> (r: Self) {
        self.clone()
    }
}

impl DeepView for ReportId {
    type V = Seq<char>;

    open spec fn deep_view(&self) -> Seq<char> {
        self@
    }
}

impl DeepCopy for ReportId {
    fn deep_copy(&self) -> (r: Self) {
        self.clone()
    }
}

impl DeepView for ResourceId {
    type V = Seq<char>;

    open spec fn deep_view(&self) -> Seq<char> {
        self@
    }
}

impl DeepCopy for ResourceId {
    fn deep_copy(&self) -> (r: Self) {
        self.clone()
    }
}

impl DeepView for VenId {
    type V = Seq<char>;

    open spec fn deep_view(&self) -> Seq<char> {
        self@
    }
}

impl DeepCopy for VenId {
    fn deep_copy(&self) -> (r: Self) {
        self.clone()
    }
}

} // verus!
