//! The enumerations of the wire format and their textual forms.

use vstd::prelude::*;

use crate::copy::DeepCopy;
use crate::identifier::IdentifierError;
use crate::text::str_eq;
use vstd::string::StringSliceAdditionalSpecFns;
use vstd::utf8::encode_utf8;

verus! {

/// Operating state of a resource.
#[derive(Debug, Clone, PartialEq, Eq)]
pub enum OperatingState {
    /// Written `NORMAL`.
    Normal,
    /// Written `ERROR`.
    Error,
    /// Written `IDLE_NORMAL`.
    IdleNormal,
    /// Written `RUNNING_NORMAL`.
    RunningNormal,
    /// Written `RUNNING_CURTAILED`.
    RunningCurtailed,
    /// Written `RUNNING_HEIGHTENED`.
    RunningHeightened,
    /// Written `IDLE_CURTAILED`.
    IdleCurtailed,
    /// Written `SGD_ERROR_CONDITION`.
    SGDErrorCondition,
    /// Written `IDLE_HEIGHTENED`.
    IdleHeightened,
    /// Written `IDLE_OPTED_OUT`.
    IdleOptedOut,
    /// Written `RUNNING_OPTED_OUT`.
    RunningOptedOut,
    /// An application specific, privately defined value.
    Private(String),
}

impl View for OperatingState {
    type V = (nat, Seq<char>);

    /// The variant's position and, for a private value, its text.
    open spec fn view(&self) -> (nat, Seq<char>) {
        match self {
            OperatingState::Normal => (0nat, Seq::empty()),
            OperatingState::Error => (1nat, Seq::empty()),
            OperatingState::IdleNormal => (2nat, Seq::empty()),
            OperatingState::RunningNormal => (3nat, Seq::empty()),
            OperatingState::RunningCurtailed => (4nat, Seq::empty()),
            OperatingState::RunningHeightened => (5nat, Seq::empty()),
            OperatingState::IdleCurtailed => (6nat, Seq::empty()),
            OperatingState::SGDErrorCondition => (7nat, Seq::empty()),
            OperatingState::IdleHeightened => (8nat, Seq::empty()),
            OperatingState::IdleOptedOut => (9nat, Seq::empty()),
            OperatingState::RunningOptedOut => (10nat, Seq::empty()),
            OperatingState::Private(text) => (11nat, text@),
        }
    }
}

/// The text a `OperatingState` is written as.
pub open spec fn operating_state_text(v: (nat, Seq<char>)) -> Seq<char> {
    if v.0 == 0 { "NORMAL"@ } else if v.0 == 1 { "ERROR"@ } else if v.0 == 2 { "IDLE_NORMAL"@ } else if v.0 == 3 { "RUNNING_NORMAL"@ } else if v.0 == 4 { "RUNNING_CURTAILED"@ } else if v.0 == 5 { "RUNNING_HEIGHTENED"@ } else if v.0 == 6 { "IDLE_CURTAILED"@ } else if v.0 == 7 { "SGD_ERROR_CONDITION"@ } else if v.0 == 8 { "IDLE_HEIGHTENED"@ } else if v.0 == 9 { "IDLE_OPTED_OUT"@ } else if v.0 == 10 { "RUNNING_OPTED_OUT"@ } else { v.1 }
}

/// The `OperatingState` a text denotes, by its position and private text.
pub open spec fn operating_state_of_text(s: Seq<char>) -> Option<(nat, Seq<char>)> {
    if s == "NORMAL"@ { Some((0nat, Seq::empty())) } else if s == "ERROR"@ { Some((1nat, Seq::empty())) } else if s == "IDLE_NORMAL"@ { Some((2nat, Seq::empty())) } else if s == "RUNNING_NORMAL"@ { Some((3nat, Seq::empty())) } else if s == "RUNNING_CURTAILED"@ { Some((4nat, Seq::empty())) } else if s == "RUNNING_HEIGHTENED"@ { Some((5nat, Seq::empty())) } else if s == "IDLE_CURTAILED"@ { Some((6nat, Seq::empty())) } else if s == "SGD_ERROR_CONDITION"@ { Some((7nat, Seq::empty())) } else if s == "IDLE_HEIGHTENED"@ { Some((8nat, Seq::empty())) } else if s == "IDLE_OPTED_OUT"@ { Some((9nat, Seq::empty())) } else if s == "RUNNING_OPTED_OUT"@ { Some((10nat, Seq::empty())) } else { Some((11nat, s)) }
}

/// The text is one of the names reserved for the named variants of `OperatingState`.
pub open spec fn operating_state_reserved(s: Seq<char>) -> bool {
    s == "NORMAL"@ || s == "ERROR"@ || s == "IDLE_NORMAL"@ || s == "RUNNING_NORMAL"@ || s == "RUNNING_CURTAILED"@ || s == "RUNNING_HEIGHTENED"@ || s == "IDLE_CURTAILED"@ || s == "SGD_ERROR_CONDITION"@ || s == "IDLE_HEIGHTENED"@ || s == "IDLE_OPTED_OUT"@ || s == "RUNNING_OPTED_OUT"@
}

impl OperatingState {
    /// The text this value is written as on the wire.
    pub fn as_str(&self) -> (r: &str)
        ensures
            r@ == operating_state_text(self@),
    {
        match self {
            OperatingState::Normal => "NORMAL",
            OperatingState::Error => "ERROR",
            OperatingState::IdleNormal => "IDLE_NORMAL",
            OperatingState::RunningNormal => "RUNNING_NORMAL",
            OperatingState::RunningCurtailed => "RUNNING_CURTAILED",
            OperatingState::RunningHeightened => "RUNNING_HEIGHTENED",
            OperatingState::IdleCurtailed => "IDLE_CURTAILED",
            OperatingState::SGDErrorCondition => "SGD_ERROR_CONDITION",
            OperatingState::IdleHeightened => "IDLE_HEIGHTENED",
            OperatingState::IdleOptedOut => "IDLE_OPTED_OUT",
            OperatingState::RunningOptedOut => "RUNNING_OPTED_OUT",
            OperatingState::Private(text) => text.as_str(),
        }
    }

    /// The value a text denotes: a named variant when the text is its name,
    /// a private value otherwise.
    pub fn from_text(s: &str) -> (r: Self)
        ensures
            operating_state_of_text(s@) == Some(r@),
    {
        if str_eq(s, "NORMAL") {
            OperatingState::Normal
        } else if str_eq(s, "ERROR") {
            OperatingState::Error
        } else if str_eq(s, "IDLE_NORMAL") {
            OperatingState::IdleNormal
        } else if str_eq(s, "RUNNING_NORMAL") {
            OperatingState::RunningNormal
        } else if str_eq(s, "RUNNING_CURTAILED") {
            OperatingState::RunningCurtailed
        } else if str_eq(s, "RUNNING_HEIGHTENED") {
            OperatingState::RunningHeightened
        } else if str_eq(s, "IDLE_CURTAILED") {
            OperatingState::IdleCurtailed
        } else if str_eq(s, "SGD_ERROR_CONDITION") {
            OperatingState::SGDErrorCondition
        } else if str_eq(s, "IDLE_HEIGHTENED") {
            OperatingState::IdleHeightened
        } else if str_eq(s, "IDLE_OPTED_OUT") {
            OperatingState::IdleOptedOut
        } else if str_eq(s, "RUNNING_OPTED_OUT") {
            OperatingState::RunningOptedOut
        } else {
            OperatingState::Private(s.to_owned())
        }
    }

    /// The position of the variant.
    pub fn variant_index(&self) -> (r: u8)
        ensures
            r as nat == self@.0,
    {
        match self {
            OperatingState::Normal => 0,
            OperatingState::Error => 1,
            OperatingState::IdleNormal => 2,
            OperatingState::RunningNormal => 3,
            OperatingState::RunningCurtailed => 4,
            OperatingState::RunningHeightened => 5,
            OperatingState::IdleCurtailed => 6,
            OperatingState::SGDErrorCondition => 7,
            OperatingState::IdleHeightened => 8,
            OperatingState::IdleOptedOut => 9,
            OperatingState::RunningOptedOut => 10,
            OperatingState::Private(_) => 11,
        }
    }

    /// Compares two values variant by variant, private values by their text.
    pub fn same_as(&self, other: &Self) -> (r: bool)
        ensures
            r == (self@ == other@),
    {
        match self {
            OperatingState::Private(a) => match other {
                OperatingState::Private(b) => str_eq(a.as_str(), b.as_str()),
                _ => false,
            },
            _ => self.variant_index() == other.variant_index(),
        }
    }

    /// A copy of this value.
    pub fn duplicate(&self) -> (r: Self)
        ensures
            r@ == self@,
    {
        match self {
            OperatingState::Normal => OperatingState::Normal,
            OperatingState::Error => OperatingState::Error,
            OperatingState::IdleNormal => OperatingState::IdleNormal,
            OperatingState::RunningNormal => OperatingState::RunningNormal,
            OperatingState::RunningCurtailed => OperatingState::RunningCurtailed,
            OperatingState::RunningHeightened => OperatingState::RunningHeightened,
            OperatingState::IdleCurtailed => OperatingState::IdleCurtailed,
            OperatingState::SGDErrorCondition => OperatingState::SGDErrorCondition,
            OperatingState::IdleHeightened => OperatingState::IdleHeightened,
            OperatingState::IdleOptedOut => OperatingState::IdleOptedOut,
            OperatingState::RunningOptedOut => OperatingState::RunningOptedOut,
            OperatingState::Private(text) => OperatingState::Private(text.clone()),
        }
    }

}

/// Reading back the text of a `OperatingState` gives the value again, unless the
/// value is a private one spelled like a named variant.
pub proof fn lemma_operating_state_text_roundtrip(v: OperatingState)
    requires
        v is Private ==> !operating_state_reserved(v@.1),
    ensures
        operating_state_of_text(operating_state_text(v@)) == Some(v@),
{
    reveal_strlit("ERROR");
    reveal_strlit("IDLE_CURTAILED");
    reveal_strlit("IDLE_HEIGHTENED");
    reveal_strlit("IDLE_NORMAL");
    reveal_strlit("IDLE_OPTED_OUT");
    reveal_strlit("NORMAL");
    reveal_strlit("RUNNING_CURTAILED");
    reveal_strlit("RUNNING_HEIGHTENED");
    reveal_strlit("RUNNING_NORMAL");
    reveal_strlit("RUNNING_OPTED_OUT");
    reveal_strlit("SGD_ERROR_CONDITION");
    match v {
        OperatingState::Normal => {
        },
        OperatingState::Error => {
            assert("ERROR"@.len() != "NORMAL"@.len());
        },
        OperatingState::IdleNormal => {
            assert("IDLE_NORMAL"@.len() != "NORMAL"@.len());
            assert("IDLE_NORMAL"@.len() != "ERROR"@.len());
        },
        OperatingState::RunningNormal => {
            assert("RUNNING_NORMAL"@.len() != "NORMAL"@.len());
            assert("RUNNING_NORMAL"@.len() != "ERROR"@.len());
            assert("RUNNING_NORMAL"@.len() != "IDLE_NORMAL"@.len());
        },
        OperatingState::RunningCurtailed => {
            assert("RUNNING_CURTAILED"@.len() != "NORMAL"@.len());
            assert("RUNNING_CURTAILED"@.len() != "ERROR"@.len());
            assert("RUNNING_CURTAILED"@.len() != "IDLE_NORMAL"@.len());
            assert("RUNNING_CURTAILED"@.len() != "RUNNING_NORMAL"@.len());
        },
        OperatingState::RunningHeightened => {
            assert("RUNNING_HEIGHTENED"@.len() != "NORMAL"@.len());
            assert("RUNNING_HEIGHTENED"@.len() != "ERROR"@.len());
            assert("RUNNING_HEIGHTENED"@.len() != "IDLE_NORMAL"@.len());
            assert("RUNNING_HEIGHTENED"@.len() != "RUNNING_NORMAL"@.len());
            assert("RUNNING_HEIGHTENED"@.len() != "RUNNING_CURTAILED"@.len());
        },
        OperatingState::IdleCurtailed => {
            assert("IDLE_CURTAILED"@.len() != "NORMAL"@.len());
            assert("IDLE_CURTAILED"@.len() != "ERROR"@.len());
            assert("IDLE_CURTAILED"@.len() != "IDLE_NORMAL"@.len());
            assert("IDLE_CURTAILED"@[0] != "RUNNING_NORMAL"@[0]);
            assert("IDLE_CURTAILED"@.len() != "RUNNING_CURTAILED"@.len());
            assert("IDLE_CURTAILED"@.len() != "RUNNING_HEIGHTENED"@.len());
        },
        OperatingState::SGDErrorCondition => {
            assert("SGD_ERROR_CONDITION"@.len() != "NORMAL"@.len());
            assert("SGD_ERROR_CONDITION"@.len() != "ERROR"@.len());
            assert("SGD_ERROR_CONDITION"@.len() != "IDLE_NORMAL"@.len());
            assert("SGD_ERROR_CONDITION"@.len() != "RUNNING_NORMAL"@.len());
            assert("SGD_ERROR_CONDITION"@.len() != "RUNNING_CURTAILED"@.len());
            assert("SGD_ERROR_CONDITION"@.len() != "RUNNING_HEIGHTENED"@.len());
            assert("SGD_ERROR_CONDITION"@.len() != "IDLE_CURTAILED"@.len());
        },
        OperatingState::IdleHeightened => {
            assert("IDLE_HEIGHTENED"@.len() != "NORMAL"@.len());
            assert("IDLE_HEIGHTENED"@.len() != "ERROR"@.len());
            assert("IDLE_HEIGHTENED"@.len() != "IDLE_NORMAL"@.len());
            assert("IDLE_HEIGHTENED"@.len() != "RUNNING_NORMAL"@.len());
            assert("IDLE_HEIGHTENED"@.len() != "RUNNING_CURTAILED"@.len());
            assert("IDLE_HEIGHTENED"@.len() != "RUNNING_HEIGHTENED"@.len());
            assert("IDLE_HEIGHTENED"@.len() != "IDLE_CURTAILED"@.len());
            assert("IDLE_HEIGHTENED"@.len() != "SGD_ERROR_CONDITION"@.len());
        },
        OperatingState::IdleOptedOut => {
            assert("IDLE_OPTED_OUT"@.len() != "NORMAL"@.len());
            assert("IDLE_OPTED_OUT"@.len() != "ERROR"@.len());
            assert("IDLE_OPTED_OUT"@.len() != "IDLE_NORMAL"@.len());
            assert("IDLE_OPTED_OUT"@[0] != "RUNNING_NORMAL"@[0]);
            assert("IDLE_OPTED_OUT"@.len() != "RUNNING_CURTAILED"@.len());
            assert("IDLE_OPTED_OUT"@.len() != "RUNNING_HEIGHTENED"@.len());
            assert("IDLE_OPTED_OUT"@[5] != "IDLE_CURTAILED"@[5]);
            assert("IDLE_OPTED_OUT"@.len() != "SGD_ERROR_CONDITION"@.len());
            assert("IDLE_OPTED_OUT"@.len() != "IDLE_HEIGHTENED"@.len());
        },
        OperatingState::RunningOptedOut => {
            assert("RUNNING_OPTED_OUT"@.len() != "NORMAL"@.len());
            assert("RUNNING_OPTED_OUT"@.len() != "ERROR"@.len());
            assert("RUNNING_OPTED_OUT"@.len() != "IDLE_NORMAL"@.len());
            assert("RUNNING_OPTED_OUT"@.len() != "RUNNING_NORMAL"@.len());
            assert("RUNNING_OPTED_OUT"@[8] != "RUNNING_CURTAILED"@[8]);
            assert("RUNNING_OPTED_OUT"@.len() != "RUNNING_HEIGHTENED"@.len());
            assert("RUNNING_OPTED_OUT"@.len() != "IDLE_CURTAILED"@.len());
            assert("RUNNING_OPTED_OUT"@.len() != "SGD_ERROR_CONDITION"@.len());
            assert("RUNNING_OPTED_OUT"@.len() != "IDLE_HEIGHTENED"@.len());
            assert("RUNNING_OPTED_OUT"@.len() != "IDLE_OPTED_OUT"@.len());
        },
        OperatingState::Private(_) => {},
    }
}

/// Every text that denotes a `OperatingState` is the text of what it denotes.
pub proof fn lemma_operating_state_parse_then_text(s: Seq<char>)
    requires
        operating_state_of_text(s) is Some,
    ensures
        operating_state_text(operating_state_of_text(s)->0) == s,
{
}

/// Quality of a reported data item.
#[derive(Debug, Clone, PartialEq, Eq)]
pub enum DataQuality {
    /// Written `OK`.
    Okay,
    /// Written `MISSING`.
    Missing,
    /// Written `ESTIMATED`.
    Estimated,
    /// Written `BAD`.
    Bad,
    /// An application specific, privately defined value.
    Private(String),
}

impl View for DataQuality {
    type V = (nat, Seq<char>);

    /// The variant's position and, for a private value, its text.
    open spec fn view(&self) -> (nat, Seq<char>) {
        match self {
            DataQuality::Okay => (0nat, Seq::empty()),
            DataQuality::Missing => (1nat, Seq::empty()),
            DataQuality::Estimated => (2nat, Seq::empty()),
            DataQuality::Bad => (3nat, Seq::empty()),
            DataQuality::Private(text) => (4nat, text@),
        }
    }
}

/// The text a `DataQuality` is written as.
pub open spec fn data_quality_text(v: (nat, Seq<char>)) -> Seq<char> {
    if v.0 == 0 { "OK"@ } else if v.0 == 1 { "MISSING"@ } else if v.0 == 2 { "ESTIMATED"@ } else if v.0 == 3 { "BAD"@ } else { v.1 }
}

/// The `DataQuality` a text denotes, by its position and private text.
pub open spec fn data_quality_of_text(s: Seq<char>) -> Option<(nat, Seq<char>)> {
    if s == "OK"@ { Some((0nat, Seq::empty())) } else if s == "MISSING"@ { Some((1nat, Seq::empty())) } else if s == "ESTIMATED"@ { Some((2nat, Seq::empty())) } else if s == "BAD"@ { Some((3nat, Seq::empty())) } else { Some((4nat, s)) }
}

/// The text is one of the names reserved for the named variants of `DataQuality`.
pub open spec fn data_quality_reserved(s: Seq<char>) -> bool {
    s == "OK"@ || s == "MISSING"@ || s == "ESTIMATED"@ || s == "BAD"@
}

impl DataQuality {
    /// The text this value is written as on the wire.
    pub fn as_str(&self) -> (r: &str)
        ensures
            r@ == data_quality_text(self@),
    {
        match self {
            DataQuality::Okay => "OK",
            DataQuality::Missing => "MISSING",
            DataQuality::Estimated => "ESTIMATED",
            DataQuality::Bad => "BAD",
            DataQuality::Private(text) => text.as_str(),
        }
    }

    /// The value a text denotes: a named variant when the text is its name,
    /// a private value otherwise.
    pub fn from_text(s: &str) -> (r: Self)
        ensures
            data_quality_of_text(s@) == Some(r@),
    {
        if str_eq(s, "OK") {
            DataQuality::Okay
        } else if str_eq(s, "MISSING") {
            DataQuality::Missing
        } else if str_eq(s, "ESTIMATED") {
            DataQuality::Estimated
        } else if str_eq(s, "BAD") {
            DataQuality::Bad
        } else {
            DataQuality::Private(s.to_owned())
        }
    }

    /// The position of the variant.
    pub fn variant_index(&self) -> (r: u8)
        ensures
            r as nat == self@.0,
    {
        match self {
            DataQuality::Okay => 0,
            DataQuality::Missing => 1,
            DataQuality::Estimated => 2,
            DataQuality::Bad => 3,
            DataQuality::Private(_) => 4,
        }
    }

    /// Compares two values variant by variant, private values by their text.
    pub fn same_as(&self, other: &Self) -> (r: bool)
        ensures
            r == (self@ == other@),
    {
        match self {
            DataQuality::Private(a) => match other {
                DataQuality::Private(b) => str_eq(a.as_str(), b.as_str()),
                _ => false,
            },
            _ => self.variant_index() == other.variant_index(),
        }
    }

    /// A copy of this value.
    pub fn duplicate(&self) -> (r: Self)
        ensures
            r@ == self@,
    {
        match self {
            DataQuality::Okay => DataQuality::Okay,
            DataQuality::Missing => DataQuality::Missing,
            DataQuality::Estimated => DataQuality::Estimated,
            DataQuality::Bad => DataQuality::Bad,
            DataQuality::Private(text) => DataQuality::Private(text.clone()),
        }
    }

}

/// Reading back the text of a `DataQuality` gives the value again, unless the
/// value is a private one spelled like a named variant.
pub proof fn lemma_data_quality_text_roundtrip(v: DataQuality)
    requires
        v is Private ==> !data_quality_reserved(v@.1),
    ensures
        data_quality_of_text(data_quality_text(v@)) == Some(v@),
{
    reveal_strlit("BAD");
    reveal_strlit("ESTIMATED");
    reveal_strlit("MISSING");
    reveal_strlit("OK");
    match v {
        DataQuality::Okay => {
        },
        DataQuality::Missing => {
            assert("MISSING"@.len() != "OK"@.len());
        },
        DataQuality::Estimated => {
            assert("ESTIMATED"@.len() != "OK"@.len());
            assert("ESTIMATED"@.len() != "MISSING"@.len());
        },
        DataQuality::Bad => {
            assert("BAD"@.len() != "OK"@.len());
            assert("BAD"@.len() != "MISSING"@.len());
            assert("BAD"@.len() != "ESTIMATED"@.len());
        },
        DataQuality::Private(_) => {},
    }
}

/// Every text that denotes a `DataQuality` is the text of what it denotes.
pub proof fn lemma_data_quality_parse_then_text(s: Seq<char>)
    requires
        data_quality_of_text(s) is Some,
    ensures
        data_quality_text(data_quality_of_text(s)->0) == s,
{
}

/// Kind of attribute of a VEN or resource.
#[derive(Debug, Clone, PartialEq, Eq)]
pub enum Attribute {
    /// Written `LOCATION`.
    Location,
    /// Written `AREA`.
    Area,
    /// Written `MAX_POWER_CONSUMPTION`.
    MaxPowerConsumption,
    /// Written `MAX_POWER_EXPORT`.
    MaxPowerExport,
    /// Written `DESCRIPTION`.
    Description,
    /// An application specific, privately defined value.
    Private(String),
}

impl View for Attribute {
    type V = (nat, Seq<char>);

    /// The variant's position and, for a private value, its text.
    open spec fn view(&self) -> (nat, Seq<char>) {
        match self {
            Attribute::Location => (0nat, Seq::empty()),
            Attribute::Area => (1nat, Seq::empty()),
            Attribute::MaxPowerConsumption => (2nat, Seq::empty()),
            Attribute::MaxPowerExport => (3nat, Seq::empty()),
            Attribute::Description => (4nat, Seq::empty()),
            Attribute::Private(text) => (5nat, text@),
        }
    }
}

/// The text a `Attribute` is written as.
pub open spec fn attribute_text(v: (nat, Seq<char>)) -> Seq<char> {
    if v.0 == 0 { "LOCATION"@ } else if v.0 == 1 { "AREA"@ } else if v.0 == 2 { "MAX_POWER_CONSUMPTION"@ } else if v.0 == 3 { "MAX_POWER_EXPORT"@ } else if v.0 == 4 { "DESCRIPTION"@ } else { v.1 }
}

/// The `Attribute` a text denotes, by its position and private text.
pub open spec fn attribute_of_text(s: Seq<char>) -> Option<(nat, Seq<char>)> {
    if s == "LOCATION"@ { Some((0nat, Seq::empty())) } else if s == "AREA"@ { Some((1nat, Seq::empty())) } else if s == "MAX_POWER_CONSUMPTION"@ { Some((2nat, Seq::empty())) } else if s == "MAX_POWER_EXPORT"@ { Some((3nat, Seq::empty())) } else if s == "DESCRIPTION"@ { Some((4nat, Seq::empty())) } else { Some((5nat, s)) }
}

/// The text is one of the names reserved for the named variants of `Attribute`.
pub open spec fn attribute_reserved(s: Seq<char>) -> bool {
    s == "LOCATION"@ || s == "AREA"@ || s == "MAX_POWER_CONSUMPTION"@ || s == "MAX_POWER_EXPORT"@ || s == "DESCRIPTION"@
}

impl Attribute {
    /// The text this value is written as on the wire.
    pub fn as_str(&self) -> (r: &str)
        ensures
            r@ == attribute_text(self@),
    {
        match self {
            Attribute::Location => "LOCATION",
            Attribute::Area => "AREA",
            Attribute::MaxPowerConsumption => "MAX_POWER_CONSUMPTION",
            Attribute::MaxPowerExport => "MAX_POWER_EXPORT",
            Attribute::Description => "DESCRIPTION",
            Attribute::Private(text) => text.as_str(),
        }
    }

    /// The value a text denotes: a named variant when the text is its name,
    /// a private value otherwise.
    pub fn from_text(s: &str) -> (r: Self)
        ensures
            attribute_of_text(s@) == Some(r@),
    {
        if str_eq(s, "LOCATION") {
            Attribute::Location
        } else if str_eq(s, "AREA") {
            Attribute::Area
        } else if str_eq(s, "MAX_POWER_CONSUMPTION") {
            Attribute::MaxPowerConsumption
        } else if str_eq(s, "MAX_POWER_EXPORT") {
            Attribute::MaxPowerExport
        } else if str_eq(s, "DESCRIPTION") {
            Attribute::Description
        } else {
            Attribute::Private(s.to_owned())
        }
    }

    /// The position of the variant.
    pub fn variant_index(&self) -> (r: u8)
        ensures
            r as nat == self@.0,
    {
        match self {
            Attribute::Location => 0,
            Attribute::Area => 1,
            Attribute::MaxPowerConsumption => 2,
            Attribute::MaxPowerExport => 3,
            Attribute::Description => 4,
            Attribute::Private(_) => 5,
        }
    }

    /// Compares two values variant by variant, private values by their text.
    pub fn same_as(&self, other: &Self) -> (r: bool)
        ensures
            r == (self@ == other@),
    {
        match self {
            Attribute::Private(a) => match other {
                Attribute::Private(b) => str_eq(a.as_str(), b.as_str()),
                _ => false,
            },
            _ => self.variant_index() == other.variant_index(),
        }
    }

    /// A copy of this value.
    pub fn duplicate(&self) -> (r: Self)
        ensures
            r@ == self@,
    {
        match self {
            Attribute::Location => Attribute::Location,
            Attribute::Area => Attribute::Area,
            Attribute::MaxPowerConsumption => Attribute::MaxPowerConsumption,
            Attribute::MaxPowerExport => Attribute::MaxPowerExport,
            Attribute::Description => Attribute::Description,
            Attribute::Private(text) => Attribute::Private(text.clone()),
        }
    }

}

/// Reading back the text of a `Attribute` gives the value again, unless the
/// value is a private one spelled like a named variant.
pub proof fn lemma_attribute_text_roundtrip(v: Attribute)
    requires
        v is Private ==> !attribute_reserved(v@.1),
    ensures
        attribute_of_text(attribute_text(v@)) == Some(v@),
{
    reveal_strlit("AREA");
    reveal_strlit("DESCRIPTION");
    reveal_strlit("LOCATION");
    reveal_strlit("MAX_POWER_CONSUMPTION");
    reveal_strlit("MAX_POWER_EXPORT");
    match v {
        Attribute::Location => {
        },
        Attribute::Area => {
            assert("AREA"@.len() != "LOCATION"@.len());
        },
        Attribute::MaxPowerConsumption => {
            assert("MAX_POWER_CONSUMPTION"@.len() != "LOCATION"@.len());
            assert("MAX_POWER_CONSUMPTION"@.len() != "AREA"@.len());
        },
        Attribute::MaxPowerExport => {
            assert("MAX_POWER_EXPORT"@.len() != "LOCATION"@.len());
            assert("MAX_POWER_EXPORT"@.len() != "AREA"@.len());
            assert("MAX_POWER_EXPORT"@.len() != "MAX_POWER_CONSUMPTION"@.len());
        },
        Attribute::Description => {
            assert("DESCRIPTION"@.len() != "LOCATION"@.len());
            assert("DESCRIPTION"@.len() != "AREA"@.len());
            assert("DESCRIPTION"@.len() != "MAX_POWER_CONSUMPTION"@.len());
            assert("DESCRIPTION"@.len() != "MAX_POWER_EXPORT"@.len());
        },
        Attribute::Private(_) => {},
    }
}

/// Every text that denotes a `Attribute` is the text of what it denotes.
pub proof fn lemma_attribute_parse_then_text(s: Seq<char>)
    requires
        attribute_of_text(s) is Some,
    ensures
        attribute_text(attribute_of_text(s)->0) == s,
{
}

/// Unit of measure.
#[derive(Debug, Clone, PartialEq, Eq)]
pub enum Unit {
    /// Written `KWH`.
    KWH,
    /// Written `GHG`.
    GHG,
    /// Written `VOLTS`.
    Volts,
    /// Written `AMPS`.
    Amps,
    /// Written `CELCIUS`.
    Celcius,
    /// Written `FAHRENHEIT`.
    Fahrenheit,
    /// Written `PERCENT`.
    Percent,
    /// Written `KW`.
    KW,
    /// Written `KVAH`.
    KVAH,
    /// Written `KVARH`.
    KVARH,
    /// Written `KVA`.
    KVA,
    /// Written `KVAR`.
    KVAR,
    /// An application specific, privately defined value.
    Private(String),
}

impl View for Unit {
    type V = (nat, Seq<char>);

    /// The variant's position and, for a private value, its text.
    open spec fn view(&self) -> (nat, Seq<char>) {
        match self {
            Unit::KWH => (0nat, Seq::empty()),
            Unit::GHG => (1nat, Seq::empty()),
            Unit::Volts => (2nat, Seq::empty()),
            Unit::Amps => (3nat, Seq::empty()),
            Unit::Celcius => (4nat, Seq::empty()),
            Unit::Fahrenheit => (5nat, Seq::empty()),
            Unit::Percent => (6nat, Seq::empty()),
            Unit::KW => (7nat, Seq::empty()),
            Unit::KVAH => (8nat, Seq::empty()),
            Unit::KVARH => (9nat, Seq::empty()),
            Unit::KVA => (10nat, Seq::empty()),
            Unit::KVAR => (11nat, Seq::empty()),
            Unit::Private(text) => (12nat, text@),
        }
    }
}

/// The text a `Unit` is written as.
pub open spec fn unit_text(v: (nat, Seq<char>)) -> Seq<char> {
    if v.0 == 0 { "KWH"@ } else if v.0 == 1 { "GHG"@ } else if v.0 == 2 { "VOLTS"@ } else if v.0 == 3 { "AMPS"@ } else if v.0 == 4 { "CELCIUS"@ } else if v.0 == 5 { "FAHRENHEIT"@ } else if v.0 == 6 { "PERCENT"@ } else if v.0 == 7 { "KW"@ } else if v.0 == 8 { "KVAH"@ } else if v.0 == 9 { "KVARH"@ } else if v.0 == 10 { "KVA"@ } else if v.0 == 11 { "KVAR"@ } else { v.1 }
}

/// The `Unit` a text denotes, by its position and private text.
pub open spec fn unit_of_text(s: Seq<char>) -> Option<(nat, Seq<char>)> {
    if s == "KWH"@ { Some((0nat, Seq::empty())) } else if s == "GHG"@ { Some((1nat, Seq::empty())) } else if s == "VOLTS"@ { Some((2nat, Seq::empty())) } else if s == "AMPS"@ { Some((3nat, Seq::empty())) } else if s == "CELCIUS"@ { Some((4nat, Seq::empty())) } else if s == "FAHRENHEIT"@ { Some((5nat, Seq::empty())) } else if s == "PERCENT"@ { Some((6nat, Seq::empty())) } else if s == "KW"@ { Some((7nat, Seq::empty())) } else if s == "KVAH"@ { Some((8nat, Seq::empty())) } else if s == "KVARH"@ { Some((9nat, Seq::empty())) } else if s == "KVA"@ { Some((10nat, Seq::empty())) } else if s == "KVAR"@ { Some((11nat, Seq::empty())) } else { Some((12nat, s)) }
}

/// The text is one of the names reserved for the named variants of `Unit`.
pub open spec fn unit_reserved(s: Seq<char>) -> bool {
    s == "KWH"@ || s == "GHG"@ || s == "VOLTS"@ || s == "AMPS"@ || s == "CELCIUS"@ || s == "FAHRENHEIT"@ || s == "PERCENT"@ || s == "KW"@ || s == "KVAH"@ || s == "KVARH"@ || s == "KVA"@ || s == "KVAR"@
}

impl Unit {
    /// The text this value is written as on the wire.
    pub fn as_str(&self) -> (r: &str)
        ensures
            r@ == unit_text(self@),
    {
        match self {
            Unit::KWH => "KWH",
            Unit::GHG => "GHG",
            Unit::Volts => "VOLTS",
            Unit::Amps => "AMPS",
            Unit::Celcius => "CELCIUS",
            Unit::Fahrenheit => "FAHRENHEIT",
            Unit::Percent => "PERCENT",
            Unit::KW => "KW",
            Unit::KVAH => "KVAH",
            Unit::KVARH => "KVARH",
            Unit::KVA => "KVA",
            Unit::KVAR => "KVAR",
            Unit::Private(text) => text.as_str(),
        }
    }

    /// The value a text denotes: a named variant when the text is its name,
    /// a private value otherwise.
    pub fn from_text(s: &str) -> (r: Self)
        ensures
            unit_of_text(s@) == Some(r@),
    {
        if str_eq(s, "KWH") {
            Unit::KWH
        } else if str_eq(s, "GHG") {
            Unit::GHG
        } else if str_eq(s, "VOLTS") {
            Unit::Volts
        } else if str_eq(s, "AMPS") {
            Unit::Amps
        } else if str_eq(s, "CELCIUS") {
            Unit::Celcius
        } else if str_eq(s, "FAHRENHEIT") {
            Unit::Fahrenheit
        } else if str_eq(s, "PERCENT") {
            Unit::Percent
        } else if str_eq(s, "KW") {
            Unit::KW
        } else if str_eq(s, "KVAH") {
            Unit::KVAH
        } else if str_eq(s, "KVARH") {
            Unit::KVARH
        } else if str_eq(s, "KVA") {
            Unit::KVA
        } else if str_eq(s, "KVAR") {
            Unit::KVAR
        } else {
            Unit::Private(s.to_owned())
        }
    }

    /// The position of the variant.
    pub fn variant_index(&self) -> (r: u8)
        ensures
            r as nat == self@.0,
    {
        match self {
            Unit::KWH => 0,
            Unit::GHG => 1,
            Unit::Volts => 2,
            Unit::Amps => 3,
            Unit::Celcius => 4,
            Unit::Fahrenheit => 5,
            Unit::Percent => 6,
            Unit::KW => 7,
            Unit::KVAH => 8,
            Unit::KVARH => 9,
            Unit::KVA => 10,
            Unit::KVAR => 11,
            Unit::Private(_) => 12,
        }
    }

    /// Compares two values variant by variant, private values by their text.
    pub fn same_as(&self, other: &Self) -> (r: bool)
        ensures
            r == (self@ == other@),
    {
        match self {
            Unit::Private(a) => match other {
                Unit::Private(b) => str_eq(a.as_str(), b.as_str()),
                _ => false,
            },
            _ => self.variant_index() == other.variant_index(),
        }
    }

    /// A copy of this value.
    pub fn duplicate(&self) -> (r: Self)
        ensures
            r@ == self@,
    {
        match self {
            Unit::KWH => Unit::KWH,
            Unit::GHG => Unit::GHG,
            Unit::Volts => Unit::Volts,
            Unit::Amps => Unit::Amps,
            Unit::Celcius => Unit::Celcius,
            Unit::Fahrenheit => Unit::Fahrenheit,
            Unit::Percent => Unit::Percent,
            Unit::KW => Unit::KW,
            Unit::KVAH => Unit::KVAH,
            Unit::KVARH => Unit::KVARH,
            Unit::KVA => Unit::KVA,
            Unit::KVAR => Unit::KVAR,
            Unit::Private(text) => Unit::Private(text.clone()),
        }
    }

}

/// Reading back the text of a `Unit` gives the value again, unless the
/// value is a private one spelled like a named variant.
pub proof fn lemma_unit_text_roundtrip(v: Unit)
    requires
        v is Private ==> !unit_reserved(v@.1),
    ensures
        unit_of_text(unit_text(v@)) == Some(v@),
{
    reveal_strlit("AMPS");
    reveal_strlit("CELCIUS");
    reveal_strlit("FAHRENHEIT");
    reveal_strlit("GHG");
    reveal_strlit("KVA");
    reveal_strlit("KVAH");
    reveal_strlit("KVAR");
    reveal_strlit("KVARH");
    reveal_strlit("KW");
    reveal_strlit("KWH");
    reveal_strlit("PERCENT");
    reveal_strlit("VOLTS");
    match v {
        Unit::KWH => {
        },
        Unit::GHG => {
            assert("GHG"@[0] != "KWH"@[0]);
        },
        Unit::Volts => {
            assert("VOLTS"@.len() != "KWH"@.len());
            assert("VOLTS"@.len() != "GHG"@.len());
        },
        Unit::Amps => {
            assert("AMPS"@.len() != "KWH"@.len());
            assert("AMPS"@.len() != "GHG"@.len());
            assert("AMPS"@.len() != "VOLTS"@.len());
        },
        Unit::Celcius => {
            assert("CELCIUS"@.len() != "KWH"@.len());
            assert("CELCIUS"@.len() != "GHG"@.len());
            assert("CELCIUS"@.len() != "VOLTS"@.len());
            assert("CELCIUS"@.len() != "AMPS"@.len());
        },
        Unit::Fahrenheit => {
            assert("FAHRENHEIT"@.len() != "KWH"@.len());
            assert("FAHRENHEIT"@.len() != "GHG"@.len());
            assert("FAHRENHEIT"@.len() != "VOLTS"@.len());
            assert("FAHRENHEIT"@.len() != "AMPS"@.len());
            assert("FAHRENHEIT"@.len() != "CELCIUS"@.len());
        },
        Unit::Percent => {
            assert("PERCENT"@.len() != "KWH"@.len());
            assert("PERCENT"@.len() != "GHG"@.len());
            assert("PERCENT"@.len() != "VOLTS"@.len());
            assert("PERCENT"@.len() != "AMPS"@.len());
            assert("PERCENT"@[0] != "CELCIUS"@[0]);
            assert("PERCENT"@.len() != "FAHRENHEIT"@.len());
        },
        Unit::KW => {
            assert("KW"@.len() != "KWH"@.len());
            assert("KW"@.len() != "GHG"@.len());
            assert("KW"@.len() != "VOLTS"@.len());
            assert("KW"@.len() != "AMPS"@.len());
            assert("KW"@.len() != "CELCIUS"@.len());
            assert("KW"@.len() != "FAHRENHEIT"@.len());
            assert("KW"@.len() != "PERCENT"@.len());
        },
        Unit::KVAH => {
            assert("KVAH"@.len() != "KWH"@.len());
            assert("KVAH"@.len() != "GHG"@.len());
            assert("KVAH"@.len() != "VOLTS"@.len());
            assert("KVAH"@[0] != "AMPS"@[0]);
            assert("KVAH"@.len() != "CELCIUS"@.len());
            assert("KVAH"@.len() != "FAHRENHEIT"@.len());
            assert("KVAH"@.len() != "PERCENT"@.len());
            assert("KVAH"@.len() != "KW"@.len());
        },
        Unit::KVARH => {
            assert("KVARH"@.len() != "KWH"@.len());
            assert("KVARH"@.len() != "GHG"@.len());
            assert("KVARH"@[0] != "VOLTS"@[0]);
            assert("KVARH"@.len() != "AMPS"@.len());
            assert("KVARH"@.len() != "CELCIUS"@.len());
            assert("KVARH"@.len() != "FAHRENHEIT"@.len());
            assert("KVARH"@.len() != "PERCENT"@.len());
            assert("KVARH"@.len() != "KW"@.len());
            assert("KVARH"@.len() != "KVAH"@.len());
        },
        Unit::KVA => {
            assert("KVA"@[1] != "KWH"@[1]);
            assert("KVA"@[0] != "GHG"@[0]);
            assert("KVA"@.len() != "VOLTS"@.len());
            assert("KVA"@.len() != "AMPS"@.len());
            assert("KVA"@.len() != "CELCIUS"@.len());
            assert("KVA"@.len() != "FAHRENHEIT"@.len());
            assert("KVA"@.len() != "PERCENT"@.len());
            assert("KVA"@.len() != "KW"@.len());
            assert("KVA"@.len() != "KVAH"@.len());
            assert("KVA"@.len() != "KVARH"@.len());
        },
        Unit::KVAR => {
            assert("KVAR"@.len() != "KWH"@.len());
            assert("KVAR"@.len() != "GHG"@.len());
            assert("KVAR"@.len() != "VOLTS"@.len());
            assert("KVAR"@[0] != "AMPS"@[0]);
            assert("KVAR"@.len() != "CELCIUS"@.len());
            assert("KVAR"@.len() != "FAHRENHEIT"@.len());
            assert("KVAR"@.len() != "PERCENT"@.len());
            assert("KVAR"@.len() != "KW"@.len());
            assert("KVAR"@[3] != "KVAH"@[3]);
            assert("KVAR"@.len() != "KVARH"@.len());
            assert("KVAR"@.len() != "KVA"@.len());
        },
        Unit::Private(_) => {},
    }
}

/// Every text that denotes a `Unit` is the text of what it denotes.
pub proof fn lemma_unit_parse_then_text(s: Seq<char>)
    requires
        unit_of_text(s) is Some,
    ensures
        unit_text(unit_of_text(s)->0) == s,
{
}

/// Nature of the values of an event payload.
#[derive(Debug, Clone, PartialEq, Eq)]
pub enum EventType {
    /// Written `SIMPLE`.
    Simple,
    /// Written `PRICE`.
    Price,
    /// Written `CHARGE_STATE_SETPOINT`.
    ChargeStateSetpoint,
    /// Written `DISPATCH_SETPOINT`.
    DispatchSetpoint,
    /// Written `DISPATCH_SETPOINT_RELATIVE`.
    DispatchSetpointRelative,
    /// Written `CONTROL_SETPOINT`.
    ControlSetpoint,
    /// Written `EXPORT_PRICE`.
    ExportPrice,
    /// Written `GHG`.
    GHG,
    /// Written `CURVE`.
    Curve,
    /// Written `OLS`.
    OLS,
    /// Written `IMPORT_CAPACITY_SUBSCRIPTION`.
    ImportCapacitySubscription,
    /// Written `IMPORT_CAPACITY_RESERVATION`.
    ImportCapacityReservation,
    /// Written `IMPORT_CAPACITY_RESERVATION_FEE`.
    ImportCapacityReservationFee,
    /// Written `IMPORT_CAPACITY_AVAILABLE`.
    ImportCapacityAvailable,
    /// Written `IMPORT_CAPACITY_AVAILABLE_PRICE`.
    ImportCapacityAvailablePrice,
    /// Written `EXPORT_CAPACITY_SUBSCRIPTION`.
    ExportCapacitySubscription,
    /// Written `EXPORT_CAPACITY_RESERVATION`.
    ExportCapacityReservation,
    /// Written `EXPORT_CAPACITY_RESERVATION_FEE`.
    ExportCapacityReservationFee,
    /// Written `EXPORT_CAPACITY_AVAILABLE`.
    ExportCapacityAvailable,
    /// Written `EXPORT_CAPACITY_AVAILABLE_PRICE`.
    ExportCapacityAvailablePrice,
    /// Written `IMPORT_CAPACITY_LIMIT`.
    ImportCapacityLimit,
    /// Written `EXPORT_CAPACITY_LIMIT`.
    ExportCapacityLimit,
    /// Written `ALERT_GRID_EMERGENCY`.
    AlertGridEmergency,
    /// Written `ALERT_BLACK_START`.
    AlertBlackStart,
    /// Written `ALERT_POSSIBLE_OUTAGE`.
    AlertPossibleOutage,
    /// Written `ALERT_FLEX_ALERT`.
    AlertFlexAlert,
    /// Written `ALERT_FIRE`.
    AlertFire,
    /// Written `ALERT_FREEZING`.
    AlertFreezing,
    /// Written `ALERT_WIND`.
    AlertWind,
    /// Written `ALERT_TSUNAMI`.
    AlertTsunami,
    /// Written `ALERT_AIR_QUALITY`.
    AlertAirQuality,
    /// Written `ALERT_OTHER`.
    AlertOther,
    /// Written `CTA2045_REBOOT`.
    CTA2045Reboot,
    /// Written `CTA2045_SET_OVERRIDE_STATUS`.
    CTA2045SetOverrideStatus,
    /// An application specific, privately defined value.
    Private(String),
}

impl View for EventType {
    type V = (nat, Seq<char>);

    /// The variant's position and, for a private value, its text.
    open spec fn view(&self) -> (nat, Seq<char>) {
        match self {
            EventType::Simple => (0nat, Seq::empty()),
            EventType::Price => (1nat, Seq::empty()),
            EventType::ChargeStateSetpoint => (2nat, Seq::empty()),
            EventType::DispatchSetpoint => (3nat, Seq::empty()),
            EventType::DispatchSetpointRelative => (4nat, Seq::empty()),
            EventType::ControlSetpoint => (5nat, Seq::empty()),
            EventType::ExportPrice => (6nat, Seq::empty()),
            EventType::GHG => (7nat, Seq::empty()),
            EventType::Curve => (8nat, Seq::empty()),
            EventType::OLS => (9nat, Seq::empty()),
            EventType::ImportCapacitySubscription => (10nat, Seq::empty()),
            EventType::ImportCapacityReservation => (11nat, Seq::empty()),
            EventType::ImportCapacityReservationFee => (12nat, Seq::empty()),
            EventType::ImportCapacityAvailable => (13nat, Seq::empty()),
            EventType::ImportCapacityAvailablePrice => (14nat, Seq::empty()),
            EventType::ExportCapacitySubscription => (15nat, Seq::empty()),
            EventType::ExportCapacityReservation => (16nat, Seq::empty()),
            EventType::ExportCapacityReservationFee => (17nat, Seq::empty()),
            EventType::ExportCapacityAvailable => (18nat, Seq::empty()),
            EventType::ExportCapacityAvailablePrice => (19nat, Seq::empty()),
            EventType::ImportCapacityLimit => (20nat, Seq::empty()),
            EventType::ExportCapacityLimit => (21nat, Seq::empty()),
            EventType::AlertGridEmergency => (22nat, Seq::empty()),
            EventType::AlertBlackStart => (23nat, Seq::empty()),
            EventType::AlertPossibleOutage => (24nat, Seq::empty()),
            EventType::AlertFlexAlert => (25nat, Seq::empty()),
            EventType::AlertFire => (26nat, Seq::empty()),
            EventType::AlertFreezing => (27nat, Seq::empty()),
            EventType::AlertWind => (28nat, Seq::empty()),
            EventType::AlertTsunami => (29nat, Seq::empty()),
            EventType::AlertAirQuality => (30nat, Seq::empty()),
            EventType::AlertOther => (31nat, Seq::empty()),
            EventType::CTA2045Reboot => (32nat, Seq::empty()),
            EventType::CTA2045SetOverrideStatus => (33nat, Seq::empty()),
            EventType::Private(text) => (34nat, text@),
        }
    }
}

/// The text a `EventType` is written as.
pub open spec fn event_type_text(v: (nat, Seq<char>)) -> Seq<char> {
    if v.0 == 0 { "SIMPLE"@ } else if v.0 == 1 { "PRICE"@ } else if v.0 == 2 { "CHARGE_STATE_SETPOINT"@ } else if v.0 == 3 { "DISPATCH_SETPOINT"@ } else if v.0 == 4 { "DISPATCH_SETPOINT_RELATIVE"@ } else if v.0 == 5 { "CONTROL_SETPOINT"@ } else if v.0 == 6 { "EXPORT_PRICE"@ } else if v.0 == 7 { "GHG"@ } else if v.0 == 8 { "CURVE"@ } else if v.0 == 9 { "OLS"@ } else if v.0 == 10 { "IMPORT_CAPACITY_SUBSCRIPTION"@ } else if v.0 == 11 { "IMPORT_CAPACITY_RESERVATION"@ } else if v.0 == 12 { "IMPORT_CAPACITY_RESERVATION_FEE"@ } else if v.0 == 13 { "IMPORT_CAPACITY_AVAILABLE"@ } else if v.0 == 14 { "IMPORT_CAPACITY_AVAILABLE_PRICE"@ } else if v.0 == 15 { "EXPORT_CAPACITY_SUBSCRIPTION"@ } else if v.0 == 16 { "EXPORT_CAPACITY_RESERVATION"@ } else if v.0 == 17 { "EXPORT_CAPACITY_RESERVATION_FEE"@ } else if v.0 == 18 { "EXPORT_CAPACITY_AVAILABLE"@ } else if v.0 == 19 { "EXPORT_CAPACITY_AVAILABLE_PRICE"@ } else if v.0 == 20 { "IMPORT_CAPACITY_LIMIT"@ } else if v.0 == 21 { "EXPORT_CAPACITY_LIMIT"@ } else if v.0 == 22 { "ALERT_GRID_EMERGENCY"@ } else if v.0 == 23 { "ALERT_BLACK_START"@ } else if v.0 == 24 { "ALERT_POSSIBLE_OUTAGE"@ } else if v.0 == 25 { "ALERT_FLEX_ALERT"@ } else if v.0 == 26 { "ALERT_FIRE"@ } else if v.0 == 27 { "ALERT_FREEZING"@ } else if v.0 == 28 { "ALERT_WIND"@ } else if v.0 == 29 { "ALERT_TSUNAMI"@ } else if v.0 == 30 { "ALERT_AIR_QUALITY"@ } else if v.0 == 31 { "ALERT_OTHER"@ } else if v.0 == 32 { "CTA2045_REBOOT"@ } else if v.0 == 33 { "CTA2045_SET_OVERRIDE_STATUS"@ } else { v.1 }
}

/// The `EventType` a text denotes, by its position and private text.
pub open spec fn event_type_of_text(s: Seq<char>) -> Option<(nat, Seq<char>)> {
    if s == "SIMPLE"@ { Some((0nat, Seq::empty())) } else if s == "PRICE"@ { Some((1nat, Seq::empty())) } else if s == "CHARGE_STATE_SETPOINT"@ { Some((2nat, Seq::empty())) } else if s == "DISPATCH_SETPOINT"@ { Some((3nat, Seq::empty())) } else if s == "DISPATCH_SETPOINT_RELATIVE"@ { Some((4nat, Seq::empty())) } else if s == "CONTROL_SETPOINT"@ { Some((5nat, Seq::empty())) } else if s == "EXPORT_PRICE"@ { Some((6nat, Seq::empty())) } else if s == "GHG"@ { Some((7nat, Seq::empty())) } else if s == "CURVE"@ { Some((8nat, Seq::empty())) } else if s == "OLS"@ { Some((9nat, Seq::empty())) } else if s == "IMPORT_CAPACITY_SUBSCRIPTION"@ { Some((10nat, Seq::empty())) } else if s == "IMPORT_CAPACITY_RESERVATION"@ { Some((11nat, Seq::empty())) } else if s == "IMPORT_CAPACITY_RESERVATION_FEE"@ { Some((12nat, Seq::empty())) } else if s == "IMPORT_CAPACITY_AVAILABLE"@ { Some((13nat, Seq::empty())) } else if s == "IMPORT_CAPACITY_AVAILABLE_PRICE"@ { Some((14nat, Seq::empty())) } else if s == "EXPORT_CAPACITY_SUBSCRIPTION"@ { Some((15nat, Seq::empty())) } else if s == "EXPORT_CAPACITY_RESERVATION"@ { Some((16nat, Seq::empty())) } else if s == "EXPORT_CAPACITY_RESERVATION_FEE"@ { Some((17nat, Seq::empty())) } else if s == "EXPORT_CAPACITY_AVAILABLE"@ { Some((18nat, Seq::empty())) } else if s == "EXPORT_CAPACITY_AVAILABLE_PRICE"@ { Some((19nat, Seq::empty())) } else if s == "IMPORT_CAPACITY_LIMIT"@ { Some((20nat, Seq::empty())) } else if s == "EXPORT_CAPACITY_LIMIT"@ { Some((21nat, Seq::empty())) } else if s == "ALERT_GRID_EMERGENCY"@ { Some((22nat, Seq::empty())) } else if s == "ALERT_BLACK_START"@ { Some((23nat, Seq::empty())) } else if s == "ALERT_POSSIBLE_OUTAGE"@ { Some((24nat, Seq::empty())) } else if s == "ALERT_FLEX_ALERT"@ { Some((25nat, Seq::empty())) } else if s == "ALERT_FIRE"@ { Some((26nat, Seq::empty())) } else if s == "ALERT_FREEZING"@ { Some((27nat, Seq::empty())) } else if s == "ALERT_WIND"@ { Some((28nat, Seq::empty())) } else if s == "ALERT_TSUNAMI"@ { Some((29nat, Seq::empty())) } else if s == "ALERT_AIR_QUALITY"@ { Some((30nat, Seq::empty())) } else if s == "ALERT_OTHER"@ { Some((31nat, Seq::empty())) } else if s == "CTA2045_REBOOT"@ { Some((32nat, Seq::empty())) } else if s == "CTA2045_SET_OVERRIDE_STATUS"@ { Some((33nat, Seq::empty())) } else { if 1 <= encode_utf8(s).len() <= 128 { Some((34nat, s)) } else { None } }
}

/// The text is one of the names reserved for the named variants of `EventType`.
pub open spec fn event_type_reserved(s: Seq<char>) -> bool {
    s == "SIMPLE"@ || s == "PRICE"@ || s == "CHARGE_STATE_SETPOINT"@ || s == "DISPATCH_SETPOINT"@ || s == "DISPATCH_SETPOINT_RELATIVE"@ || s == "CONTROL_SETPOINT"@ || s == "EXPORT_PRICE"@ || s == "GHG"@ || s == "CURVE"@ || s == "OLS"@ || s == "IMPORT_CAPACITY_SUBSCRIPTION"@ || s == "IMPORT_CAPACITY_RESERVATION"@ || s == "IMPORT_CAPACITY_RESERVATION_FEE"@ || s == "IMPORT_CAPACITY_AVAILABLE"@ || s == "IMPORT_CAPACITY_AVAILABLE_PRICE"@ || s == "EXPORT_CAPACITY_SUBSCRIPTION"@ || s == "EXPORT_CAPACITY_RESERVATION"@ || s == "EXPORT_CAPACITY_RESERVATION_FEE"@ || s == "EXPORT_CAPACITY_AVAILABLE"@ || s == "EXPORT_CAPACITY_AVAILABLE_PRICE"@ || s == "IMPORT_CAPACITY_LIMIT"@ || s == "EXPORT_CAPACITY_LIMIT"@ || s == "ALERT_GRID_EMERGENCY"@ || s == "ALERT_BLACK_START"@ || s == "ALERT_POSSIBLE_OUTAGE"@ || s == "ALERT_FLEX_ALERT"@ || s == "ALERT_FIRE"@ || s == "ALERT_FREEZING"@ || s == "ALERT_WIND"@ || s == "ALERT_TSUNAMI"@ || s == "ALERT_AIR_QUALITY"@ || s == "ALERT_OTHER"@ || s == "CTA2045_REBOOT"@ || s == "CTA2045_SET_OVERRIDE_STATUS"@
}

impl EventType {
    /// The text this value is written as on the wire.
    pub fn as_str(&self) -> (r: &str)
        ensures
            r@ == event_type_text(self@),
    {
        match self {
            EventType::Simple => "SIMPLE",
            EventType::Price => "PRICE",
            EventType::ChargeStateSetpoint => "CHARGE_STATE_SETPOINT",
            EventType::DispatchSetpoint => "DISPATCH_SETPOINT",
            EventType::DispatchSetpointRelative => "DISPATCH_SETPOINT_RELATIVE",
            EventType::ControlSetpoint => "CONTROL_SETPOINT",
            EventType::ExportPrice => "EXPORT_PRICE",
            EventType::GHG => "GHG",
            EventType::Curve => "CURVE",
            EventType::OLS => "OLS",
            EventType::ImportCapacitySubscription => "IMPORT_CAPACITY_SUBSCRIPTION",
            EventType::ImportCapacityReservation => "IMPORT_CAPACITY_RESERVATION",
            EventType::ImportCapacityReservationFee => "IMPORT_CAPACITY_RESERVATION_FEE",
            EventType::ImportCapacityAvailable => "IMPORT_CAPACITY_AVAILABLE",
            EventType::ImportCapacityAvailablePrice => "IMPORT_CAPACITY_AVAILABLE_PRICE",
            EventType::ExportCapacitySubscription => "EXPORT_CAPACITY_SUBSCRIPTION",
            EventType::ExportCapacityReservation => "EXPORT_CAPACITY_RESERVATION",
            EventType::ExportCapacityReservationFee => "EXPORT_CAPACITY_RESERVATION_FEE",
            EventType::ExportCapacityAvailable => "EXPORT_CAPACITY_AVAILABLE",
            EventType::ExportCapacityAvailablePrice => "EXPORT_CAPACITY_AVAILABLE_PRICE",
            EventType::ImportCapacityLimit => "IMPORT_CAPACITY_LIMIT",
            EventType::ExportCapacityLimit => "EXPORT_CAPACITY_LIMIT",
            EventType::AlertGridEmergency => "ALERT_GRID_EMERGENCY",
            EventType::AlertBlackStart => "ALERT_BLACK_START",
            EventType::AlertPossibleOutage => "ALERT_POSSIBLE_OUTAGE",
            EventType::AlertFlexAlert => "ALERT_FLEX_ALERT",
            EventType::AlertFire => "ALERT_FIRE",
            EventType::AlertFreezing => "ALERT_FREEZING",
            EventType::AlertWind => "ALERT_WIND",
            EventType::AlertTsunami => "ALERT_TSUNAMI",
            EventType::AlertAirQuality => "ALERT_AIR_QUALITY",
            EventType::AlertOther => "ALERT_OTHER",
            EventType::CTA2045Reboot => "CTA2045_REBOOT",
            EventType::CTA2045SetOverrideStatus => "CTA2045_SET_OVERRIDE_STATUS",
            EventType::Private(text) => text.as_str(),
        }
    }

    /// The value a text denotes: a named variant when the text is its name,
    /// a private value when its byte length lies in 1..=128, an error otherwise.
    pub fn from_text(s: &str) -> (r: Result<Self, IdentifierError>)
        ensures
            r matches Ok(v) ==> event_type_of_text(s@) == Some(v@),
            r is Err <==> event_type_of_text(s@) is None,
            r matches Err(e) ==> e == IdentifierError::InvalidLength(s.spec_bytes().len() as usize),
    {
        if str_eq(s, "SIMPLE") {
            Ok(EventType::Simple)
        } else if str_eq(s, "PRICE") {
            Ok(EventType::Price)
        } else if str_eq(s, "CHARGE_STATE_SETPOINT") {
            Ok(EventType::ChargeStateSetpoint)
        } else if str_eq(s, "DISPATCH_SETPOINT") {
            Ok(EventType::DispatchSetpoint)
        } else if str_eq(s, "DISPATCH_SETPOINT_RELATIVE") {
            Ok(EventType::DispatchSetpointRelative)
        } else if str_eq(s, "CONTROL_SETPOINT") {
            Ok(EventType::ControlSetpoint)
        } else if str_eq(s, "EXPORT_PRICE") {
            Ok(EventType::ExportPrice)
        } else if str_eq(s, "GHG") {
            Ok(EventType::GHG)
        } else if str_eq(s, "CURVE") {
            Ok(EventType::Curve)
        } else if str_eq(s, "OLS") {
            Ok(EventType::OLS)
        } else if str_eq(s, "IMPORT_CAPACITY_SUBSCRIPTION") {
            Ok(EventType::ImportCapacitySubscription)
        } else if str_eq(s, "IMPORT_CAPACITY_RESERVATION") {
            Ok(EventType::ImportCapacityReservation)
        } else if str_eq(s, "IMPORT_CAPACITY_RESERVATION_FEE") {
            Ok(EventType::ImportCapacityReservationFee)
        } else if str_eq(s, "IMPORT_CAPACITY_AVAILABLE") {
            Ok(EventType::ImportCapacityAvailable)
        } else if str_eq(s, "IMPORT_CAPACITY_AVAILABLE_PRICE") {
            Ok(EventType::ImportCapacityAvailablePrice)
        } else if str_eq(s, "EXPORT_CAPACITY_SUBSCRIPTION") {
            Ok(EventType::ExportCapacitySubscription)
        } else if str_eq(s, "EXPORT_CAPACITY_RESERVATION") {
            Ok(EventType::ExportCapacityReservation)
        } else if str_eq(s, "EXPORT_CAPACITY_RESERVATION_FEE") {
            Ok(EventType::ExportCapacityReservationFee)
        } else if str_eq(s, "EXPORT_CAPACITY_AVAILABLE") {
            Ok(EventType::ExportCapacityAvailable)
        } else if str_eq(s, "EXPORT_CAPACITY_AVAILABLE_PRICE") {
            Ok(EventType::ExportCapacityAvailablePrice)
        } else if str_eq(s, "IMPORT_CAPACITY_LIMIT") {
            Ok(EventType::ImportCapacityLimit)
        } else if str_eq(s, "EXPORT_CAPACITY_LIMIT") {
            Ok(EventType::ExportCapacityLimit)
        } else if str_eq(s, "ALERT_GRID_EMERGENCY") {
            Ok(EventType::AlertGridEmergency)
        } else if str_eq(s, "ALERT_BLACK_START") {
            Ok(EventType::AlertBlackStart)
        } else if str_eq(s, "ALERT_POSSIBLE_OUTAGE") {
            Ok(EventType::AlertPossibleOutage)
        } else if str_eq(s, "ALERT_FLEX_ALERT") {
            Ok(EventType::AlertFlexAlert)
        } else if str_eq(s, "ALERT_FIRE") {
            Ok(EventType::AlertFire)
        } else if str_eq(s, "ALERT_FREEZING") {
            Ok(EventType::AlertFreezing)
        } else if str_eq(s, "ALERT_WIND") {
            Ok(EventType::AlertWind)
        } else if str_eq(s, "ALERT_TSUNAMI") {
            Ok(EventType::AlertTsunami)
        } else if str_eq(s, "ALERT_AIR_QUALITY") {
            Ok(EventType::AlertAirQuality)
        } else if str_eq(s, "ALERT_OTHER") {
            Ok(EventType::AlertOther)
        } else if str_eq(s, "CTA2045_REBOOT") {
            Ok(EventType::CTA2045Reboot)
        } else if str_eq(s, "CTA2045_SET_OVERRIDE_STATUS") {
            Ok(EventType::CTA2045SetOverrideStatus)
        } else {
            let len = s.as_bytes().len();
            if 1 <= len && len <= 128 {
                Ok(EventType::Private(s.to_owned()))
            } else {
                Err(IdentifierError::InvalidLength(len))
            }
        }
    }

    /// The position of the variant.
    pub fn variant_index(&self) -> (r: u8)
        ensures
            r as nat == self@.0,
    {
        match self {
            EventType::Simple => 0,
            EventType::Price => 1,
            EventType::ChargeStateSetpoint => 2,
            EventType::DispatchSetpoint => 3,
            EventType::DispatchSetpointRelative => 4,
            EventType::ControlSetpoint => 5,
            EventType::ExportPrice => 6,
            EventType::GHG => 7,
            EventType::Curve => 8,
            EventType::OLS => 9,
            EventType::ImportCapacitySubscription => 10,
            EventType::ImportCapacityReservation => 11,
            EventType::ImportCapacityReservationFee => 12,
            EventType::ImportCapacityAvailable => 13,
            EventType::ImportCapacityAvailablePrice => 14,
            EventType::ExportCapacitySubscription => 15,
            EventType::ExportCapacityReservation => 16,
            EventType::ExportCapacityReservationFee => 17,
            EventType::ExportCapacityAvailable => 18,
            EventType::ExportCapacityAvailablePrice => 19,
            EventType::ImportCapacityLimit => 20,
            EventType::ExportCapacityLimit => 21,
            EventType::AlertGridEmergency => 22,
            EventType::AlertBlackStart => 23,
            EventType::AlertPossibleOutage => 24,
            EventType::AlertFlexAlert => 25,
            EventType::AlertFire => 26,
            EventType::AlertFreezing => 27,
            EventType::AlertWind => 28,
            EventType::AlertTsunami => 29,
            EventType::AlertAirQuality => 30,
            EventType::AlertOther => 31,
            EventType::CTA2045Reboot => 32,
            EventType::CTA2045SetOverrideStatus => 33,
            EventType::Private(_) => 34,
        }
    }

    /// Compares two values variant by variant, private values by their text.
    pub fn same_as(&self, other: &Self) -> (r: bool)
        ensures
            r == (self@ == other@),
    {
        match self {
            EventType::Private(a) => match other {
                EventType::Private(b) => str_eq(a.as_str(), b.as_str()),
                _ => false,
            },
            _ => self.variant_index() == other.variant_index(),
        }
    }

    /// A copy of this value.
    pub fn duplicate(&self) -> (r: Self)
        ensures
            r@ == self@,
    {
        match self {
            EventType::Simple => EventType::Simple,
            EventType::Price => EventType::Price,
            EventType::ChargeStateSetpoint => EventType::ChargeStateSetpoint,
            EventType::DispatchSetpoint => EventType::DispatchSetpoint,
            EventType::DispatchSetpointRelative => EventType::DispatchSetpointRelative,
            EventType::ControlSetpoint => EventType::ControlSetpoint,
            EventType::ExportPrice => EventType::ExportPrice,
            EventType::GHG => EventType::GHG,
            EventType::Curve => EventType::Curve,
            EventType::OLS => EventType::OLS,
            EventType::ImportCapacitySubscription => EventType::ImportCapacitySubscription,
            EventType::ImportCapacityReservation => EventType::ImportCapacityReservation,
            EventType::ImportCapacityReservationFee => EventType::ImportCapacityReservationFee,
            EventType::ImportCapacityAvailable => EventType::ImportCapacityAvailable,
            EventType::ImportCapacityAvailablePrice => EventType::ImportCapacityAvailablePrice,
            EventType::ExportCapacitySubscription => EventType::ExportCapacitySubscription,
            EventType::ExportCapacityReservation => EventType::ExportCapacityReservation,
            EventType::ExportCapacityReservationFee => EventType::ExportCapacityReservationFee,
            EventType::ExportCapacityAvailable => EventType::ExportCapacityAvailable,
            EventType::ExportCapacityAvailablePrice => EventType::ExportCapacityAvailablePrice,
            EventType::ImportCapacityLimit => EventType::ImportCapacityLimit,
            EventType::ExportCapacityLimit => EventType::ExportCapacityLimit,
            EventType::AlertGridEmergency => EventType::AlertGridEmergency,
            EventType::AlertBlackStart => EventType::AlertBlackStart,
            EventType::AlertPossibleOutage => EventType::AlertPossibleOutage,
            EventType::AlertFlexAlert => EventType::AlertFlexAlert,
            EventType::AlertFire => EventType::AlertFire,
            EventType::AlertFreezing => EventType::AlertFreezing,
            EventType::AlertWind => EventType::AlertWind,
            EventType::AlertTsunami => EventType::AlertTsunami,
            EventType::AlertAirQuality => EventType::AlertAirQuality,
            EventType::AlertOther => EventType::AlertOther,
            EventType::CTA2045Reboot => EventType::CTA2045Reboot,
            EventType::CTA2045SetOverrideStatus => EventType::CTA2045SetOverrideStatus,
            EventType::Private(text) => EventType::Private(text.clone()),
        }
    }

}

/// Reading back the text of a `EventType` gives the value again, unless the
/// value is a private one spelled like a named variant.
pub proof fn lemma_event_type_text_roundtrip(v: EventType)
    requires
        v is Private ==> !event_type_reserved(v@.1),
        v is Private ==> 1 <= encode_utf8(v@.1).len() <= 128,
    ensures
        event_type_of_text(event_type_text(v@)) == Some(v@),
{
    reveal_strlit("ALERT_AIR_QUALITY");
    reveal_strlit("ALERT_BLACK_START");
    reveal_strlit("ALERT_FIRE");
    reveal_strlit("ALERT_FLEX_ALERT");
    reveal_strlit("ALERT_FREEZING");
    reveal_strlit("ALERT_GRID_EMERGENCY");
    reveal_strlit("ALERT_OTHER");
    reveal_strlit("ALERT_POSSIBLE_OUTAGE");
    reveal_strlit("ALERT_TSUNAMI");
    reveal_strlit("ALERT_WIND");
    reveal_strlit("CHARGE_STATE_SETPOINT");
    reveal_strlit("CONTROL_SETPOINT");
    reveal_strlit("CTA2045_REBOOT");
    reveal_strlit("CTA2045_SET_OVERRIDE_STATUS");
    reveal_strlit("CURVE");
    reveal_strlit("DISPATCH_SETPOINT");
    reveal_strlit("DISPATCH_SETPOINT_RELATIVE");
    reveal_strlit("EXPORT_CAPACITY_AVAILABLE");
    reveal_strlit("EXPORT_CAPACITY_AVAILABLE_PRICE");
    reveal_strlit("EXPORT_CAPACITY_LIMIT");
    reveal_strlit("EXPORT_CAPACITY_RESERVATION");
    reveal_strlit("EXPORT_CAPACITY_RESERVATION_FEE");
    reveal_strlit("EXPORT_CAPACITY_SUBSCRIPTION");
    reveal_strlit("EXPORT_PRICE");
    reveal_strlit("GHG");
    reveal_strlit("IMPORT_CAPACITY_AVAILABLE");
    reveal_strlit("IMPORT_CAPACITY_AVAILABLE_PRICE");
    reveal_strlit("IMPORT_CAPACITY_LIMIT");
    reveal_strlit("IMPORT_CAPACITY_RESERVATION");
    reveal_strlit("IMPORT_CAPACITY_RESERVATION_FEE");
    reveal_strlit("IMPORT_CAPACITY_SUBSCRIPTION");
    reveal_strlit("OLS");
    reveal_strlit("PRICE");
    reveal_strlit("SIMPLE");
    match v {
        EventType::Simple => {
        },
        EventType::Price => {
            assert("PRICE"@.len() != "SIMPLE"@.len());
        },
        EventType::ChargeStateSetpoint => {
            assert("CHARGE_STATE_SETPOINT"@.len() != "SIMPLE"@.len());
            assert("CHARGE_STATE_SETPOINT"@.len() != "PRICE"@.len());
        },
        EventType::DispatchSetpoint => {
            assert("DISPATCH_SETPOINT"@.len() != "SIMPLE"@.len());
            assert("DISPATCH_SETPOINT"@.len() != "PRICE"@.len());
            assert("DISPATCH_SETPOINT"@.len() != "CHARGE_STATE_SETPOINT"@.len());
        },
        EventType::DispatchSetpointRelative => {
            assert("DISPATCH_SETPOINT_RELATIVE"@.len() != "SIMPLE"@.len());
            assert("DISPATCH_SETPOINT_RELATIVE"@.len() != "PRICE"@.len());
            assert("DISPATCH_SETPOINT_RELATIVE"@.len() != "CHARGE_STATE_SETPOINT"@.len());
            assert("DISPATCH_SETPOINT_RELATIVE"@.len() != "DISPATCH_SETPOINT"@.len());
        },
        EventType::ControlSetpoint => {
            assert("CONTROL_SETPOINT"@.len() != "SIMPLE"@.len());
            assert("CONTROL_SETPOINT"@.len() != "PRICE"@.len());
            assert("CONTROL_SETPOINT"@.len() != "CHARGE_STATE_SETPOINT"@.len());
            assert("CONTROL_SETPOINT"@.len() != "DISPATCH_SETPOINT"@.len());
            assert("CONTROL_SETPOINT"@.len() != "DISPATCH_SETPOINT_RELATIVE"@.len());
        },
        EventType::ExportPrice => {
            assert("EXPORT_PRICE"@.len() != "SIMPLE"@.len());
            assert("EXPORT_PRICE"@.len() != "PRICE"@.len());
            assert("EXPORT_PRICE"@.len() != "CHARGE_STATE_SETPOINT"@.len());
            assert("EXPORT_PRICE"@.len() != "DISPATCH_SETPOINT"@.len());
            assert("EXPORT_PRICE"@.len() != "DISPATCH_SETPOINT_RELATIVE"@.len());
            assert("EXPORT_PRICE"@.len() != "CONTROL_SETPOINT"@.len());
        },
        EventType::GHG => {
            assert("GHG"@.len() != "SIMPLE"@.len());
            assert("GHG"@.len() != "PRICE"@.len());
            assert("GHG"@.len() != "CHARGE_STATE_SETPOINT"@.len());
            assert("GHG"@.len() != "DISPATCH_SETPOINT"@.len());
            assert("GHG"@.len() != "DISPATCH_SETPOINT_RELATIVE"@.len());
            assert("GHG"@.len() != "CONTROL_SETPOINT"@.len());
            assert("GHG"@.len() != "EXPORT_PRICE"@.len());
        },
        EventType::Curve => {
            assert("CURVE"@.len() != "SIMPLE"@.len());
            assert("CURVE"@[0] != "PRICE"@[0]);
            assert("CURVE"@.len() != "CHARGE_STATE_SETPOINT"@.len());
            assert("CURVE"@.len() != "DISPATCH_SETPOINT"@.len());
            assert("CURVE"@.len() != "DISPATCH_SETPOINT_RELATIVE"@.len());
            assert("CURVE"@.len() != "CONTROL_SETPOINT"@.len());
            assert("CURVE"@.len() != "EXPORT_PRICE"@.len());
            assert("CURVE"@.len() != "GHG"@.len());
        },
        EventType::OLS => {
            assert("OLS"@.len() != "SIMPLE"@.len());
            assert("OLS"@.len() != "PRICE"@.len());
            assert("OLS"@.len() != "CHARGE_STATE_SETPOINT"@.len());
            assert("OLS"@.len() != "DISPATCH_SETPOINT"@.len());
            assert("OLS"@.len() != "DISPATCH_SETPOINT_RELATIVE"@.len());
            assert("OLS"@.len() != "CONTROL_SETPOINT"@.len());
            assert("OLS"@.len() != "EXPORT_PRICE"@.len());
            assert("OLS"@[0] != "GHG"@[0]);
            assert("OLS"@.len() != "CURVE"@.len());
        },
        EventType::ImportCapacitySubscription => {
            assert("IMPORT_CAPACITY_SUBSCRIPTION"@.len() != "SIMPLE"@.len());
            assert("IMPORT_CAPACITY_SUBSCRIPTION"@.len() != "PRICE"@.len());
            assert("IMPORT_CAPACITY_SUBSCRIPTION"@.len() != "CHARGE_STATE_SETPOINT"@.len());
            assert("IMPORT_CAPACITY_SUBSCRIPTION"@.len() != "DISPATCH_SETPOINT"@.len());
            assert("IMPORT_CAPACITY_SUBSCRIPTION"@.len() != "DISPATCH_SETPOINT_RELATIVE"@.len());
            assert("IMPORT_CAPACITY_SUBSCRIPTION"@.len() != "CONTROL_SETPOINT"@.len());
            assert("IMPORT_CAPACITY_SUBSCRIPTION"@.len() != "EXPORT_PRICE"@.len());
            assert("IMPORT_CAPACITY_SUBSCRIPTION"@.len() != "GHG"@.len());
            assert("IMPORT_CAPACITY_SUBSCRIPTION"@.len() != "CURVE"@.len());
            assert("IMPORT_CAPACITY_SUBSCRIPTION"@.len() != "OLS"@.len());
        },
        EventType::ImportCapacityReservation => {
            assert("IMPORT_CAPACITY_RESERVATION"@.len() != "SIMPLE"@.len());
            assert("IMPORT_CAPACITY_RESERVATION"@.len() != "PRICE"@.len());
            assert("IMPORT_CAPACITY_RESERVATION"@.len() != "CHARGE_STATE_SETPOINT"@.len());
            assert("IMPORT_CAPACITY_RESERVATION"@.len() != "DISPATCH_SETPOINT"@.len());
            assert("IMPORT_CAPACITY_RESERVATION"@.len() != "DISPATCH_SETPOINT_RELATIVE"@.len());
            assert("IMPORT_CAPACITY_RESERVATION"@.len() != "CONTROL_SETPOINT"@.len());
            assert("IMPORT_CAPACITY_RESERVATION"@.len() != "EXPORT_PRICE"@.len());
            assert("IMPORT_CAPACITY_RESERVATION"@.len() != "GHG"@.len());
            assert("IMPORT_CAPACITY_RESERVATION"@.len() != "CURVE"@.len());
            assert("IMPORT_CAPACITY_RESERVATION"@.len() != "OLS"@.len());
            assert("IMPORT_CAPACITY_RESERVATION"@.len() != "IMPORT_CAPACITY_SUBSCRIPTION"@.len());
        },
        EventType::ImportCapacityReservationFee => {
            assert("IMPORT_CAPACITY_RESERVATION_FEE"@.len() != "SIMPLE"@.len());
            assert("IMPORT_CAPACITY_RESERVATION_FEE"@.len() != "PRICE"@.len());
            assert("IMPORT_CAPACITY_RESERVATION_FEE"@.len() != "CHARGE_STATE_SETPOINT"@.len());
            assert("IMPORT_CAPACITY_RESERVATION_FEE"@.len() != "DISPATCH_SETPOINT"@.len());
            assert("IMPORT_CAPACITY_RESERVATION_FEE"@.len() != "DISPATCH_SETPOINT_RELATIVE"@.len());
            assert("IMPORT_CAPACITY_RESERVATION_FEE"@.len() != "CONTROL_SETPOINT"@.len());
            assert("IMPORT_CAPACITY_RESERVATION_FEE"@.len() != "EXPORT_PRICE"@.len());
            assert("IMPORT_CAPACITY_RESERVATION_FEE"@.len() != "GHG"@.len());
            assert("IMPORT_CAPACITY_RESERVATION_FEE"@.len() != "CURVE"@.len());
            assert("IMPORT_CAPACITY_RESERVATION_FEE"@.len() != "OLS"@.len());
            assert("IMPORT_CAPACITY_RESERVATION_FEE"@.len() != "IMPORT_CAPACITY_SUBSCRIPTION"@.len());
            assert("IMPORT_CAPACITY_RESERVATION_FEE"@.len() != "IMPORT_CAPACITY_RESERVATION"@.len());
        },
        EventType::ImportCapacityAvailable => {
            assert("IMPORT_CAPACITY_AVAILABLE"@.len() != "SIMPLE"@.len());
            assert("IMPORT_CAPACITY_AVAILABLE"@.len() != "PRICE"@.len());
            assert("IMPORT_CAPACITY_AVAILABLE"@.len() != "CHARGE_STATE_SETPOINT"@.len());
            assert("IMPORT_CAPACITY_AVAILABLE"@.len() != "DISPATCH_SETPOINT"@.len());
            assert("IMPORT_CAPACITY_AVAILABLE"@.len() != "DISPATCH_SETPOINT_RELATIVE"@.len());
            assert("IMPORT_CAPACITY_AVAILABLE"@.len() != "CONTROL_SETPOINT"@.len());
            assert("IMPORT_CAPACITY_AVAILABLE"@.len() != "EXPORT_PRICE"@.len());
            assert("IMPORT_CAPACITY_AVAILABLE"@.len() != "GHG"@.len());
            assert("IMPORT_CAPACITY_AVAILABLE"@.len() != "CURVE"@.len());
            assert("IMPORT_CAPACITY_AVAILABLE"@.len() != "OLS"@.len());
            assert("IMPORT_CAPACITY_AVAILABLE"@.len() != "IMPORT_CAPACITY_SUBSCRIPTION"@.len());
            assert("IMPORT_CAPACITY_AVAILABLE"@.len() != "IMPORT_CAPACITY_RESERVATION"@.len());
            assert("IMPORT_CAPACITY_AVAILABLE"@.len() != "IMPORT_CAPACITY_RESERVATION_FEE"@.len());
        },
        EventType::ImportCapacityAvailablePrice => {
            assert("IMPORT_CAPACITY_AVAILABLE_PRICE"@.len() != "SIMPLE"@.len());
            assert("IMPORT_CAPACITY_AVAILABLE_PRICE"@.len() != "PRICE"@.len());
            assert("IMPORT_CAPACITY_AVAILABLE_PRICE"@.len() != "CHARGE_STATE_SETPOINT"@.len());
            assert("IMPORT_CAPACITY_AVAILABLE_PRICE"@.len() != "DISPATCH_SETPOINT"@.len());
            assert("IMPORT_CAPACITY_AVAILABLE_PRICE"@.len() != "DISPATCH_SETPOINT_RELATIVE"@.len());
            assert("IMPORT_CAPACITY_AVAILABLE_PRICE"@.len() != "CONTROL_SETPOINT"@.len());
            assert("IMPORT_CAPACITY_AVAILABLE_PRICE"@.len() != "EXPORT_PRICE"@.len());
            assert("IMPORT_CAPACITY_AVAILABLE_PRICE"@.len() != "GHG"@.len());
            assert("IMPORT_CAPACITY_AVAILABLE_PRICE"@.len() != "CURVE"@.len());
            assert("IMPORT_CAPACITY_AVAILABLE_PRICE"@.len() != "OLS"@.len());
            assert("IMPORT_CAPACITY_AVAILABLE_PRICE"@.len() != "IMPORT_CAPACITY_SUBSCRIPTION"@.len());
            assert("IMPORT_CAPACITY_AVAILABLE_PRICE"@.len() != "IMPORT_CAPACITY_RESERVATION"@.len());
            assert("IMPORT_CAPACITY_AVAILABLE_PRICE"@[16] != "IMPORT_CAPACITY_RESERVATION_FEE"@[16]);
            assert("IMPORT_CAPACITY_AVAILABLE_PRICE"@.len() != "IMPORT_CAPACITY_AVAILABLE"@.len());
        },
        EventType::ExportCapacitySubscription => {
            assert("EXPORT_CAPACITY_SUBSCRIPTION"@.len() != "SIMPLE"@.len());
            assert("EXPORT_CAPACITY_SUBSCRIPTION"@.len() != "PRICE"@.len());
            assert("EXPORT_CAPACITY_SUBSCRIPTION"@.len() != "CHARGE_STATE_SETPOINT"@.len());
            assert("EXPORT_CAPACITY_SUBSCRIPTION"@.len() != "DISPATCH_SETPOINT"@.len());
            assert("EXPORT_CAPACITY_SUBSCRIPTION"@.len() != "DISPATCH_SETPOINT_RELATIVE"@.len());
            assert("EXPORT_CAPACITY_SUBSCRIPTION"@.len() != "CONTROL_SETPOINT"@.len());
            assert("EXPORT_CAPACITY_SUBSCRIPTION"@.len() != "EXPORT_PRICE"@.len());
            assert("EXPORT_CAPACITY_SUBSCRIPTION"@.len() != "GHG"@.len());
            assert("EXPORT_CAPACITY_SUBSCRIPTION"@.len() != "CURVE"@.len());
            assert("EXPORT_CAPACITY_SUBSCRIPTION"@.len() != "OLS"@.len());
            assert("EXPORT_CAPACITY_SUBSCRIPTION"@[0] != "IMPORT_CAPACITY_SUBSCRIPTION"@[0]);
            assert("EXPORT_CAPACITY_SUBSCRIPTION"@.len() != "IMPORT_CAPACITY_RESERVATION"@.len());
            assert("EXPORT_CAPACITY_SUBSCRIPTION"@.len() != "IMPORT_CAPACITY_RESERVATION_FEE"@.len());
            assert("EXPORT_CAPACITY_SUBSCRIPTION"@.len() != "IMPORT_CAPACITY_AVAILABLE"@.len());
            assert("EXPORT_CAPACITY_SUBSCRIPTION"@.len() != "IMPORT_CAPACITY_AVAILABLE_PRICE"@.len());
        },
        EventType::ExportCapacityReservation => {
            assert("EXPORT_CAPACITY_RESERVATION"@.len() != "SIMPLE"@.len());
            assert("EXPORT_CAPACITY_RESERVATION"@.len() != "PRICE"@.len());
            assert("EXPORT_CAPACITY_RESERVATION"@.len() != "CHARGE_STATE_SETPOINT"@.len());
            assert("EXPORT_CAPACITY_RESERVATION"@.len() != "DISPATCH_SETPOINT"@.len());
            assert("EXPORT_CAPACITY_RESERVATION"@.len() != "DISPATCH_SETPOINT_RELATIVE"@.len());
            assert("EXPORT_CAPACITY_RESERVATION"@.len() != "CONTROL_SETPOINT"@.len());
            assert("EXPORT_CAPACITY_RESERVATION"@.len() != "EXPORT_PRICE"@.len());
            assert("EXPORT_CAPACITY_RESERVATION"@.len() != "GHG"@.len());
            assert("EXPORT_CAPACITY_RESERVATION"@.len() != "CURVE"@.len());
            assert("EXPORT_CAPACITY_RESERVATION"@.len() != "OLS"@.len());
            assert("EXPORT_CAPACITY_RESERVATION"@.len() != "IMPORT_CAPACITY_SUBSCRIPTION"@.len());
            assert("EXPORT_CAPACITY_RESERVATION"@[0] != "IMPORT_CAPACITY_RESERVATION"@[0]);
            assert("EXPORT_CAPACITY_RESERVATION"@.len() != "IMPORT_CAPACITY_RESERVATION_FEE"@.len());
            assert("EXPORT_CAPACITY_RESERVATION"@.len() != "IMPORT_CAPACITY_AVAILABLE"@.len());
            assert("EXPORT_CAPACITY_RESERVATION"@.len() != "IMPORT_CAPACITY_AVAILABLE_PRICE"@.len());
            assert("EXPORT_CAPACITY_RESERVATION"@.len() != "EXPORT_CAPACITY_SUBSCRIPTION"@.len());
        },
        EventType::ExportCapacityReservationFee => {
            assert("EXPORT_CAPACITY_RESERVATION_FEE"@.len() != "SIMPLE"@.len());
            assert("EXPORT_CAPACITY_RESERVATION_FEE"@.len() != "PRICE"@.len());
            assert("EXPORT_CAPACITY_RESERVATION_FEE"@.len() != "CHARGE_STATE_SETPOINT"@.len());
            assert("EXPORT_CAPACITY_RESERVATION_FEE"@.len() != "DISPATCH_SETPOINT"@.len());
            assert("EXPORT_CAPACITY_RESERVATION_FEE"@.len() != "DISPATCH_SETPOINT_RELATIVE"@.len());
            assert("EXPORT_CAPACITY_RESERVATION_FEE"@.len() != "CONTROL_SETPOINT"@.len());
            assert("EXPORT_CAPACITY_RESERVATION_FEE"@.len() != "EXPORT_PRICE"@.len());
            assert("EXPORT_CAPACITY_RESERVATION_FEE"@.len() != "GHG"@.len());
            assert("EXPORT_CAPACITY_RESERVATION_FEE"@.len() != "CURVE"@.len());
            assert("EXPORT_CAPACITY_RESERVATION_FEE"@.len() != "OLS"@.len());
            assert("EXPORT_CAPACITY_RESERVATION_FEE"@.len() != "IMPORT_CAPACITY_SUBSCRIPTION"@.len());
            assert("EXPORT_CAPACITY_RESERVATION_FEE"@.len() != "IMPORT_CAPACITY_RESERVATION"@.len());
            assert("EXPORT_CAPACITY_RESERVATION_FEE"@[0] != "IMPORT_CAPACITY_RESERVATION_FEE"@[0]);
            assert("EXPORT_CAPACITY_RESERVATION_FEE"@.len() != "IMPORT_CAPACITY_AVAILABLE"@.len());
            assert("EXPORT_CAPACITY_RESERVATION_FEE"@[0] != "IMPORT_CAPACITY_AVAILABLE_PRICE"@[0]);
            assert("EXPORT_CAPACITY_RESERVATION_FEE"@.len() != "EXPORT_CAPACITY_SUBSCRIPTION"@.len());
            assert("EXPORT_CAPACITY_RESERVATION_FEE"@.len() != "EXPORT_CAPACITY_RESERVATION"@.len());
        },
        EventType::ExportCapacityAvailable => {
            assert("EXPORT_CAPACITY_AVAILABLE"@.len() != "SIMPLE"@.len());
            assert("EXPORT_CAPACITY_AVAILABLE"@.len() != "PRICE"@.len());
            assert("EXPORT_CAPACITY_AVAILABLE"@.len() != "CHARGE_STATE_SETPOINT"@.len());
            assert("EXPORT_CAPACITY_AVAILABLE"@.len() != "DISPATCH_SETPOINT"@.len());
            assert("EXPORT_CAPACITY_AVAILABLE"@.len() != "DISPATCH_SETPOINT_RELATIVE"@.len());
            assert("EXPORT_CAPACITY_AVAILABLE"@.len() != "CONTROL_SETPOINT"@.len());
            assert("EXPORT_CAPACITY_AVAILABLE"@.len() != "EXPORT_PRICE"@.len());
            assert("EXPORT_CAPACITY_AVAILABLE"@.len() != "GHG"@.len());
            assert("EXPORT_CAPACITY_AVAILABLE"@.len() != "CURVE"@.len());
            assert("EXPORT_CAPACITY_AVAILABLE"@.len() != "OLS"@.len());
            assert("EXPORT_CAPACITY_AVAILABLE"@.len() != "IMPORT_CAPACITY_SUBSCRIPTION"@.len());
            assert("EXPORT_CAPACITY_AVAILABLE"@.len() != "IMPORT_CAPACITY_RESERVATION"@.len());
            assert("EXPORT_CAPACITY_AVAILABLE"@.len() != "IMPORT_CAPACITY_RESERVATION_FEE"@.len());
            assert("EXPORT_CAPACITY_AVAILABLE"@[0] != "IMPORT_CAPACITY_AVAILABLE"@[0]);
            assert("EXPORT_CAPACITY_AVAILABLE"@.len() != "IMPORT_CAPACITY_AVAILABLE_PRICE"@.len());
            assert("EXPORT_CAPACITY_AVAILABLE"@.len() != "EXPORT_CAPACITY_SUBSCRIPTION"@.len());
            assert("EXPORT_CAPACITY_AVAILABLE"@.len() != "EXPORT_CAPACITY_RESERVATION"@.len());
            assert("EXPORT_CAPACITY_AVAILABLE"@.len() != "EXPORT_CAPACITY_RESERVATION_FEE"@.len());
        },
        EventType::ExportCapacityAvailablePrice => {
            assert("EXPORT_CAPACITY_AVAILABLE_PRICE"@.len() != "SIMPLE"@.len());
            assert("EXPORT_CAPACITY_AVAILABLE_PRICE"@.len() != "PRICE"@.len());
            assert("EXPORT_CAPACITY_AVAILABLE_PRICE"@.len() != "CHARGE_STATE_SETPOINT"@.len());
            assert("EXPORT_CAPACITY_AVAILABLE_PRICE"@.len() != "DISPATCH_SETPOINT"@.len());
            assert("EXPORT_CAPACITY_AVAILABLE_PRICE"@.len() != "DISPATCH_SETPOINT_RELATIVE"@.len());
            assert("EXPORT_CAPACITY_AVAILABLE_PRICE"@.len() != "CONTROL_SETPOINT"@.len());
            assert("EXPORT_CAPACITY_AVAILABLE_PRICE"@.len() != "EXPORT_PRICE"@.len());
            assert("EXPORT_CAPACITY_AVAILABLE_PRICE"@.len() != "GHG"@.len());
            assert("EXPORT_CAPACITY_AVAILABLE_PRICE"@.len() != "CURVE"@.len());
            assert("EXPORT_CAPACITY_AVAILABLE_PRICE"@.len() != "OLS"@.len());
            assert("EXPORT_CAPACITY_AVAILABLE_PRICE"@.len() != "IMPORT_CAPACITY_SUBSCRIPTION"@.len());
            assert("EXPORT_CAPACITY_AVAILABLE_PRICE"@.len() != "IMPORT_CAPACITY_RESERVATION"@.len());
            assert("EXPORT_CAPACITY_AVAILABLE_PRICE"@[0] != "IMPORT_CAPACITY_RESERVATION_FEE"@[0]);
            assert("EXPORT_CAPACITY_AVAILABLE_PRICE"@.len() != "IMPORT_CAPACITY_AVAILABLE"@.len());
            assert("EXPORT_CAPACITY_AVAILABLE_PRICE"@[0] != "IMPORT_CAPACITY_AVAILABLE_PRICE"@[0]);
            assert("EXPORT_CAPACITY_AVAILABLE_PRICE"@.len() != "EXPORT_CAPACITY_SUBSCRIPTION"@.len());
            assert("EXPORT_CAPACITY_AVAILABLE_PRICE"@.len() != "EXPORT_CAPACITY_RESERVATION"@.len());
            assert("EXPORT_CAPACITY_AVAILABLE_PRICE"@[16] != "EXPORT_CAPACITY_RESERVATION_FEE"@[16]);
            assert("EXPORT_CAPACITY_AVAILABLE_PRICE"@.len() != "EXPORT_CAPACITY_AVAILABLE"@.len());
        },
        EventType::ImportCapacityLimit => {
            assert("IMPORT_CAPACITY_LIMIT"@.len() != "SIMPLE"@.len());
            assert("IMPORT_CAPACITY_LIMIT"@.len() != "PRICE"@.len());
            assert("IMPORT_CAPACITY_LIMIT"@[0] != "CHARGE_STATE_SETPOINT"@[0]);
            assert("IMPORT_CAPACITY_LIMIT"@.len() != "DISPATCH_SETPOINT"@.len());
            assert("IMPORT_CAPACITY_LIMIT"@.len() != "DISPATCH_SETPOINT_RELATIVE"@.len());
            assert("IMPORT_CAPACITY_LIMIT"@.len() != "CONTROL_SETPOINT"@.len());
            assert("IMPORT_CAPACITY_LIMIT"@.len() != "EXPORT_PRICE"@.len());
            assert("IMPORT_CAPACITY_LIMIT"@.len() != "GHG"@.len());
            assert("IMPORT_CAPACITY_LIMIT"@.len() != "CURVE"@.len());
            assert("IMPORT_CAPACITY_LIMIT"@.len() != "OLS"@.len());
            assert("IMPORT_CAPACITY_LIMIT"@.len() != "IMPORT_CAPACITY_SUBSCRIPTION"@.len());
            assert("IMPORT_CAPACITY_LIMIT"@.len() != "IMPORT_CAPACITY_RESERVATION"@.len());
            assert("IMPORT_CAPACITY_LIMIT"@.len() != "IMPORT_CAPACITY_RESERVATION_FEE"@.len());
            assert("IMPORT_CAPACITY_LIMIT"@.len() != "IMPORT_CAPACITY_AVAILABLE"@.len());
            assert("IMPORT_CAPACITY_LIMIT"@.len() != "IMPORT_CAPACITY_AVAILABLE_PRICE"@.len());
            assert("IMPORT_CAPACITY_LIMIT"@.len() != "EXPORT_CAPACITY_SUBSCRIPTION"@.len());
            assert("IMPORT_CAPACITY_LIMIT"@.len() != "EXPORT_CAPACITY_RESERVATION"@.len());
            assert("IMPORT_CAPACITY_LIMIT"@.len() != "EXPORT_CAPACITY_RESERVATION_FEE"@.len());
            assert("IMPORT_CAPACITY_LIMIT"@.len() != "EXPORT_CAPACITY_AVAILABLE"@.len());
            assert("IMPORT_CAPACITY_LIMIT"@.len() != "EXPORT_CAPACITY_AVAILABLE_PRICE"@.len());
        },
        EventType::ExportCapacityLimit => {
            assert("EXPORT_CAPACITY_LIMIT"@.len() != "SIMPLE"@.len());
            assert("EXPORT_CAPACITY_LIMIT"@.len() != "PRICE"@.len());
            assert("EXPORT_CAPACITY_LIMIT"@[0] != "CHARGE_STATE_SETPOINT"@[0]);
            assert("EXPORT_CAPACITY_LIMIT"@.len() != "DISPATCH_SETPOINT"@.len());
            assert("EXPORT_CAPACITY_LIMIT"@.len() != "DISPATCH_SETPOINT_RELATIVE"@.len());
            assert("EXPORT_CAPACITY_LIMIT"@.len() != "CONTROL_SETPOINT"@.len());
            assert("EXPORT_CAPACITY_LIMIT"@.len() != "EXPORT_PRICE"@.len());
            assert("EXPORT_CAPACITY_LIMIT"@.len() != "GHG"@.len());
            assert("EXPORT_CAPACITY_LIMIT"@.len() != "CURVE"@.len());
            assert("EXPORT_CAPACITY_LIMIT"@.len() != "OLS"@.len());
            assert("EXPORT_CAPACITY_LIMIT"@.len() != "IMPORT_CAPACITY_SUBSCRIPTION"@.len());
            assert("EXPORT_CAPACITY_LIMIT"@.len() != "IMPORT_CAPACITY_RESERVATION"@.len());
            assert("EXPORT_CAPACITY_LIMIT"@.len() != "IMPORT_CAPACITY_RESERVATION_FEE"@.len());
            assert("EXPORT_CAPACITY_LIMIT"@.len() != "IMPORT_CAPACITY_AVAILABLE"@.len());
            assert("EXPORT_CAPACITY_LIMIT"@.len() != "IMPORT_CAPACITY_AVAILABLE_PRICE"@.len());
            assert("EXPORT_CAPACITY_LIMIT"@.len() != "EXPORT_CAPACITY_SUBSCRIPTION"@.len());
            assert("EXPORT_CAPACITY_LIMIT"@.len() != "EXPORT_CAPACITY_RESERVATION"@.len());
            assert("EXPORT_CAPACITY_LIMIT"@.len() != "EXPORT_CAPACITY_RESERVATION_FEE"@.len());
            assert("EXPORT_CAPACITY_LIMIT"@.len() != "EXPORT_CAPACITY_AVAILABLE"@.len());
            assert("EXPORT_CAPACITY_LIMIT"@.len() != "EXPORT_CAPACITY_AVAILABLE_PRICE"@.len());
            assert("EXPORT_CAPACITY_LIMIT"@[0] != "IMPORT_CAPACITY_LIMIT"@[0]);
        },
        EventType::AlertGridEmergency => {
            assert("ALERT_GRID_EMERGENCY"@.len() != "SIMPLE"@.len());
            assert("ALERT_GRID_EMERGENCY"@.len() != "PRICE"@.len());
            assert("ALERT_GRID_EMERGENCY"@.len() != "CHARGE_STATE_SETPOINT"@.len());
            assert("ALERT_GRID_EMERGENCY"@.len() != "DISPATCH_SETPOINT"@.len());
            assert("ALERT_GRID_EMERGENCY"@.len() != "DISPATCH_SETPOINT_RELATIVE"@.len());
            assert("ALERT_GRID_EMERGENCY"@.len() != "CONTROL_SETPOINT"@.len());
            assert("ALERT_GRID_EMERGENCY"@.len() != "EXPORT_PRICE"@.len());
            assert("ALERT_GRID_EMERGENCY"@.len() != "GHG"@.len());
            assert("ALERT_GRID_EMERGENCY"@.len() != "CURVE"@.len());
            assert("ALERT_GRID_EMERGENCY"@.len() != "OLS"@.len());
            assert("ALERT_GRID_EMERGENCY"@.len() != "IMPORT_CAPACITY_SUBSCRIPTION"@.len());
            assert("ALERT_GRID_EMERGENCY"@.len() != "IMPORT_CAPACITY_RESERVATION"@.len());
            assert("ALERT_GRID_EMERGENCY"@.len() != "IMPORT_CAPACITY_RESERVATION_FEE"@.len());
            assert("ALERT_GRID_EMERGENCY"@.len() != "IMPORT_CAPACITY_AVAILABLE"@.len());
            assert("ALERT_GRID_EMERGENCY"@.len() != "IMPORT_CAPACITY_AVAILABLE_PRICE"@.len());
            assert("ALERT_GRID_EMERGENCY"@.len() != "EXPORT_CAPACITY_SUBSCRIPTION"@.len());
            assert("ALERT_GRID_EMERGENCY"@.len() != "EXPORT_CAPACITY_RESERVATION"@.len());
            assert("ALERT_GRID_EMERGENCY"@.len() != "EXPORT_CAPACITY_RESERVATION_FEE"@.len());
            assert("ALERT_GRID_EMERGENCY"@.len() != "EXPORT_CAPACITY_AVAILABLE"@.len());
            assert("ALERT_GRID_EMERGENCY"@.len() != "EXPORT_CAPACITY_AVAILABLE_PRICE"@.len());
            assert("ALERT_GRID_EMERGENCY"@.len() != "IMPORT_CAPACITY_LIMIT"@.len());
            assert("ALERT_GRID_EMERGENCY"@.len() != "EXPORT_CAPACITY_LIMIT"@.len());
        },
        EventType::AlertBlackStart => {
            assert("ALERT_BLACK_START"@.len() != "SIMPLE"@.len());
            assert("ALERT_BLACK_START"@.len() != "PRICE"@.len());
            assert("ALERT_BLACK_START"@.len() != "CHARGE_STATE_SETPOINT"@.len());
            assert("ALERT_BLACK_START"@[0] != "DISPATCH_SETPOINT"@[0]);
            assert("ALERT_BLACK_START"@.len() != "DISPATCH_SETPOINT_RELATIVE"@.len());
            assert("ALERT_BLACK_START"@.len() != "CONTROL_SETPOINT"@.len());
            assert("ALERT_BLACK_START"@.len() != "EXPORT_PRICE"@.len());
            assert("ALERT_BLACK_START"@.len() != "GHG"@.len());
            assert("ALERT_BLACK_START"@.len() != "CURVE"@.len());
            assert("ALERT_BLACK_START"@.len() != "OLS"@.len());
            assert("ALERT_BLACK_START"@.len() != "IMPORT_CAPACITY_SUBSCRIPTION"@.len());
            assert("ALERT_BLACK_START"@.len() != "IMPORT_CAPACITY_RESERVATION"@.len());
            assert("ALERT_BLACK_START"@.len() != "IMPORT_CAPACITY_RESERVATION_FEE"@.len());
            assert("ALERT_BLACK_START"@.len() != "IMPORT_CAPACITY_AVAILABLE"@.len());
            assert("ALERT_BLACK_START"@.len() != "IMPORT_CAPACITY_AVAILABLE_PRICE"@.len());
            assert("ALERT_BLACK_START"@.len() != "EXPORT_CAPACITY_SUBSCRIPTION"@.len());
            assert("ALERT_BLACK_START"@.len() != "EXPORT_CAPACITY_RESERVATION"@.len());
            assert("ALERT_BLACK_START"@.len() != "EXPORT_CAPACITY_RESERVATION_FEE"@.len());
            assert("ALERT_BLACK_START"@.len() != "EXPORT_CAPACITY_AVAILABLE"@.len());
            assert("ALERT_BLACK_START"@.len() != "EXPORT_CAPACITY_AVAILABLE_PRICE"@.len());
            assert("ALERT_BLACK_START"@.len() != "IMPORT_CAPACITY_LIMIT"@.len());
            assert("ALERT_BLACK_START"@.len() != "EXPORT_CAPACITY_LIMIT"@.len());
            assert("ALERT_BLACK_START"@.len() != "ALERT_GRID_EMERGENCY"@.len());
        },
        EventType::AlertPossibleOutage => {
            assert("ALERT_POSSIBLE_OUTAGE"@.len() != "SIMPLE"@.len());
            assert("ALERT_POSSIBLE_OUTAGE"@.len() != "PRICE"@.len());
            assert("ALERT_POSSIBLE_OUTAGE"@[0] != "CHARGE_STATE_SETPOINT"@[0]);
            assert("ALERT_POSSIBLE_OUTAGE"@.len() != "DISPATCH_SETPOINT"@.len());
            assert("ALERT_POSSIBLE_OUTAGE"@.len() != "DISPATCH_SETPOINT_RELATIVE"@.len());
            assert("ALERT_POSSIBLE_OUTAGE"@.len() != "CONTROL_SETPOINT"@.len());
            assert("ALERT_POSSIBLE_OUTAGE"@.len() != "EXPORT_PRICE"@.len());
            assert("ALERT_POSSIBLE_OUTAGE"@.len() != "GHG"@.len());
            assert("ALERT_POSSIBLE_OUTAGE"@.len() != "CURVE"@.len());
            assert("ALERT_POSSIBLE_OUTAGE"@.len() != "OLS"@.len());
            assert("ALERT_POSSIBLE_OUTAGE"@.len() != "IMPORT_CAPACITY_SUBSCRIPTION"@.len());
            assert("ALERT_POSSIBLE_OUTAGE"@.len() != "IMPORT_CAPACITY_RESERVATION"@.len());
            assert("ALERT_POSSIBLE_OUTAGE"@.len() != "IMPORT_CAPACITY_RESERVATION_FEE"@.len());
            assert("ALERT_POSSIBLE_OUTAGE"@.len() != "IMPORT_CAPACITY_AVAILABLE"@.len());
            assert("ALERT_POSSIBLE_OUTAGE"@.len() != "IMPORT_CAPACITY_AVAILABLE_PRICE"@.len());
            assert("ALERT_POSSIBLE_OUTAGE"@.len() != "EXPORT_CAPACITY_SUBSCRIPTION"@.len());
            assert("ALERT_POSSIBLE_OUTAGE"@.len() != "EXPORT_CAPACITY_RESERVATION"@.len());
            assert("ALERT_POSSIBLE_OUTAGE"@.len() != "EXPORT_CAPACITY_RESERVATION_FEE"@.len());
            assert("ALERT_POSSIBLE_OUTAGE"@.len() != "EXPORT_CAPACITY_AVAILABLE"@.len());
            assert("ALERT_POSSIBLE_OUTAGE"@.len() != "EXPORT_CAPACITY_AVAILABLE_PRICE"@.len());
            assert("ALERT_POSSIBLE_OUTAGE"@[0] != "IMPORT_CAPACITY_LIMIT"@[0]);
            assert("ALERT_POSSIBLE_OUTAGE"@[0] != "EXPORT_CAPACITY_LIMIT"@[0]);
            assert("ALERT_POSSIBLE_OUTAGE"@.len() != "ALERT_GRID_EMERGENCY"@.len());
            assert("ALERT_POSSIBLE_OUTAGE"@.len() != "ALERT_BLACK_START"@.len());
        },
        EventType::AlertFlexAlert => {
            assert("ALERT_FLEX_ALERT"@.len() != "SIMPLE"@.len());
            assert("ALERT_FLEX_ALERT"@.len() != "PRICE"@.len());
            assert("ALERT_FLEX_ALERT"@.len() != "CHARGE_STATE_SETPOINT"@.len());
            assert("ALERT_FLEX_ALERT"@.len() != "DISPATCH_SETPOINT"@.len());
            assert("ALERT_FLEX_ALERT"@.len() != "DISPATCH_SETPOINT_RELATIVE"@.len());
            assert("ALERT_FLEX_ALERT"@[0] != "CONTROL_SETPOINT"@[0]);
            assert("ALERT_FLEX_ALERT"@.len() != "EXPORT_PRICE"@.len());
            assert("ALERT_FLEX_ALERT"@.len() != "GHG"@.len());
            assert("ALERT_FLEX_ALERT"@.len() != "CURVE"@.len());
            assert("ALERT_FLEX_ALERT"@.len() != "OLS"@.len());
            assert("ALERT_FLEX_ALERT"@.len() != "IMPORT_CAPACITY_SUBSCRIPTION"@.len());
            assert("ALERT_FLEX_ALERT"@.len() != "IMPORT_CAPACITY_RESERVATION"@.len());
            assert("ALERT_FLEX_ALERT"@.len() != "IMPORT_CAPACITY_RESERVATION_FEE"@.len());
            assert("ALERT_FLEX_ALERT"@.len() != "IMPORT_CAPACITY_AVAILABLE"@.len());
            assert("ALERT_FLEX_ALERT"@.len() != "IMPORT_CAPACITY_AVAILABLE_PRICE"@.len());
            assert("ALERT_FLEX_ALERT"@.len() != "EXPORT_CAPACITY_SUBSCRIPTION"@.len());
            assert("ALERT_FLEX_ALERT"@.len() != "EXPORT_CAPACITY_RESERVATION"@.len());
            assert("ALERT_FLEX_ALERT"@.len() != "EXPORT_CAPACITY_RESERVATION_FEE"@.len());
            assert("ALERT_FLEX_ALERT"@.len() != "EXPORT_CAPACITY_AVAILABLE"@.len());
            assert("ALERT_FLEX_ALERT"@.len() != "EXPORT_CAPACITY_AVAILABLE_PRICE"@.len());
            assert("ALERT_FLEX_ALERT"@.len() != "IMPORT_CAPACITY_LIMIT"@.len());
            assert("ALERT_FLEX_ALERT"@.len() != "EXPORT_CAPACITY_LIMIT"@.len());
            assert("ALERT_FLEX_ALERT"@.len() != "ALERT_GRID_EMERGENCY"@.len());
            assert("ALERT_FLEX_ALERT"@.len() != "ALERT_BLACK_START"@.len());
            assert("ALERT_FLEX_ALERT"@.len() != "ALERT_POSSIBLE_OUTAGE"@.len());
        },
        EventType::AlertFire => {
            assert("ALERT_FIRE"@.len() != "SIMPLE"@.len());
            assert("ALERT_FIRE"@.len() != "PRICE"@.len());
            assert("ALERT_FIRE"@.len() != "CHARGE_STATE_SETPOINT"@.len());
            assert("ALERT_FIRE"@.len() != "DISPATCH_SETPOINT"@.len());
            assert("ALERT_FIRE"@.len() != "DISPATCH_SETPOINT_RELATIVE"@.len());
            assert("ALERT_FIRE"@.len() != "CONTROL_SETPOINT"@.len());
            assert("ALERT_FIRE"@.len() != "EXPORT_PRICE"@.len());
            assert("ALERT_FIRE"@.len() != "GHG"@.len());
            assert("ALERT_FIRE"@.len() != "CURVE"@.len());
            assert("ALERT_FIRE"@.len() != "OLS"@.len());
            assert("ALERT_FIRE"@.len() != "IMPORT_CAPACITY_SUBSCRIPTION"@.len());
            assert("ALERT_FIRE"@.len() != "IMPORT_CAPACITY_RESERVATION"@.len());
            assert("ALERT_FIRE"@.len() != "IMPORT_CAPACITY_RESERVATION_FEE"@.len());
            assert("ALERT_FIRE"@.len() != "IMPORT_CAPACITY_AVAILABLE"@.len());
            assert("ALERT_FIRE"@.len() != "IMPORT_CAPACITY_AVAILABLE_PRICE"@.len());
            assert("ALERT_FIRE"@.len() != "EXPORT_CAPACITY_SUBSCRIPTION"@.len());
            assert("ALERT_FIRE"@.len() != "EXPORT_CAPACITY_RESERVATION"@.len());
            assert("ALERT_FIRE"@.len() != "EXPORT_CAPACITY_RESERVATION_FEE"@.len());
            assert("ALERT_FIRE"@.len() != "EXPORT_CAPACITY_AVAILABLE"@.len());
            assert("ALERT_FIRE"@.len() != "EXPORT_CAPACITY_AVAILABLE_PRICE"@.len());
            assert("ALERT_FIRE"@.len() != "IMPORT_CAPACITY_LIMIT"@.len());
            assert("ALERT_FIRE"@.len() != "EXPORT_CAPACITY_LIMIT"@.len());
            assert("ALERT_FIRE"@.len() != "ALERT_GRID_EMERGENCY"@.len());
            assert("ALERT_FIRE"@.len() != "ALERT_BLACK_START"@.len());
            assert("ALERT_FIRE"@.len() != "ALERT_POSSIBLE_OUTAGE"@.len());
            assert("ALERT_FIRE"@.len() != "ALERT_FLEX_ALERT"@.len());
        },
        EventType::AlertFreezing => {
            assert("ALERT_FREEZING"@.len() != "SIMPLE"@.len());
            assert("ALERT_FREEZING"@.len() != "PRICE"@.len());
            assert("ALERT_FREEZING"@.len() != "CHARGE_STATE_SETPOINT"@.len());
            assert("ALERT_FREEZING"@.len() != "DISPATCH_SETPOINT"@.len());
            assert("ALERT_FREEZING"@.len() != "DISPATCH_SETPOINT_RELATIVE"@.len());
            assert("ALERT_FREEZING"@.len() != "CONTROL_SETPOINT"@.len());
            assert("ALERT_FREEZING"@.len() != "EXPORT_PRICE"@.len());
            assert("ALERT_FREEZING"@.len() != "GHG"@.len());
            assert("ALERT_FREEZING"@.len() != "CURVE"@.len());
            assert("ALERT_FREEZING"@.len() != "OLS"@.len());
            assert("ALERT_FREEZING"@.len() != "IMPORT_CAPACITY_SUBSCRIPTION"@.len());
            assert("ALERT_FREEZING"@.len() != "IMPORT_CAPACITY_RESERVATION"@.len());
            assert("ALERT_FREEZING"@.len() != "IMPORT_CAPACITY_RESERVATION_FEE"@.len());
            assert("ALERT_FREEZING"@.len() != "IMPORT_CAPACITY_AVAILABLE"@.len());
            assert("ALERT_FREEZING"@.len() != "IMPORT_CAPACITY_AVAILABLE_PRICE"@.len());
            assert("ALERT_FREEZING"@.len() != "EXPORT_CAPACITY_SUBSCRIPTION"@.len());
            assert("ALERT_FREEZING"@.len() != "EXPORT_CAPACITY_RESERVATION"@.len());
            assert("ALERT_FREEZING"@.len() != "EXPORT_CAPACITY_RESERVATION_FEE"@.len());
            assert("ALERT_FREEZING"@.len() != "EXPORT_CAPACITY_AVAILABLE"@.len());
            assert("ALERT_FREEZING"@.len() != "EXPORT_CAPACITY_AVAILABLE_PRICE"@.len());
            assert("ALERT_FREEZING"@.len() != "IMPORT_CAPACITY_LIMIT"@.len());
            assert("ALERT_FREEZING"@.len() != "EXPORT_CAPACITY_LIMIT"@.len());
            assert("ALERT_FREEZING"@.len() != "ALERT_GRID_EMERGENCY"@.len());
            assert("ALERT_FREEZING"@.len() != "ALERT_BLACK_START"@.len());
            assert("ALERT_FREEZING"@.len() != "ALERT_POSSIBLE_OUTAGE"@.len());
            assert("ALERT_FREEZING"@.len() != "ALERT_FLEX_ALERT"@.len());
            assert("ALERT_FREEZING"@.len() != "ALERT_FIRE"@.len());
        },
        EventType::AlertWind => {
            assert("ALERT_WIND"@.len() != "SIMPLE"@.len());
            assert("ALERT_WIND"@.len() != "PRICE"@.len());
            assert("ALERT_WIND"@.len() != "CHARGE_STATE_SETPOINT"@.len());
            assert("ALERT_WIND"@.len() != "DISPATCH_SETPOINT"@.len());
            assert("ALERT_WIND"@.len() != "DISPATCH_SETPOINT_RELATIVE"@.len());
            assert("ALERT_WIND"@.len() != "CONTROL_SETPOINT"@.len());
            assert("ALERT_WIND"@.len() != "EXPORT_PRICE"@.len());
            assert("ALERT_WIND"@.len() != "GHG"@.len());
            assert("ALERT_WIND"@.len() != "CURVE"@.len());
            assert("ALERT_WIND"@.len() != "OLS"@.len());
            assert("ALERT_WIND"@.len() != "IMPORT_CAPACITY_SUBSCRIPTION"@.len());
            assert("ALERT_WIND"@.len() != "IMPORT_CAPACITY_RESERVATION"@.len());
            assert("ALERT_WIND"@.len() != "IMPORT_CAPACITY_RESERVATION_FEE"@.len());
            assert("ALERT_WIND"@.len() != "IMPORT_CAPACITY_AVAILABLE"@.len());
            assert("ALERT_WIND"@.len() != "IMPORT_CAPACITY_AVAILABLE_PRICE"@.len());
            assert("ALERT_WIND"@.len() != "EXPORT_CAPACITY_SUBSCRIPTION"@.len());
            assert("ALERT_WIND"@.len() != "EXPORT_CAPACITY_RESERVATION"@.len());
            assert("ALERT_WIND"@.len() != "EXPORT_CAPACITY_RESERVATION_FEE"@.len());
            assert("ALERT_WIND"@.len() != "EXPORT_CAPACITY_AVAILABLE"@.len());
            assert("ALERT_WIND"@.len() != "EXPORT_CAPACITY_AVAILABLE_PRICE"@.len());
            assert("ALERT_WIND"@.len() != "IMPORT_CAPACITY_LIMIT"@.len());
            assert("ALERT_WIND"@.len() != "EXPORT_CAPACITY_LIMIT"@.len());
            assert("ALERT_WIND"@.len() != "ALERT_GRID_EMERGENCY"@.len());
            assert("ALERT_WIND"@.len() != "ALERT_BLACK_START"@.len());
            assert("ALERT_WIND"@.len() != "ALERT_POSSIBLE_OUTAGE"@.len());
            assert("ALERT_WIND"@.len() != "ALERT_FLEX_ALERT"@.len());
            assert("ALERT_WIND"@[6] != "ALERT_FIRE"@[6]);
            assert("ALERT_WIND"@.len() != "ALERT_FREEZING"@.len());
        },
        EventType::AlertTsunami => {
            assert("ALERT_TSUNAMI"@.len() != "SIMPLE"@.len());
            assert("ALERT_TSUNAMI"@.len() != "PRICE"@.len());
            assert("ALERT_TSUNAMI"@.len() != "CHARGE_STATE_SETPOINT"@.len());
            assert("ALERT_TSUNAMI"@.len() != "DISPATCH_SETPOINT"@.len());
            assert("ALERT_TSUNAMI"@.len() != "DISPATCH_SETPOINT_RELATIVE"@.len());
            assert("ALERT_TSUNAMI"@.len() != "CONTROL_SETPOINT"@.len());
            assert("ALERT_TSUNAMI"@.len() != "EXPORT_PRICE"@.len());
            assert("ALERT_TSUNAMI"@.len() != "GHG"@.len());
            assert("ALERT_TSUNAMI"@.len() != "CURVE"@.len());
            assert("ALERT_TSUNAMI"@.len() != "OLS"@.len());
            assert("ALERT_TSUNAMI"@.len() != "IMPORT_CAPACITY_SUBSCRIPTION"@.len());
            assert("ALERT_TSUNAMI"@.len() != "IMPORT_CAPACITY_RESERVATION"@.len());
            assert("ALERT_TSUNAMI"@.len() != "IMPORT_CAPACITY_RESERVATION_FEE"@.len());
            assert("ALERT_TSUNAMI"@.len() != "IMPORT_CAPACITY_AVAILABLE"@.len());
            assert("ALERT_TSUNAMI"@.len() != "IMPORT_CAPACITY_AVAILABLE_PRICE"@.len());
            assert("ALERT_TSUNAMI"@.len() != "EXPORT_CAPACITY_SUBSCRIPTION"@.len());
            assert("ALERT_TSUNAMI"@.len() != "EXPORT_CAPACITY_RESERVATION"@.len());
            assert("ALERT_TSUNAMI"@.len() != "EXPORT_CAPACITY_RESERVATION_FEE"@.len());
            assert("ALERT_TSUNAMI"@.len() != "EXPORT_CAPACITY_AVAILABLE"@.len());
            assert("ALERT_TSUNAMI"@.len() != "EXPORT_CAPACITY_AVAILABLE_PRICE"@.len());
            assert("ALERT_TSUNAMI"@.len() != "IMPORT_CAPACITY_LIMIT"@.len());
            assert("ALERT_TSUNAMI"@.len() != "EXPORT_CAPACITY_LIMIT"@.len());
            assert("ALERT_TSUNAMI"@.len() != "ALERT_GRID_EMERGENCY"@.len());
            assert("ALERT_TSUNAMI"@.len() != "ALERT_BLACK_START"@.len());
            assert("ALERT_TSUNAMI"@.len() != "ALERT_POSSIBLE_OUTAGE"@.len());
            assert("ALERT_TSUNAMI"@.len() != "ALERT_FLEX_ALERT"@.len());
            assert("ALERT_TSUNAMI"@.len() != "ALERT_FIRE"@.len());
            assert("ALERT_TSUNAMI"@.len() != "ALERT_FREEZING"@.len());
            assert("ALERT_TSUNAMI"@.len() != "ALERT_WIND"@.len());
        },
        EventType::AlertAirQuality => {
            assert("ALERT_AIR_QUALITY"@.len() != "SIMPLE"@.len());
            assert("ALERT_AIR_QUALITY"@.len() != "PRICE"@.len());
            assert("ALERT_AIR_QUALITY"@.len() != "CHARGE_STATE_SETPOINT"@.len());
            assert("ALERT_AIR_QUALITY"@[0] != "DISPATCH_SETPOINT"@[0]);
            assert("ALERT_AIR_QUALITY"@.len() != "DISPATCH_SETPOINT_RELATIVE"@.len());
            assert("ALERT_AIR_QUALITY"@.len() != "CONTROL_SETPOINT"@.len());
            assert("ALERT_AIR_QUALITY"@.len() != "EXPORT_PRICE"@.len());
            assert("ALERT_AIR_QUALITY"@.len() != "GHG"@.len());
            assert("ALERT_AIR_QUALITY"@.len() != "CURVE"@.len());
            assert("ALERT_AIR_QUALITY"@.len() != "OLS"@.len());
            assert("ALERT_AIR_QUALITY"@.len() != "IMPORT_CAPACITY_SUBSCRIPTION"@.len());
            assert("ALERT_AIR_QUALITY"@.len() != "IMPORT_CAPACITY_RESERVATION"@.len());
            assert("ALERT_AIR_QUALITY"@.len() != "IMPORT_CAPACITY_RESERVATION_FEE"@.len());
            assert("ALERT_AIR_QUALITY"@.len() != "IMPORT_CAPACITY_AVAILABLE"@.len());
            assert("ALERT_AIR_QUALITY"@.len() != "IMPORT_CAPACITY_AVAILABLE_PRICE"@.len());
            assert("ALERT_AIR_QUALITY"@.len() != "EXPORT_CAPACITY_SUBSCRIPTION"@.len());
            assert("ALERT_AIR_QUALITY"@.len() != "EXPORT_CAPACITY_RESERVATION"@.len());
            assert("ALERT_AIR_QUALITY"@.len() != "EXPORT_CAPACITY_RESERVATION_FEE"@.len());
            assert("ALERT_AIR_QUALITY"@.len() != "EXPORT_CAPACITY_AVAILABLE"@.len());
            assert("ALERT_AIR_QUALITY"@.len() != "EXPORT_CAPACITY_AVAILABLE_PRICE"@.len());
            assert("ALERT_AIR_QUALITY"@.len() != "IMPORT_CAPACITY_LIMIT"@.len());
            assert("ALERT_AIR_QUALITY"@.len() != "EXPORT_CAPACITY_LIMIT"@.len());
            assert("ALERT_AIR_QUALITY"@.len() != "ALERT_GRID_EMERGENCY"@.len());
            assert("ALERT_AIR_QUALITY"@[6] != "ALERT_BLACK_START"@[6]);
            assert("ALERT_AIR_QUALITY"@.len() != "ALERT_POSSIBLE_OUTAGE"@.len());
            assert("ALERT_AIR_QUALITY"@.len() != "ALERT_FLEX_ALERT"@.len());
            assert("ALERT_AIR_QUALITY"@.len() != "ALERT_FIRE"@.len());
            assert("ALERT_AIR_QUALITY"@.len() != "ALERT_FREEZING"@.len());
            assert("ALERT_AIR_QUALITY"@.len() != "ALERT_WIND"@.len());
            assert("ALERT_AIR_QUALITY"@.len() != "ALERT_TSUNAMI"@.len());
        },
        EventType::AlertOther => {
            assert("ALERT_OTHER"@.len() != "SIMPLE"@.len());
            assert("ALERT_OTHER"@.len() != "PRICE"@.len());
            assert("ALERT_OTHER"@.len() != "CHARGE_STATE_SETPOINT"@.len());
            assert("ALERT_OTHER"@.len() != "DISPATCH_SETPOINT"@.len());
            assert("ALERT_OTHER"@.len() != "DISPATCH_SETPOINT_RELATIVE"@.len());
            assert("ALERT_OTHER"@.len() != "CONTROL_SETPOINT"@.len());
            assert("ALERT_OTHER"@.len() != "EXPORT_PRICE"@.len());
            assert("ALERT_OTHER"@.len() != "GHG"@.len());
            assert("ALERT_OTHER"@.len() != "CURVE"@.len());
            assert("ALERT_OTHER"@.len() != "OLS"@.len());
            assert("ALERT_OTHER"@.len() != "IMPORT_CAPACITY_SUBSCRIPTION"@.len());
            assert("ALERT_OTHER"@.len() != "IMPORT_CAPACITY_RESERVATION"@.len());
            assert("ALERT_OTHER"@.len() != "IMPORT_CAPACITY_RESERVATION_FEE"@.len());
            assert("ALERT_OTHER"@.len() != "IMPORT_CAPACITY_AVAILABLE"@.len());
            assert("ALERT_OTHER"@.len() != "IMPORT_CAPACITY_AVAILABLE_PRICE"@.len());
            assert("ALERT_OTHER"@.len() != "EXPORT_CAPACITY_SUBSCRIPTION"@.len());
            assert("ALERT_OTHER"@.len() != "EXPORT_CAPACITY_RESERVATION"@.len());
            assert("ALERT_OTHER"@.len() != "EXPORT_CAPACITY_RESERVATION_FEE"@.len());
            assert("ALERT_OTHER"@.len() != "EXPORT_CAPACITY_AVAILABLE"@.len());
            assert("ALERT_OTHER"@.len() != "EXPORT_CAPACITY_AVAILABLE_PRICE"@.len());
            assert("ALERT_OTHER"@.len() != "IMPORT_CAPACITY_LIMIT"@.len());
            assert("ALERT_OTHER"@.len() != "EXPORT_CAPACITY_LIMIT"@.len());
            assert("ALERT_OTHER"@.len() != "ALERT_GRID_EMERGENCY"@.len());
            assert("ALERT_OTHER"@.len() != "ALERT_BLACK_START"@.len());
            assert("ALERT_OTHER"@.len() != "ALERT_POSSIBLE_OUTAGE"@.len());
            assert("ALERT_OTHER"@.len() != "ALERT_FLEX_ALERT"@.len());
            assert("ALERT_OTHER"@.len() != "ALERT_FIRE"@.len());
            assert("ALERT_OTHER"@.len() != "ALERT_FREEZING"@.len());
            assert("ALERT_OTHER"@.len() != "ALERT_WIND"@.len());
            assert("ALERT_OTHER"@.len() != "ALERT_TSUNAMI"@.len());
            assert("ALERT_OTHER"@.len() != "ALERT_AIR_QUALITY"@.len());
        },
        EventType::CTA2045Reboot => {
            assert("CTA2045_REBOOT"@.len() != "SIMPLE"@.len());
            assert("CTA2045_REBOOT"@.len() != "PRICE"@.len());
            assert("CTA2045_REBOOT"@.len() != "CHARGE_STATE_SETPOINT"@.len());
            assert("CTA2045_REBOOT"@.len() != "DISPATCH_SETPOINT"@.len());
            assert("CTA2045_REBOOT"@.len() != "DISPATCH_SETPOINT_RELATIVE"@.len());
            assert("CTA2045_REBOOT"@.len() != "CONTROL_SETPOINT"@.len());
            assert("CTA2045_REBOOT"@.len() != "EXPORT_PRICE"@.len());
            assert("CTA2045_REBOOT"@.len() != "GHG"@.len());
            assert("CTA2045_REBOOT"@.len() != "CURVE"@.len());
            assert("CTA2045_REBOOT"@.len() != "OLS"@.len());
            assert("CTA2045_REBOOT"@.len() != "IMPORT_CAPACITY_SUBSCRIPTION"@.len());
            assert("CTA2045_REBOOT"@.len() != "IMPORT_CAPACITY_RESERVATION"@.len());
            assert("CTA2045_REBOOT"@.len() != "IMPORT_CAPACITY_RESERVATION_FEE"@.len());
            assert("CTA2045_REBOOT"@.len() != "IMPORT_CAPACITY_AVAILABLE"@.len());
            assert("CTA2045_REBOOT"@.len() != "IMPORT_CAPACITY_AVAILABLE_PRICE"@.len());
            assert("CTA2045_REBOOT"@.len() != "EXPORT_CAPACITY_SUBSCRIPTION"@.len());
            assert("CTA2045_REBOOT"@.len() != "EXPORT_CAPACITY_RESERVATION"@.len());
            assert("CTA2045_REBOOT"@.len() != "EXPORT_CAPACITY_RESERVATION_FEE"@.len());
            assert("CTA2045_REBOOT"@.len() != "EXPORT_CAPACITY_AVAILABLE"@.len());
            assert("CTA2045_REBOOT"@.len() != "EXPORT_CAPACITY_AVAILABLE_PRICE"@.len());
            assert("CTA2045_REBOOT"@.len() != "IMPORT_CAPACITY_LIMIT"@.len());
            assert("CTA2045_REBOOT"@.len() != "EXPORT_CAPACITY_LIMIT"@.len());
            assert("CTA2045_REBOOT"@.len() != "ALERT_GRID_EMERGENCY"@.len());
            assert("CTA2045_REBOOT"@.len() != "ALERT_BLACK_START"@.len());
            assert("CTA2045_REBOOT"@.len() != "ALERT_POSSIBLE_OUTAGE"@.len());
            assert("CTA2045_REBOOT"@.len() != "ALERT_FLEX_ALERT"@.len());
            assert("CTA2045_REBOOT"@.len() != "ALERT_FIRE"@.len());
            assert("CTA2045_REBOOT"@[0] != "ALERT_FREEZING"@[0]);
            assert("CTA2045_REBOOT"@.len() != "ALERT_WIND"@.len());
            assert("CTA2045_REBOOT"@.len() != "ALERT_TSUNAMI"@.len());
            assert("CTA2045_REBOOT"@.len() != "ALERT_AIR_QUALITY"@.len());
            assert("CTA2045_REBOOT"@.len() != "ALERT_OTHER"@.len());
        },
        EventType::CTA2045SetOverrideStatus => {
            assert("CTA2045_SET_OVERRIDE_STATUS"@.len() != "SIMPLE"@.len());
            assert("CTA2045_SET_OVERRIDE_STATUS"@.len() != "PRICE"@.len());
            assert("CTA2045_SET_OVERRIDE_STATUS"@.len() != "CHARGE_STATE_SETPOINT"@.len());
            assert("CTA2045_SET_OVERRIDE_STATUS"@.len() != "DISPATCH_SETPOINT"@.len());
            assert("CTA2045_SET_OVERRIDE_STATUS"@.len() != "DISPATCH_SETPOINT_RELATIVE"@.len());
            assert("CTA2045_SET_OVERRIDE_STATUS"@.len() != "CONTROL_SETPOINT"@.len());
            assert("CTA2045_SET_OVERRIDE_STATUS"@.len() != "EXPORT_PRICE"@.len());
            assert("CTA2045_SET_OVERRIDE_STATUS"@.len() != "GHG"@.len());
            assert("CTA2045_SET_OVERRIDE_STATUS"@.len() != "CURVE"@.len());
            assert("CTA2045_SET_OVERRIDE_STATUS"@.len() != "OLS"@.len());
            assert("CTA2045_SET_OVERRIDE_STATUS"@.len() != "IMPORT_CAPACITY_SUBSCRIPTION"@.len());
            assert("CTA2045_SET_OVERRIDE_STATUS"@[0] != "IMPORT_CAPACITY_RESERVATION"@[0]);
            assert("CTA2045_SET_OVERRIDE_STATUS"@.len() != "IMPORT_CAPACITY_RESERVATION_FEE"@.len());
            assert("CTA2045_SET_OVERRIDE_STATUS"@.len() != "IMPORT_CAPACITY_AVAILABLE"@.len());
            assert("CTA2045_SET_OVERRIDE_STATUS"@.len() != "IMPORT_CAPACITY_AVAILABLE_PRICE"@.len());
            assert("CTA2045_SET_OVERRIDE_STATUS"@.len() != "EXPORT_CAPACITY_SUBSCRIPTION"@.len());
            assert("CTA2045_SET_OVERRIDE_STATUS"@[0] != "EXPORT_CAPACITY_RESERVATION"@[0]);
            assert("CTA2045_SET_OVERRIDE_STATUS"@.len() != "EXPORT_CAPACITY_RESERVATION_FEE"@.len());
            assert("CTA2045_SET_OVERRIDE_STATUS"@.len() != "EXPORT_CAPACITY_AVAILABLE"@.len());
            assert("CTA2045_SET_OVERRIDE_STATUS"@.len() != "EXPORT_CAPACITY_AVAILABLE_PRICE"@.len());
            assert("CTA2045_SET_OVERRIDE_STATUS"@.len() != "IMPORT_CAPACITY_LIMIT"@.len());
            assert("CTA2045_SET_OVERRIDE_STATUS"@.len() != "EXPORT_CAPACITY_LIMIT"@.len());
            assert("CTA2045_SET_OVERRIDE_STATUS"@.len() != "ALERT_GRID_EMERGENCY"@.len());
            assert("CTA2045_SET_OVERRIDE_STATUS"@.len() != "ALERT_BLACK_START"@.len());
            assert("CTA2045_SET_OVERRIDE_STATUS"@.len() != "ALERT_POSSIBLE_OUTAGE"@.len());
            assert("CTA2045_SET_OVERRIDE_STATUS"@.len() != "ALERT_FLEX_ALERT"@.len());
            assert("CTA2045_SET_OVERRIDE_STATUS"@.len() != "ALERT_FIRE"@.len());
            assert("CTA2045_SET_OVERRIDE_STATUS"@.len() != "ALERT_FREEZING"@.len());
            assert("CTA2045_SET_OVERRIDE_STATUS"@.len() != "ALERT_WIND"@.len());
            assert("CTA2045_SET_OVERRIDE_STATUS"@.len() != "ALERT_TSUNAMI"@.len());
            assert("CTA2045_SET_OVERRIDE_STATUS"@.len() != "ALERT_AIR_QUALITY"@.len());
            assert("CTA2045_SET_OVERRIDE_STATUS"@.len() != "ALERT_OTHER"@.len());
            assert("CTA2045_SET_OVERRIDE_STATUS"@.len() != "CTA2045_REBOOT"@.len());
        },
        EventType::Private(_) => {},
    }
}

/// Every text that denotes a `EventType` is the text of what it denotes.
pub proof fn lemma_event_type_parse_then_text(s: Seq<char>)
    requires
        event_type_of_text(s) is Some,
    ensures
        event_type_text(event_type_of_text(s)->0) == s,
{
}

/// Nature of the values of a report payload.
#[derive(Debug, Clone, PartialEq, Eq)]
pub enum ReportType {
    /// Written `READING`.
    Reading,
    /// Written `USAGE`.
    Usage,
    /// Written `DEMAND`.
    Demand,
    /// Written `SETPOINT`.
    Setpoint,
    /// Written `DELTA_USAGE`.
    DeltaUsage,
    /// Written `BASELINE`.
    Baseline,
    /// Written `OPERATING_STATE`.
    OperatingState,
    /// Written `UP_REGULATION_AVAILABLE`.
    UpRegulationAvailable,
    /// Written `DOWN_REGULATION_AVAILABLE`.
    DownRegulationAvailable,
    /// Written `REGULATION_SETPOINT`.
    RegulationSetpoint,
    /// Written `STORAGE_USABLE_CAPACITY`.
    StorageUsableCapacity,
    /// Written `STORAGE_CHARGE_LEVEL`.
    StorageChargeLevel,
    /// Written `STORAGE_MAX_DISCHARGE_POWER`.
    StorageMaxDischargePower,
    /// Written `STORAGE_MAX_CHARGE_POWER`.
    StorageMaxChargePower,
    /// Written `SIMPLE_LEVEL`.
    SimpleLevel,
    /// Written `USAGE_FORECAST`.
    UsageForecast,
    /// Written `STORAGE_DISPATCH_FORECAST`.
    StorageDispatchForecast,
    /// Written `LOAD_SHED_DELTA_AVAILABLE`.
    LoadShedDeltaAvailable,
    /// Written `GENERATION_DELTA_AVAILABLE`.
    GenerationDeltaAvailable,
    /// Written `DATA_QUALITY`.
    DataQuality,
    /// Written `IMPORT_RESERVATION_CAPACITY`.
    ImportReservationCapacity,
    /// Written `IMPORT_RESERVATION_FEE`.
    ImportReservationFee,
    /// Written `EXPORT_RESERVATION_CAPACITY`.
    ExportReservationCapacity,
    /// Written `EXPORT_RESERVATION_FEE`.
    ExportReservationFee,
    /// An application specific, privately defined value.
    Private(String),
}

impl View for ReportType {
    type V = (nat, Seq<char>);

    /// The variant's position and, for a private value, its text.
    open spec fn view(&self) -> (nat, Seq<char>) {
        match self {
            ReportType::Reading => (0nat, Seq::empty()),
            ReportType::Usage => (1nat, Seq::empty()),
            ReportType::Demand => (2nat, Seq::empty()),
            ReportType::Setpoint => (3nat, Seq::empty()),
            ReportType::DeltaUsage => (4nat, Seq::empty()),
            ReportType::Baseline => (5nat, Seq::empty()),
            ReportType::OperatingState => (6nat, Seq::empty()),
            ReportType::UpRegulationAvailable => (7nat, Seq::empty()),
            ReportType::DownRegulationAvailable => (8nat, Seq::empty()),
            ReportType::RegulationSetpoint => (9nat, Seq::empty()),
            ReportType::StorageUsableCapacity => (10nat, Seq::empty()),
            ReportType::StorageChargeLevel => (11nat, Seq::empty()),
            ReportType::StorageMaxDischargePower => (12nat, Seq::empty()),
            ReportType::StorageMaxChargePower => (13nat, Seq::empty()),
            ReportType::SimpleLevel => (14nat, Seq::empty()),
            ReportType::UsageForecast => (15nat, Seq::empty()),
            ReportType::StorageDispatchForecast => (16nat, Seq::empty()),
            ReportType::LoadShedDeltaAvailable => (17nat, Seq::empty()),
            ReportType::GenerationDeltaAvailable => (18nat, Seq::empty()),
            ReportType::DataQuality => (19nat, Seq::empty()),
            ReportType::ImportReservationCapacity => (20nat, Seq::empty()),
            ReportType::ImportReservationFee => (21nat, Seq::empty()),
            ReportType::ExportReservationCapacity => (22nat, Seq::empty()),
            ReportType::ExportReservationFee => (23nat, Seq::empty()),
            ReportType::Private(text) => (24nat, text@),
        }
    }
}

/// The text a `ReportType` is written as.
pub open spec fn report_type_text(v: (nat, Seq<char>)) -> Seq<char> {
    if v.0 == 0 { "READING"@ } else if v.0 == 1 { "USAGE"@ } else if v.0 == 2 { "DEMAND"@ } else if v.0 == 3 { "SETPOINT"@ } else if v.0 == 4 { "DELTA_USAGE"@ } else if v.0 == 5 { "BASELINE"@ } else if v.0 == 6 { "OPERATING_STATE"@ } else if v.0 == 7 { "UP_REGULATION_AVAILABLE"@ } else if v.0 == 8 { "DOWN_REGULATION_AVAILABLE"@ } else if v.0 == 9 { "REGULATION_SETPOINT"@ } else if v.0 == 10 { "STORAGE_USABLE_CAPACITY"@ } else if v.0 == 11 { "STORAGE_CHARGE_LEVEL"@ } else if v.0 == 12 { "STORAGE_MAX_DISCHARGE_POWER"@ } else if v.0 == 13 { "STORAGE_MAX_CHARGE_POWER"@ } else if v.0 == 14 { "SIMPLE_LEVEL"@ } else if v.0 == 15 { "USAGE_FORECAST"@ } else if v.0 == 16 { "STORAGE_DISPATCH_FORECAST"@ } else if v.0 == 17 { "LOAD_SHED_DELTA_AVAILABLE"@ } else if v.0 == 18 { "GENERATION_DELTA_AVAILABLE"@ } else if v.0 == 19 { "DATA_QUALITY"@ } else if v.0 == 20 { "IMPORT_RESERVATION_CAPACITY"@ } else if v.0 == 21 { "IMPORT_RESERVATION_FEE"@ } else if v.0 == 22 { "EXPORT_RESERVATION_CAPACITY"@ } else if v.0 == 23 { "EXPORT_RESERVATION_FEE"@ } else { v.1 }
}

/// The `ReportType` a text denotes, by its position and private text.
pub open spec fn report_type_of_text(s: Seq<char>) -> Option<(nat, Seq<char>)> {
    if s == "READING"@ { Some((0nat, Seq::empty())) } else if s == "USAGE"@ { Some((1nat, Seq::empty())) } else if s == "DEMAND"@ { Some((2nat, Seq::empty())) } else if s == "SETPOINT"@ { Some((3nat, Seq::empty())) } else if s == "DELTA_USAGE"@ { Some((4nat, Seq::empty())) } else if s == "BASELINE"@ { Some((5nat, Seq::empty())) } else if s == "OPERATING_STATE"@ { Some((6nat, Seq::empty())) } else if s == "UP_REGULATION_AVAILABLE"@ { Some((7nat, Seq::empty())) } else if s == "DOWN_REGULATION_AVAILABLE"@ { Some((8nat, Seq::empty())) } else if s == "REGULATION_SETPOINT"@ { Some((9nat, Seq::empty())) } else if s == "STORAGE_USABLE_CAPACITY"@ { Some((10nat, Seq::empty())) } else if s == "STORAGE_CHARGE_LEVEL"@ { Some((11nat, Seq::empty())) } else if s == "STORAGE_MAX_DISCHARGE_POWER"@ { Some((12nat, Seq::empty())) } else if s == "STORAGE_MAX_CHARGE_POWER"@ { Some((13nat, Seq::empty())) } else if s == "SIMPLE_LEVEL"@ { Some((14nat, Seq::empty())) } else if s == "USAGE_FORECAST"@ { Some((15nat, Seq::empty())) } else if s == "STORAGE_DISPATCH_FORECAST"@ { Some((16nat, Seq::empty())) } else if s == "LOAD_SHED_DELTA_AVAILABLE"@ { Some((17nat, Seq::empty())) } else if s == "GENERATION_DELTA_AVAILABLE"@ { Some((18nat, Seq::empty())) } else if s == "DATA_QUALITY"@ { Some((19nat, Seq::empty())) } else if s == "IMPORT_RESERVATION_CAPACITY"@ { Some((20nat, Seq::empty())) } else if s == "IMPORT_RESERVATION_FEE"@ { Some((21nat, Seq::empty())) } else if s == "EXPORT_RESERVATION_CAPACITY"@ { Some((22nat, Seq::empty())) } else if s == "EXPORT_RESERVATION_FEE"@ { Some((23nat, Seq::empty())) } else { if 1 <= encode_utf8(s).len() <= 128 { Some((24nat, s)) } else { None } }
}

/// The text is one of the names reserved for the named variants of `ReportType`.
pub open spec fn report_type_reserved(s: Seq<char>) -> bool {
    s == "READING"@ || s == "USAGE"@ || s == "DEMAND"@ || s == "SETPOINT"@ || s == "DELTA_USAGE"@ || s == "BASELINE"@ || s == "OPERATING_STATE"@ || s == "UP_REGULATION_AVAILABLE"@ || s == "DOWN_REGULATION_AVAILABLE"@ || s == "REGULATION_SETPOINT"@ || s == "STORAGE_USABLE_CAPACITY"@ || s == "STORAGE_CHARGE_LEVEL"@ || s == "STORAGE_MAX_DISCHARGE_POWER"@ || s == "STORAGE_MAX_CHARGE_POWER"@ || s == "SIMPLE_LEVEL"@ || s == "USAGE_FORECAST"@ || s == "STORAGE_DISPATCH_FORECAST"@ || s == "LOAD_SHED_DELTA_AVAILABLE"@ || s == "GENERATION_DELTA_AVAILABLE"@ || s == "DATA_QUALITY"@ || s == "IMPORT_RESERVATION_CAPACITY"@ || s == "IMPORT_RESERVATION_FEE"@ || s == "EXPORT_RESERVATION_CAPACITY"@ || s == "EXPORT_RESERVATION_FEE"@
}

impl ReportType {
    /// The text this value is written as on the wire.
    pub fn as_str(&self) -> (r: &str)
        ensures
            r@ == report_type_text(self@),
    {
        match self {
            ReportType::Reading => "READING",
            ReportType::Usage => "USAGE",
            ReportType::Demand => "DEMAND",
            ReportType::Setpoint => "SETPOINT",
            ReportType::DeltaUsage => "DELTA_USAGE",
            ReportType::Baseline => "BASELINE",
            ReportType::OperatingState => "OPERATING_STATE",
            ReportType::UpRegulationAvailable => "UP_REGULATION_AVAILABLE",
            ReportType::DownRegulationAvailable => "DOWN_REGULATION_AVAILABLE",
            ReportType::RegulationSetpoint => "REGULATION_SETPOINT",
            ReportType::StorageUsableCapacity => "STORAGE_USABLE_CAPACITY",
            ReportType::StorageChargeLevel => "STORAGE_CHARGE_LEVEL",
            ReportType::StorageMaxDischargePower => "STORAGE_MAX_DISCHARGE_POWER",
            ReportType::StorageMaxChargePower => "STORAGE_MAX_CHARGE_POWER",
            ReportType::SimpleLevel => "SIMPLE_LEVEL",
            ReportType::UsageForecast => "USAGE_FORECAST",
            ReportType::StorageDispatchForecast => "STORAGE_DISPATCH_FORECAST",
            ReportType::LoadShedDeltaAvailable => "LOAD_SHED_DELTA_AVAILABLE",
            ReportType::GenerationDeltaAvailable => "GENERATION_DELTA_AVAILABLE",
            ReportType::DataQuality => "DATA_QUALITY",
            ReportType::ImportReservationCapacity => "IMPORT_RESERVATION_CAPACITY",
            ReportType::ImportReservationFee => "IMPORT_RESERVATION_FEE",
            ReportType::ExportReservationCapacity => "EXPORT_RESERVATION_CAPACITY",
            ReportType::ExportReservationFee => "EXPORT_RESERVATION_FEE",
            ReportType::Private(text) => text.as_str(),
        }
    }

    /// The value a text denotes: a named variant when the text is its name,
    /// a private value when its byte length lies in 1..=128, an error otherwise.
    pub fn from_text(s: &str) -> (r: Result<Self, IdentifierError>)
        ensures
            r matches Ok(v) ==> report_type_of_text(s@) == Some(v@),
            r is Err <==> report_type_of_text(s@) is None,
            r matches Err(e) ==> e == IdentifierError::InvalidLength(s.spec_bytes().len() as usize),
    {
        if str_eq(s, "READING") {
            Ok(ReportType::Reading)
        } else if str_eq(s, "USAGE") {
            Ok(ReportType::Usage)
        } else if str_eq(s, "DEMAND") {
            Ok(ReportType::Demand)
        } else if str_eq(s, "SETPOINT") {
            Ok(ReportType::Setpoint)
        } else if str_eq(s, "DELTA_USAGE") {
            Ok(ReportType::DeltaUsage)
        } else if str_eq(s, "BASELINE") {
            Ok(ReportType::Baseline)
        } else if str_eq(s, "OPERATING_STATE") {
            Ok(ReportType::OperatingState)
        } else if str_eq(s, "UP_REGULATION_AVAILABLE") {
            Ok(ReportType::UpRegulationAvailable)
        } else if str_eq(s, "DOWN_REGULATION_AVAILABLE") {
            Ok(ReportType::DownRegulationAvailable)
        } else if str_eq(s, "REGULATION_SETPOINT") {
            Ok(ReportType::RegulationSetpoint)
        } else if str_eq(s, "STORAGE_USABLE_CAPACITY") {
            Ok(ReportType::StorageUsableCapacity)
        } else if str_eq(s, "STORAGE_CHARGE_LEVEL") {
            Ok(ReportType::StorageChargeLevel)
        } else if str_eq(s, "STORAGE_MAX_DISCHARGE_POWER") {
            Ok(ReportType::StorageMaxDischargePower)
        } else if str_eq(s, "STORAGE_MAX_CHARGE_POWER") {
            Ok(ReportType::StorageMaxChargePower)
        } else if str_eq(s, "SIMPLE_LEVEL") {
            Ok(ReportType::SimpleLevel)
        } else if str_eq(s, "USAGE_FORECAST") {
            Ok(ReportType::UsageForecast)
        } else if str_eq(s, "STORAGE_DISPATCH_FORECAST") {
            Ok(ReportType::StorageDispatchForecast)
        } else if str_eq(s, "LOAD_SHED_DELTA_AVAILABLE") {
            Ok(ReportType::LoadShedDeltaAvailable)
        } else if str_eq(s, "GENERATION_DELTA_AVAILABLE") {
            Ok(ReportType::GenerationDeltaAvailable)
        } else if str_eq(s, "DATA_QUALITY") {
            Ok(ReportType::DataQuality)
        } else if str_eq(s, "IMPORT_RESERVATION_CAPACITY") {
            Ok(ReportType::ImportReservationCapacity)
        } else if str_eq(s, "IMPORT_RESERVATION_FEE") {
            Ok(ReportType::ImportReservationFee)
        } else if str_eq(s, "EXPORT_RESERVATION_CAPACITY") {
            Ok(ReportType::ExportReservationCapacity)
        } else if str_eq(s, "EXPORT_RESERVATION_FEE") {
            Ok(ReportType::ExportReservationFee)
        } else {
            let len = s.as_bytes().len();
            if 1 <= len && len <= 128 {
                Ok(ReportType::Private(s.to_owned()))
            } else {
                Err(IdentifierError::InvalidLength(len))
            }
        }
    }

    /// The position of the variant.
    pub fn variant_index(&self) -> (r: u8)
        ensures
            r as nat == self@.0,
    {
        match self {
            ReportType::Reading => 0,
            ReportType::Usage => 1,
            ReportType::Demand => 2,
            ReportType::Setpoint => 3,
            ReportType::DeltaUsage => 4,
            ReportType::Baseline => 5,
            ReportType::OperatingState => 6,
            ReportType::UpRegulationAvailable => 7,
            ReportType::DownRegulationAvailable => 8,
            ReportType::RegulationSetpoint => 9,
            ReportType::StorageUsableCapacity => 10,
            ReportType::StorageChargeLevel => 11,
            ReportType::StorageMaxDischargePower => 12,
            ReportType::StorageMaxChargePower => 13,
            ReportType::SimpleLevel => 14,
            ReportType::UsageForecast => 15,
            ReportType::StorageDispatchForecast => 16,
            ReportType::LoadShedDeltaAvailable => 17,
            ReportType::GenerationDeltaAvailable => 18,
            ReportType::DataQuality => 19,
            ReportType::ImportReservationCapacity => 20,
            ReportType::ImportReservationFee => 21,
            ReportType::ExportReservationCapacity => 22,
            ReportType::ExportReservationFee => 23,
            ReportType::Private(_) => 24,
        }
    }

    /// Compares two values variant by variant, private values by their text.
    pub fn same_as(&self, other: &Self) -> (r: bool)
        ensures
            r == (self@ == other@),
    {
        match self {
            ReportType::Private(a) => match other {
                ReportType::Private(b) => str_eq(a.as_str(), b.as_str()),
                _ => false,
            },
            _ => self.variant_index() == other.variant_index(),
        }
    }

    /// A copy of this value.
    pub fn duplicate(&self) -> (r: Self)
        ensures
            r@ == self@,
    {
        match self {
            ReportType::Reading => ReportType::Reading,
            ReportType::Usage => ReportType::Usage,
            ReportType::Demand => ReportType::Demand,
            ReportType::Setpoint => ReportType::Setpoint,
            ReportType::DeltaUsage => ReportType::DeltaUsage,
            ReportType::Baseline => ReportType::Baseline,
            ReportType::OperatingState => ReportType::OperatingState,
            ReportType::UpRegulationAvailable => ReportType::UpRegulationAvailable,
            ReportType::DownRegulationAvailable => ReportType::DownRegulationAvailable,
            ReportType::RegulationSetpoint => ReportType::RegulationSetpoint,
            ReportType::StorageUsableCapacity => ReportType::StorageUsableCapacity,
            ReportType::StorageChargeLevel => ReportType::StorageChargeLevel,
            ReportType::StorageMaxDischargePower => ReportType::StorageMaxDischargePower,
            ReportType::StorageMaxChargePower => ReportType::StorageMaxChargePower,
            ReportType::SimpleLevel => ReportType::SimpleLevel,
            ReportType::UsageForecast => ReportType::UsageForecast,
            ReportType::StorageDispatchForecast => ReportType::StorageDispatchForecast,
            ReportType::LoadShedDeltaAvailable => ReportType::LoadShedDeltaAvailable,
            ReportType::GenerationDeltaAvailable => ReportType::GenerationDeltaAvailable,
            ReportType::DataQuality => ReportType::DataQuality,
            ReportType::ImportReservationCapacity => ReportType::ImportReservationCapacity,
            ReportType::ImportReservationFee => ReportType::ImportReservationFee,
            ReportType::ExportReservationCapacity => ReportType::ExportReservationCapacity,
            ReportType::ExportReservationFee => ReportType::ExportReservationFee,
            ReportType::Private(text) => ReportType::Private(text.clone()),
        }
    }

}

/// Reading back the text of a `ReportType` gives the value again, unless the
/// value is a private one spelled like a named variant.
pub proof fn lemma_report_type_text_roundtrip(v: ReportType)
    requires
        v is Private ==> !report_type_reserved(v@.1),
        v is Private ==> 1 <= encode_utf8(v@.1).len() <= 128,
    ensures
        report_type_of_text(report_type_text(v@)) == Some(v@),
{
    reveal_strlit("BASELINE");
    reveal_strlit("DATA_QUALITY");
    reveal_strlit("DELTA_USAGE");
    reveal_strlit("DEMAND");
    reveal_strlit("DOWN_REGULATION_AVAILABLE");
    reveal_strlit("EXPORT_RESERVATION_CAPACITY");
    reveal_strlit("EXPORT_RESERVATION_FEE");
    reveal_strlit("GENERATION_DELTA_AVAILABLE");
    reveal_strlit("IMPORT_RESERVATION_CAPACITY");
    reveal_strlit("IMPORT_RESERVATION_FEE");
    reveal_strlit("LOAD_SHED_DELTA_AVAILABLE");
    reveal_strlit("OPERATING_STATE");
    reveal_strlit("READING");
    reveal_strlit("REGULATION_SETPOINT");
    reveal_strlit("SETPOINT");
    reveal_strlit("SIMPLE_LEVEL");
    reveal_strlit("STORAGE_CHARGE_LEVEL");
    reveal_strlit("STORAGE_DISPATCH_FORECAST");
    reveal_strlit("STORAGE_MAX_CHARGE_POWER");
    reveal_strlit("STORAGE_MAX_DISCHARGE_POWER");
    reveal_strlit("STORAGE_USABLE_CAPACITY");
    reveal_strlit("UP_REGULATION_AVAILABLE");
    reveal_strlit("USAGE");
    reveal_strlit("USAGE_FORECAST");
    match v {
        ReportType::Reading => {
        },
        ReportType::Usage => {
            assert("USAGE"@.len() != "READING"@.len());
        },
        ReportType::Demand => {
            assert("DEMAND"@.len() != "READING"@.len());
            assert("DEMAND"@.len() != "USAGE"@.len());
        },
        ReportType::Setpoint => {
            assert("SETPOINT"@.len() != "READING"@.len());
            assert("SETPOINT"@.len() != "USAGE"@.len());
            assert("SETPOINT"@.len() != "DEMAND"@.len());
        },
        ReportType::DeltaUsage => {
            assert("DELTA_USAGE"@.len() != "READING"@.len());
            assert("DELTA_USAGE"@.len() != "USAGE"@.len());
            assert("DELTA_USAGE"@.len() != "DEMAND"@.len());
            assert("DELTA_USAGE"@.len() != "SETPOINT"@.len());
        },
        ReportType::Baseline => {
            assert("BASELINE"@.len() != "READING"@.len());
            assert("BASELINE"@.len() != "USAGE"@.len());
            assert("BASELINE"@.len() != "DEMAND"@.len());
            assert("BASELINE"@[0] != "SETPOINT"@[0]);
            assert("BASELINE"@.len() != "DELTA_USAGE"@.len());
        },
        ReportType::OperatingState => {
            assert("OPERATING_STATE"@.len() != "READING"@.len());
            assert("OPERATING_STATE"@.len() != "USAGE"@.len());
            assert("OPERATING_STATE"@.len() != "DEMAND"@.len());
            assert("OPERATING_STATE"@.len() != "SETPOINT"@.len());
            assert("OPERATING_STATE"@.len() != "DELTA_USAGE"@.len());
            assert("OPERATING_STATE"@.len() != "BASELINE"@.len());
        },
        ReportType::UpRegulationAvailable => {
            assert("UP_REGULATION_AVAILABLE"@.len() != "READING"@.len());
            assert("UP_REGULATION_AVAILABLE"@.len() != "USAGE"@.len());
            assert("UP_REGULATION_AVAILABLE"@.len() != "DEMAND"@.len());
            assert("UP_REGULATION_AVAILABLE"@.len() != "SETPOINT"@.len());
            assert("UP_REGULATION_AVAILABLE"@.len() != "DELTA_USAGE"@.len());
            assert("UP_REGULATION_AVAILABLE"@.len() != "BASELINE"@.len());
            assert("UP_REGULATION_AVAILABLE"@.len() != "OPERATING_STATE"@.len());
        },
        ReportType::DownRegulationAvailable => {
            assert("DOWN_REGULATION_AVAILABLE"@.len() != "READING"@.len());
            assert("DOWN_REGULATION_AVAILABLE"@.len() != "USAGE"@.len());
            assert("DOWN_REGULATION_AVAILABLE"@.len() != "DEMAND"@.len());
            assert("DOWN_REGULATION_AVAILABLE"@.len() != "SETPOINT"@.len());
            assert("DOWN_REGULATION_AVAILABLE"@.len() != "DELTA_USAGE"@.len());
            assert("DOWN_REGULATION_AVAILABLE"@.len() != "BASELINE"@.len());
            assert("DOWN_REGULATION_AVAILABLE"@.len() != "OPERATING_STATE"@.len());
            assert("DOWN_REGULATION_AVAILABLE"@.len() != "UP_REGULATION_AVAILABLE"@.len());
        },
        ReportType::RegulationSetpoint => {
            assert("REGULATION_SETPOINT"@.len() != "READING"@.len());
            assert("REGULATION_SETPOINT"@.len() != "USAGE"@.len());
            assert("REGULATION_SETPOINT"@.len() != "DEMAND"@.len());
            assert("REGULATION_SETPOINT"@.len() != "SETPOINT"@.len());
            assert("REGULATION_SETPOINT"@.len() != "DELTA_USAGE"@.len());
            assert("REGULATION_SETPOINT"@.len() != "BASELINE"@.len());
            assert("REGULATION_SETPOINT"@.len() != "OPERATING_STATE"@.len());
            assert("REGULATION_SETPOINT"@.len() != "UP_REGULATION_AVAILABLE"@.len());
            assert("REGULATION_SETPOINT"@.len() != "DOWN_REGULATION_AVAILABLE"@.len());
        },
        ReportType::StorageUsableCapacity => {
            assert("STORAGE_USABLE_CAPACITY"@.len() != "READING"@.len());
            assert("STORAGE_USABLE_CAPACITY"@.len() != "USAGE"@.len());
            assert("STORAGE_USABLE_CAPACITY"@.len() != "DEMAND"@.len());
            assert("STORAGE_USABLE_CAPACITY"@.len() != "SETPOINT"@.len());
            assert("STORAGE_USABLE_CAPACITY"@.len() != "DELTA_USAGE"@.len());
            assert("STORAGE_USABLE_CAPACITY"@.len() != "BASELINE"@.len());
            assert("STORAGE_USABLE_CAPACITY"@.len() != "OPERATING_STATE"@.len());
            assert("STORAGE_USABLE_CAPACITY"@[0] != "UP_REGULATION_AVAILABLE"@[0]);
            assert("STORAGE_USABLE_CAPACITY"@.len() != "DOWN_REGULATION_AVAILABLE"@.len());
            assert("STORAGE_USABLE_CAPACITY"@.len() != "REGULATION_SETPOINT"@.len());
        },
        ReportType::StorageChargeLevel => {
            assert("STORAGE_CHARGE_LEVEL"@.len() != "READING"@.len());
            assert("STORAGE_CHARGE_LEVEL"@.len() != "USAGE"@.len());
            assert("STORAGE_CHARGE_LEVEL"@.len() != "DEMAND"@.len());
            assert("STORAGE_CHARGE_LEVEL"@.len() != "SETPOINT"@.len());
            assert("STORAGE_CHARGE_LEVEL"@.len() != "DELTA_USAGE"@.len());
            assert("STORAGE_CHARGE_LEVEL"@.len() != "BASELINE"@.len());
            assert("STORAGE_CHARGE_LEVEL"@.len() != "OPERATING_STATE"@.len());
            assert("STORAGE_CHARGE_LEVEL"@.len() != "UP_REGULATION_AVAILABLE"@.len());
            assert("STORAGE_CHARGE_LEVEL"@.len() != "DOWN_REGULATION_AVAILABLE"@.len());
            assert("STORAGE_CHARGE_LEVEL"@.len() != "REGULATION_SETPOINT"@.len());
            assert("STORAGE_CHARGE_LEVEL"@.len() != "STORAGE_USABLE_CAPACITY"@.len());
        },
        ReportType::StorageMaxDischargePower => {
            assert("STORAGE_MAX_DISCHARGE_POWER"@.len() != "READING"@.len());
            assert("STORAGE_MAX_DISCHARGE_POWER"@.len() != "USAGE"@.len());
            assert("STORAGE_MAX_DISCHARGE_POWER"@.len() != "DEMAND"@.len());
            assert("STORAGE_MAX_DISCHARGE_POWER"@.len() != "SETPOINT"@.len());
            assert("STORAGE_MAX_DISCHARGE_POWER"@.len() != "DELTA_USAGE"@.len());
            assert("STORAGE_MAX_DISCHARGE_POWER"@.len() != "BASELINE"@.len());
            assert("STORAGE_MAX_DISCHARGE_POWER"@.len() != "OPERATING_STATE"@.len());
            assert("STORAGE_MAX_DISCHARGE_POWER"@.len() != "UP_REGULATION_AVAILABLE"@.len());
            assert("STORAGE_MAX_DISCHARGE_POWER"@.len() != "DOWN_REGULATION_AVAILABLE"@.len());
            assert("STORAGE_MAX_DISCHARGE_POWER"@.len() != "REGULATION_SETPOINT"@.len());
            assert("STORAGE_MAX_DISCHARGE_POWER"@.len() != "STORAGE_USABLE_CAPACITY"@.len());
            assert("STORAGE_MAX_DISCHARGE_POWER"@.len() != "STORAGE_CHARGE_LEVEL"@.len());
        },
        ReportType::StorageMaxChargePower => {
            assert("STORAGE_MAX_CHARGE_POWER"@.len() != "READING"@.len());
            assert("STORAGE_MAX_CHARGE_POWER"@.len() != "USAGE"@.len());
            assert("STORAGE_MAX_CHARGE_POWER"@.len() != "DEMAND"@.len());
            assert("STORAGE_MAX_CHARGE_POWER"@.len() != "SETPOINT"@.len());
            assert("STORAGE_MAX_CHARGE_POWER"@.len() != "DELTA_USAGE"@.len());
            assert("STORAGE_MAX_CHARGE_POWER"@.len() != "BASELINE"@.len());
            assert("STORAGE_MAX_CHARGE_POWER"@.len() != "OPERATING_STATE"@.len());
            assert("STORAGE_MAX_CHARGE_POWER"@.len() != "UP_REGULATION_AVAILABLE"@.len());
            assert("STORAGE_MAX_CHARGE_POWER"@.len() != "DOWN_REGULATION_AVAILABLE"@.len());
            assert("STORAGE_MAX_CHARGE_POWER"@.len() != "REGULATION_SETPOINT"@.len());
            assert("STORAGE_MAX_CHARGE_POWER"@.len() != "STORAGE_USABLE_CAPACITY"@.len());
            assert("STORAGE_MAX_CHARGE_POWER"@.len() != "STORAGE_CHARGE_LEVEL"@.len());
            assert("STORAGE_MAX_CHARGE_POWER"@.len() != "STORAGE_MAX_DISCHARGE_POWER"@.len());
        },
        ReportType::SimpleLevel => {
            assert("SIMPLE_LEVEL"@.len() != "READING"@.len());
            assert("SIMPLE_LEVEL"@.len() != "USAGE"@.len());
            assert("SIMPLE_LEVEL"@.len() != "DEMAND"@.len());
            assert("SIMPLE_LEVEL"@.len() != "SETPOINT"@.len());
            assert("SIMPLE_LEVEL"@.len() != "DELTA_USAGE"@.len());
            assert("SIMPLE_LEVEL"@.len() != "BASELINE"@.len());
            assert("SIMPLE_LEVEL"@.len() != "OPERATING_STATE"@.len());
            assert("SIMPLE_LEVEL"@.len() != "UP_REGULATION_AVAILABLE"@.len());
            assert("SIMPLE_LEVEL"@.len() != "DOWN_REGULATION_AVAILABLE"@.len());
            assert("SIMPLE_LEVEL"@.len() != "REGULATION_SETPOINT"@.len());
            assert("SIMPLE_LEVEL"@.len() != "STORAGE_USABLE_CAPACITY"@.len());
            assert("SIMPLE_LEVEL"@.len() != "STORAGE_CHARGE_LEVEL"@.len());
            assert("SIMPLE_LEVEL"@.len() != "STORAGE_MAX_DISCHARGE_POWER"@.len());
            assert("SIMPLE_LEVEL"@.len() != "STORAGE_MAX_CHARGE_POWER"@.len());
        },
        ReportType::UsageForecast => {
            assert("USAGE_FORECAST"@.len() != "READING"@.len());
            assert("USAGE_FORECAST"@.len() != "USAGE"@.len());
            assert("USAGE_FORECAST"@.len() != "DEMAND"@.len());
            assert("USAGE_FORECAST"@.len() != "SETPOINT"@.len());
            assert("USAGE_FORECAST"@.len() != "DELTA_USAGE"@.len());
            assert("USAGE_FORECAST"@.len() != "BASELINE"@.len());
            assert("USAGE_FORECAST"@.len() != "OPERATING_STATE"@.len());
            assert("USAGE_FORECAST"@.len() != "UP_REGULATION_AVAILABLE"@.len());
            assert("USAGE_FORECAST"@.len() != "DOWN_REGULATION_AVAILABLE"@.len());
            assert("USAGE_FORECAST"@.len() != "REGULATION_SETPOINT"@.len());
            assert("USAGE_FORECAST"@.len() != "STORAGE_USABLE_CAPACITY"@.len());
            assert("USAGE_FORECAST"@.len() != "STORAGE_CHARGE_LEVEL"@.len());
            assert("USAGE_FORECAST"@.len() != "STORAGE_MAX_DISCHARGE_POWER"@.len());
            assert("USAGE_FORECAST"@.len() != "STORAGE_MAX_CHARGE_POWER"@.len());
            assert("USAGE_FORECAST"@.len() != "SIMPLE_LEVEL"@.len());
        },
        ReportType::StorageDispatchForecast => {
            assert("STORAGE_DISPATCH_FORECAST"@.len() != "READING"@.len());
            assert("STORAGE_DISPATCH_FORECAST"@.len() != "USAGE"@.len());
            assert("STORAGE_DISPATCH_FORECAST"@.len() != "DEMAND"@.len());
            assert("STORAGE_DISPATCH_FORECAST"@.len() != "SETPOINT"@.len());
            assert("STORAGE_DISPATCH_FORECAST"@.len() != "DELTA_USAGE"@.len());
            assert("STORAGE_DISPATCH_FORECAST"@.len() != "BASELINE"@.len());
            assert("STORAGE_DISPATCH_FORECAST"@.len() != "OPERATING_STATE"@.len());
            assert("STORAGE_DISPATCH_FORECAST"@.len() != "UP_REGULATION_AVAILABLE"@.len());
            assert("STORAGE_DISPATCH_FORECAST"@[0] != "DOWN_REGULATION_AVAILABLE"@[0]);
            assert("STORAGE_DISPATCH_FORECAST"@.len() != "REGULATION_SETPOINT"@.len());
            assert("STORAGE_DISPATCH_FORECAST"@.len() != "STORAGE_USABLE_CAPACITY"@.len());
            assert("STORAGE_DISPATCH_FORECAST"@.len() != "STORAGE_CHARGE_LEVEL"@.len());
            assert("STORAGE_DISPATCH_FORECAST"@.len() != "STORAGE_MAX_DISCHARGE_POWER"@.len());
            assert("STORAGE_DISPATCH_FORECAST"@.len() != "STORAGE_MAX_CHARGE_POWER"@.len());
            assert("STORAGE_DISPATCH_FORECAST"@.len() != "SIMPLE_LEVEL"@.len());
            assert("STORAGE_DISPATCH_FORECAST"@.len() != "USAGE_FORECAST"@.len());
        },
        ReportType::LoadShedDeltaAvailable => {
            assert("LOAD_SHED_DELTA_AVAILABLE"@.len() != "READING"@.len());
            assert("LOAD_SHED_DELTA_AVAILABLE"@.len() != "USAGE"@.len());
            assert("LOAD_SHED_DELTA_AVAILABLE"@.len() != "DEMAND"@.len());
            assert("LOAD_SHED_DELTA_AVAILABLE"@.len() != "SETPOINT"@.len());
            assert("LOAD_SHED_DELTA_AVAILABLE"@.len() != "DELTA_USAGE"@.len());
            assert("LOAD_SHED_DELTA_AVAILABLE"@.len() != "BASELINE"@.len());
            assert("LOAD_SHED_DELTA_AVAILABLE"@.len() != "OPERATING_STATE"@.len());
            assert("LOAD_SHED_DELTA_AVAILABLE"@.len() != "UP_REGULATION_AVAILABLE"@.len());
            assert("LOAD_SHED_DELTA_AVAILABLE"@[0] != "DOWN_REGULATION_AVAILABLE"@[0]);
            assert("LOAD_SHED_DELTA_AVAILABLE"@.len() != "REGULATION_SETPOINT"@.len());
            assert("LOAD_SHED_DELTA_AVAILABLE"@.len() != "STORAGE_USABLE_CAPACITY"@.len());
            assert("LOAD_SHED_DELTA_AVAILABLE"@.len() != "STORAGE_CHARGE_LEVEL"@.len());
            assert("LOAD_SHED_DELTA_AVAILABLE"@.len() != "STORAGE_MAX_DISCHARGE_POWER"@.len());
            assert("LOAD_SHED_DELTA_AVAILABLE"@.len() != "STORAGE_MAX_CHARGE_POWER"@.len());
            assert("LOAD_SHED_DELTA_AVAILABLE"@.len() != "SIMPLE_LEVEL"@.len());
            assert("LOAD_SHED_DELTA_AVAILABLE"@.len() != "USAGE_FORECAST"@.len());
            assert("LOAD_SHED_DELTA_AVAILABLE"@[0] != "STORAGE_DISPATCH_FORECAST"@[0]);
        },
        ReportType::GenerationDeltaAvailable => {
            assert("GENERATION_DELTA_AVAILABLE"@.len() != "READING"@.len());
            assert("GENERATION_DELTA_AVAILABLE"@.len() != "USAGE"@.len());
            assert("GENERATION_DELTA_AVAILABLE"@.len() != "DEMAND"@.len());
            assert("GENERATION_DELTA_AVAILABLE"@.len() != "SETPOINT"@.len());
            assert("GENERATION_DELTA_AVAILABLE"@.len() != "DELTA_USAGE"@.len());
            assert("GENERATION_DELTA_AVAILABLE"@.len() != "BASELINE"@.len());
            assert("GENERATION_DELTA_AVAILABLE"@.len() != "OPERATING_STATE"@.len());
            assert("GENERATION_DELTA_AVAILABLE"@.len() != "UP_REGULATION_AVAILABLE"@.len());
            assert("GENERATION_DELTA_AVAILABLE"@.len() != "DOWN_REGULATION_AVAILABLE"@.len());
            assert("GENERATION_DELTA_AVAILABLE"@.len() != "REGULATION_SETPOINT"@.len());
            assert("GENERATION_DELTA_AVAILABLE"@.len() != "STORAGE_USABLE_CAPACITY"@.len());
            assert("GENERATION_DELTA_AVAILABLE"@.len() != "STORAGE_CHARGE_LEVEL"@.len());
            assert("GENERATION_DELTA_AVAILABLE"@.len() != "STORAGE_MAX_DISCHARGE_POWER"@.len());
            assert("GENERATION_DELTA_AVAILABLE"@.len() != "STORAGE_MAX_CHARGE_POWER"@.len());
            assert("GENERATION_DELTA_AVAILABLE"@.len() != "SIMPLE_LEVEL"@.len());
            assert("GENERATION_DELTA_AVAILABLE"@.len() != "USAGE_FORECAST"@.len());
            assert("GENERATION_DELTA_AVAILABLE"@.len() != "STORAGE_DISPATCH_FORECAST"@.len());
            assert("GENERATION_DELTA_AVAILABLE"@.len() != "LOAD_SHED_DELTA_AVAILABLE"@.len());
        },
        ReportType::DataQuality => {
            assert("DATA_QUALITY"@.len() != "READING"@.len());
            assert("DATA_QUALITY"@.len() != "USAGE"@.len());
            assert("DATA_QUALITY"@.len() != "DEMAND"@.len());
            assert("DATA_QUALITY"@.len() != "SETPOINT"@.len());
            assert("DATA_QUALITY"@.len() != "DELTA_USAGE"@.len());
            assert("DATA_QUALITY"@.len() != "BASELINE"@.len());
            assert("DATA_QUALITY"@.len() != "OPERATING_STATE"@.len());
            assert("DATA_QUALITY"@.len() != "UP_REGULATION_AVAILABLE"@.len());
            assert("DATA_QUALITY"@.len() != "DOWN_REGULATION_AVAILABLE"@.len());
            assert("DATA_QUALITY"@.len() != "REGULATION_SETPOINT"@.len());
            assert("DATA_QUALITY"@.len() != "STORAGE_USABLE_CAPACITY"@.len());
            assert("DATA_QUALITY"@.len() != "STORAGE_CHARGE_LEVEL"@.len());
            assert("DATA_QUALITY"@.len() != "STORAGE_MAX_DISCHARGE_POWER"@.len());
            assert("DATA_QUALITY"@.len() != "STORAGE_MAX_CHARGE_POWER"@.len());
            assert("DATA_QUALITY"@[0] != "SIMPLE_LEVEL"@[0]);
            assert("DATA_QUALITY"@.len() != "USAGE_FORECAST"@.len());
            assert("DATA_QUALITY"@.len() != "STORAGE_DISPATCH_FORECAST"@.len());
            assert("DATA_QUALITY"@.len() != "LOAD_SHED_DELTA_AVAILABLE"@.len());
            assert("DATA_QUALITY"@.len() != "GENERATION_DELTA_AVAILABLE"@.len());
        },
        ReportType::ImportReservationCapacity => {
            assert("IMPORT_RESERVATION_CAPACITY"@.len() != "READING"@.len());
            assert("IMPORT_RESERVATION_CAPACITY"@.len() != "USAGE"@.len());
            assert("IMPORT_RESERVATION_CAPACITY"@.len() != "DEMAND"@.len());
            assert("IMPORT_RESERVATION_CAPACITY"@.len() != "SETPOINT"@.len());
            assert("IMPORT_RESERVATION_CAPACITY"@.len() != "DELTA_USAGE"@.len());
            assert("IMPORT_RESERVATION_CAPACITY"@.len() != "BASELINE"@.len());
            assert("IMPORT_RESERVATION_CAPACITY"@.len() != "OPERATING_STATE"@.len());
            assert("IMPORT_RESERVATION_CAPACITY"@.len() != "UP_REGULATION_AVAILABLE"@.len());
            assert("IMPORT_RESERVATION_CAPACITY"@.len() != "DOWN_REGULATION_AVAILABLE"@.len());
            assert("IMPORT_RESERVATION_CAPACITY"@.len() != "REGULATION_SETPOINT"@.len());
            assert("IMPORT_RESERVATION_CAPACITY"@.len() != "STORAGE_USABLE_CAPACITY"@.len());
            assert("IMPORT_RESERVATION_CAPACITY"@.len() != "STORAGE_CHARGE_LEVEL"@.len());
            assert("IMPORT_RESERVATION_CAPACITY"@[0] != "STORAGE_MAX_DISCHARGE_POWER"@[0]);
            assert("IMPORT_RESERVATION_CAPACITY"@.len() != "STORAGE_MAX_CHARGE_POWER"@.len());
            assert("IMPORT_RESERVATION_CAPACITY"@.len() != "SIMPLE_LEVEL"@.len());
            assert("IMPORT_RESERVATION_CAPACITY"@.len() != "USAGE_FORECAST"@.len());
            assert("IMPORT_RESERVATION_CAPACITY"@.len() != "STORAGE_DISPATCH_FORECAST"@.len());
            assert("IMPORT_RESERVATION_CAPACITY"@.len() != "LOAD_SHED_DELTA_AVAILABLE"@.len());
            assert("IMPORT_RESERVATION_CAPACITY"@.len() != "GENERATION_DELTA_AVAILABLE"@.len());
            assert("IMPORT_RESERVATION_CAPACITY"@.len() != "DATA_QUALITY"@.len());
        },
        ReportType::ImportReservationFee => {
            assert("IMPORT_RESERVATION_FEE"@.len() != "READING"@.len());
            assert("IMPORT_RESERVATION_FEE"@.len() != "USAGE"@.len());
            assert("IMPORT_RESERVATION_FEE"@.len() != "DEMAND"@.len());
            assert("IMPORT_RESERVATION_FEE"@.len() != "SETPOINT"@.len());
            assert("IMPORT_RESERVATION_FEE"@.len() != "DELTA_USAGE"@.len());
            assert("IMPORT_RESERVATION_FEE"@.len() != "BASELINE"@.len());
            assert("IMPORT_RESERVATION_FEE"@.len() != "OPERATING_STATE"@.len());
            assert("IMPORT_RESERVATION_FEE"@.len() != "UP_REGULATION_AVAILABLE"@.len());
            assert("IMPORT_RESERVATION_FEE"@.len() != "DOWN_REGULATION_AVAILABLE"@.len());
            assert("IMPORT_RESERVATION_FEE"@.len() != "REGULATION_SETPOINT"@.len());
            assert("IMPORT_RESERVATION_FEE"@.len() != "STORAGE_USABLE_CAPACITY"@.len());
            assert("IMPORT_RESERVATION_FEE"@.len() != "STORAGE_CHARGE_LEVEL"@.len());
            assert("IMPORT_RESERVATION_FEE"@.len() != "STORAGE_MAX_DISCHARGE_POWER"@.len());
            assert("IMPORT_RESERVATION_FEE"@.len() != "STORAGE_MAX_CHARGE_POWER"@.len());
            assert("IMPORT_RESERVATION_FEE"@.len() != "SIMPLE_LEVEL"@.len());
            assert("IMPORT_RESERVATION_FEE"@.len() != "USAGE_FORECAST"@.len());
            assert("IMPORT_RESERVATION_FEE"@.len() != "STORAGE_DISPATCH_FORECAST"@.len());
            assert("IMPORT_RESERVATION_FEE"@.len() != "LOAD_SHED_DELTA_AVAILABLE"@.len());
            assert("IMPORT_RESERVATION_FEE"@.len() != "GENERATION_DELTA_AVAILABLE"@.len());
            assert("IMPORT_RESERVATION_FEE"@.len() != "DATA_QUALITY"@.len());
            assert("IMPORT_RESERVATION_FEE"@.len() != "IMPORT_RESERVATION_CAPACITY"@.len());
        },
        ReportType::ExportReservationCapacity => {
            assert("EXPORT_RESERVATION_CAPACITY"@.len() != "READING"@.len());
            assert("EXPORT_RESERVATION_CAPACITY"@.len() != "USAGE"@.len());
            assert("EXPORT_RESERVATION_CAPACITY"@.len() != "DEMAND"@.len());
            assert("EXPORT_RESERVATION_CAPACITY"@.len() != "SETPOINT"@.len());
            assert("EXPORT_RESERVATION_CAPACITY"@.len() != "DELTA_USAGE"@.len());
            assert("EXPORT_RESERVATION_CAPACITY"@.len() != "BASELINE"@.len());
            assert("EXPORT_RESERVATION_CAPACITY"@.len() != "OPERATING_STATE"@.len());
            assert("EXPORT_RESERVATION_CAPACITY"@.len() != "UP_REGULATION_AVAILABLE"@.len());
            assert("EXPORT_RESERVATION_CAPACITY"@.len() != "DOWN_REGULATION_AVAILABLE"@.len());
            assert("EXPORT_RESERVATION_CAPACITY"@.len() != "REGULATION_SETPOINT"@.len());
            assert("EXPORT_RESERVATION_CAPACITY"@.len() != "STORAGE_USABLE_CAPACITY"@.len());
            assert("EXPORT_RESERVATION_CAPACITY"@.len() != "STORAGE_CHARGE_LEVEL"@.len());
            assert("EXPORT_RESERVATION_CAPACITY"@[0] != "STORAGE_MAX_DISCHARGE_POWER"@[0]);
            assert("EXPORT_RESERVATION_CAPACITY"@.len() != "STORAGE_MAX_CHARGE_POWER"@.len());
            assert("EXPORT_RESERVATION_CAPACITY"@.len() != "SIMPLE_LEVEL"@.len());
            assert("EXPORT_RESERVATION_CAPACITY"@.len() != "USAGE_FORECAST"@.len());
            assert("EXPORT_RESERVATION_CAPACITY"@.len() != "STORAGE_DISPATCH_FORECAST"@.len());
            assert("EXPORT_RESERVATION_CAPACITY"@.len() != "LOAD_SHED_DELTA_AVAILABLE"@.len());
            assert("EXPORT_RESERVATION_CAPACITY"@.len() != "GENERATION_DELTA_AVAILABLE"@.len());
            assert("EXPORT_RESERVATION_CAPACITY"@.len() != "DATA_QUALITY"@.len());
            assert("EXPORT_RESERVATION_CAPACITY"@[0] != "IMPORT_RESERVATION_CAPACITY"@[0]);
            assert("EXPORT_RESERVATION_CAPACITY"@.len() != "IMPORT_RESERVATION_FEE"@.len());
        },
        ReportType::ExportReservationFee => {
            assert("EXPORT_RESERVATION_FEE"@.len() != "READING"@.len());
            assert("EXPORT_RESERVATION_FEE"@.len() != "USAGE"@.len());
            assert("EXPORT_RESERVATION_FEE"@.len() != "DEMAND"@.len());
            assert("EXPORT_RESERVATION_FEE"@.len() != "SETPOINT"@.len());
            assert("EXPORT_RESERVATION_FEE"@.len() != "DELTA_USAGE"@.len());
            assert("EXPORT_RESERVATION_FEE"@.len() != "BASELINE"@.len());
            assert("EXPORT_RESERVATION_FEE"@.len() != "OPERATING_STATE"@.len());
            assert("EXPORT_RESERVATION_FEE"@.len() != "UP_REGULATION_AVAILABLE"@.len());
            assert("EXPORT_RESERVATION_FEE"@.len() != "DOWN_REGULATION_AVAILABLE"@.len());
            assert("EXPORT_RESERVATION_FEE"@.len() != "REGULATION_SETPOINT"@.len());
            assert("EXPORT_RESERVATION_FEE"@.len() != "STORAGE_USABLE_CAPACITY"@.len());
            assert("EXPORT_RESERVATION_FEE"@.len() != "STORAGE_CHARGE_LEVEL"@.len());
            assert("EXPORT_RESERVATION_FEE"@.len() != "STORAGE_MAX_DISCHARGE_POWER"@.len());
            assert("EXPORT_RESERVATION_FEE"@.len() != "STORAGE_MAX_CHARGE_POWER"@.len());
            assert("EXPORT_RESERVATION_FEE"@.len() != "SIMPLE_LEVEL"@.len());
            assert("EXPORT_RESERVATION_FEE"@.len() != "USAGE_FORECAST"@.len());
            assert("EXPORT_RESERVATION_FEE"@.len() != "STORAGE_DISPATCH_FORECAST"@.len());
            assert("EXPORT_RESERVATION_FEE"@.len() != "LOAD_SHED_DELTA_AVAILABLE"@.len());
            assert("EXPORT_RESERVATION_FEE"@.len() != "GENERATION_DELTA_AVAILABLE"@.len());
            assert("EXPORT_RESERVATION_FEE"@.len() != "DATA_QUALITY"@.len());
            assert("EXPORT_RESERVATION_FEE"@.len() != "IMPORT_RESERVATION_CAPACITY"@.len());
            assert("EXPORT_RESERVATION_FEE"@[0] != "IMPORT_RESERVATION_FEE"@[0]);
            assert("EXPORT_RESERVATION_FEE"@.len() != "EXPORT_RESERVATION_CAPACITY"@.len());
        },
        ReportType::Private(_) => {},
    }
}

/// Every text that denotes a `ReportType` is the text of what it denotes.
pub proof fn lemma_report_type_parse_then_text(s: Seq<char>)
    requires
        report_type_of_text(s) is Some,
    ensures
        report_type_text(report_type_of_text(s)->0) == s,
{
}

/// Type of a reading.
#[derive(Debug, Clone, PartialEq, Eq)]
pub enum ReadingType {
    /// Written `DIRECT_READ`.
    DirectRead,
    /// Written `ESTIMATED`.
    Estimated,
    /// Written `SUMMED`.
    Summed,
    /// Written `MEAN`.
    Mean,
    /// Written `PEAK`.
    Peak,
    /// Written `FORECAST`.
    Forecast,
    /// Written `AVERAGE`.
    Average,
    /// An application specific, privately defined value.
    Private(String),
}

impl View for ReadingType {
    type V = (nat, Seq<char>);

    /// The variant's position and, for a private value, its text.
    open spec fn view(&self) -> (nat, Seq<char>) {
        match self {
            ReadingType::DirectRead => (0nat, Seq::empty()),
            ReadingType::Estimated => (1nat, Seq::empty()),
            ReadingType::Summed => (2nat, Seq::empty()),
            ReadingType::Mean => (3nat, Seq::empty()),
            ReadingType::Peak => (4nat, Seq::empty()),
            ReadingType::Forecast => (5nat, Seq::empty()),
            ReadingType::Average => (6nat, Seq::empty()),
            ReadingType::Private(text) => (7nat, text@),
        }
    }
}

/// The text a `ReadingType` is written as.
pub open spec fn reading_type_text(v: (nat, Seq<char>)) -> Seq<char> {
    if v.0 == 0 { "DIRECT_READ"@ } else if v.0 == 1 { "ESTIMATED"@ } else if v.0 == 2 { "SUMMED"@ } else if v.0 == 3 { "MEAN"@ } else if v.0 == 4 { "PEAK"@ } else if v.0 == 5 { "FORECAST"@ } else if v.0 == 6 { "AVERAGE"@ } else { v.1 }
}

/// The `ReadingType` a text denotes, by its position and private text.
pub open spec fn reading_type_of_text(s: Seq<char>) -> Option<(nat, Seq<char>)> {
    if s == "DIRECT_READ"@ { Some((0nat, Seq::empty())) } else if s == "ESTIMATED"@ { Some((1nat, Seq::empty())) } else if s == "SUMMED"@ { Some((2nat, Seq::empty())) } else if s == "MEAN"@ { Some((3nat, Seq::empty())) } else if s == "PEAK"@ { Some((4nat, Seq::empty())) } else if s == "FORECAST"@ { Some((5nat, Seq::empty())) } else if s == "AVERAGE"@ { Some((6nat, Seq::empty())) } else { Some((7nat, s)) }
}

/// The text is one of the names reserved for the named variants of `ReadingType`.
pub open spec fn reading_type_reserved(s: Seq<char>) -> bool {
    s == "DIRECT_READ"@ || s == "ESTIMATED"@ || s == "SUMMED"@ || s == "MEAN"@ || s == "PEAK"@ || s == "FORECAST"@ || s == "AVERAGE"@
}

impl ReadingType {
    /// The text this value is written as on the wire.
    pub fn as_str(&self) -> (r: &str)
        ensures
            r@ == reading_type_text(self@),
    {
        match self {
            ReadingType::DirectRead => "DIRECT_READ",
            ReadingType::Estimated => "ESTIMATED",
            ReadingType::Summed => "SUMMED",
            ReadingType::Mean => "MEAN",
            ReadingType::Peak => "PEAK",
            ReadingType::Forecast => "FORECAST",
            ReadingType::Average => "AVERAGE",
            ReadingType::Private(text) => text.as_str(),
        }
    }

    /// The value a text denotes: a named variant when the text is its name,
    /// a private value otherwise.
    pub fn from_text(s: &str) -> (r: Self)
        ensures
            reading_type_of_text(s@) == Some(r@),
    {
        if str_eq(s, "DIRECT_READ") {
            ReadingType::DirectRead
        } else if str_eq(s, "ESTIMATED") {
            ReadingType::Estimated
        } else if str_eq(s, "SUMMED") {
            ReadingType::Summed
        } else if str_eq(s, "MEAN") {
            ReadingType::Mean
        } else if str_eq(s, "PEAK") {
            ReadingType::Peak
        } else if str_eq(s, "FORECAST") {
            ReadingType::Forecast
        } else if str_eq(s, "AVERAGE") {
            ReadingType::Average
        } else {
            ReadingType::Private(s.to_owned())
        }
    }

    /// The position of the variant.
    pub fn variant_index(&self) -> (r: u8)
        ensures
            r as nat == self@.0,
    {
        match self {
            ReadingType::DirectRead => 0,
            ReadingType::Estimated => 1,
            ReadingType::Summed => 2,
            ReadingType::Mean => 3,
            ReadingType::Peak => 4,
            ReadingType::Forecast => 5,
            ReadingType::Average => 6,
            ReadingType::Private(_) => 7,
        }
    }

    /// Compares two values variant by variant, private values by their text.
    pub fn same_as(&self, other: &Self) -> (r: bool)
        ensures
            r == (self@ == other@),
    {
        match self {
            ReadingType::Private(a) => match other {
                ReadingType::Private(b) => str_eq(a.as_str(), b.as_str()),
                _ => false,
            },
            _ => self.variant_index() == other.variant_index(),
        }
    }

    /// A copy of this value.
    pub fn duplicate(&self) -> (r: Self)
        ensures
            r@ == self@,
    {
        match self {
            ReadingType::DirectRead => ReadingType::DirectRead,
            ReadingType::Estimated => ReadingType::Estimated,
            ReadingType::Summed => ReadingType::Summed,
            ReadingType::Mean => ReadingType::Mean,
            ReadingType::Peak => ReadingType::Peak,
            ReadingType::Forecast => ReadingType::Forecast,
            ReadingType::Average => ReadingType::Average,
            ReadingType::Private(text) => ReadingType::Private(text.clone()),
        }
    }

    /// The default value, `DirectRead`.
    pub fn default_value() -> (r: Self)
        ensures
            r@ == ReadingType::DirectRead@,
    {
        ReadingType::DirectRead
    }

    /// The value is the default one.
    pub fn is_default(&self) -> (r: bool)
        ensures
            r == (self@ == ReadingType::DirectRead@),
    {
        matches!(self, ReadingType::DirectRead)
    }

}

/// Reading back the text of a `ReadingType` gives the value again, unless the
/// value is a private one spelled like a named variant.
pub proof fn lemma_reading_type_text_roundtrip(v: ReadingType)
    requires
        v is Private ==> !reading_type_reserved(v@.1),
    ensures
        reading_type_of_text(reading_type_text(v@)) == Some(v@),
{
    reveal_strlit("AVERAGE");
    reveal_strlit("DIRECT_READ");
    reveal_strlit("ESTIMATED");
    reveal_strlit("FORECAST");
    reveal_strlit("MEAN");
    reveal_strlit("PEAK");
    reveal_strlit("SUMMED");
    match v {
        ReadingType::DirectRead => {
        },
        ReadingType::Estimated => {
            assert("ESTIMATED"@.len() != "DIRECT_READ"@.len());
        },
        ReadingType::Summed => {
            assert("SUMMED"@.len() != "DIRECT_READ"@.len());
            assert("SUMMED"@.len() != "ESTIMATED"@.len());
        },
        ReadingType::Mean => {
            assert("MEAN"@.len() != "DIRECT_READ"@.len());
            assert("MEAN"@.len() != "ESTIMATED"@.len());
            assert("MEAN"@.len() != "SUMMED"@.len());
        },
        ReadingType::Peak => {
            assert("PEAK"@.len() != "DIRECT_READ"@.len());
            assert("PEAK"@.len() != "ESTIMATED"@.len());
            assert("PEAK"@.len() != "SUMMED"@.len());
            assert("PEAK"@[0] != "MEAN"@[0]);
        },
        ReadingType::Forecast => {
            assert("FORECAST"@.len() != "DIRECT_READ"@.len());
            assert("FORECAST"@.len() != "ESTIMATED"@.len());
            assert("FORECAST"@.len() != "SUMMED"@.len());
            assert("FORECAST"@.len() != "MEAN"@.len());
            assert("FORECAST"@.len() != "PEAK"@.len());
        },
        ReadingType::Average => {
            assert("AVERAGE"@.len() != "DIRECT_READ"@.len());
            assert("AVERAGE"@.len() != "ESTIMATED"@.len());
            assert("AVERAGE"@.len() != "SUMMED"@.len());
            assert("AVERAGE"@.len() != "MEAN"@.len());
            assert("AVERAGE"@.len() != "PEAK"@.len());
            assert("AVERAGE"@.len() != "FORECAST"@.len());
        },
        ReadingType::Private(_) => {},
    }
}

/// Every text that denotes a `ReadingType` is the text of what it denotes.
pub proof fn lemma_reading_type_parse_then_text(s: Seq<char>)
    requires
        reading_type_of_text(s) is Some,
    ensures
        reading_type_text(reading_type_of_text(s)->0) == s,
{
}

/// Name of the resource a report covers.
#[derive(Debug, Clone, PartialEq, Eq)]
pub enum ResourceName {
    /// Written `AGGREGATED_REPORT`.
    AggregatedReport,
    /// An application specific, privately defined value.
    Private(String),
}

impl View for ResourceName {
    type V = (nat, Seq<char>);

    /// The variant's position and, for a private value, its text.
    open spec fn view(&self) -> (nat, Seq<char>) {
        match self {
            ResourceName::AggregatedReport => (0nat, Seq::empty()),
            ResourceName::Private(text) => (1nat, text@),
        }
    }
}

/// The text a `ResourceName` is written as.
pub open spec fn resource_name_text(v: (nat, Seq<char>)) -> Seq<char> {
    if v.0 == 0 { "AGGREGATED_REPORT"@ } else { v.1 }
}

/// The `ResourceName` a text denotes, by its position and private text.
pub open spec fn resource_name_of_text(s: Seq<char>) -> Option<(nat, Seq<char>)> {
    if s == "AGGREGATED_REPORT"@ { Some((0nat, Seq::empty())) } else { if 1 <= encode_utf8(s).len() <= 128 { Some((1nat, s)) } else { None } }
}

/// The text is one of the names reserved for the named variants of `ResourceName`.
pub open spec fn resource_name_reserved(s: Seq<char>) -> bool {
    s == "AGGREGATED_REPORT"@
}

impl ResourceName {
    /// The text this value is written as on the wire.
    pub fn as_str(&self) -> (r: &str)
        ensures
            r@ == resource_name_text(self@),
    {
        match self {
            ResourceName::AggregatedReport => "AGGREGATED_REPORT",
            ResourceName::Private(text) => text.as_str(),
        }
    }

    /// The value a text denotes: a named variant when the text is its name,
    /// a private value when its byte length lies in 1..=128, an error otherwise.
    pub fn from_text(s: &str) -> (r: Result<Self, IdentifierError>)
        ensures
            r matches Ok(v) ==> resource_name_of_text(s@) == Some(v@),
            r is Err <==> resource_name_of_text(s@) is None,
            r matches Err(e) ==> e == IdentifierError::InvalidLength(s.spec_bytes().len() as usize),
    {
        if str_eq(s, "AGGREGATED_REPORT") {
            Ok(ResourceName::AggregatedReport)
        } else {
            let len = s.as_bytes().len();
            if 1 <= len && len <= 128 {
                Ok(ResourceName::Private(s.to_owned()))
            } else {
                Err(IdentifierError::InvalidLength(len))
            }
        }
    }

    /// The position of the variant.
    pub fn variant_index(&self) -> (r: u8)
        ensures
            r as nat == self@.0,
    {
        match self {
            ResourceName::AggregatedReport => 0,
            ResourceName::Private(_) => 1,
        }
    }

    /// Compares two values variant by variant, private values by their text.
    pub fn same_as(&self, other: &Self) -> (r: bool)
        ensures
            r == (self@ == other@),
    {
        match self {
            ResourceName::Private(a) => match other {
                ResourceName::Private(b) => str_eq(a.as_str(), b.as_str()),
                _ => false,
            },
            _ => self.variant_index() == other.variant_index(),
        }
    }

    /// A copy of this value.
    pub fn duplicate(&self) -> (r: Self)
        ensures
            r@ == self@,
    {
        match self {
            ResourceName::AggregatedReport => ResourceName::AggregatedReport,
            ResourceName::Private(text) => ResourceName::Private(text.clone()),
        }
    }

}

/// Reading back the text of a `ResourceName` gives the value again, unless the
/// value is a private one spelled like a named variant.
pub proof fn lemma_resource_name_text_roundtrip(v: ResourceName)
    requires
        v is Private ==> !resource_name_reserved(v@.1),
        v is Private ==> 1 <= encode_utf8(v@.1).len() <= 128,
    ensures
        resource_name_of_text(resource_name_text(v@)) == Some(v@),
{
    reveal_strlit("AGGREGATED_REPORT");
    match v {
        ResourceName::AggregatedReport => {
        },
        ResourceName::Private(_) => {},
    }
}

/// Every text that denotes a `ResourceName` is the text of what it denotes.
pub proof fn lemma_resource_name_parse_then_text(s: Seq<char>)
    requires
        resource_name_of_text(s) is Some,
    ensures
        resource_name_text(resource_name_of_text(s)->0) == s,
{
}

/// Kind of a target criterion.
#[derive(Debug, Clone, PartialEq, Eq)]
pub enum TargetLabel {
    /// Written `POWER_SERVICE_LOCATION`.
    PowerServiceLocation,
    /// Written `SERVICE_AREA`.
    ServiceArea,
    /// Written `GROUP`.
    Group,
    /// Written `RESOURCE_NAME`.
    ResourceName,
    /// Written `VEN_NAME`.
    VENName,
    /// Written `EVENT_NAME`.
    EventName,
    /// Written `PROGRAM_NAME`.
    ProgramName,
    /// An application specific, privately defined value.
    Private(String),
}

impl View for TargetLabel {
    type V = (nat, Seq<char>);

    /// The variant's position and, for a private value, its text.
    open spec fn view(&self) -> (nat, Seq<char>) {
        match self {
            TargetLabel::PowerServiceLocation => (0nat, Seq::empty()),
            TargetLabel::ServiceArea => (1nat, Seq::empty()),
            TargetLabel::Group => (2nat, Seq::empty()),
            TargetLabel::ResourceName => (3nat, Seq::empty()),
            TargetLabel::VENName => (4nat, Seq::empty()),
            TargetLabel::EventName => (5nat, Seq::empty()),
            TargetLabel::ProgramName => (6nat, Seq::empty()),
            TargetLabel::Private(text) => (7nat, text@),
        }
    }
}

/// The text a `TargetLabel` is written as.
pub open spec fn target_label_text(v: (nat, Seq<char>)) -> Seq<char> {
    if v.0 == 0 { "POWER_SERVICE_LOCATION"@ } else if v.0 == 1 { "SERVICE_AREA"@ } else if v.0 == 2 { "GROUP"@ } else if v.0 == 3 { "RESOURCE_NAME"@ } else if v.0 == 4 { "VEN_NAME"@ } else if v.0 == 5 { "EVENT_NAME"@ } else if v.0 == 6 { "PROGRAM_NAME"@ } else { v.1 }
}

/// The `TargetLabel` a text denotes, by its position and private text.
pub open spec fn target_label_of_text(s: Seq<char>) -> Option<(nat, Seq<char>)> {
    if s == "POWER_SERVICE_LOCATION"@ { Some((0nat, Seq::empty())) } else if s == "SERVICE_AREA"@ { Some((1nat, Seq::empty())) } else if s == "GROUP"@ { Some((2nat, Seq::empty())) } else if s == "RESOURCE_NAME"@ { Some((3nat, Seq::empty())) } else if s == "VEN_NAME"@ { Some((4nat, Seq::empty())) } else if s == "EVENT_NAME"@ { Some((5nat, Seq::empty())) } else if s == "PROGRAM_NAME"@ { Some((6nat, Seq::empty())) } else { Some((7nat, s)) }
}

/// The text is one of the names reserved for the named variants of `TargetLabel`.
pub open spec fn target_label_reserved(s: Seq<char>) -> bool {
    s == "POWER_SERVICE_LOCATION"@ || s == "SERVICE_AREA"@ || s == "GROUP"@ || s == "RESOURCE_NAME"@ || s == "VEN_NAME"@ || s == "EVENT_NAME"@ || s == "PROGRAM_NAME"@
}

impl TargetLabel {
    /// The text this value is written as on the wire.
    pub fn as_str(&self) -> (r: &str)
        ensures
            r@ == target_label_text(self@),
    {
        match self {
            TargetLabel::PowerServiceLocation => "POWER_SERVICE_LOCATION",
            TargetLabel::ServiceArea => "SERVICE_AREA",
            TargetLabel::Group => "GROUP",
            TargetLabel::ResourceName => "RESOURCE_NAME",
            TargetLabel::VENName => "VEN_NAME",
            TargetLabel::EventName => "EVENT_NAME",
            TargetLabel::ProgramName => "PROGRAM_NAME",
            TargetLabel::Private(text) => text.as_str(),
        }
    }

    /// The value a text denotes: a named variant when the text is its name,
    /// a private value otherwise.
    pub fn from_text(s: &str) -> (r: Self)
        ensures
            target_label_of_text(s@) == Some(r@),
    {
        if str_eq(s, "POWER_SERVICE_LOCATION") {
            TargetLabel::PowerServiceLocation
        } else if str_eq(s, "SERVICE_AREA") {
            TargetLabel::ServiceArea
        } else if str_eq(s, "GROUP") {
            TargetLabel::Group
        } else if str_eq(s, "RESOURCE_NAME") {
            TargetLabel::ResourceName
        } else if str_eq(s, "VEN_NAME") {
            TargetLabel::VENName
        } else if str_eq(s, "EVENT_NAME") {
            TargetLabel::EventName
        } else if str_eq(s, "PROGRAM_NAME") {
            TargetLabel::ProgramName
        } else {
            TargetLabel::Private(s.to_owned())
        }
    }

    /// The position of the variant.
    pub fn variant_index(&self) -> (r: u8)
        ensures
            r as nat == self@.0,
    {
        match self {
            TargetLabel::PowerServiceLocation => 0,
            TargetLabel::ServiceArea => 1,
            TargetLabel::Group => 2,
            TargetLabel::ResourceName => 3,
            TargetLabel::VENName => 4,
            TargetLabel::EventName => 5,
            TargetLabel::ProgramName => 6,
            TargetLabel::Private(_) => 7,
        }
    }

    /// Compares two values variant by variant, private values by their text.
    pub fn same_as(&self, other: &Self) -> (r: bool)
        ensures
            r == (self@ == other@),
    {
        match self {
            TargetLabel::Private(a) => match other {
                TargetLabel::Private(b) => str_eq(a.as_str(), b.as_str()),
                _ => false,
            },
            _ => self.variant_index() == other.variant_index(),
        }
    }

    /// A copy of this value.
    pub fn duplicate(&self) -> (r: Self)
        ensures
            r@ == self@,
    {
        match self {
            TargetLabel::PowerServiceLocation => TargetLabel::PowerServiceLocation,
            TargetLabel::ServiceArea => TargetLabel::ServiceArea,
            TargetLabel::Group => TargetLabel::Group,
            TargetLabel::ResourceName => TargetLabel::ResourceName,
            TargetLabel::VENName => TargetLabel::VENName,
            TargetLabel::EventName => TargetLabel::EventName,
            TargetLabel::ProgramName => TargetLabel::ProgramName,
            TargetLabel::Private(text) => TargetLabel::Private(text.clone()),
        }
    }

}

/// Reading back the text of a `TargetLabel` gives the value again, unless the
/// value is a private one spelled like a named variant.
pub proof fn lemma_target_label_text_roundtrip(v: TargetLabel)
    requires
        v is Private ==> !target_label_reserved(v@.1),
    ensures
        target_label_of_text(target_label_text(v@)) == Some(v@),
{
    reveal_strlit("EVENT_NAME");
    reveal_strlit("GROUP");
    reveal_strlit("POWER_SERVICE_LOCATION");
    reveal_strlit("PROGRAM_NAME");
    reveal_strlit("RESOURCE_NAME");
    reveal_strlit("SERVICE_AREA");
    reveal_strlit("VEN_NAME");
    match v {
        TargetLabel::PowerServiceLocation => {
        },
        TargetLabel::ServiceArea => {
            assert("SERVICE_AREA"@.len() != "POWER_SERVICE_LOCATION"@.len());
        },
        TargetLabel::Group => {
            assert("GROUP"@.len() != "POWER_SERVICE_LOCATION"@.len());
            assert("GROUP"@.len() != "SERVICE_AREA"@.len());
        },
        TargetLabel::ResourceName => {
            assert("RESOURCE_NAME"@.len() != "POWER_SERVICE_LOCATION"@.len());
            assert("RESOURCE_NAME"@.len() != "SERVICE_AREA"@.len());
            assert("RESOURCE_NAME"@.len() != "GROUP"@.len());
        },
        TargetLabel::VENName => {
            assert("VEN_NAME"@.len() != "POWER_SERVICE_LOCATION"@.len());
            assert("VEN_NAME"@.len() != "SERVICE_AREA"@.len());
            assert("VEN_NAME"@.len() != "GROUP"@.len());
            assert("VEN_NAME"@.len() != "RESOURCE_NAME"@.len());
        },
        TargetLabel::EventName => {
            assert("EVENT_NAME"@.len() != "POWER_SERVICE_LOCATION"@.len());
            assert("EVENT_NAME"@.len() != "SERVICE_AREA"@.len());
            assert("EVENT_NAME"@.len() != "GROUP"@.len());
            assert("EVENT_NAME"@.len() != "RESOURCE_NAME"@.len());
            assert("EVENT_NAME"@.len() != "VEN_NAME"@.len());
        },
        TargetLabel::ProgramName => {
            assert("PROGRAM_NAME"@.len() != "POWER_SERVICE_LOCATION"@.len());
            assert("PROGRAM_NAME"@[0] != "SERVICE_AREA"@[0]);
            assert("PROGRAM_NAME"@.len() != "GROUP"@.len());
            assert("PROGRAM_NAME"@.len() != "RESOURCE_NAME"@.len());
            assert("PROGRAM_NAME"@.len() != "VEN_NAME"@.len());
            assert("PROGRAM_NAME"@.len() != "EVENT_NAME"@.len());
        },
        TargetLabel::Private(_) => {},
    }
}

/// Every text that denotes a `TargetLabel` is the text of what it denotes.
pub proof fn lemma_target_label_parse_then_text(s: Seq<char>)
    requires
        target_label_of_text(s) is Some,
    ensures
        target_label_text(target_label_of_text(s)->0) == s,
{
}

/// A currency as listed in ISO 4217.
#[derive(Debug, Clone, Copy, PartialEq, Eq, Hash)]
pub enum Currency {
    /// Written `Todo`.
    Todo,
}

impl View for Currency {
    type V = (nat, Seq<char>);

    /// The variant's position and, for a private value, its text.
    open spec fn view(&self) -> (nat, Seq<char>) {
        match self {
            Currency::Todo => (0nat, Seq::empty()),
        }
    }
}

/// The text a `Currency` is written as.
pub open spec fn currency_text(v: (nat, Seq<char>)) -> Seq<char> {
    if v.0 == 0 { "Todo"@ } else { Seq::empty() }
}

/// The `Currency` a text denotes, by its position and private text.
pub open spec fn currency_of_text(s: Seq<char>) -> Option<(nat, Seq<char>)> {
    if s == "Todo"@ { Some((0nat, Seq::empty())) } else { None }
}

/// The text is one of the names reserved for the named variants of `Currency`.
pub open spec fn currency_reserved(s: Seq<char>) -> bool {
    s == "Todo"@
}

impl Currency {
    /// The text this value is written as on the wire.
    pub fn as_str(&self) -> (r: &str)
        ensures
            r@ == currency_text(self@),
    {
        match self {
            Currency::Todo => "Todo",
        }
    }

    /// The value a text denotes, if it is one of the names.
    pub fn from_text(s: &str) -> (r: Option<Self>)
        ensures
            r matches Some(v) ==> currency_of_text(s@) == Some(v@),
            r is None <==> currency_of_text(s@) is None,
    {
        if str_eq(s, "Todo") {
            Some(Currency::Todo)
        } else {
            None
        }
    }

    /// The position of the variant.
    pub fn variant_index(&self) -> (r: u8)
        ensures
            r as nat == self@.0,
    {
        match self {
            Currency::Todo => 0,
        }
    }

    /// Compares two values variant by variant, private values by their text.
    pub fn same_as(&self, other: &Self) -> (r: bool)
        ensures
            r == (self@ == other@),
    {
        self.variant_index() == other.variant_index()
    }

}

/// Reading back the text of a `Currency` gives the value again, unless the
/// value is a private one spelled like a named variant.
pub proof fn lemma_currency_text_roundtrip(v: Currency)
    ensures
        currency_of_text(currency_text(v@)) == Some(v@),
{
    reveal_strlit("Todo");
    match v {
        Currency::Todo => {
        },
    }
}

/// Every text that denotes a `Currency` is the text of what it denotes.
pub proof fn lemma_currency_parse_then_text(s: Seq<char>)
    requires
        currency_of_text(s) is Some,
    ensures
        currency_text(currency_of_text(s)->0) == s,
{
}

/// Discriminator of event objects.
#[derive(Debug, Clone, Copy, PartialEq, Eq, Hash)]
pub enum EventObjectType {
    /// Written `EVENT`.
    Event,
}

impl View for EventObjectType {
    type V = (nat, Seq<char>);

    /// The variant's position and, for a private value, its text.
    open spec fn view(&self) -> (nat, Seq<char>) {
        match self {
            EventObjectType::Event => (0nat, Seq::empty()),
        }
    }
}

/// The text a `EventObjectType` is written as.
pub open spec fn event_object_type_text(v: (nat, Seq<char>)) -> Seq<char> {
    if v.0 == 0 { "EVENT"@ } else { Seq::empty() }
}

/// The `EventObjectType` a text denotes, by its position and private text.
pub open spec fn event_object_type_of_text(s: Seq<char>) -> Option<(nat, Seq<char>)> {
    if s == "EVENT"@ { Some((0nat, Seq::empty())) } else { None }
}

/// The text is one of the names reserved for the named variants of `EventObjectType`.
pub open spec fn event_object_type_reserved(s: Seq<char>) -> bool {
    s == "EVENT"@
}

impl EventObjectType {
    /// The text this value is written as on the wire.
    pub fn as_str(&self) -> (r: &str)
        ensures
            r@ == event_object_type_text(self@),
    {
        match self {
            EventObjectType::Event => "EVENT",
        }
    }

    /// The value a text denotes, if it is one of the names.
    pub fn from_text(s: &str) -> (r: Option<Self>)
        ensures
            r matches Some(v) ==> event_object_type_of_text(s@) == Some(v@),
            r is None <==> event_object_type_of_text(s@) is None,
    {
        if str_eq(s, "EVENT") {
            Some(EventObjectType::Event)
        } else {
            None
        }
    }

    /// The position of the variant.
    pub fn variant_index(&self) -> (r: u8)
        ensures
            r as nat == self@.0,
    {
        match self {
            EventObjectType::Event => 0,
        }
    }

    /// Compares two values variant by variant, private values by their text.
    pub fn same_as(&self, other: &Self) -> (r: bool)
        ensures
            r == (self@ == other@),
    {
        self.variant_index() == other.variant_index()
    }

    /// The default value, `Event`.
    pub fn default_value() -> (r: Self)
        ensures
            r@ == EventObjectType::Event@,
    {
        EventObjectType::Event
    }

}

/// Reading back the text of a `EventObjectType` gives the value again, unless the
/// value is a private one spelled like a named variant.
pub proof fn lemma_event_object_type_text_roundtrip(v: EventObjectType)
    ensures
        event_object_type_of_text(event_object_type_text(v@)) == Some(v@),
{
    reveal_strlit("EVENT");
    match v {
        EventObjectType::Event => {
        },
    }
}

/// Every text that denotes a `EventObjectType` is the text of what it denotes.
pub proof fn lemma_event_object_type_parse_then_text(s: Seq<char>)
    requires
        event_object_type_of_text(s) is Some,
    ensures
        event_object_type_text(event_object_type_of_text(s)->0) == s,
{
}

/// Discriminator of program objects.
#[derive(Debug, Clone, Copy, PartialEq, Eq, Hash)]
pub enum ProgramObjectType {
    /// Written `PROGRAM`.
    Program,
}

impl View for ProgramObjectType {
    type V = (nat, Seq<char>);

    /// The variant's position and, for a private value, its text.
    open spec fn view(&self) -> (nat, Seq<char>) {
        match self {
            ProgramObjectType::Program => (0nat, Seq::empty()),
        }
    }
}

/// The text a `ProgramObjectType` is written as.
pub open spec fn program_object_type_text(v: (nat, Seq<char>)) -> Seq<char> {
    if v.0 == 0 { "PROGRAM"@ } else { Seq::empty() }
}

/// The `ProgramObjectType` a text denotes, by its position and private text.
pub open spec fn program_object_type_of_text(s: Seq<char>) -> Option<(nat, Seq<char>)> {
    if s == "PROGRAM"@ { Some((0nat, Seq::empty())) } else { None }
}

/// The text is one of the names reserved for the named variants of `ProgramObjectType`.
pub open spec fn program_object_type_reserved(s: Seq<char>) -> bool {
    s == "PROGRAM"@
}

impl ProgramObjectType {
    /// The text this value is written as on the wire.
    pub fn as_str(&self) -> (r: &str)
        ensures
            r@ == program_object_type_text(self@),
    {
        match self {
            ProgramObjectType::Program => "PROGRAM",
        }
    }

    /// The value a text denotes, if it is one of the names.
    pub fn from_text(s: &str) -> (r: Option<Self>)
        ensures
            r matches Some(v) ==> program_object_type_of_text(s@) == Some(v@),
            r is None <==> program_object_type_of_text(s@) is None,
    {
        if str_eq(s, "PROGRAM") {
            Some(ProgramObjectType::Program)
        } else {
            None
        }
    }

    /// The position of the variant.
    pub fn variant_index(&self) -> (r: u8)
        ensures
            r as nat == self@.0,
    {
        match self {
            ProgramObjectType::Program => 0,
        }
    }

    /// Compares two values variant by variant, private values by their text.
    pub fn same_as(&self, other: &Self) -> (r: bool)
        ensures
            r == (self@ == other@),
    {
        self.variant_index() == other.variant_index()
    }

    /// The default value, `Program`.
    pub fn default_value() -> (r: Self)
        ensures
            r@ == ProgramObjectType::Program@,
    {
        ProgramObjectType::Program
    }

}

/// Reading back the text of a `ProgramObjectType` gives the value again, unless the
/// value is a private one spelled like a named variant.
pub proof fn lemma_program_object_type_text_roundtrip(v: ProgramObjectType)
    ensures
        program_object_type_of_text(program_object_type_text(v@)) == Some(v@),
{
    reveal_strlit("PROGRAM");
    match v {
        ProgramObjectType::Program => {
        },
    }
}

/// Every text that denotes a `ProgramObjectType` is the text of what it denotes.
pub proof fn lemma_program_object_type_parse_then_text(s: Seq<char>)
    requires
        program_object_type_of_text(s) is Some,
    ensures
        program_object_type_text(program_object_type_of_text(s)->0) == s,
{
}

/// Discriminator of report objects.
#[derive(Debug, Clone, Copy, PartialEq, Eq, Hash)]
pub enum ReportObjectType {
    /// Written `REPORT`.
    Report,
}

impl View for ReportObjectType {
    type V = (nat, Seq<char>);

    /// The variant's position and, for a private value, its text.
    open spec fn view(&self) -> (nat, Seq<char>) {
        match self {
            ReportObjectType::Report => (0nat, Seq::empty()),
        }
    }
}

/// The text a `ReportObjectType` is written as.
pub open spec fn report_object_type_text(v: (nat, Seq<char>)) -> Seq<char> {
    if v.0 == 0 { "REPORT"@ } else { Seq::empty() }
}

/// The `ReportObjectType` a text denotes, by its position and private text.
pub open spec fn report_object_type_of_text(s: Seq<char>) -> Option<(nat, Seq<char>)> {
    if s == "REPORT"@ { Some((0nat, Seq::empty())) } else { None }
}

/// The text is one of the names reserved for the named variants of `ReportObjectType`.
pub open spec fn report_object_type_reserved(s: Seq<char>) -> bool {
    s == "REPORT"@
}

impl ReportObjectType {
    /// The text this value is written as on the wire.
    pub fn as_str(&self) -> (r: &str)
        ensures
            r@ == report_object_type_text(self@),
    {
        match self {
            ReportObjectType::Report => "REPORT",
        }
    }

    /// The value a text denotes, if it is one of the names.
    pub fn from_text(s: &str) -> (r: Option<Self>)
        ensures
            r matches Some(v) ==> report_object_type_of_text(s@) == Some(v@),
            r is None <==> report_object_type_of_text(s@) is None,
    {
        if str_eq(s, "REPORT") {
            Some(ReportObjectType::Report)
        } else {
            None
        }
    }

    /// The position of the variant.
    pub fn variant_index(&self) -> (r: u8)
        ensures
            r as nat == self@.0,
    {
        match self {
            ReportObjectType::Report => 0,
        }
    }

    /// Compares two values variant by variant, private values by their text.
    pub fn same_as(&self, other: &Self) -> (r: bool)
        ensures
            r == (self@ == other@),
    {
        self.variant_index() == other.variant_index()
    }

    /// The default value, `Report`.
    pub fn default_value() -> (r: Self)
        ensures
            r@ == ReportObjectType::Report@,
    {
        ReportObjectType::Report
    }

}

/// Reading back the text of a `ReportObjectType` gives the value again, unless the
/// value is a private one spelled like a named variant.
pub proof fn lemma_report_object_type_text_roundtrip(v: ReportObjectType)
    ensures
        report_object_type_of_text(report_object_type_text(v@)) == Some(v@),
{
    reveal_strlit("REPORT");
    match v {
        ReportObjectType::Report => {
        },
    }
}

/// Every text that denotes a `ReportObjectType` is the text of what it denotes.
pub proof fn lemma_report_object_type_parse_then_text(s: Seq<char>)
    requires
        report_object_type_of_text(s) is Some,
    ensures
        report_object_type_text(report_object_type_of_text(s)->0) == s,
{
}


impl DeepView for OperatingState {
    type V = (nat, Seq<char>);

    open spec fn deep_view(&self) -> (nat, Seq<char>) {
        self@
    }
}

impl DeepCopy for OperatingState {
    fn deep_copy(&self) -> (r: Self) {
        self.duplicate()
    }
}

impl DeepView for DataQuality {
    type V = (nat, Seq<char>);

    open spec fn deep_view(&self) -> (nat, Seq<char>) {
        self@
    }
}

impl DeepCopy for DataQuality {
    fn deep_copy(&self) -> (r: Self) {
        self.duplicate()
    }
}

impl DeepView for Attribute {
    type V = (nat, Seq<char>);

    open spec fn deep_view(&self) -> (nat, Seq<char>) {
        self@
    }
}

impl DeepCopy for Attribute {
    fn deep_copy(&self) -> (r: Self) {
        self.duplicate()
    }
}

impl DeepView for Unit {
    type V = (nat, Seq<char>);

    open spec fn deep_view(&self) -> (nat, Seq<char>) {
        self@
    }
}

impl DeepCopy for Unit {
    fn deep_copy(&self) -> (r: Self) {
        self.duplicate()
    }
}

impl DeepView for EventType {
    type V = (nat, Seq<char>);

    open spec fn deep_view(&self) -> (nat, Seq<char>) {
        self@
    }
}

impl DeepCopy for EventType {
    fn deep_copy(&self) -> (r: Self) {
        self.duplicate()
    }
}

impl DeepView for ReportType {
    type V = (nat, Seq<char>);

    open spec fn deep_view(&self) -> (nat, Seq<char>) {
        self@
    }
}

impl DeepCopy for ReportType {
    fn deep_copy(&self) -> (r: Self) {
        self.duplicate()
    }
}

impl DeepView for ReadingType {
    type V = (nat, Seq<char>);

    open spec fn deep_view(&self) -> (nat, Seq<char>) {
        self@
    }
}

impl DeepCopy for ReadingType {
    fn deep_copy(&self) -> (r: Self) {
        self.duplicate()
    }
}

impl DeepView for ResourceName {
    type V = (nat, Seq<char>);

    open spec fn deep_view(&self) -> (nat, Seq<char>) {
        self@
    }
}

impl DeepCopy for ResourceName {
    fn deep_copy(&self) -> (r: Self) {
        self.duplicate()
    }
}

impl DeepView for TargetLabel {
    type V = (nat, Seq<char>);

    open spec fn deep_view(&self) -> (nat, Seq<char>) {
        self@
    }
}

impl DeepCopy for TargetLabel {
    fn deep_copy(&self) -> (r: Self) {
        self.duplicate()
    }
}

impl DeepView for Currency {
    type V = (nat, Seq<char>);

    open spec fn deep_view(&self) -> (nat, Seq<char>) {
        self@
    }
}

impl DeepCopy for Currency {
    fn deep_copy(&self) -> (r: Self) {
        *self
    }
}

impl DeepView for EventObjectType {
    type V = (nat, Seq<char>);

    open spec fn deep_view(&self) -> (nat, Seq<char>) {
        self@
    }
}

impl DeepCopy for EventObjectType {
    fn deep_copy(&self) -> (r: Self) {
        *self
    }
}

impl DeepView for ProgramObjectType {
    type V = (nat, Seq<char>);

    open spec fn deep_view(&self) -> (nat, Seq<char>) {
        self@
    }
}

impl DeepCopy for ProgramObjectType {
    fn deep_copy(&self) -> (r: Self) {
        *self
    }
}

impl DeepView for ReportObjectType {
    type V = (nat, Seq<char>);

    open spec fn deep_view(&self) -> (nat, Seq<char>) {
        self@
    }
}

impl DeepCopy for ReportObjectType {
    fn deep_copy(&self) -> (r: Self) {
        *self
    }
}

} // verus!
