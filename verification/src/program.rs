//! Programs: the frame in which a VTN sends events to VENs.

use vstd::prelude::*;
use crate::copy::DeepCopy;

use crate::event::EventPayloadDescriptor;
use crate::ids::ProgramId;
use crate::report::ReportPayloadDescriptor;
use crate::target::TargetMap;
use crate::time::{Duration, IntervalPeriod, Timestamp};
use crate::wire_enums::ProgramObjectType;

verus! {

/// The text is a URL: the URL parser accepts it.
pub uninterp spec fn url_valid(s: Seq<char>) -> bool;

/// Asks `validator::ValidateUrl::validate_url`, which asks `url::Url::parse`,
/// whether `s` is a URL. Claimed: the answer is a function of the text alone
/// (named `url_valid`).
#[verifier::external_body]
fn check_url(s: &str) -> (r: bool)
    ensures
        r == url_valid(s@),
{
    validator::ValidateUrl::validate_url(s)
}

/// A human or machine readable description of a program, given by its URL.
#[derive(Debug, Clone, PartialEq, Eq, Default)]
pub struct ProgramDescription {
    pub url: String,
}

impl ProgramDescription {
    /// The description is a URL.
    pub open spec fn valid(self) -> bool {
        url_valid(self.url@)
    }

    /// Checks that the description is a URL.
    pub fn validate(&self) -> (r: bool)
        ensures
            r == self.valid(),
    {
        check_url(self.url.as_str())
    }
}

/// Every description in the list is a URL.
pub open spec fn descriptions_valid(ds: Seq<ProgramDescription>) -> bool {
    forall|i: int| 0 <= i < ds.len() ==> (#[trigger] ds[i]).valid()
}

/// Context for the payloads of a program's events or reports.
#[derive(Debug, Clone, PartialEq)]
pub enum PayloadDescriptor {
    EventPayloadDescriptor(EventPayloadDescriptor),
    ReportPayloadDescriptor(ReportPayloadDescriptor),
}

/// The content of a program, as sent by a business to create or update it.
#[derive(Debug, Clone, PartialEq)]
pub struct ProgramContent {
    pub object_type: Option<ProgramObjectType>,
    /// Short name that identifies the program (1..=128 characters on the wire).
    pub program_name: String,
    pub program_long_name: Option<String>,
    /// Short name of the energy retailer providing the program.
    pub retailer_name: Option<String>,
    pub retailer_long_name: Option<String>,
    /// A program defined categorization.
    pub program_type: Option<String>,
    /// Alpha-2 code per ISO 3166-1.
    pub country: Option<String>,
    /// Coding per ISO 3166-2, e.g. a state in the US.
    pub principal_subdivision: Option<String>,
    /// Hours of difference from UTC of the program's standard time.
    pub time_zone_offset: Option<Duration>,
    /// Default period of the intervals of the program's events.
    pub interval_period: Option<IntervalPeriod>,
    pub program_descriptions: Option<Vec<ProgramDescription>>,
    /// Events are fixed once transmitted.
    pub binding_events: Option<bool>,
    /// Events have been adapted from a grid event.
    pub local_price: Option<bool>,
    pub payload_descriptors: Option<Vec<PayloadDescriptor>>,
    pub targets: Option<TargetMap>,
}

impl ProgramContent {
    /// A program of the given name, marked as a program, everything else unset.
    pub fn new(name: &str) -> (r: ProgramContent)
        ensures
            r.program_name@ == name@,
            r.object_type == Some(ProgramObjectType::Program),
            r.program_long_name is None,
            r.retailer_name is None,
            r.retailer_long_name is None,
            r.program_type is None,
            r.country is None,
            r.principal_subdivision is None,
            r.time_zone_offset is None,
            r.interval_period is None,
            r.program_descriptions is None,
            r.binding_events is None,
            r.local_price is None,
            r.payload_descriptors is None,
            r.targets is None,
    {
        ProgramContent {
            object_type: Some(ProgramObjectType::Program),
            program_name: name.to_owned(),
            program_long_name: None,
            retailer_name: None,
            retailer_long_name: None,
            program_type: None,
            country: None,
            principal_subdivision: None,
            time_zone_offset: None,
            interval_period: None,
            program_descriptions: None,
            binding_events: None,
            local_price: None,
            payload_descriptors: None,
            targets: None,
        }
    }

    /// Checks the nested constraints: every program description is a URL.
    pub fn validate(&self) -> (r: bool)
        ensures
            r == (match self.program_descriptions {
                None => true,
                Some(ds) => descriptions_valid(ds@),
            }),
    {
        match &self.program_descriptions {
            None => true,
            Some(ds) => {
                let mut i: usize = 0;
                while i < ds.len()
                    invariant
                        self.program_descriptions == Some(*ds),
                        i <= ds@.len(),
                        forall|j: int| 0 <= j < i ==> (#[trigger] ds@[j]).valid(),
                    decreases ds@.len() - i,
                {
                    if !ds[i].validate() {
                        assert(!ds@[i as int].valid());
                        return false;
                    }
                    i = i + 1;
                }
                true
            },
        }
    }
}

/// A program as stored by the VTN.
#[derive(Debug, Clone, PartialEq)]
pub struct Program {
    pub id: ProgramId,
    pub created_date_time: Timestamp,
    pub modification_date_time: Timestamp,
    pub content: ProgramContent,
}


impl DeepView for ProgramDescription {
    type V = Seq<char>;

    open spec fn deep_view(&self) -> Seq<char> {
        self.url@
    }
}

impl DeepCopy for ProgramDescription {
    fn deep_copy(&self) -> (r: Self) {
        ProgramDescription { url: self.url.clone() }
    }
}

/// A payload descriptor as a mathematical value.
pub enum PayloadDescriptorView {
    Event(<EventPayloadDescriptor as DeepView>::V),
    Report(<ReportPayloadDescriptor as DeepView>::V),
}

impl DeepView for PayloadDescriptor {
    type V = PayloadDescriptorView;

    open spec fn deep_view(&self) -> PayloadDescriptorView {
        match self {
            PayloadDescriptor::EventPayloadDescriptor(d) => PayloadDescriptorView::Event(d.deep_view()),
            PayloadDescriptor::ReportPayloadDescriptor(d) => PayloadDescriptorView::Report(d.deep_view()),
        }
    }
}

impl DeepCopy for PayloadDescriptor {
    fn deep_copy(&self) -> (r: Self) {
        match self {
            PayloadDescriptor::EventPayloadDescriptor(d) => PayloadDescriptor::EventPayloadDescriptor(d.deep_copy()),
            PayloadDescriptor::ReportPayloadDescriptor(d) => PayloadDescriptor::ReportPayloadDescriptor(d.deep_copy()),
        }
    }
}

impl DeepView for ProgramContent {
    type V = (
        (Option<(nat, Seq<char>)>, Seq<char>, Option<Seq<char>>, Option<Seq<char>>, Option<Seq<char>>),
        (Option<Seq<char>>, Option<Seq<char>>, Option<Seq<char>>, Option<Duration>, Option<IntervalPeriod>),
        (Option<Seq<Seq<char>>>, Option<bool>, Option<bool>, Option<Seq<PayloadDescriptorView>>, Option<Seq<((nat, Seq<char>), Seq<char>)>>),
    );

    open spec fn deep_view(&self) -> Self::V {
        (
            (
                self.object_type.deep_view(),
                self.program_name@,
                self.program_long_name.deep_view(),
                self.retailer_name.deep_view(),
                self.retailer_long_name.deep_view(),
            ),
            (
                self.program_type.deep_view(),
                self.country.deep_view(),
                self.principal_subdivision.deep_view(),
                self.time_zone_offset,
                self.interval_period,
            ),
            (
                self.program_descriptions.deep_view(),
                self.binding_events,
                self.local_price,
                self.payload_descriptors.deep_view(),
                self.targets.deep_view(),
            ),
        )
    }
}

impl DeepCopy for ProgramContent {
    fn deep_copy(&self) -> (r: Self) {
        ProgramContent {
            object_type: self.object_type.deep_copy(),
            program_name: self.program_name.clone(),
            program_long_name: self.program_long_name.deep_copy(),
            retailer_name: self.retailer_name.deep_copy(),
            retailer_long_name: self.retailer_long_name.deep_copy(),
            program_type: self.program_type.deep_copy(),
            country: self.country.deep_copy(),
            principal_subdivision: self.principal_subdivision.deep_copy(),
            time_zone_offset: self.time_zone_offset,
            interval_period: self.interval_period,
            program_descriptions: self.program_descriptions.deep_copy(),
            binding_events: self.binding_events,
            local_price: self.local_price,
            payload_descriptors: self.payload_descriptors.deep_copy(),
            targets: self.targets.deep_copy(),
        }
    }
}

impl DeepView for Program {
    type V = (Seq<char>, Timestamp, Timestamp, <ProgramContent as DeepView>::V);

    open spec fn deep_view(&self) -> Self::V {
        (self.id@, self.created_date_time, self.modification_date_time, self.content.deep_view())
    }
}

impl DeepCopy for Program {
    fn deep_copy(&self) -> (r: Self) {
        Program {
            id: self.id.deep_copy(),
            created_date_time: self.created_date_time,
            modification_date_time: self.modification_date_time,
            content: self.content.deep_copy(),
        }
    }
}

} // verus!
