//! Reports sent by VENs.

use vstd::prelude::*;
use crate::copy::DeepCopy;
use crate::ids::{EventId, ProgramId, ReportId};
use crate::interval::Interval;
use crate::target::TargetMap;
use crate::time::{IntervalPeriod, Timestamp};
use crate::values::Value;
use crate::wire_enums::{ReadingType, ReportObjectType, ReportType, ResourceName, Unit};

verus! {

/// The content of a report, as sent by a VEN to create or update it.
#[derive(Debug, Clone, PartialEq)]
pub struct ReportContent {
    pub object_type: Option<ReportObjectType>,
    /// The program the report is associated with.
    pub program_id: ProgramId,
    /// The event the report is associated with.
    pub event_id: EventId,
    /// User generated identifier, e.g. the VEN's (1..=128 characters on the wire).
    pub client_name: String,
    pub report_name: Option<String>,
    pub payload_descriptors: Option<Vec<ReportPayloadDescriptor>>,
    /// Report data for a set of resources.
    pub resources: Vec<Resource>,
}

impl ReportContent {
    /// The same report from the given client.
    pub fn with_client_name(self, client_name: &str) -> (r: ReportContent)
        ensures
            r.client_name@ == client_name@,
            r == (ReportContent { client_name: r.client_name, ..self }),
    {
        ReportContent { client_name: client_name.to_owned(), ..self }
    }

    /// The same report with the given name.
    pub fn with_name(self, name: &str) -> (r: ReportContent)
        ensures
            r.report_name matches Some(n) && n@ == name@,
            r == (ReportContent { report_name: r.report_name, ..self }),
    {
        ReportContent { report_name: Some(name.to_owned()), ..self }
    }

    /// The same report with the given payload descriptors.
    pub fn with_payload_descriptors(self, descriptors: Vec<ReportPayloadDescriptor>) -> (r:
        ReportContent)
        ensures
            r == (ReportContent { payload_descriptors: Some(descriptors), ..self }),
    {
        ReportContent { payload_descriptors: Some(descriptors), ..self }
    }

    /// The same report covering the given resources.
    pub fn with_resources(self, resources: Vec<Resource>) -> (r: ReportContent)
        ensures
            r == (ReportContent { resources, ..self }),
    {
        ReportContent { resources, ..self }
    }

    /// Checks the nested constraints: every confidence lies in 0..=100.
    pub fn validate(&self) -> (r: bool)
        ensures
            r == (match self.payload_descriptors {
                None => true,
                Some(ds) => confidences_valid(ds@),
            }),
    {
        match &self.payload_descriptors {
            None => true,
            Some(ds) => {
                let mut i: usize = 0;
                while i < ds.len()
                    invariant
                        self.payload_descriptors == Some(*ds),
                        i <= ds@.len(),
                        forall|j: int| 0 <= j < i ==> (#[trigger] ds@[j]).confidence_valid(),
                    decreases ds@.len() - i,
                {
                    if !ds[i].validate() {
                        assert(!ds@[i as int].confidence_valid());
                        return false;
                    }
                    i = i + 1;
                }
                true
            },
        }
    }
}

/// Every descriptor's confidence, if any, lies in 0..=100.
pub open spec fn confidences_valid(ds: Seq<ReportPayloadDescriptor>) -> bool {
    forall|i: int| 0 <= i < ds.len() ==> (#[trigger] ds[i]).confidence_valid()
}

/// A report as stored by the VTN.
#[derive(Debug, Clone, PartialEq)]
pub struct Report {
    pub id: ReportId,
    pub created_date_time: Timestamp,
    pub modification_date_time: Timestamp,
    pub content: ReportContent,
}

/// Report data of one resource.
#[derive(Debug, Clone, PartialEq)]
pub struct Resource {
    /// `AGGREGATED_REPORT` stands for the data of more than one resource.
    pub resource_name: ResourceName,
    pub interval_period: Option<IntervalPeriod>,
    pub intervals: Vec<Interval>,
}

impl Resource {
    /// Report data of a resource, without a period of its own.
    pub fn new(resource_name: ResourceName, intervals: Vec<Interval>) -> (r: Resource)
        ensures
            r == (Resource { resource_name, interval_period: None, intervals }),
    {
        Resource { resource_name, interval_period: None, intervals }
    }
}

/// A request for a report from a VEN. `-1` in the numeric fields has the
/// meaning given on each field.
#[derive(Debug, Clone, PartialEq, Eq)]
pub struct ReportDescriptor {
    pub payload_type: ReportType,
    pub reading_type: ReadingType,
    pub units: Option<Unit>,
    pub targets: Option<TargetMap>,
    /// Aggregate the results of all targeted resources.
    pub aggregate: bool,
    /// The interval on which to report; `-1`: at the end of the last interval.
    pub start_interval: i32,
    /// Number of intervals to include; `-1`: all.
    pub num_intervals: i32,
    /// Report on the intervals preceding the start interval (else following it).
    pub historical: bool,
    /// Intervals between reports; `-1`: the same as `num_intervals`.
    pub frequency: i32,
    /// Number of reports; `-1`: indefinitely.
    pub repeat: i32,
}

/// Default of `aggregate`.
pub fn bool_false() -> (r: bool)
    ensures
        r == false,
{
    false
}

/// Default of `historical`.
pub fn bool_true() -> (r: bool)
    ensures
        r == true,
{
    true
}

/// Default of `start_interval`, `num_intervals` and `frequency`.
pub fn neg_one() -> (r: i32)
    ensures
        r == -1,
{
    -1
}

/// Default of `repeat`.
pub fn pos_one() -> (r: i32)
    ensures
        r == 1,
{
    1
}

impl ReportDescriptor {
    /// A request for one report of the given payload type, with every other
    /// field at its default.
    pub fn new(payload_type: ReportType) -> (r: ReportDescriptor)
        ensures
            r.payload_type == payload_type,
            r.reading_type@ == ReadingType::DirectRead@,
            r.units is None,
            r.targets is None,
            r.aggregate == false,
            r.start_interval == -1,
            r.num_intervals == -1,
            r.historical == true,
            r.frequency == -1,
            r.repeat == 1,
    {
        ReportDescriptor {
            payload_type,
            reading_type: ReadingType::default_value(),
            units: None,
            targets: None,
            aggregate: bool_false(),
            start_interval: neg_one(),
            num_intervals: neg_one(),
            historical: bool_true(),
            frequency: neg_one(),
            repeat: pos_one(),
        }
    }
}

/// A quantification of the confidence in a set of payload values, in percent.
#[derive(Debug, Clone, Copy, PartialEq, Eq, PartialOrd, Structural)]
pub struct Confidence(pub u8);

/// Context for interpreting report payload values.
#[derive(Debug, Clone, PartialEq)]
pub struct ReportPayloadDescriptor {
    pub payload_type: ReportType,
    pub reading_type: ReadingType,
    pub units: Option<Unit>,
    /// The single precision bit pattern of the accuracy of the values.
    pub accuracy: Option<u32>,
    pub confidence: Option<Confidence>,
}

impl ReportPayloadDescriptor {
    /// A descriptor of the given payload type, every other field unset or default.
    pub fn new(payload_type: ReportType) -> (r: ReportPayloadDescriptor)
        ensures
            r.payload_type == payload_type,
            r.reading_type@ == ReadingType::DirectRead@,
            r.units is None,
            r.accuracy is None,
            r.confidence is None,
    {
        ReportPayloadDescriptor {
            payload_type,
            reading_type: ReadingType::default_value(),
            units: None,
            accuracy: None,
            confidence: None,
        }
    }

    /// The confidence, if any, lies in 0..=100.
    pub open spec fn confidence_valid(self) -> bool {
        self.confidence matches Some(c) ==> c.0 <= 100
    }

    /// Checks that the confidence, if any, lies in 0..=100.
    pub fn validate(&self) -> (r: bool)
        ensures
            r == self.confidence_valid(),
    {
        match self.confidence {
            None => true,
            Some(c) => c.0 <= 100,
        }
    }
}

/// A temporal window of a report and the values reported for it.
#[derive(Debug, Clone, PartialEq)]
pub struct ReportInterval {
    pub id: i32,
    pub interval_period: Option<IntervalPeriod>,
    pub payloads: Vec<ReportValuesMap>,
}

impl ReportInterval {
    /// An interval without a period of its own.
    pub fn new(id: i32, payloads: Vec<ReportValuesMap>) -> (r: ReportInterval)
        ensures
            r == (ReportInterval { id, interval_period: None, payloads }),
    {
        ReportInterval { id, interval_period: None, payloads }
    }
}

/// One or more reported values associated with a type.
#[derive(Debug, Clone, PartialEq)]
pub struct ReportValuesMap {
    pub value_type: ReportType,
    pub values: Vec<Value>,
}


impl DeepView for ReportDescriptor {
    type V = ((nat, Seq<char>), (nat, Seq<char>), Option<(nat, Seq<char>)>, Option<Seq<((nat, Seq<char>), Seq<char>)>>, (bool, i32, i32, bool, i32, i32));

    open spec fn deep_view(&self) -> Self::V {
        (
            self.payload_type@,
            self.reading_type@,
            self.units.deep_view(),
            self.targets.deep_view(),
            (self.aggregate, self.start_interval, self.num_intervals, self.historical, self.frequency, self.repeat),
        )
    }
}

impl DeepCopy for ReportDescriptor {
    fn deep_copy(&self) -> (r: Self) {
        ReportDescriptor {
            payload_type: self.payload_type.deep_copy(),
            reading_type: self.reading_type.deep_copy(),
            units: self.units.deep_copy(),
            targets: self.targets.deep_copy(),
            aggregate: self.aggregate,
            start_interval: self.start_interval,
            num_intervals: self.num_intervals,
            historical: self.historical,
            frequency: self.frequency,
            repeat: self.repeat,
        }
    }
}

impl DeepView for ReportPayloadDescriptor {
    type V = ((nat, Seq<char>), (nat, Seq<char>), Option<(nat, Seq<char>)>, Option<u32>, Option<Confidence>);

    open spec fn deep_view(&self) -> Self::V {
        (self.payload_type@, self.reading_type@, self.units.deep_view(), self.accuracy, self.confidence)
    }
}

impl DeepCopy for ReportPayloadDescriptor {
    fn deep_copy(&self) -> (r: Self) {
        ReportPayloadDescriptor {
            payload_type: self.payload_type.deep_copy(),
            reading_type: self.reading_type.deep_copy(),
            units: self.units.deep_copy(),
            accuracy: self.accuracy,
            confidence: self.confidence,
        }
    }
}

impl DeepView for Resource {
    type V = ((nat, Seq<char>), Option<IntervalPeriod>, Seq<<Interval as DeepView>::V>);

    open spec fn deep_view(&self) -> Self::V {
        (self.resource_name@, self.interval_period, self.intervals.deep_view())
    }
}

impl DeepCopy for Resource {
    fn deep_copy(&self) -> (r: Self) {
        Resource {
            resource_name: self.resource_name.deep_copy(),
            interval_period: self.interval_period,
            intervals: self.intervals.deep_copy(),
        }
    }
}

impl DeepView for ReportContent {
    type V = (
        Option<(nat, Seq<char>)>,
        Seq<char>,
        Seq<char>,
        Seq<char>,
        Option<Seq<char>>,
        Option<Seq<<ReportPayloadDescriptor as DeepView>::V>>,
        Seq<<Resource as DeepView>::V>,
    );

    open spec fn deep_view(&self) -> Self::V {
        (
            self.object_type.deep_view(),
            self.program_id@,
            self.event_id@,
            self.client_name@,
            self.report_name.deep_view(),
            self.payload_descriptors.deep_view(),
            self.resources.deep_view(),
        )
    }
}

impl DeepCopy for ReportContent {
    fn deep_copy(&self) -> (r: Self) {
        ReportContent {
            object_type: self.object_type.deep_copy(),
            program_id: self.program_id.deep_copy(),
            event_id: self.event_id.deep_copy(),
            client_name: self.client_name.deep_copy(),
            report_name: self.report_name.deep_copy(),
            payload_descriptors: self.payload_descriptors.deep_copy(),
            resources: self.resources.deep_copy(),
        }
    }
}

impl DeepView for Report {
    type V = (Seq<char>, Timestamp, Timestamp, <ReportContent as DeepView>::V);

    open spec fn deep_view(&self) -> Self::V {
        (self.id@, self.created_date_time, self.modification_date_time, self.content.deep_view())
    }
}

impl DeepCopy for Report {
    fn deep_copy(&self) -> (r: Self) {
        Report {
            id: self.id.deep_copy(),
            created_date_time: self.created_date_time,
            modification_date_time: self.modification_date_time,
            content: self.content.deep_copy(),
        }
    }
}

} // verus!
