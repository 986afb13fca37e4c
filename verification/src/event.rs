//! Events: demand response requests of a program.

use vstd::prelude::*;
use crate::copy::DeepCopy;
use crate::ids::{EventId, ProgramId};
use crate::priority::Priority;
use crate::report::ReportDescriptor;
use crate::target::TargetMap;
use crate::time::{IntervalPeriod, Timestamp};
use crate::values::{duplicate_values, identical_values, Value, ValueView};
use crate::wire_enums::{Currency, EventObjectType, EventType, Unit};

verus! {

/// One or more values associated with a type, e.g. a single price.
#[derive(Debug, Clone, PartialEq, Eq)]
pub struct EventValuesMap {
    pub value_type: EventType,
    pub values: Vec<Value>,
}

impl View for EventValuesMap {
    type V = ((nat, Seq<char>), Seq<ValueView>);

    open spec fn view(&self) -> ((nat, Seq<char>), Seq<ValueView>) {
        (self.value_type@, self.values@.map_values(|v: Value| v@))
    }
}

impl EventValuesMap {
    /// A copy of the values map.
    pub fn duplicate(&self) -> (r: EventValuesMap)
        ensures
            r@ == self@,
    {
        let values = duplicate_values(&self.values);
        let r = EventValuesMap { value_type: self.value_type.duplicate(), values };
        assert(r.values@.map_values(|v: Value| v@) =~= self.values@.map_values(|v: Value| v@));
        r
    }

    /// Compares two values maps bit for bit.
    pub fn identical(&self, other: &EventValuesMap) -> (r: bool)
        ensures
            r == (self@ == other@),
    {
        self.value_type.same_as(&other.value_type) && identical_values(&self.values, &other.values)
    }
}

/// The views of a list of values maps.
pub open spec fn values_maps_view(maps: Seq<EventValuesMap>) -> Seq<
    ((nat, Seq<char>), Seq<ValueView>),
> {
    maps.map_values(|m: EventValuesMap| m@)
}

/// Copies a list of values maps.
pub fn duplicate_values_maps(maps: &Vec<EventValuesMap>) -> (r: Vec<EventValuesMap>)
    ensures
        values_maps_view(r@) == values_maps_view(maps@),
{
    let mut r: Vec<EventValuesMap> = Vec::new();
    let mut i: usize = 0;
    while i < maps.len()
        invariant
            i <= maps@.len(),
            r@.len() == i,
            forall|j: int| 0 <= j < i ==> #[trigger] r@[j]@ == maps@[j]@,
        decreases maps@.len() - i,
    {
        r.push(maps[i].duplicate());
        i = i + 1;
    }
    assert(values_maps_view(r@) =~= values_maps_view(maps@));
    r
}

/// Compares two lists of values maps bit for bit.
pub fn identical_values_maps(a: &Vec<EventValuesMap>, b: &Vec<EventValuesMap>) -> (r: bool)
    ensures
        r == (values_maps_view(a@) == values_maps_view(b@)),
{
    if a.len() != b.len() {
        assert(values_maps_view(a@).len() != values_maps_view(b@).len());
        return false;
    }
    let mut i: usize = 0;
    while i < a.len()
        invariant
            i <= a@.len(),
            a@.len() == b@.len(),
            forall|j: int| 0 <= j < i ==> #[trigger] a@[j]@ == b@[j]@,
        decreases a@.len() - i,
    {
        if !a[i].identical(&b[i]) {
            assert(values_maps_view(a@)[i as int] != values_maps_view(b@)[i as int]);
            return false;
        }
        i = i + 1;
    }
    assert(values_maps_view(a@) =~= values_maps_view(b@));
    true
}

/// Context for interpreting event payload values, such as units and currency.
#[derive(Debug, Clone, PartialEq, Eq)]
pub struct EventPayloadDescriptor {
    pub payload_type: EventType,
    pub units: Option<Unit>,
    pub currency: Option<Currency>,
}

impl EventPayloadDescriptor {
    /// A descriptor of the given payload type, without units or currency.
    pub fn new(payload_type: EventType) -> (r: EventPayloadDescriptor)
        ensures
            r == (EventPayloadDescriptor { payload_type, units: None, currency: None }),
    {
        EventPayloadDescriptor { payload_type, units: None, currency: None }
    }
}

/// A temporal window of an event and the values that hold during it.
#[derive(Debug, Clone, PartialEq)]
pub struct EventInterval {
    /// A client generated number assigned to the interval; not a sequence number.
    pub id: i32,
    /// Overrides the period of the event for this interval.
    pub interval_period: Option<IntervalPeriod>,
    pub payloads: Vec<EventValuesMap>,
}

impl EventInterval {
    /// An interval without a period of its own.
    pub fn new(id: i32, payloads: Vec<EventValuesMap>) -> (r: EventInterval)
        ensures
            r == (EventInterval { id, interval_period: None, payloads }),
    {
        EventInterval { id, interval_period: None, payloads }
    }
}

/// The content of an event, as sent by a business to create or update it.
#[derive(Debug, Clone, PartialEq)]
pub struct EventContent {
    pub object_type: Option<EventObjectType>,
    pub program_id: ProgramId,
    /// User defined string for debugging or user interfaces.
    pub event_name: Option<String>,
    /// Relative priority of the event; a lower number is a higher priority.
    pub priority: Priority,
    pub targets: Option<TargetMap>,
    /// Reports requested from VENs.
    pub report_descriptors: Option<Vec<ReportDescriptor>>,
    pub payload_descriptors: Option<Vec<EventPayloadDescriptor>>,
    /// Default start and duration of the intervals.
    pub interval_period: Option<IntervalPeriod>,
    pub intervals: Vec<EventInterval>,
}

impl EventContent {
    /// An event of the program with the given intervals, everything else unset.
    pub fn new(program_id: ProgramId, intervals: Vec<EventInterval>) -> (r: EventContent)
        requires
            intervals@.len() > 0,
        ensures
            r == (EventContent {
                object_type: None,
                program_id,
                event_name: None,
                priority: Priority(None),
                targets: None,
                report_descriptors: None,
                payload_descriptors: None,
                interval_period: None,
                intervals,
            }),
    {
        EventContent {
            object_type: None,
            program_id,
            event_name: None,
            priority: Priority(None),
            targets: None,
            report_descriptors: None,
            payload_descriptors: None,
            interval_period: None,
            intervals,
        }
    }

    /// The same event with the given name.
    pub fn with_event_name(self, event_name: String) -> (r: EventContent)
        ensures
            r == (EventContent { event_name: Some(event_name), ..self }),
    {
        EventContent { event_name: Some(event_name), ..self }
    }

    /// The same event with the given priority.
    pub fn with_priority(self, priority: Priority) -> (r: EventContent)
        ensures
            r == (EventContent { priority, ..self }),
    {
        EventContent { priority, ..self }
    }

    /// The same event with the given targets.
    pub fn with_targets(self, targets: TargetMap) -> (r: EventContent)
        ensures
            r == (EventContent { targets: Some(targets), ..self }),
    {
        EventContent { targets: Some(targets), ..self }
    }

    /// The same event requesting the given reports.
    pub fn with_report_descriptors(self, report_descriptors: Vec<ReportDescriptor>) -> (r:
        EventContent)
        ensures
            r == (EventContent { report_descriptors: Some(report_descriptors), ..self }),
    {
        EventContent { report_descriptors: Some(report_descriptors), ..self }
    }

    /// The same event with the given payload descriptors.
    pub fn with_payload_descriptors(self, payload_descriptors: Vec<EventPayloadDescriptor>) -> (r:
        EventContent)
        ensures
            r == (EventContent { payload_descriptors: Some(payload_descriptors), ..self }),
    {
        EventContent { payload_descriptors: Some(payload_descriptors), ..self }
    }

    /// The same event with the given default period.
    pub fn with_interval_period(self, interval_period: IntervalPeriod) -> (r: EventContent)
        ensures
            r == (EventContent { interval_period: Some(interval_period), ..self }),
    {
        EventContent { interval_period: Some(interval_period), ..self }
    }

    /// The same event with the given intervals.
    pub fn with_intervals(self, intervals: Vec<EventInterval>) -> (r: EventContent)
        ensures
            r == (EventContent { intervals, ..self }),
    {
        EventContent { intervals, ..self }
    }
}

/// An event as stored by the VTN.
#[derive(Debug, Clone, PartialEq)]
pub struct Event {
    pub id: EventId,
    pub created_date_time: Timestamp,
    pub modification_date_time: Timestamp,
    pub content: EventContent,
}


impl DeepView for EventValuesMap {
    type V = ((nat, Seq<char>), Seq<ValueView>);

    open spec fn deep_view(&self) -> Self::V {
        self@
    }
}

impl DeepCopy for EventValuesMap {
    fn deep_copy(&self) -> (r: Self) {
        self.duplicate()
    }
}

impl DeepView for EventPayloadDescriptor {
    type V = ((nat, Seq<char>), Option<(nat, Seq<char>)>, Option<(nat, Seq<char>)>);

    open spec fn deep_view(&self) -> Self::V {
        (self.payload_type@, self.units.deep_view(), self.currency.deep_view())
    }
}

impl DeepCopy for EventPayloadDescriptor {
    fn deep_copy(&self) -> (r: Self) {
        EventPayloadDescriptor {
            payload_type: self.payload_type.deep_copy(),
            units: self.units.deep_copy(),
            currency: self.currency.deep_copy(),
        }
    }
}

impl DeepView for EventInterval {
    type V = (i32, Option<IntervalPeriod>, Seq<((nat, Seq<char>), Seq<ValueView>)>);

    open spec fn deep_view(&self) -> Self::V {
        (self.id, self.interval_period, self.payloads.deep_view())
    }
}

impl DeepCopy for EventInterval {
    fn deep_copy(&self) -> (r: Self) {
        EventInterval {
            id: self.id,
            interval_period: self.interval_period,
            payloads: self.payloads.deep_copy(),
        }
    }
}

impl DeepView for EventContent {
    type V = (
        Option<(nat, Seq<char>)>,
        Seq<char>,
        Option<Seq<char>>,
        Priority,
        Option<Seq<((nat, Seq<char>), Seq<char>)>>,
        Option<Seq<<ReportDescriptor as DeepView>::V>>,
        Option<Seq<<EventPayloadDescriptor as DeepView>::V>>,
        Option<IntervalPeriod>,
        Seq<<EventInterval as DeepView>::V>,
    );

    open spec fn deep_view(&self) -> Self::V {
        (
            self.object_type.deep_view(),
            self.program_id@,
            self.event_name.deep_view(),
            self.priority,
            self.targets.deep_view(),
            self.report_descriptors.deep_view(),
            self.payload_descriptors.deep_view(),
            self.interval_period,
            self.intervals.deep_view(),
        )
    }
}

impl DeepCopy for EventContent {
    fn deep_copy(&self) -> (r: Self) {
        EventContent {
            object_type: self.object_type.deep_copy(),
            program_id: self.program_id.deep_copy(),
            event_name: self.event_name.deep_copy(),
            priority: self.priority,
            targets: self.targets.deep_copy(),
            report_descriptors: self.report_descriptors.deep_copy(),
            payload_descriptors: self.payload_descriptors.deep_copy(),
            interval_period: self.interval_period,
            intervals: self.intervals.deep_copy(),
        }
    }
}

impl DeepView for Event {
    type V = (Seq<char>, Timestamp, Timestamp, <EventContent as DeepView>::V);

    open spec fn deep_view(&self) -> Self::V {
        (self.id@, self.created_date_time, self.modification_date_time, self.content.deep_view())
    }
}

impl DeepCopy for Event {
    fn deep_copy(&self) -> (r: Self) {
        Event {
            id: self.id.deep_copy(),
            created_date_time: self.created_date_time,
            modification_date_time: self.modification_date_time,
            content: self.content.deep_copy(),
        }
    }
}

} // verus!
