use openadr::event::{EventContent, EventInterval, EventValuesMap};
use openadr::ids::ProgramId;
use openadr::priority::Priority;
use openadr::program::ProgramContent;
use openadr::time::{Duration, IntervalPeriod, TimeDelta, Timestamp};
use openadr::timeline::{lay_out, InternalInterval, Interval, ResolvedInterval, Timeline};
use openadr::values::Value;
use openadr::wire_enums::EventType;

fn hours_after_epoch(h: i64) -> Timestamp {
    Timestamp { secs: h * 3600, nanos: 0 }
}

fn hours(h: f32) -> Duration {
    Duration::hours(h.to_bits())
}

fn delta_of_hours(d: &Duration) -> TimeDelta {
    let h = f32::from_bits(d.hour);
    TimeDelta { secs: (h * 3600.0) as i64, nanos: 0 }
}

/// Lays out the events and computes each range from its whole-hour duration.
fn from_events(program: &ProgramContent, events: Vec<&EventContent>) -> Option<Timeline> {
    let pending = lay_out(program, events)?;
    let resolved = pending
        .into_iter()
        .map(|p| {
            let start = p.period.start;
            let end = match p.period.duration {
                Some(d) => Timestamp { secs: start.secs + delta_of_hours(&d).secs, nanos: start.nanos },
                None => Timestamp::max_utc(),
            };
            ResolvedInterval {
                start,
                end,
                interval: InternalInterval {
                    id: p.id,
                    priority: p.priority,
                    randomize_start: p.period.randomize_start.as_ref().map(delta_of_hours),
                    value_map: p.value_map,
                },
            }
        })
        .collect();
    Some(Timeline::from_resolved(resolved))
}

fn test_program_id() -> ProgramId {
    ProgramId::new("test-program-id").unwrap()
}

fn price(value: i64) -> Vec<EventValuesMap> {
    vec![EventValuesMap { value_type: EventType::Price, values: vec![Value::Integer(value)] }]
}

fn event_interval_with_value(start: u32, end: u32, value: i64) -> EventInterval {
    EventInterval {
        id: start as i32,
        interval_period: Some(IntervalPeriod {
            start: hours_after_epoch(start as i64),
            duration: Some(hours((end - start) as f32)),
            randomize_start: None,
        }),
        payloads: price(value),
    }
}

fn test_event_content(start: u32, end: u32, value: i64) -> EventContent {
    EventContent::new(test_program_id(), vec![event_interval_with_value(start, end, value)])
}

fn interval_with_value(
    id: u32,
    start: u32,
    end: u32,
    value: i64,
    priority: Priority,
) -> (Timestamp, Timestamp, InternalInterval) {
    (
        hours_after_epoch(start as i64),
        hours_after_epoch(end as i64),
        InternalInterval { id, randomize_start: None, value_map: price(value), priority },
    )
}

// The spec does not say what happens when two intervals of the same priority
// overlap: the one laid out last wins.
#[test]
fn overlap_same_priority() {
    let program = ProgramContent::new("p");

    let event1 = test_event_content(0, 10, 42);
    let event2 = test_event_content(5, 15, 43);

    let tl1 = from_events(&program, vec![&event1, &event2]).unwrap();
    assert_eq!(
        tl1.ranges(),
        vec![
            interval_with_value(0, 0, 5, 42, Priority::unspecified()),
            interval_with_value(1, 5, 15, 43, Priority::unspecified()),
        ]
    );

    let tl2 = from_events(&program, vec![&event2, &event1]).unwrap();
    assert_eq!(
        tl2.ranges(),
        vec![
            interval_with_value(1, 0, 10, 42, Priority::unspecified()),
            interval_with_value(0, 10, 15, 43, Priority::unspecified()),
        ]
    );
}

#[test]
fn overlap_lower_priority() {
    let event1 = test_event_content(0, 10, 42).with_priority(Priority::new(1));
    let event2 = test_event_content(5, 15, 43).with_priority(Priority::new(2));

    let tl = from_events(&ProgramContent::new("p"), vec![&event1, &event2]).unwrap();
    assert_eq!(
        tl.ranges(),
        vec![
            interval_with_value(1, 0, 10, 42, Priority::new(1)),
            interval_with_value(0, 10, 15, 43, Priority::new(2)),
        ],
        "a lower priority event MUST NOT overwrite a higher priority one",
    );

    let tl = from_events(&ProgramContent::new("p"), vec![&event2, &event1]).unwrap();
    assert_eq!(
        tl.ranges(),
        vec![
            interval_with_value(1, 0, 10, 42, Priority::new(1)),
            interval_with_value(0, 10, 15, 43, Priority::new(2)),
        ],
        "a lower priority event MUST NOT overwrite a higher priority one",
    );
}

#[test]
fn overlap_higher_priority() {
    let event1 = test_event_content(0, 10, 42).with_priority(Priority::new(2));
    let event2 = test_event_content(5, 15, 43).with_priority(Priority::new(1));

    let tl = from_events(&ProgramContent::new("p"), vec![&event1, &event2]).unwrap();
    assert_eq!(
        tl.ranges(),
        vec![
            interval_with_value(0, 0, 5, 42, Priority::new(2)),
            interval_with_value(1, 5, 15, 43, Priority::new(1)),
        ],
        "a higher priority event MUST overwrite a lower priority one",
    );

    let tl = from_events(&ProgramContent::new("p"), vec![&event2, &event1]).unwrap();
    assert_eq!(
        tl.ranges(),
        vec![
            interval_with_value(0, 0, 5, 42, Priority::new(2)),
            interval_with_value(1, 5, 15, 43, Priority::new(1)),
        ],
        "a higher priority event MUST overwrite a lower priority one",
    );
}

#[test]
fn randomize_start_not_duplicated() {
    let event1 = test_event_content(5, 10, 42).with_priority(Priority::max());

    let event2 = EventContent::new(
        test_program_id(),
        vec![EventInterval {
            id: 0,
            interval_period: Some(IntervalPeriod {
                start: hours_after_epoch(0),
                duration: Some(hours(15.0)),
                randomize_start: Some(hours(5.0)),
            }),
            payloads: price(43),
        }],
    );

    let tl = from_events(&ProgramContent::new("p"), vec![&event1, &event2]).unwrap();
    assert_eq!(
        tl.iter().into_iter().map(|(_, _, i)| i).collect::<Vec<_>>(),
        vec![
            Interval { randomize_start: Some(TimeDelta { secs: 5 * 3600, nanos: 0 }), value_map: price(43) },
            Interval { randomize_start: None, value_map: price(42) },
            Interval { randomize_start: None, value_map: price(43) },
        ],
        "when an event is split, only the first interval should retain `randomize_start`",
    );
}

#[test]
fn no_period_gives_no_timeline() {
    let event = EventContent::new(test_program_id(), vec![EventInterval::new(0, price(1))]);
    assert!(from_events(&ProgramContent::new("p"), vec![&event]).is_none());
}

#[test]
fn program_period_is_the_default() {
    let mut program = ProgramContent::new("p");
    program.interval_period = Some(IntervalPeriod {
        start: hours_after_epoch(2),
        duration: Some(hours(1.0)),
        randomize_start: None,
    });
    let event = EventContent::new(test_program_id(), vec![EventInterval::new(0, price(7))]);
    let tl = from_events(&program, vec![&event]).unwrap();
    assert_eq!(tl.ranges(), vec![interval_with_value(0, 2, 3, 7, Priority::unspecified())]);
}

#[test]
fn at_datetime_and_next_update() {
    let event1 = test_event_content(0, 2, 1);
    let event2 = test_event_content(5, 7, 2);
    let tl = from_events(&ProgramContent::new("p"), vec![&event1, &event2]).unwrap();

    let (start, end, interval) = tl.at_datetime(&hours_after_epoch(1)).unwrap();
    assert_eq!((start, end), (hours_after_epoch(0), hours_after_epoch(2)));
    assert_eq!(interval.value_map, price(1));
    assert!(tl.at_datetime(&hours_after_epoch(3)).is_none());

    assert_eq!(tl.next_update(&hours_after_epoch(1)), Some(hours_after_epoch(2)));
    assert_eq!(tl.next_update(&hours_after_epoch(3)), Some(hours_after_epoch(5)));
    assert_eq!(tl.next_update(&hours_after_epoch(6)), Some(hours_after_epoch(7)));
    assert_eq!(tl.next_update(&hours_after_epoch(8)), None);
    assert_eq!(Timeline::new().next_update(&hours_after_epoch(0)), None);
}

#[test]
fn touching_equal_intervals_coalesce() {
    let event = EventContent::new(
        test_program_id(),
        vec![event_interval_with_value(0, 2, 9), event_interval_with_value(2, 4, 9)],
    );
    let tl = from_events(&ProgramContent::new("p"), vec![&event]).unwrap();
    assert_eq!(tl.ranges(), vec![interval_with_value(0, 0, 4, 9, Priority::unspecified())]);
}
