use openadr::event::{EventContent, EventInterval, EventValuesMap};
use openadr::ids::ProgramId;
use openadr::limits::{limits_ok, limits_readable, limits_update, try_limit, PowerLimit, ScheduleEntry};
use openadr::priority::Priority;
use openadr::program::ProgramContent;
use openadr::time::{Duration, IntervalPeriod, Timestamp};
use openadr::timeline::{lay_out, InternalInterval, ResolvedInterval, Timeline};
use openadr::values::Value;
use openadr::wire_enums::EventType;

fn at(h: i64) -> Timestamp {
    Timestamp { secs: h * 3600, nanos: 0 }
}

fn limit(w: i64) -> Vec<EventValuesMap> {
    vec![EventValuesMap { value_type: EventType::ImportCapacityLimit, values: vec![Value::Integer(w)] }]
}

fn interval(start: i64, end: i64, w: i64) -> EventInterval {
    EventInterval {
        id: 0,
        interval_period: Some(IntervalPeriod {
            start: at(start),
            duration: Some(Duration::hours(((end - start) as f32).to_bits())),
            randomize_start: None,
        }),
        payloads: limit(w),
    }
}

fn timeline(intervals: Vec<EventInterval>) -> Timeline {
    let event = EventContent::new(ProgramId::new("p").unwrap(), intervals);
    let pending = lay_out(&ProgramContent::new("p"), vec![&event]).unwrap();
    Timeline::from_resolved(
        pending
            .into_iter()
            .map(|p| {
                let hours = f32::from_bits(p.period.duration.unwrap().hour) as i64;
                ResolvedInterval {
                    start: p.period.start,
                    end: Timestamp { secs: p.period.start.secs + hours * 3600, nanos: 0 },
                    interval: InternalInterval {
                        id: p.id,
                        priority: Priority::unspecified(),
                        randomize_start: None,
                        value_map: p.value_map,
                    },
                }
            })
            .collect(),
    )
}

#[test]
fn limits_of_values_maps() {
    assert_eq!(try_limit(&limit(42)), Some(PowerLimit::Integer(42)));
    let number = vec![
        EventValuesMap { value_type: EventType::Price, values: vec![Value::Integer(1)] },
        EventValuesMap { value_type: EventType::ImportCapacityLimit, values: vec![Value::Number(10.5f64.to_bits())] },
    ];
    assert_eq!(try_limit(&number), Some(PowerLimit::Number(10.5f64.to_bits())));
    assert_eq!(try_limit(&vec![]), None);
}

#[test]
fn update_at_a_point_in_time() {
    let tl = timeline(vec![interval(0, 1, 42), interval(1, 2, 21), interval(2, 3, 60)]);
    let update = limits_update(&tl, &Timestamp { secs: 5400, nanos: 0 }).unwrap();
    assert_eq!(update.limits_root_side, PowerLimit::Integer(21));
    assert_eq!(update.valid_until, at(3));
    assert_eq!(
        update.schedule,
        vec![
            ScheduleEntry { timestamp: at(1), limit: PowerLimit::Integer(21) },
            ScheduleEntry { timestamp: at(2), limit: PowerLimit::Integer(60) },
        ]
    );
    assert!(limits_update(&tl, &at(4)).is_none());
}

#[test]
fn everest_update_follows_the_clock() {
    // two open-ended intervals of one event, the later one overlaying the earlier
    let open = |h: i64, w: i64| ResolvedInterval {
        start: at(h),
        end: Timestamp::max_utc(),
        interval: InternalInterval {
            id: 0,
            priority: Priority::unspecified(),
            randomize_start: None,
            value_map: vec![EventValuesMap {
                value_type: EventType::ImportCapacityLimit,
                values: vec![Value::Number((w as f64).to_bits())],
            }],
        },
    };
    let tl = Timeline::from_resolved(vec![open(9, 42), open(10, 21)]);
    let number = |w: f64| PowerLimit::Number(w.to_bits());

    let update = limits_update(&tl, &Timestamp { secs: 9 * 3600 + 43 * 60, nanos: 0 }).unwrap();
    assert_eq!(update.limits_root_side, number(42.0));
    assert_eq!(
        update.schedule,
        vec![
            ScheduleEntry { timestamp: at(9), limit: number(42.0) },
            ScheduleEntry { timestamp: at(10), limit: number(21.0) },
        ]
    );
    assert_eq!(update.valid_until, Timestamp::max_utc());

    let update = limits_update(&tl, &Timestamp { secs: 10 * 3600 + 43 * 60, nanos: 0 }).unwrap();
    assert_eq!(update.limits_root_side, number(21.0));
    assert_eq!(update.schedule, vec![ScheduleEntry { timestamp: at(10), limit: number(21.0) }]);
}

#[test]
fn limits_are_checked_only_where_read() {
    assert!(limits_ok(&limit(42)));
    assert!(limits_ok(&vec![]));
    let bad = vec![EventValuesMap { value_type: EventType::ImportCapacityLimit, values: vec![] }];
    assert!(!limits_ok(&bad));
    let two = vec![EventValuesMap { value_type: EventType::ImportCapacityLimit, values: vec![Value::Integer(1), Value::Integer(2)] }];
    assert!(!limits_ok(&two));

    // a malformed limit in a segment that is over is never read
    let malformed = |start: i64, end: i64| ResolvedInterval {
        start: at(start),
        end: at(end),
        interval: InternalInterval { id: 0, priority: Priority::unspecified(), randomize_start: None, value_map: bad.clone() },
    };
    let good = |start: i64, end: i64, w: i64| ResolvedInterval {
        start: at(start),
        end: at(end),
        interval: InternalInterval { id: 1, priority: Priority::unspecified(), randomize_start: None, value_map: limit(w) },
    };
    let tl = Timeline::from_resolved(vec![malformed(0, 1), good(1, 2, 42)]);
    assert!(limits_readable(&tl, &Timestamp { secs: 5400, nanos: 0 }));
    assert!(!limits_readable(&tl, &Timestamp { secs: 1800, nanos: 0 }));
    // where nothing holds now, nothing is read
    assert!(limits_readable(&tl, &at(5)));
    assert_eq!(limits_update(&tl, &Timestamp { secs: 5400, nanos: 0 }).unwrap().limits_root_side, PowerLimit::Integer(42));
}
