//! Power limits for a charging controller, read off a timeline: the limit
//! that holds now, how long the schedule is valid, and the limits to come.

use vstd::prelude::*;

use crate::event::{values_maps_view, EventValuesMap};
use crate::time::Timestamp;
use crate::timeline::{key_lt, key_of, timestamp_of, IntervalView, Timeline};
use crate::values::{Value, ValueView};
use crate::wire_enums::EventType;

verus! {

/// A limit of the total power in W, whole or as the bit pattern of a double.
#[derive(Debug, Clone, Copy, PartialEq, Eq, Structural)]
pub enum PowerLimit {
    Integer(i64),
    Number(u64),
}

/// The values maps as a mathematical value.
pub type MapsView = Seq<((nat, Seq<char>), Seq<ValueView>)>;

/// The first values map of type `IMPORT_CAPACITY_LIMIT`, if any, holds a
/// single number.
pub open spec fn limits_well_formed(maps: MapsView) -> bool
    decreases maps.len(),
{
    if maps.len() == 0 {
        true
    } else if maps[0].0 == EventType::ImportCapacityLimit@ {
        maps[0].1.len() == 1 && (maps[0].1[0] is Integer || maps[0].1[0] is Number)
    } else {
        limits_well_formed(maps.drop_first())
    }
}

/// The power limit the values maps give: the value of the first map of type
/// `IMPORT_CAPACITY_LIMIT`.
pub open spec fn limit_of(maps: MapsView) -> Option<PowerLimit>
    decreases maps.len(),
{
    if maps.len() == 0 {
        None
    } else if maps[0].0 == EventType::ImportCapacityLimit@ {
        match maps[0].1[0] {
            ValueView::Integer(i) => Some(PowerLimit::Integer(i)),
            ValueView::Number(n) => Some(PowerLimit::Number(n)),
            _ => None,
        }
    } else {
        limit_of(maps.drop_first())
    }
}

/// The power limit that values maps give, if any. The first map of type
/// `IMPORT_CAPACITY_LIMIT` must hold a single number.
pub fn try_limit(maps: &Vec<EventValuesMap>) -> (r: Option<PowerLimit>)
    requires
        limits_well_formed(values_maps_view(maps@)),
    ensures
        r == limit_of(values_maps_view(maps@)),
{
    let ghost view = values_maps_view(maps@);
    let limit_type = EventType::ImportCapacityLimit;
    assert(view.subrange(0, view.len() as int) =~= view);
    let mut i: usize = 0;
    while i < maps.len()
        invariant
            limit_type@ == EventType::ImportCapacityLimit@,
            i <= maps@.len(),
            view == values_maps_view(maps@),
            view.len() == maps@.len(),
            limits_well_formed(view.subrange(i as int, view.len() as int)),
            limit_of(view) == limit_of(view.subrange(i as int, view.len() as int)),
        decreases maps@.len() - i,
    {
        let ghost rest = view.subrange(i as int, view.len() as int);
        assert(rest.drop_first() =~= view.subrange(i + 1, view.len() as int));
        assert(rest[0] == maps@[i as int]@);
        if maps[i].value_type.same_as(&limit_type) {
            assert(rest[0].0 == EventType::ImportCapacityLimit@);
            assert(rest[0].1 == maps@[i as int].values@.map_values(|v: Value| v@));
            assert(rest[0].1.len() == 1);
            assert(maps@[i as int].values@.len() == 1);
            assert(rest[0].1[0] == maps@[i as int].values@[0]@);
            return match &maps[i].values[0] {
                Value::Integer(v) => Some(PowerLimit::Integer(*v)),
                Value::Number(n) => Some(PowerLimit::Number(*n)),
                _ => None,
            };
        }
        i = i + 1;
    }
    None
}

/// One entry of a schedule of limits: from when it holds.
#[derive(Debug, Clone, Copy, PartialEq, Eq, Structural)]
pub struct ScheduleEntry {
    pub timestamp: Timestamp,
    pub limit: PowerLimit,
}

/// What a charging controller is told.
#[derive(Debug, Clone, PartialEq)]
pub struct LimitsUpdate {
    /// Until when the schedule is valid: the end of the last segment that is
    /// not over.
    pub valid_until: Timestamp,
    /// The limit that holds now.
    pub limits_root_side: PowerLimit,
    /// The limits of the segments that are not over, from their starts.
    pub schedule: Vec<ScheduleEntry>,
}

/// The schedule of the segments that are not over at `k`: each start with the
/// segment's limit, where it has one.
pub open spec fn schedule_of(segs: Seq<((i64, u32), (i64, u32), IntervalView)>, k: (i64, u32)) -> Seq<ScheduleEntry>
    decreases segs.len(),
{
    if segs.len() == 0 {
        Seq::empty()
    } else {
        let rest = schedule_of(segs.drop_last(), k);
        let seg = segs.last();
        if !key_lt(seg.1, k) && limit_of(seg.2.value_map) is Some {
            rest.push(ScheduleEntry { timestamp: timestamp_of(seg.0), limit: limit_of(seg.2.value_map)->0 })
        } else {
            rest
        }
    }
}

/// Some segment is not over at `k`.
pub open spec fn pending_segment(segs: Seq<((i64, u32), (i64, u32), IntervalView)>, k: (i64, u32)) -> bool {
    exists|i: int| 0 <= i < segs.len() && !key_lt((#[trigger] segs[i]).1, k)
}

/// The limits of the segments that are not over at `k` are well formed; only
/// those are read.
pub open spec fn pending_limits_well_formed(segs: Seq<((i64, u32), (i64, u32), IntervalView)>, k: (i64, u32)) -> bool {
    forall|i: int| 0 <= i < segs.len() && !key_lt((#[trigger] segs[i]).1, k) ==> limits_well_formed(segs[i].2.value_map)
}

/// The update for a charging controller at `now`: none where no segment
/// holds now, or where what holds now has no limit. Where a segment holds
/// now, the limits of the segments that are not over must be well formed.
pub fn limits_update(timeline: &Timeline, now: &Timestamp) -> (r: Option<LimitsUpdate>)
    requires
        timeline.at_key(key_of(*now)) is Some ==> pending_limits_well_formed(timeline.segments(), key_of(*now)),
    ensures
        timeline.at_key(key_of(*now)) is None ==> r is None,
        timeline.at_key(key_of(*now)) matches Some(current) ==> {
            &&& (r is Some <==> pending_segment(timeline.segments(), key_of(*now)) && limit_of(current.value_map) is Some)
            &&& r matches Some(u) ==> {
                &&& u.limits_root_side == limit_of(current.value_map)->0
                &&& u.schedule@ == schedule_of(timeline.segments(), key_of(*now))
                &&& exists|i: int|
                    0 <= i < timeline.segments().len() && !key_lt((#[trigger] timeline.segments()[i]).1, key_of(*now))
                        && u.valid_until == timestamp_of(timeline.segments()[i].1)
                &&& forall|i: int|
                    0 <= i < timeline.segments().len() && !key_lt((#[trigger] timeline.segments()[i]).1, key_of(*now))
                        ==> !key_lt(key_of(u.valid_until), timeline.segments()[i].1)
            }
        },
{
    let current = match timeline.at_datetime(now) {
        None => {
            return None;
        },
        Some(c) => c,
    };
    let ghost segs = timeline.segments();
    let ghost k = key_of(*now);
    let ghost cur_i = choose|i: int|
        0 <= i < segs.len() && {
            let seg = #[trigger] segs[i];
            &&& crate::timeline::in_range(k, seg.0, seg.1)
            &&& current.0 == timestamp_of(seg.0)
            &&& current.1 == timestamp_of(seg.1)
            &&& timeline.at_key(k) == Some(seg.2)
            &&& current.2.randomize_start == seg.2.randomize_start
            &&& values_maps_view(current.2.value_map@) == seg.2.value_map
        };
    let segments = timeline.iter();
    let mut schedule: Vec<ScheduleEntry> = Vec::new();
    let mut valid_until: Option<Timestamp> = None;
    let mut i: usize = 0;
    while i < segments.len()
        invariant
            segs == timeline.segments(),
            segments@.len() == segs.len(),
            pending_limits_well_formed(segs, k),
            forall|j: int|
                0 <= j < segments@.len() ==> {
                    let seg = segs[j];
                    &&& (#[trigger] segments@[j]).0 == timestamp_of(seg.0)
                    &&& segments@[j].1 == timestamp_of(seg.1)
                    &&& values_maps_view(segments@[j].2.value_map@) == seg.2.value_map
                },
            i <= segments@.len(),
            schedule@ == schedule_of(segs.subrange(0, i as int), k),
            k == key_of(*now),
            valid_until is None <==> !pending_segment(segs.subrange(0, i as int), k),
            valid_until matches Some(v) ==> (exists|j: int| 0 <= j < i && !key_lt((#[trigger] segs[j]).1, k) && v == timestamp_of(segs[j].1))
                && forall|j: int| 0 <= j < i && !key_lt((#[trigger] segs[j]).1, k) ==> !key_lt(key_of(v), segs[j].1),
        decreases segments@.len() - i,
    {
        proof {
            assert(segs.subrange(0, i + 1).drop_last() =~= segs.subrange(0, i as int));
            assert(segs.subrange(0, i + 1).last() == segs[i as int]);
        }
        let end = segments[i].1;
        let over = end.secs < now.secs || (end.secs == now.secs && end.nanos < now.nanos);
        let ghost old_valid = valid_until;
        assert(key_of(end) == segs[i as int].1);
        assert(over == key_lt(segs[i as int].1, k));
        if !over {
            valid_until = match valid_until {
                None => Some(end),
                Some(v) => if v.secs < end.secs || (v.secs == end.secs && v.nanos < end.nanos) { Some(end) } else { Some(v) },
            };
            match try_limit(&segments[i].2.value_map) {
                Some(limit) => schedule.push(ScheduleEntry { timestamp: segments[i].0, limit }),
                None => {},
            }
            proof {
                let v = valid_until->0;
                match old_valid {
                    None => {
                        assert(v == end);
                        assert forall|j: int| 0 <= j < i + 1 && !key_lt((#[trigger] segs[j]).1, k) implies !key_lt(key_of(v), segs[j].1) by {
                            if j < i {
                                assert(pending_segment(segs.subrange(0, i as int), k)) by {
                                    assert(segs.subrange(0, i as int)[j] == segs[j]);
                                }
                            }
                        }
                    },
                    Some(w) => {
                        assert forall|j: int| 0 <= j < i + 1 && !key_lt((#[trigger] segs[j]).1, k) implies !key_lt(key_of(v), segs[j].1) by {
                            if j < i {
                                assert(!key_lt(key_of(w), segs[j].1));
                            }
                        }
                        if v == w {
                            let j = choose|j: int| 0 <= j < i && !key_lt((#[trigger] segs[j]).1, k) && w == timestamp_of(segs[j].1);
                            assert(0 <= j < i + 1);
                        } else {
                            assert(v == timestamp_of(segs[i as int].1));
                        }
                    },
                }
            }
        }
        proof {
            let pre = segs.subrange(0, i as int);
            let post = segs.subrange(0, i + 1);
            assert forall|j: int| 0 <= j < i implies post[j] == #[trigger] pre[j] by {}
            if pending_segment(pre, k) {
                let j = choose|j: int| 0 <= j < pre.len() && !key_lt((#[trigger] pre[j]).1, k);
                assert(post[j] == pre[j]);
            }
            if pending_segment(post, k) && !pending_segment(pre, k) {
                let j = choose|j: int| 0 <= j < post.len() && !key_lt((#[trigger] post[j]).1, k);
                if j < i {
                    assert(pre[j] == post[j]);
                }
            }
        }
        i = i + 1;
    }
    proof {
        assert(segs.subrange(0, segs.len() as int) =~= segs);
        assert(!key_lt(segs[cur_i].1, k));
    }
    let limit = try_limit(&current.2.value_map);
    match (valid_until, limit) {
        (Some(valid_until), Some(limits_root_side)) => Some(LimitsUpdate { valid_until, limits_root_side, schedule }),
        _ => None,
    }
}


/// Whether the values maps' limit is well formed: the first map of type
/// `IMPORT_CAPACITY_LIMIT`, if any, holds a single number.
pub fn limits_ok(maps: &Vec<EventValuesMap>) -> (r: bool)
    ensures
        r == limits_well_formed(values_maps_view(maps@)),
{
    let ghost view = values_maps_view(maps@);
    let limit_type = EventType::ImportCapacityLimit;
    assert(view.subrange(0, view.len() as int) =~= view);
    let mut i: usize = 0;
    while i < maps.len()
        invariant
            limit_type@ == EventType::ImportCapacityLimit@,
            i <= maps@.len(),
            view == values_maps_view(maps@),
            view.len() == maps@.len(),
            limits_well_formed(view) == limits_well_formed(view.subrange(i as int, view.len() as int)),
        decreases maps@.len() - i,
    {
        let ghost rest = view.subrange(i as int, view.len() as int);
        assert(rest.drop_first() =~= view.subrange(i + 1, view.len() as int));
        assert(rest[0] == maps@[i as int]@);
        if maps[i].value_type.same_as(&limit_type) {
            assert(rest[0].1 == maps@[i as int].values@.map_values(|v: Value| v@));
            if maps[i].values.len() != 1 {
                return false;
            }
            assert(rest[0].1[0] == maps@[i as int].values@[0]@);
            return match &maps[i].values[0] {
                Value::Integer(_) => true,
                Value::Number(_) => true,
                _ => false,
            };
        }
        i = i + 1;
    }
    true
}

/// Whether `limits_update` may read the timeline at `now`: where a segment
/// holds now, the limits of the segments that are not over are well formed.
pub fn limits_readable(timeline: &Timeline, now: &Timestamp) -> (r: bool)
    ensures
        r == (timeline.at_key(key_of(*now)) is Some ==> pending_limits_well_formed(timeline.segments(), key_of(*now))),
{
    if timeline.at_datetime(now).is_none() {
        return true;
    }
    let segments = timeline.iter();
    let ghost segs = timeline.segments();
    let ghost k = key_of(*now);
    let mut i: usize = 0;
    while i < segments.len()
        invariant
            segs == timeline.segments(),
            k == key_of(*now),
            timeline.at_key(k) is Some,
            segments@.len() == segs.len(),
            forall|j: int|
                0 <= j < segments@.len() ==> {
                    let seg = segs[j];
                    &&& (#[trigger] segments@[j]).1 == timestamp_of(seg.1)
                    &&& values_maps_view(segments@[j].2.value_map@) == seg.2.value_map
                },
            i <= segments@.len(),
            forall|j: int| 0 <= j < i && !key_lt((#[trigger] segs[j]).1, k) ==> limits_well_formed(segs[j].2.value_map),
        decreases segments@.len() - i,
    {
        let end = segments[i].1;
        let over = end.secs < now.secs || (end.secs == now.secs && end.nanos < now.nanos);
        assert(key_of(end) == segs[i as int].1);
        assert(over == key_lt(segs[i as int].1, k));
        if !over && !limits_ok(&segments[i].2.value_map) {
            assert(!limits_well_formed(segs[i as int].2.value_map));
            return false;
        }
        i = i + 1;
    }
    true
}

} // verus!
