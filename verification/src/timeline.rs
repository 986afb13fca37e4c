//! The client's timeline: the events of a program laid out as a sequence of
//! ordered, non-overlapping time ranges, each with the values that hold in it.
//!
//! Where events overlap, the more important one holds; of two equally
//! important ones, the one laid out later holds.

use vstd::prelude::*;

use crate::event::{duplicate_values_maps, values_maps_view, EventContent, EventInterval,
    EventValuesMap};
use crate::program::ProgramContent;
use crate::time::IntervalPeriod;
use crate::priority::{priority_rank, Priority};
use crate::time::{TimeDelta, Timestamp};
use crate::values::{value_eq, ValueView};

verus! {

/// A point in time as a key of the range map: seconds and nanoseconds since
/// the Unix epoch, ordered lexicographically.
pub open spec fn key_lt(a: (i64, u32), b: (i64, u32)) -> bool {
    a.0 < b.0 || (a.0 == b.0 && a.1 < b.1)
}

pub open spec fn key_le(a: (i64, u32), b: (i64, u32)) -> bool {
    !key_lt(b, a)
}

/// `k` lies in the half-open range `start..end`.
pub open spec fn in_range(k: (i64, u32), start: (i64, u32), end: (i64, u32)) -> bool {
    key_le(start, k) && key_lt(k, end)
}

/// The key of a point in time.
pub open spec fn key_of(t: Timestamp) -> (i64, u32) {
    (t.secs, t.nanos)
}

#[verifier::external_type_specification]
#[verifier::external_body]
#[verifier::reject_recursive_types(K)]
#[verifier::reject_recursive_types(V)]
pub struct ExRangeMap<K, V>(rangemap::RangeMap<K, V>);

/// The stored ranges of a range map with their values, ordered by range.
pub uninterp spec fn range_map_entries(m: rangemap::RangeMap<(i64, u32), u64>) -> Seq<
    ((i64, u32), (i64, u32), u64),
>;

/// Stored ranges are non-empty, ordered and disjoint, and two ranges that
/// touch hold different values (touching ranges of equal value are coalesced).
pub open spec fn entries_wf(es: Seq<((i64, u32), (i64, u32), u64)>) -> bool {
    &&& forall|i: int| 0 <= i < es.len() ==> key_lt((#[trigger] es[i]).0, es[i].1)
    &&& forall|i: int, j: int|
        0 <= i < j < es.len() ==> key_le((#[trigger] es[i]).1, (#[trigger] es[j]).0)
    &&& forall|i: int|
        0 <= i && i + 1 < es.len() && (#[trigger] es[i]).1 == es[i + 1].0 ==> es[i].2 != es[i
            + 1].2
}

/// Some stored range contains `k`.
pub open spec fn covered(es: Seq<((i64, u32), (i64, u32), u64)>, k: (i64, u32)) -> bool {
    exists|i: int| 0 <= i < es.len() && in_range(k, (#[trigger] es[i]).0, es[i].1)
}

/// The value stored for `k`, if any range contains it.
pub open spec fn lookup(es: Seq<((i64, u32), (i64, u32), u64)>, k: (i64, u32)) -> Option<u64> {
    if covered(es, k) {
        Some(es[choose|i: int| 0 <= i < es.len() && in_range(k, (#[trigger] es[i]).0, es[i].1)].2)
    } else {
        None
    }
}

/// `rangemap::RangeMap::new`: an empty map.
#[verifier::external_body]
fn range_map_new() -> (m: rangemap::RangeMap<(i64, u32), u64>)
    ensures
        range_map_entries(m) == Seq::<((i64, u32), (i64, u32), u64)>::empty(),
{
    rangemap::RangeMap::new()
}

/// `rangemap::RangeMap::insert` of `value` for `start..end`, which must not be
/// empty (`insert` asserts it). Claimed, as its documentation says: every key
/// of the range maps to `value` afterwards, every other key to what it mapped
/// to before, and the stored ranges stay ordered, disjoint and coalesced.
#[verifier::external_body]
fn range_map_insert(
    m: &mut rangemap::RangeMap<(i64, u32), u64>,
    start: (i64, u32),
    end: (i64, u32),
    value: u64,
)
    requires
        key_lt(start, end),
        entries_wf(range_map_entries(*old(m))),
    ensures
        entries_wf(range_map_entries(*final(m))),
        forall|k: (i64, u32)|
            #![trigger lookup(range_map_entries(*final(m)), k)]
            lookup(range_map_entries(*final(m)), k) == if in_range(k, start, end) {
                Some(value)
            } else {
                lookup(range_map_entries(*old(m)), k)
            },
{
    m.insert(start..end, value)
}

/// `rangemap::RangeMap::iter`, each range and value copied out, in order.
#[verifier::external_body]
fn range_map_segments(m: &rangemap::RangeMap<(i64, u32), u64>) -> (r: Vec<
    ((i64, u32), (i64, u32), u64),
>)
    ensures
        r@ == range_map_entries(*m),
{
    m.iter().map(|(range, value)| (range.start, range.end, *value)).collect()
}

/// `rangemap::RangeMap::get_key_value`: the stored range that contains `k`.
#[verifier::external_body]
fn range_map_get(m: &rangemap::RangeMap<(i64, u32), u64>, k: (i64, u32)) -> (r: Option<
    ((i64, u32), (i64, u32), u64),
>)
    requires
        entries_wf(range_map_entries(*m)),
    ensures
        r is None <==> !covered(range_map_entries(*m), k),
        r matches Some(e) ==> exists|i: int|
            0 <= i < range_map_entries(*m).len() && #[trigger] range_map_entries(*m)[i] == e
                && in_range(k, e.0, e.1),
{
    m.get_key_value(&k).map(|(range, value)| (range.start, range.end, *value))
}

/// `rangemap::RangeMap::last_range_value`: the last stored range.
#[verifier::external_body]
fn range_map_last(m: &rangemap::RangeMap<(i64, u32), u64>) -> (r: Option<
    ((i64, u32), (i64, u32), u64),
>)
    ensures
        r is None <==> range_map_entries(*m).len() == 0,
        r matches Some(e) ==> e == range_map_entries(*m).last(),
{
    m.last_range_value().map(|(range, value)| (range.start, range.end, *value))
}

/// The first item of `rangemap::RangeMap::overlapping(start..end)`: the first
/// stored range that ends after `start`, if it begins before `end`.
#[verifier::external_body]
fn range_map_first_overlapping(
    m: &rangemap::RangeMap<(i64, u32), u64>,
    start: (i64, u32),
    end: (i64, u32),
) -> (r: Option<((i64, u32), (i64, u32), u64)>)
    requires
        entries_wf(range_map_entries(*m)),
    ensures
        r matches Some(e) ==> exists|i: int|
            0 <= i < range_map_entries(*m).len() && #[trigger] range_map_entries(*m)[i] == e
                && key_lt(start, e.1) && key_lt(e.0, end) && forall|j: int|
                0 <= j < i ==> !key_lt(start, (#[trigger] range_map_entries(*m)[j]).1),
        r is None ==> forall|i: int|
            0 <= i < range_map_entries(*m).len() ==> !(key_lt(
                start,
                (#[trigger] range_map_entries(*m)[i]).1,
            ) && key_lt(range_map_entries(*m)[i].0, end)),
{
    m.overlapping(start..end).next().map(|(range, value)| (range.start, range.end, *value))
}

/// One interval as laid out on the timeline.
#[derive(Debug, Clone, PartialEq, Eq)]
pub struct InternalInterval {
    /// Number of the event the interval belongs to, in the order of layout.
    /// Ranges split from one event share it, so that the start is randomized once.
    pub id: u32,
    /// Relative priority of the event.
    pub priority: Priority,
    /// A randomization that may be applied to the start.
    pub randomize_start: Option<TimeDelta>,
    /// The values that hold during the interval.
    pub value_map: Vec<EventValuesMap>,
}

/// An interval as a mathematical value.
pub struct IntervalView {
    pub id: u32,
    pub priority: Priority,
    pub randomize_start: Option<TimeDelta>,
    pub value_map: Seq<((nat, Seq<char>), Seq<ValueView>)>,
}

impl View for InternalInterval {
    type V = IntervalView;

    open spec fn view(&self) -> IntervalView {
        IntervalView {
            id: self.id,
            priority: self.priority,
            randomize_start: self.randomize_start,
            value_map: values_maps_view(self.value_map@),
        }
    }
}

/// Equality of two lists of data points, point by point.
pub open spec fn values_eq(a: Seq<ValueView>, b: Seq<ValueView>) -> bool {
    a.len() == b.len() && forall|i: int| 0 <= i < a.len() ==> value_eq(#[trigger] a[i], b[i])
}

/// Equality of two lists of values maps: same types, equal values.
pub open spec fn maps_eq(
    a: Seq<((nat, Seq<char>), Seq<ValueView>)>,
    b: Seq<((nat, Seq<char>), Seq<ValueView>)>,
) -> bool {
    a.len() == b.len() && forall|i: int|
        0 <= i < a.len() ==> (#[trigger] a[i]).0 == b[i].0 && values_eq(a[i].1, b[i].1)
}

/// Equality of intervals: every field equal, values compared as data points.
pub open spec fn interval_eq(a: IntervalView, b: IntervalView) -> bool {
    &&& a.id == b.id
    &&& a.priority == b.priority
    &&& a.randomize_start == b.randomize_start
    &&& maps_eq(a.value_map, b.value_map)
}

/// Equality of intervals is symmetric.
pub proof fn lemma_interval_eq_symmetric(a: IntervalView, b: IntervalView)
    ensures
        interval_eq(a, b) == interval_eq(b, a),
{
    assert forall|x: ValueView, y: ValueView| value_eq(x, y) == value_eq(y, x) by {
        crate::values::lemma_value_eq_equivalence(x, y, x);
    }
}

/// The views of a list of data points.
pub open spec fn values_view(vs: Seq<crate::values::Value>) -> Seq<ValueView> {
    vs.map_values(|v: crate::values::Value| v@)
}

fn values_equal(a: &Vec<crate::values::Value>, b: &Vec<crate::values::Value>) -> (r: bool)
    ensures
        r == values_eq(values_view(a@), values_view(b@)),
{
    if a.len() != b.len() {
        return false;
    }
    let mut i: usize = 0;
    while i < a.len()
        invariant
            i <= a@.len(),
            a@.len() == b@.len(),
            forall|j: int| 0 <= j < i ==> value_eq(#[trigger] a@[j]@, b@[j]@),
        decreases a@.len() - i,
    {
        if !a[i].equals(&b[i]) {
            assert(!value_eq(values_view(a@)[i as int], values_view(b@)[i as int]));
            return false;
        }
        i = i + 1;
    }
    assert forall|j: int| 0 <= j < a@.len() implies #[trigger] value_eq(
        values_view(a@)[j],
        values_view(b@)[j],
    ) by {
        assert(value_eq(a@[j]@, b@[j]@));
    }
    true
}

fn maps_equal(a: &Vec<EventValuesMap>, b: &Vec<EventValuesMap>) -> (r: bool)
    ensures
        r == maps_eq(values_maps_view(a@), values_maps_view(b@)),
{
    if a.len() != b.len() {
        return false;
    }
    let mut i: usize = 0;
    while i < a.len()
        invariant
            i <= a@.len(),
            a@.len() == b@.len(),
            forall|j: int|
                0 <= j < i ==> (#[trigger] a@[j])@.0 == b@[j]@.0 && values_eq(a@[j]@.1, b@[j]@.1),
        decreases a@.len() - i,
    {
        proof {
            assert(a@[i as int]@.1 =~= values_view(a@[i as int].values@));
            assert(b@[i as int]@.1 =~= values_view(b@[i as int].values@));
        }
        if !(a[i].value_type.same_as(&b[i].value_type) && values_equal(&a[i].values, &b[i].values)) {
            assert(values_maps_view(a@)[i as int] == a@[i as int]@);
            assert(values_maps_view(b@)[i as int] == b@[i as int]@);
            return false;
        }
        i = i + 1;
    }
    assert forall|j: int| 0 <= j < a@.len() implies (#[trigger] values_maps_view(a@)[j]).0
        == values_maps_view(b@)[j].0 && values_eq(values_maps_view(a@)[j].1, values_maps_view(b@)[j].1) by {
        assert(values_maps_view(a@)[j] == a@[j]@);
        assert(values_maps_view(b@)[j] == b@[j]@);
    }
    true
}

impl InternalInterval {
    /// Equality of intervals (see `interval_eq`).
    pub fn equals(&self, other: &InternalInterval) -> (r: bool)
        ensures
            r == interval_eq(self@, other@),
    {
        self.id == other.id && self.priority == other.priority && self.randomize_start
            == other.randomize_start && maps_equal(&self.value_map, &other.value_map)
    }
}

impl InternalInterval {
    /// A copy of the interval.
    pub fn duplicate(&self) -> (r: InternalInterval)
        ensures
            r@ == self@,
    {
        InternalInterval {
            id: self.id,
            priority: self.priority,
            randomize_start: self.randomize_start,
            value_map: crate::event::duplicate_values_maps(&self.value_map),
        }
    }
}

/// Two intervals are the same, or equal as intervals (which they need not be
/// to themselves when a point has a NaN coordinate).
pub open spec fn same_or_eq(a: IntervalView, b: IntervalView) -> bool {
    a == b || interval_eq(a, b)
}

/// No interval of the table equals one before it.
pub open spec fn distinct_intervals(t: Seq<InternalInterval>) -> bool {
    forall|i: int, j: int| 0 <= i < j < t.len() ==> !interval_eq((#[trigger] t[j])@, (#[trigger] t[i])@)
}

/// An interval whose time range is known: `start..end`.
pub struct ResolvedInterval {
    pub start: Timestamp,
    pub end: Timestamp,
    pub interval: InternalInterval,
}

/// The range of a resolved interval contains `k`.
pub open spec fn covers(r: ResolvedInterval, k: (i64, u32)) -> bool {
    in_range(k, key_of(r.start), key_of(r.end))
}

/// The position of the last interval of the sequence whose range contains `k`.
pub open spec fn last_covering(ivs: Seq<ResolvedInterval>, k: (i64, u32)) -> Option<int>
    decreases ivs.len(),
{
    if ivs.len() == 0 {
        None
    } else if covers(ivs.last(), k) {
        Some(ivs.len() - 1)
    } else {
        last_covering(ivs.drop_last(), k)
    }
}

/// The last covering interval is one of the sequence and covers `k`.
pub proof fn lemma_last_covering_bounds(ivs: Seq<ResolvedInterval>, k: (i64, u32))
    ensures
        last_covering(ivs, k) matches Some(j) ==> 0 <= j < ivs.len() && covers(ivs[j], k),
    decreases ivs.len(),
{
    if ivs.len() > 0 && !covers(ivs.last(), k) {
        lemma_last_covering_bounds(ivs.drop_last(), k);
    }
}

/// The stored values describe the overlay of the intervals: a key is covered
/// exactly when some interval contains it, and then by (an equal of) the last one.
pub open spec fn overlay_holds(
    es: Seq<((i64, u32), (i64, u32), u64)>,
    table: Seq<InternalInterval>,
    ivs: Seq<ResolvedInterval>,
) -> bool {
    forall|k: (i64, u32)|
        #![trigger lookup(es, k)]
        match (lookup(es, k), last_covering(ivs, k)) {
            (None, None) => true,
            (Some(x), Some(j)) => x < table.len() && same_or_eq(table[x as int]@, ivs[j].interval@),
            _ => false,
        }
}

/// In well-formed entries, the value stored for the start of a range is that range's.
pub proof fn lemma_lookup_own_start(es: Seq<((i64, u32), (i64, u32), u64)>, i: int)
    requires
        entries_wf(es),
        0 <= i < es.len(),
    ensures
        lookup(es, es[i].0) == Some(es[i].2),
{
    assert(in_range(es[i].0, es[i].0, es[i].1));
    let j = choose|j: int| 0 <= j < es.len() && in_range(es[i].0, (#[trigger] es[j]).0, es[j].1);
    if j < i {
        assert(key_le(es[j].1, es[i].0));
    } else if i < j {
        assert(key_le(es[i].1, es[j].0));
    }
}

/// Adds an interval to the table, unless an equal one is there already, and
/// gives its position.
fn intern(table: &mut Vec<InternalInterval>, iv: &InternalInterval) -> (idx: usize)
    requires
        distinct_intervals(old(table)@),
    ensures
        distinct_intervals(final(table)@),
        old(table)@.len() <= final(table)@.len() <= old(table)@.len() + 1,
        forall|j: int| 0 <= j < old(table)@.len() ==> (#[trigger] final(table)@[j])@ == old(table)@[j]@,
        idx < final(table)@.len(),
        same_or_eq(final(table)@[idx as int]@, iv@),
{
    let mut i: usize = 0;
    while i < table.len()
        invariant
            table@ == old(table)@,
            distinct_intervals(table@),
            i <= table@.len(),
            forall|j: int| 0 <= j < i ==> !interval_eq((#[trigger] table@[j])@, iv@),
        decreases table@.len() - i,
    {
        if table[i].equals(iv) {
            return i;
        }
        i = i + 1;
    }
    let ghost before = table@;
    table.push(iv.duplicate());
    proof {
        assert forall|a: int, b: int| 0 <= a < b < table@.len() implies !interval_eq(
            (#[trigger] table@[b])@,
            (#[trigger] table@[a])@,
        ) by {
            if b == before.len() {
                lemma_interval_eq_symmetric(table@[a]@, iv@);
            } else {
                assert(table@[a] == before[a] && table@[b] == before[b]);
            }
        }
    }
    table.len() - 1
}

/// A sequence of ordered, non-overlapping time ranges with the interval that
/// holds in each. There may be gaps between the ranges.
pub struct Timeline {
    data: rangemap::RangeMap<(i64, u32), u64>,
    table: Vec<InternalInterval>,
}

/// The segments are non-empty, ordered and disjoint, and two segments that
/// touch hold intervals that are not equal.
pub open spec fn segments_wf(segs: Seq<((i64, u32), (i64, u32), IntervalView)>) -> bool {
    &&& forall|i: int| 0 <= i < segs.len() ==> key_lt((#[trigger] segs[i]).0, segs[i].1)
    &&& forall|i: int, j: int|
        0 <= i < j < segs.len() ==> key_le((#[trigger] segs[i]).1, (#[trigger] segs[j]).0)
    &&& forall|i: int|
        0 <= i && i + 1 < segs.len() && (#[trigger] segs[i]).1 == segs[i + 1].0 ==> !interval_eq(
            segs[i].2,
            segs[i + 1].2,
        )
}

impl Timeline {
    #[verifier::type_invariant]
    spec fn inv(self) -> bool {
        &&& entries_wf(range_map_entries(self.data))
        &&& forall|i: int|
            0 <= i < range_map_entries(self.data).len() ==> (#[trigger] range_map_entries(
                self.data,
            )[i]).2 < self.table@.len()
        &&& distinct_intervals(self.table@)
    }

    /// The segments of the timeline in order: start, end and interval.
    pub closed spec fn segments(self) -> Seq<((i64, u32), (i64, u32), IntervalView)> {
        range_map_entries(self.data).map_values(
            |e: ((i64, u32), (i64, u32), u64)| (e.0, e.1, self.table@[e.2 as int]@),
        )
    }

    /// The interval that holds at `k`, if any.
    pub closed spec fn at_key(self, k: (i64, u32)) -> Option<IntervalView> {
        match lookup(range_map_entries(self.data), k) {
            Some(x) => Some(self.table@[x as int]@),
            None => None,
        }
    }

    /// The segments of a timeline are well formed.
    proof fn lemma_segments_wf(self)
        requires
            self.inv(),
        ensures
            segments_wf(self.segments()),
    {
        let es = range_map_entries(self.data);
        let segs = self.segments();
        assert forall|m: int| 0 <= m && m + 1 < segs.len() && (#[trigger] segs[m]).1 == segs[m + 1].0 implies !interval_eq(segs[m].2, segs[m + 1].2) by {
            let a = es[m].2 as int;
            let b = es[m + 1].2 as int;
            assert(es[m].1 == es[m + 1].0);
            assert(a != b);
            if a < b {
                assert(!interval_eq(self.table@[b]@, self.table@[a]@));
                lemma_interval_eq_symmetric(self.table@[a]@, self.table@[b]@);
            } else {
                assert(!interval_eq(self.table@[a]@, self.table@[b]@));
            }
        }
        assert forall|i: int, j: int| 0 <= i < j < segs.len() implies key_le((#[trigger] segs[i]).1, (#[trigger] segs[j]).0) by {
            assert(key_le(es[i].1, es[j].0));
        }
    }

    /// An empty timeline.
    pub fn new() -> (tl: Timeline)
        ensures
            tl.segments().len() == 0,
            forall|k: (i64, u32)| tl.at_key(k) is None,
    {
        Timeline { data: range_map_new(), table: Vec::new() }
    }

    /// Lays out intervals in the given order: each holds on its range except
    /// where a later one holds. Every range must be non-empty.
    pub fn from_resolved(intervals: Vec<ResolvedInterval>) -> (tl: Timeline)
        requires
            forall|i: int|
                0 <= i < intervals@.len() ==> key_lt(
                    key_of((#[trigger] intervals@[i]).start),
                    key_of(intervals@[i].end),
                ),
        ensures
            segments_wf(tl.segments()),
            forall|k: (i64, u32)|
                #![trigger tl.at_key(k)]
                match (tl.at_key(k), last_covering(intervals@, k)) {
                    (None, None) => true,
                    (Some(v), Some(j)) => same_or_eq(v, intervals@[j].interval@),
                    _ => false,
                },
    {
        let mut data = range_map_new();
        let mut table: Vec<InternalInterval> = Vec::new();
        let mut i: usize = 0;
        proof {
            assert(intervals@.subrange(0, 0) =~= Seq::<ResolvedInterval>::empty());
            assert forall|k: (i64, u32)| #![trigger lookup(range_map_entries(data), k)]
                lookup(range_map_entries(data), k) is None by {
                assert(!covered(range_map_entries(data), k));
            }
        }
        while i < intervals.len()
            invariant
                i <= intervals@.len(),
                forall|j: int|
                    0 <= j < intervals@.len() ==> key_lt(
                        key_of((#[trigger] intervals@[j]).start),
                        key_of(intervals@[j].end),
                    ),
                entries_wf(range_map_entries(data)),
                forall|j: int|
                    0 <= j < range_map_entries(data).len() ==> (#[trigger] range_map_entries(
                        data,
                    )[j]).2 < table@.len(),
                distinct_intervals(table@),
                overlay_holds(range_map_entries(data), table@, intervals@.subrange(0, i as int)),
            decreases intervals@.len() - i,
        {
            let ghost old_es = range_map_entries(data);
            let ghost old_table = table@;
            let idx = intern(&mut table, &intervals[i].interval);
            let start = (intervals[i].start.secs, intervals[i].start.nanos);
            let end = (intervals[i].end.secs, intervals[i].end.nanos);
            range_map_insert(&mut data, start, end, idx as u64);
            proof {
                let es = range_map_entries(data);
                let prefix = intervals@.subrange(0, i + 1);
                assert(prefix.drop_last() =~= intervals@.subrange(0, i as int));
                assert(prefix.last() == intervals@[i as int]);
                assert forall|j: int| 0 <= j < es.len() implies (#[trigger] es[j]).2 < table@.len() by {
                    lemma_lookup_own_start(es, j);
                    if !in_range(es[j].0, start, end) {
                        let k = es[j].0;
                        assert(lookup(old_es, k) == Some(es[j].2));
                        let m = choose|m: int| 0 <= m < old_es.len() && in_range(k, (#[trigger] old_es[m]).0, old_es[m].1);
                        assert(old_es[m].2 < old_table.len());
                    }
                }
                assert forall|k: (i64, u32)| #![trigger lookup(es, k)]
                    match (lookup(es, k), last_covering(prefix, k)) {
                        (None, None) => true,
                        (Some(x), Some(j)) => x < table@.len() && same_or_eq(table@[x as int]@, prefix[j].interval@),
                        _ => false,
                    } by {
                    assert(lookup(old_es, k) == lookup(old_es, k));
                    if in_range(k, start, end) {
                        assert(covers(prefix.last(), k));
                    } else {
                        assert(!covers(prefix.last(), k));
                        assert(last_covering(prefix, k) == last_covering(intervals@.subrange(0, i as int), k));
                        match lookup(old_es, k) {
                            Some(x) => {
                                let j = last_covering(intervals@.subrange(0, i as int), k)->0;
                                lemma_last_covering_bounds(intervals@.subrange(0, i as int), k);
                                assert(table@[x as int]@ == old_table[x as int]@);
                                assert(prefix[j] == intervals@.subrange(0, i as int)[j]);
                            },
                            None => {},
                        }
                    }
                }
            }
            i = i + 1;
        }
        proof {
            assert(intervals@.subrange(0, intervals@.len() as int) =~= intervals@);
        }
        let tl = Timeline { data, table };
        proof {
            let es = range_map_entries(tl.data);
            tl.lemma_segments_wf();
            assert forall|k: (i64, u32)| #![trigger tl.at_key(k)]
                match (tl.at_key(k), last_covering(intervals@, k)) {
                    (None, None) => true,
                    (Some(v), Some(j)) => same_or_eq(v, intervals@[j].interval@),
                    _ => false,
                } by {
                assert(lookup(es, k) == lookup(es, k));
            }
        }
        tl
    }
}

/// What holds during a segment of the timeline.
#[derive(Debug, Clone, PartialEq)]
pub struct Interval {
    /// A randomization that may be applied to the start.
    pub randomize_start: Option<TimeDelta>,
    /// The values that hold during the segment.
    pub value_map: Vec<EventValuesMap>,
}

/// The point in time of a key.
pub open spec fn timestamp_of(k: (i64, u32)) -> Timestamp {
    Timestamp { secs: k.0, nanos: k.1 }
}

/// Some earlier segment belongs to the same event.
pub open spec fn id_seen_before(segs: Seq<((i64, u32), (i64, u32), IntervalView)>, i: int) -> bool {
    exists|j: int| 0 <= j < i && (#[trigger] segs[j]).2.id == segs[i].2.id
}

/// No key lies in two ranges of well-formed entries.
pub proof fn lemma_unique_cover(es: Seq<((i64, u32), (i64, u32), u64)>, k: (i64, u32), i: int, j: int)
    requires
        entries_wf(es),
        0 <= i < es.len(),
        0 <= j < es.len(),
        in_range(k, es[i].0, es[i].1),
        in_range(k, es[j].0, es[j].1),
    ensures
        i == j,
{
    if i < j {
        assert(key_le(es[i].1, es[j].0));
    } else if j < i {
        assert(key_le(es[j].1, es[i].0));
    }
}

fn contains_id(seen: &Vec<u32>, id: u32) -> (r: bool)
    ensures
        r == seen@.contains(id),
{
    let mut i: usize = 0;
    while i < seen.len()
        invariant
            i <= seen@.len(),
            forall|j: int| 0 <= j < i ==> seen@[j] != id,
        decreases seen@.len() - i,
    {
        if seen[i] == id {
            return true;
        }
        i = i + 1;
    }
    false
}

impl Timeline {
    /// The segments in order, each with the values that hold in it. Where an
    /// event was split into several segments, only the first keeps the
    /// randomization of the start.
    pub fn iter(&self) -> (r: Vec<(Timestamp, Timestamp, Interval)>)
        ensures
            segments_wf(self.segments()),
            r@.len() == self.segments().len(),
            forall|i: int|
                0 <= i < r@.len() ==> {
                    let seg = self.segments()[i];
                    &&& (#[trigger] r@[i]).0 == timestamp_of(seg.0)
                    &&& r@[i].1 == timestamp_of(seg.1)
                    &&& values_maps_view(r@[i].2.value_map@) == seg.2.value_map
                    &&& r@[i].2.randomize_start == if id_seen_before(self.segments(), i) {
                        None
                    } else {
                        seg.2.randomize_start
                    }
                },
    {
        proof {
            use_type_invariant(self);
            self.lemma_segments_wf();
        }
        let es = range_map_segments(&self.data);
        let ghost segs = self.segments();
        let mut out: Vec<(Timestamp, Timestamp, Interval)> = Vec::new();
        let mut seen: Vec<u32> = Vec::new();
        let mut i: usize = 0;
        while i < es.len()
            invariant
                es@ == range_map_entries(self.data),
                segs == self.segments(),
                segs.len() == es@.len(),
                forall|j: int| 0 <= j < es@.len() ==> (#[trigger] es@[j]).2 < self.table@.len(),
                i <= es@.len(),
                out@.len() == i,
                seen@.len() == i,
                forall|j: int| 0 <= j < i ==> (#[trigger] seen@[j]) == segs[j].2.id,
                forall|m: int|
                    0 <= m < i ==> {
                        let seg = segs[m];
                        &&& (#[trigger] out@[m]).0 == timestamp_of(seg.0)
                        &&& out@[m].1 == timestamp_of(seg.1)
                        &&& values_maps_view(out@[m].2.value_map@) == seg.2.value_map
                        &&& out@[m].2.randomize_start == if id_seen_before(segs, m) {
                            None
                        } else {
                            seg.2.randomize_start
                        }
                    },
            decreases es@.len() - i,
        {
            let entry = es[i];
            let start = entry.0;
            let end = entry.1;
            let idx = entry.2;
            assert(idx == es@[i as int].2);
            let n = self.table.len();
            assert(idx < n);
            let ix = idx as usize;
            assert(ix == idx);
            let internal = &self.table[ix];
            assert(segs[i as int] == (es@[i as int].0, es@[i as int].1, self.table@[es@[i as int].2 as int]@));
            assert(segs[i as int].2 == internal@);
            let first = !contains_id(&seen, internal.id);
            proof {
                if first {
                    assert forall|j: int| 0 <= j < i implies (#[trigger] segs[j]).2.id != segs[i as int].2.id by {
                        if segs[j].2.id == internal.id {
                            assert(seen@[j] == internal.id);
                            assert(seen@.contains(internal.id));
                        }
                    }
                } else {
                    let p = choose|p: int| 0 <= p < seen@.len() && seen@[p] == internal.id;
                    assert(segs[p].2.id == internal.id);
                    assert(id_seen_before(segs, i as int));
                }
            }
            let randomize_start = if first { internal.randomize_start } else { None };
            let interval = Interval {
                randomize_start,
                value_map: crate::event::duplicate_values_maps(&internal.value_map),
            };
            out.push((Timestamp { secs: start.0, nanos: start.1 }, Timestamp { secs: end.0, nanos: end.1 }, interval));
            seen.push(internal.id);
            i = i + 1;
        }
        out
    }
}

impl Timeline {
    /// The segments in order, each with a copy of its interval.
    pub fn ranges(&self) -> (r: Vec<(Timestamp, Timestamp, InternalInterval)>)
        ensures
            segments_wf(self.segments()),
            r@.len() == self.segments().len(),
            forall|i: int|
                0 <= i < r@.len() ==> {
                    let seg = self.segments()[i];
                    &&& (#[trigger] r@[i]).0 == timestamp_of(seg.0)
                    &&& r@[i].1 == timestamp_of(seg.1)
                    &&& r@[i].2@ == seg.2
                },
    {
        proof {
            use_type_invariant(self);
            self.lemma_segments_wf();
        }
        let es = range_map_segments(&self.data);
        let ghost segs = self.segments();
        let mut out: Vec<(Timestamp, Timestamp, InternalInterval)> = Vec::new();
        let mut i: usize = 0;
        while i < es.len()
            invariant
                es@ == range_map_entries(self.data),
                segs == self.segments(),
                segs.len() == es@.len(),
                forall|j: int| 0 <= j < es@.len() ==> (#[trigger] es@[j]).2 < self.table@.len(),
                i <= es@.len(),
                out@.len() == i,
                forall|m: int|
                    0 <= m < i ==> {
                        let seg = segs[m];
                        &&& (#[trigger] out@[m]).0 == timestamp_of(seg.0)
                        &&& out@[m].1 == timestamp_of(seg.1)
                        &&& out@[m].2@ == seg.2
                    },
            decreases es@.len() - i,
        {
            let entry = es[i];
            let idx = entry.2;
            assert(idx == es@[i as int].2);
            let n = self.table.len();
            assert(idx < n);
            let ix = idx as usize;
            assert(segs[i as int] == (es@[i as int].0, es@[i as int].1, self.table@[es@[i as int].2 as int]@));
            let internal = self.table[ix].duplicate();
            out.push((Timestamp { secs: entry.0.0, nanos: entry.0.1 }, Timestamp { secs: entry.1.0, nanos: entry.1.1 }, internal));
            i = i + 1;
        }
        out
    }

    /// The segment that contains the point in time `datetime`, with what holds in it.
    pub fn at_datetime(&self, datetime: &Timestamp) -> (r: Option<(Timestamp, Timestamp, Interval)>)
        ensures
            segments_wf(self.segments()),
            r is None <==> self.at_key(key_of(*datetime)) is None,
            r matches Some(found) ==> exists|i: int|
                0 <= i < self.segments().len() && {
                    let seg = #[trigger] self.segments()[i];
                    &&& in_range(key_of(*datetime), seg.0, seg.1)
                    &&& found.0 == timestamp_of(seg.0)
                    &&& found.1 == timestamp_of(seg.1)
                    &&& self.at_key(key_of(*datetime)) == Some(seg.2)
                    &&& found.2.randomize_start == seg.2.randomize_start
                    &&& values_maps_view(found.2.value_map@) == seg.2.value_map
                },
    {
        proof {
            use_type_invariant(self);
            self.lemma_segments_wf();
        }
        let k = (datetime.secs, datetime.nanos);
        let ghost es = range_map_entries(self.data);
        match range_map_get(&self.data, k) {
            None => {
                assert(lookup(es, k) is None);
                None
            },
            Some(entry) => {
                let ghost i = choose|i: int| 0 <= i < es.len() && #[trigger] es[i] == entry && in_range(k, entry.0, entry.1);
                proof {
                    let c = choose|j: int| 0 <= j < es.len() && in_range(k, (#[trigger] es[j]).0, es[j].1);
                    lemma_unique_cover(es, k, i, c);
                    assert(self.segments()[i] == (es[i].0, es[i].1, self.table@[es[i].2 as int]@));
                }
                let idx = entry.2;
                assert(idx < self.table@.len());
                let n = self.table.len();
                let ix = idx as usize;
                let internal = &self.table[ix];
                let interval = Interval {
                    randomize_start: internal.randomize_start,
                    value_map: crate::event::duplicate_values_maps(&internal.value_map),
                };
                Some((Timestamp { secs: entry.0.0, nanos: entry.0.1 }, Timestamp { secs: entry.1.0, nanos: entry.1.1 }, interval))
            },
        }
    }

    /// When what holds changes next after `datetime`: the end of the segment
    /// containing it, or else the start of the first segment after it.
    pub fn next_update(&self, datetime: &Timestamp) -> (r: Option<Timestamp>)
        ensures
            segments_wf(self.segments()),
            forall|i: int|
                0 <= i < self.segments().len() && in_range(
                    key_of(*datetime),
                    (#[trigger] self.segments()[i]).0,
                    self.segments()[i].1,
                ) ==> r == Some(timestamp_of(self.segments()[i].1)),
            self.at_key(key_of(*datetime)) is None ==> (r matches Some(t) ==> exists|i: int|
                0 <= i < self.segments().len() && {
                    let seg = #[trigger] self.segments()[i];
                    &&& t == timestamp_of(seg.0)
                    &&& key_lt(key_of(*datetime), seg.0)
                    &&& forall|j: int| 0 <= j < i ==> !key_lt(key_of(*datetime), (#[trigger] self.segments()[j]).0)
                }),
            self.at_key(key_of(*datetime)) is None ==> (r is None ==> forall|i: int|
                0 <= i < self.segments().len() ==> !key_lt(
                    key_of(*datetime),
                    (#[trigger] self.segments()[i]).0,
                )),
    {
        proof {
            use_type_invariant(self);
            self.lemma_segments_wf();
        }
        let k = (datetime.secs, datetime.nanos);
        let ghost es = range_map_entries(self.data);
        let ghost segs = self.segments();
        assert forall|i: int| 0 <= i < segs.len() implies (#[trigger] segs[i]).0 == es[i].0 && segs[i].1 == es[i].1 by {}
        match range_map_get(&self.data, k) {
            Some(entry) => {
                let ghost i = choose|i: int| 0 <= i < es.len() && #[trigger] es[i] == entry && in_range(k, entry.0, entry.1);
                proof {
                    assert forall|j: int| 0 <= j < segs.len() && in_range(k, (#[trigger] segs[j]).0, segs[j].1) implies j == i by {
                        lemma_unique_cover(es, k, i, j);
                    }
                }
                return Some(Timestamp { secs: entry.1.0, nanos: entry.1.1 });
            },
            None => {},
        }
        assert(lookup(es, k) is None);
        let last = match range_map_last(&self.data) {
            None => {
                return None;
            },
            Some(e) => e,
        };
        match range_map_first_overlapping(&self.data, k, last.1) {
            None => {
                proof {
                    assert forall|i: int| 0 <= i < segs.len() implies !key_lt(k, (#[trigger] segs[i]).0) by {
                        if key_lt(k, es[i].0) {
                            let n = es.len() - 1;
                            if i < n {
                                assert(key_le(es[i].1, es[n].0));
                            }
                            assert(key_lt(es[i].0, last.1));
                        }
                    }
                }
                None
            },
            Some(e) => {
                let ghost i = choose|i: int| 0 <= i < es.len() && #[trigger] es[i] == e && key_lt(k, e.1) && key_lt(e.0, last.1) && forall|j: int| 0 <= j < i ==> !key_lt(k, (#[trigger] es[j]).1);
                proof {
                    assert(!in_range(k, es[i].0, es[i].1));
                    assert forall|j: int| 0 <= j < i implies !key_lt(k, (#[trigger] segs[j]).0) by {
                        assert(!key_lt(k, es[j].1));
                        assert(key_lt(es[j].0, es[j].1));
                    }
                    assert(segs[i].0 == e.0);
                    assert(key_lt(k, segs[i].0));
                    assert(timestamp_of(segs[i].0) == Timestamp { secs: e.0.0, nanos: e.0.1 });
                }
                Some(Timestamp { secs: e.0.0, nanos: e.0.1 })
            },
        }
    }
}

/// The order in which events are laid out, as positions into the events:
/// each event once, by importance from least to most, events of equal
/// importance in the order they were given.
pub open spec fn is_layout_order(ps: Seq<Priority>, order: Seq<int>) -> bool {
    &&& order.len() == ps.len()
    &&& forall|i: int| 0 <= i < order.len() ==> 0 <= #[trigger] order[i] < ps.len()
    &&& forall|i: int, j: int| 0 <= i < j < order.len() ==> (#[trigger] order[i]) != (#[trigger] order[j])
    &&& forall|i: int, j: int|
        0 <= i < j < order.len() ==> priority_rank(ps[#[trigger] order[i]]) <= priority_rank(ps[#[trigger] order[j]])
    &&& forall|i: int, j: int|
        0 <= i < j < order.len() && priority_rank(ps[#[trigger] order[i]]) == priority_rank(ps[#[trigger] order[j]])
            ==> order[i] < order[j]
}

/// The positions as integers.
pub open spec fn positions(order: Seq<usize>) -> Seq<int> {
    order.map_values(|p: usize| p as int)
}

/// Sorts positions of priorities by importance, least important first,
/// keeping the given order among equals.
pub fn layout_order(priorities: &Vec<Priority>) -> (order: Vec<usize>)
    ensures
        is_layout_order(priorities@, positions(order@)),
{
    let mut order: Vec<usize> = Vec::new();
    let mut i: usize = 0;
    while i < priorities.len()
        invariant
            i <= priorities@.len(),
            is_layout_order(priorities@.subrange(0, i as int), positions(order@)),
        decreases priorities@.len() - i,
    {
        let ghost ps = priorities@;
        let ghost old_order = positions(order@);
        let mut p: usize = 0;
        assert forall|q: int| 0 <= q < order@.len() implies (#[trigger] order@[q]) < i by {
            assert(old_order[q] == order@[q] as int);
        }
        while p < order.len() && !priorities[i].is_lower_than(&priorities[order[p]])
            invariant
                forall|q: int| 0 <= q < order@.len() ==> (#[trigger] order@[q]) < i,
                i < ps.len(),
                ps == priorities@,
                p <= order@.len(),
                old_order == positions(order@),
                is_layout_order(ps.subrange(0, i as int), old_order),
                forall|q: int| 0 <= q < p ==> priority_rank(ps[#[trigger] old_order[q]]) <= priority_rank(ps[i as int]),
            decreases order@.len() - p,
        {
            assert(old_order[p as int] < i);
            assert(ps.subrange(0, i as int)[old_order[p as int]] == ps[old_order[p as int]]);
            p = p + 1;
        }
        proof {
            assert forall|q: int| p <= q < old_order.len() implies priority_rank(ps[#[trigger] old_order[q]]) > priority_rank(ps[i as int]) by {
                if p < old_order.len() {
                    assert(ps.subrange(0, i as int)[old_order[p as int]] == ps[old_order[p as int]]);
                    if q > p {
                        assert(ps.subrange(0, i as int)[old_order[q]] == ps[old_order[q]]);
                    }
                }
            }
        }
        order.insert(p, i);
        proof {
            let sub = ps.subrange(0, i + 1);
            let no = positions(order@);
            assert(no =~= old_order.insert(p as int, i as int));
            assert forall|a: int| 0 <= a < no.len() implies 0 <= #[trigger] no[a] < sub.len() by {
                if a < p { assert(no[a] == old_order[a]); } else if a > p { assert(no[a] == old_order[a - 1]); }
            }
            assert forall|a: int, b: int| 0 <= a < b < no.len() implies (#[trigger] no[a]) != (#[trigger] no[b]) by {
                if a < p { assert(no[a] == old_order[a]); } else if a > p { assert(no[a] == old_order[a - 1]); }
                if b < p { assert(no[b] == old_order[b]); } else if b > p { assert(no[b] == old_order[b - 1]); }
            }
            assert forall|a: int| 0 <= a < no.len() implies sub[#[trigger] no[a]] == ps[no[a]] by {
                if a < p { assert(no[a] == old_order[a]); } else if a > p { assert(no[a] == old_order[a - 1]); }
            }
            assert forall|a: int, b: int| 0 <= a < b < no.len() implies priority_rank(sub[#[trigger] no[a]]) <= priority_rank(sub[#[trigger] no[b]]) by {
                assert(sub[no[a]] == ps[no[a]]);
                assert(sub[no[b]] == ps[no[b]]);
                if a < p { assert(no[a] == old_order[a]); } else if a > p { assert(no[a] == old_order[a - 1]); }
                if b < p { assert(no[b] == old_order[b]); } else if b > p { assert(no[b] == old_order[b - 1]); }
                if a != p && b != p {
                    let oa = if a < p { a } else { a - 1 };
                    let ob = if b < p { b } else { b - 1 };
                    assert(ps.subrange(0, i as int)[old_order[oa]] == ps[old_order[oa]]);
                    assert(ps.subrange(0, i as int)[old_order[ob]] == ps[old_order[ob]]);
                }
            }
            assert forall|a: int, b: int| 0 <= a < b < no.len() && priority_rank(sub[#[trigger] no[a]]) == priority_rank(sub[#[trigger] no[b]]) implies no[a] < no[b] by {
                assert(sub[no[a]] == ps[no[a]]);
                assert(sub[no[b]] == ps[no[b]]);
                if a < p { assert(no[a] == old_order[a]); } else if a > p { assert(no[a] == old_order[a - 1]); }
                if b < p { assert(no[b] == old_order[b]); } else if b > p { assert(no[b] == old_order[b - 1]); }
                if a != p && b != p {
                    let oa = if a < p { a } else { a - 1 };
                    let ob = if b < p { b } else { b - 1 };
                    assert(ps.subrange(0, i as int)[old_order[oa]] == ps[old_order[oa]]);
                    assert(ps.subrange(0, i as int)[old_order[ob]] == ps[old_order[ob]]);
                }
            }
        }
        i = i + 1;
    }
    proof {
        assert(priorities@.subrange(0, priorities@.len() as int) =~= priorities@);
    }
    order
}

/// An interval of an event in layout position, its range still to be
/// computed from its period.
#[derive(Debug, Clone, PartialEq)]
pub struct PendingInterval {
    /// Position of the event in the layout order.
    pub id: u32,
    pub priority: Priority,
    /// The period that applies: the interval's own, else the event's, else the program's.
    pub period: IntervalPeriod,
    pub value_map: Vec<EventValuesMap>,
}

/// A pending interval as a mathematical value.
pub struct PendingView {
    pub id: u32,
    pub priority: Priority,
    pub period: IntervalPeriod,
    pub value_map: Seq<((nat, Seq<char>), Seq<ValueView>)>,
}

impl View for PendingInterval {
    type V = PendingView;

    open spec fn view(&self) -> PendingView {
        PendingView {
            id: self.id,
            priority: self.priority,
            period: self.period,
            value_map: values_maps_view(self.value_map@),
        }
    }
}

/// The first of two optional periods that is given.
pub open spec fn period_or(first: Option<IntervalPeriod>, second: Option<IntervalPeriod>) -> Option<IntervalPeriod> {
    match first {
        Some(p) => Some(p),
        None => second,
    }
}

/// The pending intervals of an event's intervals, or nothing if one of them
/// has no period of its own and there is no default.
pub open spec fn intervals_pending(
    ivs: Seq<EventInterval>,
    default: Option<IntervalPeriod>,
    id: u32,
    priority: Priority,
) -> Option<Seq<PendingView>>
    decreases ivs.len(),
{
    if ivs.len() == 0 {
        Some(Seq::empty())
    } else {
        match (intervals_pending(ivs.drop_last(), default, id, priority), period_or(ivs.last().interval_period, default)) {
            (Some(before), Some(period)) => Some(before.push(PendingView {
                id,
                priority,
                period,
                value_map: values_maps_view(ivs.last().payloads@),
            })),
            _ => None,
        }
    }
}

/// The pending intervals of the events in the given order, the events'
/// positions in it as their ids; nothing if some interval has no period.
pub open spec fn events_pending(
    events: Seq<&EventContent>,
    order: Seq<int>,
    program_period: Option<IntervalPeriod>,
) -> Option<Seq<PendingView>>
    decreases order.len(),
{
    if order.len() == 0 {
        Some(Seq::empty())
    } else {
        let e = events[order.last()];
        match (
            events_pending(events, order.drop_last(), program_period),
            intervals_pending(e.intervals@, period_or(e.interval_period, program_period), (order.len() - 1) as u32, e.priority),
        ) {
            (Some(before), Some(these)) => Some(before + these),
            _ => None,
        }
    }
}

/// The views of a list of pending intervals.
pub open spec fn pending_view(ps: Seq<PendingInterval>) -> Seq<PendingView> {
    ps.map_values(|p: PendingInterval| p@)
}

/// Once an interval has no period, the event's intervals have none either.
pub proof fn lemma_pending_prefix_none(
    ivs: Seq<EventInterval>,
    default: Option<IntervalPeriod>,
    id: u32,
    priority: Priority,
    m: int,
)
    requires
        0 <= m <= ivs.len(),
        intervals_pending(ivs.subrange(0, m), default, id, priority) is None,
    ensures
        intervals_pending(ivs, default, id, priority) is None,
    decreases ivs.len(),
{
    if m == ivs.len() {
        assert(ivs.subrange(0, m) =~= ivs);
    } else {
        assert(ivs.drop_last().subrange(0, m) =~= ivs.subrange(0, m));
        lemma_pending_prefix_none(ivs.drop_last(), default, id, priority, m);
    }
}

fn push_event_intervals(
    out: &mut Vec<PendingInterval>,
    intervals: &Vec<EventInterval>,
    default: Option<IntervalPeriod>,
    id: u32,
    priority: Priority,
) -> (ok: bool)
    ensures
        ok == (intervals_pending(intervals@, default, id, priority) is Some),
        ok ==> pending_view(final(out)@) == pending_view(old(out)@) + intervals_pending(intervals@, default, id, priority)->0,
{
    let ghost start = pending_view(out@);
    let mut j: usize = 0;
    while j < intervals.len()
        invariant
            j <= intervals@.len(),
            intervals_pending(intervals@.subrange(0, j as int), default, id, priority) is Some,
            pending_view(out@) == start + intervals_pending(intervals@.subrange(0, j as int), default, id, priority)->0,
        decreases intervals@.len() - j,
    {
        proof {
            assert(intervals@.subrange(0, j + 1).drop_last() =~= intervals@.subrange(0, j as int));
        }
        let period = match intervals[j].interval_period {
            Some(p) => p,
            None => match default {
                Some(p) => p,
                None => {
                    proof {
                        let pre = intervals@.subrange(0, j + 1);
                        assert(pre.last() == intervals@[j as int]);
                        lemma_pending_prefix_none(intervals@, default, id, priority, j as int + 1);
                    }
                    return false;
                },
            },
        };
        let ghost before = out@;
        out.push(PendingInterval { id, priority, period, value_map: duplicate_values_maps(&intervals[j].payloads) });
        proof {
            assert(pending_view(out@) =~= pending_view(before).push(out@.last()@));
        }
        j = j + 1;
    }
    proof {
        assert(intervals@.subrange(0, intervals@.len() as int) =~= intervals@);
    }
    true
}

/// Once the intervals of one event lack a period, the whole layout does.
pub proof fn lemma_events_pending_prefix_none(
    events: Seq<&EventContent>,
    order: Seq<int>,
    program_period: Option<IntervalPeriod>,
    m: int,
)
    requires
        0 <= m <= order.len(),
        events_pending(events, order.subrange(0, m), program_period) is None,
    ensures
        events_pending(events, order, program_period) is None,
    decreases order.len(),
{
    if m == order.len() {
        assert(order.subrange(0, m) =~= order);
    } else {
        assert(order.drop_last().subrange(0, m) =~= order.subrange(0, m));
        lemma_events_pending_prefix_none(events, order.drop_last(), program_period, m);
    }
}

/// The priorities of the events.
pub open spec fn priorities_of(events: Seq<&EventContent>) -> Seq<Priority> {
    events.map_values(|e: &EventContent| e.priority)
}

/// Lays out the intervals of a program's events: events ordered by importance,
/// least important first (equally important ones in the given order), each
/// numbered by its position, each interval with the period that applies to it.
/// Nothing if an interval has no period of its own, of its event or of the program.
pub fn lay_out(program: &ProgramContent, events: Vec<&EventContent>) -> (r: Option<Vec<PendingInterval>>)
    requires
        events@.len() <= 0x1_0000_0000,
    ensures
        exists|order: Seq<int>|
            is_layout_order(priorities_of(events@), order) && match (
                r,
                events_pending(events@, order, program.interval_period),
            ) {
                (None, None) => true,
                (Some(v), Some(expected)) => pending_view(v@) == expected,
                _ => false,
            },
{
    let mut priorities: Vec<Priority> = Vec::new();
    let mut i: usize = 0;
    while i < events.len()
        invariant
            i <= events@.len(),
            priorities@ == priorities_of(events@).subrange(0, i as int),
        decreases events@.len() - i,
    {
        priorities.push(events[i].priority);
        proof {
            assert(priorities@ =~= priorities_of(events@).subrange(0, i + 1));
        }
        i = i + 1;
    }
    proof {
        assert(priorities_of(events@).subrange(0, events@.len() as int) =~= priorities_of(events@));
    }
    let order = layout_order(&priorities);
    let ghost ord = positions(order@);
    let mut out: Vec<PendingInterval> = Vec::new();
    let mut k: usize = 0;
    while k < order.len()
        invariant
            ord == positions(order@),
            is_layout_order(priorities_of(events@), ord),
            order@.len() == events@.len(),
            events@.len() <= 0x1_0000_0000,
            k <= order@.len(),
            events_pending(events@, ord.subrange(0, k as int), program.interval_period) is Some,
            pending_view(out@) == events_pending(events@, ord.subrange(0, k as int), program.interval_period)->0,
        decreases order@.len() - k,
    {
        proof {
            assert(ord.subrange(0, k + 1).drop_last() =~= ord.subrange(0, k as int));
            assert(ord.subrange(0, k + 1).last() == ord[k as int]);
            assert(ord[k as int] == order@[k as int] as int);
            assert(0 <= ord[k as int] < events@.len());
        }
        let event = events[order[k]];
        let default = match event.interval_period {
            Some(p) => Some(p),
            None => program.interval_period,
        };
        let ok = push_event_intervals(&mut out, &event.intervals, default, k as u32, event.priority);
        if !ok {
            proof {
                lemma_events_pending_prefix_none(events@, ord, program.interval_period, k + 1);
            }
            return None;
        }
        k = k + 1;
    }
    proof {
        assert(ord.subrange(0, order@.len() as int) =~= ord);
    }
    Some(out)
}

/// The intervals come in order of importance, least important first.
pub open spec fn sorted_by_importance(ivs: Seq<ResolvedInterval>) -> bool {
    forall|i: int, j: int|
        0 <= i < j < ivs.len() ==> priority_rank((#[trigger] ivs[i]).interval.priority)
            <= priority_rank((#[trigger] ivs[j]).interval.priority)
}

/// Where intervals laid out by importance overlap, one of the most important
/// ones holds, and of equally important ones the one laid out last: a less
/// important event never overwrites a more important one.
pub proof fn lemma_more_important_holds(ivs: Seq<ResolvedInterval>, k: (i64, u32))
    requires
        sorted_by_importance(ivs),
    ensures
        last_covering(ivs, k) matches Some(j) ==> forall|i: int|
            0 <= i < ivs.len() && covers(#[trigger] ivs[i], k) ==> i <= j && priority_rank(
                ivs[i].interval.priority,
            ) <= priority_rank(ivs[j].interval.priority),
    decreases ivs.len(),
{
    lemma_last_covering_bounds(ivs, k);
    if ivs.len() > 0 && !covers(ivs.last(), k) {
        let rest = ivs.drop_last();
        lemma_more_important_holds(rest, k);
        lemma_last_covering_bounds(rest, k);
        assert forall|i: int| 0 <= i < ivs.len() && covers(#[trigger] ivs[i], k) implies i < ivs.len() - 1 by {}
        if let Some(j) = last_covering(ivs, k) {
            assert forall|i: int| 0 <= i < ivs.len() && covers(#[trigger] ivs[i], k) implies i <= j by {
                assert(rest[i] == ivs[i]);
            }
        }
    }
}

/// All pending intervals of one event carry its number and priority.
pub proof fn lemma_intervals_pending_uniform(
    ivs: Seq<EventInterval>,
    default: Option<IntervalPeriod>,
    id: u32,
    priority: Priority,
)
    ensures
        intervals_pending(ivs, default, id, priority) matches Some(ps) ==> forall|a: int|
            0 <= a < ps.len() ==> (#[trigger] ps[a]).id == id && ps[a].priority == priority,
    decreases ivs.len(),
{
    if ivs.len() > 0 {
        lemma_intervals_pending_uniform(ivs.drop_last(), default, id, priority);
    }
}

/// A layout lists the pending intervals by importance, least important first,
/// and by event number.
pub proof fn lemma_layout_by_importance(
    events: Seq<&EventContent>,
    order: Seq<int>,
    program_period: Option<IntervalPeriod>,
)
    requires
        forall|i: int| 0 <= i < order.len() ==> 0 <= #[trigger] order[i] < events.len(),
        forall|i: int, j: int|
            0 <= i < j < order.len() ==> priority_rank(priorities_of(events)[#[trigger] order[i]])
                <= priority_rank(priorities_of(events)[#[trigger] order[j]]),
        order.len() <= 0x1_0000_0000,
    ensures
        events_pending(events, order, program_period) matches Some(ps) ==> {
            &&& forall|a: int, b: int|
                0 <= a < b < ps.len() ==> priority_rank((#[trigger] ps[a]).priority) <= priority_rank(
                    (#[trigger] ps[b]).priority,
                ) && ps[a].id <= ps[b].id
            &&& forall|a: int| 0 <= a < ps.len() ==> (#[trigger] ps[a]).id < order.len()
                && ps[a].priority == priorities_of(events)[order[ps[a].id as int]]
        },
    decreases order.len(),
{
    if order.len() > 0 {
        let rest = order.drop_last();
        lemma_layout_by_importance(events, rest, program_period);
        let e = events[order.last()];
        let n = order.len() - 1;
        lemma_intervals_pending_uniform(
            e.intervals@,
            period_or(e.interval_period, program_period),
            n as u32,
            e.priority,
        );
        if let Some(ps) = events_pending(events, order, program_period) {
            let before = events_pending(events, rest, program_period)->0;
            let these = intervals_pending(
                e.intervals@,
                period_or(e.interval_period, program_period),
                n as u32,
                e.priority,
            )->0;
            assert(ps == before + these);
            assert(priorities_of(events)[order.last()] == e.priority);
            assert forall|a: int| 0 <= a < ps.len() implies (#[trigger] ps[a]).id < order.len()
                && ps[a].priority == priorities_of(events)[order[ps[a].id as int]] by {
                if a < before.len() {
                    assert(ps[a] == before[a]);
                    assert(rest[ps[a].id as int] == order[ps[a].id as int]);
                } else {
                    assert(ps[a] == these[a - before.len()]);
                }
            }
            assert forall|a: int, b: int| 0 <= a < b < ps.len() implies priority_rank((#[trigger] ps[a]).priority) <= priority_rank(
                    (#[trigger] ps[b]).priority,
                ) && ps[a].id <= ps[b].id by {
                if b < before.len() {
                    assert(ps[a] == before[a] && ps[b] == before[b]);
                } else if a >= before.len() {
                    assert(ps[a] == these[a - before.len()] && ps[b] == these[b - before.len()]);
                } else {
                    assert(ps[a] == before[a] && ps[b] == these[b - before.len()]);
                    let ia = ps[a].id as int;
                    assert(ia < rest.len());
                    assert(rest[ia] == order[ia]);
                    assert(priority_rank(priorities_of(events)[order[ia]]) <= priority_rank(priorities_of(events)[order[n]]));
                }
            }
        }
    }
}

/// Where no interval is last to cover `k`, none covers it.
pub proof fn lemma_last_covering_none(ivs: Seq<ResolvedInterval>, k: (i64, u32))
    ensures
        last_covering(ivs, k) is None ==> forall|a: int| 0 <= a < ivs.len() ==> !covers(#[trigger] ivs[a], k),
    decreases ivs.len(),
{
    if ivs.len() > 0 && !covers(ivs.last(), k) {
        lemma_last_covering_none(ivs.drop_last(), k);
        assert forall|a: int| 0 <= a < ivs.len() - 1 implies ivs.drop_last()[a] == ivs[a] by {}
    }
}

/// The timeline of a program's events. Lay the events out (`order`, and the
/// pending intervals that `lay_out` gives), give each pending interval its
/// range from the start of its period (`ivs`, in the same order), and overlay
/// them as `Timeline::from_resolved` does (`tl`). Then a moment is covered
/// exactly when some interval's range holds it, and what holds there is a
/// covering interval of the most important event; among equally important
/// events, of the one given last; within that event, its last covering
/// interval.
pub proof fn lemma_timeline_of_events(
    events: Seq<&EventContent>,
    order: Seq<int>,
    program_period: Option<IntervalPeriod>,
    ivs: Seq<ResolvedInterval>,
    tl: Timeline,
    k: (i64, u32),
)
    requires
        events.len() <= 0x1_0000_0000,
        is_layout_order(priorities_of(events), order),
        events_pending(events, order, program_period) is Some,
        events_pending(events, order, program_period)->0.len() == ivs.len(),
        forall|a: int|
            0 <= a < ivs.len() ==> {
                let p = #[trigger] events_pending(events, order, program_period)->0[a];
                &&& ivs[a].interval.id == p.id
                &&& ivs[a].interval.priority == p.priority
                &&& values_maps_view(ivs[a].interval.value_map@) == p.value_map
                &&& key_of(ivs[a].start) == key_of(p.period.start)
            },
        forall|k2: (i64, u32)|
            #![trigger tl.at_key(k2)]
            match (tl.at_key(k2), last_covering(ivs, k2)) {
                (None, None) => true,
                (Some(v), Some(j)) => same_or_eq(v, ivs[j].interval@),
                _ => false,
            },
    ensures
        tl.at_key(k) is Some <==> exists|a: int| 0 <= a < ivs.len() && covers(#[trigger] ivs[a], k),
        tl.at_key(k) matches Some(v) ==> exists|j: int|
            0 <= j < ivs.len() && covers(#[trigger] ivs[j], k) && same_or_eq(v, ivs[j].interval@) && forall|i: int|
                0 <= i < ivs.len() && covers(#[trigger] ivs[i], k) ==> {
                    let ei = order[ivs[i].interval.id as int];
                    let ej = order[ivs[j].interval.id as int];
                    ||| priority_rank(events[ei].priority) < priority_rank(events[ej].priority)
                    ||| priority_rank(events[ei].priority) == priority_rank(events[ej].priority) && ei < ej
                    ||| ei == ej && i <= j
                },
{
    let ps = events_pending(events, order, program_period)->0;
    let pr = priorities_of(events);
    assert forall|i: int| 0 <= i < order.len() implies 0 <= #[trigger] order[i] < events.len() by {}
    lemma_layout_by_importance(events, order, program_period);
    assert(sorted_by_importance(ivs)) by {
        assert forall|i: int, j: int| 0 <= i < j < ivs.len() implies priority_rank((#[trigger] ivs[i]).interval.priority)
            <= priority_rank((#[trigger] ivs[j]).interval.priority) by {
            assert(ivs[i].interval.priority == ps[i].priority);
            assert(ivs[j].interval.priority == ps[j].priority);
        }
    }
    lemma_more_important_holds(ivs, k);
    lemma_last_covering_bounds(ivs, k);
    lemma_last_covering_none(ivs, k);
    match last_covering(ivs, k) {
        None => {
            assert(tl.at_key(k) is None);
        },
        Some(j) => {
            assert(covers(ivs[j], k));
            assert(tl.at_key(k) is Some);
            assert forall|i: int| 0 <= i < ivs.len() && covers(#[trigger] ivs[i], k) implies {
                let ei = order[ivs[i].interval.id as int];
                let ej = order[ivs[j].interval.id as int];
                ||| priority_rank(events[ei].priority) < priority_rank(events[ej].priority)
                ||| priority_rank(events[ei].priority) == priority_rank(events[ej].priority) && ei < ej
                ||| ei == ej && i <= j
            } by {
                let ii = ps[i].id as int;
                let jj = ps[j].id as int;
                assert(ivs[i].interval.id == ps[i].id && ivs[j].interval.id == ps[j].id);
                assert(ps[i].priority == pr[order[ii]] && ps[j].priority == pr[order[jj]]);
                assert(pr[order[ii]] == events[order[ii]].priority);
                assert(pr[order[jj]] == events[order[jj]].priority);
                assert(i <= j);
                if i < j {
                    assert(ps[i].id <= ps[j].id);
                }
                if ii < jj && priority_rank(pr[order[ii]]) == priority_rank(pr[order[jj]]) {
                    assert(order[ii] < order[jj]);
                }
            }
        },
    }
}


/// The period that applies to an interval: its own, else its event's, else
/// the program's.
pub open spec fn applicable_period(
    own: Option<IntervalPeriod>,
    event_period: Option<IntervalPeriod>,
    program_period: Option<IntervalPeriod>,
) -> Option<IntervalPeriod> {
    match own {
        Some(p) => Some(p),
        None => match event_period {
            Some(p) => Some(p),
            None => program_period,
        },
    }
}

/// The pending intervals of one event: one per interval, in order, each with
/// the interval's own period if it has one and the default otherwise; none
/// exactly when some interval has no period and there is no default.
proof fn lemma_intervals_pending_shape(
    ivs: Seq<EventInterval>,
    default: Option<IntervalPeriod>,
    id: u32,
    priority: Priority,
)
    ensures
        intervals_pending(ivs, default, id, priority) is None <==> (default is None && exists|j: int|
            0 <= j < ivs.len() && (#[trigger] ivs[j]).interval_period is None),
        intervals_pending(ivs, default, id, priority) matches Some(ps) ==> ps.len() == ivs.len() && forall|j: int|
            0 <= j < ivs.len() ==> {
                let p = #[trigger] ps[j];
                &&& p.id == id
                &&& p.priority == priority
                &&& p.value_map == values_maps_view(ivs[j].payloads@)
                &&& Some(p.period) == (match ivs[j].interval_period {
                    Some(own) => Some(own),
                    None => default,
                })
            },
    decreases ivs.len(),
{
    if ivs.len() > 0 {
        let rest = ivs.drop_last();
        lemma_intervals_pending_shape(rest, default, id, priority);
        assert forall|j: int| 0 <= j < rest.len() implies rest[j] == ivs[j] by {}
        if intervals_pending(rest, default, id, priority) is None {
            let j = choose|j: int| 0 <= j < rest.len() && (#[trigger] rest[j]).interval_period is None;
            assert(ivs[j].interval_period is None);
        }
        if default is None && exists|j: int| 0 <= j < ivs.len() && (#[trigger] ivs[j]).interval_period is None {
            let j = choose|j: int| 0 <= j < ivs.len() && (#[trigger] ivs[j]).interval_period is None;
            if j < ivs.len() - 1 {
                assert(rest[j].interval_period is None);
            }
        }
    }
}

/// Where the intervals of the `n`-th laid-out event begin among the pending
/// intervals: the number of intervals of the events laid out before it.
pub open spec fn pending_offset(events: Seq<&EventContent>, order: Seq<int>, n: int) -> int
    decreases n,
{
    if n <= 0 {
        0
    } else {
        pending_offset(events, order, n - 1) + events[order[n - 1]].intervals@.len()
    }
}

proof fn lemma_pending_offset_prefix(events: Seq<&EventContent>, order: Seq<int>, n: int)
    requires
        0 <= n < order.len(),
    ensures
        pending_offset(events, order.drop_last(), n) == pending_offset(events, order, n),
    decreases n,
{
    if n > 0 {
        lemma_pending_offset_prefix(events, order, n - 1);
    }
}

proof fn lemma_pending_offset_monotone(events: Seq<&EventContent>, order: Seq<int>, a: int, b: int)
    requires
        0 <= a <= b,
    ensures
        pending_offset(events, order, a) <= pending_offset(events, order, b),
    decreases b,
{
    if a < b {
        lemma_pending_offset_monotone(events, order, a, b - 1);
    }
}

/// The layout gives every interval of every event its place and its period:
/// the `j`-th interval of the `n`-th event laid out stands at
/// `pending_offset(n) + j`, numbered `n`, with its event's priority and its own
/// payloads, and with its own period where it has one, else its event's, else
/// the program's. The layout fails exactly when some interval, its event and
/// the program all lack a period.
pub proof fn lemma_layout_periods(events: Seq<&EventContent>, order: Seq<int>, program_period: Option<IntervalPeriod>)
    requires
        forall|i: int| 0 <= i < order.len() ==> 0 <= #[trigger] order[i] < events.len(),
        order.len() <= 0x1_0000_0000,
    ensures
        events_pending(events, order, program_period) is None <==> exists|n: int, j: int|
            0 <= n < order.len() && 0 <= j < events[order[n]].intervals@.len() && (#[trigger] events[order[n]].intervals@[j]).interval_period is None
                && events[order[n]].interval_period is None && program_period is None,
        events_pending(events, order, program_period) matches Some(ps) ==> {
            &&& ps.len() == pending_offset(events, order, order.len() as int)
            &&& forall|n: int, j: int|
                0 <= n < order.len() && 0 <= j < events[order[n]].intervals@.len() ==> {
                    let iv = #[trigger] events[order[n]].intervals@[j];
                    let p = ps[pending_offset(events, order, n) + j];
                    &&& p.id == n
                    &&& p.priority == events[order[n]].priority
                    &&& p.value_map == values_maps_view(iv.payloads@)
                    &&& Some(p.period) == applicable_period(
                        iv.interval_period,
                        events[order[n]].interval_period,
                        program_period,
                    )
                }
        },
    decreases order.len(),
{
    if order.len() > 0 {
        let rest = order.drop_last();
        let last = order.len() - 1;
        let e = events[order.last()];
        let default = period_or(e.interval_period, program_period);
        lemma_layout_periods(events, rest, program_period);
        lemma_intervals_pending_shape(e.intervals@, default, last as u32, e.priority);
        assert forall|i: int| 0 <= i < rest.len() implies rest[i] == order[i] by {}
        let before = events_pending(events, rest, program_period);
        let these = intervals_pending(e.intervals@, default, last as u32, e.priority);
        // when the layout fails
        if before is None {
            let (n, j) = choose|n: int, j: int|
                0 <= n < rest.len() && 0 <= j < events[rest[n]].intervals@.len() && (#[trigger] events[rest[n]].intervals@[j]).interval_period is None
                    && events[rest[n]].interval_period is None && program_period is None;
            assert(events[order[n]].intervals@[j].interval_period is None);
        } else if these is None {
            let j = choose|j: int| 0 <= j < e.intervals@.len() && (#[trigger] e.intervals@[j]).interval_period is None;
            assert(events[order[last]].intervals@[j].interval_period is None);
        }
        if exists|n: int, j: int|
            0 <= n < order.len() && 0 <= j < events[order[n]].intervals@.len() && (#[trigger] events[order[n]].intervals@[j]).interval_period is None
                && events[order[n]].interval_period is None && program_period is None {
            let (n, j) = choose|n: int, j: int|
                0 <= n < order.len() && 0 <= j < events[order[n]].intervals@.len() && (#[trigger] events[order[n]].intervals@[j]).interval_period is None
                    && events[order[n]].interval_period is None && program_period is None;
            if n < last {
                assert(events[rest[n]].intervals@[j].interval_period is None);
            } else {
                assert(e.intervals@[j].interval_period is None);
            }
        }
        // where it succeeds
        if let Some(ps) = events_pending(events, order, program_period) {
            let bs = before->0;
            let ts = these->0;
            assert(ps == bs + ts);
            lemma_pending_offset_prefix(events, order, last);
            assert(bs.len() == pending_offset(events, order, last));
            assert forall|n: int, j: int|
                0 <= n < order.len() && 0 <= j < events[order[n]].intervals@.len() implies {
                    let iv = #[trigger] events[order[n]].intervals@[j];
                    let p = ps[pending_offset(events, order, n) + j];
                    &&& p.id == n
                    &&& p.priority == events[order[n]].priority
                    &&& p.value_map == values_maps_view(iv.payloads@)
                    &&& Some(p.period) == applicable_period(
                        iv.interval_period,
                        events[order[n]].interval_period,
                        program_period,
                    )
                } by {
                if n < last {
                    lemma_pending_offset_prefix(events, order, n);
                    lemma_pending_offset_monotone(events, order, n + 1, last);
                    assert(pending_offset(events, order, n + 1) == pending_offset(events, order, n)
                        + events[order[n]].intervals@.len());
                    let idx = pending_offset(events, order, n) + j;
                    lemma_pending_offset_monotone(events, order, 0, n);
                    assert(pending_offset(events, order, 0) == 0);
                    assert(pending_offset(events, order, n + 1) <= pending_offset(events, order, last));
                    assert(bs.len() == pending_offset(events, order, last));
                    assert(0 <= idx < bs.len());
                    assert(idx == pending_offset(events, rest, n) + j);
                    assert(events[rest[n]].intervals@[j] == events[order[n]].intervals@[j]);
                    assert((bs + ts)[idx] == bs[idx]);
                    assert(ps[idx] == bs[idx]);
                } else {
                    assert(ps[pending_offset(events, order, n) + j] == ts[j]);
                    assert(ts[j].id == last as u32);
                }
            }
        }
    }
}

} // verus!
