//! Relative priority of events.
//!
//! `0` is the highest priority; an unspecified priority ranks below every
//! specified one.

use vstd::prelude::*;

verus! {

/// Relative priority of an event. A lower number is a higher priority; no
/// number at all is the lowest priority.
#[derive(Debug, Clone, Copy, PartialEq, Eq, Structural)]
pub struct Priority(pub Option<u32>);

/// Position of a priority in the order of importance: larger means more important.
pub open spec fn priority_rank(p: Priority) -> int {
    match p.0 {
        None => -1,
        Some(v) => u32::MAX - v,
    }
}

/// `a` is at most as important as `b`.
pub open spec fn priority_le(a: Priority, b: Priority) -> bool {
    priority_rank(a) <= priority_rank(b)
}

/// The database form of a priority: the absolute value of the stored number, if it fits.
pub open spec fn priority_of_db(value: Option<i64>) -> Priority {
    match value {
        None => Priority(None),
        Some(i) => {
            let a: int = if i < 0 { -i } else { i as int };
            if a <= u32::MAX {
                Priority(Some(a as u32))
            } else {
                Priority(None)
            }
        },
    }
}

impl Priority {
    /// No priority given: ranks below any specified priority.
    pub fn unspecified() -> (r: Priority)
        ensures
            r == Priority(None),
    {
        Priority(None)
    }

    /// The highest priority, `0`.
    pub fn max() -> (r: Priority)
        ensures
            r == Priority(Some(0)),
    {
        Priority(Some(0))
    }

    /// The lowest priority, which is the unspecified one.
    pub fn min() -> (r: Priority)
        ensures
            r == Priority(None),
    {
        Priority(None)
    }

    /// The priority `val` (`0` is the highest).
    pub fn new(val: u32) -> (r: Priority)
        ensures
            r == Priority(Some(val)),
    {
        Priority(Some(val))
    }

    /// Three-way comparison by importance.
    pub fn cmp(&self, other: &Priority) -> (r: core::cmp::Ordering)
        ensures
            (r == core::cmp::Ordering::Less) <==> priority_rank(*self) < priority_rank(*other),
            (r == core::cmp::Ordering::Equal) <==> priority_rank(*self) == priority_rank(*other),
            (r == core::cmp::Ordering::Greater) <==> priority_rank(*self) > priority_rank(*other),
    {
        match (self.0, other.0) {
            (None, None) => core::cmp::Ordering::Equal,
            (None, Some(_)) => core::cmp::Ordering::Less,
            (Some(_), None) => core::cmp::Ordering::Greater,
            (Some(s), Some(o)) => if s < o {
                core::cmp::Ordering::Greater
            } else if s == o {
                core::cmp::Ordering::Equal
            } else {
                core::cmp::Ordering::Less
            },
        }
    }

    /// `self` is strictly less important than `other`.
    pub fn is_lower_than(&self, other: &Priority) -> (r: bool)
        ensures
            r == (priority_rank(*self) < priority_rank(*other)),
    {
        match (self.0, other.0) {
            (None, None) => false,
            (None, Some(_)) => true,
            (Some(_), None) => false,
            (Some(s), Some(o)) => s > o,
        }
    }

    /// Reads a priority from its database form.
    pub fn from_db(value: Option<i64>) -> (r: Priority)
        ensures
            r == priority_of_db(value),
    {
        match value {
            None => Priority(None),
            Some(i) => {
                let a: u64 = if i < 0 {
                    if i == i64::MIN {
                        9223372036854775808u64
                    } else {
                        (-i) as u64
                    }
                } else {
                    i as u64
                };
                if a <= 4294967295u64 {
                    Priority(Some(a as u32))
                } else {
                    Priority(None)
                }
            },
        }
    }

    /// The database form of a priority.
    pub fn to_db(&self) -> (r: Option<i64>)
        ensures
            r == (match self.0 {
                None => None,
                Some(v) => Some(v as i64),
            }),
    {
        match self.0 {
            None => None,
            Some(v) => Some(v as i64),
        }
    }
}

/// Reading a priority from its database form: the absolute value of the
/// stored number, where it fits; none otherwise.
impl From<Option<i64>> for Priority {
    fn from(value: Option<i64>) -> (r: Priority) {
        Priority::from_db(value)
    }
}

impl vstd::std_specs::convert::FromSpecImpl<Option<i64>> for Priority {
    open spec fn obeys_from_spec() -> bool {
        true
    }

    open spec fn from_spec(value: Option<i64>) -> Priority {
        priority_of_db(value)
    }
}

/// The database form of a priority: its number, if it has one.
impl From<Priority> for Option<i64> {
    fn from(value: Priority) -> (r: Option<i64>) {
        value.to_db()
    }
}

impl vstd::std_specs::convert::FromSpecImpl<Priority> for Option<i64> {
    open spec fn obeys_from_spec() -> bool {
        true
    }

    open spec fn from_spec(value: Priority) -> Option<i64> {
        match value.0 {
            None => None,
            Some(v) => Some(v as i64),
        }
    }
}

/// Importance is a total order: reflexive, transitive and total, and two
/// priorities of equal importance are the same priority.
pub proof fn lemma_priority_total_order(a: Priority, b: Priority, c: Priority)
    ensures
        priority_le(a, a),
        priority_le(a, b) && priority_le(b, c) ==> priority_le(a, c),
        priority_le(a, b) || priority_le(b, a),
        priority_le(a, b) && priority_le(b, a) ==> a == b,
{
}

/// The unspecified priority is the least important one and `0` the most important one.
pub proof fn lemma_priority_extremes(p: Priority)
    ensures
        priority_le(Priority(None), p),
        priority_le(p, Priority(Some(0))),
{
}

/// Writing a priority to the database and reading it back gives it again:
/// `Priority::from(Option::<i64>::from(p)) == p`. The unspecified priority
/// is written as no number and `v` as `v`.
pub proof fn lemma_priority_db_roundtrip(p: Priority)
    ensures
        <Option<i64> as vstd::std_specs::convert::FromSpec<Priority>>::from_spec(p) == (match p.0 {
            None => None,
            Some(v) => Some(v as i64),
        }),
        <Priority as vstd::std_specs::convert::FromSpec<Option<i64>>>::from_spec(
            <Option<i64> as vstd::std_specs::convert::FromSpec<Priority>>::from_spec(p),
        ) == p,
{
}

} // verus!
