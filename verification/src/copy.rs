//! Deep copies whose result is provably the same value, judged by deep views.

use vstd::prelude::*;

use crate::priority::Priority;
use crate::report::Confidence;
use crate::time::{Duration, IntervalPeriod, TimeDelta, Timestamp};
use crate::values::Point;

verus! {

/// Values that can be copied such that the copy has the same deep view.
pub trait DeepCopy: DeepView + Sized {
    fn deep_copy(&self) -> (r: Self)
        ensures
            r.deep_view() == self.deep_view();
}

impl DeepCopy for String {
    fn deep_copy(&self) -> (r: Self) {
        self.clone()
    }
}

impl DeepCopy for bool {
    fn deep_copy(&self) -> (r: Self) {
        *self
    }
}

impl DeepCopy for i32 {
    fn deep_copy(&self) -> (r: Self) {
        *self
    }
}

impl DeepCopy for u32 {
    fn deep_copy(&self) -> (r: Self) {
        *self
    }
}

impl<T: DeepCopy> DeepCopy for Option<T> {
    fn deep_copy(&self) -> (r: Self) {
        match self {
            None => None,
            Some(x) => Some(x.deep_copy()),
        }
    }
}

impl<T: DeepCopy> DeepCopy for Vec<T> {
    fn deep_copy(&self) -> (r: Self) {
        let mut out: Vec<T> = Vec::new();
        let mut i: usize = 0;
        while i < self.len()
            invariant
                i <= self@.len(),
                out@.len() == i,
                forall|j: int| 0 <= j < i ==> (#[trigger] out@[j]).deep_view() == self@[j].deep_view(),
            decreases self@.len() - i,
        {
            out.push(self[i].deep_copy());
            i = i + 1;
        }
        assert(out.deep_view() =~= self.deep_view());
        out
    }
}

impl DeepView for Priority {
    type V = Priority;

    open spec fn deep_view(&self) -> Priority {
        *self
    }
}

impl DeepCopy for Priority {
    fn deep_copy(&self) -> (r: Self) {
        *self
    }
}

impl DeepView for Timestamp {
    type V = Timestamp;

    open spec fn deep_view(&self) -> Timestamp {
        *self
    }
}

impl DeepCopy for Timestamp {
    fn deep_copy(&self) -> (r: Self) {
        *self
    }
}

impl DeepView for TimeDelta {
    type V = TimeDelta;

    open spec fn deep_view(&self) -> TimeDelta {
        *self
    }
}

impl DeepCopy for TimeDelta {
    fn deep_copy(&self) -> (r: Self) {
        *self
    }
}

impl DeepView for Duration {
    type V = Duration;

    open spec fn deep_view(&self) -> Duration {
        *self
    }
}

impl DeepCopy for Duration {
    fn deep_copy(&self) -> (r: Self) {
        *self
    }
}

impl DeepView for IntervalPeriod {
    type V = IntervalPeriod;

    open spec fn deep_view(&self) -> IntervalPeriod {
        *self
    }
}

impl DeepCopy for IntervalPeriod {
    fn deep_copy(&self) -> (r: Self) {
        *self
    }
}

impl DeepView for Confidence {
    type V = Confidence;

    open spec fn deep_view(&self) -> Confidence {
        *self
    }
}

impl DeepCopy for Confidence {
    fn deep_copy(&self) -> (r: Self) {
        *self
    }
}

impl DeepView for Point {
    type V = Point;

    open spec fn deep_view(&self) -> Point {
        *self
    }
}

impl DeepCopy for Point {
    fn deep_copy(&self) -> (r: Self) {
        *self
    }
}

} // verus!
