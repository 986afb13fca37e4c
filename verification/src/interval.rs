//! Intervals of reports.

use vstd::prelude::*;
use crate::copy::DeepCopy;
use crate::time::IntervalPeriod;
use crate::values::ValuesMap;

verus! {

/// A temporal window and a list of values maps.
#[derive(Debug, Clone, PartialEq)]
pub struct Interval {
    /// A client generated number assigned to the interval; not a sequence number.
    pub id: i32,
    pub interval_period: Option<IntervalPeriod>,
    pub payloads: Vec<ValuesMap>,
}

impl Interval {
    /// An interval without a period of its own.
    pub fn new(id: i32, payloads: Vec<ValuesMap>) -> (r: Interval)
        ensures
            r == (Interval { id, interval_period: None, payloads }),
    {
        Interval { id, interval_period: None, payloads }
    }
}


impl DeepView for Interval {
    type V = (i32, Option<IntervalPeriod>, Seq<(Seq<char>, Seq<crate::values::ValueView>)>);

    open spec fn deep_view(&self) -> Self::V {
        (self.id, self.interval_period, self.payloads.deep_view())
    }
}

impl DeepCopy for Interval {
    fn deep_copy(&self) -> (r: Self) {
        Interval { id: self.id, interval_period: self.interval_period, payloads: self.payloads.deep_copy() }
    }
}

} // verus!
