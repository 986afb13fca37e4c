//! Target criteria of programs and events.

use vstd::prelude::*;
use crate::copy::DeepCopy;
use crate::wire_enums::TargetLabel;

verus! {

/// One target criterion: a label and the value it must have.
#[derive(Debug, Clone, PartialEq, Eq)]
pub struct TargetEntry {
    pub label: TargetLabel,
    pub values: [String; 1],
}

/// A list of target criteria.
#[derive(Debug, Clone, PartialEq, Eq, Default)]
pub struct TargetMap(pub Vec<TargetEntry>);


impl DeepView for TargetEntry {
    type V = ((nat, Seq<char>), Seq<char>);

    open spec fn deep_view(&self) -> ((nat, Seq<char>), Seq<char>) {
        (self.label@, self.values[0]@)
    }
}

impl DeepCopy for TargetEntry {
    fn deep_copy(&self) -> (r: Self) {
        TargetEntry { label: self.label.duplicate(), values: [self.values[0].clone()] }
    }
}

impl DeepView for TargetMap {
    type V = Seq<((nat, Seq<char>), Seq<char>)>;

    open spec fn deep_view(&self) -> Seq<((nat, Seq<char>), Seq<char>)> {
        self.0.deep_view()
    }
}

impl DeepCopy for TargetMap {
    fn deep_copy(&self) -> (r: Self) {
        TargetMap(self.0.deep_copy())
    }
}

} // verus!
