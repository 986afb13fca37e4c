//! Values carried in payloads, attributes and targets.
//!
//! Floating point values are held as their IEEE-754 bit patterns; their
//! equality follows the floating point rules, except that two NaNs of a
//! number value are taken as equal.

use vstd::prelude::*;
use crate::copy::DeepCopy;
use crate::text::str_eq;

verus! {

/// A point on a plane: the single precision bit patterns of `x` and `y`.
#[derive(Debug, Clone, Copy, Default, Structural, PartialEq, Eq)]
pub struct Point {
    pub x: u32,
    pub y: u32,
}

impl Point {
    /// The point (`x`, `y`), given as bit patterns.
    pub fn new(x: u32, y: u32) -> (r: Point)
        ensures
            r == (Point { x, y }),
    {
        Point { x, y }
    }
}

/// One data point of a values map.
#[derive(Debug, Clone)]
pub enum Value {
    Integer(i64),
    /// The IEEE-754 double precision bit pattern of the number.
    Number(u64),
    Boolean(bool),
    Point(Point),
    String(String),
}

/// A data point as a mathematical value.
pub enum ValueView {
    Integer(i64),
    Number(u64),
    Boolean(bool),
    Point(u32, u32),
    Text(Seq<char>),
}

impl View for Value {
    type V = ValueView;

    open spec fn view(&self) -> ValueView {
        match self {
            Value::Integer(i) => ValueView::Integer(*i),
            Value::Number(n) => ValueView::Number(*n),
            Value::Boolean(b) => ValueView::Boolean(*b),
            Value::Point(p) => ValueView::Point(p.x, p.y),
            Value::String(s) => ValueView::Text(s@),
        }
    }
}

/// The double precision bit pattern is a NaN.
pub open spec fn f64_is_nan(bits: u64) -> bool {
    (bits & 0x7ff0_0000_0000_0000u64) == 0x7ff0_0000_0000_0000u64 && (bits
        & 0x000f_ffff_ffff_ffffu64) != 0
}

/// Floating point equality of two double precision bit patterns: NaN equals
/// nothing, the two zeros are equal, other values are equal when identical.
pub open spec fn f64_eq(a: u64, b: u64) -> bool {
    &&& !f64_is_nan(a)
    &&& !f64_is_nan(b)
    &&& (a == b || ((a & 0x7fff_ffff_ffff_ffffu64) == 0 && (b & 0x7fff_ffff_ffff_ffffu64) == 0))
}

/// The single precision bit pattern is a NaN.
pub open spec fn f32_is_nan(bits: u32) -> bool {
    (bits & 0x7f80_0000u32) == 0x7f80_0000u32 && (bits & 0x007f_ffffu32) != 0
}

/// Floating point equality of two single precision bit patterns.
pub open spec fn f32_eq(a: u32, b: u32) -> bool {
    &&& !f32_is_nan(a)
    &&& !f32_is_nan(b)
    &&& (a == b || ((a & 0x7fff_ffffu32) == 0 && (b & 0x7fff_ffffu32) == 0))
}

/// Equality of data points: numbers compare as floating point values except
/// that NaN equals NaN; points compare each coordinate as a floating point
/// value; everything else compares exactly.
pub open spec fn value_eq(a: ValueView, b: ValueView) -> bool {
    match (a, b) {
        (ValueView::Integer(x), ValueView::Integer(y)) => x == y,
        (ValueView::Boolean(x), ValueView::Boolean(y)) => x == y,
        (ValueView::Point(x1, y1), ValueView::Point(x2, y2)) => f32_eq(x1, x2) && f32_eq(y1, y2),
        (ValueView::Text(x), ValueView::Text(y)) => x == y,
        (ValueView::Number(x), ValueView::Number(y)) => (f64_is_nan(x) && f64_is_nan(y)) || f64_eq(
            x,
            y,
        ),
        _ => false,
    }
}

fn f64_bits_is_nan(bits: u64) -> (r: bool)
    ensures
        r == f64_is_nan(bits),
{
    (bits & 0x7ff0_0000_0000_0000u64) == 0x7ff0_0000_0000_0000u64 && (bits
        & 0x000f_ffff_ffff_ffffu64) != 0
}

fn f64_bits_eq(a: u64, b: u64) -> (r: bool)
    ensures
        r == f64_eq(a, b),
{
    !f64_bits_is_nan(a) && !f64_bits_is_nan(b) && (a == b || ((a & 0x7fff_ffff_ffff_ffffu64) == 0
        && (b & 0x7fff_ffff_ffff_ffffu64) == 0))
}

fn f32_bits_eq(a: u32, b: u32) -> (r: bool)
    ensures
        r == f32_eq(a, b),
{
    let a_nan = (a & 0x7f80_0000u32) == 0x7f80_0000u32 && (a & 0x007f_ffffu32) != 0;
    let b_nan = (b & 0x7f80_0000u32) == 0x7f80_0000u32 && (b & 0x007f_ffffu32) != 0;
    !a_nan && !b_nan && (a == b || ((a & 0x7fff_ffffu32) == 0 && (b & 0x7fff_ffffu32) == 0))
}

impl Value {
    /// Equality of data points (see `value_eq`).
    pub fn equals(&self, other: &Value) -> (r: bool)
        ensures
            r == value_eq(self@, other@),
    {
        match (self, other) {
            (Value::Integer(x), Value::Integer(y)) => *x == *y,
            (Value::Boolean(x), Value::Boolean(y)) => *x == *y,
            (Value::Point(p), Value::Point(q)) => f32_bits_eq(p.x, q.x) && f32_bits_eq(p.y, q.y),
            (Value::String(x), Value::String(y)) => str_eq(x.as_str(), y.as_str()),
            (Value::Number(x), Value::Number(y)) => (f64_bits_is_nan(*x) && f64_bits_is_nan(*y))
                || f64_bits_eq(*x, *y),
            (Value::Integer(_), _) => false,
            (Value::Boolean(_), _) => false,
            (Value::Point(_), _) => false,
            (Value::String(_), _) => false,
            (Value::Number(_), _) => false,
        }
    }

    /// Bit-for-bit identity of data points.
    pub fn identical(&self, other: &Value) -> (r: bool)
        ensures
            r == (self@ == other@),
    {
        match (self, other) {
            (Value::Integer(x), Value::Integer(y)) => *x == *y,
            (Value::Boolean(x), Value::Boolean(y)) => *x == *y,
            (Value::Point(p), Value::Point(q)) => p.x == q.x && p.y == q.y,
            (Value::String(x), Value::String(y)) => str_eq(x.as_str(), y.as_str()),
            (Value::Number(x), Value::Number(y)) => *x == *y,
            (Value::Integer(_), _) => false,
            (Value::Boolean(_), _) => false,
            (Value::Point(_), _) => false,
            (Value::String(_), _) => false,
            (Value::Number(_), _) => false,
        }
    }

    /// A copy of the data point.
    pub fn duplicate(&self) -> (r: Value)
        ensures
            r@ == self@,
    {
        match self {
            Value::Integer(i) => Value::Integer(*i),
            Value::Number(n) => Value::Number(*n),
            Value::Boolean(b) => Value::Boolean(*b),
            Value::Point(p) => Value::Point(*p),
            Value::String(s) => Value::String(s.clone()),
        }
    }
}

impl PartialEq for Value {
    fn eq(&self, other: &Value) -> (r: bool) {
        self.equals(other)
    }
}

impl vstd::std_specs::cmp::PartialEqSpecImpl for Value {
    open spec fn obeys_eq_spec() -> bool {
        true
    }

    open spec fn eq_spec(&self, other: &Value) -> bool {
        value_eq(self@, other@)
    }
}

impl Eq for Value {}

/// Every data point equals itself, NaN numbers included, except a point
/// with a NaN coordinate.
pub proof fn lemma_value_eq_reflexive(a: ValueView)
    requires
        !(a matches ValueView::Point(x, y) && (f32_is_nan(x) || f32_is_nan(y))),
    ensures
        value_eq(a, a),
{
}

/// Equality of data points is symmetric and transitive.
pub proof fn lemma_value_eq_equivalence(a: ValueView, b: ValueView, c: ValueView)
    ensures
        value_eq(a, b) == value_eq(b, a),
        value_eq(a, b) && value_eq(b, c) ==> value_eq(a, c),
{
    assert(forall|x: u64| #![auto] (x & 0x7fff_ffff_ffff_ffffu64) == 0 ==> !f64_is_nan(x))
        by (bit_vector);
}

/// Copies a sequence of data points.
pub fn duplicate_values(values: &Vec<Value>) -> (r: Vec<Value>)
    ensures
        r@.len() == values@.len(),
        forall|i: int| 0 <= i < values@.len() ==> #[trigger] r@[i]@ == values@[i]@,
{
    let mut r: Vec<Value> = Vec::new();
    let mut i: usize = 0;
    while i < values.len()
        invariant
            i <= values@.len(),
            r@.len() == i,
            forall|j: int| 0 <= j < i ==> #[trigger] r@[j]@ == values@[j]@,
        decreases values@.len() - i,
    {
        r.push(values[i].duplicate());
        i = i + 1;
    }
    r
}

/// Compares two sequences of data points bit for bit.
pub fn identical_values(a: &Vec<Value>, b: &Vec<Value>) -> (r: bool)
    ensures
        r == (a@.map_values(|v: Value| v@) == b@.map_values(|v: Value| v@)),
{
    if a.len() != b.len() {
        assert(a@.map_values(|v: Value| v@).len() != b@.map_values(|v: Value| v@).len());
        return false;
    }
    let mut i: usize = 0;
    while i < a.len()
        invariant
            i <= a@.len(),
            a@.len() == b@.len(),
            forall|j: int| 0 <= j < i ==> #[trigger] a@[j]@ == b@[j]@,
        decreases a@.len() - i,
    {
        if !a[i].identical(&b[i]) {
            assert(a@.map_values(|v: Value| v@)[i as int] != b@.map_values(|v: Value| v@)[i as int]);
            return false;
        }
        i = i + 1;
    }
    assert(a@.map_values(|v: Value| v@) =~= b@.map_values(|v: Value| v@));
    true
}

/// The kind of the values of a values map (1..=128 characters on the wire).
#[derive(Debug, Clone, PartialEq, Eq)]
pub struct ValueType(pub String);

/// One or more values associated with a type, e.g. a single price.
#[derive(Debug, Clone, PartialEq)]
pub struct ValuesMap {
    pub value_type: ValueType,
    pub values: Vec<Value>,
}


impl DeepView for Value {
    type V = ValueView;

    open spec fn deep_view(&self) -> ValueView {
        self@
    }
}

impl DeepCopy for Value {
    fn deep_copy(&self) -> (r: Self) {
        self.duplicate()
    }
}

impl DeepView for ValueType {
    type V = Seq<char>;

    open spec fn deep_view(&self) -> Seq<char> {
        self.0@
    }
}

impl DeepCopy for ValueType {
    fn deep_copy(&self) -> (r: Self) {
        ValueType(self.0.clone())
    }
}

impl DeepView for ValuesMap {
    type V = (Seq<char>, Seq<ValueView>);

    open spec fn deep_view(&self) -> (Seq<char>, Seq<ValueView>) {
        (self.value_type.deep_view(), self.values.deep_view())
    }
}

impl DeepCopy for ValuesMap {
    fn deep_copy(&self) -> (r: Self) {
        ValuesMap { value_type: self.value_type.deep_copy(), values: self.values.deep_copy() }
    }
}

} // verus!
