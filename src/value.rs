use crate::host::Host;
use vstd::prelude::*;

verus! {

/// Weight of the sign bit of an IEEE-754 binary64 pattern.
pub open spec fn sign_weight() -> int {
    0x8000_0000_0000_0000
}

/// Bit pattern of positive infinity; every larger magnitude is a NaN.
pub open spec fn infinity_bits() -> int {
    0x7FF0_0000_0000_0000
}

/// The bits of a pattern other than the sign.
pub open spec fn magnitude(b: u64) -> int {
    if b >= sign_weight() {
        b - sign_weight()
    } else {
        b as int
    }
}

pub open spec fn is_nan(b: u64) -> bool {
    magnitude(b) > infinity_bits()
}

/// Position of a non-NaN pattern on the number line, both zeros at 0.
pub open spec fn order_key(b: u64) -> int {
    if b >= sign_weight() {
        -magnitude(b)
    } else {
        b as int
    }
}

/// `a < b` for binary64 numbers given by their bits.
pub open spec fn num_lt(a: u64, b: u64) -> bool {
    !is_nan(a) && !is_nan(b) && order_key(a) < order_key(b)
}

/// `a <= b` for binary64 numbers given by their bits.
pub open spec fn num_le(a: u64, b: u64) -> bool {
    !is_nan(a) && !is_nan(b) && order_key(a) <= order_key(b)
}

/// `a == b` for binary64 numbers: NaN equals nothing, the two zeros are equal.
pub open spec fn num_eq(a: u64, b: u64) -> bool {
    !is_nan(a) && !is_nan(b) && order_key(a) == order_key(b)
}

/// `x > 0.0`: neither zero, nor negative, nor NaN.
pub open spec fn num_positive(b: u64) -> bool {
    0 < b <= infinity_bits()
}

/// The pattern of `-x`: the sign bit flipped.
pub open spec fn negated(b: u64) -> u64 {
    if b >= sign_weight() {
        (b - sign_weight()) as u64
    } else {
        (b + sign_weight()) as u64
    }
}

pub const ZERO_BITS: u64 = 0;

pub const ONE_BITS: u64 = 0x3FF0_0000_0000_0000;

const SIGN_BIT: u64 = 0x8000_0000_0000_0000;

const INFINITY_BITS: u64 = 0x7FF0_0000_0000_0000;

/// A double-precision number, held as its IEEE-754 binary64 bit pattern.
/// Comparison, negation and truthiness are decided here on the bits;
/// arithmetic, parsing and formatting come from the host (see `host`).
#[derive(Clone, Copy, Debug)]
pub struct Number {
    pub bits: u64,
}

impl Number {
    pub fn from_bits(bits: u64) -> (r: Number)
        ensures
            r.bits == bits,
    {
        Number { bits }
    }

    pub fn zero() -> (r: Number)
        ensures
            r.bits == ZERO_BITS,
    {
        Number { bits: ZERO_BITS }
    }

    pub fn one() -> (r: Number)
        ensures
            r.bits == ONE_BITS,
    {
        Number { bits: ONE_BITS }
    }

    pub fn is_nan(&self) -> (r: bool)
        ensures
            r == is_nan(self.bits),
    {
        let m: u64 = if self.bits >= SIGN_BIT { self.bits - SIGN_BIT } else { self.bits };
        m > INFINITY_BITS
    }

    /// `self > 0.0`.
    pub fn is_positive(&self) -> (r: bool)
        ensures
            r == num_positive(self.bits),
    {
        0 < self.bits && self.bits <= INFINITY_BITS
    }

    pub fn negate(&self) -> (r: Number)
        ensures
            r.bits == negated(self.bits),
    {
        if self.bits >= SIGN_BIT {
            Number { bits: self.bits - SIGN_BIT }
        } else {
            Number { bits: self.bits + SIGN_BIT }
        }
    }

    /// Compares two non-NaN numbers: -1, 0 or 1 by their order keys.
    fn compare_ordered(&self, other: &Number) -> (r: i8)
        requires
            !is_nan(self.bits),
            !is_nan(other.bits),
        ensures
            r == -1 <==> order_key(self.bits) < order_key(other.bits),
            r == 0 <==> order_key(self.bits) == order_key(other.bits),
            r == 1 <==> order_key(self.bits) > order_key(other.bits),
    {
        let a_neg = self.bits >= SIGN_BIT;
        let b_neg = other.bits >= SIGN_BIT;
        let a_mag: u64 = if a_neg { self.bits - SIGN_BIT } else { self.bits };
        let b_mag: u64 = if b_neg { other.bits - SIGN_BIT } else { other.bits };
        if a_mag == 0 && b_mag == 0 {
            0
        } else if a_neg && !b_neg {
            -1
        } else if !a_neg && b_neg {
            1
        } else if a_neg {
            if a_mag > b_mag { -1 } else if a_mag == b_mag { 0 } else { 1 }
        } else {
            if a_mag < b_mag { -1 } else if a_mag == b_mag { 0 } else { 1 }
        }
    }

    pub fn lt(&self, other: &Number) -> (r: bool)
        ensures
            r == num_lt(self.bits, other.bits),
    {
        !self.is_nan() && !other.is_nan() && self.compare_ordered(other) == -1
    }

    pub fn le(&self, other: &Number) -> (r: bool)
        ensures
            r == num_le(self.bits, other.bits),
    {
        !self.is_nan() && !other.is_nan() && self.compare_ordered(other) != 1
    }

    pub fn num_eq(&self, other: &Number) -> (r: bool)
        ensures
            r == num_eq(self.bits, other.bits),
    {
        !self.is_nan() && !other.is_nan() && self.compare_ordered(other) == 0
    }
}

/// A runtime datum.
#[derive(Clone, Debug)]
pub enum Value {
    Null,
    String(String),
    Number(Number),
}

/// What a value is, with text as a sequence of characters and a number as
/// its bit pattern.
pub enum ValueModel {
    Null,
    Text(Seq<char>),
    Number(u64),
}

impl View for Value {
    type V = ValueModel;

    open spec fn view(&self) -> ValueModel {
        match self {
            Value::Null => ValueModel::Null,
            Value::String(s) => ValueModel::Text(s@),
            Value::Number(n) => ValueModel::Number(n.bits),
        }
    }
}

/// Truthiness: `Null` is false, text is true when non-empty, a number when
/// strictly greater than zero.
pub open spec fn truthy(v: ValueModel) -> bool {
    match v {
        ValueModel::Null => false,
        ValueModel::Text(s) => s.len() > 0,
        ValueModel::Number(n) => num_positive(n),
    }
}

pub open spec fn bool_model(b: bool) -> ValueModel {
    ValueModel::Number(if b { ONE_BITS } else { ZERO_BITS })
}

/// Structural equality: same variant and same content, numbers compared as
/// doubles.
pub open spec fn value_eq(a: ValueModel, b: ValueModel) -> bool {
    match (a, b) {
        (ValueModel::Null, ValueModel::Null) => true,
        (ValueModel::Text(s), ValueModel::Text(t)) => s == t,
        (ValueModel::Number(m), ValueModel::Number(n)) => num_eq(m, n),
        _ => false,
    }
}

/// `Null` is zero, text the number it spells (zero where it spells none), a
/// number itself.
pub open spec fn number_of<H: Host>(h: H, v: ValueModel) -> u64 {
    match v {
        ValueModel::Null => ZERO_BITS,
        ValueModel::Text(s) => match h.parse_of(s) {
            Some(n) => n,
            None => ZERO_BITS,
        },
        ValueModel::Number(n) => n,
    }
}

/// `Null` is empty text, text itself, a number its decimal form.
pub open spec fn text_of<H: Host>(h: H, v: ValueModel) -> Seq<char> {
    match v {
        ValueModel::Null => Seq::empty(),
        ValueModel::Text(s) => s,
        ValueModel::Number(n) => h.text_of(n),
    }
}

impl Value {
    /// `Null` is zero, text is parsed as a float literal (zero where it is
    /// none), a number is itself.
    pub fn to_number<H: Host>(&self, host: &H) -> (r: Number)
        ensures
            r.bits == number_of(*host, self@),
    {
        match self {
            Value::Null => Number::zero(),
            Value::String(s) => match host.parse_number(s.as_str()) {
                Some(n) => n,
                None => Number::zero(),
            },
            Value::Number(n) => *n,
        }
    }

    /// `Null` is empty text, text is itself, a number its decimal form.
    pub fn to_string<H: Host>(&self, host: &H) -> (r: String)
        ensures
            r@ == text_of(*host, self@),
    {
        match self {
            Value::Null => String::new(),
            Value::String(s) => s.clone(),
            Value::Number(n) => host.number_text(*n),
        }
    }

    pub fn to_bool(&self) -> (r: bool)
        ensures
            r == truthy(self@),
    {
        match self {
            Value::Null => false,
            Value::String(s) => !s.as_str().is_empty(),
            Value::Number(n) => n.is_positive(),
        }
    }

    pub fn from_bool(bl: bool) -> (r: Value)
        ensures
            r@ == bool_model(bl),
    {
        if bl {
            Value::Number(Number::one())
        } else {
            Value::Number(Number::zero())
        }
    }

    /// A copy that keeps the content.
    pub fn clone_value(&self) -> (r: Value)
        ensures
            r@ == self@,
    {
        match self {
            Value::Null => Value::Null,
            Value::String(s) => Value::String(s.clone()),
            Value::Number(n) => Value::Number(*n),
        }
    }

    pub fn equals(&self, other: &Value) -> (r: bool)
        ensures
            r == value_eq(self@, other@),
    {
        match (self, other) {
            (Value::Null, Value::Null) => true,
            (Value::String(s), Value::String(t)) => s.eq(t),
            (Value::Number(m), Value::Number(n)) => m.num_eq(n),
            _ => false,
        }
    }
}

impl PartialEq for Value {
    fn eq(&self, other: &Value) -> (r: bool) {
        self.equals(other)
    }
}

impl vstd::std_specs::cmp::PartialEqSpecImpl for Value {
    open spec fn obeys_eq_spec() -> bool {
        false
    }

    open spec fn eq_spec(&self, other: &Value) -> bool {
        value_eq(self@, other@)
    }
}

/// Coercing a value to a boolean, to a number and back to a boolean gives the
/// same boolean.
pub proof fn lemma_bool_round_trip(v: ValueModel)
    ensures
        truthy(bool_model(truthy(v))) == truthy(v),
{
}

/// Zero and every negative number are false; every number above zero is true.
pub proof fn lemma_number_truthiness(n: u64)
    ensures
        truthy(ValueModel::Number(n)) <==> num_lt(ZERO_BITS, n),
        n == ZERO_BITS ==> !truthy(ValueModel::Number(n)),
        num_lt(n, ZERO_BITS) ==> !truthy(ValueModel::Number(n)),
{
}

} // verus!
