//! Scalars: the single values that aggregates start from, combine and give.
//!
//! A scalar is either the null marker or one integer of a fixed width.
//! Arithmetic is defined between two scalars of the same kind only; it wraps
//! on overflow, as the column kernels do.

use crate::batch::ColumnKind;
use vstd::arithmetic::div_mod::lemma_add_mod_noop_right;
use vstd::arithmetic::div_mod::lemma_mod_add_multiples_vanish;
use vstd::arithmetic::div_mod::lemma_mod_bound;
use vstd::arithmetic::div_mod::lemma_mod_sub_multiples_vanish;
use vstd::arithmetic::div_mod::lemma_small_mod;
use vstd::prelude::*;

verus! {

/// A single value, or none.
#[derive(Clone, Copy, Debug, PartialEq, Eq, Structural)]
pub enum ScalarValue {
    /// The null marker: no value, of no kind.
    Null,
    Int8(i8),
    Int16(i16),
    Int32(i32),
    Int64(i64),
    UInt8(u8),
    UInt16(u16),
    UInt32(u32),
    UInt64(u64),
}

impl ScalarValue {
    /// The kind of the scalar; none for the null marker.
    pub open spec fn kind(self) -> Option<ColumnKind> {
        match self {
            ScalarValue::Null => None,
            ScalarValue::Int8(_) => Some(ColumnKind::Int8),
            ScalarValue::Int16(_) => Some(ColumnKind::Int16),
            ScalarValue::Int32(_) => Some(ColumnKind::Int32),
            ScalarValue::Int64(_) => Some(ColumnKind::Int64),
            ScalarValue::UInt8(_) => Some(ColumnKind::UInt8),
            ScalarValue::UInt16(_) => Some(ColumnKind::UInt16),
            ScalarValue::UInt32(_) => Some(ColumnKind::UInt32),
            ScalarValue::UInt64(_) => Some(ColumnKind::UInt64),
        }
    }

    /// The integer that the scalar holds; zero for the null marker.
    pub open spec fn value(self) -> int {
        match self {
            ScalarValue::Null => 0,
            ScalarValue::Int8(v) => v as int,
            ScalarValue::Int16(v) => v as int,
            ScalarValue::Int32(v) => v as int,
            ScalarValue::Int64(v) => v as int,
            ScalarValue::UInt8(v) => v as int,
            ScalarValue::UInt16(v) => v as int,
            ScalarValue::UInt32(v) => v as int,
            ScalarValue::UInt64(v) => v as int,
        }
    }

    /// The scalar of kind `kind` that holds `value`; the null marker where
    /// `kind` is no integer kind.
    pub open spec fn of(kind: ColumnKind, value: int) -> ScalarValue
        recommends
            kind.holds(value),
    {
        match kind {
            ColumnKind::Int8 => ScalarValue::Int8(value as i8),
            ColumnKind::Int16 => ScalarValue::Int16(value as i16),
            ColumnKind::Int32 => ScalarValue::Int32(value as i32),
            ColumnKind::Int64 => ScalarValue::Int64(value as i64),
            ColumnKind::UInt8 => ScalarValue::UInt8(value as u8),
            ColumnKind::UInt16 => ScalarValue::UInt16(value as u16),
            ColumnKind::UInt32 => ScalarValue::UInt32(value as u32),
            ColumnKind::UInt64 => ScalarValue::UInt64(value as u64),
            _ => ScalarValue::Null,
        }
    }

    /// The sum of two scalars of one kind, wrapped to that kind; none where
    /// the two are of different kinds or one of them is the null marker.
    pub open spec fn sum(self, other: ScalarValue) -> Option<ScalarValue> {
        match self.kind() {
            Some(kind) if other.kind() == Some(kind) => Some(
                ScalarValue::of(kind, kind.wrap(self.value() + other.value())),
            ),
            _ => None,
        }
    }

    /// Whether the two scalars are of one kind and `self` holds the smaller
    /// integer. Scalars of different kinds are not ordered, and the null
    /// marker is below nothing and above nothing.
    pub open spec fn below(self, other: ScalarValue) -> bool {
        self.kind() is Some && self.kind() == other.kind() && self.value() < other.value()
    }

    /// Whether this is the null marker.
    pub fn is_null(&self) -> (r: bool)
        ensures
            r == (*self is Null),
            r == (self.kind() is None),
    {
        match self {
            ScalarValue::Null => true,
            _ => false,
        }
    }

    /// The kind of the scalar; none for the null marker.
    pub fn data_kind(&self) -> (kind: Option<ColumnKind>)
        ensures
            kind == self.kind(),
    {
        match self {
            ScalarValue::Null => None,
            ScalarValue::Int8(_) => Some(ColumnKind::Int8),
            ScalarValue::Int16(_) => Some(ColumnKind::Int16),
            ScalarValue::Int32(_) => Some(ColumnKind::Int32),
            ScalarValue::Int64(_) => Some(ColumnKind::Int64),
            ScalarValue::UInt8(_) => Some(ColumnKind::UInt8),
            ScalarValue::UInt16(_) => Some(ColumnKind::UInt16),
            ScalarValue::UInt32(_) => Some(ColumnKind::UInt32),
            ScalarValue::UInt64(_) => Some(ColumnKind::UInt64),
        }
    }

    /// Adds two scalars of one kind, wrapping on overflow. Gives nothing
    /// where the two are of different kinds or one is the null marker.
    pub fn add_wrapping(&self, other: &ScalarValue) -> (r: Option<ScalarValue>)
        ensures
            r == self.sum(*other),
            r matches Some(s) ==> s.kind() == self.kind() && (self.kind()->0.holds(
                self.value() + other.value(),
            ) ==> s.value() == self.value() + other.value()),
    {
        match (*self, *other) {
            (ScalarValue::Int8(a), ScalarValue::Int8(b)) => {
                proof {
                    lemma_wrap_near(ColumnKind::Int8, a + b);
                }
                Some(ScalarValue::Int8(a.wrapping_add(b)))
            },
            (ScalarValue::Int16(a), ScalarValue::Int16(b)) => {
                proof {
                    lemma_wrap_near(ColumnKind::Int16, a + b);
                }
                Some(ScalarValue::Int16(a.wrapping_add(b)))
            },
            (ScalarValue::Int32(a), ScalarValue::Int32(b)) => {
                proof {
                    lemma_wrap_near(ColumnKind::Int32, a + b);
                }
                Some(ScalarValue::Int32(a.wrapping_add(b)))
            },
            (ScalarValue::Int64(a), ScalarValue::Int64(b)) => {
                proof {
                    lemma_wrap_near(ColumnKind::Int64, a + b);
                }
                Some(ScalarValue::Int64(a.wrapping_add(b)))
            },
            (ScalarValue::UInt8(a), ScalarValue::UInt8(b)) => {
                proof {
                    lemma_wrap_near(ColumnKind::UInt8, a + b);
                }
                Some(ScalarValue::UInt8(a.wrapping_add(b)))
            },
            (ScalarValue::UInt16(a), ScalarValue::UInt16(b)) => {
                proof {
                    lemma_wrap_near(ColumnKind::UInt16, a + b);
                }
                Some(ScalarValue::UInt16(a.wrapping_add(b)))
            },
            (ScalarValue::UInt32(a), ScalarValue::UInt32(b)) => {
                proof {
                    lemma_wrap_near(ColumnKind::UInt32, a + b);
                }
                Some(ScalarValue::UInt32(a.wrapping_add(b)))
            },
            (ScalarValue::UInt64(a), ScalarValue::UInt64(b)) => {
                proof {
                    lemma_wrap_near(ColumnKind::UInt64, a + b);
                }
                Some(ScalarValue::UInt64(a.wrapping_add(b)))
            },
            _ => None,
        }
    }

    /// Whether the two scalars are of one kind and `self` holds the smaller
    /// integer.
    pub fn less_than(&self, other: &ScalarValue) -> (r: bool)
        ensures
            r == self.below(*other),
    {
        match (*self, *other) {
            (ScalarValue::Int8(a), ScalarValue::Int8(b)) => a < b,
            (ScalarValue::Int16(a), ScalarValue::Int16(b)) => a < b,
            (ScalarValue::Int32(a), ScalarValue::Int32(b)) => a < b,
            (ScalarValue::Int64(a), ScalarValue::Int64(b)) => a < b,
            (ScalarValue::UInt8(a), ScalarValue::UInt8(b)) => a < b,
            (ScalarValue::UInt16(a), ScalarValue::UInt16(b)) => a < b,
            (ScalarValue::UInt32(a), ScalarValue::UInt32(b)) => a < b,
            (ScalarValue::UInt64(a), ScalarValue::UInt64(b)) => a < b,
            _ => false,
        }
    }
}

/// Wrapping spelled out for a value that lies in the kind's range or within
/// one modulus of it: such a value is kept, or moved by one modulus.
pub proof fn lemma_wrap_near(kind: ColumnKind, value: int)
    requires
        kind.is_integer(),
        kind.min_value() - kind.modulus() <= value < kind.min_value() + 2 * kind.modulus(),
    ensures
        kind.wrap(value) == if value > kind.max_value() {
            value - kind.modulus()
        } else if value < kind.min_value() {
            value + kind.modulus()
        } else {
            value
        },
{
    let m = kind.modulus();
    let d = value - kind.min_value();
    if d >= m {
        lemma_mod_sub_multiples_vanish(d, m);
        lemma_small_mod((d - m) as nat, m as nat);
    } else if d < 0 {
        lemma_mod_add_multiples_vanish(d, m);
        lemma_small_mod((d + m) as nat, m as nat);
    } else {
        lemma_small_mod(d as nat, m as nat);
    }
}

/// A value of an integer kind is its own wrapping, and the scalar made of it
/// holds it.
pub proof fn lemma_of_value(kind: ColumnKind, value: int)
    requires
        kind.holds(value),
    ensures
        kind.wrap(value) == value,
        ScalarValue::of(kind, value).kind() == Some(kind),
        ScalarValue::of(kind, value).value() == value,
{
    lemma_wrap_near(kind, value);
}

/// Wrapping lands within the kind, and the scalar made of a wrapped value
/// holds it.
pub proof fn lemma_wrap_holds(kind: ColumnKind, value: int)
    requires
        kind.is_integer(),
    ensures
        kind.holds(kind.wrap(value)),
        ScalarValue::of(kind, kind.wrap(value)).kind() == Some(kind),
        ScalarValue::of(kind, kind.wrap(value)).value() == kind.wrap(value),
{
    lemma_mod_bound(value - kind.min_value(), kind.modulus());
}

/// Wrapping a sum is the same whether or not its terms were wrapped before.
pub proof fn lemma_wrap_sum(kind: ColumnKind, a: int, b: int)
    requires
        kind.is_integer(),
    ensures
        kind.wrap(kind.wrap(a) + kind.wrap(b)) == kind.wrap(a + b),
        kind.wrap(kind.wrap(a) + b) == kind.wrap(a + b),
{
    let m = kind.modulus();
    let lo = kind.min_value();
    let x = (a - lo) % m;
    lemma_add_mod_noop_right(b, a - lo, m);
    assert(kind.wrap(a) + b - lo == b + x);
    assert(b + (a - lo) == a + b - lo);
    lemma_add_mod_noop_right(x + lo, b - lo, m);
    assert(kind.wrap(a) + kind.wrap(b) - lo == (x + lo) + (b - lo) % m);
    assert((x + lo) + (b - lo) == b + x);
}

/// The sum of two scalars of one kind does not depend on their order, and
/// the sum of three does not depend on which two are added first.
pub proof fn lemma_sum_regroups(a: ScalarValue, b: ScalarValue, c: ScalarValue)
    requires
        a.kind() is Some,
        a.kind() == b.kind(),
        b.kind() == c.kind(),
    ensures
        a.sum(b) is Some,
        a.sum(b) == b.sum(a),
        a.sum(b)->0.sum(c) == a.sum(b.sum(c)->0),
{
    let kind = a.kind()->0;
    let (x, y, z) = (a.value(), b.value(), c.value());
    lemma_wrap_holds(kind, x + y);
    lemma_wrap_holds(kind, y + z);
    lemma_wrap_sum(kind, x + y, z);
    lemma_wrap_sum(kind, y + z, x);
    assert(x + kind.wrap(y + z) == kind.wrap(y + z) + x);
    assert((x + y) + z == (y + z) + x);
}

} // verus!
