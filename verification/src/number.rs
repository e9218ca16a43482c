//! Floating-point numbers of a document.
//!
//! Verus does not compute with floats. A [`Real`] is a JSON number made
//! elsewhere and carried through unchanged; what this library reads of it is
//! its IEEE 754 binary64 bit pattern.

use crate::encode::ToJson;
use crate::json::{clone_value, decimal_bits, is_real, json_of, parse_value, real_bits, Json};
use vstd::pervasive::unreached;
use vstd::prelude::*;

verus! {

/// Bit pattern of positive zero.
pub const ZERO_BITS: u64 = 0x0000_0000_0000_0000;

/// Bit pattern of negative zero, which compares equal to positive zero.
pub const NEGATIVE_ZERO_BITS: u64 = 0x8000_0000_0000_0000;

/// Bit pattern of one half.
pub const HALF_BITS: u64 = 0x3fe0_0000_0000_0000;

/// Bit pattern of one.
pub const ONE_BITS: u64 = 0x3ff0_0000_0000_0000;

/// Whether the finite floats with bit patterns `a` and `b` compare equal:
/// their bits agree, or both are a zero of either sign.
pub open spec fn same_number(a: u64, b: u64) -> bool {
    a == b || ((a == ZERO_BITS || a == NEGATIVE_ZERO_BITS) && (b == ZERO_BITS || b
        == NEGATIVE_ZERO_BITS))
}

/// The three literals that name a schema default, and the floats they read as.
pub proof fn lemma_default_literals()
    ensures
        decimal_bits("0.0"@) == Some(ZERO_BITS),
        decimal_bits("0.5"@) == Some(HALF_BITS),
        decimal_bits("1.0"@) == Some(ONE_BITS),
{
    reveal_strlit("0.0");
    reveal_strlit("0.5");
    reveal_strlit("1.0");
    assert("0.5"@[2] != "0.0"@[2]);
    assert("1.0"@[0] != "0.0"@[0]);
    assert("1.0"@[0] != "0.5"@[0]);
}

/// A finite floating-point number.
pub struct Real {
    value: serde_json::Value,
    bits: u64,
}

impl Real {
    #[verifier::type_invariant]
    spec fn well_formed(self) -> bool {
        json_of(self.value) == Json::Real(self.bits)
    }

    /// Whether the number compares equal to the float with bit pattern `bits`.
    pub open spec fn equals(&self, bits: u64) -> bool {
        same_number(self@, bits)
    }

    /// Takes a JSON value that is a floating-point number; any other value is
    /// turned down.
    pub fn new(value: serde_json::Value) -> (r: Option<Real>)
        ensures
            match json_of(value) {
                Json::Real(bits) => r matches Some(x) && x@ == bits,
                _ => r is None,
            },
    {
        if !is_real(&value) {
            return None;
        }
        match real_bits(&value) {
            Some(bits) => Some(Real { value, bits }),
            None => None,
        }
    }

    /// The number zero.
    pub fn zero() -> (r: Real)
        ensures
            r@ == ZERO_BITS,
    {
        proof {
            lemma_default_literals();
        }
        match parse_value("0.0") {
            Some(value) => Real { value, bits: ZERO_BITS },
            None => unreached(),
        }
    }

    /// The number one half.
    pub fn half() -> (r: Real)
        ensures
            r@ == HALF_BITS,
    {
        proof {
            lemma_default_literals();
        }
        match parse_value("0.5") {
            Some(value) => Real { value, bits: HALF_BITS },
            None => unreached(),
        }
    }

    /// The number one.
    pub fn one() -> (r: Real)
        ensures
            r@ == ONE_BITS,
    {
        proof {
            lemma_default_literals();
        }
        match parse_value("1.0") {
            Some(value) => Real { value, bits: ONE_BITS },
            None => unreached(),
        }
    }

    /// The bit pattern of the number.
    pub fn to_bits(&self) -> (r: u64)
        ensures
            r == self@,
    {
        self.bits
    }

    /// Whether the number compares equal to the float with bit pattern `bits`.
    pub fn is(&self, bits: u64) -> (r: bool)
        ensures
            r == self.equals(bits),
    {
        let a = self.bits;
        a == bits || ((a == ZERO_BITS || a == NEGATIVE_ZERO_BITS) && (bits == ZERO_BITS || bits
            == NEGATIVE_ZERO_BITS))
    }

}

/// A number is seen as its IEEE 754 binary64 bit pattern.
impl View for Real {
    type V = u64;

    closed spec fn view(&self) -> u64 {
        self.bits
    }
}

impl ToJson for Real {
    open spec fn json(&self) -> Json {
        Json::Real(self@)
    }

    fn to_value(&self) -> (v: serde_json::Value) {
        let v = clone_value(&self.value);
        proof {
            use_type_invariant(self);
            assert(self.json() == Json::Real(self.bits));
        }
        v
    }
}

/// Two numbers are equal when they compare equal as floats: a zero of either
/// sign equals a zero of either sign.
impl PartialEq for Real {
    fn eq(&self, other: &Self) -> (r: bool) {
        self.is(other.bits)
    }
}

impl vstd::std_specs::cmp::PartialEqSpecImpl for Real {
    open spec fn obeys_eq_spec() -> bool {
        true
    }

    open spec fn eq_spec(&self, other: &Self) -> bool {
        same_number(self@, other@)
    }
}

impl Clone for Real {
    fn clone(&self) -> (r: Self)
        ensures
            r@ == self@,
    {
        proof {
            use_type_invariant(self);
        }
        Real { value: clone_value(&self.value), bits: self.bits }
    }
}

} // verus!
