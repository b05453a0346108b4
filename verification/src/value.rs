//! Runtime values and the constant pool.
//!
//! A value is an IEEE-754 double-precision number, held as its 64-bit bit
//! pattern so that every function here works on plain integers. Negation is
//! a sign-bit flip and is implemented directly; the four binary operations
//! are carried out in software by `rustc_apfloat` behind trusted wrappers,
//! each named by an uninterpreted function of the operand bit patterns.

use vstd::prelude::*;

use rustc_apfloat::Float;

verus! {

/// A runtime value: the bit pattern of an IEEE-754 binary64 number.
pub type Value = u64;

/// The sign bit of an IEEE-754 binary64 bit pattern.
pub const SIGN_BIT: u64 = 0x8000_0000_0000_0000;

/// IEEE-754 negation of a binary64 bit pattern: flip the sign bit, leave
/// everything else (including NaN payloads) untouched.
pub open spec fn negate_bits(v: u64) -> u64 {
    v ^ SIGN_BIT
}

/// The bit pattern of the IEEE-754 binary64 sum of two bit patterns
/// (round to nearest, ties to even).
pub uninterp spec fn add_bits(a: u64, b: u64) -> u64;

/// The bit pattern of the IEEE-754 binary64 difference of two bit patterns
/// (round to nearest, ties to even).
pub uninterp spec fn sub_bits(a: u64, b: u64) -> u64;

/// The bit pattern of the IEEE-754 binary64 product of two bit patterns
/// (round to nearest, ties to even).
pub uninterp spec fn mul_bits(a: u64, b: u64) -> u64;

/// The bit pattern of the IEEE-754 binary64 quotient of two bit patterns
/// (round to nearest, ties to even); division by zero yields an infinity or
/// NaN bit pattern, never a fault.
pub uninterp spec fn div_bits(a: u64, b: u64) -> u64;

/// The human-readable rendering of a binary64 bit pattern.
pub uninterp spec fn rendered(v: u64) -> Seq<char>;

/// IEEE-754 negation, implemented as the sign-bit flip it is defined to be.
pub fn value_negate(v: Value) -> (r: Value)
    ensures
        r == negate_bits(v),
{
    v ^ SIGN_BIT
}

/// Relies on `rustc_apfloat::ieee::Double`'s `+` operator (`Float::add_r`
/// with round-to-nearest-even): IEEE-754 binary64 addition, a deterministic
/// function of the two operand bit patterns.
#[verifier::external_body]
pub(crate) fn value_add(a: Value, b: Value) -> (r: Value)
    ensures
        r == add_bits(a, b),
{
    let x = rustc_apfloat::ieee::Double::from_bits(a as u128);
    let y = rustc_apfloat::ieee::Double::from_bits(b as u128);
    (x + y).value.to_bits() as u64
}

/// Relies on `rustc_apfloat::ieee::Double`'s `-` operator (`Float::sub_r`
/// with round-to-nearest-even): IEEE-754 binary64 subtraction, a
/// deterministic function of the two operand bit patterns.
#[verifier::external_body]
pub(crate) fn value_subtract(a: Value, b: Value) -> (r: Value)
    ensures
        r == sub_bits(a, b),
{
    let x = rustc_apfloat::ieee::Double::from_bits(a as u128);
    let y = rustc_apfloat::ieee::Double::from_bits(b as u128);
    (x - y).value.to_bits() as u64
}

/// Relies on `rustc_apfloat::ieee::Double`'s `*` operator (`Float::mul_r`
/// with round-to-nearest-even): IEEE-754 binary64 multiplication, a
/// deterministic function of the two operand bit patterns.
#[verifier::external_body]
pub(crate) fn value_multiply(a: Value, b: Value) -> (r: Value)
    ensures
        r == mul_bits(a, b),
{
    let x = rustc_apfloat::ieee::Double::from_bits(a as u128);
    let y = rustc_apfloat::ieee::Double::from_bits(b as u128);
    (x * y).value.to_bits() as u64
}

/// Relies on `rustc_apfloat::ieee::Double`'s `/` operator (`Float::div_r`
/// with round-to-nearest-even): IEEE-754 binary64 division, a deterministic
/// function of the two operand bit patterns; a zero divisor produces an
/// infinity or NaN result value, not a fault.
#[verifier::external_body]
pub(crate) fn value_divide(a: Value, b: Value) -> (r: Value)
    ensures
        r == div_bits(a, b),
{
    let x = rustc_apfloat::ieee::Double::from_bits(a as u128);
    let y = rustc_apfloat::ieee::Double::from_bits(b as u128);
    (x / y).value.to_bits() as u64
}

/// Relies on the `Display` impl of `rustc_apfloat::ieee::Double`: the text
/// ("+Inf", "-Inf", "NaN", or a decimal numeral) is computed from the bit
/// pattern alone.
#[verifier::external_body]
pub(crate) fn render_value(v: Value) -> (r: String)
    ensures
        r@ == rendered(v),
{
    format!("{}", rustc_apfloat::ieee::Double::from_bits(v as u128))
}

/// An append-only pool of constants, referenced by index from CONSTANT
/// instructions. Indices are stable once assigned: the pool only grows.
pub struct ValuePool {
    pub values: Vec<Value>,
}

impl ValuePool {
    /// An empty pool.
    pub fn new() -> (pool: ValuePool)
        ensures
            pool.values@.len() == 0,
    {
        ValuePool { values: Vec::new() }
    }

    /// Number of values held.
    pub fn len(&self) -> (n: usize)
        ensures
            n == self.values@.len(),
    {
        self.values.len()
    }

    /// Append `value` and return the index it was assigned: the pool's
    /// length just before the append. Earlier entries are untouched.
    pub fn append(&mut self, value: Value) -> (index: usize)
        ensures
            final(self).values@ == old(self).values@.push(value),
            index == old(self).values@.len(),
    {
        let index = self.values.len();
        self.values.push(value);
        index
    }

    /// Read the value at `index`; the index must be in range (an
    /// out-of-range index is only reachable through a malformed chunk).
    pub fn read(&self, index: usize) -> (v: Value)
        requires
            index < self.values@.len(),
        ensures
            v == self.values@[index as int],
    {
        self.values[index]
    }

    /// Render the value at `index` as human-readable text, for disassembly
    /// and debug output only.
    pub fn render(&self, index: usize) -> (r: String)
        requires
            index < self.values@.len(),
        ensures
            r@ == rendered(self.values@[index as int]),
    {
        render_value(self.values[index])
    }

    /// Discard all values; the pool is empty afterwards.
    pub fn free(&mut self)
        ensures
            final(self).values@.len() == 0,
    {
        self.values = Vec::new();
    }
}

} // verus!
