use std::collections::hash_map::DefaultHasher;
use std::hash::Hasher;
use vstd::bytes::{spec_u64_to_le_bytes, u64_to_le_bytes};
use vstd::prelude::*;
use vstd::std_specs::hash::DefaultHasherAdditionalSpecFns;
use vstd::utf8::encode_utf8;

verus! {

/// Bits of a binary64 float that hold the exponent.
pub const EXPONENT_MASK: u64 = 0x7ff0_0000_0000_0000;

/// Bits of a binary64 float that hold the fraction.
pub const FRACTION_MASK: u64 = 0x000f_ffff_ffff_ffff;

/// Every bit of a binary64 float but the sign.
pub const MAGNITUDE_MASK: u64 = 0x7fff_ffff_ffff_ffff;

/// The quiet NaN that every NaN payload hashes as.
pub const CANONICAL_NAN: u64 = 0x7ff8_0000_0000_0000;

/// Tags that open the hash input of each variant.
pub const INTEGER_TAG: u8 = 0;

pub const FLOAT_TAG: u8 = 1;

pub const STRING_TAG: u8 = 2;

pub const BOOLEAN_TAG: u8 = 3;

pub const NULL_TAG: u8 = 4;

/// Closes the bytes of a string in the hash input.
pub const STRING_END: u8 = 0xff;

/// A cell value. A float is held as its IEEE-754 binary64 bit pattern
/// (`f64::to_bits`), and compares as IEEE-754 floats do.
#[derive(Debug, Clone)]
pub enum Value {
    Integer(i64),
    Float(u64),
    String(String),
    Boolean(bool),
    Null,
}

/// The float with bit pattern `b` is a NaN: all exponent bits set, fraction non-zero.
pub open spec fn is_nan_bits(b: u64) -> bool {
    b & EXPONENT_MASK == EXPONENT_MASK && b & FRACTION_MASK != 0
}

/// The float with bit pattern `b` is +0.0 or -0.0.
pub open spec fn is_zero_bits(b: u64) -> bool {
    b & MAGNITUDE_MASK == 0
}

/// IEEE-754 equality on bit patterns: a NaN equals nothing, the two zeros are
/// equal, and any other float equals only itself.
pub open spec fn float_bits_eq(a: u64, b: u64) -> bool {
    !is_nan_bits(a) && !is_nan_bits(b) && (a == b || (is_zero_bits(a) && is_zero_bits(b)))
}

/// The bit pattern a float is hashed as: one pattern for all NaNs, one for both zeros.
pub open spec fn canonical_bits(b: u64) -> u64 {
    if is_nan_bits(b) {
        CANONICAL_NAN
    } else if is_zero_bits(b) {
        0
    } else {
        b
    }
}

/// Structural equality, with IEEE-754 equality on floats.
pub open spec fn value_eq(a: Value, b: Value) -> bool {
    match (a, b) {
        (Value::Integer(x), Value::Integer(y)) => x == y,
        (Value::Float(x), Value::Float(y)) => float_bits_eq(x, y),
        (Value::String(x), Value::String(y)) => x@ == y@,
        (Value::Boolean(x), Value::Boolean(y)) => x == y,
        (Value::Null, Value::Null) => true,
        _ => false,
    }
}

/// The bytes a value is hashed as: its variant's tag, then its payload.
pub open spec fn hash_input(v: Value) -> Seq<u8> {
    match v {
        Value::Integer(i) => seq![INTEGER_TAG] + spec_u64_to_le_bytes(i as u64),
        Value::Float(b) => seq![FLOAT_TAG] + spec_u64_to_le_bytes(canonical_bits(b)),
        Value::String(s) => seq![STRING_TAG] + encode_utf8(s@) + seq![STRING_END],
        Value::Boolean(b) => seq![BOOLEAN_TAG, if b { 1u8 } else { 0u8 }],
        Value::Null => seq![NULL_TAG],
    }
}

/// The tag that opens the hash input of `v`; one per variant.
pub open spec fn variant_tag(v: Value) -> u8 {
    match v {
        Value::Integer(_) => INTEGER_TAG,
        Value::Float(_) => FLOAT_TAG,
        Value::String(_) => STRING_TAG,
        Value::Boolean(_) => BOOLEAN_TAG,
        Value::Null => NULL_TAG,
    }
}

/// Equal values hash alike: their hash inputs, and so their index hashes, agree.
pub proof fn lemma_equal_values_hash_alike(a: Value, b: Value)
    requires
        value_eq(a, b),
    ensures
        hash_input(a) == hash_input(b),
        DefaultHasher::spec_finish(seq![hash_input(a)]) == DefaultHasher::spec_finish(
            seq![hash_input(b)],
        ),
{
}

/// Two NaN floats are unequal, whatever their payloads, yet hash alike: every
/// NaN is hashed as the canonical quiet NaN.
pub proof fn lemma_nans_unequal_but_hash_alike(x: u64, y: u64)
    requires
        is_nan_bits(x),
        is_nan_bits(y),
    ensures
        !value_eq(Value::Float(x), Value::Float(y)),
        hash_input(Value::Float(x)) == hash_input(Value::Float(y)),
{
}

/// +0.0 and -0.0 are equal and hash alike.
pub proof fn lemma_signed_zeros_hash_alike()
    ensures
        value_eq(Value::Float(0), Value::Float(0x8000_0000_0000_0000)),
        hash_input(Value::Float(0)) == hash_input(Value::Float(0x8000_0000_0000_0000)),
{
    assert(0u64 & MAGNITUDE_MASK == 0) by (bit_vector);
    assert(0x8000_0000_0000_0000u64 & MAGNITUDE_MASK == 0) by (bit_vector);
    assert(0u64 & FRACTION_MASK == 0) by (bit_vector);
    assert(0x8000_0000_0000_0000u64 & FRACTION_MASK == 0) by (bit_vector);
}

/// Values of different variants never share a hash input: the inputs open
/// with different tags.
pub proof fn lemma_variants_hash_apart(a: Value, b: Value)
    requires
        variant_tag(a) != variant_tag(b),
    ensures
        hash_input(a)[0] == variant_tag(a),
        hash_input(b)[0] == variant_tag(b),
        hash_input(a) != hash_input(b),
{
    assert(hash_input(a)[0] != hash_input(b)[0]);
}

/// The bit pattern the float with bits `bits` is hashed as.
pub fn canonical_float_bits(bits: u64) -> (r: u64)
    ensures
        r == canonical_bits(bits),
{
    if bits & EXPONENT_MASK == EXPONENT_MASK && bits & FRACTION_MASK != 0 {
        CANONICAL_NAN
    } else if bits & MAGNITUDE_MASK == 0 {
        0
    } else {
        bits
    }
}

/// IEEE-754 equality of the floats with bit patterns `a` and `b`.
pub fn float_bits_equal(a: u64, b: u64) -> (r: bool)
    ensures
        r == float_bits_eq(a, b),
{
    let a_nan = a & EXPONENT_MASK == EXPONENT_MASK && a & FRACTION_MASK != 0;
    let b_nan = b & EXPONENT_MASK == EXPONENT_MASK && b & FRACTION_MASK != 0;
    !a_nan && !b_nan && (a == b || (a & MAGNITUDE_MASK == 0 && b & MAGNITUDE_MASK == 0))
}

impl Value {
    /// The bytes this value is hashed as.
    pub fn hash_bytes(&self) -> (r: Vec<u8>)
        ensures
            r@ == hash_input(*self),
    {
        match self {
            Value::Integer(i) => {
                let mut out = vec![INTEGER_TAG];
                let mut payload = u64_to_le_bytes(*i as u64);
                out.append(&mut payload);
                out
            },
            Value::Float(b) => {
                let mut out = vec![FLOAT_TAG];
                let mut payload = u64_to_le_bytes(canonical_float_bits(*b));
                out.append(&mut payload);
                out
            },
            Value::String(s) => {
                let bytes = s.as_str().as_bytes();
                let mut out = vec![STRING_TAG];
                let mut i: usize = 0;
                while i < bytes.len()
                    invariant
                        i <= bytes@.len(),
                        bytes@ == encode_utf8(s@),
                        out@ == seq![STRING_TAG] + bytes@.subrange(0, i as int),
                    decreases bytes@.len() - i,
                {
                    out.push(bytes[i]);
                    i = i + 1;
                    assert(out@ =~= seq![STRING_TAG] + bytes@.subrange(0, i as int));
                }
                out.push(STRING_END);
                assert(bytes@.subrange(0, bytes@.len() as int) =~= bytes@);
                out
            },
            Value::Boolean(b) => {
                if *b {
                    vec![BOOLEAN_TAG, 1u8]
                } else {
                    vec![BOOLEAN_TAG, 0u8]
                }
            },
            Value::Null => vec![NULL_TAG],
        }
    }

    /// The value's index hash: its hash input fed once to a fresh `DefaultHasher`.
    /// This is the hash that `Hash` gives under `DefaultHasher`.
    pub fn index_hash(&self) -> (r: u64)
        ensures
            r == DefaultHasher::spec_finish(seq![hash_input(*self)]),
    {
        let bytes = self.hash_bytes();
        let mut state = DefaultHasher::new();
        state.write(bytes.as_slice());
        assert(state@ =~= seq![hash_input(*self)]);
        state.finish()
    }
}

impl PartialEq for Value {
    fn eq(&self, other: &Value) -> (r: bool) {
        match (self, other) {
            (Value::Integer(x), Value::Integer(y)) => *x == *y,
            (Value::Float(x), Value::Float(y)) => float_bits_equal(*x, *y),
            (Value::String(x), Value::String(y)) => *x == *y,
            (Value::Boolean(x), Value::Boolean(y)) => *x == *y,
            (Value::Null, Value::Null) => true,
            _ => false,
        }
    }
}

impl vstd::std_specs::cmp::PartialEqSpecImpl for Value {
    open spec fn obeys_eq_spec() -> bool {
        true
    }

    open spec fn eq_spec(&self, other: &Value) -> bool {
        value_eq(*self, *other)
    }
}

/// Relies on `Hasher::write`, which feeds `bytes` to the caller's hasher; Verus
/// cannot call it through a generic hasher. It promises nothing.
#[verifier::external_body]
fn write_to_hasher<H: std::hash::Hasher>(state: &mut H, bytes: &[u8]) {
    state.write(bytes);
}

impl std::hash::Hash for Value {
    fn hash<H: std::hash::Hasher>(&self, state: &mut H) {
        let bytes = self.hash_bytes();
        write_to_hasher(state, bytes.as_slice());
    }
}

} // verus!
