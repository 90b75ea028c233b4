//! The value normaliser: one finite numeric value out of a state text.

use vstd::prelude::*;
use crate::text::same_text;

verus! {

/// Bit pattern of the binary64 number 0.0.
pub const ZERO_BITS: u64 = 0;

/// Bit pattern of the binary64 number 1.0.
pub const ONE_BITS: u64 = 0x3FF0_0000_0000_0000;

/// The exponent field of a binary64 bit pattern.
pub const EXPONENT_MASK: u64 = 0x7FF0_0000_0000_0000;

/// Whether a binary64 bit pattern is a finite number: neither an infinity nor
/// a NaN, which are the patterns whose exponent field is all ones.
pub open spec fn is_finite_bits(bits: u64) -> bool {
    bits & EXPONENT_MASK != EXPONENT_MASK
}

/// A normalised value: a finite 64-bit IEEE 754 number, held as its bit
/// pattern.
#[derive(Debug, Clone, Copy, PartialEq, Eq)]
pub struct Value(u64);

/// The state text could not be read as a finite number, a boolean or
/// `on`/`off`.
#[derive(Debug, Clone, Copy, PartialEq, Eq)]
pub struct ParseError;

/// What the numeric readers made of a state text. Reading decimal text as a
/// binary64 number is floating-point work and is done by the caller; each
/// field holds the bit pattern of the number read, or `None` where the text
/// does not read that way.
#[derive(Debug, Clone, Copy, PartialEq, Eq)]
pub struct NumericForms {
    /// The text read as a floating-point number.
    pub float: Option<u64>,
    /// The text read as a signed 64-bit integer, promoted to floating point.
    pub integer: Option<u64>,
}

/// A reading that counts: one that is there and is finite.
pub open spec fn finite_reading(reading: Option<u64>) -> Option<u64> {
    match reading {
        Some(bits) => if is_finite_bits(bits) {
            Some(bits)
        } else {
            None
        },
        None => None,
    }
}

/// The bit pattern that a state text stands for. The forms are tried in a
/// fixed order: floating point, integer, `true`/`false`, `off`/`on`.
pub open spec fn normalized(input: Seq<char>, forms: NumericForms) -> Option<u64> {
    if finite_reading(forms.float) is Some {
        forms.float
    } else if finite_reading(forms.integer) is Some {
        forms.integer
    } else if input == "true"@ {
        Some(ONE_BITS)
    } else if input == "false"@ {
        Some(ZERO_BITS)
    } else if input == "off"@ {
        Some(ZERO_BITS)
    } else if input == "on"@ {
        Some(ONE_BITS)
    } else {
        None
    }
}

impl View for Value {
    type V = u64;

    closed spec fn view(&self) -> u64 {
        self.0
    }
}

impl Value {
    /// Every value is finite.
    #[verifier::type_invariant]
    closed spec fn well_formed(self) -> bool {
        is_finite_bits(self.0)
    }

    /// The value with the given bit pattern, where that is a finite number.
    pub fn from_bits(bits: u64) -> (r: Option<Value>)
        ensures
            match r {
                Some(v) => is_finite_bits(bits) && v@ == bits,
                None => !is_finite_bits(bits),
            },
    {
        if bits & EXPONENT_MASK != EXPONENT_MASK {
            Some(Value(bits))
        } else {
            None
        }
    }

    /// The number 0.0.
    pub fn zero() -> (r: Value)
        ensures
            r@ == ZERO_BITS,
    {
        assert(ZERO_BITS & EXPONENT_MASK != EXPONENT_MASK) by (bit_vector);
        Value(ZERO_BITS)
    }

    /// The number 1.0.
    pub fn one() -> (r: Value)
        ensures
            r@ == ONE_BITS,
    {
        assert(ONE_BITS & EXPONENT_MASK != EXPONENT_MASK) by (bit_vector);
        Value(ONE_BITS)
    }

    /// Normalises a state text, given what the numeric readers made of it.
    /// A finite numeric reading always wins over a boolean or an `on`/`off`
    /// token; a reading that is not finite counts as none.
    pub fn parse(input: &str, forms: NumericForms) -> (r: Result<Value, ParseError>)
        ensures
            match r {
                Ok(v) => normalized(input@, forms) == Some(v@),
                Err(_) => normalized(input@, forms) is None,
            },
    {
        if let Some(bits) = forms.float {
            if let Some(value) = Value::from_bits(bits) {
                return Ok(value);
            }
        }
        if let Some(bits) = forms.integer {
            if let Some(value) = Value::from_bits(bits) {
                return Ok(value);
            }
        }
        if same_text(input, "true") {
            return Ok(Value::one());
        }
        if same_text(input, "false") {
            return Ok(Value::zero());
        }
        if same_text(input, "off") {
            return Ok(Value::zero());
        }
        if same_text(input, "on") {
            return Ok(Value::one());
        }
        Err(ParseError)
    }

    /// The bit pattern of the value, which is that of a finite number.
    pub fn bits(&self) -> (r: u64)
        ensures
            r == self@,
            is_finite_bits(r),
    {
        proof {
            use_type_invariant(self);
        }
        self.0
    }
}

impl ParseError {
    /// The text shown for this error.
    pub fn message(&self) -> (r: &'static str)
        ensures
            r@ == "Failed to parse value"@,
    {
        "Failed to parse value"
    }
}

/// Whatever a state text is normalised to is a finite number.
pub proof fn lemma_normalized_is_finite(input: Seq<char>, forms: NumericForms)
    ensures
        normalized(input, forms) matches Some(bits) ==> is_finite_bits(bits),
{
    assert(ZERO_BITS & EXPONENT_MASK != EXPONENT_MASK) by (bit_vector);
    assert(ONE_BITS & EXPONENT_MASK != EXPONENT_MASK) by (bit_vector);
}

/// Numeric forms take precedence: a finite floating-point reading is the
/// result whatever the text, and a finite integer reading is the result
/// where there is no such floating-point reading.
pub proof fn lemma_numeric_first(input: Seq<char>, forms: NumericForms)
    ensures
        finite_reading(forms.float) is Some ==> normalized(input, forms) == forms.float,
        finite_reading(forms.float) is None && finite_reading(forms.integer) is Some
            ==> normalized(input, forms) == forms.integer,
{
}

/// Without a finite numeric reading, exactly the four tokens are values.
pub proof fn lemma_tokens(input: Seq<char>, forms: NumericForms)
    requires
        finite_reading(forms.float) is None,
        finite_reading(forms.integer) is None,
    ensures
        normalized(input, forms) == if input == "true"@ || input == "on"@ {
            Some(ONE_BITS)
        } else if input == "false"@ || input == "off"@ {
            Some(ZERO_BITS)
        } else {
            None
        },
{
    reveal_strlit("true");
    reveal_strlit("false");
    reveal_strlit("on");
    reveal_strlit("off");
    assert("true"@.len() == 4);
    assert("false"@.len() == 5);
    assert("on"@.len() == 2);
    assert("off"@.len() == 3);
}

} // verus!
