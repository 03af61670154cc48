//! The tagged value: any language value in one 64-bit word, with no
//! allocation for primitives.
//!
//! The word is read by its range. Words from `NUMBER_TAG` up hold a 32-bit
//! integer in their low half. Words from `DOUBLE_ENCODE_OFFSET` up to there
//! hold a double, stored as its pattern plus the offset. Below the offset
//! lie the empty word, the four immediates and the addresses of cells.
//! Doubles are handled as IEEE-754 binary64 bit patterns throughout.

use vstd::prelude::*;
use vstd::arithmetic::power2::lemma2_to64_rest;
use vstd::arithmetic::power2::lemma_pow2_pos;
use vstd::arithmetic::power2::lemma_pow2_strictly_increases;
use vstd::arithmetic::power2::pow2;
use vstd::std_specs::cmp::PartialEqSpec;
use vstd::std_specs::cmp::PartialEqSpecImpl;
use crate::runtime::double::EXPONENT_BIAS;
use crate::runtime::double::EXPONENT_SPECIAL;
use crate::runtime::double::HIDDEN_BIT;
use crate::runtime::double::NEGATIVE_ZERO;
use crate::runtime::double::ONE;
use crate::runtime::double::biased_exponent;
use crate::runtime::double::exponent;
use crate::runtime::double::from_i32;
use crate::runtime::double::from_int;
use crate::runtime::double::is_integer;
use crate::runtime::double::is_negative;
use crate::runtime::double::lemma_below_one;
use crate::runtime::double::lemma_from_int_is_exact;
use crate::runtime::double::lemma_magnitude_lower_bound;
use crate::runtime::double::lemma_significand_bounds;
use crate::runtime::double::magnitude_floor;
use crate::runtime::double::mantissa;
use crate::runtime::double::power_of_two;
use crate::runtime::double::saturated_i32;
use crate::runtime::double::significand;
use crate::runtime::double::to_i32;
use crate::runtime::double::truncated;
use crate::runtime::heap::Handle;
use crate::runtime::heap::Tracer;
use crate::runtime::heap::is_cell_address;
use crate::runtime::jsvalue32_64::AsBits;
use crate::runtime::pure_nan::PURE_NAN;
use crate::runtime::pure_nan::pure_nan;
use crate::runtime::pure_nan::spec_is_impure_nan;

verus! {

/// What a value holds, once taken out of its word.
#[derive(Clone, Copy, Debug, PartialEq, Eq, Structural)]
pub enum Unboxed {
    /// No value: an array hole, or a slot not yet filled.
    Empty,
    Null,
    Undefined,
    Boolean(bool),
    Int32(i32),
    /// A double, as its bit pattern.
    Double(u64),
    /// A reference to a heap cell.
    Cell(Handle),
}

impl Unboxed {
    /// Whether this can be put in a word: a double must not be an impure
    /// NaN, and a handle must hold a cell address.
    pub open spec fn wf(self) -> bool {
        match self {
            Unboxed::Double(d) => !spec_is_impure_nan(d),
            Unboxed::Cell(h) => h.wf(),
            _ => true,
        }
    }

    /// The word that holds this.
    pub open spec fn encode(self) -> u64 {
        match self {
            Unboxed::Empty => JSValue::VALUE_EMPTY,
            Unboxed::Null => JSValue::VALUE_NULL,
            Unboxed::Undefined => JSValue::VALUE_UNDEFINED,
            Unboxed::Boolean(b) => if b {
                JSValue::VALUE_TRUE
            } else {
                JSValue::VALUE_FALSE
            },
            Unboxed::Int32(x) => JSValue::NUMBER_TAG | (x as u32 as u64),
            Unboxed::Double(d) => (d + JSValue::DOUBLE_ENCODE_OFFSET) as u64,
            Unboxed::Cell(h) => h.address(),
        }
    }
}

/// The tags by which a value that is no integer is told apart.
#[derive(Clone, Copy, Debug, PartialEq, Eq, Structural)]
pub enum JSTag {
    Null,
    Undefined,
    True,
    False,
    Cell,
    AsDouble,
}

/// Whether `bits` is the word of some well-formed value.
pub open spec fn is_valid_encoding(bits: u64) -> bool {
    ||| bits == JSValue::VALUE_EMPTY
    ||| bits == JSValue::VALUE_NULL
    ||| bits == JSValue::VALUE_UNDEFINED
    ||| bits == JSValue::VALUE_FALSE
    ||| bits == JSValue::VALUE_TRUE
    ||| is_cell_address(bits)
    ||| JSValue::DOUBLE_ENCODE_OFFSET <= bits < JSValue::NUMBER_TAG
    ||| JSValue::NUMBER_TAG <= bits <= JSValue::NUMBER_TAG + u32::MAX
}

/// What the word `bits` holds. Only meaningful for a valid encoding.
pub open spec fn decode(bits: u64) -> Unboxed {
    if bits >= JSValue::NUMBER_TAG {
        Unboxed::Int32(bits as u32 as i32)
    } else if bits >= JSValue::DOUBLE_ENCODE_OFFSET {
        Unboxed::Double((bits - JSValue::DOUBLE_ENCODE_OFFSET) as u64)
    } else if bits == JSValue::VALUE_EMPTY {
        Unboxed::Empty
    } else if bits == JSValue::VALUE_NULL {
        Unboxed::Null
    } else if bits == JSValue::VALUE_UNDEFINED {
        Unboxed::Undefined
    } else if bits == JSValue::VALUE_FALSE {
        Unboxed::Boolean(false)
    } else if bits == JSValue::VALUE_TRUE {
        Unboxed::Boolean(true)
    } else {
        Unboxed::Cell(Handle::at(bits))
    }
}

/// A language value in one word.
#[derive(Clone, Copy, Debug)]
pub struct JSValue {
    u: u64,
}

impl PartialEq for JSValue {
    /// Two values are equal when their words are: an identity test, not the
    /// language's abstract equality.
    fn eq(&self, other: &Self) -> (r: bool) {
        self.u == other.u
    }
}

impl Eq for JSValue {

}

impl PartialEqSpecImpl for JSValue {
    open spec fn obeys_eq_spec() -> bool {
        true
    }

    open spec fn eq_spec(&self, other: &Self) -> bool {
        self.encoded() == other.encoded()
    }
}

impl View for JSValue {
    type V = Unboxed;

    open spec fn view(&self) -> Unboxed {
        decode(self.encoded())
    }
}

impl JSValue {
    /// The bit that `DOUBLE_ENCODE_OFFSET` sets.
    pub const DOUBLE_ENCODE_OFFSET_BIT: u64 = 49;

    /// What is added to the pattern of a double to get its word: `2^49`,
    /// which moves every double clear of the cells below and of the
    /// integers above.
    pub const DOUBLE_ENCODE_OFFSET: u64 = 0x0002_0000_0000_0000;

    /// A word with all of these bits set holds an integer; with some of
    /// them set, a double.
    pub const NUMBER_TAG: u64 = 0xfffe_0000_0000_0000;

    /// The lowest bit of `NUMBER_TAG`.
    pub const LOWEST_OF_HIGH_BITS: u64 = 0x0002_0000_0000_0000;

    /// Set in every immediate that is not a number.
    pub const OTHER_TAG: u64 = 0x2;

    /// Set in true and false.
    pub const BOOL_TAG: u64 = 0x4;

    /// Set in undefined, and all that tells it from null.
    pub const UNDEFINED_TAG: u64 = 0x8;

    pub const VALUE_FALSE: u64 = 0x6;

    pub const VALUE_TRUE: u64 = 0x7;

    pub const VALUE_UNDEFINED: u64 = 0xa;

    pub const VALUE_NULL: u64 = 0x2;

    /// The three tag bits of the immediates together.
    pub const MISC_TAG: u64 = 0xe;

    /// A word with any of these bits set does not hold a cell.
    pub const NOT_CELL_MASK: u64 = 0xfffe_0000_0000_0002;

    /// The word of the empty value. No cell lies at address zero.
    pub const VALUE_EMPTY: u64 = 0x0;

    /// Reserved for hash tables. No value holds it: it is not aligned as a
    /// cell's address is.
    pub const VALUE_DELETED: u64 = 0x4;

    /// The word of this value.
    pub closed spec fn encoded(self) -> u64 {
        self.u
    }

    /// The value whose word holds `content`.
    pub closed spec fn boxed(content: Unboxed) -> JSValue {
        JSValue { u: content.encode() }
    }

    /// The undefined value.
    pub open spec fn spec_undefined() -> JSValue {
        JSValue::boxed(Unboxed::Undefined)
    }

    /// The word of a boxed content is the content's encoding, and a valid
    /// value is the boxed form of its own content.
    pub proof fn law_boxed(self, content: Unboxed)
        ensures
            JSValue::boxed(content).encoded() == content.encode(),
            self.wf() ==> JSValue::boxed(self@) == self,
    {
        if self.wf() {
            law_boxed_of_unbox(self.u);
        }
    }

    /// A value that decodes to a well-formed handle holds a valid word.
    pub proof fn lemma_cell_is_valid(self)
        requires
            self@ matches Unboxed::Cell(h) && h.wf(),
        ensures
            self.wf(),
    {
        Handle::lemma_at(self.u);
        Handle::at(self.u).lemma_address();
    }

    /// Every value holds a valid encoding.
    #[verifier::type_invariant]
    pub closed spec fn wf(self) -> bool {
        is_valid_encoding(self.u)
    }

    /// The word of this value.
    pub fn to_bits(self) -> (bits: u64)
        ensures
            bits == self.encoded(),
            is_valid_encoding(bits),
            self.wf(),
    {
        proof {
            use_type_invariant(&self);
        }
        self.u
    }

    /// The two halves of this value's word.
    pub fn as_bits(self) -> (bits: AsBits)
        ensures
            bits == AsBits::of_word(self.encoded()),
    {
        AsBits::from_word(self.u)
    }

    /// The high half of this value's word.
    pub fn tag(self) -> (tag: i32)
        ensures
            tag == AsBits::of_word(self.encoded()).tag,
    {
        self.as_bits().tag
    }

    /// The low half of this value's word.
    pub fn payload(self) -> (payload: i32)
        ensures
            payload == AsBits::of_word(self.encoded()).payload,
    {
        self.as_bits().payload
    }

    /// The tag that tells what this value is; none for an integer and for
    /// the empty value, which have no tag of their own.
    pub fn js_tag(&self) -> (tag: Option<JSTag>)
        ensures
            tag == (match self@ {
                Unboxed::Null => Some(JSTag::Null),
                Unboxed::Undefined => Some(JSTag::Undefined),
                Unboxed::Boolean(b) => Some(
                    if b {
                        JSTag::True
                    } else {
                        JSTag::False
                    },
                ),
                Unboxed::Cell(_) => Some(JSTag::Cell),
                Unboxed::Double(_) => Some(JSTag::AsDouble),
                Unboxed::Int32(_) => None,
                Unboxed::Empty => None,
            }),
    {
        if self.is_null() {
            Some(JSTag::Null)
        } else if self.is_undefined() {
            Some(JSTag::Undefined)
        } else if self.is_true() {
            Some(JSTag::True)
        } else if self.is_false() {
            Some(JSTag::False)
        } else if self.is_cell() {
            Some(JSTag::Cell)
        } else if self.is_double() {
            Some(JSTag::AsDouble)
        } else {
            None
        }
    }

    /// The value whose word is `bits`, if `bits` is a valid encoding.
    pub fn from_bits(bits: u64) -> (r: Option<JSValue>)
        ensures
            r.is_some() == is_valid_encoding(bits),
            r matches Some(v) ==> v.encoded() == bits && v.wf(),
    {
        let valid = bits == Self::VALUE_EMPTY || bits == Self::VALUE_NULL || bits
            == Self::VALUE_UNDEFINED || bits == Self::VALUE_FALSE || bits == Self::VALUE_TRUE || (0
            < bits && bits < Self::DOUBLE_ENCODE_OFFSET && bits % 8 == 0) || (
        Self::DOUBLE_ENCODE_OFFSET <= bits && bits < Self::NUMBER_TAG) || (Self::NUMBER_TAG <= bits
            && bits <= Self::NUMBER_TAG + 0xffff_ffff);
        if valid {
            Some(JSValue { u: bits })
        } else {
            None
        }
    }

    /// The empty value.
    pub fn default() -> (r: Self)
        ensures
            r@ == Unboxed::Empty,
            r == JSValue::boxed(Unboxed::Empty),
            r.encoded() == Self::VALUE_EMPTY,
            r.wf(),
    {
        JSValue { u: Self::VALUE_EMPTY }
    }

    pub fn undefined() -> (r: Self)
        ensures
            r@ == Unboxed::Undefined,
            r == JSValue::boxed(Unboxed::Undefined),
            r.encoded() == Self::VALUE_UNDEFINED,
            r.wf(),
    {
        JSValue { u: Self::VALUE_UNDEFINED }
    }

    pub fn null() -> (r: Self)
        ensures
            r@ == Unboxed::Null,
            r == JSValue::boxed(Unboxed::Null),
            r.encoded() == Self::VALUE_NULL,
            r.wf(),
    {
        JSValue { u: Self::VALUE_NULL }
    }

    pub fn false_() -> (r: Self)
        ensures
            r@ == Unboxed::Boolean(false),
            r == JSValue::boxed(Unboxed::Boolean(false)),
            r.encoded() == Self::VALUE_FALSE,
            r.wf(),
    {
        JSValue { u: Self::VALUE_FALSE }
    }

    pub fn true_() -> (r: Self)
        ensures
            r@ == Unboxed::Boolean(true),
            r == JSValue::boxed(Unboxed::Boolean(true)),
            r.encoded() == Self::VALUE_TRUE,
            r.wf(),
    {
        JSValue { u: Self::VALUE_TRUE }
    }

    /// The value that refers to the cell behind `x`.
    pub fn cell(x: Handle) -> (r: Self)
        ensures
            r@ == Unboxed::Cell(x),
            r == JSValue::boxed(Unboxed::Cell(x)),
            r.encoded() == x.address(),
            r.wf(),
    {
        let addr = x.to_address();
        proof {
            x.lemma_address();
        }
        JSValue { u: addr }
    }

    /// The value that holds the double with pattern `x`.
    pub fn new_double(x: u64) -> (r: Self)
        requires
            !spec_is_impure_nan(x),
        ensures
            r@ == Unboxed::Double(x),
            r == JSValue::boxed(Unboxed::Double(x)),
            r.encoded() == x + Self::DOUBLE_ENCODE_OFFSET,
            r.wf(),
    {
        JSValue { u: x + Self::DOUBLE_ENCODE_OFFSET }
    }

    /// The value that holds the integer `x`.
    pub fn new_int(x: i32) -> (r: Self)
        ensures
            r@ == Unboxed::Int32(x),
            r == JSValue::boxed(Unboxed::Int32(x)),
            r.wf(),
    {
        proof {
            lemma_int32_word(x);
        }
        JSValue { u: Self::NUMBER_TAG | (x as u32 as u64) }
    }
}

/// The test for an integer: all bits of the number tag are set.
pub open spec fn has_int32_tag(bits: u64) -> bool {
    bits & JSValue::NUMBER_TAG == JSValue::NUMBER_TAG
}

/// The test for a number: some bit of the number tag is set.
pub open spec fn has_number_tag(bits: u64) -> bool {
    bits & JSValue::NUMBER_TAG != 0
}

/// The test for a double: some bits of the number tag are set, not all.
pub open spec fn has_double_tag(bits: u64) -> bool {
    has_number_tag(bits) && !has_int32_tag(bits)
}

/// The test for a boolean: but for the low bit, the word is that of false.
pub open spec fn has_boolean_tag(bits: u64) -> bool {
    bits & !1u64 == JSValue::VALUE_FALSE
}

/// The test for undefined or null: but for the undefined bit, the word is
/// that of null.
pub open spec fn has_undefined_or_null_tag(bits: u64) -> bool {
    bits & !JSValue::UNDEFINED_TAG == JSValue::VALUE_NULL
}

/// The test for a cell: no bit of the mask is set, and the word is not
/// empty.
pub open spec fn has_cell_tag(bits: u64) -> bool {
    bits & JSValue::NOT_CELL_MASK == 0 && bits != JSValue::VALUE_EMPTY
}

/// What the mask tests on a word say about where the word lies.
pub proof fn lemma_mask_tests(u: u64)
    by (bit_vector)
    ensures
        (u & 0xfffe_0000_0000_0000u64 == 0xfffe_0000_0000_0000u64) == (u >= 0xfffe_0000_0000_0000u64),
        (u & 0xfffe_0000_0000_0000u64 != 0) == (u >= 0x0002_0000_0000_0000u64),
        (u & 0xfffe_0000_0000_0002u64 == 0) == (u < 0x0002_0000_0000_0000u64 && (u % 4 == 0 || u % 4
            == 1)),
        (u & !0x8u64 == 0x2u64) == (u == 0x2u64 || u == 0xau64),
        (u & !1u64 == 0x6u64) == (u == 0x6u64 || u == 0x7u64),
{
}

/// The word of an integer lies in the integers' range, and its low half
/// reads back as the integer.
pub proof fn lemma_int32_word(x: i32)
    by (bit_vector)
    ensures
        0xfffe_0000_0000_0000u64 | (x as u32 as u64) >= 0xfffe_0000_0000_0000u64,
        0xfffe_0000_0000_0000u64 | (x as u32 as u64) <= 0xfffe_0000_ffff_ffffu64,
        ((0xfffe_0000_0000_0000u64 | (x as u32 as u64)) as u32 as i32) == x,
{
}

impl JSValue {
    pub open spec fn spec_is_empty(&self) -> bool {
        self@ is Empty
    }

    pub open spec fn spec_is_null(&self) -> bool {
        self@ is Null
    }

    pub open spec fn spec_is_undefined(&self) -> bool {
        self@ is Undefined
    }

    pub open spec fn spec_is_undefined_or_null(&self) -> bool {
        self@ is Undefined || self@ is Null
    }

    pub open spec fn spec_is_boolean(&self) -> bool {
        self@ is Boolean
    }

    pub open spec fn spec_is_true(&self) -> bool {
        self@ == Unboxed::Boolean(true)
    }

    pub open spec fn spec_is_false(&self) -> bool {
        self@ == Unboxed::Boolean(false)
    }

    pub open spec fn spec_is_cell(&self) -> bool {
        self@ is Cell
    }

    pub open spec fn spec_is_int32(&self) -> bool {
        self@ is Int32
    }

    pub open spec fn spec_is_double(&self) -> bool {
        self@ is Double
    }

    pub open spec fn spec_is_number(&self) -> bool {
        self@ is Int32 || self@ is Double
    }

    /// Whether this is the empty value.
    #[verifier::when_used_as_spec(spec_is_empty)]
    pub fn is_empty(&self) -> (b: bool)
        ensures
            b == (self@ is Empty),
    {
        proof {
            use_type_invariant(self);
        }
        self.u == Self::VALUE_EMPTY
    }

    #[verifier::when_used_as_spec(spec_is_undefined)]
    pub fn is_undefined(&self) -> (b: bool)
        ensures
            b == (self@ is Undefined),
    {
        proof {
            use_type_invariant(self);
        }
        *self == Self::undefined()
    }

    #[verifier::when_used_as_spec(spec_is_null)]
    pub fn is_null(&self) -> (b: bool)
        ensures
            b == (self@ is Null),
    {
        proof {
            use_type_invariant(self);
        }
        *self == Self::null()
    }

    #[verifier::when_used_as_spec(spec_is_true)]
    pub fn is_true(&self) -> (b: bool)
        ensures
            b == (self@ == Unboxed::Boolean(true)),
    {
        proof {
            use_type_invariant(self);
        }
        *self == Self::true_()
    }

    #[verifier::when_used_as_spec(spec_is_false)]
    pub fn is_false(&self) -> (b: bool)
        ensures
            b == (self@ == Unboxed::Boolean(false)),
    {
        proof {
            use_type_invariant(self);
        }
        *self == Self::false_()
    }

    /// Whether this is undefined or null, by one test: the two words differ
    /// in the undefined bit alone.
    #[verifier::when_used_as_spec(spec_is_undefined_or_null)]
    pub fn is_undefined_or_null(&self) -> (b: bool)
        ensures
            b == (self@ is Undefined || self@ is Null),
            b == has_undefined_or_null_tag(self.encoded()),
    {
        proof {
            use_type_invariant(self);
            lemma_mask_tests(self.u);
        }
        (self.u & !Self::UNDEFINED_TAG) == Self::VALUE_NULL
    }

    /// Whether this is true or false, by one test: the two words differ in
    /// the low bit alone.
    #[verifier::when_used_as_spec(spec_is_boolean)]
    pub fn is_boolean(&self) -> (b: bool)
        ensures
            b == (self@ is Boolean),
            b == has_boolean_tag(self.encoded()),
    {
        proof {
            use_type_invariant(self);
            lemma_mask_tests(self.u);
        }
        (self.u & !1) == Self::VALUE_FALSE
    }

    /// Whether this refers to a heap cell. The empty value does not.
    #[verifier::when_used_as_spec(spec_is_cell)]
    pub fn is_cell(&self) -> (b: bool)
        ensures
            b == (self@ is Cell),
            b == has_cell_tag(self.encoded()),
    {
        proof {
            use_type_invariant(self);
            lemma_mask_tests(self.u);
        }
        (self.u & Self::NOT_CELL_MASK) == 0 && self.u != Self::VALUE_EMPTY
    }

    /// Whether this holds an integer or a double.
    #[verifier::when_used_as_spec(spec_is_number)]
    pub fn is_number(&self) -> (b: bool)
        ensures
            b == (self@ is Int32 || self@ is Double),
            b == has_number_tag(self.encoded()),
    {
        proof {
            use_type_invariant(self);
            lemma_mask_tests(self.u);
        }
        (self.u & Self::NUMBER_TAG) != 0
    }

    #[verifier::when_used_as_spec(spec_is_int32)]
    pub fn is_int32(&self) -> (b: bool)
        ensures
            b == (self@ is Int32),
            b == has_int32_tag(self.encoded()),
    {
        proof {
            use_type_invariant(self);
            lemma_mask_tests(self.u);
        }
        (self.u & Self::NUMBER_TAG) == Self::NUMBER_TAG
    }

    /// Whether this holds a double: a number that is not an integer.
    #[verifier::when_used_as_spec(spec_is_double)]
    pub fn is_double(&self) -> (b: bool)
        ensures
            b == (self@ is Double),
            b == has_double_tag(self.encoded()),
    {
        !self.is_int32() && self.is_number()
    }

    /// The integer this holds.
    pub fn as_int32(&self) -> (x: i32)
        requires
            self@ is Int32,
        ensures
            self@ == Unboxed::Int32(x),
    {
        self.u as u32 as i32
    }

    /// The pattern of the double this holds.
    pub fn as_double(&self) -> (d: u64)
        requires
            self@ is Double,
        ensures
            self@ == Unboxed::Double(d),
            !spec_is_impure_nan(d),
    {
        proof {
            use_type_invariant(self);
        }
        self.u - Self::DOUBLE_ENCODE_OFFSET
    }

    /// The handle of the cell this refers to.
    pub fn as_cell(&self) -> (h: Handle)
        requires
            self@ is Cell,
        ensures
            self@ == Unboxed::Cell(h),
            h.wf(),
    {
        proof {
            use_type_invariant(self);
        }
        Handle::new(self.u)
    }

    /// The boolean this holds.
    pub fn as_boolean(&self) -> (b: bool)
        requires
            self@ is Boolean,
        ensures
            self@ == Unboxed::Boolean(b),
    {
        proof {
            use_type_invariant(self);
        }
        self.u == Self::VALUE_TRUE
    }

    /// Whether this holds an integer that is not negative.
    pub fn is_uint32(&self) -> (b: bool)
        ensures
            b == (self@ matches Unboxed::Int32(x) && x >= 0),
    {
        self.is_int32() && self.as_int32() >= 0
    }

    /// What this holds, taken out of its word.
    pub fn unbox(&self) -> (r: Unboxed)
        ensures
            r == self@,
            r.wf(),
    {
        proof {
            use_type_invariant(self);
            Handle::at(self.u).lemma_address();
        }
        if self.is_int32() {
            Unboxed::Int32(self.as_int32())
        } else if self.is_double() {
            Unboxed::Double(self.as_double())
        } else if self.is_cell() {
            Unboxed::Cell(self.as_cell())
        } else if self.is_boolean() {
            Unboxed::Boolean(self.as_boolean())
        } else if self.is_null() {
            Unboxed::Null
        } else if self.is_undefined() {
            Unboxed::Undefined
        } else {
            Unboxed::Empty
        }
    }
}

/// What `try_convert_to_i52` returns for a number that is not an integer
/// of at most 52 bits.
pub const NOT_INT52: i64 = 0x0010_0000_0000_0000;

/// One more than the largest integer of 52 bits.
pub const INT52_LIMIT: i64 = 0x0008_0000_0000_0000;

/// Whether the double with pattern `number` is an integer `n` with
/// `-2^51 <= n < 2^51`, and not negative zero.
pub open spec fn is_int52(number: u64) -> bool {
    &&& is_integer(number)
    &&& number != NEGATIVE_ZERO
    &&& -INT52_LIMIT <= truncated(number) < INT52_LIMIT
}

pub open spec fn spec_try_convert_to_i52(number: u64) -> i64 {
    if is_int52(number) {
        truncated(number) as i64
    } else {
        NOT_INT52
    }
}

/// The integer that the double with pattern `number` is, if it is one of at
/// most 52 bits; `NOT_INT52` for every other number, for negative zero, for
/// the infinities and for NaN.
#[verifier::when_used_as_spec(spec_try_convert_to_i52)]
pub fn try_convert_to_i52(number: u64) -> (r: i64)
    ensures
        r == spec_try_convert_to_i52(number),
        is_int52(number) <==> r != NOT_INT52,
        is_int52(number) ==> r == truncated(number),
{
    let negative = is_negative(number);
    let biased = biased_exponent(number);
    let fraction = mantissa(number);
    if biased == EXPONENT_SPECIAL {
        return NOT_INT52;
    }
    if biased < EXPONENT_BIAS {
        proof {
            lemma_below_one(number);
        }
        if number == 0 {
            return 0;
        }
        return NOT_INT52;
    }
    let k = biased - EXPONENT_BIAS;
    if k > 51 {
        proof {
            lemma_magnitude_lower_bound(number, k as nat);
            lemma2_to64_rest();
            if k > 52 {
                lemma_pow2_strictly_increases(52, k as nat);
            }
        }
        return NOT_INT52;
    }
    let shift = 52 - k;
    let unit = power_of_two(shift);
    let whole = fraction + HIDDEN_BIT;
    proof {
        lemma_significand_bounds(number);
        assert(significand(number) == whole);
        assert(exponent(number) == -(shift as int));
    }
    if whole % unit != 0 {
        return NOT_INT52;
    }
    let magnitude = whole / unit;
    proof {
        assert(magnitude == magnitude_floor(number));
        lemma_magnitude_lower_bound(number, k as nat);
        lemma_pow2_pos(k as nat);
        assert(magnitude <= whole) by (nonlinear_arith)
            requires
                magnitude == whole / unit,
                unit > 0,
        ;
    }
    if negative {
        if magnitude > INT52_LIMIT as u64 {
            NOT_INT52
        } else {
            -(magnitude as i64)
        }
    } else {
        if magnitude >= INT52_LIMIT as u64 {
            NOT_INT52
        } else {
            magnitude as i64
        }
    }
}

/// Why a value could not be coerced.
#[derive(Clone, Copy, Debug, PartialEq, Eq, Structural)]
pub enum CoercionError {
    /// Coercing a heap cell takes the interpreter, which this core leaves
    /// out.
    NotImplemented,
}

impl JSValue {
    /// The integer this holds, if it holds one: as a 32-bit integer, or as
    /// a double that `try_convert_to_i52` accepts.
    pub open spec fn any_int(&self) -> Option<int> {
        match self@ {
            Unboxed::Int32(x) => Some(x as int),
            Unboxed::Double(d) => if is_int52(d) {
                Some(truncated(d))
            } else {
                None
            },
            _ => None,
        }
    }

    /// The number this coerces to, as a double's pattern: integers and
    /// doubles as they are, `true` as one, `false`, `null` and the empty
    /// value as zero, `undefined` as NaN. Cells are not coerced here.
    pub open spec fn spec_to_number(&self) -> Result<u64, CoercionError> {
        match self@ {
            Unboxed::Int32(x) => Ok(from_int(x as int)),
            Unboxed::Double(d) => Ok(d),
            Unboxed::Boolean(b) => Ok(
                if b {
                    ONE
                } else {
                    0
                },
            ),
            Unboxed::Null => Ok(0),
            Unboxed::Empty => Ok(0),
            Unboxed::Undefined => Ok(PURE_NAN),
            Unboxed::Cell(_) => Err(CoercionError::NotImplemented),
        }
    }

    /// Whether this holds an integer, be it boxed as one or as a double.
    pub fn is_any_int(&self) -> (b: bool)
        ensures
            b == self.any_int().is_some(),
    {
        if self.is_int32() {
            true
        } else if !self.is_number() {
            false
        } else {
            try_convert_to_i52(self.as_double()) != NOT_INT52
        }
    }

    /// The integer this holds.
    pub fn as_any_int(&self) -> (n: i64)
        requires
            self.any_int().is_some(),
        ensures
            self.any_int() == Some(n as int),
    {
        if self.is_int32() {
            return self.as_int32() as i64;
        }
        try_convert_to_i52(self.as_double())
    }

    /// Whether this holds an integer that fits in 32 bits with a sign.
    pub fn is_int32_as_any_int(&self) -> (b: bool)
        ensures
            b == (self.any_int() matches Some(n) && i32::MIN <= n <= i32::MAX),
    {
        if !self.is_any_int() {
            return false;
        }
        let value = self.as_any_int();
        value >= i32::MIN as i64 && value <= i32::MAX as i64
    }

    /// The integer this holds, which fits in 32 bits with a sign.
    pub fn as_int32_as_any_int(&self) -> (x: i32)
        requires
            self.any_int() matches Some(n) && i32::MIN <= n <= i32::MAX,
        ensures
            self.any_int() == Some(x as int),
    {
        if self.is_int32() {
            return self.as_int32();
        }
        self.as_any_int() as i32
    }

    /// Whether this holds an integer that fits in 32 bits without a sign.
    pub fn is_uint32_as_any_int(&self) -> (b: bool)
        ensures
            b == (self.any_int() matches Some(n) && 0 <= n <= u32::MAX),
    {
        if !self.is_any_int() {
            return false;
        }
        let value = self.as_any_int();
        value >= 0 && value <= u32::MAX as i64
    }

    /// The integer this holds, as an unsigned one. A negative integer boxed
    /// as one wraps around; a negative integer boxed as a double gives zero.
    pub fn as_uint32_as_any_int(&self) -> (x: u32)
        requires
            self.any_int() matches Some(n) && i32::MIN <= n <= i32::MAX,
        ensures
            self@ matches Unboxed::Int32(i) ==> x == (if i >= 0 {
                i as int
            } else {
                i + 0x1_0000_0000
            }),
            self@ is Double ==> x == (if self.any_int().unwrap() >= 0 {
                self.any_int().unwrap()
            } else {
                0
            }),
    {
        if self.is_int32() {
            let i = self.as_int32();
            return if i >= 0 {
                i as u32
            } else {
                (i as i64 + 0x1_0000_0000) as u32
            };
        }
        let n = self.as_any_int();
        if n < 0 {
            0
        } else {
            n as u32
        }
    }

    /// The number this coerces to.
    pub fn to_number(&self) -> (r: Result<u64, CoercionError>)
        ensures
            r == self.spec_to_number(),
            r.is_err() <==> self@ is Cell,
    {
        if self.is_int32() {
            return Ok(from_i32(self.as_int32()));
        }
        if self.is_double() {
            return Ok(self.as_double());
        }
        self.to_number_slow_case()
    }

    /// The number that a value other than an integer or a double coerces
    /// to.
    pub fn to_number_slow_case(&self) -> (r: Result<u64, CoercionError>)
        requires
            !(self@ is Int32),
            !(self@ is Double),
        ensures
            r == self.spec_to_number(),
            r.is_err() <==> self@ is Cell,
    {
        if self.is_cell() {
            return Err(CoercionError::NotImplemented);
        }
        if self.is_true() {
            return Ok(ONE);
        }
        if self.is_undefined() {
            Ok(pure_nan())
        } else {
            proof {
                use_type_invariant(self);
            }
            Ok(0)
        }
    }

    /// The number this holds, as a double's pattern.
    pub fn as_number(&self) -> (d: u64)
        requires
            self@ is Int32 || self@ is Double,
        ensures
            Ok::<u64, CoercionError>(d) == self.spec_to_number(),
    {
        if self.is_int32() {
            from_i32(self.as_int32())
        } else {
            self.as_double()
        }
    }

    pub open spec fn spec_to_int32(&self) -> Result<i32, CoercionError> {
        match self.spec_to_number() {
            Ok(d) => Ok(saturated_i32(d)),
            Err(e) => Err(e),
        }
    }

    /// The number this coerces to, rounded toward zero and held to the
    /// range of 32-bit integers.
    pub fn to_int32(&self) -> (r: Result<i32, CoercionError>)
        ensures
            r == self.spec_to_int32(),
            self@ matches Unboxed::Int32(x) ==> r == Ok::<i32, CoercionError>(x),
    {
        proof {
            if let Unboxed::Int32(x) = self@ {
                lemma_from_int_is_exact(x as int);
            }
        }
        match self.to_number() {
            Ok(d) => Ok(to_i32(d)),
            Err(e) => Err(e),
        }
    }

    /// What `to_int32` gives, with a negative integer wrapped around.
    pub fn to_uint32(&self) -> (r: Result<u32, CoercionError>)
        ensures
            match self.spec_to_int32() {
                Ok(i) => r == Ok::<u32, CoercionError>(
                    (if i >= 0 {
                        i as int
                    } else {
                        i + 0x1_0000_0000
                    }) as u32,
                ),
                Err(e) => r == Err::<u32, CoercionError>(e),
            },
    {
        match self.to_int32() {
            Ok(i) => Ok(
                if i >= 0 {
                    i as u32
                } else {
                    (i as i64 + 0x1_0000_0000) as u32
                },
            ),
            Err(e) => Err(e),
        }
    }
}

/// The handles of the cells that `values` refer to, in the order of the
/// values.
pub open spec fn cells_of(values: Seq<JSValue>) -> Seq<Handle>
    decreases values.len(),
{
    if values.len() == 0 {
        Seq::empty()
    } else {
        let before = cells_of(values.drop_last());
        match values.last()@ {
            Unboxed::Cell(h) => before.push(h),
            _ => before,
        }
    }
}

/// A handle is among the cells of `values` exactly when one of the values
/// refers to its cell.
pub proof fn lemma_cells_of(values: Seq<JSValue>, h: Handle)
    ensures
        cells_of(values).contains(h) <==> exists|i: int|
            0 <= i < values.len() && (#[trigger] values[i])@ == Unboxed::Cell(h),
    decreases values.len(),
{
    if values.len() > 0 {
        let head = values.drop_last();
        let before = cells_of(head);
        lemma_cells_of(head, h);
        if exists|i: int| 0 <= i < head.len() && (#[trigger] head[i])@ == Unboxed::Cell(h) {
            let i = choose|i: int| 0 <= i < head.len() && (#[trigger] head[i])@ == Unboxed::Cell(h);
            assert(values[i] == head[i]);
            let k = choose|k: int| 0 <= k < before.len() && before[k] == h;
            if values.last()@ is Cell {
                assert(cells_of(values)[k] == before[k]);
            }
        }
        if values.last()@ == Unboxed::Cell(h) {
            assert(cells_of(values).last() == h);
        }
        if cells_of(values).contains(h) {
            let k = choose|k: int| 0 <= k < cells_of(values).len() && cells_of(values)[k] == h;
            if k < before.len() {
                assert(before[k] == h);
            } else {
                assert(values[values.len() - 1]@ == Unboxed::Cell(h));
            }
        }
        if exists|i: int| 0 <= i < values.len() && (#[trigger] values[i])@ == Unboxed::Cell(h) {
            let i = choose|i: int| 0 <= i < values.len() && (#[trigger] values[i])@ == Unboxed::Cell(h);
            if i < head.len() {
                assert(head[i] == values[i]);
            }
        }
    }
}

impl JSValue {
    /// Reports the cell this value refers to, if it refers to one.
    pub fn trace_with(&self, tracer: &mut Tracer)
        ensures
            final(tracer)@ == (match self@ {
                Unboxed::Cell(h) => old(tracer)@.push(h),
                _ => old(tracer)@,
            }),
    {
        if self.is_cell() {
            tracer.trace(self.as_cell());
        }
    }
}

/// Reports the cells that `values` refer to, in the order of the values.
pub fn trace_values(values: &Vec<JSValue>, tracer: &mut Tracer)
    ensures
        final(tracer)@ == old(tracer)@ + cells_of(values@),
{
    let mut i: usize = 0;
    proof {
        assert(values@.take(0) == Seq::<JSValue>::empty());
        assert(tracer@ == old(tracer)@ + cells_of(values@.take(0)));
    }
    while i < values.len()
        invariant
            i <= values.len(),
            tracer@ == old(tracer)@ + cells_of(values@.take(i as int)),
        decreases values.len() - i,
    {
        proof {
            assert(values@.take(i + 1).drop_last() == values@.take(i as int));
        }
        values[i].trace_with(tracer);
        i = i + 1;
    }
    proof {
        assert(values@.take(i as int) == values@);
    }
}

/// One for a true `b`, zero for a false one.
pub open spec fn count(b: bool) -> nat {
    if b {
        1
    } else {
        0
    }
}

/// Of the seven kinds of value, every value is of exactly one.
pub proof fn law_exactly_one_kind(v: JSValue)
    ensures
        count(v.is_int32()) + count(v.is_double()) + count(v.is_boolean()) + count(v.is_null())
            + count(v.is_undefined()) + count(v.is_cell()) + count(v.is_empty()) == 1,
{
}

/// On a valid word, each test holds exactly when the word holds a value of
/// the test's kind, and so exactly one of the seven kinds is found: by the
/// tests for an integer, a double, a boolean and a cell, and by comparing
/// with the words of null, undefined and the empty value.
pub proof fn law_tests_tell_kinds(bits: u64)
    requires
        is_valid_encoding(bits),
    ensures
        has_int32_tag(bits) == (decode(bits) is Int32),
        has_double_tag(bits) == (decode(bits) is Double),
        has_number_tag(bits) == (decode(bits) is Int32 || decode(bits) is Double),
        has_boolean_tag(bits) == (decode(bits) is Boolean),
        has_cell_tag(bits) == (decode(bits) is Cell),
        has_undefined_or_null_tag(bits) == (decode(bits) is Undefined || decode(bits) is Null),
        (bits == JSValue::VALUE_NULL) == (decode(bits) is Null),
        (bits == JSValue::VALUE_UNDEFINED) == (decode(bits) is Undefined),
        (bits == JSValue::VALUE_EMPTY) == (decode(bits) is Empty),
        count(has_int32_tag(bits)) + count(has_double_tag(bits)) + count(has_boolean_tag(bits))
            + count(bits == JSValue::VALUE_NULL) + count(bits == JSValue::VALUE_UNDEFINED) + count(
            has_cell_tag(bits),
        ) + count(bits == JSValue::VALUE_EMPTY) == 1,
{
    lemma_mask_tests(bits);
}

/// Putting a well-formed content in a word and taking it out again gives
/// the content back: an integer for every 32-bit integer, a double bit for
/// bit for every pattern that is not an impure NaN.
pub proof fn law_unbox_of_boxed(content: Unboxed)
    requires
        content.wf(),
    ensures
        is_valid_encoding(content.encode()),
        decode(content.encode()) == content,
{
    match content {
        Unboxed::Int32(x) => {
            lemma_int32_word(x);
        },
        Unboxed::Cell(h) => {
            h.lemma_address();
        },
        _ => {},
    }
}

/// Taking the content out of a valid word and putting it back gives the
/// word: a word says no more than its content does.
pub proof fn law_boxed_of_unbox(bits: u64)
    requires
        is_valid_encoding(bits),
    ensures
        decode(bits).wf(),
        decode(bits).encode() == bits,
{
    if bits >= JSValue::NUMBER_TAG {
        assert(0xfffe_0000_0000_0000u64 | ((bits as u32 as i32) as u32 as u64) == bits)
            by (bit_vector)
            requires
                0xfffe_0000_0000_0000u64 <= bits <= 0xfffe_0000_ffff_ffffu64,
        ;
    } else if bits >= JSValue::DOUBLE_ENCODE_OFFSET {
    } else {
        Handle::lemma_at(bits);
        Handle::at(bits).lemma_address();
    }
}

/// A value is undefined or null exactly when it is undefined or it is
/// null.
pub proof fn law_undefined_or_null(v: JSValue)
    ensures
        v.is_undefined_or_null() == (v.is_undefined() || v.is_null()),
{
}

/// Equality of values is reflexive, symmetric and transitive, and holds
/// exactly when the two words are the same.
pub proof fn law_equality(a: JSValue, b: JSValue, c: JSValue)
    ensures
        PartialEqSpec::eq_spec(&a, &a),
        PartialEqSpec::eq_spec(&a, &b) == PartialEqSpec::eq_spec(&b, &a),
        PartialEqSpec::eq_spec(&a, &b) && PartialEqSpec::eq_spec(&b, &c) ==> PartialEqSpec::eq_spec(
            &a,
            &c,
        ),
        PartialEqSpec::eq_spec(&a, &b) == (a.encoded() == b.encoded()),
        PartialEqSpec::eq_spec(&a, &b) == (a == b),
{
}

/// Equal values hold the same content, and valid values with the same
/// content are equal.
pub proof fn law_equality_is_content(a: JSValue, b: JSValue)
    requires
        a.wf(),
        b.wf(),
    ensures
        PartialEqSpec::eq_spec(&a, &b) == (a@ == b@),
{
    law_boxed_of_unbox(a.encoded());
    law_boxed_of_unbox(b.encoded());
}

/// How the immediates are built from the tag bits: all four carry the
/// "other" bit, null and undefined differ in the undefined bit alone, false
/// and true in the low bit alone.
pub proof fn law_immediates()
    ensures
        JSValue::VALUE_NULL == JSValue::OTHER_TAG,
        JSValue::VALUE_UNDEFINED == JSValue::OTHER_TAG | JSValue::UNDEFINED_TAG,
        JSValue::VALUE_FALSE == JSValue::OTHER_TAG | JSValue::BOOL_TAG,
        JSValue::VALUE_TRUE == JSValue::VALUE_FALSE | 1,
        JSValue::MISC_TAG == JSValue::OTHER_TAG | JSValue::BOOL_TAG | JSValue::UNDEFINED_TAG,
        JSValue::NOT_CELL_MASK == JSValue::NUMBER_TAG | JSValue::OTHER_TAG,
        JSValue::DOUBLE_ENCODE_OFFSET == pow2(JSValue::DOUBLE_ENCODE_OFFSET_BIT as nat),
        JSValue::LOWEST_OF_HIGH_BITS == JSValue::DOUBLE_ENCODE_OFFSET,
{
    lemma2_to64_rest();
    assert(0x2u64 | 0x8u64 == 0xau64 && 0x2u64 | 0x4u64 == 0x6u64 && 0x6u64 | 1u64 == 0x7u64 && 0x2u64
        | 0x4u64 | 0x8u64 == 0xeu64 && 0xfffe_0000_0000_0000u64 | 0x2u64 == 0xfffe_0000_0000_0002u64)
        by (bit_vector);
}

} // verus!
