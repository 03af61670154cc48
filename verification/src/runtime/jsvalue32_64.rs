//! The value's word as two halves, and the encoding for machines with
//! 32-bit addresses.
//!
//! The high half of the word is the tag, the low half the payload. A few
//! tags at the top of the range mark integers, booleans, undefined, null,
//! cells and the empty value. Every other tag is the high half of a double,
//! whose low half is then the payload: a double is told by exclusion.

use vstd::prelude::*;
use vstd::std_specs::cmp::PartialEqSpec;
use vstd::std_specs::cmp::PartialEqSpecImpl;
use crate::runtime::heap::Handle;
use crate::runtime::heap::is_cell_address;
use crate::runtime::jsvalue::Unboxed;
use crate::runtime::pure_nan::spec_is_impure_nan;

verus! {

/// The number of distinct 32-bit halves.
pub const HALF_RANGE: u64 = 0x1_0000_0000;

/// The two halves of a word.
#[derive(Clone, Copy, Debug, PartialEq, Eq, Structural)]
pub struct AsBits {
    pub payload: i32,
    pub tag: i32,
}

/// One of the two halves of a word.
#[derive(Clone, Copy, Debug, PartialEq, Eq, Structural)]
pub enum WhichValueWord {
    Tag,
    Payload,
}

/// At which byte of the word, stored low byte first, the tag starts.
pub fn tag_offset() -> (offset: usize)
    ensures
        offset == 4,
{
    4
}

/// At which byte of the word, stored low byte first, the payload starts.
pub fn payload_offset() -> (offset: usize)
    ensures
        offset == 0,
{
    0
}

/// At which byte of the word the reference to a cell starts. In the
/// 64-bit encoding the reference fills the word.
pub fn cell_payload_offset() -> (offset: usize)
    ensures
        offset == 0,
{
    0
}

/// The 32 bits `half`, read as a signed integer.
pub open spec fn signed(half: int) -> int {
    if half < 0x8000_0000 {
        half
    } else {
        half - HALF_RANGE
    }
}

/// The signed integer `x`, read as 32 bits without a sign.
pub open spec fn unsigned(x: int) -> int {
    if x >= 0 {
        x
    } else {
        x + HALF_RANGE
    }
}

/// The four bytes of `word` that start at byte `offset`, the word stored
/// low byte first, read as a signed integer.
pub open spec fn half_at(word: u64, offset: int) -> int {
    if offset == 0 {
        signed(word as int % HALF_RANGE as int)
    } else {
        signed(word as int / HALF_RANGE as int)
    }
}

fn to_signed(half: u64) -> (x: i32)
    requires
        half < HALF_RANGE,
    ensures
        x == signed(half as int),
        unsigned(x as int) == half,
{
    if half < 0x8000_0000 {
        half as i32
    } else {
        (half as i64 - HALF_RANGE as i64) as i32
    }
}

fn to_unsigned(x: i32) -> (half: u64)
    ensures
        half == unsigned(x as int),
        half < HALF_RANGE,
        signed(half as int) == x,
{
    if x >= 0 {
        x as u64
    } else {
        (x as i64 + HALF_RANGE as i64) as u64
    }
}

impl WhichValueWord {
    pub open spec fn spec_offset(self) -> usize {
        match self {
            WhichValueWord::Tag => 4,
            WhichValueWord::Payload => 0,
        }
    }

    /// At which byte of the word this half starts.
    #[verifier::when_used_as_spec(spec_offset)]
    pub fn offset(self) -> (offset: usize)
        ensures
            offset == self.spec_offset(),
    {
        match self {
            WhichValueWord::Tag => tag_offset(),
            WhichValueWord::Payload => payload_offset(),
        }
    }
}

impl AsBits {
    /// The halves of `word`.
    pub open spec fn of_word(word: u64) -> AsBits {
        AsBits { payload: half_at(word, 0) as i32, tag: half_at(word, 4) as i32 }
    }

    /// The word with these halves.
    pub open spec fn word(self) -> u64 {
        (unsigned(self.tag as int) * HALF_RANGE + unsigned(self.payload as int)) as u64
    }

    /// The halves of `word`: the tag is the half that starts at
    /// `tag_offset`, the payload the half that starts at `payload_offset`.
    pub fn from_word(word: u64) -> (bits: AsBits)
        ensures
            bits == AsBits::of_word(word),
            bits.word() == word,
    {
        AsBits { payload: to_signed(word % HALF_RANGE), tag: to_signed(word / HALF_RANGE) }
    }

    /// The word with these halves.
    pub fn to_word(self) -> (word: u64)
        ensures
            word == self.word(),
            AsBits::of_word(word) == self,
    {
        to_unsigned(self.tag) * HALF_RANGE + to_unsigned(self.payload)
    }

    /// One of the halves.
    pub fn half(self, which: WhichValueWord) -> (half: i32)
        ensures
            half == (match which {
                WhichValueWord::Tag => self.tag,
                WhichValueWord::Payload => self.payload,
            }),
            half == half_at(self.word(), which.offset() as int),
    {
        match which {
            WhichValueWord::Tag => self.tag,
            WhichValueWord::Payload => self.payload,
        }
    }

    /// Splitting a word and joining the halves gives the word, and the
    /// other way round.
    pub proof fn law_halves_round_trip(word: u64, bits: AsBits)
        ensures
            AsBits::of_word(word).word() == word,
            AsBits::of_word(bits.word()) == bits,
    {
    }
}

/// The tag of a 32-bit integer.
pub const INT32_TAG: i32 = -1;

/// The tag of true and false.
pub const BOOL_TAG: i32 = -2;

pub const UNDEFINED_TAG: i32 = -3;

pub const NULL_TAG: i32 = -4;

/// The tag of a reference to a cell.
pub const CELL_TAG: i32 = -5;

/// The tag of the empty value.
pub const EMPTY_TAG: i32 = -6;

/// Reserved for hash tables. No value carries it.
pub const DELETED_TAG: i32 = -7;

/// The lowest of the tags. A word whose high half lies below it, the half
/// read without a sign, holds a double.
pub const LOWEST_TAG: i32 = DELETED_TAG;

/// Whether `tag` is none of the tags, and so the high half of a double.
pub open spec fn is_double_tag(tag: i32) -> bool {
    unsigned(tag as int) < unsigned(LOWEST_TAG as int)
}

/// Whether `bits` are the halves of some well-formed value.
pub open spec fn is_valid_split(bits: AsBits) -> bool {
    ||| bits.tag == INT32_TAG
    ||| bits.tag == BOOL_TAG && (bits.payload == 0 || bits.payload == 1)
    ||| bits.tag == UNDEFINED_TAG && bits.payload == 0
    ||| bits.tag == NULL_TAG && bits.payload == 0
    ||| bits.tag == EMPTY_TAG && bits.payload == 0
    ||| bits.tag == CELL_TAG && is_cell_address(unsigned(bits.payload as int) as u64)
    ||| is_double_tag(bits.tag) && !spec_is_impure_nan(bits.word())
}

/// What the halves `bits` hold. Only meaningful for valid halves.
pub open spec fn decode_split(bits: AsBits) -> Unboxed {
    if bits.tag == INT32_TAG {
        Unboxed::Int32(bits.payload)
    } else if bits.tag == BOOL_TAG {
        Unboxed::Boolean(bits.payload != 0)
    } else if bits.tag == UNDEFINED_TAG {
        Unboxed::Undefined
    } else if bits.tag == NULL_TAG {
        Unboxed::Null
    } else if bits.tag == EMPTY_TAG {
        Unboxed::Empty
    } else if bits.tag == CELL_TAG {
        Unboxed::Cell(Handle::at(unsigned(bits.payload as int) as u64))
    } else {
        Unboxed::Double(bits.word())
    }
}

/// The halves that hold `content`. A cell's address must fit the payload.
pub open spec fn encode_split(content: Unboxed) -> AsBits {
    match content {
        Unboxed::Int32(x) => AsBits { tag: INT32_TAG, payload: x },
        Unboxed::Boolean(b) => AsBits {
            tag: BOOL_TAG,
            payload: if b {
                1
            } else {
                0
            },
        },
        Unboxed::Undefined => AsBits { tag: UNDEFINED_TAG, payload: 0 },
        Unboxed::Null => AsBits { tag: NULL_TAG, payload: 0 },
        Unboxed::Empty => AsBits { tag: EMPTY_TAG, payload: 0 },
        Unboxed::Cell(h) => AsBits { tag: CELL_TAG, payload: signed(h.address() as int) as i32 },
        Unboxed::Double(d) => AsBits::of_word(d),
    }
}

/// A language value in one word, in the encoding for machines with 32-bit
/// addresses.
#[derive(Clone, Copy, Debug)]
pub struct SplitValue {
    bits: AsBits,
}

impl PartialEq for SplitValue {
    /// Two values are equal when their words are.
    fn eq(&self, other: &Self) -> (r: bool) {
        self.bits.tag == other.bits.tag && self.bits.payload == other.bits.payload
    }
}

impl Eq for SplitValue {

}

impl PartialEqSpecImpl for SplitValue {
    open spec fn obeys_eq_spec() -> bool {
        true
    }

    open spec fn eq_spec(&self, other: &Self) -> bool {
        self.as_bits() == other.as_bits()
    }
}

impl View for SplitValue {
    type V = Unboxed;

    open spec fn view(&self) -> Unboxed {
        decode_split(self.as_bits())
    }
}

impl SplitValue {
    /// The halves of this value's word.
    pub closed spec fn as_bits(self) -> AsBits {
        self.bits
    }

    /// Every value holds valid halves.
    #[verifier::type_invariant]
    pub closed spec fn wf(self) -> bool {
        is_valid_split(self.bits)
    }

    /// The value with the given halves, if they are valid.
    pub fn with_tag_payload(tag: i32, payload: i32) -> (r: Option<SplitValue>)
        ensures
            r.is_some() == is_valid_split(AsBits { tag, payload }),
            r matches Some(v) ==> v.as_bits() == (AsBits { tag, payload }) && v.wf(),
    {
        let bits = AsBits { tag, payload };
        let address = to_unsigned(payload);
        let valid = tag == INT32_TAG || (tag == BOOL_TAG && (payload == 0 || payload == 1)) || (tag
            == UNDEFINED_TAG && payload == 0) || (tag == NULL_TAG && payload == 0) || (tag
            == EMPTY_TAG && payload == 0) || (tag == CELL_TAG && address != 0 && address % 8 == 0)
            || ((tag >= 0 || tag < LOWEST_TAG) && bits.to_word() < 0xfffc_0000_0000_0000);
        if valid {
            Some(SplitValue { bits })
        } else {
            None
        }
    }

    /// The tag: the high half of the word.
    pub fn tag(self) -> (tag: i32)
        ensures
            tag == self.as_bits().tag,
    {
        self.bits.tag
    }

    /// The payload: the low half of the word.
    pub fn payload(self) -> (payload: i32)
        ensures
            payload == self.as_bits().payload,
    {
        self.bits.payload
    }

    /// The empty value.
    pub fn default() -> (r: Self)
        ensures
            r@ == Unboxed::Empty,
            r.as_bits() == encode_split(Unboxed::Empty),
    {
        SplitValue { bits: AsBits { tag: EMPTY_TAG, payload: 0 } }
    }

    pub fn null() -> (r: Self)
        ensures
            r@ == Unboxed::Null,
            r.as_bits() == encode_split(Unboxed::Null),
    {
        SplitValue { bits: AsBits { tag: NULL_TAG, payload: 0 } }
    }

    pub fn undefined() -> (r: Self)
        ensures
            r@ == Unboxed::Undefined,
            r.as_bits() == encode_split(Unboxed::Undefined),
    {
        SplitValue { bits: AsBits { tag: UNDEFINED_TAG, payload: 0 } }
    }

    pub fn true_() -> (r: Self)
        ensures
            r@ == Unboxed::Boolean(true),
            r.as_bits() == encode_split(Unboxed::Boolean(true)),
    {
        SplitValue { bits: AsBits { tag: BOOL_TAG, payload: 1 } }
    }

    pub fn false_() -> (r: Self)
        ensures
            r@ == Unboxed::Boolean(false),
            r.as_bits() == encode_split(Unboxed::Boolean(false)),
    {
        SplitValue { bits: AsBits { tag: BOOL_TAG, payload: 0 } }
    }

    /// The value that refers to the cell behind `cell`, whose address must
    /// fit in 32 bits.
    pub fn cell(cell: Handle) -> (r: Self)
        requires
            cell.address() < HALF_RANGE,
        ensures
            r@ == Unboxed::Cell(cell),
            r.as_bits() == encode_split(Unboxed::Cell(cell)),
    {
        let address = cell.to_address();
        proof {
            cell.lemma_address();
        }
        SplitValue { bits: AsBits { tag: CELL_TAG, payload: to_signed(address) } }
    }

    /// The value that holds the integer `x`.
    pub fn new_int(x: i32) -> (r: Self)
        ensures
            r@ == Unboxed::Int32(x),
            r.as_bits() == encode_split(Unboxed::Int32(x)),
    {
        SplitValue { bits: AsBits { tag: INT32_TAG, payload: x } }
    }

    /// The value that holds the double with pattern `f`.
    pub fn new_double(f: u64) -> (r: Self)
        requires
            !spec_is_impure_nan(f),
        ensures
            r@ == Unboxed::Double(f),
            r.as_bits() == encode_split(Unboxed::Double(f)),
    {
        SplitValue { bits: AsBits::from_word(f) }
    }

    pub fn is_empty(&self) -> (b: bool)
        ensures
            b == (self@ is Empty),
    {
        self.tag() == EMPTY_TAG
    }

    pub fn is_null(&self) -> (b: bool)
        ensures
            b == (self@ is Null),
    {
        self.tag() == NULL_TAG
    }

    pub fn is_undefined(&self) -> (b: bool)
        ensures
            b == (self@ is Undefined),
    {
        self.tag() == UNDEFINED_TAG
    }

    pub fn is_undefined_or_null(&self) -> (b: bool)
        ensures
            b == (self@ is Undefined || self@ is Null),
    {
        self.is_undefined() || self.is_null()
    }

    pub fn is_cell(&self) -> (b: bool)
        ensures
            b == (self@ is Cell),
    {
        self.tag() == CELL_TAG
    }

    pub fn is_int32(&self) -> (b: bool)
        ensures
            b == (self@ is Int32),
    {
        self.tag() == INT32_TAG
    }

    /// Whether this holds a double: its tag is none of the tags.
    pub fn is_double(&self) -> (b: bool)
        ensures
            b == (self@ is Double),
    {
        proof {
            use_type_invariant(self);
        }
        let tag = self.tag();
        tag >= 0 || tag < LOWEST_TAG
    }

    pub fn is_true(&self) -> (b: bool)
        ensures
            b == (self@ == Unboxed::Boolean(true)),
    {
        self.tag() == BOOL_TAG && self.payload() != 0
    }

    pub fn is_false(&self) -> (b: bool)
        ensures
            b == (self@ == Unboxed::Boolean(false)),
    {
        self.tag() == BOOL_TAG && self.payload() == 0
    }

    pub fn is_number(&self) -> (b: bool)
        ensures
            b == (self@ is Int32 || self@ is Double),
    {
        self.is_int32() || self.is_double()
    }

    pub fn is_boolean(&self) -> (b: bool)
        ensures
            b == (self@ is Boolean),
    {
        self.tag() == BOOL_TAG
    }

    /// The integer this holds.
    pub fn as_int32(&self) -> (x: i32)
        requires
            self@ is Int32,
        ensures
            self@ == Unboxed::Int32(x),
    {
        self.payload()
    }

    /// The pattern of the double this holds.
    pub fn as_double(&self) -> (d: u64)
        requires
            self@ is Double,
        ensures
            self@ == Unboxed::Double(d),
    {
        self.bits.to_word()
    }

    /// The handle of the cell this refers to.
    pub fn as_cell(&self) -> (h: Handle)
        requires
            self@ is Cell,
        ensures
            self@ == Unboxed::Cell(h),
            h.wf(),
    {
        proof {
            use_type_invariant(self);
        }
        Handle::new(to_unsigned(self.payload()))
    }

    /// The boolean this holds.
    pub fn as_boolean(&self) -> (b: bool)
        requires
            self@ is Boolean,
        ensures
            self@ == Unboxed::Boolean(b),
    {
        self.payload() != 0
    }

    /// Equality of values is reflexive, symmetric and transitive, and
    /// holds exactly when the two words are the same.
    pub proof fn law_equality(a: SplitValue, b: SplitValue, c: SplitValue)
        ensures
            PartialEqSpec::eq_spec(&a, &a),
            PartialEqSpec::eq_spec(&a, &b) == PartialEqSpec::eq_spec(&b, &a),
            PartialEqSpec::eq_spec(&a, &b) && PartialEqSpec::eq_spec(&b, &c)
                ==> PartialEqSpec::eq_spec(&a, &c),
            PartialEqSpec::eq_spec(&a, &b) == (a.as_bits().word() == b.as_bits().word()),
            PartialEqSpec::eq_spec(&a, &b) == (a == b),
    {
        AsBits::law_halves_round_trip(0, a.as_bits());
        AsBits::law_halves_round_trip(0, b.as_bits());
    }

    /// Putting a well-formed content in halves and taking it out again
    /// gives the content back, provided a cell's address fits the payload.
    pub proof fn law_unbox_of_boxed(content: Unboxed)
        requires
            content.wf(),
            content matches Unboxed::Cell(h) ==> h.address() < HALF_RANGE,
        ensures
            is_valid_split(encode_split(content)),
            decode_split(encode_split(content)) == content,
    {
        match content {
            Unboxed::Cell(h) => {
                h.lemma_address();
            },
            _ => {},
        }
    }

    /// Taking the content out of valid halves and putting it back gives
    /// the halves.
    pub proof fn law_boxed_of_unbox(bits: AsBits)
        requires
            is_valid_split(bits),
        ensures
            decode_split(bits).wf(),
            encode_split(decode_split(bits)) == bits,
    {
        if bits.tag == CELL_TAG {
            let address = unsigned(bits.payload as int) as u64;
            Handle::lemma_at(address);
            Handle::at(address).lemma_address();
        }
    }
}

} // verus!
