use jscore::runtime::heap::Handle;
use jscore::runtime::jsvalue::JSValue;
use jscore::runtime::jsvalue::Unboxed;
use jscore::runtime::jsvalue32_64::cell_payload_offset;
use jscore::runtime::jsvalue32_64::payload_offset;
use jscore::runtime::jsvalue32_64::tag_offset;
use jscore::runtime::jsvalue32_64::AsBits;
use jscore::runtime::jsvalue32_64::SplitValue;
use jscore::runtime::jsvalue32_64::WhichValueWord;
use jscore::runtime::jsvalue32_64::BOOL_TAG;
use jscore::runtime::jsvalue32_64::CELL_TAG;
use jscore::runtime::jsvalue32_64::DELETED_TAG;
use jscore::runtime::jsvalue32_64::EMPTY_TAG;
use jscore::runtime::jsvalue32_64::INT32_TAG;
use jscore::runtime::jsvalue32_64::LOWEST_TAG;
use jscore::runtime::jsvalue32_64::NULL_TAG;
use jscore::runtime::jsvalue32_64::UNDEFINED_TAG;

fn split_samples() -> Vec<SplitValue> {
    vec![
        SplitValue::new_int(0),
        SplitValue::new_int(-1),
        SplitValue::new_int(i32::MIN),
        SplitValue::new_double(0.0f64.to_bits()),
        SplitValue::new_double((-1.5f64).to_bits()),
        SplitValue::new_double(f64::NAN.to_bits()),
        SplitValue::new_double(f64::NEG_INFINITY.to_bits()),
        SplitValue::true_(),
        SplitValue::false_(),
        SplitValue::null(),
        SplitValue::undefined(),
        SplitValue::default(),
        SplitValue::cell(Handle::from_address(8).unwrap()),
        SplitValue::cell(Handle::from_address(0xffff_fff8).unwrap()),
    ]
}

fn split_kinds(v: &SplitValue) -> [bool; 7] {
    [
        v.is_int32(),
        v.is_double(),
        v.is_boolean(),
        v.is_null(),
        v.is_undefined(),
        v.is_cell(),
        v.is_empty(),
    ]
}

#[test]
fn the_halves_lie_at_their_offsets() {
    assert_eq!(payload_offset(), 0);
    assert_eq!(tag_offset(), 4);
    assert_eq!(cell_payload_offset(), 0);
    assert_eq!(WhichValueWord::Tag.offset(), 4);
    assert_eq!(WhichValueWord::Payload.offset(), 0);
    let word = 0x1122_3344_5566_7788u64;
    let bytes = word.to_le_bytes();
    let bits = AsBits::from_word(word);
    let mut tag = [0u8; 4];
    tag.copy_from_slice(&bytes[tag_offset()..tag_offset() + 4]);
    let mut payload = [0u8; 4];
    payload.copy_from_slice(&bytes[payload_offset()..payload_offset() + 4]);
    assert_eq!(bits.tag, i32::from_le_bytes(tag));
    assert_eq!(bits.payload, i32::from_le_bytes(payload));
    assert_eq!(bits.half(WhichValueWord::Tag), 0x1122_3344);
    assert_eq!(bits.half(WhichValueWord::Payload), 0x5566_7788);
}

#[test]
fn words_split_and_join() {
    for word in [
        0u64,
        1,
        0xffff_ffff,
        0x1_0000_0000,
        0x8000_0000_0000_0000,
        0x7fff_ffff_8000_0000,
        0xffff_ffff_ffff_ffff,
        0x0123_4567_89ab_cdef,
    ] {
        let bits = AsBits::from_word(word);
        assert_eq!(bits.to_word(), word);
        assert_eq!(bits.tag as u32 as u64, word >> 32);
        assert_eq!(bits.payload as u32 as u64, word & 0xffff_ffff);
    }
    let bits = AsBits { payload: -1, tag: -2 };
    assert_eq!(bits.to_word(), 0xffff_fffe_ffff_ffff);
    assert_eq!(AsBits::from_word(bits.to_word()), bits);
}

#[test]
fn the_tags_stand_at_the_top() {
    assert_eq!(INT32_TAG, 0xffff_ffffu32 as i32);
    assert_eq!(BOOL_TAG, 0xffff_fffeu32 as i32);
    assert_eq!(UNDEFINED_TAG, 0xffff_fffdu32 as i32);
    assert_eq!(NULL_TAG, 0xffff_fffcu32 as i32);
    assert_eq!(CELL_TAG, 0xffff_fffbu32 as i32);
    assert_eq!(EMPTY_TAG, 0xffff_fffau32 as i32);
    assert_eq!(DELETED_TAG, 0xffff_fff9u32 as i32);
    assert_eq!(LOWEST_TAG, DELETED_TAG);
}

#[test]
fn split_values_carry_tag_and_payload() {
    assert_eq!(SplitValue::new_int(-9).tag(), INT32_TAG);
    assert_eq!(SplitValue::new_int(-9).payload(), -9);
    assert_eq!(SplitValue::true_().tag(), BOOL_TAG);
    assert_eq!(SplitValue::true_().payload(), 1);
    assert_eq!(SplitValue::false_().tag(), BOOL_TAG);
    assert_eq!(SplitValue::false_().payload(), 0);
    assert_eq!(SplitValue::null().tag(), NULL_TAG);
    assert_eq!(SplitValue::undefined().tag(), UNDEFINED_TAG);
    assert_eq!(SplitValue::default().tag(), EMPTY_TAG);
    let cell = SplitValue::cell(Handle::from_address(0x1000).unwrap());
    assert_eq!(cell.tag(), CELL_TAG);
    assert_eq!(cell.payload(), 0x1000);
    let d = SplitValue::new_double(1.0f64.to_bits());
    assert_eq!(d.tag(), 0x3ff0_0000);
    assert_eq!(d.payload(), 0);
}

#[test]
fn split_values_are_of_exactly_one_kind() {
    for v in split_samples() {
        assert_eq!(split_kinds(&v).iter().filter(|b| **b).count(), 1);
        assert_eq!(v.is_undefined_or_null(), v.is_undefined() || v.is_null());
        assert_eq!(v.is_number(), v.is_int32() || v.is_double());
        assert_eq!(v.is_boolean(), v.is_true() || v.is_false());
    }
    assert!(SplitValue::new_int(1).is_int32());
    assert!(SplitValue::new_double(1.0f64.to_bits()).is_double());
    assert!(SplitValue::new_double((-1.0f64).to_bits()).is_double());
    assert!(SplitValue::true_().is_true());
    assert!(SplitValue::false_().is_false());
    assert!(SplitValue::null().is_null());
    assert!(SplitValue::undefined().is_undefined());
    assert!(SplitValue::default().is_empty());
    assert!(SplitValue::cell(Handle::from_address(8).unwrap()).is_cell());
}

#[test]
fn split_values_round_trip() {
    for x in [0, 1, -1, i32::MAX, i32::MIN] {
        assert_eq!(SplitValue::new_int(x).as_int32(), x);
    }
    for d in [0.0, -0.0, 1.5, -1e300, f64::INFINITY, f64::NEG_INFINITY, f64::NAN, f64::MAX] {
        assert_eq!(SplitValue::new_double(d.to_bits()).as_double(), d.to_bits());
    }
    assert_eq!(SplitValue::new_double(0xfffb_ffff_ffff_ffff).as_double(), 0xfffb_ffff_ffff_ffff);
    for addr in [8u64, 0x1000, 0x8000_0000, 0xffff_fff8] {
        let h = Handle::from_address(addr).unwrap();
        assert_eq!(SplitValue::cell(h).as_cell(), h);
    }
    assert!(SplitValue::true_().as_boolean());
    assert!(!SplitValue::false_().as_boolean());
}

#[test]
fn halves_are_checked_before_they_become_values() {
    assert!(SplitValue::with_tag_payload(INT32_TAG, 5).is_some());
    assert!(SplitValue::with_tag_payload(BOOL_TAG, 1).is_some());
    assert!(SplitValue::with_tag_payload(BOOL_TAG, 2).is_none());
    assert!(SplitValue::with_tag_payload(UNDEFINED_TAG, 0).is_some());
    assert!(SplitValue::with_tag_payload(UNDEFINED_TAG, 1).is_none());
    assert!(SplitValue::with_tag_payload(NULL_TAG, 0).is_some());
    assert!(SplitValue::with_tag_payload(NULL_TAG, -1).is_none());
    assert!(SplitValue::with_tag_payload(EMPTY_TAG, 0).is_some());
    assert!(SplitValue::with_tag_payload(EMPTY_TAG, 8).is_none());
    assert!(SplitValue::with_tag_payload(CELL_TAG, 8).is_some());
    assert!(SplitValue::with_tag_payload(CELL_TAG, -8).is_some());
    assert!(SplitValue::with_tag_payload(CELL_TAG, 0).is_none());
    assert!(SplitValue::with_tag_payload(CELL_TAG, 12).is_none());
    assert!(SplitValue::with_tag_payload(DELETED_TAG, 0).is_none());
    assert!(SplitValue::with_tag_payload(0x3ff0_0000, 0).is_some());
    assert!(SplitValue::with_tag_payload(0xfffb_ffffu32 as i32, -1).is_some());
    assert!(SplitValue::with_tag_payload(0xfffc_0000u32 as i32, 0).is_none());
    assert!(SplitValue::with_tag_payload(-8, 0).is_none());
    let v = SplitValue::with_tag_payload(INT32_TAG, 5).unwrap();
    assert!(v.is_int32());
    assert_eq!(v.as_int32(), 5);
    let d = SplitValue::with_tag_payload(0x3ff0_0000, 0).unwrap();
    assert!(d.is_double());
    assert_eq!(f64::from_bits(d.as_double()), 1.0);
}

#[test]
fn both_encodings_hold_the_same_contents() {
    let h = Handle::from_address(64).unwrap();
    let pairs = vec![
        (JSValue::new_int(-3), SplitValue::new_int(-3)),
        (JSValue::new_double(2.5f64.to_bits()), SplitValue::new_double(2.5f64.to_bits())),
        (JSValue::true_(), SplitValue::true_()),
        (JSValue::false_(), SplitValue::false_()),
        (JSValue::null(), SplitValue::null()),
        (JSValue::undefined(), SplitValue::undefined()),
        (JSValue::default(), SplitValue::default()),
        (JSValue::cell(h), SplitValue::cell(h)),
    ];
    for (packed, split) in pairs {
        assert_eq!(packed.is_int32(), split.is_int32());
        assert_eq!(packed.is_double(), split.is_double());
        assert_eq!(packed.is_boolean(), split.is_boolean());
        assert_eq!(packed.is_true(), split.is_true());
        assert_eq!(packed.is_null(), split.is_null());
        assert_eq!(packed.is_undefined(), split.is_undefined());
        assert_eq!(packed.is_cell(), split.is_cell());
        assert_eq!(packed.is_empty(), split.is_empty());
        match packed.unbox() {
            Unboxed::Int32(x) => assert_eq!(split.as_int32(), x),
            Unboxed::Double(d) => assert_eq!(split.as_double(), d),
            Unboxed::Boolean(b) => assert_eq!(split.as_boolean(), b),
            Unboxed::Cell(c) => assert_eq!(split.as_cell(), c),
            _ => {}
        }
    }
}

#[test]
fn split_values_are_equal_when_their_words_are() {
    let all = split_samples();
    for a in &all {
        assert!(a == a);
        for b in &all {
            let same = a.tag() == b.tag() && a.payload() == b.payload();
            assert_eq!(a == b, same);
            assert_eq!(a == b, b == a);
        }
    }
    assert!(SplitValue::new_int(1) != SplitValue::new_double(1.0f64.to_bits()));
    assert!(SplitValue::new_int(1) == SplitValue::new_int(1));
    assert!(SplitValue::true_() != SplitValue::false_());
    assert!(SplitValue::null() != SplitValue::undefined());
}
