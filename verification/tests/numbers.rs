use jscore::runtime::double::from_i32;
use jscore::runtime::double::to_i32;
use jscore::runtime::jsvalue::try_convert_to_i52;
use jscore::runtime::jsvalue::JSValue;
use jscore::runtime::jsvalue::NOT_INT52;
use jscore::runtime::pure_nan::is_impure_nan;
use jscore::runtime::pure_nan::purify_nan;

/// A small generator of patterns, the same on every run.
struct Patterns {
    state: u64,
}

impl Patterns {
    fn next(&mut self) -> u64 {
        self.state ^= self.state << 13;
        self.state ^= self.state >> 7;
        self.state ^= self.state << 17;
        self.state
    }

    /// A pattern whose exponent lies where integers and fractions meet.
    fn near_integers(&mut self) -> u64 {
        let bits = self.next();
        let exponent = 1000 + (self.next() % 100);
        let keep = 52 - (self.next() % 53);
        let mantissa = if keep >= 52 { 0 } else { (bits & 0x000f_ffff_ffff_ffff) >> keep << keep };
        (bits & 0x8000_0000_0000_0000) | (exponent << 52) | mantissa
    }
}

fn expected_i52(d: f64) -> i64 {
    if d.is_nan() || d.is_infinite() {
        return NOT_INT52;
    }
    if d.fract() != 0.0 {
        return NOT_INT52;
    }
    if d == 0.0 && d.is_sign_negative() {
        return NOT_INT52;
    }
    if d >= 2251799813685248.0 || d < -2251799813685248.0 {
        return NOT_INT52;
    }
    d as i64
}

#[test]
fn to_i32_agrees_with_the_machine_on_many_patterns() {
    let mut patterns = Patterns { state: 0x9e37_79b9_7f4a_7c15 };
    for _ in 0..200_000 {
        let any = patterns.next();
        assert_eq!(to_i32(any), f64::from_bits(any) as i32, "{:#x}", any);
        let near = patterns.near_integers();
        assert_eq!(to_i32(near), f64::from_bits(near) as i32, "{:#x}", near);
    }
}

#[test]
fn from_i32_agrees_with_the_machine_on_many_integers() {
    let mut patterns = Patterns { state: 0x1234_5678_9abc_def1 };
    for _ in 0..200_000 {
        let x = patterns.next() as i32;
        assert_eq!(from_i32(x), (x as f64).to_bits(), "{}", x);
        let small = x >> (patterns.next() % 32);
        assert_eq!(from_i32(small), (small as f64).to_bits(), "{}", small);
        assert_eq!(to_i32(from_i32(small)), small);
        assert_eq!(try_convert_to_i52(from_i32(small)), small as i64);
    }
}

#[test]
fn try_convert_agrees_with_the_machine_on_many_patterns() {
    let mut patterns = Patterns { state: 0x0bad_cafe_dead_beef };
    for _ in 0..200_000 {
        let any = patterns.next();
        assert_eq!(try_convert_to_i52(any), expected_i52(f64::from_bits(any)), "{:#x}", any);
        let near = patterns.near_integers();
        assert_eq!(try_convert_to_i52(near), expected_i52(f64::from_bits(near)), "{:#x}", near);
    }
}

#[test]
fn every_pure_pattern_round_trips_through_a_value() {
    let mut patterns = Patterns { state: 0x5555_aaaa_5555_aaab };
    for _ in 0..200_000 {
        let any = patterns.next();
        if is_impure_nan(any) {
            assert!(f64::from_bits(any).is_nan());
            assert!(!is_impure_nan(purify_nan(any)));
            continue;
        }
        let v = JSValue::new_double(any);
        assert!(v.is_double());
        assert!(!v.is_int32() && !v.is_cell() && !v.is_boolean());
        assert!(!v.is_undefined_or_null() && !v.is_empty());
        assert_eq!(v.as_double(), any);
        assert_eq!(v.to_number(), Ok(any));
        assert_eq!(v.to_int32(), Ok(f64::from_bits(any) as i32));
        assert_eq!(v.is_any_int(), expected_i52(f64::from_bits(any)) != NOT_INT52);
    }
}

#[test]
fn every_integer_round_trips_through_a_value() {
    let mut patterns = Patterns { state: 0x0f0f_f0f0_1234_4321 };
    for _ in 0..200_000 {
        let x = patterns.next() as i32;
        let v = JSValue::new_int(x);
        assert!(v.is_int32());
        assert!(!v.is_double() && !v.is_cell() && !v.is_boolean());
        assert!(!v.is_undefined_or_null() && !v.is_empty());
        assert_eq!(v.as_int32(), x);
        assert_eq!(v.to_int32(), Ok(x));
        assert_eq!(v.to_uint32(), Ok(x as u32));
        assert_eq!(v.as_any_int(), x as i64);
        assert_eq!(v.to_number(), Ok((x as f64).to_bits()));
    }
}
