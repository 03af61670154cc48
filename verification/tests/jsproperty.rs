use jscore::runtime::jsproperty::JSProperty;
use jscore::runtime::jsvalue::JSValue;

fn kinds(p: &JSProperty) -> [bool; 3] {
    [p.is_data(), p.is_accessor(), p.is_generic()]
}

#[test]
fn a_new_descriptor_has_no_field() {
    let p = JSProperty::new();
    assert_eq!(p.value, None);
    assert_eq!(p.getter, None);
    assert_eq!(p.setter, None);
    assert_eq!(p.configurable, None);
    assert_eq!(p.enumerable, None);
    assert_eq!(p.writable, None);
    assert!(p.is_empty());
    assert!(p.is_generic());
    assert!(p == JSProperty::default());
}

#[test]
fn builders_set_one_field_each() {
    let v = JSValue::new_int(1);
    let g = JSValue::new_int(2);
    let s = JSValue::new_int(3);
    let p = JSProperty::new().value(v);
    assert_eq!(p.value, Some(v));
    assert_eq!(p.getter, None);
    let p = JSProperty::new().getter(g);
    assert_eq!(p.getter, Some(g));
    assert_eq!(p.value, None);
    assert_eq!(p.setter, None);
    let p = JSProperty::new().setter(s);
    assert_eq!(p.setter, Some(s));
    assert_eq!(p.getter, None);
    let p = JSProperty::new().enumerable(true);
    assert_eq!(p.enumerable, Some(true));
    assert_eq!(p.writable, None);
    assert_eq!(p.configurable, None);
    let p = JSProperty::new().writable(false);
    assert_eq!(p.writable, Some(false));
    assert_eq!(p.enumerable, None);
    let p = JSProperty::new().configurable(true);
    assert_eq!(p.configurable, Some(true));
    assert_eq!(p.writable, None);
}

#[test]
fn builders_keep_what_was_set() {
    let v = JSValue::new_int(1);
    let p = JSProperty::new().value(v).writable(true).enumerable(false).configurable(true);
    assert_eq!(p.value, Some(v));
    assert_eq!(p.writable, Some(true));
    assert_eq!(p.enumerable, Some(false));
    assert_eq!(p.configurable, Some(true));
    assert_eq!(p.getter, None);
    assert_eq!(p.setter, None);
    let q = p.enumerable(true);
    assert_eq!(q.enumerable, Some(true));
    assert_eq!(q.value, Some(v));
}

#[test]
fn data_descriptors() {
    let v = JSValue::undefined();
    assert_eq!(kinds(&JSProperty::new().value(v)), [true, false, false]);
    assert_eq!(kinds(&JSProperty::new().writable(false)), [true, false, false]);
    assert_eq!(kinds(&JSProperty::new().value(v).writable(true)), [true, false, false]);
    assert_eq!(kinds(&JSProperty::new().value(v).enumerable(true)), [true, false, false]);
}

#[test]
fn accessor_descriptors() {
    let f = JSValue::null();
    assert_eq!(kinds(&JSProperty::new().getter(f)), [false, true, false]);
    assert_eq!(kinds(&JSProperty::new().setter(f)), [false, true, false]);
    assert_eq!(kinds(&JSProperty::new().getter(f).setter(f)), [false, true, false]);
    assert_eq!(kinds(&JSProperty::new().getter(f).configurable(true)), [false, true, false]);
}

#[test]
fn generic_descriptors() {
    assert_eq!(kinds(&JSProperty::new()), [false, false, true]);
    assert_eq!(kinds(&JSProperty::new().enumerable(true)), [false, false, true]);
    assert_eq!(kinds(&JSProperty::new().configurable(false)), [false, false, true]);
    assert_eq!(
        kinds(&JSProperty::new().enumerable(false).configurable(true)),
        [false, false, true]
    );
}

#[test]
fn exactly_one_kind_for_descriptors_of_one_kind() {
    let v = JSValue::new_int(0);
    let values = [None, Some(v)];
    let flags = [None, Some(false), Some(true)];
    for value in values {
        for getter in values {
            for setter in values {
                for writable in flags {
                    for enumerable in flags {
                        let p = JSProperty {
                            value,
                            getter,
                            setter,
                            configurable: None,
                            enumerable,
                            writable,
                        };
                        let count = kinds(&p).iter().filter(|b| **b).count();
                        let mixed = (value.is_some() || writable.is_some())
                            && (getter.is_some() || setter.is_some());
                        if mixed {
                            assert_eq!(kinds(&p), [true, true, false]);
                        } else {
                            assert_eq!(count, 1);
                        }
                        assert!(count >= 1);
                    }
                }
            }
        }
    }
}

#[test]
fn emptiness_does_not_look_at_the_value() {
    assert!(JSProperty::new().is_empty());
    assert!(JSProperty::new().value(JSValue::new_int(1)).is_empty());
    assert!(!JSProperty::new().getter(JSValue::null()).is_empty());
    assert!(!JSProperty::new().setter(JSValue::null()).is_empty());
    assert!(!JSProperty::new().enumerable(false).is_empty());
    assert!(!JSProperty::new().writable(false).is_empty());
    assert!(!JSProperty::new().configurable(false).is_empty());
}
