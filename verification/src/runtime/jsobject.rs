//! The object: a kind, internal slots, properties in insertion order, and
//! an optional prototype.

use vstd::prelude::*;
use fxhash::FxHashMap;
use hashlink::LinkedHashMap;
use crate::runtime::internal_slots::Slots;
use crate::runtime::internal_slots::slots;
use crate::runtime::internal_slots::slots_get;
use crate::runtime::internal_slots::slots_insert;
use crate::runtime::internal_slots::slots_new;
use crate::runtime::internal_slots::slots_values;
use crate::runtime::heap::Handle;
use crate::runtime::heap::Tracer;
use crate::runtime::jsvalue::Unboxed;
use crate::runtime::jsvalue::cells_of;
use crate::runtime::jsvalue::lemma_cells_of;
use crate::runtime::jsvalue::trace_values;
use crate::runtime::property_map::map_entries;
use crate::runtime::jsproperty::JSProperty;
use crate::runtime::jsvalue::JSValue;
use crate::runtime::property_map::Entry;
use crate::runtime::property_map::entries;
use crate::runtime::property_map::lookup;
use crate::runtime::property_map::replaced;
use crate::runtime::property_map::map_contains_key;
use crate::runtime::property_map::map_get;
use crate::runtime::property_map::map_insert;
use crate::runtime::property_map::map_new;
use crate::runtime::property_map::map_set;
use crate::runtime::property_map::lemma_lookup_push;
use crate::runtime::property_map::lemma_lookup_replaced;
use crate::runtime::property_map::lemma_without_absent;
use crate::runtime::vtable::VTable;

verus! {

/// What kind of object an object is. An array carries its elements.
pub enum JSObjectKind {
    Array(Vec<JSValue>),
    String,
    Symbol,
    Error,
    Boolean,
    Number,
    Normal,
}

impl JSObjectKind {
    /// The class tag of objects of this kind.
    pub open spec fn spec_class_name(&self) -> Seq<char> {
        match self {
            JSObjectKind::Array(_) => "Array"@,
            JSObjectKind::String => "String"@,
            JSObjectKind::Symbol => "Symbol"@,
            JSObjectKind::Error => "Error"@,
            JSObjectKind::Boolean => "Boolean"@,
            JSObjectKind::Number => "Number"@,
            JSObjectKind::Normal => "Object"@,
        }
    }

    /// The class tag of objects of this kind.
    pub fn class_name(&self) -> (name: &'static str)
        ensures
            name@ == self.spec_class_name(),
    {
        match self {
            JSObjectKind::Array(_) => "Array",
            JSObjectKind::String => "String",
            JSObjectKind::Symbol => "Symbol",
            JSObjectKind::Error => "Error",
            JSObjectKind::Boolean => "Boolean",
            JSObjectKind::Number => "Number",
            JSObjectKind::Normal => "Object",
        }
    }
}

/// An object of the language.
pub struct JSObject {
    pub kind: JSObjectKind,
    /// Internal slots, by name.
    pub internal: FxHashMap<String, JSValue>,
    /// Properties, by name, in the order they were added.
    pub property: LinkedHashMap<String, JSProperty>,
    /// The object that lookups fall back to. The heap owns it.
    pub prototype: Option<JSValue>,
    pub extensible: bool,
    pub class: String,
    /// The dispatch table of this object's kind.
    pub class_object: VTable,
}

impl JSObject {
    /// The properties of this object, oldest first.
    pub open spec fn properties(&self) -> Seq<Entry> {
        entries(self.property)
    }

    /// The descriptor of this object's own property `name`.
    pub open spec fn own_property(&self, name: Seq<char>) -> Option<JSProperty> {
        lookup(self.properties(), name)
    }

    /// The internal slots of this object.
    pub open spec fn internal_slots(&self) -> Slots {
        slots(self.internal)
    }

    /// An extensible object of the given kind, with no property, no
    /// internal slot and no prototype.
    pub fn new(kind: JSObjectKind) -> (r: JSObject)
        ensures
            r.kind == kind,
            r.properties() == Seq::<Entry>::empty(),
            r.internal_slots() == Slots::empty(),
            r.prototype is None,
            r.extensible,
            r.class@ == kind.spec_class_name(),
            r.class_object == VTable::for_kind(kind),
    {
        let class = kind.class_name().to_owned();
        let class_object = VTable::of_kind(&kind);
        JSObject {
            kind,
            internal: slots_new(),
            property: map_new(),
            prototype: None,
            extensible: true,
            class,
            class_object,
        }
    }

    /// Whether this object is an array.
    pub fn is_array(&self) -> (b: bool)
        ensures
            b == (self.kind is Array),
    {
        match self.kind {
            JSObjectKind::Array(_) => true,
            _ => false,
        }
    }

    /// The descriptor of this object's own property `name`, if it has one.
    pub fn _read(&self, name: &str) -> (r: Option<JSProperty>)
        ensures
            r == self.own_property(name@),
    {
        map_get(&self.property, name)
    }

    /// Stores `prop` as this object's own property `name`. A property that
    /// exists keeps its place in the order; a new one comes last.
    pub fn _write(&mut self, name: &str, prop: JSProperty)
        ensures
            final(self).properties() == (if old(self).own_property(name@).is_some() {
                replaced(old(self).properties(), name@, prop)
            } else {
                old(self).properties().push((name@, prop))
            }),
            final(self).own_property(name@) == Some(prop),
            forall|other: Seq<char>|
                other != name@ ==> final(self).own_property(other) == old(self).own_property(other),
            final(self).kind == old(self).kind,
            final(self).internal == old(self).internal,
            final(self).prototype == old(self).prototype,
            final(self).extensible == old(self).extensible,
            final(self).class == old(self).class,
            final(self).class_object == old(self).class_object,
    {
        let ghost before = self.properties();
        if map_contains_key(&self.property, name) {
            map_set(&mut self.property, name, prop);
            proof {
                assert forall|other: Seq<char>|
                    self.own_property(other) == (if other == name@ {
                        Some(prop)
                    } else {
                        lookup(before, other)
                    }) by {
                    lemma_lookup_replaced(before, name@, prop, other);
                }
            }
        } else {
            map_insert(&mut self.property, name.to_owned(), prop);
            proof {
                lemma_without_absent(before, name@);
                assert forall|other: Seq<char>|
                    self.own_property(other) == (if other == name@ {
                        Some(prop)
                    } else {
                        lookup(before, other)
                    }) by {
                    lemma_lookup_push(before, (name@, prop), other);
                }
            }
        }
    }

    /// Whether this object has an own property `name`.
    pub fn _exist(&self, name: &str) -> (b: bool)
        ensures
            b == self.own_property(name@).is_some(),
    {
        map_contains_key(&self.property, name)
    }

    /// The value of the internal slot `name`, if the slot is set.
    pub fn get_internal(&self, name: &str) -> (r: Option<JSValue>)
        ensures
            r == (if self.internal_slots().contains_key(name@) {
                Some(self.internal_slots()[name@])
            } else {
                None
            }),
    {
        slots_get(&self.internal, name)
    }

    /// Sets the internal slot `name` to `value`.
    pub fn set_internal(&mut self, name: &str, value: JSValue)
        ensures
            final(self).internal_slots() == old(self).internal_slots().insert(name@, value),
            final(self).kind == old(self).kind,
            final(self).property == old(self).property,
            final(self).prototype == old(self).prototype,
            final(self).extensible == old(self).extensible,
            final(self).class == old(self).class,
            final(self).class_object == old(self).class_object,
    {
        slots_insert(&mut self.internal, name.to_owned(), value);
    }
}

/// Whether the descriptor `prop` holds `v`: as its value, its getter or its
/// setter.
pub open spec fn property_holds(prop: JSProperty, v: JSValue) -> bool {
    prop.value == Some(v) || prop.getter == Some(v) || prop.setter == Some(v)
}

/// The values that `prop` holds: its value, its getter and its setter, as
/// far as they are present.
pub open spec fn held_by(prop: JSProperty) -> Seq<JSValue> {
    let value = match prop.value {
        Some(v) => seq![v],
        None => Seq::empty(),
    };
    let getter = match prop.getter {
        Some(v) => seq![v],
        None => Seq::empty(),
    };
    let setter = match prop.setter {
        Some(v) => seq![v],
        None => Seq::empty(),
    };
    value + getter + setter
}

/// The values that the descriptors of `entries` hold, in the order of the
/// entries.
pub open spec fn held_by_entries(entries: Seq<Entry>) -> Seq<JSValue>
    decreases entries.len(),
{
    if entries.len() == 0 {
        Seq::empty()
    } else {
        held_by_entries(entries.drop_last()) + held_by(entries.last().1)
    }
}

/// A descriptor's held values are those it holds.
pub proof fn lemma_held_by(prop: JSProperty, v: JSValue)
    ensures
        held_by(prop).contains(v) <==> property_holds(prop, v),
{
    let s = held_by(prop);
    if property_holds(prop, v) {
        if prop.value == Some(v) {
            assert(s[0] == v);
        } else if prop.getter == Some(v) {
            let i = if prop.value is Some {
                1int
            } else {
                0int
            };
            assert(s[i] == v);
        } else {
            let i = s.len() - 1;
            assert(s[i] == v);
        }
    }
}

/// A value is held by the descriptors of `entries` exactly when one of
/// them holds it.
pub proof fn lemma_held_by_entries(entries: Seq<Entry>, v: JSValue)
    ensures
        held_by_entries(entries).contains(v) <==> exists|i: int|
            0 <= i < entries.len() && property_holds((#[trigger] entries[i]).1, v),
    decreases entries.len(),
{
    if entries.len() > 0 {
        let head = entries.drop_last();
        lemma_held_by_entries(head, v);
        lemma_held_by(entries.last().1, v);
        vstd::seq_lib::lemma_seq_concat_contains_all_elements(
            held_by_entries(head),
            held_by(entries.last().1),
            v,
        );
        if exists|i: int| 0 <= i < head.len() && property_holds((#[trigger] head[i]).1, v) {
            let i = choose|i: int| 0 <= i < head.len() && property_holds((#[trigger] head[i]).1, v);
            assert(entries[i] == head[i]);
        }
        if property_holds(entries.last().1, v) {
            assert(property_holds(entries[entries.len() - 1].1, v));
        }
        if exists|i: int| 0 <= i < entries.len() && property_holds((#[trigger] entries[i]).1, v) {
            let i = choose|i: int|
                0 <= i < entries.len() && property_holds((#[trigger] entries[i]).1, v);
            if i < head.len() {
                assert(head[i] == entries[i]);
            }
        }
    }
}

impl JSObject {
    /// Whether this object holds `v`: as an element of an array, as its
    /// prototype, in a property's descriptor, or in an internal slot.
    pub open spec fn holds(&self, v: JSValue) -> bool {
        ||| (self.kind matches JSObjectKind::Array(elements) && elements@.contains(v))
        ||| self.prototype == Some(v)
        ||| exists|i: int|
            0 <= i < self.properties().len() && property_holds((#[trigger] self.properties()[i]).1, v)
        ||| self.internal_slots().contains_value(v)
    }

    /// Whether this object refers to the cell behind `h`.
    pub open spec fn refers_to(&self, h: Handle) -> bool {
        exists|v: JSValue| self.holds(v) && v@ == Unboxed::Cell(h)
    }

    /// Every value this object holds.
    pub fn held_values(&self) -> (values: Vec<JSValue>)
        ensures
            forall|v: JSValue| values@.contains(v) <==> self.holds(v),
    {
        let mut values: Vec<JSValue> = Vec::new();
        match &self.kind {
            JSObjectKind::Array(elements) => {
                let mut i: usize = 0;
                while i < elements.len()
                    invariant
                        i <= elements.len(),
                        values@ == elements@.take(i as int),
                    decreases elements.len() - i,
                {
                    values.push(elements[i]);
                    proof {
                        assert(elements@.take(i + 1) == elements@.take(i as int).push(
                            elements@[i as int],
                        ));
                    }
                    i = i + 1;
                }
                proof {
                    assert(elements@.take(i as int) == elements@);
                }
            },
            _ => {},
        }
        let ghost elements = values@;
        match self.prototype {
            Some(p) => {
                values.push(p);
            },
            None => {},
        }
        let ghost linked = values@;
        let entries = map_entries(&self.property);
        let ghost props = self.properties();
        let mut i: usize = 0;
        proof {
            assert(props.take(0) == Seq::<Entry>::empty());
        }
        while i < entries.len()
            invariant
                i <= entries.len(),
                entries@.len() == props.len(),
                forall|j: int| 0 <= j < entries@.len() ==> (#[trigger] entries@[j]).1 == props[j].1,
                values@ == linked + held_by_entries(props.take(i as int)),
            decreases entries.len() - i,
        {
            let prop = entries[i].1;
            proof {
                assert(props.take(i + 1).drop_last() == props.take(i as int));
                assert(props.take(i + 1).last().1 == prop);
            }
            let ghost before = values@;
            match prop.value {
                Some(v) => {
                    values.push(v);
                },
                None => {},
            }
            match prop.getter {
                Some(v) => {
                    values.push(v);
                },
                None => {},
            }
            match prop.setter {
                Some(v) => {
                    values.push(v);
                },
                None => {},
            }
            proof {
                assert(values@ == before + held_by(prop));
            }
            i = i + 1;
        }
        proof {
            assert(props.take(i as int) == props);
        }
        let ghost described = values@;
        let stored = slots_values(&self.internal);
        let mut i: usize = 0;
        while i < stored.len()
            invariant
                i <= stored.len(),
                values@ == described + stored@.take(i as int),
            decreases stored.len() - i,
        {
            values.push(stored[i]);
            proof {
                assert(stored@.take(i + 1) == stored@.take(i as int).push(stored@[i as int]));
            }
            i = i + 1;
        }
        proof {
            assert(stored@.take(i as int) == stored@);
            assert forall|v: JSValue| values@.contains(v) <==> self.holds(v) by {
                lemma_held_by_entries(props, v);
                vstd::seq_lib::lemma_seq_concat_contains_all_elements(described, stored@, v);
                vstd::seq_lib::lemma_seq_concat_contains_all_elements(
                    linked,
                    held_by_entries(props),
                    v,
                );
                if self.prototype is Some {
                    vstd::seq_lib::lemma_seq_contains_after_push(
                        elements,
                        self.prototype.unwrap(),
                        v,
                    );
                }
                if !(self.kind is Array) {
                    assert(elements.len() == 0);
                }
                if stored@.contains(v) {
                    let k = choose|k: int| 0 <= k < stored@.len() && stored@[k] == v;
                    assert(self.internal_slots().contains_value(stored@[k]));
                }
            }
        }
        values
    }

    /// Reports every cell this object refers to: through the elements of
    /// an array, the prototype, the values, getters and setters of the
    /// properties, and the internal slots. What was reported before stays.
    pub fn trace_with(&self, tracer: &mut Tracer)
        ensures
            old(tracer)@.len() <= final(tracer)@.len(),
            final(tracer)@.take(old(tracer)@.len() as int) == old(tracer)@,
            forall|h: Handle|
                final(tracer)@.skip(old(tracer)@.len() as int).contains(h) <==> self.refers_to(h),
    {
        let values = self.held_values();
        trace_values(&values, tracer);
        proof {
            let added = cells_of(values@);
            assert(tracer@.skip(old(tracer)@.len() as int) == added);
            assert(tracer@.take(old(tracer)@.len() as int) == old(tracer)@);
            assert forall|h: Handle| added.contains(h) <==> self.refers_to(h) by {
                lemma_cells_of(values@, h);
                if added.contains(h) {
                    let i = choose|i: int|
                        0 <= i < values@.len() && (#[trigger] values@[i])@ == Unboxed::Cell(h);
                    assert(values@.contains(values@[i]));
                    assert(self.holds(values@[i]));
                }
                if self.refers_to(h) {
                    let v = choose|v: JSValue| self.holds(v) && v@ == Unboxed::Cell(h);
                    assert(values@.contains(v));
                    let i = choose|i: int| 0 <= i < values@.len() && values@[i] == v;
                    assert(values@[i]@ == Unboxed::Cell(h));
                }
            }
        }
    }

    /// Called when the collector reclaims this object. Nothing is to be
    /// done.
    pub fn finalize(&mut self)
        ensures
            *final(self) == *old(self),
    {
    }
}

} // verus!
