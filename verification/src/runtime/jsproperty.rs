//! The property descriptor.

use vstd::prelude::*;
use crate::runtime::jsvalue::JSValue;

verus! {

/// A property's value or accessors, and its attributes. A descriptor is
/// built one field at a time, so every field may be absent; what kind of
/// descriptor it is follows from which fields are present.
#[derive(Clone, Copy, Debug, PartialEq, Eq)]
pub struct JSProperty {
    pub value: Option<JSValue>,
    pub getter: Option<JSValue>,
    pub setter: Option<JSValue>,
    pub configurable: Option<bool>,
    pub enumerable: Option<bool>,
    pub writable: Option<bool>,
}

impl JSProperty {
    /// The descriptor with no field set.
    pub fn new() -> (r: Self)
        ensures
            r == (JSProperty {
                value: None,
                getter: None,
                setter: None,
                configurable: None,
                enumerable: None,
                writable: None,
            }),
    {
        Self {
            value: None,
            getter: None,
            setter: None,
            configurable: None,
            enumerable: None,
            writable: None,
        }
    }

    /// This descriptor with the enumerable flag set to `enumerable`.
    pub fn enumerable(self, enumerable: bool) -> (r: Self)
        ensures
            r == (JSProperty { enumerable: Some(enumerable), ..self }),
    {
        let mut this = self;
        this.enumerable = Some(enumerable);
        this
    }

    /// This descriptor with the writable flag set to `writable`.
    pub fn writable(self, writable: bool) -> (r: Self)
        ensures
            r == (JSProperty { writable: Some(writable), ..self }),
    {
        let mut this = self;
        this.writable = Some(writable);
        this
    }

    /// This descriptor with the configurable flag set to `configurable`.
    pub fn configurable(self, configurable: bool) -> (r: Self)
        ensures
            r == (JSProperty { configurable: Some(configurable), ..self }),
    {
        let mut this = self;
        this.configurable = Some(configurable);
        this
    }

    /// This descriptor with its value set to `value`.
    pub fn value(self, value: JSValue) -> (r: Self)
        ensures
            r == (JSProperty { value: Some(value), ..self }),
    {
        let mut this = self;
        this.value = Some(value);
        this
    }

    /// This descriptor with its getter set to `get`.
    pub fn getter(self, get: JSValue) -> (r: Self)
        ensures
            r == (JSProperty { getter: Some(get), ..self }),
    {
        let mut this = self;
        this.getter = Some(get);
        this
    }

    /// This descriptor with its setter set to `set`.
    pub fn setter(self, set: JSValue) -> (r: Self)
        ensures
            r == (JSProperty { setter: Some(set), ..self }),
    {
        let mut this = self;
        this.setter = Some(set);
        this
    }

    pub open spec fn spec_is_empty(&self) -> bool {
        &&& self.getter is None
        &&& self.setter is None
        &&& self.enumerable is None
        &&& self.writable is None
        &&& self.configurable is None
    }

    pub open spec fn spec_is_accessor(&self) -> bool {
        self.getter is Some || self.setter is Some
    }

    pub open spec fn spec_is_data(&self) -> bool {
        self.value is Some || self.writable is Some
    }

    pub open spec fn spec_is_generic(&self) -> bool {
        !self.spec_is_accessor() && !self.spec_is_data()
    }

    /// Whether the descriptor has no accessor and no attribute. Its value
    /// is not looked at.
    #[verifier::when_used_as_spec(spec_is_empty)]
    pub fn is_empty(&self) -> (b: bool)
        ensures
            b == self.spec_is_empty(),
    {
        self.getter.is_none() && self.setter.is_none() && self.enumerable.is_none()
            && self.writable.is_none() && self.configurable.is_none()
    }

    /// Whether the descriptor has a getter or a setter.
    #[verifier::when_used_as_spec(spec_is_accessor)]
    pub fn is_accessor(&self) -> (b: bool)
        ensures
            b == (self.getter is Some || self.setter is Some),
    {
        self.getter.is_some() || self.setter.is_some()
    }

    /// Whether the descriptor has a value or says whether it is writable.
    #[verifier::when_used_as_spec(spec_is_data)]
    pub fn is_data(&self) -> (b: bool)
        ensures
            b == (self.value is Some || self.writable is Some),
    {
        self.value.is_some() || self.writable.is_some()
    }

    /// Whether the descriptor is neither an accessor nor a data
    /// descriptor: it says at most whether the property is enumerable and
    /// configurable.
    #[verifier::when_used_as_spec(spec_is_generic)]
    pub fn is_generic(&self) -> (b: bool)
        ensures
            b == (!self.is_accessor() && !self.is_data()),
    {
        !self.is_accessor() && !self.is_data()
    }

    /// Whether the descriptor keeps to one kind: it does not have both a
    /// field of an accessor and a field of a data descriptor.
    pub open spec fn is_consistent(&self) -> bool {
        !(self.is_accessor() && self.is_data())
    }

    /// Every descriptor is of at least one of the three kinds, and a
    /// generic one is of no other kind.
    pub proof fn law_kinds_cover(self)
        ensures
            self.is_data() || self.is_accessor() || self.is_generic(),
            self.is_generic() ==> !self.is_data() && !self.is_accessor(),
    {
    }

    /// A descriptor that keeps to one kind is of exactly one of the three,
    /// and no two of them hold together.
    pub proof fn law_exactly_one_kind(self)
        requires
            self.is_consistent(),
        ensures
            !(self.is_data() && self.is_accessor()),
            !(self.is_data() && self.is_generic()),
            !(self.is_accessor() && self.is_generic()),
            self.is_data() || self.is_accessor() || self.is_generic(),
    {
    }
}

impl Default for JSProperty {
    fn default() -> (r: Self)
        ensures
            r == (JSProperty {
                value: None,
                getter: None,
                setter: None,
                configurable: None,
                enumerable: None,
                writable: None,
            }),
    {
        Self::new()
    }
}

} // verus!
