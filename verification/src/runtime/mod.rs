//! Values, heap cells, objects and their properties.

use vstd::prelude::*;
use crate::runtime::heap::Heap;
use crate::runtime::jsvalue::JSValue;

pub mod cell;
pub mod double;
pub mod heap;
pub mod internal_slots;
pub mod jsobject;
pub mod jsproperty;
pub mod jsvalue;
pub mod jsvalue32_64;
pub mod property_map;
pub mod pure_nan;
pub mod vtable;

verus! {

/// What the object model works on: the heap, and the values of the
/// built-in objects.
pub struct Runtime {
    pub heap: Heap,
    pub number: JSValue,
    pub boolean: JSValue,
    pub math: JSValue,
    pub object: JSValue,
    pub string: JSValue,
    pub symbol: JSValue,
    pub global: JSValue,
}

impl Runtime {
    /// A runtime on `heap`, with every built-in object undefined.
    pub fn new(heap: Heap) -> (rt: Runtime)
        ensures
            rt.heap == heap,
            rt.number == JSValue::spec_undefined(),
            rt.boolean == JSValue::spec_undefined(),
            rt.math == JSValue::spec_undefined(),
            rt.object == JSValue::spec_undefined(),
            rt.string == JSValue::spec_undefined(),
            rt.symbol == JSValue::spec_undefined(),
            rt.global == JSValue::spec_undefined(),
    {
        Runtime {
            heap,
            number: JSValue::undefined(),
            boolean: JSValue::undefined(),
            math: JSValue::undefined(),
            object: JSValue::undefined(),
            string: JSValue::undefined(),
            symbol: JSValue::undefined(),
            global: JSValue::undefined(),
        }
    }

    /// Calls `function` with `this` as receiver. No interpreter is part of
    /// this core: the call does nothing and yields undefined.
    pub fn execute(&mut self, function: JSValue, this: JSValue, arguments: &[JSValue]) -> (r: Result<
        JSValue,
        JSValue,
    >)
        ensures
            r == Ok::<JSValue, JSValue>(JSValue::spec_undefined()),
            *final(self) == *old(self),
    {
        Ok(JSValue::undefined())
    }
}

} // verus!
