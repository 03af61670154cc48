//! Heap cells: the payloads that live on the heap.

use vstd::prelude::*;
use vstd::pervasive::unreached;
use crate::runtime::heap::Handle;
use crate::runtime::heap::Tracer;
use crate::runtime::jsobject::JSObject;

verus! {

/// What a heap cell holds. The heap owns every cell; everything else
/// refers to cells by handle.
pub enum Cell {
    String(String),
    Object(JSObject),
}

impl Cell {
    /// Whether this cell refers to the cell behind `h`. A string refers to
    /// no cell.
    pub open spec fn refers_to(&self, h: Handle) -> bool {
        match self {
            Cell::Object(ob) => ob.refers_to(h),
            Cell::String(_) => false,
        }
    }

    /// Reports every cell this cell refers to. What was reported before
    /// stays.
    pub fn trace_with(&self, tracer: &mut Tracer)
        ensures
            old(tracer)@.len() <= final(tracer)@.len(),
            final(tracer)@.take(old(tracer)@.len() as int) == old(tracer)@,
            forall|h: Handle|
                final(tracer)@.skip(old(tracer)@.len() as int).contains(h) <==> self.refers_to(h),
    {
        match self {
            Cell::Object(ob) => ob.trace_with(tracer),
            _ => {
            },
        }
    }

    /// Called when the collector reclaims this cell. Nothing is to be
    /// done.
    pub fn finalize(&mut self)
        ensures
            *final(self) == *old(self),
    {
    }

    /// The object in this cell, which must hold one.
    pub fn unchecked_object_mut(&mut self) -> (ob: &mut JSObject)
        requires
            *old(self) is Object,
        ensures
            *ob == old(self)->Object_0,
            *final(self) == Cell::Object(*final(ob)),
    {
        match self {
            Cell::Object(ob) => ob,
            _ => unreached(),
        }
    }
}

} // verus!
