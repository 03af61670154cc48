//! The map from internal-slot names to values.
//!
//! The map is a `HashMap` with the hasher of `fxhash`. What it holds is
//! named by `slots`; the functions here say what each of the map's methods
//! does to it. The order in which a hash map is walked is left open.

use vstd::prelude::*;
use fxhash::FxHashMap;
use crate::runtime::jsvalue::JSValue;

verus! {

/// `fxhash::FxHasher`, the hasher of the map.
#[verifier::external_type_specification]
#[verifier::external_body]
pub struct ExFxHasher(fxhash::FxHasher);

/// `std::hash::BuildHasherDefault`, which makes the map's hashers.
#[verifier::external_type_specification]
#[verifier::external_body]
#[verifier::reject_recursive_types(H)]
pub struct ExBuildHasherDefault<H>(std::hash::BuildHasherDefault<H>);

/// Values by the names they are stored under.
pub type Slots = Map<Seq<char>, JSValue>;

/// What `map` holds: for each name in it, the value stored under the name.
pub uninterp spec fn slots(map: FxHashMap<String, JSValue>) -> Slots;

/// `FxHashMap::default`: a map with no entry.
#[verifier::external_body]
pub(crate) fn slots_new() -> (fresh: FxHashMap<String, JSValue>)
    ensures
        slots(fresh) == Slots::empty(),
{
    FxHashMap::default()
}

/// `HashMap::get`: a copy of the value stored under `name`, if there is
/// one.
#[verifier::external_body]
pub(crate) fn slots_get(map: &FxHashMap<String, JSValue>, name: &str) -> (r: Option<JSValue>)
    ensures
        r == (if slots(*map).contains_key(name@) {
            Some(slots(*map)[name@])
        } else {
            None
        }),
{
    map.get(name).copied()
}

/// `HashMap::insert`: `value` is stored under `name`, in place of what was
/// stored under it, which is returned.
#[verifier::external_body]
pub(crate) fn slots_insert(map: &mut FxHashMap<String, JSValue>, name: String, value: JSValue) -> (r:
    Option<JSValue>)
    ensures
        slots(*final(map)) == slots(*old(map)).insert(name@, value),
        r == (if slots(*old(map)).contains_key(name@) {
            Some(slots(*old(map))[name@])
        } else {
            None
        }),
{
    map.insert(name, value)
}

/// `HashMap::values`, collected: the value of every entry, in no stated
/// order.
#[verifier::external_body]
pub(crate) fn slots_values(map: &FxHashMap<String, JSValue>) -> (r: Vec<JSValue>)
    ensures
        forall|i: int| 0 <= i < r@.len() ==> slots(*map).contains_value(#[trigger] r@[i]),
        forall|v: JSValue| slots(*map).contains_value(v) ==> r@.contains(v),
{
    map.values().copied().collect()
}

} // verus!
