//! The per-kind dispatch table and the ordinary object's internal methods.
//!
//! A lookup that misses on an object goes on with the object's prototype,
//! through the prototype's own table. Nothing keeps prototype links from
//! forming a cycle, so a lookup follows no more links than the heap has
//! cells: on a chain without a cycle that is every link, and on a cycle the
//! lookup ends with nothing found.

use vstd::prelude::*;
use vstd::pervasive::unreached;
use vstd::set_lib::lemma_int_range;
use vstd::set_lib::lemma_len_subset;
use vstd::set_lib::set_int_range;
use crate::runtime::Runtime;
use crate::runtime::heap::Heap;
use crate::runtime::jsobject::JSObject;
use crate::runtime::jsobject::JSObjectKind;
use crate::runtime::jsproperty::JSProperty;
use crate::runtime::jsvalue::JSValue;
use crate::runtime::jsvalue::law_equality;
use crate::runtime::jsvalue::law_equality_is_content;
use crate::runtime::property_map::Entry;
use crate::runtime::property_map::map_entries;

verus! {

/// Which implementation of the internal methods an object uses. The table
/// is chosen once, by the object's kind, when the object is made.
#[derive(Clone, Copy, Debug, PartialEq, Eq, Structural)]
pub enum VTable {
    /// The internal methods of an ordinary object.
    Ordinary,
}

/// What getting a property comes to: a value to return, or a getter to
/// call.
#[derive(Clone, Copy, Debug, PartialEq, Eq)]
pub enum GetAction {
    Return(JSValue),
    /// Call `getter` with `receiver` as receiver and no arguments.
    Invoke { getter: JSValue, receiver: JSValue },
}

/// The descriptor that a lookup of `name` finds, starting at `object` and
/// following at most `fuel` prototype links: that of the first object on
/// the way whose own properties have the name.
pub open spec fn chain_lookup(heap: Heap, object: JSValue, name: Seq<char>, fuel: nat) -> Option<
    JSProperty,
>
    decreases fuel,
{
    let obj = heap.object(object);
    match obj.class_object.own_property_of(heap, object, name) {
        Some(prop) => Some(prop),
        None => match obj.prototype {
            Some(proto) => if fuel == 0 {
                None
            } else {
                chain_lookup(heap, proto, name, (fuel - 1) as nat)
            },
            None => None,
        },
    }
}

/// The descriptor that `name` leads to on `object` or on its prototype
/// chain.
pub open spec fn property_of(heap: Heap, object: JSValue, name: Seq<char>) -> Option<JSProperty> {
    chain_lookup(heap, object, name, heap.cells().len())
}

/// What getting `name` on `object` comes to. An accessor's getter is to be
/// called with `object` itself as receiver, wherever on the chain the
/// accessor was found; an accessor without a getter gives undefined, and
/// so does a descriptor without a value, and a name that leads nowhere.
pub open spec fn get_action_of(heap: Heap, object: JSValue, name: Seq<char>) -> GetAction {
    match property_of(heap, object, name) {
        Some(prop) => if prop.is_accessor() {
            match prop.getter {
                Some(getter) => GetAction::Invoke { getter, receiver: object },
                None => GetAction::Return(JSValue::spec_undefined()),
            }
        } else {
            match prop.value {
                Some(value) => GetAction::Return(value),
                None => GetAction::Return(JSValue::spec_undefined()),
            }
        },
        None => GetAction::Return(JSValue::spec_undefined()),
    }
}

/// Whether enumeration shows a property with descriptor `prop`.
pub open spec fn is_visible(prop: JSProperty, all: bool) -> bool {
    all || prop.enumerable == Some(true)
}

/// The names that enumeration shows, in the order of the entries.
pub open spec fn visible_names(entries: Seq<Entry>, all: bool) -> Seq<Seq<char>>
    decreases entries.len(),
{
    if entries.len() == 0 {
        Seq::empty()
    } else {
        let before = visible_names(entries.drop_last(), all);
        if is_visible(entries.last().1, all) {
            before.push(entries.last().0)
        } else {
            before
        }
    }
}

/// Whether `each` was called on `name` and gave `answer`.
pub open spec fn answered<F: Fn(&str) -> bool>(each: F, name: Seq<char>, answer: bool) -> bool {
    exists|s: &str| s@ == name && call_ensures(each, (s,), answer)
}

/// What `object_enumerate` has done when it returns `visited`: it called
/// `each` on the first `visited` of the names shown, in order; every call
/// but the last was answered with true; and it stopped before the end only
/// because the last call was answered with false.
pub open spec fn enumerated<F: Fn(&str) -> bool>(
    entries: Seq<Entry>,
    all: bool,
    each: F,
    visited: int,
) -> bool {
    let names = visible_names(entries, all);
    &&& 0 <= visited <= names.len()
    &&& forall|j: int| 0 <= j < visited - 1 ==> answered(each, #[trigger] names[j], true)
    &&& visited < names.len() ==> visited > 0 && answered(each, names[visited - 1], false)
    &&& visited == names.len() && visited > 0 ==> answered(each, names[visited - 1], true)
        || answered(each, names[visited - 1], false)
}

impl VTable {
    /// The table that objects of `kind` use.
    pub open spec fn for_kind(kind: JSObjectKind) -> VTable {
        VTable::Ordinary
    }

    /// The table that objects of `kind` use.
    pub fn of_kind(kind: &JSObjectKind) -> (table: VTable)
        ensures
            table == VTable::for_kind(*kind),
    {
        match kind {
            JSObjectKind::Array(_) => VTable::Ordinary,
            JSObjectKind::String => VTable::Ordinary,
            JSObjectKind::Symbol => VTable::Ordinary,
            JSObjectKind::Error => VTable::Ordinary,
            JSObjectKind::Boolean => VTable::Ordinary,
            JSObjectKind::Number => VTable::Ordinary,
            JSObjectKind::Normal => VTable::Ordinary,
        }
    }

    /// The descriptor of `object`'s own property `name`, as this table
    /// finds it.
    pub open spec fn own_property_of(self, heap: Heap, object: JSValue, name: Seq<char>) -> Option<
        JSProperty,
    > {
        match self {
            VTable::Ordinary => heap.object(object).own_property(name),
        }
    }

    /// This table's entry for looking at `object`'s own properties only.
    pub fn get_own_property(&self, rt: &Runtime, object: JSValue, name: &str) -> (r: Option<
        JSProperty,
    >)
        requires
            rt.heap.is_object(object),
        ensures
            r == self.own_property_of(rt.heap, object, name@),
    {
        match self {
            VTable::Ordinary => object_get_own_property(rt, object, name),
        }
    }

    /// This table's entry for looking along the prototype chain.
    pub fn get_property(&self, rt: &Runtime, object: JSValue, name: &str) -> (r: Option<JSProperty>)
        requires
            rt.heap.wf(),
            rt.heap.is_object(object),
            rt.heap.object(object).class_object == *self,
        ensures
            r == property_of(rt.heap, object, name@),
    {
        match self {
            VTable::Ordinary => object_get_property(rt, object, name),
        }
    }

    /// This table's entry for getting a property's value.
    pub fn get<F: Fn(JSValue, JSValue) -> Result<JSValue, JSValue>>(
        &self,
        rt: &Runtime,
        object: JSValue,
        name: &str,
        invoke: F,
    ) -> (r: Result<JSValue, JSValue>)
        requires
            rt.heap.wf(),
            rt.heap.is_object(object),
            rt.heap.object(object).class_object == *self,
            get_action_of(rt.heap, object, name@) matches GetAction::Invoke { getter, receiver }
                ==> call_requires(invoke, (getter, receiver)),
        ensures
            match get_action_of(rt.heap, object, name@) {
                GetAction::Return(value) => r == Ok::<JSValue, JSValue>(value),
                GetAction::Invoke { getter, receiver } => call_ensures(
                    invoke,
                    (getter, receiver),
                    r,
                ),
            },
    {
        match self {
            VTable::Ordinary => object_get(rt, object, name, invoke),
        }
    }

    /// This table's entry for walking the properties.
    pub fn enumerate<F: Fn(&str) -> bool>(&self, rt: &Runtime, object: JSValue, all: bool, each: F) -> (visited:
        usize)
        requires
            rt.heap.is_object(object),
            forall|s: &str| call_requires(each, (s,)),
        ensures
            enumerated(rt.heap.object(object).properties(), all, each, visited as int),
    {
        match self {
            VTable::Ordinary => object_enumerate(rt, object, all, each),
        }
    }

    /// This table's lookup along the prototype chain, following at most
    /// `fuel` links.
    fn get_property_within(&self, heap: &Heap, object: JSValue, name: &str, fuel: usize) -> (r:
        Option<JSProperty>)
        requires
            heap.wf(),
            heap.is_object(object),
            heap.object(object).class_object == *self,
        ensures
            r == chain_lookup(*heap, object, name@, fuel as nat),
        decreases fuel, 1nat,
    {
        match self {
            VTable::Ordinary => get_property_within(heap, object, name, fuel),
        }
    }
}

/// The descriptor of the own property `name` of the object `object`; none
/// if the object has no such property of its own.
pub fn object_get_own_property(rt: &Runtime, object: JSValue, name: &str) -> (r: Option<JSProperty>)
    requires
        rt.heap.is_object(object),
    ensures
        r == rt.heap.object(object).own_property(name@),
{
    object_of(&rt.heap, object)._read(name)
}

/// The descriptor that `name` leads to on the object `object`: its own
/// property if it has one, else what the lookup finds on its prototype,
/// through the prototype's table.
pub fn object_get_property(rt: &Runtime, object: JSValue, name: &str) -> (r: Option<JSProperty>)
    requires
        rt.heap.wf(),
        rt.heap.is_object(object),
    ensures
        r == property_of(rt.heap, object, name@),
{
    get_property_within(&rt.heap, object, name, rt.heap.len())
}

/// What getting `name` on the object `object` comes to.
pub fn object_get_action(rt: &Runtime, object: JSValue, name: &str) -> (action: GetAction)
    requires
        rt.heap.wf(),
        rt.heap.is_object(object),
    ensures
        action == get_action_of(rt.heap, object, name@),
{
    let obj = object_of(&rt.heap, object);
    let prop = match obj.class_object {
        VTable::Ordinary => object_get_property(rt, object, name),
    };
    if let Some(prop) = prop {
        if prop.is_accessor() {
            match prop.getter {
                Some(getter) => GetAction::Invoke { getter, receiver: object },
                None => GetAction::Return(JSValue::undefined()),
            }
        } else {
            match prop.value {
                Some(value) => GetAction::Return(value),
                None => GetAction::Return(JSValue::undefined()),
            }
        }
    } else {
        GetAction::Return(JSValue::undefined())
    }
}

/// Gets `name` on the object `object`. Where the name leads to an
/// accessor, `invoke` is called with the getter and with `object` as
/// receiver, and what it returns, a value or a thrown value, is handed on
/// unchanged. A data property gives its value, undefined if it has none;
/// a name that leads nowhere gives undefined.
pub fn object_get<F: Fn(JSValue, JSValue) -> Result<JSValue, JSValue>>(
    rt: &Runtime,
    object: JSValue,
    name: &str,
    invoke: F,
) -> (r: Result<JSValue, JSValue>)
    requires
        rt.heap.wf(),
        rt.heap.is_object(object),
        get_action_of(rt.heap, object, name@) matches GetAction::Invoke { getter, receiver }
            ==> call_requires(invoke, (getter, receiver)),
    ensures
        match get_action_of(rt.heap, object, name@) {
            GetAction::Return(value) => r == Ok::<JSValue, JSValue>(value),
            GetAction::Invoke { getter, receiver } => call_ensures(invoke, (getter, receiver), r),
        },
{
    match object_get_action(rt, object, name) {
        GetAction::Return(value) => Ok(value),
        GetAction::Invoke { getter, receiver } => invoke(getter, receiver),
    }
}

/// Enumerates the properties of the object `this`: calls `each` on the
/// name of every property, or of every enumerable one unless `all`, oldest
/// first, until `each` answers false. Returns how many names it called
/// `each` on.
pub fn object_enumerate<F: Fn(&str) -> bool>(rt: &Runtime, this: JSValue, all: bool, each: F) -> (visited:
    usize)
    requires
        rt.heap.is_object(this),
        forall|s: &str| call_requires(each, (s,)),
    ensures
        enumerated(rt.heap.object(this).properties(), all, each, visited as int),
{
    let obj = object_of(&rt.heap, this);
    let entries = map_entries(&obj.property);
    let ghost shown = obj.properties();
    let mut visited: usize = 0;
    let mut i: usize = 0;
    while i < entries.len()
        invariant
            i <= entries.len(),
            shown == rt.heap.object(this).properties(),
            entries@.len() == shown.len(),
            forall|j: int|
                0 <= j < entries@.len() ==> (#[trigger] entries@[j]).0@ == shown[j].0 && entries@[j].1
                    == shown[j].1,
            forall|s: &str| call_requires(each, (s,)),
            visited == visible_names(shown.take(i as int), all).len(),
            visited <= i,
            forall|j: int|
                0 <= j < visited ==> answered(
                    each,
                    #[trigger] visible_names(shown.take(i as int), all)[j],
                    true,
                ),
        decreases entries.len() - i,
    {
        proof {
            assert(shown.take(i + 1).drop_last() == shown.take(i as int));
            lemma_visible_names_prefix(shown, all, i + 1);
        }
        let show = all || match entries[i].1.enumerable {
            Some(flag) => flag,
            None => false,
        };
        if show {
            let name = entries[i].0.as_str();
            let go_on = each(name);
            visited = visited + 1;
            if !go_on {
                proof {
                    let now = visible_names(shown.take(i + 1), all);
                    let names = visible_names(shown, all);
                    assert forall|j: int| 0 <= j < visited implies now[j] == names[j] by {}
                    assert forall|j: int| 0 <= j < visited - 1 implies answered(
                        each,
                        #[trigger] names[j],
                        true,
                    ) by {}
                }
                return visited;
            }
        }
        i = i + 1;
    }
    proof {
        assert(shown.take(i as int) == shown);
    }
    visited
}

/// The object that `object` refers to.
fn object_of(heap: &Heap, object: JSValue) -> (obj: &JSObject)
    requires
        heap.is_object(object),
    ensures
        *obj == heap.object(object),
{
    match heap.get_object(object) {
        Some(obj) => obj,
        None => unreached(),
    }
}

/// The ordinary lookup along the prototype chain, following at most `fuel`
/// links.
fn get_property_within(heap: &Heap, object: JSValue, name: &str, fuel: usize) -> (r: Option<
    JSProperty,
>)
    requires
        heap.wf(),
        heap.is_object(object),
    ensures
        r == chain_lookup(*heap, object, name@, fuel as nat),
    decreases fuel, 0nat,
{
    let obj = object_of(heap, object);
    let own = match obj.class_object {
        VTable::Ordinary => obj._read(name),
    };
    if let Some(prop) = own {
        return Some(prop);
    } else if let Some(proto) = obj.prototype {
        if fuel == 0 {
            return None;
        }
        proof {
            heap.lemma_prototype_is_object(object);
        }
        let parent = object_of(heap, proto);
        return parent.class_object.get_property_within(heap, proto, name, fuel - 1);
    } else {
        None
    }
}

/// The names shown among the first entries are the first of the names
/// shown among all.
pub proof fn lemma_visible_names_prefix(entries: Seq<Entry>, all: bool, n: int)
    requires
        0 <= n <= entries.len(),
    ensures
        visible_names(entries.take(n), all).len() <= visible_names(entries, all).len(),
        visible_names(entries.take(n), all) == visible_names(entries, all).take(
            visible_names(entries.take(n), all).len() as int,
        ),
    decreases entries.len() - n,
{
    if n == entries.len() {
        assert(entries.take(n) == entries);
    } else {
        lemma_visible_names_prefix(entries, all, n + 1);
        assert(entries.take(n + 1).drop_last() == entries.take(n));
    }
}

/// Whether `chain` is a run of prototype links in `heap`: each of its
/// values is an object, and each but the last has the next as prototype.
pub open spec fn is_chain(heap: Heap, chain: Seq<JSValue>) -> bool {
    &&& chain.len() > 0
    &&& forall|i: int| 0 <= i < chain.len() ==> heap.is_object(#[trigger] chain[i])
    &&& forall|i: int|
        0 <= i < chain.len() - 1 ==> heap.object(#[trigger] chain[i]).prototype == Some(
            chain[i + 1],
        )
}

/// A lookup with enough fuel finds the first own property along a chain:
/// where the first `k` objects of the chain lack the name and the next one
/// has it, the lookup from the head gives that object's descriptor.
pub proof fn lemma_chain_lookup_finds(
    heap: Heap,
    chain: Seq<JSValue>,
    name: Seq<char>,
    k: int,
    fuel: nat,
)
    requires
        is_chain(heap, chain),
        0 <= k < chain.len(),
        k <= fuel,
        forall|i: int| 0 <= i < k ==> heap.object(#[trigger] chain[i]).own_property(name) is None,
        heap.object(chain[k]).own_property(name) is Some,
    ensures
        chain_lookup(heap, chain[0], name, fuel) == heap.object(chain[k]).own_property(name),
    decreases k,
{
    if k > 0 {
        let rest = chain.drop_first();
        lemma_chain_lookup_finds(heap, rest, name, k - 1, (fuel - 1) as nat);
    }
}

/// A chain that passes no object twice is no longer than the heap has
/// cells.
pub proof fn lemma_chain_fits(heap: Heap, chain: Seq<JSValue>)
    requires
        is_chain(heap, chain),
        chain.no_duplicates(),
    ensures
        chain.len() <= heap.cells().len(),
{
    let slots = chain.map_values(|v: JSValue| Heap::slot_of(v@->Cell_0));
    assert forall|i: int, j: int| 0 <= i < slots.len() && 0 <= j < slots.len() && i != j implies slots[i]
        != slots[j] by {
        let a = chain[i];
        let b = chain[j];
        a@->Cell_0.lemma_address();
        b@->Cell_0.lemma_address();
        if slots[i] == slots[j] {
            lemma_object_is_valid(heap, a);
            lemma_object_is_valid(heap, b);
            law_equality_is_content(a, b);
            law_equality(a, b, a);
        }
    }
    slots.unique_seq_to_set();
    let n = heap.cells().len() as int;
    lemma_int_range(0, n);
    assert(slots.to_set().subset_of(set_int_range(0, n))) by {
        assert forall|x: int| slots.to_set().contains(x) implies set_int_range(0, n).contains(
            x,
        ) by {
            let i = choose|i: int| 0 <= i < slots.len() && slots[i] == x;
            chain[i]@->Cell_0.lemma_address();
        }
    }
    lemma_len_subset(slots.to_set(), set_int_range(0, n));
}

/// A value that refers to an object of a heap holds a valid word.
proof fn lemma_object_is_valid(heap: Heap, v: JSValue)
    requires
        heap.is_object(v),
    ensures
        v.wf(),
{
    v.lemma_cell_is_valid();
}

/// On a chain that passes no object twice, the lookup from the head finds
/// the first own property along the chain: every link is followed.
pub proof fn law_lookup_on_acyclic_chain(heap: Heap, chain: Seq<JSValue>, name: Seq<char>, k: int)
    requires
        is_chain(heap, chain),
        chain.no_duplicates(),
        0 <= k < chain.len(),
        forall|i: int| 0 <= i < k ==> heap.object(#[trigger] chain[i]).own_property(name) is None,
        heap.object(chain[k]).own_property(name) is Some,
    ensures
        property_of(heap, chain[0], name) == heap.object(chain[k]).own_property(name),
{
    lemma_chain_fits(heap, chain);
    lemma_chain_lookup_finds(heap, chain, name, k, heap.cells().len());
}

/// With `b` the prototype of `a` and `c` the prototype of `b`, a property
/// that only `c` has is found from `a`: the lookup gives the descriptor
/// that `c` holds.
pub proof fn law_lookup_reaches_prototype(
    heap: Heap,
    a: JSValue,
    b: JSValue,
    c: JSValue,
    name: Seq<char>,
)
    requires
        heap.is_object(a),
        heap.is_object(b),
        heap.is_object(c),
        heap.object(a).prototype == Some(b),
        heap.object(b).prototype == Some(c),
        heap.object(a).own_property(name) is None,
        heap.object(b).own_property(name) is None,
        heap.object(c).own_property(name) is Some,
    ensures
        property_of(heap, a, name) == heap.object(c).own_property(name),
{
    let chain = seq![a, b, c];
    lemma_chain_lookup_finds(heap, chain, name, 2, heap.cells().len());
}

/// With `b` the prototype of `a`, and an accessor with a getter under a
/// name that `a` itself lacks, getting the name on `a` comes to calling
/// that getter with `a` as receiver, not `b`.
pub proof fn law_getter_receives_start(heap: Heap, a: JSValue, b: JSValue, name: Seq<char>)
    requires
        heap.is_object(a),
        heap.is_object(b),
        heap.object(a).prototype == Some(b),
        heap.object(a).own_property(name) is None,
        heap.object(b).own_property(name) matches Some(prop) && prop.getter is Some,
    ensures
        get_action_of(heap, a, name) == (GetAction::Invoke {
            getter: heap.object(b).own_property(name).unwrap().getter.unwrap(),
            receiver: a,
        }),
{
    let chain = seq![a, b];
    lemma_chain_lookup_finds(heap, chain, name, 1, heap.cells().len());
}

/// A name that no object along a chain has leads nowhere, and getting it
/// gives undefined.
pub proof fn law_missing_is_undefined(heap: Heap, chain: Seq<JSValue>, name: Seq<char>, fuel: nat)
    requires
        is_chain(heap, chain),
        heap.object(chain.last()).prototype is None,
        forall|i: int|
            0 <= i < chain.len() ==> heap.object(#[trigger] chain[i]).own_property(name) is None,
    ensures
        chain_lookup(heap, chain[0], name, fuel) is None,
        fuel == heap.cells().len() ==> get_action_of(heap, chain[0], name) == GetAction::Return(
            JSValue::spec_undefined(),
        ),
    decreases chain.len(),
{
    if chain.len() > 1 && fuel > 0 {
        let rest = chain.drop_first();
        law_missing_is_undefined(heap, rest, name, (fuel - 1) as nat);
    }
}

/// The names that enumeration shows are the names of the entries it
/// shows, in the order of the entries.
pub proof fn law_visible_names(entries: Seq<Entry>, all: bool)
    ensures
        visible_names(entries, all) == entries.filter(|e: Entry| is_visible(e.1, all)).map_values(
            |e: Entry| e.0,
        ),
    decreases entries.len(),
{
    reveal(Seq::filter);
    let shown = |e: Entry| is_visible(e.1, all);
    let named = |e: Entry| e.0;
    if entries.len() > 0 {
        let head = entries.drop_last();
        law_visible_names(head, all);
        if is_visible(entries.last().1, all) {
            assert(head.filter(shown).push(entries.last()).map_values(named) == head.filter(
                shown,
            ).map_values(named).push(entries.last().0));
        }
    }
}

} // verus!
