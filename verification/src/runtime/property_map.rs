//! The order-preserving map from property names to descriptors.
//!
//! The map itself is `hashlink::LinkedHashMap`. What it holds is named by
//! `entries`, a sequence in insertion order; the functions here say what
//! each of the map's methods does to that sequence.

use vstd::prelude::*;
use hashlink::LinkedHashMap;
use crate::runtime::jsproperty::JSProperty;

verus! {

/// `hashlink::LinkedHashMap`, taken as it is: what is inside stays out of
/// view.
#[verifier::external_type_specification]
#[verifier::external_body]
#[verifier::reject_recursive_types(K)]
#[verifier::reject_recursive_types(V)]
#[verifier::reject_recursive_types(S)]
pub struct ExLinkedHashMap<K, V, S>(hashlink::LinkedHashMap<K, V, S>);

/// `hashlink::DefaultHashBuilder`, the hasher a map has unless it is given
/// another.
#[verifier::external_type_specification]
#[verifier::external_body]
pub struct ExDefaultHashBuilder(hashlink::DefaultHashBuilder);

/// A name with its descriptor.
pub type Entry = (Seq<char>, JSProperty);

/// The entries of `map`, oldest first.
pub uninterp spec fn entries(map: LinkedHashMap<String, JSProperty>) -> Seq<Entry>;

/// The descriptor of the first entry of `entries` named `name`.
pub open spec fn lookup(entries: Seq<Entry>, name: Seq<char>) -> Option<JSProperty>
    decreases entries.len(),
{
    if entries.len() == 0 {
        None
    } else if entries[0].0 == name {
        Some(entries[0].1)
    } else {
        lookup(entries.drop_first(), name)
    }
}

/// `entries` with the descriptor of every entry named `name` replaced by
/// `prop`, each entry in its place.
pub open spec fn replaced(entries: Seq<Entry>, name: Seq<char>, prop: JSProperty) -> Seq<Entry> {
    entries.map_values(
        |e: Entry|
            if e.0 == name {
                (e.0, prop)
            } else {
                e
            },
    )
}

/// `entries` without the entries named `name`.
pub open spec fn without(entries: Seq<Entry>, name: Seq<char>) -> Seq<Entry> {
    entries.filter(|e: Entry| e.0 != name)
}

/// `LinkedHashMap::new`: a map with no entry.
#[verifier::external_body]
pub(crate) fn map_new() -> (map: LinkedHashMap<String, JSProperty>)
    ensures
        entries(map) == Seq::<Entry>::empty(),
{
    LinkedHashMap::new()
}

/// `LinkedHashMap::get`: a copy of the descriptor stored under `name`, if
/// there is one.
#[verifier::external_body]
pub(crate) fn map_get(map: &LinkedHashMap<String, JSProperty>, name: &str) -> (r: Option<
    JSProperty,
>)
    ensures
        r == lookup(entries(*map), name@),
{
    map.get(name).cloned()
}

/// `LinkedHashMap::contains_key`: whether a descriptor is stored under
/// `name`.
#[verifier::external_body]
pub(crate) fn map_contains_key(map: &LinkedHashMap<String, JSProperty>, name: &str) -> (b: bool)
    ensures
        b == lookup(entries(*map), name@).is_some(),
{
    map.contains_key(name)
}

/// `LinkedHashMap::index_mut`, assigned to: the descriptor stored under
/// `name` becomes `prop`, and the entry keeps its place. The method panics
/// where no entry has that name.
#[verifier::external_body]
pub(crate) fn map_set(map: &mut LinkedHashMap<String, JSProperty>, name: &str, prop: JSProperty)
    requires
        lookup(entries(*old(map)), name@).is_some(),
    ensures
        entries(*final(map)) == replaced(entries(*old(map)), name@, prop),
{
    map[name] = prop;
}

/// `LinkedHashMap::insert`: the entry becomes the newest one. An entry that
/// was stored under the same name is taken out, and its descriptor
/// returned.
#[verifier::external_body]
pub(crate) fn map_insert(
    map: &mut LinkedHashMap<String, JSProperty>,
    name: String,
    prop: JSProperty,
) -> (r: Option<JSProperty>)
    ensures
        r == lookup(entries(*old(map)), name@),
        entries(*final(map)) == without(entries(*old(map)), name@).push((name@, prop)),
{
    map.insert(name, prop)
}

/// `LinkedHashMap::iter`, collected: every entry, oldest first.
#[verifier::external_body]
pub(crate) fn map_entries(map: &LinkedHashMap<String, JSProperty>) -> (r: Vec<(String, JSProperty)>)
    ensures
        r@.len() == entries(*map).len(),
        forall|i: int|
            0 <= i < r@.len() ==> (#[trigger] r@[i]).0@ == entries(*map)[i].0 && r@[i].1
                == entries(*map)[i].1,
{
    map.iter().map(|(name, prop)| (name.clone(), *prop)).collect()
}

/// Looking a name up after an entry was added at the end finds what was
/// found before, and the new entry where nothing was.
pub proof fn lemma_lookup_push(entries: Seq<Entry>, added: Entry, name: Seq<char>)
    ensures
        lookup(entries.push(added), name) == (match lookup(entries, name) {
            Some(prop) => Some(prop),
            None => if added.0 == name {
                Some(added.1)
            } else {
                None
            },
        }),
    decreases entries.len(),
{
    if entries.len() == 0 {
        assert(entries.push(added).drop_first() == Seq::<Entry>::empty());
    } else {
        assert(entries.push(added).drop_first() == entries.drop_first().push(added));
        lemma_lookup_push(entries.drop_first(), added, name);
    }
}

/// After the descriptor under `name` was replaced, `name` leads to the new
/// descriptor if it led to one before, and every other name leads to what
/// it led to.
pub proof fn lemma_lookup_replaced(
    entries: Seq<Entry>,
    name: Seq<char>,
    prop: JSProperty,
    other: Seq<char>,
)
    ensures
        lookup(replaced(entries, name, prop), other) == (if other == name {
            if lookup(entries, name).is_some() {
                Some(prop)
            } else {
                None
            }
        } else {
            lookup(entries, other)
        }),
    decreases entries.len(),
{
    if entries.len() > 0 {
        assert(replaced(entries, name, prop).drop_first() == replaced(
            entries.drop_first(),
            name,
            prop,
        ));
        lemma_lookup_replaced(entries.drop_first(), name, prop, other);
    }
}

/// A name leads to a descriptor exactly when some entry has that name, and
/// then to the descriptor of the first such entry.
pub proof fn lemma_lookup_first(entries: Seq<Entry>, name: Seq<char>)
    ensures
        lookup(entries, name).is_some() <==> exists|i: int|
            0 <= i < entries.len() && (#[trigger] entries[i]).0 == name,
        lookup(entries, name).is_some() ==> exists|i: int|
            0 <= i < entries.len() && (#[trigger] entries[i]).0 == name && entries[i].1 == lookup(
                entries,
                name,
            ).unwrap() && forall|j: int| 0 <= j < i ==> (#[trigger] entries[j]).0 != name,
    decreases entries.len(),
{
    if entries.len() > 0 {
        if entries[0].0 == name {
            assert(entries[0].0 == name && entries[0].1 == lookup(entries, name).unwrap());
        } else {
            let rest = entries.drop_first();
            lemma_lookup_first(rest, name);
            if lookup(rest, name).is_some() {
                let i = choose|i: int|
                    0 <= i < rest.len() && (#[trigger] rest[i]).0 == name && rest[i].1 == lookup(
                        rest,
                        name,
                    ).unwrap() && forall|j: int| 0 <= j < i ==> (#[trigger] rest[j]).0 != name;
                assert(entries[i + 1] == rest[i]);
                assert forall|j: int| 0 <= j < i + 1 implies (#[trigger] entries[j]).0 != name by {
                    if j > 0 {
                        assert(entries[j] == rest[j - 1]);
                    }
                }
            }
            if exists|i: int| 0 <= i < entries.len() && (#[trigger] entries[i]).0 == name {
                let i = choose|i: int| 0 <= i < entries.len() && (#[trigger] entries[i]).0 == name;
                assert(rest[i - 1] == entries[i]);
            }
        }
    }
}

/// Taking out the entries of a name that leads nowhere leaves every entry
/// in.
pub proof fn lemma_without_absent(entries: Seq<Entry>, name: Seq<char>)
    requires
        lookup(entries, name) is None,
    ensures
        without(entries, name) == entries,
    decreases entries.len(),
{
    reveal(Seq::filter);
    if entries.len() > 0 {
        let head = entries.drop_last();
        lemma_lookup_first(entries, name);
        lemma_lookup_first(head, name);
        if lookup(head, name).is_some() {
            let i = choose|i: int| 0 <= i < head.len() && (#[trigger] head[i]).0 == name;
            assert(entries[i] == head[i]);
        }
        lemma_without_absent(head, name);
        assert(entries.last().0 != name);
        assert(entries == head.push(entries.last()));
    }
}

} // verus!
