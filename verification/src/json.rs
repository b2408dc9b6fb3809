//! JSON values as `serde_json` holds them, and the mathematical shape that
//! the contracts of this crate speak of.

use vstd::prelude::*;

verus! {

#[verifier::external_type_specification]
#[verifier::external_body]
pub struct ExValue(serde_json::Value);

#[verifier::external_type_specification]
#[verifier::external_body]
pub struct ExNumber(serde_json::Number);

/// A JSON value as mathematics: text as characters, an array as a sequence,
/// an object as a map from member names to members. A number is kept as it
/// is; nothing here looks into one.
pub enum JsonShape {
    Null,
    Bool(bool),
    Number(serde_json::Number),
    Text(Seq<char>),
    Array(Seq<JsonShape>),
    Object(Map<Seq<char>, JsonShape>),
}

/// The shape of a `serde_json::Value`.
pub uninterp spec fn json_shape(v: serde_json::Value) -> JsonShape;

/// The member `key` of an object shape, if the shape is an object that has it.
pub open spec fn shape_member(s: JsonShape, key: Seq<char>) -> Option<JsonShape> {
    match s {
        JsonShape::Object(m) => if m.dom().contains(key) {
            Some(m[key])
        } else {
            None
        },
        _ => None,
    }
}

/// The shapes of a sequence of values, one for one.
pub open spec fn shapes_of(items: Seq<serde_json::Value>) -> Seq<JsonShape> {
    items.map_values(|v: serde_json::Value| json_shape(v))
}

/// Trusted: `Value::as_str`, which returns the text of a `Value::String` and
/// `None` for every other variant.
#[verifier::external_body]
pub(crate) fn value_as_str<'a>(v: &'a serde_json::Value) -> (r: Option<&'a str>)
    ensures
        match r {
            Some(s) => json_shape(*v) == JsonShape::Text(s@),
            None => !(json_shape(*v) is Text),
        },
{
    v.as_str()
}

/// Trusted: `Value::as_array`, which returns the elements of a `Value::Array`
/// and `None` for every other variant.
#[verifier::external_body]
pub(crate) fn value_as_array<'a>(v: &'a serde_json::Value) -> (r: Option<&'a Vec<serde_json::Value>>)
    ensures
        match r {
            Some(items) => json_shape(*v) == JsonShape::Array(shapes_of(items@)),
            None => !(json_shape(*v) is Array),
        },
{
    v.as_array()
}

/// Trusted: `Value::get` with a string index, which looks `key` up in a
/// `Value::Object` and returns `None` for a missing key or any other variant.
#[verifier::external_body]
pub(crate) fn value_get<'a>(v: &'a serde_json::Value, key: &str) -> (r: Option<&'a serde_json::Value>)
    ensures
        match r {
            Some(member) => shape_member(json_shape(*v), key@) == Some(json_shape(*member)),
            None => shape_member(json_shape(*v), key@) is None,
        },
{
    v.get(key)
}

/// Trusted: `Value::as_object` followed by `Map::iter`. For an object the
/// result lists every entry of the map exactly once, each key beside its
/// value, in the map's own order; for every other variant it is `None`.
#[verifier::external_body]
pub(crate) fn value_entries<'a>(v: &'a serde_json::Value) -> (r: Option<Vec<(&'a String, &'a serde_json::Value)>>)
    ensures
        match r {
            Some(entries) => {
                &&& json_shape(*v) is Object
                &&& forall|i: int| 0 <= i < entries@.len() ==> {
                    &&& json_shape(*v)->Object_0.dom().contains((#[trigger] entries@[i]).0@)
                    &&& json_shape(*v)->Object_0[entries@[i].0@] == json_shape(*entries@[i].1)
                }
                &&& forall|k: Seq<char>| #[trigger] json_shape(*v)->Object_0.dom().contains(k)
                    ==> exists|i: int| 0 <= i < entries@.len() && (#[trigger] entries@[i]).0@ == k
                &&& forall|i: int, j: int| 0 <= i < j < entries@.len()
                    ==> (#[trigger] entries@[i]).0@ != (#[trigger] entries@[j]).0@
            },
            None => !(json_shape(*v) is Object),
        },
{
    match v.as_object() {
        Some(map) => Some(map.iter().collect()),
        None => None,
    }
}

/// Trusted: `Value::is_object`, which is true of a `Value::Object` alone.
#[verifier::external_body]
pub(crate) fn value_is_object(v: &serde_json::Value) -> (r: bool)
    ensures
        r == (json_shape(*v) is Object),
{
    v.is_object()
}

/// Trusted: `Value::as_object_mut` followed by `Map::insert`, which puts
/// `member` under `key` in an object, in place of whatever stood there, and
/// leaves the other members alone.
#[verifier::external_body]
pub(crate) fn value_insert(target: &mut serde_json::Value, key: &str, member: serde_json::Value)
    requires
        json_shape(*old(target)) is Object,
    ensures
        json_shape(*final(target)) == JsonShape::Object(
            json_shape(*old(target))->Object_0.insert(key@, json_shape(member)),
        ),
{
    if let Some(map) = target.as_object_mut() {
        map.insert(key.to_owned(), member);
    }
}

/// Trusted: `Value`'s derived `Clone`, which copies the whole tree.
#[verifier::external_body]
pub(crate) fn value_clone(v: &serde_json::Value) -> (r: serde_json::Value)
    ensures
        r == *v,
{
    v.clone()
}

/// One JSON value laid over another: where both are objects, the members of
/// both, those of `over` winning where a name is in both; otherwise `base`.
pub open spec fn merged(base: JsonShape, over: JsonShape) -> JsonShape {
    match (base, over) {
        (JsonShape::Object(b), JsonShape::Object(o)) => JsonShape::Object(b.union_prefer_right(o)),
        _ => base,
    }
}

/// Lays `over` onto `base`. Only the top level is merged: a member of `over`
/// replaces the member of the same name whole.
pub fn merge(base: serde_json::Value, over: serde_json::Value) -> (r: serde_json::Value)
    ensures
        json_shape(r) == merged(json_shape(base), json_shape(over)),
        !(json_shape(base) is Object && json_shape(over) is Object) ==> r == base,
{
    if !value_is_object(&base) {
        return base;
    }
    let entries = match value_entries(&over) {
        Some(e) => e,
        None => { return base; },
    };
    let ghost b = json_shape(base)->Object_0;
    let ghost o = json_shape(over)->Object_0;
    let ghost mut seen: Set<Seq<char>> = Set::empty();
    let mut result = base;
    let mut i: usize = 0;
    assert(b.union_prefer_right(o.restrict(seen)) =~= b);
    while i < entries.len()
        invariant
            i <= entries.len(),
            json_shape(over) == JsonShape::Object(o),
            forall|j: int| 0 <= j < entries@.len() ==> {
                &&& o.dom().contains((#[trigger] entries@[j]).0@)
                &&& o[entries@[j].0@] == json_shape(*entries@[j].1)
            },
            forall|j: int| 0 <= j < i ==> seen.contains((#[trigger] entries@[j]).0@),
            seen.subset_of(o.dom()),
            json_shape(result) == JsonShape::Object(b.union_prefer_right(o.restrict(seen))),
        decreases entries.len() - i,
    {
        let key: &String = entries[i].0;
        let member = value_clone(entries[i].1);
        value_insert(&mut result, key.as_str(), member);
        proof {
            let next = seen.insert(key@);
            assert(b.union_prefer_right(o.restrict(next)) =~= b.union_prefer_right(o.restrict(seen)).insert(
                key@,
                o[key@],
            ));
            seen = next;
        }
        i += 1;
    }
    proof {
        assert forall|k: Seq<char>| o.dom().contains(k) implies seen.contains(k) by {
            let j = choose|j: int| 0 <= j < entries@.len() && (#[trigger] entries@[j]).0@ == k;
            assert(seen.contains(entries@[j].0@));
        }
        assert(o.restrict(seen) =~= o);
    }
    result
}

} // verus!
