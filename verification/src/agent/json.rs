//! The JSON values that arrive from the service, as far as this library reads
//! them. A value stays a `serde_json::Value`; the contracts speak of the
//! strings and the arrays in it and of the steps that lead to them, which is
//! all this library looks at.

use vstd::prelude::*;
use serde_json::Value;

verus! {

/// `serde_json::Value`, a JSON value of any kind. The library carries such
/// values through and sees into them only by the functions below.
#[verifier::external_type_specification]
#[verifier::external_body]
pub struct ExValue(serde_json::Value);

/// One step into a JSON value: into the member of an object that stands
/// under a key, or into the element of an array that stands at an index.
pub ghost enum Step {
    Key(Seq<char>),
    Index(int),
}

/// The path that goes from key to key.
pub open spec fn keys(names: Seq<Seq<char>>) -> Seq<Step> {
    names.map_values(|name: Seq<char>| Step::Key(name))
}

/// The strings in a JSON value, each under the path that leads to it. The
/// empty path leads to the value itself; a step followed by a path leads on
/// from the member or the element that the step leads to. A path is in the
/// map when it leads to a JSON string.
pub uninterp spec fn strings(value: Value) -> Map<Seq<Step>, Seq<char>>;

/// The arrays in a JSON value, each by its length under the path that leads
/// to it, paths being as for [`strings`]. A path is in the map when it leads
/// to a JSON array.
pub uninterp spec fn lengths(value: Value) -> Map<Seq<Step>, nat>;

/// What parsing a text as JSON yields: `None` when the text is not one valid
/// JSON value, otherwise the [`strings`] of the value it denotes.
pub uninterp spec fn parsed_strings(text: Seq<char>) -> Option<Map<Seq<Step>, Seq<char>>>;

/// The strings one key away.
pub open spec fn members_of(strings: Map<Seq<Step>, Seq<char>>) -> Map<Seq<char>, Seq<char>> {
    Map::new(
        |key: Seq<char>| strings.contains_key(seq![Step::Key(key)]),
        |key: Seq<char>| strings[seq![Step::Key(key)]],
    )
}

/// The string-valued members of a JSON value: for an object, the map from
/// each key whose value is a JSON string to that string; for anything else,
/// the empty map.
pub open spec fn string_members(value: Value) -> Map<Seq<char>, Seq<char>> {
    members_of(strings(value))
}

/// The string-valued members of the value that a text denotes, if it denotes
/// one.
pub open spec fn parsed_string_members(text: Seq<char>) -> Option<Map<Seq<char>, Seq<char>>> {
    match parsed_strings(text) {
        Some(strings) => Some(members_of(strings)),
        None => None,
    }
}

/// The string at the end of a path, if the path leads to one.
pub open spec fn string_at(value: Value, path: Seq<Step>) -> Option<Seq<char>> {
    if strings(value).contains_key(path) {
        Some(strings(value)[path])
    } else {
        None
    }
}

/// The length of the array at the end of a path, if the path leads to one.
pub open spec fn length_at(value: Value, path: Seq<Step>) -> Option<nat> {
    if lengths(value).contains_key(path) {
        Some(lengths(value)[path])
    } else {
        None
    }
}

/// Whether `inner` holds what `outer` holds at the end of `path`: a path
/// leads to a string or an array in `inner` exactly when `path` followed by
/// it leads to one in `outer`, and to the same string or to an array of the
/// same length.
pub open spec fn stands_at(inner: Value, outer: Value, path: Seq<Step>) -> bool {
    &&& forall|rest: Seq<Step>| #[trigger] string_at(inner, rest) == string_at(outer, path + rest)
    &&& forall|rest: Seq<Step>| #[trigger] length_at(inner, rest) == length_at(outer, path + rest)
}

/// The view of a string that may be there.
pub open spec fn text_view(text: Option<String>) -> Option<Seq<char>> {
    match text {
        Some(text) => Some(text@),
        None => None,
    }
}

/// `Value`'s `Clone`, which copies the whole tree: the copy is the same JSON
/// value as the one it was made from.
pub assume_specification[ <Value as Clone>::clone ](value: &Value) -> (r: Value)
    ensures
        r == *value,
;

/// `Value::as_str`: the string, if the value is a JSON string. That is the
/// string at the end of the empty path.
#[verifier::external_body]
pub(crate) fn text_of(value: &Value) -> (r: Option<String>)
    ensures
        text_view(r) == string_at(*value, Seq::empty()),
{
    value.as_str().map(String::from)
}

/// `Value`'s `Index<&str>`: the member under `key`, or JSON null when the
/// value is no object or lacks the key. So the result holds what the value
/// holds one step on, under `key`; JSON null holds nothing.
#[verifier::external_body]
pub(crate) fn member<'a>(value: &'a Value, key: &str) -> (r: &'a Value)
    ensures
        stands_at(*r, *value, seq![Step::Key(key@)]),
{
    &value[key]
}

/// `Value`'s `Index<usize>`: the element at `index`, or JSON null when the
/// value is no array or is too short. So the result holds what the value
/// holds one step on, at `index`; JSON null holds nothing.
#[verifier::external_body]
pub(crate) fn element<'a>(value: &'a Value, index: usize) -> (r: &'a Value)
    ensures
        stands_at(*r, *value, seq![Step::Index(index as int)]),
{
    &value[index]
}

/// `Value::as_array`: the elements of a JSON array, `None` for anything
/// else. So there are elements exactly when the empty path leads to an
/// array, as many as its length says, and each holds what the value holds
/// one step on, at its index.
#[verifier::external_body]
pub(crate) fn elements<'a>(value: &'a Value) -> (r: Option<&'a Vec<Value>>)
    ensures
        r is Some <==> lengths(*value).contains_key(Seq::empty()),
        r matches Some(items) ==> items.len() == lengths(*value)[Seq::empty()],
        r matches Some(items) ==> forall|i: int|
            0 <= i < items.len() ==> stands_at(#[trigger] items[i], *value, seq![Step::Index(i)]),
{
    value.as_array()
}

/// `serde_json::from_str`, with the error's detail dropped.
///
/// The outcome depends on the text alone: it succeeds exactly when
/// [`parsed_strings`] is defined for the text, and the value then holds the
/// strings that it names.
#[verifier::external_body]
pub(crate) fn parse(text: &str) -> (r: Option<Value>)
    ensures
        r is Some <==> parsed_strings(text@) is Some,
        r matches Some(v) ==> strings(v) == parsed_strings(text@)->0,
{
    serde_json::from_str(text).ok()
}

/// What stands at the end of a path in what stands at the end of a path
/// stands at the end of the two paths, the one after the other.
pub proof fn lemma_stands_further(
    inner: Value,
    middle: Value,
    outer: Value,
    second: Seq<Step>,
    first: Seq<Step>,
)
    requires
        stands_at(inner, middle, second),
        stands_at(middle, outer, first),
    ensures
        stands_at(inner, outer, first + second),
{
    assert forall|rest: Seq<Step>| #[trigger]
        string_at(inner, rest) == string_at(outer, first + second + rest) by {
        assert(string_at(middle, second + rest) == string_at(outer, first + (second + rest)));
        assert(first + (second + rest) =~= first + second + rest);
    }
    assert forall|rest: Seq<Step>| #[trigger]
        length_at(inner, rest) == length_at(outer, first + second + rest) by {
        assert(length_at(middle, second + rest) == length_at(outer, first + (second + rest)));
        assert(first + (second + rest) =~= first + second + rest);
    }
}

/// The string under `key` in an object, if there is one.
pub fn string_member(value: &Value, key: &str) -> (r: Option<String>)
    ensures
        text_view(r) == string_at(*value, keys(seq![key@])),
        r is Some <==> string_members(*value).contains_key(key@),
        r matches Some(s) ==> s@ == string_members(*value)[key@],
{
    let inner = member(value, key);
    proof {
        let path = seq![Step::Key(key@)];
        assert(string_at(*inner, Seq::empty()) == string_at(*value, path + Seq::empty()));
        assert(path + Seq::<Step>::empty() =~= path);
        assert(keys(seq![key@]) =~= path);
    }
    text_of(inner)
}

/// The string under `inner` in the object under `outer`, if there is one.
pub fn nested_string_member(value: &Value, outer: &str, inner: &str) -> (r: Option<String>)
    ensures
        text_view(r) == string_at(*value, keys(seq![outer@, inner@])),
{
    let object = member(value, outer);
    proof {
        let first = seq![Step::Key(outer@)];
        assert(string_at(*object, keys(seq![inner@])) == string_at(
            *value,
            first + keys(seq![inner@]),
        ));
        assert(first + keys(seq![inner@]) =~= keys(seq![outer@, inner@]));
    }
    string_member(object, inner)
}

} // verus!
