//! Small helpers on text.

use vstd::prelude::*;

verus! {

/// Whether two pieces of text are the same, character by character.
pub(crate) fn same_text(left: &str, right: &str) -> (same: bool)
    ensures
        same == (left@ == right@),
{
    left.to_owned() == right.to_owned()
}

/// A pair of owned strings with the given contents.
pub(crate) fn pair(name: &str, value: &str) -> (entry: (String, String))
    ensures
        entry.deep_view() == (name@, value@),
{
    (name.to_owned(), value.to_owned())
}

/// Adds the pair of `name` and `value` at the end of `list`.
pub(crate) fn push_pair(list: &mut Vec<(String, String)>, name: &str, value: &str)
    ensures
        final(list).deep_view() == old(list).deep_view().push((name@, value@)),
{
    let entry = pair(name, value);
    list.push(entry);
    assert(list.deep_view() =~= old(list).deep_view().push((name@, value@)));
}

/// A list of pairs with nothing in it.
pub(crate) fn no_pairs() -> (list: Vec<(String, String)>)
    ensures
        list.deep_view() == Seq::<(Seq<char>, Seq<char>)>::empty(),
{
    let list: Vec<(String, String)> = Vec::new();
    assert(list.deep_view() =~= Seq::<(Seq<char>, Seq<char>)>::empty());
    list
}

/// A copy of an optional string.
pub(crate) fn copy_of(text: &Option<String>) -> (copy: Option<String>)
    ensures
        copy == *text,
{
    match text {
        Some(t) => Some(t.clone()),
        None => None,
    }
}

} // verus!
