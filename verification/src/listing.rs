//! Membership in the plain lists that filters are configured with.

use vstd::prelude::*;

verus! {

/// Whether `name` occurs in `list`.
pub open spec fn lists(list: Seq<String>, name: Seq<char>) -> bool {
    exists|i: int| 0 <= i < list.len() && (#[trigger] list[i])@ == name
}

/// Whether an optional list is present and holds `name`.
pub open spec fn lists_opt(list: Option<Vec<String>>, name: Seq<char>) -> bool {
    match list {
        Some(names) => lists(names@, name),
        None => false,
    }
}

/// A list with one more entry lists what it listed before, and the entry.
pub proof fn lemma_lists_push(list: Seq<String>, added: String, name: Seq<char>)
    ensures
        lists(list.push(added), name) <==> lists(list, name) || added@ == name,
{
    let longer = list.push(added);
    if lists(list, name) {
        let i = choose|i: int| 0 <= i < list.len() && (#[trigger] list[i])@ == name;
        assert(longer[i]@ == name);
    }
    if added@ == name {
        assert(longer[list.len() as int]@ == name);
    }
    if lists(longer, name) {
        let i = choose|i: int| 0 <= i < longer.len() && (#[trigger] longer[i])@ == name;
        if i < list.len() {
            assert(list[i]@ == name);
        }
    }
}

/// Looks `name` up in `list`.
pub fn is_listed(list: &Vec<String>, name: &String) -> (found: bool)
    ensures
        found == lists(list@, name@),
{
    let mut i: usize = 0;
    while i < list.len()
        invariant
            i <= list@.len(),
            forall|j: int| 0 <= j < i ==> (#[trigger] list@[j])@ != name@,
        decreases list.len() - i,
    {
        if list[i] == *name {
            return true;
        }
        i = i + 1;
    }
    false
}

/// Whether `text` reads exactly as `literal`.
pub fn reads_as(text: &String, literal: &str) -> (same: bool)
    ensures
        same == (text@ == literal@),
{
    let wanted = literal.to_owned();
    *text == wanted
}

/// Looks `name` up in a list that may be absent.
pub fn is_listed_opt(list: &Option<Vec<String>>, name: &String) -> (found: bool)
    ensures
        found == lists_opt(*list, name@),
{
    match list {
        Some(names) => is_listed(names, name),
        None => false,
    }
}

} // verus!
