//! Picking the keyboard among the MIDI ports of the machine.

use vstd::prelude::*;

verus! {

/// What the keyboard calls itself. A port is the keyboard's where its
/// name holds this text.
pub const WORLDE_EASY_KEY: &'static str = "WORLDE easy key";

/// Whether `part` stands somewhere in `text`, character for character.
pub open spec fn occurs_in(part: Seq<char>, text: Seq<char>) -> bool {
    exists|i: int|
        0 <= i && i + part.len() <= text.len() && #[trigger] text.subrange(i, i + part.len())
            == part
}

/// Whether a port is the wanted one: its name could be read and holds
/// `part`.
pub open spec fn port_matches(name: Option<String>, part: Seq<char>) -> bool {
    match name {
        Some(n) => occurs_in(part, n@),
        None => false,
    }
}

/// Calls `str::contains` of std with a string as the pattern. Not proved:
/// that it tells whether the pattern stands in the text.
#[verifier::external_body]
fn name_contains(name: &str, part: &str) -> (found: bool)
    ensures
        found == occurs_in(part@, name@),
{
    name.contains(part)
}

/// The first port whose name holds `part`, by its place in the list. A
/// port whose name could not be read stands in the list as `None` and is
/// passed over.
pub fn find_port_named(names: &Vec<Option<String>>, part: &str) -> (found: Option<usize>)
    ensures
        match found {
            Some(i) => {
                &&& i < names@.len()
                &&& port_matches(names@[i as int], part@)
                &&& forall|j: int| 0 <= j < i ==> !port_matches(#[trigger] names@[j], part@)
            },
            None => forall|j: int|
                0 <= j < names@.len() ==> !port_matches(#[trigger] names@[j], part@),
        },
{
    let mut i: usize = 0;
    while i < names.len()
        invariant
            i <= names@.len(),
            forall|j: int| 0 <= j < i ==> !port_matches(#[trigger] names@[j], part@),
        decreases names@.len() - i,
    {
        let hit: bool = match &names[i] {
            Some(name) => name_contains(name.as_str(), part),
            None => false,
        };
        if hit {
            return Some(i);
        }
        i += 1;
    }
    None
}

/// The keyboard's port among the ports of the machine, given the name of
/// each in order.
pub fn find_port(names: &Vec<Option<String>>) -> (found: Option<usize>)
    ensures
        match found {
            Some(i) => {
                &&& i < names@.len()
                &&& port_matches(names@[i as int], WORLDE_EASY_KEY@)
                &&& forall|j: int|
                    0 <= j < i ==> !port_matches(#[trigger] names@[j], WORLDE_EASY_KEY@)
            },
            None => forall|j: int|
                0 <= j < names@.len() ==> !port_matches(#[trigger] names@[j], WORLDE_EASY_KEY@),
        },
{
    find_port_named(names, WORLDE_EASY_KEY)
}

} // verus!
