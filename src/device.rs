//! Choosing an output device by name among those the system lists.

use vstd::prelude::*;

verus! {

/// Whether a listed device carries the wanted name. A device whose name
/// could not be read carries none.
pub open spec fn names_match(entry: Option<String>, wanted: Seq<char>) -> bool {
    entry matches Some(name) && name@ == wanted
}

/// Whether `i` is the first position of the list whose device carries the
/// wanted name.
pub open spec fn is_first_match(names: Seq<Option<String>>, wanted: Seq<char>, i: int) -> bool {
    &&& 0 <= i < names.len()
    &&& names_match(names[i], wanted)
    &&& forall|j: int| 0 <= j < i ==> !names_match(#[trigger] names[j], wanted)
}

/// Picks the device for a wanted name among the names of the devices the
/// system lists, in the order listed. `None` selects the system default
/// device: so does an empty name, and a name that no device carries. A
/// missing device is never an error.
pub fn resolve_device(names: &Vec<Option<String>>, wanted: &String) -> (r: Option<usize>)
    ensures
        wanted@.len() == 0 ==> r is None,
        wanted@.len() > 0 ==> match r {
            Some(i) => is_first_match(names@, wanted@, i as int),
            None => forall|j: int| 0 <= j < names@.len() ==> !names_match(#[trigger] names@[j], wanted@),
        },
{
    if wanted.as_str().unicode_len() == 0 {
        return None;
    }
    let mut i: usize = 0;
    while i < names.len()
        invariant
            i <= names@.len(),
            wanted@.len() > 0,
            forall|j: int| 0 <= j < i ==> !names_match(#[trigger] names@[j], wanted@),
        decreases names@.len() - i,
    {
        if let Some(name) = &names[i] {
            if *name == *wanted {
                return Some(i);
            }
        }
        i = i + 1;
    }
    None
}

} // verus!
