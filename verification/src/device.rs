//! Device selection by name: a sequential search over the names an audio
//! host reports. Enumerating the devices themselves is the host's business;
//! this module only decides which of the reported names is the one asked
//! for.

use vstd::prelude::*;

verus! {

/// The name that selects whatever device the host considers its default,
/// rather than a device by its own name.
pub open spec fn default_name() -> Seq<char> {
    "default"@
}

/// True when the caller asked for the host's default device instead of a
/// named one.
pub fn wants_default(name: &String) -> (r: bool)
    ensures
        r == (name@ == default_name()),
{
    proof {
        reveal_strlit("default");
    }
    let default: String = "default".to_owned();
    *name == default
}

/// The position of the first device whose name is exactly `wanted`, or
/// `None` when no reported name matches.
pub fn find_device_index(names: &Vec<String>, wanted: &String) -> (r: Option<usize>)
    ensures
        match r {
            Some(i) => i < names@.len() && names@[i as int]@ == wanted@ && (forall|j: int|
                0 <= j < i ==> names@[j]@ != wanted@),
            None => forall|j: int| 0 <= j < names@.len() ==> names@[j]@ != wanted@,
        },
{
    let mut i: usize = 0;
    while i < names.len()
        invariant
            i <= names@.len(),
            forall|j: int| 0 <= j < i ==> names@[j]@ != wanted@,
        decreases names@.len() - i,
    {
        if names[i] == *wanted {
            return Some(i);
        }
        i = i + 1;
    }
    None
}

} // verus!
