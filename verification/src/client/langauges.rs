//! Browser language-preference list wrapper.
use vstd::prelude::*;

verus! {

/// Returns the languages the navigator reports, exactly as reported: the
/// same tags, in the same preference order, duplicates included.
pub fn get_languages(languages: Vec<String>) -> (r: Vec<String>)
    ensures
        r@ == languages@,
        r@.len() == languages@.len(),
        forall|i: int| 0 <= i < languages@.len() ==> r@[i] == languages@[i],
{
    languages
}

} // verus!
