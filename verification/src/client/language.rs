//! Preferred browser language wrapper.
use vstd::prelude::*;

verus! {

/// Returns the navigator's preferred language.
///
/// A navigator that reports a language yields it unchanged; one that
/// reports none is rejected with a fixed description.
pub fn get_language(language: Option<String>) -> (r: Result<String, String>)
    ensures
        language matches Some(tag) ==> (r matches Ok(v) && v@ == tag@),
        language is None ==> (r matches Err(m) && m@ == "Error occured whilst getting language!"@),
{
    match language {
        Some(tag) => Ok(tag),
        None => Err("Error occured whilst getting language!".to_owned()),
    }
}

} // verus!
