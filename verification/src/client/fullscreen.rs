//! Fullscreen wrappers: request, exit, and query.
use vstd::prelude::*;

use crate::client::document::Document;
use crate::client::response::ClientResponse;

verus! {

/// What exiting fullscreen does to a host document: fullscreen becomes
/// inactive and everything else about the document is untouched.
pub open spec fn exit_transition(document: Document) -> Document {
    Document { fullscreen: false, ..document }
}

/// What querying fullscreen answers on a given host document: the fullscreen
/// flag when the document is defined, and a rejection otherwise.
pub open spec fn fullscreen_answer(document: Document) -> Result<bool, Seq<char>> {
    if document.defined {
        Ok(document.fullscreen)
    } else {
        Err("document is undefined"@)
    }
}

/// Request fullscreen on the document element and translate the host's
/// answer into a status/message response.
///
/// When the host grants the request the document is in fullscreen afterwards
/// and the response is a success; when the host rejects it with a detail
/// string the document is unchanged and the response is an error carrying
/// that detail behind a fixed prefix.
pub fn request_fullscreen(document: &mut Document, request_outcome: Result<(), String>) -> (r:
    Result<ClientResponse, ClientResponse>)
    ensures
        request_outcome is Ok ==> *final(document) == (Document {
            fullscreen: true,
            ..*old(document)
        }) && (r matches Ok(resp) && resp.spec_status() == "success"@ && resp.spec_message()
            == "Enabled full-screen"@),
        request_outcome matches Err(detail) ==> *final(document) == *old(document) && (r matches Err(
            resp,
        ) && resp.spec_status() == "error"@ && resp.spec_message()
            == "Failed to enable full-screen: "@ + detail@),
{
    match request_outcome {
        Ok(_) => {
            document.fullscreen = true;
            Ok(ClientResponse::new("success", "Enabled full-screen"))
        },
        Err(detail) => {
            let message = "Failed to enable full-screen: ".to_owned().concat(detail.as_str());
            Err(ClientResponse::new("error", message.as_str()))
        },
    }
}

/// Exit fullscreen on the document: afterwards fullscreen is inactive and
/// nothing else about the document has changed.
pub fn exit_fullscreen(document: &mut Document)
    ensures
        *final(document) == exit_transition(*old(document)),
{
    document.fullscreen = false;
}

/// Check whether the document is currently in fullscreen mode.
///
/// A defined document answers with its fullscreen flag; an undefined one is
/// rejected with a fixed description.
pub fn is_fullscreen(document: &Document) -> (r: Result<bool, String>)
    ensures
        r is Ok == fullscreen_answer(*document) is Ok,
        r matches Ok(active) ==> fullscreen_answer(*document) == Ok::<bool, Seq<char>>(active),
        r matches Err(m) ==> fullscreen_answer(*document) == Err::<bool, Seq<char>>(m@),
{
    if document.defined {
        Ok(document.fullscreen)
    } else {
        Err("document is undefined".to_owned())
    }
}

/// In a host where fullscreen is currently active the query answers `true`,
/// and after exiting fullscreen the same query answers `false`.
pub proof fn lemma_fullscreen_toggle(document: Document)
    requires
        document.defined,
        document.fullscreen,
    ensures
        fullscreen_answer(document) == Ok::<bool, Seq<char>>(true),
        fullscreen_answer(exit_transition(document)) == Ok::<bool, Seq<char>>(false),
{
}

} // verus!
