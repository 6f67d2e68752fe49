//! Clipboard wrappers: copy text, paste text, copy an image.
//!
//! A host exposes the clipboard through its navigator; the capability may be
//! absent. When it is present, a write or read either resolves or rejects.
//! These functions translate those host facts into the declared result
//! shapes; the host call itself happens outside the library.
use vstd::prelude::*;

use crate::client::response::ClientResponse;

verus! {

/// Copy text to the clipboard: translates the host's answer into a
/// status/message response.
///
/// `clipboard_present` says whether the navigator exposes a clipboard at
/// all; `write_accepted` says whether the host resolved the write (its value
/// is only consulted when the clipboard is present).
pub fn copy_to_clipboard(clipboard_present: bool, write_accepted: bool) -> (r: Result<
    ClientResponse,
    ClientResponse,
>)
    ensures
        !clipboard_present ==> (r matches Err(resp) && resp.spec_status() == "error"@
            && resp.spec_message() == "Clipboard API doesn't seem available on your browser!"@),
        clipboard_present && write_accepted ==> (r matches Ok(resp) && resp.spec_status()
            == "success"@ && resp.spec_message() == "Copied to clipboard!"@),
        clipboard_present && !write_accepted ==> (r matches Err(resp) && resp.spec_status()
            == "error"@ && resp.spec_message() == "Error occured whilst copying to clipboard!"@),
{
    if clipboard_present {
        if write_accepted {
            Ok(ClientResponse::new("success", "Copied to clipboard!"))
        } else {
            Err(ClientResponse::new("error", "Error occured whilst copying to clipboard!"))
        }
    } else {
        Err(ClientResponse::new("error", "Clipboard API doesn't seem available on your browser!"))
    }
}

/// Paste the last copied text from the clipboard.
///
/// Every outcome is a plain returned string: the text the host read when the
/// read resolved (`read_text` is `Some`), and a fixed error description —
/// not an error channel — when the read rejected or the clipboard is absent.
pub fn paste_from_clipbaord(clipboard_present: bool, read_text: Option<String>) -> (r: String)
    ensures
        !clipboard_present ==> r@ == "Clipboard API doesn't seem available on your browser!"@,
        clipboard_present ==> match read_text {
            Some(text) => r@ == text@,
            None => r@ == "Error occured whilst pasting to clipboard!"@,
        },
{
    if clipboard_present {
        match read_text {
            Some(text) => text,
            None => "Error occured whilst pasting to clipboard!".to_owned(),
        }
    } else {
        "Clipboard API doesn't seem available on your browser!".to_owned()
    }
}

/// The data URL handed to the clipboard when copying an image: the base64
/// payload behind a PNG data-URL prefix, unchanged otherwise.
pub fn image_data_url(image: &str) -> (r: String)
    ensures
        r@ == "data:image/png;base64,"@ + image@,
{
    "data:image/png;base64,".to_owned().concat(image)
}

/// Copy an image to the clipboard: translates the host's answer into a
/// status/message response.
///
/// The image string itself is first framed by [`image_data_url`] and handed
/// to the host; this function states what comes back for each host answer.
pub fn copy_image_to_clipboard(clipboard_present: bool, write_accepted: bool) -> (r: Result<
    ClientResponse,
    ClientResponse,
>)
    ensures
        !clipboard_present ==> (r matches Err(resp) && resp.spec_status() == "error"@
            && resp.spec_message() == "Clipboard API doesn't seem available on your browser!"@),
        clipboard_present && write_accepted ==> (r matches Ok(resp) && resp.spec_status()
            == "success"@ && resp.spec_message() == "Copied to clipboard!"@),
        clipboard_present && !write_accepted ==> (r matches Err(resp) && resp.spec_status()
            == "error"@ && resp.spec_message()
            == "Error occured whilst copying image to clipboard!"@),
{
    if clipboard_present {
        if write_accepted {
            Ok(ClientResponse::new("success", "Copied to clipboard!"))
        } else {
            Err(ClientResponse::new("error", "Error occured whilst copying image to clipboard!"))
        }
    } else {
        Err(ClientResponse::new("error", "Clipboard API doesn't seem available on your browser!"))
    }
}

} // verus!
