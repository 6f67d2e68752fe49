use pwa_client::client::document::Document;
use pwa_client::client::fullscreen::exit_fullscreen;
use pwa_client::client::fullscreen::is_fullscreen;
use pwa_client::client::fullscreen::request_fullscreen;
use pwa_client::client::visibility::VisibilityState;

#[test]
fn fullscreen_query_true_then_false_after_exit() {
    let mut document = Document {
        defined: true,
        fullscreen: true,
        visibility: VisibilityState::Visible,
    };
    assert_eq!(is_fullscreen(&document).unwrap(), true);
    exit_fullscreen(&mut document);
    assert_eq!(is_fullscreen(&document).unwrap(), false);
}

#[test]
fn fullscreen_query_on_undefined_document_is_rejected() {
    let document = Document {
        defined: false,
        fullscreen: false,
        visibility: VisibilityState::Visible,
    };
    let rejection = is_fullscreen(&document).err().expect("an undefined document is rejected");
    assert_eq!(rejection, "document is undefined");
}

#[test]
fn granted_fullscreen_request_is_success_and_activates() {
    let mut document = Document {
        defined: true,
        fullscreen: false,
        visibility: VisibilityState::Visible,
    };
    let result = request_fullscreen(&mut document, Ok(()));
    let response = result.ok().expect("a granted request yields a success value");
    assert_eq!(response.get_status(), "success");
    assert_eq!(response.get_message(), "Enabled full-screen");
    assert_eq!(is_fullscreen(&document).unwrap(), true);
}

#[test]
fn rejected_fullscreen_request_is_error_with_detail() {
    let mut document = Document {
        defined: true,
        fullscreen: false,
        visibility: VisibilityState::Visible,
    };
    let result = request_fullscreen(&mut document, Err("denied by user".to_string()));
    let response = result.err().expect("a rejected request yields an error value");
    assert_eq!(response.get_status(), "error");
    assert_eq!(response.get_message(), "Failed to enable full-screen: denied by user");
    assert_eq!(is_fullscreen(&document).unwrap(), false);
}
