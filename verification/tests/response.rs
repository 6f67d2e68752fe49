use pwa_client::client::response::ClientResponse;

#[test]
fn new_test() {
    let status = "success";
    let message = "Hello, World!";
    let client_response = ClientResponse::new(status, message);
    assert_eq!(client_response.get_status(), status.to_string());
    assert_eq!(client_response.get_message(), message.to_string());
}

#[test]
fn get_status_test() {
    let status = "success";
    let message = "Hello, World!";
    let client_response = ClientResponse::new(status, message);
    assert_eq!(client_response.get_status(), status.to_string());
}

#[test]
fn get_message_test() {
    let status = "success";
    let message = "Hello, World!";
    let client_response = ClientResponse::new(status, message);
    assert_eq!(client_response.get_message(), message.to_string());
}

#[test]
fn copied_to_clipboard_pair_reads_back_exactly() {
    let response = ClientResponse::new("success", "Copied to clipboard!");
    assert_eq!(response.get_status(), "success");
    assert_eq!(response.get_message(), "Copied to clipboard!");
}

#[test]
fn repeated_reads_return_identical_strings() {
    let response = ClientResponse::new("error", "Something went wrong");
    let first_status = response.get_status();
    let second_status = response.get_status();
    let first_message = response.get_message();
    let second_message = response.get_message();
    assert_eq!(first_status, second_status);
    assert_eq!(first_message, second_message);
    assert_eq!(first_status, "error");
    assert_eq!(first_message, "Something went wrong");
}
