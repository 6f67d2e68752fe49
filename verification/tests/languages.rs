use pwa_client::client::langauges::get_languages;
use pwa_client::client::language::get_language;

#[test]
fn languages_keep_order_exactly() {
    let reported = vec!["en-US".to_string(), "en".to_string()];
    let returned = get_languages(reported.clone());
    assert_eq!(returned, reported);
    assert_eq!(returned, vec!["en-US".to_string(), "en".to_string()]);
}

#[test]
fn languages_keep_duplicates() {
    let reported = vec!["fr".to_string(), "en".to_string(), "fr".to_string()];
    let returned = get_languages(reported.clone());
    assert_eq!(returned, reported);
}

#[test]
fn empty_language_list_stays_empty() {
    let returned = get_languages(Vec::new());
    assert!(returned.is_empty());
}

#[test]
fn reported_language_is_returned_unchanged() {
    let language = get_language(Some("en-GB".to_string())).expect("a reported language is Ok");
    assert_eq!(language, "en-GB");
}

#[test]
fn missing_language_is_rejected_with_description() {
    let rejection = get_language(None).err().expect("a missing language is rejected");
    assert_eq!(rejection, "Error occured whilst getting language!");
}
