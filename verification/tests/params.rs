use clockwork::routes::{body_params_from_data, url_params_from_route_recognizer};
use route_recognizer::Params;

#[test]
fn as_form_reads_pairs() {
    let body = body_params_from_data(b"a=1&b=2".to_vec());
    let form = body.as_form();
    assert_eq!(form.get("a"), Some("1".to_string()));
    assert_eq!(form.get("b"), Some("2".to_string()));
    assert_eq!(form.get("c"), None);
}

#[test]
fn as_form_of_empty_body_has_no_pairs() {
    let body = body_params_from_data(Vec::new());
    let form = body.as_form();
    assert_eq!(form.get("a"), None);
    assert_eq!(form.get(""), None);
}

#[test]
fn as_form_decodes_names_and_values() {
    let body = body_params_from_data(b"%23first=%25try%25&full+name=Ann+Lee".to_vec());
    let form = body.as_form();
    assert_eq!(form.get("#first"), Some("%try%".to_string()));
    assert_eq!(form.get("full name"), Some("Ann Lee".to_string()));
}

#[test]
fn as_form_first_value_of_a_repeated_name_wins() {
    let body = body_params_from_data(b"a=1&b=2&a=3".to_vec());
    let form = body.as_form();
    assert_eq!(form.get("a"), Some("1".to_string()));
    assert_eq!(form.get("b"), Some("2".to_string()));
}

#[test]
fn as_form_name_without_value_is_empty() {
    let body = body_params_from_data(b"flag&x=".to_vec());
    let form = body.as_form();
    assert_eq!(form.get("flag"), Some(String::new()));
    assert_eq!(form.get("x"), Some(String::new()));
}

#[test]
fn as_form_can_be_read_twice() {
    let body = body_params_from_data(b"a=1".to_vec());
    assert_eq!(body.as_form().get("a"), Some("1".to_string()));
    assert_eq!(body.as_form().get("a"), Some("1".to_string()));
    assert_eq!(body.as_text(), Some("a=1"));
}

#[test]
fn as_text_of_valid_utf8_is_the_text() {
    let body = body_params_from_data("gr\u{fc}\u{df} dich".as_bytes().to_vec());
    assert_eq!(body.as_text(), Some("gr\u{fc}\u{df} dich"));
    assert_eq!(body_params_from_data(Vec::new()).as_text(), Some(""));
}

#[test]
fn as_text_of_invalid_utf8_is_absent() {
    assert_eq!(body_params_from_data(vec![0x66, 0x6f, 0xff]).as_text(), None);
    assert_eq!(body_params_from_data(vec![0xc3]).as_text(), None);
    assert_eq!(body_params_from_data(vec![0xed, 0xa0, 0x80]).as_text(), None);
}

#[test]
fn uri_params_get_finds_by_name() {
    let mut params = Params::new();
    params.insert("id".to_string(), "42".to_string());
    params.insert("".to_string(), "css/site.css".to_string());
    let url = url_params_from_route_recognizer(params);
    assert_eq!(url.get("id"), Some("42".to_string()));
    assert_eq!(url.get(""), Some("css/site.css".to_string()));
    assert_eq!(url.get("name"), None);
}

#[test]
fn uri_params_get_resolves_percent_escapes() {
    let mut params = Params::new();
    params.insert("q".to_string(), "a%20b%2Fc".to_string());
    params.insert("odd".to_string(), "100%".to_string());
    params.insert("plus".to_string(), "a+b".to_string());
    let url = url_params_from_route_recognizer(params);
    assert_eq!(url.get("q"), Some("a b/c".to_string()));
    assert_eq!(url.get("odd"), Some("100%".to_string()));
    assert_eq!(url.get("plus"), Some("a+b".to_string()));
}

#[test]
fn uri_params_of_nothing_find_nothing() {
    let url = url_params_from_route_recognizer(Params::new());
    assert_eq!(url.get("id"), None);
    assert_eq!(url.get(""), None);
}

#[test]
fn uri_params_get_finds_a_name_recorded_in_ascii_form() {
    let mut params = Params::new();
    params.insert("stra%C3%9Fe".to_string(), "lang%20weg".to_string());
    params.insert("plain".to_string(), "1".to_string());
    let url = url_params_from_route_recognizer(params);
    assert_eq!(url.get("stra\u{df}e"), Some("lang weg".to_string()));
    assert_eq!(url.get("stra%C3%9Fe"), Some("lang weg".to_string()));
    assert_eq!(url.get("plain"), Some("1".to_string()));
    assert_eq!(url.get("pl\u{e4}in"), None);
}

#[test]
fn uri_params_get_prefers_the_name_as_given() {
    let mut params = Params::new();
    params.insert("\u{e9}".to_string(), "raw".to_string());
    params.insert("%C3%A9".to_string(), "form".to_string());
    let url = url_params_from_route_recognizer(params);
    assert_eq!(url.get("\u{e9}"), Some("raw".to_string()));
    assert_eq!(url.get("%C3%A9"), Some("form".to_string()));
}
