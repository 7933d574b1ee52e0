use mist_client::auth::login::login_request;
use mist_client::inventory::inventory::assign_request;
use mist_client::json::Json;
use mist_client::org::org::clone_request;

fn s(v: &str) -> String {
    v.to_string()
}

fn text(j: &Json) -> String {
    String::from_utf8(j.encode()).expect("encoded bytes are UTF-8")
}

#[test]
fn encode_scalars() {
    assert_eq!(text(&Json::Null), s("null"));
    assert_eq!(text(&Json::Bool(true)), s("true"));
    assert_eq!(text(&Json::Bool(false)), s("false"));
    assert_eq!(text(&Json::Int(0)), s("0"));
    assert_eq!(text(&Json::Int(1440)), s("1440"));
    assert_eq!(text(&Json::Int(-57)), s("-57"));
    assert_eq!(text(&Json::Int(i64::MIN)), s("-9223372036854775808"));
    assert_eq!(text(&Json::Int(i64::MAX)), s("9223372036854775807"));
    assert_eq!(text(&Json::Num(s("35.6762"))), s("35.6762"));
}

#[test]
fn encode_escapes_quotes_backslashes_and_controls() {
    let j = Json::Str(s("a\"b\\c\nd"));
    assert_eq!(text(&j), s("\"a\\\"b\\\\c\\u000ad\""));
    let plain = Json::Str(s("日本"));
    assert_eq!(text(&plain), s("\"日本\""));
}

#[test]
fn encode_nested_document() {
    let j = Json::Obj(vec![
        (s("a"), Json::Arr(vec![Json::Int(1), Json::Str(s("x")), Json::Null])),
        (s("b"), Json::Obj(vec![])),
    ]);
    assert_eq!(text(&j), s("{\"a\":[1,\"x\",null],\"b\":{}}"));
}

#[test]
fn assign_body_text() {
    let r = assign_request("abc", "s1", vec![s("aa:bb")], None, None, None);
    assert_eq!(text(&r.body), s("{\"op\":\"assign\",\"site_id\":\"s1\",\"macs\":[\"aa:bb\"]}"));
}

#[test]
fn login_body_text() {
    let r = login_request("a@example.com", "pw", None);
    assert_eq!(text(&r.body), s("{\"email\":\"a@example.com\",\"password\":\"pw\"}"));
}

#[test]
fn clone_body_text() {
    let r = clone_request("abc", "copy");
    assert_eq!(text(&r.body), s("{\"name\":\"copy\"}"));
}

#[test]
fn encoded_bytes_reparse_with_the_reference_decoder() {
    let r = assign_request("abc", "s1", vec![s("aa:bb")], Some(true), None, None);
    let mine: serde_json::Value =
        serde_json::from_slice(&r.body.encode()).expect("must be valid JSON");
    let expected: serde_json::Value = serde_json::from_str(
        "{\"op\":\"assign\",\"site_id\":\"s1\",\"macs\":[\"aa:bb\"],\"no_reassign\":true}",
    )
    .expect("literal is valid JSON");
    assert_eq!(mine, expected);
}

#[test]
fn numeric_literals_go_out_verbatim() {
    assert_eq!(text(&Json::Num(s("1e-7"))), s("1e-7"));
    assert_eq!(text(&Json::Num(s("-0.5"))), s("-0.5"));
    assert_eq!(text(&Json::Num(s("1.25E+3"))), s("1.25E+3"));
    assert_eq!(text(&Json::Num(s("0"))), s("0"));
}

#[test]
fn a_hand_built_non_number_is_written_as_null() {
    assert_eq!(text(&Json::Num(s("not a number"))), s("null"));
    assert_eq!(text(&Json::Num(s(""))), s("null"));
    assert_eq!(text(&Json::Num(s("01"))), s("null"));
    assert_eq!(text(&Json::Num(s("1."))), s("null"));
    assert_eq!(text(&Json::Num(s("1e"))), s("null"));
    assert_eq!(text(&Json::Num(s("--1"))), s("null"));
}
