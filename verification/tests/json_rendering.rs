//! The JSON model and its two renderings: compact for the wire, pretty for
//! a human, with exact expected texts.

use wsl_terminal::json::{jarr, jbool, jint, jstr, obj1, obj2, obj3, Json};
use wsl_terminal::json_text::{to_json_string, to_json_string_pretty};

#[test]
fn scalars_render_compactly() {
    assert_eq!(to_json_string(&Json::Null), "null");
    assert_eq!(to_json_string(&jbool(true)), "true");
    assert_eq!(to_json_string(&jbool(false)), "false");
    assert_eq!(to_json_string(&jint(0)), "0");
    assert_eq!(to_json_string(&jint(-42)), "-42");
    assert_eq!(to_json_string(&jint(i64::MIN)), "-9223372036854775808");
    assert_eq!(to_json_string(&jint(i64::MAX)), "9223372036854775807");
    assert_eq!(to_json_string(&Json::Num(String::from("2.5"))), "2.5");
}

#[test]
fn strings_are_escaped_like_the_wire_expects() {
    assert_eq!(to_json_string(&jstr("plain")), "\"plain\"");
    assert_eq!(to_json_string(&jstr("a\"b\\c")), "\"a\\\"b\\\\c\"");
    assert_eq!(to_json_string(&jstr("line\nbreak\ttab\r")), "\"line\\nbreak\\ttab\\r\"");
    assert_eq!(to_json_string(&jstr("\u{8}\u{c}\u{1}")), "\"\\b\\f\\u0001\"");
    assert_eq!(to_json_string(&jstr("unicode: é")), "\"unicode: é\"");
}

#[test]
fn containers_render_compactly_in_order() {
    let v = obj2(
        "items",
        jarr(vec![jint(1), jstr("two"), Json::Null]),
        "empty",
        jarr(vec![]),
    );
    assert_eq!(to_json_string(&v), "{\"items\":[1,\"two\",null],\"empty\":[]}");
}

#[test]
fn pretty_rendering_indents_by_two_spaces() {
    let v = obj2("a", jint(1), "b", jarr(vec![jint(2), obj1("c", jstr("d"))]));
    let expected = "{\n  \"a\": 1,\n  \"b\": [\n    2,\n    {\n      \"c\": \"d\"\n    }\n  ]\n}";
    assert_eq!(to_json_string_pretty(&v), expected);
    assert_eq!(to_json_string_pretty(&Json::empty_obj()), "{}");
    assert_eq!(to_json_string_pretty(&jarr(vec![])), "[]");
}

#[test]
fn duplicate_preserves_a_whole_document() {
    let v = obj3(
        "s",
        jstr("x"),
        "n",
        jint(9),
        "deep",
        obj1("inner", jarr(vec![jbool(false), Json::Num(String::from("1e99"))])),
    );
    let copy = v.duplicate();
    assert_eq!(to_json_string(&copy), to_json_string(&v));
}

#[test]
fn lookups_read_the_first_binding() {
    let v = obj2("k", jint(1), "other", jstr("x"));
    assert_eq!(v.get("k").and_then(|f| f.as_int()), Some(1));
    assert!(v.get("missing").is_none());
    assert!(jstr("not an object").get("k").is_none());
    assert_eq!(v.get("other").and_then(|f| f.as_str()).map(|s| s.as_str()), Some("x"));
}
