use androlon::json::{decode, encode, line_of, Object, Value};

fn text(s: &str) -> Value {
    Value::Str(s.to_string())
}

#[test]
fn roundtrip() {
    let mut obj = Object::new();
    obj.insert("req".into(), Value::Str("status".into()));
    obj.insert("count".into(), Value::Int(-3));
    obj.insert("booted".into(), Value::Bool(true));
    obj.insert("pkgs".into(), Value::List(vec!["a.b".into(), "c\"d".into()]));
    let line = encode(&obj);
    assert_eq!(decode(&line), Some(obj));
}

#[test]
fn escapes_and_unicode() {
    let mut obj = Object::new();
    obj.insert("s".into(), Value::Str("li\ne \"q\" — ünïcode".into()));
    let line = encode(&obj);
    assert_eq!(decode(&line), Some(obj));
}

#[test]
fn rejects_garbage() {
    assert!(decode("not json").is_none());
    assert!(decode("{\"a\":}").is_none());
    assert!(decode("{\"a\":{\"nested\":1}}").is_none()); // outside the dialect
}

#[test]
fn empty_object_and_list() {
    assert_eq!(decode("{}"), Some(Object::new()));
    let mut obj = Object::new();
    obj.insert("l".into(), Value::List(vec![]));
    assert_eq!(decode("{\"l\":[]}"), Some(obj));
}

#[test]
fn members_stand_in_the_order_of_their_names() {
    let mut obj = Object::new();
    obj.insert("b".into(), Value::Int(2));
    obj.insert("a".into(), text("x\ty\u{1}\\"));
    obj.insert("c".into(), Value::Bool(false));
    obj.insert("b".into(), Value::Int(-7));
    assert_eq!(encode(&obj), "{\"a\":\"x\\ty\\u0001\\\\\",\"b\":-7,\"c\":false}");
    assert_eq!(obj.len(), 3);
    assert_eq!(obj.get("b"), Some(&Value::Int(-7)));
    assert_eq!(obj.get("d"), None);
    assert!(obj.contains_key("a"));
}

#[test]
fn a_line_ends_with_a_line_break_and_has_no_other() {
    let mut obj = Object::new();
    obj.insert("s".into(), text("one\ntwo\r"));
    let line = line_of(&obj);
    assert_eq!(line, "{\"s\":\"one\\ntwo\\r\"}\n");
    assert_eq!(decode(line.trim()), Some(obj));
}

#[test]
fn numbers_reach_from_end_to_end() {
    for n in [i64::MIN, -1, 0, i64::MAX] {
        let mut obj = Object::new();
        obj.insert("n".into(), Value::Int(n));
        assert_eq!(decode(&encode(&obj)), Some(obj));
    }
    assert!(decode("{\"n\":9223372036854775808}").is_none());
    assert!(decode("{\"n\":1.5}").is_none());
}

#[test]
fn blanks_and_escapes_are_read() {
    let line = " { \"k\" : \"\\u0041\\n\\\"\" ,\t\"l\" : [ \"x\" , \"y\" ] } \r\n";
    let obj = decode(line).unwrap();
    assert_eq!(obj.get("k"), Some(&text("A\n\"")));
    assert_eq!(obj.get("l"), Some(&Value::List(vec!["x".into(), "y".into()])));
    assert!(decode("{\"k\":\"\\/\"}").is_none());
    assert!(decode("{\"k\":\"\\u00g1\"}").is_none());
}

#[test]
fn what_follows_an_object_is_refused() {
    assert!(decode("{} x").is_none());
    assert!(decode("{\"a\":1}}").is_none());
    assert!(decode("{\"a\":1} \n").is_some());
    assert!(decode("{\"a\":1").is_none());
    assert!(decode("{\"a\":1,}").is_none());
    assert!(decode("{\"a\":[1]}").is_none());
    assert!(decode("{\"a\":\"\\ud800\"}").is_none());
    assert!(decode("").is_none());
}
