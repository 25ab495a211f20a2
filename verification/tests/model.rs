use myip_foo::{
    headers_from_json, ip_from_json, network_from_json, user_agent_from_json, Error, JsonValue,
};

fn obj(pairs: Vec<(&str, JsonValue)>) -> JsonValue {
    JsonValue::Obj(pairs.into_iter().map(|p| (p.0.to_string(), p.1)).collect())
}

fn text(s: &str) -> JsonValue {
    JsonValue::Str(s.to_string())
}

#[test]
fn network_reads_its_two_fields_from_the_model() {
    let v = obj(vec![("asn", JsonValue::Num("64512".to_string())), ("isp", text("Acme"))]);
    let n = network_from_json(&v).unwrap();
    assert_eq!(n.asn, 64512);
    assert_eq!(n.isp, "Acme");
}

#[test]
fn network_with_a_textual_asn_is_a_parse_error() {
    let v = obj(vec![("asn", text("64512")), ("isp", text("Acme"))]);
    assert!(matches!(network_from_json(&v), Err(Error::Parse(_))));
}

#[test]
fn lookup_takes_the_first_of_equal_keys() {
    let v = obj(vec![("ip", text("1.1.1.1")), ("ip", text("2.2.2.2"))]);
    assert_eq!(ip_from_json(&v).as_deref(), Some("1.1.1.1"));
}

#[test]
fn user_agent_from_the_model_defaults_to_empty_text() {
    assert_eq!(user_agent_from_json(&obj(vec![])), "");
    assert_eq!(user_agent_from_json(&JsonValue::Null), "");
    assert_eq!(user_agent_from_json(&obj(vec![("userAgent", JsonValue::Bool(true))])), "");
    assert_eq!(user_agent_from_json(&obj(vec![("userAgent", text("wget"))])), "wget");
}

#[test]
fn headers_from_the_model_keep_order_and_count() {
    let v = obj(vec![("b", text("2")), ("a", text("1"))]);
    let hs = headers_from_json(&v).unwrap();
    assert_eq!(hs.len(), 2);
    assert_eq!(hs[0], ("b".to_string(), "2".to_string()));
    assert_eq!(hs[1], ("a".to_string(), "1".to_string()));
}

#[test]
fn headers_from_a_model_array_are_a_parse_error() {
    assert!(matches!(headers_from_json(&JsonValue::Arr), Err(Error::Parse(_))));
}
