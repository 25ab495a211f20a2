use myip_foo::{parse_connection_type, parse_headers, parse_ip_data, parse_user_agent, Error};

fn sample_ip_data_body() -> String {
    let mut body = String::new();
    body.push_str("{\"ip\":\"1.2.3.4\",\"type\":\"IPv4\",");
    body.push_str("\"location\":{\"country\":\"US\",\"city\":\"San Jose\",\"region\":\"CA\",");
    body.push_str("\"postalCode\":\"95113\",\"timezone\":\"America/Los_Angeles\",");
    body.push_str("\"latitude\":\"37.33\",\"longitude\":\"-121.89\"},");
    body.push_str("\"network\":{\"asn\":64512,\"isp\":\"Acme\"},");
    body.push_str("\"cloudflare\":{\"colo\":\"SJC\",\"ray\":\"abc\"}}");
    body
}

#[test]
fn ip_data_round_trips_sample_body() {
    let body = sample_ip_data_body();
    let data = parse_ip_data(&body).unwrap();
    assert_eq!(data.ip, "1.2.3.4");
    assert_eq!(data.ip_type, "IPv4");
    assert_eq!(data.hostname, None);
    assert_eq!(data.connection_type, None);
    assert_eq!(data.location.country, "US");
    assert_eq!(data.location.city, "San Jose");
    assert_eq!(data.location.region, "CA");
    assert_eq!(data.location.postal_code, "95113");
    assert_eq!(data.location.timezone, "America/Los_Angeles");
    assert_eq!(data.location.latitude, "37.33");
    assert_eq!(data.location.longitude, "-121.89");
    assert_eq!(data.network.asn, 64512);
    assert_eq!(data.network.isp, "Acme");
    assert_eq!(data.cloudflare.colo, "SJC");
    assert_eq!(data.cloudflare.ray, "abc");
}

#[test]
fn ip_data_keeps_optional_fields() {
    let mut body = String::new();
    body.push_str("{\"ip\":\"1.2.3.4\",\"type\":\"IPv4\",");
    body.push_str("\"hostname\":\"host.example\",\"connectionType\":null,");
    body.push_str("\"location\":{\"country\":\"US\",\"city\":\"a\",\"region\":\"b\",");
    body.push_str("\"postalCode\":\"c\",\"timezone\":\"d\",\"latitude\":\"e\",\"longitude\":\"f\"},");
    body.push_str("\"network\":{\"asn\":-1,\"isp\":\"Acme\"},");
    body.push_str("\"cloudflare\":{\"colo\":\"SJC\",\"ray\":\"abc\"}}");
    let data = parse_ip_data(&body).unwrap();
    assert_eq!(data.hostname.as_deref(), Some("host.example"));
    assert_eq!(data.connection_type, None);
    assert_eq!(data.network.asn, -1);
}

#[test]
fn ip_data_malformed_body_is_a_parse_error() {
    let r = parse_ip_data("this is not json");
    assert!(matches!(r, Err(Error::Parse(_))));
    assert!(!matches!(r, Err(Error::Request(_))));
}

#[test]
fn ip_data_wrong_shape_is_a_parse_error() {
    // well-formed JSON, but the record's shape is not there
    assert!(matches!(parse_ip_data("{\"ip\":\"1.2.3.4\"}"), Err(Error::Parse(_))));
    assert!(matches!(parse_ip_data("[1,2,3]"), Err(Error::Parse(_))));
    assert!(matches!(parse_ip_data("{\"ip\":5,\"type\":\"IPv4\"}"), Err(Error::Parse(_))));
}

#[test]
fn ip_data_rejects_a_fractional_asn() {
    let body = sample_ip_data_body().replace("64512", "64512.5");
    assert!(matches!(parse_ip_data(&body), Err(Error::Parse(_))));
}

#[test]
fn ip_data_ignores_unknown_keys() {
    let body = sample_ip_data_body().replace(
        "\"ip\":\"1.2.3.4\"",
        "\"extra\":[1,2],\"ip\":\"1.2.3.4\"",
    );
    let data = parse_ip_data(&body).unwrap();
    assert_eq!(data.ip, "1.2.3.4");
}

#[test]
fn connection_type_round_trips() {
    let data = parse_connection_type("{\"ip\":\"1.2.3.4\",\"type\":\"residential\"}").unwrap();
    assert_eq!(data.ip, "1.2.3.4");
    assert_eq!(data.connection_type, "residential");
}

#[test]
fn connection_type_missing_field_is_a_parse_error() {
    assert!(matches!(parse_connection_type("{\"ip\":\"1.2.3.4\"}"), Err(Error::Parse(_))));
}

#[test]
fn headers_keep_every_pair() {
    let body = "{\"accept\":\"*/*\",\"host\":\"example.net\",\"x-thing\":\"1\"}";
    let headers = parse_headers(body).unwrap();
    assert_eq!(headers.len(), 3);
    assert!(headers.iter().any(|p| p.0 == "accept" && p.1 == "*/*"));
    assert!(headers.iter().any(|p| p.0 == "host" && p.1 == "example.net"));
    assert!(headers.iter().any(|p| p.0 == "x-thing" && p.1 == "1"));
}

#[test]
fn headers_of_an_empty_object_are_empty() {
    assert_eq!(parse_headers("{}").unwrap().len(), 0);
}

#[test]
fn headers_with_a_non_string_value_are_a_parse_error() {
    assert!(matches!(parse_headers("{\"a\":\"x\",\"b\":2}"), Err(Error::Parse(_))));
    assert!(matches!(parse_headers("[\"a\"]"), Err(Error::Parse(_))));
}

#[test]
fn user_agent_is_read_when_present() {
    let ua = parse_user_agent("{\"userAgent\":\"curl/8.0\"}").unwrap();
    assert_eq!(ua, "curl/8.0");
}

#[test]
fn user_agent_missing_key_gives_empty_text() {
    assert_eq!(parse_user_agent("{}").unwrap(), "");
    assert_eq!(parse_user_agent("{\"other\":\"x\"}").unwrap(), "");
}

#[test]
fn user_agent_non_string_value_gives_empty_text() {
    assert_eq!(parse_user_agent("{\"userAgent\":42}").unwrap(), "");
    assert_eq!(parse_user_agent("{\"userAgent\":null}").unwrap(), "");
    assert_eq!(parse_user_agent("{\"userAgent\":[\"x\"]}").unwrap(), "");
}

#[test]
fn user_agent_non_object_body_gives_empty_text() {
    assert_eq!(parse_user_agent("[1,2]").unwrap(), "");
    assert_eq!(parse_user_agent("\"hi\"").unwrap(), "");
}

#[test]
fn user_agent_malformed_body_is_a_parse_error() {
    assert!(matches!(parse_user_agent("{"), Err(Error::Parse(_))));
}
