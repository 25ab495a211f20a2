use myip_foo::{dual_stack_from_bodies, ip_from_body};

#[test]
fn one_failed_leg_degrades_to_an_absent_address() {
    // the IPv6 request failed in transport, the IPv4 one answered
    let r = dual_stack_from_bodies(Some("{\"ip\":\"1.2.3.4\"}"), None);
    assert_eq!(r.ipv4.as_deref(), Some("1.2.3.4"));
    assert_eq!(r.ipv6, None);
}

#[test]
fn both_legs_can_succeed() {
    let r = dual_stack_from_bodies(Some("{\"ip\":\"1.2.3.4\"}"), Some("{\"ip\":\"::1\"}"));
    assert_eq!(r.ipv4.as_deref(), Some("1.2.3.4"));
    assert_eq!(r.ipv6.as_deref(), Some("::1"));
}

#[test]
fn both_failed_legs_give_a_value_with_two_absences() {
    let r = dual_stack_from_bodies(None, None);
    assert_eq!(r.ipv4, None);
    assert_eq!(r.ipv6, None);
}

#[test]
fn a_malformed_leg_body_degrades_instead_of_failing() {
    let r = dual_stack_from_bodies(Some("not json at all"), Some("{\"ip\":\"::1\"}"));
    assert_eq!(r.ipv4, None);
    assert_eq!(r.ipv6.as_deref(), Some("::1"));
}

#[test]
fn a_wrongly_shaped_leg_body_degrades_too() {
    assert_eq!(ip_from_body("{\"address\":\"1.2.3.4\"}"), None);
    assert_eq!(ip_from_body("{\"ip\":42}"), None);
    assert_eq!(ip_from_body("[\"1.2.3.4\"]"), None);
}

#[test]
fn a_leg_body_with_extra_keys_still_yields_its_address() {
    assert_eq!(ip_from_body("{\"ip\":\"1.2.3.4\",\"extra\":true}").as_deref(), Some("1.2.3.4"));
}
