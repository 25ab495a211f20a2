use vstd::prelude::*;

use crate::data::{
    Cloudflare, CloudflareView, ConnectionTypeData, ConnectionTypeDataView, DualStackData, Error,
    IpData, IpDataView, Location, LocationView, Network, NetworkView,
};
use crate::json::{
    get_i64_field, get_opt_str, get_req_str, jget, json_from_str, json_of, obj_get, spec_i64_field,
    spec_opt_str, spec_req_str, JsonValue,
};

verus! {

fn shape_error<T>() -> (r: Result<T, Error>)
    ensures
        r matches Err(e) && e is Parse,
{
    Err(Error::Parse("the body does not fit the expected shape".to_owned()))
}

/// The `Location` an object's pair list describes: all seven fields
/// present, each a string.
pub open spec fn spec_location_pairs(p: Seq<(String, JsonValue)>) -> Option<LocationView> {
    if spec_req_str(p, "country"@) is Some && spec_req_str(p, "city"@) is Some && spec_req_str(
        p,
        "region"@,
    ) is Some && spec_req_str(p, "postalCode"@) is Some && spec_req_str(p, "timezone"@) is Some
        && spec_req_str(p, "latitude"@) is Some && spec_req_str(p, "longitude"@) is Some {
        Some(
            LocationView {
                country: spec_req_str(p, "country"@)->Some_0,
                city: spec_req_str(p, "city"@)->Some_0,
                region: spec_req_str(p, "region"@)->Some_0,
                postal_code: spec_req_str(p, "postalCode"@)->Some_0,
                timezone: spec_req_str(p, "timezone"@)->Some_0,
                latitude: spec_req_str(p, "latitude"@)->Some_0,
                longitude: spec_req_str(p, "longitude"@)->Some_0,
            },
        )
    } else {
        None
    }
}

/// The `Location` a JSON value describes: an object of the above shape.
pub open spec fn spec_location(v: JsonValue) -> Option<LocationView> {
    match v {
        JsonValue::Obj(pairs) => spec_location_pairs(pairs@),
        _ => None,
    }
}

/// The `Network` an object's pair list describes: an integer `asn` and a
/// string `isp`.
pub open spec fn spec_network_pairs(p: Seq<(String, JsonValue)>) -> Option<NetworkView> {
    if spec_i64_field(p, "asn"@) is Some && spec_req_str(p, "isp"@) is Some {
        Some(
            NetworkView {
                asn: spec_i64_field(p, "asn"@)->Some_0,
                isp: spec_req_str(p, "isp"@)->Some_0,
            },
        )
    } else {
        None
    }
}

/// The `Network` a JSON value describes.
pub open spec fn spec_network(v: JsonValue) -> Option<NetworkView> {
    match v {
        JsonValue::Obj(pairs) => spec_network_pairs(pairs@),
        _ => None,
    }
}

/// The `Cloudflare` an object's pair list describes: strings `colo` and
/// `ray`.
pub open spec fn spec_cloudflare_pairs(p: Seq<(String, JsonValue)>) -> Option<CloudflareView> {
    if spec_req_str(p, "colo"@) is Some && spec_req_str(p, "ray"@) is Some {
        Some(
            CloudflareView {
                colo: spec_req_str(p, "colo"@)->Some_0,
                ray: spec_req_str(p, "ray"@)->Some_0,
            },
        )
    } else {
        None
    }
}

/// The `Cloudflare` a JSON value describes.
pub open spec fn spec_cloudflare(v: JsonValue) -> Option<CloudflareView> {
    match v {
        JsonValue::Obj(pairs) => spec_cloudflare_pairs(pairs@),
        _ => None,
    }
}

/// The `Location` under the `location` key.
pub open spec fn spec_location_field(p: Seq<(String, JsonValue)>) -> Option<LocationView> {
    match jget(p, "location"@) {
        Some(v) => spec_location(v),
        None => None,
    }
}

/// The `Network` under the `network` key.
pub open spec fn spec_network_field(p: Seq<(String, JsonValue)>) -> Option<NetworkView> {
    match jget(p, "network"@) {
        Some(v) => spec_network(v),
        None => None,
    }
}

/// The `Cloudflare` under the `cloudflare` key.
pub open spec fn spec_cloudflare_field(p: Seq<(String, JsonValue)>) -> Option<CloudflareView> {
    match jget(p, "cloudflare"@) {
        Some(v) => spec_cloudflare(v),
        None => None,
    }
}

/// The full record the main endpoint's body describes: `ip` and `type`
/// strings, optional `hostname` and `connectionType`, and the three nested
/// objects, under their wire names.
pub open spec fn spec_ip_data(v: JsonValue) -> Option<IpDataView> {
    match v {
        JsonValue::Obj(pairs) => {
            let p = pairs@;
            if spec_req_str(p, "ip"@) is Some && spec_req_str(p, "type"@) is Some && spec_opt_str(
                p,
                "hostname"@,
            ) is Some && spec_opt_str(p, "connectionType"@) is Some && spec_location_field(
                p,
            ) is Some && spec_network_field(p) is Some && spec_cloudflare_field(p) is Some {
                Some(
                    IpDataView {
                        ip: spec_req_str(p, "ip"@)->Some_0,
                        ip_type: spec_req_str(p, "type"@)->Some_0,
                        hostname: spec_opt_str(p, "hostname"@)->Some_0,
                        connection_type: spec_opt_str(p, "connectionType"@)->Some_0,
                        location: spec_location_field(p)->Some_0,
                        network: spec_network_field(p)->Some_0,
                        cloudflare: spec_cloudflare_field(p)->Some_0,
                    },
                )
            } else {
                None
            }
        },
        _ => None,
    }
}

/// The answer of the connection-type endpoint: `ip` and `type` strings.
pub open spec fn spec_connection_type(v: JsonValue) -> Option<ConnectionTypeDataView> {
    match v {
        JsonValue::Obj(pairs) => {
            if spec_req_str(pairs@, "ip"@) is Some && spec_req_str(pairs@, "type"@) is Some {
                Some(
                    ConnectionTypeDataView {
                        ip: spec_req_str(pairs@, "ip"@)->Some_0,
                        connection_type: spec_req_str(pairs@, "type"@)->Some_0,
                    },
                )
            } else {
                None
            }
        },
        _ => None,
    }
}

/// Decodes a JSON value into a `Location`, succeeding exactly where
/// `spec_location` has one.
pub fn location_from_json(v: &JsonValue) -> (r: Result<Location, Error>)
    ensures
        (match spec_location(*v) {
            Some(l) => r matches Ok(out) && out@ == l,
            None => r matches Err(e) && e is Parse,
        }),
{
    match v {
        JsonValue::Obj(pairs) => {
            let country = match get_req_str(pairs, "country") {
                Some(s) => s,
                None => {
                    return shape_error();
                },
            };
            let city = match get_req_str(pairs, "city") {
                Some(s) => s,
                None => {
                    return shape_error();
                },
            };
            let region = match get_req_str(pairs, "region") {
                Some(s) => s,
                None => {
                    return shape_error();
                },
            };
            let postal_code = match get_req_str(pairs, "postalCode") {
                Some(s) => s,
                None => {
                    return shape_error();
                },
            };
            let timezone = match get_req_str(pairs, "timezone") {
                Some(s) => s,
                None => {
                    return shape_error();
                },
            };
            let latitude = match get_req_str(pairs, "latitude") {
                Some(s) => s,
                None => {
                    return shape_error();
                },
            };
            let longitude = match get_req_str(pairs, "longitude") {
                Some(s) => s,
                None => {
                    return shape_error();
                },
            };
            Ok(Location { country, city, region, postal_code, timezone, latitude, longitude })
        },
        _ => shape_error(),
    }
}

/// Decodes a JSON value into a `Network`, succeeding exactly where
/// `spec_network` has one.
pub fn network_from_json(v: &JsonValue) -> (r: Result<Network, Error>)
    ensures
        (match spec_network(*v) {
            Some(n) => r matches Ok(out) && out@ == n,
            None => r matches Err(e) && e is Parse,
        }),
{
    match v {
        JsonValue::Obj(pairs) => {
            let asn = match get_i64_field(pairs, "asn") {
                Some(a) => a,
                None => {
                    return shape_error();
                },
            };
            let isp = match get_req_str(pairs, "isp") {
                Some(s) => s,
                None => {
                    return shape_error();
                },
            };
            Ok(Network { asn, isp })
        },
        _ => shape_error(),
    }
}

/// Decodes a JSON value into a `Cloudflare`, succeeding exactly where
/// `spec_cloudflare` has one.
pub fn cloudflare_from_json(v: &JsonValue) -> (r: Result<Cloudflare, Error>)
    ensures
        (match spec_cloudflare(*v) {
            Some(c) => r matches Ok(out) && out@ == c,
            None => r matches Err(e) && e is Parse,
        }),
{
    match v {
        JsonValue::Obj(pairs) => {
            let colo = match get_req_str(pairs, "colo") {
                Some(s) => s,
                None => {
                    return shape_error();
                },
            };
            let ray = match get_req_str(pairs, "ray") {
                Some(s) => s,
                None => {
                    return shape_error();
                },
            };
            Ok(Cloudflare { colo, ray })
        },
        _ => shape_error(),
    }
}

/// Decodes a JSON value into the full record, succeeding exactly where
/// `spec_ip_data` has one.
pub fn ip_data_from_json(v: &JsonValue) -> (r: Result<IpData, Error>)
    ensures
        (match spec_ip_data(*v) {
            Some(d) => r matches Ok(out) && out@ == d,
            None => r matches Err(e) && e is Parse,
        }),
{
    match v {
        JsonValue::Obj(pairs) => {
            let ip = match get_req_str(pairs, "ip") {
                Some(s) => s,
                None => {
                    return shape_error();
                },
            };
            let ip_type = match get_req_str(pairs, "type") {
                Some(s) => s,
                None => {
                    return shape_error();
                },
            };
            let hostname = match get_opt_str(pairs, "hostname") {
                Some(h) => h,
                None => {
                    return shape_error();
                },
            };
            let connection_type = match get_opt_str(pairs, "connectionType") {
                Some(c) => c,
                None => {
                    return shape_error();
                },
            };
            let location = match obj_get(pairs, "location") {
                Some(lv) => match location_from_json(lv) {
                    Ok(l) => l,
                    Err(e) => {
                        return Err(e);
                    },
                },
                None => {
                    return shape_error();
                },
            };
            let network = match obj_get(pairs, "network") {
                Some(nv) => match network_from_json(nv) {
                    Ok(n) => n,
                    Err(e) => {
                        return Err(e);
                    },
                },
                None => {
                    return shape_error();
                },
            };
            let cloudflare = match obj_get(pairs, "cloudflare") {
                Some(cv) => match cloudflare_from_json(cv) {
                    Ok(c) => c,
                    Err(e) => {
                        return Err(e);
                    },
                },
                None => {
                    return shape_error();
                },
            };
            Ok(IpData { ip, ip_type, hostname, connection_type, location, network, cloudflare })
        },
        _ => shape_error(),
    }
}

/// Decodes a JSON value into the connection-type answer, succeeding exactly
/// where `spec_connection_type` has one.
pub fn connection_type_from_json(v: &JsonValue) -> (r: Result<ConnectionTypeData, Error>)
    ensures
        (match spec_connection_type(*v) {
            Some(c) => r matches Ok(out) && out@ == c,
            None => r matches Err(e) && e is Parse,
        }),
{
    match v {
        JsonValue::Obj(pairs) => {
            let ip = match get_req_str(pairs, "ip") {
                Some(s) => s,
                None => {
                    return shape_error();
                },
            };
            let connection_type = match get_req_str(pairs, "type") {
                Some(s) => s,
                None => {
                    return shape_error();
                },
            };
            Ok(ConnectionTypeData { ip, connection_type })
        },
        _ => shape_error(),
    }
}

/// The text a JSON value holds where it is a string; empty otherwise.
pub open spec fn str_content(v: JsonValue) -> Seq<char> {
    match v {
        JsonValue::Str(s) => s@,
        _ => Seq::<char>::empty(),
    }
}

/// Every value of the pair list is a string.
pub open spec fn all_str_values(p: Seq<(String, JsonValue)>) -> bool {
    forall|k: int| 0 <= k < p.len() ==> (#[trigger] p[k].1) is Str
}

/// The header list a JSON value describes: an object whose values are all
/// strings, kept pair for pair.
pub open spec fn spec_headers(v: JsonValue) -> Option<Seq<(Seq<char>, Seq<char>)>> {
    match v {
        JsonValue::Obj(pairs) => if all_str_values(pairs@) {
            Some(Seq::new(pairs@.len(), |k: int| (pairs@[k].0@, str_content(pairs@[k].1))))
        } else {
            None
        },
        _ => None,
    }
}

/// Decodes a JSON value into the header pairs, succeeding exactly where
/// `spec_headers` has them; the result keeps every pair of the object, in
/// order, so its length equals the number of pairs in the body.
pub fn headers_from_json(v: &JsonValue) -> (r: Result<Vec<(String, String)>, Error>)
    ensures
        (match spec_headers(*v) {
            Some(hs) => r matches Ok(out) && out.deep_view() == hs,
            None => r matches Err(e) && e is Parse,
        }),
        r matches Ok(out) ==> *v matches JsonValue::Obj(pairs) && out@.len() == pairs@.len(),
{
    match v {
        JsonValue::Obj(pairs) => {
            let mut out: Vec<(String, String)> = Vec::new();
            let mut i: usize = 0;
            while i < pairs.len()
                invariant
                    *v == JsonValue::Obj(*pairs),
                    0 <= i <= pairs@.len(),
                    out@.len() == i,
                    forall|k: int| 0 <= k < i ==> (#[trigger] pairs@[k].1) is Str,
                    forall|k: int|
                        0 <= k < i ==> (#[trigger] out@[k]).0@ == pairs@[k].0@ && out@[k].1@
                            == str_content(pairs@[k].1),
                decreases pairs@.len() - i,
            {
                match &pairs[i].1 {
                    JsonValue::Str(s) => {
                        let name = pairs[i].0.clone();
                        out.push((name, s.clone()));
                    },
                    _ => {
                        proof {
                            assert(!all_str_values(pairs@)) by {
                                assert(!(pairs@[i as int].1 is Str));
                            }
                        }
                        return shape_error();
                    },
                }
                i += 1;
            }
            proof {
                assert(out.deep_view() =~= Seq::new(
                    pairs@.len(),
                    |k: int| (pairs@[k].0@, str_content(pairs@[k].1)),
                ));
            }
            Ok(out)
        },
        _ => shape_error(),
    }
}

/// The user-agent text a JSON value carries: the string under `userAgent`,
/// or empty text where that key is absent or holds anything but a string,
/// or where the value is no object at all.
pub open spec fn spec_user_agent(v: JsonValue) -> Seq<char> {
    match v {
        JsonValue::Obj(pairs) => match jget(pairs@, "userAgent"@) {
            Some(JsonValue::Str(s)) => s@,
            _ => Seq::<char>::empty(),
        },
        _ => Seq::<char>::empty(),
    }
}

/// Reads the user-agent text out of a JSON value.  A missing `userAgent`
/// key, or one holding anything but a string, gives empty text, never an
/// error.
pub fn user_agent_from_json(v: &JsonValue) -> (r: String)
    ensures
        r@ == spec_user_agent(*v),
{
    match v {
        JsonValue::Obj(pairs) => match obj_get(pairs, "userAgent") {
            Some(JsonValue::Str(s)) => s.clone(),
            _ => String::new(),
        },
        _ => String::new(),
    }
}

/// The address a single-stack body carries: the string under `ip`.
pub open spec fn spec_ip_field(v: JsonValue) -> Option<Seq<char>> {
    match v {
        JsonValue::Obj(pairs) => spec_req_str(pairs@, "ip"@),
        _ => None,
    }
}

/// Reads the address out of a single-stack JSON value.
pub fn ip_from_json(v: &JsonValue) -> (r: Option<String>)
    ensures
        (match r {
            Some(s) => spec_ip_field(*v) == Some(s@),
            None => spec_ip_field(*v) is None,
        }),
{
    match v {
        JsonValue::Obj(pairs) => get_req_str(pairs, "ip"),
        _ => None,
    }
}

/// Decodes the main endpoint's body.  A body that is not JSON, or whose
/// document does not fit `spec_ip_data`, fails with `Parse`; a `Request`
/// error never comes out of here.
pub fn parse_ip_data(body: &str) -> (r: Result<IpData, Error>)
    ensures
        (match json_of(body@) {
            Some(v) => (match spec_ip_data(v) {
                Some(d) => r matches Ok(out) && out@ == d,
                None => r matches Err(e) && e is Parse,
            }),
            None => r matches Err(e) && e is Parse,
        }),
{
    match json_from_str(body) {
        Ok(v) => ip_data_from_json(&v),
        Err(m) => Err(Error::Parse(m)),
    }
}

/// Decodes the connection-type endpoint's body.
pub fn parse_connection_type(body: &str) -> (r: Result<ConnectionTypeData, Error>)
    ensures
        (match json_of(body@) {
            Some(v) => (match spec_connection_type(v) {
                Some(c) => r matches Ok(out) && out@ == c,
                None => r matches Err(e) && e is Parse,
            }),
            None => r matches Err(e) && e is Parse,
        }),
{
    match json_from_str(body) {
        Ok(v) => connection_type_from_json(&v),
        Err(m) => Err(Error::Parse(m)),
    }
}

/// Decodes the headers endpoint's body into its pairs, every pair of the
/// object kept.
pub fn parse_headers(body: &str) -> (r: Result<Vec<(String, String)>, Error>)
    ensures
        (match json_of(body@) {
            Some(v) => (match spec_headers(v) {
                Some(hs) => r matches Ok(out) && out.deep_view() == hs,
                None => r matches Err(e) && e is Parse,
            }),
            None => r matches Err(e) && e is Parse,
        }),
        r matches Ok(out) ==> json_of(body@) matches Some(JsonValue::Obj(pairs)) && out@.len()
            == pairs@.len(),
{
    match json_from_str(body) {
        Ok(v) => headers_from_json(&v),
        Err(m) => Err(Error::Parse(m)),
    }
}

/// Decodes the user-agent endpoint's body.  Only a body that is not JSON
/// fails; a missing or non-string `userAgent` key gives empty text.
pub fn parse_user_agent(body: &str) -> (r: Result<String, Error>)
    ensures
        (match json_of(body@) {
            Some(v) => r matches Ok(s) && s@ == spec_user_agent(v),
            None => r matches Err(e) && e is Parse,
        }),
{
    match json_from_str(body) {
        Ok(v) => Ok(user_agent_from_json(&v)),
        Err(m) => Err(Error::Parse(m)),
    }
}

/// The address one leg of the dual-stack lookup yields, where its transport
/// brought a body and that body fits the single-stack shape.
pub open spec fn spec_stack_leg(b: Option<Seq<char>>) -> Option<Seq<char>> {
    match b {
        Some(s) => match json_of(s) {
            Some(v) => spec_ip_field(v),
            None => None,
        },
        None => None,
    }
}

/// Reads one leg's body, where its transport brought one.
pub fn ip_from_body(body: &str) -> (r: Option<String>)
    ensures
        (match r {
            Some(s) => spec_stack_leg(Some(body@)) == Some(s@),
            None => spec_stack_leg(Some(body@)) is None,
        }),
{
    match json_from_str(body) {
        Ok(v) => ip_from_json(&v),
        Err(_) => None,
    }
}

/// Collapses the two legs of the dual-stack lookup into one answer.  Each
/// leg's argument is `None` where its request already failed; a body that
/// is not the expected `{"ip": text}` shape also collapses to an absent
/// address.  This function is total: no outcome of either leg is an error.
pub fn dual_stack_from_bodies(v4: Option<&str>, v6: Option<&str>) -> (r: DualStackData)
    ensures
        (match r.ipv4 {
            Some(s) => spec_stack_leg(v4.deep_view()) == Some(s@),
            None => spec_stack_leg(v4.deep_view()) is None,
        }),
        (match r.ipv6 {
            Some(s) => spec_stack_leg(v6.deep_view()) == Some(s@),
            None => spec_stack_leg(v6.deep_view()) is None,
        }),
{
    let ipv4 = match v4 {
        Some(b) => ip_from_body(b),
        None => None,
    };
    let ipv6 = match v6 {
        Some(b) => ip_from_body(b),
        None => None,
    };
    DualStackData { ipv4, ipv6 }
}

} // verus!
