use vstd::prelude::*;

verus! {

/// Geographic details reported for an address.  Every field carries the text
/// the service sent, unaltered; coordinates stay text on purpose.
#[derive(Debug, Clone)]
pub struct Location {
    pub country: String,
    pub city: String,
    pub region: String,
    pub postal_code: String,
    pub timezone: String,
    pub latitude: String,
    pub longitude: String,
}

/// Mathematical image of a `Location`: each field as its character sequence.
pub struct LocationView {
    pub country: Seq<char>,
    pub city: Seq<char>,
    pub region: Seq<char>,
    pub postal_code: Seq<char>,
    pub timezone: Seq<char>,
    pub latitude: Seq<char>,
    pub longitude: Seq<char>,
}

impl View for Location {
    type V = LocationView;

    open spec fn view(&self) -> LocationView {
        LocationView {
            country: self.country@,
            city: self.city@,
            region: self.region@,
            postal_code: self.postal_code@,
            timezone: self.timezone@,
            latitude: self.latitude@,
            longitude: self.longitude@,
        }
    }
}

/// The network an address belongs to.
#[derive(Debug, Clone)]
pub struct Network {
    pub asn: i64,
    pub isp: String,
}

/// Mathematical image of a `Network`.
pub struct NetworkView {
    pub asn: i64,
    pub isp: Seq<char>,
}

impl View for Network {
    type V = NetworkView;

    open spec fn view(&self) -> NetworkView {
        NetworkView { asn: self.asn, isp: self.isp@ }
    }
}

/// Edge details reported by the CDN in front of the service.
#[derive(Debug, Clone)]
pub struct Cloudflare {
    pub colo: String,
    pub ray: String,
}

/// Mathematical image of a `Cloudflare`.
pub struct CloudflareView {
    pub colo: Seq<char>,
    pub ray: Seq<char>,
}

impl View for Cloudflare {
    type V = CloudflareView;

    open spec fn view(&self) -> CloudflareView {
        CloudflareView { colo: self.colo@, ray: self.ray@ }
    }
}

/// The full record the main endpoint answers with.
#[derive(Debug, Clone)]
pub struct IpData {
    pub ip: String,
    pub ip_type: String,
    pub hostname: Option<String>,
    pub connection_type: Option<String>,
    pub location: Location,
    pub network: Network,
    pub cloudflare: Cloudflare,
}

/// Mathematical image of an `IpData`.
pub struct IpDataView {
    pub ip: Seq<char>,
    pub ip_type: Seq<char>,
    pub hostname: Option<Seq<char>>,
    pub connection_type: Option<Seq<char>>,
    pub location: LocationView,
    pub network: NetworkView,
    pub cloudflare: CloudflareView,
}

impl View for IpData {
    type V = IpDataView;

    open spec fn view(&self) -> IpDataView {
        IpDataView {
            ip: self.ip@,
            ip_type: self.ip_type@,
            hostname: match self.hostname {
                Some(h) => Some(h@),
                None => None,
            },
            connection_type: match self.connection_type {
                Some(c) => Some(c@),
                None => None,
            },
            location: self.location@,
            network: self.network@,
            cloudflare: self.cloudflare@,
        }
    }
}

/// The two addresses a host is reachable under, one per protocol family.
/// An absent entry means that family's lookup did not succeed; it is never
/// an error.
#[derive(Debug, Clone)]
pub struct DualStackData {
    pub ipv4: Option<String>,
    pub ipv6: Option<String>,
}

/// The answer of the connection-type endpoint.
#[derive(Debug, Clone)]
pub struct ConnectionTypeData {
    pub ip: String,
    pub connection_type: String,
}

/// Mathematical image of a `ConnectionTypeData`.
pub struct ConnectionTypeDataView {
    pub ip: Seq<char>,
    pub connection_type: Seq<char>,
}

impl View for ConnectionTypeData {
    type V = ConnectionTypeDataView;

    open spec fn view(&self) -> ConnectionTypeDataView {
        ConnectionTypeDataView { ip: self.ip@, connection_type: self.connection_type@ }
    }
}

/// What a lookup fails with: the transport failed before a body arrived, or
/// a body arrived but did not have the expected shape.  Each variant carries
/// a human-readable description.
#[derive(Debug)]
pub enum Error {
    Request(String),
    Parse(String),
}

} // verus!
