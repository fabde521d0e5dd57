//! Upstream-resolver configuration: each server is given as a URI whose
//! scheme names the transport and whose host is a literal IP address.

use crate::text::text_eq;
use vstd::prelude::*;
use vstd::string::*;

verus! {

/// A configuration value that was refused: which kind of value, and the text
/// that was given for it.
#[derive(Debug, Clone)]
pub struct InvalidValue {
    pub value_type: &'static str,
    pub invalid_value: String,
}

impl InvalidValue {
    pub fn new(value_type: &'static str, invalid_value: String) -> (r: InvalidValue)
        ensures
            r.value_type@ == value_type@,
            r.invalid_value@ == invalid_value@,
    {
        InvalidValue { value_type: value_type, invalid_value: invalid_value }
    }

    /// The text shown for this error: `invalid <kind>: <value>`.
    pub fn message(&self) -> (r: String)
        ensures
            r@ == "invalid "@ + self.value_type@ + ": "@ + self.invalid_value@,
    {
        let head = String::from_str("invalid ");
        head.concat(self.value_type).concat(": ").concat(self.invalid_value.as_str())
    }
}

/// The protocol by which an upstream resolver is reached.
#[derive(Debug, Clone, Copy, PartialEq, Eq, Structural)]
pub enum DnsTransport {
    UDP,
    TCP,
}

/// A literal IP address: the 32 bits of an IPv4 address or the 128 bits of an
/// IPv6 address, most significant octet first.
#[derive(Debug, Clone, Copy, PartialEq, Eq, Structural)]
pub enum IpAddress {
    V4(u32),
    V6(u128),
}

#[derive(Debug, Clone, Copy, PartialEq, Eq, Structural)]
pub struct SocketAddress {
    pub ip: IpAddress,
    pub port: u16,
}

#[derive(Debug, Clone, Copy, PartialEq, Eq, Structural)]
pub struct DnsServer {
    pub address: SocketAddress,
    pub transport: DnsTransport,
}

/// The gateway's configuration: where it listens, and the upstream servers in
/// the order in which they were given.
pub struct Arguments {
    pub listen: SocketAddress,
    pub dns_servers: Vec<DnsServer>,
}

/// The host of a URI reference as the configuration rules see it.
#[derive(Debug, Clone, Copy, PartialEq, Eq, Structural)]
pub enum UriHost {
    Absent,
    V4(u32),
    V6(u128),
    Name,
}

/// The components of a URI reference that the configuration rules read.
#[derive(Debug, Clone)]
pub struct UriParts {
    pub scheme: Option<String>,
    pub host: UriHost,
    pub port: Option<u16>,
    pub path: String,
    pub has_query: bool,
    pub has_fragment: bool,
}

/// Mathematical model of [`UriParts`].
pub ghost struct UriShape {
    pub scheme: Option<Seq<char>>,
    pub host: UriHost,
    pub port: Option<u16>,
    pub path: Seq<char>,
    pub has_query: bool,
    pub has_fragment: bool,
}

impl View for UriParts {
    type V = UriShape;

    open spec fn view(&self) -> UriShape {
        UriShape {
            scheme: match self.scheme {
                Some(s) => Some(s@),
                None => None,
            },
            host: self.host,
            port: self.port,
            path: self.path@,
            has_query: self.has_query,
            has_fragment: self.has_fragment,
        }
    }
}

#[verifier::external_type_specification]
#[verifier::external_body]
pub struct ExURIReferenceError(uriparse::URIReferenceError);

/// The components that `uriparse` finds in a text read as a URI reference, or
/// `None` where it refuses the text.
pub uninterp spec fn parsed_reference(text: Seq<char>) -> Option<UriShape>;

/// Calls `uriparse::URIReference::try_from` on the text and copies out the
/// scheme, host, port, path and the presence of a query and of a fragment.
/// Trusted: the result is what `parsed_reference` names, and an error comes
/// exactly where that is `None`.
#[verifier::external_body]
fn parse_reference(text: &str) -> (r: Result<UriParts, uriparse::URIReferenceError>)
    ensures
        match r {
            Ok(parts) => parsed_reference(text@) == Some(parts@),
            Err(_) => parsed_reference(text@) is None,
        },
{
    let reference = uriparse::URIReference::try_from(text)?;
    Ok(UriParts {
        scheme: match reference.scheme() { Some(s) => Some(s.as_str().to_string()), None => None },
        host: match reference.host() {
            Some(uriparse::Host::IPv4Address(ip)) => UriHost::V4(u32::from(*ip)),
            Some(uriparse::Host::IPv6Address(ip)) => UriHost::V6(u128::from(*ip)),
            Some(uriparse::Host::RegisteredName(_)) => UriHost::Name,
            None => UriHost::Absent,
        },
        port: reference.port(),
        path: reference.path().to_string(),
        has_query: reference.query().is_some(),
        has_fragment: reference.fragment().is_some(),
    })
}

pub open spec fn default_port() -> u16 {
    53
}

/// The address that a host gives literally; a name gives none.
pub open spec fn literal_ip(host: UriHost) -> Option<IpAddress> {
    match host {
        UriHost::V4(bits) => Some(IpAddress::V4(bits)),
        UriHost::V6(bits) => Some(IpAddress::V6(bits)),
        UriHost::Name => None,
        UriHost::Absent => None,
    }
}

/// What a server URI with the given components stands for: the
/// server, or the kind of value that is refused. The checks come in this
/// order: a scheme must be there, the path must be empty or `/`, no query, no
/// fragment, a literal IP address as host, and a scheme that names a transport.
pub open spec fn server_of(parts: UriShape) -> Result<DnsServer, Seq<char>> {
    if parts.scheme is None {
        Err("URI"@)
    } else if parts.path != ""@ && parts.path != "/"@ {
        Err("The URI should not contain any path"@)
    } else if parts.has_query {
        Err("The URI should not contain any query"@)
    } else if parts.has_fragment {
        Err("The URI should not contain any fragment"@)
    } else if literal_ip(parts.host) is None {
        Err("IP"@)
    } else if transport_of(parts.scheme->0) is None {
        Err("scheme"@)
    } else {
        Ok(
            DnsServer {
                address: SocketAddress {
                    ip: literal_ip(parts.host)->0,
                    port: match parts.port {
                        Some(p) => p,
                        None => default_port(),
                    },
                },
                transport: transport_of(parts.scheme->0)->0,
            },
        )
    }
}

/// The transport that a scheme names: `tcp` is TCP, `udp` and the empty
/// scheme are UDP, and no other scheme names one.
pub open spec fn transport_of(scheme: Seq<char>) -> Option<DnsTransport> {
    if scheme == "tcp"@ {
        Some(DnsTransport::TCP)
    } else if scheme == "udp"@ || scheme == ""@ {
        Some(DnsTransport::UDP)
    } else {
        None
    }
}

/// What a server URI stands for, from its text.
pub open spec fn server_of_text(text: Seq<char>) -> Result<DnsServer, Seq<char>> {
    match parsed_reference(text) {
        Some(parts) => server_of(parts),
        None => Err("URI"@),
    }
}

/// Whether `r` is the outcome `expected` for the server URI `text`: the
/// same server, or an error of the same kind that carries the text.
pub open spec fn outcome_is(
    r: Result<DnsServer, InvalidValue>,
    expected: Result<DnsServer, Seq<char>>,
    text: Seq<char>,
) -> bool {
    match expected {
        Ok(server) => r == Ok::<DnsServer, InvalidValue>(server),
        Err(kind) => r matches Err(e) && e.value_type@ == kind && e.invalid_value@ == text,
    }
}

fn transport_for(scheme: &str) -> (r: Option<DnsTransport>)
    ensures
        r == transport_of(scheme@),
{
    if text_eq(scheme, "tcp") {
        Some(DnsTransport::TCP)
    } else if text_eq(scheme, "udp") || text_eq(scheme, "") {
        Some(DnsTransport::UDP)
    } else {
        None
    }
}

/// Applies the configuration rules to the components of a server URI;
/// `uri` is the text they were read from.
pub fn server_from_parts(parts: &UriParts, uri: &str) -> (r: Result<DnsServer, InvalidValue>)
    ensures
        outcome_is(r, server_of(parts@), uri@),
{
    let scheme = match &parts.scheme {
        Some(s) => s,
        None => {
            return Err(InvalidValue::new("URI", uri.to_owned()));
        },
    };
    if !text_eq(parts.path.as_str(), "") && !text_eq(parts.path.as_str(), "/") {
        return Err(InvalidValue::new("The URI should not contain any path", uri.to_owned()));
    }
    if parts.has_query {
        return Err(InvalidValue::new("The URI should not contain any query", uri.to_owned()));
    }
    if parts.has_fragment {
        return Err(InvalidValue::new("The URI should not contain any fragment", uri.to_owned()));
    }
    let ip = match parts.host {
        UriHost::V4(bits) => IpAddress::V4(bits),
        UriHost::V6(bits) => IpAddress::V6(bits),
        _ => {
            return Err(InvalidValue::new("IP", uri.to_owned()));
        },
    };
    let port: u16 = match parts.port {
        Some(p) => p,
        None => 53,
    };
    match transport_for(scheme.as_str()) {
        Some(transport) => Ok(DnsServer { address: SocketAddress { ip: ip, port: port }, transport: transport }),
        None => Err(InvalidValue::new("scheme", uri.to_owned())),
    }
}

/// Reads one server URI.
pub fn parse_server(uri: &str) -> (r: Result<DnsServer, InvalidValue>)
    ensures
        outcome_is(r, server_of_text(uri@), uri@),
{
    match parse_reference(uri) {
        Ok(parts) => server_from_parts(&parts, uri),
        Err(_) => Err(InvalidValue::new("URI", uri.to_owned())),
    }
}

/// Whether the server URI at index `k` is the first one that is refused.
pub open spec fn first_refused(uris: Seq<String>, k: int) -> bool {
    &&& 0 <= k < uris.len()
    &&& server_of_text(uris[k]@) is Err
    &&& forall|j: int| 0 <= j < k ==> (#[trigger] server_of_text(uris[j]@)) is Ok
}

impl Arguments {
    /// Builds the configuration from the listen address and the server
    /// URIs. Every URI must be accepted: the first one that is refused gives
    /// the error, and no configuration is built. The servers keep the order
    /// of their URIs.
    pub fn build(listen: SocketAddress, server_uris: &Vec<String>) -> (r: Result<
        Arguments,
        InvalidValue,
    >)
        ensures
            match r {
                Ok(config) => {
                    &&& config.listen == listen
                    &&& config.dns_servers@.len() == server_uris@.len()
                    &&& forall|i: int|
                        0 <= i < server_uris@.len() ==> server_of_text(
                            (#[trigger] server_uris@[i])@,
                        ) == Ok::<DnsServer, Seq<char>>(config.dns_servers@[i])
                },
                Err(e) => exists|k: int|
                    {
                        &&& #[trigger] first_refused(server_uris@, k)
                        &&& e.value_type@ == server_of_text(server_uris@[k]@)->Err_0
                        &&& e.invalid_value@ == server_uris@[k]@
                    },
            },
    {
        let mut servers: Vec<DnsServer> = Vec::new();
        let mut i: usize = 0;
        while i < server_uris.len()
            invariant
                i <= server_uris@.len(),
                servers@.len() == i,
                forall|j: int|
                    0 <= j < i ==> server_of_text((#[trigger] server_uris@[j])@) == Ok::<
                        DnsServer,
                        Seq<char>,
                    >(servers@[j]),
            decreases server_uris@.len() - i,
        {
            match parse_server(server_uris[i].as_str()) {
                Ok(server) => {
                    servers.push(server);
                },
                Err(e) => {
                    proof {
                        assert(first_refused(server_uris@, i as int));
                    }
                    return Err(e);
                },
            }
            i = i + 1;
        }
        Ok(Arguments { listen: listen, dns_servers: servers })
    }
}

/// Whether the components pass every rule but the one on the scheme.
pub open spec fn well_shaped(parts: UriShape) -> bool {
    &&& parts.scheme is Some
    &&& (parts.path == ""@ || parts.path == "/"@)
    &&& !parts.has_query
    &&& !parts.has_fragment
    &&& literal_ip(parts.host) is Some
}

/// The scheme alone decides the transport: for a text whose components pass
/// the other rules, `udp` and the empty scheme give UDP, `tcp` gives TCP, and
/// every other scheme is refused as a scheme.
pub proof fn lemma_scheme_decides_transport(text: Seq<char>)
    requires
        parsed_reference(text) matches Some(parts) && well_shaped(parts),
    ensures
        ({
            let scheme = parsed_reference(text)->0.scheme->0;
            let outcome = server_of_text(text);
            &&& (scheme == "udp"@ || scheme == ""@) ==> (outcome matches Ok(s) && s.transport
                == DnsTransport::UDP)
            &&& scheme == "tcp"@ ==> (outcome matches Ok(s) && s.transport == DnsTransport::TCP)
            &&& (scheme != "udp"@ && scheme != ""@ && scheme != "tcp"@) ==> outcome == Err::<
                DnsServer,
                Seq<char>,
            >("scheme"@)
        }),
{
    reveal_strlit("udp");
    reveal_strlit("tcp");
    reveal_strlit("");
    assert("udp"@.len() == 3 && "udp"@[0] == 'u');
    assert("tcp"@.len() == 3 && "tcp"@[0] == 't');
    assert(""@.len() == 0);
}

/// A text whose host is a name, not a literal IP address, is refused,
/// whatever the rest of it says.
pub proof fn lemma_named_host_is_refused(text: Seq<char>)
    requires
        parsed_reference(text) matches Some(parts) && parts.host is Name,
    ensures
        server_of_text(text) is Err,
{
}

/// A server that is accepted from a text without a port has port 53.
pub proof fn lemma_port_defaults_to_53(text: Seq<char>)
    requires
        parsed_reference(text) matches Some(parts) && parts.port is None,
        server_of_text(text) is Ok,
    ensures
        server_of_text(text)->Ok_0.address.port == 53,
{
}

} // verus!
