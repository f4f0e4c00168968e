use vstd::prelude::*;

use crate::text::{decimal, decimal_text, push_decimal};

verus! {

/// The wire protocol that carries queries to the upstream server.
#[derive(Clone, Copy, Debug, PartialEq, Eq, Structural)]
pub enum DNSNetMode {
    Udp,
    Tcp,
    DoT,
    DoH,
    Dhcp,
}

/// The errors of building and using a client.
#[derive(Clone, Debug)]
pub enum Error {
    InvalidConfig(String),
    DNSError(String),
    Resolve(String),
}

/// The variant of an [`Error`], without its message.
#[derive(Clone, Copy, Debug, PartialEq, Eq, Structural)]
pub enum ErrorKind {
    InvalidConfig,
    DNSError,
    Resolve,
}

/// `e` is of variant `kind` and carries the message `msg`.
pub open spec fn error_is(e: Error, kind: ErrorKind, msg: Seq<char>) -> bool {
    match e {
        Error::InvalidConfig(m) => kind == ErrorKind::InvalidConfig && m@ == msg,
        Error::DNSError(m) => kind == ErrorKind::DNSError && m@ == msg,
        Error::Resolve(m) => kind == ErrorKind::Resolve && m@ == msg,
    }
}

/// The canonical text of a transport kind.
pub open spec fn mode_text(m: DNSNetMode) -> Seq<char> {
    match m {
        DNSNetMode::Udp => seq!['U', 'D', 'P'],
        DNSNetMode::Tcp => seq!['T', 'C', 'P'],
        DNSNetMode::DoT => seq!['D', 'o', 'T'],
        DNSNetMode::DoH => seq!['D', 'o', 'H'],
        DNSNetMode::Dhcp => seq!['D', 'H', 'C', 'P'],
    }
}

/// The transport kind whose canonical text is `s`, if there is one.
pub open spec fn mode_of_text(s: Seq<char>) -> Option<DNSNetMode> {
    if s == mode_text(DNSNetMode::Udp) {
        Some(DNSNetMode::Udp)
    } else if s == mode_text(DNSNetMode::Tcp) {
        Some(DNSNetMode::Tcp)
    } else if s == mode_text(DNSNetMode::DoT) {
        Some(DNSNetMode::DoT)
    } else if s == mode_text(DNSNetMode::DoH) {
        Some(DNSNetMode::DoH)
    } else if s == mode_text(DNSNetMode::Dhcp) {
        Some(DNSNetMode::Dhcp)
    } else {
        None
    }
}

/// Reading the text of a kind gives that kind back, and a text that is
/// not the canonical text of some kind is read as no kind at all.
pub proof fn lemma_mode_text_round_trip(m: DNSNetMode, s: Seq<char>)
    ensures
        mode_of_text(mode_text(m)) == Some(m),
        mode_of_text(s) is Some ==> mode_text(mode_of_text(s)->Some_0) == s,
        (forall|k: DNSNetMode| mode_text(k) != s) ==> mode_of_text(s) is None,
{
    assert(mode_text(DNSNetMode::Udp)[0] == 'U');
    assert(mode_text(DNSNetMode::Tcp)[0] == 'T');
    assert(mode_text(DNSNetMode::DoT)[2] == 'T');
    assert(mode_text(DNSNetMode::DoH)[2] == 'H');
    assert(mode_text(DNSNetMode::Dhcp).len() == 4);
}

impl DNSNetMode {
    /// Reads a transport kind from its canonical text.
    pub fn from_str(s: &str) -> (r: Result<DNSNetMode, Error>)
        ensures
            match mode_of_text(s@) {
                Some(m) => r == Ok::<DNSNetMode, Error>(m),
                None => r is Err && error_is(
                    r->Err_0,
                    ErrorKind::DNSError,
                    "unsupported protocol"@,
                ),
            },
    {
        proof {
            reveal_strlit("UDP");
            reveal_strlit("TCP");
            reveal_strlit("DoT");
            reveal_strlit("DoH");
            reveal_strlit("DHCP");
        }
        let t = String::from_str(s);
        if t == String::from_str("UDP") {
            assert(s@ =~= mode_text(DNSNetMode::Udp));
            Ok(DNSNetMode::Udp)
        } else if t == String::from_str("TCP") {
            assert(s@ =~= mode_text(DNSNetMode::Tcp));
            Ok(DNSNetMode::Tcp)
        } else if t == String::from_str("DoH") {
            assert(s@ =~= mode_text(DNSNetMode::DoH));
            Ok(DNSNetMode::DoH)
        } else if t == String::from_str("DoT") {
            assert(s@ =~= mode_text(DNSNetMode::DoT));
            Ok(DNSNetMode::DoT)
        } else if t == String::from_str("DHCP") {
            assert(s@ =~= mode_text(DNSNetMode::Dhcp));
            Ok(DNSNetMode::Dhcp)
        } else {
            assert(s@ != "UDP"@ && s@ != "TCP"@ && s@ != "DoH"@ && s@ != "DoT"@ && s@ != "DHCP"@);
            assert(mode_text(DNSNetMode::Udp) =~= "UDP"@);
            assert(mode_text(DNSNetMode::Tcp) =~= "TCP"@);
            assert(mode_text(DNSNetMode::DoH) =~= "DoH"@);
            assert(mode_text(DNSNetMode::DoT) =~= "DoT"@);
            assert(mode_text(DNSNetMode::Dhcp) =~= "DHCP"@);
            Err(Error::DNSError(String::from_str("unsupported protocol")))
        }
    }

    /// The canonical text of this kind.
    pub fn to_string(&self) -> (r: String)
        ensures
            r@ == mode_text(*self),
    {
        let r = match self {
            DNSNetMode::Udp => String::from_str("UDP"),
            DNSNetMode::Tcp => String::from_str("TCP"),
            DNSNetMode::DoT => String::from_str("DoT"),
            DNSNetMode::DoH => String::from_str("DoH"),
            DNSNetMode::Dhcp => String::from_str("DHCP"),
        };
        proof {
            reveal_strlit("UDP");
            reveal_strlit("TCP");
            reveal_strlit("DoT");
            reveal_strlit("DoH");
            reveal_strlit("DHCP");
            assert(r@ =~= mode_text(*self));
        }
        r
    }

    /// Whether a client of this kind needs the upstream's own address
    /// before it can be built (every kind but DHCP).
    pub fn needs_bootstrap(&self) -> (r: bool)
        ensures
            r == (*self != DNSNetMode::Dhcp),
    {
        !matches!(self, DNSNetMode::Dhcp)
    }
}

/// An IP address: its octets (4 or 16 of them) and its canonical text.
#[derive(Clone, Debug)]
pub struct IpAddr {
    pub octets: Vec<u8>,
    pub text: String,
}

/// An IP address and a port.
#[derive(Clone, Debug)]
pub struct SocketAddr {
    pub ip: IpAddr,
    pub port: u16,
}

/// `a` and `b` hold the same address and port.
pub open spec fn same_addr(a: SocketAddr, b: SocketAddr) -> bool {
    a.ip.octets@ == b.ip.octets@ && a.ip.text == b.ip.text && a.port == b.port
}

impl SocketAddr {
    /// A copy of this address.
    pub fn duplicate(&self) -> (r: SocketAddr)
        ensures
            same_addr(r, *self),
    {
        let octets = self.ip.octets.clone();
        assert(octets@ =~= self.ip.octets@);
        SocketAddr { ip: IpAddr { octets, text: self.ip.text.clone() }, port: self.port }
    }
}

fn clone_iface(iface: &Option<String>) -> (r: Option<String>)
    ensures
        r == *iface,
{
    match iface {
        Some(i) => Some(i.clone()),
        None => None,
    }
}

/// The configuration a client is built from. The resolver that may be
/// asked for the upstream's own address stays with the caller, which
/// hands its answer over as a [`Bootstrap`].
#[derive(Clone, Debug)]
pub struct Opts {
    pub host: String,
    pub port: u16,
    pub net: DNSNetMode,
    pub iface: Option<String>,
}

/// What was found for the upstream host before the client is built.
pub enum Bootstrap {
    /// A resolver was asked for the host (IPv4 not preferred): its answer,
    /// or its failure as text.
    Resolved(Result<Option<IpAddr>, String>),
    /// No resolver was given: the host read as a literal address, or the
    /// reason it is not one.
    Literal(Result<IpAddr, String>),
}

/// The upstream's address as the bootstrap gives it, or the error that
/// construction fails with.
pub open spec fn bootstrap_ip(host: Seq<char>, boot: Bootstrap) -> Result<IpAddr, (ErrorKind, Seq<char>)> {
    match boot {
        Bootstrap::Resolved(Ok(Some(ip))) => Ok(ip),
        Bootstrap::Resolved(Ok(None)) => Err(
            (ErrorKind::InvalidConfig, "can't resolve default DNS: "@ + host),
        ),
        Bootstrap::Resolved(Err(e)) => Err(
            (ErrorKind::Resolve, "resolve hostname failure: "@ + e@),
        ),
        Bootstrap::Literal(Ok(ip)) => Ok(ip),
        Bootstrap::Literal(Err(e)) => Err(
            (ErrorKind::DNSError, "resolve DNS hostname error: "@ + e@ + ", "@ + host),
        ),
    }
}

/// The fully resolved description of one upstream endpoint.
#[derive(Clone, Debug)]
pub enum DnsConfig {
    Udp(SocketAddr, Option<String>),
    Tcp(SocketAddr, Option<String>),
    Tls(SocketAddr, String, Option<String>),
    Https(SocketAddr, String, Option<String>),
}

/// The endpoint that a client of kind `net` (not DHCP) reaches for
/// `host`, once `ip` is known.
pub open spec fn config_is(cfg: DnsConfig, net: DNSNetMode, host: String, port: u16, iface: Option<String>, ip: IpAddr) -> bool {
    let addr = SocketAddr { ip, port };
    match net {
        DNSNetMode::Udp => cfg == DnsConfig::Udp(addr, iface),
        DNSNetMode::Tcp => cfg == DnsConfig::Tcp(addr, iface),
        DNSNetMode::DoT => cfg == DnsConfig::Tls(addr, host, iface),
        DNSNetMode::DoH => cfg == DnsConfig::Https(addr, host, iface),
        DNSNetMode::Dhcp => false,
    }
}

/// A client of one fixed upstream. The live session and its driver are
/// kept apart, in a [`Connection`].
#[derive(Clone, Debug)]
pub struct DnsClient {
    pub cfg: DnsConfig,
    pub host: String,
    pub port: u16,
    pub net: DNSNetMode,
    pub iface: Option<String>,
}

/// What construction yields: a client of a fixed upstream, or, for DHCP,
/// the interface whose leases name the upstream.
#[derive(Clone, Debug)]
pub enum Upstream {
    Dhcp(String),
    Dns(DnsClient),
}

impl DnsClient {
    /// Builds the client that `opts` describes. For DHCP the host names the
    /// interface and `boot` is not read; otherwise `boot` gives the address.
    pub fn new_client(opts: Opts, boot: Bootstrap) -> (r: Result<Upstream, Error>)
        ensures
            opts.net == DNSNetMode::Dhcp ==> r == Ok::<Upstream, Error>(Upstream::Dhcp(opts.host)),
            opts.net != DNSNetMode::Dhcp ==> match bootstrap_ip(opts.host@, boot) {
                Ok(ip) => r is Ok && match r->Ok_0 {
                    Upstream::Dns(c) => c.host == opts.host && c.port == opts.port
                        && c.net == opts.net && c.iface == opts.iface
                        && config_is(c.cfg, opts.net, opts.host, opts.port, opts.iface, ip),
                    Upstream::Dhcp(_) => false,
                },
                Err((kind, msg)) => r is Err && error_is(r->Err_0, kind, msg),
            },
    {
        if let DNSNetMode::Dhcp = opts.net {
            return Ok(Upstream::Dhcp(opts.host));
        }
        let ip = match boot {
            Bootstrap::Resolved(Ok(Some(ip))) => ip,
            Bootstrap::Resolved(Ok(None)) => {
                let mut m = String::from_str("can't resolve default DNS: ");
                m.append(opts.host.as_str());
                return Err(Error::InvalidConfig(m));
            },
            Bootstrap::Resolved(Err(e)) => {
                let mut m = String::from_str("resolve hostname failure: ");
                m.append(e.as_str());
                return Err(Error::Resolve(m));
            },
            Bootstrap::Literal(Ok(ip)) => ip,
            Bootstrap::Literal(Err(e)) => {
                let mut m = String::from_str("resolve DNS hostname error: ");
                m.append(e.as_str());
                m.append(", ");
                m.append(opts.host.as_str());
                return Err(Error::DNSError(m));
            },
        };
        let addr = SocketAddr { ip, port: opts.port };
        let cfg = match opts.net {
            DNSNetMode::Udp => DnsConfig::Udp(addr, opts.iface.clone()),
            DNSNetMode::Tcp => DnsConfig::Tcp(addr, opts.iface.clone()),
            DNSNetMode::DoT => DnsConfig::Tls(addr, opts.host.clone(), opts.iface.clone()),
            _ => DnsConfig::Https(addr, opts.host.clone(), opts.iface.clone()),
        };
        Ok(
            Upstream::Dns(
                DnsClient {
                    cfg,
                    host: opts.host,
                    port: opts.port,
                    net: opts.net,
                    iface: opts.iface,
                },
            ),
        )
    }
}


impl DnsClient {
    /// The identity of the client: `{kind}#{host}:{port}`.
    pub fn id(&self) -> (r: String)
        ensures
            r@ == mode_text(self.net) + "#"@ + self.host@ + ":"@ + decimal(self.port as nat),
    {
        let mut r = self.net.to_string();
        r.append("#");
        r.append(self.host.as_str());
        r.append(":");
        let p = decimal_text(self.port as u64);
        r.append(p.as_str());
        r
    }
}

/// The text of an address and port, as `{ip}:{port}`.
pub open spec fn addr_text(addr: SocketAddr) -> Seq<char> {
    addr.ip.text@ + ":"@ + decimal(addr.port as nat)
}

/// The text naming the interface a connection is bound to, if any.
pub open spec fn bind_text(iface: Option<String>) -> Seq<char> {
    match iface {
        Some(i) => "bind: "@ + i@ + " "@,
        None => Seq::empty(),
    }
}

/// A one-line description of an endpoint.
pub open spec fn config_text(cfg: DnsConfig) -> Seq<char> {
    match cfg {
        DnsConfig::Udp(addr, iface) => "UDP: "@ + addr_text(addr) + " "@ + bind_text(iface),
        DnsConfig::Tcp(addr, iface) => "TCP: "@ + addr_text(addr) + " "@ + bind_text(iface),
        DnsConfig::Tls(addr, host, iface) => "TLS: "@ + addr_text(addr) + " "@ + bind_text(iface)
            + "host: "@ + host@,
        DnsConfig::Https(addr, host, iface) => "HTTPS: "@ + addr_text(addr) + " "@ + bind_text(
            iface,
        ) + "host: "@ + host@,
    }
}

fn push_addr(s: &mut String, addr: &SocketAddr)
    ensures
        final(s)@ == old(s)@ + addr_text(*addr),
{
    s.append(addr.ip.text.as_str());
    s.append(":");
    push_decimal(s, addr.port as u64);
    assert(final(s)@ =~= old(s)@ + addr_text(*addr));
}

fn push_bind(s: &mut String, iface: &Option<String>)
    ensures
        final(s)@ == old(s)@ + bind_text(*iface),
{
    if let Some(i) = iface {
        s.append("bind: ");
        s.append(i.as_str());
        s.append(" ");
        assert(final(s)@ =~= old(s)@ + bind_text(*iface));
    } else {
        assert(final(s)@ =~= old(s)@ + bind_text(*iface));
    }
}

impl DnsConfig {
    /// A one-line description of the endpoint, for the log.
    pub fn describe(&self) -> (r: String)
        ensures
            r@ == config_text(*self),
    {
        let mut s = String::new();
        match self {
            DnsConfig::Udp(addr, iface) => {
                s.append("UDP: ");
                push_addr(&mut s, addr);
                s.append(" ");
                push_bind(&mut s, iface);
            },
            DnsConfig::Tcp(addr, iface) => {
                s.append("TCP: ");
                push_addr(&mut s, addr);
                s.append(" ");
                push_bind(&mut s, iface);
            },
            DnsConfig::Tls(addr, host, iface) => {
                s.append("TLS: ");
                push_addr(&mut s, addr);
                s.append(" ");
                push_bind(&mut s, iface);
                s.append("host: ");
                s.append(host.as_str());
            },
            DnsConfig::Https(addr, host, iface) => {
                s.append("HTTPS: ");
                push_addr(&mut s, addr);
                s.append(" ");
                push_bind(&mut s, iface);
                s.append("host: ");
                s.append(host.as_str());
            },
        }
        assert(s@ =~= config_text(*self));
        s
    }
}

/// How the connection to the upstream is carried.
#[derive(Clone, Copy, Debug, PartialEq, Eq, Structural)]
pub enum Transport {
    Udp,
    Tcp,
    Tls,
    Https,
}

/// The TLS parameters of a connection.
#[derive(Clone, Debug)]
pub struct TlsSettings {
    /// The name the server's certificate is checked against, and sent as SNI.
    pub server_name: String,
    /// The application protocols offered, in order.
    pub alpn: Vec<String>,
    /// Whether the certificate must name `server_name`. The trust chain is
    /// checked either way.
    pub verify_hostname: bool,
}

/// Everything needed to open a connection to an endpoint.
#[derive(Clone, Debug)]
pub struct StreamPlan {
    pub transport: Transport,
    pub addr: SocketAddr,
    pub iface: Option<String>,
    pub timeout_secs: u64,
    pub tls: Option<TlsSettings>,
}

/// The seconds that establishing a connection may take.
pub const CONNECT_TIMEOUT_SECS: u64 = 5;

/// The texts of a list of strings.
pub open spec fn texts(v: Seq<String>) -> Seq<Seq<char>> {
    v.map_values(|s: String| s@)
}

/// The TLS parameters for a DNS-over-TLS endpoint named `host`.
pub open spec fn dot_tls(t: TlsSettings, host: String) -> bool {
    &&& t.server_name == host
    &&& texts(t.alpn@) == seq!["dot"@, "h2"@]
    &&& t.verify_hostname
}

/// The TLS parameters for a DNS-over-HTTPS endpoint named `host` at `ip`:
/// the certificate's name is checked unless the configured name is the
/// address's own text.
pub open spec fn doh_tls(t: TlsSettings, host: String, ip: IpAddr) -> bool {
    &&& t.server_name == host
    &&& texts(t.alpn@) == seq!["h2"@]
    &&& t.verify_hostname == (host@ != ip.text@)
}

/// The plan that opens a connection to `cfg`.
pub open spec fn plan_is(p: StreamPlan, cfg: DnsConfig) -> bool {
    &&& p.timeout_secs == CONNECT_TIMEOUT_SECS
    &&& match cfg {
        DnsConfig::Udp(addr, iface) => p.transport == Transport::Udp && same_addr(p.addr, addr)
            && p.iface == iface && p.tls is None,
        DnsConfig::Tcp(addr, iface) => p.transport == Transport::Tcp && same_addr(p.addr, addr)
            && p.iface == iface && p.tls is None,
        DnsConfig::Tls(addr, host, iface) => p.transport == Transport::Tls && same_addr(p.addr, addr)
            && p.iface == iface && p.tls is Some && dot_tls(p.tls->Some_0, host),
        DnsConfig::Https(addr, host, iface) => p.transport == Transport::Https && same_addr(p.addr, addr) && p.iface == iface && p.tls is Some && doh_tls(
            p.tls->Some_0,
            host,
            addr.ip,
        ),
    }
}

fn alpn_list(with_dot: bool) -> (r: Vec<String>)
    ensures
        with_dot ==> texts(r@) == seq!["dot"@, "h2"@],
        !with_dot ==> texts(r@) == seq!["h2"@],
{
    let mut v: Vec<String> = Vec::new();
    if with_dot {
        v.push(String::from_str("dot"));
    }
    v.push(String::from_str("h2"));
    assert(texts(v@) =~= if with_dot { seq!["dot"@, "h2"@] } else { seq!["h2"@] });
    v
}

impl DnsClient {
    /// How a fresh connection to this client's upstream is opened.
    pub fn stream_plan(&self) -> (r: StreamPlan)
        ensures
            plan_is(r, self.cfg),
    {
        dns_stream_plan(&self.cfg)
    }
}

/// How a fresh connection to `cfg` is opened: the transport, where it goes,
/// and for the TLS kinds what the handshake offers and checks.
pub fn dns_stream_plan(cfg: &DnsConfig) -> (r: StreamPlan)
    ensures
        plan_is(r, *cfg),
{
    match cfg {
        DnsConfig::Udp(addr, iface) => StreamPlan {
            transport: Transport::Udp,
            addr: addr.duplicate(),
            iface: clone_iface(iface),
            timeout_secs: CONNECT_TIMEOUT_SECS,
            tls: None,
        },
        DnsConfig::Tcp(addr, iface) => StreamPlan {
            transport: Transport::Tcp,
            addr: addr.duplicate(),
            iface: clone_iface(iface),
            timeout_secs: CONNECT_TIMEOUT_SECS,
            tls: None,
        },
        DnsConfig::Tls(addr, host, iface) => StreamPlan {
            transport: Transport::Tls,
            addr: addr.duplicate(),
            iface: clone_iface(iface),
            timeout_secs: CONNECT_TIMEOUT_SECS,
            tls: Some(
                TlsSettings {
                    server_name: host.clone(),
                    alpn: alpn_list(true),
                    verify_hostname: true,
                },
            ),
        },
        DnsConfig::Https(addr, host, iface) => {
            let named_by_ip = *host == addr.ip.text;
            StreamPlan {
                transport: Transport::Https,
                addr: addr.duplicate(),
                iface: clone_iface(iface),
                timeout_secs: CONNECT_TIMEOUT_SECS,
                tls: Some(
                    TlsSettings {
                        server_name: host.clone(),
                        alpn: alpn_list(false),
                        verify_hostname: !named_by_ip,
                    },
                ),
            }
        },
    }
}

} // verus!
