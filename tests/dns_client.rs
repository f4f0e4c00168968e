use clash_lib::dns_client::{
    dns_stream_plan, Bootstrap, DNSNetMode, DnsClient, DnsConfig, Error, IpAddr, Opts,
    SocketAddr, Transport, Upstream,
};

fn ip(octets: Vec<u8>, text: &str) -> IpAddr {
    IpAddr { octets, text: text.to_string() }
}

fn opts(host: &str, port: u16, net: DNSNetMode, iface: Option<&str>) -> Opts {
    Opts { host: host.to_string(), port, net, iface: iface.map(|s| s.to_string()) }
}

fn built(r: Result<Upstream, Error>) -> DnsClient {
    match r {
        Ok(Upstream::Dns(c)) => c,
        other => panic!("expected a client, got {:?}", other),
    }
}

#[test]
fn mode_text_round_trips() {
    for s in ["UDP", "TCP", "DoT", "DoH", "DHCP"] {
        let m = DNSNetMode::from_str(s).unwrap();
        assert_eq!(m.to_string(), s);
    }
    assert_eq!(DNSNetMode::from_str("DoT").unwrap(), DNSNetMode::DoT);
    assert_eq!(DNSNetMode::from_str("DHCP").unwrap(), DNSNetMode::Dhcp);
}

#[test]
fn unknown_mode_text_is_refused() {
    for s in ["udp", "", "DOH", "UDP ", "QUIC"] {
        match DNSNetMode::from_str(s) {
            Err(Error::DNSError(m)) => assert_eq!(m, "unsupported protocol"),
            other => panic!("unexpected {:?}", other),
        }
    }
}

#[test]
fn only_dhcp_skips_bootstrap() {
    assert!(DNSNetMode::Udp.needs_bootstrap());
    assert!(DNSNetMode::DoH.needs_bootstrap());
    assert!(!DNSNetMode::Dhcp.needs_bootstrap());
}

#[test]
fn resolver_answer_sets_the_address() {
    let boot = Bootstrap::Resolved(Ok(Some(ip(vec![8, 8, 8, 8], "8.8.8.8"))));
    let c = built(DnsClient::new_client(opts("dns.google", 853, DNSNetMode::DoT, None), boot));
    match &c.cfg {
        DnsConfig::Tls(addr, host, iface) => {
            assert_eq!(addr.ip.text, "8.8.8.8");
            assert_eq!(addr.ip.octets, vec![8, 8, 8, 8]);
            assert_eq!(addr.port, 853);
            assert_eq!(host, "dns.google");
            assert!(iface.is_none());
        }
        other => panic!("unexpected {:?}", other),
    }
    assert_eq!(c.host, "dns.google");
    assert_eq!(c.net, DNSNetMode::DoT);
}

#[test]
fn resolver_without_answer_fails() {
    let boot = Bootstrap::Resolved(Ok(None));
    match DnsClient::new_client(opts("dns.google", 53, DNSNetMode::Udp, None), boot) {
        Err(Error::InvalidConfig(m)) => assert_eq!(m, "can't resolve default DNS: dns.google"),
        other => panic!("unexpected {:?}", other),
    }
}

#[test]
fn resolver_failure_is_wrapped() {
    let boot = Bootstrap::Resolved(Err("timed out".to_string()));
    match DnsClient::new_client(opts("dns.google", 53, DNSNetMode::Tcp, None), boot) {
        Err(Error::Resolve(m)) => assert_eq!(m, "resolve hostname failure: timed out"),
        other => panic!("unexpected {:?}", other),
    }
}

#[test]
fn literal_address_is_used_directly() {
    let boot = Bootstrap::Literal(Ok(ip(vec![1, 1, 1, 1], "1.1.1.1")));
    let c = built(DnsClient::new_client(opts("1.1.1.1", 53, DNSNetMode::Udp, Some("eth0")), boot));
    match &c.cfg {
        DnsConfig::Udp(addr, iface) => {
            assert_eq!(addr.ip.text, "1.1.1.1");
            assert_eq!(addr.port, 53);
            assert_eq!(iface.as_deref(), Some("eth0"));
        }
        other => panic!("unexpected {:?}", other),
    }
}

#[test]
fn non_literal_host_without_resolver_fails() {
    let boot = Bootstrap::Literal(Err("invalid IP address syntax".to_string()));
    match DnsClient::new_client(opts("dns.google", 53, DNSNetMode::Udp, None), boot) {
        Err(Error::DNSError(m)) => {
            assert_eq!(m, "resolve DNS hostname error: invalid IP address syntax, dns.google")
        }
        other => panic!("unexpected {:?}", other),
    }
}

#[test]
fn dhcp_names_the_interface() {
    let boot = Bootstrap::Literal(Err("invalid IP address syntax".to_string()));
    match DnsClient::new_client(opts("en0", 0, DNSNetMode::Dhcp, None), boot) {
        Ok(Upstream::Dhcp(i)) => assert_eq!(i, "en0"),
        other => panic!("unexpected {:?}", other),
    }
}

#[test]
fn client_identity() {
    let boot = Bootstrap::Literal(Ok(ip(vec![8, 8, 4, 4], "8.8.4.4")));
    let c = built(DnsClient::new_client(opts("8.8.4.4", 853, DNSNetMode::DoT, None), boot));
    assert_eq!(c.id(), "DoT#8.8.4.4:853");
    let boot = Bootstrap::Resolved(Ok(Some(ip(vec![9, 9, 9, 9], "9.9.9.9"))));
    let c = built(DnsClient::new_client(opts("dns.quad9.net", 0, DNSNetMode::Udp, None), boot));
    assert_eq!(c.id(), "UDP#dns.quad9.net:0");
}

#[test]
fn endpoint_descriptions() {
    let a = SocketAddr { ip: ip(vec![1, 1, 1, 1], "1.1.1.1"), port: 53 };
    assert_eq!(DnsConfig::Udp(a.clone(), None).describe(), "UDP: 1.1.1.1:53 ");
    assert_eq!(
        DnsConfig::Tcp(a.clone(), Some("eth0".to_string())).describe(),
        "TCP: 1.1.1.1:53 bind: eth0 "
    );
    assert_eq!(
        DnsConfig::Tls(a.clone(), "one.one.one.one".to_string(), None).describe(),
        "TLS: 1.1.1.1:53 host: one.one.one.one"
    );
    assert_eq!(
        DnsConfig::Https(a, "cloudflare-dns.com".to_string(), Some("wg0".to_string())).describe(),
        "HTTPS: 1.1.1.1:53 bind: wg0 host: cloudflare-dns.com"
    );
}

#[test]
fn doh_by_address_skips_hostname_check() {
    let a = SocketAddr { ip: ip(vec![1, 1, 1, 1], "1.1.1.1"), port: 443 };
    let p = dns_stream_plan(&DnsConfig::Https(a, "1.1.1.1".to_string(), None));
    assert_eq!(p.transport, Transport::Https);
    let tls = p.tls.unwrap();
    assert!(!tls.verify_hostname);
    assert_eq!(tls.alpn, vec!["h2".to_string()]);
    assert_eq!(tls.server_name, "1.1.1.1");
}

#[test]
fn doh_by_name_checks_hostname() {
    let a = SocketAddr { ip: ip(vec![1, 1, 1, 1], "1.1.1.1"), port: 443 };
    let p = dns_stream_plan(&DnsConfig::Https(a, "cloudflare-dns.com".to_string(), None));
    let tls = p.tls.unwrap();
    assert!(tls.verify_hostname);
    assert_eq!(tls.server_name, "cloudflare-dns.com");
}

#[test]
fn dot_offers_dot_and_h2() {
    let boot = Bootstrap::Literal(Ok(ip(vec![8, 8, 8, 8], "8.8.8.8")));
    let c = built(DnsClient::new_client(opts("8.8.8.8", 853, DNSNetMode::DoT, Some("eth1")), boot));
    let p = c.stream_plan();
    assert_eq!(p.transport, Transport::Tls);
    assert_eq!(p.timeout_secs, 5);
    assert_eq!(p.addr.port, 853);
    assert_eq!(p.addr.ip.text, "8.8.8.8");
    assert_eq!(p.iface.as_deref(), Some("eth1"));
    let tls = p.tls.unwrap();
    assert_eq!(tls.alpn, vec!["dot".to_string(), "h2".to_string()]);
    assert!(tls.verify_hostname);
}

#[test]
fn plain_transports_have_no_tls() {
    let a = SocketAddr { ip: ip(vec![9, 9, 9, 9], "9.9.9.9"), port: 53 };
    let p = dns_stream_plan(&DnsConfig::Udp(a.clone(), None));
    assert_eq!(p.transport, Transport::Udp);
    assert!(p.tls.is_none());
    assert_eq!(p.timeout_secs, 5);
    let p = dns_stream_plan(&DnsConfig::Tcp(a, Some("lo".to_string())));
    assert_eq!(p.transport, Transport::Tcp);
    assert!(p.tls.is_none());
    assert_eq!(p.iface.as_deref(), Some("lo"));
}
