use talpid_core::https_client_with_sni::{
    checked_host, contains, literal_address, resolve_address, HttpsConnectorRequest,
    HttpsConnectorWithSniInner, InnerConnectionMode, ProxyConfigError, SocksConfig, UriError,
    DEFAULT_PORT,
};
use talpid_core::net::{
    Endpoint, IpAddr, Ipv4Addr, SocketAddr, SocketAddrV4, TransportProtocol,
};
use talpid_core::proxy::{
    ApiConnectionMode, CacheError, CacheRead, CustomProxy, EncryptedDnsProxyConfig, ProxyConfig,
    Shadowsocks, Socks5Local, Socks5Remote, SocksAuth, CURRENT_CONFIG_FILENAME,
};

fn address(last: u8, port: u16) -> SocketAddr {
    SocketAddr::new(IpAddr::V4(Ipv4Addr::new(192, 0, 2, last)), port)
}

fn shadowsocks(cipher: &str) -> Shadowsocks {
    Shadowsocks { endpoint: address(1, 443), password: "mullvad".to_string(), cipher: cipher.to_string() }
}

fn remote() -> Socks5Remote {
    Socks5Remote {
        endpoint: address(2, 1080),
        auth: Some(SocksAuth { username: "user".to_string(), password: "pass".to_string() }),
    }
}

fn local() -> Socks5Local {
    Socks5Local {
        remote_endpoint: Endpoint { address: address(3, 22), protocol: TransportProtocol::Udp },
        local_port: 1081,
    }
}

fn encrypted() -> EncryptedDnsProxyConfig {
    EncryptedDnsProxyConfig {
        addr: SocketAddrV4 { ip: Ipv4Addr::new(192, 0, 2, 4), port: 8443 },
        xor_key: Some(0xdead_beef),
    }
}

#[test]
fn the_endpoint_of_a_connection_mode() {
    assert_eq!(ApiConnectionMode::Direct.get_endpoint(), None);
    let tcp = |address| Some(Endpoint { address, protocol: TransportProtocol::Tcp });
    assert_eq!(
        ApiConnectionMode::Proxied(ProxyConfig::Shadowsocks(shadowsocks("aes-256-gcm"))).get_endpoint(),
        tcp(address(1, 443))
    );
    assert_eq!(
        ApiConnectionMode::Proxied(ProxyConfig::Socks5Local(local())).get_endpoint(),
        Some(local().remote_endpoint)
    );
    assert_eq!(
        ApiConnectionMode::Proxied(ProxyConfig::Socks5Remote(remote())).get_endpoint(),
        tcp(address(2, 1080))
    );
    assert_eq!(
        ApiConnectionMode::Proxied(ProxyConfig::EncryptedDnsProxy(encrypted())).get_endpoint(),
        tcp(address(4, 8443))
    );
    assert_eq!(encrypted().addr.generic(), address(4, 8443));
}

#[test]
fn a_connection_mode_is_a_proxy_unless_it_is_direct() {
    assert!(!ApiConnectionMode::Direct.is_proxy());
    assert!(ApiConnectionMode::Proxied(ProxyConfig::Socks5Local(local())).is_proxy());
    let mode = ApiConnectionMode::Proxied(ProxyConfig::Socks5Remote(remote()));
    assert_eq!(mode.clone(), mode);
    assert_eq!(mode.clone().into_provider().initial(), mode);
    assert_eq!(
        ProxyConfig::from(CustomProxy::Shadowsocks(shadowsocks("x"))),
        ProxyConfig::Shadowsocks(shadowsocks("x"))
    );
    assert_eq!(
        ProxyConfig::from(CustomProxy::Socks5Local(local())),
        ProxyConfig::Socks5Local(local())
    );
    assert_eq!(
        ProxyConfig::from(CustomProxy::Socks5Remote(remote())),
        ProxyConfig::Socks5Remote(remote())
    );
    assert_eq!(ProxyConfig::from(encrypted()), ProxyConfig::EncryptedDnsProxy(encrypted()));
}

#[test]
fn the_connection_mode_last_in_use() {
    let mode = ApiConnectionMode::Proxied(ProxyConfig::Socks5Local(local()));
    assert_eq!(ApiConnectionMode::from_cache(CacheRead::Mode(mode.clone())), Ok(mode.clone()));
    assert_eq!(ApiConnectionMode::from_cache(CacheRead::NotFound), Ok(ApiConnectionMode::Direct));
    assert_eq!(
        ApiConnectionMode::from_cache(CacheRead::Malformed),
        Err(CacheError::DeserializationFailed)
    );
    assert_eq!(ApiConnectionMode::from_cache(CacheRead::Unreadable), Err(CacheError::ReadFailed));
    assert_eq!(ApiConnectionMode::try_from_cache(CacheRead::Mode(mode.clone())), mode);
    for read in [CacheRead::NotFound, CacheRead::Malformed, CacheRead::Unreadable] {
        assert_eq!(ApiConnectionMode::try_from_cache(read), ApiConnectionMode::Direct);
    }
    assert_eq!(CURRENT_CONFIG_FILENAME, "api-endpoint.json");
}

#[test]
fn connection_modes_become_ways_of_connecting() {
    assert_eq!(InnerConnectionMode::try_from(ApiConnectionMode::Direct), Ok(InnerConnectionMode::Direct));
    match InnerConnectionMode::try_from(ApiConnectionMode::Proxied(ProxyConfig::Shadowsocks(
        shadowsocks("aes-256-gcm"),
    ))) {
        Ok(InnerConnectionMode::Shadowsocks(parsed)) => {
            assert_eq!(parsed.peer, address(1, 443));
            assert_eq!(parsed.password, "mullvad");
            assert_eq!(parsed.cipher, "aes-256-gcm".parse().unwrap());
        }
        other => panic!("{:?}", other),
    }
    assert_eq!(
        InnerConnectionMode::try_from(ApiConnectionMode::Proxied(ProxyConfig::Shadowsocks(
            shadowsocks("rot13")
        ))),
        Err(ProxyConfigError::InvalidCipher("rot13".to_string()))
    );
    assert_eq!(
        InnerConnectionMode::try_from(ApiConnectionMode::Proxied(ProxyConfig::Socks5Local(local()))),
        Ok(InnerConnectionMode::Socks5(SocksConfig {
            peer: SocketAddr::new(IpAddr::V4(Ipv4Addr::new(127, 0, 0, 1)), 1081),
            authentication: None,
        }))
    );
    assert_eq!(
        InnerConnectionMode::try_from(ApiConnectionMode::Proxied(ProxyConfig::Socks5Remote(remote()))),
        Ok(InnerConnectionMode::Socks5(SocksConfig {
            peer: address(2, 1080),
            authentication: remote().auth,
        }))
    );
    assert_eq!(
        InnerConnectionMode::try_from(ApiConnectionMode::Proxied(ProxyConfig::EncryptedDnsProxy(
            encrypted()
        ))),
        Ok(InnerConnectionMode::EncryptedDnsProxy(encrypted()))
    );
}

#[test]
fn the_first_hop_is_the_proxy() {
    let target = address(9, 443);
    assert_eq!(InnerConnectionMode::Direct.first_hop(&target), target);
    let socks = InnerConnectionMode::Socks5(SocksConfig { peer: address(2, 1080), authentication: None });
    assert_eq!(socks.first_hop(&target), address(2, 1080));
    assert_eq!(InnerConnectionMode::EncryptedDnsProxy(encrypted()).first_hop(&target), address(4, 8443));
    let mode = InnerConnectionMode::try_from(ApiConnectionMode::Proxied(ProxyConfig::Shadowsocks(
        shadowsocks("chacha20-ietf-poly1305"),
    )))
    .unwrap();
    assert_eq!(mode.first_hop(&target), address(1, 443));
}

#[test]
fn uris_stand_for_addresses() {
    assert_eq!(checked_host(true, Some("api.mullvad.net".to_string())), Ok("api.mullvad.net".to_string()));
    assert_eq!(checked_host(false, Some("api.mullvad.net".to_string())), Err(UriError::NotHttps));
    assert_eq!(checked_host(false, None), Err(UriError::NotHttps));
    assert_eq!(checked_host(true, None), Err(UriError::MissingHost));

    let host = IpAddr::V4(Ipv4Addr::new(192, 0, 2, 7));
    assert_eq!(DEFAULT_PORT, 443);
    assert_eq!(literal_address(host, None), SocketAddr::new(host, 443));
    assert_eq!(literal_address(host, Some(8080)), SocketAddr::new(host, 8080));

    assert_eq!(resolve_address(&Vec::new(), Some(1)), Err(UriError::EmptyDnsResponse));
    let found = vec![address(1, 0), address(2, 99)];
    assert_eq!(resolve_address(&found, None), Ok(address(1, 443)));
    assert_eq!(resolve_address(&found, Some(8443)), Ok(address(1, 8443)));
    let found = vec![address(2, 99), address(1, 0)];
    assert_eq!(resolve_address(&found, None), Ok(address(2, 99)));
    assert_eq!(resolve_address(&found, Some(8443)), Ok(address(2, 8443)));
}

#[test]
fn requests_stop_all_streams() {
    let mut inner = HttpsConnectorWithSniInner::new();
    assert_eq!(inner.proxy_config, InnerConnectionMode::Direct);
    inner.add_stream(1);
    inner.add_stream(2);
    inner.add_stream(3);
    inner.retain_open(&vec![2, 7]);
    assert_eq!(inner.stream_handles, vec![1, 3]);
    assert!(contains(&vec![2, 7], 7));
    assert!(!contains(&vec![2, 7], 1));

    assert_eq!(inner.handle_request(HttpsConnectorRequest::Reset), vec![1, 3]);
    assert!(inner.stream_handles.is_empty());
    assert_eq!(inner.proxy_config, InnerConnectionMode::Direct);

    inner.add_stream(4);
    let socks = ApiConnectionMode::Proxied(ProxyConfig::Socks5Remote(remote()));
    assert_eq!(inner.handle_request(HttpsConnectorRequest::SetConnectionMode(socks)), vec![4]);
    let taken = InnerConnectionMode::Socks5(SocksConfig {
        peer: address(2, 1080),
        authentication: remote().auth,
    });
    assert_eq!(inner.proxy_config, taken);

    inner.add_stream(5);
    let unusable = ApiConnectionMode::Proxied(ProxyConfig::Shadowsocks(shadowsocks("rot13")));
    assert_eq!(inner.handle_request(HttpsConnectorRequest::SetConnectionMode(unusable)), vec![5]);
    assert_eq!(inner.proxy_config, taken);
    assert!(inner.stream_handles.is_empty());
}
