//! What the HTTPS connector decides: where a connection goes first, which
//! address a URI stands for, and what a request of its handle does to it.

use crate::net::{IpAddr, Ipv4Addr, SocketAddr};
use crate::proxy::{
    ApiConnectionMode, EncryptedDnsProxyConfig, ProxyConfig, SocksAuth,
};
use shadowsocks::crypto::CipherKind;
use std::str::FromStr;
use vstd::prelude::*;

verus! {

/// The port of a URI that names none.
pub const DEFAULT_PORT: u16 = 443;

/// A cipher of `shadowsocks`.
#[verifier::external_type_specification]
#[verifier::external_body]
pub struct ExCipherKind(CipherKind);

/// Whether `shadowsocks` knows a cipher of the given name.
pub uninterp spec fn cipher_is_known(name: Seq<char>) -> bool;

/// `CipherKind::from_str` of `shadowsocks`. Whether a name is that of a
/// cipher depends on the name alone.
#[verifier::external_body]
fn parse_cipher(name: &str) -> (cipher: Option<CipherKind>)
    ensures
        cipher is Some == cipher_is_known(name@),
{
    CipherKind::from_str(name).ok()
}

/// What the handle of the connector asks of it.
#[derive(Debug, PartialEq, Eq)]
pub enum HttpsConnectorRequest {
    /// Stop all streams that the connector has produced.
    Reset,
    /// Connect in this way from now on, and stop all streams.
    SetConnectionMode(ApiConnectionMode),
}

/// A Shadowsocks proxy whose cipher is known.
#[derive(Debug, PartialEq, Eq)]
pub struct ParsedShadowsocksConfig {
    pub peer: SocketAddr,
    pub password: String,
    pub cipher: CipherKind,
}

/// A SOCKS5 proxy.
#[derive(Debug, PartialEq, Eq)]
pub struct SocksConfig {
    pub peer: SocketAddr,
    pub authentication: Option<SocksAuth>,
}

/// How the connector connects.
#[derive(Debug, PartialEq, Eq)]
pub enum InnerConnectionMode {
    /// Directly to the target.
    Direct,
    /// Through a Shadowsocks proxy.
    Shadowsocks(ParsedShadowsocksConfig),
    /// Through a SOCKS5 proxy.
    Socks5(SocksConfig),
    /// Through a proxy whose address was learnt from DNS in encrypted form.
    EncryptedDnsProxy(EncryptedDnsProxyConfig),
}

/// Why a connection mode cannot be used.
#[derive(Debug, PartialEq, Eq)]
pub enum ProxyConfigError {
    /// No cipher of this name is known.
    InvalidCipher(String),
}

/// Whether `outcome` is what `config` stands for as a way of connecting. A
/// Shadowsocks proxy needs a cipher that is known, and is refused with the
/// name of its cipher otherwise. A local SOCKS5 proxy is reached on the
/// loopback address at its local port, without authentication. Everything
/// else is taken as it is.
pub open spec fn converts_to(
    config: ApiConnectionMode,
    outcome: Result<InnerConnectionMode, ProxyConfigError>,
) -> bool {
    match config {
        ApiConnectionMode::Direct => outcome == Ok::<InnerConnectionMode, ProxyConfigError>(
            InnerConnectionMode::Direct,
        ),
        ApiConnectionMode::Proxied(ProxyConfig::Shadowsocks(config)) => if cipher_is_known(
            config.cipher@,
        ) {
            outcome matches Ok(InnerConnectionMode::Shadowsocks(parsed)) && parsed.peer
                == config.endpoint && parsed.password == config.password
        } else {
            outcome == Err::<InnerConnectionMode, ProxyConfigError>(
                ProxyConfigError::InvalidCipher(config.cipher),
            )
        },
        ApiConnectionMode::Proxied(ProxyConfig::Socks5Local(config)) => outcome == Ok::<
            InnerConnectionMode,
            ProxyConfigError,
        >(
            InnerConnectionMode::Socks5(
                SocksConfig {
                    peer: SocketAddr {
                        ip: IpAddr::V4(Ipv4Addr::localhost_spec()),
                        port: config.local_port,
                    },
                    authentication: None,
                },
            ),
        ),
        ApiConnectionMode::Proxied(ProxyConfig::Socks5Remote(config)) => outcome == Ok::<
            InnerConnectionMode,
            ProxyConfigError,
        >(
            InnerConnectionMode::Socks5(
                SocksConfig { peer: config.endpoint, authentication: config.auth },
            ),
        ),
        ApiConnectionMode::Proxied(ProxyConfig::EncryptedDnsProxy(config)) => outcome == Ok::<
            InnerConnectionMode,
            ProxyConfigError,
        >(InnerConnectionMode::EncryptedDnsProxy(config)),
    }
}

/// Whether a connection mode can be used: every mode can, but for a
/// Shadowsocks proxy with a cipher that is not known.
pub open spec fn can_be_used(config: ApiConnectionMode) -> bool {
    match config {
        ApiConnectionMode::Proxied(ProxyConfig::Shadowsocks(config)) => cipher_is_known(
            config.cipher@,
        ),
        _ => true,
    }
}

impl InnerConnectionMode {
    /// The way of connecting that a connection mode stands for.
    pub fn try_from(config: ApiConnectionMode) -> (mode: Result<
        InnerConnectionMode,
        ProxyConfigError,
    >)
        ensures
            converts_to(config, mode),
            mode is Ok == can_be_used(config),
    {
        match config {
            ApiConnectionMode::Direct => Ok(InnerConnectionMode::Direct),
            ApiConnectionMode::Proxied(proxy_settings) => match proxy_settings {
                ProxyConfig::Shadowsocks(config) => {
                    match parse_cipher(config.cipher.as_str()) {
                        Some(cipher) => Ok(
                            InnerConnectionMode::Shadowsocks(
                                ParsedShadowsocksConfig {
                                    peer: config.endpoint,
                                    password: config.password,
                                    cipher,
                                },
                            ),
                        ),
                        None => Err(ProxyConfigError::InvalidCipher(config.cipher)),
                    }
                },
                ProxyConfig::Socks5Local(config) => Ok(
                    InnerConnectionMode::Socks5(
                        SocksConfig {
                            peer: SocketAddr::new(
                                IpAddr::V4(Ipv4Addr::localhost()),
                                config.local_port,
                            ),
                            authentication: None,
                        },
                    ),
                ),
                ProxyConfig::Socks5Remote(config) => Ok(
                    InnerConnectionMode::Socks5(
                        SocksConfig { peer: config.endpoint, authentication: config.auth },
                    ),
                ),
                ProxyConfig::EncryptedDnsProxy(config) => Ok(
                    InnerConnectionMode::EncryptedDnsProxy(config),
                ),
            },
        }
    }

    /// Where a connection to `addr` goes first: to the proxy, or to `addr`
    /// itself where there is no proxy.
    pub open spec fn first_hop_spec(self, addr: SocketAddr) -> SocketAddr {
        match self {
            InnerConnectionMode::Direct => addr,
            InnerConnectionMode::Shadowsocks(shadowsocks) => shadowsocks.peer,
            InnerConnectionMode::Socks5(socks) => socks.peer,
            InnerConnectionMode::EncryptedDnsProxy(proxy) => proxy.addr.generic_spec(),
        }
    }

    /// Where a connection to `addr` goes first.
    pub fn first_hop(&self, addr: &SocketAddr) -> (hop: SocketAddr)
        ensures
            hop == self.first_hop_spec(*addr),
    {
        match self {
            InnerConnectionMode::Direct => *addr,
            InnerConnectionMode::Shadowsocks(shadowsocks) => shadowsocks.peer,
            InnerConnectionMode::Socks5(socks) => socks.peer,
            InnerConnectionMode::EncryptedDnsProxy(proxy_config) => proxy_config.addr.generic(),
        }
    }
}

/// Why a URI cannot be connected to.
#[derive(Clone, Copy, Debug, PartialEq, Eq, Structural)]
pub enum UriError {
    /// Its scheme is not `https`.
    NotHttps,
    /// It names no host.
    MissingHost,
    /// The resolver knows no address of its host.
    EmptyDnsResponse,
}

/// The host of a URI that can be connected to: the URI has to be one of the
/// scheme `https`, and has to name a host.
pub fn checked_host(is_https: bool, host: Option<String>) -> (checked: Result<String, UriError>)
    ensures
        checked == if !is_https {
            Err::<String, UriError>(UriError::NotHttps)
        } else {
            match host {
                Some(host) => Ok::<String, UriError>(host),
                None => Err::<String, UriError>(UriError::MissingHost),
            }
        },
{
    if !is_https {
        return Err(UriError::NotHttps);
    }
    match host {
        Some(host) => Ok(host),
        None => Err(UriError::MissingHost),
    }
}

/// The address that a URI stands for whose host is the IP address `host`:
/// that address at the port of the URI, or at the default port if the URI
/// names none.
pub fn literal_address(host: IpAddr, port: Option<u16>) -> (address: SocketAddr)
    ensures
        address == (SocketAddr {
            ip: host,
            port: match port {
                Some(port) => port,
                None => DEFAULT_PORT,
            },
        }),
{
    SocketAddr::new(
        host,
        match port {
            Some(port) => port,
            None => DEFAULT_PORT,
        },
    )
}

/// The port to connect to, given the port of the address that the resolver
/// has found and the port of the URI: that of the URI if it names one, else
/// that of the resolver unless it is zero, else the default port.
pub open spec fn port_spec(resolved_port: u16, uri_port: Option<u16>) -> u16 {
    match uri_port {
        Some(port) => port,
        None => if resolved_port == 0 {
            DEFAULT_PORT
        } else {
            resolved_port
        },
    }
}

/// The address that a URI stands for whose host the resolver has resolved
/// to `addrs`: the first of them, at the port that [`port_spec`] gives. With
/// no address there is nothing to connect to.
pub fn resolve_address(addrs: &Vec<SocketAddr>, port: Option<u16>) -> (address: Result<
    SocketAddr,
    UriError,
>)
    ensures
        address == if addrs@.len() == 0 {
            Err::<SocketAddr, UriError>(UriError::EmptyDnsResponse)
        } else {
            Ok::<SocketAddr, UriError>(
                SocketAddr { ip: addrs@[0].ip, port: port_spec(addrs@[0].port, port) },
            )
        },
{
    if addrs.len() == 0 {
        return Err(UriError::EmptyDnsResponse);
    }
    let addr = addrs[0];
    let port = match (addr.port, port) {
        (_, Some(port)) => port,
        (0, None) => DEFAULT_PORT,
        (addr_port, None) => addr_port,
    };
    Ok(SocketAddr::new(addr.ip, port))
}

/// What the connector remembers: the streams it has produced and that may
/// still be open, each by its number, and how it connects.
#[derive(Debug, PartialEq, Eq)]
pub struct HttpsConnectorWithSniInner {
    pub stream_handles: Vec<u64>,
    pub proxy_config: InnerConnectionMode,
}

impl HttpsConnectorWithSniInner {
    /// A connector that connects directly and has produced no stream.
    pub fn new() -> (inner: HttpsConnectorWithSniInner)
        ensures
            inner.stream_handles@.len() == 0,
            inner.proxy_config == InnerConnectionMode::Direct,
    {
        HttpsConnectorWithSniInner {
            stream_handles: Vec::new(),
            proxy_config: InnerConnectionMode::Direct,
        }
    }

    /// Does what the handle asks. Every request stops all streams: their
    /// numbers are handed out, to be closed, and none is remembered. A new
    /// connection mode is taken over if it can be used, and the mode stays as
    /// it is if not.
    pub fn handle_request(&mut self, request: HttpsConnectorRequest) -> (handles: Vec<u64>)
        ensures
            handles@ == old(self).stream_handles@,
            final(self).stream_handles@.len() == 0,
            match request {
                HttpsConnectorRequest::Reset => final(self).proxy_config == old(self).proxy_config,
                HttpsConnectorRequest::SetConnectionMode(config) => if can_be_used(config) {
                    converts_to(config, Ok(final(self).proxy_config))
                } else {
                    final(self).proxy_config == old(self).proxy_config
                },
            },
    {
        match request {
            HttpsConnectorRequest::SetConnectionMode(config) => {
                match InnerConnectionMode::try_from(config) {
                    Ok(config) => {
                        self.proxy_config = config;
                    },
                    Err(_) => {},
                }
            },
            HttpsConnectorRequest::Reset => {},
        }
        let mut handles: Vec<u64> = Vec::new();
        std::mem::swap(&mut self.stream_handles, &mut handles);
        handles
    }

    /// Remembers one more stream.
    pub fn add_stream(&mut self, handle: u64)
        ensures
            final(self).stream_handles@ == old(self).stream_handles@.push(handle),
            final(self).proxy_config == old(self).proxy_config,
    {
        self.stream_handles.push(handle);
    }

    /// Forgets the streams that are closed: those whose number is in
    /// `closed`. The others are kept, in their order.
    pub fn retain_open(&mut self, closed: &Vec<u64>)
        ensures
            final(self).stream_handles@ == old(self).stream_handles@.filter(
                |handle: u64| !closed@.contains(handle),
            ),
            final(self).proxy_config == old(self).proxy_config,
    {
        let mut kept: Vec<u64> = Vec::new();
        let mut i: usize = 0;
        let ghost open = |handle: u64| !closed@.contains(handle);
        while i < self.stream_handles.len()
            invariant
                i <= self.stream_handles.len(),
                *self == *old(self),
                open == |handle: u64| !closed@.contains(handle),
                kept@ == self.stream_handles@.subrange(0, i as int).filter(open),
            decreases self.stream_handles.len() - i,
        {
            let handle = self.stream_handles[i];
            let is_closed = contains(closed, handle);
            proof {
                let before = self.stream_handles@.subrange(0, i as int);
                assert(self.stream_handles@.subrange(0, i + 1) =~= before.push(handle));
                Seq::filter_distributes_over_add(before, seq![handle], open);
                assert(before.push(handle) =~= before + seq![handle]);
                reveal(Seq::filter);
                assert(seq![handle].drop_last() =~= Seq::<u64>::empty());
                assert(Seq::<u64>::empty().filter(open) =~= Seq::<u64>::empty());
                assert(seq![handle].filter(open) =~= if open(handle) {
                    seq![handle]
                } else {
                    Seq::<u64>::empty()
                });
            }
            if !is_closed {
                kept.push(handle);
            }
            i = i + 1;
            assert(kept@ =~= self.stream_handles@.subrange(0, i as int).filter(open));
        }
        assert(self.stream_handles@.subrange(0, i as int) =~= self.stream_handles@);
        self.stream_handles = kept;
    }
}

/// Whether `wanted` is among `numbers`.
pub fn contains(numbers: &Vec<u64>, wanted: u64) -> (found: bool)
    ensures
        found == numbers@.contains(wanted),
{
    let mut i: usize = 0;
    while i < numbers.len()
        invariant
            i <= numbers.len(),
            forall|k: int| 0 <= k < i ==> numbers@[k] != wanted,
        decreases numbers.len() - i,
    {
        if numbers[i] == wanted {
            return true;
        }
        i = i + 1;
    }
    false
}

} // verus!
