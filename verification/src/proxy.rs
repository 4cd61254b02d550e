//! How the API is reached: directly or through one of several kinds of
//! proxy.

use crate::net::{Endpoint, SocketAddr, SocketAddrV4, TransportProtocol};
use vstd::prelude::*;

verus! {

/// Name of the file that holds the connection mode last in use.
pub const CURRENT_CONFIG_FILENAME: &'static str = "api-endpoint.json";

/// User name and password for a SOCKS5 proxy.
#[derive(Debug, PartialEq, Eq)]
pub struct SocksAuth {
    pub username: String,
    pub password: String,
}

/// A Shadowsocks proxy.
#[derive(Debug, PartialEq, Eq)]
pub struct Shadowsocks {
    pub endpoint: SocketAddr,
    pub password: String,
    /// Name of the cipher.
    pub cipher: String,
}

/// A SOCKS5 proxy that runs on this host.
#[derive(Clone, Copy, Debug, PartialEq, Eq, Structural)]
pub struct Socks5Local {
    /// Where the proxy itself connects to.
    pub remote_endpoint: Endpoint,
    /// The port on this host at which the proxy listens.
    pub local_port: u16,
}

/// A SOCKS5 proxy on another host.
#[derive(Debug, PartialEq, Eq)]
pub struct Socks5Remote {
    pub endpoint: SocketAddr,
    pub auth: Option<SocksAuth>,
}

/// A proxy that the user has configured.
#[derive(Debug, PartialEq, Eq)]
pub enum CustomProxy {
    Shadowsocks(Shadowsocks),
    Socks5Local(Socks5Local),
    Socks5Remote(Socks5Remote),
}

/// A proxy whose address was learnt from DNS in encrypted form.
#[derive(Clone, Copy, Debug, PartialEq, Eq, Structural)]
pub struct EncryptedDnsProxyConfig {
    /// Where the proxy is reached.
    pub addr: SocketAddrV4,
    /// The key that the traffic is masked with, where it is masked.
    pub xor_key: Option<u32>,
}

/// A proxy through which the API is reached.
#[derive(Debug, PartialEq, Eq)]
pub enum ProxyConfig {
    Shadowsocks(Shadowsocks),
    Socks5Local(Socks5Local),
    Socks5Remote(Socks5Remote),
    EncryptedDnsProxy(EncryptedDnsProxyConfig),
}

/// How the API is reached.
#[derive(Debug, PartialEq, Eq)]
pub enum ApiConnectionMode {
    /// Connect directly to the target.
    Direct,
    /// Connect to the destination through a proxy.
    Proxied(ProxyConfig),
}

impl Clone for SocksAuth {
    fn clone(&self) -> (copy: SocksAuth)
        ensures
            copy == *self,
    {
        SocksAuth { username: self.username.clone(), password: self.password.clone() }
    }
}

impl Clone for Shadowsocks {
    fn clone(&self) -> (copy: Shadowsocks)
        ensures
            copy == *self,
    {
        Shadowsocks {
            endpoint: self.endpoint,
            password: self.password.clone(),
            cipher: self.cipher.clone(),
        }
    }
}

impl Clone for Socks5Remote {
    fn clone(&self) -> (copy: Socks5Remote)
        ensures
            copy == *self,
    {
        Socks5Remote {
            endpoint: self.endpoint,
            auth: match &self.auth {
                Some(auth) => Some(auth.clone()),
                None => None,
            },
        }
    }
}

impl Clone for ProxyConfig {
    fn clone(&self) -> (copy: ProxyConfig)
        ensures
            copy == *self,
    {
        match self {
            ProxyConfig::Shadowsocks(shadowsocks) => ProxyConfig::Shadowsocks(shadowsocks.clone()),
            ProxyConfig::Socks5Local(local) => ProxyConfig::Socks5Local(*local),
            ProxyConfig::Socks5Remote(remote) => ProxyConfig::Socks5Remote(remote.clone()),
            ProxyConfig::EncryptedDnsProxy(proxy) => ProxyConfig::EncryptedDnsProxy(*proxy),
        }
    }
}

impl Clone for ApiConnectionMode {
    fn clone(&self) -> (copy: ApiConnectionMode)
        ensures
            copy == *self,
    {
        match self {
            ApiConnectionMode::Direct => ApiConnectionMode::Direct,
            ApiConnectionMode::Proxied(proxy) => ApiConnectionMode::Proxied(proxy.clone()),
        }
    }
}

impl ProxyConfig {
    /// The remote endpoint at which the proxy is reached.
    pub open spec fn endpoint_spec(self) -> Endpoint {
        match self {
            ProxyConfig::Shadowsocks(shadowsocks) => Endpoint {
                address: shadowsocks.endpoint,
                protocol: TransportProtocol::Tcp,
            },
            ProxyConfig::Socks5Local(local) => local.remote_endpoint,
            ProxyConfig::Socks5Remote(remote) => Endpoint {
                address: remote.endpoint,
                protocol: TransportProtocol::Tcp,
            },
            ProxyConfig::EncryptedDnsProxy(proxy) => Endpoint {
                address: proxy.addr.generic_spec(),
                protocol: TransportProtocol::Tcp,
            },
        }
    }

    /// The remote endpoint at which the proxy is reached.
    pub fn get_endpoint(&self) -> (endpoint: Endpoint)
        ensures
            endpoint == self.endpoint_spec(),
    {
        match self {
            ProxyConfig::Shadowsocks(shadowsocks) => Endpoint::from_socket_address(
                shadowsocks.endpoint,
                TransportProtocol::Tcp,
            ),
            ProxyConfig::Socks5Local(local) => local.remote_endpoint,
            ProxyConfig::Socks5Remote(remote) => Endpoint::from_socket_address(
                remote.endpoint,
                TransportProtocol::Tcp,
            ),
            ProxyConfig::EncryptedDnsProxy(proxy) => {
                let addr = proxy.addr.generic();
                Endpoint::from_socket_address(addr, TransportProtocol::Tcp)
            },
        }
    }

}

impl vstd::std_specs::convert::FromSpecImpl<CustomProxy> for ProxyConfig {
    open spec fn obeys_from_spec() -> bool {
        true
    }

    open spec fn from_spec(value: CustomProxy) -> ProxyConfig {
        match value {
            CustomProxy::Shadowsocks(shadowsocks) => ProxyConfig::Shadowsocks(shadowsocks),
            CustomProxy::Socks5Local(socks) => ProxyConfig::Socks5Local(socks),
            CustomProxy::Socks5Remote(socks) => ProxyConfig::Socks5Remote(socks),
        }
    }
}

impl From<CustomProxy> for ProxyConfig {
    /// The proxy that the user has configured, as a way to the API.
    fn from(value: CustomProxy) -> (config: ProxyConfig) {
        match value {
            CustomProxy::Shadowsocks(shadowsocks) => ProxyConfig::Shadowsocks(shadowsocks),
            CustomProxy::Socks5Local(socks) => ProxyConfig::Socks5Local(socks),
            CustomProxy::Socks5Remote(socks) => ProxyConfig::Socks5Remote(socks),
        }
    }
}

impl vstd::std_specs::convert::FromSpecImpl<EncryptedDnsProxyConfig> for ProxyConfig {
    open spec fn obeys_from_spec() -> bool {
        true
    }

    open spec fn from_spec(value: EncryptedDnsProxyConfig) -> ProxyConfig {
        ProxyConfig::EncryptedDnsProxy(value)
    }
}

impl From<EncryptedDnsProxyConfig> for ProxyConfig {
    fn from(value: EncryptedDnsProxyConfig) -> (config: ProxyConfig) {
        ProxyConfig::EncryptedDnsProxy(value)
    }
}

/// What reading the file of the connection mode has given.
#[derive(Debug, PartialEq, Eq)]
pub enum CacheRead {
    /// The file holds this connection mode.
    Mode(ApiConnectionMode),
    /// The file holds something that is no connection mode.
    Malformed,
    /// There is no such file.
    NotFound,
    /// The file could not be read.
    Unreadable,
}

/// Why the connection mode last in use is not known.
#[derive(Clone, Copy, Debug, PartialEq, Eq, Structural)]
pub enum CacheError {
    /// The file holds something that is no connection mode.
    DeserializationFailed,
    /// The file could not be read.
    ReadFailed,
}

/// The connection mode that a reading of the file stands for. A file that
/// is missing stands for a direct connection.
pub open spec fn from_cache_spec(read: CacheRead) -> Result<ApiConnectionMode, CacheError> {
    match read {
        CacheRead::Mode(mode) => Ok(mode),
        CacheRead::Malformed => Err(CacheError::DeserializationFailed),
        CacheRead::NotFound => Ok(ApiConnectionMode::Direct),
        CacheRead::Unreadable => Err(CacheError::ReadFailed),
    }
}

impl ApiConnectionMode {
    /// The connection mode last in use, as far as the file tells. If the
    /// file does not tell, for whatever reason, the mode is direct.
    pub fn try_from_cache(read: CacheRead) -> (mode: ApiConnectionMode)
        ensures
            mode == match from_cache_spec(read) {
                Ok(mode) => mode,
                Err(_) => ApiConnectionMode::Direct,
            },
    {
        match Self::from_cache(read) {
            Ok(mode) => mode,
            Err(_) => ApiConnectionMode::Direct,
        }
    }

    /// The connection mode last in use, as far as the file tells. A file
    /// that is missing stands for a direct connection.
    pub fn from_cache(read: CacheRead) -> (mode: Result<ApiConnectionMode, CacheError>)
        ensures
            mode == from_cache_spec(read),
    {
        match read {
            CacheRead::Mode(mode) => Ok(mode),
            CacheRead::Malformed => Err(CacheError::DeserializationFailed),
            CacheRead::NotFound => Ok(ApiConnectionMode::Direct),
            CacheRead::Unreadable => Err(CacheError::ReadFailed),
        }
    }

    /// The remote endpoint through which the API is reached, or `None` for a
    /// direct connection.
    pub fn get_endpoint(&self) -> (endpoint: Option<Endpoint>)
        ensures
            endpoint == match *self {
                ApiConnectionMode::Direct => None,
                ApiConnectionMode::Proxied(proxy) => Some(proxy.endpoint_spec()),
            },
    {
        match self {
            ApiConnectionMode::Direct => None,
            ApiConnectionMode::Proxied(proxy_config) => Some(proxy_config.get_endpoint()),
        }
    }

    /// Whether the API is reached through a proxy.
    pub fn is_proxy(&self) -> (proxied: bool)
        ensures
            proxied == (*self is Proxied),
    {
        match self {
            ApiConnectionMode::Direct => false,
            ApiConnectionMode::Proxied(_) => true,
        }
    }

    /// A provider that offers this mode and no other.
    pub fn into_provider(self) -> (provider: StaticConnectionModeProvider)
        ensures
            provider.mode() == self,
    {
        StaticConnectionModeProvider::new(self)
    }
}

/// A provider of connection modes that offers one mode and never another.
#[derive(Debug, PartialEq, Eq)]
pub struct StaticConnectionModeProvider {
    mode: ApiConnectionMode,
}

impl StaticConnectionModeProvider {
    /// The mode that is offered.
    pub closed spec fn mode(&self) -> ApiConnectionMode {
        self.mode
    }

    pub fn new(mode: ApiConnectionMode) -> (provider: StaticConnectionModeProvider)
        ensures
            provider.mode() == mode,
    {
        StaticConnectionModeProvider { mode }
    }

    /// The mode to start with.
    pub fn initial(&self) -> (mode: ApiConnectionMode)
        ensures
            mode == self.mode(),
    {
        self.mode.clone()
    }
}

} // verus!
