//! How a WireGuard tunnel is configured: its peers, its keys and its options.

use crate::dns::clone_addresses;
use crate::net::{
    copy_list, Endpoint, IpAddr, IpNetwork, Ipv4Addr, Ipv6Addr, ObfuscatorConfig, SocketAddr,
    TransportProtocol, TunnelEndpoint, TunnelEndpointView,
};
use base64::engine::general_purpose::STANDARD;
use base64::Engine;
use vstd::prelude::*;

verus! {

/// Why `base64` could not decode a text.
#[verifier::external_type_specification]
#[verifier::external_body]
pub struct ExDecodeError(base64::DecodeError);

/// The standard base64 text, with padding, of the given bytes.
pub uninterp spec fn base64_encode(bytes: Seq<u8>) -> Seq<char>;

/// The bytes that the given text stands for in standard base64 with padding,
/// if it stands for any.
pub uninterp spec fn base64_decode(text: Seq<char>) -> Option<Seq<u8>>;

/// The public key that belongs to the given private key on Curve25519.
pub uninterp spec fn x25519_public_key(secret: Seq<u8>) -> Seq<u8>;

/// `Engine::encode` of `base64` on its `STANDARD` engine. The text that it
/// gives depends on the bytes alone, and decoding that text on the same
/// engine gives the bytes back.
#[verifier::external_body]
fn encode_standard(bytes: &[u8; 32]) -> (text: String)
    ensures
        text@ == base64_encode(bytes@),
        base64_decode(text@) == Some(bytes@),
{
    STANDARD.encode(bytes)
}

/// `Engine::decode` of `base64` on its `STANDARD` engine. Whether a text
/// decodes, and to which bytes, depends on the text alone.
#[verifier::external_body]
fn decode_standard(text: &str) -> (decoded: Result<Vec<u8>, base64::DecodeError>)
    ensures
        match decoded {
            Ok(bytes) => base64_decode(text@) == Some(bytes@),
            Err(_) => base64_decode(text@) is None,
        },
{
    STANDARD.decode(text)
}

/// `PublicKey::from(&StaticSecret)` of `x25519_dalek`: the public key of a
/// private key, which depends on the private key alone.
#[verifier::external_body]
fn derive_public_key(secret: &[u8; 32]) -> (public: [u8; 32])
    ensures
        public@ == x25519_public_key(secret@),
{
    x25519_dalek::PublicKey::from(&x25519_dalek::StaticSecret::from(*secret)).to_bytes()
}

/// `StaticSecret::random` of `x25519_dalek`: 32 bytes from the system's
/// source of randomness. Nothing is known of them.
#[verifier::external_body]
fn random_secret() -> (secret: [u8; 32]) {
    x25519_dalek::StaticSecret::random().to_bytes()
}

/// `Zeroize::zeroize` of `zeroize` on an array of bytes: every byte is set
/// to zero, in a way that the compiler does not take out.
#[verifier::external_body]
fn wipe(bytes: &mut [u8; 32])
    ensures
        forall|i: int| 0 <= i < 32 ==> final(bytes)@[i] == 0u8,
    opens_invariants none
    no_unwind
{
    zeroize::Zeroize::zeroize(bytes)
}

impl Drop for PrivateKey {
    /// The secret is wiped from memory when the key goes.
    fn drop(&mut self)
        opens_invariants none
        no_unwind
    {
        wipe(&mut self.0);
    }
}

impl Drop for PresharedKey {
    /// The secret is wiped from memory when the key goes.
    fn drop(&mut self)
        opens_invariants none
        no_unwind
    {
        wipe(&mut *self.0);
    }
}

/// Why an input is no key.
#[derive(Debug, PartialEq, Eq)]
pub enum InvalidKey {
    /// It is no base64.
    Format(base64::DecodeError),
    /// It has the given number of bytes, which is not that of a key.
    Length(usize),
}

/// Whether reading `text` as a key has the outcome `outcome`: a text that
/// is no base64 is refused for its format, one that stands for another
/// number of bytes than 32 is refused for that length, and any other text
/// gives the bytes it stands for.
pub open spec fn reads_as(text: Seq<char>, outcome: Result<Seq<u8>, InvalidKey>) -> bool {
    match base64_decode(text) {
        None => outcome matches Err(InvalidKey::Format(_)),
        Some(bytes) => if bytes.len() == 32 {
            outcome == Ok::<Seq<u8>, InvalidKey>(bytes)
        } else {
            outcome == Err::<Seq<u8>, InvalidKey>(InvalidKey::Length(bytes.len() as usize))
        },
    }
}

/// The key made of the given bytes, if there are 32 of them.
pub fn key_from_bytes(bytes: &[u8]) -> (key: Result<[u8; 32], InvalidKey>)
    ensures
        match key {
            Ok(key) => bytes@.len() == 32 && key@ == bytes@,
            Err(error) => bytes@.len() != 32 && error == InvalidKey::Length(bytes@.len() as usize),
        },
{
    if bytes.len() != 32 {
        return Err(InvalidKey::Length(bytes.len()));
    }
    let mut key = [0u8; 32];
    let mut i: usize = 0;
    while i < 32
        invariant
            i <= 32,
            bytes@.len() == 32,
            forall|k: int| 0 <= k < i ==> key@[k] == bytes@[k],
        decreases 32 - i,
    {
        key[i] = bytes[i];
        i = i + 1;
    }
    assert(key@ =~= bytes@);
    Ok(key)
}

/// Reads the bytes of a key from base64.
fn key_from_base64(key: &str) -> (bytes: Result<[u8; 32], InvalidKey>)
    ensures
        match bytes {
            Ok(bytes) => reads_as(key@, Ok(bytes@)),
            Err(error) => reads_as(key@, Err(error)),
        },
{
    match decode_standard(key) {
        Err(error) => Err(InvalidKey::Format(error)),
        Ok(bytes) => key_from_bytes(bytes.as_slice()),
    }
}

/// A private key of the tunnel: 32 secret bytes.
#[derive(Debug, PartialEq, Eq)]
pub struct PrivateKey([u8; 32]);

/// A public key of the tunnel: 32 bytes.
#[derive(Debug, PartialEq, Eq, Hash)]
pub struct PublicKey([u8; 32]);

/// A preshared key, which makes a tunnel resistant to quantum attacks. It
/// lives in memory only.
#[derive(Debug, PartialEq, Eq, Hash)]
pub struct PresharedKey(Box<[u8; 32]>);

impl View for PrivateKey {
    type V = Seq<u8>;

    closed spec fn view(&self) -> Seq<u8> {
        self.0@
    }
}

impl View for PublicKey {
    type V = Seq<u8>;

    closed spec fn view(&self) -> Seq<u8> {
        self.0@
    }
}

impl View for PresharedKey {
    type V = Seq<u8>;

    closed spec fn view(&self) -> Seq<u8> {
        self.0@
    }
}

impl Clone for PrivateKey {
    fn clone(&self) -> (copy: PrivateKey)
        ensures
            copy@ == self@,
    {
        PrivateKey(self.0)
    }
}

impl Clone for PublicKey {
    fn clone(&self) -> (copy: PublicKey)
        ensures
            copy@ == self@,
    {
        PublicKey(self.0)
    }
}

impl Clone for PresharedKey {
    fn clone(&self) -> (copy: PresharedKey)
        ensures
            copy@ == self@,
    {
        PresharedKey(Box::new(*self.0))
    }
}

impl PrivateKey {
    /// The key as bytes.
    pub fn to_bytes(&self) -> (bytes: [u8; 32])
        ensures
            bytes@ == self@,
    {
        self.0
    }

    /// A new key from the system's source of randomness.
    pub fn new_from_random() -> (key: PrivateKey) {
        PrivateKey(random_secret())
    }

    /// The public key that belongs to this private key.
    pub fn public_key(&self) -> (public: PublicKey)
        ensures
            public@ == x25519_public_key(self@),
    {
        PublicKey(derive_public_key(&self.0))
    }

    /// The key in base64. Reading the text gives the key back.
    pub fn to_base64(&self) -> (text: String)
        ensures
            text@ == base64_encode(self@),
            reads_as(text@, Ok(self@)),
    {
        encode_standard(&self.0)
    }

    /// Reads a key from base64.
    pub fn from_base64(key: &str) -> (read: Result<PrivateKey, InvalidKey>)
        ensures
            match read {
                Ok(read) => reads_as(key@, Ok(read@)),
                Err(error) => reads_as(key@, Err(error)),
            },
    {
        match key_from_base64(key) {
            Ok(bytes) => Ok(PrivateKey(bytes)),
            Err(error) => Err(error),
        }
    }
}

impl vstd::std_specs::convert::FromSpecImpl<[u8; 32]> for PrivateKey {
    open spec fn obeys_from_spec() -> bool {
        true
    }

    closed spec fn from_spec(bytes: [u8; 32]) -> PrivateKey {
        PrivateKey(bytes)
    }
}

impl From<[u8; 32]> for PrivateKey {
    fn from(bytes: [u8; 32]) -> (key: PrivateKey)
        ensures
            key@ == bytes@,
    {
        PrivateKey(bytes)
    }
}

impl PublicKey {
    /// The key as bytes.
    pub fn as_bytes(&self) -> (bytes: &[u8; 32])
        ensures
            bytes@ == self@,
    {
        &self.0
    }

    /// The key in base64. This is how the key is shown, and reading the text
    /// gives the key back.
    pub fn to_base64(&self) -> (text: String)
        ensures
            text@ == base64_encode(self@),
            reads_as(text@, Ok(self@)),
    {
        encode_standard(&self.0)
    }

    /// Reads a key from base64.
    pub fn from_base64(key: &str) -> (read: Result<PublicKey, InvalidKey>)
        ensures
            match read {
                Ok(read) => reads_as(key@, Ok(read@)),
                Err(error) => reads_as(key@, Err(error)),
            },
    {
        match key_from_base64(key) {
            Ok(bytes) => Ok(PublicKey(bytes)),
            Err(error) => Err(error),
        }
    }

    /// The key made of the given bytes, if there are 32 of them.
    pub fn try_from_slice(public_key: &[u8]) -> (key: Result<PublicKey, InvalidKey>)
        ensures
            match key {
                Ok(key) => public_key@.len() == 32 && key@ == public_key@,
                Err(error) => public_key@.len() != 32 && error == InvalidKey::Length(
                    public_key@.len() as usize,
                ),
            },
    {
        match key_from_bytes(public_key) {
            Ok(bytes) => Ok(PublicKey(bytes)),
            Err(error) => Err(error),
        }
    }
}

impl vstd::std_specs::convert::FromSpecImpl<[u8; 32]> for PublicKey {
    open spec fn obeys_from_spec() -> bool {
        true
    }

    closed spec fn from_spec(public_key: [u8; 32]) -> PublicKey {
        PublicKey(public_key)
    }
}

impl From<[u8; 32]> for PublicKey {
    fn from(public_key: [u8; 32]) -> (key: PublicKey)
        ensures
            key@ == public_key@,
    {
        PublicKey(public_key)
    }
}

impl vstd::std_specs::convert::TryFromSpecImpl<&[u8]> for PublicKey {
    open spec fn obeys_try_from_spec() -> bool {
        true
    }

    closed spec fn try_from_spec(public_key: &[u8]) -> Result<PublicKey, InvalidKey> {
        if public_key@.len() == 32 {
            Ok(PublicKey(choose|key: [u8; 32]| key@ == public_key@))
        } else {
            Err(InvalidKey::Length(public_key@.len() as usize))
        }
    }
}

impl TryFrom<&[u8]> for PublicKey {
    type Error = InvalidKey;

    /// The key made of the given bytes, if there are 32 of them.
    fn try_from(public_key: &[u8]) -> (key: Result<PublicKey, InvalidKey>)
        ensures
            match key {
                Ok(key) => public_key@.len() == 32 && key@ == public_key@,
                Err(error) => public_key@.len() != 32 && error == InvalidKey::Length(
                    public_key@.len() as usize,
                ),
            },
    {
        let key = Self::try_from_slice(public_key);
        proof {
            if let Ok(key) = &key {
                let chosen = choose|chosen: [u8; 32]| chosen@ == public_key@;
                assert(key.0@ == public_key@);
                assert(chosen =~= key.0);
            }
        }
        key
    }
}

impl PresharedKey {
    /// The key as bytes. Copy them as little as possible: every copy is one
    /// more place in memory that holds the secret.
    pub fn as_bytes(&self) -> (bytes: &[u8; 32])
        ensures
            bytes@ == self@,
    {
        &*self.0
    }

    /// The key in base64. This is how the key is shown.
    pub fn to_base64(&self) -> (text: String)
        ensures
            text@ == base64_encode(self@),
    {
        encode_standard(self.as_bytes())
    }
}

impl vstd::std_specs::convert::FromSpecImpl<Box<[u8; 32]>> for PresharedKey {
    open spec fn obeys_from_spec() -> bool {
        true
    }

    closed spec fn from_spec(key: Box<[u8; 32]>) -> PresharedKey {
        PresharedKey(key)
    }
}

impl From<Box<[u8; 32]>> for PresharedKey {
    fn from(key: Box<[u8; 32]>) -> (psk: PresharedKey)
        ensures
            psk@ == key@,
    {
        PresharedKey(key)
    }
}

/// Options that apply to every tunnel of this kind.
#[derive(Clone, Copy, Debug, PartialEq, Eq, Structural)]
pub struct TunnelOptions {
    /// MTU of the tunnel's interface.
    pub mtu: Option<u16>,
    /// Whether a preshared key is negotiated when connecting.
    pub quantum_resistant: bool,
}

/// Options that apply to a tunnel of any kind.
#[derive(Clone, Copy, Debug, PartialEq, Eq, Structural)]
pub struct GenericTunnelOptions {
    /// Whether IPv6 traffic is carried.
    pub enable_ipv6: bool,
}

/// One peer of the tunnel.
#[derive(Debug, PartialEq, Eq, Hash)]
pub struct PeerConfig {
    /// The peer's public key.
    pub public_key: PublicKey,
    /// Addresses that may be routed to the peer.
    pub allowed_ips: Vec<IpNetwork>,
    /// Where the peer is reached.
    pub endpoint: SocketAddr,
    /// The preshared key, where one was negotiated.
    pub psk: Option<PresharedKey>,
}

/// The mathematical value of a [`PeerConfig`].
pub struct PeerConfigView {
    pub public_key: Seq<u8>,
    pub allowed_ips: Seq<IpNetwork>,
    pub endpoint: SocketAddr,
    pub psk: Option<Seq<u8>>,
}

impl View for PeerConfig {
    type V = PeerConfigView;

    open spec fn view(&self) -> PeerConfigView {
        PeerConfigView {
            public_key: self.public_key@,
            allowed_ips: self.allowed_ips@,
            endpoint: self.endpoint,
            psk: match self.psk {
                Some(psk) => Some(psk@),
                None => None,
            },
        }
    }
}

impl Clone for PeerConfig {
    fn clone(&self) -> (copy: PeerConfig)
        ensures
            copy@ == self@,
    {
        PeerConfig {
            public_key: self.public_key.clone(),
            allowed_ips: copy_list(&self.allowed_ips),
            endpoint: self.endpoint,
            psk: match &self.psk {
                Some(psk) => Some(psk.clone()),
                None => None,
            },
        }
    }
}

/// The local end of the tunnel.
#[derive(Debug, PartialEq, Eq)]
pub struct TunnelConfig {
    pub private_key: PrivateKey,
    /// Local addresses that belong to the key pair.
    pub addresses: Vec<IpAddr>,
}

/// The mathematical value of a [`TunnelConfig`].
pub struct TunnelConfigView {
    pub private_key: Seq<u8>,
    pub addresses: Seq<IpAddr>,
}

impl View for TunnelConfig {
    type V = TunnelConfigView;

    open spec fn view(&self) -> TunnelConfigView {
        TunnelConfigView { private_key: self.private_key@, addresses: self.addresses@ }
    }
}

impl Clone for TunnelConfig {
    fn clone(&self) -> (copy: TunnelConfig)
        ensures
            copy@ == self@,
    {
        TunnelConfig {
            private_key: self.private_key.clone(),
            addresses: clone_addresses(&self.addresses),
        }
    }
}

/// What is specific to one connection.
#[derive(Debug, PartialEq, Eq)]
pub struct ConnectionConfig {
    pub tunnel: TunnelConfig,
    /// The peer that the host talks to.
    pub peer: PeerConfig,
    /// The peer at the far end, where traffic takes two hops.
    pub exit_peer: Option<PeerConfig>,
    /// Gateway inside the tunnel (a private address).
    pub ipv4_gateway: Ipv4Addr,
    pub ipv6_gateway: Option<Ipv6Addr>,
    /// Mark set on the tunnel's own packets, where the platform has such marks.
    pub fwmark: Option<u32>,
}

/// The mathematical value of a [`ConnectionConfig`].
pub struct ConnectionConfigView {
    pub tunnel: TunnelConfigView,
    pub peer: PeerConfigView,
    pub exit_peer: Option<PeerConfigView>,
    pub ipv4_gateway: Ipv4Addr,
    pub ipv6_gateway: Option<Ipv6Addr>,
    pub fwmark: Option<u32>,
}

impl View for ConnectionConfig {
    type V = ConnectionConfigView;

    open spec fn view(&self) -> ConnectionConfigView {
        ConnectionConfigView {
            tunnel: self.tunnel@,
            peer: self.peer@,
            exit_peer: match self.exit_peer {
                Some(peer) => Some(peer@),
                None => None,
            },
            ipv4_gateway: self.ipv4_gateway,
            ipv6_gateway: self.ipv6_gateway,
            fwmark: self.fwmark,
        }
    }
}

impl ConnectionConfigView {
    /// Where the first peer is reached.
    pub open spec fn endpoint(self) -> Endpoint {
        Endpoint { address: self.peer.endpoint, protocol: TransportProtocol::Udp }
    }

    /// Where the far peer is reached, if traffic takes two hops.
    pub open spec fn exit_endpoint(self) -> Option<Endpoint> {
        match self.exit_peer {
            Some(peer) => Some(Endpoint { address: peer.endpoint, protocol: TransportProtocol::Udp }),
            None => None,
        }
    }
}

impl Clone for ConnectionConfig {
    fn clone(&self) -> (copy: ConnectionConfig)
        ensures
            copy@ == self@,
    {
        ConnectionConfig {
            tunnel: self.tunnel.clone(),
            peer: self.peer.clone(),
            exit_peer: match &self.exit_peer {
                Some(peer) => Some(peer.clone()),
                None => None,
            },
            ipv4_gateway: self.ipv4_gateway,
            ipv6_gateway: self.ipv6_gateway,
            fwmark: self.fwmark,
        }
    }
}

impl ConnectionConfig {
    /// Where the first peer is reached.
    pub fn get_endpoint(&self) -> (endpoint: Endpoint)
        ensures
            endpoint == self@.endpoint(),
    {
        Endpoint { address: self.peer.endpoint, protocol: TransportProtocol::Udp }
    }

    /// Where the far peer is reached, if traffic takes two hops.
    pub fn get_exit_endpoint(&self) -> (endpoint: Option<Endpoint>)
        ensures
            endpoint == self@.exit_endpoint(),
    {
        match &self.exit_peer {
            Some(peer) => Some(Endpoint { address: peer.endpoint, protocol: TransportProtocol::Udp }),
            None => None,
        }
    }
}

/// Everything needed to start a tunnel. It is never changed once made.
#[derive(Debug, PartialEq, Eq)]
pub struct TunnelParameters {
    pub connection: ConnectionConfig,
    pub options: TunnelOptions,
    pub generic_options: GenericTunnelOptions,
    /// The outer transport, where the tunnel's traffic is disguised.
    pub obfuscation: Option<ObfuscatorConfig>,
}

/// The mathematical value of a [`TunnelParameters`].
pub struct TunnelParametersView {
    pub connection: ConnectionConfigView,
    pub options: TunnelOptions,
    pub generic_options: GenericTunnelOptions,
    pub obfuscation: Option<ObfuscatorConfig>,
}

impl View for TunnelParameters {
    type V = TunnelParametersView;

    open spec fn view(&self) -> TunnelParametersView {
        TunnelParametersView {
            connection: self.connection@,
            options: self.options,
            generic_options: self.generic_options,
            obfuscation: self.obfuscation,
        }
    }
}

impl TunnelParametersView {
    /// The endpoint that the host itself connects to: that of the obfuscator
    /// where there is one, else that of the first peer.
    pub open spec fn next_hop_endpoint(self) -> Endpoint {
        match self.obfuscation {
            Some(obfuscation) => obfuscation.obfuscator_endpoint(),
            None => self.connection.endpoint(),
        }
    }
}

impl TunnelParametersView {
    /// The tunnel's endpoint as shown outside: the far peer, and the first
    /// peer where they differ. No interface is named yet.
    pub open spec fn tunnel_endpoint(self) -> TunnelEndpointView {
        TunnelEndpointView {
            endpoint: match self.connection.exit_endpoint() {
                Some(exit) => exit,
                None => self.connection.endpoint(),
            },
            quantum_resistant: self.options.quantum_resistant,
            entry_endpoint: match self.connection.exit_endpoint() {
                Some(_) => Some(self.connection.endpoint()),
                None => None,
            },
            tunnel_interface: None,
        }
    }
}

impl Clone for TunnelParameters {
    fn clone(&self) -> (copy: TunnelParameters)
        ensures
            copy@ == self@,
    {
        TunnelParameters {
            connection: self.connection.clone(),
            options: self.options,
            generic_options: self.generic_options,
            obfuscation: self.obfuscation,
        }
    }
}

impl TunnelParameters {
    /// The tunnel's endpoint as shown outside: the far peer, and the first
    /// peer where they differ. No interface is named yet.
    pub fn get_tunnel_endpoint(&self) -> (endpoint: TunnelEndpoint)
        ensures
            endpoint@ == self@.tunnel_endpoint(),
    {
        let exit = self.connection.get_exit_endpoint();
        TunnelEndpoint {
            endpoint: match exit {
                Some(exit) => exit,
                None => self.connection.get_endpoint(),
            },
            quantum_resistant: self.options.quantum_resistant,
            entry_endpoint: match exit {
                Some(_) => Some(self.connection.get_endpoint()),
                None => None,
            },
            tunnel_interface: None,
        }
    }

    /// The endpoint that the host itself connects to: that of the obfuscator
    /// where there is one, else that of the first peer.
    pub fn get_next_hop_endpoint(&self) -> (endpoint: Endpoint)
        ensures
            endpoint == self@.next_hop_endpoint(),
    {
        match &self.obfuscation {
            Some(obfuscation) => obfuscation.get_obfuscator_endpoint(),
            None => self.connection.get_endpoint(),
        }
    }
}

} // verus!
