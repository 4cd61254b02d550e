use talpid_core::net::{IpAddr, IpNetwork, Ipv4Addr, Ipv6Addr};
use talpid_core::wireguard::{InvalidKey, PresharedKey, PrivateKey, PublicKey};

const ZERO_KEY: &str = "AAAAAAAAAAAAAAAAAAAAAAAAAAAAAAAAAAAAAAAAAAA=";

fn from_hex(hex: &str) -> [u8; 32] {
    let mut bytes = [0u8; 32];
    for (i, byte) in bytes.iter_mut().enumerate() {
        *byte = u8::from_str_radix(&hex[2 * i..2 * i + 2], 16).unwrap();
    }
    bytes
}

#[test]
fn keys_are_shown_in_base64() {
    assert_eq!(PublicKey::from([0u8; 32]).to_base64(), ZERO_KEY);
    assert_eq!(PrivateKey::from([0u8; 32]).to_base64(), ZERO_KEY);
    assert_eq!(PresharedKey::from(Box::new([0u8; 32])).to_base64(), ZERO_KEY);
    let mut bytes = [0u8; 32];
    for (i, byte) in bytes.iter_mut().enumerate() {
        *byte = i as u8;
    }
    assert_eq!(
        PublicKey::from(bytes).to_base64(),
        "AAECAwQFBgcICQoLDA0ODxAREhMUFRYXGBkaGxwdHh8="
    );
}

#[test]
fn keys_are_read_from_base64() {
    let mut bytes = [0u8; 32];
    for (i, byte) in bytes.iter_mut().enumerate() {
        *byte = i as u8;
    }
    let key = PublicKey::from_base64("AAECAwQFBgcICQoLDA0ODxAREhMUFRYXGBkaGxwdHh8=").unwrap();
    assert_eq!(key.as_bytes(), &bytes);
    assert_eq!(key, PublicKey::from(bytes));
    let key = PrivateKey::from_base64("AAECAwQFBgcICQoLDA0ODxAREhMUFRYXGBkaGxwdHh8=").unwrap();
    assert_eq!(key.to_bytes(), bytes);
    assert_eq!(PrivateKey::from_base64(&key.to_base64()).unwrap(), key);
}

#[test]
fn what_is_no_key_is_refused() {
    assert!(matches!(PublicKey::from_base64("not base64!"), Err(InvalidKey::Format(_))));
    assert!(matches!(PrivateKey::from_base64("AAAA="), Err(InvalidKey::Format(_))));
    assert_eq!(PublicKey::from_base64("AAAA"), Err(InvalidKey::Length(3)));
    assert_eq!(PrivateKey::from_base64(""), Err(InvalidKey::Length(0)));
    assert_eq!(PublicKey::try_from_slice(&[1u8; 31]), Err(InvalidKey::Length(31)));
    assert_eq!(PublicKey::try_from_slice(&[1u8; 33]), Err(InvalidKey::Length(33)));
    assert_eq!(PublicKey::try_from_slice(&[1u8; 32]), Ok(PublicKey::from([1u8; 32])));
    assert_eq!(talpid_core::wireguard::key_from_bytes(&[5u8; 32]), Ok([5u8; 32]));
}

#[test]
fn the_public_key_belongs_to_the_private_key() {
    let private =
        PrivateKey::from(from_hex("77076d0a7318a57d3c16c17251b26645df4c2f87ebc0992ab177fba51db92c2a"));
    let public = from_hex("8520f0098930a754748b7ddcb43ef75a0dbf3a0d26381af4eba4a98eaa9b4e6a");
    assert_eq!(private.public_key().as_bytes(), &public);
    assert_eq!(private.public_key(), PublicKey::from(public));
}

#[test]
fn random_keys_are_keys() {
    let one = PrivateKey::new_from_random();
    let other = PrivateKey::new_from_random();
    assert_ne!(one, other);
    assert_eq!(PrivateKey::from(one.to_bytes()), one);
    assert_eq!(one.clone().public_key(), one.public_key());
}

#[test]
fn preshared_keys_keep_their_bytes() {
    let key = PresharedKey::from(Box::new([42u8; 32]));
    assert_eq!(key.as_bytes(), &[42u8; 32]);
    assert_eq!(key.clone(), key);
}

#[test]
fn networks_have_prefixes_that_fit_their_family() {
    let v4 = IpAddr::V4(Ipv4Addr::new(10, 0, 0, 0));
    let v6 = IpAddr::V6(Ipv6Addr { bits: 0 });
    assert_eq!(IpNetwork::new(v4, 8), Some(IpNetwork { ip: v4, prefix: 8 }));
    assert_eq!(IpNetwork::new(v4, 32), Some(IpNetwork { ip: v4, prefix: 32 }));
    assert_eq!(IpNetwork::new(v4, 33), None);
    assert_eq!(IpNetwork::new(v6, 128), Some(IpNetwork { ip: v6, prefix: 128 }));
    assert_eq!(IpNetwork::new(v6, 129), None);
}
