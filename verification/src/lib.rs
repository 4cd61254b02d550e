//! Control core of a VPN client: the tunnel state machine together with the
//! value types it works on and the decisions of the programs around it.

pub mod client;
pub mod cmds;
pub mod dns;
pub mod firewall;
pub mod https_client_with_sni;
pub mod net;
pub mod netlink_tunnel;
pub mod proxy;
pub mod text;
pub mod tunnel;
pub mod tunnel_state_machine;
pub mod wireguard;
