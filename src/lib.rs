//! Verified core of a mesh-VPN peer daemon: packet-info framing for a
//! layer-3 tunnel device, the virtual NIC lifecycle, center-peer election,
//! the periodic coordinator jobs and the route-cost snapshot.

pub mod center;
pub mod nic;
pub mod packet;
pub mod peer_map;
pub mod route_cost;
