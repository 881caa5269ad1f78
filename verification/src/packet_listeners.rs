pub mod arp_listener;
pub mod ipv4_tcp_listener;
pub mod ipv4_udp_listener;
pub mod listener;
