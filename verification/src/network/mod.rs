//! The network: interfaces, neighbours, routes and name servers.

pub mod arp_table;
pub mod dev;
pub mod dns_server;
pub mod routing_table;
