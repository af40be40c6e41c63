//! Verified core for querying the network interfaces of an ESP device: which
//! selector names an interface in a platform call, and what the bytes that the
//! platform handed back mean.

pub mod byte_order;
pub mod interface;
pub mod ip_info;
pub mod mac;
pub mod status;

pub use interface::{AdapterType, Interface, MacType};
pub use ip_info::{IpInfo, IpInfoLayout};
pub use mac::MacAddress;
pub use status::{EspError, ESP_OK};
