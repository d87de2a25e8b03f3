//! The decisions that starting the server makes: the log filter, the address it
//! listens on, and whether it serves static files.
use vstd::prelude::*;

use crate::configuration::ApplicationSettings;

verus! {

broadcast use vstd::string::group_string_axioms;

/// An IP address: four bytes, or eight 16-bit segments.
#[derive(Debug)]
pub enum IpAddress {
    V4([u8; 4]),
    V6([u16; 8]),
}

/// The IPv6 loopback address `::1`.
pub open spec fn is_ipv6_loopback(ip: IpAddress) -> bool {
    ip matches IpAddress::V6(segments) && segments@ == seq![0u16, 0, 0, 0, 0, 0, 0, 1]
}

/// The address and port that the server listens on.
#[derive(Debug)]
pub struct SocketAddress {
    pub ip: IpAddress,
    pub port: u16,
}

/// The address that the server listens on: the configured address where it is an IP
/// address (`parsed` is what parsing it gave), and the IPv6 loopback address otherwise.
pub fn listen_address(parsed: Option<IpAddress>, port: u16) -> (address: SocketAddress)
    ensures
        address.port == port,
        parsed is Some ==> Some(address.ip) == parsed,
        parsed is None ==> is_ipv6_loopback(address.ip),
{
    let ip = match parsed {
        Some(ip) => ip,
        None => IpAddress::V6([0, 0, 0, 0, 0, 0, 0, 1]),
    };
    SocketAddress { ip, port }
}

/// The log filter that is used where none is set: the configured level, with the
/// HTTP server and event loop crates at "info".
pub fn default_log_filter(log_level: &str) -> (filter: String)
    ensures
        filter@ == log_level@ + ",hyper=info,mio=info"@,
{
    let mut filter = log_level.to_string();
    filter.append(",hyper=info,mio=info");
    filter
}

/// The directory of static files that the server serves, where one is configured: an
/// empty directory setting serves none.
pub fn static_files_dir(application: &ApplicationSettings) -> (dir: Option<String>)
    ensures
        dir is Some <==> application.static_dir@.len() > 0,
        dir matches Some(d) ==> d@ == application.static_dir@,
{
    if application.static_dir.as_str().is_empty() {
        None
    } else {
        Some(application.static_dir.clone())
    }
}

} // verus!
