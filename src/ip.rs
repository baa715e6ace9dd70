//! Network interfaces, as the desktop launcher lists them.
use vstd::prelude::*;

verus! {

/// The address family of an interface address.
#[derive(Clone, Copy, Debug, PartialEq, Eq, Structural)]
pub enum IpFamily {
    IPV4,
    IPV6,
}

/// One address of a network interface.
#[derive(Clone, Debug)]
pub struct NetInterface {
    pub name: String,
    pub family: IpFamily,
    pub ip: String,
}

impl NetInterface {
    /// The interface `name` with an address of the given family, written out.
    pub fn new(name: String, is_ipv4: bool, ip: String) -> (r: NetInterface)
        ensures
            r.name == name,
            r.family == (if is_ipv4 {
                IpFamily::IPV4
            } else {
                IpFamily::IPV6
            }),
            r.ip == ip,
    {
        let family = if is_ipv4 {
            IpFamily::IPV4
        } else {
            IpFamily::IPV6
        };
        NetInterface { name, family, ip }
    }
}

} // verus!
