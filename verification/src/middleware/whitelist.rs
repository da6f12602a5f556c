//! The IP whitelist: which clients may use the service.

use vstd::prelude::*;

verus! {

/// An IP address by its number: 32 bits for version 4, 128 for version 6.
#[derive(Debug, Clone, Copy, PartialEq, Eq, Structural)]
pub enum IpAddress {
    V4(u32),
    V6(u128),
}

impl IpAddress {
    /// Whether the address is a loopback address: `127.0.0.0/8`, or `::1`.
    pub open spec fn is_loopback(self) -> bool {
        match self {
            IpAddress::V4(number) => 0x7f00_0000 <= number <= 0x7fff_ffff,
            IpAddress::V6(number) => number == 1,
        }
    }

    /// Whether the address is a loopback address.
    pub fn loopback(&self) -> (r: bool)
        ensures
            r == self.is_loopback(),
    {
        match self {
            IpAddress::V4(number) => 0x7f00_0000 <= *number && *number <= 0x7fff_ffff,
            IpAddress::V6(number) => *number == 1,
        }
    }
}

/// Whether the whitelist is in force, and the addresses it lets through.
#[derive(Debug, Clone)]
pub struct WhitelistConfig {
    pub enabled: bool,
    pub allowed_ips: Vec<IpAddress>,
}

/// What the whitelist says of a request.
#[derive(Debug, Clone, Copy, PartialEq, Eq, Structural)]
pub enum Admission {
    /// The request goes on.
    Allowed,
    /// The client's address is not let through: 403.
    Denied,
    /// The client's address is not known: 403.
    Unknown,
}

impl WhitelistConfig {
    /// Whether an address is let through: every address while the whitelist
    /// is not in force; else loopback addresses and the listed ones.
    pub open spec fn allows(self, ip: IpAddress) -> bool {
        !self.enabled || ip.is_loopback() || self.allowed_ips@.contains(ip)
    }

    /// Whether a request is let through: every request while the whitelist
    /// is not in force; else those of clients whose address is known and
    /// let through.
    pub open spec fn admission(self, client: Option<IpAddress>) -> Admission {
        if !self.enabled {
            Admission::Allowed
        } else {
            match client {
                None => Admission::Unknown,
                Some(ip) => if self.allows(ip) {
                    Admission::Allowed
                } else {
                    Admission::Denied
                },
            }
        }
    }

    /// Whether an address is let through.
    pub fn is_allowed(&self, ip: &IpAddress) -> (r: bool)
        ensures
            r == self.allows(*ip),
    {
        if !self.enabled {
            return true;
        }
        if ip.loopback() {
            return true;
        }
        let mut i: usize = 0;
        while i < self.allowed_ips.len()
            invariant
                i <= self.allowed_ips.len(),
                forall|j: int| 0 <= j < i ==> self.allowed_ips@[j] != *ip,
            decreases self.allowed_ips.len() - i,
        {
            if self.allowed_ips[i] == *ip {
                return true;
            }
            i += 1;
        }
        false
    }

    /// What the whitelist says of a request from the given client.
    pub fn decide(&self, client: Option<&IpAddress>) -> (r: Admission)
        ensures
            r == self.admission(
                match client {
                    Some(ip) => Some(*ip),
                    None => None,
                },
            ),
    {
        if !self.enabled {
            return Admission::Allowed;
        }
        match client {
            None => Admission::Unknown,
            Some(ip) => if self.is_allowed(ip) {
                Admission::Allowed
            } else {
                Admission::Denied
            },
        }
    }
}

/// Loopback addresses are always let through.
pub proof fn lemma_loopback_is_always_allowed(config: WhitelistConfig, ip: IpAddress)
    requires
        ip.is_loopback(),
    ensures
        config.allows(ip),
        config.admission(Some(ip)) == Admission::Allowed,
{
}

} // verus!
