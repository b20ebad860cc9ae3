//! Destination addresses.
//!
//! A destination is either a literal socket address or a domain name plus a
//! port. The engine only ever reads a socket address's textual form and
//! compares it for equality, so it is carried here as that text.

use crate::decimal::{spec_dec, u64_to_dec};
use vstd::prelude::*;
use vstd::string::StringExecFns;

verus! {

/// The destination of a flow.
#[derive(Clone, Debug)]
pub enum Address {
    /// A literal socket address, carried as its textual form
    /// (for example `"93.184.216.34:443"`).
    SocketAddress(String),
    /// A domain name and a port.
    DomainNameAddress(String, u16),
}

/// The key under which the rule set is consulted for a destination: the
/// socket address's text, or the bare domain (the port is ignored).
pub open spec fn spec_lookup_key(addr: Address) -> Seq<char> {
    match addr {
        Address::SocketAddress(s) => s@,
        Address::DomainNameAddress(d, _) => d@,
    }
}

/// The textual form of a destination, as the lifecycle lines print it:
/// the socket address text itself, or `domain:port`.
pub open spec fn spec_address_text(addr: Address) -> Seq<char> {
    match addr {
        Address::SocketAddress(s) => s@,
        Address::DomainNameAddress(d, p) => d@ + ":"@ + spec_dec(p as nat),
    }
}

impl Address {
    /// Compute the rule-lookup key for this destination.
    pub fn lookup_key(&self) -> (r: String)
        ensures
            r@ == spec_lookup_key(*self),
    {
        match self {
            Address::SocketAddress(s) => s.clone(),
            Address::DomainNameAddress(d, _) => d.clone(),
        }
    }

    /// Render this destination as text.
    pub fn to_text(&self) -> (r: String)
        ensures
            r@ == spec_address_text(*self),
    {
        match self {
            Address::SocketAddress(s) => s.clone(),
            Address::DomainNameAddress(d, p) => {
                let mut s = d.clone();
                s.append(":");
                let port = u64_to_dec(*p as u64);
                s.append(port.as_str());
                proof {
                    assert(s@ =~= spec_address_text(*self));
                }
                s
            },
        }
    }
}

} // verus!
