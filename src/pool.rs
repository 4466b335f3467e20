//! The pool endpoint handed out by the discovery service.
use vstd::prelude::*;
use vstd::string::StringExecFns;
use crate::codec::{dec_chars, decimal_text};
use crate::text::{decimal_value, parse_decimal};

verus! {

/// The port taken when discovery gives none that can be read.
pub const DEFAULT_PORT: u16 = 2813;

/// Where a pool listens.
pub struct PoolEndpoint {
    pub name: String,
    pub address: String,
    pub port: u16,
}

/// The port that discovery's port text gives, or the default one.
pub open spec fn port_of(text: Seq<u8>) -> u16 {
    match decimal_value(text) {
        Some(v) => if v <= u16::MAX {
            v as u16
        } else {
            DEFAULT_PORT
        },
        None => DEFAULT_PORT,
    }
}

impl PoolEndpoint {
    /// The endpoint from the three fields of a discovery answer; the port
    /// arrives as text.
    pub fn from_discovery(name: String, address: String, port_text: &[u8]) -> (r: PoolEndpoint)
        ensures
            r.name@ == name@,
            r.address@ == address@,
            r.port == port_of(port_text@),
    {
        let port = match parse_decimal(port_text, u16::MAX as u64) {
            Some(p) => p as u16,
            None => DEFAULT_PORT,
        };
        PoolEndpoint { name, address, port }
    }

    /// The `address:port` text to connect to.
    pub fn socket_text(&self) -> (r: String)
        ensures
            r@ == self.address@ + ":"@ + dec_chars(self.port as nat),
    {
        let port = decimal_text(self.port as u64);
        self.address.clone().concat(":").concat(port.as_str())
    }
}

} // verus!
