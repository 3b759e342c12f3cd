//! The adapter's configuration record.
//!
//! Three fields: whether the server is enabled, the IPv4 address to listen
//! on, and the port. The record is immutable after construction; the default
//! is the loopback address on port 5053 with the server enabled. The one
//! computation made from it is the `address:port` string handed to the
//! listener, specified exactly by [`server_address_chars`].

use vstd::prelude::*;
use vstd::string::StringExecFns;
use crate::text::chars_to_string;
use crate::text::dec_chars;
use crate::text::dec_seq;

verus! {

/// An IPv4 address, held as its four octets in order.
#[derive(Debug, Clone, Copy, PartialEq, Eq)]
pub struct Ipv4Address {
    /// The four octets, most significant first: `127.0.0.1` is
    /// `[127, 0, 0, 1]`.
    pub octets: [u8; 4],
}

/// The core configuration of the WebSocket notification server.
#[derive(Debug, Clone, Copy, PartialEq, Eq)]
pub struct Config {
    /// Whether the server should be started at all.
    pub enabled: bool,
    /// The IPv4 address the server will listen on.
    pub listen_address: Ipv4Address,
    /// The port the server will listen on.
    pub port: u16,
}

impl Ipv4Address {
    /// The address with the given octets, most significant first.
    pub fn new(a: u8, b: u8, c: u8, d: u8) -> (r: Self)
        ensures
            r.octets@ == seq![a, b, c, d],
    {
        let r = Ipv4Address { octets: [a, b, c, d] };
        proof {
            assert(r.octets@ =~= seq![a, b, c, d]);
        }
        r
    }
}

/// The dotted-quad rendering of `addr`, for example `127.0.0.1`.
pub open spec fn address_chars(addr: Ipv4Address) -> Seq<char> {
    dec_seq(addr.octets[0] as nat) + "."@ + dec_seq(addr.octets[1] as nat) + "."@ + dec_seq(
        addr.octets[2] as nat,
    ) + "."@ + dec_seq(addr.octets[3] as nat)
}

/// The `address:port` string for `config`, for example `127.0.0.1:5053`.
pub open spec fn server_address_chars(config: Config) -> Seq<char> {
    address_chars(config.listen_address) + ":"@ + dec_seq(config.port as nat)
}

impl Default for Config {
    /// The default configuration: enabled, listening on loopback port 5053.
    fn default() -> (r: Self)
        ensures
            r.enabled == true,
            r.listen_address.octets@ == seq![127u8, 0u8, 0u8, 1u8],
            r.port == 5053,
    {
        Config { enabled: true, listen_address: Ipv4Address::new(127, 0, 0, 1), port: 5053 }
    }
}

/// The `address:port` string the listener is asked to bind, exactly as
/// [`server_address_chars`] gives it.
pub fn server_address(config: &Config) -> (r: String)
    ensures
        r@ == server_address_chars(*config),
{
    let mut out = String::new();
    let o0 = chars_to_string(dec_chars(config.listen_address.octets[0] as u64));
    out.append(o0.as_str());
    out.append(".");
    let o1 = chars_to_string(dec_chars(config.listen_address.octets[1] as u64));
    out.append(o1.as_str());
    out.append(".");
    let o2 = chars_to_string(dec_chars(config.listen_address.octets[2] as u64));
    out.append(o2.as_str());
    out.append(".");
    let o3 = chars_to_string(dec_chars(config.listen_address.octets[3] as u64));
    out.append(o3.as_str());
    out.append(":");
    let p = chars_to_string(dec_chars(config.port as u64));
    out.append(p.as_str());
    proof {
        assert(out@ =~= server_address_chars(*config));
    }
    out
}

} // verus!
