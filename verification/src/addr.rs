//! Plain-value model of network addresses.
//!
//! The transport layer reasons about addresses as integers: an IPv4 address
//! is its 32 bits, an IPv6 address its 128 bits, both in the usual textual
//! order (the first octet is the most significant). Conversions to octets
//! and 16-bit groups are what the OS socket calls are handed; a
//! fixed-width textual form serves error messages.

use vstd::prelude::*;

use crate::bytes::{hex_upper, push_char};

verus! {

/// The decimal digit character for a value below ten.
pub open spec fn dec_digit(n: u8) -> char
    recommends
        n < 10,
{
    ((48 + n) as u8) as char
}

/// The three-digit decimal text of a byte, zero-padded.
pub open spec fn dec3_text(n: u8) -> Seq<char> {
    seq![dec_digit(n / 100), dec_digit((n / 10) % 10), dec_digit(n % 10)]
}

/// The five-digit decimal text of a port number, zero-padded.
pub open spec fn dec5_text(n: u16) -> Seq<char> {
    seq![
        dec_digit((n / 10000) as u8),
        dec_digit(((n / 1000) % 10) as u8),
        dec_digit(((n / 100) % 10) as u8),
        dec_digit(((n / 10) % 10) as u8),
        dec_digit((n % 10) as u8),
    ]
}

/// The four-digit hexadecimal text of a 16-bit group, zero-padded.
pub open spec fn hex4_text(g: u16) -> Seq<char> {
    seq![
        hex_upper((g >> 12) as u8),
        hex_upper(((g >> 8) & 0xF) as u8),
        hex_upper(((g >> 4) & 0xF) as u8),
        hex_upper((g & 0xF) as u8),
    ]
}

/// Appends the three-digit decimal text of a byte.
fn push_dec3(s: &mut String, n: u8)
    ensures
        final(s)@ == old(s)@ + dec3_text(n),
{
    push_char(s, (48 + n / 100) as char);
    push_char(s, (48 + (n / 10) % 10) as char);
    push_char(s, (48 + n % 10) as char);
    proof {
        assert(s@ =~= old(s)@ + dec3_text(n));
    }
}

/// Appends the five-digit decimal text of a port number.
fn push_dec5(s: &mut String, n: u16)
    ensures
        final(s)@ == old(s)@ + dec5_text(n),
{
    push_char(s, (48 + (n / 10000) as u8) as char);
    push_char(s, (48 + ((n / 1000) % 10) as u8) as char);
    push_char(s, (48 + ((n / 100) % 10) as u8) as char);
    push_char(s, (48 + ((n / 10) % 10) as u8) as char);
    push_char(s, (48 + (n % 10) as u8) as char);
    proof {
        assert(s@ =~= old(s)@ + dec5_text(n));
    }
}

/// The upper-case hexadecimal digit character for a value below sixteen.
fn hex_char(d: u8) -> (c: char)
    requires
        d < 16,
    ensures
        c == hex_upper(d),
{
    if d < 10 {
        (48 + d) as char
    } else {
        (55 + d) as char
    }
}

/// Appends the four-digit hexadecimal text of a 16-bit group.
fn push_hex4(s: &mut String, g: u16)
    ensures
        final(s)@ == old(s)@ + hex4_text(g),
{
    proof {
        assert(g >> 12 < 16 && (g >> 8) & 0xF < 16 && (g >> 4) & 0xF < 16 && g & 0xF < 16)
            by (bit_vector);
    }
    let c0 = hex_char((g >> 12) as u8);
    let c1 = hex_char(((g >> 8) & 0xF) as u8);
    let c2 = hex_char(((g >> 4) & 0xF) as u8);
    let c3 = hex_char((g & 0xF) as u8);
    push_char(s, c0);
    push_char(s, c1);
    push_char(s, c2);
    push_char(s, c3);
    proof {
        assert(s@ =~= old(s)@ + hex4_text(g));
    }
}

/// The 32 bits of an IPv4 address assembled from its four octets.
pub open spec fn spec_v4_bits(a: u8, b: u8, c: u8, d: u8) -> u32 {
    ((a as u32) << 24) | ((b as u32) << 16) | ((c as u32) << 8) | (d as u32)
}

/// An IPv4 address as its 32 bits, first octet most significant.
#[derive(Clone, Copy, Debug, PartialEq, Eq, Structural)]
pub struct Ipv4Addr {
    pub bits: u32,
}

impl Ipv4Addr {
    /// Builds the address `a.b.c.d`.
    pub fn new(a: u8, b: u8, c: u8, d: u8) -> (r: Ipv4Addr)
        ensures
            r.bits == spec_v4_bits(a, b, c, d),
    {
        Ipv4Addr { bits: ((a as u32) << 24) | ((b as u32) << 16) | ((c as u32) << 8) | (d as u32) }
    }

    /// The wildcard address `0.0.0.0`.
    pub fn unspecified() -> (r: Ipv4Addr)
        ensures
            r.bits == 0,
    {
        Ipv4Addr { bits: 0 }
    }

    /// The four octets, first octet first.
    pub fn octets(&self) -> (r: [u8; 4])
        ensures
            r@ == seq![
                (self.bits >> 24) as u8,
                (self.bits >> 16) as u8,
                (self.bits >> 8) as u8,
                self.bits as u8,
            ],
    {
        let r = [(self.bits >> 24) as u8, (self.bits >> 16) as u8, (self.bits >> 8) as u8,
            self.bits as u8];
        proof {
            assert(r@ =~= seq![
                (self.bits >> 24) as u8,
                (self.bits >> 16) as u8,
                (self.bits >> 8) as u8,
                self.bits as u8,
            ]);
        }
        r
    }
}

/// An IPv6 address as its 128 bits, first octet most significant.
#[derive(Clone, Copy, Debug, PartialEq, Eq, Structural)]
pub struct Ipv6Addr {
    pub bits: u128,
}

impl Ipv6Addr {
    /// Builds the address `a:b:c:d:e:f:g:h` from its 16-bit groups.
    pub fn new(a: u16, b: u16, c: u16, d: u16, e: u16, f: u16, g: u16, h: u16) -> (r: Ipv6Addr)
        ensures
            r.bits == ((a as u128) << 112) | ((b as u128) << 96) | ((c as u128) << 80) | ((
            d as u128) << 64) | ((e as u128) << 48) | ((f as u128) << 32) | ((g as u128) << 16) | (
            h as u128),
    {
        Ipv6Addr {
            bits: ((a as u128) << 112) | ((b as u128) << 96) | ((c as u128) << 80) | ((
            d as u128) << 64) | ((e as u128) << 48) | ((f as u128) << 32) | ((g as u128) << 16) | (
            h as u128),
        }
    }

    /// The wildcard address `::`.
    pub fn unspecified() -> (r: Ipv6Addr)
        ensures
            r.bits == 0,
    {
        Ipv6Addr { bits: 0 }
    }

    /// The eight 16-bit groups, first group first.
    pub fn groups(&self) -> (r: [u16; 8])
        ensures
            r@ == seq![
                (self.bits >> 112) as u16,
                (self.bits >> 96) as u16,
                (self.bits >> 80) as u16,
                (self.bits >> 64) as u16,
                (self.bits >> 48) as u16,
                (self.bits >> 32) as u16,
                (self.bits >> 16) as u16,
                self.bits as u16,
            ],
    {
        let r = [(self.bits >> 112) as u16, (self.bits >> 96) as u16, (self.bits >> 80) as u16, (
        self.bits >> 64) as u16, (self.bits >> 48) as u16, (self.bits >> 32) as u16, (self.bits
            >> 16) as u16, self.bits as u16];
        proof {
            assert(r@ =~= seq![
                (self.bits >> 112) as u16,
                (self.bits >> 96) as u16,
                (self.bits >> 80) as u16,
                (self.bits >> 64) as u16,
                (self.bits >> 48) as u16,
                (self.bits >> 32) as u16,
                (self.bits >> 16) as u16,
                self.bits as u16,
            ]);
        }
        r
    }

    /// The sixteen octets, first octet first.
    pub fn octets(&self) -> (r: [u8; 16])
        ensures
            r@ == seq![
                (self.bits >> 120) as u8,
                (self.bits >> 112) as u8,
                (self.bits >> 104) as u8,
                (self.bits >> 96) as u8,
                (self.bits >> 88) as u8,
                (self.bits >> 80) as u8,
                (self.bits >> 72) as u8,
                (self.bits >> 64) as u8,
                (self.bits >> 56) as u8,
                (self.bits >> 48) as u8,
                (self.bits >> 40) as u8,
                (self.bits >> 32) as u8,
                (self.bits >> 24) as u8,
                (self.bits >> 16) as u8,
                (self.bits >> 8) as u8,
                self.bits as u8,
            ],
    {
        let b = self.bits;
        let r = [(b >> 120) as u8, (b >> 112) as u8, (b >> 104) as u8, (b >> 96) as u8, (b
            >> 88) as u8, (b >> 80) as u8, (b >> 72) as u8, (b >> 64) as u8, (b >> 56) as u8, (b
            >> 48) as u8, (b >> 40) as u8, (b >> 32) as u8, (b >> 24) as u8, (b >> 16) as u8, (b
            >> 8) as u8, b as u8];
        proof {
            assert(r@ =~= seq![
                (b >> 120) as u8,
                (b >> 112) as u8,
                (b >> 104) as u8,
                (b >> 96) as u8,
                (b >> 88) as u8,
                (b >> 80) as u8,
                (b >> 72) as u8,
                (b >> 64) as u8,
                (b >> 56) as u8,
                (b >> 48) as u8,
                (b >> 40) as u8,
                (b >> 32) as u8,
                (b >> 24) as u8,
                (b >> 16) as u8,
                (b >> 8) as u8,
                b as u8,
            ]);
        }
        r
    }
}

/// A local or remote IP address of either family.
#[derive(Clone, Copy, Debug, PartialEq, Eq, Structural)]
pub enum IpAddr {
    V4(Ipv4Addr),
    V6(Ipv6Addr),
}

impl IpAddr {
    /// True if the address is IPv4.
    pub fn is_ipv4(&self) -> (r: bool)
        ensures
            r == self is V4,
    {
        match self {
            IpAddr::V4(_) => true,
            IpAddr::V6(_) => false,
        }
    }

    /// True if the address is IPv6.
    pub fn is_ipv6(&self) -> (r: bool)
        ensures
            r == self is V6,
    {
        match self {
            IpAddr::V4(_) => false,
            IpAddr::V6(_) => true,
        }
    }
}

/// Two addresses of the same family.
pub open spec fn same_family(a: IpAddr, b: IpAddr) -> bool {
    (a is V4 && b is V4) || (a is V6 && b is V6)
}

/// The dotted-decimal text of an IPv4 address, each octet zero-padded to
/// three digits.
pub open spec fn v4_text(a: Ipv4Addr) -> Seq<char> {
    dec3_text((a.bits >> 24) as u8) + seq!['.'] + dec3_text((a.bits >> 16) as u8) + seq!['.']
        + dec3_text((a.bits >> 8) as u8) + seq!['.'] + dec3_text(a.bits as u8)
}

/// The colon-separated text of an IPv6 address, each group zero-padded to
/// four hexadecimal digits.
pub open spec fn v6_text(a: Ipv6Addr) -> Seq<char> {
    hex4_text((a.bits >> 112) as u16) + seq![':'] + hex4_text((a.bits >> 96) as u16) + seq![':']
        + hex4_text((a.bits >> 80) as u16) + seq![':'] + hex4_text((a.bits >> 64) as u16)
        + seq![':'] + hex4_text((a.bits >> 48) as u16) + seq![':'] + hex4_text(
        (a.bits >> 32) as u16,
    ) + seq![':'] + hex4_text((a.bits >> 16) as u16) + seq![':'] + hex4_text(a.bits as u16)
}

/// The text of an `(address, port)` pair: the address, an IPv6 one in
/// brackets, then a colon and the zero-padded decimal port.
pub open spec fn sockaddr_text(sa: SocketAddr) -> Seq<char> {
    match sa.ip {
        IpAddr::V4(a) => v4_text(a) + seq![':'] + dec5_text(sa.port),
        IpAddr::V6(a) => seq!['['] + v6_text(a) + seq![']'] + seq![':'] + dec5_text(sa.port),
    }
}

/// An `(address, port)` pair.
#[derive(Clone, Copy, Debug, PartialEq, Eq, Structural)]
pub struct SocketAddr {
    pub ip: IpAddr,
    pub port: u16,
}

impl SocketAddr {
    pub fn new(ip: IpAddr, port: u16) -> (r: SocketAddr)
        ensures
            r == (SocketAddr { ip, port }),
    {
        SocketAddr { ip, port }
    }

    /// The address part.
    pub fn ip(&self) -> (r: IpAddr)
        ensures
            r == self.ip,
    {
        self.ip
    }

    /// The port part.
    pub fn port(&self) -> (r: u16)
        ensures
            r == self.port,
    {
        self.port
    }

    /// The pair as text, for error messages: the address — zero-padded,
    /// an IPv6 one in brackets — then a colon and the decimal port.
    pub fn text(&self) -> (r: String)
        ensures
            r@ == sockaddr_text(*self),
    {
        let mut s = String::new();
        match self.ip {
            IpAddr::V4(a) => {
                push_dec3(&mut s, (a.bits >> 24) as u8);
                push_char(&mut s, '.');
                push_dec3(&mut s, (a.bits >> 16) as u8);
                push_char(&mut s, '.');
                push_dec3(&mut s, (a.bits >> 8) as u8);
                push_char(&mut s, '.');
                push_dec3(&mut s, a.bits as u8);
            },
            IpAddr::V6(a) => {
                push_char(&mut s, '[');
                push_hex4(&mut s, (a.bits >> 112) as u16);
                push_char(&mut s, ':');
                push_hex4(&mut s, (a.bits >> 96) as u16);
                push_char(&mut s, ':');
                push_hex4(&mut s, (a.bits >> 80) as u16);
                push_char(&mut s, ':');
                push_hex4(&mut s, (a.bits >> 64) as u16);
                push_char(&mut s, ':');
                push_hex4(&mut s, (a.bits >> 48) as u16);
                push_char(&mut s, ':');
                push_hex4(&mut s, (a.bits >> 32) as u16);
                push_char(&mut s, ':');
                push_hex4(&mut s, (a.bits >> 16) as u16);
                push_char(&mut s, ':');
                push_hex4(&mut s, a.bits as u16);
                push_char(&mut s, ']');
            },
        }
        push_char(&mut s, ':');
        push_dec5(&mut s, self.port);
        proof {
            assert(s@ =~= sockaddr_text(*self));
        }
        s
    }
}

} // verus!
