//! Ethernet addresses and Ethernet controllers.

pub mod w5500;

use vstd::prelude::*;
use crate::text::{decimal, digit_char, push_char};

verus! {

/// Character of a hexadecimal digit `d < 16`, upper case.
pub open spec fn hex_digit_char(d: nat) -> char {
    if d < 10 {
        digit_char(d)
    } else {
        (d - 10 + 65) as char
    }
}

/// A byte as two upper-case hexadecimal digits.
pub open spec fn hex_byte(b: u8) -> Seq<char> {
    seq![hex_digit_char(b as nat / 16), hex_digit_char(b as nat % 16)]
}

/// The six bytes of a MAC address in the form `02:00:00:0B:16:21`.
pub open spec fn mac_text(b: Seq<u8>) -> Seq<char> {
    hex_byte(b[0]) + seq![':'] + hex_byte(b[1]) + seq![':'] + hex_byte(b[2]) + seq![':'] + hex_byte(b[3])
        + seq![':'] + hex_byte(b[4]) + seq![':'] + hex_byte(b[5])
}

/// The four bytes of an IPv4 address in the form `192.168.1.50`.
pub open spec fn ipv4_text(b: Seq<u8>) -> Seq<char> {
    decimal(b[0] as nat) + seq!['.'] + decimal(b[1] as nat) + seq!['.'] + decimal(b[2] as nat) + seq!['.']
        + decimal(b[3] as nat)
}

/// MAC address of a device.
#[derive(Debug, Clone, Copy, PartialEq, Eq)]
pub struct MacAddr(pub [u8; 6]);

/// IPv4 address of a device.
#[derive(Debug, Clone, Copy, PartialEq, Eq)]
pub struct Ipv4Addr {
    octets: [u8; 4],
}

/// Returns the character of a hexadecimal digit, upper case.
fn hex_digit(d: u8) -> (c: char)
    requires
        d < 16,
    ensures
        c == hex_digit_char(d as nat),
{
    if d < 10 {
        (d + 48) as char
    } else {
        (d - 10 + 65) as char
    }
}

/// Appends the decimal representation of `n` to `s`.
pub fn push_decimal(s: &mut String, n: u8)
    ensures
        final(s)@ == old(s)@ + decimal(n as nat),
{
    let ghost start = s@;
    let ghost m = n as nat;
    if n >= 100 {
        push_char(s, ((n / 100) + 48) as char);
        push_char(s, ((n / 10 % 10) + 48) as char);
        push_char(s, ((n % 10) + 48) as char);
        proof {
            assert(decimal(m / 10 / 10) == seq![digit_char(m / 10 / 10)]);
            assert(m / 10 / 10 == m / 100);
            assert(decimal(m / 10) == decimal(m / 10 / 10) + seq![digit_char(m / 10 % 10)]);
            assert(decimal(m) == decimal(m / 10) + seq![digit_char(m % 10)]);
            assert(s@ =~= start + decimal(m));
        }
    } else if n >= 10 {
        push_char(s, ((n / 10) + 48) as char);
        push_char(s, ((n % 10) + 48) as char);
        proof {
            assert(decimal(m / 10) == seq![digit_char(m / 10)]);
            assert(decimal(m) == decimal(m / 10) + seq![digit_char(m % 10)]);
            assert(s@ =~= start + decimal(m));
        }
    } else {
        push_char(s, (n + 48) as char);
        proof {
            assert(s@ =~= start + decimal(m));
        }
    }
}

impl MacAddr {
    /// Returns the address in the form `02:00:00:0B:16:21`.
    pub fn to_string(&self) -> (text: String)
        ensures
            text@ == mac_text(self.0@),
    {
        let mut text = String::new();
        let mut i: usize = 0;
        while i < 6
            invariant
                i <= 6,
                text@ == (if i == 0 {
                    Seq::<char>::empty()
                } else {
                    mac_text(self.0@).take(3 * i - 1)
                }),
            decreases 6 - i,
        {
            if i > 0 {
                push_char(&mut text, ':');
            }
            let b = self.0[i];
            push_char(&mut text, hex_digit(b / 16));
            push_char(&mut text, hex_digit(b % 16));
            proof {
                assert(text@ =~= mac_text(self.0@).take(3 * (i + 1) - 1));
            }
            i += 1;
        }
        proof {
            assert(mac_text(self.0@).take(17) =~= mac_text(self.0@));
        }
        text
    }

    /// Returns whether both addresses hold the same bytes.
    pub fn same_as(&self, other: &MacAddr) -> (same: bool)
        ensures
            same == (self.0@ == other.0@),
    {
        let mut i: usize = 0;
        while i < 6
            invariant
                i <= 6,
                forall|j: int| 0 <= j < i ==> self.0@[j] == other.0@[j],
            decreases 6 - i,
        {
            if self.0[i] != other.0[i] {
                return false;
            }
            i += 1;
        }
        proof {
            assert(self.0@ =~= other.0@);
        }
        true
    }
}

impl Ipv4Addr {
    /// The four bytes of the address, most significant first.
    pub closed spec fn spec_octets(self) -> Seq<u8> {
        self.octets@
    }

    /// Creates the address `a.b.c.d`.
    pub fn new(a: u8, b: u8, c: u8, d: u8) -> (addr: Ipv4Addr)
        ensures
            addr.spec_octets() == seq![a, b, c, d],
    {
        let addr = Ipv4Addr { octets: [a, b, c, d] };
        proof {
            assert(addr.octets@ =~= seq![a, b, c, d]);
        }
        addr
    }

    /// Returns the four bytes of the address, most significant first.
    pub fn octets(&self) -> (octets: [u8; 4])
        ensures
            octets@ == self.spec_octets(),
    {
        self.octets
    }

    /// Returns the address in the form `192.168.1.50`.
    pub fn to_string(&self) -> (text: String)
        ensures
            text@ == ipv4_text(self.spec_octets()),
    {
        let mut text = String::new();
        push_decimal(&mut text, self.octets[0]);
        push_char(&mut text, '.');
        push_decimal(&mut text, self.octets[1]);
        push_char(&mut text, '.');
        push_decimal(&mut text, self.octets[2]);
        push_char(&mut text, '.');
        push_decimal(&mut text, self.octets[3]);
        proof {
            assert(text@ =~= ipv4_text(self.spec_octets()));
        }
        text
    }

    /// Returns whether both addresses hold the same bytes.
    pub fn same_as(&self, other: &Ipv4Addr) -> (same: bool)
        ensures
            same == (self.spec_octets() == other.spec_octets()),
    {
        let same = self.octets[0] == other.octets[0] && self.octets[1] == other.octets[1]
            && self.octets[2] == other.octets[2] && self.octets[3] == other.octets[3];
        proof {
            if same {
                assert(self.octets@ =~= other.octets@);
            }
        }
        same
    }
}

} // verus!
