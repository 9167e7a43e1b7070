//! 48-bit device addresses.
//!
//! A beacon's source radio address is a 48-bit EUI.  It is held as the
//! plain integer value and printed, where a per-tag topic needs it, in
//! the canonical form: six uppercase hex byte pairs joined by hyphens.

use vstd::prelude::*;
use vstd::string::StringExecFns;

verus! {

/// One more than the largest 48-bit value.
pub const MAC_LIMIT: u64 = 0x1000000000000;

/// A 48-bit EUI device address.
#[derive(Debug, Clone, Copy, PartialEq, Eq, Structural)]
pub struct MacAddress {
    bits: u64,
}

/// The uppercase hex digit for a value below 16.
pub open spec fn spec_hex_digit(n: int) -> char {
    if n == 0 {
        '0'
    } else if n == 1 {
        '1'
    } else if n == 2 {
        '2'
    } else if n == 3 {
        '3'
    } else if n == 4 {
        '4'
    } else if n == 5 {
        '5'
    } else if n == 6 {
        '6'
    } else if n == 7 {
        '7'
    } else if n == 8 {
        '8'
    } else if n == 9 {
        '9'
    } else if n == 10 {
        'A'
    } else if n == 11 {
        'B'
    } else if n == 12 {
        'C'
    } else if n == 13 {
        'D'
    } else if n == 14 {
        'E'
    } else {
        'F'
    }
}

/// The two hex digits of one byte.
pub open spec fn spec_hex_byte(b: int) -> Seq<char> {
    seq![spec_hex_digit(b / 16), spec_hex_digit(b % 16)]
}

/// The byte of a 48-bit value at position `i`, counted from the most
/// significant byte.
pub open spec fn spec_mac_byte(bits: int, i: int) -> int {
    (bits / spec_mac_shift(i)) % 256
}

/// The divisor that brings byte `i` to the bottom.
pub open spec fn spec_mac_shift(i: int) -> int {
    if i == 0 {
        0x10000000000
    } else if i == 1 {
        0x100000000
    } else if i == 2 {
        0x1000000
    } else if i == 3 {
        0x10000
    } else if i == 4 {
        0x100
    } else {
        1
    }
}

/// The canonical form: uppercase hex byte pairs joined by hyphens.
pub open spec fn spec_mac_canonical(bits: int) -> Seq<char> {
    spec_hex_byte(spec_mac_byte(bits, 0)) + seq!['-'] + spec_hex_byte(spec_mac_byte(bits, 1))
        + seq!['-'] + spec_hex_byte(spec_mac_byte(bits, 2)) + seq!['-'] + spec_hex_byte(
        spec_mac_byte(bits, 3),
    ) + seq!['-'] + spec_hex_byte(spec_mac_byte(bits, 4)) + seq!['-'] + spec_hex_byte(
        spec_mac_byte(bits, 5),
    )
}

/// The 48-bit value held in six bytes, most significant first.
pub open spec fn spec_mac_of_bytes(b: Seq<u8>) -> int {
    b[0] * 0x10000000000 + b[1] * 0x100000000 + b[2] * 0x1000000 + b[3] * 0x10000 + b[4] * 0x100
        + b[5]
}

fn hex_char_str(n: u8) -> (r: &'static str)
    requires
        n < 16,
    ensures
        r@ == seq![spec_hex_digit(n as int)],
{
    proof {
        reveal_strlit("0");
        reveal_strlit("1");
        reveal_strlit("2");
        reveal_strlit("3");
        reveal_strlit("4");
        reveal_strlit("5");
        reveal_strlit("6");
        reveal_strlit("7");
        reveal_strlit("8");
        reveal_strlit("9");
        reveal_strlit("A");
        reveal_strlit("B");
        reveal_strlit("C");
        reveal_strlit("D");
        reveal_strlit("E");
        reveal_strlit("F");
    }
    if n == 0 {
        "0"
    } else if n == 1 {
        "1"
    } else if n == 2 {
        "2"
    } else if n == 3 {
        "3"
    } else if n == 4 {
        "4"
    } else if n == 5 {
        "5"
    } else if n == 6 {
        "6"
    } else if n == 7 {
        "7"
    } else if n == 8 {
        "8"
    } else if n == 9 {
        "9"
    } else if n == 10 {
        "A"
    } else if n == 11 {
        "B"
    } else if n == 12 {
        "C"
    } else if n == 13 {
        "D"
    } else if n == 14 {
        "E"
    } else {
        "F"
    }
}

/// Appends the two uppercase hex digits of one byte.
pub fn push_hex_byte(s: &mut String, b: u8)
    ensures
        final(s)@ == old(s)@ + spec_hex_byte(b as int),
{
    s.append(hex_char_str(b / 16));
    s.append(hex_char_str(b % 16));
    proof {
        assert(s@ =~= old(s)@ + spec_hex_byte(b as int));
    }
}

impl MacAddress {
    /// The address as a plain 48-bit value.
    pub closed spec fn spec_bits(&self) -> int {
        self.bits as int
    }

    /// A well-formed address fits in 48 bits.
    pub closed spec fn wf(&self) -> bool {
        self.bits < MAC_LIMIT
    }

    /// Builds an address from its six bytes, most significant first.
    pub fn from_bytes(b: &[u8; 6]) -> (r: MacAddress)
        ensures
            r.wf(),
            r.spec_bits() == spec_mac_of_bytes(b@),
    {
        let bits: u64 = (b[0] as u64) * 0x10000000000 + (b[1] as u64) * 0x100000000 + (b[2]
            as u64) * 0x1000000 + (b[3] as u64) * 0x10000 + (b[4] as u64) * 0x100 + (b[5] as u64);
        MacAddress { bits }
    }

    /// Builds an address from a 48-bit value.
    pub fn from_bits(bits: u64) -> (r: Option<MacAddress>)
        ensures
            bits < MAC_LIMIT ==> (r matches Some(m) && m.wf() && m.spec_bits() == bits),
            bits >= MAC_LIMIT ==> r is None,
    {
        if bits < MAC_LIMIT {
            Some(MacAddress { bits })
        } else {
            None
        }
    }

    /// The plain 48-bit value, for use as a map key.
    pub fn bits(&self) -> (r: u64)
        ensures
            r == self.spec_bits(),
    {
        self.bits
    }

    /// Prints the canonical uppercase hyphen-joined form.
    pub fn to_canonical_upper(&self) -> (r: String)
        ensures
            r@ == spec_mac_canonical(self.spec_bits()),
    {
        let mut s = String::new();
        proof {
            reveal_strlit("-");
        }
        push_hex_byte(&mut s, ((self.bits / 0x10000000000) % 256) as u8);
        s.append("-");
        push_hex_byte(&mut s, ((self.bits / 0x100000000) % 256) as u8);
        s.append("-");
        push_hex_byte(&mut s, ((self.bits / 0x1000000) % 256) as u8);
        s.append("-");
        push_hex_byte(&mut s, ((self.bits / 0x10000) % 256) as u8);
        s.append("-");
        push_hex_byte(&mut s, ((self.bits / 0x100) % 256) as u8);
        s.append("-");
        push_hex_byte(&mut s, (self.bits % 256) as u8);
        proof {
            assert(s@ =~= spec_mac_canonical(self.spec_bits()));
        }
        s
    }
}

} // verus!
