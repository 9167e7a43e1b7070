//! Byte-level text building.
//!
//! Outbound MQTT payloads are byte strings.  This module appends UTF-8
//! text, decimal numbers, fixed-point decimals and JSON-escaped string
//! bodies to a byte vector, each against an exact description of the
//! bytes appended.

use vstd::prelude::*;
use vstd::string::StringSliceAdditionalSpecFns;

verus! {

/// The decimal digits of `n`, as bytes.
pub open spec fn spec_dec_bytes(n: nat) -> Seq<u8>
    decreases n,
{
    if n < 10 {
        seq![(48 + n) as u8]
    } else {
        spec_dec_bytes(n / 10) + seq![(48 + n % 10) as u8]
    }
}

/// The decimal form of a signed value: a minus sign before the digits
/// of its magnitude.
pub open spec fn spec_dec_bytes_i64(n: int) -> Seq<u8> {
    if n < 0 {
        seq![45u8] + spec_dec_bytes((-n) as nat)
    } else {
        spec_dec_bytes(n as nat)
    }
}

/// `width` decimal digits of `n`, zero-padded on the left.
pub open spec fn spec_padded_bytes(n: nat, width: nat) -> Seq<u8>
    decreases width,
{
    if width == 0 {
        Seq::empty()
    } else {
        spec_padded_bytes(n / 10, (width - 1) as nat) + seq![(48 + n % 10) as u8]
    }
}

/// A fraction of `width` digits with trailing zeros dropped, but never
/// below one digit.
pub open spec fn spec_trimmed_frac_bytes(frac: nat, width: nat) -> Seq<u8>
    decreases width,
{
    if width > 1 && frac % 10 == 0 {
        spec_trimmed_frac_bytes(frac / 10, (width - 1) as nat)
    } else {
        spec_padded_bytes(frac, width)
    }
}

/// A value counted in steps of 1/10^width, printed as a decimal
/// fraction: sign, integer part, point, trimmed fraction.
pub open spec fn spec_scaled_bytes(scaled: int, width: nat) -> Seq<u8> {
    let mag = if scaled < 0 {
        (-scaled) as nat
    } else {
        scaled as nat
    };
    let sign: Seq<u8> = if scaled < 0 {
        seq![45u8]
    } else {
        Seq::empty()
    };
    sign + spec_dec_bytes(mag / spec_pow10(width)) + seq![46u8] + spec_trimmed_frac_bytes(
        mag % spec_pow10(width),
        width,
    )
}

/// Ten to the `width`.
pub open spec fn spec_pow10(width: nat) -> nat
    decreases width,
{
    if width == 0 {
        1
    } else {
        10 * spec_pow10((width - 1) as nat)
    }
}

/// A byte string with JSON string-body escaping applied: quote and
/// backslash get a backslash, control bytes become a \u00XX sequence
/// with uppercase hex digits, and every other byte stands as it is.
pub open spec fn spec_json_escaped(b: Seq<u8>) -> Seq<u8>
    decreases b.len(),
{
    if b.len() == 0 {
        Seq::empty()
    } else {
        spec_json_escape_byte(b[0]) + spec_json_escaped(b.skip(1))
    }
}

/// The escape of one byte.
pub open spec fn spec_json_escape_byte(c: u8) -> Seq<u8> {
    if c == 34 {
        seq![92u8, 34u8]
    } else if c == 92 {
        seq![92u8, 92u8]
    } else if c < 32 {
        seq![92u8, 117u8, 48u8, 48u8, spec_hex_byte_char(c / 16), spec_hex_byte_char(c % 16)]
    } else {
        seq![c]
    }
}

/// The uppercase hex digit byte for a value below 16.
pub open spec fn spec_hex_byte_char(n: u8) -> u8 {
    if n < 10 {
        (48 + n) as u8
    } else {
        (55 + n) as u8
    }
}

/// `n` space bytes.
pub open spec fn spec_spaces(n: nat) -> Seq<u8> {
    Seq::new(n, |i: int| 32u8)
}

/// Appends `n` space bytes.
pub fn push_spaces(out: &mut Vec<u8>, n: usize)
    ensures
        final(out)@ == old(out)@ + spec_spaces(n as nat),
{
    let mut i: usize = 0;
    while i < n
        invariant
            i <= n,
            out@ == old(out)@ + spec_spaces(i as nat),
        decreases n - i,
    {
        out.push(32);
        proof {
            assert(out@ =~= old(out)@ + spec_spaces((i + 1) as nat));
        }
        i = i + 1;
    }
}

/// Appends the UTF-8 bytes of a string slice.
pub fn push_str_bytes(out: &mut Vec<u8>, s: &str)
    ensures
        final(out)@ == old(out)@ + s.spec_bytes(),
{
    out.extend_from_slice(s.as_bytes());
}

/// Appends the decimal digits of `n`.
pub fn push_dec_u64(out: &mut Vec<u8>, n: u64)
    ensures
        final(out)@ == old(out)@ + spec_dec_bytes(n as nat),
    decreases n,
{
    if n < 10 {
        out.push((48 + n) as u8);
        proof {
            assert(out@ =~= old(out)@ + spec_dec_bytes(n as nat));
        }
    } else {
        push_dec_u64(out, n / 10);
        out.push((48 + n % 10) as u8);
        proof {
            assert(out@ =~= old(out)@ + spec_dec_bytes(n as nat));
        }
    }
}

/// Appends the decimal form of a signed value.
pub fn push_dec_i64(out: &mut Vec<u8>, n: i64)
    ensures
        final(out)@ == old(out)@ + spec_dec_bytes_i64(n as int),
{
    if n < 0 {
        out.push(45);
        let mag: u64 = ((-(n + 1)) as u64) + 1;
        proof {
            assert(mag == (-(n as int)) as nat);
        }
        push_dec_u64(out, mag);
        proof {
            assert(out@ =~= old(out)@ + spec_dec_bytes_i64(n as int));
        }
    } else {
        push_dec_u64(out, n as u64);
    }
}

/// Appends `width` zero-padded decimal digits of `n`.
pub fn push_padded(out: &mut Vec<u8>, n: u64, width: u64)
    ensures
        final(out)@ == old(out)@ + spec_padded_bytes(n as nat, width as nat),
    decreases width,
{
    if width == 0 {
        proof {
            assert(out@ =~= old(out)@ + spec_padded_bytes(n as nat, width as nat));
        }
    } else {
        push_padded(out, n / 10, width - 1);
        out.push((48 + n % 10) as u8);
        proof {
            assert(out@ =~= old(out)@ + spec_padded_bytes(n as nat, width as nat));
        }
    }
}

/// Appends the trimmed fraction digits.
pub fn push_trimmed_frac(out: &mut Vec<u8>, frac: u64, width: u64)
    ensures
        final(out)@ == old(out)@ + spec_trimmed_frac_bytes(frac as nat, width as nat),
    decreases width,
{
    if width > 1 && frac % 10 == 0 {
        push_trimmed_frac(out, frac / 10, width - 1);
    } else {
        push_padded(out, frac, width);
    }
}

fn pow10(width: u64) -> (r: u64)
    requires
        width <= 4,
    ensures
        r == spec_pow10(width as nat),
        r >= 1,
{
    proof {
        reveal_with_fuel(spec_pow10, 5);
    }
    if width == 0 {
        1
    } else if width == 1 {
        10
    } else if width == 2 {
        100
    } else if width == 3 {
        1000
    } else {
        10000
    }
}

/// Appends a value counted in steps of 1/10^width as a decimal
/// fraction.
pub fn push_scaled(out: &mut Vec<u8>, scaled: i64, width: u64)
    requires
        width <= 4,
    ensures
        final(out)@ == old(out)@ + spec_scaled_bytes(scaled as int, width as nat),
{
    let mag: u64 = if scaled < 0 {
        out.push(45);
        ((-(scaled + 1)) as u64) + 1
    } else {
        scaled as u64
    };
    proof {
        assert(mag == if scaled < 0 {
            (-(scaled as int)) as nat
        } else {
            scaled as nat
        });
    }
    let p = pow10(width);
    push_dec_u64(out, mag / p);
    out.push(46);
    push_trimmed_frac(out, mag % p, width);
    proof {
        assert(out@ =~= old(out)@ + spec_scaled_bytes(scaled as int, width as nat));
    }
}

/// Appends the JSON string-body escape of the UTF-8 bytes of `s`.
pub fn push_json_escaped_str(out: &mut Vec<u8>, s: &str)
    ensures
        final(out)@ == old(out)@ + spec_json_escaped(s.spec_bytes()),
{
    let bytes = s.as_bytes();
    let ghost all = bytes@;
    let mut i: usize = 0;
    while i < bytes.len()
        invariant
            i <= all.len(),
            bytes@ == all,
            out@ == old(out)@ + spec_json_escaped(all.take(i as int)),
        decreases all.len() - i,
    {
        let c = bytes[i];
        if c == 34 {
            out.push(92);
            out.push(34);
        } else if c == 92 {
            out.push(92);
            out.push(92);
        } else if c < 32 {
            out.push(92);
            out.push(117);
            out.push(48);
            out.push(48);
            out.push(hex_byte_char(c / 16));
            out.push(hex_byte_char(c % 16));
        } else {
            out.push(c);
        }
        proof {
            lemma_json_escaped_snoc(all, i as int);
            assert(out@ =~= old(out)@ + spec_json_escaped(all.take(i + 1)));
        }
        i = i + 1;
    }
    proof {
        assert(all.take(all.len() as int) =~= all);
    }
}

fn hex_byte_char(n: u8) -> (r: u8)
    requires
        n < 16,
    ensures
        r == spec_hex_byte_char(n),
{
    if n < 10 {
        48 + n
    } else {
        55 + n
    }
}

/// Escaping a prefix one byte longer appends that byte's escape.
proof fn lemma_json_escaped_snoc(b: Seq<u8>, i: int)
    requires
        0 <= i < b.len(),
    ensures
        spec_json_escaped(b.take(i + 1)) == spec_json_escaped(b.take(i)) + spec_json_escape_byte(
            b[i],
        ),
    decreases i,
{
    let pre = b.take(i + 1);
    if i == 0 {
        assert(pre.skip(1) =~= Seq::<u8>::empty());
        assert(b.take(0) =~= Seq::<u8>::empty());
        assert(spec_json_escaped(pre) =~= spec_json_escape_byte(b[0]));
    } else {
        let sub = b.skip(1);
        lemma_json_escaped_snoc(sub, i - 1);
        assert(pre[0] == b[0]);
        assert(pre.skip(1) =~= sub.take(i));
        assert(b.take(i).skip(1) =~= sub.take(i - 1));
        assert(b.take(i)[0] == b[0]);
        assert(sub[i - 1] == b[i]);
        assert(spec_json_escaped(b.take(i + 1)) =~= spec_json_escaped(b.take(i))
            + spec_json_escape_byte(b[i]));
    }
}

} // verus!
