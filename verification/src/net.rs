//! Addresses of a network device as the command line writes them.

use crate::text::all_digits;
use crate::text::digits_value;
use crate::text::is_digit;
use crate::text::parse_u8;
use crate::text::split;
use crate::text::split_fields;
use crate::text::texts;
use vstd::prelude::*;
use vstd::string::*;

verus! {

/// Number of bytes of a MAC address.
pub const MAC_ADDR_LEN: usize = 6;

/// The value of the hexadecimal digit `c`.
pub open spec fn hex_value(c: char) -> Option<u8> {
    if '0' <= c <= '9' {
        Some((c as u8 - '0' as u8) as u8)
    } else if 'a' <= c <= 'f' {
        Some((c as u8 - 'a' as u8 + 10) as u8)
    } else if 'A' <= c <= 'F' {
        Some((c as u8 - 'A' as u8 + 10) as u8)
    } else {
        None
    }
}

/// The byte that two characters write: two hexadecimal digits, or a plus
/// sign and one.
pub open spec fn spec_hex_byte(s: Seq<char>) -> Option<u8> {
    if s.len() != 2 || hex_value(s[1]) is None {
        None
    } else if s[0] == '+' {
        hex_value(s[1])
    } else if hex_value(s[0]) is Some {
        Some((hex_value(s[0])->0 * 16 + hex_value(s[1])->0) as u8)
    } else {
        None
    }
}

/// The MAC address that `s` writes: six bytes with colons between them.
pub open spec fn spec_mac(s: Seq<char>) -> Option<Seq<u8>> {
    let parts = split(s, ':');
    if parts.len() == 6 && (forall|i: int| 0 <= i < 6 ==> spec_hex_byte(#[trigger] parts[i]) is Some) {
        Some(Seq::new(6, |i: int| spec_hex_byte(parts[i])->0))
    } else {
        None
    }
}

/// The number up to 255 that `s` writes in an IPv4 address: one to three
/// decimal digits, with no zero in front of another digit.
pub open spec fn spec_octet(s: Seq<char>) -> Option<u8> {
    if 1 <= s.len() <= 3 && all_digits(s) && (s.len() == 1 || s[0] != '0') && digits_value(s)
        <= 255 {
        Some(digits_value(s) as u8)
    } else {
        None
    }
}

/// An IPv4 address, first byte first.
#[derive(Clone, Copy, Debug, PartialEq, Eq, Structural)]
pub struct Ipv4Addr(pub u8, pub u8, pub u8, pub u8);

/// The IPv4 address that `s` writes: four numbers with dots between them.
pub open spec fn spec_ipv4(s: Seq<char>) -> Option<Ipv4Addr> {
    let parts = split(s, '.');
    if parts.len() == 4 && spec_octet(parts[0]) is Some && spec_octet(parts[1]) is Some
        && spec_octet(parts[2]) is Some && spec_octet(parts[3]) is Some {
        Some(
            Ipv4Addr(
                spec_octet(parts[0])->0,
                spec_octet(parts[1])->0,
                spec_octet(parts[2])->0,
                spec_octet(parts[3])->0,
            ),
        )
    } else {
        None
    }
}

/// The value of the hexadecimal digit `c`.
pub fn hex_digit(c: char) -> (r: Option<u8>)
    ensures
        r == hex_value(c),
        r matches Some(v) ==> v < 16,
{
    if c >= '0' && c <= '9' {
        Some((c as u32 - '0' as u32) as u8)
    } else if c >= 'a' && c <= 'f' {
        Some((c as u32 - 'a' as u32 + 10) as u8)
    } else if c >= 'A' && c <= 'F' {
        Some((c as u32 - 'A' as u32 + 10) as u8)
    } else {
        None
    }
}

/// The byte that two characters write.
pub fn hex_byte(s: &str) -> (r: Option<u8>)
    ensures
        r == spec_hex_byte(s@),
{
    if s.unicode_len() != 2 {
        return None;
    }
    let low: u8 = match hex_digit(s.get_char(1)) {
        Some(v) => v,
        None => {
            return None;
        },
    };
    if s.get_char(0) == '+' {
        return Some(low);
    }
    match hex_digit(s.get_char(0)) {
        Some(high) => Some(high * 16 + low),
        None => None,
    }
}

/// The number that `s` writes in an IPv4 address.
pub fn octet(s: &str) -> (r: Option<u8>)
    ensures
        r == spec_octet(s@),
{
    let n: usize = s.unicode_len();
    if n < 1 || n > 3 {
        return None;
    }
    let first = s.get_char(0);
    if first == '+' || (n > 1 && first == '0') {
        assert(!is_digit(s@[0]) || s@[0] == '0');
        return None;
    }
    match parse_u8(s) {
        Some(v) => Some(v),
        None => None,
    }
}

impl Ipv4Addr {
    pub fn new(a: u8, b: u8, c: u8, d: u8) -> (r: Ipv4Addr)
        ensures
            r == Ipv4Addr(a, b, c, d),
    {
        Ipv4Addr(a, b, c, d)
    }

    /// The four bytes, first byte first.
    pub fn octets(&self) -> (r: [u8; 4])
        ensures
            r@ == seq![self.0, self.1, self.2, self.3],
    {
        let r: [u8; 4] = [self.0, self.1, self.2, self.3];
        assert(r@ =~= seq![self.0, self.1, self.2, self.3]);
        r
    }

    /// The address that `s` writes.
    pub fn parse_str(s: &str) -> (r: Option<Ipv4Addr>)
        ensures
            r == spec_ipv4(s@),
    {
        let parts = split_fields(s, '.');
        let ghost fields = split(s@, '.');
        if parts.len() != 4 {
            return None;
        }
        assert(fields[0] == parts@[0]@ && fields[1] == parts@[1]@ && fields[2] == parts@[2]@
            && fields[3] == parts@[3]@);
        let a: u8 = match octet(parts[0].as_str()) {
            Some(v) => v,
            None => {
                return None;
            },
        };
        let b: u8 = match octet(parts[1].as_str()) {
            Some(v) => v,
            None => {
                return None;
            },
        };
        let c: u8 = match octet(parts[2].as_str()) {
            Some(v) => v,
            None => {
                return None;
            },
        };
        let d: u8 = match octet(parts[3].as_str()) {
            Some(v) => v,
            None => {
                return None;
            },
        };
        Some(Ipv4Addr(a, b, c, d))
    }
}

/// A MAC address.
#[derive(Clone, Copy, Debug, PartialEq, Eq)]
pub struct MacAddr {
    pub bytes: [u8; 6],
}

impl View for MacAddr {
    type V = Seq<u8>;

    open spec fn view(&self) -> Seq<u8> {
        self.bytes@
    }
}

/// The MAC address that a text holds, if there is one.
pub open spec fn opt_mac(v: Option<MacAddr>) -> Option<Seq<u8>> {
    match v {
        Some(m) => Some(m@),
        None => None,
    }
}

impl MacAddr {
    /// The address that `s` writes.
    pub fn parse_str(s: &str) -> (r: Option<MacAddr>)
        ensures
            opt_mac(r) == spec_mac(s@),
    {
        let v = split_fields(s, ':');
        let ghost parts = split(s@, ':');
        let mut bytes: [u8; 6] = [0u8;6];
        if v.len() != MAC_ADDR_LEN {
            return None;
        }
        let mut i: usize = 0;
        while i < MAC_ADDR_LEN
            invariant
                i <= 6,
                v@.len() == 6,
                texts(v@) == parts,
                parts == split(s@, ':'),
                forall|j: int| 0 <= j < i ==> spec_hex_byte(#[trigger] parts[j]) == Some(bytes@[j]),
            decreases 6 - i,
        {
            assert(parts[i as int] == v@[i as int]@);
            match hex_byte(v[i].as_str()) {
                Some(b) => {
                    bytes[i] = b;
                },
                None => {
                    return None;
                },
            }
            i += 1;
        }
        assert(bytes@ =~= Seq::new(6, |i: int| spec_hex_byte(parts[i])->0));
        Some(MacAddr { bytes })
    }

    /// The address with these bytes.
    pub fn from_bytes(src: &[u8]) -> (r: Option<MacAddr>)
        ensures
            r is Some <==> src@.len() == 6,
            r matches Some(m) ==> m@ == src@,
    {
        if src.len() != MAC_ADDR_LEN {
            return None;
        }
        let bytes: [u8; 6] = [src[0], src[1], src[2], src[3], src[4], src[5]];
        assert(bytes@ =~= src@);
        Some(MacAddr { bytes })
    }

    pub fn get_bytes(&self) -> (r: &[u8])
        ensures
            r@ == self@,
    {
        self.bytes.as_slice()
    }
}

} // verus!
