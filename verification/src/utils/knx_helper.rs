//! KNX address conversions between text (`1.1.10`, `1/2/3`, `1/515`) and
//! their two-octet encoding, plus helpers for writing APDU data.
//!
//! Individual address: area (4 bits), line (4 bits), device (8 bits).
//! Group address, three levels: main (5 bits), middle (3 bits), sub (8 bits).
//! Group address, two levels: main (5 bits), sub (11 bits).
use crate::errors::KnxError;
use crate::utils::bytes::write_u16_be;
use crate::utils::text::{
    all_digits, chars_of, contains_char, dec_str, is_digit, lemma_dec_str, lemma_dec_str_len,
    lemma_digits_no_sep, lemma_parse_dec_str, lemma_split_append, lemma_split_no_sep, parse_u32,
    parse_u32_spec, parse_u32_str, push_char, push_decimal, split_chars, split_spec, str_eq,
    string_of,
};
use vstd::prelude::*;

verus! {

// ------------------------------------------------------------------
// Specification of the text forms
// ------------------------------------------------------------------

/// Octets of `area.line.device` from its three parsed parts.
pub open spec fn individual_octets(p0: Option<u32>, p1: Option<u32>, p2: Option<u32>) -> Option<
    (u8, u8),
> {
    match (p0, p1, p2) {
        (Some(a), Some(b), Some(c)) => if a <= 15 && b <= 15 && c <= 255 {
            Some(((a * 16 + b) as u8, c as u8))
        } else {
            None
        },
        _ => None,
    }
}

/// Octets of `main/middle/sub` from its three parsed parts.
pub open spec fn group3_octets(p0: Option<u32>, p1: Option<u32>, p2: Option<u32>) -> Option<
    (u8, u8),
> {
    match (p0, p1, p2) {
        (Some(a), Some(b), Some(c)) => if a <= 31 && b <= 7 && c <= 255 {
            Some(((a * 8 + b) as u8, c as u8))
        } else {
            None
        },
        _ => None,
    }
}

/// Octets of `main/sub` from its two parsed parts.
pub open spec fn group2_octets(p0: Option<u32>, p1: Option<u32>) -> Option<(u8, u8)> {
    match (p0, p1) {
        (Some(a), Some(b)) => if a <= 15 && b <= 2047 {
            Some(((a * 8 + b / 256) as u8, (b % 256) as u8))
        } else {
            None
        },
        _ => None,
    }
}

/// The two octets that `get_address_from_string` gives for `a`, if any.
/// A text with `/` is a group address (three levels when the parts have at
/// most 2, 1 and 3 characters, else two levels with at most 2 and 4);
/// any other text is an individual address with parts of at most 2, 2
/// and 3 characters. Parts are parsed as by `str::parse::<u32>`.
/// (Part lengths are counted in characters; a part with a non-ASCII
/// character never parses, so counting bytes gives the same outcome.)
pub open spec fn address_from_string_spec(a: Seq<char>) -> Option<(u8, u8)> {
    if !a.contains('/') {
        let parts = split_spec(a, '.');
        if parts.len() != 3 || parts[0].len() > 2 || parts[1].len() > 2 || parts[2].len() > 3 {
            None
        } else {
            individual_octets(
                parse_u32_spec(parts[0]),
                parse_u32_spec(parts[1]),
                parse_u32_spec(parts[2]),
            )
        }
    } else {
        let parts = split_spec(a, '/');
        if parts.len() == 3 && parts[0].len() <= 2 && parts[1].len() <= 1 && parts[2].len() <= 3 {
            group3_octets(
                parse_u32_spec(parts[0]),
                parse_u32_spec(parts[1]),
                parse_u32_spec(parts[2]),
            )
        } else if parts.len() == 2 && parts[0].len() <= 2 && parts[1].len() <= 4 {
            group2_octets(parse_u32_spec(parts[0]), parse_u32_spec(parts[1]))
        } else {
            None
        }
    }
}

/// `r` is the conversion result that `expected` describes, the error
/// carrying the input text.
pub open spec fn address_result(
    r: Result<[u8; 2], KnxError>,
    expected: Option<(u8, u8)>,
    input: Seq<char>,
) -> bool {
    match expected {
        Some((hi, lo)) => r matches Ok(x) && x@ == seq![hi, lo],
        None => r matches Err(KnxError::InvalidKnxAddressException(m)) && m@ == input,
    }
}

/// The text of an address given by its two octets: `main/sub` for a
/// two-level group address, `main/middle/sub` for a three-level group
/// address, `area.line.device` otherwise.
pub open spec fn address_text(hi: u8, lo: u8, is_group: bool, three_level: bool) -> Seq<char> {
    if is_group && !three_level {
        dec_str((hi / 8) as nat) + seq!['/'] + dec_str(((hi % 8) * 256 + lo) as nat)
    } else if is_group {
        dec_str(((hi / 8) % 32) as nat) + seq!['/'] + dec_str((hi % 8) as nat) + seq!['/']
            + dec_str(lo as nat)
    } else {
        dec_str((hi / 16) as nat) + seq!['.'] + dec_str((hi % 16) as nat) + seq!['.'] + dec_str(
            lo as nat,
        )
    }
}

/// Message of the error for a too short address buffer.
pub open spec fn short_buffer_message() -> Seq<char> {
    "Address buffer must be at least 2 bytes"@
}

/// Message of the errors of `address_to_buffer`.
pub open spec fn incorrect_format_message() -> Seq<char> {
    "Invalid address. Incorrect format."@
}

// ------------------------------------------------------------------
// Octets of `address_to_buffer`
// ------------------------------------------------------------------

/// What `str::split` gives for a non-empty pattern: the pieces between
/// the leftmost non-overlapping occurrences.
pub open spec fn split_pattern_spec(s: Seq<char>, p: Seq<char>) -> Seq<Seq<char>>
    recommends
        p.len() > 0,
    decreases s.len(),
{
    if p.len() == 0 {
        seq![s]
    } else if s.len() >= p.len() && s.subrange(0, p.len() as int) == p {
        seq![Seq::empty()] + split_pattern_spec(s.subrange(p.len() as int, s.len() as int), p)
    } else if s.len() == 0 {
        seq![Seq::empty()]
    } else {
        let r = split_pattern_spec(s.drop_first(), p);
        r.update(0, seq![s[0]] + r[0])
    }
}

/// Every piece parses as a `u32`.
pub open spec fn all_parse(parts: Seq<Seq<char>>) -> bool {
    forall|i: int| 0 <= i < parts.len() ==> (#[trigger] parse_u32_spec(parts[i])) is Some
}

/// The parsed value of piece `i`.
pub open spec fn part_value(parts: Seq<Seq<char>>, i: int) -> int {
    parse_u32_spec(parts[i])->0 as int
}

/// Whether `address_to_buffer` would index past its parts: an individual
/// address with exactly two numeric parts that both pass their range check.
pub open spec fn address_to_buffer_panics(
    a: Seq<char>,
    sep: Seq<char>,
    group: bool,
    three_level: bool,
) -> bool {
    let parts = split_pattern_spec(a, sep);
    &&& sep.len() > 0
    &&& !group
    &&& !three_level
    &&& parts.len() == 2
    &&& all_parse(parts)
    &&& part_value(parts, 0) <= 15
    &&& part_value(parts, 1) <= 15
}

/// Result of `address_to_buffer`: the two octets, or the message of its error.
pub open spec fn address_to_buffer_spec(
    a: Seq<char>,
    sep: Seq<char>,
    group: bool,
    three_level: bool,
) -> Result<(u8, u8), Seq<char>> {
    let parts = split_pattern_spec(a, sep);
    let min_len: int = if three_level {
        3
    } else {
        2
    };
    if sep.len() == 0 || parts.len() < min_len || !all_parse(parts) {
        Err(incorrect_format_message())
    } else if group && three_level {
        if part_value(parts, 0) > 31 || part_value(parts, 1) > 7 || part_value(parts, 2) > 255 {
            Err("Invalid group address (3 levels)"@)
        } else {
            Ok(
                (
                    (part_value(parts, 0) * 8 + part_value(parts, 1)) as u8,
                    part_value(parts, 2) as u8,
                ),
            )
        }
    } else if group {
        if part_value(parts, 0) > 31 || part_value(parts, 1) > 2047 {
            Err("Invalid group address (2 levels)"@)
        } else {
            Ok(
                (
                    (part_value(parts, 0) * 8 + part_value(parts, 1) / 256) as u8,
                    (part_value(parts, 1) % 256) as u8,
                ),
            )
        }
    } else {
        if part_value(parts, 0) > 15 || part_value(parts, 1) > 15 || part_value(parts, 2) > 255 {
            Err("Invalid individual address."@)
        } else {
            Ok(
                (
                    (part_value(parts, 0) * 16 + part_value(parts, 1)) as u8,
                    part_value(parts, 2) as u8,
                ),
            )
        }
    }
}

// ------------------------------------------------------------------
// Validity checks
// ------------------------------------------------------------------

/// What `is_valid_group_address` answers.
pub open spec fn valid_group_address_spec(a: Seq<char>) -> bool {
    let parts = split_spec(a, '/');
    if parts.len() == 3 {
        match (
            parse_u32_spec(parts[0]),
            parse_u32_spec(parts[1]),
            parse_u32_spec(parts[2]),
        ) {
            (Some(m), Some(d), Some(s)) => m <= 31 && d <= 7 && s <= 255,
            _ => false,
        }
    } else if parts.len() == 2 {
        match (parse_u32_spec(parts[0]), parse_u32_spec(parts[1])) {
            (Some(m), Some(s)) => m <= 31 && s <= 2047,
            _ => false,
        }
    } else if parts.len() == 1 {
        match parse_u32_spec(a) {
            Some(v) => v <= 65535,
            None => false,
        }
    } else {
        false
    }
}

/// What `is_valid_individual_address` answers.
pub open spec fn valid_individual_address_spec(a: Seq<char>) -> bool {
    let parts = split_spec(a, '.');
    parts.len() == 3 && match (
        parse_u32_spec(parts[0]),
        parse_u32_spec(parts[1]),
        parse_u32_spec(parts[2]),
    ) {
        (Some(x), Some(y), Some(z)) => x <= 15 && y <= 15 && z <= 255,
        _ => false,
    }
}

/// Length of the APDU data part: nothing for no data, one octet for
/// short data, else the data plus the APCI low octet.
pub open spec fn data_length_spec(len: nat, is_short: bool) -> nat {
    if len == 0 {
        0
    } else if is_short {
        1
    } else {
        len + 1
    }
}

/// The datagram after `write_data`.
pub open spec fn write_data_spec(d: Seq<u8>, data: Seq<u8>, start: int, is_short: bool) -> Seq<u8> {
    if data.len() == 0 {
        d
    } else if is_short {
        d.update(start, ((d[start] / 64) * 64 + data[0] % 64) as u8)
    } else {
        Seq::new(
            d.len(),
            |i: int|
                if start + 1 <= i < start + 1 + data.len() {
                    data[i - start - 1]
                } else {
                    d[i]
                },
        )
    }
}

/// Conversions between KNX addresses and their encodings.
pub struct KnxHelper;

fn address_error(address: &str) -> (e: KnxError)
    ensures
        e matches KnxError::InvalidKnxAddressException(m) && m@ == address@,
{
    KnxError::InvalidKnxAddressException(string_of(address))
}

fn message_error(msg: &str) -> (e: KnxError)
    ensures
        e matches KnxError::InvalidKnxAddressException(m) && m@ == msg@,
{
    KnxError::InvalidKnxAddressException(string_of(msg))
}

impl KnxHelper {
    /// Converts an address text into its two octets.
    pub fn get_address_from_string(address: &str) -> (r: Result<[u8; 2], KnxError>)
        ensures
            address_result(r, address_from_string_spec(address@), address@),
    {
        let chars = chars_of(address);
        let group = contains_char(chars.as_slice(), '/');
        let sep = if group {
            '/'
        } else {
            '.'
        };
        let parts = split_chars(chars.as_slice(), sep);
        let ghost sp = split_spec(address@, sep);
        let mut three_level = true;
        if !group {
            if parts.len() != 3 || parts[0].len() > 2 || parts[1].len() > 2 || parts[2].len() > 3 {
                return Err(address_error(address));
            }
        } else {
            if parts.len() != 3 || parts[0].len() > 1 + 1 || parts[1].len() > 1 || parts[2].len()
                > 3 {
                if parts.len() != 2 || parts[0].len() > 2 || parts[1].len() > 4 {
                    return Err(address_error(address));
                }
                three_level = false;
            }
        }
        assert(parts@[0]@ == sp[0]);
        assert(parts@[1]@ == sp[1]);
        if !three_level {
            let p0 = parse_u32(parts[0].as_slice());
            let p1 = parse_u32(parts[1].as_slice());
            match (p0, p1) {
                (Some(a), Some(b)) => {
                    if a > 15 || b > 2047 {
                        return Err(address_error(address));
                    }
                    let mut part2: Vec<u8> = vec![0u8, 0u8];
                    write_u16_be(&mut part2, 0, b as u16);
                    let hi: u8 = (a * 8) as u8 + part2[0];
                    let lo: u8 = part2[1];
                    Ok([hi, lo])
                },
                _ => Err(address_error(address)),
            }
        } else {
            assert(parts@[2]@ == sp[2]);
            let p0 = parse_u32(parts[0].as_slice());
            let p1 = parse_u32(parts[1].as_slice());
            let p2 = parse_u32(parts[2].as_slice());
            match (p0, p1, p2) {
                (Some(a), Some(b), Some(c)) => {
                    if a > 31 || (!group && a > 15) {
                        return Err(address_error(address));
                    }
                    if (group && b > 7) || (!group && b > 15) {
                        return Err(address_error(address));
                    }
                    if c > 255 {
                        return Err(address_error(address));
                    }
                    let hi: u8 = if group {
                        (a * 8 + b) as u8
                    } else {
                        (a * 16 + b) as u8
                    };
                    Ok([hi, c as u8])
                },
                _ => Err(address_error(address)),
            }
        }
    }

    /// Renders the first two octets of `addr` as address text; `separator`
    /// `/` selects a group address.
    pub fn get_address_to_string(addr: &[u8], separator: &str, three_level_addressing: bool) -> (r:
        Result<String, KnxError>)
        ensures
            addr@.len() < 2 ==> (r matches Err(KnxError::InvalidKnxAddressException(m))
                && m@ == short_buffer_message()),
            addr@.len() >= 2 ==> (r matches Ok(s) && s@ == address_text(
                addr@[0],
                addr@[1],
                separator@ == "/"@,
                three_level_addressing,
            )),
    {
        if addr.len() < 2 {
            return Err(message_error("Address buffer must be at least 2 bytes"));
        }
        let high_byte = addr[0];
        let low_byte = addr[1];
        let is_group = str_eq(separator, "/");
        let mut s = String::new();
        if is_group && !three_level_addressing {
            let main = high_byte / 8;
            let sub: u32 = ((high_byte % 8) as u32) * 256 + low_byte as u32;
            push_decimal(&mut s, main as u32);
            push_char(&mut s, '/');
            push_decimal(&mut s, sub);
        } else if is_group {
            let main = (high_byte / 8) % 32;
            let middle = high_byte % 8;
            push_decimal(&mut s, main as u32);
            push_char(&mut s, '/');
            push_decimal(&mut s, middle as u32);
            push_char(&mut s, '/');
            push_decimal(&mut s, low_byte as u32);
        } else {
            let area = high_byte / 16;
            let line = high_byte % 16;
            push_decimal(&mut s, area as u32);
            push_char(&mut s, '.');
            push_decimal(&mut s, line as u32);
            push_char(&mut s, '.');
            push_decimal(&mut s, low_byte as u32);
        }
        assert(s@ =~= address_text(high_byte, low_byte, is_group, three_level_addressing));
        Ok(s)
    }

    /// Renders a 16-bit address value (high octet first) as address text.
    pub fn get_address_from_number(addr: u16, separator: &str, three_level_addressing: bool) -> (r:
        Result<String, KnxError>)
        ensures
            r matches Ok(s) && s@ == address_text(
                (addr / 256) as u8,
                (addr % 256) as u8,
                separator@ == "/"@,
                three_level_addressing,
            ),
    {
        let mut buffer: Vec<u8> = vec![0u8, 0u8];
        write_u16_be(&mut buffer, 0, addr);
        Self::get_address_to_string(buffer.as_slice(), separator, three_level_addressing)
    }

    /// Converts an address text into its two octets, splitting on
    /// `separator` and reading the parts as group (three or two levels)
    /// or individual address.
    pub fn address_to_buffer(
        address: &str,
        separator: &str,
        group: bool,
        three_level_addressing: bool,
    ) -> (r: Result<[u8; 2], KnxError>)
        requires
            !address_to_buffer_panics(address@, separator@, group, three_level_addressing),
        ensures
            match address_to_buffer_spec(address@, separator@, group, three_level_addressing) {
                Ok((hi, lo)) => r matches Ok(x) && x@ == seq![hi, lo],
                Err(msg) => r matches Err(KnxError::InvalidKnxAddressException(m)) && m@ == msg,
            },
    {
        let a = chars_of(address);
        let p = chars_of(separator);
        if p.len() == 0 {
            return Err(message_error("Invalid address. Incorrect format."));
        }
        let parts = split_pattern(a.as_slice(), p.as_slice());
        let ghost sp = split_pattern_spec(address@, separator@);
        let min_len: usize = if three_level_addressing {
            3
        } else {
            2
        };
        if parts.len() < min_len {
            return Err(message_error("Invalid address. Incorrect format."));
        }
        let mut nums: Vec<u32> = Vec::new();
        let mut i: usize = 0;
        while i < parts.len()
            invariant
                sp == split_pattern_spec(address@, separator@),
                parts@.len() == sp.len(),
                forall|k: int| 0 <= k < parts@.len() ==> #[trigger] parts@[k]@ == sp[k],
                i <= parts@.len(),
                nums@.len() == i,
                forall|k: int|
                    0 <= k < i ==> parse_u32_spec(#[trigger] sp[k]) == Some(nums@[k]),
            decreases parts.len() - i,
        {
            match parse_u32(parts[i].as_slice()) {
                Some(n) => {
                    nums.push(n);
                },
                None => {
                    assert(!all_parse(sp));
                    return Err(message_error("Invalid address. Incorrect format."));
                },
            }
            i = i + 1;
        }
        assert(all_parse(sp)) by {
            assert forall|k: int| 0 <= k < sp.len() implies (#[trigger] parse_u32_spec(
                sp[k],
            )) is Some by {
                assert(parse_u32_spec(sp[k]) == Some(nums@[k]));
            }
        }
        assert(part_value(sp, 0) == nums@[0]);
        assert(part_value(sp, 1) == nums@[1]);
        if group {
            if three_level_addressing {
                assert(part_value(sp, 2) == nums@[2]);
                if nums[0] > 31 || nums[1] > 7 || nums[2] > 255 {
                    return Err(message_error("Invalid group address (3 levels)"));
                }
                Ok([(nums[0] * 8 + nums[1]) as u8, nums[2] as u8])
            } else {
                if nums[0] > 31 || nums[1] > 2047 {
                    return Err(message_error("Invalid group address (2 levels)"));
                }
                Ok([(nums[0] * 8 + nums[1] / 256) as u8, (nums[1] % 256) as u8])
            }
        } else {
            if nums[0] > 15 || nums[1] > 15 {
                return Err(message_error("Invalid individual address."));
            }
            assert(parts@.len() >= 3);
            assert(part_value(sp, 2) == nums@[2]);
            if nums[2] > 255 {
                return Err(message_error("Invalid individual address."));
            }
            Ok([(nums[0] * 16 + nums[1]) as u8, nums[2] as u8])
        }
    }

    /// Length of the APDU data part for `data`.
    pub fn get_data_length(data: &[u8], is_short: bool) -> (n: usize)
        requires
            data@.len() < usize::MAX,
        ensures
            n == data_length_spec(data@.len(), is_short),
    {
        if data.len() == 0 {
            return 0;
        }
        if is_short {
            return 1;
        }
        data.len() + 1
    }

    /// Writes `data` into the datagram: short data goes into the low six
    /// bits of the octet at `data_start`, other data into the octets after it.
    pub fn write_data(datagram: &mut Vec<u8>, data: &[u8], data_start: usize, is_short: bool)
        requires
            data@.len() > 0 && is_short ==> data_start < old(datagram)@.len(),
            data@.len() > 0 && !is_short ==> data_start + 1 + data@.len() <= old(
                datagram,
            )@.len(),
        ensures
            final(datagram)@ == write_data_spec(old(datagram)@, data@, data_start as int, is_short),
    {
        if data.len() == 0 {
            return ;
        }
        if is_short {
            let b: u8 = datagram[data_start];
            let d: u8 = data[0];
            let v: u8 = (b & 0xc0) | (d & 0x3f);
            assert(v == ((b / 64) * 64 + d % 64) as u8) by (bit_vector)
                requires
                    v == (b & 0xc0) | (d & 0x3f),
            ;
            datagram.set(data_start, v);
            return ;
        }
        let ghost d0 = datagram@;
        let n: usize = datagram.len();
        let mut i: usize = 0;
        while i < data.len()
            invariant
                d0 == old(datagram)@,
                d0.len() == n,
                data_start + 1 + data@.len() <= d0.len(),
                i <= data@.len(),
                datagram@.len() == d0.len(),
                forall|k: int|
                    0 <= k < d0.len() ==> #[trigger] datagram@[k] == if data_start + 1 <= k
                        < data_start + 1 + i {
                        data@[k - data_start - 1]
                    } else {
                        d0[k]
                    },
            decreases data.len() - i,
        {
            datagram.set(data_start + 1 + i, data[i]);
            i = i + 1;
        }
        assert(datagram@ =~= write_data_spec(d0, data@, data_start as int, false));
    }

    /// Whether a text is a valid group address (`main/middle/sub`,
    /// `main/sub`, or a plain number up to 65535).
    pub fn is_valid_group_address(address: &str) -> (r: bool)
        ensures
            r == valid_group_address_spec(address@),
    {
        let chars = chars_of(address);
        let parts = split_chars(chars.as_slice(), '/');
        if parts.len() == 3 {
            let m = parse_u32(parts[0].as_slice());
            let d = parse_u32(parts[1].as_slice());
            let s = parse_u32(parts[2].as_slice());
            match (m, d, s) {
                (Some(m), Some(d), Some(s)) => {
                    return m <= 31 && d <= 7 && s <= 255;
                },
                _ => {},
            }
        } else if parts.len() == 2 {
            let m = parse_u32(parts[0].as_slice());
            let s = parse_u32(parts[1].as_slice());
            match (m, s) {
                (Some(m), Some(s)) => {
                    return m <= 31 && s <= 2047;
                },
                _ => {},
            }
        } else if parts.len() == 1 {
            match parse_u32_str(address) {
                Some(v) => {
                    return v <= 65535;
                },
                None => {},
            }
        }
        false
    }

    /// Whether a text is a valid individual address `area.line.device`.
    pub fn is_valid_individual_address(address: &str) -> (r: bool)
        ensures
            r == valid_individual_address_spec(address@),
    {
        let chars = chars_of(address);
        let parts = split_chars(chars.as_slice(), '.');
        if parts.len() != 3 {
            return false;
        }
        let a = parse_u32(parts[0].as_slice());
        let l = parse_u32(parts[1].as_slice());
        let d = parse_u32(parts[2].as_slice());
        match (a, l, d) {
            (Some(a), Some(l), Some(d)) => a <= 15 && l <= 15 && d <= 255,
            _ => false,
        }
    }

    /// Whether a buffer has the two octets of a group address.
    pub fn is_valid_group_address_buffer(buffer: &[u8]) -> (r: bool)
        ensures
            r == (buffer@.len() == 2),
    {
        buffer.len() == 2
    }
}

/// The pieces of `s` between the leftmost non-overlapping occurrences of
/// the non-empty pattern `p`.
pub fn split_pattern(s: &[char], p: &[char]) -> (parts: Vec<Vec<char>>)
    requires
        p@.len() > 0,
    ensures
        parts@.len() == split_pattern_spec(s@, p@).len(),
        forall|i: int|
            0 <= i < parts@.len() ==> #[trigger] parts@[i]@ == split_pattern_spec(s@, p@)[i],
    decreases s@.len(),
{
    if s.len() >= p.len() && starts_with(s, p) {
        let rest = vstd::slice::slice_subrange(s, p.len(), s.len());
        let tail = split_pattern(rest, p);
        let mut parts: Vec<Vec<char>> = Vec::new();
        parts.push(Vec::new());
        let ghost t = split_pattern_spec(rest@, p@);
        let mut i: usize = 0;
        let mut tail = tail;
        let ghost tail0 = tail@;
        while i < tail.len()
            invariant
                tail@ == tail0,
                tail0.len() == t.len(),
                forall|k: int| 0 <= k < tail0.len() ==> #[trigger] tail0[k]@ == t[k],
                i <= tail0.len(),
                parts@.len() == i + 1,
                parts@[0]@ == Seq::<char>::empty(),
                forall|k: int| 1 <= k <= i ==> #[trigger] parts@[k]@ == t[k - 1],
            decreases tail.len() - i,
        {
            let piece = clone_chars(&tail[i]);
            parts.push(piece);
            i = i + 1;
        }
        assert(s@.subrange(p@.len() as int, s@.len() as int) =~= rest@);
        assert(s@.subrange(0, p@.len() as int) =~= p@);
        parts
    } else if s.len() == 0 {
        let mut parts: Vec<Vec<char>> = Vec::new();
        parts.push(Vec::new());
        parts
    } else {
        let rest = vstd::slice::slice_subrange(s, 1, s.len());
        assert(rest@ =~= s@.drop_first());
        let tail = split_pattern(rest, p);
        let ghost t = split_pattern_spec(rest@, p@);
        proof {
            lemma_split_pattern_nonempty(rest@, p@);
        }
        let mut first: Vec<char> = Vec::new();
        first.push(s[0]);
        let mut j: usize = 0;
        while j < tail[0].len()
            invariant
                tail@.len() == t.len(),
                t.len() >= 1,
                tail@[0]@ == t[0],
                j <= t[0].len(),
                first@ == seq![s@[0]] + t[0].subrange(0, j as int),
            decreases tail@[0]@.len() - j,
        {
            first.push(tail[0][j]);
            assert(t[0].subrange(0, j as int + 1) =~= t[0].subrange(0, j as int).push(
                t[0][j as int],
            ));
            j = j + 1;
        }
        assert(t[0].subrange(0, t[0].len() as int) =~= t[0]);
        let mut parts: Vec<Vec<char>> = Vec::new();
        parts.push(first);
        let mut i: usize = 1;
        while i < tail.len()
            invariant
                tail@.len() == t.len(),
                forall|k: int| 0 <= k < tail@.len() ==> #[trigger] tail@[k]@ == t[k],
                1 <= i <= tail@.len(),
                parts@.len() == i,
                parts@[0]@ == seq![s@[0]] + t[0],
                forall|k: int| 1 <= k < i ==> #[trigger] parts@[k]@ == t[k],
            decreases tail.len() - i,
        {
            let piece = clone_chars(&tail[i]);
            parts.push(piece);
            i = i + 1;
        }
        parts
    }
}

proof fn lemma_split_pattern_nonempty(s: Seq<char>, p: Seq<char>)
    ensures
        split_pattern_spec(s, p).len() >= 1,
    decreases s.len(),
{
    if p.len() == 0 {
    } else if s.len() >= p.len() && s.subrange(0, p.len() as int) == p {
    } else if s.len() == 0 {
    } else {
        lemma_split_pattern_nonempty(s.drop_first(), p);
    }
}

fn starts_with(s: &[char], p: &[char]) -> (r: bool)
    requires
        s@.len() >= p@.len(),
    ensures
        r == (s@.subrange(0, p@.len() as int) == p@),
{
    let mut i: usize = 0;
    while i < p.len()
        invariant
            s@.len() >= p@.len(),
            i <= p@.len(),
            forall|k: int| 0 <= k < i ==> s@[k] == p@[k],
        decreases p.len() - i,
    {
        if s[i] != p[i] {
            assert(s@.subrange(0, p@.len() as int)[i as int] != p@[i as int]);
            return false;
        }
        i = i + 1;
    }
    assert(s@.subrange(0, p@.len() as int) =~= p@);
    true
}

fn clone_chars(v: &Vec<char>) -> (r: Vec<char>)
    ensures
        r@ == v@,
{
    let mut r: Vec<char> = Vec::new();
    let mut i: usize = 0;
    while i < v.len()
        invariant
            i <= v@.len(),
            r@ == v@.subrange(0, i as int),
        decreases v.len() - i,
    {
        r.push(v[i]);
        i = i + 1;
    }
    assert(v@.subrange(0, v@.len() as int) =~= v@);
    r
}

// ------------------------------------------------------------------
// Round trips between octets and text
// ------------------------------------------------------------------

proof fn lemma_three_parts(x: Seq<char>, y: Seq<char>, z: Seq<char>, sep: char)
    requires
        all_digits(x),
        all_digits(y),
        all_digits(z),
        !is_digit(sep),
    ensures
        split_spec(x + seq![sep] + y + seq![sep] + z, sep) == seq![x, y, z],
{
    lemma_digits_no_sep(x, sep);
    lemma_digits_no_sep(y, sep);
    lemma_digits_no_sep(z, sep);
    lemma_split_no_sep(x, sep);
    lemma_split_append(x, sep, y);
    lemma_split_append(x + seq![sep] + y, sep, z);
    assert(seq![x].push(y).push(z) =~= seq![x, y, z]);
}

proof fn lemma_two_parts(x: Seq<char>, y: Seq<char>, sep: char)
    requires
        all_digits(x),
        all_digits(y),
        !is_digit(sep),
    ensures
        split_spec(x + seq![sep] + y, sep) == seq![x, y],
{
    lemma_digits_no_sep(x, sep);
    lemma_digits_no_sep(y, sep);
    lemma_split_no_sep(x, sep);
    lemma_split_append(x, sep, y);
    assert(seq![x].push(y) =~= seq![x, y]);
}

proof fn lemma_no_slash_in_individual(x: Seq<char>, y: Seq<char>, z: Seq<char>)
    requires
        all_digits(x),
        all_digits(y),
        all_digits(z),
    ensures
        !(x + seq!['.'] + y + seq!['.'] + z).contains('/'),
{
    let t = x + seq!['.'] + y + seq!['.'] + z;
    if t.contains('/') {
        let k = choose|k: int| 0 <= k < t.len() && t[k] == '/';
        if k < x.len() {
            assert(t[k] == x[k]);
            assert(is_digit(x[k]));
        } else if k == x.len() {
        } else if k < x.len() + 1 + y.len() {
            assert(t[k] == y[k - x.len() - 1]);
            assert(is_digit(y[k - x.len() - 1]));
        } else if k == x.len() + 1 + y.len() {
        } else {
            assert(t[k] == z[k - x.len() - 2 - y.len()]);
            assert(is_digit(z[k - x.len() - 2 - y.len()]));
        }
    }
}

/// An individual address rendered as text converts back to the same two
/// octets.
pub proof fn lemma_individual_address_round_trip(hi: u8, lo: u8)
    ensures
        address_from_string_spec(address_text(hi, lo, false, true)) == Some((hi, lo)),
        address_from_string_spec(address_text(hi, lo, false, false)) == Some((hi, lo)),
{
    let a = (hi / 16) as nat;
    let b = (hi % 16) as nat;
    let c = lo as nat;
    lemma_dec_str(a);
    lemma_dec_str(b);
    lemma_dec_str(c);
    lemma_dec_str_len(a);
    lemma_dec_str_len(b);
    lemma_dec_str_len(c);
    lemma_parse_dec_str((hi / 16) as u32);
    lemma_parse_dec_str((hi % 16) as u32);
    lemma_parse_dec_str(lo as u32);
    lemma_no_slash_in_individual(dec_str(a), dec_str(b), dec_str(c));
    lemma_three_parts(dec_str(a), dec_str(b), dec_str(c), '.');
    assert((hi / 16) * 16 + hi % 16 == hi);
}

/// A three-level group address rendered as text converts back to the
/// same two octets.
pub proof fn lemma_group3_address_round_trip(hi: u8, lo: u8)
    ensures
        address_from_string_spec(address_text(hi, lo, true, true)) == Some((hi, lo)),
{
    let a = ((hi / 8) % 32) as nat;
    let b = (hi % 8) as nat;
    let c = lo as nat;
    lemma_dec_str(a);
    lemma_dec_str(b);
    lemma_dec_str(c);
    lemma_dec_str_len(a);
    lemma_dec_str_len(b);
    lemma_dec_str_len(c);
    lemma_parse_dec_str(((hi / 8) % 32) as u32);
    lemma_parse_dec_str((hi % 8) as u32);
    lemma_parse_dec_str(lo as u32);
    let t = address_text(hi, lo, true, true);
    lemma_three_parts(dec_str(a), dec_str(b), dec_str(c), '/');
    assert(t[dec_str(a).len() as int] == '/');
    assert(t.contains('/'));
    assert((hi / 8) * 8 + hi % 8 == hi);
}

/// A two-level group address rendered as text converts back to the same
/// two octets when its main group is at most 15 (the parser accepts no
/// larger main group in this form).
pub proof fn lemma_group2_address_round_trip(hi: u8, lo: u8)
    requires
        hi < 128,
    ensures
        address_from_string_spec(address_text(hi, lo, true, false)) == Some((hi, lo)),
{
    let a = (hi / 8) as nat;
    let sub = ((hi % 8) * 256 + lo) as nat;
    lemma_dec_str(a);
    lemma_dec_str(sub);
    lemma_dec_str_len(a);
    lemma_dec_str_len(sub);
    lemma_parse_dec_str((hi / 8) as u32);
    lemma_parse_dec_str(((hi % 8) * 256 + lo) as u32);
    let t = address_text(hi, lo, true, false);
    lemma_two_parts(dec_str(a), dec_str(sub), '/');
    assert(t[dec_str(a).len() as int] == '/');
    assert(t.contains('/'));
    assert((hi / 8) * 8 + hi % 8 == hi);
}

} // verus!
