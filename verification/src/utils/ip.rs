//! IPv4 addresses in dotted-quad text, read with the rules of
//! `Ipv4Addr::from_str` and written as its `Display` does.
use crate::utils::text::{all_digits, chars_of, dec_str, digits_value, is_digit, parse_u32, parse_u32_spec, push_char, push_decimal, split_chars, split_spec, lemma_digits_value_nonneg};
use vstd::prelude::*;

verus! {

/// Whether `p` is one octet of a dotted quad: one to three digits, no
/// leading zero unless the octet is `0`, and at most 255.
pub open spec fn octet_text_ok(p: Seq<char>) -> bool {
    &&& 1 <= p.len() <= 3
    &&& all_digits(p)
    &&& (p.len() > 1 ==> p[0] != '0')
    &&& digits_value(p) <= 255
}

/// The address that a dotted quad spells.
pub open spec fn parse_ipv4_spec(s: Seq<char>) -> Option<Seq<u8>> {
    let parts = split_spec(s, '.');
    if parts.len() == 4 && octet_text_ok(parts[0]) && octet_text_ok(parts[1]) && octet_text_ok(
        parts[2],
    ) && octet_text_ok(parts[3]) {
        Some(
            seq![
                digits_value(parts[0]) as u8,
                digits_value(parts[1]) as u8,
                digits_value(parts[2]) as u8,
                digits_value(parts[3]) as u8,
            ],
        )
    } else {
        None
    }
}

/// The dotted-quad text of an address.
pub open spec fn ipv4_text(a: Seq<u8>) -> Seq<char> {
    dec_str(a[0] as nat) + seq!['.'] + dec_str(a[1] as nat) + seq!['.'] + dec_str(a[2] as nat)
        + seq!['.'] + dec_str(a[3] as nat)
}

fn octet_of_text(p: &Vec<char>) -> (r: Option<u8>)
    ensures
        octet_text_ok(p@) ==> (r matches Some(x) && x as int == digits_value(p@)),
        !octet_text_ok(p@) ==> r is None,
{
    let n = p.len();
    if n < 1 || n > 3 {
        return None;
    }
    if n > 1 && p[0] == '0' {
        return None;
    }
    if p[0] == '+' {
        assert(!is_digit(p@[0]));
        return None;
    }
    proof {
        if all_digits(p@) {
            lemma_digits_value_nonneg(p@);
        }
    }
    assert(p@.len() > 0 && p@[0] != '+');
    match parse_u32(p.as_slice()) {
        Some(v) => {
            if v <= 255 {
                Some(v as u8)
            } else {
                None
            }
        },
        None => None,
    }
}

/// Reads a dotted-quad IPv4 address.
pub fn parse_ipv4(s: &str) -> (r: Option<[u8; 4]>)
    ensures
        match parse_ipv4_spec(s@) {
            Some(a) => r matches Some(x) && x@ == a,
            None => r is None,
        },
{
    let cs = chars_of(s);
    let parts = split_chars(cs.as_slice(), '.');
    if parts.len() != 4 {
        return None;
    }
    let a = match octet_of_text(&parts[0]) {
        Some(v) => v,
        None => {
            return None;
        },
    };
    let b = match octet_of_text(&parts[1]) {
        Some(v) => v,
        None => {
            return None;
        },
    };
    let c = match octet_of_text(&parts[2]) {
        Some(v) => v,
        None => {
            return None;
        },
    };
    let d = match octet_of_text(&parts[3]) {
        Some(v) => v,
        None => {
            return None;
        },
    };
    let r = [a, b, c, d];
    proof {
        lemma_digits_value_nonneg(parts@[0]@);
        lemma_digits_value_nonneg(parts@[1]@);
        lemma_digits_value_nonneg(parts@[2]@);
        lemma_digits_value_nonneg(parts@[3]@);
    }
    assert(r@ =~= parse_ipv4_spec(s@)->0);
    Some(r)
}

/// Writes an address as a dotted quad.
pub fn ipv4_string(a: &[u8; 4]) -> (s: String)
    ensures
        s@ == ipv4_text(a@),
{
    let mut s = String::new();
    push_decimal(&mut s, a[0] as u32);
    push_char(&mut s, '.');
    push_decimal(&mut s, a[1] as u32);
    push_char(&mut s, '.');
    push_decimal(&mut s, a[2] as u32);
    push_char(&mut s, '.');
    push_decimal(&mut s, a[3] as u32);
    assert(s@ =~= ipv4_text(a@));
    s
}

/// Whether an address is 0.0.0.0.
pub fn is_unspecified(a: &[u8; 4]) -> (r: bool)
    ensures
        r == (a@ == seq![0u8, 0u8, 0u8, 0u8]),
{
    let r = a[0] == 0 && a[1] == 0 && a[2] == 0 && a[3] == 0;
    if r {
        assert(a@ =~= seq![0u8, 0u8, 0u8, 0u8]);
    }
    r
}

/// Whether two addresses are equal.
pub fn ip_eq(a: &[u8; 4], b: &[u8; 4]) -> (r: bool)
    ensures
        r == (a@ == b@),
{
    let r = a[0] == b[0] && a[1] == b[1] && a[2] == b[2] && a[3] == b[3];
    if r {
        assert(a@ =~= b@);
    } else {
        assert(a@ != b@) by {
            if a@ == b@ {
                assert(a@[0] == b@[0] && a@[1] == b@[1] && a@[2] == b@[2] && a@[3] == b@[3]);
            }
        }
    }
    r
}

} // verus!
