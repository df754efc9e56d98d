//! Encoding of datapoint values into the octets of a group telegram.
//!
//! Values of the fractional types travel as the raw integers that
//! `KnxDataDecode` returns for them (see `DptValue`); the unit counters of
//! DPT 7 that arrive as text (`Dpt7Suffix`) hold a decimal fraction, whose
//! reading is done by the caller.
use crate::errors::KnxError;
use crate::protocol::data::knx_data_decode::{
    decode_ok, decoded, dpt_number_overflows, dpt_number_spec, fallback_spec, is_dpt13, is_dpt20,
    signed8, DptValue, KnxDataDecode,
};
use crate::utils::bytes::{be16, be32, signed16, signed32, write_i16_be, write_i32_be, write_u16_be, write_u32_be};
use crate::utils::text::{
    chars_of, parse_i8, parse_i8_spec, parse_u16, parse_u16_spec, str_eq, trim_bounds,
    trim_end_matches_spec, trim_end_pat, trim_spec, copy_chars,
};
use vstd::prelude::*;
use vstd::utf8::encode_utf8;

verus! {

/// Encoding of datapoint values.
pub struct KnxDataEncoder;

/// Whether `n` is a DPT 7 counter whose value arrives as text with a unit.
pub open spec fn is_dpt7_text(n: u32) -> bool {
    n == 7001 || n == 7002 || n == 7003 || n == 7004 || n == 7005 || n == 7006 || n == 7007
        || n == 7011 || n == 7013
}

/// Whether the main type of a type text is 1, 2 or 3 (a plain number
/// below 1000 is its own main type).
pub open spec fn is_short_spec(dpt: Seq<char>) -> bool {
    match dpt_number_spec(dpt) {
        Some(n) => {
            let m = if n / 1000 == 0 {
                n as int
            } else {
                (n / 1000) as int
            };
            1 <= m <= 3
        },
        None => false,
    }
}

/// The two octets of a 16-bit pattern, high octet first.
pub open spec fn be2(v: u16) -> Seq<u8> {
    seq![(v / 256) as u8, (v % 256) as u8]
}

/// The four octets of a 32-bit pattern, most significant first.
pub open spec fn be4(v: u32) -> Seq<u8> {
    seq![(v / 16777216) as u8, ((v / 65536) % 256) as u8, ((v / 256) % 256) as u8, (v % 256) as u8]
}

/// The octet of an 8-bit two's-complement value.
pub open spec fn octet_of_i8(v: i8) -> u8 {
    if v < 0 {
        (v + 256) as u8
    } else {
        v as u8
    }
}

/// The two-digit year field of DPT 11 for a year.
pub open spec fn year_field(y: u16) -> u8 {
    let v = if y >= 2000 {
        y - 2000
    } else if y >= 1900 {
        y - 1900
    } else {
        y as int
    };
    ((v % 256) % 128) as u8
}

/// The mode bits of DPT 6.020 for a mode text.
pub open spec fn dpt6020_mode_bits(m: Seq<char>) -> u8 {
    if m == "Modo 0 activo"@ {
        1
    } else if m == "Modo 1 activo"@ {
        2
    } else if m == "Modo 2 activo"@ {
        4
    } else {
        0
    }
}

/// The 14 octets of DPT 16: the UTF-8 text, cut or padded with zeros.
pub open spec fn dpt16_octets(text: Seq<u8>) -> Seq<u8> {
    Seq::new(14, |i: int| if i < text.len() { text[i] } else { 0u8 })
}

/// The octets that encode `data` for the resolved type, or `None` where
/// the value does not fit the type (the error `InvalidParametersForDpt`).
/// A `Raw` value is passed through for every type.
pub open spec fn encoded(resolved: u32, data: DptValue) -> Option<Seq<u8>> {
    match data {
        DptValue::Raw(v) => Some(v@),
        DptValue::Dpt1(b) => if resolved == 1 {
            Some(seq![if b { 1u8 } else { 0u8 }])
        } else {
            None
        },
        DptValue::Dpt2(v) => if resolved == 2 {
            Some(seq![((v.control * 2) % 256 + v.value % 2) as u8])
        } else {
            None
        },
        DptValue::Dpt3(v) => if resolved == 3007 || resolved == 3008 {
            Some(seq![((v.control * 8) % 256 + v.step_code % 8) as u8])
        } else {
            None
        },
        DptValue::Dpt4(c) => if resolved == 4001 || resolved == 4002 {
            let o = ((c as u32) % 256) as u8;
            if resolved == 4001 && o >= 128 {
                None
            } else {
                Some(seq![o])
            }
        } else {
            None
        },
        DptValue::Dpt5(v) => if resolved == 5 {
            Some(seq![v])
        } else {
            None
        },
        DptValue::Dpt5001(v) => if resolved == 5001 {
            Some(seq![v])
        } else {
            None
        },
        DptValue::Dpt5002(v) => if resolved == 5002 {
            Some(seq![v])
        } else {
            None
        },
        DptValue::Dpt6(v) => if resolved == 6 {
            Some(seq![octet_of_i8(v)])
        } else {
            None
        },
        DptValue::Dpt6001(s) => if resolved == 6001 {
            match parse_i8_spec(trim_end_matches_spec(s@, seq!['%'])) {
                Some(x) => Some(seq![octet_of_i8(x as i8)]),
                None => None,
            }
        } else {
            None
        },
        DptValue::Dpt6010(s) => if resolved == 6010 {
            match parse_i8_spec(trim_spec(trim_end_matches_spec(s@, " counter pulses"@))) {
                Some(x) => Some(seq![octet_of_i8(x as i8)]),
                None => None,
            }
        } else {
            None
        },
        DptValue::Dpt6020(v) => if resolved == 6020 {
            Some(seq![((if v.status@ == "Activo"@ { 8u8 } else { 0u8 }) + dpt6020_mode_bits(v.mode@)) as u8])
        } else {
            None
        },
        DptValue::Dpt7(v) => if resolved == 7 {
            Some(be2(v))
        } else {
            None
        },
        DptValue::Dpt7Suffix(_) => None,
        DptValue::Dpt7003(v) => if resolved == 7003 {
            Some(be2(v))
        } else {
            None
        },
        DptValue::Dpt7004(v) => if resolved == 7004 {
            Some(be2(v))
        } else {
            None
        },
        DptValue::Dpt7012(v) => if resolved == 7012 {
            Some(be2(
                match parse_u16_spec(trim_spec(trim_end_matches_spec(v.value@, "mA"@))) {
                    Some(x) => x as u16,
                    None => 0u16,
                },
            ))
        } else {
            None
        },
        DptValue::Dpt8(v) => if resolved == 8 {
            Some(be2(v as u16))
        } else {
            None
        },
        DptValue::Dpt9(v) => if resolved == 9 {
            Some(be2(v))
        } else {
            None
        },
        DptValue::Dpt10(v) => if resolved == 10001 {
            Some(seq![((v.day % 8) * 32 + v.hour % 32) as u8, v.minutes % 64, v.seconds % 64])
        } else {
            None
        },
        DptValue::Dpt11(v) => if resolved == 11001 {
            Some(seq![v.day % 32, v.month % 16, year_field(v.year)])
        } else {
            None
        },
        DptValue::Dpt12(v) => if resolved == 12001 || resolved == 12002 {
            Some(be4(v))
        } else {
            None
        },
        DptValue::Dpt13(v) => if is_dpt13(resolved) {
            Some(be4(v as u32))
        } else {
            None
        },
        DptValue::Dpt14(v) => if resolved == 14 {
            Some(be4(v))
        } else {
            None
        },
        DptValue::Dpt16(s) => if resolved == 16 || resolved == 16002 || resolved == 28001 {
            Some(dpt16_octets(encode_utf8(s@)))
        } else {
            None
        },
        DptValue::Dpt20(v) => if is_dpt20(resolved) {
            Some(seq![v])
        } else {
            None
        },
        DptValue::Dpt232(v) => if resolved == 232600 {
            Some(seq![v.r, v.g, v.b])
        } else {
            None
        },
        DptValue::Dpt251(v) => if resolved == 251600 {
            Some(seq![v.r.value, v.g.value, v.b.value, v.w.value, 0u8, ((if v.r.valid { 8u8 } else { 0u8 }) + (if v.g.valid { 4u8 } else { 0u8 }) + (if v.b.valid { 2u8 } else { 0u8 }) + (if v.w.valid { 1u8 } else { 0u8 })) as u8])
        } else {
            None
        },
    }
}

/// The pattern `v` as two octets, high first.
fn two_octets(v: u16) -> (r: Vec<u8>)
    ensures
        r@ == be2(v),
{
    let mut buf: Vec<u8> = vec![0u8, 0u8];
    write_u16_be(&mut buf, 0, v);
    assert(buf@ =~= be2(v));
    buf
}

/// The pattern `v` as four octets, most significant first.
fn four_octets(v: u32) -> (r: Vec<u8>)
    ensures
        r@ == be4(v),
{
    let mut buf: Vec<u8> = vec![0u8, 0u8, 0u8, 0u8];
    write_u32_be(&mut buf, 0, v);
    assert(buf@ =~= be4(v));
    buf
}

fn octet_of(v: i8) -> (r: u8)
    ensures
        r == octet_of_i8(v),
{
    if v < 0 {
        ((v as i16) + 256) as u8
    } else {
        v as u8
    }
}

/// `s` without trailing repetitions of `pat`, read as an `i8`; with
/// `trim`, surrounding whitespace is removed first.
fn parse_i8_before(s: &String, pat: &str, trim: bool) -> (r: Option<i8>)
    ensures
        match r {
            Some(x) => parse_i8_spec(
                if trim {
                    trim_spec(trim_end_matches_spec(s@, pat@))
                } else {
                    trim_end_matches_spec(s@, pat@)
                },
            ) == Some(x as int),
            None => parse_i8_spec(
                if trim {
                    trim_spec(trim_end_matches_spec(s@, pat@))
                } else {
                    trim_end_matches_spec(s@, pat@)
                },
            ) is None,
        },
{
    let cs = chars_of(s.as_str());
    let ps = chars_of(pat);
    let end = trim_end_pat(cs.as_slice(), cs.len(), ps.as_slice());
    assert(cs@.subrange(0, cs@.len() as int) =~= s@);
    let (lo, hi) = if trim {
        trim_bounds(cs.as_slice(), 0, end)
    } else {
        (0, end)
    };
    let body = copy_chars(cs.as_slice(), lo, hi);
    parse_i8(body.as_slice())
}

/// `s` without trailing repetitions of `pat` and surrounding whitespace,
/// read as a `u16`.
fn parse_u16_before(s: &String, pat: &str) -> (r: Option<u16>)
    ensures
        match r {
            Some(x) => parse_u16_spec(trim_spec(trim_end_matches_spec(s@, pat@))) == Some(x as int),
            None => parse_u16_spec(trim_spec(trim_end_matches_spec(s@, pat@))) is None,
        },
{
    let cs = chars_of(s.as_str());
    let ps = chars_of(pat);
    let end = trim_end_pat(cs.as_slice(), cs.len(), ps.as_slice());
    assert(cs@.subrange(0, cs@.len() as int) =~= s@);
    let (lo, hi) = trim_bounds(cs.as_slice(), 0, end);
    let body = copy_chars(cs.as_slice(), lo, hi);
    parse_u16(body.as_slice())
}

fn mode_bits(m: &String) -> (r: u8)
    ensures
        r == dpt6020_mode_bits(m@),
{
    if str_eq(m.as_str(), "Modo 0 activo") {
        1
    } else if str_eq(m.as_str(), "Modo 1 activo") {
        2
    } else if str_eq(m.as_str(), "Modo 2 activo") {
        4
    } else {
        0
    }
}

/// The 14 octets of a DPT 16 text.
fn text_octets(s: &String) -> (r: Vec<u8>)
    ensures
        r@ == dpt16_octets(encode_utf8(s@)),
{
    let bytes = s.as_str().as_bytes();
    let n = bytes.len();
    let mut buf: Vec<u8> = Vec::new();
    let mut i: usize = 0;
    while i < 14
        invariant
            n == bytes@.len(),
            bytes@ == encode_utf8(s@),
            i <= 14,
            buf@.len() == i,
            forall|j: int| 0 <= j < i ==> buf@[j] == (if j < n { bytes@[j] } else { 0u8 }),
        decreases 14 - i,
    {
        if i < n {
            buf.push(bytes[i]);
        } else {
            buf.push(0u8);
        }
        i = i + 1;
    }
    assert(buf@ =~= dpt16_octets(encode_utf8(s@)));
    buf
}

impl KnxDataEncoder {
    /// The number of a datapoint type text, as `KnxDataDecode::get_dpt_number`.
    pub fn get_dpt_number(dpt: &str) -> (r: Option<u32>)
        requires
            !dpt_number_overflows(dpt@),
        ensures
            r == dpt_number_spec(dpt@),
    {
        KnxDataDecode::get_dpt_number(dpt)
    }

    /// The type whose coding is used, as `KnxDataDecode::fallback_dpt`.
    pub fn fallback_dpt(dpt_num: u32) -> (r: u32)
        ensures
            r == fallback_spec(dpt_num),
    {
        KnxDataDecode::fallback_dpt(dpt_num)
    }

    /// Whether the main type of `dpt` is 1, 2 or 3 (values that travel in
    /// the low bits of the APCI octet).
    pub fn is_short_dpt(dpt: &str) -> (r: bool)
        requires
            !dpt_number_overflows(dpt@),
        ensures
            r == is_short_spec(dpt@),
    {
        match Self::get_dpt_number(dpt) {
            Some(n) => {
                let main = n / 1000;
                let m = if main == 0 {
                    n
                } else {
                    main
                };
                m >= 1 && m <= 3
            },
            None => false,
        }
    }

    /// Encodes `data` as a value of datapoint type `dpt`.
    ///
    /// A unit counter of DPT 7 given as text (`Dpt7Suffix`) for one of the
    /// types 7.001 to 7.013 holds a decimal fraction; the caller reads it
    /// and encodes the number as `Dpt7`, `Dpt7003` or `Dpt7004`.
    pub fn encode_this(dpt: &str, data: &DptValue) -> (r: Result<Vec<u8>, KnxError>)
        requires
            !dpt_number_overflows(dpt@),
            dpt_number_spec(dpt@) matches Some(n) && is_dpt7_text(fallback_spec(n))
                ==> !(data is Dpt7Suffix),
        ensures
            dpt_number_spec(dpt@) is None ==> r == Err::<Vec<u8>, KnxError>(KnxError::DPTNotFound),
            dpt_number_spec(dpt@) matches Some(n) ==> match encoded(fallback_spec(n), *data) {
                Some(b) => r matches Ok(v) && v@ == b,
                None => r == Err::<Vec<u8>, KnxError>(KnxError::InvalidParametersForDpt),
            },
    {
        let n = match Self::get_dpt_number(dpt) {
            Some(n) => n,
            None => {
                return Err(KnxError::DPTNotFound);
            },
        };
        let resolved = Self::fallback_dpt(n);
        match encode_value(resolved, data) {
            Some(v) => Ok(v),
            None => Err(KnxError::InvalidParametersForDpt),
        }
    }
}

/// The octets of `data` for the resolved type.
fn encode_value(resolved: u32, data: &DptValue) -> (r: Option<Vec<u8>>)
    requires
        is_dpt7_text(resolved) ==> !(data is Dpt7Suffix),
    ensures
        match encoded(resolved, *data) {
            Some(b) => r matches Some(v) && v@ == b,
            None => r is None,
        },
{
    match data {
        DptValue::Raw(v) => Some(v.clone()),
        DptValue::Dpt1(b) => if resolved == 1 {
            Some(vec![if *b { 1u8 } else { 0u8 }])
        } else {
            None
        },
        DptValue::Dpt2(v) => if resolved == 2 {
            Some(vec![((v.control as u16 * 2) % 256 + (v.value % 2) as u16) as u8])
        } else {
            None
        },
        DptValue::Dpt3(v) => if resolved == 3007 || resolved == 3008 {
            Some(vec![((v.control as u16 * 8) % 256 + (v.step_code % 8) as u16) as u8])
        } else {
            None
        },
        DptValue::Dpt4(c) => if resolved == 4001 || resolved == 4002 {
            let o = ((*c as u32) % 256) as u8;
            if resolved == 4001 && o >= 128 {
                None
            } else {
                Some(vec![o])
            }
        } else {
            None
        },
        DptValue::Dpt5(v) => if resolved == 5 {
            Some(vec![*v])
        } else {
            None
        },
        DptValue::Dpt5001(v) => if resolved == 5001 {
            Some(vec![*v])
        } else {
            None
        },
        DptValue::Dpt5002(v) => if resolved == 5002 {
            Some(vec![*v])
        } else {
            None
        },
        DptValue::Dpt6(v) => if resolved == 6 {
            Some(vec![octet_of(*v)])
        } else {
            None
        },
        DptValue::Dpt6001(s) => if resolved == 6001 {
            proof {
                reveal_strlit("%");
            }
            assert("%"@ =~= seq!['%']);
            match parse_i8_before(s, "%", false) {
                Some(x) => Some(vec![octet_of(x)]),
                None => None,
            }
        } else {
            None
        },
        DptValue::Dpt6010(s) => if resolved == 6010 {
            match parse_i8_before(s, " counter pulses", true) {
                Some(x) => Some(vec![octet_of(x)]),
                None => None,
            }
        } else {
            None
        },
        DptValue::Dpt6020(v) => if resolved == 6020 {
            let status: u8 = if str_eq(v.status.as_str(), "Activo") {
                8
            } else {
                0
            };
            Some(vec![status + mode_bits(&v.mode)])
        } else {
            None
        },
        DptValue::Dpt7(v) => if resolved == 7 {
            Some(two_octets(*v))
        } else {
            None
        },
        DptValue::Dpt7Suffix(_) => None,
        DptValue::Dpt7003(v) => if resolved == 7003 {
            Some(two_octets(*v))
        } else {
            None
        },
        DptValue::Dpt7004(v) => if resolved == 7004 {
            Some(two_octets(*v))
        } else {
            None
        },
        DptValue::Dpt7012(v) => if resolved == 7012 {
            let x: u16 = match parse_u16_before(&v.value, "mA") {
                Some(x) => x,
                None => 0,
            };
            Some(two_octets(x))
        } else {
            None
        },
        DptValue::Dpt8(v) => if resolved == 8 {
            let mut buf: Vec<u8> = vec![0u8, 0u8];
            write_i16_be(&mut buf, 0, *v);
            assert(buf@ =~= be2(*v as u16));
            Some(buf)
        } else {
            None
        },
        DptValue::Dpt9(v) => if resolved == 9 {
            Some(two_octets(*v))
        } else {
            None
        },
        DptValue::Dpt10(v) => if resolved == 10001 {
            Some(vec![((v.day % 8) * 32 + v.hour % 32) as u8, v.minutes % 64, v.seconds % 64])
        } else {
            None
        },
        DptValue::Dpt11(v) => if resolved == 11001 {
            let y = v.year;
            let yv: u16 = if y >= 2000 {
                y - 2000
            } else if y >= 1900 {
                y - 1900
            } else {
                y
            };
            Some(vec![v.day % 32, v.month % 16, ((yv % 256) % 128) as u8])
        } else {
            None
        },
        DptValue::Dpt12(v) => if resolved == 12001 || resolved == 12002 {
            Some(four_octets(*v))
        } else {
            None
        },
        DptValue::Dpt13(v) => if resolved == 13 || resolved == 13001 || resolved == 13002
            || resolved == 13010 || resolved == 13011 || resolved == 13012 || resolved == 13013
            || resolved == 13014 || resolved == 13015 || resolved == 13016 || resolved == 13100 {
            let mut buf: Vec<u8> = vec![0u8, 0u8, 0u8, 0u8];
            write_i32_be(&mut buf, 0, *v);
            assert(buf@ =~= be4(*v as u32));
            Some(buf)
        } else {
            None
        },
        DptValue::Dpt14(v) => if resolved == 14 {
            Some(four_octets(*v))
        } else {
            None
        },
        DptValue::Dpt16(s) => if resolved == 16 || resolved == 16002 || resolved == 28001 {
            Some(text_octets(s))
        } else {
            None
        },
        DptValue::Dpt20(v) => if resolved == 20 || resolved == 20001 || resolved == 20002
            || resolved == 20003 || resolved == 20004 || resolved == 20005 || resolved == 20006
            || resolved == 20007 || resolved == 20008 || resolved == 20011 || resolved == 20012
            || resolved == 20013 || resolved == 20014 || resolved == 20017 || resolved == 20020
            || resolved == 20021 || resolved == 20022 {
            Some(vec![*v])
        } else {
            None
        },
        DptValue::Dpt232(v) => if resolved == 232600 {
            Some(vec![v.r, v.g, v.b])
        } else {
            None
        },
        DptValue::Dpt251(v) => if resolved == 251600 {
            let bits: u8 = (if v.r.valid {
                8u8
            } else {
                0u8
            }) + (if v.g.valid {
                4u8
            } else {
                0u8
            }) + (if v.b.valid {
                2u8
            } else {
                0u8
            }) + (if v.w.valid {
                1u8
            } else {
                0u8
            });
            Some(vec![v.r.value, v.g.value, v.b.value, v.w.value, 0u8, bits])
        } else {
            None
        },
    }
}

proof fn lemma_be2(v: u16)
    ensures
        be2(v).len() == 2,
        be16(be2(v)[0], be2(v)[1]) == v,
{
    assert(((v / 256) as u8) as int == v / 256);
    assert(((v % 256) as u8) as int == v % 256);
}

proof fn lemma_be4(v: u32)
    ensures
        be4(v).len() == 4,
        be32(be4(v)[0], be4(v)[1], be4(v)[2], be4(v)[3]) == v,
{
    let b = be4(v);
    assert(b[0] as int == v / 16777216);
    assert(b[1] as int == (v / 65536) % 256);
    assert(b[2] as int == (v / 256) % 256);
    assert(b[3] as int == v % 256);
    assert((v / 16777216) * 16777216 + ((v / 65536) % 256) * 65536 + ((v / 256) % 256) * 256 + v
        % 256 == v) by (nonlinear_arith);
}

proof fn lemma_signed16(v: i16)
    ensures
        signed16((v as u16) as int) == v,
{
    let u = v as u16;
    assert(if u >= 32768 { u - 65536 == v } else { u == v }) by (bit_vector)
        requires
            u == v as u16,
    ;
}

proof fn lemma_signed32(v: i32)
    ensures
        signed32((v as u32) as int) == v,
{
    let u = v as u32;
    assert(if u >= 2147483648 { u - 4294967296 == v } else { u == v }) by (bit_vector)
        requires
            u == v as u32,
    ;
}

/// The value types whose encoding decodes back to the same value: single
/// octets, 16- and 32-bit integers and raw patterns, and RGB colours (a
/// DPT 9 pattern other than the invalid 0x7FFF).
pub open spec fn round_trips(resolved: u32, v: DptValue) -> bool {
    match v {
        DptValue::Dpt1(_) => resolved == 1,
        DptValue::Dpt5(_) => resolved == 5,
        DptValue::Dpt5001(_) => resolved == 5001,
        DptValue::Dpt5002(_) => resolved == 5002,
        DptValue::Dpt6(_) => resolved == 6,
        DptValue::Dpt7(_) => resolved == 7,
        DptValue::Dpt7003(_) => resolved == 7003,
        DptValue::Dpt7004(_) => resolved == 7004,
        DptValue::Dpt8(_) => resolved == 8,
        DptValue::Dpt9(x) => resolved == 9 && x != 0x7FFF,
        DptValue::Dpt12(_) => resolved == 12001 || resolved == 12002,
        DptValue::Dpt13(_) => is_dpt13(resolved),
        DptValue::Dpt14(_) => resolved == 14,
        DptValue::Dpt20(_) => is_dpt20(resolved),
        DptValue::Dpt232(_) => resolved == 232600,
        _ => false,
    }
}

/// Decoding what a value was encoded to gives the value back, for the
/// types of `round_trips`.
pub proof fn lemma_encode_decode_round_trip(resolved: u32, v: DptValue)
    requires
        round_trips(resolved, v),
    ensures
        encoded(resolved, v) matches Some(b) && decode_ok(resolved, b) && decoded(resolved, b, v),
{
    match v {
        DptValue::Dpt6(x) => {
            assert(signed8(octet_of_i8(x) as int) == x);
        },
        DptValue::Dpt7(x) => {
            lemma_be2(x);
        },
        DptValue::Dpt7003(x) => {
            lemma_be2(x);
        },
        DptValue::Dpt7004(x) => {
            lemma_be2(x);
        },
        DptValue::Dpt8(x) => {
            lemma_be2(x as u16);
            lemma_signed16(x);
        },
        DptValue::Dpt9(x) => {
            lemma_be2(x);
        },
        DptValue::Dpt12(x) => {
            lemma_be4(x);
        },
        DptValue::Dpt13(x) => {
            lemma_be4(x as u32);
            lemma_signed32(x);
        },
        DptValue::Dpt14(x) => {
            lemma_be4(x);
        },
        _ => {},
    }
}


/// A DPT 10.001 time of day is read back as written: day of week (0 to
/// 7), hour (0 to 31), minutes and seconds (0 to 63) keep their values,
/// so octet 1 carries the minutes and octet 2 the seconds.
pub proof fn lemma_time_of_day_round_trip(v: DptValue)
    requires
        v matches DptValue::Dpt10(t) && t.day <= 7 && t.hour <= 31 && t.minutes <= 63 && t.seconds <= 63,
    ensures
        encoded(10001, v) matches Some(b) && decode_ok(10001, b) && forall|w: DptValue| #[trigger] decoded(10001, b, w) ==> (
            w matches DptValue::Dpt10(x) && x.day == v->Dpt10_0.day && x.hour == v->Dpt10_0.hour
                && x.minutes == v->Dpt10_0.minutes && x.seconds == v->Dpt10_0.seconds),
{
    let t = v->Dpt10_0;
    let b0 = ((t.day % 8) * 32 + t.hour % 32) as u8;
    assert(b0 / 32 == t.day && b0 % 32 == t.hour);
}

/// A DPT 2 value (control and value bits) is read back as written: the
/// control bit travels in bit 1 and the value bit in bit 0.
pub proof fn lemma_control_value_round_trip(v: DptValue)
    requires
        v matches DptValue::Dpt2(x) && x.control <= 1 && x.value <= 1,
    ensures
        encoded(2, v) matches Some(b) && decode_ok(2, b) && forall|w: DptValue| #[trigger] decoded(2, b, w) ==> (
            w matches DptValue::Dpt2(y) && y.control == v->Dpt2_0.control && y.value
                == v->Dpt2_0.value),
{
}

/// A DPT 3 step (direction bit and step code) is read back as written: the
/// direction travels in bit 3 and the step code in bits 2..0.
pub proof fn lemma_step_round_trip(resolved: u32, v: DptValue)
    requires
        resolved == 3007 || resolved == 3008,
        v matches DptValue::Dpt3(x) && x.control <= 1 && x.step_code <= 7,
    ensures
        encoded(resolved, v) matches Some(b) && decode_ok(resolved, b) && forall|w: DptValue| #[trigger] decoded(resolved, b, w) ==> (
            w matches DptValue::Dpt3(y) && y.control == v->Dpt3_0.control && y.step_code
                == v->Dpt3_0.step_code),
{
}

/// A DPT 4 character is read back as written: an ASCII character for
/// 4.001, a Latin-1 character for 4.002.
pub proof fn lemma_character_round_trip(resolved: u32, v: DptValue)
    requires
        v matches DptValue::Dpt4(c) && ((resolved == 4001 && (c as u32) < 128) || (resolved == 4002
            && (c as u32) < 256)),
    ensures
        encoded(resolved, v) matches Some(b) && decode_ok(resolved, b) && decoded(resolved, b, v),
{
    let c = v->Dpt4_0;
    let o = ((c as u32) % 256) as u8;
    assert(o as u32 == c as u32);
    assert((o as char) == c);
}

/// A DPT 11.001 date from 1990 to 2089 is read back as written: day (0 to
/// 31), month (0 to 15) and year keep their values.
pub proof fn lemma_date_round_trip(v: DptValue)
    requires
        v matches DptValue::Dpt11(d) && d.day <= 31 && d.month <= 15 && 1990 <= d.year <= 2089,
    ensures
        encoded(11001, v) matches Some(b) && decode_ok(11001, b) && forall|w: DptValue| #[trigger] decoded(11001, b, w) ==> (
            w matches DptValue::Dpt11(x) && x.day == v->Dpt11_0.day && x.month == v->Dpt11_0.month
                && x.year == v->Dpt11_0.year),
{
}

/// Every DPT 11.001 year octet names a year from 1990 to 2089, the one
/// whose last two digits are the octet's low seven bits (below 100).
pub proof fn lemma_date_year_octet(b: Seq<u8>, w: DptValue)
    requires
        b.len() >= 3,
        b[2] % 128 < 100,
        decoded(11001, b, w),
    ensures
        w matches DptValue::Dpt11(x) && 1990 <= x.year <= 2089 && x.year % 100 == b[2] % 128,
{
}
} // verus!
