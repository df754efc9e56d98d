//! Decoding of datapoint values from the octets of a group telegram.
//!
//! Datapoint types whose values are fractional (DPT 5.001, 5.002, 7.003,
//! 7.004, 9 and 14) are returned as the raw integers the octets hold; the
//! scaling into fractional numbers is done by the caller.
use crate::errors::KnxError;
use crate::protocol::knxnetip_structures::{until_nul, until_nul_exec, utf8_lossy, utf8_lossy_chars};
use crate::utils::bytes::{be16, be32, read_i16_be, read_i32_be, read_u16_be, read_u32_be, signed16, signed32};
use crate::utils::text::{
    dec_str, parse_u32, parse_u32_spec, push_char, push_decimal, push_signed_decimal, push_str,
    signed_dec_str, split_chars, split_spec, chars_of, contains_char, string_of,
};
use vstd::prelude::*;

verus! {

/// DPT 2: control bit and value bit.
#[derive(Debug, Clone, PartialEq)]
pub struct Dpt2Value {
    pub control: u8,
    pub value: u8,
    pub description: String,
}

/// DPT 3: direction and step code.
#[derive(Debug, Clone, PartialEq)]
pub struct Dpt3Value {
    pub control: u8,
    pub step_code: u8,
    pub action: String,
    pub description: String,
}

/// DPT 6.020: status and mode.
#[derive(Debug, Clone, PartialEq)]
pub struct Dpt6020Value {
    pub status: String,
    pub mode: String,
}

/// DPT 7.012: current and bus power status.
#[derive(Debug, Clone, PartialEq)]
pub struct Dpt7012Value {
    pub value: String,
    pub status: String,
}

/// DPT 10.001: day of week and time of day.
#[derive(Debug, Clone, PartialEq)]
pub struct Dpt10Value {
    pub day: u8,
    pub day_name: String,
    pub hour: u8,
    pub minutes: u8,
    pub seconds: u8,
}

/// DPT 11.001: date.
#[derive(Debug, Clone, PartialEq)]
pub struct Dpt11Value {
    pub day: u8,
    pub month: u8,
    pub year: u16,
    pub formatted: String,
}

/// DPT 232.600: RGB colour.
#[derive(Debug, Clone, PartialEq)]
pub struct Dpt232Value {
    pub r: u8,
    pub g: u8,
    pub b: u8,
}

/// One channel of DPT 251.600: value and validity.
#[derive(Debug, Clone, PartialEq)]
pub struct Dpt251Val {
    pub value: u8,
    pub valid: bool,
}

/// DPT 251.600: RGBW colour with validity flags.
#[derive(Debug, Clone, PartialEq)]
pub struct Dpt251Value {
    pub r: Dpt251Val,
    pub g: Dpt251Val,
    pub b: Dpt251Val,
    pub w: Dpt251Val,
}

/// A decoded datapoint value. Fractional types hold their raw integers:
/// `Dpt5001` and `Dpt5002` the octet, `Dpt7003` and `Dpt7004` the 16-bit
/// value, `Dpt9` the 16-bit float pattern and `Dpt14` the 32-bit float
/// pattern.
#[derive(Debug, Clone, PartialEq)]
pub enum DptValue {
    Dpt1(bool),
    Dpt2(Dpt2Value),
    Dpt3(Dpt3Value),
    Dpt4(char),
    Dpt5(u8),
    Dpt5001(u8),
    Dpt5002(u8),
    Dpt6(i8),
    Dpt6001(String),
    Dpt6010(String),
    Dpt6020(Dpt6020Value),
    Dpt7(u16),
    Dpt7Suffix(String),
    Dpt7003(u16),
    Dpt7004(u16),
    Dpt7012(Dpt7012Value),
    Dpt8(i16),
    Dpt9(u16),
    Dpt10(Dpt10Value),
    Dpt11(Dpt11Value),
    Dpt12(u32),
    Dpt13(i32),
    Dpt14(u32),
    Dpt16(String),
    Dpt20(u8),
    Dpt232(Dpt232Value),
    Dpt251(Dpt251Value),
    Raw(Vec<u8>),
}

/// Decoding of datapoint values.
pub struct KnxDataDecode;

/// The number of a datapoint type text: `main.sub` gives
/// `main * 1000 + sub`, otherwise the text is read as a plain number.
pub open spec fn dpt_number_spec(dpt: Seq<char>) -> Option<u32> {
    let parts = split_spec(dpt, '.');
    if dpt.contains('.') && parts.len() == 2 && parse_u32_spec(parts[0]) is Some
        && parse_u32_spec(parts[1]) is Some {
        Some((parse_u32_spec(parts[0])->0 * 1000 + parse_u32_spec(parts[1])->0) as u32)
    } else {
        parse_u32_spec(dpt)
    }
}

/// Whether a `main.sub` text would overflow the 32-bit type number.
pub open spec fn dpt_number_overflows(dpt: Seq<char>) -> bool {
    let parts = split_spec(dpt, '.');
    dpt.contains('.') && parts.len() == 2 && parse_u32_spec(parts[0]) is Some
        && parse_u32_spec(parts[1]) is Some && parse_u32_spec(parts[0])->0 * 1000
        + parse_u32_spec(parts[1])->0 > u32::MAX
}

/// Whether `decode_this` can be called on `dpt` and `b`: the type number
/// fits in 32 bits, and a two-octet type does not come with one octet.
pub open spec fn decode_allowed(dpt: Seq<char>, b: Seq<u8>) -> bool {
    &&& !dpt_number_overflows(dpt)
    &&& (dpt_number_spec(dpt) matches Some(n) && needs_two_octets(fallback_spec(n)) ==> b.len() != 1)
}

/// The datapoint types that have their own coding.
pub open spec fn known_dpts() -> Seq<u32> {
    seq![
        1u32, 2, 3007, 3008, 4001, 4002, 5, 5001, 5002, 6, 6001, 6010, 6020, 7, 7001, 7002, 7003,
        7004, 7005, 7006, 7007, 7011, 7012, 7013, 8, 9, 10001, 11001, 12001, 12002, 13, 13001,
        13002, 13010, 13011, 13012, 13013, 13014, 13015, 13016, 13100, 14, 15000, 16, 16002,
        20, 20001, 20002, 20003, 20004, 20005, 20006, 20007, 20008, 20011, 20012, 20013, 20014,
        20017, 20020, 20021, 20022, 27001, 28001, 29, 29010, 29011, 29012, 232600, 238600,
        245600, 250600, 251600,
    ]
}

/// The type whose coding is used for `n`: `n` itself when it has one,
/// else its main type when that has one, else `n`.
pub open spec fn fallback_spec(n: u32) -> u32 {
    if known_dpts().contains(n) {
        n
    } else if known_dpts().contains(n / 1000) {
        n / 1000
    } else {
        n
    }
}

/// The two's-complement value of an octet.
pub open spec fn signed8(v: int) -> int {
    if v >= 128 {
        v - 256
    } else {
        v
    }
}

/// Whether `n` is one of the types of DPT 13.
pub open spec fn is_dpt13(n: u32) -> bool {
    n == 13 || n == 13001 || n == 13002 || n == 13010 || n == 13011 || n == 13012 || n == 13013
        || n == 13014 || n == 13015 || n == 13016 || n == 13100
}

/// Whether `n` is one of the types of DPT 20.
pub open spec fn is_dpt20(n: u32) -> bool {
    n == 20 || n == 20001 || n == 20002 || n == 20003 || n == 20004 || n == 20005 || n == 20006
        || n == 20007 || n == 20008 || n == 20011 || n == 20012 || n == 20013 || n == 20014 || n
        == 20017 || n == 20020 || n == 20021 || n == 20022
}

/// Whether `n` is one of the 16-bit counters with a unit text.
pub open spec fn is_dpt7_unit(n: u32) -> bool {
    n == 7001 || n == 7002 || n == 7005 || n == 7006 || n == 7007 || n == 7011 || n == 7013
}

/// Whether `n` reads two octets (and panics with fewer).
pub open spec fn needs_two_octets(n: u32) -> bool {
    is_dpt7_unit(n) || n == 7003 || n == 7004 || n == 7012
}

/// The unit text of a DPT 7 counter.
pub open spec fn dpt7_unit(n: u32) -> Seq<char> {
    if n == 7001 {
        "pulses"@
    } else if n == 7002 {
        "ms"@
    } else if n == 7005 {
        "s"@
    } else if n == 7006 {
        "min"@
    } else if n == 7007 {
        "h"@
    } else if n == 7011 {
        "mm"@
    } else {
        "lux"@
    }
}

/// Description of a DPT 2 value.
pub open spec fn dpt2_description(control: u8, value: u8) -> Seq<char> {
    if control == 0 {
        if value == 0 {
            "No control (DPT_Enable_Control)"@
        } else {
            "No control (DPT_Ramp_Control)"@
        }
    } else {
        if value == 0 {
            "Control. Function value 0 (DPT_Alarm_Control)"@
        } else {
            "Control. Function value 1 (DPT_BinaryValue_Control)"@
        }
    }
}

/// Two to the power `e`.
pub open spec fn pow2(e: nat) -> nat
    decreases e,
{
    if e == 0 {
        1
    } else {
        2 * pow2((e - 1) as nat)
    }
}

/// Description of a DPT 3 step code.
pub open spec fn dpt3_description(step: u8) -> Seq<char> {
    if step == 0 {
        "Break"@
    } else {
        "StepCode "@ + dec_str(step as nat) + " (Intervals: "@ + dec_str(pow2((step - 1) as nat))
            + seq![')']
    }
}

/// The mode text of DPT 6.020.
pub open spec fn dpt6020_mode(m: u8) -> Seq<char> {
    if m == 1 {
        "Modo 0 activo"@
    } else if m == 2 {
        "Modo 1 activo"@
    } else if m == 4 {
        "Modo 2 activo"@
    } else {
        "Modo desconocido"@
    }
}

/// The name of a day of week (0 is no day).
pub open spec fn day_name(d: u8) -> Seq<char> {
    if d == 0 {
        "No day"@
    } else if d == 1 {
        "Monday"@
    } else if d == 2 {
        "Tuesday"@
    } else if d == 3 {
        "Wednesday"@
    } else if d == 4 {
        "Thursday"@
    } else if d == 5 {
        "Friday"@
    } else if d == 6 {
        "Saturday"@
    } else {
        "Sunday"@
    }
}

/// A number below 100 with two digits.
pub open spec fn pad2(n: nat) -> Seq<char> {
    if n < 10 {
        seq!['0'] + dec_str(n)
    } else {
        dec_str(n)
    }
}

/// The year of a DPT 11 date: 1990 to 2089.
pub open spec fn dpt11_year(b: u8) -> u16 {
    let y = b % 128;
    if y >= 90 {
        (y + 1900) as u16
    } else {
        (y + 2000) as u16
    }
}

/// Whether `resolved` and `b` decode without error.
pub open spec fn decode_ok(resolved: u32, b: Seq<u8>) -> bool {
    b.len() > 0 && if resolved == 4001 {
        b[0] < 128
    } else if resolved == 9 {
        b.len() >= 2 && be16(b[0], b[1]) != 0x7FFF
    } else if resolved == 10001 || resolved == 11001 || resolved == 232600 {
        b.len() >= 3
    } else if resolved == 12001 || resolved == 12002 || is_dpt13(resolved) || resolved == 14 {
        b.len() >= 4
    } else if resolved == 251600 {
        b.len() >= 6
    } else {
        true
    }
}

/// Whether `n` is one of the types of DPT 1 to 6.
pub open spec fn is_small_type(n: u32) -> bool {
    n == 1 || n == 2 || n == 3007 || n == 3008 || n == 4001 || n == 4002 || n == 5 || n == 5001
        || n == 5002 || n == 6 || n == 6001 || n == 6010 || n == 6020
}

/// Whether `n` is one of the types of DPT 7 to 9.
pub open spec fn is_mid_type(n: u32) -> bool {
    n == 7 || is_dpt7_unit(n) || n == 7003 || n == 7004 || n == 7012 || n == 8 || n == 9
}

/// Whether `v` is the value decoded from `b` for the resolved type
/// (for `b` with `decode_ok`).
pub open spec fn decoded(resolved: u32, b: Seq<u8>, v: DptValue) -> bool {
    if is_small_type(resolved) {
        decoded_small(resolved, b, v)
    } else if is_mid_type(resolved) {
        decoded_mid(resolved, b, v)
    } else {
        decoded_large(resolved, b, v)
    }
}

/// `decoded` for the types of DPT 1 to 6.
pub open spec fn decoded_small(resolved: u32, b: Seq<u8>, v: DptValue) -> bool {
    let b0 = b[0];
    if resolved == 1 {
        v == DptValue::Dpt1(b0 % 64 != 0)
    } else if resolved == 2 {
        v matches DptValue::Dpt2(x) && x.control == (b0 / 2) % 2 && x.value == b0 % 2
            && x.description@ == dpt2_description(x.control, x.value)
    } else if resolved == 3007 || resolved == 3008 {
        v matches DptValue::Dpt3(x) && x.control == (b0 / 8) % 2 && x.step_code == b0 % 8
            && x.action@ == (if x.control == 0 {
            "Decrease"@
        } else {
            "Increase"@
        }) && x.description@ == dpt3_description(x.step_code)
    } else if resolved == 4001 || resolved == 4002 {
        v == DptValue::Dpt4(b0 as char)
    } else if resolved == 5 {
        v == DptValue::Dpt5(b0)
    } else if resolved == 5001 {
        v == DptValue::Dpt5001(b0)
    } else if resolved == 5002 {
        v == DptValue::Dpt5002(b0)
    } else if resolved == 6 {
        v matches DptValue::Dpt6(x) && x == signed8(b0 as int)
    } else if resolved == 6001 {
        v matches DptValue::Dpt6001(s) && s@ == signed_dec_str(signed8(b0 as int)) + seq!['%']
    } else if resolved == 6010 {
        v matches DptValue::Dpt6010(s) && s@ == signed_dec_str(signed8(b0 as int))
            + " counter pulses"@
    } else {
        v matches DptValue::Dpt6020(x) && x.status@ == (if b0 / 8 == 1 {
            "Activo"@
        } else {
            "Inactivo"@
        }) && x.mode@ == dpt6020_mode(b0 % 8)
    }
}

/// `decoded` for the types of DPT 7 to 9.
pub open spec fn decoded_mid(resolved: u32, b: Seq<u8>, v: DptValue) -> bool {
    let b0 = b[0];
    if resolved == 7 {
        v matches DptValue::Dpt7(x) && x == (if b.len() == 1 {
            b0 as int
        } else {
            be16(b0, b[1])
        })
    } else if is_dpt7_unit(resolved) {
        v matches DptValue::Dpt7Suffix(s) && s@ == dec_str(be16(b0, b[1]) as nat) + dpt7_unit(
            resolved,
        )
    } else if resolved == 7003 {
        v matches DptValue::Dpt7003(x) && x == be16(b0, b[1])
    } else if resolved == 7004 {
        v matches DptValue::Dpt7004(x) && x == be16(b0, b[1])
    } else if resolved == 7012 {
        v matches DptValue::Dpt7012(x) && x.value@ == dec_str(be16(b0, b[1]) as nat) + "mA"@
            && x.status@ == (if be16(b0, b[1]) == 0 {
            "No bus power supply functionality available"@
        } else {
            Seq::empty()
        })
    } else if resolved == 8 {
        v matches DptValue::Dpt8(x) && x == (if b.len() == 1 {
            signed8(b0 as int)
        } else {
            signed16(be16(b0, b[1]))
        })
    } else {
        v matches DptValue::Dpt9(x) && x == be16(b0, b[1])
    }
}

/// `decoded` for the other types; those without a coding of their own give
/// the octets unchanged.
pub open spec fn decoded_large(resolved: u32, b: Seq<u8>, v: DptValue) -> bool {
    let b0 = b[0];
    if resolved == 10001 {
        v matches DptValue::Dpt10(x) && x.day == b0 / 32 && x.day_name@ == day_name(x.day)
            && x.hour == b0 % 32 && x.minutes == b[1] % 64 && x.seconds == b[2] % 64
    } else if resolved == 11001 {
        v matches DptValue::Dpt11(x) && x.day == b0 % 32 && x.month == b[1] % 16 && x.year
            == dpt11_year(b[2]) && x.formatted@ == pad2(x.day as nat) + seq!['/'] + pad2(
            x.month as nat,
        ) + seq!['/'] + dec_str(x.year as nat)
    } else if resolved == 12001 || resolved == 12002 {
        v matches DptValue::Dpt12(x) && x == be32(b0, b[1], b[2], b[3])
    } else if is_dpt13(resolved) {
        v matches DptValue::Dpt13(x) && x == signed32(be32(b0, b[1], b[2], b[3]))
    } else if resolved == 14 {
        v matches DptValue::Dpt14(x) && x == be32(b0, b[1], b[2], b[3])
    } else if resolved == 16 || resolved == 16002 || resolved == 28001 {
        v matches DptValue::Dpt16(s) && s@ == utf8_lossy_chars(until_nul(b))
    } else if is_dpt20(resolved) {
        v == DptValue::Dpt20(b0)
    } else if resolved == 232600 {
        v matches DptValue::Dpt232(x) && x.r == b0 && x.g == b[1] && x.b == b[2]
    } else if resolved == 251600 {
        v matches DptValue::Dpt251(x) && x.r.value == b0 && x.g.value == b[1] && x.b.value == b[2]
            && x.w.value == b[3] && x.r.valid == ((b[5] / 8) % 2 == 1) && x.g.valid == ((b[5] / 4)
            % 2 == 1) && x.b.valid == ((b[5] / 2) % 2 == 1) && x.w.valid == (b[5] % 2 == 1)
    } else {
        v matches DptValue::Raw(r) && r@ == b
    }
}

fn in_known(n: u32) -> (r: bool)
    ensures
        r == known_dpts().contains(n),
{
    let list: [u32; 73] = [
        1, 2, 3007, 3008, 4001, 4002, 5, 5001, 5002, 6, 6001, 6010, 6020, 7, 7001, 7002, 7003,
        7004, 7005, 7006, 7007, 7011, 7012, 7013, 8, 9, 10001, 11001, 12001, 12002, 13, 13001,
        13002, 13010, 13011, 13012, 13013, 13014, 13015, 13016, 13100, 14, 15000, 16, 16002,
        20, 20001, 20002, 20003, 20004, 20005, 20006, 20007, 20008, 20011, 20012, 20013, 20014,
        20017, 20020, 20021, 20022, 27001, 28001, 29, 29010, 29011, 29012, 232600, 238600,
        245600, 250600, 251600,
    ];
    assert(list@ =~= known_dpts());
    let mut i: usize = 0;
    while i < 73
        invariant
            list@ == known_dpts(),
            i <= 73,
            forall|j: int| 0 <= j < i ==> list@[j] != n,
        decreases 73 - i,
    {
        if list[i] == n {
            return true;
        }
        i = i + 1;
    }
    false
}

impl KnxDataDecode {
    /// The number of a datapoint type text (`1.001` gives 1001, `9` gives 9).
    pub fn get_dpt_number(dpt: &str) -> (r: Option<u32>)
        requires
            !dpt_number_overflows(dpt@),
        ensures
            r == dpt_number_spec(dpt@),
    {
        let chars = chars_of(dpt);
        if contains_char(chars.as_slice(), '.') {
            let parts = split_chars(chars.as_slice(), '.');
            if parts.len() == 2 {
                let p1 = parse_u32(parts[0].as_slice());
                let p2 = parse_u32(parts[1].as_slice());
                match (p1, p2) {
                    (Some(a), Some(b)) => {
                        return Some(a * 1000 + b);
                    },
                    _ => {},
                }
            }
        }
        parse_u32(chars.as_slice())
    }

    /// The type whose coding is used for `dpt_num`.
    pub fn fallback_dpt(dpt_num: u32) -> (r: u32)
        ensures
            r == fallback_spec(dpt_num),
    {
        if in_known(dpt_num) {
            return dpt_num;
        }
        let f = dpt_num / 1000;
        if in_known(f) {
            return f;
        }
        dpt_num
    }

    /// Decodes `buffer` as a value of datapoint type `dpt`.
    pub fn decode_this(dpt: &str, buffer: &[u8]) -> (r: Result<DptValue, KnxError>)
        requires
            !dpt_number_overflows(dpt@),
            dpt_number_spec(dpt@) matches Some(n) && needs_two_octets(fallback_spec(n))
                ==> buffer@.len() != 1,
        ensures
            dpt_number_spec(dpt@) is None ==> r == Err::<DptValue, KnxError>(KnxError::DPTNotFound),
            dpt_number_spec(dpt@) matches Some(n) ==> {
                let res = fallback_spec(n);
                &&& decode_ok(res, buffer@) ==> (r matches Ok(v) && decoded(res, buffer@, v))
                &&& !decode_ok(res, buffer@) ==> r == Err::<DptValue, KnxError>(
                    KnxError::InvalidParametersForDpt,
                )
            },
    {
        let n = match Self::get_dpt_number(dpt) {
            Some(n) => n,
            None => {
                return Err(KnxError::DPTNotFound);
            },
        };
        let resolved = Self::fallback_dpt(n);
        if buffer.len() == 0 {
            return Err(KnxError::InvalidParametersForDpt);
        }
        if is_small(resolved) {
            decode_small(resolved, buffer)
        } else if is_mid(resolved) {
            decode_dpt7_to_9(resolved, buffer)
        } else {
            decode_large(resolved, buffer)
        }
    }
}

fn is_small(n: u32) -> (r: bool)
    ensures
        r == is_small_type(n),
{
    n == 1 || n == 2 || n == 3007 || n == 3008 || n == 4001 || n == 4002 || n == 5 || n == 5001
        || n == 5002 || n == 6 || n == 6001 || n == 6010 || n == 6020
}

fn is_mid(n: u32) -> (r: bool)
    ensures
        r == is_mid_type(n),
{
    n == 7 || n == 7001 || n == 7002 || n == 7005 || n == 7006 || n == 7007 || n == 7011
        || n == 7013 || n == 7003 || n == 7004 || n == 7012 || n == 8 || n == 9
}

impl KnxDataDecode {
    /// Whether `decode_this` accepts `dpt` and `buffer` as inputs.
    pub fn can_decode(dpt: &str, buffer: &[u8]) -> (r: bool)
        ensures
            r == decode_allowed(dpt@, buffer@),
    {
        let chars = chars_of(dpt);
        if contains_char(chars.as_slice(), '.') {
            let parts = split_chars(chars.as_slice(), '.');
            if parts.len() == 2 {
                let p1 = parse_u32(parts[0].as_slice());
                let p2 = parse_u32(parts[1].as_slice());
                match (p1, p2) {
                    (Some(a), Some(b)) => {
                        if a as u64 * 1000 + b as u64 > 0xFFFF_FFFF {
                            return false;
                        }
                    },
                    _ => {},
                }
            }
        }
        match Self::get_dpt_number(dpt) {
            Some(n) => {
                let res = Self::fallback_dpt(n);
                let two = res == 7001 || res == 7002 || res == 7005 || res == 7006 || res == 7007
                    || res == 7011 || res == 7013 || res == 7003 || res == 7004 || res == 7012;
                !(two && buffer.len() == 1)
            },
            None => true,
        }
    }
}

/// The octet read as a two's-complement number.
pub fn to_i8(b: u8) -> (r: i8)
    ensures
        r == signed8(b as int),
{
    if b >= 128 {
        ((b as i16) - 256) as i8
    } else {
        b as i8
    }
}

fn text_from(s: &str) -> (r: String)
    ensures
        r@ == s@,
{
    string_of(s)
}

/// Types of DPT 1 to 6.
fn decode_small(resolved: u32, buffer: &[u8]) -> (r: Result<DptValue, KnxError>)
    requires
        buffer@.len() > 0,
        is_small_type(resolved),
    ensures
        decode_ok(resolved, buffer@) ==> (r matches Ok(v) && decoded_small(resolved, buffer@, v)),
        !decode_ok(resolved, buffer@) ==> r == Err::<DptValue, KnxError>(KnxError::InvalidParametersForDpt),
{
    let b0 = buffer[0];
    if resolved == 1 {
        Ok(DptValue::Dpt1(b0 % 64 != 0))
    } else if resolved == 2 {
        let control = (b0 / 2) % 2;
        let value = b0 % 2;
        let description = if control == 0 {
            if value == 0 {
                text_from("No control (DPT_Enable_Control)")
            } else {
                text_from("No control (DPT_Ramp_Control)")
            }
        } else {
            if value == 0 {
                text_from("Control. Function value 0 (DPT_Alarm_Control)")
            } else {
                text_from("Control. Function value 1 (DPT_BinaryValue_Control)")
            }
        };
        Ok(DptValue::Dpt2(Dpt2Value { control, value, description }))
    } else if resolved == 3007 || resolved == 3008 {
        let control = (b0 / 8) % 2;
        let step_code = b0 % 8;
        let action = if control == 0 {
            text_from("Decrease")
        } else {
            text_from("Increase")
        };
        let description = if step_code == 0 {
            text_from("Break")
        } else {
            let intervals: u32 = match step_code {
                1 => 1,
                2 => 2,
                3 => 4,
                4 => 8,
                5 => 16,
                6 => 32,
                _ => 64,
            };
            proof {
                reveal_with_fuel(pow2, 8);
            }
            assert(intervals == pow2((step_code - 1) as nat));
            let mut s = String::new();
            push_str(&mut s, "StepCode ");
            push_decimal(&mut s, step_code as u32);
            push_str(&mut s, " (Intervals: ");
            push_decimal(&mut s, intervals);
            push_char(&mut s, ')');
            assert(s@ =~= dpt3_description(step_code));
            s
        };
        Ok(DptValue::Dpt3(Dpt3Value { control, step_code, action, description }))
    } else if resolved == 4001 || resolved == 4002 {
        if resolved == 4001 && b0 >= 128 {
            return Err(KnxError::InvalidParametersForDpt);
        }
        Ok(DptValue::Dpt4(b0 as char))
    } else if resolved == 5 {
        Ok(DptValue::Dpt5(b0))
    } else if resolved == 5001 {
        Ok(DptValue::Dpt5001(b0))
    } else if resolved == 5002 {
        Ok(DptValue::Dpt5002(b0))
    } else if resolved == 6 {
        Ok(DptValue::Dpt6(to_i8(b0)))
    } else if resolved == 6001 {
        let mut s = String::new();
        push_signed_decimal(&mut s, to_i8(b0) as i32);
        push_char(&mut s, '%');
        assert(s@ =~= signed_dec_str(signed8(b0 as int)) + seq!['%']);
        Ok(DptValue::Dpt6001(s))
    } else if resolved == 6010 {
        let mut s = String::new();
        push_signed_decimal(&mut s, to_i8(b0) as i32);
        push_str(&mut s, " counter pulses");
        assert(s@ =~= signed_dec_str(signed8(b0 as int)) + " counter pulses"@);
        Ok(DptValue::Dpt6010(s))
    } else {
        let status = if b0 / 8 == 1 {
            text_from("Activo")
        } else {
            text_from("Inactivo")
        };
        let m = b0 % 8;
        let mode = if m == 1 {
            text_from("Modo 0 activo")
        } else if m == 2 {
            text_from("Modo 1 activo")
        } else if m == 4 {
            text_from("Modo 2 activo")
        } else {
            text_from("Modo desconocido")
        };
        Ok(DptValue::Dpt6020(Dpt6020Value { status, mode }))
    }
}

/// Types of DPT 7 to 9.
fn decode_dpt7_to_9(resolved: u32, buffer: &[u8]) -> (r: Result<DptValue, KnxError>)
    requires
        buffer@.len() > 0,
        is_mid_type(resolved),
        needs_two_octets(resolved) ==> buffer@.len() != 1,
    ensures
        decode_ok(resolved, buffer@) ==> (r matches Ok(v) && decoded_mid(resolved, buffer@, v)),
        !decode_ok(resolved, buffer@) ==> r == Err::<DptValue, KnxError>(KnxError::InvalidParametersForDpt),
{
    let b0 = buffer[0];
    if resolved == 7 {
        if buffer.len() == 1 {
            let r = DptValue::Dpt7(b0 as u16);
            assert(decoded_mid(resolved, buffer@, r));
            Ok(r)
        } else {
            Ok(DptValue::Dpt7(read_u16_be(buffer, 0)))
        }
    } else if resolved == 7001 || resolved == 7002 || resolved == 7005 || resolved == 7006
        || resolved == 7007 || resolved == 7011 || resolved == 7013 {
        let v = read_u16_be(buffer, 0);
        let mut s = String::new();
        push_decimal(&mut s, v as u32);
        let unit = if resolved == 7001 {
            "pulses"
        } else if resolved == 7002 {
            "ms"
        } else if resolved == 7005 {
            "s"
        } else if resolved == 7006 {
            "min"
        } else if resolved == 7007 {
            "h"
        } else if resolved == 7011 {
            "mm"
        } else {
            "lux"
        };
        push_str(&mut s, unit);
        assert(s@ =~= dec_str(v as nat) + dpt7_unit(resolved));
        let r = DptValue::Dpt7Suffix(s);
        assert(decoded_mid(resolved, buffer@, r));
        Ok(r)
    } else if resolved == 7003 {
        Ok(DptValue::Dpt7003(read_u16_be(buffer, 0)))
    } else if resolved == 7004 {
        Ok(DptValue::Dpt7004(read_u16_be(buffer, 0)))
    } else if resolved == 7012 {
        let v = read_u16_be(buffer, 0);
        let mut value = String::new();
        push_decimal(&mut value, v as u32);
        push_str(&mut value, "mA");
        assert(value@ =~= dec_str(v as nat) + "mA"@);
        let status = if v == 0 {
            text_from("No bus power supply functionality available")
        } else {
            proof {
                reveal_strlit("");
            }
            text_from("")
        };
        assert(status@ == (if v == 0 {
            "No bus power supply functionality available"@
        } else {
            Seq::<char>::empty()
        }));
        let r = DptValue::Dpt7012(Dpt7012Value { value, status });
        assert(decoded_mid(resolved, buffer@, r));
        Ok(r)
    } else if resolved == 8 {
        if buffer.len() == 1 {
            let r = DptValue::Dpt8(to_i8(b0) as i16);
            assert(decoded_mid(resolved, buffer@, r));
            Ok(r)
        } else {
            Ok(DptValue::Dpt8(read_i16_be(buffer, 0)))
        }
    } else {
        if buffer.len() < 2 {
            return Err(KnxError::InvalidParametersForDpt);
        }
        let raw = read_u16_be(buffer, 0);
        if raw == 0x7FFF {
            return Err(KnxError::InvalidParametersForDpt);
        }
        Ok(DptValue::Dpt9(raw))
    }
}

/// The other types.
fn decode_large(resolved: u32, buffer: &[u8]) -> (r: Result<DptValue, KnxError>)
    requires
        buffer@.len() > 0,
        !is_small_type(resolved),
        !is_mid_type(resolved),
    ensures
        decode_ok(resolved, buffer@) ==> (r matches Ok(v) && decoded_large(resolved, buffer@, v)),
        !decode_ok(resolved, buffer@) ==> r == Err::<DptValue, KnxError>(KnxError::InvalidParametersForDpt),
{
    let b0 = buffer[0];
    if resolved == 10001 {
        if buffer.len() < 3 {
            return Err(KnxError::InvalidParametersForDpt);
        }
        let day = b0 / 32;
        let name = if day == 0 {
            "No day"
        } else if day == 1 {
            "Monday"
        } else if day == 2 {
            "Tuesday"
        } else if day == 3 {
            "Wednesday"
        } else if day == 4 {
            "Thursday"
        } else if day == 5 {
            "Friday"
        } else if day == 6 {
            "Saturday"
        } else {
            "Sunday"
        };
        Ok(
            DptValue::Dpt10(
                Dpt10Value {
                    day,
                    day_name: text_from(name),
                    hour: b0 % 32,
                    minutes: buffer[1] % 64,
                    seconds: buffer[2] % 64,
                },
            ),
        )
    } else if resolved == 11001 {
        if buffer.len() < 3 {
            return Err(KnxError::InvalidParametersForDpt);
        }
        let day = b0 % 32;
        let month = buffer[1] % 16;
        let y = (buffer[2] % 128) as u16;
        let year: u16 = if y >= 90 {
            y + 1900
        } else {
            y + 2000
        };
        let mut formatted = String::new();
        if day < 10 {
            push_char(&mut formatted, '0');
        }
        push_decimal(&mut formatted, day as u32);
        push_char(&mut formatted, '/');
        if month < 10 {
            push_char(&mut formatted, '0');
        }
        push_decimal(&mut formatted, month as u32);
        push_char(&mut formatted, '/');
        push_decimal(&mut formatted, year as u32);
        assert(formatted@ =~= pad2(day as nat) + seq!['/'] + pad2(month as nat) + seq!['/']
            + dec_str(year as nat));
        Ok(DptValue::Dpt11(Dpt11Value { day, month, year, formatted }))
    } else if resolved == 12001 || resolved == 12002 {
        if buffer.len() < 4 {
            return Err(KnxError::InvalidParametersForDpt);
        }
        Ok(DptValue::Dpt12(read_u32_be(buffer, 0)))
    } else if resolved == 13 || resolved == 13001 || resolved == 13002 || resolved == 13010
        || resolved == 13011 || resolved == 13012 || resolved == 13013 || resolved == 13014
        || resolved == 13015 || resolved == 13016 || resolved == 13100 {
        if buffer.len() < 4 {
            return Err(KnxError::InvalidParametersForDpt);
        }
        Ok(DptValue::Dpt13(read_i32_be(buffer, 0)))
    } else if resolved == 14 {
        if buffer.len() < 4 {
            return Err(KnxError::InvalidParametersForDpt);
        }
        Ok(DptValue::Dpt14(read_u32_be(buffer, 0)))
    } else if resolved == 16 || resolved == 16002 || resolved == 28001 {
        let name = until_nul_exec(buffer);
        Ok(DptValue::Dpt16(utf8_lossy(name.as_slice())))
    } else if resolved == 20 || resolved == 20001 || resolved == 20002 || resolved == 20003
        || resolved == 20004 || resolved == 20005 || resolved == 20006 || resolved == 20007
        || resolved == 20008 || resolved == 20011 || resolved == 20012 || resolved == 20013
        || resolved == 20014 || resolved == 20017 || resolved == 20020 || resolved == 20021
        || resolved == 20022 {
        Ok(DptValue::Dpt20(b0))
    } else if resolved == 232600 {
        if buffer.len() < 3 {
            return Err(KnxError::InvalidParametersForDpt);
        }
        Ok(DptValue::Dpt232(Dpt232Value { r: b0, g: buffer[1], b: buffer[2] }))
    } else if resolved == 251600 {
        if buffer.len() < 6 {
            return Err(KnxError::InvalidParametersForDpt);
        }
        let v = buffer[5];
        Ok(
            DptValue::Dpt251(
                Dpt251Value {
                    r: Dpt251Val { value: b0, valid: (v / 8) % 2 == 1 },
                    g: Dpt251Val { value: buffer[1], valid: (v / 4) % 2 == 1 },
                    b: Dpt251Val { value: buffer[2], valid: (v / 2) % 2 == 1 },
                    w: Dpt251Val { value: buffer[3], valid: v % 2 == 1 },
                },
            ),
        )
    } else {
        Ok(DptValue::Raw(vstd::slice::slice_to_vec(buffer)))
    }
}

} // verus!
