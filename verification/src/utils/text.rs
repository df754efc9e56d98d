//! Character-level helpers: decimal and hexadecimal rendering, decimal
//! parsing with the rules of `u32::from_str`, and splitting on a separator.
use vstd::prelude::*;

verus! {

/// `str::to_lowercase`; what it gives is named, not written out.
pub uninterp spec fn lowercase_chars(s: Seq<char>) -> Seq<char>;

/// `str::to_lowercase`: the lower-case form of `s` (a function of `s`).
#[verifier::external_body]
pub(crate) fn lowercase(s: &str) -> (r: String)
    ensures
        r@ == lowercase_chars(s@),
{
    s.to_lowercase()
}

// ------------------------------------------------------------------
// Decimal rendering
// ------------------------------------------------------------------

/// The ASCII digit for a value below ten.
pub open spec fn digit_char(d: nat) -> char {
    ((d + 48) as u32) as char
}

/// Whether `c` is one of the ASCII digits `0`..`9`.
pub open spec fn is_digit(c: char) -> bool {
    '0' <= c && c <= '9'
}

/// The value of an ASCII digit.
pub open spec fn digit_value(c: char) -> int {
    (c as int) - 48
}

/// Shortest decimal rendering of `n`, most significant digit first.
pub open spec fn dec_str(n: nat) -> Seq<char>
    decreases n,
{
    if n < 10 {
        seq![digit_char(n)]
    } else {
        dec_str(n / 10).push(digit_char(n % 10))
    }
}

/// All characters of `s` are ASCII digits.
pub open spec fn all_digits(s: Seq<char>) -> bool {
    forall|i: int| 0 <= i < s.len() ==> #[trigger] is_digit(s[i])
}

/// The number that the digits of `s` spell (most significant first).
pub open spec fn digits_value(s: Seq<char>) -> int
    decreases s.len(),
{
    if s.len() == 0 {
        0
    } else {
        digits_value(s.drop_last()) * 10 + digit_value(s.last())
    }
}

/// What `str::parse::<u32>` returns for `s`: an optional leading `+`,
/// then one or more ASCII digits whose value fits in a `u32`.
pub open spec fn parse_u32_spec(s: Seq<char>) -> Option<u32> {
    let d = if s.len() > 0 && s[0] == '+' {
        s.drop_first()
    } else {
        s
    };
    if d.len() > 0 && all_digits(d) && digits_value(d) <= u32::MAX {
        Some(digits_value(d) as u32)
    } else {
        None
    }
}

pub proof fn lemma_digits_value_nonneg(s: Seq<char>)
    requires
        all_digits(s),
    ensures
        digits_value(s) >= 0,
    decreases s.len(),
{
    if s.len() > 0 {
        assert(is_digit(s[s.len() - 1]));
        assert(all_digits(s.drop_last())) by {
            assert forall|i: int| 0 <= i < s.drop_last().len() implies #[trigger] is_digit(
                s.drop_last()[i],
            ) by {
                assert(is_digit(s[i]));
            }
        }
        lemma_digits_value_nonneg(s.drop_last());
    }
}

/// `dec_str(n)` is made of digits, starts with a digit and spells `n`.
pub proof fn lemma_dec_str(n: nat)
    ensures
        dec_str(n).len() >= 1,
        all_digits(dec_str(n)),
        digits_value(dec_str(n)) == n,
        is_digit(dec_str(n)[0]),
    decreases n,
{
    if n >= 10 {
        lemma_dec_str(n / 10);
        let p = dec_str(n / 10);
        let s = p.push(digit_char(n % 10));
        assert(s.drop_last() =~= p);
        assert(s[0] == p[0]);
        assert forall|i: int| 0 <= i < s.len() implies #[trigger] is_digit(s[i]) by {
            if i < p.len() {
                assert(s[i] == p[i]);
                assert(is_digit(p[i]));
            }
        }
        assert(n == (n / 10) * 10 + n % 10) by {
            vstd::arithmetic::div_mod::lemma_fundamental_div_mod(n as int, 10);
        }
        lemma_digit_char((n % 10) as nat);
        assert(digits_value(s) == digits_value(p) * 10 + digit_value(digit_char(n % 10)));
        assert(digits_value(s) == n);
        assert(dec_str(n) == s);
    } else {
        lemma_digit_char(n);
        let s = seq![digit_char(n)];
        assert(s.drop_last() =~= Seq::<char>::empty());
        assert(digits_value(Seq::<char>::empty()) == 0);
        assert(digits_value(s) == n);
        assert(dec_str(n) == s);
    }
}

/// The digit character of `d` is a digit whose value is `d`.
pub proof fn lemma_digit_char(d: nat)
    requires
        d < 10,
    ensures
        is_digit(digit_char(d)),
        digit_value(digit_char(d)) == d,
        digit_char(d) != '+',
{
    assert(((d + 48) as u32) as char as int == d + 48);
}

/// Length of the decimal rendering for small values.
pub proof fn lemma_dec_str_len(n: nat)
    ensures
        n < 10 ==> dec_str(n).len() == 1,
        n < 100 ==> dec_str(n).len() <= 2,
        n < 1000 ==> dec_str(n).len() <= 3,
        n < 10000 ==> dec_str(n).len() <= 4,
    decreases n,
{
    if n >= 10 {
        lemma_dec_str_len(n / 10);
    }
}

/// Decimal rendering is parsed back by `parse_u32_spec`.
pub proof fn lemma_parse_dec_str(n: u32)
    ensures
        parse_u32_spec(dec_str(n as nat)) == Some(n),
{
    lemma_dec_str(n as nat);
    assert(dec_str(n as nat)[0] != '+');
}

/// Appends one character to a `String` (std `String::push`).
#[verifier::external_body]
pub(crate) fn push_char(s: &mut String, c: char)
    ensures
        final(s)@ == old(s)@.push(c),
{
    s.push(c);
}

/// The ASCII digit for `d` (below ten).
pub fn digit_to_char(d: u32) -> (c: char)
    requires
        d < 10,
    ensures
        c == digit_char(d as nat),
{
    let r: char = match d {
        0 => '0',
        1 => '1',
        2 => '2',
        3 => '3',
        4 => '4',
        5 => '5',
        6 => '6',
        7 => '7',
        8 => '8',
        _ => '9',
    };
    r
}

/// Appends the decimal rendering of `n`.
pub fn push_decimal(s: &mut String, n: u32)
    ensures
        final(s)@ == old(s)@ + dec_str(n as nat),
    decreases n,
{
    if n >= 10 {
        push_decimal(s, n / 10);
    }
    let c = digit_to_char(n % 10);
    push_char(s, c);
}

/// Appends every character of `t`.
pub fn push_str(s: &mut String, t: &str)
    ensures
        final(s)@ == old(s)@ + t@,
{
    let n = t.unicode_len();
    let mut i: usize = 0;
    while i < n
        invariant
            n == t@.len(),
            i <= n,
            s@ == old(s)@ + t@.subrange(0, i as int),
        decreases n - i,
    {
        let c = t.get_char(i);
        push_char(s, c);
        assert(t@.subrange(0, i as int + 1) =~= t@.subrange(0, i as int).push(c));
        i = i + 1;
    }
    assert(t@.subrange(0, n as int) =~= t@);
}

/// The decimal rendering of `n` as a new `String`.
pub fn decimal_string(n: u32) -> (s: String)
    ensures
        s@ == dec_str(n as nat),
{
    let mut s = String::new();
    push_decimal(&mut s, n);
    assert(s@ =~= dec_str(n as nat));
    s
}

/// A `String` holding exactly the characters of `t`.
pub fn string_of(t: &str) -> (s: String)
    ensures
        s@ == t@,
{
    let mut s = String::new();
    push_str(&mut s, t);
    assert(s@ =~= t@);
    s
}

// ------------------------------------------------------------------
// Signed decimal rendering
// ------------------------------------------------------------------

/// Decimal rendering of a signed value, with a leading `-` when negative.
pub open spec fn signed_dec_str(v: int) -> Seq<char> {
    if v < 0 {
        seq!['-'] + dec_str((-v) as nat)
    } else {
        dec_str(v as nat)
    }
}

/// Appends the decimal rendering of the signed value `v`.
pub fn push_signed_decimal(s: &mut String, v: i32)
    ensures
        final(s)@ == old(s)@ + signed_dec_str(v as int),
{
    if v < 0 {
        push_char(s, '-');
        let m: u32 = if v == i32::MIN {
            2147483648u32
        } else {
            (-v) as u32
        };
        push_decimal(s, m);
        assert(final(s)@ =~= old(s)@ + signed_dec_str(v as int));
    } else {
        push_decimal(s, v as u32);
    }
}

// ------------------------------------------------------------------
// Hexadecimal rendering
// ------------------------------------------------------------------

/// Hex digit for a value below sixteen; `upper` selects `A`..`F`.
pub open spec fn hex_char(d: nat, upper: bool) -> char {
    if d < 10 {
        digit_char(d)
    } else if upper {
        ((d + 55) as u32) as char
    } else {
        ((d + 87) as u32) as char
    }
}

/// Two hex digits of a byte, high nibble first.
pub open spec fn hex2(b: u8, upper: bool) -> Seq<char> {
    seq![hex_char((b / 16) as nat, upper), hex_char((b % 16) as nat, upper)]
}

/// Hex digits of a byte sequence, two per byte.
pub open spec fn hex_of_bytes(b: Seq<u8>, upper: bool) -> Seq<char>
    decreases b.len(),
{
    if b.len() == 0 {
        Seq::empty()
    } else {
        hex_of_bytes(b.drop_last(), upper) + hex2(b.last(), upper)
    }
}

/// The hex digit for `d` (below sixteen).
pub fn hex_digit(d: u8, upper: bool) -> (c: char)
    requires
        d < 16,
    ensures
        c == hex_char(d as nat, upper),
{
    if d < 10 {
        digit_to_char(d as u32)
    } else if upper {
        let r: char = match d {
            10 => 'A',
            11 => 'B',
            12 => 'C',
            13 => 'D',
            14 => 'E',
            _ => 'F',
        };
        r
    } else {
        let r: char = match d {
            10 => 'a',
            11 => 'b',
            12 => 'c',
            13 => 'd',
            14 => 'e',
            _ => 'f',
        };
        r
    }
}

/// Appends the two hex digits of `b`.
pub fn push_hex2(s: &mut String, b: u8, upper: bool)
    ensures
        final(s)@ == old(s)@ + hex2(b, upper),
{
    let hi = hex_digit(b / 16, upper);
    push_char(s, hi);
    let lo = hex_digit(b % 16, upper);
    push_char(s, lo);
    assert(final(s)@ =~= old(s)@ + hex2(b, upper));
}

/// `0x` followed by the two upper-case hex digits of `b`.
pub fn hex_prefixed(b: u8) -> (s: String)
    ensures
        s@ == seq!['0', 'x'] + hex2(b, true),
{
    let mut s = String::new();
    push_char(&mut s, '0');
    push_char(&mut s, 'x');
    push_hex2(&mut s, b, true);
    assert(s@ =~= seq!['0', 'x'] + hex2(b, true));
    s
}

/// Upper-case hex digits of `n` without leading zeros.
pub open spec fn hex_digits(n: nat) -> Seq<char>
    decreases n,
{
    if n < 16 {
        seq![hex_char(n, true)]
    } else {
        hex_digits(n / 16) + seq![hex_char(n % 16, true)]
    }
}

/// Upper-case hex digits of `n`, padded with a zero to at least two.
pub open spec fn hex_min2(n: nat) -> Seq<char> {
    if n < 16 {
        seq!['0', hex_char(n, true)]
    } else {
        hex_digits(n)
    }
}

/// Appends the upper-case hex digits of `n`.
pub fn push_hex_digits(s: &mut String, n: u32)
    ensures
        final(s)@ == old(s)@ + hex_digits(n as nat),
    decreases n,
{
    if n >= 16 {
        push_hex_digits(s, n / 16);
    }
    let c = hex_digit((n % 16) as u8, true);
    push_char(s, c);
}

/// Appends the upper-case hex digits of `n`, at least two of them.
pub fn push_hex_min2(s: &mut String, n: u32)
    ensures
        final(s)@ == old(s)@ + hex_min2(n as nat),
{
    if n < 16 {
        push_char(s, '0');
        let c = hex_digit(n as u8, true);
        push_char(s, c);
    } else {
        push_hex_digits(s, n);
    }
}

/// Appends the hex digits of every byte of `data`.
pub fn push_hex_bytes(s: &mut String, data: &[u8], upper: bool)
    ensures
        final(s)@ == old(s)@ + hex_of_bytes(data@, upper),
{
    let mut i: usize = 0;
    while i < data.len()
        invariant
            i <= data@.len(),
            s@ == old(s)@ + hex_of_bytes(data@.subrange(0, i as int), upper),
        decreases data.len() - i,
    {
        push_hex2(s, data[i], upper);
        let ghost next = data@.subrange(0, i as int + 1);
        assert(next.drop_last() =~= data@.subrange(0, i as int));
        assert(next.last() == data@[i as int]);
        i = i + 1;
    }
    assert(data@.subrange(0, data@.len() as int) =~= data@);
}

// ------------------------------------------------------------------
// Characters of a str
// ------------------------------------------------------------------

/// The characters of `t`, one per element.
pub fn chars_of(t: &str) -> (v: Vec<char>)
    ensures
        v@ == t@,
{
    let n = t.unicode_len();
    let mut v: Vec<char> = Vec::new();
    let mut i: usize = 0;
    while i < n
        invariant
            n == t@.len(),
            i <= n,
            v@ == t@.subrange(0, i as int),
        decreases n - i,
    {
        v.push(t.get_char(i));
        i = i + 1;
    }
    v
}

/// Whether two character sequences are equal.
pub fn chars_eq(a: &[char], b: &[char]) -> (r: bool)
    ensures
        r == (a@ == b@),
{
    if a.len() != b.len() {
        return false;
    }
    let mut i: usize = 0;
    while i < a.len()
        invariant
            a@.len() == b@.len(),
            i <= a@.len(),
            forall|j: int| 0 <= j < i ==> a@[j] == b@[j],
        decreases a.len() - i,
    {
        if a[i] != b[i] {
            return false;
        }
        i = i + 1;
    }
    assert(a@ =~= b@);
    true
}

/// Whether `s` holds exactly the characters of the literal `t`.
pub fn str_eq(s: &str, t: &str) -> (r: bool)
    ensures
        r == (s@ == t@),
{
    let a = chars_of(s);
    let b = chars_of(t);
    chars_eq(a.as_slice(), b.as_slice())
}

/// Whether `s` contains the character `c`.
pub fn contains_char(s: &[char], c: char) -> (r: bool)
    ensures
        r == s@.contains(c),
{
    let mut i: usize = 0;
    while i < s.len()
        invariant
            i <= s@.len(),
            forall|j: int| 0 <= j < i ==> s@[j] != c,
        decreases s.len() - i,
    {
        if s[i] == c {
            return true;
        }
        i = i + 1;
    }
    false
}

// ------------------------------------------------------------------
// Splitting
// ------------------------------------------------------------------

/// What `str::split(sep)` yields: the pieces between separators,
/// including empty ones; one piece for an input without separator.
pub open spec fn split_spec(s: Seq<char>, sep: char) -> Seq<Seq<char>>
    decreases s.len(),
{
    if s.len() == 0 {
        seq![Seq::empty()]
    } else {
        let prev = split_spec(s.drop_last(), sep);
        if s.last() == sep {
            prev.push(Seq::empty())
        } else {
            prev.update(prev.len() - 1, prev.last().push(s.last()))
        }
    }
}

pub proof fn lemma_split_nonempty(s: Seq<char>, sep: char)
    ensures
        split_spec(s, sep).len() >= 1,
    decreases s.len(),
{
    if s.len() > 0 {
        lemma_split_nonempty(s.drop_last(), sep);
    }
}

/// The pieces of `s` between occurrences of `sep`.
pub fn split_chars(s: &[char], sep: char) -> (parts: Vec<Vec<char>>)
    ensures
        parts.deep_view() == split_spec(s@, sep),
        parts@.len() == split_spec(s@, sep).len(),
        forall|i: int| 0 <= i < parts@.len() ==> #[trigger] parts@[i]@ == split_spec(s@, sep)[i],
{
    let mut parts: Vec<Vec<char>> = Vec::new();
    let mut cur: Vec<char> = Vec::new();
    let mut i: usize = 0;
    while i < s.len()
        invariant
            i <= s@.len(),
            parts.deep_view().push(cur@) == split_spec(s@.subrange(0, i as int), sep),
        decreases s.len() - i,
    {
        let c = s[i];
        let ghost pre = s@.subrange(0, i as int);
        let ghost nxt = s@.subrange(0, i as int + 1);
        assert(nxt.drop_last() =~= pre);
        assert(nxt.last() == c);
        proof {
            lemma_split_nonempty(pre, sep);
        }
        if c == sep {
            let ghost old_cur = cur@;
            let ghost old_parts = parts.deep_view();
            let done = cur;
            assert(done.deep_view() =~= old_cur);
            parts.push(done);
            cur = Vec::new();
            assert(parts.deep_view() =~= old_parts.push(old_cur));
            assert(parts.deep_view().push(cur@) =~= split_spec(nxt, sep));
        } else {
            let ghost old_cur = cur@;
            let ghost prev = split_spec(pre, sep);
            assert(prev == parts.deep_view().push(old_cur));
            assert(prev.last() == old_cur);
            cur.push(c);
            assert(split_spec(nxt, sep) == prev.update(prev.len() - 1, old_cur.push(c)));
            assert(parts.deep_view().push(cur@) =~= prev.update(prev.len() - 1, old_cur.push(c)));
        }
        i = i + 1;
    }
    assert(s@.subrange(0, s@.len() as int) =~= s@);
    let ghost old_parts = parts.deep_view();
    let ghost old_cur = cur@;
    assert(cur.deep_view() =~= old_cur);
    parts.push(cur);
    assert(parts.deep_view() =~= old_parts.push(old_cur));
    assert forall|i: int| 0 <= i < parts@.len() implies #[trigger] parts@[i]@ == split_spec(
        s@,
        sep,
    )[i] by {
        assert(parts.deep_view()[i] == parts@[i].deep_view());
        assert(parts@[i].deep_view() =~= parts@[i]@);
    }
    parts
}

/// A piece without the separator splits into itself.
pub proof fn lemma_split_no_sep(x: Seq<char>, sep: char)
    requires
        !x.contains(sep),
    ensures
        split_spec(x, sep) == seq![x],
    decreases x.len(),
{
    if x.len() > 0 {
        assert(!x.drop_last().contains(sep)) by {
            if x.drop_last().contains(sep) {
                let k = choose|k: int| 0 <= k < x.drop_last().len() && x.drop_last()[k] == sep;
                assert(x[k] == sep);
            }
        }
        lemma_split_no_sep(x.drop_last(), sep);
        assert(x.last() != sep) by {
            assert(x[x.len() - 1] == x.last());
        }
        assert(x.drop_last().push(x.last()) =~= x);
        assert(split_spec(x, sep) =~= seq![x]);
    } else {
        assert(x =~= Seq::<char>::empty());
        assert(split_spec(x, sep) =~= seq![x]);
    }
}

/// Appending a separator and a piece without separator adds one piece.
pub proof fn lemma_split_append(s: Seq<char>, sep: char, x: Seq<char>)
    requires
        !x.contains(sep),
    ensures
        split_spec(s + seq![sep] + x, sep) == split_spec(s, sep).push(x),
    decreases x.len(),
{
    let t = s + seq![sep] + x;
    if x.len() == 0 {
        assert(t.drop_last() =~= s);
        assert(t.last() == sep);
        assert(x =~= Seq::<char>::empty());
    } else {
        assert(!x.drop_last().contains(sep)) by {
            if x.drop_last().contains(sep) {
                let k = choose|k: int| 0 <= k < x.drop_last().len() && x.drop_last()[k] == sep;
                assert(x[k] == sep);
            }
        }
        lemma_split_append(s, sep, x.drop_last());
        assert(t.drop_last() =~= s + seq![sep] + x.drop_last());
        assert(t.last() == x.last());
        assert(x.last() != sep) by {
            assert(x[x.len() - 1] == x.last());
        }
        lemma_split_nonempty(s, sep);
        let prev = split_spec(s, sep).push(x.drop_last());
        assert(x.drop_last().push(x.last()) =~= x);
        assert(split_spec(t, sep) =~= prev.update(prev.len() - 1, prev.last().push(t.last())));
        assert(split_spec(t, sep) =~= split_spec(s, sep).push(x));
    }
}

/// A string of digits holds neither separator used by addresses.
pub proof fn lemma_digits_no_sep(x: Seq<char>, sep: char)
    requires
        all_digits(x),
        !is_digit(sep),
    ensures
        !x.contains(sep),
{
    if x.contains(sep) {
        let k = choose|k: int| 0 <= k < x.len() && x[k] == sep;
        assert(is_digit(x[k]));
    }
}

// ------------------------------------------------------------------
// Decimal parsing
// ------------------------------------------------------------------

/// `str::parse::<u32>` over a character sequence.
pub fn parse_u32(s: &[char]) -> (r: Option<u32>)
    ensures
        r == parse_u32_spec(s@),
{
    let start: usize = if s.len() > 0 && s[0] == '+' {
        1
    } else {
        0
    };
    let ghost d = if s@.len() > 0 && s@[0] == '+' {
        s@.drop_first()
    } else {
        s@
    };
    assert(d =~= s@.subrange(start as int, s@.len() as int));
    if start >= s.len() {
        return None;
    }
    let cap: u64 = 4294967296;
    let mut acc: u64 = 0;
    let mut i: usize = start;
    while i < s.len()
        invariant
            start <= i <= s@.len(),
            start < s@.len(),
            d =~= s@.subrange(start as int, s@.len() as int),
            d == (if s@.len() > 0 && s@[0] == '+' {
                s@.drop_first()
            } else {
                s@
            }),
            cap == 4294967296,
            all_digits(s@.subrange(start as int, i as int)),
            acc as int == if digits_value(s@.subrange(start as int, i as int)) < cap {
                digits_value(s@.subrange(start as int, i as int))
            } else {
                cap as int
            },
        decreases s.len() - i,
    {
        let c = s[i];
        let ghost pre = s@.subrange(start as int, i as int);
        let ghost nxt = s@.subrange(start as int, i as int + 1);
        assert(nxt.drop_last() =~= pre);
        assert(nxt.last() == c);
        if !('0' <= c && c <= '9') {
            assert(d[i - start] == c);
            assert(!is_digit(d[i - start]));
            assert(!all_digits(d));
            assert(parse_u32_spec(s@) == None::<u32>);
            return None;
        }
        let dv: u64 = (c as u32 - 48) as u64;
        proof {
            lemma_digits_value_nonneg(pre);
        }
        let next = acc * 10 + dv;
        acc = if next >= cap {
            cap
        } else {
            next
        };
        assert forall|j: int| 0 <= j < nxt.len() implies #[trigger] is_digit(nxt[j]) by {
            if j < pre.len() {
                assert(nxt[j] == pre[j]);
            }
        }
        i = i + 1;
    }
    assert(s@.subrange(start as int, i as int) =~= d);
    if acc >= cap {
        None
    } else {
        Some(acc as u32)
    }
}

/// `str::parse::<u32>` over a `str`.
pub fn parse_u32_str(s: &str) -> (r: Option<u32>)
    ensures
        r == parse_u32_spec(s@),
{
    let v = chars_of(s);
    parse_u32(v.as_slice())
}

// ------------------------------------------------------------------
// Suffixes and substrings
// ------------------------------------------------------------------

/// Whether `s` ends with `suf`.
pub open spec fn ends_with_seq(s: Seq<char>, suf: Seq<char>) -> bool {
    s.len() >= suf.len() && s.subrange(s.len() - suf.len(), s.len() as int) == suf
}

/// Whether `sub` occurs in `s`.
pub open spec fn contains_seq(s: Seq<char>, sub: Seq<char>) -> bool {
    exists|i: int| 0 <= i && i + sub.len() <= s.len() && #[trigger] s.subrange(i, i + sub.len()) == sub
}

/// Whether `s[i..i + t.len()]` equals `t`.
fn matches_at(s: &[char], i: usize, t: &[char]) -> (r: bool)
    requires
        i + t@.len() <= s@.len(),
    ensures
        r == (s@.subrange(i as int, i + t@.len()) == t@),
{
    let n = s.len();
    let mut k: usize = 0;
    while k < t.len()
        invariant
            n == s@.len(),
            i + t@.len() <= s@.len(),
            k <= t@.len(),
            forall|j: int| 0 <= j < k ==> s@[i + j] == t@[j],
        decreases t.len() - k,
    {
        if s[i + k] != t[k] {
            assert(s@.subrange(i as int, i + t@.len())[k as int] != t@[k as int]);
            return false;
        }
        k = k + 1;
    }
    assert(s@.subrange(i as int, i + t@.len()) =~= t@);
    true
}

/// Whether `s` ends with `suf`.
pub fn str_ends_with(s: &str, suf: &str) -> (r: bool)
    ensures
        r == ends_with_seq(s@, suf@),
{
    let a = chars_of(s);
    let b = chars_of(suf);
    if a.len() < b.len() {
        return false;
    }
    matches_at(a.as_slice(), a.len() - b.len(), b.as_slice())
}

/// Whether `sub` occurs in `s`.
pub fn str_contains(s: &str, sub: &str) -> (r: bool)
    ensures
        r == contains_seq(s@, sub@),
{
    let a = chars_of(s);
    let b = chars_of(sub);
    if a.len() < b.len() {
        assert(!contains_seq(s@, sub@));
        return false;
    }
    let last = a.len() - b.len();
    let mut i: usize = 0;
    loop
        invariant
            a@ == s@,
            b@ == sub@,
            last == a@.len() - b@.len(),
            i <= last,
            forall|j: int| 0 <= j < i ==> #[trigger] s@.subrange(j, j + sub@.len()) != sub@,
        decreases last - i,
    {
        if matches_at(a.as_slice(), i, b.as_slice()) {
            return true;
        }
        if i == last {
            assert forall|j: int| 0 <= j && j + sub@.len() <= s@.len() implies #[trigger] s@.subrange(
                j,
                j + sub@.len(),
            ) != sub@ by {
                assert(j <= i);
            }
            return false;
        }
        i = i + 1;
    }
}


// ------------------------------------------------------------------
// Trimming
// ------------------------------------------------------------------

/// `s` with every trailing repetition of the non-empty `pat` removed
/// (`str::trim_end_matches`).
pub open spec fn trim_end_matches_spec(s: Seq<char>, pat: Seq<char>) -> Seq<char>
    decreases s.len(),
{
    if pat.len() > 0 && ends_with_seq(s, pat) {
        trim_end_matches_spec(s.subrange(0, s.len() - pat.len()), pat)
    } else {
        s
    }
}

/// The characters that `char::is_whitespace` accepts (Unicode White_Space).
pub open spec fn is_white(c: char) -> bool {
    let u = c as u32;
    (9 <= u <= 13) || u == 32 || u == 0x85 || u == 0xA0 || u == 0x1680 || (0x2000 <= u <= 0x200A)
        || u == 0x2028 || u == 0x2029 || u == 0x202F || u == 0x205F || u == 0x3000
}

/// `s` without trailing whitespace.
pub open spec fn trim_end_white(s: Seq<char>) -> Seq<char>
    decreases s.len(),
{
    if s.len() > 0 && is_white(s.last()) {
        trim_end_white(s.drop_last())
    } else {
        s
    }
}

/// `s` without leading whitespace.
pub open spec fn trim_start_white(s: Seq<char>) -> Seq<char>
    decreases s.len(),
{
    if s.len() > 0 && is_white(s[0]) {
        trim_start_white(s.drop_first())
    } else {
        s
    }
}

/// `s` without leading and trailing whitespace (`str::trim`).
pub open spec fn trim_spec(s: Seq<char>) -> Seq<char> {
    trim_start_white(trim_end_white(s))
}

/// Whether `c` is whitespace.
pub fn is_white_exec(c: char) -> (r: bool)
    ensures
        r == is_white(c),
{
    let u = c as u32;
    (9 <= u && u <= 13) || u == 32 || u == 0x85 || u == 0xA0 || u == 0x1680 || (0x2000 <= u && u
        <= 0x200A) || u == 0x2028 || u == 0x2029 || u == 0x202F || u == 0x205F || u == 0x3000
}

/// End of `s[..hi]` once trailing repetitions of `pat` are removed.
pub fn trim_end_pat(s: &[char], hi: usize, pat: &[char]) -> (r: usize)
    requires
        hi <= s@.len(),
    ensures
        r <= hi,
        s@.subrange(0, r as int) == trim_end_matches_spec(s@.subrange(0, hi as int), pat@),
{
    let mut h = hi;
    if pat.len() == 0 {
        return h;
    }
    while pat.len() <= h && matches_at(s, h - pat.len(), pat)
        invariant
            h <= hi <= s@.len(),
            pat@.len() > 0,
            trim_end_matches_spec(s@.subrange(0, h as int), pat@) == trim_end_matches_spec(
                s@.subrange(0, hi as int),
                pat@,
            ),
        decreases h,
    {
        let ghost t = s@.subrange(0, h as int);
        assert(t.subrange(t.len() - pat@.len(), t.len() as int) =~= s@.subrange(
            h - pat@.len(),
            h as int,
        ));
        assert(t.subrange(0, t.len() - pat@.len()) =~= s@.subrange(0, h - pat@.len()));
        h = h - pat.len();
    }
    let ghost t = s@.subrange(0, h as int);
    if pat.len() <= h {
        assert(t.subrange(t.len() - pat@.len(), t.len() as int) =~= s@.subrange(
            h - pat@.len(),
            h as int,
        ));
    }
    h
}

/// Bounds of `s[lo..hi]` once leading and trailing whitespace is removed.
pub fn trim_bounds(s: &[char], lo: usize, hi: usize) -> (r: (usize, usize))
    requires
        lo <= hi <= s@.len(),
    ensures
        lo <= r.0 <= r.1 <= hi,
        s@.subrange(r.0 as int, r.1 as int) == trim_spec(s@.subrange(lo as int, hi as int)),
{
    let mut e = hi;
    while e > lo && is_white_exec(s[e - 1])
        invariant
            lo <= e <= hi <= s@.len(),
            trim_end_white(s@.subrange(lo as int, e as int)) == trim_end_white(
                s@.subrange(lo as int, hi as int),
            ),
        decreases e,
    {
        let ghost t = s@.subrange(lo as int, e as int);
        assert(t.drop_last() =~= s@.subrange(lo as int, e - 1));
        e = e - 1;
    }
    let ghost te = s@.subrange(lo as int, e as int);
    assert(trim_end_white(te) == te);
    let mut b = lo;
    while b < e && is_white_exec(s[b])
        invariant
            lo <= b <= e <= hi <= s@.len(),
            trim_start_white(s@.subrange(b as int, e as int)) == trim_start_white(te),
            te == s@.subrange(lo as int, e as int),
        decreases e - b,
    {
        let ghost t = s@.subrange(b as int, e as int);
        assert(t.drop_first() =~= s@.subrange(b + 1, e as int));
        b = b + 1;
    }
    (b, e)
}

/// A copy of `s[lo..hi]`.
pub fn copy_chars(s: &[char], lo: usize, hi: usize) -> (v: Vec<char>)
    requires
        lo <= hi <= s@.len(),
    ensures
        v@ == s@.subrange(lo as int, hi as int),
{
    let mut v: Vec<char> = Vec::new();
    let mut i = lo;
    while i < hi
        invariant
            lo <= i <= hi <= s@.len(),
            v@ == s@.subrange(lo as int, i as int),
        decreases hi - i,
    {
        v.push(s[i]);
        assert(v@ =~= s@.subrange(lo as int, i + 1));
        i = i + 1;
    }
    v
}

/// The text made of some characters.
pub fn chars_to_string(cs: &Vec<char>) -> (s: String)
    ensures
        s@ == cs@,
{
    let mut s = String::new();
    let n = cs.len();
    let mut i: usize = 0;
    while i < n
        invariant
            n == cs@.len(),
            i <= n,
            s@ == cs@.subrange(0, i as int),
        decreases n - i,
    {
        push_char(&mut s, cs[i]);
        assert(s@ =~= cs@.subrange(0, i + 1));
        i = i + 1;
    }
    assert(cs@.subrange(0, n as int) =~= cs@);
    s
}

// ------------------------------------------------------------------
// Signed and 16-bit parsing
// ------------------------------------------------------------------

/// What `str::parse::<u16>` returns for `s`.
pub open spec fn parse_u16_spec(s: Seq<char>) -> Option<int> {
    match parse_u32_spec(s) {
        Some(v) => if v <= 65535 {
            Some(v as int)
        } else {
            None
        },
        None => None,
    }
}

/// What `str::parse::<i8>` returns for `s`: an optional sign, then one or
/// more ASCII digits whose value fits in an `i8`.
pub open spec fn parse_i8_spec(s: Seq<char>) -> Option<int> {
    if s.len() > 0 && s[0] == '-' {
        let d = s.drop_first();
        if d.len() > 0 && all_digits(d) && digits_value(d) <= 128 {
            Some(0 - digits_value(d))
        } else {
            None
        }
    } else {
        match parse_u32_spec(s) {
            Some(v) => if v <= 127 {
                Some(v as int)
            } else {
                None
            },
            None => None,
        }
    }
}

/// `str::parse::<u16>` over a character sequence.
pub fn parse_u16(s: &[char]) -> (r: Option<u16>)
    ensures
        match r {
            Some(x) => parse_u16_spec(s@) == Some(x as int),
            None => parse_u16_spec(s@) is None,
        },
{
    match parse_u32(s) {
        Some(v) => if v <= 65535 {
            Some(v as u16)
        } else {
            None
        },
        None => None,
    }
}

/// `str::parse::<i8>` over a character sequence.
pub fn parse_i8(s: &[char]) -> (r: Option<i8>)
    ensures
        match r {
            Some(x) => parse_i8_spec(s@) == Some(x as int),
            None => parse_i8_spec(s@) is None,
        },
{
    if s.len() > 0 && s[0] == '-' {
        let rest = copy_chars(s, 1, s.len());
        assert(rest@ =~= s@.drop_first());
        if rest.len() > 0 && rest[0] == '+' {
            assert(!is_digit(rest@[0]));
            return None;
        }
        assert(rest@.len() == 0 || rest@[0] != '+');
        match parse_u32(rest.as_slice()) {
            Some(v) => if v <= 128 {
                assert(rest@.len() > 0 && all_digits(rest@));
                proof {
                    lemma_digits_value_nonneg(rest@);
                }
                assert(digits_value(rest@) == v);
                let x = (0 - (v as i32)) as i8;
                assert(x as int == 0 - digits_value(rest@));
                Some(x)
            } else {
                proof {
                    lemma_digits_value_nonneg(rest@);
                }
                assert(parse_i8_spec(s@) is None);
                None
            },
            None => {
                assert(parse_i8_spec(s@) is None);
                None
            },
        }
    } else {
        match parse_u32(s) {
            Some(v) => if v <= 127 {
                Some(v as i8)
            } else {
                None
            },
            None => None,
        }
    }
}

} // verus!
