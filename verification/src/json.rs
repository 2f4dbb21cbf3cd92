//! JSON lexical layer: whitespace, strings (with escapes), and integers.
//!
//! Each construct has a specification-level parser over `Seq<char>` that
//! consumes a prefix and returns the parsed value together with the remaining
//! suffix, and an executable parser over `&[char]` proved to agree with it.
//! Encoding goes the other way: a specification-level encoder builds the
//! exact character sequence, and the executable encoder is proved equal.

use vstd::prelude::*;

verus! {

// ---------------------------------------------------------------------------
// Whitespace
// ---------------------------------------------------------------------------

pub open spec fn is_json_ws(c: char) -> bool {
    c == ' ' || c == '\t' || c == '\n' || c == '\r'
}

/// The suffix that remains after the leading JSON whitespace.
pub open spec fn skip_ws(u: Seq<char>) -> Seq<char>
    decreases u.len(),
{
    if u.len() > 0 && is_json_ws(u[0]) {
        skip_ws(u.skip(1))
    } else {
        u
    }
}

pub fn p_ws(s: &[char], i: usize) -> (j: usize)
    requires
        i <= s@.len(),
    ensures
        i <= j <= s@.len(),
        s@.skip(j as int) == skip_ws(s@.skip(i as int)),
{
    let n = s.len();
    let mut j = i;
    while j < n && (s[j] == ' ' || s[j] == '\t' || s[j] == '\n' || s[j] == '\r')
        invariant
            i <= j <= n,
            n == s@.len(),
            skip_ws(s@.skip(i as int)) == skip_ws(s@.skip(j as int)),
        decreases n - j,
    {
        assert(s@.skip(j as int).skip(1) =~= s@.skip(j + 1 as int));
        j += 1;
    }
    assert(skip_ws(s@.skip(j as int)) == s@.skip(j as int));
    j
}

// ---------------------------------------------------------------------------
// Hexadecimal digits
// ---------------------------------------------------------------------------

pub open spec fn hex_val(c: char) -> Option<u32> {
    let n = c as u32;
    if 48 <= n && n <= 57 {
        Some((n - 48) as u32)
    } else if 97 <= n && n <= 102 {
        Some((n - 87) as u32)
    } else if 65 <= n && n <= 70 {
        Some((n - 55) as u32)
    } else {
        None
    }
}

fn p_hex_val(c: char) -> (r: Option<u32>)
    ensures
        r == hex_val(c),
{
    let n = c as u32;
    if 48 <= n && n <= 57 {
        Some(n - 48)
    } else if 97 <= n && n <= 102 {
        Some(n - 87)
    } else if 65 <= n && n <= 70 {
        Some(n - 55)
    } else {
        None
    }
}

/// Value of four hexadecimal digits at the head of `u`.
pub open spec fn hex4(u: Seq<char>) -> Option<u32> {
    if u.len() >= 4 {
        match (hex_val(u[0]), hex_val(u[1]), hex_val(u[2]), hex_val(u[3])) {
            (Some(a), Some(b), Some(c), Some(d)) => Some((a * 4096 + b * 256 + c * 16 + d) as u32),
            _ => None,
        }
    } else {
        None
    }
}

fn p_hex4(s: &[char], i: usize) -> (r: Option<u32>)
    requires
        i <= s@.len(),
    ensures
        r == hex4(s@.skip(i as int)),
{
    if s.len() - i < 4 {
        return None;
    }
    let (a, b, c, d) = (p_hex_val(s[i]), p_hex_val(s[i + 1]), p_hex_val(s[i + 2]), p_hex_val(
        s[i + 3],
    ));
    match (a, b, c, d) {
        (Some(a), Some(b), Some(c), Some(d)) => Some(a * 4096 + b * 256 + c * 16 + d),
        _ => None,
    }
}

// ---------------------------------------------------------------------------
// Strings
// ---------------------------------------------------------------------------

/// The character denoted by a single-character escape.
pub open spec fn unescape_char(e: char) -> Option<char> {
    if e == '"' {
        Some('"')
    } else if e == '\\' {
        Some('\\')
    } else if e == '/' {
        Some('/')
    } else if e == 'b' {
        Some('\u{0008}')
    } else if e == 'f' {
        Some('\u{000C}')
    } else if e == 'n' {
        Some('\n')
    } else if e == 'r' {
        Some('\r')
    } else if e == 't' {
        Some('\t')
    } else {
        None
    }
}

fn p_unescape_char(e: char) -> (r: Option<char>)
    ensures
        r == unescape_char(e),
{
    if e == '"' {
        Some('"')
    } else if e == '\\' {
        Some('\\')
    } else if e == '/' {
        Some('/')
    } else if e == 'b' {
        Some('\u{0008}')
    } else if e == 'f' {
        Some('\u{000C}')
    } else if e == 'n' {
        Some('\n')
    } else if e == 'r' {
        Some('\r')
    } else if e == 't' {
        Some('\t')
    } else {
        None
    }
}

/// A `\u` escape at the head of `u` (so `u[0] == '\\'` and `u[1] == 'u'`):
/// the denoted character and the number of characters consumed (6, or 12 for
/// a surrogate pair).
pub open spec fn parse_u_escape(u: Seq<char>) -> Option<(char, int)> {
    if u.len() < 6 {
        None
    } else {
        match hex4(u.skip(2)) {
            None => None,
            Some(h) => if h < 0xD800 || h >= 0xE000 {
                Some((h as char, 6))
            } else if h < 0xDC00 {
                if u.len() >= 12 && u[6] == '\\' && u[7] == 'u' {
                    match hex4(u.skip(8)) {
                        None => None,
                        Some(l) => if 0xDC00 <= l && l < 0xE000 {
                            Some(
                                ((0x10000 + (h - 0xD800) * 0x400 + (l - 0xDC00)) as char, 12),
                            )
                        } else {
                            None
                        },
                    }
                } else {
                    None
                }
            } else {
                None
            },
        }
    }
}

fn p_u_escape(s: &[char], i: usize) -> (r: Option<(char, usize)>)
    requires
        i <= s@.len(),
    ensures
        r is None <==> parse_u_escape(s@.skip(i as int)) is None,
        r matches Some((c, k)) ==> i + k <= s@.len() && k >= 6 && parse_u_escape(
            s@.skip(i as int),
        ) == Some((c, k as int)),
{
    let ghost u = s@.skip(i as int);
    if s.len() - i < 6 {
        return None;
    }
    assert(u.skip(2) =~= s@.skip(i + 2 as int));
    let h = match p_hex4(s, i + 2) {
        None => { return None; },
        Some(h) => h,
    };
    if h < 0xD800 || h >= 0xE000 {
        let c = match crate::text::char_from_u32(h) {
            None => { return None; },
            Some(c) => c,
        };
        proof {
            vstd::utf8::char_u32_cast(c, h);
        }
        Some((c, 6))
    } else if h < 0xDC00 {
        if s.len() - i >= 12 && s[i + 6] == '\\' && s[i + 7] == 'u' {
            assert(u[6] == '\\' && u[7] == 'u');
            assert(u.skip(8) =~= s@.skip(i + 8 as int));
            let l = match p_hex4(s, i + 8) {
                None => { return None; },
                Some(l) => l,
            };
            if 0xDC00 <= l && l < 0xE000 {
                let code = 0x10000 + (h - 0xD800) * 0x400 + (l - 0xDC00);
                let c = match crate::text::char_from_u32(code) {
                    None => { return None; },
                    Some(c) => c,
                };
                proof {
                    vstd::utf8::char_u32_cast(c, code);
                }
                Some((c, 12))
            } else {
                None
            }
        } else {
            assert(!(u.len() >= 12 && u[6] == '\\' && u[7] == 'u'));
            None
        }
    } else {
        None
    }
}

/// Body of a string literal, after the opening quote: the denoted character
/// sequence and the suffix after the closing quote.
pub open spec fn parse_str_body(u: Seq<char>) -> Option<(Seq<char>, Seq<char>)>
    decreases u.len(),
{
    if u.len() == 0 {
        None
    } else if u[0] == '"' {
        Some((Seq::empty(), u.skip(1)))
    } else if u[0] == '\\' {
        if u.len() < 2 {
            None
        } else if u[1] == 'u' {
            match parse_u_escape(u) {
                None => None,
                Some((c, k)) => if 0 < k <= u.len() {
                    match parse_str_body(u.skip(k)) {
                        None => None,
                        Some((t, v)) => Some((seq![c] + t, v)),
                    }
                } else {
                    None
                },
            }
        } else {
            match unescape_char(u[1]) {
                None => None,
                Some(c) => match parse_str_body(u.skip(2)) {
                    None => None,
                    Some((t, v)) => Some((seq![c] + t, v)),
                },
            }
        }
    } else if u[0] as u32 >= 0x20 {
        match parse_str_body(u.skip(1)) {
            None => None,
            Some((t, v)) => Some((seq![u[0]] + t, v)),
        }
    } else {
        None
    }
}

/// A string literal at the head of `u`: its character content and the suffix
/// after the closing quote.
pub open spec fn parse_string(u: Seq<char>) -> Option<(Seq<char>, Seq<char>)> {
    if u.len() > 0 && u[0] == '"' {
        parse_str_body(u.skip(1))
    } else {
        None
    }
}

pub fn p_string(s: &[char], i: usize) -> (r: Option<(Vec<char>, usize)>)
    requires
        i <= s@.len(),
    ensures
        r is None <==> parse_string(s@.skip(i as int)) is None,
        r matches Some((v, j)) ==> i < j <= s@.len() && parse_string(s@.skip(i as int)) == Some(
            (v@, s@.skip(j as int)),
        ),
{
    let n = s.len();
    if i >= n || s[i] != '"' {
        return None;
    }
    assert(s@.skip(i as int).skip(1) =~= s@.skip(i + 1 as int));
    let ghost start = s@.skip(i + 1 as int);
    let mut acc: Vec<char> = Vec::new();
    let mut cur: usize = i + 1;
    loop
        invariant
            i + 1 <= cur <= n,
            n == s@.len(),
            parse_string(s@.skip(i as int)) == parse_str_body(start),
            parse_str_body(start) is Some <==> parse_str_body(s@.skip(cur as int)) is Some,
            forall|t: Seq<char>, v: Seq<char>|
                parse_str_body(s@.skip(cur as int)) == Some((t, v)) ==> parse_str_body(start)
                    == Some((acc@ + t, v)),
        decreases n - cur,
    {
        let ghost u = s@.skip(cur as int);
        if cur >= n {
            assert(parse_str_body(u) is None);
            return None;
        }
        let c = s[cur];
        assert(u[0] == c);
        if c == '"' {
            assert(u.skip(1) =~= s@.skip(cur + 1 as int));
            assert(parse_str_body(u) == Some((Seq::<char>::empty(), s@.skip(cur + 1 as int))));
            assert(acc@ + Seq::<char>::empty() =~= acc@);
            return Some((acc, cur + 1));
        } else if c == '\\' {
            if cur + 1 >= n {
                assert(parse_str_body(u) is None);
                return None;
            }
            let e = s[cur + 1];
            assert(u[1] == e);
            if e == 'u' {
                match p_u_escape(s, cur) {
                    None => {
                        assert(parse_str_body(u) is None);
                        return None;
                    },
                    Some((uc, k)) => {
                        assert(parse_u_escape(u) == Some((uc, k as int)));
                        assert(0 < k <= u.len());
                        assert(u.skip(k as int) =~= s@.skip(cur + k as int));
                        let ghost old_acc = acc@;
                        acc.push(uc);
                        assert(forall|t: Seq<char>, v: Seq<char>|
                            parse_str_body(s@.skip(cur + k as int)) == Some((t, v))
                                ==> old_acc + (seq![uc] + t) =~= acc@ + t);
                        cur = cur + k;
                    },
                }
            } else {
                match p_unescape_char(e) {
                    None => {
                        assert(parse_str_body(u) is None);
                        return None;
                    },
                    Some(ec) => {
                        assert(u.skip(2) =~= s@.skip(cur + 2 as int));
                        let ghost old_acc = acc@;
                        acc.push(ec);
                        assert(forall|t: Seq<char>, v: Seq<char>|
                            parse_str_body(s@.skip(cur + 2 as int)) == Some((t, v))
                                ==> old_acc + (seq![ec] + t) =~= acc@ + t);
                        cur = cur + 2;
                    },
                }
            }
        } else if c as u32 >= 0x20 {
            assert(u.skip(1) =~= s@.skip(cur + 1 as int));
            let ghost old_acc = acc@;
            acc.push(c);
            assert(forall|t: Seq<char>, v: Seq<char>|
                parse_str_body(s@.skip(cur + 1 as int)) == Some((t, v)) ==> old_acc + (seq![c]
                    + t) =~= acc@ + t);
            cur = cur + 1;
        } else {
            assert(parse_str_body(u) is None);
            return None;
        }
    }
}

// ---------------------------------------------------------------------------
// Integers
// ---------------------------------------------------------------------------

pub open spec fn is_digit(c: char) -> bool {
    48 <= c as u32 && c as u32 <= 57
}

/// Number of decimal digits at the head of `u`.
pub open spec fn digit_run(u: Seq<char>) -> int
    decreases u.len(),
{
    if u.len() > 0 && is_digit(u[0]) {
        1 + digit_run(u.skip(1))
    } else {
        0
    }
}

/// Value of the first `n` characters of `u`, read as decimal digits.
pub open spec fn digits_val(u: Seq<char>, n: int) -> int
    decreases n,
{
    if n <= 0 {
        0
    } else {
        digits_val(u, n - 1) * 10 + (u[n - 1] as u32 - 48)
    }
}

pub proof fn lemma_digit_run_bounds(u: Seq<char>)
    ensures
        0 <= digit_run(u) <= u.len(),
        forall|k: int| 0 <= k < digit_run(u) ==> is_digit(u[k]),
        digit_run(u) < u.len() ==> !is_digit(u[digit_run(u)]),
    decreases u.len(),
{
    if u.len() > 0 && is_digit(u[0]) {
        lemma_digit_run_bounds(u.skip(1));
        assert forall|k: int| 0 <= k < digit_run(u) implies is_digit(u[k]) by {
            if k > 0 {
                assert(is_digit(u.skip(1)[k - 1]));
            }
        }
        if digit_run(u) < u.len() {
            assert(!is_digit(u.skip(1)[digit_run(u) - 1]));
        }
    }
}

pub proof fn lemma_digits_val_bound(u: Seq<char>, n: int)
    requires
        forall|k: int| 0 <= k < n ==> is_digit(u[k]),
    ensures
        0 <= digits_val(u, n) < pow10(n),
    decreases n,
{
    if n > 0 {
        lemma_digits_val_bound(u, n - 1);
    }
}

pub open spec fn pow10(n: int) -> int
    decreases n,
{
    if n <= 0 {
        1
    } else {
        10 * pow10(n - 1)
    }
}

/// An unsigned decimal integer at the head of `u`: no leading zero, at most
/// 19 digits (a longer run always exceeds the 64-bit range).
pub open spec fn parse_uint(u: Seq<char>) -> Option<(int, Seq<char>)> {
    let k = digit_run(u);
    if k < 1 || k > 19 {
        None
    } else if u[0] == '0' && k > 1 {
        None
    } else {
        Some((digits_val(u, k), u.skip(k)))
    }
}

/// A JSON integer at the head of `u`, within the `i64` range.
pub open spec fn parse_int(u: Seq<char>) -> Option<(i64, Seq<char>)> {
    if u.len() > 0 && u[0] == '-' {
        match parse_uint(u.skip(1)) {
            None => None,
            Some((v, w)) => if v <= 0x8000_0000_0000_0000 {
                Some(((-v) as i64, w))
            } else {
                None
            },
        }
    } else {
        match parse_uint(u) {
            None => None,
            Some((v, w)) => if v <= 0x7fff_ffff_ffff_ffff {
                Some((v as i64, w))
            } else {
                None
            },
        }
    }
}

fn p_uint(s: &[char], i: usize) -> (r: Option<(u64, usize)>)
    requires
        i <= s@.len(),
    ensures
        r is None <==> parse_uint(s@.skip(i as int)) is None,
        r matches Some((v, j)) ==> i < j <= s@.len() && parse_uint(s@.skip(i as int)) == Some(
            (v as int, s@.skip(j as int)),
        ),
{
    let ghost u = s@.skip(i as int);
    let n = s.len();
    // Measure the digit run.
    let mut j = i;
    while j < n && 48 <= s[j] as u32 && s[j] as u32 <= 57
        invariant
            i <= j <= n,
            n == s@.len(),
            digit_run(s@.skip(i as int)) == (j - i) + digit_run(s@.skip(j as int)),
            forall|k: int| i <= k < j ==> is_digit(s@[k]),
        decreases n - j,
    {
        assert(s@.skip(j as int)[0] == s@[j as int]);
        assert(s@.skip(j as int).skip(1) =~= s@.skip(j + 1 as int));
        proof {
            lemma_digit_run_bounds(s@.skip(j + 1 as int));
        }
        j += 1;
    }
    assert(digit_run(s@.skip(j as int)) == 0) by {
        if j < n {
            assert(s@.skip(j as int)[0] == s@[j as int]);
        }
    }
    let k = j - i;
    proof {
        lemma_digit_run_bounds(u);
    }
    if k < 1 || k > 19 {
        return None;
    }
    assert(u[0] == s@[i as int]);
    if s[i] == '0' && k > 1 {
        return None;
    }
    // Accumulate the value.
    let mut v: u64 = 0;
    let mut m: usize = 0;
    while m < k
        invariant
            0 <= m <= k,
            k == digit_run(u),
            1 <= k <= 19,
            i + k <= s@.len(),
            n == s@.len(),
            u == s@.skip(i as int),
            forall|t: int| 0 <= t < k ==> is_digit(u[t]) && u[t] == s@[i + t],
            v as int == digits_val(u, m as int),
            (v as int) < pow10(m as int),
        decreases k - m,
    {
        let d = s[i + m] as u32;
        assert(is_digit(u[m as int]));
        assert(48 <= d <= 57);
        proof {
            lemma_pow10_19();
            lemma_pow10_mono(m as int + 1, 19);
            assert(pow10(m as int + 1) == 10 * pow10(m as int));
            assert((v as int) * 10 + 9 < pow10(m as int + 1));
        }
        v = v * 10 + ((d - 48) as u64);
        m += 1;
    }
    assert(u.skip(k as int) =~= s@.skip(i + k as int));
    Some((v, i + k))
}

proof fn lemma_pow10_19()
    ensures
        pow10(19) == 0x8AC7_2304_89E8_0000,
{
    reveal_with_fuel(pow10, 21);
}

proof fn lemma_pow10_pos(a: int)
    ensures
        pow10(a) >= 1,
    decreases a,
{
    if a > 0 {
        lemma_pow10_pos(a - 1);
    }
}

proof fn lemma_pow10_mono(a: int, b: int)
    requires
        a <= b,
    ensures
        1 <= pow10(a) <= pow10(b),
    decreases b - a,
{
    lemma_pow10_pos(a);
    if a < b {
        lemma_pow10_mono(a, b - 1);
    }
}

pub fn p_i64(s: &[char], i: usize) -> (r: Option<(i64, usize)>)
    requires
        i <= s@.len(),
    ensures
        r is None <==> parse_int(s@.skip(i as int)) is None,
        r matches Some((v, j)) ==> i < j <= s@.len() && parse_int(s@.skip(i as int)) == Some(
            (v, s@.skip(j as int)),
        ),
{
    let ghost u = s@.skip(i as int);
    let n = s.len();
    if i < n && s[i] == '-' {
        assert(u[0] == '-');
        assert(u.skip(1) =~= s@.skip(i + 1 as int));
        match p_uint(s, i + 1) {
            None => None,
            Some((v, j)) => {
                if v <= 0x7fff_ffff_ffff_ffff {
                    Some((-(v as i64), j))
                } else if v == 0x8000_0000_0000_0000 {
                    Some((i64::MIN, j))
                } else {
                    None
                }
            },
        }
    } else {
        assert(u.len() > 0 ==> u[0] == s@[i as int]);
        match p_uint(s, i) {
            None => None,
            Some((v, j)) => {
                if v <= 0x7fff_ffff_ffff_ffff {
                    Some((v as i64, j))
                } else {
                    None
                }
            },
        }
    }
}

// ---------------------------------------------------------------------------
// Encoding
// ---------------------------------------------------------------------------

/// Hexadecimal digit character for a value below 16.
pub open spec fn hex_char(d: u32) -> char {
    if d < 10 {
        (48 + d) as char
    } else {
        (87 + d) as char
    }
}

/// The encoded form of one string character: itself, a two-character escape
/// for quote and backslash, or a `\u00XX` escape for a control character.
pub open spec fn esc_char(c: char) -> Seq<char> {
    if c == '"' {
        seq!['\\', '"']
    } else if c == '\\' {
        seq!['\\', '\\']
    } else if (c as u32) < 0x20 {
        seq!['\\', 'u', '0', '0', hex_char((c as u32) / 16), hex_char((c as u32) % 16)]
    } else {
        seq![c]
    }
}

pub open spec fn esc_seq(s: Seq<char>) -> Seq<char>
    decreases s.len(),
{
    if s.len() == 0 {
        Seq::empty()
    } else {
        esc_char(s[0]) + esc_seq(s.skip(1))
    }
}

/// The encoded form of a string value: quoted and escaped.
pub open spec fn enc_str(s: Seq<char>) -> Seq<char> {
    seq!['"'] + esc_seq(s) + seq!['"']
}

pub proof fn lemma_esc_seq_push(s: Seq<char>, c: char)
    ensures
        esc_seq(s.push(c)) == esc_seq(s) + esc_char(c),
    decreases s.len(),
{
    if s.len() == 0 {
        assert(s.push(c)[0] == c);
        assert(s.push(c).skip(1) =~= Seq::<char>::empty());
        assert(esc_seq(Seq::<char>::empty()) == Seq::<char>::empty());
        assert(esc_seq(s.push(c)) == esc_char(c) + esc_seq(s.push(c).skip(1)));
        assert(esc_seq(s.push(c)) =~= esc_seq(s) + esc_char(c));
    } else {
        assert(s.push(c)[0] == s[0]);
        assert(s.push(c).skip(1) =~= s.skip(1).push(c));
        lemma_esc_seq_push(s.skip(1), c);
        assert(esc_seq(s.push(c)) == esc_char(s[0]) + esc_seq(s.skip(1).push(c)));
        assert(esc_seq(s) == esc_char(s[0]) + esc_seq(s.skip(1)));
        assert(esc_seq(s.push(c)) =~= esc_seq(s) + esc_char(c));
    }
}

fn push_hex_char(out: &mut Vec<char>, d: u32)
    requires
        d < 16,
    ensures
        final(out)@ == old(out)@ + seq![hex_char(d)],
{
    if d < 10 {
        out.push((48 + d as u8) as char);
    } else {
        out.push((87 + d as u8) as char);
    }
}

fn push_esc_char(out: &mut Vec<char>, c: char)
    ensures
        final(out)@ == old(out)@ + esc_char(c),
{
    if c == '"' {
        out.push('\\');
        out.push('"');
        assert(out@ =~= old(out)@ + esc_char(c));
    } else if c == '\\' {
        out.push('\\');
        out.push('\\');
        assert(out@ =~= old(out)@ + esc_char(c));
    } else if (c as u32) < 0x20 {
        out.push('\\');
        out.push('u');
        out.push('0');
        out.push('0');
        push_hex_char(out, (c as u32) / 16);
        push_hex_char(out, (c as u32) % 16);
        assert(out@ =~= old(out)@ + esc_char(c));
    } else {
        out.push(c);
        assert(out@ =~= old(out)@ + esc_char(c));
    }
}

/// Appends the encoded (quoted, escaped) form of `s` to `out`.
pub fn push_enc_str(out: &mut Vec<char>, s: &[char])
    ensures
        final(out)@ == old(out)@ + enc_str(s@),
{
    out.push('"');
    let n = s.len();
    let mut i: usize = 0;
    while i < n
        invariant
            0 <= i <= n,
            n == s@.len(),
            out@ == old(out)@ + seq!['"'] + esc_seq(s@.subrange(0, i as int)),
        decreases n - i,
    {
        assert(esc_seq(s@.subrange(0, 0)) =~= Seq::<char>::empty());
        proof {
            lemma_esc_seq_push(s@.subrange(0, i as int), s@[i as int]);
            assert(s@.subrange(0, i as int).push(s@[i as int]) =~= s@.subrange(0, i + 1 as int));
        }
        push_esc_char(out, s[i]);
        i += 1;
    }
    assert(s@.subrange(0, n as int) =~= s@);
    out.push('"');
    assert(out@ =~= old(out)@ + enc_str(s@));
}

/// Decimal digits of `n`, most significant first; empty for zero.
pub open spec fn dec_digits(n: int) -> Seq<char>
    decreases n,
{
    if n <= 0 {
        Seq::empty()
    } else {
        dec_digits(n / 10) + seq![(48 + n % 10) as char]
    }
}

/// The encoded form of a 64-bit integer.
pub open spec fn enc_i64(v: i64) -> Seq<char> {
    if v == 0 {
        seq!['0']
    } else if v < 0 {
        seq!['-'] + dec_digits(-(v as int))
    } else {
        dec_digits(v as int)
    }
}

fn push_dec_digits(out: &mut Vec<char>, n: u64)
    ensures
        final(out)@ == old(out)@ + dec_digits(n as int),
    decreases n,
{
    if n == 0 {
        assert(out@ =~= out@ + dec_digits(0));
        return ;
    }
    push_dec_digits(out, n / 10);
    out.push((48 + (n % 10) as u8) as char);
    assert(out@ =~= old(out)@ + dec_digits(n as int));
}

/// Appends the decimal form of `v` to `out`.
pub fn push_enc_i64(out: &mut Vec<char>, v: i64)
    ensures
        final(out)@ == old(out)@ + enc_i64(v),
{
    if v == 0 {
        out.push('0');
        assert(out@ =~= old(out)@ + enc_i64(v));
    } else if v < 0 {
        out.push('-');
        let m: u64 = if v == i64::MIN {
            0x8000_0000_0000_0000u64
        } else {
            (-v) as u64
        };
        push_dec_digits(out, m);
        assert(out@ =~= old(out)@ + enc_i64(v));
    } else {
        push_dec_digits(out, v as u64);
        assert(out@ =~= old(out)@ + enc_i64(v));
    }
}

} // verus!
