//! Text building blocks for the fixed-width EDL columns: decimal digits,
//! left padding and repeated characters, each stated over `Seq<char>`.

use vstd::prelude::*;
use vstd::string::StringExecFns;
use vstd::utf8::{encode_utf8, is_ascii_chars_encode_utf8};

verus! {

/// The ASCII digit for `d` (< 10).
pub open spec fn digit_char(d: nat) -> char {
    (('0' as nat) + d) as char
}

/// The decimal digits of `n`, most significant first, without leading zeros.
pub open spec fn decimal_spec(n: nat) -> Seq<char>
    decreases n,
{
    if n < 10 {
        seq![digit_char(n)]
    } else {
        decimal_spec(n / 10).push(digit_char(n % 10))
    }
}

/// `n` copies of `c`.
pub open spec fn repeat_char(c: char, n: nat) -> Seq<char> {
    Seq::new(n, |_i: int| c)
}

/// `s` preceded by as many `pad` characters as it takes to reach `len`
/// characters; `s` itself when it is already that long.
pub open spec fn pad_left_spec(s: Seq<char>, len: nat, pad: char) -> Seq<char> {
    if s.len() < len {
        repeat_char(pad, (len - s.len()) as nat) + s
    } else {
        s
    }
}

/// The decimal text of `n` left-padded with zeros to three digits.
pub open spec fn three_digits(n: nat) -> Seq<char> {
    pad_left_spec(decimal_spec(n), 3, '0')
}

pub proof fn lemma_decimal_ascii(n: nat)
    ensures
        vstd::utf8::is_ascii_chars(decimal_spec(n)),
        decimal_spec(n).len() >= 1,
        n < 10 ==> decimal_spec(n).len() == 1,
        10 <= n < 100 ==> decimal_spec(n).len() == 2,
        100 <= n < 1000 ==> decimal_spec(n).len() == 3,
    decreases n,
{
    if n >= 10 {
        lemma_decimal_ascii(n / 10);
    }
}

/// The one-character text of digit `d`.
fn digit_str(d: u64) -> (s: &'static str)
    requires
        d < 10,
    ensures
        s@ == seq![digit_char(d as nat)],
{
    proof {
        reveal_strlit("0");
        reveal_strlit("1");
        reveal_strlit("2");
        reveal_strlit("3");
        reveal_strlit("4");
        reveal_strlit("5");
        reveal_strlit("6");
        reveal_strlit("7");
        reveal_strlit("8");
        reveal_strlit("9");
    }
    match d {
        0 => "0",
        1 => "1",
        2 => "2",
        3 => "3",
        4 => "4",
        5 => "5",
        6 => "6",
        7 => "7",
        8 => "8",
        _ => "9",
    }
}

/// Appends the decimal digits of `n` to `out`.
pub fn push_decimal(n: u64, out: &mut String)
    ensures
        final(out)@ == old(out)@ + decimal_spec(n as nat),
    decreases n,
{
    if n >= 10 {
        push_decimal(n / 10, out);
    }
    out.append(digit_str(n % 10));
    assert(decimal_spec(n as nat) == (if n < 10 { seq![digit_char(n as nat)] } else {
        decimal_spec((n / 10) as nat).push(digit_char((n % 10) as nat))
    }));
}

/// The decimal text of `n`.
pub fn decimal(n: u64) -> (s: String)
    ensures
        s@ == decimal_spec(n as nat),
{
    let mut s = String::new();
    push_decimal(n, &mut s);
    assert(s@ == decimal_spec(n as nat));
    s
}

/// Appends `n` copies of the single character of `pad` to `out`.
pub fn push_repeated(pad: &str, n: usize, out: &mut String)
    requires
        pad@.len() == 1,
    ensures
        final(out)@ == old(out)@ + repeat_char(pad@[0], n as nat),
{
    let ghost start = out@;
    let mut i: usize = 0;
    while i < n
        invariant
            pad@.len() == 1,
            i <= n,
            out@ == start + repeat_char(pad@[0], i as nat),
        decreases n - i,
    {
        out.append(pad);
        i = i + 1;
        assert(out@ =~= start + repeat_char(pad@[0], i as nat));
    }
}

/// `s` left-padded with the character of `pad` to `len` characters.
pub fn pad_left(s: &str, len: usize, pad: &str) -> (r: String)
    requires
        pad@.len() == 1,
    ensures
        r@ == pad_left_spec(s@, len as nat, pad@[0]),
{
    let n = s.unicode_len();
    let mut r = String::new();
    if n < len {
        push_repeated(pad, len - n, &mut r);
    }
    r.append(s);
    assert(r@ =~= pad_left_spec(s@, len as nat, pad@[0]));
    r
}

/// The ASCII lower-case form of `c`; other characters are unchanged.
pub open spec fn ascii_lower(c: char) -> char {
    if 'A' <= c && c <= 'Z' {
        ((c as nat) + 32) as char
    } else {
        c
    }
}

/// Two texts that are equal once ASCII letters are folded to lower case.
pub open spec fn eq_ignore_ascii_case_spec(a: Seq<char>, b: Seq<char>) -> bool {
    &&& a.len() == b.len()
    &&& forall|i: int| 0 <= i < a.len() ==> ascii_lower(#[trigger] a[i]) == ascii_lower(b[i])
}

fn lower_char(c: char) -> (r: char)
    ensures
        r == ascii_lower(c),
{
    if 'A' <= c && c <= 'Z' {
        ((c as u32) + 32) as u8 as char
    } else {
        c
    }
}

/// Whether `a` and `b` are equal, ignoring the case of ASCII letters.
pub fn eq_ignore_ascii_case(a: &str, b: &str) -> (r: bool)
    ensures
        r == eq_ignore_ascii_case_spec(a@, b@),
{
    let n = a.unicode_len();
    if n != b.unicode_len() {
        return false;
    }
    let mut i: usize = 0;
    while i < n
        invariant
            n == a@.len(),
            n == b@.len(),
            i <= n,
            forall|j: int| 0 <= j < i ==> ascii_lower(#[trigger] a@[j]) == ascii_lower(b@[j]),
        decreases n - i,
    {
        if lower_char(a.get_char(i)) != lower_char(b.get_char(i)) {
            return false;
        }
        i = i + 1;
    }
    true
}

/// Whether `a` and `b` hold the same characters.
pub fn str_equal(a: &str, b: &str) -> (r: bool)
    ensures
        r == (a@ == b@),
{
    let n = a.unicode_len();
    if n != b.unicode_len() {
        return false;
    }
    let mut i: usize = 0;
    while i < n
        invariant
            n == a@.len(),
            n == b@.len(),
            i <= n,
            forall|j: int| 0 <= j < i ==> #[trigger] a@[j] == b@[j],
        decreases n - i,
    {
        if a.get_char(i) != b.get_char(i) {
            return false;
        }
        i = i + 1;
    }
    assert(a@ =~= b@);
    true
}

/// An ASCII decimal digit.
pub open spec fn is_digit(b: u8) -> bool {
    48 <= b <= 57
}

/// The value of a string of decimal digits.
pub open spec fn digits_value(s: Seq<u8>) -> nat
    decreases s.len(),
{
    if s.len() == 0 {
        0
    } else {
        digits_value(s.drop_last()) * 10 + (s.last() - 48) as nat
    }
}

/// All bytes are decimal digits.
pub open spec fn all_digits(d: Seq<u8>) -> bool {
    forall|i: int| 0 <= i < d.len() ==> is_digit(#[trigger] d[i])
}

/// The bytes after an optional leading `+`.
pub open spec fn unsigned_part(v: Seq<u8>) -> Seq<u8> {
    if v.len() > 0 && v[0] == 43 {
        v.drop_first()
    } else {
        v
    }
}

/// What `str::parse::<usize>` accepts: an optional `+`, then one or more
/// decimal digits whose value fits in `usize`.
pub open spec fn parse_usize_spec(v: Seq<u8>) -> Option<usize> {
    let d = unsigned_part(v);
    if d.len() > 0 && all_digits(d) && digits_value(d) <= usize::MAX {
        Some(digits_value(d) as usize)
    } else {
        None
    }
}

/// Parses an unsigned decimal number from bytes.
pub fn parse_usize(v: &[u8]) -> (r: Option<usize>)
    ensures
        r == parse_usize_spec(v@),
{
    let start: usize = if v.len() > 0 && v[0] == 43 { 1 } else { 0 };
    let ghost d = v@.subrange(start as int, v@.len() as int);
    assert(d =~= unsigned_part(v@));
    if start >= v.len() {
        return None;
    }
    let mut value: usize = 0;
    let mut overflow = false;
    let mut i = start;
    while i < v.len()
        invariant
            start <= i <= v.len(),
            d == v@.subrange(start as int, v@.len() as int),
            d == unsigned_part(v@),
            forall|j: int| start <= j < i ==> is_digit(#[trigger] v@[j]),
            !overflow ==> value == digits_value(v@.subrange(start as int, i as int)),
            overflow ==> digits_value(v@.subrange(start as int, i as int)) > usize::MAX,
        decreases v.len() - i,
    {
        let b = v[i];
        if b < 48 || b > 57 {
            assert(!is_digit(d[i - start]));
            assert(!all_digits(d));
            return None;
        }
        let ghost prefix = v@.subrange(start as int, i as int);
        let ghost next = v@.subrange(start as int, i + 1);
        assert(next.drop_last() =~= prefix);
        if !overflow {
            match value.checked_mul(10) {
                Some(m) => match m.checked_add((b - 48) as usize) {
                    Some(s) => {
                        value = s;
                    },
                    None => {
                        overflow = true;
                    },
                },
                None => {
                    overflow = true;
                },
            }
        }
        i = i + 1;
    }
    assert(v@.subrange(start as int, v@.len() as int) =~= d);
    if overflow {
        None
    } else {
        Some(value)
    }
}


/// What `str::parse::<u32>` accepts: an optional `+`, then one or more
/// decimal digits whose value fits in `u32`.
pub open spec fn parse_u32_spec(v: Seq<u8>) -> Option<u32> {
    let d = unsigned_part(v);
    if d.len() > 0 && all_digits(d) && digits_value(d) <= u32::MAX {
        Some(digits_value(d) as u32)
    } else {
        None
    }
}

/// Parses an unsigned decimal number that fits in `u32` from bytes.
pub fn parse_u32(v: &[u8]) -> (r: Option<u32>)
    ensures
        r == parse_u32_spec(v@),
{
    match parse_usize(v) {
        Some(n) => if n <= 0xffff_ffff {
            Some(n as u32)
        } else {
            None
        },
        None => None,
    }
}

/// The UTF-8 bytes of the decimal text of `n`.
pub open spec fn decimal_bytes(n: nat) -> Seq<u8> {
    encode_utf8(decimal_spec(n))
}

proof fn lemma_digit_byte(d: nat)
    requires
        d < 10,
    ensures
        is_digit(digit_char(d) as u8),
        (digit_char(d) as u8) - 48 == d,
{
    assert(('0' as nat) == 48);
}

/// The decimal text of `n` is a run of ASCII digits, not starting with
/// `+`, whose value is `n`.
pub proof fn lemma_decimal_digits(n: nat)
    ensures
        decimal_bytes(n).len() == decimal_spec(n).len(),
        decimal_bytes(n).len() > 0,
        all_digits(decimal_bytes(n)),
        digits_value(decimal_bytes(n)) == n,
        decimal_bytes(n)[0] != 43,
    decreases n,
{
    lemma_decimal_ascii(n);
    is_ascii_chars_encode_utf8(decimal_spec(n));
    let b = decimal_bytes(n);
    if n < 10 {
        lemma_digit_byte(n);
        assert(b[0] == digit_char(n) as u8);
        assert(b.drop_last() =~= Seq::<u8>::empty());
        assert(digits_value(b) == digits_value(b.drop_last()) * 10 + (b.last() - 48) as nat);
    } else {
        lemma_decimal_digits(n / 10);
        lemma_decimal_ascii(n / 10);
        is_ascii_chars_encode_utf8(decimal_spec(n / 10));
        lemma_digit_byte(n % 10);
        let prev = decimal_bytes(n / 10);
        assert(decimal_spec(n) == decimal_spec(n / 10).push(digit_char(n % 10)));
        assert forall|i: int| 0 <= i < prev.len() implies b[i] == prev[i] by {
            assert(decimal_spec(n)[i] == decimal_spec(n / 10)[i]);
        }
        assert(b.drop_last() =~= prev);
        assert(b.last() == digit_char(n % 10) as u8);
        assert forall|i: int| 0 <= i < b.len() implies is_digit(#[trigger] b[i]) by {
            if i < prev.len() {
                assert(b[i] == prev[i]);
            }
        }
        assert(b[0] == prev[0]);
        assert(digits_value(b) == digits_value(prev) * 10 + (b.last() - 48) as nat);
        assert((n / 10) * 10 + n % 10 == n) by (nonlinear_arith);
    }
}

/// A number written as decimal text reads back as itself.
pub proof fn lemma_decimal_reads_back(n: usize)
    ensures
        parse_usize_spec(decimal_bytes(n as nat)) == Some(n),
        n <= u32::MAX ==> parse_u32_spec(decimal_bytes(n as nat)) == Some(n as u32),
{
    lemma_decimal_digits(n as nat);
    assert(unsigned_part(decimal_bytes(n as nat)) == decimal_bytes(n as nat));
}

/// The stored text of a number setting; an unset number is stored as 0.
pub fn number_text(v: Option<usize>) -> (s: String)
    ensures
        s@ == decimal_spec(
            match v {
                Some(n) => n as nat,
                None => 0,
            },
        ),
{
    let n: usize = match v {
        Some(n) => n,
        None => 0,
    };
    decimal(n as u64)
}

} // verus!
