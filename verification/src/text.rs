//! Decimal numbers in text: reading unsigned integers the way the standard
//! library's integer parsing does, and writing them back as digits.

use vstd::prelude::*;

verus! {

/// Why a piece of text is not an unsigned integer (the kinds of the standard
/// library's integer parse error that unsigned parsing can produce).
#[derive(Debug, Clone, Copy, PartialEq, Eq, Structural)]
pub enum IntErrorKind {
    /// The text is empty.
    Empty,
    /// The text holds a character that is not a decimal digit.
    InvalidDigit,
    /// The number is larger than the target type can hold.
    PosOverflow,
}

/// `c` is one of the ASCII digits `0`..`9`.
pub open spec fn is_digit(c: char) -> bool {
    '0' <= c && c <= '9'
}

/// The numeric value of an ASCII digit.
pub open spec fn digit_value(c: char) -> nat {
    (c as int - '0' as int) as nat
}

/// The ASCII digit for a value below ten.
pub open spec fn digit_char(d: nat) -> char {
    if d == 0 {
        '0'
    } else if d == 1 {
        '1'
    } else if d == 2 {
        '2'
    } else if d == 3 {
        '3'
    } else if d == 4 {
        '4'
    } else if d == 5 {
        '5'
    } else if d == 6 {
        '6'
    } else if d == 7 {
        '7'
    } else if d == 8 {
        '8'
    } else {
        '9'
    }
}

/// Reads `s` as a run of decimal digits, left to right, failing at the first
/// character that is not a digit or at the first digit that makes the value
/// exceed `max`.
pub open spec fn digits_result(s: Seq<char>, max: nat) -> Result<nat, IntErrorKind>
    decreases s.len(),
{
    if s.len() == 0 {
        Ok(0)
    } else {
        match digits_result(s.drop_last(), max) {
            Err(e) => Err(e),
            Ok(v) => if !is_digit(s.last()) {
                Err(IntErrorKind::InvalidDigit)
            } else if v * 10 + digit_value(s.last()) > max {
                Err(IntErrorKind::PosOverflow)
            } else {
                Ok(v * 10 + digit_value(s.last()))
            },
        }
    }
}

/// What the standard library's unsigned integer parsing gives for `s`, for a
/// type whose largest value is `max`: an optional leading `+`, then digits.
pub open spec fn parse_unsigned(s: Seq<char>, max: nat) -> Result<nat, IntErrorKind> {
    if s.len() == 0 {
        Err(IntErrorKind::Empty)
    } else if s.len() == 1 && (s[0] == '+' || s[0] == '-') {
        Err(IntErrorKind::InvalidDigit)
    } else if s[0] == '+' {
        digits_result(s.drop_first(), max)
    } else {
        digits_result(s, max)
    }
}

/// The decimal digits of `n`, most significant first, without leading zeros.
pub open spec fn decimal(n: nat) -> Seq<char>
    decreases n,
{
    if n < 10 {
        seq![digit_char(n)]
    } else {
        decimal(n / 10).push(digit_char(n % 10))
    }
}

proof fn lemma_digit_char(d: nat)
    requires
        d < 10,
    ensures
        is_digit(digit_char(d)),
        digit_value(digit_char(d)) == d,
        digit_char(d) != '.',
        digit_char(d) != '+',
        digit_char(d) != '-',
{
}

/// The digits of `n` are digits, and there is at least one.
pub proof fn lemma_decimal_digits(n: nat)
    ensures
        decimal(n).len() >= 1,
        forall|i: int| 0 <= i < decimal(n).len() ==> is_digit(#[trigger] decimal(n)[i]),
        forall|i: int| 0 <= i < decimal(n).len() ==> #[trigger] decimal(n)[i] != '.',
    decreases n,
{
    if n < 10 {
        lemma_digit_char(n);
    } else {
        lemma_decimal_digits(n / 10);
        lemma_digit_char(n % 10);
    }
}

proof fn lemma_digits_of_decimal(n: nat, max: nat)
    requires
        n <= max,
    ensures
        digits_result(decimal(n), max) == Ok::<nat, IntErrorKind>(n),
    decreases n,
{
    if n < 10 {
        lemma_digit_char(n);
        assert(decimal(n).drop_last() =~= Seq::<char>::empty());
        assert(digits_result(Seq::<char>::empty(), max) == Ok::<nat, IntErrorKind>(0));
        assert(decimal(n).last() == digit_char(n));
    } else {
        assert((n / 10) * 10 + n % 10 == n) by (nonlinear_arith);
        assert(n / 10 <= n) by (nonlinear_arith);
        lemma_digits_of_decimal(n / 10, max);
        lemma_digit_char(n % 10);
        assert(decimal(n).drop_last() =~= decimal(n / 10));
        assert(decimal(n).last() == digit_char(n % 10));
    }
}

/// Writing a number and reading it back gives the number.
pub proof fn lemma_parse_decimal(n: nat, max: nat)
    requires
        n <= max,
    ensures
        parse_unsigned(decimal(n), max) == Ok::<nat, IntErrorKind>(n),
{
    lemma_decimal_digits(n);
    lemma_digits_of_decimal(n, max);
    assert(is_digit(decimal(n)[0]));
}

/// Once reading a prefix has failed, reading the whole text fails the same way.
proof fn lemma_digits_err_extends(s: Seq<char>, k: int, max: nat)
    requires
        0 <= k <= s.len(),
        digits_result(s.subrange(0, k), max) is Err,
    ensures
        digits_result(s, max) == digits_result(s.subrange(0, k), max),
    decreases s.len() - k,
{
    if k == s.len() {
        assert(s.subrange(0, k) =~= s);
    } else {
        assert(s.drop_last().subrange(0, k) =~= s.subrange(0, k));
        lemma_digits_err_extends(s.drop_last(), k, max);
    }
}

/// Text with a character that is not a digit (other than a leading `+`)
/// is no number.
pub proof fn lemma_parse_nondigit(s: Seq<char>, i: int, max: nat)
    requires
        0 <= i < s.len(),
        !is_digit(s[i]),
        i > 0 || s[0] != '+',
    ensures
        parse_unsigned(s, max) is Err,
{
    if s.len() == 1 && (s[0] == '+' || s[0] == '-') {
    } else if s[0] == '+' {
        let t = s.drop_first();
        lemma_digits_nondigit(t, i - 1, max);
    } else {
        lemma_digits_nondigit(s, i, max);
    }
}

proof fn lemma_digits_nondigit(t: Seq<char>, j: int, max: nat)
    requires
        0 <= j < t.len(),
        !is_digit(t[j]),
    ensures
        digits_result(t, max) is Err,
{
    let u = t.subrange(0, j + 1);
    assert(u.drop_last() =~= t.subrange(0, j));
    assert(u.last() == t[j]);
    lemma_digits_err_extends(t, j + 1, max);
}

/// A number below 256 has at most three digits.
pub proof fn lemma_decimal_len_u8(n: nat)
    requires
        n < 256,
    ensures
        1 <= decimal(n).len() <= 3,
{
    if n >= 10 {
        let m = n / 10;
        assert(m < 26);
        if m >= 10 {
            assert(m / 10 < 10);
            assert(decimal(m / 10).len() == 1);
            assert(decimal(m).len() == 2);
        } else {
            assert(decimal(m).len() == 1);
        }
    }
}

/// The characters of a string slice.
pub fn chars_of(s: &str) -> (res: Vec<char>)
    ensures
        res@ == s@,
{
    let n = s.unicode_len();
    let mut res: Vec<char> = Vec::new();
    let mut i: usize = 0;
    while i < n
        invariant
            n == s@.len(),
            i <= n,
            res@ == s@.subrange(0, i as int),
        decreases n - i,
    {
        let c = s.get_char(i);
        res.push(c);
        i = i + 1;
        assert(res@ =~= s@.subrange(0, i as int));
    }
    assert(res@ =~= s@);
    res
}

/// Reads the characters `cs[lo..hi]` as a run of decimal digits no larger than `max`.
fn parse_digits(cs: &[char], lo: usize, hi: usize, max: u32) -> (res: Result<u32, IntErrorKind>)
    requires
        lo <= hi <= cs@.len(),
    ensures
        match digits_result(cs@.subrange(lo as int, hi as int), max as nat) {
            Ok(v) => res == Ok::<u32, IntErrorKind>(v as u32),
            Err(e) => res == Err::<u32, IntErrorKind>(e),
        },
{
    let ghost s = cs@.subrange(lo as int, hi as int);
    let mut acc: u64 = 0;
    let mut i: usize = lo;
    assert(s.subrange(0, 0) =~= Seq::<char>::empty());
    while i < hi
        invariant
            lo <= i <= hi <= cs@.len(),
            s == cs@.subrange(lo as int, hi as int),
            acc <= max,
            digits_result(s.subrange(0, i - lo), max as nat) == Ok::<nat, IntErrorKind>(acc as nat),
        decreases hi - i,
    {
        let c = cs[i];
        assert(s.subrange(0, i + 1 - lo).drop_last() =~= s.subrange(0, i - lo));
        assert(s.subrange(0, i + 1 - lo).last() == c);
        if !('0' <= c && c <= '9') {
            proof {
                lemma_digits_err_extends(s, i + 1 - lo, max as nat);
            }
            return Err(IntErrorKind::InvalidDigit);
        }
        let d = (c as u32 - '0' as u32) as u64;
        if acc * 10 + d > max as u64 {
            proof {
                lemma_digits_err_extends(s, i + 1 - lo, max as nat);
            }
            return Err(IntErrorKind::PosOverflow);
        }
        acc = acc * 10 + d;
        i = i + 1;
    }
    assert(s.subrange(0, hi - lo) =~= s);
    Ok(acc as u32)
}

/// Reads `cs[lo..hi]` as an unsigned integer no larger than `max`, as the
/// standard library's integer parsing does.
pub fn parse_unsigned_chars(cs: &[char], lo: usize, hi: usize, max: u32) -> (res: Result<
    u32,
    IntErrorKind,
>)
    requires
        lo <= hi <= cs@.len(),
    ensures
        match parse_unsigned(cs@.subrange(lo as int, hi as int), max as nat) {
            Ok(v) => res == Ok::<u32, IntErrorKind>(v as u32),
            Err(e) => res == Err::<u32, IntErrorKind>(e),
        },
        res is Ok ==> res->Ok_0 <= max,
{
    let ghost s = cs@.subrange(lo as int, hi as int);
    if lo == hi {
        return Err(IntErrorKind::Empty);
    }
    let first = cs[lo];
    if hi - lo == 1 && (first == '+' || first == '-') {
        return Err(IntErrorKind::InvalidDigit);
    }
    if first == '+' {
        assert(cs@.subrange(lo + 1, hi as int) =~= s.drop_first());
        let r = parse_digits(cs, lo + 1, hi, max);
        proof { lemma_digits_bound(s.drop_first(), max as nat); }
        r
    } else {
        let r = parse_digits(cs, lo, hi, max);
        proof { lemma_digits_bound(s, max as nat); }
        r
    }
}

proof fn lemma_digits_bound(s: Seq<char>, max: nat)
    ensures
        digits_result(s, max) is Ok ==> digits_result(s, max)->Ok_0 <= max,
    decreases s.len(),
{
    if s.len() > 0 {
        lemma_digits_bound(s.drop_last(), max);
    }
}

/// Appends the ASCII digit for `d` to `out`.
fn push_digit(out: &mut String, d: u64)
    requires
        d < 10,
    ensures
        final(out)@ == old(out)@.push(digit_char(d as nat)),
{
    proof {
        reveal_strlit("0");
        reveal_strlit("1");
        reveal_strlit("2");
        reveal_strlit("3");
        reveal_strlit("4");
        reveal_strlit("5");
        reveal_strlit("6");
        reveal_strlit("7");
        reveal_strlit("8");
        reveal_strlit("9");
    }
    if d == 0 {
        out.append("0");
    } else if d == 1 {
        out.append("1");
    } else if d == 2 {
        out.append("2");
    } else if d == 3 {
        out.append("3");
    } else if d == 4 {
        out.append("4");
    } else if d == 5 {
        out.append("5");
    } else if d == 6 {
        out.append("6");
    } else if d == 7 {
        out.append("7");
    } else if d == 8 {
        out.append("8");
    } else {
        out.append("9");
    }
}

/// Appends the decimal digits of `n` to `out`.
pub fn push_decimal(out: &mut String, n: u64)
    ensures
        final(out)@ == old(out)@ + decimal(n as nat),
    decreases n,
{
    if n >= 10 {
        push_decimal(out, n / 10);
    }
    push_digit(out, n % 10);
    assert(n < 10 ==> decimal(n as nat) =~= seq![digit_char(n as nat)]);
}

/// `pat` occurs in `cs` at position `pos`.
pub fn matches_at(cs: &[char], pos: usize, pat: &[char]) -> (res: bool)
    ensures
        res == (pos + pat@.len() <= cs@.len() && cs@.subrange(pos as int, pos + pat@.len()) == pat@),
{
    if pat.len() > cs.len() || pos > cs.len() - pat.len() {
        return false;
    }
    let mut i: usize = 0;
    while i < pat.len()
        invariant
            pos + pat@.len() <= cs@.len(),
            pos + pat@.len() <= cs.len(),
            i <= pat@.len(),
            forall|j: int| 0 <= j < i ==> cs@[pos + j] == pat@[j],
        decreases pat@.len() - i,
    {
        if cs[pos + i] != pat[i] {
            assert(cs@.subrange(pos as int, pos + pat@.len())[i as int] != pat@[i as int]);
            return false;
        }
        i = i + 1;
    }
    assert(cs@.subrange(pos as int, pos + pat@.len()) =~= pat@);
    true
}

/// The characters `cs` spell exactly `lit`.
pub fn chars_eq(cs: &[char], lit: &str) -> (res: bool)
    ensures
        res == (cs@ == lit@),
{
    let p = chars_of(lit);
    if p.len() != cs.len() {
        return false;
    }
    let r = matches_at(cs, 0, p.as_slice());
    assert(cs@.subrange(0, cs@.len() as int) =~= cs@);
    r
}

/// The lower-case hexadecimal digit for a value below sixteen.
pub open spec fn hex_char(d: nat) -> char {
    if d == 0 {
        '0'
    } else if d == 1 {
        '1'
    } else if d == 2 {
        '2'
    } else if d == 3 {
        '3'
    } else if d == 4 {
        '4'
    } else if d == 5 {
        '5'
    } else if d == 6 {
        '6'
    } else if d == 7 {
        '7'
    } else if d == 8 {
        '8'
    } else if d == 9 {
        '9'
    } else if d == 10 {
        'a'
    } else if d == 11 {
        'b'
    } else if d == 12 {
        'c'
    } else if d == 13 {
        'd'
    } else if d == 14 {
        'e'
    } else {
        'f'
    }
}

/// Appends the hexadecimal digit of `d` (below sixteen) to `out`.
fn push_hex_digit(out: &mut String, d: u128)
    requires
        d < 16,
    ensures
        final(out)@ == old(out)@.push(hex_char(d as nat)),
{
    proof {
        reveal_strlit("0");
        reveal_strlit("1");
        reveal_strlit("2");
        reveal_strlit("3");
        reveal_strlit("4");
        reveal_strlit("5");
        reveal_strlit("6");
        reveal_strlit("7");
        reveal_strlit("8");
        reveal_strlit("9");
        reveal_strlit("a");
        reveal_strlit("b");
        reveal_strlit("c");
        reveal_strlit("d");
        reveal_strlit("e");
        reveal_strlit("f");
    }
    if d == 0 {
        out.append("0");
    } else if d == 1 {
        out.append("1");
    } else if d == 2 {
        out.append("2");
    } else if d == 3 {
        out.append("3");
    } else if d == 4 {
        out.append("4");
    } else if d == 5 {
        out.append("5");
    } else if d == 6 {
        out.append("6");
    } else if d == 7 {
        out.append("7");
    } else if d == 8 {
        out.append("8");
    } else if d == 9 {
        out.append("9");
    } else if d == 10 {
        out.append("a");
    } else if d == 11 {
        out.append("b");
    } else if d == 12 {
        out.append("c");
    } else if d == 13 {
        out.append("d");
    } else if d == 14 {
        out.append("e");
    } else {
        out.append("f");
    }
}

/// The last `n` hexadecimal digits of `v`, most significant first, with
/// leading zeros.
pub open spec fn hex_padded(v: nat, n: nat) -> Seq<char>
    decreases n,
{
    if n == 0 {
        Seq::empty()
    } else {
        hex_padded(v / 16, (n - 1) as nat).push(hex_char(v % 16))
    }
}

/// Appends the last `n` hexadecimal digits of `v` to `out`.
pub fn push_hex(out: &mut String, v: u128, n: u32)
    ensures
        final(out)@ == old(out)@ + hex_padded(v as nat, n as nat),
    decreases n,
{
    if n > 0 {
        push_hex(out, v / 16, n - 1);
        push_hex_digit(out, v % 16);
    } else {
        assert(old(out)@ + hex_padded(v as nat, 0) =~= old(out)@);
    }
}

/// The text of the UUID with the 128 bits `v`: 32 lower-case hexadecimal
/// digits, most significant first, in groups of 8, 4, 4, 4 and 12 joined by
/// hyphens.
pub open spec fn uuid_text(v: u128) -> Seq<char> {
    hex_padded(v as nat / 0x1_0000_0000_0000_0000_0000_0000, 8) + "-"@ + hex_padded(
        (v as nat / 0x1_0000_0000_0000_0000_0000) % 0x1_0000,
        4,
    ) + "-"@ + hex_padded((v as nat / 0x1_0000_0000_0000_0000) % 0x1_0000, 4) + "-"@
        + hex_padded((v as nat / 0x1_0000_0000_0000) % 0x1_0000, 4) + "-"@ + hex_padded(
        v as nat % 0x1_0000_0000_0000,
        12,
    )
}

/// Appends the text of the UUID with the 128 bits `v` to `out`.
pub fn push_uuid(out: &mut String, v: u128)
    ensures
        final(out)@ == old(out)@ + uuid_text(v),
{
    let ghost start = out@;
    push_hex(out, v / 0x1_0000_0000_0000_0000_0000_0000, 8);
    out.append("-");
    push_hex(out, (v / 0x1_0000_0000_0000_0000_0000) % 0x1_0000, 4);
    out.append("-");
    push_hex(out, (v / 0x1_0000_0000_0000_0000) % 0x1_0000, 4);
    out.append("-");
    push_hex(out, (v / 0x1_0000_0000_0000) % 0x1_0000, 4);
    out.append("-");
    push_hex(out, v % 0x1_0000_0000_0000, 12);
    assert(out@ =~= start + uuid_text(v));
}

/// The message of the standard library's integer parse error of kind `k`.
pub open spec fn int_error_text(k: IntErrorKind) -> Seq<char> {
    match k {
        IntErrorKind::Empty => "cannot parse integer from empty string"@,
        IntErrorKind::InvalidDigit => "invalid digit found in string"@,
        IntErrorKind::PosOverflow => "number too large to fit in target type"@,
    }
}

impl IntErrorKind {
    /// The message of the standard library's integer parse error of this
    /// kind.
    pub fn to_string(&self) -> (res: String)
        ensures
            res@ == int_error_text(*self),
    {
        match self {
            IntErrorKind::Empty => "cannot parse integer from empty string".to_owned(),
            IntErrorKind::InvalidDigit => "invalid digit found in string".to_owned(),
            IntErrorKind::PosOverflow => "number too large to fit in target type".to_owned(),
        }
    }
}

/// `String::push` of the standard library appends the character `ch` to the
/// string; its documentation says so, and that is all that is claimed.
pub assume_specification[ std::string::String::push ](s: &mut std::string::String, ch: char)
    ensures
        final(s)@ == old(s)@.push(ch),
;

} // verus!
