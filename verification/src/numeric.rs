//! Decimal text of unsigned integers: rendering and parsing.

use vstd::prelude::*;

verus! {

/// The character of decimal digit `d`.
pub open spec fn digit_char(d: nat) -> char {
    ((d + 48) as u32) as char
}

/// Whether `c` is one of the ASCII digits `0` to `9`.
pub open spec fn is_digit(c: char) -> bool {
    '0' <= c && c <= '9'
}

/// The value of the ASCII digit `c`.
pub open spec fn digit_value(c: char) -> nat {
    ((c as u32) - 48) as nat
}

/// The decimal text of `n`, without sign or leading zeros (`Display` of an
/// unsigned integer).
pub open spec fn decimal(n: nat) -> Seq<char>
    decreases n,
{
    if n < 10 {
        seq![digit_char(n)]
    } else {
        decimal(n / 10).push(digit_char(n % 10))
    }
}

/// Why text is not the decimal form of a `u32`, as `u32::from_str` tells it.
#[derive(Debug, Clone, Copy, PartialEq, Eq, Structural)]
pub enum IntErrorKind {
    /// The text is empty.
    Empty,
    /// The text holds a character that is not a digit (or is a lone sign).
    InvalidDigit,
    /// The number is larger than `u32::MAX`.
    PosOverflow,
}

/// The message `ParseIntError` shows for each reason.
pub open spec fn int_error_text(k: IntErrorKind) -> Seq<char> {
    match k {
        IntErrorKind::Empty => "cannot parse integer from empty string"@,
        IntErrorKind::InvalidDigit => "invalid digit found in string"@,
        IntErrorKind::PosOverflow => "number too large to fit in target type"@,
    }
}

impl IntErrorKind {
    /// The message `ParseIntError` shows for this reason.
    pub fn description(&self) -> (r: &'static str)
        ensures
            r@ == int_error_text(*self),
    {
        match self {
            IntErrorKind::Empty => "cannot parse integer from empty string",
            IntErrorKind::InvalidDigit => "invalid digit found in string",
            IntErrorKind::PosOverflow => "number too large to fit in target type",
        }
    }
}

/// The value of a run of characters read as decimal digits from left to
/// right, stopping at the first character that is not a digit, or at the
/// first digit that takes the value past `u32::MAX`.
pub open spec fn digits_value(d: Seq<char>) -> Result<nat, IntErrorKind>
    decreases d.len(),
{
    if d.len() == 0 {
        Ok(0)
    } else {
        match digits_value(d.drop_last()) {
            Err(e) => Err(e),
            Ok(v) => if !is_digit(d.last()) {
                Err(IntErrorKind::InvalidDigit)
            } else if v * 10 + digit_value(d.last()) > u32::MAX {
                Err(IntErrorKind::PosOverflow)
            } else {
                Ok(v * 10 + digit_value(d.last()))
            },
        }
    }
}

/// What `u32::from_str` gives for the text `s`: an optional leading `+`,
/// then one or more decimal digits.
pub open spec fn parse_u32_spec(s: Seq<char>) -> Result<nat, IntErrorKind> {
    if s.len() == 0 {
        Err(IntErrorKind::Empty)
    } else if s.len() == 1 && (s[0] == '+' || s[0] == '-') {
        Err(IntErrorKind::InvalidDigit)
    } else if s[0] == '+' {
        digits_value(s.drop_first())
    } else {
        digits_value(s)
    }
}

/// A successful reading never exceeds `u32::MAX`.
pub proof fn lemma_digits_value_bounded(d: Seq<char>)
    ensures
        digits_value(d) matches Ok(v) ==> v <= u32::MAX,
    decreases d.len(),
{
    if d.len() > 0 {
        lemma_digits_value_bounded(d.drop_last());
    }
}

/// Reads `v[from..to]` as a `u32`, as `u32::from_str` reads that text.
pub fn parse_u32_chars(v: &Vec<char>, from: usize, to: usize) -> (r: Result<u32, IntErrorKind>)
    requires
        from <= to <= v@.len(),
    ensures
        match (r, parse_u32_spec(v@.subrange(from as int, to as int))) {
            (Ok(n), Ok(m)) => n == m,
            (Err(e), Err(f)) => e == f,
            _ => false,
        },
{
    let ghost s = v@.subrange(from as int, to as int);
    if from == to {
        return Err(IntErrorKind::Empty);
    }
    if to - from == 1 && (v[from] == '+' || v[from] == '-') {
        return Err(IntErrorKind::InvalidDigit);
    }
    let start = if v[from] == '+' { from + 1 } else { from };
    proof {
        if v[from as int] == '+' {
            assert(s.drop_first() =~= v@.subrange(start as int, to as int));
        } else {
            assert(s =~= v@.subrange(start as int, to as int));
        }
    }
    let mut acc: u32 = 0;
    let mut i = start;
    assert(v@.subrange(start as int, start as int) =~= Seq::<char>::empty());
    while i < to
        invariant
            start <= i <= to <= v@.len(),
            parse_u32_spec(v@.subrange(from as int, to as int)) == digits_value(
                v@.subrange(start as int, to as int),
            ),
            digits_value(v@.subrange(start as int, i as int)) == Ok::<nat, IntErrorKind>(
                acc as nat,
            ),
        decreases to - i,
    {
        let c = v[i];
        assert(v@.subrange(start as int, i + 1).drop_last() =~= v@.subrange(
            start as int,
            i as int,
        ));
        if !('0' <= c && c <= '9') {
            proof {
                assert(v@.subrange(start as int, i + 1) =~= v@.subrange(start as int, to as int).subrange(0, i + 1 - start));
                lemma_digits_value_suffix_err(
                    v@.subrange(start as int, i + 1),
                    v@.subrange(start as int, to as int),
                );
            }
            return Err(IntErrorKind::InvalidDigit);
        }
        let d: u32 = (c as u32) - 48;
        if acc > 429496729 || (acc == 429496729 && d > 5) {
            proof {
                assert(v@.subrange(start as int, i + 1) =~= v@.subrange(start as int, to as int).subrange(0, i + 1 - start));
                lemma_digits_value_suffix_err(
                    v@.subrange(start as int, i + 1),
                    v@.subrange(start as int, to as int),
                );
            }
            return Err(IntErrorKind::PosOverflow);
        }
        acc = acc * 10 + d;
        i = i + 1;
    }
    Ok(acc)
}

/// Once the reading of a prefix fails, the reading of the whole fails the
/// same way.
pub proof fn lemma_digits_value_suffix_err(p: Seq<char>, s: Seq<char>)
    requires
        p.len() <= s.len(),
        p == s.subrange(0, p.len() as int),
        digits_value(p) is Err,
    ensures
        digits_value(s) == digits_value(p),
    decreases s.len(),
{
    if s.len() > p.len() {
        assert(s.drop_last().subrange(0, p.len() as int) =~= p);
        lemma_digits_value_suffix_err(p, s.drop_last());
    } else {
        assert(s =~= p);
    }
}

/// Reads `s` as a `u32`, as `u32::from_str` does.
pub fn parse_u32(s: &str) -> (r: Result<u32, IntErrorKind>)
    ensures
        match (r, parse_u32_spec(s@)) {
            (Ok(n), Ok(m)) => n == m,
            (Err(e), Err(f)) => e == f,
            _ => false,
        },
{
    let v = crate::text::chars_of(s);
    let n = v.len();
    assert(v@.subrange(0, n as int) =~= v@);
    parse_u32_chars(&v, 0, n)
}


/// The text of the decimal digit `d`.
fn digit_str(d: u64) -> (s: &'static str)
    requires
        d < 10,
    ensures
        s@ == seq![digit_char(d as nat)],
{
    match d {
        0 => {
            proof { reveal_strlit("0"); }
            "0"
        },
        1 => {
            proof { reveal_strlit("1"); }
            "1"
        },
        2 => {
            proof { reveal_strlit("2"); }
            "2"
        },
        3 => {
            proof { reveal_strlit("3"); }
            "3"
        },
        4 => {
            proof { reveal_strlit("4"); }
            "4"
        },
        5 => {
            proof { reveal_strlit("5"); }
            "5"
        },
        6 => {
            proof { reveal_strlit("6"); }
            "6"
        },
        7 => {
            proof { reveal_strlit("7"); }
            "7"
        },
        8 => {
            proof { reveal_strlit("8"); }
            "8"
        },
        _ => {
            proof { reveal_strlit("9"); }
            "9"
        },
    }
}

/// Appends the decimal text of `n` to `out`.
pub fn append_decimal(out: &mut String, n: u64)
    ensures
        final(out)@ == old(out)@ + decimal(n as nat),
    decreases n,
{
    if n >= 10 {
        append_decimal(out, n / 10);
    }
    out.append(digit_str(n % 10));
    assert(decimal(n as nat) =~= if n < 10 {
        seq![digit_char(n as nat)]
    } else {
        decimal((n / 10) as nat).push(digit_char((n % 10) as nat))
    });
}

/// `s` preceded by as many `0`s as it takes to reach `width` characters.
pub open spec fn zero_pad(s: Seq<char>, width: nat) -> Seq<char> {
    if s.len() >= width {
        s
    } else {
        Seq::new((width - s.len()) as nat, |i: int| '0') + s
    }
}

/// Appends the decimal text of `n`, zero-padded to `width` characters.
pub fn append_padded_decimal(out: &mut String, n: u64, width: usize)
    ensures
        final(out)@ == old(out)@ + zero_pad(decimal(n as nat), width as nat),
{
    let mut digits = String::new();
    append_decimal(&mut digits, n);
    let len = digits.as_str().unicode_len();
    let ghost start = out@;
    let mut k: usize = len;
    while k < width
        invariant
            len == decimal(n as nat).len(),
            len <= k <= (if width > len { width } else { len }),
            out@ == start + Seq::new((k - len) as nat, |i: int| '0'),
        decreases width - k,
    {
        proof { reveal_strlit("0"); }
        out.append("0");
        k = k + 1;
        assert(out@ =~= start + Seq::new((k - len) as nat, |i: int| '0'));
    }
    out.append(digits.as_str());
    assert(out@ =~= start + zero_pad(decimal(n as nat), width as nat));
}

/// The decimal text of `n` (`n.to_string()`).
pub fn u32_to_decimal(n: u32) -> (s: String)
    ensures
        s@ == decimal(n as nat),
{
    let mut s = String::new();
    append_decimal(&mut s, n as u64);
    s
}

/// Every character of a decimal text is a digit, and the text is not empty.
pub proof fn lemma_decimal_digits(n: nat)
    ensures
        decimal(n).len() >= 1,
        forall|i: int| 0 <= i < decimal(n).len() ==> #[trigger] is_digit(decimal(n)[i]),
    decreases n,
{
    lemma_digit_char(n % 10);
    if n >= 10 {
        lemma_decimal_digits(n / 10);
    }
}

/// The digit character of `d` is a digit whose value is `d`.
pub proof fn lemma_digit_char(d: nat)
    requires
        d < 10,
    ensures
        is_digit(digit_char(d)),
        digit_value(digit_char(d)) == d,
{
    assert(digit_char(d) as u32 == d + 48);
}

/// Reading the digits of the decimal text of `n` gives `n` back.
pub proof fn lemma_digits_value_decimal(n: nat)
    requires
        n <= u32::MAX,
    ensures
        digits_value(decimal(n)) == Ok::<nat, IntErrorKind>(n),
    decreases n,
{
    lemma_digit_char(n % 10);
    if n < 10 {
        assert(decimal(n).drop_last() =~= Seq::<char>::empty());
        assert(digits_value(decimal(n)) == Ok::<nat, IntErrorKind>(n));
    } else {
        lemma_digits_value_decimal(n / 10);
        assert(decimal(n).drop_last() =~= decimal(n / 10));
        assert(decimal(n).last() == digit_char(n % 10));
        assert((n / 10) * 10 + n % 10 == n);
        assert(digits_value(decimal(n).drop_last()) == Ok::<nat, IntErrorKind>(n / 10));
        assert(digits_value(decimal(n)) == Ok::<nat, IntErrorKind>(n));
    }
}

/// Law: `u32::from_str` reads the decimal text of any `u32` back as that
/// number.
pub proof fn lemma_parse_decimal_roundtrip(n: u32)
    ensures
        parse_u32_spec(decimal(n as nat)) == Ok::<nat, IntErrorKind>(n as nat),
{
    lemma_decimal_digits(n as nat);
    lemma_digits_value_decimal(n as nat);
    assert(is_digit(decimal(n as nat)[0]));
}

} // verus!
