//! Decimal text of unsigned integers: the form in which block numbers are
//! written to checkpoint files, and the parser that reads them back.

use vstd::prelude::*;
use vstd::string::StringSliceAdditionalSpecFns;

verus! {

/// The ASCII character of a decimal digit.
pub open spec fn digit_char(d: nat) -> char
    recommends
        d < 10,
{
    (48 + d) as char
}

/// The shortest decimal text of `n`, most significant digit first.
pub open spec fn decimal(n: nat) -> Seq<char>
    decreases n,
{
    if n < 10 {
        seq![digit_char(n)]
    } else {
        decimal(n / 10).push(digit_char(n % 10))
    }
}

/// Appends one character to a string with `String::push`.
/// Claimed, as std documents it: the text gains that character at its end.
#[verifier::external_body]
pub(crate) fn push_char(s: &mut String, c: char)
    ensures
        final(s)@ == old(s)@.push(c),
{
    s.push(c);
}

fn append_decimal(s: &mut String, n: u64)
    ensures
        final(s)@ == old(s)@ + decimal(n as nat),
    decreases n,
{
    if n >= 10 {
        append_decimal(s, n / 10);
    }
    let d: u8 = (n % 10) as u8;
    let c: char = (48u8 + d) as char;
    push_char(s, c);
}

/// The decimal text of `n`, as `n.to_string()` writes it.
pub fn u64_to_decimal(n: u64) -> (s: String)
    ensures
        s@ == decimal(n as nat),
{
    let mut s = String::new();
    append_decimal(&mut s, n);
    assert(s@ =~= decimal(n as nat));
    s
}

/// Why `str::parse::<u64>` refuses a text.
#[derive(Debug, Clone, Copy, PartialEq, Eq, Structural)]
pub enum IntParseError {
    /// The text is empty.
    Empty,
    /// A character is not a decimal digit (a lone sign counts as one).
    InvalidDigit,
    /// The number does not fit in a `u64`.
    PosOverflow,
}

/// Whether a byte is an ASCII decimal digit.
pub open spec fn is_digit_byte(b: u8) -> bool {
    48 <= b <= 57
}

/// The value of an ASCII decimal digit byte.
pub open spec fn digit_value(b: u8) -> nat {
    (b - 48) as nat
}

/// Reads decimal digits from the left onto `acc`, stopping at the first
/// byte that is no digit or at the first prefix whose value passes `u64::MAX`.
pub open spec fn parse_digits(d: Seq<u8>, acc: nat) -> Result<u64, IntParseError>
    decreases d.len(),
{
    if d.len() == 0 {
        Ok(acc as u64)
    } else if !is_digit_byte(d[0]) {
        Err(IntParseError::InvalidDigit)
    } else if acc * 10 + digit_value(d[0]) > u64::MAX {
        Err(IntParseError::PosOverflow)
    } else {
        parse_digits(d.drop_first(), acc * 10 + digit_value(d[0]))
    }
}

/// What `str::parse::<u64>` gives for a text with these UTF-8 bytes: an
/// optional leading `+`, then at least one decimal digit, nothing else.
pub open spec fn parse_u64(b: Seq<u8>) -> Result<u64, IntParseError> {
    if b.len() == 0 {
        Err(IntParseError::Empty)
    } else if b.len() == 1 && (b[0] == 43 || b[0] == 45) {
        Err(IntParseError::InvalidDigit)
    } else if b[0] == 43 {
        parse_digits(b.drop_first(), 0)
    } else {
        parse_digits(b, 0)
    }
}

fn parse_digits_from(b: &[u8], start: usize) -> (r: Result<u64, IntParseError>)
    requires
        start <= b@.len(),
    ensures
        r == parse_digits(b@.subrange(start as int, b@.len() as int), 0),
{
    let mut acc: u64 = 0;
    let mut i: usize = start;
    while i < b.len()
        invariant
            start <= i <= b@.len(),
            parse_digits(b@.subrange(start as int, b@.len() as int), 0)
                == parse_digits(b@.subrange(i as int, b@.len() as int), acc as nat),
        decreases b@.len() - i,
    {
        let c: u8 = b[i];
        let ghost rest = b@.subrange(i as int, b@.len() as int);
        assert(rest[0] == c);
        assert(rest.drop_first() =~= b@.subrange(i + 1, b@.len() as int));
        if c < 48 || c > 57 {
            return Err(IntParseError::InvalidDigit);
        }
        let v: u64 = (c - 48) as u64;
        if acc > (u64::MAX - v) / 10 {
            return Err(IntParseError::PosOverflow);
        }
        acc = acc * 10 + v;
        i = i + 1;
    }
    assert(b@.subrange(i as int, b@.len() as int) =~= Seq::<u8>::empty());
    Ok(acc)
}

/// Reads a `u64` from its decimal text as `str::parse::<u64>` does.
pub fn parse_u64_text(s: &str) -> (r: Result<u64, IntParseError>)
    ensures
        r == parse_u64(s.spec_bytes()),
{
    let b: &[u8] = s.as_bytes();
    if b.len() == 0 {
        return Err(IntParseError::Empty);
    }
    let first: u8 = b[0];
    if b.len() == 1 && (first == 43 || first == 45) {
        return Err(IntParseError::InvalidDigit);
    }
    if first == 43 {
        assert(b@.drop_first() =~= b@.subrange(1, b@.len() as int));
        parse_digits_from(b, 1)
    } else {
        assert(b@ =~= b@.subrange(0, b@.len() as int));
        parse_digits_from(b, 0)
    }
}

/// The bytes of a text of ASCII characters.
pub open spec fn ascii_bytes(chars: Seq<char>) -> Seq<u8> {
    Seq::new(chars.len(), |i: int| chars[i] as u8)
}

/// The number that a run of decimal digits denotes, read from the left onto `acc`.
pub open spec fn digits_value(d: Seq<u8>, acc: nat) -> nat
    decreases d.len(),
{
    if d.len() == 0 {
        acc
    } else {
        digits_value(d.drop_first(), acc * 10 + digit_value(d[0]))
    }
}

/// Whether every byte is an ASCII decimal digit.
pub open spec fn all_digit_bytes(d: Seq<u8>) -> bool {
    forall|i: int| 0 <= i < d.len() ==> is_digit_byte(#[trigger] d[i])
}

proof fn lemma_digits_value_grows(d: Seq<u8>, acc: nat)
    ensures
        digits_value(d, acc) >= acc,
    decreases d.len(),
{
    if d.len() > 0 {
        lemma_digits_value_grows(d.drop_first(), acc * 10 + digit_value(d[0]));
    }
}

proof fn lemma_parse_digits_value(d: Seq<u8>, acc: nat)
    requires
        all_digit_bytes(d),
        digits_value(d, acc) <= u64::MAX,
    ensures
        parse_digits(d, acc) == Ok::<u64, IntParseError>(digits_value(d, acc) as u64),
    decreases d.len(),
{
    if d.len() > 0 {
        let next = acc * 10 + digit_value(d[0]);
        assert(is_digit_byte(d[0]));
        lemma_digits_value_grows(d.drop_first(), next);
        assert(all_digit_bytes(d.drop_first())) by {
            assert forall|i: int| 0 <= i < d.drop_first().len() implies is_digit_byte(
                #[trigger] d.drop_first()[i],
            ) by {
                assert(d.drop_first()[i] == d[i + 1]);
            }
        }
        lemma_parse_digits_value(d.drop_first(), next);
    }
}

proof fn lemma_digits_value_push(d: Seq<u8>, b: u8, acc: nat)
    ensures
        digits_value(d.push(b), acc) == digits_value(d, acc) * 10 + digit_value(b),
    decreases d.len(),
{
    assert(d.push(b)[d.len() as int] == b);
    if d.len() == 0 {
        assert(d.push(b).drop_first() =~= Seq::<u8>::empty());
        assert(digits_value(Seq::<u8>::empty(), acc * 10 + digit_value(b)) == acc * 10 + digit_value(
            b,
        ));
    } else {
        assert(d.push(b)[0] == d[0]);
        assert(d.push(b).drop_first() =~= d.drop_first().push(b));
        lemma_digits_value_push(d.drop_first(), b, acc * 10 + digit_value(d[0]));
    }
}

/// The decimal text of `n` is a nonempty run of ASCII digits whose bytes
/// denote `n` again.
pub(crate) proof fn lemma_decimal_digits(n: nat)
    ensures
        decimal(n).len() >= 1,
        vstd::utf8::is_ascii_chars(decimal(n)),
        all_digit_bytes(ascii_bytes(decimal(n))),
        digits_value(ascii_bytes(decimal(n)), 0) == n,
    decreases n,
{
    assert(digit_char(n % 10) as u8 == 48 + n % 10);
    if n < 10 {
        assert(ascii_bytes(decimal(n)) =~= seq![(48 + n) as u8]);
        assert(seq![(48 + n) as u8].drop_first() =~= Seq::<u8>::empty());
        assert(digits_value(Seq::<u8>::empty(), digit_value((48 + n) as u8)) == n);
    } else {
        lemma_decimal_digits(n / 10);
        let c = digit_char(n % 10);
        assert(ascii_bytes(decimal(n)) =~= ascii_bytes(decimal(n / 10)).push(c as u8));
        lemma_digits_value_push(ascii_bytes(decimal(n / 10)), c as u8, 0);
        assert(all_digit_bytes(ascii_bytes(decimal(n)))) by {
            assert forall|i: int| 0 <= i < ascii_bytes(decimal(n)).len() implies is_digit_byte(
                #[trigger] ascii_bytes(decimal(n))[i],
            ) by {
                if i < ascii_bytes(decimal(n / 10)).len() {
                    assert(ascii_bytes(decimal(n))[i] == ascii_bytes(decimal(n / 10))[i]);
                }
            }
        }
    }
}

/// Reading back the decimal text of a `u64` gives the number: what a
/// checkpoint file holds after a write is parsed to the block number written.
pub proof fn lemma_decimal_round_trip(n: u64)
    ensures
        parse_u64(ascii_bytes(decimal(n as nat))) == Ok::<u64, IntParseError>(n),
{
    lemma_decimal_digits(n as nat);
    let b = ascii_bytes(decimal(n as nat));
    assert(is_digit_byte(b[0]));
    lemma_parse_digits_value(b, 0);
}

/// The decimal text has no leading zero: zero is `0`, any other number
/// starts with a nonzero digit, and every character is a digit.
pub proof fn lemma_decimal_shortest(n: nat)
    ensures
        n == 0 ==> decimal(n) == seq!['0'],
        n > 0 ==> decimal(n)[0] != '0',
        forall|i: int| 0 <= i < decimal(n).len() ==> '0' <= #[trigger] decimal(n)[i] <= '9',
    decreases n,
{
    assert(digit_char(n % 10) as u32 == 48 + n % 10);
    if n >= 10 {
        lemma_decimal_shortest(n / 10);
        assert(decimal(n / 10).len() >= 1) by {
            lemma_decimal_digits(n / 10);
        }
        assert(decimal(n)[0] == decimal(n / 10)[0]);
        assert forall|i: int| 0 <= i < decimal(n).len() implies '0' <= #[trigger] decimal(n)[i] <= '9' by {
            if i < decimal(n / 10).len() {
                assert(decimal(n)[i] == decimal(n / 10)[i]);
            }
        }
    } else {
        assert(decimal(n) =~= seq![digit_char(n)]);
    }
}

/// Two numbers with the same decimal text are equal.
pub proof fn lemma_decimal_injective(a: nat, b: nat)
    requires
        decimal(a) == decimal(b),
    ensures
        a == b,
{
    lemma_decimal_digits(a);
    lemma_decimal_digits(b);
}

/// The UTF-8 bytes of an ASCII text are its characters one by one.
pub(crate) proof fn lemma_ascii_text_bytes(s: &str)
    requires
        vstd::utf8::is_ascii_chars(s@),
    ensures
        s.spec_bytes() == ascii_bytes(s@),
{
    vstd::string::is_ascii_spec_bytes(s);
    assert(s.spec_bytes() =~= ascii_bytes(s@));
}

} // verus!
