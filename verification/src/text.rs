use vstd::prelude::*;

verus! {

/// Calls the `==` of string slices, `PartialEq::eq` of `str`. Taken on trust
/// from its documentation: the result is true exactly when both slices hold
/// the same sequence of characters.
#[verifier::external_body]
pub(crate) fn str_eq(a: &str, b: &str) -> (r: bool)
    ensures
        r == (a@ == b@),
{
    a == b
}

/// What has a text form.
pub trait Render {
    /// The text form, as a sequence of characters.
    spec fn spec_render(&self) -> Seq<char>;

    /// The text form.
    fn render(&self) -> (r: String)
        ensures
            r@ == self.spec_render(),
    ;
}

/// The character of a decimal digit.
pub open spec fn spec_digit(d: int) -> Seq<char> {
    if d == 0 {
        seq!['0']
    } else if d == 1 {
        seq!['1']
    } else if d == 2 {
        seq!['2']
    } else if d == 3 {
        seq!['3']
    } else if d == 4 {
        seq!['4']
    } else if d == 5 {
        seq!['5']
    } else if d == 6 {
        seq!['6']
    } else if d == 7 {
        seq!['7']
    } else if d == 8 {
        seq!['8']
    } else {
        seq!['9']
    }
}

/// A number in decimal digits, without leading zeros.
pub open spec fn spec_decimal(n: nat) -> Seq<char>
    decreases n,
{
    if n < 10 {
        spec_digit(n as int)
    } else {
        spec_decimal(n / 10) + spec_digit((n % 10) as int)
    }
}

/// A number in decimal digits, with a leading zero if it is below 10.
pub open spec fn spec_pad2(n: nat) -> Seq<char> {
    if n < 10 {
        seq!['0'] + spec_digit(n as int)
    } else {
        spec_decimal(n)
    }
}

/// The text of one decimal digit.
fn digit_str(d: u8) -> (r: &'static str)
    requires
        d < 10,
    ensures
        r@ == spec_digit(d as int),
{
    proof {
        reveal_strlit("0");
        reveal_strlit("1");
        reveal_strlit("2");
        reveal_strlit("3");
        reveal_strlit("4");
        reveal_strlit("5");
        reveal_strlit("6");
        reveal_strlit("7");
        reveal_strlit("8");
        reveal_strlit("9");
    }
    let r = match d {
        0 => "0",
        1 => "1",
        2 => "2",
        3 => "3",
        4 => "4",
        5 => "5",
        6 => "6",
        7 => "7",
        8 => "8",
        _ => "9",
    };
    assert(r@ =~= spec_digit(d as int));
    r
}

/// Writes a number in decimal digits.
pub fn decimal(n: u16) -> (r: String)
    ensures
        r@ == spec_decimal(n as nat),
    decreases n,
{
    if n < 10 {
        String::from_str(digit_str(n as u8))
    } else {
        let mut r = decimal(n / 10);
        r.append(digit_str((n % 10) as u8));
        r
    }
}

/// Writes a number in decimal digits, with a leading zero if it is below 10.
pub fn pad2(n: u8) -> (r: String)
    ensures
        r@ == spec_pad2(n as nat),
{
    if n < 10 {
        proof {
            reveal_strlit("0");
        }
        let mut r = String::from_str("0");
        assert(r@ =~= seq!['0']);
        r.append(digit_str(n));
        r
    } else {
        decimal(n as u16)
    }
}

/// The value of a text of decimal digits, if every character is one.
pub open spec fn spec_digits_value(s: Seq<char>) -> Option<nat>
    decreases s.len(),
{
    if s.len() == 0 {
        Some(0)
    } else {
        let last = s.last();
        match spec_digits_value(s.drop_last()) {
            Some(v) => if '0' <= last <= '9' {
                Some((v * 10 + (last as u32 - '0' as u32)) as nat)
            } else {
                None
            },
            None => None,
        }
    }
}

/// A text without the `+` that it may start with.
pub open spec fn spec_unsigned_part(s: Seq<char>) -> Seq<char> {
    if s.len() > 0 && s[0] == '+' {
        s.subrange(1, s.len() as int)
    } else {
        s
    }
}

/// The number that a text stands for: one or more decimal digits, after a
/// `+` or without one, with a value of 65535 at most.
pub open spec fn spec_parse_u16(s: Seq<char>) -> Option<u16> {
    let digits = spec_unsigned_part(s);
    if digits.len() == 0 {
        None
    } else {
        match spec_digits_value(digits) {
            Some(v) => if v <= 65535 {
                Some(v as u16)
            } else {
                None
            },
            None => None,
        }
    }
}

/// Reads a number of 16 bits from its decimal digits.
pub fn parse_u16(s: &str) -> (r: Option<u16>)
    ensures
        r == spec_parse_u16(s@),
{
    let len = s.unicode_len();
    let start: usize = if len > 0 && s.get_char(0) == '+' {
        1
    } else {
        0
    };
    if start == len {
        return None;
    }
    let ghost digits = spec_unsigned_part(s@);
    let mut value: u32 = 0;
    let mut i: usize = start;
    assert(digits =~= s@.subrange(start as int, len as int));
    while i < len
        invariant
            start <= i <= len,
            start < len,
            len == s@.len(),
            digits == spec_unsigned_part(s@),
            digits == s@.subrange(start as int, len as int),
            spec_digits_value(digits.subrange(0, i - start)) == Some(value as nat),
            value <= 65535,
        decreases len - i,
    {
        let c = s.get_char(i);
        let ghost prefix = digits.subrange(0, i + 1 - start);
        proof {
            assert(prefix.drop_last() =~= digits.subrange(0, i - start));
            assert(prefix.last() == c);
        }
        if c < '0' || c > '9' {
            proof {
                lemma_digits_fail_on(digits, i + 1 - start);
            }
            return None;
        }
        let d = c as u32 - '0' as u32;
        value = value * 10 + d;
        if value > 65535 {
            proof {
                lemma_digits_grow(digits, i + 1 - start);
            }
            return None;
        }
        i += 1;
    }
    assert(digits.subrange(0, len - start) =~= digits);
    Some(value as u16)
}

/// Where a part of a text from its start is no number, the whole text is
/// none.
pub proof fn lemma_digits_fail_on(s: Seq<char>, n: int)
    requires
        0 <= n <= s.len(),
        spec_digits_value(s.subrange(0, n)) is None,
    ensures
        spec_digits_value(s) is None,
    decreases s.len() - n,
{
    if n < s.len() {
        assert(s.subrange(0, n + 1).drop_last() =~= s.subrange(0, n));
        lemma_digits_fail_on(s, n + 1);
    } else {
        assert(s.subrange(0, n) =~= s);
    }
}

/// The value of a text of digits is at least that of each part of it from
/// its start.
pub proof fn lemma_digits_grow(s: Seq<char>, n: int)
    requires
        0 <= n <= s.len(),
    ensures
        spec_digits_value(s) matches Some(v) ==> spec_digits_value(s.subrange(0, n)) matches Some(
            w,
        ) && w <= v,
    decreases s.len() - n,
{
    if n < s.len() {
        assert(s.subrange(0, n + 1).drop_last() =~= s.subrange(0, n));
        lemma_digits_grow(s, n + 1);
    } else {
        assert(s.subrange(0, n) =~= s);
    }
}

} // verus!
