//! Decimal numbers as text: reading them and writing them.

use vstd::prelude::*;
use vstd::string::*;

verus! {

/// Whether `c` is one of the ten decimal digits.
pub open spec fn is_digit(c: char) -> bool {
    '0' <= c <= '9'
}

/// The value of a decimal digit.
pub open spec fn digit_value(c: char) -> nat {
    (c as u32 - '0' as u32) as nat
}

/// The character of a value below ten.
pub open spec fn digit_char(d: nat) -> char {
    (d + '0' as u32) as u8 as char
}

/// Whether `s` holds decimal digits only.
pub open spec fn all_digits(s: Seq<char>) -> bool {
    forall|i: int| 0 <= i < s.len() ==> is_digit(#[trigger] s[i])
}

/// The number that a sequence of decimal digits writes, leading zeros
/// allowed. Zero for the empty sequence.
pub open spec fn digits_value(s: Seq<char>) -> nat
    decreases s.len(),
{
    if s.len() == 0 {
        0
    } else {
        digits_value(s.drop_last()) * 10 + digit_value(s.last())
    }
}

/// What an unsigned 32-bit number reads `s` as: an optional plus sign,
/// then at least one digit and nothing else, the value within range.
pub open spec fn u32_of_text(s: Seq<char>) -> Option<u32> {
    let digits = if s.len() > 0 && s[0] == '+' {
        s.skip(1)
    } else {
        s
    };
    if digits.len() > 0 && all_digits(digits) && digits_value(digits) <= u32::MAX {
        Some(digits_value(digits) as u32)
    } else {
        None
    }
}

/// What a signed 32-bit number reads `s` as: an optional plus or minus
/// sign, then at least one digit and nothing else, the value within
/// range.
pub open spec fn i32_of_text(s: Seq<char>) -> Option<i32> {
    let negative = s.len() > 0 && s[0] == '-';
    let digits = if s.len() > 0 && (s[0] == '+' || s[0] == '-') {
        s.skip(1)
    } else {
        s
    };
    if digits.len() > 0 && all_digits(digits) {
        if negative {
            if digits_value(digits) <= 0x8000_0000 {
                Some((-(digits_value(digits) as int)) as i32)
            } else {
                None
            }
        } else {
            if digits_value(digits) <= i32::MAX {
                Some(digits_value(digits) as i32)
            } else {
                None
            }
        }
    } else {
        None
    }
}

/// A longer sequence of digits writes a number that is no smaller than
/// what any of its prefixes writes.
pub proof fn lemma_digits_value_grows(s: Seq<char>, k: int)
    requires
        0 <= k <= s.len(),
    ensures
        digits_value(s.take(k)) <= digits_value(s),
    decreases s.len(),
{
    if k == s.len() {
        assert(s.take(k) =~= s);
    } else {
        lemma_digits_value_grows(s.drop_last(), k);
        assert(s.drop_last().take(k) =~= s.take(k));
    }
}

/// The value of the digits `chars[from..to]`, where they are digits and
/// the value is at most `limit`.
fn read_digits(chars: &Vec<char>, from: usize, to: usize, limit: u64) -> (r: Option<u64>)
    requires
        from <= to <= chars.len(),
        limit <= 0x1_0000_0000,
    ensures
        r is Some <==> all_digits(chars@.subrange(from as int, to as int)) && digits_value(
            chars@.subrange(from as int, to as int),
        ) <= limit,
        r matches Some(v) ==> v == digits_value(chars@.subrange(from as int, to as int)),
{
    let ghost all = chars@.subrange(from as int, to as int);
    let mut value: u64 = 0;
    let mut i: usize = from;
    assert(chars@.subrange(from as int, from as int) =~= Seq::<char>::empty());
    while i < to
        invariant
            from <= i <= to <= chars.len(),
            limit <= 0x1_0000_0000,
            all == chars@.subrange(from as int, to as int),
            all_digits(chars@.subrange(from as int, i as int)),
            value == digits_value(chars@.subrange(from as int, i as int)),
            value <= limit,
        decreases to - i,
    {
        let c = chars[i];
        if c < '0' || c > '9' {
            assert(all[i - from] == c);
            return None;
        }
        let d: u64 = (c as u32 - '0' as u32) as u64;
        let next: u64 = value * 10 + d;
        proof {
            let upto = chars@.subrange(from as int, i + 1);
            assert(upto.drop_last() =~= chars@.subrange(from as int, i as int));
            assert(upto.last() == c);
            assert(next == digits_value(upto));
            assert(all.take(i + 1 - from) =~= upto);
            lemma_digits_value_grows(all, i + 1 - from);
        }
        if next > limit {
            return None;
        }
        value = next;
        i += 1;
    }
    assert(chars@.subrange(from as int, i as int) =~= all);
    Some(value)
}

/// Reads an unsigned 32-bit number.
pub fn parse_u32(chars: &Vec<char>) -> (r: Option<u32>)
    ensures
        r == u32_of_text(chars@),
{
    let from: usize = if chars.len() > 0 && chars[0] == '+' {
        1
    } else {
        0
    };
    proof {
        if from == 1 {
            assert(chars@.skip(1) =~= chars@.subrange(1, chars.len() as int));
        } else {
            assert(chars@ =~= chars@.subrange(0, chars.len() as int));
        }
    }
    if from == chars.len() {
        return None;
    }
    match read_digits(chars, from, chars.len(), 0xffff_ffff) {
        Some(v) => Some(v as u32),
        None => None,
    }
}

/// Reads a signed 32-bit number.
pub fn parse_i32(chars: &Vec<char>) -> (r: Option<i32>)
    ensures
        r == i32_of_text(chars@),
{
    let negative = chars.len() > 0 && chars[0] == '-';
    let from: usize = if chars.len() > 0 && (chars[0] == '+' || chars[0] == '-') {
        1
    } else {
        0
    };
    proof {
        if from == 1 {
            assert(chars@.skip(1) =~= chars@.subrange(1, chars.len() as int));
        } else {
            assert(chars@ =~= chars@.subrange(0, chars.len() as int));
        }
    }
    if from == chars.len() {
        return None;
    }
    if negative {
        match read_digits(chars, from, chars.len(), 0x8000_0000) {
            Some(v) => Some((-(v as i64)) as i32),
            None => None,
        }
    } else {
        match read_digits(chars, from, chars.len(), 0x7fff_ffff) {
            Some(v) => Some(v as i32),
            None => None,
        }
    }
}

/// The decimal digits of `n`, without leading zeros; `0` for zero.
pub open spec fn decimal(n: nat) -> Seq<char>
    decreases n,
{
    if n < 10 {
        seq![digit_char(n)]
    } else {
        decimal(n / 10).push(digit_char(n % 10))
    }
}

/// The decimal digits of `n`, with a zero in front where there would be
/// one digit only.
pub open spec fn decimal2(n: nat) -> Seq<char> {
    if n < 10 {
        seq!['0'] + decimal(n)
    } else {
        decimal(n)
    }
}

/// A signed number as text: a minus sign before the digits of a negative
/// number.
pub open spec fn signed_decimal(n: int) -> Seq<char> {
    if n < 0 {
        seq!['-'] + decimal((-n) as nat)
    } else {
        decimal(n as nat)
    }
}

/// What is written in decimal reads back as the same number: the
/// digits of `n` are digits, at least one, and their value is `n`.
pub proof fn lemma_decimal_reads_back(n: nat)
    ensures
        decimal(n).len() >= 1,
        all_digits(decimal(n)),
        digits_value(decimal(n)) == n,
    decreases n,
{
    if n < 10 {
        let s = decimal(n);
        assert(s.drop_last() =~= Seq::<char>::empty());
        assert(digits_value(s.drop_last()) == 0);
        assert(s.last() == digit_char(n));
    } else {
        lemma_decimal_reads_back(n / 10);
        let s = decimal(n);
        assert(s.drop_last() =~= decimal(n / 10));
        assert(s.last() == digit_char(n % 10));
        assert forall|i: int| 0 <= i < s.len() implies is_digit(#[trigger] s[i]) by {
            if i < s.len() - 1 {
                assert(s[i] == decimal(n / 10)[i]);
            }
        }
    }
}

/// A number written in decimal, plain or two digits wide, reads back as
/// itself.
pub proof fn lemma_u32_reads_back(n: u32)
    ensures
        u32_of_text(decimal(n as nat)) == Some(n),
        u32_of_text(decimal2(n as nat)) == Some(n),
        !decimal(n as nat).contains(':'),
        !decimal2(n as nat).contains(':'),
{
    lemma_decimal_reads_back(n as nat);
    let plain = decimal(n as nat);
    assert(is_digit(plain[0]));
    assert(!plain.contains(':')) by {
        if plain.contains(':') {
            let i = choose|i: int| 0 <= i < plain.len() && plain[i] == ':';
            assert(is_digit(plain[i]));
        }
    }
    if n < 10 {
        let wide = decimal2(n as nat);
        assert(wide =~= seq!['0', plain[0]]);
        assert(wide.drop_last() =~= seq!['0']);
        assert(seq!['0'].drop_last() =~= Seq::<char>::empty());
        assert(digits_value(seq!['0']) == 0) by {
            assert(digits_value(seq!['0'].drop_last()) == 0);
        }
        assert(digits_value(wide) == n);
        assert(!wide.contains(':')) by {
            if wide.contains(':') {
                let i = choose|i: int| 0 <= i < wide.len() && wide[i] == ':';
                assert(i == 0 || i == 1);
            }
        }
    }
}

/// Appends the decimal digits of `n` to `out`.
fn push_decimal(out: &mut String, n: u64)
    ensures
        final(out)@ == old(out)@ + decimal(n as nat),
    decreases n,
{
    if n >= 10 {
        push_decimal(out, n / 10);
    }
    let d: u8 = (n % 10) as u8;
    out.push((d + 48) as char);
    proof {
        assert('0' as u32 == 48);
        if n < 10 {
            assert(out@ =~= old(out)@ + decimal(n as nat));
        } else {
            assert(out@ =~= old(out)@ + decimal(n as nat));
        }
    }
}

/// `n` in decimal.
pub fn u32_to_text(n: u32) -> (s: String)
    ensures
        s@ == decimal(n as nat),
{
    let mut s = String::new();
    push_decimal(&mut s, n as u64);
    assert(s@ =~= decimal(n as nat));
    s
}

/// `n` in decimal, at least two digits wide.
pub fn u32_to_text2(n: u32) -> (s: String)
    ensures
        s@ == decimal2(n as nat),
{
    let mut s = String::new();
    if n < 10 {
        s.push('0');
    }
    push_decimal(&mut s, n as u64);
    assert(s@ =~= decimal2(n as nat));
    s
}

/// `n` in decimal, with a minus sign where it is negative.
pub fn i32_to_text(n: i32) -> (s: String)
    ensures
        s@ == signed_decimal(n as int),
{
    let mut s = String::new();
    if n < 0 {
        s.push('-');
        push_decimal(&mut s, (-(n as i64)) as u64);
    } else {
        push_decimal(&mut s, n as u64);
    }
    assert(s@ =~= signed_decimal(n as int));
    s
}

} // verus!
