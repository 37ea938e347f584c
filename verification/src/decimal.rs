//! Decimal digit strings: reading (`u16::from_str` on digit strings) and
//! writing (`Display` for unsigned integers).
use vstd::prelude::*;
use crate::chars::is_ascii_digit;

verus! {

pub open spec fn digit_value(c: char) -> nat {
    ((c as u32) - ('0' as u32)) as nat
}

pub open spec fn digit_char(d: nat) -> char {
    (('0' as u32) + d) as char
}

/// Every character is an ASCII digit.
pub open spec fn all_digits(s: Seq<char>) -> bool {
    forall|i: int| 0 <= i < s.len() ==> is_ascii_digit(#[trigger] s[i])
}

/// The number a digit string denotes (leading zeros allowed).
pub open spec fn dec_value(s: Seq<char>) -> nat
    decreases s.len(),
{
    if s.len() == 0 {
        0
    } else {
        dec_value(s.drop_last()) * 10 + digit_value(s.last())
    }
}

/// The shortest decimal representation of `n`.
pub open spec fn dec_string(n: nat) -> Seq<char>
    decreases n,
{
    if n < 10 {
        seq![digit_char(n)]
    } else {
        dec_string(n / 10).push(digit_char(n % 10))
    }
}

/// `u16::from_str` on a string of ASCII digits: the value, when it fits.
pub open spec fn parse_u16_digits(s: Seq<char>) -> Option<u16> {
    if s.len() > 0 && all_digits(s) && dec_value(s) <= 65535 {
        Some(dec_value(s) as u16)
    } else {
        None
    }
}

proof fn lemma_dec_value_grows(s: Seq<char>, t: Seq<char>)
    requires
        all_digits(s + t),
    ensures
        dec_value(s + t) >= dec_value(s),
    decreases t.len(),
{
    if t.len() > 0 {
        assert((s + t).drop_last() =~= s + t.drop_last());
        lemma_dec_value_grows(s, t.drop_last());
    } else {
        assert(s + t =~= s);
    }
}

/// Read a string of ASCII digits as a `u16` (`u16::from_str`): `None`
/// when it is empty, holds a non-digit, or exceeds `u16::MAX`.
pub fn parse_u16(s: &[char]) -> (r: Option<u16>)
    ensures
        r == parse_u16_digits(s@),
{
    if s.len() == 0 {
        return None;
    }
    let mut acc: u32 = 0;
    let mut i: usize = 0;
    while i < s.len()
        invariant
            i <= s@.len(),
            all_digits(s@.take(i as int)),
            acc == dec_value(s@.take(i as int)),
            acc <= 65535,
        decreases s@.len() - i,
    {
        let c = s[i];
        proof {
            assert(s@.take(i + 1).drop_last() =~= s@.take(i as int));
        }
        if !('0' <= c && c <= '9') {
            assert(!all_digits(s@));
            return None;
        }
        let d = (c as u32) - ('0' as u32);
        let next = acc * 10 + d;
        assert(all_digits(s@.take(i + 1)));
        if next > 65535 {
            proof {
                if all_digits(s@) {
                    assert(s@ =~= s@.take(i + 1) + s@.skip(i + 1));
                    lemma_dec_value_grows(s@.take(i + 1), s@.skip(i + 1));
                }
            }
            return None;
        }
        acc = next;
        i += 1;
    }
    assert(s@.take(s@.len() as int) =~= s@);
    Some(acc as u16)
}

/// `u16::from_str`: an optional `+`, then one or more ASCII digits whose
/// value fits.
pub open spec fn parse_u16_text(s: Seq<char>) -> Option<u16> {
    if s.len() > 0 && s[0] == '+' {
        parse_u16_digits(s.skip(1))
    } else {
        parse_u16_digits(s)
    }
}

/// `u16::from_str` on a character slice.
pub fn parse_u16_str(s: &[char]) -> (r: Option<u16>)
    ensures
        r == parse_u16_text(s@),
{
    if s.len() > 0 && s[0] == '+' {
        let rest = crate::chars::copy_range(s, 1, s.len());
        assert(rest@ =~= s@.skip(1));
        parse_u16(rest.as_slice())
    } else {
        parse_u16(s)
    }
}

/// The decimal digits of `n` (what `Display` writes for an unsigned integer).
pub fn dec_chars(n: u64) -> (r: Vec<char>)
    ensures
        r@ == dec_string(n as nat),
    decreases n,
{
    if n < 10 {
        let c = ((n as u8) + 48) as char;
        let mut v: Vec<char> = Vec::new();
        v.push(c);
        assert(v@ =~= seq![digit_char(n as nat)]);
        v
    } else {
        let mut v = dec_chars(n / 10);
        let c = (((n % 10) as u8) + 48) as char;
        v.push(c);
        v
    }
}

/// Reading back what was written gives the number.
pub proof fn lemma_dec_round_trip(n: nat)
    ensures
        all_digits(dec_string(n)),
        dec_string(n).len() > 0,
        dec_value(dec_string(n)) == n,
    decreases n,
{
    assert(digit_value(digit_char(n % 10)) == n % 10);
    if n >= 10 {
        lemma_dec_round_trip(n / 10);
        let s = dec_string(n);
        assert(s.drop_last() =~= dec_string(n / 10));
        assert forall|i: int| 0 <= i < s.len() implies is_ascii_digit(#[trigger] s[i]) by {
            if i < s.len() - 1 {
                assert(s[i] == dec_string(n / 10)[i]);
            }
        }
        assert(s.last() == digit_char(n % 10));
        assert(dec_value(s) == dec_value(s.drop_last()) * 10 + digit_value(s.last()));
        assert((n / 10) * 10 + n % 10 == n);
    } else {
        let s = dec_string(n);
        assert(s.drop_last() =~= Seq::<char>::empty());
        assert(dec_value(s) == dec_value(s.drop_last()) * 10 + digit_value(s.last()));
    }
}

} // verus!
