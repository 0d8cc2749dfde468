//! Decimal text: parsing a round count from a command-line argument and
//! formatting counters for the screen.

use vstd::prelude::*;

verus! {

/// Value of a single decimal digit, or -1 for any other character.
pub open spec fn digit_value(c: char) -> int {
    match c {
        '0' => 0,
        '1' => 1,
        '2' => 2,
        '3' => 3,
        '4' => 4,
        '5' => 5,
        '6' => 6,
        '7' => 7,
        '8' => 8,
        '9' => 9,
        _ => -1,
    }
}

pub open spec fn is_dec_digit(c: char) -> bool {
    digit_value(c) >= 0
}

pub open spec fn all_dec_digits(s: Seq<char>) -> bool {
    forall|i: int| 0 <= i < s.len() ==> is_dec_digit(#[trigger] s[i])
}

/// The number denoted by a sequence of decimal digits, most significant first.
pub open spec fn dec_value(s: Seq<char>) -> int
    decreases s.len(),
{
    if s.len() == 0 {
        0
    } else {
        dec_value(s.drop_last()) * 10 + digit_value(s.last())
    }
}

/// The digit part of an unsigned numeral: one leading '+' is allowed, as the
/// standard unsigned parsers allow it.
pub open spec fn digits_of(s: Seq<char>) -> Seq<char> {
    if s.len() > 0 && s[0] == '+' { s.drop_first() } else { s }
}

/// Whether a string is a valid `u32` numeral.
pub open spec fn u32_parses(s: Seq<char>) -> bool {
    let d = digits_of(s);
    d.len() > 0 && all_dec_digits(d) && dec_value(d) <= u32::MAX
}

/// The number a valid `u32` numeral denotes.
pub open spec fn u32_value(s: Seq<char>) -> int {
    dec_value(digits_of(s))
}

proof fn lemma_dec_value_nonneg(s: Seq<char>)
    requires
        all_dec_digits(s),
    ensures
        dec_value(s) >= 0,
    decreases s.len(),
{
    if s.len() > 0 {
        assert(all_dec_digits(s.drop_last()));
        lemma_dec_value_nonneg(s.drop_last());
    }
}

/// A prefix of a digit string never denotes more than the whole string.
proof fn lemma_dec_value_prefix_le(s: Seq<char>, k: int)
    requires
        all_dec_digits(s),
        0 <= k <= s.len(),
    ensures
        dec_value(s.take(k)) <= dec_value(s),
    decreases s.len(),
{
    if k < s.len() {
        assert(s.take(k) =~= s.drop_last().take(k));
        assert(all_dec_digits(s.drop_last()));
        lemma_dec_value_prefix_le(s.drop_last(), k);
        lemma_dec_value_nonneg(s.drop_last());
        assert(digit_value(s.last()) >= 0);
    } else {
        assert(s.take(k) =~= s);
    }
}

fn digit_of_char(c: char) -> (r: Option<u32>)
    ensures
        r is Some <==> is_dec_digit(c),
        r matches Some(v) ==> v == digit_value(c),
{
    match c {
        '0' => Some(0),
        '1' => Some(1),
        '2' => Some(2),
        '3' => Some(3),
        '4' => Some(4),
        '5' => Some(5),
        '6' => Some(6),
        '7' => Some(7),
        '8' => Some(8),
        '9' => Some(9),
        _ => None,
    }
}

/// Parses an unsigned decimal numeral (one leading '+' allowed) into a `u32`.
/// Returns `None` exactly on the empty digit string, a non-digit character,
/// or a value above `u32::MAX`.
pub fn parse_u32(s: &str) -> (r: Option<u32>)
    ensures
        r is Some <==> u32_parses(s@),
        r matches Some(v) ==> v == u32_value(s@),
{
    let n: usize = s.unicode_len();
    let mut i: usize = 0;
    if n > 0 && s.get_char(0) == '+' {
        i = 1;
    }
    let ghost d = digits_of(s@);
    proof {
        assert(d =~= s@.skip(i as int));
    }
    if i >= n {
        return None;
    }
    let mut acc: u32 = 0;
    let mut j: usize = i;
    while j < n
        invariant
            i <= j <= n,
            i < n,
            n == s@.len(),
            d == digits_of(s@),
            d =~= s@.skip(i as int),
            all_dec_digits(d.take(j - i)),
            acc == dec_value(d.take(j - i)),
        decreases n - j,
    {
        let c = s.get_char(j);
        assert(c == d[j - i]);
        let dv: u32;
        match digit_of_char(c) {
            Some(v) => {
                dv = v;
            },
            Option::None => {
                proof {
                    assert(!is_dec_digit(d[j - i]));
                }
                return None;
            },
        }
        let wide: u64 = (acc as u64) * 10 + (dv as u64);
        proof {
            assert(d.take(j - i + 1).drop_last() =~= d.take(j - i));
            assert(d.take(j - i + 1).last() == d[j - i]);
            assert(dec_value(d.take(j - i + 1)) == wide);
            assert forall|x: int| 0 <= x < j - i + 1 implies is_dec_digit(#[trigger] d.take(j - i + 1)[x]) by {
                if x < j - i {
                    assert(d.take(j - i + 1)[x] == d.take(j - i)[x]);
                }
            }
        }
        if wide > 0xFFFF_FFFFu64 {
            proof {
                if u32_parses(s@) {
                    lemma_dec_value_prefix_le(d, j - i + 1);
                }
            }
            return None;
        }
        acc = wide as u32;
        j += 1;
    }
    proof {
        assert(d.take(n - i) =~= d);
    }
    Some(acc)
}

pub open spec fn dec_digit_char(d: int) -> char {
    if d == 0 {
        '0'
    } else if d == 1 {
        '1'
    } else if d == 2 {
        '2'
    } else if d == 3 {
        '3'
    } else if d == 4 {
        '4'
    } else if d == 5 {
        '5'
    } else if d == 6 {
        '6'
    } else if d == 7 {
        '7'
    } else if d == 8 {
        '8'
    } else {
        '9'
    }
}

/// Decimal text of `n`, most significant digit first, without leading zeros
/// (zero itself is the single digit '0').
pub open spec fn dec_digits(n: nat) -> Seq<char>
    decreases n,
{
    if n < 10 {
        seq![dec_digit_char(n as int)]
    } else {
        dec_digits(n / 10).push(dec_digit_char((n % 10) as int))
    }
}

fn dec_digit_char_exec(d: u64) -> (c: char)
    requires
        d < 10,
    ensures
        c == dec_digit_char(d as int),
{
    if d == 0 {
        '0'
    } else if d == 1 {
        '1'
    } else if d == 2 {
        '2'
    } else if d == 3 {
        '3'
    } else if d == 4 {
        '4'
    } else if d == 5 {
        '5'
    } else if d == 6 {
        '6'
    } else if d == 7 {
        '7'
    } else if d == 8 {
        '8'
    } else {
        '9'
    }
}

/// Formats `n` in decimal.
pub fn u64_to_decimal(n: u64) -> (s: String)
    ensures
        s@ == dec_digits(n as nat),
    decreases n,
{
    if n < 10 {
        let mut s = String::new();
        s.push(dec_digit_char_exec(n));
        proof {
            assert(s@ =~= dec_digits(n as nat));
        }
        s
    } else {
        let mut s = u64_to_decimal(n / 10);
        s.push(dec_digit_char_exec(n % 10));
        proof {
            assert(s@ =~= dec_digits(n as nat));
        }
        s
    }
}

} // verus!
