//! Monetary amounts written as decimal numerals with optional thousands
//! separators.

use vstd::prelude::*;

verus! {

/// An exact decimal amount: `mantissa / 10^scale`.
#[derive(Clone, Copy, Debug, PartialEq, Eq, Structural)]
pub struct Amount {
    pub mantissa: u64,
    pub scale: usize,
}

/// What has been read of a numeral so far.
pub struct Scan {
    pub ok: bool,
    pub seen_dot: bool,
    pub digits: int,
    pub mantissa: int,
    pub scale: int,
}

pub open spec fn is_digit(c: char) -> bool {
    '0' <= c <= '9'
}

pub open spec fn digit_value(c: char) -> int {
    c as int - '0' as int
}

/// Reads `t` from left to right: thousands separators `,` are skipped, digits
/// accumulate into the mantissa, at most one `.` starts the fraction, and
/// any other character makes the numeral malformed.
pub open spec fn scan(t: Seq<char>) -> Scan
    decreases t.len(),
{
    if t.len() == 0 {
        Scan { ok: true, seen_dot: false, digits: 0, mantissa: 0, scale: 0 }
    } else {
        let p = scan(t.drop_last());
        let c = t.last();
        if c == ',' {
            p
        } else if is_digit(c) {
            Scan {
                digits: p.digits + 1,
                mantissa: p.mantissa * 10 + digit_value(c),
                scale: if p.seen_dot { p.scale + 1 } else { p.scale },
                ..p
            }
        } else if c == '.' {
            Scan { ok: p.ok && !p.seen_dot, seen_dot: true, ..p }
        } else {
            Scan { ok: false, ..p }
        }
    }
}

/// The amount that `t` spells once its commas are removed: digits with at
/// most one decimal point, at least one digit, and a mantissa that fits in
/// 64 bits.
pub open spec fn amount_of(t: Seq<char>) -> Option<Amount> {
    let s = scan(t);
    if s.ok && s.digits > 0 && s.mantissa <= u64::MAX {
        Some(Amount { mantissa: s.mantissa as u64, scale: s.scale as usize })
    } else {
        None
    }
}

proof fn lemma_scan_bounds(t: Seq<char>)
    ensures
        0 <= scan(t).mantissa,
        0 <= scan(t).scale <= scan(t).digits <= t.len(),
    decreases t.len(),
{
    if t.len() > 0 {
        lemma_scan_bounds(t.drop_last());
    }
}

/// Parses an amount such as `1,234.56`, ignoring thousands separators.
pub fn parse_amount(text: &str) -> (r: Option<Amount>)
    ensures
        r == amount_of(text@),
{
    let n = text.unicode_len();
    let mut ok = true;
    let mut seen_dot = false;
    let mut digits: usize = 0;
    let mut mantissa: u64 = 0;
    let mut too_large = false;
    let mut scale: usize = 0;
    let mut i: usize = 0;
    while i < n
        invariant
            n == text@.len(),
            i <= n,
            ok == scan(text@.take(i as int)).ok,
            seen_dot == scan(text@.take(i as int)).seen_dot,
            digits == scan(text@.take(i as int)).digits,
            scale == scan(text@.take(i as int)).scale,
            !too_large ==> mantissa == scan(text@.take(i as int)).mantissa,
            too_large ==> scan(text@.take(i as int)).mantissa > u64::MAX,
        decreases n - i,
    {
        let c = text.get_char(i);
        proof {
            assert(text@.take(i + 1).drop_last() =~= text@.take(i as int));
            lemma_scan_bounds(text@.take(i as int));
        }
        if c == ',' {
        } else if '0' <= c && c <= '9' {
            digits = digits + 1;
            if seen_dot {
                scale = scale + 1;
            }
            let d = (c as u32 - '0' as u32) as u64;
            if !too_large {
                match mantissa.checked_mul(10) {
                    Some(m) => match m.checked_add(d) {
                        Some(m2) => {
                            mantissa = m2;
                        },
                        None => {
                            too_large = true;
                        },
                    },
                    None => {
                        too_large = true;
                    },
                }
            }
        } else if c == '.' {
            ok = ok && !seen_dot;
            seen_dot = true;
        } else {
            ok = false;
        }
        i = i + 1;
    }
    assert(text@.take(n as int) =~= text@);
    if ok && digits > 0 && !too_large {
        Some(Amount { mantissa, scale })
    } else {
        None
    }
}

} // verus!
