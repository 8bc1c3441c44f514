//! Stoichiometric coefficients, read from decimal text.
use vstd::prelude::*;
use vstd::string::StrSliceExecFns;

verus! {

/// A non-negative decimal number, `mantissa / 10^scale`, kept as written:
/// `2` and `2.0` are read as `(2, 0)` and `(20, 1)`.
#[derive(Clone, Copy, Debug, PartialEq, Eq, Structural)]
pub struct Stoichiometry {
    pub mantissa: u64,
    pub scale: usize,
}

pub open spec fn is_digit(c: char) -> bool {
    '0' <= c && c <= '9'
}

pub open spec fn digit_value(c: char) -> nat {
    (c as int - '0' as int) as nat
}

/// Reads decimal text from the left: digits with at most one point. The
/// state is the mantissa so far, the digits after the point, whether the
/// point was seen, and the number of digits. `None` on any other character,
/// a second point, or a mantissa beyond 64 bits.
pub open spec fn scan_decimal(s: Seq<char>) -> Option<(nat, nat, bool, nat)>
    decreases s.len(),
{
    if s.len() == 0 {
        Some((0, 0, false, 0))
    } else {
        match scan_decimal(s.drop_last()) {
            None => None,
            Some((m, sc, dot, n)) => {
                let c = s.last();
                if is_digit(c) {
                    if m * 10 + digit_value(c) > u64::MAX {
                        None
                    } else {
                        Some((m * 10 + digit_value(c), if dot { sc + 1 } else { sc }, dot, n + 1))
                    }
                } else if c == '.' && !dot {
                    Some((m, sc, true, n))
                } else {
                    None
                }
            },
        }
    }
}

/// The coefficient that decimal text denotes: at least one digit, at most
/// one point, no sign or exponent, a mantissa that fits in 64 bits.
pub open spec fn stoichiometry_of(s: Seq<char>) -> Option<Stoichiometry> {
    match scan_decimal(s) {
        Some((m, sc, _, n)) => if n > 0 && sc <= usize::MAX {
            Some(Stoichiometry { mantissa: m as u64, scale: sc as usize })
        } else {
            None
        },
        None => None,
    }
}

pub open spec fn pow10(n: nat) -> nat
    decreases n,
{
    if n == 0 {
        1
    } else {
        10 * pow10((n - 1) as nat)
    }
}

impl Stoichiometry {
    /// Whether the coefficient is exactly one, however it was written.
    pub fn is_one(&self) -> (r: bool)
        ensures
            r == (self.mantissa as nat == pow10(self.scale as nat)),
    {
        let mut m = self.mantissa;
        let mut k = self.scale;
        while k > 0
            invariant
                (self.mantissa as nat == pow10(self.scale as nat)) == (m as nat == pow10(k as nat)),
            decreases k,
        {
            let ghost p = pow10((k - 1) as nat);
            assert(pow10(k as nat) == 10 * p);
            if m % 10 != 0 {
                assert(m as nat != 10 * p) by (nonlinear_arith)
                    requires
                        m % 10 != 0,
                ;
                return false;
            }
            assert((m as nat == 10 * p) == ((m / 10) as nat == p)) by (nonlinear_arith)
                requires
                    m % 10 == 0,
            ;
            m = m / 10;
            k = k - 1;
        }
        m == 1
    }

    /// Reads a coefficient from its decimal text.
    pub fn from_text(s: &str) -> (r: Option<Stoichiometry>)
        ensures
            r == stoichiometry_of(s@),
    {
        let len = s.unicode_len();
        let mut i: usize = 0;
        let mut m: u64 = 0;
        let mut sc: usize = 0;
        let mut dot = false;
        let mut n: usize = 0;
        while i < len
            invariant
                len == s@.len(),
                i <= len,
                sc <= i,
                n <= i,
                scan_decimal(s@.take(i as int)) == Some((m as nat, sc as nat, dot, n as nat)),
            decreases len - i,
        {
            let c = s.get_char(i);
            assert(s@.take(i + 1).drop_last() =~= s@.take(i as int));
            assert(s@.take(i + 1).last() == c);
            if '0' <= c && c <= '9' {
                let d = (c as u32 - '0' as u32) as u64;
                if m > (u64::MAX - d) / 10 {
                    assert(m * 10 + d > u64::MAX) by (nonlinear_arith)
                        requires
                            m > (u64::MAX - d) / 10,
                            d <= 9,
                    ;
                    proof { lemma_scan_stops(s@, i as nat); }
                    return None;
                }
                assert(m * 10 + d <= u64::MAX) by (nonlinear_arith)
                    requires
                        m <= (u64::MAX - d) / 10,
                        d <= 9,
                ;
                m = m * 10 + d;
                n = n + 1;
                if dot {
                    sc = sc + 1;
                }
            } else if c == '.' && !dot {
                dot = true;
            } else {
                proof { lemma_scan_stops(s@, i as nat); }
                return None;
            }
            i = i + 1;
        }
        assert(s@.take(len as int) =~= s@);
        if n == 0 {
            return None;
        }
        Some(Stoichiometry { mantissa: m, scale: sc })
    }
}

/// Once the scan of a prefix fails, the scan of the whole text fails.
proof fn lemma_scan_stops(s: Seq<char>, i: nat)
    requires
        i < s.len(),
        scan_decimal(s.take(i as int + 1)) is None,
    ensures
        scan_decimal(s) is None,
    decreases s.len() - i,
{
    if i + 1 < s.len() {
        assert(s.take(i as int + 2).drop_last() =~= s.take(i as int + 1));
        lemma_scan_stops(s, i + 1);
    } else {
        assert(s.take(i as int + 1) =~= s);
    }
}

} // verus!
