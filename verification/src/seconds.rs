//! Times on the media timeline, kept in whole milliseconds.

use crate::text::{decimal, digit_char, push_decimal, push_digit};
use vstd::arithmetic::div_mod::lemma_div_denominator;
use vstd::arithmetic::power2::{lemma2_to64, lemma_pow2_pos, lemma_pow2_unfold, pow2};
use vstd::prelude::*;
use vstd::string::*;

verus! {

/// The largest magnitude, in milliseconds, that a [`Seconds`] holds.
pub const MAX_MILLIS: i64 = 1_000_000_000_000_000;

/// `ms` brought into the range from `-MAX_MILLIS` to `MAX_MILLIS`.
pub open spec fn clamp_millis(ms: int) -> int {
    if ms > MAX_MILLIS {
        MAX_MILLIS as int
    } else if ms < -MAX_MILLIS {
        -MAX_MILLIS
    } else {
        ms
    }
}

/// `x` divided by two `k` times, rounding down each time: `x / 2^k`.
pub open spec fn halved(x: nat, k: nat) -> nat
    decreases k,
{
    if k == 0 {
        x
    } else {
        halved(x / 2, (k - 1) as nat)
    }
}

/// The exponent field of a double's bit pattern.
pub open spec fn double_exponent(bits: u64) -> int {
    (bits as int / 0x10_0000_0000_0000) % 0x800
}

/// The fraction field of a double's bit pattern.
pub open spec fn double_fraction(bits: u64) -> int {
    bits as int % 0x10_0000_0000_0000
}

/// Whether the sign bit of a double's bit pattern is set.
pub open spec fn double_negative(bits: u64) -> bool {
    bits >= 0x8000_0000_0000_0000
}

/// The magnitude, in milliseconds, of the double with bit pattern `bits`
/// read as a number of seconds: rounded to the nearest millisecond, a tie
/// going up, and capped at `MAX_MILLIS`. An infinity gives the cap and a
/// NaN gives zero.
pub open spec fn double_millis_magnitude(bits: u64) -> int {
    let exponent = double_exponent(bits);
    let fraction = double_fraction(bits);
    if exponent == 0x7ff {
        if fraction == 0 {
            MAX_MILLIS as int
        } else {
            0
        }
    } else if exponent >= 1075 {
        MAX_MILLIS as int
    } else {
        // The value is `mantissa / 2^shift` seconds.
        let mantissa = if exponent == 0 {
            fraction
        } else {
            fraction + 0x10_0000_0000_0000
        };
        let shift = if exponent == 0 {
            1074
        } else {
            1075 - exponent
        };
        let rounded = (halved((mantissa * 1000) as nat, (shift - 1) as nat) + 1) / 2;
        if rounded > MAX_MILLIS {
            MAX_MILLIS as int
        } else {
            rounded as int
        }
    }
}

/// The milliseconds that stand for the double with bit pattern `bits`.
pub open spec fn double_millis(bits: u64) -> int {
    if double_negative(bits) {
        -double_millis_magnitude(bits)
    } else {
        double_millis_magnitude(bits)
    }
}

/// The three digits that write `n`, which is below 1000, with leading zeros.
pub open spec fn three_digits(n: nat) -> Seq<char> {
    seq![digit_char(n / 100), digit_char((n / 10) % 10), digit_char(n % 10)]
}

/// `ms` milliseconds written in seconds with exactly three decimals.
pub open spec fn fixed_decimal(ms: int) -> Seq<char> {
    let magnitude = if ms < 0 {
        -ms
    } else {
        ms
    };
    let sign = if ms < 0 {
        seq!['-']
    } else {
        Seq::<char>::empty()
    };
    sign + decimal((magnitude / 1000) as nat) + seq!['.'] + three_digits(
        (magnitude % 1000) as nat,
    )
}

/// The decimals of `n` thousandths without trailing zeros, at least one digit.
pub open spec fn short_fraction(n: nat) -> Seq<char> {
    if n % 100 == 0 {
        seq![digit_char(n / 100)]
    } else if n % 10 == 0 {
        seq![digit_char(n / 100), digit_char((n / 10) % 10)]
    } else {
        three_digits(n)
    }
}

/// `ms` milliseconds written in seconds as a JSON number with a decimal
/// point and no needless zeros: `12.0`, `14.5`, `-0.25`.
pub open spec fn short_decimal(ms: int) -> Seq<char> {
    let magnitude = if ms < 0 {
        -ms
    } else {
        ms
    };
    let sign = if ms < 0 {
        seq!['-']
    } else {
        Seq::<char>::empty()
    };
    sign + decimal((magnitude / 1000) as nat) + seq!['.'] + short_fraction(
        (magnitude % 1000) as nat,
    )
}

/// A time or a length of time in seconds, held in whole milliseconds.
#[derive(Clone, Copy, Debug, PartialEq, Eq)]
pub struct Seconds {
    millis: i64,
}

impl View for Seconds {
    type V = int;

    closed spec fn view(&self) -> int {
        self.millis as int
    }
}

impl Seconds {
    #[verifier::type_invariant]
    spec fn in_range(self) -> bool {
        -MAX_MILLIS <= self.millis <= MAX_MILLIS
    }

    /// The time of `ms` milliseconds, capped at `MAX_MILLIS` either way.
    pub fn from_millis(ms: i64) -> (time: Seconds)
        ensures
            time@ == clamp_millis(ms as int),
    {
        if ms > MAX_MILLIS {
            Seconds { millis: MAX_MILLIS }
        } else if ms < -MAX_MILLIS {
            Seconds { millis: -MAX_MILLIS }
        } else {
            Seconds { millis: ms }
        }
    }

    /// The time in milliseconds.
    pub fn millis(&self) -> (ms: i64)
        ensures
            ms == self@,
            -MAX_MILLIS <= ms <= MAX_MILLIS,
    {
        proof {
            use_type_invariant(self);
        }
        self.millis
    }

    /// The time that stands for a double, given by its bit pattern.
    pub fn from_double_bits(bits: u64) -> (time: Seconds)
        ensures
            time@ == double_millis(bits),
    {
        let negative = bits >= 0x8000_0000_0000_0000;
        let exponent: u64 = (bits / 0x10_0000_0000_0000) % 0x800;
        let fraction: u64 = bits % 0x10_0000_0000_0000;
        let magnitude: i64 = if exponent == 0x7ff {
            if fraction == 0 {
                MAX_MILLIS
            } else {
                0
            }
        } else if exponent >= 1075 {
            MAX_MILLIS
        } else {
            let mantissa: u64 = if exponent == 0 {
                fraction
            } else {
                fraction + 0x10_0000_0000_0000
            };
            let shift: u64 = if exponent == 0 {
                1074
            } else {
                1075 - exponent
            };
            let mut rest: u64 = mantissa * 1000;
            let mut done: u64 = 0;
            while done < shift - 1 && rest > 0
                invariant
                    1 <= shift <= 1074,
                    done <= shift - 1,
                    mantissa < 0x20_0000_0000_0000,
                    rest <= mantissa * 1000,
                    halved(rest as nat, (shift - 1 - done) as nat) == halved(
                        (mantissa * 1000) as nat,
                        (shift - 1) as nat,
                    ),
                decreases shift - 1 - done,
            {
                rest = rest / 2;
                done = done + 1;
            }
            proof {
                if rest == 0 {
                    lemma_halved_zero((shift - 1 - done) as nat);
                }
            }
            let rounded: u64 = (rest + 1) / 2;
            if rounded > MAX_MILLIS as u64 {
                MAX_MILLIS
            } else {
                rounded as i64
            }
        };
        if negative {
            Seconds { millis: -magnitude }
        } else {
            Seconds { millis: magnitude }
        }
    }

    /// Appends the time with exactly three decimals, as in `12.000`.
    pub fn push_fixed(&self, out: &mut String)
        ensures
            final(out)@ == old(out)@ + fixed_decimal(self@),
    {
        push_fixed_decimal(out, self.millis());
    }

    /// Appends the time as a JSON number, as in `12.0` or `14.5`.
    pub fn push_short(&self, out: &mut String)
        ensures
            final(out)@ == old(out)@ + short_decimal(self@),
    {
        let ms = self.millis();
        let magnitude: u64 = if ms < 0 {
            (-ms) as u64
        } else {
            ms as u64
        };
        if ms < 0 {
            out.append("-");
        }
        push_decimal(out, magnitude / 1000);
        out.append(".");
        let rest = magnitude % 1000;
        push_digit(out, rest / 100);
        if rest % 100 != 0 {
            push_digit(out, (rest / 10) % 10);
            if rest % 10 != 0 {
                push_digit(out, rest % 10);
            }
        }
        proof {
            reveal_strlit("-");
            reveal_strlit(".");
            assert(out@ =~= old(out)@ + short_decimal(self@));
        }
    }
}

/// Appends `ms` milliseconds, written in seconds with exactly three
/// decimals, as in `3.000` or `-0.250`.
pub fn push_fixed_decimal(out: &mut String, ms: i64)
    ensures
        final(out)@ == old(out)@ + fixed_decimal(ms as int),
{
    let magnitude: u64 = if ms == i64::MIN {
        9223372036854775808u64
    } else if ms < 0 {
        (-ms) as u64
    } else {
        ms as u64
    };
    if ms < 0 {
        out.append("-");
    }
    push_decimal(out, magnitude / 1000);
    out.append(".");
    let rest = magnitude % 1000;
    push_digit(out, rest / 100);
    push_digit(out, (rest / 10) % 10);
    push_digit(out, rest % 10);
    proof {
        reveal_strlit("-");
        reveal_strlit(".");
        assert(out@ =~= old(out)@ + fixed_decimal(ms as int));
    }
}

/// `ms` milliseconds written in seconds with exactly three decimals.
pub fn fixed_decimal_text(ms: i64) -> (text: String)
    ensures
        text@ == fixed_decimal(ms as int),
{
    let mut text = String::new();
    push_fixed_decimal(&mut text, ms);
    assert(text@ =~= fixed_decimal(ms as int));
    text
}

/// Halving `k` times divides by two to the power `k`.
pub proof fn lemma_halved_is_division(x: nat, k: nat)
    ensures
        halved(x, k) == x / pow2(k),
    decreases k,
{
    if k == 0 {
        lemma2_to64();
    } else {
        lemma_halved_is_division(x / 2, (k - 1) as nat);
        lemma_pow2_unfold(k);
        lemma_pow2_pos((k - 1) as nat);
        lemma_div_denominator(x as int, 2, pow2((k - 1) as nat) as int);
        assert(2 * pow2((k - 1) as nat) == pow2((k - 1) as nat) * 2) by (nonlinear_arith);
    }
}

/// Halving zero any number of times leaves zero.
proof fn lemma_halved_zero(k: nat)
    ensures
        halved(0, k) == 0,
    decreases k,
{
    if k > 0 {
        lemma_halved_zero((k - 1) as nat);
    }
}

} // verus!
