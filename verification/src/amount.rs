use vstd::prelude::*;
use vstd::arithmetic::div_mod::{
    lemma_div_by_multiple, lemma_div_denominator, lemma_div_is_ordered,
    lemma_div_is_ordered_by_denominator, lemma_div_multiples_vanish,
    lemma_fundamental_div_mod,
};
use vstd::arithmetic::mul::{lemma_mul_inequality, lemma_mul_is_associative, lemma_mul_is_commutative};
use vstd::string::StringExecFns;

use crate::error::{Error, ErrorKind};

verus! {

/// `10^e` as a specification-level integer.
pub open spec fn pow10(e: nat) -> int
    decreases e,
{
    if e == 0 {
        1
    } else {
        10 * pow10((e - 1) as nat)
    }
}

pub proof fn lemma_pow10_pos(e: nat)
    ensures
        pow10(e) >= 1,
    decreases e,
{
    if e > 0 {
        lemma_pow10_pos((e - 1) as nat);
    }
}

pub proof fn lemma_pow10_adds(a: nat, b: nat)
    ensures
        pow10(a + b) == pow10(a) * pow10(b),
    decreases a,
{
    if a == 0 {
        assert(pow10(b) == 1 * pow10(b));
    } else {
        lemma_pow10_adds((a - 1) as nat, b);
        assert((a + b - 1) as nat == (a - 1) as nat + b);
        lemma_mul_is_associative(10, pow10((a - 1) as nat), pow10(b));
    }
}

pub proof fn lemma_pow10_increases(e1: nat, e2: nat)
    requires
        e1 <= e2,
    ensures
        pow10(e1) <= pow10(e2),
{
    lemma_pow10_adds(e1, (e2 - e1) as nat);
    lemma_pow10_pos(e1);
    lemma_pow10_pos((e2 - e1) as nat);
    assert(pow10(e1) * 1 <= pow10(e1) * pow10((e2 - e1) as nat)) by (nonlinear_arith)
        requires
            pow10(e1) >= 1,
            pow10((e2 - e1) as nat) >= 1,
    ;
}

/// `10^e` at run time; the exponent is capped so the value fits in 64 bits.
pub fn pow10_u64(e: u32) -> (r: u64)
    requires
        e <= 19,
    ensures
        r as int == pow10(e as nat),
{
    proof {
        reveal_with_fuel(pow10, 21);
    }
    let mut r: u64 = 1;
    let mut i: u32 = 0;
    while i < e
        invariant
            i <= e <= 19,
            r as int == pow10(i as nat),
        decreases e - i,
    {
        proof {
            lemma_pow10_increases((i + 1) as nat, 19);
            assert(pow10(19) == 10_000_000_000_000_000_000) by {
                reveal_with_fuel(pow10, 21);
            }
        }
        r = r * 10;
        i = i + 1;
    }
    r
}

/// A non-negative-or-negated decimal number `mantissa / 10^scale`, the
/// exact fixed-point representation used for every human-scale amount.
/// No floating point enters the amount pipeline.
#[derive(Clone, Copy, PartialEq, Eq, Structural, Debug)]
pub struct DecimalAmount {
    pub negative: bool,
    pub mantissa: u64,
    pub scale: u32,
}

impl DecimalAmount {
    /// The scale is capped so that `10^scale` fits the 64-bit conversions.
    pub open spec fn wf(self) -> bool {
        self.scale <= 18
    }

    /// The represented value is `numerator / denominator`.
    pub open spec fn numerator(self) -> int {
        if self.negative {
            -(self.mantissa as int)
        } else {
            self.mantissa as int
        }
    }

    pub open spec fn denominator(self) -> int {
        pow10(self.scale as nat)
    }

    pub open spec fn is_negative_value(self) -> bool {
        self.negative && self.mantissa > 0
    }

    /// Two decimal amounts denote the same rational value.
    pub open spec fn same_value(self, other: DecimalAmount) -> bool {
        self.numerator() * other.denominator() == other.numerator() * self.denominator()
    }
}

/// `floor(mantissa * 10^decimals / 10^scale)`: the raw-unit value of a
/// non-negative display amount under a mint with `decimals` decimals.
pub open spec fn raw_units(amount: DecimalAmount, decimals: u32) -> int {
    (amount.mantissa as int) * pow10(decimals as nat) / pow10(amount.scale as nat)
}

/// Converts a display amount to raw units, truncating toward zero.
/// Rejects negative amounts; overflow of the 64-bit raw value is a math error.
pub fn amount_display_to_raw(amount: &DecimalAmount, decimals: u32) -> (r: Result<u64, Error>)
    requires
        amount.wf(),
        decimals <= 18,
    ensures
        r is Ok <==> !amount.is_negative_value() && raw_units(*amount, decimals) <= u64::MAX,
        r matches Ok(v) ==> v as int == raw_units(*amount, decimals),
        // truncation toward zero: the raw value never exceeds the display value
        r matches Ok(v) ==> (v as int) * pow10(amount.scale as nat) <= (amount.mantissa as int)
            * pow10(decimals as nat),
        r matches Err(e) ==> (e.kind() == (if amount.is_negative_value() {
            ErrorKind::InvalidInput
        } else {
            ErrorKind::Math
        })),
{
    proof {
        lemma_pow10_pos(amount.scale as nat);
        lemma_pow10_pos(decimals as nat);
    }
    if amount.negative && amount.mantissa > 0 {
        return Err(Error::InvalidInput(String::from_str("display amount is negative")));
    }
    let ghost m = amount.mantissa as int;
    if amount.scale <= decimals {
        let factor = pow10_u64(decimals - amount.scale);
        proof {
            lemma_pow10_adds(amount.scale as nat, (decimals - amount.scale) as nat);
            // m * 10^d == (m * 10^(d-s)) * 10^s
            lemma_mul_is_commutative(pow10(amount.scale as nat), pow10((decimals
                - amount.scale) as nat));
            lemma_mul_is_associative(m, pow10((decimals - amount.scale) as nat), pow10(
                amount.scale as nat));
            lemma_div_by_multiple(m * pow10((decimals - amount.scale) as nat), pow10(
                amount.scale as nat));
            assert(raw_units(*amount, decimals) == m * pow10((decimals - amount.scale) as nat));
        }
        match amount.mantissa.checked_mul(factor) {
            Some(v) => {
                proof {
                    lemma_fundamental_div_mod(m * pow10(decimals as nat), pow10(
                        amount.scale as nat));
                    lemma_mul_is_commutative(pow10(amount.scale as nat), raw_units(
                        *amount, decimals));
                }
                Ok(v)
            },
            None => Err(Error::Math(String::from_str(
                "overflow converting display amount to raw units",
            ))),
        }
    } else {
        let divisor = pow10_u64(amount.scale - decimals);
        proof {
            lemma_pow10_pos((amount.scale - decimals) as nat);
            lemma_pow10_adds(decimals as nat, (amount.scale - decimals) as nat);
            // (m * 10^d) / (10^d * 10^(s-d)) == (m * 10^d / 10^d) / 10^(s-d)
            lemma_div_denominator(m * pow10(decimals as nat), pow10(decimals as nat), pow10((
                amount.scale - decimals) as nat));
            lemma_mul_is_commutative(m, pow10(decimals as nat));
            lemma_div_multiples_vanish(m, pow10(decimals as nat));
            assert(raw_units(*amount, decimals) == m / pow10((amount.scale - decimals) as nat));
            lemma_div_is_ordered_by_denominator(m, 1, pow10((amount.scale - decimals) as nat));
            lemma_fundamental_div_mod(m * pow10(decimals as nat), pow10(amount.scale as nat));
            lemma_mul_is_commutative(pow10(amount.scale as nat), raw_units(*amount, decimals));
        }
        Ok(amount.mantissa / divisor)
    }
}

/// Converts raw units back to a display amount with full precision: the
/// result is exactly `amount / 10^decimals`.
pub fn amount_raw_to_display(amount: u64, decimals: u32) -> (r: DecimalAmount)
    requires
        decimals <= 18,
    ensures
        r == (DecimalAmount { negative: false, mantissa: amount, scale: decimals }),
        r.wf(),
        !r.is_negative_value(),
{
    DecimalAmount { negative: false, mantissa: amount, scale: decimals }
}

/// Round trip: a display amount with at most `decimals` fractional digits,
/// converted to raw units and back, denotes exactly the same value.
pub proof fn lemma_display_raw_round_trip(x: DecimalAmount, decimals: u32)
    requires
        x.wf(),
        decimals <= 18,
        x.scale <= decimals,
        !x.is_negative_value(),
        raw_units(x, decimals) <= u64::MAX,
    ensures
        (DecimalAmount {
            negative: false,
            mantissa: raw_units(x, decimals) as u64,
            scale: decimals,
        }).same_value(x),
{
    let m = x.mantissa as int;
    let s = x.scale as nat;
    let d = decimals as nat;
    lemma_pow10_pos(s);
    lemma_pow10_pos(d);
    lemma_pow10_pos((d - s) as nat);
    lemma_pow10_adds(s, (d - s) as nat);
    lemma_mul_is_commutative(pow10(s), pow10((d - s) as nat));
    lemma_mul_is_associative(m, pow10((d - s) as nat), pow10(s));
    lemma_div_by_multiple(m * pow10((d - s) as nat), pow10(s));
    assert(raw_units(x, decimals) == m * pow10((d - s) as nat));
    // (m * 10^(d-s)) * 10^s == m * 10^d
    assert(raw_units(x, decimals) * pow10(s) == m * pow10(d));
}

/// The pool keeps `input_reserve * other_reserve` constant: after paying in
/// `input_amount`, the other side's new reserve is the truncated quotient,
/// and the difference is what the operation may take out.
pub open spec fn next_other_reserve(input_reserve: int, other_reserve: int, input_amount: int) -> int {
    (input_reserve * other_reserve) / (input_reserve + input_amount)
}

pub open spec fn other_amount_out(input_reserve: int, other_reserve: int, input_amount: int) -> int {
    other_reserve - next_other_reserve(input_reserve, other_reserve, input_amount)
}

/// A slippage percentage is valid when it denotes a value in `[0, 100)`.
pub open spec fn slippage_valid(s: DecimalAmount) -> bool {
    !s.is_negative_value() && (s.mantissa as int) < 100 * pow10(s.scale as nat)
}

/// `floor(other * (1 - slippage/100))`, computed exactly over integers.
pub open spec fn min_after_slippage(other: int, s: DecimalAmount) -> int {
    other * (100 * pow10(s.scale as nat) - s.mantissa as int) / (100 * pow10(s.scale as nat))
}

/// Constant-product liquidity-add amounts: returns the other side's amount
/// and its slippage-bounded minimum. Pure and deterministic.
pub fn compute_add_liquidity(
    input_reserve: u64,
    other_reserve: u64,
    input_amount_raw: u64,
    slippage: &DecimalAmount,
) -> (r: Result<(u64, u64), Error>)
    requires
        // machine limit: keeps the 128-bit slippage product in range
        slippage.scale <= 12,
    ensures
        r is Ok <==> slippage_valid(*slippage) && (input_reserve > 0 || input_amount_raw > 0),
        r matches Err(e) ==> (e.kind() == (if !slippage_valid(*slippage) {
            ErrorKind::InvalidInput
        } else {
            ErrorKind::Math
        })),
        r matches Ok(v) ==> v.0 as int == other_amount_out(
            input_reserve as int,
            other_reserve as int,
            input_amount_raw as int,
        ),
        r matches Ok(v) ==> v.1 as int == min_after_slippage(v.0 as int, *slippage),
        // the output never exceeds the reserve it is drawn from
        r matches Ok(v) ==> v.0 <= other_reserve,
        // the reserve product never increases under truncating division
        r matches Ok(v) ==> (input_reserve + input_amount_raw) * (other_reserve - v.0)
            <= input_reserve * other_reserve,
        // the slippage bound never exceeds the computed amount ...
        r matches Ok(v) ==> v.1 <= v.0,
        // ... and equals it when slippage is zero
        r matches Ok(v) ==> (slippage.mantissa == 0 ==> v.1 == v.0),
{
    let p = pow10_u64(slippage.scale);
    proof {
        lemma_pow10_pos(slippage.scale as nat);
        lemma_pow10_increases(slippage.scale as nat, 12);
        assert(pow10(12) == 1_000_000_000_000) by {
            reveal_with_fuel(pow10, 13);
        }
    }
    if slippage.negative && slippage.mantissa > 0 {
        return Err(Error::InvalidInput(String::from_str("slippage percentage is negative")));
    }
    if slippage.mantissa >= 100 * p {
        return Err(Error::InvalidInput(String::from_str(
            "slippage percentage must be below 100",
        )));
    }
    if input_reserve == 0 && input_amount_raw == 0 {
        return Err(Error::Math(String::from_str("division error")));
    }
    let ir = input_reserve as u128;
    let or = other_reserve as u128;
    let amt = input_amount_raw as u128;
    proof {
        assert(ir * or <= 0xffff_ffff_ffff_ffffu128 * 0xffff_ffff_ffff_ffffu128)
            by (nonlinear_arith)
            requires
                ir <= 0xffff_ffff_ffff_ffffu128,
                or <= 0xffff_ffff_ffff_ffffu128,
        ;
    }
    let k = ir * or;
    let next_input_reserve = ir + amt;
    let next_other = k / next_input_reserve;
    proof {
        lemma_mul_inequality(ir as int, (ir + amt) as int, or as int);
        lemma_div_is_ordered(k as int, (ir + amt) as int * or as int, (ir + amt) as int);
        lemma_mul_is_commutative((ir + amt) as int, or as int);
        lemma_div_by_multiple(or as int, (ir + amt) as int);
        assert(next_other <= or);
        // product non-increase from the division remainder
        lemma_fundamental_div_mod(k as int, (ir + amt) as int);
    }
    let other_amount = or - next_other;
    let hundred_p = 100u128 * (p as u128);
    let f = hundred_p - (slippage.mantissa as u128);
    proof {
        assert(other_amount * f <= 0xffff_ffff_ffff_ffffu128 * 0x0000_5af3_107a_4000u128)
            by (nonlinear_arith)
            requires
                other_amount <= 0xffff_ffff_ffff_ffffu128,
                f <= 0x0000_5af3_107a_4000u128,
        ;
        lemma_mul_inequality(f as int, hundred_p as int, other_amount as int);
        lemma_mul_is_commutative(f as int, other_amount as int);
        lemma_mul_is_commutative(hundred_p as int, other_amount as int);
        lemma_div_is_ordered(
            other_amount as int * f as int,
            other_amount as int * hundred_p as int,
            hundred_p as int,
        );
        lemma_div_by_multiple(other_amount as int, hundred_p as int);
    }
    let min_other = (other_amount * f) / hundred_p;
    Ok((other_amount as u64, min_other as u64))
}

} // verus!
