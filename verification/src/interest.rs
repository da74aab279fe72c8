//! Interest-rate controller and compound-accrual arithmetic.
//!
//! The controller turns the stablecoin's peg deviation into an annualized
//! rate through a bounded exponential response, `base_rate * e^x` with `x`
//! proportional to the deviation, computed by a third-order fixed-point
//! Taylor series. The accrual engine turns a per-second rate and an
//! elapsed time into a growth factor `(1 + r)^t`: exactly for `t <= 4` by
//! repeated fixed-point multiplication, and by a four-term binomial
//! expansion for larger `t`.
//!
//! All arithmetic is checked; every overflow aborts with
//! [`ArithmeticError::ArithmeticOverflow`]. The fixed-point rounding of
//! each step (truncating division after every multiplication) is part of
//! the numeric contract: consumers depend on deterministic, reproducible
//! rounding.

use vstd::prelude::*;

verus! {

use crate::constants::{
    BPS_SCALE, INTEREST_SCALE, MAX_INTEREST_RATE, MIN_INTEREST_RATE, YEAR_IN_SECONDS,
};
use crate::errors::{ArithmeticError, ProtocolError};
use crate::math::{pow10, tdiv};
use crate::oracle::{price_is_fresh, spec_exp_abs, spec_is_stale, PriceInfo};
use crate::protocol_config::{spec_distribute_revenue, ProtocolConfig};

/// Magnitude of a mathematical integer.
pub open spec fn spec_abs(a: int) -> int {
    if a >= 0 {
        a
    } else {
        -a
    }
}

/// Third-order Taylor series for `e^x` around zero, in fixed point with
/// unit `INTEREST_SCALE`: `1 + x + x^2/2 + x^3/6`, with the divisions
/// truncating toward zero in the order the evaluation performs them.
pub open spec fn spec_exp_signed(x: int) -> int {
    let scale = INTEREST_SCALE as int;
    let sq_scaled = x * x / scale;
    x + scale + sq_scaled / 2 + tdiv(tdiv(sq_scaled * x, scale), 6)
}

/// The series clamped at zero: a negative sum is an artifact of the cubic
/// term dominating for large negative `x`, where the true exponential is
/// simply near zero.
pub open spec fn spec_exp_taylor(x: int) -> int {
    if spec_exp_signed(x) >= 0 {
        spec_exp_signed(x)
    } else {
        0
    }
}

/// The two products of the series that can exceed the `u128` range.
pub open spec fn spec_exp_overflows(x: int) -> bool {
    let scale = INTEREST_SCALE as int;
    x * x > u128::MAX || (x * x / scale) * spec_abs(x) > u128::MAX
}

/// Evaluates the fixed-point Taylor series for `e^x`, for `x` given as a
/// sign and a magnitude in `INTEREST_SCALE` units.
pub fn exponential_approximation(x_neg: bool, x_mag: u128) -> (r: Result<u128, ArithmeticError>)
    ensures
        ({
            let x: int = if x_neg { -(x_mag as int) } else { x_mag as int };
            if spec_exp_overflows(x) {
                r == Err::<u128, ArithmeticError>(ArithmeticError::ArithmeticOverflow)
            } else {
                r == Ok::<u128, ArithmeticError>(spec_exp_taylor(x) as u128) && spec_exp_taylor(x)
                    <= u128::MAX
            }
        }),
{
    let ghost x: int = if x_neg { -(x_mag as int) } else { x_mag as int };
    let scale = INTEREST_SCALE;
    let sq = match x_mag.checked_mul(x_mag) {
        Some(v) => v,
        None => {
            proof {
                assert(x * x == x_mag * x_mag) by (nonlinear_arith)
                    requires
                        x == x_mag || x == -(x_mag as int),
                ;
            }
            return Err(ArithmeticError::ArithmeticOverflow);
        },
    };
    proof {
        assert(x * x == x_mag * x_mag) by (nonlinear_arith)
            requires
                x == x_mag || x == -(x_mag as int),
        ;
        assert(x_mag <= u64::MAX) by (nonlinear_arith)
            requires
                x_mag * x_mag <= u128::MAX,
                0 <= x_mag,
        ;
    }
    let sq_scaled = sq / scale;
    let term2 = sq_scaled / 2;
    let cube_num = match sq_scaled.checked_mul(x_mag) {
        Some(v) => v,
        None => {
            return Err(ArithmeticError::ArithmeticOverflow);
        },
    };
    let term3_mag = cube_num / scale / 6;
    proof {
        assert(sq_scaled * x == if x_neg {
            -((sq_scaled * x_mag) as int)
        } else {
            (sq_scaled * x_mag) as int
        }) by (nonlinear_arith)
            requires
                x == if x_neg { -(x_mag as int) } else { x_mag as int },
        ;
        // The surviving terms are far below the u128 range: the two
        // checked multiplications above bound everything that follows.
        vstd::arithmetic::div_mod::lemma_div_is_ordered(
            sq as int,
            u128::MAX as int,
            INTEREST_SCALE as int,
        );
        vstd::arithmetic::div_mod::lemma_div_is_ordered(
            cube_num as int,
            u128::MAX as int,
            INTEREST_SCALE as int,
        );
        vstd::arithmetic::div_mod::lemma_div_is_ordered(
            (cube_num / INTEREST_SCALE) as int,
            (u128::MAX / INTEREST_SCALE) as int,
            6,
        );
    }
    if x_neg {
        // The negative contributions are x itself and the cubic term.
        let positive = scale + term2;
        let negative = x_mag + term3_mag;
        if negative >= positive {
            Ok(0)
        } else {
            Ok(positive - negative)
        }
    } else {
        Ok(scale + x_mag + term2 + term3_mag)
    }
}

/// The annualized rate the controller answers for a peg deviation, or the
/// overflow it aborts with: `clamp(base_rate * e^x / BPS_SCALE)` with
/// `x = (peg - price) * BPS_SCALE / sigma`, rescaled from the price domain
/// into `INTEREST_SCALE` fixed point.
pub open spec fn spec_interest_rate(price: int, exponent: int, base_rate_bps: int, sigma_bps: int) -> Result<
    u128,
    ArithmeticError,
>
    recommends
        sigma_bps > 0,
{
    let scale = INTEREST_SCALE as int;
    let peg = pow10(spec_exp_abs(exponent));
    let x2 = tdiv((peg - price) * BPS_SCALE, sigma_bps);
    if spec_abs(x2) * scale > u128::MAX {
        Err(ArithmeticError::ArithmeticOverflow)
    } else {
        let x = tdiv(x2 * scale, peg);
        if spec_exp_overflows(x) {
            Err(ArithmeticError::ArithmeticOverflow)
        } else if spec_exp_taylor(x) * base_rate_bps > u128::MAX {
            Err(ArithmeticError::ArithmeticOverflow)
        } else {
            let unclamped = spec_exp_taylor(x) * base_rate_bps / (BPS_SCALE as int);
            if unclamped < MIN_INTEREST_RATE {
                Ok(MIN_INTEREST_RATE)
            } else if unclamped > MAX_INTEREST_RATE {
                Ok(MAX_INTEREST_RATE)
            } else {
                Ok(unclamped as u128)
            }
        }
    }
}

/// Derives the annualized interest rate from the stablecoin's oracle
/// price. Price below peg raises borrowing cost, pushing the market price
/// back toward the peg; the answer is clamped to the policy bounds.
pub fn calculate_interest_rate(
    price: i64,
    exponent: i32,
    base_rate_bps: u16,
    sigma_bps: u16,
) -> (r: Result<u128, ArithmeticError>)
    requires
        sigma_bps > 0,
        -18 <= exponent <= 18,
    ensures
        r == spec_interest_rate(price as int, exponent as int, base_rate_bps as int, sigma_bps as int),
{
    let ghost scale: int = INTEREST_SCALE as int;
    let exp_abs: u32 = if exponent >= 0 {
        exponent as u32
    } else {
        (-exponent) as u32
    };
    let peg = crate::math::pow10_u128(exp_abs);
    proof {
        crate::math::lemma_pow10_le_18(exp_abs as nat);
    }
    // Deviation d = peg - price, as a sign and a magnitude.
    let (d_neg, d_mag): (bool, u128) = if price >= 0 {
        let p = price as u128;
        if p <= peg {
            (false, peg - p)
        } else {
            (true, p - peg)
        }
    } else {
        (false, peg + ((-(price as i128)) as u128))
    };
    let ghost d: int = peg - price;
    assert(d == if d_neg { -(d_mag as int) } else { d_mag as int });
    let x1_mag = d_mag * BPS_SCALE as u128;
    let x2_mag = x1_mag / (sigma_bps as u128);
    let ghost x2: int = tdiv(d * BPS_SCALE, sigma_bps as int);
    proof {
        assert(d * BPS_SCALE == if d_neg {
            -((d_mag * BPS_SCALE) as int)
        } else {
            (d_mag * BPS_SCALE) as int
        }) by (nonlinear_arith)
            requires
                d == if d_neg { -(d_mag as int) } else { d_mag as int },
        ;
        assert(x2 == if d_neg { -(x2_mag as int) } else { x2_mag as int });
    }
    let x3 = match x2_mag.checked_mul(INTEREST_SCALE) {
        Some(v) => v,
        None => {
            proof {
                assert(spec_abs(x2) == x2_mag);
            }
            return Err(ArithmeticError::ArithmeticOverflow);
        },
    };
    let x_mag = x3 / peg;
    let ghost x: int = tdiv(x2 * scale, peg as int);
    proof {
        assert(spec_abs(x2) == x2_mag);
        assert(x2 * scale == if d_neg { -((x2_mag * scale) as int) } else {
            (x2_mag * scale) as int
        }) by (nonlinear_arith)
            requires
                x2 == if d_neg { -(x2_mag as int) } else { x2_mag as int },
                scale == INTEREST_SCALE as int,
        ;
        assert(x == if d_neg { -(x_mag as int) } else { x_mag as int });
    }
    let e = match exponential_approximation(d_neg, x_mag) {
        Ok(v) => v,
        Err(err) => {
            return Err(err);
        },
    };
    let raw = match e.checked_mul(base_rate_bps as u128) {
        Some(v) => v,
        None => {
            return Err(ArithmeticError::ArithmeticOverflow);
        },
    };
    let unclamped = raw / (BPS_SCALE as u128);
    if unclamped < MIN_INTEREST_RATE {
        Ok(MIN_INTEREST_RATE)
    } else if unclamped > MAX_INTEREST_RATE {
        Ok(MAX_INTEREST_RATE)
    } else {
        Ok(unclamped)
    }
}

/// The fixed-point growth factor `(1 + r)^t` the accrual engine applies,
/// or the overflow it aborts with. For `t <= 4` the power is computed by
/// repeated fixed-point multiplication (dividing by the unit after each
/// multiply); for larger `t` by the binomial expansion
/// `1 + t*r + C(t,2)*r^2 + C(t,3)*r^3`, whose terms are evaluated in this
/// exact order.
pub open spec fn spec_growth_factor(rate: int, t: int) -> Result<u128, ArithmeticError>
    recommends
        0 <= rate,
        0 <= t,
{
    let scale = INTEREST_SCALE as int;
    let b = scale + rate;
    if t == 0 {
        Ok(INTEREST_SCALE)
    } else if t == 1 {
        if b > u128::MAX {
            Err(ArithmeticError::ArithmeticOverflow)
        } else {
            Ok(b as u128)
        }
    } else if t <= 4 {
        if b > u128::MAX || b * b > u128::MAX {
            Err(ArithmeticError::ArithmeticOverflow)
        } else if t == 2 {
            Ok((b * b / scale) as u128)
        } else if t == 3 {
            if (b * b / scale) * b > u128::MAX {
                Err(ArithmeticError::ArithmeticOverflow)
            } else {
                Ok(((b * b / scale) * b / scale) as u128)
            }
        } else {
            if (b * b / scale) * (b * b / scale) > u128::MAX {
                Err(ArithmeticError::ArithmeticOverflow)
            } else {
                Ok(((b * b / scale) * (b * b / scale) / scale) as u128)
            }
        }
    } else {
        let second = t * rate;
        let sq = rate * rate;
        let bp2 = sq / scale;
        let tm1 = t * (t - 1);
        let third_num = tm1 * bp2;
        let third = third_num / 2;
        let bp3 = bp2 * rate / scale;
        let fourth_num1 = tm1 * (t - 2);
        let fourth_num = fourth_num1 * bp3;
        let fourth = fourth_num / 6;
        if second > u128::MAX || sq > u128::MAX || tm1 > u128::MAX || third_num > u128::MAX
            || bp2 * rate > u128::MAX || fourth_num1 > u128::MAX || fourth_num > u128::MAX
            || scale + second + third + fourth > u128::MAX {
            Err(ArithmeticError::ArithmeticOverflow)
        } else {
            Ok((scale + second + third + fourth) as u128)
        }
    }
}

/// Computes the fixed-point growth factor `(1 + r)^t` for a per-second
/// rate `r` and `t` elapsed seconds.
pub fn compound_interest(interest_rate: u128, time_elapsed: u128) -> (r: Result<
    u128,
    ArithmeticError,
>)
    ensures
        r == spec_growth_factor(interest_rate as int, time_elapsed as int),
        time_elapsed == 0 ==> r == Ok::<u128, ArithmeticError>(INTEREST_SCALE),
        time_elapsed == 1 && interest_rate + INTEREST_SCALE <= u128::MAX ==> r
            == Ok::<u128, ArithmeticError>((INTEREST_SCALE + interest_rate) as u128),
        r matches Ok(f) ==> f >= INTEREST_SCALE,
{
    let scale = INTEREST_SCALE;
    if time_elapsed == 0 {
        return Ok(scale);
    }
    let b = match scale.checked_add(interest_rate) {
        Some(v) => v,
        None => {
            proof {
                // Such a rate also overflows the binomial branch's first
                // term, so every arm of the specification agrees.
                if time_elapsed >= 5 {
                    vstd::arithmetic::mul::lemma_mul_inequality(
                        5,
                        time_elapsed as int,
                        interest_rate as int,
                    );
                }
            }
            return Err(ArithmeticError::ArithmeticOverflow);
        },
    };
    if time_elapsed == 1 {
        return Ok(b);
    }
    if time_elapsed <= 4 {
        let sq = match b.checked_mul(b) {
            Some(v) => v,
            None => {
                return Err(ArithmeticError::ArithmeticOverflow);
            },
        };
        let pow_two = sq / scale;
        proof {
            crate::math::lemma_scale_ge_one(b as int, b as int, scale as int);
        }
        if time_elapsed == 2 {
            return Ok(pow_two);
        }
        if time_elapsed == 3 {
            let cube = match pow_two.checked_mul(b) {
                Some(v) => v,
                None => {
                    return Err(ArithmeticError::ArithmeticOverflow);
                },
            };
            proof {
                crate::math::lemma_scale_ge_one(pow_two as int, b as int, scale as int);
            }
            return Ok(cube / scale);
        }
        let quad = match pow_two.checked_mul(pow_two) {
            Some(v) => v,
            None => {
                return Err(ArithmeticError::ArithmeticOverflow);
            },
        };
        proof {
            crate::math::lemma_scale_ge_one(pow_two as int, pow_two as int, scale as int);
        }
        return Ok(quad / scale);
    }
    // Binomial expansion for larger periods.
    let t = time_elapsed;
    let second = match t.checked_mul(interest_rate) {
        Some(v) => v,
        None => {
            return Err(ArithmeticError::ArithmeticOverflow);
        },
    };
    let sq = match interest_rate.checked_mul(interest_rate) {
        Some(v) => v,
        None => {
            return Err(ArithmeticError::ArithmeticOverflow);
        },
    };
    let bp2 = sq / scale;
    let tm1 = match t.checked_mul(t - 1) {
        Some(v) => v,
        None => {
            return Err(ArithmeticError::ArithmeticOverflow);
        },
    };
    let third_num = match tm1.checked_mul(bp2) {
        Some(v) => v,
        None => {
            return Err(ArithmeticError::ArithmeticOverflow);
        },
    };
    let third = third_num / 2;
    let bp3_num = match bp2.checked_mul(interest_rate) {
        Some(v) => v,
        None => {
            return Err(ArithmeticError::ArithmeticOverflow);
        },
    };
    let bp3 = bp3_num / scale;
    let fourth_num1 = match tm1.checked_mul(t - 2) {
        Some(v) => v,
        None => {
            return Err(ArithmeticError::ArithmeticOverflow);
        },
    };
    let fourth_num = match fourth_num1.checked_mul(bp3) {
        Some(v) => v,
        None => {
            return Err(ArithmeticError::ArithmeticOverflow);
        },
    };
    let fourth = fourth_num / 6;
    let sum1 = match scale.checked_add(second) {
        Some(v) => v,
        None => {
            return Err(ArithmeticError::ArithmeticOverflow);
        },
    };
    let sum2 = match sum1.checked_add(third) {
        Some(v) => v,
        None => {
            return Err(ArithmeticError::ArithmeticOverflow);
        },
    };
    let sum3 = match sum2.checked_add(fourth) {
        Some(v) => v,
        None => {
            return Err(ArithmeticError::ArithmeticOverflow);
        },
    };
    Ok(sum3)
}

/// Compounding identity: no elapsed time leaves a quantity unchanged (a
/// growth factor of one), and one second grows it by exactly the
/// per-second rate.
pub proof fn lemma_growth_factor_identity(rate: int)
    requires
        0 <= rate,
        INTEREST_SCALE + rate <= u128::MAX,
    ensures
        spec_growth_factor(rate, 0) == Ok::<u128, ArithmeticError>(INTEREST_SCALE),
        spec_growth_factor(rate, 1) == Ok::<u128, ArithmeticError>((INTEREST_SCALE + rate) as u128),
{
}

/// What one accrual did: the annualized rate the controller chose, the
/// growth factor applied, and the interest revenue with its split.
#[derive(Clone, Copy, Debug, PartialEq, Eq)]
pub struct AccrualSummary {
    pub annual_rate: u128,
    pub growth_factor: u128,
    pub interest_revenue: u64,
    pub stability_pool_amount: u64,
    pub treasury_amount: u64,
}

/// The whole accrual as one transition on the protocol ledger, or the
/// rejection that aborts it with nothing changed. No time elapsed is a
/// no-op; otherwise the controller picks a rate from the stablecoin's
/// fresh oracle price, the growth factor for the elapsed seconds is
/// applied to both the aggregate debt and the cumulative index, and the
/// resulting revenue is split between the stability pools and the
/// treasury.
pub open spec fn spec_update_interest_rate(
    p: ProtocolConfig,
    now: int,
    price: PriceInfo,
) -> Result<(ProtocolConfig, AccrualSummary), ProtocolError> {
    let scale = INTEREST_SCALE as int;
    if now <= p.last_interest_rate_update_time {
        Ok(
            (
                p,
                (AccrualSummary {
                    annual_rate: p.last_interest_rate,
                    growth_factor: INTEREST_SCALE,
                    interest_revenue: 0,
                    stability_pool_amount: 0,
                    treasury_amount: 0,
                }),
            ),
        )
    } else if spec_is_stale(price, now) {
        Err(ProtocolError::StalePrice)
    } else {
        let elapsed = now - p.last_interest_rate_update_time;
        match spec_interest_rate(price.price as int, price.exponent as int, p.base_rate as int, p.sigma as int) {
            Err(e) => Err(ProtocolError::Arithmetic(e)),
            Ok(rate) => {
                let per_second = rate as int / (YEAR_IN_SECONDS as int);
                match spec_growth_factor(per_second, elapsed) {
                    Err(e) => Err(ProtocolError::Arithmetic(e)),
                    Ok(factor) => {
                        if p.total_debt * factor > u128::MAX {
                            Err(ProtocolError::Arithmetic(ArithmeticError::ArithmeticOverflow))
                        } else {
                            let new_debt = p.total_debt * factor / scale;
                            if new_debt < p.total_debt || new_debt - p.total_debt > u64::MAX {
                                Err(ProtocolError::Arithmetic(ArithmeticError::ArithmeticOverflow))
                            } else if p.cumulative_interest_rate * factor > u128::MAX {
                                Err(ProtocolError::Arithmetic(ArithmeticError::ArithmeticOverflow))
                            } else {
                                let accrued = ProtocolConfig {
                                    cumulative_interest_rate: (p.cumulative_interest_rate * factor
                                        / scale) as u128,
                                    total_debt: new_debt as u128,
                                    last_interest_rate: rate,
                                    last_interest_rate_update_time: now as i64,
                                    ..p
                                };
                                match spec_distribute_revenue(accrued, new_debt - p.total_debt) {
                                    Err(e) => Err(ProtocolError::Arithmetic(e)),
                                    Ok((p2, split)) => Ok(
                                        (
                                            p2,
                                            (AccrualSummary {
                                                annual_rate: rate,
                                                growth_factor: factor,
                                                interest_revenue: (new_debt - p.total_debt) as u64,
                                                stability_pool_amount: split.stability_pool_amount,
                                                treasury_amount: split.treasury_amount,
                                            }),
                                        ),
                                    ),
                                }
                            }
                        }
                    },
                }
            },
        }
    }
}

impl ProtocolConfig {
    /// Accrues interest up to `now`: derives the rate from the
    /// stablecoin's fresh oracle price, compounds the aggregate debt and
    /// the cumulative index by the elapsed time, and books the revenue
    /// split. Nothing is minted here: the pools' share is owed through
    /// `cumulative_reward_per_debt`, the treasury's through
    /// `pending_treasury_rewards`.
    pub fn update_interest_rate(&mut self, now: i64, stablecoin_price: &PriceInfo) -> (r: Result<
        AccrualSummary,
        ProtocolError,
    >)
        requires
            old(self).wf(),
            -18 <= stablecoin_price.exponent <= 18,
        ensures
            match spec_update_interest_rate(*old(self), now as int, *stablecoin_price) {
                Ok(next) => r == Ok::<AccrualSummary, ProtocolError>(next.1) && *final(self)
                    == next.0,
                Err(e) => r == Err::<AccrualSummary, ProtocolError>(e) && *final(self) == *old(
                    self,
                ),
            },
            final(self).wf(),
            final(self).cumulative_interest_rate >= old(self).cumulative_interest_rate,
            final(self).cumulative_reward_per_debt >= old(self).cumulative_reward_per_debt,
    {
        if now <= self.last_interest_rate_update_time {
            return Ok(
                AccrualSummary {
                    annual_rate: self.last_interest_rate,
                    growth_factor: INTEREST_SCALE,
                    interest_revenue: 0,
                    stability_pool_amount: 0,
                    treasury_amount: 0,
                },
            );
        }
        if !price_is_fresh(stablecoin_price, now) {
            return Err(ProtocolError::StalePrice);
        }
        let elapsed_wide = (now as i128) - (self.last_interest_rate_update_time as i128);
        let elapsed = elapsed_wide as u128;
        let rate = match calculate_interest_rate(
            stablecoin_price.price,
            stablecoin_price.exponent,
            self.base_rate,
            self.sigma,
        ) {
            Ok(v) => v,
            Err(e) => {
                return Err(ProtocolError::Arithmetic(e));
            },
        };
        let per_second = rate / (YEAR_IN_SECONDS as u128);
        let factor = match compound_interest(per_second, elapsed) {
            Ok(v) => v,
            Err(e) => {
                return Err(ProtocolError::Arithmetic(e));
            },
        };
        let debt_num = match self.total_debt.checked_mul(factor) {
            Some(v) => v,
            None => {
                return Err(ProtocolError::Arithmetic(ArithmeticError::ArithmeticOverflow));
            },
        };
        let new_debt = debt_num / INTEREST_SCALE;
        let revenue_wide = match new_debt.checked_sub(self.total_debt) {
            Some(v) => v,
            None => {
                return Err(ProtocolError::Arithmetic(ArithmeticError::ArithmeticOverflow));
            },
        };
        if revenue_wide > u64::MAX as u128 {
            return Err(ProtocolError::Arithmetic(ArithmeticError::ArithmeticOverflow));
        }
        let revenue = revenue_wide as u64;
        let cum_num = match self.cumulative_interest_rate.checked_mul(factor) {
            Some(v) => v,
            None => {
                return Err(ProtocolError::Arithmetic(ArithmeticError::ArithmeticOverflow));
            },
        };
        proof {
            crate::math::lemma_scale_ge_one(
                self.cumulative_interest_rate as int,
                factor as int,
                INTEREST_SCALE as int,
            );
        }
        let mut next = *self;
        next.cumulative_interest_rate = cum_num / INTEREST_SCALE;
        next.total_debt = new_debt;
        next.last_interest_rate = rate;
        next.last_interest_rate_update_time = now;
        let split = match next.distribute_revenue(revenue) {
            Ok(s) => s,
            Err(e) => {
                return Err(ProtocolError::Arithmetic(e));
            },
        };
        *self = next;
        Ok(
            AccrualSummary {
                annual_rate: rate,
                growth_factor: factor,
                interest_revenue: revenue,
                stability_pool_amount: split.stability_pool_amount,
                treasury_amount: split.treasury_amount,
            },
        )
    }
}

} // verus!
