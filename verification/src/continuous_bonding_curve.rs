//! A token sold along a linear price curve `p(s) = base + slope * s`:
//! buying `x` tokens at supply `s` costs the area under the curve from `s`
//! to `s + x`, and selling pays back the area it removes.
use vstd::prelude::*;
use crate::common::Address;
use crate::security_primitives::{fits_i128, spec_trunc_div};

verus! {

#[derive(Copy, Clone, Debug, PartialEq, Eq, Structural)]
pub enum CurveError {
    AlreadyInitialized,
    NotInitialized,
    InvalidAmount,
    SlippageExceeded,
    DeadlinePassed,
    Unauthorized,
    InsufficientSupply,
}

/// Cost of minting `x` tokens at supply `s`:
/// `base * x + slope * ((s + x)^2 - s^2) / 2`, the division truncated.
pub open spec fn mint_cost(base: int, slope: int, s: int, x: int) -> int {
    base * x + spec_trunc_div(slope * ((s + x) * (s + x) - s * s), 2)
}

/// Payout for burning `x` tokens at supply `s`:
/// `base * x + slope * (s^2 - (s - x)^2) / 2`, the division truncated.
pub open spec fn burn_payout(base: int, slope: int, s: int, x: int) -> int {
    base * x + spec_trunc_div(slope * (s * s - (s - x) * (s - x)), 2)
}

/// Every step of the mint cost stays within `i128`.
pub open spec fn mint_fits(base: int, slope: int, s: int, x: int) -> bool {
    &&& fits_i128(s + x)
    &&& fits_i128((s + x) * (s + x))
    &&& fits_i128(s * s)
    &&& fits_i128((s + x) * (s + x) - s * s)
    &&& fits_i128(slope * ((s + x) * (s + x) - s * s))
    &&& fits_i128(base * x)
    &&& fits_i128(mint_cost(base, slope, s, x))
}

/// Every step of the burn payout stays within `i128`.
pub open spec fn burn_fits(base: int, slope: int, s: int, x: int) -> bool {
    &&& fits_i128(s - x)
    &&& fits_i128((s - x) * (s - x))
    &&& fits_i128(s * s)
    &&& fits_i128(s * s - (s - x) * (s - x))
    &&& fits_i128(slope * (s * s - (s - x) * (s - x)))
    &&& fits_i128(base * x)
    &&& fits_i128(burn_payout(base, slope, s, x))
}

/// Storage of the curve.
pub struct ContinuousBondingCurveContract {
    pub admin: Option<Address>,
    pub slope: i128,
    pub base_price: i128,
    /// Tokens in circulation.
    pub supply: i128,
    /// Reserve paid in by buyers and not yet paid out.
    pub reserve: i128,
}

impl ContinuousBondingCurveContract {
    pub open spec fn cost_of(&self, x: i128) -> int {
        mint_cost(self.base_price as int, self.slope as int, self.supply as int, x as int)
    }

    pub open spec fn payout_of(&self, x: i128) -> int {
        burn_payout(self.base_price as int, self.slope as int, self.supply as int, x as int)
    }

    /// Fresh, uninitialised storage.
    pub fn new() -> (c: Self)
        ensures
            c.admin is None && c.slope == 0 && c.base_price == 0 && c.supply == 0 && c.reserve == 0,
    {
        ContinuousBondingCurveContract { admin: None, slope: 0, base_price: 0, supply: 0, reserve: 0 }
    }

    /// Fix the curve's slope and base price; supply and reserve start at 0.
    pub fn initialize(&mut self, admin: Address, slope: i128, base_price: i128) -> (r: Result<(), CurveError>)
        ensures
            r == (if old(self).admin is Some {
                Err(CurveError::AlreadyInitialized)
            } else if slope <= 0 || base_price <= 0 {
                Err(CurveError::InvalidAmount)
            } else {
                Ok(())
            }),
            r is Err ==> *final(self) == *old(self),
            r is Ok ==> *final(self) == (ContinuousBondingCurveContract {
                admin: Some(admin), slope, base_price, supply: 0, reserve: 0 }),
    {
        if self.admin.is_some() {
            return Err(CurveError::AlreadyInitialized);
        }
        if slope <= 0 || base_price <= 0 {
            return Err(CurveError::InvalidAmount);
        }
        self.admin = Some(admin);
        self.slope = slope;
        self.base_price = base_price;
        self.supply = 0;
        self.reserve = 0;
        Ok(())
    }

    fn cost_for_mint(&self, x: i128) -> (r: i128)
        requires
            mint_fits(self.base_price as int, self.slope as int, self.supply as int, x as int),
        ensures
            r == self.cost_of(x),
    {
        let s = self.supply;
        let new_s = s + x;
        let linear_term = self.base_price * x;
        let quad_term = self.slope * ((new_s * new_s) - (s * s)) / 2;
        linear_term + quad_term
    }

    fn payout_for_burn(&self, x: i128) -> (r: i128)
        requires
            burn_fits(self.base_price as int, self.slope as int, self.supply as int, x as int),
        ensures
            r == self.payout_of(x),
    {
        let s = self.supply;
        let new_s = s - x;
        let linear_term = self.base_price * x;
        let quad_term = self.slope * ((s * s) - (new_s * new_s)) / 2;
        linear_term + quad_term
    }

    /// Buy exactly `tokens_out` at time `now`, paying at most
    /// `max_reserve_in` by `deadline`. Returns the cost.
    pub fn buy_exact_tokens(&mut self, buyer: Address, tokens_out: i128, max_reserve_in: i128, deadline: u64, now: u64) -> (r: Result<i128, CurveError>)
        requires
            old(self).admin is Some && deadline >= now && tokens_out > 0 && max_reserve_in > 0 ==> {
                &&& mint_fits(old(self).base_price as int, old(self).slope as int, old(self).supply as int, tokens_out as int)
                &&& old(self).cost_of(tokens_out) <= max_reserve_in ==> fits_i128(old(self).reserve + old(self).cost_of(tokens_out))
            },
        ensures
            r == (if old(self).admin is None {
                Err(CurveError::NotInitialized)
            } else if deadline < now {
                Err(CurveError::DeadlinePassed)
            } else if tokens_out <= 0 || max_reserve_in <= 0 {
                Err(CurveError::InvalidAmount)
            } else if old(self).cost_of(tokens_out) > max_reserve_in {
                Err(CurveError::SlippageExceeded)
            } else {
                Ok(old(self).cost_of(tokens_out) as i128)
            }),
            r is Err ==> *final(self) == *old(self),
            r matches Ok(cost) ==> *final(self) == (ContinuousBondingCurveContract {
                supply: (old(self).supply + tokens_out) as i128,
                reserve: (old(self).reserve + cost) as i128,
                ..*old(self)
            }),
    {
        if self.admin.is_none() {
            return Err(CurveError::NotInitialized);
        }
        if deadline < now {
            return Err(CurveError::DeadlinePassed);
        }
        if tokens_out <= 0 || max_reserve_in <= 0 {
            return Err(CurveError::InvalidAmount);
        }
        let cost = self.cost_for_mint(tokens_out);
        if cost > max_reserve_in {
            return Err(CurveError::SlippageExceeded);
        }
        self.supply = self.supply + tokens_out;
        self.reserve = self.reserve + cost;
        Ok(cost)
    }

    /// Sell exactly `tokens_in` at time `now`, receiving at least
    /// `min_reserve_out` by `deadline`. Returns the payout.
    pub fn sell_exact_tokens(&mut self, seller: Address, tokens_in: i128, min_reserve_out: i128, deadline: u64, now: u64) -> (r: Result<i128, CurveError>)
        requires
            old(self).admin is Some && deadline >= now && tokens_in > 0 && min_reserve_out > 0
                && old(self).supply >= tokens_in ==> {
                &&& burn_fits(old(self).base_price as int, old(self).slope as int, old(self).supply as int, tokens_in as int)
            },
        ensures
            r == (if old(self).admin is None {
                Err(CurveError::NotInitialized)
            } else if deadline < now {
                Err(CurveError::DeadlinePassed)
            } else if tokens_in <= 0 || min_reserve_out <= 0 {
                Err(CurveError::InvalidAmount)
            } else if old(self).supply < tokens_in {
                Err(CurveError::InsufficientSupply)
            } else if old(self).payout_of(tokens_in) < min_reserve_out {
                Err(CurveError::SlippageExceeded)
            } else if old(self).reserve < old(self).payout_of(tokens_in) {
                Err(CurveError::InvalidAmount)
            } else {
                Ok(old(self).payout_of(tokens_in) as i128)
            }),
            r is Err ==> *final(self) == *old(self),
            r matches Ok(payout) ==> *final(self) == (ContinuousBondingCurveContract {
                supply: (old(self).supply - tokens_in) as i128,
                reserve: (old(self).reserve - payout) as i128,
                ..*old(self)
            }),
    {
        if self.admin.is_none() {
            return Err(CurveError::NotInitialized);
        }
        if deadline < now {
            return Err(CurveError::DeadlinePassed);
        }
        if tokens_in <= 0 || min_reserve_out <= 0 {
            return Err(CurveError::InvalidAmount);
        }
        if self.supply < tokens_in {
            return Err(CurveError::InsufficientSupply);
        }
        let payout = self.payout_for_burn(tokens_in);
        if payout < min_reserve_out {
            return Err(CurveError::SlippageExceeded);
        }
        if self.reserve < payout {
            return Err(CurveError::InvalidAmount);
        }
        self.supply = self.supply - tokens_in;
        self.reserve = self.reserve - payout;
        Ok(payout)
    }

    /// The cost of buying `tokens_out` now.
    pub fn quote_buy(&self, tokens_out: i128) -> (r: Result<i128, CurveError>)
        requires
            self.admin is Some && tokens_out > 0 ==> mint_fits(self.base_price as int, self.slope as int, self.supply as int, tokens_out as int),
        ensures
            r == (if self.admin is None {
                Err(CurveError::NotInitialized)
            } else if tokens_out <= 0 {
                Err(CurveError::InvalidAmount)
            } else {
                Ok(self.cost_of(tokens_out) as i128)
            }),
    {
        if self.admin.is_none() {
            return Err(CurveError::NotInitialized);
        }
        if tokens_out <= 0 {
            return Err(CurveError::InvalidAmount);
        }
        Ok(self.cost_for_mint(tokens_out))
    }

    /// The payout for selling `tokens_in` now.
    pub fn quote_sell(&self, tokens_in: i128) -> (r: Result<i128, CurveError>)
        requires
            self.admin is Some && tokens_in > 0 && self.supply >= tokens_in ==> burn_fits(
                self.base_price as int, self.slope as int, self.supply as int, tokens_in as int),
        ensures
            r == (if self.admin is None {
                Err(CurveError::NotInitialized)
            } else if tokens_in <= 0 {
                Err(CurveError::InvalidAmount)
            } else if self.supply < tokens_in {
                Err(CurveError::InsufficientSupply)
            } else {
                Ok(self.payout_of(tokens_in) as i128)
            }),
    {
        if self.admin.is_none() {
            return Err(CurveError::NotInitialized);
        }
        if tokens_in <= 0 {
            return Err(CurveError::InvalidAmount);
        }
        if self.supply < tokens_in {
            return Err(CurveError::InsufficientSupply);
        }
        Ok(self.payout_for_burn(tokens_in))
    }

    /// Supply and reserve.
    pub fn state(&self) -> (r: (i128, i128))
        ensures
            r == (self.supply, self.reserve),
    {
        (self.supply, self.reserve)
    }
}

/// Selling right after buying the same amount pays back exactly what the
/// purchase cost: the curve offers no round-trip gain or loss.
pub proof fn lemma_round_trip(base: int, slope: int, s: int, x: int)
    ensures
        burn_payout(base, slope, s + x, x) == mint_cost(base, slope, s, x),
{
    assert(s + x - x == s);
}

/// A buy of `x` tokens followed by a sell of the same `x` leaves supply
/// and reserve as they were.
pub proof fn lemma_buy_then_sell_restores(
    c0: ContinuousBondingCurveContract,
    c1: ContinuousBondingCurveContract,
    c2: ContinuousBondingCurveContract,
    x: i128,
)
    requires
        c1 == (ContinuousBondingCurveContract {
            supply: (c0.supply + x) as i128,
            reserve: (c0.reserve + c0.cost_of(x)) as i128,
            ..c0
        }),
        fits_i128(c0.supply + x),
        fits_i128(c0.reserve + c0.cost_of(x)),
        c2 == (ContinuousBondingCurveContract {
            supply: (c1.supply - x) as i128,
            reserve: (c1.reserve - c1.payout_of(x)) as i128,
            ..c1
        }),
    ensures
        c2.supply == c0.supply,
        c2.reserve == c0.reserve,
{
    lemma_round_trip(c0.base_price as int, c0.slope as int, c0.supply as int, x as int);
}

} // verus!
