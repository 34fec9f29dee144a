//! Flash loans that must be repaid with a fee within one transaction.
//!
//! A loan runs in two steps around the outside work. [`FlashLoanProviderContract::flash_loan_begin`]
//! checks the request against the provider's balance, fixes the fee and takes
//! the lock; the host then transfers the amount and calls the receiver;
//! [`FlashLoanProviderContract::flash_loan_end`] checks that the balance came back
//! with the fee and books the loan. When either step refuses, the whole
//! transaction, the first step included, is rolled back.
use std::collections::HashMap;
use vstd::prelude::*;
use crate::common::{Address, get_or, map_get_or};

verus! {

broadcast use vstd::std_specs::hash::group_hash_axioms;

#[derive(Copy, Clone, Debug, PartialEq, Eq, Structural)]
pub enum FlashLoanError {
    AlreadyInitialized,
    NotInitialized,
    Unauthorized,
    /// Requested loan amount is zero or negative.
    InvalidAmount,
    /// Provider has insufficient liquidity to fulfil the request.
    InsufficientLiquidity,
    /// Receiver did not repay `amount + fee` before the callback returned.
    LoanNotRepaid,
    /// A flash loan is already in progress (reentrancy).
    Reentrant,
    /// Fee outside `0..=500` basis points.
    InvalidFee,
}

/// Maximum fee: 500 bps = 5%.
pub const MAX_FEE_BPS: i128 = 500;
/// Default fee: 9 bps = 0.09%.
pub const DEFAULT_FEE_BPS: i128 = 9;

/// Fee of a loan: `amount * fee_bps / 10_000`, rounded up.
pub open spec fn spec_fee(amount: i128, fee_bps: i128) -> int {
    (amount * fee_bps + 9_999) / 10_000
}

/// What the first step of a loan fixed, for the second to check.
#[derive(Copy, Clone, Debug, PartialEq, Eq, Structural)]
pub struct LoanTerms {
    pub token: Address,
    pub amount: i128,
    pub fee: i128,
    pub balance_before: i128,
}

/// Storage of the flash-loan provider.
pub struct FlashLoanProviderContract {
    pub admin: Option<Address>,
    pub fee_bps: i128,
    /// Fees collected per token, not yet withdrawn.
    pub fees_collected: HashMap<Address, i128>,
    /// Loan volume per token.
    pub total_volume: HashMap<Address, i128>,
    /// Held while a loan is in flight.
    pub locked: bool,
}

impl FlashLoanProviderContract {
    pub open spec fn fees_of(&self, token: Address) -> i128 {
        map_get_or(self.fees_collected@, token, 0i128)
    }

    pub open spec fn volume_of(&self, token: Address) -> i128 {
        map_get_or(self.total_volume@, token, 0i128)
    }

    /// Fresh, uninitialised storage.
    pub fn new() -> (c: Self)
        ensures
            c.admin is None,
            c.fee_bps == DEFAULT_FEE_BPS,
            c.fees_collected@ == Map::<Address, i128>::empty(),
            c.total_volume@ == Map::<Address, i128>::empty(),
            !c.locked,
    {
        FlashLoanProviderContract {
            admin: None,
            fee_bps: DEFAULT_FEE_BPS,
            fees_collected: HashMap::new(),
            total_volume: HashMap::new(),
            locked: false,
        }
    }

    pub fn initialize(&mut self, admin: Address, fee_bps: i128) -> (r: Result<(), FlashLoanError>)
        ensures
            r == (if old(self).admin is Some {
                Err(FlashLoanError::AlreadyInitialized)
            } else if fee_bps < 0 || fee_bps > MAX_FEE_BPS {
                Err(FlashLoanError::InvalidFee)
            } else {
                Ok(())
            }),
            r is Err ==> *final(self) == *old(self),
            r is Ok ==> *final(self) == (FlashLoanProviderContract { admin: Some(admin), fee_bps, ..*old(self) }),
    {
        if self.admin.is_some() {
            return Err(FlashLoanError::AlreadyInitialized);
        }
        if fee_bps < 0 || fee_bps > MAX_FEE_BPS {
            return Err(FlashLoanError::InvalidFee);
        }
        self.admin = Some(admin);
        self.fee_bps = fee_bps;
        Ok(())
    }

    /// Accept `amount` of `token` as liquidity (the host moves the tokens).
    pub fn provide_liquidity(&self, provider: Address, token: Address, amount: i128) -> (r: Result<(), FlashLoanError>)
        ensures
            r == (if amount <= 0 { Err::<(), FlashLoanError>(FlashLoanError::InvalidAmount) } else { Ok(()) }),
            amount > 0 ==> r is Ok,
    {
        if amount <= 0 {
            return Err(FlashLoanError::InvalidAmount);
        }
        Ok(())
    }

    /// First step of a loan of `amount` of `token`, given the provider's
    /// balance of `token` before the loan. Takes the lock and returns the
    /// terms to lend on.
    pub fn flash_loan_begin(&mut self, token: Address, amount: i128, balance_before: i128) -> (r: Result<LoanTerms, FlashLoanError>)
        requires
            0 <= old(self).fee_bps <= MAX_FEE_BPS,
            amount > 0 ==> amount * old(self).fee_bps + 9_999 <= i128::MAX
                && amount + spec_fee(amount, old(self).fee_bps) <= i128::MAX,
        ensures
            r == (if old(self).admin is None {
                Err(FlashLoanError::NotInitialized)
            } else if amount <= 0 {
                Err(FlashLoanError::InvalidAmount)
            } else if balance_before < amount {
                Err(FlashLoanError::InsufficientLiquidity)
            } else if old(self).locked {
                Err(FlashLoanError::Reentrant)
            } else {
                Ok(LoanTerms {
                    token,
                    amount,
                    fee: spec_fee(amount, old(self).fee_bps) as i128,
                    balance_before,
                })
            }),
            r is Err ==> *final(self) == *old(self),
            r is Ok ==> *final(self) == (FlashLoanProviderContract { locked: true, ..*old(self) }),
    {
        if self.admin.is_none() {
            return Err(FlashLoanError::NotInitialized);
        }
        if amount <= 0 {
            return Err(FlashLoanError::InvalidAmount);
        }
        if balance_before < amount {
            return Err(FlashLoanError::InsufficientLiquidity);
        }
        if self.locked {
            return Err(FlashLoanError::Reentrant);
        }
        let fee = ((amount * self.fee_bps) + 9_999) / 10_000;
        self.locked = true;
        Ok(LoanTerms { token, amount, fee, balance_before })
    }

    /// Second step: given the provider's balance after the receiver ran,
    /// checks the repayment, releases the lock and books the loan. Returns
    /// the fee. A refused repayment also releases the lock and books
    /// nothing, so the provider is left as it was before the first step.
    pub fn flash_loan_end(&mut self, terms: LoanTerms, balance_after: i128) -> (r: Result<i128, FlashLoanError>)
        requires
            i128::MIN <= terms.balance_before + terms.fee <= i128::MAX,
            balance_after >= terms.balance_before + terms.fee ==> {
                &&& i128::MIN <= old(self).fees_of(terms.token) + terms.fee <= i128::MAX
                &&& i128::MIN <= old(self).volume_of(terms.token) + terms.amount <= i128::MAX
            },
        ensures
            r == (if balance_after < terms.balance_before + terms.fee {
                Err(FlashLoanError::LoanNotRepaid)
            } else {
                Ok(terms.fee)
            }),
            r is Err ==> *final(self) == (FlashLoanProviderContract { locked: false, ..*old(self) }),
            r is Ok ==> {
                &&& *final(self) == (FlashLoanProviderContract {
                    locked: false,
                    fees_collected: final(self).fees_collected,
                    total_volume: final(self).total_volume,
                    ..*old(self)
                })
                &&& final(self).fees_collected@ == old(self).fees_collected@.insert(
                    terms.token, (old(self).fees_of(terms.token) + terms.fee) as i128)
                &&& final(self).total_volume@ == old(self).total_volume@.insert(
                    terms.token, (old(self).volume_of(terms.token) + terms.amount) as i128)
            },
    {
        self.locked = false;
        if balance_after < terms.balance_before + terms.fee {
            return Err(FlashLoanError::LoanNotRepaid);
        }
        let prev_fees = get_or(&self.fees_collected, &terms.token, 0i128);
        self.fees_collected.insert(terms.token, prev_fees + terms.fee);
        let prev_vol = get_or(&self.total_volume, &terms.token, 0i128);
        self.total_volume.insert(terms.token, prev_vol + terms.amount);
        Ok(terms.fee)
    }

    fn assert_admin(&self, caller: Address) -> (r: Result<(), FlashLoanError>)
        ensures
            r == (match self.admin {
                None => Err(FlashLoanError::NotInitialized),
                Some(a) => if a == caller { Ok(()) } else { Err(FlashLoanError::Unauthorized) },
            }),
    {
        match self.admin {
            None => Err(FlashLoanError::NotInitialized),
            Some(a) => if a == caller { Ok(()) } else { Err(FlashLoanError::Unauthorized) },
        }
    }

    /// Update the protocol fee. Only admin.
    pub fn set_fee_bps(&mut self, caller: Address, fee_bps: i128) -> (r: Result<(), FlashLoanError>)
        ensures
            r == (match old(self).admin {
                None => Err(FlashLoanError::NotInitialized),
                Some(a) => if a != caller {
                    Err(FlashLoanError::Unauthorized)
                } else if fee_bps < 0 || fee_bps > MAX_FEE_BPS {
                    Err(FlashLoanError::InvalidFee)
                } else {
                    Ok(())
                },
            }),
            r is Err ==> *final(self) == *old(self),
            r is Ok ==> *final(self) == (FlashLoanProviderContract { fee_bps, ..*old(self) }),
    {
        self.assert_admin(caller)?;
        if fee_bps < 0 || fee_bps > MAX_FEE_BPS {
            return Err(FlashLoanError::InvalidFee);
        }
        self.fee_bps = fee_bps;
        Ok(())
    }

    /// Withdraw the fees collected in `token`. Only admin. Returns the
    /// amount to send (nothing when no fee is held).
    pub fn withdraw_fees(&mut self, caller: Address, token: Address) -> (r: Result<i128, FlashLoanError>)
        ensures
            r == (match old(self).admin {
                None => Err(FlashLoanError::NotInitialized),
                Some(a) => if a != caller {
                    Err(FlashLoanError::Unauthorized)
                } else if old(self).fees_of(token) > 0 {
                    Ok(old(self).fees_of(token))
                } else {
                    Ok(0i128)
                },
            }),
            r is Err ==> *final(self) == *old(self),
            r matches Ok(v) ==> if v > 0 {
                *final(self) == (FlashLoanProviderContract { fees_collected: final(self).fees_collected, ..*old(self) })
                    && final(self).fees_collected@ == old(self).fees_collected@.insert(token, 0i128)
            } else {
                *final(self) == *old(self)
            },
    {
        self.assert_admin(caller)?;
        let fees = get_or(&self.fees_collected, &token, 0i128);
        if fees > 0 {
            self.fees_collected.insert(token, 0i128);
            return Ok(fees);
        }
        Ok(0)
    }

    pub fn get_fee_bps(&self) -> (r: i128)
        ensures
            r == self.fee_bps,
    {
        self.fee_bps
    }

    pub fn get_fees_collected(&self, token: Address) -> (r: i128)
        ensures
            r == self.fees_of(token),
    {
        get_or(&self.fees_collected, &token, 0i128)
    }

    pub fn get_total_volume(&self, token: Address) -> (r: i128)
        ensures
            r == self.volume_of(token),
    {
        get_or(&self.total_volume, &token, 0i128)
    }
}

proof fn lemma_ceil_div(n: int)
    requires
        n >= 0,
    ensures
        (n + 9_999) / 10_000 * 10_000 >= n,
        (n + 9_999) / 10_000 * 10_000 < n + 10_000,
        n >= 1 ==> (n + 9_999) / 10_000 >= 1,
{
    assert((n + 9_999) / 10_000 * 10_000 >= n) by (nonlinear_arith)
        requires
            n >= 0,
    ;
    assert((n + 9_999) / 10_000 * 10_000 < n + 10_000) by (nonlinear_arith)
        requires
            n >= 0,
    ;
    assert(n >= 1 ==> (n + 9_999) / 10_000 >= 1) by (nonlinear_arith)
        requires
            n >= 0,
    ;
}

/// The fee of a loan is the rate rounded up: positive for any loan under a
/// positive rate, and never more than one unit above `amount * fee_bps /
/// 10 000`, so at most 5 % plus one under the largest rate.
pub proof fn lemma_fee_bounds(amount: i128, fee_bps: i128)
    requires
        amount > 0,
        0 <= fee_bps <= MAX_FEE_BPS,
    ensures
        spec_fee(amount, fee_bps) * 10_000 >= amount * fee_bps,
        spec_fee(amount, fee_bps) * 10_000 < amount * fee_bps + 10_000,
        fee_bps > 0 ==> spec_fee(amount, fee_bps) >= 1,
        spec_fee(amount, fee_bps) * 10_000 < amount * 500 + 10_000,
{
    assert(amount * fee_bps >= 0) by (nonlinear_arith)
        requires
            amount > 0,
            fee_bps >= 0,
    ;
    assert(amount * fee_bps <= amount * 500) by (nonlinear_arith)
        requires
            amount > 0,
            0 <= fee_bps <= 500,
    ;
    assert(fee_bps > 0 ==> amount * fee_bps >= 1) by (nonlinear_arith)
        requires
            amount > 0,
            fee_bps >= 0,
    ;
    lemma_ceil_div(amount * fee_bps);
}

/// A refused repayment rolls the loan back: when the first step took the
/// lock on an unlocked provider and the second step refused, the provider is
/// exactly as it was before the loan began.
pub proof fn lemma_refused_loan_rolls_back(
    before: FlashLoanProviderContract,
    during: FlashLoanProviderContract,
    after: FlashLoanProviderContract,
)
    requires
        !before.locked,
        during == (FlashLoanProviderContract { locked: true, ..before }),
        after == (FlashLoanProviderContract { locked: false, ..during }),
    ensures
        after == before,
{
}

} // verus!
