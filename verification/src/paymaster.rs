//! Gas sponsorship: sponsors deposit a balance that pays for the gas of
//! allowlisted wallets, under a per-operation maximum and a per-wallet daily cap.
use std::collections::HashMap;
use vstd::prelude::*;
use crate::common::{Address, get_or, map_get_or, pair_key, spec_pair_key};

verus! {

broadcast use vstd::std_specs::hash::group_hash_axioms;

/// Reasons for which the paymaster refuses a call.
#[derive(Copy, Clone, Debug, PartialEq, Eq, Structural)]
pub enum PaymasterError {
    AlreadyInitialized,
    NotInitialized,
    Unauthorized,
    InsufficientDeposit,
    WalletDailyCapExceeded,
    GasPerOpExceeded,
    WalletNotAllowlisted,
    ZeroDeposit,
    NothingToWithdraw,
}

/// Ledgers per day bucket.
pub const LEDGERS_PER_DAY: u32 = 17_280;

/// Day bucket of a ledger sequence number.
pub open spec fn day_bucket(ledger_seq: u32) -> u32 {
    (ledger_seq / LEDGERS_PER_DAY) as u32
}

/// Storage of the paymaster.
pub struct PaymasterContract {
    pub admin: Option<Address>,
    pub max_gas_per_op: i128,
    pub wallet_daily_cap: i128,
    pub sponsor_balance: HashMap<Address, i128>,
    /// Gas used per `(wallet, day)`, keyed by `pair_key`.
    pub wallet_daily_gas: HashMap<u128, i128>,
    /// Gas paid per `(sponsor, day)`, keyed by `pair_key`.
    pub sponsor_daily_gas: HashMap<u128, i128>,
    pub allowlisted: HashMap<Address, bool>,
}

impl PaymasterContract {
    pub open spec fn balance_of(&self, sponsor: Address) -> i128 {
        map_get_or(self.sponsor_balance@, sponsor, 0i128)
    }

    pub open spec fn allowed(&self, wallet: Address) -> bool {
        map_get_or(self.allowlisted@, wallet, false)
    }

    pub open spec fn wallet_used(&self, wallet: Address, day: u32) -> i128 {
        map_get_or(self.wallet_daily_gas@, spec_pair_key(wallet, day as u64), 0i128)
    }

    pub open spec fn sponsor_used(&self, sponsor: Address, day: u32) -> i128 {
        map_get_or(self.sponsor_daily_gas@, spec_pair_key(sponsor, day as u64), 0i128)
    }

    /// Fresh, uninitialised storage; the limits read as unbounded.
    /// No wallet has been sponsored beyond the daily cap on any day.
    pub open spec fn within_daily_cap(&self) -> bool {
        forall|k: u128| #[trigger] self.wallet_daily_gas@.contains_key(k) ==> self.wallet_daily_gas@[k] <= self.wallet_daily_cap
    }

    pub fn new() -> (c: Self)
        ensures
            c.admin is None,
            c.max_gas_per_op == i128::MAX,
            c.wallet_daily_cap == i128::MAX,
            c.sponsor_balance@ == Map::<Address, i128>::empty(),
            c.wallet_daily_gas@ == Map::<u128, i128>::empty(),
            c.sponsor_daily_gas@ == Map::<u128, i128>::empty(),
            c.allowlisted@ == Map::<Address, bool>::empty(),
    {
        PaymasterContract {
            admin: None,
            max_gas_per_op: i128::MAX,
            wallet_daily_cap: i128::MAX,
            sponsor_balance: HashMap::new(),
            wallet_daily_gas: HashMap::new(),
            sponsor_daily_gas: HashMap::new(),
            allowlisted: HashMap::new(),
        }
    }

    pub fn initialize(&mut self, admin: Address, max_gas_per_op: i128, wallet_daily_cap: i128) -> (r: Result<(), PaymasterError>)
        ensures
            r == (if old(self).admin is Some { Err::<(), PaymasterError>(PaymasterError::AlreadyInitialized) } else { Ok(()) }),
            r is Err ==> *final(self) == *old(self),
            r is Ok ==> *final(self) == (PaymasterContract {
                admin: Some(admin), max_gas_per_op, wallet_daily_cap, ..*old(self) }),
    {
        if self.admin.is_some() {
            return Err(PaymasterError::AlreadyInitialized);
        }
        self.admin = Some(admin);
        self.max_gas_per_op = max_gas_per_op;
        self.wallet_daily_cap = wallet_daily_cap;
        Ok(())
    }

    pub fn deposit(&mut self, sponsor: Address, amount: i128) -> (r: Result<(), PaymasterError>)
        requires
            amount > 0 ==> old(self).balance_of(sponsor) + amount <= i128::MAX,
        ensures
            r == (if amount <= 0 { Err::<(), PaymasterError>(PaymasterError::ZeroDeposit) } else { Ok(()) }),
            r is Err ==> *final(self) == *old(self),
            r is Ok ==> *final(self) == (PaymasterContract {
                sponsor_balance: final(self).sponsor_balance, ..*old(self) })
                && final(self).sponsor_balance@ == old(self).sponsor_balance@.insert(
                    sponsor, (old(self).balance_of(sponsor) + amount) as i128),
    {
        if amount <= 0 {
            return Err(PaymasterError::ZeroDeposit);
        }
        let current = get_or(&self.sponsor_balance, &sponsor, 0i128);
        self.sponsor_balance.insert(sponsor, current + amount);
        Ok(())
    }

    pub fn withdraw(&mut self, sponsor: Address) -> (r: Result<i128, PaymasterError>)
        ensures
            old(self).balance_of(sponsor) == 0 <==> r == Err::<i128, PaymasterError>(PaymasterError::NothingToWithdraw),
            old(self).balance_of(sponsor) != 0 ==> r == Ok::<i128, PaymasterError>(old(self).balance_of(sponsor)),
            r is Err ==> *final(self) == *old(self),
            r is Ok ==> *final(self) == (PaymasterContract {
                sponsor_balance: final(self).sponsor_balance, ..*old(self) })
                && final(self).sponsor_balance@ == old(self).sponsor_balance@.insert(sponsor, 0i128),
    {
        let balance = get_or(&self.sponsor_balance, &sponsor, 0i128);
        if balance == 0 {
            return Err(PaymasterError::NothingToWithdraw);
        }
        self.sponsor_balance.insert(sponsor, 0i128);
        Ok(balance)
    }

    fn assert_admin(&self, caller: Address) -> (r: Result<(), PaymasterError>)
        ensures
            r == (match self.admin {
                None => Err(PaymasterError::NotInitialized),
                Some(a) => if a == caller { Ok(()) } else { Err(PaymasterError::Unauthorized) },
            }),
    {
        match self.admin {
            None => Err(PaymasterError::NotInitialized),
            Some(a) => if a == caller { Ok(()) } else { Err(PaymasterError::Unauthorized) },
        }
    }

    pub fn allowlist_wallet(&mut self, caller: Address, wallet: Address) -> (r: Result<(), PaymasterError>)
        ensures
            r == (match old(self).admin {
                None => Err(PaymasterError::NotInitialized),
                Some(a) => if a == caller { Ok(()) } else { Err(PaymasterError::Unauthorized) },
            }),
            r is Err ==> *final(self) == *old(self),
            r is Ok ==> *final(self) == (PaymasterContract { allowlisted: final(self).allowlisted, ..*old(self) })
                && final(self).allowlisted@ == old(self).allowlisted@.insert(wallet, true),
    {
        self.assert_admin(caller)?;
        self.allowlisted.insert(wallet, true);
        Ok(())
    }

    pub fn remove_allowlist(&mut self, caller: Address, wallet: Address) -> (r: Result<(), PaymasterError>)
        ensures
            r == (match old(self).admin {
                None => Err(PaymasterError::NotInitialized),
                Some(a) => if a == caller { Ok(()) } else { Err(PaymasterError::Unauthorized) },
            }),
            r is Err ==> *final(self) == *old(self),
            r is Ok ==> *final(self) == (PaymasterContract { allowlisted: final(self).allowlisted, ..*old(self) })
                && final(self).allowlisted@ == old(self).allowlisted@.remove(wallet),
    {
        self.assert_admin(caller)?;
        self.allowlisted.remove(&wallet);
        Ok(())
    }

    /// Pay the gas of one operation of `wallet` from `sponsor`'s deposit, at
    /// ledger `ledger_seq`. Returns the cost charged.
    pub fn sponsor_gas(
        &mut self,
        sponsor: Address,
        wallet: Address,
        gas_units: i128,
        gas_price: i128,
        ledger_seq: u32,
    ) -> (r: Result<i128, PaymasterError>)
        requires
            old(self).admin is Some && old(self).allowed(wallet) ==> {
                let cost = gas_units * gas_price;
                let day = day_bucket(ledger_seq);
                let o = old(self);
                &&& i128::MIN <= cost <= i128::MAX
                &&& cost <= o.max_gas_per_op ==> i128::MIN <= o.wallet_used(wallet, day) + cost <= i128::MAX
                &&& cost <= o.max_gas_per_op && o.wallet_used(wallet, day) + cost <= o.wallet_daily_cap
                    && o.balance_of(sponsor) >= cost ==> {
                    &&& i128::MIN <= o.balance_of(sponsor) - cost <= i128::MAX
                    &&& i128::MIN <= o.sponsor_used(sponsor, day) + cost <= i128::MAX
                }
            },
        ensures
            ({
                let cost = gas_units * gas_price;
                let day = day_bucket(ledger_seq);
                let o = old(self);
                r == if o.admin is None {
                    Err(PaymasterError::NotInitialized)
                } else if !o.allowed(wallet) {
                    Err(PaymasterError::WalletNotAllowlisted)
                } else if cost > o.max_gas_per_op {
                    Err(PaymasterError::GasPerOpExceeded)
                } else if o.wallet_used(wallet, day) + cost > o.wallet_daily_cap {
                    Err(PaymasterError::WalletDailyCapExceeded)
                } else if o.balance_of(sponsor) < cost {
                    Err(PaymasterError::InsufficientDeposit)
                } else {
                    Ok(cost as i128)
                }
            }),
            r is Err ==> *final(self) == *old(self),
            r matches Ok(cost) ==> {
                let day = day_bucket(ledger_seq);
                &&& *final(self) == (PaymasterContract {
                    sponsor_balance: final(self).sponsor_balance,
                    wallet_daily_gas: final(self).wallet_daily_gas,
                    sponsor_daily_gas: final(self).sponsor_daily_gas,
                    ..*old(self) })
                &&& final(self).sponsor_balance@ == old(self).sponsor_balance@.insert(
                    sponsor, (old(self).balance_of(sponsor) - cost) as i128)
                &&& final(self).wallet_daily_gas@ == old(self).wallet_daily_gas@.insert(
                    spec_pair_key(wallet, day as u64), (old(self).wallet_used(wallet, day) + cost) as i128)
                &&& final(self).sponsor_daily_gas@ == old(self).sponsor_daily_gas@.insert(
                    spec_pair_key(sponsor, day as u64), (old(self).sponsor_used(sponsor, day) + cost) as i128)
            },
            old(self).within_daily_cap() ==> final(self).within_daily_cap(),
    {
        if self.admin.is_none() {
            return Err(PaymasterError::NotInitialized);
        }
        let allowlisted = get_or(&self.allowlisted, &wallet, false);
        if !allowlisted {
            return Err(PaymasterError::WalletNotAllowlisted);
        }
        let gas_cost = Self::calculate_gas_cost(gas_units, gas_price);
        if gas_cost > self.max_gas_per_op {
            return Err(PaymasterError::GasPerOpExceeded);
        }
        let day = ledger_seq / LEDGERS_PER_DAY;
        let wkey = pair_key(wallet, day as u64);
        let wallet_today = get_or(&self.wallet_daily_gas, &wkey, 0i128);
        if wallet_today + gas_cost > self.wallet_daily_cap {
            return Err(PaymasterError::WalletDailyCapExceeded);
        }
        let balance = get_or(&self.sponsor_balance, &sponsor, 0i128);
        if balance < gas_cost {
            return Err(PaymasterError::InsufficientDeposit);
        }
        self.sponsor_balance.insert(sponsor, balance - gas_cost);
        self.wallet_daily_gas.insert(wkey, wallet_today + gas_cost);
        let skey = pair_key(sponsor, day as u64);
        let sponsor_today = get_or(&self.sponsor_daily_gas, &skey, 0i128);
        self.sponsor_daily_gas.insert(skey, sponsor_today + gas_cost);
        Ok(gas_cost)
    }

    pub fn get_balance(&self, sponsor: Address) -> (r: i128)
        ensures
            r == self.balance_of(sponsor),
    {
        get_or(&self.sponsor_balance, &sponsor, 0i128)
    }

    pub fn is_allowlisted(&self, wallet: Address) -> (r: bool)
        ensures
            r == self.allowed(wallet),
    {
        get_or(&self.allowlisted, &wallet, false)
    }

    /// Estimated cost of `gas_units` at `gas_price`.
    pub fn estimate_gas(gas_units: i128, gas_price: i128) -> (r: i128)
        requires
            i128::MIN <= gas_units * gas_price <= i128::MAX,
        ensures
            r == gas_units * gas_price,
    {
        Self::calculate_gas_cost(gas_units, gas_price)
    }

    /// Gas cost: units times price.
    pub fn calculate_gas_cost(gas_units: i128, gas_price: i128) -> (r: i128)
        requires
            i128::MIN <= gas_units * gas_price <= i128::MAX,
        ensures
            r == gas_units * gas_price,
    {
        gas_units * gas_price
    }
}

} // verus!
