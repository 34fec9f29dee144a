//! Teaching stub of a constant-product pool: a swap returns its input and
//! the exchange rate is fixed at 100.
use vstd::prelude::*;
use crate::common::Address;

verus! {

/// The pool; it keeps no state.
pub struct ConstantProductPoolContract;

impl ConstantProductPoolContract {
    /// Swap `amount_in`; the amount out equals the amount in.
    pub fn swap(from: Address, to: Address, amount_in: i128) -> (r: i128)
        ensures
            r == amount_in,
    {
        amount_in
    }

    /// The exchange rate: always 100.
    pub fn get_exchange_rate() -> (r: i128)
        ensures
            r == 100,
    {
        100
    }
}

} // verus!
