//! Teaching stub of a gas sponsor for classroom labs: sponsoring needs only
//! the student's authorization and records nothing.
use vstd::prelude::*;
use crate::common::Address;

verus! {

/// The sponsor; it keeps no state.
pub struct ClassroomPaymasterContract;

impl ClassroomPaymasterContract {
    /// Sponsor a student's transaction; nothing is recorded.
    pub fn sponsor_gas(student: Address) {
    }
}

} // verus!
