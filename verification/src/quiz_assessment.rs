//! Teaching stub of on-ledger quiz answers: every submitted answer hash is
//! accepted.
use vstd::prelude::*;
use crate::common::Address;

verus! {

/// The quiz; it keeps no state.
pub struct QuizAssessmentContract;

impl QuizAssessmentContract {
    /// Submit an answer hash; the submission is always reported verified.
    pub fn submit_answer(student: Address, answer_hash: [u8; 32]) -> (r: bool)
        ensures
            r,
    {
        true
    }
}

} // verus!
