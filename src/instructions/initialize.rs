use vstd::prelude::*;
use crate::common::ErrorCode;
use crate::registry::NftContest;
use crate::state::{Counter, PrincipalId};

verus! {

/// A request to set up the contest counter.
#[derive(Clone, Copy, Debug, PartialEq, Eq, Structural)]
pub struct Initialize {
    pub program_owner: PrincipalId,
}

/// The counter can be set up once.
pub open spec fn initialize_result(s: NftContest) -> Result<(), ErrorCode> {
    if s.counter.is_initialized {
        Err(ErrorCode::CounterAlreadyInitialized)
    } else {
        Ok(())
    }
}

/// Initializes the counter at zero contests.
pub fn handler(state: &mut NftContest, ctx: Initialize) -> (r: Result<(), ErrorCode>)
    requires
        old(state).wf(),
    ensures
        final(state).wf(),
        r == initialize_result(*old(state)),
        r is Ok ==> final(state).counter == (Counter { is_initialized: true, contest_count: 0 })
            && final(state).contests == old(state).contests,
        r is Err ==> *final(state) == *old(state),
{
    if state.counter.is_initialized {
        return Err(ErrorCode::CounterAlreadyInitialized);
    }
    state.counter = Counter { is_initialized: true, contest_count: 0 };
    Ok(())
}

} // verus!
