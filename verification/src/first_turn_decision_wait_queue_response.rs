use vstd::prelude::*;

verus! {

/// The answer given to a player who asked to join the first-turn decision
/// wait queue.
#[derive(Debug, Clone, Copy, PartialEq, Eq, Structural)]
pub struct FirstTurnDecisionWaitQueueResponse {
    is_success: bool,
}

impl FirstTurnDecisionWaitQueueResponse {
    /// Whether the request succeeded, as a spec value.
    pub closed spec fn spec_is_success(self) -> bool {
        self.is_success
    }

    pub fn new(is_success: bool) -> (response: Self)
        ensures
            response.spec_is_success() == is_success,
    {
        FirstTurnDecisionWaitQueueResponse { is_success }
    }

    pub fn get_is_success(&self) -> (is_success: bool)
        ensures
            is_success == self.spec_is_success(),
    {
        self.is_success
    }
}

} // verus!
