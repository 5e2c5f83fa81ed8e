use vstd::prelude::*;
use crate::errors::MinKycError;

verus! {

/// The number of identities that one owner has created so far, which is also
/// the index that the owner's next identity gets.
#[derive(Clone, Copy, Debug, PartialEq, Eq, Structural)]
pub struct IdentityCounter {
    /// The next unused index.
    pub count: u64,
}

impl IdentityCounter {
    /// The counter of an owner that has created no identity yet.
    pub fn new() -> (counter: IdentityCounter)
        ensures
            counter.count == 0,
    {
        IdentityCounter { count: 0 }
    }

    /// Hands out the next index and moves the counter on by one.
    ///
    /// At the maximum the counter stays as it is and the call is refused: an
    /// index is never handed out twice.
    pub fn advance(&mut self) -> (assigned: Result<u64, MinKycError>)
        ensures
            old(self).count < u64::MAX ==> assigned == Ok::<u64, MinKycError>(old(self).count)
                && final(self).count == old(self).count + 1,
            old(self).count == u64::MAX ==> assigned == Err::<u64, MinKycError>(
                MinKycError::CounterOverflow,
            ) && *final(self) == *old(self),
    {
        match self.count.checked_add(1) {
            Some(next) => {
                let assigned = self.count;
                self.count = next;
                Ok(assigned)
            },
            None => Err(MinKycError::CounterOverflow),
        }
    }
}

} // verus!
