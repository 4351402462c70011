use vstd::prelude::*;

verus! {

/// The errors that the staking program reports.
#[derive(Clone, Copy, Debug, PartialEq, Eq, Structural)]
pub enum StakeError {
    MaxStakeReached,
    FreezePeriodNotElapsed,
    NothingToClaim,
    Overflow,
}

impl StakeError {
    /// The message shown to the user for this error.
    pub fn message(&self) -> (m: &'static str)
        ensures
            *self == StakeError::MaxStakeReached ==> m@
                == "User has reached the maximum number of staked assets"@,
            *self == StakeError::FreezePeriodNotElapsed ==> m@
                == "The freeze period has not elapsed yet"@,
            *self == StakeError::NothingToClaim ==> m@ == "There are no reward points to claim"@,
            *self == StakeError::Overflow ==> m@ == "Arithmetic overflow"@,
    {
        match self {
            StakeError::MaxStakeReached => "User has reached the maximum number of staked assets",
            StakeError::FreezePeriodNotElapsed => "The freeze period has not elapsed yet",
            StakeError::NothingToClaim => "There are no reward points to claim",
            StakeError::Overflow => "Arithmetic overflow",
        }
    }
}

} // verus!
