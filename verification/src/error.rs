//! The failure taxonomy of the pool.
//!
//! Every operation aborts as a whole and surfaces one of these typed
//! failures; there is no partial success and no internal retry.

use vstd::prelude::*;

verus! {

/// Why a pool operation was refused or aborted.
#[derive(Clone, Copy, Debug, PartialEq, Eq, Structural)]
pub enum ErrorCode {
    /// Redemption was attempted before the lock end timestamp.
    NotExceedLockEndDate,
    /// The bump seed handed to `initialize` does not match the derived one.
    IncorrectStakingAccountBump,
    /// A deposit or redemption was attempted while the pool is frozen.
    ProgramIsFrozen,
    /// The caller of an administrative operation is not the administrator.
    Forbidden,
    /// A redemption asked for more shares than the participant owns.
    NotEnoughShares,
    /// A checked addition, multiplication, division or narrowing failed.
    ArithmeticOverflow,
    /// A checked subtraction went below zero.
    ArithmeticUnderflow,
    /// The external vault rejected the asset transfer. The core never
    /// produces this value itself; the hosting environment maps a failed
    /// transfer to it before discarding the staged records.
    TransferFailure,
}

} // verus!
