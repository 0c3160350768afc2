//! The error taxonomy of the vault lifecycle.

use vstd::prelude::*;

verus! {

/// Every way a lifecycle operation can refuse to act.
///
/// Input errors reject a request before any state is read, state errors
/// reject it against the vault's current condition, arithmetic errors signal
/// an addition that would leave the numeric range, and external errors
/// surface a failed value transfer performed by the host.
#[derive(Clone, Copy, Debug, PartialEq, Eq, Structural)]
pub enum TimeLockError {
    /// The requested unlock time is not in the future.
    InvalidTimestamp,
    /// A deposit of zero was requested.
    InvalidAmount,
    /// The operation does not match the vault's asset kind.
    InvalidAssetType,
    /// The vault does not exist or was never initialized.
    NotInitialized,
    /// Withdrawal or forced closure was requested before its time.
    TimeLockNotExpired,
    /// Withdrawal was requested from an empty vault.
    InsufficientBalance,
    /// Closure was requested while funds remain.
    AccountNotEmpty,
    /// Another operation on the same vault is still in flight.
    OperationInProgress,
    /// Crediting the deposit would overflow the balance.
    ArithmeticOverflow,
    /// The host reported that the value transfer failed.
    TransferFailed,
}

/// The four groups of the error taxonomy.
#[derive(Clone, Copy, Debug, PartialEq, Eq, Structural)]
pub enum ErrorKind {
    Input,
    State,
    Arithmetic,
    External,
}

impl TimeLockError {
    /// The taxonomy group of each error.
    pub open spec fn kind_spec(self) -> ErrorKind {
        match self {
            TimeLockError::InvalidTimestamp => ErrorKind::Input,
            TimeLockError::InvalidAmount => ErrorKind::Input,
            TimeLockError::InvalidAssetType => ErrorKind::Input,
            TimeLockError::NotInitialized => ErrorKind::State,
            TimeLockError::TimeLockNotExpired => ErrorKind::State,
            TimeLockError::InsufficientBalance => ErrorKind::State,
            TimeLockError::AccountNotEmpty => ErrorKind::State,
            TimeLockError::OperationInProgress => ErrorKind::State,
            TimeLockError::ArithmeticOverflow => ErrorKind::Arithmetic,
            TimeLockError::TransferFailed => ErrorKind::External,
        }
    }

    /// Reports which group of the taxonomy this error belongs to.
    pub fn kind(&self) -> (k: ErrorKind)
        ensures
            k == self.kind_spec(),
    {
        match self {
            TimeLockError::InvalidTimestamp => ErrorKind::Input,
            TimeLockError::InvalidAmount => ErrorKind::Input,
            TimeLockError::InvalidAssetType => ErrorKind::Input,
            TimeLockError::NotInitialized => ErrorKind::State,
            TimeLockError::TimeLockNotExpired => ErrorKind::State,
            TimeLockError::InsufficientBalance => ErrorKind::State,
            TimeLockError::AccountNotEmpty => ErrorKind::State,
            TimeLockError::OperationInProgress => ErrorKind::State,
            TimeLockError::ArithmeticOverflow => ErrorKind::Arithmetic,
            TimeLockError::TransferFailed => ErrorKind::External,
        }
    }

    /// The stable numeric code of each error: timing codes in the 1000s,
    /// balance codes in the 1100s, asset codes in the 1200s, reentrancy in
    /// the 1400s, state in the 1500s, and system codes in the 1600s.
    pub open spec fn code_spec(self) -> u32 {
        match self {
            TimeLockError::TimeLockNotExpired => 1001,
            TimeLockError::InvalidTimestamp => 1002,
            TimeLockError::InsufficientBalance => 1101,
            TimeLockError::InvalidAmount => 1102,
            TimeLockError::AccountNotEmpty => 1103,
            TimeLockError::InvalidAssetType => 1201,
            TimeLockError::OperationInProgress => 1401,
            TimeLockError::NotInitialized => 1501,
            TimeLockError::ArithmeticOverflow => 1601,
            TimeLockError::TransferFailed => 1602,
        }
    }

    /// Reports the stable numeric code of this error, for logs and clients.
    pub fn code(&self) -> (c: u32)
        ensures
            c == self.code_spec(),
    {
        match self {
            TimeLockError::TimeLockNotExpired => 1001,
            TimeLockError::InvalidTimestamp => 1002,
            TimeLockError::InsufficientBalance => 1101,
            TimeLockError::InvalidAmount => 1102,
            TimeLockError::AccountNotEmpty => 1103,
            TimeLockError::InvalidAssetType => 1201,
            TimeLockError::OperationInProgress => 1401,
            TimeLockError::NotInitialized => 1501,
            TimeLockError::ArithmeticOverflow => 1601,
            TimeLockError::TransferFailed => 1602,
        }
    }
}

} // verus!
