use vstd::prelude::*;

use crate::account::{AccountAddress, BYTE_ONES};

verus! {

/// Why a transaction is rejected.
#[derive(Clone, Copy, Debug, PartialEq, Eq, Structural)]
pub enum StatusCode {
    InvalidSignature,
    SendingAccountDoesNotExist,
    InsufficientBalanceForTransactionFee,
    SequenceNumberTooNew,
    SequenceNumberTooOld,
    TransactionExpired,
    InvalidAuthKey,
}

/// The status that the mock reports for a sender whose sixteen address bytes
/// all equal `b`, for the first seven such addresses.
pub open spec fn status_for_byte(b: u8) -> Option<StatusCode> {
    if b == 0 {
        Some(StatusCode::SendingAccountDoesNotExist)
    } else if b == 1 {
        Some(StatusCode::InvalidSignature)
    } else if b == 2 {
        Some(StatusCode::InsufficientBalanceForTransactionFee)
    } else if b == 3 {
        Some(StatusCode::SequenceNumberTooNew)
    } else if b == 4 {
        Some(StatusCode::SequenceNumberTooOld)
    } else if b == 5 {
        Some(StatusCode::TransactionExpired)
    } else if b == 6 {
        Some(StatusCode::InvalidAuthKey)
    } else {
        None
    }
}

/// The status that the mock reports for a transaction from `sender`: a bad
/// signature, or the status of an address whose bytes are all one of the first
/// seven byte values.
pub open spec fn mock_status(sender: AccountAddress, signature_valid: bool) -> Option<StatusCode> {
    if !signature_valid {
        Some(StatusCode::InvalidSignature)
    } else if sender.0 % BYTE_ONES == 0 && sender.0 / BYTE_ONES < 7 {
        status_for_byte((sender.0 / BYTE_ONES) as u8)
    } else {
        None
    }
}

/// A transaction validator for tests: the sender's address alone decides the
/// outcome, so that each rejection can be provoked on purpose.
#[derive(Clone, Copy, Debug)]
pub struct MockVMValidator;

impl MockVMValidator {
    /// The rejection for a transaction from `sender` whose signature did or did
    /// not check out; `None` accepts it.
    pub fn validate_transaction(&self, sender: AccountAddress, signature_valid: bool) -> (r:
        Option<StatusCode>)
        ensures
            r == mock_status(sender, signature_valid),
    {
        if !signature_valid {
            return Some(StatusCode::InvalidSignature);
        }
        if sender.0 % BYTE_ONES == 0 && sender.0 / BYTE_ONES < 7 {
            return status_of((sender.0 / BYTE_ONES) as u8);
        }
        None
    }
}

fn status_of(b: u8) -> (r: Option<StatusCode>)
    ensures
        r == status_for_byte(b),
{
    if b == 0 {
        Some(StatusCode::SendingAccountDoesNotExist)
    } else if b == 1 {
        Some(StatusCode::InvalidSignature)
    } else if b == 2 {
        Some(StatusCode::InsufficientBalanceForTransactionFee)
    } else if b == 3 {
        Some(StatusCode::SequenceNumberTooNew)
    } else if b == 4 {
        Some(StatusCode::SequenceNumberTooOld)
    } else if b == 5 {
        Some(StatusCode::TransactionExpired)
    } else if b == 6 {
        Some(StatusCode::InvalidAuthKey)
    } else {
        None
    }
}

} // verus!
