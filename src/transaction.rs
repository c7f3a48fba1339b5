//! How far a sent contract call got, and what that means for the caller.
use vstd::prelude::*;

verus! {

/// Where a contract call ended up once its sender stopped waiting.
#[derive(Clone, Copy, Debug, PartialEq, Eq, Structural)]
pub enum TxStage {
    /// The client or provider refused the transaction before broadcast.
    Rejected,
    /// The transaction was broadcast, but waiting for it failed.
    Unconfirmed,
    /// The transaction left the mempool without being mined.
    Dropped,
    /// The transaction was mined; `status` is the receipt's status code,
    /// absent on chains that predate status codes.
    Included { status: Option<u64> },
}

/// The three ways a contract call fails.
#[derive(Clone, Copy, Debug, PartialEq, Eq, Structural)]
pub enum TxError {
    /// It was never broadcast.
    Submission,
    /// It was broadcast but not mined, or its confirmation could not be had.
    Confirmation,
    /// It was mined and the call reverted.
    Execution,
}

/// The receipt status code of a successful call.
pub const STATUS_SUCCESS: u64 = 1;

/// The result of a call that ended at `stage`.
pub open spec fn stage_result(stage: TxStage) -> Result<(), TxError> {
    match stage {
        TxStage::Rejected => Err(TxError::Submission),
        TxStage::Unconfirmed => Err(TxError::Confirmation),
        TxStage::Dropped => Err(TxError::Confirmation),
        TxStage::Included { status } => match status {
            Some(code) => if code == STATUS_SUCCESS {
                Ok(())
            } else {
                Err(TxError::Execution)
            },
            None => Ok(()),
        },
    }
}

/// Decides the result of a call that ended at `stage`: it succeeded only if it
/// was mined and its receipt does not report a revert.
pub fn settle(stage: TxStage) -> (r: Result<(), TxError>)
    ensures
        r == stage_result(stage),
        r is Ok <==> (stage matches TxStage::Included { status } && (status is None || status
            == Some(STATUS_SUCCESS))),
{
    match stage {
        TxStage::Rejected => Err(TxError::Submission),
        TxStage::Unconfirmed => Err(TxError::Confirmation),
        TxStage::Dropped => Err(TxError::Confirmation),
        TxStage::Included { status } => match status {
            Some(code) => {
                if code == STATUS_SUCCESS {
                    Ok(())
                } else {
                    Err(TxError::Execution)
                }
            },
            None => Ok(()),
        },
    }
}

} // verus!
