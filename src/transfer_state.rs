use std::sync::Arc;
use vstd::prelude::*;

verus! {

#[verifier::external_type_specification]
#[verifier::external_body]
#[verifier::reject_recursive_types(T)]
pub struct ExMutex<T: ?Sized>(tokio::sync::Mutex<T>);

/// Relies on tokio's `Mutex::new`, which makes an unlocked lock around the
/// given mode. The lock is opaque here: nothing is stated of it.
#[verifier::external_body]
fn new_lock(mode: TransferStates) -> tokio::sync::Mutex<TransferStates> {
    tokio::sync::Mutex::new(mode)
}

/// The execution-control mode of one transfer.
#[derive(Debug, Clone, Copy, PartialEq, Eq, Structural)]
pub enum TransferStates {
    Normal,
    Cancel,
    Pause,
}

/// The transition rule of the control cell: a pause request toggles between
/// `Normal` and `Pause`, a cancel request always leads to `Cancel`, and
/// `Cancel` is never left.
pub open spec fn next_state(s: TransferStates, cancel: bool) -> TransferStates {
    match s {
        TransferStates::Cancel => TransferStates::Cancel,
        TransferStates::Normal => if cancel { TransferStates::Cancel } else { TransferStates::Pause },
        TransferStates::Pause => if cancel { TransferStates::Cancel } else { TransferStates::Normal },
    }
}

impl TransferStates {
    /// The mode that follows `self` after a pause (`cancel == false`) or a
    /// cancel (`cancel == true`) request.
    pub fn swap(&self, cancel: bool) -> (r: TransferStates)
        ensures
            r == next_state(*self, cancel),
    {
        match self {
            TransferStates::Normal => {
                if cancel {
                    TransferStates::Cancel
                } else {
                    TransferStates::Pause
                }
            },
            TransferStates::Cancel => TransferStates::Cancel,
            TransferStates::Pause => {
                if cancel {
                    TransferStates::Cancel
                } else {
                    TransferStates::Normal
                }
            },
        }
    }
}

impl Default for TransferStates {
    fn default() -> (r: TransferStates)
        ensures
            r == TransferStates::Normal,
    {
        TransferStates::Normal
    }
}

/// The mode after a sequence of requests applied in order, each `true` for a
/// cancel request and `false` for a pause request.
pub open spec fn after_requests(s: TransferStates, requests: Seq<bool>) -> TransferStates
    decreases requests.len(),
{
    if requests.len() == 0 {
        s
    } else {
        after_requests(next_state(s, requests[0]), requests.drop_first())
    }
}

/// Once cancelled, a transfer stays cancelled whatever requests follow.
pub proof fn lemma_cancel_is_final(requests: Seq<bool>)
    ensures
        after_requests(TransferStates::Cancel, requests) == TransferStates::Cancel,
    decreases requests.len(),
{
    if requests.len() > 0 {
        lemma_cancel_is_final(requests.drop_first());
    }
}

/// Two pause requests in a row bring a transfer that is not cancelled back
/// to the mode it had.
pub proof fn lemma_pause_twice_restores(s: TransferStates)
    requires
        s != TransferStates::Cancel,
    ensures
        next_state(next_state(s, false), false) == s,
{
}

/// A cancel request leads to `Cancel` from every mode.
pub proof fn lemma_cancel_always_cancels(s: TransferStates)
    ensures
        next_state(s, true) == TransferStates::Cancel,
{
}

/// The control cell of one transfer: a shared handle to a lock around its
/// mode. Clones share the one mode; the lock is taken by the party that runs
/// the transfer and by the party that pauses or cancels it.
#[derive(Debug, Clone, Default)]
pub struct TransferState {
    pub inner: Arc<tokio::sync::Mutex<TransferStates>>,
}

impl TransferState {
    /// A fresh cell, in mode `Normal`, shared with no other handle.
    pub fn new() -> (r: TransferState) {
        TransferState { inner: Arc::new(new_lock(TransferStates::Normal)) }
    }
}

} // verus!
