//! The calls that the vault logic asks its caller to make to the daemon.
//!
//! The logic never waits for the daemon. It answers a message with the one
//! request, if any, that the message calls for; whoever runs the logic sends
//! the request and later delivers the outcome as a message of its own.
use crate::model::OutPoint;
use bitcoin::util::psbt::PartiallySignedTransaction as Psbt;
use vstd::prelude::*;

verus! {

/// One call to the daemon. Every call names the vault it is about.
#[derive(Debug, Clone, PartialEq)]
pub enum DaemonRequest {
    /// Fetch the on-chain history of the vault.
    GetOnchainTxs { outpoint: OutPoint },
    /// Fetch the unsigned transaction that delegates the vault.
    GetUnvaultTx { outpoint: OutPoint },
    /// Fetch the three unsigned transactions that secure the vault.
    GetRevocationTxs { outpoint: OutPoint },
    /// Hand in the signed delegation transaction.
    SetUnvaultTx { outpoint: OutPoint, unvault_tx: Psbt },
    /// Hand in the three securing transactions, in one call.
    SetRevocationTxs {
        outpoint: OutPoint,
        emergency_tx: Psbt,
        emergency_unvault_tx: Psbt,
        cancel_tx: Psbt,
    },
    /// Cancel the unvaulting that is under way.
    Revault { outpoint: OutPoint },
}

impl DaemonRequest {
    /// The vault that the call is about.
    pub open spec fn spec_outpoint(&self) -> OutPoint {
        match self {
            DaemonRequest::GetOnchainTxs { outpoint } => *outpoint,
            DaemonRequest::GetUnvaultTx { outpoint } => *outpoint,
            DaemonRequest::GetRevocationTxs { outpoint } => *outpoint,
            DaemonRequest::SetUnvaultTx { outpoint, .. } => *outpoint,
            DaemonRequest::SetRevocationTxs { outpoint, .. } => *outpoint,
            DaemonRequest::Revault { outpoint } => *outpoint,
        }
    }

    /// The vault that the call is about.
    pub fn outpoint(&self) -> (outpoint: &OutPoint)
        ensures
            *outpoint == self.spec_outpoint(),
    {
        match self {
            DaemonRequest::GetOnchainTxs { outpoint } => outpoint,
            DaemonRequest::GetUnvaultTx { outpoint } => outpoint,
            DaemonRequest::GetRevocationTxs { outpoint } => outpoint,
            DaemonRequest::SetUnvaultTx { outpoint, .. } => outpoint,
            DaemonRequest::SetRevocationTxs { outpoint, .. } => outpoint,
            DaemonRequest::Revault { outpoint } => outpoint,
        }
    }
}

} // verus!
