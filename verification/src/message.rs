//! What a vault reacts to: the user's choices, the reports of the signing
//! device, and the daemon's answers.
use crate::error::RevaultDError;
use crate::model::{RevocationTransactions, UnvaultTransaction, VaultTransactions};
use crate::sign::SignMessage;
use vstd::prelude::*;

verus! {

/// A message to one vault.
#[derive(Debug, PartialEq)]
pub enum VaultMessage {
    /// The user asks for the on-chain history.
    ListOnchainTransaction,
    /// The daemon's answer to a request for the on-chain history.
    OnChainTransactions(Result<VaultTransactions, RevaultDError>),
    /// The user wants to delegate the vault.
    SelectDelegate,
    /// The daemon's answer to a request for the delegation transaction.
    UnvaultTransaction(Result<UnvaultTransaction, RevaultDError>),
    /// The user wants to secure the vault.
    SelectSecure,
    /// The daemon's answer to a request for the securing transactions.
    RevocationTransactions(Result<RevocationTransactions, RevaultDError>),
    /// The user wants to cancel the unvaulting.
    SelectRevault,
    /// The signing device reports on the delegation transaction.
    Delegate(SignMessage),
    /// The daemon's answer to the signed delegation transaction.
    Delegated(Result<(), RevaultDError>),
    /// The signing device reports on one of the securing transactions.
    Secure(SignMessage),
    /// The daemon's answer to the securing transactions.
    Secured(Result<(), RevaultDError>),
    /// The user confirms the cancellation.
    Revault,
    /// The daemon's answer to the cancellation.
    Revaulted(Result<(), RevaultDError>),
}

} // verus!
