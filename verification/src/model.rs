//! What the daemon reports about a vault, cached by the client.
use crate::decimal::{decimal, u64_to_decimal};
use bitcoin::util::psbt::PartiallySignedTransaction as Psbt;
use vstd::prelude::*;
use vstd::string::StringExecFns;

verus! {

/// `bitcoin::util::psbt::PartiallySignedTransaction`, a transaction on its
/// way to being fully signed. The library never looks inside one: it stores,
/// copies and hands over the values it was given.
#[verifier::external_type_specification]
#[verifier::external_body]
pub struct ExPartiallySignedTransaction(bitcoin::util::psbt::PartiallySignedTransaction);

/// `bitcoin::Transaction`, a transaction as it went to the network. The
/// library only carries it.
#[verifier::external_type_specification]
#[verifier::external_body]
pub struct ExTransaction(bitcoin::Transaction);

/// `Clone::clone` of `bitcoin::util::psbt::PartiallySignedTransaction`, which
/// the crate derives: the copy is equal to the value it was made from.
pub assume_specification[ <bitcoin::util::psbt::PartiallySignedTransaction as Clone>::clone ](
    tx: &bitcoin::util::psbt::PartiallySignedTransaction,
) -> (copy: bitcoin::util::psbt::PartiallySignedTransaction)
    ensures
        copy == *tx,
;

/// Where a vault stands in its life, as the daemon names it.
#[derive(Debug, Clone, Copy, PartialEq, Eq, Structural)]
pub enum VaultStatus {
    Unconfirmed,
    Funded,
    Securing,
    Secured,
    Activating,
    Active,
    Unvaulting,
    Unvaulted,
    Canceling,
    Canceled,
    EmergencyVaulting,
    EmergencyVaulted,
    UnvaultEmergencyVaulting,
    UnvaultEmergencyVaulted,
    Spending,
    Spent,
}

/// The output that funds a vault: the vault's identity in every request to
/// the daemon.
#[derive(Debug, Clone, PartialEq, Eq)]
pub struct OutPoint {
    pub txid: String,
    pub vout: u32,
}

impl OutPoint {
    /// The text of the outpoint: the transaction id, a colon, the output
    /// index in decimal.
    pub open spec fn text(&self) -> Seq<char> {
        self.txid@ + seq![':'] + decimal(self.vout as nat)
    }

    /// Renders the outpoint as the daemon expects it.
    pub fn to_string(&self) -> (rendered: String)
        ensures
            rendered@ == self.text(),
    {
        let mut rendered = self.txid.clone();
        rendered.append(":");
        let index = u64_to_decimal(self.vout as u64);
        rendered.append(index.as_str());
        proof {
            reveal_strlit(":");
            assert(rendered@ =~= self.text());
        }
        rendered
    }
}

/// A vault as the daemon last reported it.
#[derive(Debug, Clone, PartialEq, Eq)]
pub struct Vault {
    /// The address the deposit was sent to.
    pub address: String,
    /// The deposited amount, in satoshis.
    pub amount: u64,
    pub status: VaultStatus,
    /// The id of the funding transaction.
    pub txid: String,
    /// The index of the funding output in that transaction.
    pub vout: u32,
}

impl Vault {
    /// The identity of the vault.
    pub open spec fn spec_outpoint(&self) -> OutPoint {
        OutPoint { txid: self.txid, vout: self.vout }
    }

    /// The identity of the vault: its funding transaction and output index.
    #[verifier::when_used_as_spec(spec_outpoint)]
    pub fn outpoint(&self) -> (outpoint: OutPoint)
        ensures
            outpoint == self.spec_outpoint(),
    {
        OutPoint { txid: self.txid.clone(), vout: self.vout }
    }
}

/// The identity of `vault`.
pub fn outpoint(vault: &Vault) -> (outpoint: OutPoint)
    ensures
        outpoint == vault.spec_outpoint(),
{
    vault.outpoint()
}

/// A transaction of a vault that reached the network.
#[derive(Debug, PartialEq)]
pub struct BroadcastedTransaction {
    /// The height of the block that holds it, if one does yet.
    pub blockheight: Option<u64>,
    /// When the daemon first saw it, in seconds since the epoch.
    pub received_at: i64,
    pub tx: bitcoin::Transaction,
}

/// The on-chain history of a vault.
#[derive(Debug, PartialEq)]
pub struct VaultTransactions {
    pub vault_outpoint: OutPoint,
    pub deposit: BroadcastedTransaction,
    pub unvault: Option<BroadcastedTransaction>,
    pub spend: Option<BroadcastedTransaction>,
    pub cancel: Option<BroadcastedTransaction>,
    pub emergency: Option<BroadcastedTransaction>,
    pub unvault_emergency: Option<BroadcastedTransaction>,
}

impl VaultTransactions {
    /// The transaction of the latest stage that the vault has reached on
    /// chain: the spend if there is one, else the cancel, else the emergency
    /// spend of the unvault, else the emergency, else the unvault, else the
    /// deposit.
    pub open spec fn spec_last_broadcasted_tx(&self) -> BroadcastedTransaction {
        if let Some(tx) = self.spend {
            tx
        } else if let Some(tx) = self.cancel {
            tx
        } else if let Some(tx) = self.unvault_emergency {
            tx
        } else if let Some(tx) = self.emergency {
            tx
        } else if let Some(tx) = self.unvault {
            tx
        } else {
            self.deposit
        }
    }

    /// The transaction of the latest stage that the vault has reached on
    /// chain.
    pub fn last_broadcasted_tx(&self) -> (last: &BroadcastedTransaction)
        ensures
            *last == self.spec_last_broadcasted_tx(),
    {
        if let Some(tx) = &self.spend {
            tx
        } else if let Some(tx) = &self.cancel {
            tx
        } else if let Some(tx) = &self.unvault_emergency {
            tx
        } else if let Some(tx) = &self.emergency {
            tx
        } else if let Some(tx) = &self.unvault {
            tx
        } else {
            &self.deposit
        }
    }
}

/// The unsigned transaction that hands a vault over to the managers.
#[derive(Debug, Clone, PartialEq)]
pub struct UnvaultTransaction {
    pub unvault_tx: Psbt,
}

/// The three unsigned transactions that secure a deposit.
#[derive(Debug, Clone, PartialEq)]
pub struct RevocationTransactions {
    pub emergency_tx: Psbt,
    pub emergency_unvault_tx: Psbt,
    pub cancel_tx: Psbt,
}

} // verus!
