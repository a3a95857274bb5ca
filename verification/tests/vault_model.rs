use bitcoin::Transaction;
use revault_gui::model::{
    outpoint, BroadcastedTransaction, OutPoint, Vault, VaultStatus, VaultTransactions,
};

fn vault(txid: &str, vout: u32) -> Vault {
    Vault {
        address: "bcrt1qexample".to_string(),
        amount: 120_000,
        status: VaultStatus::Funded,
        txid: txid.to_string(),
        vout,
    }
}

#[test]
fn outpoint_is_made_of_txid_and_output_index() {
    let v = vault("f6b1a1", 3);
    assert_eq!(v.outpoint(), OutPoint { txid: "f6b1a1".to_string(), vout: 3 });
    assert_eq!(outpoint(&v), v.outpoint());
}

#[test]
fn outpoint_text_joins_txid_and_index_with_a_colon() {
    assert_eq!(vault("f6b1a1", 0).outpoint().to_string(), "f6b1a1:0");
    assert_eq!(vault("f6b1a1", 17).outpoint().to_string(), "f6b1a1:17");
    assert_eq!(vault("", u32::MAX).outpoint().to_string(), ":4294967295");
}

#[test]
fn outpoint_ignores_everything_but_txid_and_index() {
    let mut a = vault("aa", 1);
    let mut b = vault("aa", 1);
    a.amount = 1;
    b.amount = 2;
    a.status = VaultStatus::Active;
    b.address = "other".to_string();
    assert_eq!(a.outpoint(), b.outpoint());
    assert_ne!(vault("aa", 1).outpoint(), vault("aa", 2).outpoint());
    assert_ne!(vault("aa", 1).outpoint(), vault("ab", 1).outpoint());
}

fn broadcast(lock_time: u32) -> BroadcastedTransaction {
    BroadcastedTransaction {
        blockheight: Some(lock_time as u64),
        received_at: 1_600_000_000 + lock_time as i64,
        tx: Transaction { version: 2, lock_time, input: vec![], output: vec![] },
    }
}

fn history(stages: [bool; 5]) -> VaultTransactions {
    let stage = |present: bool, lock_time: u32| {
        if present {
            Some(broadcast(lock_time))
        } else {
            None
        }
    };
    VaultTransactions {
        vault_outpoint: OutPoint { txid: "aa".to_string(), vout: 0 },
        deposit: broadcast(0),
        unvault: stage(stages[0], 1),
        emergency: stage(stages[1], 2),
        unvault_emergency: stage(stages[2], 3),
        cancel: stage(stages[3], 4),
        spend: stage(stages[4], 5),
    }
}

#[test]
fn last_broadcasted_tx_of_a_fresh_vault_is_the_deposit() {
    let txs = history([false; 5]);
    assert_eq!(*txs.last_broadcasted_tx(), broadcast(0));
}

#[test]
fn last_broadcasted_tx_prefers_the_latest_stage() {
    assert_eq!(*history([true, false, false, false, false]).last_broadcasted_tx(), broadcast(1));
    assert_eq!(*history([true, true, false, false, false]).last_broadcasted_tx(), broadcast(2));
    assert_eq!(*history([true, true, true, false, false]).last_broadcasted_tx(), broadcast(3));
    assert_eq!(*history([true, true, true, true, false]).last_broadcasted_tx(), broadcast(4));
    assert_eq!(*history([true, true, true, true, true]).last_broadcasted_tx(), broadcast(5));
    assert_eq!(*history([true, false, false, false, true]).last_broadcasted_tx(), broadcast(5));
    assert_eq!(*history([true, false, false, true, false]).last_broadcasted_tx(), broadcast(4));
    assert_eq!(*history([false, true, false, false, false]).last_broadcasted_tx(), broadcast(2));
}
