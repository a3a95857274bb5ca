use bitcoin::util::psbt::PartiallySignedTransaction as Psbt;
use bitcoin::Transaction;
use revault_gui::model::{RevocationTransactions, UnvaultTransaction};
use revault_gui::sign::{SignMessage, Signer, Stage, Target};

fn psbt(lock_time: u32) -> Psbt {
    Psbt::from_unsigned_tx(Transaction {
        version: 2,
        lock_time,
        input: vec![],
        output: vec![],
    })
    .unwrap()
}

fn revocation() -> RevocationTransactions {
    RevocationTransactions {
        emergency_tx: psbt(1),
        emergency_unvault_tx: psbt(2),
        cancel_tx: psbt(3),
    }
}

fn report(position: usize, lock_time: u32, signed: bool) -> SignMessage {
    SignMessage { position, tx: psbt(lock_time), signed }
}

#[test]
fn unvault_target_holds_one_transaction() {
    let target = UnvaultTransaction { unvault_tx: psbt(9) };
    assert_eq!(target.len(), 1);
}

#[test]
fn revocation_target_holds_three_transactions() {
    assert_eq!(revocation().len(), 3);
}

#[test]
fn revocation_target_orders_emergency_then_unvault_emergency_then_cancel() {
    let mut target = revocation();
    target.replace(0, psbt(10));
    assert_eq!(target.emergency_tx, psbt(10));
    assert_eq!(target.emergency_unvault_tx, psbt(2));
    assert_eq!(target.cancel_tx, psbt(3));
    target.replace(1, psbt(20));
    assert_eq!(target.emergency_tx, psbt(10));
    assert_eq!(target.emergency_unvault_tx, psbt(20));
    assert_eq!(target.cancel_tx, psbt(3));
    target.replace(2, psbt(30));
    assert_eq!(target.emergency_tx, psbt(10));
    assert_eq!(target.emergency_unvault_tx, psbt(20));
    assert_eq!(target.cancel_tx, psbt(30));
}

#[test]
fn unvault_target_replaces_its_transaction() {
    let mut target = UnvaultTransaction { unvault_tx: psbt(9) };
    target.replace(0, psbt(99));
    assert_eq!(target.unvault_tx, psbt(99));
}

#[test]
fn new_signer_has_collected_nothing() {
    let signer = Signer::new(revocation());
    assert!(!signer.signed());
    assert!(!signer.is_signed(0));
    assert!(!signer.is_signed(1));
    assert!(!signer.is_signed(2));
    assert_eq!(*signer.target(), revocation());
}

#[test]
fn signer_is_signed_only_after_every_transaction_is() {
    let mut signer = Signer::new(revocation());
    signer.update(report(0, 11, true));
    assert!(!signer.signed());
    signer.update(report(1, 12, true));
    assert!(!signer.signed());
    signer.update(report(2, 13, true));
    assert!(signer.signed());
}

#[test]
fn signing_order_does_not_matter() {
    let mut signer = Signer::new(revocation());
    signer.update(report(2, 13, true));
    assert!(!signer.signed());
    signer.update(report(0, 11, true));
    assert!(!signer.signed());
    signer.update(report(1, 12, true));
    assert!(signer.signed());
}

#[test]
fn signing_one_transaction_twice_does_not_complete_the_target() {
    let mut signer = Signer::new(revocation());
    signer.update(report(0, 11, true));
    signer.update(report(0, 11, true));
    signer.update(report(0, 11, true));
    assert!(!signer.signed());
    assert!(signer.is_signed(0));
    assert!(!signer.is_signed(1));
}

#[test]
fn signed_report_stores_the_signed_transaction() {
    let mut signer = Signer::new(revocation());
    signer.update(report(1, 12, true));
    assert!(signer.is_signed(1));
    assert_eq!(signer.target().emergency_tx, psbt(1));
    assert_eq!(signer.target().emergency_unvault_tx, psbt(12));
    assert_eq!(signer.target().cancel_tx, psbt(3));
}

#[test]
fn replayed_report_changes_nothing() {
    let mut once = Signer::new(revocation());
    once.update(report(0, 11, true));
    let mut twice = Signer::new(revocation());
    twice.update(report(0, 11, true));
    twice.update(report(0, 11, true));
    assert_eq!(once, twice);
}

#[test]
fn replayed_unsigned_report_changes_nothing() {
    let mut once = Signer::new(revocation());
    once.update(report(0, 11, false));
    let mut twice = Signer::new(revocation());
    twice.update(report(0, 11, false));
    twice.update(report(0, 11, false));
    assert_eq!(once, twice);
}

#[test]
fn signed_transaction_is_not_replaced_by_a_later_report() {
    let mut signer = Signer::new(revocation());
    signer.update(report(0, 11, true));
    signer.update(report(0, 77, true));
    assert_eq!(signer.target().emergency_tx, psbt(11));
    signer.update(report(0, 78, false));
    assert_eq!(signer.target().emergency_tx, psbt(11));
    assert!(signer.is_signed(0));
}

#[test]
fn unsigned_report_keeps_the_transaction_unsigned() {
    let mut signer = Signer::new(UnvaultTransaction { unvault_tx: psbt(9) });
    signer.update(report(0, 19, false));
    assert!(!signer.signed());
    assert!(!signer.is_signed(0));
    assert_eq!(signer.target().unvault_tx, psbt(19));
    signer.update(report(0, 29, true));
    assert!(signer.signed());
    assert_eq!(signer.target().unvault_tx, psbt(29));
}

#[test]
fn report_on_a_missing_position_is_ignored() {
    let mut signer = Signer::new(UnvaultTransaction { unvault_tx: psbt(9) });
    let untouched = Signer::new(UnvaultTransaction { unvault_tx: psbt(9) });
    signer.update(report(1, 19, true));
    assert_eq!(signer, untouched);
    signer.update(report(usize::MAX, 19, true));
    assert_eq!(signer, untouched);
    assert!(!signer.signed());
    assert!(!signer.is_signed(1));
    assert!(!signer.is_signed(usize::MAX));
}

#[test]
fn signed_signer_stays_signed() {
    let mut signer = Signer::new(revocation());
    signer.update(report(0, 11, true));
    signer.update(report(1, 12, true));
    signer.update(report(2, 13, true));
    let done = {
        let mut s = Signer::new(revocation());
        s.update(report(0, 11, true));
        s.update(report(1, 12, true));
        s.update(report(2, 13, true));
        s
    };
    for position in 0..5 {
        signer.update(report(position, 50, false));
        assert!(signer.signed());
        signer.update(report(position, 60, true));
        assert!(signer.signed());
    }
    assert_eq!(signer, done);
}

#[test]
fn single_transaction_signer_completes_on_one_signed_report() {
    let mut signer = Signer::new(UnvaultTransaction { unvault_tx: psbt(9) });
    assert!(!signer.signed());
    signer.update(report(0, 19, true));
    assert!(signer.signed());
    assert!(signer.is_signed(0));
}

#[test]
fn stages_of_a_new_signer() {
    let signer = Signer::new(revocation());
    assert_eq!(signer.stage(0), Stage::Ready);
    assert_eq!(signer.stage(1), Stage::Waiting);
    assert_eq!(signer.stage(2), Stage::Waiting);
}

#[test]
fn stage_follows_the_transaction_before() {
    let mut signer = Signer::new(revocation());
    signer.update(report(0, 11, true));
    assert_eq!(signer.stage(0), Stage::Signed);
    assert_eq!(signer.stage(1), Stage::Ready);
    assert_eq!(signer.stage(2), Stage::Waiting);
    signer.update(report(1, 12, true));
    assert_eq!(signer.stage(1), Stage::Signed);
    assert_eq!(signer.stage(2), Stage::Ready);
    signer.update(report(2, 13, true));
    assert_eq!(signer.stage(2), Stage::Signed);
}

#[test]
fn stage_when_signing_out_of_order() {
    let mut signer = Signer::new(revocation());
    signer.update(report(1, 12, true));
    assert_eq!(signer.stage(0), Stage::Ready);
    assert_eq!(signer.stage(1), Stage::Signed);
    assert_eq!(signer.stage(2), Stage::Ready);
}

#[test]
fn stage_of_a_missing_position_is_waiting() {
    let mut signer = Signer::new(revocation());
    signer.update(report(2, 13, true));
    assert_eq!(signer.stage(3), Stage::Waiting);
    assert_eq!(signer.stage(usize::MAX), Stage::Waiting);
    let single = Signer::new(UnvaultTransaction { unvault_tx: psbt(9) });
    assert_eq!(single.stage(0), Stage::Ready);
    assert_eq!(single.stage(1), Stage::Waiting);
}
