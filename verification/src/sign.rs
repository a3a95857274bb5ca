//! Collecting signatures on the transactions of one workflow.
//!
//! A [`Signer`] owns a target, the transactions that a workflow needs signed,
//! and remembers for each of them whether the local signing device has
//! reported it as signed. It never talks to the daemon.
use crate::model::{RevocationTransactions, UnvaultTransaction};
use bitcoin::util::psbt::PartiallySignedTransaction as Psbt;
use vstd::prelude::*;

verus! {

/// One or more transactions that are signed together, in a fixed order.
pub trait Target: Sized {
    /// The transactions of the target, in signing order.
    spec fn txs(&self) -> Seq<Psbt>;

    /// The number of transactions in the target.
    fn len(&self) -> (count: usize)
        ensures
            count == self.txs().len(),
    ;

    /// Puts `tx` in place of the transaction at `position`.
    fn replace(&mut self, position: usize, tx: Psbt)
        requires
            position < old(self).txs().len(),
        ensures
            final(self).txs() == old(self).txs().update(position as int, tx),
    ;
}

impl Target for UnvaultTransaction {
    open spec fn txs(&self) -> Seq<Psbt> {
        seq![self.unvault_tx]
    }

    fn len(&self) -> (count: usize) {
        1
    }

    fn replace(&mut self, position: usize, tx: Psbt) {
        self.unvault_tx = tx;
        assert(self.txs() =~= old(self).txs().update(position as int, tx));
    }
}

impl Target for RevocationTransactions {
    open spec fn txs(&self) -> Seq<Psbt> {
        seq![self.emergency_tx, self.emergency_unvault_tx, self.cancel_tx]
    }

    fn len(&self) -> (count: usize) {
        3
    }

    fn replace(&mut self, position: usize, tx: Psbt) {
        if position == 0 {
            self.emergency_tx = tx;
        } else if position == 1 {
            self.emergency_unvault_tx = tx;
        } else {
            self.cancel_tx = tx;
        }
        assert(self.txs() =~= old(self).txs().update(position as int, tx));
    }
}

/// What the local signing device reports after working on one transaction
/// of a target.
#[derive(Debug, Clone, PartialEq)]
pub struct SignMessage {
    /// The place in the target of the transaction that was worked on.
    pub position: usize,
    /// The transaction as the device returned it.
    pub tx: Psbt,
    /// Whether the device considers the transaction signed.
    pub signed: bool,
}

/// The state of a signing session: the transactions as they currently
/// stand, and for each whether it has been reported as signed.
pub struct Progress {
    pub txs: Seq<Psbt>,
    pub signed: Seq<bool>,
}

impl Progress {
    /// A session has one mark per transaction.
    pub open spec fn wf(self) -> bool {
        self.txs.len() == self.signed.len()
    }

    /// The session that starts on `txs`: nothing is signed yet.
    pub open spec fn fresh(txs: Seq<Psbt>) -> Progress {
        Progress { txs, signed: Seq::new(txs.len(), |i: int| false) }
    }

    /// Whether every transaction is marked as signed.
    pub open spec fn complete(self) -> bool {
        forall|i: int| 0 <= i < self.signed.len() ==> self.signed[i]
    }

    /// Whether `message` is about a transaction of this session that is not
    /// yet marked as signed.
    pub open spec fn accepts(self, message: SignMessage) -> bool {
        &&& message.position < self.txs.len()
        &&& message.position < self.signed.len()
        &&& !self.signed[message.position as int]
    }

    /// The session after `message`.
    ///
    /// A report on a transaction that is still unsigned replaces the
    /// transaction and sets its mark. A report on a transaction that is
    /// already signed, or on a place the target does not have, changes
    /// nothing.
    pub open spec fn apply(self, message: SignMessage) -> Progress {
        if self.accepts(message) {
            Progress {
                txs: self.txs.update(message.position as int, message.tx),
                signed: self.signed.update(message.position as int, message.signed),
            }
        } else {
            self
        }
    }

    /// The session after the messages of `messages`, in order.
    pub open spec fn run(self, messages: Seq<SignMessage>) -> Progress
        decreases messages.len(),
    {
        if messages.len() == 0 {
            self
        } else {
            self.run(messages.drop_last()).apply(messages.last())
        }
    }
}

/// Whether some message of `messages` reports the transaction at `position`
/// as signed.
pub open spec fn reported_signed(messages: Seq<SignMessage>, position: int) -> bool {
    exists|i: int|
        0 <= i < messages.len() && (#[trigger] messages[i]).position == position
            && messages[i].signed
}

/// Taking in the same report twice leaves the session as it was after the
/// first time.
pub proof fn apply_is_idempotent(session: Progress, message: SignMessage)
    ensures
        session.apply(message).apply(message) == session.apply(message),
{
    let once = session.apply(message);
    let twice = once.apply(message);
    assert(twice.txs =~= once.txs);
    assert(twice.signed =~= once.signed);
}

/// A transaction that is marked as signed stays so, and stays as it is,
/// whatever is reported later.
pub proof fn signed_stays_signed(session: Progress, message: SignMessage, position: int)
    requires
        0 <= position < session.signed.len(),
        session.signed[position],
    ensures
        session.apply(message).signed[position],
        position < session.txs.len() ==> session.apply(message).txs[position]
            == session.txs[position],
{
}

/// Once every transaction is signed, no report changes the session.
pub proof fn complete_is_final(session: Progress, messages: Seq<SignMessage>)
    requires
        session.complete(),
    ensures
        session.run(messages) == session,
    decreases messages.len(),
{
    if messages.len() > 0 {
        complete_is_final(session, messages.drop_last());
    }
}

/// A run of reports never changes the number of transactions or of marks.
pub proof fn run_keeps_shape(session: Progress, messages: Seq<SignMessage>)
    ensures
        session.run(messages).txs.len() == session.txs.len(),
        session.run(messages).signed.len() == session.signed.len(),
        session.wf() ==> session.run(messages).wf(),
    decreases messages.len(),
{
    if messages.len() > 0 {
        run_keeps_shape(session, messages.drop_last());
    }
}

/// After a run of reports a transaction is marked as signed exactly if it was
/// before, or one of the reports said so.
pub proof fn run_marks(session: Progress, messages: Seq<SignMessage>, position: int)
    requires
        session.wf(),
        0 <= position < session.signed.len(),
    ensures
        session.run(messages).signed[position] <==> session.signed[position] || reported_signed(
            messages,
            position,
        ),
    decreases messages.len(),
{
    if messages.len() > 0 {
        let earlier = messages.drop_last();
        let last = messages.last();
        run_marks(session, earlier, position);
        run_keeps_shape(session, earlier);
        if reported_signed(earlier, position) {
            let i = choose|i: int|
                0 <= i < earlier.len() && (#[trigger] earlier[i]).position == position
                    && earlier[i].signed;
            assert(messages[i] == earlier[i]);
        }
        if last.position == position && last.signed {
            assert(messages[messages.len() - 1] == last);
        }
        if reported_signed(messages, position) {
            let i = choose|i: int|
                0 <= i < messages.len() && (#[trigger] messages[i]).position == position
                    && messages[i].signed;
            if i < earlier.len() {
                assert(earlier[i] == messages[i]);
            }
        }
    }
}

/// A session that starts on `txs` is complete after a run of reports exactly
/// if each of its transactions was reported as signed at least once in the
/// run: not before the last of them is, and from then on for good.
pub proof fn complete_exactly_when_all_reported(txs: Seq<Psbt>, messages: Seq<SignMessage>)
    ensures
        Progress::fresh(txs).run(messages).complete() <==> forall|position: int|
            0 <= position < txs.len() ==> reported_signed(messages, position),
{
    let start = Progress::fresh(txs);
    let end = start.run(messages);
    run_keeps_shape(start, messages);
    if end.complete() {
        assert forall|position: int| 0 <= position < txs.len() implies reported_signed(
            messages,
            position,
        ) by {
            run_marks(start, messages, position);
            assert(end.signed[position]);
        }
    }
    if forall|position: int| 0 <= position < txs.len() ==> reported_signed(messages, position) {
        assert forall|i: int| 0 <= i < end.signed.len() implies end.signed[i] by {
            run_marks(start, messages, i);
            assert(reported_signed(messages, i));
        }
    }
}

/// How far one transaction of a target has come.
#[derive(Debug, Clone, Copy, PartialEq, Eq, Structural)]
pub enum Stage {
    /// The transaction is signed.
    Signed,
    /// The transaction is unsigned and its turn has come: it is the first of
    /// the target, or the one before it is signed.
    Ready,
    /// The transaction is unsigned and the one before it is too.
    Waiting,
}

impl Progress {
    /// How far the transaction at `position` has come. A place that the
    /// target does not have is waiting for ever.
    pub open spec fn stage(self, position: int) -> Stage {
        if !(0 <= position < self.signed.len()) {
            Stage::Waiting
        } else if self.signed[position] {
            Stage::Signed
        } else if position == 0 || self.signed[position - 1] {
            Stage::Ready
        } else {
            Stage::Waiting
        }
    }
}

/// Drives the signing of one target.
#[derive(Debug, PartialEq)]
pub struct Signer<T> {
    target: T,
    marks: Vec<bool>,
}

impl<T: Target> View for Signer<T> {
    type V = Progress;

    closed spec fn view(&self) -> Progress {
        Progress { txs: self.target.txs(), signed: self.marks@ }
    }
}

impl<T: Target> Signer<T> {
    /// Starts a session on `target`, with no signature collected.
    pub fn new(target: T) -> (signer: Self)
        ensures
            signer@ == Progress::fresh(target.txs()),
            signer@.wf(),
    {
        let count = target.len();
        let mut marks: Vec<bool> = Vec::new();
        while marks.len() < count
            invariant
                marks@.len() <= count,
                forall|i: int| 0 <= i < marks@.len() ==> !marks@[i],
            decreases count - marks@.len(),
        {
            marks.push(false);
        }
        assert(marks@ =~= Seq::new(target.txs().len(), |i: int| false));
        Signer { target, marks }
    }

    /// Takes in one report of the signing device.
    pub fn update(&mut self, message: SignMessage)
        ensures
            final(self)@ == old(self)@.apply(message),
            old(self)@.wf() ==> final(self)@.wf(),
    {
        if message.position < self.marks.len() && message.position < self.target.len()
            && !self.marks[message.position] {
            self.target.replace(message.position, message.tx);
            self.marks.set(message.position, message.signed);
        }
    }

    /// Whether every transaction of the target is signed.
    pub fn signed(&self) -> (complete: bool)
        ensures
            complete == self@.complete(),
    {
        let mut position: usize = 0;
        while position < self.marks.len()
            invariant
                position <= self.marks@.len(),
                forall|i: int| 0 <= i < position ==> self.marks@[i],
            decreases self.marks@.len() - position,
        {
            if !self.marks[position] {
                assert(!self@.signed[position as int]);
                return false;
            }
            position += 1;
        }
        true
    }

    /// The transactions of the session as they currently stand.
    pub fn target(&self) -> (target: &T)
        ensures
            target.txs() == self@.txs,
    {
        &self.target
    }

    /// How far the transaction at `position` has come, for display.
    pub fn stage(&self, position: usize) -> (stage: Stage)
        ensures
            stage == self@.stage(position as int),
    {
        if position >= self.marks.len() {
            Stage::Waiting
        } else if self.marks[position] {
            Stage::Signed
        } else if position == 0 || self.marks[position - 1] {
            Stage::Ready
        } else {
            Stage::Waiting
        }
    }

    /// Whether the transaction at `position` is marked as signed. A place
    /// that the target does not have is not.
    pub fn is_signed(&self, position: usize) -> (signed: bool)
        ensures
            signed == (position < self@.signed.len() && self@.signed[position as int]),
    {
        position < self.marks.len() && self.marks[position]
    }
}

} // verus!
