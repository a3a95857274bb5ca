//! One vault on screen: the workflow the user is in, and what each message
//! does to it.
use crate::error::{Error, RevaultDError};
use crate::message::VaultMessage;
use crate::model::{RevocationTransactions, UnvaultTransaction, VaultStatus, VaultTransactions};
use crate::request::DaemonRequest;
use crate::sign::{complete_is_final, Progress, SignMessage, Signer, Target};
use vstd::prelude::*;

verus! {

/// The part of the vault's panel that is open, as a value: what
/// [`VaultSection`] holds, with each signer replaced by its session.
pub enum SectionState {
    Unloaded,
    OnchainTransactions { txs: VaultTransactions },
    Delegate { signer: Progress, warning: Option<Error> },
    Secure { signer: Progress, warning: Option<Error> },
    Revault { processing: bool, success: bool, warning: Option<Error> },
}

/// What one message does to a section: the section and the vault's status
/// afterwards, and the call to make.
pub struct SectionStep {
    pub section: SectionState,
    pub status: VaultStatus,
    pub request: Option<DaemonRequest>,
}

impl SectionState {
    /// The title of the panel.
    pub open spec fn title(self, status: VaultStatus) -> Seq<char> {
        match self {
            SectionState::Unloaded => ""@,
            SectionState::OnchainTransactions { .. } => if status == VaultStatus::Funded || status
                == VaultStatus::Unconfirmed {
                "Deposit details"@
            } else {
                "Vault details"@
            },
            SectionState::Delegate { .. } => "Delegate vault"@,
            SectionState::Secure { .. } => "Create vault"@,
            SectionState::Revault { .. } => "Revault funds"@,
        }
    }

    /// The section that opens on a freshly fetched delegation transaction.
    pub open spec fn delegate(tx: UnvaultTransaction) -> SectionState {
        SectionState::Delegate { signer: Progress::fresh(tx.txs()), warning: None }
    }

    /// The section that opens on freshly fetched securing transactions.
    pub open spec fn secure(txs: RevocationTransactions) -> SectionState {
        SectionState::Secure { signer: Progress::fresh(txs.txs()), warning: None }
    }

    /// The section that opens when the user asks to cancel an unvaulting.
    pub open spec fn revault() -> SectionState {
        SectionState::Revault { processing: false, success: false, warning: None }
    }

    /// What `message` does to the section of a vault.
    ///
    /// A section reacts to the reports of the signing device and to the
    /// daemon's answers that belong to its own workflow, and to nothing
    /// else: an answer that arrives after the user has moved on is dropped.
    ///
    /// - Delegating: a report goes to the signer, and whenever the
    ///   transaction is signed afterwards it is handed in. The daemon's
    ///   answer clears or sets the warning.
    /// - Securing: a report goes to the signer, and the three transactions
    ///   are handed in as they then stand, signed or not. The daemon's
    ///   answer clears or sets the warning.
    /// - Cancelling: the user's confirmation clears the warning, marks the
    ///   section as busy and asks the daemon to revault. Success marks the
    ///   section as done and the vault as canceling, ahead of the daemon's
    ///   next report; failure sets the warning. Either way the section is
    ///   no longer busy.
    pub open spec fn step(self, vault: crate::model::Vault, message: VaultMessage) -> SectionStep {
        let outpoint = vault.spec_outpoint();
        match (self, message) {
            (SectionState::Delegate { signer, warning }, VaultMessage::Delegate(report)) => {
                let signer = signer.apply(report);
                SectionStep {
                    section: SectionState::Delegate { signer, warning },
                    status: vault.status,
                    request: if signer.complete() {
                        Some(DaemonRequest::SetUnvaultTx { outpoint, unvault_tx: signer.txs[0] })
                    } else {
                        None
                    },
                }
            },
            (SectionState::Delegate { signer, .. }, VaultMessage::Delegated(outcome)) => {
                SectionStep {
                    section: SectionState::Delegate { signer, warning: warning_of(outcome) },
                    status: vault.status,
                    request: None,
                }
            },
            (SectionState::Secure { signer, warning }, VaultMessage::Secure(report)) => {
                let signer = signer.apply(report);
                SectionStep {
                    section: SectionState::Secure { signer, warning },
                    status: vault.status,
                    request: Some(
                        DaemonRequest::SetRevocationTxs {
                            outpoint,
                            emergency_tx: signer.txs[0],
                            emergency_unvault_tx: signer.txs[1],
                            cancel_tx: signer.txs[2],
                        },
                    ),
                }
            },
            (SectionState::Secure { signer, .. }, VaultMessage::Secured(outcome)) => SectionStep {
                section: SectionState::Secure { signer, warning: warning_of(outcome) },
                status: vault.status,
                request: None,
            },
            (SectionState::Revault { success, .. }, VaultMessage::Revault) => SectionStep {
                section: SectionState::Revault { processing: true, success, warning: None },
                status: vault.status,
                request: Some(DaemonRequest::Revault { outpoint }),
            },
            (SectionState::Revault { .. }, VaultMessage::Revaulted(Ok(_))) => SectionStep {
                section: SectionState::Revault { processing: false, success: true, warning: None },
                status: VaultStatus::Canceling,
                request: None,
            },
            (SectionState::Revault { success, .. }, VaultMessage::Revaulted(Err(e))) => {
                SectionStep {
                    section: SectionState::Revault {
                        processing: false,
                        success,
                        warning: Some(Error::RevaultDError(e)),
                    },
                    status: vault.status,
                    request: None,
                }
            },
            _ => SectionStep { section: self, status: vault.status, request: None },
        }
    }
}

/// The warning that the daemon's answer to a submission leaves: none after
/// a success, the failure after a failure.
pub open spec fn warning_of(outcome: Result<(), RevaultDError>) -> Option<Error> {
    match outcome {
        Ok(_) => None,
        Err(e) => Some(Error::RevaultDError(e)),
    }
}

/// The part of a vault's panel that is open. Exactly one workflow is active
/// at a time, and opening another discards whatever the previous one held.
#[derive(Debug, PartialEq)]
pub enum VaultSection {
    /// Nothing has been loaded yet.
    Unloaded,
    /// The on-chain history of the vault.
    OnchainTransactions { txs: VaultTransactions },
    /// The user signs the transaction that hands the vault to the managers.
    Delegate { signer: Signer<UnvaultTransaction>, warning: Option<Error> },
    /// The user signs the transactions that secure the deposit.
    Secure { signer: Signer<RevocationTransactions>, warning: Option<Error> },
    /// The user is asked whether the unvaulting should be cancelled, and the
    /// cancellation runs once they confirm.
    Revault { processing: bool, success: bool, warning: Option<Error> },
}

impl View for VaultSection {
    type V = SectionState;

    open spec fn view(&self) -> SectionState {
        match self {
            VaultSection::Unloaded => SectionState::Unloaded,
            VaultSection::OnchainTransactions { txs } => SectionState::OnchainTransactions {
                txs: *txs,
            },
            VaultSection::Delegate { signer, warning } => SectionState::Delegate {
                signer: signer@,
                warning: *warning,
            },
            VaultSection::Secure { signer, warning } => SectionState::Secure {
                signer: signer@,
                warning: *warning,
            },
            VaultSection::Revault { processing, success, warning } => SectionState::Revault {
                processing: *processing,
                success: *success,
                warning: *warning,
            },
        }
    }
}

impl VaultSection {
    /// The title of the panel, which for the history depends on how far the
    /// vault has come.
    pub fn title(&self, vault: &crate::model::Vault) -> (title: &'static str)
        ensures
            title@ == self@.title(vault.status),
    {
        match self {
            VaultSection::Unloaded => "",
            VaultSection::OnchainTransactions { .. } => match vault.status {
                VaultStatus::Funded | VaultStatus::Unconfirmed => "Deposit details",
                _ => "Vault details",
            },
            VaultSection::Delegate { .. } => "Delegate vault",
            VaultSection::Secure { .. } => "Create vault",
            VaultSection::Revault { .. } => "Revault funds",
        }
    }

    /// Opens the history on `txs`.
    pub fn new_onchain_txs_section(txs: VaultTransactions) -> (section: Self)
        ensures
            section == (VaultSection::OnchainTransactions { txs }),
    {
        VaultSection::OnchainTransactions { txs }
    }

    /// Opens the delegation workflow on the unsigned transaction `tx`.
    pub fn new_delegate_section(tx: UnvaultTransaction) -> (section: Self)
        ensures
            section@ == SectionState::delegate(tx),
    {
        VaultSection::Delegate { signer: Signer::new(tx), warning: None }
    }

    /// Opens the securing workflow on the unsigned transactions `txs`.
    pub fn new_secure_section(txs: RevocationTransactions) -> (section: Self)
        ensures
            section@ == SectionState::secure(txs),
    {
        VaultSection::Secure { signer: Signer::new(txs), warning: None }
    }

    /// Opens the cancellation workflow: not started, not done, no warning.
    pub fn new_revault_section() -> (section: Self)
        ensures
            section == (VaultSection::Revault { processing: false, success: false, warning: None }),
            section@ == SectionState::revault(),
    {
        VaultSection::Revault { processing: false, success: false, warning: None }
    }

    /// Reacts to `message`, for the vault `vault`, and returns the call to
    /// make to the daemon, if the message asks for one.
    pub fn update(&mut self, vault: &mut crate::model::Vault, message: VaultMessage) -> (request:
        Option<DaemonRequest>)
        ensures
            final(self)@ == old(self)@.step(*old(vault), message).section,
            *final(vault) == (crate::model::Vault {
                status: old(self)@.step(*old(vault), message).status,
                ..*old(vault)
            }),
            request == old(self)@.step(*old(vault), message).request,
    {
        match message {
            VaultMessage::Delegate(report) => {
                if let VaultSection::Delegate { signer, .. } = self {
                    signer.update(report);
                    if signer.signed() {
                        return Some(
                            DaemonRequest::SetUnvaultTx {
                                outpoint: vault.outpoint(),
                                unvault_tx: signer.target().unvault_tx.clone(),
                            },
                        );
                    }
                }
            },
            VaultMessage::Delegated(outcome) => {
                if let VaultSection::Delegate { warning, .. } = self {
                    match outcome {
                        Ok(()) => *warning = None,
                        Err(e) => *warning = Some(Error::from(e)),
                    }
                }
            },
            VaultMessage::Secure(report) => {
                if let VaultSection::Secure { signer, .. } = self {
                    signer.update(report);
                    let target = signer.target();
                    return Some(
                        DaemonRequest::SetRevocationTxs {
                            outpoint: vault.outpoint(),
                            emergency_tx: target.emergency_tx.clone(),
                            emergency_unvault_tx: target.emergency_unvault_tx.clone(),
                            cancel_tx: target.cancel_tx.clone(),
                        },
                    );
                }
            },
            VaultMessage::Secured(outcome) => {
                if let VaultSection::Secure { warning, .. } = self {
                    match outcome {
                        Ok(()) => *warning = None,
                        Err(e) => *warning = Some(Error::from(e)),
                    }
                }
            },
            VaultMessage::Revault => {
                if let VaultSection::Revault { processing, warning, .. } = self {
                    *processing = true;
                    *warning = None;
                    return Some(DaemonRequest::Revault { outpoint: vault.outpoint() });
                }
            },
            VaultMessage::Revaulted(outcome) => {
                if let VaultSection::Revault { processing, success, warning } = self {
                    *processing = false;
                    match outcome {
                        Ok(()) => {
                            *success = true;
                            *warning = None;
                            vault.status = VaultStatus::Canceling;
                        },
                        Err(e) => *warning = Some(Error::from(e)),
                    }
                }
            },
            _ => {},
        }
        None
    }
}

/// A vault on screen, as a value: what [`Vault`] holds, with the section
/// replaced by its state.
pub struct VaultState {
    pub vault: crate::model::Vault,
    pub warning: Option<Error>,
    pub section: SectionState,
}

/// What one message does to a vault: the vault afterwards, and the call to
/// make.
pub struct VaultStep {
    pub state: VaultState,
    pub request: Option<DaemonRequest>,
}

impl VaultState {
    /// A vault that has just come on screen: nothing loaded, no warning.
    pub open spec fn new(vault: crate::model::Vault) -> VaultState {
        VaultState { vault, warning: None, section: SectionState::Unloaded }
    }

    /// The vault with another section open.
    pub open spec fn with_section(self, section: SectionState) -> VaultState {
        VaultState { section, ..self }
    }

    /// The vault with a failure to fetch from the daemon on display.
    pub open spec fn with_warning(self, failure: RevaultDError) -> VaultState {
        VaultState { warning: Some(Error::RevaultDError(failure)), ..self }
    }

    /// What `message` does to the vault.
    ///
    /// - Asking for the history, for delegation or for securing changes
    ///   nothing and requests the data from the daemon.
    /// - The data, when it arrives, opens the section it is for, in place of
    ///   whichever section was open. A failure to fetch it leaves the section
    ///   alone and becomes the vault's warning.
    /// - Asking to cancel the unvaulting opens that section at once.
    /// - Every other message goes to the open section
    ///   (see [`SectionState::step`]), which may change itself and the
    ///   vault's status, and never the vault's warning.
    pub open spec fn step(self, message: VaultMessage) -> VaultStep {
        let outpoint = self.vault.spec_outpoint();
        match message {
            VaultMessage::ListOnchainTransaction => VaultStep {
                state: self,
                request: Some(DaemonRequest::GetOnchainTxs { outpoint }),
            },
            VaultMessage::SelectDelegate => VaultStep {
                state: self,
                request: Some(DaemonRequest::GetUnvaultTx { outpoint }),
            },
            VaultMessage::SelectSecure => VaultStep {
                state: self,
                request: Some(DaemonRequest::GetRevocationTxs { outpoint }),
            },
            VaultMessage::OnChainTransactions(Ok(txs)) => VaultStep {
                state: self.with_section(SectionState::OnchainTransactions { txs }),
                request: None,
            },
            VaultMessage::UnvaultTransaction(Ok(tx)) => VaultStep {
                state: self.with_section(SectionState::delegate(tx)),
                request: None,
            },
            VaultMessage::RevocationTransactions(Ok(txs)) => VaultStep {
                state: self.with_section(SectionState::secure(txs)),
                request: None,
            },
            VaultMessage::SelectRevault => VaultStep {
                state: self.with_section(SectionState::revault()),
                request: None,
            },
            VaultMessage::OnChainTransactions(Err(e)) => VaultStep {
                state: self.with_warning(e),
                request: None,
            },
            VaultMessage::UnvaultTransaction(Err(e)) => VaultStep {
                state: self.with_warning(e),
                request: None,
            },
            VaultMessage::RevocationTransactions(Err(e)) => VaultStep {
                state: self.with_warning(e),
                request: None,
            },
            _ => {
                let step = self.section.step(self.vault, message);
                VaultStep {
                    state: VaultState {
                        vault: crate::model::Vault { status: step.status, ..self.vault },
                        warning: self.warning,
                        section: step.section,
                    },
                    request: step.request,
                }
            },
        }
    }

    /// The vault after the messages of `messages`, in order.
    pub open spec fn run(self, messages: Seq<VaultMessage>) -> VaultState
        decreases messages.len(),
    {
        if messages.len() == 0 {
            self
        } else {
            self.run(messages.drop_last()).step(messages.last()).state
        }
    }

    /// The calls that the messages of `messages` ask for, in order.
    pub open spec fn trace(self, messages: Seq<VaultMessage>) -> Seq<DaemonRequest>
        decreases messages.len(),
    {
        if messages.len() == 0 {
            Seq::empty()
        } else {
            let earlier = self.trace(messages.drop_last());
            match self.run(messages.drop_last()).step(messages.last()).request {
                Some(request) => earlier.push(request),
                None => earlier,
            }
        }
    }
}

/// Whether `message` opens a section: the daemon delivers what a workflow was
/// waiting for, or the user asks to cancel the unvaulting.
pub open spec fn opens_section(message: VaultMessage) -> bool {
    ||| message is SelectRevault
    ||| message matches VaultMessage::OnChainTransactions(Ok(_))
    ||| message matches VaultMessage::UnvaultTransaction(Ok(_))
    ||| message matches VaultMessage::RevocationTransactions(Ok(_))
}

/// Whether `message` is the daemon's refusal of a submission.
pub open spec fn is_submission_failure(message: VaultMessage) -> bool {
    ||| message matches VaultMessage::Delegated(Err(_))
    ||| message matches VaultMessage::Secured(Err(_))
    ||| message matches VaultMessage::Revaulted(Err(_))
}

/// Whether `message` is an answer to a submission of the workflow that
/// `section` is in.
pub open spec fn answers_section(message: VaultMessage, section: SectionState) -> bool {
    ||| message is Delegated && section is Delegate
    ||| message is Secured && section is Secure
    ||| message is Revaulted && section is Revault
}

/// The warning that a section shows. A section without a workflow shows none.
pub open spec fn section_warning(section: SectionState) -> Option<Error> {
    match section {
        SectionState::Delegate { warning, .. } => warning,
        SectionState::Secure { warning, .. } => warning,
        SectionState::Revault { warning, .. } => warning,
        _ => None,
    }
}

/// The signing session of a section. A section without a signer has the
/// empty session.
pub open spec fn section_signer(section: SectionState) -> Progress {
    match section {
        SectionState::Delegate { signer, .. } => signer,
        SectionState::Secure { signer, .. } => signer,
        _ => Progress { txs: Seq::empty(), signed: Seq::empty() },
    }
}

/// The submission of the securing transactions of `state` as they stand.
pub open spec fn revocation_submission(state: VaultState) -> DaemonRequest {
    let txs = section_signer(state.section).txs;
    DaemonRequest::SetRevocationTxs {
        outpoint: state.vault.spec_outpoint(),
        emergency_tx: txs[0],
        emergency_unvault_tx: txs[1],
        cancel_tx: txs[2],
    }
}

/// The submission of the delegation transaction of `state` as it stands.
pub open spec fn unvault_submission(state: VaultState) -> DaemonRequest {
    DaemonRequest::SetUnvaultTx {
        outpoint: state.vault.spec_outpoint(),
        unvault_tx: section_signer(state.section).txs[0],
    }
}

/// A message changes nothing of the daemon's report of the vault but,
/// possibly, the status, which it can only set to canceling. Every call it
/// asks for names this vault and no other.
pub proof fn step_keeps_identity(state: VaultState, message: VaultMessage)
    ensures
        state.step(message).state.vault == (crate::model::Vault {
            status: state.step(message).state.vault.status,
            ..state.vault
        }),
        state.step(message).state.vault.status == state.vault.status || state.step(
            message,
        ).state.vault.status == VaultStatus::Canceling,
        state.step(message).request matches Some(request) ==> request.spec_outpoint()
            == state.vault.spec_outpoint(),
{
}

/// Whether `message` is the user asking for data that the daemon holds.
pub open spec fn asks_for_data(message: VaultMessage) -> bool {
    message is ListOnchainTransaction || message is SelectDelegate || message is SelectSecure
}

/// Asking for data changes nothing: the vault stays exactly as it is, in
/// whichever section, until the daemon's answer arrives, and exactly one
/// request goes out.
pub proof fn asking_changes_nothing(state: VaultState, message: VaultMessage)
    requires
        asks_for_data(message),
    ensures
        state.step(message).state == state,
        state.step(message).request == Some(
            match message {
                VaultMessage::ListOnchainTransaction => DaemonRequest::GetOnchainTxs {
                    outpoint: state.vault.spec_outpoint(),
                },
                VaultMessage::SelectDelegate => DaemonRequest::GetUnvaultTx {
                    outpoint: state.vault.spec_outpoint(),
                },
                _ => DaemonRequest::GetRevocationTxs { outpoint: state.vault.spec_outpoint() },
            },
        ),
{
}

/// The section that a message opens is made from the message alone. Whatever
/// the vault showed before, in whichever section, none of it is left: two
/// vaults that receive the same opening message show equal sections. Neither
/// the daemon's report of the vault nor the vault's warning changes.
pub proof fn opening_forgets_previous_section(
    one: VaultState,
    other: VaultState,
    message: VaultMessage,
)
    requires
        opens_section(message),
    ensures
        one.step(message).state.section == other.step(message).state.section,
        one.step(message).state.vault == one.vault,
        one.step(message).state.warning == one.warning,
        one.step(message).request is None,
{
}

/// After any run of opening messages the section is the one that the last
/// of them opens on a vault that has just come on screen.
pub proof fn last_opening_decides_section(state: VaultState, messages: Seq<VaultMessage>)
    requires
        messages.len() > 0,
        forall|i: int| 0 <= i < messages.len() ==> opens_section(#[trigger] messages[i]),
    ensures
        state.run(messages).section == VaultState::new(state.vault).step(
            messages.last(),
        ).state.section,
        state.trace(messages).len() == 0,
    decreases messages.len(),
{
    let earlier = messages.drop_last();
    if earlier.len() > 0 {
        last_opening_decides_section(state, earlier);
    } else {
        assert(state.trace(earlier).len() == 0);
    }
    opening_forgets_previous_section(
        state.run(earlier),
        VaultState::new(state.vault),
        messages.last(),
    );
}

/// While the user secures a vault, every report of the signing device, one
/// that leaves the transactions partly signed too, sends the three
/// transactions to the daemon as they stand after the report: as many
/// submissions as reports, in the same order, and nothing else.
pub proof fn securing_submits_every_report(state: VaultState, messages: Seq<VaultMessage>)
    requires
        state.section is Secure,
        forall|i: int| 0 <= i < messages.len() ==> (#[trigger] messages[i]) is Secure,
    ensures
        state.run(messages).section is Secure,
        state.run(messages).vault == state.vault,
        state.trace(messages).len() == messages.len(),
        forall|i: int|
            0 <= i < messages.len() ==> #[trigger] state.trace(messages)[i]
                == revocation_submission(state.run(messages.take(i + 1))),
    decreases messages.len(),
{
    if messages.len() > 0 {
        let earlier = messages.drop_last();
        securing_submits_every_report(state, earlier);
        assert(messages.take(messages.len() as int) =~= messages);
        assert forall|i: int| 0 <= i < messages.len() implies #[trigger] state.trace(messages)[i]
            == revocation_submission(state.run(messages.take(i + 1))) by {
            if i < earlier.len() {
                assert(earlier.take(i + 1) =~= messages.take(i + 1));
                assert(state.trace(messages)[i] == state.trace(earlier)[i]);
            }
        }
    }
}

/// While the user delegates a vault, nothing is sent to the daemon as long
/// as the transaction is unsigned, and the report that completes the
/// signature sends the signed transaction, once.
pub proof fn delegating_submits_on_completion(state: VaultState, messages: Seq<VaultMessage>)
    requires
        state.section is Delegate,
        !section_signer(state.section).complete(),
        forall|i: int| 0 <= i < messages.len() ==> (#[trigger] messages[i]) is Delegate,
    ensures
        state.run(messages).section is Delegate,
        state.run(messages).vault == state.vault,
        !section_signer(state.run(messages).section).complete() ==> state.trace(messages).len()
            == 0,
        messages.len() > 0 && section_signer(state.run(messages).section).complete()
            && !section_signer(state.run(messages.drop_last()).section).complete()
            ==> state.trace(messages) == seq![unvault_submission(state.run(messages))],
    decreases messages.len(),
{
    if messages.len() > 0 {
        let earlier = messages.drop_last();
        delegating_submits_on_completion(state, earlier);
        let before = state.run(earlier);
        let report = messages.last()->Delegate_0;
        if section_signer(before.section).complete() {
            complete_is_final(section_signer(before.section), seq![report]);
            assert(seq![report].drop_last() =~= Seq::<SignMessage>::empty());
        }
        if section_signer(state.run(messages).section).complete() && !section_signer(
            before.section,
        ).complete() {
            assert(state.trace(messages) =~= seq![unvault_submission(state.run(messages))]);
        }
    }
}

/// Once the transaction is signed, each further report of the signing
/// device leaves the session as it is and sends the same signed transaction
/// again: the way to try once more after the daemon has refused it.
pub proof fn delegating_resubmits_once_signed(state: VaultState, report: SignMessage)
    requires
        state.section is Delegate,
        section_signer(state.section).complete(),
    ensures
        state.step(VaultMessage::Delegate(report)).state == state,
        state.step(VaultMessage::Delegate(report)).request == Some(unvault_submission(state)),
{
    complete_is_final(section_signer(state.section), seq![report]);
    assert(seq![report].drop_last() =~= Seq::<SignMessage>::empty());
}

/// The daemon's answer to a cancellation: success marks the vault as
/// canceling at once and the section as done, without a warning; failure
/// leaves the vault as it was and sets the section's warning. In both cases
/// the section is no longer busy.
pub proof fn revault_answer(state: VaultState, outcome: Result<(), RevaultDError>)
    requires
        state.section is Revault,
    ensures
        state.step(VaultMessage::Revaulted(outcome)).request is None,
        state.step(VaultMessage::Revaulted(outcome)).state.warning == state.warning,
        outcome is Ok ==> {
            let after = state.step(VaultMessage::Revaulted(outcome)).state;
            &&& after.vault.status == VaultStatus::Canceling
            &&& after.section == (SectionState::Revault {
                processing: false,
                success: true,
                warning: None,
            })
        },
        outcome matches Err(failure) ==> {
            let after = state.step(VaultMessage::Revaulted(outcome)).state;
            &&& after.vault == state.vault
            &&& after.section == (SectionState::Revault {
                processing: false,
                success: state.section->success,
                warning: Some(Error::RevaultDError(failure)),
            })
        },
{
}

/// A vault that is marked as canceling stays so whatever arrives later, the
/// on-chain history included: only a new report of the vault from the
/// daemon replaces the mark.
pub proof fn canceling_outlasts_messages(state: VaultState, messages: Seq<VaultMessage>)
    requires
        state.vault.status == VaultStatus::Canceling,
    ensures
        state.run(messages).vault == state.vault,
    decreases messages.len(),
{
    if messages.len() > 0 {
        canceling_outlasts_messages(state, messages.drop_last());
        step_keeps_identity(state.run(messages.drop_last()), messages.last());
    }
}

/// The daemon's refusal of a submission touches only the warning of the
/// section whose workflow made the submission. It never changes the vault's
/// own warning or the daemon's report of the vault, it leaves the signer's
/// session as it is, and if the user has moved on to another section, that
/// section does not change at all.
pub proof fn failure_stays_in_its_section(state: VaultState, message: VaultMessage)
    requires
        is_submission_failure(message),
    ensures
        state.step(message).request is None,
        state.step(message).state.warning == state.warning,
        state.step(message).state.vault == state.vault,
        section_signer(state.step(message).state.section) == section_signer(state.section),
        !answers_section(message, state.section) ==> state.step(message).state.section
            == state.section,
        answers_section(message, state.section) ==> section_warning(
            state.step(message).state.section,
        ) is Some,
{
}

/// A vault on screen: the daemon's last report of it, the workflow the user
/// is in, and the last failure to fetch its data.
#[derive(Debug, PartialEq)]
pub struct Vault {
    pub vault: crate::model::Vault,
    pub warning: Option<Error>,
    pub section: VaultSection,
}

impl View for Vault {
    type V = VaultState;

    open spec fn view(&self) -> VaultState {
        VaultState { vault: self.vault, warning: self.warning, section: self.section@ }
    }
}

impl Vault {
    /// Puts `vault` on screen, with nothing loaded and no warning.
    pub fn new(vault: crate::model::Vault) -> (shown: Self)
        ensures
            shown@ == VaultState::new(vault),
    {
        Vault { vault, warning: None, section: VaultSection::Unloaded }
    }

    /// Reacts to `message` and returns the call to make to the daemon, if
    /// the message asks for one.
    pub fn update(&mut self, message: VaultMessage) -> (request: Option<DaemonRequest>)
        ensures
            final(self)@ == old(self)@.step(message).state,
            request == old(self)@.step(message).request,
    {
        match message {
            VaultMessage::ListOnchainTransaction => {
                return Some(DaemonRequest::GetOnchainTxs { outpoint: self.vault.outpoint() });
            },
            VaultMessage::SelectDelegate => {
                return Some(DaemonRequest::GetUnvaultTx { outpoint: self.vault.outpoint() });
            },
            VaultMessage::SelectSecure => {
                return Some(DaemonRequest::GetRevocationTxs { outpoint: self.vault.outpoint() });
            },
            VaultMessage::OnChainTransactions(outcome) => match outcome {
                Ok(txs) => self.section = VaultSection::new_onchain_txs_section(txs),
                Err(e) => self.warning = Some(Error::from(e)),
            },
            VaultMessage::UnvaultTransaction(outcome) => match outcome {
                Ok(tx) => self.section = VaultSection::new_delegate_section(tx),
                Err(e) => self.warning = Some(Error::from(e)),
            },
            VaultMessage::RevocationTransactions(outcome) => match outcome {
                Ok(txs) => self.section = VaultSection::new_secure_section(txs),
                Err(e) => self.warning = Some(Error::from(e)),
            },
            VaultMessage::SelectRevault => {
                self.section = VaultSection::new_revault_section();
            },
            _ => {
                return self.section.update(&mut self.vault, message);
            },
        }
        None
    }

    /// The call to make when the vault comes on screen: always a fetch of
    /// its on-chain history.
    pub fn load(&self) -> (request: DaemonRequest)
        ensures
            request == (DaemonRequest::GetOnchainTxs { outpoint: self.vault.spec_outpoint() }),
            Some(request) == self@.step(VaultMessage::ListOnchainTransaction).request,
    {
        DaemonRequest::GetOnchainTxs { outpoint: self.vault.outpoint() }
    }
}

/// What draws a vault in a list. The library creates the drawing state with
/// the item and never looks at it.
pub trait VaultView: Sized {
    /// The state of a drawing that has not been shown yet.
    fn new() -> Self;
}

/// A vault in a list, with the state of its drawing.
#[derive(Debug)]
pub struct VaultListItem<T> {
    pub vault: crate::model::Vault,
    pub view: T,
}

impl<T: VaultView> VaultListItem<T> {
    /// Lists `vault`, with a drawing that has not been shown yet.
    pub fn new(vault: crate::model::Vault) -> (item: Self)
        ensures
            item.vault == vault,
    {
        Self { vault, view: T::new() }
    }
}

} // verus!
