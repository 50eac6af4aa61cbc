//! The token transfer as a state machine.
//!
//! A transfer alternates between a request to the outside world and the
//! decision taken on its outcome. The machine holds the decisions: given
//! the step it is in and the outcome of the action it asked for, it names
//! the next step and the next action. The caller performs the actions.

use crate::account::{load_signer, KeyFile};
use crate::base58::{base58, encode_base58};
use crate::errors::WalletError;
use crate::keys::{keypair_refusal, Address, KeyPair};
use crate::ledger::{
    associated_token_address, base_units, build_refusal, build_transfer, is_transfer_checked,
    lemma_transfer_is_signable, sign_transfer, signed_transfer, token_account,
    transfer_buildable, TransferInstruction,
};
use crate::json::{json_at, JsonView};
use crate::provisioning::{
    account_creation_outcome, funding_outcome, has_ok_field, read_account_creation_reply,
    read_funding_reply, two_signatures, HttpReply, STATUS_OK,
};
use crate::structs::{CreateTokenAccount, TransferResponse};
use vstd::pervasive::unreached;
use vstd::prelude::*;

verus! {

/// What is to be transferred: `amount` whole units of the token of `mint`,
/// which has `decimals` decimals, to the wallet `recipient`, under the token
/// program `program_id`.
#[derive(Debug, Clone, Copy, PartialEq, Eq)]
pub struct TransferRequest {
    pub program_id: Address,
    pub mint: Address,
    pub recipient: Address,
    pub amount: u64,
    pub decimals: u8,
}

/// What a transfer has learnt once it may probe the ledger: the blockhash
/// that anchors it and the keypair that signs it.
#[derive(Debug, Clone, Copy, PartialEq, Eq)]
pub struct Session {
    pub blockhash: [u8; 32],
    pub signer: KeyPair,
}

/// The step a transfer is in: what it is waiting for.
#[derive(Debug, Clone, PartialEq, Eq)]
pub enum TransferStep {
    /// Waiting for the latest blockhash.
    FetchingBlockhash,
    /// Waiting for the keyfile.
    LoadingSigner { blockhash: [u8; 32] },
    /// Waiting to learn whether the sender's token account exists.
    ProbingSenderAccount { session: Session },
    /// Waiting to learn whether the recipient's wallet exists.
    ProbingRecipientWallet { session: Session },
    /// Waiting to learn whether the recipient's token account exists.
    ProbingRecipientAccount { session: Session, wallet_missing: bool },
    /// Waiting for the backend to fund the recipient's wallet.
    FundingWallet { session: Session, account_missing: bool },
    /// Waiting for the backend to create the recipient's token account.
    CreatingAccount { session: Session },
    /// Waiting for the ledger to confirm the transaction.
    Submitting { create_account_sig: Option<String>, funding_account_sig: Option<String> },
    /// Nothing is awaited: the transfer has ended.
    Finished,
}

/// What the caller is to do next.
#[derive(Debug, PartialEq, Eq)]
pub enum Action {
    /// Ask the ledger for its latest blockhash.
    FetchBlockhash,
    /// Read the keyfile.
    LoadSigner,
    /// Ask the ledger whether an account exists at `address`.
    ProbeAccount { address: Address },
    /// Ask the backend to fund the wallet at `wallet_address`.
    FundWallet { wallet_address: String },
    /// Ask the backend to create an associated token account.
    CreateTokenAccount { request: CreateTokenAccount },
    /// Submit the signed transaction whose wire bytes are `transaction`,
    /// and which carries `instruction`, and await its confirmation.
    Submit { instruction: TransferInstruction, transaction: Vec<u8> },
    /// Report the outcome; the transfer has ended.
    Finish { outcome: Result<TransferResponse, WalletError> },
}

/// The outcome of an action, handed back to the machine.
#[derive(Debug, PartialEq, Eq)]
pub enum Event {
    /// The latest blockhash, or why it could not be fetched.
    Blockhash(Result<[u8; 32], String>),
    /// What was found at the keyfile's location.
    Signer(KeyFile),
    /// Whether the probed account exists.
    Account { exists: bool },
    /// How the request to the backend ended.
    Provisioning(HttpReply),
    /// The signature of the confirmed transaction, or why it was not
    /// confirmed.
    Submitted(Result<[u8; 64], String>),
}

/// The content of an optional text.
pub open spec fn text_of(text: Option<String>) -> Option<Seq<char>> {
    match text {
        Some(t) => Some(t@),
        None => None,
    }
}

/// The sender's token account for the requested mint.
pub open spec fn sender_account(request: TransferRequest, signer: KeyPair) -> Seq<u8> {
    associated_token_address(signer.public(), request.mint.bytes@, request.program_id.bytes@)
}

/// The recipient's token account for the requested mint.
pub open spec fn recipient_account(request: TransferRequest) -> Seq<u8> {
    associated_token_address(
        request.recipient.bytes@,
        request.mint.bytes@,
        request.program_id.bytes@,
    )
}

/// Whether `event` is the outcome of the action that `step` waits for.
pub open spec fn answers(step: TransferStep, event: Event) -> bool {
    match step {
        TransferStep::FetchingBlockhash => event is Blockhash,
        TransferStep::LoadingSigner { .. } => event is Signer,
        TransferStep::ProbingSenderAccount { .. } => event is Account,
        TransferStep::ProbingRecipientWallet { .. } => event is Account,
        TransferStep::ProbingRecipientAccount { .. } => event is Account,
        TransferStep::FundingWallet { .. } => event is Provisioning,
        TransferStep::CreatingAccount { .. } => event is Provisioning,
        TransferStep::Submitting { .. } => event is Submitted,
        TransferStep::Finished => false,
    }
}

/// The transfer ends in failure.
pub open spec fn fails(next: TransferStep, action: Action) -> bool {
    next is Finished && (action matches Action::Finish { outcome } && outcome is Err)
}

/// The failure that `action` reports.
pub open spec fn failure(action: Action) -> WalletError {
    action->outcome->Err_0
}

/// After the blockhash: without one nothing can be built; with one the
/// signer is loaded.
pub open spec fn after_blockhash(
    reply: Result<[u8; 32], String>,
    next: TransferStep,
    action: Action,
) -> bool {
    match reply {
        Ok(blockhash) => next == (TransferStep::LoadingSigner { blockhash }) && action
            is LoadSigner,
        Err(cause) => fails(next, action) && (failure(action) matches WalletError::BlockhashFetch {
            cause: c,
        } && c@ == cause@),
    }
}

/// After the keyfile: a keyfile that does not hold a keypair ends the
/// transfer, with what the attempt to read it reported; otherwise the
/// sender's token account is probed.
pub open spec fn after_signer(
    request: TransferRequest,
    blockhash: [u8; 32],
    file: KeyFile,
    next: TransferStep,
    action: Action,
) -> bool {
    match file {
        KeyFile::Holds(signer) => if signer.well_formed() {
            &&& next == (TransferStep::ProbingSenderAccount { session: Session { blockhash, signer } })
            &&& action matches Action::ProbeAccount { address }
            &&& address.bytes@ == sender_account(request, signer)
        } else {
            fails(next, action) && (failure(action) matches WalletError::PublicKeyDerivation {
                cause,
            } && cause@ == keypair_refusal(signer.bytes@))
        },
        KeyFile::Unreadable { cause } => fails(next, action) && (failure(
            action,
        ) matches WalletError::KeyFileRead { cause: c } && c@ == cause@),
        KeyFile::Absent { cause } => fails(next, action) && (failure(
            action,
        ) matches WalletError::KeyFileRead { cause: c } && c@ == cause@),
    }
}

/// After the probe of the sender's token account: a sender without one
/// cannot originate the transfer, which ends at once; otherwise the
/// recipient's wallet is probed.
pub open spec fn after_sender_probe(
    request: TransferRequest,
    session: Session,
    exists: bool,
    next: TransferStep,
    action: Action,
) -> bool {
    if exists {
        next == (TransferStep::ProbingRecipientWallet { session }) && action == (
        Action::ProbeAccount { address: request.recipient })
    } else {
        &&& fails(next, action)
        &&& failure(action) matches WalletError::SenderNotProvisioned { sender, mint }
        &&& sender@ == base58(session.signer.public())
        &&& mint@ == base58(request.mint.bytes@)
    }
}

/// After the probe of the recipient's wallet: whether it is missing is
/// recorded and the recipient's token account is probed.
pub open spec fn after_wallet_probe(
    request: TransferRequest,
    session: Session,
    exists: bool,
    next: TransferStep,
    action: Action,
) -> bool {
    &&& next == (TransferStep::ProbingRecipientAccount { session, wallet_missing: !exists })
    &&& action matches Action::ProbeAccount { address }
    &&& address.bytes@ == recipient_account(request)
}

/// The backend is asked to create the recipient's token account, anchored
/// to the session's blockhash.
pub open spec fn asks_account_creation(
    request: TransferRequest,
    session: Session,
    next: TransferStep,
    action: Action,
) -> bool {
    &&& next == (TransferStep::CreatingAccount { session })
    &&& action matches Action::CreateTokenAccount { request: form }
    &&& form.wallet_address@ == base58(request.recipient.bytes@)
    &&& form.token_mint_address@ == base58(request.mint.bytes@)
    &&& form.token_program_id@ == base58(request.program_id.bytes@)
    &&& form.lbh@ == base58(session.blockhash@)
}

/// The transfer itself is built, signed and handed over for submission:
/// a checked transfer of the amount scaled to base units, from the
/// sender's token account to the recipient's, authorised by the sender, in
/// a transaction that the sender pays for and alone signs, anchored to the
/// session's blockhash.
/// The signatures of the provisioning, if there was any, are kept for the
/// result.
pub open spec fn asks_submission(
    request: TransferRequest,
    session: Session,
    create_account_sig: Option<Seq<char>>,
    funding_account_sig: Option<Seq<char>>,
    next: TransferStep,
    action: Action,
) -> bool {
    if !session.signer.well_formed() {
        fails(next, action) && (failure(action) matches WalletError::PublicKeyDerivation {
            cause,
        } && cause@ == keypair_refusal(session.signer.bytes@))
    } else if !transfer_buildable(request.program_id.bytes@, request.amount, request.decimals) {
        fails(next, action) && (failure(action) matches WalletError::InstructionBuild { cause }
            && cause@ == build_refusal(
            request.program_id.bytes@,
            request.amount,
            request.decimals,
        ))
    } else {
        &&& next matches TransferStep::Submitting { create_account_sig: kept_creation, funding_account_sig: kept_funding }
        &&& text_of(kept_creation) == create_account_sig
        &&& text_of(kept_funding) == funding_account_sig
        &&& action matches Action::Submit { instruction, transaction }
        &&& is_transfer_checked(
            instruction,
            request.program_id.bytes@,
            sender_account(request, session.signer),
            request.mint.bytes@,
            recipient_account(request),
            session.signer.public(),
            base_units(request.amount, request.decimals) as u64,
            request.decimals,
        )
        &&& transaction@ == signed_transfer(instruction, session.signer, session.blockhash)
    }
}

/// After the probe of the recipient's token account: what is missing is
/// provisioned, the wallet first; if nothing is missing the transfer is
/// submitted.
pub open spec fn after_account_probe(
    request: TransferRequest,
    session: Session,
    wallet_missing: bool,
    exists: bool,
    next: TransferStep,
    action: Action,
) -> bool {
    if wallet_missing {
        &&& next == (TransferStep::FundingWallet { session, account_missing: !exists })
        &&& action matches Action::FundWallet { wallet_address }
        &&& wallet_address@ == base58(request.recipient.bytes@)
    } else if !exists {
        asks_account_creation(request, session, next, action)
    } else {
        asks_submission(request, session, None, None, next, action)
    }
}

/// Whether a reply acknowledges the funding of a wallet.
pub open spec fn acknowledges_funding(reply: HttpReply) -> bool {
    reply matches HttpReply::Response { status, body } && status == STATUS_OK && (json_at(
        body@,
        "/Ok"@,
    ) matches Some(node) && node is Text)
}

/// After the funding of the wallet: a failure ends the transfer; on
/// success the wallet is taken to exist, and the token account is created
/// if it was found missing, else the transfer is submitted.
pub open spec fn after_funding(
    request: TransferRequest,
    session: Session,
    account_missing: bool,
    reply: HttpReply,
    next: TransferStep,
    action: Action,
) -> bool {
    if !acknowledges_funding(reply) {
        &&& fails(next, action)
        &&& failure(action) matches WalletError::WalletFunding { source }
        &&& funding_outcome(reply, Err(source))
    } else if account_missing {
        asks_account_creation(request, session, next, action)
    } else {
        asks_submission(request, session, None, None, next, action)
    }
}

/// The two signatures that a reply acknowledges the creation of a token
/// account with, if it does.
pub open spec fn acknowledged_signatures(reply: HttpReply) -> Option<(Seq<char>, Seq<char>)> {
    match reply {
        HttpReply::Response { status, body } => if status == STATUS_OK && has_ok_field(body@) {
            match json_at(body@, "/Ok/signatures"@) {
                Some(JsonView::Array(items)) => if two_signatures(items) {
                    Some((items[0]->0, items[1]->0))
                } else {
                    None
                },
                _ => None,
            }
        } else {
            None
        },
        _ => None,
    }
}

/// After the creation of the token account: a failure ends the transfer;
/// on success the two signatures are kept and the transfer is submitted.
pub open spec fn after_account_creation(
    request: TransferRequest,
    session: Session,
    reply: HttpReply,
    next: TransferStep,
    action: Action,
) -> bool {
    match acknowledged_signatures(reply) {
        None => {
            &&& fails(next, action)
            &&& failure(action) matches WalletError::TokenAccountCreation { source }
            &&& account_creation_outcome(reply, Err(source))
        },
        Some((creation, paired)) => asks_submission(
            request,
            session,
            Some(creation),
            Some(paired),
            next,
            action,
        ),
    }
}

/// After the submission: the transfer ends, with the result that carries
/// the kept signatures and the transfer's own, or with the reason why the
/// ledger did not confirm it.
pub open spec fn after_submission(
    create_account_sig: Option<String>,
    funding_account_sig: Option<String>,
    reply: Result<[u8; 64], String>,
    next: TransferStep,
    action: Action,
) -> bool {
    &&& next is Finished
    &&& action matches Action::Finish { outcome }
    &&& match reply {
        Ok(signature) => {
            &&& outcome matches Ok(response)
            &&& text_of(response.create_account_sig) == text_of(create_account_sig)
            &&& text_of(response.funding_account_sig) == text_of(funding_account_sig)
            &&& response.transfer_sig@ == base58(signature@)
            &&& response.transfer_sig@.len() > 0
        },
        Err(cause) => outcome matches Err(WalletError::Submission { cause: c }) && c@ == cause@,
    }
}

/// The whole transition relation: what `next` and `action` follow from
/// `step` on `event`.
pub open spec fn transition(
    request: TransferRequest,
    step: TransferStep,
    event: Event,
    next: TransferStep,
    action: Action,
) -> bool {
    match (step, event) {
        (TransferStep::FetchingBlockhash, Event::Blockhash(reply)) => after_blockhash(
            reply,
            next,
            action,
        ),
        (TransferStep::LoadingSigner { blockhash }, Event::Signer(file)) => after_signer(
            request,
            blockhash,
            file,
            next,
            action,
        ),
        (
            TransferStep::ProbingSenderAccount { session },
            Event::Account { exists },
        ) => after_sender_probe(request, session, exists, next, action),
        (
            TransferStep::ProbingRecipientWallet { session },
            Event::Account { exists },
        ) => after_wallet_probe(request, session, exists, next, action),
        (
            TransferStep::ProbingRecipientAccount { session, wallet_missing },
            Event::Account { exists },
        ) => after_account_probe(request, session, wallet_missing, exists, next, action),
        (
            TransferStep::FundingWallet { session, account_missing },
            Event::Provisioning(reply),
        ) => after_funding(request, session, account_missing, reply, next, action),
        (TransferStep::CreatingAccount { session }, Event::Provisioning(reply)) =>
            after_account_creation(request, session, reply, next, action),
        (
            TransferStep::Submitting { create_account_sig, funding_account_sig },
            Event::Submitted(reply),
        ) => after_submission(create_account_sig, funding_account_sig, reply, next, action),
        _ => false,
    }
}

/// Ends the transfer with a failure.
fn fail(error: WalletError) -> (r: (TransferStep, Action))
    ensures
        fails(r.0, r.1),
        failure(r.1) == error,
{
    (TransferStep::Finished, Action::Finish { outcome: Err(error) })
}

/// Begins a transfer: the first thing to learn is the latest blockhash.
pub fn start() -> (r: (TransferStep, Action))
    ensures
        r.0 is FetchingBlockhash,
        r.1 is FetchBlockhash,
{
    (TransferStep::FetchingBlockhash, Action::FetchBlockhash)
}

/// Decides on the outcome of the blockhash query.
pub fn on_blockhash(reply: Result<[u8; 32], String>) -> (r: (TransferStep, Action))
    ensures
        after_blockhash(reply, r.0, r.1),
{
    match reply {
        Ok(blockhash) => (TransferStep::LoadingSigner { blockhash }, Action::LoadSigner),
        Err(cause) => fail(WalletError::BlockhashFetch { cause }),
    }
}

/// Decides on what was found at the keyfile's location.
pub fn on_signer(request: &TransferRequest, blockhash: [u8; 32], file: &KeyFile) -> (r: (
    TransferStep,
    Action,
))
    ensures
        after_signer(*request, blockhash, *file, r.0, r.1),
{
    let signer = match load_signer(file) {
        Ok(signer) => signer,
        Err(e) => {
            return fail(e);
        },
    };
    let sender = match signer.address() {
        Ok(sender) => sender,
        Err(e) => {
            return fail(e);
        },
    };
    let address = token_account(&sender, &request.mint, &request.program_id);
    (
        TransferStep::ProbingSenderAccount { session: Session { blockhash, signer } },
        Action::ProbeAccount { address },
    )
}

/// Decides on the probe of the sender's token account.
pub fn on_sender_probe(request: &TransferRequest, session: Session, exists: bool) -> (r: (
    TransferStep,
    Action,
))
    ensures
        after_sender_probe(*request, session, exists, r.0, r.1),
{
    if exists {
        (
            TransferStep::ProbingRecipientWallet { session },
            Action::ProbeAccount { address: request.recipient },
        )
    } else {
        let sender = session.signer.public_half();
        fail(
            WalletError::SenderNotProvisioned {
                sender: sender.to_base58(),
                mint: request.mint.to_base58(),
            },
        )
    }
}

/// Decides on the probe of the recipient's wallet.
pub fn on_wallet_probe(request: &TransferRequest, session: Session, exists: bool) -> (r: (
    TransferStep,
    Action,
))
    ensures
        after_wallet_probe(*request, session, exists, r.0, r.1),
{
    let address = token_account(&request.recipient, &request.mint, &request.program_id);
    (
        TransferStep::ProbingRecipientAccount { session, wallet_missing: !exists },
        Action::ProbeAccount { address },
    )
}

/// Asks the backend to create the recipient's token account.
fn ask_account_creation(request: &TransferRequest, session: Session) -> (r: (TransferStep, Action))
    ensures
        asks_account_creation(*request, session, r.0, r.1),
{
    let form = CreateTokenAccount {
        wallet_address: request.recipient.to_base58(),
        token_mint_address: request.mint.to_base58(),
        token_program_id: request.program_id.to_base58(),
        lbh: encode_base58(session.blockhash.as_slice()),
    };
    (TransferStep::CreatingAccount { session }, Action::CreateTokenAccount { request: form })
}

/// Builds and signs the transfer and asks for its submission.
fn ask_submission(
    request: &TransferRequest,
    session: Session,
    create_account_sig: Option<String>,
    funding_account_sig: Option<String>,
) -> (r: (TransferStep, Action))
    ensures
        asks_submission(
            *request,
            session,
            text_of(create_account_sig),
            text_of(funding_account_sig),
            r.0,
            r.1,
        ),
{
    let sender = match session.signer.address() {
        Ok(sender) => sender,
        Err(e) => {
            return fail(e);
        },
    };
    let source = token_account(&sender, &request.mint, &request.program_id);
    let destination = token_account(&request.recipient, &request.mint, &request.program_id);
    let instruction = match build_transfer(
        &request.program_id,
        &source,
        &request.mint,
        &destination,
        &sender,
        request.amount,
        request.decimals,
    ) {
        Ok(instruction) => instruction,
        Err(e) => {
            return fail(e);
        },
    };
    proof {
        lemma_transfer_is_signable(
            instruction,
            request.program_id.bytes@,
            source.bytes@,
            request.mint.bytes@,
            destination.bytes@,
            base_units(request.amount, request.decimals) as u64,
            request.decimals,
            session.signer,
        );
    }
    match sign_transfer(&instruction, &session.signer, &session.blockhash) {
        Ok(transaction) => (
            TransferStep::Submitting { create_account_sig, funding_account_sig },
            Action::Submit { instruction, transaction },
        ),
        Err(e) => fail(e),
    }
}

/// Decides on the probe of the recipient's token account.
pub fn on_account_probe(
    request: &TransferRequest,
    session: Session,
    wallet_missing: bool,
    exists: bool,
) -> (r: (TransferStep, Action))
    ensures
        after_account_probe(*request, session, wallet_missing, exists, r.0, r.1),
{
    if wallet_missing {
        (
            TransferStep::FundingWallet { session, account_missing: !exists },
            Action::FundWallet { wallet_address: request.recipient.to_base58() },
        )
    } else if !exists {
        ask_account_creation(request, session)
    } else {
        ask_submission(request, session, None, None)
    }
}

/// Decides on the backend's reply to the funding of the wallet.
pub fn on_funding(
    request: &TransferRequest,
    session: Session,
    account_missing: bool,
    reply: &HttpReply,
) -> (r: (TransferStep, Action))
    ensures
        after_funding(*request, session, account_missing, *reply, r.0, r.1),
{
    match read_funding_reply(reply) {
        Err(source) => fail(WalletError::WalletFunding { source }),
        Ok(_) => {
            if account_missing {
                ask_account_creation(request, session)
            } else {
                ask_submission(request, session, None, None)
            }
        },
    }
}

/// Decides on the backend's reply to the creation of the token account.
pub fn on_account_creation(request: &TransferRequest, session: Session, reply: &HttpReply) -> (r:
    (TransferStep, Action))
    ensures
        after_account_creation(*request, session, *reply, r.0, r.1),
{
    match read_account_creation_reply(reply) {
        Err(source) => fail(WalletError::TokenAccountCreation { source }),
        Ok(response) => {
            let mut signatures = response.signatures;
            let paired = signatures.pop();
            let creation = signatures.pop();
            ask_submission(request, session, creation, paired)
        },
    }
}

/// Decides on the outcome of the submission.
pub fn on_submission(
    create_account_sig: Option<String>,
    funding_account_sig: Option<String>,
    reply: Result<[u8; 64], String>,
) -> (r: (TransferStep, Action))
    ensures
        after_submission(create_account_sig, funding_account_sig, reply, r.0, r.1),
{
    match reply {
        Ok(signature) => {
            let response = TransferResponse {
                create_account_sig,
                funding_account_sig,
                transfer_sig: encode_base58(signature.as_slice()),
            };
            (TransferStep::Finished, Action::Finish { outcome: Ok(response) })
        },
        Err(cause) => (
            TransferStep::Finished,
            Action::Finish { outcome: Err(WalletError::Submission { cause }) },
        ),
    }
}

impl TransferStep {
    /// Whether `event` is the outcome of the action that this step waits
    /// for.
    pub fn expects(&self, event: &Event) -> (yes: bool)
        ensures
            yes == answers(*self, *event),
    {
        match (self, event) {
            (TransferStep::FetchingBlockhash, Event::Blockhash(_)) => true,
            (TransferStep::LoadingSigner { .. }, Event::Signer(_)) => true,
            (TransferStep::ProbingSenderAccount { .. }, Event::Account { .. }) => true,
            (TransferStep::ProbingRecipientWallet { .. }, Event::Account { .. }) => true,
            (TransferStep::ProbingRecipientAccount { .. }, Event::Account { .. }) => true,
            (TransferStep::FundingWallet { .. }, Event::Provisioning(_)) => true,
            (TransferStep::CreatingAccount { .. }, Event::Provisioning(_)) => true,
            (TransferStep::Submitting { .. }, Event::Submitted(_)) => true,
            _ => false,
        }
    }
}

/// Advances the transfer: from the step it is in and the outcome of the
/// action it asked for, to the next step and the next action.
pub fn step(request: &TransferRequest, current: TransferStep, event: Event) -> (r: (
    TransferStep,
    Action,
))
    requires
        answers(current, event),
    ensures
        transition(*request, current, event, r.0, r.1),
{
    match (current, event) {
        (TransferStep::FetchingBlockhash, Event::Blockhash(reply)) => on_blockhash(reply),
        (TransferStep::LoadingSigner { blockhash }, Event::Signer(file)) => on_signer(
            request,
            blockhash,
            &file,
        ),
        (TransferStep::ProbingSenderAccount { session }, Event::Account { exists }) => {
            on_sender_probe(request, session, exists)
        },
        (TransferStep::ProbingRecipientWallet { session }, Event::Account { exists }) => {
            on_wallet_probe(request, session, exists)
        },
        (
            TransferStep::ProbingRecipientAccount { session, wallet_missing },
            Event::Account { exists },
        ) => on_account_probe(request, session, wallet_missing, exists),
        (
            TransferStep::FundingWallet { session, account_missing },
            Event::Provisioning(reply),
        ) => on_funding(request, session, account_missing, &reply),
        (TransferStep::CreatingAccount { session }, Event::Provisioning(reply)) => {
            on_account_creation(request, session, &reply)
        },
        (
            TransferStep::Submitting { create_account_sig, funding_account_sig },
            Event::Submitted(reply),
        ) => on_submission(create_account_sig, funding_account_sig, reply),
        _ => unreached(),
    }
}

/// Whether an action changes anything outside the wallet: a call to the
/// provisioning backend or the submission of a transaction.
pub open spec fn changes_the_world(action: Action) -> bool {
    action is FundWallet || action is CreateTokenAccount || action is Submit
}

/// Whether a step lies behind a successful probe of the sender's token
/// account.
pub open spec fn sender_confirmed(step: TransferStep) -> bool {
    step is ProbingRecipientWallet || step is ProbingRecipientAccount || step is FundingWallet
        || step is CreatingAccount || step is Submitting
}

/// A transfer whose sender has no token account ends at the probe that
/// finds this out, with that diagnosis, whatever was requested.
pub proof fn law_missing_sender_account_ends_transfer(
    request: TransferRequest,
    session: Session,
    next: TransferStep,
    action: Action,
)
    requires
        transition(
            request,
            TransferStep::ProbingSenderAccount { session },
            Event::Account { exists: false },
            next,
            action,
        ),
    ensures
        next is Finished,
        action matches Action::Finish { outcome: Err(e) } && e is SenderNotProvisioned,
{
}

/// Nothing outside the wallet is changed before the sender's token account
/// was found: only a step behind that probe asks for provisioning or
/// submission, and the only way behind it is the probe's positive outcome.
/// Once the transfer has ended no step follows.
pub proof fn law_no_change_before_sender_is_confirmed(
    request: TransferRequest,
    current: TransferStep,
    event: Event,
    next: TransferStep,
    action: Action,
)
    requires
        transition(request, current, event, next, action),
    ensures
        answers(current, event),
        !(current is Finished),
        changes_the_world(action) ==> sender_confirmed(current),
        sender_confirmed(next) && !sender_confirmed(current) ==> current is ProbingSenderAccount
            && event == (Event::Account { exists: true }),
{
}

/// When the recipient has neither wallet nor token account, and every
/// request succeeds, the wallet is funded, then the token account is
/// created, then the transfer is submitted, and the result carries both
/// signatures of the account creation beside the transfer's own.
pub proof fn law_missing_recipient_is_provisioned_first(
    request: TransferRequest,
    session: Session,
    funding_reply: HttpReply,
    creation_reply: HttpReply,
    confirmed: [u8; 64],
    funding: (TransferStep, Action),
    creating: (TransferStep, Action),
    submitting: (TransferStep, Action),
    finished: (TransferStep, Action),
)
    requires
        session.signer.well_formed(),
        transfer_buildable(request.program_id.bytes@, request.amount, request.decimals),
        acknowledges_funding(funding_reply),
        acknowledged_signatures(creation_reply) is Some,
        transition(
            request,
            TransferStep::ProbingRecipientAccount { session, wallet_missing: true },
            Event::Account { exists: false },
            funding.0,
            funding.1,
        ),
        transition(request, funding.0, Event::Provisioning(funding_reply), creating.0, creating.1),
        transition(
            request,
            creating.0,
            Event::Provisioning(creation_reply),
            submitting.0,
            submitting.1,
        ),
        transition(
            request,
            submitting.0,
            Event::Submitted(Ok(confirmed)),
            finished.0,
            finished.1,
        ),
    ensures
        funding.1 is FundWallet,
        creating.1 is CreateTokenAccount,
        submitting.1 is Submit,
        finished.0 is Finished,
        finished.1 matches Action::Finish { outcome: Ok(response) } && (acknowledged_signatures(
            creation_reply,
        ) matches Some((creation, paired)) && text_of(response.create_account_sig) == Some(
            creation,
        ) && text_of(response.funding_account_sig) == Some(paired)) && response.transfer_sig@
            == base58(confirmed@) && response.transfer_sig@.len() > 0,
{
}

/// When the recipient's wallet and token account both exist, nothing is
/// provisioned: the transfer is submitted at once and the result carries
/// the transfer's signature alone.
pub proof fn law_existing_recipient_needs_no_provisioning(
    request: TransferRequest,
    session: Session,
    confirmed: [u8; 64],
    submitting: (TransferStep, Action),
    finished: (TransferStep, Action),
)
    requires
        session.signer.well_formed(),
        transfer_buildable(request.program_id.bytes@, request.amount, request.decimals),
        transition(
            request,
            TransferStep::ProbingRecipientAccount { session, wallet_missing: false },
            Event::Account { exists: true },
            submitting.0,
            submitting.1,
        ),
        transition(
            request,
            submitting.0,
            Event::Submitted(Ok(confirmed)),
            finished.0,
            finished.1,
        ),
    ensures
        submitting.1 is Submit,
        finished.0 is Finished,
        finished.1 matches Action::Finish { outcome: Ok(response) }
            && response.create_account_sig is None && response.funding_account_sig is None
            && response.transfer_sig@ == base58(confirmed@) && response.transfer_sig@.len() > 0,
{
}

} // verus!
