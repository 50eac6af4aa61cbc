use solana_sdk::hash::Hash as Blockhash;
use solana_sdk::pubkey::Pubkey;
use solana_sdk::signer::keypair::Keypair;
use solana_sdk::signer::Signer;
use solana_sdk::transaction::Transaction;
use solana_wallet::account::KeyFile;
use solana_wallet::errors::{Fault, ProvisioningError, Stage, WalletError};
use solana_wallet::keys::{Address, KeyPair};
use solana_wallet::ledger::{
    build_transfer, scale_amount, token_account, AccountRef, SPL_TOKEN_PROGRAM_ID,
    TRANSFER_CHECKED_TAG,
};
use solana_wallet::provisioning::HttpReply;
use solana_wallet::structs::{CreateTokenAccount, TransferResponse};
use solana_wallet::transfer::{
    on_account_probe, on_blockhash, on_sender_probe, start, step, Action, Event, Session,
    TransferRequest, TransferStep,
};

const MINT: Address = Address { bytes: [3u8; 32] };
const RECIPIENT: Address = Address { bytes: [4u8; 32] };
const TOKEN_PROGRAM: Address = Address { bytes: SPL_TOKEN_PROGRAM_ID };
const BLOCKHASH: [u8; 32] = [9u8; 32];
const CONFIRMED: [u8; 64] = [5u8; 64];

fn signer() -> KeyPair {
    KeyPair::from_seed(&[7u8; 32]).unwrap()
}

fn sender() -> Address {
    signer().address().unwrap()
}

fn request() -> TransferRequest {
    TransferRequest {
        program_id: TOKEN_PROGRAM,
        mint: MINT,
        recipient: RECIPIENT,
        amount: 2,
        decimals: 9,
    }
}

fn session() -> Session {
    Session { blockhash: BLOCKHASH, signer: signer() }
}

fn acknowledged(body: &str) -> Event {
    Event::Provisioning(HttpReply::Response { status: 200, body: String::from(body) })
}

fn advance(request: &TransferRequest, current: TransferStep, event: Event) -> (TransferStep, Action) {
    assert!(current.expects(&event));
    step(request, current, event)
}

/// Runs a transfer up to the probe of the recipient's token account.
fn up_to_account_probe(request: &TransferRequest, wallet_exists: bool) -> TransferStep {
    let (current, action) = start();
    assert_eq!(action, Action::FetchBlockhash);
    let (current, action) = advance(request, current, Event::Blockhash(Ok(BLOCKHASH)));
    assert_eq!(action, Action::LoadSigner);
    let (current, action) = advance(request, current, Event::Signer(KeyFile::Holds(signer())));
    let sender_account = token_account(&sender(), &request.mint, &request.program_id);
    assert_eq!(action, Action::ProbeAccount { address: sender_account });
    let (current, action) = advance(request, current, Event::Account { exists: true });
    assert_eq!(action, Action::ProbeAccount { address: request.recipient });
    let (current, action) = advance(request, current, Event::Account { exists: wallet_exists });
    let recipient_account = token_account(&request.recipient, &request.mint, &request.program_id);
    assert_eq!(action, Action::ProbeAccount { address: recipient_account });
    current
}

fn pubkey(address: &Address) -> Pubkey {
    Pubkey::from(address.bytes)
}

/// The transaction that the ledger's own tools build for the request.
fn reference_transaction(request: &TransferRequest, base_units: u64) -> Transaction {
    let keypair = Keypair::from_bytes(&signer().bytes).unwrap();
    let owner = keypair.pubkey();
    let (mint, program) = (pubkey(&request.mint), pubkey(&request.program_id));
    let source = spl_associated_token_account::get_associated_token_address_with_program_id(
        &owner, &mint, &program,
    );
    let destination = spl_associated_token_account::get_associated_token_address_with_program_id(
        &pubkey(&request.recipient),
        &mint,
        &program,
    );
    let instruction = spl_token::instruction::transfer_checked(
        &program,
        &source,
        &mint,
        &destination,
        &owner,
        &[&owner],
        base_units,
        request.decimals,
    )
    .unwrap();
    Transaction::new_signed_with_payer(
        &[instruction],
        Some(&owner),
        &[&keypair],
        Blockhash::new_from_array(BLOCKHASH),
    )
}

fn expect_submission(action: Action, request: &TransferRequest, base_units: u64) {
    match action {
        Action::Submit { instruction, transaction } => {
            let reference = reference_transaction(request, base_units);
            assert_eq!(transaction, bincode::serialize(&reference).unwrap());
            let transaction: Transaction = bincode::deserialize(&transaction).unwrap();
            let mut data = vec![TRANSFER_CHECKED_TAG];
            data.extend_from_slice(&base_units.to_le_bytes());
            data.push(request.decimals);
            assert_eq!(instruction.data, data);
            assert_eq!(instruction.program_id, request.program_id);
            assert_eq!(transaction, reference);
            assert!(transaction.verify().is_ok());
            assert_eq!(transaction.signatures.len(), 1);
            assert_eq!(transaction.message.header.num_required_signatures, 1);
            assert_eq!(transaction.message.account_keys[0], pubkey(&sender()));
            assert_eq!(transaction.message.recent_blockhash, Blockhash::new_from_array(BLOCKHASH));
            assert_eq!(transaction.message.instructions.len(), 1);
            assert_eq!(transaction.message.instructions[0].data, data);
        }
        other => panic!("expected a submission, got {:?}", other),
    }
}

#[test]
fn two_tokens_of_nine_decimals_are_two_billion_base_units() {
    assert_eq!(scale_amount(2, 9), Some(2_000_000_000));
}

#[test]
fn amounts_scale_by_the_power_of_ten_of_the_decimals() {
    assert_eq!(scale_amount(0, 0), Some(0));
    assert_eq!(scale_amount(0, 255), Some(0));
    assert_eq!(scale_amount(5, 0), Some(5));
    assert_eq!(scale_amount(1, 19), Some(10_000_000_000_000_000_000));
    assert_eq!(scale_amount(123, 6), Some(123_000_000));
    assert_eq!(scale_amount(u64::MAX, 0), Some(u64::MAX));
    assert_eq!(scale_amount(1_844_674_407_370_955_161, 1), Some(18_446_744_073_709_551_610));
}

#[test]
fn amounts_beyond_64_bits_do_not_scale() {
    assert_eq!(scale_amount(1, 20), None);
    assert_eq!(scale_amount(2, 19), None);
    assert_eq!(scale_amount(u64::MAX, 1), None);
    assert_eq!(scale_amount(1_844_674_407_370_955_162, 1), None);
    assert_eq!(scale_amount(1, 255), None);
}

#[test]
fn the_token_program_is_the_one_of_the_token_crate() {
    assert_eq!(SPL_TOKEN_PROGRAM_ID, spl_token::id().to_bytes());
    assert_eq!(TOKEN_PROGRAM.to_base58(), "TokenkegQfeZyiNwAJbNbGKPFXCWuBvf9Ss623VQ5DA");
    assert_eq!(TRANSFER_CHECKED_TAG, 12);
}

#[test]
fn token_accounts_are_derived_as_the_ledger_derives_them() {
    let account = token_account(&RECIPIENT, &MINT, &TOKEN_PROGRAM);
    let reference = spl_associated_token_account::get_associated_token_address_with_program_id(
        &pubkey(&RECIPIENT),
        &pubkey(&MINT),
        &pubkey(&TOKEN_PROGRAM),
    );
    assert_eq!(account.bytes, reference.to_bytes());
    assert_ne!(account, RECIPIENT);
    assert_ne!(account, MINT);
    assert_ne!(account, token_account(&MINT, &RECIPIENT, &TOKEN_PROGRAM));
    assert_eq!(account, token_account(&RECIPIENT, &MINT, &TOKEN_PROGRAM));
}

#[test]
fn a_transfer_instruction_lists_its_accounts_and_packs_the_amount() {
    let (source, destination, owner) =
        (Address { bytes: [1u8; 32] }, Address { bytes: [2u8; 32] }, Address { bytes: [8u8; 32] });
    let instruction =
        build_transfer(&TOKEN_PROGRAM, &source, &MINT, &destination, &owner, 2, 9).unwrap();
    assert_eq!(instruction.program_id, TOKEN_PROGRAM);
    assert_eq!(
        instruction.accounts,
        vec![
            AccountRef { address: source, is_signer: false, is_writable: true },
            AccountRef { address: MINT, is_signer: false, is_writable: false },
            AccountRef { address: destination, is_signer: false, is_writable: true },
            AccountRef { address: owner, is_signer: false, is_writable: false },
            AccountRef { address: owner, is_signer: true, is_writable: false },
        ]
    );
    assert_eq!(instruction.data, vec![12, 0x00, 0x94, 0x35, 0x77, 0, 0, 0, 0, 9]);
}

#[test]
fn another_program_or_an_oversized_amount_builds_no_instruction() {
    let (source, destination, owner) =
        (Address { bytes: [1u8; 32] }, Address { bytes: [2u8; 32] }, Address { bytes: [8u8; 32] });
    let other_program = Address { bytes: [6u8; 32] };
    match build_transfer(&other_program, &source, &MINT, &destination, &owner, 2, 9) {
        Err(WalletError::InstructionBuild { cause }) => {
            assert_eq!(cause, "The account did not have the expected program id")
        }
        other => panic!("unexpected outcome {:?}", other),
    }
    let oversized = build_transfer(&TOKEN_PROGRAM, &source, &MINT, &destination, &owner, 2, 19);
    assert!(matches!(oversized, Err(WalletError::InstructionBuild { .. })));
}

#[test]
fn a_transfer_needs_a_blockhash() {
    let (current, action) = start();
    assert_eq!(current, TransferStep::FetchingBlockhash);
    assert_eq!(action, Action::FetchBlockhash);
    let (next, action) = advance(&request(), current, Event::Blockhash(Err(String::from("offline"))));
    assert_eq!(next, TransferStep::Finished);
    let failure = WalletError::BlockhashFetch { cause: String::from("offline") };
    assert_eq!(action, Action::Finish { outcome: Err(failure) });
    assert_eq!(
        on_blockhash(Ok(BLOCKHASH)),
        (TransferStep::LoadingSigner { blockhash: BLOCKHASH }, Action::LoadSigner)
    );
}

#[test]
fn a_transfer_needs_a_readable_keyfile() {
    let files = [
        (KeyFile::Absent { cause: String::from("os error 2") }, "os error 2"),
        (KeyFile::Unreadable { cause: String::from("not json") }, "not json"),
    ];
    for (file, cause) in files {
        let current = TransferStep::LoadingSigner { blockhash: BLOCKHASH };
        let (next, action) = advance(&request(), current, Event::Signer(file));
        assert_eq!(next, TransferStep::Finished);
        let failure = WalletError::KeyFileRead { cause: String::from(cause) };
        assert_eq!(failure.message(), format!("Error while reading the signer info \n {}", cause));
        assert_eq!(action, Action::Finish { outcome: Err(failure) });
    }
}

#[test]
fn a_keyfile_with_mismatched_halves_is_refused() {
    let mut bytes = signer().bytes;
    bytes[1] ^= 0x40;
    let current = TransferStep::LoadingSigner { blockhash: BLOCKHASH };
    let event = Event::Signer(KeyFile::Holds(KeyPair { bytes }));
    let (next, action) = advance(&request(), current, event);
    assert_eq!(next, TransferStep::Finished);
    assert!(matches!(
        action,
        Action::Finish { outcome: Err(WalletError::PublicKeyDerivation { .. }) }
    ));
    let broken = Session { blockhash: BLOCKHASH, signer: KeyPair { bytes } };
    let (next, action) = on_account_probe(&request(), broken, false, true);
    assert_eq!(next, TransferStep::Finished);
    assert!(matches!(
        action,
        Action::Finish { outcome: Err(WalletError::PublicKeyDerivation { .. }) }
    ));
}

#[test]
fn a_sender_without_token_account_ends_the_transfer_at_the_probe() {
    let request = request();
    let (current, _) = start();
    let (current, _) = advance(&request, current, Event::Blockhash(Ok(BLOCKHASH)));
    let (current, action) = advance(&request, current, Event::Signer(KeyFile::Holds(signer())));
    assert!(matches!(action, Action::ProbeAccount { .. }));
    let (next, action) = advance(&request, current, Event::Account { exists: false });
    assert_eq!(next, TransferStep::Finished);
    let failure = WalletError::SenderNotProvisioned {
        sender: sender().to_base58(),
        mint: MINT.to_base58(),
    };
    assert_eq!(action, Action::Finish { outcome: Err(failure) });
    assert!(!next.expects(&Event::Account { exists: true }));
    assert!(!next.expects(&Event::Blockhash(Ok(BLOCKHASH))));
    assert_eq!(on_sender_probe(&request, session(), false).0, TransferStep::Finished);
}

#[test]
fn missing_wallet_and_account_are_provisioned_before_the_transfer() {
    let request = request();
    let current = up_to_account_probe(&request, false);
    let (current, action) = advance(&request, current, Event::Account { exists: false });
    assert_eq!(action, Action::FundWallet { wallet_address: RECIPIENT.to_base58() });
    let (current, action) = advance(&request, current, acknowledged(r#"{"Ok":"fundsig"}"#));
    let form = CreateTokenAccount {
        wallet_address: RECIPIENT.to_base58(),
        token_mint_address: MINT.to_base58(),
        token_program_id: TOKEN_PROGRAM.to_base58(),
        lbh: Blockhash::new_from_array(BLOCKHASH).to_string(),
    };
    assert_eq!(action, Action::CreateTokenAccount { request: form });
    let reply = acknowledged(r#"{"Ok":{"signatures":["creation","paired"]}}"#);
    let (current, action) = advance(&request, current, reply);
    expect_submission(action, &request, 2_000_000_000);
    let (next, action) = advance(&request, current, Event::Submitted(Ok(CONFIRMED)));
    assert_eq!(next, TransferStep::Finished);
    let transfer_sig = solana_sdk::signature::Signature::from(CONFIRMED).to_string();
    assert!(!transfer_sig.is_empty());
    let response = TransferResponse {
        create_account_sig: Some(String::from("creation")),
        funding_account_sig: Some(String::from("paired")),
        transfer_sig,
    };
    assert_eq!(action, Action::Finish { outcome: Ok(response) });
}

#[test]
fn an_existing_wallet_and_account_need_no_provisioning() {
    let request = request();
    let current = up_to_account_probe(&request, true);
    let (current, action) = advance(&request, current, Event::Account { exists: true });
    expect_submission(action, &request, 2_000_000_000);
    let (next, action) = advance(&request, current, Event::Submitted(Ok(CONFIRMED)));
    assert_eq!(next, TransferStep::Finished);
    match action {
        Action::Finish { outcome: Ok(response) } => {
            assert_eq!(response.create_account_sig, None);
            assert_eq!(response.funding_account_sig, None);
            assert_eq!(response.transfer_sig, solana_sdk::bs58::encode(CONFIRMED).into_string());
            assert!(!response.transfer_sig.is_empty());
        }
        other => panic!("unexpected action {:?}", other),
    }
}

#[test]
fn a_missing_wallet_alone_is_funded_and_leaves_no_signature() {
    let request = request();
    let current = up_to_account_probe(&request, false);
    let (current, action) = advance(&request, current, Event::Account { exists: true });
    assert_eq!(action, Action::FundWallet { wallet_address: RECIPIENT.to_base58() });
    let (current, action) = advance(&request, current, acknowledged(r#"{"Ok":"fundsig"}"#));
    expect_submission(action, &request, 2_000_000_000);
    assert_eq!(
        current,
        TransferStep::Submitting { create_account_sig: None, funding_account_sig: None }
    );
}

#[test]
fn a_missing_account_alone_is_created() {
    let request = request();
    let current = up_to_account_probe(&request, true);
    let (current, action) = advance(&request, current, Event::Account { exists: false });
    assert!(matches!(action, Action::CreateTokenAccount { .. }));
    let reply = acknowledged(r#"{"Ok":{"signatures":["c","p"]}}"#);
    let (current, action) = advance(&request, current, reply);
    expect_submission(action, &request, 2_000_000_000);
    assert_eq!(
        current,
        TransferStep::Submitting {
            create_account_sig: Some(String::from("c")),
            funding_account_sig: Some(String::from("p")),
        }
    );
}

#[test]
fn a_failed_funding_ends_the_transfer() {
    let request = request();
    let replies = [
        (
            HttpReply::Unreachable { stage: Stage::Send, cause: String::from("refused") },
            ProvisioningError::Unreachable { stage: Stage::Send, cause: String::from("refused") },
        ),
        (
            HttpReply::Response { status: 500, body: String::from("{}") },
            ProvisioningError::Rejected { status: 500 },
        ),
        (
            HttpReply::Response { status: 200, body: String::from("{}") },
            ProvisioningError::Malformed {
                fault: Fault::WrongShape { document: String::from("{}") },
            },
        ),
    ];
    for (reply, source) in replies {
        let current = TransferStep::FundingWallet { session: session(), account_missing: true };
        let (next, action) = advance(&request, current, Event::Provisioning(reply));
        assert_eq!(next, TransferStep::Finished);
        assert_eq!(action, Action::Finish { outcome: Err(WalletError::WalletFunding { source }) });
    }
}

#[test]
fn a_failed_account_creation_ends_the_transfer() {
    let request = request();
    let current = TransferStep::CreatingAccount { session: session() };
    let (next, action) = advance(&request, current, acknowledged(r#"{"Ok":{"signatures":["c"]}}"#));
    assert_eq!(next, TransferStep::Finished);
    let source = ProvisioningError::Malformed {
        fault: Fault::WrongShape { document: String::from(r#"{"Ok":{"signatures":["c"]}}"#) },
    };
    assert_eq!(action, Action::Finish { outcome: Err(WalletError::TokenAccountCreation { source }) });
}

#[test]
fn a_transfer_for_another_program_is_not_built() {
    let mut request = request();
    request.program_id = Address { bytes: [6u8; 32] };
    let (next, action) = on_account_probe(&request, session(), false, true);
    assert_eq!(next, TransferStep::Finished);
    assert!(matches!(action, Action::Finish { outcome: Err(WalletError::InstructionBuild { .. }) }));
    let mut request = self::request();
    request.decimals = 20;
    let (_, action) = on_account_probe(&request, session(), false, true);
    assert!(matches!(action, Action::Finish { outcome: Err(WalletError::InstructionBuild { .. }) }));
}

#[test]
fn an_unconfirmed_submission_ends_the_transfer() {
    let current = TransferStep::Submitting {
        create_account_sig: Some(String::from("c")),
        funding_account_sig: Some(String::from("p")),
    };
    let (next, action) =
        advance(&request(), current, Event::Submitted(Err(String::from("blockhash expired"))));
    assert_eq!(next, TransferStep::Finished);
    let failure = WalletError::Submission { cause: String::from("blockhash expired") };
    assert_eq!(action, Action::Finish { outcome: Err(failure) });
}

#[test]
fn each_step_expects_the_outcome_of_its_own_action() {
    let current = TransferStep::ProbingSenderAccount { session: session() };
    assert!(current.expects(&Event::Account { exists: true }));
    assert!(!current.expects(&Event::Blockhash(Ok(BLOCKHASH))));
    assert!(!current.expects(&Event::Signer(KeyFile::Absent { cause: String::new() })));
    assert!(!current.expects(&acknowledged("{}")));
    assert!(!current.expects(&Event::Submitted(Ok(CONFIRMED))));
    assert!(TransferStep::FetchingBlockhash.expects(&Event::Blockhash(Ok(BLOCKHASH))));
    assert!(!TransferStep::FetchingBlockhash.expects(&Event::Account { exists: true }));
}
