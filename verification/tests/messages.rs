use solana_wallet::decimal::decimal_string;
use solana_wallet::errors::{Fault, Operation, ProvisioningError, Stage, WalletError};

fn text(s: &str) -> String {
    String::from(s)
}

#[test]
fn numbers_are_written_in_decimal() {
    assert_eq!(decimal_string(0), "0");
    assert_eq!(decimal_string(7), "7");
    assert_eq!(decimal_string(10), "10");
    assert_eq!(decimal_string(404), "404");
    assert_eq!(decimal_string(1000), "1000");
    assert_eq!(decimal_string(65535), "65535");
    let mut n: u16 = 0;
    loop {
        assert_eq!(decimal_string(n), format!("{}", n));
        if n > 65535 - 97 {
            break;
        }
        n += 97;
    }
}

#[test]
fn undelivered_requests_read_as_sentences() {
    let failed = |stage: Stage| ProvisioningError::Unreachable { stage, cause: text("timeout") };
    assert_eq!(
        failed(Stage::Build).message(Operation::FundWallet),
        "couldn't build the fund wallet request due to timeout"
    );
    assert_eq!(
        failed(Stage::Build).message(Operation::CreateTokenAccount),
        "couldn't build the create account request due to timeout"
    );
    for operation in [Operation::FundWallet, Operation::CreateTokenAccount] {
        assert_eq!(failed(Stage::Send).message(operation), "sending request failed due to \n timeout");
        assert_eq!(
            failed(Stage::Read).message(operation),
            "couldn't fetch the response text due to \n timeout"
        );
    }
}

#[test]
fn rejections_read_as_the_status_line() {
    let rejected = |status: u16| ProvisioningError::Rejected { status }.message(Operation::FundWallet);
    assert_eq!(rejected(503), "server returned 503 Service Unavailable");
    assert_eq!(rejected(404), "server returned 404 Not Found");
    assert_eq!(rejected(201), "server returned 201 Created");
    assert_eq!(rejected(100), "server returned 100 Continue");
    assert_eq!(rejected(999), "server returned 999 <unknown status code>");
    assert_eq!(rejected(99), "server returned 99");
    assert_eq!(rejected(1000), "server returned 1000");
    assert_eq!(rejected(0), "server returned 0");
    assert_eq!(
        ProvisioningError::Rejected { status: 500 }.message(Operation::CreateTokenAccount),
        format!("server returned {}", reqwest::StatusCode::INTERNAL_SERVER_ERROR)
    );
}

#[test]
fn malformed_acknowledgements_read_as_sentences() {
    let not_json = ProvisioningError::Malformed { fault: Fault::NotJson { cause: text("EOF") } };
    for operation in [Operation::FundWallet, Operation::CreateTokenAccount] {
        assert_eq!(not_json.message(operation), "failed to parse the response due to EOF");
    }
    let shape = ProvisioningError::Malformed { fault: Fault::WrongShape { document: text("{}") } };
    assert_eq!(
        shape.message(Operation::FundWallet),
        "failed to read the signature ! \n server returned {}"
    );
    assert_eq!(
        shape.message(Operation::CreateTokenAccount),
        "failed to read the signatures ! \n server returned {}"
    );
}

#[test]
fn provisioning_failures_are_wrapped_with_their_step() {
    let source = ProvisioningError::Rejected { status: 500 };
    assert_eq!(
        WalletError::WalletFunding { source: source.clone() }.message(),
        "failed to fund the recipient wallet due to \n server returned 500 Internal Server Error"
    );
    assert_eq!(
        WalletError::TokenAccountCreation { source }.message(),
        "failed to create the associated token account due to \n server returned 500 Internal Server Error"
    );
}

#[test]
fn a_funding_failure_is_worded_for_its_request() {
    let source = ProvisioningError::Malformed { fault: Fault::WrongShape { document: text("[]") } };
    assert_eq!(
        WalletError::WalletFunding { source: source.clone() }.message(),
        "failed to fund the recipient wallet due to \n failed to read the signature ! \n server returned []"
    );
    assert_eq!(
        WalletError::TokenAccountCreation { source }.message(),
        "failed to create the associated token account due to \n failed to read the signatures ! \n server returned []"
    );
}

#[test]
fn importing_twelve_short_words_reads_as_the_seed_failure() {
    let phrase = solana_wallet::structs::MnemonicInput { words: ["a"; 12] };
    match solana_wallet::account::add_existing_account(&phrase) {
        Err(e) => {
            assert!(matches!(e, WalletError::SeedDerivation { .. }));
            assert!(e.message().starts_with("could't build the key pair from the seed"));
        }
        Ok(_) => panic!("a phrase of 23 bytes was accepted"),
    }
}

#[test]
fn the_seed_failure_carries_the_cause() {
    match solana_wallet::keys::KeyPair::from_seed(&[0u8; 4]) {
        Err(e) => assert_eq!(
            e.message(),
            "could't build the key pair from the seed due to \n \"Seed is too short\""
        ),
        Ok(_) => panic!("a seed of four bytes was accepted"),
    }
}
