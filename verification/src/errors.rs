//! Error kinds of the wallet, and the sentences shown to the user.

use crate::decimal::{decimal_string, decimal_text};
use vstd::prelude::*;
use vstd::string::StringExecFns;

verus! {

/// The two requests that the provisioning backend serves.
#[derive(Debug, Clone, Copy, PartialEq, Eq)]
pub enum Operation {
    /// Fund a wallet.
    FundWallet,
    /// Create an associated token account.
    CreateTokenAccount,
}

/// The part of a request at which it broke off.
#[derive(Debug, Clone, Copy, PartialEq, Eq)]
pub enum Stage {
    /// The request could not be put together.
    Build,
    /// The request could not be sent, or no response arrived.
    Send,
    /// The body of the response could not be read.
    Read,
}

/// What is wrong with the body of a response.
#[derive(Debug, Clone, PartialEq, Eq)]
pub enum Fault {
    /// The body is no JSON document; `cause` is the parser's message.
    NotJson { cause: String },
    /// The body is a JSON document, `document` when written out again, but
    /// not the expected acknowledgement.
    WrongShape { document: String },
}

/// Why a call to the provisioning backend did not yield an acknowledgement.
#[derive(Debug, Clone, PartialEq, Eq)]
pub enum ProvisioningError {
    /// The request could not be delivered or no response came back.
    Unreachable { stage: Stage, cause: String },
    /// The backend answered with a status other than 200.
    Rejected { status: u16 },
    /// The backend answered 200 but the body is not the expected
    /// acknowledgement.
    Malformed { fault: Fault },
}

/// The status line of an HTTP status, as the HTTP client prints it: the
/// code and its canonical reason phrase.
pub uninterp spec fn status_line(status: u16) -> Seq<char>;

/// Whether a number is an HTTP status code.
pub open spec fn is_status_code(status: u16) -> bool {
    100 <= status <= 999
}

/// How a status is written in a message: as its status line, or as the
/// bare number where it is no status code.
pub open spec fn status_text(status: u16) -> Seq<char> {
    if is_status_code(status) {
        status_line(status)
    } else {
        decimal_text(status as nat)
    }
}

/// Prints a status with `reqwest::StatusCode::from_u16` and its `Display`.
///
/// Trusted: exactly the numbers from 100 to 999 are status codes, and the
/// text printed for one depends on the number alone.
#[verifier::external_body]
fn http_status_line(status: u16) -> (r: Option<String>)
    ensures
        r is Some <==> is_status_code(status),
        r matches Some(line) ==> line@ == status_line(status),
{
    match reqwest::StatusCode::from_u16(status) {
        Ok(code) => Some(code.to_string()),
        Err(_) => None,
    }
}

/// Every way a wallet operation can fail.
#[derive(Debug, Clone, PartialEq, Eq)]
pub enum WalletError {
    /// An identity is already stored and no override was given.
    AccountAlreadyExists,
    /// The sender holds no token account for the mint.
    SenderNotProvisioned { sender: String, mint: String },
    /// The entropy could not be encoded as a twelve-word phrase.
    EntropyEncoding { cause: String },
    /// The phrase is too short to seed a signing key.
    SeedDerivation { cause: String },
    /// No address could be extracted from the keypair.
    PublicKeyDerivation { cause: String },
    /// The keyfile is missing, unreadable or malformed.
    KeyFileRead { cause: String },
    /// The keyfile could not be written.
    KeyFileWrite { cause: String },
    /// The ledger gave no recent blockhash.
    BlockhashFetch { cause: String },
    /// Funding the recipient wallet failed.
    WalletFunding { source: ProvisioningError },
    /// Creating the recipient token account failed.
    TokenAccountCreation { source: ProvisioningError },
    /// The transfer instruction was rejected while being built.
    InstructionBuild { cause: String },
    /// The ledger did not accept or confirm the transaction.
    Submission { cause: String },
}

impl ProvisioningError {
    /// The sentence for this failure of `operation`.
    pub open spec fn message_text(self, operation: Operation) -> Seq<char> {
        match self {
            ProvisioningError::Unreachable { stage, cause } => match stage {
                Stage::Build => match operation {
                    Operation::FundWallet => "couldn't build the fund wallet request due to "@
                        + cause@,
                    Operation::CreateTokenAccount =>
                        "couldn't build the create account request due to "@ + cause@,
                },
                Stage::Send => "sending request failed due to \n "@ + cause@,
                Stage::Read => "couldn't fetch the response text due to \n "@ + cause@,
            },
            ProvisioningError::Rejected { status } => "server returned "@ + status_text(status),
            ProvisioningError::Malformed { fault } => match fault {
                Fault::NotJson { cause } => "failed to parse the response due to "@ + cause@,
                Fault::WrongShape { document } => match operation {
                    Operation::FundWallet =>
                        "failed to read the signature ! \n server returned "@ + document@,
                    Operation::CreateTokenAccount =>
                        "failed to read the signatures ! \n server returned "@ + document@,
                },
            },
        }
    }

    /// Renders the failure of `operation` as a complete sentence.
    pub fn message(&self, operation: Operation) -> (text: String)
        ensures
            text@ == self.message_text(operation),
    {
        match self {
            ProvisioningError::Unreachable { stage, cause } => {
                let opening = match stage {
                    Stage::Build => match operation {
                        Operation::FundWallet => "couldn't build the fund wallet request due to ",
                        Operation::CreateTokenAccount =>
                            "couldn't build the create account request due to ",
                    },
                    Stage::Send => "sending request failed due to \n ",
                    Stage::Read => "couldn't fetch the response text due to \n ",
                };
                String::from_str(opening).concat(cause.as_str())
            },
            ProvisioningError::Rejected { status } => {
                let line = match http_status_line(*status) {
                    Some(line) => line,
                    None => decimal_string(*status),
                };
                String::from_str("server returned ").concat(line.as_str())
            },
            ProvisioningError::Malformed { fault } => match fault {
                Fault::NotJson { cause } => String::from_str(
                    "failed to parse the response due to ",
                ).concat(cause.as_str()),
                Fault::WrongShape { document } => {
                    let opening = match operation {
                        Operation::FundWallet =>
                            "failed to read the signature ! \n server returned ",
                        Operation::CreateTokenAccount =>
                            "failed to read the signatures ! \n server returned ",
                    };
                    String::from_str(opening).concat(document.as_str())
                },
            },
        }
    }
}

impl WalletError {
    /// The sentence for this failure.
    pub open spec fn message_text(self) -> Seq<char> {
        match self {
            WalletError::AccountAlreadyExists =>
                "you already have an account !\n            if you want a new account delete the previous one\n            \u{274c} DISCLAIMER : deleting an account can result to permanent loss of the account owned assets \u{274c}"@,
            WalletError::SenderNotProvisioned { sender, mint } => "user "@ + sender@
                + " doesn't have any account nor any balance of the "@ + mint@ + " token"@,
            WalletError::EntropyEncoding { cause } => "Error while generating the Mnemonic \n "@
                + cause@,
            WalletError::SeedDerivation { cause } =>
                "could't build the key pair from the seed due to \n "@ + cause@,
            WalletError::PublicKeyDerivation { cause } =>
                "could't build the addr from key pair derived from the seed due to \n "@
                    + cause@,
            WalletError::KeyFileRead { cause } => "Error while reading the signer info \n "@
                + cause@,
            WalletError::KeyFileWrite { cause } => "error while saving the key pair \n "@
                + cause@,
            WalletError::BlockhashFetch { cause } =>
                "Error while etching the latest block hash \n "@ + cause@,
            WalletError::WalletFunding { source } =>
                "failed to fund the recipient wallet due to \n "@ + source.message_text(
                    Operation::FundWallet,
                ),
            WalletError::TokenAccountCreation { source } =>
                "failed to create the associated token account due to \n "@
                    + source.message_text(Operation::CreateTokenAccount),
            WalletError::InstructionBuild { cause } =>
                "failed to create the instruction due to \n "@ + cause@,
            WalletError::Submission { cause } => "transaction failed due to \n "@ + cause@,
        }
    }

    /// Renders the failure as a complete sentence.
    pub fn message(&self) -> (text: String)
        ensures
            text@ == self.message_text(),
    {
        match self {
            WalletError::AccountAlreadyExists => String::from_str(
                "you already have an account !\n            if you want a new account delete the previous one\n            \u{274c} DISCLAIMER : deleting an account can result to permanent loss of the account owned assets \u{274c}",
            ),
            WalletError::SenderNotProvisioned { sender, mint } => {
                String::from_str("user ").concat(sender.as_str()).concat(
                    " doesn't have any account nor any balance of the ",
                ).concat(mint.as_str()).concat(" token")
            },
            WalletError::EntropyEncoding { cause } => String::from_str(
                "Error while generating the Mnemonic \n ",
            ).concat(cause.as_str()),
            WalletError::SeedDerivation { cause } => String::from_str(
                "could't build the key pair from the seed due to \n ",
            ).concat(cause.as_str()),
            WalletError::PublicKeyDerivation { cause } => String::from_str(
                "could't build the addr from key pair derived from the seed due to \n ",
            ).concat(cause.as_str()),
            WalletError::KeyFileRead { cause } => String::from_str(
                "Error while reading the signer info \n ",
            ).concat(cause.as_str()),
            WalletError::KeyFileWrite { cause } => String::from_str(
                "error while saving the key pair \n ",
            ).concat(cause.as_str()),
            WalletError::BlockhashFetch { cause } => String::from_str(
                "Error while etching the latest block hash \n ",
            ).concat(cause.as_str()),
            WalletError::WalletFunding { source } => {
                let inner = source.message(Operation::FundWallet);
                String::from_str("failed to fund the recipient wallet due to \n ").concat(
                    inner.as_str(),
                )
            },
            WalletError::TokenAccountCreation { source } => {
                let inner = source.message(Operation::CreateTokenAccount);
                String::from_str(
                    "failed to create the associated token account due to \n ",
                ).concat(inner.as_str())
            },
            WalletError::InstructionBuild { cause } => String::from_str(
                "failed to create the instruction due to \n ",
            ).concat(cause.as_str()),
            WalletError::Submission { cause } => String::from_str(
                "transaction failed due to \n ",
            ).concat(cause.as_str()),
        }
    }
}

} // verus!
