//! What the wallet computes before it talks to the ledger: token account
//! addresses, the transfer instruction and the signed transaction.

use crate::errors::WalletError;
use crate::keys::{Address, KeyPair};
use solana_sdk::instruction::{AccountMeta, Instruction};
use solana_sdk::pubkey::Pubkey;
use solana_sdk::signer::keypair::Keypair;
use solana_sdk::signer::Signer;
use solana_sdk::transaction::Transaction;
use vstd::bytes::spec_u64_to_le_bytes;
use vstd::prelude::*;
use vstd::string::StringExecFns;

verus! {

/// The address of the token program whose transfer instruction is built
/// here.
pub const SPL_TOKEN_PROGRAM_ID: [u8; 32] = [
    6, 221, 246, 225, 215, 101, 161, 147, 217, 203, 225, 70, 206, 235, 121, 172, 28, 180, 133,
    237, 95, 91, 55, 145, 58, 140, 245, 133, 126, 255, 0, 169,
];

/// The tag of a checked transfer in the token program's instruction data.
pub const TRANSFER_CHECKED_TAG: u8 = 12;

/// The associated token account of an owner for a mint under a token
/// program: a program-derived address of the three.
pub uninterp spec fn associated_token_address(
    owner: Seq<u8>,
    mint: Seq<u8>,
    token_program: Seq<u8>,
) -> Seq<u8>;

/// Ten to the power `d`.
pub open spec fn pow10(d: nat) -> nat
    decreases d,
{
    if d == 0 {
        1
    } else {
        10 * pow10((d - 1) as nat)
    }
}

/// An account that an instruction touches, and how.
#[derive(Debug, Clone, Copy, PartialEq, Eq)]
pub struct AccountRef {
    pub address: Address,
    pub is_signer: bool,
    pub is_writable: bool,
}

/// An instruction for a ledger program.
#[derive(Debug, Clone, PartialEq, Eq)]
pub struct TransferInstruction {
    pub program_id: Address,
    pub accounts: Vec<AccountRef>,
    pub data: Vec<u8>,
}

/// Whether `account` names `address` with the given rights.
pub open spec fn is_account(
    account: AccountRef,
    address: Seq<u8>,
    is_signer: bool,
    is_writable: bool,
) -> bool {
    account.address.bytes@ == address && account.is_signer == is_signer && account.is_writable
        == is_writable
}

/// The instruction data of a checked transfer: the tag, the amount in base
/// units as eight little-endian bytes, the decimals.
pub open spec fn transfer_checked_data(amount: u64, decimals: u8) -> Seq<u8> {
    seq![TRANSFER_CHECKED_TAG] + spec_u64_to_le_bytes(amount) + seq![decimals]
}

/// Whether `instruction` is the checked transfer of `amount` base units
/// from `source` to `destination`, authorised and signed by `authority`.
pub open spec fn is_transfer_checked(
    instruction: TransferInstruction,
    token_program: Seq<u8>,
    source: Seq<u8>,
    mint: Seq<u8>,
    destination: Seq<u8>,
    authority: Seq<u8>,
    amount: u64,
    decimals: u8,
) -> bool {
    &&& instruction.program_id.bytes@ == token_program
    &&& instruction.accounts@.len() == 5
    &&& is_account(instruction.accounts@[0], source, false, true)
    &&& is_account(instruction.accounts@[1], mint, false, false)
    &&& is_account(instruction.accounts@[2], destination, false, true)
    &&& is_account(instruction.accounts@[3], authority, false, false)
    &&& is_account(instruction.accounts@[4], authority, true, false)
    &&& instruction.data@ == transfer_checked_data(amount, decimals)
}

/// Derives an associated token account with
/// `spl_associated_token_account::get_associated_token_address_with_program_id`.
///
/// Trusted: the address is a function of the three addresses alone. The
/// derivation searches for a bump seed and gives up only if none of the 255
/// candidates is off the curve, which is not known to happen for any input.
#[verifier::external_body]
fn derive_token_account(owner: &[u8; 32], mint: &[u8; 32], token_program: &[u8; 32]) -> (account:
    [u8; 32])
    ensures
        account@ == associated_token_address(owner@, mint@, token_program@),
{
    spl_associated_token_account::get_associated_token_address_with_program_id(
        &Pubkey::from(*owner),
        &Pubkey::from(*mint),
        &Pubkey::from(*token_program),
    ).to_bytes()
}

/// What the instruction builder says of a program that is not the token
/// program.
pub open spec fn program_refusal() -> Seq<char> {
    "The account did not have the expected program id"@
}

/// What is said of an amount whose base units do not fit 64 bits.
pub open spec fn amount_refusal() -> Seq<char> {
    "the amount in base units exceeds 64 bits"@
}

/// Builds a checked transfer with `spl_token::instruction::transfer_checked`,
/// with `authority` as owner and only signer.
///
/// Trusted: the builder refuses exactly the program addresses other than
/// the token program's own, always with the same words; otherwise the
/// instruction names the program,
/// lists source (writable), mint, destination (writable), the authority and
/// the authority again as signer, and carries the packed tag, amount and
/// decimals. On refusal the error's text is returned.
#[verifier::external_body]
fn transfer_checked(
    token_program: &[u8; 32],
    source: &[u8; 32],
    mint: &[u8; 32],
    destination: &[u8; 32],
    authority: &[u8; 32],
    amount: u64,
    decimals: u8,
) -> (r: Result<TransferInstruction, String>)
    ensures
        r is Ok <==> token_program@ == SPL_TOKEN_PROGRAM_ID@,
        r matches Ok(instruction) ==> is_transfer_checked(
            instruction,
            token_program@,
            source@,
            mint@,
            destination@,
            authority@,
            amount,
            decimals,
        ),
        r matches Err(cause) ==> cause@ == program_refusal(),
{
    let owner = Pubkey::from(*authority);
    let (program, mint) = (Pubkey::from(*token_program), Pubkey::from(*mint));
    let (from, to) = (Pubkey::from(*source), Pubkey::from(*destination));
    let built = spl_token::instruction::transfer_checked(
        &program, &from, &mint, &to, &owner, &[&owner], amount, decimals,
    ).map_err(|e| e.to_string())?;
    let accounts = built.accounts.iter().map(|a| AccountRef {
        address: Address { bytes: a.pubkey.to_bytes() },
        is_signer: a.is_signer,
        is_writable: a.is_writable,
    }).collect();
    Ok(TransferInstruction { program_id: Address { bytes: built.program_id.to_bytes() }, accounts, data: built.data })
}

/// The most accounts and data bytes of an instruction that is signed here.
pub const MAX_ACCOUNTS: usize = 64;

pub const MAX_DATA_LEN: usize = 1024;

/// Whether `signer` alone can sign `instruction`: it is a keypair, every
/// account that must sign is its address, and the instruction is small
/// enough for one transaction.
pub open spec fn signable_by(instruction: TransferInstruction, signer: KeyPair) -> bool {
    &&& signer.well_formed()
    &&& instruction.accounts@.len() <= MAX_ACCOUNTS
    &&& instruction.data@.len() <= MAX_DATA_LEN
    &&& forall|i: int|
        0 <= i < instruction.accounts@.len() && instruction.accounts@[i].is_signer
            ==> instruction.accounts@[i].address.bytes@ == signer.public()
}

/// The wire bytes of the signed transaction that carries one instruction,
/// given by its program, accounts and data: the keypair `signer` pays the
/// fee and is the only one to sign, and the transaction is anchored to
/// `blockhash`.
pub uninterp spec fn signed_transaction(
    program_id: Seq<u8>,
    accounts: Seq<AccountRef>,
    data: Seq<u8>,
    signer: Seq<u8>,
    blockhash: Seq<u8>,
) -> Seq<u8>;

/// The wire bytes of the transaction that carries `instruction`, signed and
/// paid for by `signer` and anchored to `blockhash`.
pub open spec fn signed_transfer(
    instruction: TransferInstruction,
    signer: KeyPair,
    blockhash: [u8; 32],
) -> Seq<u8> {
    signed_transaction(
        instruction.program_id.bytes@,
        instruction.accounts@,
        instruction.data@,
        signer.bytes@,
        blockhash@,
    )
}

/// Wraps the instruction in a transaction with
/// `Transaction::new_signed_with_payer`, the signer as fee payer and only
/// signatory, and writes its wire form with `bincode::serialize`.
///
/// Trusted: the call returns for every instruction that the signer alone
/// can sign, and the bytes are a function of the instruction, the keypair
/// and the blockhash alone: Ed25519 signatures are deterministic, and the
/// wire form is refused only for lists longer than 65535.
#[verifier::external_body]
fn sign_with_payer(instruction: &TransferInstruction, signer: &KeyPair, blockhash: &[u8; 32]) -> (r:
    Result<Vec<u8>, String>)
    requires
        signable_by(*instruction, *signer),
    ensures
        r is Ok,
        r matches Ok(bytes) ==> bytes@ == signed_transaction(
            instruction.program_id.bytes@,
            instruction.accounts@,
            instruction.data@,
            signer.bytes@,
            blockhash@,
        ),
{
    let keypair = Keypair::from_bytes(&signer.bytes).map_err(|e| e.to_string())?;
    let accounts = instruction.accounts.iter().map(|a| AccountMeta {
        pubkey: Pubkey::from(a.address.bytes),
        is_signer: a.is_signer,
        is_writable: a.is_writable,
    }).collect();
    let program_id = Pubkey::from(instruction.program_id.bytes);
    let instruction = Instruction { program_id, accounts, data: instruction.data.clone() };
    let (payer, anchor) = (keypair.pubkey(), solana_sdk::hash::Hash::new_from_array(*blockhash));
    let signed = Transaction::new_signed_with_payer(&[instruction], Some(&payer), &[&keypair], anchor);
    bincode::serialize(&signed).map_err(|e| e.to_string())
}

/// Powers of ten are positive and grow with the exponent.
proof fn lemma_pow10_grows(low: nat, high: nat)
    requires
        low <= high,
    ensures
        1 <= pow10(low) <= pow10(high),
    decreases high,
{
    if high == 0 {
    } else if low == high {
        lemma_pow10_grows((low - 1) as nat, (high - 1) as nat);
    } else {
        lemma_pow10_grows(low, (high - 1) as nat);
    }
}

/// The base units of `amount` whole units of a token with `decimals`
/// decimals: `amount * 10^decimals`.
pub open spec fn base_units(amount: u64, decimals: u8) -> nat {
    amount as nat * pow10(decimals as nat)
}

/// Converts whole token units to base units; `None` if the base units do
/// not fit the ledger's 64-bit amounts.
pub fn scale_amount(amount: u64, decimals: u8) -> (scaled: Option<u64>)
    ensures
        match scaled {
            Some(units) => units == base_units(amount, decimals),
            None => base_units(amount, decimals) > u64::MAX,
        },
{
    let mut scaled: u64 = amount;
    let mut done: u8 = 0;
    assert(pow10(0) == 1);
    while done < decimals
        invariant
            done <= decimals,
            scaled == amount as nat * pow10(done as nat),
        decreases decimals - done,
    {
        let ghost reached = pow10(done as nat);
        assert(amount as nat * (10 * reached) == (amount as nat * reached) * 10)
            by (nonlinear_arith);
        match scaled.checked_mul(10) {
            Some(next) => {
                scaled = next;
                done = done + 1;
            },
            None => {
                proof {
                    let ghost low = pow10((done + 1) as nat);
                    let ghost high = pow10(decimals as nat);
                    lemma_pow10_grows((done + 1) as nat, decimals as nat);
                    assert(amount as nat * low <= amount as nat * high) by (nonlinear_arith)
                        requires
                            low <= high,
                    ;
                }
                return None;
            },
        }
    }
    Some(scaled)
}

/// The associated token account of `owner` for `mint` under
/// `token_program`.
pub fn token_account(owner: &Address, mint: &Address, token_program: &Address) -> (account: Address)
    ensures
        account.bytes@ == associated_token_address(
            owner.bytes@,
            mint.bytes@,
            token_program.bytes@,
        ),
{
    Address { bytes: derive_token_account(&owner.bytes, &mint.bytes, &token_program.bytes) }
}

/// Whether a checked transfer of `amount` whole units can be built for
/// `token_program`: the base units fit 64 bits and the program is the token
/// program.
pub open spec fn transfer_buildable(token_program: Seq<u8>, amount: u64, decimals: u8) -> bool {
    base_units(amount, decimals) <= u64::MAX && token_program == SPL_TOKEN_PROGRAM_ID@
}

/// Why no checked transfer can be built: the amount is looked at before
/// the program.
pub open spec fn build_refusal(token_program: Seq<u8>, amount: u64, decimals: u8) -> Seq<char> {
    if base_units(amount, decimals) > u64::MAX {
        amount_refusal()
    } else {
        program_refusal()
    }
}

/// Builds the checked transfer of `amount` whole units, scaled to base
/// units, from `source` to `destination`, authorised and signed by
/// `authority`.
pub fn build_transfer(
    token_program: &Address,
    source: &Address,
    mint: &Address,
    destination: &Address,
    authority: &Address,
    amount: u64,
    decimals: u8,
) -> (r: Result<TransferInstruction, WalletError>)
    ensures
        !transfer_buildable(token_program.bytes@, amount, decimals) ==> (r matches Err(
            WalletError::InstructionBuild { cause },
        ) && cause@ == build_refusal(token_program.bytes@, amount, decimals)),
        transfer_buildable(token_program.bytes@, amount, decimals) ==> (r matches Ok(instruction)
            && is_transfer_checked(
            instruction,
            token_program.bytes@,
            source.bytes@,
            mint.bytes@,
            destination.bytes@,
            authority.bytes@,
            base_units(amount, decimals) as u64,
            decimals,
        )),
{
    let units = match scale_amount(amount, decimals) {
        Some(units) => units,
        None => {
            return Err(
                WalletError::InstructionBuild {
                    cause: String::from_str("the amount in base units exceeds 64 bits"),
                },
            );
        },
    };
    match transfer_checked(
        &token_program.bytes,
        &source.bytes,
        &mint.bytes,
        &destination.bytes,
        &authority.bytes,
        units,
        decimals,
    ) {
        Ok(instruction) => Ok(instruction),
        Err(cause) => Err(WalletError::InstructionBuild { cause }),
    }
}

/// A checked transfer can be signed by the keypair of its authority.
pub proof fn lemma_transfer_is_signable(
    instruction: TransferInstruction,
    token_program: Seq<u8>,
    source: Seq<u8>,
    mint: Seq<u8>,
    destination: Seq<u8>,
    amount: u64,
    decimals: u8,
    signer: KeyPair,
)
    requires
        signer.well_formed(),
        is_transfer_checked(
            instruction,
            token_program,
            source,
            mint,
            destination,
            signer.public(),
            amount,
            decimals,
        ),
    ensures
        signable_by(instruction, signer),
{
    vstd::bytes::lemma_auto_spec_u64_to_from_le_bytes();
    assert(spec_u64_to_le_bytes(amount).len() == 8);
    assert forall|i: int|
        0 <= i < instruction.accounts@.len()
            && instruction.accounts@[i].is_signer implies instruction.accounts@[i].address.bytes@
        == signer.public() by {
        if i == 0 {
        } else if i == 1 {
        } else if i == 2 {
        } else if i == 3 {
        } else {
            assert(i == 4);
        }
    }
}

/// Signs the transaction that carries `instruction` and returns its wire
/// bytes: the signer pays the fee and is the only one to sign, anchored to
/// `blockhash`.
pub(crate) fn sign_transfer(
    instruction: &TransferInstruction,
    signer: &KeyPair,
    blockhash: &[u8; 32],
) -> (r: Result<Vec<u8>, WalletError>)
    requires
        signable_by(*instruction, *signer),
    ensures
        r matches Ok(bytes) && bytes@ == signed_transfer(*instruction, *signer, *blockhash),
{
    match sign_with_payer(instruction, signer, blockhash) {
        Ok(transaction) => Ok(transaction),
        Err(cause) => Err(WalletError::Submission { cause }),
    }
}

} // verus!
