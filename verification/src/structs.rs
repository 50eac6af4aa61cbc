//! Values handed to and returned by the wallet operations.

use vstd::prelude::*;
use vstd::string::StringExecFns;

verus! {

/// The words joined by single spaces, in order.
pub open spec fn joined(words: Seq<Seq<char>>) -> Seq<char>
    decreases words.len(),
{
    if words.len() == 0 {
        Seq::empty()
    } else if words.len() == 1 {
        words[0]
    } else {
        joined(words.drop_last()) + seq![' '] + words.last()
    }
}

/// A recovery phrase of exactly twelve words.
#[derive(Debug, Clone, Copy, PartialEq, Eq)]
pub struct MnemonicInput<'a> {
    pub words: [&'a str; 12],
}

impl<'a> MnemonicInput<'a> {
    /// The twelve words as character sequences.
    pub open spec fn word_views(self) -> Seq<Seq<char>> {
        Seq::new(12, |i: int| self.words[i]@)
    }

    /// The phrase as it is written down: the words separated by one space.
    pub open spec fn phrase_text(self) -> Seq<char> {
        joined(self.word_views())
    }

    /// Writes the phrase: the twelve words separated by single spaces.
    pub fn phrase(&self) -> (text: String)
        ensures
            text@ == self.phrase_text(),
    {
        let mut text = String::from_str(self.words[0]);
        let ghost all = self.word_views();
        assert(all.take(1) =~= seq![all[0]]);
        let mut index: usize = 1;
        while index < 12
            invariant
                1 <= index <= 12,
                all == self.word_views(),
                text@ == joined(all.take(index as int)),
            decreases 12 - index,
        {
            let ghost before = all.take(index as int);
            let ghost after = all.take(index as int + 1);
            assert(after.drop_last() =~= before);
            assert(after.last() == all[index as int]);
            text.append(" ");
            proof {
                reveal_strlit(" ");
                assert(" "@ =~= seq![' ']);
            }
            text.append(self.words[index]);
            index = index + 1;
        }
        assert(all.take(12) =~= all);
        text
    }
}

/// What the user receives when an identity is created or imported.
#[derive(Debug, Default, Clone, PartialEq, Eq)]
pub struct NewAccountOutput<'b> {
    /// The recovery phrase, present only when the identity was freshly
    /// generated.
    pub mnemonic: Option<MnemonicInput<'b>>,
    /// The public address, in base58.
    pub pub_key: String,
    /// The keypair, secret half first, in base58.
    pub keypair: String,
}

/// The fields of a request to create an associated token account.
#[derive(Debug, Default, Clone, PartialEq, Eq)]
pub struct CreateTokenAccount {
    pub wallet_address: String,
    pub token_mint_address: String,
    pub token_program_id: String,
    pub lbh: String,
}

/// The acknowledgement of a created token account: the signature of the
/// account creation, then the signature paired with it.
#[derive(Debug, Clone, PartialEq, Eq)]
pub struct CreateTokenAccountResponse {
    pub signatures: Vec<String>,
}

/// The outcome of a transfer. An absent optional signature means that the
/// step was skipped because its precondition already held.
#[derive(Debug, Clone, PartialEq, Eq)]
pub struct TransferResponse {
    pub create_account_sig: Option<String>,
    pub funding_account_sig: Option<String>,
    pub transfer_sig: String,
}

} // verus!
