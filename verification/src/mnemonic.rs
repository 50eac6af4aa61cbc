//! Generation of recovery phrases.

use crate::decimal::decimal_text;
use crate::errors::WalletError;
use crate::structs::{joined, MnemonicInput};
use rand::Rng;
use vstd::prelude::*;
use vstd::string::StringExecFns;

verus! {

/// The words that the standard English wordlist assigns to an entropy
/// buffer, checksum word included.
pub uninterp spec fn bip39_words(entropy: Seq<u8>) -> Seq<Seq<char>>;

/// Whether a phrase is a well-formed mnemonic: a supported number of words,
/// all from the standard wordlist, with a matching checksum.
pub uninterp spec fn mnemonic_is_valid(phrase: Seq<char>) -> bool;

/// The buffer lengths, in bytes, that the wordlist encoding accepts: 128 to
/// 256 bits in steps of 32.
pub open spec fn encodable_entropy_len(len: nat) -> bool {
    len == 16 || len == 20 || len == 24 || len == 28 || len == 32
}

/// The shape that every word of the standard English wordlist has: three
/// to eight lower-case letters. Not every text of this shape is in the
/// list.
pub open spec fn has_word_shape(word: Seq<char>) -> bool {
    3 <= word.len() <= 8 && forall|i: int| 0 <= i < word.len() ==> 'a' <= #[trigger] word[i] <= 'z'
}

/// What the encoder says of a buffer of `bits` bits that it refuses, as its
/// error is printed for debugging.
pub open spec fn bit_count_refusal(bits: nat) -> Seq<char> {
    "BadEntropyBitCount("@ + decimal_text(bits) + ")"@
}

/// What is said of words that are not twelve.
pub open spec fn word_count_refusal() -> Seq<char> {
    "the entropy does not encode twelve words"@
}

/// The character sequences of a list of words.
pub open spec fn views_of(words: Seq<&'static str>) -> Seq<Seq<char>> {
    Seq::new(words.len(), |i: int| words[i]@)
}

/// Draws sixteen bytes from `rand::thread_rng()` with `Rng::fill`.
///
/// Trusted: nothing is claimed of the bytes. The call aborts if the
/// operating system cannot seed the generator.
#[verifier::external_body]
fn fresh_entropy() -> [u8; 16] {
    let mut entropy: [u8; 16] = [0; 16];
    rand::thread_rng().fill(&mut entropy);
    entropy
}

/// Encodes a buffer with `bip39::Mnemonic::from_entropy` and collects the
/// words of the result.
///
/// Trusted: the encoder accepts exactly the buffers of 128 to 256 bits whose
/// length is a multiple of 32 bits, yields three words for every four bytes,
/// each a word of the English wordlist and so of three to eight lower-case
/// letters, and what it yields always passes the crate's own parser,
/// checksum included. On refusal the error's debug text is returned, which
/// names the number of bits as long as that number fits the machine word.
#[verifier::external_body]
fn entropy_words(entropy: &[u8]) -> (r: Result<Vec<&'static str>, String>)
    ensures
        r is Ok <==> encodable_entropy_len(entropy@.len()),
        r matches Ok(words) ==> {
            &&& words@.len() * 4 == entropy@.len() * 3
            &&& views_of(words@) == bip39_words(entropy@)
            &&& mnemonic_is_valid(joined(bip39_words(entropy@)))
            &&& forall|i: int| 0 <= i < words@.len() ==> has_word_shape(#[trigger] words@[i]@)
        },
        r matches Err(cause) ==> (entropy@.len() * 8 <= usize::MAX ==> cause@ == bit_count_refusal(
            entropy@.len() * 8,
        )),
{
    match bip39::Mnemonic::from_entropy(entropy) {
        Ok(mnemonic) => Ok(mnemonic.words().collect()),
        Err(e) => Err(format!("{:?}", e)),
    }
}

/// Runs a phrase through `bip39::Mnemonic::parse_normalized`.
///
/// Trusted: the answer is the parser's verdict on this text.
#[verifier::external_body]
fn parses_as_mnemonic(phrase: &str) -> (ok: bool)
    ensures
        ok == mnemonic_is_valid(phrase@),
{
    bip39::Mnemonic::parse_normalized(phrase).is_ok()
}

impl<'a> MnemonicInput<'a> {
    /// Every word has the shape of the words of the standard wordlist:
    /// three to eight lower-case letters.
    pub open spec fn words_have_shape(self) -> bool {
        forall|i: int| 0 <= i < 12 ==> has_word_shape(#[trigger] self.word_views()[i])
    }

    /// Whether the phrase is a well-formed mnemonic of the standard
    /// wordlist.
    pub fn is_valid(&self) -> (ok: bool)
        ensures
            ok == mnemonic_is_valid(self.phrase_text()),
    {
        let text = self.phrase();
        parses_as_mnemonic(text.as_str())
    }
}

/// Takes twelve words as a phrase; any other number of words is refused.
pub fn phrase_from_words(words: Vec<&'static str>) -> (r: Result<
    MnemonicInput<'static>,
    WalletError,
>)
    ensures
        r is Ok <==> words@.len() == 12,
        r matches Ok(m) ==> m.word_views() == views_of(words@),
        r matches Err(e) ==> (e matches WalletError::EntropyEncoding { cause } && cause@
            == word_count_refusal()),
{
    if words.len() != 12 {
        Err(
            WalletError::EntropyEncoding {
                cause: String::from_str("the entropy does not encode twelve words"),
            },
        )
    } else {
        let m = MnemonicInput {
            words: [
                words[0],
                words[1],
                words[2],
                words[3],
                words[4],
                words[5],
                words[6],
                words[7],
                words[8],
                words[9],
                words[10],
                words[11],
            ],
        };
        assert(m.word_views() =~= views_of(words@));
        Ok(m)
    }
}

/// Why a buffer of `len` bytes is refused: by the encoder, or for encoding
/// more than twelve words.
pub open spec fn entropy_refusal(len: nat, cause: Seq<char>) -> bool {
    if encodable_entropy_len(len) {
        cause == word_count_refusal()
    } else {
        len * 8 <= usize::MAX ==> cause == bit_count_refusal(len * 8)
    }
}

/// Encodes sixteen bytes of entropy as a twelve-word phrase.
///
/// Any other length is refused: the phrase of this wallet has exactly twelve
/// words.
pub fn mnemonic_from_entropy(entropy: &[u8]) -> (r: Result<MnemonicInput<'static>, WalletError>)
    ensures
        r is Ok <==> entropy@.len() == 16,
        r matches Ok(m) ==> m.word_views() == bip39_words(entropy@) && mnemonic_is_valid(
            m.phrase_text(),
        ) && m.words_have_shape(),
        r matches Err(e) ==> (e matches WalletError::EntropyEncoding { cause } && entropy_refusal(
            entropy@.len(),
            cause@,
        )),
{
    match entropy_words(entropy) {
        Err(cause) => Err(WalletError::EntropyEncoding { cause }),
        Ok(words) => {
            let ghost shapes = views_of(words@);
            let r = phrase_from_words(words);
            proof {
                if let Ok(m) = r {
                    assert forall|i: int| 0 <= i < 12 implies has_word_shape(
                        #[trigger] m.word_views()[i],
                    ) by {
                        assert(m.word_views()[i] == shapes[i]);
                    }
                }
            }
            r
        },
    }
}

/// Produces a fresh recovery phrase from 128 bits of randomness.
///
/// Whatever bytes are drawn, the result is a twelve-word phrase whose
/// checksum validates.
pub fn get_mnemonic() -> (r: Result<MnemonicInput<'static>, WalletError>)
    ensures
        r matches Ok(m) && mnemonic_is_valid(m.phrase_text()) && m.words_have_shape(),
{
    let entropy = fresh_entropy();
    mnemonic_from_entropy(entropy.as_slice())
}

} // verus!
