//! Creating and importing the wallet's identity, and the store that holds
//! it.

use crate::base58::base58;
use crate::errors::WalletError;
use crate::keys::{derived_keypair, ed25519_public_key, seed_refusal, KeyPair, MIN_SEED_LEN};
use crate::mnemonic::{get_mnemonic, has_word_shape, mnemonic_is_valid};
use crate::structs::{joined, MnemonicInput, NewAccountOutput};
use vstd::prelude::*;

verus! {

/// The seed that a written phrase stands for: its UTF-8 bytes.
pub open spec fn seed_of(phrase: Seq<char>) -> Seq<u8> {
    vstd::utf8::encode_utf8(phrase)
}

/// Words of at least three lower-case letters each, joined by spaces, are
/// ASCII and at least four characters per word long, less one.
proof fn lemma_joined_words(words: Seq<Seq<char>>)
    requires
        words.len() >= 1,
        forall|i: int| 0 <= i < words.len() ==> has_word_shape(#[trigger] words[i]),
    ensures
        vstd::utf8::is_ascii_chars(joined(words)),
        joined(words).len() >= 4 * words.len() - 1,
    decreases words.len(),
{
    if words.len() == 1 {
        assert(has_word_shape(words[0]));
        let only = words[0];
        assert forall|i: int| 0 <= i < only.len() implies '\0' <= #[trigger] only[i]
            <= '\u{7f}' by {
            assert('a' <= only[i] <= 'z');
        }
    } else {
        let front = words.drop_last();
        assert forall|i: int| 0 <= i < front.len() implies has_word_shape(#[trigger] front[i]) by {
            assert(front[i] == words[i]);
        }
        lemma_joined_words(front);
        assert(has_word_shape(words[words.len() - 1]));
        let text = joined(front) + seq![' '] + words.last();
        let tail = words.last();
        assert(forall|i: int| 0 <= i < tail.len() ==> 'a' <= #[trigger] tail[i] <= 'z');
        assert forall|i: int| 0 <= i < text.len() implies '\0' <= #[trigger] text[i]
            <= '\u{7f}' by {
            if i < joined(front).len() {
                assert(text[i] == joined(front)[i]);
            } else if i == joined(front).len() {
                assert(text[i] == ' ');
            } else {
                assert(text[i] == tail[i - joined(front).len() - 1]);
                assert('a' <= tail[i - joined(front).len() - 1] <= 'z');
            }
        }
    }
}

/// A phrase of twelve words of three letters or more is long enough to
/// seed a signing key.
pub proof fn lemma_wordlist_phrase_seeds(phrase: MnemonicInput)
    requires
        phrase.words_have_shape(),
    ensures
        seed_of(phrase.phrase_text()).len() >= MIN_SEED_LEN,
{
    lemma_joined_words(phrase.word_views());
    vstd::utf8::is_ascii_chars_encode_utf8(phrase.phrase_text());
}

/// What was found at the keyfile's location.
#[derive(Debug, Clone, PartialEq, Eq)]
pub enum KeyFile {
    /// There is no keyfile; `cause` is what the attempt to read it
    /// reported.
    Absent { cause: String },
    /// A keyfile is there but could not be read or decoded.
    Unreadable { cause: String },
    /// The keyfile holds this keypair.
    Holds(KeyPair),
}

/// The place of the wallet's single identity: the location of the keyfile
/// and what it currently holds.
#[derive(Debug, Clone, PartialEq, Eq)]
pub struct KeyStore {
    pub path: String,
    pub file: KeyFile,
}

/// Decodes what was found at the keyfile's location into the signer.
pub fn load_signer(file: &KeyFile) -> (r: Result<KeyPair, WalletError>)
    ensures
        match *file {
            KeyFile::Holds(keypair) => r == Ok::<KeyPair, WalletError>(keypair),
            KeyFile::Unreadable { cause } => r matches Err(WalletError::KeyFileRead { cause: c })
                && c@ == cause@,
            KeyFile::Absent { cause } => r matches Err(WalletError::KeyFileRead { cause: c })
                && c@ == cause@,
        },
{
    match file {
        KeyFile::Holds(keypair) => Ok(*keypair),
        KeyFile::Unreadable { cause } => Err(WalletError::KeyFileRead { cause: cause.clone() }),
        KeyFile::Absent { cause } => Err(WalletError::KeyFileRead { cause: cause.clone() }),
    }
}

/// What importing a phrase yields: the keypair is derived from the UTF-8
/// bytes of the written phrase, and no phrase is echoed back.
pub open spec fn import_outcome(
    phrase: Seq<char>,
    r: Result<NewAccountOutput<'static>, WalletError>,
) -> bool {
    let seed = seed_of(phrase);
    if seed.len() < MIN_SEED_LEN {
        r matches Err(WalletError::SeedDerivation { cause }) && cause@ == seed_refusal()
    } else {
        &&& r matches Ok(out)
        &&& out.mnemonic is None
        &&& out.pub_key@ == base58(ed25519_public_key(seed.subrange(0, 32)))
        &&& out.keypair@ == base58(derived_keypair(seed))
    }
}

/// Imports an existing identity from its recovery phrase.
pub fn add_existing_account(mnemonic_in: &MnemonicInput) -> (r: Result<
    NewAccountOutput<'static>,
    WalletError,
>)
    ensures
        import_outcome(mnemonic_in.phrase_text(), r),
{
    let phrase = mnemonic_in.phrase();
    let keypair = KeyPair::from_seed(phrase.as_str().as_bytes())?;
    let address = keypair.address()?;
    Ok(NewAccountOutput { mnemonic: None, pub_key: address.to_base58(), keypair: keypair.to_base58() })
}

impl KeyStore {
    /// Whether an identity already exists: the keyfile is there, readable or
    /// not.
    pub open spec fn occupied(self) -> bool {
        !(self.file is Absent)
    }

    /// A store at `path` holding what was found there.
    pub fn new(path: String, file: KeyFile) -> (store: KeyStore)
        ensures
            store.path == path,
            store.file == file,
    {
        KeyStore { path, file }
    }

    /// Whether an identity already exists.
    pub fn has_identity(&self) -> (found: bool)
        ensures
            found == self.occupied(),
    {
        match self.file {
            KeyFile::Absent { .. } => false,
            _ => true,
        }
    }

    /// The stored signer, or why there is none: what the attempt to read
    /// the keyfile reported.
    pub fn load(&self) -> (r: Result<KeyPair, WalletError>)
        ensures
            match self.file {
                KeyFile::Holds(keypair) => r == Ok::<KeyPair, WalletError>(keypair),
                KeyFile::Unreadable { cause } => r matches Err(
                    WalletError::KeyFileRead { cause: c },
                ) && c@ == cause@,
                KeyFile::Absent { cause } => r matches Err(WalletError::KeyFileRead { cause: c })
                    && c@ == cause@,
            },
    {
        load_signer(&self.file)
    }
}

/// What creating an identity from `phrase` does to the store and returns.
///
/// An occupied store is left alone unless `regenerate` is set. Otherwise
/// the keypair derived from the phrase takes the place of whatever the
/// store held, and the phrase is handed back for the user to write down.
pub open spec fn creation_outcome<'a>(
    before: KeyStore,
    regenerate: bool,
    phrase: MnemonicInput<'a>,
    r: Result<NewAccountOutput<'a>, WalletError>,
    after: KeyStore,
) -> bool {
    let seed = seed_of(phrase.phrase_text());
    if before.occupied() && !regenerate {
        r == Err::<NewAccountOutput<'a>, WalletError>(WalletError::AccountAlreadyExists)
            && after == before
    } else if seed.len() < MIN_SEED_LEN {
        (r matches Err(WalletError::SeedDerivation { cause }) && cause@ == seed_refusal())
            && after == before
    } else {
        &&& r matches Ok(out)
        &&& out.mnemonic == Some(phrase)
        &&& out.pub_key@ == base58(ed25519_public_key(seed.subrange(0, 32)))
        &&& out.keypair@ == base58(derived_keypair(seed))
        &&& after.path == before.path
        &&& after.file matches KeyFile::Holds(keypair)
        &&& keypair.bytes@ == derived_keypair(seed)
    }
}

/// Creates the identity of `phrase` in the store.
pub fn create_account<'a>(store: &mut KeyStore, regenerate: bool, phrase: MnemonicInput<'a>) -> (r:
    Result<NewAccountOutput<'a>, WalletError>)
    ensures
        creation_outcome(*old(store), regenerate, phrase, r, *final(store)),
{
    if store.has_identity() && !regenerate {
        return Err(WalletError::AccountAlreadyExists);
    }
    let text = phrase.phrase();
    let keypair = KeyPair::from_seed(text.as_str().as_bytes())?;
    let address = keypair.address()?;
    store.file = KeyFile::Holds(keypair);
    Ok(
        NewAccountOutput {
            mnemonic: Some(phrase),
            pub_key: address.to_base58(),
            keypair: keypair.to_base58(),
        },
    )
}

/// Generates a new identity from a fresh recovery phrase.
///
/// An occupied store is refused, before anything is drawn, unless
/// `regenerate` is set. Otherwise the call succeeds: whatever phrase is
/// drawn, it is a valid twelve-word mnemonic, and the outcome is that of
/// creating the identity of that phrase.
pub fn gen_new_account(store: &mut KeyStore, regenerate: bool) -> (r: Result<
    NewAccountOutput<'static>,
    WalletError,
>)
    ensures
        old(store).occupied() && !regenerate ==> r == Err::<
            NewAccountOutput<'static>,
            WalletError,
        >(WalletError::AccountAlreadyExists) && *final(store) == *old(store),
        !(old(store).occupied() && !regenerate) ==> r is Ok && exists|
            phrase: MnemonicInput<'static>,
        |
            mnemonic_is_valid(phrase.phrase_text()) && #[trigger] creation_outcome(
                *old(store),
                regenerate,
                phrase,
                r,
                *final(store),
            ),
{
    if store.has_identity() && !regenerate {
        return Err(WalletError::AccountAlreadyExists);
    }
    match get_mnemonic() {
        Ok(phrase) => {
            proof {
                lemma_wordlist_phrase_seeds(phrase);
            }
            create_account(store, regenerate, phrase)
        },
        Err(e) => Err(e),
    }
}

/// Deriving twice from the same written phrase yields the same keypair
/// encoding and the same address, or fails both times.
pub proof fn law_derivation_is_deterministic(
    first: MnemonicInput,
    second: MnemonicInput,
    first_outcome: Result<NewAccountOutput<'static>, WalletError>,
    second_outcome: Result<NewAccountOutput<'static>, WalletError>,
)
    requires
        first.phrase_text() == second.phrase_text(),
        import_outcome(first.phrase_text(), first_outcome),
        import_outcome(second.phrase_text(), second_outcome),
    ensures
        first_outcome is Ok <==> second_outcome is Ok,
        first_outcome matches Ok(a) ==> (second_outcome matches Ok(b) && a.pub_key@ == b.pub_key@
            && a.keypair@ == b.keypair@),
{
}

/// With phrases of wordlist words, as the generator draws them: on an
/// empty store the first creation succeeds and occupies it. A second
/// creation without the override is refused and leaves the store as it was;
/// with the override it succeeds and the store holds the new keypair in
/// place of the first.
pub proof fn law_second_creation_needs_override(
    empty: KeyStore,
    first_phrase: MnemonicInput,
    first_override: bool,
    first_outcome: Result<NewAccountOutput, WalletError>,
    after_first: KeyStore,
    second_phrase: MnemonicInput,
    second_override: bool,
    second_outcome: Result<NewAccountOutput, WalletError>,
    after_second: KeyStore,
)
    requires
        !empty.occupied(),
        first_phrase.words_have_shape(),
        second_phrase.words_have_shape(),
        creation_outcome(empty, first_override, first_phrase, first_outcome, after_first),
        creation_outcome(
            after_first,
            second_override,
            second_phrase,
            second_outcome,
            after_second,
        ),
    ensures
        first_outcome is Ok,
        after_first.occupied(),
        !second_override ==> second_outcome == Err::<NewAccountOutput, WalletError>(
            WalletError::AccountAlreadyExists,
        ) && after_second == after_first,
        second_override ==> (second_outcome is Ok && (after_second.file matches KeyFile::Holds(
            keypair,
        ) && keypair.bytes@ == derived_keypair(seed_of(second_phrase.phrase_text())))),
{
    lemma_wordlist_phrase_seeds(first_phrase);
    lemma_wordlist_phrase_seeds(second_phrase);
}

} // verus!
