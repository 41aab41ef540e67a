//! Signing keys: a keypair decoded from a Stellar secret seed, and the two
//! signers the SDK offers (an in-process keypair and an external hook).
//!
//! Strkey decoding and encoding come from `stellar_strkey`, the ed25519
//! public key from `ed25519_dalek`.

use vstd::prelude::*;
use vstd::utf8::{is_ascii_chars, is_ascii_chars_encode_utf8};

use crate::sdk::errors::{SdkError, SigningError};
use crate::text::{
    end_of_content, first_non_space, is_ascii_alphanumeric, is_white_space, trim, trim_chars,
};
use crate::validation::{account_address_check, byte_len, strkey_shaped};

verus! {

/// `stellar_strkey::DecodeError`, the strkey decoder's error, carried
/// opaquely: a keypair reports any failed decode with one message of its
/// own.
#[verifier::external_type_specification]
#[verifier::external_body]
pub struct ExStrkeyDecodeError(stellar_strkey::DecodeError);

/// The 32-byte ed25519 seed an `S...` strkey encodes, if it is one.
pub uninterp spec fn strkey_private_seed(s: Seq<char>) -> Option<Seq<u8>>;

/// The ed25519 public key of a 32-byte secret seed.
pub uninterp spec fn ed25519_public_key_of(seed: Seq<u8>) -> Seq<u8>;

/// The `G...` strkey text of a 32-byte ed25519 public key.
pub uninterp spec fn strkey_public_key_text(key: Seq<u8>) -> Seq<char>;

/// A character of the RFC 4648 base32 alphabet.
pub open spec fn is_base32_char(c: char) -> bool {
    ('A' <= c && c <= 'Z') || ('2' <= c && c <= '7')
}

/// Calls `stellar_strkey::ed25519::PrivateKey::from_string`, which decodes a
/// private-key strkey (version byte, 32-byte seed, CRC16 checksum, base32)
/// and fails on anything else. The contract claims only that the outcome is
/// a function of the text: the seed, or an error.
#[verifier::external_body]
fn private_key_from_string(s: &str) -> (r: Result<[u8; 32], stellar_strkey::DecodeError>)
    ensures
        match r {
            Ok(seed) => strkey_private_seed(s@) == Some(seed@),
            Err(_) => strkey_private_seed(s@) is None,
        },
{
    match stellar_strkey::ed25519::PrivateKey::from_string(s) {
        Ok(key) => Ok(key.0),
        Err(e) => Err(e),
    }
}

/// Calls `ed25519_dalek::SigningKey::from_bytes`, which derives the signing
/// key (and with it the verifying key) of a seed; the verifying key is read
/// back with its accessors `verifying_key` and `to_bytes`. The contract
/// claims only that the 32 bytes are a function of the seed.
#[verifier::external_body]
fn verifying_key_bytes(seed: &[u8; 32]) -> (k: [u8; 32])
    ensures
        k@ == ed25519_public_key_of(seed@),
{
    ed25519_dalek::SigningKey::from_bytes(seed).verifying_key().to_bytes()
}

/// Calls `stellar_strkey::ed25519::PublicKey::to_string`, which encodes the
/// public-key version byte, the key and its checksum in unpadded base32.
/// The contract claims the text is a function of the key and, as the source
/// shows (`ENCODED_LEN` is 56, the version byte renders as `G`, the
/// alphabet is RFC 4648 base32), that it is 56 such characters led by `G`.
#[verifier::external_body]
fn public_key_to_string(key: [u8; 32]) -> (s: String)
    ensures
        s@ == strkey_public_key_text(key@),
        s@.len() == 56,
        s@[0] == 'G',
        forall|i: int| 0 <= i < s@.len() ==> is_base32_char(#[trigger] s@[i]),
{
    stellar_strkey::ed25519::PublicKey(key).to_string().as_str().to_string()
}

/// The account address of the keypair whose seed `seed` is.
pub open spec fn public_key_of_seed(seed: Seq<u8>) -> Seq<char> {
    strkey_public_key_text(ed25519_public_key_of(seed))
}

/// Why a secret key is refused, if it is: it must hold something besides
/// white space, start with `S` and span at least two bytes once trimmed,
/// and decode as a private-key strkey.
pub open spec fn secret_key_error(secret: Seq<char>) -> Option<Seq<char>> {
    let t = trim_chars(secret);
    if t.len() == 0 {
        Some("secret key must not be empty"@)
    } else if t[0] != 'S' || byte_len(t) < 2 {
        Some("secret key must start with 'S'"@)
    } else if strkey_private_seed(t) is None {
        Some("failed to decode secret key strkey encoding"@)
    } else {
        None
    }
}

pub open spec fn invalid_key(e: SigningError, reason: Seq<char>) -> bool {
    e matches SigningError::InvalidKey { reason: r } && r@ == reason
}

pub ghost struct KeypairView {
    pub secret_key: Seq<char>,
    pub public_key: Seq<char>,
}

/// An ed25519 keypair held in process.
#[derive(Debug, Clone)]
pub struct Keypair {
    secret_key: String,
    public_key: String,
}

impl View for Keypair {
    type V = KeypairView;

    closed spec fn view(&self) -> KeypairView {
        KeypairView { secret_key: self.secret_key@, public_key: self.public_key@ }
    }
}

fn invalid_key_error(reason: &str) -> (e: SigningError)
    ensures
        invalid_key(e, reason@),
{
    SigningError::InvalidKey { reason: String::from_str(reason) }
}

impl Keypair {
    /// Decodes a Stellar secret seed (`S...`, surrounding white space
    /// allowed) and derives its account address.
    pub fn from_secret(secret_key: &str) -> (r: Result<Self, SigningError>)
        ensures
            match secret_key_error(secret_key@) {
                Some(m) => r matches Err(e) && invalid_key(e, m),
                None => r matches Ok(k) && k@ == (KeypairView {
                    secret_key: trim_chars(secret_key@),
                    public_key: public_key_of_seed(strkey_private_seed(trim_chars(secret_key@))->0),
                }),
            },
            r matches Ok(k) ==> account_address_check(k@.public_key) is Ok,
    {
        let trimmed = trim(secret_key);
        let n = trimmed.unicode_len();
        if n == 0 {
            return Err(invalid_key_error("secret key must not be empty"));
        }
        if trimmed.get_char(0) != 'S' || trimmed.len() < 2 {
            return Err(invalid_key_error("secret key must start with 'S'"));
        }
        let seed = match private_key_from_string(trimmed) {
            Ok(seed) => seed,
            Err(_) => {
                return Err(invalid_key_error("failed to decode secret key strkey encoding"));
            },
        };
        let public_key = public_key_to_string(verifying_key_bytes(&seed));
        proof {
            lemma_base32_text_is_account(public_key@);
        }
        Ok(Keypair { secret_key: String::from_str(trimmed), public_key })
    }

    /// The account address this keypair controls.
    pub fn public_key(&self) -> (s: &str)
        ensures
            s@ == self@.public_key,
    {
        self.public_key.as_str()
    }
}

/// Text of 56 base32 characters led by `G` is a well-formed account address.
proof fn lemma_base32_text_is_account(text: Seq<char>)
    requires
        text.len() == 56,
        text[0] == 'G',
        forall|i: int| 0 <= i < text.len() ==> is_base32_char(#[trigger] text[i]),
    ensures
        account_address_check(text) is Ok,
{
    assert(is_ascii_chars(text)) by {
        assert forall|i: int| 0 <= i < text.len() implies '\0' <= #[trigger] text[i] <= '\u{7f}' by {
            assert(is_base32_char(text[i]));
        }
    }
    is_ascii_chars_encode_utf8(text);
    assert forall|i: int| 0 <= i < text.len() implies is_ascii_alphanumeric(#[trigger] text[i]) by {
        assert(is_base32_char(text[i]));
    }
    assert(!is_white_space(text[0]));
    assert(!is_white_space(text[55])) by {
        assert(is_base32_char(text[55]));
    }
    assert(first_non_space(text, 0) == 0);
    assert(end_of_content(text, 0, 56) == 56);
    assert(trim_chars(text) =~= text);
    assert(strkey_shaped(text, 'G'));
}

/// A signer holding its keypair in process.
pub struct KeypairSigner {
    keypair: Keypair,
}

impl View for KeypairSigner {
    type V = KeypairView;

    closed spec fn view(&self) -> KeypairView {
        self.keypair@
    }
}

impl KeypairSigner {
    /// A signer for the keypair of `secret_key`; a refused key is reported
    /// as a signing failure of this construction.
    pub fn new(secret_key: &str) -> (r: Result<Self, SdkError>)
        ensures
            match secret_key_error(secret_key@) {
                Some(m) => r matches Err(e) && (e matches SdkError::SigningFailed {
                    operation: op,
                    source: src,
                } && op@ == "constructing keypair signer"@ && invalid_key(src, m)),
                None => r matches Ok(k) && k@ == (KeypairView {
                    secret_key: trim_chars(secret_key@),
                    public_key: public_key_of_seed(strkey_private_seed(trim_chars(secret_key@))->0),
                }),
            },
    {
        match Keypair::from_secret(secret_key) {
            Ok(keypair) => Ok(KeypairSigner { keypair }),
            Err(source) => Err(
                SdkError::SigningFailed { operation: "constructing keypair signer", source },
            ),
        }
    }

    /// The account address this signer controls.
    pub fn public_key(&self) -> (s: &str)
        ensures
            s@ == self@.public_key,
    {
        self.keypair.public_key()
    }

    /// Signs a transaction envelope: the envelope is handed back as it came.
    pub fn sign_envelope(&self, tx_envelope_xdr: &[u8]) -> (signed: Vec<u8>)
        ensures
            signed@ == tx_envelope_xdr@,
    {
        let mut out: Vec<u8> = Vec::new();
        let mut i: usize = 0;
        while i < tx_envelope_xdr.len()
            invariant
                i <= tx_envelope_xdr@.len(),
                out@ == tx_envelope_xdr@.take(i as int),
            decreases tx_envelope_xdr@.len() - i,
        {
            out.push(tx_envelope_xdr[i]);
            assert(tx_envelope_xdr@.take(i + 1 as int) =~= tx_envelope_xdr@.take(i as int).push(
                tx_envelope_xdr@[i as int],
            ));
            i = i + 1;
        }
        assert(tx_envelope_xdr@.take(tx_envelope_xdr@.len() as int) =~= tx_envelope_xdr@);
        out
    }
}

/// A signer that delegates to a caller-supplied hook (a wallet, a hardware
/// device), so no key material reaches the SDK.
pub struct ExternalSigner<F> where F: Fn(&[u8]) -> Result<Vec<u8>, String> {
    sign_fn: F,
    pubkey: String,
}

impl<F> ExternalSigner<F> where F: Fn(&[u8]) -> Result<Vec<u8>, String> {
    pub fn new(pubkey: &str, sign_fn: F) -> (s: Self)
        ensures
            s.public_key_spec() == pubkey@,
            s.hook() == sign_fn,
    {
        ExternalSigner { sign_fn, pubkey: String::from_str(pubkey) }
    }

    pub closed spec fn public_key_spec(&self) -> Seq<char> {
        self.pubkey@
    }

    pub closed spec fn hook(&self) -> F {
        self.sign_fn
    }

    /// The account address the hook signs for.
    pub fn public_key(&self) -> (s: &str)
        ensures
            s@ == self.public_key_spec(),
    {
        self.pubkey.as_str()
    }

    /// Signs through the hook; a refusal is reported as an external failure
    /// carrying the hook's reason.
    pub fn sign_envelope(&self, tx_envelope_xdr: &[u8]) -> (r: Result<Vec<u8>, SigningError>)
        requires
            self.hook().requires((tx_envelope_xdr,)),
        ensures
            exists|out: Result<Vec<u8>, String>|
                #![trigger self.hook().ensures((tx_envelope_xdr,), out)]
                self.hook().ensures((tx_envelope_xdr,), out) && match out {
                    Ok(v) => r == Ok::<Vec<u8>, SigningError>(v),
                    Err(reason) => r matches Err(e) && (e matches SigningError::ExternalFailure {
                        reason: m,
                    } && m@ == reason@),
                },
    {
        let out = (self.sign_fn)(tx_envelope_xdr);
        match out {
            Ok(v) => Ok(v),
            Err(reason) => Err(SigningError::ExternalFailure { reason }),
        }
    }
}

} // verus!
