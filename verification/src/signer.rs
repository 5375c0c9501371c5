use vstd::prelude::*;

use crate::error::Error;
use crate::registry::ConfigId;
use crate::registry::Ecdsachain;
use crate::registry::Polkadot;
use crate::registry::SignerConfig;
use crate::registry::SignerScheme;

verus! {

/// Byte length of an SR25519 signature.
pub const SR25519_SIGNATURE_LEN: usize = 64;

/// Byte length of an ECDSA (recoverable, compact) signature.
pub const ECDSA_SIGNATURE_LEN: usize = 65;

/// The result of deriving an SR25519 keypair from a seed-URI: the public key
/// of the derived keypair, or, when the string is not a valid SR25519
/// seed-URI, the derivation failure's message.  Both are deterministic
/// functions of the string alone; the seed-URI grammar is defined by the
/// underlying cryptography primitive and is not restated here.
pub uninterp spec fn sr25519_derive(suri: Seq<char>) -> Result<Seq<u8>, Seq<char>>;

/// The result of deriving an ECDSA keypair from a seed-URI: the compressed
/// public key of the derived keypair, or, when the string is not a valid
/// ECDSA seed-URI, the derivation failure's message.  Both are deterministic
/// functions of the string alone.
pub uninterp spec fn ecdsa_derive(suri: Seq<char>) -> Result<Seq<u8>, Seq<char>>;

/// The ECDSA signature over a payload by the keypair a seed-URI derives:
/// ECDSA signing uses a deterministic nonce, so the signature is a function
/// of the keypair and the payload alone.
pub uninterp spec fn ecdsa_signature_of(suri: Seq<char>, payload: Seq<u8>) -> Seq<u8>;

/// Whether a signature verifies over a message under an SR25519 public key.
/// A byte string that is not a well-formed signature, or a public key of the
/// wrong length, never verifies.
pub uninterp spec fn sr25519_verifies(sig: Seq<u8>, message: Seq<u8>, public: Seq<u8>) -> bool;

/// Whether a signature verifies over a message under a compressed ECDSA
/// public key.  A byte string that is not a well-formed signature, or a
/// public key of the wrong length, never verifies.
pub uninterp spec fn ecdsa_verifies(sig: Seq<u8>, message: Seq<u8>, public: Seq<u8>) -> bool;

/// The 32-byte blake2b-256 digest of a byte string.
pub uninterp spec fn blake2_256_of(data: Seq<u8>) -> Seq<u8>;

/// Relies on `sp_core::sr25519::Pair::from_string` (with no password
/// override) and `Pair::public`: derivation of a keypair from a seed-URI is a
/// deterministic function of the string, and fails exactly on strings that
/// are not valid seed-URIs for the scheme, with a failure message that is
/// itself a function of the string.  Any 32 bytes are a valid SR25519 secret,
/// so `from_string` returns on every input.
#[verifier::external_body]
fn sr25519_public_from_suri(suri: &str) -> (r: Result<[u8; 32], String>)
    ensures
        r matches Ok(p) ==> (sr25519_derive(suri@) matches Ok(q) && q == p@),
        r matches Err(m) ==> (sr25519_derive(suri@) matches Err(q) && q == m@),
        r is Ok <==> sr25519_derive(suri@) is Ok,
{
    match <sp_core::sr25519::Pair as sp_core::Pair>::from_string(suri, None) {
        Ok(pair) => Ok(sp_core::Pair::public(&pair).0),
        Err(e) => Err(format!("{}", e)),
    }
}

/// Relies on `sp_core::sr25519::Pair::{from_string, sign}` and on the
/// scheme's guarantee that a signature produced by a keypair verifies under
/// that keypair's own public key.  SR25519 signing draws a fresh witness, so
/// nothing is stated about the signature's value, only that every outcome
/// verifies.
#[verifier::external_body]
fn sr25519_sign_from_suri(suri: &str, payload: &[u8]) -> (r: Vec<u8>)
    requires
        sr25519_derive(suri@) is Ok,
    ensures
        r@.len() == SR25519_SIGNATURE_LEN,
        sr25519_derive(suri@) matches Ok(p) ==> sr25519_verifies(r@, payload@, p),
{
    match <sp_core::sr25519::Pair as sp_core::Pair>::from_string(suri, None) {
        Ok(pair) => sp_core::Pair::sign(&pair, payload).0.to_vec(),
        Err(_) => Vec::new(),
    }
}

/// Relies on `sp_core::sr25519::Pair::verify`: verification is a
/// deterministic function of signature, message and public key.  Inputs of
/// the wrong shape are rejected.
#[verifier::external_body]
fn sr25519_verify_raw(sig: &[u8], message: &[u8], public: &[u8]) -> (r: bool)
    ensures
        r == sr25519_verifies(sig@, message@, public@),
{
    let sig = match sp_core::sr25519::Signature::try_from(sig) {
        Ok(s) => s,
        Err(()) => return false,
    };
    let public = match sp_core::sr25519::Public::try_from(public) {
        Ok(p) => p,
        Err(()) => return false,
    };
    <sp_core::sr25519::Pair as sp_core::Pair>::verify(&sig, message, &public)
}

/// Relies on `sp_core::ecdsa::Pair::from_string` (with no password override)
/// and `Pair::public`, as the SR25519 counterpart does.  Unlike SR25519, not
/// every 32-byte value is a valid ECDSA secret, and `from_string` aborts
/// rather than fails on a hex seed whose value secp256k1 rejects; the body
/// therefore screens the hex-seed form of the seed-URI first, through
/// `SecretUri::from_str`, `bytes::from_hex` and the non-aborting
/// `Pair::from_seed_slice`, and surfaces that failure as the result.  A seed
/// reached through a hard junction is a blake2b-256 digest and is relied on
/// to be a valid secret; no input reaching an invalid one is known.
#[verifier::external_body]
fn ecdsa_public_from_suri(suri: &str) -> (r: Result<[u8; 33], String>)
    ensures
        r matches Ok(p) ==> (ecdsa_derive(suri@) matches Ok(q) && q == p@),
        r matches Err(m) ==> (ecdsa_derive(suri@) matches Err(q) && q == m@),
        r is Ok <==> ecdsa_derive(suri@) is Ok,
{
    let uri = <sp_core::crypto::SecretUri as std::str::FromStr>::from_str(suri);
    let parsed = uri.map_err(|e| format!("{}", e))?;
    let phrase = sp_core::crypto::ExposeSecret::expose_secret(&parsed.phrase);
    if let Some(seed) = phrase.strip_prefix("0x").and_then(|h| sp_core::bytes::from_hex(h).ok()) {
        if seed.len() == 32 {
            let p = <sp_core::ecdsa::Pair as sp_core::Pair>::from_seed_slice(&seed);
            p.map_err(|e| format!("{}", e))?;
        }
    }
    match <sp_core::ecdsa::Pair as sp_core::Pair>::from_string(suri, None) {
        Ok(pair) => Ok(sp_core::Pair::public(&pair).0),
        Err(e) => Err(format!("{}", e)),
    }
}

/// Relies on `sp_core::ecdsa::Pair::{from_string, sign}` and on the scheme's
/// guarantee that a signature produced by a keypair verifies under that
/// keypair's own public key.  ECDSA signing uses a deterministic nonce, so
/// the signature's value is stated too, as a function of seed-URI and
/// payload.
#[verifier::external_body]
fn ecdsa_sign_from_suri(suri: &str, payload: &[u8]) -> (r: Vec<u8>)
    requires
        ecdsa_derive(suri@) is Ok,
    ensures
        r@.len() == ECDSA_SIGNATURE_LEN,
        r@ == ecdsa_signature_of(suri@, payload@),
        ecdsa_derive(suri@) matches Ok(p) ==> ecdsa_verifies(r@, payload@, p),
{
    match <sp_core::ecdsa::Pair as sp_core::Pair>::from_string(suri, None) {
        Ok(pair) => sp_core::Pair::sign(&pair, payload).0.to_vec(),
        Err(_) => Vec::new(),
    }
}

/// Relies on `sp_core::ecdsa::Pair::verify`: verification is a deterministic
/// function of signature, message and public key.  Inputs of the wrong shape
/// are rejected.
#[verifier::external_body]
fn ecdsa_verify_raw(sig: &[u8], message: &[u8], public: &[u8]) -> (r: bool)
    ensures
        r == ecdsa_verifies(sig@, message@, public@),
{
    let sig = match sp_core::ecdsa::Signature::try_from(sig) {
        Ok(s) => s,
        Err(()) => return false,
    };
    let public = match sp_core::ecdsa::Public::try_from(public) {
        Ok(p) => p,
        Err(()) => return false,
    };
    <sp_core::ecdsa::Pair as sp_core::Pair>::verify(&sig, message, &public)
}

/// Relies on `sp_core::Blake2Hasher::hash` (blake2b-256): the digest is a
/// function of the input bytes alone.
#[verifier::external_body]
fn blake2_256_digest(data: &[u8]) -> (r: [u8; 32])
    ensures
        r@ == blake2_256_of(data@),
{
    <sp_core::Blake2Hasher as sp_core::Hasher>::hash(data).0
}

/// An account identifier: 32 bytes, as fixed by the target chain protocol.
#[derive(Clone, Debug, PartialEq, Eq)]
pub struct AccountId {
    pub bytes: [u8; 32],
}

/// An address on the target chain.  It is derived from the account id alone
/// and carries no extra routing metadata.
#[derive(Clone, Debug, PartialEq, Eq)]
pub enum Address {
    Id(AccountId),
}

/// A signature under one of the supported schemes.
#[derive(Clone, Debug, PartialEq, Eq)]
pub enum Signature {
    Sr25519(Vec<u8>),
    Ecdsa(Vec<u8>),
}

/// The SR25519 signer: the seed-URI it was built from and the public key of
/// the keypair that the seed-URI derives.  The secret material lives only for
/// the signer's lifetime; nothing is persisted.
pub struct SignerSR25519 {
    suri: String,
    public: [u8; 32],
}

impl SignerSR25519 {
    /// Every signer holds the public key of the keypair derived from its
    /// seed-URI.
    #[verifier::type_invariant]
    spec fn wf(self) -> bool {
        sr25519_derive(self.suri@) == Ok::<_, Seq<char>>(self.public@)
    }

    /// The signer's public key.
    pub closed spec fn public_key(self) -> Seq<u8> {
        self.public@
    }

    /// The seed-URI the signer was built from.
    pub closed spec fn seed_uri(self) -> Seq<char> {
        self.suri@
    }

    /// The account id value returned by `account_id`: for SR25519 the account
    /// id is the public key itself.
    pub closed spec fn spec_account_id(self) -> AccountId {
        AccountId { bytes: self.public }
    }

    /// Parses the seed-URI and derives the keypair.  Fails with
    /// `InvalidSecret` exactly on strings that are not valid SR25519
    /// seed-URIs, carrying the derivation failure's message verbatim.
    pub fn from_str(input: &str) -> (r: Result<SignerSR25519, Error>)
        ensures
            r is Ok <==> sr25519_derive(input@) is Ok,
            r matches Ok(s) ==> s.seed_uri() == input@ && Ok::<_, Seq<char>>(s.public_key())
                == sr25519_derive(input@),
            r matches Err(e) ==> (e matches Error::InvalidSecret(m) && sr25519_derive(input@)
                == Err::<Seq<u8>, _>(m@)),
    {
        match sr25519_public_from_suri(input) {
            Ok(public) => Ok(SignerSR25519 { suri: input.to_owned(), public }),
            Err(m) => Err(Error::InvalidSecret(m)),
        }
    }

    /// The account id: a deterministic function of the keypair's public key —
    /// for SR25519, the public key bytes themselves.
    pub fn account_id(&self) -> (r: AccountId)
        ensures
            r == self.spec_account_id(),
            r.bytes@ == self.public_key(),
    {
        AccountId { bytes: self.public }
    }

    /// The address: the identity mapping of the account id, with no extra
    /// routing metadata.  The result is a function of the signer alone, so
    /// repeated calls return identical values.
    pub fn address(&self) -> (r: Address)
        ensures
            r == Address::Id(self.spec_account_id()),
    {
        Address::Id(self.account_id())
    }

    /// Returns the signer's public key bytes.
    pub fn public_key_bytes(&self) -> (r: Vec<u8>)
        ensures
            r@ == self.public_key(),
    {
        vstd::slice::slice_to_vec(self.public.as_slice())
    }

    /// Signs a payload.  Every signature this returns verifies under the
    /// signer's own public key.
    pub fn sign(&self, payload: &[u8]) -> (r: Signature)
        ensures
            r matches Signature::Sr25519(sig) && sig@.len() == SR25519_SIGNATURE_LEN
                && sr25519_verifies(sig@, payload@, self.public_key()),
    {
        proof {
            use_type_invariant(&*self);
        }
        Signature::Sr25519(sr25519_sign_from_suri(self.suri.as_str(), payload))
    }
}

/// The ECDSA signer: the seed-URI it was built from, the compressed public
/// key of the keypair that the seed-URI derives, and the account id derived
/// from that public key.
pub struct SignerEcdsa {
    suri: String,
    public: [u8; 33],
    account: [u8; 32],
}

impl SignerEcdsa {
    /// Every signer holds the public key of the keypair derived from its
    /// seed-URI, and the account id is the blake2b-256 digest of the
    /// compressed public key.
    #[verifier::type_invariant]
    spec fn wf(self) -> bool {
        ecdsa_derive(self.suri@) == Ok::<_, Seq<char>>(self.public@) && self.account@ == blake2_256_of(
            self.public@,
        )
    }

    /// The signer's compressed public key.
    pub closed spec fn public_key(self) -> Seq<u8> {
        self.public@
    }

    /// The seed-URI the signer was built from.
    pub closed spec fn seed_uri(self) -> Seq<char> {
        self.suri@
    }

    /// The account id value returned by `account_id`: the blake2b-256 digest
    /// of the compressed public key.
    pub closed spec fn spec_account_id(self) -> AccountId {
        AccountId { bytes: self.account }
    }

    /// Parses the seed-URI and derives the keypair.  Fails with
    /// `InvalidSecret` exactly on strings that are not valid ECDSA seed-URIs,
    /// carrying the derivation failure's message verbatim.
    pub fn from_str(input: &str) -> (r: Result<SignerEcdsa, Error>)
        ensures
            r is Ok <==> ecdsa_derive(input@) is Ok,
            r matches Ok(s) ==> s.seed_uri() == input@ && Ok::<_, Seq<char>>(s.public_key())
                == ecdsa_derive(input@),
            r matches Err(e) ==> (e matches Error::InvalidSecret(m) && ecdsa_derive(input@)
                == Err::<Seq<u8>, _>(m@)),
    {
        match ecdsa_public_from_suri(input) {
            Ok(public) => {
                let account = blake2_256_digest(public.as_slice());
                Ok(SignerEcdsa { suri: input.to_owned(), public, account })
            },
            Err(m) => Err(Error::InvalidSecret(m)),
        }
    }

    /// The account id: a deterministic function of the keypair's public key —
    /// for ECDSA, the blake2b-256 digest of the compressed public key.
    pub fn account_id(&self) -> (r: AccountId)
        ensures
            r == self.spec_account_id(),
            r.bytes@ == blake2_256_of(self.public_key()),
    {
        proof {
            use_type_invariant(&*self);
        }
        AccountId { bytes: self.account }
    }

    /// The address: the identity mapping of the account id, with no extra
    /// routing metadata.  The result is a function of the signer alone, so
    /// repeated calls return identical values.
    pub fn address(&self) -> (r: Address)
        ensures
            r == Address::Id(self.spec_account_id()),
    {
        Address::Id(self.account_id())
    }

    /// Returns the signer's public key bytes.
    pub fn public_key_bytes(&self) -> (r: Vec<u8>)
        ensures
            r@ == self.public_key(),
    {
        vstd::slice::slice_to_vec(self.public.as_slice())
    }

    /// Signs a payload.  Every signature this returns verifies under the
    /// signer's own public key, and is deterministic: a function of the
    /// signer's seed-URI and the payload alone.
    pub fn sign(&self, payload: &[u8]) -> (r: Signature)
        ensures
            r matches Signature::Ecdsa(sig) && sig@.len() == ECDSA_SIGNATURE_LEN
                && sig@ == ecdsa_signature_of(self.seed_uri(), payload@)
                && ecdsa_verifies(sig@, payload@, self.public_key()),
    {
        proof {
            use_type_invariant(&*self);
        }
        Signature::Ecdsa(ecdsa_sign_from_suri(self.suri.as_str(), payload))
    }
}

/// Checks an SR25519 signature over a message under a public key.
pub fn verify_sr25519(sig: &[u8], message: &[u8], public: &[u8]) -> (r: bool)
    ensures
        r == sr25519_verifies(sig@, message@, public@),
{
    sr25519_verify_raw(sig, message, public)
}

/// Checks an ECDSA signature over a message under a compressed public key.
pub fn verify_ecdsa(sig: &[u8], message: &[u8], public: &[u8]) -> (r: bool)
    ensures
        r == ecdsa_verifies(sig@, message@, public@),
{
    ecdsa_verify_raw(sig, message, public)
}

/// A signer under one of the supported schemes, with the uniform external
/// contract shared by both: account-id derivation, address derivation, and
/// payload signing.
pub enum Signer {
    Sr25519(SignerSR25519),
    Ecdsa(SignerEcdsa),
}

impl Signer {
    /// The scheme this signer signs under.
    pub open spec fn spec_scheme(self) -> SignerScheme {
        match self {
            Signer::Sr25519(_) => SignerScheme::Sr25519,
            Signer::Ecdsa(_) => SignerScheme::Ecdsa,
        }
    }

    /// Returns the scheme this signer signs under.
    pub fn scheme(&self) -> (r: SignerScheme)
        ensures
            r == self.spec_scheme(),
    {
        match self {
            Signer::Sr25519(_) => SignerScheme::Sr25519,
            Signer::Ecdsa(_) => SignerScheme::Ecdsa,
        }
    }

    /// The account id value returned by `account_id`, whichever the scheme.
    pub open spec fn spec_account_id(self) -> AccountId {
        match self {
            Signer::Sr25519(s) => s.spec_account_id(),
            Signer::Ecdsa(s) => s.spec_account_id(),
        }
    }

    /// The account id: a deterministic function of the keypair's public key,
    /// scheme-specific in its derivation.
    pub fn account_id(&self) -> (r: AccountId)
        ensures
            r == self.spec_account_id(),
            self matches Signer::Sr25519(s) ==> r.bytes@ == s.public_key(),
            self matches Signer::Ecdsa(s) ==> r.bytes@ == blake2_256_of(s.public_key()),
    {
        match self {
            Signer::Sr25519(s) => s.account_id(),
            Signer::Ecdsa(s) => s.account_id(),
        }
    }

    /// The address: the identity mapping of the account id.  The result is a
    /// function of the signer alone, so repeated calls return identical
    /// values.
    pub fn address(&self) -> (r: Address)
        ensures
            r == Address::Id(self.spec_account_id()),
    {
        match self {
            Signer::Sr25519(s) => s.address(),
            Signer::Ecdsa(s) => s.address(),
        }
    }

    /// Signs a payload under the signer's scheme.  Every signature this
    /// returns verifies under the signer's own public key.
    pub fn sign(&self, payload: &[u8]) -> (r: Signature)
        ensures
            self matches Signer::Sr25519(s) ==> (r matches Signature::Sr25519(sig)
                && sig@.len() == SR25519_SIGNATURE_LEN && sr25519_verifies(
                sig@,
                payload@,
                s.public_key(),
            )),
            self matches Signer::Ecdsa(s) ==> (r matches Signature::Ecdsa(sig)
                && sig@.len() == ECDSA_SIGNATURE_LEN && sig@ == ecdsa_signature_of(
                s.seed_uri(),
                payload@,
            ) && ecdsa_verifies(sig@, payload@, s.public_key())),
    {
        match self {
            Signer::Sr25519(s) => s.sign(payload),
            Signer::Ecdsa(s) => s.sign(payload),
        }
    }
}

impl SignerConfig for Polkadot {
    type Signer = SignerSR25519;

    open spec fn spec_id() -> ConfigId {
        ConfigId::Polkadot
    }

    fn config_id() -> (r: ConfigId) {
        ConfigId::Polkadot
    }
}

impl SignerConfig for Ecdsachain {
    type Signer = SignerEcdsa;

    open spec fn spec_id() -> ConfigId {
        ConfigId::Ecdsachain
    }

    fn config_id() -> (r: ConfigId) {
        ConfigId::Ecdsachain
    }
}

/// Law: SR25519 key derivation is a function of the seed-URI alone, so any
/// two signers built by `SignerSR25519::from_str` from the same input have
/// the same public key, and hence the same account id and address bytes.
pub proof fn lemma_sr25519_construction_stable(input: Seq<char>, a: SignerSR25519, b: SignerSR25519)
    requires
        Ok::<_, Seq<char>>(a.public_key()) == sr25519_derive(input),
        Ok::<_, Seq<char>>(b.public_key()) == sr25519_derive(input),
    ensures
        a.public_key() == b.public_key(),
        a.spec_account_id().bytes@ == b.spec_account_id().bytes@,
{
}

/// Law: ECDSA key derivation is a function of the seed-URI alone, so any two
/// signers built by `SignerEcdsa::from_str` from the same input have the same
/// public key, and hence the same account id digest.
pub proof fn lemma_ecdsa_construction_stable(input: Seq<char>, a: SignerEcdsa, b: SignerEcdsa)
    requires
        Ok::<_, Seq<char>>(a.public_key()) == ecdsa_derive(input),
        Ok::<_, Seq<char>>(b.public_key()) == ecdsa_derive(input),
    ensures
        a.public_key() == b.public_key(),
        blake2_256_of(a.public_key()) == blake2_256_of(b.public_key()),
{
}

} // verus!
