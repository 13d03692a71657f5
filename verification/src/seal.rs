//! The challenge sealer: turns a pending-answer record into an opaque,
//! tamper-evident token and back.
//!
//! A token is the AEAD ciphertext of the serialized record (see
//! [`crate::payload`]), rendered as base64 for transport. The cipher and the
//! transport encoding come from outside crates; each call is wrapped in a
//! trusted item whose contract states what the crate's source shows, and
//! everything around the calls is verified against those contracts.

use vstd::prelude::*;

use crate::error::{CJAError, SealFailure};
use crate::payload::{
    encode_session, decode_session, lemma_parse_session_inverse, lemma_session_roundtrip,
    parse_session, session_bytes, CaptchaSessionData,
};
use vstd::utf8::encode_utf8;
use vstd::string::StringSliceAdditionalSpecFns;
use vstd::string::StrSliceExecFns;
use chacha20poly1305::aead::{Aead, KeyInit};
use chacha20poly1305::{Key, XChaCha20Poly1305, XNonce};

verus! {

/// What `base64::encode` returns for the given bytes (standard alphabet,
/// padded). Stated by name only: the digit table is the crate's business.
pub uninterp spec fn b64_of(bytes: Seq<u8>) -> Seq<char>;

/// What `base64::decode` returns for the given rendering: the decoded bytes,
/// or nothing when the input is not valid base64.
pub uninterp spec fn b64_decoded(rendering: Seq<char>) -> Option<Seq<u8>>;

/// What `XChaCha20Poly1305::encrypt` returns for the given key, nonce and
/// plaintext: the ciphertext with its integrity tag appended.
pub uninterp spec fn aead_sealed(key: Seq<u8>, nonce: Seq<u8>, plaintext: Seq<u8>) -> Seq<u8>;

/// What `XChaCha20Poly1305::decrypt` returns for the given key, nonce and
/// ciphertext: the plaintext when the integrity tag verifies, nothing when
/// it does not.
pub uninterp spec fn aead_opened(key: Seq<u8>, nonce: Seq<u8>, ciphertext: Seq<u8>) -> Option<
    Seq<u8>,
>;

/// Relies on `base64::encode` (standard alphabet, padded): a deterministic
/// rendering of the input bytes, which `base64::decode` maps back to them.
#[verifier::external_body]
fn b64_encode(bytes: &Vec<u8>) -> (r: String)
    ensures
        r@ == b64_of(bytes@),
        b64_decoded(r@) == Some(bytes@),
{
    base64::encode(bytes.as_slice())
}

/// Relies on `base64::decode` (standard alphabet, padded): it is
/// deterministic, and it inverts `base64::encode`, so on an encoder output
/// it returns exactly the bytes that were encoded.
#[verifier::external_body]
fn b64_decode(rendering: &String) -> (r: Option<Vec<u8>>)
    ensures
        r matches Some(v) ==> b64_decoded(rendering@) == Some(v@),
        r is None ==> b64_decoded(rendering@) is None,
        r is None ==> forall|bytes: Seq<u8>| rendering@ != b64_of(bytes),
        r matches Some(v) ==> forall|bytes: Seq<u8>|
            rendering@ == b64_of(bytes) ==> v@ == bytes,
{
    base64::decode(rendering.as_str()).ok()
}

/// Relies on `XChaCha20Poly1305::encrypt` with a 32-byte key and a 24-byte
/// nonce: deterministic in its arguments, it only refuses plaintexts of at
/// least 2^32 - 1 cipher blocks, and `decrypt` under the same key and nonce
/// recovers the plaintext.
#[verifier::external_body]
fn aead_encrypt(key: &Vec<u8>, nonce: &Vec<u8>, plaintext: &Vec<u8>) -> (r: Vec<u8>)
    requires
        key@.len() == 32,
        nonce@.len() == 24,
        plaintext@.len() < 0x100000000,
    ensures
        r@ == aead_sealed(key@, nonce@, plaintext@),
        aead_opened(key@, nonce@, r@) == Some(plaintext@),
{
    let cipher = XChaCha20Poly1305::new(Key::from_slice(key.as_slice()));
    let nonce = XNonce::from_slice(nonce.as_slice());
    cipher.encrypt(nonce, plaintext.as_slice()).expect("plaintext is within the cipher limit")
}

/// Relies on `XChaCha20Poly1305::decrypt` with a 32-byte key and a 24-byte
/// nonce: deterministic in its arguments; it recovers the plaintext of every
/// ciphertext `encrypt` produced under the same key and nonce, and — the
/// authenticated-encryption guarantee the crate documents — it returns an
/// error for anything that is not such a ciphertext.
#[verifier::external_body]
fn aead_decrypt(key: &Vec<u8>, nonce: &Vec<u8>, ciphertext: &Vec<u8>) -> (r: Option<Vec<u8>>)
    requires
        key@.len() == 32,
        nonce@.len() == 24,
    ensures
        r matches Some(pt) ==> aead_opened(key@, nonce@, ciphertext@) == Some(pt@) && ciphertext@
            == aead_sealed(key@, nonce@, pt@),
        r is None ==> aead_opened(key@, nonce@, ciphertext@) is None,
        r is None ==> forall|pt: Seq<u8>| ciphertext@ != aead_sealed(key@, nonce@, pt),
        r matches Some(v) ==> forall|pt: Seq<u8>|
            ciphertext@ == aead_sealed(key@, nonce@, pt) ==> v@ == pt,
{
    let cipher = XChaCha20Poly1305::new(Key::from_slice(key.as_slice()));
    let nonce = XNonce::from_slice(nonce.as_slice());
    cipher.decrypt(nonce, ciphertext.as_slice()).ok()
}

/// UTF-8 encoding is injective: distinct answers have distinct encodings, so
/// comparing answers by their encoded bytes is exact string comparison.
pub proof fn lemma_encode_utf8_injective(a: Seq<char>, b: Seq<char>)
    ensures
        encode_utf8(a) == encode_utf8(b) ==> a == b,
{
    if encode_utf8(a) == encode_utf8(b) {
        vstd::utf8::encode_utf8_decode_utf8(a);
        vstd::utf8::encode_utf8_decode_utf8(b);
    }
}

/// A UTF-8 encoding takes at most four bytes per character.
pub proof fn lemma_encode_utf8_len(chars: Seq<char>)
    ensures
        encode_utf8(chars).len() <= 4 * chars.len(),
    decreases chars.len(),
{
    if chars.len() > 0 {
        lemma_encode_utf8_len(chars.drop_first());
    }
}

/// Seals and unseals challenge records under one fixed key and nonce pair,
/// provisioned at startup and never rotated.
///
/// A token carries no key or nonce material itself: it is meaningful only
/// relative to the pair the sealer was built with. Note that sealing many
/// records under one unchanging pair is a known weakening of the AEAD's
/// confidentiality guarantee across messages (a nonce should be unique per
/// encryption); a fresh per-seal nonce carried in the clear alongside the
/// ciphertext would lift it.
pub struct Sealer {
    key: Vec<u8>,
    nonce: Vec<u8>,
}

impl Sealer {
    /// The fixed cipher key.
    pub closed spec fn spec_key(&self) -> Seq<u8> {
        self.key@
    }

    /// The fixed cipher nonce.
    pub closed spec fn spec_nonce(&self) -> Seq<u8> {
        self.nonce@
    }

    /// Well-formed: the key and nonce have exactly the lengths the cipher
    /// demands.
    pub open spec fn wf(&self) -> bool {
        self.spec_key().len() == 32 && self.spec_nonce().len() == 24
    }

    /// The token this sealer produces for a record expiring at `exp` whose
    /// answer has the given UTF-8 bytes.
    pub closed spec fn sealed_token(&self, exp: u64, solution: Seq<u8>) -> Seq<char> {
        b64_of(aead_sealed(self.spec_key(), self.spec_nonce(), session_bytes(exp, solution)))
    }

    /// A token is authentic for a record when its transport rendering decodes
    /// to exactly the ciphertext this sealer's key and nonce produce for that
    /// record. [`Sealer::unseal`] never succeeds on anything else.
    pub closed spec fn authentic(&self, token: Seq<char>, exp: u64, solution: Seq<u8>) -> bool {
        b64_decoded(token) == Some(
            aead_sealed(self.spec_key(), self.spec_nonce(), session_bytes(exp, solution)),
        )
    }

    /// The complete unsealing pipeline, as a function of the token alone:
    /// decode the transport rendering and open the ciphertext — either
    /// failing is tampering — then parse the plaintext, whose failure is a
    /// malformed record.
    pub closed spec fn unseal_outcome(&self, token: Seq<char>) -> Result<
        (u64, Seq<u8>),
        SealFailure,
    > {
        match b64_decoded(token) {
            None => Err(SealFailure::Tampered),
            Some(ct) => match aead_opened(self.spec_key(), self.spec_nonce(), ct) {
                None => Err(SealFailure::Tampered),
                Some(pt) => match parse_session(pt) {
                    None => Err(SealFailure::Malformed),
                    Some((exp, sol)) => Ok((exp, sol)),
                },
            },
        }
    }

    /// Builds a sealer from provisioned key material. A wrong-length key or
    /// nonce is a provisioning failure, fatal at startup: construction is
    /// the only place it can surface.
    pub fn new(key: Vec<u8>, nonce: Vec<u8>) -> (r: Result<Sealer, CJAError>)
        ensures
            r is Ok <==> key@.len() == 32 && nonce@.len() == 24,
            r matches Ok(s) ==> s.wf() && s.spec_key() == key@ && s.spec_nonce() == nonce@,
            r matches Err(e) ==> e == CJAError::Unknown,
    {
        if key.len() != 32 || nonce.len() != 24 {
            return Err(CJAError::Unknown);
        }
        Ok(Sealer { key, nonce })
    }

    /// Seals a pending answer: the record `{now + ttl_seconds, solution}` is
    /// serialized, encrypted under the fixed key and nonce, and rendered for
    /// transport. There is no error path: the machine limits that the
    /// preconditions state are all the cipher refuses.
    pub fn seal(&self, solution: &str, ttl_seconds: u64, now: u64) -> (r: String)
        requires
            self.wf(),
            now + ttl_seconds <= u64::MAX,
            solution@.len() < 0x10000000,
        ensures
            r@ == self.sealed_token((now + ttl_seconds) as u64, solution.spec_bytes()),
    {
        let exp = now + ttl_seconds;
        let answer = solution.as_bytes_vec();
        proof {
            lemma_encode_utf8_len(solution@);
            vstd::bytes::lemma_auto_spec_u64_to_from_le_bytes();
        }
        let plaintext = encode_session(exp, &answer);
        let ciphertext = aead_encrypt(&self.key, &self.nonce, &plaintext);
        b64_encode(&ciphertext)
    }

    /// Opens a sealed token, returning exactly what [`Sealer::unseal_outcome`]
    /// describes. Two laws come with it:
    ///
    /// - round trip: every token this sealer sealed opens to the very record
    ///   that was sealed, expiry and answer alike;
    /// - tamper evidence: a token only ever opens to a record it is the
    ///   authentic seal of — nothing inauthentic silently succeeds.
    ///
    /// Expiry is deliberately not checked here: authenticity and structure
    /// are this function's whole job, the clock is its caller's.
    pub fn unseal(&self, token: &String) -> (r: Result<CaptchaSessionData, SealFailure>)
        requires
            self.wf(),
        ensures
            match r {
                Ok(p) => self.unseal_outcome(token@) == Ok::<_, SealFailure>((p.exp, p.solution@)),
                Err(e) => self.unseal_outcome(token@) == Err::<(u64, Seq<u8>), _>(e),
            },
            r matches Ok(p) ==> self.authentic(token@, p.exp, p.solution@),
            forall|exp: u64, sol: Seq<u8>|
                token@ == self.sealed_token(exp, sol) ==> (r matches Ok(p) && p.exp == exp
                    && p.solution@ == sol),
    {
        let ciphertext = match b64_decode(token) {
            Some(ct) => ct,
            None => {
                return Err(SealFailure::Tampered);
            },
        };
        let plaintext = match aead_decrypt(&self.key, &self.nonce, &ciphertext) {
            Some(pt) => pt,
            None => {
                return Err(SealFailure::Tampered);
            },
        };
        match decode_session(&plaintext) {
            Some(data) => {
                proof {
                    lemma_parse_session_inverse(plaintext@);
                    assert forall|exp: u64, sol: Seq<u8>|
                        token@ == self.sealed_token(exp, sol) implies data.exp == exp
                        && data.solution@ == sol by {
                        lemma_session_roundtrip(exp, sol);
                    }
                }
                Ok(data)
            },
            None => {
                proof {
                    assert forall|exp: u64, sol: Seq<u8>|
                        token@ != self.sealed_token(exp, sol) by {
                        lemma_session_roundtrip(exp, sol);
                    }
                }
                Err(SealFailure::Malformed)
            },
        }
    }
}

} // verus!
