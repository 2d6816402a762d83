use crate::b64::{b64url_decode, b64url_decoded, b64url_encode, b64url_of, trim_of};
use crate::errors::TextError;
use crate::gen_pass::{
    all_bytes_enabled, genpass_bytes, has_lower_byte, has_number_byte, has_symbol_byte,
    has_upper_byte,
};
use ed25519_dalek::Signer as _;
use vstd::prelude::*;

verus! {

/// The two interchangeable tag algorithms: a keyed cryptographic hash
/// (symmetric) and an Ed25519 digital signature (asymmetric).
#[derive(Clone, Copy, Debug, PartialEq, Eq, Structural)]
pub enum TextSignFormat {
    Blake3,
    Ed25519,
}

/// The 32-byte keyed digest of a message under a 32-byte key.
pub uninterp spec fn blake3_keyed_tag(key: Seq<u8>, msg: Seq<u8>) -> Seq<u8>;

/// The 64-byte Ed25519 signature of a message under a 32-byte secret key.
pub uninterp spec fn ed25519_signature(sk: Seq<u8>, msg: Seq<u8>) -> Seq<u8>;

/// The 32-byte Ed25519 verifying key derived from a 32-byte secret key.
pub uninterp spec fn ed25519_public_of(sk: Seq<u8>) -> Seq<u8>;

/// Whether 32 bytes decompress to a valid point on the Ed25519 curve.
pub uninterp spec fn ed25519_point_valid(vk: Seq<u8>) -> bool;

/// Whether strict Ed25519 verification accepts a signature for a message
/// under a verifying key.
pub uninterp spec fn ed25519_strict_ok(vk: Seq<u8>, msg: Seq<u8>, sig: Seq<u8>) -> bool;

/// Relies on `blake3::keyed_hash`: the 32-byte keyed digest is a function
/// of key and message alone.
#[verifier::external_body]
fn blake3_keyed(key: &[u8; 32], msg: &[u8]) -> (r: Vec<u8>)
    ensures
        r@ == blake3_keyed_tag(key@, msg@),
        r@.len() == 32,
{
    blake3::keyed_hash(key, msg).as_bytes().to_vec()
}

/// Relies on ed25519_dalek's `SigningKey::sign` (deterministic Ed25519 per
/// RFC 8032): the 64-byte signature is a function of secret key and message
/// alone, and a signature so produced passes `verify_strict` under the
/// verifying key derived from the same secret key.
#[verifier::external_body]
fn ed25519_sign_bytes(key: &[u8; 32], msg: &[u8]) -> (r: Vec<u8>)
    ensures
        r@ == ed25519_signature(key@, msg@),
        r@.len() == 64,
        ed25519_strict_ok(ed25519_public_of(key@), msg@, r@),
{
    let sk = ed25519_dalek::SigningKey::from_bytes(key);
    sk.sign(msg).to_bytes().to_vec()
}

/// Relies on ed25519_dalek's `SigningKey::verifying_key`: the verifying key
/// is a 32-byte deterministic function of the secret key, and always a
/// valid curve point.
#[verifier::external_body]
fn ed25519_derive_public(key: &[u8; 32]) -> (r: Vec<u8>)
    ensures
        r@ == ed25519_public_of(key@),
        r@.len() == 32,
        ed25519_point_valid(r@),
{
    let sk = ed25519_dalek::SigningKey::from_bytes(key);
    sk.verifying_key().to_bytes().to_vec()
}

/// Relies on ed25519_dalek's `VerifyingKey::from_bytes`: whether the bytes
/// decompress to a valid curve point is a function of the bytes alone.
#[verifier::external_body]
fn ed25519_check_point(key: &[u8; 32]) -> (r: bool)
    ensures
        r == ed25519_point_valid(key@),
{
    ed25519_dalek::VerifyingKey::from_bytes(key).is_ok()
}

/// Relies on ed25519_dalek's `VerifyingKey::verify_strict`: strict
/// verification of a 64-byte signature is a function of verifying key,
/// message and signature bytes alone.
#[verifier::external_body]
fn ed25519_verify_bytes(key: &[u8; 32], msg: &[u8], sig: &[u8]) -> (r: bool)
    requires
        ed25519_point_valid(key@),
        sig@.len() == 64,
    ensures
        r == ed25519_strict_ok(key@, msg@, sig@),
{
    let vk = match ed25519_dalek::VerifyingKey::from_bytes(key) {
        Ok(vk) => vk,
        Err(_) => return false,
    };
    let sig_bytes: [u8; 64] = match sig.try_into() {
        Ok(b) => b,
        Err(_) => return false,
    };
    let signature = ed25519_dalek::Signature::from_bytes(&sig_bytes);
    vk.verify_strict(msg, &signature).is_ok()
}

/// Relies on rand's `random` with `ThreadRng`, a cryptographically secure
/// generator: 32 fresh random bytes. Nothing is promised of the values.
#[verifier::external_body]
fn random_seed() -> (r: Vec<u8>)
    ensures
        r@.len() == 32,
{
    rand::random::<[u8; 32]>().to_vec()
}

/// Relies on std's `copy_from_slice`: the array holds the first 32 bytes
/// of the slice.
#[verifier::external_body]
fn key32_prefix(b: &[u8]) -> (r: [u8; 32])
    requires
        b@.len() >= 32,
    ensures
        r@ == b@.subrange(0, 32),
{
    let mut out = [0u8; 32];
    out.copy_from_slice(&b[..32]);
    out
}

/// Byte-for-byte equality of two slices.
fn slice_eq(a: &[u8], b: &[u8]) -> (r: bool)
    ensures
        r == (a@ == b@),
{
    if a.len() != b.len() {
        return false;
    }
    let mut i: usize = 0;
    while i < a.len()
        invariant
            i <= a@.len(),
            a@.len() == b@.len(),
            forall|j: int| 0 <= j < i ==> a@[j] == b@[j],
        decreases a@.len() - i,
    {
        if a[i] != b[i] {
            return false;
        }
        i = i + 1;
    }
    proof {
        assert(a@ =~= b@);
    }
    true
}

/// The signing capability: computes an authentication tag over a
/// fully-buffered input.
pub trait TextSign {
    /// The tag that this signer computes for a message.
    spec fn tag_of(&self, msg: Seq<u8>) -> Seq<u8>;

    /// Whether the matching verifier accepts a tag for a message; every tag
    /// that `sign` produces is accepted (the sign/verify round trip).
    spec fn tag_accepted(&self, msg: Seq<u8>, tag: Seq<u8>) -> bool;

    /// Computes the authentication tag of the whole buffer.
    fn sign(&self, msg: &[u8]) -> (r: Vec<u8>)
        ensures
            r@ == self.tag_of(msg@),
            self.tag_accepted(msg@, r@),
    ;
}

/// The verifying capability: checks an authentication tag over a
/// fully-buffered input.
pub trait TextVerify {
    /// Whether a tag is structurally well-formed for this verifier.
    spec fn tag_wf(&self, sign: Seq<u8>) -> bool;

    /// Whether this verifier accepts a tag for a message.
    spec fn accepts(&self, msg: Seq<u8>, sign: Seq<u8>) -> bool;

    /// Checks the tag against the whole buffer: `Ok(true)` exactly on
    /// accepted tags; a malformed tag is an error, never a false negative.
    fn verify(&self, msg: &[u8], sign: &[u8]) -> (r: Result<bool, TextError>)
        ensures
            self.tag_wf(sign@) ==> r == Ok::<bool, TextError>(self.accepts(msg@, sign@)),
            !self.tag_wf(sign@) ==> r == Err::<bool, TextError>(TextError::SignatureFormatError),
    ;
}

/// Construction of a capability from raw key bytes, already read from
/// whatever byte source holds them.
pub trait KeyLoader: Sized {
    /// Exactly how `load` relates the raw key bytes to its result.
    spec fn load_spec(key: Seq<u8>, r: Result<Self, TextError>) -> bool;

    /// Validates raw key bytes and constructs the capability.
    fn load(key: &[u8]) -> (r: Result<Self, TextError>)
        ensures
            Self::load_spec(key@, r),
    ;
}

/// Generation of fresh key material, independent of any byte source.
pub trait KeyGenerator {
    /// The shape that every generated sequence of key buffers has.
    spec fn generated_spec(r: Seq<Seq<u8>>) -> bool;

    /// Produces fresh key material as an ordered sequence of byte buffers;
    /// the caller decides where each buffer is persisted.
    fn generate() -> (r: Result<Vec<Vec<u8>>, TextError>)
        ensures
            r is Ok,
            r matches Ok(v) ==> Self::generated_spec(v.deep_view()),
    ;
}

/// The keyed-hash capability: a validated 32-byte symmetric key.
pub struct Blake3 {
    key: [u8; 32],
}

/// The asymmetric signing capability: a validated 32-byte secret key.
pub struct Ed25519Signer {
    key: [u8; 32],
}

/// The asymmetric verifying capability: a validated 32-byte public key
/// that decompresses to a point on the curve.
pub struct Ed25519Verifier {
    key: [u8; 32],
}

impl View for Blake3 {
    type V = Seq<u8>;

    closed spec fn view(&self) -> Seq<u8> {
        self.key@
    }
}

impl View for Ed25519Signer {
    type V = Seq<u8>;

    closed spec fn view(&self) -> Seq<u8> {
        self.key@
    }
}

impl View for Ed25519Verifier {
    type V = Seq<u8>;

    closed spec fn view(&self) -> Seq<u8> {
        self.key@
    }
}

impl Blake3 {
    /// Wraps an already-validated 32-byte symmetric key.
    pub fn new(key: [u8; 32]) -> (r: Self)
        ensures
            r@ == key@,
    {
        Self { key }
    }

    /// Validates raw key bytes: at least 32 bytes are required, and exactly
    /// the first 32 are used; shorter input is a `KeyLengthError`.
    pub fn try_new(key: &[u8]) -> (r: Result<Self, TextError>)
        ensures
            key@.len() >= 32 ==> (r matches Ok(s) && s@ == key@.subrange(0, 32)),
            key@.len() < 32 ==> r == Err::<Blake3, TextError>(TextError::KeyLengthError),
    {
        if key.len() < 32 {
            return Err(TextError::KeyLengthError);
        }
        let arr = key32_prefix(key);
        Ok(Blake3::new(arr))
    }
}

impl TextSign for Blake3 {
    open spec fn tag_of(&self, msg: Seq<u8>) -> Seq<u8> {
        blake3_keyed_tag(self@, msg)
    }

    open spec fn tag_accepted(&self, msg: Seq<u8>, tag: Seq<u8>) -> bool {
        tag.len() == 32 && tag == blake3_keyed_tag(self@, msg)
    }

    fn sign(&self, msg: &[u8]) -> (r: Vec<u8>) {
        blake3_keyed(&self.key, msg)
    }
}

impl TextVerify for Blake3 {
    open spec fn tag_wf(&self, sign: Seq<u8>) -> bool {
        true
    }

    open spec fn accepts(&self, msg: Seq<u8>, sign: Seq<u8>) -> bool {
        sign.len() == 32 && sign == blake3_keyed_tag(self@, msg)
    }

    fn verify(&self, msg: &[u8], sign: &[u8]) -> (r: Result<bool, TextError>) {
        let tag = blake3_keyed(&self.key, msg);
        Ok(slice_eq(tag.as_slice(), sign))
    }
}

impl KeyLoader for Blake3 {
    open spec fn load_spec(key: Seq<u8>, r: Result<Blake3, TextError>) -> bool {
        if key.len() >= 32 {
            r matches Ok(s) && s@ == key.subrange(0, 32)
        } else {
            r == Err::<Blake3, TextError>(TextError::KeyLengthError)
        }
    }

    fn load(key: &[u8]) -> (r: Result<Self, TextError>) {
        Self::try_new(key)
    }
}

impl KeyGenerator for Blake3 {
    open spec fn generated_spec(r: Seq<Seq<u8>>) -> bool {
        &&& r.len() == 1
        &&& r[0].len() == 32
        &&& all_bytes_enabled(r[0], false, false, false, false)
        &&& has_upper_byte(r[0])
        &&& has_lower_byte(r[0])
        &&& has_number_byte(r[0])
        &&& has_symbol_byte(r[0])
    }

    fn generate() -> (r: Result<Vec<Vec<u8>>, TextError>) {
        let key = genpass_bytes(32, false, false, false, false);
        let ghost kv = key@;
        let mut out: Vec<Vec<u8>> = Vec::new();
        out.push(key);
        proof {
            assert(out.deep_view() =~~= seq![kv]);
        }
        Ok(out)
    }
}

impl Ed25519Signer {
    /// Wraps an already-validated 32-byte secret key.
    pub fn new(key: [u8; 32]) -> (r: Self)
        ensures
            r@ == key@,
    {
        Self { key }
    }

    /// Validates raw key bytes: exactly 32 bytes are required; any other
    /// length is a `KeyLengthError`.
    pub fn try_new(key: &[u8]) -> (r: Result<Self, TextError>)
        ensures
            key@.len() == 32 ==> (r matches Ok(s) && s@ == key@),
            key@.len() != 32 ==> r == Err::<Ed25519Signer, TextError>(TextError::KeyLengthError),
    {
        if key.len() != 32 {
            return Err(TextError::KeyLengthError);
        }
        let arr = key32_prefix(key);
        proof {
            assert(arr@ =~= key@);
        }
        Ok(Ed25519Signer::new(arr))
    }
}

impl TextSign for Ed25519Signer {
    open spec fn tag_of(&self, msg: Seq<u8>) -> Seq<u8> {
        ed25519_signature(self@, msg)
    }

    open spec fn tag_accepted(&self, msg: Seq<u8>, tag: Seq<u8>) -> bool {
        tag.len() == 64 && ed25519_strict_ok(ed25519_public_of(self@), msg, tag)
    }

    fn sign(&self, msg: &[u8]) -> (r: Vec<u8>) {
        ed25519_sign_bytes(&self.key, msg)
    }
}

impl KeyLoader for Ed25519Signer {
    open spec fn load_spec(key: Seq<u8>, r: Result<Ed25519Signer, TextError>) -> bool {
        if key.len() == 32 {
            r matches Ok(s) && s@ == key
        } else {
            r == Err::<Ed25519Signer, TextError>(TextError::KeyLengthError)
        }
    }

    fn load(key: &[u8]) -> (r: Result<Self, TextError>) {
        Self::try_new(key)
    }
}

impl KeyGenerator for Ed25519Signer {
    open spec fn generated_spec(r: Seq<Seq<u8>>) -> bool {
        &&& r.len() == 2
        &&& r[0].len() == 32
        &&& r[1].len() == 32
        &&& r[1] == ed25519_public_of(r[0])
        &&& ed25519_point_valid(r[1])
    }

    fn generate() -> (r: Result<Vec<Vec<u8>>, TextError>) {
        let sk = random_seed();
        let ghost skv = sk@;
        let arr = key32_prefix(sk.as_slice());
        proof {
            assert(arr@ =~= skv);
        }
        let pk = ed25519_derive_public(&arr);
        let ghost pkv = pk@;
        let mut out: Vec<Vec<u8>> = Vec::new();
        out.push(sk);
        out.push(pk);
        proof {
            assert(out.deep_view() =~~= seq![skv, pkv]);
        }
        Ok(out)
    }
}

impl Ed25519Verifier {
    /// The key bytes always decompress to a valid curve point.
    #[verifier::type_invariant]
    closed spec fn wf(self) -> bool {
        ed25519_point_valid(self.key@)
    }

    /// Wraps already-validated 32-byte public-key bytes; the bytes must
    /// decode to a valid curve point, as `try_new` checks.
    pub fn new(key: [u8; 32]) -> (r: Self)
        requires
            ed25519_point_valid(key@),
        ensures
            r@ == key@,
    {
        Self { key }
    }

    /// Validates raw key bytes: exactly 32 bytes decoding to a valid curve
    /// point are required; a wrong length is a `KeyLengthError` and a
    /// malformed point a `KeyEncodingError`.
    pub fn try_new(key: &[u8]) -> (r: Result<Self, TextError>)
        ensures
            key@.len() == 32 && ed25519_point_valid(key@) ==> (r matches Ok(v) && v@ == key@),
            key@.len() != 32 ==> r == Err::<Ed25519Verifier, TextError>(TextError::KeyLengthError),
            key@.len() == 32 && !ed25519_point_valid(key@) ==> r == Err::<
                Ed25519Verifier,
                TextError,
            >(TextError::KeyEncodingError),
    {
        if key.len() != 32 {
            return Err(TextError::KeyLengthError);
        }
        let arr = key32_prefix(key);
        proof {
            assert(arr@ =~= key@);
        }
        if !ed25519_check_point(&arr) {
            return Err(TextError::KeyEncodingError);
        }
        Ok(Ed25519Verifier::new(arr))
    }
}

impl TextVerify for Ed25519Verifier {
    open spec fn tag_wf(&self, sign: Seq<u8>) -> bool {
        sign.len() == 64
    }

    open spec fn accepts(&self, msg: Seq<u8>, sign: Seq<u8>) -> bool {
        ed25519_strict_ok(self@, msg, sign)
    }

    fn verify(&self, msg: &[u8], sign: &[u8]) -> (r: Result<bool, TextError>) {
        proof {
            use_type_invariant(self);
        }
        if sign.len() != 64 {
            return Err(TextError::SignatureFormatError);
        }
        Ok(ed25519_verify_bytes(&self.key, msg, sign))
    }
}

impl KeyLoader for Ed25519Verifier {
    open spec fn load_spec(key: Seq<u8>, r: Result<Ed25519Verifier, TextError>) -> bool {
        if key.len() != 32 {
            r == Err::<Ed25519Verifier, TextError>(TextError::KeyLengthError)
        } else if !ed25519_point_valid(key) {
            r == Err::<Ed25519Verifier, TextError>(TextError::KeyEncodingError)
        } else {
            r matches Ok(v) && v@ == key
        }
    }

    fn load(key: &[u8]) -> (r: Result<Self, TextError>) {
        Self::try_new(key)
    }
}

/// Law: the tag that a keyed-hash signer produces is 32 bytes, is exactly
/// the keyed digest of the message, and is accepted by the same key, so
/// signing and then verifying under one symmetric key succeeds.
pub proof fn lemma_blake3_sign_verify(signer: Blake3, msg: Seq<u8>, tag: Seq<u8>)
    requires
        signer.tag_accepted(msg, tag),
    ensures
        signer.accepts(msg, tag),
        tag == signer.tag_of(msg),
        tag.len() == 32,
{
}

/// Law: a tag that a signing key produces and warrants accepted is
/// well-formed for, and accepted by, the verifier holding the verifying
/// key derived from that signing key.
pub proof fn lemma_ed25519_sign_verify(
    signer: Ed25519Signer,
    verifier: Ed25519Verifier,
    msg: Seq<u8>,
    tag: Seq<u8>,
)
    requires
        verifier@ == ed25519_public_of(signer@),
        signer.tag_accepted(msg, tag),
    ensures
        verifier.tag_wf(tag),
        verifier.accepts(msg, tag),
{
}

/// Which raw key bytes the signing side of each algorithm accepts.
pub open spec fn sign_key_accepted(format: TextSignFormat, key: Seq<u8>) -> bool {
    match format {
        TextSignFormat::Blake3 => key.len() >= 32,
        TextSignFormat::Ed25519 => key.len() == 32,
    }
}

/// The tag computed by each algorithm from raw key bytes and a message.
pub open spec fn tag_for(format: TextSignFormat, key: Seq<u8>, msg: Seq<u8>) -> Seq<u8> {
    match format {
        TextSignFormat::Blake3 => blake3_keyed_tag(key.subrange(0, 32), msg),
        TextSignFormat::Ed25519 => ed25519_signature(key, msg),
    }
}

/// Signs a fully-buffered input under raw key bytes and renders the tag as
/// URL-safe unpadded base64 text; the text decodes back to the tag.
pub fn process_text_sign(input: &[u8], key: &[u8], format: TextSignFormat) -> (r: Result<
    String,
    TextError,
>)
    ensures
        sign_key_accepted(format, key@) ==> (r matches Ok(s) && s@ == b64url_of(
            tag_for(format, key@, input@),
        ) && b64url_decoded(s@) == Some(tag_for(format, key@, input@)) && trim_of(s@) == s@),
        !sign_key_accepted(format, key@) ==> r == Err::<String, TextError>(
            TextError::KeyLengthError,
        ),
        format is Blake3 && sign_key_accepted(format, key@) ==> tag_for(
            format,
            key@,
            input@,
        ).len() == 32,
        format is Ed25519 && sign_key_accepted(format, key@) ==> ed25519_strict_ok(
            ed25519_public_of(key@),
            input@,
            tag_for(format, key@, input@),
        ) && tag_for(format, key@, input@).len() == 64,
{
    let signed = match format {
        TextSignFormat::Blake3 => {
            let signer = match Blake3::load(key) {
                Ok(signer) => signer,
                Err(e) => return Err(e),
            };
            signer.sign(input)
        },
        TextSignFormat::Ed25519 => {
            let signer = match Ed25519Signer::load(key) {
                Ok(signer) => signer,
                Err(e) => return Err(e),
            };
            signer.sign(input)
        },
    };
    Ok(b64url_encode(signed.as_slice()))
}

/// Which raw key bytes the verifying side of each algorithm accepts.
pub open spec fn verify_key_accepted(format: TextSignFormat, key: Seq<u8>) -> bool {
    match format {
        TextSignFormat::Blake3 => key.len() >= 32,
        TextSignFormat::Ed25519 => key.len() == 32 && ed25519_point_valid(key),
    }
}

/// The error reported for raw key bytes that the verifying side rejects.
pub open spec fn verify_key_error(format: TextSignFormat, key: Seq<u8>) -> TextError {
    match format {
        TextSignFormat::Blake3 => TextError::KeyLengthError,
        TextSignFormat::Ed25519 => if key.len() != 32 {
            TextError::KeyLengthError
        } else {
            TextError::KeyEncodingError
        },
    }
}

/// What verification reports once the tag text has decoded to `tag` and
/// the key was accepted.
pub open spec fn verify_outcome(
    format: TextSignFormat,
    key: Seq<u8>,
    msg: Seq<u8>,
    tag: Seq<u8>,
) -> Result<bool, TextError> {
    match format {
        TextSignFormat::Blake3 => Ok(tag.len() == 32 && tag == blake3_keyed_tag(key.subrange(0, 32), msg)),
        TextSignFormat::Ed25519 => if tag.len() == 64 {
            Ok(ed25519_strict_ok(key, msg, tag))
        } else {
            Err(TextError::SignatureFormatError)
        },
    }
}

/// Decodes a base64 tag, reconstructs the verifying capability from raw
/// key bytes, and checks the tag against the fully-buffered input.
///
/// Malformed base64 is a `TagEncodingError`; a bad key is a
/// `KeyLengthError` or `KeyEncodingError`; a wrong-length Ed25519 tag is a
/// `SignatureFormatError`; and a tag that merely fails to verify is the
/// ordinary result `Ok(false)`.
pub fn process_text_verify(input: &[u8], key: &[u8], format: TextSignFormat, sign: &str) -> (r:
    Result<bool, TextError>)
    ensures
        b64url_decoded(sign@) is None ==> r == Err::<bool, TextError>(TextError::TagEncodingError),
        b64url_decoded(sign@) matches Some(tag) ==> {
            &&& !verify_key_accepted(format, key@) ==> r == Err::<bool, TextError>(
                verify_key_error(format, key@),
            )
            &&& verify_key_accepted(format, key@) ==> r == verify_outcome(
                format,
                key@,
                input@,
                tag,
            )
        },
{
    let signed = match b64url_decode(sign) {
        Some(tag) => tag,
        None => return Err(TextError::TagEncodingError),
    };
    match format {
        TextSignFormat::Blake3 => {
            let verifier = match Blake3::load(key) {
                Ok(verifier) => verifier,
                Err(e) => return Err(e),
            };
            verifier.verify(input, signed.as_slice())
        },
        TextSignFormat::Ed25519 => {
            let verifier = match Ed25519Verifier::load(key) {
                Ok(verifier) => verifier,
                Err(e) => return Err(e),
            };
            verifier.verify(input, signed.as_slice())
        },
    }
}

/// Generates fresh key material for an algorithm: one 32-byte symmetric
/// key for the keyed hash, or a secret key followed by its derived
/// verifying key for Ed25519.
pub fn process_text_generate(format: TextSignFormat) -> (r: Result<Vec<Vec<u8>>, TextError>)
    ensures
        r is Ok,
        r matches Ok(v) ==> format is Blake3 ==> <Blake3 as KeyGenerator>::generated_spec(
            v.deep_view(),
        ),
        r matches Ok(v) ==> format is Ed25519 ==> <Ed25519Signer as KeyGenerator>::generated_spec(
            v.deep_view(),
        ),
{
    match format {
        TextSignFormat::Blake3 => Blake3::generate(),
        TextSignFormat::Ed25519 => Ed25519Signer::generate(),
    }
}

} // verus!
