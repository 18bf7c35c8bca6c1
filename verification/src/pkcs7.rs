//! The PKCS#7 engine: option decoding and the encrypt, decrypt, sign and
//! verify operations.
use vstd::prelude::*;

use crate::errors::to_term;
use crate::errors::CryptoError;
use crate::pkey::PKeyResource;
use crate::str_eq;
use crate::symm::cipher::cipher_algorithm;
use crate::symm::cipher::decode_cypher;
use crate::symm::cipher::spec_cipher;
use crate::x509::decode_stack;
use crate::x509::decode_store;
use crate::x509::CertStack;
use crate::x509::X509Resource;
use openssl::error::ErrorStack;
use openssl::pkcs7::Pkcs7;
use openssl::pkey::PKey;
use openssl::pkey::Private;
use openssl::x509::store::X509Store;
use crate::MAX_BUFFER_BYTES;

pub mod smime;

verus! {

pub const FLAG_TEXT: u32 = 0x1;

pub const FLAG_NOCERTS: u32 = 0x2;

pub const FLAG_NOSIGS: u32 = 0x4;

pub const FLAG_NOCHAIN: u32 = 0x8;

pub const FLAG_NOINTERN: u32 = 0x10;

pub const FLAG_NOVERIFY: u32 = 0x20;

pub const FLAG_DETACHED: u32 = 0x40;

pub const FLAG_BINARY: u32 = 0x80;

pub const FLAG_NOATTR: u32 = 0x100;

pub const FLAG_NOSMIMECAP: u32 = 0x200;

pub const FLAG_NOOLDMIMETYPE: u32 = 0x400;

pub const FLAG_CRLFEOL: u32 = 0x800;

pub const FLAG_STREAM: u32 = 0x1000;

pub const FLAG_NOCRL: u32 = 0x2000;

pub const FLAG_PARTIAL: u32 = 0x4000;

pub const FLAG_REUSE_DIGEST: u32 = 0x8000;

/// A bitmask of engine options, assembled by OR-combining named option bits.
#[derive(Clone, Copy, Debug, PartialEq, Eq, Structural)]
pub struct Flags {
    pub bits: u32,
}

/// The fixed, total name-to-bit vocabulary of the option decoder: every name
/// maps to exactly one bit or to `None`.
pub open spec fn spec_flag_bit(name: Seq<char>) -> Option<u32> {
    if name == "text"@ {
        Some(FLAG_TEXT)
    } else if name == "nocerts"@ {
        Some(FLAG_NOCERTS)
    } else if name == "nosigs"@ {
        Some(FLAG_NOSIGS)
    } else if name == "nochain"@ {
        Some(FLAG_NOCHAIN)
    } else if name == "nointern"@ {
        Some(FLAG_NOINTERN)
    } else if name == "noverify"@ {
        Some(FLAG_NOVERIFY)
    } else if name == "detached"@ {
        Some(FLAG_DETACHED)
    } else if name == "binary"@ {
        Some(FLAG_BINARY)
    } else if name == "noattr"@ {
        Some(FLAG_NOATTR)
    } else if name == "nosmimecap"@ {
        Some(FLAG_NOSMIMECAP)
    } else if name == "nooldmimetype"@ {
        Some(FLAG_NOOLDMIMETYPE)
    } else if name == "crlfeol"@ {
        Some(FLAG_CRLFEOL)
    } else if name == "stream"@ {
        Some(FLAG_STREAM)
    } else if name == "nocrl"@ {
        Some(FLAG_NOCRL)
    } else if name == "partial"@ {
        Some(FLAG_PARTIAL)
    } else if name == "reuse_digest"@ {
        Some(FLAG_REUSE_DIGEST)
    } else {
        None
    }
}

/// Maps one option name to its bit, exactly as [`spec_flag_bit`] says:
/// a name inside the vocabulary yields its bit, any other name is rejected
/// with `InvalidOption` carrying that name.
pub fn decode_flag(flag: &str) -> (r: Result<Flags, CryptoError>)
    ensures
        spec_flag_bit(flag@) matches Some(b) ==> (r matches Ok(f) && f.bits == b),
        spec_flag_bit(flag@) is None ==> (r matches Err(e) && e.is_invalid_option_named(flag@)),
{
    if str_eq(flag, "text") {
        Ok(Flags { bits: FLAG_TEXT })
    } else if str_eq(flag, "nocerts") {
        Ok(Flags { bits: FLAG_NOCERTS })
    } else if str_eq(flag, "nosigs") {
        Ok(Flags { bits: FLAG_NOSIGS })
    } else if str_eq(flag, "nochain") {
        Ok(Flags { bits: FLAG_NOCHAIN })
    } else if str_eq(flag, "nointern") {
        Ok(Flags { bits: FLAG_NOINTERN })
    } else if str_eq(flag, "noverify") {
        Ok(Flags { bits: FLAG_NOVERIFY })
    } else if str_eq(flag, "detached") {
        Ok(Flags { bits: FLAG_DETACHED })
    } else if str_eq(flag, "binary") {
        Ok(Flags { bits: FLAG_BINARY })
    } else if str_eq(flag, "noattr") {
        Ok(Flags { bits: FLAG_NOATTR })
    } else if str_eq(flag, "nosmimecap") {
        Ok(Flags { bits: FLAG_NOSMIMECAP })
    } else if str_eq(flag, "nooldmimetype") {
        Ok(Flags { bits: FLAG_NOOLDMIMETYPE })
    } else if str_eq(flag, "crlfeol") {
        Ok(Flags { bits: FLAG_CRLFEOL })
    } else if str_eq(flag, "stream") {
        Ok(Flags { bits: FLAG_STREAM })
    } else if str_eq(flag, "nocrl") {
        Ok(Flags { bits: FLAG_NOCRL })
    } else if str_eq(flag, "partial") {
        Ok(Flags { bits: FLAG_PARTIAL })
    } else if str_eq(flag, "reuse_digest") {
        Ok(Flags { bits: FLAG_REUSE_DIGEST })
    } else {
        Err(CryptoError::InvalidOption(Some(String::from_str(flag))))
    }
}

/// What decoding a whole option list yields: the OR of the bits of all names
/// when every name is inside the vocabulary, otherwise the first name (in
/// list order) that is outside it.  An empty list yields the empty bitmask.
pub open spec fn spec_decode_flags(names: Seq<Seq<char>>) -> Result<u32, Seq<char>>
    decreases names.len(),
{
    if names.len() == 0 {
        Ok(0u32)
    } else {
        match spec_decode_flags(names.drop_last()) {
            Ok(acc) => match spec_flag_bit(names.last()) {
                Some(b) => Ok(acc | b),
                None => Err(names.last()),
            },
            Err(tok) => Err(tok),
        }
    }
}

/// Once a prefix of the list decodes to an error, the whole list decodes to
/// that same error: no partial bitmask survives a rejection.
proof fn lemma_decode_flags_err_prefix(names: Seq<Seq<char>>, j: int, tok: Seq<char>)
    requires
        0 <= j <= names.len(),
        spec_decode_flags(names.take(j)) == Err::<u32, Seq<char>>(tok),
    ensures
        spec_decode_flags(names) == Err::<u32, Seq<char>>(tok),
    decreases names.len() - j,
{
    if j == names.len() {
        assert(names.take(j) =~= names);
    } else {
        assert(names.take(j + 1).drop_last() =~= names.take(j));
        lemma_decode_flags_err_prefix(names, j + 1, tok);
    }
}

/// Maps an option list to its bitmask, exactly as [`spec_decode_flags`]
/// says: the OR of all bits when every name is known, else `InvalidOption`
/// naming the first unknown token.  No partial bitmask is returned on
/// failure.
pub fn decode_flags(flags: &Vec<String>) -> (r: Result<Flags, CryptoError>)
    ensures
        spec_decode_flags(flags.deep_view()) matches Ok(b) ==> (r matches Ok(f) && f.bits == b),
        spec_decode_flags(flags.deep_view()) matches Err(tok) ==> (r matches Err(e)
            && e.is_invalid_option_named(tok)),
{
    let ghost names = flags.deep_view();
    let mut acc: u32 = 0;
    let mut i: usize = 0;
    while i < flags.len()
        invariant
            i <= flags.len(),
            names == flags.deep_view(),
            spec_decode_flags(names.take(i as int)) == Ok::<u32, Seq<char>>(acc),
        decreases flags.len() - i,
    {
        proof {
            assert(names.take(i + 1).drop_last() =~= names.take(i as int));
            assert(names.take(i + 1).last() == names[i as int]);
        }
        match decode_flag(flags[i].as_str()) {
            Ok(f) => {
                acc = acc | f.bits;
            },
            Err(e) => {
                proof {
                    lemma_decode_flags_err_prefix(names, i + 1, names[i as int]);
                }
                return Err(e);
            },
        }
        i += 1;
    }
    proof {
        assert(names.take(flags.len() as int) =~= names);
    }
    Ok(Flags { bits: acc })
}

/// An option list that holds any unknown token never decodes: the decoder
/// rejects it, naming the first unknown token of the list, whatever valid
/// names stand elsewhere in it.
pub proof fn lemma_unknown_flag_rejected(names: Seq<Seq<char>>, i: int)
    requires
        0 <= i < names.len(),
        spec_flag_bit(names[i]) is None,
    ensures
        spec_decode_flags(names) is Err,
        spec_flag_bit(spec_decode_flags(names)->Err_0) is None,
        exists|k: int|
            0 <= k < names.len() && names[k] == spec_decode_flags(names)->Err_0 && spec_flag_bit(
                names[k],
            ) is None && (forall|m: int| 0 <= m < k ==> spec_flag_bit(#[trigger] names[m]) is Some),
    decreases i,
{
    if spec_decode_flags(names.take(i)) is Err {
        lemma_take_err_has_unknown(names, i);
        let j = choose|j: int| 0 <= j < i && spec_flag_bit(#[trigger] names[j]) is None;
        lemma_unknown_flag_rejected(names, j);
    } else {
        assert(names.take(i + 1).drop_last() =~= names.take(i));
        assert(names.take(i + 1).last() == names[i]);
        lemma_decode_flags_err_prefix(names, i + 1, names[i]);
        assert forall|m: int| 0 <= m < i implies spec_flag_bit(#[trigger] names[m]) is Some by {
            lemma_ok_prefix_all_known(names.take(i), m);
        }
    }
}

/// If a prefix decodes to an error, some name inside it is unknown.
proof fn lemma_take_err_has_unknown(names: Seq<Seq<char>>, i: int)
    requires
        0 <= i <= names.len(),
        spec_decode_flags(names.take(i)) is Err,
    ensures
        exists|j: int| 0 <= j < i && spec_flag_bit(#[trigger] names[j]) is None,
    decreases i,
{
    assert(i > 0);
    assert(names.take(i).drop_last() =~= names.take(i - 1));
    if spec_decode_flags(names.take(i - 1)) is Err {
        lemma_take_err_has_unknown(names, i - 1);
    } else {
        assert(spec_flag_bit(names[i - 1]) is None);
    }
}

/// If a list decodes to a bitmask, every name inside it is known.
proof fn lemma_ok_prefix_all_known(names: Seq<Seq<char>>, m: int)
    requires
        0 <= m < names.len(),
        spec_decode_flags(names) is Ok,
    ensures
        spec_flag_bit(names[m]) is Some,
    decreases names.len(),
{
    if m == names.len() - 1 {
        assert(spec_flag_bit(names.last()) is Some);
    } else {
        lemma_ok_prefix_all_known(names.drop_last(), m);
    }
}

#[verifier::external_type_specification]
#[verifier::external_body]
pub struct ExPkcs7(openssl::pkcs7::Pkcs7);

/// An opaque owning handle for one PKCS#7 structure.  Created by `encrypt`,
/// `sign` or S/MIME `read`; consumed read-only and never mutated after
/// construction.
pub struct PKCS7Resource {
    pub pkcs7: Pkcs7,
}

/// Wraps an engine structure in an owning resource.
pub fn pkcs7_to_resource(pkcs7: Pkcs7) -> (r: PKCS7Resource)
    ensures
        r.pkcs7 == pkcs7,
{
    PKCS7Resource { pkcs7: pkcs7 }
}

/// Relies on openssl's `Pkcs7::encrypt`: builds an enveloped-data structure
/// over the input, sealing a fresh symmetric key for every certificate of
/// the recipient stack.
#[verifier::external_body]
fn pkcs7_encrypt_raw(certs: &CertStack, input: &[u8], cipher: openssl::symm::Cipher, bits: u32) -> (r: Result<Pkcs7, ErrorStack>)
    requires
        input@.len() <= MAX_BUFFER_BYTES,
{
    let flags = openssl::pkcs7::Pkcs7Flags::from_bits_retain(bits as i32);
    Pkcs7::encrypt(&certs.stack, input, cipher, flags)
}

/// Relies on openssl's `Pkcs7Ref::decrypt`: locates the sealed key entry
/// matching the certificate, unseals it with the private key and returns the
/// full plaintext, or fails with the engine's error stack.
#[verifier::external_body]
fn pkcs7_decrypt_raw(pkcs7: &Pkcs7, key: &PKey<Private>, cert: &openssl::x509::X509, bits: u32) -> (r: Result<Vec<u8>, ErrorStack>) {
    let flags = openssl::pkcs7::Pkcs7Flags::from_bits_retain(bits as i32);
    pkcs7.decrypt(key, cert, flags)
}

/// Relies on openssl's `Pkcs7::sign`: builds a signed-data structure over
/// the input, signed by the key and attributed to the certificate, bundling
/// the extra certificates.
#[verifier::external_body]
fn pkcs7_sign_raw(cert: &openssl::x509::X509, key: &PKey<Private>, certs: &CertStack, input: &[u8], bits: u32) -> (r: Result<Pkcs7, ErrorStack>)
    requires
        input@.len() <= MAX_BUFFER_BYTES,
{
    let flags = openssl::pkcs7::Pkcs7Flags::from_bits_retain(bits as i32);
    Pkcs7::sign(cert, key, &certs.stack, input, flags)
}

/// Relies on openssl's `Pkcs7Ref::verify`: verifies every signature of the
/// structure against the candidate signer stack and the trust store, writing
/// the recovered content to `out` on success and failing with the engine's
/// error stack on any verification failure.
#[verifier::external_body]
fn pkcs7_verify_raw(pkcs7: &Pkcs7, certs: &CertStack, store: &X509Store, indata: Option<&[u8]>, out: &mut Vec<u8>, bits: u32) -> (r: Result<(), ErrorStack>)
    requires
        indata matches Some(d) ==> d@.len() <= MAX_BUFFER_BYTES,
{
    let flags = openssl::pkcs7::Pkcs7Flags::from_bits_retain(bits as i32);
    pkcs7.verify(&certs.stack, store, indata, Some(out), flags)
}

/// Builds an enveloped-data structure: the plaintext is encrypted once under
/// a fresh symmetric key, and that key is sealed for every recipient
/// certificate.  The option set must be non-empty and every option and the
/// cipher name must be inside their vocabularies; those rejections happen
/// before any engine call, and every other failure carries the engine's
/// error stack.
pub fn encrypt(certs: &Vec<X509Resource>, input: &[u8], cipher: &str, flags: &Vec<String>) -> (r: Result<PKCS7Resource, CryptoError>)
    requires
        input@.len() <= MAX_BUFFER_BYTES,
    ensures
        flags.deep_view().len() == 0 ==> (r matches Err(e) && e.is_missing_options()),
        spec_decode_flags(flags.deep_view()) matches Err(tok) ==> (r matches Err(e)
            && e.is_invalid_option_named(tok) && flags.deep_view().len() > 0),
        flags.deep_view().len() > 0 && spec_decode_flags(flags.deep_view()) is Ok && spec_cipher(
            cipher@,
        ) is None ==> (r matches Err(e) && e.is_invalid_option_named(cipher@)),
        flags.deep_view().len() > 0 && spec_decode_flags(flags.deep_view()) is Ok && spec_cipher(
            cipher@,
        ) is Some ==> (r matches Err(e) ==> !e.is_invalid_option()),
        r matches Err(e) ==> e.is_invalid_option() || e matches CryptoError::EngineError(recs),
{
    if flags.len() == 0 {
        return Err(CryptoError::InvalidOption(None));
    }
    let decoded = match decode_flags(flags) {
        Ok(f) => f,
        Err(e) => {
            return Err(e);
        },
    };
    let kind = match decode_cypher(cipher) {
        Ok(k) => k,
        Err(e) => {
            return Err(e);
        },
    };
    let stack = match decode_stack(certs) {
        Ok(s) => s,
        Err(e) => {
            return Err(e);
        },
    };
    let algorithm = cipher_algorithm(&kind);
    match pkcs7_encrypt_raw(&stack, input, algorithm, decoded.bits) {
        Ok(pkcs7) => Ok(pkcs7_to_resource(pkcs7)),
        Err(es) => Err(CryptoError::EngineError(to_term(&es))),
    }
}

/// Unseals the symmetric key entry of the structure that matches the given
/// certificate, using the given private key, and decrypts the payload.
/// There is no partial result: full plaintext bytes, or the engine's error
/// stack.
pub fn decrypt(pkcs7: &PKCS7Resource, key: &PKeyResource, cert: &X509Resource) -> (r: Result<Vec<u8>, CryptoError>)
    ensures
        r matches Err(e) ==> e matches CryptoError::EngineError(recs),
{
    match pkcs7_decrypt_raw(&pkcs7.pkcs7, &key.key, &cert.cert, 0u32) {
        Ok(decrypted) => Ok(decrypted),
        Err(es) => Err(CryptoError::EngineError(to_term(&es))),
    }
}

/// Produces a signed-data structure over the content, signed by `key` and
/// attributed to `sign_cert`; `certs` are bundled for chain building but
/// sign nothing.  The option set must be non-empty and inside the
/// vocabulary; those rejections happen before any engine call, and every
/// other failure carries the engine's error stack.
pub fn sign(sign_cert: &X509Resource, key: &PKeyResource, certs: &Vec<X509Resource>, input: &[u8], flags: &Vec<String>) -> (r: Result<PKCS7Resource, CryptoError>)
    requires
        input@.len() <= MAX_BUFFER_BYTES,
    ensures
        flags.deep_view().len() == 0 ==> (r matches Err(e) && e.is_missing_options()),
        spec_decode_flags(flags.deep_view()) matches Err(tok) ==> (r matches Err(e)
            && e.is_invalid_option_named(tok) && flags.deep_view().len() > 0),
        flags.deep_view().len() > 0 && spec_decode_flags(flags.deep_view()) is Ok ==> (r matches
            Err(e) ==> !e.is_invalid_option()),
        r matches Err(e) ==> e.is_invalid_option() || e matches CryptoError::EngineError(recs),
{
    if flags.len() == 0 {
        return Err(CryptoError::InvalidOption(None));
    }
    let decoded = match decode_flags(flags) {
        Ok(f) => f,
        Err(e) => {
            return Err(e);
        },
    };
    let stack = match decode_stack(certs) {
        Ok(s) => s,
        Err(e) => {
            return Err(e);
        },
    };
    match pkcs7_sign_raw(&sign_cert.cert, &key.key, &stack, input, decoded.bits) {
        Ok(pkcs7) => Ok(pkcs7_to_resource(pkcs7)),
        Err(es) => Err(CryptoError::EngineError(to_term(&es))),
    }
}

/// Verifies every signature of the structure, using the trust store as
/// anchor set and `certs` as additional candidate signer certificates.
/// `data` carries the detached content where the structure was signed
/// `detached`, and is `None` otherwise.  Success is always `(true, content)`
/// with the recovered payload; a failed verification is always an engine
/// error, never a `(false, _)` success.  The option set must be non-empty
/// and inside the vocabulary; those rejections happen before any engine
/// call.
///
/// With `noverify` set the engine skips chain validation of the signers'
/// certificates against the trust store, but still checks the signature
/// mathematics over the content: tampered content fails even then.
pub fn verify(pkcs7: &PKCS7Resource, certs: &Vec<X509Resource>, store: &Vec<X509Resource>, data: Option<&[u8]>, flags: &Vec<String>) -> (r: Result<(bool, Vec<u8>), CryptoError>)
    requires
        data matches Some(d) ==> d@.len() <= MAX_BUFFER_BYTES,
    ensures
        flags.deep_view().len() == 0 ==> (r matches Err(e) && e.is_missing_options()),
        spec_decode_flags(flags.deep_view()) matches Err(tok) ==> (r matches Err(e)
            && e.is_invalid_option_named(tok) && flags.deep_view().len() > 0),
        flags.deep_view().len() > 0 && spec_decode_flags(flags.deep_view()) is Ok ==> (r matches
            Err(e) ==> !e.is_invalid_option()),
        r matches Ok(p) ==> p.0 == true,
        r matches Err(e) ==> e.is_invalid_option() || e matches CryptoError::EngineError(recs),
{
    if flags.len() == 0 {
        return Err(CryptoError::InvalidOption(None));
    }
    let decoded = match decode_flags(flags) {
        Ok(f) => f,
        Err(e) => {
            return Err(e);
        },
    };
    let stack = match decode_stack(certs) {
        Ok(s) => s,
        Err(e) => {
            return Err(e);
        },
    };
    let trust = match decode_store(store) {
        Ok(s) => s,
        Err(e) => {
            return Err(e);
        },
    };
    let mut out: Vec<u8> = Vec::new();
    match pkcs7_verify_raw(&pkcs7.pkcs7, &stack, &trust, data, &mut out, decoded.bits) {
        Ok(u) => Ok((true, out)),
        Err(es) => Err(CryptoError::EngineError(to_term(&es))),
    }
}

} // verus!
