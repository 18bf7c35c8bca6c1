//! Private key loading.
use vstd::prelude::*;

use crate::count_matches;
use crate::errors::to_term;
use crate::errors::CryptoError;
use crate::spec_count_matches;
use crate::MAX_TEXT_CHARS;
use openssl::error::ErrorStack;
use openssl::pkey::PKey;
use openssl::pkey::Private;

verus! {

#[verifier::external_type_specification]
#[verifier::external_body]
#[verifier::reject_recursive_types(T)]
pub struct ExPKey<T>(openssl::pkey::PKey<T>);

#[verifier::external_type_specification]
#[verifier::external_body]
pub struct ExPrivate(openssl::pkey::Private);

/// An immutable owning handle for one loaded private key.  The key material
/// is never serialized back out by this crate.
pub struct PKeyResource {
    pub key: PKey<Private>,
}

/// The text carries passphrase-protected key material: a legacy PEM
/// encryption header, or an encrypted PKCS#8 block.  For either the engine
/// would consult its passphrase callback, making the outcome depend on the
/// environment, so this crate rejects such text before any engine call.
/// Neither marker can occur inside a base64 body (`-`, `:` and the space
/// are outside the base64 alphabet).
pub open spec fn spec_key_pem_encrypted(pem: Seq<char>) -> bool {
    spec_count_matches(pem, "Proc-Type:"@) > 0 || spec_count_matches(
        pem,
        "ENCRYPTED PRIVATE KEY"@,
    ) > 0
}

/// Whether the engine decodes a private key from this PEM text.
pub uninterp spec fn key_pem_parses(pem: Seq<char>) -> bool;

/// Relies on openssl's `PKey::private_key_from_pem`: decodes the private
/// key of the PEM text, failing when none can be decoded.  On text free of
/// passphrase markers — all this crate hands it — no passphrase callback is
/// consulted and the decode is a function of the text alone.
#[verifier::external_body]
fn pkey_from_pem(pem: &str) -> (r: Result<PKey<Private>, ErrorStack>)
    requires
        pem@.len() <= MAX_TEXT_CHARS,
        !spec_key_pem_encrypted(pem@),
    ensures
        (r is Ok) == key_pem_parses(pem@),
{
    openssl::pkey::PKey::private_key_from_pem(pem.as_bytes())
}

/// The text holds at most one private key block.  Every PEM private key
/// block shows the marker exactly twice, on its `BEGIN` line and on its
/// `END` line, and the marker cannot occur inside a base64 body.
pub open spec fn spec_single_key_block(pem: Seq<char>) -> bool {
    spec_count_matches(pem, "PRIVATE KEY-----"@) <= 2
}

/// Loads exactly one PEM-encoded private key into an opaque handle.
/// Passphrase-protected material is rejected before any engine call, as is
/// ambiguous text holding more than one key block; on the remaining text
/// the call succeeds exactly when the engine decodes a key, and fails with
/// a parse error otherwise.
pub fn pem_read(pem: &str) -> (r: Result<PKeyResource, CryptoError>)
    requires
        pem@.len() <= MAX_TEXT_CHARS,
    ensures
        spec_key_pem_encrypted(pem@) ==> (r matches Err(e)
            && e matches CryptoError::EncryptedPem),
        !spec_key_pem_encrypted(pem@) && !spec_single_key_block(pem@) ==> (r matches Err(e)
            && e matches CryptoError::AmbiguousKey),
        !spec_key_pem_encrypted(pem@) && spec_single_key_block(pem@) ==> ((r is Ok)
            == key_pem_parses(pem@)),
        !spec_key_pem_encrypted(pem@) && spec_single_key_block(pem@) ==> (r matches Err(e)
            ==> e matches CryptoError::ParseError(recs)),
{
    proof {
        reveal_strlit("Proc-Type:");
        reveal_strlit("ENCRYPTED PRIVATE KEY");
        reveal_strlit("PRIVATE KEY-----");
    }
    let legacy = count_matches(pem, "Proc-Type:");
    let pkcs8 = count_matches(pem, "ENCRYPTED PRIVATE KEY");
    if legacy > 0 || pkcs8 > 0 {
        return Err(CryptoError::EncryptedPem);
    }
    let markers = count_matches(pem, "PRIVATE KEY-----");
    if markers > 2 {
        return Err(CryptoError::AmbiguousKey);
    }
    match pkey_from_pem(pem) {
        Ok(key) => Ok(PKeyResource { key }),
        Err(stack) => Err(CryptoError::ParseError(to_term(&stack))),
    }
}

} // verus!
