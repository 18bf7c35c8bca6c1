//! Maps named symmetric-cipher identifiers to the engine's algorithms.
use vstd::prelude::*;

use crate::errors::CryptoError;
use crate::str_eq;

verus! {

#[verifier::external_type_specification]
#[verifier::external_body]
pub struct ExCipher(openssl::symm::Cipher);

/// A named symmetric cipher this crate supports for envelope encryption.
/// The vocabulary is designed to grow without changing the calling contract.
#[derive(Clone, Copy, Debug, PartialEq, Eq, Structural)]
pub enum CipherKind {
    /// Triple-DES in CBC mode, named `des_ede3_cbc`.
    DesEde3Cbc,
}

/// The fixed name-to-cipher vocabulary of the cipher selector.
pub open spec fn spec_cipher(name: Seq<char>) -> Option<CipherKind> {
    if name == "des_ede3_cbc"@ {
        Some(CipherKind::DesEde3Cbc)
    } else {
        None
    }
}

/// Maps a cipher identifier to the cipher it names, exactly as
/// [`spec_cipher`] says: an unknown identifier is rejected with
/// `InvalidOption` carrying that identifier.
pub fn decode_cypher(cipher: &str) -> (r: Result<CipherKind, CryptoError>)
    ensures
        spec_cipher(cipher@) matches Some(c) ==> (r matches Ok(k) && k == c),
        spec_cipher(cipher@) is None ==> (r matches Err(e) && e.is_invalid_option_named(cipher@)),
{
    if str_eq(cipher, "des_ede3_cbc") {
        Ok(CipherKind::DesEde3Cbc)
    } else {
        Err(CryptoError::InvalidOption(Some(String::from_str(cipher))))
    }
}

/// Relies on openssl's `Cipher::des_ede3_cbc`: returns the engine algorithm
/// each cipher name stands for.
#[verifier::external_body]
pub(crate) fn cipher_algorithm(kind: &CipherKind) -> openssl::symm::Cipher {
    match kind {
        CipherKind::DesEde3Cbc => openssl::symm::Cipher::des_ede3_cbc(),
    }
}

} // verus!
