//! The S/MIME codec: moving PKCS#7 structures in and out of transport text.
use vstd::prelude::*;

use crate::errors::to_term;
use crate::errors::CryptoError;
use crate::pkcs7::pkcs7_to_resource;
use crate::pkcs7::spec_decode_flags;
use crate::pkcs7::decode_flags;
use crate::pkcs7::PKCS7Resource;
use openssl::error::ErrorStack;
use openssl::pkcs7::Pkcs7;
use crate::MAX_BUFFER_BYTES;
use crate::MAX_TEXT_CHARS;

verus! {

/// Whether the text parses as S/MIME: well-formed MIME boundaries holding a
/// decodable PKCS#7 structure.
pub uninterp spec fn smime_parses(text: Seq<char>) -> bool;

/// The cleartext content the S/MIME text carries beside the structure, where
/// it carries one.
pub uninterp spec fn smime_cleartext(text: Seq<char>) -> Option<Seq<u8>>;

/// Relies on openssl's `Pkcs7::from_smime`: parses S/MIME text into the
/// embedded structure and the cleartext content where one is present,
/// failing on malformed MIME boundaries or undecodable structure bytes.
/// The parse is a function of the text alone, though the structure handle
/// it allocates is fresh.
#[verifier::external_body]
fn pkcs7_from_smime(input: &str) -> (r: Result<(Pkcs7, Option<Vec<u8>>), ErrorStack>)
    requires
        input@.len() <= MAX_TEXT_CHARS,
    ensures
        (r is Ok) == smime_parses(input@),
        r matches Ok(p) ==> p.1.deep_view() == smime_cleartext(input@),
{
    Pkcs7::from_smime(input.as_bytes())
}

/// Relies on openssl's `Pkcs7Ref::to_smime`: serializes the structure
/// together with the content into MIME-formatted bytes.
#[verifier::external_body]
fn pkcs7_to_smime(pkcs7: &Pkcs7, input: &[u8], bits: u32) -> (r: Result<Vec<u8>, ErrorStack>)
    requires
        input@.len() <= MAX_BUFFER_BYTES,
{
    let flags = openssl::pkcs7::Pkcs7Flags::from_bits_retain(bits as i32);
    pkcs7.to_smime(input, flags)
}

/// The payload bytes reading an S/MIME text yields: its cleartext content,
/// or no bytes where the content is embedded in the structure itself.
pub open spec fn smime_content_bytes(text: Seq<char>) -> Seq<u8> {
    match smime_cleartext(text) {
        Some(b) => b,
        None => Seq::empty(),
    }
}

/// Parses an S/MIME-formatted text blob into the embedded PKCS#7 structure
/// and the payload bytes (empty where the content is embedded in the
/// structure itself).  The call succeeds exactly when the text parses as
/// S/MIME; malformed input fails with a parse error.
pub fn read(data: &str) -> (r: Result<(PKCS7Resource, Vec<u8>), CryptoError>)
    requires
        data@.len() <= MAX_TEXT_CHARS,
    ensures
        (r is Ok) == smime_parses(data@),
        r matches Ok(p) ==> p.1@ == smime_content_bytes(data@),
        r matches Err(e) ==> e matches CryptoError::ParseError(recs),
{
    match pkcs7_from_smime(data) {
        Ok((pkcs7, content)) => {
            let bytes = match content {
                Some(b) => b,
                None => Vec::new(),
            };
            Ok((pkcs7_to_resource(pkcs7), bytes))
        },
        Err(es) => Err(CryptoError::ParseError(to_term(&es))),
    }
}

/// Serializes a PKCS#7 structure together with its content into
/// MIME-formatted bytes.  The option set must be non-empty and inside the
/// vocabulary; those rejections happen before any engine call, and every
/// other failure carries the engine's error stack.
pub fn write(pkcs7: &PKCS7Resource, data: &[u8], flags: &Vec<String>) -> (r: Result<Vec<u8>, CryptoError>)
    requires
        data@.len() <= MAX_BUFFER_BYTES,
    ensures
        flags.deep_view().len() == 0 ==> (r matches Err(e) && e.is_missing_options()),
        spec_decode_flags(flags.deep_view()) matches Err(tok) ==> (r matches Err(e)
            && e.is_invalid_option_named(tok) && flags.deep_view().len() > 0),
        flags.deep_view().len() > 0 && spec_decode_flags(flags.deep_view()) is Ok ==> (r matches
            Err(e) ==> !e.is_invalid_option()),
        r matches Err(e) ==> e.is_invalid_option() || e matches CryptoError::EngineError(recs),
{
    if flags.len() == 0 {
        return Err(CryptoError::InvalidOption(None));
    }
    let decoded = match decode_flags(flags) {
        Ok(f) => f,
        Err(e) => {
            return Err(e);
        },
    };
    match pkcs7_to_smime(&pkcs7.pkcs7, data, decoded.bits) {
        Ok(out) => Ok(out),
        Err(es) => Err(CryptoError::EngineError(to_term(&es))),
    }
}

} // verus!
