//! Certificate loading and assembly.
//!
//! Certificates are loaded from PEM text into owning handles, and assembled
//! into two relationship shapes: an ordered stack (certificates accompanying
//! a message, in input order) and a trust store (an unordered set of
//! verification anchors).
use vstd::prelude::*;

use crate::count_matches;
use crate::errors::to_term;
use crate::errors::CryptoError;
use crate::lemma_count_pos_has_match;
use crate::spec_count_matches;
use openssl::error::ErrorStack;
use openssl::stack::Stack;
use openssl::x509::store::X509Store;
use openssl::x509::store::X509StoreBuilder;
use openssl::x509::X509;
use crate::MAX_TEXT_CHARS;

verus! {

#[verifier::external_type_specification]
#[verifier::external_body]
pub struct ExX509(openssl::x509::X509);

#[verifier::external_type_specification]
#[verifier::external_body]
pub struct ExX509StoreBuilder(openssl::x509::store::X509StoreBuilder);

#[verifier::external_type_specification]
#[verifier::external_body]
pub struct ExX509Store(openssl::x509::store::X509Store);

/// An ordered stack of certificates, as the engine consumes it.
#[verifier::external_body]
pub struct CertStack {
    pub(crate) stack: Stack<X509>,
}

/// The certificates a stack holds, in stack order.
pub uninterp spec fn cert_stack_model(stack: CertStack) -> Seq<X509>;

/// The certificates a store builder has accumulated so far.
pub uninterp spec fn store_builder_model(builder: X509StoreBuilder) -> Set<X509>;

/// The trust anchors a finished store holds.
pub uninterp spec fn store_model(store: X509Store) -> Set<X509>;

/// Relies on openssl's `Stack::new`: creates an empty stack.
#[verifier::external_body]
fn stack_new() -> (r: Result<CertStack, ErrorStack>)
    ensures
        r matches Ok(s) ==> cert_stack_model(s) == Seq::<X509>::empty(),
{
    openssl::stack::Stack::new().map(|stack| CertStack { stack })
}

/// Relies on openssl's `StackRef::push`: appends one certificate at the end
/// of the stack, leaving it unchanged on failure.
#[verifier::external_body]
fn stack_push(stack: &mut CertStack, cert: X509) -> (r: Result<(), ErrorStack>)
    ensures
        r matches Ok(u) ==> cert_stack_model(*final(stack)) == cert_stack_model(*old(stack)).push(
            cert,
        ),
        r matches Err(e) ==> cert_stack_model(*final(stack)) == cert_stack_model(*old(stack)),
{
    stack.stack.push(cert)
}

/// Relies on openssl's `Clone` for `X509`: cloning bumps the reference count
/// and returns a handle to the same certificate.
#[verifier::external_body]
fn x509_clone(cert: &X509) -> (r: X509)
    ensures
        r == *cert,
{
    cert.clone()
}

/// The text shows a legacy PEM encryption header.  For a block carrying it
/// the engine would consult its passphrase callback, making the outcome
/// depend on the environment, so this crate rejects such text before any
/// engine call.  The marker cannot occur inside a base64 body (`-` and `:`
/// are outside the base64 alphabet).
pub open spec fn spec_pem_has_encryption_header(pem: Seq<char>) -> bool {
    spec_count_matches(pem, "Proc-Type:"@) > 0
}

/// Whether the PEM text parses as a (possibly empty) list of well-formed
/// certificate blocks: empty input parses, and a malformed block among
/// valid ones makes the whole text fail.
pub uninterp spec fn x509_pem_parses(pem: Seq<char>) -> bool;

/// How many certificate blocks the PEM text holds when it parses.
pub uninterp spec fn x509_pem_count(pem: Seq<char>) -> nat;

/// Relies on openssl's `X509::stack_from_pem`: parses the PEM certificate
/// blocks of the input in file order; empty input parses to an empty list,
/// and a malformed block fails the whole call.  On text free of encryption
/// headers — all this crate hands it — no passphrase callback is consulted
/// and the parse is a function of the text alone, though the handles it
/// allocates are fresh.
#[verifier::external_body]
fn x509_stack_from_pem(pem: &str) -> (r: Result<Vec<X509>, ErrorStack>)
    requires
        pem@.len() <= MAX_TEXT_CHARS,
        !spec_pem_has_encryption_header(pem@),
    ensures
        (r is Ok) == x509_pem_parses(pem@),
        r matches Ok(v) ==> v@.len() == x509_pem_count(pem@),
        r matches Ok(v) ==> (pem@.len() == 0 ==> v@.len() == 0),
        r matches Err(e) ==> pem@.len() > 0,
{
    openssl::x509::X509::stack_from_pem(pem.as_bytes())
}

/// Relies on openssl's `X509StoreBuilder::new`: returns a builder for an
/// initially empty certificate store.
#[verifier::external_body]
fn store_builder_new() -> (r: Result<X509StoreBuilder, ErrorStack>)
    ensures
        r matches Ok(b) ==> store_builder_model(b) == Set::<X509>::empty(),
{
    openssl::x509::store::X509StoreBuilder::new()
}

/// Relies on openssl's `X509StoreBuilderRef::add_cert`: adds one certificate
/// to the store under construction; membership only, duplicates collapse.
#[verifier::external_body]
fn store_builder_add_cert(builder: &mut X509StoreBuilder, cert: X509) -> (r: Result<(), ErrorStack>)
    ensures
        r matches Ok(u) ==> store_builder_model(*final(builder)) == store_builder_model(
            *old(builder),
        ).insert(cert),
{
    builder.add_cert(cert)
}

/// Relies on openssl's `X509StoreBuilder::build`: finishes the store with
/// exactly the accumulated certificates.
#[verifier::external_body]
fn store_builder_build(builder: X509StoreBuilder) -> (r: X509Store)
    ensures
        store_model(r) == store_builder_model(builder),
{
    builder.build()
}

/// An immutable owning handle for one parsed X.509 certificate.
pub struct X509Resource {
    pub cert: X509,
}

/// Wraps a certificate handle in a fresh independently-owned resource.
fn cert_to_resource(cert: &X509) -> (r: X509Resource)
    ensures
        r.cert == *cert,
{
    X509Resource { cert: x509_clone(cert) }
}

/// Loads zero or more PEM-encoded certificates, in file order.
/// Passphrase-protected text is rejected before any engine call; on all
/// other text the call succeeds exactly when the whole text parses, with
/// one handle per block: empty input yields an empty sequence, not an
/// error, and a malformed block among valid ones fails the whole call with
/// a parse error, never a partial list.
pub fn pem_read(pem: &str) -> (r: Result<Vec<X509Resource>, CryptoError>)
    requires
        pem@.len() <= MAX_TEXT_CHARS,
    ensures
        spec_pem_has_encryption_header(pem@) ==> (r matches Err(e)
            && e matches CryptoError::EncryptedPem),
        !spec_pem_has_encryption_header(pem@) ==> ((r is Ok) == x509_pem_parses(pem@)),
        r matches Ok(v) ==> v@.len() == x509_pem_count(pem@),
        pem@.len() == 0 ==> (r matches Ok(v) && v@.len() == 0),
        !spec_pem_has_encryption_header(pem@) ==> (r matches Err(e)
            ==> e matches CryptoError::ParseError(recs)),
{
    proof {
        reveal_strlit("Proc-Type:");
    }
    let markers = count_matches(pem, "Proc-Type:");
    if markers > 0 {
        proof {
            lemma_count_pos_has_match(pem@, "Proc-Type:"@, pem@.len() - 10 + 1);
        }
        return Err(CryptoError::EncryptedPem);
    }
    match x509_stack_from_pem(pem) {
        Ok(certs) => {
            let mut out: Vec<X509Resource> = Vec::new();
            let mut i: usize = 0;
            while i < certs.len()
                invariant
                    i <= certs.len(),
                    out@.len() == i,
                    forall|j: int| 0 <= j < i ==> (#[trigger] out@[j]).cert == certs@[j],
                decreases certs.len() - i,
            {
                let rec = cert_to_resource(&certs[i]);
                out.push(rec);
                i += 1;
            }
            Ok(out)
        },
        Err(stack) => Err(CryptoError::ParseError(to_term(&stack))),
    }
}

/// The certificate handles a list of resources carries, in list order.
pub open spec fn cert_seq(certs: Seq<X509Resource>) -> Seq<X509> {
    certs.map_values(|c: X509Resource| c.cert)
}

/// The set of certificate handles a list of resources carries.
pub open spec fn cert_set(certs: Seq<X509Resource>) -> Set<X509>
    decreases certs.len(),
{
    if certs.len() == 0 {
        Set::empty()
    } else {
        cert_set(certs.drop_last()).insert(certs.last().cert)
    }
}

/// Assembles an ordered certificate stack from the given list: the stack
/// holds exactly the listed certificates, in input order.
pub fn decode_stack(certs: &Vec<X509Resource>) -> (r: Result<CertStack, CryptoError>)
    ensures
        r matches Ok(s) ==> cert_stack_model(s) == cert_seq(certs@),
        r matches Err(e) ==> e matches CryptoError::EngineError(recs),
{
    let mut stack = match stack_new() {
        Ok(s) => s,
        Err(es) => {
            return Err(CryptoError::EngineError(to_term(&es)));
        },
    };
    let mut i: usize = 0;
    while i < certs.len()
        invariant
            i <= certs.len(),
            cert_stack_model(stack) == cert_seq(certs@.take(i as int)),
        decreases certs.len() - i,
    {
        let cert = x509_clone(&certs[i].cert);
        match stack_push(&mut stack, cert) {
            Ok(u) => {},
            Err(es) => {
                return Err(CryptoError::EngineError(to_term(&es)));
            },
        }
        proof {
            assert(cert_seq(certs@.take(i + 1)) =~= cert_seq(certs@.take(i as int)).push(
                certs@[i as int].cert,
            ));
        }
        i += 1;
    }
    proof {
        assert(certs@.take(certs@.len() as int) =~= certs@);
    }
    Ok(stack)
}

/// Assembles a trust store from the given list: the store holds exactly the
/// listed certificates as members, order-free and de-duplicated.
pub fn decode_store(certs: &Vec<X509Resource>) -> (r: Result<X509Store, CryptoError>)
    ensures
        r matches Ok(s) ==> store_model(s) == cert_set(certs@),
        r matches Err(e) ==> e matches CryptoError::EngineError(recs),
{
    let mut builder = match store_builder_new() {
        Ok(b) => b,
        Err(es) => {
            return Err(CryptoError::EngineError(to_term(&es)));
        },
    };
    let mut i: usize = 0;
    while i < certs.len()
        invariant
            i <= certs.len(),
            store_builder_model(builder) == cert_set(certs@.take(i as int)),
        decreases certs.len() - i,
    {
        let cert = x509_clone(&certs[i].cert);
        match store_builder_add_cert(&mut builder, cert) {
            Ok(u) => {},
            Err(es) => {
                return Err(CryptoError::EngineError(to_term(&es)));
            },
        }
        proof {
            assert(certs@.take(i + 1).drop_last() =~= certs@.take(i as int));
        }
        i += 1;
    }
    proof {
        assert(certs@.take(certs@.len() as int) =~= certs@);
    }
    Ok(store_builder_build(builder))
}

} // verus!
