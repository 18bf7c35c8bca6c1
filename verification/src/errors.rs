//! Caller-visible failure values.
//!
//! Every fallible operation of this crate returns a tagged failure, never a
//! bare string: either an invalid option name was supplied, or the engine
//! reported an ordered stack of error records (oldest cause first).
use vstd::prelude::*;

verus! {

/// One entry of an engine error stack: a numeric code, the engine source
/// file and line that raised it, and, where the engine supplied them, the
/// library, function, reason and auxiliary data strings.  Absent fields are
/// `None`, never a placeholder string.
#[derive(Debug)]
pub struct ErrorRecord {
    pub code: u64,
    pub file: String,
    pub line: u32,
    pub library: Option<String>,
    pub function: Option<String>,
    pub reason: Option<String>,
    pub data: Option<String>,
}

/// The mathematical content of an [`ErrorRecord`]: the same fields with
/// every string replaced by its character sequence.
#[verifier::ext_equal]
pub ghost struct ErrorRecordView {
    pub code: u64,
    pub file: Seq<char>,
    pub line: u32,
    pub library: Option<Seq<char>>,
    pub function: Option<Seq<char>>,
    pub reason: Option<Seq<char>>,
    pub data: Option<Seq<char>>,
}

impl View for ErrorRecord {
    type V = ErrorRecordView;

    open spec fn view(&self) -> ErrorRecordView {
        ErrorRecordView {
            code: self.code,
            file: self.file@,
            line: self.line,
            library: self.library.deep_view(),
            function: self.function.deep_view(),
            reason: self.reason.deep_view(),
            data: self.data.deep_view(),
        }
    }
}

/// A failure of one of this crate's operations.
#[derive(Debug)]
pub enum CryptoError {
    /// An option or cipher name outside the fixed vocabulary (carrying the
    /// offending token), or an empty option set handed to an operation that
    /// requires at least one option (carrying `None`).  Detected before any
    /// engine call.
    InvalidOption(Option<String>),
    /// Malformed PEM or S/MIME input, surfaced as the engine's error stack.
    ParseError(Vec<ErrorRecord>),
    /// Any failure the engine raised during encrypt, decrypt, sign or
    /// verify, carrying the full causal error stack.
    EngineError(Vec<ErrorRecord>),
    /// More than one private key block where exactly one is expected.
    /// Detected before any engine call, so no engine records accompany it.
    AmbiguousKey,
    /// Passphrase-protected PEM material.  This core takes no passphrases,
    /// so it rejects such input before any engine call; the engine would
    /// otherwise consult its default passphrase callback, whose outcome
    /// depends on the environment.
    EncryptedPem,
}

#[verifier::external_type_specification]
#[verifier::external_body]
pub struct ExErrorStack(openssl::error::ErrorStack);

#[verifier::external_type_specification]
#[verifier::external_body]
pub struct ExError(openssl::error::Error);

/// The records held by an engine error stack, oldest cause first.
pub uninterp spec fn error_stack_model(stack: openssl::error::ErrorStack) -> Seq<ErrorRecordView>;

/// The record carried by one engine error.
pub uninterp spec fn error_model(error: openssl::error::Error) -> ErrorRecordView;

/// Relies on openssl's `ErrorStack::errors`: returns the recorded errors in
/// stack order, oldest cause first.
#[verifier::external_body]
fn stack_errors(stack: &openssl::error::ErrorStack) -> (r: Vec<openssl::error::Error>)
    ensures
        r@.len() == error_stack_model(*stack).len(),
        forall|i: int|
            0 <= i < r@.len() ==> error_model(#[trigger] r@[i]) == error_stack_model(*stack)[i],
{
    stack.errors().to_vec()
}

/// Relies on openssl's `Error::code`: the raw numeric error code.
#[verifier::external_body]
fn error_code(error: &openssl::error::Error) -> (r: u64)
    ensures
        r == error_model(*error).code,
{
    error.code()
}

/// Relies on openssl's `Error::file`: the engine source file that raised the
/// error.
#[verifier::external_body]
fn error_file(error: &openssl::error::Error) -> (r: String)
    ensures
        r@ == error_model(*error).file,
{
    error.file().to_string()
}

/// Relies on openssl's `Error::line`: the engine source line that raised the
/// error.
#[verifier::external_body]
fn error_line(error: &openssl::error::Error) -> (r: u32)
    ensures
        r == error_model(*error).line,
{
    error.line()
}

/// Relies on openssl's `Error::library`: the reporting library's name, if
/// the engine supplied one.
#[verifier::external_body]
fn error_library(error: &openssl::error::Error) -> (r: Option<String>)
    ensures
        r.deep_view() == error_model(*error).library,
{
    error.library().map(|s| s.to_string())
}

/// Relies on openssl's `Error::function`: the reporting function's name, if
/// the engine supplied one.
#[verifier::external_body]
fn error_function(error: &openssl::error::Error) -> (r: Option<String>)
    ensures
        r.deep_view() == error_model(*error).function,
{
    error.function().map(|s| s.to_string())
}

/// Relies on openssl's `Error::reason`: the short reason string, if the
/// engine supplied one.
#[verifier::external_body]
fn error_reason(error: &openssl::error::Error) -> (r: Option<String>)
    ensures
        r.deep_view() == error_model(*error).reason,
{
    error.reason().map(|s| s.to_string())
}

/// Relies on openssl's `Error::data`: auxiliary data describing the error,
/// if the engine supplied any.
#[verifier::external_body]
fn error_data(error: &openssl::error::Error) -> (r: Option<String>)
    ensures
        r.deep_view() == error_model(*error).data,
{
    error.data().map(|s| s.to_string())
}

/// Builds the caller-visible record for one engine error.
fn error_to_struct(error: &openssl::error::Error) -> (r: ErrorRecord)
    ensures
        r@ == error_model(*error),
{
    let r = ErrorRecord {
        code: error_code(error),
        file: error_file(error),
        line: error_line(error),
        library: error_library(error),
        function: error_function(error),
        reason: error_reason(error),
        data: error_data(error),
    };
    proof {
        assert(r@ =~= error_model(*error));
    }
    r
}

/// Translates an engine error stack into the caller-visible list of records,
/// preserving stack order (oldest cause first).  Pure and total: it never
/// fails, and every entry of the stack yields exactly one record.
pub fn to_term(stack: &openssl::error::ErrorStack) -> (r: Vec<ErrorRecord>)
    ensures
        r@.len() == error_stack_model(*stack).len(),
        forall|i: int|
            0 <= i < r@.len() ==> (#[trigger] r@[i])@ == error_stack_model(*stack)[i],
{
    let errors = stack_errors(stack);
    let mut out: Vec<ErrorRecord> = Vec::new();
    let mut i: usize = 0;
    while i < errors.len()
        invariant
            i <= errors.len(),
            errors@.len() == error_stack_model(*stack).len(),
            forall|j: int|
                0 <= j < errors@.len() ==> error_model(#[trigger] errors@[j]) == error_stack_model(
                    *stack,
                )[j],
            out@.len() == i,
            forall|j: int|
                0 <= j < i ==> (#[trigger] out@[j])@ == error_stack_model(*stack)[j],
        decreases errors.len() - i,
    {
        let rec = error_to_struct(&errors[i]);
        out.push(rec);
        i += 1;
    }
    out
}

impl CryptoError {
    /// The error rejects the option token `tok`.
    pub open spec fn is_invalid_option_named(self, tok: Seq<char>) -> bool {
        self matches CryptoError::InvalidOption(Some(s)) && s@ == tok
    }

    /// The error rejects an empty option set.
    pub open spec fn is_missing_options(self) -> bool {
        self matches CryptoError::InvalidOption(None)
    }

    /// The error is an option rejection of either kind.
    pub open spec fn is_invalid_option(self) -> bool {
        self matches CryptoError::InvalidOption(_)
    }
}

} // verus!
