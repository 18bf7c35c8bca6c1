//! PKCS#7 secure messaging: encryption, decryption, signing and signature
//! verification of byte payloads against X.509 certificates and private keys,
//! plus conversion to and from the S/MIME textual wire format.
//!
//! The cryptographic engine itself is OpenSSL; this crate verifies the logic
//! around it: option decoding, certificate stack and trust store assembly,
//! precondition checks, and translation of engine error stacks into
//! structured records.
use vstd::prelude::*;

pub mod errors;
pub mod pkcs7;
pub mod pkey;
pub mod symm;
pub mod x509;

verus! {

/// The engine's memory BIOs index buffers with a 32-bit signed length: a
/// byte buffer handed to the engine must not exceed this many bytes.
pub const MAX_BUFFER_BYTES: usize = 0x7fff_ffff;

/// A character encodes to at most four bytes, so text of at most this many
/// characters always fits the engine's buffer-length limit.
pub const MAX_TEXT_CHARS: usize = 0x1fff_ffff;

/// Exact string comparison, specified over the string views.
pub fn str_eq(a: &str, b: &str) -> (r: bool)
    ensures
        r == (a@ == b@),
{
    let sa = String::from_str(a);
    let sb = String::from_str(b);
    sa == sb
}

/// The pattern occurs at position `i` of `s`.
pub open spec fn spec_match_at(s: Seq<char>, pat: Seq<char>, i: int) -> bool {
    0 <= i && i + pat.len() <= s.len() && s.subrange(i, i + pat.len()) == pat
}

/// At how many positions below `n` the pattern occurs in `s`.
pub open spec fn spec_count_matches_below(s: Seq<char>, pat: Seq<char>, n: int) -> nat
    decreases n,
{
    if n <= 0 {
        0
    } else {
        spec_count_matches_below(s, pat, n - 1) + (if spec_match_at(s, pat, n - 1) {
            1nat
        } else {
            0nat
        })
    }
}

/// At how many positions the pattern occurs in `s`.
pub open spec fn spec_count_matches(s: Seq<char>, pat: Seq<char>) -> nat {
    spec_count_matches_below(s, pat, s.len() - pat.len() + 1)
}

/// Whether the pattern occurs at position `i` of `s`.
fn str_match_at(s: &str, slen: usize, pat: &str, plen: usize, i: usize) -> (b: bool)
    requires
        slen == s@.len(),
        plen == pat@.len(),
        i + plen <= slen,
    ensures
        b == spec_match_at(s@, pat@, i as int),
{
    let mut j: usize = 0;
    while j < plen
        invariant
            slen == s@.len(),
            plen == pat@.len(),
            i + plen <= slen,
            j <= plen,
            forall|k: int| 0 <= k < j ==> s@[i + k] == pat@[k],
        decreases plen - j,
    {
        if s.get_char(i + j) != pat.get_char(j) {
            proof {
                assert(s@.subrange(i as int, i + pat@.len()) != pat@) by {
                    assert(s@.subrange(i as int, i + pat@.len())[j as int] == s@[i + j]);
                }
            }
            return false;
        }
        j += 1;
    }
    proof {
        assert(s@.subrange(i as int, i + pat@.len()) =~= pat@);
    }
    true
}

/// A positive count means the pattern occurs somewhere, so the text is at
/// least as long as the pattern.
pub proof fn lemma_count_pos_has_match(s: Seq<char>, pat: Seq<char>, n: int)
    requires
        spec_count_matches_below(s, pat, n) > 0,
    ensures
        exists|i: int| 0 <= i < n && spec_match_at(s, pat, i),
        s.len() >= pat.len(),
    decreases n,
{
    if spec_match_at(s, pat, n - 1) {
    } else {
        lemma_count_pos_has_match(s, pat, n - 1);
    }
}

/// Counts at how many positions of `s` the pattern occurs, exactly as
/// [`spec_count_matches`] says.
pub fn count_matches(s: &str, pat: &str) -> (n: usize)
    requires
        pat@.len() >= 1,
    ensures
        n == spec_count_matches(s@, pat@),
{
    let slen = s.unicode_len();
    let plen = pat.unicode_len();
    if plen > slen {
        proof {
            assert(s@.len() - pat@.len() + 1 <= 0);
        }
        return 0;
    }
    let last = slen - plen;
    let mut n: usize = 0;
    let mut i: usize = 0;
    while i <= last
        invariant
            slen == s@.len(),
            plen == pat@.len(),
            1 <= plen <= slen,
            last == slen - plen,
            i <= last + 1,
            n <= i,
            n == spec_count_matches_below(s@, pat@, i as int),
        decreases last + 1 - i,
    {
        if str_match_at(s, slen, pat, plen, i) {
            n += 1;
        }
        i += 1;
    }
    n
}

} // verus!
