//! Fingerprints: the SHA-256 digest of a value's canonical text, rendered in
//! hexadecimal. The digest itself is computed by the `sha2` crate behind one
//! trusted wrapper; the rendering and everything downstream is verified.
//!
//! The rendering is deliberately variable-width: a byte below 16 contributes a
//! single hex digit instead of two, so a fingerprint is between 32 and 64
//! characters long. Fingerprints recorded in existing blocks depend on this
//! quirk, so it is part of the ledger's definition rather than a bug to fix;
//! every contract here states it exactly.

use vstd::prelude::*;
use vstd::string::StringExecFns;
use vstd::utf8::is_ascii_chars;

use crate::chain::Chain;
use crate::text::hex_digit;
use crate::text::hex_digit_str;
use crate::types::{header_text, transaction_text, HeaderModel, TransactionModel};

verus! {

/// The 32-byte SHA-256 digest of a text. The digest is a pure function of its
/// input; nothing else is assumed about it.
pub uninterp spec fn sha256_of(s: Seq<char>) -> Seq<u8>;

/// Relies on `sha2::Sha256` through `digest::Digest::digest`: the SHA-256
/// digest of the text's UTF-8 bytes, a pure function of the input, 32 bytes.
#[verifier::external_body]
fn sha256_digest(input: &str) -> (r: Vec<u8>)
    ensures
        r@ == sha256_of(input@),
        r@.len() == 32,
{
    <sha2::Sha256 as sha2::Digest>::digest(input.as_bytes()).to_vec()
}

/// The hex rendering of one byte: one digit below 16, two otherwise.
pub open spec fn hex_chars(b: u8) -> Seq<char> {
    if b < 16 {
        seq![hex_digit(b as nat)]
    } else {
        seq![hex_digit((b / 16) as nat), hex_digit((b % 16) as nat)]
    }
}

/// The hex rendering of a byte sequence, byte by byte.
pub open spec fn hex_of(bytes: Seq<u8>) -> Seq<char>
    decreases bytes.len(),
{
    if bytes.len() == 0 {
        Seq::empty()
    } else {
        hex_of(bytes.drop_last()) + hex_chars(bytes.last())
    }
}

/// The fingerprint of a text: the hex rendering of its SHA-256 digest.
pub open spec fn fingerprint_of(s: Seq<char>) -> Seq<char> {
    hex_of(sha256_of(s))
}

/// The fingerprint of a transaction, over its canonical text.
pub open spec fn transaction_fp(t: TransactionModel) -> Seq<char> {
    fingerprint_of(transaction_text(t))
}

/// The fingerprint of a block header, over its canonical text.
pub open spec fn header_fp(h: HeaderModel) -> Seq<char> {
    fingerprint_of(header_text(h))
}

/// A hex rendering is ASCII and between one and two characters per byte.
pub proof fn lemma_hex_of_props(bytes: Seq<u8>)
    ensures
        is_ascii_chars(hex_of(bytes)),
        bytes.len() <= hex_of(bytes).len() <= 2 * bytes.len(),
    decreases bytes.len(),
{
    if bytes.len() > 0 {
        lemma_hex_of_props(bytes.drop_last());
        let a = hex_of(bytes.drop_last());
        let b = hex_chars(bytes.last());
        assert forall|i: int| 0 <= i < (a + b).len() implies '\0' <= #[trigger] (a + b)[i]
            <= '\u{7f}' by {
            if i < a.len() {
                assert((a + b)[i] == a[i]);
            } else {
                assert((a + b)[i] == b[i - a.len()]);
            }
        }
    }
}

impl Chain {
    /// Renders each byte of `vec_res` as a bare hex numeral: a single digit
    /// for bytes below 16, two digits otherwise.
    pub fn hex_to_string(vec_res: &[u8]) -> (r: String)
        ensures
            r@ == hex_of(vec_res@),
    {
        let mut s = String::new();
        let mut i: usize = 0;
        while i < vec_res.len()
            invariant
                0 <= i <= vec_res@.len(),
                s@ == hex_of(vec_res@.take(i as int)),
            decreases vec_res@.len() - i,
        {
            let b = vec_res[i];
            if b < 16 {
                s.append(hex_digit_str(b));
            } else {
                s.append(hex_digit_str(b / 16));
                s.append(hex_digit_str(b % 16));
            }
            proof {
                assert(vec_res@.take(i as int + 1).drop_last() =~= vec_res@.take(i as int));
                assert(vec_res@.take(i as int + 1).last() == vec_res@[i as int]);
                assert(s@ =~= hex_of(vec_res@.take(i as int + 1)));
            }
            i = i + 1;
        }
        proof {
            assert(vec_res@.take(vec_res@.len() as int) =~= vec_res@);
        }
        s
    }

    /// The fingerprint of a text: its SHA-256 digest (relied on from the
    /// `sha2` crate), hex-rendered with the variable-width quirk.
    pub fn hash(input: &str) -> (r: String)
        ensures
            r@ == fingerprint_of(input@),
            sha256_of(input@).len() == 32,
    {
        let digest = sha256_digest(input);
        Chain::hex_to_string(digest.as_slice())
    }
}

} // verus!
