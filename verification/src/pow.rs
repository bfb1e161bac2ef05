//! The proof-of-work search: the header's nonce is incremented until the
//! leading `difficulty` characters of the header's fingerprint parse as the
//! decimal numeral of zero. The search walks the nonce space upward from the
//! header's current nonce; if even the largest nonce is refused it reports
//! failure instead of overflowing, the one recoverable error this ledger has.

use vstd::prelude::*;
use vstd::string::StrSliceExecFns;

use crate::chain::Chain;
use crate::fingerprint::{header_fp, lemma_hex_of_props, sha256_of};
use crate::text::{parse_u32, parse_u32_chars};
use crate::types::BlockHeader;
use crate::types::HeaderModel;

verus! {

/// Proof-of-work acceptance: the first `difficulty` characters of the header's
/// fingerprint parse as an unsigned decimal numeral whose value is zero.
pub open spec fn pow_accepted(h: HeaderModel) -> bool {
    &&& h.difficulty <= header_fp(h).len()
    &&& parse_u32_chars(header_fp(h).take(h.difficulty as int)) == Some(0u32)
}

/// No nonce from `n0` upward seals this header shape: every one of them is
/// refused by the difficulty predicate.
pub open spec fn no_nonce_from(h: HeaderModel, n0: nat) -> bool {
    forall|n: u32| n0 <= n as nat ==> !pow_accepted(#[trigger] with_nonce(h, n as nat))
}

/// The same header with another nonce.
pub open spec fn with_nonce(h: HeaderModel, n: nat) -> HeaderModel {
    HeaderModel {
        timestamp: h.timestamp,
        nonce: n,
        pre_hash: h.pre_hash,
        merkle: h.merkle,
        difficulty: h.difficulty,
    }
}

impl Chain {
    /// Mines the header in place: tries each nonce from the current one
    /// upward and stops at the first whose fingerprint the difficulty
    /// predicate accepts. Every other header field is left as it was. Returns
    /// whether a nonce was found before the nonce space ran out.
    pub fn proof_of_work(header: &mut BlockHeader) -> (r: bool)
        requires
            old(header).difficulty <= 32,
        ensures
            final(header).timestamp == old(header).timestamp,
            final(header).pre_hash == old(header).pre_hash,
            final(header).merkle == old(header).merkle,
            final(header).difficulty == old(header).difficulty,
            final(header).nonce >= old(header).nonce,
            forall|n: u32|
                old(header).nonce <= n < final(header).nonce ==> !pow_accepted(
                    with_nonce(old(header)@, n as nat),
                ),
            r ==> pow_accepted(final(header)@),
            !r ==> no_nonce_from(old(header)@, old(header).nonce as nat),
    {
        let ghost orig = *header;
        loop
            invariant
                header.difficulty <= 32,
                header.timestamp == orig.timestamp,
                header.pre_hash == orig.pre_hash,
                header.merkle == orig.merkle,
                header.difficulty == orig.difficulty,
                header.nonce >= orig.nonce,
                orig == *old(header),
                forall|n: u32|
                    orig.nonce <= n < header.nonce ==> !pow_accepted(
                        with_nonce(orig@, n as nat),
                    ),
            decreases u32::MAX - header.nonce,
        {
            let text = header.canonical_text();
            let hash = Chain::hash(text.as_str());
            proof {
                lemma_hex_of_props(sha256_of(text@));
                assert(hash@.len() >= 32);
            }
            let d = header.difficulty as usize;
            let slice = hash.as_str().substring_ascii(0, d);
            let accepted = match parse_u32(slice) {
                Some(v) => v == 0,
                None => false,
            };
            proof {
                assert(hash@ == header_fp(header@));
                assert(slice@ == header_fp(header@).take(header@.difficulty as int));
                assert(header@ == with_nonce(orig@, header.nonce as nat));
                assert(accepted == pow_accepted(header@));
            }
            if accepted {
                return true;
            }
            if header.nonce == u32::MAX {
                return false;
            }
            header.nonce = header.nonce + 1;
        }
    }
}

} // verus!
