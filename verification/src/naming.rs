//! File-name prefixes for key pairs under the two naming policies.

use vstd::prelude::*;
use vstd::slice::slice_subrange;
use vstd::string::StringExecFns;

use crate::decimal::{dec_of, u64_to_dec};
use crate::hexfmt::{encode_lower_hex, hex_of};
use crate::types::{NamingPolicy, ProvisionError};

verus! {

/// Content-derived naming hex-encodes the first three and last three bytes
/// of the canonical public-key encoding. Keys shorter than six bytes are
/// rejected, so the two slices never overlap and a prefix never names
/// ambiguous key content.
pub const CONTENT_NAME_MIN_PK_BYTES: usize = 6;

/// Prefix under sequential naming: "validator_" followed by the decimal
/// generation index.
pub open spec fn sequential_prefix_spec(index: nat) -> Seq<char> {
    "validator_"@ + dec_of(index)
}

/// Prefix under content-derived naming: "validator-", the lowercase hex of
/// the first three canonical public-key bytes, "-", and the lowercase hex
/// of the last three.
pub open spec fn content_prefix_spec(pk: Seq<u8>) -> Seq<char> {
    "validator-"@ + hex_of(pk.take(3)) + "-"@ + hex_of(pk.skip(pk.len() - 3))
}

/// The file-name prefix a key pair gets under the given policy.
pub open spec fn prefix_spec(naming: NamingPolicy, index: nat, pk: Seq<u8>) -> Seq<char> {
    match naming {
        NamingPolicy::SequentialIndex => sequential_prefix_spec(index),
        NamingPolicy::ContentDerived => content_prefix_spec(pk),
    }
}

/// Whether a key with the given canonical public-key bytes can be named
/// under the given policy: sequential naming accepts every key, while
/// content-derived naming needs at least six canonical bytes.
pub open spec fn namable(naming: NamingPolicy, pk: Seq<u8>) -> bool {
    naming is SequentialIndex || pk.len() >= CONTENT_NAME_MIN_PK_BYTES
}

/// Derives the file-name prefix of one key pair.
///
/// Fails with a validation error exactly when content-derived naming is
/// requested for a public key whose canonical encoding is shorter than
/// [`CONTENT_NAME_MIN_PK_BYTES`].
pub fn key_prefix(naming: NamingPolicy, index: u64, pk_bytes: &[u8]) -> (r: Result<
    String,
    ProvisionError,
>)
    ensures
        r is Ok <==> namable(naming, pk_bytes@),
        r matches Ok(p) ==> p@ == prefix_spec(naming, index as nat, pk_bytes@),
        r matches Err(e) ==> e is Validation,
{
    match naming {
        NamingPolicy::SequentialIndex => {
            let mut s = String::from_str("validator_");
            let d = u64_to_dec(index);
            s.append(d.as_str());
            proof {
                assert(s@ =~= sequential_prefix_spec(index as nat));
            }
            Ok(s)
        },
        NamingPolicy::ContentDerived => {
            if pk_bytes.len() < CONTENT_NAME_MIN_PK_BYTES {
                Err(
                    ProvisionError::Validation(
                        String::from_str(
                            "public key encoding too short for content-derived naming",
                        ),
                    ),
                )
            } else {
                let first3 = slice_subrange(pk_bytes, 0, 3);
                let last3 = slice_subrange(pk_bytes, pk_bytes.len() - 3, pk_bytes.len());
                let first3_hex = encode_lower_hex(first3);
                let last3_hex = encode_lower_hex(last3);
                let mut s = String::from_str("validator-");
                s.append(first3_hex.as_str());
                s.append("-");
                s.append(last3_hex.as_str());
                proof {
                    assert(first3@ =~= pk_bytes@.take(3));
                    assert(last3@ =~= pk_bytes@.skip(pk_bytes@.len() - 3));
                    assert(s@ =~= content_prefix_spec(pk_bytes@));
                }
                Ok(s)
            }
        },
    }
}

} // verus!
