//! Rendering the discovery manifest: a YAML document listing the run
//! metadata and one block per generated key pair, in generation order.

use vstd::arithmetic::power2::pow2;
use vstd::bits::{lemma_u64_pow2_no_overflow, lemma_u64_shl_is_mul};
use vstd::prelude::*;
use vstd::string::StringExecFns;

use crate::decimal::{dec_of, u64_to_dec};
use crate::provision::LOG_LIFETIME;
use crate::types::{FileContents, FileSpec, ManifestRecord};

verus! {

/// The manifest's file name under the run's output directory.
pub open spec fn manifest_file_name_spec() -> Seq<char> {
    "validator-keys-manifest.yaml"@
}

/// Returns the manifest's file name.
pub fn manifest_file_name() -> (r: String)
    ensures
        r@ == manifest_file_name_spec(),
{
    String::from_str("validator-keys-manifest.yaml")
}

/// One manifest block: the record's index when it carries one, then its
/// `pubkey_hex` and `privkey_file` lines. Blocks are separated by a blank
/// line, so every block but the last ends in one.
pub open spec fn record_block_spec(rec: ManifestRecord, is_last: bool) -> Seq<char> {
    (match rec.index {
        Some(ix) => "  - index: "@ + dec_of(ix as nat) + "\n    pubkey_hex: "@,
        None => "  - pubkey_hex: "@,
    }) + rec.pubkey_hex@ + "\n    privkey_file: "@ + rec.privkey_file@ + "\n"@ + (if is_last {
        Seq::<char>::empty()
    } else {
        "\n"@
    })
}

/// The manifest blocks of the records from position `i` on.
pub open spec fn record_blocks_from_spec(records: Seq<ManifestRecord>, i: int) -> Seq<char>
    decreases records.len() - i,
{
    if i < 0 || i >= records.len() {
        Seq::empty()
    } else {
        record_block_spec(records[i], i == records.len() - 1) + record_blocks_from_spec(
            records,
            i + 1,
        )
    }
}

/// The manifest's run-metadata header: the scheme, hash-function and
/// encoding identifiers, the fixed lifetime of 2^32 epochs, the epoch
/// parameters, and the number of validators.
pub open spec fn manifest_header_spec(log_num_active_epochs: nat, num_validators: nat) -> Seq<
    char,
> {
    "# Hash-Signature Validator Keys Manifest\n# Generated by validator-keygen\n\nkey_scheme: SIGTopLevelTargetSumLifetime32Dim64Base8\nhash_function: Poseidon2\nencoding: TargetSum\nlifetime: 4294967296\nlog_num_active_epochs: "@
        + dec_of(log_num_active_epochs) + "\nnum_active_epochs: "@ + dec_of(
        pow2(log_num_active_epochs),
    ) + "\nnum_validators: "@ + dec_of(num_validators) + "\n\nvalidators:\n"@
}

/// The whole manifest document: the header, then one block per record, in
/// the order given.
pub open spec fn manifest_text_spec(log_num_active_epochs: nat, records: Seq<ManifestRecord>) -> Seq<
    char,
> {
    manifest_header_spec(log_num_active_epochs, records.len()) + record_blocks_from_spec(records, 0)
}

fn append_record_block(out: &mut String, rec: &ManifestRecord, is_last: bool)
    ensures
        final(out)@ == old(out)@ + record_block_spec(*rec, is_last),
{
    match rec.index {
        Some(ix) => {
            out.append("  - index: ");
            let d = u64_to_dec(ix);
            out.append(d.as_str());
            out.append("\n    pubkey_hex: ");
        },
        None => {
            out.append("  - pubkey_hex: ");
        },
    }
    out.append(rec.pubkey_hex.as_str());
    out.append("\n    privkey_file: ");
    out.append(rec.privkey_file.as_str());
    out.append("\n");
    if !is_last {
        out.append("\n");
    }
    proof {
        assert(out@ =~= old(out)@ + record_block_spec(*rec, is_last));
    }
}

/// Renders the manifest document for the given epoch parameter and
/// records. Pure formatting: the records are trusted as given, and the
/// text is exactly the document of [`manifest_text_spec`].
pub fn manifest_text(log_num_active_epochs: usize, records: &Vec<ManifestRecord>) -> (r: String)
    requires
        log_num_active_epochs <= LOG_LIFETIME,
    ensures
        r@ == manifest_text_spec(log_num_active_epochs as nat, records@),
{
    let mut s = String::from_str(
        "# Hash-Signature Validator Keys Manifest\n# Generated by validator-keygen\n\nkey_scheme: SIGTopLevelTargetSumLifetime32Dim64Base8\nhash_function: Poseidon2\nencoding: TargetSum\nlifetime: 4294967296\nlog_num_active_epochs: ",
    );
    let d_log = u64_to_dec(log_num_active_epochs as u64);
    s.append(d_log.as_str());
    s.append("\nnum_active_epochs: ");
    let num_active_epochs = 1u64 << (log_num_active_epochs as u64);
    proof {
        lemma_u64_pow2_no_overflow(log_num_active_epochs as nat);
        lemma_u64_shl_is_mul(1u64, log_num_active_epochs as u64);
    }
    let d_epochs = u64_to_dec(num_active_epochs);
    s.append(d_epochs.as_str());
    s.append("\nnum_validators: ");
    let d_n = u64_to_dec(records.len() as u64);
    s.append(d_n.as_str());
    s.append("\n\nvalidators:\n");
    proof {
        assert(s@ =~= manifest_header_spec(log_num_active_epochs as nat, records@.len()));
    }

    let n = records.len();
    let mut i: usize = 0;
    while i < n
        invariant
            n == records@.len(),
            i <= n,
            s@ + record_blocks_from_spec(records@, i as int) == manifest_text_spec(
                log_num_active_epochs as nat,
                records@,
            ),
        decreases n - i,
    {
        let ghost s_before = s@;
        append_record_block(&mut s, &records[i], i == n - 1);
        proof {
            let blk = record_block_spec(records@[i as int], i as int == records@.len() - 1);
            let rest = record_blocks_from_spec(records@, i as int + 1);
            assert((s_before + blk) + rest =~= s_before + (blk + rest));
        }
        i = i + 1;
    }
    proof {
        assert(s@ + Seq::<char>::empty() =~= s@);
    }
    s
}

/// Plans the manifest as an output file: the fixed manifest file name with
/// the rendered document as its text contents.
pub fn manifest_file(log_num_active_epochs: usize, records: &Vec<ManifestRecord>) -> (r: FileSpec)
    requires
        log_num_active_epochs <= LOG_LIFETIME,
    ensures
        r.name@ == manifest_file_name_spec(),
        r.contents matches FileContents::Text(t) && t@ == manifest_text_spec(
            log_num_active_epochs as nat,
            records@,
        ),
{
    let name = manifest_file_name();
    let text = manifest_text(log_num_active_epochs, records);
    FileSpec { name, contents: FileContents::Text(text) }
}

} // verus!
