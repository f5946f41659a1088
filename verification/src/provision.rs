//! Driving one provisioning run: validating the epoch parameters and
//! planning the export of every key pair, in ascending generation order.

use vstd::arithmetic::power2::pow2;
use vstd::bits::{lemma_u64_pow2_no_overflow, lemma_u64_shl_is_mul};
use vstd::prelude::*;
use vstd::string::StringExecFns;

use crate::export::{export_key, export_matches, manifest_record, record_matches};
use crate::naming::namable;
use crate::types::{ExportConfig, KeyMaterial, ProvisionError, ProvisionRun};

verus! {

/// Base-two logarithm of the scheme's total lifetime in epochs. The
/// lifetime is fixed at 2^32 epochs, so no key may be activated for more
/// than that many epochs.
pub const LOG_LIFETIME: usize = 32;

/// Checks the requested number of active epochs against the scheme's
/// lifetime and returns it, as the activation duration handed to key
/// generation: exactly 2^log_num_active_epochs when
/// log_num_active_epochs is at most [`LOG_LIFETIME`], and a validation
/// error otherwise.
pub fn validate_log_num_active_epochs(log_num_active_epochs: usize) -> (r: Result<
    u64,
    ProvisionError,
>)
    ensures
        r is Ok <==> log_num_active_epochs <= LOG_LIFETIME,
        r matches Ok(d) ==> d == pow2(log_num_active_epochs as nat),
        r matches Err(e) ==> e is Validation,
{
    if log_num_active_epochs > LOG_LIFETIME {
        Err(
            ProvisionError::Validation(
                String::from_str("log_num_active_epochs exceeds the scheme lifetime of 2^32 epochs"),
            ),
        )
    } else {
        let d = 1u64 << (log_num_active_epochs as u64);
        proof {
            lemma_u64_pow2_no_overflow(log_num_active_epochs as nat);
            lemma_u64_shl_is_mul(1u64, log_num_active_epochs as u64);
        }
        Ok(d)
    }
}

/// Every key of the run can be named under the given policy.
pub open spec fn all_namable(keys: Seq<KeyMaterial>, config: ExportConfig) -> bool {
    forall|i: int| 0 <= i < keys.len() ==> namable(config.naming, #[trigger] keys[i].pk_bytes@)
}

/// In dual-format mode, every key of the run carries interchange texts.
pub open spec fn interchange_present(keys: Seq<KeyMaterial>, config: ExportConfig) -> bool {
    config.format is CanonicalAndInterchange ==> forall|i: int|
        0 <= i < keys.len() ==> (#[trigger] keys[i].interchange) is Some
}

/// Plans a whole provisioning run: one export per key pair, in the order
/// given, which is the ascending generation order.
///
/// On success the run holds exactly one export and one manifest record per
/// key, each export planning exactly the configured files for its key and
/// each record describing its key. Fails with a validation error exactly
/// when some key cannot be named under the configured policy, and plans
/// nothing in that case.
pub fn provision(keys: &Vec<KeyMaterial>, config: &ExportConfig) -> (r: Result<
    ProvisionRun,
    ProvisionError,
>)
    requires
        interchange_present(keys@, *config),
    ensures
        r is Ok <==> all_namable(keys@, *config),
        r matches Ok(run) ==> {
            &&& run.exports@.len() == keys@.len()
            &&& run.records@.len() == keys@.len()
            &&& forall|i: int|
                0 <= i < keys@.len() ==> export_matches(
                    #[trigger] run.exports@[i],
                    i as u64,
                    keys@[i],
                    *config,
                )
            &&& forall|i: int|
                0 <= i < keys@.len() ==> record_matches(
                    #[trigger] run.records@[i],
                    i as u64,
                    keys@[i].pk_bytes@,
                    config.naming,
                )
        },
        r matches Err(e) ==> e is Validation,
{
    let mut exports: Vec<crate::types::KeyExport> = Vec::new();
    let mut records: Vec<crate::types::ManifestRecord> = Vec::new();
    let n = keys.len();
    let mut i: usize = 0;
    while i < n
        invariant
            n == keys@.len(),
            i <= n,
            interchange_present(keys@, *config),
            exports@.len() == i,
            records@.len() == i,
            forall|j: int|
                0 <= j < i ==> export_matches(#[trigger] exports@[j], j as u64, keys@[j], *config),
            forall|j: int|
                0 <= j < i ==> record_matches(
                    #[trigger] records@[j],
                    j as u64,
                    keys@[j].pk_bytes@,
                    config.naming,
                ),
            forall|j: int| 0 <= j < i ==> namable(config.naming, #[trigger] keys@[j].pk_bytes@),
        decreases n - i,
    {
        let km = &keys[i];
        let rec = match manifest_record(i as u64, km.pk_bytes.as_slice(), config.naming) {
            Ok(rec) => rec,
            Err(e) => {
                return Err(e);
            },
        };
        let e = match export_key(i as u64, km, config) {
            Ok(e) => e,
            Err(e) => {
                return Err(e);
            },
        };
        records.push(rec);
        exports.push(e);
        i = i + 1;
    }
    Ok(ProvisionRun { exports, records })
}

} // verus!
