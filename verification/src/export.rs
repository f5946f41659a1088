//! Planning the output files and manifest record of one key pair.

use vstd::prelude::*;
use vstd::slice::slice_to_vec;
use vstd::string::StringExecFns;

use crate::hexfmt::{pubkey_hex, pubkey_hex_spec};
use crate::naming::{key_prefix, namable, prefix_spec};
use crate::types::{
    ExportConfig, ExportFormat, FileContents, FileSpec, KeyExport, KeyMaterial, ManifestRecord,
    NamingPolicy, ProvisionError,
};

verus! {

/// Name of the canonical public-key file of a prefix.
pub open spec fn pk_file_name_spec(prefix: Seq<char>) -> Seq<char> {
    prefix + "_pk.ssz"@
}

/// Name of the canonical secret-key file of a prefix.
pub open spec fn sk_file_name_spec(prefix: Seq<char>) -> Seq<char> {
    prefix + "_sk.ssz"@
}

/// Name of the interchange public-key file of a prefix.
pub open spec fn pk_text_file_name_spec(prefix: Seq<char>) -> Seq<char> {
    prefix + "_pk.json"@
}

/// Name of the interchange secret-key file of a prefix.
pub open spec fn sk_text_file_name_spec(prefix: Seq<char>) -> Seq<char> {
    prefix + "_sk.json"@
}

/// How many files are written per key pair under a format.
pub open spec fn file_count_spec(format: ExportFormat) -> nat {
    match format {
        ExportFormat::CanonicalOnly => 2,
        ExportFormat::CanonicalAndInterchange => 4,
    }
}

/// The file holds the given name and raw binary contents.
pub open spec fn is_binary_file(f: FileSpec, name: Seq<char>, data: Seq<u8>) -> bool {
    &&& f.name@ == name
    &&& f.contents matches FileContents::Binary(b) && b@ == data
}

/// The file holds the given name and text contents.
pub open spec fn is_text_file(f: FileSpec, name: Seq<char>, text: Seq<char>) -> bool {
    &&& f.name@ == name
    &&& f.contents matches FileContents::Text(t) && t@ == text
}

/// The manifest record correctly describes the key pair of the given
/// generation index: its `pubkey_hex` is the "0x"-prefixed lowercase hex of
/// the canonical public-key bytes, its `privkey_file` is the canonical
/// secret-key file name, and it carries the index exactly under
/// sequential naming.
pub open spec fn record_matches(
    rec: ManifestRecord,
    index: u64,
    pk: Seq<u8>,
    naming: NamingPolicy,
) -> bool {
    &&& rec.pubkey_hex@ == pubkey_hex_spec(pk)
    &&& rec.privkey_file@ == sk_file_name_spec(prefix_spec(naming, index as nat, pk))
    &&& rec.index == (if naming is SequentialIndex {
        Some(index)
    } else {
        None::<u64>
    })
}

/// The planned export of one key pair is exactly what the configuration
/// asks for: canonical public- and secret-key files always, the two
/// interchange files exactly in dual-format mode, all four names sharing
/// one prefix, and a manifest record matching the key.
pub open spec fn export_matches(
    e: KeyExport,
    index: u64,
    km: KeyMaterial,
    config: ExportConfig,
) -> bool {
    let p = prefix_spec(config.naming, index as nat, km.pk_bytes@);
    &&& record_matches(e.record, index, km.pk_bytes@, config.naming)
    &&& e.files@.len() == file_count_spec(config.format)
    &&& is_binary_file(e.files@[0], pk_file_name_spec(p), km.pk_bytes@)
    &&& is_binary_file(e.files@[1], sk_file_name_spec(p), km.sk_bytes@)
    &&& config.format is CanonicalAndInterchange ==> {
        &&& km.interchange matches Some(tx)
        &&& is_text_file(e.files@[2], pk_text_file_name_spec(p), tx.pk_text@)
        &&& is_text_file(e.files@[3], sk_text_file_name_spec(p), tx.sk_text@)
    }
}

/// The manifest's `pubkey_hex` agrees byte-for-byte with the canonical
/// public-key file planned for the same key: re-encoding that file's
/// contents as "0x"-prefixed lowercase hex gives exactly the record's
/// field. The hex is computed from the in-memory canonical bytes, and
/// those same bytes are what the file holds.
pub proof fn lemma_record_hex_matches_planned_pk_file(
    e: KeyExport,
    index: u64,
    km: KeyMaterial,
    config: ExportConfig,
)
    requires
        export_matches(e, index, km, config),
    ensures
        e.files@[0].contents matches FileContents::Binary(b) && e.record.pubkey_hex@
            == pubkey_hex_spec(b@),
{
}

/// Under sequential naming a rerun with the same parameters targets the
/// same file names, whatever fresh key material it generates: the planned
/// names of two exports of one index agree even when the keys differ, so
/// rerunning into one output directory overwrites the prior files.
pub proof fn lemma_sequential_rerun_same_file_names(
    e1: KeyExport,
    e2: KeyExport,
    index: u64,
    km1: KeyMaterial,
    km2: KeyMaterial,
    config: ExportConfig,
)
    requires
        config.naming is SequentialIndex,
        export_matches(e1, index, km1, config),
        export_matches(e2, index, km2, config),
    ensures
        e1.files@.len() == e2.files@.len(),
        forall|j: int| 0 <= j < e1.files@.len() ==> e1.files@[j].name@ == e2.files@[j].name@,
        e1.record.privkey_file@ == e2.record.privkey_file@,
{
    assert forall|j: int| 0 <= j < e1.files@.len() implies e1.files@[j].name@
        == e2.files@[j].name@ by {
        if j == 0 {
        } else if j == 1 {
        } else if j == 2 {
        } else {
            assert(j == 3);
        }
    }
}

/// Builds the manifest record of one key pair.
///
/// Fails with a validation error exactly when the key cannot be named
/// under the configured policy.
pub fn manifest_record(index: u64, pk_bytes: &[u8], naming: NamingPolicy) -> (r: Result<
    ManifestRecord,
    ProvisionError,
>)
    ensures
        r is Ok <==> namable(naming, pk_bytes@),
        r matches Ok(rec) ==> record_matches(rec, index, pk_bytes@, naming),
        r matches Err(e) ==> e is Validation,
{
    let prefix = match key_prefix(naming, index, pk_bytes) {
        Ok(p) => p,
        Err(e) => {
            return Err(e);
        },
    };
    let hex = pubkey_hex(pk_bytes);
    let mut privkey_file = prefix;
    privkey_file.append("_sk.ssz");
    let rec_index = match naming {
        NamingPolicy::SequentialIndex => Some(index),
        NamingPolicy::ContentDerived => None,
    };
    Ok(ManifestRecord { index: rec_index, pubkey_hex: hex, privkey_file })
}

/// Plans the files of one key pair and its manifest record.
///
/// The canonical encodings are always written as `<prefix>_pk.ssz` and
/// `<prefix>_sk.ssz`; in dual-format mode the interchange texts are also
/// written as `<prefix>_pk.json` and `<prefix>_sk.json`. The record's
/// `pubkey_hex` is computed from the in-memory canonical public-key bytes,
/// never from a written file. Fails with a validation error exactly when
/// the key cannot be named under the configured policy, and plans no file
/// for the key in that case.
pub fn export_key(index: u64, key: &KeyMaterial, config: &ExportConfig) -> (r: Result<
    KeyExport,
    ProvisionError,
>)
    requires
        config.format is CanonicalAndInterchange ==> key.interchange is Some,
    ensures
        r is Ok <==> namable(config.naming, key.pk_bytes@),
        r matches Ok(e) ==> export_matches(e, index, *key, *config),
        r matches Err(e) ==> e is Validation,
{
    let prefix = match key_prefix(config.naming, index, key.pk_bytes.as_slice()) {
        Ok(p) => p,
        Err(e) => {
            return Err(e);
        },
    };
    let record = match manifest_record(index, key.pk_bytes.as_slice(), config.naming) {
        Ok(rec) => rec,
        Err(e) => {
            return Err(e);
        },
    };

    let mut files: Vec<FileSpec> = Vec::new();

    let mut pk_name = prefix.clone();
    pk_name.append("_pk.ssz");
    files.push(
        FileSpec {
            name: pk_name,
            contents: FileContents::Binary(slice_to_vec(key.pk_bytes.as_slice())),
        },
    );

    let mut sk_name = prefix.clone();
    sk_name.append("_sk.ssz");
    files.push(
        FileSpec {
            name: sk_name,
            contents: FileContents::Binary(slice_to_vec(key.sk_bytes.as_slice())),
        },
    );

    match config.format {
        ExportFormat::CanonicalOnly => {},
        ExportFormat::CanonicalAndInterchange => {
            match &key.interchange {
                Some(tx) => {
                    let mut pk_text_name = prefix.clone();
                    pk_text_name.append("_pk.json");
                    files.push(
                        FileSpec {
                            name: pk_text_name,
                            contents: FileContents::Text(tx.pk_text.clone()),
                        },
                    );
                    let mut sk_text_name = prefix.clone();
                    sk_text_name.append("_sk.json");
                    files.push(
                        FileSpec {
                            name: sk_text_name,
                            contents: FileContents::Text(tx.sk_text.clone()),
                        },
                    );
                },
                None => {
                    proof {
                        assert(false);
                    }
                },
            }
        },
    }

    Ok(KeyExport { files, record })
}

} // verus!
