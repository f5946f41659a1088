//! The data model of one provisioning run: export configuration, per-key
//! input material, planned output files, and manifest records.

use vstd::prelude::*;

verus! {

/// Which encodings are written for each key pair.
#[derive(Clone, Copy, Debug, PartialEq, Eq, Structural)]
pub enum ExportFormat {
    /// Only the canonical binary encoding of each key.
    CanonicalOnly,
    /// The canonical binary encoding plus the textual interchange encoding.
    CanonicalAndInterchange,
}

/// How the file-name prefix of a key pair is chosen.
#[derive(Clone, Copy, Debug, PartialEq, Eq, Structural)]
pub enum NamingPolicy {
    /// Prefix from the generation index of the key pair.
    SequentialIndex,
    /// Prefix from slices of the key's own canonical public-key bytes.
    ContentDerived,
}

/// Immutable configuration of one provisioning run.
#[derive(Clone, Copy, Debug, PartialEq, Eq, Structural)]
pub struct ExportConfig {
    pub format: ExportFormat,
    pub naming: NamingPolicy,
}

/// The textual interchange encodings of one key pair, as produced by the
/// external scheme. They preserve the keys' internal field representation
/// and are not byte-comparable with the canonical encoding.
pub struct InterchangeTexts {
    pub pk_text: String,
    pub sk_text: String,
}

/// Everything the external scheme produced for one key pair that the
/// pipeline consumes: the canonical byte encodings of both keys and, when
/// the run also exports the interchange form, the interchange texts.
pub struct KeyMaterial {
    pub pk_bytes: Vec<u8>,
    pub sk_bytes: Vec<u8>,
    pub interchange: Option<InterchangeTexts>,
}

/// What one planned output file holds.
pub enum FileContents {
    Binary(Vec<u8>),
    Text(String),
}

/// One output file to be written under the run's output directory.
pub struct FileSpec {
    pub name: String,
    pub contents: FileContents,
}

/// One entry of the discovery manifest.
pub struct ManifestRecord {
    /// Present only under sequential-index naming; content-derived names
    /// carry no numeric index.
    pub index: Option<u64>,
    /// "0x"-prefixed lowercase hex of the canonical public-key encoding.
    pub pubkey_hex: String,
    /// Relative file name of the persisted canonical secret key.
    pub privkey_file: String,
}

/// The planned output for one key pair: the files to write and the manifest
/// record describing the pair.
pub struct KeyExport {
    pub files: Vec<FileSpec>,
    pub record: ManifestRecord,
}

/// The planned output of a whole run: one export per key pair, in
/// generation order, and the manifest records in the same order.
pub struct ProvisionRun {
    pub exports: Vec<KeyExport>,
    pub records: Vec<ManifestRecord>,
}

/// Why a provisioning run was aborted. Every failure aborts the run at the
/// point it occurs; nothing is retried.
#[derive(Debug)]
pub enum ProvisionError {
    /// Bad epoch parameters, or a public key too short for content-derived
    /// naming.
    Validation(String),
    /// A directory or file operation failed.
    Io(String),
    /// Persisted key material failed to decode.
    Encoding(String),
}

impl ProvisionError {
    /// The message carried by the error, whatever its kind.
    pub open spec fn message_spec(&self) -> Seq<char> {
        match self {
            ProvisionError::Validation(m) => m@,
            ProvisionError::Io(m) => m@,
            ProvisionError::Encoding(m) => m@,
        }
    }

    /// A copy of the error's message.
    pub fn message(&self) -> (r: String)
        ensures
            r@ == self.message_spec(),
    {
        match self {
            ProvisionError::Validation(m) => m.clone(),
            ProvisionError::Io(m) => m.clone(),
            ProvisionError::Encoding(m) => m.clone(),
        }
    }
}

} // verus!
