use validator_keygen::export::{export_key, manifest_record};
use validator_keygen::types::{
    ExportConfig, ExportFormat, FileContents, FileSpec, InterchangeTexts, KeyMaterial,
    NamingPolicy, ProvisionError,
};

fn canonical_only_sequential() -> ExportConfig {
    ExportConfig { format: ExportFormat::CanonicalOnly, naming: NamingPolicy::SequentialIndex }
}

fn binary_contents(f: &FileSpec) -> &[u8] {
    match &f.contents {
        FileContents::Binary(b) => b.as_slice(),
        FileContents::Text(_) => panic!("expected binary contents in {}", f.name),
    }
}

fn text_contents(f: &FileSpec) -> &str {
    match &f.contents {
        FileContents::Text(t) => t.as_str(),
        FileContents::Binary(_) => panic!("expected text contents in {}", f.name),
    }
}

fn key_without_interchange(pk: &[u8], sk: &[u8]) -> KeyMaterial {
    KeyMaterial { pk_bytes: pk.to_vec(), sk_bytes: sk.to_vec(), interchange: None }
}

#[test]
fn canonical_only_writes_two_files() {
    let key = key_without_interchange(&[0x01, 0xab], &[0x10, 0x20, 0x30]);
    let e = export_key(0, &key, &canonical_only_sequential()).unwrap();
    assert_eq!(e.files.len(), 2);
    assert_eq!(e.files[0].name, "validator_0_pk.ssz");
    assert_eq!(e.files[1].name, "validator_0_sk.ssz");
    assert_eq!(binary_contents(&e.files[0]), &[0x01, 0xab]);
    assert_eq!(binary_contents(&e.files[1]), &[0x10, 0x20, 0x30]);
}

#[test]
fn dual_format_writes_four_files() {
    let key = KeyMaterial {
        pk_bytes: vec![0x01, 0xab],
        sk_bytes: vec![0x10, 0x20],
        interchange: Some(InterchangeTexts {
            pk_text: String::from("{\"pk\":1}"),
            sk_text: String::from("{\"sk\":2}"),
        }),
    };
    let config = ExportConfig {
        format: ExportFormat::CanonicalAndInterchange,
        naming: NamingPolicy::SequentialIndex,
    };
    let e = export_key(5, &key, &config).unwrap();
    assert_eq!(e.files.len(), 4);
    assert_eq!(e.files[0].name, "validator_5_pk.ssz");
    assert_eq!(e.files[1].name, "validator_5_sk.ssz");
    assert_eq!(e.files[2].name, "validator_5_pk.json");
    assert_eq!(e.files[3].name, "validator_5_sk.json");
    assert_eq!(text_contents(&e.files[2]), "{\"pk\":1}");
    assert_eq!(text_contents(&e.files[3]), "{\"sk\":2}");
}

#[test]
fn record_pubkey_hex_is_canonical_hex_of_in_memory_key() {
    let pk = [0x00u8, 0x1f, 0xa0];
    let key = key_without_interchange(&pk, &[0xff]);
    let e = export_key(1, &key, &canonical_only_sequential()).unwrap();
    assert_eq!(e.record.pubkey_hex, format!("0x{}", hex::encode(pk)));
    // Re-encoding the planned canonical public-key file gives the same hex.
    assert_eq!(
        e.record.pubkey_hex,
        format!("0x{}", hex::encode(binary_contents(&e.files[0])))
    );
    assert_eq!(e.record.privkey_file, "validator_1_sk.ssz");
    assert_eq!(e.record.index, Some(1));
}

#[test]
fn content_derived_files_share_one_prefix() {
    let pk = [0x01u8, 0x02, 0x03, 0x0a, 0x0b, 0x0c];
    let key = key_without_interchange(&pk, &[0x77]);
    let config = ExportConfig {
        format: ExportFormat::CanonicalOnly,
        naming: NamingPolicy::ContentDerived,
    };
    let e = export_key(0, &key, &config).unwrap();
    let prefix = "validator-010203-0a0b0c";
    assert_eq!(e.files[0].name, format!("{}_pk.ssz", prefix));
    assert_eq!(e.files[1].name, format!("{}_sk.ssz", prefix));
    assert_eq!(e.record.privkey_file, format!("{}_sk.ssz", prefix));
    assert_eq!(e.record.index, None);
}

#[test]
fn content_derived_short_key_plans_no_file() {
    let key = key_without_interchange(&[0x01, 0x02, 0x03], &[0x04]);
    let config = ExportConfig {
        format: ExportFormat::CanonicalOnly,
        naming: NamingPolicy::ContentDerived,
    };
    let r = export_key(0, &key, &config);
    assert!(matches!(r, Err(ProvisionError::Validation(_))));
}

#[test]
fn manifest_record_without_index_under_content_naming() {
    let pk = [0x11u8, 0x22, 0x33, 0x44, 0x55, 0x66];
    let rec = manifest_record(8, &pk, NamingPolicy::ContentDerived).unwrap();
    assert_eq!(rec.index, None);
    assert_eq!(rec.pubkey_hex, "0x112233445566");
    assert_eq!(rec.privkey_file, "validator-112233-445566_sk.ssz");
}

#[test]
fn manifest_record_with_index_under_sequential_naming() {
    let rec = manifest_record(3, &[0xab], NamingPolicy::SequentialIndex).unwrap();
    assert_eq!(rec.index, Some(3));
    assert_eq!(rec.pubkey_hex, "0xab");
    assert_eq!(rec.privkey_file, "validator_3_sk.ssz");
}
