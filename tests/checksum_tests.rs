use wasmedgeup::checksum::{find_checksum, to_lower_text, verify_checksum};
use wasmedgeup::error::Error;
use wasmedgeup::version::parse_version;

const DIGEST: &str = "9f86d081884c7d659a2feaa0c55ad015a3bf4f1b2b0b822cd15d6c15b0f00a08";

#[test]
fn checksum_matches_in_any_case() {
    assert_eq!(verify_checksum(DIGEST, DIGEST), Ok(()));
    assert_eq!(verify_checksum(&DIGEST.to_uppercase(), DIGEST), Ok(()));
    assert_eq!(verify_checksum(DIGEST, &DIGEST.to_uppercase()), Ok(()));
}

#[test]
fn checksum_mismatch_carries_both() {
    let other = "0000000000000000000000000000000000000000000000000000000000000000";
    assert_eq!(
        verify_checksum(DIGEST, other),
        Err(Error::ChecksumMismatch { expected: DIGEST.to_string(), actual: other.to_string() })
    );
}

#[test]
fn lower_text_only_folds_ascii_capitals() {
    assert_eq!(to_lower_text("AbC-09Z"), "abc-09z");
}

#[test]
fn manifest_lookup_finds_entry() {
    let v = parse_version("0.14.1").unwrap();
    let manifest = format!(
        "aaaa  WasmEdge-0.14.1-darwin_x86_64.tar.gz\n{}  WasmEdge-0.14.1-manylinux_2_28_x86_64.tar.gz\nbbbb *WasmEdge-0.14.1-windows.zip\n",
        DIGEST
    );
    assert_eq!(find_checksum(&manifest, &v, "WasmEdge-0.14.1-manylinux_2_28_x86_64.tar.gz"), Ok(DIGEST.to_string()));
    assert_eq!(find_checksum(&manifest, &v, "WasmEdge-0.14.1-windows.zip"), Ok("bbbb".to_string()));
}

#[test]
fn manifest_lookup_reports_missing_entry() {
    let v = parse_version("0.14.1").unwrap();
    let manifest = "aaaa  WasmEdge-0.14.1-darwin_x86_64.tar.gz\n";
    assert_eq!(
        find_checksum(manifest, &v, "WasmEdge-0.14.1-darwin_arm64.tar.gz"),
        Err(Error::ChecksumNotFound {
            version: "0.14.1".to_string(),
            asset: "WasmEdge-0.14.1-darwin_arm64.tar.gz".to_string()
        })
    );
    assert!(find_checksum("", &v, "x").is_err());
}
