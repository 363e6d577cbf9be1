use wasmedgeup::asset::{archive_format, checksum_manifest_url, ArchiveFormat, Asset, TargetArch, TargetOS};
use wasmedgeup::checksum::{find_checksum, verify_checksum};
use wasmedgeup::error::Error;
use wasmedgeup::install::{join_path, InstallArgs};
use wasmedgeup::path_entry::{add_to_rc, export_line};
use wasmedgeup::pipeline::{PipelineState, Stage};
use wasmedgeup::version::parse_version;

#[test]
fn asset_for_linux_x86_64() {
    let v = parse_version("0.14.1").unwrap();
    let a = Asset::new(&v, TargetOS::Linux, TargetArch::X86_64).unwrap();
    assert_eq!(a.filename, "WasmEdge-0.14.1-manylinux_2_28_x86_64.tar.gz");
    assert_eq!(a.install_name, "WasmEdge-0.14.1-Linux");
    assert_eq!(
        a.url,
        "https://github.com/WasmEdge/WasmEdge/releases/download/0.14.1/WasmEdge-0.14.1-manylinux_2_28_x86_64.tar.gz"
    );
    assert_eq!(a.format, ArchiveFormat::TarGz);
    assert_eq!(
        checksum_manifest_url(&v),
        "https://github.com/WasmEdge/WasmEdge/releases/download/0.14.1/SHA256SUM"
    );
}

#[test]
fn asset_for_other_platforms() {
    let v = parse_version("0.14.1").unwrap();
    assert_eq!(Asset::new(&v, TargetOS::Darwin, TargetArch::Aarch64).unwrap().filename, "WasmEdge-0.14.1-darwin_arm64.tar.gz");
    let w = Asset::new(&v, TargetOS::Windows, TargetArch::X86_64).unwrap();
    assert_eq!(w.filename, "WasmEdge-0.14.1-windows.zip");
    assert_eq!(w.format, ArchiveFormat::Zip);
    assert_eq!(archive_format(TargetOS::Windows), ArchiveFormat::Zip);
    assert!(matches!(
        Asset::new(&v, TargetOS::Windows, TargetArch::Aarch64),
        Err(Error::AssetResolution { .. })
    ));
}

#[test]
fn end_to_end_linux_x86_64() {
    let args = InstallArgs { version: "0.14.1".to_string(), path: None, tmpdir: None, os: None, arch: None };
    let v = args.resolve_version(&Vec::new()).unwrap();
    let cfg = args.config("/home/u", "/tmp", TargetOS::Linux, TargetArch::X86_64);
    assert_eq!(cfg.target_dir, "/home/u/.wasmedge");
    let asset = Asset::new(&v, cfg.os, cfg.arch).unwrap();
    assert_eq!(cfg.staging_dir(&asset), "/tmp/WasmEdge-0.14.1-Linux");
    let digest = "ABCDEF0123";
    let manifest = format!("ffff  other.zip\n{}  {}\n", digest, asset.filename);
    let expected = find_checksum(&manifest, &v, &asset.filename).unwrap();
    assert_eq!(verify_checksum(&expected, "abcdef0123"), Ok(()));
    assert!(verify_checksum(&expected, "abcdef0124").is_err());
    let bin = cfg.bin_dir();
    assert_eq!(bin, "/home/u/.wasmedge/bin");
    let rc = add_to_rc("", &bin).unwrap();
    let rc = add_to_rc(&rc, &bin).unwrap();
    assert_eq!(rc.lines().filter(|l| *l == export_line(&bin)).count(), 1);
}

#[test]
fn config_keeps_explicit_choices() {
    let args = InstallArgs {
        version: "latest".to_string(),
        path: Some("/opt/we".to_string()),
        tmpdir: Some("/var/stage".to_string()),
        os: Some(TargetOS::Darwin),
        arch: Some(TargetArch::Aarch64),
    };
    let cfg = args.config("/home/u", "/tmp", TargetOS::Linux, TargetArch::X86_64);
    assert_eq!(cfg.target_dir, "/opt/we");
    assert_eq!(cfg.tmp_base, "/var/stage");
    assert_eq!(cfg.os, TargetOS::Darwin);
    assert_eq!(cfg.arch, TargetArch::Aarch64);
    assert_eq!(join_path("a", "b"), "a/b");
}

#[test]
fn download_failure_stops_the_run() {
    let mut st = PipelineState::Idle.advance(true);
    assert_eq!(st, PipelineState::Running(Stage::ResolvingVersion));
    for _ in 0..3 {
        st = st.advance(true);
    }
    assert_eq!(st, PipelineState::Running(Stage::Downloading));
    st = st.advance(false);
    assert_eq!(st, PipelineState::Failed(Stage::Downloading));
    for ok in [true, true, false, true] {
        st = st.advance(ok);
        assert_eq!(st, PipelineState::Failed(Stage::Downloading));
    }
    assert!(st.is_terminal());
}

#[test]
fn successful_run_reaches_done() {
    let mut st = PipelineState::Idle;
    let mut seen = Vec::new();
    while !st.is_terminal() {
        st = st.advance(true);
        if let PipelineState::Running(s) = st {
            seen.push(s);
        }
    }
    assert_eq!(st, PipelineState::Done);
    assert_eq!(seen.len(), 8);
    assert_eq!(seen[7], Stage::RegisteringPath);
    assert_eq!(PipelineState::Running(Stage::RegisteringPath).advance(false), PipelineState::Failed(Stage::RegisteringPath));
}
