use wasmedgeup::error::Error;
use wasmedgeup::install::InstallArgs;
use wasmedgeup::version::{latest_of, parse_version, version_less};

fn args(version: &str) -> InstallArgs {
    InstallArgs { version: version.to_string(), path: None, tmpdir: None, os: None, arch: None }
}

#[test]
fn parse_plain_version() {
    let v = parse_version("0.14.1").unwrap();
    assert_eq!((v.major, v.minor, v.patch), (0, 14, 1));
    assert_eq!(v.pre, "");
    assert_eq!(v.to_string(), "0.14.1");
}

#[test]
fn parse_prerelease_and_build() {
    let v = parse_version("10.0.23-rc.1+build.5").unwrap();
    assert_eq!((v.major, v.minor, v.patch), (10, 0, 23));
    assert_eq!(v.pre, "rc.1");
    assert_eq!(v.build, "build.5");
    assert_eq!(v.to_string(), "10.0.23-rc.1+build.5");
}

#[test]
fn parse_rejects_malformed() {
    match parse_version("0.14") {
        Err(Error::SemVer { input }) => assert_eq!(input, "0.14"),
        other => panic!("unexpected {:?}", other),
    }
    assert!(parse_version("latest").is_err());
    assert!(parse_version("").is_err());
}

#[test]
fn resolve_exact_version_ignores_listing() {
    let tags = vec!["9.9.9".to_string()];
    let v = args("0.14.1-rc.1").resolve_version(&tags).unwrap();
    assert_eq!(v.to_string(), "0.14.1-rc.1");
    let w = args("0.14.1").resolve_version(&Vec::new()).unwrap();
    assert_eq!(w.to_string(), "0.14.1");
    assert!(!args("0.14.1").wants_latest());
}

#[test]
fn resolve_latest_takes_maximum_tag() {
    let tags: Vec<String> = ["0.13.5", "0.14.1-rc.1", "0.14.1", "0.9.0", "not-a-version", "0.14.0"]
        .iter()
        .map(|s| s.to_string())
        .collect();
    let a = args("latest");
    assert!(a.wants_latest());
    assert_eq!(a.resolve_version(&tags).unwrap().to_string(), "0.14.1");
}

#[test]
fn resolve_latest_without_versions_fails() {
    let tags = vec!["nightly".to_string()];
    assert!(matches!(args("latest").resolve_version(&tags), Err(Error::NoRelease)));
    assert!(matches!(latest_of(&Vec::new()), Err(Error::NoRelease)));
}

#[test]
fn prerelease_precedence_is_semantic() {
    let a = parse_version("1.0.0-rc.2").unwrap();
    let b = parse_version("1.0.0-rc.10").unwrap();
    let c = parse_version("1.0.0").unwrap();
    assert!(version_less(&a, &b));
    assert!(!version_less(&b, &a));
    assert!(version_less(&b, &c));
    assert!(!version_less(&c, &a));
    let tags = vec!["1.0.0-rc.10".to_string(), "1.0.0-rc.2".to_string()];
    assert_eq!(latest_of(&tags).unwrap().to_string(), "1.0.0-rc.10");
}
