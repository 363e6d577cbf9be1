use wasmedgeup::archive::{check_entries, entry_within};
use wasmedgeup::error::Error;
use wasmedgeup::path_entry::{
    add_entry, add_to_path_value, add_to_rc, export_line, remove_entry, remove_from_path_value,
    remove_from_rc,
};

#[test]
fn path_value_add_is_idempotent() {
    let once = add_to_path_value("C:\\Windows;C:\\Tools", "C:\\wasmedge\\bin").unwrap();
    assert_eq!(once, "C:\\Windows;C:\\Tools;C:\\wasmedge\\bin");
    let twice = add_to_path_value(&once, "C:\\wasmedge\\bin").unwrap();
    assert_eq!(twice, once);
    assert_eq!(twice.split(';').filter(|e| *e == "C:\\wasmedge\\bin").count(), 1);
    assert_eq!(add_to_path_value("", "D:\\bin").unwrap(), "D:\\bin");
}

#[test]
fn path_value_membership_is_by_entry() {
    let r = add_to_path_value("C:\\wasmedge\\bin2", "C:\\wasmedge\\bin").unwrap();
    assert_eq!(r, "C:\\wasmedge\\bin2;C:\\wasmedge\\bin");
}

#[test]
fn path_value_rejects_bad_entries() {
    assert!(matches!(add_to_path_value("a", ""), Err(Error::InvalidPath { .. })));
    assert!(matches!(add_to_path_value("a", "b;c"), Err(Error::InvalidPath { .. })));
}

#[test]
fn path_value_remove() {
    assert_eq!(remove_from_path_value("a;b;a;c", "a"), "b;c");
    assert_eq!(remove_from_path_value("a;b;c", "d"), "a;b;c");
    assert_eq!(remove_from_path_value("", "d"), "");
    assert_eq!(remove_entry("x:y", "y", ':'), "x");
}

#[test]
fn rc_add_is_idempotent_and_removable() {
    let dir = "/home/u/.wasmedge/bin";
    assert_eq!(export_line(dir), "export PATH=\"/home/u/.wasmedge/bin:$PATH\"");
    let start = "alias ll='ls -l'";
    let once = add_to_rc(start, dir).unwrap();
    assert_eq!(once, format!("{}\n{}", start, export_line(dir)));
    let twice = add_to_rc(&once, dir).unwrap();
    assert_eq!(twice, once);
    assert_eq!(twice.lines().filter(|l| *l == export_line(dir)).count(), 1);
    assert_eq!(remove_from_rc(&twice, dir), start);
    assert_eq!(remove_from_rc(start, dir), start);
    assert_eq!(add_entry("", "x", '\n').unwrap(), "x");
}

#[test]
fn archive_entries_inside_are_accepted() {
    assert!(entry_within("WasmEdge-0.14.1-Linux/bin/wasmedge"));
    assert!(entry_within("a/../b"));
    assert!(entry_within("./a/./b/"));
    assert!(entry_within(""));
    let names = vec!["d/".to_string(), "d/bin/wasmedge".to_string()];
    assert_eq!(check_entries(&names), Ok(()));
}

#[test]
fn archive_entries_outside_are_refused() {
    assert!(!entry_within("../evil"));
    assert!(!entry_within("a/../../evil"));
    assert!(!entry_within("/etc/passwd"));
    assert!(!entry_within("C:/evil"));
    assert!(!entry_within("a\\..\\..\\evil"));
    let names = vec!["d/ok".to_string(), "d/../../x".to_string(), "../y".to_string()];
    assert_eq!(check_entries(&names), Err(Error::Extract { entry: "d/../../x".to_string() }));
}
