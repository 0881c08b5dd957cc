use sfx_launcher::archive::{build_report_archive, strip_base, WalkedEntry};
use sfx_launcher::errors::LauncherError;

fn dir(path: &str) -> WalkedEntry {
    WalkedEntry { path: path.to_string(), is_dir: true, content: Vec::new() }
}

fn file(path: &str, content: &[u8]) -> WalkedEntry {
    WalkedEntry { path: path.to_string(), is_dir: false, content: content.to_vec() }
}

fn decrypt_entry(bytes: &[u8], name: &str, password: &str) -> Vec<u8> {
    let cursor = std::io::Cursor::new(bytes.to_vec());
    let mut archive = zip::ZipArchive::new(cursor).expect("archive opens");
    let mut entry = archive
        .by_name_decrypt(name, password.as_bytes())
        .expect("entry decrypts");
    let mut buf = Vec::new();
    std::io::Read::read_to_end(&mut entry, &mut buf).expect("entry reads");
    buf
}

fn entry_names(bytes: &[u8]) -> Vec<String> {
    let cursor = std::io::Cursor::new(bytes.to_vec());
    let archive = zip::ZipArchive::new(cursor).expect("archive opens");
    archive.file_names().map(|n| n.to_string()).collect()
}

#[test]
fn strip_base_relativizes() {
    assert_eq!(
        strip_base("/tmp/ws/report", "/tmp/ws/report/out.csv"),
        Some("out.csv".to_string())
    );
    assert_eq!(
        strip_base("/tmp/ws/report", "/tmp/ws/report/sub/a.txt"),
        Some("sub/a.txt".to_string())
    );
    // The root itself, and anything outside it, is not below the base.
    assert_eq!(strip_base("/tmp/ws/report", "/tmp/ws/report"), None);
    assert_eq!(strip_base("/tmp/ws/report", "/tmp/other/x"), None);
}

#[test]
fn non_directory_source_is_refused() {
    let walked: Vec<WalkedEntry> = Vec::new();
    assert_eq!(
        build_report_archive(false, "/tmp/ws/report", &walked, "pw123"),
        Err(LauncherError::InvalidArchiveSource)
    );
}

#[test]
fn archive_holds_exactly_the_report_file() {
    // Scenario: the child wrote report/out.csv; the archive decrypts under
    // the password and holds exactly that file with matching content.
    let content = b"a,b\n1,2\n";
    let walked = vec![dir("/tmp/ws/report"), file("/tmp/ws/report/out.csv", content)];
    let bytes = build_report_archive(true, "/tmp/ws/report", &walked, "pw123").expect("archive");
    assert_eq!(entry_names(&bytes), vec!["out.csv".to_string()]);
    assert_eq!(decrypt_entry(&bytes, "out.csv", "pw123"), content.to_vec());
}

#[test]
fn wrong_password_does_not_decrypt() {
    let walked = vec![dir("/r"), file("/r/out.csv", b"secret")];
    let bytes = build_report_archive(true, "/r", &walked, "pw123").expect("archive");
    let cursor = std::io::Cursor::new(bytes);
    let mut archive = zip::ZipArchive::new(cursor).expect("archive opens");
    assert!(archive.by_name_decrypt("out.csv", b"wrong").is_err());
}

#[test]
fn nested_tree_is_archived_relative_to_root() {
    let walked = vec![
        dir("/base/report"),
        file("/base/report/out.csv", b"top"),
        dir("/base/report/sub"),
        file("/base/report/sub/deep.txt", b"deep"),
    ];
    let bytes = build_report_archive(true, "/base/report", &walked, "pw").expect("archive");
    let names = entry_names(&bytes);
    assert_eq!(
        names,
        vec!["out.csv".to_string(), "sub/".to_string(), "sub/deep.txt".to_string()]
    );
    assert_eq!(decrypt_entry(&bytes, "out.csv", "pw"), b"top".to_vec());
    assert_eq!(decrypt_entry(&bytes, "sub/deep.txt", "pw"), b"deep".to_vec());
}

#[test]
fn empty_report_archives_to_no_entries() {
    // Only the walked root itself: nothing lies below it, so nothing is
    // written and the archive holds no entries.
    let walked = vec![dir("/r")];
    let bytes = build_report_archive(true, "/r", &walked, "pw").expect("empty archive");
    assert_eq!(entry_names(&bytes).len(), 0);
}

#[test]
fn archive_does_not_depend_on_root_location() {
    // The same tree under two different roots is archived identically, entry
    // names and decoded contents alike.
    let t1 = vec![dir("/a/report"), file("/a/report/out.csv", b"a,b\n")];
    let t2 = vec![
        dir("/elsewhere/deep/report"),
        file("/elsewhere/deep/report/out.csv", b"a,b\n"),
    ];
    let b1 = build_report_archive(true, "/a/report", &t1, "pw").expect("first archive");
    let b2 = build_report_archive(true, "/elsewhere/deep/report", &t2, "pw").expect("second archive");
    assert_eq!(entry_names(&b1), entry_names(&b2));
    assert_eq!(
        decrypt_entry(&b1, "out.csv", "pw"),
        decrypt_entry(&b2, "out.csv", "pw")
    );
}

#[test]
fn duplicate_entry_names_fail_the_archive() {
    // The writer refuses a second entry under an existing name; the archiver
    // surfaces that as a write failure and hands out no bytes.
    let walked = vec![
        dir("/r"),
        file("/r/out.csv", b"first"),
        file("/r/out.csv", b"second"),
    ];
    assert_eq!(
        build_report_archive(true, "/r", &walked, "pw123"),
        Err(LauncherError::ArchiveWriteFailed)
    );
}

#[test]
fn archiving_twice_decrypts_to_identical_contents() {
    // Re-running the archiver over the same tree and password gives archives
    // whose framing bytes may differ (random salts) but whose decrypted
    // contents are byte-identical, entry for entry.
    let walked = vec![
        dir("/r"),
        file("/r/out.csv", b"a,b\n1,2\n"),
        dir("/r/sub"),
        file("/r/sub/log.txt", b"lines\nof\nlog\n"),
    ];
    let first = build_report_archive(true, "/r", &walked, "pw123").expect("first archive");
    let second = build_report_archive(true, "/r", &walked, "pw123").expect("second archive");
    assert_eq!(entry_names(&first), entry_names(&second));
    for name in ["out.csv", "sub/log.txt"] {
        assert_eq!(
            decrypt_entry(&first, name, "pw123"),
            decrypt_entry(&second, name, "pw123")
        );
    }
}
