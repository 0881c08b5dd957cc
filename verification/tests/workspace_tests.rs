use sfx_launcher::errors::LauncherError;
use sfx_launcher::selector::executable_suffixes;
use sfx_launcher::workspace::{
    build_unpack_plan, fresh_workspace_name, join_path, parent_dir, select_launch_target,
    u64_to_hex, Asset, AssetSet,
};

fn asset(rel_path: &str, content: &[u8]) -> Asset {
    Asset { rel_path: rel_path.to_string(), content: content.to_vec() }
}

#[test]
fn hex_rendering() {
    assert_eq!(u64_to_hex(0), "0");
    assert_eq!(u64_to_hex(9), "9");
    assert_eq!(u64_to_hex(10), "a");
    assert_eq!(u64_to_hex(16), "10");
    assert_eq!(u64_to_hex(255), "ff");
    assert_eq!(u64_to_hex(0xdead_beef), "deadbeef");
    assert_eq!(u64_to_hex(u64::MAX), "ffffffffffffffff");
}

#[test]
fn workspace_names_are_hex() {
    for _ in 0..16 {
        let name = fresh_workspace_name();
        assert!(!name.is_empty());
        assert!(name.len() <= 16);
        assert!(name.chars().all(|c| c.is_ascii_hexdigit() && !c.is_ascii_uppercase()));
    }
}

#[test]
fn join_and_parent() {
    assert_eq!(join_path("/tmp/ws", "report"), "/tmp/ws/report");
    assert_eq!(parent_dir("a/b/c.txt"), "a/b");
    assert_eq!(parent_dir("c.txt"), "");
    assert_eq!(parent_dir("/tmp/ws/report/out.csv"), "/tmp/ws/report");
}

#[test]
fn unpack_plan_marks_executables() {
    // Scenario: one master executable and one data file, unpacked below the
    // workspace, only the executable made executable.
    let assets = AssetSet {
        files: vec![asset("master.elf", b"\x7fELF"), asset("data.txt", b"hello")],
    };
    let suffixes = executable_suffixes(false);
    let plan = build_unpack_plan("/tmp/ws", &assets, &suffixes);
    assert_eq!(plan.len(), 2);
    assert_eq!(plan[0].dest_path, "/tmp/ws/master.elf");
    assert!(plan[0].make_executable);
    assert_eq!(plan[1].dest_path, "/tmp/ws/data.txt");
    assert!(!plan[1].make_executable);
}

#[test]
fn unpack_plan_keeps_nested_paths() {
    let assets = AssetSet { files: vec![asset("sub/dir/tool.sh", b"#!/bin/sh")] };
    let suffixes = executable_suffixes(false);
    let plan = build_unpack_plan("/tmp/ws", &assets, &suffixes);
    assert_eq!(plan[0].dest_path, "/tmp/ws/sub/dir/tool.sh");
    assert!(plan[0].make_executable);
}

#[test]
fn launch_target_is_the_master_file() {
    // Scenario: master.elf plus a data file; the launch target is exactly the
    // master file's unpacked path.
    let assets = AssetSet {
        files: vec![asset("master.elf", b"\x7fELF"), asset("data.txt", b"hello")],
    };
    let suffixes = executable_suffixes(false);
    let target = select_launch_target("/tmp/ws", &assets, &suffixes);
    assert_eq!(target, Ok("/tmp/ws/master.elf".to_string()));
}

#[test]
fn launch_target_ambiguous_without_master() {
    let assets = AssetSet { files: vec![asset("a.sh", b"1"), asset("b.sh", b"2")] };
    let suffixes = executable_suffixes(false);
    assert_eq!(
        select_launch_target("/tmp/ws", &assets, &suffixes),
        Err(LauncherError::AmbiguousExecutable)
    );
}

#[test]
fn error_messages() {
    assert_eq!(
        LauncherError::NoExecutableFound.message(),
        "no executable file found"
    );
    assert_eq!(
        LauncherError::AmbiguousExecutable.message(),
        "only one executable file is allowed; use a master prefix or unpack-only mode"
    );
    assert_eq!(
        LauncherError::InvalidArchiveSource.message(),
        "source is not a directory"
    );
}
