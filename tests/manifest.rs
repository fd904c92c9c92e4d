use casaos_installer::manifest::{
    build_manifest, manifest_text, parse_manifest, removal_plan, WalkEntry,
};

fn entry(path: &str, is_file: bool) -> WalkEntry {
    WalkEntry { path: path.to_string(), is_file }
}

#[test]
fn manifest_lists_files_under_sysroot() {
    let root = "/tmp/stage/build/sysroot";
    let entries = vec![
        entry("/tmp/stage/build/sysroot", false),
        entry("/tmp/stage/build/sysroot/a", true),
        entry("/tmp/stage/build/sysroot/b", false),
        entry("/tmp/stage/build/sysroot/b/c", true),
    ];
    let manifest = build_manifest(root, &entries);
    assert_eq!(manifest, vec!["/a".to_string(), "/b/c".to_string()]);
    let text = manifest_text(&manifest);
    assert_eq!(text, "/a\n/b/c\n");
    assert_eq!(text.lines().count(), 2);
}

#[test]
fn manifest_skips_paths_outside_root() {
    let root = "/s/sysroot";
    let entries = vec![
        entry("/s/sysroot2/x", true),
        entry("/s/sysrootx", true),
        entry("/s/sysroot/", true),
        entry("/s/sysroot/usr/bin/casaos", true),
    ];
    assert_eq!(build_manifest(root, &entries), vec!["/usr/bin/casaos".to_string()]);
}

#[test]
fn empty_walk_gives_empty_manifest() {
    let manifest = build_manifest("/s", &Vec::new());
    assert!(manifest.is_empty());
    assert_eq!(manifest_text(&manifest), "");
    assert!(parse_manifest("").is_empty());
}

#[test]
fn manifest_text_round_trips() {
    let paths = vec![
        "/etc/casaos/gateway.ini".to_string(),
        "/usr/bin/casaos".to_string(),
        "/var/lib/casaos/ü.db".to_string(),
    ];
    assert_eq!(parse_manifest(&manifest_text(&paths)), paths);
}

#[test]
fn parse_skips_blank_lines_and_reads_last_line() {
    assert_eq!(
        parse_manifest("\n/a\n\n/b"),
        vec!["/a".to_string(), "/b".to_string()]
    );
}

#[test]
fn removal_covers_manifest_then_legacy_then_manifest_file() {
    let manifest = parse_manifest("/a\n/b/c\n");
    let plan = removal_plan(&manifest);
    assert_eq!(plan[0], "/a");
    assert_eq!(plan[1], "/b/c");
    assert_eq!(plan.len(), 2 + 15 + 2);
    assert!(plan.contains(&"/etc/casaos".to_string()));
    assert!(plan.contains(&"/usr/bin/casaos-uninstall".to_string()));
    assert_eq!(plan[plan.len() - 2], "/var/lib/casaos/manifest");
    assert_eq!(plan.last().unwrap(), "/var/lib/casaos");
}

#[test]
fn manifest_lists_each_destination_once() {
    let entries = vec![
        entry("/s/sysroot/a", true),
        entry("/s/sysroot/b", true),
        entry("/s/sysroot/a", true),
    ];
    assert_eq!(
        build_manifest("/s/sysroot", &entries),
        vec!["/a".to_string(), "/b".to_string()]
    );
}
