use unvet::clean_room::{deny_list, hit_report_line, is_scanned_extension, scan_content, DenyRule};
use unvet::release_package::{
    archive_directory_entry, archive_entry_name, archive_file_name, missing_artifacts_error, optional_root_files,
    package_name, requested_version, required_release_files, version_from_desktop_config,
};

#[test]
fn scanned_extensions_ignore_case() {
    assert!(is_scanned_extension("rs"));
    assert!(is_scanned_extension("TOML"));
    assert!(is_scanned_extension("Hpp"));
    assert!(!is_scanned_extension("md"));
    assert!(!is_scanned_extension(""));
}

#[test]
fn clean_room_scan_reports_matching_lines() {
    let content = "fn main() {}\n// based on the trackir sdk docs\n  #include <NPClient.h>  \r\nclean line\nDecompiled here";
    let hits = scan_content(content, &deny_list()).expect("rules compile");
    let summary: Vec<(usize, String, String)> =
        hits.iter().map(|h| (h.line, h.reason.clone(), h.text.clone())).collect();
    assert_eq!(
        summary,
        vec![
            (2, "proprietary SDK reference".to_owned(), "// based on the trackir sdk docs".to_owned()),
            (3, "SDK header reference".to_owned(), "#include <NPClient.h>".to_owned()),
            (5, "reverse-engineering source reference".to_owned(), "Decompiled here".to_owned()),
        ]
    );
    assert_eq!(
        hit_report_line("crates/x.rs", &hits[1]),
        "- crates/x.rs:3 [SDK header reference] #include <NPClient.h>"
    );
}

#[test]
fn clean_room_scan_refuses_broken_rules() {
    let rules = vec![DenyRule { pattern: "(".to_owned(), reason: "broken".to_owned() }];
    assert_eq!(scan_content("", &rules).err(), Some("invalid deny-list pattern: (".to_owned()));
    assert!(scan_content("", &deny_list()).unwrap().is_empty());
}

#[test]
fn package_naming() {
    assert_eq!(requested_version(Some(" 1.2.3 ".to_owned())), Some(" 1.2.3 ".to_owned()));
    assert_eq!(requested_version(Some("  ".to_owned())), None);
    assert_eq!(requested_version(None), None);
    assert_eq!(package_name("1.4.1"), "unvet-1.4.1");
    assert_eq!(archive_file_name("unvet-1.4.1"), "unvet-1.4.1.zip");
    assert_eq!(
        archive_entry_name(&vec!["unvet-1.4.1".to_owned(), "bin".to_owned(), "a.dll".to_owned()]),
        "unvet-1.4.1/bin/a.dll"
    );
    assert_eq!(archive_entry_name(&Vec::new()), "");
    assert_eq!(archive_directory_entry("unvet-1.4.1"), Some("unvet-1.4.1/".to_owned()));
    assert_eq!(archive_directory_entry(""), None);
    assert_eq!(required_release_files().len(), 7);
    assert_eq!(optional_root_files(), vec!["README.md".to_owned(), "LICENSE".to_owned(), "THIRD_PARTY_NOTICES.md".to_owned()]);
}

#[test]
fn desktop_config_version() {
    assert_eq!(version_from_desktop_config("{\"version\": \" 1.4.1 \"}", "conf.json"), Ok("1.4.1".to_owned()));
    assert_eq!(
        version_from_desktop_config("{\"version\": \"  \"}", "conf.json"),
        Err("version is missing in conf.json".to_owned())
    );
    assert_eq!(
        version_from_desktop_config("{\"version\": 3}", "conf.json"),
        Err("version is missing in conf.json".to_owned())
    );
    assert_eq!(
        version_from_desktop_config("not json", "conf.json"),
        Err("failed to parse tauri config: conf.json".to_owned())
    );
}

#[test]
fn missing_artifacts_are_listed_one_per_line() {
    assert_eq!(missing_artifacts_error(&Vec::new()), None);
    assert_eq!(
        missing_artifacts_error(&vec!["a.exe".to_owned(), "b.dll".to_owned()]),
        Some("required release artifacts are missing:\na.exe\nb.dll".to_owned())
    );
}
