use unvet::registry::{
    full_registry_key, normalize_registry_dir_value, owned_by_target, parse_registry_query_line,
    parse_uninstall_args, path_subkey, plan_file_removal, plan_key_removal, registry_value_matches_target,
    FileRemoval, KeyRemoval, UninstallOptions, UninstallSummary,
};

#[test]
fn directory_values_end_with_a_backslash() {
    assert_eq!(normalize_registry_dir_value(r"C:\UNVET"), r"C:\UNVET\");
    assert_eq!(normalize_registry_dir_value(r"C:\UNVET\"), r"C:\UNVET\");
    assert_eq!(normalize_registry_dir_value(""), r"\");
}

#[test]
fn query_lines_yield_their_data() {
    assert_eq!(
        parse_registry_query_line(r"    (Default)    REG_SZ    C:\Program Files\UNVET\"),
        Some(r"C:\Program Files\UNVET\".to_owned())
    );
    assert_eq!(parse_registry_query_line("    Path    REG_SZ    C:\\A   B\\"), Some("C:\\A B\\".to_owned()));
    assert_eq!(parse_registry_query_line(r"HKEY_CURRENT_USER\Software\Freetrack\FreeTrackClient"), None);
    assert_eq!(parse_registry_query_line("   "), None);
    assert_eq!(parse_registry_query_line("    (Default)    REG_SZ"), None);
    assert_eq!(parse_registry_query_line("    Path    SZ    value"), None);
    assert_eq!(parse_registry_query_line("single"), None);
}

#[test]
fn registry_values_compare_after_folding() {
    assert!(registry_value_matches_target(" c:/program files/unvet ", r"C:\Program Files\UNVET\"));
    assert!(registry_value_matches_target(r"C:\UNVET\", r"c:\unvet"));
    assert!(!registry_value_matches_target(r"C:\Other\", r"C:\UNVET\"));
}

#[test]
fn keys_are_owned_when_a_value_points_here() {
    let values = vec![None, Some(r"D:\Elsewhere\".to_owned()), Some("c:/unvet".to_owned())];
    assert!(owned_by_target(&values, r"C:\UNVET\"));
    assert!(!owned_by_target(&vec![None, None], r"C:\UNVET\"));
    assert!(!owned_by_target(&Vec::new(), r"C:\UNVET\"));
}

#[test]
fn removal_decisions() {
    assert_eq!(plan_key_removal(false, true, false), KeyRemoval::NotFound);
    assert_eq!(plan_key_removal(true, false, false), KeyRemoval::NotOwned);
    assert_eq!(plan_key_removal(true, true, true), KeyRemoval::WouldRemove);
    assert_eq!(plan_key_removal(true, true, false), KeyRemoval::Remove);
    assert_eq!(plan_file_removal(false, false), FileRemoval::Missing);
    assert_eq!(plan_file_removal(true, true), FileRemoval::WouldRemove);
    assert_eq!(plan_file_removal(true, false), FileRemoval::Remove);
}

#[test]
fn key_names() {
    assert_eq!(full_registry_key(r"Software\Freetrack\FreeTrackClient"), r"HKCU\Software\Freetrack\FreeTrackClient");
    assert_eq!(path_subkey(r"HKCU\X"), r"HKCU\X\Path");
}

#[test]
fn arguments_are_read_in_order() {
    let args = |v: &[&str]| v.iter().map(|s| s.to_string()).collect::<Vec<String>>();
    assert_eq!(parse_uninstall_args(&args(&[])), Ok(UninstallOptions { dry_run: false, help: false }));
    assert_eq!(
        parse_uninstall_args(&args(&["--dry-run", "/?"])),
        Ok(UninstallOptions { dry_run: true, help: true })
    );
    assert_eq!(parse_uninstall_args(&args(&["-h"])), Ok(UninstallOptions { dry_run: false, help: true }));
    assert_eq!(parse_uninstall_args(&args(&["--dry-run", "--force", "--bogus"])), Err("--force".to_owned()));
}

#[test]
fn summary_counts_outcomes() {
    let mut summary = UninstallSummary::new();
    summary.record_key(Some(KeyRemoval::Remove));
    summary.record_key(Some(KeyRemoval::WouldRemove));
    summary.record_key(Some(KeyRemoval::NotOwned));
    summary.record_key(None);
    summary.record_file(Some(FileRemoval::Missing));
    summary.record_file(Some(FileRemoval::Remove));
    assert!(summary.had_error);
    assert_eq!(
        summary.summary_line(),
        "[summary] registry removed: 2, registry skipped: 1, files removed: 1, files missing: 1"
    );
}
