use tauri_cli::package_type::PackageType;
use tauri_cli::settings::{BuildError, SettingsBuilder};

fn names(xs: &[&str]) -> Vec<String> {
    xs.iter().map(|x| x.to_string()).collect()
}

#[test]
fn registry_maps_short_names() {
    assert_eq!(PackageType::from_short_name("osx"), Some(PackageType::OsxBundle));
    assert_eq!(PackageType::from_short_name("dmg"), Some(PackageType::Dmg));
    assert_eq!(PackageType::from_short_name("deb"), Some(PackageType::Deb));
    assert_eq!(PackageType::from_short_name("rpm"), Some(PackageType::Rpm));
    assert_eq!(PackageType::from_short_name("appimage"), Some(PackageType::AppImage));
    assert_eq!(PackageType::from_short_name("msi"), Some(PackageType::WindowsMsi));
    assert_eq!(PackageType::from_short_name("zip"), None);
    assert_eq!(PackageType::Dmg.short_name(), "dmg");
}

#[test]
fn none_sentinel_stops_processing_even_before_invalid_names() {
    let s = SettingsBuilder::new()
        .targets(names(&["dmg", "none", "garbage", "also-bad"]))
        .build()
        .expect("names after the sentinel are ignored");
    assert_eq!(s.package_types, Some(vec![PackageType::Dmg]));
}

#[test]
fn none_sentinel_first_means_no_formats() {
    let s = SettingsBuilder::new().targets(names(&["none"])).build().unwrap();
    assert_eq!(s.package_types, Some(vec![]));
}

#[test]
fn unknown_format_fails_with_the_offending_token() {
    let r = SettingsBuilder::new().targets(names(&["deb", "zipp", "dmg"])).build();
    match r {
        Err(BuildError::UnsupportedFormat(tok)) => assert_eq!(tok, "zipp"),
        _ => panic!("an unknown format name must fail the build"),
    }
}

#[test]
fn empty_request_resolves_to_no_formats() {
    let s = SettingsBuilder::new().targets(names(&[])).build().unwrap();
    assert_eq!(s.package_types, Some(vec![]));
}

#[test]
fn absent_request_means_platform_default() {
    let s = SettingsBuilder::new().build().unwrap();
    assert!(s.package_types.is_none());
}

#[test]
fn builder_flags_carry_into_settings() {
    let mut b = SettingsBuilder::new();
    b.binary_name = "App".to_string();
    b.version = "1.2.0".to_string();
    b.binary_arch = "x86_64".to_string();
    let s = b.debug().verbose().build().unwrap();
    assert!(s.debug);
    assert!(s.verbose);
    assert_eq!(s.main_binary_name(), "App");
    assert_eq!(s.version_string(), "1.2.0");
    assert_eq!(s.binary_arch(), "x86_64");
    assert!(s.is_verbose());
}

#[test]
fn build_error_messages_name_the_failure() {
    let e = BuildError::UnsupportedFormat("zipp".to_string());
    assert!(e.message().contains("zipp"));
    let e = BuildError::ProcessExecution("exit status 2".to_string());
    assert!(e.message().contains("exit status 2"));
    let e = BuildError::Io("rename failed".to_string());
    assert!(e.message().contains("rename failed"));
}
