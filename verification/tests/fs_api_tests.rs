use tauri_cli::fs_api::{allowlist_allows, decode_binary_contents, Cmd, FsApiError};
use tauri_cli::settings_file::{get_settings_path, Settings};

fn s(x: &str) -> String {
    x.to_string()
}

#[test]
fn binary_payload_decodes_through_base64() {
    let bytes = decode_binary_contents("aGk=").expect("valid base64");
    assert_eq!(bytes, b"hi".to_vec());

    let bytes = decode_binary_contents("AAEC").expect("valid base64");
    assert_eq!(bytes, vec![0u8, 1, 2]);
}

#[test]
fn empty_payload_decodes_to_no_bytes() {
    assert_eq!(decode_binary_contents("").unwrap(), Vec::<u8>::new());
}

#[test]
fn invalid_payload_is_rejected() {
    let e = decode_binary_contents("!!not-base64!!").unwrap_err();
    assert!(matches!(e, FsApiError::Base64Decode));
    assert!(e.message().contains("base64"));
}

#[test]
fn allowlist_grants_and_denies_by_first_match() {
    let al = vec![
        (s("readTextFile"), true),
        (s("writeFile"), false),
        (s("writeFile"), true),
    ];
    assert!(allowlist_allows(&al, "readTextFile"));
    assert!(!allowlist_allows(&al, "writeFile"));
    assert!(!allowlist_allows(&al, "readDir"));
    assert!(!allowlist_allows(&vec![], "readTextFile"));
}

#[test]
fn commands_are_gated_by_their_capability_name() {
    let cmd = Cmd::ReadTextFile {
        path: s("a.txt"),
        options: None,
        callback: s("ok"),
        error: s("err"),
    };
    assert_eq!(cmd.api_name(), "readTextFile");

    let cmd = Cmd::ResolvePath {
        path: s("a.txt"),
        directory: None,
        callback: s("ok"),
        error: s("err"),
    };
    assert_eq!(cmd.api_name(), "pathApi");
}

#[test]
fn settings_path_is_fixed_under_the_app_directory() {
    assert_eq!(
        get_settings_path("/home/user/.myapp"),
        "/home/user/.myapp/.tauri-settings.json"
    );
}

#[test]
fn default_settings_decide_nothing() {
    let st = Settings::default();
    assert!(st.allow_notification.is_none());
}
