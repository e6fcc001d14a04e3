use rime_api::text::{contains_nul, str_chars_eq};
use rime_api::{default_shared_data_dir, default_user_data_dir, user_data_dir_under};

#[test]
fn shared_data_dir_is_the_platform_default() {
    assert_eq!(default_shared_data_dir(), "/usr/share/rime-data/");
}

#[test]
fn user_data_dir_joins_home_directory() {
    assert_eq!(
        user_data_dir_under("/home/someone"),
        "/home/someone/.local/share/fcitx5/rime"
    );
}

#[test]
fn default_user_data_dir_is_empty_or_under_home() {
    let dir = default_user_data_dir();
    assert!(dir.is_empty() || dir.ends_with("/.local/share/fcitx5/rime"));
}

#[test]
fn nul_scan_finds_embedded_nul() {
    assert!(!contains_nul("plain"));
    assert!(!contains_nul(""));
    assert!(contains_nul("pla\0in"));
    assert!(contains_nul("\0"));
}

#[test]
fn char_comparison_matches_equality() {
    assert!(str_chars_eq("deploy", "deploy"));
    assert!(!str_chars_eq("deploy", "deplox"));
    assert!(!str_chars_eq("deploy", "deplo"));
    assert!(str_chars_eq("", ""));
}
