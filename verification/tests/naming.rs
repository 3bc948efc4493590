//! Handle derivation and validation.

use workmux::config::{Config, WorktreeNaming};
use workmux::naming::{derive_handle, validate_handle};

fn default_config() -> Config {
    Config::default()
}

fn config_with_basename() -> Config {
    Config { worktree_naming: WorktreeNaming::Basename, ..Config::default() }
}

fn config_with_prefix(prefix: &str) -> Config {
    Config { worktree_prefix: Some(prefix.to_string()), ..Config::default() }
}

fn config_with_basename_and_prefix(prefix: &str) -> Config {
    Config {
        worktree_naming: WorktreeNaming::Basename,
        worktree_prefix: Some(prefix.to_string()),
        ..Config::default()
    }
}

#[test]
fn derive_handle_explicit_name() {
    let result = derive_handle("prj-4120/feature", Some("cool-feature"), &default_config()).unwrap();
    assert_eq!(result, "cool-feature");
}

#[test]
fn derive_handle_explicit_name_with_spaces() {
    let result = derive_handle("branch", Some("My Cool Feature"), &default_config()).unwrap();
    assert_eq!(result, "my-cool-feature");
}

#[test]
fn derive_handle_explicit_name_with_special_chars() {
    let result = derive_handle("branch", Some("Feature! @#$%"), &default_config()).unwrap();
    assert_eq!(result, "feature");
}

#[test]
fn derive_handle_explicit_name_bypasses_prefix() {
    let result = derive_handle("branch", Some("custom"), &config_with_prefix("web-")).unwrap();
    assert_eq!(result, "custom"); // NOT web-custom
}

#[test]
fn derive_handle_explicit_name_bypasses_basename() {
    let result = derive_handle("prj/feature", Some("custom"), &config_with_basename()).unwrap();
    assert_eq!(result, "custom"); // NOT feature
}

#[test]
fn derive_handle_branch_name_slugified() {
    let result = derive_handle("prj-4120/create-new-tags", None, &default_config()).unwrap();
    assert_eq!(result, "prj-4120-create-new-tags");
}

#[test]
fn derive_handle_simple_branch() {
    let result = derive_handle("main", None, &default_config()).unwrap();
    assert_eq!(result, "main");
}

#[test]
fn derive_handle_nested_branch() {
    let result = derive_handle("feature/auth/oauth", None, &default_config()).unwrap();
    assert_eq!(result, "feature-auth-oauth");
}

#[test]
fn derive_handle_basename_extracts_last_segment() {
    let result = derive_handle("prj-4120/feature", None, &config_with_basename()).unwrap();
    assert_eq!(result, "feature");
}

#[test]
fn derive_handle_basename_handles_trailing_slash() {
    let result = derive_handle("prj-4120/feature/", None, &config_with_basename()).unwrap();
    assert_eq!(result, "feature");
}

#[test]
fn derive_handle_basename_simple_branch_unchanged() {
    let result = derive_handle("main", None, &config_with_basename()).unwrap();
    assert_eq!(result, "main");
}

#[test]
fn derive_handle_basename_multiple_segments() {
    let result = derive_handle("prj/sub/feature", None, &config_with_basename()).unwrap();
    assert_eq!(result, "feature");
}

#[test]
fn derive_handle_prefix_applied() {
    let result = derive_handle("feature", None, &config_with_prefix("web-")).unwrap();
    assert_eq!(result, "web-feature");
}

#[test]
fn derive_handle_prefix_with_slash_branch() {
    let result = derive_handle("prj/feature", None, &config_with_prefix("api-")).unwrap();
    assert_eq!(result, "api-prj-feature");
}

#[test]
fn derive_handle_basename_and_prefix() {
    let result =
        derive_handle("prj-4120/feature", None, &config_with_basename_and_prefix("web-")).unwrap();
    assert_eq!(result, "web-feature");
}

#[test]
fn derive_handle_basename_and_prefix_simple_branch() {
    let result =
        derive_handle("feature", None, &config_with_basename_and_prefix("api-")).unwrap();
    assert_eq!(result, "api-feature");
}

#[test]
fn derive_handle_empty_explicit_name_fails() {
    let result = derive_handle("branch", Some(""), &default_config());
    assert!(result.is_err());
}

#[test]
fn validate_handle_empty_fails() {
    let result = validate_handle("");
    assert!(result.is_err());
}

#[test]
fn validate_handle_valid() {
    let result = validate_handle("my-feature");
    assert!(result.is_ok());
}

#[test]
fn validate_handle_with_numbers() {
    let result = validate_handle("feature-123");
    assert!(result.is_ok());
}

#[test]
fn derive_handle_is_deterministic() {
    let config = config_with_basename_and_prefix("web-");
    let first = derive_handle("prj-4120/feature", None, &config).unwrap();
    let second = derive_handle("prj-4120/feature", None, &config).unwrap();
    assert_eq!(first, second);
}

#[test]
fn validate_handle_traversal_fails() {
    assert!(validate_handle("a..b").is_err());
    assert!(validate_handle("/abs").is_err());
    assert!(validate_handle("has space").is_err());
}

#[test]
fn validate_handle_rejects_all_unicode_whitespace() {
    // Every character Rust's whitespace predicate recognizes must be
    // rejected, not only the common ASCII ones.
    for c in [
        '\u{000B}', '\u{000C}', '\u{0085}', '\u{00A0}', '\u{1680}', '\u{2003}', '\u{2028}',
        '\u{2029}', '\u{202F}', '\u{205F}', '\u{3000}',
    ] {
        assert!(c.is_whitespace());
        let handle = format!("a{}b", c);
        assert!(validate_handle(&handle).is_err());
    }
}

#[test]
fn worktree_naming_full_preserves_branch() {
    assert_eq!(WorktreeNaming::Full.derive_name("prj/feature"), "prj/feature");
}

#[test]
fn worktree_naming_basename_extracts_last() {
    assert_eq!(WorktreeNaming::Basename.derive_name("prj/feature"), "feature");
}

#[test]
fn worktree_naming_basename_handles_trailing_slash() {
    assert_eq!(WorktreeNaming::Basename.derive_name("prj/feature/"), "feature");
}

#[test]
fn worktree_naming_basename_simple_branch() {
    assert_eq!(WorktreeNaming::Basename.derive_name("main"), "main");
}
