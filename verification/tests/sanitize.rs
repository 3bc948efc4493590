//! Cleaning generated branch-name suggestions.

use workmux::naming::sanitize_branch_name;

#[test]
fn sanitize_branch_name_simple() {
    assert_eq!(sanitize_branch_name("add-user-auth"), "add-user-auth");
}

#[test]
fn sanitize_branch_name_with_backticks() {
    assert_eq!(sanitize_branch_name("`add-user-auth`"), "add-user-auth");
}

#[test]
fn sanitize_branch_name_with_triple_backticks() {
    assert_eq!(sanitize_branch_name("```\nadd-user-auth\n```"), "add-user-auth");
}

#[test]
fn sanitize_branch_name_multiline() {
    assert_eq!(sanitize_branch_name("add-user-auth\nsome explanation"), "add-user-auth");
}

#[test]
fn sanitize_branch_name_with_spaces() {
    assert_eq!(sanitize_branch_name("add user auth"), "add-user-auth");
}

#[test]
fn sanitize_branch_name_with_special_chars() {
    assert_eq!(sanitize_branch_name("Add User Auth!"), "add-user-auth");
}

#[test]
fn sanitize_branch_name_empty() {
    assert_eq!(sanitize_branch_name(""), "");
}

#[test]
fn sanitize_branch_name_whitespace_only() {
    assert_eq!(sanitize_branch_name("   "), "");
}
