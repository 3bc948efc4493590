//! The text buffer and the window-status decisions.

use workmux::config::Config;
use workmux::docs_text::TextBuffer;
use workmux::workflow::hooks::{hook_workdir, hooks_for_phase, HookPhase};
use workmux::status::{should_skip_status_update, status_action, SetWindowStatusCommand, StatusAction};

#[test]
fn buffer_collects_plain_and_code() {
    let mut buf = TextBuffer::new();
    assert!(buf.is_empty());
    buf.push_text("see ");
    buf.push_code("cargo test");
    buf.push_text(" for details");
    assert!(!buf.is_empty());
    assert_eq!(buf.plain_text(), "see `cargo test` for details");
}

#[test]
fn buffer_styles_apply_to_new_text() {
    let mut buf = TextBuffer::new();
    buf.bold = true;
    buf.push_text("strong");
    assert!(buf.segments[0].bold);
    assert!(!buf.segments[0].code);
    buf.push_text("");
    assert_eq!(buf.segments.len(), 1);
}

#[test]
fn buffer_link_url_appends_target() {
    let mut buf = TextBuffer::new();
    buf.push_text("docs");
    buf.push_link_url("https://example.test");
    assert_eq!(buf.plain_text(), "docs (https://example.test)");
    let mut buf2 = TextBuffer::new();
    buf2.push_text("anchor");
    buf2.push_link_url("#section");
    assert_eq!(buf2.plain_text(), "anchor");
}

#[test]
fn buffer_clear_resets_everything() {
    let mut buf = TextBuffer::new();
    buf.bold = true;
    buf.push_text("x");
    buf.clear();
    assert!(buf.is_empty());
    assert!(!buf.bold);
    assert_eq!(buf.plain_text(), "");
}

#[test]
fn buffer_whitespace_only_counts_as_empty() {
    let mut buf = TextBuffer::new();
    buf.push_text("   ");
    buf.push_text("\n");
    assert!(buf.is_empty());
}

#[test]
fn waiting_skipped_for_idle_prompt_only() {
    assert!(should_skip_status_update(&SetWindowStatusCommand::Waiting, Some("idle_prompt")));
    assert!(!should_skip_status_update(&SetWindowStatusCommand::Waiting, Some("permission")));
    assert!(!should_skip_status_update(&SetWindowStatusCommand::Waiting, None));
    assert!(!should_skip_status_update(&SetWindowStatusCommand::Done, Some("idle_prompt")));
}

#[test]
fn announce_hooks_run_in_invocation_directory() {
    let mut config = Config::default();
    config.announce_hooks.push("echo soon".to_string());
    config.post_create_hooks.push("make setup".to_string());
    assert_eq!(hooks_for_phase(&config, HookPhase::Announce), vec!["echo soon".to_string()]);
    assert_eq!(hook_workdir(HookPhase::Announce, "/wt", "/invocation"), "/invocation");
    assert_eq!(hook_workdir(HookPhase::PostCreate, "/wt", "/invocation"), "/wt");
    assert_eq!(hook_workdir(HookPhase::PreDelete, "/wt", "/invocation"), "/wt");
}

#[test]
fn status_actions_per_command() {
    assert_eq!(status_action(&SetWindowStatusCommand::Working), StatusAction::Show);
    assert_eq!(status_action(&SetWindowStatusCommand::Waiting), StatusAction::ShowWithAutoClear);
    assert_eq!(status_action(&SetWindowStatusCommand::Done), StatusAction::ShowWithAutoClear);
    assert_eq!(status_action(&SetWindowStatusCommand::Clear), StatusAction::Unset);
}
