//! Spec generation, template rendering, and expansion conflicts.

use workmux::errors::WorkmuxError;
use workmux::template::{
    check_expansion_conflicts, determine_foreach_matrix, generate_worktree_specs,
    parse_foreach_matrix, render, usize_to_string,
};

#[test]
fn expansion_three_agents_in_order() {
    let agents = vec!["a".to_string(), "b".to_string(), "c".to_string()];
    let specs = generate_worktree_specs("base", &agents, None, None, None).unwrap();
    assert_eq!(specs.len(), 3);
    assert_eq!(specs[0].agent.as_deref(), Some("a"));
    assert_eq!(specs[1].agent.as_deref(), Some("b"));
    assert_eq!(specs[2].agent.as_deref(), Some("c"));
    assert_eq!(specs[0].branch_name, "base-a");
    assert_eq!(specs[1].branch_name, "base-b");
    assert_eq!(specs[2].branch_name, "base-c");
}

#[test]
fn expansion_count_above_one_with_two_agents_is_ambiguous() {
    let agents = vec!["a".to_string(), "b".to_string()];
    let result = generate_worktree_specs("base", &agents, Some(2), None, None);
    assert!(matches!(result, Err(WorkmuxError::AmbiguousExpansionRequest(_))));
}

#[test]
fn expansion_single_spec_keeps_base_name() {
    let agents: Vec<String> = vec![];
    let specs = generate_worktree_specs("feature/login", &agents, None, None, None).unwrap();
    assert_eq!(specs.len(), 1);
    assert_eq!(specs[0].branch_name, "feature/login");
    assert!(specs[0].agent.is_none());
}

#[test]
fn expansion_count_replicates_with_index() {
    let agents: Vec<String> = vec![];
    let specs = generate_worktree_specs("exp", &agents, Some(3), None, None).unwrap();
    assert_eq!(specs.len(), 3);
    assert_eq!(specs[0].branch_name, "exp-1");
    assert_eq!(specs[1].branch_name, "exp-2");
    assert_eq!(specs[2].branch_name, "exp-3");
}

#[test]
fn expansion_count_zero_is_empty_error() {
    let agents: Vec<String> = vec![];
    let result = generate_worktree_specs("base", &agents, Some(0), None, None);
    assert!(matches!(result, Err(WorkmuxError::EmptyExpansionResult)));
}

#[test]
fn expansion_empty_matrix_is_empty_error() {
    let agents: Vec<String> = vec![];
    let rows: Vec<Vec<(String, String)>> = vec![];
    let result = generate_worktree_specs("base", &agents, None, Some(&rows), None);
    assert!(matches!(result, Err(WorkmuxError::EmptyExpansionResult)));
}

#[test]
fn expansion_matrix_rows_dominate_agents() {
    let agents = vec!["a".to_string(), "b".to_string()];
    let rows = vec![
        vec![("os".to_string(), "linux".to_string())],
        vec![("os".to_string(), "mac".to_string())],
        vec![("os".to_string(), "win".to_string())],
    ];
    let specs = generate_worktree_specs("base", &agents, None, Some(&rows), None).unwrap();
    assert_eq!(specs.len(), 3);
    assert!(specs.iter().all(|s| s.agent.is_none()));
}

#[test]
fn expansion_matrix_row_feeds_template() {
    let agents: Vec<String> = vec![];
    let rows = vec![
        vec![("os".to_string(), "linux".to_string())],
        vec![("os".to_string(), "mac".to_string())],
    ];
    let specs =
        generate_worktree_specs("base", &agents, None, Some(&rows), Some("{{branch}}-{{os}}"))
            .unwrap();
    assert_eq!(specs[0].branch_name, "base-linux");
    assert_eq!(specs[1].branch_name, "base-mac");
}

#[test]
fn expansion_template_with_agent_and_index() {
    let agents = vec!["red".to_string(), "blue".to_string()];
    let specs =
        generate_worktree_specs("job", &agents, None, None, Some("{{ branch }}-{{ agent }}-{{ index }}"))
            .unwrap();
    assert_eq!(specs[0].branch_name, "job-red-1");
    assert_eq!(specs[1].branch_name, "job-blue-2");
}

#[test]
fn expansion_template_undefined_variable_fails() {
    let agents: Vec<String> = vec![];
    let result = generate_worktree_specs("base", &agents, None, None, Some("{{ missing }}"));
    assert!(matches!(result, Err(WorkmuxError::UndefinedVariable(_))));
}

#[test]
fn render_substitutes_first_binding() {
    let ctx = vec![
        ("k".to_string(), "first".to_string()),
        ("k".to_string(), "second".to_string()),
    ];
    assert_eq!(render("x {{k}} y", &ctx).unwrap(), "x first y");
}

#[test]
fn render_keeps_unclosed_braces_literal() {
    let ctx: Vec<(String, String)> = vec![];
    assert_eq!(render("a {{ oops", &ctx).unwrap(), "a {{ oops");
}

#[test]
fn render_reports_missing_variable() {
    let ctx = vec![("a".to_string(), "1".to_string())];
    let err = render("{{ b }}", &ctx).unwrap_err();
    assert!(matches!(err, WorkmuxError::UndefinedVariable(_)));
}

#[test]
fn decimal_notation() {
    assert_eq!(usize_to_string(0), "0");
    assert_eq!(usize_to_string(7), "7");
    assert_eq!(usize_to_string(10), "10");
    assert_eq!(usize_to_string(90217), "90217");
}

#[test]
fn foreach_matrix_parses_rows_and_pairs() {
    let rows = parse_foreach_matrix("os=linux,arch=x86;os=mac,arch=arm").unwrap();
    assert_eq!(rows.len(), 2);
    assert_eq!(rows[0], vec![("os".to_string(), "linux".to_string()), ("arch".to_string(), "x86".to_string())]);
    assert_eq!(rows[1][0].1, "mac");
}

#[test]
fn foreach_matrix_trims_keys_and_keeps_values() {
    let rows = parse_foreach_matrix(" key = value with = signs ").unwrap();
    assert_eq!(rows[0][0].0, "key");
    assert_eq!(rows[0][0].1, " value with = signs ");
}

#[test]
fn foreach_matrix_rejects_bad_entries() {
    assert!(matches!(
        parse_foreach_matrix("no-equals"),
        Err(WorkmuxError::InvalidForeachRow(_))
    ));
    assert!(parse_foreach_matrix("=value").is_err());
    assert!(parse_foreach_matrix("a=1;;b=2").is_err());
}

#[test]
fn foreach_cli_rows_override_prompt_rows() {
    let cli = vec![vec![("k".to_string(), "cli".to_string())]];
    let prompt = vec![vec![("k".to_string(), "prompt".to_string())]];
    let (rows, warned) = determine_foreach_matrix(Some(cli.clone()), Some(prompt));
    assert!(warned);
    assert_eq!(rows.unwrap()[0][0].1, "cli");
}

#[test]
fn foreach_prompt_rows_used_without_cli() {
    let prompt = vec![vec![("k".to_string(), "prompt".to_string())]];
    let (rows, warned) = determine_foreach_matrix(None, Some(prompt));
    assert!(!warned);
    assert_eq!(rows.unwrap()[0][0].1, "prompt");
}

#[test]
fn conflicts_explicit_name_with_multi() {
    let r = check_expansion_conflicts(true, false, 2, None, false, false);
    assert!(matches!(r, Err(WorkmuxError::AmbiguousExpansionRequest(_))));
    assert!(check_expansion_conflicts(true, false, 1, None, false, false).is_ok());
}

#[test]
fn conflicts_count_with_agents() {
    let r = check_expansion_conflicts(false, false, 2, Some(1), false, false);
    assert!(matches!(r, Err(WorkmuxError::AmbiguousExpansionRequest(_))));
}

#[test]
fn conflicts_prompt_rows_with_agents() {
    let r = check_expansion_conflicts(false, false, 1, None, false, true);
    assert!(matches!(r, Err(WorkmuxError::AmbiguousExpansionRequest(_))));
}

#[test]
fn conflicts_rescue_with_many_agents() {
    let r = check_expansion_conflicts(false, true, 2, None, false, false);
    assert!(matches!(r, Err(WorkmuxError::AmbiguousExpansionRequest(_))));
}
