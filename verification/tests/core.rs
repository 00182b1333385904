use issue_triage::app::App;
use issue_triage::app::InputMode;
use issue_triage::input::{handle_key, Action, Key};
use issue_triage::model::{Author, Comment, Issue, Label};

fn issue(number: u64, title: &str, labels: Vec<(&str, &str)>) -> Issue {
    Issue {
        number,
        title: title.to_string(),
        body: None,
        author: Author { login: "alice".to_string() },
        created_at: "2024-05-01T10:00:00Z".to_string(),
        labels: labels
            .into_iter()
            .map(|(name, color)| Label { name: name.to_string(), color: color.to_string() })
            .collect(),
        comments: Vec::new(),
    }
}

fn app_with(issues: Vec<Issue>) -> App {
    let mut app = App::new("octo/repo".to_string());
    app.refresh(Ok(issues));
    app
}

#[test]
fn new_app_defaults() {
    let app = App::new("octo/repo".to_string());
    assert_eq!(app.repo, "octo/repo");
    assert!(app.issues.is_empty());
    assert_eq!(app.selected, 0);
    assert!(app.filter.is_empty());
    assert_eq!(app.input_mode, InputMode::Normal);
    assert!(app.loading);
    assert!(app.error.is_none());
}

#[test]
fn refresh_success_replaces_issues() {
    let mut app = App::new("octo/repo".to_string());
    app.selected = 0;
    app.refresh(Ok(vec![issue(1, "One", vec![]), issue(2, "Two", vec![])]));
    assert_eq!(app.issues.len(), 2);
    assert_eq!(app.selected, 0);
    assert!(app.error.is_none());
    assert!(!app.loading);
}

#[test]
fn refresh_failure_keeps_issues_and_sets_error() {
    let mut app = app_with(vec![issue(1, "One", vec![])]);
    app.refresh(Err("network down".to_string()));
    assert_eq!(app.issues.len(), 1);
    assert_eq!(app.issues[0].number, 1);
    assert_eq!(app.error.as_deref(), Some("network down"));
    assert!(!app.error.as_deref().unwrap().is_empty());
    assert!(!app.loading);
}

#[test]
fn refresh_success_clears_previous_error() {
    let mut app = app_with(vec![issue(1, "One", vec![])]);
    app.refresh(Err("boom".to_string()));
    assert!(app.error.is_some());
    app.refresh(Ok(vec![issue(2, "Two", vec![])]));
    assert!(app.error.is_none());
    assert_eq!(app.issues[0].number, 2);
}

#[test]
fn empty_filter_shows_all_in_order() {
    let app = app_with(vec![
        issue(1, "Fix crash", vec![]),
        issue(2, "Add docs", vec![("docs", "00ff00")]),
        issue(3, "Refactor", vec![]),
    ]);
    assert_eq!(app.filtered_issues(), vec![0, 1, 2]);
}

#[test]
fn filter_matches_title_case_insensitively() {
    let mut app = app_with(vec![
        issue(1, "Fix CRASH now", vec![]),
        issue(2, "Add docs", vec![]),
    ]);
    for c in "crash".chars() {
        app.filter_push(c);
    }
    assert_eq!(app.filtered_issues(), vec![0]);
}

#[test]
fn filter_matches_label_names() {
    let mut app = app_with(vec![
        issue(1, "Fix crash", vec![]),
        issue(2, "Add docs", vec![("docs", "00ff00")]),
    ]);
    for c in "doc".chars() {
        app.filter_push(c);
    }
    assert_eq!(app.filtered_issues(), vec![1]);
}

#[test]
fn filtered_view_is_order_preserving_subsequence() {
    let mut app = app_with(vec![
        issue(1, "alpha fix", vec![]),
        issue(2, "beta", vec![]),
        issue(3, "fix gamma", vec![]),
        issue(4, "delta", vec![("bugfix", "ff0000")]),
    ]);
    for c in "fix".chars() {
        app.filter_push(c);
    }
    let f = app.filtered_issues();
    assert_eq!(f, vec![0, 2, 3]);
    assert!(f.windows(2).all(|w| w[0] < w[1]));
}

#[test]
fn filter_push_pop_clear_reset_selection() {
    let mut app = app_with(vec![
        issue(1, "a", vec![]),
        issue(2, "b", vec![]),
        issue(3, "c", vec![]),
    ]);
    app.next();
    app.next();
    assert_eq!(app.selected, 2);
    app.filter_push('a');
    assert_eq!(app.selected, 0);
    app.next();
    app.filter_pop();
    assert_eq!(app.selected, 0);
    app.next();
    app.clear_filter();
    assert_eq!(app.selected, 0);
}

#[test]
fn next_clamps_to_last_filtered_entry() {
    let mut app = app_with(vec![issue(1, "a", vec![]), issue(2, "b", vec![])]);
    app.next();
    assert_eq!(app.selected, 1);
    app.next();
    assert_eq!(app.selected, 1);
    assert!(app.selected < app.filtered_issues().len());
}

#[test]
fn next_on_empty_view_is_a_no_op() {
    let mut app = app_with(vec![]);
    app.next();
    assert_eq!(app.selected, 0);
    let mut app2 = app_with(vec![issue(1, "only", vec![])]);
    for c in "nothing matches this".chars() {
        app2.filter_push(c);
    }
    assert!(app2.filtered_issues().is_empty());
    app2.next();
    assert_eq!(app2.selected, 0);
}

#[test]
fn next_stays_put_on_single_entry() {
    let mut app = app_with(vec![issue(1, "only", vec![])]);
    assert_eq!(app.selected, 0);
    app.next();
    assert_eq!(app.selected, 0);
}

#[test]
fn previous_floors_at_zero() {
    let mut app = app_with(vec![issue(1, "a", vec![]), issue(2, "b", vec![])]);
    app.previous();
    assert_eq!(app.selected, 0);
    app.next();
    app.previous();
    assert_eq!(app.selected, 0);
}

#[test]
fn selected_issue_follows_filtered_view() {
    let mut app = app_with(vec![
        issue(1, "Fix crash", vec![]),
        issue(2, "Add docs", vec![]),
    ]);
    assert_eq!(app.selected_issue().unwrap().number, 1);
    for c in "docs".chars() {
        app.filter_push(c);
    }
    assert_eq!(app.selected_issue().unwrap().number, 2);
    app.filter_push('x');
    assert!(app.selected_issue().is_none());
}

#[test]
fn open_selected_builds_canonical_url() {
    let app = app_with(vec![issue(42, "Fix crash", vec![])]);
    assert_eq!(
        app.open_selected().unwrap(),
        "https://github.com/octo/repo/issues/42"
    );
    let empty = app_with(vec![]);
    assert!(empty.open_selected().is_none());
}

#[test]
fn copy_prompt_without_selection_fails() {
    let app = app_with(vec![]);
    let r = app.copy_issue_prompt();
    assert_eq!(r.unwrap_err(), "No issue selected");
}

#[test]
fn copy_prompt_exact_format() {
    let mut it = issue(7, "Fix crash", vec![("bug", "ff0000"), ("ui", "00ff00")]);
    it.body = Some("It crashes.\nOften.".to_string());
    it.comments = vec![
        Comment { author: "bob".to_string(), body: "Same here.".to_string() },
        Comment { author: "carol".to_string(), body: "Fixed upstream.".to_string() },
    ];
    let app = app_with(vec![it]);
    let prompt = app.copy_issue_prompt().unwrap();
    let expected = "GitHub Issue: octo/repo#7\n\
                    Title: Fix crash\n\
                    Author: alice\n\
                    Created: 2024-05-01T10:00:00Z\n\
                    Labels: bug, ui\n\
                    \n---\n\n\
                    ## Description\n\n\
                    It crashes.\nOften.\n\
                    \n## Comments\n\n\
                    **@bob**:\nSame here.\n\n\
                    **@carol**:\nFixed upstream.\n\n";
    assert_eq!(prompt, expected);
}

#[test]
fn copy_prompt_omits_absent_sections() {
    let app = app_with(vec![issue(9, "Plain", vec![])]);
    let prompt = app.copy_issue_prompt().unwrap();
    let expected = "GitHub Issue: octo/repo#9\n\
                    Title: Plain\n\
                    Author: alice\n\
                    Created: 2024-05-01T10:00:00Z\n\
                    \n---\n\n";
    assert_eq!(prompt, expected);
}

#[test]
fn start_and_exit_filter_toggle_mode_only() {
    let mut app = app_with(vec![issue(1, "a", vec![])]);
    app.filter_push('a');
    app.start_filter();
    assert_eq!(app.input_mode, InputMode::Filter);
    assert_eq!(app.filter, "a");
    app.exit_filter();
    assert_eq!(app.input_mode, InputMode::Normal);
    assert_eq!(app.filter, "a");
}

#[test]
fn normal_mode_key_routing() {
    let mut app = app_with(vec![issue(1, "a", vec![]), issue(2, "b", vec![])]);
    assert_eq!(handle_key(&mut app, Key::Char('j'), false), Action::NoOp);
    assert_eq!(app.selected, 1);
    assert_eq!(handle_key(&mut app, Key::Up, false), Action::NoOp);
    assert_eq!(app.selected, 0);
    assert_eq!(handle_key(&mut app, Key::Char('q'), false), Action::Quit);
    assert_eq!(handle_key(&mut app, Key::Char('r'), false), Action::Refresh);
    assert_eq!(handle_key(&mut app, Key::Char('P'), false), Action::CopyPrompt);
    assert_eq!(handle_key(&mut app, Key::Enter, false), Action::OpenBrowser);
    assert_eq!(handle_key(&mut app, Key::Char('/'), false), Action::NoOp);
    assert_eq!(app.input_mode, InputMode::Filter);
}

#[test]
fn filter_mode_key_routing() {
    let mut app = app_with(vec![issue(1, "abc", vec![])]);
    handle_key(&mut app, Key::Char('/'), false);
    assert_eq!(handle_key(&mut app, Key::Char('a'), false), Action::NoOp);
    assert_eq!(app.filter, "a");
    assert_eq!(handle_key(&mut app, Key::Char('b'), false), Action::NoOp);
    assert_eq!(app.filter, "ab");
    assert_eq!(handle_key(&mut app, Key::Backspace, false), Action::NoOp);
    assert_eq!(app.filter, "a");
    assert_eq!(handle_key(&mut app, Key::Enter, false), Action::NoOp);
    assert_eq!(app.input_mode, InputMode::Normal);
    assert_eq!(app.filter, "a");
}

#[test]
fn ctrl_c_quits_in_both_modes() {
    let mut app = app_with(vec![issue(1, "a", vec![])]);
    assert_eq!(handle_key(&mut app, Key::Char('c'), true), Action::Quit);
    app.start_filter();
    assert_eq!(handle_key(&mut app, Key::Char('c'), true), Action::Quit);
    assert_eq!(app.input_mode, InputMode::Filter);
}

#[test]
fn esc_in_normal_mode_clears_filter() {
    let mut app = app_with(vec![issue(1, "a", vec![]), issue(2, "b", vec![])]);
    app.start_filter();
    handle_key(&mut app, Key::Char('b'), false);
    handle_key(&mut app, Key::Esc, false);
    assert_eq!(app.input_mode, InputMode::Normal);
    assert_eq!(app.filter, "b");
    handle_key(&mut app, Key::Esc, false);
    assert_eq!(app.filter, "");
    assert_eq!(app.filtered_issues().len(), 2);
}
