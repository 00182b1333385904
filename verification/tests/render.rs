use issue_triage::app::App;
use issue_triage::model::{Author, Comment, Issue, Label};
use issue_triage::ui::{
    format_date, help_text, issue_list, issue_list_entry, issue_preview, layout_horizontal,
    layout_vertical, parse_hex_color, render, truncate, Color, Line, Rect,
};
use issue_triage::app::InputMode;

fn issue(number: u64, title: &str, labels: Vec<(&str, &str)>) -> Issue {
    Issue {
        number,
        title: title.to_string(),
        body: None,
        author: Author { login: "alice".to_string() },
        created_at: "2024-05-01T10:00:00Z".to_string(),
        labels: labels
            .into_iter()
            .map(|(name, color)| Label { name: name.to_string(), color: color.to_string() })
            .collect(),
        comments: Vec::new(),
    }
}

fn app_with(issues: Vec<Issue>) -> App {
    let mut app = App::new("octo/repo".to_string());
    app.refresh(Ok(issues));
    app
}

fn line_text(line: &Line) -> String {
    line.spans.iter().map(|s| s.content.as_str()).collect::<Vec<_>>().join("")
}

#[test]
fn truncate_keeps_short_titles() {
    assert_eq!(truncate("short", 35), "short");
    assert_eq!(truncate("", 35), "");
}

#[test]
fn truncate_marks_long_titles() {
    let long = "abcdefghijklmnopqrstuvwxyz0123456789XY";
    let cut = truncate(long, 35);
    assert_eq!(cut.chars().count(), 35);
    assert_eq!(cut, "abcdefghijklmnopqrstuvwxyz01234567…");
}

#[test]
fn format_date_keeps_date_portion() {
    assert_eq!(format_date("2024-05-01T10:00:00Z"), "2024-05-01");
    assert_eq!(format_date("no separator"), "no separator");
    assert_eq!(format_date(""), "");
}

#[test]
fn parse_hex_color_accepts_six_hex_digits() {
    assert_eq!(parse_hex_color("ff00a0"), Some(Color::Rgb(255, 0, 160)));
    assert_eq!(parse_hex_color("#ff00a0"), Some(Color::Rgb(255, 0, 160)));
    assert_eq!(parse_hex_color("00FF7f"), Some(Color::Rgb(0, 255, 127)));
}

#[test]
fn parse_hex_color_rejects_malformed_input() {
    assert_eq!(parse_hex_color("zz00zz"), None);
    assert_eq!(parse_hex_color("fff"), None);
    assert_eq!(parse_hex_color("ff00a0b"), None);
    assert_eq!(parse_hex_color(""), None);
}

#[test]
fn invalid_label_color_falls_back_to_gray() {
    let it = issue(1, "Fix crash", vec![("weird", "zz00zz")]);
    let entry = issue_list_entry(&it, false);
    let chip = &entry.lines[1].spans[0];
    assert_eq!(chip.content, " weird ");
    assert_eq!(chip.style.bg, Color::Gray);
    assert_eq!(chip.style.fg, Color::Black);
}

#[test]
fn valid_label_color_is_used() {
    let it = issue(1, "Fix crash", vec![("bug", "ff0000")]);
    let entry = issue_list_entry(&it, false);
    assert_eq!(entry.lines[1].spans[0].style.bg, Color::Rgb(255, 0, 0));
}

#[test]
fn list_entry_shows_number_title_and_label_marker() {
    let it = issue(12, "Fix crash", vec![]);
    let entry = issue_list_entry(&it, true);
    assert_eq!(entry.lines.len(), 3);
    assert_eq!(line_text(&entry.lines[0]), "#12 Fix crash");
    assert_eq!(line_text(&entry.lines[1]), "  no labels");
    assert_eq!(line_text(&entry.lines[2]), "");
    assert!(entry.selected);
    assert_eq!(entry.lines[0].spans[1].style.bg, Color::DarkGray);
    assert!(entry.lines[0].spans[1].style.bold);
}

#[test]
fn list_entry_caps_label_chips_at_three() {
    let it = issue(
        1,
        "Many labels",
        vec![("a", "ff0000"), ("b", "00ff00"), ("c", "0000ff"), ("d", "ffffff")],
    );
    let entry = issue_list_entry(&it, false);
    assert_eq!(entry.lines[1].spans.len(), 3);
    assert_eq!(entry.lines[1].spans[2].content, " c ");
}

#[test]
fn list_marks_exactly_the_selected_entry() {
    let mut app = app_with(vec![
        issue(1, "a", vec![]),
        issue(2, "b", vec![]),
        issue(3, "c", vec![]),
    ]);
    app.next();
    let entries = issue_list(&app);
    assert_eq!(entries.len(), 3);
    let flags: Vec<bool> = entries.iter().map(|e| e.selected).collect();
    assert_eq!(flags, vec![false, true, false]);
}

#[test]
fn preview_truncates_long_bodies() {
    let mut it = issue(5, "Long body", vec![]);
    let body: Vec<String> = (1..=25).map(|i| format!("line {i}")).collect();
    it.body = Some(body.join("\n"));
    let lines = issue_preview(&it);
    let texts: Vec<String> = lines.iter().map(line_text).collect();
    assert!(texts.contains(&"line 1".to_string()));
    assert!(texts.contains(&"line 20".to_string()));
    assert!(!texts.contains(&"line 21".to_string()));
    assert!(texts.contains(&"... (truncated)".to_string()));
}

#[test]
fn preview_short_body_has_no_marker() {
    let mut it = issue(5, "Short body", vec![]);
    it.body = Some("one\ntwo".to_string());
    let lines = issue_preview(&it);
    let texts: Vec<String> = lines.iter().map(line_text).collect();
    assert!(texts.contains(&"one".to_string()));
    assert!(texts.contains(&"two".to_string()));
    assert!(!texts.iter().any(|t| t.contains("truncated")));
}

#[test]
fn preview_shows_header_author_date_and_placeholder_body() {
    let it = issue(3, "A title", vec![("bug", "ff0000")]);
    let lines = issue_preview(&it);
    assert_eq!(line_text(&lines[0]), "#3 A title");
    assert_eq!(line_text(&lines[2]), "Author: alice  Created: 2024-05-01");
    assert_eq!(line_text(&lines[3]), "Labels: bug");
    let texts: Vec<String> = lines.iter().map(line_text).collect();
    assert!(texts.contains(&"No description".to_string()));
}

#[test]
fn preview_reports_comment_count() {
    let mut it = issue(3, "With comments", vec![]);
    it.comments = vec![
        Comment { author: "b".to_string(), body: "x".to_string() },
        Comment { author: "c".to_string(), body: "y".to_string() },
    ];
    let lines = issue_preview(&it);
    let texts: Vec<String> = lines.iter().map(line_text).collect();
    assert!(texts.contains(&" 2 comments".to_string()));
}

#[test]
fn help_text_differs_by_mode() {
    let normal = help_text(InputMode::Normal);
    let filter = help_text(InputMode::Filter);
    assert!(normal.contains("q: quit"));
    assert!(filter.contains("Backspace: delete"));
    assert_ne!(normal, filter);
}

#[test]
fn layout_splits_vertically_and_horizontally() {
    let area = Rect { x: 0, y: 0, width: 100, height: 30 };
    let (header, body, help) = layout_vertical(area);
    assert_eq!(header, Rect { x: 0, y: 0, width: 100, height: 3 });
    assert_eq!(body, Rect { x: 0, y: 3, width: 100, height: 24 });
    assert_eq!(help, Rect { x: 0, y: 27, width: 100, height: 3 });
    let (list, preview) = layout_horizontal(body);
    assert_eq!(list, Rect { x: 0, y: 3, width: 40, height: 24 });
    assert_eq!(preview, Rect { x: 40, y: 3, width: 60, height: 24 });
}

#[test]
fn layout_handles_tiny_viewports() {
    let (header, body, help) = layout_vertical(Rect { x: 0, y: 0, width: 10, height: 4 });
    assert_eq!(header.height, 3);
    assert_eq!(help.height, 1);
    assert_eq!(body.height, 0);
}

#[test]
fn render_header_shows_count_error_and_loading() {
    let mut app = app_with(vec![issue(1, "a", vec![]), issue(2, "b", vec![])]);
    let s = render(&app, 80, 24);
    assert_eq!(s.header, " octo/repo (2 issues)");
    app.refresh(Err("boom".to_string()));
    let s = render(&app, 80, 24);
    assert_eq!(s.header, " octo/repo - Error: boom");
    app.loading = true;
    let s = render(&app, 80, 24);
    assert_eq!(s.header, " octo/repo - Loading...");
}

#[test]
fn render_list_title_shows_filter() {
    let mut app = app_with(vec![issue(1, "abc", vec![])]);
    let s = render(&app, 80, 24);
    assert_eq!(s.list_title, " Issues ");
    app.filter_push('a');
    let s = render(&app, 80, 24);
    assert_eq!(s.list_title, " Issues (filter: a) ");
}

#[test]
fn render_preview_placeholder_without_selection() {
    let app = app_with(vec![]);
    let s = render(&app, 80, 24);
    assert_eq!(s.preview.len(), 1);
    assert_eq!(line_text(&s.preview[0]), "No issue selected");
}

#[test]
fn render_is_deterministic() {
    let mut app = app_with(vec![issue(1, "abc", vec![("bug", "ff0000")])]);
    app.filter_push('a');
    let a = render(&app, 80, 24);
    let b = render(&app, 80, 24);
    assert_eq!(a.header, b.header);
    assert_eq!(a.list_title, b.list_title);
    assert_eq!(a.help, b.help);
    assert_eq!(a.entries.len(), b.entries.len());
    let at: Vec<String> = a.preview.iter().map(line_text).collect();
    let bt: Vec<String> = b.preview.iter().map(line_text).collect();
    assert_eq!(at, bt);
}

#[test]
fn header_counts_filtered_issues_only() {
    let mut app = app_with(vec![
        issue(1, "Fix crash", vec![]),
        issue(2, "Add docs", vec![]),
    ]);
    for c in "docs".chars() {
        app.filter_push(c);
    }
    let s = render(&app, 80, 24);
    assert_eq!(s.header, " octo/repo (1 issues)");
}

#[test]
fn header_shows_zero_for_no_issues() {
    let app = app_with(vec![]);
    let s = render(&app, 80, 24);
    assert_eq!(s.header, " octo/repo (0 issues)");
}

#[test]
fn preview_divider_is_forty_cells_wide() {
    let it = issue(1, "a", vec![]);
    let lines = issue_preview(&it);
    let divider = line_text(&lines[4]);
    assert_eq!(divider.chars().count(), 40);
    assert!(divider.chars().all(|c| c == '─'));
}
