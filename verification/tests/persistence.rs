use lazytodo::keys::Key;
use lazytodo::model::App;
use lazytodo::model::LineItem;
use lazytodo::model::Task;
use lazytodo::storage::parse_lines;
use lazytodo::storage::serialize_lines;

fn task(text: &str) -> LineItem {
    LineItem::Task(Task {
        indent: String::new(),
        bullet: "-".to_string(),
        completed: false,
        text: text.to_string(),
    })
}

fn section(title: &str) -> LineItem {
    LineItem::Section { title: title.to_string() }
}

#[test]
fn parse_sections_and_tasks() {
    let doc = parse_lines("## Work\n- [ ] Write spec\n* [x] Done thing\n");
    assert_eq!(doc.len(), 3);
    assert_eq!(doc[0], section("Work"));
    assert_eq!(doc[1], task("Write spec"));
    assert_eq!(
        doc[2],
        LineItem::Task(Task {
            indent: String::new(),
            bullet: "*".to_string(),
            completed: true,
            text: "Done thing".to_string(),
        })
    );
}

#[test]
fn parse_preserves_indent_and_bullet() {
    let doc = parse_lines("    - [X] deep\n");
    assert_eq!(
        doc,
        vec![LineItem::Task(Task {
            indent: "    ".to_string(),
            bullet: "-".to_string(),
            completed: true,
            text: "deep".to_string(),
        })]
    );
}

#[test]
fn parse_discards_foreign_lines() {
    let doc = parse_lines("# big title\n\nprose\n- [ ] real\n-[ ] missing space\n");
    assert_eq!(doc, vec![task("real")]);
}

#[test]
fn parse_strips_carriage_returns() {
    let doc = parse_lines("## A\r\n- [ ] x\r\n");
    assert_eq!(doc, vec![section("A"), task("x")]);
}

#[test]
fn parse_empty_is_empty() {
    assert!(parse_lines("").is_empty());
    assert!(parse_lines("\n\n").is_empty());
}

#[test]
fn serialize_round_trips_own_output() {
    let doc = vec![section("Work"), task("Write spec")];
    let text = serialize_lines(&doc);
    assert_eq!(text, "## Work\n- [ ] Write spec\n");
    assert_eq!(parse_lines(&text), doc);
}

#[test]
fn serialize_empty_is_empty() {
    assert_eq!(serialize_lines(&vec![]), "");
}

#[test]
fn toggle_round_trip_through_file() {
    let doc = parse_lines("## Work\n- [ ] Write spec\n");
    let mut app = App::new("todo.md".to_string(), doc, 0);
    app.handle_key(Key::Char('j'));
    assert_eq!(app.cursor, 1);
    app.handle_key(Key::Char(' '));
    assert_eq!(serialize_lines(&app.lines), "## Work\n- [x] Write spec\n");
    assert_eq!(app.cursor, 1);
    assert!(app.pending_save);
}

#[test]
fn insert_round_trip_through_file() {
    let mut app = App::new(
        "todo.md".to_string(),
        vec![section("Work"), task("Write spec")],
        0,
    );
    app.start_insert_task_at(2);
    app.apply_current_edit("Test");
    assert_eq!(app.lines, vec![section("Work"), task("Write spec"), task("Test")]);
    assert_eq!(app.cursor, 2);
    assert_eq!(
        serialize_lines(&app.lines),
        "## Work\n- [ ] Write spec\n- [ ] Test\n"
    );
}

#[test]
fn scroller_keeps_cursor_inside_window() {
    let mut app = App::new("todo.md".to_string(), (0..20).map(|i| task(&format!("t{}", i))).collect(), 0);
    app.ensure_scroll(20, 5, 7);
    assert_eq!(app.scroll_offset, 3);
    app.ensure_scroll(20, 5, 2);
    assert_eq!(app.scroll_offset, 2);
    app.ensure_scroll(20, 5, 4);
    assert_eq!(app.scroll_offset, 2);
    app.ensure_scroll(0, 5, 0);
    assert_eq!(app.scroll_offset, 0);
}

#[test]
fn render_shows_document_and_footer() {
    let mut app = App::new("todo.md".to_string(), vec![task("x")], 0);
    let frame = app.render();
    let expected = "Managing todo.md\n\n>  [ ] x\n\nj/k move · space toggle · dd del · u undo · ^r redo · / search · e vim · i inline · o/O new · S section · q quit\n1 open · 0 completed\n";
    assert_eq!(frame, expected);
}

#[test]
fn render_empty_document_shows_hint() {
    let mut app = App::new("todo.md".to_string(), vec![], 0);
    let frame = app.render();
    assert!(frame.contains("No tasks found. Press 'o' to create one."));
}

#[test]
fn render_wraps_long_tasks_with_continuation_indent() {
    let mut app = App::new("todo.md".to_string(), vec![task("alpha beta gamma")], 0);
    app.ensure_renderer_width(16);
    let frame = app.render();
    // 16 - 6 margin = 10 columns of wrap width
    assert!(frame.contains(">  [ ] alpha beta\n       gamma\n"));
}
