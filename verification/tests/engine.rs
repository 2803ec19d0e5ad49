use lazytodo::edit::clamp_cursor;
use lazytodo::edit::clamp_index;
use lazytodo::edit::get_indent_level;
use lazytodo::keys::Key;
use lazytodo::model::App;
use lazytodo::model::EditIntent;
use lazytodo::model::EditTarget;
use lazytodo::model::LineItem;
use lazytodo::model::Mode;
use lazytodo::model::Task;

fn task(text: &str) -> LineItem {
    LineItem::Task(Task {
        indent: String::new(),
        bullet: "-".to_string(),
        completed: false,
        text: text.to_string(),
    })
}

fn section(title: &str) -> LineItem {
    LineItem::Section { title: title.to_string() }
}

fn app_with(lines: Vec<LineItem>) -> App {
    App::new("todo.md".to_string(), lines, 0)
}

#[test]
fn clamp_cursor_in_range() {
    assert_eq!(clamp_cursor(0, 5), 0);
    assert_eq!(clamp_cursor(4, 5), 4);
    assert_eq!(clamp_cursor(5, 5), 4);
    assert_eq!(clamp_cursor(100, 5), 4);
    assert_eq!(clamp_cursor(0, 0), 0);
    assert_eq!(clamp_cursor(7, 0), 0);
}

#[test]
fn clamp_index_bounds() {
    assert_eq!(clamp_index(0, 3), 0);
    assert_eq!(clamp_index(3, 3), 3);
    assert_eq!(clamp_index(4, 3), 3);
}

#[test]
fn undo_restores_snapshotted_deletion() {
    let mut app = app_with(vec![section("Work"), task("one")]);
    app.cursor = 1;
    app.delete_current_task();
    assert_eq!(app.lines, vec![section("Work")]);
    app.undo();
    assert_eq!(app.lines, vec![section("Work"), task("one")]);
    app.redo();
    assert_eq!(app.lines, vec![section("Work")]);
}

#[test]
fn undo_stack_never_exceeds_ten() {
    let mut app = app_with(vec![task("zero")]);
    for i in 0..11 {
        app.lines = vec![task(&format!("v{}", i))];
        app.save_undo_state();
    }
    assert_eq!(app.undo_stack.len(), 10);
    // the push of "v0" fell off the bottom; the oldest kept snapshot is "v1"
    assert_eq!(app.undo_stack[0].lines, vec![task("v1")]);
    assert_eq!(app.undo_stack[9].lines, vec![task("v10")]);
}

#[test]
fn undo_empty_reports_status() {
    let mut app = app_with(vec![task("a")]);
    app.undo();
    assert_eq!(app.status_message, "Nothing to undo");
    app.redo();
    assert_eq!(app.status_message, "Nothing to redo");
}

#[test]
fn visible_indices_filters_by_query() {
    let mut app = app_with(vec![section("Work"), task("Write spec"), task("Buy milk")]);
    app.search_input.set_value("spec".to_string());
    assert_eq!(app.visible_indices(), vec![0, 1]);
}

#[test]
fn visible_indices_all_without_query() {
    let app = app_with(vec![section("Work"), task("a"), task("b")]);
    assert_eq!(app.visible_indices(), vec![0, 1, 2]);
}

#[test]
fn visible_indices_all_while_editing() {
    let mut app = app_with(vec![section("Work"), task("a")]);
    app.search_input.set_value("zzz".to_string());
    app.mode = Mode::Edit;
    app.edit_intent = EditIntent::Update;
    assert_eq!(app.visible_indices(), vec![0, 1]);
}

#[test]
fn section_included_once_per_matching_section() {
    let mut app = app_with(vec![
        section("A"),
        task("x match"),
        task("y match"),
        section("B"),
        task("nothing"),
    ]);
    app.search_input.set_value("match".to_string());
    assert_eq!(app.visible_indices(), vec![0, 1, 2]);
}

#[test]
fn toggle_single_task() {
    let mut app = app_with(vec![section("Work"), task("one")]);
    app.cursor = 1;
    app.toggle_tasks();
    match &app.lines[1] {
        LineItem::Task(t) => assert!(t.completed),
        _ => panic!("expected a task"),
    }
    assert!(app.pending_save);
    assert_eq!(app.pending_save_message, "Marked Completed");
}

#[test]
fn toggle_selection_counts_tasks() {
    let mut app = app_with(vec![task("a"), section("S"), task("b")]);
    app.selection_active = true;
    app.selection_anchor = 0;
    app.cursor = 2;
    app.toggle_tasks();
    assert!(!app.selection_active);
    assert_eq!(app.pending_save_message, "Toggled 2 tasks");
    match (&app.lines[0], &app.lines[2]) {
        (LineItem::Task(a), LineItem::Task(b)) => {
            assert!(a.completed);
            assert!(b.completed);
        },
        _ => panic!("expected tasks"),
    }
}

#[test]
fn insert_task_below_section_task() {
    let mut app = app_with(vec![section("Work"), task("Write spec")]);
    app.cursor = 1;
    app.start_insert_task_at(2);
    app.apply_current_edit("Test");
    assert_eq!(app.lines, vec![section("Work"), task("Write spec"), task("Test")]);
    assert_eq!(app.cursor, 2);
}

#[test]
fn task_update_does_not_snapshot() {
    let mut app = app_with(vec![task("old")]);
    app.start_edit_task();
    app.apply_current_edit("new");
    assert_eq!(app.lines, vec![task("new")]);
    assert!(app.undo_stack.is_empty());
}

#[test]
fn section_update_snapshots() {
    let mut app = app_with(vec![section("Before")]);
    app.start_edit_section();
    app.apply_current_edit("After");
    assert_eq!(app.lines, vec![section("After")]);
    assert_eq!(app.undo_stack.len(), 1);
    assert_eq!(app.undo_stack[0].lines, vec![section("Before")]);
}

#[test]
fn indent_levels_cycle_and_clamp() {
    assert_eq!(get_indent_level(""), 0);
    assert_eq!(get_indent_level("    "), 1);
    assert_eq!(get_indent_level("\t"), 1);
    assert_eq!(get_indent_level("        "), 2);
    assert_eq!(get_indent_level("\t\t\t\t"), 3);
    let mut app = app_with(vec![task("x")]);
    app.start_edit_task();
    app.change_indent(1);
    match &app.lines[0] {
        LineItem::Task(t) => assert_eq!(t.indent, "    "),
        _ => panic!("expected a task"),
    }
    app.change_indent(-1);
    app.change_indent(-1);
    match &app.lines[0] {
        LineItem::Task(t) => assert_eq!(t.indent, ""),
        _ => panic!("expected a task"),
    }
}

#[test]
fn external_edit_round_trip() {
    let mut app = app_with(vec![task("draft")]);
    let handed = app.start_external_edit();
    assert_eq!(handed, Some("draft".to_string()));
    assert_eq!(app.external_edit_idx, Some(0));
    app.finish_external_edit(Ok(Some("polished".to_string())));
    assert_eq!(app.lines, vec![task("polished")]);
    assert!(app.pending_save);
    assert_eq!(app.pending_save_message, "Saved");
    assert_eq!(app.external_edit_idx, None);
}

#[test]
fn external_edit_empty_and_error() {
    let mut app = app_with(vec![task("keep")]);
    let _ = app.start_external_edit();
    app.finish_external_edit(Ok(None));
    assert_eq!(app.status_message, "Cannot save empty task");
    assert_eq!(app.lines, vec![task("keep")]);
    let _ = app.start_external_edit();
    app.finish_external_edit(Err("exit 1".to_string()));
    assert_eq!(app.status_message, "Editor error");
    assert_eq!(app.error, Some("exit 1".to_string()));
}

#[test]
fn save_result_updates_state() {
    let mut app = app_with(vec![task("a")]);
    app.save_and_set_status("Saved");
    assert!(app.pending_save);
    app.apply_save_result(Ok(42));
    assert!(!app.pending_save);
    assert_eq!(app.last_modified, 42);
    assert_eq!(app.status_message, "Saved");
    app.save_and_set_status("Again");
    app.apply_save_result(Err("disk full".to_string()));
    assert_eq!(app.error, Some("disk full".to_string()));
}

#[test]
fn disk_change_deferred_while_editing() {
    let mut app = app_with(vec![task("a")]);
    app.mode = Mode::Edit;
    app.edit_intent = EditIntent::Update;
    assert!(!app.note_disk_change());
    assert!(app.pending_reload);
    let mut normal = app_with(vec![task("a")]);
    assert!(normal.note_disk_change());
}

#[test]
fn normal_mode_keys_drive_state() {
    let mut app = app_with(vec![section("Work"), task("a"), task("b")]);
    app.handle_key(Key::Char('j'));
    assert_eq!(app.cursor, 1);
    app.handle_key(Key::Char('G'));
    assert_eq!(app.cursor, 2);
    app.handle_key(Key::Char('g'));
    assert_eq!(app.cursor, 0);
    app.handle_key(Key::Char('q'));
    assert!(app.should_quit);
}

#[test]
fn double_d_deletes_current_line() {
    let mut app = app_with(vec![task("a"), task("b")]);
    app.handle_key(Key::Char('d'));
    assert!(app.pending_d);
    assert_eq!(app.status_message, "d-");
    app.handle_key(Key::Char('d'));
    assert!(!app.pending_d);
    assert_eq!(app.lines, vec![task("b")]);
    assert_eq!(app.pending_save_message, "Deleted task");
}

#[test]
fn deleting_section_steps_cursor_back() {
    let mut app = app_with(vec![task("a"), section("S"), task("b")]);
    app.cursor = 1;
    app.delete_current_line();
    assert_eq!(app.lines, vec![task("a"), task("b")]);
    assert_eq!(app.cursor, 0);
}

#[test]
fn edit_mode_enter_rearms_task_insert() {
    let mut app = app_with(vec![task("a")]);
    app.handle_key(Key::Char('o'));
    assert_eq!(app.mode, Mode::Edit);
    assert_eq!(app.edit_intent, EditIntent::Insert);
    for c in "next".chars() {
        app.handle_key(Key::Char(c));
    }
    app.handle_key(Key::Enter);
    assert_eq!(app.lines, vec![task("a"), task("next")]);
    // still in edit mode, re-armed one row below
    assert_eq!(app.mode, Mode::Edit);
    assert_eq!(app.edit_intent, EditIntent::Insert);
    assert_eq!(app.insert_index, Some(2));
    app.handle_key(Key::Esc);
    assert_eq!(app.mode, Mode::Normal);
}

#[test]
fn edit_mode_esc_commits_non_blank() {
    let mut app = app_with(vec![task("old")]);
    app.handle_key(Key::Char('i'));
    assert_eq!(app.mode, Mode::Edit);
    app.handle_key(Key::End);
    app.handle_key(Key::Char('!'));
    app.handle_key(Key::Esc);
    assert_eq!(app.lines, vec![task("old!")]);
    assert_eq!(app.mode, Mode::Normal);
    assert!(app.pending_save);
}

#[test]
fn edit_mode_esc_discards_blank() {
    let mut app = app_with(vec![section("Work")]);
    app.start_insert_task_at(1);
    app.handle_key(Key::Esc);
    assert_eq!(app.lines, vec![section("Work")]);
    assert_eq!(app.mode, Mode::Normal);
}

#[test]
fn search_keys_enter_and_leave() {
    let mut app = app_with(vec![section("Work"), task("alpha"), task("beta")]);
    app.cursor = 1;
    app.handle_key(Key::Char('/'));
    assert_eq!(app.mode, Mode::Search);
    app.handle_key(Key::Char('b'));
    assert_eq!(app.search_query(), "b");
    // the cursor left the visible set and lands on the first visible task
    assert_eq!(app.cursor, 2);
    app.handle_key(Key::Esc);
    assert_eq!(app.mode, Mode::Normal);
    assert_eq!(app.search_query(), "");
    assert_eq!(app.status_message, "Search cleared");
}

#[test]
fn search_backspace_to_empty_leaves_search() {
    let mut app = app_with(vec![task("a")]);
    app.handle_key(Key::Char('/'));
    app.handle_key(Key::Char('a'));
    app.handle_key(Key::Backspace);
    assert_eq!(app.mode, Mode::Normal);
    assert_eq!(app.search_query(), "");
}

#[test]
fn selection_toggle_key() {
    let mut app = app_with(vec![task("a"), task("b")]);
    app.handle_key(Key::Char('v'));
    assert!(app.selection_active);
    assert_eq!(app.selection_anchor, 0);
    assert_eq!(app.status_message, "Visual line selection");
    app.handle_key(Key::Char('v'));
    assert!(!app.selection_active);
    assert_eq!(app.status_message, "Selection cleared");
}

#[test]
fn undo_key_requests_save() {
    let mut app = app_with(vec![section("S")]);
    app.start_edit_section();
    app.apply_current_edit("T");
    app.exit_edit_mode();
    app.handle_key(Key::Char('u'));
    assert_eq!(app.lines, vec![section("S")]);
    assert!(app.pending_save);
    assert_eq!(app.pending_save_message, "Undo");
    app.apply_save_result(Ok(1));
    app.handle_key(Key::Ctrl('r'));
    assert_eq!(app.lines, vec![section("T")]);
    assert_eq!(app.pending_save_message, "Redo");
}

#[test]
fn selection_range_normalizes() {
    let mut app = app_with(vec![task("a"), task("b"), task("c")]);
    app.selection_active = true;
    app.selection_anchor = 2;
    app.cursor = 0;
    assert_eq!(app.selection_range(), Some((0, 2)));
    assert!(app.is_selected(1));
    assert!(!app.is_selected(3));
    app.clear_selection();
    assert_eq!(app.selection_range(), None);
}

#[test]
fn reload_reseeds_template() {
    let mut app = app_with(vec![]);
    app.request_reload();
    assert!(app.reload_requested);
    let loaded = vec![LineItem::Task(Task {
        indent: "    ".to_string(),
        bullet: "*".to_string(),
        completed: true,
        text: "seed".to_string(),
    })];
    app.apply_reload(loaded, 7, true);
    assert!(!app.reload_requested);
    assert_eq!(app.last_modified, 7);
    assert_eq!(app.status_message, "Reloaded from disk");
    assert_eq!(app.edit_template.indent, "    ");
    assert_eq!(app.edit_template.bullet, "*");
    assert!(!app.edit_template.completed);
    assert_eq!(app.edit_template.text, "");
}

#[test]
fn count_tasks_ignores_sections() {
    let app = app_with(vec![section("A"), task("x"), section("B"), task("y")]);
    assert_eq!(app.count_tasks(), 2);
}
