use lazytodo::markdown::render_markdown_line;
use lazytodo::markdown::Style;
use lazytodo::markdown::apply_style;
use lazytodo::markdown::tokenize;
use lazytodo::render::count_lines;
use lazytodo::render::highlight_matches;
use lazytodo::render::pad_view_to_window;
use lazytodo::render::render_header;
use lazytodo::render::strip_ansi;
use lazytodo::strutil::is_blank;
use lazytodo::strutil::str_contains;
use lazytodo::strutil::str_eq;
use lazytodo::strutil::usize_to_string;
use lazytodo::text_input::trim_to_width;
use lazytodo::text_input::TextInput;
use lazytodo::width::str_width;

const MATCH_ON: &str = "\u{1b}[48;5;24m\u{1b}[38;5;15m";
const MATCH_OFF: &str = "\u{1b}[49m\u{1b}[39m";

#[test]
fn string_helpers() {
    assert!(str_eq("abc", "abc"));
    assert!(!str_eq("abc", "abd"));
    assert!(str_contains("hello world", "o w"));
    assert!(!str_contains("hello", "world"));
    assert!(str_contains("anything", ""));
    assert!(is_blank("  \t \n"));
    assert!(!is_blank(" x "));
    assert_eq!(usize_to_string(0), "0");
    assert_eq!(usize_to_string(10), "10");
    assert_eq!(usize_to_string(90217), "90217");
}

#[test]
fn display_width_counts_wide_glyphs() {
    assert_eq!(str_width("abc"), 3);
    assert_eq!(str_width("日本"), 4);
    // truncation by columns, not by characters
    assert_eq!(trim_to_width("日本語", 4), "日本");
    assert_eq!(trim_to_width("日本語", 5), "日本");
    assert_eq!(trim_to_width("abc", 5), "abc");
}

#[test]
fn cursor_stays_on_boundaries() {
    let mut t = TextInput::new();
    t.insert_char('日');
    t.insert_char('x');
    assert_eq!(t.value(), "日x");
    assert_eq!(t.cursor, 2);
    t.move_left();
    t.move_left();
    assert_eq!(t.cursor, 0);
    t.insert_char('a');
    assert_eq!(t.value(), "a日x");
}

#[test]
fn backspace_at_start_and_delete_at_end_are_noops() {
    let mut t = TextInput::new();
    t.set_value("ab".to_string());
    t.move_home();
    t.backspace();
    assert_eq!(t.value(), "ab");
    assert_eq!(t.cursor, 0);
    t.move_end();
    t.delete();
    assert_eq!(t.value(), "ab");
    t.move_left();
    t.delete();
    assert_eq!(t.value(), "a");
    t.backspace();
    assert_eq!(t.value(), "");
}

#[test]
fn input_view_shows_placeholder_and_block_cursor() {
    let t = TextInput::new();
    assert_eq!(t.view("ph", 10), "\u{1b}[7mp\u{1b}[0mh");
    let mut u = TextInput::new();
    u.set_value("ab".to_string());
    // cursor at the end: trailing block
    assert_eq!(u.view("ph", 10), "ab\u{1b}[7m \u{1b}[0m");
}

#[test]
fn input_view_window_follows_cursor() {
    let mut t = TextInput::new();
    t.set_value("abcdefgh".to_string());
    // cursor at the end, width 4: window holds the last 4 characters
    let v = t.view("", 4);
    assert!(v.starts_with("efgh"));
}

#[test]
fn tokenize_splits_words_and_whitespace() {
    assert_eq!(tokenize("alpha beta"), vec!["alpha", " ", "beta"]);
    assert_eq!(tokenize("a\nb"), vec!["a", "\n", "b"]);
    assert_eq!(tokenize("  x"), vec![" ", " ", "x"]);
    assert!(tokenize("").is_empty());
}

#[test]
fn wrap_keeps_lines_inside_width() {
    assert_eq!(render_markdown_line("alpha beta gamma", 10), "alpha beta\ngamma");
    for line in render_markdown_line("alpha beta gamma", 10).split('\n') {
        assert!(str_width(line) <= 10);
    }
}

#[test]
fn oversized_token_is_emitted_unsplit() {
    assert_eq!(render_markdown_line("supercalifragilistic", 5), "supercalifragilistic");
    // the short line keeps its trailing space; only block edges are trimmed
    assert_eq!(render_markdown_line("hi supercalifragilistic", 5), "hi \nsupercalifragilistic");
}

#[test]
fn markup_styles_render_as_terminal_codes() {
    assert_eq!(
        render_markdown_line("**bold** and `code`", 80),
        "\u{1b}[1mbold\u{1b}[0m and \u{1b}[7mcode\u{1b}[0m"
    );
    assert_eq!(render_markdown_line("*it*", 80), "\u{1b}[3mit\u{1b}[0m");
    assert_eq!(render_markdown_line("plain", 80), "plain");
    assert_eq!(render_markdown_line("   ", 80), "");
}

#[test]
fn apply_style_joins_codes() {
    let st = Style { bold: true, italic: true, code: false };
    assert_eq!(apply_style("x", st), "\u{1b}[1;3mx\u{1b}[0m");
    let plain = Style { bold: false, italic: false, code: false };
    assert_eq!(apply_style("x", plain), "x");
}

#[test]
fn strip_ansi_removes_complete_sequences() {
    assert_eq!(strip_ansi("\u{1b}[1mhi\u{1b}[0m"), "hi");
    assert_eq!(strip_ansi("plain"), "plain");
    // an unterminated sequence stays verbatim
    assert_eq!(strip_ansi("\u{1b}[1"), "\u{1b}[1");
}

#[test]
fn highlight_wraps_matches_and_keeps_styles() {
    let rendered = "ab \u{1b}[1mcd\u{1b}[0m";
    let expected = format!("ab \u{1b}[1m{}cd{}\u{1b}[0m", MATCH_ON, MATCH_OFF);
    assert_eq!(highlight_matches(rendered, "cd"), expected);
    assert_eq!(highlight_matches("abc", ""), "abc");
    assert_eq!(highlight_matches("abc", "zz"), "abc");
}

#[test]
fn highlight_reopens_across_style_codes() {
    // the match spans a style change: the highlight is re-opened after it
    let rendered = "a\u{1b}[1mb\u{1b}[0m";
    let out = highlight_matches(rendered, "ab");
    assert_eq!(
        out,
        format!("{}a\u{1b}[1m{}b{}\u{1b}[0m", MATCH_ON, MATCH_ON, MATCH_OFF)
    );
}

#[test]
fn line_counting_and_padding() {
    assert_eq!(count_lines(""), 1);
    assert_eq!(count_lines("a"), 1);
    assert_eq!(count_lines("a\n"), 1);
    assert_eq!(count_lines("a\nb"), 2);
    assert_eq!(pad_view_to_window("x\n".to_string(), 3), "x\n\n\n");
    assert_eq!(pad_view_to_window("x\ny\nz\n".to_string(), 2), "x\ny\nz\n");
    assert_eq!(pad_view_to_window("x".to_string(), 0), "x");
}

#[test]
fn header_names_the_file() {
    assert_eq!(render_header("todo.md"), "Managing todo.md\n\n");
}
