use ollama_tui::app::{normalize_session, App};
use ollama_tui::mode::Mode;
use ollama_tui::text::{str_starts_with, trim_str};
use ollama_tui::worker::Task;

#[test]
fn new_app_defaults() {
    let app = App::new();
    assert_eq!(app.session, "default");
    assert_eq!(app.input, "");
    assert!(app.history.is_empty());
    assert_eq!(app.mode, Mode::Text);
    assert!(!app.show_history);
    assert!(!app.rag_loaded);
    assert!(!app.waiting);
}

#[test]
fn send_blank_input_does_nothing() {
    let mut app = App::new();
    app.input = "   ".to_string();
    assert!(app.send().is_none());
    assert_eq!(app.input, "   ");
    assert!(app.history.is_empty());
    assert!(!app.waiting);
}

#[test]
fn send_builds_task_and_pending_entry() {
    let mut app = App::new();
    app.input = "2+2".to_string();
    match app.send() {
        Some(Task::Query(p, m)) => {
            assert_eq!(p, "2+2");
            assert_eq!(m, Mode::Text);
        }
        None => panic!("expected a task"),
    }
    assert_eq!(app.input, "");
    assert!(app.waiting);
    assert_eq!(app.history.len(), 1);
    assert_eq!(app.history[0].input, "2+2");
    assert_eq!(app.history[0].output, "...");
    assert!(!app.rag_loaded);
}

#[test]
fn send_rag_load_marks_document_loaded() {
    let mut app = App::new();
    app.mode = Mode::Rag;
    app.input = "rag:load doc.pdf".to_string();
    assert!(app.send().is_some());
    assert!(app.rag_loaded);
}

#[test]
fn quote_counts_back_from_most_recent() {
    let mut app = App::new();
    for (i, o) in [("a", "1"), ("b", "2"), ("c", "3")] {
        app.input = i.to_string();
        app.send();
        app.history.last_mut().unwrap().output = o.to_string();
    }
    assert_eq!(app.quote(0), None);
    assert_eq!(app.quote(4), None);
    assert_eq!(app.quote(1), Some("3"));
    assert_eq!(app.quote(3), Some("1"));
}

#[test]
fn save_filename_depends_on_mode() {
    let mut app = App::new();
    app.session = "work".to_string();
    assert_eq!(app.save_filename(), "work.chat.json");
    app.mode = Mode::Image;
    assert_eq!(app.save_filename(), "work.media.json");
}

#[test]
fn normalize_session_blank_falls_back_to_default() {
    assert_eq!(normalize_session("   "), "default");
    assert_eq!(normalize_session(""), "default");
}

#[test]
fn normalize_session_trims_entry() {
    assert_eq!(normalize_session("  work  "), "work");
}

#[test]
fn trim_removes_edge_whitespace_only() {
    assert_eq!(trim_str("  a b  "), "a b");
    assert_eq!(trim_str("a b"), "a b");
    assert_eq!(trim_str("\t\n x \r\n"), "x");
    assert_eq!(trim_str("   "), "");
}

#[test]
fn trim_handles_unicode_whitespace() {
    assert_eq!(trim_str("\u{3000}hi\u{a0}"), "hi");
    assert_eq!(trim_str("\u{2009}ok"), "ok");
}

#[test]
fn trim_is_idempotent_at_runtime() {
    let once = trim_str("  spaced out  ");
    assert_eq!(trim_str(&once), once);
}

#[test]
fn starts_with_matches_prefixes() {
    assert!(str_starts_with("image:/x.png", "image:"));
    assert!(!str_starts_with("imag", "image:"));
    assert!(!str_starts_with("x image:", "image:"));
    assert!(str_starts_with("anything", ""));
}
