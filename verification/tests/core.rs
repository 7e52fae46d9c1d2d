use ollama_tui::decode::decode_stream;
use ollama_tui::mode::Mode;
use ollama_tui::route::{route, RouteDecision};
use ollama_tui::worker::{complete_task, process_tasks, Exchange, FetchOutcome, Task};

fn lines(v: &[&str]) -> Vec<String> {
    v.iter().map(|s| s.to_string()).collect()
}

#[test]
fn mode_cycle_returns_after_four() {
    for start in [Mode::Text, Mode::Image, Mode::Rag, Mode::Agent] {
        let mut m = start;
        m.next();
        m.next();
        m.next();
        m.next();
        assert_eq!(m, start);
    }
}

#[test]
fn mode_successor_order() {
    let mut m = Mode::Text;
    m.next();
    assert_eq!(m, Mode::Image);
    m.next();
    assert_eq!(m, Mode::Rag);
    m.next();
    assert_eq!(m, Mode::Agent);
    m.next();
    assert_eq!(m, Mode::Text);
}

#[test]
fn mode_labels() {
    assert_eq!(Mode::Text.as_str(), "text");
    assert_eq!(Mode::Image.as_str(), "image");
    assert_eq!(Mode::Rag.as_str(), "rag");
    assert_eq!(Mode::Agent.as_str(), "agent");
}

#[test]
fn route_image_without_prefix_is_immediate() {
    match route(Mode::Image, "foo") {
        RouteDecision::Immediate(m) => assert_eq!(m, "Image mode: use 'image:/path'"),
        _ => panic!("expected an immediate usage message"),
    }
}

#[test]
fn route_image_with_prefix_dispatches() {
    match route(Mode::Image, "image:/x.png") {
        RouteDecision::Dispatch(model, prompt) => {
            assert_eq!(model, "qwen-vl:8b");
            assert_eq!(prompt, "image:/x.png");
        }
        _ => panic!("expected a dispatch"),
    }
}

#[test]
fn route_text_always_dispatches() {
    match route(Mode::Text, "2+2") {
        RouteDecision::Dispatch(model, prompt) => {
            assert_eq!(model, "qwen3:8b");
            assert_eq!(prompt, "2+2");
        }
        _ => panic!("expected a dispatch"),
    }
}

#[test]
fn route_rag_load_is_immediate() {
    match route(Mode::Rag, "rag:load doc.pdf") {
        RouteDecision::Immediate(m) => assert_eq!(m, "RAG doc loaded (simulated)."),
        _ => panic!("expected an immediate message"),
    }
}

#[test]
fn route_rag_question_tags_prompt() {
    match route(Mode::Rag, "what is x") {
        RouteDecision::Dispatch(model, prompt) => {
            assert_eq!(model, "qwen3:8b");
            assert_eq!(prompt, "[RAG] what is x");
        }
        _ => panic!("expected a dispatch"),
    }
}

#[test]
fn route_agent_delegates_unchanged() {
    match route(Mode::Agent, "plan my day") {
        RouteDecision::Delegate(p) => assert_eq!(p, "plan my day"),
        _ => panic!("expected a delegation"),
    }
}

#[test]
fn decode_simple_stream() {
    let ls = lines(&[r#"{"response":"4","done":false}"#, r#"{"response":"","done":true}"#]);
    assert_eq!(decode_stream(&ls), "4");
}

#[test]
fn decode_error_short_circuits() {
    let ls = lines(&[
        r#"{"error":"model not found","done":false}"#,
        r#"{"response":"IGNORED","done":true}"#,
    ]);
    assert_eq!(decode_stream(&ls), "Error: model not found");
}

#[test]
fn decode_error_discards_accumulation() {
    let ls = lines(&[
        r#"{"response":"partial text","done":false}"#,
        r#"{"error":"boom","done":false}"#,
    ]);
    assert_eq!(decode_stream(&ls), "Error: boom");
}

#[test]
fn decode_error_beats_done_in_same_line() {
    let ls = lines(&[r#"{"response":"x","error":"boom","done":true}"#]);
    assert_eq!(decode_stream(&ls), "Error: boom");
}

#[test]
fn decode_skips_unparseable_lines() {
    let ls = lines(&["not json at all", r#"{"response":"hi","done":true}"#]);
    assert_eq!(decode_stream(&ls), "hi");
}

#[test]
fn decode_skips_line_without_done_member() {
    let ls = lines(&[r#"{"response":"no"}"#, r#"{"response":"yes","done":true}"#]);
    assert_eq!(decode_stream(&ls), "yes");
}

#[test]
fn decode_premature_end_keeps_accumulation() {
    let ls = lines(&[
        r#"{"response":"par","done":false}"#,
        r#"{"response":"tial","done":false}"#,
    ]);
    assert_eq!(decode_stream(&ls), "partial");
}

#[test]
fn decode_trims_final_result() {
    let ls = lines(&[r#"{"response":"  4  ","done":true}"#]);
    assert_eq!(decode_stream(&ls), "4");
}

#[test]
fn decode_error_result_is_not_trimmed() {
    let ls = lines(&[r#"{"error":" spaced ","done":false}"#]);
    assert_eq!(decode_stream(&ls), "Error:  spaced ");
}

#[test]
fn decode_empty_stream_is_empty() {
    let ls: Vec<String> = Vec::new();
    assert_eq!(decode_stream(&ls), "");
}

#[test]
fn decode_same_lines_twice_same_result() {
    let ls = lines(&[r#"{"response":"a","done":false}"#, r#"{"response":"b","done":true}"#]);
    assert_eq!(decode_stream(&ls), decode_stream(&ls));
}

#[test]
fn complete_immediate_task_needs_no_call() {
    let t = Task::Query("foo".to_string(), Mode::Image);
    assert_eq!(complete_task(&t, &Exchange::NoCall), "Image mode: use 'image:/path'");
}

#[test]
fn complete_rag_load_without_network() {
    let t = Task::Query("rag:load doc.pdf".to_string(), Mode::Rag);
    assert_eq!(complete_task(&t, &Exchange::NoCall), "RAG doc loaded (simulated).");
}

#[test]
fn complete_connection_failure_is_request_error() {
    let t = Task::Query("2+2".to_string(), Mode::Text);
    let ex = Exchange::Fetched(FetchOutcome::ConnectFailure("connection refused".to_string()));
    assert_eq!(complete_task(&t, &ex), "Request Error: connection refused");
}

#[test]
fn complete_bad_status_is_http_error() {
    let t = Task::Query("2+2".to_string(), Mode::Text);
    let ex = Exchange::Fetched(FetchOutcome::HttpFailure("500 Internal Server Error".to_string()));
    assert_eq!(complete_task(&t, &ex), "HTTP Error: 500 Internal Server Error");
}

#[test]
fn complete_streamed_answer() {
    let t = Task::Query("2+2".to_string(), Mode::Text);
    let ls = lines(&[r#"{"response":"4","done":false}"#, r#"{"response":"","done":true}"#]);
    let ex = Exchange::Fetched(FetchOutcome::Lines(ls));
    assert_eq!(complete_task(&t, &ex), "4");
}

#[test]
fn complete_agent_reply_passes_through() {
    let t = Task::Query("plan my day".to_string(), Mode::Agent);
    let ex = Exchange::AgentReply("  done!  ".to_string());
    assert_eq!(complete_task(&t, &ex), "  done!  ");
}

#[test]
fn worker_emits_one_result_per_task_in_order() {
    let tasks = vec![
        Task::Query("rag:load doc.pdf".to_string(), Mode::Rag),
        Task::Query("2+2".to_string(), Mode::Text),
        Task::Query("foo".to_string(), Mode::Image),
    ];
    let exchanges = vec![
        Exchange::NoCall,
        Exchange::Fetched(FetchOutcome::Lines(lines(&[r#"{"response":"4","done":true}"#]))),
        Exchange::NoCall,
    ];
    let results = process_tasks(&tasks, &exchanges);
    assert_eq!(results.len(), 3);
    assert_eq!(results[0], "RAG doc loaded (simulated).");
    assert_eq!(results[1], "4");
    assert_eq!(results[2], "Image mode: use 'image:/path'");
}
