use imgforge::error::AppError;
use imgforge::gateway::{next_action, open_session, GatewayAction};
use imgforge::log_sink::LogSink;

#[test]
fn reader_of_unknown_log_is_not_found() {
    let sink = LogSink::new();
    let result = sink.open_reader("job-1");
    assert_eq!(result.err(), Some(AppError::NotFound("No log for job job-1".to_string())));
    assert!(!sink.has_log("job-1"));
    assert_eq!(sink.line_count("job-1"), 0);
}

#[test]
fn reader_after_first_append_yields_that_line() {
    let mut sink = LogSink::new();
    sink.append("job-1", "hello");
    assert!(sink.has_log("job-1"));
    let mut reader = sink.open_reader("job-1").unwrap();
    assert_eq!(reader.job_id(), "job-1");
    assert_eq!(reader.position(), 0);
    assert_eq!(sink.next_line(&mut reader), Some("hello".to_string()));
    assert_eq!(reader.position(), 1);
    assert_eq!(sink.next_line(&mut reader), None);
    assert_eq!(reader.position(), 1);
}

#[test]
fn appends_keep_arrival_order_per_job() {
    let mut sink = LogSink::new();
    sink.append("a", "a1");
    sink.append("b", "b1");
    sink.append("a", "a2");
    sink.append("b", "b2");
    sink.append("a", "a3");
    assert_eq!(
        sink.replay("a").unwrap(),
        vec!["a1".to_string(), "a2".to_string(), "a3".to_string()]
    );
    assert_eq!(sink.replay("b").unwrap(), vec!["b1".to_string(), "b2".to_string()]);
    assert_eq!(sink.line_count("a"), 3);
    assert_eq!(sink.line_count("b"), 2);
}

#[test]
fn replay_of_unknown_log_is_not_found() {
    let mut sink = LogSink::new();
    sink.append("a", "a1");
    assert_eq!(sink.replay("b"), Err(AppError::NotFound("No log for job b".to_string())));
}

#[test]
fn reader_sees_lines_appended_after_it_was_opened() {
    let mut sink = LogSink::new();
    sink.append("a", "one");
    let mut reader = sink.open_reader("a").unwrap();
    assert_eq!(sink.next_line(&mut reader), Some("one".to_string()));
    assert_eq!(sink.next_line(&mut reader), None);
    sink.append("a", "two");
    sink.append("b", "other");
    sink.append("a", "three");
    assert_eq!(sink.next_line(&mut reader), Some("two".to_string()));
    assert_eq!(sink.next_line(&mut reader), Some("three".to_string()));
    assert_eq!(sink.next_line(&mut reader), None);
    assert_eq!(reader.position(), 3);
}

#[test]
fn readers_are_independent() {
    let mut sink = LogSink::new();
    sink.append("a", "one");
    sink.append("a", "two");
    let mut first = sink.open_reader("a").unwrap();
    let mut second = sink.open_reader("a").unwrap();
    assert_eq!(sink.next_line(&mut first), Some("one".to_string()));
    assert_eq!(sink.next_line(&mut first), Some("two".to_string()));
    assert_eq!(sink.next_line(&mut second), Some("one".to_string()));
    assert_eq!(first.position(), 2);
    assert_eq!(second.position(), 1);
}

#[test]
fn observed_lines_are_a_prefix_of_the_final_log() {
    let mut sink = LogSink::new();
    sink.append("a", "l1");
    sink.append("a", "l2");
    let mut reader = open_session(&sink, "a").unwrap();
    let mut seen: Vec<String> = Vec::new();
    loop {
        match next_action(&sink, &mut reader, true) {
            GatewayAction::Send(line) => seen.push(line),
            GatewayAction::Close => break,
        }
    }
    sink.append("a", "l3");
    sink.append("a", "l4");
    let all = sink.replay("a").unwrap();
    assert_eq!(seen, vec!["l1".to_string(), "l2".to_string()]);
    assert_eq!(all.len(), 4);
    assert_eq!(&all[..seen.len()], &seen[..]);
}

#[test]
fn session_on_unknown_log_is_not_found() {
    let sink = LogSink::new();
    let result = open_session(&sink, "ghost");
    assert_eq!(result.err(), Some(AppError::NotFound("No log for job ghost".to_string())));
}

#[test]
fn session_closes_after_a_failed_delivery() {
    let mut sink = LogSink::new();
    sink.append("a", "l1");
    sink.append("a", "l2");
    let mut reader = open_session(&sink, "a").unwrap();
    assert_eq!(next_action(&sink, &mut reader, true), GatewayAction::Send("l1".to_string()));
    assert_eq!(next_action(&sink, &mut reader, false), GatewayAction::Close);
    assert_eq!(reader.position(), 1);
}

#[test]
fn session_closes_at_the_current_end() {
    let mut sink = LogSink::new();
    sink.append("a", "only");
    let mut reader = open_session(&sink, "a").unwrap();
    assert_eq!(next_action(&sink, &mut reader, true), GatewayAction::Send("only".to_string()));
    assert_eq!(next_action(&sink, &mut reader, true), GatewayAction::Close);
    assert_eq!(next_action(&sink, &mut reader, true), GatewayAction::Close);
}

#[test]
fn empty_line_is_a_line() {
    let mut sink = LogSink::new();
    sink.append("a", "");
    assert_eq!(sink.replay("a").unwrap(), vec!["".to_string()]);
    assert_eq!(sink.line_count("a"), 1);
}
