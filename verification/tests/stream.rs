use indextts_launcher::stream::{CoreDeployLogEvent, StreamForwarder, StreamLine, StreamSource};

fn texts(lines: &[StreamLine]) -> Vec<String> {
    lines.iter().map(|line| line.text.clone()).collect()
}

#[test]
fn forwarder_tags_lines_with_step_and_stream() {
    let mut forwarder = StreamForwarder::new(Some("clone_repo".to_string()), StreamSource::Stdout, false);
    let shown = forwarder.push_chunk(b"Cloning into 'x'...\n");
    assert_eq!(
        shown,
        vec![StreamLine {
            step: Some("clone_repo".to_string()),
            stream: StreamSource::Stdout,
            text: "Cloning into 'x'...".to_string(),
        }]
    );
}

#[test]
fn forwarder_drops_blank_lines() {
    let mut forwarder = StreamForwarder::new(None, StreamSource::Stdout, true);
    let shown = forwarder.push_chunk(b"a\n\n\r\nb\n");
    assert_eq!(texts(&shown), vec!["a", "b"]);
    assert_eq!(forwarder.retained(), Some(&vec!["a".to_string(), "b".to_string()]));
}

#[test]
fn forwarder_without_accumulation_retains_nothing() {
    let mut forwarder = StreamForwarder::new(None, StreamSource::Stderr, false);
    forwarder.push_chunk(b"a\nb\n");
    assert_eq!(forwarder.retained(), None);
    assert_eq!(forwarder.into_retained(), None);
}

#[test]
fn forwarder_flushes_partial_line_at_end() {
    let mut forwarder = StreamForwarder::new(Some("s".to_string()), StreamSource::Stderr, true);
    assert_eq!(texts(&forwarder.push_chunk(b"fatal: ")), Vec::<String>::new());
    assert_eq!(texts(&forwarder.push_chunk(b"not found")), Vec::<String>::new());
    assert_eq!(texts(&forwarder.finish()), vec!["fatal: not found"]);
    assert_eq!(texts(&forwarder.finish()), Vec::<String>::new());
    assert_eq!(forwarder.into_retained(), Some(vec!["fatal: not found".to_string()]));
}

#[test]
fn forwarder_replaces_invalid_bytes() {
    let mut forwarder = StreamForwarder::new(None, StreamSource::Stdout, false);
    let shown = forwarder.push_chunk(b"ok \xff!\n");
    assert_eq!(texts(&shown), vec!["ok \u{fffd}!"]);
}

#[test]
fn forwarder_decodes_character_cut_by_a_read() {
    let bytes = "进度 50%\n".as_bytes();
    let mut forwarder = StreamForwarder::new(None, StreamSource::Stdout, true);
    let mut shown = forwarder.push_chunk(&bytes[..2]);
    shown.extend(forwarder.push_chunk(&bytes[2..]));
    assert_eq!(texts(&shown), vec!["进度 50%"]);
}

#[test]
fn forwarder_keeps_order_across_chunks() {
    let stream: &[u8] = b"one\r\ntwo\rthree\n\nfour";
    for cut in 0..=stream.len() {
        let mut forwarder = StreamForwarder::new(None, StreamSource::Stderr, true);
        let mut shown = forwarder.push_chunk(&stream[..cut]);
        shown.extend(forwarder.push_chunk(&stream[cut..]));
        shown.extend(forwarder.finish());
        assert_eq!(texts(&shown), vec!["one", "two", "three", "four"], "cut at {}", cut);
        assert_eq!(forwarder.into_retained(), Some(texts(&shown)));
    }
}

#[test]
fn forward_line_passes_text_and_drops_empty() {
    let mut forwarder = StreamForwarder::new(Some("x".to_string()), StreamSource::Stderr, true);
    assert_eq!(forwarder.forward_line(String::new()), None);
    let line = forwarder.forward_line("warning".to_string());
    assert_eq!(
        line,
        Some(StreamLine {
            step: Some("x".to_string()),
            stream: StreamSource::Stderr,
            text: "warning".to_string(),
        })
    );
    assert_eq!(forwarder.retained(), Some(&vec!["warning".to_string()]));
}

#[test]
fn stream_names() {
    assert_eq!(StreamSource::Stdout.name(), "stdout");
    assert_eq!(StreamSource::Stderr.name(), "stderr");
}

#[test]
fn log_event_from_line() {
    let line = StreamLine::tagged("setup_env", StreamSource::Stderr, "Resolved 3 packages");
    let event = CoreDeployLogEvent::from_line(&line);
    assert_eq!(event, CoreDeployLogEvent::new("setup_env", "stderr", "Resolved 3 packages"));
    assert_eq!(event.step, "setup_env");
    assert_eq!(event.stream, "stderr");
    assert_eq!(event.line, "Resolved 3 packages");
}

#[test]
fn log_event_from_line_without_step() {
    let line = StreamLine { step: None, stream: StreamSource::Stdout, text: "up".to_string() };
    let event = CoreDeployLogEvent::from_line(&line);
    assert_eq!(event.step, "");
    assert_eq!(event.stream, "stdout");
    assert_eq!(event.line, "up");
}
