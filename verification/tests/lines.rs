use indextts_launcher::lines::LineSplitter;

fn lines_of(chunks: &[&[u8]]) -> Vec<Vec<u8>> {
    let mut splitter = LineSplitter::new();
    let mut all = Vec::new();
    for chunk in chunks {
        all.extend(splitter.feed(chunk));
    }
    all.extend(splitter.finish());
    all
}

fn owned(lines: &[&str]) -> Vec<Vec<u8>> {
    lines.iter().map(|line| line.as_bytes().to_vec()).collect()
}

#[test]
fn splits_mixed_line_endings() {
    let mut splitter = LineSplitter::new();
    let lines = splitter.feed(b"one\ntwo\r\nthree\rfour");
    assert_eq!(lines, owned(&["one", "two", "three"]));
    assert_eq!(splitter.finish(), Some(b"four".to_vec()));
    assert_eq!(splitter.finish(), None);
}

#[test]
fn carriage_return_and_line_feed_in_two_chunks_are_one_break() {
    let mut splitter = LineSplitter::new();
    assert_eq!(splitter.feed(b"a\r"), owned(&["a"]));
    assert_eq!(splitter.feed(b"\nb\n"), owned(&["b"]));
    assert_eq!(splitter.finish(), None);
}

#[test]
fn carriage_return_is_a_break_at_once() {
    let mut splitter = LineSplitter::new();
    assert_eq!(splitter.feed(b"10%\r"), owned(&["10%"]));
    assert_eq!(splitter.feed(b"20%\r"), owned(&["20%"]));
    assert_eq!(splitter.finish(), None);
}

#[test]
fn blank_lines_are_lines() {
    assert_eq!(lines_of(&[b"a\n\nb"]), owned(&["a", "", "b"]));
    assert_eq!(lines_of(&[b"\r\n"]), owned(&[""]));
    assert_eq!(lines_of(&[b"\r\r"]), owned(&["", ""]));
    assert_eq!(lines_of(&[b"\n\r"]), owned(&["", ""]));
}

#[test]
fn empty_stream_has_no_line() {
    assert_eq!(lines_of(&[]), owned(&[]));
    assert_eq!(lines_of(&[b"", b""]), owned(&[]));
}

#[test]
fn last_line_without_break_is_flushed() {
    assert_eq!(lines_of(&[b"only"]), owned(&["only"]));
    assert_eq!(lines_of(&[b"a\n", b"tail"]), owned(&["a", "tail"]));
}

#[test]
fn trailing_break_adds_no_line() {
    assert_eq!(lines_of(&[b"a\n"]), owned(&["a"]));
    assert_eq!(lines_of(&[b"a\r\n"]), owned(&["a"]));
    assert_eq!(lines_of(&[b"a\r"]), owned(&["a"]));
}

#[test]
fn every_cut_of_a_stream_gives_the_same_lines() {
    let stream: &[u8] = b"alpha\r\nbeta\rgamma\n\n\r\r\ndelta\r";
    let whole = lines_of(&[stream]);
    assert_eq!(whole, owned(&["alpha", "beta", "gamma", "", "", "", "delta"]));
    for first in 0..=stream.len() {
        for second in first..=stream.len() {
            let cut = lines_of(&[&stream[..first], &stream[first..second], &stream[second..]]);
            assert_eq!(cut, whole, "cut at {} and {}", first, second);
        }
    }
}

#[test]
fn byte_by_byte_gives_the_same_lines() {
    let stream: &[u8] = b"x\r\ny\r\r\nz";
    let mut splitter = LineSplitter::new();
    let mut all = Vec::new();
    for byte in stream {
        all.extend(splitter.feed(&[*byte]));
    }
    all.extend(splitter.finish());
    assert_eq!(all, owned(&["x", "y", "", "z"]));
}

#[test]
fn a_finished_splitter_starts_afresh() {
    let mut splitter = LineSplitter::new();
    assert_eq!(splitter.feed(b"a\r"), owned(&["a"]));
    assert_eq!(splitter.finish(), None);
    assert_eq!(splitter.feed(b"\nb"), owned(&[""]));
    assert_eq!(splitter.finish(), Some(b"b".to_vec()));
}
