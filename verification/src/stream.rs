//! Forwarding of a process's output, one stream at a time: bytes come in as
//! they are read, lines go out as soon as they are complete, and the lines of
//! a stream that is kept for error reporting are retained in order.

use vstd::prelude::*;
use vstd::string::StringExecFns;
use crate::lines::{
    byte_lines,
    lemma_chunking_is_invisible,
    run_lines,
    run_state,
    split_lines,
    LineSplitter,
    SplitterState,
};
use crate::text::{decode_lossy, lossy_text, texts};

verus! {

/// Which of a process's two output streams a line came from.
#[derive(Clone, Copy, Debug, PartialEq, Eq, Structural)]
pub enum StreamSource {
    Stdout,
    Stderr,
}

impl StreamSource {
    pub open spec fn spec_name(self) -> Seq<char> {
        match self {
            StreamSource::Stdout => "stdout"@,
            StreamSource::Stderr => "stderr"@,
        }
    }

    /// The stream's name as log events carry it.
    pub fn name(self) -> (name: &'static str)
        ensures
            name@ == self.spec_name(),
    {
        match self {
            StreamSource::Stdout => "stdout",
            StreamSource::Stderr => "stderr",
        }
    }
}

/// One logical line of output: where it came from, what it says, and the
/// step it belongs to when a step produced it.
#[derive(Clone, Debug, PartialEq, Eq)]
pub struct StreamLine {
    pub step: Option<String>,
    pub stream: StreamSource,
    pub text: String,
}

pub struct StreamLineView {
    pub step: Option<Seq<char>>,
    pub stream: StreamSource,
    pub text: Seq<char>,
}

impl View for StreamLine {
    type V = StreamLineView;

    open spec fn view(&self) -> StreamLineView {
        StreamLineView {
            step: match self.step {
                Some(step) => Some(step@),
                None => None,
            },
            stream: self.stream,
            text: self.text@,
        }
    }
}

/// The contents of a sequence of lines.
pub open spec fn line_views(lines: Seq<StreamLine>) -> Seq<StreamLineView> {
    lines.map_values(|line: StreamLine| line@)
}

impl StreamLine {
    /// A line of `stream` that belongs to `step`.
    pub fn tagged(step: &str, stream: StreamSource, text: &str) -> (line: StreamLine)
        ensures
            line@ == (StreamLineView { step: Some(step@), stream, text: text@ }),
    {
        StreamLine {
            step: Some(String::from_str(step)),
            stream,
            text: String::from_str(text),
        }
    }
}

/// The payload of a deployment log event as the user interface receives it.
#[derive(Clone, Debug, PartialEq, Eq)]
pub struct CoreDeployLogEvent {
    pub step: String,
    pub stream: String,
    pub line: String,
}

pub struct CoreDeployLogEventView {
    pub step: Seq<char>,
    pub stream: Seq<char>,
    pub line: Seq<char>,
}

impl View for CoreDeployLogEvent {
    type V = CoreDeployLogEventView;

    open spec fn view(&self) -> CoreDeployLogEventView {
        CoreDeployLogEventView { step: self.step@, stream: self.stream@, line: self.line@ }
    }
}

impl StreamLineView {
    /// The event payload for this line; a line outside any step has an empty
    /// step name.
    pub open spec fn event(self) -> CoreDeployLogEventView {
        CoreDeployLogEventView {
            step: match self.step {
                Some(step) => step,
                None => Seq::empty(),
            },
            stream: self.stream.spec_name(),
            line: self.text,
        }
    }
}

impl CoreDeployLogEvent {
    /// The payload for one line of one step.
    pub fn new(step: &str, stream: &str, line: &str) -> (event: CoreDeployLogEvent)
        ensures
            event@ == (CoreDeployLogEventView { step: step@, stream: stream@, line: line@ }),
    {
        CoreDeployLogEvent {
            step: String::from_str(step),
            stream: String::from_str(stream),
            line: String::from_str(line),
        }
    }

    /// The payload that carries `line` to the user interface.
    pub fn from_line(line: &StreamLine) -> (event: CoreDeployLogEvent)
        ensures
            event@ == line@.event(),
    {
        let step = match &line.step {
            Some(step) => step.clone(),
            None => String::new(),
        };
        CoreDeployLogEvent {
            step,
            stream: String::from_str(line.stream.name()),
            line: line.text.clone(),
        }
    }
}

/// The texts of `lines`, decoded lossily, without the empty ones: blank lines
/// are neither shown nor retained.
pub open spec fn visible_texts(lines: Seq<Seq<u8>>) -> Seq<Seq<char>>
    decreases lines.len(),
{
    if lines.len() == 0 {
        Seq::empty()
    } else {
        let before = visible_texts(lines.drop_last());
        let text = lossy_text(lines.last());
        if text.len() > 0 {
            before.push(text)
        } else {
            before
        }
    }
}

/// The visible texts of a concatenation are those of its parts, in order.
pub proof fn lemma_visible_texts_concat(first: Seq<Seq<u8>>, second: Seq<Seq<u8>>)
    ensures
        visible_texts(first + second) == visible_texts(first) + visible_texts(second),
    decreases second.len(),
{
    if second.len() == 0 {
        assert(first + second == first);
        assert(visible_texts(first) + Seq::<Seq<char>>::empty() == visible_texts(first));
    } else {
        let whole = first + second;
        assert(whole.drop_last() == first + second.drop_last());
        assert(whole.last() == second.last());
        lemma_visible_texts_concat(first, second.drop_last());
        let text = lossy_text(second.last());
        if text.len() > 0 {
            assert((visible_texts(first) + visible_texts(second.drop_last())).push(text)
                == visible_texts(first) + visible_texts(second.drop_last()).push(text));
        }
    }
}

/// `texts` as lines of `stream` that belong to `step`.
pub open spec fn tagged_lines(
    step: Option<Seq<char>>,
    stream: StreamSource,
    texts: Seq<Seq<char>>,
) -> Seq<StreamLineView> {
    texts.map_values(|text: Seq<char>| StreamLineView { step, stream, text })
}

/// What a forwarder is and holds: its place in the stream, the tags it puts
/// on lines, and the lines it has retained if it retains any.
pub struct ForwarderView {
    pub splitter: SplitterState,
    pub step: Option<Seq<char>>,
    pub stream: StreamSource,
    pub retained: Option<Seq<Seq<char>>>,
}

impl ForwarderView {
    pub open spec fn start(
        step: Option<Seq<char>>,
        stream: StreamSource,
        accumulate: bool,
    ) -> ForwarderView {
        ForwarderView {
            splitter: SplitterState::fresh(),
            step,
            stream,
            retained: if accumulate {
                Some(Seq::empty())
            } else {
                None
            },
        }
    }

    /// The forwarder after it has forwarded `shown`.
    pub open spec fn retaining(self, shown: Seq<Seq<char>>) -> ForwarderView {
        ForwarderView {
            retained: match self.retained {
                Some(kept) => Some(kept + shown),
                None => None,
            },
            ..self
        }
    }

    /// The lines that go to the sink when `chunk` is read.
    pub open spec fn shown_by(self, chunk: Seq<u8>) -> Seq<Seq<char>> {
        visible_texts(self.splitter.fed_lines(chunk))
    }

    /// The forwarder after `chunk`.
    pub open spec fn after_chunk(self, chunk: Seq<u8>) -> ForwarderView {
        ForwarderView { splitter: self.splitter.feed(chunk), ..self.retaining(self.shown_by(chunk)) }
    }

    /// The lines that go to the sink when the stream ends.
    pub open spec fn shown_at_end(self) -> Seq<Seq<char>> {
        visible_texts(self.splitter.flushed())
    }

    /// The forwarder after the end of the stream.
    pub open spec fn after_end(self) -> ForwarderView {
        ForwarderView { splitter: SplitterState::fresh(), ..self.retaining(self.shown_at_end()) }
    }
}

/// Forwards one output stream of one process: splits what is read into
/// lines, decodes them, drops blank ones, tags the rest and, where asked,
/// retains their text.
pub struct StreamForwarder {
    splitter: LineSplitter,
    step: Option<String>,
    stream: StreamSource,
    retained: Option<Vec<String>>,
}

impl View for StreamForwarder {
    type V = ForwarderView;

    closed spec fn view(&self) -> ForwarderView {
        ForwarderView {
            splitter: self.splitter@,
            step: match self.step {
                Some(step) => Some(step@),
                None => None,
            },
            stream: self.stream,
            retained: match self.retained {
                Some(kept) => Some(texts(kept@)),
                None => None,
            },
        }
    }
}

impl StreamForwarder {
    /// A forwarder at the start of `stream`. Lines are tagged with `step`
    /// where one is given, and retained when `accumulate` is set.
    pub fn new(step: Option<String>, stream: StreamSource, accumulate: bool) -> (forwarder:
        StreamForwarder)
        ensures
            forwarder@ == ForwarderView::start(
                match step {
                    Some(step) => Some(step@),
                    None => None,
                },
                stream,
                accumulate,
            ),
    {
        let retained: Option<Vec<String>> = if accumulate {
            Some(Vec::new())
        } else {
            None
        };
        let forwarder = StreamForwarder { splitter: LineSplitter::new(), step, stream, retained };
        proof {
            if accumulate {
                assert(texts(forwarder.retained->0@) =~= Seq::<Seq<char>>::empty());
            }
        }
        forwarder
    }

    /// Decides what becomes of one decoded line: a blank line is dropped; any
    /// other is retained, where the forwarder retains, and then handed out
    /// with its tags.
    pub fn forward_line(&mut self, text: String) -> (line: Option<StreamLine>)
        ensures
            text@.len() == 0 ==> line is None && final(self)@ == old(self)@,
            text@.len() > 0 ==> line is Some && line->0@ == (StreamLineView {
                step: old(self)@.step,
                stream: old(self)@.stream,
                text: text@,
            }) && final(self)@ == old(self)@.retaining(seq![text@]),
    {
        if text.as_str().is_empty() {
            proof {
                if self.retained is Some {
                    assert(texts(self.retained->0@) + Seq::<Seq<char>>::empty() == texts(
                        self.retained->0@,
                    ));
                }
            }
            return None;
        }
        let ghost before = self@;
        match &mut self.retained {
            Some(kept) => {
                let ghost held = kept@;
                kept.push(text.clone());
                proof {
                    assert(texts(kept@) =~= texts(held) + seq![text@]);
                }
            },
            None => {},
        }
        let step = match &self.step {
            Some(step) => Some(step.clone()),
            None => None,
        };
        Some(StreamLine { step, stream: self.stream, text })
    }

    /// Forwards the lines that were handed out by the splitter.
    fn forward_all(&mut self, lines: Vec<Vec<u8>>) -> (shown: Vec<StreamLine>)
        ensures
            final(self)@ == old(self)@.retaining(visible_texts(byte_lines(lines@))),
            line_views(shown@) == tagged_lines(
                old(self)@.step,
                old(self)@.stream,
                visible_texts(byte_lines(lines@)),
            ),
    {
        let ghost start = self@;
        let ghost all = byte_lines(lines@);
        let mut shown: Vec<StreamLine> = Vec::new();
        let mut i: usize = 0;
        proof {
            assert(all.take(0) == Seq::<Seq<u8>>::empty());
            assert(start.retaining(Seq::empty()) == start) by {
                if start.retained is Some {
                    assert(start.retained->0 + Seq::<Seq<char>>::empty() == start.retained->0);
                }
            }
            assert(line_views(shown@) =~= tagged_lines(start.step, start.stream, Seq::empty()));
        }
        while i < lines.len()
            invariant
                i <= lines.len(),
                all == byte_lines(lines@),
                self@ == start.retaining(visible_texts(all.take(i as int))),
                line_views(shown@) == tagged_lines(
                    start.step,
                    start.stream,
                    visible_texts(all.take(i as int)),
                ),
            decreases lines.len() - i,
        {
            let ghost done = visible_texts(all.take(i as int));
            let ghost before = shown@;
            let text = decode_lossy(lines[i].as_slice());
            proof {
                assert(all.take(i + 1).drop_last() == all.take(i as int));
                assert(all.take(i + 1).last() == lines@[i as int]@);
            }
            match self.forward_line(text) {
                Some(line) => {
                    shown.push(line);
                    proof {
                        let now = done.push(text@);
                        assert(start.retaining(done).retaining(seq![text@]) == start.retaining(
                            now,
                        )) by {
                            if start.retained is Some {
                                assert((start.retained->0 + done) + seq![text@]
                                    == start.retained->0 + now);
                            }
                        }
                        assert(line_views(shown@) =~= line_views(before).push(line@));
                        assert(tagged_lines(start.step, start.stream, now) =~= tagged_lines(
                            start.step,
                            start.stream,
                            done,
                        ).push(line@));
                    }
                },
                None => {},
            }
            i = i + 1;
        }
        proof {
            assert(all.take(lines@.len() as int) == all);
        }
        shown
    }

    /// Takes the next bytes read from the stream and hands out the lines to
    /// show, in the order in which the process wrote them.
    pub fn push_chunk(&mut self, chunk: &[u8]) -> (shown: Vec<StreamLine>)
        ensures
            final(self)@ == old(self)@.after_chunk(chunk@),
            line_views(shown@) == tagged_lines(
                old(self)@.step,
                old(self)@.stream,
                old(self)@.shown_by(chunk@),
            ),
    {
        let lines = self.splitter.feed(chunk);
        self.forward_all(lines)
    }

    /// Ends the stream and hands out the last line, if one was begun and is
    /// not blank.
    pub fn finish(&mut self) -> (shown: Vec<StreamLine>)
        ensures
            final(self)@ == old(self)@.after_end(),
            line_views(shown@) == tagged_lines(
                old(self)@.step,
                old(self)@.stream,
                old(self)@.shown_at_end(),
            ),
    {
        let mut lines: Vec<Vec<u8>> = Vec::new();
        match self.splitter.finish() {
            Some(line) => {
                lines.push(line);
                proof {
                    assert(byte_lines(lines@) =~= seq![line@]);
                }
            },
            None => {
                proof {
                    assert(byte_lines(lines@) =~= Seq::<Seq<u8>>::empty());
                }
            },
        }
        self.forward_all(lines)
    }

    /// The texts retained so far, in the order in which they were forwarded;
    /// `None` where the forwarder retains nothing.
    pub fn retained(&self) -> (kept: Option<&Vec<String>>)
        ensures
            match kept {
                Some(kept) => self@.retained == Some(texts(kept@)),
                None => self@.retained is None,
            },
    {
        self.retained.as_ref()
    }

    /// Gives up the forwarder for what it has retained.
    pub fn into_retained(self) -> (kept: Option<Vec<String>>)
        ensures
            match kept {
                Some(kept) => self@.retained == Some(texts(kept@)),
                None => self@.retained is None,
            },
    {
        self.retained
    }
}

/// The texts that go to the sink while `chunks` are read in order.
pub open spec fn run_shown(forwarder: ForwarderView, chunks: Seq<Seq<u8>>) -> Seq<Seq<char>>
    decreases chunks.len(),
{
    if chunks.len() == 0 {
        Seq::empty()
    } else {
        forwarder.shown_by(chunks.first()) + run_shown(
            forwarder.after_chunk(chunks.first()),
            chunks.drop_first(),
        )
    }
}

/// The forwarder after `chunks` have been read in order.
pub open spec fn run_forwarder(forwarder: ForwarderView, chunks: Seq<Seq<u8>>) -> ForwarderView
    decreases chunks.len(),
{
    if chunks.len() == 0 {
        forwarder
    } else {
        run_forwarder(forwarder.after_chunk(chunks.first()), chunks.drop_first())
    }
}

proof fn lemma_run_forwarder(forwarder: ForwarderView, chunks: Seq<Seq<u8>>)
    ensures
        run_shown(forwarder, chunks) == visible_texts(run_lines(forwarder.splitter, chunks)),
        run_forwarder(forwarder, chunks) == (ForwarderView {
            splitter: run_state(forwarder.splitter, chunks),
            ..forwarder.retaining(run_shown(forwarder, chunks))
        }),
    decreases chunks.len(),
{
    if chunks.len() == 0 {
        if forwarder.retained is Some {
            assert(forwarder.retained->0 + Seq::<Seq<char>>::empty() == forwarder.retained->0);
        }
    } else {
        let first = chunks.first();
        let next = forwarder.after_chunk(first);
        lemma_run_forwarder(next, chunks.drop_first());
        lemma_visible_texts_concat(
            forwarder.splitter.fed_lines(first),
            run_lines(next.splitter, chunks.drop_first()),
        );
        if forwarder.retained is Some {
            assert((forwarder.retained->0 + forwarder.shown_by(first)) + run_shown(
                next,
                chunks.drop_first(),
            ) == forwarder.retained->0 + run_shown(forwarder, chunks));
        }
    }
}

/// For every stream and every way of cutting it into chunks, the lines that
/// a forwarder shows while reading, followed by what it shows at the end,
/// are the non-blank logical lines of the whole stream, decoded, in order;
/// a forwarder that retains has retained exactly these.
pub proof fn lemma_forwarder_shows_logical_lines(
    step: Option<Seq<char>>,
    stream: StreamSource,
    accumulate: bool,
    chunks: Seq<Seq<u8>>,
)
    ensures
        ({
            let start = ForwarderView::start(step, stream, accumulate);
            let end = run_forwarder(start, chunks);
            let all = visible_texts(split_lines(chunks.flatten()));
            &&& run_shown(start, chunks) + end.shown_at_end() == all
            &&& end.after_end().retained == if accumulate {
                Some(all)
            } else {
                None
            }
        }),
{
    let start = ForwarderView::start(step, stream, accumulate);
    let end = run_forwarder(start, chunks);
    lemma_run_forwarder(start, chunks);
    lemma_chunking_is_invisible(chunks);
    lemma_visible_texts_concat(run_lines(start.splitter, chunks), end.splitter.flushed());
    if accumulate {
        let shown = run_shown(start, chunks);
        assert((Seq::<Seq<char>>::empty() + shown) + end.shown_at_end() == shown
            + end.shown_at_end());
    }
}

} // verus!
