//! Logical lines of a byte stream. A line ends at a line feed, at a carriage
//! return, or at a carriage return directly followed by a line feed; the pair
//! counts as one break. What follows the last break is the unfinished line.
//!
//! `split_lines` says what the lines of a whole stream are. `LineSplitter`
//! hands them out while the stream is still being read, and
//! `lemma_chunking_is_invisible` shows that it hands out the same lines
//! however the stream is cut into reads.

use vstd::prelude::*;

verus! {

pub const LF: u8 = 0x0A;

pub const CR: u8 = 0x0D;

pub open spec fn is_break(byte: u8) -> bool {
    byte == LF || byte == CR
}

/// No byte of `bytes` is a break.
pub open spec fn unbroken(bytes: Seq<u8>) -> bool {
    forall|i: int| 0 <= i < bytes.len() ==> !is_break(#[trigger] bytes[i])
}

/// The position of the first break byte, or the length where there is none.
pub open spec fn first_break(bytes: Seq<u8>) -> int
    decreases bytes.len(),
{
    if bytes.len() == 0 || is_break(bytes[0]) {
        0
    } else {
        1 + first_break(bytes.skip(1))
    }
}

/// How many bytes the break at position `at` takes up: two for a carriage
/// return with its line feed, one otherwise.
pub open spec fn break_len(bytes: Seq<u8>, at: int) -> int {
    if bytes[at] == CR && at + 1 < bytes.len() && bytes[at + 1] == LF {
        2
    } else {
        1
    }
}

/// What follows the first break of `bytes`.
pub open spec fn after_first_break(bytes: Seq<u8>) -> Seq<u8> {
    let at = first_break(bytes);
    bytes.skip(at + break_len(bytes, at))
}

/// The lines of `bytes` that a break has ended, in order.
pub open spec fn complete_lines(bytes: Seq<u8>) -> Seq<Seq<u8>>
    decreases bytes.len(),
    via complete_lines_decreases
{
    let at = first_break(bytes);
    if at >= bytes.len() {
        Seq::empty()
    } else {
        seq![bytes.take(at)] + complete_lines(after_first_break(bytes))
    }
}

/// What follows the last break of `bytes`: the line that no break has ended.
pub open spec fn unfinished(bytes: Seq<u8>) -> Seq<u8>
    decreases bytes.len(),
    via unfinished_decreases
{
    let at = first_break(bytes);
    if at >= bytes.len() {
        bytes
    } else {
        unfinished(after_first_break(bytes))
    }
}

/// The logical lines of a whole stream: every line that a break has ended,
/// then the unfinished line if it holds any byte.
pub open spec fn split_lines(bytes: Seq<u8>) -> Seq<Seq<u8>> {
    let last = unfinished(bytes);
    if last.len() == 0 {
        complete_lines(bytes)
    } else {
        complete_lines(bytes).push(last)
    }
}

pub proof fn lemma_first_break(bytes: Seq<u8>)
    ensures
        0 <= first_break(bytes) <= bytes.len(),
        unbroken(bytes.take(first_break(bytes))),
        first_break(bytes) < bytes.len() ==> is_break(bytes[first_break(bytes)]),
    decreases bytes.len(),
{
    if bytes.len() == 0 || is_break(bytes[0]) {
    } else {
        let rest = bytes.skip(1);
        lemma_first_break(rest);
        let at = first_break(bytes);
        assert forall|i: int| 0 <= i < at implies !is_break(#[trigger] bytes.take(at)[i]) by {
            if i > 0 {
                assert(bytes.take(at)[i] == rest.take(at - 1)[i - 1]);
            }
        }
        if at < bytes.len() {
            assert(bytes[at] == rest[at - 1]);
        }
    }
}

#[via_fn]
proof fn complete_lines_decreases(bytes: Seq<u8>) {
    lemma_first_break(bytes);
}

#[via_fn]
proof fn unfinished_decreases(bytes: Seq<u8>) {
    lemma_first_break(bytes);
}

/// The first break of `bytes` is at `at` when a break byte stands there and
/// none stands before it.
pub proof fn lemma_first_break_at(bytes: Seq<u8>, at: int)
    requires
        0 <= at <= bytes.len(),
        unbroken(bytes.take(at)),
        at < bytes.len() ==> is_break(bytes[at]),
    ensures
        first_break(bytes) == at,
    decreases at,
{
    if at == 0 {
    } else {
        assert(bytes.take(at)[0] == bytes[0]);
        let rest = bytes.skip(1);
        assert forall|i: int| 0 <= i < at - 1 implies !is_break(
            #[trigger] rest.take(at - 1)[i],
        ) by {
            assert(rest.take(at - 1)[i] == bytes.take(at)[i + 1]);
        }
        lemma_first_break_at(rest, at - 1);
    }
}

/// Bytes without a break hold no complete line and are unfinished as a whole.
pub proof fn lemma_unbroken(bytes: Seq<u8>)
    requires
        unbroken(bytes),
    ensures
        first_break(bytes) == bytes.len(),
        complete_lines(bytes) == Seq::<Seq<u8>>::empty(),
        unfinished(bytes) == bytes,
{
    assert(bytes.take(bytes.len() as int) == bytes);
    lemma_first_break_at(bytes, bytes.len() as int);
}

/// The unfinished line holds no break.
pub proof fn lemma_unfinished_unbroken(bytes: Seq<u8>)
    ensures
        unbroken(unfinished(bytes)),
        bytes.len() > 0 && is_break(bytes.last()) ==> unfinished(bytes).len() == 0,
    decreases bytes.len(),
{
    lemma_first_break(bytes);
    let at = first_break(bytes);
    if at >= bytes.len() {
        assert(bytes.take(at) == bytes);
    } else {
        lemma_unfinished_unbroken(after_first_break(bytes));
        let rest = after_first_break(bytes);
        if rest.len() > 0 {
            assert(rest.last() == bytes.last());
        }
    }
}

/// The bytes with every break written as one line feed.
pub open spec fn normalized(bytes: Seq<u8>) -> Seq<u8>
    decreases bytes.len(),
{
    if bytes.len() == 0 {
        Seq::empty()
    } else if is_break(bytes[0]) {
        seq![LF] + normalized(bytes.skip(break_len(bytes, 0)))
    } else {
        seq![bytes[0]] + normalized(bytes.skip(1))
    }
}

/// Up to its first break, normalising leaves a stream as it is; the break
/// becomes a line feed; what follows is normalised by itself.
proof fn lemma_normalized_first_break(bytes: Seq<u8>)
    ensures
        first_break(bytes) >= bytes.len() ==> normalized(bytes) == bytes,
        first_break(bytes) < bytes.len() ==> normalized(bytes) == bytes.take(first_break(bytes))
            + seq![LF] + normalized(after_first_break(bytes)),
    decreases bytes.len(),
{
    lemma_first_break(bytes);
    let at = first_break(bytes);
    if bytes.len() == 0 {
    } else if is_break(bytes[0]) {
        assert(bytes.take(0) == Seq::<u8>::empty());
        assert(Seq::<u8>::empty() + seq![LF] == seq![LF]);
    } else {
        let rest = bytes.skip(1);
        lemma_normalized_first_break(rest);
        lemma_first_break(rest);
        if at >= bytes.len() {
            assert(seq![bytes[0]] + rest == bytes);
        } else {
            assert(bytes[at] == rest[at - 1]);
            if at + 1 < bytes.len() {
                assert(bytes[at + 1] == rest[at]);
            }
            assert(break_len(bytes, at) == break_len(rest, at - 1));
            assert(after_first_break(bytes) == after_first_break(rest));
            assert(seq![bytes[0]] + rest.take(at - 1) == bytes.take(at));
            assert(seq![bytes[0]] + (rest.take(at - 1) + seq![LF] + normalized(
                after_first_break(rest),
            )) == bytes.take(at) + seq![LF] + normalized(after_first_break(bytes)));
        }
    }
}

/// The logical lines of a stream are those of the stream with every break
/// written as one line feed, in which a line ends at a line feed and
/// nowhere else: the three ways of writing a break give the same lines.
pub proof fn lemma_lines_of_normalized(bytes: Seq<u8>)
    ensures
        forall|i: int| 0 <= i < normalized(bytes).len() ==> #[trigger] normalized(bytes)[i] != CR,
        complete_lines(normalized(bytes)) == complete_lines(bytes),
        unfinished(normalized(bytes)) == unfinished(bytes),
        split_lines(normalized(bytes)) == split_lines(bytes),
    decreases bytes.len(),
{
    lemma_first_break(bytes);
    lemma_normalized_first_break(bytes);
    let at = first_break(bytes);
    let plain = normalized(bytes);
    if at >= bytes.len() {
        assert(bytes.take(at) == bytes);
    } else {
        let rest = after_first_break(bytes);
        lemma_lines_of_normalized(rest);
        let head = bytes.take(at);
        assert(plain == head + seq![LF] + normalized(rest));
        assert(plain.take(at) == head);
        assert(plain[at] == LF);
        lemma_first_break_at(plain, at);
        assert(after_first_break(plain) == normalized(rest)) by {
            if at + 1 < plain.len() {
                assert(plain[at + 1] == normalized(rest)[0]);
            }
            assert(plain.skip(at + 1) == normalized(rest));
        }
        assert forall|i: int| 0 <= i < plain.len() implies #[trigger] plain[i] != CR by {
            if i < at {
                assert(plain[i] == head[i]);
            } else if i > at {
                assert(plain[i] == normalized(rest)[i - at - 1]);
            }
        }
    }
}

/// Where an incremental splitter stands between two chunks: the bytes of the
/// line it has begun, and whether the byte before was a carriage return whose
/// line feed may still come.
pub struct SplitterState {
    pub carry: Seq<u8>,
    pub after_cr: bool,
}

impl SplitterState {
    /// The state before any byte.
    pub open spec fn fresh() -> SplitterState {
        SplitterState { carry: Seq::empty(), after_cr: false }
    }

    /// The begun line holds no break, and is empty right after a carriage
    /// return.
    pub open spec fn wf(self) -> bool {
        unbroken(self.carry) && (self.after_cr ==> self.carry.len() == 0)
    }

    /// The part of `chunk` that counts: a leading line feed that completes a
    /// carriage return of the chunk before is left out.
    pub open spec fn effective(self, chunk: Seq<u8>) -> Seq<u8> {
        if self.after_cr && chunk.len() > 0 && chunk[0] == LF {
            chunk.skip(1)
        } else {
            chunk
        }
    }

    /// The lines that `chunk` completes.
    pub open spec fn fed_lines(self, chunk: Seq<u8>) -> Seq<Seq<u8>> {
        complete_lines(self.carry + self.effective(chunk))
    }

    /// The state after `chunk`.
    pub open spec fn feed(self, chunk: Seq<u8>) -> SplitterState {
        SplitterState {
            carry: unfinished(self.carry + self.effective(chunk)),
            after_cr: if chunk.len() == 0 {
                self.after_cr
            } else {
                chunk.last() == CR
            },
        }
    }

    /// The line handed out when the stream ends: the begun line, if it holds
    /// any byte.
    pub open spec fn flushed(self) -> Seq<Seq<u8>> {
        if self.carry.len() == 0 {
            Seq::empty()
        } else {
            seq![self.carry]
        }
    }
}

/// The state of a splitter that started fresh and has read `consumed`.
pub open spec fn state_after(consumed: Seq<u8>) -> SplitterState {
    SplitterState {
        carry: unfinished(consumed),
        after_cr: consumed.len() > 0 && consumed.last() == CR,
    }
}

/// Reading `more` after `consumed` completes exactly the lines that the
/// concatenation has beyond those of `consumed`, and leaves the unfinished
/// line of the concatenation.
pub proof fn lemma_resume(consumed: Seq<u8>, more: Seq<u8>)
    ensures
        complete_lines(consumed + more) == complete_lines(consumed) + state_after(
            consumed,
        ).fed_lines(more),
        state_after(consumed + more) == state_after(consumed).feed(more),
    decreases consumed.len(),
{
    lemma_first_break(consumed);
    let at = first_break(consumed);
    let state = state_after(consumed);
    let whole = consumed + more;
    if more.len() == 0 {
        assert(whole == consumed);
    } else {
        assert(whole.last() == more.last());
    }
    if at >= consumed.len() {
        assert(consumed.take(at) == consumed);
        lemma_unbroken(consumed);
        if consumed.len() > 0 {
            assert(!is_break(consumed[consumed.len() - 1]));
        }
        assert(state.effective(more) == more);
        assert(complete_lines(consumed) + state.fed_lines(more) == state.fed_lines(more));
    } else {
        let rest = after_first_break(consumed);
        assert(whole.take(at) == consumed.take(at));
        assert(whole[at] == consumed[at]);
        lemma_first_break_at(whole, at);
        if consumed[at] == CR && at + 1 == consumed.len() && more.len() > 0 && more[0] == LF {
            assert(whole[at + 1] == more[0]);
            assert(after_first_break(whole) == more.skip(1));
            assert(rest == Seq::<u8>::empty());
            lemma_unbroken(rest);
            assert(consumed.last() == consumed[at]);
            assert(state.carry == Seq::<u8>::empty());
            assert(state.carry + state.effective(more) == more.skip(1));
            assert(complete_lines(consumed) == seq![consumed.take(at)]);
        } else {
            if at + 1 < consumed.len() {
                assert(whole[at + 1] == consumed[at + 1]);
            } else if more.len() > 0 {
                assert(whole[at + 1] == more[0]);
            }
            assert(break_len(whole, at) == break_len(consumed, at));
            assert(after_first_break(whole) == rest + more);
            lemma_resume(rest, more);
            let inner = state_after(rest);
            assert(inner.carry == state.carry);
            if rest.len() > 0 {
                assert(rest.last() == consumed.last());
            }
            assert(inner.effective(more) == state.effective(more));
            assert(complete_lines(whole) == seq![consumed.take(at)] + (complete_lines(rest)
                + inner.fed_lines(more)));
            assert(complete_lines(whole) == complete_lines(consumed) + state.fed_lines(more));
        }
    }
}

/// A well-formed state is the state after some bytes.
pub open spec fn witness(state: SplitterState) -> Seq<u8> {
    if state.after_cr {
        seq![CR]
    } else {
        state.carry
    }
}

pub proof fn lemma_witness(state: SplitterState)
    requires
        state.wf(),
    ensures
        state_after(witness(state)) == state,
{
    if state.after_cr {
        let only = seq![CR];
        assert(only.take(0) == Seq::<u8>::empty());
        lemma_first_break_at(only, 0);
        assert(after_first_break(only) == Seq::<u8>::empty());
        lemma_unbroken(Seq::<u8>::empty());
        assert(unfinished(only) == Seq::<u8>::empty());
        assert(state.carry == Seq::<u8>::empty());
    } else {
        lemma_unbroken(state.carry);
        if state.carry.len() > 0 {
            assert(!is_break(state.carry[state.carry.len() - 1]));
        }
    }
}

/// Feeding keeps a state well formed.
pub proof fn lemma_feed_wf(state: SplitterState, chunk: Seq<u8>)
    requires
        state.wf(),
    ensures
        state.feed(chunk).wf(),
{
    lemma_witness(state);
    lemma_resume(witness(state), chunk);
    let whole = witness(state) + chunk;
    lemma_unfinished_unbroken(whole);
    if chunk.len() > 0 {
        assert(whole.last() == chunk.last());
    } else {
        assert(whole == witness(state));
    }
}

/// Feeding two chunks one after the other is feeding their concatenation:
/// the same lines come out, and the same state is left.
pub proof fn lemma_feed_compose(state: SplitterState, first: Seq<u8>, second: Seq<u8>)
    requires
        state.wf(),
    ensures
        state.feed(first + second) == state.feed(first).feed(second),
        state.fed_lines(first + second) == state.fed_lines(first) + state.feed(first).fed_lines(
            second,
        ),
{
    let before = witness(state);
    lemma_witness(state);
    lemma_resume(before, first + second);
    lemma_resume(before, first);
    lemma_resume(before + first, second);
    assert(before + (first + second) == (before + first) + second);
    let head = complete_lines(before);
    let joint = state.fed_lines(first + second);
    let apart = state.fed_lines(first) + state.feed(first).fed_lines(second);
    assert(head + joint == head + apart);
    assert(joint == (head + joint).skip(head.len() as int));
    assert(apart == (head + apart).skip(head.len() as int));
}

/// The lines that come out when `chunks` are fed in order.
pub open spec fn run_lines(state: SplitterState, chunks: Seq<Seq<u8>>) -> Seq<Seq<u8>>
    decreases chunks.len(),
{
    if chunks.len() == 0 {
        Seq::empty()
    } else {
        state.fed_lines(chunks.first()) + run_lines(
            state.feed(chunks.first()),
            chunks.drop_first(),
        )
    }
}

/// The state that is left when `chunks` have been fed in order.
pub open spec fn run_state(state: SplitterState, chunks: Seq<Seq<u8>>) -> SplitterState
    decreases chunks.len(),
{
    if chunks.len() == 0 {
        state
    } else {
        run_state(state.feed(chunks.first()), chunks.drop_first())
    }
}

/// Feeding chunk by chunk is feeding all the bytes at once.
pub proof fn lemma_run_is_one_feed(state: SplitterState, chunks: Seq<Seq<u8>>)
    requires
        state.wf(),
    ensures
        run_lines(state, chunks) == state.fed_lines(chunks.flatten()),
        run_state(state, chunks) == state.feed(chunks.flatten()),
    decreases chunks.len(),
{
    if chunks.len() == 0 {
        lemma_unbroken(state.carry);
        assert(state.carry + state.effective(Seq::<u8>::empty()) == state.carry);
    } else {
        let first = chunks.first();
        let rest = chunks.drop_first();
        lemma_feed_wf(state, first);
        lemma_run_is_one_feed(state.feed(first), rest);
        lemma_feed_compose(state, first, rest.flatten());
    }
}

/// However a stream is cut into chunks, the lines handed out while reading,
/// followed by the line flushed at the end, are the logical lines of the
/// whole stream: line feeds, carriage returns and the pair of both each end
/// one line, and a last line without a break is handed out too.
pub proof fn lemma_chunking_is_invisible(chunks: Seq<Seq<u8>>)
    ensures
        run_lines(SplitterState::fresh(), chunks) + run_state(
            SplitterState::fresh(),
            chunks,
        ).flushed() == split_lines(chunks.flatten()),
{
    let fresh = SplitterState::fresh();
    let all = chunks.flatten();
    lemma_run_is_one_feed(fresh, chunks);
    assert(fresh.carry + fresh.effective(all) == all);
    let lines = complete_lines(all);
    let last = unfinished(all);
    if last.len() == 0 {
        assert(lines + Seq::<Seq<u8>>::empty() == lines);
    } else {
        assert(lines + seq![last] == lines.push(last));
    }
}

/// The byte sequences held by a sequence of byte vectors.
pub open spec fn byte_lines(lines: Seq<Vec<u8>>) -> Seq<Seq<u8>> {
    lines.map_values(|line: Vec<u8>| line@)
}

/// What one byte does to a well-formed state.
proof fn lemma_feed_byte(state: SplitterState, byte: u8)
    requires
        state.wf(),
    ensures
        byte == LF && state.after_cr ==> state.fed_lines(seq![byte]) == Seq::<Seq<u8>>::empty()
            && state.feed(seq![byte]) == (SplitterState { carry: state.carry, after_cr: false }),
        is_break(byte) && !(byte == LF && state.after_cr) ==> state.fed_lines(seq![byte])
            == seq![state.carry] && state.feed(seq![byte]) == (SplitterState {
            carry: Seq::empty(),
            after_cr: byte == CR,
        }),
        !is_break(byte) ==> state.fed_lines(seq![byte]) == Seq::<Seq<u8>>::empty() && state.feed(
            seq![byte],
        ) == (SplitterState { carry: state.carry.push(byte), after_cr: false }),
{
    let chunk = seq![byte];
    assert(chunk.last() == byte);
    if byte == LF && state.after_cr {
        assert(state.effective(chunk) == Seq::<u8>::empty());
        assert(state.carry + state.effective(chunk) == state.carry);
        lemma_unbroken(state.carry);
    } else if is_break(byte) {
        assert(state.effective(chunk) == chunk);
        let text = state.carry + chunk;
        let at = state.carry.len() as int;
        assert(text.take(at) == state.carry);
        assert(text[at] == byte);
        lemma_first_break_at(text, at);
        assert(text.skip(at + 1) == Seq::<u8>::empty());
        lemma_unbroken(Seq::<u8>::empty());
        assert(seq![state.carry] + Seq::<Seq<u8>>::empty() == seq![state.carry]);
    } else {
        assert(state.effective(chunk) == chunk);
        let text = state.carry + chunk;
        assert(text == state.carry.push(byte));
        assert forall|i: int| 0 <= i < text.len() implies !is_break(#[trigger] text[i]) by {
            if i < state.carry.len() {
                assert(text[i] == state.carry[i]);
            }
        }
        lemma_unbroken(text);
    }
}

/// Splits a byte stream into logical lines while it is being read.
pub struct LineSplitter {
    carry: Vec<u8>,
    after_cr: bool,
}

impl View for LineSplitter {
    type V = SplitterState;

    closed spec fn view(&self) -> SplitterState {
        SplitterState { carry: self.carry@, after_cr: self.after_cr }
    }
}

impl LineSplitter {
    #[verifier::type_invariant]
    spec fn well_formed(self) -> bool {
        self@.wf()
    }

    /// A splitter that has read nothing.
    pub fn new() -> (splitter: LineSplitter)
        ensures
            splitter@ == SplitterState::fresh(),
    {
        LineSplitter { carry: Vec::new(), after_cr: false }
    }

    /// Takes the next bytes of the stream and hands out the lines that they
    /// complete, in order and without their breaks.
    pub fn feed(&mut self, chunk: &[u8]) -> (lines: Vec<Vec<u8>>)
        ensures
            final(self)@ == old(self)@.feed(chunk@),
            byte_lines(lines@) == old(self)@.fed_lines(chunk@),
    {
        proof {
            use_type_invariant(&*self);
        }
        let ghost start = self@;
        let mut lines: Vec<Vec<u8>> = Vec::new();
        let mut carry: Vec<u8> = Vec::new();
        let mut after_cr = self.after_cr;
        core::mem::swap(&mut carry, &mut self.carry);
        proof {
            assert(chunk@.take(0) == Seq::<u8>::empty());
            assert(start.carry + start.effective(Seq::<u8>::empty()) == start.carry);
            lemma_unbroken(start.carry);
            assert(byte_lines(lines@) == Seq::<Seq<u8>>::empty());
        }
        let mut k: usize = 0;
        while k < chunk.len()
            invariant
                k <= chunk.len(),
                start.wf(),
                (SplitterState { carry: carry@, after_cr }) == start.feed(chunk@.take(k as int)),
                byte_lines(lines@) == start.fed_lines(chunk@.take(k as int)),
            decreases chunk.len() - k,
        {
            let byte = chunk[k];
            let ghost state = SplitterState { carry: carry@, after_cr };
            let ghost before = lines@;
            proof {
                lemma_feed_wf(start, chunk@.take(k as int));
                lemma_feed_compose(start, chunk@.take(k as int), seq![byte]);
                assert(chunk@.take(k + 1) == chunk@.take(k as int) + seq![byte]);
                lemma_feed_byte(state, byte);
            }
            if byte == LF && after_cr {
                after_cr = false;
            } else if byte == LF || byte == CR {
                lines.push(carry);
                carry = Vec::new();
                after_cr = byte == CR;
                proof {
                    assert(byte_lines(lines@) == byte_lines(before) + seq![state.carry]);
                }
            } else {
                carry.push(byte);
                after_cr = false;
            }
            proof {
                assert(byte_lines(before) + Seq::<Seq<u8>>::empty() == byte_lines(before));
            }
            k = k + 1;
        }
        proof {
            assert(chunk@.take(chunk@.len() as int) == chunk@);
            lemma_feed_wf(start, chunk@);
        }
        *self = LineSplitter { carry, after_cr };
        lines
    }

    /// Ends the stream: hands out the line that no break has ended, if it
    /// holds any byte, and starts afresh.
    pub fn finish(&mut self) -> (last: Option<Vec<u8>>)
        ensures
            final(self)@ == SplitterState::fresh(),
            match last {
                Some(line) => old(self)@.flushed() == seq![line@],
                None => old(self)@.flushed() == Seq::<Seq<u8>>::empty(),
            },
    {
        let mut carry: Vec<u8> = Vec::new();
        core::mem::swap(&mut carry, &mut self.carry);
        self.after_cr = false;
        if carry.len() == 0 {
            None
        } else {
            Some(carry)
        }
    }
}

} // verus!
