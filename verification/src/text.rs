//! Text helpers shared by the rest of the library: lossy decoding of process
//! output, joining of lines, decimal rendering of numbers in messages, and
//! the trimming, splitting and searching that reading a tool's output takes.

use vstd::prelude::*;
use vstd::string::StrSliceExecFns;
use vstd::string::StringExecFns;

verus! {

/// The text that lossy UTF-8 decoding yields for `bytes`: well-formed
/// sequences decode to their characters, ill-formed ones to U+FFFD.
pub uninterp spec fn lossy_text(bytes: Seq<u8>) -> Seq<char>;

/// Decodes process output with `String::from_utf8_lossy`.
///
/// Trusted: the result is the lossy decoding of exactly the given bytes. The
/// decoding depends on nothing but those bytes, so it is given the name
/// [`lossy_text`]; nothing else is claimed of it.
#[verifier::external_body]
pub(crate) fn decode_lossy(bytes: &[u8]) -> (text: String)
    ensures
        text@ == lossy_text(bytes@),
{
    String::from_utf8_lossy(bytes).into_owned()
}

/// The character sequences held by a sequence of strings.
pub open spec fn texts(strings: Seq<String>) -> Seq<Seq<char>> {
    strings.map_values(|s: String| s@)
}

/// The character sequence held by a string that may be absent.
pub open spec fn option_text(value: Option<String>) -> Option<Seq<char>> {
    match value {
        Some(text) => Some(text@),
        None => None,
    }
}

/// `parts` written one after another with `sep` between neighbours.
pub open spec fn join_texts(parts: Seq<Seq<char>>, sep: Seq<char>) -> Seq<char>
    decreases parts.len(),
{
    if parts.len() == 0 {
        Seq::empty()
    } else if parts.len() == 1 {
        parts[0]
    } else {
        join_texts(parts.drop_last(), sep) + sep + parts.last()
    }
}

/// Joins `parts` with `sep`, like `[String]::join`.
pub fn join(parts: &Vec<String>, sep: &str) -> (joined: String)
    ensures
        joined@ == join_texts(texts(parts@), sep@),
{
    let mut joined = String::new();
    let mut i: usize = 0;
    while i < parts.len()
        invariant
            i <= parts.len(),
            joined@ == join_texts(texts(parts@).take(i as int), sep@),
        decreases parts.len() - i,
    {
        proof {
            let all = texts(parts@);
            assert(all.take(i + 1).drop_last() == all.take(i as int));
            assert(all.take(i + 1).last() == parts@[i as int]@);
            if i == 0 {
                assert(joined@ + parts@[0]@ == parts@[0]@);
            }
        }
        if i > 0 {
            joined.append(sep);
        }
        joined.append(parts[i].as_str());
        i = i + 1;
    }
    proof {
        assert(texts(parts@).take(parts@.len() as int) == texts(parts@));
    }
    joined
}

/// The character for a decimal digit.
pub open spec fn digit_char(d: nat) -> char {
    if d == 0 {
        '0'
    } else if d == 1 {
        '1'
    } else if d == 2 {
        '2'
    } else if d == 3 {
        '3'
    } else if d == 4 {
        '4'
    } else if d == 5 {
        '5'
    } else if d == 6 {
        '6'
    } else if d == 7 {
        '7'
    } else if d == 8 {
        '8'
    } else {
        '9'
    }
}

/// The decimal numeral of `n`, without sign or leading zeros.
pub open spec fn decimal_text(n: nat) -> Seq<char>
    decreases n,
{
    if n < 10 {
        seq![digit_char(n)]
    } else {
        decimal_text(n / 10).push(digit_char(n % 10))
    }
}

fn digit_str(d: u64) -> (s: &'static str)
    requires
        d < 10,
    ensures
        s@ == seq![digit_char(d as nat)],
{
    proof {
        reveal_strlit("0");
        reveal_strlit("1");
        reveal_strlit("2");
        reveal_strlit("3");
        reveal_strlit("4");
        reveal_strlit("5");
        reveal_strlit("6");
        reveal_strlit("7");
        reveal_strlit("8");
        reveal_strlit("9");
    }
    let s = if d == 0 {
        "0"
    } else if d == 1 {
        "1"
    } else if d == 2 {
        "2"
    } else if d == 3 {
        "3"
    } else if d == 4 {
        "4"
    } else if d == 5 {
        "5"
    } else if d == 6 {
        "6"
    } else if d == 7 {
        "7"
    } else if d == 8 {
        "8"
    } else {
        "9"
    };
    assert(s@ =~= seq![digit_char(d as nat)]);
    s
}

/// Renders `n` the way `{}` formats an unsigned integer.
pub fn decimal(n: u64) -> (rendered: String)
    ensures
        rendered@ == decimal_text(n as nat),
    decreases n,
{
    if n < 10 {
        String::from_str(digit_str(n))
    } else {
        let mut rendered = decimal(n / 10);
        rendered.append(digit_str(n % 10));
        assert(rendered@ =~= decimal_text((n / 10) as nat).push(digit_char((n % 10) as nat)));
        rendered
    }
}

/// Where part `index` begins in the joined text: after the parts before it
/// and one separator for each of them.
pub open spec fn part_offset(parts: Seq<Seq<char>>, sep: Seq<char>, index: int) -> int
    decreases index,
{
    if index <= 0 {
        0
    } else {
        part_offset(parts, sep, index - 1) + parts[index - 1].len() + sep.len()
    }
}

/// The joined text holds every part whole, at its offset, and the parts
/// stand in their order: each begins after the one before it has ended.
pub proof fn lemma_join_holds_parts(parts: Seq<Seq<char>>, sep: Seq<char>, index: int)
    requires
        0 <= index < parts.len(),
    ensures
        0 <= part_offset(parts, sep, index),
        part_offset(parts, sep, index) + parts[index].len() <= join_texts(parts, sep).len(),
        join_texts(parts, sep).subrange(
            part_offset(parts, sep, index),
            part_offset(parts, sep, index) + parts[index].len(),
        ) == parts[index],
        index > 0 ==> part_offset(parts, sep, index) >= part_offset(parts, sep, index - 1)
            + parts[index - 1].len(),
    decreases parts.len(),
{
    lemma_join_len(parts, sep);
    lemma_offset_bounds(parts, sep, index);
    let joined = join_texts(parts, sep);
    if parts.len() == 1 {
        assert(joined.subrange(0, parts[0].len() as int) == parts[0]);
    } else {
        let front = parts.drop_last();
        let head = join_texts(front, sep);
        lemma_join_len(front, sep);
        lemma_offset_prefix(parts, sep, index);
        if index < front.len() {
            lemma_join_holds_parts(front, sep, index);
            let from = part_offset(front, sep, index);
            let to = from + front[index].len();
            assert(joined.subrange(from, to) == head.subrange(from, to));
        } else {
            let from = part_offset(parts, sep, index);
            assert(from == head.len() + sep.len());
            assert(joined.subrange(from, from + parts[index].len()) == parts[index]);
        }
    }
}

/// The joined text is as long as its parts and the separators between them.
proof fn lemma_join_len(parts: Seq<Seq<char>>, sep: Seq<char>)
    ensures
        parts.len() == 0 ==> join_texts(parts, sep).len() == 0,
        parts.len() > 0 ==> join_texts(parts, sep).len() == part_offset(
            parts,
            sep,
            parts.len() - 1,
        ) + parts.last().len(),
    decreases parts.len(),
{
    if parts.len() > 1 {
        let front = parts.drop_last();
        lemma_join_len(front, sep);
        lemma_offset_prefix(parts, sep, parts.len() - 1);
        lemma_offset_prefix(parts, sep, parts.len() - 2);
    }
}

/// Offsets depend only on the parts before the index.
proof fn lemma_offset_prefix(parts: Seq<Seq<char>>, sep: Seq<char>, index: int)
    requires
        0 <= index < parts.len(),
    ensures
        part_offset(parts.drop_last(), sep, index) == part_offset(parts, sep, index),
    decreases index,
{
    if index > 0 {
        lemma_offset_prefix(parts, sep, index - 1);
    }
}

proof fn lemma_offset_bounds(parts: Seq<Seq<char>>, sep: Seq<char>, index: int)
    requires
        0 <= index < parts.len(),
    ensures
        0 <= part_offset(parts, sep, index),
        part_offset(parts, sep, index) + parts[index].len() <= part_offset(
            parts,
            sep,
            parts.len() - 1,
        ) + parts.last().len(),
    decreases parts.len() - index,
{
    lemma_offset_nonnegative(parts, sep, index);
    if index < parts.len() - 1 {
        lemma_offset_bounds(parts, sep, index + 1);
    }
}

proof fn lemma_offset_nonnegative(parts: Seq<Seq<char>>, sep: Seq<char>, index: int)
    ensures
        0 <= part_offset(parts, sep, index),
    decreases index,
{
    if index > 0 {
        lemma_offset_nonnegative(parts, sep, index - 1);
    }
}

/// The characters of `s`, in order.
pub fn chars_of(s: &str) -> (chars: Vec<char>)
    ensures
        chars@ == s@,
{
    let mut chars: Vec<char> = Vec::new();
    for c in it: s.chars()
        invariant
            chars@ == s@.take(it.index()),
            it.seq() == s@,
    {
        assert(s@.take(it.index() + 1) == s@.take(it.index()).push(c));
        chars.push(c);
    }
    assert(s@.take(s@.len() as int) == s@);
    chars
}

/// Whether `c` has the Unicode property White_Space.
pub open spec fn is_whitespace(c: char) -> bool {
    let v = c as u32;
    ||| 0x09 <= v <= 0x0D
    ||| v == 0x20
    ||| v == 0x85
    ||| v == 0xA0
    ||| v == 0x1680
    ||| 0x2000 <= v <= 0x200A
    ||| v == 0x2028
    ||| v == 0x2029
    ||| v == 0x202F
    ||| v == 0x205F
    ||| v == 0x3000
}

/// Whether `c` has the Unicode property White_Space.
pub fn char_is_whitespace(c: char) -> (white: bool)
    ensures
        white == is_whitespace(c),
{
    let v = c as u32;
    (0x09 <= v && v <= 0x0D) || v == 0x20 || v == 0x85 || v == 0xA0 || v == 0x1680 || (0x2000 <= v
        && v <= 0x200A) || v == 0x2028 || v == 0x2029 || v == 0x202F || v == 0x205F || v
        == 0x3000
}

/// How many characters of white space `s` begins with.
pub open spec fn leading_whitespace(s: Seq<char>) -> int
    decreases s.len(),
{
    if s.len() > 0 && is_whitespace(s[0]) {
        1 + leading_whitespace(s.skip(1))
    } else {
        0
    }
}

/// How many characters of white space `s` ends with.
pub open spec fn trailing_whitespace(s: Seq<char>) -> int
    decreases s.len(),
{
    if s.len() > 0 && is_whitespace(s.last()) {
        1 + trailing_whitespace(s.drop_last())
    } else {
        0
    }
}

/// `s` without the white space at its start and at its end.
pub open spec fn trimmed(s: Seq<char>) -> Seq<char> {
    let rest = s.skip(leading_whitespace(s));
    rest.take(rest.len() - trailing_whitespace(rest))
}

proof fn lemma_leading_whitespace(s: Seq<char>, count: int)
    requires
        0 <= count <= s.len(),
        forall|i: int| 0 <= i < count ==> is_whitespace(#[trigger] s[i]),
        count < s.len() ==> !is_whitespace(s[count]),
    ensures
        leading_whitespace(s) == count,
    decreases count,
{
    if count > 0 {
        let rest = s.skip(1);
        assert forall|i: int| 0 <= i < count - 1 implies is_whitespace(#[trigger] rest[i]) by {
            assert(rest[i] == s[i + 1]);
        }
        lemma_leading_whitespace(rest, count - 1);
    }
}

proof fn lemma_trailing_whitespace(s: Seq<char>, count: int)
    requires
        0 <= count <= s.len(),
        forall|i: int| s.len() - count <= i < s.len() ==> is_whitespace(#[trigger] s[i]),
        count < s.len() ==> !is_whitespace(s[s.len() - count - 1]),
    ensures
        trailing_whitespace(s) == count,
    decreases count,
{
    if count > 0 {
        let rest = s.drop_last();
        assert forall|i: int| rest.len() - (count - 1) <= i < rest.len() implies is_whitespace(
            #[trigger] rest[i],
        ) by {
            assert(rest[i] == s[i]);
        }
        lemma_trailing_whitespace(rest, count - 1);
    }
}

/// The characters of `chars` from `from` up to `to`, without the white space
/// at their start and at their end, cut out of `source`.
fn trim_range(source: &str, chars: &Vec<char>, from: usize, to: usize) -> (text: String)
    requires
        chars@ == source@,
        from <= to <= chars.len(),
    ensures
        text@ == trimmed(source@.subrange(from as int, to as int)),
{
    let ghost piece = source@.subrange(from as int, to as int);
    let mut start = from;
    while start < to && char_is_whitespace(chars[start])
        invariant
            from <= start <= to <= chars.len(),
            chars@ == source@,
            forall|i: int| from <= i < start ==> is_whitespace(#[trigger] source@[i]),
        decreases to - start,
    {
        start = start + 1;
    }
    let mut end = to;
    while end > start && char_is_whitespace(chars[end - 1])
        invariant
            start <= end <= to <= chars.len(),
            chars@ == source@,
            forall|i: int| end <= i < to ==> is_whitespace(#[trigger] source@[i]),
        decreases end - start,
    {
        end = end - 1;
    }
    proof {
        assert forall|i: int| 0 <= i < start - from implies is_whitespace(#[trigger] piece[i]) by {
            assert(piece[i] == source@[from + i]);
        }
        lemma_leading_whitespace(piece, start - from);
        let rest = piece.skip(start - from);
        assert forall|i: int| rest.len() - (to - end) <= i < rest.len() implies is_whitespace(
            #[trigger] rest[i],
        ) by {
            assert(rest[i] == source@[start + i]);
        }
        if to - end < rest.len() {
            assert(rest[rest.len() - (to - end) - 1] == source@[end - 1]);
        }
        lemma_trailing_whitespace(rest, to - end);
        assert(rest.take(rest.len() - (to - end)) == source@.subrange(start as int, end as int));
    }
    String::from_str(source.substring_char(start, end))
}

/// `s` without the white space at its start and at its end, like `str::trim`.
pub fn trim(s: &str) -> (text: String)
    ensures
        text@ == trimmed(s@),
{
    let chars = chars_of(s);
    assert(s@.subrange(0, s@.len() as int) == s@);
    trim_range(s, &chars, 0, chars.len())
}

/// The position of the first `mark` in `s`, or the length where there is
/// none.
pub open spec fn first_index(s: Seq<char>, mark: char) -> int
    decreases s.len(),
{
    if s.len() == 0 || s[0] == mark {
        0
    } else {
        1 + first_index(s.skip(1), mark)
    }
}

pub proof fn lemma_first_index(s: Seq<char>, mark: char)
    ensures
        0 <= first_index(s, mark) <= s.len(),
        forall|i: int| 0 <= i < first_index(s, mark) ==> #[trigger] s[i] != mark,
        first_index(s, mark) < s.len() ==> s[first_index(s, mark)] == mark,
    decreases s.len(),
{
    if s.len() == 0 || s[0] == mark {
    } else {
        let rest = s.skip(1);
        lemma_first_index(rest, mark);
        let at = first_index(s, mark);
        assert forall|i: int| 0 <= i < at implies #[trigger] s[i] != mark by {
            if i > 0 {
                assert(s[i] == rest[i - 1]);
            }
        }
        if at < s.len() {
            assert(s[at] == rest[at - 1]);
        }
    }
}

pub proof fn lemma_first_index_at(s: Seq<char>, mark: char, at: int)
    requires
        0 <= at <= s.len(),
        forall|i: int| 0 <= i < at ==> #[trigger] s[i] != mark,
        at < s.len() ==> s[at] == mark,
    ensures
        first_index(s, mark) == at,
    decreases at,
{
    if at > 0 {
        let rest = s.skip(1);
        assert forall|i: int| 0 <= i < at - 1 implies #[trigger] rest[i] != mark by {
            assert(rest[i] == s[i + 1]);
        }
        lemma_first_index_at(rest, mark, at - 1);
    }
}

/// The pieces of `s` between occurrences of `mark`, like `str::split`: one
/// more piece than there are marks.
pub open spec fn split_on(s: Seq<char>, mark: char) -> Seq<Seq<char>>
    decreases s.len(),
    via split_on_decreases
{
    let at = first_index(s, mark);
    if at >= s.len() {
        seq![s]
    } else {
        seq![s.take(at)] + split_on(s.skip(at + 1), mark)
    }
}

#[via_fn]
proof fn split_on_decreases(s: Seq<char>, mark: char) {
    lemma_first_index(s, mark);
}

/// The pieces, each trimmed, without those that trimming leaves empty.
pub open spec fn trimmed_nonblank(pieces: Seq<Seq<char>>) -> Seq<Seq<char>>
    decreases pieces.len(),
{
    if pieces.len() == 0 {
        Seq::empty()
    } else {
        let first = trimmed(pieces.first());
        let rest = trimmed_nonblank(pieces.drop_first());
        if first.len() > 0 {
            seq![first] + rest
        } else {
            rest
        }
    }
}

/// The lines of `text` that hold more than white space, each trimmed.
pub open spec fn trimmed_lines(text: Seq<char>) -> Seq<Seq<char>> {
    trimmed_nonblank(split_on(text, '\n'))
}

/// What is left to find from position `from` on: the trimmed non-blank lines
/// of the rest of the text.
proof fn lemma_trimmed_lines_step(text: Seq<char>, from: int, at: int)
    requires
        0 <= from <= at <= text.len(),
        forall|i: int| from <= i < at ==> #[trigger] text[i] != '\n',
        at < text.len() ==> text[at] == '\n',
    ensures
        at < text.len() ==> trimmed_lines(text.skip(from)) == trimmed_nonblank(
            seq![text.subrange(from, at)],
        ) + trimmed_lines(text.skip(at + 1)),
        at == text.len() ==> trimmed_lines(text.skip(from)) == trimmed_nonblank(
            seq![text.subrange(from, at)],
        ),
{
    let rest = text.skip(from);
    assert forall|i: int| 0 <= i < at - from implies #[trigger] rest[i] != '\n' by {
        assert(rest[i] == text[from + i]);
    }
    lemma_first_index_at(rest, '\n', at - from);
    assert(rest.take(at - from) == text.subrange(from, at));
    let piece = text.subrange(from, at);
    let single = seq![piece];
    assert(single.drop_first() == Seq::<Seq<char>>::empty());
    assert(trimmed_nonblank(single.drop_first()) == Seq::<Seq<char>>::empty());
    if at < text.len() {
        assert(rest.skip(at - from + 1) == text.skip(at + 1));
        let pieces = split_on(rest, '\n');
        assert(pieces == seq![piece] + split_on(text.skip(at + 1), '\n'));
        assert(pieces.first() == piece);
        assert(pieces.drop_first() == split_on(text.skip(at + 1), '\n'));
        if trimmed(piece).len() > 0 {
            assert(trimmed_nonblank(single) == seq![trimmed(piece)]);
        } else {
            assert(trimmed_nonblank(single) == Seq::<Seq<char>>::empty());
            assert(Seq::<Seq<char>>::empty() + trimmed_lines(text.skip(at + 1)) == trimmed_lines(
                text.skip(at + 1),
            ));
        }
    } else {
        assert(rest == piece);
        assert(split_on(rest, '\n') == single);
    }
}

/// The lines of `text` that hold more than white space, each trimmed, like
/// `lines()` followed by `trim` and a filter on what is not empty.
pub fn nonblank_lines(text: &str) -> (found: Vec<String>)
    ensures
        texts(found@) == trimmed_lines(text@),
{
    let chars = chars_of(text);
    let mut found: Vec<String> = Vec::new();
    let mut from: usize = 0;
    let mut at: usize = 0;
    proof {
        assert(text@.skip(0) == text@);
        assert(texts(found@) =~= Seq::<Seq<char>>::empty());
        assert(Seq::<Seq<char>>::empty() + trimmed_lines(text@) == trimmed_lines(text@));
    }
    while at < chars.len()
        invariant
            from <= at <= chars.len(),
            chars@ == text@,
            forall|i: int| from <= i < at ==> #[trigger] text@[i] != '\n',
            texts(found@) + trimmed_lines(text@.skip(from as int)) == trimmed_lines(text@),
        decreases chars.len() - at,
    {
        if chars[at] == '\n' {
            let ghost before = found@;
            let piece = trim_range(text, &chars, from, at);
            proof {
                lemma_trimmed_lines_step(text@, from as int, at as int);
                lemma_trimmed_single(text@.subrange(from as int, at as int));
            }
            if piece.as_str().is_empty() {
                proof {
                    assert(Seq::<Seq<char>>::empty() + trimmed_lines(text@.skip(at + 1))
                        == trimmed_lines(text@.skip(at + 1)));
                }
            } else {
                found.push(piece);
                proof {
                    assert(texts(found@) =~= texts(before) + seq![piece@]);
                    assert((texts(before) + seq![piece@]) + trimmed_lines(text@.skip(at + 1))
                        == texts(before) + (seq![piece@] + trimmed_lines(text@.skip(at + 1))));
                }
            }
            from = at + 1;
        }
        at = at + 1;
    }
    let ghost before = found@;
    let piece = trim_range(text, &chars, from, at);
    proof {
        lemma_trimmed_lines_step(text@, from as int, at as int);
        lemma_trimmed_single(text@.subrange(from as int, at as int));
    }
    if piece.as_str().is_empty() {
        proof {
            assert(texts(before) + Seq::<Seq<char>>::empty() == texts(before));
        }
    } else {
        found.push(piece);
        proof {
            assert(texts(found@) =~= texts(before) + seq![piece@]);
        }
    }
    found
}

proof fn lemma_trimmed_single(piece: Seq<char>)
    ensures
        trimmed_nonblank(seq![piece]) == if trimmed(piece).len() > 0 {
            seq![trimmed(piece)]
        } else {
            Seq::<Seq<char>>::empty()
        },
{
    let single = seq![piece];
    assert(single.drop_first() == Seq::<Seq<char>>::empty());
    assert(trimmed_nonblank(single.drop_first()) == Seq::<Seq<char>>::empty());
    assert(single.first() == piece);
}

/// What is left to split from position `from` on.
proof fn lemma_split_step(text: Seq<char>, mark: char, from: int, at: int)
    requires
        0 <= from <= at <= text.len(),
        forall|i: int| from <= i < at ==> #[trigger] text[i] != mark,
        at < text.len() ==> text[at] == mark,
    ensures
        at < text.len() ==> split_on(text.skip(from), mark) == seq![text.subrange(from, at)]
            + split_on(text.skip(at + 1), mark),
        at == text.len() ==> split_on(text.skip(from), mark) == seq![text.subrange(from, at)],
{
    let rest = text.skip(from);
    assert forall|i: int| 0 <= i < at - from implies #[trigger] rest[i] != mark by {
        assert(rest[i] == text[from + i]);
    }
    lemma_first_index_at(rest, mark, at - from);
    assert(rest.take(at - from) == text.subrange(from, at));
    if at < text.len() {
        assert(rest.skip(at - from + 1) == text.skip(at + 1));
    } else {
        assert(rest == text.subrange(from, at));
    }
}

/// The pieces of `text` between occurrences of `mark`, like `str::split`.
pub fn split(text: &str, mark: char) -> (pieces: Vec<String>)
    ensures
        texts(pieces@) == split_on(text@, mark),
{
    let chars = chars_of(text);
    let mut pieces: Vec<String> = Vec::new();
    let mut from: usize = 0;
    let mut at: usize = 0;
    proof {
        assert(text@.skip(0) == text@);
        assert(texts(pieces@) =~= Seq::<Seq<char>>::empty());
        assert(Seq::<Seq<char>>::empty() + split_on(text@, mark) == split_on(text@, mark));
    }
    while at < chars.len()
        invariant
            from <= at <= chars.len(),
            chars@ == text@,
            forall|i: int| from <= i < at ==> #[trigger] text@[i] != mark,
            texts(pieces@) + split_on(text@.skip(from as int), mark) == split_on(text@, mark),
        decreases chars.len() - at,
    {
        if chars[at] == mark {
            let ghost before = pieces@;
            let piece = String::from_str(text.substring_char(from, at));
            pieces.push(piece);
            proof {
                lemma_split_step(text@, mark, from as int, at as int);
                assert(texts(pieces@) =~= texts(before) + seq![piece@]);
                assert((texts(before) + seq![piece@]) + split_on(text@.skip(at + 1), mark)
                    == texts(before) + (seq![piece@] + split_on(text@.skip(at + 1), mark)));
            }
            from = at + 1;
        }
        at = at + 1;
    }
    let ghost before = pieces@;
    let piece = String::from_str(text.substring_char(from, at));
    pieces.push(piece);
    proof {
        lemma_split_step(text@, mark, from as int, at as int);
        assert(texts(pieces@) =~= texts(before) + seq![piece@]);
    }
    pieces
}

/// Whether `needle` stands in `haystack` at position `at`.
pub open spec fn occurs_at(haystack: Seq<char>, needle: Seq<char>, at: int) -> bool {
    0 <= at && at + needle.len() <= haystack.len() && haystack.subrange(at, at + needle.len())
        == needle
}

/// Whether `needle` stands somewhere in `haystack`, like `str::contains`.
pub open spec fn contains_text(haystack: Seq<char>, needle: Seq<char>) -> bool {
    exists|at: int| occurs_at(haystack, needle, at)
}

/// Whether `needle` stands in `haystack` at position `at`.
fn matches_at(haystack: &Vec<char>, needle: &Vec<char>, at: usize) -> (found: bool)
    requires
        at + needle.len() <= haystack.len(),
    ensures
        found == occurs_at(haystack@, needle@, at as int),
{
    let mut k: usize = 0;
    while k < needle.len()
        invariant
            k <= needle.len(),
            at + needle.len() <= haystack.len(),
            forall|i: int| 0 <= i < k ==> haystack@[at + i] == needle@[i],
        decreases needle.len() - k,
    {
        if haystack[at + k] != needle[k] {
            proof {
                let part = haystack@.subrange(at as int, at + needle@.len());
                assert(part[k as int] == haystack@[at + k]);
            }
            return false;
        }
        k = k + 1;
    }
    assert(haystack@.subrange(at as int, at + needle@.len()) =~= needle@);
    true
}

/// Whether `needle` stands somewhere in `haystack`, like `str::contains`.
pub fn contains(haystack: &str, needle: &str) -> (found: bool)
    ensures
        found == contains_text(haystack@, needle@),
{
    let hay = chars_of(haystack);
    let pin = chars_of(needle);
    if pin.len() > hay.len() {
        return false;
    }
    if pin.len() == 0 {
        assert(haystack@.subrange(0, 0) =~= needle@);
        assert(occurs_at(haystack@, needle@, 0));
        return true;
    }
    let last = hay.len() - pin.len();
    let mut at: usize = 0;
    while at <= last
        invariant
            at <= last + 1,
            last == hay.len() - pin.len(),
            0 < pin.len() <= hay.len(),
            hay@ == haystack@,
            pin@ == needle@,
            forall|i: int| 0 <= i < at ==> !occurs_at(haystack@, needle@, i),
        decreases last + 1 - at,
    {
        if matches_at(&hay, &pin, at) {
            return true;
        }
        at = at + 1;
    }
    false
}

/// How many characters that are no white space `s` begins with.
pub open spec fn word_len(s: Seq<char>) -> int
    decreases s.len(),
{
    if s.len() > 0 && !is_whitespace(s[0]) {
        1 + word_len(s.skip(1))
    } else {
        0
    }
}

/// The first run of characters that are no white space, like the first
/// item of `str::split_whitespace`; `None` where there is none.
pub open spec fn first_word_of(s: Seq<char>) -> Option<Seq<char>> {
    let rest = s.skip(leading_whitespace(s));
    if rest.len() == 0 {
        None
    } else {
        Some(rest.take(word_len(rest)))
    }
}

proof fn lemma_word_len(s: Seq<char>, count: int)
    requires
        0 <= count <= s.len(),
        forall|i: int| 0 <= i < count ==> !is_whitespace(#[trigger] s[i]),
        count < s.len() ==> is_whitespace(s[count]),
    ensures
        word_len(s) == count,
    decreases count,
{
    if count > 0 {
        let rest = s.skip(1);
        assert forall|i: int| 0 <= i < count - 1 implies !is_whitespace(#[trigger] rest[i]) by {
            assert(rest[i] == s[i + 1]);
        }
        lemma_word_len(rest, count - 1);
    }
}

/// The first run of characters of `s` that are no white space.
pub fn first_word(s: &str) -> (word: Option<String>)
    ensures
        match word {
            Some(word) => first_word_of(s@) == Some(word@),
            None => first_word_of(s@) is None,
        },
{
    let chars = chars_of(s);
    let mut start: usize = 0;
    while start < chars.len() && char_is_whitespace(chars[start])
        invariant
            start <= chars.len(),
            chars@ == s@,
            forall|i: int| 0 <= i < start ==> is_whitespace(#[trigger] s@[i]),
        decreases chars.len() - start,
    {
        start = start + 1;
    }
    proof {
        lemma_leading_whitespace(s@, start as int);
    }
    if start == chars.len() {
        return None;
    }
    let mut end = start;
    while end < chars.len() && !char_is_whitespace(chars[end])
        invariant
            start <= end <= chars.len(),
            chars@ == s@,
            forall|i: int| start <= i < end ==> !is_whitespace(#[trigger] s@[i]),
        decreases chars.len() - end,
    {
        end = end + 1;
    }
    proof {
        let rest = s@.skip(start as int);
        assert forall|i: int| 0 <= i < end - start implies !is_whitespace(#[trigger] rest[i]) by {
            assert(rest[i] == s@[start + i]);
        }
        if end - start < rest.len() {
            assert(rest[end - start] == s@[end as int]);
        }
        lemma_word_len(rest, end - start);
        assert(rest.take(end - start) == s@.subrange(start as int, end as int));
    }
    Some(String::from_str(s.substring_char(start, end)))
}

/// A split always yields at least one piece.
pub proof fn lemma_split_nonempty(s: Seq<char>, mark: char)
    ensures
        split_on(s, mark).len() >= 1,
{
    lemma_first_index(s, mark);
}

} // verus!
