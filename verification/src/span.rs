//! A span over a text: a range of bytes between two character
//! boundaries.

use vstd::prelude::*;
use vstd::string::StringSliceAdditionalSpecFns;
use vstd::utf8::{
    encode_utf8_valid_utf8, is_char_boundary, is_char_boundary_iff_not_is_continuation_byte,
    is_char_boundary_start_end_of_seq, valid_utf8_split,
};

verus! {

/// A span over a `&str`.
#[derive(Clone, Copy, Debug)]
pub struct Span<'i> {
    input: &'i str,
    start: usize,
    end: usize,
}

/// A place in a text, at a character boundary.
#[derive(Clone, Copy, Debug)]
pub struct Position<'i> {
    input: &'i str,
    pos: usize,
}

impl<'i> Position<'i> {
    /// The text that the place lies in.
    pub closed spec fn text(&self) -> &'i str {
        self.input
    }

    /// The byte before which the place lies.
    pub closed spec fn spec_pos(&self) -> usize {
        self.pos
    }

    /// The byte before which the place lies.
    pub fn pos(&self) -> (r: usize)
        ensures
            r == self.spec_pos(),
    {
        self.pos
    }
}

/// Whether `start..end` is a range of the text between two character
/// boundaries.
pub open spec fn span_valid(input: &str, start: int, end: int) -> bool {
    &&& 0 <= start <= end <= input.spec_bytes().len()
    &&& is_char_boundary(input.spec_bytes(), start)
    &&& is_char_boundary(input.spec_bytes(), end)
}

impl<'i> Span<'i> {
    /// The text that the span lies in.
    pub closed spec fn text(&self) -> &'i str {
        self.input
    }

    /// The byte at which the span starts.
    pub closed spec fn spec_start(&self) -> usize {
        self.start
    }

    /// The byte before which the span ends.
    pub closed spec fn spec_end(&self) -> usize {
        self.end
    }

    /// The span is a range of its text between two character boundaries.
    pub open spec fn wf(&self) -> bool {
        span_valid(self.text(), self.spec_start() as int, self.spec_end() as int)
    }

    /// The bytes that the span covers.
    pub open spec fn spec_bytes(&self) -> Seq<u8> {
        self.text().spec_bytes().subrange(self.spec_start() as int, self.spec_end() as int)
    }

    /// The span from `start` to `end`, if this is a range of the text
    /// between two character boundaries.
    pub fn new(input: &'i str, start: usize, end: usize) -> (r: Option<Span<'i>>)
        ensures
            r is Some <==> span_valid(input, start as int, end as int),
            r matches Some(span) ==> span.wf() && span.text() == input && span.spec_start() == start
                && span.spec_end() == end,
    {
        let bytes = input.as_bytes();
        if start <= end && end <= bytes.len() && input.is_char_boundary(start)
            && input.is_char_boundary(end) {
            Some(Span { input, start, end })
        } else {
            None
        }
    }

    /// The byte at which the span starts.
    pub fn start(&self) -> (r: usize)
        ensures
            r == self.spec_start(),
    {
        self.start
    }

    /// The byte before which the span ends.
    pub fn end(&self) -> (r: usize)
        ensures
            r == self.spec_end(),
    {
        self.end
    }

    /// The place at which the span starts.
    pub fn start_pos(&self) -> (r: Position<'i>)
        ensures
            r.text() == self.text(),
            r.spec_pos() == self.spec_start(),
    {
        Position { input: self.input, pos: self.start }
    }

    /// The place at which the span ends.
    pub fn end_pos(&self) -> (r: Position<'i>)
        ensures
            r.text() == self.text(),
            r.spec_pos() == self.spec_end(),
    {
        Position { input: self.input, pos: self.end }
    }

    /// The two places between which the span lies.
    pub fn split(self) -> (r: (Position<'i>, Position<'i>))
        ensures
            r.0.text() == self.text(),
            r.0.spec_pos() == self.spec_start(),
            r.1.text() == self.text(),
            r.1.spec_pos() == self.spec_end(),
    {
        (Position { input: self.input, pos: self.start }, Position { input: self.input, pos: self.end })
    }

    /// The part of the text that the span covers.
    pub fn as_str(&self) -> (r: &'i str)
        requires
            self.wf(),
        ensures
            r.spec_bytes() == self.spec_bytes(),
    {
        let ghost bytes = self.input.spec_bytes();
        proof {
            encode_utf8_valid_utf8(self.input@);
        }
        let (head, _) = self.input.split_at(self.end);
        proof {
            valid_utf8_split(bytes, self.end as int);
            let front = bytes.subrange(0, self.end as int);
            assert(head.spec_bytes() == front);
            if self.start < self.end {
                is_char_boundary_iff_not_is_continuation_byte(bytes, self.start as int);
                is_char_boundary_iff_not_is_continuation_byte(front, self.start as int);
            } else {
                is_char_boundary_start_end_of_seq(front);
            }
        }
        let (_, tail) = head.split_at(self.start);
        proof {
            assert(tail.spec_bytes() =~= self.spec_bytes());
        }
        tail
    }
}

/// Where the line begins in which the byte at `pos` stands: behind the
/// last line feed before `pos`, or at the start of the text.
pub open spec fn spec_line_start(bytes: Seq<u8>, pos: int) -> int
    decreases pos,
{
    if pos <= 0 || pos > bytes.len() {
        0
    } else if bytes[pos - 1] == 10u8 {
        pos
    } else {
        spec_line_start(bytes, pos - 1)
    }
}

/// Where the line ends in which the byte at `pos` stands: behind the
/// first line feed from `pos` on, or at the end of the text.
pub open spec fn spec_line_end(bytes: Seq<u8>, pos: int) -> int
    decreases bytes.len() - pos,
{
    if pos < 0 || pos >= bytes.len() {
        bytes.len() as int
    } else if bytes[pos] == 10u8 {
        pos + 1
    } else {
        spec_line_end(bytes, pos + 1)
    }
}

/// A line ends behind the place from which it is sought, and in the text.
pub proof fn lemma_line_end_bounds(bytes: Seq<u8>, pos: int)
    requires
        0 <= pos < bytes.len(),
    ensures
        pos < spec_line_end(bytes, pos) <= bytes.len(),
    decreases bytes.len() - pos,
{
    if bytes[pos] != 10u8 {
        if pos + 1 < bytes.len() {
            lemma_line_end_bounds(bytes, pos + 1);
        } else {
            assert(spec_line_end(bytes, pos + 1) == bytes.len());
        }
    }
}

/// The lines that a span from `pos` to `end` touches, each from its first
/// byte to behind its line feed: the whole lines, also where the span
/// covers a part of them only.
pub open spec fn spec_lines(bytes: Seq<u8>, pos: int, end: int) -> Seq<(int, int)>
    decreases bytes.len() - pos,
{
    if pos < 0 || pos > end || pos >= bytes.len() {
        Seq::empty()
    } else {
        let next = spec_line_end(bytes, pos);
        if pos < next <= bytes.len() {
            seq![(spec_line_start(bytes, pos), next)] + spec_lines(bytes, next, end)
        } else {
            Seq::empty()
        }
    }
}

/// The ranges of a list of lines as mathematics.
pub open spec fn ranges_view(lines: Seq<(usize, usize)>) -> Seq<(int, int)> {
    Seq::new(lines.len(), |i: int| (lines[i].0 as int, lines[i].1 as int))
}

/// Where the line begins in which the byte at `pos` stands.
pub fn line_start(bytes: &[u8], pos: usize) -> (r: usize)
    requires
        pos <= bytes.len(),
    ensures
        r == spec_line_start(bytes@, pos as int),
        r <= pos,
{
    let mut i = pos;
    while i > 0 && bytes[i - 1] != 10u8
        invariant
            i <= pos <= bytes.len(),
            spec_line_start(bytes@, i as int) == spec_line_start(bytes@, pos as int),
        decreases i,
    {
        i = i - 1;
    }
    i
}

/// Where the line ends in which the byte at `pos` stands.
pub fn line_end(bytes: &[u8], pos: usize) -> (r: usize)
    ensures
        r == spec_line_end(bytes@, pos as int),
        r <= bytes.len(),
{
    let mut i = pos;
    while i < bytes.len() && bytes[i] != 10u8
        invariant
            spec_line_end(bytes@, i as int) == spec_line_end(bytes@, pos as int),
        decreases bytes.len() - i,
    {
        i = i + 1;
    }
    if i < bytes.len() {
        i + 1
    } else {
        bytes.len()
    }
}

impl<'i> Span<'i> {
    /// The lines that the span touches, each as the range of its bytes.
    pub fn lines(&self) -> (r: Vec<(usize, usize)>)
        ensures
            ranges_view(r@) == spec_lines(
                self.text().spec_bytes(),
                self.spec_start() as int,
                self.spec_end() as int,
            ),
    {
        let bytes = self.input.as_bytes();
        let mut out: Vec<(usize, usize)> = Vec::new();
        let mut pos = self.start;
        let ghost all = spec_lines(bytes@, self.start as int, self.end as int);
        proof {
            assert(ranges_view(out@) + spec_lines(bytes@, pos as int, self.end as int) =~= all);
        }
        while pos <= self.end && pos < bytes.len()
            invariant
                bytes@ == self.input.spec_bytes(),
                ranges_view(out@) + spec_lines(bytes@, pos as int, self.end as int) == all,
            decreases bytes.len() - pos,
        {
            proof {
                lemma_line_end_bounds(bytes@, pos as int);
            }
            let first = line_start(bytes, pos);
            let next = line_end(bytes, pos);
            let ghost before = out@;
            out.push((first, next));
            proof {
                assert(ranges_view(out@) =~= ranges_view(before) + seq![(first as int, next as int)]);
                assert(ranges_view(out@) + spec_lines(bytes@, next as int, self.end as int) =~= all);
            }
            pos = next;
        }
        proof {
            assert(ranges_view(out@) + Seq::<(int, int)>::empty() =~= ranges_view(out@));
        }
        out
    }
}

} // verus!
