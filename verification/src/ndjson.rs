//! Framing of newline-delimited JSON answers: the byte stream is cut into
//! lines, blank lines are skipped, and a line that grows past the client's cap
//! ends the stream.

use vstd::prelude::*;

verus! {

/// The newline byte that ends each line.
pub const NEWLINE: u8 = 10;

/// Whether a byte is ASCII whitespace (tab, line feed, vertical tab, form
/// feed, carriage return or space).
pub open spec fn is_space_byte(b: u8) -> bool {
    b == 9 || b == 10 || b == 11 || b == 12 || b == 13 || b == 32
}

/// Whether a line holds nothing but whitespace.
pub open spec fn is_blank(line: Seq<u8>) -> bool {
    forall|k: int| 0 <= k < line.len() ==> is_space_byte(#[trigger] line[k])
}

/// The index of the first newline in `s`, or its length when it holds none.
pub open spec fn first_newline(s: Seq<u8>) -> int
    decreases s.len(),
{
    if s.len() == 0 {
        0
    } else if s[0] == NEWLINE {
        0
    } else {
        1 + first_newline(s.skip(1))
    }
}

/// The first newline lies within the text, or at its end when there is none.
pub proof fn lemma_first_newline_bounds(s: Seq<u8>)
    ensures
        0 <= first_newline(s) <= s.len(),
        first_newline(s) < s.len() ==> s[first_newline(s)] == NEWLINE,
        forall|k: int| 0 <= k < first_newline(s) ==> s[k] != NEWLINE,
    decreases s.len(),
{
    if s.len() > 0 && s[0] != NEWLINE {
        lemma_first_newline_bounds(s.skip(1));
        assert forall|k: int| 0 <= k < first_newline(s) implies s[k] != NEWLINE by {
            if k > 0 {
                assert(s.skip(1)[k - 1] == s[k]);
            }
        }
    }
}

/// A position with no newline before it and a newline (or the end) at it is
/// the first newline.
proof fn lemma_first_newline_at(s: Seq<u8>, j: int)
    requires
        0 <= j <= s.len(),
        forall|k: int| 0 <= k < j ==> s[k] != NEWLINE,
        j < s.len() ==> s[j] == NEWLINE,
    ensures
        first_newline(s) == j,
    decreases j,
{
    if j > 0 {
        assert forall|k: int| 0 <= k < j - 1 implies s.skip(1)[k] != NEWLINE by {
            assert(s.skip(1)[k] == s[k + 1]);
        }
        if j < s.len() {
            assert(s.skip(1)[j - 1] == s[j]);
        }
        lemma_first_newline_at(s.skip(1), j - 1);
    }
}

/// What the framer yields next, as a value.
pub enum FrameView {
    Line(Seq<u8>),
    TooLong,
    NeedMore,
    End,
}

/// What the framer yields next.
#[derive(Debug)]
pub enum Frame {
    /// A complete line that is not blank, without its newline.
    Line(Vec<u8>),
    /// The pending line grew past the cap; the stream ends after this.
    TooLong,
    /// No complete line yet: push more input, or finish it.
    NeedMore,
    /// The input is exhausted.
    End,
}

impl View for Frame {
    type V = FrameView;

    open spec fn view(&self) -> FrameView {
        match self {
            Frame::Line(l) => FrameView::Line(l@),
            Frame::TooLong => FrameView::TooLong,
            Frame::NeedMore => FrameView::NeedMore,
            Frame::End => FrameView::End,
        }
    }
}

/// The next frame of a buffer, with the buffer and the end-of-input flag
/// that remain after it.
///
/// Complete lines come first, blank ones skipped. With no complete line
/// left, a pending line longer than `cap` is refused and ends the input; at
/// the end of the input the pending text is the last line (if it is not
/// blank); otherwise more input is needed.
pub open spec fn next_frame_of(buffer: Seq<u8>, cap: nat, finished: bool) -> (FrameView, Seq<u8>, bool)
    decreases buffer.len(),
{
    let i = first_newline(buffer);
    if 0 <= i < buffer.len() {
        let line = buffer.take(i);
        let rest = buffer.skip(i + 1);
        if is_blank(line) {
            next_frame_of(rest, cap, finished)
        } else {
            (FrameView::Line(line), rest, finished)
        }
    } else if buffer.len() > cap {
        (FrameView::TooLong, Seq::<u8>::empty(), true)
    } else if finished {
        if is_blank(buffer) {
            (FrameView::End, Seq::<u8>::empty(), true)
        } else {
            (FrameView::Line(buffer), Seq::<u8>::empty(), true)
        }
    } else {
        (FrameView::NeedMore, buffer, false)
    }
}

/// How the framer cuts its input: a complete line that is not blank comes out
/// whole, with the rest of the input kept; a blank complete line is dropped;
/// with no newline received, a pending text longer than the cap is refused and
/// ends the input, and otherwise more input is awaited, or at the end the
/// pending text is the last line unless it is blank.
pub proof fn lemma_framing(line: Seq<u8>, rest: Seq<u8>, cap: nat, finished: bool)
    requires
        forall|k: int| 0 <= k < line.len() ==> line[k] != NEWLINE,
    ensures
        !is_blank(line) ==> next_frame_of(line + seq![NEWLINE] + rest, cap, finished) == (
            FrameView::Line(line),
            rest,
            finished,
        ),
        is_blank(line) ==> next_frame_of(line + seq![NEWLINE] + rest, cap, finished) == next_frame_of(
            rest,
            cap,
            finished,
        ),
        line.len() > cap ==> next_frame_of(line, cap, finished) == (
            FrameView::TooLong,
            Seq::<u8>::empty(),
            true,
        ),
        line.len() <= cap && !finished ==> next_frame_of(line, cap, finished) == (
            FrameView::NeedMore,
            line,
            false,
        ),
        line.len() <= cap && finished && !is_blank(line) ==> next_frame_of(line, cap, finished) == (
            FrameView::Line(line),
            Seq::<u8>::empty(),
            true,
        ),
        line.len() <= cap && finished && is_blank(line) ==> next_frame_of(line, cap, finished) == (
            FrameView::End,
            Seq::<u8>::empty(),
            true,
        ),
{
    let s = line + seq![NEWLINE] + rest;
    assert forall|k: int| 0 <= k < line.len() implies s[k] != NEWLINE by {
        assert(s[k] == line[k]);
    }
    assert(s[line.len() as int] == NEWLINE);
    lemma_first_newline_at(s, line.len() as int);
    assert(s.take(line.len() as int) =~= line);
    assert(s.skip(line.len() as int + 1) =~= rest);
    lemma_first_newline_at(line, line.len() as int);
}

/// A line that the framer yields is never blank and holds no newline.
pub proof fn lemma_lines_are_clean(buffer: Seq<u8>, cap: nat, finished: bool)
    ensures
        next_frame_of(buffer, cap, finished).0 matches FrameView::Line(l) ==> {
            &&& !is_blank(l)
            &&& forall|k: int| 0 <= k < l.len() ==> l[k] != NEWLINE
        },
    decreases buffer.len(),
{
    lemma_first_newline_bounds(buffer);
    let i = first_newline(buffer);
    if 0 <= i < buffer.len() {
        let line = buffer.take(i);
        if is_blank(line) {
            lemma_lines_are_clean(buffer.skip(i + 1), cap, finished);
        } else {
            assert forall|k: int| 0 <= k < line.len() implies line[k] != NEWLINE by {
                assert(line[k] == buffer[k]);
            }
        }
    }
}

/// Cuts a byte stream into lines.
#[derive(Debug, Clone)]
pub struct LineFramer {
    buffer: Vec<u8>,
    cap: usize,
    finished: bool,
}

/// The bytes of `v` from `from` up to `to`.
fn copy_range(v: &Vec<u8>, from: usize, to: usize) -> (r: Vec<u8>)
    requires
        from <= to <= v.len(),
    ensures
        r@ == v@.subrange(from as int, to as int),
{
    let mut out: Vec<u8> = Vec::new();
    let mut k = from;
    while k < to
        invariant
            from <= k <= to <= v.len(),
            out@ == v@.subrange(from as int, k as int),
        decreases to - k,
    {
        out.push(v[k]);
        k = k + 1;
        assert(out@ =~= v@.subrange(from as int, k as int));
    }
    out
}

/// Whether every byte of `v` is whitespace.
fn blank(v: &Vec<u8>) -> (r: bool)
    ensures
        r == is_blank(v@),
{
    let mut k: usize = 0;
    while k < v.len()
        invariant
            k <= v.len(),
            forall|j: int| 0 <= j < k ==> is_space_byte(#[trigger] v@[j]),
        decreases v.len() - k,
    {
        let b = v[k];
        if !(b == 9 || b == 10 || b == 11 || b == 12 || b == 13 || b == 32) {
            return false;
        }
        k = k + 1;
    }
    true
}

/// The index of the first newline of `v`, or its length.
fn find_newline(v: &Vec<u8>) -> (r: usize)
    ensures
        r == first_newline(v@),
{
    let mut j: usize = 0;
    while j < v.len() && v[j] != NEWLINE
        invariant
            j <= v.len(),
            forall|k: int| 0 <= k < j ==> v@[k] != NEWLINE,
        decreases v.len() - j,
    {
        j = j + 1;
    }
    proof {
        lemma_first_newline_at(v@, j as int);
    }
    j
}

impl LineFramer {
    /// The bytes received and not yet framed.
    pub closed spec fn buffer_of(&self) -> Seq<u8> {
        self.buffer@
    }

    /// The cap on the length of a pending line.
    pub closed spec fn cap_of(&self) -> usize {
        self.cap
    }

    /// Whether the input has ended.
    pub closed spec fn finished_of(&self) -> bool {
        self.finished
    }

    /// A framer with nothing received yet.
    pub fn new(cap: usize) -> (r: LineFramer)
        ensures
            r.buffer_of() == Seq::<u8>::empty(),
            r.cap_of() == cap,
            !r.finished_of(),
    {
        LineFramer { buffer: Vec::new(), cap, finished: false }
    }

    /// Appends received bytes.
    pub fn push(&mut self, chunk: &[u8])
        ensures
            final(self).buffer_of() == old(self).buffer_of() + chunk@,
            final(self).cap_of() == old(self).cap_of(),
            final(self).finished_of() == old(self).finished_of(),
    {
        let mut k: usize = 0;
        let ghost start = self.buffer@;
        while k < chunk.len()
            invariant
                k <= chunk.len(),
                self.buffer@ == start + chunk@.take(k as int),
                self.cap == old(self).cap,
                self.finished == old(self).finished,
            decreases chunk.len() - k,
        {
            self.buffer.push(chunk[k]);
            k = k + 1;
            assert(self.buffer@ =~= start + chunk@.take(k as int));
        }
        assert(chunk@.take(chunk.len() as int) =~= chunk@);
    }

    /// Marks the end of the input.
    pub fn finish(&mut self)
        ensures
            final(self).buffer_of() == old(self).buffer_of(),
            final(self).cap_of() == old(self).cap_of(),
            final(self).finished_of(),
    {
        self.finished = true;
    }

    /// Takes the next frame; see [`next_frame_of`].
    pub fn next_frame(&mut self) -> (r: Frame)
        ensures
            next_frame_of(old(self).buffer_of(), old(self).cap_of() as nat, old(self).finished_of()) == (
                r@,
                final(self).buffer_of(),
                final(self).finished_of(),
            ),
            final(self).cap_of() == old(self).cap_of(),
    {
        loop
            invariant
                next_frame_of(self.buffer@, self.cap as nat, self.finished) == next_frame_of(
                    old(self).buffer@,
                    old(self).cap as nat,
                    old(self).finished,
                ),
                self.cap == old(self).cap,
            decreases self.buffer@.len(),
        {
            let i = find_newline(&self.buffer);
            proof {
                lemma_first_newline_bounds(self.buffer@);
            }
            if i < self.buffer.len() {
                let line = copy_range(&self.buffer, 0, i);
                let rest = copy_range(&self.buffer, i + 1, self.buffer.len());
                proof {
                    assert(line@ =~= self.buffer@.take(i as int));
                    assert(rest@ =~= self.buffer@.skip(i + 1));
                }
                self.buffer = rest;
                if !blank(&line) {
                    return Frame::Line(line);
                }
            } else if self.buffer.len() > self.cap {
                self.buffer = Vec::new();
                self.finished = true;
                return Frame::TooLong;
            } else if self.finished {
                let text = copy_range(&self.buffer, 0, self.buffer.len());
                proof {
                    assert(text@ =~= self.buffer@);
                }
                self.buffer = Vec::new();
                if blank(&text) {
                    return Frame::End;
                }
                return Frame::Line(text);
            } else {
                return Frame::NeedMore;
            }
        }
    }
}

} // verus!
