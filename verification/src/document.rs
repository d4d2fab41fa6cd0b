//! The document model: an immutable, ordered collection of text lines.
//!
//! A `Line` is one line of source text as a sequence of bytes; a `Document`
//! always holds at least one line (an empty input is represented as one empty
//! line, never as zero lines). Columns are byte offsets within a line.

use vstd::prelude::*;

verus! {

/// One line of text, immutable once created.
pub struct Line {
    data: Vec<u8>,
}

impl View for Line {
    type V = Seq<u8>;

    closed spec fn view(&self) -> Seq<u8> {
        self.data@
    }
}

/// What `Line::render` returns: the bytes in `[start, min(end, len))`, with
/// `start` clamped so it never exceeds the clamped `end`. Every start/end
/// combination yields a valid (possibly empty) sub-sequence.
pub open spec fn render_spec(line: Seq<u8>, start: int, end: int) -> Seq<u8> {
    let e = vstd::math::min(end, line.len() as int);
    let s = vstd::math::min(start, e);
    line.subrange(s, e)
}

impl Line {
    pub fn new(data: Vec<u8>) -> (l: Line)
        ensures
            l@ == data@,
    {
        Line { data }
    }

    /// The sub-range of bytes in `[start, min(end, len))`; out-of-bounds or
    /// empty ranges yield an empty result rather than a failure.
    pub fn render(&self, start: usize, end: usize) -> (out: Vec<u8>)
        ensures
            out@ == render_spec(self@, start as int, end as int),
    {
        let e = if end <= self.data.len() { end } else { self.data.len() };
        let s = if start <= e { start } else { e };
        let mut out: Vec<u8> = Vec::new();
        let mut i: usize = s;
        while i < e
            invariant
                s <= i <= e <= self.data.len(),
                out@ == self.data@.subrange(s as int, i as int),
            decreases e - i,
        {
            out.push(self.data[i]);
            proof {
                assert(out@ =~= self.data@.subrange(s as int, i + 1));
            }
            i = i + 1;
        }
        proof {
            assert(out@ =~= render_spec(self@, start as int, end as int));
        }
        out
    }

    pub fn len(&self) -> (n: usize)
        ensures
            n == self@.len(),
    {
        self.data.len()
    }
}

/// `line` with one trailing carriage return removed, if it has one.
pub open spec fn strip_cr(line: Seq<u8>) -> Seq<u8> {
    if line.len() > 0 && line.last() == 13 {
        line.drop_last()
    } else {
        line
    }
}

/// The text split into lines: a line ends at a line feed or at a carriage
/// return followed by a line feed, the line ending is not part of the line,
/// and a final line ending closes the last line without opening a new one. A
/// carriage return anywhere else stays in its line.
pub open spec fn split_lines(s: Seq<u8>) -> Seq<Seq<u8>>
    decreases s.len(),
{
    if s.len() == 0 {
        Seq::empty()
    } else if s[0] == 10 {
        seq![Seq::<u8>::empty()] + split_lines(s.drop_first())
    } else if s[0] == 13 && s.len() >= 2 && s[1] == 10 {
        seq![Seq::<u8>::empty()] + split_lines(s.skip(2))
    } else {
        let rest = split_lines(s.drop_first());
        if rest.len() == 0 {
            seq![seq![s[0]]]
        } else {
            rest.update(0, seq![s[0]] + rest[0])
        }
    }
}

/// The lines of a document loaded from `text`: the split above, except that
/// empty text gives one empty line, so a document never has zero lines.
pub open spec fn document_lines(text: Seq<u8>) -> Seq<Seq<u8>> {
    if split_lines(text).len() == 0 {
        seq![Seq::<u8>::empty()]
    } else {
        split_lines(text)
    }
}

/// A text without line feeds is a single line (or no line at all when empty).
proof fn lemma_split_no_nl(a: Seq<u8>)
    requires
        forall|k: int| 0 <= k < a.len() ==> a[k] != 10,
    ensures
        split_lines(a) == if a.len() == 0 {
            Seq::<Seq<u8>>::empty()
        } else {
            seq![a]
        },
    decreases a.len(),
{
    if a.len() > 0 {
        lemma_split_no_nl(a.drop_first());
        if a.len() == 1 {
            assert(seq![a[0]] =~= a);
            assert(split_lines(a) =~~= seq![a]);
        } else {
            assert(seq![a[0]] + a.drop_first() =~= a);
            assert(split_lines(a) =~~= seq![a]);
        }
    }
}

/// Splitting a text that starts with a completed line: a line-feed-free
/// prefix `a` followed by text `t` that starts with a line feed splits into
/// `a` (less a carriage return consumed by that line feed) and the split of
/// the rest of `t`.
proof fn lemma_split_complete_line(a: Seq<u8>, t: Seq<u8>)
    requires
        forall|k: int| 0 <= k < a.len() ==> a[k] != 10,
        t.len() >= 1,
        t[0] == 10,
    ensures
        split_lines(a + t) == seq![strip_cr(a)] + split_lines(t.drop_first()),
    decreases a.len(),
{
    let s = a + t;
    if a.len() == 0 {
        assert(s =~= t);
        assert(strip_cr(a) =~= Seq::<u8>::empty());
        assert(split_lines(s) =~~= seq![strip_cr(a)] + split_lines(t.drop_first()));
    } else if a.len() == 1 && a[0] == 13 {
        assert(s[0] == 13 && s.len() >= 2 && s[1] == 10);
        assert(s.skip(2) =~= t.drop_first());
        assert(strip_cr(a) =~= Seq::<u8>::empty());
        assert(split_lines(s) =~~= seq![strip_cr(a)] + split_lines(t.drop_first()));
    } else {
        let a1 = a.drop_first();
        assert(s[0] == a[0] && s[0] != 10);
        if s[0] == 13 {
            assert(s[1] == a[1] && s[1] != 10);
        }
        assert(s.drop_first() =~= a1 + t);
        lemma_split_complete_line(a1, t);
        assert(seq![a[0]] + strip_cr(a1) =~= strip_cr(a));
        assert(split_lines(s) =~~= seq![strip_cr(a)] + split_lines(t.drop_first()));
    }
}

/// An ordered sequence of lines; insertion order is file line order.
pub struct Document {
    pub lines: Vec<Line>,
}

impl View for Document {
    type V = Seq<Seq<u8>>;

    open spec fn view(&self) -> Seq<Seq<u8>> {
        self.lines@.map_values(|l: Line| l@)
    }
}

impl Document {
    /// A document is well formed when it holds at least one line.
    pub open spec fn wf(&self) -> bool {
        self@.len() >= 1
    }

    /// The default document: exactly one empty line.
    pub fn default() -> (d: Document)
        ensures
            d@ =~= seq![Seq::<u8>::empty()],
            d.wf(),
    {
        let mut lines: Vec<Line> = Vec::new();
        lines.push(Line::new(Vec::new()));
        let d = Document { lines };
        proof {
            assert(d@ =~= seq![Seq::<u8>::empty()]);
        }
        d
    }

    /// The document loaded from a text: one line per input text line, in
    /// order, without line endings; an empty text yields the one-empty-line
    /// default rather than zero lines.
    pub fn from_bytes(text: &Vec<u8>) -> (d: Document)
        ensures
            d@ == document_lines(text@),
            d.wf(),
    {
        let mut lines: Vec<Line> = Vec::new();
        let mut cur: Vec<u8> = Vec::new();
        let mut i: usize = 0;
        proof {
            assert(cur@ + text@.skip(0) =~= text@);
            assert(lines@.map_values(|l: Line| l@) + split_lines(cur@ + text@.skip(0)) =~~= split_lines(text@));
        }
        while i < text.len()
            invariant
                i <= text.len(),
                forall|k: int| 0 <= k < cur@.len() ==> cur@[k] != 10,
                split_lines(text@) == lines@.map_values(|l: Line| l@) + split_lines(
                    cur@ + text@.skip(i as int),
                ),
            decreases text.len() - i,
        {
            let ghost linesv0 = lines@.map_values(|l: Line| l@);
            let ghost cur0 = cur@;
            let b = text[i];
            if b == 10 {
                proof {
                    lemma_split_complete_line(cur0, text@.skip(i as int));
                    assert(text@.skip(i as int).drop_first() =~= text@.skip(i + 1));
                }
                if cur.len() > 0 && cur[cur.len() - 1] == 13 {
                    cur.pop();
                }
                proof {
                    assert(cur@ =~= strip_cr(cur0));
                }
                let done = Line::new(cur);
                lines.push(done);
                cur = Vec::new();
                proof {
                    assert(lines@.map_values(|l: Line| l@) =~= linesv0 + seq![strip_cr(cur0)]);
                    assert(cur@ + text@.skip(i + 1) =~= text@.skip(i + 1));
                    assert(split_lines(text@) =~~= lines@.map_values(|l: Line| l@) + split_lines(
                        cur@ + text@.skip(i + 1),
                    ));
                }
            } else {
                cur.push(b);
                proof {
                    assert(cur@ + text@.skip(i + 1) =~= cur0 + text@.skip(i as int));
                }
            }
            i = i + 1;
        }
        proof {
            assert(cur@ + text@.skip(text@.len() as int) =~= cur@);
            lemma_split_no_nl(cur@);
        }
        let ghost linesv1 = lines@.map_values(|l: Line| l@);
        if cur.len() > 0 {
            let ghost cur1 = cur@;
            let done = Line::new(cur);
            lines.push(done);
            proof {
                assert(lines@.map_values(|l: Line| l@) =~= linesv1 + seq![cur1]);
                assert(split_lines(text@) =~~= lines@.map_values(|l: Line| l@));
            }
        } else {
            proof {
                assert(split_lines(text@) =~~= linesv1);
            }
        }
        if lines.len() == 0 {
            let blank = Line::new(Vec::new());
            lines.push(blank);
            proof {
                assert(lines@.map_values(|l: Line| l@) =~= seq![Seq::<u8>::empty()]);
            }
        }
        let d = Document { lines };
        proof {
            assert(d@ =~~= document_lines(text@));
        }
        d
    }

    /// The line at document-relative index `index`, or `None` past the end;
    /// out-of-range access is a no-op signal, never a failure.
    pub fn get_line(&self, index: usize) -> (r: Option<&Line>)
        ensures
            match r {
                Some(l) => index < self@.len() && l@ == self@[index as int],
                None => index >= self@.len(),
            },
    {
        if index < self.lines.len() {
            Some(&self.lines[index])
        } else {
            None
        }
    }

    /// Holds exactly when the document is the default: one line of length 0.
    pub fn is_empty(&self) -> (r: bool)
        ensures
            r == (self@.len() == 1 && self@[0].len() == 0),
    {
        self.lines.len() == 1 && self.lines[0].len() == 0
    }
}

/// A document an executable program holds is machine-bounded: the line count
/// and every line's length fit in `usize`.
pub proof fn lemma_view_bounds(d: &Document)
    ensures
        d@.len() <= usize::MAX,
        forall|i: int| 0 <= i < d@.len() ==> #[trigger] d@[i].len() <= usize::MAX,
{
    assert(d.lines.len() == d.lines@.len());
    assert forall|i: int| 0 <= i < d@.len() implies #[trigger] d@[i].len() <= usize::MAX by {
        let l = d.lines@[i];
        assert(d@[i] == l@);
        assert(l.data.len() == l.data@.len());
    }
}

} // verus!
