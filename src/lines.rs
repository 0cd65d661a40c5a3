use vstd::prelude::*;
use vstd::string::StringSliceAdditionalSpecFns;

verus! {

/// The byte that ends a line.
pub const NEWLINE: u8 = 10;

/// How many line terminators `s` holds.
pub open spec fn count_newlines(s: Seq<u8>) -> nat
    decreases s.len(),
{
    if s.len() == 0 {
        0
    } else {
        count_newlines(s.drop_last()) + if s.last() == NEWLINE { 1nat } else { 0nat }
    }
}

/// The 1-based line on which byte offset `offset` of `src` lies: one more than the
/// number of line terminators before it.
pub open spec fn line_of(src: Seq<u8>, offset: int) -> nat {
    1 + count_newlines(src.subrange(0, offset))
}

/// How many lines `src` spans: one more than its line terminators.
pub open spec fn total_lines(src: Seq<u8>) -> nat {
    1 + count_newlines(src)
}

/// The line of an offset after clamping it into `[0, len(src)]`.
pub open spec fn line_at_clamped(src: Seq<u8>, offset: int) -> nat {
    if offset <= src.len() {
        line_of(src, offset)
    } else {
        line_of(src, src.len() as int)
    }
}

pub proof fn lemma_count_newlines_step(src: Seq<u8>, i: int)
    requires
        0 <= i < src.len(),
    ensures
        count_newlines(src.subrange(0, i + 1)) == count_newlines(src.subrange(0, i)) + if src[i]
            == NEWLINE {
            1nat
        } else {
            0nat
        },
{
    assert(src.subrange(0, i + 1).drop_last() =~= src.subrange(0, i));
}

/// Line numbers never decrease as the offset grows.
pub proof fn lemma_line_of_monotonic(src: Seq<u8>, i: int, j: int)
    requires
        0 <= i <= j <= src.len(),
    ensures
        line_of(src, i) <= line_of(src, j),
    decreases j - i,
{
    if i < j {
        lemma_count_newlines_step(src, j - 1);
        lemma_line_of_monotonic(src, i, j - 1);
    }
}

/// Every line number lies in `[1, total_lines(src)]`, and the end of the source
/// lies on the last line.
pub proof fn lemma_line_of_bounds(src: Seq<u8>, i: int)
    requires
        0 <= i <= src.len(),
    ensures
        1 <= line_of(src, i) <= total_lines(src),
        line_of(src, 0) == 1,
        line_of(src, src.len() as int) == total_lines(src),
{
    lemma_line_of_monotonic(src, i, src.len() as int);
    assert(src.subrange(0, src.len() as int) =~= src);
    assert(src.subrange(0, 0) =~= Seq::<u8>::empty());
}

/// A table from byte offset to 1-based line number, built once per source buffer.
pub struct LineIndex {
    lines: Vec<usize>,
    src: Ghost<Seq<u8>>,
}

impl LineIndex {
    /// The bytes the table was built over.
    pub closed spec fn source(&self) -> Seq<u8> {
        self.src@
    }

    pub closed spec fn table(&self) -> Seq<usize> {
        self.lines@
    }

    /// The table holds, for each offset from 0 to the length of the source
    /// inclusive, the line on which that offset lies.
    pub open spec fn wf(&self) -> bool {
        &&& self.table().len() == self.source().len() + 1
        &&& forall|i: int|
            0 <= i <= self.source().len() ==> #[trigger] self.table()[i] as nat == line_of(
                self.source(),
                i,
            )
    }

    /// Builds the table over the bytes of `source` in one pass.
    pub fn build(source: &str) -> (r: LineIndex)
        requires
            source.spec_bytes().len() < usize::MAX,
        ensures
            r.wf(),
            r.source() == source.spec_bytes(),
    {
        let bytes = source.as_bytes();
        let n = bytes.len();
        let mut lines: Vec<usize> = Vec::with_capacity(n + 1);
        let mut line: usize = 1;
        let mut i: usize = 0;
        proof {
            assert(bytes@.subrange(0, 0) =~= Seq::<u8>::empty());
        }
        while i < n
            invariant
                n == bytes@.len(),
                n < usize::MAX,
                i <= n,
                lines@.len() == i,
                line as nat == line_of(bytes@, i as int),
                line <= i + 1,
                forall|k: int| 0 <= k < i ==> #[trigger] lines@[k] as nat == line_of(bytes@, k),
            decreases n - i,
        {
            lines.push(line);
            proof {
                lemma_count_newlines_step(bytes@, i as int);
            }
            if bytes[i] == NEWLINE {
                line = line + 1;
            }
            i = i + 1;
        }
        lines.push(line);
        LineIndex { lines, src: Ghost(bytes@) }
    }

    /// The line of `offset`; an offset past the end is clamped to the end.
    pub fn line_at(&self, offset: usize) -> (r: usize)
        requires
            self.wf(),
        ensures
            r as nat == line_at_clamped(self.source(), offset as int),
    {
        let last = self.lines.len() - 1;
        if offset <= last {
            self.lines[offset]
        } else {
            self.lines[last]
        }
    }
}

/// Two tables built from one source give the same line for every offset.
pub proof fn lemma_line_index_deterministic(a: &LineIndex, b: &LineIndex, offset: int)
    requires
        a.wf(),
        b.wf(),
        a.source() == b.source(),
    ensures
        line_at_clamped(a.source(), offset) == line_at_clamped(b.source(), offset),
        0 <= offset <= a.source().len() ==> a.table()[offset] == b.table()[offset],
{
}

} // verus!
