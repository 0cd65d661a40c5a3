use vstd::prelude::*;
use vstd::utf8::encode_utf8;
use vstd::string::StringSliceAdditionalSpecFns;
use crate::span::Span;
use crate::text::{slice_bytes, slice_text};

verus! {

pub const SLASH: u8 = 47;
pub const STAR: u8 = 42;
pub const CR: u8 = 13;
pub const LF: u8 = 10;
pub const BACKSLASH: u8 = 92;
pub const DOUBLE_QUOTE: u8 = 34;
pub const SINGLE_QUOTE: u8 = 39;
pub const BACKTICK: u8 = 96;

/// A comment found in the source.
#[derive(Clone, Debug)]
pub struct Comment {
    /// The comment's text without its delimiters.
    pub text: String,
    /// Where the comment stands, delimiters included.
    pub span: Span,
    /// `true` for `/* ... */`, `false` for `// ...`.
    pub is_block: bool,
}

pub open spec fn is_quote(c: u8) -> bool {
    c == DOUBLE_QUOTE || c == SINGLE_QUOTE || c == BACKTICK
}

/// Where a line comment whose text starts at `j` ends: at the first line break
/// from `j` on, or at the end of the source.
pub open spec fn line_comment_end(b: Seq<u8>, j: int) -> int
    decreases b.len() - j,
{
    if j >= b.len() || b[j] == LF || b[j] == CR {
        j
    } else {
        line_comment_end(b, j + 1)
    }
}

/// Where a block comment whose text starts at `j` ends: just past the first `*/`
/// from `j` on; without one, at the end of the source.
pub open spec fn block_comment_end(b: Seq<u8>, j: int) -> int
    decreases b.len() - j,
{
    if j + 1 >= b.len() {
        if j <= b.len() {
            b.len() as int
        } else {
            j
        }
    } else if b[j] == STAR && b[j + 1] == SLASH {
        j + 2
    } else {
        block_comment_end(b, j + 1)
    }
}

/// Where a quoted string whose body starts at `j` ends: just past the first
/// quote `q` that is not escaped, or at the end of the source. A backslash
/// escapes the byte after it.
pub open spec fn quoted_end(b: Seq<u8>, j: int, q: u8) -> int
    decreases b.len() - j,
{
    if j >= b.len() {
        j
    } else if b[j] == BACKSLASH {
        if j + 2 <= b.len() {
            quoted_end(b, j + 2, q)
        } else {
            b.len() as int
        }
    } else if b[j] == q {
        j + 1
    } else {
        quoted_end(b, j + 1, q)
    }
}

/// The comments found from offset `i` on, as `(start, end, is_block)`: `//` and
/// `/*` open a comment except inside a quoted string.
pub open spec fn scan_comments(b: Seq<u8>, i: int) -> Seq<(int, int, bool)>
    decreases b.len() - i,
{
    if i < 0 || i >= b.len() {
        Seq::empty()
    } else if i + 1 < b.len() && b[i] == SLASH && b[i + 1] == SLASH {
        let e = line_comment_end(b, i + 2);
        if i < e <= b.len() {
            seq![(i, e, false)] + scan_comments(b, e)
        } else {
            Seq::empty()
        }
    } else if i + 1 < b.len() && b[i] == SLASH && b[i + 1] == STAR {
        let e = block_comment_end(b, i + 2);
        if i < e <= b.len() {
            seq![(i, e, true)] + scan_comments(b, e)
        } else {
            Seq::empty()
        }
    } else if is_quote(b[i]) {
        let e = quoted_end(b, i + 1, b[i]);
        if i < e <= b.len() {
            scan_comments(b, e)
        } else {
            Seq::empty()
        }
    } else {
        scan_comments(b, i + 1)
    }
}

/// The quoted string literals found from offset `i` on, as `(start, end)`,
/// quotes included: the tokens the comment scan steps over.
pub open spec fn scan_strings(b: Seq<u8>, i: int) -> Seq<(int, int)>
    decreases b.len() - i,
{
    if i < 0 || i >= b.len() {
        Seq::empty()
    } else if i + 1 < b.len() && b[i] == SLASH && b[i + 1] == SLASH {
        let e = line_comment_end(b, i + 2);
        if i < e <= b.len() {
            scan_strings(b, e)
        } else {
            Seq::empty()
        }
    } else if i + 1 < b.len() && b[i] == SLASH && b[i + 1] == STAR {
        let e = block_comment_end(b, i + 2);
        if i < e <= b.len() {
            scan_strings(b, e)
        } else {
            Seq::empty()
        }
    } else if is_quote(b[i]) {
        let e = quoted_end(b, i + 1, b[i]);
        if i < e <= b.len() {
            seq![(i, e)] + scan_strings(b, e)
        } else {
            Seq::empty()
        }
    } else {
        scan_strings(b, i + 1)
    }
}

/// Where the scan goes after offset `i`, and whether it finds a comment or a
/// string there.
pub open spec fn scan_next(b: Seq<u8>, i: int) -> (int, bool, bool) {
    if i + 1 < b.len() && b[i] == SLASH && b[i + 1] == SLASH {
        (line_comment_end(b, i + 2), true, false)
    } else if i + 1 < b.len() && b[i] == SLASH && b[i + 1] == STAR {
        (block_comment_end(b, i + 2), true, false)
    } else if is_quote(b[i]) {
        (quoted_end(b, i + 1, b[i]), false, true)
    } else {
        (i + 1, false, false)
    }
}

proof fn lemma_scan_step(b: Seq<u8>, i: int)
    requires
        0 <= i < b.len(),
    ensures
        ({
            let (e, is_comment, is_string) = scan_next(b, i);
            if i < e <= b.len() {
                &&& is_comment ==> scan_comments(b, i).len() == 1 + scan_comments(b, e).len()
                    && scan_comments(b, i)[0].0 == i && scan_comments(b, i)[0].1 == e && (
                forall|k: int|
                    0 < k < scan_comments(b, i).len() ==> #[trigger] scan_comments(b, i)[k]
                        == scan_comments(b, e)[k - 1])
                &&& !is_comment ==> scan_comments(b, i) == scan_comments(b, e)
                &&& is_string ==> scan_strings(b, i).len() == 1 + scan_strings(b, e).len()
                    && scan_strings(b, i)[0] == (i, e) && (forall|k: int|
                    0 < k < scan_strings(b, i).len() ==> #[trigger] scan_strings(b, i)[k]
                        == scan_strings(b, e)[k - 1])
                &&& !is_string ==> scan_strings(b, i) == scan_strings(b, e)
            } else {
                scan_comments(b, i).len() == 0 && scan_strings(b, i).len() == 0
            }
        }),
{
}

proof fn lemma_scan_next_advances(b: Seq<u8>, i: int)
    requires
        0 <= i < b.len(),
    ensures
        i < scan_next(b, i).0 <= b.len(),
{
    if i + 1 < b.len() && b[i] == SLASH && b[i + 1] == SLASH {
        lemma_line_end_bounds(b, i + 2);
    } else if i + 1 < b.len() && b[i] == SLASH && b[i + 1] == STAR {
        lemma_block_end_bounds(b, i + 2);
    } else if is_quote(b[i]) {
        lemma_quoted_end_bounds(b, i + 1, b[i]);
    }
}

proof fn lemma_scans_from(b: Seq<u8>, i: int)
    requires
        0 <= i,
    ensures
        forall|k: int|
            0 <= k < scan_comments(b, i).len() ==> i <= (#[trigger] scan_comments(b, i)[k]).0,
        forall|k: int|
            0 <= k < scan_strings(b, i).len() ==> i <= (#[trigger] scan_strings(b, i)[k]).0,
    decreases b.len() - i,
{
    if i < b.len() {
        lemma_scan_next_advances(b, i);
        lemma_scan_step(b, i);
        let e = scan_next(b, i).0;
        lemma_scans_from(b, e);
    }
}

/// No comment the scan finds overlaps a string literal it steps over: a
/// comment ends before the string starts or starts after it ends.
pub proof fn law_comments_outside_strings(b: Seq<u8>, i: int)
    requires
        0 <= i,
    ensures
        forall|k: int, m: int|
            0 <= k < scan_comments(b, i).len() && 0 <= m < scan_strings(b, i).len() ==> (
            #[trigger] scan_comments(b, i)[k]).1 <= (#[trigger] scan_strings(b, i)[m]).0 || (
            scan_strings(b, i)[m]).1 <= (scan_comments(b, i)[k]).0,
    decreases b.len() - i,
{
    if i < b.len() {
        lemma_scan_next_advances(b, i);
        lemma_scan_step(b, i);
        let e = scan_next(b, i).0;
        law_comments_outside_strings(b, e);
        lemma_scans_from(b, e);
        let c = scan_comments(b, i);
        let t = scan_strings(b, i);
        let c2 = scan_comments(b, e);
        let t2 = scan_strings(b, e);
        assert forall|k: int, m: int| 0 <= k < c.len() && 0 <= m < t.len() implies (
        #[trigger] c[k]).1 <= (#[trigger] t[m]).0 || t[m].1 <= c[k].0 by {
            if scan_next(b, i).1 {
                assert(t[m] == t2[m]);
                if k > 0 {
                    assert(c[k] == c2[k - 1]);
                }
            } else if scan_next(b, i).2 {
                assert(c[k] == c2[k]);
                if m > 0 {
                    assert(t[m] == t2[m - 1]);
                }
            } else {
                assert(c[k] == c2[k]);
                assert(t[m] == t2[m]);
            }
        }
    }
}

/// A block comment `c` is closed by `*/`.
pub open spec fn block_closed(b: Seq<u8>, c: (int, int, bool)) -> bool {
    c.1 >= c.0 + 4 && b[c.1 - 2] == STAR && b[c.1 - 1] == SLASH
}

/// The byte range of a comment's text: what lies between its delimiters; an
/// unclosed block comment runs to the end of the source.
pub open spec fn comment_text_range(b: Seq<u8>, c: (int, int, bool)) -> (int, int) {
    if c.2 && block_closed(b, c) {
        (c.0 + 2, c.1 - 2)
    } else {
        (c.0 + 2, c.1)
    }
}

/// `c` is the comment found at `f` in the source `b`.
pub open spec fn comment_matches(c: Comment, f: (int, int, bool), b: Seq<u8>) -> bool {
    &&& c.span.start == f.0
    &&& c.span.end == f.1
    &&& c.is_block == f.2
    &&& encode_utf8(c.text@) == slice_bytes(
        b,
        comment_text_range(b, f).0,
        comment_text_range(b, f).1,
    )
}

proof fn lemma_line_end_bounds(b: Seq<u8>, j: int)
    requires
        0 <= j <= b.len(),
    ensures
        j <= line_comment_end(b, j) <= b.len(),
    decreases b.len() - j,
{
    if j < b.len() && b[j] != LF && b[j] != CR {
        lemma_line_end_bounds(b, j + 1);
    }
}

proof fn lemma_block_end_bounds(b: Seq<u8>, j: int)
    requires
        0 <= j <= b.len(),
    ensures
        j <= block_comment_end(b, j) <= b.len(),
    decreases b.len() - j,
{
    if j + 1 < b.len() && !(b[j] == STAR && b[j + 1] == SLASH) {
        lemma_block_end_bounds(b, j + 1);
    }
}

proof fn lemma_quoted_end_bounds(b: Seq<u8>, j: int, q: u8)
    requires
        0 <= j <= b.len(),
    ensures
        j <= quoted_end(b, j, q) <= b.len(),
    decreases b.len() - j,
{
    if j < b.len() && b[j] == BACKSLASH {
        if j + 2 <= b.len() {
            lemma_quoted_end_bounds(b, j + 2, q);
        }
    } else if j < b.len() && b[j] != q {
        lemma_quoted_end_bounds(b, j + 1, q);
    }
}

proof fn lemma_scan_suffix(b: Seq<u8>, i: int, e: int, head: Seq<(int, int, bool)>, n: int)
    requires
        scan_comments(b, i) == head + scan_comments(b, e),
        n + scan_comments(b, i).len() == scan_comments(b, 0).len(),
        forall|k: int|
            0 <= k < scan_comments(b, i).len() ==> #[trigger] scan_comments(b, i)[k] == scan_comments(
                b,
                0,
            )[n + k],
    ensures
        n + head.len() + scan_comments(b, e).len() == scan_comments(b, 0).len(),
        forall|k: int|
            0 <= k < scan_comments(b, e).len() ==> #[trigger] scan_comments(b, e)[k] == scan_comments(
                b,
                0,
            )[n + head.len() + k],
        forall|k: int| 0 <= k < head.len() ==> head[k] == scan_comments(b, 0)[n + k],
{
    assert forall|k: int| 0 <= k < scan_comments(b, e).len() implies #[trigger] scan_comments(b, e)[k]
        == scan_comments(b, 0)[n + head.len() + k] by {
        assert(scan_comments(b, e)[k] == scan_comments(b, i)[head.len() + k]);
    }
    assert forall|k: int| 0 <= k < head.len() implies head[k] == scan_comments(b, 0)[n + k] by {
        assert(head[k] == scan_comments(b, i)[k]);
    }
}

/// Finds the line and block comments of `source` by scanning its bytes, skipping
/// over quoted strings.
pub fn extract_comments(source: &str) -> (r: Vec<Comment>)
    ensures
        r@.len() == scan_comments(source.spec_bytes(), 0).len(),
        forall|k: int|
            0 <= k < r@.len() ==> comment_matches(
                #[trigger] r@[k],
                scan_comments(source.spec_bytes(), 0)[k],
                source.spec_bytes(),
            ),
        forall|k: int, m: int|
            0 <= k < r@.len() && 0 <= m < scan_strings(source.spec_bytes(), 0).len() ==> (
            #[trigger] r@[k]).span.end <= (#[trigger] scan_strings(source.spec_bytes(), 0)[m]).0
                || scan_strings(source.spec_bytes(), 0)[m].1 <= r@[k].span.start,
{
    proof {
        law_comments_outside_strings(source.spec_bytes(), 0);
    }
    let bytes = source.as_bytes();
    let len = bytes.len();
    let ghost b = bytes@;
    let mut comments: Vec<Comment> = Vec::new();
    let mut i: usize = 0;
    while i < len
        invariant
            b == source.spec_bytes(),
            b == bytes@,
            len == b.len(),
            i <= len,
            comments@.len() + scan_comments(b, i as int).len() == scan_comments(b, 0).len(),
            forall|k: int|
                0 <= k < comments@.len() ==> comment_matches(
                    #[trigger] comments@[k],
                    scan_comments(b, 0)[k],
                    b,
                ),
            forall|k: int|
                0 <= k < scan_comments(b, i as int).len() ==> #[trigger] scan_comments(
                    b,
                    i as int,
                )[k] == scan_comments(b, 0)[comments@.len() + k],
        decreases len - i,
    {
        let ghost n = comments@.len() as int;
        if i + 1 < len && bytes[i] == SLASH && bytes[i + 1] == SLASH {
            let start = i;
            let mut end = i + 2;
            while end < len && bytes[end] != LF && bytes[end] != CR
                invariant
                    b == bytes@,
                    len == b.len(),
                    i + 2 <= end <= len,
                    line_comment_end(b, end as int) == line_comment_end(b, i + 2),
                decreases len - end,
            {
                end = end + 1;
            }
            let text = slice_text(source, start + 2, end);
            let c = Comment { text, span: Span { start, end }, is_block: false };
            let ghost head = seq![(i as int, end as int, false)];
            proof {
                assert(end as int == line_comment_end(b, i + 2));
                assert(scan_comments(b, i as int) == head + scan_comments(b, end as int));
                lemma_scan_suffix(b, i as int, end as int, head, n);
            }
            proof {
                assert(head[0] == scan_comments(b, 0)[n]);
                assert(b.subrange(i + 2, i + 2) =~= Seq::<u8>::empty());
                assert(comment_matches(c, head[0], b));
            }
            comments.push(c);
            proof {
                assert(comments@[n] == c);
            }
            i = end;
        } else if i + 1 < len && bytes[i] == SLASH && bytes[i + 1] == STAR {
            let start = i;
            let mut end = i + 2;
            let mut done = false;
            proof {
                lemma_block_end_bounds(b, i + 2);
            }
            while !done && end < len - 1
                invariant
                    b == bytes@,
                    len == b.len(),
                    i + 2 <= end <= len,
                    !done ==> block_comment_end(b, end as int) == block_comment_end(b, i + 2),
                    i + 1 < len,
                    done ==> end == block_comment_end(b, i + 2),
                decreases len - end,
            {
                if bytes[end] == STAR && bytes[end + 1] == SLASH {
                    end = end + 2;
                    done = true;
                } else {
                    end = end + 1;
                }
            }
            if !done {
                end = len;
            }
            let closed = end - start >= 4 && bytes[end - 2] == STAR && bytes[end - 1] == SLASH;
            let text = if closed {
                slice_text(source, start + 2, end - 2)
            } else {
                slice_text(source, start + 2, end)
            };
            let c = Comment { text, span: Span { start, end }, is_block: true };
            let ghost head = seq![(i as int, end as int, true)];
            proof {
                assert(end as int == block_comment_end(b, i + 2));
                assert(scan_comments(b, i as int) == head + scan_comments(b, end as int));
                lemma_scan_suffix(b, i as int, end as int, head, n);
            }
            proof {
                assert(head[0] == scan_comments(b, 0)[n]);
                assert(b.subrange(i + 2, i + 2) =~= Seq::<u8>::empty());
                assert(comment_matches(c, head[0], b));
            }
            comments.push(c);
            proof {
                assert(comments@[n] == c);
            }
            i = end;
        } else if bytes[i] == DOUBLE_QUOTE || bytes[i] == SINGLE_QUOTE || bytes[i] == BACKTICK {
            let quote = bytes[i];
            let mut j = i + 1;
            let mut done = false;
            while !done && j < len
                invariant
                    b == bytes@,
                    len == b.len(),
                    i + 1 <= j <= len,
                    !done ==> quoted_end(b, j as int, quote) == quoted_end(b, i + 1, quote),
                    done ==> j == quoted_end(b, i + 1, quote),
                decreases len - j,
            {
                if bytes[j] == BACKSLASH {
                    if j < len - 1 {
                        j = j + 2;
                    } else {
                        j = len;
                    }
                } else if bytes[j] == quote {
                    done = true;
                    j = j + 1;
                } else {
                    j = j + 1;
                }
            }
            proof {
                lemma_scan_suffix(b, i as int, j as int, Seq::empty(), n);
                assert(Seq::<(int, int, bool)>::empty() + scan_comments(b, j as int) =~= scan_comments(b, j as int));
            }
            i = j;
        } else {
            proof {
                lemma_scan_suffix(b, i as int, i + 1, Seq::empty(), n);
                assert(Seq::<(int, int, bool)>::empty() + scan_comments(b, i + 1) =~= scan_comments(b, i + 1));
            }
            i = i + 1;
        }
    }
    comments
}

} // verus!
