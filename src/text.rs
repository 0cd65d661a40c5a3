use vstd::prelude::*;
use vstd::utf8::*;
use vstd::string::StringSliceAdditionalSpecFns;
use crate::span::Span;

verus! {

broadcast use {
    encode_utf8_valid_utf8,
    encode_utf8_decode_utf8,
    is_char_boundary_start_end_of_seq,
};

/// The bytes of `src` in `[a, b)` when both ends fall on character boundaries
/// and `a <= b`; otherwise nothing.
pub open spec fn slice_bytes(src: Seq<u8>, a: int, b: int) -> Seq<u8> {
    if 0 <= a <= b <= src.len() && is_char_boundary(src, a) && is_char_boundary(src, b) {
        src.subrange(a, b)
    } else {
        Seq::empty()
    }
}

/// The bytes that a span selects after clamping it into the source.
pub open spec fn span_text(src: Seq<u8>, span: Span) -> Seq<u8> {
    let c = span.clamped(src.len() as int);
    slice_bytes(src, c.start as int, c.end as int)
}

proof fn lemma_boundary_in_prefix(bytes: Seq<u8>, a: int, b: int)
    requires
        valid_utf8(bytes),
        0 <= a <= b <= bytes.len(),
        is_char_boundary(bytes, a),
        is_char_boundary(bytes, b),
    ensures
        valid_utf8(bytes.subrange(0, b)),
        is_char_boundary(bytes.subrange(0, b), a),
{
    valid_utf8_split(bytes, b);
    let p = bytes.subrange(0, b);
    if a == b {
        is_char_boundary_start_end_of_seq(p);
    } else if a > 0 {
        is_char_boundary_iff_not_is_continuation_byte(bytes, a);
        is_char_boundary_iff_not_is_continuation_byte(p, a);
    }
}

/// Copies out the text of `source` between byte offsets `a` and `b`; where either
/// offset splits a character the result is empty.
pub fn slice_text(source: &str, a: usize, b: usize) -> (r: String)
    requires
        a <= b <= source.spec_bytes().len(),
    ensures
        encode_utf8(r@) == slice_bytes(source.spec_bytes(), a as int, b as int),
{
    if source.is_char_boundary(a) && source.is_char_boundary(b) {
        proof {
            lemma_boundary_in_prefix(source.spec_bytes(), a as int, b as int);
        }
        let (head, _) = source.split_at(b);
        let (_, mid) = head.split_at(a);
        let r = mid.to_owned();
        proof {
            assert(mid.spec_bytes() =~= source.spec_bytes().subrange(a as int, b as int));
        }
        r
    } else {
        String::new()
    }
}

/// The source text under `span`, clamped into the source: never fails, and is
/// empty where the clamped span splits a character.
pub fn text_of(span: Span, source: &str) -> (r: String)
    ensures
        encode_utf8(r@) == span_text(source.spec_bytes(), span),
{
    let n = source.as_bytes().len();
    let c = span.clamp(n);
    slice_text(source, c.start, c.end)
}

/// The text of a span that covers the whole source is the source itself.
pub proof fn lemma_full_span_text(source: &str, span: Span)
    requires
        span.start == 0,
        span.end == source.spec_bytes().len(),
    ensures
        span_text(source.spec_bytes(), span) == source.spec_bytes(),
        forall|t: Seq<char>| encode_utf8(t) == span_text(source.spec_bytes(), span) ==> t == source@,
{
    let bytes = source.spec_bytes();
    assert(bytes.subrange(0, bytes.len() as int) =~= bytes);
    assert forall|t: Seq<char>| encode_utf8(t) == span_text(bytes, span) implies t == source@ by {
        assert(decode_utf8(encode_utf8(t)) == t);
        assert(decode_utf8(encode_utf8(source@)) == source@);
    }
}

} // verus!
