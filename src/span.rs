use vstd::prelude::*;

verus! {

/// A half-open byte range `[start, end)` into a source buffer.
#[derive(Clone, Copy, Debug, PartialEq, Eq, Hash, Structural)]
pub struct Span {
    pub start: usize,
    pub end: usize,
}

impl Span {
    pub fn new(start: usize, end: usize) -> (r: Span)
        ensures
            r.start == start,
            r.end == end,
    {
        Span { start, end }
    }

    /// The span lies inside a buffer of `len` bytes and is not reversed.
    pub open spec fn within(self, len: int) -> bool {
        0 <= self.start <= self.end <= len
    }

    /// The span clamped into `[0, len]`, with a reversed span collapsed onto its
    /// (clamped) start.
    pub open spec fn clamped(self, len: int) -> Span {
        let s = if self.start <= len { self.start } else { len as usize };
        let e0 = if self.end <= len { self.end } else { len as usize };
        let e = if e0 >= s { e0 } else { s };
        Span { start: s, end: e }
    }

    /// Clamps the span into a buffer of `len` bytes.
    pub fn clamp(self, len: usize) -> (r: Span)
        ensures
            r == self.clamped(len as int),
            r.within(len as int),
            self.within(len as int) ==> r == self,
    {
        let s = if self.start <= len { self.start } else { len };
        let e0 = if self.end <= len { self.end } else { len };
        let e = if e0 >= s { e0 } else { s };
        Span { start: s, end: e }
    }
}

} // verus!
