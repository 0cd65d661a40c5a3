//! Conversion of the parser's typed tree into the uniform node tree. Every
//! node it builds has its span clamped into the source and its lines read from
//! the source's line index.
use vstd::prelude::*;
use vstd::string::StringSliceAdditionalSpecFns;
use crate::span::Span;
use crate::lines::{LineIndex, line_of, line_at_clamped, lemma_line_of_monotonic};
use crate::node::{Node, NodeData, Kind, Identifier, Literal, children_of, all_ok, tree_ok, placed, opt, opt_list};
use crate::syntax::Name;

pub mod typescript;
pub mod jsx;
pub mod expressions;
pub mod statements;

verus! {

/// What conversion threads through every call: the line index of the source.
pub struct Context {
    index: LineIndex,
    len: usize,
}

impl Context {
    /// The bytes of the source being converted.
    pub closed spec fn src(&self) -> Seq<u8> {
        self.index.source()
    }

    pub closed spec fn wf(&self) -> bool {
        &&& self.index.wf()
        &&& self.len == self.index.source().len()
    }

    /// Builds the line index of `source` once, for a whole conversion.
    pub fn new(source: &str) -> (r: Context)
        requires
            source.spec_bytes().len() < usize::MAX,
        ensures
            r.wf(),
            r.src() == source.spec_bytes(),
    {
        let index = LineIndex::build(source);
        let len = source.as_bytes().len();
        Context { index, len }
    }

    /// A node with `data`, at `span` clamped into the source, with the lines of
    /// the clamped span's ends.
    pub fn node(&self, span: Span, data: NodeData) -> (r: Node)
        requires
            self.wf(),
            all_ok(children_of(data), self.src()),
        ensures
            tree_ok(r, self.src()),
            r.data == data,
            r.span == span.clamped(self.src().len() as int),
    {
        let c = span.clamp(self.len);
        let start_line = self.index.line_at(c.start);
        let end_line = self.index.line_at(c.end);
        let r = Node { span: c, start_line, end_line, data };
        proof {
            assert(placed(r, self.src()));
            assert(all_ok(children_of(r.data), self.src()));
        }
        r
    }

    /// A node that keeps only its kind.
    pub fn generic(&self, span: Span, kind: Kind) -> (r: Node)
        requires
            self.wf(),
        ensures
            tree_ok(r, self.src()),
            r.data == NodeData::Generic(kind),
            r.span == span.clamped(self.src().len() as int),
    {
        proof {
            assert(children_of(NodeData::Generic(kind)) =~= Seq::empty());
        }
        self.node(span, NodeData::Generic(kind))
    }

    /// An `Identifier` node.
    pub fn identifier(&self, span: Span, name: String) -> (r: Node)
        requires
            self.wf(),
        ensures
            tree_ok(r, self.src()),
            r.data == NodeData::Identifier(Identifier { name }),
            r.span == span.clamped(self.src().len() as int),
    {
        let data = NodeData::Identifier(Identifier { name });
        proof {
            assert(children_of(data) =~= Seq::empty());
        }
        self.node(span, data)
    }

    /// The line of `offset`, clamped into the source.
    pub fn line_at(&self, offset: usize) -> (r: usize)
        requires
            self.wf(),
        ensures
            r as nat == line_at_clamped(self.src(), offset as int),
    {
        self.index.line_at(offset)
    }
}

pub broadcast proof fn lemma_all_ok_add(a: Seq<Node>, b: Seq<Node>, src: Seq<u8>)
    ensures
        #[trigger] all_ok(a + b, src) == (all_ok(a, src) && all_ok(b, src)),
{
    if all_ok(a, src) && all_ok(b, src) {
        assert forall|i: int| 0 <= i < (a + b).len() implies tree_ok(#[trigger] (a + b)[i], src) by {
            if i >= a.len() {
                assert((a + b)[i] == b[i - a.len()]);
            }
        }
    }
    if all_ok(a + b, src) {
        assert forall|i: int| 0 <= i < a.len() implies tree_ok(#[trigger] a[i], src) by {
            assert((a + b)[i] == a[i]);
        }
        assert forall|i: int| 0 <= i < b.len() implies tree_ok(#[trigger] b[i], src) by {
            assert((a + b)[a.len() + i] == b[i]);
        }
    }
}

pub broadcast proof fn lemma_all_ok_opt(o: Option<Box<Node>>, src: Seq<u8>)
    ensures
        #[trigger] all_ok(opt(o), src) == (o matches Some(b) ==> tree_ok(*b, src)),
{
    if o is Some {
        assert(opt(o)[0] == *o.unwrap());
    }
}

pub broadcast proof fn lemma_all_ok_one(n: Node, src: Seq<u8>)
    ensures
        #[trigger] all_ok(seq![n], src) == tree_ok(n, src),
{
    assert(seq![n][0] == n);
}

pub broadcast proof fn lemma_all_ok_opt_list(o: Option<Vec<Node>>, src: Seq<u8>)
    ensures
        #[trigger] all_ok(opt_list(o), src) == (o matches Some(v) ==> all_ok(v@, src)),
{
}

pub broadcast proof fn lemma_all_ok_empty(src: Seq<u8>)
    ensures
        #[trigger] all_ok(Seq::<Node>::empty(), src),
{
}

pub broadcast proof fn lemma_all_ok_push(s: Seq<Node>, n: Node, src: Seq<u8>)
    ensures
        #[trigger] all_ok(s.push(n), src) == (all_ok(s, src) && tree_ok(n, src)),
{
    assert(s.push(n) =~= s + seq![n]);
    lemma_all_ok_add(s, seq![n], src);
    lemma_all_ok_one(n, src);
}

pub broadcast group group_all_ok {
    lemma_all_ok_add,
    lemma_all_ok_opt,
    lemma_all_ok_one,
    lemma_all_ok_opt_list,
    lemma_all_ok_empty,
    lemma_all_ok_push,
}

/// A node of a well-placed tree lies within the source and its lines lie in
/// `[1, total_lines(src)]`, the start line not after the end line.
pub proof fn lemma_placed_lines(n: Node, src: Seq<u8>)
    requires
        placed(n, src),
    ensures
        n.span.start <= n.span.end <= src.len(),
        1 <= n.start_line <= n.end_line <= crate::lines::total_lines(src),
{
    lemma_line_of_monotonic(src, n.span.start as int, n.span.end as int);
    crate::lines::lemma_line_of_bounds(src, n.span.end as int);
    crate::lines::lemma_line_of_bounds(src, n.span.start as int);
}

/// Converts a binding identifier into an `Identifier` node.
pub fn convert_binding_identifier(ctx: &Context, ident: &Name) -> (r: Node)
    requires
        ctx.wf(),
    ensures
        tree_ok(r, ctx.src()),
        r.data == NodeData::Identifier(Identifier { name: ident.name }),
        r.span == ident.span.clamped(ctx.src().len() as int),
{
    ctx.identifier(ident.span, ident.name.clone())
}

/// Converts an identifier name into an `Identifier` node.
pub fn convert_identifier_name(ctx: &Context, ident: &Name) -> (r: Node)
    requires
        ctx.wf(),
    ensures
        tree_ok(r, ctx.src()),
        r.data == NodeData::Identifier(Identifier { name: ident.name }),
        r.span == ident.span.clamped(ctx.src().len() as int),
{
    ctx.identifier(ident.span, ident.name.clone())
}

/// The raw text of a literal, or nothing where the parser kept none.
pub open spec fn raw_or_empty(raw: Option<String>) -> Seq<char> {
    match raw {
        Some(s) => s@,
        None => Seq::empty(),
    }
}

/// Converts a string literal into a `Literal` node.
pub fn convert_literal(ctx: &Context, lit: &crate::syntax::StringLit) -> (r: Node)
    requires
        ctx.wf(),
    ensures
        tree_ok(r, ctx.src()),
        r.data matches NodeData::Literal(l) && l.value@ == lit.value@ && l.raw@ == raw_or_empty(
            lit.raw,
        ),
        r.span == lit.span.clamped(ctx.src().len() as int),
{
    let raw = match &lit.raw {
        Some(s) => s.clone(),
        None => String::new(),
    };
    let data = NodeData::Literal(Literal { value: lit.value.clone(), raw });
    proof {
        assert(children_of(data) =~= Seq::empty());
    }
    ctx.node(lit.span, data)
}

} // verus!
