//! What a parse hands back: the converted tree, the parser's diagnostics and
//! the comments of the source.
use vstd::prelude::*;
use vstd::utf8::{encode_utf8, encode_utf8_decode_utf8};
use vstd::string::{StringExecFns, StringSliceAdditionalSpecFns};
use oxc_diagnostics::{OxcDiagnostic, Severity};
use crate::span::Span;
use crate::lines::{line_at_clamped, line_of, total_lines, lemma_count_newlines_step, NEWLINE};
use crate::node::{Node, NodeData, kind_of, tree_ok, placed, children_of};
use crate::comments::{Comment, extract_comments, scan_comments, comment_matches};
use crate::convert::{Context, lemma_placed_lines};
use crate::convert::statements::{convert_program, stmt_kind, stmt_at, stmt_shape};
use crate::syntax::{SourceProgram, stmt_span};
use crate::text::{span_text, lemma_full_span_text};

verus! {

#[verifier::external_type_specification]
#[verifier::external_body]
pub struct ExOxcDiagnostic(OxcDiagnostic);

/// The boxed body of a diagnostic, which `OxcDiagnostic` dereferences to.
#[verifier::external_type_specification]
#[verifier::external_body]
pub struct ExOxcDiagnosticInner(oxc_diagnostics::OxcDiagnosticInner);

/// A diagnostic of the parser: its message, where it applies, and how severe it
/// is (`error` or `warning`).
#[derive(Clone, Debug)]
pub struct ParseError {
    pub message: String,
    pub span: Span,
    pub severity: String,
}

impl ParseError {
    pub fn new(message: String, span: Span, severity: String) -> (r: ParseError)
        ensures
            r.message == message,
            r.span == span,
            r.severity == severity,
    {
        ParseError { message, span, severity }
    }
}

/// Relies on `OxcDiagnostic`'s `Display`, which writes the diagnostic's
/// message.
#[verifier::external_body]
fn diagnostic_message(d: &OxcDiagnostic) -> String {
    format!("{}", d)
}

/// How severe a diagnostic is.
#[derive(Clone, Copy, Debug, PartialEq, Eq, Hash, Structural)]
pub enum DiagnosticSeverity {
    Advice,
    Warning,
    Error,
}

pub open spec fn severity_text(s: DiagnosticSeverity) -> Seq<char> {
    match s {
        DiagnosticSeverity::Advice => "advice"@,
        DiagnosticSeverity::Warning => "warning"@,
        DiagnosticSeverity::Error => "error"@,
    }
}

/// Relies on the public `severity` field of the diagnostic (reached through
/// its `Deref`), one arm per severity.
#[verifier::external_body]
fn diagnostic_severity(d: &OxcDiagnostic) -> DiagnosticSeverity {
    match d.severity {
        Severity::Advice => DiagnosticSeverity::Advice,
        Severity::Warning => DiagnosticSeverity::Warning,
        Severity::Error => DiagnosticSeverity::Error,
    }
}

/// Relies on the public `labels` field of the diagnostic and on
/// `LabeledSpan::offset`, `len` and `primary`: each label as
/// `(offset, length, primary)`, in order.
#[verifier::external_body]
fn diagnostic_labels(d: &OxcDiagnostic) -> Vec<(usize, usize, bool)> {
    match &d.labels {
        Some(labels) => labels.iter().map(|l| (l.offset(), l.len(), l.primary())).collect(),
        None => Vec::new(),
    }
}

/// The index of the first primary label from `i` on, or -1.
pub open spec fn first_primary_from(labels: Seq<(usize, usize, bool)>, i: int) -> int
    decreases labels.len() - i,
{
    if i < 0 || i >= labels.len() {
        -1
    } else if labels[i].2 {
        i
    } else {
        first_primary_from(labels, i + 1)
    }
}

/// The label that locates a diagnostic: the first primary one, else the first
/// one; -1 when there is none.
pub open spec fn chosen_label(labels: Seq<(usize, usize, bool)>) -> int {
    if first_primary_from(labels, 0) >= 0 {
        first_primary_from(labels, 0)
    } else if labels.len() > 0 {
        0
    } else {
        -1
    }
}

/// Where a diagnostic with these labels applies: the chosen label's bytes (its
/// end saturating at `usize::MAX`), or the empty span at 0 without a label.
pub open spec fn label_span(labels: Seq<(usize, usize, bool)>) -> Span {
    let k = chosen_label(labels);
    if k < 0 {
        Span { start: 0, end: 0 }
    } else {
        let (offset, len, _) = labels[k];
        Span {
            start: offset,
            end: if offset + len <= usize::MAX {
                (offset + len) as usize
            } else {
                usize::MAX
            },
        }
    }
}

/// A `ParseError` from a diagnostic's message, severity and labels (each
/// `(offset, length, primary)`).
pub fn error_from_parts(
    message: String,
    severity: DiagnosticSeverity,
    labels: &Vec<(usize, usize, bool)>,
) -> (r: ParseError)
    ensures
        r.message == message,
        r.severity@ == severity_text(severity),
        r.span == label_span(labels@),
{
    let mut k: usize = 0;
    while k < labels.len() && !labels[k].2
        invariant
            k <= labels@.len(),
            first_primary_from(labels@, k as int) == first_primary_from(labels@, 0),
        decreases labels.len() - k,
    {
        k = k + 1;
    }
    let span = if k < labels.len() || labels.len() > 0 {
        let idx = if k < labels.len() {
            k
        } else {
            0
        };
        let (offset, len, _) = labels[idx];
        let end = if len <= usize::MAX - offset {
            offset + len
        } else {
            usize::MAX
        };
        Span { start: offset, end }
    } else {
        Span { start: 0, end: 0 }
    };
    let text = match severity {
        DiagnosticSeverity::Advice => String::from_str("advice"),
        DiagnosticSeverity::Warning => String::from_str("warning"),
        DiagnosticSeverity::Error => String::from_str("error"),
    };
    ParseError { message, span, severity: text }
}

/// Turns the parser's diagnostics into `ParseError`s, one each and in order,
/// each built by `error_from_parts` from the diagnostic's message, severity and
/// labels.
pub fn convert_errors(errors: Vec<OxcDiagnostic>) -> (r: Vec<ParseError>)
    ensures
        r@.len() == errors@.len(),
        forall|i: int|
            0 <= i < r@.len() ==> (#[trigger] r@[i].severity@ == "advice"@ || r@[i].severity@
                == "warning"@ || r@[i].severity@ == "error"@),
{
    let mut out: Vec<ParseError> = Vec::new();
    let mut i: usize = 0;
    while i < errors.len()
        invariant
            i <= errors.len(),
            out@.len() == i,
            forall|k: int|
                0 <= k < i ==> (#[trigger] out@[k].severity@ == "advice"@ || out@[k].severity@
                    == "warning"@ || out@[k].severity@ == "error"@),
        decreases errors.len() - i,
    {
        let d = &errors[i];
        let message = diagnostic_message(d);
        let severity = diagnostic_severity(d);
        let labels = diagnostic_labels(d);
        out.push(error_from_parts(message, severity, &labels));
        i = i + 1;
    }
    out
}

/// The result of a parse.
#[derive(Debug)]
pub struct ParseResult {
    /// The root of the converted tree.
    pub program: Option<Node>,
    pub errors: Vec<ParseError>,
    pub comments: Vec<Comment>,
    /// The parser gave up on the source.
    pub panicked: bool,
}

impl ParseResult {
    pub fn new(
        program: Option<Node>,
        errors: Vec<ParseError>,
        comments: Vec<Comment>,
        panicked: bool,
    ) -> (r: ParseResult)
        ensures
            r == (ParseResult { program, errors, comments, panicked }),
    {
        ParseResult { program, errors, comments, panicked }
    }

    /// The parse succeeded: no diagnostics, and the parser did not give up.
    pub fn is_valid(&self) -> (r: bool)
        ensures
            r == (self.errors@.len() == 0 && !self.panicked),
    {
        self.errors.len() == 0 && !self.panicked
    }
}

/// `root` is the conversion of `program` over the source `src`: a well-placed
/// `Program` at the program's span, whose top-level nodes stand, in order, for
/// the program's statements, each keeping what `stmt_shape` says.
pub open spec fn root_converted(root: Node, program: SourceProgram, src: Seq<u8>) -> bool {
    &&& tree_ok(root, src)
    &&& root.span == program.span.clamped(src.len() as int)
    &&& root.data is Program
    &&& root.data->Program_0.body@.len() == program.body@.len()
    &&& forall|i: int|
        0 <= i < program.body@.len() ==> stmt_at(
            #[trigger] root.data->Program_0.body@[i],
            program.body@[i],
            src.len() as int,
        ) && stmt_shape(root.data->Program_0.body@[i], program.body@[i], src.len() as int)
}

/// Builds the result of a parse from the parser's tree, its diagnostics and
/// whether it gave up: the tree is converted with the source's line index, and
/// the comments are scanned from the source.
pub fn build_parse_result(
    source: &str,
    program: &SourceProgram,
    errors: Vec<ParseError>,
    panicked: bool,
) -> (r: ParseResult)
    requires
        source.spec_bytes().len() < usize::MAX,
    ensures
        r.program is Some,
        root_converted(r.program.unwrap(), *program, source.spec_bytes()),
        r.errors == errors,
        r.panicked == panicked,
        r.comments@.len() == scan_comments(source.spec_bytes(), 0).len(),
        forall|k: int|
            0 <= k < r.comments@.len() ==> comment_matches(
                #[trigger] r.comments@[k],
                scan_comments(source.spec_bytes(), 0)[k],
                source.spec_bytes(),
            ),
{
    let ctx = Context::new(source);
    let root = convert_program(&ctx, program);
    let comments = extract_comments(source);
    ParseResult { program: Some(root), errors, comments, panicked }
}

/// Every node of a converted tree has a span inside the source and lines in
/// `[1, total_lines(src)]`, its start line not after its end line; and so do
/// its children, and theirs.
pub proof fn law_tree_nodes_placed(n: Node, src: Seq<u8>)
    requires
        tree_ok(n, src),
    ensures
        0 <= n.span.start <= n.span.end <= src.len(),
        1 <= n.start_line <= n.end_line <= total_lines(src),
        forall|i: int|
            0 <= i < children_of(n.data).len() ==> tree_ok(#[trigger] children_of(n.data)[i], src),
{
    lemma_placed_lines(n, src);
}

/// A root whose span covers the whole source has the whole source as its text,
/// starts on line 1, and ends on the last line: one past the number of line
/// terminators.
pub proof fn law_full_file_root(source: &str, root: Node)
    requires
        placed(root, source.spec_bytes()),
        root.span.start == 0,
        root.span.end == source.spec_bytes().len(),
    ensures
        span_text(source.spec_bytes(), root.span) == source.spec_bytes(),
        forall|t: Seq<char>|
            encode_utf8(t) == span_text(source.spec_bytes(), root.span) ==> t == source@,
        root.start_line == 1,
        root.end_line == total_lines(source.spec_bytes()),
{
    lemma_full_span_text(source, root.span);
    crate::lines::lemma_line_of_bounds(source.spec_bytes(), 0);
}

/// The 1-based line of byte offset `offset` of `source`, counted afresh; an
/// offset past the end is clamped to the end.
pub fn compute_line_number(source: &str, offset: usize) -> (r: usize)
    requires
        source.spec_bytes().len() < usize::MAX,
    ensures
        r as nat == line_at_clamped(source.spec_bytes(), offset as int),
{
    let bytes = source.as_bytes();
    let end = if offset <= bytes.len() {
        offset
    } else {
        bytes.len()
    };
    let mut line: usize = 1;
    let mut i: usize = 0;
    proof {
        assert(bytes@.subrange(0, 0) =~= Seq::<u8>::empty());
    }
    while i < end
        invariant
            end <= bytes@.len() < usize::MAX,
            i <= end,
            line as nat == line_of(bytes@, i as int),
            line <= i + 1,
        decreases end - i,
    {
        proof {
            lemma_count_newlines_step(bytes@, i as int);
        }
        if bytes[i] == NEWLINE {
            line = line + 1;
        }
        i = i + 1;
    }
    line
}

/// The source flavours a parse can be asked for.
#[derive(Clone, Copy, Debug, PartialEq, Eq, Hash, Structural)]
pub enum SourceKind {
    Module,
    Script,
    Jsx,
    Tsx,
    TypeScript,
}

/// The flavour a name asks for: `module`, `script`, `jsx`, `tsx`, and
/// `typescript` or `ts`.
pub open spec fn source_kind_named(name: Seq<char>) -> Option<SourceKind> {
    if name == "module"@ {
        Some(SourceKind::Module)
    } else if name == "script"@ {
        Some(SourceKind::Script)
    } else if name == "jsx"@ {
        Some(SourceKind::Jsx)
    } else if name == "tsx"@ {
        Some(SourceKind::Tsx)
    } else if name == "typescript"@ || name == "ts"@ {
        Some(SourceKind::TypeScript)
    } else {
        None
    }
}

pub open spec fn invalid_kind_message(name: Seq<char>) -> Seq<char> {
    "Invalid source_type: '"@ + name
        + "'. Must be 'tsx', 'jsx', 'module', 'script', 'ts', or 'typescript'"@
}

fn same_text(a: &str, b: &str) -> (r: bool)
    ensures
        r == (a@ == b@),
{
    let x = a.as_bytes();
    let y = b.as_bytes();
    proof {
        encode_utf8_decode_utf8(a@);
        encode_utf8_decode_utf8(b@);
    }
    if x.len() != y.len() {
        return false;
    }
    let mut i: usize = 0;
    while i < x.len()
        invariant
            x@ == a.spec_bytes(),
            y@ == b.spec_bytes(),
            x@.len() == y@.len(),
            i <= x@.len(),
            forall|k: int| 0 <= k < i ==> x@[k] == y@[k],
        decreases x.len() - i,
    {
        if x[i] != y[i] {
            return false;
        }
        i = i + 1;
    }
    proof {
        assert(x@ =~= y@);
    }
    true
}

/// The flavour to parse as: a module when none is named; a name that is not
/// one of the accepted ones is an error that says so.
pub fn source_kind_from_name(name: Option<&str>) -> (r: Result<SourceKind, String>)
    ensures
        name is None ==> r == Ok::<SourceKind, String>(SourceKind::Module),
        name matches Some(n) ==> match source_kind_named(n@) {
            Some(k) => r == Ok::<SourceKind, String>(k),
            None => r matches Err(m) && m@ == invalid_kind_message(n@),
        },
{
    match name {
        None => Ok(SourceKind::Module),
        Some(n) => {
            if same_text(n, "module") {
                Ok(SourceKind::Module)
            } else if same_text(n, "script") {
                Ok(SourceKind::Script)
            } else if same_text(n, "jsx") {
                Ok(SourceKind::Jsx)
            } else if same_text(n, "tsx") {
                Ok(SourceKind::Tsx)
            } else if same_text(n, "typescript") || same_text(n, "ts") {
                Ok(SourceKind::TypeScript)
            } else {
                let mut m = String::from_str("Invalid source_type: '");
                m.append(n);
                m.append("'. Must be 'tsx', 'jsx', 'module', 'script', 'ts', or 'typescript'");
                Err(m)
            }
        },
    }
}

} // verus!
