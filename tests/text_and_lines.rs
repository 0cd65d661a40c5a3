use oxc_nodes::comments::extract_comments;
use oxc_nodes::lines::LineIndex;
use oxc_nodes::parsed::{
    compute_line_number, convert_errors, error_from_parts, source_kind_from_name,
    DiagnosticSeverity, ParseError, ParseResult, SourceKind,
};
use oxc_nodes::span::Span;
use oxc_nodes::text::{slice_text, text_of};

#[test]
fn line_index_counts_newlines_before_offset() {
    let src = "a\nbc\n\nd";
    let index = LineIndex::build(src);
    let lines: Vec<usize> = (0..=src.len()).map(|o| index.line_at(o)).collect();
    assert_eq!(lines, vec![1, 1, 2, 2, 2, 3, 4, 4]);
    assert_eq!(index.line_at(1000), 4);
}

#[test]
fn line_index_is_byte_based() {
    let src = "é\nx";
    let index = LineIndex::build(src);
    assert_eq!(index.line_at(2), 1);
    assert_eq!(index.line_at(3), 2);
    assert_eq!(compute_line_number(src, 3), 2);
}

#[test]
fn line_index_built_twice_agrees() {
    let src = "one\ntwo\nthree";
    let a = LineIndex::build(src);
    let b = LineIndex::build(src);
    for offset in 0..src.len() + 3 {
        assert_eq!(a.line_at(offset), b.line_at(offset));
    }
}

#[test]
fn empty_source_is_one_line() {
    let index = LineIndex::build("");
    assert_eq!(index.line_at(0), 1);
    assert_eq!(index.line_at(5), 1);
    assert_eq!(compute_line_number("", 3), 1);
}

#[test]
fn compute_line_number_matches_index() {
    let src = "let a;\nlet b;\n";
    let index = LineIndex::build(src);
    for offset in 0..src.len() + 2 {
        assert_eq!(compute_line_number(src, offset), index.line_at(offset));
    }
    assert_eq!(compute_line_number(src, src.len()), 3);
}

#[test]
fn text_of_clamps_and_respects_char_boundaries() {
    let src = "const x = 1;";
    assert_eq!(text_of(Span::new(0, 5), src), "const");
    assert_eq!(text_of(Span::new(6, 100), src), "x = 1;");
    assert_eq!(text_of(Span::new(50, 60), src), "");
    assert_eq!(text_of(Span::new(5, 2), src), "");
    assert_eq!(text_of(Span::new(0, src.len()), src), src);
    let wide = "aé";
    assert_eq!(text_of(Span::new(0, 2), wide), "");
    assert_eq!(text_of(Span::new(1, 3), wide), "é");
    assert_eq!(slice_text(wide, 0, 1), "a");
}

#[test]
fn comments_line_and_block() {
    let src = "a; // one\n/* two */ b;";
    let comments = extract_comments(src);
    assert_eq!(comments.len(), 2);
    assert_eq!(comments[0].text, " one");
    assert_eq!(comments[0].span, Span::new(3, 9));
    assert!(!comments[0].is_block);
    assert_eq!(comments[1].text, " two ");
    assert_eq!(comments[1].span, Span::new(10, 19));
    assert!(comments[1].is_block);
}

#[test]
fn comment_markers_inside_strings_are_not_comments() {
    let src = "const s = '// not a comment';";
    let comments = extract_comments(src);
    assert!(comments.is_empty());
    let src2 = "const t = \"/* no */\"; // yes";
    let comments2 = extract_comments(src2);
    assert_eq!(comments2.len(), 1);
    assert_eq!(comments2[0].text, " yes");
    assert!(comments2[0].span.start >= 21);
}

#[test]
fn escaped_quote_does_not_end_string() {
    let src = "'a\\'// x' // y";
    let comments = extract_comments(src);
    assert_eq!(comments.len(), 1);
    assert_eq!(comments[0].text, " y");
}

#[test]
fn escaped_backslash_closes_string() {
    let src = r"'\\';'//'";
    assert_eq!(src.len(), 9);
    assert!(extract_comments(src).is_empty());
    let src2 = r"'\\'; // after";
    let comments = extract_comments(src2);
    assert_eq!(comments.len(), 1);
    assert_eq!(comments[0].span, Span::new(6, 14));
    assert_eq!(comments[0].text, " after");
}

#[test]
fn trailing_backslash_in_unterminated_string() {
    let src = r"'abc\";
    assert!(extract_comments(src).is_empty());
}

#[test]
fn unterminated_block_comment() {
    let src = "/* abc";
    let comments = extract_comments(src);
    assert_eq!(comments.len(), 1);
    assert!(comments[0].is_block);
    assert_eq!(comments[0].span, Span::new(0, 6));
    assert_eq!(comments[0].text, " abc");
}

#[test]
fn unterminated_block_comment_ending_in_wide_char() {
    let src = "/*a\u{1F600}";
    assert_eq!(src.len(), 7);
    let comments = extract_comments(src);
    assert_eq!(comments.len(), 1);
    assert_eq!(comments[0].span, Span::new(0, 7));
    assert_eq!(comments[0].text, "a\u{1F600}");
}

#[test]
fn short_block_comment_has_empty_text() {
    let comments = extract_comments("/**/");
    assert_eq!(comments.len(), 1);
    assert_eq!(comments[0].text, "");
    assert_eq!(comments[0].span, Span::new(0, 4));
}

#[test]
fn source_kinds_by_name() {
    assert_eq!(source_kind_from_name(None), Ok(SourceKind::Module));
    assert_eq!(source_kind_from_name(Some("module")), Ok(SourceKind::Module));
    assert_eq!(source_kind_from_name(Some("script")), Ok(SourceKind::Script));
    assert_eq!(source_kind_from_name(Some("jsx")), Ok(SourceKind::Jsx));
    assert_eq!(source_kind_from_name(Some("tsx")), Ok(SourceKind::Tsx));
    assert_eq!(source_kind_from_name(Some("ts")), Ok(SourceKind::TypeScript));
    assert_eq!(source_kind_from_name(Some("typescript")), Ok(SourceKind::TypeScript));
    assert_eq!(
        source_kind_from_name(Some("python")),
        Err("Invalid source_type: 'python'. Must be 'tsx', 'jsx', 'module', 'script', 'ts', or 'typescript'".to_string())
    );
}

#[test]
fn diagnostics_become_errors() {
    let diags = vec![
        oxc_diagnostics::OxcDiagnostic::error("Unexpected token"),
        oxc_diagnostics::OxcDiagnostic::error("Expected `;`"),
    ];
    let errors = convert_errors(diags);
    assert_eq!(errors.len(), 2);
    assert_eq!(errors[0].message, "Unexpected token");
    assert_eq!(errors[1].message, "Expected `;`");
    assert_eq!(errors[0].severity, "error");
    assert_eq!(errors[0].span, Span::new(0, 0));
}

#[test]
fn diagnostics_keep_location_and_severity() {
    let diags = vec![
        oxc_diagnostics::OxcDiagnostic::warn("Unused label")
            .with_label(oxc_span::Span::new(4, 9)),
        oxc_diagnostics::OxcDiagnostic::error("Unexpected token")
            .with_labels([oxc_span::Span::new(2, 3), oxc_span::Span::new(10, 12)]),
    ];
    let errors = convert_errors(diags);
    assert_eq!(errors[0].severity, "warning");
    assert_eq!(errors[0].span, Span::new(4, 9));
    assert_eq!(errors[1].severity, "error");
    assert_eq!(errors[1].span, Span::new(2, 3));
}

#[test]
fn error_from_parts_prefers_primary_label() {
    let labels = vec![(1usize, 2usize, false), (5, 3, true)];
    let e = error_from_parts("m".to_string(), DiagnosticSeverity::Advice, &labels);
    assert_eq!(e.span, Span::new(5, 8));
    assert_eq!(e.severity, "advice");
    let none = error_from_parts("m".to_string(), DiagnosticSeverity::Error, &Vec::new());
    assert_eq!(none.span, Span::new(0, 0));
    let wide = error_from_parts("m".to_string(), DiagnosticSeverity::Error, &vec![(usize::MAX - 1, 5, false)]);
    assert_eq!(wide.span, Span::new(usize::MAX - 1, usize::MAX));
}

#[test]
fn validity_needs_no_errors_and_no_panic() {
    let ok = ParseResult::new(None, Vec::new(), Vec::new(), false);
    assert!(ok.is_valid());
    let panicked = ParseResult::new(None, Vec::new(), Vec::new(), true);
    assert!(!panicked.is_valid());
    let err = ParseError::new("bad".to_string(), Span::new(0, 1), "error".to_string());
    let with_error = ParseResult::new(None, vec![err], Vec::new(), false);
    assert!(!with_error.is_valid());
}
