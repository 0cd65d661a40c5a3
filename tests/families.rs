use oxc_nodes::convert::expressions::convert_expression;
use oxc_nodes::convert::jsx::{convert_jsx_element, convert_jsx_name};
use oxc_nodes::convert::statements::{convert_class_body, convert_statement};
use oxc_nodes::convert::typescript::{convert_ts_property_key, convert_ts_type};
use oxc_nodes::convert::Context;
use oxc_nodes::node::{Kind, NodeData};
use oxc_nodes::parsed::build_parse_result;
use oxc_nodes::span::Span;
use oxc_nodes::syntax::{
    Argument, ArrayElem, ClassBodySrc, ClassElement, ClassMemberKind, ExportSpec, ExprForm, Expression, Function,
    ImportDecl, ImportSpec, JsxAttr, JsxAttrItem, JsxAttrName, JsxAttrValue, JsxChild, JsxClosing,
    JsxElem, JsxExpr, JsxExprContainer, JsxName, JsxOpening, JsxTextSrc, KeyForm, LogicalOp, Name,
    PropertyKey, SourceProgram, Statement, StringLit, TsKeyword, TsType, TsTypeName,
};
use oxc_nodes::walk::walk;

fn sp(start: usize, end: usize) -> Span {
    Span::new(start, end)
}

fn name(start: usize, end: usize, text: &str) -> Name {
    Name { span: sp(start, end), name: text.to_string() }
}

#[test]
fn jsx_element_with_attribute_and_children() {
    // <div id="a">hi{x}</div>
    let source = "<div id=\"a\">hi{x}</div>";
    let element = JsxElem {
        span: sp(0, 23),
        opening: JsxOpening {
            span: sp(0, 12),
            name: JsxName::Identifier(name(1, 4, "div")),
            attributes: vec![JsxAttrItem::Attribute(JsxAttr {
                span: sp(5, 11),
                name: JsxAttrName::Identifier(name(5, 7, "id")),
                value: Some(JsxAttrValue::StringLiteral(StringLit {
                    span: sp(8, 11),
                    value: "a".to_string(),
                    raw: Some("\"a\"".to_string()),
                })),
            })],
        },
        children: vec![
            JsxChild::Text(JsxTextSrc { span: sp(12, 14), value: "hi".to_string(), raw: None }),
            JsxChild::Container(JsxExprContainer {
                span: sp(14, 17),
                expression: JsxExpr::Expression(Expression::Identifier(name(15, 16, "x"))),
            }),
        ],
        closing: Some(JsxClosing { span: sp(17, 23), name: JsxName::Identifier(name(19, 22, "div")) }),
    };
    let ctx = Context::new(source);
    let node = convert_jsx_element(&ctx, &element);
    match &node.data {
        NodeData::JSXElement(e) => {
            assert_eq!(e.children.len(), 2);
            assert!(e.closing_element.is_some());
            match &e.opening_element.data {
                NodeData::JSXOpeningElement(o) => {
                    assert!(!o.self_closing);
                    assert_eq!(o.attributes.len(), 1);
                    match &o.name.data {
                        NodeData::JSXIdentifier(i) => assert_eq!(i.name, "div"),
                        _ => panic!("name is not a JSXIdentifier"),
                    }
                }
                _ => panic!("no opening element"),
            }
            match &e.children[0].data {
                NodeData::JSXText(t) => assert_eq!((t.value.as_str(), t.raw.as_str()), ("hi", "hi")),
                _ => panic!("first child is not text"),
            }
            assert_eq!(e.children[1].kind_name(), "JSXExpressionContainer");
        }
        _ => panic!("not a JSX element"),
    }
    let mut kinds: Vec<&str> = Vec::new();
    let mut w = walk(&node);
    while let Some((n, _)) = w.next() {
        kinds.push(n.kind_name());
    }
    assert!(kinds.contains(&"JSXAttribute"));
    assert!(kinds.contains(&"Literal"));
    assert!(kinds.contains(&"Identifier"));
}

#[test]
fn jsx_namespaced_and_this_names() {
    let ctx = Context::new("");
    let ctx = Context::new("<svg:rect/>");
    let ns = convert_jsx_name(&ctx, &JsxName::Namespaced { span: sp(1, 9), namespace: "svg".to_string(), name: "rect".to_string() });
    match &ns.data {
        NodeData::JSXIdentifier(i) => assert_eq!(i.name, "svg:rect"),
        _ => panic!("not a JSXIdentifier"),
    }
    assert_eq!(ns.span, sp(1, 9));
    let this = convert_jsx_name(&ctx, &JsxName::This(sp(1, 5)));
    assert_eq!(this.span, sp(1, 5));
    match &this.data {
        NodeData::JSXIdentifier(i) => assert_eq!(i.name, "this"),
        _ => panic!("not a JSXIdentifier"),
    }
}

#[test]
fn ts_types_union_keywords_and_qualified_names() {
    let source = "A.B | string";
    let ctx = Context::new(source);
    let t = TsType::Union {
        span: sp(0, 12),
        types: vec![
            TsType::Reference {
                span: sp(0, 3),
                name: TsTypeName::Qualified { span: sp(0, 3), left: "A".to_string(), right: "B".to_string() },
                type_arguments: None,
            },
            TsType::Keyword { span: sp(6, 12), keyword: TsKeyword::String },
        ],
    };
    let node = convert_ts_type(&ctx, &t);
    match &node.data {
        NodeData::TSUnionType(u) => {
            assert_eq!(u.types.len(), 2);
            assert_eq!(u.types[1].kind_name(), "TSStringKeyword");
            match &u.types[0].data {
                NodeData::TSTypeReference(r) => match &r.type_ref_name.as_ref().unwrap().data {
                    NodeData::Identifier(i) => assert_eq!(i.name, "A.B"),
                    _ => panic!("type name is not an identifier"),
                },
                _ => panic!("not a type reference"),
            }
        }
        _ => panic!("not a union"),
    }
    assert_eq!(convert_ts_type(&ctx, &TsType::Other(sp(0, 1))).kind_name(), "TSType");
}

#[test]
fn property_keys_are_named() {
    let ctx = Context::new("#a");
    let private = convert_ts_property_key(&ctx, &PropertyKey { span: sp(0, 2), form: KeyForm::Private("a".to_string()) });
    let computed = convert_ts_property_key(&ctx, &PropertyKey { span: sp(0, 2), form: KeyForm::Computed });
    match (&private.data, &computed.data) {
        (NodeData::Identifier(p), NodeData::Identifier(c)) => {
            assert_eq!(p.name, "#a");
            assert_eq!(c.name, "computed");
        }
        _ => panic!("keys are not identifiers"),
    }
}

#[test]
fn import_and_export_declarations() {
    let source = "import d, { a as b } from 'm';";
    let ctx = Context::new(source);
    let import = Statement::Import(ImportDecl {
        span: sp(0, 30),
        source: StringLit { span: sp(26, 29), value: "m".to_string(), raw: Some("'m'".to_string()) },
        specifiers: Some(vec![
            ImportSpec::Default { span: sp(7, 8), local: name(7, 8, "d") },
            ImportSpec::Named { span: sp(12, 18), imported: name(12, 13, "a"), local: name(17, 18, "b") },
        ]),
    });
    let node = convert_statement(&ctx, &import);
    match &node.data {
        NodeData::ImportDeclaration(d) => {
            assert_eq!(d.specifiers.len(), 2);
            assert_eq!(d.specifiers[0].kind_name(), "ImportDefaultSpecifier");
            assert_eq!(d.specifiers[1].kind_name(), "ImportSpecifier");
            match &d.specifiers[1].data {
                NodeData::ImportSpecifier(x) => {
                    assert_eq!(x.imported.span, sp(12, 13));
                    assert_eq!(x.local.span, sp(17, 18));
                }
                _ => panic!("not an import specifier"),
            }
            match &d.source.data {
                NodeData::Literal(l) => assert_eq!((l.value.as_str(), l.raw.as_str()), ("m", "'m'")),
                _ => panic!("source is not a literal"),
            }
        }
        _ => panic!("not an import"),
    }
    let export = Statement::ExportNamed(oxc_nodes::syntax::ExportNamed {
        span: sp(0, 10),
        declaration: None,
        specifiers: vec![ExportSpec { span: sp(2, 8), local: "x".to_string(), exported: "y".to_string() }],
        source: None,
    });
    let e = convert_statement(&ctx, &export);
    match &e.data {
        NodeData::ExportNamedDeclaration(x) => match &x.specifiers[0].data {
            NodeData::ExportSpecifier(s) => match (&s.local.data, &s.exported.data) {
                (NodeData::Identifier(l), NodeData::Identifier(r)) => {
                    assert_eq!((l.name.as_str(), r.name.as_str()), ("x", "y"))
                }
                _ => panic!("specifier names are not identifiers"),
            },
            _ => panic!("not an export specifier"),
        },
        _ => panic!("not an export"),
    }
}

fn empty_function(start: usize, end: usize) -> Function {
    Function {
        span: sp(start, end),
        id: None,
        is_async: true,
        generator: false,
        params: Vec::new(),
        body: None,
        type_parameters: None,
        return_type: None,
    }
}

#[test]
fn class_body_keeps_every_member() {
    let ctx = Context::new("class A { m() {} x = 1; }");
    let body = ClassBodySrc {
        span: sp(8, 25),
        elements: vec![
            ClassElement::Method { span: sp(10, 16), key_name: Some("m".to_string()), value: empty_function(11, 16) },
            ClassElement::Other { span: sp(17, 23), kind: ClassMemberKind::Property },
        ],
    };
    let node = convert_class_body(&ctx, &body);
    match &node.data {
        NodeData::ClassBody(b) => {
            assert_eq!(b.methods.len(), 2);
            assert_eq!(b.methods[1].kind_name(), "PropertyDefinition");
            assert_eq!(b.methods[1].span, sp(17, 23));
            match &b.methods[0].data {
                NodeData::MethodDefinition(m) => {
                    assert_eq!(m.name.as_deref(), Some("m"));
                    assert!(m.is_async);
                }
                _ => panic!("not a method"),
            }
        }
        _ => panic!("not a class body"),
    }
}

#[test]
fn expressions_keep_operators_and_elements() {
    let source = "f(a, ...b) && [1, , 2]";
    let ctx = Context::new(source);
    let call = Expression::Call {
        span: sp(0, 10),
        callee: Box::new(Expression::Identifier(name(0, 1, "f"))),
        arguments: vec![
            Argument::Plain(Expression::Identifier(name(2, 3, "a"))),
            Argument::Spread(Expression::Identifier(name(8, 9, "b"))),
        ],
    };
    let array = Expression::Array {
        span: sp(14, 22),
        elements: vec![
            ArrayElem::Plain(Expression::Other { span: sp(15, 16), form: ExprForm::NumericLiteral }),
            ArrayElem::Elision(sp(17, 17)),
            ArrayElem::Plain(Expression::Other { span: sp(20, 21), form: ExprForm::NumericLiteral }),
        ],
    };
    let e = Expression::Logical { span: sp(0, 22), operator: LogicalOp::And, left: Box::new(call), right: Box::new(array) };
    let node = convert_expression(&ctx, &e);
    match &node.data {
        NodeData::BinaryExpression(b) => {
            assert_eq!(b.operator, "&&");
            match &b.left.as_ref().unwrap().data {
                NodeData::CallExpression(c) => {
                    assert_eq!(c.arguments.len(), 2);
                    match &c.arguments[1].data {
                        NodeData::Identifier(i) => assert_eq!(i.name, "b"),
                        _ => panic!("spread argument is not its expression"),
                    }
                }
                _ => panic!("left is not a call"),
            }
            match &b.right.as_ref().unwrap().data {
                NodeData::ArrayExpression(a) => assert_eq!(a.elements.len(), 2),
                _ => panic!("right is not an array"),
            }
        }
        _ => panic!("not a binary expression"),
    }
}

#[test]
fn every_walked_node_is_placed_and_named() {
    let source = "if (a) {\n  b;\n} else c;\n";
    let stmt = Statement::If {
        span: sp(0, 24),
        test: Expression::Identifier(name(4, 5, "a")),
        consequent: Box::new(Statement::Block(oxc_nodes::syntax::Block {
            span: sp(7, 15),
            body: vec![Statement::Expression { span: sp(11, 13), expression: Expression::Identifier(name(11, 12, "b")) }],
        })),
        alternate: Some(Box::new(Statement::Expression {
            span: sp(21, 90),
            expression: Expression::Identifier(name(21, 22, "c")),
        })),
    };
    let program = SourceProgram { span: sp(0, source.len()), body: vec![stmt] };
    let result = build_parse_result(source, &program, Vec::new(), false);
    assert!(result.is_valid());
    let root = result.program.unwrap();
    let total_lines = source.matches('\n').count() + 1;
    let mut count = 0;
    let mut w = walk(&root);
    while let Some((n, depth)) = w.next() {
        count += 1;
        assert!(n.span.start <= n.span.end && n.span.end <= source.len());
        assert!(1 <= n.start_line && n.start_line <= n.end_line && n.end_line <= total_lines);
        assert!(!n.kind_name().is_empty());
        assert_eq!(depth == 0, n.kind() == Kind::Program);
    }
    assert_eq!(count, 8);
    assert_eq!((root.start_line, root.end_line), (1, 4));
}
