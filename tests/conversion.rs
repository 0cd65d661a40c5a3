use oxc_nodes::convert::expressions::convert_expression;
use oxc_nodes::convert::statements::{convert_statement, get_statement_type_str};
use oxc_nodes::convert::Context;
use oxc_nodes::node::{Kind, Node, NodeData, VariableKind};
use oxc_nodes::parsed::build_parse_result;
use oxc_nodes::span::Span;
use oxc_nodes::syntax::{
    Arrow, BinaryOp, Declarator, ExprForm, Expression, Function, FunctionBody, Name, Param, SourceProgram,
    Statement, UnmodeledStatement, VarDecl,
};
use oxc_nodes::walk::walk;

fn sp(start: usize, end: usize) -> Span {
    Span::new(start, end)
}

fn name(start: usize, end: usize, text: &str) -> Name {
    Name { span: sp(start, end), name: text.to_string() }
}

fn numeric(start: usize, end: usize) -> Expression {
    Expression::Other { span: sp(start, end), form: ExprForm::NumericLiteral }
}

fn root_of(source: &str, body: Vec<Statement>) -> Node {
    let program = SourceProgram { span: sp(0, source.len()), body };
    build_parse_result(source, &program, Vec::new(), false).program.unwrap()
}

fn program_body(root: &Node) -> &Vec<Node> {
    match &root.data {
        NodeData::Program(p) => &p.body,
        _ => panic!("root is not a Program"),
    }
}

#[test]
fn scenario_const_declaration() {
    let source = "const x = 1;";
    let decl = VarDecl {
        span: sp(0, 12),
        kind: VariableKind::Const,
        declarations: vec![Declarator {
            span: sp(6, 11),
            binding: Some(name(6, 7, "x")),
            type_annotation: None,
            init: Some(numeric(10, 11)),
        }],
    };
    let root = root_of(source, vec![Statement::Variable(decl)]);
    let body = program_body(&root);
    assert_eq!(body.len(), 1);
    let node = &body[0];
    assert_eq!(node.kind_name(), "VariableDeclaration");
    assert_eq!((node.start_line, node.end_line), (1, 1));
    match &node.data {
        NodeData::VariableDeclaration(v) => {
            assert_eq!(v.declarations.len(), 1);
            assert_eq!(v.kind.as_str(), "const");
            assert_eq!(v.declarations[0].kind(), Kind::VariableDeclarator);
        }
        _ => panic!("not a VariableDeclaration"),
    }
    assert_eq!(node.get_text(source), "const x = 1;");
}

#[test]
fn scenario_function_with_return() {
    let source = "function f() { return 1; }\n";
    let func = Function {
        span: sp(0, 26),
        id: Some(name(9, 10, "f")),
        is_async: false,
        generator: false,
        params: Vec::new(),
        body: Some(FunctionBody {
            span: sp(13, 26),
            statements: vec![Statement::Return { span: sp(15, 24), argument: Some(numeric(22, 23)) }],
        }),
        type_parameters: None,
        return_type: None,
    };
    let root = root_of(source, vec![Statement::Function(func)]);
    let body = program_body(&root);
    assert_eq!(body.len(), 1);
    let f = &body[0];
    assert_eq!(f.kind_name(), "FunctionDeclaration");
    assert_eq!(f.end_line, 1);
    match &f.data {
        NodeData::FunctionDeclaration(d) => {
            assert_eq!(d.name.as_deref(), Some("f"));
            let block = d.body.as_ref().unwrap();
            assert_eq!(block.kind(), Kind::BlockStatement);
            match &block.data {
                NodeData::BlockStatement(b) => {
                    assert_eq!(b.body.len(), 1);
                    assert_eq!(b.body[0].kind_name(), "ReturnStatement");
                }
                _ => panic!("body is not a block"),
            }
        }
        _ => panic!("not a FunctionDeclaration"),
    }
    // The root spans the whole file, trailing newline included.
    assert_eq!((root.start_line, root.end_line), (1, 2));
    assert_eq!(root.get_text(source), source);
}

#[test]
fn scenario_arrow_expression_body() {
    let source = "const f = x => x + 1;";
    let sum = Expression::Binary {
        span: sp(15, 20),
        operator: BinaryOp::Addition,
        left: Box::new(Expression::Identifier(name(15, 16, "x"))),
        right: Box::new(numeric(19, 20)),
    };
    let arrow = Arrow {
        span: sp(10, 20),
        params: vec![Param { span: sp(10, 11), binding: Some(name(10, 11, "x")), type_annotation: None }],
        expression: true,
        is_async: false,
        body: FunctionBody {
            span: sp(15, 20),
            statements: vec![Statement::Expression { span: sp(15, 20), expression: sum }],
        },
    };
    let ctx = Context::new(source);
    let node = convert_expression(&ctx, &Expression::Arrow(Box::new(arrow)));
    match &node.data {
        NodeData::ArrowFunctionExpression(a) => {
            let body = a.body.as_ref().unwrap();
            assert_eq!(body.kind(), Kind::BinaryExpression);
            assert_ne!(body.kind(), Kind::BlockStatement);
            assert_eq!(body.span, sp(15, 20));
            match &body.data {
                NodeData::BinaryExpression(b) => assert_eq!(b.operator, "+"),
                _ => panic!("body is not a binary expression"),
            }
            assert_eq!(a.params.len(), 1);
            match &a.params[0].data {
                NodeData::Identifier(i) => assert_eq!(i.name, "x"),
                _ => panic!("parameter is not an identifier"),
            }
        }
        _ => panic!("not an arrow function"),
    }
}

#[test]
fn scenario_unsupported_constructs_fall_back() {
    let source = "with (o) { a; }\nthis.#p;\nlet y;";
    let with = Statement::With {
        span: sp(0, 15),
        object: sp(6, 7),
        body: Box::new(Statement::Block(oxc_nodes::syntax::Block {
            span: sp(9, 15),
            body: vec![Statement::Expression {
                span: sp(11, 13),
                expression: Expression::Identifier(name(11, 12, "a")),
            }],
        })),
    };
    let private = Statement::Expression {
        span: sp(16, 24),
        expression: Expression::Other { span: sp(16, 23), form: ExprForm::PrivateField },
    };
    let module = Statement::Unmodeled { span: sp(25, 31), form: UnmodeledStatement::TsModule };
    let root = root_of(source, vec![with, private, module]);
    let body = program_body(&root);
    assert_eq!(body.len(), 3);
    assert_eq!(body[0].kind_name(), "WithStatement");
    match &body[0].data {
        NodeData::WithStatement(w) => {
            let object = w.object.as_ref().unwrap();
            assert_eq!(object.kind_name(), "Expression");
            assert_eq!(object.span, sp(6, 7));
        }
        _ => panic!("not a with statement"),
    }
    match &body[1].data {
        NodeData::ExpressionStatement(e) => {
            let inner = e.expression.as_ref().unwrap();
            assert_eq!(inner.kind_name(), "MemberExpression");
            assert_eq!(inner.span, sp(16, 23));
            assert_eq!((inner.start_line, inner.end_line), (2, 2));
        }
        _ => panic!("not an expression statement"),
    }
    assert_eq!(body[2].kind_name(), "TSModuleDeclaration");
    assert_eq!(body[2].span, sp(25, 31));
    assert_eq!(body[2].start_line, 3);
}

#[test]
fn spans_are_clamped_into_the_source() {
    let source = "a;";
    let ctx = Context::new(source);
    let stmt = Statement::Expression { span: sp(0, 40), expression: numeric(30, 35) };
    let node = convert_statement(&ctx, &stmt);
    assert_eq!(node.span, sp(0, 2));
    match &node.data {
        NodeData::ExpressionStatement(e) => assert_eq!(e.expression.as_ref().unwrap().span, sp(2, 2)),
        _ => panic!("not an expression statement"),
    }
}

#[test]
fn parenthesized_expression_is_unwrapped() {
    let source = "(1)";
    let ctx = Context::new(source);
    let e = Expression::Parenthesized { span: sp(0, 3), expression: Box::new(numeric(1, 2)) };
    let node = convert_expression(&ctx, &e);
    assert_eq!(node.kind_name(), "NumericLiteral");
    assert_eq!(node.span, sp(1, 2));
}

#[test]
fn statement_type_strings() {
    assert_eq!(get_statement_type_str(&Statement::Debugger(sp(0, 9))), "DebuggerStatement");
    let s = Statement::Unmodeled { span: sp(0, 1), form: UnmodeledStatement::TsExportAssignment };
    assert_eq!(get_statement_type_str(&s), "TSExportAssignment");
}

#[test]
fn walk_visits_root_then_children_level_by_level() {
    let source = "function f() { return 1; }\nx;";
    let func = Function {
        span: sp(0, 26),
        id: Some(name(9, 10, "f")),
        is_async: false,
        generator: false,
        params: Vec::new(),
        body: Some(FunctionBody {
            span: sp(13, 26),
            statements: vec![Statement::Return { span: sp(15, 24), argument: Some(numeric(22, 23)) }],
        }),
        type_parameters: None,
        return_type: None,
    };
    let expr = Statement::Expression { span: sp(27, 29), expression: Expression::Identifier(name(27, 28, "x")) };
    let root = root_of(source, vec![Statement::Function(func), expr]);
    let mut walker = walk(&root);
    let mut seen: Vec<(String, usize)> = Vec::new();
    while let Some((node, depth)) = walker.next() {
        seen.push((node.kind_name().to_string(), depth));
    }
    let expected: Vec<(String, usize)> = vec![
        ("Program", 0),
        ("FunctionDeclaration", 1),
        ("ExpressionStatement", 1),
        ("BlockStatement", 2),
        ("Identifier", 2),
        ("ReturnStatement", 3),
        ("NumericLiteral", 4),
    ]
    .into_iter()
    .map(|(k, d)| (k.to_string(), d))
    .collect();
    assert_eq!(seen, expected);
    assert!(walker.next().is_none());
}

#[test]
fn walk_can_restart() {
    let source = "x;";
    let expr = Statement::Expression { span: sp(0, 2), expression: Expression::Identifier(name(0, 1, "x")) };
    let root = root_of(source, vec![expr]);
    let mut first = walk(&root);
    first.next();
    let mut second = walk(&root);
    let (node, depth) = second.next().unwrap();
    assert_eq!((node.kind_name(), depth), ("Program", 0));
}
