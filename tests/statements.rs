use oxc_nodes::convert::statements::{
    convert_catch_clause, convert_for_statement_init, convert_for_statement_left, convert_statement,
    convert_switch_case,
};
use oxc_nodes::convert::typescript::convert_ts_enum_member;
use oxc_nodes::convert::Context;
use oxc_nodes::node::{NodeData, VariableKind};
use oxc_nodes::span::Span;
use oxc_nodes::syntax::{
    Block, CatchSrc, Declarator, EnumMemberName, ExprForm, Expression, ForInit, ForLeft, Name,
    Param, Statement, SwitchCaseSrc, TsEnumMemberSrc, TsInterface, TsInterfaceBodySrc, VarDecl,
};

fn sp(start: usize, end: usize) -> Span {
    Span::new(start, end)
}

fn name(start: usize, end: usize, text: &str) -> Name {
    Name { span: sp(start, end), name: text.to_string() }
}

fn let_x(start: usize, end: usize) -> VarDecl {
    VarDecl {
        span: sp(start, end),
        kind: VariableKind::Let,
        declarations: vec![Declarator {
            span: sp(start + 4, end),
            binding: Some(name(start + 4, start + 5, "x")),
            type_annotation: None,
            init: None,
        }],
    }
}

#[test]
fn for_heads() {
    let ctx = Context::new("for (let x;;) {}\nfor (a of b) {}");
    let init = convert_for_statement_init(&ctx, &ForInit::Variable(let_x(5, 10)));
    match &init.data {
        NodeData::VariableDeclaration(v) => {
            assert_eq!(v.kind.as_str(), "let");
            assert_eq!(v.declarations.len(), 1);
        }
        _ => panic!("init is not a declaration"),
    }
    let expr_init = convert_for_statement_init(&ctx, &ForInit::Expression(sp(5, 6)));
    assert_eq!(expr_init.kind_name(), "Expression");
    let target = convert_for_statement_left(&ctx, &ForLeft::Target(sp(22, 23)));
    assert_eq!(target.kind_name(), "AssignmentTarget");
    assert_eq!((target.start_line, target.end_line), (2, 2));
    let of = Statement::ForOf {
        span: sp(17, 32),
        left: ForLeft::Target(sp(22, 23)),
        right: Expression::Identifier(name(27, 28, "b")),
        body: Box::new(Statement::Block(Block { span: sp(30, 32), body: Vec::new() })),
        is_await: false,
    };
    let node = convert_statement(&ctx, &of);
    match &node.data {
        NodeData::ForOfStatement(f) => {
            assert!(f.left.is_some() && f.right.is_some() && f.body.is_some());
            assert!(!f.is_await);
        }
        _ => panic!("not a for-of"),
    }
}

#[test]
fn catch_param_placeholder_and_switch_case() {
    let ctx = Context::new("try {} catch ({a}) {}");
    let clause = CatchSrc {
        span: sp(7, 21),
        param: Some(Param { span: sp(14, 17), binding: None, type_annotation: None }),
        body: Block { span: sp(19, 21), body: Vec::new() },
    };
    let node = convert_catch_clause(&ctx, &clause);
    match &node.data {
        NodeData::CatchClause(c) => match &c.param.as_ref().unwrap().data {
            NodeData::Identifier(i) => assert_eq!(i.name, "param"),
            _ => panic!("param is not an identifier"),
        },
        _ => panic!("not a catch clause"),
    }
    let case = SwitchCaseSrc {
        span: sp(0, 10),
        test: None,
        consequent: vec![Statement::Empty(sp(9, 10)), Statement::Debugger(sp(0, 9))],
    };
    let c = convert_switch_case(&ctx, &case);
    match &c.data {
        NodeData::SwitchCase(s) => {
            assert!(s.test.is_none());
            assert_eq!(s.consequent.len(), 2);
            assert_eq!(s.consequent[0].kind_name(), "EmptyStatement");
        }
        _ => panic!("not a switch case"),
    }
}

#[test]
fn enum_members_and_interfaces() {
    let ctx = Context::new("enum E { A = 1, B = 'b', C = f() }");
    let member = |id: EnumMemberName, init: Option<Expression>| TsEnumMemberSrc { span: sp(9, 14), id, initializer: init };
    let a = convert_ts_enum_member(
        &ctx,
        &member(
            EnumMemberName::Identifier(name(9, 10, "A")),
            Some(Expression::Other { span: sp(13, 14), form: ExprForm::NumericLiteral }),
        ),
    );
    let c = convert_ts_enum_member(
        &ctx,
        &member(EnumMemberName::Other, Some(Expression::Identifier(name(29, 30, "f")))),
    );
    match (&a.data, &c.data) {
        (NodeData::TSEnumMember(x), NodeData::TSEnumMember(y)) => {
            assert!(x.id.is_some());
            assert_eq!(x.initializer.as_ref().unwrap().kind_name(), "NumericLiteral");
            assert!(y.id.is_none());
            assert_eq!(y.initializer.as_ref().unwrap().kind_name(), "Expression");
        }
        _ => panic!("not enum members"),
    }
    let iface = Statement::TsInterface(TsInterface {
        span: sp(0, 20),
        id: name(10, 11, "I"),
        body: TsInterfaceBodySrc { span: sp(18, 20), signatures: Vec::new() },
        extends: vec![sp(20, 21)],
        type_parameters: None,
    });
    let node = convert_statement(&ctx, &iface);
    match &node.data {
        NodeData::TSInterfaceDeclaration(d) => {
            assert_eq!(d.name, "I");
            let extends = d.extends.as_ref().unwrap();
            assert_eq!(extends.len(), 1);
            assert_eq!(extends[0].kind_name(), "TSInterfaceHeritage");
        }
        _ => panic!("not an interface"),
    }
}
