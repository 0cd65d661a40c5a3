use vstd::prelude::*;
use vstd::string::StringExecFns;
use crate::node::{
    Node, NodeData, Kind, VariableKind, kind_of, kind_text, tree_ok, all_ok, FunctionDeclaration,
    MethodDefinition, ClassBody, ClassDeclaration, VariableDeclaration, VariableDeclarator,
    FormalParameter, BlockStatement, BreakStatement, ContinueStatement, LabeledStatement,
    EmptyStatement, WithStatement, ForStatement, ForInStatement, ForOfStatement, IfStatement,
    WhileStatement, DoWhileStatement, SwitchStatement, SwitchCase, TryStatement, CatchClause,
    ThrowStatement, ReturnStatement, ExpressionStatement, DebuggerStatement, ImportDeclaration,
    ImportSpecifier, ImportDefaultSpecifier, ImportNamespaceSpecifier, ExportNamedDeclaration,
    ExportDefaultDeclaration, ExportAllDeclaration, ExportSpecifier, TSTypeAliasDeclaration,
    TSInterfaceDeclaration, TSEnumDeclaration, Program,
};
use crate::span::Span;
use crate::syntax::{
    Statement, Expression, Function, FunctionBody, Param, Class, ClassBodySrc, ClassElement,
    VarDecl, Declarator, ImportSpec, ExportSpec, Declaration, ExportDefaultKind, TsTypeAlias,
    TsInterface, TsEnum, ForInit, ForLeft, SwitchCaseSrc, CatchSrc, Block, UnmodeledStatement,
    Name, SourceProgram, ClassMemberKind, stmt_span,
};
use super::{Context, group_all_ok, convert_literal, convert_binding_identifier};
use super::expressions::{convert_expression, stands_for, expr_shape};
use super::typescript::{
    convert_ts_type, convert_ts_type_annotation, convert_ts_type_parameter_declaration,
    convert_ts_interface_body, convert_ts_interface_heritage, convert_ts_enum_member, ts_type_shape,
    signature_kind, enum_member_shape,
};

verus! {

broadcast use {group_all_ok, vstd::std_specs::vec::axiom_vec_index_decreases};

pub open spec fn unmodeled_kind(f: UnmodeledStatement) -> Kind {
    match f {
        UnmodeledStatement::TsModule => Kind::TSModuleDeclaration,
        UnmodeledStatement::TsImportEquals => Kind::TSImportEqualsDeclaration,
        UnmodeledStatement::TsExportAssignment => Kind::TSExportAssignment,
        UnmodeledStatement::TsNamespaceExport => Kind::TSNamespaceExportDeclaration,
    }
}

/// The kind of node a statement becomes.
pub open spec fn stmt_kind(s: Statement) -> Kind {
    match s {
        Statement::Function(_) => Kind::FunctionDeclaration,
        Statement::Class(_) => Kind::ClassDeclaration,
        Statement::Variable(_) => Kind::VariableDeclaration,
        Statement::Import(_) => Kind::ImportDeclaration,
        Statement::ExportNamed(_) => Kind::ExportNamedDeclaration,
        Statement::ExportDefault(_) => Kind::ExportDefaultDeclaration,
        Statement::ExportAll(_) => Kind::ExportAllDeclaration,
        Statement::TsTypeAlias(_) => Kind::TSTypeAliasDeclaration,
        Statement::TsInterface(_) => Kind::TSInterfaceDeclaration,
        Statement::TsEnum(_) => Kind::TSEnumDeclaration,
        Statement::Break { .. } => Kind::BreakStatement,
        Statement::Continue { .. } => Kind::ContinueStatement,
        Statement::Labeled { .. } => Kind::LabeledStatement,
        Statement::Empty(_) => Kind::EmptyStatement,
        Statement::With { .. } => Kind::WithStatement,
        Statement::For { .. } => Kind::ForStatement,
        Statement::ForIn { .. } => Kind::ForInStatement,
        Statement::ForOf { .. } => Kind::ForOfStatement,
        Statement::If { .. } => Kind::IfStatement,
        Statement::While { .. } => Kind::WhileStatement,
        Statement::DoWhile { .. } => Kind::DoWhileStatement,
        Statement::Switch { .. } => Kind::SwitchStatement,
        Statement::Try { .. } => Kind::TryStatement,
        Statement::Throw { .. } => Kind::ThrowStatement,
        Statement::Return { .. } => Kind::ReturnStatement,
        Statement::Expression { .. } => Kind::ExpressionStatement,
        Statement::Debugger(_) => Kind::DebuggerStatement,
        Statement::Block(_) => Kind::BlockStatement,
        Statement::Unmodeled { form, .. } => unmodeled_kind(form),
    }
}

/// A name as an identifier would keep it: present exactly when the id is, with
/// its text.
pub open spec fn name_matches(n: Option<String>, id: Option<Name>) -> bool {
    match id {
        Some(x) => n is Some && n.unwrap()@ == x.name@,
        None => n is None,
    }
}

/// `n` is the `Identifier` for `name`, at its span.
pub open spec fn ident_at(n: Node, name: Name, len: int) -> bool {
    &&& n.data == NodeData::Identifier(crate::node::Identifier { name: name.name })
    &&& n.span == name.span.clamped(len)
}

/// `n` has the kind and span that conversion gives the statement `s`.
pub open spec fn stmt_at(n: Node, s: Statement, len: int) -> bool {
    &&& kind_of(n.data) == stmt_kind(s)
    &&& n.span == stmt_span(s).clamped(len)
}

/// `n` is a `BlockStatement` with one node per statement of `stmts`, in order,
/// each with the statement's kind and span.
pub open spec fn block_body_shape(n: Node, stmts: Seq<Statement>, len: int) -> bool {
    &&& n.data is BlockStatement
    &&& n.data->BlockStatement_0.body@.len() == stmts.len()
    &&& forall|i: int|
        0 <= i < stmts.len() ==> stmt_at(#[trigger] n.data->BlockStatement_0.body@[i], stmts[i], len)
}

/// `n` is the conversion of the function `f`.
pub open spec fn function_shape(n: Node, f: Function, len: int) -> bool {
    &&& n.data is FunctionDeclaration
    &&& n.span == f.span.clamped(len)
    &&& name_matches(n.data->FunctionDeclaration_0.name, f.id)
    &&& n.data->FunctionDeclaration_0.params@.len() == f.params@.len()
    &&& n.data->FunctionDeclaration_0.is_async == f.is_async
    &&& n.data->FunctionDeclaration_0.is_generator == f.generator
    &&& (n.data->FunctionDeclaration_0.body is Some <==> f.body is Some)
    &&& (f.body is Some ==> block_body_shape(
        *n.data->FunctionDeclaration_0.body.unwrap(),
        f.body.unwrap().statements@,
        len,
    ))
}

/// `n` is the conversion of the declarator `d`: its bound name, and its
/// initializer converted as an expression.
pub open spec fn declarator_shape(n: Node, d: Declarator, len: int) -> bool {
    &&& n.data is VariableDeclarator
    &&& n.span == d.span.clamped(len)
    &&& (n.data->VariableDeclarator_0.id is Some <==> d.binding is Some)
    &&& (d.binding is Some ==> ident_at(*n.data->VariableDeclarator_0.id.unwrap(), d.binding.unwrap(), len))
    &&& (n.data->VariableDeclarator_0.init is Some <==> d.init is Some)
    &&& (d.init is Some ==> stands_for(*n.data->VariableDeclarator_0.init.unwrap(), d.init.unwrap(), len)
        && expr_shape(*n.data->VariableDeclarator_0.init.unwrap(), d.init.unwrap(), len))
}

/// `n` is the conversion of the declaration `v`, one declarator each.
pub open spec fn var_shape(n: Node, v: VarDecl, len: int) -> bool {
    &&& n.data is VariableDeclaration
    &&& n.span == v.span.clamped(len)
    &&& n.data->VariableDeclaration_0.kind == v.kind
    &&& n.data->VariableDeclaration_0.declarations@.len() == v.declarations@.len()
    &&& forall|i: int|
        0 <= i < v.declarations@.len() ==> declarator_shape(
            #[trigger] n.data->VariableDeclaration_0.declarations@[i],
            v.declarations@[i],
            len,
        )
}

/// The kind of node a class member becomes.
pub open spec fn member_kind(e: ClassElement) -> Kind {
    match e {
        ClassElement::Method { .. } => Kind::MethodDefinition,
        ClassElement::Other { kind, .. } => match kind {
            ClassMemberKind::Property => Kind::PropertyDefinition,
            ClassMemberKind::StaticBlock => Kind::StaticBlock,
            ClassMemberKind::Accessor => Kind::AccessorProperty,
            ClassMemberKind::IndexSignature => Kind::TSIndexSignature,
        },
    }
}

pub open spec fn member_span(e: ClassElement) -> Span {
    match e {
        ClassElement::Method { span, .. } => span,
        ClassElement::Other { span, .. } => span,
    }
}

/// `n` is a `ClassBody` with one node per member of `body`, in order: a
/// `MethodDefinition` for a method, a node of the member's kind otherwise.
pub open spec fn class_body_shape(n: Node, body: ClassBodySrc, len: int) -> bool {
    &&& n.data is ClassBody
    &&& n.span == body.span.clamped(len)
    &&& n.data->ClassBody_0.methods@.len() == body.elements@.len()
    &&& forall|i: int|
        0 <= i < body.elements@.len() ==> member_shape(
            #[trigger] n.data->ClassBody_0.methods@[i],
            body.elements@[i],
            len,
        )
}

/// `n` is the conversion of the class `c`.
pub open spec fn class_shape(n: Node, c: Class, len: int) -> bool {
    &&& n.data is ClassDeclaration
    &&& n.span == c.span.clamped(len)
    &&& name_matches(n.data->ClassDeclaration_0.name, c.id)
    &&& (n.data->ClassDeclaration_0.superclass is Some <==> c.super_class is Some)
    &&& (c.super_class matches Some(Expression::Identifier(x)) ==> n.data->ClassDeclaration_0.superclass.unwrap()@ == x.name@)
    &&& ((c.super_class is Some && !(c.super_class.unwrap() is Identifier))
        ==> n.data->ClassDeclaration_0.superclass.unwrap()@ == "<expression>"@)
    &&& n.data->ClassDeclaration_0.body is Some
    &&& class_body_shape(*n.data->ClassDeclaration_0.body.unwrap(), c.body, len)
}

/// `n` is the conversion of the type alias `t`.
pub open spec fn alias_shape(n: Node, t: TsTypeAlias, len: int) -> bool {
    &&& n.data is TSTypeAliasDeclaration
    &&& n.span == t.span.clamped(len)
    &&& n.data->TSTypeAliasDeclaration_0.name@ == t.id.name@
    &&& n.data->TSTypeAliasDeclaration_0.type_annotation is Some
    &&& ts_type_shape(*n.data->TSTypeAliasDeclaration_0.type_annotation.unwrap(), t.type_annotation, len)
    &&& (n.data->TSTypeAliasDeclaration_0.type_parameters is Some <==> t.type_parameters is Some)
}

/// `n` is the conversion of the interface `t`.
pub open spec fn interface_shape(n: Node, t: TsInterface, len: int) -> bool {
    &&& n.data is TSInterfaceDeclaration
    &&& n.span == t.span.clamped(len)
    &&& n.data->TSInterfaceDeclaration_0.name@ == t.id.name@
    &&& n.data->TSInterfaceDeclaration_0.body is Some
    &&& n.data->TSInterfaceDeclaration_0.body.unwrap().data is TSInterfaceBody
    &&& n.data->TSInterfaceDeclaration_0.body.unwrap().data->TSInterfaceBody_0.body@.len()
        == t.body.signatures@.len()
    &&& forall|i: int|
        0 <= i < t.body.signatures@.len() ==> kind_of(
            #[trigger] n.data->TSInterfaceDeclaration_0.body.unwrap().data->TSInterfaceBody_0.body@[i].data,
        ) == signature_kind(t.body.signatures@[i])
    &&& (n.data->TSInterfaceDeclaration_0.extends is Some <==> t.extends@.len() > 0)
    &&& (t.extends@.len() > 0 ==> n.data->TSInterfaceDeclaration_0.extends.unwrap()@.len() == t.extends@.len())
}

/// `n` is the conversion of the enum `t`.
pub open spec fn enum_shape(n: Node, t: TsEnum, len: int) -> bool {
    &&& n.data is TSEnumDeclaration
    &&& n.span == t.span.clamped(len)
    &&& n.data->TSEnumDeclaration_0.name@ == t.id.name@
    &&& n.data->TSEnumDeclaration_0.members@.len() == t.members@.len()
    &&& forall|i: int|
        0 <= i < t.members@.len() ==> enum_member_shape(
            #[trigger] n.data->TSEnumDeclaration_0.members@[i],
            t.members@[i],
            len,
        )
    &&& n.data->TSEnumDeclaration_0.is_const == t.is_const
}

/// `n` is the conversion of the declaration of an `export`.
pub open spec fn declaration_shape(n: Node, d: Declaration, len: int) -> bool {
    match d {
        Declaration::Function(f) => function_shape(n, f, len),
        Declaration::Class(c) => class_shape(n, c, len),
        Declaration::Variable(v) => var_shape(n, v, len),
        Declaration::TsInterface(t) => interface_shape(n, t, len),
        Declaration::TsTypeAlias(t) => alias_shape(n, t, len),
        Declaration::Other(span) => n.data == NodeData::Generic(Kind::Declaration) && n.span
            == span.clamped(len),
    }
}

/// An optional child stands for an optional expression.
pub open spec fn opt_expr_at(o: Option<Box<Node>>, e: Option<Expression>, len: int) -> bool {
    &&& (o is Some <==> e is Some)
    &&& (e is Some ==> stands_for(*o.unwrap(), e.unwrap(), len))
}

/// A child that is there and stands for `e`.
pub open spec fn expr_child(o: Option<Box<Node>>, e: Expression, len: int) -> bool {
    o is Some && stands_for(*o.unwrap(), e, len)
}

/// A child that is there and has the kind and span of the statement `s`.
pub open spec fn stmt_child(o: Option<Box<Node>>, s: Statement, len: int) -> bool {
    o is Some && stmt_at(*o.unwrap(), s, len)
}

pub open spec fn label_at(o: Option<Box<Node>>, label: Option<Name>, len: int) -> bool {
    &&& (o is Some <==> label is Some)
    &&& (label is Some ==> ident_at(*o.unwrap(), label.unwrap(), len))
}

pub open spec fn import_specs(specs: Option<Vec<ImportSpec>>) -> Seq<ImportSpec> {
    match specs {
        Some(v) => v@,
        None => Seq::empty(),
    }
}

/// `n` is the conversion of the head of a `for`.
pub open spec fn for_init_shape(n: Node, init: ForInit, len: int) -> bool {
    match init {
        ForInit::Variable(v) => var_shape(n, v, len),
        ForInit::Expression(span) => n.data == NodeData::Generic(Kind::Expression) && n.span
            == span.clamped(len),
    }
}

/// `n` is the conversion of the left side of a `for ... in` or `for ... of`.
pub open spec fn for_left_shape(n: Node, left: ForLeft, len: int) -> bool {
    match left {
        ForLeft::Variable(v) => var_shape(n, v, len),
        ForLeft::Target(span) => n.data == NodeData::Generic(Kind::AssignmentTarget) && n.span
            == span.clamped(len),
    }
}

/// `n` is the conversion of the `case` clause `c`.
pub open spec fn switch_case_shape(n: Node, c: SwitchCaseSrc, len: int) -> bool {
    &&& n.data is SwitchCase
    &&& n.span == c.span.clamped(len)
    &&& opt_expr_at(n.data->SwitchCase_0.test, c.test, len)
    &&& n.data->SwitchCase_0.consequent@.len() == c.consequent@.len()
    &&& forall|i: int|
        0 <= i < c.consequent@.len() ==> stmt_at(
            #[trigger] n.data->SwitchCase_0.consequent@[i],
            c.consequent@[i],
            len,
        )
}

/// The name a catch parameter is shown by: its binding, or `param` for a
/// destructuring pattern.
pub open spec fn catch_param_text(p: Param) -> Seq<char> {
    match p.binding {
        Some(x) => x.name@,
        None => "param"@,
    }
}

/// `n` is the conversion of the `catch` clause `c`.
pub open spec fn catch_shape(n: Node, c: CatchSrc, len: int) -> bool {
    &&& n.data is CatchClause
    &&& n.span == c.span.clamped(len)
    &&& (n.data->CatchClause_0.param is Some <==> c.param is Some)
    &&& (c.param is Some ==> n.data->CatchClause_0.param.unwrap().data is Identifier
        && n.data->CatchClause_0.param.unwrap().data->Identifier_0.name@ == catch_param_text(
        c.param.unwrap(),
    ) && n.data->CatchClause_0.param.unwrap().span == c.param.unwrap().span.clamped(len))
    &&& n.data->CatchClause_0.body is Some
    &&& block_body_shape(*n.data->CatchClause_0.body.unwrap(), c.body.body@, len)
}

pub open spec fn opt_text_eq(a: Option<String>, b: Option<String>) -> bool {
    match b {
        Some(x) => a is Some && a.unwrap()@ == x@,
        None => a is None,
    }
}

/// `n` is the conversion of the class member `e`: a method with its name,
/// flags and parameters; any other member by kind and span, with no payload.
pub open spec fn member_shape(n: Node, e: ClassElement, len: int) -> bool {
    match e {
        ClassElement::Method { span, key_name, value } => n.data is MethodDefinition && n.span
            == span.clamped(len) && opt_text_eq(n.data->MethodDefinition_0.name, key_name)
            && n.data->MethodDefinition_0.is_async == value.is_async
            && n.data->MethodDefinition_0.is_generator == value.generator
            && n.data->MethodDefinition_0.params@.len() == value.params@.len() && (
        n.data->MethodDefinition_0.function_body is Some <==> value.body is Some),
        ClassElement::Other { span, .. } => n.data == NodeData::Generic(member_kind(e)) && n.span
            == span.clamped(len),
    }
}

/// What the node of a statement keeps of it: names, declarators, bodies,
/// declarations, children's kinds and spans, and which optional parts are
/// there.
pub open spec fn stmt_shape(n: Node, s: Statement, len: int) -> bool {
    match s {
        Statement::Function(f) => function_shape(n, f, len),
        Statement::Class(c) => class_shape(n, c, len),
        Statement::Variable(v) => var_shape(n, v, len),
        Statement::Import(d) => n.data is ImportDeclaration
            && n.data->ImportDeclaration_0.specifiers@.len() == import_specs(d.specifiers).len()
            && (forall|i: int|
            0 <= i < import_specs(d.specifiers).len() ==> import_spec_shape(
                #[trigger] n.data->ImportDeclaration_0.specifiers@[i],
                import_specs(d.specifiers)[i],
                len,
            ))
            && n.data->ImportDeclaration_0.source.data is Literal
            && n.data->ImportDeclaration_0.source.data->Literal_0.value@ == d.source.value@,
        Statement::ExportNamed(e) => n.data is ExportNamedDeclaration && (
        n.data->ExportNamedDeclaration_0.declaration is Some <==> e.declaration is Some) && (
        e.declaration is Some ==> declaration_shape(
            *n.data->ExportNamedDeclaration_0.declaration.unwrap(),
            e.declaration.unwrap(),
            len,
        )) && n.data->ExportNamedDeclaration_0.specifiers@.len() == e.specifiers@.len() && (
        n.data->ExportNamedDeclaration_0.source is Some <==> e.source is Some),
        Statement::ExportDefault(e) => n.data is ExportDefaultDeclaration && match e.declaration {
            ExportDefaultKind::Function(f) => function_shape(
                *n.data->ExportDefaultDeclaration_0.declaration,
                f,
                len,
            ),
            ExportDefaultKind::Class(c) => class_shape(
                *n.data->ExportDefaultDeclaration_0.declaration,
                c,
                len,
            ),
            ExportDefaultKind::Other(span) => n.data->ExportDefaultDeclaration_0.declaration.data
                == NodeData::Generic(Kind::Expression)
                && n.data->ExportDefaultDeclaration_0.declaration.span == span.clamped(len),
        },
        Statement::ExportAll(e) => n.data is ExportAllDeclaration
            && n.data->ExportAllDeclaration_0.source.data is Literal
            && n.data->ExportAllDeclaration_0.source.data->Literal_0.value@ == e.source.value@
            && label_at(
            n.data->ExportAllDeclaration_0.exported,
            e.exported,
            len,
        ),
        Statement::TsTypeAlias(t) => alias_shape(n, t, len),
        Statement::TsInterface(t) => interface_shape(n, t, len),
        Statement::TsEnum(t) => enum_shape(n, t, len),
        Statement::Break { label, .. } => n.data is BreakStatement && label_at(
            n.data->BreakStatement_0.label,
            label,
            len,
        ),
        Statement::Continue { label, .. } => n.data is ContinueStatement && label_at(
            n.data->ContinueStatement_0.label,
            label,
            len,
        ),
        Statement::Labeled { label, body, .. } => n.data is LabeledStatement && label_at(
            n.data->LabeledStatement_0.label,
            Some(label),
            len,
        ) && stmt_child(n.data->LabeledStatement_0.body, *body, len),
        Statement::Empty(_) => n.data is EmptyStatement,
        Statement::With { object, body, .. } => n.data is WithStatement
            && n.data->WithStatement_0.object is Some
            && n.data->WithStatement_0.object.unwrap().data == NodeData::Generic(Kind::Expression)
            && n.data->WithStatement_0.object.unwrap().span == object.clamped(len) && stmt_child(
            n.data->WithStatement_0.body,
            *body,
            len,
        ),
        Statement::For { init, test, update, body, .. } => n.data is ForStatement && (
        n.data->ForStatement_0.init is Some <==> init is Some) && (init is Some ==> for_init_shape(
            *n.data->ForStatement_0.init.unwrap(),
            init.unwrap(),
            len,
        )) && opt_expr_at(
            n.data->ForStatement_0.test,
            test,
            len,
        ) && opt_expr_at(n.data->ForStatement_0.update, update, len) && stmt_child(
            n.data->ForStatement_0.body,
            *body,
            len,
        ),
        Statement::ForIn { left, right, body, .. } => n.data is ForInStatement
            && n.data->ForInStatement_0.left is Some && for_left_shape(
            *n.data->ForInStatement_0.left.unwrap(),
            left,
            len,
        ) && expr_child(
            n.data->ForInStatement_0.right,
            right,
            len,
        ) && stmt_child(n.data->ForInStatement_0.body, *body, len),
        Statement::ForOf { left, right, body, is_await, .. } => n.data is ForOfStatement
            && n.data->ForOfStatement_0.left is Some && for_left_shape(
            *n.data->ForOfStatement_0.left.unwrap(),
            left,
            len,
        ) && expr_child(
            n.data->ForOfStatement_0.right,
            right,
            len,
        ) && stmt_child(n.data->ForOfStatement_0.body, *body, len)
            && n.data->ForOfStatement_0.is_await == is_await,
        Statement::If { test, consequent, alternate, .. } => n.data is IfStatement && expr_child(
            n.data->IfStatement_0.test,
            test,
            len,
        ) && stmt_child(n.data->IfStatement_0.consequent, *consequent, len) && (
        n.data->IfStatement_0.alternate is Some <==> alternate is Some) && (alternate is Some
            ==> stmt_child(n.data->IfStatement_0.alternate, *alternate.unwrap(), len)),
        Statement::While { test, body, .. } => n.data is WhileStatement && expr_child(
            n.data->WhileStatement_0.test,
            test,
            len,
        ) && stmt_child(n.data->WhileStatement_0.body, *body, len),
        Statement::DoWhile { body, test, .. } => n.data is DoWhileStatement && expr_child(
            n.data->DoWhileStatement_0.test,
            test,
            len,
        ) && stmt_child(n.data->DoWhileStatement_0.body, *body, len),
        Statement::Switch { discriminant, cases, .. } => n.data is SwitchStatement && expr_child(
            n.data->SwitchStatement_0.discriminant,
            discriminant,
            len,
        ) && n.data->SwitchStatement_0.cases@.len() == cases@.len() && (forall|i: int|
            0 <= i < cases@.len() ==> switch_case_shape(
                #[trigger] n.data->SwitchStatement_0.cases@[i],
                cases@[i],
                len,
            )),
        Statement::Try { block, handler, finalizer, .. } => n.data is TryStatement
            && n.data->TryStatement_0.block is Some && block_body_shape(
            *n.data->TryStatement_0.block.unwrap(),
            block.body@,
            len,
        ) && (n.data->TryStatement_0.handler is Some <==> handler is Some) && (handler is Some
            ==> catch_shape(*n.data->TryStatement_0.handler.unwrap(), handler.unwrap(), len)) && (
        n.data->TryStatement_0.finalizer is Some <==> finalizer is Some) && (finalizer is Some
            ==> block_body_shape(
            *n.data->TryStatement_0.finalizer.unwrap(),
            finalizer.unwrap().body@,
            len,
        )),
        Statement::Throw { argument, .. } => n.data is ThrowStatement && expr_child(
            n.data->ThrowStatement_0.argument,
            argument,
            len,
        ),
        Statement::Return { argument, .. } => n.data is ReturnStatement && opt_expr_at(
            n.data->ReturnStatement_0.argument,
            argument,
            len,
        ),
        Statement::Expression { expression, .. } => n.data is ExpressionStatement && expr_child(
            n.data->ExpressionStatement_0.expression,
            expression,
            len,
        ) && expr_shape(*n.data->ExpressionStatement_0.expression.unwrap(), expression, len),
        Statement::Debugger(_) => n.data is DebuggerStatement,
        Statement::Block(b) => block_body_shape(n, b.body@, len),
        Statement::Unmodeled { form, .. } => n.data == NodeData::Generic(unmodeled_kind(form)),
    }
}

/// The kind of node a statement becomes.
pub fn statement_kind(stmt: &Statement) -> (r: Kind)
    ensures
        r == stmt_kind(*stmt),
{
    match stmt {
        Statement::Function(_) => Kind::FunctionDeclaration,
        Statement::Class(_) => Kind::ClassDeclaration,
        Statement::Variable(_) => Kind::VariableDeclaration,
        Statement::Import(_) => Kind::ImportDeclaration,
        Statement::ExportNamed(_) => Kind::ExportNamedDeclaration,
        Statement::ExportDefault(_) => Kind::ExportDefaultDeclaration,
        Statement::ExportAll(_) => Kind::ExportAllDeclaration,
        Statement::TsTypeAlias(_) => Kind::TSTypeAliasDeclaration,
        Statement::TsInterface(_) => Kind::TSInterfaceDeclaration,
        Statement::TsEnum(_) => Kind::TSEnumDeclaration,
        Statement::Break { .. } => Kind::BreakStatement,
        Statement::Continue { .. } => Kind::ContinueStatement,
        Statement::Labeled { .. } => Kind::LabeledStatement,
        Statement::Empty(_) => Kind::EmptyStatement,
        Statement::With { .. } => Kind::WithStatement,
        Statement::For { .. } => Kind::ForStatement,
        Statement::ForIn { .. } => Kind::ForInStatement,
        Statement::ForOf { .. } => Kind::ForOfStatement,
        Statement::If { .. } => Kind::IfStatement,
        Statement::While { .. } => Kind::WhileStatement,
        Statement::DoWhile { .. } => Kind::DoWhileStatement,
        Statement::Switch { .. } => Kind::SwitchStatement,
        Statement::Try { .. } => Kind::TryStatement,
        Statement::Throw { .. } => Kind::ThrowStatement,
        Statement::Return { .. } => Kind::ReturnStatement,
        Statement::Expression { .. } => Kind::ExpressionStatement,
        Statement::Debugger(_) => Kind::DebuggerStatement,
        Statement::Block(_) => Kind::BlockStatement,
        Statement::Unmodeled { form, .. } => match form {
            UnmodeledStatement::TsModule => Kind::TSModuleDeclaration,
            UnmodeledStatement::TsImportEquals => Kind::TSImportEqualsDeclaration,
            UnmodeledStatement::TsExportAssignment => Kind::TSExportAssignment,
            UnmodeledStatement::TsNamespaceExport => Kind::TSNamespaceExportDeclaration,
        },
    }
}

/// The discriminator string of the node a statement becomes.
pub fn get_statement_type_str(stmt: &Statement) -> (r: &'static str)
    ensures
        r@ == kind_text(stmt_kind(*stmt)),
{
    statement_kind(stmt).name()
}

fn boxed_opt(n: Option<Node>) -> (r: Option<Box<Node>>)
    ensures
        r is Some <==> n is Some,
        n matches Some(x) ==> r matches Some(b) && *b == x,
{
    match n {
        Some(x) => Some(Box::new(x)),
        None => None,
    }
}

fn name_of(id: &Option<Name>) -> (r: Option<String>)
    ensures
        r is Some <==> id is Some,
        id matches Some(n) ==> r matches Some(s) && s@ == n.name@,
{
    match id {
        Some(n) => Some(n.name.clone()),
        None => None,
    }
}

/// Converts a statement. Each modelled statement keeps its structure; the
/// others keep their kind and span.
#[verifier::rlimit(60)]
pub fn convert_statement(ctx: &Context, stmt: &Statement) -> (r: Node)
    requires
        ctx.wf(),
    ensures
        tree_ok(r, ctx.src()),
        kind_of(r.data) == stmt_kind(*stmt),
        stmt_shape(r, *stmt, ctx.src().len() as int),
        r.span == stmt_span(*stmt).clamped(ctx.src().len() as int),
    decreases stmt,
{
    match stmt {
        Statement::Function(f) => convert_function(ctx, f),
        Statement::Class(c) => convert_class(ctx, c),
        Statement::Variable(v) => convert_variable_declaration(ctx, v),
        Statement::Import(d) => {
            let source = convert_literal(ctx, &d.source);
            let mut specifiers: Vec<Node> = Vec::new();
            match &d.specifiers {
                Some(specs) => {
                    let mut i: usize = 0;
                    while i < specs.len()
                        invariant
                            ctx.wf(),
                            i <= specs.len(),
                            specifiers@.len() == i,
                            all_ok(specifiers@, ctx.src()),
                            forall|k: int|
                                0 <= k < i ==> import_spec_shape(
                                    #[trigger] specifiers@[k],
                                    specs@[k],
                                    ctx.src().len() as int,
                                ),
                        decreases specs.len() - i,
                    {
                        specifiers.push(convert_import_specifier(ctx, &specs[i]));
                        i = i + 1;
                    }
                },
                None => {},
            }
            ctx.node(
                d.span,
                NodeData::ImportDeclaration(
                    ImportDeclaration { source: Box::new(source), specifiers },
                ),
            )
        },
        Statement::ExportNamed(e) => {
            let declaration = match &e.declaration {
                Some(d) => Some(Box::new(convert_declaration(ctx, d))),
                None => None,
            };
            let mut specifiers: Vec<Node> = Vec::new();
            let mut i: usize = 0;
            while i < e.specifiers.len()
                invariant
                    ctx.wf(),
                    i <= e.specifiers.len(),
                    specifiers@.len() == i,
                    all_ok(specifiers@, ctx.src()),
                decreases e.specifiers.len() - i,
            {
                specifiers.push(convert_export_specifier(ctx, &e.specifiers[i]));
                i = i + 1;
            }
            let source = match &e.source {
                Some(s) => Some(Box::new(convert_literal(ctx, s))),
                None => None,
            };
            ctx.node(
                e.span,
                NodeData::ExportNamedDeclaration(
                    ExportNamedDeclaration { declaration, specifiers, source },
                ),
            )
        },
        Statement::ExportDefault(e) => {
            let declaration = match &e.declaration {
                ExportDefaultKind::Function(f) => convert_function(ctx, f),
                ExportDefaultKind::Class(c) => convert_class(ctx, c),
                ExportDefaultKind::Other(span) => ctx.generic(*span, Kind::Expression),
            };
            ctx.node(
                e.span,
                NodeData::ExportDefaultDeclaration(
                    ExportDefaultDeclaration { declaration: Box::new(declaration) },
                ),
            )
        },
        Statement::ExportAll(e) => {
            let source = convert_literal(ctx, &e.source);
            let exported = match &e.exported {
                Some(n) => Some(Box::new(ctx.identifier(n.span, n.name.clone()))),
                None => None,
            };
            ctx.node(
                e.span,
                NodeData::ExportAllDeclaration(
                    ExportAllDeclaration { source: Box::new(source), exported },
                ),
            )
        },
        Statement::TsTypeAlias(t) => convert_type_alias(ctx, t),
        Statement::TsInterface(t) => convert_interface(ctx, t),
        Statement::TsEnum(t) => convert_enum(ctx, t),
        Statement::Break { span, label } => {
            let label = match label {
                Some(l) => Some(Box::new(ctx.identifier(l.span, l.name.clone()))),
                None => None,
            };
            ctx.node(*span, NodeData::BreakStatement(BreakStatement { label }))
        },
        Statement::Continue { span, label } => {
            let label = match label {
                Some(l) => Some(Box::new(ctx.identifier(l.span, l.name.clone()))),
                None => None,
            };
            ctx.node(*span, NodeData::ContinueStatement(ContinueStatement { label }))
        },
        Statement::Labeled { span, label, body } => {
            let label = ctx.identifier(label.span, label.name.clone());
            let body = convert_statement(ctx, body);
            ctx.node(
                *span,
                NodeData::LabeledStatement(
                    LabeledStatement { label: Some(Box::new(label)), body: Some(Box::new(body)) },
                ),
            )
        },
        Statement::Empty(span) => {
            proof {
                assert(crate::node::children_of(NodeData::EmptyStatement(EmptyStatement {}))
                    =~= Seq::empty());
            }
            ctx.node(*span, NodeData::EmptyStatement(EmptyStatement {}))
        },
        Statement::With { span, object, body } => {
            let object = ctx.generic(*object, Kind::Expression);
            let body = convert_statement(ctx, body);
            ctx.node(
                *span,
                NodeData::WithStatement(
                    WithStatement { object: Some(Box::new(object)), body: Some(Box::new(body)) },
                ),
            )
        },
        Statement::For { span, init, test, update, body } => {
            let init = match init {
                Some(i) => Some(Box::new(convert_for_statement_init(ctx, i))),
                None => None,
            };
            let test = match test {
                Some(t) => Some(Box::new(convert_expression(ctx, t))),
                None => None,
            };
            let update = match update {
                Some(u) => Some(Box::new(convert_expression(ctx, u))),
                None => None,
            };
            let body = convert_statement(ctx, body);
            ctx.node(
                *span,
                NodeData::ForStatement(
                    ForStatement { init, test, update, body: Some(Box::new(body)) },
                ),
            )
        },
        Statement::ForIn { span, left, right, body } => {
            let left = convert_for_statement_left(ctx, left);
            let right = convert_expression(ctx, right);
            let body = convert_statement(ctx, body);
            ctx.node(
                *span,
                NodeData::ForInStatement(
                    ForInStatement {
                        left: Some(Box::new(left)),
                        right: Some(Box::new(right)),
                        body: Some(Box::new(body)),
                    },
                ),
            )
        },
        Statement::ForOf { span, left, right, body, is_await } => {
            let left = convert_for_statement_left(ctx, left);
            let right = convert_expression(ctx, right);
            let body = convert_statement(ctx, body);
            ctx.node(
                *span,
                NodeData::ForOfStatement(
                    ForOfStatement {
                        left: Some(Box::new(left)),
                        right: Some(Box::new(right)),
                        body: Some(Box::new(body)),
                        is_await: *is_await,
                    },
                ),
            )
        },
        Statement::If { span, test, consequent, alternate } => {
            let test = convert_expression(ctx, test);
            let consequent = convert_statement(ctx, consequent);
            let alternate = match alternate {
                Some(a) => Some(Box::new(convert_statement(ctx, a))),
                None => None,
            };
            ctx.node(
                *span,
                NodeData::IfStatement(
                    IfStatement {
                        test: Some(Box::new(test)),
                        consequent: Some(Box::new(consequent)),
                        alternate,
                    },
                ),
            )
        },
        Statement::While { span, test, body } => {
            let test = convert_expression(ctx, test);
            let body = convert_statement(ctx, body);
            ctx.node(
                *span,
                NodeData::WhileStatement(
                    WhileStatement { test: Some(Box::new(test)), body: Some(Box::new(body)) },
                ),
            )
        },
        Statement::DoWhile { span, body, test } => {
            let body = convert_statement(ctx, body);
            let test = convert_expression(ctx, test);
            ctx.node(
                *span,
                NodeData::DoWhileStatement(
                    DoWhileStatement { body: Some(Box::new(body)), test: Some(Box::new(test)) },
                ),
            )
        },
        Statement::Switch { span, discriminant, cases } => {
            let discriminant = convert_expression(ctx, discriminant);
            let converted = convert_switch_cases(ctx, cases);
            ctx.node(
                *span,
                NodeData::SwitchStatement(
                    SwitchStatement {
                        discriminant: Some(Box::new(discriminant)),
                        cases: converted,
                    },
                ),
            )
        },
        Statement::Try { span, block, handler, finalizer } => {
            let block = convert_block_statement(ctx, block);
            let handler = match handler {
                Some(h) => Some(Box::new(convert_catch_clause(ctx, h))),
                None => None,
            };
            let finalizer = match finalizer {
                Some(f) => Some(Box::new(convert_block_statement(ctx, f))),
                None => None,
            };
            ctx.node(
                *span,
                NodeData::TryStatement(
                    TryStatement { block: Some(Box::new(block)), handler, finalizer },
                ),
            )
        },
        Statement::Throw { span, argument } => {
            let argument = convert_expression(ctx, argument);
            ctx.node(
                *span,
                NodeData::ThrowStatement(ThrowStatement { argument: Some(Box::new(argument)) }),
            )
        },
        Statement::Return { span, argument } => {
            let argument = match argument {
                Some(a) => Some(Box::new(convert_expression(ctx, a))),
                None => None,
            };
            ctx.node(*span, NodeData::ReturnStatement(ReturnStatement { argument }))
        },
        Statement::Expression { span, expression } => {
            let expression = convert_expression(ctx, expression);
            ctx.node(
                *span,
                NodeData::ExpressionStatement(
                    ExpressionStatement { expression: Some(Box::new(expression)) },
                ),
            )
        },
        Statement::Debugger(span) => {
            proof {
                assert(crate::node::children_of(
                    NodeData::DebuggerStatement(DebuggerStatement {}),
                ) =~= Seq::empty());
            }
            ctx.node(*span, NodeData::DebuggerStatement(DebuggerStatement {}))
        },
        Statement::Block(b) => convert_block_statement(ctx, b),
        Statement::Unmodeled { span, .. } => ctx.generic(*span, statement_kind(stmt)),
    }
}

/// Converts a list of statements, one node each, in order.
pub fn convert_statements(ctx: &Context, stmts: &Vec<Statement>) -> (r: Vec<Node>)
    requires
        ctx.wf(),
    ensures
        all_ok(r@, ctx.src()),
        r@.len() == stmts@.len(),
        forall|i: int|
            0 <= i < stmts@.len() ==> stmt_at(#[trigger] r@[i], stmts@[i], ctx.src().len() as int)
                && stmt_shape(r@[i], stmts@[i], ctx.src().len() as int),
    decreases stmts,
{
    let mut out: Vec<Node> = Vec::new();
    let mut i: usize = 0;
    while i < stmts.len()
        invariant
            ctx.wf(),
            i <= stmts.len(),
            out@.len() == i,
            all_ok(out@, ctx.src()),
            forall|k: int|
                0 <= k < i ==> stmt_at(#[trigger] out@[k], stmts@[k], ctx.src().len() as int)
                    && stmt_shape(out@[k], stmts@[k], ctx.src().len() as int),
        decreases stmts.len() - i,
    {
        out.push(convert_statement(ctx, &stmts[i]));
        i = i + 1;
    }
    out
}

/// Converts a function, declared or as an expression, into a
/// `FunctionDeclaration`.
pub fn convert_function(ctx: &Context, f: &Function) -> (r: Node)
    requires
        ctx.wf(),
    ensures
        tree_ok(r, ctx.src()),
        function_shape(r, *f, ctx.src().len() as int),
    decreases f,
{
    let body = match &f.body {
        Some(b) => Some(Box::new(convert_function_body(ctx, b))),
        None => None,
    };
    let params = convert_formal_parameters(ctx, &f.params);
    let type_parameters = match &f.type_parameters {
        Some(t) => Some(Box::new(convert_ts_type_parameter_declaration(ctx, t))),
        None => None,
    };
    let return_type = match &f.return_type {
        Some(t) => Some(Box::new(convert_ts_type_annotation(ctx, t))),
        None => None,
    };
    ctx.node(
        f.span,
        NodeData::FunctionDeclaration(
            FunctionDeclaration {
                name: name_of(&f.id),
                is_async: f.is_async,
                is_generator: f.generator,
                body,
                params,
                type_parameters,
                return_type,
            },
        ),
    )
}

/// Parameters as `FormalParameter`s, named where the pattern is a plain
/// identifier.
fn convert_formal_parameters(ctx: &Context, params: &Vec<Param>) -> (r: Vec<Node>)
    requires
        ctx.wf(),
    ensures
        all_ok(r@, ctx.src()),
        r@.len() == params@.len(),
{
    let mut out: Vec<Node> = Vec::new();
    let mut i: usize = 0;
    while i < params.len()
        invariant
            ctx.wf(),
            i <= params.len(),
            out@.len() == i,
            all_ok(out@, ctx.src()),
        decreases params.len() - i,
    {
        let p = &params[i];
        let type_annotation = match &p.type_annotation {
            Some(t) => Some(Box::new(convert_ts_type_annotation(ctx, t))),
            None => None,
        };
        let name = match &p.binding {
            Some(n) => Some(n.name.clone()),
            None => None,
        };
        out.push(
            ctx.node(p.span, NodeData::FormalParameter(FormalParameter { name, type_annotation })),
        );
        i = i + 1;
    }
    out
}

/// Converts a class: the name of a plain-identifier superclass is kept, any
/// other superclass is shown as `<expression>`.
pub fn convert_class(ctx: &Context, c: &Class) -> (r: Node)
    requires
        ctx.wf(),
    ensures
        tree_ok(r, ctx.src()),
        class_shape(r, *c, ctx.src().len() as int),
    decreases c,
{
    let superclass = match &c.super_class {
        Some(Expression::Identifier(n)) => Some(n.name.clone()),
        Some(_) => Some(String::from_str("<expression>")),
        None => None,
    };
    let type_parameters = match &c.type_parameters {
        Some(t) => Some(Box::new(convert_ts_type_parameter_declaration(ctx, t))),
        None => None,
    };
    let body = convert_class_body(ctx, &c.body);
    ctx.node(
        c.span,
        NodeData::ClassDeclaration(
            ClassDeclaration {
                name: name_of(&c.id),
                superclass,
                type_parameters,
                body: Some(Box::new(body)),
            },
        ),
    )
}

/// Converts a class body into a `ClassBody` with one node per member, in
/// order: methods in full, other members by kind and span.
pub fn convert_class_body(ctx: &Context, body: &ClassBodySrc) -> (r: Node)
    requires
        ctx.wf(),
    ensures
        tree_ok(r, ctx.src()),
        class_body_shape(r, *body, ctx.src().len() as int),
    decreases body,
{
    let ghost len = ctx.src().len() as int;
    let mut methods: Vec<Node> = Vec::new();
    let mut i: usize = 0;
    while i < body.elements.len()
        invariant
            ctx.wf(),
            len == ctx.src().len(),
            i <= body.elements.len(),
            methods@.len() == i,
            all_ok(methods@, ctx.src()),
            forall|k: int| 0 <= k < i ==> member_shape(#[trigger] methods@[k], body.elements@[k], len),
        decreases body.elements.len() - i,
    {
        let member = match &body.elements[i] {
            ClassElement::Method { span, key_name, value } => {
                let function_body = match &value.body {
                    Some(b) => Some(Box::new(convert_function_body(ctx, b))),
                    None => None,
                };
                let params = convert_formal_parameters(ctx, &value.params);
                let name = match key_name {
                    Some(s) => Some(s.clone()),
                    None => None,
                };
                ctx.node(
                    *span,
                    NodeData::MethodDefinition(
                        MethodDefinition {
                            name,
                            is_async: value.is_async,
                            is_generator: value.generator,
                            function_body,
                            params,
                        },
                    ),
                )
            },
            ClassElement::Other { span, kind } => {
                let k = match kind {
                    ClassMemberKind::Property => Kind::PropertyDefinition,
                    ClassMemberKind::StaticBlock => Kind::StaticBlock,
                    ClassMemberKind::Accessor => Kind::AccessorProperty,
                    ClassMemberKind::IndexSignature => Kind::TSIndexSignature,
                };
                ctx.generic(*span, k)
            },
        };
        methods.push(member);
        i = i + 1;
    }
    ctx.node(body.span, NodeData::ClassBody(ClassBody { methods }))
}

/// Converts a variable declaration with all its declarators.
pub fn convert_variable_declaration(ctx: &Context, v: &VarDecl) -> (r: Node)
    requires
        ctx.wf(),
    ensures
        tree_ok(r, ctx.src()),
        var_shape(r, *v, ctx.src().len() as int),
    decreases v,
{
    let mut declarations: Vec<Node> = Vec::new();
    let mut i: usize = 0;
    while i < v.declarations.len()
        invariant
            ctx.wf(),
            i <= v.declarations.len(),
            declarations@.len() == i,
            all_ok(declarations@, ctx.src()),
            forall|k: int|
                0 <= k < i ==> declarator_shape(
                    #[trigger] declarations@[k],
                    v.declarations@[k],
                    ctx.src().len() as int,
                ),
        decreases v.declarations.len() - i,
    {
        declarations.push(convert_declarator(ctx, &v.declarations[i]));
        i = i + 1;
    }
    ctx.node(
        v.span,
        NodeData::VariableDeclaration(VariableDeclaration { kind: v.kind, declarations }),
    )
}

fn convert_declarator(ctx: &Context, d: &Declarator) -> (r: Node)
    requires
        ctx.wf(),
    ensures
        tree_ok(r, ctx.src()),
        declarator_shape(r, *d, ctx.src().len() as int),
    decreases d,
{
    let id = match &d.binding {
        Some(n) => Some(Box::new(ctx.identifier(n.span, n.name.clone()))),
        None => None,
    };
    let type_annotation = match &d.type_annotation {
        Some(t) => Some(Box::new(convert_ts_type_annotation(ctx, t))),
        None => None,
    };
    let init = match &d.init {
        Some(e) => Some(Box::new(convert_expression(ctx, e))),
        None => None,
    };
    ctx.node(
        d.span,
        NodeData::VariableDeclarator(VariableDeclarator { id, init, type_annotation }),
    )
}

/// `n` is the conversion of the import specifier `spec`: its names as
/// `Identifier`s at their own spans.
pub open spec fn import_spec_shape(n: Node, spec: ImportSpec, len: int) -> bool {
    match spec {
        ImportSpec::Named { span, imported, local } => n.data is ImportSpecifier && n.span
            == span.clamped(len) && ident_at(*n.data->ImportSpecifier_0.imported, imported, len)
            && ident_at(*n.data->ImportSpecifier_0.local, local, len),
        ImportSpec::Default { span, local } => n.data is ImportDefaultSpecifier && n.span
            == span.clamped(len) && ident_at(*n.data->ImportDefaultSpecifier_0.local, local, len),
        ImportSpec::Namespace { span, local } => n.data is ImportNamespaceSpecifier && n.span
            == span.clamped(len) && ident_at(*n.data->ImportNamespaceSpecifier_0.local, local, len),
    }
}

/// Converts an import specifier; its names become `Identifier`s at their own
/// spans.
pub fn convert_import_specifier(ctx: &Context, spec: &ImportSpec) -> (r: Node)
    requires
        ctx.wf(),
    ensures
        tree_ok(r, ctx.src()),
        import_spec_shape(r, *spec, ctx.src().len() as int),
{
    match spec {
        ImportSpec::Named { span, imported, local } => {
            let local = convert_binding_identifier(ctx, local);
            let imported = ctx.identifier(imported.span, imported.name.clone());
            ctx.node(
                *span,
                NodeData::ImportSpecifier(
                    ImportSpecifier { imported: Box::new(imported), local: Box::new(local) },
                ),
            )
        },
        ImportSpec::Default { span, local } => {
            let local = convert_binding_identifier(ctx, local);
            ctx.node(
                *span,
                NodeData::ImportDefaultSpecifier(ImportDefaultSpecifier { local: Box::new(local) }),
            )
        },
        ImportSpec::Namespace { span, local } => {
            let local = convert_binding_identifier(ctx, local);
            ctx.node(
                *span,
                NodeData::ImportNamespaceSpecifier(
                    ImportNamespaceSpecifier { local: Box::new(local) },
                ),
            )
        },
    }
}

/// Converts an export specifier; both names are shown as `Identifier`s at the
/// specifier's span.
pub fn convert_export_specifier(ctx: &Context, spec: &ExportSpec) -> (r: Node)
    requires
        ctx.wf(),
    ensures
        tree_ok(r, ctx.src()),
        r.data matches NodeData::ExportSpecifier(e) && e.local.data == NodeData::Identifier(
            crate::node::Identifier { name: spec.local },
        ) && e.exported.data == NodeData::Identifier(crate::node::Identifier { name: spec.exported }),
        r.span == spec.span.clamped(ctx.src().len() as int),
{
    let local = ctx.identifier(spec.span, spec.local.clone());
    let exported = ctx.identifier(spec.span, spec.exported.clone());
    ctx.node(
        spec.span,
        NodeData::ExportSpecifier(
            ExportSpecifier { local: Box::new(local), exported: Box::new(exported) },
        ),
    )
}

/// The kind of node the declaration of an `export` becomes.
pub open spec fn declaration_kind(d: Declaration) -> Kind {
    match d {
        Declaration::Function(_) => Kind::FunctionDeclaration,
        Declaration::Class(_) => Kind::ClassDeclaration,
        Declaration::Variable(_) => Kind::VariableDeclaration,
        Declaration::TsInterface(_) => Kind::TSInterfaceDeclaration,
        Declaration::TsTypeAlias(_) => Kind::TSTypeAliasDeclaration,
        Declaration::Other(_) => Kind::Declaration,
    }
}

/// Converts the declaration of an `export` in full; a declaration kind that is
/// not modelled keeps the kind `Declaration`.
fn convert_declaration(ctx: &Context, d: &Declaration) -> (r: Node)
    requires
        ctx.wf(),
    ensures
        tree_ok(r, ctx.src()),
        kind_of(r.data) == declaration_kind(*d),
        declaration_shape(r, *d, ctx.src().len() as int),
    decreases d,
{
    match d {
        Declaration::Function(f) => convert_function(ctx, f),
        Declaration::Class(c) => convert_class(ctx, c),
        Declaration::Variable(v) => convert_variable_declaration(ctx, v),
        Declaration::TsInterface(t) => convert_interface(ctx, t),
        Declaration::TsTypeAlias(t) => convert_type_alias(ctx, t),
        Declaration::Other(span) => ctx.generic(*span, Kind::Declaration),
    }
}

fn convert_type_alias(ctx: &Context, t: &TsTypeAlias) -> (r: Node)
    requires
        ctx.wf(),
    ensures
        tree_ok(r, ctx.src()),
        alias_shape(r, *t, ctx.src().len() as int),
{
    let type_annotation = convert_ts_type(ctx, &t.type_annotation);
    let type_parameters = match &t.type_parameters {
        Some(p) => Some(Box::new(convert_ts_type_parameter_declaration(ctx, p))),
        None => None,
    };
    ctx.node(
        t.span,
        NodeData::TSTypeAliasDeclaration(
            TSTypeAliasDeclaration {
                name: t.id.name.clone(),
                type_annotation: Some(Box::new(type_annotation)),
                type_parameters,
            },
        ),
    )
}

fn convert_interface(ctx: &Context, t: &TsInterface) -> (r: Node)
    requires
        ctx.wf(),
    ensures
        tree_ok(r, ctx.src()),
        interface_shape(r, *t, ctx.src().len() as int),
{
    let body = convert_ts_interface_body(ctx, &t.body);
    let extends = if t.extends.len() == 0 {
        None
    } else {
        let mut list: Vec<Node> = Vec::new();
        let mut i: usize = 0;
        while i < t.extends.len()
            invariant
                ctx.wf(),
                i <= t.extends.len(),
                list@.len() == i,
                all_ok(list@, ctx.src()),
            decreases t.extends.len() - i,
        {
            list.push(convert_ts_interface_heritage(ctx, t.extends[i]));
            i = i + 1;
        }
        Some(list)
    };
    let type_parameters = match &t.type_parameters {
        Some(p) => Some(Box::new(convert_ts_type_parameter_declaration(ctx, p))),
        None => None,
    };
    ctx.node(
        t.span,
        NodeData::TSInterfaceDeclaration(
            TSInterfaceDeclaration {
                name: t.id.name.clone(),
                body: Some(Box::new(body)),
                extends,
                type_parameters,
            },
        ),
    )
}

fn convert_enum(ctx: &Context, t: &TsEnum) -> (r: Node)
    requires
        ctx.wf(),
    ensures
        tree_ok(r, ctx.src()),
        enum_shape(r, *t, ctx.src().len() as int),
{
    let mut members: Vec<Node> = Vec::new();
    let mut i: usize = 0;
    while i < t.members.len()
        invariant
            ctx.wf(),
            i <= t.members.len(),
            members@.len() == i,
            all_ok(members@, ctx.src()),
            forall|k: int|
                0 <= k < i ==> enum_member_shape(
                    #[trigger] members@[k],
                    t.members@[k],
                    ctx.src().len() as int,
                ),
        decreases t.members.len() - i,
    {
        members.push(convert_ts_enum_member(ctx, &t.members[i]));
        i = i + 1;
    }
    ctx.node(
        t.span,
        NodeData::TSEnumDeclaration(
            TSEnumDeclaration { name: t.id.name.clone(), members, is_const: t.is_const },
        ),
    )
}

/// Converts the initializer of a `for`: a declaration is converted in full, an
/// expression keeps the kind `Expression`.
pub fn convert_for_statement_init(ctx: &Context, init: &ForInit) -> (r: Node)
    requires
        ctx.wf(),
    ensures
        tree_ok(r, ctx.src()),
        for_init_shape(r, *init, ctx.src().len() as int),
    decreases init,
{
    match init {
        ForInit::Variable(v) => convert_variable_declaration(ctx, v),
        ForInit::Expression(span) => ctx.generic(*span, Kind::Expression),
    }
}

/// Converts the left side of a `for ... in` or `for ... of`: a declaration is
/// converted in full, an assignment target keeps the kind `AssignmentTarget`.
pub fn convert_for_statement_left(ctx: &Context, left: &ForLeft) -> (r: Node)
    requires
        ctx.wf(),
    ensures
        tree_ok(r, ctx.src()),
        for_left_shape(r, *left, ctx.src().len() as int),
    decreases left,
{
    match left {
        ForLeft::Variable(v) => convert_variable_declaration(ctx, v),
        ForLeft::Target(span) => ctx.generic(*span, Kind::AssignmentTarget),
    }
}

fn convert_switch_cases(ctx: &Context, cases: &Vec<SwitchCaseSrc>) -> (r: Vec<Node>)
    requires
        ctx.wf(),
    ensures
        all_ok(r@, ctx.src()),
        r@.len() == cases@.len(),
        forall|i: int|
            0 <= i < cases@.len() ==> switch_case_shape(#[trigger] r@[i], cases@[i], ctx.src().len() as int),
    decreases cases,
{
    let mut out: Vec<Node> = Vec::new();
    let mut i: usize = 0;
    while i < cases.len()
        invariant
            ctx.wf(),
            i <= cases.len(),
            out@.len() == i,
            all_ok(out@, ctx.src()),
            forall|k: int|
                0 <= k < i ==> switch_case_shape(#[trigger] out@[k], cases@[k], ctx.src().len() as int),
        decreases cases.len() - i,
    {
        out.push(convert_switch_case(ctx, &cases[i]));
        i = i + 1;
    }
    out
}

/// Converts a `case` (or `default`) clause with its statements.
pub fn convert_switch_case(ctx: &Context, case: &SwitchCaseSrc) -> (r: Node)
    requires
        ctx.wf(),
    ensures
        tree_ok(r, ctx.src()),
        switch_case_shape(r, *case, ctx.src().len() as int),
    decreases case,
{
    let test = match &case.test {
        Some(t) => Some(Box::new(convert_expression(ctx, t))),
        None => None,
    };
    let consequent = convert_statements(ctx, &case.consequent);
    ctx.node(case.span, NodeData::SwitchCase(SwitchCase { test, consequent }))
}

/// Converts a `catch` clause; its parameter becomes an `Identifier` named by
/// its binding or, for a destructuring pattern, `param`.
pub fn convert_catch_clause(ctx: &Context, clause: &CatchSrc) -> (r: Node)
    requires
        ctx.wf(),
    ensures
        tree_ok(r, ctx.src()),
        catch_shape(r, *clause, ctx.src().len() as int),
    decreases clause,
{
    let param = match &clause.param {
        Some(p) => {
            let name = match &p.binding {
                Some(n) => n.name.clone(),
                None => String::from_str("param"),
            };
            Some(Box::new(ctx.identifier(p.span, name)))
        },
        None => None,
    };
    let body = convert_block_statement(ctx, &clause.body);
    ctx.node(
        clause.span,
        NodeData::CatchClause(CatchClause { param, body: Some(Box::new(body)) }),
    )
}

/// Converts a block into a `BlockStatement` of its statements.
pub fn convert_block_statement(ctx: &Context, block: &Block) -> (r: Node)
    requires
        ctx.wf(),
    ensures
        tree_ok(r, ctx.src()),
        block_body_shape(r, block.body@, ctx.src().len() as int),
        r.span == block.span.clamped(ctx.src().len() as int),
    decreases block,
{
    let body = convert_statements(ctx, &block.body);
    ctx.node(block.span, NodeData::BlockStatement(BlockStatement { body }))
}

/// Converts a function body into a `BlockStatement` of its statements.
pub fn convert_function_body(ctx: &Context, body: &FunctionBody) -> (r: Node)
    requires
        ctx.wf(),
    ensures
        tree_ok(r, ctx.src()),
        block_body_shape(r, body.statements@, ctx.src().len() as int),
        r.span == body.span.clamped(ctx.src().len() as int),
    decreases body,
{
    let stmts = convert_statements(ctx, &body.statements);
    ctx.node(body.span, NodeData::BlockStatement(BlockStatement { body: stmts }))
}

/// Converts a whole parsed file into its `Program` root.
pub fn convert_program(ctx: &Context, program: &SourceProgram) -> (r: Node)
    requires
        ctx.wf(),
    ensures
        tree_ok(r, ctx.src()),
        r.data is Program,
        r.data->Program_0.body@.len() == program.body@.len(),
        forall|i: int|
            0 <= i < program.body@.len() ==> stmt_at(
                #[trigger] r.data->Program_0.body@[i],
                program.body@[i],
                ctx.src().len() as int,
            ) && stmt_shape(r.data->Program_0.body@[i], program.body@[i], ctx.src().len() as int),
        r.span == program.span.clamped(ctx.src().len() as int),
{
    let body = convert_statements(ctx, &program.body);
    ctx.node(program.span, NodeData::Program(Program { body }))
}

} // verus!
