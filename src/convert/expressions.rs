use vstd::prelude::*;
use vstd::string::StringExecFns;
use crate::node::{
    Node, NodeData, Kind, kind_of, tree_ok, all_ok, ArrowFunctionExpression, ConditionalExpression,
    BinaryExpression, CallExpression, MemberExpression, ObjectExpression, ArrayExpression,
};
use crate::span::Span;
use crate::syntax::{
    Expression, ExprForm, LogicalOp, BinaryOp, Argument, ObjectProp, ArrayElem, Arrow, Param, Statement,
    expr_span,
};
use super::{Context, group_all_ok};
use super::jsx::{convert_jsx_element, convert_jsx_fragment};
use super::statements::{
    convert_function, convert_function_body, block_body_shape, function_shape, ident_at, expr_child,
};

verus! {

broadcast use {group_all_ok, vstd::std_specs::vec::axiom_vec_index_decreases};

/// The kind an expression that is kept by kind alone is given.
pub open spec fn form_kind(f: ExprForm) -> Kind {
    match f {
        ExprForm::NumericLiteral => Kind::NumericLiteral,
        ExprForm::StringLiteral => Kind::StringLiteral,
        ExprForm::BooleanLiteral => Kind::BooleanLiteral,
        ExprForm::NullLiteral => Kind::NullLiteral,
        ExprForm::Unary => Kind::UnaryExpression,
        ExprForm::Update => Kind::UpdateExpression,
        ExprForm::PrivateField => Kind::MemberExpression,
        ExprForm::New => Kind::NewExpression,
        ExprForm::This => Kind::ThisExpression,
        ExprForm::TemplateLiteral => Kind::TemplateLiteral,
        ExprForm::TaggedTemplate => Kind::TaggedTemplateExpression,
        ExprForm::Await => Kind::AwaitExpression,
        ExprForm::Yield => Kind::YieldExpression,
        ExprForm::Unlisted => Kind::Expression,
    }
}

fn form_kind_of(f: &ExprForm) -> (r: Kind)
    ensures
        r == form_kind(*f),
{
    match f {
        ExprForm::NumericLiteral => Kind::NumericLiteral,
        ExprForm::StringLiteral => Kind::StringLiteral,
        ExprForm::BooleanLiteral => Kind::BooleanLiteral,
        ExprForm::NullLiteral => Kind::NullLiteral,
        ExprForm::Unary => Kind::UnaryExpression,
        ExprForm::Update => Kind::UpdateExpression,
        ExprForm::PrivateField => Kind::MemberExpression,
        ExprForm::New => Kind::NewExpression,
        ExprForm::This => Kind::ThisExpression,
        ExprForm::TemplateLiteral => Kind::TemplateLiteral,
        ExprForm::TaggedTemplate => Kind::TaggedTemplateExpression,
        ExprForm::Await => Kind::AwaitExpression,
        ExprForm::Yield => Kind::YieldExpression,
        ExprForm::Unlisted => Kind::Expression,
    }
}

/// The kind of node an expression becomes. Parentheses are dropped; logical
/// expressions become `BinaryExpression`s and function expressions
/// `FunctionDeclaration`s.
pub open spec fn expr_kind(e: Expression) -> Kind
    decreases e,
{
    match e {
        Expression::JsxElement(_) => Kind::JSXElement,
        Expression::JsxFragment(_) => Kind::JSXFragment,
        Expression::Arrow(_) => Kind::ArrowFunctionExpression,
        Expression::Conditional { .. } => Kind::ConditionalExpression,
        Expression::Logical { .. } => Kind::BinaryExpression,
        Expression::Call { .. } => Kind::CallExpression,
        Expression::StaticMember { .. } => Kind::MemberExpression,
        Expression::ComputedMember { .. } => Kind::MemberExpression,
        Expression::Parenthesized { expression, .. } => expr_kind(*expression),
        Expression::Sequence(_) => Kind::SequenceExpression,
        Expression::Object { .. } => Kind::ObjectExpression,
        Expression::Array { .. } => Kind::ArrayExpression,
        Expression::Binary { .. } => Kind::BinaryExpression,
        Expression::Assignment(_) => Kind::AssignmentExpression,
        Expression::Function(_) => Kind::FunctionDeclaration,
        Expression::Identifier(_) => Kind::Identifier,
        Expression::Other { form, .. } => form_kind(form),
    }
}

/// The span of the node an expression becomes: that of the expression inside
/// any parentheses.
pub open spec fn converted_span(e: Expression) -> Span
    decreases e,
{
    match e {
        Expression::Parenthesized { expression, .. } => converted_span(*expression),
        _ => expr_span(e),
    }
}

/// The expression of a concise arrow body: the expression statement that the
/// parser holds as the body's first statement.
pub open spec fn arrow_expression_body(a: Arrow) -> Option<Expression> {
    if a.body.statements@.len() > 0 {
        match a.body.statements@[0] {
            Statement::Expression { expression, .. } => Some(expression),
            _ => None,
        }
    } else {
        None
    }
}

/// `f` is the conversion of the arrow function `a`: same parameters and
/// `async`, a concise body converted as its expression, a block body as a
/// `BlockStatement` with one node per statement.
pub open spec fn arrow_converted(f: ArrowFunctionExpression, a: Arrow, len: int) -> bool {
    &&& f.params@.len() == a.params@.len()
    &&& f.is_async == a.is_async
    &&& (a.expression && arrow_expression_body(a) is Some) ==> (f.body is Some && stands_for(
        *f.body.unwrap(),
        arrow_expression_body(a).unwrap(),
        len,
    ))
    &&& !a.expression ==> (f.body is Some && block_body_shape(
        *f.body.unwrap(),
        a.body.statements@,
        len,
    ))
}

/// A converted expression `n` stands for `e`: it has the kind and span that
/// conversion gives `e`.
pub open spec fn stands_for(n: Node, e: Expression, len: int) -> bool {
    &&& kind_of(n.data) == expr_kind(e)
    &&& n.span == converted_span(e).clamped(len)
}

/// The operator text of a logical expression.
pub open spec fn logical_text(op: LogicalOp) -> Seq<char> {
    match op {
        LogicalOp::And => "&&"@,
        LogicalOp::Or => "||"@,
        LogicalOp::Coalesce => "??"@,
    }
}

/// The source symbol of a binary operator.
pub open spec fn binary_text(op: BinaryOp) -> Seq<char> {
    match op {
        BinaryOp::Equality => "=="@,
        BinaryOp::Inequality => "!="@,
        BinaryOp::StrictEquality => "==="@,
        BinaryOp::StrictInequality => "!=="@,
        BinaryOp::LessThan => "<"@,
        BinaryOp::LessEqualThan => "<="@,
        BinaryOp::GreaterThan => ">"@,
        BinaryOp::GreaterEqualThan => ">="@,
        BinaryOp::Addition => "+"@,
        BinaryOp::Subtraction => "-"@,
        BinaryOp::Multiplication => "*"@,
        BinaryOp::Division => "/"@,
        BinaryOp::Remainder => "%"@,
        BinaryOp::Exponential => "**"@,
        BinaryOp::ShiftLeft => "<<"@,
        BinaryOp::ShiftRight => ">>"@,
        BinaryOp::ShiftRightZeroFill => ">>>"@,
        BinaryOp::BitwiseOr => "|"@,
        BinaryOp::BitwiseXor => "^"@,
        BinaryOp::BitwiseAnd => "&"@,
        BinaryOp::In => "in"@,
        BinaryOp::Instanceof => "instanceof"@,
    }
}

/// The source symbol of a binary operator.
pub fn binary_symbol(op: &BinaryOp) -> (r: String)
    ensures
        r@ == binary_text(*op),
{
    match op {
        BinaryOp::Equality => String::from_str("=="),
        BinaryOp::Inequality => String::from_str("!="),
        BinaryOp::StrictEquality => String::from_str("==="),
        BinaryOp::StrictInequality => String::from_str("!=="),
        BinaryOp::LessThan => String::from_str("<"),
        BinaryOp::LessEqualThan => String::from_str("<="),
        BinaryOp::GreaterThan => String::from_str(">"),
        BinaryOp::GreaterEqualThan => String::from_str(">="),
        BinaryOp::Addition => String::from_str("+"),
        BinaryOp::Subtraction => String::from_str("-"),
        BinaryOp::Multiplication => String::from_str("*"),
        BinaryOp::Division => String::from_str("/"),
        BinaryOp::Remainder => String::from_str("%"),
        BinaryOp::Exponential => String::from_str("**"),
        BinaryOp::ShiftLeft => String::from_str("<<"),
        BinaryOp::ShiftRight => String::from_str(">>"),
        BinaryOp::ShiftRightZeroFill => String::from_str(">>>"),
        BinaryOp::BitwiseOr => String::from_str("|"),
        BinaryOp::BitwiseXor => String::from_str("^"),
        BinaryOp::BitwiseAnd => String::from_str("&"),
        BinaryOp::In => String::from_str("in"),
        BinaryOp::Instanceof => String::from_str("instanceof"),
    }
}

/// The expression a call argument stands as.
pub open spec fn arg_expr(a: Argument) -> Expression {
    match a {
        Argument::Spread(e) => e,
        Argument::Plain(e) => e,
    }
}

/// What the node of an expression keeps of it: operators, names, children's
/// kinds and spans, counts of arguments, properties and (non-hole) elements,
/// the conversion of functions and arrow bodies; a construct kept by kind
/// alone has no payload.
pub open spec fn expr_shape(n: Node, e: Expression, len: int) -> bool
    decreases e,
{
    match e {
        Expression::JsxElement(x) => n.data is JSXElement
            && n.data->JSXElement_0.children@.len() == x.children@.len(),
        Expression::JsxFragment(x) => n.data is JSXFragment
            && n.data->JSXFragment_0.children@.len() == x.children@.len(),
        Expression::Arrow(a) => n.data is ArrowFunctionExpression && arrow_converted(
            n.data->ArrowFunctionExpression_0,
            *a,
            len,
        ),
        Expression::Conditional { test, consequent, alternate, .. } => n.data is ConditionalExpression
            && expr_child(n.data->ConditionalExpression_0.test, *test, len) && expr_child(
            n.data->ConditionalExpression_0.consequent,
            *consequent,
            len,
        ) && expr_child(n.data->ConditionalExpression_0.alternate, *alternate, len),
        Expression::Logical { operator, left, right, .. } => n.data is BinaryExpression
            && n.data->BinaryExpression_0.operator@ == logical_text(operator) && expr_child(
            n.data->BinaryExpression_0.left,
            *left,
            len,
        ) && expr_child(n.data->BinaryExpression_0.right, *right, len),
        Expression::Call { callee, arguments, .. } => n.data is CallExpression && expr_child(
            n.data->CallExpression_0.callee,
            *callee,
            len,
        ) && n.data->CallExpression_0.arguments@.len() == arguments@.len() && forall|i: int|
            0 <= i < arguments@.len() ==> stands_for(
                #[trigger] n.data->CallExpression_0.arguments@[i],
                arg_expr(arguments@[i]),
                len,
            ),
        Expression::StaticMember { object, property, .. } => n.data is MemberExpression
            && !n.data->MemberExpression_0.computed && expr_child(
            n.data->MemberExpression_0.object,
            *object,
            len,
        ) && n.data->MemberExpression_0.property is Some && ident_at(
            *n.data->MemberExpression_0.property.unwrap(),
            property,
            len,
        ),
        Expression::ComputedMember { object, expression, .. } => n.data is MemberExpression
            && n.data->MemberExpression_0.computed && expr_child(
            n.data->MemberExpression_0.object,
            *object,
            len,
        ) && expr_child(n.data->MemberExpression_0.property, *expression, len),
        Expression::Parenthesized { expression, .. } => expr_shape(n, *expression, len),
        Expression::Sequence(_) => n.data == NodeData::Generic(Kind::SequenceExpression),
        Expression::Object { properties, .. } => n.data is ObjectExpression
            && n.data->ObjectExpression_0.properties@.len() == properties@.len() && forall|i: int|
            0 <= i < properties@.len() ==> stands_for(
                #[trigger] n.data->ObjectExpression_0.properties@[i],
                prop_expr(properties@[i]),
                len,
            ),
        Expression::Array { elements, .. } => n.data is ArrayExpression
            && n.data->ArrayExpression_0.elements@.len() == present_exprs(elements@).len()
            && forall|i: int|
            0 <= i < present_exprs(elements@).len() ==> stands_for(
                #[trigger] n.data->ArrayExpression_0.elements@[i],
                present_exprs(elements@)[i],
                len,
            ),
        Expression::Binary { operator, left, right, .. } => n.data is BinaryExpression
            && n.data->BinaryExpression_0.operator@ == binary_text(operator) && expr_child(
            n.data->BinaryExpression_0.left,
            *left,
            len,
        ) && expr_child(n.data->BinaryExpression_0.right, *right, len),
        Expression::Assignment(_) => n.data == NodeData::Generic(Kind::AssignmentExpression),
        Expression::Function(f) => function_shape(n, *f, len),
        Expression::Identifier(x) => ident_at(n, x, len),
        Expression::Other { form, .. } => n.data == NodeData::Generic(form_kind(form)),
    }
}

/// Converts an expression. Each modelled construct keeps its structure; the
/// others keep their kind and span.
#[verifier::rlimit(60)]
pub fn convert_expression(ctx: &Context, expr: &Expression) -> (r: Node)
    requires
        ctx.wf(),
    ensures
        tree_ok(r, ctx.src()),
        stands_for(r, *expr, ctx.src().len() as int),
        expr_shape(r, *expr, ctx.src().len() as int),
    decreases expr,
{
    match expr {
        Expression::JsxElement(x) => convert_jsx_element(ctx, x),
        Expression::JsxFragment(x) => convert_jsx_fragment(ctx, x),
        Expression::Arrow(a) => {
            let params = param_identifiers(ctx, &a.params);
            let body = if a.expression {
                if a.body.statements.len() > 0 {
                    match &a.body.statements[0] {
                        Statement::Expression { expression, .. } => {
                            proof {
                                assert(decreases_to!(a.body.statements => a.body.statements[0]));
                            }
                            Some(Box::new(convert_expression(ctx, expression)))
                        },
                        _ => None,
                    }
                } else {
                    None
                }
            } else {
                Some(Box::new(convert_function_body(ctx, &a.body)))
            };
            ctx.node(
                a.span,
                NodeData::ArrowFunctionExpression(
                    ArrowFunctionExpression {
                        params,
                        body,
                        is_async: a.is_async,
                        is_generator: false,
                    },
                ),
            )
        },
        Expression::Conditional { span, test, consequent, alternate } => {
            let test = convert_expression(ctx, test);
            let consequent = convert_expression(ctx, consequent);
            let alternate = convert_expression(ctx, alternate);
            ctx.node(
                *span,
                NodeData::ConditionalExpression(
                    ConditionalExpression {
                        test: Some(Box::new(test)),
                        consequent: Some(Box::new(consequent)),
                        alternate: Some(Box::new(alternate)),
                    },
                ),
            )
        },
        Expression::Logical { span, operator, left, right } => {
            let left = convert_expression(ctx, left);
            let right = convert_expression(ctx, right);
            let op_text = match operator {
                LogicalOp::And => String::from_str("&&"),
                LogicalOp::Or => String::from_str("||"),
                LogicalOp::Coalesce => String::from_str("??"),
            };
            proof {
                assert(op_text@ == logical_text(*operator));
            }
            ctx.node(
                *span,
                NodeData::BinaryExpression(
                    BinaryExpression {
                        left: Some(Box::new(left)),
                        operator: op_text,
                        right: Some(Box::new(right)),
                    },
                ),
            )
        },
        Expression::Call { span, callee, arguments } => {
            let callee = convert_expression(ctx, callee);
            let arguments = convert_arguments(ctx, arguments);
            ctx.node(
                *span,
                NodeData::CallExpression(CallExpression { callee: Some(Box::new(callee)), arguments }),
            )
        },
        Expression::StaticMember { span, object, property } => {
            let object = convert_expression(ctx, object);
            let property = ctx.identifier(property.span, property.name.clone());
            ctx.node(
                *span,
                NodeData::MemberExpression(
                    MemberExpression {
                        object: Some(Box::new(object)),
                        property: Some(Box::new(property)),
                        computed: false,
                    },
                ),
            )
        },
        Expression::ComputedMember { span, object, expression } => {
            let object = convert_expression(ctx, object);
            let property = convert_expression(ctx, expression);
            ctx.node(
                *span,
                NodeData::MemberExpression(
                    MemberExpression {
                        object: Some(Box::new(object)),
                        property: Some(Box::new(property)),
                        computed: true,
                    },
                ),
            )
        },
        Expression::Parenthesized { expression, .. } => convert_expression(ctx, expression),
        Expression::Sequence(span) => ctx.generic(*span, Kind::SequenceExpression),
        Expression::Object { span, properties } => {
            let properties = convert_object_properties(ctx, properties);
            ctx.node(*span, NodeData::ObjectExpression(ObjectExpression { properties }))
        },
        Expression::Array { span, elements } => {
            let elements = convert_array_elements(ctx, elements);
            ctx.node(*span, NodeData::ArrayExpression(ArrayExpression { elements }))
        },
        Expression::Binary { span, operator, left, right } => {
            let left = convert_expression(ctx, left);
            let right = convert_expression(ctx, right);
            ctx.node(
                *span,
                NodeData::BinaryExpression(
                    BinaryExpression {
                        left: Some(Box::new(left)),
                        operator: binary_symbol(operator),
                        right: Some(Box::new(right)),
                    },
                ),
            )
        },
        Expression::Assignment(span) => ctx.generic(*span, Kind::AssignmentExpression),
        Expression::Function(f) => convert_function(ctx, f),
        Expression::Identifier(n) => ctx.identifier(n.span, n.name.clone()),
        Expression::Other { span, form } => ctx.generic(*span, form_kind_of(form)),
    }
}

/// The parameters of an arrow function as `Identifier`s, named by their binding
/// or, for a destructuring pattern, `param`.
fn param_identifiers(ctx: &Context, params: &Vec<Param>) -> (r: Vec<Node>)
    requires
        ctx.wf(),
    ensures
        all_ok(r@, ctx.src()),
        r@.len() == params@.len(),
{
    let mut out: Vec<Node> = Vec::new();
    let mut i: usize = 0;
    while i < params.len()
        invariant
            ctx.wf(),
            i <= params.len(),
            out@.len() == i,
            all_ok(out@, ctx.src()),
        decreases params.len() - i,
    {
        let p = &params[i];
        let name = match &p.binding {
            Some(n) => n.name.clone(),
            None => String::from_str("param"),
        };
        out.push(ctx.identifier(p.span, name));
        i = i + 1;
    }
    out
}

/// Call arguments; a spread argument stands as the expression it spreads.
fn convert_arguments(ctx: &Context, args: &Vec<Argument>) -> (r: Vec<Node>)
    requires
        ctx.wf(),
    ensures
        all_ok(r@, ctx.src()),
        r@.len() == args@.len(),
        forall|i: int|
            0 <= i < args@.len() ==> stands_for(#[trigger] r@[i], arg_expr(args@[i]), ctx.src().len() as int),
    decreases args,
{
    let mut out: Vec<Node> = Vec::new();
    let mut i: usize = 0;
    while i < args.len()
        invariant
            ctx.wf(),
            i <= args.len(),
            out@.len() == i,
            all_ok(out@, ctx.src()),
            forall|k: int|
                0 <= k < i ==> stands_for(#[trigger] out@[k], arg_expr(args@[k]), ctx.src().len() as int),
        decreases args.len() - i,
    {
        let n = match &args[i] {
            Argument::Spread(e) => convert_expression(ctx, e),
            Argument::Plain(e) => convert_expression(ctx, e),
        };
        out.push(n);
        i = i + 1;
    }
    out
}

/// Object properties, each by its value; a spread stands as what it spreads.
fn convert_object_properties(ctx: &Context, props: &Vec<ObjectProp>) -> (r: Vec<Node>)
    requires
        ctx.wf(),
    ensures
        all_ok(r@, ctx.src()),
        r@.len() == props@.len(),
        forall|i: int|
            0 <= i < props@.len() ==> stands_for(#[trigger] r@[i], prop_expr(props@[i]), ctx.src().len() as int),
    decreases props,
{
    let mut out: Vec<Node> = Vec::new();
    let mut i: usize = 0;
    while i < props.len()
        invariant
            ctx.wf(),
            i <= props.len(),
            out@.len() == i,
            all_ok(out@, ctx.src()),
            forall|k: int|
                0 <= k < i ==> stands_for(#[trigger] out@[k], prop_expr(props@[k]), ctx.src().len() as int),
        decreases props.len() - i,
    {
        let n = match &props[i] {
            ObjectProp::Property(e) => convert_expression(ctx, e),
            ObjectProp::Spread(e) => convert_expression(ctx, e),
        };
        out.push(n);
        i = i + 1;
    }
    out
}

/// The expression an object property stands as: its value, or what a spread
/// spreads.
pub open spec fn prop_expr(p: ObjectProp) -> Expression {
    match p {
        ObjectProp::Property(e) => e,
        ObjectProp::Spread(e) => e,
    }
}

/// The expressions of an array literal that are not holes, in order; a spread
/// stands as what it spreads.
pub open spec fn present_exprs(elems: Seq<ArrayElem>) -> Seq<Expression>
    decreases elems.len(),
{
    if elems.len() == 0 {
        Seq::empty()
    } else {
        present_exprs(elems.drop_last()) + match elems.last() {
            ArrayElem::Spread(e) => seq![e],
            ArrayElem::Plain(e) => seq![e],
            ArrayElem::Elision(_) => Seq::empty(),
        }
    }
}

/// Array elements; holes are left out and a spread stands as what it spreads.
fn convert_array_elements(ctx: &Context, elems: &Vec<ArrayElem>) -> (r: Vec<Node>)
    requires
        ctx.wf(),
    ensures
        all_ok(r@, ctx.src()),
        r@.len() == present_exprs(elems@).len(),
        forall|i: int|
            0 <= i < r@.len() ==> stands_for(#[trigger] r@[i], present_exprs(elems@)[i], ctx.src().len() as int),
    decreases elems,
{
    let mut out: Vec<Node> = Vec::new();
    let mut i: usize = 0;
    while i < elems.len()
        invariant
            ctx.wf(),
            i <= elems.len(),
            out@.len() == present_exprs(elems@.subrange(0, i as int)).len(),
            all_ok(out@, ctx.src()),
            forall|k: int|
                0 <= k < out@.len() ==> stands_for(
                    #[trigger] out@[k],
                    present_exprs(elems@.subrange(0, i as int))[k],
                    ctx.src().len() as int,
                ),
        decreases elems.len() - i,
    {
        proof {
            assert(elems@.subrange(0, i + 1).drop_last() =~= elems@.subrange(0, i as int));
        }
        match &elems[i] {
            ArrayElem::Spread(e) => {
                out.push(convert_expression(ctx, e));
            },
            ArrayElem::Elision(_) => {},
            ArrayElem::Plain(e) => {
                out.push(convert_expression(ctx, e));
            },
        }
        i = i + 1;
    }
    proof {
        assert(elems@.subrange(0, elems@.len() as int) =~= elems@);
    }
    out
}

} // verus!
