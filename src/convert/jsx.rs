use vstd::prelude::*;
use vstd::string::StringExecFns;
use crate::node::{
    Node, NodeData, Kind, kind_of, tree_ok, all_ok, JSXIdentifier, JSXMemberExpression, JSXAttribute,
    JSXSpreadAttribute, JSXOpeningElement, JSXClosingElement, JSXText, JSXExpressionContainer,
    JSXElement, JSXFragment,
};
use crate::span::Span;
use crate::syntax::{
    JsxName, JsxMember, JsxMemberObject, JsxAttr, JsxAttrName, JsxAttrValue, JsxAttrItem, JsxOpening,
    JsxClosing, JsxTextSrc, JsxExprContainer, JsxExpr, JsxChild, JsxElem, JsxFrag,
};
use super::{Context, group_all_ok, convert_literal};
use super::expressions::{convert_expression, expr_kind};
use super::typescript::join3;

verus! {

broadcast use {group_all_ok, vstd::std_specs::vec::axiom_vec_index_decreases};

fn jsx_identifier(ctx: &Context, span: Span, name: String) -> (r: Node)
    requires
        ctx.wf(),
    ensures
        tree_ok(r, ctx.src()),
        r.data == NodeData::JSXIdentifier(JSXIdentifier { name }),
        r.span == span.clamped(ctx.src().len() as int),
{
    let data = NodeData::JSXIdentifier(JSXIdentifier { name });
    proof {
        assert(crate::node::children_of(data) =~= Seq::empty());
    }
    ctx.node(span, data)
}

/// The span of an element name.
pub open spec fn jsx_name_span(name: JsxName) -> Span {
    match name {
        JsxName::Identifier(n) => n.span,
        JsxName::Reference(n) => n.span,
        JsxName::Member(m) => m.span,
        JsxName::Namespaced { span, .. } => span,
        JsxName::This(span) => span,
    }
}

/// The text a name that is not a member name is shown by: an identifier as
/// written, a namespaced name as `ns:name`, and `this`.
pub open spec fn jsx_name_text(name: JsxName) -> Seq<char> {
    match name {
        JsxName::Identifier(n) => n.name@,
        JsxName::Reference(n) => n.name@,
        JsxName::Namespaced { namespace, name, .. } => namespace@ + ":"@ + name@,
        JsxName::This(_) => "this"@,
        JsxName::Member(_) => Seq::empty(),
    }
}

/// `n` is the conversion of the element name `name`.
pub open spec fn jsx_name_shape(n: Node, name: JsxName, len: int) -> bool {
    &&& n.span == jsx_name_span(name).clamped(len)
    &&& name is Member ==> n.data is JSXMemberExpression
    &&& !(name is Member) ==> n.data is JSXIdentifier && n.data->JSXIdentifier_0.name@
        == jsx_name_text(name)
}

/// Converts an element name: member names become `JSXMemberExpression`s, all
/// others a `JSXIdentifier` named by `jsx_name_text`, at the name's span.
pub fn convert_jsx_name(ctx: &Context, name: &JsxName) -> (r: Node)
    requires
        ctx.wf(),
    ensures
        tree_ok(r, ctx.src()),
        jsx_name_shape(r, *name, ctx.src().len() as int),
{
    match name {
        JsxName::Identifier(n) => jsx_identifier(ctx, n.span, n.name.clone()),
        JsxName::Reference(n) => jsx_identifier(ctx, n.span, n.name.clone()),
        JsxName::Member(m) => convert_jsx_member_expression(ctx, m),
        JsxName::Namespaced { span, namespace, name } => jsx_identifier(
            ctx,
            *span,
            join3(namespace.as_str(), ":", name.as_str()),
        ),
        JsxName::This(span) => jsx_identifier(ctx, *span, String::from_str("this")),
    }
}

/// Converts a member name `a.b`; an object that is not a plain identifier is
/// shown as `<object>` at its span.
pub fn convert_jsx_member_expression(ctx: &Context, member: &JsxMember) -> (r: Node)
    requires
        ctx.wf(),
    ensures
        tree_ok(r, ctx.src()),
        r.data matches NodeData::JSXMemberExpression(m) && m.property.data
            == NodeData::JSXIdentifier(JSXIdentifier { name: member.property.name }),
        r.span == member.span.clamped(ctx.src().len() as int),
{
    let object = match &member.object {
        JsxMemberObject::Identifier(n) => jsx_identifier(ctx, n.span, n.name.clone()),
        JsxMemberObject::Other(span) => jsx_identifier(ctx, *span, String::from_str("<object>")),
    };
    let property = jsx_identifier(ctx, member.property.span, member.property.name.clone());
    ctx.node(
        member.span,
        NodeData::JSXMemberExpression(
            JSXMemberExpression { object: Box::new(object), property: Box::new(property) },
        ),
    )
}

pub open spec fn attr_name_span(n: JsxAttrName) -> Span {
    match n {
        JsxAttrName::Identifier(x) => x.span,
        JsxAttrName::Namespaced { span, .. } => span,
    }
}

/// The text an attribute name is shown by: as written, or `ns:name`.
pub open spec fn attr_name_text(n: JsxAttrName) -> Seq<char> {
    match n {
        JsxAttrName::Identifier(x) => x.name@,
        JsxAttrName::Namespaced { namespace, name, .. } => namespace@ + ":"@ + name@,
    }
}

/// `n` is the conversion of the attribute value `v`: a string becomes a
/// `Literal` with its value, the others the matching JSX node, at its span.
pub open spec fn attr_value_shape(n: Node, v: JsxAttrValue, len: int) -> bool {
    match v {
        JsxAttrValue::StringLiteral(lit) => n.data is Literal && n.data->Literal_0.value@
            == lit.value@ && n.span == lit.span.clamped(len),
        JsxAttrValue::Container(c) => n.data is JSXExpressionContainer && n.span == c.span.clamped(
            len,
        ),
        JsxAttrValue::Element(e) => n.data is JSXElement && n.span == e.span.clamped(len),
        JsxAttrValue::Fragment(f) => n.data is JSXFragment && n.span == f.span.clamped(len),
    }
}

/// `n` is the conversion of the attribute `attr`.
pub open spec fn attr_shape(n: Node, attr: JsxAttr, len: int) -> bool {
    &&& n.data is JSXAttribute
    &&& n.span == attr.span.clamped(len)
    &&& n.data->JSXAttribute_0.name.data is JSXIdentifier
    &&& n.data->JSXAttribute_0.name.data->JSXIdentifier_0.name@ == attr_name_text(attr.name)
    &&& n.data->JSXAttribute_0.name.span == attr_name_span(attr.name).clamped(len)
    &&& (n.data->JSXAttribute_0.value is Some <==> attr.value is Some)
    &&& (attr.value is Some ==> attr_value_shape(
        *n.data->JSXAttribute_0.value.unwrap(),
        attr.value.unwrap(),
        len,
    ))
}

/// Converts an attribute `name=value`.
pub fn convert_jsx_attribute(ctx: &Context, attr: &JsxAttr) -> (r: Node)
    requires
        ctx.wf(),
    ensures
        tree_ok(r, ctx.src()),
        attr_shape(r, *attr, ctx.src().len() as int),
    decreases attr,
{
    let name = match &attr.name {
        JsxAttrName::Identifier(n) => jsx_identifier(ctx, n.span, n.name.clone()),
        JsxAttrName::Namespaced { span, namespace, name } => jsx_identifier(
            ctx,
            *span,
            join3(namespace.as_str(), ":", name.as_str()),
        ),
    };
    let value = match &attr.value {
        Some(v) => {
            let n = match v {
                JsxAttrValue::StringLiteral(lit) => convert_literal(ctx, lit),
                JsxAttrValue::Container(c) => convert_jsx_expression_container(ctx, c),
                JsxAttrValue::Element(e) => convert_jsx_element(ctx, e),
                JsxAttrValue::Fragment(f) => convert_jsx_fragment(ctx, f),
            };
            Some(Box::new(n))
        },
        None => None,
    };
    ctx.node(attr.span, NodeData::JSXAttribute(JSXAttribute { name: Box::new(name), value }))
}

/// Converts a spread attribute `{...props}`; its argument is shown as an
/// `<expression>` identifier at the argument's span.
pub fn convert_jsx_spread_attribute(ctx: &Context, span: Span, argument: Span) -> (r: Node)
    requires
        ctx.wf(),
    ensures
        tree_ok(r, ctx.src()),
        r.data matches NodeData::JSXSpreadAttribute(a) && a.argument.data is Identifier
            && a.argument.span == argument.clamped(ctx.src().len() as int),
        r.span == span.clamped(ctx.src().len() as int),
{
    let arg = ctx.identifier(argument, String::from_str("<expression>"));
    ctx.node(span, NodeData::JSXSpreadAttribute(JSXSpreadAttribute { argument: Box::new(arg) }))
}

/// Converts an opening tag; whether the element closes itself is the parent's
/// to say.
pub fn convert_jsx_opening_element(ctx: &Context, opening: &JsxOpening, self_closing: bool) -> (r:
    Node)
    requires
        ctx.wf(),
    ensures
        tree_ok(r, ctx.src()),
        r.data matches NodeData::JSXOpeningElement(o) && o.self_closing == self_closing
            && o.attributes@.len() == opening.attributes@.len() && jsx_name_shape(
            *o.name,
            opening.name,
            ctx.src().len() as int,
        ),
        r.span == opening.span.clamped(ctx.src().len() as int),
    decreases opening,
{
    let name = convert_jsx_name(ctx, &opening.name);
    let mut attributes: Vec<Node> = Vec::new();
    let mut i: usize = 0;
    while i < opening.attributes.len()
        invariant
            ctx.wf(),
            i <= opening.attributes.len(),
            attributes@.len() == i,
            all_ok(attributes@, ctx.src()),
        decreases opening.attributes.len() - i,
    {
        let n = match &opening.attributes[i] {
            JsxAttrItem::Attribute(a) => convert_jsx_attribute(ctx, a),
            JsxAttrItem::Spread { span, argument } => convert_jsx_spread_attribute(
                ctx,
                *span,
                *argument,
            ),
        };
        attributes.push(n);
        i = i + 1;
    }
    ctx.node(
        opening.span,
        NodeData::JSXOpeningElement(
            JSXOpeningElement { name: Box::new(name), attributes, self_closing },
        ),
    )
}

/// Converts a closing tag.
pub fn convert_jsx_closing_element(ctx: &Context, closing: &JsxClosing) -> (r: Node)
    requires
        ctx.wf(),
    ensures
        tree_ok(r, ctx.src()),
        r.data is JSXClosingElement,
        jsx_name_shape(*r.data->JSXClosingElement_0.name, closing.name, ctx.src().len() as int),
        r.span == closing.span.clamped(ctx.src().len() as int),
{
    let name = convert_jsx_name(ctx, &closing.name);
    ctx.node(closing.span, NodeData::JSXClosingElement(JSXClosingElement { name: Box::new(name) }))
}

/// Converts text between tags; without raw text the value stands for it.
pub fn convert_jsx_text(ctx: &Context, text: &JsxTextSrc) -> (r: Node)
    requires
        ctx.wf(),
    ensures
        tree_ok(r, ctx.src()),
        r.data matches NodeData::JSXText(t) && t.value@ == text.value@ && (text.raw matches Some(
            raw,
        ) ==> t.raw@ == raw@) && (text.raw is None ==> t.raw@ == text.value@),
        r.span == text.span.clamped(ctx.src().len() as int),
{
    let raw = match &text.raw {
        Some(r) => r.clone(),
        None => text.value.clone(),
    };
    let data = NodeData::JSXText(JSXText { value: text.value.clone(), raw });
    proof {
        assert(crate::node::children_of(data) =~= Seq::empty());
    }
    ctx.node(text.span, data)
}

/// Converts `{expression}`; an empty container holds an `<empty>` identifier.
pub fn convert_jsx_expression_container(ctx: &Context, container: &JsxExprContainer) -> (r: Node)
    requires
        ctx.wf(),
    ensures
        tree_ok(r, ctx.src()),
        r.data matches NodeData::JSXExpressionContainer(c) && (container.expression matches JsxExpr::Expression(e) ==> 
            kind_of(c.expression.data) == super::expressions::expr_kind(e)),
        r.span == container.span.clamped(ctx.src().len() as int),
    decreases container,
{
    let expression = match &container.expression {
        JsxExpr::Empty(span) => ctx.identifier(*span, String::from_str("<empty>")),
        JsxExpr::Expression(e) => convert_expression(ctx, e),
    };
    ctx.node(
        container.span,
        NodeData::JSXExpressionContainer(JSXExpressionContainer { expression: Box::new(expression) }),
    )
}

/// The span of a child between tags.
pub open spec fn jsx_child_span(c: JsxChild) -> Span {
    match c {
        JsxChild::Element(e) => e.span,
        JsxChild::Fragment(f) => f.span,
        JsxChild::Text(t) => t.span,
        JsxChild::Container(x) => x.span,
        JsxChild::Spread(span) => span,
    }
}

/// `n` is the conversion of the child `c`: an element or fragment with one node
/// per child, text with its value, a container holding its expression, and a
/// spread child as a container holding a `<spread>` identifier at its span.
pub open spec fn jsx_child_shape(n: Node, c: JsxChild, len: int) -> bool {
    &&& n.span == jsx_child_span(c).clamped(len)
    &&& match c {
        JsxChild::Element(e) => n.data is JSXElement && n.data->JSXElement_0.children@.len()
            == e.children@.len() && (n.data->JSXElement_0.closing_element is Some
            <==> e.closing is Some),
        JsxChild::Fragment(f) => n.data is JSXFragment && n.data->JSXFragment_0.children@.len()
            == f.children@.len(),
        JsxChild::Text(t) => n.data is JSXText && n.data->JSXText_0.value@ == t.value@,
        JsxChild::Container(x) => n.data is JSXExpressionContainer && (x.expression matches JsxExpr::Expression(e) ==> 
            kind_of(n.data->JSXExpressionContainer_0.expression.data) == expr_kind(e)),
        JsxChild::Spread(span) => n.data is JSXExpressionContainer
            && n.data->JSXExpressionContainer_0.expression.data is Identifier
            && n.data->JSXExpressionContainer_0.expression.data->Identifier_0.name@ == "<spread>"@
            && n.data->JSXExpressionContainer_0.expression.span == span.clamped(len),
    }
}

/// Converts a child between tags; a spread child `{...items}` becomes an
/// expression container holding a `<spread>` identifier.
pub fn convert_jsx_child(ctx: &Context, child: &JsxChild) -> (r: Node)
    requires
        ctx.wf(),
    ensures
        tree_ok(r, ctx.src()),
        jsx_child_shape(r, *child, ctx.src().len() as int),
    decreases child,
{
    match child {
        JsxChild::Element(e) => convert_jsx_element(ctx, e),
        JsxChild::Fragment(f) => convert_jsx_fragment(ctx, f),
        JsxChild::Text(t) => convert_jsx_text(ctx, t),
        JsxChild::Container(c) => convert_jsx_expression_container(ctx, c),
        JsxChild::Spread(span) => {
            let inner = ctx.identifier(*span, String::from_str("<spread>"));
            ctx.node(
                *span,
                NodeData::JSXExpressionContainer(
                    JSXExpressionContainer { expression: Box::new(inner) },
                ),
            )
        },
    }
}

fn convert_jsx_children(ctx: &Context, children: &Vec<JsxChild>) -> (r: Vec<Node>)
    requires
        ctx.wf(),
    ensures
        all_ok(r@, ctx.src()),
        r@.len() == children@.len(),
    decreases children,
{
    let mut out: Vec<Node> = Vec::new();
    let mut i: usize = 0;
    while i < children.len()
        invariant
            ctx.wf(),
            i <= children.len(),
            out@.len() == i,
            all_ok(out@, ctx.src()),
        decreases children.len() - i,
    {
        out.push(convert_jsx_child(ctx, &children[i]));
        i = i + 1;
    }
    out
}

/// Converts an element; it closes itself exactly when it has no closing tag.
pub fn convert_jsx_element(ctx: &Context, element: &JsxElem) -> (r: Node)
    requires
        ctx.wf(),
    ensures
        tree_ok(r, ctx.src()),
        r.data matches NodeData::JSXElement(e) && e.children@.len() == element.children@.len() && (
        e.closing_element is Some <==> element.closing is Some) && (e.opening_element.data matches NodeData::JSXOpeningElement(
            o,
        ) && o.self_closing == (element.closing is None)),
        r.span == element.span.clamped(ctx.src().len() as int),
    decreases element,
{
    let self_closing = element.closing.is_none();
    let opening = convert_jsx_opening_element(ctx, &element.opening, self_closing);
    let children = convert_jsx_children(ctx, &element.children);
    let closing = match &element.closing {
        Some(c) => Some(Box::new(convert_jsx_closing_element(ctx, c))),
        None => None,
    };
    ctx.node(
        element.span,
        NodeData::JSXElement(
            JSXElement { opening_element: Box::new(opening), children, closing_element: closing },
        ),
    )
}

/// Converts a fragment `<>...</>`.
pub fn convert_jsx_fragment(ctx: &Context, fragment: &JsxFrag) -> (r: Node)
    requires
        ctx.wf(),
    ensures
        tree_ok(r, ctx.src()),
        r.data matches NodeData::JSXFragment(f) && f.children@.len() == fragment.children@.len(),
        r.span == fragment.span.clamped(ctx.src().len() as int),
    decreases fragment,
{
    let children = convert_jsx_children(ctx, &fragment.children);
    ctx.node(fragment.span, NodeData::JSXFragment(JSXFragment { children }))
}

} // verus!
