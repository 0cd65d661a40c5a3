use vstd::prelude::*;
use vstd::string::StringExecFns;
use crate::node::{
    Node, NodeData, Kind, kind_of, tree_ok, all_ok, TSTypeReference, TSUnionType,
    TSIntersectionType, TSTypeAnnotation, TSTypeParameterDeclaration, TSTypeParameter,
    TSInterfaceBody, TSPropertySignature, TSMethodSignature, TSEnumMember,
};
use crate::span::Span;
use crate::syntax::{
    TsType, TsTypeName, TsKeyword, TsTypeAnn, TsTypeParamDecl, TsTypeParam, TsTypeParamInst,
    TsInterfaceBodySrc, TsSignature, PropertyKey, KeyForm, TsEnumMemberSrc, EnumMemberName,
    Expression, ExprForm, ts_type_span, signature_span, expr_span,
};
use super::{Context, group_all_ok};

verus! {

broadcast use {group_all_ok, vstd::std_specs::vec::axiom_vec_index_decreases};

/// `a`, then `sep`, then `b`.
pub fn join3(a: &str, sep: &str, b: &str) -> (r: String)
    ensures
        r@ == a@ + sep@ + b@,
{
    let mut s = String::from_str(a);
    s.append(sep);
    s.append(b);
    s
}

pub open spec fn keyword_kind(k: TsKeyword) -> Kind {
    match k {
        TsKeyword::Any => Kind::TSAnyKeyword,
        TsKeyword::Boolean => Kind::TSBooleanKeyword,
        TsKeyword::Never => Kind::TSNeverKeyword,
        TsKeyword::Null => Kind::TSNullKeyword,
        TsKeyword::Number => Kind::TSNumberKeyword,
        TsKeyword::String => Kind::TSStringKeyword,
        TsKeyword::Undefined => Kind::TSUndefinedKeyword,
        TsKeyword::Unknown => Kind::TSUnknownKeyword,
        TsKeyword::Void => Kind::TSVoidKeyword,
    }
}

fn keyword_kind_of(k: &TsKeyword) -> (r: Kind)
    ensures
        r == keyword_kind(*k),
{
    match k {
        TsKeyword::Any => Kind::TSAnyKeyword,
        TsKeyword::Boolean => Kind::TSBooleanKeyword,
        TsKeyword::Never => Kind::TSNeverKeyword,
        TsKeyword::Null => Kind::TSNullKeyword,
        TsKeyword::Number => Kind::TSNumberKeyword,
        TsKeyword::String => Kind::TSStringKeyword,
        TsKeyword::Undefined => Kind::TSUndefinedKeyword,
        TsKeyword::Unknown => Kind::TSUnknownKeyword,
        TsKeyword::Void => Kind::TSVoidKeyword,
    }
}

/// The kind of node a type becomes: references, unions and intersections keep
/// their structure, keywords their own kind, and anything else is `TSType`.
pub open spec fn ts_type_kind(t: TsType) -> Kind {
    match t {
        TsType::Reference { .. } => Kind::TSTypeReference,
        TsType::Union { .. } => Kind::TSUnionType,
        TsType::Intersection { .. } => Kind::TSIntersectionType,
        TsType::Keyword { keyword, .. } => keyword_kind(keyword),
        TsType::Other(_) => Kind::TSType,
    }
}

/// `n` is the conversion of the type `t`: a reference keeps its name, a union
/// or intersection one node per member type, and any other type is a node of
/// its kind with no payload.
pub open spec fn ts_type_shape(n: Node, t: TsType, len: int) -> bool {
    &&& kind_of(n.data) == ts_type_kind(t)
    &&& n.span == ts_type_span(t).clamped(len)
    &&& match t {
        TsType::Reference { name, type_arguments, .. } => n.data is TSTypeReference && (
        n.data->TSTypeReference_0.type_ref_name is Some <==> !(name is Other)) && (
        n.data->TSTypeReference_0.type_parameters is Some <==> type_arguments is Some) && (
        name matches TsTypeName::Identifier(x) ==> n.data->TSTypeReference_0.type_ref_name.unwrap().data
            == NodeData::Identifier(crate::node::Identifier { name: x.name })),
        TsType::Union { types, .. } => n.data is TSUnionType && n.data->TSUnionType_0.types@.len()
            == types@.len() && forall|i: int|
            0 <= i < types@.len() ==> kind_of(#[trigger] n.data->TSUnionType_0.types@[i].data)
                == ts_type_kind(types@[i]),
        TsType::Intersection { types, .. } => n.data is TSIntersectionType
            && n.data->TSIntersectionType_0.types@.len() == types@.len() && forall|i: int|
            0 <= i < types@.len() ==> kind_of(#[trigger] n.data->TSIntersectionType_0.types@[i].data)
                == ts_type_kind(types@[i]),
        TsType::Keyword { keyword, .. } => n.data == NodeData::Generic(keyword_kind(keyword)),
        TsType::Other(_) => n.data == NodeData::Generic(Kind::TSType),
    }
}

/// Converts a type annotation's type.
pub fn convert_ts_type(ctx: &Context, t: &TsType) -> (r: Node)
    requires
        ctx.wf(),
    ensures
        tree_ok(r, ctx.src()),
        ts_type_shape(r, *t, ctx.src().len() as int),
    decreases t,
{
    match t {
        TsType::Reference { span, name, type_arguments } => {
            let type_ref_name = match name {
                TsTypeName::Identifier(n) => Some(Box::new(ctx.identifier(n.span, n.name.clone()))),
                TsTypeName::Qualified { span, left, right } => Some(
                    Box::new(ctx.identifier(*span, join3(left.as_str(), ".", right.as_str()))),
                ),
                TsTypeName::Other => None,
            };
            let type_parameters = match type_arguments {
                Some(a) => Some(Box::new(convert_ts_type_parameter_instantiation(ctx, a))),
                None => None,
            };
            ctx.node(
                *span,
                NodeData::TSTypeReference(TSTypeReference { type_ref_name, type_parameters }),
            )
        },
        TsType::Union { span, types } => {
            let types = convert_ts_types(ctx, types);
            ctx.node(*span, NodeData::TSUnionType(TSUnionType { types }))
        },
        TsType::Intersection { span, types } => {
            let types = convert_ts_types(ctx, types);
            ctx.node(*span, NodeData::TSIntersectionType(TSIntersectionType { types }))
        },
        TsType::Keyword { span, keyword } => ctx.generic(*span, keyword_kind_of(keyword)),
        TsType::Other(span) => ctx.generic(*span, Kind::TSType),
    }
}

fn convert_ts_types(ctx: &Context, ts: &Vec<TsType>) -> (r: Vec<Node>)
    requires
        ctx.wf(),
    ensures
        all_ok(r@, ctx.src()),
        r@.len() == ts@.len(),
        forall|i: int| 0 <= i < ts@.len() ==> kind_of(#[trigger] r@[i].data) == ts_type_kind(ts@[i]),
    decreases ts,
{
    let mut out: Vec<Node> = Vec::new();
    let mut i: usize = 0;
    while i < ts.len()
        invariant
            ctx.wf(),
            i <= ts.len(),
            out@.len() == i,
            all_ok(out@, ctx.src()),
            forall|k: int| 0 <= k < i ==> kind_of(#[trigger] out@[k].data) == ts_type_kind(ts@[k]),
        decreases ts.len() - i,
    {
        let n = convert_ts_type(ctx, &ts[i]);
        out.push(n);
        i = i + 1;
    }
    out
}

/// Converts a `: Type` annotation into a `TSTypeAnnotation` holding the type.
pub fn convert_ts_type_annotation(ctx: &Context, ann: &TsTypeAnn) -> (r: Node)
    requires
        ctx.wf(),
    ensures
        tree_ok(r, ctx.src()),
        r.data matches NodeData::TSTypeAnnotation(a) && a.type_annotation matches Some(t)
            && kind_of(t.data) == ts_type_kind(ann.type_annotation),
        r.span == ann.span.clamped(ctx.src().len() as int),
    decreases ann,
{
    let t = convert_ts_type(ctx, &ann.type_annotation);
    ctx.node(
        ann.span,
        NodeData::TSTypeAnnotation(TSTypeAnnotation { type_annotation: Some(Box::new(t)) }),
    )
}

/// Converts a type parameter list `<T, U>` into a `TSTypeParameterDeclaration`.
pub fn convert_ts_type_parameter_declaration(ctx: &Context, decl: &TsTypeParamDecl) -> (r: Node)
    requires
        ctx.wf(),
    ensures
        tree_ok(r, ctx.src()),
        r.data matches NodeData::TSTypeParameterDeclaration(d) && d.params@.len()
            == decl.params@.len(),
        r.span == decl.span.clamped(ctx.src().len() as int),
    decreases decl,
{
    let mut params: Vec<Node> = Vec::new();
    let mut i: usize = 0;
    while i < decl.params.len()
        invariant
            ctx.wf(),
            i <= decl.params.len(),
            params@.len() == i,
            all_ok(params@, ctx.src()),
        decreases decl.params.len() - i,
    {
        let p = convert_ts_type_parameter(ctx, &decl.params[i]);
        params.push(p);
        i = i + 1;
    }
    ctx.node(decl.span, NodeData::TSTypeParameterDeclaration(TSTypeParameterDeclaration { params }))
}

/// Converts one type parameter, with its constraint and default.
pub fn convert_ts_type_parameter(ctx: &Context, param: &TsTypeParam) -> (r: Node)
    requires
        ctx.wf(),
    ensures
        tree_ok(r, ctx.src()),
        r.data matches NodeData::TSTypeParameter(p) && p.name@ == param.name@ && (
        p.constraint is Some <==> param.constraint is Some) && (p.default is Some
            <==> param.default is Some),
        r.span == param.span.clamped(ctx.src().len() as int),
    decreases param,
{
    let constraint = match &param.constraint {
        Some(c) => Some(Box::new(convert_ts_type(ctx, c))),
        None => None,
    };
    let default = match &param.default {
        Some(d) => Some(Box::new(convert_ts_type(ctx, d))),
        None => None,
    };
    ctx.node(
        param.span,
        NodeData::TSTypeParameter(TSTypeParameter { name: param.name.clone(), constraint, default }),
    )
}

/// Converts type arguments `<A, B>`; they are held as a
/// `TSTypeParameterDeclaration` of the converted types.
pub fn convert_ts_type_parameter_instantiation(ctx: &Context, inst: &TsTypeParamInst) -> (r: Node)
    requires
        ctx.wf(),
    ensures
        tree_ok(r, ctx.src()),
        r.data matches NodeData::TSTypeParameterDeclaration(d) && d.params@.len()
            == inst.params@.len(),
        r.span == inst.span.clamped(ctx.src().len() as int),
    decreases inst,
{
    let params = convert_ts_types(ctx, &inst.params);
    ctx.node(inst.span, NodeData::TSTypeParameterDeclaration(TSTypeParameterDeclaration { params }))
}

/// Converts an interface body into a `TSInterfaceBody` of its signatures.
pub fn convert_ts_interface_body(ctx: &Context, body: &TsInterfaceBodySrc) -> (r: Node)
    requires
        ctx.wf(),
    ensures
        tree_ok(r, ctx.src()),
        r.data is TSInterfaceBody,
        r.data->TSInterfaceBody_0.body@.len() == body.signatures@.len(),
        forall|i: int|
            0 <= i < body.signatures@.len() ==> kind_of(
                #[trigger] r.data->TSInterfaceBody_0.body@[i].data,
            ) == signature_kind(body.signatures@[i]) && r.data->TSInterfaceBody_0.body@[i].span
                == signature_span(body.signatures@[i]).clamped(ctx.src().len() as int),
        r.span == body.span.clamped(ctx.src().len() as int),
{
    let mut members: Vec<Node> = Vec::new();
    let mut i: usize = 0;
    while i < body.signatures.len()
        invariant
            ctx.wf(),
            i <= body.signatures.len(),
            members@.len() == i,
            all_ok(members@, ctx.src()),
            forall|k: int|
                0 <= k < i ==> kind_of(#[trigger] members@[k].data) == signature_kind(
                    body.signatures@[k],
                ) && members@[k].span == signature_span(body.signatures@[k]).clamped(
                    ctx.src().len() as int,
                ),
        decreases body.signatures.len() - i,
    {
        let m = convert_ts_signature(ctx, &body.signatures[i]);
        members.push(m);
        i = i + 1;
    }
    ctx.node(body.span, NodeData::TSInterfaceBody(TSInterfaceBody { body: members }))
}

/// The kind of node a signature becomes.
pub open spec fn signature_kind(s: TsSignature) -> Kind {
    match s {
        TsSignature::Property { .. } => Kind::TSPropertySignature,
        TsSignature::Method { .. } => Kind::TSMethodSignature,
        TsSignature::Other(_) => Kind::TSSignature,
    }
}

/// Converts a property or method signature; any other signature keeps only
/// its kind.
pub fn convert_ts_signature(ctx: &Context, sig: &TsSignature) -> (r: Node)
    requires
        ctx.wf(),
    ensures
        tree_ok(r, ctx.src()),
        kind_of(r.data) == signature_kind(*sig),
        r.span == signature_span(*sig).clamped(ctx.src().len() as int),
{
    match sig {
        TsSignature::Property { span, key, optional, readonly, type_annotation } => {
            let key = convert_ts_property_key(ctx, key);
            let type_annotation = match type_annotation {
                Some(t) => Some(Box::new(convert_ts_type_annotation(ctx, t))),
                None => None,
            };
            ctx.node(
                *span,
                NodeData::TSPropertySignature(
                    TSPropertySignature {
                        key: Some(Box::new(key)),
                        optional: *optional,
                        readonly: *readonly,
                        type_annotation,
                    },
                ),
            )
        },
        TsSignature::Method { span, key, return_type } => {
            let key = convert_ts_property_key(ctx, key);
            let return_type = match return_type {
                Some(t) => Some(Box::new(convert_ts_type_annotation(ctx, t))),
                None => None,
            };
            let params: Vec<Node> = Vec::new();
            ctx.node(
                *span,
                NodeData::TSMethodSignature(
                    TSMethodSignature { key: Some(Box::new(key)), params, return_type },
                ),
            )
        },
        TsSignature::Other(span) => ctx.generic(*span, Kind::TSSignature),
    }
}

/// The name a property key is shown by: a static name as written, a private
/// name after `#`, and `computed` for a computed key.
pub open spec fn key_text(k: KeyForm) -> Seq<char> {
    match k {
        KeyForm::Static(s) => s@,
        KeyForm::Private(s) => seq!['#'] + s@,
        KeyForm::Computed => seq!['c', 'o', 'm', 'p', 'u', 't', 'e', 'd'],
    }
}

/// Converts a property key into an `Identifier` node named by `key_text`.
pub fn convert_ts_property_key(ctx: &Context, key: &PropertyKey) -> (r: Node)
    requires
        ctx.wf(),
    ensures
        tree_ok(r, ctx.src()),
        r.data matches NodeData::Identifier(i) && i.name@ == key_text(key.form),
        r.span == key.span.clamped(ctx.src().len() as int),
{
    let name = match &key.form {
        KeyForm::Static(s) => s.clone(),
        KeyForm::Private(s) => {
            let r = join3("#", s.as_str(), "");
            proof {
                reveal_strlit("#");
                reveal_strlit("");
                assert(r@ =~= key_text(key.form));
            }
            r
        },
        KeyForm::Computed => {
            let r = String::from_str("computed");
            proof {
                reveal_strlit("computed");
                assert(r@ =~= key_text(key.form));
            }
            r
        },
    };
    proof {
        assert(name@ =~= key_text(key.form));
    }
    ctx.identifier(key.span, name)
}

/// An interface heritage clause keeps only its kind and span.
pub fn convert_ts_interface_heritage(ctx: &Context, span: Span) -> (r: Node)
    requires
        ctx.wf(),
    ensures
        tree_ok(r, ctx.src()),
        r.data == NodeData::Generic(Kind::TSInterfaceHeritage),
        r.span == span.clamped(ctx.src().len() as int),
{
    ctx.generic(span, Kind::TSInterfaceHeritage)
}

/// The kind an enum member's initializer is kept by.
pub open spec fn initializer_kind(e: Expression) -> Kind {
    match e {
        Expression::Other { form: ExprForm::NumericLiteral, .. } => Kind::NumericLiteral,
        Expression::Other { form: ExprForm::StringLiteral, .. } => Kind::StringLiteral,
        _ => Kind::Expression,
    }
}

/// `n` is the conversion of the enum member `m`: its name as an identifier,
/// and its initializer kept by kind and span.
pub open spec fn enum_member_shape(n: Node, m: TsEnumMemberSrc, len: int) -> bool {
    &&& n.data is TSEnumMember
    &&& n.span == m.span.clamped(len)
    &&& (n.data->TSEnumMember_0.id is Some <==> !(m.id is Other))
    &&& (m.id matches EnumMemberName::Identifier(x) ==> n.data->TSEnumMember_0.id.unwrap().data
        == NodeData::Identifier(crate::node::Identifier { name: x.name }))
    &&& (m.id matches EnumMemberName::String(x) ==> n.data->TSEnumMember_0.id.unwrap().data
        == NodeData::Identifier(crate::node::Identifier { name: x.name }))
    &&& (n.data->TSEnumMember_0.initializer is Some <==> m.initializer is Some)
    &&& (m.initializer is Some ==> n.data->TSEnumMember_0.initializer.unwrap().data
        == NodeData::Generic(initializer_kind(m.initializer.unwrap()))
        && n.data->TSEnumMember_0.initializer.unwrap().span == expr_span(
        m.initializer.unwrap(),
    ).clamped(len))
}

/// Converts an enum member: its name becomes an `Identifier`, and its
/// initializer a node that keeps the initializer's kind and span.
pub fn convert_ts_enum_member(ctx: &Context, member: &TsEnumMemberSrc) -> (r: Node)
    requires
        ctx.wf(),
    ensures
        tree_ok(r, ctx.src()),
        enum_member_shape(r, *member, ctx.src().len() as int),
{
    let id = match &member.id {
        EnumMemberName::Identifier(n) => Some(Box::new(ctx.identifier(n.span, n.name.clone()))),
        EnumMemberName::String(n) => Some(Box::new(ctx.identifier(n.span, n.name.clone()))),
        EnumMemberName::Other => None,
    };
    let initializer = match &member.initializer {
        Some(e) => {
            let kind = match e {
                Expression::Other { form: ExprForm::NumericLiteral, .. } => Kind::NumericLiteral,
                Expression::Other { form: ExprForm::StringLiteral, .. } => Kind::StringLiteral,
                _ => Kind::Expression,
            };
            Some(Box::new(ctx.generic(e.span(), kind)))
        },
        None => None,
    };
    ctx.node(member.span, NodeData::TSEnumMember(TSEnumMember { id, initializer }))
}

} // verus!
