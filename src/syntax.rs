//! The parser's typed tree, as the converter reads it: each construct keeps its
//! span and the parts that conversion looks at.
use vstd::prelude::*;
use crate::span::Span;
use crate::node::VariableKind;

verus! {

/// An identifier with its span.
#[derive(Debug)]
pub struct Name {
    pub span: Span,
    pub name: String,
}

#[derive(Debug)]
pub struct StringLit {
    pub span: Span,
    pub value: String,
    pub raw: Option<String>,
}

/// A parameter or catch binding: a pattern that is read by name only when it is a
/// plain identifier.
#[derive(Debug)]
pub struct Param {
    pub span: Span,
    pub binding: Option<Name>,
    pub type_annotation: Option<TsTypeAnn>,
}

#[derive(Debug)]
pub struct Function {
    pub span: Span,
    pub id: Option<Name>,
    pub is_async: bool,
    pub generator: bool,
    pub params: Vec<Param>,
    pub body: Option<FunctionBody>,
    pub type_parameters: Option<TsTypeParamDecl>,
    pub return_type: Option<TsTypeAnn>,
}

#[derive(Debug)]
pub struct FunctionBody {
    pub span: Span,
    pub statements: Vec<Statement>,
}

#[derive(Debug)]
pub struct Class {
    pub span: Span,
    pub id: Option<Name>,
    pub super_class: Option<Expression>,
    pub type_parameters: Option<TsTypeParamDecl>,
    pub body: ClassBodySrc,
}

#[derive(Debug)]
pub struct ClassBodySrc {
    pub span: Span,
    pub elements: Vec<ClassElement>,
}

/// The members of a class body that are kept by kind and span alone.
#[derive(Debug)]
pub enum ClassMemberKind {
    Property,
    StaticBlock,
    Accessor,
    IndexSignature,
}

#[derive(Debug)]
pub enum ClassElement {
    /// A method, with the static name of its key where it has one.
    Method { span: Span, key_name: Option<String>, value: Function },
    Other { span: Span, kind: ClassMemberKind },
}

#[derive(Debug)]
pub struct VarDecl {
    pub span: Span,
    pub kind: VariableKind,
    pub declarations: Vec<Declarator>,
}

#[derive(Debug)]
pub struct Declarator {
    pub span: Span,
    pub binding: Option<Name>,
    pub type_annotation: Option<TsTypeAnn>,
    pub init: Option<Expression>,
}

#[derive(Debug)]
pub struct ImportDecl {
    pub span: Span,
    pub source: StringLit,
    pub specifiers: Option<Vec<ImportSpec>>,
}

#[derive(Debug)]
pub enum ImportSpec {
    Named { span: Span, imported: Name, local: Name },
    Default { span: Span, local: Name },
    Namespace { span: Span, local: Name },
}

#[derive(Debug)]
pub struct ExportNamed {
    pub span: Span,
    pub declaration: Option<Declaration>,
    pub specifiers: Vec<ExportSpec>,
    pub source: Option<StringLit>,
}

#[derive(Debug)]
pub enum Declaration {
    Function(Function),
    Class(Class),
    Variable(VarDecl),
    TsInterface(TsInterface),
    TsTypeAlias(TsTypeAlias),
    Other(Span),
}

#[derive(Debug)]
pub struct ExportSpec {
    pub span: Span,
    pub local: String,
    pub exported: String,
}

#[derive(Debug)]
pub enum ExportDefaultKind {
    Function(Function),
    Class(Class),
    Other(Span),
}

#[derive(Debug)]
pub struct ExportDefault {
    pub span: Span,
    pub declaration: ExportDefaultKind,
}

#[derive(Debug)]
pub struct ExportAll {
    pub span: Span,
    pub source: StringLit,
    pub exported: Option<Name>,
}

#[derive(Debug)]
pub struct TsTypeAlias {
    pub span: Span,
    pub id: Name,
    pub type_annotation: TsType,
    pub type_parameters: Option<TsTypeParamDecl>,
}

#[derive(Debug)]
pub struct TsInterface {
    pub span: Span,
    pub id: Name,
    pub body: TsInterfaceBodySrc,
    /// The spans of the heritage clauses.
    pub extends: Vec<Span>,
    pub type_parameters: Option<TsTypeParamDecl>,
}

#[derive(Debug)]
pub struct TsInterfaceBodySrc {
    pub span: Span,
    pub signatures: Vec<TsSignature>,
}

#[derive(Debug)]
pub enum TsSignature {
    Property {
        span: Span,
        key: PropertyKey,
        optional: bool,
        readonly: bool,
        type_annotation: Option<TsTypeAnn>,
    },
    Method { span: Span, key: PropertyKey, return_type: Option<TsTypeAnn> },
    Other(Span),
}

#[derive(Debug)]
pub enum KeyForm {
    Static(String),
    Private(String),
    Computed,
}

#[derive(Debug)]
pub struct PropertyKey {
    pub span: Span,
    pub form: KeyForm,
}

#[derive(Debug)]
pub struct TsEnum {
    pub span: Span,
    pub id: Name,
    pub members: Vec<TsEnumMemberSrc>,
    pub is_const: bool,
}

#[derive(Debug)]
pub enum EnumMemberName {
    Identifier(Name),
    String(Name),
    Other,
}

#[derive(Debug)]
pub struct TsEnumMemberSrc {
    pub span: Span,
    pub id: EnumMemberName,
    pub initializer: Option<Expression>,
}

#[derive(Debug)]
pub struct TsTypeAnn {
    pub span: Span,
    pub type_annotation: TsType,
}

#[derive(Debug)]
pub enum TsKeyword {
    Any,
    Boolean,
    Never,
    Null,
    Number,
    String,
    Undefined,
    Unknown,
    Void,
}

#[derive(Debug)]
pub enum TsTypeName {
    Identifier(Name),
    /// `left.right`, with the left side as written.
    Qualified { span: Span, left: String, right: String },
    Other,
}

#[derive(Debug)]
pub enum TsType {
    Reference { span: Span, name: TsTypeName, type_arguments: Option<TsTypeParamInst> },
    Union { span: Span, types: Vec<TsType> },
    Intersection { span: Span, types: Vec<TsType> },
    Keyword { span: Span, keyword: TsKeyword },
    Other(Span),
}

#[derive(Debug)]
pub struct TsTypeParamDecl {
    pub span: Span,
    pub params: Vec<TsTypeParam>,
}

#[derive(Debug)]
pub struct TsTypeParam {
    pub span: Span,
    pub name: String,
    pub constraint: Option<TsType>,
    pub default: Option<TsType>,
}

#[derive(Debug)]
pub struct TsTypeParamInst {
    pub span: Span,
    pub params: Vec<TsType>,
}

#[derive(Debug)]
pub struct Block {
    pub span: Span,
    pub body: Vec<Statement>,
}

#[derive(Debug)]
pub struct SwitchCaseSrc {
    pub span: Span,
    pub test: Option<Expression>,
    pub consequent: Vec<Statement>,
}

#[derive(Debug)]
pub struct CatchSrc {
    pub span: Span,
    pub param: Option<Param>,
    pub body: Block,
}

#[derive(Debug)]
pub enum ForInit {
    Variable(VarDecl),
    /// An expression, kept by its span.
    Expression(Span),
}

#[derive(Debug)]
pub enum ForLeft {
    Variable(VarDecl),
    /// An assignment target, kept by its span.
    Target(Span),
}

/// Statements that conversion keeps by kind and span alone.
#[derive(Debug)]
pub enum UnmodeledStatement {
    TsModule,
    TsImportEquals,
    TsExportAssignment,
    TsNamespaceExport,
}

#[derive(Debug)]
pub enum Statement {
    Function(Function),
    Class(Class),
    Variable(VarDecl),
    Import(ImportDecl),
    ExportNamed(ExportNamed),
    ExportDefault(ExportDefault),
    ExportAll(ExportAll),
    TsTypeAlias(TsTypeAlias),
    TsInterface(TsInterface),
    TsEnum(TsEnum),
    Break { span: Span, label: Option<Name> },
    Continue { span: Span, label: Option<Name> },
    Labeled { span: Span, label: Name, body: Box<Statement> },
    Empty(Span),
    /// A `with` statement; its object is kept by its span.
    With { span: Span, object: Span, body: Box<Statement> },
    For {
        span: Span,
        init: Option<ForInit>,
        test: Option<Expression>,
        update: Option<Expression>,
        body: Box<Statement>,
    },
    ForIn { span: Span, left: ForLeft, right: Expression, body: Box<Statement> },
    ForOf { span: Span, left: ForLeft, right: Expression, body: Box<Statement>, is_await: bool },
    If {
        span: Span,
        test: Expression,
        consequent: Box<Statement>,
        alternate: Option<Box<Statement>>,
    },
    While { span: Span, test: Expression, body: Box<Statement> },
    DoWhile { span: Span, body: Box<Statement>, test: Expression },
    Switch { span: Span, discriminant: Expression, cases: Vec<SwitchCaseSrc> },
    Try { span: Span, block: Block, handler: Option<CatchSrc>, finalizer: Option<Block> },
    Throw { span: Span, argument: Expression },
    Return { span: Span, argument: Option<Expression> },
    Expression { span: Span, expression: Expression },
    Debugger(Span),
    Block(Block),
    Unmodeled { span: Span, form: UnmodeledStatement },
}

#[derive(Debug)]
pub enum BinaryOp {
    Equality,
    Inequality,
    StrictEquality,
    StrictInequality,
    LessThan,
    LessEqualThan,
    GreaterThan,
    GreaterEqualThan,
    Addition,
    Subtraction,
    Multiplication,
    Division,
    Remainder,
    Exponential,
    ShiftLeft,
    ShiftRight,
    ShiftRightZeroFill,
    BitwiseOr,
    BitwiseXor,
    BitwiseAnd,
    In,
    Instanceof,
}

#[derive(Debug)]
pub enum LogicalOp {
    And,
    Or,
    Coalesce,
}

/// Expressions that conversion keeps by kind and span alone.
#[derive(Debug)]
pub enum ExprForm {
    NumericLiteral,
    StringLiteral,
    BooleanLiteral,
    NullLiteral,
    Unary,
    Update,
    PrivateField,
    New,
    This,
    TemplateLiteral,
    TaggedTemplate,
    Await,
    Yield,
    /// Any other expression.
    Unlisted,
}

#[derive(Debug)]
pub struct Arrow {
    pub span: Span,
    pub params: Vec<Param>,
    /// The body is a single expression, held as the one expression statement
    /// of `body`.
    pub expression: bool,
    pub is_async: bool,
    pub body: FunctionBody,
}

#[derive(Debug)]
pub enum Argument {
    Spread(Expression),
    Plain(Expression),
}

#[derive(Debug)]
pub enum ObjectProp {
    /// A property, by its value.
    Property(Expression),
    Spread(Expression),
}

#[derive(Debug)]
pub enum ArrayElem {
    Spread(Expression),
    Elision(Span),
    Plain(Expression),
}

#[derive(Debug)]
pub enum Expression {
    JsxElement(Box<JsxElem>),
    JsxFragment(Box<JsxFrag>),
    Arrow(Box<Arrow>),
    Conditional {
        span: Span,
        test: Box<Expression>,
        consequent: Box<Expression>,
        alternate: Box<Expression>,
    },
    Logical { span: Span, operator: LogicalOp, left: Box<Expression>, right: Box<Expression> },
    Call { span: Span, callee: Box<Expression>, arguments: Vec<Argument> },
    StaticMember { span: Span, object: Box<Expression>, property: Name },
    ComputedMember { span: Span, object: Box<Expression>, expression: Box<Expression> },
    Parenthesized { span: Span, expression: Box<Expression> },
    Sequence(Span),
    Object { span: Span, properties: Vec<ObjectProp> },
    Array { span: Span, elements: Vec<ArrayElem> },
    Binary { span: Span, operator: BinaryOp, left: Box<Expression>, right: Box<Expression> },
    Assignment(Span),
    Function(Box<Function>),
    Identifier(Name),
    Other { span: Span, form: ExprForm },
}

#[derive(Debug)]
pub struct JsxElem {
    pub span: Span,
    pub opening: JsxOpening,
    pub children: Vec<JsxChild>,
    pub closing: Option<JsxClosing>,
}

#[derive(Debug)]
pub struct JsxOpening {
    pub span: Span,
    pub name: JsxName,
    pub attributes: Vec<JsxAttrItem>,
}

#[derive(Debug)]
pub struct JsxClosing {
    pub span: Span,
    pub name: JsxName,
}

#[derive(Debug)]
pub struct JsxFrag {
    pub span: Span,
    pub children: Vec<JsxChild>,
}

#[derive(Debug)]
pub enum JsxMemberObject {
    Identifier(Name),
    /// A nested member expression or `this`, kept by its span.
    Other(Span),
}

#[derive(Debug)]
pub struct JsxMember {
    pub span: Span,
    pub object: JsxMemberObject,
    pub property: Name,
}

#[derive(Debug)]
pub enum JsxName {
    Identifier(Name),
    Reference(Name),
    Member(JsxMember),
    Namespaced { span: Span, namespace: String, name: String },
    This(Span),
}

#[derive(Debug)]
pub enum JsxAttrName {
    Identifier(Name),
    Namespaced { span: Span, namespace: String, name: String },
}

#[derive(Debug)]
pub enum JsxExpr {
    Empty(Span),
    Expression(Expression),
}

#[derive(Debug)]
pub struct JsxExprContainer {
    pub span: Span,
    pub expression: JsxExpr,
}

#[derive(Debug)]
pub enum JsxAttrValue {
    StringLiteral(StringLit),
    Container(JsxExprContainer),
    Element(Box<JsxElem>),
    Fragment(Box<JsxFrag>),
}

#[derive(Debug)]
pub struct JsxAttr {
    pub span: Span,
    pub name: JsxAttrName,
    pub value: Option<JsxAttrValue>,
}

#[derive(Debug)]
pub enum JsxAttrItem {
    Attribute(JsxAttr),
    /// A spread attribute, with the span of its argument.
    Spread { span: Span, argument: Span },
}

#[derive(Debug)]
pub struct JsxTextSrc {
    pub span: Span,
    pub value: String,
    pub raw: Option<String>,
}

#[derive(Debug)]
pub enum JsxChild {
    Element(Box<JsxElem>),
    Fragment(Box<JsxFrag>),
    Text(JsxTextSrc),
    Container(JsxExprContainer),
    /// A spread child `{...items}`, kept by its span.
    Spread(Span),
}

/// A parsed file: its span and its top-level statements.
#[derive(Debug)]
pub struct SourceProgram {
    pub span: Span,
    pub body: Vec<Statement>,
}

} // verus!

verus! {

/// The span of an expression.
pub open spec fn expr_span(e: Expression) -> Span {
    match e {
        Expression::JsxElement(x) => x.span,
        Expression::JsxFragment(x) => x.span,
        Expression::Arrow(x) => x.span,
        Expression::Conditional { span, .. } => span,
        Expression::Logical { span, .. } => span,
        Expression::Call { span, .. } => span,
        Expression::StaticMember { span, .. } => span,
        Expression::ComputedMember { span, .. } => span,
        Expression::Parenthesized { span, .. } => span,
        Expression::Sequence(span) => span,
        Expression::Object { span, .. } => span,
        Expression::Array { span, .. } => span,
        Expression::Binary { span, .. } => span,
        Expression::Assignment(span) => span,
        Expression::Function(x) => x.span,
        Expression::Identifier(x) => x.span,
        Expression::Other { span, .. } => span,
    }
}

impl Expression {
    pub fn span(&self) -> (r: Span)
        ensures
            r == expr_span(*self),
    {
        match self {
            Expression::JsxElement(x) => x.span,
            Expression::JsxFragment(x) => x.span,
            Expression::Arrow(x) => x.span,
            Expression::Conditional { span, .. } => *span,
            Expression::Logical { span, .. } => *span,
            Expression::Call { span, .. } => *span,
            Expression::StaticMember { span, .. } => *span,
            Expression::ComputedMember { span, .. } => *span,
            Expression::Parenthesized { span, .. } => *span,
            Expression::Sequence(span) => *span,
            Expression::Object { span, .. } => *span,
            Expression::Array { span, .. } => *span,
            Expression::Binary { span, .. } => *span,
            Expression::Assignment(span) => *span,
            Expression::Function(x) => x.span,
            Expression::Identifier(x) => x.span,
            Expression::Other { span, .. } => *span,
        }
    }
}

/// The span of a statement.
pub open spec fn stmt_span(s: Statement) -> Span {
    match s {
        Statement::Function(x) => x.span,
        Statement::Class(x) => x.span,
        Statement::Variable(x) => x.span,
        Statement::Import(x) => x.span,
        Statement::ExportNamed(x) => x.span,
        Statement::ExportDefault(x) => x.span,
        Statement::ExportAll(x) => x.span,
        Statement::TsTypeAlias(x) => x.span,
        Statement::TsInterface(x) => x.span,
        Statement::TsEnum(x) => x.span,
        Statement::Break { span, .. } => span,
        Statement::Continue { span, .. } => span,
        Statement::Labeled { span, .. } => span,
        Statement::Empty(span) => span,
        Statement::With { span, .. } => span,
        Statement::For { span, .. } => span,
        Statement::ForIn { span, .. } => span,
        Statement::ForOf { span, .. } => span,
        Statement::If { span, .. } => span,
        Statement::While { span, .. } => span,
        Statement::DoWhile { span, .. } => span,
        Statement::Switch { span, .. } => span,
        Statement::Try { span, .. } => span,
        Statement::Throw { span, .. } => span,
        Statement::Return { span, .. } => span,
        Statement::Expression { span, .. } => span,
        Statement::Debugger(span) => span,
        Statement::Block(x) => x.span,
        Statement::Unmodeled { span, .. } => span,
    }
}

/// The span of a type.
pub open spec fn ts_type_span(t: TsType) -> Span {
    match t {
        TsType::Reference { span, .. } => span,
        TsType::Union { span, .. } => span,
        TsType::Intersection { span, .. } => span,
        TsType::Keyword { span, .. } => span,
        TsType::Other(span) => span,
    }
}

/// The span of a signature.
pub open spec fn signature_span(s: TsSignature) -> Span {
    match s {
        TsSignature::Property { span, .. } => span,
        TsSignature::Method { span, .. } => span,
        TsSignature::Other(span) => span,
    }
}

} // verus!
