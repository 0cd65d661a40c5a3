use vstd::prelude::*;
use vstd::utf8::encode_utf8;
use vstd::string::StringSliceAdditionalSpecFns;
use crate::span::Span;
use crate::lines::line_of;
use crate::text::{span_text, text_of};

verus! {

/// The closed vocabulary of node kinds. Every node carries one; a node whose
/// construct is not modelled in full carries the nearest kind and no payload.
#[derive(Clone, Copy, Debug, PartialEq, Eq, Hash, Structural)]
pub enum Kind {
    Program,
    FunctionDeclaration,
    MethodDefinition,
    ClassBody,
    ClassDeclaration,
    VariableDeclaration,
    VariableDeclarator,
    FormalParameter,
    BlockStatement,
    BreakStatement,
    ContinueStatement,
    LabeledStatement,
    EmptyStatement,
    WithStatement,
    ForStatement,
    IfStatement,
    ExpressionStatement,
    WhileStatement,
    DoWhileStatement,
    ForInStatement,
    ForOfStatement,
    SwitchStatement,
    SwitchCase,
    TryStatement,
    CatchClause,
    ThrowStatement,
    ReturnStatement,
    DebuggerStatement,
    ImportDeclaration,
    ImportSpecifier,
    ImportDefaultSpecifier,
    ImportNamespaceSpecifier,
    ExportNamedDeclaration,
    ExportDefaultDeclaration,
    ExportAllDeclaration,
    ExportSpecifier,
    ArrowFunctionExpression,
    CallExpression,
    MemberExpression,
    BinaryExpression,
    UnaryExpression,
    ConditionalExpression,
    ObjectExpression,
    ArrayExpression,
    Identifier,
    Literal,
    TSTypeAliasDeclaration,
    TSInterfaceDeclaration,
    TSEnumDeclaration,
    TSTypeAnnotation,
    TSTypeReference,
    TSTypeParameter,
    TSTypeParameterDeclaration,
    TSPropertySignature,
    TSMethodSignature,
    TSInterfaceBody,
    TSEnumMember,
    TSUnionType,
    TSIntersectionType,
    JSXElement,
    JSXOpeningElement,
    JSXClosingElement,
    JSXFragment,
    JSXAttribute,
    JSXSpreadAttribute,
    JSXIdentifier,
    JSXMemberExpression,
    JSXText,
    JSXExpressionContainer,
    SequenceExpression,
    AssignmentExpression,
    NumericLiteral,
    StringLiteral,
    BooleanLiteral,
    NullLiteral,
    UpdateExpression,
    NewExpression,
    ThisExpression,
    TemplateLiteral,
    TaggedTemplateExpression,
    AwaitExpression,
    YieldExpression,
    Expression,
    Declaration,
    AssignmentTarget,
    TSModuleDeclaration,
    TSImportEqualsDeclaration,
    TSExportAssignment,
    TSNamespaceExportDeclaration,
    PropertyDefinition,
    StaticBlock,
    AccessorProperty,
    TSIndexSignature,
    TSAnyKeyword,
    TSBooleanKeyword,
    TSNeverKeyword,
    TSNullKeyword,
    TSNumberKeyword,
    TSStringKeyword,
    TSUndefinedKeyword,
    TSUnknownKeyword,
    TSVoidKeyword,
    TSType,
    TSSignature,
    TSInterfaceHeritage,
}

/// The discriminator string of a kind: the kind's own name.
pub open spec fn kind_text(k: Kind) -> Seq<char> {
    match k {
        Kind::Program => "Program"@,
        Kind::FunctionDeclaration => "FunctionDeclaration"@,
        Kind::MethodDefinition => "MethodDefinition"@,
        Kind::ClassBody => "ClassBody"@,
        Kind::ClassDeclaration => "ClassDeclaration"@,
        Kind::VariableDeclaration => "VariableDeclaration"@,
        Kind::VariableDeclarator => "VariableDeclarator"@,
        Kind::FormalParameter => "FormalParameter"@,
        Kind::BlockStatement => "BlockStatement"@,
        Kind::BreakStatement => "BreakStatement"@,
        Kind::ContinueStatement => "ContinueStatement"@,
        Kind::LabeledStatement => "LabeledStatement"@,
        Kind::EmptyStatement => "EmptyStatement"@,
        Kind::WithStatement => "WithStatement"@,
        Kind::ForStatement => "ForStatement"@,
        Kind::IfStatement => "IfStatement"@,
        Kind::ExpressionStatement => "ExpressionStatement"@,
        Kind::WhileStatement => "WhileStatement"@,
        Kind::DoWhileStatement => "DoWhileStatement"@,
        Kind::ForInStatement => "ForInStatement"@,
        Kind::ForOfStatement => "ForOfStatement"@,
        Kind::SwitchStatement => "SwitchStatement"@,
        Kind::SwitchCase => "SwitchCase"@,
        Kind::TryStatement => "TryStatement"@,
        Kind::CatchClause => "CatchClause"@,
        Kind::ThrowStatement => "ThrowStatement"@,
        Kind::ReturnStatement => "ReturnStatement"@,
        Kind::DebuggerStatement => "DebuggerStatement"@,
        Kind::ImportDeclaration => "ImportDeclaration"@,
        Kind::ImportSpecifier => "ImportSpecifier"@,
        Kind::ImportDefaultSpecifier => "ImportDefaultSpecifier"@,
        Kind::ImportNamespaceSpecifier => "ImportNamespaceSpecifier"@,
        Kind::ExportNamedDeclaration => "ExportNamedDeclaration"@,
        Kind::ExportDefaultDeclaration => "ExportDefaultDeclaration"@,
        Kind::ExportAllDeclaration => "ExportAllDeclaration"@,
        Kind::ExportSpecifier => "ExportSpecifier"@,
        Kind::ArrowFunctionExpression => "ArrowFunctionExpression"@,
        Kind::CallExpression => "CallExpression"@,
        Kind::MemberExpression => "MemberExpression"@,
        Kind::BinaryExpression => "BinaryExpression"@,
        Kind::UnaryExpression => "UnaryExpression"@,
        Kind::ConditionalExpression => "ConditionalExpression"@,
        Kind::ObjectExpression => "ObjectExpression"@,
        Kind::ArrayExpression => "ArrayExpression"@,
        Kind::Identifier => "Identifier"@,
        Kind::Literal => "Literal"@,
        Kind::TSTypeAliasDeclaration => "TSTypeAliasDeclaration"@,
        Kind::TSInterfaceDeclaration => "TSInterfaceDeclaration"@,
        Kind::TSEnumDeclaration => "TSEnumDeclaration"@,
        Kind::TSTypeAnnotation => "TSTypeAnnotation"@,
        Kind::TSTypeReference => "TSTypeReference"@,
        Kind::TSTypeParameter => "TSTypeParameter"@,
        Kind::TSTypeParameterDeclaration => "TSTypeParameterDeclaration"@,
        Kind::TSPropertySignature => "TSPropertySignature"@,
        Kind::TSMethodSignature => "TSMethodSignature"@,
        Kind::TSInterfaceBody => "TSInterfaceBody"@,
        Kind::TSEnumMember => "TSEnumMember"@,
        Kind::TSUnionType => "TSUnionType"@,
        Kind::TSIntersectionType => "TSIntersectionType"@,
        Kind::JSXElement => "JSXElement"@,
        Kind::JSXOpeningElement => "JSXOpeningElement"@,
        Kind::JSXClosingElement => "JSXClosingElement"@,
        Kind::JSXFragment => "JSXFragment"@,
        Kind::JSXAttribute => "JSXAttribute"@,
        Kind::JSXSpreadAttribute => "JSXSpreadAttribute"@,
        Kind::JSXIdentifier => "JSXIdentifier"@,
        Kind::JSXMemberExpression => "JSXMemberExpression"@,
        Kind::JSXText => "JSXText"@,
        Kind::JSXExpressionContainer => "JSXExpressionContainer"@,
        Kind::SequenceExpression => "SequenceExpression"@,
        Kind::AssignmentExpression => "AssignmentExpression"@,
        Kind::NumericLiteral => "NumericLiteral"@,
        Kind::StringLiteral => "StringLiteral"@,
        Kind::BooleanLiteral => "BooleanLiteral"@,
        Kind::NullLiteral => "NullLiteral"@,
        Kind::UpdateExpression => "UpdateExpression"@,
        Kind::NewExpression => "NewExpression"@,
        Kind::ThisExpression => "ThisExpression"@,
        Kind::TemplateLiteral => "TemplateLiteral"@,
        Kind::TaggedTemplateExpression => "TaggedTemplateExpression"@,
        Kind::AwaitExpression => "AwaitExpression"@,
        Kind::YieldExpression => "YieldExpression"@,
        Kind::Expression => "Expression"@,
        Kind::Declaration => "Declaration"@,
        Kind::AssignmentTarget => "AssignmentTarget"@,
        Kind::TSModuleDeclaration => "TSModuleDeclaration"@,
        Kind::TSImportEqualsDeclaration => "TSImportEqualsDeclaration"@,
        Kind::TSExportAssignment => "TSExportAssignment"@,
        Kind::TSNamespaceExportDeclaration => "TSNamespaceExportDeclaration"@,
        Kind::PropertyDefinition => "PropertyDefinition"@,
        Kind::StaticBlock => "StaticBlock"@,
        Kind::AccessorProperty => "AccessorProperty"@,
        Kind::TSIndexSignature => "TSIndexSignature"@,
        Kind::TSAnyKeyword => "TSAnyKeyword"@,
        Kind::TSBooleanKeyword => "TSBooleanKeyword"@,
        Kind::TSNeverKeyword => "TSNeverKeyword"@,
        Kind::TSNullKeyword => "TSNullKeyword"@,
        Kind::TSNumberKeyword => "TSNumberKeyword"@,
        Kind::TSStringKeyword => "TSStringKeyword"@,
        Kind::TSUndefinedKeyword => "TSUndefinedKeyword"@,
        Kind::TSUnknownKeyword => "TSUnknownKeyword"@,
        Kind::TSVoidKeyword => "TSVoidKeyword"@,
        Kind::TSType => "TSType"@,
        Kind::TSSignature => "TSSignature"@,
        Kind::TSInterfaceHeritage => "TSInterfaceHeritage"@,
    }
}

impl Kind {
    /// The kind's name as the discriminator string of the node model.
    pub fn name(self) -> (r: &'static str)
        ensures
            r@ == kind_text(self),
    {
        match self {
            Kind::Program => "Program",
            Kind::FunctionDeclaration => "FunctionDeclaration",
            Kind::MethodDefinition => "MethodDefinition",
            Kind::ClassBody => "ClassBody",
            Kind::ClassDeclaration => "ClassDeclaration",
            Kind::VariableDeclaration => "VariableDeclaration",
            Kind::VariableDeclarator => "VariableDeclarator",
            Kind::FormalParameter => "FormalParameter",
            Kind::BlockStatement => "BlockStatement",
            Kind::BreakStatement => "BreakStatement",
            Kind::ContinueStatement => "ContinueStatement",
            Kind::LabeledStatement => "LabeledStatement",
            Kind::EmptyStatement => "EmptyStatement",
            Kind::WithStatement => "WithStatement",
            Kind::ForStatement => "ForStatement",
            Kind::IfStatement => "IfStatement",
            Kind::ExpressionStatement => "ExpressionStatement",
            Kind::WhileStatement => "WhileStatement",
            Kind::DoWhileStatement => "DoWhileStatement",
            Kind::ForInStatement => "ForInStatement",
            Kind::ForOfStatement => "ForOfStatement",
            Kind::SwitchStatement => "SwitchStatement",
            Kind::SwitchCase => "SwitchCase",
            Kind::TryStatement => "TryStatement",
            Kind::CatchClause => "CatchClause",
            Kind::ThrowStatement => "ThrowStatement",
            Kind::ReturnStatement => "ReturnStatement",
            Kind::DebuggerStatement => "DebuggerStatement",
            Kind::ImportDeclaration => "ImportDeclaration",
            Kind::ImportSpecifier => "ImportSpecifier",
            Kind::ImportDefaultSpecifier => "ImportDefaultSpecifier",
            Kind::ImportNamespaceSpecifier => "ImportNamespaceSpecifier",
            Kind::ExportNamedDeclaration => "ExportNamedDeclaration",
            Kind::ExportDefaultDeclaration => "ExportDefaultDeclaration",
            Kind::ExportAllDeclaration => "ExportAllDeclaration",
            Kind::ExportSpecifier => "ExportSpecifier",
            Kind::ArrowFunctionExpression => "ArrowFunctionExpression",
            Kind::CallExpression => "CallExpression",
            Kind::MemberExpression => "MemberExpression",
            Kind::BinaryExpression => "BinaryExpression",
            Kind::UnaryExpression => "UnaryExpression",
            Kind::ConditionalExpression => "ConditionalExpression",
            Kind::ObjectExpression => "ObjectExpression",
            Kind::ArrayExpression => "ArrayExpression",
            Kind::Identifier => "Identifier",
            Kind::Literal => "Literal",
            Kind::TSTypeAliasDeclaration => "TSTypeAliasDeclaration",
            Kind::TSInterfaceDeclaration => "TSInterfaceDeclaration",
            Kind::TSEnumDeclaration => "TSEnumDeclaration",
            Kind::TSTypeAnnotation => "TSTypeAnnotation",
            Kind::TSTypeReference => "TSTypeReference",
            Kind::TSTypeParameter => "TSTypeParameter",
            Kind::TSTypeParameterDeclaration => "TSTypeParameterDeclaration",
            Kind::TSPropertySignature => "TSPropertySignature",
            Kind::TSMethodSignature => "TSMethodSignature",
            Kind::TSInterfaceBody => "TSInterfaceBody",
            Kind::TSEnumMember => "TSEnumMember",
            Kind::TSUnionType => "TSUnionType",
            Kind::TSIntersectionType => "TSIntersectionType",
            Kind::JSXElement => "JSXElement",
            Kind::JSXOpeningElement => "JSXOpeningElement",
            Kind::JSXClosingElement => "JSXClosingElement",
            Kind::JSXFragment => "JSXFragment",
            Kind::JSXAttribute => "JSXAttribute",
            Kind::JSXSpreadAttribute => "JSXSpreadAttribute",
            Kind::JSXIdentifier => "JSXIdentifier",
            Kind::JSXMemberExpression => "JSXMemberExpression",
            Kind::JSXText => "JSXText",
            Kind::JSXExpressionContainer => "JSXExpressionContainer",
            Kind::SequenceExpression => "SequenceExpression",
            Kind::AssignmentExpression => "AssignmentExpression",
            Kind::NumericLiteral => "NumericLiteral",
            Kind::StringLiteral => "StringLiteral",
            Kind::BooleanLiteral => "BooleanLiteral",
            Kind::NullLiteral => "NullLiteral",
            Kind::UpdateExpression => "UpdateExpression",
            Kind::NewExpression => "NewExpression",
            Kind::ThisExpression => "ThisExpression",
            Kind::TemplateLiteral => "TemplateLiteral",
            Kind::TaggedTemplateExpression => "TaggedTemplateExpression",
            Kind::AwaitExpression => "AwaitExpression",
            Kind::YieldExpression => "YieldExpression",
            Kind::Expression => "Expression",
            Kind::Declaration => "Declaration",
            Kind::AssignmentTarget => "AssignmentTarget",
            Kind::TSModuleDeclaration => "TSModuleDeclaration",
            Kind::TSImportEqualsDeclaration => "TSImportEqualsDeclaration",
            Kind::TSExportAssignment => "TSExportAssignment",
            Kind::TSNamespaceExportDeclaration => "TSNamespaceExportDeclaration",
            Kind::PropertyDefinition => "PropertyDefinition",
            Kind::StaticBlock => "StaticBlock",
            Kind::AccessorProperty => "AccessorProperty",
            Kind::TSIndexSignature => "TSIndexSignature",
            Kind::TSAnyKeyword => "TSAnyKeyword",
            Kind::TSBooleanKeyword => "TSBooleanKeyword",
            Kind::TSNeverKeyword => "TSNeverKeyword",
            Kind::TSNullKeyword => "TSNullKeyword",
            Kind::TSNumberKeyword => "TSNumberKeyword",
            Kind::TSStringKeyword => "TSStringKeyword",
            Kind::TSUndefinedKeyword => "TSUndefinedKeyword",
            Kind::TSUnknownKeyword => "TSUnknownKeyword",
            Kind::TSVoidKeyword => "TSVoidKeyword",
            Kind::TSType => "TSType",
            Kind::TSSignature => "TSSignature",
            Kind::TSInterfaceHeritage => "TSInterfaceHeritage",
        }
    }
}

/// Every kind has a discriminator: its name is never empty.
pub proof fn law_every_kind_named(k: Kind)
    ensures
        kind_text(k).len() > 0,
{
    match k {
        Kind::Program => reveal_strlit("Program"),
        Kind::FunctionDeclaration => reveal_strlit("FunctionDeclaration"),
        Kind::MethodDefinition => reveal_strlit("MethodDefinition"),
        Kind::ClassBody => reveal_strlit("ClassBody"),
        Kind::ClassDeclaration => reveal_strlit("ClassDeclaration"),
        Kind::VariableDeclaration => reveal_strlit("VariableDeclaration"),
        Kind::VariableDeclarator => reveal_strlit("VariableDeclarator"),
        Kind::FormalParameter => reveal_strlit("FormalParameter"),
        Kind::BlockStatement => reveal_strlit("BlockStatement"),
        Kind::BreakStatement => reveal_strlit("BreakStatement"),
        Kind::ContinueStatement => reveal_strlit("ContinueStatement"),
        Kind::LabeledStatement => reveal_strlit("LabeledStatement"),
        Kind::EmptyStatement => reveal_strlit("EmptyStatement"),
        Kind::WithStatement => reveal_strlit("WithStatement"),
        Kind::ForStatement => reveal_strlit("ForStatement"),
        Kind::IfStatement => reveal_strlit("IfStatement"),
        Kind::ExpressionStatement => reveal_strlit("ExpressionStatement"),
        Kind::WhileStatement => reveal_strlit("WhileStatement"),
        Kind::DoWhileStatement => reveal_strlit("DoWhileStatement"),
        Kind::ForInStatement => reveal_strlit("ForInStatement"),
        Kind::ForOfStatement => reveal_strlit("ForOfStatement"),
        Kind::SwitchStatement => reveal_strlit("SwitchStatement"),
        Kind::SwitchCase => reveal_strlit("SwitchCase"),
        Kind::TryStatement => reveal_strlit("TryStatement"),
        Kind::CatchClause => reveal_strlit("CatchClause"),
        Kind::ThrowStatement => reveal_strlit("ThrowStatement"),
        Kind::ReturnStatement => reveal_strlit("ReturnStatement"),
        Kind::DebuggerStatement => reveal_strlit("DebuggerStatement"),
        Kind::ImportDeclaration => reveal_strlit("ImportDeclaration"),
        Kind::ImportSpecifier => reveal_strlit("ImportSpecifier"),
        Kind::ImportDefaultSpecifier => reveal_strlit("ImportDefaultSpecifier"),
        Kind::ImportNamespaceSpecifier => reveal_strlit("ImportNamespaceSpecifier"),
        Kind::ExportNamedDeclaration => reveal_strlit("ExportNamedDeclaration"),
        Kind::ExportDefaultDeclaration => reveal_strlit("ExportDefaultDeclaration"),
        Kind::ExportAllDeclaration => reveal_strlit("ExportAllDeclaration"),
        Kind::ExportSpecifier => reveal_strlit("ExportSpecifier"),
        Kind::ArrowFunctionExpression => reveal_strlit("ArrowFunctionExpression"),
        Kind::CallExpression => reveal_strlit("CallExpression"),
        Kind::MemberExpression => reveal_strlit("MemberExpression"),
        Kind::BinaryExpression => reveal_strlit("BinaryExpression"),
        Kind::UnaryExpression => reveal_strlit("UnaryExpression"),
        Kind::ConditionalExpression => reveal_strlit("ConditionalExpression"),
        Kind::ObjectExpression => reveal_strlit("ObjectExpression"),
        Kind::ArrayExpression => reveal_strlit("ArrayExpression"),
        Kind::Identifier => reveal_strlit("Identifier"),
        Kind::Literal => reveal_strlit("Literal"),
        Kind::TSTypeAliasDeclaration => reveal_strlit("TSTypeAliasDeclaration"),
        Kind::TSInterfaceDeclaration => reveal_strlit("TSInterfaceDeclaration"),
        Kind::TSEnumDeclaration => reveal_strlit("TSEnumDeclaration"),
        Kind::TSTypeAnnotation => reveal_strlit("TSTypeAnnotation"),
        Kind::TSTypeReference => reveal_strlit("TSTypeReference"),
        Kind::TSTypeParameter => reveal_strlit("TSTypeParameter"),
        Kind::TSTypeParameterDeclaration => reveal_strlit("TSTypeParameterDeclaration"),
        Kind::TSPropertySignature => reveal_strlit("TSPropertySignature"),
        Kind::TSMethodSignature => reveal_strlit("TSMethodSignature"),
        Kind::TSInterfaceBody => reveal_strlit("TSInterfaceBody"),
        Kind::TSEnumMember => reveal_strlit("TSEnumMember"),
        Kind::TSUnionType => reveal_strlit("TSUnionType"),
        Kind::TSIntersectionType => reveal_strlit("TSIntersectionType"),
        Kind::JSXElement => reveal_strlit("JSXElement"),
        Kind::JSXOpeningElement => reveal_strlit("JSXOpeningElement"),
        Kind::JSXClosingElement => reveal_strlit("JSXClosingElement"),
        Kind::JSXFragment => reveal_strlit("JSXFragment"),
        Kind::JSXAttribute => reveal_strlit("JSXAttribute"),
        Kind::JSXSpreadAttribute => reveal_strlit("JSXSpreadAttribute"),
        Kind::JSXIdentifier => reveal_strlit("JSXIdentifier"),
        Kind::JSXMemberExpression => reveal_strlit("JSXMemberExpression"),
        Kind::JSXText => reveal_strlit("JSXText"),
        Kind::JSXExpressionContainer => reveal_strlit("JSXExpressionContainer"),
        Kind::SequenceExpression => reveal_strlit("SequenceExpression"),
        Kind::AssignmentExpression => reveal_strlit("AssignmentExpression"),
        Kind::NumericLiteral => reveal_strlit("NumericLiteral"),
        Kind::StringLiteral => reveal_strlit("StringLiteral"),
        Kind::BooleanLiteral => reveal_strlit("BooleanLiteral"),
        Kind::NullLiteral => reveal_strlit("NullLiteral"),
        Kind::UpdateExpression => reveal_strlit("UpdateExpression"),
        Kind::NewExpression => reveal_strlit("NewExpression"),
        Kind::ThisExpression => reveal_strlit("ThisExpression"),
        Kind::TemplateLiteral => reveal_strlit("TemplateLiteral"),
        Kind::TaggedTemplateExpression => reveal_strlit("TaggedTemplateExpression"),
        Kind::AwaitExpression => reveal_strlit("AwaitExpression"),
        Kind::YieldExpression => reveal_strlit("YieldExpression"),
        Kind::Expression => reveal_strlit("Expression"),
        Kind::Declaration => reveal_strlit("Declaration"),
        Kind::AssignmentTarget => reveal_strlit("AssignmentTarget"),
        Kind::TSModuleDeclaration => reveal_strlit("TSModuleDeclaration"),
        Kind::TSImportEqualsDeclaration => reveal_strlit("TSImportEqualsDeclaration"),
        Kind::TSExportAssignment => reveal_strlit("TSExportAssignment"),
        Kind::TSNamespaceExportDeclaration => reveal_strlit("TSNamespaceExportDeclaration"),
        Kind::PropertyDefinition => reveal_strlit("PropertyDefinition"),
        Kind::StaticBlock => reveal_strlit("StaticBlock"),
        Kind::AccessorProperty => reveal_strlit("AccessorProperty"),
        Kind::TSIndexSignature => reveal_strlit("TSIndexSignature"),
        Kind::TSAnyKeyword => reveal_strlit("TSAnyKeyword"),
        Kind::TSBooleanKeyword => reveal_strlit("TSBooleanKeyword"),
        Kind::TSNeverKeyword => reveal_strlit("TSNeverKeyword"),
        Kind::TSNullKeyword => reveal_strlit("TSNullKeyword"),
        Kind::TSNumberKeyword => reveal_strlit("TSNumberKeyword"),
        Kind::TSStringKeyword => reveal_strlit("TSStringKeyword"),
        Kind::TSUndefinedKeyword => reveal_strlit("TSUndefinedKeyword"),
        Kind::TSUnknownKeyword => reveal_strlit("TSUnknownKeyword"),
        Kind::TSVoidKeyword => reveal_strlit("TSVoidKeyword"),
        Kind::TSType => reveal_strlit("TSType"),
        Kind::TSSignature => reveal_strlit("TSSignature"),
        Kind::TSInterfaceHeritage => reveal_strlit("TSInterfaceHeritage"),
    }
}

/// The keyword that introduces a variable declaration.
#[derive(Clone, Copy, Debug, PartialEq, Eq, Hash, Structural)]
pub enum VariableKind {
    Const,
    Let,
    Var,
    Using,
    AwaitUsing,
}

/// The keyword text of a declaration kind.
pub open spec fn variable_kind_text(k: VariableKind) -> Seq<char> {
    match k {
        VariableKind::Const => "const"@,
        VariableKind::Let => "let"@,
        VariableKind::Var => "var"@,
        VariableKind::Using => "using"@,
        VariableKind::AwaitUsing => "await using"@,
    }
}

impl VariableKind {
    pub fn as_str(self) -> (r: &'static str)
        ensures
            r@ == variable_kind_text(self),
    {
        match self {
            VariableKind::Const => "const",
            VariableKind::Let => "let",
            VariableKind::Var => "var",
            VariableKind::Using => "using",
            VariableKind::AwaitUsing => "await using",
        }
    }
}

#[derive(Debug)]
pub struct Program {
    pub body: Vec<Node>,
}

#[derive(Debug)]
pub struct FunctionDeclaration {
    pub name: Option<String>,
    pub is_async: bool,
    pub is_generator: bool,
    pub body: Option<Box<Node>>,
    pub params: Vec<Node>,
    pub type_parameters: Option<Box<Node>>,
    pub return_type: Option<Box<Node>>,
}

#[derive(Debug)]
pub struct MethodDefinition {
    pub name: Option<String>,
    pub is_async: bool,
    pub is_generator: bool,
    pub function_body: Option<Box<Node>>,
    pub params: Vec<Node>,
}

#[derive(Debug)]
pub struct ClassBody {
    pub methods: Vec<Node>,
}

#[derive(Debug)]
pub struct ClassDeclaration {
    pub name: Option<String>,
    pub superclass: Option<String>,
    pub type_parameters: Option<Box<Node>>,
    pub body: Option<Box<Node>>,
}

#[derive(Debug)]
pub struct VariableDeclaration {
    pub kind: VariableKind,
    pub declarations: Vec<Node>,
}

#[derive(Debug)]
pub struct VariableDeclarator {
    pub id: Option<Box<Node>>,
    pub init: Option<Box<Node>>,
    pub type_annotation: Option<Box<Node>>,
}

#[derive(Debug)]
pub struct FormalParameter {
    pub name: Option<String>,
    pub type_annotation: Option<Box<Node>>,
}

#[derive(Debug)]
pub struct BlockStatement {
    pub body: Vec<Node>,
}

#[derive(Debug)]
pub struct BreakStatement {
    pub label: Option<Box<Node>>,
}

#[derive(Debug)]
pub struct ContinueStatement {
    pub label: Option<Box<Node>>,
}

#[derive(Debug)]
pub struct LabeledStatement {
    pub label: Option<Box<Node>>,
    pub body: Option<Box<Node>>,
}

#[derive(Debug)]
pub struct EmptyStatement {
}

#[derive(Debug)]
pub struct WithStatement {
    pub object: Option<Box<Node>>,
    pub body: Option<Box<Node>>,
}

#[derive(Debug)]
pub struct ForStatement {
    pub init: Option<Box<Node>>,
    pub test: Option<Box<Node>>,
    pub update: Option<Box<Node>>,
    pub body: Option<Box<Node>>,
}

#[derive(Debug)]
pub struct IfStatement {
    pub test: Option<Box<Node>>,
    pub consequent: Option<Box<Node>>,
    pub alternate: Option<Box<Node>>,
}

#[derive(Debug)]
pub struct ExpressionStatement {
    pub expression: Option<Box<Node>>,
}

#[derive(Debug)]
pub struct WhileStatement {
    pub test: Option<Box<Node>>,
    pub body: Option<Box<Node>>,
}

#[derive(Debug)]
pub struct DoWhileStatement {
    pub body: Option<Box<Node>>,
    pub test: Option<Box<Node>>,
}

#[derive(Debug)]
pub struct ForInStatement {
    pub left: Option<Box<Node>>,
    pub right: Option<Box<Node>>,
    pub body: Option<Box<Node>>,
}

#[derive(Debug)]
pub struct ForOfStatement {
    pub left: Option<Box<Node>>,
    pub right: Option<Box<Node>>,
    pub body: Option<Box<Node>>,
    pub is_await: bool,
}

#[derive(Debug)]
pub struct SwitchStatement {
    pub discriminant: Option<Box<Node>>,
    pub cases: Vec<Node>,
}

#[derive(Debug)]
pub struct SwitchCase {
    pub test: Option<Box<Node>>,
    pub consequent: Vec<Node>,
}

#[derive(Debug)]
pub struct TryStatement {
    pub block: Option<Box<Node>>,
    pub handler: Option<Box<Node>>,
    pub finalizer: Option<Box<Node>>,
}

#[derive(Debug)]
pub struct CatchClause {
    pub param: Option<Box<Node>>,
    pub body: Option<Box<Node>>,
}

#[derive(Debug)]
pub struct ThrowStatement {
    pub argument: Option<Box<Node>>,
}

#[derive(Debug)]
pub struct ReturnStatement {
    pub argument: Option<Box<Node>>,
}

#[derive(Debug)]
pub struct DebuggerStatement {
}

#[derive(Debug)]
pub struct ImportDeclaration {
    pub source: Box<Node>,
    pub specifiers: Vec<Node>,
}

#[derive(Debug)]
pub struct ImportSpecifier {
    pub imported: Box<Node>,
    pub local: Box<Node>,
}

#[derive(Debug)]
pub struct ImportDefaultSpecifier {
    pub local: Box<Node>,
}

#[derive(Debug)]
pub struct ImportNamespaceSpecifier {
    pub local: Box<Node>,
}

#[derive(Debug)]
pub struct ExportNamedDeclaration {
    pub declaration: Option<Box<Node>>,
    pub specifiers: Vec<Node>,
    pub source: Option<Box<Node>>,
}

#[derive(Debug)]
pub struct ExportDefaultDeclaration {
    pub declaration: Box<Node>,
}

#[derive(Debug)]
pub struct ExportAllDeclaration {
    pub source: Box<Node>,
    pub exported: Option<Box<Node>>,
}

#[derive(Debug)]
pub struct ExportSpecifier {
    pub local: Box<Node>,
    pub exported: Box<Node>,
}

#[derive(Debug)]
pub struct ArrowFunctionExpression {
    pub params: Vec<Node>,
    pub body: Option<Box<Node>>,
    pub is_async: bool,
    pub is_generator: bool,
}

#[derive(Debug)]
pub struct CallExpression {
    pub callee: Option<Box<Node>>,
    pub arguments: Vec<Node>,
}

#[derive(Debug)]
pub struct MemberExpression {
    pub object: Option<Box<Node>>,
    pub property: Option<Box<Node>>,
    pub computed: bool,
}

#[derive(Debug)]
pub struct BinaryExpression {
    pub left: Option<Box<Node>>,
    pub operator: String,
    pub right: Option<Box<Node>>,
}

#[derive(Debug)]
pub struct UnaryExpression {
    pub operator: String,
    pub argument: Option<Box<Node>>,
}

#[derive(Debug)]
pub struct ConditionalExpression {
    pub test: Option<Box<Node>>,
    pub consequent: Option<Box<Node>>,
    pub alternate: Option<Box<Node>>,
}

#[derive(Debug)]
pub struct ObjectExpression {
    pub properties: Vec<Node>,
}

#[derive(Debug)]
pub struct ArrayExpression {
    pub elements: Vec<Node>,
}

#[derive(Debug)]
pub struct Identifier {
    pub name: String,
}

#[derive(Debug)]
pub struct Literal {
    pub value: String,
    pub raw: String,
}

#[derive(Debug)]
pub struct TSTypeAliasDeclaration {
    pub name: String,
    pub type_annotation: Option<Box<Node>>,
    pub type_parameters: Option<Box<Node>>,
}

#[derive(Debug)]
pub struct TSInterfaceDeclaration {
    pub name: String,
    pub body: Option<Box<Node>>,
    pub extends: Option<Vec<Node>>,
    pub type_parameters: Option<Box<Node>>,
}

#[derive(Debug)]
pub struct TSEnumDeclaration {
    pub name: String,
    pub members: Vec<Node>,
    pub is_const: bool,
}

#[derive(Debug)]
pub struct TSTypeAnnotation {
    pub type_annotation: Option<Box<Node>>,
}

#[derive(Debug)]
pub struct TSTypeReference {
    pub type_ref_name: Option<Box<Node>>,
    pub type_parameters: Option<Box<Node>>,
}

#[derive(Debug)]
pub struct TSTypeParameter {
    pub name: String,
    pub constraint: Option<Box<Node>>,
    pub default: Option<Box<Node>>,
}

#[derive(Debug)]
pub struct TSTypeParameterDeclaration {
    pub params: Vec<Node>,
}

#[derive(Debug)]
pub struct TSPropertySignature {
    pub key: Option<Box<Node>>,
    pub optional: bool,
    pub readonly: bool,
    pub type_annotation: Option<Box<Node>>,
}

#[derive(Debug)]
pub struct TSMethodSignature {
    pub key: Option<Box<Node>>,
    pub params: Vec<Node>,
    pub return_type: Option<Box<Node>>,
}

#[derive(Debug)]
pub struct TSInterfaceBody {
    pub body: Vec<Node>,
}

#[derive(Debug)]
pub struct TSEnumMember {
    pub id: Option<Box<Node>>,
    pub initializer: Option<Box<Node>>,
}

#[derive(Debug)]
pub struct TSUnionType {
    pub types: Vec<Node>,
}

#[derive(Debug)]
pub struct TSIntersectionType {
    pub types: Vec<Node>,
}

#[derive(Debug)]
pub struct JSXElement {
    pub opening_element: Box<Node>,
    pub children: Vec<Node>,
    pub closing_element: Option<Box<Node>>,
}

#[derive(Debug)]
pub struct JSXOpeningElement {
    pub name: Box<Node>,
    pub attributes: Vec<Node>,
    pub self_closing: bool,
}

#[derive(Debug)]
pub struct JSXClosingElement {
    pub name: Box<Node>,
}

#[derive(Debug)]
pub struct JSXFragment {
    pub children: Vec<Node>,
}

#[derive(Debug)]
pub struct JSXAttribute {
    pub name: Box<Node>,
    pub value: Option<Box<Node>>,
}

#[derive(Debug)]
pub struct JSXSpreadAttribute {
    pub argument: Box<Node>,
}

#[derive(Debug)]
pub struct JSXIdentifier {
    pub name: String,
}

#[derive(Debug)]
pub struct JSXMemberExpression {
    pub object: Box<Node>,
    pub property: Box<Node>,
}

#[derive(Debug)]
pub struct JSXText {
    pub value: String,
    pub raw: String,
}

#[derive(Debug)]
pub struct JSXExpressionContainer {
    pub expression: Box<Node>,
}

/// What a node holds beyond its kind, span and lines: one variant per modelled
/// kind, and `Generic` for a node that keeps only its kind.
#[derive(Debug)]
pub enum NodeData {
    Generic(Kind),
    Program(Program),
    FunctionDeclaration(FunctionDeclaration),
    MethodDefinition(MethodDefinition),
    ClassBody(ClassBody),
    ClassDeclaration(ClassDeclaration),
    VariableDeclaration(VariableDeclaration),
    VariableDeclarator(VariableDeclarator),
    FormalParameter(FormalParameter),
    BlockStatement(BlockStatement),
    BreakStatement(BreakStatement),
    ContinueStatement(ContinueStatement),
    LabeledStatement(LabeledStatement),
    EmptyStatement(EmptyStatement),
    WithStatement(WithStatement),
    ForStatement(ForStatement),
    IfStatement(IfStatement),
    ExpressionStatement(ExpressionStatement),
    WhileStatement(WhileStatement),
    DoWhileStatement(DoWhileStatement),
    ForInStatement(ForInStatement),
    ForOfStatement(ForOfStatement),
    SwitchStatement(SwitchStatement),
    SwitchCase(SwitchCase),
    TryStatement(TryStatement),
    CatchClause(CatchClause),
    ThrowStatement(ThrowStatement),
    ReturnStatement(ReturnStatement),
    DebuggerStatement(DebuggerStatement),
    ImportDeclaration(ImportDeclaration),
    ImportSpecifier(ImportSpecifier),
    ImportDefaultSpecifier(ImportDefaultSpecifier),
    ImportNamespaceSpecifier(ImportNamespaceSpecifier),
    ExportNamedDeclaration(ExportNamedDeclaration),
    ExportDefaultDeclaration(ExportDefaultDeclaration),
    ExportAllDeclaration(ExportAllDeclaration),
    ExportSpecifier(ExportSpecifier),
    ArrowFunctionExpression(ArrowFunctionExpression),
    CallExpression(CallExpression),
    MemberExpression(MemberExpression),
    BinaryExpression(BinaryExpression),
    UnaryExpression(UnaryExpression),
    ConditionalExpression(ConditionalExpression),
    ObjectExpression(ObjectExpression),
    ArrayExpression(ArrayExpression),
    Identifier(Identifier),
    Literal(Literal),
    TSTypeAliasDeclaration(TSTypeAliasDeclaration),
    TSInterfaceDeclaration(TSInterfaceDeclaration),
    TSEnumDeclaration(TSEnumDeclaration),
    TSTypeAnnotation(TSTypeAnnotation),
    TSTypeReference(TSTypeReference),
    TSTypeParameter(TSTypeParameter),
    TSTypeParameterDeclaration(TSTypeParameterDeclaration),
    TSPropertySignature(TSPropertySignature),
    TSMethodSignature(TSMethodSignature),
    TSInterfaceBody(TSInterfaceBody),
    TSEnumMember(TSEnumMember),
    TSUnionType(TSUnionType),
    TSIntersectionType(TSIntersectionType),
    JSXElement(JSXElement),
    JSXOpeningElement(JSXOpeningElement),
    JSXClosingElement(JSXClosingElement),
    JSXFragment(JSXFragment),
    JSXAttribute(JSXAttribute),
    JSXSpreadAttribute(JSXSpreadAttribute),
    JSXIdentifier(JSXIdentifier),
    JSXMemberExpression(JSXMemberExpression),
    JSXText(JSXText),
    JSXExpressionContainer(JSXExpressionContainer),
}

/// A node of the uniform tree: its data, its byte span in the source, and the
/// 1-based lines on which the span starts and ends.
#[derive(Debug)]
pub struct Node {
    pub span: Span,
    pub start_line: usize,
    pub end_line: usize,
    pub data: NodeData,
}

pub open spec fn opt(o: Option<Box<Node>>) -> Seq<Node> {
    match o {
        Some(b) => seq![*b],
        None => Seq::empty(),
    }
}

pub open spec fn opt_list(o: Option<Vec<Node>>) -> Seq<Node> {
    match o {
        Some(v) => v@,
        None => Seq::empty(),
    }
}

/// The kind a node's data stands for.
pub open spec fn kind_of(d: NodeData) -> Kind {
    match d {
        NodeData::Generic(k) => k,
        NodeData::Program(_) => Kind::Program,
        NodeData::FunctionDeclaration(_) => Kind::FunctionDeclaration,
        NodeData::MethodDefinition(_) => Kind::MethodDefinition,
        NodeData::ClassBody(_) => Kind::ClassBody,
        NodeData::ClassDeclaration(_) => Kind::ClassDeclaration,
        NodeData::VariableDeclaration(_) => Kind::VariableDeclaration,
        NodeData::VariableDeclarator(_) => Kind::VariableDeclarator,
        NodeData::FormalParameter(_) => Kind::FormalParameter,
        NodeData::BlockStatement(_) => Kind::BlockStatement,
        NodeData::BreakStatement(_) => Kind::BreakStatement,
        NodeData::ContinueStatement(_) => Kind::ContinueStatement,
        NodeData::LabeledStatement(_) => Kind::LabeledStatement,
        NodeData::EmptyStatement(_) => Kind::EmptyStatement,
        NodeData::WithStatement(_) => Kind::WithStatement,
        NodeData::ForStatement(_) => Kind::ForStatement,
        NodeData::IfStatement(_) => Kind::IfStatement,
        NodeData::ExpressionStatement(_) => Kind::ExpressionStatement,
        NodeData::WhileStatement(_) => Kind::WhileStatement,
        NodeData::DoWhileStatement(_) => Kind::DoWhileStatement,
        NodeData::ForInStatement(_) => Kind::ForInStatement,
        NodeData::ForOfStatement(_) => Kind::ForOfStatement,
        NodeData::SwitchStatement(_) => Kind::SwitchStatement,
        NodeData::SwitchCase(_) => Kind::SwitchCase,
        NodeData::TryStatement(_) => Kind::TryStatement,
        NodeData::CatchClause(_) => Kind::CatchClause,
        NodeData::ThrowStatement(_) => Kind::ThrowStatement,
        NodeData::ReturnStatement(_) => Kind::ReturnStatement,
        NodeData::DebuggerStatement(_) => Kind::DebuggerStatement,
        NodeData::ImportDeclaration(_) => Kind::ImportDeclaration,
        NodeData::ImportSpecifier(_) => Kind::ImportSpecifier,
        NodeData::ImportDefaultSpecifier(_) => Kind::ImportDefaultSpecifier,
        NodeData::ImportNamespaceSpecifier(_) => Kind::ImportNamespaceSpecifier,
        NodeData::ExportNamedDeclaration(_) => Kind::ExportNamedDeclaration,
        NodeData::ExportDefaultDeclaration(_) => Kind::ExportDefaultDeclaration,
        NodeData::ExportAllDeclaration(_) => Kind::ExportAllDeclaration,
        NodeData::ExportSpecifier(_) => Kind::ExportSpecifier,
        NodeData::ArrowFunctionExpression(_) => Kind::ArrowFunctionExpression,
        NodeData::CallExpression(_) => Kind::CallExpression,
        NodeData::MemberExpression(_) => Kind::MemberExpression,
        NodeData::BinaryExpression(_) => Kind::BinaryExpression,
        NodeData::UnaryExpression(_) => Kind::UnaryExpression,
        NodeData::ConditionalExpression(_) => Kind::ConditionalExpression,
        NodeData::ObjectExpression(_) => Kind::ObjectExpression,
        NodeData::ArrayExpression(_) => Kind::ArrayExpression,
        NodeData::Identifier(_) => Kind::Identifier,
        NodeData::Literal(_) => Kind::Literal,
        NodeData::TSTypeAliasDeclaration(_) => Kind::TSTypeAliasDeclaration,
        NodeData::TSInterfaceDeclaration(_) => Kind::TSInterfaceDeclaration,
        NodeData::TSEnumDeclaration(_) => Kind::TSEnumDeclaration,
        NodeData::TSTypeAnnotation(_) => Kind::TSTypeAnnotation,
        NodeData::TSTypeReference(_) => Kind::TSTypeReference,
        NodeData::TSTypeParameter(_) => Kind::TSTypeParameter,
        NodeData::TSTypeParameterDeclaration(_) => Kind::TSTypeParameterDeclaration,
        NodeData::TSPropertySignature(_) => Kind::TSPropertySignature,
        NodeData::TSMethodSignature(_) => Kind::TSMethodSignature,
        NodeData::TSInterfaceBody(_) => Kind::TSInterfaceBody,
        NodeData::TSEnumMember(_) => Kind::TSEnumMember,
        NodeData::TSUnionType(_) => Kind::TSUnionType,
        NodeData::TSIntersectionType(_) => Kind::TSIntersectionType,
        NodeData::JSXElement(_) => Kind::JSXElement,
        NodeData::JSXOpeningElement(_) => Kind::JSXOpeningElement,
        NodeData::JSXClosingElement(_) => Kind::JSXClosingElement,
        NodeData::JSXFragment(_) => Kind::JSXFragment,
        NodeData::JSXAttribute(_) => Kind::JSXAttribute,
        NodeData::JSXSpreadAttribute(_) => Kind::JSXSpreadAttribute,
        NodeData::JSXIdentifier(_) => Kind::JSXIdentifier,
        NodeData::JSXMemberExpression(_) => Kind::JSXMemberExpression,
        NodeData::JSXText(_) => Kind::JSXText,
        NodeData::JSXExpressionContainer(_) => Kind::JSXExpressionContainer,
    }
}

/// The structural children of a node, by role, in the order of the role
/// catalog: single-node roles (`init`, `declaration`, `function_body`, `value`,
/// `key`, `consequent`, `alternate`, `test`, `update`, `discriminant`, `block`,
/// `handler`, `finalizer`, `param`, `left`, `right`, `expression`, `callee`,
/// `object`, `property`, `argument`, `source`, `local`, `imported`, `exported`,
/// `type_annotation`, `type_parameters`, `opening_element`, `closing_element`,
/// `return_type`, `id`, `constraint`, `default`, `initializer`, `label`,
/// `type_ref_name`), then list roles (`declarations`, `params`, `methods`, `cases`,
/// `arguments`, `properties`, `elements`, `specifiers`, `members`, `children`,
/// `attributes`, `types`), then the roles that are a single node on some kinds
/// and a list on others (`body`, `extends`, `consequent`), then a JSX `name`.
pub open spec fn children_of(d: NodeData) -> Seq<Node> {
    match d {
        NodeData::Program(x) => Seq::empty() + x.body@,
        NodeData::FunctionDeclaration(x) => Seq::empty() + opt(x.type_parameters) + opt(x.return_type) + x.params@ + opt(x.body),
        NodeData::MethodDefinition(x) => Seq::empty() + opt(x.function_body) + x.params@,
        NodeData::ClassBody(x) => Seq::empty() + x.methods@,
        NodeData::ClassDeclaration(x) => Seq::empty() + opt(x.type_parameters) + opt(x.body),
        NodeData::VariableDeclaration(x) => Seq::empty() + x.declarations@,
        NodeData::VariableDeclarator(x) => Seq::empty() + opt(x.init) + opt(x.type_annotation) + opt(x.id),
        NodeData::FormalParameter(x) => Seq::empty() + opt(x.type_annotation),
        NodeData::BlockStatement(x) => Seq::empty() + x.body@,
        NodeData::BreakStatement(x) => Seq::empty() + opt(x.label),
        NodeData::ContinueStatement(x) => Seq::empty() + opt(x.label),
        NodeData::LabeledStatement(x) => Seq::empty() + opt(x.label) + opt(x.body),
        NodeData::WithStatement(x) => Seq::empty() + opt(x.object) + opt(x.body),
        NodeData::ForStatement(x) => Seq::empty() + opt(x.init) + opt(x.test) + opt(x.update) + opt(x.body),
        NodeData::IfStatement(x) => Seq::empty() + opt(x.consequent) + opt(x.alternate) + opt(x.test),
        NodeData::ExpressionStatement(x) => Seq::empty() + opt(x.expression),
        NodeData::WhileStatement(x) => Seq::empty() + opt(x.test) + opt(x.body),
        NodeData::DoWhileStatement(x) => Seq::empty() + opt(x.test) + opt(x.body),
        NodeData::ForInStatement(x) => Seq::empty() + opt(x.left) + opt(x.right) + opt(x.body),
        NodeData::ForOfStatement(x) => Seq::empty() + opt(x.left) + opt(x.right) + opt(x.body),
        NodeData::SwitchStatement(x) => Seq::empty() + opt(x.discriminant) + x.cases@,
        NodeData::SwitchCase(x) => Seq::empty() + opt(x.test) + x.consequent@,
        NodeData::TryStatement(x) => Seq::empty() + opt(x.block) + opt(x.handler) + opt(x.finalizer),
        NodeData::CatchClause(x) => Seq::empty() + opt(x.param) + opt(x.body),
        NodeData::ThrowStatement(x) => Seq::empty() + opt(x.argument),
        NodeData::ReturnStatement(x) => Seq::empty() + opt(x.argument),
        NodeData::ImportDeclaration(x) => Seq::empty() + seq![*x.source] + x.specifiers@,
        NodeData::ImportSpecifier(x) => Seq::empty() + seq![*x.local] + seq![*x.imported],
        NodeData::ImportDefaultSpecifier(x) => Seq::empty() + seq![*x.local],
        NodeData::ImportNamespaceSpecifier(x) => Seq::empty() + seq![*x.local],
        NodeData::ExportNamedDeclaration(x) => Seq::empty() + opt(x.declaration) + opt(x.source) + x.specifiers@,
        NodeData::ExportDefaultDeclaration(x) => Seq::empty() + seq![*x.declaration],
        NodeData::ExportAllDeclaration(x) => Seq::empty() + seq![*x.source] + opt(x.exported),
        NodeData::ExportSpecifier(x) => Seq::empty() + seq![*x.local] + seq![*x.exported],
        NodeData::ArrowFunctionExpression(x) => Seq::empty() + x.params@ + opt(x.body),
        NodeData::CallExpression(x) => Seq::empty() + opt(x.callee) + x.arguments@,
        NodeData::MemberExpression(x) => Seq::empty() + opt(x.object) + opt(x.property),
        NodeData::BinaryExpression(x) => Seq::empty() + opt(x.left) + opt(x.right),
        NodeData::UnaryExpression(x) => Seq::empty() + opt(x.argument),
        NodeData::ConditionalExpression(x) => Seq::empty() + opt(x.consequent) + opt(x.alternate) + opt(x.test),
        NodeData::ObjectExpression(x) => Seq::empty() + x.properties@,
        NodeData::ArrayExpression(x) => Seq::empty() + x.elements@,
        NodeData::TSTypeAliasDeclaration(x) => Seq::empty() + opt(x.type_annotation) + opt(x.type_parameters),
        NodeData::TSInterfaceDeclaration(x) => Seq::empty() + opt(x.type_parameters) + opt(x.body) + opt_list(x.extends),
        NodeData::TSEnumDeclaration(x) => Seq::empty() + x.members@,
        NodeData::TSTypeAnnotation(x) => Seq::empty() + opt(x.type_annotation),
        NodeData::TSTypeReference(x) => Seq::empty() + opt(x.type_parameters) + opt(x.type_ref_name),
        NodeData::TSTypeParameter(x) => Seq::empty() + opt(x.constraint) + opt(x.default),
        NodeData::TSTypeParameterDeclaration(x) => Seq::empty() + x.params@,
        NodeData::TSPropertySignature(x) => Seq::empty() + opt(x.key) + opt(x.type_annotation),
        NodeData::TSMethodSignature(x) => Seq::empty() + opt(x.key) + opt(x.return_type) + x.params@,
        NodeData::TSInterfaceBody(x) => Seq::empty() + x.body@,
        NodeData::TSEnumMember(x) => Seq::empty() + opt(x.id) + opt(x.initializer),
        NodeData::TSUnionType(x) => Seq::empty() + x.types@,
        NodeData::TSIntersectionType(x) => Seq::empty() + x.types@,
        NodeData::JSXElement(x) => Seq::empty() + seq![*x.opening_element] + opt(x.closing_element) + x.children@,
        NodeData::JSXOpeningElement(x) => Seq::empty() + x.attributes@ + seq![*x.name],
        NodeData::JSXClosingElement(x) => Seq::empty() + seq![*x.name],
        NodeData::JSXFragment(x) => Seq::empty() + x.children@,
        NodeData::JSXAttribute(x) => Seq::empty() + opt(x.value) + seq![*x.name],
        NodeData::JSXSpreadAttribute(x) => Seq::empty() + seq![*x.argument],
        NodeData::JSXMemberExpression(x) => Seq::empty() + seq![*x.object] + seq![*x.property],
        NodeData::JSXExpressionContainer(x) => Seq::empty() + seq![*x.expression],
        _ => Seq::empty(),
    }
}

/// The node's span lies in the source and its lines are those of its ends.
pub open spec fn placed(n: Node, src: Seq<u8>) -> bool {
    &&& n.span.within(src.len() as int)
    &&& n.start_line as nat == line_of(src, n.span.start as int)
    &&& n.end_line as nat == line_of(src, n.span.end as int)
}

/// Every node of the tree rooted at `n` is placed in `src`.
pub open spec fn tree_ok(n: Node, src: Seq<u8>) -> bool
    decreases n,
    via tree_ok_decreases
{
    &&& placed(n, src)
    &&& forall|i: int|
        0 <= i < children_of(n.data).len() ==> tree_ok(#[trigger] children_of(n.data)[i], src)
}

/// Every node of every tree in `s` is placed in `src`.
pub open spec fn all_ok(s: Seq<Node>, src: Seq<u8>) -> bool {
    forall|i: int| 0 <= i < s.len() ==> tree_ok(#[trigger] s[i], src)
}

#[via_fn]
proof fn tree_ok_decreases(n: Node, src: Seq<u8>) {
    assert forall|i: int| 0 <= i < children_of(n.data).len() implies decreases_to!(n => children_of(n.data)[i]) by {
        lemma_child_decreases(n, i);
    }
}

proof fn lemma_child_decreases(n: Node, i: int)
    requires
        0 <= i < children_of(n.data).len(),
    ensures
        decreases_to!(n => children_of(n.data)[i]),
{
    match n.data {
        NodeData::Program(_) => lemma_child_decreases_program(n, i),
        NodeData::FunctionDeclaration(_) => lemma_child_decreases_functiondeclaration(n, i),
        NodeData::MethodDefinition(_) => lemma_child_decreases_methoddefinition(n, i),
        NodeData::ClassBody(_) => lemma_child_decreases_classbody(n, i),
        NodeData::ClassDeclaration(_) => lemma_child_decreases_classdeclaration(n, i),
        NodeData::VariableDeclaration(_) => lemma_child_decreases_variabledeclaration(n, i),
        NodeData::VariableDeclarator(_) => lemma_child_decreases_variabledeclarator(n, i),
        NodeData::FormalParameter(_) => lemma_child_decreases_formalparameter(n, i),
        NodeData::BlockStatement(_) => lemma_child_decreases_blockstatement(n, i),
        NodeData::BreakStatement(_) => lemma_child_decreases_breakstatement(n, i),
        NodeData::ContinueStatement(_) => lemma_child_decreases_continuestatement(n, i),
        NodeData::LabeledStatement(_) => lemma_child_decreases_labeledstatement(n, i),
        NodeData::WithStatement(_) => lemma_child_decreases_withstatement(n, i),
        NodeData::ForStatement(_) => lemma_child_decreases_forstatement(n, i),
        NodeData::IfStatement(_) => lemma_child_decreases_ifstatement(n, i),
        NodeData::ExpressionStatement(_) => lemma_child_decreases_expressionstatement(n, i),
        NodeData::WhileStatement(_) => lemma_child_decreases_whilestatement(n, i),
        NodeData::DoWhileStatement(_) => lemma_child_decreases_dowhilestatement(n, i),
        NodeData::ForInStatement(_) => lemma_child_decreases_forinstatement(n, i),
        NodeData::ForOfStatement(_) => lemma_child_decreases_forofstatement(n, i),
        NodeData::SwitchStatement(_) => lemma_child_decreases_switchstatement(n, i),
        NodeData::SwitchCase(_) => lemma_child_decreases_switchcase(n, i),
        NodeData::TryStatement(_) => lemma_child_decreases_trystatement(n, i),
        NodeData::CatchClause(_) => lemma_child_decreases_catchclause(n, i),
        NodeData::ThrowStatement(_) => lemma_child_decreases_throwstatement(n, i),
        NodeData::ReturnStatement(_) => lemma_child_decreases_returnstatement(n, i),
        NodeData::ImportDeclaration(_) => lemma_child_decreases_importdeclaration(n, i),
        NodeData::ImportSpecifier(_) => lemma_child_decreases_importspecifier(n, i),
        NodeData::ImportDefaultSpecifier(_) => lemma_child_decreases_importdefaultspecifier(n, i),
        NodeData::ImportNamespaceSpecifier(_) => lemma_child_decreases_importnamespacespecifier(n, i),
        NodeData::ExportNamedDeclaration(_) => lemma_child_decreases_exportnameddeclaration(n, i),
        NodeData::ExportDefaultDeclaration(_) => lemma_child_decreases_exportdefaultdeclaration(n, i),
        NodeData::ExportAllDeclaration(_) => lemma_child_decreases_exportalldeclaration(n, i),
        NodeData::ExportSpecifier(_) => lemma_child_decreases_exportspecifier(n, i),
        NodeData::ArrowFunctionExpression(_) => lemma_child_decreases_arrowfunctionexpression(n, i),
        NodeData::CallExpression(_) => lemma_child_decreases_callexpression(n, i),
        NodeData::MemberExpression(_) => lemma_child_decreases_memberexpression(n, i),
        NodeData::BinaryExpression(_) => lemma_child_decreases_binaryexpression(n, i),
        NodeData::UnaryExpression(_) => lemma_child_decreases_unaryexpression(n, i),
        NodeData::ConditionalExpression(_) => lemma_child_decreases_conditionalexpression(n, i),
        NodeData::ObjectExpression(_) => lemma_child_decreases_objectexpression(n, i),
        NodeData::ArrayExpression(_) => lemma_child_decreases_arrayexpression(n, i),
        NodeData::TSTypeAliasDeclaration(_) => lemma_child_decreases_tstypealiasdeclaration(n, i),
        NodeData::TSInterfaceDeclaration(_) => lemma_child_decreases_tsinterfacedeclaration(n, i),
        NodeData::TSEnumDeclaration(_) => lemma_child_decreases_tsenumdeclaration(n, i),
        NodeData::TSTypeAnnotation(_) => lemma_child_decreases_tstypeannotation(n, i),
        NodeData::TSTypeReference(_) => lemma_child_decreases_tstypereference(n, i),
        NodeData::TSTypeParameter(_) => lemma_child_decreases_tstypeparameter(n, i),
        NodeData::TSTypeParameterDeclaration(_) => lemma_child_decreases_tstypeparameterdeclaration(n, i),
        NodeData::TSPropertySignature(_) => lemma_child_decreases_tspropertysignature(n, i),
        NodeData::TSMethodSignature(_) => lemma_child_decreases_tsmethodsignature(n, i),
        NodeData::TSInterfaceBody(_) => lemma_child_decreases_tsinterfacebody(n, i),
        NodeData::TSEnumMember(_) => lemma_child_decreases_tsenummember(n, i),
        NodeData::TSUnionType(_) => lemma_child_decreases_tsuniontype(n, i),
        NodeData::TSIntersectionType(_) => lemma_child_decreases_tsintersectiontype(n, i),
        NodeData::JSXElement(_) => lemma_child_decreases_jsxelement(n, i),
        NodeData::JSXOpeningElement(_) => lemma_child_decreases_jsxopeningelement(n, i),
        NodeData::JSXClosingElement(_) => lemma_child_decreases_jsxclosingelement(n, i),
        NodeData::JSXFragment(_) => lemma_child_decreases_jsxfragment(n, i),
        NodeData::JSXAttribute(_) => lemma_child_decreases_jsxattribute(n, i),
        NodeData::JSXSpreadAttribute(_) => lemma_child_decreases_jsxspreadattribute(n, i),
        NodeData::JSXMemberExpression(_) => lemma_child_decreases_jsxmemberexpression(n, i),
        NodeData::JSXExpressionContainer(_) => lemma_child_decreases_jsxexpressioncontainer(n, i),
        _ => {},
    }
}

proof fn lemma_child_decreases_program(n: Node, i: int)
    requires
        n.data is Program,
        0 <= i < children_of(n.data).len(),
    ensures
        decreases_to!(n => children_of(n.data)[i]),
{
    broadcast use vstd::std_specs::vec::axiom_vec_index_decreases;

    let c = children_of(n.data);
    let x = n.data->Program_0;
    let s0 = Seq::<Node>::empty();
    let s1 = s0 + x.body@;
    assert(c == s1);
    if i < s1.len() {
        assert(c[i] == x.body@[i - s0.len()]);
        assert(decreases_to!(x.body => x.body[i - s0.len()]));
    }
}

proof fn lemma_child_decreases_functiondeclaration(n: Node, i: int)
    requires
        n.data is FunctionDeclaration,
        0 <= i < children_of(n.data).len(),
    ensures
        decreases_to!(n => children_of(n.data)[i]),
{
    broadcast use vstd::std_specs::vec::axiom_vec_index_decreases;

    let c = children_of(n.data);
    let x = n.data->FunctionDeclaration_0;
    let s0 = Seq::<Node>::empty();
    let s1 = s0 + opt(x.type_parameters);
    let s2 = s1 + opt(x.return_type);
    let s3 = s2 + x.params@;
    let s4 = s3 + opt(x.body);
    assert(c == s4);
    if i < s1.len() {
        assert(c[i] == *x.type_parameters.unwrap());
    } else if i < s2.len() {
        assert(c[i] == *x.return_type.unwrap());
    } else if i < s3.len() {
        assert(c[i] == x.params@[i - s2.len()]);
        assert(decreases_to!(x.params => x.params[i - s2.len()]));
    } else if i < s4.len() {
        assert(c[i] == *x.body.unwrap());
    }
}

proof fn lemma_child_decreases_methoddefinition(n: Node, i: int)
    requires
        n.data is MethodDefinition,
        0 <= i < children_of(n.data).len(),
    ensures
        decreases_to!(n => children_of(n.data)[i]),
{
    broadcast use vstd::std_specs::vec::axiom_vec_index_decreases;

    let c = children_of(n.data);
    let x = n.data->MethodDefinition_0;
    let s0 = Seq::<Node>::empty();
    let s1 = s0 + opt(x.function_body);
    let s2 = s1 + x.params@;
    assert(c == s2);
    if i < s1.len() {
        assert(c[i] == *x.function_body.unwrap());
    } else if i < s2.len() {
        assert(c[i] == x.params@[i - s1.len()]);
        assert(decreases_to!(x.params => x.params[i - s1.len()]));
    }
}

proof fn lemma_child_decreases_classbody(n: Node, i: int)
    requires
        n.data is ClassBody,
        0 <= i < children_of(n.data).len(),
    ensures
        decreases_to!(n => children_of(n.data)[i]),
{
    broadcast use vstd::std_specs::vec::axiom_vec_index_decreases;

    let c = children_of(n.data);
    let x = n.data->ClassBody_0;
    let s0 = Seq::<Node>::empty();
    let s1 = s0 + x.methods@;
    assert(c == s1);
    if i < s1.len() {
        assert(c[i] == x.methods@[i - s0.len()]);
        assert(decreases_to!(x.methods => x.methods[i - s0.len()]));
    }
}

proof fn lemma_child_decreases_classdeclaration(n: Node, i: int)
    requires
        n.data is ClassDeclaration,
        0 <= i < children_of(n.data).len(),
    ensures
        decreases_to!(n => children_of(n.data)[i]),
{
    broadcast use vstd::std_specs::vec::axiom_vec_index_decreases;

    let c = children_of(n.data);
    let x = n.data->ClassDeclaration_0;
    let s0 = Seq::<Node>::empty();
    let s1 = s0 + opt(x.type_parameters);
    let s2 = s1 + opt(x.body);
    assert(c == s2);
    if i < s1.len() {
        assert(c[i] == *x.type_parameters.unwrap());
    } else if i < s2.len() {
        assert(c[i] == *x.body.unwrap());
    }
}

proof fn lemma_child_decreases_variabledeclaration(n: Node, i: int)
    requires
        n.data is VariableDeclaration,
        0 <= i < children_of(n.data).len(),
    ensures
        decreases_to!(n => children_of(n.data)[i]),
{
    broadcast use vstd::std_specs::vec::axiom_vec_index_decreases;

    let c = children_of(n.data);
    let x = n.data->VariableDeclaration_0;
    let s0 = Seq::<Node>::empty();
    let s1 = s0 + x.declarations@;
    assert(c == s1);
    if i < s1.len() {
        assert(c[i] == x.declarations@[i - s0.len()]);
        assert(decreases_to!(x.declarations => x.declarations[i - s0.len()]));
    }
}

proof fn lemma_child_decreases_variabledeclarator(n: Node, i: int)
    requires
        n.data is VariableDeclarator,
        0 <= i < children_of(n.data).len(),
    ensures
        decreases_to!(n => children_of(n.data)[i]),
{
    broadcast use vstd::std_specs::vec::axiom_vec_index_decreases;

    let c = children_of(n.data);
    let x = n.data->VariableDeclarator_0;
    let s0 = Seq::<Node>::empty();
    let s1 = s0 + opt(x.init);
    let s2 = s1 + opt(x.type_annotation);
    let s3 = s2 + opt(x.id);
    assert(c == s3);
    if i < s1.len() {
        assert(c[i] == *x.init.unwrap());
    } else if i < s2.len() {
        assert(c[i] == *x.type_annotation.unwrap());
    } else if i < s3.len() {
        assert(c[i] == *x.id.unwrap());
    }
}

proof fn lemma_child_decreases_formalparameter(n: Node, i: int)
    requires
        n.data is FormalParameter,
        0 <= i < children_of(n.data).len(),
    ensures
        decreases_to!(n => children_of(n.data)[i]),
{
    broadcast use vstd::std_specs::vec::axiom_vec_index_decreases;

    let c = children_of(n.data);
    let x = n.data->FormalParameter_0;
    let s0 = Seq::<Node>::empty();
    let s1 = s0 + opt(x.type_annotation);
    assert(c == s1);
    if i < s1.len() {
        assert(c[i] == *x.type_annotation.unwrap());
    }
}

proof fn lemma_child_decreases_blockstatement(n: Node, i: int)
    requires
        n.data is BlockStatement,
        0 <= i < children_of(n.data).len(),
    ensures
        decreases_to!(n => children_of(n.data)[i]),
{
    broadcast use vstd::std_specs::vec::axiom_vec_index_decreases;

    let c = children_of(n.data);
    let x = n.data->BlockStatement_0;
    let s0 = Seq::<Node>::empty();
    let s1 = s0 + x.body@;
    assert(c == s1);
    if i < s1.len() {
        assert(c[i] == x.body@[i - s0.len()]);
        assert(decreases_to!(x.body => x.body[i - s0.len()]));
    }
}

proof fn lemma_child_decreases_breakstatement(n: Node, i: int)
    requires
        n.data is BreakStatement,
        0 <= i < children_of(n.data).len(),
    ensures
        decreases_to!(n => children_of(n.data)[i]),
{
    broadcast use vstd::std_specs::vec::axiom_vec_index_decreases;

    let c = children_of(n.data);
    let x = n.data->BreakStatement_0;
    let s0 = Seq::<Node>::empty();
    let s1 = s0 + opt(x.label);
    assert(c == s1);
    if i < s1.len() {
        assert(c[i] == *x.label.unwrap());
    }
}

proof fn lemma_child_decreases_continuestatement(n: Node, i: int)
    requires
        n.data is ContinueStatement,
        0 <= i < children_of(n.data).len(),
    ensures
        decreases_to!(n => children_of(n.data)[i]),
{
    broadcast use vstd::std_specs::vec::axiom_vec_index_decreases;

    let c = children_of(n.data);
    let x = n.data->ContinueStatement_0;
    let s0 = Seq::<Node>::empty();
    let s1 = s0 + opt(x.label);
    assert(c == s1);
    if i < s1.len() {
        assert(c[i] == *x.label.unwrap());
    }
}

proof fn lemma_child_decreases_labeledstatement(n: Node, i: int)
    requires
        n.data is LabeledStatement,
        0 <= i < children_of(n.data).len(),
    ensures
        decreases_to!(n => children_of(n.data)[i]),
{
    broadcast use vstd::std_specs::vec::axiom_vec_index_decreases;

    let c = children_of(n.data);
    let x = n.data->LabeledStatement_0;
    let s0 = Seq::<Node>::empty();
    let s1 = s0 + opt(x.label);
    let s2 = s1 + opt(x.body);
    assert(c == s2);
    if i < s1.len() {
        assert(c[i] == *x.label.unwrap());
    } else if i < s2.len() {
        assert(c[i] == *x.body.unwrap());
    }
}

proof fn lemma_child_decreases_withstatement(n: Node, i: int)
    requires
        n.data is WithStatement,
        0 <= i < children_of(n.data).len(),
    ensures
        decreases_to!(n => children_of(n.data)[i]),
{
    broadcast use vstd::std_specs::vec::axiom_vec_index_decreases;

    let c = children_of(n.data);
    let x = n.data->WithStatement_0;
    let s0 = Seq::<Node>::empty();
    let s1 = s0 + opt(x.object);
    let s2 = s1 + opt(x.body);
    assert(c == s2);
    if i < s1.len() {
        assert(c[i] == *x.object.unwrap());
    } else if i < s2.len() {
        assert(c[i] == *x.body.unwrap());
    }
}

proof fn lemma_child_decreases_forstatement(n: Node, i: int)
    requires
        n.data is ForStatement,
        0 <= i < children_of(n.data).len(),
    ensures
        decreases_to!(n => children_of(n.data)[i]),
{
    broadcast use vstd::std_specs::vec::axiom_vec_index_decreases;

    let c = children_of(n.data);
    let x = n.data->ForStatement_0;
    let s0 = Seq::<Node>::empty();
    let s1 = s0 + opt(x.init);
    let s2 = s1 + opt(x.test);
    let s3 = s2 + opt(x.update);
    let s4 = s3 + opt(x.body);
    assert(c == s4);
    if i < s1.len() {
        assert(c[i] == *x.init.unwrap());
    } else if i < s2.len() {
        assert(c[i] == *x.test.unwrap());
    } else if i < s3.len() {
        assert(c[i] == *x.update.unwrap());
    } else if i < s4.len() {
        assert(c[i] == *x.body.unwrap());
    }
}

proof fn lemma_child_decreases_ifstatement(n: Node, i: int)
    requires
        n.data is IfStatement,
        0 <= i < children_of(n.data).len(),
    ensures
        decreases_to!(n => children_of(n.data)[i]),
{
    broadcast use vstd::std_specs::vec::axiom_vec_index_decreases;

    let c = children_of(n.data);
    let x = n.data->IfStatement_0;
    let s0 = Seq::<Node>::empty();
    let s1 = s0 + opt(x.consequent);
    let s2 = s1 + opt(x.alternate);
    let s3 = s2 + opt(x.test);
    assert(c == s3);
    if i < s1.len() {
        assert(c[i] == *x.consequent.unwrap());
    } else if i < s2.len() {
        assert(c[i] == *x.alternate.unwrap());
    } else if i < s3.len() {
        assert(c[i] == *x.test.unwrap());
    }
}

proof fn lemma_child_decreases_expressionstatement(n: Node, i: int)
    requires
        n.data is ExpressionStatement,
        0 <= i < children_of(n.data).len(),
    ensures
        decreases_to!(n => children_of(n.data)[i]),
{
    broadcast use vstd::std_specs::vec::axiom_vec_index_decreases;

    let c = children_of(n.data);
    let x = n.data->ExpressionStatement_0;
    let s0 = Seq::<Node>::empty();
    let s1 = s0 + opt(x.expression);
    assert(c == s1);
    if i < s1.len() {
        assert(c[i] == *x.expression.unwrap());
    }
}

proof fn lemma_child_decreases_whilestatement(n: Node, i: int)
    requires
        n.data is WhileStatement,
        0 <= i < children_of(n.data).len(),
    ensures
        decreases_to!(n => children_of(n.data)[i]),
{
    broadcast use vstd::std_specs::vec::axiom_vec_index_decreases;

    let c = children_of(n.data);
    let x = n.data->WhileStatement_0;
    let s0 = Seq::<Node>::empty();
    let s1 = s0 + opt(x.test);
    let s2 = s1 + opt(x.body);
    assert(c == s2);
    if i < s1.len() {
        assert(c[i] == *x.test.unwrap());
    } else if i < s2.len() {
        assert(c[i] == *x.body.unwrap());
    }
}

proof fn lemma_child_decreases_dowhilestatement(n: Node, i: int)
    requires
        n.data is DoWhileStatement,
        0 <= i < children_of(n.data).len(),
    ensures
        decreases_to!(n => children_of(n.data)[i]),
{
    broadcast use vstd::std_specs::vec::axiom_vec_index_decreases;

    let c = children_of(n.data);
    let x = n.data->DoWhileStatement_0;
    let s0 = Seq::<Node>::empty();
    let s1 = s0 + opt(x.test);
    let s2 = s1 + opt(x.body);
    assert(c == s2);
    if i < s1.len() {
        assert(c[i] == *x.test.unwrap());
    } else if i < s2.len() {
        assert(c[i] == *x.body.unwrap());
    }
}

proof fn lemma_child_decreases_forinstatement(n: Node, i: int)
    requires
        n.data is ForInStatement,
        0 <= i < children_of(n.data).len(),
    ensures
        decreases_to!(n => children_of(n.data)[i]),
{
    broadcast use vstd::std_specs::vec::axiom_vec_index_decreases;

    let c = children_of(n.data);
    let x = n.data->ForInStatement_0;
    let s0 = Seq::<Node>::empty();
    let s1 = s0 + opt(x.left);
    let s2 = s1 + opt(x.right);
    let s3 = s2 + opt(x.body);
    assert(c == s3);
    if i < s1.len() {
        assert(c[i] == *x.left.unwrap());
    } else if i < s2.len() {
        assert(c[i] == *x.right.unwrap());
    } else if i < s3.len() {
        assert(c[i] == *x.body.unwrap());
    }
}

proof fn lemma_child_decreases_forofstatement(n: Node, i: int)
    requires
        n.data is ForOfStatement,
        0 <= i < children_of(n.data).len(),
    ensures
        decreases_to!(n => children_of(n.data)[i]),
{
    broadcast use vstd::std_specs::vec::axiom_vec_index_decreases;

    let c = children_of(n.data);
    let x = n.data->ForOfStatement_0;
    let s0 = Seq::<Node>::empty();
    let s1 = s0 + opt(x.left);
    let s2 = s1 + opt(x.right);
    let s3 = s2 + opt(x.body);
    assert(c == s3);
    if i < s1.len() {
        assert(c[i] == *x.left.unwrap());
    } else if i < s2.len() {
        assert(c[i] == *x.right.unwrap());
    } else if i < s3.len() {
        assert(c[i] == *x.body.unwrap());
    }
}

proof fn lemma_child_decreases_switchstatement(n: Node, i: int)
    requires
        n.data is SwitchStatement,
        0 <= i < children_of(n.data).len(),
    ensures
        decreases_to!(n => children_of(n.data)[i]),
{
    broadcast use vstd::std_specs::vec::axiom_vec_index_decreases;

    let c = children_of(n.data);
    let x = n.data->SwitchStatement_0;
    let s0 = Seq::<Node>::empty();
    let s1 = s0 + opt(x.discriminant);
    let s2 = s1 + x.cases@;
    assert(c == s2);
    if i < s1.len() {
        assert(c[i] == *x.discriminant.unwrap());
    } else if i < s2.len() {
        assert(c[i] == x.cases@[i - s1.len()]);
        assert(decreases_to!(x.cases => x.cases[i - s1.len()]));
    }
}

proof fn lemma_child_decreases_switchcase(n: Node, i: int)
    requires
        n.data is SwitchCase,
        0 <= i < children_of(n.data).len(),
    ensures
        decreases_to!(n => children_of(n.data)[i]),
{
    broadcast use vstd::std_specs::vec::axiom_vec_index_decreases;

    let c = children_of(n.data);
    let x = n.data->SwitchCase_0;
    let s0 = Seq::<Node>::empty();
    let s1 = s0 + opt(x.test);
    let s2 = s1 + x.consequent@;
    assert(c == s2);
    if i < s1.len() {
        assert(c[i] == *x.test.unwrap());
    } else if i < s2.len() {
        assert(c[i] == x.consequent@[i - s1.len()]);
        assert(decreases_to!(x.consequent => x.consequent[i - s1.len()]));
    }
}

proof fn lemma_child_decreases_trystatement(n: Node, i: int)
    requires
        n.data is TryStatement,
        0 <= i < children_of(n.data).len(),
    ensures
        decreases_to!(n => children_of(n.data)[i]),
{
    broadcast use vstd::std_specs::vec::axiom_vec_index_decreases;

    let c = children_of(n.data);
    let x = n.data->TryStatement_0;
    let s0 = Seq::<Node>::empty();
    let s1 = s0 + opt(x.block);
    let s2 = s1 + opt(x.handler);
    let s3 = s2 + opt(x.finalizer);
    assert(c == s3);
    if i < s1.len() {
        assert(c[i] == *x.block.unwrap());
    } else if i < s2.len() {
        assert(c[i] == *x.handler.unwrap());
    } else if i < s3.len() {
        assert(c[i] == *x.finalizer.unwrap());
    }
}

proof fn lemma_child_decreases_catchclause(n: Node, i: int)
    requires
        n.data is CatchClause,
        0 <= i < children_of(n.data).len(),
    ensures
        decreases_to!(n => children_of(n.data)[i]),
{
    broadcast use vstd::std_specs::vec::axiom_vec_index_decreases;

    let c = children_of(n.data);
    let x = n.data->CatchClause_0;
    let s0 = Seq::<Node>::empty();
    let s1 = s0 + opt(x.param);
    let s2 = s1 + opt(x.body);
    assert(c == s2);
    if i < s1.len() {
        assert(c[i] == *x.param.unwrap());
    } else if i < s2.len() {
        assert(c[i] == *x.body.unwrap());
    }
}

proof fn lemma_child_decreases_throwstatement(n: Node, i: int)
    requires
        n.data is ThrowStatement,
        0 <= i < children_of(n.data).len(),
    ensures
        decreases_to!(n => children_of(n.data)[i]),
{
    broadcast use vstd::std_specs::vec::axiom_vec_index_decreases;

    let c = children_of(n.data);
    let x = n.data->ThrowStatement_0;
    let s0 = Seq::<Node>::empty();
    let s1 = s0 + opt(x.argument);
    assert(c == s1);
    if i < s1.len() {
        assert(c[i] == *x.argument.unwrap());
    }
}

proof fn lemma_child_decreases_returnstatement(n: Node, i: int)
    requires
        n.data is ReturnStatement,
        0 <= i < children_of(n.data).len(),
    ensures
        decreases_to!(n => children_of(n.data)[i]),
{
    broadcast use vstd::std_specs::vec::axiom_vec_index_decreases;

    let c = children_of(n.data);
    let x = n.data->ReturnStatement_0;
    let s0 = Seq::<Node>::empty();
    let s1 = s0 + opt(x.argument);
    assert(c == s1);
    if i < s1.len() {
        assert(c[i] == *x.argument.unwrap());
    }
}

proof fn lemma_child_decreases_importdeclaration(n: Node, i: int)
    requires
        n.data is ImportDeclaration,
        0 <= i < children_of(n.data).len(),
    ensures
        decreases_to!(n => children_of(n.data)[i]),
{
    broadcast use vstd::std_specs::vec::axiom_vec_index_decreases;

    let c = children_of(n.data);
    let x = n.data->ImportDeclaration_0;
    let s0 = Seq::<Node>::empty();
    let s1 = s0 + seq![*x.source];
    let s2 = s1 + x.specifiers@;
    assert(c == s2);
    if i < s1.len() {
        assert(c[i] == *x.source);
    } else if i < s2.len() {
        assert(c[i] == x.specifiers@[i - s1.len()]);
        assert(decreases_to!(x.specifiers => x.specifiers[i - s1.len()]));
    }
}

proof fn lemma_child_decreases_importspecifier(n: Node, i: int)
    requires
        n.data is ImportSpecifier,
        0 <= i < children_of(n.data).len(),
    ensures
        decreases_to!(n => children_of(n.data)[i]),
{
    broadcast use vstd::std_specs::vec::axiom_vec_index_decreases;

    let c = children_of(n.data);
    let x = n.data->ImportSpecifier_0;
    let s0 = Seq::<Node>::empty();
    let s1 = s0 + seq![*x.local];
    let s2 = s1 + seq![*x.imported];
    assert(c == s2);
    if i < s1.len() {
        assert(c[i] == *x.local);
    } else if i < s2.len() {
        assert(c[i] == *x.imported);
    }
}

proof fn lemma_child_decreases_importdefaultspecifier(n: Node, i: int)
    requires
        n.data is ImportDefaultSpecifier,
        0 <= i < children_of(n.data).len(),
    ensures
        decreases_to!(n => children_of(n.data)[i]),
{
    broadcast use vstd::std_specs::vec::axiom_vec_index_decreases;

    let c = children_of(n.data);
    let x = n.data->ImportDefaultSpecifier_0;
    let s0 = Seq::<Node>::empty();
    let s1 = s0 + seq![*x.local];
    assert(c == s1);
    if i < s1.len() {
        assert(c[i] == *x.local);
    }
}

proof fn lemma_child_decreases_importnamespacespecifier(n: Node, i: int)
    requires
        n.data is ImportNamespaceSpecifier,
        0 <= i < children_of(n.data).len(),
    ensures
        decreases_to!(n => children_of(n.data)[i]),
{
    broadcast use vstd::std_specs::vec::axiom_vec_index_decreases;

    let c = children_of(n.data);
    let x = n.data->ImportNamespaceSpecifier_0;
    let s0 = Seq::<Node>::empty();
    let s1 = s0 + seq![*x.local];
    assert(c == s1);
    if i < s1.len() {
        assert(c[i] == *x.local);
    }
}

proof fn lemma_child_decreases_exportnameddeclaration(n: Node, i: int)
    requires
        n.data is ExportNamedDeclaration,
        0 <= i < children_of(n.data).len(),
    ensures
        decreases_to!(n => children_of(n.data)[i]),
{
    broadcast use vstd::std_specs::vec::axiom_vec_index_decreases;

    let c = children_of(n.data);
    let x = n.data->ExportNamedDeclaration_0;
    let s0 = Seq::<Node>::empty();
    let s1 = s0 + opt(x.declaration);
    let s2 = s1 + opt(x.source);
    let s3 = s2 + x.specifiers@;
    assert(c == s3);
    if i < s1.len() {
        assert(c[i] == *x.declaration.unwrap());
    } else if i < s2.len() {
        assert(c[i] == *x.source.unwrap());
    } else if i < s3.len() {
        assert(c[i] == x.specifiers@[i - s2.len()]);
        assert(decreases_to!(x.specifiers => x.specifiers[i - s2.len()]));
    }
}

proof fn lemma_child_decreases_exportdefaultdeclaration(n: Node, i: int)
    requires
        n.data is ExportDefaultDeclaration,
        0 <= i < children_of(n.data).len(),
    ensures
        decreases_to!(n => children_of(n.data)[i]),
{
    broadcast use vstd::std_specs::vec::axiom_vec_index_decreases;

    let c = children_of(n.data);
    let x = n.data->ExportDefaultDeclaration_0;
    let s0 = Seq::<Node>::empty();
    let s1 = s0 + seq![*x.declaration];
    assert(c == s1);
    if i < s1.len() {
        assert(c[i] == *x.declaration);
    }
}

proof fn lemma_child_decreases_exportalldeclaration(n: Node, i: int)
    requires
        n.data is ExportAllDeclaration,
        0 <= i < children_of(n.data).len(),
    ensures
        decreases_to!(n => children_of(n.data)[i]),
{
    broadcast use vstd::std_specs::vec::axiom_vec_index_decreases;

    let c = children_of(n.data);
    let x = n.data->ExportAllDeclaration_0;
    let s0 = Seq::<Node>::empty();
    let s1 = s0 + seq![*x.source];
    let s2 = s1 + opt(x.exported);
    assert(c == s2);
    if i < s1.len() {
        assert(c[i] == *x.source);
    } else if i < s2.len() {
        assert(c[i] == *x.exported.unwrap());
    }
}

proof fn lemma_child_decreases_exportspecifier(n: Node, i: int)
    requires
        n.data is ExportSpecifier,
        0 <= i < children_of(n.data).len(),
    ensures
        decreases_to!(n => children_of(n.data)[i]),
{
    broadcast use vstd::std_specs::vec::axiom_vec_index_decreases;

    let c = children_of(n.data);
    let x = n.data->ExportSpecifier_0;
    let s0 = Seq::<Node>::empty();
    let s1 = s0 + seq![*x.local];
    let s2 = s1 + seq![*x.exported];
    assert(c == s2);
    if i < s1.len() {
        assert(c[i] == *x.local);
    } else if i < s2.len() {
        assert(c[i] == *x.exported);
    }
}

proof fn lemma_child_decreases_arrowfunctionexpression(n: Node, i: int)
    requires
        n.data is ArrowFunctionExpression,
        0 <= i < children_of(n.data).len(),
    ensures
        decreases_to!(n => children_of(n.data)[i]),
{
    broadcast use vstd::std_specs::vec::axiom_vec_index_decreases;

    let c = children_of(n.data);
    let x = n.data->ArrowFunctionExpression_0;
    let s0 = Seq::<Node>::empty();
    let s1 = s0 + x.params@;
    let s2 = s1 + opt(x.body);
    assert(c == s2);
    if i < s1.len() {
        assert(c[i] == x.params@[i - s0.len()]);
        assert(decreases_to!(x.params => x.params[i - s0.len()]));
    } else if i < s2.len() {
        assert(c[i] == *x.body.unwrap());
    }
}

proof fn lemma_child_decreases_callexpression(n: Node, i: int)
    requires
        n.data is CallExpression,
        0 <= i < children_of(n.data).len(),
    ensures
        decreases_to!(n => children_of(n.data)[i]),
{
    broadcast use vstd::std_specs::vec::axiom_vec_index_decreases;

    let c = children_of(n.data);
    let x = n.data->CallExpression_0;
    let s0 = Seq::<Node>::empty();
    let s1 = s0 + opt(x.callee);
    let s2 = s1 + x.arguments@;
    assert(c == s2);
    if i < s1.len() {
        assert(c[i] == *x.callee.unwrap());
    } else if i < s2.len() {
        assert(c[i] == x.arguments@[i - s1.len()]);
        assert(decreases_to!(x.arguments => x.arguments[i - s1.len()]));
    }
}

proof fn lemma_child_decreases_memberexpression(n: Node, i: int)
    requires
        n.data is MemberExpression,
        0 <= i < children_of(n.data).len(),
    ensures
        decreases_to!(n => children_of(n.data)[i]),
{
    broadcast use vstd::std_specs::vec::axiom_vec_index_decreases;

    let c = children_of(n.data);
    let x = n.data->MemberExpression_0;
    let s0 = Seq::<Node>::empty();
    let s1 = s0 + opt(x.object);
    let s2 = s1 + opt(x.property);
    assert(c == s2);
    if i < s1.len() {
        assert(c[i] == *x.object.unwrap());
    } else if i < s2.len() {
        assert(c[i] == *x.property.unwrap());
    }
}

proof fn lemma_child_decreases_binaryexpression(n: Node, i: int)
    requires
        n.data is BinaryExpression,
        0 <= i < children_of(n.data).len(),
    ensures
        decreases_to!(n => children_of(n.data)[i]),
{
    broadcast use vstd::std_specs::vec::axiom_vec_index_decreases;

    let c = children_of(n.data);
    let x = n.data->BinaryExpression_0;
    let s0 = Seq::<Node>::empty();
    let s1 = s0 + opt(x.left);
    let s2 = s1 + opt(x.right);
    assert(c == s2);
    if i < s1.len() {
        assert(c[i] == *x.left.unwrap());
    } else if i < s2.len() {
        assert(c[i] == *x.right.unwrap());
    }
}

proof fn lemma_child_decreases_unaryexpression(n: Node, i: int)
    requires
        n.data is UnaryExpression,
        0 <= i < children_of(n.data).len(),
    ensures
        decreases_to!(n => children_of(n.data)[i]),
{
    broadcast use vstd::std_specs::vec::axiom_vec_index_decreases;

    let c = children_of(n.data);
    let x = n.data->UnaryExpression_0;
    let s0 = Seq::<Node>::empty();
    let s1 = s0 + opt(x.argument);
    assert(c == s1);
    if i < s1.len() {
        assert(c[i] == *x.argument.unwrap());
    }
}

proof fn lemma_child_decreases_conditionalexpression(n: Node, i: int)
    requires
        n.data is ConditionalExpression,
        0 <= i < children_of(n.data).len(),
    ensures
        decreases_to!(n => children_of(n.data)[i]),
{
    broadcast use vstd::std_specs::vec::axiom_vec_index_decreases;

    let c = children_of(n.data);
    let x = n.data->ConditionalExpression_0;
    let s0 = Seq::<Node>::empty();
    let s1 = s0 + opt(x.consequent);
    let s2 = s1 + opt(x.alternate);
    let s3 = s2 + opt(x.test);
    assert(c == s3);
    if i < s1.len() {
        assert(c[i] == *x.consequent.unwrap());
    } else if i < s2.len() {
        assert(c[i] == *x.alternate.unwrap());
    } else if i < s3.len() {
        assert(c[i] == *x.test.unwrap());
    }
}

proof fn lemma_child_decreases_objectexpression(n: Node, i: int)
    requires
        n.data is ObjectExpression,
        0 <= i < children_of(n.data).len(),
    ensures
        decreases_to!(n => children_of(n.data)[i]),
{
    broadcast use vstd::std_specs::vec::axiom_vec_index_decreases;

    let c = children_of(n.data);
    let x = n.data->ObjectExpression_0;
    let s0 = Seq::<Node>::empty();
    let s1 = s0 + x.properties@;
    assert(c == s1);
    if i < s1.len() {
        assert(c[i] == x.properties@[i - s0.len()]);
        assert(decreases_to!(x.properties => x.properties[i - s0.len()]));
    }
}

proof fn lemma_child_decreases_arrayexpression(n: Node, i: int)
    requires
        n.data is ArrayExpression,
        0 <= i < children_of(n.data).len(),
    ensures
        decreases_to!(n => children_of(n.data)[i]),
{
    broadcast use vstd::std_specs::vec::axiom_vec_index_decreases;

    let c = children_of(n.data);
    let x = n.data->ArrayExpression_0;
    let s0 = Seq::<Node>::empty();
    let s1 = s0 + x.elements@;
    assert(c == s1);
    if i < s1.len() {
        assert(c[i] == x.elements@[i - s0.len()]);
        assert(decreases_to!(x.elements => x.elements[i - s0.len()]));
    }
}

proof fn lemma_child_decreases_tstypealiasdeclaration(n: Node, i: int)
    requires
        n.data is TSTypeAliasDeclaration,
        0 <= i < children_of(n.data).len(),
    ensures
        decreases_to!(n => children_of(n.data)[i]),
{
    broadcast use vstd::std_specs::vec::axiom_vec_index_decreases;

    let c = children_of(n.data);
    let x = n.data->TSTypeAliasDeclaration_0;
    let s0 = Seq::<Node>::empty();
    let s1 = s0 + opt(x.type_annotation);
    let s2 = s1 + opt(x.type_parameters);
    assert(c == s2);
    if i < s1.len() {
        assert(c[i] == *x.type_annotation.unwrap());
    } else if i < s2.len() {
        assert(c[i] == *x.type_parameters.unwrap());
    }
}

proof fn lemma_child_decreases_tsinterfacedeclaration(n: Node, i: int)
    requires
        n.data is TSInterfaceDeclaration,
        0 <= i < children_of(n.data).len(),
    ensures
        decreases_to!(n => children_of(n.data)[i]),
{
    broadcast use vstd::std_specs::vec::axiom_vec_index_decreases;

    let c = children_of(n.data);
    let x = n.data->TSInterfaceDeclaration_0;
    let s0 = Seq::<Node>::empty();
    let s1 = s0 + opt(x.type_parameters);
    let s2 = s1 + opt(x.body);
    let s3 = s2 + opt_list(x.extends);
    assert(c == s3);
    if i < s1.len() {
        assert(c[i] == *x.type_parameters.unwrap());
    } else if i < s2.len() {
        assert(c[i] == *x.body.unwrap());
    } else if i < s3.len() {
        assert(c[i] == x.extends.unwrap()@[i - s2.len()]);
        assert(decreases_to!(x.extends.unwrap() => x.extends.unwrap()[i - s2.len()]));
    }
}

proof fn lemma_child_decreases_tsenumdeclaration(n: Node, i: int)
    requires
        n.data is TSEnumDeclaration,
        0 <= i < children_of(n.data).len(),
    ensures
        decreases_to!(n => children_of(n.data)[i]),
{
    broadcast use vstd::std_specs::vec::axiom_vec_index_decreases;

    let c = children_of(n.data);
    let x = n.data->TSEnumDeclaration_0;
    let s0 = Seq::<Node>::empty();
    let s1 = s0 + x.members@;
    assert(c == s1);
    if i < s1.len() {
        assert(c[i] == x.members@[i - s0.len()]);
        assert(decreases_to!(x.members => x.members[i - s0.len()]));
    }
}

proof fn lemma_child_decreases_tstypeannotation(n: Node, i: int)
    requires
        n.data is TSTypeAnnotation,
        0 <= i < children_of(n.data).len(),
    ensures
        decreases_to!(n => children_of(n.data)[i]),
{
    broadcast use vstd::std_specs::vec::axiom_vec_index_decreases;

    let c = children_of(n.data);
    let x = n.data->TSTypeAnnotation_0;
    let s0 = Seq::<Node>::empty();
    let s1 = s0 + opt(x.type_annotation);
    assert(c == s1);
    if i < s1.len() {
        assert(c[i] == *x.type_annotation.unwrap());
    }
}

proof fn lemma_child_decreases_tstypereference(n: Node, i: int)
    requires
        n.data is TSTypeReference,
        0 <= i < children_of(n.data).len(),
    ensures
        decreases_to!(n => children_of(n.data)[i]),
{
    broadcast use vstd::std_specs::vec::axiom_vec_index_decreases;

    let c = children_of(n.data);
    let x = n.data->TSTypeReference_0;
    let s0 = Seq::<Node>::empty();
    let s1 = s0 + opt(x.type_parameters);
    let s2 = s1 + opt(x.type_ref_name);
    assert(c == s2);
    if i < s1.len() {
        assert(c[i] == *x.type_parameters.unwrap());
    } else if i < s2.len() {
        assert(c[i] == *x.type_ref_name.unwrap());
    }
}

proof fn lemma_child_decreases_tstypeparameter(n: Node, i: int)
    requires
        n.data is TSTypeParameter,
        0 <= i < children_of(n.data).len(),
    ensures
        decreases_to!(n => children_of(n.data)[i]),
{
    broadcast use vstd::std_specs::vec::axiom_vec_index_decreases;

    let c = children_of(n.data);
    let x = n.data->TSTypeParameter_0;
    let s0 = Seq::<Node>::empty();
    let s1 = s0 + opt(x.constraint);
    let s2 = s1 + opt(x.default);
    assert(c == s2);
    if i < s1.len() {
        assert(c[i] == *x.constraint.unwrap());
    } else if i < s2.len() {
        assert(c[i] == *x.default.unwrap());
    }
}

proof fn lemma_child_decreases_tstypeparameterdeclaration(n: Node, i: int)
    requires
        n.data is TSTypeParameterDeclaration,
        0 <= i < children_of(n.data).len(),
    ensures
        decreases_to!(n => children_of(n.data)[i]),
{
    broadcast use vstd::std_specs::vec::axiom_vec_index_decreases;

    let c = children_of(n.data);
    let x = n.data->TSTypeParameterDeclaration_0;
    let s0 = Seq::<Node>::empty();
    let s1 = s0 + x.params@;
    assert(c == s1);
    if i < s1.len() {
        assert(c[i] == x.params@[i - s0.len()]);
        assert(decreases_to!(x.params => x.params[i - s0.len()]));
    }
}

proof fn lemma_child_decreases_tspropertysignature(n: Node, i: int)
    requires
        n.data is TSPropertySignature,
        0 <= i < children_of(n.data).len(),
    ensures
        decreases_to!(n => children_of(n.data)[i]),
{
    broadcast use vstd::std_specs::vec::axiom_vec_index_decreases;

    let c = children_of(n.data);
    let x = n.data->TSPropertySignature_0;
    let s0 = Seq::<Node>::empty();
    let s1 = s0 + opt(x.key);
    let s2 = s1 + opt(x.type_annotation);
    assert(c == s2);
    if i < s1.len() {
        assert(c[i] == *x.key.unwrap());
    } else if i < s2.len() {
        assert(c[i] == *x.type_annotation.unwrap());
    }
}

proof fn lemma_child_decreases_tsmethodsignature(n: Node, i: int)
    requires
        n.data is TSMethodSignature,
        0 <= i < children_of(n.data).len(),
    ensures
        decreases_to!(n => children_of(n.data)[i]),
{
    broadcast use vstd::std_specs::vec::axiom_vec_index_decreases;

    let c = children_of(n.data);
    let x = n.data->TSMethodSignature_0;
    let s0 = Seq::<Node>::empty();
    let s1 = s0 + opt(x.key);
    let s2 = s1 + opt(x.return_type);
    let s3 = s2 + x.params@;
    assert(c == s3);
    if i < s1.len() {
        assert(c[i] == *x.key.unwrap());
    } else if i < s2.len() {
        assert(c[i] == *x.return_type.unwrap());
    } else if i < s3.len() {
        assert(c[i] == x.params@[i - s2.len()]);
        assert(decreases_to!(x.params => x.params[i - s2.len()]));
    }
}

proof fn lemma_child_decreases_tsinterfacebody(n: Node, i: int)
    requires
        n.data is TSInterfaceBody,
        0 <= i < children_of(n.data).len(),
    ensures
        decreases_to!(n => children_of(n.data)[i]),
{
    broadcast use vstd::std_specs::vec::axiom_vec_index_decreases;

    let c = children_of(n.data);
    let x = n.data->TSInterfaceBody_0;
    let s0 = Seq::<Node>::empty();
    let s1 = s0 + x.body@;
    assert(c == s1);
    if i < s1.len() {
        assert(c[i] == x.body@[i - s0.len()]);
        assert(decreases_to!(x.body => x.body[i - s0.len()]));
    }
}

proof fn lemma_child_decreases_tsenummember(n: Node, i: int)
    requires
        n.data is TSEnumMember,
        0 <= i < children_of(n.data).len(),
    ensures
        decreases_to!(n => children_of(n.data)[i]),
{
    broadcast use vstd::std_specs::vec::axiom_vec_index_decreases;

    let c = children_of(n.data);
    let x = n.data->TSEnumMember_0;
    let s0 = Seq::<Node>::empty();
    let s1 = s0 + opt(x.id);
    let s2 = s1 + opt(x.initializer);
    assert(c == s2);
    if i < s1.len() {
        assert(c[i] == *x.id.unwrap());
    } else if i < s2.len() {
        assert(c[i] == *x.initializer.unwrap());
    }
}

proof fn lemma_child_decreases_tsuniontype(n: Node, i: int)
    requires
        n.data is TSUnionType,
        0 <= i < children_of(n.data).len(),
    ensures
        decreases_to!(n => children_of(n.data)[i]),
{
    broadcast use vstd::std_specs::vec::axiom_vec_index_decreases;

    let c = children_of(n.data);
    let x = n.data->TSUnionType_0;
    let s0 = Seq::<Node>::empty();
    let s1 = s0 + x.types@;
    assert(c == s1);
    if i < s1.len() {
        assert(c[i] == x.types@[i - s0.len()]);
        assert(decreases_to!(x.types => x.types[i - s0.len()]));
    }
}

proof fn lemma_child_decreases_tsintersectiontype(n: Node, i: int)
    requires
        n.data is TSIntersectionType,
        0 <= i < children_of(n.data).len(),
    ensures
        decreases_to!(n => children_of(n.data)[i]),
{
    broadcast use vstd::std_specs::vec::axiom_vec_index_decreases;

    let c = children_of(n.data);
    let x = n.data->TSIntersectionType_0;
    let s0 = Seq::<Node>::empty();
    let s1 = s0 + x.types@;
    assert(c == s1);
    if i < s1.len() {
        assert(c[i] == x.types@[i - s0.len()]);
        assert(decreases_to!(x.types => x.types[i - s0.len()]));
    }
}

proof fn lemma_child_decreases_jsxelement(n: Node, i: int)
    requires
        n.data is JSXElement,
        0 <= i < children_of(n.data).len(),
    ensures
        decreases_to!(n => children_of(n.data)[i]),
{
    broadcast use vstd::std_specs::vec::axiom_vec_index_decreases;

    let c = children_of(n.data);
    let x = n.data->JSXElement_0;
    let s0 = Seq::<Node>::empty();
    let s1 = s0 + seq![*x.opening_element];
    let s2 = s1 + opt(x.closing_element);
    let s3 = s2 + x.children@;
    assert(c == s3);
    if i < s1.len() {
        assert(c[i] == *x.opening_element);
    } else if i < s2.len() {
        assert(c[i] == *x.closing_element.unwrap());
    } else if i < s3.len() {
        assert(c[i] == x.children@[i - s2.len()]);
        assert(decreases_to!(x.children => x.children[i - s2.len()]));
    }
}

proof fn lemma_child_decreases_jsxopeningelement(n: Node, i: int)
    requires
        n.data is JSXOpeningElement,
        0 <= i < children_of(n.data).len(),
    ensures
        decreases_to!(n => children_of(n.data)[i]),
{
    broadcast use vstd::std_specs::vec::axiom_vec_index_decreases;

    let c = children_of(n.data);
    let x = n.data->JSXOpeningElement_0;
    let s0 = Seq::<Node>::empty();
    let s1 = s0 + x.attributes@;
    let s2 = s1 + seq![*x.name];
    assert(c == s2);
    if i < s1.len() {
        assert(c[i] == x.attributes@[i - s0.len()]);
        assert(decreases_to!(x.attributes => x.attributes[i - s0.len()]));
    } else if i < s2.len() {
        assert(c[i] == *x.name);
    }
}

proof fn lemma_child_decreases_jsxclosingelement(n: Node, i: int)
    requires
        n.data is JSXClosingElement,
        0 <= i < children_of(n.data).len(),
    ensures
        decreases_to!(n => children_of(n.data)[i]),
{
    broadcast use vstd::std_specs::vec::axiom_vec_index_decreases;

    let c = children_of(n.data);
    let x = n.data->JSXClosingElement_0;
    let s0 = Seq::<Node>::empty();
    let s1 = s0 + seq![*x.name];
    assert(c == s1);
    if i < s1.len() {
        assert(c[i] == *x.name);
    }
}

proof fn lemma_child_decreases_jsxfragment(n: Node, i: int)
    requires
        n.data is JSXFragment,
        0 <= i < children_of(n.data).len(),
    ensures
        decreases_to!(n => children_of(n.data)[i]),
{
    broadcast use vstd::std_specs::vec::axiom_vec_index_decreases;

    let c = children_of(n.data);
    let x = n.data->JSXFragment_0;
    let s0 = Seq::<Node>::empty();
    let s1 = s0 + x.children@;
    assert(c == s1);
    if i < s1.len() {
        assert(c[i] == x.children@[i - s0.len()]);
        assert(decreases_to!(x.children => x.children[i - s0.len()]));
    }
}

proof fn lemma_child_decreases_jsxattribute(n: Node, i: int)
    requires
        n.data is JSXAttribute,
        0 <= i < children_of(n.data).len(),
    ensures
        decreases_to!(n => children_of(n.data)[i]),
{
    broadcast use vstd::std_specs::vec::axiom_vec_index_decreases;

    let c = children_of(n.data);
    let x = n.data->JSXAttribute_0;
    let s0 = Seq::<Node>::empty();
    let s1 = s0 + opt(x.value);
    let s2 = s1 + seq![*x.name];
    assert(c == s2);
    if i < s1.len() {
        assert(c[i] == *x.value.unwrap());
    } else if i < s2.len() {
        assert(c[i] == *x.name);
    }
}

proof fn lemma_child_decreases_jsxspreadattribute(n: Node, i: int)
    requires
        n.data is JSXSpreadAttribute,
        0 <= i < children_of(n.data).len(),
    ensures
        decreases_to!(n => children_of(n.data)[i]),
{
    broadcast use vstd::std_specs::vec::axiom_vec_index_decreases;

    let c = children_of(n.data);
    let x = n.data->JSXSpreadAttribute_0;
    let s0 = Seq::<Node>::empty();
    let s1 = s0 + seq![*x.argument];
    assert(c == s1);
    if i < s1.len() {
        assert(c[i] == *x.argument);
    }
}

proof fn lemma_child_decreases_jsxmemberexpression(n: Node, i: int)
    requires
        n.data is JSXMemberExpression,
        0 <= i < children_of(n.data).len(),
    ensures
        decreases_to!(n => children_of(n.data)[i]),
{
    broadcast use vstd::std_specs::vec::axiom_vec_index_decreases;

    let c = children_of(n.data);
    let x = n.data->JSXMemberExpression_0;
    let s0 = Seq::<Node>::empty();
    let s1 = s0 + seq![*x.object];
    let s2 = s1 + seq![*x.property];
    assert(c == s2);
    if i < s1.len() {
        assert(c[i] == *x.object);
    } else if i < s2.len() {
        assert(c[i] == *x.property);
    }
}

proof fn lemma_child_decreases_jsxexpressioncontainer(n: Node, i: int)
    requires
        n.data is JSXExpressionContainer,
        0 <= i < children_of(n.data).len(),
    ensures
        decreases_to!(n => children_of(n.data)[i]),
{
    broadcast use vstd::std_specs::vec::axiom_vec_index_decreases;

    let c = children_of(n.data);
    let x = n.data->JSXExpressionContainer_0;
    let s0 = Seq::<Node>::empty();
    let s1 = s0 + seq![*x.expression];
    assert(c == s1);
    if i < s1.len() {
        assert(c[i] == *x.expression);
    }
}

pub open spec fn derefs(s: Seq<&Node>) -> Seq<Node> {
    s.map_values(|c: &Node| *c)
}

fn push_one<'a>(v: &mut Vec<&'a Node>, e: &'a Node)
    ensures
        derefs(final(v)@) == derefs(old(v)@) + seq![*e],
{
    v.push(e);
    proof {
        assert(derefs(final(v)@) =~= derefs(old(v)@) + seq![*e]);
    }
}

fn push_opt<'a>(v: &mut Vec<&'a Node>, o: &'a Option<Box<Node>>)
    ensures
        derefs(final(v)@) == derefs(old(v)@) + opt(*o),
{
    match o {
        Some(b) => push_one(v, &**b),
        None => {
            proof {
                assert(derefs(v@) =~= derefs(v@) + opt(*o));
            }
        },
    }
}

fn push_all<'a>(v: &mut Vec<&'a Node>, b: &'a Vec<Node>)
    ensures
        derefs(final(v)@) == derefs(old(v)@) + b@,
{
    let ghost start = derefs(v@);
    let mut i: usize = 0;
    proof {
        assert(start + b@.subrange(0, 0) =~= start);
    }
    while i < b.len()
        invariant
            i <= b.len(),
            derefs(v@) == start + b@.subrange(0, i as int),
        decreases b.len() - i,
    {
        let ghost prev = derefs(v@);
        push_one(v, &b[i]);
        proof {
            assert(start + b@.subrange(0, i + 1) =~= prev + seq![b@[i as int]]);
        }
        i = i + 1;
    }
    proof {
        assert(b@.subrange(0, b@.len() as int) =~= b@);
    }
}

fn push_opt_list<'a>(v: &mut Vec<&'a Node>, o: &'a Option<Vec<Node>>)
    ensures
        derefs(final(v)@) == derefs(old(v)@) + opt_list(*o),
{
    match o {
        Some(b) => push_all(v, b),
        None => {
            proof {
                assert(derefs(v@) =~= derefs(v@) + opt_list(*o));
            }
        },
    }
}

impl Node {
    /// A node that keeps only its kind, at `span`, on line 1.
    pub fn new(kind: Kind, span: Span) -> (r: Node)
        ensures
            r.data == NodeData::Generic(kind),
            r.span == span,
            r.start_line == 1,
            r.end_line == 1,
    {
        Node { span, start_line: 1, end_line: 1, data: NodeData::Generic(kind) }
    }

    pub fn kind(&self) -> (r: Kind)
        ensures
            r == kind_of(self.data),
    {
        match &self.data {
            NodeData::Generic(k) => *k,
            NodeData::Program(_) => Kind::Program,
            NodeData::FunctionDeclaration(_) => Kind::FunctionDeclaration,
            NodeData::MethodDefinition(_) => Kind::MethodDefinition,
            NodeData::ClassBody(_) => Kind::ClassBody,
            NodeData::ClassDeclaration(_) => Kind::ClassDeclaration,
            NodeData::VariableDeclaration(_) => Kind::VariableDeclaration,
            NodeData::VariableDeclarator(_) => Kind::VariableDeclarator,
            NodeData::FormalParameter(_) => Kind::FormalParameter,
            NodeData::BlockStatement(_) => Kind::BlockStatement,
            NodeData::BreakStatement(_) => Kind::BreakStatement,
            NodeData::ContinueStatement(_) => Kind::ContinueStatement,
            NodeData::LabeledStatement(_) => Kind::LabeledStatement,
            NodeData::EmptyStatement(_) => Kind::EmptyStatement,
            NodeData::WithStatement(_) => Kind::WithStatement,
            NodeData::ForStatement(_) => Kind::ForStatement,
            NodeData::IfStatement(_) => Kind::IfStatement,
            NodeData::ExpressionStatement(_) => Kind::ExpressionStatement,
            NodeData::WhileStatement(_) => Kind::WhileStatement,
            NodeData::DoWhileStatement(_) => Kind::DoWhileStatement,
            NodeData::ForInStatement(_) => Kind::ForInStatement,
            NodeData::ForOfStatement(_) => Kind::ForOfStatement,
            NodeData::SwitchStatement(_) => Kind::SwitchStatement,
            NodeData::SwitchCase(_) => Kind::SwitchCase,
            NodeData::TryStatement(_) => Kind::TryStatement,
            NodeData::CatchClause(_) => Kind::CatchClause,
            NodeData::ThrowStatement(_) => Kind::ThrowStatement,
            NodeData::ReturnStatement(_) => Kind::ReturnStatement,
            NodeData::DebuggerStatement(_) => Kind::DebuggerStatement,
            NodeData::ImportDeclaration(_) => Kind::ImportDeclaration,
            NodeData::ImportSpecifier(_) => Kind::ImportSpecifier,
            NodeData::ImportDefaultSpecifier(_) => Kind::ImportDefaultSpecifier,
            NodeData::ImportNamespaceSpecifier(_) => Kind::ImportNamespaceSpecifier,
            NodeData::ExportNamedDeclaration(_) => Kind::ExportNamedDeclaration,
            NodeData::ExportDefaultDeclaration(_) => Kind::ExportDefaultDeclaration,
            NodeData::ExportAllDeclaration(_) => Kind::ExportAllDeclaration,
            NodeData::ExportSpecifier(_) => Kind::ExportSpecifier,
            NodeData::ArrowFunctionExpression(_) => Kind::ArrowFunctionExpression,
            NodeData::CallExpression(_) => Kind::CallExpression,
            NodeData::MemberExpression(_) => Kind::MemberExpression,
            NodeData::BinaryExpression(_) => Kind::BinaryExpression,
            NodeData::UnaryExpression(_) => Kind::UnaryExpression,
            NodeData::ConditionalExpression(_) => Kind::ConditionalExpression,
            NodeData::ObjectExpression(_) => Kind::ObjectExpression,
            NodeData::ArrayExpression(_) => Kind::ArrayExpression,
            NodeData::Identifier(_) => Kind::Identifier,
            NodeData::Literal(_) => Kind::Literal,
            NodeData::TSTypeAliasDeclaration(_) => Kind::TSTypeAliasDeclaration,
            NodeData::TSInterfaceDeclaration(_) => Kind::TSInterfaceDeclaration,
            NodeData::TSEnumDeclaration(_) => Kind::TSEnumDeclaration,
            NodeData::TSTypeAnnotation(_) => Kind::TSTypeAnnotation,
            NodeData::TSTypeReference(_) => Kind::TSTypeReference,
            NodeData::TSTypeParameter(_) => Kind::TSTypeParameter,
            NodeData::TSTypeParameterDeclaration(_) => Kind::TSTypeParameterDeclaration,
            NodeData::TSPropertySignature(_) => Kind::TSPropertySignature,
            NodeData::TSMethodSignature(_) => Kind::TSMethodSignature,
            NodeData::TSInterfaceBody(_) => Kind::TSInterfaceBody,
            NodeData::TSEnumMember(_) => Kind::TSEnumMember,
            NodeData::TSUnionType(_) => Kind::TSUnionType,
            NodeData::TSIntersectionType(_) => Kind::TSIntersectionType,
            NodeData::JSXElement(_) => Kind::JSXElement,
            NodeData::JSXOpeningElement(_) => Kind::JSXOpeningElement,
            NodeData::JSXClosingElement(_) => Kind::JSXClosingElement,
            NodeData::JSXFragment(_) => Kind::JSXFragment,
            NodeData::JSXAttribute(_) => Kind::JSXAttribute,
            NodeData::JSXSpreadAttribute(_) => Kind::JSXSpreadAttribute,
            NodeData::JSXIdentifier(_) => Kind::JSXIdentifier,
            NodeData::JSXMemberExpression(_) => Kind::JSXMemberExpression,
            NodeData::JSXText(_) => Kind::JSXText,
            NodeData::JSXExpressionContainer(_) => Kind::JSXExpressionContainer,
        }
    }

    /// The node's discriminator string.
    pub fn kind_name(&self) -> (r: &'static str)
        ensures
            r@ == kind_text(kind_of(self.data)),
    {
        self.kind().name()
    }

    /// The source text under the node's span, clamped into the source.
    pub fn get_text(&self, source: &str) -> (r: String)
        ensures
            encode_utf8(r@) == span_text(source.spec_bytes(), self.span),
    {
        text_of(self.span, source)
    }

    /// The 1-based, inclusive lines on which the node starts and ends.
    pub fn get_line_range(&self, _source: &str) -> (r: (usize, usize))
        ensures
            r == (self.start_line, self.end_line),
    {
        (self.start_line, self.end_line)
    }

    /// The node's children, role by role in the order of the role catalog.
    pub fn children(&self) -> (r: Vec<&Node>)
        ensures
            derefs(r@) == children_of(self.data),
    {
        let mut v: Vec<&Node> = Vec::new();
        proof {
            assert(derefs(v@) =~= Seq::<Node>::empty());
        }
        match &self.data {
            NodeData::Program(x) => {
                push_all(&mut v, &x.body);
            },
            NodeData::FunctionDeclaration(x) => {
                push_opt(&mut v, &x.type_parameters);
                push_opt(&mut v, &x.return_type);
                push_all(&mut v, &x.params);
                push_opt(&mut v, &x.body);
            },
            NodeData::MethodDefinition(x) => {
                push_opt(&mut v, &x.function_body);
                push_all(&mut v, &x.params);
            },
            NodeData::ClassBody(x) => {
                push_all(&mut v, &x.methods);
            },
            NodeData::ClassDeclaration(x) => {
                push_opt(&mut v, &x.type_parameters);
                push_opt(&mut v, &x.body);
            },
            NodeData::VariableDeclaration(x) => {
                push_all(&mut v, &x.declarations);
            },
            NodeData::VariableDeclarator(x) => {
                push_opt(&mut v, &x.init);
                push_opt(&mut v, &x.type_annotation);
                push_opt(&mut v, &x.id);
            },
            NodeData::FormalParameter(x) => {
                push_opt(&mut v, &x.type_annotation);
            },
            NodeData::BlockStatement(x) => {
                push_all(&mut v, &x.body);
            },
            NodeData::BreakStatement(x) => {
                push_opt(&mut v, &x.label);
            },
            NodeData::ContinueStatement(x) => {
                push_opt(&mut v, &x.label);
            },
            NodeData::LabeledStatement(x) => {
                push_opt(&mut v, &x.label);
                push_opt(&mut v, &x.body);
            },
            NodeData::WithStatement(x) => {
                push_opt(&mut v, &x.object);
                push_opt(&mut v, &x.body);
            },
            NodeData::ForStatement(x) => {
                push_opt(&mut v, &x.init);
                push_opt(&mut v, &x.test);
                push_opt(&mut v, &x.update);
                push_opt(&mut v, &x.body);
            },
            NodeData::IfStatement(x) => {
                push_opt(&mut v, &x.consequent);
                push_opt(&mut v, &x.alternate);
                push_opt(&mut v, &x.test);
            },
            NodeData::ExpressionStatement(x) => {
                push_opt(&mut v, &x.expression);
            },
            NodeData::WhileStatement(x) => {
                push_opt(&mut v, &x.test);
                push_opt(&mut v, &x.body);
            },
            NodeData::DoWhileStatement(x) => {
                push_opt(&mut v, &x.test);
                push_opt(&mut v, &x.body);
            },
            NodeData::ForInStatement(x) => {
                push_opt(&mut v, &x.left);
                push_opt(&mut v, &x.right);
                push_opt(&mut v, &x.body);
            },
            NodeData::ForOfStatement(x) => {
                push_opt(&mut v, &x.left);
                push_opt(&mut v, &x.right);
                push_opt(&mut v, &x.body);
            },
            NodeData::SwitchStatement(x) => {
                push_opt(&mut v, &x.discriminant);
                push_all(&mut v, &x.cases);
            },
            NodeData::SwitchCase(x) => {
                push_opt(&mut v, &x.test);
                push_all(&mut v, &x.consequent);
            },
            NodeData::TryStatement(x) => {
                push_opt(&mut v, &x.block);
                push_opt(&mut v, &x.handler);
                push_opt(&mut v, &x.finalizer);
            },
            NodeData::CatchClause(x) => {
                push_opt(&mut v, &x.param);
                push_opt(&mut v, &x.body);
            },
            NodeData::ThrowStatement(x) => {
                push_opt(&mut v, &x.argument);
            },
            NodeData::ReturnStatement(x) => {
                push_opt(&mut v, &x.argument);
            },
            NodeData::ImportDeclaration(x) => {
                push_one(&mut v, &*x.source);
                push_all(&mut v, &x.specifiers);
            },
            NodeData::ImportSpecifier(x) => {
                push_one(&mut v, &*x.local);
                push_one(&mut v, &*x.imported);
            },
            NodeData::ImportDefaultSpecifier(x) => {
                push_one(&mut v, &*x.local);
            },
            NodeData::ImportNamespaceSpecifier(x) => {
                push_one(&mut v, &*x.local);
            },
            NodeData::ExportNamedDeclaration(x) => {
                push_opt(&mut v, &x.declaration);
                push_opt(&mut v, &x.source);
                push_all(&mut v, &x.specifiers);
            },
            NodeData::ExportDefaultDeclaration(x) => {
                push_one(&mut v, &*x.declaration);
            },
            NodeData::ExportAllDeclaration(x) => {
                push_one(&mut v, &*x.source);
                push_opt(&mut v, &x.exported);
            },
            NodeData::ExportSpecifier(x) => {
                push_one(&mut v, &*x.local);
                push_one(&mut v, &*x.exported);
            },
            NodeData::ArrowFunctionExpression(x) => {
                push_all(&mut v, &x.params);
                push_opt(&mut v, &x.body);
            },
            NodeData::CallExpression(x) => {
                push_opt(&mut v, &x.callee);
                push_all(&mut v, &x.arguments);
            },
            NodeData::MemberExpression(x) => {
                push_opt(&mut v, &x.object);
                push_opt(&mut v, &x.property);
            },
            NodeData::BinaryExpression(x) => {
                push_opt(&mut v, &x.left);
                push_opt(&mut v, &x.right);
            },
            NodeData::UnaryExpression(x) => {
                push_opt(&mut v, &x.argument);
            },
            NodeData::ConditionalExpression(x) => {
                push_opt(&mut v, &x.consequent);
                push_opt(&mut v, &x.alternate);
                push_opt(&mut v, &x.test);
            },
            NodeData::ObjectExpression(x) => {
                push_all(&mut v, &x.properties);
            },
            NodeData::ArrayExpression(x) => {
                push_all(&mut v, &x.elements);
            },
            NodeData::TSTypeAliasDeclaration(x) => {
                push_opt(&mut v, &x.type_annotation);
                push_opt(&mut v, &x.type_parameters);
            },
            NodeData::TSInterfaceDeclaration(x) => {
                push_opt(&mut v, &x.type_parameters);
                push_opt(&mut v, &x.body);
                push_opt_list(&mut v, &x.extends);
            },
            NodeData::TSEnumDeclaration(x) => {
                push_all(&mut v, &x.members);
            },
            NodeData::TSTypeAnnotation(x) => {
                push_opt(&mut v, &x.type_annotation);
            },
            NodeData::TSTypeReference(x) => {
                push_opt(&mut v, &x.type_parameters);
                push_opt(&mut v, &x.type_ref_name);
            },
            NodeData::TSTypeParameter(x) => {
                push_opt(&mut v, &x.constraint);
                push_opt(&mut v, &x.default);
            },
            NodeData::TSTypeParameterDeclaration(x) => {
                push_all(&mut v, &x.params);
            },
            NodeData::TSPropertySignature(x) => {
                push_opt(&mut v, &x.key);
                push_opt(&mut v, &x.type_annotation);
            },
            NodeData::TSMethodSignature(x) => {
                push_opt(&mut v, &x.key);
                push_opt(&mut v, &x.return_type);
                push_all(&mut v, &x.params);
            },
            NodeData::TSInterfaceBody(x) => {
                push_all(&mut v, &x.body);
            },
            NodeData::TSEnumMember(x) => {
                push_opt(&mut v, &x.id);
                push_opt(&mut v, &x.initializer);
            },
            NodeData::TSUnionType(x) => {
                push_all(&mut v, &x.types);
            },
            NodeData::TSIntersectionType(x) => {
                push_all(&mut v, &x.types);
            },
            NodeData::JSXElement(x) => {
                push_one(&mut v, &*x.opening_element);
                push_opt(&mut v, &x.closing_element);
                push_all(&mut v, &x.children);
            },
            NodeData::JSXOpeningElement(x) => {
                push_all(&mut v, &x.attributes);
                push_one(&mut v, &*x.name);
            },
            NodeData::JSXClosingElement(x) => {
                push_one(&mut v, &*x.name);
            },
            NodeData::JSXFragment(x) => {
                push_all(&mut v, &x.children);
            },
            NodeData::JSXAttribute(x) => {
                push_opt(&mut v, &x.value);
                push_one(&mut v, &*x.name);
            },
            NodeData::JSXSpreadAttribute(x) => {
                push_one(&mut v, &*x.argument);
            },
            NodeData::JSXMemberExpression(x) => {
                push_one(&mut v, &*x.object);
                push_one(&mut v, &*x.property);
            },
            NodeData::JSXExpressionContainer(x) => {
                push_one(&mut v, &*x.expression);
            },
            _ => {},
        }
        v
    }
}

} // verus!
