//! The node types of the syntax tree.
//!
//! Every node carries the interval of byte offsets `[start, end]` of the text it
//! was read from, and most carry a place for a digest once one has been computed.
//! A node owns its children: the tree is never shared and has no cycles.

use std::collections::HashMap;
use vstd::prelude::*;

verus! {

/// A structural hash of a node. `None` in a node until it is computed there.
pub type Digest = [u8; 32];

/// How a comment is written.
#[derive(Debug, Clone, Copy, PartialEq, Eq, Structural)]
pub enum CommentStyle {
    /// Like `// foo`.
    Line,
    /// Like `/* foo */`.
    Block,
}

/// Whether a declaration is visible outside its file.
#[derive(Debug, Clone, Copy, PartialEq, Eq, Structural)]
pub enum ItemVisibility {
    Default,
    Export,
}

/// What a declaration declares.
#[derive(Debug, Clone, Copy, PartialEq, Eq, Structural)]
pub enum VariableKind {
    /// A named constant.
    Const,
    /// A function.
    Fn,
}

/// The operators that stand between two operands.
#[derive(Debug, Clone, Copy, PartialEq, Eq, Structural)]
pub enum BinaryOperator {
    /// `+`
    Add,
    /// `-`
    Sub,
    /// `*`
    Mul,
    /// `/`
    Div,
    /// `%`
    Mod,
    /// `^`
    Pow,
    /// `==`
    Eq,
    /// `!=`
    Neq,
    /// `>`
    Gt,
    /// `>=`
    Gte,
    /// `<`
    Lt,
    /// `<=`
    Lte,
}

/// Whether `a . b . c` reads as `(a . b) . c` or as `a . (b . c)`.
#[derive(Debug, Clone, Copy, PartialEq, Eq, Structural)]
pub enum Associativity {
    /// `(a . b) . c`
    Left,
    /// `a . (b . c)`
    Right,
}

/// The operators that stand before one operand.
#[derive(Debug, Clone, Copy, PartialEq, Eq, Structural)]
pub enum UnaryOperator {
    /// `-`, of a number.
    Neg,
    /// `!`, of a boolean.
    Not,
}

/// The primitive types that a parameter can be declared with.
#[derive(Debug, Clone, Copy, PartialEq, Eq, Structural)]
pub enum FnArgPrimitive {
    String,
    Number,
    Boolean,
    Tag,
    Sketch,
    SketchSurface,
    Solid,
}

/// The absence of a value, where an expression is expected.
#[derive(Debug, Clone, Copy, PartialEq, Eq, Structural)]
pub struct KclNone {
    pub start: usize,
    pub end: usize,
}

/// A fractional number, as the tree holds it: the bits of the double-precision
/// number, and the text that stands for it where the number is written out.
#[derive(Debug, PartialEq)]
pub struct Fraction {
    pub bits: u64,
    pub text: String,
}

/// The value of a literal.
#[derive(Debug, PartialEq)]
pub enum LiteralValue {
    IInteger(i64),
    Fractional(Fraction),
    String(String),
    Bool(bool),
}

/// What stands in the text and is no code: a comment, a shebang or a blank line.
#[derive(Debug, PartialEq)]
pub enum NonCodeValue {
    /// The line `#!...` at the top of a file.
    Shebang { value: String },
    /// A comment on the same line as code, after it.
    InlineComment { value: String, style: CommentStyle },
    /// A comment on a line of its own, with no blank line above it. It belongs
    /// to the line that follows.
    BlockComment { value: String, style: CommentStyle },
    /// A comment on a line of its own, with a blank line above it.
    NewLineBlockComment { value: String, style: CommentStyle },
    /// A blank line, that is two line ends in a row. No comment.
    NewLine,
}

/// A piece of the text that is no code, with its place.
#[derive(Debug, PartialEq)]
pub struct NonCodeNode {
    pub start: usize,
    pub end: usize,
    pub value: NonCodeValue,
    pub digest: Option<Digest>,
}

/// The pieces of a body that are no code. Those under key `i` follow the item
/// with index `i`; those in `start` stand before the first item.
#[derive(Debug, PartialEq)]
pub struct NonCodeMeta {
    pub non_code_nodes: HashMap<usize, Vec<NonCodeNode>>,
    pub start: Vec<NonCodeNode>,
    pub digest: Option<Digest>,
}

/// A program: the whole text, or the body of a function or of a branch.
#[derive(Debug, PartialEq)]
pub struct Program {
    pub start: usize,
    pub end: usize,
    pub body: Vec<BodyItem>,
    pub non_code_meta: NonCodeMeta,
    pub digest: Option<Digest>,
}

/// A statement.
#[derive(Debug, PartialEq)]
pub enum BodyItem {
    ImportStatement(Box<ImportStatement>),
    ExpressionStatement(ExpressionStatement),
    VariableDeclaration(Box<VariableDeclaration>),
    ReturnStatement(ReturnStatement),
}

/// An expression: what can be evaluated to a single value.
#[derive(Debug, PartialEq)]
pub enum Expr {
    Literal(Box<Literal>),
    Identifier(Box<Identifier>),
    TagDeclarator(Box<TagDeclarator>),
    BinaryExpression(Box<BinaryExpression>),
    FunctionExpression(Box<FunctionExpression>),
    CallExpression(Box<CallExpression>),
    PipeExpression(Box<PipeExpression>),
    PipeSubstitution(Box<PipeSubstitution>),
    ArrayExpression(Box<ArrayExpression>),
    ArrayRangeExpression(Box<ArrayRangeExpression>),
    ObjectExpression(Box<ObjectExpression>),
    MemberExpression(Box<MemberExpression>),
    UnaryExpression(Box<UnaryExpression>),
    IfExpression(Box<IfExpression>),
    KclNone(KclNone),
}

/// An operand of a binary or unary expression. A pipe, a function, an array or an
/// object cannot stand here bare.
#[derive(Debug, PartialEq)]
pub enum BinaryPart {
    Literal(Box<Literal>),
    Identifier(Box<Identifier>),
    BinaryExpression(Box<BinaryExpression>),
    CallExpression(Box<CallExpression>),
    UnaryExpression(Box<UnaryExpression>),
    MemberExpression(Box<MemberExpression>),
    IfExpression(Box<IfExpression>),
}

/// One imported name, with the alias it is known under, if any.
#[derive(Debug, PartialEq)]
pub struct ImportItem {
    /// Name of the item to import.
    pub name: Identifier,
    /// The identifier after `as`, under which the item is known here.
    pub alias: Option<Identifier>,
    pub start: usize,
    pub end: usize,
    pub digest: Option<Digest>,
}

/// An import of items from another file.
#[derive(Debug, PartialEq)]
pub struct ImportStatement {
    pub start: usize,
    pub end: usize,
    pub items: Vec<ImportItem>,
    pub path: String,
    pub raw_path: String,
    pub digest: Option<Digest>,
}

/// An expression that stands as a statement.
#[derive(Debug, PartialEq)]
pub struct ExpressionStatement {
    pub start: usize,
    pub end: usize,
    pub expression: Expr,
    pub digest: Option<Digest>,
}

/// A call of a function by name.
#[derive(Debug, PartialEq)]
pub struct CallExpression {
    pub start: usize,
    pub end: usize,
    pub callee: Identifier,
    pub arguments: Vec<Expr>,
    pub optional: bool,
    pub digest: Option<Digest>,
}

/// A declaration of one or more names.
#[derive(Debug, PartialEq)]
pub struct VariableDeclaration {
    pub start: usize,
    pub end: usize,
    pub declarations: Vec<VariableDeclarator>,
    pub visibility: ItemVisibility,
    pub kind: VariableKind,
    pub digest: Option<Digest>,
}

/// One name bound to its initial value.
#[derive(Debug, PartialEq)]
pub struct VariableDeclarator {
    pub start: usize,
    pub end: usize,
    /// The name that is bound.
    pub id: Identifier,
    /// The value it is bound to.
    pub init: Expr,
    pub digest: Option<Digest>,
}

/// A literal value, with the text it was written as.
#[derive(Debug, PartialEq)]
pub struct Literal {
    pub start: usize,
    pub end: usize,
    pub value: LiteralValue,
    pub raw: String,
    pub digest: Option<Digest>,
}

/// A name that refers to a binding.
#[derive(Debug, PartialEq)]
pub struct Identifier {
    pub start: usize,
    pub end: usize,
    pub name: String,
    pub digest: Option<Digest>,
}

/// A tag: a name given to an entity where it is made.
#[derive(Debug, PartialEq)]
pub struct TagDeclarator {
    pub start: usize,
    pub end: usize,
    pub name: String,
    pub digest: Option<Digest>,
}

/// The placeholder `%`: the value of the previous stage of a pipe.
#[derive(Debug, PartialEq)]
pub struct PipeSubstitution {
    pub start: usize,
    pub end: usize,
    pub digest: Option<Digest>,
}

/// An array written out element by element.
#[derive(Debug, PartialEq)]
pub struct ArrayExpression {
    pub start: usize,
    pub end: usize,
    pub elements: Vec<Expr>,
    pub non_code_meta: NonCodeMeta,
    pub digest: Option<Digest>,
}

/// An array given by its first and last element.
#[derive(Debug, PartialEq)]
pub struct ArrayRangeExpression {
    pub start: usize,
    pub end: usize,
    pub start_element: Box<Expr>,
    pub end_element: Box<Expr>,
    /// Whether `end_element` belongs to the range.
    pub end_inclusive: bool,
    pub digest: Option<Digest>,
}

/// An object written out property by property.
#[derive(Debug, PartialEq)]
pub struct ObjectExpression {
    pub start: usize,
    pub end: usize,
    pub properties: Vec<ObjectProperty>,
    pub non_code_meta: NonCodeMeta,
    pub digest: Option<Digest>,
}

/// One property of an object: a key and its value.
#[derive(Debug, PartialEq)]
pub struct ObjectProperty {
    pub start: usize,
    pub end: usize,
    pub key: Identifier,
    pub value: Expr,
    pub digest: Option<Digest>,
}

/// What a member expression reads from.
#[derive(Debug, PartialEq)]
pub enum MemberObject {
    MemberExpression(Box<MemberExpression>),
    Identifier(Box<Identifier>),
}

/// What a member expression reads: a name or a literal key.
#[derive(Debug, PartialEq)]
pub enum LiteralIdentifier {
    Identifier(Box<Identifier>),
    Literal(Box<Literal>),
}

/// A read of a property or an element, `a.b` or `a[b]`.
#[derive(Debug, PartialEq)]
pub struct MemberExpression {
    pub start: usize,
    pub end: usize,
    pub object: MemberObject,
    pub property: LiteralIdentifier,
    /// Whether the property is computed, as in `a[b]`, and not named, as in `a.b`.
    pub computed: bool,
    pub digest: Option<Digest>,
}

/// A key of an object, with its place among the keys.
#[derive(Debug, PartialEq)]
pub struct ObjectKeyInfo {
    pub key: LiteralIdentifier,
    pub index: usize,
    pub computed: bool,
}

/// An operator between two operands.
#[derive(Debug, PartialEq)]
pub struct BinaryExpression {
    pub start: usize,
    pub end: usize,
    pub operator: BinaryOperator,
    pub left: BinaryPart,
    pub right: BinaryPart,
    pub digest: Option<Digest>,
}

/// An operator before one operand.
#[derive(Debug, PartialEq)]
pub struct UnaryExpression {
    pub start: usize,
    pub end: usize,
    pub operator: UnaryOperator,
    pub argument: BinaryPart,
    pub digest: Option<Digest>,
}

/// A pipe: a first expression and the calls that its value runs through.
#[derive(Debug, PartialEq)]
pub struct PipeExpression {
    pub start: usize,
    pub end: usize,
    /// The stages. The first may be any expression; a parser makes every later one a call.
    pub body: Vec<Expr>,
    pub non_code_meta: NonCodeMeta,
    pub digest: Option<Digest>,
}

/// The declared type of a parameter or of a result.
#[derive(Debug, PartialEq)]
pub enum FnArgType {
    Primitive(FnArgPrimitive),
    /// An array of a primitive type.
    Array(FnArgPrimitive),
    /// An object with the given properties.
    Object { properties: Vec<Parameter> },
}

/// A parameter of a function.
#[derive(Debug, PartialEq)]
pub struct Parameter {
    /// The name of the parameter.
    pub identifier: Identifier,
    /// Its declared type, if one was written.
    pub type_: Option<FnArgType>,
    /// Whether a call may leave it out.
    pub optional: bool,
    pub digest: Option<Digest>,
}

/// A function literal.
#[derive(Debug, PartialEq)]
pub struct FunctionExpression {
    pub start: usize,
    pub end: usize,
    pub params: Vec<Parameter>,
    pub body: Program,
    pub return_type: Option<FnArgType>,
    pub digest: Option<Digest>,
}

/// A `return` with its value.
#[derive(Debug, PartialEq)]
pub struct ReturnStatement {
    pub start: usize,
    pub end: usize,
    pub argument: Expr,
    pub digest: Option<Digest>,
}

/// A conditional with its branches.
#[derive(Debug, PartialEq)]
pub struct IfExpression {
    pub start: usize,
    pub end: usize,
    pub cond: Box<Expr>,
    pub then_val: Box<Program>,
    pub else_ifs: Vec<ElseIf>,
    pub final_else: Box<Program>,
    pub digest: Option<Digest>,
}

/// One `else if` branch of a conditional.
#[derive(Debug, PartialEq)]
pub struct ElseIf {
    pub start: usize,
    pub end: usize,
    pub cond: Expr,
    pub then_val: Box<Program>,
    pub digest: Option<Digest>,
}

} // verus!
