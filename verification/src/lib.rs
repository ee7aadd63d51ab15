//! The syntax tree of a modelling language, and what editor tooling and an
//! evaluator do with it.
//!
//! The tree is built by a parser, which this library does not hold. Every node
//! records the interval of byte offsets of the text it was read from. On the
//! tree the library
//!
//! - finds what stands at an offset ([`position`], [`hover`]),
//! - draws the outline and the regions that fold ([`symbols`]),
//! - renames a binding and what refers to it ([`rename`]),
//! - replaces values and declarations ([`replace`]),
//! - tells how far a value is constrained ([`constraint`]),
//! - hashes a tree, so that two trees can be told apart cheaply ([`digest`],
//!   [`digest_nodes`], [`digest_reset`]),
//! - says in which order the stages of a pipe are evaluated ([`pipe`]).
//!
//! What holds of these beyond what each function promises is proved as laws:
//! of renaming in [`rename_laws`], of digests in [`digest_laws`] and
//! [`digest_apart`], of well-formed trees in [`well_formed`], of pipes in
//! [`pipe`].
//!
//! What a function returns or changes is stated over the model of the tree in
//! [`model`]: for each node type a view that holds text as a sequence of
//! characters and children as sequences of views.

pub mod ast;
pub mod builders;
pub mod constraint;
mod copy;
pub mod digest;
pub mod digest_apart;
pub mod digest_laws;
pub mod digest_nodes;
pub mod digest_reset;
pub mod format;
pub mod function;
pub mod hover;
pub mod literal;
pub mod model;
pub mod non_code;
pub mod operators;
pub mod order;
pub mod pipe;
pub mod position;
pub mod range;
pub mod rename;
pub mod rename_laws;
pub mod replace;
pub mod spans;
pub mod symbols;
pub mod text;
pub mod well_formed;

pub use ast::{
    ArrayExpression, ArrayRangeExpression, Associativity, BinaryExpression, BinaryOperator,
    BinaryPart, BodyItem, CallExpression, CommentStyle, Digest, ElseIf, Expr, ExpressionStatement,
    FnArgPrimitive, FnArgType, Fraction, FunctionExpression, Identifier, IfExpression, ImportItem,
    ImportStatement, ItemVisibility, KclNone, Literal, LiteralIdentifier, LiteralValue,
    MemberExpression, MemberObject, NonCodeMeta, NonCodeNode, NonCodeValue, ObjectExpression,
    ObjectKeyInfo, ObjectProperty, Parameter, PipeExpression, PipeSubstitution, Program,
    ReturnStatement, TagDeclarator, UnaryExpression, UnaryOperator, VariableDeclaration,
    VariableDeclarator, VariableKind,
};
pub use constraint::{ConstraintKind, ConstraintLevel, ConstraintLevels};
pub use format::{FormatOptions, PIPE_OPERATOR_WIDTH};
pub use function::{Function, RequiredParamAfterOptionalParam};
pub use hover::Hover;
pub use literal::{human_friendly_type, JsonKind};
pub use pipe::{PipeAction, PipeEvent, PipeState};
pub use range::{LspPosition, LspRange, SourceRange};
pub use replace::Definition;
pub use spans::ValueMeta;
pub use symbols::{
    CompletionItem, CompletionItemKind, DocumentSymbol, FoldingRange, FoldingRangeKind,
    SymbolKind, SymbolSite,
};
