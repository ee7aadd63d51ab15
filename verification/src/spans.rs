//! Where a node stands in the text.

use crate::ast::{
    ArrayExpression, ArrayRangeExpression, BinaryExpression, BinaryPart, BodyItem, CallExpression,
    ElseIf, Expr, ExpressionStatement, FunctionExpression, Identifier, IfExpression, ImportItem,
    ImportStatement, KclNone, Literal, LiteralIdentifier, MemberExpression, MemberObject,
    NonCodeNode, ObjectExpression, ObjectProperty, PipeExpression, PipeSubstitution,
    ReturnStatement, TagDeclarator, UnaryExpression, VariableDeclaration, VariableDeclarator,
};
use crate::model::{
    BinaryPartView, BodyItemView, ExprView, LiteralIdentifierView, MemberObjectView,
};
use crate::range::SourceRange;
use vstd::prelude::*;

verus! {

/// A node that records the interval of the text it was read from.
pub trait ValueMeta {
    spec fn spec_start(&self) -> usize;

    spec fn spec_end(&self) -> usize;

    /// The offset of the node's first byte.
    fn start(&self) -> (start: usize)
        ensures
            start == self.spec_start(),
    ;

    /// The offset at which the node ends.
    fn end(&self) -> (end: usize)
        ensures
            end == self.spec_end(),
    ;
}

/// The interval of a node.
pub fn range_of<T: ValueMeta>(node: &T) -> (range: SourceRange)
    ensures
        range.start() == node.spec_start(),
        range.end() == node.spec_end(),
{
    SourceRange::new(node.start(), node.end())
}

impl ValueMeta for ImportItem {
    open spec fn spec_start(&self) -> usize {
        self.start
    }

    open spec fn spec_end(&self) -> usize {
        self.end
    }

    fn start(&self) -> usize {
        self.start
    }

    fn end(&self) -> usize {
        self.end
    }
}

impl ValueMeta for ImportStatement {
    open spec fn spec_start(&self) -> usize {
        self.start
    }

    open spec fn spec_end(&self) -> usize {
        self.end
    }

    fn start(&self) -> usize {
        self.start
    }

    fn end(&self) -> usize {
        self.end
    }
}

impl ValueMeta for ExpressionStatement {
    open spec fn spec_start(&self) -> usize {
        self.start
    }

    open spec fn spec_end(&self) -> usize {
        self.end
    }

    fn start(&self) -> usize {
        self.start
    }

    fn end(&self) -> usize {
        self.end
    }
}

impl ValueMeta for CallExpression {
    open spec fn spec_start(&self) -> usize {
        self.start
    }

    open spec fn spec_end(&self) -> usize {
        self.end
    }

    fn start(&self) -> usize {
        self.start
    }

    fn end(&self) -> usize {
        self.end
    }
}

impl ValueMeta for VariableDeclaration {
    open spec fn spec_start(&self) -> usize {
        self.start
    }

    open spec fn spec_end(&self) -> usize {
        self.end
    }

    fn start(&self) -> usize {
        self.start
    }

    fn end(&self) -> usize {
        self.end
    }
}

impl ValueMeta for VariableDeclarator {
    open spec fn spec_start(&self) -> usize {
        self.start
    }

    open spec fn spec_end(&self) -> usize {
        self.end
    }

    fn start(&self) -> usize {
        self.start
    }

    fn end(&self) -> usize {
        self.end
    }
}

impl ValueMeta for Literal {
    open spec fn spec_start(&self) -> usize {
        self.start
    }

    open spec fn spec_end(&self) -> usize {
        self.end
    }

    fn start(&self) -> usize {
        self.start
    }

    fn end(&self) -> usize {
        self.end
    }
}

impl ValueMeta for Identifier {
    open spec fn spec_start(&self) -> usize {
        self.start
    }

    open spec fn spec_end(&self) -> usize {
        self.end
    }

    fn start(&self) -> usize {
        self.start
    }

    fn end(&self) -> usize {
        self.end
    }
}

impl ValueMeta for TagDeclarator {
    open spec fn spec_start(&self) -> usize {
        self.start
    }

    open spec fn spec_end(&self) -> usize {
        self.end
    }

    fn start(&self) -> usize {
        self.start
    }

    fn end(&self) -> usize {
        self.end
    }
}

impl ValueMeta for PipeSubstitution {
    open spec fn spec_start(&self) -> usize {
        self.start
    }

    open spec fn spec_end(&self) -> usize {
        self.end
    }

    fn start(&self) -> usize {
        self.start
    }

    fn end(&self) -> usize {
        self.end
    }
}

impl ValueMeta for ArrayExpression {
    open spec fn spec_start(&self) -> usize {
        self.start
    }

    open spec fn spec_end(&self) -> usize {
        self.end
    }

    fn start(&self) -> usize {
        self.start
    }

    fn end(&self) -> usize {
        self.end
    }
}

impl ValueMeta for ArrayRangeExpression {
    open spec fn spec_start(&self) -> usize {
        self.start
    }

    open spec fn spec_end(&self) -> usize {
        self.end
    }

    fn start(&self) -> usize {
        self.start
    }

    fn end(&self) -> usize {
        self.end
    }
}

impl ValueMeta for ObjectExpression {
    open spec fn spec_start(&self) -> usize {
        self.start
    }

    open spec fn spec_end(&self) -> usize {
        self.end
    }

    fn start(&self) -> usize {
        self.start
    }

    fn end(&self) -> usize {
        self.end
    }
}

impl ValueMeta for ObjectProperty {
    open spec fn spec_start(&self) -> usize {
        self.start
    }

    open spec fn spec_end(&self) -> usize {
        self.end
    }

    fn start(&self) -> usize {
        self.start
    }

    fn end(&self) -> usize {
        self.end
    }
}

impl ValueMeta for MemberExpression {
    open spec fn spec_start(&self) -> usize {
        self.start
    }

    open spec fn spec_end(&self) -> usize {
        self.end
    }

    fn start(&self) -> usize {
        self.start
    }

    fn end(&self) -> usize {
        self.end
    }
}

impl ValueMeta for BinaryExpression {
    open spec fn spec_start(&self) -> usize {
        self.start
    }

    open spec fn spec_end(&self) -> usize {
        self.end
    }

    fn start(&self) -> usize {
        self.start
    }

    fn end(&self) -> usize {
        self.end
    }
}

impl ValueMeta for UnaryExpression {
    open spec fn spec_start(&self) -> usize {
        self.start
    }

    open spec fn spec_end(&self) -> usize {
        self.end
    }

    fn start(&self) -> usize {
        self.start
    }

    fn end(&self) -> usize {
        self.end
    }
}

impl ValueMeta for PipeExpression {
    open spec fn spec_start(&self) -> usize {
        self.start
    }

    open spec fn spec_end(&self) -> usize {
        self.end
    }

    fn start(&self) -> usize {
        self.start
    }

    fn end(&self) -> usize {
        self.end
    }
}

impl ValueMeta for FunctionExpression {
    open spec fn spec_start(&self) -> usize {
        self.start
    }

    open spec fn spec_end(&self) -> usize {
        self.end
    }

    fn start(&self) -> usize {
        self.start
    }

    fn end(&self) -> usize {
        self.end
    }
}

impl ValueMeta for ReturnStatement {
    open spec fn spec_start(&self) -> usize {
        self.start
    }

    open spec fn spec_end(&self) -> usize {
        self.end
    }

    fn start(&self) -> usize {
        self.start
    }

    fn end(&self) -> usize {
        self.end
    }
}

impl ValueMeta for IfExpression {
    open spec fn spec_start(&self) -> usize {
        self.start
    }

    open spec fn spec_end(&self) -> usize {
        self.end
    }

    fn start(&self) -> usize {
        self.start
    }

    fn end(&self) -> usize {
        self.end
    }
}

impl ValueMeta for ElseIf {
    open spec fn spec_start(&self) -> usize {
        self.start
    }

    open spec fn spec_end(&self) -> usize {
        self.end
    }

    fn start(&self) -> usize {
        self.start
    }

    fn end(&self) -> usize {
        self.end
    }
}

impl BodyItemView {
    /// The offset of the first byte.
    pub open spec fn start(self) -> usize {
        match self {
            BodyItemView::ImportStatement(x) => x.start,
            BodyItemView::ExpressionStatement(x) => x.start,
            BodyItemView::VariableDeclaration(x) => x.start,
            BodyItemView::ReturnStatement(x) => x.start,
        }
    }

    /// The offset at which it ends.
    pub open spec fn end(self) -> usize {
        match self {
            BodyItemView::ImportStatement(x) => x.end,
            BodyItemView::ExpressionStatement(x) => x.end,
            BodyItemView::VariableDeclaration(x) => x.end,
            BodyItemView::ReturnStatement(x) => x.end,
        }
    }

    /// Whether `pos` lies in the interval, both ends included.
    pub open spec fn contains(self, pos: usize) -> bool {
        self.start() <= pos <= self.end()
    }
}

impl BodyItem {
    /// The offset of the first byte.
    pub fn start(&self) -> (start: usize)
        ensures
            start == self@.start(),
    {
        match self {
            BodyItem::ImportStatement(x) => x.start(),
            BodyItem::ExpressionStatement(x) => x.start(),
            BodyItem::VariableDeclaration(x) => x.start(),
            BodyItem::ReturnStatement(x) => x.start(),
        }
    }

    /// The offset at which it ends.
    pub fn end(&self) -> (end: usize)
        ensures
            end == self@.end(),
    {
        match self {
            BodyItem::ImportStatement(x) => x.end(),
            BodyItem::ExpressionStatement(x) => x.end(),
            BodyItem::VariableDeclaration(x) => x.end(),
            BodyItem::ReturnStatement(x) => x.end(),
        }
    }

    /// The interval of the text it was read from.
    pub fn source_range(&self) -> (range: SourceRange)
        ensures
            range.start() == self@.start(),
            range.end() == self@.end(),
    {
        SourceRange::new(self.start(), self.end())
    }
}

impl ExprView {
    /// The offset of the first byte.
    pub open spec fn start(self) -> usize {
        match self {
            ExprView::Literal(x) => x.start,
            ExprView::Identifier(x) => x.start,
            ExprView::TagDeclarator(x) => x.start,
            ExprView::BinaryExpression(x) => x.start,
            ExprView::FunctionExpression(x) => x.start,
            ExprView::CallExpression(x) => x.start,
            ExprView::PipeExpression(x) => x.start,
            ExprView::PipeSubstitution(x) => x.start,
            ExprView::ArrayExpression(x) => x.start,
            ExprView::ArrayRangeExpression(x) => x.start,
            ExprView::ObjectExpression(x) => x.start,
            ExprView::MemberExpression(x) => x.start,
            ExprView::UnaryExpression(x) => x.start,
            ExprView::IfExpression(x) => x.start,
            ExprView::KclNone(x) => x.start,
        }
    }

    /// The offset at which it ends.
    pub open spec fn end(self) -> usize {
        match self {
            ExprView::Literal(x) => x.end,
            ExprView::Identifier(x) => x.end,
            ExprView::TagDeclarator(x) => x.end,
            ExprView::BinaryExpression(x) => x.end,
            ExprView::FunctionExpression(x) => x.end,
            ExprView::CallExpression(x) => x.end,
            ExprView::PipeExpression(x) => x.end,
            ExprView::PipeSubstitution(x) => x.end,
            ExprView::ArrayExpression(x) => x.end,
            ExprView::ArrayRangeExpression(x) => x.end,
            ExprView::ObjectExpression(x) => x.end,
            ExprView::MemberExpression(x) => x.end,
            ExprView::UnaryExpression(x) => x.end,
            ExprView::IfExpression(x) => x.end,
            ExprView::KclNone(x) => x.end,
        }
    }

    /// Whether `pos` lies in the interval, both ends included.
    pub open spec fn contains(self, pos: usize) -> bool {
        self.start() <= pos <= self.end()
    }
}

impl Expr {
    /// The offset of the first byte.
    pub fn start(&self) -> (start: usize)
        ensures
            start == self@.start(),
    {
        match self {
            Expr::Literal(x) => x.start(),
            Expr::Identifier(x) => x.start(),
            Expr::TagDeclarator(x) => x.start(),
            Expr::BinaryExpression(x) => x.start(),
            Expr::FunctionExpression(x) => x.start(),
            Expr::CallExpression(x) => x.start(),
            Expr::PipeExpression(x) => x.start(),
            Expr::PipeSubstitution(x) => x.start(),
            Expr::ArrayExpression(x) => x.start(),
            Expr::ArrayRangeExpression(x) => x.start(),
            Expr::ObjectExpression(x) => x.start(),
            Expr::MemberExpression(x) => x.start(),
            Expr::UnaryExpression(x) => x.start(),
            Expr::IfExpression(x) => x.start(),
            Expr::KclNone(x) => x.start,
        }
    }

    /// The offset at which it ends.
    pub fn end(&self) -> (end: usize)
        ensures
            end == self@.end(),
    {
        match self {
            Expr::Literal(x) => x.end(),
            Expr::Identifier(x) => x.end(),
            Expr::TagDeclarator(x) => x.end(),
            Expr::BinaryExpression(x) => x.end(),
            Expr::FunctionExpression(x) => x.end(),
            Expr::CallExpression(x) => x.end(),
            Expr::PipeExpression(x) => x.end(),
            Expr::PipeSubstitution(x) => x.end(),
            Expr::ArrayExpression(x) => x.end(),
            Expr::ArrayRangeExpression(x) => x.end(),
            Expr::ObjectExpression(x) => x.end(),
            Expr::MemberExpression(x) => x.end(),
            Expr::UnaryExpression(x) => x.end(),
            Expr::IfExpression(x) => x.end(),
            Expr::KclNone(x) => x.end,
        }
    }

    /// The interval of the text it was read from.
    pub fn source_range(&self) -> (range: SourceRange)
        ensures
            range.start() == self@.start(),
            range.end() == self@.end(),
    {
        SourceRange::new(self.start(), self.end())
    }
}

impl BinaryPartView {
    /// The offset of the first byte.
    pub open spec fn start(self) -> usize {
        match self {
            BinaryPartView::Literal(x) => x.start,
            BinaryPartView::Identifier(x) => x.start,
            BinaryPartView::BinaryExpression(x) => x.start,
            BinaryPartView::CallExpression(x) => x.start,
            BinaryPartView::UnaryExpression(x) => x.start,
            BinaryPartView::MemberExpression(x) => x.start,
            BinaryPartView::IfExpression(x) => x.start,
        }
    }

    /// The offset at which it ends.
    pub open spec fn end(self) -> usize {
        match self {
            BinaryPartView::Literal(x) => x.end,
            BinaryPartView::Identifier(x) => x.end,
            BinaryPartView::BinaryExpression(x) => x.end,
            BinaryPartView::CallExpression(x) => x.end,
            BinaryPartView::UnaryExpression(x) => x.end,
            BinaryPartView::MemberExpression(x) => x.end,
            BinaryPartView::IfExpression(x) => x.end,
        }
    }

    /// Whether `pos` lies in the interval, both ends included.
    pub open spec fn contains(self, pos: usize) -> bool {
        self.start() <= pos <= self.end()
    }
}

impl BinaryPart {
    /// The offset of the first byte.
    pub fn start(&self) -> (start: usize)
        ensures
            start == self@.start(),
    {
        match self {
            BinaryPart::Literal(x) => x.start(),
            BinaryPart::Identifier(x) => x.start(),
            BinaryPart::BinaryExpression(x) => x.start(),
            BinaryPart::CallExpression(x) => x.start(),
            BinaryPart::UnaryExpression(x) => x.start(),
            BinaryPart::MemberExpression(x) => x.start(),
            BinaryPart::IfExpression(x) => x.start(),
        }
    }

    /// The offset at which it ends.
    pub fn end(&self) -> (end: usize)
        ensures
            end == self@.end(),
    {
        match self {
            BinaryPart::Literal(x) => x.end(),
            BinaryPart::Identifier(x) => x.end(),
            BinaryPart::BinaryExpression(x) => x.end(),
            BinaryPart::CallExpression(x) => x.end(),
            BinaryPart::UnaryExpression(x) => x.end(),
            BinaryPart::MemberExpression(x) => x.end(),
            BinaryPart::IfExpression(x) => x.end(),
        }
    }

    /// The interval of the text it was read from.
    pub fn source_range(&self) -> (range: SourceRange)
        ensures
            range.start() == self@.start(),
            range.end() == self@.end(),
    {
        SourceRange::new(self.start(), self.end())
    }
}

impl MemberObjectView {
    /// The offset of the first byte.
    pub open spec fn start(self) -> usize {
        match self {
            MemberObjectView::MemberExpression(x) => x.start,
            MemberObjectView::Identifier(x) => x.start,
        }
    }

    /// The offset at which it ends.
    pub open spec fn end(self) -> usize {
        match self {
            MemberObjectView::MemberExpression(x) => x.end,
            MemberObjectView::Identifier(x) => x.end,
        }
    }

    /// Whether `pos` lies in the interval, both ends included.
    pub open spec fn contains(self, pos: usize) -> bool {
        self.start() <= pos <= self.end()
    }
}

impl MemberObject {
    /// The offset of the first byte.
    pub fn start(&self) -> (start: usize)
        ensures
            start == self@.start(),
    {
        match self {
            MemberObject::MemberExpression(x) => x.start(),
            MemberObject::Identifier(x) => x.start(),
        }
    }

    /// The offset at which it ends.
    pub fn end(&self) -> (end: usize)
        ensures
            end == self@.end(),
    {
        match self {
            MemberObject::MemberExpression(x) => x.end(),
            MemberObject::Identifier(x) => x.end(),
        }
    }

    /// The interval of the text it was read from.
    pub fn source_range(&self) -> (range: SourceRange)
        ensures
            range.start() == self@.start(),
            range.end() == self@.end(),
    {
        SourceRange::new(self.start(), self.end())
    }
}

impl LiteralIdentifierView {
    /// The offset of the first byte.
    pub open spec fn start(self) -> usize {
        match self {
            LiteralIdentifierView::Identifier(x) => x.start,
            LiteralIdentifierView::Literal(x) => x.start,
        }
    }

    /// The offset at which it ends.
    pub open spec fn end(self) -> usize {
        match self {
            LiteralIdentifierView::Identifier(x) => x.end,
            LiteralIdentifierView::Literal(x) => x.end,
        }
    }

    /// Whether `pos` lies in the interval, both ends included.
    pub open spec fn contains(self, pos: usize) -> bool {
        self.start() <= pos <= self.end()
    }
}

impl LiteralIdentifier {
    /// The offset of the first byte.
    pub fn start(&self) -> (start: usize)
        ensures
            start == self@.start(),
    {
        match self {
            LiteralIdentifier::Identifier(x) => x.start(),
            LiteralIdentifier::Literal(x) => x.start(),
        }
    }

    /// The offset at which it ends.
    pub fn end(&self) -> (end: usize)
        ensures
            end == self@.end(),
    {
        match self {
            LiteralIdentifier::Identifier(x) => x.end(),
            LiteralIdentifier::Literal(x) => x.end(),
        }
    }

    /// The interval of the text it was read from.
    pub fn source_range(&self) -> (range: SourceRange)
        ensures
            range.start() == self@.start(),
            range.end() == self@.end(),
    {
        SourceRange::new(self.start(), self.end())
    }
}

impl KclNone {
    /// The absence of a value at the given place.
    pub fn new(start: usize, end: usize) -> (none: Self)
        ensures
            none == (KclNone { start, end }),
    {
        KclNone { start, end }
    }

    /// The interval of the text it was read from.
    pub fn source_range(&self) -> (range: SourceRange)
        ensures
            range.start() == self.start,
            range.end() == self.end,
    {
        SourceRange::new(self.start, self.end)
    }
}

impl NonCodeNode {
    /// The interval of the text it was read from.
    pub fn source_range(&self) -> (range: SourceRange)
        ensures
            range.start() == self.start,
            range.end() == self.end,
    {
        SourceRange::new(self.start, self.end)
    }
}

} // verus!
