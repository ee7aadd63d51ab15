//! Well-formed trees: every node ends no earlier than it begins, and holds the
//! nodes directly below it within its interval.
//!
//! A parser builds such trees. The types do not force it: a node can be made
//! with any offsets. So it is a property to ask of a tree, to test, and to
//! keep. Renaming keeps it.

use crate::ast::{
    ArrayExpression, ArrayRangeExpression, BinaryExpression, BinaryPart, BodyItem, CallExpression,
    ElseIf, Expr, ExpressionStatement, FunctionExpression, Identifier, IfExpression, ImportItem,
    ImportStatement, Literal, LiteralIdentifier, MemberExpression, MemberObject,
    ObjectExpression, ObjectProperty, PipeExpression, PipeSubstitution, Program,
    ReturnStatement, TagDeclarator, UnaryExpression, VariableDeclaration, VariableDeclarator,
};
use crate::model::{
    ArrayExpressionView, ArrayRangeExpressionView, BinaryExpressionView, BinaryPartView,
    BodyItemView, CallExpressionView, ElseIfView, ExprView, ExpressionStatementView,
    FunctionExpressionView, IdentifierView, IfExpressionView, ImportItemView,
    ImportStatementView, LiteralIdentifierView, LiteralView, MemberExpressionView,
    MemberObjectView, ObjectExpressionView, ObjectPropertyView, PipeExpressionView,
    PipeSubstitutionView, ProgramView, ReturnStatementView, TagDeclaratorView,
    UnaryExpressionView, VariableDeclarationView, VariableDeclaratorView,
};
use vstd::prelude::*;

verus! {

impl ProgramView {
    /// Whether the node ends no earlier than it begins, holds each node
    /// directly below it within its interval, and the same is true of those.
    pub open spec fn well_formed(self) -> bool
        decreases self,
    {
        &&& self.start <= self.end
        &&& forall|i: int|
            0 <= i < self.body.len() ==> (#[trigger] self.body[i]).well_formed() && self.start <= self.body[i].start()
                && self.body[i].end() <= self.end
    }
}

impl BodyItemView {
    /// Whether what this stands for is well formed.
    pub open spec fn well_formed(self) -> bool
        decreases self,
    {
        match self {
            BodyItemView::ImportStatement(x) => x.well_formed(),
            BodyItemView::ExpressionStatement(x) => x.well_formed(),
            BodyItemView::VariableDeclaration(x) => x.well_formed(),
            BodyItemView::ReturnStatement(x) => x.well_formed(),
        }
    }
}

impl ExprView {
    /// Whether what this stands for is well formed.
    pub open spec fn well_formed(self) -> bool
        decreases self,
    {
        match self {
            ExprView::Literal(x) => x.well_formed(),
            ExprView::Identifier(x) => x.well_formed(),
            ExprView::TagDeclarator(x) => x.well_formed(),
            ExprView::BinaryExpression(x) => x.well_formed(),
            ExprView::FunctionExpression(x) => x.well_formed(),
            ExprView::CallExpression(x) => x.well_formed(),
            ExprView::PipeExpression(x) => x.well_formed(),
            ExprView::PipeSubstitution(x) => x.well_formed(),
            ExprView::ArrayExpression(x) => x.well_formed(),
            ExprView::ArrayRangeExpression(x) => x.well_formed(),
            ExprView::ObjectExpression(x) => x.well_formed(),
            ExprView::MemberExpression(x) => x.well_formed(),
            ExprView::UnaryExpression(x) => x.well_formed(),
            ExprView::IfExpression(x) => x.well_formed(),
            ExprView::KclNone(x) => x.start <= x.end,
        }
    }
}

impl BinaryPartView {
    /// Whether what this stands for is well formed.
    pub open spec fn well_formed(self) -> bool
        decreases self,
    {
        match self {
            BinaryPartView::Literal(x) => x.well_formed(),
            BinaryPartView::Identifier(x) => x.well_formed(),
            BinaryPartView::BinaryExpression(x) => x.well_formed(),
            BinaryPartView::CallExpression(x) => x.well_formed(),
            BinaryPartView::UnaryExpression(x) => x.well_formed(),
            BinaryPartView::MemberExpression(x) => x.well_formed(),
            BinaryPartView::IfExpression(x) => x.well_formed(),
        }
    }
}

impl ImportItemView {
    /// Whether the node ends no earlier than it begins, holds each node
    /// directly below it within its interval, and the same is true of those.
    pub open spec fn well_formed(self) -> bool
        decreases self,
    {
        &&& self.start <= self.end
        &&& self.start <= self.name.start && self.name.end <= self.end
        &&& self.name.well_formed()
        &&& (match self.alias {
            Some(x) => x.well_formed() && self.start <= x.start && x.end <= self.end,
            None => true,
        })
    }
}

impl ImportStatementView {
    /// Whether the node ends no earlier than it begins, holds each node
    /// directly below it within its interval, and the same is true of those.
    pub open spec fn well_formed(self) -> bool
        decreases self,
    {
        &&& self.start <= self.end
        &&& forall|i: int|
            0 <= i < self.items.len() ==> (#[trigger] self.items[i]).well_formed() && self.start <= self.items[i].start
                && self.items[i].end <= self.end
    }
}

impl ExpressionStatementView {
    /// Whether the node ends no earlier than it begins, holds each node
    /// directly below it within its interval, and the same is true of those.
    pub open spec fn well_formed(self) -> bool
        decreases self,
    {
        &&& self.start <= self.end
        &&& self.start <= self.expression.start() && self.expression.end() <= self.end
        &&& self.expression.well_formed()
    }
}

impl CallExpressionView {
    /// Whether the node ends no earlier than it begins, holds each node
    /// directly below it within its interval, and the same is true of those.
    pub open spec fn well_formed(self) -> bool
        decreases self,
    {
        &&& self.start <= self.end
        &&& self.start <= self.callee.start && self.callee.end <= self.end
        &&& self.callee.well_formed()
        &&& forall|i: int|
            0 <= i < self.arguments.len() ==> (#[trigger] self.arguments[i]).well_formed() && self.start <= self.arguments[i].start()
                && self.arguments[i].end() <= self.end
    }
}

impl VariableDeclarationView {
    /// Whether the node ends no earlier than it begins, holds each node
    /// directly below it within its interval, and the same is true of those.
    pub open spec fn well_formed(self) -> bool
        decreases self,
    {
        &&& self.start <= self.end
        &&& forall|i: int|
            0 <= i < self.declarations.len() ==> (#[trigger] self.declarations[i]).well_formed() && self.start <= self.declarations[i].start
                && self.declarations[i].end <= self.end
    }
}

impl VariableDeclaratorView {
    /// Whether the node ends no earlier than it begins, holds each node
    /// directly below it within its interval, and the same is true of those.
    pub open spec fn well_formed(self) -> bool
        decreases self,
    {
        &&& self.start <= self.end
        &&& self.start <= self.id.start && self.id.end <= self.end
        &&& self.id.well_formed()
        &&& self.start <= self.init.start() && self.init.end() <= self.end
        &&& self.init.well_formed()
    }
}

impl LiteralView {
    /// Whether the node ends no earlier than it begins, holds each node
    /// directly below it within its interval, and the same is true of those.
    pub open spec fn well_formed(self) -> bool
        decreases self,
    {
        &&& self.start <= self.end
    }
}

impl IdentifierView {
    /// Whether the node ends no earlier than it begins, holds each node
    /// directly below it within its interval, and the same is true of those.
    pub open spec fn well_formed(self) -> bool
        decreases self,
    {
        &&& self.start <= self.end
    }
}

impl TagDeclaratorView {
    /// Whether the node ends no earlier than it begins, holds each node
    /// directly below it within its interval, and the same is true of those.
    pub open spec fn well_formed(self) -> bool
        decreases self,
    {
        &&& self.start <= self.end
    }
}

impl PipeSubstitutionView {
    /// Whether the node ends no earlier than it begins, holds each node
    /// directly below it within its interval, and the same is true of those.
    pub open spec fn well_formed(self) -> bool
        decreases self,
    {
        &&& self.start <= self.end
    }
}

impl ArrayExpressionView {
    /// Whether the node ends no earlier than it begins, holds each node
    /// directly below it within its interval, and the same is true of those.
    pub open spec fn well_formed(self) -> bool
        decreases self,
    {
        &&& self.start <= self.end
        &&& forall|i: int|
            0 <= i < self.elements.len() ==> (#[trigger] self.elements[i]).well_formed() && self.start <= self.elements[i].start()
                && self.elements[i].end() <= self.end
    }
}

impl ArrayRangeExpressionView {
    /// Whether the node ends no earlier than it begins, holds each node
    /// directly below it within its interval, and the same is true of those.
    pub open spec fn well_formed(self) -> bool
        decreases self,
    {
        &&& self.start <= self.end
        &&& self.start <= self.start_element.start() && self.start_element.end() <= self.end
        &&& self.start_element.well_formed()
        &&& self.start <= self.end_element.start() && self.end_element.end() <= self.end
        &&& self.end_element.well_formed()
    }
}

impl ObjectExpressionView {
    /// Whether the node ends no earlier than it begins, holds each node
    /// directly below it within its interval, and the same is true of those.
    pub open spec fn well_formed(self) -> bool
        decreases self,
    {
        &&& self.start <= self.end
        &&& forall|i: int|
            0 <= i < self.properties.len() ==> (#[trigger] self.properties[i]).well_formed() && self.start <= self.properties[i].start
                && self.properties[i].end <= self.end
    }
}

impl ObjectPropertyView {
    /// Whether the node ends no earlier than it begins, holds each node
    /// directly below it within its interval, and the same is true of those.
    pub open spec fn well_formed(self) -> bool
        decreases self,
    {
        &&& self.start <= self.end
        &&& self.start <= self.key.start && self.key.end <= self.end
        &&& self.key.well_formed()
        &&& self.start <= self.value.start() && self.value.end() <= self.end
        &&& self.value.well_formed()
    }
}

impl MemberObjectView {
    /// Whether what this stands for is well formed.
    pub open spec fn well_formed(self) -> bool
        decreases self,
    {
        match self {
            MemberObjectView::MemberExpression(x) => x.well_formed(),
            MemberObjectView::Identifier(x) => x.well_formed(),
        }
    }
}

impl LiteralIdentifierView {
    /// Whether what this stands for is well formed.
    pub open spec fn well_formed(self) -> bool
        decreases self,
    {
        match self {
            LiteralIdentifierView::Identifier(x) => x.well_formed(),
            LiteralIdentifierView::Literal(x) => x.well_formed(),
        }
    }
}

impl MemberExpressionView {
    /// Whether the node ends no earlier than it begins, holds each node
    /// directly below it within its interval, and the same is true of those.
    pub open spec fn well_formed(self) -> bool
        decreases self,
    {
        &&& self.start <= self.end
        &&& self.start <= self.object.start() && self.object.end() <= self.end
        &&& self.object.well_formed()
        &&& self.start <= self.property.start() && self.property.end() <= self.end
        &&& self.property.well_formed()
    }
}

impl BinaryExpressionView {
    /// Whether the node ends no earlier than it begins, holds each node
    /// directly below it within its interval, and the same is true of those.
    pub open spec fn well_formed(self) -> bool
        decreases self,
    {
        &&& self.start <= self.end
        &&& self.start <= self.left.start() && self.left.end() <= self.end
        &&& self.left.well_formed()
        &&& self.start <= self.right.start() && self.right.end() <= self.end
        &&& self.right.well_formed()
    }
}

impl UnaryExpressionView {
    /// Whether the node ends no earlier than it begins, holds each node
    /// directly below it within its interval, and the same is true of those.
    pub open spec fn well_formed(self) -> bool
        decreases self,
    {
        &&& self.start <= self.end
        &&& self.start <= self.argument.start() && self.argument.end() <= self.end
        &&& self.argument.well_formed()
    }
}

impl PipeExpressionView {
    /// Whether the node ends no earlier than it begins, holds each node
    /// directly below it within its interval, and the same is true of those.
    pub open spec fn well_formed(self) -> bool
        decreases self,
    {
        &&& self.start <= self.end
        &&& forall|i: int|
            0 <= i < self.body.len() ==> (#[trigger] self.body[i]).well_formed() && self.start <= self.body[i].start()
                && self.body[i].end() <= self.end
    }
}

impl FunctionExpressionView {
    /// Whether the node ends no earlier than it begins, holds each node
    /// directly below it within its interval, and the same is true of those.
    pub open spec fn well_formed(self) -> bool
        decreases self,
    {
        &&& self.start <= self.end
        &&& forall|i: int|
            0 <= i < self.params.len() ==> self.start <= (#[trigger] self.params[i]).identifier.start
                && self.params[i].identifier.start <= self.params[i].identifier.end && self.params[i].identifier.end
                <= self.end
        &&& self.start <= self.body.start && self.body.end <= self.end
        &&& self.body.well_formed()
    }
}

impl ReturnStatementView {
    /// Whether the node ends no earlier than it begins, holds each node
    /// directly below it within its interval, and the same is true of those.
    pub open spec fn well_formed(self) -> bool
        decreases self,
    {
        &&& self.start <= self.end
        &&& self.start <= self.argument.start() && self.argument.end() <= self.end
        &&& self.argument.well_formed()
    }
}

impl IfExpressionView {
    /// Whether the node ends no earlier than it begins, holds each node
    /// directly below it within its interval, and the same is true of those.
    pub open spec fn well_formed(self) -> bool
        decreases self,
    {
        &&& self.start <= self.end
        &&& self.start <= self.cond.start() && self.cond.end() <= self.end
        &&& self.cond.well_formed()
        &&& self.start <= self.then_val.start && self.then_val.end <= self.end
        &&& self.then_val.well_formed()
        &&& forall|i: int|
            0 <= i < self.else_ifs.len() ==> (#[trigger] self.else_ifs[i]).well_formed() && self.start <= self.else_ifs[i].start
                && self.else_ifs[i].end <= self.end
        &&& self.start <= self.final_else.start && self.final_else.end <= self.end
        &&& self.final_else.well_formed()
    }
}

impl ElseIfView {
    /// Whether the node ends no earlier than it begins, holds each node
    /// directly below it within its interval, and the same is true of those.
    pub open spec fn well_formed(self) -> bool
        decreases self,
    {
        &&& self.start <= self.end
        &&& self.start <= self.cond.start() && self.cond.end() <= self.end
        &&& self.cond.well_formed()
        &&& self.start <= self.then_val.start && self.then_val.end <= self.end
        &&& self.then_val.well_formed()
    }
}

impl Program {
    /// Whether the node is well formed: whether it ends no earlier than it
    /// begins and holds each node directly below it within its interval, and
    /// the same is true of those.
    pub fn is_well_formed(&self) -> (well_formed: bool)
        ensures
            well_formed == self@.well_formed(),
        decreases self,
    {
        if !(self.start <= self.end) {
            return false;
        }
        let mut i: usize = 0;
        while i < self.body.len()
            invariant
                i <= self.body.len(),
                forall|j: int|
                    0 <= j < i ==> (#[trigger] self@.body[j]).well_formed() && self.start <= self@.body[j].start()
                        && self@.body[j].end() <= self.end,
            decreases self.body.len() - i,
        {
            if !(self.body[i].is_well_formed() && self.start <= self.body[i].start() && self.body[i].end() <= self.end) {
                assert(!(self@.body[i as int].well_formed() && self.start <= self@.body[i as int].start()
                    && self@.body[i as int].end() <= self.end));
                return false;
            }
            i += 1;
        }
        true
    }
}

impl BodyItem {
    /// Whether what this stands for is well formed.
    pub fn is_well_formed(&self) -> (well_formed: bool)
        ensures
            well_formed == self@.well_formed(),
        decreases self,
    {
        match self {
            BodyItem::ImportStatement(x) => x.is_well_formed(),
            BodyItem::ExpressionStatement(x) => x.is_well_formed(),
            BodyItem::VariableDeclaration(x) => x.is_well_formed(),
            BodyItem::ReturnStatement(x) => x.is_well_formed(),
        }
    }
}

impl Expr {
    /// Whether what this stands for is well formed.
    pub fn is_well_formed(&self) -> (well_formed: bool)
        ensures
            well_formed == self@.well_formed(),
        decreases self,
    {
        match self {
            Expr::Literal(x) => x.is_well_formed(),
            Expr::Identifier(x) => x.is_well_formed(),
            Expr::TagDeclarator(x) => x.is_well_formed(),
            Expr::BinaryExpression(x) => x.is_well_formed(),
            Expr::FunctionExpression(x) => x.is_well_formed(),
            Expr::CallExpression(x) => x.is_well_formed(),
            Expr::PipeExpression(x) => x.is_well_formed(),
            Expr::PipeSubstitution(x) => x.is_well_formed(),
            Expr::ArrayExpression(x) => x.is_well_formed(),
            Expr::ArrayRangeExpression(x) => x.is_well_formed(),
            Expr::ObjectExpression(x) => x.is_well_formed(),
            Expr::MemberExpression(x) => x.is_well_formed(),
            Expr::UnaryExpression(x) => x.is_well_formed(),
            Expr::IfExpression(x) => x.is_well_formed(),
            Expr::KclNone(x) => x.start <= x.end,
        }
    }
}

impl BinaryPart {
    /// Whether what this stands for is well formed.
    pub fn is_well_formed(&self) -> (well_formed: bool)
        ensures
            well_formed == self@.well_formed(),
        decreases self,
    {
        match self {
            BinaryPart::Literal(x) => x.is_well_formed(),
            BinaryPart::Identifier(x) => x.is_well_formed(),
            BinaryPart::BinaryExpression(x) => x.is_well_formed(),
            BinaryPart::CallExpression(x) => x.is_well_formed(),
            BinaryPart::UnaryExpression(x) => x.is_well_formed(),
            BinaryPart::MemberExpression(x) => x.is_well_formed(),
            BinaryPart::IfExpression(x) => x.is_well_formed(),
        }
    }
}

impl ImportItem {
    /// Whether the node is well formed: whether it ends no earlier than it
    /// begins and holds each node directly below it within its interval, and
    /// the same is true of those.
    pub fn is_well_formed(&self) -> (well_formed: bool)
        ensures
            well_formed == self@.well_formed(),
        decreases self,
    {
        if !(self.start <= self.end) {
            return false;
        }
        if !(self.start <= self.name.start && self.name.end <= self.end) {
            return false;
        }
        if !(self.name.is_well_formed()) {
            return false;
        }
        match &self.alias {
            Some(x) => {
                if !(x.is_well_formed() && self.start <= x.start && x.end <= self.end) {
                    return false;
                }
            },
            None => {},
        }
        true
    }
}

impl ImportStatement {
    /// Whether the node is well formed: whether it ends no earlier than it
    /// begins and holds each node directly below it within its interval, and
    /// the same is true of those.
    pub fn is_well_formed(&self) -> (well_formed: bool)
        ensures
            well_formed == self@.well_formed(),
        decreases self,
    {
        if !(self.start <= self.end) {
            return false;
        }
        let mut i: usize = 0;
        while i < self.items.len()
            invariant
                i <= self.items.len(),
                forall|j: int|
                    0 <= j < i ==> (#[trigger] self@.items[j]).well_formed() && self.start <= self@.items[j].start
                        && self@.items[j].end <= self.end,
            decreases self.items.len() - i,
        {
            if !(self.items[i].is_well_formed() && self.start <= self.items[i].start && self.items[i].end <= self.end) {
                assert(!(self@.items[i as int].well_formed() && self.start <= self@.items[i as int].start
                    && self@.items[i as int].end <= self.end));
                return false;
            }
            i += 1;
        }
        true
    }
}

impl ExpressionStatement {
    /// Whether the node is well formed: whether it ends no earlier than it
    /// begins and holds each node directly below it within its interval, and
    /// the same is true of those.
    pub fn is_well_formed(&self) -> (well_formed: bool)
        ensures
            well_formed == self@.well_formed(),
        decreases self,
    {
        if !(self.start <= self.end) {
            return false;
        }
        if !(self.start <= self.expression.start() && self.expression.end() <= self.end) {
            return false;
        }
        if !(self.expression.is_well_formed()) {
            return false;
        }
        true
    }
}

impl CallExpression {
    /// Whether the node is well formed: whether it ends no earlier than it
    /// begins and holds each node directly below it within its interval, and
    /// the same is true of those.
    pub fn is_well_formed(&self) -> (well_formed: bool)
        ensures
            well_formed == self@.well_formed(),
        decreases self,
    {
        if !(self.start <= self.end) {
            return false;
        }
        if !(self.start <= self.callee.start && self.callee.end <= self.end) {
            return false;
        }
        if !(self.callee.is_well_formed()) {
            return false;
        }
        let mut i: usize = 0;
        while i < self.arguments.len()
            invariant
                i <= self.arguments.len(),
                forall|j: int|
                    0 <= j < i ==> (#[trigger] self@.arguments[j]).well_formed() && self.start <= self@.arguments[j].start()
                        && self@.arguments[j].end() <= self.end,
            decreases self.arguments.len() - i,
        {
            if !(self.arguments[i].is_well_formed() && self.start <= self.arguments[i].start() && self.arguments[i].end() <= self.end) {
                assert(!(self@.arguments[i as int].well_formed() && self.start <= self@.arguments[i as int].start()
                    && self@.arguments[i as int].end() <= self.end));
                return false;
            }
            i += 1;
        }
        true
    }
}

impl VariableDeclaration {
    /// Whether the node is well formed: whether it ends no earlier than it
    /// begins and holds each node directly below it within its interval, and
    /// the same is true of those.
    pub fn is_well_formed(&self) -> (well_formed: bool)
        ensures
            well_formed == self@.well_formed(),
        decreases self,
    {
        if !(self.start <= self.end) {
            return false;
        }
        let mut i: usize = 0;
        while i < self.declarations.len()
            invariant
                i <= self.declarations.len(),
                forall|j: int|
                    0 <= j < i ==> (#[trigger] self@.declarations[j]).well_formed() && self.start <= self@.declarations[j].start
                        && self@.declarations[j].end <= self.end,
            decreases self.declarations.len() - i,
        {
            if !(self.declarations[i].is_well_formed() && self.start <= self.declarations[i].start && self.declarations[i].end <= self.end) {
                assert(!(self@.declarations[i as int].well_formed() && self.start <= self@.declarations[i as int].start
                    && self@.declarations[i as int].end <= self.end));
                return false;
            }
            i += 1;
        }
        true
    }
}

impl VariableDeclarator {
    /// Whether the node is well formed: whether it ends no earlier than it
    /// begins and holds each node directly below it within its interval, and
    /// the same is true of those.
    pub fn is_well_formed(&self) -> (well_formed: bool)
        ensures
            well_formed == self@.well_formed(),
        decreases self,
    {
        if !(self.start <= self.end) {
            return false;
        }
        if !(self.start <= self.id.start && self.id.end <= self.end) {
            return false;
        }
        if !(self.id.is_well_formed()) {
            return false;
        }
        if !(self.start <= self.init.start() && self.init.end() <= self.end) {
            return false;
        }
        if !(self.init.is_well_formed()) {
            return false;
        }
        true
    }
}

impl Literal {
    /// Whether the node is well formed: whether it ends no earlier than it
    /// begins and holds each node directly below it within its interval, and
    /// the same is true of those.
    pub fn is_well_formed(&self) -> (well_formed: bool)
        ensures
            well_formed == self@.well_formed(),
        decreases self,
    {
        if !(self.start <= self.end) {
            return false;
        }
        true
    }
}

impl Identifier {
    /// Whether the node is well formed: whether it ends no earlier than it
    /// begins and holds each node directly below it within its interval, and
    /// the same is true of those.
    pub fn is_well_formed(&self) -> (well_formed: bool)
        ensures
            well_formed == self@.well_formed(),
        decreases self,
    {
        if !(self.start <= self.end) {
            return false;
        }
        true
    }
}

impl TagDeclarator {
    /// Whether the node is well formed: whether it ends no earlier than it
    /// begins and holds each node directly below it within its interval, and
    /// the same is true of those.
    pub fn is_well_formed(&self) -> (well_formed: bool)
        ensures
            well_formed == self@.well_formed(),
        decreases self,
    {
        if !(self.start <= self.end) {
            return false;
        }
        true
    }
}

impl PipeSubstitution {
    /// Whether the node is well formed: whether it ends no earlier than it
    /// begins and holds each node directly below it within its interval, and
    /// the same is true of those.
    pub fn is_well_formed(&self) -> (well_formed: bool)
        ensures
            well_formed == self@.well_formed(),
        decreases self,
    {
        if !(self.start <= self.end) {
            return false;
        }
        true
    }
}

impl ArrayExpression {
    /// Whether the node is well formed: whether it ends no earlier than it
    /// begins and holds each node directly below it within its interval, and
    /// the same is true of those.
    pub fn is_well_formed(&self) -> (well_formed: bool)
        ensures
            well_formed == self@.well_formed(),
        decreases self,
    {
        if !(self.start <= self.end) {
            return false;
        }
        let mut i: usize = 0;
        while i < self.elements.len()
            invariant
                i <= self.elements.len(),
                forall|j: int|
                    0 <= j < i ==> (#[trigger] self@.elements[j]).well_formed() && self.start <= self@.elements[j].start()
                        && self@.elements[j].end() <= self.end,
            decreases self.elements.len() - i,
        {
            if !(self.elements[i].is_well_formed() && self.start <= self.elements[i].start() && self.elements[i].end() <= self.end) {
                assert(!(self@.elements[i as int].well_formed() && self.start <= self@.elements[i as int].start()
                    && self@.elements[i as int].end() <= self.end));
                return false;
            }
            i += 1;
        }
        true
    }
}

impl ArrayRangeExpression {
    /// Whether the node is well formed: whether it ends no earlier than it
    /// begins and holds each node directly below it within its interval, and
    /// the same is true of those.
    pub fn is_well_formed(&self) -> (well_formed: bool)
        ensures
            well_formed == self@.well_formed(),
        decreases self,
    {
        if !(self.start <= self.end) {
            return false;
        }
        if !(self.start <= self.start_element.start() && self.start_element.end() <= self.end) {
            return false;
        }
        if !(self.start_element.is_well_formed()) {
            return false;
        }
        if !(self.start <= self.end_element.start() && self.end_element.end() <= self.end) {
            return false;
        }
        if !(self.end_element.is_well_formed()) {
            return false;
        }
        true
    }
}

impl ObjectExpression {
    /// Whether the node is well formed: whether it ends no earlier than it
    /// begins and holds each node directly below it within its interval, and
    /// the same is true of those.
    pub fn is_well_formed(&self) -> (well_formed: bool)
        ensures
            well_formed == self@.well_formed(),
        decreases self,
    {
        if !(self.start <= self.end) {
            return false;
        }
        let mut i: usize = 0;
        while i < self.properties.len()
            invariant
                i <= self.properties.len(),
                forall|j: int|
                    0 <= j < i ==> (#[trigger] self@.properties[j]).well_formed() && self.start <= self@.properties[j].start
                        && self@.properties[j].end <= self.end,
            decreases self.properties.len() - i,
        {
            if !(self.properties[i].is_well_formed() && self.start <= self.properties[i].start && self.properties[i].end <= self.end) {
                assert(!(self@.properties[i as int].well_formed() && self.start <= self@.properties[i as int].start
                    && self@.properties[i as int].end <= self.end));
                return false;
            }
            i += 1;
        }
        true
    }
}

impl ObjectProperty {
    /// Whether the node is well formed: whether it ends no earlier than it
    /// begins and holds each node directly below it within its interval, and
    /// the same is true of those.
    pub fn is_well_formed(&self) -> (well_formed: bool)
        ensures
            well_formed == self@.well_formed(),
        decreases self,
    {
        if !(self.start <= self.end) {
            return false;
        }
        if !(self.start <= self.key.start && self.key.end <= self.end) {
            return false;
        }
        if !(self.key.is_well_formed()) {
            return false;
        }
        if !(self.start <= self.value.start() && self.value.end() <= self.end) {
            return false;
        }
        if !(self.value.is_well_formed()) {
            return false;
        }
        true
    }
}

impl MemberObject {
    /// Whether what this stands for is well formed.
    pub fn is_well_formed(&self) -> (well_formed: bool)
        ensures
            well_formed == self@.well_formed(),
        decreases self,
    {
        match self {
            MemberObject::MemberExpression(x) => x.is_well_formed(),
            MemberObject::Identifier(x) => x.is_well_formed(),
        }
    }
}

impl LiteralIdentifier {
    /// Whether what this stands for is well formed.
    pub fn is_well_formed(&self) -> (well_formed: bool)
        ensures
            well_formed == self@.well_formed(),
        decreases self,
    {
        match self {
            LiteralIdentifier::Identifier(x) => x.is_well_formed(),
            LiteralIdentifier::Literal(x) => x.is_well_formed(),
        }
    }
}

impl MemberExpression {
    /// Whether the node is well formed: whether it ends no earlier than it
    /// begins and holds each node directly below it within its interval, and
    /// the same is true of those.
    pub fn is_well_formed(&self) -> (well_formed: bool)
        ensures
            well_formed == self@.well_formed(),
        decreases self,
    {
        if !(self.start <= self.end) {
            return false;
        }
        if !(self.start <= self.object.start() && self.object.end() <= self.end) {
            return false;
        }
        if !(self.object.is_well_formed()) {
            return false;
        }
        if !(self.start <= self.property.start() && self.property.end() <= self.end) {
            return false;
        }
        if !(self.property.is_well_formed()) {
            return false;
        }
        true
    }
}

impl BinaryExpression {
    /// Whether the node is well formed: whether it ends no earlier than it
    /// begins and holds each node directly below it within its interval, and
    /// the same is true of those.
    pub fn is_well_formed(&self) -> (well_formed: bool)
        ensures
            well_formed == self@.well_formed(),
        decreases self,
    {
        if !(self.start <= self.end) {
            return false;
        }
        if !(self.start <= self.left.start() && self.left.end() <= self.end) {
            return false;
        }
        if !(self.left.is_well_formed()) {
            return false;
        }
        if !(self.start <= self.right.start() && self.right.end() <= self.end) {
            return false;
        }
        if !(self.right.is_well_formed()) {
            return false;
        }
        true
    }
}

impl UnaryExpression {
    /// Whether the node is well formed: whether it ends no earlier than it
    /// begins and holds each node directly below it within its interval, and
    /// the same is true of those.
    pub fn is_well_formed(&self) -> (well_formed: bool)
        ensures
            well_formed == self@.well_formed(),
        decreases self,
    {
        if !(self.start <= self.end) {
            return false;
        }
        if !(self.start <= self.argument.start() && self.argument.end() <= self.end) {
            return false;
        }
        if !(self.argument.is_well_formed()) {
            return false;
        }
        true
    }
}

impl PipeExpression {
    /// Whether the node is well formed: whether it ends no earlier than it
    /// begins and holds each node directly below it within its interval, and
    /// the same is true of those.
    pub fn is_well_formed(&self) -> (well_formed: bool)
        ensures
            well_formed == self@.well_formed(),
        decreases self,
    {
        if !(self.start <= self.end) {
            return false;
        }
        let mut i: usize = 0;
        while i < self.body.len()
            invariant
                i <= self.body.len(),
                forall|j: int|
                    0 <= j < i ==> (#[trigger] self@.body[j]).well_formed() && self.start <= self@.body[j].start()
                        && self@.body[j].end() <= self.end,
            decreases self.body.len() - i,
        {
            if !(self.body[i].is_well_formed() && self.start <= self.body[i].start() && self.body[i].end() <= self.end) {
                assert(!(self@.body[i as int].well_formed() && self.start <= self@.body[i as int].start()
                    && self@.body[i as int].end() <= self.end));
                return false;
            }
            i += 1;
        }
        true
    }
}

impl FunctionExpression {
    /// Whether the node is well formed: whether it ends no earlier than it
    /// begins and holds each node directly below it within its interval, and
    /// the same is true of those.
    pub fn is_well_formed(&self) -> (well_formed: bool)
        ensures
            well_formed == self@.well_formed(),
        decreases self,
    {
        if !(self.start <= self.end) {
            return false;
        }
        let mut i: usize = 0;
        while i < self.params.len()
            invariant
                i <= self.params.len(),
                forall|j: int|
                    0 <= j < i ==> self.start <= (#[trigger] self@.params[j]).identifier.start
                        && self@.params[j].identifier.start <= self@.params[j].identifier.end
                        && self@.params[j].identifier.end <= self.end,
            decreases self.params.len() - i,
        {
            let id = &self.params[i].identifier;
            if !(self.start <= id.start && id.start <= id.end && id.end <= self.end) {
                assert(self@.params[i as int].identifier == id@);
                return false;
            }
            i += 1;
        }
        if !(self.start <= self.body.start && self.body.end <= self.end) {
            return false;
        }
        if !(self.body.is_well_formed()) {
            return false;
        }
        true
    }
}

impl ReturnStatement {
    /// Whether the node is well formed: whether it ends no earlier than it
    /// begins and holds each node directly below it within its interval, and
    /// the same is true of those.
    pub fn is_well_formed(&self) -> (well_formed: bool)
        ensures
            well_formed == self@.well_formed(),
        decreases self,
    {
        if !(self.start <= self.end) {
            return false;
        }
        if !(self.start <= self.argument.start() && self.argument.end() <= self.end) {
            return false;
        }
        if !(self.argument.is_well_formed()) {
            return false;
        }
        true
    }
}

impl IfExpression {
    /// Whether the node is well formed: whether it ends no earlier than it
    /// begins and holds each node directly below it within its interval, and
    /// the same is true of those.
    pub fn is_well_formed(&self) -> (well_formed: bool)
        ensures
            well_formed == self@.well_formed(),
        decreases self,
    {
        if !(self.start <= self.end) {
            return false;
        }
        if !(self.start <= self.cond.start() && self.cond.end() <= self.end) {
            return false;
        }
        if !(self.cond.is_well_formed()) {
            return false;
        }
        if !(self.start <= self.then_val.start && self.then_val.end <= self.end) {
            return false;
        }
        if !(self.then_val.is_well_formed()) {
            return false;
        }
        let mut i: usize = 0;
        while i < self.else_ifs.len()
            invariant
                i <= self.else_ifs.len(),
                forall|j: int|
                    0 <= j < i ==> (#[trigger] self@.else_ifs[j]).well_formed() && self.start <= self@.else_ifs[j].start
                        && self@.else_ifs[j].end <= self.end,
            decreases self.else_ifs.len() - i,
        {
            if !(self.else_ifs[i].is_well_formed() && self.start <= self.else_ifs[i].start && self.else_ifs[i].end <= self.end) {
                assert(!(self@.else_ifs[i as int].well_formed() && self.start <= self@.else_ifs[i as int].start
                    && self@.else_ifs[i as int].end <= self.end));
                return false;
            }
            i += 1;
        }
        if !(self.start <= self.final_else.start && self.final_else.end <= self.end) {
            return false;
        }
        if !(self.final_else.is_well_formed()) {
            return false;
        }
        true
    }
}

impl ElseIf {
    /// Whether the node is well formed: whether it ends no earlier than it
    /// begins and holds each node directly below it within its interval, and
    /// the same is true of those.
    pub fn is_well_formed(&self) -> (well_formed: bool)
        ensures
            well_formed == self@.well_formed(),
        decreases self,
    {
        if !(self.start <= self.end) {
            return false;
        }
        if !(self.start <= self.cond.start() && self.cond.end() <= self.end) {
            return false;
        }
        if !(self.cond.is_well_formed()) {
            return false;
        }
        if !(self.start <= self.then_val.start && self.then_val.end <= self.end) {
            return false;
        }
        if !(self.then_val.is_well_formed()) {
            return false;
        }
        true
    }
}

impl ProgramView {
    /// Renaming keeps a well-formed node well formed, and where it stands.
    pub proof fn lemma_renamed_well_formed(self, old_name: Seq<char>, new_name: Seq<char>)
        requires
            self.well_formed(),
        ensures
            self.renamed(old_name, new_name).well_formed(),
        decreases self,
    {
        assert forall|i: int| 0 <= i < self.body.len() implies {
            let now = #[trigger] self.renamed(old_name, new_name).body[i];
            now == self.body[i].renamed(old_name, new_name)
        } by {}
        assert forall|i: int| 0 <= i < self.body.len() implies (#[trigger] self.body[i].renamed(
            old_name,
            new_name,
        )).well_formed() by {
            self.body[i].lemma_renamed_well_formed(old_name, new_name);
        }
        assert forall|i: int| 0 <= i < self.body.len() implies {
            let now = #[trigger] self.body[i].renamed(old_name, new_name);
            now.start() == self.body[i].start() && now.end() == self.body[i].end()
        } by {
            self.body[i].lemma_renamed_well_formed(old_name, new_name);
        }
    }
}

impl BodyItemView {
    /// Renaming keeps a well-formed node well formed, and where it stands.
    pub proof fn lemma_renamed_well_formed(self, old_name: Seq<char>, new_name: Seq<char>)
        requires
            self.well_formed(),
        ensures
            self.renamed(old_name, new_name).well_formed(),
            self.renamed(old_name, new_name).start() == self.start(),
            self.renamed(old_name, new_name).end() == self.end(),
        decreases self,
    {
        match self {
            BodyItemView::ImportStatement(x) => {
                x.lemma_renamed_well_formed(old_name, new_name);
            },
            BodyItemView::ExpressionStatement(x) => {
                x.lemma_renamed_well_formed(old_name, new_name);
            },
            BodyItemView::VariableDeclaration(x) => {
                x.lemma_renamed_well_formed(old_name, new_name);
            },
            BodyItemView::ReturnStatement(x) => {
                x.lemma_renamed_well_formed(old_name, new_name);
            },
        }
    }
}

impl FunctionExpressionView {
    /// Renaming keeps a well-formed node well formed, and where it stands.
    pub proof fn lemma_renamed_well_formed(self, old_name: Seq<char>, new_name: Seq<char>)
        requires
            self.well_formed(),
        ensures
            self.renamed(old_name, new_name).well_formed(),
        decreases self,
    {
        if !self.has_parameter(old_name) {
            self.body.lemma_renamed_well_formed(old_name, new_name);
        }
    }
}

impl ExprView {
    /// Renaming keeps a well-formed node well formed, and where it stands.
    pub proof fn lemma_renamed_well_formed(self, old_name: Seq<char>, new_name: Seq<char>)
        requires
            self.well_formed(),
        ensures
            self.renamed(old_name, new_name).well_formed(),
            self.renamed(old_name, new_name).start() == self.start(),
            self.renamed(old_name, new_name).end() == self.end(),
        decreases self,
    {
        match self {
            ExprView::Literal(_) => {},
            ExprView::Identifier(x) => {
                x.lemma_renamed_well_formed(old_name, new_name);
            },
            ExprView::TagDeclarator(x) => {
                x.lemma_renamed_well_formed(old_name, new_name);
            },
            ExprView::BinaryExpression(x) => {
                x.lemma_renamed_well_formed(old_name, new_name);
            },
            ExprView::FunctionExpression(x) => {
                x.lemma_renamed_well_formed(old_name, new_name);
            },
            ExprView::CallExpression(x) => {
                x.lemma_renamed_well_formed(old_name, new_name);
            },
            ExprView::PipeExpression(x) => {
                x.lemma_renamed_well_formed(old_name, new_name);
            },
            ExprView::PipeSubstitution(_) => {},
            ExprView::ArrayExpression(x) => {
                x.lemma_renamed_well_formed(old_name, new_name);
            },
            ExprView::ArrayRangeExpression(x) => {
                x.lemma_renamed_well_formed(old_name, new_name);
            },
            ExprView::ObjectExpression(x) => {
                x.lemma_renamed_well_formed(old_name, new_name);
            },
            ExprView::MemberExpression(x) => {
                x.lemma_renamed_well_formed(old_name, new_name);
            },
            ExprView::UnaryExpression(x) => {
                x.lemma_renamed_well_formed(old_name, new_name);
            },
            ExprView::IfExpression(x) => {
                x.lemma_renamed_well_formed(old_name, new_name);
            },
            ExprView::KclNone(_) => {},
        }
    }
}

impl BinaryPartView {
    /// Renaming keeps a well-formed node well formed, and where it stands.
    pub proof fn lemma_renamed_well_formed(self, old_name: Seq<char>, new_name: Seq<char>)
        requires
            self.well_formed(),
        ensures
            self.renamed(old_name, new_name).well_formed(),
            self.renamed(old_name, new_name).start() == self.start(),
            self.renamed(old_name, new_name).end() == self.end(),
        decreases self,
    {
        match self {
            BinaryPartView::Literal(_) => {},
            BinaryPartView::Identifier(x) => {
                x.lemma_renamed_well_formed(old_name, new_name);
            },
            BinaryPartView::BinaryExpression(x) => {
                x.lemma_renamed_well_formed(old_name, new_name);
            },
            BinaryPartView::CallExpression(x) => {
                x.lemma_renamed_well_formed(old_name, new_name);
            },
            BinaryPartView::UnaryExpression(x) => {
                x.lemma_renamed_well_formed(old_name, new_name);
            },
            BinaryPartView::MemberExpression(x) => {
                x.lemma_renamed_well_formed(old_name, new_name);
            },
            BinaryPartView::IfExpression(x) => {
                x.lemma_renamed_well_formed(old_name, new_name);
            },
        }
    }
}

impl ImportItemView {
    /// Renaming keeps a well-formed node well formed, and where it stands.
    pub proof fn lemma_renamed_well_formed(self, old_name: Seq<char>, new_name: Seq<char>)
        requires
            self.well_formed(),
        ensures
            self.renamed(old_name, new_name).well_formed(),
        decreases self,
    {
        match self.alias {
            Some(x) => {
                x.lemma_renamed_well_formed(old_name, new_name);
            },
            None => {},
        }
    }
}

impl ImportStatementView {
    /// Renaming keeps a well-formed node well formed, and where it stands.
    pub proof fn lemma_renamed_well_formed(self, old_name: Seq<char>, new_name: Seq<char>)
        requires
            self.well_formed(),
        ensures
            self.renamed(old_name, new_name).well_formed(),
        decreases self,
    {
        assert forall|i: int| 0 <= i < self.items.len() implies {
            let now = #[trigger] self.renamed(old_name, new_name).items[i];
            now == self.items[i].renamed(old_name, new_name)
        } by {}
        assert forall|i: int| 0 <= i < self.items.len() implies (#[trigger] self.items[i].renamed(
            old_name,
            new_name,
        )).well_formed() by {
            self.items[i].lemma_renamed_well_formed(old_name, new_name);
        }
        assert forall|i: int| 0 <= i < self.items.len() implies {
            let now = #[trigger] self.items[i].renamed(old_name, new_name);
            now.start == self.items[i].start && now.end == self.items[i].end
        } by {
            self.items[i].lemma_renamed_well_formed(old_name, new_name);
        }
    }
}

impl ExpressionStatementView {
    /// Renaming keeps a well-formed node well formed, and where it stands.
    pub proof fn lemma_renamed_well_formed(self, old_name: Seq<char>, new_name: Seq<char>)
        requires
            self.well_formed(),
        ensures
            self.renamed(old_name, new_name).well_formed(),
        decreases self,
    {
        self.expression.lemma_renamed_well_formed(old_name, new_name);
    }
}

impl CallExpressionView {
    /// Renaming keeps a well-formed node well formed, and where it stands.
    pub proof fn lemma_renamed_well_formed(self, old_name: Seq<char>, new_name: Seq<char>)
        requires
            self.well_formed(),
        ensures
            self.renamed(old_name, new_name).well_formed(),
        decreases self,
    {
        self.callee.lemma_renamed_well_formed(old_name, new_name);
        assert forall|i: int| 0 <= i < self.arguments.len() implies {
            let now = #[trigger] self.renamed(old_name, new_name).arguments[i];
            now == self.arguments[i].renamed(old_name, new_name)
        } by {}
        assert forall|i: int| 0 <= i < self.arguments.len() implies (#[trigger] self.arguments[i].renamed(
            old_name,
            new_name,
        )).well_formed() by {
            self.arguments[i].lemma_renamed_well_formed(old_name, new_name);
        }
        assert forall|i: int| 0 <= i < self.arguments.len() implies {
            let now = #[trigger] self.arguments[i].renamed(old_name, new_name);
            now.start() == self.arguments[i].start() && now.end() == self.arguments[i].end()
        } by {
            self.arguments[i].lemma_renamed_well_formed(old_name, new_name);
        }
    }
}

impl VariableDeclarationView {
    /// Renaming keeps a well-formed node well formed, and where it stands.
    pub proof fn lemma_renamed_well_formed(self, old_name: Seq<char>, new_name: Seq<char>)
        requires
            self.well_formed(),
        ensures
            self.renamed(old_name, new_name).well_formed(),
        decreases self,
    {
        assert forall|i: int| 0 <= i < self.declarations.len() implies {
            let now = #[trigger] self.renamed(old_name, new_name).declarations[i];
            now == self.declarations[i].renamed(old_name, new_name)
        } by {}
        assert forall|i: int| 0 <= i < self.declarations.len() implies (#[trigger] self.declarations[i].renamed(
            old_name,
            new_name,
        )).well_formed() by {
            self.declarations[i].lemma_renamed_well_formed(old_name, new_name);
        }
        assert forall|i: int| 0 <= i < self.declarations.len() implies {
            let now = #[trigger] self.declarations[i].renamed(old_name, new_name);
            now.start == self.declarations[i].start && now.end == self.declarations[i].end
        } by {
            self.declarations[i].lemma_renamed_well_formed(old_name, new_name);
        }
    }
}

impl VariableDeclaratorView {
    /// Renaming keeps a well-formed node well formed, and where it stands.
    pub proof fn lemma_renamed_well_formed(self, old_name: Seq<char>, new_name: Seq<char>)
        requires
            self.well_formed(),
        ensures
            self.renamed(old_name, new_name).well_formed(),
        decreases self,
    {
        self.init.lemma_renamed_well_formed(old_name, new_name);
    }
}

impl IdentifierView {
    /// Renaming keeps a well-formed node well formed, and where it stands.
    pub proof fn lemma_renamed_well_formed(self, old_name: Seq<char>, new_name: Seq<char>)
        requires
            self.well_formed(),
        ensures
            self.renamed(old_name, new_name).well_formed(),
        decreases self,
    {
    }
}

impl TagDeclaratorView {
    /// Renaming keeps a well-formed node well formed, and where it stands.
    pub proof fn lemma_renamed_well_formed(self, old_name: Seq<char>, new_name: Seq<char>)
        requires
            self.well_formed(),
        ensures
            self.renamed(old_name, new_name).well_formed(),
        decreases self,
    {
    }
}

impl ArrayExpressionView {
    /// Renaming keeps a well-formed node well formed, and where it stands.
    pub proof fn lemma_renamed_well_formed(self, old_name: Seq<char>, new_name: Seq<char>)
        requires
            self.well_formed(),
        ensures
            self.renamed(old_name, new_name).well_formed(),
        decreases self,
    {
        assert forall|i: int| 0 <= i < self.elements.len() implies {
            let now = #[trigger] self.renamed(old_name, new_name).elements[i];
            now == self.elements[i].renamed(old_name, new_name)
        } by {}
        assert forall|i: int| 0 <= i < self.elements.len() implies (#[trigger] self.elements[i].renamed(
            old_name,
            new_name,
        )).well_formed() by {
            self.elements[i].lemma_renamed_well_formed(old_name, new_name);
        }
        assert forall|i: int| 0 <= i < self.elements.len() implies {
            let now = #[trigger] self.elements[i].renamed(old_name, new_name);
            now.start() == self.elements[i].start() && now.end() == self.elements[i].end()
        } by {
            self.elements[i].lemma_renamed_well_formed(old_name, new_name);
        }
    }
}

impl ArrayRangeExpressionView {
    /// Renaming keeps a well-formed node well formed, and where it stands.
    pub proof fn lemma_renamed_well_formed(self, old_name: Seq<char>, new_name: Seq<char>)
        requires
            self.well_formed(),
        ensures
            self.renamed(old_name, new_name).well_formed(),
        decreases self,
    {
        self.start_element.lemma_renamed_well_formed(old_name, new_name);
        self.end_element.lemma_renamed_well_formed(old_name, new_name);
    }
}

impl ObjectExpressionView {
    /// Renaming keeps a well-formed node well formed, and where it stands.
    pub proof fn lemma_renamed_well_formed(self, old_name: Seq<char>, new_name: Seq<char>)
        requires
            self.well_formed(),
        ensures
            self.renamed(old_name, new_name).well_formed(),
        decreases self,
    {
        assert forall|i: int| 0 <= i < self.properties.len() implies {
            let now = #[trigger] self.renamed(old_name, new_name).properties[i];
            now == self.properties[i].renamed(old_name, new_name)
        } by {}
        assert forall|i: int| 0 <= i < self.properties.len() implies (#[trigger] self.properties[i].renamed(
            old_name,
            new_name,
        )).well_formed() by {
            self.properties[i].lemma_renamed_well_formed(old_name, new_name);
        }
        assert forall|i: int| 0 <= i < self.properties.len() implies {
            let now = #[trigger] self.properties[i].renamed(old_name, new_name);
            now.start == self.properties[i].start && now.end == self.properties[i].end
        } by {
            self.properties[i].lemma_renamed_well_formed(old_name, new_name);
        }
    }
}

impl ObjectPropertyView {
    /// Renaming keeps a well-formed node well formed, and where it stands.
    pub proof fn lemma_renamed_well_formed(self, old_name: Seq<char>, new_name: Seq<char>)
        requires
            self.well_formed(),
        ensures
            self.renamed(old_name, new_name).well_formed(),
        decreases self,
    {
        self.value.lemma_renamed_well_formed(old_name, new_name);
    }
}

impl MemberObjectView {
    /// Renaming keeps a well-formed node well formed, and where it stands.
    pub proof fn lemma_renamed_well_formed(self, old_name: Seq<char>, new_name: Seq<char>)
        requires
            self.well_formed(),
        ensures
            self.renamed(old_name, new_name).well_formed(),
            self.renamed(old_name, new_name).start() == self.start(),
            self.renamed(old_name, new_name).end() == self.end(),
        decreases self,
    {
        match self {
            MemberObjectView::MemberExpression(x) => {
                x.lemma_renamed_well_formed(old_name, new_name);
            },
            MemberObjectView::Identifier(x) => {
                x.lemma_renamed_well_formed(old_name, new_name);
            },
        }
    }
}

impl LiteralIdentifierView {
    /// Renaming keeps a well-formed node well formed, and where it stands.
    pub proof fn lemma_renamed_well_formed(self, old_name: Seq<char>, new_name: Seq<char>)
        requires
            self.well_formed(),
        ensures
            self.renamed(old_name, new_name).well_formed(),
            self.renamed(old_name, new_name).start() == self.start(),
            self.renamed(old_name, new_name).end() == self.end(),
        decreases self,
    {
        match self {
            LiteralIdentifierView::Identifier(x) => {
                x.lemma_renamed_well_formed(old_name, new_name);
            },
            LiteralIdentifierView::Literal(_) => {},
        }
    }
}

impl MemberExpressionView {
    /// Renaming keeps a well-formed node well formed, and where it stands.
    pub proof fn lemma_renamed_well_formed(self, old_name: Seq<char>, new_name: Seq<char>)
        requires
            self.well_formed(),
        ensures
            self.renamed(old_name, new_name).well_formed(),
        decreases self,
    {
        self.object.lemma_renamed_well_formed(old_name, new_name);
        self.property.lemma_renamed_well_formed(old_name, new_name);
    }
}

impl BinaryExpressionView {
    /// Renaming keeps a well-formed node well formed, and where it stands.
    pub proof fn lemma_renamed_well_formed(self, old_name: Seq<char>, new_name: Seq<char>)
        requires
            self.well_formed(),
        ensures
            self.renamed(old_name, new_name).well_formed(),
        decreases self,
    {
        self.left.lemma_renamed_well_formed(old_name, new_name);
        self.right.lemma_renamed_well_formed(old_name, new_name);
    }
}

impl UnaryExpressionView {
    /// Renaming keeps a well-formed node well formed, and where it stands.
    pub proof fn lemma_renamed_well_formed(self, old_name: Seq<char>, new_name: Seq<char>)
        requires
            self.well_formed(),
        ensures
            self.renamed(old_name, new_name).well_formed(),
        decreases self,
    {
        self.argument.lemma_renamed_well_formed(old_name, new_name);
    }
}

impl PipeExpressionView {
    /// Renaming keeps a well-formed node well formed, and where it stands.
    pub proof fn lemma_renamed_well_formed(self, old_name: Seq<char>, new_name: Seq<char>)
        requires
            self.well_formed(),
        ensures
            self.renamed(old_name, new_name).well_formed(),
        decreases self,
    {
        assert forall|i: int| 0 <= i < self.body.len() implies {
            let now = #[trigger] self.renamed(old_name, new_name).body[i];
            now == self.body[i].renamed(old_name, new_name)
        } by {}
        assert forall|i: int| 0 <= i < self.body.len() implies (#[trigger] self.body[i].renamed(
            old_name,
            new_name,
        )).well_formed() by {
            self.body[i].lemma_renamed_well_formed(old_name, new_name);
        }
        assert forall|i: int| 0 <= i < self.body.len() implies {
            let now = #[trigger] self.body[i].renamed(old_name, new_name);
            now.start() == self.body[i].start() && now.end() == self.body[i].end()
        } by {
            self.body[i].lemma_renamed_well_formed(old_name, new_name);
        }
    }
}

impl ReturnStatementView {
    /// Renaming keeps a well-formed node well formed, and where it stands.
    pub proof fn lemma_renamed_well_formed(self, old_name: Seq<char>, new_name: Seq<char>)
        requires
            self.well_formed(),
        ensures
            self.renamed(old_name, new_name).well_formed(),
        decreases self,
    {
        self.argument.lemma_renamed_well_formed(old_name, new_name);
    }
}

impl IfExpressionView {
    /// Renaming keeps a well-formed node well formed, and where it stands.
    pub proof fn lemma_renamed_well_formed(self, old_name: Seq<char>, new_name: Seq<char>)
        requires
            self.well_formed(),
        ensures
            self.renamed(old_name, new_name).well_formed(),
        decreases self,
    {
        self.cond.lemma_renamed_well_formed(old_name, new_name);
        self.then_val.lemma_renamed_well_formed(old_name, new_name);
        assert forall|i: int| 0 <= i < self.else_ifs.len() implies {
            let now = #[trigger] self.renamed(old_name, new_name).else_ifs[i];
            now == self.else_ifs[i].renamed(old_name, new_name)
        } by {}
        assert forall|i: int| 0 <= i < self.else_ifs.len() implies (#[trigger] self.else_ifs[i].renamed(
            old_name,
            new_name,
        )).well_formed() by {
            self.else_ifs[i].lemma_renamed_well_formed(old_name, new_name);
        }
        assert forall|i: int| 0 <= i < self.else_ifs.len() implies {
            let now = #[trigger] self.else_ifs[i].renamed(old_name, new_name);
            now.start == self.else_ifs[i].start && now.end == self.else_ifs[i].end
        } by {
            self.else_ifs[i].lemma_renamed_well_formed(old_name, new_name);
        }
        self.final_else.lemma_renamed_well_formed(old_name, new_name);
    }
}

impl ElseIfView {
    /// Renaming keeps a well-formed node well formed, and where it stands.
    pub proof fn lemma_renamed_well_formed(self, old_name: Seq<char>, new_name: Seq<char>)
        requires
            self.well_formed(),
        ensures
            self.renamed(old_name, new_name).well_formed(),
        decreases self,
    {
        self.cond.lemma_renamed_well_formed(old_name, new_name);
        self.then_val.lemma_renamed_well_formed(old_name, new_name);
    }
}

} // verus!
