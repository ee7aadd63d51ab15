//! Replacing values and declarations, and looking declarations up.

use crate::ast::{
    ArrayExpression, ArrayRangeExpression, BinaryExpression, BinaryPart, BodyItem, CallExpression,
    ElseIf, Expr, FunctionExpression, IfExpression, ImportStatement, ObjectExpression,
    ObjectProperty, PipeExpression, Program, UnaryExpression, VariableDeclaration,
    VariableDeclarator,
};
use crate::model::{
    ArrayExpressionView, ArrayRangeExpressionView, BinaryExpressionView, BinaryPartView,
    BodyItemView, CallExpressionView, ElseIfView, ExprView, ExpressionStatementView,
    FunctionExpressionView, IfExpressionView, ImportItemView, ImportStatementView,
    ObjectExpressionView, ObjectPropertyView, PipeExpressionView, ProgramView,
    ReturnStatementView, UnaryExpressionView, VariableDeclarationView, VariableDeclaratorView,
};
use crate::range::SourceRange;
use crate::text::{
    first_index, last_index, lemma_first_index, lemma_first_index_is, lemma_last_index,
    lemma_last_index_is, str_eq,
};
use vstd::prelude::*;

verus! {

impl ExprView {
    /// The expression with the new value in place of every expression that
    /// stands exactly at `range`. Where the expression itself stands there, it
    /// is the new value. A member expression and a conditional are not
    /// searched.
    pub open spec fn replaced(self, range: (usize, usize), new_value: ExprView) -> ExprView
        decreases self,
    {
        if (self.start(), self.end()) == range {
            new_value
        } else {
            match self {
                ExprView::BinaryExpression(x) => ExprView::BinaryExpression(
                    Box::new(x.replaced(range, new_value)),
                ),
                ExprView::ArrayExpression(x) => ExprView::ArrayExpression(
                    Box::new(x.replaced(range, new_value)),
                ),
                ExprView::ArrayRangeExpression(x) => ExprView::ArrayRangeExpression(
                    Box::new(x.replaced(range, new_value)),
                ),
                ExprView::ObjectExpression(x) => ExprView::ObjectExpression(
                    Box::new(x.replaced(range, new_value)),
                ),
                ExprView::FunctionExpression(x) => ExprView::FunctionExpression(
                    Box::new(x.replaced(range, new_value)),
                ),
                ExprView::CallExpression(x) => ExprView::CallExpression(
                    Box::new(x.replaced(range, new_value)),
                ),
                ExprView::PipeExpression(x) => ExprView::PipeExpression(
                    Box::new(x.replaced(range, new_value)),
                ),
                ExprView::UnaryExpression(x) => ExprView::UnaryExpression(
                    Box::new(x.replaced(range, new_value)),
                ),
                ExprView::MemberExpression(_)
                | ExprView::Literal(_)
                | ExprView::Identifier(_)
                | ExprView::TagDeclarator(_)
                | ExprView::IfExpression(_)
                | ExprView::PipeSubstitution(_)
                | ExprView::KclNone(_) => self,
            }
        }
    }
}

impl BinaryPartView {
    /// The operand with the new value in place of every expression in it that
    /// stands exactly at `range`. The operand itself is never replaced.
    pub open spec fn replaced(self, range: (usize, usize), new_value: ExprView) -> BinaryPartView
        decreases self,
    {
        match self {
            BinaryPartView::BinaryExpression(x) => BinaryPartView::BinaryExpression(
                Box::new(x.replaced(range, new_value)),
            ),
            BinaryPartView::CallExpression(x) => BinaryPartView::CallExpression(
                Box::new(x.replaced(range, new_value)),
            ),
            BinaryPartView::UnaryExpression(x) => BinaryPartView::UnaryExpression(
                Box::new(x.replaced(range, new_value)),
            ),
            BinaryPartView::IfExpression(x) => BinaryPartView::IfExpression(
                Box::new(x.replaced(range, new_value)),
            ),
            BinaryPartView::Literal(_)
            | BinaryPartView::Identifier(_)
            | BinaryPartView::MemberExpression(_) => self,
        }
    }
}

impl BinaryExpressionView {
    /// Replaced in both operands.
    pub open spec fn replaced(self, range: (usize, usize), new_value: ExprView) -> BinaryExpressionView
        decreases self,
    {
        BinaryExpressionView {
            left: self.left.replaced(range, new_value),
            right: self.right.replaced(range, new_value),
            ..self
        }
    }
}

impl UnaryExpressionView {
    /// Replaced in the operand.
    pub open spec fn replaced(self, range: (usize, usize), new_value: ExprView) -> UnaryExpressionView
        decreases self,
    {
        UnaryExpressionView {
            argument: self.argument.replaced(range, new_value),
            ..self
        }
    }
}

impl CallExpressionView {
    /// Replaced in every argument.
    pub open spec fn replaced(self, range: (usize, usize), new_value: ExprView) -> CallExpressionView
        decreases self,
    {
        CallExpressionView {
            arguments: Seq::new(
                self.arguments.len(),
                |i: int|
                    if 0 <= i < self.arguments.len() {
                        self.arguments[i].replaced(range, new_value)
                    } else {
                        arbitrary()
                    },
            ),
            ..self
        }
    }
}

impl PipeExpressionView {
    /// Replaced in every stage.
    pub open spec fn replaced(self, range: (usize, usize), new_value: ExprView) -> PipeExpressionView
        decreases self,
    {
        PipeExpressionView {
            body: Seq::new(
                self.body.len(),
                |i: int|
                    if 0 <= i < self.body.len() {
                        self.body[i].replaced(range, new_value)
                    } else {
                        arbitrary()
                    },
            ),
            ..self
        }
    }
}

impl ArrayExpressionView {
    /// Replaced in every element.
    pub open spec fn replaced(self, range: (usize, usize), new_value: ExprView) -> ArrayExpressionView
        decreases self,
    {
        ArrayExpressionView {
            elements: Seq::new(
                self.elements.len(),
                |i: int|
                    if 0 <= i < self.elements.len() {
                        self.elements[i].replaced(range, new_value)
                    } else {
                        arbitrary()
                    },
            ),
            ..self
        }
    }
}

impl ArrayRangeExpressionView {
    /// Replaced in both ends.
    pub open spec fn replaced(self, range: (usize, usize), new_value: ExprView) -> ArrayRangeExpressionView
        decreases self,
    {
        ArrayRangeExpressionView {
            start_element: Box::new(self.start_element.replaced(range, new_value)),
            end_element: Box::new(self.end_element.replaced(range, new_value)),
            ..self
        }
    }
}

impl ObjectPropertyView {
    /// Replaced in the value.
    pub open spec fn replaced(self, range: (usize, usize), new_value: ExprView) -> ObjectPropertyView
        decreases self,
    {
        ObjectPropertyView {
            value: self.value.replaced(range, new_value),
            ..self
        }
    }
}

impl ObjectExpressionView {
    /// Replaced in the value of every property.
    pub open spec fn replaced(self, range: (usize, usize), new_value: ExprView) -> ObjectExpressionView
        decreases self,
    {
        ObjectExpressionView {
            properties: Seq::new(
                self.properties.len(),
                |i: int|
                    if 0 <= i < self.properties.len() {
                        self.properties[i].replaced(range, new_value)
                    } else {
                        arbitrary()
                    },
            ),
            ..self
        }
    }
}

impl FunctionExpressionView {
    /// Replaced in the body.
    pub open spec fn replaced(self, range: (usize, usize), new_value: ExprView) -> FunctionExpressionView
        decreases self,
    {
        FunctionExpressionView {
            body: self.body.replaced(range, new_value),
            ..self
        }
    }
}

impl ElseIfView {
    /// Replaced in the condition and the branch.
    pub open spec fn replaced(self, range: (usize, usize), new_value: ExprView) -> ElseIfView
        decreases self,
    {
        ElseIfView {
            cond: self.cond.replaced(range, new_value),
            then_val: Box::new(self.then_val.replaced(range, new_value)),
            ..self
        }
    }
}

impl IfExpressionView {
    /// Replaced in the conditions and in all branches.
    pub open spec fn replaced(self, range: (usize, usize), new_value: ExprView) -> IfExpressionView
        decreases self,
    {
        IfExpressionView {
            cond: Box::new(self.cond.replaced(range, new_value)),
            then_val: Box::new(self.then_val.replaced(range, new_value)),
            else_ifs: Seq::new(
                self.else_ifs.len(),
                |i: int|
                    if 0 <= i < self.else_ifs.len() {
                        self.else_ifs[i].replaced(range, new_value)
                    } else {
                        arbitrary()
                    },
            ),
            final_else: Box::new(self.final_else.replaced(range, new_value)),
            ..self
        }
    }
}

impl VariableDeclaratorView {
    /// Replaced in the initial value.
    pub open spec fn replaced(self, range: (usize, usize), new_value: ExprView) -> VariableDeclaratorView
        decreases self,
    {
        VariableDeclaratorView {
            init: self.init.replaced(range, new_value),
            ..self
        }
    }
}

impl VariableDeclarationView {
    /// Replaced in every initial value.
    pub open spec fn replaced(self, range: (usize, usize), new_value: ExprView) -> VariableDeclarationView
        decreases self,
    {
        VariableDeclarationView {
            declarations: Seq::new(
                self.declarations.len(),
                |i: int|
                    if 0 <= i < self.declarations.len() {
                        self.declarations[i].replaced(range, new_value)
                    } else {
                        arbitrary()
                    },
            ),
            ..self
        }
    }
}

impl BodyItemView {
    /// The statement with the new value in place of every expression that
    /// stands exactly at `range`. An import is not searched.
    pub open spec fn replaced(self, range: (usize, usize), new_value: ExprView) -> BodyItemView
        decreases self,
    {
        match self {
            BodyItemView::ImportStatement(_) => self,
            BodyItemView::ExpressionStatement(x) => BodyItemView::ExpressionStatement(
                ExpressionStatementView { expression: x.expression.replaced(range, new_value), ..x },
            ),
            BodyItemView::VariableDeclaration(x) => BodyItemView::VariableDeclaration(
                Box::new(x.replaced(range, new_value)),
            ),
            BodyItemView::ReturnStatement(x) => BodyItemView::ReturnStatement(
                ReturnStatementView { argument: x.argument.replaced(range, new_value), ..x },
            ),
        }
    }
}

impl ProgramView {
    /// Replaced in every statement.
    pub open spec fn replaced(self, range: (usize, usize), new_value: ExprView) -> ProgramView
        decreases self,
    {
        ProgramView {
            body: Seq::new(
                self.body.len(),
                |i: int|
                    if 0 <= i < self.body.len() {
                        self.body[i].replaced(range, new_value)
                    } else {
                        arbitrary()
                    },
            ),
            ..self
        }
    }
}

/// Replaces in every expression of a list.
fn replace_in_exprs(items: &mut Vec<Expr>, source_range: SourceRange, new_value: &Expr)
    ensures
        final(items).len() == old(items).len(),
        forall|i: int|
            0 <= i < old(items).len() ==> (#[trigger] final(items)[i])@ == old(items)[i]@.replaced(
                source_range@,
                new_value@,
            ),
    decreases *old(items),
{
    let mut i: usize = 0;
    while i < items.len()
        invariant
            i <= items.len(),
            items.len() == old(items).len(),
            forall|j: int|
                0 <= j < i ==> (#[trigger] items[j])@ == old(items)[j]@.replaced(
                    source_range@,
                    new_value@,
                ),
            forall|j: int| i <= j < items.len() ==> (#[trigger] items[j]) == old(items)[j],
        decreases items.len() - i,
    {
        items[i].replace_value(source_range, new_value.duplicate());
        i += 1;
    }
}

/// Replaces in every property of a list.
fn replace_in_properties(items: &mut Vec<ObjectProperty>, source_range: SourceRange, new_value: &Expr)
    ensures
        final(items).len() == old(items).len(),
        forall|i: int|
            0 <= i < old(items).len() ==> (#[trigger] final(items)[i])@ == old(items)[i]@.replaced(
                source_range@,
                new_value@,
            ),
    decreases *old(items),
{
    let mut i: usize = 0;
    while i < items.len()
        invariant
            i <= items.len(),
            items.len() == old(items).len(),
            forall|j: int|
                0 <= j < i ==> (#[trigger] items[j])@ == old(items)[j]@.replaced(
                    source_range@,
                    new_value@,
                ),
            forall|j: int| i <= j < items.len() ==> (#[trigger] items[j]) == old(items)[j],
        decreases items.len() - i,
    {
        items[i].replace_value(source_range, new_value.duplicate());
        i += 1;
    }
}

/// Replaces in every branch of a list.
fn replace_in_else_ifs(items: &mut Vec<ElseIf>, source_range: SourceRange, new_value: &Expr)
    ensures
        final(items).len() == old(items).len(),
        forall|i: int|
            0 <= i < old(items).len() ==> (#[trigger] final(items)[i])@ == old(items)[i]@.replaced(
                source_range@,
                new_value@,
            ),
    decreases *old(items),
{
    let mut i: usize = 0;
    while i < items.len()
        invariant
            i <= items.len(),
            items.len() == old(items).len(),
            forall|j: int|
                0 <= j < i ==> (#[trigger] items[j])@ == old(items)[j]@.replaced(
                    source_range@,
                    new_value@,
                ),
            forall|j: int| i <= j < items.len() ==> (#[trigger] items[j]) == old(items)[j],
        decreases items.len() - i,
    {
        items[i].replace_value(source_range, new_value.duplicate());
        i += 1;
    }
}

/// Replaces in every declarator of a list.
fn replace_in_declarators(items: &mut Vec<VariableDeclarator>, source_range: SourceRange, new_value: &Expr)
    ensures
        final(items).len() == old(items).len(),
        forall|i: int|
            0 <= i < old(items).len() ==> (#[trigger] final(items)[i])@ == old(items)[i]@.replaced(
                source_range@,
                new_value@,
            ),
    decreases *old(items),
{
    let mut i: usize = 0;
    while i < items.len()
        invariant
            i <= items.len(),
            items.len() == old(items).len(),
            forall|j: int|
                0 <= j < i ==> (#[trigger] items[j])@ == old(items)[j]@.replaced(
                    source_range@,
                    new_value@,
                ),
            forall|j: int| i <= j < items.len() ==> (#[trigger] items[j]) == old(items)[j],
        decreases items.len() - i,
    {
        items[i].replace_value(source_range, new_value.duplicate());
        i += 1;
    }
}

/// Replaces in every statement of a list.
fn replace_in_body(items: &mut Vec<BodyItem>, source_range: SourceRange, new_value: &Expr)
    ensures
        final(items).len() == old(items).len(),
        forall|i: int|
            0 <= i < old(items).len() ==> (#[trigger] final(items)[i])@ == old(items)[i]@.replaced(
                source_range@,
                new_value@,
            ),
    decreases *old(items),
{
    let mut i: usize = 0;
    while i < items.len()
        invariant
            i <= items.len(),
            items.len() == old(items).len(),
            forall|j: int|
                0 <= j < i ==> (#[trigger] items[j])@ == old(items)[j]@.replaced(
                    source_range@,
                    new_value@,
                ),
            forall|j: int| i <= j < items.len() ==> (#[trigger] items[j]) == old(items)[j],
        decreases items.len() - i,
    {
        items[i].replace_value(source_range, new_value.duplicate());
        i += 1;
    }
}

impl Expr {
    /// Puts the new value in place of every expression that stands exactly at
    /// `source_range`: in place of this one where it stands there, else in
    /// place of those inside it. A member expression and a conditional are not
    /// searched.
    pub fn replace_value(&mut self, source_range: SourceRange, new_value: Expr)
        ensures
            final(self)@ == old(self)@.replaced(source_range@, new_value@),
        decreases *old(self),
    {
        if source_range == self.source_range() {
            *self = new_value;
            return;
        }
        match self {
            Expr::BinaryExpression(x) => x.replace_value(source_range, new_value),
            Expr::ArrayExpression(x) => x.replace_value(source_range, new_value),
            Expr::ArrayRangeExpression(x) => x.replace_value(source_range, new_value),
            Expr::ObjectExpression(x) => x.replace_value(source_range, new_value),
            Expr::MemberExpression(_) => {},
            Expr::Literal(_) => {},
            Expr::FunctionExpression(x) => x.replace_value(source_range, new_value),
            Expr::CallExpression(x) => x.replace_value(source_range, new_value),
            Expr::Identifier(_) => {},
            Expr::TagDeclarator(_) => {},
            Expr::PipeExpression(x) => x.replace_value(source_range, new_value),
            Expr::UnaryExpression(x) => x.replace_value(source_range, new_value),
            Expr::IfExpression(_) => {},
            Expr::PipeSubstitution(_) => {},
            Expr::KclNone(_) => {},
        }
    }
}

impl BinaryPart {
    /// Puts the new value in place of every expression inside the operand that
    /// stands exactly at `source_range`.
    pub fn replace_value(&mut self, source_range: SourceRange, new_value: Expr)
        ensures
            final(self)@ == old(self)@.replaced(source_range@, new_value@),
        decreases *old(self),
    {
        match self {
            BinaryPart::Literal(_) => {},
            BinaryPart::Identifier(_) => {},
            BinaryPart::BinaryExpression(x) => x.replace_value(source_range, new_value),
            BinaryPart::CallExpression(x) => x.replace_value(source_range, new_value),
            BinaryPart::UnaryExpression(x) => x.replace_value(source_range, new_value),
            BinaryPart::MemberExpression(_) => {},
            BinaryPart::IfExpression(x) => x.replace_value(source_range, new_value),
        }
    }
}

impl BinaryExpression {
    /// Puts the new value in place of every expression in the operands that stands exactly
    /// at `source_range`.
    pub fn replace_value(&mut self, source_range: SourceRange, new_value: Expr)
        ensures
            final(self)@ == old(self)@.replaced(source_range@, new_value@),
        decreases *old(self),
    {
        self.left.replace_value(source_range, new_value.duplicate());
        self.right.replace_value(source_range, new_value);
    }
}

impl UnaryExpression {
    /// Puts the new value in place of every expression in the operand that stands exactly
    /// at `source_range`.
    pub fn replace_value(&mut self, source_range: SourceRange, new_value: Expr)
        ensures
            final(self)@ == old(self)@.replaced(source_range@, new_value@),
        decreases *old(self),
    {
        self.argument.replace_value(source_range, new_value);
    }
}

impl CallExpression {
    /// Puts the new value in place of every expression among the arguments that stands exactly
    /// at `source_range`.
    pub fn replace_value(&mut self, source_range: SourceRange, new_value: Expr)
        ensures
            final(self)@ == old(self)@.replaced(source_range@, new_value@),
        decreases *old(self),
    {
        replace_in_exprs(&mut self.arguments, source_range, &new_value);
        assert(self@.arguments =~= old(self)@.replaced(source_range@, new_value@).arguments);
    }
}

impl PipeExpression {
    /// Puts the new value in place of every expression among the stages that stands exactly
    /// at `source_range`.
    pub fn replace_value(&mut self, source_range: SourceRange, new_value: Expr)
        ensures
            final(self)@ == old(self)@.replaced(source_range@, new_value@),
        decreases *old(self),
    {
        replace_in_exprs(&mut self.body, source_range, &new_value);
        assert(self@.body =~= old(self)@.replaced(source_range@, new_value@).body);
    }
}

impl ArrayExpression {
    /// Puts the new value in place of every expression among the elements that stands exactly
    /// at `source_range`.
    pub fn replace_value(&mut self, source_range: SourceRange, new_value: Expr)
        ensures
            final(self)@ == old(self)@.replaced(source_range@, new_value@),
        decreases *old(self),
    {
        replace_in_exprs(&mut self.elements, source_range, &new_value);
        assert(self@.elements =~= old(self)@.replaced(source_range@, new_value@).elements);
    }
}

impl ArrayRangeExpression {
    /// Puts the new value in place of every expression in the two ends that stands exactly
    /// at `source_range`.
    pub fn replace_value(&mut self, source_range: SourceRange, new_value: Expr)
        ensures
            final(self)@ == old(self)@.replaced(source_range@, new_value@),
        decreases *old(self),
    {
        self.start_element.replace_value(source_range, new_value.duplicate());
        self.end_element.replace_value(source_range, new_value);
    }
}

impl ObjectProperty {
    /// Puts the new value in place of every expression in the value that stands exactly
    /// at `source_range`.
    pub fn replace_value(&mut self, source_range: SourceRange, new_value: Expr)
        ensures
            final(self)@ == old(self)@.replaced(source_range@, new_value@),
        decreases *old(self),
    {
        self.value.replace_value(source_range, new_value);
    }
}

impl ObjectExpression {
    /// Puts the new value in place of every expression among the values that stands exactly
    /// at `source_range`.
    pub fn replace_value(&mut self, source_range: SourceRange, new_value: Expr)
        ensures
            final(self)@ == old(self)@.replaced(source_range@, new_value@),
        decreases *old(self),
    {
        replace_in_properties(&mut self.properties, source_range, &new_value);
        assert(self@.properties =~= old(self)@.replaced(source_range@, new_value@).properties);
    }
}

impl FunctionExpression {
    /// Puts the new value in place of every expression in the body that stands exactly
    /// at `source_range`.
    pub fn replace_value(&mut self, source_range: SourceRange, new_value: Expr)
        ensures
            final(self)@ == old(self)@.replaced(source_range@, new_value@),
        decreases *old(self),
    {
        self.body.replace_value(source_range, new_value);
    }
}

impl ElseIf {
    /// Puts the new value in place of every expression in the branch that stands exactly
    /// at `source_range`.
    pub fn replace_value(&mut self, source_range: SourceRange, new_value: Expr)
        ensures
            final(self)@ == old(self)@.replaced(source_range@, new_value@),
        decreases *old(self),
    {
        self.cond.replace_value(source_range, new_value.duplicate());
        self.then_val.replace_value(source_range, new_value);
    }
}

impl IfExpression {
    /// Puts the new value in place of every expression in the conditional that stands exactly
    /// at `source_range`.
    pub fn replace_value(&mut self, source_range: SourceRange, new_value: Expr)
        ensures
            final(self)@ == old(self)@.replaced(source_range@, new_value@),
        decreases *old(self),
    {
        self.cond.replace_value(source_range, new_value.duplicate());
        self.then_val.replace_value(source_range, new_value.duplicate());
        replace_in_else_ifs(&mut self.else_ifs, source_range, &new_value);
        self.final_else.replace_value(source_range, new_value);
        assert(self@.else_ifs =~= old(self)@.replaced(source_range@, new_value@).else_ifs);
    }
}

impl VariableDeclarator {
    /// Puts the new value in place of every expression in the initial value that stands exactly
    /// at `source_range`.
    pub fn replace_value(&mut self, source_range: SourceRange, new_value: Expr)
        ensures
            final(self)@ == old(self)@.replaced(source_range@, new_value@),
        decreases *old(self),
    {
        self.init.replace_value(source_range, new_value);
    }
}

impl VariableDeclaration {
    /// Puts the new value in place of every expression in the initial values that stands exactly
    /// at `source_range`.
    pub fn replace_value(&mut self, source_range: SourceRange, new_value: Expr)
        ensures
            final(self)@ == old(self)@.replaced(source_range@, new_value@),
        decreases *old(self),
    {
        replace_in_declarators(&mut self.declarations, source_range, &new_value);
        assert(self@.declarations =~= old(self)@.replaced(source_range@, new_value@).declarations);
    }
}

impl BodyItem {
    /// Puts the new value in place of every expression in the statement that
    /// stands exactly at `source_range`. An import is not searched.
    pub fn replace_value(&mut self, source_range: SourceRange, new_value: Expr)
        ensures
            final(self)@ == old(self)@.replaced(source_range@, new_value@),
        decreases *old(self),
    {
        match self {
            BodyItem::ImportStatement(_) => {},
            BodyItem::ExpressionStatement(x) => x.expression.replace_value(source_range, new_value),
            BodyItem::VariableDeclaration(x) => x.replace_value(source_range, new_value),
            BodyItem::ReturnStatement(x) => x.argument.replace_value(source_range, new_value),
        }
    }
}

impl Program {
    /// Puts the new value in place of every expression in the program that stands exactly
    /// at `source_range`.
    pub fn replace_value(&mut self, source_range: SourceRange, new_value: Expr)
        ensures
            final(self)@ == old(self)@.replaced(source_range@, new_value@),
        decreases *old(self),
    {
        replace_in_body(&mut self.body, source_range, &new_value);
        assert(self@.body =~= old(self)@.replaced(source_range@, new_value@).body);
    }
}

/// A definition of a name at the top level of a program.
#[derive(Debug)]
pub enum Definition<'a> {
    /// The declarator that declares the name.
    Variable(&'a VariableDeclarator),
    /// The import that brings the name in.
    Import(&'a ImportStatement),
}

impl VariableDeclarationView {
    /// The index of the first declarator of the name given, or the number of
    /// declarators where there is none.
    pub open spec fn named_index(self, name: Seq<char>) -> int {
        first_index(self.declarations, |d: VariableDeclaratorView| d.id.name == name)
    }
}

impl VariableDeclarationView {
    /// The index of the last declarator of the name given, or -1 where there
    /// is none.
    pub open spec fn last_named_index(self, name: Seq<char>) -> int {
        last_index(self.declarations, |d: VariableDeclaratorView| d.id.name == name)
    }
}

impl ImportStatementView {
    /// The index of the first item that is known here under the name given, or
    /// the number of items where there is none.
    pub open spec fn named_index(self, name: Seq<char>) -> int {
        first_index(self.items, |item: ImportItemView| item.bound_name() == name)
    }
}

impl BodyItemView {
    /// Whether the statement declares the name.
    pub open spec fn declares(self, name: Seq<char>) -> bool {
        match self {
            BodyItemView::VariableDeclaration(x) => x.named_index(name) < x.declarations.len(),
            _ => false,
        }
    }

    /// Whether the statement declares the name or imports something under it.
    pub open spec fn defines(self, name: Seq<char>) -> bool {
        match self {
            BodyItemView::ImportStatement(x) => x.named_index(name) < x.items.len(),
            BodyItemView::VariableDeclaration(x) => x.named_index(name) < x.declarations.len(),
            _ => false,
        }
    }

    /// The statement with the declarator given in place of its first
    /// declarator of the name.
    pub open spec fn variable_replaced(self, name: Seq<char>, declarator: VariableDeclaratorView) -> BodyItemView {
        match self {
            BodyItemView::VariableDeclaration(x) => if 0 <= x.named_index(name)
                < x.declarations.len() {
                BodyItemView::VariableDeclaration(
                    Box::new(
                        VariableDeclarationView {
                            declarations: x.declarations.update(x.named_index(name), declarator),
                            ..*x
                        },
                    ),
                )
            } else {
                self
            },
            _ => self,
        }
    }
}

impl ProgramView {
    /// The index of the first statement that declares the name, or the number
    /// of statements.
    pub open spec fn declaration_index(self, name: Seq<char>) -> int {
        first_index(self.body, |item: BodyItemView| item.declares(name))
    }

    /// The index of the last statement that declares or imports the name, or
    /// -1 where none does. Of two definitions of one name the later shadows
    /// the earlier.
    pub open spec fn definition_index(self, name: Seq<char>) -> int {
        last_index(self.body, |item: BodyItemView| item.defines(name))
    }

    /// The program with the declarator given in place of the first declarator
    /// of the name. The program itself where the name is not declared.
    pub open spec fn variable_replaced(self, name: Seq<char>, declarator: VariableDeclaratorView) -> ProgramView {
        let i = self.declaration_index(name);
        if 0 <= i < self.body.len() {
            ProgramView { body: self.body.update(i, self.body[i].variable_replaced(name, declarator)), ..self }
        } else {
            self
        }
    }
}

impl VariableDeclaration {
    /// The index of the first declarator of the name given.
    fn named_index(&self, name: &str) -> (index: usize)
        ensures
            index == self@.named_index(name@),
            index <= self.declarations.len(),
    {
        let ghost p = |d: VariableDeclaratorView| d.id.name == name@;
        let mut i: usize = 0;
        while i < self.declarations.len()
            invariant
                i <= self.declarations.len(),
                p == |d: VariableDeclaratorView| d.id.name == name@,
                forall|j: int| 0 <= j < i ==> !p(#[trigger] self@.declarations[j]),
            decreases self.declarations.len() - i,
        {
            if str_eq(self.declarations[i].id.name.as_str(), name) {
                assert(p(self@.declarations[i as int]));
                proof {
                    lemma_first_index_is(self@.declarations, p, i as int);
                }
                return i;
            }
            assert(!p(self@.declarations[i as int]));
            i += 1;
        }
        proof {
            lemma_first_index_is(self@.declarations, p, i as int);
        }
        i
    }
}

impl VariableDeclaration {
    /// The index of the last declarator of the name given.
    fn last_named_index(&self, name: &str) -> (index: Option<usize>)
        ensures
            match index {
                Some(i) => i == self@.last_named_index(name@) && i < self.declarations.len(),
                None => self@.last_named_index(name@) == -1,
            },
    {
        let ghost p = |d: VariableDeclaratorView| d.id.name == name@;
        let mut i: usize = self.declarations.len();
        while i > 0
            invariant
                i <= self.declarations.len(),
                p == |d: VariableDeclaratorView| d.id.name == name@,
                forall|j: int| i <= j < self.declarations.len() ==> !p(#[trigger] self@.declarations[j]),
            decreases i,
        {
            i -= 1;
            if str_eq(self.declarations[i].id.name.as_str(), name) {
                assert(p(self@.declarations[i as int]));
                proof {
                    lemma_last_index_is(self@.declarations, p, i as int);
                }
                return Some(i);
            }
            assert(!p(self@.declarations[i as int]));
        }
        proof {
            lemma_last_index_is(self@.declarations, p, -1);
        }
        None
    }
}

impl ImportStatement {
    /// The index of the first item that is known here under the name given.
    fn named_index(&self, name: &str) -> (index: usize)
        ensures
            index == self@.named_index(name@),
            index <= self.items.len(),
    {
        let ghost p = |item: ImportItemView| item.bound_name() == name@;
        let mut i: usize = 0;
        while i < self.items.len()
            invariant
                i <= self.items.len(),
                p == |item: ImportItemView| item.bound_name() == name@,
                forall|j: int| 0 <= j < i ==> !p(#[trigger] self@.items[j]),
            decreases self.items.len() - i,
        {
            if str_eq(self.items[i].identifier(), name) {
                assert(p(self@.items[i as int]));
                proof {
                    lemma_first_index_is(self@.items, p, i as int);
                }
                return i;
            }
            assert(!p(self@.items[i as int]));
            i += 1;
        }
        proof {
            lemma_first_index_is(self@.items, p, i as int);
        }
        i
    }
}

impl BodyItem {
    /// Whether the statement declares the name.
    fn declares(&self, name: &str) -> (declares: bool)
        ensures
            declares == self@.declares(name@),
    {
        match self {
            BodyItem::VariableDeclaration(x) => x.named_index(name) < x.declarations.len(),
            _ => false,
        }
    }

    /// Whether the statement declares the name or imports something under it.
    fn defines(&self, name: &str) -> (defines: bool)
        ensures
            defines == self@.defines(name@),
    {
        match self {
            BodyItem::ImportStatement(x) => x.named_index(name) < x.items.len(),
            BodyItem::VariableDeclaration(x) => x.named_index(name) < x.declarations.len(),
            _ => false,
        }
    }
}

impl Program {
    /// Puts the declarator given in place of the first declarator of the name,
    /// in the first declaration that has one. No change where the name is not
    /// declared at the top level.
    pub fn replace_variable(&mut self, name: &str, declarator: VariableDeclarator)
        ensures
            final(self)@ == old(self)@.variable_replaced(name@, declarator@),
    {
        let ghost p = |item: BodyItemView| item.declares(name@);
        let mut i: usize = 0;
        while i < self.body.len() && !self.body[i].declares(name)
            invariant
                i <= self.body.len(),
                *self == *old(self),
                p == |item: BodyItemView| item.declares(name@),
                forall|j: int| 0 <= j < i ==> !p(#[trigger] self@.body[j]),
            decreases self.body.len() - i,
        {
            assert(!p(self@.body[i as int]));
            i += 1;
        }
        proof {
            if i < self.body.len() {
                assert(p(self@.body[i as int]));
            }
            lemma_first_index_is(self@.body, p, i as int);
        }
        if i < self.body.len() {
            match &mut self.body[i] {
                BodyItem::VariableDeclaration(x) => {
                    let j = x.named_index(name);
                    proof {
                        lemma_first_index(
                            x@.declarations,
                            |d: VariableDeclaratorView| d.id.name == name@,
                        );
                    }
                    x.declarations[j] = declarator;
                    assert(x@.declarations =~= old(self)@.body[i as int]->VariableDeclaration_0.declarations.update(
                        j as int,
                        declarator@,
                    ));
                },
                _ => {},
            }
            assert(self@.body =~= old(self)@.variable_replaced(name@, declarator@).body);
        }
    }

    /// The definition of the name at the top level: the declarator that
    /// declares it, or the import that brings it in. Of several the last is
    /// found, which shadows those before it: the last statement that defines
    /// the name, and in a declaration the last declarator of the name. `None`
    /// where there is none.
    pub fn get_variable(&self, name: &str) -> (definition: Option<Definition<'_>>)
        ensures
            match definition {
                Some(Definition::Variable(d)) => {
                    let i = self@.definition_index(name@);
                    &&& 0 <= i < self.body.len()
                    &&& self@.body[i] matches BodyItemView::VariableDeclaration(x)
                    &&& 0 <= x.last_named_index(name@) < x.declarations.len()
                    &&& d@ == x.declarations[x.last_named_index(name@)]
                },
                Some(Definition::Import(s)) => {
                    let i = self@.definition_index(name@);
                    &&& 0 <= i < self.body.len()
                    &&& self@.body[i] == BodyItemView::ImportStatement(Box::new(s@))
                },
                None => self@.definition_index(name@) == -1,
            },
    {
        let ghost p = |item: BodyItemView| item.defines(name@);
        let mut i: usize = self.body.len();
        while i > 0
            invariant
                i <= self.body.len(),
                p == |item: BodyItemView| item.defines(name@),
                forall|j: int| i <= j < self.body.len() ==> !p(#[trigger] self@.body[j]),
            decreases i,
        {
            i -= 1;
            if self.body[i].defines(name) {
                assert(p(self@.body[i as int]));
                proof {
                    lemma_last_index_is(self@.body, p, i as int);
                }
                match &self.body[i] {
                    BodyItem::ImportStatement(x) => {
                        return Some(Definition::Import(&**x));
                    },
                    BodyItem::VariableDeclaration(x) => {
                        match x.last_named_index(name) {
                            Some(j) => {
                                return Some(Definition::Variable(&x.declarations[j]));
                            },
                            None => {
                                proof {
                                    lemma_first_index(
                                        x@.declarations,
                                        |d: VariableDeclaratorView| d.id.name == name@,
                                    );
                                    lemma_last_index(
                                        x@.declarations,
                                        |d: VariableDeclaratorView| d.id.name == name@,
                                    );
                                }
                                assert(false);
                            },
                        }
                    },
                    _ => {},
                }
            }
            assert(!p(self@.body[i as int]));
        }
        proof {
            lemma_last_index_is(self@.body, p, -1);
        }
        None
    }
}

} // verus!
