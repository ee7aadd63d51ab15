//! Renaming a binding and what refers to it.
//!
//! Renaming runs in two steps. The first finds the binding at a position (an
//! import's alias, a declared name, a parameter of a function) and gives it the
//! new name. The second gives the new name to every identifier and tag in scope
//! that bore the old one, in the bodies of function literals too. A function
//! literal with a parameter of the old name shadows it: inside, the name means
//! the parameter, and is left alone.

use crate::ast::{
    ArrayExpression, ArrayRangeExpression, BinaryExpression, BinaryPart, BodyItem, CallExpression,
    ElseIf, Expr, FunctionExpression, Identifier, IfExpression, ImportItem, ImportStatement,
    LiteralIdentifier, MemberExpression, MemberObject, ObjectExpression, ObjectProperty,
    PipeExpression, Program, TagDeclarator, UnaryExpression, VariableDeclaration,
    VariableDeclarator,
};
use crate::model::{
    ArrayExpressionView, ArrayRangeExpressionView, BinaryExpressionView, BinaryPartView,
    BodyItemView, CallExpressionView, ElseIfView, ExprView, ExpressionStatementView,
    FunctionExpressionView, IdentifierView, IfExpressionView, ImportItemView, ImportStatementView,
    LiteralIdentifierView, MemberExpressionView, MemberObjectView, ObjectExpressionView,
    ObjectPropertyView, ParameterView, PipeExpressionView, ProgramView, ReturnStatementView,
    TagDeclaratorView, UnaryExpressionView, VariableDeclarationView, VariableDeclaratorView,
};
use crate::text::{first_index, lemma_first_index, lemma_first_index_is, str_eq};
use vstd::prelude::*;

verus! {

/// The name that `name` has once `old_name` has become `new_name`.
pub open spec fn renamed_name(name: Seq<char>, old_name: Seq<char>, new_name: Seq<char>) -> Seq<
    char,
> {
    if name == old_name {
        new_name
    } else {
        name
    }
}

impl IdentifierView {
    /// The identifier under the new name, where it bore the old one.
    pub open spec fn renamed(self, old_name: Seq<char>, new_name: Seq<char>) -> IdentifierView
        decreases self,
    {
        IdentifierView {
            name: renamed_name(self.name, old_name, new_name),
            ..self
        }
    }
}

impl TagDeclaratorView {
    /// The tag under the new name, where it bore the old one.
    pub open spec fn renamed(self, old_name: Seq<char>, new_name: Seq<char>) -> TagDeclaratorView
        decreases self,
    {
        TagDeclaratorView {
            name: renamed_name(self.name, old_name, new_name),
            ..self
        }
    }
}

impl ExprView {
    /// The expression with every reference to the old name under the new one.
    pub open spec fn renamed(self, old_name: Seq<char>, new_name: Seq<char>) -> ExprView
        decreases self,
    {
        match self {
            ExprView::Identifier(x) => ExprView::Identifier(Box::new(x.renamed(old_name, new_name))),
            ExprView::TagDeclarator(x) => ExprView::TagDeclarator(Box::new(x.renamed(old_name, new_name))),
            ExprView::BinaryExpression(x) => ExprView::BinaryExpression(Box::new(x.renamed(old_name, new_name))),
            ExprView::CallExpression(x) => ExprView::CallExpression(Box::new(x.renamed(old_name, new_name))),
            ExprView::PipeExpression(x) => ExprView::PipeExpression(Box::new(x.renamed(old_name, new_name))),
            ExprView::ArrayExpression(x) => ExprView::ArrayExpression(Box::new(x.renamed(old_name, new_name))),
            ExprView::ArrayRangeExpression(x) => ExprView::ArrayRangeExpression(Box::new(x.renamed(old_name, new_name))),
            ExprView::ObjectExpression(x) => ExprView::ObjectExpression(Box::new(x.renamed(old_name, new_name))),
            ExprView::MemberExpression(x) => ExprView::MemberExpression(Box::new(x.renamed(old_name, new_name))),
            ExprView::UnaryExpression(x) => ExprView::UnaryExpression(Box::new(x.renamed(old_name, new_name))),
            ExprView::IfExpression(x) => ExprView::IfExpression(Box::new(x.renamed(old_name, new_name))),
            ExprView::FunctionExpression(x) => ExprView::FunctionExpression(
                Box::new(x.renamed(old_name, new_name)),
            ),
            ExprView::Literal(_)
            | ExprView::PipeSubstitution(_)
            | ExprView::KclNone(_) => self,
        }
    }
}

impl FunctionExpressionView {
    /// Whether a parameter of the function bears the name given.
    pub open spec fn has_parameter(self, name: Seq<char>) -> bool {
        exists|i: int|
            0 <= i < self.params.len() && (#[trigger] self.params[i]).identifier.name == name
    }

    /// The function with every reference to the old name in its body under
    /// the new one. A function with a parameter of the old name stays as it
    /// is: in its body the name refers to the parameter, which is not what is
    /// renamed.
    pub open spec fn renamed(self, old_name: Seq<char>, new_name: Seq<char>) -> FunctionExpressionView
        decreases self,
    {
        if self.has_parameter(old_name) {
            self
        } else {
            FunctionExpressionView { body: self.body.renamed(old_name, new_name), ..self }
        }
    }
}

impl BinaryPartView {
    /// The operand with every reference to the old name under the new one.
    pub open spec fn renamed(self, old_name: Seq<char>, new_name: Seq<char>) -> BinaryPartView
        decreases self,
    {
        match self {
            BinaryPartView::Identifier(x) => BinaryPartView::Identifier(Box::new(x.renamed(old_name, new_name))),
            BinaryPartView::BinaryExpression(x) => BinaryPartView::BinaryExpression(Box::new(x.renamed(old_name, new_name))),
            BinaryPartView::CallExpression(x) => BinaryPartView::CallExpression(Box::new(x.renamed(old_name, new_name))),
            BinaryPartView::UnaryExpression(x) => BinaryPartView::UnaryExpression(Box::new(x.renamed(old_name, new_name))),
            BinaryPartView::MemberExpression(x) => BinaryPartView::MemberExpression(Box::new(x.renamed(old_name, new_name))),
            BinaryPartView::IfExpression(x) => BinaryPartView::IfExpression(Box::new(x.renamed(old_name, new_name))),
            BinaryPartView::Literal(_) => self,
        }
    }
}

impl BinaryExpressionView {
    /// Both operands renamed.
    pub open spec fn renamed(self, old_name: Seq<char>, new_name: Seq<char>) -> BinaryExpressionView
        decreases self,
    {
        BinaryExpressionView {
            left: self.left.renamed(old_name, new_name),
            right: self.right.renamed(old_name, new_name),
            ..self
        }
    }
}

impl UnaryExpressionView {
    /// The operand renamed.
    pub open spec fn renamed(self, old_name: Seq<char>, new_name: Seq<char>) -> UnaryExpressionView
        decreases self,
    {
        UnaryExpressionView {
            argument: self.argument.renamed(old_name, new_name),
            ..self
        }
    }
}

impl CallExpressionView {
    /// The callee and every argument renamed.
    pub open spec fn renamed(self, old_name: Seq<char>, new_name: Seq<char>) -> CallExpressionView
        decreases self,
    {
        CallExpressionView {
            callee: self.callee.renamed(old_name, new_name),
            arguments: Seq::new(
                self.arguments.len(),
                |i: int|
                    if 0 <= i < self.arguments.len() {
                        self.arguments[i].renamed(old_name, new_name)
                    } else {
                        arbitrary()
                    },
            ),
            ..self
        }
    }
}

impl PipeExpressionView {
    /// Every stage renamed.
    pub open spec fn renamed(self, old_name: Seq<char>, new_name: Seq<char>) -> PipeExpressionView
        decreases self,
    {
        PipeExpressionView {
            body: Seq::new(
                self.body.len(),
                |i: int|
                    if 0 <= i < self.body.len() {
                        self.body[i].renamed(old_name, new_name)
                    } else {
                        arbitrary()
                    },
            ),
            ..self
        }
    }
}

impl ArrayExpressionView {
    /// Every element renamed.
    pub open spec fn renamed(self, old_name: Seq<char>, new_name: Seq<char>) -> ArrayExpressionView
        decreases self,
    {
        ArrayExpressionView {
            elements: Seq::new(
                self.elements.len(),
                |i: int|
                    if 0 <= i < self.elements.len() {
                        self.elements[i].renamed(old_name, new_name)
                    } else {
                        arbitrary()
                    },
            ),
            ..self
        }
    }
}

impl ArrayRangeExpressionView {
    /// Both ends renamed.
    pub open spec fn renamed(self, old_name: Seq<char>, new_name: Seq<char>) -> ArrayRangeExpressionView
        decreases self,
    {
        ArrayRangeExpressionView {
            start_element: Box::new(self.start_element.renamed(old_name, new_name)),
            end_element: Box::new(self.end_element.renamed(old_name, new_name)),
            ..self
        }
    }
}

impl ObjectPropertyView {
    /// The value renamed; the key is no reference and stays.
    pub open spec fn renamed(self, old_name: Seq<char>, new_name: Seq<char>) -> ObjectPropertyView
        decreases self,
    {
        ObjectPropertyView {
            value: self.value.renamed(old_name, new_name),
            ..self
        }
    }
}

impl ObjectExpressionView {
    /// The value of every property renamed.
    pub open spec fn renamed(self, old_name: Seq<char>, new_name: Seq<char>) -> ObjectExpressionView
        decreases self,
    {
        ObjectExpressionView {
            properties: Seq::new(
                self.properties.len(),
                |i: int|
                    if 0 <= i < self.properties.len() {
                        self.properties[i].renamed(old_name, new_name)
                    } else {
                        arbitrary()
                    },
            ),
            ..self
        }
    }
}

impl MemberObjectView {
    /// What is read from, renamed.
    pub open spec fn renamed(self, old_name: Seq<char>, new_name: Seq<char>) -> MemberObjectView
        decreases self,
    {
        match self {
            MemberObjectView::MemberExpression(x) => MemberObjectView::MemberExpression(Box::new(x.renamed(old_name, new_name))),
            MemberObjectView::Identifier(x) => MemberObjectView::Identifier(Box::new(x.renamed(old_name, new_name))),
        }
    }
}

impl LiteralIdentifierView {
    /// A name renamed; a literal key stays.
    pub open spec fn renamed(self, old_name: Seq<char>, new_name: Seq<char>) -> LiteralIdentifierView {
        match self {
            LiteralIdentifierView::Identifier(x) => LiteralIdentifierView::Identifier(
                Box::new(x.renamed(old_name, new_name)),
            ),
            LiteralIdentifierView::Literal(_) => self,
        }
    }
}

impl MemberExpressionView {
    /// What is read from, renamed, and the property too where it is computed: in
    /// `a[b]` the `b` refers to a binding, in `a.b` it names a field.
    pub open spec fn renamed(self, old_name: Seq<char>, new_name: Seq<char>) -> MemberExpressionView
        decreases self,
    {
        MemberExpressionView {
            object: self.object.renamed(old_name, new_name),
            property: if self.computed {
                self.property.renamed(old_name, new_name)
            } else {
                self.property
            },
            ..self
        }
    }
}

impl ElseIfView {
    /// The condition and the branch renamed.
    pub open spec fn renamed(self, old_name: Seq<char>, new_name: Seq<char>) -> ElseIfView
        decreases self,
    {
        ElseIfView {
            cond: self.cond.renamed(old_name, new_name),
            then_val: Box::new(self.then_val.renamed(old_name, new_name)),
            ..self
        }
    }
}

impl IfExpressionView {
    /// The conditions and all branches renamed.
    pub open spec fn renamed(self, old_name: Seq<char>, new_name: Seq<char>) -> IfExpressionView
        decreases self,
    {
        IfExpressionView {
            cond: Box::new(self.cond.renamed(old_name, new_name)),
            then_val: Box::new(self.then_val.renamed(old_name, new_name)),
            else_ifs: Seq::new(
                self.else_ifs.len(),
                |i: int|
                    if 0 <= i < self.else_ifs.len() {
                        self.else_ifs[i].renamed(old_name, new_name)
                    } else {
                        arbitrary()
                    },
            ),
            final_else: Box::new(self.final_else.renamed(old_name, new_name)),
            ..self
        }
    }
}

impl ImportItemView {
    /// The alias renamed, where there is one.
    pub open spec fn renamed(self, old_name: Seq<char>, new_name: Seq<char>) -> ImportItemView {
        ImportItemView {
            alias: match self.alias {
                Some(alias) => Some(alias.renamed(old_name, new_name)),
                None => None,
            },
            ..self
        }
    }
}

impl ImportStatementView {
    /// The alias of every item renamed.
    pub open spec fn renamed(self, old_name: Seq<char>, new_name: Seq<char>) -> ImportStatementView {
        ImportStatementView {
            items: Seq::new(self.items.len(), |i: int| self.items[i].renamed(old_name, new_name)),
            ..self
        }
    }
}

impl VariableDeclaratorView {
    /// The initial value renamed. A declarator that bears the new name is the one
    /// being renamed, or shadows it: its value stays as it is.
    pub open spec fn renamed(self, old_name: Seq<char>, new_name: Seq<char>) -> VariableDeclaratorView
        decreases self,
    {
        if self.id.name == new_name {
            self
        } else {
            VariableDeclaratorView { init: self.init.renamed(old_name, new_name), ..self }
        }
    }
}

impl VariableDeclarationView {
    /// Every declarator renamed.
    pub open spec fn renamed(self, old_name: Seq<char>, new_name: Seq<char>) -> VariableDeclarationView
        decreases self,
    {
        VariableDeclarationView {
            declarations: Seq::new(
                self.declarations.len(),
                |i: int|
                    if 0 <= i < self.declarations.len() {
                        self.declarations[i].renamed(old_name, new_name)
                    } else {
                        arbitrary()
                    },
            ),
            ..self
        }
    }
}

impl ExpressionStatementView {
    /// The expression renamed.
    pub open spec fn renamed(self, old_name: Seq<char>, new_name: Seq<char>) -> ExpressionStatementView
        decreases self,
    {
        ExpressionStatementView {
            expression: self.expression.renamed(old_name, new_name),
            ..self
        }
    }
}

impl ReturnStatementView {
    /// The returned value renamed.
    pub open spec fn renamed(self, old_name: Seq<char>, new_name: Seq<char>) -> ReturnStatementView
        decreases self,
    {
        ReturnStatementView {
            argument: self.argument.renamed(old_name, new_name),
            ..self
        }
    }
}

impl BodyItemView {
    /// The statement with every reference to the old name under the new one.
    pub open spec fn renamed(self, old_name: Seq<char>, new_name: Seq<char>) -> BodyItemView
        decreases self,
    {
        match self {
            BodyItemView::ImportStatement(x) => BodyItemView::ImportStatement(
                Box::new(x.renamed(old_name, new_name)),
            ),
            BodyItemView::ExpressionStatement(x) => BodyItemView::ExpressionStatement(
                x.renamed(old_name, new_name),
            ),
            BodyItemView::VariableDeclaration(x) => BodyItemView::VariableDeclaration(
                Box::new(x.renamed(old_name, new_name)),
            ),
            BodyItemView::ReturnStatement(x) => BodyItemView::ReturnStatement(
                x.renamed(old_name, new_name),
            ),
        }
    }
}

impl ProgramView {
    /// Every statement renamed.
    pub open spec fn renamed(self, old_name: Seq<char>, new_name: Seq<char>) -> ProgramView
        decreases self,
    {
        ProgramView {
            body: Seq::new(
                self.body.len(),
                |i: int|
                    if 0 <= i < self.body.len() {
                        self.body[i].renamed(old_name, new_name)
                    } else {
                        arbitrary()
                    },
            ),
            ..self
        }
    }
}

/// Renames in every expression of a list.
fn rename_exprs(items: &mut Vec<Expr>, old_name: &str, new_name: &str)
    ensures
        final(items).len() == old(items).len(),
        forall|i: int|
            0 <= i < old(items).len() ==> (#[trigger] final(items)[i])@ == old(items)[i]@.renamed(
                old_name@,
                new_name@,
            ),
    decreases *old(items),
{
    let mut i: usize = 0;
    while i < items.len()
        invariant
            i <= items.len(),
            items.len() == old(items).len(),
            forall|j: int|
                0 <= j < i ==> (#[trigger] items[j])@ == old(items)[j]@.renamed(old_name@, new_name@),
            forall|j: int| i <= j < items.len() ==> (#[trigger] items[j]) == old(items)[j],
        decreases items.len() - i,
    {
        items[i].rename_identifiers(old_name, new_name);
        i += 1;
    }
}

/// Renames in every property of a list.
fn rename_properties(items: &mut Vec<ObjectProperty>, old_name: &str, new_name: &str)
    ensures
        final(items).len() == old(items).len(),
        forall|i: int|
            0 <= i < old(items).len() ==> (#[trigger] final(items)[i])@ == old(items)[i]@.renamed(
                old_name@,
                new_name@,
            ),
    decreases *old(items),
{
    let mut i: usize = 0;
    while i < items.len()
        invariant
            i <= items.len(),
            items.len() == old(items).len(),
            forall|j: int|
                0 <= j < i ==> (#[trigger] items[j])@ == old(items)[j]@.renamed(old_name@, new_name@),
            forall|j: int| i <= j < items.len() ==> (#[trigger] items[j]) == old(items)[j],
        decreases items.len() - i,
    {
        items[i].rename_identifiers(old_name, new_name);
        i += 1;
    }
}

/// Renames in every branch of a list.
fn rename_else_ifs(items: &mut Vec<ElseIf>, old_name: &str, new_name: &str)
    ensures
        final(items).len() == old(items).len(),
        forall|i: int|
            0 <= i < old(items).len() ==> (#[trigger] final(items)[i])@ == old(items)[i]@.renamed(
                old_name@,
                new_name@,
            ),
    decreases *old(items),
{
    let mut i: usize = 0;
    while i < items.len()
        invariant
            i <= items.len(),
            items.len() == old(items).len(),
            forall|j: int|
                0 <= j < i ==> (#[trigger] items[j])@ == old(items)[j]@.renamed(old_name@, new_name@),
            forall|j: int| i <= j < items.len() ==> (#[trigger] items[j]) == old(items)[j],
        decreases items.len() - i,
    {
        items[i].rename_identifiers(old_name, new_name);
        i += 1;
    }
}

/// Renames in every declarator of a list.
fn rename_declarators(items: &mut Vec<VariableDeclarator>, old_name: &str, new_name: &str)
    ensures
        final(items).len() == old(items).len(),
        forall|i: int|
            0 <= i < old(items).len() ==> (#[trigger] final(items)[i])@ == old(items)[i]@.renamed(
                old_name@,
                new_name@,
            ),
    decreases *old(items),
{
    let mut i: usize = 0;
    while i < items.len()
        invariant
            i <= items.len(),
            items.len() == old(items).len(),
            forall|j: int|
                0 <= j < i ==> (#[trigger] items[j])@ == old(items)[j]@.renamed(old_name@, new_name@),
            forall|j: int| i <= j < items.len() ==> (#[trigger] items[j]) == old(items)[j],
        decreases items.len() - i,
    {
        items[i].rename_identifiers(old_name, new_name);
        i += 1;
    }
}

/// Renames in every statement of a list.
fn rename_body(items: &mut Vec<BodyItem>, old_name: &str, new_name: &str)
    ensures
        final(items).len() == old(items).len(),
        forall|i: int|
            0 <= i < old(items).len() ==> (#[trigger] final(items)[i])@ == old(items)[i]@.renamed(
                old_name@,
                new_name@,
            ),
    decreases *old(items),
{
    let mut i: usize = 0;
    while i < items.len()
        invariant
            i <= items.len(),
            items.len() == old(items).len(),
            forall|j: int|
                0 <= j < i ==> (#[trigger] items[j])@ == old(items)[j]@.renamed(old_name@, new_name@),
            forall|j: int| i <= j < items.len() ==> (#[trigger] items[j]) == old(items)[j],
        decreases items.len() - i,
    {
        items[i].rename_identifiers(old_name, new_name);
        i += 1;
    }
}

impl Identifier {
    /// Gives the identifier the new name if it bears the old one.
    pub fn rename(&mut self, old_name: &str, new_name: &str)
        ensures
            final(self)@ == old(self)@.renamed(old_name@, new_name@),
    {
        if str_eq(self.name.as_str(), old_name) {
            self.name = new_name.to_owned();
        }
    }
}

impl TagDeclarator {
    /// Gives the tag the new name if it bears the old one.
    pub fn rename(&mut self, old_name: &str, new_name: &str)
        ensures
            final(self)@ == old(self)@.renamed(old_name@, new_name@),
    {
        if str_eq(self.name.as_str(), old_name) {
            self.name = new_name.to_owned();
        }
    }
}

impl Expr {
    /// Gives the new name to every reference to the old one, in function
    /// literals too where no parameter shadows the old name.
    pub fn rename_identifiers(&mut self, old_name: &str, new_name: &str)
        ensures
            final(self)@ == old(self)@.renamed(old_name@, new_name@),
        decreases *old(self),
    {
        match self {
            Expr::Identifier(x) => x.rename(old_name, new_name),
            Expr::TagDeclarator(x) => x.rename(old_name, new_name),
            Expr::BinaryExpression(x) => x.rename_identifiers(old_name, new_name),
            Expr::CallExpression(x) => x.rename_identifiers(old_name, new_name),
            Expr::PipeExpression(x) => x.rename_identifiers(old_name, new_name),
            Expr::ArrayExpression(x) => x.rename_identifiers(old_name, new_name),
            Expr::ArrayRangeExpression(x) => x.rename_identifiers(old_name, new_name),
            Expr::ObjectExpression(x) => x.rename_identifiers(old_name, new_name),
            Expr::MemberExpression(x) => x.rename_identifiers(old_name, new_name),
            Expr::UnaryExpression(x) => x.rename_identifiers(old_name, new_name),
            Expr::IfExpression(x) => x.rename_identifiers(old_name, new_name),
            Expr::Literal(_) => {},
            Expr::FunctionExpression(x) => x.rename_identifiers(old_name, new_name),
            Expr::PipeSubstitution(_) => {},
            Expr::KclNone(_) => {},
        }
    }
}

impl FunctionExpression {
    /// Gives the new name to every reference to the old one in the body,
    /// unless a parameter bears the old name and so shadows it.
    pub fn rename_identifiers(&mut self, old_name: &str, new_name: &str)
        ensures
            final(self)@ == old(self)@.renamed(old_name@, new_name@),
        decreases *old(self),
    {
        let mut i: usize = 0;
        while i < self.params.len()
            invariant
                i <= self.params.len(),
                *self == *old(self),
                forall|j: int| 0 <= j < i ==> (#[trigger] self@.params[j]).identifier.name != old_name@,
            decreases self.params.len() - i,
        {
            if str_eq(self.params[i].identifier.name.as_str(), old_name) {
                assert(self@.params[i as int].identifier.name == old_name@);
                return;
            }
            i += 1;
        }
        self.body.rename_identifiers(old_name, new_name);
    }
}

impl BinaryPart {
    /// Gives the new name to every reference to the old one.
    pub fn rename_identifiers(&mut self, old_name: &str, new_name: &str)
        ensures
            final(self)@ == old(self)@.renamed(old_name@, new_name@),
        decreases *old(self),
    {
        match self {
            BinaryPart::Identifier(x) => x.rename(old_name, new_name),
            BinaryPart::BinaryExpression(x) => x.rename_identifiers(old_name, new_name),
            BinaryPart::CallExpression(x) => x.rename_identifiers(old_name, new_name),
            BinaryPart::UnaryExpression(x) => x.rename_identifiers(old_name, new_name),
            BinaryPart::MemberExpression(x) => x.rename_identifiers(old_name, new_name),
            BinaryPart::IfExpression(x) => x.rename_identifiers(old_name, new_name),
            BinaryPart::Literal(_) => {},
        }
    }
}

impl BinaryExpression {
    /// Gives the new name to every reference to the old one.
    pub fn rename_identifiers(&mut self, old_name: &str, new_name: &str)
        ensures
            final(self)@ == old(self)@.renamed(old_name@, new_name@),
        decreases *old(self),
    {
        self.left.rename_identifiers(old_name, new_name);
        self.right.rename_identifiers(old_name, new_name);
    }
}

impl UnaryExpression {
    /// Gives the new name to every reference to the old one.
    pub fn rename_identifiers(&mut self, old_name: &str, new_name: &str)
        ensures
            final(self)@ == old(self)@.renamed(old_name@, new_name@),
        decreases *old(self),
    {
        self.argument.rename_identifiers(old_name, new_name);
    }
}

impl CallExpression {
    /// Gives the new name to every reference to the old one.
    pub fn rename_identifiers(&mut self, old_name: &str, new_name: &str)
        ensures
            final(self)@ == old(self)@.renamed(old_name@, new_name@),
        decreases *old(self),
    {
        self.callee.rename(old_name, new_name);
        rename_exprs(&mut self.arguments, old_name, new_name);
        assert(self@.arguments =~= old(self)@.renamed(old_name@, new_name@).arguments);
    }
}

impl PipeExpression {
    /// Gives the new name to every reference to the old one.
    pub fn rename_identifiers(&mut self, old_name: &str, new_name: &str)
        ensures
            final(self)@ == old(self)@.renamed(old_name@, new_name@),
        decreases *old(self),
    {
        rename_exprs(&mut self.body, old_name, new_name);
        assert(self@.body =~= old(self)@.renamed(old_name@, new_name@).body);
    }
}

impl ArrayExpression {
    /// Gives the new name to every reference to the old one.
    pub fn rename_identifiers(&mut self, old_name: &str, new_name: &str)
        ensures
            final(self)@ == old(self)@.renamed(old_name@, new_name@),
        decreases *old(self),
    {
        rename_exprs(&mut self.elements, old_name, new_name);
        assert(self@.elements =~= old(self)@.renamed(old_name@, new_name@).elements);
    }
}

impl ArrayRangeExpression {
    /// Gives the new name to every reference to the old one.
    pub fn rename_identifiers(&mut self, old_name: &str, new_name: &str)
        ensures
            final(self)@ == old(self)@.renamed(old_name@, new_name@),
        decreases *old(self),
    {
        self.start_element.rename_identifiers(old_name, new_name);
        self.end_element.rename_identifiers(old_name, new_name);
    }
}

impl ObjectProperty {
    /// Gives the new name to every reference to the old one.
    pub fn rename_identifiers(&mut self, old_name: &str, new_name: &str)
        ensures
            final(self)@ == old(self)@.renamed(old_name@, new_name@),
        decreases *old(self),
    {
        self.value.rename_identifiers(old_name, new_name);
    }
}

impl ObjectExpression {
    /// Gives the new name to every reference to the old one.
    pub fn rename_identifiers(&mut self, old_name: &str, new_name: &str)
        ensures
            final(self)@ == old(self)@.renamed(old_name@, new_name@),
        decreases *old(self),
    {
        rename_properties(&mut self.properties, old_name, new_name);
        assert(self@.properties =~= old(self)@.renamed(old_name@, new_name@).properties);
    }
}

impl MemberExpression {
    /// Gives the new name to every reference to the old one: in what is read
    /// from, and in the property where it is computed.
    pub fn rename_identifiers(&mut self, old_name: &str, new_name: &str)
        ensures
            final(self)@ == old(self)@.renamed(old_name@, new_name@),
        decreases *old(self),
    {
        match &mut self.object {
            MemberObject::MemberExpression(x) => x.rename_identifiers(old_name, new_name),
            MemberObject::Identifier(x) => x.rename(old_name, new_name),
        }
        if self.computed {
            match &mut self.property {
                LiteralIdentifier::Identifier(x) => x.rename(old_name, new_name),
                LiteralIdentifier::Literal(_) => {},
            }
        }
    }
}

impl ElseIf {
    /// Gives the new name to every reference to the old one.
    pub fn rename_identifiers(&mut self, old_name: &str, new_name: &str)
        ensures
            final(self)@ == old(self)@.renamed(old_name@, new_name@),
        decreases *old(self),
    {
        self.cond.rename_identifiers(old_name, new_name);
        self.then_val.rename_identifiers(old_name, new_name);
    }
}

impl IfExpression {
    /// Gives the new name to every reference to the old one.
    pub fn rename_identifiers(&mut self, old_name: &str, new_name: &str)
        ensures
            final(self)@ == old(self)@.renamed(old_name@, new_name@),
        decreases *old(self),
    {
        self.cond.rename_identifiers(old_name, new_name);
        self.then_val.rename_identifiers(old_name, new_name);
        rename_else_ifs(&mut self.else_ifs, old_name, new_name);
        self.final_else.rename_identifiers(old_name, new_name);
        assert(self@.else_ifs =~= old(self)@.renamed(old_name@, new_name@).else_ifs);
    }
}

impl ImportItem {
    /// Gives the alias the new name if it bears the old one.
    pub fn rename_identifiers(&mut self, old_name: &str, new_name: &str)
        ensures
            final(self)@ == old(self)@.renamed(old_name@, new_name@),
    {
        match &mut self.alias {
            Some(alias) => alias.rename(old_name, new_name),
            None => {},
        }
    }
}

impl ImportStatement {
    /// Gives the new name to every alias that bears the old one.
    pub fn rename_identifiers(&mut self, old_name: &str, new_name: &str)
        ensures
            final(self)@ == old(self)@.renamed(old_name@, new_name@),
    {
        let mut i: usize = 0;
        while i < self.items.len()
            invariant
                i <= self.items.len(),
                self.items.len() == old(self).items.len(),
                self.start == old(self).start,
                self.end == old(self).end,
                self.path == old(self).path,
                self.raw_path == old(self).raw_path,
                self.digest == old(self).digest,
                forall|j: int|
                    0 <= j < i ==> (#[trigger] self.items[j])@ == old(self).items[j]@.renamed(
                        old_name@,
                        new_name@,
                    ),
                forall|j: int| i <= j < self.items.len() ==> (#[trigger] self.items[j]) == old(self).items[j],
            decreases self.items.len() - i,
        {
            self.items[i].rename_identifiers(old_name, new_name);
            i += 1;
        }
        assert(self@.items =~= old(self)@.renamed(old_name@, new_name@).items);
    }
}

impl VariableDeclarator {
    /// Gives the new name to every reference to the old one in the initial
    /// value, unless the declarator itself bears the new name.
    pub fn rename_identifiers(&mut self, old_name: &str, new_name: &str)
        ensures
            final(self)@ == old(self)@.renamed(old_name@, new_name@),
        decreases *old(self),
    {
        if !str_eq(self.id.name.as_str(), new_name) {
            self.init.rename_identifiers(old_name, new_name);
        }
    }
}

impl VariableDeclaration {
    /// Gives the new name to every reference to the old one in the initial values.
    pub fn rename_identifiers(&mut self, old_name: &str, new_name: &str)
        ensures
            final(self)@ == old(self)@.renamed(old_name@, new_name@),
        decreases *old(self),
    {
        rename_declarators(&mut self.declarations, old_name, new_name);
        assert(self@.declarations =~= old(self)@.renamed(old_name@, new_name@).declarations);
    }
}

impl BodyItem {
    /// Gives the new name to every reference to the old one in the statement.
    pub fn rename_identifiers(&mut self, old_name: &str, new_name: &str)
        ensures
            final(self)@ == old(self)@.renamed(old_name@, new_name@),
        decreases *old(self),
    {
        match self {
            BodyItem::ImportStatement(x) => x.rename_identifiers(old_name, new_name),
            BodyItem::ExpressionStatement(x) => x.expression.rename_identifiers(old_name, new_name),
            BodyItem::VariableDeclaration(x) => x.rename_identifiers(old_name, new_name),
            BodyItem::ReturnStatement(x) => x.argument.rename_identifiers(old_name, new_name),
        }
    }
}

impl Program {
    /// Gives the new name to every reference to the old one in every statement.
    pub fn rename_identifiers(&mut self, old_name: &str, new_name: &str)
        ensures
            final(self)@ == old(self)@.renamed(old_name@, new_name@),
        decreases *old(self),
    {
        rename_body(&mut self.body, old_name, new_name);
        assert(self@.body =~= old(self)@.renamed(old_name@, new_name@).body);
    }
}

impl ImportItemView {
    /// The name under which the item is known here: its alias, or else its own name.
    pub open spec fn bound_name(self) -> Seq<char> {
        match self.alias {
            Some(alias) => alias.name,
            None => self.name.name,
        }
    }

    /// Whether the item's binding is the one at `pos`: its alias where it has
    /// one and `pos` lies in it, the item itself where it has none.
    pub open spec fn binds(self, pos: usize) -> bool {
        match self.alias {
            Some(alias) => alias.start <= pos <= alias.end,
            None => true,
        }
    }

    /// The item once its binding at `pos` is taken up for renaming. An alias at
    /// `pos` gets the new name. An item without alias that holds `pos` gets its
    /// own name as alias, which renaming the references then turns into the new
    /// name.
    pub open spec fn rebound(self, new_name: Seq<char>, pos: usize) -> ImportItemView {
        match self.alias {
            Some(alias) => if alias.start <= pos <= alias.end {
                ImportItemView { alias: Some(IdentifierView { name: new_name, ..alias }), ..self }
            } else {
                self
            },
            None => if self.start <= pos <= self.end {
                ImportItemView {
                    alias: Some(
                        IdentifierView { start: 0, end: 0, name: self.name.name, digest: None },
                    ),
                    ..self
                }
            } else {
                self
            },
        }
    }
}

impl ImportStatementView {
    /// The index of the first item that holds `pos` and whose binding is at
    /// `pos`, or the number of items where there is none.
    pub open spec fn binding_index(self, pos: usize) -> int {
        first_index(
            self.items,
            |item: ImportItemView| item.start <= pos <= item.end && item.binds(pos),
        )
    }

    /// The statement once its binding at `pos` is taken up for renaming.
    pub open spec fn rebound(self, new_name: Seq<char>, pos: usize) -> ImportStatementView {
        let i = self.binding_index(pos);
        if i < self.items.len() {
            ImportStatementView {
                items: self.items.update(i, self.items[i].rebound(new_name, pos)),
                ..self
            }
        } else {
            self
        }
    }
}

impl VariableDeclarationView {
    /// The index of the first declarator whose name holds `pos`, or the number of
    /// declarators where there is none or `pos` lies outside the declaration.
    pub open spec fn binding_index(self, pos: usize) -> int {
        if self.start <= pos <= self.end {
            first_index(
                self.declarations,
                |d: VariableDeclaratorView| d.id.start <= pos <= d.id.end,
            )
        } else {
            self.declarations.len() as int
        }
    }

    /// The declaration with the name at `pos` replaced by the new name.
    pub open spec fn rebound(self, new_name: Seq<char>, pos: usize) -> VariableDeclarationView {
        let i = self.binding_index(pos);
        if i < self.declarations.len() {
            let d = self.declarations[i];
            VariableDeclarationView {
                declarations: self.declarations.update(
                    i,
                    VariableDeclaratorView { id: IdentifierView { name: new_name, ..d.id }, ..d },
                ),
                ..self
            }
        } else {
            self
        }
    }
}

impl FunctionExpressionView {
    /// The index of the first parameter whose name holds `pos`, or the number of
    /// parameters where there is none.
    pub open spec fn parameter_index(self, pos: usize) -> int {
        first_index(
            self.params,
            |p: ParameterView| p.identifier.start <= pos <= p.identifier.end,
        )
    }

    /// The function with its parameter at `pos` under the new name, in the
    /// parameter list and in the body. The function itself where no parameter is
    /// at `pos`.
    pub open spec fn parameter_renamed(self, new_name: Seq<char>, pos: usize) -> FunctionExpressionView {
        let i = self.parameter_index(pos);
        if i < self.params.len() {
            let p = self.params[i];
            FunctionExpressionView {
                params: self.params.update(
                    i,
                    ParameterView { identifier: IdentifierView { name: new_name, ..p.identifier }, ..p },
                ),
                body: self.body.renamed(p.identifier.name, new_name),
                ..self
            }
        } else {
            self
        }
    }
}

impl ExprView {
    /// A function literal with its parameter at `pos` renamed; any other
    /// expression as it is.
    pub open spec fn parameter_renamed(self, new_name: Seq<char>, pos: usize) -> ExprView {
        match self {
            ExprView::FunctionExpression(f) => ExprView::FunctionExpression(
                Box::new(f.parameter_renamed(new_name, pos)),
            ),
            _ => self,
        }
    }
}

impl BodyItemView {
    /// Whether the statement holds a binding at `pos`: an import's alias, or a
    /// declared name.
    pub open spec fn binds(self, pos: usize) -> bool {
        match self {
            BodyItemView::ImportStatement(x) => x.binding_index(pos) < x.items.len(),
            BodyItemView::VariableDeclaration(x) => x.binding_index(pos) < x.declarations.len(),
            _ => false,
        }
    }

    /// The name bound at `pos`, where the statement holds a binding there.
    pub open spec fn bound_name(self, pos: usize) -> Seq<char> {
        match self {
            BodyItemView::ImportStatement(x) => x.items[x.binding_index(pos)].bound_name(),
            BodyItemView::VariableDeclaration(x) => x.declarations[x.binding_index(pos)].id.name,
            _ => Seq::empty(),
        }
    }

    /// The statement once its binding at `pos` is taken up for renaming.
    pub open spec fn rebound(self, new_name: Seq<char>, pos: usize) -> BodyItemView {
        match self {
            BodyItemView::ImportStatement(x) => BodyItemView::ImportStatement(
                Box::new(x.rebound(new_name, pos)),
            ),
            BodyItemView::VariableDeclaration(x) => BodyItemView::VariableDeclaration(
                Box::new(x.rebound(new_name, pos)),
            ),
            _ => self,
        }
    }

    /// The statement with the parameter at `pos` renamed, where the expression
    /// that the statement has at `pos` is a function literal.
    pub open spec fn parameter_renamed(self, new_name: Seq<char>, pos: usize) -> BodyItemView {
        match self {
            BodyItemView::ImportStatement(_) => self,
            BodyItemView::ExpressionStatement(x) => BodyItemView::ExpressionStatement(
                ExpressionStatementView {
                    expression: x.expression.parameter_renamed(new_name, pos),
                    ..x
                },
            ),
            BodyItemView::VariableDeclaration(x) => {
                let i = x.declarator_index(pos);
                if i < x.declarations.len() {
                    let d = x.declarations[i];
                    BodyItemView::VariableDeclaration(
                        Box::new(
                            VariableDeclarationView {
                                declarations: x.declarations.update(
                                    i,
                                    VariableDeclaratorView {
                                        init: d.init.parameter_renamed(new_name, pos),
                                        ..d
                                    },
                                ),
                                ..*x
                            },
                        ),
                    )
                } else {
                    self
                }
            },
            BodyItemView::ReturnStatement(x) => BodyItemView::ReturnStatement(
                ReturnStatementView { argument: x.argument.parameter_renamed(new_name, pos), ..x },
            ),
        }
    }
}

impl ProgramView {
    /// The index of the first statement with a binding at `pos`, or the number
    /// of statements where there is none.
    pub open spec fn binding_index(self, pos: usize) -> int {
        first_index(self.body, |item: BodyItemView| item.binds(pos))
    }

    /// The program after the symbol at `pos` has been renamed.
    ///
    /// Where a statement of the program binds a name at `pos`, that binding gets
    /// the new name, and then so does every reference to the old name in the
    /// program. Else, where the expression at `pos` is a function literal with a
    /// parameter at `pos`, the parameter and the function's body are renamed.
    /// Else the program stays as it is.
    pub open spec fn symbol_renamed(self, new_name: Seq<char>, pos: usize) -> ProgramView {
        let i = self.binding_index(pos);
        if i < self.body.len() {
            ProgramView { body: self.body.update(i, self.body[i].rebound(new_name, pos)), ..self }.renamed(
                self.body[i].bound_name(pos),
                new_name,
            )
        } else {
            let k = self.item_index(pos);
            if k < self.body.len() {
                ProgramView {
                    body: self.body.update(k, self.body[k].parameter_renamed(new_name, pos)),
                    ..self
                }
            } else {
                self
            }
        }
    }
}

impl ImportItem {
    /// The name under which the item is known here: its alias, or else its own name.
    pub fn identifier(&self) -> (name: &str)
        ensures
            name@ == self@.bound_name(),
    {
        match &self.alias {
            Some(alias) => alias.name.as_str(),
            None => self.name.name.as_str(),
        }
    }

    /// Takes up the item's binding for renaming if it is at `pos`, and returns
    /// the name that was bound.
    pub fn rename_symbol(&mut self, new_name: &str, pos: usize) -> (old_name: Option<String>)
        ensures
            final(self)@ == old(self)@.rebound(new_name@, pos),
            old(self)@.binds(pos) ==> old_name is Some && old_name->0@ == old(self)@.bound_name(),
            !old(self)@.binds(pos) ==> old_name is None,
    {
        match &mut self.alias {
            Some(alias) => {
                if !(alias.start <= pos && pos <= alias.end) {
                    return None;
                }
                let old_name = alias.name.clone();
                alias.name = new_name.to_owned();
                Some(old_name)
            },
            None => {
                let old_name = self.name.name.clone();
                if self.start <= pos && pos <= self.end {
                    self.alias = Some(
                        Identifier { start: 0, end: 0, name: self.name.name.clone(), digest: None },
                    );
                }
                Some(old_name)
            },
        }
    }
}

impl ImportStatement {
    /// The index of the first item that holds `pos` and whose binding is at `pos`.
    fn binding_index(&self, pos: usize) -> (index: usize)
        ensures
            index == self@.binding_index(pos),
            index <= self.items.len(),
    {
        let ghost p = |item: ImportItemView| item.start <= pos <= item.end && item.binds(pos);
        let mut i: usize = 0;
        while i < self.items.len()
            invariant
                i <= self.items.len(),
                p == |item: ImportItemView| item.start <= pos <= item.end && item.binds(pos),
                forall|j: int| 0 <= j < i ==> !p(#[trigger] self@.items[j]),
            decreases self.items.len() - i,
        {
            let item = &self.items[i];
            let binds = match &item.alias {
                Some(alias) => alias.start <= pos && pos <= alias.end,
                None => true,
            };
            if item.start <= pos && pos <= item.end && binds {
                assert(p(self@.items[i as int]));
                proof {
                    lemma_first_index_is(self@.items, p, i as int);
                }
                return i;
            }
            assert(!p(self@.items[i as int]));
            i += 1;
        }
        proof {
            lemma_first_index_is(self@.items, p, i as int);
        }
        i
    }

    /// Takes up for renaming the binding at `pos` among the items, and returns
    /// the name that was bound; `None`, and no change, where no item binds there.
    pub fn rename_symbol(&mut self, new_name: &str, pos: usize) -> (old_name: Option<String>)
        ensures
            final(self)@ == old(self)@.rebound(new_name@, pos),
            old(self)@.binding_index(pos) < old(self)@.items.len() ==> old_name is Some
                && old_name->0@ == old(self)@.items[old(self)@.binding_index(pos)].bound_name(),
            old(self)@.binding_index(pos) >= old(self)@.items.len() ==> old_name is None,
    {
        let i = self.binding_index(pos);
        proof {
            lemma_first_index(
                self@.items,
                |item: ImportItemView| item.start <= pos <= item.end && item.binds(pos),
            );
        }
        if i < self.items.len() {
            let old_name = self.items[i].rename_symbol(new_name, pos);
            assert(self@.items =~= old(self)@.rebound(new_name@, pos).items);
            old_name
        } else {
            None
        }
    }
}

impl VariableDeclaration {
    /// The index of the first declarator whose name holds `pos`.
    fn binding_index(&self, pos: usize) -> (index: usize)
        ensures
            index == self@.binding_index(pos),
            index <= self.declarations.len(),
    {
        if !(self.start <= pos && pos <= self.end) {
            return self.declarations.len();
        }
        let ghost p = |d: VariableDeclaratorView| d.id.start <= pos <= d.id.end;
        let mut i: usize = 0;
        while i < self.declarations.len()
            invariant
                i <= self.declarations.len(),
                self.start <= pos <= self.end,
                p == |d: VariableDeclaratorView| d.id.start <= pos <= d.id.end,
                forall|j: int| 0 <= j < i ==> !p(#[trigger] self@.declarations[j]),
            decreases self.declarations.len() - i,
        {
            let d = &self.declarations[i];
            if d.id.start <= pos && pos <= d.id.end {
                assert(p(self@.declarations[i as int]));
                proof {
                    lemma_first_index_is(self@.declarations, p, i as int);
                }
                return i;
            }
            assert(!p(self@.declarations[i as int]));
            i += 1;
        }
        proof {
            lemma_first_index_is(self@.declarations, p, i as int);
        }
        i
    }

    /// Gives the new name to the declared name at `pos`, and returns the old
    /// one; `None`, and no change, where no declared name is at `pos`.
    pub fn rename_symbol(&mut self, new_name: &str, pos: usize) -> (old_name: Option<String>)
        ensures
            final(self)@ == old(self)@.rebound(new_name@, pos),
            old(self)@.binding_index(pos) < old(self)@.declarations.len() ==> old_name is Some
                && old_name->0@ == old(self)@.declarations[old(self)@.binding_index(pos)].id.name,
            old(self)@.binding_index(pos) >= old(self)@.declarations.len() ==> old_name is None,
    {
        let i = self.binding_index(pos);
        if i < self.declarations.len() {
            let old_name = self.declarations[i].id.name.clone();
            self.declarations[i].id.name = new_name.to_owned();
            assert(self@.declarations =~= old(self)@.rebound(new_name@, pos).declarations);
            Some(old_name)
        } else {
            None
        }
    }
}

impl FunctionExpression {
    /// The index of the first parameter whose name holds `pos`.
    fn parameter_index(&self, pos: usize) -> (index: usize)
        ensures
            index == self@.parameter_index(pos),
            index <= self.params.len(),
    {
        let ghost p = |q: ParameterView| q.identifier.start <= pos <= q.identifier.end;
        let mut i: usize = 0;
        while i < self.params.len()
            invariant
                i <= self.params.len(),
                p == |q: ParameterView| q.identifier.start <= pos <= q.identifier.end,
                forall|j: int| 0 <= j < i ==> !p(#[trigger] self@.params[j]),
            decreases self.params.len() - i,
        {
            let q = &self.params[i];
            if q.identifier.start <= pos && pos <= q.identifier.end {
                assert(p(self@.params[i as int]));
                proof {
                    lemma_first_index_is(self@.params, p, i as int);
                }
                return i;
            }
            assert(!p(self@.params[i as int]));
            i += 1;
        }
        proof {
            lemma_first_index_is(self@.params, p, i as int);
        }
        i
    }

    /// Renames the parameter at `pos`, in the parameter list and in the body.
    /// No change where no parameter is at `pos`.
    pub fn rename_parameter(&mut self, new_name: &str, pos: usize)
        ensures
            final(self)@ == old(self)@.parameter_renamed(new_name@, pos),
    {
        let i = self.parameter_index(pos);
        if i < self.params.len() {
            let old_name = self.params[i].identifier.name.clone();
            self.params[i].identifier.name = new_name.to_owned();
            self.body.rename_identifiers(old_name.as_str(), new_name);
            assert(self@.params =~= old(self)@.parameter_renamed(new_name@, pos).params);
        }
    }
}

impl Expr {
    /// Renames the parameter at `pos` where the expression is a function
    /// literal. No change else.
    pub fn rename_parameter(&mut self, new_name: &str, pos: usize)
        ensures
            final(self)@ == old(self)@.parameter_renamed(new_name@, pos),
    {
        match self {
            Expr::FunctionExpression(f) => f.rename_parameter(new_name, pos),
            _ => {},
        }
    }
}

impl BodyItem {
    /// Takes up for renaming the binding that the statement holds at `pos`, and
    /// returns the name that was bound; `None`, and no change, where it holds none.
    fn rename_binding(&mut self, new_name: &str, pos: usize) -> (old_name: Option<String>)
        ensures
            final(self)@ == old(self)@.rebound(new_name@, pos),
            old(self)@.binds(pos) ==> old_name is Some && old_name->0@ == old(self)@.bound_name(pos),
            !old(self)@.binds(pos) ==> old_name is None && final(self)@ == old(self)@,
    {
        match self {
            BodyItem::ImportStatement(x) => x.rename_symbol(new_name, pos),
            BodyItem::VariableDeclaration(x) => x.rename_symbol(new_name, pos),
            _ => None,
        }
    }

    /// Renames the parameter at `pos`, where the expression that the statement
    /// has at `pos` is a function literal.
    fn rename_parameter(&mut self, new_name: &str, pos: usize)
        ensures
            final(self)@ == old(self)@.parameter_renamed(new_name@, pos),
    {
        match self {
            BodyItem::ImportStatement(_) => {},
            BodyItem::ExpressionStatement(x) => x.expression.rename_parameter(new_name, pos),
            BodyItem::VariableDeclaration(x) => {
                let i = x.declarator_index(pos);
                if i < x.declarations.len() {
                    x.declarations[i].init.rename_parameter(new_name, pos);
                    assert(x@.declarations =~= old(self)@.parameter_renamed(
                        new_name@,
                        pos,
                    )->VariableDeclaration_0.declarations);
                }
            },
            BodyItem::ReturnStatement(x) => x.argument.rename_parameter(new_name, pos),
        }
    }
}

impl Program {
    /// Renames the symbol at `pos`.
    ///
    /// Where a statement of the program binds a name at `pos`, as an import's
    /// alias or as a declared name, that binding gets the new name, and then so
    /// does every reference to the old name in the program. Else, where the
    /// expression at `pos` is a function literal with a parameter at `pos`, the
    /// parameter and the function's body are renamed. Else nothing changes.
    pub fn rename_symbol(&mut self, new_name: &str, pos: usize)
        ensures
            final(self)@ == old(self)@.symbol_renamed(new_name@, pos),
    {
        let ghost p = |item: BodyItemView| item.binds(pos);
        let mut old_name: Option<String> = None;
        let mut i: usize = 0;
        while i < self.body.len() && old_name.is_none()
            invariant
                i <= self.body.len(),
                self.body.len() == old(self).body.len(),
                self.start == old(self).start,
                self.end == old(self).end,
                self.non_code_meta == old(self).non_code_meta,
                self.digest == old(self).digest,
                p == |item: BodyItemView| item.binds(pos),
                old_name is None ==> forall|j: int| 0 <= j < i ==> !p(#[trigger] old(self)@.body[j]),
                old_name is None ==> forall|j: int|
                    0 <= j < self.body.len() ==> (#[trigger] self.body[j])@ == old(self).body[j]@,
                old_name is Some ==> {
                    &&& 0 < i
                    &&& old(self)@.binding_index(pos) == i - 1
                    &&& old_name->0@ == old(self)@.body[i - 1].bound_name(pos)
                    &&& self@.body == old(self)@.body.update(
                        i - 1,
                        old(self)@.body[i - 1].rebound(new_name@, pos),
                    )
                },
            decreases self.body.len() - i,
        {
            old_name = self.body[i].rename_binding(new_name, pos);
            proof {
                if old_name is Some {
                    assert(p(old(self)@.body[i as int]));
                    lemma_first_index_is(old(self)@.body, p, i as int);
                    assert(self@.body =~= old(self)@.body.update(
                        i as int,
                        old(self)@.body[i as int].rebound(new_name@, pos),
                    ));
                } else {
                    assert(!p(old(self)@.body[i as int]));
                }
            }
            i += 1;
        }
        match old_name {
            Some(old_name) => {
                self.rename_identifiers(old_name.as_str(), new_name);
            },
            None => {
                proof {
                    lemma_first_index_is(old(self)@.body, p, i as int);
                    assert(self@.body =~= old(self)@.body);
                }
                let k = self.item_index(pos);
                if k < self.body.len() {
                    self.body[k].rename_parameter(new_name, pos);
                    assert(self@.body =~= old(self)@.body.update(
                        k as int,
                        old(self)@.body[k as int].parameter_renamed(new_name@, pos),
                    ));
                }
            },
        }
    }
}

} // verus!
