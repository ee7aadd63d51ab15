//! What holds of renaming.
//!
//! Renaming a name to one that is not in use and then back restores every
//! name. This holds of renaming the references alone, and of renaming the
//! symbol at a position, binding and references. Two things can stand in the
//! way, and are left out. A name that is in use already cannot be told from
//! the new one on the way back. And a declarator is passed over while the name
//! it bears is the one given: one that bears the old name and refers to that
//! name in its own initial value is renamed inside on the way there and passed
//! over on the way back.

use crate::model::{
    ArrayExpressionView, ArrayRangeExpressionView, BinaryExpressionView, BinaryPartView,
    BodyItemView, CallExpressionView, ElseIfView, ExprView, ExpressionStatementView,
    FunctionExpressionView, IdentifierView, IfExpressionView, ImportItemView, ImportStatementView,
    LiteralIdentifierView, MemberExpressionView, MemberObjectView, ObjectExpressionView,
    ObjectPropertyView, PipeExpressionView, ProgramView, ReturnStatementView,
    TagDeclaratorView, UnaryExpressionView, VariableDeclarationView, VariableDeclaratorView,
};
use crate::text::{first_index, lemma_first_index, lemma_first_index_is};
use vstd::prelude::*;

verus! {

impl IdentifierView {
    /// Whether a name that renaming reaches in here is the name given.
    pub open spec fn mentions(self, name: Seq<char>) -> bool
        decreases self,
    {
        self.name == name
    }

    /// Whether a declarator in here bears the name given and refers to that name in its own initial value.
    pub open spec fn self_referring(self, name: Seq<char>) -> bool
        decreases self,
    {
        false
    }
}

impl TagDeclaratorView {
    /// Whether a name that renaming reaches in here is the name given.
    pub open spec fn mentions(self, name: Seq<char>) -> bool
        decreases self,
    {
        self.name == name
    }

    /// Whether a declarator in here bears the name given and refers to that name in its own initial value.
    pub open spec fn self_referring(self, name: Seq<char>) -> bool
        decreases self,
    {
        false
    }
}

impl ExprView {
    /// Whether a name that renaming reaches in here is the name given.
    pub open spec fn mentions(self, name: Seq<char>) -> bool
        decreases self,
    {
        match self {
            ExprView::Identifier(x) => x.mentions(name),
            ExprView::TagDeclarator(x) => x.mentions(name),
            ExprView::BinaryExpression(x) => x.mentions(name),
            ExprView::CallExpression(x) => x.mentions(name),
            ExprView::PipeExpression(x) => x.mentions(name),
            ExprView::ArrayExpression(x) => x.mentions(name),
            ExprView::ArrayRangeExpression(x) => x.mentions(name),
            ExprView::ObjectExpression(x) => x.mentions(name),
            ExprView::MemberExpression(x) => x.mentions(name),
            ExprView::UnaryExpression(x) => x.mentions(name),
            ExprView::IfExpression(x) => x.mentions(name),
            ExprView::Literal(_) => false,
            ExprView::FunctionExpression(x) => x.mentions(name),
            ExprView::PipeSubstitution(_) => false,
            ExprView::KclNone(_) => false,
        }
    }

    /// Whether a declarator in here bears the name given and refers to that name in its own initial value.
    pub open spec fn self_referring(self, name: Seq<char>) -> bool
        decreases self,
    {
        match self {
            ExprView::Identifier(x) => x.self_referring(name),
            ExprView::TagDeclarator(x) => x.self_referring(name),
            ExprView::BinaryExpression(x) => x.self_referring(name),
            ExprView::CallExpression(x) => x.self_referring(name),
            ExprView::PipeExpression(x) => x.self_referring(name),
            ExprView::ArrayExpression(x) => x.self_referring(name),
            ExprView::ArrayRangeExpression(x) => x.self_referring(name),
            ExprView::ObjectExpression(x) => x.self_referring(name),
            ExprView::MemberExpression(x) => x.self_referring(name),
            ExprView::UnaryExpression(x) => x.self_referring(name),
            ExprView::IfExpression(x) => x.self_referring(name),
            ExprView::Literal(_) => false,
            ExprView::FunctionExpression(x) => x.self_referring(name),
            ExprView::PipeSubstitution(_) => false,
            ExprView::KclNone(_) => false,
        }
    }
}

impl FunctionExpressionView {
    /// Whether a name that renaming reaches in here is the name given, or a
    /// parameter bears it.
    pub open spec fn mentions(self, name: Seq<char>) -> bool
        decreases self,
    {
        self.has_parameter(name) || self.body.mentions(name)
    }

    /// Whether a declarator that renaming reaches in here bears the name given
    /// and refers to that name in its own initial value. Behind a parameter of
    /// the name renaming reaches nothing.
    pub open spec fn self_referring(self, name: Seq<char>) -> bool
        decreases self,
    {
        !self.has_parameter(name) && self.body.self_referring(name)
    }
}

impl BinaryPartView {
    /// Whether a name that renaming reaches in here is the name given.
    pub open spec fn mentions(self, name: Seq<char>) -> bool
        decreases self,
    {
        match self {
            BinaryPartView::Identifier(x) => x.mentions(name),
            BinaryPartView::BinaryExpression(x) => x.mentions(name),
            BinaryPartView::CallExpression(x) => x.mentions(name),
            BinaryPartView::UnaryExpression(x) => x.mentions(name),
            BinaryPartView::MemberExpression(x) => x.mentions(name),
            BinaryPartView::IfExpression(x) => x.mentions(name),
            BinaryPartView::Literal(_) => false,
        }
    }

    /// Whether a declarator in here bears the name given and refers to that name in its own initial value.
    pub open spec fn self_referring(self, name: Seq<char>) -> bool
        decreases self,
    {
        match self {
            BinaryPartView::Identifier(x) => x.self_referring(name),
            BinaryPartView::BinaryExpression(x) => x.self_referring(name),
            BinaryPartView::CallExpression(x) => x.self_referring(name),
            BinaryPartView::UnaryExpression(x) => x.self_referring(name),
            BinaryPartView::MemberExpression(x) => x.self_referring(name),
            BinaryPartView::IfExpression(x) => x.self_referring(name),
            BinaryPartView::Literal(_) => false,
        }
    }
}

impl BinaryExpressionView {
    /// Whether a name that renaming reaches in here is the name given.
    pub open spec fn mentions(self, name: Seq<char>) -> bool
        decreases self,
    {
        ||| self.left.mentions(name)
        ||| self.right.mentions(name)
    }

    /// Whether a declarator in here bears the name given and refers to that name in its own initial value.
    pub open spec fn self_referring(self, name: Seq<char>) -> bool
        decreases self,
    {
        ||| self.left.self_referring(name)
        ||| self.right.self_referring(name)
    }
}

impl UnaryExpressionView {
    /// Whether a name that renaming reaches in here is the name given.
    pub open spec fn mentions(self, name: Seq<char>) -> bool
        decreases self,
    {
        ||| self.argument.mentions(name)
    }

    /// Whether a declarator in here bears the name given and refers to that name in its own initial value.
    pub open spec fn self_referring(self, name: Seq<char>) -> bool
        decreases self,
    {
        ||| self.argument.self_referring(name)
    }
}

impl CallExpressionView {
    /// Whether a name that renaming reaches in here is the name given.
    pub open spec fn mentions(self, name: Seq<char>) -> bool
        decreases self,
    {
        ||| self.callee.mentions(name)
        ||| exists|i: int| 0 <= i < self.arguments.len() && (#[trigger] self.arguments[i]).mentions(name)
    }

    /// Whether a declarator in here bears the name given and refers to that name in its own initial value.
    pub open spec fn self_referring(self, name: Seq<char>) -> bool
        decreases self,
    {
        ||| self.callee.self_referring(name)
        ||| exists|i: int| 0 <= i < self.arguments.len() && (#[trigger] self.arguments[i]).self_referring(name)
    }
}

impl PipeExpressionView {
    /// Whether a name that renaming reaches in here is the name given.
    pub open spec fn mentions(self, name: Seq<char>) -> bool
        decreases self,
    {
        ||| exists|i: int| 0 <= i < self.body.len() && (#[trigger] self.body[i]).mentions(name)
    }

    /// Whether a declarator in here bears the name given and refers to that name in its own initial value.
    pub open spec fn self_referring(self, name: Seq<char>) -> bool
        decreases self,
    {
        ||| exists|i: int| 0 <= i < self.body.len() && (#[trigger] self.body[i]).self_referring(name)
    }
}

impl ArrayExpressionView {
    /// Whether a name that renaming reaches in here is the name given.
    pub open spec fn mentions(self, name: Seq<char>) -> bool
        decreases self,
    {
        ||| exists|i: int| 0 <= i < self.elements.len() && (#[trigger] self.elements[i]).mentions(name)
    }

    /// Whether a declarator in here bears the name given and refers to that name in its own initial value.
    pub open spec fn self_referring(self, name: Seq<char>) -> bool
        decreases self,
    {
        ||| exists|i: int| 0 <= i < self.elements.len() && (#[trigger] self.elements[i]).self_referring(name)
    }
}

impl ArrayRangeExpressionView {
    /// Whether a name that renaming reaches in here is the name given.
    pub open spec fn mentions(self, name: Seq<char>) -> bool
        decreases self,
    {
        ||| self.start_element.mentions(name)
        ||| self.end_element.mentions(name)
    }

    /// Whether a declarator in here bears the name given and refers to that name in its own initial value.
    pub open spec fn self_referring(self, name: Seq<char>) -> bool
        decreases self,
    {
        ||| self.start_element.self_referring(name)
        ||| self.end_element.self_referring(name)
    }
}

impl ObjectPropertyView {
    /// Whether a name that renaming reaches in here is the name given.
    pub open spec fn mentions(self, name: Seq<char>) -> bool
        decreases self,
    {
        ||| self.value.mentions(name)
    }

    /// Whether a declarator in here bears the name given and refers to that name in its own initial value.
    pub open spec fn self_referring(self, name: Seq<char>) -> bool
        decreases self,
    {
        ||| self.value.self_referring(name)
    }
}

impl ObjectExpressionView {
    /// Whether a name that renaming reaches in here is the name given.
    pub open spec fn mentions(self, name: Seq<char>) -> bool
        decreases self,
    {
        ||| exists|i: int| 0 <= i < self.properties.len() && (#[trigger] self.properties[i]).mentions(name)
    }

    /// Whether a declarator in here bears the name given and refers to that name in its own initial value.
    pub open spec fn self_referring(self, name: Seq<char>) -> bool
        decreases self,
    {
        ||| exists|i: int| 0 <= i < self.properties.len() && (#[trigger] self.properties[i]).self_referring(name)
    }
}

impl MemberObjectView {
    /// Whether a name that renaming reaches in here is the name given.
    pub open spec fn mentions(self, name: Seq<char>) -> bool
        decreases self,
    {
        match self {
            MemberObjectView::MemberExpression(x) => x.mentions(name),
            MemberObjectView::Identifier(x) => x.mentions(name),
        }
    }

    /// Whether a declarator in here bears the name given and refers to that name in its own initial value.
    pub open spec fn self_referring(self, name: Seq<char>) -> bool
        decreases self,
    {
        match self {
            MemberObjectView::MemberExpression(x) => x.self_referring(name),
            MemberObjectView::Identifier(x) => x.self_referring(name),
        }
    }
}

impl LiteralIdentifierView {
    /// Whether a name that renaming reaches in here is the name given.
    pub open spec fn mentions(self, name: Seq<char>) -> bool
        decreases self,
    {
        match self {
            LiteralIdentifierView::Identifier(x) => x.mentions(name),
            LiteralIdentifierView::Literal(_) => false,
        }
    }

    /// Whether a declarator in here bears the name given and refers to that name in its own initial value.
    pub open spec fn self_referring(self, name: Seq<char>) -> bool
        decreases self,
    {
        match self {
            LiteralIdentifierView::Identifier(x) => x.self_referring(name),
            LiteralIdentifierView::Literal(_) => false,
        }
    }
}

impl MemberExpressionView {
    /// Whether a name that renaming reaches in here is the name given.
    pub open spec fn mentions(self, name: Seq<char>) -> bool
        decreases self,
    {
        self.object.mentions(name) || (self.computed && self.property.mentions(name))
    }

    /// Whether a declarator in here bears the name given and refers to that name in its own initial value.
    pub open spec fn self_referring(self, name: Seq<char>) -> bool
        decreases self,
    {
        false
    }
}

impl ElseIfView {
    /// Whether a name that renaming reaches in here is the name given.
    pub open spec fn mentions(self, name: Seq<char>) -> bool
        decreases self,
    {
        ||| self.cond.mentions(name)
        ||| self.then_val.mentions(name)
    }

    /// Whether a declarator in here bears the name given and refers to that name in its own initial value.
    pub open spec fn self_referring(self, name: Seq<char>) -> bool
        decreases self,
    {
        ||| self.cond.self_referring(name)
        ||| self.then_val.self_referring(name)
    }
}

impl IfExpressionView {
    /// Whether a name that renaming reaches in here is the name given.
    pub open spec fn mentions(self, name: Seq<char>) -> bool
        decreases self,
    {
        ||| self.cond.mentions(name)
        ||| self.then_val.mentions(name)
        ||| exists|i: int| 0 <= i < self.else_ifs.len() && (#[trigger] self.else_ifs[i]).mentions(name)
        ||| self.final_else.mentions(name)
    }

    /// Whether a declarator in here bears the name given and refers to that name in its own initial value.
    pub open spec fn self_referring(self, name: Seq<char>) -> bool
        decreases self,
    {
        ||| self.cond.self_referring(name)
        ||| self.then_val.self_referring(name)
        ||| exists|i: int| 0 <= i < self.else_ifs.len() && (#[trigger] self.else_ifs[i]).self_referring(name)
        ||| self.final_else.self_referring(name)
    }
}

impl ImportItemView {
    /// Whether a name that renaming reaches in here is the name given.
    pub open spec fn mentions(self, name: Seq<char>) -> bool
        decreases self,
    {
        match self.alias {
            Some(alias) => alias.mentions(name),
            None => false,
        }
    }

    /// Whether a declarator in here bears the name given and refers to that name in its own initial value.
    pub open spec fn self_referring(self, name: Seq<char>) -> bool
        decreases self,
    {
        false
    }
}

impl ImportStatementView {
    /// Whether a name that renaming reaches in here is the name given.
    pub open spec fn mentions(self, name: Seq<char>) -> bool
        decreases self,
    {
        ||| exists|i: int| 0 <= i < self.items.len() && (#[trigger] self.items[i]).mentions(name)
    }

    /// Whether a declarator in here bears the name given and refers to that name in its own initial value.
    pub open spec fn self_referring(self, name: Seq<char>) -> bool
        decreases self,
    {
        ||| exists|i: int| 0 <= i < self.items.len() && (#[trigger] self.items[i]).self_referring(name)
    }
}

impl VariableDeclaratorView {
    /// Whether a name that renaming reaches in here is the name given.
    pub open spec fn mentions(self, name: Seq<char>) -> bool
        decreases self,
    {
        self.init.mentions(name)
    }

    /// Whether a declarator in here bears the name given and refers to that name in its own initial value.
    pub open spec fn self_referring(self, name: Seq<char>) -> bool
        decreases self,
    {
        (self.id.name == name && self.init.mentions(name)) || self.init.self_referring(name)
    }
}

impl VariableDeclarationView {
    /// Whether a name that renaming reaches in here is the name given.
    pub open spec fn mentions(self, name: Seq<char>) -> bool
        decreases self,
    {
        ||| exists|i: int| 0 <= i < self.declarations.len() && (#[trigger] self.declarations[i]).mentions(name)
    }

    /// Whether a declarator in here bears the name given and refers to that name in its own initial value.
    pub open spec fn self_referring(self, name: Seq<char>) -> bool
        decreases self,
    {
        ||| exists|i: int| 0 <= i < self.declarations.len() && (#[trigger] self.declarations[i]).self_referring(name)
    }
}

impl ExpressionStatementView {
    /// Whether a name that renaming reaches in here is the name given.
    pub open spec fn mentions(self, name: Seq<char>) -> bool
        decreases self,
    {
        ||| self.expression.mentions(name)
    }

    /// Whether a declarator in here bears the name given and refers to that name in its own initial value.
    pub open spec fn self_referring(self, name: Seq<char>) -> bool
        decreases self,
    {
        ||| self.expression.self_referring(name)
    }
}

impl ReturnStatementView {
    /// Whether a name that renaming reaches in here is the name given.
    pub open spec fn mentions(self, name: Seq<char>) -> bool
        decreases self,
    {
        ||| self.argument.mentions(name)
    }

    /// Whether a declarator in here bears the name given and refers to that name in its own initial value.
    pub open spec fn self_referring(self, name: Seq<char>) -> bool
        decreases self,
    {
        ||| self.argument.self_referring(name)
    }
}

impl BodyItemView {
    /// Whether a name that renaming reaches in here is the name given.
    pub open spec fn mentions(self, name: Seq<char>) -> bool
        decreases self,
    {
        match self {
            BodyItemView::ImportStatement(x) => x.mentions(name),
            BodyItemView::ExpressionStatement(x) => x.mentions(name),
            BodyItemView::VariableDeclaration(x) => x.mentions(name),
            BodyItemView::ReturnStatement(x) => x.mentions(name),
        }
    }

    /// Whether a declarator in here bears the name given and refers to that name in its own initial value.
    pub open spec fn self_referring(self, name: Seq<char>) -> bool
        decreases self,
    {
        match self {
            BodyItemView::ImportStatement(x) => x.self_referring(name),
            BodyItemView::ExpressionStatement(x) => x.self_referring(name),
            BodyItemView::VariableDeclaration(x) => x.self_referring(name),
            BodyItemView::ReturnStatement(x) => x.self_referring(name),
        }
    }
}

impl ProgramView {
    /// Whether a name that renaming reaches in here is the name given.
    pub open spec fn mentions(self, name: Seq<char>) -> bool
        decreases self,
    {
        ||| exists|i: int| 0 <= i < self.body.len() && (#[trigger] self.body[i]).mentions(name)
    }

    /// Whether a declarator in here bears the name given and refers to that name in its own initial value.
    pub open spec fn self_referring(self, name: Seq<char>) -> bool
        decreases self,
    {
        ||| exists|i: int| 0 <= i < self.body.len() && (#[trigger] self.body[i]).self_referring(name)
    }
}

impl IdentifierView {
    /// Renaming a name that is not borne in here changes nothing.
    pub proof fn lemma_unmentioned(self, old_name: Seq<char>, new_name: Seq<char>)
        requires
            !self.mentions(old_name),
        ensures
            self.renamed(old_name, new_name) == self,
        decreases self,
    {
    }

    /// Renaming to a name that is not in use, and back, restores every name.
    pub proof fn lemma_there_and_back(self, old_name: Seq<char>, new_name: Seq<char>)
        requires
            !self.mentions(new_name),
            !self.self_referring(old_name),
        ensures
            self.renamed(old_name, new_name).renamed(new_name, old_name) == self,
        decreases self,
    {
    }
}

impl TagDeclaratorView {
    /// Renaming a name that is not borne in here changes nothing.
    pub proof fn lemma_unmentioned(self, old_name: Seq<char>, new_name: Seq<char>)
        requires
            !self.mentions(old_name),
        ensures
            self.renamed(old_name, new_name) == self,
        decreases self,
    {
    }

    /// Renaming to a name that is not in use, and back, restores every name.
    pub proof fn lemma_there_and_back(self, old_name: Seq<char>, new_name: Seq<char>)
        requires
            !self.mentions(new_name),
            !self.self_referring(old_name),
        ensures
            self.renamed(old_name, new_name).renamed(new_name, old_name) == self,
        decreases self,
    {
    }
}

impl ExprView {
    /// Renaming a name that is not borne in here changes nothing.
    #[verifier::rlimit(60)]
    pub proof fn lemma_unmentioned(self, old_name: Seq<char>, new_name: Seq<char>)
        requires
            !self.mentions(old_name),
        ensures
            self.renamed(old_name, new_name) == self,
        decreases self,
    {
        match self {
            ExprView::Identifier(x) => {
                x.lemma_unmentioned(old_name, new_name);
            },
            ExprView::TagDeclarator(x) => {
                x.lemma_unmentioned(old_name, new_name);
            },
            ExprView::BinaryExpression(x) => {
                x.lemma_unmentioned(old_name, new_name);
            },
            ExprView::CallExpression(x) => {
                x.lemma_unmentioned(old_name, new_name);
            },
            ExprView::PipeExpression(x) => {
                x.lemma_unmentioned(old_name, new_name);
            },
            ExprView::ArrayExpression(x) => {
                x.lemma_unmentioned(old_name, new_name);
            },
            ExprView::ArrayRangeExpression(x) => {
                x.lemma_unmentioned(old_name, new_name);
            },
            ExprView::ObjectExpression(x) => {
                x.lemma_unmentioned(old_name, new_name);
            },
            ExprView::MemberExpression(x) => {
                x.lemma_unmentioned(old_name, new_name);
            },
            ExprView::UnaryExpression(x) => {
                x.lemma_unmentioned(old_name, new_name);
            },
            ExprView::IfExpression(x) => {
                x.lemma_unmentioned(old_name, new_name);
            },
            ExprView::Literal(_) => {},
            ExprView::FunctionExpression(x) => {
                x.lemma_unmentioned(old_name, new_name);
            },
            ExprView::PipeSubstitution(_) => {},
            ExprView::KclNone(_) => {},
        }
    }

    /// Renaming to a name that is not in use, and back, restores every name.
    #[verifier::rlimit(60)]
    pub proof fn lemma_there_and_back(self, old_name: Seq<char>, new_name: Seq<char>)
        requires
            !self.mentions(new_name),
            !self.self_referring(old_name),
        ensures
            self.renamed(old_name, new_name).renamed(new_name, old_name) == self,
        decreases self,
    {
        match self {
            ExprView::Identifier(x) => {
                x.lemma_there_and_back(old_name, new_name);
            },
            ExprView::TagDeclarator(x) => {
                x.lemma_there_and_back(old_name, new_name);
            },
            ExprView::BinaryExpression(x) => {
                x.lemma_there_and_back(old_name, new_name);
            },
            ExprView::CallExpression(x) => {
                x.lemma_there_and_back(old_name, new_name);
            },
            ExprView::PipeExpression(x) => {
                x.lemma_there_and_back(old_name, new_name);
            },
            ExprView::ArrayExpression(x) => {
                x.lemma_there_and_back(old_name, new_name);
            },
            ExprView::ArrayRangeExpression(x) => {
                x.lemma_there_and_back(old_name, new_name);
            },
            ExprView::ObjectExpression(x) => {
                x.lemma_there_and_back(old_name, new_name);
            },
            ExprView::MemberExpression(x) => {
                x.lemma_there_and_back(old_name, new_name);
            },
            ExprView::UnaryExpression(x) => {
                x.lemma_there_and_back(old_name, new_name);
            },
            ExprView::IfExpression(x) => {
                x.lemma_there_and_back(old_name, new_name);
            },
            ExprView::Literal(_) => {},
            ExprView::FunctionExpression(x) => {
                x.lemma_there_and_back(old_name, new_name);
            },
            ExprView::PipeSubstitution(_) => {},
            ExprView::KclNone(_) => {},
        }
    }
}

impl FunctionExpressionView {
    /// Renaming a name that is not borne in here changes nothing.
    pub proof fn lemma_unmentioned(self, old_name: Seq<char>, new_name: Seq<char>)
        requires
            !self.mentions(old_name),
        ensures
            self.renamed(old_name, new_name) == self,
        decreases self,
    {
        self.body.lemma_unmentioned(old_name, new_name);
    }

    /// Renaming to a name that is not in use, and back, restores every name.
    pub proof fn lemma_there_and_back(self, old_name: Seq<char>, new_name: Seq<char>)
        requires
            !self.mentions(new_name),
            !self.self_referring(old_name),
        ensures
            self.renamed(old_name, new_name).renamed(new_name, old_name) == self,
        decreases self,
    {
        if self.has_parameter(old_name) {
            self.body.lemma_unmentioned(new_name, old_name);
        } else {
            let there = self.renamed(old_name, new_name);
            assert(there.params == self.params);
            assert(!there.has_parameter(new_name));
            self.body.lemma_there_and_back(old_name, new_name);
        }
    }
}

impl BinaryPartView {
    /// Renaming a name that is not borne in here changes nothing.
    pub proof fn lemma_unmentioned(self, old_name: Seq<char>, new_name: Seq<char>)
        requires
            !self.mentions(old_name),
        ensures
            self.renamed(old_name, new_name) == self,
        decreases self,
    {
        match self {
            BinaryPartView::Identifier(x) => {
                x.lemma_unmentioned(old_name, new_name);
            },
            BinaryPartView::BinaryExpression(x) => {
                x.lemma_unmentioned(old_name, new_name);
            },
            BinaryPartView::CallExpression(x) => {
                x.lemma_unmentioned(old_name, new_name);
            },
            BinaryPartView::UnaryExpression(x) => {
                x.lemma_unmentioned(old_name, new_name);
            },
            BinaryPartView::MemberExpression(x) => {
                x.lemma_unmentioned(old_name, new_name);
            },
            BinaryPartView::IfExpression(x) => {
                x.lemma_unmentioned(old_name, new_name);
            },
            BinaryPartView::Literal(_) => {},
        }
    }

    /// Renaming to a name that is not in use, and back, restores every name.
    pub proof fn lemma_there_and_back(self, old_name: Seq<char>, new_name: Seq<char>)
        requires
            !self.mentions(new_name),
            !self.self_referring(old_name),
        ensures
            self.renamed(old_name, new_name).renamed(new_name, old_name) == self,
        decreases self,
    {
        match self {
            BinaryPartView::Identifier(x) => {
                x.lemma_there_and_back(old_name, new_name);
            },
            BinaryPartView::BinaryExpression(x) => {
                x.lemma_there_and_back(old_name, new_name);
            },
            BinaryPartView::CallExpression(x) => {
                x.lemma_there_and_back(old_name, new_name);
            },
            BinaryPartView::UnaryExpression(x) => {
                x.lemma_there_and_back(old_name, new_name);
            },
            BinaryPartView::MemberExpression(x) => {
                x.lemma_there_and_back(old_name, new_name);
            },
            BinaryPartView::IfExpression(x) => {
                x.lemma_there_and_back(old_name, new_name);
            },
            BinaryPartView::Literal(_) => {},
        }
    }
}

impl BinaryExpressionView {
    /// Renaming a name that is not borne in here changes nothing.
    pub proof fn lemma_unmentioned(self, old_name: Seq<char>, new_name: Seq<char>)
        requires
            !self.mentions(old_name),
        ensures
            self.renamed(old_name, new_name) == self,
        decreases self,
    {
        self.left.lemma_unmentioned(old_name, new_name);
        self.right.lemma_unmentioned(old_name, new_name);
    }

    /// Renaming to a name that is not in use, and back, restores every name.
    pub proof fn lemma_there_and_back(self, old_name: Seq<char>, new_name: Seq<char>)
        requires
            !self.mentions(new_name),
            !self.self_referring(old_name),
        ensures
            self.renamed(old_name, new_name).renamed(new_name, old_name) == self,
        decreases self,
    {
        self.left.lemma_there_and_back(old_name, new_name);
        self.right.lemma_there_and_back(old_name, new_name);
    }
}

impl UnaryExpressionView {
    /// Renaming a name that is not borne in here changes nothing.
    pub proof fn lemma_unmentioned(self, old_name: Seq<char>, new_name: Seq<char>)
        requires
            !self.mentions(old_name),
        ensures
            self.renamed(old_name, new_name) == self,
        decreases self,
    {
        self.argument.lemma_unmentioned(old_name, new_name);
    }

    /// Renaming to a name that is not in use, and back, restores every name.
    pub proof fn lemma_there_and_back(self, old_name: Seq<char>, new_name: Seq<char>)
        requires
            !self.mentions(new_name),
            !self.self_referring(old_name),
        ensures
            self.renamed(old_name, new_name).renamed(new_name, old_name) == self,
        decreases self,
    {
        self.argument.lemma_there_and_back(old_name, new_name);
    }
}

impl CallExpressionView {
    /// Renaming a name that is not borne in here changes nothing.
    pub proof fn lemma_unmentioned(self, old_name: Seq<char>, new_name: Seq<char>)
        requires
            !self.mentions(old_name),
        ensures
            self.renamed(old_name, new_name) == self,
        decreases self,
    {
        self.callee.lemma_unmentioned(old_name, new_name);
        assert forall|i: int| 0 <= i < self.arguments.len() implies (#[trigger] self.arguments[i]).renamed(
            old_name,
            new_name,
        ) == self.arguments[i] by {
            self.arguments[i].lemma_unmentioned(old_name, new_name);
        }
        assert(self.renamed(old_name, new_name).arguments =~= self.arguments);
    }

    /// Renaming to a name that is not in use, and back, restores every name.
    pub proof fn lemma_there_and_back(self, old_name: Seq<char>, new_name: Seq<char>)
        requires
            !self.mentions(new_name),
            !self.self_referring(old_name),
        ensures
            self.renamed(old_name, new_name).renamed(new_name, old_name) == self,
        decreases self,
    {
        self.callee.lemma_there_and_back(old_name, new_name);
        assert forall|i: int| 0 <= i < self.arguments.len() implies (#[trigger] self.arguments[i]).renamed(
            old_name,
            new_name,
        ).renamed(new_name, old_name) == self.arguments[i] by {
            self.arguments[i].lemma_there_and_back(old_name, new_name);
        }
        assert(self.renamed(old_name, new_name).renamed(new_name, old_name).arguments =~= self.arguments);
    }
}

impl PipeExpressionView {
    /// Renaming a name that is not borne in here changes nothing.
    pub proof fn lemma_unmentioned(self, old_name: Seq<char>, new_name: Seq<char>)
        requires
            !self.mentions(old_name),
        ensures
            self.renamed(old_name, new_name) == self,
        decreases self,
    {
        assert forall|i: int| 0 <= i < self.body.len() implies (#[trigger] self.body[i]).renamed(
            old_name,
            new_name,
        ) == self.body[i] by {
            self.body[i].lemma_unmentioned(old_name, new_name);
        }
        assert(self.renamed(old_name, new_name).body =~= self.body);
    }

    /// Renaming to a name that is not in use, and back, restores every name.
    pub proof fn lemma_there_and_back(self, old_name: Seq<char>, new_name: Seq<char>)
        requires
            !self.mentions(new_name),
            !self.self_referring(old_name),
        ensures
            self.renamed(old_name, new_name).renamed(new_name, old_name) == self,
        decreases self,
    {
        assert forall|i: int| 0 <= i < self.body.len() implies (#[trigger] self.body[i]).renamed(
            old_name,
            new_name,
        ).renamed(new_name, old_name) == self.body[i] by {
            self.body[i].lemma_there_and_back(old_name, new_name);
        }
        assert(self.renamed(old_name, new_name).renamed(new_name, old_name).body =~= self.body);
    }
}

impl ArrayExpressionView {
    /// Renaming a name that is not borne in here changes nothing.
    pub proof fn lemma_unmentioned(self, old_name: Seq<char>, new_name: Seq<char>)
        requires
            !self.mentions(old_name),
        ensures
            self.renamed(old_name, new_name) == self,
        decreases self,
    {
        assert forall|i: int| 0 <= i < self.elements.len() implies (#[trigger] self.elements[i]).renamed(
            old_name,
            new_name,
        ) == self.elements[i] by {
            self.elements[i].lemma_unmentioned(old_name, new_name);
        }
        assert(self.renamed(old_name, new_name).elements =~= self.elements);
    }

    /// Renaming to a name that is not in use, and back, restores every name.
    pub proof fn lemma_there_and_back(self, old_name: Seq<char>, new_name: Seq<char>)
        requires
            !self.mentions(new_name),
            !self.self_referring(old_name),
        ensures
            self.renamed(old_name, new_name).renamed(new_name, old_name) == self,
        decreases self,
    {
        assert forall|i: int| 0 <= i < self.elements.len() implies (#[trigger] self.elements[i]).renamed(
            old_name,
            new_name,
        ).renamed(new_name, old_name) == self.elements[i] by {
            self.elements[i].lemma_there_and_back(old_name, new_name);
        }
        assert(self.renamed(old_name, new_name).renamed(new_name, old_name).elements =~= self.elements);
    }
}

impl ArrayRangeExpressionView {
    /// Renaming a name that is not borne in here changes nothing.
    pub proof fn lemma_unmentioned(self, old_name: Seq<char>, new_name: Seq<char>)
        requires
            !self.mentions(old_name),
        ensures
            self.renamed(old_name, new_name) == self,
        decreases self,
    {
        self.start_element.lemma_unmentioned(old_name, new_name);
        self.end_element.lemma_unmentioned(old_name, new_name);
    }

    /// Renaming to a name that is not in use, and back, restores every name.
    pub proof fn lemma_there_and_back(self, old_name: Seq<char>, new_name: Seq<char>)
        requires
            !self.mentions(new_name),
            !self.self_referring(old_name),
        ensures
            self.renamed(old_name, new_name).renamed(new_name, old_name) == self,
        decreases self,
    {
        self.start_element.lemma_there_and_back(old_name, new_name);
        self.end_element.lemma_there_and_back(old_name, new_name);
    }
}

impl ObjectPropertyView {
    /// Renaming a name that is not borne in here changes nothing.
    pub proof fn lemma_unmentioned(self, old_name: Seq<char>, new_name: Seq<char>)
        requires
            !self.mentions(old_name),
        ensures
            self.renamed(old_name, new_name) == self,
        decreases self,
    {
        self.value.lemma_unmentioned(old_name, new_name);
    }

    /// Renaming to a name that is not in use, and back, restores every name.
    pub proof fn lemma_there_and_back(self, old_name: Seq<char>, new_name: Seq<char>)
        requires
            !self.mentions(new_name),
            !self.self_referring(old_name),
        ensures
            self.renamed(old_name, new_name).renamed(new_name, old_name) == self,
        decreases self,
    {
        self.value.lemma_there_and_back(old_name, new_name);
    }
}

impl ObjectExpressionView {
    /// Renaming a name that is not borne in here changes nothing.
    pub proof fn lemma_unmentioned(self, old_name: Seq<char>, new_name: Seq<char>)
        requires
            !self.mentions(old_name),
        ensures
            self.renamed(old_name, new_name) == self,
        decreases self,
    {
        assert forall|i: int| 0 <= i < self.properties.len() implies (#[trigger] self.properties[i]).renamed(
            old_name,
            new_name,
        ) == self.properties[i] by {
            self.properties[i].lemma_unmentioned(old_name, new_name);
        }
        assert(self.renamed(old_name, new_name).properties =~= self.properties);
    }

    /// Renaming to a name that is not in use, and back, restores every name.
    pub proof fn lemma_there_and_back(self, old_name: Seq<char>, new_name: Seq<char>)
        requires
            !self.mentions(new_name),
            !self.self_referring(old_name),
        ensures
            self.renamed(old_name, new_name).renamed(new_name, old_name) == self,
        decreases self,
    {
        assert forall|i: int| 0 <= i < self.properties.len() implies (#[trigger] self.properties[i]).renamed(
            old_name,
            new_name,
        ).renamed(new_name, old_name) == self.properties[i] by {
            self.properties[i].lemma_there_and_back(old_name, new_name);
        }
        assert(self.renamed(old_name, new_name).renamed(new_name, old_name).properties =~= self.properties);
    }
}

impl MemberObjectView {
    /// Renaming a name that is not borne in here changes nothing.
    pub proof fn lemma_unmentioned(self, old_name: Seq<char>, new_name: Seq<char>)
        requires
            !self.mentions(old_name),
        ensures
            self.renamed(old_name, new_name) == self,
        decreases self,
    {
        match self {
            MemberObjectView::MemberExpression(x) => {
                x.lemma_unmentioned(old_name, new_name);
            },
            MemberObjectView::Identifier(x) => {
                x.lemma_unmentioned(old_name, new_name);
            },
        }
    }

    /// Renaming to a name that is not in use, and back, restores every name.
    pub proof fn lemma_there_and_back(self, old_name: Seq<char>, new_name: Seq<char>)
        requires
            !self.mentions(new_name),
            !self.self_referring(old_name),
        ensures
            self.renamed(old_name, new_name).renamed(new_name, old_name) == self,
        decreases self,
    {
        match self {
            MemberObjectView::MemberExpression(x) => {
                x.lemma_there_and_back(old_name, new_name);
            },
            MemberObjectView::Identifier(x) => {
                x.lemma_there_and_back(old_name, new_name);
            },
        }
    }
}

impl LiteralIdentifierView {
    /// Renaming a name that is not borne in here changes nothing.
    pub proof fn lemma_unmentioned(self, old_name: Seq<char>, new_name: Seq<char>)
        requires
            !self.mentions(old_name),
        ensures
            self.renamed(old_name, new_name) == self,
        decreases self,
    {
        match self {
            LiteralIdentifierView::Identifier(x) => {
                x.lemma_unmentioned(old_name, new_name);
            },
            LiteralIdentifierView::Literal(_) => {},
        }
    }

    /// Renaming to a name that is not in use, and back, restores every name.
    pub proof fn lemma_there_and_back(self, old_name: Seq<char>, new_name: Seq<char>)
        requires
            !self.mentions(new_name),
            !self.self_referring(old_name),
        ensures
            self.renamed(old_name, new_name).renamed(new_name, old_name) == self,
        decreases self,
    {
        match self {
            LiteralIdentifierView::Identifier(x) => {
                x.lemma_there_and_back(old_name, new_name);
            },
            LiteralIdentifierView::Literal(_) => {},
        }
    }
}

impl MemberExpressionView {
    /// Renaming a name that is not borne in here changes nothing.
    pub proof fn lemma_unmentioned(self, old_name: Seq<char>, new_name: Seq<char>)
        requires
            !self.mentions(old_name),
        ensures
            self.renamed(old_name, new_name) == self,
        decreases self,
    {
        self.object.lemma_unmentioned(old_name, new_name);
        if self.computed {
            self.property.lemma_unmentioned(old_name, new_name);
        }
    }

    /// Renaming to a name that is not in use, and back, restores every name.
    pub proof fn lemma_there_and_back(self, old_name: Seq<char>, new_name: Seq<char>)
        requires
            !self.mentions(new_name),
            !self.self_referring(old_name),
        ensures
            self.renamed(old_name, new_name).renamed(new_name, old_name) == self,
        decreases self,
    {
        self.object.lemma_there_and_back(old_name, new_name);
        if self.computed {
            self.property.lemma_there_and_back(old_name, new_name);
        }
    }
}

impl ElseIfView {
    /// Renaming a name that is not borne in here changes nothing.
    pub proof fn lemma_unmentioned(self, old_name: Seq<char>, new_name: Seq<char>)
        requires
            !self.mentions(old_name),
        ensures
            self.renamed(old_name, new_name) == self,
        decreases self,
    {
        self.cond.lemma_unmentioned(old_name, new_name);
        self.then_val.lemma_unmentioned(old_name, new_name);
    }

    /// Renaming to a name that is not in use, and back, restores every name.
    pub proof fn lemma_there_and_back(self, old_name: Seq<char>, new_name: Seq<char>)
        requires
            !self.mentions(new_name),
            !self.self_referring(old_name),
        ensures
            self.renamed(old_name, new_name).renamed(new_name, old_name) == self,
        decreases self,
    {
        self.cond.lemma_there_and_back(old_name, new_name);
        self.then_val.lemma_there_and_back(old_name, new_name);
    }
}

impl IfExpressionView {
    /// Renaming a name that is not borne in here changes nothing.
    pub proof fn lemma_unmentioned(self, old_name: Seq<char>, new_name: Seq<char>)
        requires
            !self.mentions(old_name),
        ensures
            self.renamed(old_name, new_name) == self,
        decreases self,
    {
        self.cond.lemma_unmentioned(old_name, new_name);
        self.then_val.lemma_unmentioned(old_name, new_name);
        assert forall|i: int| 0 <= i < self.else_ifs.len() implies (#[trigger] self.else_ifs[i]).renamed(
            old_name,
            new_name,
        ) == self.else_ifs[i] by {
            self.else_ifs[i].lemma_unmentioned(old_name, new_name);
        }
        assert(self.renamed(old_name, new_name).else_ifs =~= self.else_ifs);
        self.final_else.lemma_unmentioned(old_name, new_name);
    }

    /// Renaming to a name that is not in use, and back, restores every name.
    pub proof fn lemma_there_and_back(self, old_name: Seq<char>, new_name: Seq<char>)
        requires
            !self.mentions(new_name),
            !self.self_referring(old_name),
        ensures
            self.renamed(old_name, new_name).renamed(new_name, old_name) == self,
        decreases self,
    {
        self.cond.lemma_there_and_back(old_name, new_name);
        self.then_val.lemma_there_and_back(old_name, new_name);
        assert forall|i: int| 0 <= i < self.else_ifs.len() implies (#[trigger] self.else_ifs[i]).renamed(
            old_name,
            new_name,
        ).renamed(new_name, old_name) == self.else_ifs[i] by {
            self.else_ifs[i].lemma_there_and_back(old_name, new_name);
        }
        assert(self.renamed(old_name, new_name).renamed(new_name, old_name).else_ifs =~= self.else_ifs);
        self.final_else.lemma_there_and_back(old_name, new_name);
    }
}

impl ImportItemView {
    /// Renaming a name that is not borne in here changes nothing.
    pub proof fn lemma_unmentioned(self, old_name: Seq<char>, new_name: Seq<char>)
        requires
            !self.mentions(old_name),
        ensures
            self.renamed(old_name, new_name) == self,
        decreases self,
    {
        match self.alias {
            Some(alias) => {
                alias.lemma_unmentioned(old_name, new_name);
            },
            None => {},
        }
    }

    /// Renaming to a name that is not in use, and back, restores every name.
    pub proof fn lemma_there_and_back(self, old_name: Seq<char>, new_name: Seq<char>)
        requires
            !self.mentions(new_name),
            !self.self_referring(old_name),
        ensures
            self.renamed(old_name, new_name).renamed(new_name, old_name) == self,
        decreases self,
    {
        match self.alias {
            Some(alias) => {
                alias.lemma_there_and_back(old_name, new_name);
            },
            None => {},
        }
    }
}

impl ImportStatementView {
    /// Renaming a name that is not borne in here changes nothing.
    pub proof fn lemma_unmentioned(self, old_name: Seq<char>, new_name: Seq<char>)
        requires
            !self.mentions(old_name),
        ensures
            self.renamed(old_name, new_name) == self,
        decreases self,
    {
        assert forall|i: int| 0 <= i < self.items.len() implies (#[trigger] self.items[i]).renamed(
            old_name,
            new_name,
        ) == self.items[i] by {
            self.items[i].lemma_unmentioned(old_name, new_name);
        }
        assert(self.renamed(old_name, new_name).items =~= self.items);
    }

    /// Renaming to a name that is not in use, and back, restores every name.
    pub proof fn lemma_there_and_back(self, old_name: Seq<char>, new_name: Seq<char>)
        requires
            !self.mentions(new_name),
            !self.self_referring(old_name),
        ensures
            self.renamed(old_name, new_name).renamed(new_name, old_name) == self,
        decreases self,
    {
        assert forall|i: int| 0 <= i < self.items.len() implies (#[trigger] self.items[i]).renamed(
            old_name,
            new_name,
        ).renamed(new_name, old_name) == self.items[i] by {
            self.items[i].lemma_there_and_back(old_name, new_name);
        }
        assert(self.renamed(old_name, new_name).renamed(new_name, old_name).items =~= self.items);
    }
}

impl VariableDeclaratorView {
    /// Renaming a name that is not borne in here changes nothing.
    pub proof fn lemma_unmentioned(self, old_name: Seq<char>, new_name: Seq<char>)
        requires
            !self.mentions(old_name),
        ensures
            self.renamed(old_name, new_name) == self,
        decreases self,
    {
        self.init.lemma_unmentioned(old_name, new_name);
    }

    /// Renaming to a name that is not in use, and back, restores every name.
    pub proof fn lemma_there_and_back(self, old_name: Seq<char>, new_name: Seq<char>)
        requires
            !self.mentions(new_name),
            !self.self_referring(old_name),
        ensures
            self.renamed(old_name, new_name).renamed(new_name, old_name) == self,
        decreases self,
    {
        if self.id.name == new_name {
            self.init.lemma_unmentioned(new_name, old_name);
        } else if self.id.name == old_name {
            self.init.lemma_unmentioned(old_name, new_name);
        } else {
            self.init.lemma_there_and_back(old_name, new_name);
        }
    }
}

impl VariableDeclarationView {
    /// Renaming a name that is not borne in here changes nothing.
    pub proof fn lemma_unmentioned(self, old_name: Seq<char>, new_name: Seq<char>)
        requires
            !self.mentions(old_name),
        ensures
            self.renamed(old_name, new_name) == self,
        decreases self,
    {
        assert forall|i: int| 0 <= i < self.declarations.len() implies (#[trigger] self.declarations[i]).renamed(
            old_name,
            new_name,
        ) == self.declarations[i] by {
            self.declarations[i].lemma_unmentioned(old_name, new_name);
        }
        assert(self.renamed(old_name, new_name).declarations =~= self.declarations);
    }

    /// Renaming to a name that is not in use, and back, restores every name.
    pub proof fn lemma_there_and_back(self, old_name: Seq<char>, new_name: Seq<char>)
        requires
            !self.mentions(new_name),
            !self.self_referring(old_name),
        ensures
            self.renamed(old_name, new_name).renamed(new_name, old_name) == self,
        decreases self,
    {
        assert forall|i: int| 0 <= i < self.declarations.len() implies (#[trigger] self.declarations[i]).renamed(
            old_name,
            new_name,
        ).renamed(new_name, old_name) == self.declarations[i] by {
            self.declarations[i].lemma_there_and_back(old_name, new_name);
        }
        assert(self.renamed(old_name, new_name).renamed(new_name, old_name).declarations =~= self.declarations);
    }
}

impl ExpressionStatementView {
    /// Renaming a name that is not borne in here changes nothing.
    pub proof fn lemma_unmentioned(self, old_name: Seq<char>, new_name: Seq<char>)
        requires
            !self.mentions(old_name),
        ensures
            self.renamed(old_name, new_name) == self,
        decreases self,
    {
        self.expression.lemma_unmentioned(old_name, new_name);
    }

    /// Renaming to a name that is not in use, and back, restores every name.
    pub proof fn lemma_there_and_back(self, old_name: Seq<char>, new_name: Seq<char>)
        requires
            !self.mentions(new_name),
            !self.self_referring(old_name),
        ensures
            self.renamed(old_name, new_name).renamed(new_name, old_name) == self,
        decreases self,
    {
        self.expression.lemma_there_and_back(old_name, new_name);
    }
}

impl ReturnStatementView {
    /// Renaming a name that is not borne in here changes nothing.
    pub proof fn lemma_unmentioned(self, old_name: Seq<char>, new_name: Seq<char>)
        requires
            !self.mentions(old_name),
        ensures
            self.renamed(old_name, new_name) == self,
        decreases self,
    {
        self.argument.lemma_unmentioned(old_name, new_name);
    }

    /// Renaming to a name that is not in use, and back, restores every name.
    pub proof fn lemma_there_and_back(self, old_name: Seq<char>, new_name: Seq<char>)
        requires
            !self.mentions(new_name),
            !self.self_referring(old_name),
        ensures
            self.renamed(old_name, new_name).renamed(new_name, old_name) == self,
        decreases self,
    {
        self.argument.lemma_there_and_back(old_name, new_name);
    }
}

impl BodyItemView {
    /// Renaming a name that is not borne in here changes nothing.
    pub proof fn lemma_unmentioned(self, old_name: Seq<char>, new_name: Seq<char>)
        requires
            !self.mentions(old_name),
        ensures
            self.renamed(old_name, new_name) == self,
        decreases self,
    {
        match self {
            BodyItemView::ImportStatement(x) => {
                x.lemma_unmentioned(old_name, new_name);
            },
            BodyItemView::ExpressionStatement(x) => {
                x.lemma_unmentioned(old_name, new_name);
            },
            BodyItemView::VariableDeclaration(x) => {
                x.lemma_unmentioned(old_name, new_name);
            },
            BodyItemView::ReturnStatement(x) => {
                x.lemma_unmentioned(old_name, new_name);
            },
        }
    }

    /// Renaming to a name that is not in use, and back, restores every name.
    pub proof fn lemma_there_and_back(self, old_name: Seq<char>, new_name: Seq<char>)
        requires
            !self.mentions(new_name),
            !self.self_referring(old_name),
        ensures
            self.renamed(old_name, new_name).renamed(new_name, old_name) == self,
        decreases self,
    {
        match self {
            BodyItemView::ImportStatement(x) => {
                x.lemma_there_and_back(old_name, new_name);
            },
            BodyItemView::ExpressionStatement(x) => {
                x.lemma_there_and_back(old_name, new_name);
            },
            BodyItemView::VariableDeclaration(x) => {
                x.lemma_there_and_back(old_name, new_name);
            },
            BodyItemView::ReturnStatement(x) => {
                x.lemma_there_and_back(old_name, new_name);
            },
        }
    }
}

impl ProgramView {
    /// Renaming a name that is not borne in here changes nothing.
    pub proof fn lemma_unmentioned(self, old_name: Seq<char>, new_name: Seq<char>)
        requires
            !self.mentions(old_name),
        ensures
            self.renamed(old_name, new_name) == self,
        decreases self,
    {
        assert forall|i: int| 0 <= i < self.body.len() implies (#[trigger] self.body[i]).renamed(
            old_name,
            new_name,
        ) == self.body[i] by {
            self.body[i].lemma_unmentioned(old_name, new_name);
        }
        assert(self.renamed(old_name, new_name).body =~= self.body);
    }

    /// Renaming to a name that is not in use, and back, restores every name.
    pub proof fn lemma_there_and_back(self, old_name: Seq<char>, new_name: Seq<char>)
        requires
            !self.mentions(new_name),
            !self.self_referring(old_name),
        ensures
            self.renamed(old_name, new_name).renamed(new_name, old_name) == self,
        decreases self,
    {
        assert forall|i: int| 0 <= i < self.body.len() implies (#[trigger] self.body[i]).renamed(
            old_name,
            new_name,
        ).renamed(new_name, old_name) == self.body[i] by {
            self.body[i].lemma_there_and_back(old_name, new_name);
        }
        assert(self.renamed(old_name, new_name).renamed(new_name, old_name).body =~= self.body);
    }
}

/// Renaming in a program from `old_name` to `new_name` and back restores the
/// names of the program, where `new_name` is not in use in it and no
/// declarator of `old_name` refers to `old_name` in its own initial value.
pub proof fn lemma_rename_round_trip(program: ProgramView, old_name: Seq<char>, new_name: Seq<char>)
    requires
        !program.mentions(new_name),
        !program.self_referring(old_name),
    ensures
        program.renamed(old_name, new_name).renamed(new_name, old_name) == program,
{
    program.lemma_there_and_back(old_name, new_name);
}

/// Two sequences of one length of which `p` holds at the same places have the
/// same first place at which it holds.
proof fn lemma_first_index_same<T>(a: Seq<T>, b: Seq<T>, p: spec_fn(T) -> bool)
    requires
        a.len() == b.len(),
        forall|j: int| 0 <= j < a.len() ==> p(#[trigger] a[j]) == p(b[j]),
    ensures
        first_index(a, p) == first_index(b, p),
{
    lemma_first_index(a, p);
    let i = first_index(a, p);
    assert forall|j: int| 0 <= j < i implies !p(#[trigger] b[j]) by {
        assert(!p(a[j]));
    }
    if i < a.len() {
        assert(p(a[i]));
    }
    lemma_first_index_is(b, p, i);
}

impl VariableDeclarationView {
    /// Renaming does not move the declared names.
    proof fn lemma_renamed_binding(self, old_name: Seq<char>, new_name: Seq<char>, pos: usize)
        ensures
            self.renamed(old_name, new_name).binding_index(pos) == self.binding_index(pos),
    {
        let p = |d: VariableDeclaratorView| d.id.start <= pos <= d.id.end;
        lemma_first_index_same(self.declarations, self.renamed(old_name, new_name).declarations, p);
    }

    /// Giving the declared name at `pos` another name does not move it.
    proof fn lemma_rebound_binding(self, new_name: Seq<char>, pos: usize)
        ensures
            self.rebound(new_name, pos).binding_index(pos) == self.binding_index(pos),
    {
        let p = |d: VariableDeclaratorView| d.id.start <= pos <= d.id.end;
        lemma_first_index(self.declarations, p);
        lemma_first_index_same(self.declarations, self.rebound(new_name, pos).declarations, p);
    }

    /// Whether a declarator other than the one whose name is at `pos` bears
    /// the name given and refers to that name in its own initial value.
    pub open spec fn others_self_referring(self, name: Seq<char>, pos: usize) -> bool {
        exists|m: int|
            0 <= m < self.declarations.len() && m != self.binding_index(pos) && (
            #[trigger] self.declarations[m]).self_referring(name)
    }

    /// Renaming the declared name at `pos` to a name that is not in use, and
    /// back, restores the declaration. The declarator at `pos` itself is
    /// passed over both ways, whatever its value refers to.
    proof fn lemma_symbol_there_and_back(self, new_name: Seq<char>, pos: usize)
        requires
            0 <= self.binding_index(pos) < self.declarations.len(),
            !self.mentions(new_name),
            !self.others_self_referring(
                self.declarations[self.binding_index(pos)].id.name,
                pos,
            ),
        ensures
            ({
                let old_name = self.declarations[self.binding_index(pos)].id.name;
                let there = self.rebound(new_name, pos).renamed(old_name, new_name);
                &&& there.binding_index(pos) == self.binding_index(pos)
                &&& there.declarations[self.binding_index(pos)].id.name == new_name
                &&& there.rebound(old_name, pos).renamed(new_name, old_name) == self
            }),
    {
        let k = self.binding_index(pos);
        let old_name = self.declarations[k].id.name;
        let bound = self.rebound(new_name, pos);
        bound.lemma_renamed_binding(old_name, new_name, pos);
        self.lemma_rebound_binding(new_name, pos);
        let there = bound.renamed(old_name, new_name);
        assert(there.declarations[k] == bound.declarations[k]);
        let back_bound = there.rebound(old_name, pos);
        let back = back_bound.renamed(new_name, old_name);
        assert(back_bound.declarations[k] == self.declarations[k]);
        assert forall|m: int| 0 <= m < self.declarations.len() implies #[trigger] back.declarations[m]
            == self.declarations[m] by {
            if m != k {
                assert(bound.declarations[m] == self.declarations[m]);
                assert(there.declarations[m] == self.declarations[m].renamed(old_name, new_name));
                assert(back_bound.declarations[m] == there.declarations[m]);
                assert(!self.declarations[m].mentions(new_name));
                assert(!self.declarations[m].self_referring(old_name));
                self.declarations[m].lemma_there_and_back(old_name, new_name);
            }
        }
        assert(back.declarations =~= self.declarations);
    }
}

impl ImportStatementView {
    /// Renaming does not move the aliases.
    proof fn lemma_renamed_binding(self, old_name: Seq<char>, new_name: Seq<char>, pos: usize)
        ensures
            self.renamed(old_name, new_name).binding_index(pos) == self.binding_index(pos),
    {
        let p = |item: ImportItemView| item.start <= pos <= item.end && item.binds(pos);
        lemma_first_index_same(self.items, self.renamed(old_name, new_name).items, p);
    }

    /// Giving the alias at `pos` another name does not move it.
    proof fn lemma_rebound_binding(self, new_name: Seq<char>, pos: usize)
        requires
            0 <= self.binding_index(pos) < self.items.len(),
            self.items[self.binding_index(pos)].alias is Some,
        ensures
            self.rebound(new_name, pos).binding_index(pos) == self.binding_index(pos),
    {
        let p = |item: ImportItemView| item.start <= pos <= item.end && item.binds(pos);
        lemma_first_index(self.items, p);
        lemma_first_index_same(self.items, self.rebound(new_name, pos).items, p);
    }

    /// Renaming the alias at `pos` to a name that is not in use, and back,
    /// restores the import.
    proof fn lemma_symbol_there_and_back(self, new_name: Seq<char>, pos: usize)
        requires
            0 <= self.binding_index(pos) < self.items.len(),
            self.items[self.binding_index(pos)].alias is Some,
            !self.mentions(new_name),
        ensures
            ({
                let old_name = self.items[self.binding_index(pos)].bound_name();
                let there = self.rebound(new_name, pos).renamed(old_name, new_name);
                &&& there.binding_index(pos) == self.binding_index(pos)
                &&& there.items[self.binding_index(pos)].alias is Some
                &&& there.items[self.binding_index(pos)].bound_name() == new_name
                &&& there.rebound(old_name, pos).renamed(new_name, old_name) == self
            }),
    {
        let k = self.binding_index(pos);
        let p = |item: ImportItemView| item.start <= pos <= item.end && item.binds(pos);
        lemma_first_index(self.items, p);
        assert(p(self.items[k]));
        let old_name = self.items[k].bound_name();
        let bound = self.rebound(new_name, pos);
        self.lemma_rebound_binding(new_name, pos);
        bound.lemma_renamed_binding(old_name, new_name, pos);
        let there = bound.renamed(old_name, new_name);
        assert(there.items[k] == bound.items[k].renamed(old_name, new_name));
        there.lemma_rebound_binding(old_name, pos);
        let back_bound = there.rebound(old_name, pos);
        let back = back_bound.renamed(new_name, old_name);
        assert forall|m: int| 0 <= m < self.items.len() implies #[trigger] back.items[m]
            == self.items[m] by {
            if m != k {
                assert(bound.items[m] == self.items[m]);
                assert(there.items[m] == self.items[m].renamed(old_name, new_name));
                assert(back_bound.items[m] == there.items[m]);
                assert(!self.items[m].mentions(new_name));
                self.items[m].lemma_there_and_back(old_name, new_name);
            } else {
                assert(back.items[k] == back_bound.items[k].renamed(new_name, old_name));
            }
        }
        assert(back.items =~= self.items);
    }
}

impl BodyItemView {
    /// Whether the binding that the statement holds at `pos` is an import
    /// that has no alias yet, which renaming gives one.
    pub open spec fn installs_alias(self, pos: usize) -> bool {
        match self {
            BodyItemView::ImportStatement(x) => 0 <= x.binding_index(pos) < x.items.len()
                && x.items[x.binding_index(pos)].alias is None,
            _ => false,
        }
    }

    /// Renaming does not move the bindings.
    proof fn lemma_renamed_binds(self, old_name: Seq<char>, new_name: Seq<char>, pos: usize)
        ensures
            self.renamed(old_name, new_name).binds(pos) == self.binds(pos),
    {
        match self {
            BodyItemView::ImportStatement(x) => {
                x.lemma_renamed_binding(old_name, new_name, pos);
            },
            BodyItemView::VariableDeclaration(x) => {
                x.lemma_renamed_binding(old_name, new_name, pos);
            },
            _ => {},
        }
    }

    /// Whether a declarator of the statement other than the one whose name is
    /// at `pos` bears the name given and refers to that name in its own
    /// initial value.
    pub open spec fn others_self_referring(self, name: Seq<char>, pos: usize) -> bool {
        match self {
            BodyItemView::VariableDeclaration(x) => x.others_self_referring(name, pos),
            _ => false,
        }
    }

    /// Renaming the binding at `pos` to a name that is not in use, and back,
    /// restores the statement.
    proof fn lemma_symbol_there_and_back(self, new_name: Seq<char>, pos: usize)
        requires
            self.binds(pos),
            !self.installs_alias(pos),
            !self.mentions(new_name),
            !self.others_self_referring(self.bound_name(pos), pos),
        ensures
            ({
                let old_name = self.bound_name(pos);
                let there = self.rebound(new_name, pos).renamed(old_name, new_name);
                &&& there.binds(pos)
                &&& there.bound_name(pos) == new_name
                &&& there.rebound(old_name, pos).renamed(new_name, old_name) == self
            }),
    {
        match self {
            BodyItemView::ImportStatement(x) => {
                lemma_first_index(
                    x.items,
                    |item: ImportItemView| item.start <= pos <= item.end && item.binds(pos),
                );
                x.lemma_symbol_there_and_back(new_name, pos);
            },
            BodyItemView::VariableDeclaration(x) => {
                lemma_first_index(
                    x.declarations,
                    |d: VariableDeclaratorView| d.id.start <= pos <= d.id.end,
                );
                x.lemma_symbol_there_and_back(new_name, pos);
            },
            _ => {},
        }
    }
}

impl ProgramView {
    /// Whether a declarator other than the one whose name is at `pos` bears
    /// the name given and refers to that name in its own initial value.
    pub open spec fn others_self_referring(self, name: Seq<char>, pos: usize) -> bool {
        ||| exists|j: int|
            0 <= j < self.body.len() && j != self.binding_index(pos) && (#[trigger] self.body[j]).self_referring(
                name,
            )
        ||| 0 <= self.binding_index(pos) < self.body.len() && self.body[self.binding_index(
            pos,
        )].others_self_referring(name, pos)
    }
}

/// Renaming the symbol at a position to a name that is not in use, and then
/// the symbol at that position back to the name that it had, restores the
/// program.
///
/// This is said of a name that a statement of the program binds at `pos`: a
/// declared name, or the alias of an import. It is not said of an import
/// without alias, which renaming gives an alias that it keeps. The new name
/// must not be in use. And no other declarator of the old name may refer to
/// that name in its own initial value; the declarator at `pos` itself may,
/// since it is passed over both ways.
pub proof fn lemma_rename_symbol_round_trip(program: ProgramView, new_name: Seq<char>, pos: usize)
    requires
        0 <= program.binding_index(pos) < program.body.len(),
        !program.body[program.binding_index(pos)].installs_alias(pos),
        !program.mentions(new_name),
        !program.others_self_referring(
            program.body[program.binding_index(pos)].bound_name(pos),
            pos,
        ),
    ensures
        program.symbol_renamed(new_name, pos).symbol_renamed(
            program.body[program.binding_index(pos)].bound_name(pos),
            pos,
        ) == program,
{
    let i = program.binding_index(pos);
    let binds = |item: BodyItemView| item.binds(pos);
    lemma_first_index(program.body, binds);
    assert(binds(program.body[i]));
    let item = program.body[i];
    let old_name = item.bound_name(pos);
    let bound = ProgramView { body: program.body.update(i, item.rebound(new_name, pos)), ..program };
    let there = bound.renamed(old_name, new_name);
    assert(there == program.symbol_renamed(new_name, pos));
    assert(!item.mentions(new_name));
    assert(!item.others_self_referring(old_name, pos));
    item.lemma_symbol_there_and_back(new_name, pos);
    assert(there.body[i] == item.rebound(new_name, pos).renamed(old_name, new_name));
    assert forall|j: int| 0 <= j < program.body.len() implies binds(#[trigger] program.body[j])
        == binds(there.body[j]) by {
        if j != i {
            assert(bound.body[j] == program.body[j]);
            assert(there.body[j] == program.body[j].renamed(old_name, new_name));
            program.body[j].lemma_renamed_binds(old_name, new_name, pos);
        }
    }
    lemma_first_index_same(program.body, there.body, binds);
    assert(there.binding_index(pos) == i);
    let back_bound = ProgramView {
        body: there.body.update(i, there.body[i].rebound(old_name, pos)),
        ..there
    };
    let back = back_bound.renamed(new_name, old_name);
    assert(back == there.symbol_renamed(old_name, pos));
    assert forall|j: int| 0 <= j < program.body.len() implies #[trigger] back.body[j]
        == program.body[j] by {
        if j != i {
            assert(back_bound.body[j] == there.body[j]);
            assert(!program.body[j].mentions(new_name));
            assert(!program.body[j].self_referring(old_name));
            program.body[j].lemma_there_and_back(old_name, new_name);
        }
    }
    assert(back.body =~= program.body);
}

} // verus!
