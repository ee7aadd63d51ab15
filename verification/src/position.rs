//! Finding what stands at a position of the text.
//!
//! A position is a byte offset. A node holds it where it lies in the node's
//! interval, both ends included; of two neighbours that both hold an offset,
//! the one that comes first is found.

use crate::ast::{BodyItem, Expr, NonCodeMeta, Program, VariableDeclaration, VariableDeclarator};
use crate::model::{
    BodyItemView, ExprView, NonCodeMetaView, ProgramView, VariableDeclarationView,
    VariableDeclaratorView,
};
use crate::text::{first_index, lemma_first_index_is};
use vstd::prelude::*;

verus! {

impl VariableDeclarationView {
    /// The index of the first declarator that holds `pos`, or the number of
    /// declarators where there is none.
    pub open spec fn declarator_index(self, pos: usize) -> int {
        first_index(self.declarations, |d: VariableDeclaratorView| d.start <= pos <= d.end)
    }

    /// The initial value of the first declarator that holds `pos`.
    pub open spec fn expr_at(self, pos: usize) -> Option<ExprView> {
        let i = self.declarator_index(pos);
        if 0 <= i < self.declarations.len() {
            Some(self.declarations[i].init)
        } else {
            None
        }
    }
}

impl BodyItemView {
    /// The expression that the statement has for `pos`: its own, or for a
    /// declaration the initial value of the first declarator that holds `pos`.
    /// An import has none.
    pub open spec fn expr_at(self, pos: usize) -> Option<ExprView> {
        match self {
            BodyItemView::ImportStatement(_) => None,
            BodyItemView::ExpressionStatement(x) => Some(x.expression),
            BodyItemView::VariableDeclaration(x) => x.expr_at(pos),
            BodyItemView::ReturnStatement(x) => Some(x.argument),
        }
    }
}

impl ExprView {
    /// What the expression carries that is no code: a pipe, an array and an
    /// object carry what stands between their parts.
    pub open spec fn non_code_meta(self) -> Option<NonCodeMetaView> {
        match self {
            ExprView::PipeExpression(x) => Some(x.non_code_meta),
            ExprView::ArrayExpression(x) => Some(x.non_code_meta),
            ExprView::ObjectExpression(x) => Some(x.non_code_meta),
            _ => None,
        }
    }
}

impl ProgramView {
    /// The index of the first statement that holds `pos`, or the number of
    /// statements where there is none.
    pub open spec fn item_index(self, pos: usize) -> int {
        first_index(self.body, |item: BodyItemView| item.contains(pos))
    }

    /// The expression at `pos`: that of the first statement that holds `pos`.
    pub open spec fn expr_at(self, pos: usize) -> Option<ExprView> {
        let i = self.item_index(pos);
        if 0 <= i < self.body.len() {
            self.body[i].expr_at(pos)
        } else {
            None
        }
    }

    /// What holds `pos` and is no code: what the program itself carries, or
    /// else what the expression at `pos` carries.
    pub open spec fn non_code_meta_at(self, pos: usize) -> Option<NonCodeMetaView> {
        if self.non_code_meta.contains(pos) {
            Some(self.non_code_meta)
        } else {
            match self.expr_at(pos) {
                Some(e) => match e.non_code_meta() {
                    Some(meta) => if meta.contains(pos) {
                        Some(meta)
                    } else {
                        None
                    },
                    None => None,
                },
                None => None,
            }
        }
    }
}

impl VariableDeclaration {
    /// The index of the first declarator that holds `pos`.
    pub(crate) fn declarator_index(&self, pos: usize) -> (index: usize)
        ensures
            index == self@.declarator_index(pos),
            index <= self.declarations.len(),
    {
        let ghost p = |d: VariableDeclaratorView| d.start <= pos <= d.end;
        let mut i: usize = 0;
        while i < self.declarations.len()
            invariant
                i <= self.declarations.len(),
                p == |d: VariableDeclaratorView| d.start <= pos <= d.end,
                forall|j: int| 0 <= j < i ==> !p(#[trigger] self@.declarations[j]),
            decreases self.declarations.len() - i,
        {
            let d = &self.declarations[i];
            if d.start <= pos && pos <= d.end {
                assert(p(self@.declarations[i as int]));
                proof {
                    lemma_first_index_is(self@.declarations, p, i as int);
                }
                return i;
            }
            assert(!p(self@.declarations[i as int]));
            i += 1;
        }
        proof {
            lemma_first_index_is(self@.declarations, p, i as int);
        }
        i
    }

    /// The initial value of the first declarator that holds `pos`.
    pub fn get_expr_for_position(&self, pos: usize) -> (expr: Option<&Expr>)
        ensures
            match expr {
                Some(e) => self@.expr_at(pos) == Some(e@),
                None => self@.expr_at(pos) is None,
            },
    {
        let i = self.declarator_index(pos);
        if i < self.declarations.len() {
            Some(&self.declarations[i].init)
        } else {
            None
        }
    }

    /// The initial value of the first declarator that holds `pos`, to change it.
    pub fn get_mut_expr_for_position(&mut self, pos: usize) -> (expr: Option<&mut Expr>)
        ensures
            match expr {
                Some(e) => {
                    let i = old(self)@.declarator_index(pos);
                    &&& 0 <= i < old(self).declarations.len()
                    &&& *e == old(self).declarations[i].init
                    &&& *final(self) == (VariableDeclaration {
                        declarations: final(self).declarations,
                        ..*old(self)
                    })
                    &&& final(self).declarations@ == old(self).declarations@.update(
                        i,
                        VariableDeclarator { init: *final(e), ..old(self).declarations[i] },
                    )
                },
                None => old(self)@.declarator_index(pos) == old(self).declarations.len()
                    && *final(self) == *old(self),
            },
    {
        let i = self.declarator_index(pos);
        if i < self.declarations.len() {
            Some(&mut self.declarations[i].init)
        } else {
            None
        }
    }
}

impl Expr {
    /// What the expression carries that is no code.
    pub fn get_non_code_meta(&self) -> (meta: Option<&NonCodeMeta>)
        ensures
            match meta {
                Some(m) => self@.non_code_meta() == Some(m@),
                None => self@.non_code_meta() is None,
            },
    {
        match self {
            Expr::PipeExpression(x) => Some(&x.non_code_meta),
            Expr::ArrayExpression(x) => Some(&x.non_code_meta),
            Expr::ObjectExpression(x) => Some(&x.non_code_meta),
            _ => None,
        }
    }
}

impl BodyItem {
    /// The expression that the statement has for `pos`.
    pub fn get_expr_for_position(&self, pos: usize) -> (expr: Option<&Expr>)
        ensures
            match expr {
                Some(e) => self@.expr_at(pos) == Some(e@),
                None => self@.expr_at(pos) is None,
            },
    {
        match self {
            BodyItem::ImportStatement(_) => None,
            BodyItem::ExpressionStatement(x) => Some(&x.expression),
            BodyItem::VariableDeclaration(x) => x.get_expr_for_position(pos),
            BodyItem::ReturnStatement(x) => Some(&x.argument),
        }
    }
}

impl Program {
    /// Whether the last statement is an expression.
    pub fn ends_with_expr(&self) -> (ends: bool)
        ensures
            ends == (self.body.len() > 0 && self@.body.last() is ExpressionStatement),
    {
        let n = self.body.len();
        if n == 0 {
            return false;
        }
        match &self.body[n - 1] {
            BodyItem::ExpressionStatement(_) => true,
            _ => false,
        }
    }

    /// The index of the first statement that holds `pos`.
    pub(crate) fn item_index(&self, pos: usize) -> (index: usize)
        ensures
            index == self@.item_index(pos),
            index <= self.body.len(),
    {
        let ghost p = |item: BodyItemView| item.contains(pos);
        let mut i: usize = 0;
        while i < self.body.len()
            invariant
                i <= self.body.len(),
                p == |item: BodyItemView| item.contains(pos),
                forall|j: int| 0 <= j < i ==> !p(#[trigger] self@.body[j]),
            decreases self.body.len() - i,
        {
            let item = &self.body[i];
            if item.start() <= pos && pos <= item.end() {
                assert(p(self@.body[i as int]));
                proof {
                    lemma_first_index_is(self@.body, p, i as int);
                }
                return i;
            }
            assert(!p(self@.body[i as int]));
            i += 1;
        }
        proof {
            lemma_first_index_is(self@.body, p, i as int);
        }
        i
    }

    /// The first statement that holds `pos`.
    pub fn get_body_item_for_position(&self, pos: usize) -> (item: Option<&BodyItem>)
        ensures
            match item {
                Some(found) => self@.item_index(pos) < self.body.len() && *found
                    == self.body[self@.item_index(pos)],
                None => self@.item_index(pos) == self.body.len(),
            },
    {
        let i = self.item_index(pos);
        if i < self.body.len() {
            Some(&self.body[i])
        } else {
            None
        }
    }

    /// The first statement that holds `pos`, to change it.
    pub fn get_mut_body_item_for_position(&mut self, pos: usize) -> (item: Option<&mut BodyItem>)
        ensures
            match item {
                Some(found) => {
                    let i = old(self)@.item_index(pos);
                    &&& 0 <= i < old(self).body.len()
                    &&& *found == old(self).body[i]
                    &&& *final(self) == (Program { body: final(self).body, ..*old(self) })
                    &&& final(self).body@ == old(self).body@.update(i, *final(found))
                },
                None => old(self)@.item_index(pos) == old(self).body.len() && *final(self)
                    == *old(self),
            },
    {
        let i = self.item_index(pos);
        if i < self.body.len() {
            Some(&mut self.body[i])
        } else {
            None
        }
    }

    /// The expression at `pos`: that of the first statement that holds `pos`.
    /// `None` where no statement holds `pos`, or the one that does has none.
    pub fn get_expr_for_position(&self, pos: usize) -> (expr: Option<&Expr>)
        ensures
            match expr {
                Some(e) => self@.expr_at(pos) == Some(e@),
                None => self@.expr_at(pos) is None,
            },
    {
        let i = self.item_index(pos);
        if i < self.body.len() {
            self.body[i].get_expr_for_position(pos)
        } else {
            None
        }
    }

    /// What holds `pos` and is no code: what the program itself carries, or
    /// else what the expression at `pos` carries. `None` where neither holds
    /// `pos`.
    pub fn get_non_code_meta_for_position(&self, pos: usize) -> (meta: Option<&NonCodeMeta>)
        ensures
            match meta {
                Some(m) => self@.non_code_meta_at(pos) == Some(m@),
                None => self@.non_code_meta_at(pos) is None,
            },
    {
        if self.non_code_meta.contains(pos) {
            return Some(&self.non_code_meta);
        }
        match self.get_expr_for_position(pos) {
            Some(expr) => match expr.get_non_code_meta() {
                Some(meta) => if meta.contains(pos) {
                    Some(meta)
                } else {
                    None
                },
                None => None,
            },
            None => None,
        }
    }
}

} // verus!
