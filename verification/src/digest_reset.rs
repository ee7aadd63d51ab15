//! Taking the digests away that a tree keeps.
//!
//! A node hands out the digest that it keeps, also when the node has changed
//! since. Whoever changes a tree takes the digests away, here, before a digest
//! is asked for again.

use crate::ast::{
    ArrayExpression, ArrayRangeExpression, BinaryExpression, BinaryPart, BodyItem, CallExpression,
    Digest, ElseIf, Expr, ExpressionStatement, FnArgType, FunctionExpression, Identifier,
    IfExpression, ImportItem, ImportStatement, Literal, LiteralIdentifier, MemberExpression,
    MemberObject, NonCodeMeta, NonCodeNode, ObjectExpression, ObjectProperty, Parameter,
    PipeExpression, PipeSubstitution, Program, ReturnStatement, TagDeclarator, UnaryExpression,
    VariableDeclaration, VariableDeclarator,
};
use crate::digest_nodes::nodes_erased;
use crate::model::{
    non_code_nodes_view, ArrayExpressionView, ArrayRangeExpressionView, BinaryExpressionView,
    BinaryPartView, BodyItemView, CallExpressionView, ElseIfView, ExprView,
    ExpressionStatementView, FnArgTypeView, FunctionExpressionView, IdentifierView,
    IfExpressionView, ImportItemView, ImportStatementView, LiteralIdentifierView, LiteralView,
    MemberExpressionView, MemberObjectView, NonCodeMetaView, NonCodeNodeView, ObjectExpressionView,
    ObjectPropertyView, ParameterView, PipeExpressionView, PipeSubstitutionView, ProgramView,
    ReturnStatementView, TagDeclaratorView, UnaryExpressionView, VariableDeclarationView,
    VariableDeclaratorView,
};
use crate::order::{lists_ascending, sorted_keys};
use vstd::prelude::*;

verus! {

broadcast use vstd::std_specs::hash::group_hash_axioms;

impl NonCodeNode {
    /// Takes away the digest kept in the node.
    pub fn clear_digests(&mut self)
        ensures
            final(self)@ == old(self)@.erased(false),
    {
        self.digest = None;
    }
}

impl NonCodeNodeView {
    /// Where no digest is kept, every digest kept is valid.
    pub proof fn lemma_erased_valid(self)
        ensures
            self.erased(false).caches_valid(),
    {
    }
}

impl NonCodeMeta {
    /// Takes away the digest kept here and those kept in the nodes.
    pub fn clear_digests(&mut self)
        ensures
            final(self)@ == old(self)@.erased(false),
    {
        let ghost before = old(self)@;
        self.digest = None;
        clear_non_code_nodes(&mut self.start);
        assert(self@.start =~= nodes_erased(before.start, false)) by {
            assert forall|i: int| 0 <= i < before.start.len() implies #[trigger] self@.start[i]
                == before.start[i].erased(false) by {
                assert(self@.start[i] == self.start[i]@);
                assert(before.start[i] == old(self).start[i]@);
            }
        }
        let keys = sorted_keys(&self.non_code_nodes);
        assert(before.non_code_nodes.dom() =~= self.non_code_nodes@.dom());
        let mut i: usize = 0;
        while i < keys.len()
            invariant
                i <= keys.len(),
                before == old(self)@,
                lists_ascending(keys@, before.non_code_nodes.dom()),
                self.digest is None,
                self@.start == nodes_erased(before.start, false),
                self@.non_code_nodes.dom() == before.non_code_nodes.dom(),
                forall|j: int|
                    0 <= j < i ==> self@.non_code_nodes[#[trigger] keys@[j]] == nodes_erased(
                        before.non_code_nodes[keys@[j]],
                        false,
                    ),
                forall|j: int|
                    i <= j < keys.len() ==> self@.non_code_nodes[#[trigger] keys@[j]]
                        == before.non_code_nodes[keys@[j]],
            decreases keys.len() - i,
        {
            let key = keys[i];
            assert(keys@.contains(key));
            assert(self@.non_code_nodes.contains_key(key));
            let ghost map_before = self@.non_code_nodes;
            match self.non_code_nodes.remove(&key) {
                Some(nodes) => {
                    let mut nodes = nodes;
                    let ghost taken = nodes;
                    let ghost found = non_code_nodes_view(nodes);
                    assert(found == map_before[keys@[i as int]]);
                    clear_non_code_nodes(&mut nodes);
                    let ghost done = non_code_nodes_view(nodes);
                    assert(done =~= nodes_erased(found, false)) by {
                        assert forall|j: int| 0 <= j < found.len() implies #[trigger] done[j]
                            == found[j].erased(false) by {
                            assert(done[j] == nodes[j]@);
                            assert(found[j] == taken[j]@);
                        }
                    }
                    self.non_code_nodes.insert(key, nodes);
                    assert(self@.non_code_nodes.dom() =~= before.non_code_nodes.dom());
                    assert(self@.non_code_nodes[key] == done);
                    assert forall|j: int| 0 <= j < i + 1 implies self@.non_code_nodes[#[trigger] keys@[j]]
                        == nodes_erased(before.non_code_nodes[keys@[j]], false) by {
                        if j < i {
                            assert(keys@[j] < keys@[i as int]);
                            assert(self@.non_code_nodes[keys@[j]] == map_before[keys@[j]]);
                        }
                    }
                    assert forall|j: int| i + 1 <= j < keys.len() implies self@.non_code_nodes[
                        #[trigger] keys@[j]
                    ] == before.non_code_nodes[keys@[j]] by {
                        assert(keys@[i as int] < keys@[j]);
                        assert(self@.non_code_nodes[keys@[j]] == map_before[keys@[j]]);
                    }
                },
                None => {
                    assert(false);
                },
            }
            i += 1;
        }
        proof {
            let now = self@;
            assert(now.non_code_nodes =~= before.erased(false).non_code_nodes) by {
                assert forall|k: usize| before.non_code_nodes.contains_key(k) implies #[trigger] now.non_code_nodes[k]
                    == nodes_erased(before.non_code_nodes[k], false) by {
                    assert(keys@.contains(k));
                    let j = choose|j: int| 0 <= j < keys@.len() && keys@[j] == k;
                    assert(now.non_code_nodes[keys@[j]] == nodes_erased(
                        before.non_code_nodes[keys@[j]],
                        false,
                    ));
                }
            }
        }
    }
}

impl NonCodeMetaView {
    /// Where no digest is kept, every digest kept is valid.
    pub proof fn lemma_erased_valid(self)
        ensures
            self.erased(false).caches_valid(),
    {
    }
}

impl FnArgType {
    /// Takes away the digests kept in the type.
    pub fn clear_digests(&mut self)
        ensures
            final(self)@ == old(self)@.erased(false),
        decreases *old(self),
    {
        match self {
            FnArgType::Object { properties } => {
                clear_parameters(properties);
                assert(self@->Object_properties =~= old(self)@.erased(false)->Object_properties);
            },
            _ => {},
        }
    }
}

impl FnArgTypeView {
    /// Where no digest is kept, every digest kept is valid.
    pub proof fn lemma_erased_valid(self)
        ensures
            self.erased(false).caches_valid(),
        decreases self,
    {
        match self {
            FnArgTypeView::Object { properties } => {
                assert forall|i: int| 0 <= i < properties.len() implies (#[trigger] self.erased(
                    false,
                )->Object_properties[i]).caches_valid() by {
                    properties[i].lemma_erased_valid();
                }
            },
            _ => {},
        }
    }
}

impl Program {
    /// Takes away the digests kept in the node and below it.
    pub fn clear_digests(&mut self)
        ensures
            final(self)@ == old(self)@.erased(false),
        decreases *old(self),
    {
        self.digest = None;
        clear_body(&mut self.body);
        self.non_code_meta.clear_digests();
        assert(self@.body =~= old(self)@.erased(false).body);
    }
}

impl ProgramView {
    /// Where no digest is kept, every digest kept is valid.
    pub proof fn lemma_erased_valid(self)
        ensures
            self.erased(false).caches_valid(),
        decreases self,
    {
        assert forall|i: int| 0 <= i < self.body.len() implies (#[trigger] self.erased(false).body[i]).caches_valid() by {
            self.body[i].lemma_erased_valid();
        }
        self.non_code_meta.lemma_erased_valid();
    }
}

impl BodyItem {
    /// Takes away the digests kept below.
    pub fn clear_digests(&mut self)
        ensures
            final(self)@ == old(self)@.erased(false),
        decreases *old(self),
    {
        match self {
            BodyItem::ImportStatement(x) => x.clear_digests(),
            BodyItem::ExpressionStatement(x) => x.clear_digests(),
            BodyItem::VariableDeclaration(x) => x.clear_digests(),
            BodyItem::ReturnStatement(x) => x.clear_digests(),
        }
    }
}

impl BodyItemView {
    /// Where no digest is kept, every digest kept is valid.
    pub proof fn lemma_erased_valid(self)
        ensures
            self.erased(false).caches_valid(),
        decreases self,
    {
        match self {
            BodyItemView::ImportStatement(x) => {
                x.lemma_erased_valid();
            },
            BodyItemView::ExpressionStatement(x) => {
                x.lemma_erased_valid();
            },
            BodyItemView::VariableDeclaration(x) => {
                x.lemma_erased_valid();
            },
            BodyItemView::ReturnStatement(x) => {
                x.lemma_erased_valid();
            },
        }
    }
}

impl Expr {
    /// Takes away the digests kept below.
    #[verifier::rlimit(60)]
    pub fn clear_digests(&mut self)
        ensures
            final(self)@ == old(self)@.erased(false),
        decreases *old(self),
    {
        match self {
            Expr::Literal(x) => x.clear_digests(),
            Expr::Identifier(x) => x.clear_digests(),
            Expr::TagDeclarator(x) => x.clear_digests(),
            Expr::BinaryExpression(x) => x.clear_digests(),
            Expr::FunctionExpression(x) => x.clear_digests(),
            Expr::CallExpression(x) => x.clear_digests(),
            Expr::PipeExpression(x) => x.clear_digests(),
            Expr::PipeSubstitution(x) => x.clear_digests(),
            Expr::ArrayExpression(x) => x.clear_digests(),
            Expr::ArrayRangeExpression(x) => x.clear_digests(),
            Expr::ObjectExpression(x) => x.clear_digests(),
            Expr::MemberExpression(x) => x.clear_digests(),
            Expr::UnaryExpression(x) => x.clear_digests(),
            Expr::IfExpression(x) => x.clear_digests(),
            Expr::KclNone(_) => {},
        }
    }
}

impl ExprView {
    /// Where no digest is kept, every digest kept is valid.
    #[verifier::rlimit(60)]
    pub proof fn lemma_erased_valid(self)
        ensures
            self.erased(false).caches_valid(),
        decreases self,
    {
        match self {
            ExprView::Literal(x) => {
                x.lemma_erased_valid();
            },
            ExprView::Identifier(x) => {
                x.lemma_erased_valid();
            },
            ExprView::TagDeclarator(x) => {
                x.lemma_erased_valid();
            },
            ExprView::BinaryExpression(x) => {
                x.lemma_erased_valid();
            },
            ExprView::FunctionExpression(x) => {
                x.lemma_erased_valid();
            },
            ExprView::CallExpression(x) => {
                x.lemma_erased_valid();
            },
            ExprView::PipeExpression(x) => {
                x.lemma_erased_valid();
            },
            ExprView::PipeSubstitution(x) => {
                x.lemma_erased_valid();
            },
            ExprView::ArrayExpression(x) => {
                x.lemma_erased_valid();
            },
            ExprView::ArrayRangeExpression(x) => {
                x.lemma_erased_valid();
            },
            ExprView::ObjectExpression(x) => {
                x.lemma_erased_valid();
            },
            ExprView::MemberExpression(x) => {
                x.lemma_erased_valid();
            },
            ExprView::UnaryExpression(x) => {
                x.lemma_erased_valid();
            },
            ExprView::IfExpression(x) => {
                x.lemma_erased_valid();
            },
            ExprView::KclNone(_) => {},
        }
    }
}

impl BinaryPart {
    /// Takes away the digests kept below.
    pub fn clear_digests(&mut self)
        ensures
            final(self)@ == old(self)@.erased(false),
        decreases *old(self),
    {
        match self {
            BinaryPart::Literal(x) => x.clear_digests(),
            BinaryPart::Identifier(x) => x.clear_digests(),
            BinaryPart::BinaryExpression(x) => x.clear_digests(),
            BinaryPart::CallExpression(x) => x.clear_digests(),
            BinaryPart::UnaryExpression(x) => x.clear_digests(),
            BinaryPart::MemberExpression(x) => x.clear_digests(),
            BinaryPart::IfExpression(x) => x.clear_digests(),
        }
    }
}

impl BinaryPartView {
    /// Where no digest is kept, every digest kept is valid.
    pub proof fn lemma_erased_valid(self)
        ensures
            self.erased(false).caches_valid(),
        decreases self,
    {
        match self {
            BinaryPartView::Literal(x) => {
                x.lemma_erased_valid();
            },
            BinaryPartView::Identifier(x) => {
                x.lemma_erased_valid();
            },
            BinaryPartView::BinaryExpression(x) => {
                x.lemma_erased_valid();
            },
            BinaryPartView::CallExpression(x) => {
                x.lemma_erased_valid();
            },
            BinaryPartView::UnaryExpression(x) => {
                x.lemma_erased_valid();
            },
            BinaryPartView::MemberExpression(x) => {
                x.lemma_erased_valid();
            },
            BinaryPartView::IfExpression(x) => {
                x.lemma_erased_valid();
            },
        }
    }
}

impl ImportItem {
    /// Takes away the digests kept in the node and below it.
    pub fn clear_digests(&mut self)
        ensures
            final(self)@ == old(self)@.erased(false),
        decreases *old(self),
    {
        self.digest = None;
        self.name.clear_digests();
        match &mut self.alias {
            Some(x) => x.clear_digests(),
            None => {},
        }
    }
}

impl ImportItemView {
    /// Where no digest is kept, every digest kept is valid.
    pub proof fn lemma_erased_valid(self)
        ensures
            self.erased(false).caches_valid(),
        decreases self,
    {
        self.name.lemma_erased_valid();
        match self.alias {
            Some(x) => {
                x.lemma_erased_valid();
            },
            None => {},
        }
    }
}

impl ImportStatement {
    /// Takes away the digests kept in the node and below it.
    pub fn clear_digests(&mut self)
        ensures
            final(self)@ == old(self)@.erased(false),
        decreases *old(self),
    {
        self.digest = None;
        clear_import_items(&mut self.items);
        assert(self@.items =~= old(self)@.erased(false).items);
    }
}

impl ImportStatementView {
    /// Where no digest is kept, every digest kept is valid.
    pub proof fn lemma_erased_valid(self)
        ensures
            self.erased(false).caches_valid(),
        decreases self,
    {
        assert forall|i: int| 0 <= i < self.items.len() implies (#[trigger] self.erased(false).items[i]).caches_valid() by {
            self.items[i].lemma_erased_valid();
        }
    }
}

impl ExpressionStatement {
    /// Takes away the digests kept in the node and below it.
    pub fn clear_digests(&mut self)
        ensures
            final(self)@ == old(self)@.erased(false),
        decreases *old(self),
    {
        self.digest = None;
        self.expression.clear_digests();
    }
}

impl ExpressionStatementView {
    /// Where no digest is kept, every digest kept is valid.
    pub proof fn lemma_erased_valid(self)
        ensures
            self.erased(false).caches_valid(),
        decreases self,
    {
        self.expression.lemma_erased_valid();
    }
}

impl CallExpression {
    /// Takes away the digests kept in the node and below it.
    pub fn clear_digests(&mut self)
        ensures
            final(self)@ == old(self)@.erased(false),
        decreases *old(self),
    {
        self.digest = None;
        self.callee.clear_digests();
        clear_exprs(&mut self.arguments);
        assert(self@.arguments =~= old(self)@.erased(false).arguments);
    }
}

impl CallExpressionView {
    /// Where no digest is kept, every digest kept is valid.
    pub proof fn lemma_erased_valid(self)
        ensures
            self.erased(false).caches_valid(),
        decreases self,
    {
        self.callee.lemma_erased_valid();
        assert forall|i: int| 0 <= i < self.arguments.len() implies (#[trigger] self.erased(false).arguments[i]).caches_valid() by {
            self.arguments[i].lemma_erased_valid();
        }
    }
}

impl VariableDeclaration {
    /// Takes away the digests kept in the node and below it.
    pub fn clear_digests(&mut self)
        ensures
            final(self)@ == old(self)@.erased(false),
        decreases *old(self),
    {
        self.digest = None;
        clear_declarators(&mut self.declarations);
        assert(self@.declarations =~= old(self)@.erased(false).declarations);
    }
}

impl VariableDeclarationView {
    /// Where no digest is kept, every digest kept is valid.
    pub proof fn lemma_erased_valid(self)
        ensures
            self.erased(false).caches_valid(),
        decreases self,
    {
        assert forall|i: int| 0 <= i < self.declarations.len() implies (#[trigger] self.erased(false).declarations[i]).caches_valid() by {
            self.declarations[i].lemma_erased_valid();
        }
    }
}

impl VariableDeclarator {
    /// Takes away the digests kept in the node and below it.
    pub fn clear_digests(&mut self)
        ensures
            final(self)@ == old(self)@.erased(false),
        decreases *old(self),
    {
        self.digest = None;
        self.id.clear_digests();
        self.init.clear_digests();
    }
}

impl VariableDeclaratorView {
    /// Where no digest is kept, every digest kept is valid.
    pub proof fn lemma_erased_valid(self)
        ensures
            self.erased(false).caches_valid(),
        decreases self,
    {
        self.id.lemma_erased_valid();
        self.init.lemma_erased_valid();
    }
}

impl Literal {
    /// Takes away the digests kept in the node and below it.
    pub fn clear_digests(&mut self)
        ensures
            final(self)@ == old(self)@.erased(false),
        decreases *old(self),
    {
        self.digest = None;
    }
}

impl LiteralView {
    /// Where no digest is kept, every digest kept is valid.
    pub proof fn lemma_erased_valid(self)
        ensures
            self.erased(false).caches_valid(),
        decreases self,
    {
    }
}

impl Identifier {
    /// Takes away the digests kept in the node and below it.
    pub fn clear_digests(&mut self)
        ensures
            final(self)@ == old(self)@.erased(false),
        decreases *old(self),
    {
        self.digest = None;
    }
}

impl IdentifierView {
    /// Where no digest is kept, every digest kept is valid.
    pub proof fn lemma_erased_valid(self)
        ensures
            self.erased(false).caches_valid(),
        decreases self,
    {
    }
}

impl TagDeclarator {
    /// Takes away the digests kept in the node and below it.
    pub fn clear_digests(&mut self)
        ensures
            final(self)@ == old(self)@.erased(false),
        decreases *old(self),
    {
        self.digest = None;
    }
}

impl TagDeclaratorView {
    /// Where no digest is kept, every digest kept is valid.
    pub proof fn lemma_erased_valid(self)
        ensures
            self.erased(false).caches_valid(),
        decreases self,
    {
    }
}

impl PipeSubstitution {
    /// Takes away the digests kept in the node and below it.
    pub fn clear_digests(&mut self)
        ensures
            final(self)@ == old(self)@.erased(false),
        decreases *old(self),
    {
        self.digest = None;
    }
}

impl PipeSubstitutionView {
    /// Where no digest is kept, every digest kept is valid.
    pub proof fn lemma_erased_valid(self)
        ensures
            self.erased(false).caches_valid(),
        decreases self,
    {
    }
}

impl ArrayExpression {
    /// Takes away the digests kept in the node and below it.
    pub fn clear_digests(&mut self)
        ensures
            final(self)@ == old(self)@.erased(false),
        decreases *old(self),
    {
        self.digest = None;
        clear_exprs(&mut self.elements);
        self.non_code_meta.clear_digests();
        assert(self@.elements =~= old(self)@.erased(false).elements);
    }
}

impl ArrayExpressionView {
    /// Where no digest is kept, every digest kept is valid.
    pub proof fn lemma_erased_valid(self)
        ensures
            self.erased(false).caches_valid(),
        decreases self,
    {
        assert forall|i: int| 0 <= i < self.elements.len() implies (#[trigger] self.erased(false).elements[i]).caches_valid() by {
            self.elements[i].lemma_erased_valid();
        }
        self.non_code_meta.lemma_erased_valid();
    }
}

impl ArrayRangeExpression {
    /// Takes away the digests kept in the node and below it.
    pub fn clear_digests(&mut self)
        ensures
            final(self)@ == old(self)@.erased(false),
        decreases *old(self),
    {
        self.digest = None;
        self.start_element.clear_digests();
        self.end_element.clear_digests();
    }
}

impl ArrayRangeExpressionView {
    /// Where no digest is kept, every digest kept is valid.
    pub proof fn lemma_erased_valid(self)
        ensures
            self.erased(false).caches_valid(),
        decreases self,
    {
        self.start_element.lemma_erased_valid();
        self.end_element.lemma_erased_valid();
    }
}

impl ObjectExpression {
    /// Takes away the digests kept in the node and below it.
    pub fn clear_digests(&mut self)
        ensures
            final(self)@ == old(self)@.erased(false),
        decreases *old(self),
    {
        self.digest = None;
        clear_properties(&mut self.properties);
        self.non_code_meta.clear_digests();
        assert(self@.properties =~= old(self)@.erased(false).properties);
    }
}

impl ObjectExpressionView {
    /// Where no digest is kept, every digest kept is valid.
    pub proof fn lemma_erased_valid(self)
        ensures
            self.erased(false).caches_valid(),
        decreases self,
    {
        assert forall|i: int| 0 <= i < self.properties.len() implies (#[trigger] self.erased(false).properties[i]).caches_valid() by {
            self.properties[i].lemma_erased_valid();
        }
        self.non_code_meta.lemma_erased_valid();
    }
}

impl ObjectProperty {
    /// Takes away the digests kept in the node and below it.
    pub fn clear_digests(&mut self)
        ensures
            final(self)@ == old(self)@.erased(false),
        decreases *old(self),
    {
        self.digest = None;
        self.key.clear_digests();
        self.value.clear_digests();
    }
}

impl ObjectPropertyView {
    /// Where no digest is kept, every digest kept is valid.
    pub proof fn lemma_erased_valid(self)
        ensures
            self.erased(false).caches_valid(),
        decreases self,
    {
        self.key.lemma_erased_valid();
        self.value.lemma_erased_valid();
    }
}

impl MemberObject {
    /// Takes away the digests kept below.
    pub fn clear_digests(&mut self)
        ensures
            final(self)@ == old(self)@.erased(false),
        decreases *old(self),
    {
        match self {
            MemberObject::MemberExpression(x) => x.clear_digests(),
            MemberObject::Identifier(x) => x.clear_digests(),
        }
    }
}

impl MemberObjectView {
    /// Where no digest is kept, every digest kept is valid.
    pub proof fn lemma_erased_valid(self)
        ensures
            self.erased(false).caches_valid(),
        decreases self,
    {
        match self {
            MemberObjectView::MemberExpression(x) => {
                x.lemma_erased_valid();
            },
            MemberObjectView::Identifier(x) => {
                x.lemma_erased_valid();
            },
        }
    }
}

impl LiteralIdentifier {
    /// Takes away the digests kept below.
    pub fn clear_digests(&mut self)
        ensures
            final(self)@ == old(self)@.erased(false),
        decreases *old(self),
    {
        match self {
            LiteralIdentifier::Identifier(x) => x.clear_digests(),
            LiteralIdentifier::Literal(x) => x.clear_digests(),
        }
    }
}

impl LiteralIdentifierView {
    /// Where no digest is kept, every digest kept is valid.
    pub proof fn lemma_erased_valid(self)
        ensures
            self.erased(false).caches_valid(),
        decreases self,
    {
        match self {
            LiteralIdentifierView::Identifier(x) => {
                x.lemma_erased_valid();
            },
            LiteralIdentifierView::Literal(x) => {
                x.lemma_erased_valid();
            },
        }
    }
}

impl MemberExpression {
    /// Takes away the digests kept in the node and below it.
    pub fn clear_digests(&mut self)
        ensures
            final(self)@ == old(self)@.erased(false),
        decreases *old(self),
    {
        self.digest = None;
        self.object.clear_digests();
        self.property.clear_digests();
    }
}

impl MemberExpressionView {
    /// Where no digest is kept, every digest kept is valid.
    pub proof fn lemma_erased_valid(self)
        ensures
            self.erased(false).caches_valid(),
        decreases self,
    {
        self.object.lemma_erased_valid();
        self.property.lemma_erased_valid();
    }
}

impl BinaryExpression {
    /// Takes away the digests kept in the node and below it.
    pub fn clear_digests(&mut self)
        ensures
            final(self)@ == old(self)@.erased(false),
        decreases *old(self),
    {
        self.digest = None;
        self.left.clear_digests();
        self.right.clear_digests();
    }
}

impl BinaryExpressionView {
    /// Where no digest is kept, every digest kept is valid.
    pub proof fn lemma_erased_valid(self)
        ensures
            self.erased(false).caches_valid(),
        decreases self,
    {
        self.left.lemma_erased_valid();
        self.right.lemma_erased_valid();
    }
}

impl UnaryExpression {
    /// Takes away the digests kept in the node and below it.
    pub fn clear_digests(&mut self)
        ensures
            final(self)@ == old(self)@.erased(false),
        decreases *old(self),
    {
        self.digest = None;
        self.argument.clear_digests();
    }
}

impl UnaryExpressionView {
    /// Where no digest is kept, every digest kept is valid.
    pub proof fn lemma_erased_valid(self)
        ensures
            self.erased(false).caches_valid(),
        decreases self,
    {
        self.argument.lemma_erased_valid();
    }
}

impl PipeExpression {
    /// Takes away the digests kept in the node and below it.
    pub fn clear_digests(&mut self)
        ensures
            final(self)@ == old(self)@.erased(false),
        decreases *old(self),
    {
        self.digest = None;
        clear_exprs(&mut self.body);
        self.non_code_meta.clear_digests();
        assert(self@.body =~= old(self)@.erased(false).body);
    }
}

impl PipeExpressionView {
    /// Where no digest is kept, every digest kept is valid.
    pub proof fn lemma_erased_valid(self)
        ensures
            self.erased(false).caches_valid(),
        decreases self,
    {
        assert forall|i: int| 0 <= i < self.body.len() implies (#[trigger] self.erased(false).body[i]).caches_valid() by {
            self.body[i].lemma_erased_valid();
        }
        self.non_code_meta.lemma_erased_valid();
    }
}

impl Parameter {
    /// Takes away the digests kept in the node and below it.
    pub fn clear_digests(&mut self)
        ensures
            final(self)@ == old(self)@.erased(false),
        decreases *old(self),
    {
        self.digest = None;
        self.identifier.clear_digests();
        match &mut self.type_ {
            Some(x) => x.clear_digests(),
            None => {},
        }
    }
}

impl ParameterView {
    /// Where no digest is kept, every digest kept is valid.
    pub proof fn lemma_erased_valid(self)
        ensures
            self.erased(false).caches_valid(),
        decreases self,
    {
        self.identifier.lemma_erased_valid();
        match self.type_ {
            Some(x) => {
                x.lemma_erased_valid();
            },
            None => {},
        }
    }
}

impl FunctionExpression {
    /// Takes away the digests kept in the node and below it.
    pub fn clear_digests(&mut self)
        ensures
            final(self)@ == old(self)@.erased(false),
        decreases *old(self),
    {
        self.digest = None;
        clear_parameters(&mut self.params);
        self.body.clear_digests();
        match &mut self.return_type {
            Some(x) => x.clear_digests(),
            None => {},
        }
        assert(self@.params =~= old(self)@.erased(false).params);
    }
}

impl FunctionExpressionView {
    /// Where no digest is kept, every digest kept is valid.
    pub proof fn lemma_erased_valid(self)
        ensures
            self.erased(false).caches_valid(),
        decreases self,
    {
        assert forall|i: int| 0 <= i < self.params.len() implies (#[trigger] self.erased(false).params[i]).caches_valid() by {
            self.params[i].lemma_erased_valid();
        }
        self.body.lemma_erased_valid();
        match self.return_type {
            Some(x) => {
                x.lemma_erased_valid();
            },
            None => {},
        }
    }
}

impl ReturnStatement {
    /// Takes away the digests kept in the node and below it.
    pub fn clear_digests(&mut self)
        ensures
            final(self)@ == old(self)@.erased(false),
        decreases *old(self),
    {
        self.digest = None;
        self.argument.clear_digests();
    }
}

impl ReturnStatementView {
    /// Where no digest is kept, every digest kept is valid.
    pub proof fn lemma_erased_valid(self)
        ensures
            self.erased(false).caches_valid(),
        decreases self,
    {
        self.argument.lemma_erased_valid();
    }
}

impl IfExpression {
    /// Takes away the digests kept in the node and below it.
    pub fn clear_digests(&mut self)
        ensures
            final(self)@ == old(self)@.erased(false),
        decreases *old(self),
    {
        self.digest = None;
        self.cond.clear_digests();
        self.then_val.clear_digests();
        clear_else_ifs(&mut self.else_ifs);
        self.final_else.clear_digests();
        assert(self@.else_ifs =~= old(self)@.erased(false).else_ifs);
    }
}

impl IfExpressionView {
    /// Where no digest is kept, every digest kept is valid.
    pub proof fn lemma_erased_valid(self)
        ensures
            self.erased(false).caches_valid(),
        decreases self,
    {
        self.cond.lemma_erased_valid();
        self.then_val.lemma_erased_valid();
        assert forall|i: int| 0 <= i < self.else_ifs.len() implies (#[trigger] self.erased(false).else_ifs[i]).caches_valid() by {
            self.else_ifs[i].lemma_erased_valid();
        }
        self.final_else.lemma_erased_valid();
    }
}

impl ElseIf {
    /// Takes away the digests kept in the node and below it.
    pub fn clear_digests(&mut self)
        ensures
            final(self)@ == old(self)@.erased(false),
        decreases *old(self),
    {
        self.digest = None;
        self.cond.clear_digests();
        self.then_val.clear_digests();
    }
}

impl ElseIfView {
    /// Where no digest is kept, every digest kept is valid.
    pub proof fn lemma_erased_valid(self)
        ensures
            self.erased(false).caches_valid(),
        decreases self,
    {
        self.cond.lemma_erased_valid();
        self.then_val.lemma_erased_valid();
    }
}

/// Takes away the digests kept in the nodes of a list and below them.
fn clear_body(items: &mut Vec<BodyItem>)
    ensures
        final(items).len() == old(items).len(),
        forall|i: int|
            0 <= i < old(items).len() ==> (#[trigger] final(items)[i])@ == old(items)[i]@.erased(false),
    decreases *old(items),
{
    let mut i: usize = 0;
    while i < items.len()
        invariant
            i <= items.len(),
            items.len() == old(items).len(),
            forall|j: int| 0 <= j < i ==> (#[trigger] items[j])@ == old(items)[j]@.erased(false),
            forall|j: int| i <= j < items.len() ==> (#[trigger] items[j]) == old(items)[j],
        decreases items.len() - i,
    {
        items[i].clear_digests();
        i += 1;
    }
}

/// Takes away the digests kept in the nodes of a list and below them.
fn clear_exprs(items: &mut Vec<Expr>)
    ensures
        final(items).len() == old(items).len(),
        forall|i: int|
            0 <= i < old(items).len() ==> (#[trigger] final(items)[i])@ == old(items)[i]@.erased(false),
    decreases *old(items),
{
    let mut i: usize = 0;
    while i < items.len()
        invariant
            i <= items.len(),
            items.len() == old(items).len(),
            forall|j: int| 0 <= j < i ==> (#[trigger] items[j])@ == old(items)[j]@.erased(false),
            forall|j: int| i <= j < items.len() ==> (#[trigger] items[j]) == old(items)[j],
        decreases items.len() - i,
    {
        items[i].clear_digests();
        i += 1;
    }
}

/// Takes away the digests kept in the nodes of a list and below them.
fn clear_import_items(items: &mut Vec<ImportItem>)
    ensures
        final(items).len() == old(items).len(),
        forall|i: int|
            0 <= i < old(items).len() ==> (#[trigger] final(items)[i])@ == old(items)[i]@.erased(false),
    decreases *old(items),
{
    let mut i: usize = 0;
    while i < items.len()
        invariant
            i <= items.len(),
            items.len() == old(items).len(),
            forall|j: int| 0 <= j < i ==> (#[trigger] items[j])@ == old(items)[j]@.erased(false),
            forall|j: int| i <= j < items.len() ==> (#[trigger] items[j]) == old(items)[j],
        decreases items.len() - i,
    {
        items[i].clear_digests();
        i += 1;
    }
}

/// Takes away the digests kept in the nodes of a list and below them.
#[verifier::spinoff_prover]
#[verifier::rlimit(50)]
fn clear_declarators(items: &mut Vec<VariableDeclarator>)
    ensures
        final(items).len() == old(items).len(),
        forall|i: int|
            0 <= i < old(items).len() ==> (#[trigger] final(items)[i])@ == old(items)[i]@.erased(false),
    decreases *old(items),
{
    let mut i: usize = 0;
    while i < items.len()
        invariant
            i <= items.len(),
            items.len() == old(items).len(),
            forall|j: int| 0 <= j < i ==> (#[trigger] items[j])@ == old(items)[j]@.erased(false),
            forall|j: int| i <= j < items.len() ==> (#[trigger] items[j]) == old(items)[j],
        decreases items.len() - i,
    {
        items[i].clear_digests();
        i += 1;
    }
}

/// Takes away the digests kept in the nodes of a list and below them.
#[verifier::spinoff_prover]
#[verifier::rlimit(50)]
fn clear_properties(items: &mut Vec<ObjectProperty>)
    ensures
        final(items).len() == old(items).len(),
        forall|i: int|
            0 <= i < old(items).len() ==> (#[trigger] final(items)[i])@ == old(items)[i]@.erased(false),
    decreases *old(items),
{
    let mut i: usize = 0;
    while i < items.len()
        invariant
            i <= items.len(),
            items.len() == old(items).len(),
            forall|j: int| 0 <= j < i ==> (#[trigger] items[j])@ == old(items)[j]@.erased(false),
            forall|j: int| i <= j < items.len() ==> (#[trigger] items[j]) == old(items)[j],
        decreases items.len() - i,
    {
        items[i].clear_digests();
        i += 1;
    }
}

/// Takes away the digests kept in the nodes of a list and below them.
fn clear_parameters(items: &mut Vec<Parameter>)
    ensures
        final(items).len() == old(items).len(),
        forall|i: int|
            0 <= i < old(items).len() ==> (#[trigger] final(items)[i])@ == old(items)[i]@.erased(false),
    decreases *old(items),
{
    let mut i: usize = 0;
    while i < items.len()
        invariant
            i <= items.len(),
            items.len() == old(items).len(),
            forall|j: int| 0 <= j < i ==> (#[trigger] items[j])@ == old(items)[j]@.erased(false),
            forall|j: int| i <= j < items.len() ==> (#[trigger] items[j]) == old(items)[j],
        decreases items.len() - i,
    {
        items[i].clear_digests();
        i += 1;
    }
}

/// Takes away the digests kept in the nodes of a list and below them.
fn clear_else_ifs(items: &mut Vec<ElseIf>)
    ensures
        final(items).len() == old(items).len(),
        forall|i: int|
            0 <= i < old(items).len() ==> (#[trigger] final(items)[i])@ == old(items)[i]@.erased(false),
    decreases *old(items),
{
    let mut i: usize = 0;
    while i < items.len()
        invariant
            i <= items.len(),
            items.len() == old(items).len(),
            forall|j: int| 0 <= j < i ==> (#[trigger] items[j])@ == old(items)[j]@.erased(false),
            forall|j: int| i <= j < items.len() ==> (#[trigger] items[j]) == old(items)[j],
        decreases items.len() - i,
    {
        items[i].clear_digests();
        i += 1;
    }
}

/// Takes away the digests kept in the nodes of a list and below them.
fn clear_non_code_nodes(items: &mut Vec<NonCodeNode>)
    ensures
        final(items).len() == old(items).len(),
        forall|i: int|
            0 <= i < old(items).len() ==> (#[trigger] final(items)[i])@ == old(items)[i]@.erased(false),
{
    let mut i: usize = 0;
    while i < items.len()
        invariant
            i <= items.len(),
            items.len() == old(items).len(),
            forall|j: int| 0 <= j < i ==> (#[trigger] items[j])@ == old(items)[j]@.erased(false),
            forall|j: int| i <= j < items.len() ==> (#[trigger] items[j]) == old(items)[j],
        decreases items.len() - i,
    {
        items[i].clear_digests();
        i += 1;
    }
}

impl Program {
    /// The digest of the program as it is, whatever digests it keeps: these
    /// are taken away, and the digest is computed anew and kept.
    pub fn recompute_digest(&mut self) -> (digest: Digest)
        ensures
            digest@ == old(self)@.digest_of(),
            final(self)@ == old(self)@.erased(false).filled(),
            final(self)@.caches_valid(),
    {
        self.clear_digests();
        proof {
            old(self)@.lemma_erased_valid();
            old(self)@.lemma_digest_erased(false);
        }
        self.compute_digest()
    }
}

impl Expr {
    /// The digest of the expression as it is, whatever digests it keeps: these
    /// are taken away, and the digest is computed anew and kept.
    pub fn recompute_digest(&mut self) -> (digest: Digest)
        ensures
            digest@ == old(self)@.digest_of(),
            final(self)@ == old(self)@.erased(false).filled(),
            final(self)@.caches_valid(),
    {
        self.clear_digests();
        proof {
            old(self)@.lemma_erased_valid();
            old(self)@.lemma_digest_erased(false);
        }
        self.compute_digest()
    }
}

} // verus!
