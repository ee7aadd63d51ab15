//! What holds of digests.
//!
//! The digest of a node is a function of what the node and the nodes below it
//! hold, less the offsets and the digests kept in them. So the digest of a
//! tree is the same whenever it is computed, and two trees that differ only in
//! where their nodes stand in the text have the same digest.

use crate::ast::KclNone;
use crate::digest_nodes::{entries_pieces, node_digests, nodes_erased, nodes_under};
use crate::model::{
    ArrayExpressionView, ArrayRangeExpressionView, BinaryExpressionView, BinaryPartView,
    BodyItemView, CallExpressionView, ElseIfView, ExprView, ExpressionStatementView,
    FnArgTypeView, FunctionExpressionView, IdentifierView, IfExpressionView, ImportItemView,
    ImportStatementView, LiteralIdentifierView, LiteralView, MemberExpressionView,
    MemberObjectView, NonCodeMetaView, NonCodeNodeView, ObjectExpressionView,
    ObjectPropertyView, ParameterView, PipeExpressionView, PipeSubstitutionView, ProgramView,
    ReturnStatementView, TagDeclaratorView, UnaryExpressionView, VariableDeclarationView,
    VariableDeclaratorView,
};
use crate::order::ascending;
use vstd::prelude::*;

verus! {

impl KclNone {
    /// The digest does not depend on the offsets.
    pub proof fn lemma_digest_erased(self, offsets: bool)
        ensures
            self.erased(offsets).digest_of() == self.digest_of(),
    {
    }
}

impl NonCodeNodeView {
    /// The digest does not depend on the digest kept nor on the offsets.
    pub proof fn lemma_digest_erased(self, offsets: bool)
        ensures
            self.erased(offsets).digest_of() == self.digest_of(),
    {
    }
}

/// The nodes under the keys given contribute the same once they are erased.
proof fn lemma_entries_erased(map: Map<usize, Seq<NonCodeNodeView>>, keys: Seq<usize>, offsets: bool)
    ensures
        entries_pieces(
            Map::new(|k: usize| map.contains_key(k), |k: usize| nodes_erased(map[k], offsets)),
            keys,
        ) == entries_pieces(map, keys),
    decreases keys.len(),
{
    let erased = Map::new(|k: usize| map.contains_key(k), |k: usize| nodes_erased(map[k], offsets));
    if keys.len() > 0 {
        lemma_entries_erased(map, keys.drop_last(), offsets);
        let k = keys.last();
        let now = nodes_under(erased, k);
        let before = nodes_under(map, k);
        assert(node_digests(now) =~= node_digests(before)) by {
            assert forall|i: int| 0 <= i < before.len() implies (#[trigger] now[i]).digest_of()
                == before[i].digest_of() by {
                before[i].lemma_digest_erased(offsets);
            }
        }
    }
}

impl NonCodeMetaView {
    /// The digest does not depend on the digests kept nor on the offsets.
    pub proof fn lemma_digest_erased(self, offsets: bool)
        ensures
            self.erased(offsets).digest_of() == self.digest_of(),
    {
        let keys = ascending(self.non_code_nodes.dom());
        assert(self.erased(offsets).non_code_nodes.dom() =~= self.non_code_nodes.dom());
        lemma_entries_erased(self.non_code_nodes, keys, offsets);
        assert(node_digests(self.erased(offsets).start) =~= node_digests(self.start)) by {
            assert forall|i: int| 0 <= i < self.start.len() implies (#[trigger] self.erased(
                offsets,
            ).start[i]).digest_of() == self.start[i].digest_of() by {
                self.start[i].lemma_digest_erased(offsets);
            }
        }
        assert(self.erased(offsets).pieces() =~= self.pieces());
    }
}

impl FnArgTypeView {
    /// The digest does not depend on the digests kept nor on the offsets.
    pub proof fn lemma_digest_erased(self, offsets: bool)
        ensures
            self.erased(offsets).digest_of() == self.digest_of(),
        decreases self,
    {
        match self {
            FnArgTypeView::Object { properties } => {
                assert forall|i: int| 0 <= i < properties.len() implies (#[trigger] self.erased(
                    offsets,
                )->Object_properties[i]).digest_of() == properties[i].digest_of() by {
                    properties[i].lemma_digest_erased(offsets);
                }
                assert(self.erased(offsets).pieces() =~= self.pieces());
            },
            _ => {},
        }
    }
}

impl ProgramView {
    /// The digest does not depend on the digests kept nor on the offsets.
    pub proof fn lemma_digest_erased(self, offsets: bool)
        ensures
            self.erased(offsets).digest_of() == self.digest_of(),
        decreases self,
    {
        assert forall|i: int| 0 <= i < self.body.len() implies (#[trigger] self.erased(
            offsets,
        ).body[i]).digest_of() == self.body[i].digest_of() by {
            self.body[i].lemma_digest_erased(offsets);
        }
        self.non_code_meta.lemma_digest_erased(offsets);
        assert(self.erased(offsets).pieces() =~= self.pieces());
    }
}

impl BodyItemView {
    /// The digest does not depend on the digests kept nor on the offsets.
    pub proof fn lemma_digest_erased(self, offsets: bool)
        ensures
            self.erased(offsets).digest_of() == self.digest_of(),
        decreases self,
    {
        match self {
            BodyItemView::ImportStatement(x) => {
                x.lemma_digest_erased(offsets);
            },
            BodyItemView::ExpressionStatement(x) => {
                x.lemma_digest_erased(offsets);
            },
            BodyItemView::VariableDeclaration(x) => {
                x.lemma_digest_erased(offsets);
            },
            BodyItemView::ReturnStatement(x) => {
                x.lemma_digest_erased(offsets);
            },
        }
    }
}

impl ExprView {
    /// The digest does not depend on the digests kept nor on the offsets.
    #[verifier::rlimit(60)]
    pub proof fn lemma_digest_erased(self, offsets: bool)
        ensures
            self.erased(offsets).digest_of() == self.digest_of(),
        decreases self,
    {
        match self {
            ExprView::Literal(x) => {
                x.lemma_digest_erased(offsets);
            },
            ExprView::Identifier(x) => {
                x.lemma_digest_erased(offsets);
            },
            ExprView::TagDeclarator(x) => {
                x.lemma_digest_erased(offsets);
            },
            ExprView::BinaryExpression(x) => {
                x.lemma_digest_erased(offsets);
            },
            ExprView::FunctionExpression(x) => {
                x.lemma_digest_erased(offsets);
            },
            ExprView::CallExpression(x) => {
                x.lemma_digest_erased(offsets);
            },
            ExprView::PipeExpression(x) => {
                x.lemma_digest_erased(offsets);
            },
            ExprView::PipeSubstitution(x) => {
                x.lemma_digest_erased(offsets);
            },
            ExprView::ArrayExpression(x) => {
                x.lemma_digest_erased(offsets);
            },
            ExprView::ArrayRangeExpression(x) => {
                x.lemma_digest_erased(offsets);
            },
            ExprView::ObjectExpression(x) => {
                x.lemma_digest_erased(offsets);
            },
            ExprView::MemberExpression(x) => {
                x.lemma_digest_erased(offsets);
            },
            ExprView::UnaryExpression(x) => {
                x.lemma_digest_erased(offsets);
            },
            ExprView::IfExpression(x) => {
                x.lemma_digest_erased(offsets);
            },
            ExprView::KclNone(x) => {
                x.lemma_digest_erased(offsets);
            },
        }
    }
}

impl BinaryPartView {
    /// The digest does not depend on the digests kept nor on the offsets.
    pub proof fn lemma_digest_erased(self, offsets: bool)
        ensures
            self.erased(offsets).digest_of() == self.digest_of(),
        decreases self,
    {
        match self {
            BinaryPartView::Literal(x) => {
                x.lemma_digest_erased(offsets);
            },
            BinaryPartView::Identifier(x) => {
                x.lemma_digest_erased(offsets);
            },
            BinaryPartView::BinaryExpression(x) => {
                x.lemma_digest_erased(offsets);
            },
            BinaryPartView::CallExpression(x) => {
                x.lemma_digest_erased(offsets);
            },
            BinaryPartView::UnaryExpression(x) => {
                x.lemma_digest_erased(offsets);
            },
            BinaryPartView::MemberExpression(x) => {
                x.lemma_digest_erased(offsets);
            },
            BinaryPartView::IfExpression(x) => {
                x.lemma_digest_erased(offsets);
            },
        }
    }
}

impl ImportItemView {
    /// The digest does not depend on the digests kept nor on the offsets.
    pub proof fn lemma_digest_erased(self, offsets: bool)
        ensures
            self.erased(offsets).digest_of() == self.digest_of(),
        decreases self,
    {
        self.name.lemma_digest_erased(offsets);
        match self.alias {
            Some(x) => {
                x.lemma_digest_erased(offsets);
            },
            None => {},
        }
        assert(self.erased(offsets).pieces() =~= self.pieces());
    }
}

impl ImportStatementView {
    /// The digest does not depend on the digests kept nor on the offsets.
    pub proof fn lemma_digest_erased(self, offsets: bool)
        ensures
            self.erased(offsets).digest_of() == self.digest_of(),
        decreases self,
    {
        assert forall|i: int| 0 <= i < self.items.len() implies (#[trigger] self.erased(
            offsets,
        ).items[i]).digest_of() == self.items[i].digest_of() by {
            self.items[i].lemma_digest_erased(offsets);
        }
        assert(self.erased(offsets).pieces() =~= self.pieces());
    }
}

impl ExpressionStatementView {
    /// The digest does not depend on the digests kept nor on the offsets.
    pub proof fn lemma_digest_erased(self, offsets: bool)
        ensures
            self.erased(offsets).digest_of() == self.digest_of(),
        decreases self,
    {
        self.expression.lemma_digest_erased(offsets);
        assert(self.erased(offsets).pieces() =~= self.pieces());
    }
}

impl CallExpressionView {
    /// The digest does not depend on the digests kept nor on the offsets.
    pub proof fn lemma_digest_erased(self, offsets: bool)
        ensures
            self.erased(offsets).digest_of() == self.digest_of(),
        decreases self,
    {
        self.callee.lemma_digest_erased(offsets);
        assert forall|i: int| 0 <= i < self.arguments.len() implies (#[trigger] self.erased(
            offsets,
        ).arguments[i]).digest_of() == self.arguments[i].digest_of() by {
            self.arguments[i].lemma_digest_erased(offsets);
        }
        assert(self.erased(offsets).pieces() =~= self.pieces());
    }
}

impl VariableDeclarationView {
    /// The digest does not depend on the digests kept nor on the offsets.
    pub proof fn lemma_digest_erased(self, offsets: bool)
        ensures
            self.erased(offsets).digest_of() == self.digest_of(),
        decreases self,
    {
        assert forall|i: int| 0 <= i < self.declarations.len() implies (#[trigger] self.erased(
            offsets,
        ).declarations[i]).digest_of() == self.declarations[i].digest_of() by {
            self.declarations[i].lemma_digest_erased(offsets);
        }
        assert(self.erased(offsets).pieces() =~= self.pieces());
    }
}

impl VariableDeclaratorView {
    /// The digest does not depend on the digests kept nor on the offsets.
    pub proof fn lemma_digest_erased(self, offsets: bool)
        ensures
            self.erased(offsets).digest_of() == self.digest_of(),
        decreases self,
    {
        self.id.lemma_digest_erased(offsets);
        self.init.lemma_digest_erased(offsets);
        assert(self.erased(offsets).pieces() =~= self.pieces());
    }
}

impl LiteralView {
    /// The digest does not depend on the digests kept nor on the offsets.
    pub proof fn lemma_digest_erased(self, offsets: bool)
        ensures
            self.erased(offsets).digest_of() == self.digest_of(),
        decreases self,
    {
        assert(self.erased(offsets).pieces() =~= self.pieces());
    }
}

impl IdentifierView {
    /// The digest does not depend on the digests kept nor on the offsets.
    pub proof fn lemma_digest_erased(self, offsets: bool)
        ensures
            self.erased(offsets).digest_of() == self.digest_of(),
        decreases self,
    {
        assert(self.erased(offsets).pieces() =~= self.pieces());
    }
}

impl TagDeclaratorView {
    /// The digest does not depend on the digests kept nor on the offsets.
    pub proof fn lemma_digest_erased(self, offsets: bool)
        ensures
            self.erased(offsets).digest_of() == self.digest_of(),
        decreases self,
    {
        assert(self.erased(offsets).pieces() =~= self.pieces());
    }
}

impl PipeSubstitutionView {
    /// The digest does not depend on the digests kept nor on the offsets.
    pub proof fn lemma_digest_erased(self, offsets: bool)
        ensures
            self.erased(offsets).digest_of() == self.digest_of(),
        decreases self,
    {
        assert(self.erased(offsets).pieces() =~= self.pieces());
    }
}

impl ArrayExpressionView {
    /// The digest does not depend on the digests kept nor on the offsets.
    pub proof fn lemma_digest_erased(self, offsets: bool)
        ensures
            self.erased(offsets).digest_of() == self.digest_of(),
        decreases self,
    {
        assert forall|i: int| 0 <= i < self.elements.len() implies (#[trigger] self.erased(
            offsets,
        ).elements[i]).digest_of() == self.elements[i].digest_of() by {
            self.elements[i].lemma_digest_erased(offsets);
        }
        self.non_code_meta.lemma_digest_erased(offsets);
        assert(self.erased(offsets).pieces() =~= self.pieces());
    }
}

impl ArrayRangeExpressionView {
    /// The digest does not depend on the digests kept nor on the offsets.
    pub proof fn lemma_digest_erased(self, offsets: bool)
        ensures
            self.erased(offsets).digest_of() == self.digest_of(),
        decreases self,
    {
        self.start_element.lemma_digest_erased(offsets);
        self.end_element.lemma_digest_erased(offsets);
        assert(self.erased(offsets).pieces() =~= self.pieces());
    }
}

impl ObjectExpressionView {
    /// The digest does not depend on the digests kept nor on the offsets.
    pub proof fn lemma_digest_erased(self, offsets: bool)
        ensures
            self.erased(offsets).digest_of() == self.digest_of(),
        decreases self,
    {
        assert forall|i: int| 0 <= i < self.properties.len() implies (#[trigger] self.erased(
            offsets,
        ).properties[i]).digest_of() == self.properties[i].digest_of() by {
            self.properties[i].lemma_digest_erased(offsets);
        }
        self.non_code_meta.lemma_digest_erased(offsets);
        assert(self.erased(offsets).pieces() =~= self.pieces());
    }
}

impl ObjectPropertyView {
    /// The digest does not depend on the digests kept nor on the offsets.
    pub proof fn lemma_digest_erased(self, offsets: bool)
        ensures
            self.erased(offsets).digest_of() == self.digest_of(),
        decreases self,
    {
        self.key.lemma_digest_erased(offsets);
        self.value.lemma_digest_erased(offsets);
        assert(self.erased(offsets).pieces() =~= self.pieces());
    }
}

impl MemberObjectView {
    /// The digest does not depend on the digests kept nor on the offsets.
    pub proof fn lemma_digest_erased(self, offsets: bool)
        ensures
            self.erased(offsets).digest_of() == self.digest_of(),
        decreases self,
    {
        match self {
            MemberObjectView::MemberExpression(x) => {
                x.lemma_digest_erased(offsets);
            },
            MemberObjectView::Identifier(x) => {
                x.lemma_digest_erased(offsets);
            },
        }
    }
}

impl LiteralIdentifierView {
    /// The digest does not depend on the digests kept nor on the offsets.
    pub proof fn lemma_digest_erased(self, offsets: bool)
        ensures
            self.erased(offsets).digest_of() == self.digest_of(),
        decreases self,
    {
        match self {
            LiteralIdentifierView::Identifier(x) => {
                x.lemma_digest_erased(offsets);
            },
            LiteralIdentifierView::Literal(x) => {
                x.lemma_digest_erased(offsets);
            },
        }
    }
}

impl MemberExpressionView {
    /// The digest does not depend on the digests kept nor on the offsets.
    pub proof fn lemma_digest_erased(self, offsets: bool)
        ensures
            self.erased(offsets).digest_of() == self.digest_of(),
        decreases self,
    {
        self.object.lemma_digest_erased(offsets);
        self.property.lemma_digest_erased(offsets);
        assert(self.erased(offsets).pieces() =~= self.pieces());
    }
}

impl BinaryExpressionView {
    /// The digest does not depend on the digests kept nor on the offsets.
    pub proof fn lemma_digest_erased(self, offsets: bool)
        ensures
            self.erased(offsets).digest_of() == self.digest_of(),
        decreases self,
    {
        self.left.lemma_digest_erased(offsets);
        self.right.lemma_digest_erased(offsets);
        assert(self.erased(offsets).pieces() =~= self.pieces());
    }
}

impl UnaryExpressionView {
    /// The digest does not depend on the digests kept nor on the offsets.
    pub proof fn lemma_digest_erased(self, offsets: bool)
        ensures
            self.erased(offsets).digest_of() == self.digest_of(),
        decreases self,
    {
        self.argument.lemma_digest_erased(offsets);
        assert(self.erased(offsets).pieces() =~= self.pieces());
    }
}

impl PipeExpressionView {
    /// The digest does not depend on the digests kept nor on the offsets.
    pub proof fn lemma_digest_erased(self, offsets: bool)
        ensures
            self.erased(offsets).digest_of() == self.digest_of(),
        decreases self,
    {
        assert forall|i: int| 0 <= i < self.body.len() implies (#[trigger] self.erased(
            offsets,
        ).body[i]).digest_of() == self.body[i].digest_of() by {
            self.body[i].lemma_digest_erased(offsets);
        }
        self.non_code_meta.lemma_digest_erased(offsets);
        assert(self.erased(offsets).pieces() =~= self.pieces());
    }
}

impl ParameterView {
    /// The digest does not depend on the digests kept nor on the offsets.
    pub proof fn lemma_digest_erased(self, offsets: bool)
        ensures
            self.erased(offsets).digest_of() == self.digest_of(),
        decreases self,
    {
        self.identifier.lemma_digest_erased(offsets);
        match self.type_ {
            Some(x) => {
                x.lemma_digest_erased(offsets);
            },
            None => {},
        }
        assert(self.erased(offsets).pieces() =~= self.pieces());
    }
}

impl FunctionExpressionView {
    /// The digest does not depend on the digests kept nor on the offsets.
    pub proof fn lemma_digest_erased(self, offsets: bool)
        ensures
            self.erased(offsets).digest_of() == self.digest_of(),
        decreases self,
    {
        assert forall|i: int| 0 <= i < self.params.len() implies (#[trigger] self.erased(
            offsets,
        ).params[i]).digest_of() == self.params[i].digest_of() by {
            self.params[i].lemma_digest_erased(offsets);
        }
        self.body.lemma_digest_erased(offsets);
        match self.return_type {
            Some(x) => {
                x.lemma_digest_erased(offsets);
            },
            None => {},
        }
        assert(self.erased(offsets).pieces() =~= self.pieces());
    }
}

impl ReturnStatementView {
    /// The digest does not depend on the digests kept nor on the offsets.
    pub proof fn lemma_digest_erased(self, offsets: bool)
        ensures
            self.erased(offsets).digest_of() == self.digest_of(),
        decreases self,
    {
        self.argument.lemma_digest_erased(offsets);
        assert(self.erased(offsets).pieces() =~= self.pieces());
    }
}

impl IfExpressionView {
    /// The digest does not depend on the digests kept nor on the offsets.
    pub proof fn lemma_digest_erased(self, offsets: bool)
        ensures
            self.erased(offsets).digest_of() == self.digest_of(),
        decreases self,
    {
        self.cond.lemma_digest_erased(offsets);
        self.then_val.lemma_digest_erased(offsets);
        assert forall|i: int| 0 <= i < self.else_ifs.len() implies (#[trigger] self.erased(
            offsets,
        ).else_ifs[i]).digest_of() == self.else_ifs[i].digest_of() by {
            self.else_ifs[i].lemma_digest_erased(offsets);
        }
        self.final_else.lemma_digest_erased(offsets);
        assert(self.erased(offsets).pieces() =~= self.pieces());
    }
}

impl ElseIfView {
    /// The digest does not depend on the digests kept nor on the offsets.
    pub proof fn lemma_digest_erased(self, offsets: bool)
        ensures
            self.erased(offsets).digest_of() == self.digest_of(),
        decreases self,
    {
        self.cond.lemma_digest_erased(offsets);
        self.then_val.lemma_digest_erased(offsets);
        assert(self.erased(offsets).pieces() =~= self.pieces());
    }
}

/// The digest of a program is the same whenever it is computed, and does not
/// depend on where the nodes of the program stand in the text: two programs
/// that are the same but for offsets and for the digests kept in them have the
/// same digest.
pub proof fn lemma_digest_ignores_offsets(a: ProgramView, b: ProgramView)
    requires
        a.erased(true) == b.erased(true),
    ensures
        a.digest_of() == b.digest_of(),
{
    a.lemma_digest_erased(true);
    b.lemma_digest_erased(true);
}

/// The digest of an expression does not depend on where the expression stands
/// in the text: it keeps its digest when it moves.
pub proof fn lemma_expr_digest_ignores_offsets(a: ExprView, b: ExprView)
    requires
        a.erased(true) == b.erased(true),
    ensures
        a.digest_of() == b.digest_of(),
{
    a.lemma_digest_erased(true);
    b.lemma_digest_erased(true);
}

} // verus!
