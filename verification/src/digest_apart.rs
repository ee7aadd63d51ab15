//! Whether the digest tells trees apart.
//!
//! A digest has 32 bytes, and there are more trees than that, so some two
//! trees have the same digest. None are known: SHA-256 is made so that none
//! can be found. What is proved here is that the hash is the only place where
//! two trees can fall together: where no two sequences of pieces have the same
//! digest, two trees with the same digest hold the same, but for the offsets
//! and the digests kept in them.

use crate::ast::{
    BinaryOperator, CommentStyle, FnArgPrimitive, ItemVisibility, KclNone, UnaryOperator,
    VariableKind,
};
use crate::digest::{digest_of_pieces, flag_bytes, number_bytes, text_bytes};
use crate::digest_nodes::{
    entries_pieces, entry_pieces, node_digests, nodes_erased, nodes_under, TAG_ARRAY_EXPRESSION,
    TAG_ARRAY_RANGE_EXPRESSION, TAG_BINARY_EXPRESSION, TAG_CALL_EXPRESSION, TAG_ELSE_IF,
    TAG_EXPRESSION_STATEMENT, TAG_FUNCTION_EXPRESSION, TAG_IDENTIFIER, TAG_IF_EXPRESSION,
    TAG_IMPORT_ITEM, TAG_IMPORT_STATEMENT, TAG_KCL_NONE, TAG_LITERAL, TAG_MEMBER_EXPRESSION,
    TAG_OBJECT_EXPRESSION, TAG_OBJECT_PROPERTY, TAG_PARAMETER, TAG_PIPE_EXPRESSION,
    TAG_PIPE_SUBSTITUTION, TAG_PROGRAM, TAG_RETURN_STATEMENT, TAG_TAG_DECLARATOR,
    TAG_UNARY_EXPRESSION, TAG_VARIABLE_DECLARATION, TAG_VARIABLE_DECLARATOR,
};
use crate::model::{
    ArrayExpressionView, ArrayRangeExpressionView, BinaryExpressionView, BinaryPartView,
    BodyItemView, CallExpressionView, ElseIfView, ExprView, ExpressionStatementView, FnArgTypeView,
    FunctionExpressionView, IdentifierView, IfExpressionView, ImportItemView, ImportStatementView,
    LiteralIdentifierView, LiteralValueView, LiteralView, MemberExpressionView, MemberObjectView,
    NonCodeMetaView, NonCodeNodeView, NonCodeValueView, ObjectExpressionView, ObjectPropertyView,
    ParameterView, PipeExpressionView, PipeSubstitutionView, ProgramView, ReturnStatementView,
    TagDeclaratorView, UnaryExpressionView, VariableDeclarationView, VariableDeclaratorView,
};
use crate::order::{ascending, lists_ascending};
use vstd::bytes::{
    lemma_auto_spec_u64_to_from_le_bytes, spec_u64_from_le_bytes, spec_u64_to_le_bytes,
};
use vstd::prelude::*;

verus! {

/// Whether no two sequences of pieces have the same digest. No hash of a fixed
/// size is like that; SHA-256 is made so that no two such sequences are known.
pub open spec fn collision_free() -> bool {
    forall|x: Seq<Seq<u8>>, y: Seq<Seq<u8>>|
        #[trigger] digest_of_pieces(x) == #[trigger] digest_of_pieces(y) ==> x == y
}

/// No two texts have the same bytes.
pub proof fn lemma_text_apart(a: Seq<char>, b: Seq<char>)
    requires
        text_bytes(a) == text_bytes(b),
    ensures
        a == b,
{
    vstd::utf8::encode_utf8_decode_utf8(a);
    vstd::utf8::encode_utf8_decode_utf8(b);
}

/// No two numbers below 2^64 have the same bytes.
pub proof fn lemma_number_apart(a: int, b: int)
    requires
        0 <= a <= u64::MAX,
        0 <= b <= u64::MAX,
        number_bytes(a) == number_bytes(b),
    ensures
        a == b,
{
    lemma_auto_spec_u64_to_from_le_bytes();
    assert(spec_u64_from_le_bytes(spec_u64_to_le_bytes(a as u64)) == a as u64);
    assert(spec_u64_from_le_bytes(spec_u64_to_le_bytes(b as u64)) == b as u64);
}

/// The two truth values have different bytes.
pub proof fn lemma_flag_apart(a: bool, b: bool)
    requires
        flag_bytes(a) == flag_bytes(b),
    ensures
        a == b,
{
    assert(flag_bytes(true)[0] == 1u8);
    assert(flag_bytes(false)[0] == 0u8);
}

/// No two of these have the same bytes in a digest.
pub proof fn lemma_binary_operator_apart(a: BinaryOperator, b: BinaryOperator)
    requires
        a.digest_id() == b.digest_id(),
    ensures
        a == b,
{
    let x = a.digest_id();
    let y = b.digest_id();
    assert(BinaryOperator::Add.digest_id().len() == 3);
    assert(BinaryOperator::Sub.digest_id().len() == 3);
    assert(BinaryOperator::Mul.digest_id().len() == 3);
    assert(BinaryOperator::Div.digest_id().len() == 3);
    assert(BinaryOperator::Mod.digest_id().len() == 3);
    assert(BinaryOperator::Pow.digest_id().len() == 3);
    assert(BinaryOperator::Eq.digest_id().len() == 3);
    assert(BinaryOperator::Neq.digest_id().len() == 3);
    assert(BinaryOperator::Gt.digest_id().len() == 3);
    assert(BinaryOperator::Gte.digest_id().len() == 3);
    assert(BinaryOperator::Lt.digest_id().len() == 3);
    assert(BinaryOperator::Lte.digest_id().len() == 3);
    assert(x[0] == y[0]);
    assert(x[1] == y[1]);
    assert(x[2] == y[2]);
}

/// No two of these have the same bytes in a digest.
pub proof fn lemma_unary_operator_apart(a: UnaryOperator, b: UnaryOperator)
    requires
        a.digest_id() == b.digest_id(),
    ensures
        a == b,
{
    let x = a.digest_id();
    let y = b.digest_id();
    assert(UnaryOperator::Neg.digest_id().len() == 3);
    assert(UnaryOperator::Not.digest_id().len() == 3);
    assert(x[0] == y[0]);
    assert(x[1] == y[1]);
    assert(x[2] == y[2]);
}

/// No two of these have the same bytes in a digest.
pub proof fn lemma_item_visibility_apart(a: ItemVisibility, b: ItemVisibility)
    requires
        a.digest_id() == b.digest_id(),
    ensures
        a == b,
{
    let x = a.digest_id();
    let y = b.digest_id();
    assert(ItemVisibility::Default.digest_id().len() == 1);
    assert(ItemVisibility::Export.digest_id().len() == 1);
    assert(x[0] == y[0]);
}

/// No two of these have the same bytes in a digest.
pub proof fn lemma_variable_kind_apart(a: VariableKind, b: VariableKind)
    requires
        a.digest_id() == b.digest_id(),
    ensures
        a == b,
{
    let x = a.digest_id();
    let y = b.digest_id();
    assert(VariableKind::Const.digest_id().len() == 1);
    assert(VariableKind::Fn.digest_id().len() == 1);
    assert(x[0] == y[0]);
}

/// No two of these have the same bytes in a digest.
pub proof fn lemma_comment_style_apart(a: CommentStyle, b: CommentStyle)
    requires
        a.digest_id() == b.digest_id(),
    ensures
        a == b,
{
    let x = a.digest_id();
    let y = b.digest_id();
    assert(CommentStyle::Line.digest_id().len() == 2);
    assert(CommentStyle::Block.digest_id().len() == 2);
    assert(x[0] == y[0]);
    assert(x[1] == y[1]);
}

/// No two of these have the same bytes in a digest.
pub proof fn lemma_fn_arg_primitive_apart(a: FnArgPrimitive, b: FnArgPrimitive)
    requires
        a.digest_id() == b.digest_id(),
    ensures
        a == b,
{
    let x = a.digest_id();
    let y = b.digest_id();
    assert(FnArgPrimitive::String.digest_id().len() == 1);
    assert(FnArgPrimitive::Number.digest_id().len() == 1);
    assert(FnArgPrimitive::Boolean.digest_id().len() == 1);
    assert(FnArgPrimitive::Tag.digest_id().len() == 1);
    assert(FnArgPrimitive::Sketch.digest_id().len() == 1);
    assert(FnArgPrimitive::SketchSurface.digest_id().len() == 1);
    assert(FnArgPrimitive::Solid.digest_id().len() == 1);
    assert(x[0] == y[0]);
}

impl ProgramView {
    /// Whether every list in the node and below it is shorter than 2^64, and
    /// the keys under which it holds what is no code can be listed: what
    /// every tree that is held in memory fulfils.
    pub open spec fn fits(self) -> bool
        decreases self,
    {
        &&& self.body.len() <= u64::MAX
        &&& forall|i: int| 0 <= i < self.body.len() ==> (#[trigger] self.body[i]).fits()
        &&& self.non_code_meta.fits()
    }
}

impl BodyItemView {
    /// Whether the node that this stands for fits.
    pub open spec fn fits(self) -> bool
        decreases self,
    {
        match self {
            BodyItemView::ImportStatement(x) => x.fits(),
            BodyItemView::ExpressionStatement(x) => x.fits(),
            BodyItemView::VariableDeclaration(x) => x.fits(),
            BodyItemView::ReturnStatement(x) => x.fits(),
        }
    }

    /// The byte that tells the type of the node that this stands for.
    pub open spec fn tag(self) -> u8 {
        match self {
            BodyItemView::ImportStatement(_) => TAG_IMPORT_STATEMENT,
            BodyItemView::ExpressionStatement(_) => TAG_EXPRESSION_STATEMENT,
            BodyItemView::VariableDeclaration(_) => TAG_VARIABLE_DECLARATION,
            BodyItemView::ReturnStatement(_) => TAG_RETURN_STATEMENT,
        }
    }

    /// The pieces that the digest is made of: those of the node that this
    /// stands for.
    pub open spec fn pieces(self) -> Seq<Seq<u8>> {
        match self {
            BodyItemView::ImportStatement(x) => x.pieces(),
            BodyItemView::ExpressionStatement(x) => x.pieces(),
            BodyItemView::VariableDeclaration(x) => x.pieces(),
            BodyItemView::ReturnStatement(x) => x.pieces(),
        }
    }
}

impl ExprView {
    /// Whether the node that this stands for fits.
    pub open spec fn fits(self) -> bool
        decreases self,
    {
        match self {
            ExprView::Literal(x) => x.fits(),
            ExprView::Identifier(x) => x.fits(),
            ExprView::TagDeclarator(x) => x.fits(),
            ExprView::BinaryExpression(x) => x.fits(),
            ExprView::FunctionExpression(x) => x.fits(),
            ExprView::CallExpression(x) => x.fits(),
            ExprView::PipeExpression(x) => x.fits(),
            ExprView::PipeSubstitution(x) => x.fits(),
            ExprView::ArrayExpression(x) => x.fits(),
            ExprView::ArrayRangeExpression(x) => x.fits(),
            ExprView::ObjectExpression(x) => x.fits(),
            ExprView::MemberExpression(x) => x.fits(),
            ExprView::UnaryExpression(x) => x.fits(),
            ExprView::IfExpression(x) => x.fits(),
            ExprView::KclNone(x) => true,
        }
    }

    /// The byte that tells the type of the node that this stands for.
    pub open spec fn tag(self) -> u8 {
        match self {
            ExprView::Literal(_) => TAG_LITERAL,
            ExprView::Identifier(_) => TAG_IDENTIFIER,
            ExprView::TagDeclarator(_) => TAG_TAG_DECLARATOR,
            ExprView::BinaryExpression(_) => TAG_BINARY_EXPRESSION,
            ExprView::FunctionExpression(_) => TAG_FUNCTION_EXPRESSION,
            ExprView::CallExpression(_) => TAG_CALL_EXPRESSION,
            ExprView::PipeExpression(_) => TAG_PIPE_EXPRESSION,
            ExprView::PipeSubstitution(_) => TAG_PIPE_SUBSTITUTION,
            ExprView::ArrayExpression(_) => TAG_ARRAY_EXPRESSION,
            ExprView::ArrayRangeExpression(_) => TAG_ARRAY_RANGE_EXPRESSION,
            ExprView::ObjectExpression(_) => TAG_OBJECT_EXPRESSION,
            ExprView::MemberExpression(_) => TAG_MEMBER_EXPRESSION,
            ExprView::UnaryExpression(_) => TAG_UNARY_EXPRESSION,
            ExprView::IfExpression(_) => TAG_IF_EXPRESSION,
            ExprView::KclNone(_) => TAG_KCL_NONE,
        }
    }

    /// The pieces that the digest is made of: those of the node that this
    /// stands for.
    pub open spec fn pieces(self) -> Seq<Seq<u8>> {
        match self {
            ExprView::Literal(x) => x.pieces(),
            ExprView::Identifier(x) => x.pieces(),
            ExprView::TagDeclarator(x) => x.pieces(),
            ExprView::BinaryExpression(x) => x.pieces(),
            ExprView::FunctionExpression(x) => x.pieces(),
            ExprView::CallExpression(x) => x.pieces(),
            ExprView::PipeExpression(x) => x.pieces(),
            ExprView::PipeSubstitution(x) => x.pieces(),
            ExprView::ArrayExpression(x) => x.pieces(),
            ExprView::ArrayRangeExpression(x) => x.pieces(),
            ExprView::ObjectExpression(x) => x.pieces(),
            ExprView::MemberExpression(x) => x.pieces(),
            ExprView::UnaryExpression(x) => x.pieces(),
            ExprView::IfExpression(x) => x.pieces(),
            ExprView::KclNone(x) => x.pieces(),
        }
    }
}

impl BinaryPartView {
    /// Whether the node that this stands for fits.
    pub open spec fn fits(self) -> bool
        decreases self,
    {
        match self {
            BinaryPartView::Literal(x) => x.fits(),
            BinaryPartView::Identifier(x) => x.fits(),
            BinaryPartView::BinaryExpression(x) => x.fits(),
            BinaryPartView::CallExpression(x) => x.fits(),
            BinaryPartView::UnaryExpression(x) => x.fits(),
            BinaryPartView::MemberExpression(x) => x.fits(),
            BinaryPartView::IfExpression(x) => x.fits(),
        }
    }

    /// The byte that tells the type of the node that this stands for.
    pub open spec fn tag(self) -> u8 {
        match self {
            BinaryPartView::Literal(_) => TAG_LITERAL,
            BinaryPartView::Identifier(_) => TAG_IDENTIFIER,
            BinaryPartView::BinaryExpression(_) => TAG_BINARY_EXPRESSION,
            BinaryPartView::CallExpression(_) => TAG_CALL_EXPRESSION,
            BinaryPartView::UnaryExpression(_) => TAG_UNARY_EXPRESSION,
            BinaryPartView::MemberExpression(_) => TAG_MEMBER_EXPRESSION,
            BinaryPartView::IfExpression(_) => TAG_IF_EXPRESSION,
        }
    }

    /// The pieces that the digest is made of: those of the node that this
    /// stands for.
    pub open spec fn pieces(self) -> Seq<Seq<u8>> {
        match self {
            BinaryPartView::Literal(x) => x.pieces(),
            BinaryPartView::Identifier(x) => x.pieces(),
            BinaryPartView::BinaryExpression(x) => x.pieces(),
            BinaryPartView::CallExpression(x) => x.pieces(),
            BinaryPartView::UnaryExpression(x) => x.pieces(),
            BinaryPartView::MemberExpression(x) => x.pieces(),
            BinaryPartView::IfExpression(x) => x.pieces(),
        }
    }
}

impl ImportItemView {
    /// Whether every list in the node and below it is shorter than 2^64, and
    /// the keys under which it holds what is no code can be listed: what
    /// every tree that is held in memory fulfils.
    pub open spec fn fits(self) -> bool
        decreases self,
    {
        &&& self.name.fits()
        &&& (match self.alias {
            Some(x) => x.fits(),
            None => true,
        })
    }
}

impl ImportStatementView {
    /// Whether every list in the node and below it is shorter than 2^64, and
    /// the keys under which it holds what is no code can be listed: what
    /// every tree that is held in memory fulfils.
    pub open spec fn fits(self) -> bool
        decreases self,
    {
        &&& self.items.len() <= u64::MAX
        &&& forall|i: int| 0 <= i < self.items.len() ==> (#[trigger] self.items[i]).fits()
    }
}

impl ExpressionStatementView {
    /// Whether every list in the node and below it is shorter than 2^64, and
    /// the keys under which it holds what is no code can be listed: what
    /// every tree that is held in memory fulfils.
    pub open spec fn fits(self) -> bool
        decreases self,
    {
        &&& self.expression.fits()
    }
}

impl CallExpressionView {
    /// Whether every list in the node and below it is shorter than 2^64, and
    /// the keys under which it holds what is no code can be listed: what
    /// every tree that is held in memory fulfils.
    pub open spec fn fits(self) -> bool
        decreases self,
    {
        &&& self.callee.fits()
        &&& self.arguments.len() <= u64::MAX
        &&& forall|i: int| 0 <= i < self.arguments.len() ==> (#[trigger] self.arguments[i]).fits()
    }
}

impl VariableDeclarationView {
    /// Whether every list in the node and below it is shorter than 2^64, and
    /// the keys under which it holds what is no code can be listed: what
    /// every tree that is held in memory fulfils.
    pub open spec fn fits(self) -> bool
        decreases self,
    {
        &&& self.declarations.len() <= u64::MAX
        &&& forall|i: int| 0 <= i < self.declarations.len() ==> (#[trigger] self.declarations[i]).fits()
    }
}

impl VariableDeclaratorView {
    /// Whether every list in the node and below it is shorter than 2^64, and
    /// the keys under which it holds what is no code can be listed: what
    /// every tree that is held in memory fulfils.
    pub open spec fn fits(self) -> bool
        decreases self,
    {
        &&& self.id.fits()
        &&& self.init.fits()
    }
}

impl LiteralView {
    /// Whether every list in the node and below it is shorter than 2^64, and
    /// the keys under which it holds what is no code can be listed: what
    /// every tree that is held in memory fulfils.
    pub open spec fn fits(self) -> bool
        decreases self,
    {
        true
    }
}

impl IdentifierView {
    /// Whether every list in the node and below it is shorter than 2^64, and
    /// the keys under which it holds what is no code can be listed: what
    /// every tree that is held in memory fulfils.
    pub open spec fn fits(self) -> bool
        decreases self,
    {
        true
    }
}

impl TagDeclaratorView {
    /// Whether every list in the node and below it is shorter than 2^64, and
    /// the keys under which it holds what is no code can be listed: what
    /// every tree that is held in memory fulfils.
    pub open spec fn fits(self) -> bool
        decreases self,
    {
        true
    }
}

impl PipeSubstitutionView {
    /// Whether every list in the node and below it is shorter than 2^64, and
    /// the keys under which it holds what is no code can be listed: what
    /// every tree that is held in memory fulfils.
    pub open spec fn fits(self) -> bool
        decreases self,
    {
        true
    }
}

impl ArrayExpressionView {
    /// Whether every list in the node and below it is shorter than 2^64, and
    /// the keys under which it holds what is no code can be listed: what
    /// every tree that is held in memory fulfils.
    pub open spec fn fits(self) -> bool
        decreases self,
    {
        &&& self.elements.len() <= u64::MAX
        &&& forall|i: int| 0 <= i < self.elements.len() ==> (#[trigger] self.elements[i]).fits()
        &&& self.non_code_meta.fits()
    }
}

impl ArrayRangeExpressionView {
    /// Whether every list in the node and below it is shorter than 2^64, and
    /// the keys under which it holds what is no code can be listed: what
    /// every tree that is held in memory fulfils.
    pub open spec fn fits(self) -> bool
        decreases self,
    {
        &&& self.start_element.fits()
        &&& self.end_element.fits()
    }
}

impl ObjectExpressionView {
    /// Whether every list in the node and below it is shorter than 2^64, and
    /// the keys under which it holds what is no code can be listed: what
    /// every tree that is held in memory fulfils.
    pub open spec fn fits(self) -> bool
        decreases self,
    {
        &&& self.properties.len() <= u64::MAX
        &&& forall|i: int| 0 <= i < self.properties.len() ==> (#[trigger] self.properties[i]).fits()
        &&& self.non_code_meta.fits()
    }
}

impl ObjectPropertyView {
    /// Whether every list in the node and below it is shorter than 2^64, and
    /// the keys under which it holds what is no code can be listed: what
    /// every tree that is held in memory fulfils.
    pub open spec fn fits(self) -> bool
        decreases self,
    {
        &&& self.key.fits()
        &&& self.value.fits()
    }
}

impl MemberObjectView {
    /// Whether the node that this stands for fits.
    pub open spec fn fits(self) -> bool
        decreases self,
    {
        match self {
            MemberObjectView::MemberExpression(x) => x.fits(),
            MemberObjectView::Identifier(x) => x.fits(),
        }
    }

    /// The byte that tells the type of the node that this stands for.
    pub open spec fn tag(self) -> u8 {
        match self {
            MemberObjectView::MemberExpression(_) => TAG_MEMBER_EXPRESSION,
            MemberObjectView::Identifier(_) => TAG_IDENTIFIER,
        }
    }

    /// The pieces that the digest is made of: those of the node that this
    /// stands for.
    pub open spec fn pieces(self) -> Seq<Seq<u8>> {
        match self {
            MemberObjectView::MemberExpression(x) => x.pieces(),
            MemberObjectView::Identifier(x) => x.pieces(),
        }
    }
}

impl LiteralIdentifierView {
    /// Whether the node that this stands for fits.
    pub open spec fn fits(self) -> bool
        decreases self,
    {
        match self {
            LiteralIdentifierView::Identifier(x) => x.fits(),
            LiteralIdentifierView::Literal(x) => x.fits(),
        }
    }

    /// The byte that tells the type of the node that this stands for.
    pub open spec fn tag(self) -> u8 {
        match self {
            LiteralIdentifierView::Identifier(_) => TAG_IDENTIFIER,
            LiteralIdentifierView::Literal(_) => TAG_LITERAL,
        }
    }

    /// The pieces that the digest is made of: those of the node that this
    /// stands for.
    pub open spec fn pieces(self) -> Seq<Seq<u8>> {
        match self {
            LiteralIdentifierView::Identifier(x) => x.pieces(),
            LiteralIdentifierView::Literal(x) => x.pieces(),
        }
    }
}

impl MemberExpressionView {
    /// Whether every list in the node and below it is shorter than 2^64, and
    /// the keys under which it holds what is no code can be listed: what
    /// every tree that is held in memory fulfils.
    pub open spec fn fits(self) -> bool
        decreases self,
    {
        &&& self.object.fits()
        &&& self.property.fits()
    }
}

impl BinaryExpressionView {
    /// Whether every list in the node and below it is shorter than 2^64, and
    /// the keys under which it holds what is no code can be listed: what
    /// every tree that is held in memory fulfils.
    pub open spec fn fits(self) -> bool
        decreases self,
    {
        &&& self.left.fits()
        &&& self.right.fits()
    }
}

impl UnaryExpressionView {
    /// Whether every list in the node and below it is shorter than 2^64, and
    /// the keys under which it holds what is no code can be listed: what
    /// every tree that is held in memory fulfils.
    pub open spec fn fits(self) -> bool
        decreases self,
    {
        &&& self.argument.fits()
    }
}

impl PipeExpressionView {
    /// Whether every list in the node and below it is shorter than 2^64, and
    /// the keys under which it holds what is no code can be listed: what
    /// every tree that is held in memory fulfils.
    pub open spec fn fits(self) -> bool
        decreases self,
    {
        &&& self.body.len() <= u64::MAX
        &&& forall|i: int| 0 <= i < self.body.len() ==> (#[trigger] self.body[i]).fits()
        &&& self.non_code_meta.fits()
    }
}

impl ParameterView {
    /// Whether every list in the node and below it is shorter than 2^64, and
    /// the keys under which it holds what is no code can be listed: what
    /// every tree that is held in memory fulfils.
    pub open spec fn fits(self) -> bool
        decreases self,
    {
        &&& self.identifier.fits()
        &&& (match self.type_ {
            Some(x) => x.fits(),
            None => true,
        })
    }
}

impl FunctionExpressionView {
    /// Whether every list in the node and below it is shorter than 2^64, and
    /// the keys under which it holds what is no code can be listed: what
    /// every tree that is held in memory fulfils.
    pub open spec fn fits(self) -> bool
        decreases self,
    {
        &&& self.params.len() <= u64::MAX
        &&& forall|i: int| 0 <= i < self.params.len() ==> (#[trigger] self.params[i]).fits()
        &&& self.body.fits()
        &&& (match self.return_type {
            Some(x) => x.fits(),
            None => true,
        })
    }
}

impl ReturnStatementView {
    /// Whether every list in the node and below it is shorter than 2^64, and
    /// the keys under which it holds what is no code can be listed: what
    /// every tree that is held in memory fulfils.
    pub open spec fn fits(self) -> bool
        decreases self,
    {
        &&& self.argument.fits()
    }
}

impl IfExpressionView {
    /// Whether every list in the node and below it is shorter than 2^64, and
    /// the keys under which it holds what is no code can be listed: what
    /// every tree that is held in memory fulfils.
    pub open spec fn fits(self) -> bool
        decreases self,
    {
        &&& self.cond.fits()
        &&& self.then_val.fits()
        &&& self.else_ifs.len() <= u64::MAX
        &&& forall|i: int| 0 <= i < self.else_ifs.len() ==> (#[trigger] self.else_ifs[i]).fits()
        &&& self.final_else.fits()
    }
}

impl ElseIfView {
    /// Whether every list in the node and below it is shorter than 2^64, and
    /// the keys under which it holds what is no code can be listed: what
    /// every tree that is held in memory fulfils.
    pub open spec fn fits(self) -> bool
        decreases self,
    {
        &&& self.cond.fits()
        &&& self.then_val.fits()
    }
}

impl KclNone {
    /// An absent value holds no list.
    pub open spec fn fits(self) -> bool {
        true
    }

    /// The one piece that the digest is made of: the byte that tells the type.
    pub open spec fn pieces(self) -> Seq<Seq<u8>> {
        seq![seq![TAG_KCL_NONE]]
    }

    /// The first piece tells the type.
    pub proof fn lemma_first_piece(self)
        ensures
            self.digest_of() == digest_of_pieces(self.pieces()),
            self.pieces().len() > 0,
            self.pieces()[0] == seq![TAG_KCL_NONE],
    {
    }

    /// Two absent values hold the same, but for offsets.
    pub proof fn lemma_digest_apart(self, other: KclNone)
        ensures
            self.erased(true) == other.erased(true),
    {
    }
}

impl LiteralValueView {
    /// Two values with the same digest are the same, where no two sequences
    /// of pieces have the same digest.
    pub proof fn lemma_digest_apart(self, other: LiteralValueView)
        requires
            collision_free(),
            self.digest_of() == other.digest_of(),
        ensures
            self == other,
    {
        let p = self.pieces();
        let q = other.pieces();
        assert(p == q);
        assert(p[0][0] == q[0][0]);
        match (self, other) {
            (LiteralValueView::IInteger(i), LiteralValueView::IInteger(j)) => {
                assert(p[1] == q[1]);
                lemma_number_apart((i as u64) as int, (j as u64) as int);
                assert((i as u64) == (j as u64) ==> i == j) by (bit_vector);
            },
            (LiteralValueView::Fractional(f), LiteralValueView::Fractional(g)) => {
                assert(p[1] == q[1]);
                assert(p[2] == q[2]);
                lemma_number_apart(f.bits as int, g.bits as int);
                lemma_text_apart(f.text, g.text);
            },
            (LiteralValueView::String(s), LiteralValueView::String(t)) => {
                assert(p[1] == q[1]);
                lemma_text_apart(s, t);
            },
            (LiteralValueView::Bool(a), LiteralValueView::Bool(b)) => {
                assert(p[1] == q[1]);
                lemma_flag_apart(a, b);
            },
            _ => {},
        }
    }
}

impl NonCodeValueView {
    /// Two pieces of text with the same digest are the same, where no two
    /// sequences of pieces have the same digest.
    pub proof fn lemma_digest_apart(self, other: NonCodeValueView)
        requires
            collision_free(),
            self.digest_of() == other.digest_of(),
        ensures
            self == other,
    {
        let p = self.pieces();
        let q = other.pieces();
        assert(p == q);
        assert(p[0][0] == q[0][0]);
        match (self, other) {
            (NonCodeValueView::Shebang { value: a }, NonCodeValueView::Shebang { value: b }) => {
                assert(p[1] == q[1]);
                lemma_text_apart(a, b);
            },
            (
                NonCodeValueView::InlineComment { value: a, style: s },
                NonCodeValueView::InlineComment { value: b, style: t },
            ) => {
                assert(p[1] == q[1]);
                assert(p[2] == q[2]);
                lemma_text_apart(a, b);
                lemma_comment_style_apart(s, t);
            },
            (
                NonCodeValueView::BlockComment { value: a, style: s },
                NonCodeValueView::BlockComment { value: b, style: t },
            ) => {
                assert(p[1] == q[1]);
                assert(p[2] == q[2]);
                lemma_text_apart(a, b);
                lemma_comment_style_apart(s, t);
            },
            (
                NonCodeValueView::NewLineBlockComment { value: a, style: s },
                NonCodeValueView::NewLineBlockComment { value: b, style: t },
            ) => {
                assert(p[1] == q[1]);
                assert(p[2] == q[2]);
                lemma_text_apart(a, b);
                lemma_comment_style_apart(s, t);
            },
            _ => {},
        }
    }
}

impl NonCodeNodeView {
    /// Two nodes with the same digest hold the same, but for offsets and
    /// digests kept, where no two sequences of pieces have the same digest.
    pub proof fn lemma_digest_apart(self, other: NonCodeNodeView)
        requires
            collision_free(),
            self.digest_of() == other.digest_of(),
        ensures
            self.erased(true) == other.erased(true),
    {
        let p = self.pieces();
        let q = other.pieces();
        assert(p == q);
        assert(p[1] == q[1]);
        self.value.lemma_digest_apart(other.value);
    }
}

/// Two lists of nodes with the same digests, node by node, hold the same, but
/// for offsets and digests kept.
proof fn lemma_nodes_apart(a: Seq<NonCodeNodeView>, b: Seq<NonCodeNodeView>)
    requires
        collision_free(),
        node_digests(a) == node_digests(b),
    ensures
        nodes_erased(a, true) == nodes_erased(b, true),
{
    assert(a.len() == node_digests(a).len());
    assert(b.len() == node_digests(b).len());
    assert forall|i: int| 0 <= i < a.len() implies (#[trigger] a[i]).erased(true) == b[i].erased(
        true,
    ) by {
        assert(node_digests(a)[i] == a[i].digest_of());
        assert(node_digests(b)[i] == b[i].digest_of());
        a[i].lemma_digest_apart(b[i]);
    }
    assert(nodes_erased(a, true) =~= nodes_erased(b, true));
}

/// What is held under the keys given contributes what is held under the first
/// key, and then what is held under the others.
proof fn lemma_entries_front(map: Map<usize, Seq<NonCodeNodeView>>, keys: Seq<usize>)
    requires
        keys.len() > 0,
    ensures
        entries_pieces(map, keys) == entry_pieces(keys[0], nodes_under(map, keys[0]))
            + entries_pieces(map, keys.drop_first()),
    decreases keys.len(),
{
    if keys.len() == 1 {
        assert(keys.drop_last() =~= Seq::<usize>::empty());
        assert(keys.drop_first() =~= Seq::<usize>::empty());
        assert(keys.last() == keys[0]);
        assert(entries_pieces(map, Seq::<usize>::empty()) =~= Seq::<Seq<u8>>::empty());
        assert(entries_pieces(map, keys) == entries_pieces(map, keys.drop_last()) + entry_pieces(
            keys.last(),
            nodes_under(map, keys.last()),
        ));
        assert(entries_pieces(map, keys) =~= entry_pieces(keys[0], nodes_under(map, keys[0])));
        assert(entries_pieces(map, keys.drop_first()) =~= Seq::<Seq<u8>>::empty());
    } else {
        let front = keys.drop_last();
        lemma_entries_front(map, front);
        assert(front[0] == keys[0]);
        assert(front.drop_first() =~= keys.drop_first().drop_last());
        assert(keys.drop_first().last() == keys.last());
        let last = entry_pieces(keys.last(), nodes_under(map, keys.last()));
        let first = entry_pieces(keys[0], nodes_under(map, keys[0]));
        let middle = entries_pieces(map, front.drop_first());
        assert(entries_pieces(map, keys) == entries_pieces(map, front) + last);
        assert(entries_pieces(map, keys.drop_first()) == middle + last);
        assert((first + middle) + last =~= first + (middle + last));
    }
}

/// Two lists of keys, with what is held under them, that contribute the same
/// are the same lists, and hold the same under each key, but for offsets and
/// digests kept.
proof fn lemma_entries_apart(
    a: Map<usize, Seq<NonCodeNodeView>>,
    keys_a: Seq<usize>,
    b: Map<usize, Seq<NonCodeNodeView>>,
    keys_b: Seq<usize>,
)
    requires
        collision_free(),
        keys_a.len() == keys_b.len(),
        entries_pieces(a, keys_a) == entries_pieces(b, keys_b),
        forall|i: int| 0 <= i < keys_a.len() ==> nodes_under(a, #[trigger] keys_a[i]).len() <= u64::MAX,
        forall|i: int| 0 <= i < keys_b.len() ==> nodes_under(b, #[trigger] keys_b[i]).len() <= u64::MAX,
    ensures
        keys_a == keys_b,
        forall|i: int|
            0 <= i < keys_a.len() ==> nodes_erased(nodes_under(a, #[trigger] keys_a[i]), true)
                == nodes_erased(nodes_under(b, keys_a[i]), true),
    decreases keys_a.len(),
{
    if keys_a.len() == 0 {
        assert(keys_a =~= keys_b);
    } else {
        lemma_entries_front(a, keys_a);
        lemma_entries_front(b, keys_b);
        let ka = keys_a[0];
        let kb = keys_b[0];
        let na = nodes_under(a, ka);
        let nb = nodes_under(b, kb);
        let ea = entry_pieces(ka, na);
        let eb = entry_pieces(kb, nb);
        let ra = entries_pieces(a, keys_a.drop_first());
        let rb = entries_pieces(b, keys_b.drop_first());
        let whole = entries_pieces(a, keys_a);
        assert(whole == ea + ra);
        assert(whole == eb + rb);
        assert(ea.len() == 2 + na.len());
        assert(eb.len() == 2 + nb.len());
        assert((ea + ra)[0] == number_bytes(ka as int));
        assert((eb + rb)[0] == number_bytes(kb as int));
        lemma_number_apart(ka as int, kb as int);
        assert((ea + ra)[1] == number_bytes(na.len() as int));
        assert((eb + rb)[1] == number_bytes(nb.len() as int));
        lemma_number_apart(na.len() as int, nb.len() as int);
        assert(node_digests(na) =~= node_digests(nb)) by {
            assert forall|i: int| 0 <= i < na.len() implies node_digests(na)[i] == node_digests(
                nb,
            )[i] by {
                assert((ea + ra)[2 + i] == node_digests(na)[i]);
                assert((eb + rb)[2 + i] == node_digests(nb)[i]);
            }
        }
        lemma_nodes_apart(na, nb);
        assert(ea =~= eb);
        assert(ra =~= rb) by {
            assert(ra =~= whole.subrange(ea.len() as int, whole.len() as int));
            assert(rb =~= whole.subrange(eb.len() as int, whole.len() as int));
        }
        let rest_a = keys_a.drop_first();
        let rest_b = keys_b.drop_first();
        assert forall|i: int| 0 <= i < rest_a.len() implies nodes_under(a, #[trigger] rest_a[i]).len()
            <= u64::MAX by {
            assert(rest_a[i] == keys_a[i + 1]);
        }
        assert forall|i: int| 0 <= i < rest_b.len() implies nodes_under(b, #[trigger] rest_b[i]).len()
            <= u64::MAX by {
            assert(rest_b[i] == keys_b[i + 1]);
        }
        lemma_entries_apart(a, rest_a, b, rest_b);
        assert(keys_a =~= keys_b) by {
            assert forall|i: int| 0 <= i < keys_a.len() implies keys_a[i] == keys_b[i] by {
                if i > 0 {
                    assert(keys_a[i] == rest_a[i - 1]);
                    assert(keys_b[i] == rest_b[i - 1]);
                }
            }
        }
        assert forall|i: int| 0 <= i < keys_a.len() implies nodes_erased(
            nodes_under(a, #[trigger] keys_a[i]),
            true,
        ) == nodes_erased(nodes_under(b, keys_a[i]), true) by {
            if i > 0 {
                assert(keys_a[i] == rest_a[i - 1]);
            }
        }
    }
}

impl NonCodeMetaView {
    /// Whether the lists are shorter than 2^64 and the keys can be listed in
    /// ascending order, which they can where they are finitely many.
    pub open spec fn fits(self) -> bool {
        &&& self.start.len() <= u64::MAX
        &&& ascending(self.non_code_nodes.dom()).len() <= u64::MAX
        &&& lists_ascending(ascending(self.non_code_nodes.dom()), self.non_code_nodes.dom())
        &&& forall|k: usize| #[trigger]
            self.non_code_nodes.contains_key(k) ==> self.non_code_nodes[k].len() <= u64::MAX
    }

    /// Two with the same digest hold the same, but for offsets and digests
    /// kept, where no two sequences of pieces have the same digest.
    pub proof fn lemma_digest_apart(self, other: NonCodeMetaView)
        requires
            collision_free(),
            self.fits(),
            other.fits(),
            self.digest_of() == other.digest_of(),
        ensures
            self.erased(true) == other.erased(true),
    {
        let p = self.pieces();
        let q = other.pieces();
        assert(p == q);
        let keys_a = ascending(self.non_code_nodes.dom());
        let keys_b = ascending(other.non_code_nodes.dom());
        let ea = entries_pieces(self.non_code_nodes, keys_a);
        let eb = entries_pieces(other.non_code_nodes, keys_b);
        let n = self.start.len() as int;
        assert(p[1] == number_bytes(self.start.len() as int));
        assert(q[1] == number_bytes(other.start.len() as int));
        lemma_number_apart(self.start.len() as int, other.start.len() as int);
        assert(node_digests(self.start) =~= node_digests(other.start)) by {
            assert forall|i: int| 0 <= i < n implies node_digests(self.start)[i] == node_digests(
                other.start,
            )[i] by {
                assert(p[2 + i] == node_digests(self.start)[i]);
                assert(q[2 + i] == node_digests(other.start)[i]);
            }
        }
        lemma_nodes_apart(self.start, other.start);
        assert(p[2 + n] == number_bytes(keys_a.len() as int));
        assert(q[2 + n] == number_bytes(keys_b.len() as int));
        lemma_number_apart(keys_a.len() as int, keys_b.len() as int);
        assert(ea =~= eb) by {
            assert(ea =~= p.subrange(3 + n, p.len() as int));
            assert(eb =~= q.subrange(3 + n, q.len() as int));
        }
        assert forall|i: int| 0 <= i < keys_a.len() implies nodes_under(
            self.non_code_nodes,
            #[trigger] keys_a[i],
        ).len() <= u64::MAX by {
            assert(keys_a.contains(keys_a[i]));
        }
        assert forall|i: int| 0 <= i < keys_b.len() implies nodes_under(
            other.non_code_nodes,
            #[trigger] keys_b[i],
        ).len() <= u64::MAX by {
            assert(keys_b.contains(keys_b[i]));
        }
        lemma_entries_apart(self.non_code_nodes, keys_a, other.non_code_nodes, keys_b);
        assert(self.non_code_nodes.dom() =~= other.non_code_nodes.dom()) by {
            assert forall|k: usize| self.non_code_nodes.dom().contains(k)
                <==> other.non_code_nodes.dom().contains(k) by {
                assert(keys_a.contains(k) <==> self.non_code_nodes.dom().contains(k));
                assert(keys_b.contains(k) <==> other.non_code_nodes.dom().contains(k));
            }
        }
        assert(self.erased(true).non_code_nodes =~= other.erased(true).non_code_nodes) by {
            assert forall|k: usize| self.non_code_nodes.contains_key(k) implies nodes_erased(
                self.non_code_nodes[k],
                true,
            ) == nodes_erased(other.non_code_nodes[k], true) by {
                assert(keys_a.contains(k));
                let i = choose|i: int| 0 <= i < keys_a.len() && keys_a[i] == k;
                assert(nodes_erased(nodes_under(self.non_code_nodes, keys_a[i]), true)
                    == nodes_erased(nodes_under(other.non_code_nodes, keys_a[i]), true));
            }
        }
    }
}

impl FnArgTypeView {
    /// Whether every list in the type is shorter than 2^64.
    pub open spec fn fits(self) -> bool
        decreases self,
    {
        match self {
            FnArgTypeView::Object { properties } => properties.len() <= u64::MAX && forall|i: int|
                0 <= i < properties.len() ==> (#[trigger] properties[i]).fits(),
            _ => true,
        }
    }

    /// Two types with the same digest hold the same, but for offsets and
    /// digests kept, where no two sequences of pieces have the same digest.
    pub proof fn lemma_digest_apart(self, other: FnArgTypeView)
        requires
            collision_free(),
            self.fits(),
            other.fits(),
            self.digest_of() == other.digest_of(),
        ensures
            self.erased(true) == other.erased(true),
        decreases self,
    {
        let p = self.pieces();
        let q = other.pieces();
        assert(p == q);
        assert(p[0][0] == q[0][0]);
        match (self, other) {
            (FnArgTypeView::Primitive(a), FnArgTypeView::Primitive(b)) => {
                assert(p[1] == q[1]);
                lemma_fn_arg_primitive_apart(a, b);
            },
            (FnArgTypeView::Array(a), FnArgTypeView::Array(b)) => {
                assert(p[1] == q[1]);
                lemma_fn_arg_primitive_apart(a, b);
            },
            (
                FnArgTypeView::Object { properties: a },
                FnArgTypeView::Object { properties: b },
            ) => {
                assert(p[1] == number_bytes(a.len() as int));
                assert(q[1] == number_bytes(b.len() as int));
                lemma_number_apart(a.len() as int, b.len() as int);
                assert forall|i: int| 0 <= i < a.len() implies (#[trigger] a[i]).erased(true)
                    == b[i].erased(true) by {
                    assert(p[2 + i] == a[i].digest_of());
                    assert(q[2 + i] == b[i].digest_of());
                    a[i].lemma_digest_apart(b[i]);
                }
                assert(self.erased(true)->Object_properties =~= other.erased(
                    true,
                )->Object_properties);
            },
            _ => {},
        }
    }
}

impl ProgramView {
    /// The first piece tells the type.
    pub proof fn lemma_first_piece(self)
        ensures
            self.pieces().len() > 0,
            self.pieces()[0] == seq![TAG_PROGRAM],
    {
    }

    /// Two nodes with the same digest hold the same, but for offsets and
    /// digests kept, where no two sequences of pieces have the same digest.
    pub proof fn lemma_digest_apart(self, other: ProgramView)
        requires
            collision_free(),
            self.fits(),
            other.fits(),
            self.digest_of() == other.digest_of(),
        ensures
            self.erased(true) == other.erased(true),
        decreases self,
    {
        let p = self.pieces();
        let q = other.pieces();
        assert(p == q);
        assert(p[1int] == number_bytes(self.body.len() as int));
        assert(q[1int] == number_bytes(other.body.len() as int));
        lemma_number_apart(self.body.len() as int, other.body.len() as int);
        assert forall|i: int| 0 <= i < self.body.len() implies (#[trigger] self.body[i]).erased(true)
            == other.body[i].erased(true) by {
            assert(p[1int + 1 + i] == self.body[i].digest_of());
            assert(q[1int + 1 + i] == other.body[i].digest_of());
            self.body[i].lemma_digest_apart(other.body[i]);
        }
        assert(self.erased(true).body =~= other.erased(true).body);
        assert(p[1int + 1 + self.body.len() as int] == self.non_code_meta.digest_of() && q[1int + 1 + self.body.len() as int] == other.non_code_meta.digest_of());
        self.non_code_meta.lemma_digest_apart(other.non_code_meta);
    }
}

impl BodyItemView {
    /// The digest is the hash of the pieces, and the first piece tells the
    /// type.
    pub proof fn lemma_first_piece(self)
        ensures
            self.digest_of() == digest_of_pieces(self.pieces()),
            self.pieces().len() > 0,
            self.pieces()[0] == seq![self.tag()],
    {
        match self {
            BodyItemView::ImportStatement(x) => {
                x.lemma_first_piece();
            },
            BodyItemView::ExpressionStatement(x) => {
                x.lemma_first_piece();
            },
            BodyItemView::VariableDeclaration(x) => {
                x.lemma_first_piece();
            },
            BodyItemView::ReturnStatement(x) => {
                x.lemma_first_piece();
            },
        }
    }

    /// Two with the same digest hold the same, but for offsets and digests
    /// kept, where no two sequences of pieces have the same digest.
    pub proof fn lemma_digest_apart(self, other: BodyItemView)
        requires
            collision_free(),
            self.fits(),
            other.fits(),
            self.digest_of() == other.digest_of(),
        ensures
            self.erased(true) == other.erased(true),
        decreases self,
    {
        self.lemma_first_piece();
        other.lemma_first_piece();
        assert(self.pieces() == other.pieces());
        assert(seq![self.tag()][0] == seq![other.tag()][0]);
        match (self, other) {
            (BodyItemView::ImportStatement(x), BodyItemView::ImportStatement(y)) => {
                x.lemma_digest_apart(*y);
            },
            (BodyItemView::ExpressionStatement(x), BodyItemView::ExpressionStatement(y)) => {
                x.lemma_digest_apart(y);
            },
            (BodyItemView::VariableDeclaration(x), BodyItemView::VariableDeclaration(y)) => {
                x.lemma_digest_apart(*y);
            },
            (BodyItemView::ReturnStatement(x), BodyItemView::ReturnStatement(y)) => {
                x.lemma_digest_apart(y);
            },
            _ => {},
        }
    }
}

impl ExprView {
    /// The digest is the hash of the pieces, and the first piece tells the
    /// type.
    #[verifier::rlimit(60)]
    pub proof fn lemma_first_piece(self)
        ensures
            self.digest_of() == digest_of_pieces(self.pieces()),
            self.pieces().len() > 0,
            self.pieces()[0] == seq![self.tag()],
    {
        match self {
            ExprView::Literal(x) => {
                x.lemma_first_piece();
            },
            ExprView::Identifier(x) => {
                x.lemma_first_piece();
            },
            ExprView::TagDeclarator(x) => {
                x.lemma_first_piece();
            },
            ExprView::BinaryExpression(x) => {
                x.lemma_first_piece();
            },
            ExprView::FunctionExpression(x) => {
                x.lemma_first_piece();
            },
            ExprView::CallExpression(x) => {
                x.lemma_first_piece();
            },
            ExprView::PipeExpression(x) => {
                x.lemma_first_piece();
            },
            ExprView::PipeSubstitution(x) => {
                x.lemma_first_piece();
            },
            ExprView::ArrayExpression(x) => {
                x.lemma_first_piece();
            },
            ExprView::ArrayRangeExpression(x) => {
                x.lemma_first_piece();
            },
            ExprView::ObjectExpression(x) => {
                x.lemma_first_piece();
            },
            ExprView::MemberExpression(x) => {
                x.lemma_first_piece();
            },
            ExprView::UnaryExpression(x) => {
                x.lemma_first_piece();
            },
            ExprView::IfExpression(x) => {
                x.lemma_first_piece();
            },
            ExprView::KclNone(x) => {
                x.lemma_first_piece();
            },
        }
    }

    /// Two with the same digest hold the same, but for offsets and digests
    /// kept, where no two sequences of pieces have the same digest.
    #[verifier::rlimit(60)]
    pub proof fn lemma_digest_apart(self, other: ExprView)
        requires
            collision_free(),
            self.fits(),
            other.fits(),
            self.digest_of() == other.digest_of(),
        ensures
            self.erased(true) == other.erased(true),
        decreases self,
    {
        self.lemma_first_piece();
        other.lemma_first_piece();
        assert(self.pieces() == other.pieces());
        assert(seq![self.tag()][0] == seq![other.tag()][0]);
        match (self, other) {
            (ExprView::Literal(x), ExprView::Literal(y)) => {
                x.lemma_digest_apart(*y);
            },
            (ExprView::Identifier(x), ExprView::Identifier(y)) => {
                x.lemma_digest_apart(*y);
            },
            (ExprView::TagDeclarator(x), ExprView::TagDeclarator(y)) => {
                x.lemma_digest_apart(*y);
            },
            (ExprView::BinaryExpression(x), ExprView::BinaryExpression(y)) => {
                x.lemma_digest_apart(*y);
            },
            (ExprView::FunctionExpression(x), ExprView::FunctionExpression(y)) => {
                x.lemma_digest_apart(*y);
            },
            (ExprView::CallExpression(x), ExprView::CallExpression(y)) => {
                x.lemma_digest_apart(*y);
            },
            (ExprView::PipeExpression(x), ExprView::PipeExpression(y)) => {
                x.lemma_digest_apart(*y);
            },
            (ExprView::PipeSubstitution(x), ExprView::PipeSubstitution(y)) => {
                x.lemma_digest_apart(*y);
            },
            (ExprView::ArrayExpression(x), ExprView::ArrayExpression(y)) => {
                x.lemma_digest_apart(*y);
            },
            (ExprView::ArrayRangeExpression(x), ExprView::ArrayRangeExpression(y)) => {
                x.lemma_digest_apart(*y);
            },
            (ExprView::ObjectExpression(x), ExprView::ObjectExpression(y)) => {
                x.lemma_digest_apart(*y);
            },
            (ExprView::MemberExpression(x), ExprView::MemberExpression(y)) => {
                x.lemma_digest_apart(*y);
            },
            (ExprView::UnaryExpression(x), ExprView::UnaryExpression(y)) => {
                x.lemma_digest_apart(*y);
            },
            (ExprView::IfExpression(x), ExprView::IfExpression(y)) => {
                x.lemma_digest_apart(*y);
            },
            (ExprView::KclNone(x), ExprView::KclNone(y)) => {
                x.lemma_digest_apart(y);
            },
            _ => {},
        }
    }
}

impl BinaryPartView {
    /// The digest is the hash of the pieces, and the first piece tells the
    /// type.
    pub proof fn lemma_first_piece(self)
        ensures
            self.digest_of() == digest_of_pieces(self.pieces()),
            self.pieces().len() > 0,
            self.pieces()[0] == seq![self.tag()],
    {
        match self {
            BinaryPartView::Literal(x) => {
                x.lemma_first_piece();
            },
            BinaryPartView::Identifier(x) => {
                x.lemma_first_piece();
            },
            BinaryPartView::BinaryExpression(x) => {
                x.lemma_first_piece();
            },
            BinaryPartView::CallExpression(x) => {
                x.lemma_first_piece();
            },
            BinaryPartView::UnaryExpression(x) => {
                x.lemma_first_piece();
            },
            BinaryPartView::MemberExpression(x) => {
                x.lemma_first_piece();
            },
            BinaryPartView::IfExpression(x) => {
                x.lemma_first_piece();
            },
        }
    }

    /// Two with the same digest hold the same, but for offsets and digests
    /// kept, where no two sequences of pieces have the same digest.
    pub proof fn lemma_digest_apart(self, other: BinaryPartView)
        requires
            collision_free(),
            self.fits(),
            other.fits(),
            self.digest_of() == other.digest_of(),
        ensures
            self.erased(true) == other.erased(true),
        decreases self,
    {
        self.lemma_first_piece();
        other.lemma_first_piece();
        assert(self.pieces() == other.pieces());
        assert(seq![self.tag()][0] == seq![other.tag()][0]);
        match (self, other) {
            (BinaryPartView::Literal(x), BinaryPartView::Literal(y)) => {
                x.lemma_digest_apart(*y);
            },
            (BinaryPartView::Identifier(x), BinaryPartView::Identifier(y)) => {
                x.lemma_digest_apart(*y);
            },
            (BinaryPartView::BinaryExpression(x), BinaryPartView::BinaryExpression(y)) => {
                x.lemma_digest_apart(*y);
            },
            (BinaryPartView::CallExpression(x), BinaryPartView::CallExpression(y)) => {
                x.lemma_digest_apart(*y);
            },
            (BinaryPartView::UnaryExpression(x), BinaryPartView::UnaryExpression(y)) => {
                x.lemma_digest_apart(*y);
            },
            (BinaryPartView::MemberExpression(x), BinaryPartView::MemberExpression(y)) => {
                x.lemma_digest_apart(*y);
            },
            (BinaryPartView::IfExpression(x), BinaryPartView::IfExpression(y)) => {
                x.lemma_digest_apart(*y);
            },
            _ => {},
        }
    }
}

impl ImportItemView {
    /// The first piece tells the type.
    pub proof fn lemma_first_piece(self)
        ensures
            self.pieces().len() > 0,
            self.pieces()[0] == seq![TAG_IMPORT_ITEM],
    {
    }

    /// Two nodes with the same digest hold the same, but for offsets and
    /// digests kept, where no two sequences of pieces have the same digest.
    pub proof fn lemma_digest_apart(self, other: ImportItemView)
        requires
            collision_free(),
            self.fits(),
            other.fits(),
            self.digest_of() == other.digest_of(),
        ensures
            self.erased(true) == other.erased(true),
        decreases self,
    {
        let p = self.pieces();
        let q = other.pieces();
        assert(p == q);
        assert(p[1int] == self.name.digest_of() && q[1int] == other.name.digest_of());
        self.name.lemma_digest_apart(other.name);
        assert(p[1int + 1] == flag_bytes(self.alias is Some));
        assert(q[1int + 1] == flag_bytes(other.alias is Some));
        lemma_flag_apart(self.alias is Some, other.alias is Some);
        match (self.alias, other.alias) {
            (Some(x), Some(y)) => {
                assert(p[1int + 1 + 1] == x.digest_of());
                assert(q[1int + 1 + 1] == y.digest_of());
                x.lemma_digest_apart(y);
            },
            _ => {},
        }
    }
}

impl ImportStatementView {
    /// The first piece tells the type.
    pub proof fn lemma_first_piece(self)
        ensures
            self.pieces().len() > 0,
            self.pieces()[0] == seq![TAG_IMPORT_STATEMENT],
    {
    }

    /// Two nodes with the same digest hold the same, but for offsets and
    /// digests kept, where no two sequences of pieces have the same digest.
    pub proof fn lemma_digest_apart(self, other: ImportStatementView)
        requires
            collision_free(),
            self.fits(),
            other.fits(),
            self.digest_of() == other.digest_of(),
        ensures
            self.erased(true) == other.erased(true),
        decreases self,
    {
        let p = self.pieces();
        let q = other.pieces();
        assert(p == q);
        assert(p[1int] == number_bytes(self.items.len() as int));
        assert(q[1int] == number_bytes(other.items.len() as int));
        lemma_number_apart(self.items.len() as int, other.items.len() as int);
        assert forall|i: int| 0 <= i < self.items.len() implies (#[trigger] self.items[i]).erased(true)
            == other.items[i].erased(true) by {
            assert(p[1int + 1 + i] == self.items[i].digest_of());
            assert(q[1int + 1 + i] == other.items[i].digest_of());
            self.items[i].lemma_digest_apart(other.items[i]);
        }
        assert(self.erased(true).items =~= other.erased(true).items);
        assert(p[1int + 1 + self.items.len() as int] == text_bytes(self.path) && q[1int + 1 + self.items.len() as int] == text_bytes(other.path));
        lemma_text_apart(self.path, other.path);
        assert(p[1int + 1 + self.items.len() as int + 1] == text_bytes(self.raw_path) && q[1int + 1 + self.items.len() as int + 1] == text_bytes(other.raw_path));
        lemma_text_apart(self.raw_path, other.raw_path);
    }
}

impl ExpressionStatementView {
    /// The first piece tells the type.
    pub proof fn lemma_first_piece(self)
        ensures
            self.pieces().len() > 0,
            self.pieces()[0] == seq![TAG_EXPRESSION_STATEMENT],
    {
    }

    /// Two nodes with the same digest hold the same, but for offsets and
    /// digests kept, where no two sequences of pieces have the same digest.
    pub proof fn lemma_digest_apart(self, other: ExpressionStatementView)
        requires
            collision_free(),
            self.fits(),
            other.fits(),
            self.digest_of() == other.digest_of(),
        ensures
            self.erased(true) == other.erased(true),
        decreases self,
    {
        let p = self.pieces();
        let q = other.pieces();
        assert(p == q);
        assert(p[1int] == self.expression.digest_of() && q[1int] == other.expression.digest_of());
        self.expression.lemma_digest_apart(other.expression);
    }
}

impl CallExpressionView {
    /// The first piece tells the type.
    pub proof fn lemma_first_piece(self)
        ensures
            self.pieces().len() > 0,
            self.pieces()[0] == seq![TAG_CALL_EXPRESSION],
    {
    }

    /// Two nodes with the same digest hold the same, but for offsets and
    /// digests kept, where no two sequences of pieces have the same digest.
    pub proof fn lemma_digest_apart(self, other: CallExpressionView)
        requires
            collision_free(),
            self.fits(),
            other.fits(),
            self.digest_of() == other.digest_of(),
        ensures
            self.erased(true) == other.erased(true),
        decreases self,
    {
        let p = self.pieces();
        let q = other.pieces();
        assert(p == q);
        assert(p[1int] == self.callee.digest_of() && q[1int] == other.callee.digest_of());
        self.callee.lemma_digest_apart(other.callee);
        assert(p[1int + 1] == number_bytes(self.arguments.len() as int));
        assert(q[1int + 1] == number_bytes(other.arguments.len() as int));
        lemma_number_apart(self.arguments.len() as int, other.arguments.len() as int);
        assert forall|i: int| 0 <= i < self.arguments.len() implies (#[trigger] self.arguments[i]).erased(true)
            == other.arguments[i].erased(true) by {
            assert(p[1int + 1 + 1 + i] == self.arguments[i].digest_of());
            assert(q[1int + 1 + 1 + i] == other.arguments[i].digest_of());
            self.arguments[i].lemma_digest_apart(other.arguments[i]);
        }
        assert(self.erased(true).arguments =~= other.erased(true).arguments);
        assert(p[1int + 1 + 1 + self.arguments.len() as int] == flag_bytes(self.optional) && q[1int + 1 + 1 + self.arguments.len() as int] == flag_bytes(other.optional));
        lemma_flag_apart(self.optional, other.optional);
    }
}

impl VariableDeclarationView {
    /// The first piece tells the type.
    pub proof fn lemma_first_piece(self)
        ensures
            self.pieces().len() > 0,
            self.pieces()[0] == seq![TAG_VARIABLE_DECLARATION],
    {
    }

    /// Two nodes with the same digest hold the same, but for offsets and
    /// digests kept, where no two sequences of pieces have the same digest.
    pub proof fn lemma_digest_apart(self, other: VariableDeclarationView)
        requires
            collision_free(),
            self.fits(),
            other.fits(),
            self.digest_of() == other.digest_of(),
        ensures
            self.erased(true) == other.erased(true),
        decreases self,
    {
        let p = self.pieces();
        let q = other.pieces();
        assert(p == q);
        assert(p[1int] == number_bytes(self.declarations.len() as int));
        assert(q[1int] == number_bytes(other.declarations.len() as int));
        lemma_number_apart(self.declarations.len() as int, other.declarations.len() as int);
        assert forall|i: int| 0 <= i < self.declarations.len() implies (#[trigger] self.declarations[i]).erased(true)
            == other.declarations[i].erased(true) by {
            assert(p[1int + 1 + i] == self.declarations[i].digest_of());
            assert(q[1int + 1 + i] == other.declarations[i].digest_of());
            self.declarations[i].lemma_digest_apart(other.declarations[i]);
        }
        assert(self.erased(true).declarations =~= other.erased(true).declarations);
        assert(p[1int + 1 + self.declarations.len() as int] == self.visibility.digest_id() && q[1int + 1 + self.declarations.len() as int] == other.visibility.digest_id());
        lemma_item_visibility_apart(self.visibility, other.visibility);
        assert(p[1int + 1 + self.declarations.len() as int + 1] == self.kind.digest_id() && q[1int + 1 + self.declarations.len() as int + 1] == other.kind.digest_id());
        lemma_variable_kind_apart(self.kind, other.kind);
    }
}

impl VariableDeclaratorView {
    /// The first piece tells the type.
    pub proof fn lemma_first_piece(self)
        ensures
            self.pieces().len() > 0,
            self.pieces()[0] == seq![TAG_VARIABLE_DECLARATOR],
    {
    }

    /// Two nodes with the same digest hold the same, but for offsets and
    /// digests kept, where no two sequences of pieces have the same digest.
    pub proof fn lemma_digest_apart(self, other: VariableDeclaratorView)
        requires
            collision_free(),
            self.fits(),
            other.fits(),
            self.digest_of() == other.digest_of(),
        ensures
            self.erased(true) == other.erased(true),
        decreases self,
    {
        let p = self.pieces();
        let q = other.pieces();
        assert(p == q);
        assert(p[1int] == self.id.digest_of() && q[1int] == other.id.digest_of());
        self.id.lemma_digest_apart(other.id);
        assert(p[1int + 1] == self.init.digest_of() && q[1int + 1] == other.init.digest_of());
        self.init.lemma_digest_apart(other.init);
    }
}

impl LiteralView {
    /// The first piece tells the type.
    pub proof fn lemma_first_piece(self)
        ensures
            self.pieces().len() > 0,
            self.pieces()[0] == seq![TAG_LITERAL],
    {
    }

    /// Two nodes with the same digest hold the same, but for offsets and
    /// digests kept, where no two sequences of pieces have the same digest.
    pub proof fn lemma_digest_apart(self, other: LiteralView)
        requires
            collision_free(),
            self.fits(),
            other.fits(),
            self.digest_of() == other.digest_of(),
        ensures
            self.erased(true) == other.erased(true),
        decreases self,
    {
        let p = self.pieces();
        let q = other.pieces();
        assert(p == q);
        assert(p[1int] == self.value.digest_of() && q[1int] == other.value.digest_of());
        self.value.lemma_digest_apart(other.value);
        assert(p[1int + 1] == text_bytes(self.raw) && q[1int + 1] == text_bytes(other.raw));
        lemma_text_apart(self.raw, other.raw);
    }
}

impl IdentifierView {
    /// The first piece tells the type.
    pub proof fn lemma_first_piece(self)
        ensures
            self.pieces().len() > 0,
            self.pieces()[0] == seq![TAG_IDENTIFIER],
    {
    }

    /// Two nodes with the same digest hold the same, but for offsets and
    /// digests kept, where no two sequences of pieces have the same digest.
    pub proof fn lemma_digest_apart(self, other: IdentifierView)
        requires
            collision_free(),
            self.fits(),
            other.fits(),
            self.digest_of() == other.digest_of(),
        ensures
            self.erased(true) == other.erased(true),
        decreases self,
    {
        let p = self.pieces();
        let q = other.pieces();
        assert(p == q);
        assert(p[1int] == text_bytes(self.name) && q[1int] == text_bytes(other.name));
        lemma_text_apart(self.name, other.name);
    }
}

impl TagDeclaratorView {
    /// The first piece tells the type.
    pub proof fn lemma_first_piece(self)
        ensures
            self.pieces().len() > 0,
            self.pieces()[0] == seq![TAG_TAG_DECLARATOR],
    {
    }

    /// Two nodes with the same digest hold the same, but for offsets and
    /// digests kept, where no two sequences of pieces have the same digest.
    pub proof fn lemma_digest_apart(self, other: TagDeclaratorView)
        requires
            collision_free(),
            self.fits(),
            other.fits(),
            self.digest_of() == other.digest_of(),
        ensures
            self.erased(true) == other.erased(true),
        decreases self,
    {
        let p = self.pieces();
        let q = other.pieces();
        assert(p == q);
        assert(p[1int] == text_bytes(self.name) && q[1int] == text_bytes(other.name));
        lemma_text_apart(self.name, other.name);
    }
}

impl PipeSubstitutionView {
    /// The first piece tells the type.
    pub proof fn lemma_first_piece(self)
        ensures
            self.pieces().len() > 0,
            self.pieces()[0] == seq![TAG_PIPE_SUBSTITUTION],
    {
    }

    /// Two nodes with the same digest hold the same, but for offsets and
    /// digests kept, where no two sequences of pieces have the same digest.
    pub proof fn lemma_digest_apart(self, other: PipeSubstitutionView)
        requires
            collision_free(),
            self.fits(),
            other.fits(),
            self.digest_of() == other.digest_of(),
        ensures
            self.erased(true) == other.erased(true),
        decreases self,
    {
        let p = self.pieces();
        let q = other.pieces();
        assert(p == q);
    }
}

impl ArrayExpressionView {
    /// The first piece tells the type.
    pub proof fn lemma_first_piece(self)
        ensures
            self.pieces().len() > 0,
            self.pieces()[0] == seq![TAG_ARRAY_EXPRESSION],
    {
    }

    /// Two nodes with the same digest hold the same, but for offsets and
    /// digests kept, where no two sequences of pieces have the same digest.
    pub proof fn lemma_digest_apart(self, other: ArrayExpressionView)
        requires
            collision_free(),
            self.fits(),
            other.fits(),
            self.digest_of() == other.digest_of(),
        ensures
            self.erased(true) == other.erased(true),
        decreases self,
    {
        let p = self.pieces();
        let q = other.pieces();
        assert(p == q);
        assert(p[1int] == number_bytes(self.elements.len() as int));
        assert(q[1int] == number_bytes(other.elements.len() as int));
        lemma_number_apart(self.elements.len() as int, other.elements.len() as int);
        assert forall|i: int| 0 <= i < self.elements.len() implies (#[trigger] self.elements[i]).erased(true)
            == other.elements[i].erased(true) by {
            assert(p[1int + 1 + i] == self.elements[i].digest_of());
            assert(q[1int + 1 + i] == other.elements[i].digest_of());
            self.elements[i].lemma_digest_apart(other.elements[i]);
        }
        assert(self.erased(true).elements =~= other.erased(true).elements);
        assert(p[1int + 1 + self.elements.len() as int] == self.non_code_meta.digest_of() && q[1int + 1 + self.elements.len() as int] == other.non_code_meta.digest_of());
        self.non_code_meta.lemma_digest_apart(other.non_code_meta);
    }
}

impl ArrayRangeExpressionView {
    /// The first piece tells the type.
    pub proof fn lemma_first_piece(self)
        ensures
            self.pieces().len() > 0,
            self.pieces()[0] == seq![TAG_ARRAY_RANGE_EXPRESSION],
    {
    }

    /// Two nodes with the same digest hold the same, but for offsets and
    /// digests kept, where no two sequences of pieces have the same digest.
    pub proof fn lemma_digest_apart(self, other: ArrayRangeExpressionView)
        requires
            collision_free(),
            self.fits(),
            other.fits(),
            self.digest_of() == other.digest_of(),
        ensures
            self.erased(true) == other.erased(true),
        decreases self,
    {
        let p = self.pieces();
        let q = other.pieces();
        assert(p == q);
        assert(p[1int] == self.start_element.digest_of() && q[1int] == other.start_element.digest_of());
        self.start_element.lemma_digest_apart(*other.start_element);
        assert(p[1int + 1] == self.end_element.digest_of() && q[1int + 1] == other.end_element.digest_of());
        self.end_element.lemma_digest_apart(*other.end_element);
        assert(p[1int + 1 + 1] == flag_bytes(self.end_inclusive) && q[1int + 1 + 1] == flag_bytes(other.end_inclusive));
        lemma_flag_apart(self.end_inclusive, other.end_inclusive);
    }
}

impl ObjectExpressionView {
    /// The first piece tells the type.
    pub proof fn lemma_first_piece(self)
        ensures
            self.pieces().len() > 0,
            self.pieces()[0] == seq![TAG_OBJECT_EXPRESSION],
    {
    }

    /// Two nodes with the same digest hold the same, but for offsets and
    /// digests kept, where no two sequences of pieces have the same digest.
    pub proof fn lemma_digest_apart(self, other: ObjectExpressionView)
        requires
            collision_free(),
            self.fits(),
            other.fits(),
            self.digest_of() == other.digest_of(),
        ensures
            self.erased(true) == other.erased(true),
        decreases self,
    {
        let p = self.pieces();
        let q = other.pieces();
        assert(p == q);
        assert(p[1int] == number_bytes(self.properties.len() as int));
        assert(q[1int] == number_bytes(other.properties.len() as int));
        lemma_number_apart(self.properties.len() as int, other.properties.len() as int);
        assert forall|i: int| 0 <= i < self.properties.len() implies (#[trigger] self.properties[i]).erased(true)
            == other.properties[i].erased(true) by {
            assert(p[1int + 1 + i] == self.properties[i].digest_of());
            assert(q[1int + 1 + i] == other.properties[i].digest_of());
            self.properties[i].lemma_digest_apart(other.properties[i]);
        }
        assert(self.erased(true).properties =~= other.erased(true).properties);
        assert(p[1int + 1 + self.properties.len() as int] == self.non_code_meta.digest_of() && q[1int + 1 + self.properties.len() as int] == other.non_code_meta.digest_of());
        self.non_code_meta.lemma_digest_apart(other.non_code_meta);
    }
}

impl ObjectPropertyView {
    /// The first piece tells the type.
    pub proof fn lemma_first_piece(self)
        ensures
            self.pieces().len() > 0,
            self.pieces()[0] == seq![TAG_OBJECT_PROPERTY],
    {
    }

    /// Two nodes with the same digest hold the same, but for offsets and
    /// digests kept, where no two sequences of pieces have the same digest.
    pub proof fn lemma_digest_apart(self, other: ObjectPropertyView)
        requires
            collision_free(),
            self.fits(),
            other.fits(),
            self.digest_of() == other.digest_of(),
        ensures
            self.erased(true) == other.erased(true),
        decreases self,
    {
        let p = self.pieces();
        let q = other.pieces();
        assert(p == q);
        assert(p[1int] == self.key.digest_of() && q[1int] == other.key.digest_of());
        self.key.lemma_digest_apart(other.key);
        assert(p[1int + 1] == self.value.digest_of() && q[1int + 1] == other.value.digest_of());
        self.value.lemma_digest_apart(other.value);
    }
}

impl MemberObjectView {
    /// The digest is the hash of the pieces, and the first piece tells the
    /// type.
    pub proof fn lemma_first_piece(self)
        ensures
            self.digest_of() == digest_of_pieces(self.pieces()),
            self.pieces().len() > 0,
            self.pieces()[0] == seq![self.tag()],
    {
        match self {
            MemberObjectView::MemberExpression(x) => {
                x.lemma_first_piece();
            },
            MemberObjectView::Identifier(x) => {
                x.lemma_first_piece();
            },
        }
    }

    /// Two with the same digest hold the same, but for offsets and digests
    /// kept, where no two sequences of pieces have the same digest.
    pub proof fn lemma_digest_apart(self, other: MemberObjectView)
        requires
            collision_free(),
            self.fits(),
            other.fits(),
            self.digest_of() == other.digest_of(),
        ensures
            self.erased(true) == other.erased(true),
        decreases self,
    {
        self.lemma_first_piece();
        other.lemma_first_piece();
        assert(self.pieces() == other.pieces());
        assert(seq![self.tag()][0] == seq![other.tag()][0]);
        match (self, other) {
            (MemberObjectView::MemberExpression(x), MemberObjectView::MemberExpression(y)) => {
                x.lemma_digest_apart(*y);
            },
            (MemberObjectView::Identifier(x), MemberObjectView::Identifier(y)) => {
                x.lemma_digest_apart(*y);
            },
            _ => {},
        }
    }
}

impl LiteralIdentifierView {
    /// The digest is the hash of the pieces, and the first piece tells the
    /// type.
    pub proof fn lemma_first_piece(self)
        ensures
            self.digest_of() == digest_of_pieces(self.pieces()),
            self.pieces().len() > 0,
            self.pieces()[0] == seq![self.tag()],
    {
        match self {
            LiteralIdentifierView::Identifier(x) => {
                x.lemma_first_piece();
            },
            LiteralIdentifierView::Literal(x) => {
                x.lemma_first_piece();
            },
        }
    }

    /// Two with the same digest hold the same, but for offsets and digests
    /// kept, where no two sequences of pieces have the same digest.
    pub proof fn lemma_digest_apart(self, other: LiteralIdentifierView)
        requires
            collision_free(),
            self.fits(),
            other.fits(),
            self.digest_of() == other.digest_of(),
        ensures
            self.erased(true) == other.erased(true),
        decreases self,
    {
        self.lemma_first_piece();
        other.lemma_first_piece();
        assert(self.pieces() == other.pieces());
        assert(seq![self.tag()][0] == seq![other.tag()][0]);
        match (self, other) {
            (LiteralIdentifierView::Identifier(x), LiteralIdentifierView::Identifier(y)) => {
                x.lemma_digest_apart(*y);
            },
            (LiteralIdentifierView::Literal(x), LiteralIdentifierView::Literal(y)) => {
                x.lemma_digest_apart(*y);
            },
            _ => {},
        }
    }
}

impl MemberExpressionView {
    /// The first piece tells the type.
    pub proof fn lemma_first_piece(self)
        ensures
            self.pieces().len() > 0,
            self.pieces()[0] == seq![TAG_MEMBER_EXPRESSION],
    {
    }

    /// Two nodes with the same digest hold the same, but for offsets and
    /// digests kept, where no two sequences of pieces have the same digest.
    pub proof fn lemma_digest_apart(self, other: MemberExpressionView)
        requires
            collision_free(),
            self.fits(),
            other.fits(),
            self.digest_of() == other.digest_of(),
        ensures
            self.erased(true) == other.erased(true),
        decreases self,
    {
        let p = self.pieces();
        let q = other.pieces();
        assert(p == q);
        assert(p[1int] == self.object.digest_of() && q[1int] == other.object.digest_of());
        self.object.lemma_digest_apart(other.object);
        assert(p[1int + 1] == self.property.digest_of() && q[1int + 1] == other.property.digest_of());
        self.property.lemma_digest_apart(other.property);
        assert(p[1int + 1 + 1] == flag_bytes(self.computed) && q[1int + 1 + 1] == flag_bytes(other.computed));
        lemma_flag_apart(self.computed, other.computed);
    }
}

impl BinaryExpressionView {
    /// The first piece tells the type.
    pub proof fn lemma_first_piece(self)
        ensures
            self.pieces().len() > 0,
            self.pieces()[0] == seq![TAG_BINARY_EXPRESSION],
    {
    }

    /// Two nodes with the same digest hold the same, but for offsets and
    /// digests kept, where no two sequences of pieces have the same digest.
    pub proof fn lemma_digest_apart(self, other: BinaryExpressionView)
        requires
            collision_free(),
            self.fits(),
            other.fits(),
            self.digest_of() == other.digest_of(),
        ensures
            self.erased(true) == other.erased(true),
        decreases self,
    {
        let p = self.pieces();
        let q = other.pieces();
        assert(p == q);
        assert(p[1int] == self.operator.digest_id() && q[1int] == other.operator.digest_id());
        lemma_binary_operator_apart(self.operator, other.operator);
        assert(p[1int + 1] == self.left.digest_of() && q[1int + 1] == other.left.digest_of());
        self.left.lemma_digest_apart(other.left);
        assert(p[1int + 1 + 1] == self.right.digest_of() && q[1int + 1 + 1] == other.right.digest_of());
        self.right.lemma_digest_apart(other.right);
    }
}

impl UnaryExpressionView {
    /// The first piece tells the type.
    pub proof fn lemma_first_piece(self)
        ensures
            self.pieces().len() > 0,
            self.pieces()[0] == seq![TAG_UNARY_EXPRESSION],
    {
    }

    /// Two nodes with the same digest hold the same, but for offsets and
    /// digests kept, where no two sequences of pieces have the same digest.
    pub proof fn lemma_digest_apart(self, other: UnaryExpressionView)
        requires
            collision_free(),
            self.fits(),
            other.fits(),
            self.digest_of() == other.digest_of(),
        ensures
            self.erased(true) == other.erased(true),
        decreases self,
    {
        let p = self.pieces();
        let q = other.pieces();
        assert(p == q);
        assert(p[1int] == self.operator.digest_id() && q[1int] == other.operator.digest_id());
        lemma_unary_operator_apart(self.operator, other.operator);
        assert(p[1int + 1] == self.argument.digest_of() && q[1int + 1] == other.argument.digest_of());
        self.argument.lemma_digest_apart(other.argument);
    }
}

impl PipeExpressionView {
    /// The first piece tells the type.
    pub proof fn lemma_first_piece(self)
        ensures
            self.pieces().len() > 0,
            self.pieces()[0] == seq![TAG_PIPE_EXPRESSION],
    {
    }

    /// Two nodes with the same digest hold the same, but for offsets and
    /// digests kept, where no two sequences of pieces have the same digest.
    pub proof fn lemma_digest_apart(self, other: PipeExpressionView)
        requires
            collision_free(),
            self.fits(),
            other.fits(),
            self.digest_of() == other.digest_of(),
        ensures
            self.erased(true) == other.erased(true),
        decreases self,
    {
        let p = self.pieces();
        let q = other.pieces();
        assert(p == q);
        assert(p[1int] == number_bytes(self.body.len() as int));
        assert(q[1int] == number_bytes(other.body.len() as int));
        lemma_number_apart(self.body.len() as int, other.body.len() as int);
        assert forall|i: int| 0 <= i < self.body.len() implies (#[trigger] self.body[i]).erased(true)
            == other.body[i].erased(true) by {
            assert(p[1int + 1 + i] == self.body[i].digest_of());
            assert(q[1int + 1 + i] == other.body[i].digest_of());
            self.body[i].lemma_digest_apart(other.body[i]);
        }
        assert(self.erased(true).body =~= other.erased(true).body);
        assert(p[1int + 1 + self.body.len() as int] == self.non_code_meta.digest_of() && q[1int + 1 + self.body.len() as int] == other.non_code_meta.digest_of());
        self.non_code_meta.lemma_digest_apart(other.non_code_meta);
    }
}

impl ParameterView {
    /// The first piece tells the type.
    pub proof fn lemma_first_piece(self)
        ensures
            self.pieces().len() > 0,
            self.pieces()[0] == seq![TAG_PARAMETER],
    {
    }

    /// Two nodes with the same digest hold the same, but for offsets and
    /// digests kept, where no two sequences of pieces have the same digest.
    pub proof fn lemma_digest_apart(self, other: ParameterView)
        requires
            collision_free(),
            self.fits(),
            other.fits(),
            self.digest_of() == other.digest_of(),
        ensures
            self.erased(true) == other.erased(true),
        decreases self,
    {
        let p = self.pieces();
        let q = other.pieces();
        assert(p == q);
        assert(p[1int] == self.identifier.digest_of() && q[1int] == other.identifier.digest_of());
        self.identifier.lemma_digest_apart(other.identifier);
        assert(p[1int + 1] == flag_bytes(self.type_ is Some));
        assert(q[1int + 1] == flag_bytes(other.type_ is Some));
        lemma_flag_apart(self.type_ is Some, other.type_ is Some);
        match (self.type_, other.type_) {
            (Some(x), Some(y)) => {
                assert(p[1int + 1 + 1] == x.digest_of());
                assert(q[1int + 1 + 1] == y.digest_of());
                x.lemma_digest_apart(y);
            },
            _ => {},
        }
        assert(p[1int + 1 + (if self.type_ is Some { 2int } else { 1int })] == flag_bytes(self.optional) && q[1int + 1 + (if self.type_ is Some { 2int } else { 1int })] == flag_bytes(other.optional));
        lemma_flag_apart(self.optional, other.optional);
    }
}

impl FunctionExpressionView {
    /// The first piece tells the type.
    pub proof fn lemma_first_piece(self)
        ensures
            self.pieces().len() > 0,
            self.pieces()[0] == seq![TAG_FUNCTION_EXPRESSION],
    {
    }

    /// Two nodes with the same digest hold the same, but for offsets and
    /// digests kept, where no two sequences of pieces have the same digest.
    pub proof fn lemma_digest_apart(self, other: FunctionExpressionView)
        requires
            collision_free(),
            self.fits(),
            other.fits(),
            self.digest_of() == other.digest_of(),
        ensures
            self.erased(true) == other.erased(true),
        decreases self,
    {
        let p = self.pieces();
        let q = other.pieces();
        assert(p == q);
        assert(p[1int] == number_bytes(self.params.len() as int));
        assert(q[1int] == number_bytes(other.params.len() as int));
        lemma_number_apart(self.params.len() as int, other.params.len() as int);
        assert forall|i: int| 0 <= i < self.params.len() implies (#[trigger] self.params[i]).erased(true)
            == other.params[i].erased(true) by {
            assert(p[1int + 1 + i] == self.params[i].digest_of());
            assert(q[1int + 1 + i] == other.params[i].digest_of());
            self.params[i].lemma_digest_apart(other.params[i]);
        }
        assert(self.erased(true).params =~= other.erased(true).params);
        assert(p[1int + 1 + self.params.len() as int] == self.body.digest_of() && q[1int + 1 + self.params.len() as int] == other.body.digest_of());
        self.body.lemma_digest_apart(other.body);
        assert(p[1int + 1 + self.params.len() as int + 1] == flag_bytes(self.return_type is Some));
        assert(q[1int + 1 + self.params.len() as int + 1] == flag_bytes(other.return_type is Some));
        lemma_flag_apart(self.return_type is Some, other.return_type is Some);
        match (self.return_type, other.return_type) {
            (Some(x), Some(y)) => {
                assert(p[1int + 1 + self.params.len() as int + 1 + 1] == x.digest_of());
                assert(q[1int + 1 + self.params.len() as int + 1 + 1] == y.digest_of());
                x.lemma_digest_apart(y);
            },
            _ => {},
        }
    }
}

impl ReturnStatementView {
    /// The first piece tells the type.
    pub proof fn lemma_first_piece(self)
        ensures
            self.pieces().len() > 0,
            self.pieces()[0] == seq![TAG_RETURN_STATEMENT],
    {
    }

    /// Two nodes with the same digest hold the same, but for offsets and
    /// digests kept, where no two sequences of pieces have the same digest.
    pub proof fn lemma_digest_apart(self, other: ReturnStatementView)
        requires
            collision_free(),
            self.fits(),
            other.fits(),
            self.digest_of() == other.digest_of(),
        ensures
            self.erased(true) == other.erased(true),
        decreases self,
    {
        let p = self.pieces();
        let q = other.pieces();
        assert(p == q);
        assert(p[1int] == self.argument.digest_of() && q[1int] == other.argument.digest_of());
        self.argument.lemma_digest_apart(other.argument);
    }
}

impl IfExpressionView {
    /// The first piece tells the type.
    pub proof fn lemma_first_piece(self)
        ensures
            self.pieces().len() > 0,
            self.pieces()[0] == seq![TAG_IF_EXPRESSION],
    {
    }

    /// Two nodes with the same digest hold the same, but for offsets and
    /// digests kept, where no two sequences of pieces have the same digest.
    pub proof fn lemma_digest_apart(self, other: IfExpressionView)
        requires
            collision_free(),
            self.fits(),
            other.fits(),
            self.digest_of() == other.digest_of(),
        ensures
            self.erased(true) == other.erased(true),
        decreases self,
    {
        let p = self.pieces();
        let q = other.pieces();
        assert(p == q);
        assert(p[1int] == self.cond.digest_of() && q[1int] == other.cond.digest_of());
        self.cond.lemma_digest_apart(*other.cond);
        assert(p[1int + 1] == self.then_val.digest_of() && q[1int + 1] == other.then_val.digest_of());
        self.then_val.lemma_digest_apart(*other.then_val);
        assert(p[1int + 1 + 1] == number_bytes(self.else_ifs.len() as int));
        assert(q[1int + 1 + 1] == number_bytes(other.else_ifs.len() as int));
        lemma_number_apart(self.else_ifs.len() as int, other.else_ifs.len() as int);
        assert forall|i: int| 0 <= i < self.else_ifs.len() implies (#[trigger] self.else_ifs[i]).erased(true)
            == other.else_ifs[i].erased(true) by {
            assert(p[1int + 1 + 1 + 1 + i] == self.else_ifs[i].digest_of());
            assert(q[1int + 1 + 1 + 1 + i] == other.else_ifs[i].digest_of());
            self.else_ifs[i].lemma_digest_apart(other.else_ifs[i]);
        }
        assert(self.erased(true).else_ifs =~= other.erased(true).else_ifs);
        assert(p[1int + 1 + 1 + 1 + self.else_ifs.len() as int] == self.final_else.digest_of() && q[1int + 1 + 1 + 1 + self.else_ifs.len() as int] == other.final_else.digest_of());
        self.final_else.lemma_digest_apart(*other.final_else);
    }
}

impl ElseIfView {
    /// The first piece tells the type.
    pub proof fn lemma_first_piece(self)
        ensures
            self.pieces().len() > 0,
            self.pieces()[0] == seq![TAG_ELSE_IF],
    {
    }

    /// Two nodes with the same digest hold the same, but for offsets and
    /// digests kept, where no two sequences of pieces have the same digest.
    pub proof fn lemma_digest_apart(self, other: ElseIfView)
        requires
            collision_free(),
            self.fits(),
            other.fits(),
            self.digest_of() == other.digest_of(),
        ensures
            self.erased(true) == other.erased(true),
        decreases self,
    {
        let p = self.pieces();
        let q = other.pieces();
        assert(p == q);
        assert(p[1int] == self.cond.digest_of() && q[1int] == other.cond.digest_of());
        self.cond.lemma_digest_apart(other.cond);
        assert(p[1int + 1] == self.then_val.digest_of() && q[1int + 1] == other.then_val.digest_of());
        self.then_val.lemma_digest_apart(*other.then_val);
    }
}

/// Two programs with the same digest hold the same, but for the offsets and
/// the digests kept in them, where no two sequences of pieces have the same
/// digest: what differs in any other field has another digest.
pub proof fn lemma_digest_tells_apart(a: ProgramView, b: ProgramView)
    requires
        collision_free(),
        a.fits(),
        b.fits(),
        a.digest_of() == b.digest_of(),
    ensures
        a.erased(true) == b.erased(true),
{
    a.lemma_digest_apart(b);
}

} // verus!
