//! The digest of each node type: what it is made of, and how it is computed
//! and kept.
//!
//! A node keeps its digest once it is computed, and hands it out from then
//! on. Nothing takes it away when the node or a node below it changes: whoever
//! changes a tree sets the digests kept from the changed node up to the root
//! back to `None`. The functions here ask of a tree that the digests kept in
//! it are those of the nodes that keep them.

use crate::ast::{
    ArrayExpression, ArrayRangeExpression, BinaryExpression, BinaryPart, BodyItem, CallExpression,
    Digest, ElseIf, Expr, ExpressionStatement, FnArgType, FunctionExpression, Identifier,
    IfExpression, ImportItem, ImportStatement, KclNone, Literal, LiteralIdentifier, LiteralValue,
    MemberExpression, MemberObject, NonCodeMeta, NonCodeNode, NonCodeValue, ObjectExpression,
    ObjectProperty, Parameter, PipeExpression, PipeSubstitution, Program, ReturnStatement,
    TagDeclarator, UnaryExpression, VariableDeclaration, VariableDeclarator,
};
use crate::digest::{digest_of_pieces, flag_bytes, number_bytes, text_bytes, Hasher};
use crate::model::{
    non_code_nodes_view, ArrayExpressionView, ArrayRangeExpressionView, BinaryExpressionView,
    BinaryPartView, BodyItemView, CallExpressionView, ElseIfView, ExprView,
    ExpressionStatementView, FnArgTypeView, FunctionExpressionView, IdentifierView,
    IfExpressionView, ImportItemView, ImportStatementView, LiteralIdentifierView, LiteralValueView,
    LiteralView, MemberExpressionView, MemberObjectView, NonCodeMetaView, NonCodeNodeView,
    NonCodeValueView, ObjectExpressionView, ObjectPropertyView, ParameterView, PipeExpressionView,
    PipeSubstitutionView, ProgramView, ReturnStatementView, TagDeclaratorView, UnaryExpressionView,
    VariableDeclarationView, VariableDeclaratorView,
};
use crate::order::{ascending, lemma_ascending_is, lists_ascending, sorted_keys};
use vstd::prelude::*;

verus! {

broadcast use vstd::std_specs::hash::group_hash_axioms;
// The bytes that tell the type of a node.
pub const TAG_PROGRAM: u8 = 1;

pub const TAG_IMPORT_ITEM: u8 = 2;

pub const TAG_IMPORT_STATEMENT: u8 = 3;

pub const TAG_EXPRESSION_STATEMENT: u8 = 4;

pub const TAG_CALL_EXPRESSION: u8 = 5;

pub const TAG_VARIABLE_DECLARATION: u8 = 6;

pub const TAG_VARIABLE_DECLARATOR: u8 = 7;

pub const TAG_LITERAL: u8 = 8;

pub const TAG_IDENTIFIER: u8 = 9;

pub const TAG_TAG_DECLARATOR: u8 = 10;

pub const TAG_PIPE_SUBSTITUTION: u8 = 11;

pub const TAG_ARRAY_EXPRESSION: u8 = 12;

pub const TAG_ARRAY_RANGE_EXPRESSION: u8 = 13;

pub const TAG_OBJECT_EXPRESSION: u8 = 14;

pub const TAG_OBJECT_PROPERTY: u8 = 15;

pub const TAG_MEMBER_EXPRESSION: u8 = 16;

pub const TAG_BINARY_EXPRESSION: u8 = 17;

pub const TAG_UNARY_EXPRESSION: u8 = 18;

pub const TAG_PIPE_EXPRESSION: u8 = 19;

pub const TAG_PARAMETER: u8 = 20;

pub const TAG_FUNCTION_EXPRESSION: u8 = 21;

pub const TAG_RETURN_STATEMENT: u8 = 22;

pub const TAG_IF_EXPRESSION: u8 = 23;

pub const TAG_ELSE_IF: u8 = 24;

pub const TAG_NON_CODE_NODE: u8 = 25;

pub const TAG_NON_CODE_META: u8 = 26;

pub const TAG_KCL_NONE: u8 = 27;

impl ProgramView {
    /// The pieces that the digest of the node is made of.
    pub open spec fn pieces(self) -> Seq<Seq<u8>>
        decreases self, 0nat,
    {
        seq![seq![TAG_PROGRAM]] + seq![number_bytes(self.body.len() as int)] + Seq::new(
                self.body.len(),
                |i: int|
                    if 0 <= i < self.body.len() {
                        self.body[i].digest_of()
                    } else {
                        arbitrary()
                    },
            ) + seq![self.non_code_meta.digest_of()]
    }

    /// The digest of the node: the hash of its pieces.
    pub open spec fn digest_of(self) -> Seq<u8>
        decreases self, 1nat,
    {
        digest_of_pieces(self.pieces())
    }

    /// Whether every digest kept in the node or below it is the digest of the
    /// node that keeps it.
    pub open spec fn caches_valid(self) -> bool
        decreases self,
    {
        &&& (self.digest matches Some(d) ==> d == self.digest_of())
        &&& forall|i: int| 0 <= i < self.body.len() ==> (#[trigger] self.body[i]).caches_valid()
        &&& self.non_code_meta.caches_valid()
    }

    /// The node without the digests kept in it and below it and, where
    /// `offsets` is set, with all offsets at zero.
    pub open spec fn erased(self, offsets: bool) -> ProgramView
        decreases self,
    {
        ProgramView {
            start: if offsets {
                0
            } else {
                self.start
            },
            end: if offsets {
                0
            } else {
                self.end
            },
            digest: None,
            body: Seq::new(
                self.body.len(),
                |i: int|
                    if 0 <= i < self.body.len() {
                        self.body[i].erased(offsets)
                    } else {
                        arbitrary()
                    },
            ),
            non_code_meta: self.non_code_meta.erased(offsets),
            ..self
        }
    }

    /// The node once its digest has been computed: as it is where it keeps a
    /// digest; else with its digest kept, and the same done below it.
    pub open spec fn filled(self) -> ProgramView
        decreases self,
    {
        if self.digest is Some {
            self
        } else {
            ProgramView {
                digest: Some(self.digest_of()),
                    body: Seq::new(
                    self.body.len(),
                    |i: int|
                        if 0 <= i < self.body.len() {
                            self.body[i].filled()
                        } else {
                            arbitrary()
                        },
                ),
                    non_code_meta: self.non_code_meta.filled(),
                ..self
            }
        }
    }
}

impl BodyItemView {
    /// The digest: that of what it stands for.
    pub open spec fn digest_of(self) -> Seq<u8>
        decreases self, 1nat,
    {
        match self {
            BodyItemView::ImportStatement(x) => x.digest_of(),
            BodyItemView::ExpressionStatement(x) => x.digest_of(),
            BodyItemView::VariableDeclaration(x) => x.digest_of(),
            BodyItemView::ReturnStatement(x) => x.digest_of(),
        }
    }

    /// Whether every digest kept below is the digest of the node that keeps it.
    pub open spec fn caches_valid(self) -> bool
        decreases self,
    {
        match self {
            BodyItemView::ImportStatement(x) => x.caches_valid(),
            BodyItemView::ExpressionStatement(x) => x.caches_valid(),
            BodyItemView::VariableDeclaration(x) => x.caches_valid(),
            BodyItemView::ReturnStatement(x) => x.caches_valid(),
        }
    }

    /// The same without the digests kept below and, where `offsets` is set,
    /// with all offsets at zero.
    pub open spec fn erased(self, offsets: bool) -> BodyItemView
        decreases self,
    {
        match self {
            BodyItemView::ImportStatement(x) => BodyItemView::ImportStatement(Box::new(x.erased(offsets))),
            BodyItemView::ExpressionStatement(x) => BodyItemView::ExpressionStatement(x.erased(offsets)),
            BodyItemView::VariableDeclaration(x) => BodyItemView::VariableDeclaration(Box::new(x.erased(offsets))),
            BodyItemView::ReturnStatement(x) => BodyItemView::ReturnStatement(x.erased(offsets)),
        }
    }

    /// The same once its digest has been computed.
    pub open spec fn filled(self) -> BodyItemView
        decreases self,
    {
        match self {
            BodyItemView::ImportStatement(x) => BodyItemView::ImportStatement(Box::new(x.filled())),
            BodyItemView::ExpressionStatement(x) => BodyItemView::ExpressionStatement(x.filled()),
            BodyItemView::VariableDeclaration(x) => BodyItemView::VariableDeclaration(Box::new(x.filled())),
            BodyItemView::ReturnStatement(x) => BodyItemView::ReturnStatement(x.filled()),
        }
    }
}

impl ExprView {
    /// The digest: that of what it stands for.
    pub open spec fn digest_of(self) -> Seq<u8>
        decreases self, 1nat,
    {
        match self {
            ExprView::Literal(x) => x.digest_of(),
            ExprView::Identifier(x) => x.digest_of(),
            ExprView::TagDeclarator(x) => x.digest_of(),
            ExprView::BinaryExpression(x) => x.digest_of(),
            ExprView::FunctionExpression(x) => x.digest_of(),
            ExprView::CallExpression(x) => x.digest_of(),
            ExprView::PipeExpression(x) => x.digest_of(),
            ExprView::PipeSubstitution(x) => x.digest_of(),
            ExprView::ArrayExpression(x) => x.digest_of(),
            ExprView::ArrayRangeExpression(x) => x.digest_of(),
            ExprView::ObjectExpression(x) => x.digest_of(),
            ExprView::MemberExpression(x) => x.digest_of(),
            ExprView::UnaryExpression(x) => x.digest_of(),
            ExprView::IfExpression(x) => x.digest_of(),
            ExprView::KclNone(x) => x.digest_of(),
        }
    }

    /// Whether every digest kept below is the digest of the node that keeps it.
    pub open spec fn caches_valid(self) -> bool
        decreases self,
    {
        match self {
            ExprView::Literal(x) => x.caches_valid(),
            ExprView::Identifier(x) => x.caches_valid(),
            ExprView::TagDeclarator(x) => x.caches_valid(),
            ExprView::BinaryExpression(x) => x.caches_valid(),
            ExprView::FunctionExpression(x) => x.caches_valid(),
            ExprView::CallExpression(x) => x.caches_valid(),
            ExprView::PipeExpression(x) => x.caches_valid(),
            ExprView::PipeSubstitution(x) => x.caches_valid(),
            ExprView::ArrayExpression(x) => x.caches_valid(),
            ExprView::ArrayRangeExpression(x) => x.caches_valid(),
            ExprView::ObjectExpression(x) => x.caches_valid(),
            ExprView::MemberExpression(x) => x.caches_valid(),
            ExprView::UnaryExpression(x) => x.caches_valid(),
            ExprView::IfExpression(x) => x.caches_valid(),
            ExprView::KclNone(x) => true,
        }
    }

    /// The same without the digests kept below and, where `offsets` is set,
    /// with all offsets at zero.
    pub open spec fn erased(self, offsets: bool) -> ExprView
        decreases self,
    {
        match self {
            ExprView::Literal(x) => ExprView::Literal(Box::new(x.erased(offsets))),
            ExprView::Identifier(x) => ExprView::Identifier(Box::new(x.erased(offsets))),
            ExprView::TagDeclarator(x) => ExprView::TagDeclarator(Box::new(x.erased(offsets))),
            ExprView::BinaryExpression(x) => ExprView::BinaryExpression(Box::new(x.erased(offsets))),
            ExprView::FunctionExpression(x) => ExprView::FunctionExpression(Box::new(x.erased(offsets))),
            ExprView::CallExpression(x) => ExprView::CallExpression(Box::new(x.erased(offsets))),
            ExprView::PipeExpression(x) => ExprView::PipeExpression(Box::new(x.erased(offsets))),
            ExprView::PipeSubstitution(x) => ExprView::PipeSubstitution(Box::new(x.erased(offsets))),
            ExprView::ArrayExpression(x) => ExprView::ArrayExpression(Box::new(x.erased(offsets))),
            ExprView::ArrayRangeExpression(x) => ExprView::ArrayRangeExpression(Box::new(x.erased(offsets))),
            ExprView::ObjectExpression(x) => ExprView::ObjectExpression(Box::new(x.erased(offsets))),
            ExprView::MemberExpression(x) => ExprView::MemberExpression(Box::new(x.erased(offsets))),
            ExprView::UnaryExpression(x) => ExprView::UnaryExpression(Box::new(x.erased(offsets))),
            ExprView::IfExpression(x) => ExprView::IfExpression(Box::new(x.erased(offsets))),
            ExprView::KclNone(x) => ExprView::KclNone(x.erased(offsets)),
        }
    }

    /// The same once its digest has been computed.
    pub open spec fn filled(self) -> ExprView
        decreases self,
    {
        match self {
            ExprView::Literal(x) => ExprView::Literal(Box::new(x.filled())),
            ExprView::Identifier(x) => ExprView::Identifier(Box::new(x.filled())),
            ExprView::TagDeclarator(x) => ExprView::TagDeclarator(Box::new(x.filled())),
            ExprView::BinaryExpression(x) => ExprView::BinaryExpression(Box::new(x.filled())),
            ExprView::FunctionExpression(x) => ExprView::FunctionExpression(Box::new(x.filled())),
            ExprView::CallExpression(x) => ExprView::CallExpression(Box::new(x.filled())),
            ExprView::PipeExpression(x) => ExprView::PipeExpression(Box::new(x.filled())),
            ExprView::PipeSubstitution(x) => ExprView::PipeSubstitution(Box::new(x.filled())),
            ExprView::ArrayExpression(x) => ExprView::ArrayExpression(Box::new(x.filled())),
            ExprView::ArrayRangeExpression(x) => ExprView::ArrayRangeExpression(Box::new(x.filled())),
            ExprView::ObjectExpression(x) => ExprView::ObjectExpression(Box::new(x.filled())),
            ExprView::MemberExpression(x) => ExprView::MemberExpression(Box::new(x.filled())),
            ExprView::UnaryExpression(x) => ExprView::UnaryExpression(Box::new(x.filled())),
            ExprView::IfExpression(x) => ExprView::IfExpression(Box::new(x.filled())),
            ExprView::KclNone(_) => self,
        }
    }
}

impl BinaryPartView {
    /// The digest: that of what it stands for.
    pub open spec fn digest_of(self) -> Seq<u8>
        decreases self, 1nat,
    {
        match self {
            BinaryPartView::Literal(x) => x.digest_of(),
            BinaryPartView::Identifier(x) => x.digest_of(),
            BinaryPartView::BinaryExpression(x) => x.digest_of(),
            BinaryPartView::CallExpression(x) => x.digest_of(),
            BinaryPartView::UnaryExpression(x) => x.digest_of(),
            BinaryPartView::MemberExpression(x) => x.digest_of(),
            BinaryPartView::IfExpression(x) => x.digest_of(),
        }
    }

    /// Whether every digest kept below is the digest of the node that keeps it.
    pub open spec fn caches_valid(self) -> bool
        decreases self,
    {
        match self {
            BinaryPartView::Literal(x) => x.caches_valid(),
            BinaryPartView::Identifier(x) => x.caches_valid(),
            BinaryPartView::BinaryExpression(x) => x.caches_valid(),
            BinaryPartView::CallExpression(x) => x.caches_valid(),
            BinaryPartView::UnaryExpression(x) => x.caches_valid(),
            BinaryPartView::MemberExpression(x) => x.caches_valid(),
            BinaryPartView::IfExpression(x) => x.caches_valid(),
        }
    }

    /// The same without the digests kept below and, where `offsets` is set,
    /// with all offsets at zero.
    pub open spec fn erased(self, offsets: bool) -> BinaryPartView
        decreases self,
    {
        match self {
            BinaryPartView::Literal(x) => BinaryPartView::Literal(Box::new(x.erased(offsets))),
            BinaryPartView::Identifier(x) => BinaryPartView::Identifier(Box::new(x.erased(offsets))),
            BinaryPartView::BinaryExpression(x) => BinaryPartView::BinaryExpression(Box::new(x.erased(offsets))),
            BinaryPartView::CallExpression(x) => BinaryPartView::CallExpression(Box::new(x.erased(offsets))),
            BinaryPartView::UnaryExpression(x) => BinaryPartView::UnaryExpression(Box::new(x.erased(offsets))),
            BinaryPartView::MemberExpression(x) => BinaryPartView::MemberExpression(Box::new(x.erased(offsets))),
            BinaryPartView::IfExpression(x) => BinaryPartView::IfExpression(Box::new(x.erased(offsets))),
        }
    }

    /// The same once its digest has been computed.
    pub open spec fn filled(self) -> BinaryPartView
        decreases self,
    {
        match self {
            BinaryPartView::Literal(x) => BinaryPartView::Literal(Box::new(x.filled())),
            BinaryPartView::Identifier(x) => BinaryPartView::Identifier(Box::new(x.filled())),
            BinaryPartView::BinaryExpression(x) => BinaryPartView::BinaryExpression(Box::new(x.filled())),
            BinaryPartView::CallExpression(x) => BinaryPartView::CallExpression(Box::new(x.filled())),
            BinaryPartView::UnaryExpression(x) => BinaryPartView::UnaryExpression(Box::new(x.filled())),
            BinaryPartView::MemberExpression(x) => BinaryPartView::MemberExpression(Box::new(x.filled())),
            BinaryPartView::IfExpression(x) => BinaryPartView::IfExpression(Box::new(x.filled())),
        }
    }
}

impl ImportItemView {
    /// The pieces that the digest of the node is made of.
    pub open spec fn pieces(self) -> Seq<Seq<u8>>
        decreases self, 0nat,
    {
        seq![seq![TAG_IMPORT_ITEM]] + seq![self.name.digest_of()] + (match self.alias {
                Some(x) => seq![flag_bytes(true), x.digest_of()],
                None => seq![flag_bytes(false)],
            })
    }

    /// The digest of the node: the hash of its pieces.
    pub open spec fn digest_of(self) -> Seq<u8>
        decreases self, 1nat,
    {
        digest_of_pieces(self.pieces())
    }

    /// Whether every digest kept in the node or below it is the digest of the
    /// node that keeps it.
    pub open spec fn caches_valid(self) -> bool
        decreases self,
    {
        &&& (self.digest matches Some(d) ==> d == self.digest_of())
        &&& self.name.caches_valid()
        &&& (match self.alias {
                Some(x) => x.caches_valid(),
                None => true,
            })
    }

    /// The node without the digests kept in it and below it and, where
    /// `offsets` is set, with all offsets at zero.
    pub open spec fn erased(self, offsets: bool) -> ImportItemView
        decreases self,
    {
        ImportItemView {
            start: if offsets {
                0
            } else {
                self.start
            },
            end: if offsets {
                0
            } else {
                self.end
            },
            digest: None,
            name: self.name.erased(offsets),
            alias: match self.alias {
                Some(x) => Some(x.erased(offsets)),
                None => None,
            },
            ..self
        }
    }

    /// The node once its digest has been computed: as it is where it keeps a
    /// digest; else with its digest kept, and the same done below it.
    pub open spec fn filled(self) -> ImportItemView
        decreases self,
    {
        if self.digest is Some {
            self
        } else {
            ImportItemView {
                digest: Some(self.digest_of()),
                    name: self.name.filled(),
                    alias: match self.alias {
                    Some(x) => Some(x.filled()),
                    None => None,
                },
                ..self
            }
        }
    }
}

impl ImportStatementView {
    /// The pieces that the digest of the node is made of.
    pub open spec fn pieces(self) -> Seq<Seq<u8>>
        decreases self, 0nat,
    {
        seq![seq![TAG_IMPORT_STATEMENT]] + seq![number_bytes(self.items.len() as int)] + Seq::new(
                self.items.len(),
                |i: int|
                    if 0 <= i < self.items.len() {
                        self.items[i].digest_of()
                    } else {
                        arbitrary()
                    },
            ) + seq![text_bytes(self.path)] + seq![text_bytes(self.raw_path)]
    }

    /// The digest of the node: the hash of its pieces.
    pub open spec fn digest_of(self) -> Seq<u8>
        decreases self, 1nat,
    {
        digest_of_pieces(self.pieces())
    }

    /// Whether every digest kept in the node or below it is the digest of the
    /// node that keeps it.
    pub open spec fn caches_valid(self) -> bool
        decreases self,
    {
        &&& (self.digest matches Some(d) ==> d == self.digest_of())
        &&& forall|i: int| 0 <= i < self.items.len() ==> (#[trigger] self.items[i]).caches_valid()
    }

    /// The node without the digests kept in it and below it and, where
    /// `offsets` is set, with all offsets at zero.
    pub open spec fn erased(self, offsets: bool) -> ImportStatementView
        decreases self,
    {
        ImportStatementView {
            start: if offsets {
                0
            } else {
                self.start
            },
            end: if offsets {
                0
            } else {
                self.end
            },
            digest: None,
            items: Seq::new(
                self.items.len(),
                |i: int|
                    if 0 <= i < self.items.len() {
                        self.items[i].erased(offsets)
                    } else {
                        arbitrary()
                    },
            ),
            ..self
        }
    }

    /// The node once its digest has been computed: as it is where it keeps a
    /// digest; else with its digest kept, and the same done below it.
    pub open spec fn filled(self) -> ImportStatementView
        decreases self,
    {
        if self.digest is Some {
            self
        } else {
            ImportStatementView {
                digest: Some(self.digest_of()),
                    items: Seq::new(
                    self.items.len(),
                    |i: int|
                        if 0 <= i < self.items.len() {
                            self.items[i].filled()
                        } else {
                            arbitrary()
                        },
                ),
                ..self
            }
        }
    }
}

impl ExpressionStatementView {
    /// The pieces that the digest of the node is made of.
    pub open spec fn pieces(self) -> Seq<Seq<u8>>
        decreases self, 0nat,
    {
        seq![seq![TAG_EXPRESSION_STATEMENT]] + seq![self.expression.digest_of()]
    }

    /// The digest of the node: the hash of its pieces.
    pub open spec fn digest_of(self) -> Seq<u8>
        decreases self, 1nat,
    {
        digest_of_pieces(self.pieces())
    }

    /// Whether every digest kept in the node or below it is the digest of the
    /// node that keeps it.
    pub open spec fn caches_valid(self) -> bool
        decreases self,
    {
        &&& (self.digest matches Some(d) ==> d == self.digest_of())
        &&& self.expression.caches_valid()
    }

    /// The node without the digests kept in it and below it and, where
    /// `offsets` is set, with all offsets at zero.
    pub open spec fn erased(self, offsets: bool) -> ExpressionStatementView
        decreases self,
    {
        ExpressionStatementView {
            start: if offsets {
                0
            } else {
                self.start
            },
            end: if offsets {
                0
            } else {
                self.end
            },
            digest: None,
            expression: self.expression.erased(offsets),
            ..self
        }
    }

    /// The node once its digest has been computed: as it is where it keeps a
    /// digest; else with its digest kept, and the same done below it.
    pub open spec fn filled(self) -> ExpressionStatementView
        decreases self,
    {
        if self.digest is Some {
            self
        } else {
            ExpressionStatementView {
                digest: Some(self.digest_of()),
                    expression: self.expression.filled(),
                ..self
            }
        }
    }
}

impl CallExpressionView {
    /// The pieces that the digest of the node is made of.
    pub open spec fn pieces(self) -> Seq<Seq<u8>>
        decreases self, 0nat,
    {
        seq![seq![TAG_CALL_EXPRESSION]] + seq![self.callee.digest_of()] + seq![number_bytes(self.arguments.len() as int)] + Seq::new(
                self.arguments.len(),
                |i: int|
                    if 0 <= i < self.arguments.len() {
                        self.arguments[i].digest_of()
                    } else {
                        arbitrary()
                    },
            ) + seq![flag_bytes(self.optional)]
    }

    /// The digest of the node: the hash of its pieces.
    pub open spec fn digest_of(self) -> Seq<u8>
        decreases self, 1nat,
    {
        digest_of_pieces(self.pieces())
    }

    /// Whether every digest kept in the node or below it is the digest of the
    /// node that keeps it.
    pub open spec fn caches_valid(self) -> bool
        decreases self,
    {
        &&& (self.digest matches Some(d) ==> d == self.digest_of())
        &&& self.callee.caches_valid()
        &&& forall|i: int| 0 <= i < self.arguments.len() ==> (#[trigger] self.arguments[i]).caches_valid()
    }

    /// The node without the digests kept in it and below it and, where
    /// `offsets` is set, with all offsets at zero.
    pub open spec fn erased(self, offsets: bool) -> CallExpressionView
        decreases self,
    {
        CallExpressionView {
            start: if offsets {
                0
            } else {
                self.start
            },
            end: if offsets {
                0
            } else {
                self.end
            },
            digest: None,
            callee: self.callee.erased(offsets),
            arguments: Seq::new(
                self.arguments.len(),
                |i: int|
                    if 0 <= i < self.arguments.len() {
                        self.arguments[i].erased(offsets)
                    } else {
                        arbitrary()
                    },
            ),
            ..self
        }
    }

    /// The node once its digest has been computed: as it is where it keeps a
    /// digest; else with its digest kept, and the same done below it.
    pub open spec fn filled(self) -> CallExpressionView
        decreases self,
    {
        if self.digest is Some {
            self
        } else {
            CallExpressionView {
                digest: Some(self.digest_of()),
                    callee: self.callee.filled(),
                    arguments: Seq::new(
                    self.arguments.len(),
                    |i: int|
                        if 0 <= i < self.arguments.len() {
                            self.arguments[i].filled()
                        } else {
                            arbitrary()
                        },
                ),
                ..self
            }
        }
    }
}

impl VariableDeclarationView {
    /// The pieces that the digest of the node is made of.
    pub open spec fn pieces(self) -> Seq<Seq<u8>>
        decreases self, 0nat,
    {
        seq![seq![TAG_VARIABLE_DECLARATION]] + seq![number_bytes(self.declarations.len() as int)] + Seq::new(
                self.declarations.len(),
                |i: int|
                    if 0 <= i < self.declarations.len() {
                        self.declarations[i].digest_of()
                    } else {
                        arbitrary()
                    },
            ) + seq![self.visibility.digest_id()] + seq![self.kind.digest_id()]
    }

    /// The digest of the node: the hash of its pieces.
    pub open spec fn digest_of(self) -> Seq<u8>
        decreases self, 1nat,
    {
        digest_of_pieces(self.pieces())
    }

    /// Whether every digest kept in the node or below it is the digest of the
    /// node that keeps it.
    pub open spec fn caches_valid(self) -> bool
        decreases self,
    {
        &&& (self.digest matches Some(d) ==> d == self.digest_of())
        &&& forall|i: int| 0 <= i < self.declarations.len() ==> (#[trigger] self.declarations[i]).caches_valid()
    }

    /// The node without the digests kept in it and below it and, where
    /// `offsets` is set, with all offsets at zero.
    pub open spec fn erased(self, offsets: bool) -> VariableDeclarationView
        decreases self,
    {
        VariableDeclarationView {
            start: if offsets {
                0
            } else {
                self.start
            },
            end: if offsets {
                0
            } else {
                self.end
            },
            digest: None,
            declarations: Seq::new(
                self.declarations.len(),
                |i: int|
                    if 0 <= i < self.declarations.len() {
                        self.declarations[i].erased(offsets)
                    } else {
                        arbitrary()
                    },
            ),
            ..self
        }
    }

    /// The node once its digest has been computed: as it is where it keeps a
    /// digest; else with its digest kept, and the same done below it.
    pub open spec fn filled(self) -> VariableDeclarationView
        decreases self,
    {
        if self.digest is Some {
            self
        } else {
            VariableDeclarationView {
                digest: Some(self.digest_of()),
                    declarations: Seq::new(
                    self.declarations.len(),
                    |i: int|
                        if 0 <= i < self.declarations.len() {
                            self.declarations[i].filled()
                        } else {
                            arbitrary()
                        },
                ),
                ..self
            }
        }
    }
}

impl VariableDeclaratorView {
    /// The pieces that the digest of the node is made of.
    pub open spec fn pieces(self) -> Seq<Seq<u8>>
        decreases self, 0nat,
    {
        seq![seq![TAG_VARIABLE_DECLARATOR]] + seq![self.id.digest_of()] + seq![self.init.digest_of()]
    }

    /// The digest of the node: the hash of its pieces.
    pub open spec fn digest_of(self) -> Seq<u8>
        decreases self, 1nat,
    {
        digest_of_pieces(self.pieces())
    }

    /// Whether every digest kept in the node or below it is the digest of the
    /// node that keeps it.
    pub open spec fn caches_valid(self) -> bool
        decreases self,
    {
        &&& (self.digest matches Some(d) ==> d == self.digest_of())
        &&& self.id.caches_valid()
        &&& self.init.caches_valid()
    }

    /// The node without the digests kept in it and below it and, where
    /// `offsets` is set, with all offsets at zero.
    pub open spec fn erased(self, offsets: bool) -> VariableDeclaratorView
        decreases self,
    {
        VariableDeclaratorView {
            start: if offsets {
                0
            } else {
                self.start
            },
            end: if offsets {
                0
            } else {
                self.end
            },
            digest: None,
            id: self.id.erased(offsets),
            init: self.init.erased(offsets),
            ..self
        }
    }

    /// The node once its digest has been computed: as it is where it keeps a
    /// digest; else with its digest kept, and the same done below it.
    pub open spec fn filled(self) -> VariableDeclaratorView
        decreases self,
    {
        if self.digest is Some {
            self
        } else {
            VariableDeclaratorView {
                digest: Some(self.digest_of()),
                    id: self.id.filled(),
                    init: self.init.filled(),
                ..self
            }
        }
    }
}

impl LiteralView {
    /// The pieces that the digest of the node is made of.
    pub open spec fn pieces(self) -> Seq<Seq<u8>>
        decreases self, 0nat,
    {
        seq![seq![TAG_LITERAL]] + seq![self.value.digest_of()] + seq![text_bytes(self.raw)]
    }

    /// The digest of the node: the hash of its pieces.
    pub open spec fn digest_of(self) -> Seq<u8>
        decreases self, 1nat,
    {
        digest_of_pieces(self.pieces())
    }

    /// Whether every digest kept in the node or below it is the digest of the
    /// node that keeps it.
    pub open spec fn caches_valid(self) -> bool
        decreases self,
    {
        &&& (self.digest matches Some(d) ==> d == self.digest_of())
    }

    /// The node without the digests kept in it and below it and, where
    /// `offsets` is set, with all offsets at zero.
    pub open spec fn erased(self, offsets: bool) -> LiteralView
        decreases self,
    {
        LiteralView {
            start: if offsets {
                0
            } else {
                self.start
            },
            end: if offsets {
                0
            } else {
                self.end
            },
            digest: None,
            ..self
        }
    }

    /// The node once its digest has been computed: as it is where it keeps a
    /// digest; else with its digest kept, and the same done below it.
    pub open spec fn filled(self) -> LiteralView
        decreases self,
    {
        if self.digest is Some {
            self
        } else {
            LiteralView {
                digest: Some(self.digest_of()),
                ..self
            }
        }
    }
}

impl IdentifierView {
    /// The pieces that the digest of the node is made of.
    pub open spec fn pieces(self) -> Seq<Seq<u8>>
        decreases self, 0nat,
    {
        seq![seq![TAG_IDENTIFIER]] + seq![text_bytes(self.name)]
    }

    /// The digest of the node: the hash of its pieces.
    pub open spec fn digest_of(self) -> Seq<u8>
        decreases self, 1nat,
    {
        digest_of_pieces(self.pieces())
    }

    /// Whether every digest kept in the node or below it is the digest of the
    /// node that keeps it.
    pub open spec fn caches_valid(self) -> bool
        decreases self,
    {
        &&& (self.digest matches Some(d) ==> d == self.digest_of())
    }

    /// The node without the digests kept in it and below it and, where
    /// `offsets` is set, with all offsets at zero.
    pub open spec fn erased(self, offsets: bool) -> IdentifierView
        decreases self,
    {
        IdentifierView {
            start: if offsets {
                0
            } else {
                self.start
            },
            end: if offsets {
                0
            } else {
                self.end
            },
            digest: None,
            ..self
        }
    }

    /// The node once its digest has been computed: as it is where it keeps a
    /// digest; else with its digest kept, and the same done below it.
    pub open spec fn filled(self) -> IdentifierView
        decreases self,
    {
        if self.digest is Some {
            self
        } else {
            IdentifierView {
                digest: Some(self.digest_of()),
                ..self
            }
        }
    }
}

impl TagDeclaratorView {
    /// The pieces that the digest of the node is made of.
    pub open spec fn pieces(self) -> Seq<Seq<u8>>
        decreases self, 0nat,
    {
        seq![seq![TAG_TAG_DECLARATOR]] + seq![text_bytes(self.name)]
    }

    /// The digest of the node: the hash of its pieces.
    pub open spec fn digest_of(self) -> Seq<u8>
        decreases self, 1nat,
    {
        digest_of_pieces(self.pieces())
    }

    /// Whether every digest kept in the node or below it is the digest of the
    /// node that keeps it.
    pub open spec fn caches_valid(self) -> bool
        decreases self,
    {
        &&& (self.digest matches Some(d) ==> d == self.digest_of())
    }

    /// The node without the digests kept in it and below it and, where
    /// `offsets` is set, with all offsets at zero.
    pub open spec fn erased(self, offsets: bool) -> TagDeclaratorView
        decreases self,
    {
        TagDeclaratorView {
            start: if offsets {
                0
            } else {
                self.start
            },
            end: if offsets {
                0
            } else {
                self.end
            },
            digest: None,
            ..self
        }
    }

    /// The node once its digest has been computed: as it is where it keeps a
    /// digest; else with its digest kept, and the same done below it.
    pub open spec fn filled(self) -> TagDeclaratorView
        decreases self,
    {
        if self.digest is Some {
            self
        } else {
            TagDeclaratorView {
                digest: Some(self.digest_of()),
                ..self
            }
        }
    }
}

impl PipeSubstitutionView {
    /// The pieces that the digest of the node is made of.
    pub open spec fn pieces(self) -> Seq<Seq<u8>>
        decreases self, 0nat,
    {
        seq![seq![TAG_PIPE_SUBSTITUTION]]
    }

    /// The digest of the node: the hash of its pieces.
    pub open spec fn digest_of(self) -> Seq<u8>
        decreases self, 1nat,
    {
        digest_of_pieces(self.pieces())
    }

    /// Whether every digest kept in the node or below it is the digest of the
    /// node that keeps it.
    pub open spec fn caches_valid(self) -> bool
        decreases self,
    {
        &&& (self.digest matches Some(d) ==> d == self.digest_of())
    }

    /// The node without the digests kept in it and below it and, where
    /// `offsets` is set, with all offsets at zero.
    pub open spec fn erased(self, offsets: bool) -> PipeSubstitutionView
        decreases self,
    {
        PipeSubstitutionView {
            start: if offsets {
                0
            } else {
                self.start
            },
            end: if offsets {
                0
            } else {
                self.end
            },
            digest: None,
            ..self
        }
    }

    /// The node once its digest has been computed: as it is where it keeps a
    /// digest; else with its digest kept, and the same done below it.
    pub open spec fn filled(self) -> PipeSubstitutionView
        decreases self,
    {
        if self.digest is Some {
            self
        } else {
            PipeSubstitutionView {
                digest: Some(self.digest_of()),
                ..self
            }
        }
    }
}

impl ArrayExpressionView {
    /// The pieces that the digest of the node is made of.
    pub open spec fn pieces(self) -> Seq<Seq<u8>>
        decreases self, 0nat,
    {
        seq![seq![TAG_ARRAY_EXPRESSION]] + seq![number_bytes(self.elements.len() as int)] + Seq::new(
                self.elements.len(),
                |i: int|
                    if 0 <= i < self.elements.len() {
                        self.elements[i].digest_of()
                    } else {
                        arbitrary()
                    },
            ) + seq![self.non_code_meta.digest_of()]
    }

    /// The digest of the node: the hash of its pieces.
    pub open spec fn digest_of(self) -> Seq<u8>
        decreases self, 1nat,
    {
        digest_of_pieces(self.pieces())
    }

    /// Whether every digest kept in the node or below it is the digest of the
    /// node that keeps it.
    pub open spec fn caches_valid(self) -> bool
        decreases self,
    {
        &&& (self.digest matches Some(d) ==> d == self.digest_of())
        &&& forall|i: int| 0 <= i < self.elements.len() ==> (#[trigger] self.elements[i]).caches_valid()
        &&& self.non_code_meta.caches_valid()
    }

    /// The node without the digests kept in it and below it and, where
    /// `offsets` is set, with all offsets at zero.
    pub open spec fn erased(self, offsets: bool) -> ArrayExpressionView
        decreases self,
    {
        ArrayExpressionView {
            start: if offsets {
                0
            } else {
                self.start
            },
            end: if offsets {
                0
            } else {
                self.end
            },
            digest: None,
            elements: Seq::new(
                self.elements.len(),
                |i: int|
                    if 0 <= i < self.elements.len() {
                        self.elements[i].erased(offsets)
                    } else {
                        arbitrary()
                    },
            ),
            non_code_meta: self.non_code_meta.erased(offsets),
            ..self
        }
    }

    /// The node once its digest has been computed: as it is where it keeps a
    /// digest; else with its digest kept, and the same done below it.
    pub open spec fn filled(self) -> ArrayExpressionView
        decreases self,
    {
        if self.digest is Some {
            self
        } else {
            ArrayExpressionView {
                digest: Some(self.digest_of()),
                    elements: Seq::new(
                    self.elements.len(),
                    |i: int|
                        if 0 <= i < self.elements.len() {
                            self.elements[i].filled()
                        } else {
                            arbitrary()
                        },
                ),
                    non_code_meta: self.non_code_meta.filled(),
                ..self
            }
        }
    }
}

impl ArrayRangeExpressionView {
    /// The pieces that the digest of the node is made of.
    pub open spec fn pieces(self) -> Seq<Seq<u8>>
        decreases self, 0nat,
    {
        seq![seq![TAG_ARRAY_RANGE_EXPRESSION]] + seq![self.start_element.digest_of()] + seq![self.end_element.digest_of()] + seq![flag_bytes(self.end_inclusive)]
    }

    /// The digest of the node: the hash of its pieces.
    pub open spec fn digest_of(self) -> Seq<u8>
        decreases self, 1nat,
    {
        digest_of_pieces(self.pieces())
    }

    /// Whether every digest kept in the node or below it is the digest of the
    /// node that keeps it.
    pub open spec fn caches_valid(self) -> bool
        decreases self,
    {
        &&& (self.digest matches Some(d) ==> d == self.digest_of())
        &&& self.start_element.caches_valid()
        &&& self.end_element.caches_valid()
    }

    /// The node without the digests kept in it and below it and, where
    /// `offsets` is set, with all offsets at zero.
    pub open spec fn erased(self, offsets: bool) -> ArrayRangeExpressionView
        decreases self,
    {
        ArrayRangeExpressionView {
            start: if offsets {
                0
            } else {
                self.start
            },
            end: if offsets {
                0
            } else {
                self.end
            },
            digest: None,
            start_element: Box::new(self.start_element.erased(offsets)),
            end_element: Box::new(self.end_element.erased(offsets)),
            ..self
        }
    }

    /// The node once its digest has been computed: as it is where it keeps a
    /// digest; else with its digest kept, and the same done below it.
    pub open spec fn filled(self) -> ArrayRangeExpressionView
        decreases self,
    {
        if self.digest is Some {
            self
        } else {
            ArrayRangeExpressionView {
                digest: Some(self.digest_of()),
                    start_element: Box::new(self.start_element.filled()),
                    end_element: Box::new(self.end_element.filled()),
                ..self
            }
        }
    }
}

impl ObjectExpressionView {
    /// The pieces that the digest of the node is made of.
    pub open spec fn pieces(self) -> Seq<Seq<u8>>
        decreases self, 0nat,
    {
        seq![seq![TAG_OBJECT_EXPRESSION]] + seq![number_bytes(self.properties.len() as int)] + Seq::new(
                self.properties.len(),
                |i: int|
                    if 0 <= i < self.properties.len() {
                        self.properties[i].digest_of()
                    } else {
                        arbitrary()
                    },
            ) + seq![self.non_code_meta.digest_of()]
    }

    /// The digest of the node: the hash of its pieces.
    pub open spec fn digest_of(self) -> Seq<u8>
        decreases self, 1nat,
    {
        digest_of_pieces(self.pieces())
    }

    /// Whether every digest kept in the node or below it is the digest of the
    /// node that keeps it.
    pub open spec fn caches_valid(self) -> bool
        decreases self,
    {
        &&& (self.digest matches Some(d) ==> d == self.digest_of())
        &&& forall|i: int| 0 <= i < self.properties.len() ==> (#[trigger] self.properties[i]).caches_valid()
        &&& self.non_code_meta.caches_valid()
    }

    /// The node without the digests kept in it and below it and, where
    /// `offsets` is set, with all offsets at zero.
    pub open spec fn erased(self, offsets: bool) -> ObjectExpressionView
        decreases self,
    {
        ObjectExpressionView {
            start: if offsets {
                0
            } else {
                self.start
            },
            end: if offsets {
                0
            } else {
                self.end
            },
            digest: None,
            properties: Seq::new(
                self.properties.len(),
                |i: int|
                    if 0 <= i < self.properties.len() {
                        self.properties[i].erased(offsets)
                    } else {
                        arbitrary()
                    },
            ),
            non_code_meta: self.non_code_meta.erased(offsets),
            ..self
        }
    }

    /// The node once its digest has been computed: as it is where it keeps a
    /// digest; else with its digest kept, and the same done below it.
    pub open spec fn filled(self) -> ObjectExpressionView
        decreases self,
    {
        if self.digest is Some {
            self
        } else {
            ObjectExpressionView {
                digest: Some(self.digest_of()),
                    properties: Seq::new(
                    self.properties.len(),
                    |i: int|
                        if 0 <= i < self.properties.len() {
                            self.properties[i].filled()
                        } else {
                            arbitrary()
                        },
                ),
                    non_code_meta: self.non_code_meta.filled(),
                ..self
            }
        }
    }
}

impl ObjectPropertyView {
    /// The pieces that the digest of the node is made of.
    pub open spec fn pieces(self) -> Seq<Seq<u8>>
        decreases self, 0nat,
    {
        seq![seq![TAG_OBJECT_PROPERTY]] + seq![self.key.digest_of()] + seq![self.value.digest_of()]
    }

    /// The digest of the node: the hash of its pieces.
    pub open spec fn digest_of(self) -> Seq<u8>
        decreases self, 1nat,
    {
        digest_of_pieces(self.pieces())
    }

    /// Whether every digest kept in the node or below it is the digest of the
    /// node that keeps it.
    pub open spec fn caches_valid(self) -> bool
        decreases self,
    {
        &&& (self.digest matches Some(d) ==> d == self.digest_of())
        &&& self.key.caches_valid()
        &&& self.value.caches_valid()
    }

    /// The node without the digests kept in it and below it and, where
    /// `offsets` is set, with all offsets at zero.
    pub open spec fn erased(self, offsets: bool) -> ObjectPropertyView
        decreases self,
    {
        ObjectPropertyView {
            start: if offsets {
                0
            } else {
                self.start
            },
            end: if offsets {
                0
            } else {
                self.end
            },
            digest: None,
            key: self.key.erased(offsets),
            value: self.value.erased(offsets),
            ..self
        }
    }

    /// The node once its digest has been computed: as it is where it keeps a
    /// digest; else with its digest kept, and the same done below it.
    pub open spec fn filled(self) -> ObjectPropertyView
        decreases self,
    {
        if self.digest is Some {
            self
        } else {
            ObjectPropertyView {
                digest: Some(self.digest_of()),
                    key: self.key.filled(),
                    value: self.value.filled(),
                ..self
            }
        }
    }
}

impl MemberObjectView {
    /// The digest: that of what it stands for.
    pub open spec fn digest_of(self) -> Seq<u8>
        decreases self, 1nat,
    {
        match self {
            MemberObjectView::MemberExpression(x) => x.digest_of(),
            MemberObjectView::Identifier(x) => x.digest_of(),
        }
    }

    /// Whether every digest kept below is the digest of the node that keeps it.
    pub open spec fn caches_valid(self) -> bool
        decreases self,
    {
        match self {
            MemberObjectView::MemberExpression(x) => x.caches_valid(),
            MemberObjectView::Identifier(x) => x.caches_valid(),
        }
    }

    /// The same without the digests kept below and, where `offsets` is set,
    /// with all offsets at zero.
    pub open spec fn erased(self, offsets: bool) -> MemberObjectView
        decreases self,
    {
        match self {
            MemberObjectView::MemberExpression(x) => MemberObjectView::MemberExpression(Box::new(x.erased(offsets))),
            MemberObjectView::Identifier(x) => MemberObjectView::Identifier(Box::new(x.erased(offsets))),
        }
    }

    /// The same once its digest has been computed.
    pub open spec fn filled(self) -> MemberObjectView
        decreases self,
    {
        match self {
            MemberObjectView::MemberExpression(x) => MemberObjectView::MemberExpression(Box::new(x.filled())),
            MemberObjectView::Identifier(x) => MemberObjectView::Identifier(Box::new(x.filled())),
        }
    }
}

impl LiteralIdentifierView {
    /// The digest: that of what it stands for.
    pub open spec fn digest_of(self) -> Seq<u8>
        decreases self, 1nat,
    {
        match self {
            LiteralIdentifierView::Identifier(x) => x.digest_of(),
            LiteralIdentifierView::Literal(x) => x.digest_of(),
        }
    }

    /// Whether every digest kept below is the digest of the node that keeps it.
    pub open spec fn caches_valid(self) -> bool
        decreases self,
    {
        match self {
            LiteralIdentifierView::Identifier(x) => x.caches_valid(),
            LiteralIdentifierView::Literal(x) => x.caches_valid(),
        }
    }

    /// The same without the digests kept below and, where `offsets` is set,
    /// with all offsets at zero.
    pub open spec fn erased(self, offsets: bool) -> LiteralIdentifierView
        decreases self,
    {
        match self {
            LiteralIdentifierView::Identifier(x) => LiteralIdentifierView::Identifier(Box::new(x.erased(offsets))),
            LiteralIdentifierView::Literal(x) => LiteralIdentifierView::Literal(Box::new(x.erased(offsets))),
        }
    }

    /// The same once its digest has been computed.
    pub open spec fn filled(self) -> LiteralIdentifierView
        decreases self,
    {
        match self {
            LiteralIdentifierView::Identifier(x) => LiteralIdentifierView::Identifier(Box::new(x.filled())),
            LiteralIdentifierView::Literal(x) => LiteralIdentifierView::Literal(Box::new(x.filled())),
        }
    }
}

impl MemberExpressionView {
    /// The pieces that the digest of the node is made of.
    pub open spec fn pieces(self) -> Seq<Seq<u8>>
        decreases self, 0nat,
    {
        seq![seq![TAG_MEMBER_EXPRESSION]] + seq![self.object.digest_of()] + seq![self.property.digest_of()] + seq![flag_bytes(self.computed)]
    }

    /// The digest of the node: the hash of its pieces.
    pub open spec fn digest_of(self) -> Seq<u8>
        decreases self, 1nat,
    {
        digest_of_pieces(self.pieces())
    }

    /// Whether every digest kept in the node or below it is the digest of the
    /// node that keeps it.
    pub open spec fn caches_valid(self) -> bool
        decreases self,
    {
        &&& (self.digest matches Some(d) ==> d == self.digest_of())
        &&& self.object.caches_valid()
        &&& self.property.caches_valid()
    }

    /// The node without the digests kept in it and below it and, where
    /// `offsets` is set, with all offsets at zero.
    pub open spec fn erased(self, offsets: bool) -> MemberExpressionView
        decreases self,
    {
        MemberExpressionView {
            start: if offsets {
                0
            } else {
                self.start
            },
            end: if offsets {
                0
            } else {
                self.end
            },
            digest: None,
            object: self.object.erased(offsets),
            property: self.property.erased(offsets),
            ..self
        }
    }

    /// The node once its digest has been computed: as it is where it keeps a
    /// digest; else with its digest kept, and the same done below it.
    pub open spec fn filled(self) -> MemberExpressionView
        decreases self,
    {
        if self.digest is Some {
            self
        } else {
            MemberExpressionView {
                digest: Some(self.digest_of()),
                    object: self.object.filled(),
                    property: self.property.filled(),
                ..self
            }
        }
    }
}

impl BinaryExpressionView {
    /// The pieces that the digest of the node is made of.
    pub open spec fn pieces(self) -> Seq<Seq<u8>>
        decreases self, 0nat,
    {
        seq![seq![TAG_BINARY_EXPRESSION]] + seq![self.operator.digest_id()] + seq![self.left.digest_of()] + seq![self.right.digest_of()]
    }

    /// The digest of the node: the hash of its pieces.
    pub open spec fn digest_of(self) -> Seq<u8>
        decreases self, 1nat,
    {
        digest_of_pieces(self.pieces())
    }

    /// Whether every digest kept in the node or below it is the digest of the
    /// node that keeps it.
    pub open spec fn caches_valid(self) -> bool
        decreases self,
    {
        &&& (self.digest matches Some(d) ==> d == self.digest_of())
        &&& self.left.caches_valid()
        &&& self.right.caches_valid()
    }

    /// The node without the digests kept in it and below it and, where
    /// `offsets` is set, with all offsets at zero.
    pub open spec fn erased(self, offsets: bool) -> BinaryExpressionView
        decreases self,
    {
        BinaryExpressionView {
            start: if offsets {
                0
            } else {
                self.start
            },
            end: if offsets {
                0
            } else {
                self.end
            },
            digest: None,
            left: self.left.erased(offsets),
            right: self.right.erased(offsets),
            ..self
        }
    }

    /// The node once its digest has been computed: as it is where it keeps a
    /// digest; else with its digest kept, and the same done below it.
    pub open spec fn filled(self) -> BinaryExpressionView
        decreases self,
    {
        if self.digest is Some {
            self
        } else {
            BinaryExpressionView {
                digest: Some(self.digest_of()),
                    left: self.left.filled(),
                    right: self.right.filled(),
                ..self
            }
        }
    }
}

impl UnaryExpressionView {
    /// The pieces that the digest of the node is made of.
    pub open spec fn pieces(self) -> Seq<Seq<u8>>
        decreases self, 0nat,
    {
        seq![seq![TAG_UNARY_EXPRESSION]] + seq![self.operator.digest_id()] + seq![self.argument.digest_of()]
    }

    /// The digest of the node: the hash of its pieces.
    pub open spec fn digest_of(self) -> Seq<u8>
        decreases self, 1nat,
    {
        digest_of_pieces(self.pieces())
    }

    /// Whether every digest kept in the node or below it is the digest of the
    /// node that keeps it.
    pub open spec fn caches_valid(self) -> bool
        decreases self,
    {
        &&& (self.digest matches Some(d) ==> d == self.digest_of())
        &&& self.argument.caches_valid()
    }

    /// The node without the digests kept in it and below it and, where
    /// `offsets` is set, with all offsets at zero.
    pub open spec fn erased(self, offsets: bool) -> UnaryExpressionView
        decreases self,
    {
        UnaryExpressionView {
            start: if offsets {
                0
            } else {
                self.start
            },
            end: if offsets {
                0
            } else {
                self.end
            },
            digest: None,
            argument: self.argument.erased(offsets),
            ..self
        }
    }

    /// The node once its digest has been computed: as it is where it keeps a
    /// digest; else with its digest kept, and the same done below it.
    pub open spec fn filled(self) -> UnaryExpressionView
        decreases self,
    {
        if self.digest is Some {
            self
        } else {
            UnaryExpressionView {
                digest: Some(self.digest_of()),
                    argument: self.argument.filled(),
                ..self
            }
        }
    }
}

impl PipeExpressionView {
    /// The pieces that the digest of the node is made of.
    pub open spec fn pieces(self) -> Seq<Seq<u8>>
        decreases self, 0nat,
    {
        seq![seq![TAG_PIPE_EXPRESSION]] + seq![number_bytes(self.body.len() as int)] + Seq::new(
                self.body.len(),
                |i: int|
                    if 0 <= i < self.body.len() {
                        self.body[i].digest_of()
                    } else {
                        arbitrary()
                    },
            ) + seq![self.non_code_meta.digest_of()]
    }

    /// The digest of the node: the hash of its pieces.
    pub open spec fn digest_of(self) -> Seq<u8>
        decreases self, 1nat,
    {
        digest_of_pieces(self.pieces())
    }

    /// Whether every digest kept in the node or below it is the digest of the
    /// node that keeps it.
    pub open spec fn caches_valid(self) -> bool
        decreases self,
    {
        &&& (self.digest matches Some(d) ==> d == self.digest_of())
        &&& forall|i: int| 0 <= i < self.body.len() ==> (#[trigger] self.body[i]).caches_valid()
        &&& self.non_code_meta.caches_valid()
    }

    /// The node without the digests kept in it and below it and, where
    /// `offsets` is set, with all offsets at zero.
    pub open spec fn erased(self, offsets: bool) -> PipeExpressionView
        decreases self,
    {
        PipeExpressionView {
            start: if offsets {
                0
            } else {
                self.start
            },
            end: if offsets {
                0
            } else {
                self.end
            },
            digest: None,
            body: Seq::new(
                self.body.len(),
                |i: int|
                    if 0 <= i < self.body.len() {
                        self.body[i].erased(offsets)
                    } else {
                        arbitrary()
                    },
            ),
            non_code_meta: self.non_code_meta.erased(offsets),
            ..self
        }
    }

    /// The node once its digest has been computed: as it is where it keeps a
    /// digest; else with its digest kept, and the same done below it.
    pub open spec fn filled(self) -> PipeExpressionView
        decreases self,
    {
        if self.digest is Some {
            self
        } else {
            PipeExpressionView {
                digest: Some(self.digest_of()),
                    body: Seq::new(
                    self.body.len(),
                    |i: int|
                        if 0 <= i < self.body.len() {
                            self.body[i].filled()
                        } else {
                            arbitrary()
                        },
                ),
                    non_code_meta: self.non_code_meta.filled(),
                ..self
            }
        }
    }
}

impl ParameterView {
    /// The pieces that the digest of the node is made of.
    pub open spec fn pieces(self) -> Seq<Seq<u8>>
        decreases self, 0nat,
    {
        seq![seq![TAG_PARAMETER]] + seq![self.identifier.digest_of()] + (match self.type_ {
                Some(x) => seq![flag_bytes(true), x.digest_of()],
                None => seq![flag_bytes(false)],
            }) + seq![flag_bytes(self.optional)]
    }

    /// The digest of the node: the hash of its pieces.
    pub open spec fn digest_of(self) -> Seq<u8>
        decreases self, 1nat,
    {
        digest_of_pieces(self.pieces())
    }

    /// Whether every digest kept in the node or below it is the digest of the
    /// node that keeps it.
    pub open spec fn caches_valid(self) -> bool
        decreases self,
    {
        &&& (self.digest matches Some(d) ==> d == self.digest_of())
        &&& self.identifier.caches_valid()
        &&& (match self.type_ {
                Some(x) => x.caches_valid(),
                None => true,
            })
    }

    /// The node without the digests kept in it and below it and, where
    /// `offsets` is set, with all offsets at zero.
    pub open spec fn erased(self, offsets: bool) -> ParameterView
        decreases self,
    {
        ParameterView {
            digest: None,
            identifier: self.identifier.erased(offsets),
            type_: match self.type_ {
                Some(x) => Some(x.erased(offsets)),
                None => None,
            },
            ..self
        }
    }

    /// The node once its digest has been computed: as it is where it keeps a
    /// digest; else with its digest kept, and the same done below it.
    pub open spec fn filled(self) -> ParameterView
        decreases self,
    {
        if self.digest is Some {
            self
        } else {
            ParameterView {
                digest: Some(self.digest_of()),
                    identifier: self.identifier.filled(),
                    type_: match self.type_ {
                    Some(x) => Some(x.filled()),
                    None => None,
                },
                ..self
            }
        }
    }
}

impl FunctionExpressionView {
    /// The pieces that the digest of the node is made of.
    pub open spec fn pieces(self) -> Seq<Seq<u8>>
        decreases self, 0nat,
    {
        seq![seq![TAG_FUNCTION_EXPRESSION]] + seq![number_bytes(self.params.len() as int)] + Seq::new(
                self.params.len(),
                |i: int|
                    if 0 <= i < self.params.len() {
                        self.params[i].digest_of()
                    } else {
                        arbitrary()
                    },
            ) + seq![self.body.digest_of()] + (match self.return_type {
                Some(x) => seq![flag_bytes(true), x.digest_of()],
                None => seq![flag_bytes(false)],
            })
    }

    /// The digest of the node: the hash of its pieces.
    pub open spec fn digest_of(self) -> Seq<u8>
        decreases self, 1nat,
    {
        digest_of_pieces(self.pieces())
    }

    /// Whether every digest kept in the node or below it is the digest of the
    /// node that keeps it.
    pub open spec fn caches_valid(self) -> bool
        decreases self,
    {
        &&& (self.digest matches Some(d) ==> d == self.digest_of())
        &&& forall|i: int| 0 <= i < self.params.len() ==> (#[trigger] self.params[i]).caches_valid()
        &&& self.body.caches_valid()
        &&& (match self.return_type {
                Some(x) => x.caches_valid(),
                None => true,
            })
    }

    /// The node without the digests kept in it and below it and, where
    /// `offsets` is set, with all offsets at zero.
    pub open spec fn erased(self, offsets: bool) -> FunctionExpressionView
        decreases self,
    {
        FunctionExpressionView {
            start: if offsets {
                0
            } else {
                self.start
            },
            end: if offsets {
                0
            } else {
                self.end
            },
            digest: None,
            params: Seq::new(
                self.params.len(),
                |i: int|
                    if 0 <= i < self.params.len() {
                        self.params[i].erased(offsets)
                    } else {
                        arbitrary()
                    },
            ),
            body: self.body.erased(offsets),
            return_type: match self.return_type {
                Some(x) => Some(x.erased(offsets)),
                None => None,
            },
            ..self
        }
    }

    /// The node once its digest has been computed: as it is where it keeps a
    /// digest; else with its digest kept, and the same done below it.
    pub open spec fn filled(self) -> FunctionExpressionView
        decreases self,
    {
        if self.digest is Some {
            self
        } else {
            FunctionExpressionView {
                digest: Some(self.digest_of()),
                    params: Seq::new(
                    self.params.len(),
                    |i: int|
                        if 0 <= i < self.params.len() {
                            self.params[i].filled()
                        } else {
                            arbitrary()
                        },
                ),
                    body: self.body.filled(),
                    return_type: match self.return_type {
                    Some(x) => Some(x.filled()),
                    None => None,
                },
                ..self
            }
        }
    }
}

impl ReturnStatementView {
    /// The pieces that the digest of the node is made of.
    pub open spec fn pieces(self) -> Seq<Seq<u8>>
        decreases self, 0nat,
    {
        seq![seq![TAG_RETURN_STATEMENT]] + seq![self.argument.digest_of()]
    }

    /// The digest of the node: the hash of its pieces.
    pub open spec fn digest_of(self) -> Seq<u8>
        decreases self, 1nat,
    {
        digest_of_pieces(self.pieces())
    }

    /// Whether every digest kept in the node or below it is the digest of the
    /// node that keeps it.
    pub open spec fn caches_valid(self) -> bool
        decreases self,
    {
        &&& (self.digest matches Some(d) ==> d == self.digest_of())
        &&& self.argument.caches_valid()
    }

    /// The node without the digests kept in it and below it and, where
    /// `offsets` is set, with all offsets at zero.
    pub open spec fn erased(self, offsets: bool) -> ReturnStatementView
        decreases self,
    {
        ReturnStatementView {
            start: if offsets {
                0
            } else {
                self.start
            },
            end: if offsets {
                0
            } else {
                self.end
            },
            digest: None,
            argument: self.argument.erased(offsets),
            ..self
        }
    }

    /// The node once its digest has been computed: as it is where it keeps a
    /// digest; else with its digest kept, and the same done below it.
    pub open spec fn filled(self) -> ReturnStatementView
        decreases self,
    {
        if self.digest is Some {
            self
        } else {
            ReturnStatementView {
                digest: Some(self.digest_of()),
                    argument: self.argument.filled(),
                ..self
            }
        }
    }
}

impl IfExpressionView {
    /// The pieces that the digest of the node is made of.
    pub open spec fn pieces(self) -> Seq<Seq<u8>>
        decreases self, 0nat,
    {
        seq![seq![TAG_IF_EXPRESSION]] + seq![self.cond.digest_of()] + seq![self.then_val.digest_of()] + seq![number_bytes(self.else_ifs.len() as int)] + Seq::new(
                self.else_ifs.len(),
                |i: int|
                    if 0 <= i < self.else_ifs.len() {
                        self.else_ifs[i].digest_of()
                    } else {
                        arbitrary()
                    },
            ) + seq![self.final_else.digest_of()]
    }

    /// The digest of the node: the hash of its pieces.
    pub open spec fn digest_of(self) -> Seq<u8>
        decreases self, 1nat,
    {
        digest_of_pieces(self.pieces())
    }

    /// Whether every digest kept in the node or below it is the digest of the
    /// node that keeps it.
    pub open spec fn caches_valid(self) -> bool
        decreases self,
    {
        &&& (self.digest matches Some(d) ==> d == self.digest_of())
        &&& self.cond.caches_valid()
        &&& self.then_val.caches_valid()
        &&& forall|i: int| 0 <= i < self.else_ifs.len() ==> (#[trigger] self.else_ifs[i]).caches_valid()
        &&& self.final_else.caches_valid()
    }

    /// The node without the digests kept in it and below it and, where
    /// `offsets` is set, with all offsets at zero.
    pub open spec fn erased(self, offsets: bool) -> IfExpressionView
        decreases self,
    {
        IfExpressionView {
            start: if offsets {
                0
            } else {
                self.start
            },
            end: if offsets {
                0
            } else {
                self.end
            },
            digest: None,
            cond: Box::new(self.cond.erased(offsets)),
            then_val: Box::new(self.then_val.erased(offsets)),
            else_ifs: Seq::new(
                self.else_ifs.len(),
                |i: int|
                    if 0 <= i < self.else_ifs.len() {
                        self.else_ifs[i].erased(offsets)
                    } else {
                        arbitrary()
                    },
            ),
            final_else: Box::new(self.final_else.erased(offsets)),
            ..self
        }
    }

    /// The node once its digest has been computed: as it is where it keeps a
    /// digest; else with its digest kept, and the same done below it.
    pub open spec fn filled(self) -> IfExpressionView
        decreases self,
    {
        if self.digest is Some {
            self
        } else {
            IfExpressionView {
                digest: Some(self.digest_of()),
                    cond: Box::new(self.cond.filled()),
                    then_val: Box::new(self.then_val.filled()),
                    else_ifs: Seq::new(
                    self.else_ifs.len(),
                    |i: int|
                        if 0 <= i < self.else_ifs.len() {
                            self.else_ifs[i].filled()
                        } else {
                            arbitrary()
                        },
                ),
                    final_else: Box::new(self.final_else.filled()),
                ..self
            }
        }
    }
}

impl ElseIfView {
    /// The pieces that the digest of the node is made of.
    pub open spec fn pieces(self) -> Seq<Seq<u8>>
        decreases self, 0nat,
    {
        seq![seq![TAG_ELSE_IF]] + seq![self.cond.digest_of()] + seq![self.then_val.digest_of()]
    }

    /// The digest of the node: the hash of its pieces.
    pub open spec fn digest_of(self) -> Seq<u8>
        decreases self, 1nat,
    {
        digest_of_pieces(self.pieces())
    }

    /// Whether every digest kept in the node or below it is the digest of the
    /// node that keeps it.
    pub open spec fn caches_valid(self) -> bool
        decreases self,
    {
        &&& (self.digest matches Some(d) ==> d == self.digest_of())
        &&& self.cond.caches_valid()
        &&& self.then_val.caches_valid()
    }

    /// The node without the digests kept in it and below it and, where
    /// `offsets` is set, with all offsets at zero.
    pub open spec fn erased(self, offsets: bool) -> ElseIfView
        decreases self,
    {
        ElseIfView {
            start: if offsets {
                0
            } else {
                self.start
            },
            end: if offsets {
                0
            } else {
                self.end
            },
            digest: None,
            cond: self.cond.erased(offsets),
            then_val: Box::new(self.then_val.erased(offsets)),
            ..self
        }
    }

    /// The node once its digest has been computed: as it is where it keeps a
    /// digest; else with its digest kept, and the same done below it.
    pub open spec fn filled(self) -> ElseIfView
        decreases self,
    {
        if self.digest is Some {
            self
        } else {
            ElseIfView {
                digest: Some(self.digest_of()),
                    cond: self.cond.filled(),
                    then_val: Box::new(self.then_val.filled()),
                ..self
            }
        }
    }
}

impl KclNone {
    /// The digest: that of the one piece that tells the type.
    pub open spec fn digest_of(self) -> Seq<u8> {
        digest_of_pieces(seq![seq![TAG_KCL_NONE]])
    }

    /// The same, where `offsets` is set with its offsets at zero.
    pub open spec fn erased(self, offsets: bool) -> KclNone {
        if offsets {
            KclNone { start: 0, end: 0 }
        } else {
            self
        }
    }
}

impl LiteralValueView {
    /// The pieces that the digest of the value is made of: a byte that tells
    /// the sort of value, and the value.
    pub open spec fn pieces(self) -> Seq<Seq<u8>> {
        match self {
            LiteralValueView::IInteger(i) => seq![seq![0u8], number_bytes((i as u64) as int)],
            LiteralValueView::Fractional(f) => seq![
                seq![1u8],
                number_bytes(f.bits as int),
                text_bytes(f.text),
            ],
            LiteralValueView::String(s) => seq![seq![2u8], text_bytes(s)],
            LiteralValueView::Bool(b) => seq![seq![3u8], flag_bytes(b)],
        }
    }

    /// The digest of the value.
    pub open spec fn digest_of(self) -> Seq<u8> {
        digest_of_pieces(self.pieces())
    }
}

impl NonCodeValueView {
    /// The pieces that the digest is made of: a byte that tells the sort of
    /// piece, the text, and the style of a comment.
    pub open spec fn pieces(self) -> Seq<Seq<u8>> {
        match self {
            NonCodeValueView::Shebang { value } => seq![seq![0u8], text_bytes(value)],
            NonCodeValueView::InlineComment { value, style } => seq![
                seq![1u8],
                text_bytes(value),
                style.digest_id(),
            ],
            NonCodeValueView::BlockComment { value, style } => seq![
                seq![2u8],
                text_bytes(value),
                style.digest_id(),
            ],
            NonCodeValueView::NewLineBlockComment { value, style } => seq![
                seq![3u8],
                text_bytes(value),
                style.digest_id(),
            ],
            NonCodeValueView::NewLine => seq![seq![4u8]],
        }
    }

    /// The digest of the piece of text.
    pub open spec fn digest_of(self) -> Seq<u8> {
        digest_of_pieces(self.pieces())
    }
}

impl NonCodeNodeView {
    /// The pieces that the digest of the node is made of.
    pub open spec fn pieces(self) -> Seq<Seq<u8>> {
        seq![seq![TAG_NON_CODE_NODE], self.value.digest_of()]
    }

    /// The digest of the node: the hash of its pieces.
    pub open spec fn digest_of(self) -> Seq<u8> {
        digest_of_pieces(self.pieces())
    }

    /// Whether the digest kept in the node, if any, is the digest of the node.
    pub open spec fn caches_valid(self) -> bool {
        self.digest matches Some(d) ==> d == self.digest_of()
    }

    /// The node without the digest kept in it and, where `offsets` is set,
    /// with its offsets at zero.
    pub open spec fn erased(self, offsets: bool) -> NonCodeNodeView {
        NonCodeNodeView {
            start: if offsets {
                0
            } else {
                self.start
            },
            end: if offsets {
                0
            } else {
                self.end
            },
            digest: None,
            ..self
        }
    }

    /// The node once its digest has been computed: with its digest kept.
    pub open spec fn filled(self) -> NonCodeNodeView {
        if self.digest is Some {
            self
        } else {
            NonCodeNodeView { digest: Some(self.digest_of()), ..self }
        }
    }
}

/// The digests of the nodes of a list, in order.
pub open spec fn node_digests(nodes: Seq<NonCodeNodeView>) -> Seq<Seq<u8>> {
    Seq::new(nodes.len(), |i: int| nodes[i].digest_of())
}

/// The nodes of a list, each erased.
pub open spec fn nodes_erased(nodes: Seq<NonCodeNodeView>, offsets: bool) -> Seq<NonCodeNodeView> {
    Seq::new(nodes.len(), |i: int| nodes[i].erased(offsets))
}

/// The nodes of a list, each with its digest kept.
pub open spec fn nodes_filled(nodes: Seq<NonCodeNodeView>) -> Seq<NonCodeNodeView> {
    Seq::new(nodes.len(), |i: int| nodes[i].filled())
}

/// What the nodes under one key contribute to a digest: the key, their number,
/// and their digests.
pub open spec fn entry_pieces(key: usize, nodes: Seq<NonCodeNodeView>) -> Seq<Seq<u8>> {
    seq![number_bytes(key as int), number_bytes(nodes.len() as int)] + node_digests(nodes)
}

/// The nodes under a key of a map; none where the map does not hold the key.
pub open spec fn nodes_under(map: Map<usize, Seq<NonCodeNodeView>>, key: usize) -> Seq<
    NonCodeNodeView,
> {
    if map.contains_key(key) {
        map[key]
    } else {
        Seq::empty()
    }
}

/// What the nodes under the keys given contribute to a digest, key by key.
pub open spec fn entries_pieces(map: Map<usize, Seq<NonCodeNodeView>>, keys: Seq<usize>) -> Seq<
    Seq<u8>,
>
    decreases keys.len(),
{
    if keys.len() == 0 {
        Seq::empty()
    } else {
        entries_pieces(map, keys.drop_last()) + entry_pieces(
            keys.last(),
            nodes_under(map, keys.last()),
        )
    }
}

impl NonCodeMetaView {
    /// The pieces that the digest is made of: the nodes before the first item,
    /// then those under each key, the keys in ascending order.
    pub open spec fn pieces(self) -> Seq<Seq<u8>> {
        seq![seq![TAG_NON_CODE_META], number_bytes(self.start.len() as int)] + node_digests(
            self.start,
        ) + seq![number_bytes(ascending(self.non_code_nodes.dom()).len() as int)] + entries_pieces(
            self.non_code_nodes,
            ascending(self.non_code_nodes.dom()),
        )
    }

    /// The digest: the hash of the pieces.
    pub open spec fn digest_of(self) -> Seq<u8> {
        digest_of_pieces(self.pieces())
    }

    /// Whether every digest kept here or in a node is the digest of what keeps
    /// it.
    pub open spec fn caches_valid(self) -> bool {
        &&& (self.digest matches Some(d) ==> d == self.digest_of())
        &&& forall|i: int| 0 <= i < self.start.len() ==> (#[trigger] self.start[i]).caches_valid()
        &&& forall|k: usize, i: int|
            self.non_code_nodes.contains_key(k) && 0 <= i < self.non_code_nodes[k].len() ==> (
            #[trigger] self.non_code_nodes[k][i]).caches_valid()
    }

    /// The same without the digests kept here and in the nodes and, where
    /// `offsets` is set, with all offsets at zero.
    pub open spec fn erased(self, offsets: bool) -> NonCodeMetaView {
        NonCodeMetaView {
            non_code_nodes: Map::new(
                |k: usize| self.non_code_nodes.contains_key(k),
                |k: usize| nodes_erased(self.non_code_nodes[k], offsets),
            ),
            start: nodes_erased(self.start, offsets),
            digest: None,
        }
    }

    /// The same once its digest has been computed: as it is where it keeps a
    /// digest; else with its digest kept, and that of every node.
    pub open spec fn filled(self) -> NonCodeMetaView {
        if self.digest is Some {
            self
        } else {
            NonCodeMetaView {
                non_code_nodes: Map::new(
                    |k: usize| self.non_code_nodes.contains_key(k),
                    |k: usize| nodes_filled(self.non_code_nodes[k]),
                ),
                start: nodes_filled(self.start),
                digest: Some(self.digest_of()),
            }
        }
    }
}

impl FnArgTypeView {
    /// The pieces that the digest of the type is made of.
    pub open spec fn pieces(self) -> Seq<Seq<u8>>
        decreases self, 0nat,
    {
        match self {
            FnArgTypeView::Primitive(p) => seq![seq![0u8], p.digest_id()],
            FnArgTypeView::Array(p) => seq![seq![1u8], p.digest_id()],
            FnArgTypeView::Object { properties } => seq![
                seq![2u8],
                number_bytes(properties.len() as int),
            ] + Seq::new(
                properties.len(),
                |i: int|
                    if 0 <= i < properties.len() {
                        properties[i].digest_of()
                    } else {
                        arbitrary()
                    },
            ),
        }
    }

    /// The digest of the type: the hash of its pieces.
    pub open spec fn digest_of(self) -> Seq<u8>
        decreases self, 1nat,
    {
        digest_of_pieces(self.pieces())
    }

    /// Whether every digest kept below is the digest of the node that keeps it.
    pub open spec fn caches_valid(self) -> bool
        decreases self,
    {
        match self {
            FnArgTypeView::Object { properties } => forall|i: int|
                0 <= i < properties.len() ==> (#[trigger] properties[i]).caches_valid(),
            _ => true,
        }
    }

    /// The same without the digests kept below and, where `offsets` is set,
    /// with all offsets at zero.
    pub open spec fn erased(self, offsets: bool) -> FnArgTypeView
        decreases self,
    {
        match self {
            FnArgTypeView::Object { properties } => FnArgTypeView::Object {
                properties: Seq::new(
                    properties.len(),
                    |i: int|
                        if 0 <= i < properties.len() {
                            properties[i].erased(offsets)
                        } else {
                            arbitrary()
                        },
                ),
            },
            _ => self,
        }
    }

    /// The same once its digest has been computed.
    pub open spec fn filled(self) -> FnArgTypeView
        decreases self,
    {
        match self {
            FnArgTypeView::Object { properties } => FnArgTypeView::Object {
                properties: Seq::new(
                    properties.len(),
                    |i: int|
                        if 0 <= i < properties.len() {
                            properties[i].filled()
                        } else {
                            arbitrary()
                        },
                ),
            },
            _ => self,
        }
    }
}

impl KclNone {
    /// The digest: the same for every absent value.
    pub fn compute_digest(&self) -> (digest: Digest)
        ensures
            digest@ == self.digest_of(),
    {
        let hasher = Hasher::new(TAG_KCL_NONE);
        hasher.finish()
    }
}

impl LiteralValue {
    /// The digest of the value.
    pub fn compute_digest(&self) -> (digest: Digest)
        ensures
            digest@ == self@.digest_of(),
    {
        let hasher = match self {
            LiteralValue::IInteger(i) => {
                let mut hasher = Hasher::new(0);
                hasher.put_u64(
                    #[verifier::truncate]
                    (*i as u64),
                );
                hasher
            },
            LiteralValue::Fractional(f) => {
                let mut hasher = Hasher::new(1);
                hasher.put_u64(f.bits);
                hasher.put_text(f.text.as_str());
                hasher
            },
            LiteralValue::String(s) => {
                let mut hasher = Hasher::new(2);
                hasher.put_text(s.as_str());
                hasher
            },
            LiteralValue::Bool(b) => {
                let mut hasher = Hasher::new(3);
                hasher.put_flag(*b);
                hasher
            },
        };
        assert(hasher.pieces() =~= self@.pieces());
        hasher.finish()
    }
}

impl NonCodeValue {
    /// The digest of the piece of text.
    pub fn compute_digest(&self) -> (digest: Digest)
        ensures
            digest@ == self@.digest_of(),
    {
        let hasher = match self {
            NonCodeValue::Shebang { value } => {
                let mut hasher = Hasher::new(0);
                hasher.put_text(value.as_str());
                hasher
            },
            NonCodeValue::InlineComment { value, style } => {
                let mut hasher = Hasher::new(1);
                hasher.put_text(value.as_str());
                hasher.put(style.digestable_id().as_slice());
                hasher
            },
            NonCodeValue::BlockComment { value, style } => {
                let mut hasher = Hasher::new(2);
                hasher.put_text(value.as_str());
                hasher.put(style.digestable_id().as_slice());
                hasher
            },
            NonCodeValue::NewLineBlockComment { value, style } => {
                let mut hasher = Hasher::new(3);
                hasher.put_text(value.as_str());
                hasher.put(style.digestable_id().as_slice());
                hasher
            },
            NonCodeValue::NewLine => Hasher::new(4),
        };
        assert(hasher.pieces() =~= self@.pieces());
        hasher.finish()
    }
}

impl NonCodeNode {
    /// The digest of the node. The one kept in the node where there is one;
    /// else it is computed from the node, and kept.
    pub fn compute_digest(&mut self) -> (digest: Digest)
        requires
            old(self)@.caches_valid(),
        ensures
            digest@ == old(self)@.digest_of(),
            final(self)@.digest_of() == old(self)@.digest_of(),
            final(self)@.caches_valid(),
            final(self)@.erased(false) == old(self)@.erased(false),
            final(self)@ == old(self)@.filled(),
            final(self)@.digest == Some(digest@),
    {
        match self.digest {
            Some(digest) => {
                return digest;
            },
            None => {},
        }
        let mut hasher = Hasher::new(TAG_NON_CODE_NODE);
        hasher.put(self.value.compute_digest().as_slice());
        assert(hasher.pieces() =~= old(self)@.pieces());
        let digest = hasher.finish();
        self.digest = Some(digest);
        digest
    }
}

/// What holds of the nodes of a list once their digests are kept: they have
/// the digests that they had, keep the digests that they have, and are the same
/// nodes but for the digests kept.
proof fn lemma_nodes_filled(before: Seq<NonCodeNodeView>)
    requires
        forall|i: int| 0 <= i < before.len() ==> (#[trigger] before[i]).caches_valid(),
    ensures
        node_digests(nodes_filled(before)) == node_digests(before),
        forall|i: int| 0 <= i < before.len() ==> (#[trigger] nodes_filled(before)[i]).caches_valid(),
        nodes_erased(nodes_filled(before), false) == nodes_erased(before, false),
{
    assert(node_digests(nodes_filled(before)) =~= node_digests(before));
    assert(nodes_erased(nodes_filled(before), false) =~= nodes_erased(before, false));
}

/// The nodes under the keys given contribute the same once their digests are
/// kept.
proof fn lemma_entries_filled(map: Map<usize, Seq<NonCodeNodeView>>, keys: Seq<usize>)
    requires
        forall|k: usize, i: int|
            map.contains_key(k) && 0 <= i < map[k].len() ==> (#[trigger] map[k][i]).caches_valid(),
    ensures
        entries_pieces(
            Map::new(|k: usize| map.contains_key(k), |k: usize| nodes_filled(map[k])),
            keys,
        ) == entries_pieces(map, keys),
    decreases keys.len(),
{
    let filled = Map::new(|k: usize| map.contains_key(k), |k: usize| nodes_filled(map[k]));
    if keys.len() > 0 {
        lemma_entries_filled(map, keys.drop_last());
        let k = keys.last();
        if map.contains_key(k) {
            assert forall|i: int| 0 <= i < map[k].len() implies (#[trigger] map[k][i]).caches_valid() by {}
            lemma_nodes_filled(map[k]);
        }
        assert(node_digests(nodes_under(filled, k)) =~= node_digests(nodes_under(map, k)));
    }
}

impl NonCodeMeta {
    /// The digest. The one kept here where there is one; else it is computed
    /// from the nodes, and kept.
    pub fn compute_digest(&mut self) -> (digest: Digest)
        requires
            old(self)@.caches_valid(),
        ensures
            digest@ == old(self)@.digest_of(),
            final(self)@.digest_of() == old(self)@.digest_of(),
            final(self)@.caches_valid(),
            final(self)@.erased(false) == old(self)@.erased(false),
            final(self)@ == old(self)@.filled(),
            final(self)@.digest == Some(digest@),
    {
        match self.digest {
            Some(digest) => {
                return digest;
            },
            None => {},
        }
        let ghost before = old(self)@;
        let mut hasher = Hasher::new(TAG_NON_CODE_META);
        hasher.put_number(self.start.len());
        assert forall|i: int| 0 <= i < self.start.len() implies (#[trigger] self.start[i])@.caches_valid() by {
            assert(before.start[i].caches_valid());
        }
        digest_non_code_nodes(&mut self.start, &mut hasher);
        assert(self@.start =~= nodes_filled(before.start)) by {
            assert forall|i: int| 0 <= i < before.start.len() implies #[trigger] self@.start[i]
                == before.start[i].filled() by {
                assert(self@.start[i] == self.start[i]@);
                assert(before.start[i] == old(self).start[i]@);
            }
        }
        let keys = sorted_keys(&self.non_code_nodes);
        hasher.put_number(keys.len());
        let ghost base = hasher.pieces();
        assert(before.non_code_nodes.dom() =~= self.non_code_nodes@.dom());
        assert(base =~= seq![seq![TAG_NON_CODE_META], number_bytes(before.start.len() as int)]
            + node_digests(before.start) + seq![
            number_bytes(ascending(before.non_code_nodes.dom()).len() as int),
        ]);
        let mut i: usize = 0;
        assert(keys@.take(0) =~= Seq::<usize>::empty());
        assert(hasher.pieces() =~= base + entries_pieces(before.non_code_nodes, keys@.take(0)));
        while i < keys.len()
            invariant
                i <= keys.len(),
                before == old(self)@,
                before.caches_valid(),
                lists_ascending(keys@, before.non_code_nodes.dom()),
                self.digest is None,
                self@.start == nodes_filled(before.start),
                self@.non_code_nodes.dom() == before.non_code_nodes.dom(),
                forall|j: int|
                    0 <= j < i ==> self@.non_code_nodes[#[trigger] keys@[j]] == nodes_filled(
                        before.non_code_nodes[keys@[j]],
                    ),
                forall|j: int|
                    i <= j < keys.len() ==> self@.non_code_nodes[#[trigger] keys@[j]]
                        == before.non_code_nodes[keys@[j]],
                hasher.wf(),
                hasher.pieces() == base + entries_pieces(before.non_code_nodes, keys@.take(i as int)),
            decreases keys.len() - i,
        {
            let key = keys[i];
            assert(keys@.contains(key));
            assert(before.non_code_nodes.contains_key(key));
            assert(self@.non_code_nodes.contains_key(key));
            let ghost map_before = self@.non_code_nodes;
            let ghost so_far = hasher.pieces();
            match self.non_code_nodes.remove(&key) {
                Some(nodes) => {
                    let mut nodes = nodes;
                    let ghost taken = nodes;
                    let ghost found = non_code_nodes_view(nodes);
                    assert(found == map_before[keys@[i as int]]);
                    assert(found == before.non_code_nodes[key]);
                    hasher.put_number(key);
                    hasher.put_number(nodes.len());
                    assert forall|j: int| 0 <= j < nodes.len() implies (#[trigger] nodes[j])@.caches_valid() by {
                        assert(before.non_code_nodes[key][j].caches_valid());
                    }
                    digest_non_code_nodes(&mut nodes, &mut hasher);
                    let ghost done = non_code_nodes_view(nodes);
                    assert(done =~= nodes_filled(found)) by {
                        assert forall|j: int| 0 <= j < found.len() implies #[trigger] done[j]
                            == found[j].filled() by {
                            assert(done[j] == nodes[j]@);
                            assert(found[j] == taken[j]@);
                        }
                    }
                    assert(hasher.pieces() =~= so_far + entry_pieces(key, found)) by {
                        assert(Seq::new(taken.len() as nat, |j: int| taken[j]@.digest_of())
                            =~= node_digests(found));
                    }
                    self.non_code_nodes.insert(key, nodes);
                    assert(self@.non_code_nodes.dom() =~= before.non_code_nodes.dom());
                    assert(self@.non_code_nodes[key] == done);
                    assert forall|j: int| 0 <= j < i + 1 implies self@.non_code_nodes[#[trigger] keys@[j]]
                        == nodes_filled(before.non_code_nodes[keys@[j]]) by {
                        if j < i {
                            assert(keys@[j] < keys@[i as int]);
                            assert(self@.non_code_nodes[keys@[j]] == map_before[keys@[j]]);
                        }
                    }
                    assert forall|j: int| i + 1 <= j < keys.len() implies self@.non_code_nodes[
                        #[trigger] keys@[j]
                    ] == before.non_code_nodes[keys@[j]] by {
                        assert(keys@[i as int] < keys@[j]);
                        assert(self@.non_code_nodes[keys@[j]] == map_before[keys@[j]]);
                    }
                },
                None => {
                    assert(false);
                },
            }
            proof {
                let next = keys@.take(i + 1);
                assert(next.drop_last() =~= keys@.take(i as int));
                assert(next.last() == key);
            }
            i += 1;
        }
        proof {
            assert(keys@.take(i as int) =~= keys@);
            lemma_ascending_is(keys@, before.non_code_nodes.dom());
            assert(hasher.pieces() =~= before.pieces());
        }
        let digest = hasher.finish();
        self.digest = Some(digest);
        proof {
            let now = self@;
            assert(now.non_code_nodes =~= before.filled().non_code_nodes) by {
                assert forall|k: usize| before.non_code_nodes.contains_key(k) implies #[trigger] now.non_code_nodes[k]
                    == nodes_filled(before.non_code_nodes[k]) by {
                    assert(keys@.contains(k));
                    let j = choose|j: int| 0 <= j < keys@.len() && keys@[j] == k;
                    assert(now.non_code_nodes[keys@[j]] == nodes_filled(
                        before.non_code_nodes[keys@[j]],
                    ));
                }
            }
            assert(now == before.filled());
            assert forall|i: int| 0 <= i < before.start.len() implies (#[trigger] before.start[i]).caches_valid() by {}
            lemma_nodes_filled(before.start);
            lemma_entries_filled(before.non_code_nodes, ascending(before.non_code_nodes.dom()));
            assert(now.non_code_nodes.dom() =~= before.non_code_nodes.dom());
            assert(now.pieces() =~= before.pieces());
            assert forall|k: usize| before.non_code_nodes.contains_key(k) implies {
                &&& nodes_erased(#[trigger] now.non_code_nodes[k], false) == nodes_erased(
                    before.non_code_nodes[k],
                    false,
                )
                &&& forall|i: int|
                    0 <= i < now.non_code_nodes[k].len() ==> (#[trigger] now.non_code_nodes[k][i]).caches_valid()
            } by {
                assert forall|i: int| 0 <= i < before.non_code_nodes[k].len() implies (
                #[trigger] before.non_code_nodes[k][i]).caches_valid() by {}
                lemma_nodes_filled(before.non_code_nodes[k]);
            }
            assert(now.erased(false).non_code_nodes =~= before.erased(false).non_code_nodes);
        }
        digest
    }
}

impl FnArgType {
    /// The digest of the type.
    pub fn compute_digest(&mut self) -> (digest: Digest)
        requires
            old(self)@.caches_valid(),
        ensures
            digest@ == old(self)@.digest_of(),
            final(self)@.digest_of() == old(self)@.digest_of(),
            final(self)@.caches_valid(),
            final(self)@.erased(false) == old(self)@.erased(false),
            final(self)@ == old(self)@.filled(),
        decreases *old(self),
    {
        match self {
            FnArgType::Primitive(p) => {
                let mut hasher = Hasher::new(0);
                hasher.put(p.digestable_id().as_slice());
                assert(hasher.pieces() =~= old(self)@.pieces());
                hasher.finish()
            },
            FnArgType::Array(p) => {
                let mut hasher = Hasher::new(1);
                hasher.put(p.digestable_id().as_slice());
                assert(hasher.pieces() =~= old(self)@.pieces());
                hasher.finish()
            },
            FnArgType::Object { properties } => {
                let mut hasher = Hasher::new(2);
                hasher.put_number(properties.len());
                assert forall|i: int| 0 <= i < properties.len() implies (#[trigger] properties[i])@.caches_valid() by {
                    assert(old(self)@->Object_properties[i].caches_valid());
                }
                digest_parameters(properties, &mut hasher);
                assert(hasher.pieces() =~= old(self)@.pieces());
                proof {
                    assert(self@.pieces() =~= old(self)@.pieces());
                    assert(self@.erased(false)->Object_properties =~= old(self)@.erased(
                        false,
                    )->Object_properties);
                    assert(self@->Object_properties =~= old(self)@.filled()->Object_properties);
                }
                hasher.finish()
            },
        }
    }
}

impl Program {
    /// The digest of the node. The one kept in the node where there is one; else
    /// it is computed from the node and what is below it, and kept.
    pub fn compute_digest(&mut self) -> (digest: Digest)
        requires
            old(self)@.caches_valid(),
        ensures
            digest@ == old(self)@.digest_of(),
            final(self)@.digest_of() == old(self)@.digest_of(),
            final(self)@.caches_valid(),
            final(self)@.erased(false) == old(self)@.erased(false),
            final(self)@ == old(self)@.filled(),
            final(self)@.digest == Some(digest@),
        decreases *old(self),
    {
        match self.digest {
            Some(digest) => {
                return digest;
            },
            None => {},
        }
        let mut hasher = Hasher::new(TAG_PROGRAM);
        hasher.put_number(self.body.len());
        assert forall|i: int| 0 <= i < self.body.len() implies (#[trigger] self.body[i])@.caches_valid() by {
            assert(old(self)@.body[i].caches_valid());
        }
        digest_body(&mut self.body, &mut hasher);
        hasher.put(self.non_code_meta.compute_digest().as_slice());
        assert(hasher.pieces() =~= old(self)@.pieces());
        let digest = hasher.finish();
        self.digest = Some(digest);
        proof {
            assert(self@.pieces() =~= old(self)@.pieces());
            assert(self@.erased(false).body =~= old(self)@.erased(false).body);
            assert(self@.body =~= old(self)@.filled().body);
        }
        digest
    }
}

impl BodyItem {
    /// The digest: that of what it stands for.
    pub fn compute_digest(&mut self) -> (digest: Digest)
        requires
            old(self)@.caches_valid(),
        ensures
            digest@ == old(self)@.digest_of(),
            final(self)@.digest_of() == old(self)@.digest_of(),
            final(self)@.caches_valid(),
            final(self)@.erased(false) == old(self)@.erased(false),
            final(self)@ == old(self)@.filled(),
        decreases *old(self),
    {
        match self {
            BodyItem::ImportStatement(x) => x.compute_digest(),
            BodyItem::ExpressionStatement(x) => x.compute_digest(),
            BodyItem::VariableDeclaration(x) => x.compute_digest(),
            BodyItem::ReturnStatement(x) => x.compute_digest(),
        }
    }
}

impl Expr {
    /// The digest: that of what it stands for.
    #[verifier::rlimit(60)]
    pub fn compute_digest(&mut self) -> (digest: Digest)
        requires
            old(self)@.caches_valid(),
        ensures
            digest@ == old(self)@.digest_of(),
            final(self)@.digest_of() == old(self)@.digest_of(),
            final(self)@.caches_valid(),
            final(self)@.erased(false) == old(self)@.erased(false),
            final(self)@ == old(self)@.filled(),
        decreases *old(self),
    {
        match self {
            Expr::Literal(x) => x.compute_digest(),
            Expr::Identifier(x) => x.compute_digest(),
            Expr::TagDeclarator(x) => x.compute_digest(),
            Expr::BinaryExpression(x) => x.compute_digest(),
            Expr::FunctionExpression(x) => x.compute_digest(),
            Expr::CallExpression(x) => x.compute_digest(),
            Expr::PipeExpression(x) => x.compute_digest(),
            Expr::PipeSubstitution(x) => x.compute_digest(),
            Expr::ArrayExpression(x) => x.compute_digest(),
            Expr::ArrayRangeExpression(x) => x.compute_digest(),
            Expr::ObjectExpression(x) => x.compute_digest(),
            Expr::MemberExpression(x) => x.compute_digest(),
            Expr::UnaryExpression(x) => x.compute_digest(),
            Expr::IfExpression(x) => x.compute_digest(),
            Expr::KclNone(x) => x.compute_digest(),
        }
    }
}

impl BinaryPart {
    /// The digest: that of what it stands for.
    pub fn compute_digest(&mut self) -> (digest: Digest)
        requires
            old(self)@.caches_valid(),
        ensures
            digest@ == old(self)@.digest_of(),
            final(self)@.digest_of() == old(self)@.digest_of(),
            final(self)@.caches_valid(),
            final(self)@.erased(false) == old(self)@.erased(false),
            final(self)@ == old(self)@.filled(),
        decreases *old(self),
    {
        match self {
            BinaryPart::Literal(x) => x.compute_digest(),
            BinaryPart::Identifier(x) => x.compute_digest(),
            BinaryPart::BinaryExpression(x) => x.compute_digest(),
            BinaryPart::CallExpression(x) => x.compute_digest(),
            BinaryPart::UnaryExpression(x) => x.compute_digest(),
            BinaryPart::MemberExpression(x) => x.compute_digest(),
            BinaryPart::IfExpression(x) => x.compute_digest(),
        }
    }
}

impl ImportItem {
    /// The digest of the node. The one kept in the node where there is one; else
    /// it is computed from the node and what is below it, and kept.
    pub fn compute_digest(&mut self) -> (digest: Digest)
        requires
            old(self)@.caches_valid(),
        ensures
            digest@ == old(self)@.digest_of(),
            final(self)@.digest_of() == old(self)@.digest_of(),
            final(self)@.caches_valid(),
            final(self)@.erased(false) == old(self)@.erased(false),
            final(self)@ == old(self)@.filled(),
            final(self)@.digest == Some(digest@),
        decreases *old(self),
    {
        match self.digest {
            Some(digest) => {
                return digest;
            },
            None => {},
        }
        let mut hasher = Hasher::new(TAG_IMPORT_ITEM);
        hasher.put(self.name.compute_digest().as_slice());
        match &mut self.alias {
            Some(x) => {
                hasher.put_flag(true);
                hasher.put(x.compute_digest().as_slice());
            },
            None => {
                hasher.put_flag(false);
            },
        }
        assert(hasher.pieces() =~= old(self)@.pieces());
        let digest = hasher.finish();
        self.digest = Some(digest);
        proof {
            assert(self@.pieces() =~= old(self)@.pieces());
        }
        digest
    }
}

impl ImportStatement {
    /// The digest of the node. The one kept in the node where there is one; else
    /// it is computed from the node and what is below it, and kept.
    pub fn compute_digest(&mut self) -> (digest: Digest)
        requires
            old(self)@.caches_valid(),
        ensures
            digest@ == old(self)@.digest_of(),
            final(self)@.digest_of() == old(self)@.digest_of(),
            final(self)@.caches_valid(),
            final(self)@.erased(false) == old(self)@.erased(false),
            final(self)@ == old(self)@.filled(),
            final(self)@.digest == Some(digest@),
        decreases *old(self),
    {
        match self.digest {
            Some(digest) => {
                return digest;
            },
            None => {},
        }
        let mut hasher = Hasher::new(TAG_IMPORT_STATEMENT);
        hasher.put_number(self.items.len());
        assert forall|i: int| 0 <= i < self.items.len() implies (#[trigger] self.items[i])@.caches_valid() by {
            assert(old(self)@.items[i].caches_valid());
        }
        digest_import_items(&mut self.items, &mut hasher);
        hasher.put_text(self.path.as_str());
        hasher.put_text(self.raw_path.as_str());
        assert(hasher.pieces() =~= old(self)@.pieces());
        let digest = hasher.finish();
        self.digest = Some(digest);
        proof {
            assert(self@.pieces() =~= old(self)@.pieces());
            assert(self@.erased(false).items =~= old(self)@.erased(false).items);
            assert(self@.items =~= old(self)@.filled().items);
        }
        digest
    }
}

impl ExpressionStatement {
    /// The digest of the node. The one kept in the node where there is one; else
    /// it is computed from the node and what is below it, and kept.
    pub fn compute_digest(&mut self) -> (digest: Digest)
        requires
            old(self)@.caches_valid(),
        ensures
            digest@ == old(self)@.digest_of(),
            final(self)@.digest_of() == old(self)@.digest_of(),
            final(self)@.caches_valid(),
            final(self)@.erased(false) == old(self)@.erased(false),
            final(self)@ == old(self)@.filled(),
            final(self)@.digest == Some(digest@),
        decreases *old(self),
    {
        match self.digest {
            Some(digest) => {
                return digest;
            },
            None => {},
        }
        let mut hasher = Hasher::new(TAG_EXPRESSION_STATEMENT);
        hasher.put(self.expression.compute_digest().as_slice());
        assert(hasher.pieces() =~= old(self)@.pieces());
        let digest = hasher.finish();
        self.digest = Some(digest);
        proof {
            assert(self@.pieces() =~= old(self)@.pieces());
        }
        digest
    }
}

impl CallExpression {
    /// The digest of the node. The one kept in the node where there is one; else
    /// it is computed from the node and what is below it, and kept.
    pub fn compute_digest(&mut self) -> (digest: Digest)
        requires
            old(self)@.caches_valid(),
        ensures
            digest@ == old(self)@.digest_of(),
            final(self)@.digest_of() == old(self)@.digest_of(),
            final(self)@.caches_valid(),
            final(self)@.erased(false) == old(self)@.erased(false),
            final(self)@ == old(self)@.filled(),
            final(self)@.digest == Some(digest@),
        decreases *old(self),
    {
        match self.digest {
            Some(digest) => {
                return digest;
            },
            None => {},
        }
        let mut hasher = Hasher::new(TAG_CALL_EXPRESSION);
        hasher.put(self.callee.compute_digest().as_slice());
        hasher.put_number(self.arguments.len());
        assert forall|i: int| 0 <= i < self.arguments.len() implies (#[trigger] self.arguments[i])@.caches_valid() by {
            assert(old(self)@.arguments[i].caches_valid());
        }
        digest_exprs(&mut self.arguments, &mut hasher);
        hasher.put_flag(self.optional);
        assert(hasher.pieces() =~= old(self)@.pieces());
        let digest = hasher.finish();
        self.digest = Some(digest);
        proof {
            assert(self@.pieces() =~= old(self)@.pieces());
            assert(self@.erased(false).arguments =~= old(self)@.erased(false).arguments);
            assert(self@.arguments =~= old(self)@.filled().arguments);
        }
        digest
    }
}

impl VariableDeclaration {
    /// The digest of the node. The one kept in the node where there is one; else
    /// it is computed from the node and what is below it, and kept.
    pub fn compute_digest(&mut self) -> (digest: Digest)
        requires
            old(self)@.caches_valid(),
        ensures
            digest@ == old(self)@.digest_of(),
            final(self)@.digest_of() == old(self)@.digest_of(),
            final(self)@.caches_valid(),
            final(self)@.erased(false) == old(self)@.erased(false),
            final(self)@ == old(self)@.filled(),
            final(self)@.digest == Some(digest@),
        decreases *old(self),
    {
        match self.digest {
            Some(digest) => {
                return digest;
            },
            None => {},
        }
        let mut hasher = Hasher::new(TAG_VARIABLE_DECLARATION);
        hasher.put_number(self.declarations.len());
        assert forall|i: int| 0 <= i < self.declarations.len() implies (#[trigger] self.declarations[i])@.caches_valid() by {
            assert(old(self)@.declarations[i].caches_valid());
        }
        digest_declarators(&mut self.declarations, &mut hasher);
        hasher.put(self.visibility.digestable_id().as_slice());
        hasher.put(self.kind.digestable_id().as_slice());
        assert(hasher.pieces() =~= old(self)@.pieces());
        let digest = hasher.finish();
        self.digest = Some(digest);
        proof {
            assert(self@.pieces() =~= old(self)@.pieces());
            assert(self@.erased(false).declarations =~= old(self)@.erased(false).declarations);
            assert(self@.declarations =~= old(self)@.filled().declarations);
        }
        digest
    }
}

impl VariableDeclarator {
    /// The digest of the node. The one kept in the node where there is one; else
    /// it is computed from the node and what is below it, and kept.
    pub fn compute_digest(&mut self) -> (digest: Digest)
        requires
            old(self)@.caches_valid(),
        ensures
            digest@ == old(self)@.digest_of(),
            final(self)@.digest_of() == old(self)@.digest_of(),
            final(self)@.caches_valid(),
            final(self)@.erased(false) == old(self)@.erased(false),
            final(self)@ == old(self)@.filled(),
            final(self)@.digest == Some(digest@),
        decreases *old(self),
    {
        match self.digest {
            Some(digest) => {
                return digest;
            },
            None => {},
        }
        let mut hasher = Hasher::new(TAG_VARIABLE_DECLARATOR);
        hasher.put(self.id.compute_digest().as_slice());
        hasher.put(self.init.compute_digest().as_slice());
        assert(hasher.pieces() =~= old(self)@.pieces());
        let digest = hasher.finish();
        self.digest = Some(digest);
        proof {
            assert(self@.pieces() =~= old(self)@.pieces());
        }
        digest
    }
}

impl Literal {
    /// The digest of the node. The one kept in the node where there is one; else
    /// it is computed from the node and what is below it, and kept.
    pub fn compute_digest(&mut self) -> (digest: Digest)
        requires
            old(self)@.caches_valid(),
        ensures
            digest@ == old(self)@.digest_of(),
            final(self)@.digest_of() == old(self)@.digest_of(),
            final(self)@.caches_valid(),
            final(self)@.erased(false) == old(self)@.erased(false),
            final(self)@ == old(self)@.filled(),
            final(self)@.digest == Some(digest@),
        decreases *old(self),
    {
        match self.digest {
            Some(digest) => {
                return digest;
            },
            None => {},
        }
        let mut hasher = Hasher::new(TAG_LITERAL);
        hasher.put(self.value.compute_digest().as_slice());
        hasher.put_text(self.raw.as_str());
        assert(hasher.pieces() =~= old(self)@.pieces());
        let digest = hasher.finish();
        self.digest = Some(digest);
        proof {
            assert(self@.pieces() =~= old(self)@.pieces());
        }
        digest
    }
}

impl Identifier {
    /// The digest of the node. The one kept in the node where there is one; else
    /// it is computed from the node and what is below it, and kept.
    pub fn compute_digest(&mut self) -> (digest: Digest)
        requires
            old(self)@.caches_valid(),
        ensures
            digest@ == old(self)@.digest_of(),
            final(self)@.digest_of() == old(self)@.digest_of(),
            final(self)@.caches_valid(),
            final(self)@.erased(false) == old(self)@.erased(false),
            final(self)@ == old(self)@.filled(),
            final(self)@.digest == Some(digest@),
        decreases *old(self),
    {
        match self.digest {
            Some(digest) => {
                return digest;
            },
            None => {},
        }
        let mut hasher = Hasher::new(TAG_IDENTIFIER);
        hasher.put_text(self.name.as_str());
        assert(hasher.pieces() =~= old(self)@.pieces());
        let digest = hasher.finish();
        self.digest = Some(digest);
        proof {
            assert(self@.pieces() =~= old(self)@.pieces());
        }
        digest
    }
}

impl TagDeclarator {
    /// The digest of the node. The one kept in the node where there is one; else
    /// it is computed from the node and what is below it, and kept.
    pub fn compute_digest(&mut self) -> (digest: Digest)
        requires
            old(self)@.caches_valid(),
        ensures
            digest@ == old(self)@.digest_of(),
            final(self)@.digest_of() == old(self)@.digest_of(),
            final(self)@.caches_valid(),
            final(self)@.erased(false) == old(self)@.erased(false),
            final(self)@ == old(self)@.filled(),
            final(self)@.digest == Some(digest@),
        decreases *old(self),
    {
        match self.digest {
            Some(digest) => {
                return digest;
            },
            None => {},
        }
        let mut hasher = Hasher::new(TAG_TAG_DECLARATOR);
        hasher.put_text(self.name.as_str());
        assert(hasher.pieces() =~= old(self)@.pieces());
        let digest = hasher.finish();
        self.digest = Some(digest);
        proof {
            assert(self@.pieces() =~= old(self)@.pieces());
        }
        digest
    }
}

impl PipeSubstitution {
    /// The digest of the node. The one kept in the node where there is one; else
    /// it is computed from the node and what is below it, and kept.
    pub fn compute_digest(&mut self) -> (digest: Digest)
        requires
            old(self)@.caches_valid(),
        ensures
            digest@ == old(self)@.digest_of(),
            final(self)@.digest_of() == old(self)@.digest_of(),
            final(self)@.caches_valid(),
            final(self)@.erased(false) == old(self)@.erased(false),
            final(self)@ == old(self)@.filled(),
            final(self)@.digest == Some(digest@),
        decreases *old(self),
    {
        match self.digest {
            Some(digest) => {
                return digest;
            },
            None => {},
        }
        let mut hasher = Hasher::new(TAG_PIPE_SUBSTITUTION);
        assert(hasher.pieces() =~= old(self)@.pieces());
        let digest = hasher.finish();
        self.digest = Some(digest);
        proof {
            assert(self@.pieces() =~= old(self)@.pieces());
        }
        digest
    }
}

impl ArrayExpression {
    /// The digest of the node. The one kept in the node where there is one; else
    /// it is computed from the node and what is below it, and kept.
    pub fn compute_digest(&mut self) -> (digest: Digest)
        requires
            old(self)@.caches_valid(),
        ensures
            digest@ == old(self)@.digest_of(),
            final(self)@.digest_of() == old(self)@.digest_of(),
            final(self)@.caches_valid(),
            final(self)@.erased(false) == old(self)@.erased(false),
            final(self)@ == old(self)@.filled(),
            final(self)@.digest == Some(digest@),
        decreases *old(self),
    {
        match self.digest {
            Some(digest) => {
                return digest;
            },
            None => {},
        }
        let mut hasher = Hasher::new(TAG_ARRAY_EXPRESSION);
        hasher.put_number(self.elements.len());
        assert forall|i: int| 0 <= i < self.elements.len() implies (#[trigger] self.elements[i])@.caches_valid() by {
            assert(old(self)@.elements[i].caches_valid());
        }
        digest_exprs(&mut self.elements, &mut hasher);
        hasher.put(self.non_code_meta.compute_digest().as_slice());
        assert(hasher.pieces() =~= old(self)@.pieces());
        let digest = hasher.finish();
        self.digest = Some(digest);
        proof {
            assert(self@.pieces() =~= old(self)@.pieces());
            assert(self@.erased(false).elements =~= old(self)@.erased(false).elements);
            assert(self@.elements =~= old(self)@.filled().elements);
        }
        digest
    }
}

impl ArrayRangeExpression {
    /// The digest of the node. The one kept in the node where there is one; else
    /// it is computed from the node and what is below it, and kept.
    pub fn compute_digest(&mut self) -> (digest: Digest)
        requires
            old(self)@.caches_valid(),
        ensures
            digest@ == old(self)@.digest_of(),
            final(self)@.digest_of() == old(self)@.digest_of(),
            final(self)@.caches_valid(),
            final(self)@.erased(false) == old(self)@.erased(false),
            final(self)@ == old(self)@.filled(),
            final(self)@.digest == Some(digest@),
        decreases *old(self),
    {
        match self.digest {
            Some(digest) => {
                return digest;
            },
            None => {},
        }
        let mut hasher = Hasher::new(TAG_ARRAY_RANGE_EXPRESSION);
        hasher.put(self.start_element.compute_digest().as_slice());
        hasher.put(self.end_element.compute_digest().as_slice());
        hasher.put_flag(self.end_inclusive);
        assert(hasher.pieces() =~= old(self)@.pieces());
        let digest = hasher.finish();
        self.digest = Some(digest);
        proof {
            assert(self@.pieces() =~= old(self)@.pieces());
        }
        digest
    }
}

impl ObjectExpression {
    /// The digest of the node. The one kept in the node where there is one; else
    /// it is computed from the node and what is below it, and kept.
    pub fn compute_digest(&mut self) -> (digest: Digest)
        requires
            old(self)@.caches_valid(),
        ensures
            digest@ == old(self)@.digest_of(),
            final(self)@.digest_of() == old(self)@.digest_of(),
            final(self)@.caches_valid(),
            final(self)@.erased(false) == old(self)@.erased(false),
            final(self)@ == old(self)@.filled(),
            final(self)@.digest == Some(digest@),
        decreases *old(self),
    {
        match self.digest {
            Some(digest) => {
                return digest;
            },
            None => {},
        }
        let mut hasher = Hasher::new(TAG_OBJECT_EXPRESSION);
        hasher.put_number(self.properties.len());
        assert forall|i: int| 0 <= i < self.properties.len() implies (#[trigger] self.properties[i])@.caches_valid() by {
            assert(old(self)@.properties[i].caches_valid());
        }
        digest_properties(&mut self.properties, &mut hasher);
        hasher.put(self.non_code_meta.compute_digest().as_slice());
        assert(hasher.pieces() =~= old(self)@.pieces());
        let digest = hasher.finish();
        self.digest = Some(digest);
        proof {
            assert(self@.pieces() =~= old(self)@.pieces());
            assert(self@.erased(false).properties =~= old(self)@.erased(false).properties);
            assert(self@.properties =~= old(self)@.filled().properties);
        }
        digest
    }
}

impl ObjectProperty {
    /// The digest of the node. The one kept in the node where there is one; else
    /// it is computed from the node and what is below it, and kept.
    pub fn compute_digest(&mut self) -> (digest: Digest)
        requires
            old(self)@.caches_valid(),
        ensures
            digest@ == old(self)@.digest_of(),
            final(self)@.digest_of() == old(self)@.digest_of(),
            final(self)@.caches_valid(),
            final(self)@.erased(false) == old(self)@.erased(false),
            final(self)@ == old(self)@.filled(),
            final(self)@.digest == Some(digest@),
        decreases *old(self),
    {
        match self.digest {
            Some(digest) => {
                return digest;
            },
            None => {},
        }
        let mut hasher = Hasher::new(TAG_OBJECT_PROPERTY);
        hasher.put(self.key.compute_digest().as_slice());
        hasher.put(self.value.compute_digest().as_slice());
        assert(hasher.pieces() =~= old(self)@.pieces());
        let digest = hasher.finish();
        self.digest = Some(digest);
        proof {
            assert(self@.pieces() =~= old(self)@.pieces());
        }
        digest
    }
}

impl MemberObject {
    /// The digest: that of what it stands for.
    pub fn compute_digest(&mut self) -> (digest: Digest)
        requires
            old(self)@.caches_valid(),
        ensures
            digest@ == old(self)@.digest_of(),
            final(self)@.digest_of() == old(self)@.digest_of(),
            final(self)@.caches_valid(),
            final(self)@.erased(false) == old(self)@.erased(false),
            final(self)@ == old(self)@.filled(),
        decreases *old(self),
    {
        match self {
            MemberObject::MemberExpression(x) => x.compute_digest(),
            MemberObject::Identifier(x) => x.compute_digest(),
        }
    }
}

impl LiteralIdentifier {
    /// The digest: that of what it stands for.
    pub fn compute_digest(&mut self) -> (digest: Digest)
        requires
            old(self)@.caches_valid(),
        ensures
            digest@ == old(self)@.digest_of(),
            final(self)@.digest_of() == old(self)@.digest_of(),
            final(self)@.caches_valid(),
            final(self)@.erased(false) == old(self)@.erased(false),
            final(self)@ == old(self)@.filled(),
        decreases *old(self),
    {
        match self {
            LiteralIdentifier::Identifier(x) => x.compute_digest(),
            LiteralIdentifier::Literal(x) => x.compute_digest(),
        }
    }
}

impl MemberExpression {
    /// The digest of the node. The one kept in the node where there is one; else
    /// it is computed from the node and what is below it, and kept.
    pub fn compute_digest(&mut self) -> (digest: Digest)
        requires
            old(self)@.caches_valid(),
        ensures
            digest@ == old(self)@.digest_of(),
            final(self)@.digest_of() == old(self)@.digest_of(),
            final(self)@.caches_valid(),
            final(self)@.erased(false) == old(self)@.erased(false),
            final(self)@ == old(self)@.filled(),
            final(self)@.digest == Some(digest@),
        decreases *old(self),
    {
        match self.digest {
            Some(digest) => {
                return digest;
            },
            None => {},
        }
        let mut hasher = Hasher::new(TAG_MEMBER_EXPRESSION);
        hasher.put(self.object.compute_digest().as_slice());
        hasher.put(self.property.compute_digest().as_slice());
        hasher.put_flag(self.computed);
        assert(hasher.pieces() =~= old(self)@.pieces());
        let digest = hasher.finish();
        self.digest = Some(digest);
        proof {
            assert(self@.pieces() =~= old(self)@.pieces());
        }
        digest
    }
}

impl BinaryExpression {
    /// The digest of the node. The one kept in the node where there is one; else
    /// it is computed from the node and what is below it, and kept.
    pub fn compute_digest(&mut self) -> (digest: Digest)
        requires
            old(self)@.caches_valid(),
        ensures
            digest@ == old(self)@.digest_of(),
            final(self)@.digest_of() == old(self)@.digest_of(),
            final(self)@.caches_valid(),
            final(self)@.erased(false) == old(self)@.erased(false),
            final(self)@ == old(self)@.filled(),
            final(self)@.digest == Some(digest@),
        decreases *old(self),
    {
        match self.digest {
            Some(digest) => {
                return digest;
            },
            None => {},
        }
        let mut hasher = Hasher::new(TAG_BINARY_EXPRESSION);
        hasher.put(self.operator.digestable_id().as_slice());
        hasher.put(self.left.compute_digest().as_slice());
        hasher.put(self.right.compute_digest().as_slice());
        assert(hasher.pieces() =~= old(self)@.pieces());
        let digest = hasher.finish();
        self.digest = Some(digest);
        proof {
            assert(self@.pieces() =~= old(self)@.pieces());
        }
        digest
    }
}

impl UnaryExpression {
    /// The digest of the node. The one kept in the node where there is one; else
    /// it is computed from the node and what is below it, and kept.
    pub fn compute_digest(&mut self) -> (digest: Digest)
        requires
            old(self)@.caches_valid(),
        ensures
            digest@ == old(self)@.digest_of(),
            final(self)@.digest_of() == old(self)@.digest_of(),
            final(self)@.caches_valid(),
            final(self)@.erased(false) == old(self)@.erased(false),
            final(self)@ == old(self)@.filled(),
            final(self)@.digest == Some(digest@),
        decreases *old(self),
    {
        match self.digest {
            Some(digest) => {
                return digest;
            },
            None => {},
        }
        let mut hasher = Hasher::new(TAG_UNARY_EXPRESSION);
        hasher.put(self.operator.digestable_id().as_slice());
        hasher.put(self.argument.compute_digest().as_slice());
        assert(hasher.pieces() =~= old(self)@.pieces());
        let digest = hasher.finish();
        self.digest = Some(digest);
        proof {
            assert(self@.pieces() =~= old(self)@.pieces());
        }
        digest
    }
}

impl PipeExpression {
    /// The digest of the node. The one kept in the node where there is one; else
    /// it is computed from the node and what is below it, and kept.
    pub fn compute_digest(&mut self) -> (digest: Digest)
        requires
            old(self)@.caches_valid(),
        ensures
            digest@ == old(self)@.digest_of(),
            final(self)@.digest_of() == old(self)@.digest_of(),
            final(self)@.caches_valid(),
            final(self)@.erased(false) == old(self)@.erased(false),
            final(self)@ == old(self)@.filled(),
            final(self)@.digest == Some(digest@),
        decreases *old(self),
    {
        match self.digest {
            Some(digest) => {
                return digest;
            },
            None => {},
        }
        let mut hasher = Hasher::new(TAG_PIPE_EXPRESSION);
        hasher.put_number(self.body.len());
        assert forall|i: int| 0 <= i < self.body.len() implies (#[trigger] self.body[i])@.caches_valid() by {
            assert(old(self)@.body[i].caches_valid());
        }
        digest_exprs(&mut self.body, &mut hasher);
        hasher.put(self.non_code_meta.compute_digest().as_slice());
        assert(hasher.pieces() =~= old(self)@.pieces());
        let digest = hasher.finish();
        self.digest = Some(digest);
        proof {
            assert(self@.pieces() =~= old(self)@.pieces());
            assert(self@.erased(false).body =~= old(self)@.erased(false).body);
            assert(self@.body =~= old(self)@.filled().body);
        }
        digest
    }
}

impl Parameter {
    /// The digest of the node. The one kept in the node where there is one; else
    /// it is computed from the node and what is below it, and kept.
    pub fn compute_digest(&mut self) -> (digest: Digest)
        requires
            old(self)@.caches_valid(),
        ensures
            digest@ == old(self)@.digest_of(),
            final(self)@.digest_of() == old(self)@.digest_of(),
            final(self)@.caches_valid(),
            final(self)@.erased(false) == old(self)@.erased(false),
            final(self)@ == old(self)@.filled(),
            final(self)@.digest == Some(digest@),
        decreases *old(self),
    {
        match self.digest {
            Some(digest) => {
                return digest;
            },
            None => {},
        }
        let mut hasher = Hasher::new(TAG_PARAMETER);
        hasher.put(self.identifier.compute_digest().as_slice());
        match &mut self.type_ {
            Some(x) => {
                hasher.put_flag(true);
                hasher.put(x.compute_digest().as_slice());
            },
            None => {
                hasher.put_flag(false);
            },
        }
        hasher.put_flag(self.optional);
        assert(hasher.pieces() =~= old(self)@.pieces());
        let digest = hasher.finish();
        self.digest = Some(digest);
        proof {
            assert(self@.pieces() =~= old(self)@.pieces());
        }
        digest
    }
}

impl FunctionExpression {
    /// The digest of the node. The one kept in the node where there is one; else
    /// it is computed from the node and what is below it, and kept.
    pub fn compute_digest(&mut self) -> (digest: Digest)
        requires
            old(self)@.caches_valid(),
        ensures
            digest@ == old(self)@.digest_of(),
            final(self)@.digest_of() == old(self)@.digest_of(),
            final(self)@.caches_valid(),
            final(self)@.erased(false) == old(self)@.erased(false),
            final(self)@ == old(self)@.filled(),
            final(self)@.digest == Some(digest@),
        decreases *old(self),
    {
        match self.digest {
            Some(digest) => {
                return digest;
            },
            None => {},
        }
        let mut hasher = Hasher::new(TAG_FUNCTION_EXPRESSION);
        hasher.put_number(self.params.len());
        assert forall|i: int| 0 <= i < self.params.len() implies (#[trigger] self.params[i])@.caches_valid() by {
            assert(old(self)@.params[i].caches_valid());
        }
        digest_parameters(&mut self.params, &mut hasher);
        hasher.put(self.body.compute_digest().as_slice());
        match &mut self.return_type {
            Some(x) => {
                hasher.put_flag(true);
                hasher.put(x.compute_digest().as_slice());
            },
            None => {
                hasher.put_flag(false);
            },
        }
        assert(hasher.pieces() =~= old(self)@.pieces());
        let digest = hasher.finish();
        self.digest = Some(digest);
        proof {
            assert(self@.pieces() =~= old(self)@.pieces());
            assert(self@.erased(false).params =~= old(self)@.erased(false).params);
            assert(self@.params =~= old(self)@.filled().params);
        }
        digest
    }
}

impl ReturnStatement {
    /// The digest of the node. The one kept in the node where there is one; else
    /// it is computed from the node and what is below it, and kept.
    pub fn compute_digest(&mut self) -> (digest: Digest)
        requires
            old(self)@.caches_valid(),
        ensures
            digest@ == old(self)@.digest_of(),
            final(self)@.digest_of() == old(self)@.digest_of(),
            final(self)@.caches_valid(),
            final(self)@.erased(false) == old(self)@.erased(false),
            final(self)@ == old(self)@.filled(),
            final(self)@.digest == Some(digest@),
        decreases *old(self),
    {
        match self.digest {
            Some(digest) => {
                return digest;
            },
            None => {},
        }
        let mut hasher = Hasher::new(TAG_RETURN_STATEMENT);
        hasher.put(self.argument.compute_digest().as_slice());
        assert(hasher.pieces() =~= old(self)@.pieces());
        let digest = hasher.finish();
        self.digest = Some(digest);
        proof {
            assert(self@.pieces() =~= old(self)@.pieces());
        }
        digest
    }
}

impl IfExpression {
    /// The digest of the node. The one kept in the node where there is one; else
    /// it is computed from the node and what is below it, and kept.
    pub fn compute_digest(&mut self) -> (digest: Digest)
        requires
            old(self)@.caches_valid(),
        ensures
            digest@ == old(self)@.digest_of(),
            final(self)@.digest_of() == old(self)@.digest_of(),
            final(self)@.caches_valid(),
            final(self)@.erased(false) == old(self)@.erased(false),
            final(self)@ == old(self)@.filled(),
            final(self)@.digest == Some(digest@),
        decreases *old(self),
    {
        match self.digest {
            Some(digest) => {
                return digest;
            },
            None => {},
        }
        let mut hasher = Hasher::new(TAG_IF_EXPRESSION);
        hasher.put(self.cond.compute_digest().as_slice());
        hasher.put(self.then_val.compute_digest().as_slice());
        hasher.put_number(self.else_ifs.len());
        assert forall|i: int| 0 <= i < self.else_ifs.len() implies (#[trigger] self.else_ifs[i])@.caches_valid() by {
            assert(old(self)@.else_ifs[i].caches_valid());
        }
        digest_else_ifs(&mut self.else_ifs, &mut hasher);
        hasher.put(self.final_else.compute_digest().as_slice());
        assert(hasher.pieces() =~= old(self)@.pieces());
        let digest = hasher.finish();
        self.digest = Some(digest);
        proof {
            assert(self@.pieces() =~= old(self)@.pieces());
            assert(self@.erased(false).else_ifs =~= old(self)@.erased(false).else_ifs);
            assert(self@.else_ifs =~= old(self)@.filled().else_ifs);
        }
        digest
    }
}

impl ElseIf {
    /// The digest of the node. The one kept in the node where there is one; else
    /// it is computed from the node and what is below it, and kept.
    pub fn compute_digest(&mut self) -> (digest: Digest)
        requires
            old(self)@.caches_valid(),
        ensures
            digest@ == old(self)@.digest_of(),
            final(self)@.digest_of() == old(self)@.digest_of(),
            final(self)@.caches_valid(),
            final(self)@.erased(false) == old(self)@.erased(false),
            final(self)@ == old(self)@.filled(),
            final(self)@.digest == Some(digest@),
        decreases *old(self),
    {
        match self.digest {
            Some(digest) => {
                return digest;
            },
            None => {},
        }
        let mut hasher = Hasher::new(TAG_ELSE_IF);
        hasher.put(self.cond.compute_digest().as_slice());
        hasher.put(self.then_val.compute_digest().as_slice());
        assert(hasher.pieces() =~= old(self)@.pieces());
        let digest = hasher.finish();
        self.digest = Some(digest);
        proof {
            assert(self@.pieces() =~= old(self)@.pieces());
        }
        digest
    }
}

/// Adds the digest of each node of a list to the pieces of a hasher.
fn digest_body(items: &mut Vec<BodyItem>, hasher: &mut Hasher)
    requires
        old(hasher).wf(),
        forall|i: int| 0 <= i < old(items).len() ==> (#[trigger] old(items)[i])@.caches_valid(),
    ensures
        final(hasher).wf(),
        final(hasher).pieces() == old(hasher).pieces() + Seq::new(
            old(items).len() as nat,
            |i: int| old(items)[i]@.digest_of(),
        ),
        final(items).len() == old(items).len(),
        forall|i: int|
            0 <= i < old(items).len() ==> {
                &&& (#[trigger] final(items)[i])@.digest_of() == old(items)[i]@.digest_of()
                &&& final(items)[i]@.caches_valid()
                &&& final(items)[i]@.erased(false) == old(items)[i]@.erased(false)
                &&& final(items)[i]@ == old(items)[i]@.filled()
            },
    decreases *old(items),
{
    let mut i: usize = 0;
    assert(hasher.pieces() =~= old(hasher).pieces() + Seq::new(
        0,
        |j: int| old(items)[j]@.digest_of(),
    ));
    while i < items.len()
        invariant
            i <= items.len(),
            items.len() == old(items).len(),
            hasher.wf(),
            hasher.pieces() == old(hasher).pieces() + Seq::new(
                i as nat,
                |j: int| old(items)[j]@.digest_of(),
            ),
            forall|j: int|
                0 <= j < i ==> {
                    &&& (#[trigger] items[j])@.digest_of() == old(items)[j]@.digest_of()
                    &&& items[j]@.caches_valid()
                    &&& items[j]@.erased(false) == old(items)[j]@.erased(false)
                    &&& items[j]@ == old(items)[j]@.filled()
                },
            forall|j: int| i <= j < items.len() ==> (#[trigger] items[j]) == old(items)[j],
            forall|j: int| 0 <= j < old(items).len() ==> (#[trigger] old(items)[j])@.caches_valid(),
        decreases items.len() - i,
    {
        hasher.put(items[i].compute_digest().as_slice());
        i += 1;
        assert(hasher.pieces() =~= old(hasher).pieces() + Seq::new(
            i as nat,
            |j: int| old(items)[j]@.digest_of(),
        ));
    }
}

/// Adds the digest of each node of a list to the pieces of a hasher.
fn digest_exprs(items: &mut Vec<Expr>, hasher: &mut Hasher)
    requires
        old(hasher).wf(),
        forall|i: int| 0 <= i < old(items).len() ==> (#[trigger] old(items)[i])@.caches_valid(),
    ensures
        final(hasher).wf(),
        final(hasher).pieces() == old(hasher).pieces() + Seq::new(
            old(items).len() as nat,
            |i: int| old(items)[i]@.digest_of(),
        ),
        final(items).len() == old(items).len(),
        forall|i: int|
            0 <= i < old(items).len() ==> {
                &&& (#[trigger] final(items)[i])@.digest_of() == old(items)[i]@.digest_of()
                &&& final(items)[i]@.caches_valid()
                &&& final(items)[i]@.erased(false) == old(items)[i]@.erased(false)
                &&& final(items)[i]@ == old(items)[i]@.filled()
            },
    decreases *old(items),
{
    let mut i: usize = 0;
    assert(hasher.pieces() =~= old(hasher).pieces() + Seq::new(
        0,
        |j: int| old(items)[j]@.digest_of(),
    ));
    while i < items.len()
        invariant
            i <= items.len(),
            items.len() == old(items).len(),
            hasher.wf(),
            hasher.pieces() == old(hasher).pieces() + Seq::new(
                i as nat,
                |j: int| old(items)[j]@.digest_of(),
            ),
            forall|j: int|
                0 <= j < i ==> {
                    &&& (#[trigger] items[j])@.digest_of() == old(items)[j]@.digest_of()
                    &&& items[j]@.caches_valid()
                    &&& items[j]@.erased(false) == old(items)[j]@.erased(false)
                    &&& items[j]@ == old(items)[j]@.filled()
                },
            forall|j: int| i <= j < items.len() ==> (#[trigger] items[j]) == old(items)[j],
            forall|j: int| 0 <= j < old(items).len() ==> (#[trigger] old(items)[j])@.caches_valid(),
        decreases items.len() - i,
    {
        hasher.put(items[i].compute_digest().as_slice());
        i += 1;
        assert(hasher.pieces() =~= old(hasher).pieces() + Seq::new(
            i as nat,
            |j: int| old(items)[j]@.digest_of(),
        ));
    }
}

/// Adds the digest of each node of a list to the pieces of a hasher.
fn digest_import_items(items: &mut Vec<ImportItem>, hasher: &mut Hasher)
    requires
        old(hasher).wf(),
        forall|i: int| 0 <= i < old(items).len() ==> (#[trigger] old(items)[i])@.caches_valid(),
    ensures
        final(hasher).wf(),
        final(hasher).pieces() == old(hasher).pieces() + Seq::new(
            old(items).len() as nat,
            |i: int| old(items)[i]@.digest_of(),
        ),
        final(items).len() == old(items).len(),
        forall|i: int|
            0 <= i < old(items).len() ==> {
                &&& (#[trigger] final(items)[i])@.digest_of() == old(items)[i]@.digest_of()
                &&& final(items)[i]@.caches_valid()
                &&& final(items)[i]@.erased(false) == old(items)[i]@.erased(false)
                &&& final(items)[i]@ == old(items)[i]@.filled()
            },
    decreases *old(items),
{
    let mut i: usize = 0;
    assert(hasher.pieces() =~= old(hasher).pieces() + Seq::new(
        0,
        |j: int| old(items)[j]@.digest_of(),
    ));
    while i < items.len()
        invariant
            i <= items.len(),
            items.len() == old(items).len(),
            hasher.wf(),
            hasher.pieces() == old(hasher).pieces() + Seq::new(
                i as nat,
                |j: int| old(items)[j]@.digest_of(),
            ),
            forall|j: int|
                0 <= j < i ==> {
                    &&& (#[trigger] items[j])@.digest_of() == old(items)[j]@.digest_of()
                    &&& items[j]@.caches_valid()
                    &&& items[j]@.erased(false) == old(items)[j]@.erased(false)
                    &&& items[j]@ == old(items)[j]@.filled()
                },
            forall|j: int| i <= j < items.len() ==> (#[trigger] items[j]) == old(items)[j],
            forall|j: int| 0 <= j < old(items).len() ==> (#[trigger] old(items)[j])@.caches_valid(),
        decreases items.len() - i,
    {
        hasher.put(items[i].compute_digest().as_slice());
        i += 1;
        assert(hasher.pieces() =~= old(hasher).pieces() + Seq::new(
            i as nat,
            |j: int| old(items)[j]@.digest_of(),
        ));
    }
}

/// Adds the digest of each node of a list to the pieces of a hasher.
#[verifier::spinoff_prover]
#[verifier::rlimit(50)]
fn digest_declarators(items: &mut Vec<VariableDeclarator>, hasher: &mut Hasher)
    requires
        old(hasher).wf(),
        forall|i: int| 0 <= i < old(items).len() ==> (#[trigger] old(items)[i])@.caches_valid(),
    ensures
        final(hasher).wf(),
        final(hasher).pieces() == old(hasher).pieces() + Seq::new(
            old(items).len() as nat,
            |i: int| old(items)[i]@.digest_of(),
        ),
        final(items).len() == old(items).len(),
        forall|i: int|
            0 <= i < old(items).len() ==> {
                &&& (#[trigger] final(items)[i])@.digest_of() == old(items)[i]@.digest_of()
                &&& final(items)[i]@.caches_valid()
                &&& final(items)[i]@.erased(false) == old(items)[i]@.erased(false)
                &&& final(items)[i]@ == old(items)[i]@.filled()
            },
    decreases *old(items),
{
    let mut i: usize = 0;
    assert(hasher.pieces() =~= old(hasher).pieces() + Seq::new(
        0,
        |j: int| old(items)[j]@.digest_of(),
    ));
    while i < items.len()
        invariant
            i <= items.len(),
            items.len() == old(items).len(),
            hasher.wf(),
            hasher.pieces() == old(hasher).pieces() + Seq::new(
                i as nat,
                |j: int| old(items)[j]@.digest_of(),
            ),
            forall|j: int|
                0 <= j < i ==> {
                    &&& (#[trigger] items[j])@.digest_of() == old(items)[j]@.digest_of()
                    &&& items[j]@.caches_valid()
                    &&& items[j]@.erased(false) == old(items)[j]@.erased(false)
                    &&& items[j]@ == old(items)[j]@.filled()
                },
            forall|j: int| i <= j < items.len() ==> (#[trigger] items[j]) == old(items)[j],
            forall|j: int| 0 <= j < old(items).len() ==> (#[trigger] old(items)[j])@.caches_valid(),
        decreases items.len() - i,
    {
        hasher.put(items[i].compute_digest().as_slice());
        i += 1;
        assert(hasher.pieces() =~= old(hasher).pieces() + Seq::new(
            i as nat,
            |j: int| old(items)[j]@.digest_of(),
        ));
    }
}

/// Adds the digest of each node of a list to the pieces of a hasher.
#[verifier::spinoff_prover]
#[verifier::rlimit(50)]
fn digest_properties(items: &mut Vec<ObjectProperty>, hasher: &mut Hasher)
    requires
        old(hasher).wf(),
        forall|i: int| 0 <= i < old(items).len() ==> (#[trigger] old(items)[i])@.caches_valid(),
    ensures
        final(hasher).wf(),
        final(hasher).pieces() == old(hasher).pieces() + Seq::new(
            old(items).len() as nat,
            |i: int| old(items)[i]@.digest_of(),
        ),
        final(items).len() == old(items).len(),
        forall|i: int|
            0 <= i < old(items).len() ==> {
                &&& (#[trigger] final(items)[i])@.digest_of() == old(items)[i]@.digest_of()
                &&& final(items)[i]@.caches_valid()
                &&& final(items)[i]@.erased(false) == old(items)[i]@.erased(false)
                &&& final(items)[i]@ == old(items)[i]@.filled()
            },
    decreases *old(items),
{
    let mut i: usize = 0;
    assert(hasher.pieces() =~= old(hasher).pieces() + Seq::new(
        0,
        |j: int| old(items)[j]@.digest_of(),
    ));
    while i < items.len()
        invariant
            i <= items.len(),
            items.len() == old(items).len(),
            hasher.wf(),
            hasher.pieces() == old(hasher).pieces() + Seq::new(
                i as nat,
                |j: int| old(items)[j]@.digest_of(),
            ),
            forall|j: int|
                0 <= j < i ==> {
                    &&& (#[trigger] items[j])@.digest_of() == old(items)[j]@.digest_of()
                    &&& items[j]@.caches_valid()
                    &&& items[j]@.erased(false) == old(items)[j]@.erased(false)
                    &&& items[j]@ == old(items)[j]@.filled()
                },
            forall|j: int| i <= j < items.len() ==> (#[trigger] items[j]) == old(items)[j],
            forall|j: int| 0 <= j < old(items).len() ==> (#[trigger] old(items)[j])@.caches_valid(),
        decreases items.len() - i,
    {
        hasher.put(items[i].compute_digest().as_slice());
        i += 1;
        assert(hasher.pieces() =~= old(hasher).pieces() + Seq::new(
            i as nat,
            |j: int| old(items)[j]@.digest_of(),
        ));
    }
}

/// Adds the digest of each node of a list to the pieces of a hasher.
fn digest_parameters(items: &mut Vec<Parameter>, hasher: &mut Hasher)
    requires
        old(hasher).wf(),
        forall|i: int| 0 <= i < old(items).len() ==> (#[trigger] old(items)[i])@.caches_valid(),
    ensures
        final(hasher).wf(),
        final(hasher).pieces() == old(hasher).pieces() + Seq::new(
            old(items).len() as nat,
            |i: int| old(items)[i]@.digest_of(),
        ),
        final(items).len() == old(items).len(),
        forall|i: int|
            0 <= i < old(items).len() ==> {
                &&& (#[trigger] final(items)[i])@.digest_of() == old(items)[i]@.digest_of()
                &&& final(items)[i]@.caches_valid()
                &&& final(items)[i]@.erased(false) == old(items)[i]@.erased(false)
                &&& final(items)[i]@ == old(items)[i]@.filled()
            },
    decreases *old(items),
{
    let mut i: usize = 0;
    assert(hasher.pieces() =~= old(hasher).pieces() + Seq::new(
        0,
        |j: int| old(items)[j]@.digest_of(),
    ));
    while i < items.len()
        invariant
            i <= items.len(),
            items.len() == old(items).len(),
            hasher.wf(),
            hasher.pieces() == old(hasher).pieces() + Seq::new(
                i as nat,
                |j: int| old(items)[j]@.digest_of(),
            ),
            forall|j: int|
                0 <= j < i ==> {
                    &&& (#[trigger] items[j])@.digest_of() == old(items)[j]@.digest_of()
                    &&& items[j]@.caches_valid()
                    &&& items[j]@.erased(false) == old(items)[j]@.erased(false)
                    &&& items[j]@ == old(items)[j]@.filled()
                },
            forall|j: int| i <= j < items.len() ==> (#[trigger] items[j]) == old(items)[j],
            forall|j: int| 0 <= j < old(items).len() ==> (#[trigger] old(items)[j])@.caches_valid(),
        decreases items.len() - i,
    {
        hasher.put(items[i].compute_digest().as_slice());
        i += 1;
        assert(hasher.pieces() =~= old(hasher).pieces() + Seq::new(
            i as nat,
            |j: int| old(items)[j]@.digest_of(),
        ));
    }
}

/// Adds the digest of each node of a list to the pieces of a hasher.
fn digest_else_ifs(items: &mut Vec<ElseIf>, hasher: &mut Hasher)
    requires
        old(hasher).wf(),
        forall|i: int| 0 <= i < old(items).len() ==> (#[trigger] old(items)[i])@.caches_valid(),
    ensures
        final(hasher).wf(),
        final(hasher).pieces() == old(hasher).pieces() + Seq::new(
            old(items).len() as nat,
            |i: int| old(items)[i]@.digest_of(),
        ),
        final(items).len() == old(items).len(),
        forall|i: int|
            0 <= i < old(items).len() ==> {
                &&& (#[trigger] final(items)[i])@.digest_of() == old(items)[i]@.digest_of()
                &&& final(items)[i]@.caches_valid()
                &&& final(items)[i]@.erased(false) == old(items)[i]@.erased(false)
                &&& final(items)[i]@ == old(items)[i]@.filled()
            },
    decreases *old(items),
{
    let mut i: usize = 0;
    assert(hasher.pieces() =~= old(hasher).pieces() + Seq::new(
        0,
        |j: int| old(items)[j]@.digest_of(),
    ));
    while i < items.len()
        invariant
            i <= items.len(),
            items.len() == old(items).len(),
            hasher.wf(),
            hasher.pieces() == old(hasher).pieces() + Seq::new(
                i as nat,
                |j: int| old(items)[j]@.digest_of(),
            ),
            forall|j: int|
                0 <= j < i ==> {
                    &&& (#[trigger] items[j])@.digest_of() == old(items)[j]@.digest_of()
                    &&& items[j]@.caches_valid()
                    &&& items[j]@.erased(false) == old(items)[j]@.erased(false)
                    &&& items[j]@ == old(items)[j]@.filled()
                },
            forall|j: int| i <= j < items.len() ==> (#[trigger] items[j]) == old(items)[j],
            forall|j: int| 0 <= j < old(items).len() ==> (#[trigger] old(items)[j])@.caches_valid(),
        decreases items.len() - i,
    {
        hasher.put(items[i].compute_digest().as_slice());
        i += 1;
        assert(hasher.pieces() =~= old(hasher).pieces() + Seq::new(
            i as nat,
            |j: int| old(items)[j]@.digest_of(),
        ));
    }
}

/// Adds the digest of each node of a list to the pieces of a hasher.
fn digest_non_code_nodes(items: &mut Vec<NonCodeNode>, hasher: &mut Hasher)
    requires
        old(hasher).wf(),
        forall|i: int| 0 <= i < old(items).len() ==> (#[trigger] old(items)[i])@.caches_valid(),
    ensures
        final(hasher).wf(),
        final(hasher).pieces() == old(hasher).pieces() + Seq::new(
            old(items).len() as nat,
            |i: int| old(items)[i]@.digest_of(),
        ),
        final(items).len() == old(items).len(),
        forall|i: int|
            0 <= i < old(items).len() ==> {
                &&& (#[trigger] final(items)[i])@.digest_of() == old(items)[i]@.digest_of()
                &&& final(items)[i]@.caches_valid()
                &&& final(items)[i]@.erased(false) == old(items)[i]@.erased(false)
                &&& final(items)[i]@ == old(items)[i]@.filled()
            },
{
    let mut i: usize = 0;
    assert(hasher.pieces() =~= old(hasher).pieces() + Seq::new(
        0,
        |j: int| old(items)[j]@.digest_of(),
    ));
    while i < items.len()
        invariant
            i <= items.len(),
            items.len() == old(items).len(),
            hasher.wf(),
            hasher.pieces() == old(hasher).pieces() + Seq::new(
                i as nat,
                |j: int| old(items)[j]@.digest_of(),
            ),
            forall|j: int|
                0 <= j < i ==> {
                    &&& (#[trigger] items[j])@.digest_of() == old(items)[j]@.digest_of()
                    &&& items[j]@.caches_valid()
                    &&& items[j]@.erased(false) == old(items)[j]@.erased(false)
                    &&& items[j]@ == old(items)[j]@.filled()
                },
            forall|j: int| i <= j < items.len() ==> (#[trigger] items[j]) == old(items)[j],
            forall|j: int| 0 <= j < old(items).len() ==> (#[trigger] old(items)[j])@.caches_valid(),
        decreases items.len() - i,
    {
        hasher.put(items[i].compute_digest().as_slice());
        i += 1;
        assert(hasher.pieces() =~= old(hasher).pieces() + Seq::new(
            i as nat,
            |j: int| old(items)[j]@.digest_of(),
        ));
    }
}

} // verus!
