//! The mathematical model of the tree: for each node type, what a node of it
//! holds, with text as a sequence of characters and children as sequences.
//! Contracts speak of these views.

use crate::ast::{
    ArrayExpression, ArrayRangeExpression, BinaryExpression, BinaryOperator, BinaryPart, BodyItem,
    CallExpression, CommentStyle, Digest, ElseIf, Expr, ExpressionStatement, FnArgPrimitive,
    FnArgType, Fraction, FunctionExpression, Identifier, IfExpression, ImportItem,
    ImportStatement, ItemVisibility, KclNone, Literal, LiteralIdentifier, LiteralValue,
    MemberExpression, MemberObject, NonCodeMeta, NonCodeNode, NonCodeValue, ObjectExpression,
    ObjectKeyInfo, ObjectProperty, Parameter, PipeExpression, PipeSubstitution, Program,
    ReturnStatement, TagDeclarator, UnaryExpression, UnaryOperator, VariableDeclaration,
    VariableDeclarator, VariableKind,
};
use vstd::prelude::*;

verus! {

/// The bytes of a digest, where there is one.
pub open spec fn digest_view(digest: Option<Digest>) -> Option<Seq<u8>> {
    match digest {
        Some(d) => Some(d@),
        None => None,
    }
}

/// What a [`Fraction`] holds.
pub ghost struct FractionView {
    pub bits: u64,
    pub text: Seq<char>,
}

/// What a [`LiteralValue`] holds.
pub ghost enum LiteralValueView {
    IInteger(i64),
    Fractional(FractionView),
    String(Seq<char>),
    Bool(bool),
}

/// What a [`NonCodeValue`] holds.
pub ghost enum NonCodeValueView {
    Shebang { value: Seq<char> },
    InlineComment { value: Seq<char>, style: CommentStyle },
    BlockComment { value: Seq<char>, style: CommentStyle },
    NewLineBlockComment { value: Seq<char>, style: CommentStyle },
    NewLine,
}

/// What a [`NonCodeNode`] holds.
pub ghost struct NonCodeNodeView {
    pub start: usize,
    pub end: usize,
    pub value: NonCodeValueView,
    pub digest: Option<Seq<u8>>,
}

/// What a [`NonCodeMeta`] holds.
pub ghost struct NonCodeMetaView {
    pub non_code_nodes: Map<usize, Seq<NonCodeNodeView>>,
    pub start: Seq<NonCodeNodeView>,
    pub digest: Option<Seq<u8>>,
}

impl Fraction {
    /// What the value holds, as the contracts speak of it.
    pub open spec fn view(&self) -> FractionView {
        FractionView { bits: self.bits, text: self.text@ }
    }
}

impl LiteralValue {
    /// What the value holds, as the contracts speak of it.
    pub open spec fn view(&self) -> LiteralValueView {
        match self {
            LiteralValue::IInteger(i) => LiteralValueView::IInteger(*i),
            LiteralValue::Fractional(f) => LiteralValueView::Fractional(f@),
            LiteralValue::String(s) => LiteralValueView::String(s@),
            LiteralValue::Bool(b) => LiteralValueView::Bool(*b),
        }
    }
}

impl NonCodeValue {
    /// What the value holds, as the contracts speak of it.
    pub open spec fn view(&self) -> NonCodeValueView {
        match self {
            NonCodeValue::Shebang { value } => NonCodeValueView::Shebang { value: value@ },
            NonCodeValue::InlineComment { value, style } => NonCodeValueView::InlineComment {
                value: value@,
                style: *style,
            },
            NonCodeValue::BlockComment { value, style } => NonCodeValueView::BlockComment {
                value: value@,
                style: *style,
            },
            NonCodeValue::NewLineBlockComment { value, style } => NonCodeValueView::NewLineBlockComment {
                value: value@,
                style: *style,
            },
            NonCodeValue::NewLine => NonCodeValueView::NewLine,
        }
    }
}

impl NonCodeNode {
    /// What the value holds, as the contracts speak of it.
    pub open spec fn view(&self) -> NonCodeNodeView {
        NonCodeNodeView {
            start: self.start,
            end: self.end,
            value: self.value@,
            digest: digest_view(self.digest),
        }
    }
}

/// What a list of pieces that are no code holds.
pub open spec fn non_code_nodes_view(nodes: Vec<NonCodeNode>) -> Seq<NonCodeNodeView> {
    Seq::new(nodes.len() as nat, |i: int| nodes[i]@)
}

impl NonCodeMeta {
    /// What the value holds, as the contracts speak of it.
    pub open spec fn view(&self) -> NonCodeMetaView {
        NonCodeMetaView {
            non_code_nodes: Map::new(
                |k: usize| self.non_code_nodes@.contains_key(k),
                |k: usize| non_code_nodes_view(self.non_code_nodes@[k]),
            ),
            start: non_code_nodes_view(self.start),
            digest: digest_view(self.digest),
        }
    }
}

/// What a [`Program`] holds.
pub ghost struct ProgramView {
    pub start: usize,
    pub end: usize,
    pub body: Seq<BodyItemView>,
    pub non_code_meta: NonCodeMetaView,
    pub digest: Option<Seq<u8>>,
}

/// What a [`BodyItem`] holds.
pub ghost enum BodyItemView {
    ImportStatement(Box<ImportStatementView>),
    ExpressionStatement(ExpressionStatementView),
    VariableDeclaration(Box<VariableDeclarationView>),
    ReturnStatement(ReturnStatementView),
}

/// What a [`Expr`] holds.
pub ghost enum ExprView {
    Literal(Box<LiteralView>),
    Identifier(Box<IdentifierView>),
    TagDeclarator(Box<TagDeclaratorView>),
    BinaryExpression(Box<BinaryExpressionView>),
    FunctionExpression(Box<FunctionExpressionView>),
    CallExpression(Box<CallExpressionView>),
    PipeExpression(Box<PipeExpressionView>),
    PipeSubstitution(Box<PipeSubstitutionView>),
    ArrayExpression(Box<ArrayExpressionView>),
    ArrayRangeExpression(Box<ArrayRangeExpressionView>),
    ObjectExpression(Box<ObjectExpressionView>),
    MemberExpression(Box<MemberExpressionView>),
    UnaryExpression(Box<UnaryExpressionView>),
    IfExpression(Box<IfExpressionView>),
    KclNone(KclNone),
}

/// What a [`BinaryPart`] holds.
pub ghost enum BinaryPartView {
    Literal(Box<LiteralView>),
    Identifier(Box<IdentifierView>),
    BinaryExpression(Box<BinaryExpressionView>),
    CallExpression(Box<CallExpressionView>),
    UnaryExpression(Box<UnaryExpressionView>),
    MemberExpression(Box<MemberExpressionView>),
    IfExpression(Box<IfExpressionView>),
}

/// What a [`ImportItem`] holds.
pub ghost struct ImportItemView {
    pub name: IdentifierView,
    pub alias: Option<IdentifierView>,
    pub start: usize,
    pub end: usize,
    pub digest: Option<Seq<u8>>,
}

/// What a [`ImportStatement`] holds.
pub ghost struct ImportStatementView {
    pub start: usize,
    pub end: usize,
    pub items: Seq<ImportItemView>,
    pub path: Seq<char>,
    pub raw_path: Seq<char>,
    pub digest: Option<Seq<u8>>,
}

/// What a [`ExpressionStatement`] holds.
pub ghost struct ExpressionStatementView {
    pub start: usize,
    pub end: usize,
    pub expression: ExprView,
    pub digest: Option<Seq<u8>>,
}

/// What a [`CallExpression`] holds.
pub ghost struct CallExpressionView {
    pub start: usize,
    pub end: usize,
    pub callee: IdentifierView,
    pub arguments: Seq<ExprView>,
    pub optional: bool,
    pub digest: Option<Seq<u8>>,
}

/// What a [`VariableDeclaration`] holds.
pub ghost struct VariableDeclarationView {
    pub start: usize,
    pub end: usize,
    pub declarations: Seq<VariableDeclaratorView>,
    pub visibility: ItemVisibility,
    pub kind: VariableKind,
    pub digest: Option<Seq<u8>>,
}

/// What a [`VariableDeclarator`] holds.
pub ghost struct VariableDeclaratorView {
    pub start: usize,
    pub end: usize,
    pub id: IdentifierView,
    pub init: ExprView,
    pub digest: Option<Seq<u8>>,
}

/// What a [`Literal`] holds.
pub ghost struct LiteralView {
    pub start: usize,
    pub end: usize,
    pub value: LiteralValueView,
    pub raw: Seq<char>,
    pub digest: Option<Seq<u8>>,
}

/// What a [`Identifier`] holds.
pub ghost struct IdentifierView {
    pub start: usize,
    pub end: usize,
    pub name: Seq<char>,
    pub digest: Option<Seq<u8>>,
}

/// What a [`TagDeclarator`] holds.
pub ghost struct TagDeclaratorView {
    pub start: usize,
    pub end: usize,
    pub name: Seq<char>,
    pub digest: Option<Seq<u8>>,
}

/// What a [`PipeSubstitution`] holds.
pub ghost struct PipeSubstitutionView {
    pub start: usize,
    pub end: usize,
    pub digest: Option<Seq<u8>>,
}

/// What a [`ArrayExpression`] holds.
pub ghost struct ArrayExpressionView {
    pub start: usize,
    pub end: usize,
    pub elements: Seq<ExprView>,
    pub non_code_meta: NonCodeMetaView,
    pub digest: Option<Seq<u8>>,
}

/// What a [`ArrayRangeExpression`] holds.
pub ghost struct ArrayRangeExpressionView {
    pub start: usize,
    pub end: usize,
    pub start_element: Box<ExprView>,
    pub end_element: Box<ExprView>,
    pub end_inclusive: bool,
    pub digest: Option<Seq<u8>>,
}

/// What a [`ObjectExpression`] holds.
pub ghost struct ObjectExpressionView {
    pub start: usize,
    pub end: usize,
    pub properties: Seq<ObjectPropertyView>,
    pub non_code_meta: NonCodeMetaView,
    pub digest: Option<Seq<u8>>,
}

/// What a [`ObjectProperty`] holds.
pub ghost struct ObjectPropertyView {
    pub start: usize,
    pub end: usize,
    pub key: IdentifierView,
    pub value: ExprView,
    pub digest: Option<Seq<u8>>,
}

/// What a [`MemberObject`] holds.
pub ghost enum MemberObjectView {
    MemberExpression(Box<MemberExpressionView>),
    Identifier(Box<IdentifierView>),
}

/// What a [`LiteralIdentifier`] holds.
pub ghost enum LiteralIdentifierView {
    Identifier(Box<IdentifierView>),
    Literal(Box<LiteralView>),
}

/// What a [`MemberExpression`] holds.
pub ghost struct MemberExpressionView {
    pub start: usize,
    pub end: usize,
    pub object: MemberObjectView,
    pub property: LiteralIdentifierView,
    pub computed: bool,
    pub digest: Option<Seq<u8>>,
}

/// What a [`ObjectKeyInfo`] holds.
pub ghost struct ObjectKeyInfoView {
    pub key: LiteralIdentifierView,
    pub index: usize,
    pub computed: bool,
}

/// What a [`BinaryExpression`] holds.
pub ghost struct BinaryExpressionView {
    pub start: usize,
    pub end: usize,
    pub operator: BinaryOperator,
    pub left: BinaryPartView,
    pub right: BinaryPartView,
    pub digest: Option<Seq<u8>>,
}

/// What a [`UnaryExpression`] holds.
pub ghost struct UnaryExpressionView {
    pub start: usize,
    pub end: usize,
    pub operator: UnaryOperator,
    pub argument: BinaryPartView,
    pub digest: Option<Seq<u8>>,
}

/// What a [`PipeExpression`] holds.
pub ghost struct PipeExpressionView {
    pub start: usize,
    pub end: usize,
    pub body: Seq<ExprView>,
    pub non_code_meta: NonCodeMetaView,
    pub digest: Option<Seq<u8>>,
}

/// What a [`FnArgType`] holds.
pub ghost enum FnArgTypeView {
    Primitive(FnArgPrimitive),
    Array(FnArgPrimitive),
    Object { properties: Seq<ParameterView> },
}

/// What a [`Parameter`] holds.
pub ghost struct ParameterView {
    pub identifier: IdentifierView,
    pub type_: Option<FnArgTypeView>,
    pub optional: bool,
    pub digest: Option<Seq<u8>>,
}

/// What a [`FunctionExpression`] holds.
pub ghost struct FunctionExpressionView {
    pub start: usize,
    pub end: usize,
    pub params: Seq<ParameterView>,
    pub body: ProgramView,
    pub return_type: Option<FnArgTypeView>,
    pub digest: Option<Seq<u8>>,
}

/// What a [`ReturnStatement`] holds.
pub ghost struct ReturnStatementView {
    pub start: usize,
    pub end: usize,
    pub argument: ExprView,
    pub digest: Option<Seq<u8>>,
}

/// What a [`IfExpression`] holds.
pub ghost struct IfExpressionView {
    pub start: usize,
    pub end: usize,
    pub cond: Box<ExprView>,
    pub then_val: Box<ProgramView>,
    pub else_ifs: Seq<ElseIfView>,
    pub final_else: Box<ProgramView>,
    pub digest: Option<Seq<u8>>,
}

/// What a [`ElseIf`] holds.
pub ghost struct ElseIfView {
    pub start: usize,
    pub end: usize,
    pub cond: ExprView,
    pub then_val: Box<ProgramView>,
    pub digest: Option<Seq<u8>>,
}

impl Program {
    /// What the value holds, as the contracts speak of it.
    pub open spec fn view(&self) -> ProgramView
        decreases self,
    {
        ProgramView {
            start: self.start,
            end: self.end,
            body: Seq::new(
                self.body.len() as nat,
                |i: int|
                    if 0 <= i < self.body.len() {
                        self.body[i]@
                    } else {
                        arbitrary()
                    },
            ),
            non_code_meta: self.non_code_meta@,
            digest: digest_view(self.digest),
        }
    }
}

impl BodyItem {
    /// What the value holds, as the contracts speak of it.
    pub open spec fn view(&self) -> BodyItemView
        decreases self,
    {
        match self {
            BodyItem::ImportStatement(x) => BodyItemView::ImportStatement(Box::new(x@)),
            BodyItem::ExpressionStatement(x) => BodyItemView::ExpressionStatement(x@),
            BodyItem::VariableDeclaration(x) => BodyItemView::VariableDeclaration(Box::new(x@)),
            BodyItem::ReturnStatement(x) => BodyItemView::ReturnStatement(x@),
        }
    }
}

impl Expr {
    /// What the value holds, as the contracts speak of it.
    pub open spec fn view(&self) -> ExprView
        decreases self,
    {
        match self {
            Expr::Literal(x) => ExprView::Literal(Box::new(x@)),
            Expr::Identifier(x) => ExprView::Identifier(Box::new(x@)),
            Expr::TagDeclarator(x) => ExprView::TagDeclarator(Box::new(x@)),
            Expr::BinaryExpression(x) => ExprView::BinaryExpression(Box::new(x@)),
            Expr::FunctionExpression(x) => ExprView::FunctionExpression(Box::new(x@)),
            Expr::CallExpression(x) => ExprView::CallExpression(Box::new(x@)),
            Expr::PipeExpression(x) => ExprView::PipeExpression(Box::new(x@)),
            Expr::PipeSubstitution(x) => ExprView::PipeSubstitution(Box::new(x@)),
            Expr::ArrayExpression(x) => ExprView::ArrayExpression(Box::new(x@)),
            Expr::ArrayRangeExpression(x) => ExprView::ArrayRangeExpression(Box::new(x@)),
            Expr::ObjectExpression(x) => ExprView::ObjectExpression(Box::new(x@)),
            Expr::MemberExpression(x) => ExprView::MemberExpression(Box::new(x@)),
            Expr::UnaryExpression(x) => ExprView::UnaryExpression(Box::new(x@)),
            Expr::IfExpression(x) => ExprView::IfExpression(Box::new(x@)),
            Expr::KclNone(x) => ExprView::KclNone(*x),
        }
    }
}

impl BinaryPart {
    /// What the value holds, as the contracts speak of it.
    pub open spec fn view(&self) -> BinaryPartView
        decreases self,
    {
        match self {
            BinaryPart::Literal(x) => BinaryPartView::Literal(Box::new(x@)),
            BinaryPart::Identifier(x) => BinaryPartView::Identifier(Box::new(x@)),
            BinaryPart::BinaryExpression(x) => BinaryPartView::BinaryExpression(Box::new(x@)),
            BinaryPart::CallExpression(x) => BinaryPartView::CallExpression(Box::new(x@)),
            BinaryPart::UnaryExpression(x) => BinaryPartView::UnaryExpression(Box::new(x@)),
            BinaryPart::MemberExpression(x) => BinaryPartView::MemberExpression(Box::new(x@)),
            BinaryPart::IfExpression(x) => BinaryPartView::IfExpression(Box::new(x@)),
        }
    }
}

impl ImportItem {
    /// What the value holds, as the contracts speak of it.
    pub open spec fn view(&self) -> ImportItemView
        decreases self,
    {
        ImportItemView {
            name: self.name@,
            alias: match self.alias {
                Some(x) => Some(x@),
                None => None,
            },
            start: self.start,
            end: self.end,
            digest: digest_view(self.digest),
        }
    }
}

impl ImportStatement {
    /// What the value holds, as the contracts speak of it.
    pub open spec fn view(&self) -> ImportStatementView
        decreases self,
    {
        ImportStatementView {
            start: self.start,
            end: self.end,
            items: Seq::new(
                self.items.len() as nat,
                |i: int|
                    if 0 <= i < self.items.len() {
                        self.items[i]@
                    } else {
                        arbitrary()
                    },
            ),
            path: self.path@,
            raw_path: self.raw_path@,
            digest: digest_view(self.digest),
        }
    }
}

impl ExpressionStatement {
    /// What the value holds, as the contracts speak of it.
    pub open spec fn view(&self) -> ExpressionStatementView
        decreases self,
    {
        ExpressionStatementView {
            start: self.start,
            end: self.end,
            expression: self.expression@,
            digest: digest_view(self.digest),
        }
    }
}

impl CallExpression {
    /// What the value holds, as the contracts speak of it.
    pub open spec fn view(&self) -> CallExpressionView
        decreases self,
    {
        CallExpressionView {
            start: self.start,
            end: self.end,
            callee: self.callee@,
            arguments: Seq::new(
                self.arguments.len() as nat,
                |i: int|
                    if 0 <= i < self.arguments.len() {
                        self.arguments[i]@
                    } else {
                        arbitrary()
                    },
            ),
            optional: self.optional,
            digest: digest_view(self.digest),
        }
    }
}

impl VariableDeclaration {
    /// What the value holds, as the contracts speak of it.
    pub open spec fn view(&self) -> VariableDeclarationView
        decreases self,
    {
        VariableDeclarationView {
            start: self.start,
            end: self.end,
            declarations: Seq::new(
                self.declarations.len() as nat,
                |i: int|
                    if 0 <= i < self.declarations.len() {
                        self.declarations[i]@
                    } else {
                        arbitrary()
                    },
            ),
            visibility: self.visibility,
            kind: self.kind,
            digest: digest_view(self.digest),
        }
    }
}

impl VariableDeclarator {
    /// What the value holds, as the contracts speak of it.
    pub open spec fn view(&self) -> VariableDeclaratorView
        decreases self,
    {
        VariableDeclaratorView {
            start: self.start,
            end: self.end,
            id: self.id@,
            init: self.init@,
            digest: digest_view(self.digest),
        }
    }
}

impl Literal {
    /// What the value holds, as the contracts speak of it.
    pub open spec fn view(&self) -> LiteralView
        decreases self,
    {
        LiteralView {
            start: self.start,
            end: self.end,
            value: self.value@,
            raw: self.raw@,
            digest: digest_view(self.digest),
        }
    }
}

impl Identifier {
    /// What the value holds, as the contracts speak of it.
    pub open spec fn view(&self) -> IdentifierView
        decreases self,
    {
        IdentifierView {
            start: self.start,
            end: self.end,
            name: self.name@,
            digest: digest_view(self.digest),
        }
    }
}

impl TagDeclarator {
    /// What the value holds, as the contracts speak of it.
    pub open spec fn view(&self) -> TagDeclaratorView
        decreases self,
    {
        TagDeclaratorView {
            start: self.start,
            end: self.end,
            name: self.name@,
            digest: digest_view(self.digest),
        }
    }
}

impl PipeSubstitution {
    /// What the value holds, as the contracts speak of it.
    pub open spec fn view(&self) -> PipeSubstitutionView
        decreases self,
    {
        PipeSubstitutionView {
            start: self.start,
            end: self.end,
            digest: digest_view(self.digest),
        }
    }
}

impl ArrayExpression {
    /// What the value holds, as the contracts speak of it.
    pub open spec fn view(&self) -> ArrayExpressionView
        decreases self,
    {
        ArrayExpressionView {
            start: self.start,
            end: self.end,
            elements: Seq::new(
                self.elements.len() as nat,
                |i: int|
                    if 0 <= i < self.elements.len() {
                        self.elements[i]@
                    } else {
                        arbitrary()
                    },
            ),
            non_code_meta: self.non_code_meta@,
            digest: digest_view(self.digest),
        }
    }
}

impl ArrayRangeExpression {
    /// What the value holds, as the contracts speak of it.
    pub open spec fn view(&self) -> ArrayRangeExpressionView
        decreases self,
    {
        ArrayRangeExpressionView {
            start: self.start,
            end: self.end,
            start_element: Box::new(self.start_element@),
            end_element: Box::new(self.end_element@),
            end_inclusive: self.end_inclusive,
            digest: digest_view(self.digest),
        }
    }
}

impl ObjectExpression {
    /// What the value holds, as the contracts speak of it.
    pub open spec fn view(&self) -> ObjectExpressionView
        decreases self,
    {
        ObjectExpressionView {
            start: self.start,
            end: self.end,
            properties: Seq::new(
                self.properties.len() as nat,
                |i: int|
                    if 0 <= i < self.properties.len() {
                        self.properties[i]@
                    } else {
                        arbitrary()
                    },
            ),
            non_code_meta: self.non_code_meta@,
            digest: digest_view(self.digest),
        }
    }
}

impl ObjectProperty {
    /// What the value holds, as the contracts speak of it.
    pub open spec fn view(&self) -> ObjectPropertyView
        decreases self,
    {
        ObjectPropertyView {
            start: self.start,
            end: self.end,
            key: self.key@,
            value: self.value@,
            digest: digest_view(self.digest),
        }
    }
}

impl MemberObject {
    /// What the value holds, as the contracts speak of it.
    pub open spec fn view(&self) -> MemberObjectView
        decreases self,
    {
        match self {
            MemberObject::MemberExpression(x) => MemberObjectView::MemberExpression(Box::new(x@)),
            MemberObject::Identifier(x) => MemberObjectView::Identifier(Box::new(x@)),
        }
    }
}

impl LiteralIdentifier {
    /// What the value holds, as the contracts speak of it.
    pub open spec fn view(&self) -> LiteralIdentifierView
        decreases self,
    {
        match self {
            LiteralIdentifier::Identifier(x) => LiteralIdentifierView::Identifier(Box::new(x@)),
            LiteralIdentifier::Literal(x) => LiteralIdentifierView::Literal(Box::new(x@)),
        }
    }
}

impl MemberExpression {
    /// What the value holds, as the contracts speak of it.
    pub open spec fn view(&self) -> MemberExpressionView
        decreases self,
    {
        MemberExpressionView {
            start: self.start,
            end: self.end,
            object: self.object@,
            property: self.property@,
            computed: self.computed,
            digest: digest_view(self.digest),
        }
    }
}

impl ObjectKeyInfo {
    /// What the value holds, as the contracts speak of it.
    pub open spec fn view(&self) -> ObjectKeyInfoView
        decreases self,
    {
        ObjectKeyInfoView {
            key: self.key@,
            index: self.index,
            computed: self.computed,
        }
    }
}

impl BinaryExpression {
    /// What the value holds, as the contracts speak of it.
    pub open spec fn view(&self) -> BinaryExpressionView
        decreases self,
    {
        BinaryExpressionView {
            start: self.start,
            end: self.end,
            operator: self.operator,
            left: self.left@,
            right: self.right@,
            digest: digest_view(self.digest),
        }
    }
}

impl UnaryExpression {
    /// What the value holds, as the contracts speak of it.
    pub open spec fn view(&self) -> UnaryExpressionView
        decreases self,
    {
        UnaryExpressionView {
            start: self.start,
            end: self.end,
            operator: self.operator,
            argument: self.argument@,
            digest: digest_view(self.digest),
        }
    }
}

impl PipeExpression {
    /// What the value holds, as the contracts speak of it.
    pub open spec fn view(&self) -> PipeExpressionView
        decreases self,
    {
        PipeExpressionView {
            start: self.start,
            end: self.end,
            body: Seq::new(
                self.body.len() as nat,
                |i: int|
                    if 0 <= i < self.body.len() {
                        self.body[i]@
                    } else {
                        arbitrary()
                    },
            ),
            non_code_meta: self.non_code_meta@,
            digest: digest_view(self.digest),
        }
    }
}

impl FnArgType {
    /// What the value holds, as the contracts speak of it.
    pub open spec fn view(&self) -> FnArgTypeView
        decreases self,
    {
        match self {
            FnArgType::Primitive(x) => FnArgTypeView::Primitive(*x),
            FnArgType::Array(x) => FnArgTypeView::Array(*x),
            FnArgType::Object { properties } => FnArgTypeView::Object { properties: Seq::new(properties.len() as nat, |i: int| if 0 <= i < properties.len() { properties[i]@ } else { arbitrary() }) },
        }
    }
}

impl Parameter {
    /// What the value holds, as the contracts speak of it.
    pub open spec fn view(&self) -> ParameterView
        decreases self,
    {
        ParameterView {
            identifier: self.identifier@,
            type_: match self.type_ {
                Some(x) => Some(x@),
                None => None,
            },
            optional: self.optional,
            digest: digest_view(self.digest),
        }
    }
}

impl FunctionExpression {
    /// What the value holds, as the contracts speak of it.
    pub open spec fn view(&self) -> FunctionExpressionView
        decreases self,
    {
        FunctionExpressionView {
            start: self.start,
            end: self.end,
            params: Seq::new(
                self.params.len() as nat,
                |i: int|
                    if 0 <= i < self.params.len() {
                        self.params[i]@
                    } else {
                        arbitrary()
                    },
            ),
            body: self.body@,
            return_type: match self.return_type {
                Some(x) => Some(x@),
                None => None,
            },
            digest: digest_view(self.digest),
        }
    }
}

impl ReturnStatement {
    /// What the value holds, as the contracts speak of it.
    pub open spec fn view(&self) -> ReturnStatementView
        decreases self,
    {
        ReturnStatementView {
            start: self.start,
            end: self.end,
            argument: self.argument@,
            digest: digest_view(self.digest),
        }
    }
}

impl IfExpression {
    /// What the value holds, as the contracts speak of it.
    pub open spec fn view(&self) -> IfExpressionView
        decreases self,
    {
        IfExpressionView {
            start: self.start,
            end: self.end,
            cond: Box::new(self.cond@),
            then_val: Box::new(self.then_val@),
            else_ifs: Seq::new(
                self.else_ifs.len() as nat,
                |i: int|
                    if 0 <= i < self.else_ifs.len() {
                        self.else_ifs[i]@
                    } else {
                        arbitrary()
                    },
            ),
            final_else: Box::new(self.final_else@),
            digest: digest_view(self.digest),
        }
    }
}

impl ElseIf {
    /// What the value holds, as the contracts speak of it.
    pub open spec fn view(&self) -> ElseIfView
        decreases self,
    {
        ElseIfView {
            start: self.start,
            end: self.end,
            cond: self.cond@,
            then_val: Box::new(self.then_val@),
            digest: digest_view(self.digest),
        }
    }
}

} // verus!
