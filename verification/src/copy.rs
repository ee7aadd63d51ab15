//! Copies of nodes. A copy holds what the node holds that it was made of.

use crate::ast::{
    ArrayExpression, ArrayRangeExpression, BinaryExpression, BinaryPart, BodyItem, CallExpression,
    ElseIf, Expr, ExpressionStatement, FnArgType, Fraction, FunctionExpression, Identifier,
    IfExpression, ImportItem, ImportStatement, Literal, LiteralIdentifier, LiteralValue,
    MemberExpression, MemberObject, NonCodeMeta, NonCodeNode, NonCodeValue, ObjectExpression,
    ObjectKeyInfo, ObjectProperty, Parameter, PipeExpression, PipeSubstitution, Program,
    ReturnStatement, TagDeclarator, UnaryExpression, VariableDeclaration, VariableDeclarator,
};
use crate::model::non_code_nodes_view;
use vstd::prelude::*;

verus! {

impl Clone for Fraction {
    fn clone(&self) -> (copy: Self)
        ensures
            copy@ == self@,
    {
        Fraction { bits: self.bits, text: self.text.clone() }
    }
}

impl Clone for LiteralValue {
    fn clone(&self) -> (copy: Self)
        ensures
            copy@ == self@,
    {
        match self {
            LiteralValue::IInteger(i) => LiteralValue::IInteger(*i),
            LiteralValue::Fractional(f) => LiteralValue::Fractional(f.clone()),
            LiteralValue::String(s) => LiteralValue::String(s.clone()),
            LiteralValue::Bool(b) => LiteralValue::Bool(*b),
        }
    }
}

impl LiteralValue {
    /// A copy that holds what `self` holds.
    pub fn duplicate(&self) -> (copy: Self)
        ensures
            copy@ == self@,
    {
        self.clone()
    }
}

impl Clone for NonCodeValue {
    fn clone(&self) -> (copy: Self)
        ensures
            copy@ == self@,
    {
        match self {
            NonCodeValue::Shebang { value } => NonCodeValue::Shebang { value: value.clone() },
            NonCodeValue::InlineComment { value, style } => NonCodeValue::InlineComment {
                value: value.clone(),
                style: *style,
            },
            NonCodeValue::BlockComment { value, style } => NonCodeValue::BlockComment {
                value: value.clone(),
                style: *style,
            },
            NonCodeValue::NewLineBlockComment { value, style } => NonCodeValue::NewLineBlockComment {
                value: value.clone(),
                style: *style,
            },
            NonCodeValue::NewLine => NonCodeValue::NewLine,
        }
    }
}

impl Clone for NonCodeNode {
    fn clone(&self) -> (copy: Self)
        ensures
            copy@ == self@,
    {
        NonCodeNode { start: self.start, end: self.end, value: self.value.clone(), digest: self.digest }
    }
}

fn duplicate_non_code_nodes(items: &Vec<NonCodeNode>) -> (copies: Vec<NonCodeNode>)
    ensures
        non_code_nodes_view(copies) == non_code_nodes_view(*items),
{
    let mut copies: Vec<NonCodeNode> = Vec::new();
    let mut i: usize = 0;
    while i < items.len()
        invariant
            i <= items.len(),
            copies.len() == i,
            forall|j: int| 0 <= j < i ==> (#[trigger] copies[j])@ == items[j]@,
        decreases items.len() - i,
    {
        copies.push(items[i].clone());
        i += 1;
    }
    assert(non_code_nodes_view(copies) =~= non_code_nodes_view(*items));
    copies
}

impl NonCodeMeta {
    /// A copy that holds what `self` holds.
    pub fn duplicate(&self) -> (copy: Self)
        ensures
            copy@ == self@,
    {
        let copy = NonCodeMeta {
            non_code_nodes: self.non_code_nodes.clone(),
            start: duplicate_non_code_nodes(&self.start),
            digest: self.digest,
        };
        assert(copy@.non_code_nodes =~= self@.non_code_nodes);
        copy
    }
}

impl Clone for NonCodeMeta {
    fn clone(&self) -> (copy: Self)
        ensures
            copy@ == self@,
    {
        self.duplicate()
    }
}

impl Program {
    /// A copy that holds what `self` holds.
    pub fn duplicate(&self) -> (copy: Self)
        ensures
            copy@ == self@,
        decreases self,
    {
        let copy = Program {
            start: self.start,
            end: self.end,
            body: duplicate_body(&self.body),
            non_code_meta: self.non_code_meta.duplicate(),
            digest: self.digest,
        };
        assert(copy@.body =~= self@.body);
        copy
    }
}

impl Clone for Program {
    fn clone(&self) -> (copy: Self)
        ensures
            copy@ == self@,
    {
        self.duplicate()
    }
}

impl BodyItem {
    /// A copy that holds what `self` holds.
    pub fn duplicate(&self) -> (copy: Self)
        ensures
            copy@ == self@,
        decreases self,
    {
        match self {
            BodyItem::ImportStatement(x) => BodyItem::ImportStatement(Box::new(x.duplicate())),
            BodyItem::ExpressionStatement(x) => BodyItem::ExpressionStatement(x.duplicate()),
            BodyItem::VariableDeclaration(x) => BodyItem::VariableDeclaration(Box::new(x.duplicate())),
            BodyItem::ReturnStatement(x) => BodyItem::ReturnStatement(x.duplicate()),
        }
    }
}

impl Clone for BodyItem {
    fn clone(&self) -> (copy: Self)
        ensures
            copy@ == self@,
    {
        self.duplicate()
    }
}

impl Expr {
    /// A copy that holds what `self` holds.
    pub fn duplicate(&self) -> (copy: Self)
        ensures
            copy@ == self@,
        decreases self,
    {
        match self {
            Expr::Literal(x) => Expr::Literal(Box::new(x.duplicate())),
            Expr::Identifier(x) => Expr::Identifier(Box::new(x.duplicate())),
            Expr::TagDeclarator(x) => Expr::TagDeclarator(Box::new(x.duplicate())),
            Expr::BinaryExpression(x) => Expr::BinaryExpression(Box::new(x.duplicate())),
            Expr::FunctionExpression(x) => Expr::FunctionExpression(Box::new(x.duplicate())),
            Expr::CallExpression(x) => Expr::CallExpression(Box::new(x.duplicate())),
            Expr::PipeExpression(x) => Expr::PipeExpression(Box::new(x.duplicate())),
            Expr::PipeSubstitution(x) => Expr::PipeSubstitution(Box::new(x.duplicate())),
            Expr::ArrayExpression(x) => Expr::ArrayExpression(Box::new(x.duplicate())),
            Expr::ArrayRangeExpression(x) => Expr::ArrayRangeExpression(Box::new(x.duplicate())),
            Expr::ObjectExpression(x) => Expr::ObjectExpression(Box::new(x.duplicate())),
            Expr::MemberExpression(x) => Expr::MemberExpression(Box::new(x.duplicate())),
            Expr::UnaryExpression(x) => Expr::UnaryExpression(Box::new(x.duplicate())),
            Expr::IfExpression(x) => Expr::IfExpression(Box::new(x.duplicate())),
            Expr::KclNone(x) => Expr::KclNone(*x),
        }
    }
}

impl Clone for Expr {
    fn clone(&self) -> (copy: Self)
        ensures
            copy@ == self@,
    {
        self.duplicate()
    }
}

impl BinaryPart {
    /// A copy that holds what `self` holds.
    pub fn duplicate(&self) -> (copy: Self)
        ensures
            copy@ == self@,
        decreases self,
    {
        match self {
            BinaryPart::Literal(x) => BinaryPart::Literal(Box::new(x.duplicate())),
            BinaryPart::Identifier(x) => BinaryPart::Identifier(Box::new(x.duplicate())),
            BinaryPart::BinaryExpression(x) => BinaryPart::BinaryExpression(Box::new(x.duplicate())),
            BinaryPart::CallExpression(x) => BinaryPart::CallExpression(Box::new(x.duplicate())),
            BinaryPart::UnaryExpression(x) => BinaryPart::UnaryExpression(Box::new(x.duplicate())),
            BinaryPart::MemberExpression(x) => BinaryPart::MemberExpression(Box::new(x.duplicate())),
            BinaryPart::IfExpression(x) => BinaryPart::IfExpression(Box::new(x.duplicate())),
        }
    }
}

impl Clone for BinaryPart {
    fn clone(&self) -> (copy: Self)
        ensures
            copy@ == self@,
    {
        self.duplicate()
    }
}

impl ImportItem {
    /// A copy that holds what `self` holds.
    pub fn duplicate(&self) -> (copy: Self)
        ensures
            copy@ == self@,
        decreases self,
    {
        let copy = ImportItem {
            name: self.name.duplicate(),
            alias: match &self.alias {
                Some(x) => Some(x.duplicate()),
                None => None,
            },
            start: self.start,
            end: self.end,
            digest: self.digest,
        };
        copy
    }
}

impl Clone for ImportItem {
    fn clone(&self) -> (copy: Self)
        ensures
            copy@ == self@,
    {
        self.duplicate()
    }
}

impl ImportStatement {
    /// A copy that holds what `self` holds.
    pub fn duplicate(&self) -> (copy: Self)
        ensures
            copy@ == self@,
        decreases self,
    {
        let copy = ImportStatement {
            start: self.start,
            end: self.end,
            items: duplicate_import_items(&self.items),
            path: self.path.clone(),
            raw_path: self.raw_path.clone(),
            digest: self.digest,
        };
        assert(copy@.items =~= self@.items);
        copy
    }
}

impl Clone for ImportStatement {
    fn clone(&self) -> (copy: Self)
        ensures
            copy@ == self@,
    {
        self.duplicate()
    }
}

impl ExpressionStatement {
    /// A copy that holds what `self` holds.
    pub fn duplicate(&self) -> (copy: Self)
        ensures
            copy@ == self@,
        decreases self,
    {
        let copy = ExpressionStatement {
            start: self.start,
            end: self.end,
            expression: self.expression.duplicate(),
            digest: self.digest,
        };
        copy
    }
}

impl Clone for ExpressionStatement {
    fn clone(&self) -> (copy: Self)
        ensures
            copy@ == self@,
    {
        self.duplicate()
    }
}

impl CallExpression {
    /// A copy that holds what `self` holds.
    pub fn duplicate(&self) -> (copy: Self)
        ensures
            copy@ == self@,
        decreases self,
    {
        let copy = CallExpression {
            start: self.start,
            end: self.end,
            callee: self.callee.duplicate(),
            arguments: duplicate_exprs(&self.arguments),
            optional: self.optional,
            digest: self.digest,
        };
        assert(copy@.arguments =~= self@.arguments);
        copy
    }
}

impl Clone for CallExpression {
    fn clone(&self) -> (copy: Self)
        ensures
            copy@ == self@,
    {
        self.duplicate()
    }
}

impl VariableDeclaration {
    /// A copy that holds what `self` holds.
    pub fn duplicate(&self) -> (copy: Self)
        ensures
            copy@ == self@,
        decreases self,
    {
        let copy = VariableDeclaration {
            start: self.start,
            end: self.end,
            declarations: duplicate_declarators(&self.declarations),
            visibility: self.visibility,
            kind: self.kind,
            digest: self.digest,
        };
        assert(copy@.declarations =~= self@.declarations);
        copy
    }
}

impl Clone for VariableDeclaration {
    fn clone(&self) -> (copy: Self)
        ensures
            copy@ == self@,
    {
        self.duplicate()
    }
}

impl VariableDeclarator {
    /// A copy that holds what `self` holds.
    pub fn duplicate(&self) -> (copy: Self)
        ensures
            copy@ == self@,
        decreases self,
    {
        let copy = VariableDeclarator {
            start: self.start,
            end: self.end,
            id: self.id.duplicate(),
            init: self.init.duplicate(),
            digest: self.digest,
        };
        copy
    }
}

impl Clone for VariableDeclarator {
    fn clone(&self) -> (copy: Self)
        ensures
            copy@ == self@,
    {
        self.duplicate()
    }
}

impl Literal {
    /// A copy that holds what `self` holds.
    pub fn duplicate(&self) -> (copy: Self)
        ensures
            copy@ == self@,
        decreases self,
    {
        let copy = Literal {
            start: self.start,
            end: self.end,
            value: self.value.duplicate(),
            raw: self.raw.clone(),
            digest: self.digest,
        };
        copy
    }
}

impl Clone for Literal {
    fn clone(&self) -> (copy: Self)
        ensures
            copy@ == self@,
    {
        self.duplicate()
    }
}

impl Identifier {
    /// A copy that holds what `self` holds.
    pub fn duplicate(&self) -> (copy: Self)
        ensures
            copy@ == self@,
        decreases self,
    {
        let copy = Identifier {
            start: self.start,
            end: self.end,
            name: self.name.clone(),
            digest: self.digest,
        };
        copy
    }
}

impl Clone for Identifier {
    fn clone(&self) -> (copy: Self)
        ensures
            copy@ == self@,
    {
        self.duplicate()
    }
}

impl TagDeclarator {
    /// A copy that holds what `self` holds.
    pub fn duplicate(&self) -> (copy: Self)
        ensures
            copy@ == self@,
        decreases self,
    {
        let copy = TagDeclarator {
            start: self.start,
            end: self.end,
            name: self.name.clone(),
            digest: self.digest,
        };
        copy
    }
}

impl Clone for TagDeclarator {
    fn clone(&self) -> (copy: Self)
        ensures
            copy@ == self@,
    {
        self.duplicate()
    }
}

impl PipeSubstitution {
    /// A copy that holds what `self` holds.
    pub fn duplicate(&self) -> (copy: Self)
        ensures
            copy@ == self@,
        decreases self,
    {
        let copy = PipeSubstitution {
            start: self.start,
            end: self.end,
            digest: self.digest,
        };
        copy
    }
}

impl Clone for PipeSubstitution {
    fn clone(&self) -> (copy: Self)
        ensures
            copy@ == self@,
    {
        self.duplicate()
    }
}

impl ArrayExpression {
    /// A copy that holds what `self` holds.
    pub fn duplicate(&self) -> (copy: Self)
        ensures
            copy@ == self@,
        decreases self,
    {
        let copy = ArrayExpression {
            start: self.start,
            end: self.end,
            elements: duplicate_exprs(&self.elements),
            non_code_meta: self.non_code_meta.duplicate(),
            digest: self.digest,
        };
        assert(copy@.elements =~= self@.elements);
        copy
    }
}

impl Clone for ArrayExpression {
    fn clone(&self) -> (copy: Self)
        ensures
            copy@ == self@,
    {
        self.duplicate()
    }
}

impl ArrayRangeExpression {
    /// A copy that holds what `self` holds.
    pub fn duplicate(&self) -> (copy: Self)
        ensures
            copy@ == self@,
        decreases self,
    {
        let copy = ArrayRangeExpression {
            start: self.start,
            end: self.end,
            start_element: Box::new(self.start_element.duplicate()),
            end_element: Box::new(self.end_element.duplicate()),
            end_inclusive: self.end_inclusive,
            digest: self.digest,
        };
        copy
    }
}

impl Clone for ArrayRangeExpression {
    fn clone(&self) -> (copy: Self)
        ensures
            copy@ == self@,
    {
        self.duplicate()
    }
}

impl ObjectExpression {
    /// A copy that holds what `self` holds.
    pub fn duplicate(&self) -> (copy: Self)
        ensures
            copy@ == self@,
        decreases self,
    {
        let copy = ObjectExpression {
            start: self.start,
            end: self.end,
            properties: duplicate_properties(&self.properties),
            non_code_meta: self.non_code_meta.duplicate(),
            digest: self.digest,
        };
        assert(copy@.properties =~= self@.properties);
        copy
    }
}

impl Clone for ObjectExpression {
    fn clone(&self) -> (copy: Self)
        ensures
            copy@ == self@,
    {
        self.duplicate()
    }
}

impl ObjectProperty {
    /// A copy that holds what `self` holds.
    pub fn duplicate(&self) -> (copy: Self)
        ensures
            copy@ == self@,
        decreases self,
    {
        let copy = ObjectProperty {
            start: self.start,
            end: self.end,
            key: self.key.duplicate(),
            value: self.value.duplicate(),
            digest: self.digest,
        };
        copy
    }
}

impl Clone for ObjectProperty {
    fn clone(&self) -> (copy: Self)
        ensures
            copy@ == self@,
    {
        self.duplicate()
    }
}

impl MemberObject {
    /// A copy that holds what `self` holds.
    pub fn duplicate(&self) -> (copy: Self)
        ensures
            copy@ == self@,
        decreases self,
    {
        match self {
            MemberObject::MemberExpression(x) => MemberObject::MemberExpression(Box::new(x.duplicate())),
            MemberObject::Identifier(x) => MemberObject::Identifier(Box::new(x.duplicate())),
        }
    }
}

impl Clone for MemberObject {
    fn clone(&self) -> (copy: Self)
        ensures
            copy@ == self@,
    {
        self.duplicate()
    }
}

impl LiteralIdentifier {
    /// A copy that holds what `self` holds.
    pub fn duplicate(&self) -> (copy: Self)
        ensures
            copy@ == self@,
        decreases self,
    {
        match self {
            LiteralIdentifier::Identifier(x) => LiteralIdentifier::Identifier(Box::new(x.duplicate())),
            LiteralIdentifier::Literal(x) => LiteralIdentifier::Literal(Box::new(x.duplicate())),
        }
    }
}

impl Clone for LiteralIdentifier {
    fn clone(&self) -> (copy: Self)
        ensures
            copy@ == self@,
    {
        self.duplicate()
    }
}

impl MemberExpression {
    /// A copy that holds what `self` holds.
    pub fn duplicate(&self) -> (copy: Self)
        ensures
            copy@ == self@,
        decreases self,
    {
        let copy = MemberExpression {
            start: self.start,
            end: self.end,
            object: self.object.duplicate(),
            property: self.property.duplicate(),
            computed: self.computed,
            digest: self.digest,
        };
        copy
    }
}

impl Clone for MemberExpression {
    fn clone(&self) -> (copy: Self)
        ensures
            copy@ == self@,
    {
        self.duplicate()
    }
}

impl ObjectKeyInfo {
    /// A copy that holds what `self` holds.
    pub fn duplicate(&self) -> (copy: Self)
        ensures
            copy@ == self@,
        decreases self,
    {
        let copy = ObjectKeyInfo {
            key: self.key.duplicate(),
            index: self.index,
            computed: self.computed,
        };
        copy
    }
}

impl Clone for ObjectKeyInfo {
    fn clone(&self) -> (copy: Self)
        ensures
            copy@ == self@,
    {
        self.duplicate()
    }
}

impl BinaryExpression {
    /// A copy that holds what `self` holds.
    pub fn duplicate(&self) -> (copy: Self)
        ensures
            copy@ == self@,
        decreases self,
    {
        let copy = BinaryExpression {
            start: self.start,
            end: self.end,
            operator: self.operator,
            left: self.left.duplicate(),
            right: self.right.duplicate(),
            digest: self.digest,
        };
        copy
    }
}

impl Clone for BinaryExpression {
    fn clone(&self) -> (copy: Self)
        ensures
            copy@ == self@,
    {
        self.duplicate()
    }
}

impl UnaryExpression {
    /// A copy that holds what `self` holds.
    pub fn duplicate(&self) -> (copy: Self)
        ensures
            copy@ == self@,
        decreases self,
    {
        let copy = UnaryExpression {
            start: self.start,
            end: self.end,
            operator: self.operator,
            argument: self.argument.duplicate(),
            digest: self.digest,
        };
        copy
    }
}

impl Clone for UnaryExpression {
    fn clone(&self) -> (copy: Self)
        ensures
            copy@ == self@,
    {
        self.duplicate()
    }
}

impl PipeExpression {
    /// A copy that holds what `self` holds.
    pub fn duplicate(&self) -> (copy: Self)
        ensures
            copy@ == self@,
        decreases self,
    {
        let copy = PipeExpression {
            start: self.start,
            end: self.end,
            body: duplicate_exprs(&self.body),
            non_code_meta: self.non_code_meta.duplicate(),
            digest: self.digest,
        };
        assert(copy@.body =~= self@.body);
        copy
    }
}

impl Clone for PipeExpression {
    fn clone(&self) -> (copy: Self)
        ensures
            copy@ == self@,
    {
        self.duplicate()
    }
}

impl FnArgType {
    /// A copy that holds what `self` holds.
    pub fn duplicate(&self) -> (copy: Self)
        ensures
            copy@ == self@,
        decreases self,
    {
        match self {
            FnArgType::Primitive(x) => FnArgType::Primitive(*x),
            FnArgType::Array(x) => FnArgType::Array(*x),
            FnArgType::Object { properties } => {
                let copy = FnArgType::Object { properties: duplicate_parameters(properties) };
                assert(copy@->Object_properties =~= self@->Object_properties);
                copy
            },
        }
    }
}

impl Clone for FnArgType {
    fn clone(&self) -> (copy: Self)
        ensures
            copy@ == self@,
    {
        self.duplicate()
    }
}

impl Parameter {
    /// A copy that holds what `self` holds.
    pub fn duplicate(&self) -> (copy: Self)
        ensures
            copy@ == self@,
        decreases self,
    {
        let copy = Parameter {
            identifier: self.identifier.duplicate(),
            type_: match &self.type_ {
                Some(x) => Some(x.duplicate()),
                None => None,
            },
            optional: self.optional,
            digest: self.digest,
        };
        copy
    }
}

impl Clone for Parameter {
    fn clone(&self) -> (copy: Self)
        ensures
            copy@ == self@,
    {
        self.duplicate()
    }
}

impl FunctionExpression {
    /// A copy that holds what `self` holds.
    pub fn duplicate(&self) -> (copy: Self)
        ensures
            copy@ == self@,
        decreases self,
    {
        let copy = FunctionExpression {
            start: self.start,
            end: self.end,
            params: duplicate_parameters(&self.params),
            body: self.body.duplicate(),
            return_type: match &self.return_type {
                Some(x) => Some(x.duplicate()),
                None => None,
            },
            digest: self.digest,
        };
        assert(copy@.params =~= self@.params);
        copy
    }
}

impl Clone for FunctionExpression {
    fn clone(&self) -> (copy: Self)
        ensures
            copy@ == self@,
    {
        self.duplicate()
    }
}

impl ReturnStatement {
    /// A copy that holds what `self` holds.
    pub fn duplicate(&self) -> (copy: Self)
        ensures
            copy@ == self@,
        decreases self,
    {
        let copy = ReturnStatement {
            start: self.start,
            end: self.end,
            argument: self.argument.duplicate(),
            digest: self.digest,
        };
        copy
    }
}

impl Clone for ReturnStatement {
    fn clone(&self) -> (copy: Self)
        ensures
            copy@ == self@,
    {
        self.duplicate()
    }
}

impl IfExpression {
    /// A copy that holds what `self` holds.
    pub fn duplicate(&self) -> (copy: Self)
        ensures
            copy@ == self@,
        decreases self,
    {
        let copy = IfExpression {
            start: self.start,
            end: self.end,
            cond: Box::new(self.cond.duplicate()),
            then_val: Box::new(self.then_val.duplicate()),
            else_ifs: duplicate_else_ifs(&self.else_ifs),
            final_else: Box::new(self.final_else.duplicate()),
            digest: self.digest,
        };
        assert(copy@.else_ifs =~= self@.else_ifs);
        copy
    }
}

impl Clone for IfExpression {
    fn clone(&self) -> (copy: Self)
        ensures
            copy@ == self@,
    {
        self.duplicate()
    }
}

impl ElseIf {
    /// A copy that holds what `self` holds.
    pub fn duplicate(&self) -> (copy: Self)
        ensures
            copy@ == self@,
        decreases self,
    {
        let copy = ElseIf {
            start: self.start,
            end: self.end,
            cond: self.cond.duplicate(),
            then_val: Box::new(self.then_val.duplicate()),
            digest: self.digest,
        };
        copy
    }
}

impl Clone for ElseIf {
    fn clone(&self) -> (copy: Self)
        ensures
            copy@ == self@,
    {
        self.duplicate()
    }
}

fn duplicate_body(items: &Vec<BodyItem>) -> (copies: Vec<BodyItem>)
    ensures
        copies.len() == items.len(),
        forall|i: int| 0 <= i < items.len() ==> (#[trigger] copies[i])@ == items[i]@,
    decreases items,
{
    let mut copies: Vec<BodyItem> = Vec::new();
    let mut i: usize = 0;
    while i < items.len()
        invariant
            i <= items.len(),
            copies.len() == i,
            forall|j: int| 0 <= j < i ==> (#[trigger] copies[j])@ == items[j]@,
        decreases items.len() - i,
    {
        copies.push(items[i].duplicate());
        i += 1;
    }
    copies
}

fn duplicate_exprs(items: &Vec<Expr>) -> (copies: Vec<Expr>)
    ensures
        copies.len() == items.len(),
        forall|i: int| 0 <= i < items.len() ==> (#[trigger] copies[i])@ == items[i]@,
    decreases items,
{
    let mut copies: Vec<Expr> = Vec::new();
    let mut i: usize = 0;
    while i < items.len()
        invariant
            i <= items.len(),
            copies.len() == i,
            forall|j: int| 0 <= j < i ==> (#[trigger] copies[j])@ == items[j]@,
        decreases items.len() - i,
    {
        copies.push(items[i].duplicate());
        i += 1;
    }
    copies
}

fn duplicate_import_items(items: &Vec<ImportItem>) -> (copies: Vec<ImportItem>)
    ensures
        copies.len() == items.len(),
        forall|i: int| 0 <= i < items.len() ==> (#[trigger] copies[i])@ == items[i]@,
    decreases items,
{
    let mut copies: Vec<ImportItem> = Vec::new();
    let mut i: usize = 0;
    while i < items.len()
        invariant
            i <= items.len(),
            copies.len() == i,
            forall|j: int| 0 <= j < i ==> (#[trigger] copies[j])@ == items[j]@,
        decreases items.len() - i,
    {
        copies.push(items[i].duplicate());
        i += 1;
    }
    copies
}

fn duplicate_declarators(items: &Vec<VariableDeclarator>) -> (copies: Vec<VariableDeclarator>)
    ensures
        copies.len() == items.len(),
        forall|i: int| 0 <= i < items.len() ==> (#[trigger] copies[i])@ == items[i]@,
    decreases items,
{
    let mut copies: Vec<VariableDeclarator> = Vec::new();
    let mut i: usize = 0;
    while i < items.len()
        invariant
            i <= items.len(),
            copies.len() == i,
            forall|j: int| 0 <= j < i ==> (#[trigger] copies[j])@ == items[j]@,
        decreases items.len() - i,
    {
        copies.push(items[i].duplicate());
        i += 1;
    }
    copies
}

fn duplicate_properties(items: &Vec<ObjectProperty>) -> (copies: Vec<ObjectProperty>)
    ensures
        copies.len() == items.len(),
        forall|i: int| 0 <= i < items.len() ==> (#[trigger] copies[i])@ == items[i]@,
    decreases items,
{
    let mut copies: Vec<ObjectProperty> = Vec::new();
    let mut i: usize = 0;
    while i < items.len()
        invariant
            i <= items.len(),
            copies.len() == i,
            forall|j: int| 0 <= j < i ==> (#[trigger] copies[j])@ == items[j]@,
        decreases items.len() - i,
    {
        copies.push(items[i].duplicate());
        i += 1;
    }
    copies
}

fn duplicate_parameters(items: &Vec<Parameter>) -> (copies: Vec<Parameter>)
    ensures
        copies.len() == items.len(),
        forall|i: int| 0 <= i < items.len() ==> (#[trigger] copies[i])@ == items[i]@,
    decreases items,
{
    let mut copies: Vec<Parameter> = Vec::new();
    let mut i: usize = 0;
    while i < items.len()
        invariant
            i <= items.len(),
            copies.len() == i,
            forall|j: int| 0 <= j < i ==> (#[trigger] copies[j])@ == items[j]@,
        decreases items.len() - i,
    {
        copies.push(items[i].duplicate());
        i += 1;
    }
    copies
}

fn duplicate_else_ifs(items: &Vec<ElseIf>) -> (copies: Vec<ElseIf>)
    ensures
        copies.len() == items.len(),
        forall|i: int| 0 <= i < items.len() ==> (#[trigger] copies[i])@ == items[i]@,
    decreases items,
{
    let mut copies: Vec<ElseIf> = Vec::new();
    let mut i: usize = 0;
    while i < items.len()
        invariant
            i <= items.len(),
            copies.len() == i,
            forall|j: int| 0 <= j < i ==> (#[trigger] copies[j])@ == items[j]@,
        decreases items.len() - i,
    {
        copies.push(items[i].duplicate());
        i += 1;
    }
    copies
}

} // verus!
