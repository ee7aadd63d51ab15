//! What to show where the cursor rests.

use crate::ast::{
    ArrayExpression, ArrayRangeExpression, BinaryExpression, BinaryPart, BodyItem, CallExpression,
    ElseIf, Expr, FunctionExpression, IfExpression, MemberExpression, MemberObject, NonCodeNode,
    NonCodeValue, ObjectExpression, ObjectProperty, PipeExpression, Program, UnaryExpression,
    VariableDeclaration,
};
use crate::model::{
    non_code_nodes_view, ArrayExpressionView, ArrayRangeExpressionView, BinaryExpressionView,
    BinaryPartView, BodyItemView, CallExpressionView, ElseIfView, ExprView, FunctionExpressionView,
    IfExpressionView, MemberExpressionView, MemberObjectView, NonCodeNodeView,
    ObjectExpressionView, ObjectPropertyView, PipeExpressionView, ProgramView, UnaryExpressionView,
    VariableDeclarationView,
};
use crate::range::{lsp_range_in, LspRange, SourceRange};
use crate::text::{first_index, lemma_first_index_is};
use vstd::prelude::*;
use vstd::string::StringSliceAdditionalSpecFns;

verus! {

/// What is said of the shebang line.
pub const SHEBANG_HELP: &'static str =
    "The `#!` at the start of a script, known as a shebang, specifies the path to the interpreter that should execute the script. This line is not necessary for your `kcl` to run in the modeling-app. You can safely delete it. If you wish to learn more about what you _can_ do with a shebang, read this doc: [zoo.dev/docs/faq/shebang](https://zoo.dev/docs/faq/shebang).";

/// What to show at a position.
#[derive(Debug, PartialEq)]
pub enum Hover {
    /// The position is on the name of a called function.
    Function { name: String, range: LspRange },
    /// The position is on an argument of a call: the function's name and the
    /// index of the argument, counted from zero.
    Signature { name: String, parameter_index: u32, range: LspRange },
    /// The position is on a comment that something is to be said of.
    Comment { value: String, range: LspRange },
}

/// What a [`Hover`] holds.
pub ghost enum HoverView {
    Function { name: Seq<char>, range: LspRange },
    Signature { name: Seq<char>, parameter_index: u32, range: LspRange },
    Comment { value: Seq<char>, range: LspRange },
}

impl Hover {
    /// What the value holds, as the contracts speak of it.
    pub open spec fn view(&self) -> HoverView {
        match self {
            Hover::Function { name, range } => HoverView::Function { name: name@, range: *range },
            Hover::Signature { name, parameter_index, range } => HoverView::Signature {
                name: name@,
                parameter_index: *parameter_index,
                range: *range,
            },
            Hover::Comment { value, range } => HoverView::Comment { value: value@, range: *range },
        }
    }
}

/// What holds of a result that may be absent: it is there exactly where the
/// model has one, and holds what the model says.
pub open spec fn hover_is(hover: Option<Hover>, model: Option<HoverView>) -> bool {
    match hover {
        Some(h) => model == Some(h@),
        None => model is None,
    }
}

/// The index of the first piece that holds `pos` and is a shebang, or the
/// number of pieces.
pub open spec fn shebang_index(nodes: Seq<NonCodeNodeView>, pos: usize) -> int {
    first_index(
        nodes,
        |n: NonCodeNodeView| n.contains(pos) && n.value is Shebang,
    )
}

impl CallExpressionView {
    /// On the callee: the function. On an argument: the signature, at the
    /// first argument that holds `pos`.
    pub open spec fn hover(self, pos: usize, code: Seq<u8>) -> Option<HoverView> {
        if self.callee.start <= pos <= self.callee.end {
            Some(
                HoverView::Function {
                    name: self.callee.name,
                    range: lsp_range_in(code, self.callee.start, self.callee.end),
                },
            )
        } else {
            let i = first_index(self.arguments, |e: ExprView| e.contains(pos));
            if 0 <= i < self.arguments.len() {
                Some(
                    HoverView::Signature {
                        name: self.callee.name,
                        parameter_index: i as u32,
                        range: lsp_range_in(code, self.arguments[i].start(), self.arguments[i].end()),
                    },
                )
            } else {
                None
            }
        }
    }
}

impl ExprView {
    /// What to show at `pos` in the expression.
    pub open spec fn hover(self, pos: usize, code: Seq<u8>) -> Option<HoverView>
        decreases self,
    {
        match self {
            ExprView::BinaryExpression(x) => x.hover(pos, code),
            ExprView::FunctionExpression(x) => x.hover(pos, code),
            ExprView::CallExpression(x) => x.hover(pos, code),
            ExprView::PipeExpression(x) => x.hover(pos, code),
            ExprView::ArrayExpression(x) => x.hover(pos, code),
            ExprView::ArrayRangeExpression(x) => x.hover(pos, code),
            ExprView::ObjectExpression(x) => x.hover(pos, code),
            ExprView::MemberExpression(x) => x.hover(pos, code),
            ExprView::UnaryExpression(x) => x.hover(pos, code),
            ExprView::IfExpression(x) => x.hover(pos, code),
            ExprView::KclNone(_)
            | ExprView::Literal(_)
            | ExprView::Identifier(_)
            | ExprView::TagDeclarator(_)
            | ExprView::PipeSubstitution(_) => None,
        }
    }
}

impl BinaryPartView {
    /// What to show at `pos` in the operand.
    pub open spec fn hover(self, pos: usize, code: Seq<u8>) -> Option<HoverView>
        decreases self,
    {
        match self {
            BinaryPartView::Literal(_) | BinaryPartView::Identifier(_) => None,
            BinaryPartView::BinaryExpression(x) => x.hover(pos, code),
            BinaryPartView::CallExpression(x) => x.hover(pos, code),
            BinaryPartView::UnaryExpression(x) => x.hover(pos, code),
            BinaryPartView::MemberExpression(x) => x.hover(pos, code),
            BinaryPartView::IfExpression(x) => x.hover(pos, code),
        }
    }
}

impl BinaryExpressionView {
    /// That of the left operand where it holds `pos`, else that of the right
    /// one where it does.
    pub open spec fn hover(self, pos: usize, code: Seq<u8>) -> Option<HoverView>
        decreases self,
    {
        if self.left.contains(pos) {
            self.left.hover(pos, code)
        } else if self.right.contains(pos) {
            self.right.hover(pos, code)
        } else {
            None
        }
    }
}

impl UnaryExpressionView {
    /// That of the operand where it holds `pos`.
    pub open spec fn hover(self, pos: usize, code: Seq<u8>) -> Option<HoverView>
        decreases self,
    {
        if self.argument.contains(pos) {
            self.argument.hover(pos, code)
        } else {
            None
        }
    }
}

impl PipeExpressionView {
    /// That of the first stage that holds `pos`.
    pub open spec fn hover(self, pos: usize, code: Seq<u8>) -> Option<HoverView>
        decreases self,
    {
        let i = first_index(self.body, |e: ExprView| e.contains(pos));
        if 0 <= i < self.body.len() {
            self.body[i].hover(pos, code)
        } else {
            None
        }
    }
}

impl ArrayExpressionView {
    /// That of the first element that holds `pos`.
    pub open spec fn hover(self, pos: usize, code: Seq<u8>) -> Option<HoverView>
        decreases self,
    {
        let i = first_index(self.elements, |e: ExprView| e.contains(pos));
        if 0 <= i < self.elements.len() {
            self.elements[i].hover(pos, code)
        } else {
            None
        }
    }
}

impl ArrayRangeExpressionView {
    /// That of the first of the two ends that holds `pos`.
    pub open spec fn hover(self, pos: usize, code: Seq<u8>) -> Option<HoverView>
        decreases self,
    {
        if self.start_element.contains(pos) {
            self.start_element.hover(pos, code)
        } else if self.end_element.contains(pos) {
            self.end_element.hover(pos, code)
        } else {
            None
        }
    }
}

impl ObjectPropertyView {
    /// That of the value where it holds `pos`.
    pub open spec fn hover(self, pos: usize, code: Seq<u8>) -> Option<HoverView>
        decreases self,
    {
        if self.value.contains(pos) {
            self.value.hover(pos, code)
        } else {
            None
        }
    }
}

impl ObjectExpressionView {
    /// That of the first property that holds `pos`.
    pub open spec fn hover(self, pos: usize, code: Seq<u8>) -> Option<HoverView>
        decreases self,
    {
        let i = first_index(
            self.properties,
            |p: ObjectPropertyView| p.start <= pos <= p.end,
        );
        if 0 <= i < self.properties.len() {
            self.properties[i].hover(pos, code)
        } else {
            None
        }
    }
}

impl MemberObjectView {
    /// That of a member expression; a name shows nothing.
    pub open spec fn hover(self, pos: usize, code: Seq<u8>) -> Option<HoverView>
        decreases self,
    {
        match self {
            MemberObjectView::MemberExpression(x) => x.hover(pos, code),
            MemberObjectView::Identifier(_) => None,
        }
    }
}

impl MemberExpressionView {
    /// That of what is read from, where it holds `pos`.
    pub open spec fn hover(self, pos: usize, code: Seq<u8>) -> Option<HoverView>
        decreases self,
    {
        if self.object.contains(pos) {
            self.object.hover(pos, code)
        } else {
            None
        }
    }
}

impl FunctionExpressionView {
    /// That of the expression at `pos` in the body.
    pub open spec fn hover(self, pos: usize, code: Seq<u8>) -> Option<HoverView>
        decreases self,
    {
        self.body.expr_hover(pos, code)
    }
}

impl ElseIfView {
    /// That of the condition, or else that of the branch.
    pub open spec fn hover(self, pos: usize, code: Seq<u8>) -> Option<HoverView>
        decreases self,
    {
        match self.cond.hover(pos, code) {
            Some(h) => Some(h),
            None => self.then_val.hover(pos, code),
        }
    }
}

impl IfExpressionView {
    /// The first that an `else if` branch from index `from` on has to show.
    pub open spec fn else_ifs_hover(self, from: int, pos: usize, code: Seq<u8>) -> Option<HoverView>
        decreases self, self.else_ifs.len() - from,
    {
        if 0 <= from < self.else_ifs.len() {
            match self.else_ifs[from].hover(pos, code) {
                Some(h) => Some(h),
                None => self.else_ifs_hover(from + 1, pos, code),
            }
        } else {
            None
        }
    }

    /// The first that there is to show, of the condition, the first branch,
    /// the `else if` branches in order, and the last branch.
    pub open spec fn hover(self, pos: usize, code: Seq<u8>) -> Option<HoverView>
        decreases self, self.else_ifs.len() + 1,
    {
        match self.cond.hover(pos, code) {
            Some(h) => Some(h),
            None => match self.then_val.hover(pos, code) {
                Some(h) => Some(h),
                None => match self.else_ifs_hover(0, pos, code) {
                    Some(h) => Some(h),
                    None => self.final_else.hover(pos, code),
                },
            },
        }
    }
}

impl VariableDeclarationView {
    /// That of the initial value of the first declarator that holds `pos`.
    pub open spec fn expr_hover(self, pos: usize, code: Seq<u8>) -> Option<HoverView>
        decreases self,
    {
        let i = self.declarator_index(pos);
        if 0 <= i < self.declarations.len() {
            self.declarations[i].init.hover(pos, code)
        } else {
            None
        }
    }
}

impl BodyItemView {
    /// That of the expression that the statement has for `pos`.
    pub open spec fn expr_hover(self, pos: usize, code: Seq<u8>) -> Option<HoverView>
        decreases self,
    {
        match self {
            BodyItemView::ImportStatement(_) => None,
            BodyItemView::ExpressionStatement(x) => x.expression.hover(pos, code),
            BodyItemView::VariableDeclaration(x) => x.expr_hover(pos, code),
            BodyItemView::ReturnStatement(x) => x.argument.hover(pos, code),
        }
    }
}

impl ProgramView {
    /// That of the expression at `pos`.
    pub open spec fn expr_hover(self, pos: usize, code: Seq<u8>) -> Option<HoverView>
        decreases self, 0nat,
    {
        let i = self.item_index(pos);
        if 0 <= i < self.body.len() {
            self.body[i].expr_hover(pos, code)
        } else {
            None
        }
    }

    /// What to show at `pos` in the program.
    ///
    /// Where `pos` is on a shebang among what stands before the first
    /// statement, a word on shebangs. Else what the expression at `pos` has to
    /// show: on the name of a called function the function, on an argument of a
    /// call the signature.
    pub open spec fn hover(self, pos: usize, code: Seq<u8>) -> Option<HoverView>
        decreases self, 1nat,
    {
        match self.non_code_meta_at(pos) {
            Some(meta) if shebang_index(meta.start, pos) < meta.start.len() => {
                let node = meta.start[shebang_index(meta.start, pos)];
                Some(
                    HoverView::Comment {
                        value: SHEBANG_HELP@,
                        range: lsp_range_in(code, node.start, node.end),
                    },
                )
            },
            _ => self.expr_hover(pos, code),
        }
    }
}

/// The index of the first expression of a list that holds `pos`, or the length
/// of the list.
fn first_expr_at(items: &Vec<Expr>, pos: usize) -> (index: usize)
    ensures
        index <= items.len(),
        index < items.len() ==> items[index as int]@.contains(pos),
        forall|j: int| 0 <= j < index ==> !(#[trigger] items[j])@.contains(pos),
{
    let mut i: usize = 0;
    while i < items.len()
        invariant
            i <= items.len(),
            forall|j: int| 0 <= j < i ==> !(#[trigger] items[j])@.contains(pos),
        decreases items.len() - i,
    {
        if items[i].start() <= pos && pos <= items[i].end() {
            return i;
        }
        i += 1;
    }
    i
}

/// The index of the first piece of a list that holds `pos` and is a shebang.
fn first_shebang_at(nodes: &Vec<NonCodeNode>, pos: usize) -> (index: usize)
    ensures
        index == shebang_index(non_code_nodes_view(*nodes), pos),
        index <= nodes.len(),
{
    let ghost p = |n: NonCodeNodeView| n.contains(pos) && n.value is Shebang;
    let ghost view = non_code_nodes_view(*nodes);
    let mut i: usize = 0;
    while i < nodes.len()
        invariant
            i <= nodes.len(),
            view == non_code_nodes_view(*nodes),
            p == |n: NonCodeNodeView| n.contains(pos) && n.value is Shebang,
            forall|j: int| 0 <= j < i ==> !p(#[trigger] view[j]),
        decreases nodes.len() - i,
    {
        let is_shebang = match &nodes[i].value {
            NonCodeValue::Shebang { .. } => true,
            _ => false,
        };
        if nodes[i].contains(pos) && is_shebang {
            assert(p(view[i as int]));
            proof {
                lemma_first_index_is(view, p, i as int);
            }
            return i;
        }
        assert(!p(view[i as int]));
        i += 1;
    }
    proof {
        lemma_first_index_is(view, p, i as int);
    }
    i
}

impl CallExpression {
    /// What to show at `pos`: the function where `pos` is on the callee, the
    /// signature where it is on an argument.
    pub fn get_hover_value_for_position(&self, pos: usize, code: &str) -> (hover: Option<Hover>)
        ensures
            hover_is(hover, self@.hover(pos, code.spec_bytes())),
    {
        if self.callee.start <= pos && pos <= self.callee.end {
            return Some(
                Hover::Function {
                    name: self.callee.name.clone(),
                    range: SourceRange::new(self.callee.start, self.callee.end).to_lsp_range(code),
                },
            );
        }
        let i = first_expr_at(&self.arguments, pos);
        proof {
            lemma_first_index_is(self@.arguments, |e: ExprView| e.contains(pos), i as int);
        }
        if i < self.arguments.len() {
            Some(
                Hover::Signature {
                    name: self.callee.name.clone(),
                    parameter_index: #[verifier::truncate]
                    (i as u32),
                    range: self.arguments[i].source_range().to_lsp_range(code),
                },
            )
        } else {
            None
        }
    }
}

impl Expr {
    /// What to show at `pos` in the expression.
    pub fn get_hover_value_for_position(&self, pos: usize, code: &str) -> (hover: Option<Hover>)
        ensures
            hover_is(hover, self@.hover(pos, code.spec_bytes())),
        decreases self,
    {
        match self {
            Expr::BinaryExpression(x) => x.get_hover_value_for_position(pos, code),
            Expr::FunctionExpression(x) => x.get_hover_value_for_position(pos, code),
            Expr::CallExpression(x) => x.get_hover_value_for_position(pos, code),
            Expr::PipeExpression(x) => x.get_hover_value_for_position(pos, code),
            Expr::ArrayExpression(x) => x.get_hover_value_for_position(pos, code),
            Expr::ArrayRangeExpression(x) => x.get_hover_value_for_position(pos, code),
            Expr::ObjectExpression(x) => x.get_hover_value_for_position(pos, code),
            Expr::MemberExpression(x) => x.get_hover_value_for_position(pos, code),
            Expr::UnaryExpression(x) => x.get_hover_value_for_position(pos, code),
            Expr::IfExpression(x) => x.get_hover_value_for_position(pos, code),
            Expr::KclNone(_) => None,
            Expr::Literal(_) => None,
            Expr::Identifier(_) => None,
            Expr::TagDeclarator(_) => None,
            Expr::PipeSubstitution(_) => None,
        }
    }
}

impl BinaryPart {
    /// What to show at `pos` in the operand.
    pub fn get_hover_value_for_position(&self, pos: usize, code: &str) -> (hover: Option<Hover>)
        ensures
            hover_is(hover, self@.hover(pos, code.spec_bytes())),
        decreases self,
    {
        match self {
            BinaryPart::Literal(_) => None,
            BinaryPart::Identifier(_) => None,
            BinaryPart::BinaryExpression(x) => x.get_hover_value_for_position(pos, code),
            BinaryPart::CallExpression(x) => x.get_hover_value_for_position(pos, code),
            BinaryPart::UnaryExpression(x) => x.get_hover_value_for_position(pos, code),
            BinaryPart::MemberExpression(x) => x.get_hover_value_for_position(pos, code),
            BinaryPart::IfExpression(x) => x.get_hover_value_for_position(pos, code),
        }
    }
}

impl BinaryExpression {
    /// What to show at `pos`: that of the operand that holds `pos`, the left
    /// one first.
    pub fn get_hover_value_for_position(&self, pos: usize, code: &str) -> (hover: Option<Hover>)
        ensures
            hover_is(hover, self@.hover(pos, code.spec_bytes())),
        decreases self,
    {
        if self.left.start() <= pos && pos <= self.left.end() {
            return self.left.get_hover_value_for_position(pos, code);
        }
        if self.right.start() <= pos && pos <= self.right.end() {
            return self.right.get_hover_value_for_position(pos, code);
        }
        None
    }
}

impl UnaryExpression {
    /// What to show at `pos`: that of the operand where it holds `pos`.
    pub fn get_hover_value_for_position(&self, pos: usize, code: &str) -> (hover: Option<Hover>)
        ensures
            hover_is(hover, self@.hover(pos, code.spec_bytes())),
        decreases self,
    {
        if self.argument.start() <= pos && pos <= self.argument.end() {
            return self.argument.get_hover_value_for_position(pos, code);
        }
        None
    }
}

impl PipeExpression {
    /// What to show at `pos`: that of the first stage that holds `pos`.
    pub fn get_hover_value_for_position(&self, pos: usize, code: &str) -> (hover: Option<Hover>)
        ensures
            hover_is(hover, self@.hover(pos, code.spec_bytes())),
        decreases self,
    {
        let i = first_expr_at(&self.body, pos);
        proof {
            lemma_first_index_is(self@.body, |e: ExprView| e.contains(pos), i as int);
        }
        if i < self.body.len() {
            self.body[i].get_hover_value_for_position(pos, code)
        } else {
            None
        }
    }
}

impl ArrayExpression {
    /// What to show at `pos`: that of the first element that holds `pos`.
    pub fn get_hover_value_for_position(&self, pos: usize, code: &str) -> (hover: Option<Hover>)
        ensures
            hover_is(hover, self@.hover(pos, code.spec_bytes())),
        decreases self,
    {
        let i = first_expr_at(&self.elements, pos);
        proof {
            lemma_first_index_is(self@.elements, |e: ExprView| e.contains(pos), i as int);
        }
        if i < self.elements.len() {
            self.elements[i].get_hover_value_for_position(pos, code)
        } else {
            None
        }
    }
}

impl ArrayRangeExpression {
    /// What to show at `pos`: that of the end that holds `pos`, the first one
    /// first.
    pub fn get_hover_value_for_position(&self, pos: usize, code: &str) -> (hover: Option<Hover>)
        ensures
            hover_is(hover, self@.hover(pos, code.spec_bytes())),
        decreases self,
    {
        if self.start_element.start() <= pos && pos <= self.start_element.end() {
            return self.start_element.get_hover_value_for_position(pos, code);
        }
        if self.end_element.start() <= pos && pos <= self.end_element.end() {
            return self.end_element.get_hover_value_for_position(pos, code);
        }
        None
    }
}

impl ObjectProperty {
    /// What to show at `pos`: that of the value where it holds `pos`.
    pub fn get_hover_value_for_position(&self, pos: usize, code: &str) -> (hover: Option<Hover>)
        ensures
            hover_is(hover, self@.hover(pos, code.spec_bytes())),
        decreases self,
    {
        if self.value.start() <= pos && pos <= self.value.end() {
            return self.value.get_hover_value_for_position(pos, code);
        }
        None
    }
}

impl ObjectExpression {
    /// What to show at `pos`: that of the first property that holds `pos`.
    pub fn get_hover_value_for_position(&self, pos: usize, code: &str) -> (hover: Option<Hover>)
        ensures
            hover_is(hover, self@.hover(pos, code.spec_bytes())),
        decreases self,
    {
        let ghost p = |q: ObjectPropertyView| q.start <= pos <= q.end;
        let mut i: usize = 0;
        while i < self.properties.len()
            invariant
                i <= self.properties.len(),
                p == |q: ObjectPropertyView| q.start <= pos <= q.end,
                forall|j: int| 0 <= j < i ==> !p(#[trigger] self@.properties[j]),
            decreases self.properties.len() - i,
        {
            if self.properties[i].start <= pos && pos <= self.properties[i].end {
                assert(p(self@.properties[i as int]));
                proof {
                    lemma_first_index_is(self@.properties, p, i as int);
                }
                return self.properties[i].get_hover_value_for_position(pos, code);
            }
            assert(!p(self@.properties[i as int]));
            i += 1;
        }
        proof {
            lemma_first_index_is(self@.properties, p, i as int);
        }
        None
    }
}

impl MemberObject {
    /// What to show at `pos`: that of a member expression; a name shows nothing.
    pub fn get_hover_value_for_position(&self, pos: usize, code: &str) -> (hover: Option<Hover>)
        ensures
            hover_is(hover, self@.hover(pos, code.spec_bytes())),
        decreases self,
    {
        match self {
            MemberObject::MemberExpression(x) => x.get_hover_value_for_position(pos, code),
            MemberObject::Identifier(_) => None,
        }
    }
}

impl MemberExpression {
    /// What to show at `pos`: that of what is read from, where it holds `pos`.
    pub fn get_hover_value_for_position(&self, pos: usize, code: &str) -> (hover: Option<Hover>)
        ensures
            hover_is(hover, self@.hover(pos, code.spec_bytes())),
        decreases self,
    {
        if self.object.start() <= pos && pos <= self.object.end() {
            return self.object.get_hover_value_for_position(pos, code);
        }
        None
    }
}

impl FunctionExpression {
    /// What to show at `pos`: that of the expression at `pos` in the body.
    pub fn get_hover_value_for_position(&self, pos: usize, code: &str) -> (hover: Option<Hover>)
        ensures
            hover_is(hover, self@.hover(pos, code.spec_bytes())),
        decreases self,
    {
        self.body.expr_hover(pos, code)
    }
}

impl ElseIf {
    /// What to show at `pos`: that of the condition, or else that of the branch.
    pub fn get_hover_value_for_position(&self, pos: usize, code: &str) -> (hover: Option<Hover>)
        ensures
            hover_is(hover, self@.hover(pos, code.spec_bytes())),
        decreases self,
    {
        match self.cond.get_hover_value_for_position(pos, code) {
            Some(h) => Some(h),
            None => self.then_val.get_hover_value_for_position(pos, code),
        }
    }
}

impl IfExpression {
    /// What to show at `pos`: the first that there is to show, of the
    /// condition, the first branch, the `else if` branches in order, and the
    /// last branch.
    pub fn get_hover_value_for_position(&self, pos: usize, code: &str) -> (hover: Option<Hover>)
        ensures
            hover_is(hover, self@.hover(pos, code.spec_bytes())),
        decreases self,
    {
        match self.cond.get_hover_value_for_position(pos, code) {
            Some(h) => {
                return Some(h);
            },
            None => {},
        }
        match self.then_val.get_hover_value_for_position(pos, code) {
            Some(h) => {
                return Some(h);
            },
            None => {},
        }
        let ghost bytes = code.spec_bytes();
        let mut i: usize = 0;
        while i < self.else_ifs.len()
            invariant
                i <= self.else_ifs.len(),
                bytes == code.spec_bytes(),
                self@.cond.hover(pos, bytes) is None,
                self@.then_val.hover(pos, bytes) is None,
                self@.else_ifs_hover(0, pos, bytes) == self@.else_ifs_hover(i as int, pos, bytes),
            decreases self.else_ifs.len() - i,
        {
            match self.else_ifs[i].get_hover_value_for_position(pos, code) {
                Some(h) => {
                    return Some(h);
                },
                None => {},
            }
            i += 1;
        }
        self.final_else.get_hover_value_for_position(pos, code)
    }
}

impl VariableDeclaration {
    /// What the initial value of the first declarator that holds `pos` has to
    /// show.
    fn expr_hover(&self, pos: usize, code: &str) -> (hover: Option<Hover>)
        ensures
            hover_is(hover, self@.expr_hover(pos, code.spec_bytes())),
        decreases self,
    {
        let i = self.declarator_index(pos);
        if i < self.declarations.len() {
            self.declarations[i].init.get_hover_value_for_position(pos, code)
        } else {
            None
        }
    }
}

impl BodyItem {
    /// What the expression that the statement has for `pos` has to show.
    fn expr_hover(&self, pos: usize, code: &str) -> (hover: Option<Hover>)
        ensures
            hover_is(hover, self@.expr_hover(pos, code.spec_bytes())),
        decreases self,
    {
        match self {
            BodyItem::ImportStatement(_) => None,
            BodyItem::ExpressionStatement(x) => x.expression.get_hover_value_for_position(pos, code),
            BodyItem::VariableDeclaration(x) => x.expr_hover(pos, code),
            BodyItem::ReturnStatement(x) => x.argument.get_hover_value_for_position(pos, code),
        }
    }
}

impl Program {
    /// What the expression at `pos` has to show.
    fn expr_hover(&self, pos: usize, code: &str) -> (hover: Option<Hover>)
        ensures
            hover_is(hover, self@.expr_hover(pos, code.spec_bytes())),
        decreases self, 0nat,
    {
        let i = self.item_index(pos);
        if i < self.body.len() {
            self.body[i].expr_hover(pos, code)
        } else {
            None
        }
    }

    /// What to show at `pos` in the program: a word on shebangs where `pos` is
    /// on the shebang, else what the expression at `pos` has to show. `None`
    /// where there is nothing to show.
    pub fn get_hover_value_for_position(&self, pos: usize, code: &str) -> (hover: Option<Hover>)
        ensures
            hover_is(hover, self@.hover(pos, code.spec_bytes())),
        decreases self, 1nat,
    {
        match self.get_non_code_meta_for_position(pos) {
            Some(meta) => {
                let i = first_shebang_at(&meta.start, pos);
                if i < meta.start.len() {
                    let node = &meta.start[i];
                    return Some(
                        Hover::Comment {
                            value: SHEBANG_HELP.to_owned(),
                            range: node.source_range().to_lsp_range(code),
                        },
                    );
                }
            },
            None => {},
        }
        self.expr_hover(pos, code)
    }
}

} // verus!
