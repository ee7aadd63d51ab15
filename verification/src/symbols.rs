//! What an editor shows of a program: the regions that fold, the outline of
//! its symbols, and what it offers to complete.

use crate::ast::{
    ArrayExpression, ArrayRangeExpression, BinaryExpression, BinaryPart, BodyItem, CallExpression,
    ElseIf, Expr, FunctionExpression, IfExpression, ObjectExpression, ObjectProperty, Parameter,
    PipeExpression, Program, TagDeclarator, UnaryExpression, VariableDeclaration,
    VariableDeclarator, VariableKind,
};
use crate::model::{
    ArrayExpressionView, ArrayRangeExpressionView, BinaryExpressionView, BinaryPartView,
    BodyItemView, CallExpressionView, ElseIfView, ExprView, IfExpressionView, ObjectExpressionView,
    ObjectPropertyView, ParameterView, PipeExpressionView, ProgramView, TagDeclaratorView,
    UnaryExpressionView, VariableDeclarationView, VariableDeclaratorView,
};
use crate::range::{lsp_range_in, LspRange, SourceRange};
use crate::text::{
    concat_all, first_line, first_line_of, has_more_lines, lemma_concat_all_push, more_lines,
};
use vstd::prelude::*;
use vstd::string::StringSliceAdditionalSpecFns;
use vstd::utf8::{decode_utf8, encode_utf8};

verus! {

/// The sorts of region that fold.
#[derive(Debug, Clone, Copy, PartialEq, Eq, Structural)]
pub enum FoldingRangeKind {
    /// A comment.
    Comment,
    /// A run of imports.
    Imports,
    /// Any other region, such as a statement.
    Region,
}

/// A region of the text that an editor can fold away.
#[derive(Debug, PartialEq)]
pub struct FoldingRange {
    /// Where the region begins: behind the first line of the statement.
    pub start_line: u32,
    /// The column at which the region begins, where one is given.
    pub start_character: Option<u32>,
    /// Where the region ends: where the statement ends.
    pub end_line: u32,
    /// The column at which the region ends, where one is given.
    pub end_character: Option<u32>,
    /// The sort of region.
    pub kind: Option<FoldingRangeKind>,
    /// What is shown of the region while it is folded away.
    pub collapsed_text: Option<String>,
}

/// What a [`FoldingRange`] holds.
pub ghost struct FoldingRangeView {
    pub start_line: u32,
    pub start_character: Option<u32>,
    pub end_line: u32,
    pub end_character: Option<u32>,
    pub kind: Option<FoldingRangeKind>,
    pub collapsed_text: Option<Seq<char>>,
}

impl FoldingRange {
    /// What the value holds, as the contracts speak of it.
    pub open spec fn view(&self) -> FoldingRangeView {
        FoldingRangeView {
            start_line: self.start_line,
            start_character: self.start_character,
            end_line: self.end_line,
            end_character: self.end_character,
            kind: self.kind,
            collapsed_text: match self.collapsed_text {
                Some(text) => Some(text@),
                None => None,
            },
        }
    }
}

/// What a list of regions holds.
pub open spec fn folds_view(folds: Vec<FoldingRange>) -> Seq<FoldingRangeView> {
    Seq::new(folds.len() as nat, |i: int| folds[i]@)
}

/// The region that folds of a statement from `start` to `end` that is written
/// out as `recasted`.
///
/// A statement of one line does not fold. One of more lines folds from behind
/// its first line to its end, and shows its first line while folded. The
/// region is of the kind `Region`, and is given without columns. The two
/// offsets are cut to 32 bits.
pub open spec fn fold_of(start: usize, end: usize, recasted: Seq<u8>) -> Option<FoldingRangeView> {
    if has_more_lines(recasted) {
        Some(
            FoldingRangeView {
                start_line: (start + first_line_of(recasted).len()) as u32,
                start_character: None,
                end_line: end as u32,
                end_character: None,
                kind: Some(FoldingRangeKind::Region),
                collapsed_text: Some(decode_utf8(first_line_of(recasted))),
            },
        )
    } else {
        None
    }
}

impl BodyItemView {
    /// The region that folds of the statement, written out as `recasted`. An
    /// expression and a declaration can fold; an import and a `return` never do.
    pub open spec fn fold(self, recasted: Seq<u8>) -> Option<FoldingRangeView> {
        match self {
            BodyItemView::ImportStatement(_) => None,
            BodyItemView::ExpressionStatement(x) => fold_of(
                x.expression.start(),
                x.expression.end(),
                recasted,
            ),
            BodyItemView::VariableDeclaration(x) => fold_of(x.start, x.end, recasted),
            BodyItemView::ReturnStatement(_) => None,
        }
    }
}

/// The regions that fold among the first `count` statements, in order. The
/// statement with index `i` is written out as `recasted[i]`; one that is not
/// written out does not fold.
pub open spec fn folds_among(
    body: Seq<BodyItemView>,
    recasted: Seq<Seq<u8>>,
    count: int,
) -> Seq<FoldingRangeView>
    decreases count,
{
    if count <= 0 {
        Seq::empty()
    } else {
        let i = count - 1;
        let before = folds_among(body, recasted, i);
        if i < body.len() && i < recasted.len() {
            match body[i].fold(recasted[i]) {
                Some(fold) => before.push(fold),
                None => before,
            }
        } else {
            before
        }
    }
}

impl ProgramView {
    /// The regions that fold: one for each statement at the top level that
    /// folds, in order. Statements inside others are not looked at.
    pub open spec fn folds(self, recasted: Seq<Seq<u8>>) -> Seq<FoldingRangeView> {
        folds_among(self.body, recasted, self.body.len() as int)
    }
}

/// A program of one statement has one region that folds where the statement
/// is an expression or a declaration written out on more than one line, and
/// none where it is written out on one line.
pub proof fn lemma_one_statement_folds(program: ProgramView, recasted: Seq<Seq<u8>>)
    requires
        program.body.len() == 1,
        recasted.len() == 1,
    ensures
        (program.body[0] is ExpressionStatement || program.body[0] is VariableDeclaration)
            && has_more_lines(recasted[0]) ==> program.folds(recasted).len() == 1
            && program.body[0].fold(recasted[0]) == Some(program.folds(recasted)[0]),
        !has_more_lines(recasted[0]) ==> program.folds(recasted).len() == 0,
        program.body[0] is ImportStatement || program.body[0] is ReturnStatement
            ==> program.folds(recasted).len() == 0,
{
    assert(folds_among(program.body, recasted, 0) =~= Seq::<FoldingRangeView>::empty());
    assert(program.folds(recasted) == folds_among(program.body, recasted, 1));
}

/// The bytes of each text of a list.
pub open spec fn texts_bytes(texts: Vec<String>) -> Seq<Seq<u8>> {
    Seq::new(texts.len() as nat, |i: int| encode_utf8(texts[i]@))
}

/// The region that folds of a statement from `start` to `end` that is written
/// out as `recasted`.
fn folding_range(start: usize, end: usize, recasted: &str) -> (fold: Option<FoldingRange>)
    ensures
        match fold {
            Some(f) => fold_of(start, end, recasted.spec_bytes()) == Some(f@),
            None => fold_of(start, end, recasted.spec_bytes()) is None,
        },
{
    if !more_lines(recasted) {
        return None;
    }
    let line = first_line(recasted);
    proof {
        vstd::utf8::encode_utf8_decode_utf8(line@);
    }
    let length = line.as_bytes().len();
    // The sum is taken in numbers wide enough for it, and then cut.
    let behind_first_line: u128 = start as u128 + length as u128;
    Some(
        FoldingRange {
            start_line: #[verifier::truncate]
            (behind_first_line as u32),
            start_character: None,
            end_line: #[verifier::truncate]
            (end as u32),
            end_character: None,
            kind: Some(FoldingRangeKind::Region),
            collapsed_text: Some(line.to_owned()),
        },
    )
}

impl Expr {
    /// The region that folds of the expression, written out as `recasted`.
    /// `None` where it is written on one line.
    pub fn get_lsp_folding_range(&self, recasted: &str) -> (fold: Option<FoldingRange>)
        ensures
            match fold {
                Some(f) => fold_of(self@.start(), self@.end(), recasted.spec_bytes()) == Some(f@),
                None => fold_of(self@.start(), self@.end(), recasted.spec_bytes()) is None,
            },
    {
        folding_range(self.start(), self.end(), recasted)
    }
}

impl VariableDeclaration {
    /// The region that folds of the declaration, written out as `recasted`.
    /// `None` where it is written on one line.
    pub fn get_lsp_folding_range(&self, recasted: &str) -> (fold: Option<FoldingRange>)
        ensures
            match fold {
                Some(f) => fold_of(self.start, self.end, recasted.spec_bytes()) == Some(f@),
                None => fold_of(self.start, self.end, recasted.spec_bytes()) is None,
            },
    {
        folding_range(self.start, self.end, recasted)
    }
}

impl Program {
    /// The regions that fold: one for each statement at the top level that is
    /// written out on more than one line, in order. `recasted[i]` is the
    /// statement with index `i` written out; a statement that is not written
    /// out does not fold.
    pub fn get_lsp_folding_ranges(&self, recasted: &Vec<String>) -> (folds: Vec<FoldingRange>)
        ensures
            folds_view(folds) == self@.folds(texts_bytes(*recasted)),
    {
        let ghost texts = texts_bytes(*recasted);
        let mut folds: Vec<FoldingRange> = Vec::new();
        let mut i: usize = 0;
        assert(folds_view(folds) =~= folds_among(self@.body, texts, 0));
        while i < self.body.len()
            invariant
                i <= self.body.len(),
                texts == texts_bytes(*recasted),
                folds_view(folds) == folds_among(self@.body, texts, i as int),
            decreases self.body.len() - i,
        {
            if i < recasted.len() {
                let text = recasted[i].as_str();
                let fold = match &self.body[i] {
                    BodyItem::ImportStatement(_) => None,
                    BodyItem::ExpressionStatement(x) => x.expression.get_lsp_folding_range(text),
                    BodyItem::VariableDeclaration(x) => x.get_lsp_folding_range(text),
                    BodyItem::ReturnStatement(_) => None,
                };
                match fold {
                    Some(f) => {
                        let ghost before = folds_view(folds);
                        folds.push(f);
                        assert(folds_view(folds) =~= before.push(f@));
                    },
                    None => {},
                }
            }
            i += 1;
        }
        folds
    }
}

/// A place in a program where a symbol is made: a tag, or a declaration.
#[derive(Debug)]
pub enum SymbolSite<'a> {
    Tag(&'a TagDeclarator),
    Declaration(&'a VariableDeclaration),
}

/// What a [`SymbolSite`] refers to.
pub ghost enum SymbolSiteView {
    Tag(TagDeclaratorView),
    Declaration(VariableDeclarationView),
}

impl<'a> SymbolSite<'a> {
    /// What the value holds, as the contracts speak of it.
    pub open spec fn view(&self) -> SymbolSiteView {
        match self {
            SymbolSite::Tag(x) => SymbolSiteView::Tag(x@),
            SymbolSite::Declaration(x) => SymbolSiteView::Declaration(x@),
        }
    }
}

/// What a list of sites refers to.
pub open spec fn sites_view(sites: Vec<SymbolSite<'_>>) -> Seq<SymbolSiteView> {
    Seq::new(sites.len() as nat, |i: int| sites[i]@)
}

impl ExprView {
    /// The tags and declarations in the expression, in the order of the text.
    pub open spec fn sites(self) -> Seq<SymbolSiteView>
        decreases self,
    {
        match self {
            ExprView::TagDeclarator(x) => seq![SymbolSiteView::Tag(*x)],
            ExprView::BinaryExpression(x) => x.sites(),
            ExprView::FunctionExpression(x) => x.body.sites(),
            ExprView::CallExpression(x) => x.sites(),
            ExprView::PipeExpression(x) => x.sites(),
            ExprView::ArrayExpression(x) => x.sites(),
            ExprView::ArrayRangeExpression(x) => x.sites(),
            ExprView::ObjectExpression(x) => x.sites(),
            ExprView::UnaryExpression(x) => x.sites(),
            ExprView::IfExpression(x) => x.sites(),
            ExprView::Literal(_)
            | ExprView::Identifier(_)
            | ExprView::PipeSubstitution(_)
            | ExprView::MemberExpression(_)
            | ExprView::KclNone(_) => Seq::empty(),
        }
    }
}

impl BinaryPartView {
    /// The tags and declarations in the operand, in the order of the text.
    pub open spec fn sites(self) -> Seq<SymbolSiteView>
        decreases self,
    {
        match self {
            BinaryPartView::BinaryExpression(x) => x.sites(),
            BinaryPartView::CallExpression(x) => x.sites(),
            BinaryPartView::UnaryExpression(x) => x.sites(),
            BinaryPartView::IfExpression(x) => x.sites(),
            BinaryPartView::Literal(_)
            | BinaryPartView::Identifier(_)
            | BinaryPartView::MemberExpression(_) => Seq::empty(),
        }
    }
}

impl BinaryExpressionView {
    /// Those of the left operand, then those of the right one.
    pub open spec fn sites(self) -> Seq<SymbolSiteView>
        decreases self,
    {
        self.left.sites() + self.right.sites()
    }
}

impl UnaryExpressionView {
    /// Those of the operand.
    pub open spec fn sites(self) -> Seq<SymbolSiteView>
        decreases self,
    {
        self.argument.sites()
    }
}

impl CallExpressionView {
    /// The sites in each part, part by part.
    pub open spec fn part_sites(self) -> Seq<Seq<SymbolSiteView>>
        decreases self, 0nat,
    {
        Seq::new(
            self.arguments.len(),
            |i: int|
                if 0 <= i < self.arguments.len() {
                    self.arguments[i].sites()
                } else {
                    arbitrary()
                },
        )
    }

    /// Those of the arguments, in order.
    pub open spec fn sites(self) -> Seq<SymbolSiteView>
        decreases self, 1nat,
    {
        concat_all(self.part_sites())
    }
}

impl PipeExpressionView {
    /// The sites in each part, part by part.
    pub open spec fn part_sites(self) -> Seq<Seq<SymbolSiteView>>
        decreases self, 0nat,
    {
        Seq::new(
            self.body.len(),
            |i: int|
                if 0 <= i < self.body.len() {
                    self.body[i].sites()
                } else {
                    arbitrary()
                },
        )
    }

    /// Those of the stages, in order.
    pub open spec fn sites(self) -> Seq<SymbolSiteView>
        decreases self, 1nat,
    {
        concat_all(self.part_sites())
    }
}

impl ArrayExpressionView {
    /// The sites in each part, part by part.
    pub open spec fn part_sites(self) -> Seq<Seq<SymbolSiteView>>
        decreases self, 0nat,
    {
        Seq::new(
            self.elements.len(),
            |i: int|
                if 0 <= i < self.elements.len() {
                    self.elements[i].sites()
                } else {
                    arbitrary()
                },
        )
    }

    /// Those of the elements, in order.
    pub open spec fn sites(self) -> Seq<SymbolSiteView>
        decreases self, 1nat,
    {
        concat_all(self.part_sites())
    }
}

impl ArrayRangeExpressionView {
    /// Those of the first end, then those of the last.
    pub open spec fn sites(self) -> Seq<SymbolSiteView>
        decreases self,
    {
        self.start_element.sites() + self.end_element.sites()
    }
}

impl ObjectExpressionView {
    /// The sites in each part, part by part.
    pub open spec fn part_sites(self) -> Seq<Seq<SymbolSiteView>>
        decreases self, 0nat,
    {
        Seq::new(
            self.properties.len(),
            |i: int|
                if 0 <= i < self.properties.len() {
                    self.properties[i].value.sites()
                } else {
                    arbitrary()
                },
        )
    }

    /// Those of the values of the properties, in order.
    pub open spec fn sites(self) -> Seq<SymbolSiteView>
        decreases self, 1nat,
    {
        concat_all(self.part_sites())
    }
}

impl ElseIfView {
    /// Those of the condition, then those of the branch.
    pub open spec fn sites(self) -> Seq<SymbolSiteView>
        decreases self,
    {
        self.cond.sites() + self.then_val.sites()
    }
}

impl IfExpressionView {
    /// The sites in each part, part by part.
    pub open spec fn part_sites(self) -> Seq<Seq<SymbolSiteView>>
        decreases self, 0nat,
    {
        Seq::new(
            self.else_ifs.len(),
            |i: int|
                if 0 <= i < self.else_ifs.len() {
                    self.else_ifs[i].sites()
                } else {
                    arbitrary()
                },
        )
    }

    /// Those of the condition and of the branches, in order.
    pub open spec fn sites(self) -> Seq<SymbolSiteView>
        decreases self, 1nat,
    {
        self.cond.sites() + self.then_val.sites() + concat_all(self.part_sites())
            + self.final_else.sites()
    }
}

impl VariableDeclarationView {
    /// The sites in each part, part by part.
    pub open spec fn part_sites(self) -> Seq<Seq<SymbolSiteView>>
        decreases self, 0nat,
    {
        Seq::new(
            self.declarations.len(),
            |i: int|
                if 0 <= i < self.declarations.len() {
                    self.declarations[i].init.sites()
                } else {
                    arbitrary()
                },
        )
    }

    /// The declaration itself, then what is in the initial values, in order.
    pub open spec fn sites(self) -> Seq<SymbolSiteView>
        decreases self, 1nat,
    {
        seq![SymbolSiteView::Declaration(self)] + concat_all(self.part_sites())
    }
}

impl BodyItemView {
    /// The tags and declarations in the statement, in the order of the text.
    pub open spec fn sites(self) -> Seq<SymbolSiteView>
        decreases self,
    {
        match self {
            BodyItemView::ImportStatement(_) => Seq::empty(),
            BodyItemView::ExpressionStatement(x) => x.expression.sites(),
            BodyItemView::VariableDeclaration(x) => x.sites(),
            BodyItemView::ReturnStatement(x) => x.argument.sites(),
        }
    }
}

impl ProgramView {
    /// The sites in each part, part by part.
    pub open spec fn part_sites(self) -> Seq<Seq<SymbolSiteView>>
        decreases self, 0nat,
    {
        Seq::new(
            self.body.len(),
            |i: int|
                if 0 <= i < self.body.len() {
                    self.body[i].sites()
                } else {
                    arbitrary()
                },
        )
    }

    /// The tags and declarations in the program, at any depth, in the order of the text.
    pub open spec fn sites(self) -> Seq<SymbolSiteView>
        decreases self, 1nat,
    {
        concat_all(self.part_sites())
    }
}

/// Adds the sites in the expressions of a list.
fn sites_of_exprs<'a>(items: &'a Vec<Expr>, sites: &mut Vec<SymbolSite<'a>>)
    ensures
        sites_view(*final(sites)) == sites_view(*old(sites)) + concat_all(
            Seq::new(items.len() as nat, |i: int| items[i]@.sites()),
        ),
    decreases items,
{
    let mut i: usize = 0;
    assert(Seq::new(0, |j: int| items[j]@.sites()) =~= Seq::<Seq<SymbolSiteView>>::empty());
    assert(sites_view(*sites) =~= sites_view(*old(sites)) + concat_all(
        Seq::new(0, |j: int| items[j]@.sites()),
    ));
    while i < items.len()
        invariant
            i <= items.len(),
            sites_view(*sites) == sites_view(*old(sites)) + concat_all(
                Seq::new(i as nat, |j: int| items[j]@.sites()),
            ),
        decreases items.len() - i,
    {
        let ghost before = sites_view(*sites);
        items[i].collect_sites(sites);
        proof {
            let parts = Seq::new(i as nat, |j: int| items[j]@.sites());
            let more = Seq::new((i + 1) as nat, |j: int| items[j]@.sites());
            assert(more =~= parts.push(items[i as int]@.sites()));
            lemma_concat_all_push(parts, items[i as int]@.sites());
            assert(sites_view(*sites) =~= sites_view(*old(sites)) + concat_all(more));
        }
        i += 1;
    }
}

/// Adds the sites in the values of the properties of a list.
fn sites_of_properties<'a>(items: &'a Vec<ObjectProperty>, sites: &mut Vec<SymbolSite<'a>>)
    ensures
        sites_view(*final(sites)) == sites_view(*old(sites)) + concat_all(
            Seq::new(items.len() as nat, |i: int| items[i]@.value.sites()),
        ),
    decreases items,
{
    let mut i: usize = 0;
    assert(Seq::new(0, |j: int| items[j]@.value.sites()) =~= Seq::<Seq<SymbolSiteView>>::empty());
    assert(sites_view(*sites) =~= sites_view(*old(sites)) + concat_all(
        Seq::new(0, |j: int| items[j]@.value.sites()),
    ));
    while i < items.len()
        invariant
            i <= items.len(),
            sites_view(*sites) == sites_view(*old(sites)) + concat_all(
                Seq::new(i as nat, |j: int| items[j]@.value.sites()),
            ),
        decreases items.len() - i,
    {
        let ghost before = sites_view(*sites);
        items[i].value.collect_sites(sites);
        proof {
            let parts = Seq::new(i as nat, |j: int| items[j]@.value.sites());
            let more = Seq::new((i + 1) as nat, |j: int| items[j]@.value.sites());
            assert(more =~= parts.push(items[i as int]@.value.sites()));
            lemma_concat_all_push(parts, items[i as int]@.value.sites());
            assert(sites_view(*sites) =~= sites_view(*old(sites)) + concat_all(more));
        }
        i += 1;
    }
}

/// Adds the sites in the branches of a list.
fn sites_of_else_ifs<'a>(items: &'a Vec<ElseIf>, sites: &mut Vec<SymbolSite<'a>>)
    ensures
        sites_view(*final(sites)) == sites_view(*old(sites)) + concat_all(
            Seq::new(items.len() as nat, |i: int| items[i]@.sites()),
        ),
    decreases items,
{
    let mut i: usize = 0;
    assert(Seq::new(0, |j: int| items[j]@.sites()) =~= Seq::<Seq<SymbolSiteView>>::empty());
    assert(sites_view(*sites) =~= sites_view(*old(sites)) + concat_all(
        Seq::new(0, |j: int| items[j]@.sites()),
    ));
    while i < items.len()
        invariant
            i <= items.len(),
            sites_view(*sites) == sites_view(*old(sites)) + concat_all(
                Seq::new(i as nat, |j: int| items[j]@.sites()),
            ),
        decreases items.len() - i,
    {
        let ghost before = sites_view(*sites);
        items[i].collect_sites(sites);
        proof {
            let parts = Seq::new(i as nat, |j: int| items[j]@.sites());
            let more = Seq::new((i + 1) as nat, |j: int| items[j]@.sites());
            assert(more =~= parts.push(items[i as int]@.sites()));
            lemma_concat_all_push(parts, items[i as int]@.sites());
            assert(sites_view(*sites) =~= sites_view(*old(sites)) + concat_all(more));
        }
        i += 1;
    }
}

/// Adds the sites in the initial values of the declarators of a list.
fn sites_of_declarators<'a>(items: &'a Vec<VariableDeclarator>, sites: &mut Vec<SymbolSite<'a>>)
    ensures
        sites_view(*final(sites)) == sites_view(*old(sites)) + concat_all(
            Seq::new(items.len() as nat, |i: int| items[i]@.init.sites()),
        ),
    decreases items,
{
    let mut i: usize = 0;
    assert(Seq::new(0, |j: int| items[j]@.init.sites()) =~= Seq::<Seq<SymbolSiteView>>::empty());
    assert(sites_view(*sites) =~= sites_view(*old(sites)) + concat_all(
        Seq::new(0, |j: int| items[j]@.init.sites()),
    ));
    while i < items.len()
        invariant
            i <= items.len(),
            sites_view(*sites) == sites_view(*old(sites)) + concat_all(
                Seq::new(i as nat, |j: int| items[j]@.init.sites()),
            ),
        decreases items.len() - i,
    {
        let ghost before = sites_view(*sites);
        items[i].init.collect_sites(sites);
        proof {
            let parts = Seq::new(i as nat, |j: int| items[j]@.init.sites());
            let more = Seq::new((i + 1) as nat, |j: int| items[j]@.init.sites());
            assert(more =~= parts.push(items[i as int]@.init.sites()));
            lemma_concat_all_push(parts, items[i as int]@.init.sites());
            assert(sites_view(*sites) =~= sites_view(*old(sites)) + concat_all(more));
        }
        i += 1;
    }
}

/// Adds the sites in the statements of a list.
fn sites_of_body<'a>(items: &'a Vec<BodyItem>, sites: &mut Vec<SymbolSite<'a>>)
    ensures
        sites_view(*final(sites)) == sites_view(*old(sites)) + concat_all(
            Seq::new(items.len() as nat, |i: int| items[i]@.sites()),
        ),
    decreases items,
{
    let mut i: usize = 0;
    assert(Seq::new(0, |j: int| items[j]@.sites()) =~= Seq::<Seq<SymbolSiteView>>::empty());
    assert(sites_view(*sites) =~= sites_view(*old(sites)) + concat_all(
        Seq::new(0, |j: int| items[j]@.sites()),
    ));
    while i < items.len()
        invariant
            i <= items.len(),
            sites_view(*sites) == sites_view(*old(sites)) + concat_all(
                Seq::new(i as nat, |j: int| items[j]@.sites()),
            ),
        decreases items.len() - i,
    {
        let ghost before = sites_view(*sites);
        items[i].collect_sites(sites);
        proof {
            let parts = Seq::new(i as nat, |j: int| items[j]@.sites());
            let more = Seq::new((i + 1) as nat, |j: int| items[j]@.sites());
            assert(more =~= parts.push(items[i as int]@.sites()));
            lemma_concat_all_push(parts, items[i as int]@.sites());
            assert(sites_view(*sites) =~= sites_view(*old(sites)) + concat_all(more));
        }
        i += 1;
    }
}

impl Expr {
    /// Adds the tags and declarations in the expression to a list, in the
    /// order of the text.
    pub fn collect_sites<'a>(&'a self, sites: &mut Vec<SymbolSite<'a>>)
        ensures
            sites_view(*final(sites)) == sites_view(*old(sites)) + self@.sites(),
        decreases self,
    {
        match self {
            Expr::TagDeclarator(x) => {
                sites.push(SymbolSite::Tag(&**x));
            },
            Expr::BinaryExpression(x) => x.collect_sites(sites),
            Expr::FunctionExpression(x) => x.body.collect_sites(sites),
            Expr::CallExpression(x) => x.collect_sites(sites),
            Expr::PipeExpression(x) => x.collect_sites(sites),
            Expr::ArrayExpression(x) => x.collect_sites(sites),
            Expr::ArrayRangeExpression(x) => x.collect_sites(sites),
            Expr::ObjectExpression(x) => x.collect_sites(sites),
            Expr::UnaryExpression(x) => x.collect_sites(sites),
            Expr::IfExpression(x) => x.collect_sites(sites),
            Expr::Literal(_) => {},
            Expr::Identifier(_) => {},
            Expr::PipeSubstitution(_) => {},
            Expr::MemberExpression(_) => {},
            Expr::KclNone(_) => {},
        }
        assert(sites_view(*sites) =~= sites_view(*old(sites)) + self@.sites());
    }
}

impl BinaryPart {
    /// Adds the tags and declarations in the operand to a list, in the order
    /// of the text.
    pub fn collect_sites<'a>(&'a self, sites: &mut Vec<SymbolSite<'a>>)
        ensures
            sites_view(*final(sites)) == sites_view(*old(sites)) + self@.sites(),
        decreases self,
    {
        match self {
            BinaryPart::BinaryExpression(x) => x.collect_sites(sites),
            BinaryPart::CallExpression(x) => x.collect_sites(sites),
            BinaryPart::UnaryExpression(x) => x.collect_sites(sites),
            BinaryPart::IfExpression(x) => x.collect_sites(sites),
            BinaryPart::Literal(_) => {},
            BinaryPart::Identifier(_) => {},
            BinaryPart::MemberExpression(_) => {},
        }
        assert(sites_view(*sites) =~= sites_view(*old(sites)) + self@.sites());
    }
}

impl BinaryExpression {
    /// Adds the tags and declarations in the two operands to a list, in the order of the
    /// text.
    pub fn collect_sites<'a>(&'a self, sites: &mut Vec<SymbolSite<'a>>)
        ensures
            sites_view(*final(sites)) == sites_view(*old(sites)) + self@.sites(),
        decreases self,
    {
        self.left.collect_sites(sites);
        self.right.collect_sites(sites);
        assert(sites_view(*sites) =~= sites_view(*old(sites)) + self@.sites());
    }
}

impl UnaryExpression {
    /// Adds the tags and declarations in the operand to a list, in the order of the
    /// text.
    pub fn collect_sites<'a>(&'a self, sites: &mut Vec<SymbolSite<'a>>)
        ensures
            sites_view(*final(sites)) == sites_view(*old(sites)) + self@.sites(),
        decreases self,
    {
        self.argument.collect_sites(sites);
        assert(sites_view(*sites) =~= sites_view(*old(sites)) + self@.sites());
    }
}

impl CallExpression {
    /// Adds the tags and declarations in the arguments to a list, in the order of the
    /// text.
    pub fn collect_sites<'a>(&'a self, sites: &mut Vec<SymbolSite<'a>>)
        ensures
            sites_view(*final(sites)) == sites_view(*old(sites)) + self@.sites(),
        decreases self,
    {
        sites_of_exprs(&self.arguments, sites);
        assert(Seq::new(self.arguments.len() as nat, |i: int| self.arguments[i]@.sites())
            =~= self@.part_sites());
        assert(sites_view(*sites) =~= sites_view(*old(sites)) + self@.sites());
    }
}

impl PipeExpression {
    /// Adds the tags and declarations in the stages to a list, in the order of the
    /// text.
    pub fn collect_sites<'a>(&'a self, sites: &mut Vec<SymbolSite<'a>>)
        ensures
            sites_view(*final(sites)) == sites_view(*old(sites)) + self@.sites(),
        decreases self,
    {
        sites_of_exprs(&self.body, sites);
        assert(Seq::new(self.body.len() as nat, |i: int| self.body[i]@.sites())
            =~= self@.part_sites());
        assert(sites_view(*sites) =~= sites_view(*old(sites)) + self@.sites());
    }
}

impl ArrayExpression {
    /// Adds the tags and declarations in the elements to a list, in the order of the
    /// text.
    pub fn collect_sites<'a>(&'a self, sites: &mut Vec<SymbolSite<'a>>)
        ensures
            sites_view(*final(sites)) == sites_view(*old(sites)) + self@.sites(),
        decreases self,
    {
        sites_of_exprs(&self.elements, sites);
        assert(Seq::new(self.elements.len() as nat, |i: int| self.elements[i]@.sites())
            =~= self@.part_sites());
        assert(sites_view(*sites) =~= sites_view(*old(sites)) + self@.sites());
    }
}

impl ArrayRangeExpression {
    /// Adds the tags and declarations in the two ends to a list, in the order of the
    /// text.
    pub fn collect_sites<'a>(&'a self, sites: &mut Vec<SymbolSite<'a>>)
        ensures
            sites_view(*final(sites)) == sites_view(*old(sites)) + self@.sites(),
        decreases self,
    {
        self.start_element.collect_sites(sites);
        self.end_element.collect_sites(sites);
        assert(sites_view(*sites) =~= sites_view(*old(sites)) + self@.sites());
    }
}

impl ObjectExpression {
    /// Adds the tags and declarations in the values of the properties to a list, in the order of the
    /// text.
    pub fn collect_sites<'a>(&'a self, sites: &mut Vec<SymbolSite<'a>>)
        ensures
            sites_view(*final(sites)) == sites_view(*old(sites)) + self@.sites(),
        decreases self,
    {
        sites_of_properties(&self.properties, sites);
        assert(Seq::new(self.properties.len() as nat, |i: int| self.properties[i]@.value.sites())
            =~= self@.part_sites());
        assert(sites_view(*sites) =~= sites_view(*old(sites)) + self@.sites());
    }
}

impl ElseIf {
    /// Adds the tags and declarations in the branch to a list, in the order of the
    /// text.
    pub fn collect_sites<'a>(&'a self, sites: &mut Vec<SymbolSite<'a>>)
        ensures
            sites_view(*final(sites)) == sites_view(*old(sites)) + self@.sites(),
        decreases self,
    {
        self.cond.collect_sites(sites);
        self.then_val.collect_sites(sites);
        assert(sites_view(*sites) =~= sites_view(*old(sites)) + self@.sites());
    }
}

impl IfExpression {
    /// Adds the tags and declarations in the conditional to a list, in the
    /// order of the text.
    pub fn collect_sites<'a>(&'a self, sites: &mut Vec<SymbolSite<'a>>)
        ensures
            sites_view(*final(sites)) == sites_view(*old(sites)) + self@.sites(),
        decreases self,
    {
        self.cond.collect_sites(sites);
        self.then_val.collect_sites(sites);
        sites_of_else_ifs(&self.else_ifs, sites);
        self.final_else.collect_sites(sites);
        assert(Seq::new(self.else_ifs.len() as nat, |i: int| self.else_ifs[i]@.sites())
            =~= self@.part_sites());
        assert(sites_view(*sites) =~= sites_view(*old(sites)) + self@.sites());
    }
}

impl VariableDeclaration {
    /// Adds the tags and declarations in the declaration, the declaration itself first, to a list, in the order of the
    /// text.
    pub fn collect_sites<'a>(&'a self, sites: &mut Vec<SymbolSite<'a>>)
        ensures
            sites_view(*final(sites)) == sites_view(*old(sites)) + self@.sites(),
        decreases self,
    {
        sites.push(SymbolSite::Declaration(self));
        sites_of_declarators(&self.declarations, sites);
        assert(Seq::new(self.declarations.len() as nat, |i: int| self.declarations[i]@.init.sites())
            =~= self@.part_sites());
        assert(sites_view(*sites) =~= sites_view(*old(sites)) + self@.sites());
    }
}

impl BodyItem {
    /// Adds the tags and declarations in the statement to a list, in the order
    /// of the text.
    pub fn collect_sites<'a>(&'a self, sites: &mut Vec<SymbolSite<'a>>)
        ensures
            sites_view(*final(sites)) == sites_view(*old(sites)) + self@.sites(),
        decreases self,
    {
        match self {
            BodyItem::ImportStatement(_) => {},
            BodyItem::ExpressionStatement(x) => x.expression.collect_sites(sites),
            BodyItem::VariableDeclaration(x) => x.collect_sites(sites),
            BodyItem::ReturnStatement(x) => x.argument.collect_sites(sites),
        }
        assert(sites_view(*sites) =~= sites_view(*old(sites)) + self@.sites());
    }
}

impl Program {
    /// Adds the tags and declarations in the program, at any depth, to a list, in the order of the
    /// text.
    pub fn collect_sites<'a>(&'a self, sites: &mut Vec<SymbolSite<'a>>)
        ensures
            sites_view(*final(sites)) == sites_view(*old(sites)) + self@.sites(),
        decreases self,
    {
        sites_of_body(&self.body, sites);
        assert(Seq::new(self.body.len() as nat, |i: int| self.body[i]@.sites())
            =~= self@.part_sites());
        assert(sites_view(*sites) =~= sites_view(*old(sites)) + self@.sites());
    }
}

/// The sorts of symbol that an outline tells apart.
#[derive(Debug, Clone, Copy, PartialEq, Eq, Structural)]
pub enum SymbolKind {
    Function,
    Constant,
    Object,
    Array,
    Property,
}

/// A symbol in the outline of a program.
#[derive(Debug, PartialEq)]
pub struct DocumentSymbol {
    pub name: String,
    /// More about the symbol: of a declared name, whether it is a constant or
    /// a function.
    pub detail: Option<String>,
    pub kind: SymbolKind,
    /// Where the symbol stands, with all that belongs to it.
    pub range: LspRange,
    /// Where the name of the symbol stands.
    pub selection_range: LspRange,
    /// The symbols inside this one: the parameters of a function, the
    /// properties of an object.
    pub children: Option<Vec<DocumentSymbol>>,
}

/// What a [`DocumentSymbol`] holds.
pub ghost struct DocumentSymbolView {
    pub name: Seq<char>,
    pub detail: Option<Seq<char>>,
    pub kind: SymbolKind,
    pub range: LspRange,
    pub selection_range: LspRange,
    pub children: Option<Seq<DocumentSymbolView>>,
}

impl DocumentSymbol {
    /// What the value holds, as the contracts speak of it.
    pub open spec fn view(&self) -> DocumentSymbolView
        decreases self,
    {
        DocumentSymbolView {
            name: self.name@,
            detail: match self.detail {
                Some(d) => Some(d@),
                None => None,
            },
            kind: self.kind,
            range: self.range,
            selection_range: self.selection_range,
            children: match self.children {
                Some(c) => Some(
                    Seq::new(
                        c.len() as nat,
                        |i: int|
                            if 0 <= i < c.len() {
                                c[i]@
                            } else {
                                arbitrary()
                            },
                    ),
                ),
                None => None,
            },
        }
    }
}

/// What a list of symbols holds.
pub open spec fn symbols_view(symbols: Vec<DocumentSymbol>) -> Seq<DocumentSymbolView> {
    Seq::new(symbols.len() as nat, |i: int| symbols[i]@)
}

/// A symbol without detail and without symbols inside.
pub open spec fn leaf_symbol(
    name: Seq<char>,
    kind: SymbolKind,
    range: LspRange,
    selection_range: LspRange,
) -> DocumentSymbolView {
    DocumentSymbolView { name, detail: None, kind, range, selection_range, children: None }
}

impl TagDeclaratorView {
    /// The symbol of the tag: a constant, at the tag.
    pub open spec fn symbol(self, code: Seq<u8>) -> DocumentSymbolView {
        leaf_symbol(
            self.name,
            SymbolKind::Constant,
            lsp_range_in(code, self.start, self.end),
            lsp_range_in(code, self.start, self.end),
        )
    }
}

impl ParameterView {
    /// The symbol of the parameter: a constant, at its name.
    pub open spec fn symbol(self, code: Seq<u8>) -> DocumentSymbolView {
        leaf_symbol(
            self.identifier.name,
            SymbolKind::Constant,
            lsp_range_in(code, self.identifier.start, self.identifier.end),
            lsp_range_in(code, self.identifier.start, self.identifier.end),
        )
    }
}

impl ObjectPropertyView {
    /// The symbol of the property: at the property, with its name at the key.
    pub open spec fn symbol(self, code: Seq<u8>) -> DocumentSymbolView {
        leaf_symbol(
            self.key.name,
            SymbolKind::Property,
            lsp_range_in(code, self.start, self.end),
            lsp_range_in(code, self.key.start, self.key.end),
        )
    }
}

impl VariableDeclaratorView {
    /// The sort of symbol: by the initial value where that is a function, an
    /// object or an array, else by what the declaration declares.
    pub open spec fn symbol_kind(self, declared: VariableKind) -> SymbolKind {
        match self.init {
            ExprView::FunctionExpression(_) => SymbolKind::Function,
            ExprView::ObjectExpression(_) => SymbolKind::Object,
            ExprView::ArrayExpression(_) => SymbolKind::Array,
            _ => match declared {
                VariableKind::Fn => SymbolKind::Function,
                VariableKind::Const => SymbolKind::Constant,
            },
        }
    }

    /// The symbols inside: the parameters of a function, the properties of an
    /// object, else none.
    pub open spec fn symbol_children(self, code: Seq<u8>) -> Seq<DocumentSymbolView> {
        match self.init {
            ExprView::FunctionExpression(f) => Seq::new(
                f.params.len(),
                |i: int| f.params[i].symbol(code),
            ),
            ExprView::ObjectExpression(o) => Seq::new(
                o.properties.len(),
                |i: int| o.properties[i].symbol(code),
            ),
            _ => Seq::empty(),
        }
    }

    /// The symbol of the declared name.
    pub open spec fn symbol(self, declared: VariableKind, code: Seq<u8>) -> DocumentSymbolView {
        DocumentSymbolView {
            name: self.id.name,
            detail: Some(declared.name()),
            kind: self.symbol_kind(declared),
            range: lsp_range_in(code, self.start, self.end),
            selection_range: lsp_range_in(code, self.id.start, self.id.end),
            children: Some(self.symbol_children(code)),
        }
    }
}

impl VariableDeclarationView {
    /// The symbols of the declared names, in order.
    pub open spec fn symbols(self, code: Seq<u8>) -> Seq<DocumentSymbolView> {
        Seq::new(self.declarations.len(), |i: int| self.declarations[i].symbol(self.kind, code))
    }
}

impl SymbolSiteView {
    /// The symbols that the site gives: one of a tag, one for each name of a
    /// declaration.
    pub open spec fn symbols(self, code: Seq<u8>) -> Seq<DocumentSymbolView> {
        match self {
            SymbolSiteView::Tag(t) => seq![t.symbol(code)],
            SymbolSiteView::Declaration(d) => d.symbols(code),
        }
    }
}

/// The symbols that the sites of a list give, site by site.
pub open spec fn symbols_of(sites: Seq<SymbolSiteView>, code: Seq<u8>) -> Seq<DocumentSymbolView> {
    concat_all(Seq::new(sites.len(), |i: int| sites[i].symbols(code)))
}

impl ProgramView {
    /// The outline of the program: the symbols of all tags and declared names
    /// in it, at any depth, in the order of the text.
    pub open spec fn symbols(self, code: Seq<u8>) -> Seq<DocumentSymbolView> {
        symbols_of(self.sites(), code)
    }
}

impl TagDeclarator {
    /// The symbol of the tag, as the one element of a list.
    pub fn get_lsp_symbols(&self, code: &str) -> (symbols: Vec<DocumentSymbol>)
        ensures
            symbols_view(symbols) == seq![self@.symbol(code.spec_bytes())],
    {
        let range = SourceRange::new(self.start, self.end).to_lsp_range(code);
        let mut symbols: Vec<DocumentSymbol> = Vec::new();
        symbols.push(
            DocumentSymbol {
                name: self.name.clone(),
                detail: None,
                kind: SymbolKind::Constant,
                range,
                selection_range: range,
                children: None,
            },
        );
        assert(symbols_view(symbols) =~= seq![self@.symbol(code.spec_bytes())]);
        symbols
    }
}

impl Parameter {
    /// The symbol of the parameter.
    fn symbol(&self, code: &str) -> (symbol: DocumentSymbol)
        ensures
            symbol@ == self@.symbol(code.spec_bytes()),
    {
        let range = SourceRange::new(self.identifier.start, self.identifier.end).to_lsp_range(code);
        DocumentSymbol {
            name: self.identifier.name.clone(),
            detail: None,
            kind: SymbolKind::Constant,
            range,
            selection_range: range,
            children: None,
        }
    }
}

impl ObjectProperty {
    /// The symbol of the property.
    fn symbol(&self, code: &str) -> (symbol: DocumentSymbol)
        ensures
            symbol@ == self@.symbol(code.spec_bytes()),
    {
        DocumentSymbol {
            name: self.key.name.clone(),
            detail: None,
            kind: SymbolKind::Property,
            range: SourceRange::new(self.start, self.end).to_lsp_range(code),
            selection_range: SourceRange::new(self.key.start, self.key.end).to_lsp_range(code),
            children: None,
        }
    }

    /// The symbol of the property, as the one element of a list.
    pub fn get_lsp_symbols(&self, code: &str) -> (symbols: Vec<DocumentSymbol>)
        ensures
            symbols_view(symbols) == seq![self@.symbol(code.spec_bytes())],
    {
        let mut symbols: Vec<DocumentSymbol> = Vec::new();
        symbols.push(self.symbol(code));
        assert(symbols_view(symbols) =~= seq![self@.symbol(code.spec_bytes())]);
        symbols
    }
}

impl VariableDeclarator {
    /// The symbols inside the symbol of the declared name.
    fn symbol_children(&self, code: &str) -> (children: Vec<DocumentSymbol>)
        ensures
            symbols_view(children) == self@.symbol_children(code.spec_bytes()),
    {
        let mut children: Vec<DocumentSymbol> = Vec::new();
        match &self.init {
            Expr::FunctionExpression(f) => {
                let mut i: usize = 0;
                while i < f.params.len()
                    invariant
                        i <= f.params.len(),
                        children.len() == i,
                        forall|j: int|
                            0 <= j < i ==> (#[trigger] children[j])@ == f@.params[j].symbol(
                                code.spec_bytes(),
                            ),
                    decreases f.params.len() - i,
                {
                    children.push(f.params[i].symbol(code));
                    i += 1;
                }
                assert(symbols_view(children) =~= self@.symbol_children(code.spec_bytes()));
            },
            Expr::ObjectExpression(o) => {
                let mut i: usize = 0;
                while i < o.properties.len()
                    invariant
                        i <= o.properties.len(),
                        children.len() == i,
                        forall|j: int|
                            0 <= j < i ==> (#[trigger] children[j])@ == o@.properties[j].symbol(
                                code.spec_bytes(),
                            ),
                    decreases o.properties.len() - i,
                {
                    children.push(o.properties[i].symbol(code));
                    i += 1;
                }
                assert(symbols_view(children) =~= self@.symbol_children(code.spec_bytes()));
            },
            _ => {
                assert(symbols_view(children) =~= self@.symbol_children(code.spec_bytes()));
            },
        }
        children
    }

    /// The symbol of the declared name, in a declaration of the kind given.
    fn symbol(&self, declared: VariableKind, code: &str) -> (symbol: DocumentSymbol)
        ensures
            symbol@ == self@.symbol(declared, code.spec_bytes()),
    {
        let kind = match &self.init {
            Expr::FunctionExpression(_) => SymbolKind::Function,
            Expr::ObjectExpression(_) => SymbolKind::Object,
            Expr::ArrayExpression(_) => SymbolKind::Array,
            _ => match declared {
                VariableKind::Fn => SymbolKind::Function,
                VariableKind::Const => SymbolKind::Constant,
            },
        };
        let children = self.symbol_children(code);
        let symbol = DocumentSymbol {
            name: self.id.name.clone(),
            detail: Some(declared.to_string()),
            kind,
            range: SourceRange::new(self.start, self.end).to_lsp_range(code),
            selection_range: SourceRange::new(self.id.start, self.id.end).to_lsp_range(code),
            children: Some(children),
        };
        assert(symbol@.children->0 =~= symbols_view(children));
        symbol
    }
}

impl VariableDeclaration {
    /// The symbols of the declared names, in order. A name bound to a function
    /// has the parameters as symbols inside, one bound to an object the
    /// properties; one bound to an array is marked as an array.
    pub fn get_lsp_symbols(&self, code: &str) -> (symbols: Vec<DocumentSymbol>)
        ensures
            symbols_view(symbols) == self@.symbols(code.spec_bytes()),
    {
        let mut symbols: Vec<DocumentSymbol> = Vec::new();
        let mut i: usize = 0;
        while i < self.declarations.len()
            invariant
                i <= self.declarations.len(),
                symbols.len() == i,
                forall|j: int|
                    0 <= j < i ==> (#[trigger] symbols[j])@ == self@.declarations[j].symbol(
                        self.kind,
                        code.spec_bytes(),
                    ),
            decreases self.declarations.len() - i,
        {
            symbols.push(self.declarations[i].symbol(self.kind, code));
            i += 1;
        }
        assert(symbols_view(symbols) =~= self@.symbols(code.spec_bytes()));
        symbols
    }
}

impl Program {
    /// The tags and declarations in the program, at any depth, in the order of
    /// the text.
    pub fn symbol_sites(&self) -> (sites: Vec<SymbolSite<'_>>)
        ensures
            sites_view(sites) == self@.sites(),
    {
        let mut sites: Vec<SymbolSite<'_>> = Vec::new();
        assert(sites_view(sites) =~= Seq::<SymbolSiteView>::empty());
        self.collect_sites(&mut sites);
        assert(sites_view(sites) =~= self@.sites());
        sites
    }

    /// The outline of the program: the symbols of all tags and declared names
    /// in it, at any depth, in the order of the text.
    pub fn get_lsp_symbols(&self, code: &str) -> (symbols: Vec<DocumentSymbol>)
        ensures
            symbols_view(symbols) == self@.symbols(code.spec_bytes()),
    {
        let sites = self.symbol_sites();
        let ghost bytes = code.spec_bytes();
        let ghost parts = |i: int| sites_view(sites)[i].symbols(bytes);
        let mut symbols: Vec<DocumentSymbol> = Vec::new();
        let mut i: usize = 0;
        assert(Seq::new(0, parts) =~= Seq::<Seq<DocumentSymbolView>>::empty());
        assert(symbols_view(symbols) =~= concat_all(Seq::new(0, parts)));
        while i < sites.len()
            invariant
                i <= sites.len(),
                bytes == code.spec_bytes(),
                parts == |i: int| sites_view(sites)[i].symbols(bytes),
                symbols_view(symbols) == concat_all(Seq::new(i as nat, parts)),
            decreases sites.len() - i,
        {
            let ghost before = symbols_view(symbols);
            let mut found = match &sites[i] {
                SymbolSite::Tag(t) => t.get_lsp_symbols(code),
                SymbolSite::Declaration(d) => d.get_lsp_symbols(code),
            };
            let ghost added = symbols_view(found);
            assert(added == sites_view(sites)[i as int].symbols(bytes));
            symbols.append(&mut found);
            proof {
                assert(symbols_view(symbols) =~= before + added);
                assert(Seq::new((i + 1) as nat, parts) =~= Seq::new(i as nat, parts).push(added));
                lemma_concat_all_push(Seq::new(i as nat, parts), added);
            }
            i += 1;
        }
        assert(Seq::new(sites.len() as nat, parts) =~= Seq::new(
            self@.sites().len(),
            |i: int| self@.sites()[i].symbols(bytes),
        ));
        symbols
    }
}

/// The sorts of item that are offered to complete.
#[derive(Debug, Clone, Copy, PartialEq, Eq, Structural)]
pub enum CompletionItemKind {
    Constant,
    Function,
    Reference,
    Keyword,
}

/// What is offered to complete.
#[derive(Debug, PartialEq)]
pub struct CompletionItem {
    /// What is inserted, and shown.
    pub label: String,
    pub kind: Option<CompletionItemKind>,
    /// More about the item: its sort, in words.
    pub detail: Option<String>,
    /// What the item is for.
    pub documentation: Option<String>,
}

/// What a [`CompletionItem`] holds.
pub ghost struct CompletionItemView {
    pub label: Seq<char>,
    pub kind: Option<CompletionItemKind>,
    pub detail: Option<Seq<char>>,
    pub documentation: Option<Seq<char>>,
}

impl CompletionItem {
    /// What the value holds, as the contracts speak of it.
    pub open spec fn view(&self) -> CompletionItemView {
        CompletionItemView {
            label: self.label@,
            kind: self.kind,
            detail: match self.detail {
                Some(d) => Some(d@),
                None => None,
            },
            documentation: match self.documentation {
                Some(d) => Some(d@),
                None => None,
            },
        }
    }
}

/// What a list of items holds.
pub open spec fn items_view(items: Vec<CompletionItem>) -> Seq<CompletionItemView> {
    Seq::new(items.len() as nat, |i: int| items[i]@)
}

impl TagDeclaratorView {
    /// The item that offers the tag: a reference.
    pub open spec fn completion(self) -> CompletionItemView {
        CompletionItemView {
            label: self.name,
            kind: Some(CompletionItemKind::Reference),
            detail: Some("tag (A reference to an entity you previously named)"@),
            documentation: None,
        }
    }
}

impl VariableDeclarationView {
    /// The item that offers the declared name with index `i`: a constant or a
    /// function, as declared.
    pub open spec fn completion(self, i: int) -> CompletionItemView {
        CompletionItemView {
            label: self.declarations[i].id.name,
            kind: Some(
                match self.kind {
                    VariableKind::Const => CompletionItemKind::Constant,
                    VariableKind::Fn => CompletionItemKind::Function,
                },
            ),
            detail: Some(self.kind.name()),
            documentation: None,
        }
    }

    /// The items that offer the declared names, in order.
    pub open spec fn completions(self) -> Seq<CompletionItemView> {
        Seq::new(self.declarations.len(), |i: int| self.completion(i))
    }
}

impl SymbolSiteView {
    /// The items that the site gives: one of a tag, one for each name of a
    /// declaration.
    pub open spec fn completions(self) -> Seq<CompletionItemView> {
        match self {
            SymbolSiteView::Tag(t) => seq![t.completion()],
            SymbolSiteView::Declaration(d) => d.completions(),
        }
    }
}

impl ProgramView {
    /// What the program offers to complete: all tags and declared names in
    /// it, at any depth, in the order of the text.
    pub open spec fn completions(self) -> Seq<CompletionItemView> {
        concat_all(Seq::new(self.sites().len(), |i: int| self.sites()[i].completions()))
    }
}

impl VariableKind {
    /// What the kind is for, in words.
    pub open spec fn description(self) -> Seq<char> {
        match self {
            VariableKind::Const => "Declare a named constant."@,
            VariableKind::Fn => "Declare a function."@,
        }
    }

    /// The item that offers the keyword of the kind.
    pub open spec fn completion(self) -> CompletionItemView {
        CompletionItemView {
            label: self.name(),
            kind: Some(CompletionItemKind::Keyword),
            detail: None,
            documentation: Some(self.description()),
        }
    }

    /// The item that offers the keyword of the kind.
    fn completion_item(&self) -> (item: CompletionItem)
        ensures
            item@ == self.completion(),
    {
        CompletionItem {
            label: self.to_string(),
            kind: Some(CompletionItemKind::Keyword),
            detail: None,
            documentation: Some(
                match self {
                    VariableKind::Const => "Declare a named constant.".to_owned(),
                    VariableKind::Fn => "Declare a function.".to_owned(),
                },
            ),
        }
    }

    /// The keywords that begin a declaration, offered to complete: one item
    /// for each kind.
    pub fn to_completion_items() -> (items: Vec<CompletionItem>)
        ensures
            items_view(items) == seq![
                VariableKind::Const.completion(),
                VariableKind::Fn.completion(),
            ],
    {
        let mut items: Vec<CompletionItem> = Vec::new();
        items.push(VariableKind::Const.completion_item());
        items.push(VariableKind::Fn.completion_item());
        assert(items_view(items) =~= seq![
            VariableKind::Const.completion(),
            VariableKind::Fn.completion(),
        ]);
        items
    }
}

impl TagDeclarator {
    /// The item that offers the tag.
    pub fn completion_item(&self) -> (item: CompletionItem)
        ensures
            item@ == self@.completion(),
    {
        CompletionItem {
            label: self.name.clone(),
            kind: Some(CompletionItemKind::Reference),
            detail: Some("tag (A reference to an entity you previously named)".to_owned()),
            documentation: None,
        }
    }
}

impl VariableDeclaration {
    /// The items that offer the declared names, in order.
    pub fn completion_items(&self) -> (items: Vec<CompletionItem>)
        ensures
            items_view(items) == self@.completions(),
    {
        let mut items: Vec<CompletionItem> = Vec::new();
        let mut i: usize = 0;
        while i < self.declarations.len()
            invariant
                i <= self.declarations.len(),
                items.len() == i,
                forall|j: int| 0 <= j < i ==> (#[trigger] items[j])@ == self@.completion(j),
            decreases self.declarations.len() - i,
        {
            items.push(
                CompletionItem {
                    label: self.declarations[i].id.name.clone(),
                    kind: Some(
                        match self.kind {
                            VariableKind::Const => CompletionItemKind::Constant,
                            VariableKind::Fn => CompletionItemKind::Function,
                        },
                    ),
                    detail: Some(self.kind.to_string()),
                    documentation: None,
                },
            );
            i += 1;
        }
        assert(items_view(items) =~= self@.completions());
        items
    }
}

impl Program {
    /// What the program offers to complete: all tags and declared names in
    /// it, at any depth, in the order of the text.
    pub fn completion_items(&self) -> (items: Vec<CompletionItem>)
        ensures
            items_view(items) == self@.completions(),
    {
        let sites = self.symbol_sites();
        let ghost parts = |i: int| sites_view(sites)[i].completions();
        let mut items: Vec<CompletionItem> = Vec::new();
        let mut i: usize = 0;
        assert(Seq::new(0, parts) =~= Seq::<Seq<CompletionItemView>>::empty());
        assert(items_view(items) =~= concat_all(Seq::new(0, parts)));
        while i < sites.len()
            invariant
                i <= sites.len(),
                parts == |i: int| sites_view(sites)[i].completions(),
                items_view(items) == concat_all(Seq::new(i as nat, parts)),
            decreases sites.len() - i,
        {
            let ghost before = items_view(items);
            let ghost added = sites_view(sites)[i as int].completions();
            match &sites[i] {
                SymbolSite::Tag(t) => {
                    items.push(t.completion_item());
                    assert(items_view(items) =~= before + added);
                },
                SymbolSite::Declaration(d) => {
                    let mut found = d.completion_items();
                    items.append(&mut found);
                    assert(items_view(items) =~= before + added);
                },
            }
            proof {
                assert(Seq::new((i + 1) as nat, parts) =~= Seq::new(i as nat, parts).push(added));
                lemma_concat_all_push(Seq::new(i as nat, parts), added);
            }
            i += 1;
        }
        assert(Seq::new(sites.len() as nat, parts) =~= Seq::new(
            self@.sites().len(),
            |i: int| self@.sites()[i].completions(),
        ));
        items
    }
}

} // verus!
