//! How far the value of an expression is fixed by literals, and how far by
//! references to other values.
//!
//! A literal is not constrained. An identifier, a tag, a member expression, a
//! conditional or an import is fully constrained. A placeholder `%`, a function
//! literal or an empty array, object, call or pipe does not count. A composite
//! expression takes the level that its parts share, those left aside that do
//! not count, and is partially constrained where they do not agree.

use crate::ast::{
    ArrayExpression, ArrayRangeExpression, BinaryExpression, BinaryPart, CallExpression, Expr,
    FunctionExpression, Identifier, IfExpression, ImportStatement, KclNone, Literal,
    MemberExpression, ObjectExpression, ObjectProperty, PipeExpression, PipeSubstitution,
    TagDeclarator, UnaryExpression, VariableDeclarator,
};
use crate::model::{
    ArrayExpressionView, ArrayRangeExpressionView, BinaryExpressionView, BinaryPartView,
    CallExpressionView, ExprView, ObjectExpressionView, PipeExpressionView, UnaryExpressionView,
    VariableDeclaratorView,
};
use crate::range::{copy_ranges, ranges_view, single_range, SourceRange};
use crate::spans::range_of;
use crate::text::{first_index, lemma_first_index_is};
use vstd::prelude::*;

verus! {

/// A constraint level, with the intervals of the text that it is said of.
#[derive(Debug)]
pub enum ConstraintLevel {
    /// Does not count: a placeholder `%`, a function literal, an empty composite.
    Ignore { source_ranges: Vec<SourceRange> },
    /// Not constrained.
    Unconstrained { source_ranges: Vec<SourceRange> },
    /// Partially constrained, with the levels of the parts that do not agree.
    Partial { source_ranges: Vec<SourceRange>, levels: ConstraintLevels },
    /// Fully constrained.
    Full { source_ranges: Vec<SourceRange> },
}

/// A list of constraint levels: those of the parts of a composite expression.
#[derive(Debug)]
pub struct ConstraintLevels(pub Vec<ConstraintLevel>);

/// What a [`ConstraintLevel`] holds.
pub ghost enum ConstraintLevelView {
    Ignore { source_ranges: Seq<(usize, usize)> },
    Unconstrained { source_ranges: Seq<(usize, usize)> },
    Partial { source_ranges: Seq<(usize, usize)>, levels: Seq<ConstraintLevelView> },
    Full { source_ranges: Seq<(usize, usize)> },
}

/// The four levels, without what they are said of.
#[derive(Debug, Clone, Copy, PartialEq, Eq, Structural)]
pub enum ConstraintKind {
    Ignore,
    Unconstrained,
    Partial,
    Full,
}

impl ConstraintLevelView {
    /// Which of the four levels this is.
    pub open spec fn kind(self) -> ConstraintKind {
        match self {
            ConstraintLevelView::Ignore { .. } => ConstraintKind::Ignore,
            ConstraintLevelView::Unconstrained { .. } => ConstraintKind::Unconstrained,
            ConstraintLevelView::Partial { .. } => ConstraintKind::Partial,
            ConstraintLevelView::Full { .. } => ConstraintKind::Full,
        }
    }

    /// The intervals that the level is said of.
    pub open spec fn source_ranges(self) -> Seq<(usize, usize)> {
        match self {
            ConstraintLevelView::Ignore { source_ranges } => source_ranges,
            ConstraintLevelView::Unconstrained { source_ranges } => source_ranges,
            ConstraintLevelView::Partial { source_ranges, .. } => source_ranges,
            ConstraintLevelView::Full { source_ranges } => source_ranges,
        }
    }

    /// The same level, said of the one interval given.
    pub open spec fn at(self, range: (usize, usize)) -> ConstraintLevelView {
        match self {
            ConstraintLevelView::Ignore { .. } => ConstraintLevelView::Ignore {
                source_ranges: seq![range],
            },
            ConstraintLevelView::Unconstrained { .. } => ConstraintLevelView::Unconstrained {
                source_ranges: seq![range],
            },
            ConstraintLevelView::Partial { levels, .. } => ConstraintLevelView::Partial {
                source_ranges: seq![range],
                levels,
            },
            ConstraintLevelView::Full { .. } => ConstraintLevelView::Full { source_ranges: seq![range] },
        }
    }

    /// The intervals of what is fully constrained in this level: its own
    /// where it is `Full`, those found in its parts where it is `Partial`.
    pub open spec fn constrained_ranges(self) -> Seq<(usize, usize)>
        decreases self,
    {
        match self {
            ConstraintLevelView::Partial { levels, .. } => constrained_ranges_of(levels),
            ConstraintLevelView::Full { source_ranges } => source_ranges,
            _ => Seq::empty(),
        }
    }
}

/// The intervals of what is fully constrained in a list of levels, in order.
pub open spec fn constrained_ranges_of(levels: Seq<ConstraintLevelView>) -> Seq<(usize, usize)>
    decreases levels,
{
    if levels.len() == 0 {
        Seq::empty()
    } else {
        constrained_ranges_of(levels.drop_last()) + levels.last().constrained_ranges()
    }
}

/// Whether every level of the list either does not count or is of the kind given.
pub open spec fn all_of_kind(levels: Seq<ConstraintLevelView>, kind: ConstraintKind) -> bool {
    forall|i: int|
        0 <= i < levels.len() ==> (#[trigger] levels[i]).kind() == ConstraintKind::Ignore
            || levels[i].kind() == kind
}

/// The level of a composite expression at `range` whose parts have the levels
/// given.
///
/// Without parts it does not count. Where its parts that count are all of one
/// kind, it has the level of the first of them; where none counts, that of its
/// first part. Else it is partially constrained, and records the levels of all
/// its parts.
pub open spec fn reduced(levels: Seq<ConstraintLevelView>, range: (usize, usize)) -> ConstraintLevelView {
    if levels.len() == 0 {
        ConstraintLevelView::Ignore { source_ranges: seq![range] }
    } else {
        let k = first_index(
            levels,
            |l: ConstraintLevelView| l.kind() != ConstraintKind::Ignore,
        );
        if k == levels.len() {
            levels[0]
        } else if all_of_kind(levels, levels[k].kind()) {
            levels[k]
        } else {
            ConstraintLevelView::Partial { source_ranges: seq![range], levels }
        }
    }
}

impl ConstraintLevel {
    /// What the value holds, as the contracts speak of it.
    pub open spec fn view(&self) -> ConstraintLevelView
        decreases self,
    {
        match self {
            ConstraintLevel::Ignore { source_ranges } => ConstraintLevelView::Ignore {
                source_ranges: ranges_view(*source_ranges),
            },
            ConstraintLevel::Unconstrained { source_ranges } => ConstraintLevelView::Unconstrained {
                source_ranges: ranges_view(*source_ranges),
            },
            ConstraintLevel::Partial { source_ranges, levels } => ConstraintLevelView::Partial {
                source_ranges: ranges_view(*source_ranges),
                levels: levels@,
            },
            ConstraintLevel::Full { source_ranges } => ConstraintLevelView::Full {
                source_ranges: ranges_view(*source_ranges),
            },
        }
    }

    /// Which of the four levels this is.
    pub fn kind(&self) -> (kind: ConstraintKind)
        ensures
            kind == self@.kind(),
    {
        match self {
            ConstraintLevel::Ignore { .. } => ConstraintKind::Ignore,
            ConstraintLevel::Unconstrained { .. } => ConstraintKind::Unconstrained,
            ConstraintLevel::Partial { .. } => ConstraintKind::Partial,
            ConstraintLevel::Full { .. } => ConstraintKind::Full,
        }
    }

    /// A copy that holds what `self` holds.
    pub fn duplicate(&self) -> (copy: Self)
        ensures
            copy@ == self@,
        decreases self,
    {
        match self {
            ConstraintLevel::Ignore { source_ranges } => ConstraintLevel::Ignore {
                source_ranges: copy_ranges(source_ranges),
            },
            ConstraintLevel::Unconstrained { source_ranges } => ConstraintLevel::Unconstrained {
                source_ranges: copy_ranges(source_ranges),
            },
            ConstraintLevel::Partial { source_ranges, levels } => ConstraintLevel::Partial {
                source_ranges: copy_ranges(source_ranges),
                levels: levels.duplicate(),
            },
            ConstraintLevel::Full { source_ranges } => ConstraintLevel::Full {
                source_ranges: copy_ranges(source_ranges),
            },
        }
    }

    /// The intervals that the level is said of.
    pub fn source_ranges(&self) -> (ranges: Vec<SourceRange>)
        ensures
            ranges_view(ranges) == self@.source_ranges(),
    {
        match self {
            ConstraintLevel::Ignore { source_ranges } => copy_ranges(source_ranges),
            ConstraintLevel::Unconstrained { source_ranges } => copy_ranges(source_ranges),
            ConstraintLevel::Partial { source_ranges, .. } => copy_ranges(source_ranges),
            ConstraintLevel::Full { source_ranges } => copy_ranges(source_ranges),
        }
    }

    /// The same level, said of the one interval given.
    pub fn update_source_ranges(&self, source_range: SourceRange) -> (level: Self)
        ensures
            level@ == self@.at(source_range@),
    {
        match self {
            ConstraintLevel::Ignore { .. } => ConstraintLevel::Ignore {
                source_ranges: single_range(source_range),
            },
            ConstraintLevel::Unconstrained { .. } => ConstraintLevel::Unconstrained {
                source_ranges: single_range(source_range),
            },
            ConstraintLevel::Partial { levels, .. } => ConstraintLevel::Partial {
                source_ranges: single_range(source_range),
                levels: levels.duplicate(),
            },
            ConstraintLevel::Full { .. } => ConstraintLevel::Full {
                source_ranges: single_range(source_range),
            },
        }
    }

    /// The name of the level.
    pub fn to_string(&self) -> (name: String)
        ensures
            name@ == match self@.kind() {
                ConstraintKind::Ignore => "ignore"@,
                ConstraintKind::Unconstrained => "none"@,
                ConstraintKind::Partial => "partial"@,
                ConstraintKind::Full => "full"@,
            },
    {
        match self {
            ConstraintLevel::Ignore { .. } => "ignore".to_owned(),
            ConstraintLevel::Unconstrained { .. } => "none".to_owned(),
            ConstraintLevel::Partial { .. } => "partial".to_owned(),
            ConstraintLevel::Full { .. } => "full".to_owned(),
        }
    }
}

impl Clone for ConstraintLevel {
    fn clone(&self) -> (copy: Self)
        ensures
            copy@ == self@,
    {
        self.duplicate()
    }
}

impl PartialEq for ConstraintLevel {
    /// Two levels are equal where they are of the same kind, whatever they are
    /// said of.
    fn eq(&self, other: &Self) -> (same: bool) {
        self.kind() == other.kind()
    }
}

impl vstd::std_specs::cmp::PartialEqSpecImpl for ConstraintLevel {
    open spec fn obeys_eq_spec() -> bool {
        true
    }

    open spec fn eq_spec(&self, other: &Self) -> bool {
        self@.kind() == other@.kind()
    }
}

impl ConstraintLevels {
    /// What the value holds, as the contracts speak of it.
    pub open spec fn view(&self) -> Seq<ConstraintLevelView>
        decreases self,
    {
        Seq::new(
            self.0.len() as nat,
            |i: int|
                if 0 <= i < self.0.len() {
                    self.0[i]@
                } else {
                    arbitrary()
                },
        )
    }

    /// The empty list.
    pub fn new() -> (levels: Self)
        ensures
            levels@ == Seq::<ConstraintLevelView>::empty(),
    {
        let levels = ConstraintLevels(Vec::new());
        assert(levels@ =~= Seq::<ConstraintLevelView>::empty());
        levels
    }

    /// Adds a level at the end.
    pub fn push(&mut self, constraint_level: ConstraintLevel)
        ensures
            final(self)@ == old(self)@.push(constraint_level@),
    {
        self.0.push(constraint_level);
        assert(self@ =~= old(self)@.push(constraint_level@));
    }

    /// A copy that holds what `self` holds.
    pub fn duplicate(&self) -> (copy: Self)
        ensures
            copy@ == self@,
        decreases self,
    {
        let mut levels: Vec<ConstraintLevel> = Vec::new();
        let mut i: usize = 0;
        while i < self.0.len()
            invariant
                i <= self.0.len(),
                levels.len() == i,
                forall|j: int| 0 <= j < i ==> (#[trigger] levels[j])@ == self.0[j]@,
            decreases self.0.len() - i,
        {
            levels.push(self.0[i].duplicate());
            i += 1;
        }
        let copy = ConstraintLevels(levels);
        assert(copy@ =~= self@);
        copy
    }

    /// The level of a composite expression at `source_range` whose parts have
    /// these levels.
    pub fn get_constraint_level(&self, source_range: SourceRange) -> (level: ConstraintLevel)
        ensures
            level@ == reduced(self@, source_range@),
    {
        if self.0.len() == 0 {
            return ConstraintLevel::Ignore { source_ranges: single_range(source_range) };
        }
        let ghost counts = |l: ConstraintLevelView| l.kind() != ConstraintKind::Ignore;
        let mut k: usize = 0;
        while k < self.0.len() && self.0[k].kind() == ConstraintKind::Ignore
            invariant
                k <= self.0.len(),
                counts == |l: ConstraintLevelView| l.kind() != ConstraintKind::Ignore,
                forall|j: int| 0 <= j < k ==> !counts(#[trigger] self@[j]),
            decreases self.0.len() - k,
        {
            assert(!counts(self@[k as int]));
            k += 1;
        }
        proof {
            if k < self.0.len() {
                assert(counts(self@[k as int]));
            }
            lemma_first_index_is(self@, counts, k as int);
        }
        if k == self.0.len() {
            return self.0[0].duplicate();
        }
        let kind = self.0[k].kind();
        let mut i: usize = 0;
        let mut agree = true;
        while i < self.0.len() && agree
            invariant
                i <= self.0.len(),
                agree ==> forall|j: int|
                    0 <= j < i ==> (#[trigger] self@[j]).kind() == ConstraintKind::Ignore
                        || self@[j].kind() == kind,
                !agree ==> !all_of_kind(self@, kind),
            decreases self.0.len() - i,
        {
            let here = self.0[i].kind();
            if !(here == ConstraintKind::Ignore || here == kind) {
                agree = false;
                assert(self@[i as int].kind() == here);
            }
            i += 1;
        }
        if agree {
            self.0[k].duplicate()
        } else {
            ConstraintLevel::Partial {
                source_ranges: single_range(source_range),
                levels: self.duplicate(),
            }
        }
    }

    /// The intervals of what is fully constrained among these levels, in order.
    pub fn get_all_partial_or_full_source_ranges(&self) -> (ranges: Vec<SourceRange>)
        ensures
            ranges_view(ranges) == constrained_ranges_of(self@),
        decreases self,
    {
        let mut ranges: Vec<SourceRange> = Vec::new();
        let mut i: usize = 0;
        assert(self@.take(0) =~= Seq::<ConstraintLevelView>::empty());
        assert(ranges_view(ranges) =~= constrained_ranges_of(self@.take(0)));
        while i < self.0.len()
            invariant
                i <= self.0.len(),
                ranges_view(ranges) == constrained_ranges_of(self@.take(i as int)),
            decreases self.0.len() - i,
        {
            let ghost before = ranges_view(ranges);
            let ghost here = self.0[i as int]@;
            match &self.0[i] {
                ConstraintLevel::Partial { levels, .. } => {
                    let mut inner = levels.get_all_partial_or_full_source_ranges();
                    assert(ranges_view(inner) == here.constrained_ranges());
                    ranges.append(&mut inner);
                },
                ConstraintLevel::Full { source_ranges } => {
                    let mut own = copy_ranges(source_ranges);
                    assert(ranges_view(own) == here.constrained_ranges());
                    ranges.append(&mut own);
                },
                _ => {
                    assert(here.constrained_ranges() == Seq::<(usize, usize)>::empty());
                },
            }
            proof {
                assert(ranges_view(ranges) =~= before + here.constrained_ranges());
                let next = self@.take(i + 1);
                assert(next.drop_last() =~= self@.take(i as int));
                assert(next.last() == here);
                assert(constrained_ranges_of(next) == constrained_ranges_of(next.drop_last())
                    + next.last().constrained_ranges());
            }
            i += 1;
        }
        assert(self@.take(i as int) =~= self@);
        ranges
    }
}

impl Clone for ConstraintLevels {
    fn clone(&self) -> (copy: Self)
        ensures
            copy@ == self@,
    {
        self.duplicate()
    }
}

impl Default for ConstraintLevels {
    fn default() -> (levels: Self)
        ensures
            levels@ == Seq::<ConstraintLevelView>::empty(),
    {
        ConstraintLevels::new()
    }
}

/// The level "does not count", said of the interval from `start` to `end`.
pub open spec fn ignore_at(start: usize, end: usize) -> ConstraintLevelView {
    ConstraintLevelView::Ignore { source_ranges: seq![(start, end)] }
}

/// The level "not constrained", said of the interval from `start` to `end`.
pub open spec fn unconstrained_at(start: usize, end: usize) -> ConstraintLevelView {
    ConstraintLevelView::Unconstrained { source_ranges: seq![(start, end)] }
}

/// The level "fully constrained", said of the interval from `start` to `end`.
pub open spec fn full_at(start: usize, end: usize) -> ConstraintLevelView {
    ConstraintLevelView::Full { source_ranges: seq![(start, end)] }
}

impl ExprView {
    /// The constraint level of the expression.
    pub open spec fn constraint_level(self) -> ConstraintLevelView
        decreases self,
    {
        match self {
            ExprView::Literal(x) => unconstrained_at(x.start, x.end),
            ExprView::Identifier(x) => full_at(x.start, x.end),
            ExprView::TagDeclarator(x) => full_at(x.start, x.end),
            ExprView::BinaryExpression(x) => x.constraint_level(),
            ExprView::FunctionExpression(x) => ignore_at(x.start, x.end),
            ExprView::CallExpression(x) => x.constraint_level(),
            ExprView::PipeExpression(x) => x.constraint_level(),
            ExprView::PipeSubstitution(x) => ignore_at(x.start, x.end),
            ExprView::ArrayExpression(x) => x.constraint_level(),
            ExprView::ArrayRangeExpression(x) => x.constraint_level(),
            ExprView::ObjectExpression(x) => x.constraint_level(),
            ExprView::MemberExpression(x) => full_at(x.start, x.end),
            ExprView::UnaryExpression(x) => x.constraint_level(),
            ExprView::IfExpression(x) => full_at(x.start, x.end),
            ExprView::KclNone(x) => unconstrained_at(x.start, x.end),
        }
    }
}

impl BinaryPartView {
    /// The constraint level of the operand.
    pub open spec fn constraint_level(self) -> ConstraintLevelView
        decreases self,
    {
        match self {
            BinaryPartView::Literal(x) => unconstrained_at(x.start, x.end),
            BinaryPartView::Identifier(x) => full_at(x.start, x.end),
            BinaryPartView::BinaryExpression(x) => x.constraint_level(),
            BinaryPartView::CallExpression(x) => x.constraint_level(),
            BinaryPartView::UnaryExpression(x) => x.constraint_level(),
            BinaryPartView::MemberExpression(x) => full_at(x.start, x.end),
            BinaryPartView::IfExpression(x) => full_at(x.start, x.end),
        }
    }
}

impl BinaryExpressionView {
    /// The level that the two operands reduce to.
    pub open spec fn constraint_level(self) -> ConstraintLevelView
        decreases self,
    {
        reduced(
            seq![self.left.constraint_level(), self.right.constraint_level()],
            (self.start, self.end),
        )
    }
}

impl UnaryExpressionView {
    /// The level of the operand.
    pub open spec fn constraint_level(self) -> ConstraintLevelView
        decreases self,
    {
        self.argument.constraint_level()
    }
}

impl CallExpressionView {
    /// The levels of the arguments, in order.
    pub open spec fn part_levels(self) -> Seq<ConstraintLevelView>
        decreases self, 0nat,
    {
        Seq::new(
            self.arguments.len(),
            |i: int|
                if 0 <= i < self.arguments.len() {
                    self.arguments[i].constraint_level()
                } else {
                    arbitrary()
                },
        )
    }

    /// The level that the arguments reduce to.
    pub open spec fn constraint_level(self) -> ConstraintLevelView
        decreases self, 1nat,
    {
        reduced(self.part_levels(), (self.start, self.end))
    }
}

impl PipeExpressionView {
    /// The levels of the stages, in order.
    pub open spec fn part_levels(self) -> Seq<ConstraintLevelView>
        decreases self, 0nat,
    {
        Seq::new(
            self.body.len(),
            |i: int|
                if 0 <= i < self.body.len() {
                    self.body[i].constraint_level()
                } else {
                    arbitrary()
                },
        )
    }

    /// The level that the stages reduce to.
    pub open spec fn constraint_level(self) -> ConstraintLevelView
        decreases self, 1nat,
    {
        reduced(self.part_levels(), (self.start, self.end))
    }
}

impl ArrayExpressionView {
    /// The levels of the elements, in order.
    pub open spec fn part_levels(self) -> Seq<ConstraintLevelView>
        decreases self, 0nat,
    {
        Seq::new(
            self.elements.len(),
            |i: int|
                if 0 <= i < self.elements.len() {
                    self.elements[i].constraint_level()
                } else {
                    arbitrary()
                },
        )
    }

    /// The level that the elements reduce to.
    pub open spec fn constraint_level(self) -> ConstraintLevelView
        decreases self, 1nat,
    {
        reduced(self.part_levels(), (self.start, self.end))
    }
}

impl ArrayRangeExpressionView {
    /// The level that the two ends reduce to.
    pub open spec fn constraint_level(self) -> ConstraintLevelView
        decreases self,
    {
        reduced(
            seq![self.start_element.constraint_level(), self.end_element.constraint_level()],
            (self.start, self.end),
        )
    }
}

impl ObjectExpressionView {
    /// The levels of the values of the properties, in order.
    pub open spec fn part_levels(self) -> Seq<ConstraintLevelView>
        decreases self, 0nat,
    {
        Seq::new(
            self.properties.len(),
            |i: int|
                if 0 <= i < self.properties.len() {
                    self.properties[i].value.constraint_level()
                } else {
                    arbitrary()
                },
        )
    }

    /// The level that the values of the properties reduce to.
    pub open spec fn constraint_level(self) -> ConstraintLevelView
        decreases self, 1nat,
    {
        reduced(self.part_levels(), (self.start, self.end))
    }
}

impl VariableDeclaratorView {
    /// The level of the initial value.
    pub open spec fn constraint_level(self) -> ConstraintLevelView {
        self.init.constraint_level()
    }
}

/// The levels of the expressions of a list.
fn levels_of_exprs(items: &Vec<Expr>) -> (levels: ConstraintLevels)
    ensures
        levels@.len() == items.len(),
        forall|i: int| 0 <= i < items.len() ==> #[trigger] levels@[i] == items[i]@.constraint_level(),
    decreases items,
{
    let mut levels = ConstraintLevels::new();
    let mut i: usize = 0;
    while i < items.len()
        invariant
            i <= items.len(),
            levels@.len() == i,
            forall|j: int| 0 <= j < i ==> #[trigger] levels@[j] == items[j]@.constraint_level(),
        decreases items.len() - i,
    {
        levels.push(items[i].get_constraint_level());
        i += 1;
    }
    levels
}

/// The levels of the values of the properties of a list.
fn levels_of_properties(items: &Vec<ObjectProperty>) -> (levels: ConstraintLevels)
    ensures
        levels@.len() == items.len(),
        forall|i: int|
            0 <= i < items.len() ==> #[trigger] levels@[i] == items[i]@.value.constraint_level(),
    decreases items,
{
    let mut levels = ConstraintLevels::new();
    let mut i: usize = 0;
    while i < items.len()
        invariant
            i <= items.len(),
            levels@.len() == i,
            forall|j: int|
                0 <= j < i ==> #[trigger] levels@[j] == items[j]@.value.constraint_level(),
        decreases items.len() - i,
    {
        levels.push(items[i].value.get_constraint_level());
        i += 1;
    }
    levels
}

impl Expr {
    /// The constraint level of the expression.
    pub fn get_constraint_level(&self) -> (level: ConstraintLevel)
        ensures
            level@ == self@.constraint_level(),
        decreases self,
    {
        match self {
            Expr::Literal(x) => x.get_constraint_level(),
            Expr::Identifier(x) => x.get_constraint_level(),
            Expr::TagDeclarator(x) => x.get_constraint_level(),
            Expr::BinaryExpression(x) => x.get_constraint_level(),
            Expr::FunctionExpression(x) => x.get_constraint_level(),
            Expr::CallExpression(x) => x.get_constraint_level(),
            Expr::PipeExpression(x) => x.get_constraint_level(),
            Expr::PipeSubstitution(x) => ConstraintLevel::Ignore {
                source_ranges: single_range(SourceRange::new(x.start, x.end)),
            },
            Expr::ArrayExpression(x) => x.get_constraint_level(),
            Expr::ArrayRangeExpression(x) => x.get_constraint_level(),
            Expr::ObjectExpression(x) => x.get_constraint_level(),
            Expr::MemberExpression(x) => x.get_constraint_level(),
            Expr::UnaryExpression(x) => x.get_constraint_level(),
            Expr::IfExpression(x) => x.get_constraint_level(),
            Expr::KclNone(x) => x.get_constraint_level(),
        }
    }
}

impl BinaryPart {
    /// The constraint level of the operand.
    pub fn get_constraint_level(&self) -> (level: ConstraintLevel)
        ensures
            level@ == self@.constraint_level(),
        decreases self,
    {
        match self {
            BinaryPart::Literal(x) => x.get_constraint_level(),
            BinaryPart::Identifier(x) => x.get_constraint_level(),
            BinaryPart::BinaryExpression(x) => x.get_constraint_level(),
            BinaryPart::CallExpression(x) => x.get_constraint_level(),
            BinaryPart::UnaryExpression(x) => x.get_constraint_level(),
            BinaryPart::MemberExpression(x) => x.get_constraint_level(),
            BinaryPart::IfExpression(x) => x.get_constraint_level(),
        }
    }
}

impl Literal {
    /// A literal is not constrained.
    pub fn get_constraint_level(&self) -> (level: ConstraintLevel)
        ensures
            level@ == unconstrained_at(self.start, self.end),
    {
        ConstraintLevel::Unconstrained { source_ranges: single_range(range_of(self)) }
    }
}

impl KclNone {
    /// The absence of a value is not constrained.
    pub fn get_constraint_level(&self) -> (level: ConstraintLevel)
        ensures
            level@ == unconstrained_at(self.start, self.end),
    {
        ConstraintLevel::Unconstrained { source_ranges: single_range(self.source_range()) }
    }
}

impl Identifier {
    /// An identifier is fully constrained.
    pub fn get_constraint_level(&self) -> (level: ConstraintLevel)
        ensures
            level@ == full_at(self.start, self.end),
    {
        ConstraintLevel::Full { source_ranges: single_range(range_of(self)) }
    }
}

impl TagDeclarator {
    /// A tag is fully constrained.
    pub fn get_constraint_level(&self) -> (level: ConstraintLevel)
        ensures
            level@ == full_at(self.start, self.end),
    {
        ConstraintLevel::Full { source_ranges: single_range(range_of(self)) }
    }
}

impl MemberExpression {
    /// A member expression is fully constrained.
    pub fn get_constraint_level(&self) -> (level: ConstraintLevel)
        ensures
            level@ == full_at(self.start, self.end),
    {
        ConstraintLevel::Full { source_ranges: single_range(range_of(self)) }
    }
}

impl IfExpression {
    /// A conditional is fully constrained.
    pub fn get_constraint_level(&self) -> (level: ConstraintLevel)
        ensures
            level@ == full_at(self.start, self.end),
    {
        ConstraintLevel::Full { source_ranges: single_range(range_of(self)) }
    }
}

impl ImportStatement {
    /// An import is fully constrained.
    pub fn get_constraint_level(&self) -> (level: ConstraintLevel)
        ensures
            level@ == full_at(self.start, self.end),
    {
        ConstraintLevel::Full { source_ranges: single_range(range_of(self)) }
    }
}

impl FunctionExpression {
    /// A function literal does not count.
    pub fn get_constraint_level(&self) -> (level: ConstraintLevel)
        ensures
            level@ == ignore_at(self.start, self.end),
    {
        ConstraintLevel::Ignore { source_ranges: single_range(range_of(self)) }
    }
}

impl BinaryExpression {
    /// The level that the two operands reduce to.
    pub fn get_constraint_level(&self) -> (level: ConstraintLevel)
        ensures
            level@ == self@.constraint_level(),
        decreases self,
    {
        let mut levels = ConstraintLevels::new();
        levels.push(self.left.get_constraint_level());
        levels.push(self.right.get_constraint_level());
        assert(levels@ =~= seq![self@.left.constraint_level(), self@.right.constraint_level()]);
        levels.get_constraint_level(range_of(self))
    }
}

impl UnaryExpression {
    /// The level of the operand.
    pub fn get_constraint_level(&self) -> (level: ConstraintLevel)
        ensures
            level@ == self@.constraint_level(),
        decreases self,
    {
        self.argument.get_constraint_level()
    }
}

impl CallExpression {
    /// The level that the arguments reduce to. A call without arguments does
    /// not count.
    pub fn get_constraint_level(&self) -> (level: ConstraintLevel)
        ensures
            level@ == self@.constraint_level(),
            self.arguments.len() == 0 ==> level@ == ignore_at(self.start, self.end),
        decreases self,
    {
        let levels = levels_of_exprs(&self.arguments);
        assert(levels@ =~= self@.part_levels());
        levels.get_constraint_level(range_of(self))
    }
}

impl PipeExpression {
    /// The level that the stages reduce to. A pipe without stages does not
    /// count.
    pub fn get_constraint_level(&self) -> (level: ConstraintLevel)
        ensures
            level@ == self@.constraint_level(),
            self.body.len() == 0 ==> level@ == ignore_at(self.start, self.end),
        decreases self,
    {
        let levels = levels_of_exprs(&self.body);
        assert(levels@ =~= self@.part_levels());
        levels.get_constraint_level(range_of(self))
    }
}

impl ArrayExpression {
    /// The level that the elements reduce to. An empty array does not count.
    pub fn get_constraint_level(&self) -> (level: ConstraintLevel)
        ensures
            level@ == self@.constraint_level(),
            self.elements.len() == 0 ==> level@ == ignore_at(self.start, self.end),
        decreases self,
    {
        let levels = levels_of_exprs(&self.elements);
        assert(levels@ =~= self@.part_levels());
        levels.get_constraint_level(range_of(self))
    }
}

impl ArrayRangeExpression {
    /// The level that the two ends reduce to.
    pub fn get_constraint_level(&self) -> (level: ConstraintLevel)
        ensures
            level@ == self@.constraint_level(),
        decreases self,
    {
        let mut levels = ConstraintLevels::new();
        levels.push(self.start_element.get_constraint_level());
        levels.push(self.end_element.get_constraint_level());
        assert(levels@ =~= seq![
            self@.start_element.constraint_level(),
            self@.end_element.constraint_level(),
        ]);
        levels.get_constraint_level(range_of(self))
    }
}

impl ObjectExpression {
    /// The level that the values of the properties reduce to. An empty object
    /// does not count.
    pub fn get_constraint_level(&self) -> (level: ConstraintLevel)
        ensures
            level@ == self@.constraint_level(),
            self.properties.len() == 0 ==> level@ == ignore_at(self.start, self.end),
        decreases self,
    {
        let levels = levels_of_properties(&self.properties);
        assert(levels@ =~= self@.part_levels());
        levels.get_constraint_level(range_of(self))
    }
}

impl VariableDeclarator {
    /// The level of the initial value.
    pub fn get_constraint_level(&self) -> (level: ConstraintLevel)
        ensures
            level@ == self@.constraint_level(),
    {
        self.init.get_constraint_level()
    }
}

} // verus!
