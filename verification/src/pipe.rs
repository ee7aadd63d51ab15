//! How a pipe is evaluated, stage by stage.
//!
//! The tree does not evaluate anything. It tells whoever does which stage is
//! next and what the placeholder `%` stands for in it, and is told how the
//! stage went. The stages are evaluated one at a time, in order; the value of
//! the last is the value of the pipe; the first that fails ends the pipe.

use crate::ast::{CallExpression, Expr, PipeExpression};
use crate::model::{CallExpressionView, ExprView, PipeExpressionView};
use crate::range::{ranges_view, single_range, SourceRange};
use crate::spans::range_of;
use crate::text::{first_index, lemma_first_index};
use vstd::prelude::*;

verus! {

/// How far the evaluation of a pipe has come.
#[derive(Debug, Clone, Copy, PartialEq, Eq, Structural)]
pub enum PipeState {
    /// Nothing has been evaluated yet.
    Start,
    /// The stage with this index is being evaluated.
    Evaluating { stage: usize },
    /// The pipe has its value, or has failed.
    Finished,
}

/// What the evaluator tells of the stage that it was to evaluate.
#[derive(Debug, Clone, Copy, PartialEq, Eq, Structural)]
pub enum PipeEvent {
    /// The evaluation of the pipe begins.
    Begin,
    /// The stage has a value.
    Succeeded,
    /// The stage has failed.
    Failed,
}

/// What the evaluator is to do next.
#[derive(Debug, PartialEq)]
pub enum PipeAction {
    /// Evaluate the stage with index `stage`, which stands at `source_range`.
    /// In it `%` stands for the value of the stage with index `previous`; in
    /// the first stage, which has no stage before it, for what it stood for
    /// outside the pipe. `sites` tells of each argument of the stage whether
    /// it is the placeholder.
    Evaluate { stage: usize, source_range: SourceRange, previous: Option<usize>, sites: Vec<bool> },
    /// The value of the pipe is that of the stage with index `stage`.
    Return { stage: usize },
    /// The pipe has failed: the stage with index `failed`, at `source_range`,
    /// has failed, or the pipe has no stage at all and stands at
    /// `source_range`.
    Fail { failed: Option<usize>, source_range: SourceRange },
    /// The event does not fit the state. Nothing is to be done.
    Rejected,
}

/// What a [`PipeAction`] holds.
pub ghost enum PipeActionView {
    Evaluate { stage: usize, source_range: (usize, usize), previous: Option<usize>, sites: Seq<bool> },
    Return { stage: usize },
    Fail { failed: Option<usize>, source_range: (usize, usize) },
    Rejected,
}

impl PipeAction {
    /// What the value holds, as the contracts speak of it.
    pub open spec fn view(&self) -> PipeActionView {
        match self {
            PipeAction::Evaluate { stage, source_range, previous, sites } => PipeActionView::Evaluate {
                stage: *stage,
                source_range: source_range@,
                previous: *previous,
                sites: sites@,
            },
            PipeAction::Return { stage } => PipeActionView::Return { stage: *stage },
            PipeAction::Fail { failed, source_range } => PipeActionView::Fail {
                failed: *failed,
                source_range: source_range@,
            },
            PipeAction::Rejected => PipeActionView::Rejected,
        }
    }
}

impl CallExpressionView {
    /// Of each argument, whether it is the placeholder `%`.
    pub open spec fn substitution_sites(self) -> Seq<bool> {
        Seq::new(self.arguments.len(), |i: int| self.arguments[i] is PipeSubstitution)
    }
}

impl ExprView {
    /// Of each argument of a call, whether it is the placeholder `%`. Empty for
    /// what is no call.
    pub open spec fn substitution_sites(self) -> Seq<bool> {
        match self {
            ExprView::CallExpression(call) => call.substitution_sites(),
            _ => Seq::empty(),
        }
    }
}

impl PipeExpressionView {
    /// The action that has the stage with index `stage` evaluated.
    pub open spec fn evaluate(self, stage: int) -> PipeActionView {
        PipeActionView::Evaluate {
            stage: stage as usize,
            source_range: (self.body[stage].start(), self.body[stage].end()),
            previous: if stage == 0 {
                None
            } else {
                Some((stage - 1) as usize)
            },
            sites: self.body[stage].substitution_sites(),
        }
    }

    /// The state that follows `state` on `event`, and what is to be done.
    ///
    /// At the start the first stage is evaluated; a pipe without stages fails.
    /// When a stage has succeeded the next one is evaluated, with the value of
    /// that stage for `%`; after the last, its value is the value of the pipe.
    /// When a stage has failed the pipe has failed, at that stage. An event
    /// that does not fit the state changes nothing.
    pub open spec fn step(self, state: PipeState, event: PipeEvent) -> (PipeState, PipeActionView) {
        match (state, event) {
            (PipeState::Start, PipeEvent::Begin) => if self.body.len() == 0 {
                (
                    PipeState::Finished,
                    PipeActionView::Fail { failed: None, source_range: (self.start, self.end) },
                )
            } else {
                (PipeState::Evaluating { stage: 0 }, self.evaluate(0))
            },
            (PipeState::Evaluating { stage }, PipeEvent::Succeeded) => if stage >= self.body.len() {
                (state, PipeActionView::Rejected)
            } else if stage + 1 < self.body.len() {
                (PipeState::Evaluating { stage: (stage + 1) as usize }, self.evaluate(stage + 1))
            } else {
                (PipeState::Finished, PipeActionView::Return { stage })
            },
            (PipeState::Evaluating { stage }, PipeEvent::Failed) => if stage >= self.body.len() {
                (state, PipeActionView::Rejected)
            } else {
                (
                    PipeState::Finished,
                    PipeActionView::Fail {
                        failed: Some(stage),
                        source_range: (self.body[stage as int].start(), self.body[stage as int].end()),
                    },
                )
            },
            _ => (state, PipeActionView::Rejected),
        }
    }

    /// What is done, action by action, while the pipe is evaluated from `state`
    /// on for at most `steps` steps, where the stage with index `i` succeeds
    /// if `outcomes[i]` and fails if not.
    pub open spec fn run(self, state: PipeState, outcomes: Seq<bool>, steps: nat) -> Seq<
        PipeActionView,
    >
        decreases steps,
    {
        if steps == 0 {
            Seq::empty()
        } else {
            match state {
                PipeState::Start => {
                    let next = self.step(state, PipeEvent::Begin);
                    seq![next.1] + self.run(next.0, outcomes, (steps - 1) as nat)
                },
                PipeState::Evaluating { stage } => {
                    let event = if 0 <= stage < outcomes.len() && outcomes[stage as int] {
                        PipeEvent::Succeeded
                    } else {
                        PipeEvent::Failed
                    };
                    let next = self.step(state, event);
                    seq![next.1] + self.run(next.0, outcomes, (steps - 1) as nat)
                },
                PipeState::Finished => Seq::empty(),
            }
        }
    }
}

impl CallExpression {
    /// Whether at least one argument is the placeholder `%`.
    pub fn has_substitution_arg(&self) -> (has: bool)
        ensures
            has == exists|i: int|
                0 <= i < self.arguments.len() && #[trigger] self@.arguments[i] is PipeSubstitution,
    {
        let mut i: usize = 0;
        while i < self.arguments.len()
            invariant
                i <= self.arguments.len(),
                forall|j: int| 0 <= j < i ==> !(#[trigger] self@.arguments[j] is PipeSubstitution),
            decreases self.arguments.len() - i,
        {
            match &self.arguments[i] {
                Expr::PipeSubstitution(_) => {
                    assert(self@.arguments[i as int] is PipeSubstitution);
                    return true;
                },
                _ => {},
            }
            i += 1;
        }
        false
    }

    /// Of each argument, whether it is the placeholder `%`.
    pub fn substitution_sites(&self) -> (sites: Vec<bool>)
        ensures
            sites@ == self@.substitution_sites(),
    {
        let mut sites: Vec<bool> = Vec::new();
        let mut i: usize = 0;
        while i < self.arguments.len()
            invariant
                i <= self.arguments.len(),
                sites.len() == i,
                forall|j: int| 0 <= j < i ==> sites[j] == (self@.arguments[j] is PipeSubstitution),
            decreases self.arguments.len() - i,
        {
            let is_site = match &self.arguments[i] {
                Expr::PipeSubstitution(_) => true,
                _ => false,
            };
            sites.push(is_site);
            i += 1;
        }
        assert(sites@ =~= self@.substitution_sites());
        sites
    }

    /// The interval of the call, as the one element of a list.
    pub fn as_source_ranges(&self) -> (ranges: Vec<SourceRange>)
        ensures
            ranges_view(ranges) == seq![(self.start, self.end)],
    {
        single_range(range_of(self))
    }
}

impl PipeExpression {
    /// The action that has the stage with index `stage` evaluated.
    fn evaluate(&self, stage: usize) -> (action: PipeAction)
        requires
            stage < self.body.len(),
        ensures
            action@ == self@.evaluate(stage as int),
    {
        let sites = match &self.body[stage] {
            Expr::CallExpression(call) => call.substitution_sites(),
            _ => Vec::new(),
        };
        assert(sites@ =~= self@.body[stage as int].substitution_sites());
        PipeAction::Evaluate {
            stage,
            source_range: self.body[stage].source_range(),
            previous: if stage == 0 {
                None
            } else {
                Some(stage - 1)
            },
            sites,
        }
    }

    /// The state that follows `state` on `event`, and what the evaluator is to
    /// do next.
    pub fn next_step(&self, state: PipeState, event: PipeEvent) -> (next: (PipeState, PipeAction))
        ensures
            next.0 == self@.step(state, event).0,
            next.1@ == self@.step(state, event).1,
    {
        match (state, event) {
            (PipeState::Start, PipeEvent::Begin) => {
                if self.body.len() == 0 {
                    (PipeState::Finished, PipeAction::Fail { failed: None, source_range: range_of(self) })
                } else {
                    (PipeState::Evaluating { stage: 0 }, self.evaluate(0))
                }
            },
            (PipeState::Evaluating { stage }, PipeEvent::Succeeded) => {
                if stage >= self.body.len() {
                    (state, PipeAction::Rejected)
                } else if stage + 1 < self.body.len() {
                    (PipeState::Evaluating { stage: stage + 1 }, self.evaluate(stage + 1))
                } else {
                    (PipeState::Finished, PipeAction::Return { stage })
                }
            },
            (PipeState::Evaluating { stage }, PipeEvent::Failed) => {
                if stage >= self.body.len() {
                    (state, PipeAction::Rejected)
                } else {
                    (
                        PipeState::Finished,
                        PipeAction::Fail {
                            failed: Some(stage),
                            source_range: self.body[stage].source_range(),
                        },
                    )
                }
            },
            _ => (state, PipeAction::Rejected),
        }
    }
}

/// A pipe is evaluated stage by stage, in order, and ends at the first stage
/// that fails.
///
/// Where the stage with index `i` succeeds if `outcomes[i]` and fails if not,
/// and `failed` is the index of the first stage that fails (the number of
/// stages where none does): the stages up to `failed`, and no others, are
/// evaluated, each once, in order, each but the first with the value of the one
/// before it for `%`. Then the pipe fails at the stage `failed`, or, where no
/// stage fails, has the value of the last stage.
pub proof fn lemma_pipe_runs_in_order(pipe: PipeExpressionView, outcomes: Seq<bool>)
    requires
        pipe.body.len() > 0,
        pipe.body.len() <= usize::MAX,
        outcomes.len() == pipe.body.len(),
    ensures
        ({
            let n = pipe.body.len() as int;
            let failed = first_index(outcomes, |ok: bool| !ok);
            let last = if failed < n {
                failed
            } else {
                n - 1
            };
            let actions = pipe.run(PipeState::Start, outcomes, (n + 1) as nat);
            &&& actions.len() == last + 2
            &&& forall|i: int| 0 <= i <= last ==> #[trigger] actions[i] == pipe.evaluate(i)
            &&& failed < n ==> actions[last + 1] == (PipeActionView::Fail {
                failed: Some(failed as usize),
                source_range: (pipe.body[failed].start(), pipe.body[failed].end()),
            })
            &&& failed == n ==> actions[last + 1] == (PipeActionView::Return {
                stage: (n - 1) as usize,
            })
        }),
{
    let n = pipe.body.len() as int;
    lemma_first_index(outcomes, |ok: bool| !ok);
    lemma_run_from(pipe, outcomes, 0);
    let rest = pipe.run(PipeState::Evaluating { stage: 0 }, outcomes, n as nat);
    let actions = pipe.run(PipeState::Start, outcomes, (n + 1) as nat);
    assert(actions =~= seq![pipe.evaluate(0)] + rest);
    let failed = first_index(outcomes, |ok: bool| !ok);
    let last = if failed < n {
        failed
    } else {
        n - 1
    };
    assert forall|i: int| 0 <= i <= last implies #[trigger] actions[i] == pipe.evaluate(i) by {
        if i > 0 {
            assert(actions[i] == rest[i - 0 - 1]);
        }
    }
    assert(actions[last + 1] == rest[last - 0]);
}

/// What is done from the evaluation of the stage `stage` on, where all stages
/// before it have succeeded: the stages behind `stage` up to the first that
/// fails are evaluated in order, and then the pipe fails or has its value.
proof fn lemma_run_from(pipe: PipeExpressionView, outcomes: Seq<bool>, stage: int)
    requires
        0 <= stage < pipe.body.len(),
        pipe.body.len() <= usize::MAX,
        outcomes.len() == pipe.body.len(),
        forall|j: int| 0 <= j < stage ==> outcomes[j],
    ensures
        ({
            let n = pipe.body.len() as int;
            let failed = first_index(outcomes, |ok: bool| !ok);
            let last = if failed < n {
                failed
            } else {
                n - 1
            };
            let actions = pipe.run(
                PipeState::Evaluating { stage: stage as usize },
                outcomes,
                (n - stage) as nat,
            );
            &&& stage <= last
            &&& actions.len() == last - stage + 1
            &&& forall|i: int| stage < i <= last ==> #[trigger] actions[i - stage - 1] == pipe.evaluate(i)
            &&& failed < n ==> actions[last - stage] == (PipeActionView::Fail {
                failed: Some(failed as usize),
                source_range: (pipe.body[failed].start(), pipe.body[failed].end()),
            })
            &&& failed == n ==> actions[last - stage] == (PipeActionView::Return {
                stage: (n - 1) as usize,
            })
        }),
    decreases pipe.body.len() - stage,
{
    let n = pipe.body.len() as int;
    let p = |ok: bool| !ok;
    let failed = first_index(outcomes, p);
    lemma_first_index(outcomes, p);
    if failed < stage {
        assert(p(outcomes[failed]));
    }
    let state = PipeState::Evaluating { stage: stage as usize };
    let actions = pipe.run(state, outcomes, (n - stage) as nat);
    if outcomes[stage] {
        if failed == stage {
            assert(p(outcomes[failed]));
        }
        if stage + 1 < n {
            lemma_run_from(pipe, outcomes, stage + 1);
            let rest = pipe.run(
                PipeState::Evaluating { stage: (stage + 1) as usize },
                outcomes,
                (n - stage - 1) as nat,
            );
            assert(actions =~= seq![pipe.evaluate(stage + 1)] + rest);
            let last = if failed < n {
                failed
            } else {
                n - 1
            };
            assert forall|i: int| stage < i <= last implies #[trigger] actions[i - stage - 1]
                == pipe.evaluate(i) by {
                if i > stage + 1 {
                    assert(actions[i - stage - 1] == rest[i - (stage + 1) - 1]);
                }
            }
            assert(actions[last - stage] == rest[last - (stage + 1)]);
        } else {
            assert(failed == n) by {
                if failed < n {
                    assert(p(outcomes[failed]));
                }
            }
            assert(pipe.run(PipeState::Finished, outcomes, (n - stage - 1) as nat)
                =~= Seq::<PipeActionView>::empty());
            assert(actions =~= seq![PipeActionView::Return { stage: stage as usize }]);
        }
    } else {
        assert(p(outcomes[stage]));
        assert(failed == stage) by {
            crate::text::lemma_first_index_is(outcomes, p, stage);
        }
        assert(pipe.run(PipeState::Finished, outcomes, (n - stage - 1) as nat)
            =~= Seq::<PipeActionView>::empty());
        assert(actions =~= seq![
            PipeActionView::Fail {
                failed: Some(stage as usize),
                source_range: (pipe.body[stage].start(), pipe.body[stage].end()),
            },
        ]);
    }
}

} // verus!
