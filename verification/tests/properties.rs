use kcl_ast::{
    ArrayExpression, BinaryExpression, BinaryOperator, BinaryPart, BodyItem, CallExpression,
    CommentStyle, ConstraintKind, ConstraintLevel, Expr, ExpressionStatement, FoldingRangeKind,
    Identifier,
    ItemVisibility, Literal, LiteralValue, NonCodeMeta, NonCodeNode, NonCodeValue,
    ObjectExpression, ObjectProperty, PipeAction, PipeEvent, PipeExpression, PipeState,
    PipeSubstitution, Program, SourceRange, SymbolKind, VariableDeclaration, VariableDeclarator,
    VariableKind,
};

fn ident(name: &str, start: usize, end: usize) -> Identifier {
    Identifier { start, end, name: name.to_string(), digest: None }
}

fn name(name: &str, start: usize, end: usize) -> Expr {
    Expr::Identifier(Box::new(ident(name, start, end)))
}

fn whole(value: i64, start: usize, end: usize) -> Expr {
    Expr::Literal(Box::new(Literal {
        start,
        end,
        value: LiteralValue::IInteger(value),
        raw: value.to_string(),
        digest: None,
    }))
}

fn text(value: &str, start: usize, end: usize) -> Expr {
    Expr::Literal(Box::new(Literal {
        start,
        end,
        value: LiteralValue::String(value.to_string()),
        raw: format!("'{}'", value),
        digest: None,
    }))
}

fn placeholder(start: usize) -> Expr {
    Expr::PipeSubstitution(Box::new(PipeSubstitution { start, end: start + 1, digest: None }))
}

fn array(elements: Vec<Expr>, start: usize, end: usize) -> Expr {
    Expr::ArrayExpression(Box::new(ArrayExpression {
        start,
        end,
        elements,
        non_code_meta: NonCodeMeta::new(),
        digest: None,
    }))
}

fn object(properties: Vec<ObjectProperty>, start: usize, end: usize) -> Expr {
    Expr::ObjectExpression(Box::new(ObjectExpression {
        start,
        end,
        properties,
        non_code_meta: NonCodeMeta::new(),
        digest: None,
    }))
}

fn call_at(callee: &str, start: usize, end: usize, arguments: Vec<Expr>) -> CallExpression {
    CallExpression {
        start,
        end,
        callee: ident(callee, start, start + callee.len()),
        arguments,
        optional: false,
        digest: None,
    }
}

fn call(callee: &str, start: usize, end: usize, arguments: Vec<Expr>) -> Expr {
    Expr::CallExpression(Box::new(call_at(callee, start, end, arguments)))
}

fn pipe_at(body: Vec<Expr>, start: usize, end: usize) -> PipeExpression {
    PipeExpression { start, end, body, non_code_meta: NonCodeMeta::new(), digest: None }
}

fn declaration(name: &str, start: usize, name_start: usize, end: usize, init: Expr) -> BodyItem {
    BodyItem::VariableDeclaration(Box::new(VariableDeclaration {
        start,
        end,
        declarations: vec![VariableDeclarator {
            start: name_start,
            end,
            id: ident(name, name_start, name_start + name.len()),
            init,
            digest: None,
        }],
        visibility: ItemVisibility::Default,
        kind: VariableKind::Const,
        digest: None,
    }))
}

fn statement(expression: Expr) -> BodyItem {
    let (start, end) = (expression.start(), expression.end());
    BodyItem::ExpressionStatement(ExpressionStatement { start, end, expression, digest: None })
}

const DOCUMENT: &str = "const h = 30\n\n// st\nconst cyl = f('-XZ') |> g([50,0], %) |> h({a:1}, %)";

/// The tree of `DOCUMENT`, each node at its place in the text.
fn document() -> Program {
    let mut non_code_meta = NonCodeMeta::new();
    non_code_meta.insert(
        0,
        NonCodeNode {
            start: 12,
            end: 20,
            value: NonCodeValue::NewLineBlockComment {
                value: "st".to_string(),
                style: CommentStyle::Line,
            },
            digest: None,
        },
    );
    let cyl = Expr::PipeExpression(Box::new(pipe_at(
        vec![
            call("f", 32, 40, vec![text("-XZ", 34, 39)]),
            call(
                "g",
                44,
                56,
                vec![array(vec![whole(50, 47, 49), whole(0, 50, 51)], 46, 52), placeholder(54)],
            ),
            call(
                "h",
                60,
                71,
                vec![
                    object(
                        vec![ObjectProperty {
                            start: 63,
                            end: 66,
                            key: ident("a", 63, 64),
                            value: whole(1, 65, 66),
                            digest: None,
                        }],
                        62,
                        67,
                    ),
                    placeholder(69),
                ],
            ),
        ],
        32,
        71,
    )));
    Program {
        start: 0,
        end: 71,
        body: vec![
            declaration("h", 0, 6, 12, whole(30, 10, 12)),
            declaration("cyl", 20, 26, 71, cyl),
        ],
        non_code_meta,
        digest: None,
    }
}

/// The names of the identifiers in a program, as its debug output shows them.
fn shown(program: &Program) -> String {
    format!("{:?}", program)
}

#[test]
fn intervals_are_ordered_and_nested() {
    let tree = document();
    assert!(tree.is_well_formed());
    for item in &tree.body {
        assert!(item.start() <= item.end());
        assert!(tree.start <= item.start() && item.end() <= tree.end);
    }

    // A child that reaches out of its parent is found.
    let mut broken = document();
    if let BodyItem::VariableDeclaration(declaration) = &mut broken.body[1] {
        declaration.declarations[0].end = 72;
    }
    assert!(!broken.is_well_formed());

    // A node that ends before it begins is found.
    let backwards = Program {
        start: 0,
        end: 10,
        body: vec![statement(name("x", 5, 4))],
        non_code_meta: NonCodeMeta::new(),
        digest: None,
    };
    assert!(!backwards.is_well_formed());
}

#[test]
fn renaming_keeps_intervals() {
    let mut tree = document();
    tree.rename_symbol("height", 6);
    assert!(tree.is_well_formed());
    assert_eq!(tree.start, 0);
    assert_eq!(tree.end, 71);
}

/// `DOCUMENT` with every node `by` bytes further on in the text.
fn moved(by: usize) -> Program {
    let cyl = Expr::PipeExpression(Box::new(pipe_at(
        vec![
            call("f", 32 + by, 40 + by, vec![text("-XZ", 34 + by, 39 + by)]),
            call(
                "g",
                44 + by,
                56 + by,
                vec![
                    array(vec![whole(50, 47 + by, 49 + by), whole(0, 50 + by, 51 + by)], 46 + by, 52 + by),
                    placeholder(54 + by),
                ],
            ),
            call(
                "h",
                60 + by,
                71 + by,
                vec![
                    object(
                        vec![ObjectProperty {
                            start: 63 + by,
                            end: 66 + by,
                            key: ident("a", 63 + by, 64 + by),
                            value: whole(1, 65 + by, 66 + by),
                            digest: None,
                        }],
                        62 + by,
                        67 + by,
                    ),
                    placeholder(69 + by),
                ],
            ),
        ],
        32 + by,
        71 + by,
    )));
    let mut non_code_meta = NonCodeMeta::new();
    non_code_meta.insert(
        0,
        NonCodeNode {
            start: 12 + by,
            end: 20 + by,
            value: NonCodeValue::NewLineBlockComment {
                value: "st".to_string(),
                style: CommentStyle::Line,
            },
            digest: None,
        },
    );
    Program {
        start: by,
        end: 71 + by,
        body: vec![
            declaration("h", by, 6 + by, 12 + by, whole(30, 10 + by, 12 + by)),
            declaration("cyl", 20 + by, 26 + by, 71 + by, cyl),
        ],
        non_code_meta,
        digest: None,
    }
}

#[test]
fn digest_is_the_same_each_time() {
    let mut tree = document();
    let first = tree.compute_digest();
    let second = tree.compute_digest();
    assert_eq!(first, second);
    assert_eq!(tree.digest, Some(first));
    assert_eq!(document().compute_digest(), first);
}

#[test]
fn digest_ignores_offsets() {
    assert_eq!(document().compute_digest(), moved(0).compute_digest());
    assert_eq!(document().compute_digest(), moved(7).compute_digest());
    assert_eq!(document().compute_digest(), moved(1000).compute_digest());
}

#[test]
fn digest_tells_trees_apart() {
    let plain = document().compute_digest();

    let mut renamed = document();
    renamed.rename_symbol("height", 6);
    renamed.digest = None;
    assert_ne!(renamed.compute_digest(), plain);

    let mut other_value = document();
    other_value.body[0] = declaration("h", 0, 6, 12, whole(31, 10, 12));
    assert_ne!(other_value.compute_digest(), plain);

    let mut other_comment = document();
    other_comment.non_code_meta = NonCodeMeta::new();
    assert_ne!(other_comment.compute_digest(), plain);

    let mut shorter = document();
    shorter.body.pop();
    assert_ne!(shorter.compute_digest(), plain);
}

#[test]
fn digest_is_kept_until_it_is_taken_away() {
    let mut tree = document();
    let before = tree.compute_digest();
    tree.body[0] = declaration("h", 0, 6, 12, whole(31, 10, 12));
    // The digest kept at the root is handed out as it is.
    assert_eq!(tree.compute_digest(), before);
    tree.digest = None;
    assert_ne!(tree.compute_digest(), before);
}

#[test]
fn digests_are_taken_away_and_computed_anew() {
    let mut tree = document();
    let before = tree.compute_digest();
    tree.body[0] = declaration("h", 0, 6, 12, whole(31, 10, 12));
    let after = tree.recompute_digest();
    assert_ne!(after, before);
    assert_eq!(tree.digest, Some(after));
    assert_eq!(tree.compute_digest(), after);

    tree.clear_digests();
    assert_eq!(tree.digest, None);
    assert_eq!(tree.non_code_meta.digest, None);
    let mut changed = document();
    changed.body[0] = declaration("h", 0, 6, 12, whole(31, 10, 12));
    assert_eq!(tree, changed);
    assert_eq!(tree.compute_digest(), after);

    let mut call = call("f", 0, 4, vec![name("x", 2, 3)]);
    let first = call.compute_digest();
    if let Expr::CallExpression(inner) = &mut call {
        inner.arguments[0] = name("y", 2, 3);
    }
    assert_eq!(call.compute_digest(), first);
    assert_ne!(call.recompute_digest(), first);
}

#[test]
fn renaming_there_and_back_restores_the_names() {
    let first = document();
    let mut tree = document();
    tree.rename_symbol("height", 6);
    assert_ne!(shown(&tree), shown(&first));
    tree.rename_symbol("h", 6);
    assert_eq!(tree, first);
}

#[test]
fn renaming_references_there_and_back() {
    let first = Program {
        start: 0,
        end: 30,
        body: vec![
            declaration("a", 0, 6, 11, whole(1, 10, 11)),
            declaration("b", 12, 18, 27, call("f", 22, 27, vec![name("a", 24, 25)])),
            statement(name("a", 28, 29)),
        ],
        non_code_meta: NonCodeMeta::new(),
        digest: None,
    };
    let mut tree = first.clone();
    tree.rename_symbol("fresh", 6);
    if let BodyItem::VariableDeclaration(declaration) = &tree.body[1] {
        if let Expr::CallExpression(call) = &declaration.declarations[0].init {
            assert_eq!(call.arguments[0], name("fresh", 24, 25));
        } else {
            panic!("expected a call");
        }
    } else {
        panic!("expected a declaration");
    }
    tree.rename_symbol("a", 6);
    assert_eq!(tree, first);
}

fn kind_of(level: &ConstraintLevel) -> ConstraintKind {
    level.kind()
}

#[test]
fn empty_composites_do_not_count() {
    let array = ArrayExpression {
        start: 3,
        end: 5,
        elements: vec![],
        non_code_meta: NonCodeMeta::new(),
        digest: None,
    };
    let level = array.get_constraint_level();
    assert_eq!(kind_of(&level), ConstraintKind::Ignore);
    assert_eq!(level.source_ranges(), vec![SourceRange([3, 5])]);

    let object = ObjectExpression {
        start: 1,
        end: 3,
        properties: vec![],
        non_code_meta: NonCodeMeta::new(),
        digest: None,
    };
    assert_eq!(kind_of(&object.get_constraint_level()), ConstraintKind::Ignore);

    let call = call_at("f", 0, 3, vec![]);
    assert_eq!(kind_of(&call.get_constraint_level()), ConstraintKind::Ignore);

    let pipe = pipe_at(vec![], 0, 0);
    assert_eq!(kind_of(&pipe.get_constraint_level()), ConstraintKind::Ignore);
}

#[test]
fn call_with_two_literals_is_not_constrained() {
    let call = call_at("f", 0, 7, vec![whole(1, 2, 3), whole(2, 5, 6)]);
    let level = call.get_constraint_level();
    assert_eq!(kind_of(&level), ConstraintKind::Unconstrained);
    assert_eq!(level.to_string(), "none");
    // The level is that of the first argument, said of it.
    assert_eq!(level.source_ranges(), vec![SourceRange([2, 3])]);
}

#[test]
fn call_with_literal_and_identifier_is_partial() {
    let call = call_at("f", 0, 7, vec![whole(1, 2, 3), name("x", 5, 6)]);
    match call.get_constraint_level() {
        ConstraintLevel::Partial { source_ranges, levels } => {
            assert_eq!(source_ranges, vec![SourceRange([0, 7])]);
            assert_eq!(levels.0.len(), 2);
            assert_eq!(levels.0[0].kind(), ConstraintKind::Unconstrained);
            assert_eq!(levels.0[1].kind(), ConstraintKind::Full);
            assert_eq!(levels.get_all_partial_or_full_source_ranges(), vec![SourceRange([5, 6])]);
        },
        other => panic!("expected a partial level, got {:?}", other),
    }
}

#[test]
fn what_does_not_count_is_left_aside() {
    // `f(%, x)`: the placeholder does not count, the identifier decides.
    let call = call_at("f", 0, 7, vec![placeholder(2), name("x", 5, 6)]);
    assert_eq!(kind_of(&call.get_constraint_level()), ConstraintKind::Full);
    // `f(x, %)` likewise.
    let call = call_at("f", 0, 7, vec![name("x", 2, 3), placeholder(5)]);
    assert_eq!(kind_of(&call.get_constraint_level()), ConstraintKind::Full);
    // `f(%)`: nothing counts.
    let call = call_at("f", 0, 4, vec![placeholder(2)]);
    assert_eq!(kind_of(&call.get_constraint_level()), ConstraintKind::Ignore);
    // `1 + x` is partial.
    let sum = BinaryExpression {
        start: 0,
        end: 5,
        operator: BinaryOperator::Add,
        left: BinaryPart::Literal(Box::new(Literal {
            start: 0,
            end: 1,
            value: LiteralValue::IInteger(1),
            raw: "1".to_string(),
            digest: None,
        })),
        right: BinaryPart::Identifier(Box::new(ident("x", 4, 5))),
        digest: None,
    };
    assert_eq!(kind_of(&sum.get_constraint_level()), ConstraintKind::Partial);
}

#[test]
fn statement_of_one_line_does_not_fold() {
    let program = Program {
        start: 0,
        end: 11,
        body: vec![declaration("x", 0, 6, 11, whole(1, 10, 11))],
        non_code_meta: NonCodeMeta::new(),
        digest: None,
    };
    assert_eq!(program.get_lsp_folding_ranges(&vec!["x = 1".to_string()]).len(), 0);
    assert_eq!(program.get_lsp_folding_ranges(&vec!["x = 1\n".to_string()]).len(), 0);
    // A statement that is not written out does not fold.
    assert_eq!(program.get_lsp_folding_ranges(&vec![]).len(), 0);
}

#[test]
fn pipe_of_three_stages_folds_once() {
    let pipe = Expr::PipeExpression(Box::new(pipe_at(
        vec![
            call("a", 10, 13, vec![]),
            call("b", 19, 23, vec![placeholder(21)]),
            call("c", 29, 33, vec![placeholder(31)]),
        ],
        10,
        33,
    )));
    let program = Program {
        start: 0,
        end: 33,
        body: vec![declaration("x", 0, 6, 33, pipe)],
        non_code_meta: NonCodeMeta::new(),
        digest: None,
    };
    let folds = program.get_lsp_folding_ranges(&vec!["x = a()\n  |> b(%)\n  |> c(%)".to_string()]);
    assert_eq!(folds.len(), 1);
    assert_eq!(folds[0].start_line, 7);
    assert_eq!(folds[0].end_line, 33);
    assert_eq!(folds[0].collapsed_text, Some("x = a()".to_string()));
    assert_eq!(folds[0].kind, Some(FoldingRangeKind::Region));
    assert_eq!(folds[0].start_character, None);
    assert_eq!(folds[0].end_character, None);
}

#[test]
fn pipe_as_a_statement_folds_once() {
    let text = "startSketchOn('XY')\n  |> startProfileAt([0, 5], %)\n  |> line([1, 1], %)";
    let pipe = Expr::PipeExpression(Box::new(pipe_at(
        vec![
            call("startSketchOn", 4, 23, vec![text_at_xy()]),
            call("startProfileAt", 29, 54, vec![placeholder(52)]),
            call("line", 60, 75, vec![placeholder(73)]),
        ],
        4,
        75,
    )));
    let program = Program {
        start: 0,
        end: 75,
        body: vec![statement(pipe)],
        non_code_meta: NonCodeMeta::new(),
        digest: None,
    };
    let folds = program.get_lsp_folding_ranges(&vec![text.to_string()]);
    assert_eq!(folds.len(), 1);
    assert_eq!(folds[0].start_line, 4 + 19);
    assert_eq!(folds[0].end_line, 75);
    assert_eq!(folds[0].collapsed_text, Some("startSketchOn('XY')".to_string()));
    assert_eq!(folds[0].kind, Some(FoldingRangeKind::Region));
}

#[test]
fn offsets_of_a_fold_are_cut_to_32_bits() {
    let far = Expr::Identifier(Box::new(ident("x", usize::MAX - 1, usize::MAX)));
    let fold = far.get_lsp_folding_range("ab\ncd").unwrap();
    assert_eq!(fold.start_line, ((usize::MAX - 1) as u128 + 2) as u32);
    assert_eq!(fold.end_line, usize::MAX as u32);
    assert!(far.get_lsp_folding_range("ab").is_none());
    assert!(far.get_lsp_folding_range("").is_none());
}

fn text_at_xy() -> Expr {
    text("XY", 18, 22)
}

fn three_stages() -> PipeExpression {
    pipe_at(
        vec![
            call("a", 0, 3, vec![]),
            call("b", 7, 11, vec![placeholder(9)]),
            call("c", 15, 22, vec![whole(1, 17, 18), placeholder(20)]),
        ],
        0,
        22,
    )
}

#[test]
fn pipe_is_evaluated_stage_by_stage() {
    let pipe = three_stages();
    let (state, action) = pipe.next_step(PipeState::Start, PipeEvent::Begin);
    assert_eq!(state, PipeState::Evaluating { stage: 0 });
    assert_eq!(
        action,
        PipeAction::Evaluate {
            stage: 0,
            source_range: SourceRange([0, 3]),
            previous: None,
            sites: vec![]
        }
    );
    let (state, action) = pipe.next_step(state, PipeEvent::Succeeded);
    assert_eq!(state, PipeState::Evaluating { stage: 1 });
    assert_eq!(
        action,
        PipeAction::Evaluate {
            stage: 1,
            source_range: SourceRange([7, 11]),
            previous: Some(0),
            sites: vec![true]
        }
    );
    let (state, action) = pipe.next_step(state, PipeEvent::Succeeded);
    assert_eq!(state, PipeState::Evaluating { stage: 2 });
    assert_eq!(
        action,
        PipeAction::Evaluate {
            stage: 2,
            source_range: SourceRange([15, 22]),
            previous: Some(1),
            sites: vec![false, true]
        }
    );
    let (state, action) = pipe.next_step(state, PipeEvent::Succeeded);
    assert_eq!(state, PipeState::Finished);
    assert_eq!(action, PipeAction::Return { stage: 2 });
    // Nothing more is evaluated once the pipe has its value.
    let (state, action) = pipe.next_step(state, PipeEvent::Succeeded);
    assert_eq!(state, PipeState::Finished);
    assert_eq!(action, PipeAction::Rejected);
}

#[test]
fn pipe_ends_at_the_stage_that_fails() {
    let pipe = three_stages();
    let (state, _) = pipe.next_step(PipeState::Start, PipeEvent::Begin);
    let (state, _) = pipe.next_step(state, PipeEvent::Succeeded);
    assert_eq!(state, PipeState::Evaluating { stage: 1 });
    let (state, action) = pipe.next_step(state, PipeEvent::Failed);
    assert_eq!(state, PipeState::Finished);
    assert_eq!(action, PipeAction::Fail { failed: Some(1), source_range: SourceRange([7, 11]) });
    // The third stage is never asked for.
    let (state, action) = pipe.next_step(state, PipeEvent::Succeeded);
    assert_eq!(state, PipeState::Finished);
    assert_eq!(action, PipeAction::Rejected);
}

#[test]
fn pipe_without_stages_fails() {
    let pipe = pipe_at(vec![], 4, 9);
    let (state, action) = pipe.next_step(PipeState::Start, PipeEvent::Begin);
    assert_eq!(state, PipeState::Finished);
    assert_eq!(action, PipeAction::Fail { failed: None, source_range: SourceRange([4, 9]) });
}

#[test]
fn events_that_do_not_fit_are_rejected() {
    let pipe = three_stages();
    assert_eq!(
        pipe.next_step(PipeState::Start, PipeEvent::Succeeded),
        (PipeState::Start, PipeAction::Rejected)
    );
    assert_eq!(
        pipe.next_step(PipeState::Evaluating { stage: 1 }, PipeEvent::Begin),
        (PipeState::Evaluating { stage: 1 }, PipeAction::Rejected)
    );
    assert_eq!(
        pipe.next_step(PipeState::Evaluating { stage: 3 }, PipeEvent::Succeeded),
        (PipeState::Evaluating { stage: 3 }, PipeAction::Rejected)
    );
    assert_eq!(
        pipe.next_step(PipeState::Evaluating { stage: 3 }, PipeEvent::Failed),
        (PipeState::Evaluating { stage: 3 }, PipeAction::Rejected)
    );
}

#[test]
fn document_with_comment_symbols_and_fold() {
    let tree = document();
    let at_comment = DOCUMENT.find("// st").unwrap();
    assert_eq!(at_comment, 14);

    let meta = tree.get_non_code_meta_for_position(at_comment).unwrap();
    assert_eq!(meta.non_code_nodes[&0].len(), 1);
    assert_eq!(meta.non_code_nodes[&0][0].value(), "st");
    assert!(meta.non_code_nodes[&0][0].contains(at_comment));

    let symbols = tree.get_lsp_symbols(DOCUMENT);
    assert_eq!(symbols.len(), 2);
    assert_eq!(symbols[0].name, "h");
    assert_eq!(symbols[0].kind, SymbolKind::Constant);
    assert_eq!(symbols[0].detail, Some("const".to_string()));
    assert_eq!(symbols[1].name, "cyl");
    assert_eq!(symbols[1].kind, SymbolKind::Constant);

    let recasted = vec![
        "h = 30".to_string(),
        "cyl = f('-XZ')\n  |> g([50, 0], %)\n  |> h({ a: 1 }, %)".to_string(),
    ];
    let folds = tree.get_lsp_folding_ranges(&recasted);
    assert_eq!(folds.len(), 1);
    assert_eq!(folds[0].start_line, 20 + 14);
    assert_eq!(folds[0].end_line, 71);
    assert_eq!(folds[0].collapsed_text, Some("cyl = f('-XZ')".to_string()));
}
