use kcl_ast::{
    ArrayExpression, BodyItem, CallExpression, CommentStyle, Expr, ExpressionStatement, Fraction,
    FunctionExpression, Identifier, ItemVisibility, Literal, LiteralValue, NonCodeMeta,
    NonCodeNode, NonCodeValue, ObjectExpression, ObjectProperty, Parameter, PipeExpression,
    PipeSubstitution, Program, ReturnStatement, VariableDeclaration, VariableDeclarator,
    VariableKind,
};

fn ident(name: &str, start: usize, end: usize) -> Identifier {
    Identifier { start, end, name: name.to_string(), digest: None }
}

fn text(value: &str, start: usize, end: usize) -> Expr {
    Expr::Literal(Box::new(Literal {
        start,
        end,
        value: LiteralValue::String(value.to_string()),
        raw: format!("'{}'", value),
        digest: None,
    }))
}

fn whole(value: i64, start: usize, end: usize) -> Expr {
    Expr::Literal(Box::new(Literal {
        start,
        end,
        value: LiteralValue::IInteger(value),
        raw: value.to_string(),
        digest: None,
    }))
}

fn fraction(value: f64, raw: &str, start: usize, end: usize) -> Expr {
    Expr::Literal(Box::new(Literal {
        start,
        end,
        value: LiteralValue::Fractional(Fraction { bits: value.to_bits(), text: raw.to_string() }),
        raw: raw.to_string(),
        digest: None,
    }))
}

fn placeholder(start: usize) -> Expr {
    Expr::PipeSubstitution(Box::new(PipeSubstitution { start, end: start + 1, digest: None }))
}

fn array(elements: Vec<Expr>, start: usize, end: usize) -> Expr {
    Expr::ArrayExpression(Box::new(ArrayExpression {
        start,
        end,
        elements,
        non_code_meta: NonCodeMeta::new(),
        digest: None,
    }))
}

fn call(name: &str, start: usize, end: usize, arguments: Vec<Expr>) -> Expr {
    Expr::CallExpression(Box::new(CallExpression {
        start,
        end,
        callee: ident(name, start, start + name.len()),
        arguments,
        optional: false,
        digest: None,
    }))
}

fn pipe(body: Vec<Expr>, non_code_meta: NonCodeMeta, start: usize, end: usize) -> Expr {
    Expr::PipeExpression(Box::new(PipeExpression { start, end, body, non_code_meta, digest: None }))
}

fn declaration(
    kind: VariableKind,
    name: &str,
    start: usize,
    name_start: usize,
    end: usize,
    init: Expr,
) -> BodyItem {
    BodyItem::VariableDeclaration(Box::new(VariableDeclaration {
        start,
        end,
        declarations: vec![VariableDeclarator {
            start: name_start,
            end,
            id: ident(name, name_start, name_start + name.len()),
            init,
            digest: None,
        }],
        visibility: ItemVisibility::Default,
        kind,
        digest: None,
    }))
}

fn statement(expression: Expr) -> BodyItem {
    let (start, end) = (expression.start(), expression.end());
    BodyItem::ExpressionStatement(ExpressionStatement { start, end, expression, digest: None })
}

fn program(body: Vec<BodyItem>, non_code_meta: NonCodeMeta, end: usize) -> Program {
    Program { start: 0, end, body, non_code_meta, digest: None }
}

fn comment(value: &str, start: usize, end: usize) -> NonCodeNode {
    NonCodeNode {
        start,
        end,
        value: NonCodeValue::BlockComment { value: value.to_string(), style: CommentStyle::Line },
        digest: None,
    }
}

/// The sketch of the folding test: `startSketchOn('XY') |> startProfileAt(..) |> line(..)`,
/// which begins at `at`.
fn sketch(at: usize) -> Expr {
    pipe(
        vec![
            call("startSketchOn", at, at + 19, vec![text("XY", at + 14, at + 18)]),
            call(
                "startProfileAt",
                at + 25,
                at + 72,
                vec![
                    array(
                        vec![
                            fraction(0.0, "0.0", at + 41, at + 53),
                            fraction(5.0, "5.0", at + 55, at + 67),
                        ],
                        at + 40,
                        at + 68,
                    ),
                    placeholder(at + 70),
                ],
            ),
            call(
                "line",
                at + 80,
                at + 118,
                vec![
                    array(
                        vec![
                            fraction(0.4900857016, "0.4900857016", at + 86, at + 98),
                            fraction(-0.0240763666, "-0.0240763666", at + 100, at + 113),
                        ],
                        at + 85,
                        at + 114,
                    ),
                    placeholder(at + 116),
                ],
            ),
        ],
        NonCodeMeta::new(),
        at,
        at + 118,
    )
}

fn function_ghi() -> Expr {
    Expr::FunctionExpression(Box::new(FunctionExpression {
        start: 382,
        end: 403,
        params: vec![Parameter {
            identifier: ident("x", 383, 384),
            type_: None,
            optional: false,
            digest: None,
        }],
        body: Program {
            start: 389,
            end: 403,
            body: vec![BodyItem::ReturnStatement(ReturnStatement {
                start: 393,
                end: 401,
                argument: Expr::Identifier(Box::new(ident("x", 400, 401))),
                digest: None,
            })],
            non_code_meta: NonCodeMeta::new(),
            digest: None,
        },
        return_type: None,
        digest: None,
    }))
}

fn object_baz() -> Expr {
    Expr::ObjectExpression(Box::new(ObjectExpression {
        start: 353,
        end: 371,
        properties: vec![
            ObjectProperty {
                start: 354,
                end: 358,
                key: ident("a", 354, 355),
                value: whole(1, 357, 358),
                digest: None,
            },
            ObjectProperty {
                start: 360,
                end: 370,
                key: ident("b", 360, 361),
                value: text("thing", 363, 370),
                digest: None,
            },
        ],
        non_code_meta: NonCodeMeta::new(),
        digest: None,
    }))
}

/// The declarations of the two tests on folding and symbols, as a parser
/// reads them from the text of the folding test.
fn declarations() -> Vec<BodyItem> {
    vec![
        declaration(VariableKind::Const, "part001", 0, 6, 134, sketch(16)),
        declaration(VariableKind::Const, "part002", 256, 262, 281, text("part002", 272, 281)),
        declaration(
            VariableKind::Const,
            "things",
            282,
            288,
            311,
            array(
                vec![
                    Expr::Identifier(Box::new(ident("part001", 298, 305))),
                    fraction(0.0, "0.0", 307, 310),
                ],
                297,
                311,
            ),
        ),
        declaration(VariableKind::Const, "blah", 312, 316, 324, whole(1, 323, 324)),
        declaration(
            VariableKind::Const,
            "foo",
            325,
            331,
            342,
            Expr::Literal(Box::new(Literal {
                start: 337,
                end: 342,
                value: LiteralValue::Bool(false),
                raw: "false".to_string(),
                digest: None,
            })),
        ),
        declaration(VariableKind::Const, "baz", 343, 347, 371, object_baz()),
        declaration(VariableKind::Fn, "ghi", 373, 376, 403, function_ghi()),
    ]
}

const SKETCH_LINES: &str = "\n  |> startProfileAt([0.0000000000, 5.0000000000], %)\n  |> line([0.4900857016, -0.0240763666], %)";

#[test]
fn test_variable_kind_to_completion() {
    let completions = VariableKind::to_completion_items();
    assert!(!completions.is_empty());
}

#[test]
fn test_get_lsp_folding_ranges() {
    let mut body = declarations();
    body.insert(1, statement(sketch(136)));
    body.push(statement(call("ghi", 405, 418, vec![text("things", 409, 417)])));
    let program = program(body, NonCodeMeta::new(), 419);
    let recasted = vec![
        format!("part001 = startSketchOn('XY'){}", SKETCH_LINES),
        format!("startSketchOn('XY'){}", SKETCH_LINES),
        "part002 = \"part002\"".to_string(),
        "things = [part001, 0.0]".to_string(),
        "blah = 1".to_string(),
        "foo = false".to_string(),
        "baz = { a: 1, b: \"thing\" }".to_string(),
        "fn ghi = (x) => {\n  return x\n}".to_string(),
        "ghi(\"things\")".to_string(),
    ];
    let folding_ranges = program.get_lsp_folding_ranges(&recasted);
    assert_eq!(folding_ranges.len(), 3);
    assert_eq!(folding_ranges[0].start_line, 29);
    assert_eq!(folding_ranges[0].end_line, 134);
    assert_eq!(
        folding_ranges[0].collapsed_text,
        Some("part001 = startSketchOn('XY')".to_string())
    );
    assert_eq!(folding_ranges[1].start_line, 155);
    assert_eq!(folding_ranges[1].end_line, 254);
    assert_eq!(
        folding_ranges[1].collapsed_text,
        Some("startSketchOn('XY')".to_string())
    );
    assert_eq!(folding_ranges[2].start_line, 390);
    assert_eq!(folding_ranges[2].end_line, 403);
    assert_eq!(folding_ranges[2].collapsed_text, Some("fn ghi = (x) => {".to_string()));
}

#[test]
fn test_get_lsp_symbols() {
    let code = r#"const part001 = startSketchOn('XY')
  |> startProfileAt([0.0000000000, 5.0000000000], %)
    |> line([0.4900857016, -0.0240763666], %)

const part002 = "part002"
const things = [part001, 0.0]
let blah = 1
const foo = false
let baz = {a: 1, b: "thing"}

fn ghi = (x) => {
  return x
}
"#;
    // The same declarations as in the folding test, without the statement
    // between them: the offsets behind it are not what this test looks at.
    let program = program(declarations(), NonCodeMeta::new(), code.len());
    let symbols = program.get_lsp_symbols(code);
    assert_eq!(symbols.len(), 7);
}

/// `const r = 20 / pow(pi(), 1 / 3)` and `const h = 30`, the first two
/// statements of the tests on what is no code.
fn radius_and_height() -> Vec<BodyItem> {
    vec![
        declaration(VariableKind::Const, "r", 0, 6, 31, whole(20, 10, 31)),
        declaration(VariableKind::Const, "h", 32, 38, 44, whole(30, 42, 44)),
    ]
}

#[test]
fn test_ast_get_non_code_node() {
    let mut body = radius_and_height();
    body.push(declaration(
        VariableKind::Const,
        "cylinder",
        52,
        58,
        225,
        pipe(
            vec![
                call("startSketchOn", 69, 89, vec![text("-XZ", 83, 88)]),
                call(
                    "startProfileAt",
                    95,
                    121,
                    vec![array(vec![whole(50, 111, 113), whole(0, 115, 116)], 110, 117), placeholder(119)],
                ),
                call("arc", 127, 205, vec![placeholder(203)]),
                call(
                    "extrude",
                    212,
                    225,
                    vec![Expr::Identifier(Box::new(ident("h", 220, 221))), placeholder(223)],
                ),
            ],
            NonCodeMeta::new(),
            69,
            225,
        ),
    ));
    let mut non_code_meta = NonCodeMeta::new();
    non_code_meta.insert(
        1,
        NonCodeNode {
            start: 44,
            end: 52,
            value: NonCodeValue::NewLineBlockComment {
                value: "st".to_string(),
                style: CommentStyle::Line,
            },
            digest: None,
        },
    );
    let program = program(body, non_code_meta, 226);

    let value = program.get_non_code_meta_for_position(50);

    assert!(value.is_some());
}

#[test]
fn test_ast_get_non_code_node_pipe() {
    let mut in_pipe = NonCodeMeta::new();
    in_pipe.insert(1, comment("comment", 121, 137));
    let mut body = radius_and_height();
    body.push(declaration(
        VariableKind::Const,
        "cylinder",
        52,
        58,
        238,
        pipe(
            vec![
                call("startSketchOn", 69, 89, vec![text("-XZ", 83, 88)]),
                call(
                    "startProfileAt",
                    95,
                    121,
                    vec![array(vec![whole(50, 111, 113), whole(0, 115, 116)], 110, 117), placeholder(119)],
                ),
                call("arc", 140, 218, vec![placeholder(216)]),
                call(
                    "extrude",
                    225,
                    238,
                    vec![Expr::Identifier(Box::new(ident("h", 233, 234))), placeholder(236)],
                ),
            ],
            in_pipe,
            69,
            238,
        ),
    ));
    let mut non_code_meta = NonCodeMeta::new();
    non_code_meta.insert(1, comment("st", 44, 52));
    let program = program(body, non_code_meta, 239);

    let value = program.get_non_code_meta_for_position(124);

    assert!(value.is_some());
}

#[test]
fn test_ast_get_non_code_node_inline_comment() {
    let mut in_pipe = NonCodeMeta::new();
    in_pipe.insert(
        2,
        NonCodeNode {
            start: 82,
            end: 89,
            value: NonCodeValue::InlineComment { value: "lin".to_string(), style: CommentStyle::Line },
            digest: None,
        },
    );
    let body = vec![declaration(
        VariableKind::Const,
        "part001",
        0,
        6,
        89,
        pipe(
            vec![
                call("startSketchOn", 16, 35, vec![text("XY", 30, 34)]),
                call(
                    "startProfileAt",
                    41,
                    65,
                    vec![array(vec![whole(0, 57, 58), whole(0, 59, 60)], 56, 61), placeholder(63)],
                ),
                call("xLine", 71, 82, vec![whole(5, 77, 78), placeholder(80)]),
            ],
            in_pipe,
            16,
            89,
        ),
    )];
    let program = program(body, NonCodeMeta::new(), 90);

    let value = program.get_non_code_meta_for_position(86);

    assert!(value.is_some());
}

fn function_of(params: Vec<Parameter>) -> FunctionExpression {
    FunctionExpression {
        start: 0,
        end: 0,
        params,
        body: Program {
            start: 0,
            end: 0,
            body: Vec::new(),
            non_code_meta: Default::default(),
            digest: None,
        },
        return_type: None,
        digest: None,
    }
}

fn parameter(name: &str, optional: bool) -> Parameter {
    Parameter {
        identifier: Identifier { start: 0, end: 0, name: name.to_owned(), digest: None },
        type_: None,
        optional,
        digest: None,
    }
}

#[test]
fn required_params() {
    for (i, (test_name, expected, function_expr)) in [
        ("no params", (0..=0), function_of(vec![])),
        ("all required params", (1..=1), function_of(vec![parameter("foo", false)])),
        ("all optional params", (0..=1), function_of(vec![parameter("foo", true)])),
        (
            "mixed params",
            (1..=2),
            function_of(vec![parameter("foo", false), parameter("bar", true)]),
        ),
    ]
    .into_iter()
    .enumerate()
    {
        let actual = function_expr.number_of_args();
        assert_eq!(expected, actual, "failed test #{i} '{test_name}'");
    }
}

/// `startSketchOn('XY') |> startProfileAt([0, y], %) |> line([5, 5], %)`
fn profile(y: i64) -> Program {
    let body = vec![statement(pipe(
        vec![
            call("startSketchOn", 0, 19, vec![text("XY", 14, 18)]),
            call(
                "startProfileAt",
                27,
                52,
                vec![array(vec![whole(0, 43, 44), whole(y, 46, 47)], 42, 48), placeholder(50)],
            ),
            call(
                "line",
                60,
                75,
                vec![array(vec![whole(5, 66, 67), whole(5, 69, 70)], 65, 71), placeholder(73)],
            ),
        ],
        NonCodeMeta::new(),
        0,
        75,
    ))];
    program(body, NonCodeMeta::new(), 76)
}

#[test]
fn test_parse_digest() {
    let prog1_digest = profile(0).compute_digest();
    let prog2_digest = profile(2).compute_digest();

    assert!(prog1_digest != prog2_digest);

    let prog3_digest = profile(0).compute_digest();

    assert_eq!(prog1_digest, prog3_digest);
}
