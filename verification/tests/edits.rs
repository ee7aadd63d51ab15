use kcl_ast::{
    ArrayExpression, ArrayRangeExpression, BinaryExpression, BinaryOperator, BinaryPart, BodyItem,
    CallExpression, ElseIf, Expr, ExpressionStatement, FunctionExpression, Identifier,
    IfExpression, ImportItem, ImportStatement, ItemVisibility, Literal, LiteralIdentifier,
    LiteralValue, MemberExpression, MemberObject, NonCodeMeta, ObjectExpression, ObjectProperty,
    Parameter, PipeExpression, Program, ReturnStatement, SourceRange, TagDeclarator,
    UnaryExpression, UnaryOperator, VariableDeclaration, VariableDeclarator, VariableKind,
};

fn ident(name: &str, start: usize, end: usize) -> Identifier {
    Identifier { start, end, name: name.to_string(), digest: None }
}

fn name(name: &str, start: usize, end: usize) -> Expr {
    Expr::Identifier(Box::new(ident(name, start, end)))
}

fn whole(value: i64, start: usize, end: usize) -> Expr {
    Expr::Literal(Box::new(Literal {
        start,
        end,
        value: LiteralValue::IInteger(value),
        raw: value.to_string(),
        digest: None,
    }))
}

fn call(callee: &str, start: usize, end: usize, arguments: Vec<Expr>) -> Expr {
    Expr::CallExpression(Box::new(CallExpression {
        start,
        end,
        callee: ident(callee, start, start + callee.len()),
        arguments,
        optional: false,
        digest: None,
    }))
}

fn array(elements: Vec<Expr>, start: usize, end: usize) -> Expr {
    Expr::ArrayExpression(Box::new(ArrayExpression {
        start,
        end,
        elements,
        non_code_meta: NonCodeMeta::new(),
        digest: None,
    }))
}

fn declarator(name: &str, name_start: usize, end: usize, init: Expr) -> VariableDeclarator {
    VariableDeclarator {
        start: name_start,
        end,
        id: ident(name, name_start, name_start + name.len()),
        init,
        digest: None,
    }
}

fn declaration(name: &str, start: usize, name_start: usize, end: usize, init: Expr) -> BodyItem {
    BodyItem::VariableDeclaration(Box::new(VariableDeclaration {
        start,
        end,
        declarations: vec![declarator(name, name_start, end, init)],
        visibility: ItemVisibility::Default,
        kind: VariableKind::Const,
        digest: None,
    }))
}

fn statement(expression: Expr) -> BodyItem {
    let (start, end) = (expression.start(), expression.end());
    BodyItem::ExpressionStatement(ExpressionStatement { start, end, expression, digest: None })
}

fn program(body: Vec<BodyItem>, end: usize) -> Program {
    Program { start: 0, end, body, non_code_meta: NonCodeMeta::new(), digest: None }
}

fn body_of(names: [&str; 3]) -> Program {
    // const a = 1; const b = [a, f(a)]; g(a, b)
    program(
        vec![
            declaration(names[0], 0, 6, 11, whole(1, 10, 11)),
            declaration(
                names[1],
                12,
                18,
                32,
                array(vec![name(names[0], 23, 24), call("f", 26, 30, vec![name(names[0], 28, 29)])], 22, 32),
            ),
            statement(call(names[2], 33, 40, vec![name(names[0], 35, 36), name(names[1], 38, 39)])),
        ],
        40,
    )
}

#[test]
fn renaming_a_declared_name_renames_what_refers_to_it() {
    let mut tree = body_of(["a", "b", "g"]);
    tree.rename_symbol("x", 6);
    assert_eq!(tree, body_of(["x", "b", "g"]));
}

#[test]
fn renaming_where_nothing_is_bound_changes_nothing() {
    let mut tree = body_of(["a", "b", "g"]);
    // On a literal, on a reference, between statements, behind the text.
    for pos in [10, 23, 35, 1000] {
        tree.rename_symbol("x", pos);
        assert_eq!(tree, body_of(["a", "b", "g"]));
    }
}

#[test]
fn renaming_takes_callees_and_tags_along() {
    // const f = 1; f($f)
    let mut tree = program(
        vec![
            declaration("f", 0, 6, 11, whole(1, 10, 11)),
            statement(call(
                "f",
                12,
                18,
                vec![Expr::TagDeclarator(Box::new(TagDeclarator {
                    start: 14,
                    end: 16,
                    name: "f".to_string(),
                    digest: None,
                }))],
            )),
        ],
        18,
    );
    tree.rename_symbol("g", 6);
    let expected = program(
        vec![
            declaration("g", 0, 6, 11, whole(1, 10, 11)),
            statement(Expr::CallExpression(Box::new(CallExpression {
                start: 12,
                end: 18,
                callee: ident("g", 12, 13),
                arguments: vec![Expr::TagDeclarator(Box::new(TagDeclarator {
                    start: 14,
                    end: 16,
                    name: "g".to_string(),
                    digest: None,
                }))],
                optional: false,
                digest: None,
            }))),
        ],
        18,
    );
    assert_eq!(tree, expected);
}

#[test]
fn declarator_of_the_new_name_is_passed_over() {
    // const y = x; const x = 1: renaming x to y leaves the value of the
    // declarator that bears y already as it is.
    let mut tree = program(
        vec![
            declaration("y", 0, 6, 11, name("x", 10, 11)),
            declaration("x", 12, 18, 23, whole(1, 22, 23)),
            statement(name("x", 24, 25)),
        ],
        25,
    );
    tree.rename_symbol("y", 18);
    let expected = program(
        vec![
            declaration("y", 0, 6, 11, name("x", 10, 11)),
            declaration("y", 12, 18, 23, whole(1, 22, 23)),
            statement(name("y", 24, 25)),
        ],
        25,
    );
    assert_eq!(tree, expected);
}

#[test]
fn shadowing_declarator_that_refers_to_itself_is_not_restored() {
    // const a = 1; const a = a: there and back leaves `fresh` in the second.
    let first = program(
        vec![
            declaration("a", 0, 6, 11, whole(1, 10, 11)),
            declaration("a", 12, 18, 23, name("a", 22, 23)),
        ],
        23,
    );
    let mut tree = first.clone();
    tree.rename_symbol("fresh", 6);
    tree.rename_symbol("a", 6);
    let left = program(
        vec![
            declaration("a", 0, 6, 11, whole(1, 10, 11)),
            declaration("a", 12, 18, 23, name("fresh", 22, 23)),
        ],
        23,
    );
    assert_eq!(tree, left);
}

fn function(parameter: &str, body_name: &str) -> Expr {
    // (p) => { return p + 1 }
    Expr::FunctionExpression(Box::new(FunctionExpression {
        start: 9,
        end: 40,
        params: vec![Parameter {
            identifier: ident(parameter, 10, 11),
            type_: None,
            optional: false,
            digest: None,
        }],
        body: Program {
            start: 16,
            end: 40,
            body: vec![BodyItem::ReturnStatement(ReturnStatement {
                start: 20,
                end: 32,
                argument: Expr::BinaryExpression(Box::new(BinaryExpression {
                    start: 27,
                    end: 32,
                    operator: BinaryOperator::Add,
                    left: BinaryPart::Identifier(Box::new(ident(body_name, 27, 28))),
                    right: BinaryPart::Literal(Box::new(Literal {
                        start: 31,
                        end: 32,
                        value: LiteralValue::IInteger(1),
                        raw: "1".to_string(),
                        digest: None,
                    })),
                    digest: None,
                })),
                digest: None,
            })],
            non_code_meta: NonCodeMeta::new(),
            digest: None,
        },
        return_type: None,
        digest: None,
    }))
}

#[test]
fn renaming_a_parameter_renames_it_in_the_body() {
    let mut tree = program(
        vec![declaration("inc", 0, 3, 40, function("p", "p")), statement(name("p", 41, 42))],
        42,
    );
    tree.rename_symbol("q", 10);
    // The reference outside the function is not the parameter, and stays.
    let expected = program(
        vec![declaration("inc", 0, 3, 40, function("q", "q")), statement(name("p", 41, 42))],
        42,
    );
    assert_eq!(tree, expected);
}

#[test]
fn references_inside_function_literals_are_renamed() {
    // const p = 1; fn inc = (z) => { return p + 1 }
    let mut tree = program(
        vec![
            declaration("p", 0, 0, 0, whole(1, 0, 0)),
            declaration("inc", 1, 3, 40, function("z", "p")),
        ],
        42,
    );
    tree.rename_symbol("q", 0);
    let expected = program(
        vec![
            declaration("q", 0, 0, 0, whole(1, 0, 0)),
            declaration("inc", 1, 3, 40, function("z", "q")),
        ],
        42,
    );
    assert_eq!(tree, expected);
    tree.rename_symbol("p", 0);
    assert_eq!(
        tree,
        program(
            vec![
                declaration("p", 0, 0, 0, whole(1, 0, 0)),
                declaration("inc", 1, 3, 40, function("z", "p")),
            ],
            42,
        )
    );
}

#[test]
fn parameter_of_the_old_name_shadows_it() {
    // const p = 1; fn inc = (p) => { return p + 1 }: inside, `p` is the
    // parameter, and stays.
    let mut tree = program(
        vec![
            declaration("p", 0, 0, 0, whole(1, 0, 0)),
            declaration("inc", 1, 3, 40, function("p", "p")),
            statement(name("p", 41, 42)),
        ],
        42,
    );
    tree.rename_symbol("q", 0);
    let expected = program(
        vec![
            declaration("q", 0, 0, 0, whole(1, 0, 0)),
            declaration("inc", 1, 3, 40, function("p", "p")),
            statement(name("q", 41, 42)),
        ],
        42,
    );
    assert_eq!(tree, expected);

    // A function literal as an argument is reached too.
    let mut call_with_function = call("map", 0, 50, vec![function("z", "k"), function("k", "k")]);
    call_with_function.rename_identifiers("k", "m");
    assert_eq!(call_with_function, call("map", 0, 50, vec![function("z", "m"), function("k", "k")]));
}

fn import(alias: Option<&str>) -> BodyItem {
    BodyItem::ImportStatement(Box::new(ImportStatement {
        start: 0,
        end: 30,
        items: vec![ImportItem {
            name: ident("part", 7, 11),
            alias: alias.map(|a| ident(a, 15, 16)),
            start: 7,
            end: 16,
            digest: None,
        }],
        path: "lib.kcl".to_string(),
        raw_path: "'lib.kcl'".to_string(),
        digest: None,
    }))
}

#[test]
fn renaming_an_alias_of_an_import() {
    let mut tree = program(vec![import(Some("p")), statement(name("p", 31, 32))], 32);
    tree.rename_symbol("q", 15);
    assert_eq!(tree, program(vec![import(Some("q")), statement(name("q", 31, 32))], 32));
    // On the imported name itself, which is no binding where there is an
    // alias, nothing is renamed.
    tree.rename_symbol("r", 8);
    assert_eq!(tree, program(vec![import(Some("q")), statement(name("q", 31, 32))], 32));
}

#[test]
fn renaming_an_import_without_alias_gives_it_one() {
    let mut tree = program(vec![import(None), statement(name("part", 31, 35))], 35);
    tree.rename_symbol("mine", 8);
    let expected = program(
        vec![
            BodyItem::ImportStatement(Box::new(ImportStatement {
                start: 0,
                end: 30,
                items: vec![ImportItem {
                    name: ident("part", 7, 11),
                    alias: Some(ident("mine", 0, 0)),
                    start: 7,
                    end: 16,
                    digest: None,
                }],
                path: "lib.kcl".to_string(),
                raw_path: "'lib.kcl'".to_string(),
                digest: None,
            })),
            statement(name("mine", 31, 35)),
        ],
        35,
    );
    assert_eq!(tree, expected);
}

#[test]
fn import_item_tells_the_name_that_was_bound() {
    let mut item = ImportItem {
        name: ident("part", 7, 11),
        alias: Some(ident("p", 15, 16)),
        start: 7,
        end: 16,
        digest: None,
    };
    assert_eq!(item.rename_symbol("q", 8), None);
    assert_eq!(item.rename_symbol("q", 15), Some("p".to_string()));
    assert_eq!(item.identifier(), "q");
    item.rename_identifiers("q", "r");
    assert_eq!(item.identifier(), "r");
    item.rename_identifiers("q", "s");
    assert_eq!(item.identifier(), "r");
}

#[test]
fn declaration_tells_the_name_that_was_bound() {
    let mut declaration = VariableDeclaration {
        start: 0,
        end: 20,
        declarations: vec![
            declarator("a", 6, 11, whole(1, 10, 11)),
            declarator("b", 13, 18, name("a", 17, 18)),
        ],
        visibility: ItemVisibility::Export,
        kind: VariableKind::Const,
        digest: None,
    };
    assert_eq!(declaration.rename_symbol("x", 21), None);
    assert_eq!(declaration.rename_symbol("x", 10), None);
    assert_eq!(declaration.rename_symbol("x", 13), Some("b".to_string()));
    assert_eq!(declaration.declarations[1].id.name, "x");
    // The references are left to the second step.
    declaration.rename_identifiers("a", "c");
    assert_eq!(declaration.declarations[1].init, name("c", 17, 18));
}

fn member(object: &str, property: &str, computed: bool) -> MemberExpression {
    MemberExpression {
        start: 0,
        end: 4,
        object: MemberObject::Identifier(Box::new(ident(object, 0, 1))),
        property: LiteralIdentifier::Identifier(Box::new(ident(property, 2, 3))),
        computed,
        digest: None,
    }
}

#[test]
fn member_expression_renames_base_and_computed_property() {
    let mut read = member("a", "a", true);
    read.rename_identifiers("a", "b");
    assert_eq!(read, member("b", "b", true));
    // In `a.a` the property names a field, and stays.
    let mut read = member("a", "a", false);
    read.rename_identifiers("a", "b");
    assert_eq!(read, member("b", "a", false));
}

#[test]
fn renaming_reaches_every_sort_of_expression() {
    let of = |n: &str| {
        Expr::IfExpression(Box::new(IfExpression {
            start: 0,
            end: 90,
            cond: Box::new(name(n, 3, 4)),
            then_val: Box::new(program(
                vec![statement(Expr::UnaryExpression(Box::new(UnaryExpression {
                    start: 7,
                    end: 9,
                    operator: UnaryOperator::Neg,
                    argument: BinaryPart::Identifier(Box::new(ident(n, 8, 9))),
                    digest: None,
                })))],
                10,
            )),
            else_ifs: vec![ElseIf {
                start: 11,
                end: 40,
                cond: Expr::ArrayRangeExpression(Box::new(ArrayRangeExpression {
                    start: 19,
                    end: 25,
                    start_element: Box::new(name(n, 20, 21)),
                    end_element: Box::new(whole(4, 23, 24)),
                    end_inclusive: true,
                    digest: None,
                })),
                then_val: Box::new(program(
                    vec![statement(Expr::ObjectExpression(Box::new(ObjectExpression {
                        start: 28,
                        end: 38,
                        properties: vec![ObjectProperty {
                            start: 29,
                            end: 33,
                            key: ident("a", 29, 30),
                            value: name(n, 32, 33),
                            digest: None,
                        }],
                        non_code_meta: NonCodeMeta::new(),
                        digest: None,
                    })))],
                    40,
                )),
                digest: None,
            }],
            final_else: Box::new(program(
                vec![statement(Expr::PipeExpression(Box::new(PipeExpression {
                    start: 50,
                    end: 80,
                    body: vec![name(n, 50, 51), call("f", 55, 60, vec![name(n, 57, 58)])],
                    non_code_meta: NonCodeMeta::new(),
                    digest: None,
                })))],
                90,
            )),
            digest: None,
        }))
    };
    let mut tree = program(vec![declaration("a", 0, 0, 0, whole(0, 0, 0)), statement(of("a"))], 90);
    tree.rename_symbol("b", 0);
    assert_eq!(
        tree,
        program(vec![declaration("b", 0, 0, 0, whole(0, 0, 0)), statement(of("b"))], 90)
    );
}

#[test]
fn value_at_a_range_is_replaced() {
    let mut tree = body_of(["a", "b", "g"]);
    tree.replace_value(SourceRange([28, 29]), whole(7, 0, 0));
    let expected = program(
        vec![
            declaration("a", 0, 6, 11, whole(1, 10, 11)),
            declaration(
                "b",
                12,
                18,
                32,
                array(vec![name("a", 23, 24), call("f", 26, 30, vec![whole(7, 0, 0)])], 22, 32),
            ),
            statement(call("g", 33, 40, vec![name("a", 35, 36), name("b", 38, 39)])),
        ],
        40,
    );
    assert_eq!(tree, expected);
    // A range at which nothing stands replaces nothing.
    tree.replace_value(SourceRange([28, 30]), whole(8, 0, 0));
    assert_eq!(tree, expected);
}

#[test]
fn every_value_at_the_range_is_replaced() {
    let mut list = array(vec![whole(1, 5, 6), whole(2, 5, 6), whole(3, 7, 8)], 0, 9);
    list.replace_value(SourceRange([5, 6]), name("x", 1, 2));
    assert_eq!(list, array(vec![name("x", 1, 2), name("x", 1, 2), whole(3, 7, 8)], 0, 9));
    // The expression itself is replaced where it stands at the range.
    list.replace_value(SourceRange([0, 9]), whole(0, 0, 0));
    assert_eq!(list, whole(0, 0, 0));
}

#[test]
fn first_declarator_of_a_name_is_replaced() {
    let mut tree = program(
        vec![
            statement(name("k", 0, 1)),
            declaration("k", 2, 8, 13, whole(1, 12, 13)),
            declaration("k", 14, 20, 25, whole(2, 24, 25)),
        ],
        25,
    );
    tree.replace_variable("k", VariableDeclarator::new("m", whole(5, 0, 0)));
    let expected = program(
        vec![
            statement(name("k", 0, 1)),
            BodyItem::VariableDeclaration(Box::new(VariableDeclaration {
                start: 2,
                end: 13,
                declarations: vec![VariableDeclarator {
                    start: 0,
                    end: 0,
                    id: ident("m", 0, 0),
                    init: whole(5, 0, 0),
                    digest: None,
                }],
                visibility: ItemVisibility::Default,
                kind: VariableKind::Const,
                digest: None,
            })),
            declaration("k", 14, 20, 25, whole(2, 24, 25)),
        ],
        25,
    );
    assert_eq!(tree, expected);
    // A name that is not declared replaces nothing.
    tree.replace_variable("zz", VariableDeclarator::new("n", whole(6, 0, 0)));
    assert_eq!(tree, expected);
}
