use kcl_ast::hover::SHEBANG_HELP;
use kcl_ast::range::lsp_position;
use kcl_ast::{
    ArrayExpression, BinaryExpression, BinaryOperator, BinaryPart, BodyItem, CallExpression,
    CompletionItemKind, Expr, ExpressionStatement, FunctionExpression, Hover, Identifier,
    ImportItem, ImportStatement, ItemVisibility, Literal, LiteralValue, LspPosition, LspRange,
    NonCodeMeta, NonCodeNode, NonCodeValue, ObjectExpression, ObjectProperty, Parameter, Program,
    ReturnStatement, SourceRange, SymbolKind, SymbolSite, TagDeclarator, ValueMeta,
    VariableDeclaration, VariableDeclarator, VariableKind,
};

fn ident(name: &str, start: usize, end: usize) -> Identifier {
    Identifier { start, end, name: name.to_string(), digest: None }
}

fn whole(value: i64, start: usize, end: usize) -> Expr {
    Expr::Literal(Box::new(Literal {
        start,
        end,
        value: LiteralValue::IInteger(value),
        raw: value.to_string(),
        digest: None,
    }))
}

fn call(callee: &str, start: usize, end: usize, arguments: Vec<Expr>) -> Expr {
    Expr::CallExpression(Box::new(CallExpression {
        start,
        end,
        callee: ident(callee, start, start + callee.len()),
        arguments,
        optional: false,
        digest: None,
    }))
}

fn tag(name: &str, start: usize, end: usize) -> Expr {
    Expr::TagDeclarator(Box::new(TagDeclarator { start, end, name: name.to_string(), digest: None }))
}

fn declaration(
    kind: VariableKind,
    name: &str,
    start: usize,
    name_start: usize,
    end: usize,
    init: Expr,
) -> BodyItem {
    BodyItem::VariableDeclaration(Box::new(VariableDeclaration {
        start,
        end,
        declarations: vec![VariableDeclarator {
            start: name_start,
            end,
            id: ident(name, name_start, name_start + name.len()),
            init,
            digest: None,
        }],
        visibility: ItemVisibility::Default,
        kind,
        digest: None,
    }))
}

fn statement(expression: Expr) -> BodyItem {
    let (start, end) = (expression.start(), expression.end());
    BodyItem::ExpressionStatement(ExpressionStatement { start, end, expression, digest: None })
}

fn program(body: Vec<BodyItem>, end: usize) -> Program {
    Program { start: 0, end, body, non_code_meta: NonCodeMeta::new(), digest: None }
}

fn at(line: u32, character: u32) -> LspPosition {
    LspPosition { line, character }
}

#[test]
fn positions_count_line_ends() {
    let code = "ab\ncd\n\nef";
    assert_eq!(lsp_position(code, 0), at(0, 0));
    assert_eq!(lsp_position(code, 1), at(0, 1));
    // The line end itself still stands in the line that it ends.
    assert_eq!(lsp_position(code, 2), at(0, 2));
    assert_eq!(lsp_position(code, 3), at(1, 0));
    assert_eq!(lsp_position(code, 5), at(1, 2));
    assert_eq!(lsp_position(code, 6), at(2, 0));
    assert_eq!(lsp_position(code, 7), at(3, 0));
    assert_eq!(lsp_position(code, 9), at(3, 2));
    // An offset behind the end of the text counts as its end.
    assert_eq!(lsp_position(code, 100), at(3, 2));
    assert_eq!(lsp_position("", 0), at(0, 0));
    assert_eq!(lsp_position("", 5), at(0, 0));
    // Columns count bytes.
    assert_eq!(lsp_position("é\nü", 2), at(0, 2));
    assert_eq!(lsp_position("é\nü", 5), at(1, 2));
}

#[test]
fn source_range_to_lines_and_columns() {
    let code = "const a = 1\nconst b = f(a)\n";
    let range = SourceRange([18, 26]);
    assert_eq!(range.start(), 18);
    assert_eq!(range.end(), 26);
    assert_eq!(range.start_to_lsp_position(code), at(1, 6));
    assert_eq!(range.end_to_lsp_position(code), at(1, 14));
    assert_eq!(range.to_lsp_range(code), LspRange { start: at(1, 6), end: at(1, 14) });
}

#[test]
fn source_range_holds_its_ends() {
    let range = SourceRange::new(3, 5);
    assert_eq!(range, SourceRange([3, 5]));
    assert!(!range.contains(2));
    assert!(range.contains(3));
    assert!(range.contains(4));
    assert!(range.contains(5));
    assert!(!range.contains(6));
    assert!(SourceRange([4, 4]).contains(4));
    assert!(!SourceRange([5, 3]).contains(4));
    assert_ne!(SourceRange([3, 5]), SourceRange([3, 6]));
    assert_ne!(SourceRange([3, 5]), SourceRange([2, 5]));
}

/// `f(1, g(2))\nh(3)`
fn calls() -> Program {
    program(
        vec![
            statement(call("f", 0, 10, vec![whole(1, 2, 3), call("g", 5, 9, vec![whole(2, 7, 8)])])),
            statement(call("h", 11, 15, vec![whole(3, 13, 14)])),
        ],
        15,
    )
}

const CALLS: &str = "f(1, g(2))\nh(3)";

#[test]
fn hover_on_a_callee_shows_the_function() {
    let tree = calls();
    assert_eq!(
        tree.get_hover_value_for_position(0, CALLS),
        Some(Hover::Function {
            name: "f".to_string(),
            range: LspRange { start: at(0, 0), end: at(0, 1) }
        })
    );
    assert_eq!(
        tree.get_hover_value_for_position(11, CALLS),
        Some(Hover::Function {
            name: "h".to_string(),
            range: LspRange { start: at(1, 0), end: at(1, 1) }
        })
    );
}

#[test]
fn hover_on_an_argument_shows_the_signature() {
    let tree = calls();
    assert_eq!(
        tree.get_hover_value_for_position(2, CALLS),
        Some(Hover::Signature {
            name: "f".to_string(),
            parameter_index: 0,
            range: LspRange { start: at(0, 2), end: at(0, 3) }
        })
    );
    // On the inner call the outer one answers first: the search does not go on
    // into the argument.
    assert_eq!(
        tree.get_hover_value_for_position(7, CALLS),
        Some(Hover::Signature {
            name: "f".to_string(),
            parameter_index: 1,
            range: LspRange { start: at(0, 5), end: at(0, 9) }
        })
    );
    assert_eq!(
        tree.get_hover_value_for_position(13, CALLS),
        Some(Hover::Signature {
            name: "h".to_string(),
            parameter_index: 0,
            range: LspRange { start: at(1, 2), end: at(1, 3) }
        })
    );
}

#[test]
fn hover_on_nothing_shows_nothing() {
    let tree = calls();
    // Between the two arguments.
    assert_eq!(tree.get_hover_value_for_position(4, CALLS), None);
    assert_eq!(tree.get_hover_value_for_position(16, CALLS), None);
    assert_eq!(tree.get_hover_value_for_position(1000, CALLS), None);
    let names = program(vec![statement(Expr::Identifier(Box::new(ident("x", 0, 1))))], 1);
    assert_eq!(names.get_hover_value_for_position(0, "x"), None);
}

#[test]
fn hover_on_the_shebang_explains_it() {
    let code = "#!/usr/bin/env zoo kcl\n\nf(1)";
    let mut tree = program(vec![statement(call("f", 24, 28, vec![whole(1, 26, 27)]))], 28);
    tree.non_code_meta.start.push(NonCodeNode {
        start: 0,
        end: 22,
        value: NonCodeValue::Shebang { value: "#!/usr/bin/env zoo kcl".to_string() },
        digest: None,
    });
    assert_eq!(
        tree.get_hover_value_for_position(5, code),
        Some(Hover::Comment {
            value: SHEBANG_HELP.to_string(),
            range: LspRange { start: at(0, 0), end: at(0, 22) }
        })
    );
    assert!(SHEBANG_HELP.starts_with("The `#!` at the start of a script"));
    assert_eq!(
        tree.get_hover_value_for_position(24, code),
        Some(Hover::Function {
            name: "f".to_string(),
            range: LspRange { start: at(2, 0), end: at(2, 1) }
        })
    );
}

#[test]
fn hover_looks_into_operands_and_function_bodies() {
    // `const k = 1 + f(2)`
    let sum = Expr::BinaryExpression(Box::new(BinaryExpression {
        start: 10,
        end: 18,
        operator: BinaryOperator::Add,
        left: BinaryPart::Literal(Box::new(Literal {
            start: 10,
            end: 11,
            value: LiteralValue::IInteger(1),
            raw: "1".to_string(),
            digest: None,
        })),
        right: BinaryPart::CallExpression(Box::new(CallExpression {
            start: 14,
            end: 18,
            callee: ident("f", 14, 15),
            arguments: vec![whole(2, 16, 17)],
            optional: false,
            digest: None,
        })),
        digest: None,
    }));
    let tree = program(vec![declaration(VariableKind::Const, "k", 0, 6, 18, sum)], 18);
    let code = "const k = 1 + f(2)";
    assert_eq!(
        tree.get_hover_value_for_position(14, code),
        Some(Hover::Function {
            name: "f".to_string(),
            range: LspRange { start: at(0, 14), end: at(0, 15) }
        })
    );
    assert_eq!(tree.get_hover_value_for_position(10, code), None);

    // `fn g = () => {\n  return f(2)\n}`
    let function = Expr::FunctionExpression(Box::new(FunctionExpression {
        start: 7,
        end: 30,
        params: vec![],
        body: Program {
            start: 13,
            end: 30,
            body: vec![BodyItem::ReturnStatement(ReturnStatement {
                start: 17,
                end: 28,
                argument: call("f", 24, 28, vec![whole(2, 26, 27)]),
                digest: None,
            })],
            non_code_meta: NonCodeMeta::new(),
            digest: None,
        },
        return_type: None,
        digest: None,
    }));
    let tree = program(vec![declaration(VariableKind::Fn, "g", 0, 3, 30, function)], 30);
    let code = "fn g = () => {\n  return f(2)\n}";
    assert_eq!(
        tree.get_hover_value_for_position(26, code),
        Some(Hover::Signature {
            name: "f".to_string(),
            parameter_index: 0,
            range: LspRange { start: at(1, 11), end: at(1, 12) }
        })
    );
}

#[test]
fn first_statement_that_holds_the_position_is_found() {
    // Two statements that touch: the offset between them belongs to both, and
    // the first is found.
    let tree = program(
        vec![
            statement(Expr::Identifier(Box::new(ident("a", 0, 3)))),
            statement(Expr::Identifier(Box::new(ident("b", 3, 6)))),
        ],
        6,
    );
    assert_eq!(tree.get_body_item_for_position(3), Some(&tree.body[0]));
    assert_eq!(tree.get_body_item_for_position(4), Some(&tree.body[1]));
    assert_eq!(tree.get_body_item_for_position(7), None);
    assert_eq!(
        tree.get_expr_for_position(4),
        Some(&Expr::Identifier(Box::new(ident("b", 3, 6))))
    );
    assert_eq!(tree.get_expr_for_position(7), None);
    assert!(tree.ends_with_expr());
    assert!(!program(vec![], 0).ends_with_expr());
    assert!(!program(vec![declaration(VariableKind::Const, "k", 0, 6, 11, whole(1, 10, 11))], 11)
        .ends_with_expr());
}

#[test]
fn expression_of_a_declaration_is_that_of_the_declarator_at_the_position() {
    let two = VariableDeclaration {
        start: 0,
        end: 20,
        declarations: vec![
            VariableDeclarator {
                start: 6,
                end: 11,
                id: ident("a", 6, 7),
                init: whole(1, 10, 11),
                digest: None,
            },
            VariableDeclarator {
                start: 13,
                end: 18,
                id: ident("b", 13, 14),
                init: whole(2, 17, 18),
                digest: None,
            },
        ],
        visibility: ItemVisibility::Default,
        kind: VariableKind::Const,
        digest: None,
    };
    assert_eq!(two.get_expr_for_position(6), Some(&whole(1, 10, 11)));
    assert_eq!(two.get_expr_for_position(14), Some(&whole(2, 17, 18)));
    assert_eq!(two.get_expr_for_position(12), None);
    assert_eq!(two.get_expr_for_position(19), None);
    assert_eq!(two.start(), 0);
    assert_eq!(two.end(), 20);

    let mut two = two;
    if let Some(init) = two.get_mut_expr_for_position(14) {
        *init = whole(3, 17, 18);
    } else {
        panic!("expected an expression");
    }
    assert_eq!(two.declarations[1].init, whole(3, 17, 18));
    assert_eq!(two.declarations[0].init, whole(1, 10, 11));
    assert!(two.get_mut_expr_for_position(12).is_none());

    let mut tree = program(vec![BodyItem::VariableDeclaration(Box::new(two))], 20);
    assert!(tree.get_mut_body_item_for_position(21).is_none());
    if let Some(item) = tree.get_mut_body_item_for_position(5) {
        *item = statement(whole(9, 0, 20));
    } else {
        panic!("expected a statement");
    }
    assert_eq!(tree.body[0], statement(whole(9, 0, 20)));
}

#[test]
fn what_is_no_code_is_found_by_position() {
    let mut in_array = NonCodeMeta::new();
    in_array.insert(
        0,
        NonCodeNode { start: 4, end: 9, value: NonCodeValue::NewLine, digest: None },
    );
    let array = Expr::ArrayExpression(Box::new(ArrayExpression {
        start: 0,
        end: 12,
        elements: vec![whole(1, 1, 2), whole(2, 10, 11)],
        non_code_meta: in_array,
        digest: None,
    }));
    assert!(array.get_non_code_meta().is_some());
    assert!(whole(1, 0, 1).get_non_code_meta().is_none());
    let tree = program(vec![statement(array)], 12);
    assert!(tree.get_non_code_meta_for_position(5).is_some());
    assert!(tree.get_non_code_meta_for_position(2).is_none());
    assert!(tree.get_non_code_meta_for_position(13).is_none());

    let mut meta = NonCodeMeta::new();
    assert!(meta.is_empty());
    assert_eq!(meta.non_code_nodes_len(), 0);
    assert!(!meta.contains(0));
    meta.insert(3, NonCodeNode { start: 4, end: 9, value: NonCodeValue::NewLine, digest: None });
    meta.insert(3, NonCodeNode { start: 10, end: 12, value: NonCodeValue::NewLine, digest: None });
    meta.insert(1, NonCodeNode { start: 20, end: 22, value: NonCodeValue::NewLine, digest: None });
    meta.start.push(NonCodeNode { start: 0, end: 2, value: NonCodeValue::NewLine, digest: None });
    assert!(!meta.is_empty());
    assert_eq!(meta.non_code_nodes_len(), 3);
    assert_eq!(meta.non_code_nodes[&3].len(), 2);
    assert_eq!(meta.non_code_nodes[&3][1].start, 10);
    assert!(meta.contains(1));
    assert!(meta.contains(4));
    assert!(meta.contains(12));
    assert!(meta.contains(21));
    assert!(!meta.contains(3));
    assert!(!meta.contains(15));
}

/// `const part = line(1, $side)`, `fn area = (w, h?) => {\n  const inner = 2\n  return inner\n}`,
/// `const box = {w: 1, d: 2}` and `const list = [1]`, at offsets that are made up.
fn outline() -> Program {
    let function = Expr::FunctionExpression(Box::new(FunctionExpression {
        start: 40,
        end: 90,
        params: vec![
            Parameter { identifier: ident("w", 41, 42), type_: None, optional: false, digest: None },
            Parameter { identifier: ident("h", 44, 45), type_: None, optional: true, digest: None },
        ],
        body: Program {
            start: 52,
            end: 90,
            body: vec![
                declaration(VariableKind::Const, "inner", 56, 62, 71, whole(2, 70, 71)),
                BodyItem::ReturnStatement(ReturnStatement {
                    start: 74,
                    end: 86,
                    argument: Expr::Identifier(Box::new(ident("inner", 81, 86))),
                    digest: None,
                }),
            ],
            non_code_meta: NonCodeMeta::new(),
            digest: None,
        },
        return_type: None,
        digest: None,
    }));
    let object = Expr::ObjectExpression(Box::new(ObjectExpression {
        start: 103,
        end: 115,
        properties: vec![
            ObjectProperty {
                start: 104,
                end: 108,
                key: ident("w", 104, 105),
                value: whole(1, 107, 108),
                digest: None,
            },
            ObjectProperty {
                start: 110,
                end: 114,
                key: ident("d", 110, 111),
                value: whole(2, 113, 114),
                digest: None,
            },
        ],
        non_code_meta: NonCodeMeta::new(),
        digest: None,
    }));
    let list = Expr::ArrayExpression(Box::new(ArrayExpression {
        start: 129,
        end: 132,
        elements: vec![whole(1, 130, 131)],
        non_code_meta: NonCodeMeta::new(),
        digest: None,
    }));
    program(
        vec![
            declaration(
                VariableKind::Const,
                "part",
                0,
                6,
                27,
                call("line", 13, 27, vec![whole(1, 18, 19), tag("side", 21, 26)]),
            ),
            declaration(VariableKind::Fn, "area", 29, 32, 90, function),
            declaration(VariableKind::Const, "box", 92, 98, 115, object),
            declaration(VariableKind::Const, "list", 116, 122, 132, list),
        ],
        132,
    )
}

#[test]
fn outline_lists_declarations_and_tags_in_order() {
    let code = " ".repeat(132);
    let tree = outline();
    let sites = tree.symbol_sites();
    assert_eq!(sites.len(), 6);
    assert!(matches!(sites[0], SymbolSite::Declaration(_)));
    assert!(matches!(sites[1], SymbolSite::Tag(_)));

    let symbols = tree.get_lsp_symbols(&code);
    let names: Vec<&str> = symbols.iter().map(|s| s.name.as_str()).collect();
    assert_eq!(names, vec!["part", "side", "area", "inner", "box", "list"]);

    assert_eq!(symbols[0].kind, SymbolKind::Constant);
    assert_eq!(symbols[0].detail, Some("const".to_string()));
    assert_eq!(symbols[0].range, LspRange { start: at(0, 6), end: at(0, 27) });
    assert_eq!(symbols[0].selection_range, LspRange { start: at(0, 6), end: at(0, 10) });
    assert_eq!(symbols[0].children, Some(vec![]));

    assert_eq!(symbols[1].kind, SymbolKind::Constant);
    assert_eq!(symbols[1].detail, None);
    assert_eq!(symbols[1].children, None);
    assert_eq!(symbols[1].range, LspRange { start: at(0, 21), end: at(0, 26) });

    assert_eq!(symbols[2].kind, SymbolKind::Function);
    assert_eq!(symbols[2].detail, Some("fn".to_string()));
    let parameters = symbols[2].children.as_ref().unwrap();
    assert_eq!(parameters.len(), 2);
    assert_eq!(parameters[0].name, "w");
    assert_eq!(parameters[0].kind, SymbolKind::Constant);
    assert_eq!(parameters[1].name, "h");
    assert_eq!(parameters[1].selection_range, LspRange { start: at(0, 44), end: at(0, 45) });
    assert_eq!(parameters[1].children, None);

    assert_eq!(symbols[4].kind, SymbolKind::Object);
    let properties = symbols[4].children.as_ref().unwrap();
    assert_eq!(properties.len(), 2);
    assert_eq!(properties[1].name, "d");
    assert_eq!(properties[1].kind, SymbolKind::Property);
    assert_eq!(properties[1].range, LspRange { start: at(0, 110), end: at(0, 114) });
    assert_eq!(properties[1].selection_range, LspRange { start: at(0, 110), end: at(0, 111) });

    assert_eq!(symbols[5].kind, SymbolKind::Array);
    assert_eq!(symbols[5].children, Some(vec![]));
}

#[test]
fn tag_and_property_give_one_symbol_each() {
    let tag = TagDeclarator { start: 2, end: 7, name: "side".to_string(), digest: None };
    let symbols = tag.get_lsp_symbols("x = $side");
    assert_eq!(symbols.len(), 1);
    assert_eq!(symbols[0].name, "side");
    assert_eq!(symbols[0].selection_range, LspRange { start: at(0, 2), end: at(0, 7) });

    let property = ObjectProperty {
        start: 1,
        end: 5,
        key: ident("a", 1, 2),
        value: whole(1, 4, 5),
        digest: None,
    };
    let symbols = property.get_lsp_symbols("{a: 1}");
    assert_eq!(symbols.len(), 1);
    assert_eq!(symbols[0].kind, SymbolKind::Property);
    assert_eq!(symbols[0].range, LspRange { start: at(0, 1), end: at(0, 5) });
    assert_eq!(symbols[0].selection_range, LspRange { start: at(0, 1), end: at(0, 2) });
}

#[test]
fn completion_offers_declared_names_and_tags() {
    let items = outline().completion_items();
    let labels: Vec<&str> = items.iter().map(|i| i.label.as_str()).collect();
    assert_eq!(labels, vec!["part", "side", "area", "inner", "box", "list"]);
    assert_eq!(items[0].kind, Some(CompletionItemKind::Constant));
    assert_eq!(items[0].detail, Some("const".to_string()));
    assert_eq!(items[1].kind, Some(CompletionItemKind::Reference));
    assert_eq!(
        items[1].detail,
        Some("tag (A reference to an entity you previously named)".to_string())
    );
    assert_eq!(items[2].kind, Some(CompletionItemKind::Function));
    assert_eq!(items[2].detail, Some("fn".to_string()));
    assert_eq!(items[2].documentation, None);
}

#[test]
fn keywords_are_offered_to_complete() {
    let items = VariableKind::to_completion_items();
    assert_eq!(items.len(), 2);
    assert_eq!(items[0].label, "const");
    assert_eq!(items[0].kind, Some(CompletionItemKind::Keyword));
    assert_eq!(items[0].documentation, Some("Declare a named constant.".to_string()));
    assert_eq!(items[1].label, "fn");
    assert_eq!(items[1].documentation, Some("Declare a function.".to_string()));
}

#[test]
fn last_definition_of_a_name_is_found() {
    let both = VariableDeclaration {
        start: 0,
        end: 20,
        declarations: vec![
            VariableDeclarator {
                start: 6,
                end: 11,
                id: ident("a", 6, 7),
                init: whole(1, 10, 11),
                digest: None,
            },
            VariableDeclarator {
                start: 13,
                end: 18,
                id: ident("a", 13, 14),
                init: whole(2, 17, 18),
                digest: None,
            },
        ],
        visibility: ItemVisibility::Default,
        kind: VariableKind::Const,
        digest: None,
    };
    let import = ImportStatement {
        start: 21,
        end: 40,
        items: vec![ImportItem { name: ident("a", 28, 29), alias: None, start: 28, end: 29, digest: None }],
        path: "lib.kcl".to_string(),
        raw_path: "'lib.kcl'".to_string(),
        digest: None,
    };
    // In one declaration the last declarator of the name is found.
    let tree = program(vec![BodyItem::VariableDeclaration(Box::new(both.clone()))], 20);
    match tree.get_variable("a") {
        Some(kcl_ast::Definition::Variable(declarator)) => {
            assert_eq!(declarator.init, whole(2, 17, 18));
        },
        other => panic!("expected a declarator, got {:?}", other),
    }
    // An import behind the declaration shadows it, and the other way round.
    let tree = program(
        vec![
            BodyItem::VariableDeclaration(Box::new(both.clone())),
            BodyItem::ImportStatement(Box::new(import.clone())),
            statement(whole(0, 41, 42)),
        ],
        42,
    );
    assert!(matches!(tree.get_variable("a"), Some(kcl_ast::Definition::Import(_))));
    let tree = program(
        vec![
            BodyItem::ImportStatement(Box::new(import)),
            BodyItem::VariableDeclaration(Box::new(both)),
        ],
        42,
    );
    assert!(matches!(tree.get_variable("a"), Some(kcl_ast::Definition::Variable(_))));
    assert!(program(vec![], 0).get_variable("a").is_none());
}

#[test]
fn imports_are_found_by_name() {
    let import = ImportStatement {
        start: 0,
        end: 30,
        items: vec![
            ImportItem { name: ident("a", 7, 8), alias: None, start: 7, end: 8, digest: None },
            ImportItem {
                name: ident("b", 10, 11),
                alias: Some(ident("c", 15, 16)),
                start: 10,
                end: 16,
                digest: None,
            },
        ],
        path: "lib.kcl".to_string(),
        raw_path: "'lib.kcl'".to_string(),
        digest: None,
    };
    assert_eq!(import.items[0].identifier(), "a");
    assert_eq!(import.items[1].identifier(), "c");
    assert_eq!(import.start(), 0);
    assert_eq!(import.end(), 30);
    let tree = program(
        vec![
            BodyItem::ImportStatement(Box::new(import)),
            declaration(VariableKind::Const, "k", 31, 37, 42, whole(1, 41, 42)),
            declaration(VariableKind::Const, "k", 43, 49, 54, whole(2, 53, 54)),
        ],
        54,
    );
    assert!(matches!(tree.get_variable("a"), Some(kcl_ast::Definition::Import(_))));
    assert!(matches!(tree.get_variable("c"), Some(kcl_ast::Definition::Import(_))));
    assert!(tree.get_variable("b").is_none());
    assert!(tree.get_variable("z").is_none());
    // Of two declarations of one name the last is found: it shadows the first.
    match tree.get_variable("k") {
        Some(kcl_ast::Definition::Variable(declarator)) => {
            assert_eq!(declarator.init, whole(2, 53, 54));
        },
        other => panic!("expected a declarator, got {:?}", other),
    }
}
