use kcl_ast::non_code::{write_line_comment, InvalidKey};
use kcl_ast::text::{first_line, more_lines, parse_index, str_eq};
use kcl_ast::{
    human_friendly_type, ArrayExpression, ArrayRangeExpression, Associativity, BinaryExpression,
    BinaryOperator, BinaryPart, CallExpression, CommentStyle, ConstraintKind, ConstraintLevel,
    ConstraintLevels, Expr, FnArgPrimitive, FnArgType, FormatOptions, Fraction, Function,
    FunctionExpression, Identifier, ItemVisibility, JsonKind, KclNone, Literal, LiteralValue,
    NonCodeMeta, NonCodeNode, NonCodeValue, ObjectExpression, Parameter, PipeExpression,
    PipeSubstitution, Program, RequiredParamAfterOptionalParam, SourceRange, TagDeclarator,
    UnaryExpression, UnaryOperator, VariableDeclaration, VariableDeclarator, VariableKind,
    PIPE_OPERATOR_WIDTH,
};

fn whole(value: i64) -> Expr {
    Expr::Literal(Box::new(Literal::new(LiteralValue::IInteger(value))))
}

#[test]
fn literal_is_written_as_json_writes_it() {
    assert_eq!(Literal::new(LiteralValue::IInteger(5)).raw, "5");
    assert_eq!(Literal::new(LiteralValue::IInteger(-17)).raw, "-17");
    assert_eq!(Literal::new(LiteralValue::IInteger(i64::MIN)).raw, "-9223372036854775808");
    assert_eq!(Literal::new(LiteralValue::String("a".to_string())).raw, "\"a\"");
    assert_eq!(Literal::new(LiteralValue::String("a\"b\n".to_string())).raw, "\"a\\\"b\\n\"");
    assert_eq!(Literal::new(LiteralValue::String(String::new())).raw, "\"\"");
    assert_eq!(Literal::new(LiteralValue::Bool(true)).raw, "true");
    assert_eq!(Literal::new(LiteralValue::Bool(false)).raw, "false");
    let half = Fraction { bits: 0.5f64.to_bits(), text: "0.5".to_string() };
    let literal = Literal::new(LiteralValue::Fractional(half));
    assert_eq!(literal.raw, "0.5");
    assert_eq!(literal.start, 0);
    assert_eq!(literal.end, 0);
    assert_eq!(literal.digest, None);
    assert_eq!(LiteralValue::IInteger(3).json_text(), "3");
    assert_eq!(LiteralValue::IInteger(0).json_text(), "0");
    assert_eq!(LiteralValue::IInteger(1000).json_text(), "1000");
    assert_eq!(LiteralValue::IInteger(i64::MAX).json_text(), "9223372036854775807");
}

#[test]
fn sorts_of_value_have_friendly_names() {
    assert_eq!(human_friendly_type(JsonKind::Null), "null");
    assert_eq!(human_friendly_type(JsonKind::Bool), "boolean (true/false value)");
    assert_eq!(human_friendly_type(JsonKind::Number), "number");
    assert_eq!(human_friendly_type(JsonKind::String), "string (text)");
    assert_eq!(human_friendly_type(JsonKind::Array), "array (list)");
    assert_eq!(human_friendly_type(JsonKind::Object), "object");
}

#[test]
fn digest_of_an_identifier_is_the_hash_of_its_pieces() {
    // The pieces are the byte 9 and the name; each stands behind its length
    // in eight bytes, the lowest first.
    let mut x = Identifier::new("x");
    let expected = [
        66, 194, 218, 0, 255, 141, 88, 164, 209, 8, 11, 91, 96, 139, 174, 148, 237, 160, 94, 154,
        207, 184, 236, 221, 156, 234, 176, 179, 67, 196, 127, 164,
    ];
    assert_eq!(x.compute_digest(), expected);
    assert_eq!(x.digest, Some(expected));
    let mut elsewhere = Identifier { start: 40, end: 41, name: "x".to_string(), digest: None };
    assert_eq!(elsewhere.compute_digest(), expected);
    let mut y = Identifier::new("y");
    assert_ne!(y.compute_digest(), expected);
    let none = KclNone::new(3, 4);
    assert_eq!(
        none.compute_digest(),
        [
            100, 85, 161, 21, 250, 229, 101, 123, 194, 137, 186, 145, 182, 12, 146, 37, 70, 236,
            248, 221, 52, 181, 214, 186, 230, 233, 218, 204, 85, 150, 31, 200
        ]
    );
}

#[test]
fn digest_tells_sorts_of_node_and_of_value_apart() {
    let mut tag = TagDeclarator::new("x");
    let mut identifier = Identifier::new("x");
    assert_ne!(tag.compute_digest(), identifier.compute_digest());

    let digest_of = |value: LiteralValue| Literal::new(value).compute_digest();
    let one = digest_of(LiteralValue::IInteger(1));
    assert_ne!(one, digest_of(LiteralValue::IInteger(2)));
    assert_ne!(one, digest_of(LiteralValue::Bool(true)));
    assert_ne!(one, digest_of(LiteralValue::String("1".to_string())));
    assert_ne!(
        one,
        digest_of(LiteralValue::Fractional(Fraction {
            bits: 1.0f64.to_bits(),
            text: "1".to_string()
        }))
    );
    assert_eq!(one, digest_of(LiteralValue::IInteger(1)));

    let sum = |operator: BinaryOperator| {
        BinaryExpression::new(
            operator,
            BinaryPart::Identifier(Box::new(Identifier::new("a"))),
            BinaryPart::Identifier(Box::new(Identifier::new("b"))),
        )
        .compute_digest()
    };
    assert_ne!(sum(BinaryOperator::Add), sum(BinaryOperator::Sub));
    assert_eq!(sum(BinaryOperator::Add), sum(BinaryOperator::Add));

    // The order of the keys under which pieces that are no code are held
    // does not matter; what is held does.
    let node = |at: usize| NonCodeNode {
        start: at,
        end: at + 1,
        value: NonCodeValue::NewLine,
        digest: None,
    };
    let mut forward = NonCodeMeta::new();
    forward.insert(1, node(1));
    forward.insert(7, node(7));
    forward.insert(3, node(3));
    let mut backward = NonCodeMeta::new();
    backward.insert(3, node(30));
    backward.insert(7, node(70));
    backward.insert(1, node(10));
    assert_eq!(forward.compute_digest(), backward.compute_digest());
    let mut other = NonCodeMeta::new();
    other.insert(1, node(1));
    other.insert(7, node(7));
    other.insert(4, node(3));
    assert_ne!(other.compute_digest(), backward.compute_digest());
}

#[test]
fn operators_have_ids_names_and_precedence() {
    assert_eq!(&BinaryOperator::Add.digestable_id(), b"add");
    assert_eq!(&BinaryOperator::Sub.digestable_id(), b"sub");
    assert_eq!(&BinaryOperator::Mul.digestable_id(), b"mul");
    assert_eq!(&BinaryOperator::Div.digestable_id(), b"div");
    assert_eq!(&BinaryOperator::Mod.digestable_id(), b"mod");
    assert_eq!(&BinaryOperator::Pow.digestable_id(), b"pow");
    assert_eq!(&BinaryOperator::Eq.digestable_id(), b"eqq");
    assert_eq!(&BinaryOperator::Neq.digestable_id(), b"neq");
    assert_eq!(&BinaryOperator::Gt.digestable_id(), b"gtr");
    assert_eq!(&BinaryOperator::Gte.digestable_id(), b"gte");
    assert_eq!(&BinaryOperator::Lt.digestable_id(), b"ltr");
    assert_eq!(&BinaryOperator::Lte.digestable_id(), b"lte");
    assert_eq!(&UnaryOperator::Neg.digestable_id(), b"neg");
    assert_eq!(&UnaryOperator::Not.digestable_id(), b"not");
    assert_eq!(&CommentStyle::Line.digestable_id(), b"//");
    assert_eq!(&CommentStyle::Block.digestable_id(), b"/*");
    assert_eq!(ItemVisibility::Default.digestable_id(), [0]);
    assert_eq!(ItemVisibility::Export.digestable_id(), [1]);
    assert_eq!(VariableKind::Const.digestable_id(), [2]);
    assert_eq!(VariableKind::Fn.digestable_id(), [3]);
    assert_ne!(FnArgPrimitive::String.digestable_id(), FnArgPrimitive::Number.digestable_id());

    assert_eq!(BinaryOperator::Add.precedence(), 11);
    assert_eq!(BinaryOperator::Sub.precedence(), 11);
    assert_eq!(BinaryOperator::Mul.precedence(), 12);
    assert_eq!(BinaryOperator::Div.precedence(), 12);
    assert_eq!(BinaryOperator::Mod.precedence(), 12);
    assert_eq!(BinaryOperator::Pow.precedence(), 13);
    assert_eq!(BinaryOperator::Gt.precedence(), 9);
    assert_eq!(BinaryOperator::Lte.precedence(), 9);
    assert_eq!(BinaryOperator::Eq.precedence(), 8);
    assert_eq!(BinaryOperator::Neq.precedence(), 8);
    assert_eq!(BinaryOperator::Pow.associativity(), Associativity::Right);
    assert_eq!(BinaryOperator::Add.associativity(), Associativity::Left);
    assert_eq!(BinaryOperator::Eq.associativity(), Associativity::Left);
    assert!(Associativity::Left.is_left());
    assert!(!Associativity::Right.is_left());
    let product = BinaryExpression::new(
        BinaryOperator::Mul,
        BinaryPart::Identifier(Box::new(Identifier { start: 3, end: 4, name: "a".into(), digest: None })),
        BinaryPart::Identifier(Box::new(Identifier { start: 7, end: 8, name: "b".into(), digest: None })),
    );
    assert_eq!(product.precedence(), 12);
    assert_eq!(product.start, 3);
    assert_eq!(product.end, 8);
}

#[test]
fn names_are_written_and_read_back() {
    for (operator, written) in [
        (BinaryOperator::Add, "+"),
        (BinaryOperator::Sub, "-"),
        (BinaryOperator::Mul, "*"),
        (BinaryOperator::Div, "/"),
        (BinaryOperator::Mod, "%"),
        (BinaryOperator::Pow, "^"),
        (BinaryOperator::Eq, "=="),
        (BinaryOperator::Neq, "!="),
        (BinaryOperator::Gt, ">"),
        (BinaryOperator::Gte, ">="),
        (BinaryOperator::Lt, "<"),
        (BinaryOperator::Lte, "<="),
    ] {
        assert_eq!(operator.to_string(), written);
        assert_eq!(BinaryOperator::from_str(written), Some(operator));
    }
    assert_eq!(BinaryOperator::from_str("=>"), None);
    assert_eq!(BinaryOperator::from_str(""), None);
    assert_eq!(UnaryOperator::Neg.to_string(), "-");
    assert_eq!(UnaryOperator::from_str("!"), Some(UnaryOperator::Not));
    assert_eq!(UnaryOperator::from_str("not"), None);
    assert_eq!(VariableKind::Const.to_string(), "const");
    assert_eq!(VariableKind::from_str("fn"), Some(VariableKind::Fn));
    assert_eq!(VariableKind::from_str("Fn"), None);
    assert_eq!(ItemVisibility::Export.to_string(), "export");
    assert_eq!(ItemVisibility::from_str("default"), Some(ItemVisibility::Default));
    assert_eq!(ItemVisibility::default(), ItemVisibility::Default);
    assert!(ItemVisibility::Default.is_default());
    assert!(!ItemVisibility::Export.is_default());
    for (primitive, written) in [
        (FnArgPrimitive::String, "string"),
        (FnArgPrimitive::Number, "number"),
        (FnArgPrimitive::Boolean, "bool"),
        (FnArgPrimitive::Tag, "tag"),
        (FnArgPrimitive::Sketch, "sketch"),
        (FnArgPrimitive::SketchSurface, "sketch_surface"),
        (FnArgPrimitive::Solid, "solid"),
    ] {
        assert_eq!(primitive.to_string(), written);
        assert_eq!(FnArgPrimitive::from_str(written), Some(primitive));
    }
    assert_eq!(FnArgPrimitive::from_str("boolean"), None);
}

fn piece(value: NonCodeValue, start: usize) -> NonCodeNode {
    NonCodeNode { start, end: start + 5, value, digest: None }
}

#[test]
fn what_is_no_code_is_written_back() {
    let line = CommentStyle::Line;
    let block = CommentStyle::Block;
    let said = |value: &str| value.to_string();

    let shebang = piece(NonCodeValue::Shebang { value: said("#!/bin/kcl") }, 0);
    assert_eq!(shebang.format("  "), "#!/bin/kcl\n\n");
    assert_eq!(shebang.value(), "#!/bin/kcl");

    let inline = piece(NonCodeValue::InlineComment { value: said("hi"), style: line }, 9);
    assert_eq!(inline.format("  "), " // hi\n");
    let inline = piece(NonCodeValue::InlineComment { value: said("hi"), style: block }, 9);
    assert_eq!(inline.format("  "), " /* hi */");

    let own_line = piece(NonCodeValue::BlockComment { value: said("  hi  "), style: line }, 9);
    assert_eq!(own_line.format("  "), "  // hi\n");
    assert_eq!(own_line.value(), "  hi  ");
    let own_line = piece(NonCodeValue::BlockComment { value: said("   "), style: line }, 9);
    assert_eq!(own_line.format("    "), "    //\n");
    let own_line = piece(NonCodeValue::BlockComment { value: said(" hi "), style: block }, 9);
    assert_eq!(own_line.format("  "), "  /*  hi  */");

    let spaced = piece(NonCodeValue::NewLineBlockComment { value: said(" hi"), style: line }, 9);
    assert_eq!(spaced.format("  "), "\n\n  // hi\n");
    let spaced = piece(NonCodeValue::NewLineBlockComment { value: said(""), style: line }, 9);
    assert_eq!(spaced.format(""), "\n\n//\n");
    let spaced = piece(NonCodeValue::NewLineBlockComment { value: said("hi"), style: block }, 9);
    assert_eq!(spaced.format("\t"), "\n\n\t/* hi */\n");
    // At the very start of a text no blank line is written above.
    let first = piece(NonCodeValue::NewLineBlockComment { value: said("hi"), style: line }, 0);
    assert_eq!(first.format("  "), "  // hi\n");
    let first = piece(NonCodeValue::NewLineBlockComment { value: said("hi"), style: block }, 0);
    assert_eq!(first.format("  "), "  /* hi */\n");

    let blank = piece(NonCodeValue::NewLine, 9);
    assert_eq!(blank.format("  "), "\n\n");
    assert_eq!(blank.value(), "\n\n");
    assert!(blank.contains(9));
    assert!(blank.contains(14));
    assert!(!blank.contains(8));
    assert!(!blank.contains(15));
    assert_eq!(blank.source_range(), SourceRange([9, 14]));
}

#[test]
fn comment_of_one_line_is_written_of_the_text_given() {
    assert_eq!(write_line_comment("  ".to_string(), "hi"), "  // hi\n");
    assert_eq!(write_line_comment(String::new(), "a b"), "// a b\n");
    assert_eq!(write_line_comment("\t".to_string(), ""), "\t//\n");
    // The text is taken as it is given.
    assert_eq!(write_line_comment(String::new(), " hi "), "//  hi \n");
}

#[test]
fn indentation_by_level() {
    let usual = FormatOptions::new();
    assert_eq!(usual, FormatOptions::default());
    assert_eq!(usual.tab_size, 2);
    assert!(!usual.use_tabs);
    assert!(usual.insert_final_newline);
    assert_eq!(usual.get_indentation(0), "");
    assert_eq!(usual.get_indentation(1), "  ");
    assert_eq!(usual.get_indentation(3), "      ");
    assert_eq!(PIPE_OPERATOR_WIDTH, 2);
    assert_eq!(usual.get_indentation_offset_pipe(0), "   ");
    assert_eq!(usual.get_indentation_offset_pipe(2), "       ");
    let wide = FormatOptions { tab_size: 4, use_tabs: false, insert_final_newline: false };
    assert_eq!(wide.get_indentation(2), "        ");
    assert_eq!(wide.get_indentation_offset_pipe(1), "       ");
    let tabs = FormatOptions { tab_size: 4, use_tabs: true, insert_final_newline: true };
    assert_eq!(tabs.get_indentation(0), "");
    assert_eq!(tabs.get_indentation(2), "\t\t");
    assert_eq!(tabs.get_indentation_offset_pipe(2), "\t\t\t");
}

fn parameter(name: &str, optional: bool) -> Parameter {
    Parameter { identifier: Identifier::new(name), type_: None, optional, digest: None }
}

fn function_of(params: Vec<Parameter>) -> FunctionExpression {
    FunctionExpression {
        start: 0,
        end: 0,
        params,
        body: Program {
            start: 0,
            end: 0,
            body: Vec::new(),
            non_code_meta: NonCodeMeta::new(),
            digest: None,
        },
        return_type: None,
        digest: None,
    }
}

#[test]
fn required_parameter_behind_an_optional_one_is_an_error() {
    let function = function_of(vec![
        parameter("a", false),
        parameter("b", true),
        parameter("c", false),
        parameter("d", true),
        parameter("e", false),
    ]);
    let error = function.required_and_optional_params().unwrap_err();
    assert_eq!(error, RequiredParamAfterOptionalParam(Box::new(parameter("c", false))));
    assert_eq!(
        error.to_string(),
        "KCL functions must declare any optional parameters after all the required parameters. But your required parameter c is _after_ an optional parameter. You must move it to before the optional parameters instead."
    );
    // The other two functions do not look for the error.
    assert_eq!(function.required_params(), &[parameter("a", false)]);
    assert_eq!(function.number_of_args(), 1..=5);
}

#[test]
fn parameters_are_split_at_the_first_optional_one() {
    let function = function_of(vec![
        parameter("a", false),
        parameter("b", false),
        parameter("c", true),
    ]);
    let (required, optional) = function.required_and_optional_params().unwrap();
    assert_eq!(required, &[parameter("a", false), parameter("b", false)]);
    assert_eq!(optional, &[parameter("c", true)]);
    assert_eq!(function.required_params().len(), 2);
    assert_eq!(function.number_of_args(), 2..=3);

    let none = function_of(vec![]);
    let (required, optional) = none.required_and_optional_params().unwrap();
    assert!(required.is_empty());
    assert!(optional.is_empty());

    let all_optional = function_of(vec![parameter("a", true), parameter("b", true)]);
    let (required, optional) = all_optional.required_and_optional_params().unwrap();
    assert!(required.is_empty());
    assert_eq!(optional.len(), 2);
}

#[test]
fn functions_are_the_same_by_sort_and_name() {
    let named = |name: &str| Function::StdLib { name: name.to_string() };
    let written = |name: &str| Function::StdLibKcl { name: name.to_string() };
    assert!(named("line") == named("line"));
    assert!(named("line") != named("arc"));
    assert!(written("circle") == written("circle"));
    assert!(written("circle") != written("line"));
    assert!(named("line") != written("line"));
    assert!(Function::InMemory == Function::InMemory);
    assert!(Function::InMemory != named("line"));
    assert!(written("line") != Function::InMemory);
    assert!(Function::default() == Function::InMemory);
}

#[test]
fn levels_are_equal_by_kind() {
    let at = |a: usize, b: usize| vec![SourceRange([a, b])];
    let full = ConstraintLevel::Full { source_ranges: at(1, 2) };
    assert!(full == ConstraintLevel::Full { source_ranges: at(3, 4) });
    assert!(full != ConstraintLevel::Unconstrained { source_ranges: at(1, 2) });
    assert!(full != ConstraintLevel::Ignore { source_ranges: at(1, 2) });
    assert_eq!(full.to_string(), "full");
    assert_eq!(ConstraintLevel::Ignore { source_ranges: vec![] }.to_string(), "ignore");
    assert_eq!(ConstraintLevel::Unconstrained { source_ranges: vec![] }.to_string(), "none");

    let moved = full.update_source_ranges(SourceRange([8, 9]));
    assert_eq!(moved.kind(), ConstraintKind::Full);
    assert_eq!(moved.source_ranges(), at(8, 9));

    let mut levels = ConstraintLevels::new();
    assert_eq!(levels.get_constraint_level(SourceRange([0, 1])).kind(), ConstraintKind::Ignore);
    levels.push(ConstraintLevel::Unconstrained { source_ranges: at(1, 2) });
    levels.push(ConstraintLevel::Full { source_ranges: at(3, 4) });
    let partial = levels.get_constraint_level(SourceRange([0, 9]));
    assert_eq!(partial.to_string(), "partial");
    assert_eq!(partial.source_ranges(), at(0, 9));
    let moved = partial.update_source_ranges(SourceRange([5, 6]));
    match &moved {
        ConstraintLevel::Partial { source_ranges, levels } => {
            assert_eq!(source_ranges, &at(5, 6));
            assert_eq!(levels.0.len(), 2);
        },
        other => panic!("expected a partial level, got {:?}", other),
    }
    let mut outer = ConstraintLevels::default();
    outer.push(ConstraintLevel::Full { source_ranges: at(10, 11) });
    outer.push(moved);
    outer.push(ConstraintLevel::Ignore { source_ranges: at(12, 13) });
    assert_eq!(
        outer.get_all_partial_or_full_source_ranges(),
        vec![SourceRange([10, 11]), SourceRange([3, 4])]
    );
}

#[test]
fn leaves_have_their_own_level() {
    let literal = Literal { start: 2, end: 3, value: LiteralValue::Bool(true), raw: "true".into(), digest: None };
    assert_eq!(literal.get_constraint_level().kind(), ConstraintKind::Unconstrained);
    assert_eq!(literal.get_constraint_level().source_ranges(), vec![SourceRange([2, 3])]);
    assert_eq!(Identifier::new("a").get_constraint_level().kind(), ConstraintKind::Full);
    assert_eq!(TagDeclarator::new("a").get_constraint_level().kind(), ConstraintKind::Full);
    assert_eq!(KclNone::new(1, 2).get_constraint_level().kind(), ConstraintKind::Unconstrained);
    let placeholder = Expr::PipeSubstitution(Box::new(PipeSubstitution::new()));
    assert_eq!(placeholder.get_constraint_level().kind(), ConstraintKind::Ignore);
    let function = Expr::FunctionExpression(Box::new(function_of(vec![])));
    assert_eq!(function.get_constraint_level().kind(), ConstraintKind::Ignore);
    let negated = UnaryExpression::new(
        UnaryOperator::Neg,
        BinaryPart::Identifier(Box::new(Identifier::new("a"))),
    );
    assert_eq!(negated.get_constraint_level().kind(), ConstraintKind::Full);
    let range = ArrayRangeExpression::new(Box::new(whole(1)), Box::new(whole(5)));
    assert!(range.end_inclusive);
    assert_eq!(range.get_constraint_level().kind(), ConstraintKind::Unconstrained);
    let declarator = VariableDeclarator::new("k", whole(1));
    assert_eq!(declarator.get_constraint_level().kind(), ConstraintKind::Unconstrained);
}

#[test]
fn nodes_are_made_at_no_place() {
    let call = CallExpression::new("f", vec![whole(1), Expr::PipeSubstitution(Box::new(PipeSubstitution::default()))]);
    assert_eq!(call.callee, Identifier::new("f"));
    assert_eq!(call.start, 0);
    assert_eq!(call.end, 0);
    assert!(!call.optional);
    assert!(call.has_substitution_arg());
    assert_eq!(call.substitution_sites(), vec![false, true]);
    assert_eq!(call.as_source_ranges(), vec![SourceRange([0, 0])]);
    assert!(!CallExpression::new("f", vec![whole(1)]).has_substitution_arg());
    assert!(!CallExpression::new("f", vec![]).has_substitution_arg());

    let array = ArrayExpression::new(vec![whole(1)]);
    assert_eq!(array.elements.len(), 1);
    assert!(array.non_code_meta.is_empty());
    let object = ObjectExpression::new(vec![]);
    assert!(object.properties.is_empty());
    let pipe = PipeExpression::new(vec![whole(1)]);
    assert_eq!(pipe.body, vec![whole(1)]);
    let declaration = VariableDeclaration::new(
        vec![VariableDeclarator::new("k", whole(1))],
        ItemVisibility::Export,
        VariableKind::Fn,
    );
    assert_eq!(declaration.declarations[0].id.name, "k");
    assert_eq!(declaration.visibility, ItemVisibility::Export);
    assert_eq!(declaration.kind, VariableKind::Fn);
    let copy = declaration.clone();
    assert_eq!(copy, declaration);
    let argument = FnArgType::Object { properties: vec![parameter("a", false)] };
    assert_eq!(argument.clone(), argument);
    assert_ne!(argument, FnArgType::Array(FnArgPrimitive::Number));
}

#[test]
fn keys_written_as_text_are_read_as_indices() {
    assert_eq!(parse_index("0"), Some(0));
    assert_eq!(parse_index("17"), Some(17));
    assert_eq!(parse_index("007"), Some(7));
    assert_eq!(parse_index("+5"), Some(5));
    assert_eq!(parse_index(&usize::MAX.to_string()), Some(usize::MAX));
    assert_eq!(parse_index(""), None);
    assert_eq!(parse_index("+"), None);
    assert_eq!(parse_index("-1"), None);
    assert_eq!(parse_index("1.5"), None);
    assert_eq!(parse_index(" 1"), None);
    assert_eq!(parse_index("1a"), None);
    assert_eq!(parse_index("++1"), None);
    assert_eq!(parse_index("١"), None);
    assert_eq!(parse_index(&format!("{}0", usize::MAX)), None);
    assert_eq!(parse_index("99999999999999999999999999"), None);

    let node = |at: usize| NonCodeNode {
        start: at,
        end: at + 1,
        value: NonCodeValue::NewLine,
        digest: None,
    };
    let meta = NonCodeMeta::from_text_keys(
        vec![("2".to_string(), vec![node(5)]), ("0".to_string(), vec![node(1), node(3)])],
        vec![node(0)],
    )
    .unwrap();
    assert_eq!(meta.non_code_nodes.len(), 2);
    assert_eq!(meta.non_code_nodes[&0], vec![node(1), node(3)]);
    assert_eq!(meta.non_code_nodes[&2], vec![node(5)]);
    assert_eq!(meta.start, vec![node(0)]);
    assert_eq!(meta.digest, None);

    let failed = NonCodeMeta::from_text_keys(
        vec![
            ("1".to_string(), vec![]),
            ("one".to_string(), vec![]),
            ("-2".to_string(), vec![]),
        ],
        vec![],
    );
    assert_eq!(failed, Err(InvalidKey("one".to_string())));
    assert_eq!(NonCodeMeta::from_text_keys(vec![], vec![]), Ok(NonCodeMeta::new()));
}

#[test]
fn texts_are_compared_and_split_into_lines() {
    assert!(str_eq("", ""));
    assert!(str_eq("abc", "abc"));
    assert!(str_eq("é", "é"));
    assert!(!str_eq("abc", "abd"));
    assert!(!str_eq("abc", "ab"));
    assert!(!str_eq("", "a"));

    assert!(!more_lines(""));
    assert!(!more_lines("a"));
    assert!(!more_lines("a\n"));
    assert!(!more_lines("\n"));
    assert!(more_lines("a\nb"));
    assert!(more_lines("a\n\n"));
    assert!(more_lines("\n\n"));
    assert_eq!(first_line("a\nb"), "a");
    assert_eq!(first_line("abc"), "abc");
    assert_eq!(first_line("ab\r\ncd"), "ab");
    assert_eq!(first_line("ab\r"), "ab\r");
    assert_eq!(first_line("\nb"), "");
    assert_eq!(first_line("é\nb"), "é");
    assert_eq!(first_line(""), "");
}
