use bind_this::ast::{Arg, Expr, LitKind, MemberProp, Prop, Stmt};
use bind_this::config::Config;
use bind_this::transform::rewrite_script;

fn ident(name: &str) -> Expr {
    Expr::Ident { name: name.to_string() }
}

fn member(obj: Expr, prop: &str) -> Expr {
    Expr::Member { obj: Box::new(obj), prop: MemberProp::Ident { name: prop.to_string() } }
}

fn index(obj: Expr, idx: Expr) -> Expr {
    Expr::Member { obj: Box::new(obj), prop: MemberProp::Computed { index: Box::new(idx) } }
}

fn num(text: &str) -> Expr {
    Expr::Lit { lit: LitKind::Num { text: text.to_string() } }
}

fn str_lit(value: &str) -> Expr {
    Expr::Lit { lit: LitKind::Str { value: value.to_string() } }
}

fn paren(inner: Expr) -> Expr {
    Expr::Paren { inner: Box::new(inner) }
}

fn call(callee: Expr, args: Vec<Expr>) -> Expr {
    Expr::Call {
        callee: Box::new(callee),
        args: args.into_iter().map(|expr| Arg { spread: false, expr }).collect(),
    }
}

/// The tracking call `this._c('path', value)`.
fn track(path: &str, value: Expr) -> Expr {
    Expr::Call {
        callee: Box::new(member(Expr::This, "_c")),
        args: vec![
            Arg { spread: false, expr: str_lit(path) },
            Arg { spread: false, expr: value },
        ],
    }
}

fn probe_call(arg: Expr) -> Expr {
    call(member(Expr::This, "_p"), vec![arg])
}

fn expr_stmt(e: Expr) -> Vec<Stmt> {
    vec![Stmt::Expr { expr: e }]
}

fn run(script: Vec<Stmt>) -> (Vec<Stmt>, Vec<String>) {
    rewrite_script(script, None)
}

#[test]
fn bare_property_read_is_tracked() {
    let (out, props) = run(expr_stmt(paren(ident("count"))));
    let expected = expr_stmt(paren(track("count", member(Expr::This, "count"))));
    assert_eq!(out, expected);
    assert_eq!(props, Vec::<String>::new());
}

#[test]
fn member_chain_is_rebased_and_tracked_once() {
    let chain = member(member(ident("a"), "b"), "c");
    let (out, _) = run(expr_stmt(paren(chain)));
    let rebased = member(member(member(Expr::This, "a"), "b"), "c");
    let expected = expr_stmt(paren(track("a.b.c", rebased)));
    assert_eq!(out, expected);
}

#[test]
fn length_access_wraps_only_the_object() {
    let (out, _) = run(expr_stmt(paren(member(ident("list"), "length"))));
    let expected = expr_stmt(paren(member(track("list", member(Expr::This, "list")), "length")));
    assert_eq!(out, expected);
}

#[test]
fn size_access_wraps_only_the_object() {
    let (out, _) = run(expr_stmt(paren(member(ident("items"), "size"))));
    let expected = expr_stmt(paren(member(track("items", member(Expr::This, "items")), "size")));
    assert_eq!(out, expected);
}

#[test]
fn dynamic_index_with_shadowed_index_wraps_object_only() {
    let body = vec![Stmt::Return { arg: Some(paren(index(ident("arr"), ident("i")))) }];
    let func = Expr::Func { params: vec!["i".to_string()], body };
    let (out, props) = run(expr_stmt(func));
    let expected_inner = index(track("arr", member(Expr::This, "arr")), ident("i"));
    let expected_body = vec![Stmt::Return { arg: Some(paren(expected_inner)) }];
    let expected = expr_stmt(Expr::Func { params: vec!["i".to_string()], body: expected_body });
    assert_eq!(out, expected);
    assert_eq!(props, Vec::<String>::new());
}

#[test]
fn dynamic_index_with_free_index_tracks_both() {
    let (out, _) = run(expr_stmt(paren(index(ident("arr"), ident("k")))));
    let expected_inner = index(
        track("arr", member(Expr::This, "arr")),
        track("k", member(Expr::This, "k")),
    );
    assert_eq!(out, expr_stmt(paren(expected_inner)));
}

#[test]
fn literal_number_index_folds_into_path() {
    let (out, _) = run(expr_stmt(paren(index(ident("a"), num("0")))));
    let expected = expr_stmt(paren(track("a[0]", index(member(Expr::This, "a"), num("0")))));
    assert_eq!(out, expected);
}

#[test]
fn literal_string_index_folds_into_path_as_dot() {
    let (out, _) = run(expr_stmt(paren(index(ident("a"), str_lit("test")))));
    let expected = expr_stmt(
        paren(track("a.test", index(member(Expr::This, "a"), str_lit("test")))),
    );
    assert_eq!(out, expected);
}

#[test]
fn function_parameter_shadows_its_body_only() {
    let inner = || vec![Stmt::Return { arg: Some(paren(member(ident("item"), "key"))) }];
    let func = Expr::Func { params: vec!["item".to_string()], body: inner() };
    let top = paren(member(ident("item"), "key"));
    let (out, _) = run(vec![Stmt::Expr { expr: func }, Stmt::Expr { expr: top }]);
    let expected_top = paren(
        track("item.key", member(member(Expr::This, "item"), "key")),
    );
    let expected = vec![
        Stmt::Expr { expr: Expr::Func { params: vec!["item".to_string()], body: inner() } },
        Stmt::Expr { expr: expected_top },
    ];
    assert_eq!(out, expected);
}

#[test]
fn reentrant_shadowing_nests_correctly() {
    let outer_body = || vec![
        Stmt::Expr {
            expr: Expr::Func {
                params: vec!["item".to_string()],
                body: vec![Stmt::Expr { expr: paren(member(ident("item"), "a")) }],
            },
        },
        Stmt::Expr { expr: paren(member(ident("item"), "b")) },
    ];
    let outer = Expr::Func { params: vec!["item".to_string()], body: outer_body() };
    let after = paren(ident("item"));
    let (out, _) = run(vec![Stmt::Expr { expr: outer }, Stmt::Expr { expr: after }]);
    let expected = vec![
        Stmt::Expr { expr: Expr::Func { params: vec!["item".to_string()], body: outer_body() } },
        Stmt::Expr { expr: paren(track("item", member(Expr::This, "item"))) },
    ];
    assert_eq!(out, expected);
}

#[test]
fn built_in_names_are_never_rewritten() {
    let (out, _) = run(expr_stmt(paren(member(ident("Math"), "floor"))));
    assert_eq!(out, expr_stmt(paren(member(ident("Math"), "floor"))));
    let (out2, _) = run(expr_stmt(paren(ident("undefined"))));
    assert_eq!(out2, expr_stmt(paren(ident("undefined"))));
}

#[test]
fn caller_ignored_names_are_never_rewritten() {
    let config = Config { ignoreMap: vec!["keep".to_string()], needCollect: true };
    let (out, _) = rewrite_script(expr_stmt(paren(ident("keep"))), Some(config));
    assert_eq!(out, expr_stmt(paren(ident("keep"))));
}

#[test]
fn receiver_rooted_chain_is_left_alone() {
    let (out, _) = run(expr_stmt(paren(member(member(Expr::This, "a"), "b"))));
    assert_eq!(out, expr_stmt(paren(member(member(Expr::This, "a"), "b"))));
}

#[test]
fn array_literal_root_is_left_alone() {
    let arr = || Expr::Array { elems: vec![Arg { spread: false, expr: num("1") }] };
    let (out, _) = run(expr_stmt(paren(member(arr(), "length"))));
    assert_eq!(out, expr_stmt(paren(member(arr(), "length"))));
}

#[test]
fn probe_call_is_erased_and_collects_the_path_root() {
    let (out, props) = run(expr_stmt(probe_call(member(ident("state"), "value"))));
    let expected_inner = track(
        "state.value",
        member(member(Expr::This, "state"), "value"),
    );
    assert_eq!(out, expr_stmt(expected_inner));
    assert_eq!(props, vec!["state".to_string()]);
}

#[test]
fn read_outside_probe_call_collects_nothing() {
    let (_, props) = run(expr_stmt(paren(member(ident("state"), "value"))));
    assert_eq!(props, Vec::<String>::new());
}

#[test]
fn probe_collection_keeps_duplicates_in_encounter_order() {
    let sum = Expr::Bin { left: Box::new(ident("x")), right: Box::new(ident("x")) };
    let (_, props) = run(expr_stmt(probe_call(sum)));
    assert_eq!(props, vec!["x".to_string(), "x".to_string()]);
}

#[test]
fn zero_argument_probe_call_is_not_a_marker() {
    let zero = || call(member(Expr::This, "_p"), vec![]);
    let (out, _) = run(expr_stmt(zero()));
    assert_eq!(out, expr_stmt(zero()));
}

#[test]
fn two_argument_probe_call_is_not_a_marker() {
    let two = || call(member(Expr::This, "_p"), vec![num("1"), num("2")]);
    let (out, _) = run(expr_stmt(two()));
    assert_eq!(out, expr_stmt(two()));
}

#[test]
fn probe_name_on_another_object_still_collects_but_is_not_erased() {
    let collected = call(member(ident("Math"), "_p"), vec![ident("x")]);
    let (out, props) = run(expr_stmt(collected));
    let expected = call(
        member(ident("Math"), "_p"),
        vec![track("x", member(Expr::This, "x"))],
    );
    assert_eq!(out, expr_stmt(expected));
    assert_eq!(props, vec!["x".to_string()]);
}

#[test]
fn object_literal_values_and_shorthands_are_rewritten() {
    let obj = Expr::Object {
        props: vec![
            Prop::KeyValue { key: "a".to_string(), value: ident("x") },
            Prop::Shorthand { name: "b".to_string() },
        ],
    };
    let (out, _) = run(expr_stmt(paren(obj)));
    let expected_obj = Expr::Object {
        props: vec![
            Prop::KeyValue { key: "a".to_string(), value: track("x", member(Expr::This, "x")) },
            Prop::KeyValue { key: "b".to_string(), value: track("b", member(Expr::This, "b")) },
        ],
    };
    assert_eq!(out, expr_stmt(paren(expected_obj)));
}

#[test]
fn conditional_and_unary_operands_are_rewritten() {
    let cond = Expr::Cond {
        test: Box::new(ident("flag")),
        cons: Box::new(num("1")),
        alt: Box::new(Expr::Unary { arg: Box::new(ident("n")) }),
    };
    let (out, _) = run(expr_stmt(paren(cond)));
    let expected = Expr::Cond {
        test: Box::new(track("flag", member(Expr::This, "flag"))),
        cons: Box::new(num("1")),
        alt: Box::new(Expr::Unary { arg: Box::new(track("n", member(Expr::This, "n"))) }),
    };
    assert_eq!(out, expr_stmt(paren(expected)));
}

#[test]
fn call_arguments_and_callee_are_rewritten() {
    let c = call(member(ident("fns"), "go"), vec![ident("v")]);
    let (out, _) = run(expr_stmt(c));
    let expected = call(
        track("fns.go", member(member(Expr::This, "fns"), "go")),
        vec![track("v", member(Expr::This, "v"))],
    );
    assert_eq!(out, expr_stmt(expected));
}

#[test]
fn unknown_forms_pass_through_unchanged() {
    let script = || vec![
        Stmt::Opaque { id: 7 },
        Stmt::Expr { expr: paren(Expr::Opaque { id: 3 }) },
    ];
    let (out, props) = run(script());
    assert_eq!(out, script());
    assert_eq!(props, Vec::<String>::new());
}

#[test]
fn variable_initializer_reads_are_tracked() {
    let init = Expr::Bin { left: Box::new(ident("count")), right: Box::new(num("1")) };
    let script = vec![Stmt::VarDecl { inits: vec![Some(init), None] }];
    let (out, _) = run(script);
    let expected_init = Expr::Bin {
        left: Box::new(track("count", member(Expr::This, "count"))),
        right: Box::new(num("1")),
    };
    assert_eq!(out, vec![Stmt::VarDecl { inits: vec![Some(expected_init), None] }]);
}

#[test]
fn if_branches_and_test_are_walked() {
    let script = vec![Stmt::If {
        test: Expr::Bin { left: Box::new(ident("flag")), right: Box::new(num("0")) },
        cons: Box::new(Stmt::Block {
            stmts: vec![Stmt::Expr { expr: paren(ident("a")) }],
        }),
        alt: Some(Box::new(Stmt::Return { arg: Some(paren(ident("b"))) })),
    }];
    let (out, _) = run(script);
    let expected = vec![Stmt::If {
        test: Expr::Bin {
            left: Box::new(track("flag", member(Expr::This, "flag"))),
            right: Box::new(num("0")),
        },
        cons: Box::new(Stmt::Block {
            stmts: vec![Stmt::Expr { expr: paren(track("a", member(Expr::This, "a"))) }],
        }),
        alt: Some(Box::new(Stmt::Return {
            arg: Some(paren(track("b", member(Expr::This, "b")))),
        })),
    }];
    assert_eq!(out, expected);
}

#[test]
fn while_and_for_bodies_are_walked() {
    let script = vec![
        Stmt::While {
            test: Expr::Unary { arg: Box::new(ident("busy")) },
            body: Box::new(Stmt::Expr { expr: paren(ident("x")) }),
        },
        Stmt::For {
            init: Some(Box::new(Stmt::VarDecl { inits: vec![Some(paren(ident("start")))] })),
            test: Some(Expr::Bin { left: Box::new(ident("n")), right: Box::new(num("9")) }),
            update: None,
            body: Box::new(Stmt::Block { stmts: vec![] }),
        },
    ];
    let (out, _) = run(script);
    let expected = vec![
        Stmt::While {
            test: Expr::Unary { arg: Box::new(track("busy", member(Expr::This, "busy"))) },
            body: Box::new(Stmt::Expr { expr: paren(track("x", member(Expr::This, "x"))) }),
        },
        Stmt::For {
            init: Some(Box::new(Stmt::VarDecl {
                inits: vec![Some(paren(track("start", member(Expr::This, "start"))))],
            })),
            test: Some(Expr::Bin {
                left: Box::new(track("n", member(Expr::This, "n"))),
                right: Box::new(num("9")),
            }),
            update: None,
            body: Box::new(Stmt::Block { stmts: vec![] }),
        },
    ];
    assert_eq!(out, expected);
}

#[test]
fn function_declaration_parameters_shadow_like_function_expressions() {
    let decl = Stmt::FnDecl {
        func: Expr::Func {
            params: vec!["i".to_string()],
            body: vec![Stmt::Return { arg: Some(paren(index(ident("arr"), ident("i")))) }],
        },
    };
    let (out, props) = run(vec![decl]);
    let expected = vec![Stmt::FnDecl {
        func: Expr::Func {
            params: vec!["i".to_string()],
            body: vec![Stmt::Return {
                arg: Some(paren(index(track("arr", member(Expr::This, "arr")), ident("i")))),
            }],
        },
    }];
    assert_eq!(out, expected);
    assert_eq!(props, Vec::<String>::new());
}

#[test]
fn probe_call_inside_nested_statements_is_erased_and_collects() {
    let script = vec![Stmt::Block {
        stmts: vec![Stmt::VarDecl { inits: vec![Some(probe_call(ident("dep")))] }],
    }];
    let (out, props) = run(script);
    let expected = vec![Stmt::Block {
        stmts: vec![Stmt::VarDecl {
            inits: vec![Some(track("dep", member(Expr::This, "dep")))],
        }],
    }];
    assert_eq!(out, expected);
    assert_eq!(props, vec!["dep".to_string()]);
}
