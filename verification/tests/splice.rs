use liquid_splice::parse::{parse_args, ArgToken, ParseErrorKind};
use liquid_splice::render::{render_include, RenderProblem};
use liquid_splice::runtime::{Expr, Frame, Node, Partial, RuntimeModel};
use liquid_splice::value::{scalar_text, ModelValue, ScalarVal};

fn lit_str(s: &str) -> Expr {
    Expr::Lit(ModelValue::Scalar(ScalarVal::Str(s.to_string())))
}

fn var(path: &[&str]) -> Expr {
    Expr::Var(path.iter().map(|s| s.to_string()).collect())
}

fn frame(vars: Vec<(&str, ModelValue)>) -> Frame {
    Frame {
        label: "global".to_string(),
        vars: vars.into_iter().map(|(k, v)| (k.to_string(), v)).collect(),
        bound: None,
    }
}

fn runtime(vars: Vec<(&str, ModelValue)>, partials: Vec<(&str, Partial)>) -> RuntimeModel {
    RuntimeModel {
        frames: vec![frame(vars)],
        partials: partials.into_iter().map(|(k, p)| (k.to_string(), p)).collect(),
    }
}

fn text(t: &str) -> Node {
    Node::Text(t.to_string())
}

fn out(path: &[&str]) -> Node {
    Node::Out(path.iter().map(|s| s.to_string()).collect())
}

#[test]
fn parse_keeps_bindings_in_order() {
    // include 'x' a:1 b:2
    let toks = vec![
        ArgToken::StrLit("x".to_string()),
        ArgToken::Ident("a".to_string()),
        ArgToken::Colon,
        ArgToken::IntLit(1),
        ArgToken::Ident("b".to_string()),
        ArgToken::Colon,
        ArgToken::IntLit(2),
    ];
    let instr = parse_args(&toks).unwrap();
    assert_eq!(instr.partial, lit_str("x"));
    assert_eq!(instr.vars.len(), 2);
    assert_eq!(instr.vars[0].0.as_str(), "a");
    assert_eq!(instr.vars[0].1, Expr::Lit(ModelValue::Scalar(ScalarVal::Int(1))));
    assert_eq!(instr.vars[1].0.as_str(), "b");
    assert_eq!(instr.vars[1].1, Expr::Lit(ModelValue::Scalar(ScalarVal::Int(2))));
}

#[test]
fn later_duplicate_binding_wins() {
    // include 'p.txt' a:"first" a:"second" -- the partial sees the later value
    let toks = vec![
        ArgToken::StrLit("p.txt".to_string()),
        ArgToken::Ident("a".to_string()),
        ArgToken::Colon,
        ArgToken::StrLit("first".to_string()),
        ArgToken::Ident("a".to_string()),
        ArgToken::Colon,
        ArgToken::StrLit("second".to_string()),
    ];
    let instr = parse_args(&toks).unwrap();
    let mut rt = runtime(vec![], vec![("p.txt", Partial { nodes: vec![out(&["include", "a"])] })]);
    let mut rendered = String::new();
    render_include(&instr, &mut rt, &mut rendered).unwrap();
    assert_eq!(rendered, "second");
}

#[test]
fn parse_missing_first_argument() {
    let toks: Vec<ArgToken> = vec![];
    let err = parse_args(&toks).unwrap_err();
    assert_eq!(err.kind, ParseErrorKind::MissingArgument);
    assert_eq!(err.at, 0);
}

#[test]
fn parse_first_argument_not_a_value() {
    let toks = vec![ArgToken::Colon];
    let err = parse_args(&toks).unwrap_err();
    assert_eq!(err.kind, ParseErrorKind::InvalidExpression);
    assert_eq!(err.at, 0);
}

#[test]
fn parse_missing_colon() {
    let toks = vec![
        ArgToken::StrLit("x".to_string()),
        ArgToken::Ident("a".to_string()),
        ArgToken::IntLit(1),
    ];
    let err = parse_args(&toks).unwrap_err();
    assert_eq!(err.kind, ParseErrorKind::InvalidSyntax);
    assert_eq!(err.at, 2);
}

#[test]
fn parse_key_not_identifier() {
    let toks = vec![
        ArgToken::StrLit("x".to_string()),
        ArgToken::IntLit(7),
        ArgToken::Colon,
        ArgToken::IntLit(1),
    ];
    let err = parse_args(&toks).unwrap_err();
    assert_eq!(err.kind, ParseErrorKind::InvalidIdentifier);
    assert_eq!(err.at, 1);
}

#[test]
fn parse_value_missing_after_colon() {
    let toks = vec![
        ArgToken::StrLit("x".to_string()),
        ArgToken::Ident("a".to_string()),
        ArgToken::Colon,
    ];
    let err = parse_args(&toks).unwrap_err();
    assert_eq!(err.kind, ParseErrorKind::MissingArgument);
    assert_eq!(err.at, 3);
}

#[test]
fn parse_colon_as_value() {
    let toks = vec![
        ArgToken::StrLit("x".to_string()),
        ArgToken::Ident("a".to_string()),
        ArgToken::Colon,
        ArgToken::Colon,
    ];
    let err = parse_args(&toks).unwrap_err();
    assert_eq!(err.kind, ParseErrorKind::InvalidExpression);
    assert_eq!(err.at, 3);
}

#[test]
fn composite_name_is_rejected_before_lookup() {
    // the name expression resolves to an array: invalid, even though a
    // partial of a plausible key exists
    let mut rt = runtime(
        vec![("x", ModelValue::Arr(vec![ScalarVal::Str("p.txt".to_string())]))],
        vec![("p.txt", Partial { nodes: vec![text("never")] })],
    );
    let instr = parse_args(&vec![ArgToken::Ident("x".to_string())]).unwrap();
    let mut rendered = String::new();
    let err = render_include(&instr, &mut rt, &mut rendered).unwrap_err();
    assert!(matches!(err.problem, RenderProblem::InvalidPartialName { .. }));
    assert_eq!(rendered, "");
    assert_eq!(err.trace.len(), 1);
    assert_eq!(err.trace[0].partial_name, None);
}

#[test]
fn unresolvable_name_is_rejected() {
    let mut rt = runtime(vec![], vec![]);
    let instr = parse_args(&vec![ArgToken::Ident("nowhere".to_string())]).unwrap();
    let mut rendered = String::new();
    let err = render_include(&instr, &mut rt, &mut rendered).unwrap_err();
    assert!(matches!(err.problem, RenderProblem::InvalidPartialName { .. }));
}

#[test]
fn include_varaible() {
    // {% include 'example_var.txt' example_var:"hello" %} against the partial
    // {{include.example_var}} renders exactly the bound value
    let toks = vec![
        ArgToken::StrLit("example_var.txt".to_string()),
        ArgToken::Ident("example_var".to_string()),
        ArgToken::Colon,
        ArgToken::StrLit("hello".to_string()),
    ];
    let instr = parse_args(&toks).unwrap();
    let mut rt = runtime(
        vec![],
        vec![("example_var.txt", Partial { nodes: vec![out(&["include", "example_var"])] })],
    );
    let mut rendered = String::new();
    render_include(&instr, &mut rt, &mut rendered).unwrap();
    assert_eq!(rendered, "hello");
}

#[test]
fn no_file() {
    // {% include 'file_does_not_exist.liquid' %} must fail, never render empty
    let toks = vec![ArgToken::StrLit("file_does_not_exist.liquid".to_string())];
    let instr = parse_args(&toks).unwrap();
    let mut rt = runtime(
        vec![
            ("num", ModelValue::Scalar(ScalarVal::Int(5))),
            ("numTwo", ModelValue::Scalar(ScalarVal::Int(10))),
        ],
        vec![],
    );
    let mut rendered = String::new();
    let err = render_include(&instr, &mut rt, &mut rendered).unwrap_err();
    match &err.problem {
        RenderProblem::PartialNotFound { name } => {
            assert_eq!(name, "file_does_not_exist.liquid");
        },
        other => panic!("wrong problem: {:?}", other),
    }
    assert_eq!(err.trace[0].partial_name.as_deref(), Some("file_does_not_exist.liquid"));
    assert_eq!(rendered, "");
}

#[test]
fn bindings_evaluate_in_callers_scope() {
    // a binding may reference the caller's own variables, though the binding
    // object is only visible inside the new scope
    let toks = vec![
        ArgToken::StrLit("greet.txt".to_string()),
        ArgToken::Ident("msg".to_string()),
        ArgToken::Colon,
        ArgToken::Ident("greeting".to_string()),
    ];
    let instr = parse_args(&toks).unwrap();
    let mut rt = runtime(
        vec![("greeting", ModelValue::Scalar(ScalarVal::Str("hi there".to_string())))],
        vec![("greet.txt", Partial { nodes: vec![out(&["include", "msg"]), text("!")] })],
    );
    let mut rendered = String::new();
    render_include(&instr, &mut rt, &mut rendered).unwrap();
    assert_eq!(rendered, "hi there!");
}

#[test]
fn failed_binding_names_its_identifier() {
    let toks = vec![
        ArgToken::StrLit("p.txt".to_string()),
        ArgToken::Ident("good".to_string()),
        ArgToken::Colon,
        ArgToken::IntLit(1),
        ArgToken::Ident("bad".to_string()),
        ArgToken::Colon,
        ArgToken::Ident("missing_var".to_string()),
    ];
    let instr = parse_args(&toks).unwrap();
    let mut rt = runtime(vec![], vec![("p.txt", Partial { nodes: vec![] })]);
    let mut rendered = String::new();
    let err = render_include(&instr, &mut rt, &mut rendered).unwrap_err();
    match &err.problem {
        RenderProblem::BindingEvaluationFailed { id } => assert_eq!(id, "bad"),
        other => panic!("wrong problem: {:?}", other),
    }
}

#[test]
fn empty_bindings_install_no_reserved_object() {
    // with no bindings, a partial reading through the reserved name sees
    // whatever outer scopes hold: here an ordinary caller variable
    let toks = vec![ArgToken::StrLit("p.txt".to_string())];
    let instr = parse_args(&toks).unwrap();
    let mut rt = runtime(
        vec![(
            "include",
            ModelValue::Obj(vec![("a".to_string(), ScalarVal::Str("outer".to_string()))]),
        )],
        vec![("p.txt", Partial { nodes: vec![out(&["include", "a"])] })],
    );
    let mut rendered = String::new();
    render_include(&instr, &mut rt, &mut rendered).unwrap();
    assert_eq!(rendered, "outer");
}

#[test]
fn reserved_object_shadows_outer_binding() {
    let toks = vec![
        ArgToken::StrLit("p.txt".to_string()),
        ArgToken::Ident("a".to_string()),
        ArgToken::Colon,
        ArgToken::StrLit("inner".to_string()),
    ];
    let instr = parse_args(&toks).unwrap();
    let mut rt = runtime(
        vec![(
            "include",
            ModelValue::Obj(vec![("a".to_string(), ScalarVal::Str("outer".to_string()))]),
        )],
        vec![("p.txt", Partial { nodes: vec![out(&["include", "a"])] })],
    );
    let mut rendered = String::new();
    render_include(&instr, &mut rt, &mut rendered).unwrap();
    assert_eq!(rendered, "inner");
}

#[test]
fn scope_is_released_on_success_and_failure() {
    let ok_toks = vec![ArgToken::StrLit("p.txt".to_string())];
    let instr = parse_args(&ok_toks).unwrap();
    let mut rt = runtime(
        vec![("v", ModelValue::Scalar(ScalarVal::Int(3)))],
        vec![("p.txt", Partial { nodes: vec![text("x")] })],
    );
    let frames_before = rt.frames.clone();
    let mut rendered = String::new();
    render_include(&instr, &mut rt, &mut rendered).unwrap();
    assert_eq!(rt.frames, frames_before);

    let missing = parse_args(&vec![ArgToken::StrLit("gone".to_string())]).unwrap();
    let _ = render_include(&missing, &mut rt, &mut rendered).unwrap_err();
    assert_eq!(rt.frames, frames_before);
}

#[test]
fn rendering_twice_is_identical() {
    // the same compiled instruction against two independent, identical
    // runtimes: identical output; and on the error path, identical error
    let toks = vec![
        ArgToken::StrLit("p.txt".to_string()),
        ArgToken::Ident("n".to_string()),
        ArgToken::Colon,
        ArgToken::IntLit(-7),
    ];
    let instr = parse_args(&toks).unwrap();
    let make = || {
        runtime(
            vec![("greeting", ModelValue::Scalar(ScalarVal::Str("hi".to_string())))],
            vec![(
                "p.txt",
                Partial { nodes: vec![out(&["include", "n"]), text(" "), out(&["greeting"])] },
            )],
        )
    };
    let mut rt1 = make();
    let mut rt2 = make();
    let mut out1 = String::new();
    let mut out2 = String::new();
    render_include(&instr, &mut rt1, &mut out1).unwrap();
    render_include(&instr, &mut rt2, &mut out2).unwrap();
    assert_eq!(out1, "-7 hi");
    assert_eq!(out1, out2);

    let missing = parse_args(&vec![ArgToken::StrLit("gone".to_string())]).unwrap();
    let e1 = render_include(&missing, &mut rt1, &mut out1).unwrap_err();
    let e2 = render_include(&missing, &mut rt2, &mut out2).unwrap_err();
    assert_eq!(e1, e2);
}

#[test]
fn nested_failure_accumulates_trace() {
    // an engine propagating an inner splice's failure across an outer splice
    // site appends the outer site's attribution, overwriting nothing
    let missing = parse_args(&vec![ArgToken::StrLit("gone".to_string())]).unwrap();
    let mut rt = runtime(vec![], vec![]);
    let mut rendered = String::new();
    let inner = render_include(&missing, &mut rt, &mut rendered).unwrap_err();
    let outer_expr = lit_str("outer.txt");
    let outer_name = "outer.txt".to_string();
    let wrapped = inner.with_site(&outer_expr, Some(&outer_name));
    assert!(matches!(wrapped.problem, RenderProblem::PartialNotFound { .. }));
    assert_eq!(wrapped.trace.len(), 2);
    assert_eq!(wrapped.trace[0].invocation, lit_str("gone"));
    assert_eq!(wrapped.trace[0].partial_name.as_deref(), Some("gone"));
    assert_eq!(wrapped.trace[1].invocation, lit_str("outer.txt"));
    assert_eq!(wrapped.trace[1].partial_name.as_deref(), Some("outer.txt"));
}

#[test]
fn partial_sees_callers_globals() {
    // the new scope falls through to the caller's chain, so a partial reads
    // the caller's own variables without any explicit binding
    let toks = vec![ArgToken::StrLit("example.txt".to_string())];
    let instr = parse_args(&toks).unwrap();
    let mut rt = runtime(
        vec![
            ("num", ModelValue::Scalar(ScalarVal::Int(5))),
            ("numTwo", ModelValue::Scalar(ScalarVal::Int(10))),
        ],
        vec![(
            "example.txt",
            Partial { nodes: vec![out(&["num"]), text(" "), out(&["numTwo"])] },
        )],
    );
    let mut rendered = String::new();
    render_include(&instr, &mut rt, &mut rendered).unwrap();
    assert_eq!(rendered, "5 10");
}

#[test]
fn numeric_partial_name_uses_decimal_key() {
    // a scalar name is converted to its text form before lookup
    let toks = vec![ArgToken::IntLit(42)];
    let instr = parse_args(&toks).unwrap();
    let mut rt = runtime(vec![], vec![("42", Partial { nodes: vec![text("num")] })]);
    let mut rendered = String::new();
    render_include(&instr, &mut rt, &mut rendered).unwrap();
    assert_eq!(rendered, "num");
}

#[test]
fn scalar_text_forms() {
    assert_eq!(scalar_text(&ScalarVal::Int(0)), "0");
    assert_eq!(scalar_text(&ScalarVal::Int(42)), "42");
    assert_eq!(scalar_text(&ScalarVal::Int(-12)), "-12");
    assert_eq!(scalar_text(&ScalarVal::Int(i64::MAX)), "9223372036854775807");
    assert_eq!(scalar_text(&ScalarVal::Int(i64::MIN)), "-9223372036854775808");
    assert_eq!(scalar_text(&ScalarVal::Bool(true)), "true");
    assert_eq!(scalar_text(&ScalarVal::Bool(false)), "false");
    assert_eq!(scalar_text(&ScalarVal::Str("as is".to_string())), "as is");
}

#[test]
fn binding_keys_survive_the_key_string_type() {
    // the identifier goes through the immutable key-string type at parse time
    // and must come back out unchanged at render time
    let toks = vec![
        ArgToken::StrLit("p.txt".to_string()),
        ArgToken::Ident("some_long_key_name".to_string()),
        ArgToken::Colon,
        ArgToken::StrLit("v".to_string()),
    ];
    let instr = parse_args(&toks).unwrap();
    assert_eq!(instr.vars[0].0.as_str(), "some_long_key_name");
    let mut rt = runtime(
        vec![],
        vec![("p.txt", Partial { nodes: vec![out(&["include", "some_long_key_name"])] })],
    );
    let mut rendered = String::new();
    render_include(&instr, &mut rt, &mut rendered).unwrap();
    assert_eq!(rendered, "v");
}
