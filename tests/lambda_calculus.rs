use crappy_lisp::{Call, Expr, Json, Lambda, Sexpr, Var};

fn s(text: &str) -> Json {
    Json::String(text.to_string())
}

fn a(items: Vec<Json>) -> Json {
    Json::Array(items)
}

/// Translates then desugars an input value into an expression.
fn desu(jsonv: &Json) -> Result<Expr, String> {
    Sexpr::from_json(jsonv).unwrap().desugar()
}

fn omega_json() -> Json {
    a(vec![
        a(vec![s("arg"), s("=>"), s("arg"), s("arg")]),
        a(vec![s("arg"), s("=>"), s("arg"), s("arg")]),
    ])
}

fn y_json() -> Json {
    a(vec![
        s("f"),
        s("=>"),
        a(vec![s("x"), s("=>"), s("f"), s("x"), s("x")]),
        a(vec![s("x"), s("=>"), s("f"), s("x"), s("x")]),
    ])
}

fn var(name: &str) -> Expr {
    Expr::Var(Var { name: name.to_string() })
}

fn lam(arg_name: &str, body: Expr) -> Expr {
    Expr::Lambda(Box::new(Lambda { arg_name: arg_name.to_string(), body }))
}

fn app(func: Expr, arg: Expr) -> Expr {
    Expr::Call(Box::new(Call { func, arg }))
}

#[test]
fn eval() {
    let expr = desu(&a(vec![a(vec![s("arg"), s("=>"), s("arg")]), s("candy")])).unwrap();
    assert_eq!(expr.eval(), desu(&s("candy")).unwrap());
}

#[test]
fn omega() {
    let expr = desu(&omega_json()).unwrap();
    assert_eq!(expr.clone().eval(), expr);
}

#[test]
fn should_continue() {
    let omega = desu(&omega_json()).unwrap();
    assert!(omega.should_continue());
    assert!(omega.eval().should_continue());

    let y = desu(&y_json()).unwrap();
    assert!(y.should_continue());
    assert!(y.eval().should_continue());

    let prog = desu(&a(vec![a(vec![s("a"), s("=>"), s("a")]), s("candy")])).unwrap();
    assert!(prog.should_continue());
    assert!(!prog.eval().should_continue());
}

#[test]
fn y_static() {
    let y = desu(&y_json()).unwrap();
    assert_eq!(y.clone(), y.eval());
}

#[test]
fn ycombinator() {
    let id = a(vec![s("a"), s("=>"), s("a")]);
    assert!(!desu(&id).unwrap().should_continue());
    let recursive_id = a(vec![y_json(), id]);
    let mut prog = desu(&recursive_id).unwrap();

    for _ in 0..100_000 {
        assert!(prog.should_continue());
        prog = prog.eval();
    }
}

#[test]
fn identity_application_converges_to_argument() {
    let mut prog = desu(&a(vec![a(vec![s("a"), s("=>"), s("a")]), s("candy")])).unwrap();
    let candy = desu(&s("candy")).unwrap();
    assert!(prog.should_continue());
    prog = prog.eval();
    assert!(!prog.should_continue());
    assert_eq!(prog, candy);
    assert_eq!(prog.clone().eval(), candy);
}

#[test]
fn self_application_is_a_fixed_point() {
    let omega = desu(&a(vec![
        a(vec![s("a"), s("=>"), s("a"), s("a")]),
        a(vec![s("a"), s("=>"), s("a"), s("a")]),
    ]))
    .unwrap();
    assert!(omega.should_continue());
    let next = omega.clone().eval();
    assert_eq!(next, omega);
    assert!(next.should_continue());
}

#[test]
fn values_are_not_reduced() {
    let v = var("x");
    assert_eq!(v.clone().eval(), v);
    let l = lam("x", app(lam("y", var("y")), var("z")));
    assert_eq!(l.clone().eval(), l);
    assert!(l.should_continue());
}

#[test]
fn stuck_application_is_rebuilt() {
    let e = app(var("f"), app(lam("y", var("y")), var("z")));
    assert_eq!(e.eval(), app(var("f"), var("z")));
    let e = app(var("f"), var("z"));
    assert!(!e.should_continue());
}

#[test]
fn argument_is_substituted_into_reduced_body() {
    // [[x => [[y => y] x]] w] reduces the body to x, then substitutes w.
    let e = app(lam("x", app(lam("y", var("y")), var("x"))), var("w"));
    assert_eq!(e.eval(), var("w"));
}

#[test]
fn shadowing_blocks_substitution() {
    // [[x => [x => x]] w]: the inner parameter shadows x.
    let e = app(lam("x", lam("x", var("x"))), var("w"));
    assert_eq!(e.eval(), lam("x", var("x")));
    // [[x => [y => x]] w]
    let e = app(lam("x", lam("y", var("x"))), var("w"));
    assert_eq!(e.eval(), lam("y", var("w")));
}

#[test]
fn substitution_does_not_avoid_capture() {
    // [[x => [y => x]] y]: the free y is captured by the inner parameter.
    let e = app(lam("x", lam("y", var("x"))), var("y"));
    assert_eq!(e.eval(), lam("y", var("y")));
}

#[test]
fn eval_within_reports_exhaustion() {
    let e = app(lam("x", var("x")), var("w"));
    assert!(e.clone().eval_within(0).is_none());
    assert_eq!(e.clone().eval_within(1), Some(var("w")));
    let nested = app(app(lam("x", var("x")), lam("y", var("y"))), var("w"));
    assert!(nested.clone().eval_within(1).is_none());
    assert_eq!(nested.eval_within(2), Some(var("w")));
    assert!(var("v").eval_within(0).is_some());
}

#[test]
fn render_uses_brackets() {
    let e = lam("a", app(var("a"), var("b")));
    assert_eq!(e.render(), "[a => [a b]]");
    assert_eq!(var("v").render(), "v");
    let c = Call { func: var("f"), arg: lam("x", var("x")) };
    assert_eq!(c.render(), "[f [x => x]]");
    let l = Lambda { arg_name: "p".to_string(), body: var("q") };
    assert_eq!(l.render(), "[p => q]");
    assert_eq!(Var { name: "n".to_string() }.render(), "n");
}

#[test]
fn equality_is_structural() {
    assert_eq!(lam("a", var("a")), lam("a", var("a")));
    assert_ne!(lam("a", var("a")), lam("b", var("b")));
    assert_ne!(app(var("a"), var("b")), app(var("b"), var("a")));
    assert_ne!(var("a"), lam("a", var("a")));
    let l = Lambda { arg_name: "a".to_string(), body: var("a") };
    assert_eq!(l.clone(), l);
    let c = Call { func: var("a"), arg: var("b") };
    assert_eq!(c.clone(), c);
    assert_eq!(Var { name: "a".to_string() }, Var { name: "a".to_string() });
}

#[test]
fn oracle_looks_inside_abstractions() {
    let inner = lam("x", app(lam("y", var("y")), var("x")));
    assert!(inner.should_continue());
    let l = Lambda { arg_name: "x".to_string(), body: app(var("x"), var("x")) };
    assert!(!l.should_continue());
    let c = Call { func: lam("x", var("x")), arg: var("y") };
    assert!(c.should_continue());
}

#[test]
fn eval_leaves_values_and_stuck_terms_in_place() {
    let nested = app(app(lam("x", var("x")), lam("y", var("y"))), var("w"));
    assert_eq!(nested.eval(), var("w"));
    let stuck = app(var("f"), var("g"));
    assert_eq!(stuck.clone().eval(), stuck);
}
