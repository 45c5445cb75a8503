use trees_that_grow::checker::check;
use trees_that_grow::env::Env;
use trees_that_grow::exp::{Exp, ExpTC};
use trees_that_grow::typ::Typ;

fn fun(src: Typ, dst: Typ) -> Typ {
    Typ::Fun(Box::new(src), Box::new(dst))
}

fn var(name: &str) -> ExpTC {
    Exp::Var((), name.to_string())
}

fn app(arg_typ: Typ, func: ExpTC, arg: ExpTC) -> ExpTC {
    Exp::App(arg_typ, Box::new(func), Box::new(arg))
}

fn lambda(param: &str, body: ExpTC) -> ExpTC {
    Exp::Abs((), param.to_string(), Box::new(body))
}

fn sample_env() -> Env {
    let mut env = Env::new();
    env.insert("x".to_string(), Typ::Int);
    env.insert("f".to_string(), fun(Typ::Int, fun(Typ::Int, Typ::Int)));
    env
}

#[test]
fn test_check() {
    let mut env = Env::new();
    env.insert("x".to_string(), Typ::Int);
    env.insert(
        "f".to_string(),
        Typ::Fun(
            Box::new(Typ::Int),
            Box::new(Typ::Fun(Box::new(Typ::Int), Box::new(Typ::Int))),
        ),
    );
    let env = &env;

    assert!(check(&Exp::Lit((), 5), Typ::Int, env));
}

#[test]
fn literal_has_the_base_type_only() {
    let empty = Env::new();
    let env = sample_env();
    for value in [0, 5, -5, i32::MAX, i32::MIN] {
        assert!(check(&Exp::Lit((), value), Typ::Int, &empty));
        assert!(check(&Exp::Lit((), value), Typ::Int, &env));
        assert!(!check(&Exp::Lit((), value), fun(Typ::Int, Typ::Int), &empty));
        assert!(!check(
            &Exp::Lit((), value),
            fun(fun(Typ::Int, Typ::Int), Typ::Int),
            &env
        ));
    }
}

#[test]
fn variable_has_the_type_bound_to_it() {
    let env = sample_env();
    assert!(check(&var("x"), Typ::Int, &env));
    assert!(!check(&var("x"), fun(Typ::Int, Typ::Int), &env));
    assert!(check(&var("f"), fun(Typ::Int, fun(Typ::Int, Typ::Int)), &env));
    assert!(!check(&var("f"), Typ::Int, &env));
    assert!(!check(&var("f"), fun(Typ::Int, Typ::Int), &env));
    assert!(!check(&var("f"), fun(fun(Typ::Int, Typ::Int), Typ::Int), &env));
}

#[test]
fn unbound_variable_is_rejected_at_every_type() {
    let env = sample_env();
    assert!(!check(&var("y"), Typ::Int, &env));
    assert!(!check(&var("y"), fun(Typ::Int, Typ::Int), &env));
    assert!(!check(&var("x"), Typ::Int, &Env::new()));
    assert!(!check(&var(""), Typ::Int, &env));
    assert!(!check(&var("X"), Typ::Int, &env));
}

#[test]
fn annotation_must_agree_with_the_target() {
    let env = sample_env();
    let ann = |typ: Typ| -> ExpTC { Exp::Ann((), Box::new(Exp::Lit((), 1)), typ) };
    assert!(check(&ann(Typ::Int), Typ::Int, &env));
    assert!(!check(&ann(fun(Typ::Int, Typ::Int)), Typ::Int, &env));
    assert!(!check(&ann(Typ::Int), fun(Typ::Int, Typ::Int), &env));
    // The ascribed type agrees with the target, but the literal inside is
    // no function.
    assert!(!check(
        &ann(fun(Typ::Int, Typ::Int)),
        fun(Typ::Int, Typ::Int),
        &env
    ));
    let ann_f: ExpTC = Exp::Ann(
        (),
        Box::new(var("f")),
        fun(Typ::Int, fun(Typ::Int, Typ::Int)),
    );
    assert!(check(&ann_f, fun(Typ::Int, fun(Typ::Int, Typ::Int)), &env));
}

#[test]
fn abstraction_splits_the_function_type() {
    let env = Env::new();
    let identity = lambda("a", var("a"));
    assert!(check(&identity, fun(Typ::Int, Typ::Int), &env));
    assert!(check(
        &identity,
        fun(fun(Typ::Int, Typ::Int), fun(Typ::Int, Typ::Int)),
        &env
    ));
    assert!(!check(&identity, fun(Typ::Int, fun(Typ::Int, Typ::Int)), &env));
    assert!(!check(&identity, Typ::Int, &env));

    let constant = lambda("a", Exp::Lit((), 3));
    assert!(check(&constant, fun(Typ::Int, Typ::Int), &env));
    assert!(check(&constant, fun(fun(Typ::Int, Typ::Int), Typ::Int), &env));
    assert!(!check(&constant, fun(Typ::Int, fun(Typ::Int, Typ::Int)), &env));
    assert!(!check(&constant, Typ::Int, &env));
}

#[test]
fn abstraction_shadows_an_outer_binding() {
    let env = sample_env();
    // Outside, `x` is an integer; inside, it is the parameter.
    let shadow = lambda("x", var("x"));
    assert!(check(
        &shadow,
        fun(fun(Typ::Int, Typ::Int), fun(Typ::Int, Typ::Int)),
        &env
    ));
    assert!(!check(&shadow, fun(fun(Typ::Int, Typ::Int), Typ::Int), &env));
    // Other bindings stay visible in the body.
    let uses_f = lambda("x", var("f"));
    assert!(check(
        &uses_f,
        fun(Typ::Int, fun(Typ::Int, fun(Typ::Int, Typ::Int))),
        &env
    ));
}

#[test]
fn checking_leaves_the_environment_as_it_was() {
    let env = sample_env();
    let shadow = lambda("x", var("x"));
    assert!(check(
        &shadow,
        fun(fun(Typ::Int, Typ::Int), fun(Typ::Int, Typ::Int)),
        &env
    ));
    assert_eq!(env.get(&"x".to_string()), Some(&Typ::Int));
    assert!(check(&var("x"), Typ::Int, &env));
    let fresh = lambda("y", var("y"));
    assert!(check(&fresh, fun(Typ::Int, Typ::Int), &env));
    assert_eq!(env.get(&"y".to_string()), None);
    assert!(!check(&var("y"), Typ::Int, &env));
}

#[test]
fn application_reads_the_recorded_argument_type() {
    let env = sample_env();
    let partial = app(Typ::Int, var("f"), var("x"));
    assert!(check(&partial, fun(Typ::Int, Typ::Int), &env));
    assert!(!check(&partial, Typ::Int, &env));
    // The function does not take a function.
    let wrong = app(fun(Typ::Int, Typ::Int), var("f"), var("x"));
    assert!(!check(&wrong, fun(Typ::Int, Typ::Int), &env));
    // The argument fits the record, the function does not.
    let not_a_function = app(Typ::Int, var("x"), var("x"));
    assert!(!check(&not_a_function, Typ::Int, &env));
    // The function fits the record, the argument does not.
    let bad_argument = app(Typ::Int, var("f"), var("f"));
    assert!(!check(&bad_argument, fun(Typ::Int, Typ::Int), &env));
}

#[test]
fn application_of_an_abstraction() {
    let env = Env::new();
    let applied = app(Typ::Int, lambda("a", var("a")), Exp::Lit((), 2));
    assert!(check(&applied, Typ::Int, &env));
    assert!(!check(&applied, fun(Typ::Int, Typ::Int), &env));
    let misrecorded = app(
        fun(Typ::Int, Typ::Int),
        lambda("a", var("a")),
        Exp::Lit((), 2),
    );
    assert!(!check(&misrecorded, Typ::Int, &env));
    assert!(!check(&misrecorded, fun(Typ::Int, Typ::Int), &env));
}

#[test]
fn nested_application_scenario() {
    let env = sample_env();
    assert!(check(&Exp::Lit((), 5), Typ::Int, &env));

    let accepted = app(
        Typ::Int,
        app(Typ::Int, var("f"), var("x")),
        var("x"),
    );
    assert!(check(&accepted, Typ::Int, &env));

    let rejected = app(
        Typ::Int,
        app(fun(Typ::Int, Typ::Int), var("f"), var("x")),
        var("x"),
    );
    assert!(!check(&rejected, Typ::Int, &env));
}

#[test]
fn open_constructor_has_no_type() {
    let env = sample_env();
    let open: ExpTC = Exp::Exp(());
    assert!(!check(&open, Typ::Int, &env));
    assert!(!check(&open, fun(Typ::Int, Typ::Int), &env));
    assert!(!check(&lambda("a", Exp::Exp(())), fun(Typ::Int, Typ::Int), &env));
    assert!(!check(&app(Typ::Int, var("f"), Exp::Exp(())), fun(Typ::Int, Typ::Int), &env));
}
