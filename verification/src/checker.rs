//! Type checking of expressions whose applications record their argument's
//! type.

use vstd::prelude::*;
use crate::env::Env;
use crate::exp::{Exp, ExpTC};
use crate::typ::Typ;

verus! {

/// The typing relation: whether `exp` has type `typ` where the variables
/// have the types that `env` gives them.
///
/// Types are checked, never inferred. An application is typed from the
/// argument type that it records, and the open constructor has no type.
pub open spec fn well_typed(exp: ExpTC, typ: Typ, env: Map<Seq<char>, Typ>) -> bool
    decreases exp,
{
    match exp {
        Exp::Lit(_, _) => typ == Typ::Int,
        Exp::Var(_, name) => env.contains_key(name@) && env[name@] == typ,
        Exp::Ann(_, inner, ascribed) => typ == ascribed && well_typed(*inner, typ, env),
        Exp::Abs(_, param, body) => match typ {
            Typ::Int => false,
            Typ::Fun(src, dst) => well_typed(*body, *dst, env.insert(param@, *src)),
        },
        Exp::App(arg_typ, func, arg) => {
            &&& well_typed(*arg, arg_typ, env)
            &&& well_typed(*func, Typ::Fun(Box::new(arg_typ), Box::new(typ)), env)
        },
        Exp::Exp(_) => false,
    }
}

/// Decides whether `exp` has type `typ` in the environment `env`, which is
/// left as it was.
pub fn check(exp: &ExpTC, typ: Typ, env: &Env) -> (accepted: bool)
    ensures
        accepted == well_typed(*exp, typ, env@),
    decreases exp,
{
    match exp {
        Exp::Lit(_, _) => typ == Typ::Int,
        Exp::Var(_, name) => match env.get(name) {
            Some(bound) => *bound == typ,
            None => false,
        },
        Exp::Ann(_, inner, ascribed) => typ == *ascribed && check(inner, typ, env),
        Exp::Abs(_, param, body) => match typ {
            Typ::Int => false,
            Typ::Fun(src, dst) => {
                let mut inner_env = env.clone();
                inner_env.insert(param.clone(), *src);
                check(body, *dst, &inner_env)
            },
        },
        Exp::App(arg_typ, func, arg) => {
            let func_typ = Typ::Fun(Box::new(arg_typ.clone()), Box::new(typ));
            check(arg, arg_typ.clone(), env) && check(func, func_typ, env)
        },
        Exp::Exp(_) => false,
    }
}

/// A literal has the base type, in every environment, and no function type.
pub proof fn lemma_literal(value: i32, src: Typ, dst: Typ, env: Map<Seq<char>, Typ>)
    ensures
        well_typed(Exp::Lit((), value), Typ::Int, env),
        !well_typed(Exp::Lit((), value), Typ::Fun(Box::new(src), Box::new(dst)), env),
{
}

/// A variable has exactly the type that the environment binds to its name,
/// and no type at all where the environment does not bind it.
pub proof fn lemma_variable(name: String, typ: Typ, env: Map<Seq<char>, Typ>)
    ensures
        well_typed(Exp::Var((), name), typ, env) <==> env.contains_key(name@) && env[name@] == typ,
        !env.contains_key(name@) ==> !well_typed(Exp::Var((), name), typ, env),
{
}

/// An abstraction has a function type exactly when its body has the target
/// type once the parameter is bound to the source type, in place of whatever
/// the parameter's name was bound to; it never has the base type.
pub proof fn lemma_abstraction(
    param: String,
    body: ExpTC,
    src: Typ,
    dst: Typ,
    env: Map<Seq<char>, Typ>,
)
    ensures
        well_typed(
            Exp::Abs((), param, Box::new(body)),
            Typ::Fun(Box::new(src), Box::new(dst)),
            env,
        ) <==> well_typed(body, dst, env.insert(param@, src)),
        env.insert(param@, src)[param@] == src,
        !well_typed(Exp::Abs((), param, Box::new(body)), Typ::Int, env),
{
}

/// An application has a type exactly when its argument has the recorded
/// argument type and its function has the function type from the recorded
/// argument type to that type.
pub proof fn lemma_application(
    arg_typ: Typ,
    func: ExpTC,
    arg: ExpTC,
    typ: Typ,
    env: Map<Seq<char>, Typ>,
)
    ensures
        well_typed(Exp::App(arg_typ, Box::new(func), Box::new(arg)), typ, env) <==> well_typed(
            arg,
            arg_typ,
            env,
        ) && well_typed(func, Typ::Fun(Box::new(arg_typ), Box::new(typ)), env),
{
}

/// An accepted application is rejected once it records an argument type
/// that its argument does not have.
pub proof fn lemma_application_wrong_record(
    arg_typ: Typ,
    other: Typ,
    func: ExpTC,
    arg: ExpTC,
    typ: Typ,
    env: Map<Seq<char>, Typ>,
)
    requires
        well_typed(Exp::App(arg_typ, Box::new(func), Box::new(arg)), typ, env),
        !well_typed(arg, other, env),
    ensures
        !well_typed(Exp::App(other, Box::new(func), Box::new(arg)), typ, env),
{
}

} // verus!
