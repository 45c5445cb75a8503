//! Types of the simply-typed lambda calculus.

use vstd::prelude::*;
use vstd::std_specs::cmp::PartialEqSpec;

verus! {

/// A type of the object language: the integer base type or a function type.
#[derive(Debug)]
pub enum Typ {
    /// The base type of integers.
    Int,
    /// The type of functions from the first component to the second.
    Fun(Box<Typ>, Box<Typ>),
}

impl PartialEq for Typ {
    /// Structural comparison: same shape, with equal components.
    fn eq(&self, other: &Self) -> (same: bool)
        decreases self,
    {
        match (self, other) {
            (Typ::Int, Typ::Int) => true,
            (Typ::Fun(a, b), Typ::Fun(c, d)) => **a == **c && **b == **d,
            _ => false,
        }
    }
}

impl Eq for Typ {}

impl vstd::std_specs::cmp::PartialEqSpecImpl for Typ {
    /// Comparing two types always yields what `eq_spec` says.
    open spec fn obeys_eq_spec() -> bool {
        true
    }

    /// Two types are equal when they are the same tree.
    open spec fn eq_spec(&self, other: &Self) -> bool {
        *self == *other
    }
}

impl Clone for Typ {
    /// A deep copy, equal to the type it is made from.
    fn clone(&self) -> (copy: Self)
        ensures
            copy == *self,
        decreases self,
    {
        match self {
            Typ::Int => Typ::Int,
            Typ::Fun(src, dst) => Typ::Fun(Box::new((**src).clone()), Box::new((**dst).clone())),
        }
    }
}

/// The rendering of a type: the base type is `int`, and a function type is
/// its source in parentheses, an arrow, and its target.
pub open spec fn type_text(typ: Typ) -> Seq<char>
    decreases typ,
{
    match typ {
        Typ::Int => "int"@,
        Typ::Fun(src, dst) => "("@ + type_text(*src) + ") -> "@ + type_text(*dst),
    }
}

/// Renders a type as text.
pub fn print_type(typ: &Typ) -> (text: String)
    ensures
        text@ == type_text(*typ),
    decreases typ,
{
    match typ {
        Typ::Int => String::from_str("int"),
        Typ::Fun(src, dst) => {
            let mut text = String::from_str("(");
            let src_text = print_type(src);
            text.append(src_text.as_str());
            text.append(") -> ");
            let dst_text = print_type(dst);
            text.append(dst_text.as_str());
            text
        },
    }
}

/// Equality of types is structural: every type equals itself, the base type
/// differs from every function type, and two function types are equal
/// exactly when their sources are equal and their targets are equal.
pub proof fn lemma_type_equality(typ: Typ, a: Typ, b: Typ, c: Typ, d: Typ)
    ensures
        typ.eq_spec(&typ),
        Typ::Int.eq_spec(&Typ::Int),
        !Typ::Int.eq_spec(&Typ::Fun(Box::new(a), Box::new(b))),
        !Typ::Fun(Box::new(a), Box::new(b)).eq_spec(&Typ::Int),
        Typ::Fun(Box::new(a), Box::new(b)).eq_spec(&Typ::Fun(Box::new(c), Box::new(d)))
            <==> a.eq_spec(&c) && b.eq_spec(&d),
{
}

} // verus!
