//! The expression family and its descriptors.

use vstd::prelude::*;
use crate::typ::Typ;

verus! {

/// A descriptor fixes, once and for all, the extra data that each
/// constructor of the expression family carries, and the payload of the
/// open constructor.
pub trait Descriptor {
    /// Extra data of a literal.
    type Lit;
    /// Extra data of a variable.
    type Var;
    /// Extra data of a type annotation.
    type Ann;
    /// Extra data of an abstraction.
    type Abs;
    /// Extra data of an application.
    type App;
    /// Payload of the open constructor.
    type Exp;
}

/// An expression of the family that the descriptor `X` selects.
///
/// The five core constructors have the same shape under every descriptor;
/// only the type of their first field changes with it.
pub enum Exp<X: Descriptor> {
    /// An integer literal.
    Lit(X::Lit, i32),
    /// A variable, by name.
    Var(X::Var, String),
    /// An expression with the type ascribed to it.
    Ann(X::Ann, Box<Exp<X>>, Typ),
    /// A function of the named parameter, with its body.
    Abs(X::Abs, String, Box<Exp<X>>),
    /// A function applied to an argument.
    App(X::App, Box<Exp<X>>, Box<Exp<X>>),
    /// The open constructor: whatever the descriptor adds to the language.
    Exp(X::Exp),
}

/// The undecorated family: no constructor carries anything extra.
pub struct UD;

impl Descriptor for UD {
    type Lit = ();
    type Var = ();
    type Ann = ();
    type Abs = ();
    type App = ();
    type Exp = ();
}

/// Plain expressions.
pub type ExpUD = Exp<UD>;

/// The family for type checking: an application records the type of its
/// argument.
pub struct TC;

impl Descriptor for TC {
    type Lit = ();
    type Var = ();
    type Ann = ();
    type Abs = ();
    type App = Typ;
    type Exp = ();
}

/// Expressions whose applications carry their argument's type.
pub type ExpTC = Exp<TC>;

/// The family after partial evaluation: the open constructor holds a value
/// that has already been computed.
pub struct PE;

impl Descriptor for PE {
    type Lit = ();
    type Var = ();
    type Ann = ();
    type Abs = ();
    type App = ();
    type Exp = i32;
}

/// Expressions that may hold evaluated constants.
pub type ExpPE = Exp<PE>;

} // verus!
