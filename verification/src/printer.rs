//! Printing of expressions: one traversal for every family, with the
//! descriptions of the descriptor's data supplied by a printer.

use vstd::prelude::*;
use crate::decimal::{int_text, int_to_string};
use crate::exp::{Descriptor, Exp, PE};
use crate::typ::{print_type, type_text};

verus! {

/// A printer for the family that the descriptor `X` selects: for each
/// constructor, a description of the data that the descriptor attaches to
/// it. Each description is a function of that data alone.
pub trait Printer<X: Descriptor> {
    /// The description of a literal's extra data.
    spec fn lit_tag(data: X::Lit) -> Seq<char>;

    /// The description of a variable's extra data.
    spec fn var_tag(data: X::Var) -> Seq<char>;

    /// The description of an annotation's extra data.
    spec fn ann_tag(data: X::Ann) -> Seq<char>;

    /// The description of an abstraction's extra data.
    spec fn abs_tag(data: X::Abs) -> Seq<char>;

    /// The description of an application's extra data.
    spec fn app_tag(data: X::App) -> Seq<char>;

    /// The rendering of the open constructor's payload.
    spec fn exp_tag(data: X::Exp) -> Seq<char>;

    /// Describes a literal's extra data.
    fn p_lit(data: &X::Lit) -> (text: String)
        ensures
            text@ == Self::lit_tag(*data),
    ;

    /// Describes a variable's extra data.
    fn p_var(data: &X::Var) -> (text: String)
        ensures
            text@ == Self::var_tag(*data),
    ;

    /// Describes an annotation's extra data.
    fn p_ann(data: &X::Ann) -> (text: String)
        ensures
            text@ == Self::ann_tag(*data),
    ;

    /// Describes an abstraction's extra data.
    fn p_abs(data: &X::Abs) -> (text: String)
        ensures
            text@ == Self::abs_tag(*data),
    ;

    /// Describes an application's extra data.
    fn p_app(data: &X::App) -> (text: String)
        ensures
            text@ == Self::app_tag(*data),
    ;

    /// Renders the open constructor's payload.
    fn p_exp(data: &X::Exp) -> (text: String)
        ensures
            text@ == Self::exp_tag(*data),
    ;
}

/// The rendering of an expression with the printer `P`.
///
/// A core constructor is rendered as its own syntax, the word `is`, and the
/// printer's description of its extra data; the open constructor is rendered
/// by the printer alone.
pub open spec fn exp_text<X: Descriptor, P: Printer<X>>(exp: Exp<X>) -> Seq<char>
    decreases exp,
{
    match exp {
        Exp::Lit(data, value) => int_text(value as int) + " is "@ + P::lit_tag(data),
        Exp::Var(data, name) => name@ + " is "@ + P::var_tag(data),
        Exp::Ann(data, inner, typ) => "("@ + exp_text::<X, P>(*inner) + ")::("@ + type_text(typ)
            + ") is "@ + P::ann_tag(data),
        Exp::Abs(data, param, body) => "(lambda "@ + param@ + ". "@ + exp_text::<X, P>(*body)
            + ") is "@ + P::abs_tag(data),
        Exp::App(data, func, arg) => "("@ + exp_text::<X, P>(*func) + ")("@
            + exp_text::<X, P>(*arg) + ") is "@ + P::app_tag(data),
        Exp::Exp(payload) => P::exp_tag(payload),
    }
}

/// The printer's description of the data at the root of an expression.
pub open spec fn root_tag<X: Descriptor, P: Printer<X>>(exp: Exp<X>) -> Seq<char> {
    match exp {
        Exp::Lit(data, _) => P::lit_tag(data),
        Exp::Var(data, _) => P::var_tag(data),
        Exp::Ann(data, _, _) => P::ann_tag(data),
        Exp::Abs(data, _, _) => P::abs_tag(data),
        Exp::App(data, _, _) => P::app_tag(data),
        Exp::Exp(payload) => P::exp_tag(payload),
    }
}

/// Renders an expression of any family with a printer for that family.
///
/// The text depends on the expression and the printer alone: the same
/// expression is rendered the same way every time.
pub fn print_exp<X: Descriptor, P: Printer<X>>(exp: &Exp<X>) -> (text: String)
    ensures
        text@ == exp_text::<X, P>(*exp),
    decreases exp,
{
    match exp {
        Exp::Lit(data, value) => {
            let mut text = int_to_string(*value);
            text.append(" is ");
            text.append(P::p_lit(data).as_str());
            text
        },
        Exp::Var(data, name) => {
            let mut text = name.clone();
            text.append(" is ");
            text.append(P::p_var(data).as_str());
            text
        },
        Exp::Ann(data, inner, typ) => {
            let mut text = String::from_str("(");
            text.append(print_exp::<X, P>(inner).as_str());
            text.append(")::(");
            text.append(print_type(typ).as_str());
            text.append(") is ");
            text.append(P::p_ann(data).as_str());
            text
        },
        Exp::Abs(data, param, body) => {
            let mut text = String::from_str("(lambda ");
            text.append(param.as_str());
            text.append(". ");
            text.append(print_exp::<X, P>(body).as_str());
            text.append(") is ");
            text.append(P::p_abs(data).as_str());
            text
        },
        Exp::App(data, func, arg) => {
            let mut text = String::from_str("(");
            text.append(print_exp::<X, P>(func).as_str());
            text.append(")(");
            text.append(print_exp::<X, P>(arg).as_str());
            text.append(") is ");
            text.append(P::p_app(data).as_str());
            text
        },
        Exp::Exp(payload) => P::p_exp(payload),
    }
}

/// Every rendering ends with the printer's description of the data at the
/// root. For a core constructor, the word `is` stands before it; for the
/// open constructor, it is the whole rendering.
pub proof fn lemma_rendering_carries_tag<X: Descriptor, P: Printer<X>>(exp: Exp<X>)
    ensures
        root_tag::<X, P>(exp).is_suffix_of(exp_text::<X, P>(exp)),
        exp is Exp ==> exp_text::<X, P>(exp) == root_tag::<X, P>(exp),
        !(exp is Exp) ==> (" is "@ + root_tag::<X, P>(exp)).is_suffix_of(exp_text::<X, P>(exp)),
{
    reveal_strlit(" is ");
    reveal_strlit(") is ");
    let text = exp_text::<X, P>(exp);
    let tag = root_tag::<X, P>(exp);
    assert(tag =~= text.subrange(text.len() - tag.len(), text.len() as int));
    if !(exp is Exp) {
        let ending = " is "@ + tag;
        assert(ending =~= text.subrange(text.len() - ending.len(), text.len() as int));
    }
}

/// No rendering is empty, unless it is that of an open constructor whose
/// payload the printer renders as the empty text.
pub proof fn lemma_rendering_not_empty<X: Descriptor, P: Printer<X>>(exp: Exp<X>)
    requires
        exp is Exp ==> root_tag::<X, P>(exp).len() > 0,
    ensures
        exp_text::<X, P>(exp).len() > 0,
{
    reveal_strlit(" is ");
    lemma_rendering_carries_tag::<X, P>(exp);
}

/// Where, in the rendering of an expression, the description of the data at
/// its root begins.
pub open spec fn tag_start<X: Descriptor, P: Printer<X>>(exp: Exp<X>) -> int {
    exp_text::<X, P>(exp).len() - root_tag::<X, P>(exp).len()
}

/// In the rendering of a literal, a variable or an open constructor, the
/// description of the data at the root begins at the same place whatever the
/// printer.
pub proof fn lemma_tag_start_of_leaf<X: Descriptor, P: Printer<X>, Q: Printer<X>>(exp: Exp<X>)
    requires
        exp is Lit || exp is Var || exp is Exp,
    ensures
        tag_start::<X, P>(exp) == tag_start::<X, Q>(exp),
{
}

/// Two printers that describe the data at the root of an expression
/// differently render the expression differently, where the two descriptions
/// are equally long or begin at the same place.
pub proof fn lemma_printers_differ<X: Descriptor, P: Printer<X>, Q: Printer<X>>(exp: Exp<X>)
    requires
        root_tag::<X, P>(exp) != root_tag::<X, Q>(exp),
        root_tag::<X, P>(exp).len() == root_tag::<X, Q>(exp).len() || tag_start::<X, P>(exp)
            == tag_start::<X, Q>(exp),
    ensures
        exp_text::<X, P>(exp) != exp_text::<X, Q>(exp),
{
    lemma_rendering_carries_tag::<X, P>(exp);
    lemma_rendering_carries_tag::<X, Q>(exp);
}

/// The printer for expressions after partial evaluation.
pub struct PrinterPE;

impl Printer<PE> for PrinterPE {
    open spec fn lit_tag(data: ()) -> Seq<char> {
        "int"@
    }

    open spec fn var_tag(data: ()) -> Seq<char> {
        "var"@
    }

    open spec fn ann_tag(data: ()) -> Seq<char> {
        "ann"@
    }

    open spec fn abs_tag(data: ()) -> Seq<char> {
        "abs"@
    }

    open spec fn app_tag(data: ()) -> Seq<char> {
        "app"@
    }

    open spec fn exp_tag(data: i32) -> Seq<char> {
        int_text(data as int) + " is partially evaluated"@
    }

    fn p_lit(data: &()) -> (text: String) {
        String::from_str("int")
    }

    fn p_var(data: &()) -> (text: String) {
        String::from_str("var")
    }

    fn p_ann(data: &()) -> (text: String) {
        String::from_str("ann")
    }

    fn p_abs(data: &()) -> (text: String) {
        String::from_str("abs")
    }

    fn p_app(data: &()) -> (text: String) {
        String::from_str("app")
    }

    fn p_exp(data: &i32) -> (text: String) {
        int_to_string(*data).concat(" is partially evaluated")
    }
}

} // verus!
