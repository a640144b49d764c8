//! Token trees: reading them from input values, and desugaring them into
//! curried expression trees.
use vstd::prelude::*;
use vstd::slice::slice_subrange;

use crate::lambda_calculus::{Call, Expr, Lambda, Term, Var};

verus! {

/// An input value, as far as translation reads it: a list of values, a
/// string, or a value of any other kind.
#[derive(Debug)]
pub enum Json {
    Array(Vec<Json>),
    String(String),
    Other,
}

/// A token tree: a single token, or a bracketed sequence of token trees.
#[derive(Debug)]
pub enum Sexpr {
    String(String),
    Sexprs(Vec<Sexpr>),
}

/// Whether `j` is made, all the way down, of lists and strings.
pub open spec fn translatable(j: Json) -> bool
    decreases j,
{
    match j {
        Json::Array(v) => all_translatable(v@),
        Json::String(_) => true,
        Json::Other => false,
    }
}

/// Whether every element of `vs` is translatable.
pub open spec fn all_translatable(vs: Seq<Json>) -> bool
    decreases vs,
{
    forall|i: int| 0 <= i < vs.len() ==> translatable(#[trigger] vs[i])
}

/// Whether the token tree `s` has the shape and the strings of `j`.
pub open spec fn mirrors(j: Json, s: Sexpr) -> bool
    decreases j,
{
    match j {
        Json::Array(v) => match s {
            Sexpr::Sexprs(w) => all_mirror(v@, w@),
            Sexpr::String(_) => false,
        },
        Json::String(a) => match s {
            Sexpr::String(b) => a@ == b@,
            Sexpr::Sexprs(_) => false,
        },
        Json::Other => false,
    }
}

/// Whether `ws` mirrors `vs` element by element.
pub open spec fn all_mirror(vs: Seq<Json>, ws: Seq<Sexpr>) -> bool
    decreases vs,
{
    vs.len() == ws.len() && forall|i: int| 0 <= i < vs.len() ==> mirrors(#[trigger] vs[i], ws[i])
}

/// The ways in which a token tree fails to desugar.
pub enum Fault {
    /// An empty sequence.
    EmptyExpression,
    /// An arrow where an expression should start: first in a sequence, or
    /// standing alone.
    ArrowAtStart,
    /// An arrow whose parameter is a sequence rather than a token.
    NonIdentifierParameter,
}

/// The error text reported for each fault.
pub open spec fn message(f: Fault) -> Seq<char> {
    match f {
        Fault::EmptyExpression => "empty sexpr not allowed"@,
        Fault::ArrowAtStart => "=> symbol cannot start an expression"@,
        Fault::NonIdentifierParameter => "functions can only take identifiers as arguments"@,
    }
}

/// Whether `t` is the reserved arrow token.
pub open spec fn is_arrow_token(t: Sexpr) -> bool {
    t matches Sexpr::String(s) && s@ == "=>"@
}

/// The application of one desugaring to another; the first fault wins.
pub open spec fn application(f: Result<Term, Fault>, a: Result<Term, Fault>) -> Result<Term, Fault> {
    match f {
        Err(e) => Err(e),
        Ok(ft) => match a {
            Err(e) => Err(e),
            Ok(at) => Ok(Term::App(Box::new(ft), Box::new(at))),
        },
    }
}

/// The expression that the token tree `t` stands for.
pub open spec fn desugared(t: Sexpr) -> Result<Term, Fault>
    decreases t,
{
    match t {
        Sexpr::String(n) => if n@ == "=>"@ {
            Err(Fault::ArrowAtStart)
        } else {
            Ok(Term::Ref(n@))
        },
        Sexpr::Sexprs(v) => desugared_list(v@),
    }
}

/// The expression that the sequence `ls` stands for.
///
/// `p => body...` is an abstraction whose body runs to the end of the
/// sequence. Otherwise the sequence is an application chain: two elements
/// apply directly; when the third element is an arrow, the first element is
/// applied to the abstraction that the rest forms; else the first two
/// elements are applied to each other and that is applied to the rest.
pub open spec fn desugared_list(ls: Seq<Sexpr>) -> Result<Term, Fault>
    decreases ls,
{
    if ls.len() == 0 {
        Err(Fault::EmptyExpression)
    } else if is_arrow_token(ls[0]) {
        Err(Fault::ArrowAtStart)
    } else if ls.len() == 1 {
        desugared(ls[0])
    } else if is_arrow_token(ls[1]) {
        match ls[0] {
            Sexpr::String(p) => {
                let body = if ls.len() == 3 {
                    desugared(ls[2])
                } else {
                    desugared_list(ls.subrange(2, ls.len() as int))
                };
                match body {
                    Ok(b) => Ok(Term::Abs(p@, Box::new(b))),
                    Err(e) => Err(e),
                }
            },
            Sexpr::Sexprs(_) => Err(Fault::NonIdentifierParameter),
        }
    } else if ls.len() == 2 {
        application(desugared(ls[0]), desugared(ls[1]))
    } else if is_arrow_token(ls[2]) {
        application(desugared(ls[0]), desugared_list(ls.subrange(1, ls.len() as int)))
    } else {
        application(
            application(desugared(ls[0]), desugared(ls[1])),
            desugared_list(ls.subrange(2, ls.len() as int)),
        )
    }
}

/// Whether the executable result `r` is the desugaring `m`: the same
/// expression, or an error carrying the fault's message.
pub open spec fn outcome(r: Result<Expr, String>, m: Result<Term, Fault>) -> bool {
    match m {
        Ok(t) => r matches Ok(e) && e@ == t,
        Err(f) => r matches Err(s) && s@ == message(f),
    }
}

/// As [`outcome`], for a step that builds an abstraction.
pub open spec fn lambda_outcome(r: Result<Lambda, String>, m: Result<Term, Fault>) -> bool {
    match m {
        Ok(t) => r matches Ok(e) && e@ == t,
        Err(f) => r matches Err(s) && s@ == message(f),
    }
}

/// As [`outcome`], for a step that builds an application.
pub open spec fn call_outcome(r: Result<Call, String>, m: Result<Term, Fault>) -> bool {
    match m {
        Ok(t) => r matches Ok(e) && e@ == t,
        Err(f) => r matches Err(s) && s@ == message(f),
    }
}

impl Sexpr {
    /// Translates an input value into a token tree: lists become sequences
    /// in the same order, strings become tokens, and any other kind of
    /// value anywhere in the input is refused.
    pub fn from_json(json: &Json) -> (r: Result<Sexpr, String>)
        ensures
            r is Ok <==> translatable(*json),
            r matches Ok(s) ==> mirrors(*json, s),
            r matches Err(m) ==> m@ == "got a value that was not an array or a string"@,
        decreases *json, 1nat,
    {
        match json {
            Json::Array(vals) => match Sexpr::from_json_list(vals.as_slice()) {
                Ok(out) => Ok(Sexpr::Sexprs(out)),
                Err(e) => Err(e),
            },
            Json::String(st) => Ok(Sexpr::String(st.clone())),
            Json::Other => Err("got a value that was not an array or a string".to_owned()),
        }
    }

    fn from_json_list(vals: &[Json]) -> (r: Result<Vec<Sexpr>, String>)
        ensures
            r is Ok <==> all_translatable(vals@),
            r matches Ok(out) ==> all_mirror(vals@, out@),
            r matches Err(m) ==> m@ == "got a value that was not an array or a string"@,
        decreases vals@, 0nat,
    {
        let mut out: Vec<Sexpr> = Vec::new();
        let mut i: usize = 0;
        while i < vals.len()
            invariant
                i <= vals@.len(),
                out@.len() == i,
                forall|k: int| 0 <= k < i ==> translatable(#[trigger] vals@[k]),
                forall|k: int| 0 <= k < i ==> mirrors(#[trigger] vals@[k], out@[k]),
            decreases vals@.len() - i,
        {
            match Sexpr::from_json(&vals[i]) {
                Ok(s) => out.push(s),
                Err(e) => return Err(e),
            }
            i += 1;
        }
        Ok(out)
    }

    /// Desugars the token tree into a curried expression tree.
    pub fn desugar(&self) -> (r: Result<Expr, String>)
        ensures
            outcome(r, desugared(*self)),
        decreases *self, 0nat,
    {
        match self {
            Sexpr::String(name) => if self.is_arrow() {
                Err("=> symbol cannot start an expression".to_owned())
            } else {
                Ok(Expr::Var(Var { name: name.clone() }))
            },
            Sexpr::Sexprs(sexprs) => Sexpr::desugar_list(sexprs.as_slice()),
        }
    }

    fn desugar_list(ls: &[Sexpr]) -> (r: Result<Expr, String>)
        ensures
            outcome(r, desugared_list(ls@)),
        decreases ls@, 1nat,
    {
        if ls.len() == 0 {
            return Err("empty sexpr not allowed".to_owned());
        }
        if ls[0].is_arrow() {
            return Err("=> symbol cannot start an expression".to_owned());
        }
        if ls.len() == 1 {
            ls[0].desugar()
        } else if ls[1].is_arrow() {
            let arg_name = match &ls[0] {
                Sexpr::String(st) => st,
                Sexpr::Sexprs(_) => {
                    return Err("functions can only take identifiers as arguments".to_owned());
                },
            };
            match Sexpr::desugar_lambda(arg_name, slice_subrange(ls, 2, ls.len())) {
                Ok(l) => Ok(Expr::Lambda(Box::new(l))),
                Err(e) => Err(e),
            }
        } else {
            match Sexpr::desugar_call(ls) {
                Ok(c) => Ok(Expr::Call(Box::new(c))),
                Err(e) => Err(e),
            }
        }
    }

    fn desugar_lambda(arg_name: &String, rest: &[Sexpr]) -> (r: Result<Lambda, String>)
        ensures
            lambda_outcome(
                r,
                match (if rest@.len() == 1 {
                    desugared(rest@[0])
                } else {
                    desugared_list(rest@)
                }) {
                    Ok(b) => Ok(Term::Abs(arg_name@, Box::new(b))),
                    Err(e) => Err(e),
                },
            ),
        decreases rest@, 2nat,
    {
        let body = if rest.len() == 1 {
            rest[0].desugar()
        } else {
            Sexpr::desugar_list(rest)
        };
        match body {
            Ok(body) => Ok(Lambda { arg_name: arg_name.clone(), body }),
            Err(e) => Err(e),
        }
    }

    fn desugar_call(rest: &[Sexpr]) -> (r: Result<Call, String>)
        requires
            rest@.len() > 1,
            !is_arrow_token(rest@[1]),
        ensures
            call_outcome(
                r,
                if rest@.len() == 2 {
                    application(desugared(rest@[0]), desugared(rest@[1]))
                } else if is_arrow_token(rest@[2]) {
                    application(
                        desugared(rest@[0]),
                        desugared_list(rest@.subrange(1, rest@.len() as int)),
                    )
                } else {
                    application(
                        application(desugared(rest@[0]), desugared(rest@[1])),
                        desugared_list(rest@.subrange(2, rest@.len() as int)),
                    )
                },
            ),
        decreases rest@, 0nat,
    {
        if rest.len() == 2 {
            let func = match rest[0].desugar() {
                Ok(f) => f,
                Err(e) => return Err(e),
            };
            let arg = match rest[1].desugar() {
                Ok(a) => a,
                Err(e) => return Err(e),
            };
            Ok(Call { func, arg })
        } else if rest[2].is_arrow() {
            let func = match rest[0].desugar() {
                Ok(f) => f,
                Err(e) => return Err(e),
            };
            let arg = match Sexpr::desugar_list(slice_subrange(rest, 1, rest.len())) {
                Ok(a) => a,
                Err(e) => return Err(e),
            };
            Ok(Call { func, arg })
        } else {
            let func = match Sexpr::desugar_call(slice_subrange(rest, 0, 2)) {
                Ok(f) => Expr::Call(Box::new(f)),
                Err(e) => return Err(e),
            };
            let arg = match Sexpr::desugar_list(slice_subrange(rest, 2, rest.len())) {
                Ok(a) => a,
                Err(e) => return Err(e),
            };
            Ok(Call { func, arg })
        }
    }

    /// Whether this is the reserved arrow token.
    pub fn is_arrow(&self) -> (r: bool)
        ensures
            r == is_arrow_token(*self),
    {
        match self {
            Sexpr::String(s) => *s == "=>".to_owned(),
            Sexpr::Sexprs(_) => false,
        }
    }
}

} // verus!
