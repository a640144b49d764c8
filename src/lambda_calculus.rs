//! Expression trees, substitution, single-pass reduction and the
//! reducibility oracle.
use vstd::prelude::*;
use vstd::string::*;

verus! {

/// The mathematical model of an expression tree.
pub enum Term {
    /// A single-parameter function: its parameter name and its body.
    Abs(Seq<char>, Box<Term>),
    /// A reference to a name, free or bound.
    Ref(Seq<char>),
    /// An application of a function position to an argument position.
    App(Box<Term>, Box<Term>),
}

/// Replaces every free-by-name occurrence of `name` in `t` by `with`.
/// An abstraction whose parameter is `name` shadows its body; bound names
/// are never renamed.
pub open spec fn subst(t: Term, name: Seq<char>, with: Term) -> Term
    decreases t,
{
    match t {
        Term::Ref(n) => if n == name {
            with
        } else {
            t
        },
        Term::Abs(p, b) => if p == name {
            t
        } else {
            Term::Abs(p, Box::new(subst(*b, name, with)))
        },
        Term::App(f, a) => Term::App(
            Box::new(subst(*f, name, with)),
            Box::new(subst(*a, name, with)),
        ),
    }
}

/// One reduction pass over `t`, with the nesting of recursive reductions
/// limited to `depth`; `None` when that limit is reached.
///
/// Abstractions and references are values. An application reduces its
/// function, then its argument; when the function became an abstraction,
/// its body is reduced once more and the argument is substituted for its
/// parameter there. Otherwise the application is stuck and rebuilt.
pub open spec fn reduce_within(t: Term, depth: nat) -> Option<Term>
    decreases depth,
{
    match t {
        Term::App(f, a) => if depth == 0 {
            None
        } else {
            let d = (depth - 1) as nat;
            match (reduce_within(*f, d), reduce_within(*a, d)) {
                (Some(f2), Some(a2)) => match f2 {
                    Term::Abs(x, b) => match reduce_within(*b, d) {
                        Some(b2) => Some(subst(b2, x, a2)),
                        None => None,
                    },
                    _ => Some(Term::App(Box::new(f2), Box::new(a2))),
                },
                _ => None,
            }
        },
        _ => Some(t),
    }
}

/// One reduction pass over `t` as [`reduce_within`] describes it, except
/// that an application met where the nesting limit `depth` is used up is
/// left as it is instead of failing the whole pass.
pub open spec fn reduce_bounded(t: Term, depth: nat) -> Term
    decreases depth,
{
    match t {
        Term::App(f, a) => if depth == 0 {
            t
        } else {
            let d = (depth - 1) as nat;
            let f2 = reduce_bounded(*f, d);
            let a2 = reduce_bounded(*a, d);
            match f2 {
                Term::Abs(x, b) => subst(reduce_bounded(*b, d), x, a2),
                _ => Term::App(Box::new(f2), Box::new(a2)),
            }
        },
        _ => t,
    }
}

/// Whether `r` holds the bounded pass over `t` and, as its flag, whether
/// that pass finished within the limit, in which case it is the full pass.
pub open spec fn pass_result(t: Term, depth: nat, r: (Expr, bool)) -> bool {
    &&& r.0@ == reduce_bounded(t, depth)
    &&& r.1 == reduce_within(t, depth) is Some
    &&& r.1 ==> reduce_within(t, depth) == Some(r.0@)
}

/// The model of a result that may be missing.
pub open spec fn view_of(r: Option<Expr>) -> Option<Term> {
    match r {
        Some(e) => Some(e@),
        None => None,
    }
}

/// The nesting limit that [`Expr::eval`] works within.
pub const EVAL_DEPTH: u64 = 0xffff_ffff_ffff_ffff;

/// The result of one reduction pass; applications nested deeper than
/// [`EVAL_DEPTH`] would be left as they are.
pub open spec fn reduce(t: Term) -> Term {
    reduce_bounded(t, EVAL_DEPTH as nat)
}

/// Whether `t` holds an application whose function position is an
/// abstraction, looking inside abstraction bodies too.
pub open spec fn pending(t: Term) -> bool
    decreases t,
{
    match t {
        Term::Ref(_) => false,
        Term::Abs(_, b) => pending(*b),
        Term::App(f, a) => *f is Abs || pending(*f) || pending(*a),
    }
}

/// The diagnostic text of `t`: `[p => body]`, `[func arg]`, or a bare name.
pub open spec fn text(t: Term) -> Seq<char>
    decreases t,
{
    match t {
        Term::Abs(p, b) => "["@ + p + " => "@ + text(*b) + "]"@,
        Term::App(f, a) => "["@ + text(*f) + " "@ + text(*a) + "]"@,
        Term::Ref(n) => n,
    }
}


/// A single-parameter function.
#[derive(Debug)]
pub struct Lambda {
    pub arg_name: String,
    pub body: Expr,
}


/// An application of a function position to an argument position.
#[derive(Debug)]
pub struct Call {
    pub func: Expr,
    pub arg: Expr,
}


/// A reference to a name.
#[derive(Debug)]
pub struct Var {
    pub name: String,
}


/// An expression tree; its model is [`Term`].
#[derive(Debug)]
pub enum Expr {
    Lambda(Box<Lambda>),
    Var(Var),
    Call(Box<Call>),
}

impl Expr {
    pub open spec fn view(&self) -> Term
        decreases self,
    {
        match self {
            Expr::Lambda(l) => Term::Abs(l.arg_name@, Box::new(l.body.view())),
            Expr::Var(v) => Term::Ref(v.name@),
            Expr::Call(c) => Term::App(Box::new(c.func.view()), Box::new(c.arg.view())),
        }
    }
}

impl Lambda {
    pub open spec fn view(&self) -> Term {
        Term::Abs(self.arg_name@, Box::new(self.body@))
    }
}

impl Call {
    pub open spec fn view(&self) -> Term {
        Term::App(Box::new(self.func@), Box::new(self.arg@))
    }
}

impl Var {
    pub open spec fn view(&self) -> Term {
        Term::Ref(self.name@)
    }
}


impl Lambda {
    /// Applies this abstraction to `arg`: the body is reduced once more, then
    /// `arg` is substituted for the parameter in it.
    fn call(self, arg: Expr, depth: u64) -> (r: (Expr, bool))
        ensures
            r.0@ == subst(reduce_bounded(self.body@, depth as nat), self.arg_name@, arg@),
            r.1 == reduce_within(self.body@, depth as nat) is Some,
            r.1 ==> reduce_within(self.body@, depth as nat) == Some(
                reduce_bounded(self.body@, depth as nat),
            ),
        decreases depth + 1, 0nat,
    {
        let (body, done) = self.body.pass(depth);
        (body.replace(self.arg_name, arg), done)
    }

    fn replace(self, name: String, with: Expr) -> (r: Lambda)
        ensures
            r@ == subst(self@, name@, with@),
        decreases self,
    {
        if self.arg_name != name {
            Lambda { arg_name: self.arg_name, body: self.body.replace(name, with) }
        } else {
            self
        }
    }

    pub fn should_continue(&self) -> (r: bool)
        ensures
            r == pending(self@),
    {
        self.body.should_continue()
    }
}

impl Call {
    fn eval(self, depth: u64) -> (r: (Expr, bool))
        ensures
            pass_result(self@, depth as nat, r),
        decreases depth, 1nat,
    {
        if depth == 0 {
            return (Expr::Call(Box::new(self)), false);
        }
        let (func, func_done) = self.func.pass(depth - 1);
        let (arg, arg_done) = self.arg.pass(depth - 1);
        match func {
            Expr::Lambda(l) => {
                let (r, body_done) = l.call(arg, depth - 1);
                (r, func_done && arg_done && body_done)
            },
            _ => (Expr::Call(Box::new(Call { func, arg })), func_done && arg_done),
        }
    }

    fn replace(self, name: String, with: Expr) -> (r: Call)
        ensures
            r@ == subst(self@, name@, with@),
        decreases self,
    {
        Call {
            func: self.func.replace(name.clone(), with.duplicate()),
            arg: self.arg.replace(name, with),
        }
    }

    pub fn should_continue(&self) -> (r: bool)
        ensures
            r == pending(self@),
        decreases self,
    {
        match self.func {
            Expr::Lambda(_) => true,
            _ => self.func.should_continue() || self.arg.should_continue(),
        }
    }
}

impl Var {
    fn replace(self, name: String, with: Expr) -> (r: Expr)
        ensures
            r@ == subst(self@, name@, with@),
    {
        if self.name == name {
            with
        } else {
            Expr::Var(self)
        }
    }
}

impl Expr {
    /// One reduction pass that leaves applications nested deeper than
    /// `depth` as they are, with whether the pass finished within `depth`.
    fn pass(self, depth: u64) -> (r: (Expr, bool))
        ensures
            pass_result(self@, depth as nat, r),
        decreases depth, 2nat,
    {
        match self {
            Expr::Call(c) => c.eval(depth),
            _ => (self, true),
        }
    }

    /// Performs one reduction pass, giving up with `None` where the
    /// recursive reductions would nest deeper than `depth`.
    pub fn eval_within(self, depth: u64) -> (r: Option<Expr>)
        ensures
            view_of(r) == reduce_within(self@, depth as nat),
    {
        let (r, done) = self.pass(depth);
        if done {
            Some(r)
        } else {
            None
        }
    }

    /// Performs one reduction pass.
    ///
    /// Whether further passes have work left is told by
    /// [`Expr::should_continue`]; some expressions never run out of work.
    pub fn eval(self) -> (r: Expr)
        ensures
            r@ == reduce(self@),
    {
        self.pass(EVAL_DEPTH).0
    }

    fn replace(self, name: String, with: Expr) -> (r: Expr)
        ensures
            r@ == subst(self@, name@, with@),
        decreases self,
    {
        match self {
            Expr::Lambda(l) => Expr::Lambda(Box::new(l.replace(name, with))),
            Expr::Var(s) => s.replace(name, with),
            Expr::Call(c) => Expr::Call(Box::new(c.replace(name, with))),
        }
    }

    /// Whether the expression holds an application with an abstraction in
    /// its function position, inside abstraction bodies too.
    pub fn should_continue(&self) -> (r: bool)
        ensures
            r == pending(self@),
        decreases self,
    {
        match self {
            Expr::Lambda(l) => l.body.should_continue(),
            Expr::Var(_) => false,
            Expr::Call(c) => c.should_continue(),
        }
    }

    /// A copy of the whole tree.
    fn duplicate(&self) -> (r: Expr)
        ensures
            r@ == self@,
        decreases self,
    {
        match self {
            Expr::Lambda(l) => Expr::Lambda(
                Box::new(Lambda { arg_name: l.arg_name.clone(), body: l.body.duplicate() }),
            ),
            Expr::Var(v) => Expr::Var(Var { name: v.name.clone() }),
            Expr::Call(c) => Expr::Call(
                Box::new(Call { func: c.func.duplicate(), arg: c.arg.duplicate() }),
            ),
        }
    }

    /// Structural comparison of two trees.
    fn same(&self, other: &Expr) -> (r: bool)
        ensures
            r == (self@ == other@),
        decreases self,
    {
        match (self, other) {
            (Expr::Lambda(a), Expr::Lambda(b)) => a.arg_name == b.arg_name && a.body.same(&b.body),
            (Expr::Var(a), Expr::Var(b)) => a.name == b.name,
            (Expr::Call(a), Expr::Call(b)) => a.func.same(&b.func) && a.arg.same(&b.arg),
            _ => false,
        }
    }
}


impl Lambda {
    /// The diagnostic text: `[param => body]`.
    pub fn render(&self) -> (r: String)
        ensures
            r@ == text(self@),
        decreases self,
    {
        let mut s = String::new();
        s.append("[");
        s.append(self.arg_name.as_str());
        s.append(" => ");
        s.append(self.body.render().as_str());
        s.append("]");
        s
    }
}

impl Call {
    /// The diagnostic text: `[func arg]`.
    pub fn render(&self) -> (r: String)
        ensures
            r@ == text(self@),
        decreases self,
    {
        let mut s = String::new();
        s.append("[");
        s.append(self.func.render().as_str());
        s.append(" ");
        s.append(self.arg.render().as_str());
        s.append("]");
        s
    }
}

impl Var {
    /// The diagnostic text: the bare name.
    pub fn render(&self) -> (r: String)
        ensures
            r@ == text(self@),
    {
        self.name.clone()
    }
}

impl Expr {
    /// The diagnostic text of the tree.
    pub fn render(&self) -> (r: String)
        ensures
            r@ == text(self@),
        decreases self,
    {
        match self {
            Expr::Lambda(l) => l.render(),
            Expr::Var(v) => v.render(),
            Expr::Call(c) => c.render(),
        }
    }
}

impl Clone for Expr {
    fn clone(&self) -> Self {
        self.duplicate()
    }
}

impl Clone for Lambda {
    fn clone(&self) -> Self {
        Lambda { arg_name: self.arg_name.clone(), body: self.body.duplicate() }
    }
}

impl Clone for Call {
    fn clone(&self) -> Self {
        Call { func: self.func.duplicate(), arg: self.arg.duplicate() }
    }
}

impl Clone for Var {
    fn clone(&self) -> Self {
        Var { name: self.name.clone() }
    }
}

impl PartialEq for Expr {
    fn eq(&self, other: &Expr) -> bool {
        self.same(other)
    }
}

impl vstd::std_specs::cmp::PartialEqSpecImpl for Expr {
    open spec fn obeys_eq_spec() -> bool {
        true
    }

    open spec fn eq_spec(&self, other: &Expr) -> bool {
        self@ == other@
    }
}

impl PartialEq for Lambda {
    fn eq(&self, other: &Lambda) -> bool {
        self.arg_name == other.arg_name && self.body.same(&other.body)
    }
}

impl vstd::std_specs::cmp::PartialEqSpecImpl for Lambda {
    open spec fn obeys_eq_spec() -> bool {
        true
    }

    open spec fn eq_spec(&self, other: &Lambda) -> bool {
        self@ == other@
    }
}

impl PartialEq for Call {
    fn eq(&self, other: &Call) -> bool {
        self.func.same(&other.func) && self.arg.same(&other.arg)
    }
}

impl vstd::std_specs::cmp::PartialEqSpecImpl for Call {
    open spec fn obeys_eq_spec() -> bool {
        true
    }

    open spec fn eq_spec(&self, other: &Call) -> bool {
        self@ == other@
    }
}

impl PartialEq for Var {
    fn eq(&self, other: &Var) -> bool {
        self.name == other.name
    }
}

impl vstd::std_specs::cmp::PartialEqSpecImpl for Var {
    open spec fn obeys_eq_spec() -> bool {
        true
    }

    open spec fn eq_spec(&self, other: &Var) -> bool {
        self@ == other@
    }
}


impl From<Lambda> for Expr {
    fn from(l: Lambda) -> Expr {
        Expr::Lambda(Box::new(l))
    }
}

impl vstd::std_specs::convert::FromSpecImpl<Lambda> for Expr {
    open spec fn obeys_from_spec() -> bool {
        true
    }

    open spec fn from_spec(l: Lambda) -> Expr {
        Expr::Lambda(Box::new(l))
    }
}

impl From<Call> for Expr {
    fn from(c: Call) -> Expr {
        Expr::Call(Box::new(c))
    }
}

impl vstd::std_specs::convert::FromSpecImpl<Call> for Expr {
    open spec fn obeys_from_spec() -> bool {
        true
    }

    open spec fn from_spec(c: Call) -> Expr {
        Expr::Call(Box::new(c))
    }
}

impl From<Var> for Expr {
    fn from(v: Var) -> Expr {
        Expr::Var(v)
    }
}

impl vstd::std_specs::convert::FromSpecImpl<Var> for Expr {
    open spec fn obeys_from_spec() -> bool {
        true
    }

    open spec fn from_spec(v: Var) -> Expr {
        Expr::Var(v)
    }
}

/// A reduction pass that finishes within some nesting limit gives the same
/// result under every larger limit: the limit decides only whether the
/// pass finishes, never what it yields.
pub proof fn lemma_reduce_within_monotone(t: Term, d1: nat, d2: nat)
    requires
        d1 <= d2,
        reduce_within(t, d1) is Some,
    ensures
        reduce_within(t, d2) == reduce_within(t, d1),
    decreases d1,
{
    if let Term::App(f, a) = t {
        let e1 = (d1 - 1) as nat;
        let e2 = (d2 - 1) as nat;
        lemma_reduce_within_monotone(*f, e1, e2);
        lemma_reduce_within_monotone(*a, e1, e2);
        if let Some(Term::Abs(_, b)) = reduce_within(*f, e1) {
            lemma_reduce_within_monotone(*b, e1, e2);
        }
    }
}

} // verus!
