//! An evaluator for the untyped lambda calculus, reached from a bracketed
//! token syntax: token trees are desugared into curried expression trees,
//! which are then reduced one pass at a time.
pub mod lambda_calculus;
pub mod syntax;

pub use lambda_calculus::{Call, Expr, Lambda, Var};
pub use syntax::{Json, Sexpr};

