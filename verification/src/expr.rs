//! Floating-point work that the verified core hands to its host.
//!
//! The core decides which formula applies and with which operands, and
//! writes it down as an [`Expr`]. The host evaluates the expression with
//! IEEE 754 arithmetic and hands the binary32 result back as its bit
//! pattern. What the core then does with the result holds for every value
//! the host may return.
use vstd::prelude::*;

verus! {

/// An expression over binary32 numbers.
#[derive(Debug, PartialEq, Eq)]
pub enum Expr {
    /// The binary32 number with this bit pattern.
    Bits(u32),
    /// The binary32 number nearest to this integer.
    FromInt(i32),
    /// The binary32 number nearest to the binary64 number with this bit
    /// pattern.
    Narrow(u64),
    /// The binary64 number with this bit pattern divided by this integer,
    /// the quotient taken in binary64 and then rounded to binary32.
    Ratio(u64, u32),
    /// Left plus right.
    Sum(Box<Expr>, Box<Expr>),
    /// Left times right.
    Product(Box<Expr>, Box<Expr>),
    /// Left divided by right.
    Quotient(Box<Expr>, Box<Expr>),
    /// Left raised to the power right.
    Power(Box<Expr>, Box<Expr>),
}

impl Expr {
    /// `left + right`
    pub fn sum(left: Expr, right: Expr) -> (expr: Expr)
        ensures
            expr == Expr::Sum(Box::new(left), Box::new(right)),
    {
        Expr::Sum(Box::new(left), Box::new(right))
    }

    /// `left * right`
    pub fn product(left: Expr, right: Expr) -> (expr: Expr)
        ensures
            expr == Expr::Product(Box::new(left), Box::new(right)),
    {
        Expr::Product(Box::new(left), Box::new(right))
    }

    /// `left / right`
    pub fn quotient(left: Expr, right: Expr) -> (expr: Expr)
        ensures
            expr == Expr::Quotient(Box::new(left), Box::new(right)),
    {
        Expr::Quotient(Box::new(left), Box::new(right))
    }

    /// `left` raised to the power `right`
    pub fn power(left: Expr, right: Expr) -> (expr: Expr)
        ensures
            expr == Expr::Power(Box::new(left), Box::new(right)),
    {
        Expr::Power(Box::new(left), Box::new(right))
    }
}

} // verus!
