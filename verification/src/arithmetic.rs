//! The arithmetic that a cycle is evaluated with.
//!
//! The library holds numbers by their encodings and performs no arithmetic on
//! them itself: each operation is asked of a function that the caller hands
//! in.  Nothing is assumed of that function's answers.  What the library
//! proves of a result, it proves for every such function, by saying which
//! formula the result is a value of: `evaluates`.

use vstd::prelude::*;
use crate::binary64::Binary64;

verus! {

/// One arithmetic operation on binary64 numbers, with its operands.
#[derive(Clone, Copy, Debug)]
pub enum Operation {
    /// The first operand plus the second.
    Sum(Binary64, Binary64),
    /// The first operand minus the second.
    Difference(Binary64, Binary64),
    /// The first operand times the second.
    Product(Binary64, Binary64),
    /// The first operand divided by the second.
    Quotient(Binary64, Binary64),
    /// The first operand raised to the power of the second.
    Power(Binary64, Binary64),
    /// The square root of the operand.
    SquareRoot(Binary64),
}

/// A formula over binary64 numbers.
pub enum Term {
    Value(Binary64),
    Sum(Box<Term>, Box<Term>),
    Difference(Box<Term>, Box<Term>),
    Product(Box<Term>, Box<Term>),
    Quotient(Box<Term>, Box<Term>),
    Power(Box<Term>, Box<Term>),
    SquareRoot(Box<Term>),
}

/// The number `x`, as a formula.
pub open spec fn value(x: Binary64) -> Term {
    Term::Value(x)
}

/// The number with the encoding `bits`, as a formula.
pub open spec fn constant(bits: u64) -> Term {
    Term::Value(Binary64 { bits })
}

/// `a + b`.
pub open spec fn sum(a: Term, b: Term) -> Term {
    Term::Sum(Box::new(a), Box::new(b))
}

/// `a - b`.
pub open spec fn difference(a: Term, b: Term) -> Term {
    Term::Difference(Box::new(a), Box::new(b))
}

/// `a * b`.
pub open spec fn product(a: Term, b: Term) -> Term {
    Term::Product(Box::new(a), Box::new(b))
}

/// `a / b`.
pub open spec fn quotient(a: Term, b: Term) -> Term {
    Term::Quotient(Box::new(a), Box::new(b))
}

/// `a` raised to the power `b`.
pub open spec fn power(a: Term, b: Term) -> Term {
    Term::Power(Box::new(a), Box::new(b))
}

/// The square root of `a`.
pub open spec fn square_root(a: Term) -> Term {
    Term::SquareRoot(Box::new(a))
}

/// The answers of `arithmetic`, as a relation: whether, asked `operation`, it
/// may answer `out`.
pub open spec fn answers<F: Fn(Operation) -> Binary64>(arithmetic: F) -> spec_fn(
    Operation,
    Binary64,
) -> bool {
    |operation: Operation, out: Binary64| call_ensures(arithmetic, (operation,), out)
}

/// Whether the relation `answer` admits `out` as a value of the formula
/// `term`: each operation of the formula, asked with values of its operands,
/// may be answered with the value taken for it, up to `out` for the whole.
pub open spec fn admits(
    answer: spec_fn(Operation, Binary64) -> bool,
    term: Term,
    out: Binary64,
) -> bool
    decreases term,
{
    match term {
        Term::Value(x) => out == x,
        Term::Sum(a, b) => exists|x: Binary64, y: Binary64|
            admits(answer, *a, x) && admits(answer, *b, y) && #[trigger] answer(
                Operation::Sum(x, y),
                out,
            ),
        Term::Difference(a, b) => exists|x: Binary64, y: Binary64|
            admits(answer, *a, x) && admits(answer, *b, y) && #[trigger] answer(
                Operation::Difference(x, y),
                out,
            ),
        Term::Product(a, b) => exists|x: Binary64, y: Binary64|
            admits(answer, *a, x) && admits(answer, *b, y) && #[trigger] answer(
                Operation::Product(x, y),
                out,
            ),
        Term::Quotient(a, b) => exists|x: Binary64, y: Binary64|
            admits(answer, *a, x) && admits(answer, *b, y) && #[trigger] answer(
                Operation::Quotient(x, y),
                out,
            ),
        Term::Power(a, b) => exists|x: Binary64, y: Binary64|
            admits(answer, *a, x) && admits(answer, *b, y) && #[trigger] answer(
                Operation::Power(x, y),
                out,
            ),
        Term::SquareRoot(a) => exists|x: Binary64|
            admits(answer, *a, x) && #[trigger] answer(Operation::SquareRoot(x), out),
    }
}

/// Whether `out` is a value of the formula `term` under `arithmetic`.
pub open spec fn evaluates<F: Fn(Operation) -> Binary64>(
    arithmetic: F,
    term: Term,
    out: Binary64,
) -> bool {
    admits(answers(arithmetic), term, out)
}

/// Whether `arithmetic` may be asked every operation.
pub open spec fn total<F: Fn(Operation) -> Binary64>(arithmetic: F) -> bool {
    forall|operation: Operation| call_requires(arithmetic, (operation,))
}

/// Whether `arithmetic` has one answer to each operation.
pub open spec fn single_valued<F: Fn(Operation) -> Binary64>(arithmetic: F) -> bool {
    forall|operation: Operation, a: Binary64, b: Binary64|
        call_ensures(arithmetic, (operation,), a) && call_ensures(arithmetic, (operation,), b)
            ==> a == b
}

/// A relation with one answer to each operation admits one value of a
/// formula.
proof fn lemma_admits_one(
    answer: spec_fn(Operation, Binary64) -> bool,
    term: Term,
    a: Binary64,
    b: Binary64,
)
    requires
        forall|operation: Operation, x: Binary64, y: Binary64|
            #[trigger] answer(operation, x) && #[trigger] answer(operation, y) ==> x == y,
        admits(answer, term, a),
        admits(answer, term, b),
    ensures
        a == b,
    decreases term,
{
    match term {
        Term::Value(x) => {},
        Term::Sum(l, r) => {
            let (x1, y1) = choose|x: Binary64, y: Binary64|
                admits(answer, *l, x) && admits(answer, *r, y) && #[trigger] answer(
                    Operation::Sum(x, y),
                    a,
                );
            let (x2, y2) = choose|x: Binary64, y: Binary64|
                admits(answer, *l, x) && admits(answer, *r, y) && #[trigger] answer(
                    Operation::Sum(x, y),
                    b,
                );
            lemma_admits_one(answer, *l, x1, x2);
            lemma_admits_one(answer, *r, y1, y2);
        },
        Term::Difference(l, r) => {
            let (x1, y1) = choose|x: Binary64, y: Binary64|
                admits(answer, *l, x) && admits(answer, *r, y) && #[trigger] answer(
                    Operation::Difference(x, y),
                    a,
                );
            let (x2, y2) = choose|x: Binary64, y: Binary64|
                admits(answer, *l, x) && admits(answer, *r, y) && #[trigger] answer(
                    Operation::Difference(x, y),
                    b,
                );
            lemma_admits_one(answer, *l, x1, x2);
            lemma_admits_one(answer, *r, y1, y2);
        },
        Term::Product(l, r) => {
            let (x1, y1) = choose|x: Binary64, y: Binary64|
                admits(answer, *l, x) && admits(answer, *r, y) && #[trigger] answer(
                    Operation::Product(x, y),
                    a,
                );
            let (x2, y2) = choose|x: Binary64, y: Binary64|
                admits(answer, *l, x) && admits(answer, *r, y) && #[trigger] answer(
                    Operation::Product(x, y),
                    b,
                );
            lemma_admits_one(answer, *l, x1, x2);
            lemma_admits_one(answer, *r, y1, y2);
        },
        Term::Quotient(l, r) => {
            let (x1, y1) = choose|x: Binary64, y: Binary64|
                admits(answer, *l, x) && admits(answer, *r, y) && #[trigger] answer(
                    Operation::Quotient(x, y),
                    a,
                );
            let (x2, y2) = choose|x: Binary64, y: Binary64|
                admits(answer, *l, x) && admits(answer, *r, y) && #[trigger] answer(
                    Operation::Quotient(x, y),
                    b,
                );
            lemma_admits_one(answer, *l, x1, x2);
            lemma_admits_one(answer, *r, y1, y2);
        },
        Term::Power(l, r) => {
            let (x1, y1) = choose|x: Binary64, y: Binary64|
                admits(answer, *l, x) && admits(answer, *r, y) && #[trigger] answer(
                    Operation::Power(x, y),
                    a,
                );
            let (x2, y2) = choose|x: Binary64, y: Binary64|
                admits(answer, *l, x) && admits(answer, *r, y) && #[trigger] answer(
                    Operation::Power(x, y),
                    b,
                );
            lemma_admits_one(answer, *l, x1, x2);
            lemma_admits_one(answer, *r, y1, y2);
        },
        Term::SquareRoot(l) => {
            let x1 = choose|x: Binary64|
                admits(answer, *l, x) && #[trigger] answer(Operation::SquareRoot(x), a);
            let x2 = choose|x: Binary64|
                admits(answer, *l, x) && #[trigger] answer(Operation::SquareRoot(x), b);
            lemma_admits_one(answer, *l, x1, x2);
        },
    }
}

/// Under an arithmetic with one answer to each operation, a formula has one
/// value.
pub proof fn lemma_value_unique<F: Fn(Operation) -> Binary64>(
    arithmetic: F,
    term: Term,
    a: Binary64,
    b: Binary64,
)
    requires
        single_valued(arithmetic),
        evaluates(arithmetic, term, a),
        evaluates(arithmetic, term, b),
    ensures
        a == b,
{
    lemma_admits_one(answers(arithmetic), term, a, b);
}

} // verus!
