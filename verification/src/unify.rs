use vstd::prelude::*;
use crate::ast::{List, Type, UnifyError};

verus! {

/// Can the two types be made equal? A type variable is unconstrained and
/// unifies with anything; function types unify parameter-wise and on the
/// return type; named types unify when they are the same constructor.
pub open spec fn unifies(a: Type, b: Type) -> bool
    decreases a,
{
    match (a, b) {
        (Type::Var { .. }, _) => true,
        (_, Type::Var { .. }) => true,
        (Type::Named { id: i }, Type::Named { id: j }) => i == j,
        (Type::Func { args: aa, ret: ar }, Type::Func { args: ba, ret: br }) => {
            unifies_args(*aa, *ba) && unifies(*ar, *br)
        },
        _ => false,
    }
}

/// Parameter lists unify when they have the same length and unify pairwise.
pub open spec fn unifies_args(a: List<Type>, b: List<Type>) -> bool
    decreases a,
{
    match (a, b) {
        (List::Nil, List::Nil) => true,
        (List::Cons(ah, at), List::Cons(bh, bt)) => unifies(ah, bh) && unifies_args(*at, *bt),
        _ => false,
    }
}

/// Decides `unifies`.
pub fn check_unifies(a: &Type, b: &Type) -> (r: bool)
    ensures
        r == unifies(*a, *b),
    decreases *a,
{
    match (a, b) {
        (Type::Var { .. }, _) => true,
        (_, Type::Var { .. }) => true,
        (Type::Named { id: i }, Type::Named { id: j }) => i == j,
        (Type::Func { args: aa, ret: ar }, Type::Func { args: ba, ret: br }) => {
            check_unifies_args(aa, ba) && check_unifies(ar, br)
        },
        _ => false,
    }
}

/// Decides `unifies_args`.
pub fn check_unifies_args(a: &List<Type>, b: &List<Type>) -> (r: bool)
    ensures
        r == unifies_args(*a, *b),
    decreases *a,
{
    match (a, b) {
        (List::Nil, List::Nil) => true,
        (List::Cons(ah, at), List::Cons(bh, bt)) => {
            check_unifies(ah, bh) && check_unifies_args(at, bt)
        },
        _ => false,
    }
}

/// Establishes that the two types are equal or reports the failing pair.
/// On failure the error always carries the two types given here, so a
/// caller can inspect the operands that disagreed.
pub fn unify(a: &Type, b: &Type) -> (r: Result<(), UnifyError>)
    ensures
        r matches Ok(_) <==> unifies(*a, *b),
        r matches Err(e) ==> e == (UnifyError::CouldNotUnify { expected: *a, given: *b }),
{
    if check_unifies(a, b) {
        Ok(())
    } else {
        Err(UnifyError::CouldNotUnify {
            expected: crate::ast::clone_type(a),
            given: crate::ast::clone_type(b),
        })
    }
}

} // verus!
