use vstd::prelude::*;
use crate::ast::UntypedExpr;

verus! {

/// The elements a non-empty vector of pipeline elements holds, in order.
pub uninterp spec fn vec1_elems(v: vec1::Vec1<UntypedExpr>) -> Seq<UntypedExpr>;

#[verifier::external_type_specification]
#[verifier::external_body]
#[verifier::reject_recursive_types(I)]
pub struct ExVec1<I>(vec1::Vec1<I>);

/// Relies on vec1::Vec1::into_vec: hands back the underlying vector, and
/// every constructor of the crate keeps that vector non-empty.
#[verifier::external_body]
pub fn vec1_into_vec(v: vec1::Vec1<UntypedExpr>) -> (r: Vec<UntypedExpr>)
    ensures
        r@ == vec1_elems(v),
        r@.len() >= 1,
{
    v.into_vec()
}

/// Relies on vec1::Vec1::len: the length of the underlying vector, which
/// is never zero.
#[verifier::external_body]
pub fn vec1_len(v: &vec1::Vec1<UntypedExpr>) -> (n: usize)
    ensures
        n == vec1_elems(*v).len(),
        n >= 1,
{
    v.len()
}

} // verus!
