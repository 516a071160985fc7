use vstd::prelude::*;
use crate::ast::{
    Assignment, CallArg, Error, List, SrcSpan, Type, TypedExpr, UnifyErrorSituation, UntypedExpr,
    Warning,
};
use crate::expression::{rel_typed, s_call, s_infer};
use crate::pipe::{
    apply_args, chain_ok, chain_run, expected_fn_type, insert_args, pipe_entry, pipe_run,
    pipe_start, rel_apply, rel_step, s_apply, s_step, spec_assignment, state_after, step_warns,
    typed_pipe_arg,
};
use crate::typer::{scope_lookup, ScopeEntry};
use crate::unify::{unifies, unifies_args};

verus! {

/// Unification is reflexive: every type unifies with itself.
pub proof fn lemma_unifies_reflexive(t: Type)
    ensures
        unifies(t, t),
    decreases t,
{
    match t {
        Type::Func { args, ret } => {
            lemma_unifies_args_reflexive(*args);
            lemma_unifies_reflexive(*ret);
        },
        _ => {},
    }
}

/// Pairwise unification of a parameter list with itself.
pub proof fn lemma_unifies_args_reflexive(l: List<Type>)
    ensures
        unifies_args(l, l),
    decreases l,
{
    match l {
        List::Cons(h, tl) => {
            lemma_unifies_reflexive(h);
            lemma_unifies_args_reflexive(*tl);
        },
        List::Nil => {},
    }
}

/// A typed form carries exactly the type the typing rules assign, and it
/// stands at its expression's location.
pub proof fn lemma_rel_typed_type(scope: Seq<ScopeEntry>, nv: u64, e: UntypedExpr, te: TypedExpr)
    requires
        rel_typed(scope, nv, e, te),
    ensures
        s_infer(scope, nv, e).res == Ok::<Type, Error>(te.spec_type()),
        te.spec_location() == e.spec_location(),
{
}

/// Mismatch tagging for direct application, the fitting half: when the
/// element's type takes exactly one parameter that the threaded value's
/// type fails to unify with, the failure is tagged as a pipe-specific
/// mismatch.
pub proof fn lemma_mismatch_tagged(
    scope: Seq<ScopeEntry>,
    nv: u64,
    arg_ty: Type,
    e: UntypedExpr,
    p: Type,
    ret: Type,
)
    requires
        s_infer(scope, nv, e).res == Ok::<Type, Error>(
            Type::Func {
                args: Box::new(List::Cons(p, Box::new(List::Nil))),
                ret: Box::new(ret),
            },
        ),
        !unifies(p, arg_ty),
    ensures
        s_apply(scope, nv, arg_ty, e).res matches Err(er) && er matches Error::CouldNotUnify {
            situation,
            ..
        } && situation == Some(UnifyErrorSituation::PipeTypeMismatch),
{
    let ft = Type::Func {
        args: Box::new(List::Cons(p, Box::new(List::Nil))),
        ret: Box::new(ret),
    };
    let f = s_infer(scope, nv, e);
    let expected = expected_fn_type(arg_ty, f.nv);
    let pl = List::Cons(p, Box::new(List::<Type>::Nil));
    let al = List::Cons(arg_ty, Box::new(List::<Type>::Nil));
    assert(!unifies_args(pl, al));
    assert(!unifies(ft, expected));
    assert(pl.same_len(al)) by {
        assert(List::<Type>::Nil.same_len(List::<Type>::Nil));
    }
    assert(crate::pipe::is_pipe_mismatch(
        crate::ast::UnifyError::CouldNotUnify { expected: ft, given: expected },
    ));
}

/// Mismatch tagging, the other half: when the two function types disagree
/// already in their parameter counts, the failure stays a generic
/// unification error, with no pipe-specific tag.
pub proof fn lemma_mismatch_untagged(
    scope: Seq<ScopeEntry>,
    nv: u64,
    arg_ty: Type,
    e: UntypedExpr,
    params: List<Type>,
    ret: Type,
)
    requires
        s_infer(scope, nv, e).res == Ok::<Type, Error>(
            Type::Func { args: Box::new(params), ret: Box::new(ret) },
        ),
        params.len() != 1,
    ensures
        s_apply(scope, nv, arg_ty, e).res matches Err(er) && er matches Error::CouldNotUnify {
            situation,
            ..
        } && situation == None::<UnifyErrorSituation>,
{
    let ft = Type::Func { args: Box::new(params), ret: Box::new(ret) };
    let f = s_infer(scope, nv, e);
    let expected = expected_fn_type(arg_ty, f.nv);
    let al = List::Cons(arg_ty, Box::new(List::<Type>::Nil));
    match params {
        List::Nil => {
            assert(!unifies_args(List::<Type>::Nil, al));
            assert(!unifies(ft, expected));
            assert(!params.same_len(al));
        },
        List::Cons(p0, pt) => {
            assert(pt.len() != 0);
            match *pt {
                List::Cons(p1, pt2) => {
                    assert(!unifies_args(List::Cons(p1, pt2), List::<Type>::Nil));
                    assert(!unifies_args(params, al));
                    assert(!unifies(ft, expected));
                    assert(!pt.same_len(List::<Type>::Nil));
                    assert(!params.same_len(al));
                },
                List::Nil => {
                    assert(false);
                },
            }
        },
    }
}

/// Piping a value into a bare one-parameter function: for a well-typed
/// two-element chain whose second element is not a call and accepts
/// exactly the first element's type, the pass succeeds, produces one
/// binding holding the first element's typed form, and the terminal
/// expression is a call of the function to one implicit argument, the
/// threaded value.
pub proof fn lemma_pipe_into_function(
    base: Seq<ScopeEntry>,
    nv0: u64,
    elems: Seq<UntypedExpr>,
    t: Type,
    ret: Type,
    bs: Seq<Assignment>,
    fin: TypedExpr,
)
    requires
        elems.len() == 2,
        !(elems[1] matches UntypedExpr::Call { .. }),
        s_infer(base, nv0, elems[0]).res == Ok::<Type, Error>(t),
        s_infer(pipe_start(base, nv0, elems).scope, pipe_start(base, nv0, elems).nv, elems[1]).res
            == Ok::<Type, Error>(
            Type::Func { args: Box::new(List::Cons(t, Box::new(List::Nil))), ret: Box::new(ret) },
        ),
        chain_ok(base, nv0, elems, bs, fin),
    ensures
        pipe_run(base, nv0, elems).res == Ok::<Type, Error>(ret),
        bs.len() == 1,
        rel_typed(base, nv0, elems[0], bs[0].value),
        fin matches TypedExpr::Call { location, typ, fun, args } && ({
            &&& location == elems[1].spec_location()
            &&& typ == ret
            &&& rel_typed(
                pipe_start(base, nv0, elems).scope,
                pipe_start(base, nv0, elems).nv,
                elems[1],
                *fun,
            )
            &&& *args == List::Cons(
                typed_pipe_arg(t, elems[0].spec_location()),
                Box::new(List::<CallArg<TypedExpr>>::Nil),
            )
            &&& args.index(0).implicit
            &&& args.index(0).label matches None
        }),
{
    let s1 = pipe_start(base, nv0, elems);
    let rest = elems.subrange(1, 2);
    assert(rest.len() == 1);
    assert(rest[0] == elems[1]);
    assert(state_after(s1, rest, 0) == s1);
    let f1 = s_infer(s1.scope, s1.nv, elems[1]);
    let ft = Type::Func { args: Box::new(List::Cons(t, Box::new(List::Nil))), ret: Box::new(ret) };
    lemma_unifies_reflexive(t);
    assert(unifies_args(List::Cons(t, Box::new(List::<Type>::Nil)), List::Cons(t, Box::new(List::<Type>::Nil))));
    assert(unifies(ft, expected_fn_type(t, f1.nv)));
    assert(s_apply(s1.scope, s1.nv, t, elems[1]).res == Ok::<Type, Error>(ret));
    assert(rel_step(s1.scope, s1.nv, s1.arg_ty, s1.arg_loc, rest[0], fin));
    assert(s_step(s1.scope, s1.nv, s1.arg_ty, s1.arg_loc, rest[0]).res == Ok::<Type, Error>(ret));
    match fin {
        TypedExpr::Call { location, typ, fun, args } => {
            assert(rel_apply(s1.scope, s1.nv, s1.arg_ty, s1.arg_loc, elems[1], fin));
            assert(typ == crate::pipe::apply_ret(ft, f1.nv));
            assert(args.index(0) == typed_pipe_arg(t, elems[0].spec_location()));
        },
        _ => {},
    }
}

/// Left insertion: for a well-typed chain `a |> f(x)` where `f` declares
/// two parameters, the terminal expression is a single call of `f` whose
/// first argument is the implicit threaded value and whose second is `x`,
/// typed in place.
pub proof fn lemma_pipe_insert_arity_two(
    base: Seq<ScopeEntry>,
    nv0: u64,
    elems: Seq<UntypedExpr>,
    t: Type,
    f_e: UntypedExpr,
    x: CallArg<UntypedExpr>,
    location: SrcSpan,
    p1: Type,
    p2: Type,
    ret: Type,
    bs: Seq<Assignment>,
    fin: TypedExpr,
)
    requires
        elems.len() == 2,
        elems[1] == (UntypedExpr::Call {
            location,
            fun: Box::new(f_e),
            arguments: Box::new(List::Cons(x, Box::new(List::Nil))),
        }),
        s_infer(base, nv0, elems[0]).res == Ok::<Type, Error>(t),
        s_infer(pipe_start(base, nv0, elems).scope, pipe_start(base, nv0, elems).nv, f_e).res
            == Ok::<Type, Error>(
            Type::Func {
                args: Box::new(List::Cons(p1, Box::new(List::Cons(p2, Box::new(List::Nil))))),
                ret: Box::new(ret),
            },
        ),
        chain_ok(base, nv0, elems, bs, fin),
    ensures
        bs.len() == 1,
        rel_typed(base, nv0, elems[0], bs[0].value),
        fin matches TypedExpr::Call { location: l, typ, fun: tf, args: ta } && ({
            let s1 = pipe_start(base, nv0, elems);
            let f1 = s_infer(s1.scope, s1.nv, f_e);
            &&& l == location
            &&& typ == ret
            &&& rel_typed(s1.scope, s1.nv, f_e, *tf)
            &&& *ta matches List::Cons(a0, ta1) && ({
                &&& a0.implicit
                &&& a0.label matches None
                &&& a0.value == (TypedExpr::Var {
                    location: elems[0].spec_location(),
                    name: crate::ast::PIPE_VARIABLE,
                    type_: t,
                })
                &&& *ta1 matches List::Cons(x1, ta2) && ({
                    &&& x1.label == x.label
                    &&& x1.location == x.location
                    &&& x1.implicit == x.implicit
                    &&& rel_typed(s1.scope, f1.nv, x.value, x1.value)
                    &&& *ta2 matches List::Nil
                })
            })
        }),
{
    let s1 = pipe_start(base, nv0, elems);
    let rest = elems.subrange(1, 2);
    assert(rest.len() == 1);
    assert(rest[0] == elems[1]);
    assert(state_after(s1, rest, 0) == s1);
    let params = List::Cons(p1, Box::new(List::Cons(p2, Box::new(List::<Type>::Nil))));
    let uargs = List::Cons(x, Box::new(List::<CallArg<UntypedExpr>>::Nil));
    assert(params.one_longer(uargs)) by {
        assert(List::Cons(p2, Box::new(List::<Type>::Nil)).same_len(uargs));
        assert(List::<Type>::Nil.same_len(List::<CallArg<UntypedExpr>>::Nil));
    }
    assert(rel_step(s1.scope, s1.nv, s1.arg_ty, s1.arg_loc, rest[0], fin));
    let f1 = s_infer(s1.scope, s1.nv, f_e);
    let ia = insert_args(s1.arg_loc, uargs);
    let ft = Type::Func {
        args: Box::new(List::Cons(p1, Box::new(List::Cons(p2, Box::new(List::Nil))))),
        ret: Box::new(ret),
    };
    assert(params.same_len(ia)) by {
        assert(List::Cons(p2, Box::new(List::<Type>::Nil)).same_len(
            List::Cons(x, Box::new(List::<CallArg<UntypedExpr>>::Nil)),
        ));
        assert(List::<Type>::Nil.same_len(List::<CallArg<UntypedExpr>>::Nil));
    }
    match fin {
        TypedExpr::Call { location: l, typ, fun: tf, args: ta } => {
            assert(s_call(s1.scope, f1.nv, ft, ia, location).res == Ok::<Type, Error>(typ));
            assert(typ == ret);
            assert(crate::expression::rel_args(s1.scope, f1.nv, ia, *ta));
            crate::typer::lemma_scope_lookup_push(
                base,
                pipe_entry(elems[0].spec_location(), t),
                crate::ast::PIPE_VARIABLE,
            );
            assert(scope_lookup(s1.scope, crate::ast::PIPE_VARIABLE) == Some(t));
            match *ta {
                List::Cons(a0, ta1) => {
                    assert(rel_typed(s1.scope, f1.nv, ia.index(0).value, a0.value));
                    assert(ia.index(0).value == (UntypedExpr::Var {
                        location: elems[0].spec_location(),
                        name: crate::ast::PIPE_VARIABLE,
                    }));
                    let nv1 = s_infer(s1.scope, f1.nv, ia.index(0).value).nv;
                    assert(nv1 == f1.nv);
                    assert(crate::expression::rel_args(s1.scope, nv1, uargs, *ta1));
                    match *ta1 {
                        List::Cons(x1, ta2) => {
                            assert(rel_typed(s1.scope, nv1, x.value, x1.value));
                            assert(crate::expression::rel_args(
                                s1.scope,
                                s_infer(s1.scope, nv1, x.value).nv,
                                List::Nil,
                                *ta2,
                            ));
                        },
                        _ => {},
                    }
                },
                _ => {},
            }
        },
        _ => {},
    }
}

/// Call then apply: for a well-typed chain `a |> f(x)` where `f(x)` alone
/// is already saturated, the terminal expression applies the typed call
/// `f(x)` to one implicit argument, the threaded value.
pub proof fn lemma_pipe_apply_to_call(
    base: Seq<ScopeEntry>,
    nv0: u64,
    elems: Seq<UntypedExpr>,
    t: Type,
    f_e: UntypedExpr,
    x: CallArg<UntypedExpr>,
    location: SrcSpan,
    p1: Type,
    ret: Type,
    bs: Seq<Assignment>,
    fin: TypedExpr,
)
    requires
        elems.len() == 2,
        elems[1] == (UntypedExpr::Call {
            location,
            fun: Box::new(f_e),
            arguments: Box::new(List::Cons(x, Box::new(List::Nil))),
        }),
        s_infer(base, nv0, elems[0]).res == Ok::<Type, Error>(t),
        s_infer(pipe_start(base, nv0, elems).scope, pipe_start(base, nv0, elems).nv, f_e).res
            == Ok::<Type, Error>(
            Type::Func {
                args: Box::new(List::Cons(p1, Box::new(List::Nil))),
                ret: Box::new(ret),
            },
        ),
        chain_ok(base, nv0, elems, bs, fin),
    ensures
        bs.len() == 1,
        rel_typed(base, nv0, elems[0], bs[0].value),
        fin matches TypedExpr::Call { location: l, typ, fun: touter, args: ta2 } && ({
            let s1 = pipe_start(base, nv0, elems);
            let f1 = s_infer(s1.scope, s1.nv, f_e);
            &&& l == location
            &&& *touter matches TypedExpr::Call { location: li, typ: ti, fun: tf, args: ta } && ({
                &&& li == location
                &&& ti == ret
                &&& rel_typed(s1.scope, s1.nv, f_e, *tf)
                &&& *ta matches List::Cons(x1, ta1) && x1.label == x.label && x1.implicit
                    == x.implicit && *ta1 matches List::Nil
            })
            &&& *ta2 matches List::Cons(a0, ta3) && ({
                &&& a0.implicit
                &&& a0.label matches None
                &&& a0.value == (TypedExpr::Var {
                    location: elems[0].spec_location(),
                    name: crate::ast::PIPE_VARIABLE,
                    type_: t,
                })
                &&& *ta3 matches List::Nil
            })
        }),
{
    let s1 = pipe_start(base, nv0, elems);
    let rest = elems.subrange(1, 2);
    assert(rest.len() == 1);
    assert(rest[0] == elems[1]);
    assert(state_after(s1, rest, 0) == s1);
    let params = List::Cons(p1, Box::new(List::<Type>::Nil));
    let uargs = List::Cons(x, Box::new(List::<CallArg<UntypedExpr>>::Nil));
    assert(!params.one_longer(uargs)) by {
        assert(!List::<Type>::Nil.same_len(uargs));
    }
    assert(rel_step(s1.scope, s1.nv, s1.arg_ty, s1.arg_loc, rest[0], fin));
    let f1 = s_infer(s1.scope, s1.nv, f_e);
    let inner = s_call(s1.scope, f1.nv, f1.res->Ok_0, uargs, location);
    assert(params.same_len(uargs)) by {
        assert(List::<Type>::Nil.same_len(List::<CallArg<UntypedExpr>>::Nil));
    }
    match fin {
        TypedExpr::Call { location: l, typ, fun: touter, args: ta2 } => {
            assert(inner.res matches Ok(_));
            assert(inner.res == Ok::<Type, Error>(ret));
            crate::typer::lemma_scope_lookup_push(
                base,
                pipe_entry(elems[0].spec_location(), t),
                crate::ast::PIPE_VARIABLE,
            );
            assert(scope_lookup(s1.scope, crate::ast::PIPE_VARIABLE) == Some(t));
            assert(crate::expression::rel_args(
                s1.scope,
                inner.nv,
                apply_args(s1.arg_loc),
                *ta2,
            ));
            match *touter {
                TypedExpr::Call { args: ta, .. } => {
                    assert(crate::expression::rel_args(s1.scope, f1.nv, uargs, *ta));
                    match *ta {
                        List::Cons(x1, ta1) => {
                            assert(rel_typed(s1.scope, f1.nv, x.value, x1.value));
                            assert(crate::expression::rel_args(
                                s1.scope,
                                s_infer(s1.scope, f1.nv, x.value).nv,
                                List::Nil,
                                *ta1,
                            ));
                        },
                        _ => {},
                    }
                },
                _ => {},
            }
            match *ta2 {
                List::Cons(a0, ta3) => {
                    assert(rel_typed(
                        s1.scope,
                        inner.nv,
                        apply_args(s1.arg_loc).index(0).value,
                        a0.value,
                    ));
                    assert(crate::expression::rel_args(
                        s1.scope,
                        s_infer(s1.scope, inner.nv, apply_args(s1.arg_loc).index(0).value).nv,
                        List::Nil,
                        *ta3,
                    ));
                },
                _ => {},
            }
        },
        _ => {},
    }
}

/// Type threading: the threaded type a step is checked against is exactly
/// the type of the binding before it, for every step of the chain.
pub proof fn lemma_type_threading(
    base: Seq<ScopeEntry>,
    nv0: u64,
    elems: Seq<UntypedExpr>,
    bs: Seq<Assignment>,
    fin: TypedExpr,
)
    requires
        elems.len() >= 2,
        chain_ok(base, nv0, elems, bs, fin),
    ensures
        forall|j: int|
            0 <= j < bs.len() ==> #[trigger] state_after(
                pipe_start(base, nv0, elems),
                elems.subrange(1, elems.len() as int),
                j,
            ).arg_ty == bs[j].value.spec_type(),
{
    let s1 = pipe_start(base, nv0, elems);
    let rest = elems.subrange(1, elems.len() as int);
    let n = elems.len() as int;
    assert forall|j: int|
        0 <= j < bs.len() implies #[trigger] state_after(s1, rest, j).arg_ty
        == bs[j].value.spec_type() by {
        if j == 0 {
            assert(state_after(s1, rest, 0) == s1);
            lemma_rel_typed_type(base, nv0, elems[0], bs[0].value);
        } else {
            let prev = state_after(s1, rest, j - 1);
            assert(rel_step(prev.scope, prev.nv, prev.arg_ty, prev.arg_loc, rest[j - 1], bs[j].value));
            crate::pipe::lemma_rel_step_type(
                prev.scope,
                prev.nv,
                prev.arg_ty,
                prev.arg_loc,
                rest[j - 1],
                bs[j].value,
            );
        }
    }
}

/// The bindings stand at their elements' locations, so for a chain whose
/// elements appear in source order the bindings' spans strictly increase.
pub proof fn lemma_binding_spans_increase(
    base: Seq<ScopeEntry>,
    nv0: u64,
    elems: Seq<UntypedExpr>,
    bs: Seq<Assignment>,
    fin: TypedExpr,
)
    requires
        elems.len() >= 2,
        chain_ok(base, nv0, elems, bs, fin),
        forall|i: int, j: int|
            0 <= i < j < elems.len() ==> (#[trigger] elems[i].spec_location()).start < (
            #[trigger] elems[j].spec_location()).start,
    ensures
        forall|k: int| 0 <= k < bs.len() ==> (#[trigger] bs[k]).location == elems[k].spec_location(),
        forall|i: int, j: int|
            0 <= i < j < bs.len() ==> (#[trigger] bs[i]).location.start < (
            #[trigger] bs[j]).location.start,
{
    let s1 = pipe_start(base, nv0, elems);
    let rest = elems.subrange(1, elems.len() as int);
    assert forall|k: int| 0 <= k < bs.len() implies (#[trigger] bs[k]).location
        == elems[k].spec_location() by {
        if k == 0 {
            lemma_rel_typed_type(base, nv0, elems[0], bs[0].value);
            assert(bs[0] == spec_assignment(bs[0].value));
        } else {
            let prev = state_after(s1, rest, k - 1);
            crate::pipe::lemma_rel_step_location(
                prev.scope,
                prev.nv,
                prev.arg_ty,
                prev.arg_loc,
                rest[k - 1],
                bs[k].value,
            );
            assert(bs[k] == spec_assignment(bs[k].value));
            assert(rest[k - 1] == elems[k]);
        }
    }
}

/// Divergence propagation along the chain: when every step succeeds and
/// the element before position `m + 1` diverges (the flag handed in for
/// `m + 1 == i`, or the element itself for later positions), the warnings
/// contain an unreachable-code warning for the element at `m + 1`.
proof fn lemma_chain_run_unreachable(
    scope: Seq<ScopeEntry>,
    nv: u64,
    arg_ty: Type,
    arg_loc: SrcSpan,
    rest: Seq<UntypedExpr>,
    i: int,
    first_loc: SrcSpan,
    prev: Option<SrcSpan>,
    prev_div: bool,
    m: int,
)
    requires
        0 <= i <= m + 1,
        m + 1 < rest.len(),
        i == m + 1 ==> prev_div,
        i <= m ==> rest[m].spec_diverges(),
        chain_run(scope, nv, arg_ty, arg_loc, rest, i, first_loc, prev, prev_div).res matches Ok(_),
    ensures
        chain_run(scope, nv, arg_ty, arg_loc, rest, i, first_loc, prev, prev_div).warns.contains(
            Warning::UnreachableCodeAfterPanic { location: rest[m + 1].spec_location() },
        ),
    decreases rest.len() - i,
{
    let target = Warning::UnreachableCodeAfterPanic { location: rest[m + 1].spec_location() };
    let c = chain_run(scope, nv, arg_ty, arg_loc, rest, i, first_loc, prev, prev_div);
    let w0 = step_warns(rest[i], first_loc, prev, prev_div);
    let st = s_step(scope, nv, arg_ty, arg_loc, rest[i]);
    if i == m + 1 {
        let tp = (match crate::pipe::todo_panic_kind(rest[i]) {
            Some(k) => seq![crate::pipe::todo_panic_warning(rest[i], k, first_loc, prev)],
            None => Seq::<Warning>::empty(),
        });
        assert(w0 == tp + seq![target]);
        assert(w0[tp.len() as int] == target);
        assert(w0.contains(target));
        match st.res {
            Ok(t) => {
                if i == rest.len() - 1 {
                    assert(c.warns == w0);
                } else {
                    assert(c.warns.len() >= w0.len());
                    assert(exists|q: int| 0 <= q < w0.len() && w0[q] == target);
                    let q = choose|q: int| 0 <= q < w0.len() && w0[q] == target;
                    assert(c.warns[q] == target);
                }
            },
            Err(_) => {},
        }
    } else {
        match st.res {
            Ok(t) => {
                assert(i < rest.len() - 1);
                let scope2 = scope.push(pipe_entry(rest[i].spec_location(), t));
                let rec = chain_run(
                    scope2,
                    st.nv,
                    t,
                    rest[i].spec_location(),
                    rest,
                    i + 1,
                    first_loc,
                    Some(rest[i].spec_location()),
                    rest[i].spec_diverges(),
                );
                lemma_chain_run_unreachable(
                    scope2,
                    st.nv,
                    t,
                    rest[i].spec_location(),
                    rest,
                    i + 1,
                    first_loc,
                    Some(rest[i].spec_location()),
                    rest[i].spec_diverges(),
                    m,
                );
                let q = choose|q: int| 0 <= q < rec.warns.len() && rec.warns[q] == target;
                assert(c.warns[w0.len() + q] == target);
                assert(c.warns.contains(target));
            },
            Err(_) => {},
        }
    }
}

/// Divergence propagation: in a chain whose pass succeeds, an element
/// that unconditionally diverges makes the element after it the subject
/// of an unreachable-code warning.
pub proof fn lemma_divergence_propagation(
    base: Seq<ScopeEntry>,
    nv0: u64,
    elems: Seq<UntypedExpr>,
    k: int,
)
    requires
        elems.len() >= 2,
        0 <= k < elems.len() - 1,
        elems[k].spec_diverges(),
        pipe_run(base, nv0, elems).res matches Ok(_),
    ensures
        pipe_run(base, nv0, elems).warns.contains(
            Warning::UnreachableCodeAfterPanic { location: elems[k + 1].spec_location() },
        ),
{
    let f = s_infer(base, nv0, elems[0]);
    let rest = elems.subrange(1, elems.len() as int);
    match f.res {
        Ok(t0) => {
            assert(rest[k] == elems[k + 1]);
            if k >= 1 {
                assert(rest[k - 1] == elems[k]);
            }
            lemma_chain_run_unreachable(
                base.push(pipe_entry(elems[0].spec_location(), t0)),
                f.nv,
                t0,
                elems[0].spec_location(),
                rest,
                0,
                elems[0].spec_location(),
                None,
                elems[0].spec_diverges(),
                k - 1,
            );
        },
        Err(_) => {},
    }
}

} // verus!
