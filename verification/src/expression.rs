use vstd::prelude::*;
use crate::ast::{
    clone_type, CallArg, Error, List, SrcSpan, Type, TypedExpr, UntypedExpr,
};
use crate::typer::{bump, scope_lookup, ExprTyper, ScopeEntry};
use crate::unify::{check_unifies, unifies};

verus! {

/// The outcome of inferring one expression: the type it was given, or the
/// error that aborted checking, together with the fresh-variable counter
/// afterwards.
pub ghost struct SInfer {
    pub res: Result<Type, Error>,
    pub nv: u64,
}

/// The outcome of checking an argument list: the error that aborted it, if
/// any, and the fresh-variable counter afterwards.
pub ghost struct SArgs {
    pub err: Option<Error>,
    pub nv: u64,
}

/// The typing rules of the model inferer. A literal carries its type; a
/// variable has the type the scope gives it; a divergent marker is given a
/// fresh unconstrained variable, so it is compatible with any expected
/// type; a call is typed by `s_call` after its callee.
pub open spec fn s_infer(scope: Seq<ScopeEntry>, nv: u64, e: UntypedExpr) -> SInfer
    decreases e, 2int,
{
    match e {
        UntypedExpr::Lit { type_, .. } => SInfer { res: Ok(type_), nv },
        UntypedExpr::Var { location, name } => match scope_lookup(scope, name) {
            Some(t) => SInfer { res: Ok(t), nv },
            None => SInfer { res: Err(Error::UnknownVariable { location, name }), nv },
        },
        UntypedExpr::Todo { .. } => SInfer { res: Ok(Type::Var { id: nv }), nv: bump(nv) },
        UntypedExpr::Panic { .. } => SInfer { res: Ok(Type::Var { id: nv }), nv: bump(nv) },
        UntypedExpr::Call { location, fun, arguments } => {
            let f = s_infer(scope, nv, *fun);
            match f.res {
                Err(er) => SInfer { res: Err(er), nv: f.nv },
                Ok(ft) => s_call(scope, f.nv, ft, *arguments, location),
            }
        },
    }
}

/// Typing a call of a value of type `ft` to `args`. A function type must
/// declare exactly as many parameters as there are arguments, and each
/// argument must unify with its parameter; the call then has the declared
/// return type. A callee whose type is still an unconstrained variable is
/// accepted and the call is given a fresh variable as its type. Anything
/// else is not callable.
pub open spec fn s_call(
    scope: Seq<ScopeEntry>,
    nv: u64,
    ft: Type,
    args: List<CallArg<UntypedExpr>>,
    location: SrcSpan,
) -> SInfer
    decreases args, 1int,
{
    match ft {
        Type::Var { .. } => {
            let a = s_args_free(scope, nv, args);
            match a.err {
                Some(er) => SInfer { res: Err(er), nv: a.nv },
                None => SInfer { res: Ok(Type::Var { id: a.nv }), nv: bump(a.nv) },
            }
        },
        Type::Func { args: params, ret } => {
            if !params.same_len(args) {
                SInfer {
                    res: Err(Error::IncorrectArity {
                        location,
                        expected_arity: params.spec_count(),
                        given_arity: args.spec_count(),
                    }),
                    nv,
                }
            } else {
                let a = s_args(scope, nv, *params, args);
                match a.err {
                    Some(er) => SInfer { res: Err(er), nv: a.nv },
                    None => SInfer { res: Ok(*ret), nv: a.nv },
                }
            }
        },
        Type::Named { .. } => SInfer { res: Err(Error::NotFn { location, type_: ft }), nv },
    }
}

/// Checking arguments against parameter types, left to right: each
/// argument is inferred and must unify with its parameter; the first
/// failure wins.
pub open spec fn s_args(
    scope: Seq<ScopeEntry>,
    nv: u64,
    params: List<Type>,
    args: List<CallArg<UntypedExpr>>,
) -> SArgs
    decreases args, 0int,
{
    match (params, args) {
        (List::Cons(p, pt), List::Cons(a, at)) => {
            let f = s_infer(scope, nv, a.value);
            match f.res {
                Err(er) => SArgs { err: Some(er), nv: f.nv },
                Ok(t) => if unifies(p, t) {
                    s_args(scope, f.nv, *pt, *at)
                } else {
                    SArgs {
                        err: Some(Error::CouldNotUnify {
                            location: a.location,
                            expected: p,
                            given: t,
                            situation: None,
                        }),
                        nv: f.nv,
                    }
                },
            }
        },
        _ => SArgs { err: None, nv },
    }
}

/// Checking arguments of a callee whose type is unconstrained: each
/// argument is inferred, with nothing to unify against.
pub open spec fn s_args_free(
    scope: Seq<ScopeEntry>,
    nv: u64,
    args: List<CallArg<UntypedExpr>>,
) -> SArgs
    decreases args, 0int,
{
    match args {
        List::Cons(a, at) => {
            let f = s_infer(scope, nv, a.value);
            match f.res {
                Err(er) => SArgs { err: Some(er), nv: f.nv },
                Ok(_) => s_args_free(scope, f.nv, *at),
            }
        },
        List::Nil => SArgs { err: None, nv },
    }
}

/// `te` is the typed form of `e`: the same tree, decorated with the types
/// that `s_infer` assigns, with labels, spans and the implicit flags of
/// call arguments carried over unchanged.
pub open spec fn rel_typed(scope: Seq<ScopeEntry>, nv: u64, e: UntypedExpr, te: TypedExpr) -> bool
    decreases e, 2int,
{
    match e {
        UntypedExpr::Lit { location, type_ } => te == (TypedExpr::Lit { location, type_ }),
        UntypedExpr::Var { location, name } => {
            scope_lookup(scope, name) matches Some(t) && te == (TypedExpr::Var {
                location,
                name,
                type_: t,
            })
        },
        UntypedExpr::Todo { location } => te == (TypedExpr::Todo {
            location,
            type_: Type::Var { id: nv },
        }),
        UntypedExpr::Panic { location } => te == (TypedExpr::Panic {
            location,
            type_: Type::Var { id: nv },
        }),
        UntypedExpr::Call { location, fun, arguments } => {
            let f = s_infer(scope, nv, *fun);
            &&& f.res matches Ok(ft)
            &&& te matches TypedExpr::Call { location: tl, typ, fun: tf, args: ta }
                && tl == location
                && rel_typed(scope, nv, *fun, *tf)
                && rel_args(scope, f.nv, *arguments, *ta)
                && (s_call(scope, f.nv, f.res->Ok_0, *arguments, location).res matches Ok(ct)
                    && typ == ct)
        },
    }
}

/// The argument lists correspond pairwise: same labels, spans and implicit
/// flags, and each typed value is the typed form of its untyped one, with
/// the fresh-variable counter threaded left to right.
pub open spec fn rel_args(
    scope: Seq<ScopeEntry>,
    nv: u64,
    uargs: List<CallArg<UntypedExpr>>,
    targs: List<CallArg<TypedExpr>>,
) -> bool
    decreases uargs, 0int,
{
    match (uargs, targs) {
        (List::Nil, List::Nil) => true,
        (List::Cons(ua, ut), List::Cons(ta, tt)) => {
            &&& ta.label == ua.label
            &&& ta.location == ua.location
            &&& ta.implicit == ua.implicit
            &&& rel_typed(scope, nv, ua.value, ta.value)
            &&& rel_args(scope, s_infer(scope, nv, ua.value).nv, *ut, *tt)
        },
        _ => false,
    }
}

impl ExprTyper {
    /// The general expression inferer: types one expression against the
    /// current scope. The scope and the warning sink are left untouched;
    /// the fresh-variable counter advances exactly as the typing rules
    /// say; and on success the result is the typed form of the input and
    /// the divergence flag reports whether it always diverges.
    pub fn infer(&mut self, expr: UntypedExpr) -> (r: Result<TypedExpr, Error>)
        ensures
            final(self).scope@ == old(self).scope@,
            final(self).warnings@ == old(self).warnings@,
            final(self).next_var == s_infer(old(self).scope@, old(self).next_var, expr).nv,
            (r matches Ok(_)) <==> (s_infer(old(self).scope@, old(self).next_var, expr).res
                matches Ok(_)),
            r matches Ok(te) ==> {
                &&& s_infer(old(self).scope@, old(self).next_var, expr).res == Ok::<Type, Error>(
                    te.spec_type(),
                )
                &&& rel_typed(old(self).scope@, old(self).next_var, expr, te)
                &&& te.spec_location() == expr.spec_location()
                &&& final(self).previous_panics == te.spec_diverges()
            },
            r matches Err(er) ==> s_infer(old(self).scope@, old(self).next_var, expr).res
                == Err::<Type, Error>(er),
        decreases expr, 2int,
    {
        match expr {
            UntypedExpr::Lit { location, type_ } => {
                self.previous_panics = false;
                Ok(TypedExpr::Lit { location, type_ })
            },
            UntypedExpr::Var { location, name } => {
                match self.lookup_variable(name) {
                    Some(t) => {
                        self.previous_panics = false;
                        Ok(TypedExpr::Var { location, name, type_: t })
                    },
                    None => Err(Error::UnknownVariable { location, name }),
                }
            },
            UntypedExpr::Todo { location } => {
                let t = self.new_unbound_var();
                self.previous_panics = true;
                Ok(TypedExpr::Todo { location, type_: t })
            },
            UntypedExpr::Panic { location } => {
                let t = self.new_unbound_var();
                self.previous_panics = true;
                Ok(TypedExpr::Panic { location, type_: t })
            },
            UntypedExpr::Call { location, fun, arguments } => {
                let tf = self.infer(*fun)?;
                let (tf2, targs, typ) = self.do_infer_call_with_known_fun(
                    tf,
                    *arguments,
                    location,
                )?;
                let call = TypedExpr::Call {
                    location,
                    typ,
                    fun: Box::new(tf2),
                    args: Box::new(targs),
                };
                let d = call.is_divergent();
                self.previous_panics = d;
                Ok(call)
            },
        }
    }

    /// Types a call whose callee is already typed: checks the arguments
    /// against the callee's type and yields the callee back, the typed
    /// arguments, and the call's result type, as the `s_call` rule says.
    pub fn do_infer_call_with_known_fun(
        &mut self,
        fun: TypedExpr,
        args: List<CallArg<UntypedExpr>>,
        location: SrcSpan,
    ) -> (r: Result<(TypedExpr, List<CallArg<TypedExpr>>, Type), Error>)
        ensures
            final(self).scope@ == old(self).scope@,
            final(self).warnings@ == old(self).warnings@,
            final(self).next_var == s_call(
                old(self).scope@,
                old(self).next_var,
                fun.spec_type(),
                args,
                location,
            ).nv,
            (r matches Ok(_)) <==> (s_call(
                old(self).scope@,
                old(self).next_var,
                fun.spec_type(),
                args,
                location,
            ).res matches Ok(_)),
            r matches Ok(out) ==> {
                &&& out.0 == fun
                &&& rel_args(old(self).scope@, old(self).next_var, args, out.1)
                &&& s_call(
                    old(self).scope@,
                    old(self).next_var,
                    fun.spec_type(),
                    args,
                    location,
                ).res == Ok::<Type, Error>(out.2)
            },
            r matches Err(er) ==> s_call(
                old(self).scope@,
                old(self).next_var,
                fun.spec_type(),
                args,
                location,
            ).res == Err::<Type, Error>(er),
        decreases args, 1int,
    {
        let ft = type_of(&fun);
        match ft {
            Type::Var { .. } => {
                let targs = self.infer_free_args(args)?;
                let t = self.new_unbound_var();
                Ok((fun, targs, t))
            },
            Type::Func { args: params, ret } => {
                if !same_len_params(params, &args) {
                    let expected: u64 = params.count();
                    let given: u64 = args.count();
                    Err(Error::IncorrectArity { location, expected_arity: expected, given_arity: given })
                } else {
                    let targs = self.infer_checked_args(params, args)?;
                    let typ = clone_type(ret);
                    Ok((fun, targs, typ))
                }
            },
            Type::Named { .. } => {
                Err(Error::NotFn { location, type_: clone_type(ft) })
            },
        }
    }

    /// Infers each argument and checks it against its parameter type,
    /// left to right, stopping at the first failure.
    fn infer_checked_args(
        &mut self,
        params: &List<Type>,
        args: List<CallArg<UntypedExpr>>,
    ) -> (r: Result<List<CallArg<TypedExpr>>, Error>)
        requires
            params.same_len(args),
        ensures
            final(self).scope@ == old(self).scope@,
            final(self).warnings@ == old(self).warnings@,
            final(self).next_var == s_args(old(self).scope@, old(self).next_var, *params, args).nv,
            (r matches Ok(_)) <==> (s_args(
                old(self).scope@,
                old(self).next_var,
                *params,
                args,
            ).err matches None),
            r matches Ok(ta) ==> rel_args(old(self).scope@, old(self).next_var, args, ta),
            r matches Err(er) ==> s_args(old(self).scope@, old(self).next_var, *params, args).err
                == Some(er),
        decreases args, 0int,
    {
        match (params, args) {
            (List::Cons(p, pt), List::Cons(a, at)) => {
                let CallArg { label, location, implicit, value } = a;
                let tv = self.infer(value)?;
                let tvt = type_of(&tv);
                if !check_unifies(p, tvt) {
                    Err(Error::CouldNotUnify {
                        location,
                        expected: clone_type(p),
                        given: clone_type(tvt),
                        situation: None,
                    })
                } else {
                    let tail = self.infer_checked_args(pt, *at)?;
                    Ok(List::Cons(
                        CallArg { label, location, implicit, value: tv },
                        Box::new(tail),
                    ))
                }
            },
            (List::Nil, List::Nil) => Ok(List::Nil),
            _ => vstd::pervasive::unreached(),
        }
    }

    /// Infers each argument of a callee whose type is unconstrained.
    fn infer_free_args(&mut self, args: List<CallArg<UntypedExpr>>) -> (r: Result<
        List<CallArg<TypedExpr>>,
        Error,
    >)
        ensures
            final(self).scope@ == old(self).scope@,
            final(self).warnings@ == old(self).warnings@,
            final(self).next_var == s_args_free(old(self).scope@, old(self).next_var, args).nv,
            (r matches Ok(_)) <==> (s_args_free(old(self).scope@, old(self).next_var, args).err
                matches None),
            r matches Ok(ta) ==> rel_args(old(self).scope@, old(self).next_var, args, ta),
            r matches Err(er) ==> s_args_free(old(self).scope@, old(self).next_var, args).err
                == Some(er),
        decreases args, 0int,
    {
        match args {
            List::Cons(a, at) => {
                let CallArg { label, location, implicit, value } = a;
                let tv = self.infer(value)?;
                let tail = self.infer_free_args(*at)?;
                Ok(List::Cons(CallArg { label, location, implicit, value: tv }, Box::new(tail)))
            },
            List::Nil => Ok(List::Nil),
        }
    }
}

/// The type annotation stored on a typed expression, by reference. A
/// pipeline construct has the type of its terminal expression.
pub fn type_of(te: &TypedExpr) -> (t: &Type)
    ensures
        *t == te.spec_type(),
    decreases *te,
{
    match te {
        TypedExpr::Lit { type_, .. } => type_,
        TypedExpr::Var { type_, .. } => type_,
        TypedExpr::Call { typ, .. } => typ,
        TypedExpr::Todo { type_, .. } => type_,
        TypedExpr::Panic { type_, .. } => type_,
        TypedExpr::Pipeline { finally, .. } => type_of(finally),
    }
}

/// Do the parameter list and the argument list have the same length?
fn same_len_params(params: &List<Type>, args: &List<CallArg<UntypedExpr>>) -> (r: bool)
    ensures
        r == params.same_len(*args),
    decreases *params,
{
    match (params, args) {
        (List::Nil, List::Nil) => true,
        (List::Cons(_, pt), List::Cons(_, at)) => same_len_params(pt, at),
        _ => false,
    }
}

} // verus!
