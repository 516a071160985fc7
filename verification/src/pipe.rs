use vstd::prelude::*;
use crate::ast::{
    clone_type, Assignment, CallArg, Error, List, Pattern, SrcSpan, TodoOrPanic, Type, TypedExpr,
    UnifyError, UnifyErrorSituation, UntypedExpr, Warning, PIPE_VARIABLE,
};
use crate::expression::{rel_args, rel_typed, s_call, s_infer, type_of, SInfer};
use crate::typer::{bump, ExprTyper, ScopeEntry};
use crate::unify::{check_unifies, unifies, unify};
use crate::vec1_support::{vec1_elems, vec1_into_vec, vec1_len};

verus! {

// ---------------------------------------------------------------------------
// The specification of the rewrite. One pipeline element is rewritten by one
// of three strategies, decided purely by the element's syntactic shape and
// the declared arity of its callee:
//   - a call whose callee declares one more parameter than the element gives
//     receives the threaded value as an implicit first argument;
//   - any other call is typed as written and its value is then applied to
//     the threaded value;
//   - a non-call element is applied directly to the threaded value.
// ---------------------------------------------------------------------------

/// The untyped reference to the threaded value, as inserted into argument
/// lists: unlabeled, and flagged as implicit.
pub open spec fn untyped_pipe_arg(arg_loc: SrcSpan) -> CallArg<UntypedExpr> {
    CallArg {
        label: None,
        location: arg_loc,
        implicit: true,
        value: UntypedExpr::Var { location: arg_loc, name: PIPE_VARIABLE },
    }
}

/// The typed reference to the threaded value.
pub open spec fn typed_pipe_arg(arg_ty: Type, arg_loc: SrcSpan) -> CallArg<TypedExpr> {
    CallArg {
        label: None,
        location: arg_loc,
        implicit: true,
        value: TypedExpr::Var { location: arg_loc, name: PIPE_VARIABLE, type_: arg_ty },
    }
}

/// The argument list of a left-insertion rewrite: the threaded value in
/// front of the arguments the programmer wrote.
pub open spec fn insert_args(
    arg_loc: SrcSpan,
    arguments: List<CallArg<UntypedExpr>>,
) -> List<CallArg<UntypedExpr>> {
    List::Cons(untyped_pipe_arg(arg_loc), Box::new(arguments))
}

/// The argument list of an application to the threaded value alone.
pub open spec fn apply_args(arg_loc: SrcSpan) -> List<CallArg<UntypedExpr>> {
    List::Cons(untyped_pipe_arg(arg_loc), Box::new(List::Nil))
}

/// The binding produced for one rewritten pipeline element: it names the
/// synthetic variable, at the element's location, with the element's type.
pub open spec fn spec_assignment(e: TypedExpr) -> Assignment {
    Assignment {
        location: e.spec_location(),
        pattern: Pattern {
            location: e.spec_location(),
            name: PIPE_VARIABLE,
            type_: e.spec_type(),
        },
        value: e,
    }
}

/// The scope entry that binds the synthetic variable to a step's result.
pub open spec fn pipe_entry(location: SrcSpan, type_: Type) -> ScopeEntry {
    ScopeEntry { name: PIPE_VARIABLE, location, type_ }
}

/// The one-parameter function type that direct application checks the
/// element against: from the threaded value's type to a fresh variable.
pub open spec fn expected_fn_type(arg_ty: Type, fresh: u64) -> Type {
    Type::Func {
        args: Box::new(List::Cons(arg_ty, Box::new(List::Nil))),
        ret: Box::new(Type::Var { id: fresh }),
    }
}

/// The result type of a direct application: the callee's declared return
/// type, or the fresh variable if the callee's type is itself unconstrained.
pub open spec fn apply_ret(ft: Type, fresh: u64) -> Type {
    match ft {
        Type::Func { ret, .. } => *ret,
        _ => Type::Var { id: fresh },
    }
}

/// A unification failure is a pipe-specific mismatch when both sides are
/// function types of equal parameter count whose first parameters
/// themselves fail to unify: then the piped value does not fit, rather
/// than the function shapes disagreeing elsewhere.
pub open spec fn is_pipe_mismatch(e: UnifyError) -> bool {
    match e {
        UnifyError::CouldNotUnify { expected, given } => match (expected, given) {
            (Type::Func { args: aa, .. }, Type::Func { args: ba, .. }) => {
                &&& aa.same_len(*ba)
                &&& match (*aa, *ba) {
                    (List::Cons(a0, _), List::Cons(b0, _)) => !unifies(a0, b0),
                    _ => false,
                }
            },
            _ => false,
        },
    }
}

/// Typing one direct application `value |> element`, for an element that
/// is not a call: infer the element, then require it to accept exactly the
/// threaded value. A failure is reported at the element, tagged as a pipe
/// mismatch when `is_pipe_mismatch` says so.
pub open spec fn s_apply(
    scope: Seq<ScopeEntry>,
    nv: u64,
    arg_ty: Type,
    e: UntypedExpr,
) -> SInfer {
    let f = s_infer(scope, nv, e);
    match f.res {
        Err(er) => SInfer { res: Err(er), nv: f.nv },
        Ok(ft) => {
            let fresh = f.nv;
            let nv2 = bump(f.nv);
            if unifies(ft, expected_fn_type(arg_ty, fresh)) {
                SInfer { res: Ok(apply_ret(ft, fresh)), nv: nv2 }
            } else {
                let ue = UnifyError::CouldNotUnify {
                    expected: ft,
                    given: expected_fn_type(arg_ty, fresh),
                };
                SInfer {
                    res: Err(Error::CouldNotUnify {
                        location: e.spec_location(),
                        expected: ft,
                        given: expected_fn_type(arg_ty, fresh),
                        situation: if is_pipe_mismatch(ue) {
                            Some(UnifyErrorSituation::PipeTypeMismatch)
                        } else {
                            None
                        },
                    }),
                    nv: nv2,
                }
            }
        },
    }
}

/// Typing one pipeline element under the threaded value `(arg_ty, arg_loc)`:
/// the classification rule and the three strategies.
pub open spec fn s_step(
    scope: Seq<ScopeEntry>,
    nv: u64,
    arg_ty: Type,
    arg_loc: SrcSpan,
    e: UntypedExpr,
) -> SInfer {
    match e {
        UntypedExpr::Call { location, fun, arguments } => {
            let f = s_infer(scope, nv, *fun);
            match f.res {
                Err(er) => SInfer { res: Err(er), nv: f.nv },
                Ok(ft) => {
                    if ft matches Type::Func { args: params, .. } && params.one_longer(
                        *arguments,
                    ) {
                        // left insertion
                        s_call(scope, f.nv, ft, insert_args(arg_loc, *arguments), location)
                    } else {
                        // call, then apply the result to the threaded value
                        let inner = s_call(scope, f.nv, ft, *arguments, location);
                        match inner.res {
                            Err(er) => SInfer { res: Err(er), nv: inner.nv },
                            Ok(ct) => s_call(scope, inner.nv, ct, apply_args(arg_loc), location),
                        }
                    }
                },
            }
        },
        _ => s_apply(scope, nv, arg_ty, e),
    }
}

/// The shape of a direct-application rewrite: a call of the element's typed
/// form to exactly one implicit argument, the threaded value.
pub open spec fn rel_apply(
    scope: Seq<ScopeEntry>,
    nv: u64,
    arg_ty: Type,
    arg_loc: SrcSpan,
    e: UntypedExpr,
    te: TypedExpr,
) -> bool {
    let f = s_infer(scope, nv, e);
    &&& f.res matches Ok(ft)
    &&& unifies(f.res->Ok_0, expected_fn_type(arg_ty, f.nv))
    &&& te matches TypedExpr::Call { location, typ, fun, args }
        && location == e.spec_location()
        && rel_typed(scope, nv, e, *fun)
        && typ == apply_ret(f.res->Ok_0, f.nv)
        && *args == List::Cons(typed_pipe_arg(arg_ty, arg_loc), Box::new(List::<
            CallArg<TypedExpr>,
        >::Nil))
}

/// The shape of one rewritten pipeline element, by strategy.
pub open spec fn rel_step(
    scope: Seq<ScopeEntry>,
    nv: u64,
    arg_ty: Type,
    arg_loc: SrcSpan,
    e: UntypedExpr,
    te: TypedExpr,
) -> bool {
    match e {
        UntypedExpr::Call { location, fun, arguments } => {
            let f = s_infer(scope, nv, *fun);
            &&& f.res matches Ok(ft)
            &&& if ft matches Type::Func { args: params, .. } && params.one_longer(*arguments) {
                // left insertion: f(value, args...)
                te matches TypedExpr::Call { location: tl, typ, fun: tf, args: ta }
                    && tl == location
                    && rel_typed(scope, nv, *fun, *tf)
                    && rel_args(scope, f.nv, insert_args(arg_loc, *arguments), *ta)
                    && s_call(scope, f.nv, f.res->Ok_0, insert_args(arg_loc, *arguments),
                    location).res == Ok::<Type, Error>(typ)
            } else {
                // call then apply: (f(args...))(value)
                let inner = s_call(scope, f.nv, f.res->Ok_0, *arguments, location);
                &&& inner.res matches Ok(ct)
                &&& te matches TypedExpr::Call { location: tl, typ, fun: touter, args: ta2 }
                    && tl == location
                    && (*touter matches TypedExpr::Call {
                        location: li,
                        typ: ti,
                        fun: tf,
                        args: ta,
                    }
                        && li == location
                        && ti == inner.res->Ok_0
                        && rel_typed(scope, nv, *fun, *tf)
                        && rel_args(scope, f.nv, *arguments, *ta))
                    && rel_args(scope, inner.nv, apply_args(arg_loc), *ta2)
                    && s_call(scope, inner.nv, inner.res->Ok_0, apply_args(arg_loc), location).res
                        == Ok::<Type, Error>(typ)
            }
        },
        _ => rel_apply(scope, nv, arg_ty, arg_loc, e, te),
    }
}

// ---------------------------------------------------------------------------
// The pass itself.
// ---------------------------------------------------------------------------

/// The state the assembler threads across the chain: how many elements the
/// chain has, the type and span of the value flowing through the pipe, the
/// span of the whole chain, and the bindings produced so far.
pub struct PipeTyper {
    pub size: usize,
    pub argument_type: Type,
    pub argument_location: SrcSpan,
    pub location: SrcSpan,
    pub assignments: Vec<Assignment>,
}

impl PipeTyper {
    /// The untyped reference to the value on the left hand side of the pipe.
    pub fn untyped_left_hand_value_variable(&self) -> (r: UntypedExpr)
        ensures
            r == (UntypedExpr::Var {
                location: self.argument_location,
                name: PIPE_VARIABLE,
            }),
    {
        UntypedExpr::Var { location: self.argument_location, name: PIPE_VARIABLE }
    }

    /// The typed reference to the value on the left hand side of the pipe.
    pub fn typed_left_hand_value_variable(&self) -> (r: TypedExpr)
        ensures
            r == (TypedExpr::Var {
                location: self.argument_location,
                name: PIPE_VARIABLE,
                type_: self.argument_type,
            }),
    {
        TypedExpr::Var {
            location: self.argument_location,
            name: PIPE_VARIABLE,
            type_: clone_type(&self.argument_type),
        }
    }

    /// A call argument referring to the value on the left hand side of the
    /// pipe; implicit, since the pipe supplies it, not the programmer.
    pub fn untyped_left_hand_value_variable_call_argument(&self) -> (r: CallArg<UntypedExpr>)
        ensures
            r == untyped_pipe_arg(self.argument_location),
    {
        CallArg {
            label: None,
            location: self.argument_location,
            implicit: true,
            value: self.untyped_left_hand_value_variable(),
        }
    }

    /// A typed call argument referring to the value on the left hand side
    /// of the pipe.
    pub fn typed_left_hand_value_variable_call_argument(&self) -> (r: CallArg<TypedExpr>)
        ensures
            r == typed_pipe_arg(self.argument_type, self.argument_location),
    {
        CallArg {
            label: None,
            location: self.argument_location,
            implicit: true,
            value: self.typed_left_hand_value_variable(),
        }
    }

    /// Records the binding for a rewritten element and rebinds the
    /// synthetic variable in the scope to the element's type, for use by
    /// the following steps. The threaded value itself is not updated.
    pub fn push_assignment_no_update(&mut self, typer: &mut ExprTyper, expression: TypedExpr)
        ensures
            final(typer).scope@ == old(typer).scope@.push(
                pipe_entry(expression.spec_location(), expression.spec_type()),
            ),
            final(typer).warnings@ == old(typer).warnings@,
            final(typer).next_var == old(typer).next_var,
            final(typer).previous_panics == old(typer).previous_panics,
            final(self).assignments@ == old(self).assignments@.push(spec_assignment(expression)),
            final(self).size == old(self).size,
            final(self).argument_type == old(self).argument_type,
            final(self).argument_location == old(self).argument_location,
            final(self).location == old(self).location,
    {
        let location = expression.location();
        let t = clone_type(type_of(&expression));
        typer.insert_local_variable(PIPE_VARIABLE, location, t);
        let t2 = clone_type(type_of(&expression));
        let assignment = Assignment {
            location,
            pattern: Pattern { location, name: PIPE_VARIABLE, type_: t2 },
            value: expression,
        };
        self.assignments.push(assignment);
    }

    /// Records the binding for a rewritten element and makes its value the
    /// new threaded value of the chain.
    pub fn push_assignment(&mut self, typer: &mut ExprTyper, expression: TypedExpr)
        ensures
            final(typer).scope@ == old(typer).scope@.push(
                pipe_entry(expression.spec_location(), expression.spec_type()),
            ),
            final(typer).warnings@ == old(typer).warnings@,
            final(typer).next_var == old(typer).next_var,
            final(typer).previous_panics == old(typer).previous_panics,
            final(self).assignments@ == old(self).assignments@.push(spec_assignment(expression)),
            final(self).size == old(self).size,
            final(self).argument_type == expression.spec_type(),
            final(self).argument_location == expression.spec_location(),
            final(self).location == old(self).location,
    {
        self.argument_type = clone_type(type_of(&expression));
        self.argument_location = expression.location();
        self.push_assignment_no_update(typer, expression)
    }

    /// Left insertion: rewrites `value |> f(args...)` as
    /// `f(value, args...)`, the threaded value becoming an implicit first
    /// argument of the call.
    pub fn infer_insert_pipe(
        &self,
        typer: &mut ExprTyper,
        function: TypedExpr,
        arguments: List<CallArg<UntypedExpr>>,
        location: SrcSpan,
    ) -> (r: Result<TypedExpr, Error>)
        ensures
            final(typer).scope@ == old(typer).scope@,
            final(typer).warnings@ == old(typer).warnings@,
            final(typer).next_var == s_call(
                old(typer).scope@,
                old(typer).next_var,
                function.spec_type(),
                insert_args(self.argument_location, arguments),
                location,
            ).nv,
            (r matches Ok(_)) <==> (s_call(
                old(typer).scope@,
                old(typer).next_var,
                function.spec_type(),
                insert_args(self.argument_location, arguments),
                location,
            ).res matches Ok(_)),
            r matches Ok(te) ==> {
                &&& te matches TypedExpr::Call { location: tl, typ, fun: tf, args: ta }
                    && tl == location
                    && *tf == function
                    && rel_args(
                        old(typer).scope@,
                        old(typer).next_var,
                        insert_args(self.argument_location, arguments),
                        *ta,
                    )
                    && s_call(
                        old(typer).scope@,
                        old(typer).next_var,
                        function.spec_type(),
                        insert_args(self.argument_location, arguments),
                        location,
                    ).res == Ok::<Type, Error>(typ)
                &&& final(typer).previous_panics == te.spec_diverges()
            },
            r matches Err(er) ==> s_call(
                old(typer).scope@,
                old(typer).next_var,
                function.spec_type(),
                insert_args(self.argument_location, arguments),
                location,
            ).res == Err::<Type, Error>(er),
    {
        let arguments = List::Cons(
            self.untyped_left_hand_value_variable_call_argument(),
            Box::new(arguments),
        );
        let (fun, args, typ) = typer.do_infer_call_with_known_fun(function, arguments, location)?;
        let call = TypedExpr::Call { location, typ, fun: Box::new(fun), args: Box::new(args) };
        let d = call.is_divergent();
        typer.previous_panics = d;
        Ok(call)
    }

    /// Call, then apply: rewrites `value |> f(args...)` as
    /// `(f(args...))(value)` when the call is not saturated by the
    /// threaded value.
    pub fn infer_apply_to_call_pipe(
        &self,
        typer: &mut ExprTyper,
        function: TypedExpr,
        args: List<CallArg<UntypedExpr>>,
        location: SrcSpan,
    ) -> (r: Result<TypedExpr, Error>)
        ensures
            final(typer).scope@ == old(typer).scope@,
            final(typer).warnings@ == old(typer).warnings@,
            ({
                let inner = s_call(
                    old(typer).scope@,
                    old(typer).next_var,
                    function.spec_type(),
                    args,
                    location,
                );
                match inner.res {
                    Err(er) => {
                        &&& final(typer).next_var == inner.nv
                        &&& r == Err::<TypedExpr, Error>(er)
                    },
                    Ok(ct) => {
                        let outer = s_call(
                            old(typer).scope@,
                            inner.nv,
                            ct,
                            apply_args(self.argument_location),
                            location,
                        );
                        &&& final(typer).next_var == outer.nv
                        &&& (r matches Ok(_)) <==> (outer.res matches Ok(_))
                        &&& r matches Err(er) ==> outer.res == Err::<Type, Error>(er)
                        &&& r matches Ok(te) ==> {
                            &&& te matches TypedExpr::Call {
                                location: tl,
                                typ,
                                fun: touter,
                                args: ta2,
                            }
                                && tl == location
                                && (*touter matches TypedExpr::Call {
                                    location: li,
                                    typ: ti,
                                    fun: tf,
                                    args: ta,
                                }
                                    && li == location
                                    && ti == ct
                                    && *tf == function
                                    && rel_args(old(typer).scope@, old(typer).next_var, args, *ta))
                                && rel_args(
                                    old(typer).scope@,
                                    inner.nv,
                                    apply_args(self.argument_location),
                                    *ta2,
                                )
                                && outer.res == Ok::<Type, Error>(typ)
                            &&& final(typer).previous_panics == te.spec_diverges()
                        }
                    },
                }
            }),
    {
        let (function, targs, typ) = typer.do_infer_call_with_known_fun(function, args, location)?;
        let function = TypedExpr::Call {
            location,
            typ,
            fun: Box::new(function),
            args: Box::new(targs),
        };
        let arguments = List::Cons(
            self.untyped_left_hand_value_variable_call_argument(),
            Box::new(List::Nil),
        );
        let (function, targs2, typ2) = typer.do_infer_call_with_known_fun(
            function,
            arguments,
            location,
        )?;
        let call = TypedExpr::Call {
            location,
            typ: typ2,
            fun: Box::new(function),
            args: Box::new(targs2),
        };
        let d = call.is_divergent();
        typer.previous_panics = d;
        Ok(call)
    }

    /// Direct application: rewrites `value |> f` as `f(value)` for a
    /// non-call element, after checking that the element accepts exactly
    /// one argument of the threaded value's type.
    pub fn infer_apply_pipe(&self, typer: &mut ExprTyper, function: UntypedExpr) -> (r: Result<
        TypedExpr,
        Error,
    >)
        ensures
            final(typer).scope@ == old(typer).scope@,
            final(typer).warnings@ == old(typer).warnings@,
            final(typer).next_var == s_apply(
                old(typer).scope@,
                old(typer).next_var,
                self.argument_type,
                function,
            ).nv,
            (r matches Ok(_)) <==> (s_apply(
                old(typer).scope@,
                old(typer).next_var,
                self.argument_type,
                function,
            ).res matches Ok(_)),
            r matches Ok(te) ==> {
                &&& rel_apply(
                    old(typer).scope@,
                    old(typer).next_var,
                    self.argument_type,
                    self.argument_location,
                    function,
                    te,
                )
                &&& s_apply(
                    old(typer).scope@,
                    old(typer).next_var,
                    self.argument_type,
                    function,
                ).res == Ok::<Type, Error>(te.spec_type())
                &&& te.spec_location() == function.spec_location()
                &&& final(typer).previous_panics == te.spec_diverges()
            },
            r matches Err(er) ==> s_apply(
                old(typer).scope@,
                old(typer).next_var,
                self.argument_type,
                function,
            ).res == Err::<Type, Error>(er),
    {
        let function = typer.infer(function)?;
        let return_type = typer.new_unbound_var();
        let expected = Type::Func {
            args: Box::new(List::Cons(clone_type(&self.argument_type), Box::new(List::Nil))),
            ret: Box::new(clone_type(&return_type)),
        };
        // Ensure that the function accepts one argument of the correct type
        match unify(type_of(&function), &expected) {
            Ok(_) => {},
            Err(e) => {
                let is_pipe_mismatch = self.check_if_pipe_type_mismatch(&e);
                let location = function.location();
                let UnifyError::CouldNotUnify { expected: ex, given: gv } = e;
                return Err(Error::CouldNotUnify {
                    location,
                    expected: ex,
                    given: gv,
                    situation: if is_pipe_mismatch {
                        Some(UnifyErrorSituation::PipeTypeMismatch)
                    } else {
                        None
                    },
                });
            },
        }
        let typ = match type_of(&function) {
            Type::Func { ret, .. } => clone_type(&**ret),
            _ => return_type,
        };
        let location = function.location();
        let call = TypedExpr::Call {
            location,
            typ,
            fun: Box::new(function),
            args: Box::new(List::Cons(
                self.typed_left_hand_value_variable_call_argument(),
                Box::new(List::Nil),
            )),
        };
        let d = call.is_divergent();
        typer.previous_panics = d;
        Ok(call)
    }

    /// Decides whether a unification failure should be reported as a
    /// pipe-specific mismatch.
    pub fn check_if_pipe_type_mismatch(&self, error: &UnifyError) -> (r: bool)
        ensures
            r == is_pipe_mismatch(*error),
    {
        let UnifyError::CouldNotUnify { expected, given } = error;
        match (expected, given) {
            (Type::Func { args: a, .. }, Type::Func { args: b, .. }) => {
                if !same_len_types(a, b) {
                    return false;
                }
                match (&**a, &**b) {
                    (List::Cons(a0, _), List::Cons(b0, _)) => !check_unifies(a0, b0),
                    _ => false,
                }
            },
            _ => false,
        }
    }
}

// ---------------------------------------------------------------------------
// Diagnostics.
// ---------------------------------------------------------------------------

/// Is the element a divergent marker used as a pipe target, or a call of
/// one? The kind distinguishes the not-yet-implemented marker from the
/// unconditional-abort marker.
pub open spec fn todo_panic_kind(e: UntypedExpr) -> Option<TodoOrPanic> {
    match e {
        UntypedExpr::Todo { .. } => Some(TodoOrPanic::Todo),
        UntypedExpr::Panic { .. } => Some(TodoOrPanic::Panic),
        UntypedExpr::Call { fun, .. } => match *fun {
            UntypedExpr::Todo { .. } => Some(TodoOrPanic::Todo),
            UntypedExpr::Panic { .. } => Some(TodoOrPanic::Panic),
            _ => None,
        },
        _ => None,
    }
}

/// The warning emitted when a divergent marker is piped into: it reports
/// the marker's kind and location, and as argument context the span from
/// the chain's first element to the preceding element (or the first
/// element alone when there is none); the pipe supplies exactly one
/// argument.
pub open spec fn todo_panic_warning(
    e: UntypedExpr,
    kind: TodoOrPanic,
    first_loc: SrcSpan,
    prev: Option<SrcSpan>,
) -> Warning {
    Warning::TodoOrPanicUsedAsFunction {
        kind,
        location: e.spec_location(),
        args_location: match prev {
            Some(p) => Some(SrcSpan { start: first_loc.start, end: p.end }),
            None => Some(first_loc),
        },
        args: 1,
    }
}

/// All warnings emitted before one element is rewritten: the marker
/// warning, then an unreachable-code warning when the preceding step
/// diverges unconditionally.
pub open spec fn step_warns(
    e: UntypedExpr,
    first_loc: SrcSpan,
    prev: Option<SrcSpan>,
    prev_div: bool,
) -> Seq<Warning> {
    (match todo_panic_kind(e) {
        Some(k) => seq![todo_panic_warning(e, k, first_loc, prev)],
        None => seq![],
    }) + (if prev_div {
        seq![Warning::UnreachableCodeAfterPanic { location: e.spec_location() }]
    } else {
        seq![]
    })
}

// ---------------------------------------------------------------------------
// The whole chain.
// ---------------------------------------------------------------------------

/// What one run of the remaining chain produces: the type of its last
/// step or the first failure, the fresh-variable counter afterwards, and
/// every warning emitted on the way (on failure, up to and including the
/// failing step's own warnings).
pub ghost struct ChainOut {
    pub res: Result<Type, Error>,
    pub nv: u64,
    pub warns: Seq<Warning>,
}

/// The threaded state before a step: the scope (with the synthetic
/// variable bound to the previous step's result), the fresh-variable
/// counter, and the threaded value's type and span.
pub ghost struct StepState {
    pub scope: Seq<ScopeEntry>,
    pub nv: u64,
    pub arg_ty: Type,
    pub arg_loc: SrcSpan,
}

/// Runs the chain over `rest[i..]` from the given threaded state. `prev`
/// and `prev_div` are the span and divergence of the step before `rest[i]`,
/// and `first_loc` the span of the chain's first element; both feed the
/// warnings. Every step but the last rebinds the synthetic variable to
/// its result before the next one runs; the last step's result is the
/// chain's.
pub open spec fn chain_run(
    scope: Seq<ScopeEntry>,
    nv: u64,
    arg_ty: Type,
    arg_loc: SrcSpan,
    rest: Seq<UntypedExpr>,
    i: int,
    first_loc: SrcSpan,
    prev: Option<SrcSpan>,
    prev_div: bool,
) -> ChainOut
    decreases rest.len() - i,
{
    if i < 0 || i >= rest.len() {
        ChainOut { res: Ok(arg_ty), nv, warns: seq![] }
    } else {
        let w0 = step_warns(rest[i], first_loc, prev, prev_div);
        let st = s_step(scope, nv, arg_ty, arg_loc, rest[i]);
        match st.res {
            Err(er) => ChainOut { res: Err(er), nv: st.nv, warns: w0 },
            Ok(t) => if i == rest.len() - 1 {
                ChainOut { res: Ok(t), nv: st.nv, warns: w0 }
            } else {
                let rec = chain_run(
                    scope.push(pipe_entry(rest[i].spec_location(), t)),
                    st.nv,
                    t,
                    rest[i].spec_location(),
                    rest,
                    i + 1,
                    first_loc,
                    Some(rest[i].spec_location()),
                    rest[i].spec_diverges(),
                );
                ChainOut { res: rec.res, nv: rec.nv, warns: w0 + rec.warns }
            },
        }
    }
}

/// The threaded state before step `k` of the remaining chain, given the
/// state before step 0. Meaningful while every earlier step succeeds.
pub open spec fn state_after(s0: StepState, rest: Seq<UntypedExpr>, k: int) -> StepState
    decreases k,
{
    if k <= 0 {
        s0
    } else {
        let prev = state_after(s0, rest, k - 1);
        let st = s_step(prev.scope, prev.nv, prev.arg_ty, prev.arg_loc, rest[k - 1]);
        StepState {
            scope: prev.scope.push(pipe_entry(rest[k - 1].spec_location(), st.res->Ok_0)),
            nv: st.nv,
            arg_ty: st.res->Ok_0,
            arg_loc: rest[k - 1].spec_location(),
        }
    }
}

/// What the whole pass produces on `elems`: the first element is typed by
/// the general inferer and seeds the threaded value, then the remaining
/// elements run as a chain.
pub open spec fn pipe_run(base: Seq<ScopeEntry>, nv0: u64, elems: Seq<UntypedExpr>) -> ChainOut {
    let f = s_infer(base, nv0, elems[0]);
    match f.res {
        Err(er) => ChainOut { res: Err(er), nv: f.nv, warns: seq![] },
        Ok(t0) => chain_run(
            base.push(pipe_entry(elems[0].spec_location(), t0)),
            f.nv,
            t0,
            elems[0].spec_location(),
            elems.subrange(1, elems.len() as int),
            0,
            elems[0].spec_location(),
            None,
            elems[0].spec_diverges(),
        ),
    }
}

/// The state the chain starts from, after the first element seeds the
/// threaded value.
pub open spec fn pipe_start(base: Seq<ScopeEntry>, nv0: u64, elems: Seq<UntypedExpr>) -> StepState {
    let f = s_infer(base, nv0, elems[0]);
    StepState {
        scope: base.push(pipe_entry(elems[0].spec_location(), f.res->Ok_0)),
        nv: f.nv,
        arg_ty: f.res->Ok_0,
        arg_loc: elems[0].spec_location(),
    }
}

/// The shape of a successful rewrite of the whole chain: one binding per
/// element but the last, the first binding holding the first element's
/// typed form, each later binding holding its element's rewrite under the
/// threaded state then current, and the terminal expression holding the
/// last element's rewrite.
pub open spec fn chain_ok(
    base: Seq<ScopeEntry>,
    nv0: u64,
    elems: Seq<UntypedExpr>,
    bs: Seq<Assignment>,
    fin: TypedExpr,
) -> bool {
    let n = elems.len() as int;
    let s1 = pipe_start(base, nv0, elems);
    let rest = elems.subrange(1, n);
    &&& bs.len() == n - 1
    &&& s_infer(base, nv0, elems[0]).res matches Ok(_)
    &&& rel_typed(base, nv0, elems[0], bs[0].value)
    &&& bs[0] == spec_assignment(bs[0].value)
    &&& forall|k: int| 0 <= k < n - 2 ==> {
        let stk = state_after(s1, rest, k);
        &&& rel_step(stk.scope, stk.nv, stk.arg_ty, stk.arg_loc, rest[k], (#[trigger] bs[k + 1]).value)
        &&& bs[k + 1] == spec_assignment(bs[k + 1].value)
    }
    &&& {
        let stl = state_after(s1, rest, n - 2);
        rel_step(stl.scope, stl.nv, stl.arg_ty, stl.arg_loc, rest[n - 2], fin)
    }
}

// ---------------------------------------------------------------------------
// Facts about the shape relations.
// ---------------------------------------------------------------------------

/// A typed form diverges exactly when its untyped expression does.
pub proof fn lemma_rel_typed_diverges(
    scope: Seq<ScopeEntry>,
    nv: u64,
    e: UntypedExpr,
    te: TypedExpr,
)
    requires
        rel_typed(scope, nv, e, te),
    ensures
        te.spec_diverges() == e.spec_diverges(),
    decreases e,
{
    match e {
        UntypedExpr::Call { location, fun, arguments } => {
            match te {
                TypedExpr::Call { fun: tf, .. } => {
                    lemma_rel_typed_diverges(scope, nv, *fun, *tf);
                    assert(e.spec_diverges() == fun.spec_diverges());
                    assert(te.spec_diverges() == tf.spec_diverges());
                    assert(te.spec_diverges() == e.spec_diverges());
                },
                _ => {
                    assert(false);
                },
            }
        },
        UntypedExpr::Lit { location, type_ } => {
            assert(!e.spec_diverges());
            assert(!te.spec_diverges());
        },
        UntypedExpr::Var { location, name } => {
            assert(!e.spec_diverges());
            assert(!te.spec_diverges());
        },
        UntypedExpr::Todo { location } => {
            assert(e.spec_diverges());
            assert(te.spec_diverges());
        },
        UntypedExpr::Panic { location } => {
            assert(e.spec_diverges());
            assert(te.spec_diverges());
        },
    }
}

/// A rewritten step diverges exactly when its element does.
pub proof fn lemma_rel_step_diverges(
    scope: Seq<ScopeEntry>,
    nv: u64,
    arg_ty: Type,
    arg_loc: SrcSpan,
    e: UntypedExpr,
    te: TypedExpr,
)
    requires
        rel_step(scope, nv, arg_ty, arg_loc, e, te),
    ensures
        te.spec_diverges() == e.spec_diverges(),
{
    match e {
        UntypedExpr::Call { location, fun, arguments } => {
            let f = s_infer(scope, nv, *fun);
            assert(e.spec_diverges() == fun.spec_diverges());
            if f.res->Ok_0 matches Type::Func { args: params, .. } && params.one_longer(
                *arguments,
            ) {
                match te {
                    TypedExpr::Call { fun: tf, .. } => {
                        lemma_rel_typed_diverges(scope, nv, *fun, *tf);
                        assert(te.spec_diverges() == tf.spec_diverges());
                    },
                    _ => {
                        assert(false);
                    },
                }
            } else {
                match te {
                    TypedExpr::Call { fun: touter, .. } => {
                        assert(te.spec_diverges() == touter.spec_diverges());
                        match *touter {
                            TypedExpr::Call { fun: tf, .. } => {
                                lemma_rel_typed_diverges(scope, nv, *fun, *tf);
                                assert(touter.spec_diverges() == tf.spec_diverges());
                            },
                            _ => {
                                assert(false);
                            },
                        }
                    },
                    _ => {
                        assert(false);
                    },
                }
            }
        },
        _ => {
            match te {
                TypedExpr::Call { fun: tf, .. } => {
                    lemma_rel_typed_diverges(scope, nv, e, *tf);
                    assert(te.spec_diverges() == tf.spec_diverges());
                },
                _ => {
                    assert(false);
                },
            }
        },
    }
}

/// A rewritten step stands at its element's location.
pub proof fn lemma_rel_step_location(
    scope: Seq<ScopeEntry>,
    nv: u64,
    arg_ty: Type,
    arg_loc: SrcSpan,
    e: UntypedExpr,
    te: TypedExpr,
)
    requires
        rel_step(scope, nv, arg_ty, arg_loc, e, te),
    ensures
        te.spec_location() == e.spec_location(),
{
}

/// A rewritten step carries exactly the type that `s_step` assigns, and
/// `s_step` succeeds on it.
pub proof fn lemma_rel_step_type(
    scope: Seq<ScopeEntry>,
    nv: u64,
    arg_ty: Type,
    arg_loc: SrcSpan,
    e: UntypedExpr,
    te: TypedExpr,
)
    requires
        rel_step(scope, nv, arg_ty, arg_loc, e, te),
    ensures
        s_step(scope, nv, arg_ty, arg_loc, e).res == Ok::<Type, Error>(te.spec_type()),
{
}

impl PipeTyper {
    /// Emits the divergent-marker warning for an element that is, or
    /// calls, one of the markers; other elements pass silently.
    pub fn warn_if_is_todo_or_panic(
        &self,
        typer: &mut ExprTyper,
        call: &UntypedExpr,
        first_location: SrcSpan,
        previous_expression_location: Option<SrcSpan>,
    )
        ensures
            final(typer).warnings@ == old(typer).warnings@ + (match todo_panic_kind(*call) {
                Some(k) => seq![
                    todo_panic_warning(*call, k, first_location, previous_expression_location),
                ],
                None => Seq::<Warning>::empty(),
            }),
            final(typer).scope@ == old(typer).scope@,
            final(typer).next_var == old(typer).next_var,
            final(typer).previous_panics == old(typer).previous_panics,
    {
        let call_todo_or_panic: Option<TodoOrPanic> = match call {
            UntypedExpr::Todo { .. } => Some(TodoOrPanic::Todo),
            UntypedExpr::Panic { .. } => Some(TodoOrPanic::Panic),
            UntypedExpr::Call { fun, .. } => match &**fun {
                UntypedExpr::Todo { .. } => Some(TodoOrPanic::Todo),
                UntypedExpr::Panic { .. } => Some(TodoOrPanic::Panic),
                _ => None,
            },
            _ => None,
        };
        match call_todo_or_panic {
            Some(kind) => {
                let args_location = match previous_expression_location {
                    Some(previous) => Some(SrcSpan::new(first_location.start, previous.end)),
                    None => Some(first_location),
                };
                typer.emit_warning(Warning::TodoOrPanicUsedAsFunction {
                    kind,
                    location: call.location(),
                    args_location,
                    args: 1,
                });
                proof {
                    assert(final(typer).warnings@ =~= old(typer).warnings@ + seq![
                        todo_panic_warning(
                            *call,
                            kind,
                            first_location,
                            previous_expression_location,
                        ),
                    ]);
                }
            },
            None => {
                proof {
                    assert(final(typer).warnings@ =~= old(typer).warnings@
                        + Seq::<Warning>::empty());
                }
            },
        }
    }
}

impl PipeTyper {
    /// Classifies one pipeline element and runs the strategy it falls
    /// under, exactly as `s_step` and `rel_step` describe: the choice is
    /// made from the element's syntactic shape and its callee's declared
    /// arity alone.
    pub fn infer_pipe_step(&self, typer: &mut ExprTyper, element: UntypedExpr) -> (r: Result<
        TypedExpr,
        Error,
    >)
        ensures
            final(typer).scope@ == old(typer).scope@,
            final(typer).warnings@ == old(typer).warnings@,
            final(typer).next_var == s_step(
                old(typer).scope@,
                old(typer).next_var,
                self.argument_type,
                self.argument_location,
                element,
            ).nv,
            (r matches Ok(_)) <==> (s_step(
                old(typer).scope@,
                old(typer).next_var,
                self.argument_type,
                self.argument_location,
                element,
            ).res matches Ok(_)),
            r matches Err(er) ==> s_step(
                old(typer).scope@,
                old(typer).next_var,
                self.argument_type,
                self.argument_location,
                element,
            ).res == Err::<Type, Error>(er),
            r matches Ok(te) ==> {
                &&& rel_step(
                    old(typer).scope@,
                    old(typer).next_var,
                    self.argument_type,
                    self.argument_location,
                    element,
                    te,
                )
                &&& s_step(
                    old(typer).scope@,
                    old(typer).next_var,
                    self.argument_type,
                    self.argument_location,
                    element,
                ).res == Ok::<Type, Error>(te.spec_type())
                &&& final(typer).previous_panics == te.spec_diverges()
                &&& te.spec_location() == element.spec_location()
            },
    {
        match element {
            // left |> right(..args)
            UntypedExpr::Call { location, fun, arguments } => {
                let fun1 = typer.infer(*fun)?;
                let insert = match type_of(&fun1) {
                    Type::Func { args: params, .. } => one_longer_params(params, &arguments),
                    _ => false,
                };
                let r = if insert {
                    // Rewrite as right(left, ..args)
                    self.infer_insert_pipe(typer, fun1, *arguments, location)
                } else {
                    // Rewrite as right(..args)(left)
                    self.infer_apply_to_call_pipe(typer, fun1, *arguments, location)
                };
                r
            },
            // right(left)
            other => self.infer_apply_pipe(typer, other),
        }
    }
}

impl PipeTyper {
    /// The assembler's loop: rewrites each remaining element in order,
    /// left to right. Every element but the last becomes a binding of the
    /// synthetic variable and rebinds it for the steps after it; the last
    /// element's rewrite is returned as the terminal expression. Before
    /// each element the divergent-marker warning runs, and an element
    /// after a step that always diverges is flagged unreachable. The
    /// first failing step aborts the pass with its error.
    #[verifier::rlimit(100)]
    #[verifier::spinoff_prover]
    #[verifier::loop_isolation(false)]
    pub fn infer_each_expression(
        &mut self,
        typer: &mut ExprTyper,
        expressions: Vec<UntypedExpr>,
        first_location: SrcSpan,
    ) -> (r: Result<TypedExpr, Error>)
        requires
            expressions@.len() >= 1,
            old(self).size == expressions@.len() + 1,
        ensures
            final(self).size == old(self).size,
            final(self).location == old(self).location,
            old(typer).scope@.is_prefix_of(final(typer).scope@),
            old(self).assignments@.is_prefix_of(final(self).assignments@),
            final(typer).warnings@ == old(typer).warnings@ + each_out(
                *old(typer),
                *old(self),
                expressions@,
                first_location,
            ).warns,
            final(typer).next_var == each_out(
                *old(typer),
                *old(self),
                expressions@,
                first_location,
            ).nv,
            (r matches Ok(_)) <==> (each_out(
                *old(typer),
                *old(self),
                expressions@,
                first_location,
            ).res matches Ok(_)),
            r matches Err(er) ==> each_out(
                *old(typer),
                *old(self),
                expressions@,
                first_location,
            ).res == Err::<Type, Error>(er),
            r matches Ok(fin) ==> ({
                let s0 = each_state(*old(typer), *old(self));
                let rest = expressions@;
                let n = rest.len() as int;
                let stl = state_after(s0, rest, n - 1);
                &&& each_out(*old(typer), *old(self), rest, first_location).res == Ok::<
                    Type,
                    Error,
                >(fin.spec_type())
                &&& final(self).assignments@.len() == old(self).assignments@.len() + n - 1
                &&& forall|k: int|
                    0 <= k < n - 1 ==> ({
                        let stk = #[trigger] state_after(s0, rest, k);
                        let b = final(self).assignments@[old(self).assignments@.len() + k];
                        &&& rel_step(stk.scope, stk.nv, stk.arg_ty, stk.arg_loc, rest[k], b.value)
                        &&& b == spec_assignment(b.value)
                    })
                &&& rel_step(stl.scope, stl.nv, stl.arg_ty, stl.arg_loc, rest[n - 1], fin)
                &&& final(typer).scope@ == stl.scope
                &&& final(self).argument_type == stl.arg_ty
                &&& final(self).argument_location == stl.arg_loc
                &&& final(typer).previous_panics == fin.spec_diverges()
            }),
    {
        let ghost rest = expressions@;
        let ghost n = rest.len() as int;
        let ghost s0 = each_state(*typer, *self);
        let ghost out = each_out(*typer, *self, rest, first_location);
        let ghost d0 = typer.previous_panics;
        let ghost w_base = typer.warnings@;
        let ghost a_base = self.assignments@;
        let ghost scope_base = typer.scope@;
        let ghost loc0 = self.location;

        let mut expressions = expressions;
        let mut finally: Option<TypedExpr> = None;
        let mut previous_expression_location: Option<SrcSpan> = None;
        let mut i: usize = 0;
        while expressions.len() > 0
            invariant
                n == rest.len(),
                1 <= n,
                self.size == n + 1,
                i as int <= n,
                expressions@ == rest.subrange(i as int, n),
                self.location == loc0,
                out == each_out_raw(s0, d0, rest, first_location),
                w_base.is_prefix_of(typer.warnings@),
                a_base.is_prefix_of(self.assignments@),
                scope_base.is_prefix_of(typer.scope@),
                (i as int) < n ==> ({
                    let st = state_after(s0, rest, i as int);
                    let cur = chain_run(
                        st.scope,
                        st.nv,
                        st.arg_ty,
                        st.arg_loc,
                        rest,
                        i as int,
                        first_location,
                        previous_expression_location,
                        typer.previous_panics,
                    );
                    &&& finally matches None::<TypedExpr>
                    &&& typer.scope@ == st.scope
                    &&& typer.next_var == st.nv
                    &&& self.argument_type == st.arg_ty
                    &&& self.argument_location == st.arg_loc
                    &&& typer.previous_panics == (if i == 0 {
                        d0
                    } else {
                        rest[i as int - 1].spec_diverges()
                    })
                    &&& previous_expression_location == (if i == 0 {
                        Option::<SrcSpan>::None
                    } else {
                        Some(rest[i as int - 1].spec_location())
                    })
                    &&& out.res == cur.res
                    &&& out.nv == cur.nv
                    &&& out.warns == typer.warnings@.skip(w_base.len() as int) + cur.warns
                }),
                self.assignments@.len() - a_base.len() == (if (i as int) < n {
                    i as int
                } else {
                    n - 1
                }),
                forall|k: int|
                    0 <= k < self.assignments@.len() - a_base.len() ==> ({
                        let stk = #[trigger] state_after(s0, rest, k);
                        let b = self.assignments@[a_base.len() + k];
                        &&& rel_step(stk.scope, stk.nv, stk.arg_ty, stk.arg_loc, rest[k], b.value)
                        &&& b == spec_assignment(b.value)
                    }),
                (i as int) == n ==> ({
                    let stl = state_after(s0, rest, n - 1);
                    &&& (finally matches Some(f) && rel_step(
                        stl.scope,
                        stl.nv,
                        stl.arg_ty,
                        stl.arg_loc,
                        rest[n - 1],
                        f,
                    ) && out.res == Ok::<Type, Error>(f.spec_type())
                        && typer.previous_panics == f.spec_diverges())
                    &&& typer.scope@ == stl.scope
                    &&& self.argument_type == stl.arg_ty
                    &&& self.argument_location == stl.arg_loc
                    &&& typer.next_var == out.nv
                    &&& typer.warnings@ == w_base + out.warns
                }),
            decreases expressions@.len(),
        {
            let ghost iter_w = typer.warnings@;
            let ghost st_i = state_after(s0, rest, i as int);
            let ghost pel_i = previous_expression_location;
            let ghost pd_i = typer.previous_panics;
            let ghost cur_i = chain_run(
                st_i.scope,
                st_i.nv,
                st_i.arg_ty,
                st_i.arg_loc,
                rest,
                i as int,
                first_location,
                pel_i,
                pd_i,
            );
            let ghost w0 = step_warns(rest[i as int], first_location, pel_i, pd_i);

            let call = expressions.remove(0);
            proof {
                assert(call == rest[i as int]);
                assert(expressions@ =~= rest.subrange(i as int + 1, n));
            }
            self.warn_if_is_todo_or_panic(typer, &call, first_location, previous_expression_location);
            if typer.previous_panics {
                typer.warn_for_unreachable_code(call.location());
            }
            proof {
                assert(typer.warnings@ =~= iter_w + w0);
            }

            let call = match self.infer_pipe_step(typer, call) {
                Ok(c) => c,
                Err(e) => {
                    proof {
                        assert(cur_i.res == Err::<Type, Error>(e));
                        assert(typer.next_var == cur_i.nv);
                        lemma_return_on_error(w_base, iter_w, typer.warnings@, w0, out, cur_i);
                    }
                    return Err(e);
                },
            };

            proof {
                lemma_rel_step_location(st_i.scope, st_i.nv, st_i.arg_ty, st_i.arg_loc, rest[i as int], call);
                lemma_rel_step_diverges(st_i.scope, st_i.nv, st_i.arg_ty, st_i.arg_loc, rest[i as int], call);
            }

            previous_expression_location = Some(call.location());

            if i + 2 == self.size {
                finally = Some(call);
                proof {
                    assert(cur_i == ChainOut {
                        res: Ok::<Type, Error>(call.spec_type()),
                        nv: typer.next_var,
                        warns: w0,
                    });
                    assert(typer.warnings@ =~= w_base + (iter_w.skip(w_base.len() as int) + w0));
                    assert(typer.warnings@ == w_base + out.warns);
                }
            } else {
                self.push_assignment(typer, call);
                proof {
                    let stn = state_after(s0, rest, i as int + 1);
                    assert(stn == StepState {
                        scope: st_i.scope.push(
                            pipe_entry(
                                rest[i as int].spec_location(),
                                s_step(
                                    st_i.scope,
                                    st_i.nv,
                                    st_i.arg_ty,
                                    st_i.arg_loc,
                                    rest[i as int],
                                ).res->Ok_0,
                            ),
                        ),
                        nv: s_step(st_i.scope, st_i.nv, st_i.arg_ty, st_i.arg_loc, rest[i as int]).nv,
                        arg_ty: s_step(
                            st_i.scope,
                            st_i.nv,
                            st_i.arg_ty,
                            st_i.arg_loc,
                            rest[i as int],
                        ).res->Ok_0,
                        arg_loc: rest[i as int].spec_location(),
                    });
                    assert(typer.scope@ == stn.scope);
                    let curn = chain_run(
                        stn.scope,
                        stn.nv,
                        stn.arg_ty,
                        stn.arg_loc,
                        rest,
                        i as int + 1,
                        first_location,
                        Some(rest[i as int].spec_location()),
                        rest[i as int].spec_diverges(),
                    );
                    assert(cur_i == ChainOut {
                        res: curn.res,
                        nv: curn.nv,
                        warns: w0 + curn.warns,
                    });
                    assert(out.warns =~= typer.warnings@.skip(w_base.len() as int) + curn.warns);
                    assert(w_base.is_prefix_of(typer.warnings@));
                    // the new binding's shape
                    assert(self.assignments@[a_base.len() + i as int]
                        == spec_assignment(call));
                }
            }
            i = i + 1;
        }
        proof {
            assert(rest.subrange(i as int, n).len() == 0);
            assert(i as int == n);
        }
        match finally {
            Some(f) => Ok(f),
            None => vstd::pervasive::unreached(),
        }
    }
}

impl PipeTyper {
    /// Wraps the rewritten chain up: the bindings accumulated so far, in
    /// order, and the terminal expression, under the chain's overall span.
    pub fn infer_expressions(
        self,
        typer: &mut ExprTyper,
        expressions: Vec<UntypedExpr>,
        first_location: SrcSpan,
    ) -> (r: Result<TypedExpr, Error>)
        requires
            expressions@.len() >= 1,
            self.size == expressions@.len() + 1,
        ensures
            old(typer).scope@.is_prefix_of(final(typer).scope@),
            final(typer).warnings@ == old(typer).warnings@ + each_out(
                *old(typer),
                self,
                expressions@,
                first_location,
            ).warns,
            final(typer).next_var == each_out(
                *old(typer),
                self,
                expressions@,
                first_location,
            ).nv,
            (r matches Ok(_)) <==> (each_out(
                *old(typer),
                self,
                expressions@,
                first_location,
            ).res matches Ok(_)),
            r matches Err(er) ==> each_out(*old(typer), self, expressions@, first_location).res
                == Err::<Type, Error>(er),
            r matches Ok(te) ==> ({
                let s0 = each_state(*old(typer), self);
                let rest = expressions@;
                let n = rest.len() as int;
                let stl = state_after(s0, rest, n - 1);
                &&& te matches TypedExpr::Pipeline { location, assignments, finally }
                    && location == self.location
                    && assignments@.len() == self.assignments@.len() + n - 1
                    && self.assignments@.is_prefix_of(assignments@)
                    && (forall|k: int|
                        0 <= k < n - 1 ==> ({
                            let stk = #[trigger] state_after(s0, rest, k);
                            let b = assignments@[self.assignments@.len() + k];
                            &&& rel_step(
                                stk.scope,
                                stk.nv,
                                stk.arg_ty,
                                stk.arg_loc,
                                rest[k],
                                b.value,
                            )
                            &&& b == spec_assignment(b.value)
                        }))
                    && rel_step(stl.scope, stl.nv, stl.arg_ty, stl.arg_loc, rest[n - 1], *finally)
                    && each_out(*old(typer), self, rest, first_location).res == Ok::<Type, Error>(
                        finally.spec_type(),
                    )
                    && final(typer).previous_panics == finally.spec_diverges()
                &&& final(typer).scope@ == stl.scope
            }),
    {
        let mut this = self;
        let finally = match this.infer_each_expression(typer, expressions, first_location) {
            Ok(f) => f,
            // Return any errors after clean-up
            Err(e) => return Err(e),
        };
        let assignments = this.assignments;
        Ok(TypedExpr::Pipeline {
            location: this.location,
            assignments,
            finally: Box::new(finally),
        })
    }

    /// Seeds the chain with the first element's typed form and runs the
    /// rest: the whole rewrite, without the scope guard around it.
    pub fn run(typer: &mut ExprTyper, expressions: vec1::Vec1<UntypedExpr>) -> (r: Result<
        TypedExpr,
        Error,
    >)
        requires
            vec1_elems(expressions).len() >= 2,
        ensures
            old(typer).scope@.is_prefix_of(final(typer).scope@),
            final(typer).warnings@ == old(typer).warnings@ + pipe_run(
                old(typer).scope@,
                old(typer).next_var,
                vec1_elems(expressions),
            ).warns,
            final(typer).next_var == pipe_run(
                old(typer).scope@,
                old(typer).next_var,
                vec1_elems(expressions),
            ).nv,
            (r matches Ok(_)) <==> (pipe_run(
                old(typer).scope@,
                old(typer).next_var,
                vec1_elems(expressions),
            ).res matches Ok(_)),
            r matches Err(er) ==> pipe_run(
                old(typer).scope@,
                old(typer).next_var,
                vec1_elems(expressions),
            ).res == Err::<Type, Error>(er),
            r matches Ok(te) ==> ({
                let elems = vec1_elems(expressions);
                let n = elems.len() as int;
                &&& te matches TypedExpr::Pipeline { location, assignments, finally }
                    && location == (SrcSpan {
                        start: elems[0].spec_location().start,
                        end: elems[n - 1].spec_location().end,
                    })
                    && assignments@.len() == n - 1
                    && chain_ok(
                        old(typer).scope@,
                        old(typer).next_var,
                        elems,
                        assignments@,
                        *finally,
                    )
                    && pipe_run(old(typer).scope@, old(typer).next_var, elems).res == Ok::<
                        Type,
                        Error,
                    >(finally.spec_type())
            }),
    {
        let ghost elems = vec1_elems(expressions);
        let ghost base = typer.scope@;
        let ghost nv0 = typer.next_var;

        let mut exprs: Vec<UntypedExpr> = vec1_into_vec(expressions);
        let size = exprs.len();
        let end = exprs[size - 1].location().end;
        let rest = exprs.split_off(1);
        let first_untyped = match exprs.pop() {
            Some(f) => f,
            None => vstd::pervasive::unreached(),
        };
        proof {
            assert(first_untyped == elems[0]);
            assert(rest@ =~= elems.subrange(1, elems.len() as int));
        }
        let first = match typer.infer(first_untyped) {
            Ok(f) => f,
            Err(e) => {
                return Err(e);
            },
        };
        let first_location = first.location();
        let start = first_location.start;
        let argument_type = clone_type(type_of(&first));
        let mut pipe_typer = PipeTyper {
            size,
            argument_type,
            argument_location: first_location,
            location: SrcSpan { start, end },
            assignments: Vec::new(),
        };
        proof {
            lemma_rel_typed_diverges(base, nv0, elems[0], first);
        }

        // No need to update the threaded value: it was set just above.
        pipe_typer.push_assignment_no_update(typer, first);
        proof {
            assert(typer.scope@ == base.push(
                pipe_entry(elems[0].spec_location(), first.spec_type()),
            ));
            assert(each_state(*typer, pipe_typer) == pipe_start(base, nv0, elems));
            assert(pipe_typer.assignments@ =~= Seq::<Assignment>::empty().push(
                spec_assignment(first),
            ));
        }

        let ghost t1 = *typer;
        let ghost pt1 = pipe_typer;
        proof {
            assert(each_out(t1, pt1, rest@, first_location) == pipe_run(base, nv0, elems));
        }

        // Perform the type checking
        let r = pipe_typer.infer_expressions(typer, rest, first_location);
        proof {
            let n = elems.len() as int;
            let s1 = pipe_start(base, nv0, elems);
            let rseq = elems.subrange(1, n);
            match &r {
                Ok(te) => match te {
                    TypedExpr::Pipeline { location, assignments, finally } => {
                        assert(pt1.assignments@.len() == 1);
                        assert(assignments@.len() == n - 1);
                        assert(pt1.assignments@.is_prefix_of(assignments@));
                        assert(pt1.assignments@ =~= assignments@.subrange(0, 1));
                        assert(assignments@[0] == assignments@.subrange(0, 1)[0]);
                        assert(assignments@[0] == spec_assignment(first));
                        assert(rel_typed(base, nv0, elems[0], assignments@[0].value));
                        assert(each_state(t1, pt1) == s1);
                        assert forall|k: int| 0 <= k < n - 2 implies ({
                            let stk = #[trigger] state_after(s1, rseq, k);
                            let b = assignments@[k + 1];
                            rel_step(stk.scope, stk.nv, stk.arg_ty, stk.arg_loc, rseq[k], b.value)
                                && b == spec_assignment(b.value)
                        }) by {
                            assert(state_after(each_state(t1, pt1), rseq, k) == state_after(
                                s1,
                                rseq,
                                k,
                            ));
                            assert(rel_step(
                                state_after(each_state(t1, pt1), rseq, k).scope,
                                state_after(each_state(t1, pt1), rseq, k).nv,
                                state_after(each_state(t1, pt1), rseq, k).arg_ty,
                                state_after(each_state(t1, pt1), rseq, k).arg_loc,
                                rseq[k],
                                assignments@[pt1.assignments@.len() + k].value,
                            ));
                        };
                        assert(chain_ok(base, nv0, elems, assignments@, **finally));
                    },
                    _ => {},
                },
                _ => {},
            }
        }
        r
    }
}

impl PipeTyper {
    /// The pass's entry point: rewrites a pipe chain into a typed pipeline
    /// construct. The variable scope is snapshotted before the pass and
    /// restored unconditionally afterwards, on the success and the failure
    /// path alike, so the synthetic variable never leaks into the
    /// enclosing scope.
    pub fn infer(typer: &mut ExprTyper, expressions: vec1::Vec1<UntypedExpr>) -> (r: Result<
        TypedExpr,
        Error,
    >)
        requires
            vec1_elems(expressions).len() >= 2,
        ensures
            final(typer).scope@ == old(typer).scope@,
            final(typer).warnings@ == old(typer).warnings@ + pipe_run(
                old(typer).scope@,
                old(typer).next_var,
                vec1_elems(expressions),
            ).warns,
            final(typer).next_var == pipe_run(
                old(typer).scope@,
                old(typer).next_var,
                vec1_elems(expressions),
            ).nv,
            (r matches Ok(_)) <==> (pipe_run(
                old(typer).scope@,
                old(typer).next_var,
                vec1_elems(expressions),
            ).res matches Ok(_)),
            r matches Err(er) ==> pipe_run(
                old(typer).scope@,
                old(typer).next_var,
                vec1_elems(expressions),
            ).res == Err::<Type, Error>(er),
            r matches Ok(te) ==> ({
                let elems = vec1_elems(expressions);
                let n = elems.len() as int;
                &&& te matches TypedExpr::Pipeline { location, assignments, finally }
                    && location == (SrcSpan {
                        start: elems[0].spec_location().start,
                        end: elems[n - 1].spec_location().end,
                    })
                    && assignments@.len() == n - 1
                    && chain_ok(
                        old(typer).scope@,
                        old(typer).next_var,
                        elems,
                        assignments@,
                        *finally,
                    )
                    && pipe_run(old(typer).scope@, old(typer).next_var, elems).res == Ok::<
                        Type,
                        Error,
                    >(finally.spec_type())
            }),
    {
        // The scope is reset as pipelines are rewritten into a series of
        // assignments, and these variables must not leak out of the
        // pipeline.
        let scope = typer.snapshot_scope();
        let result = PipeTyper::run(typer, expressions);
        typer.restore_scope(scope);
        proof {
            assert(final(typer).scope@ =~= old(typer).scope@);
        }
        result
    }

    /// As `infer`, behind a length check: a chain of fewer than two
    /// elements is not a pipe expression, and is answered with `None`
    /// and an untouched typer.
    pub fn infer_checked(typer: &mut ExprTyper, expressions: vec1::Vec1<UntypedExpr>) -> (r:
        Option<Result<TypedExpr, Error>>)
        ensures
            final(typer).scope@ == old(typer).scope@,
            (r matches Some(_)) <==> vec1_elems(expressions).len() >= 2,
            r matches None ==> *final(typer) == *old(typer),
            r matches Some(res) ==> {
                &&& final(typer).warnings@ == old(typer).warnings@ + pipe_run(
                    old(typer).scope@,
                    old(typer).next_var,
                    vec1_elems(expressions),
                ).warns
                &&& final(typer).next_var == pipe_run(
                    old(typer).scope@,
                    old(typer).next_var,
                    vec1_elems(expressions),
                ).nv
                &&& (res matches Ok(_)) <==> (pipe_run(
                    old(typer).scope@,
                    old(typer).next_var,
                    vec1_elems(expressions),
                ).res matches Ok(_))
                &&& res matches Err(er) ==> pipe_run(
                    old(typer).scope@,
                    old(typer).next_var,
                    vec1_elems(expressions),
                ).res == Err::<Type, Error>(er)
                &&& res matches Ok(te) ==> ({
                    let elems = vec1_elems(expressions);
                    let n = elems.len() as int;
                    &&& te matches TypedExpr::Pipeline { location, assignments, finally }
                        && location == (SrcSpan {
                            start: elems[0].spec_location().start,
                            end: elems[n - 1].spec_location().end,
                        })
                        && assignments@.len() == n - 1
                        && chain_ok(
                            old(typer).scope@,
                            old(typer).next_var,
                            elems,
                            assignments@,
                            *finally,
                        )
                })
            },
    {
        if vec1_len(&expressions) >= 2 {
            Some(Self::infer(typer, expressions))
        } else {
            None
        }
    }
}

/// The threaded state as the assembler's loop starts.
pub open spec fn each_state(t: ExprTyper, p: PipeTyper) -> StepState {
    StepState {
        scope: t.scope@,
        nv: t.next_var,
        arg_ty: p.argument_type,
        arg_loc: p.argument_location,
    }
}

/// What the assembler's loop produces from its entry state.
pub open spec fn each_out(
    t: ExprTyper,
    p: PipeTyper,
    rest: Seq<UntypedExpr>,
    first_loc: SrcSpan,
) -> ChainOut {
    each_out_raw(each_state(t, p), t.previous_panics, rest, first_loc)
}

/// As `each_out`, from an explicit threaded state.
pub open spec fn each_out_raw(
    s0: StepState,
    prev_div: bool,
    rest: Seq<UntypedExpr>,
    first_loc: SrcSpan,
) -> ChainOut {
    chain_run(s0.scope, s0.nv, s0.arg_ty, s0.arg_loc, rest, 0, first_loc, None, prev_div)
}

/// Seam of the loop's warning bookkeeping: what the accumulated warnings
/// look like when the loop stops at a failing step.
proof fn lemma_return_on_error(
    w_base: Seq<Warning>,
    iter_w: Seq<Warning>,
    now_w: Seq<Warning>,
    w0: Seq<Warning>,
    out: ChainOut,
    cur: ChainOut,
)
    requires
        w_base.is_prefix_of(iter_w),
        now_w == iter_w + w0,
        out.warns == iter_w.skip(w_base.len() as int) + cur.warns,
        cur.warns == w0,
    ensures
        now_w == w_base + out.warns,
{
    assert(now_w =~= w_base + (iter_w.skip(w_base.len() as int) + w0));
}

/// Does the parameter list declare exactly one more parameter than the
/// argument list supplies?
fn one_longer_params(params: &List<Type>, args: &List<CallArg<UntypedExpr>>) -> (r: bool)
    ensures
        r == params.one_longer(*args),
{
    match params {
        List::Nil => false,
        List::Cons(_, pt) => same_len_params_args(pt, args),
    }
}

/// Do the parameter list and the argument list have the same length?
fn same_len_params_args(params: &List<Type>, args: &List<CallArg<UntypedExpr>>) -> (r: bool)
    ensures
        r == params.same_len(*args),
    decreases *params,
{
    match (params, args) {
        (List::Nil, List::Nil) => true,
        (List::Cons(_, pt), List::Cons(_, at)) => same_len_params_args(pt, at),
        _ => false,
    }
}

/// Do two type lists have the same length?
fn same_len_types(a: &List<Type>, b: &List<Type>) -> (r: bool)
    ensures
        r == a.same_len(*b),
    decreases *a,
{
    match (a, b) {
        (List::Nil, List::Nil) => true,
        (List::Cons(_, at), List::Cons(_, bt)) => same_len_types(at, bt),
        _ => false,
    }
}

} // verus!
