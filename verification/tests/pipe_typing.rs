use pipe_typer::ast::{
    Assignment, CallArg, Error, List, Pattern, SrcSpan, TodoOrPanic, Type, TypedExpr,
    UnifyErrorSituation, UntypedExpr, Warning, PIPE_VARIABLE,
};
use pipe_typer::pipe::PipeTyper;
use pipe_typer::typer::ExprTyper;
use pipe_typer::unify::unify;

const INT: u64 = 1;
const STRING: u64 = 2;
const BOOL: u64 = 3;

fn named(id: u64) -> Type {
    Type::Named { id }
}

fn func(params: Vec<Type>, ret: Type) -> Type {
    let mut args = List::Nil;
    for p in params.into_iter().rev() {
        args = List::Cons(p, Box::new(args));
    }
    Type::Func { args: Box::new(args), ret: Box::new(ret) }
}

fn span(start: u32, end: u32) -> SrcSpan {
    SrcSpan { start, end }
}

fn lit(start: u32, end: u32, t: Type) -> UntypedExpr {
    UntypedExpr::Lit { location: span(start, end), type_: t }
}

fn var(start: u32, end: u32, name: u64) -> UntypedExpr {
    UntypedExpr::Var { location: span(start, end), name }
}

fn call(start: u32, end: u32, fun: UntypedExpr, args: Vec<UntypedExpr>) -> UntypedExpr {
    let mut list = List::Nil;
    for a in args.into_iter().rev() {
        list = List::Cons(
            CallArg { label: None, location: a.location(), implicit: false, value: a },
            Box::new(list),
        );
    }
    UntypedExpr::Call {
        location: span(start, end),
        fun: Box::new(fun),
        arguments: Box::new(list),
    }
}

fn chain(elements: Vec<UntypedExpr>) -> vec1::Vec1<UntypedExpr> {
    vec1::Vec1::try_from_vec(elements).unwrap()
}

fn pipe_var_arg(start: u32, end: u32, t: Type) -> CallArg<TypedExpr> {
    CallArg {
        label: None,
        location: span(start, end),
        implicit: true,
        value: TypedExpr::Var { location: span(start, end), name: PIPE_VARIABLE, type_: t },
    }
}

fn arg_list(args: Vec<CallArg<TypedExpr>>) -> Box<List<CallArg<TypedExpr>>> {
    let mut list = List::Nil;
    for a in args.into_iter().rev() {
        list = List::Cons(a, Box::new(list));
    }
    Box::new(list)
}

/// `1 |> inc` where `inc : Int -> Int` becomes `inc($pipe)` with one
/// implicit argument.
#[test]
fn two_element_direct_apply() {
    let mut typer = ExprTyper::new();
    typer.insert_local_variable(10, span(0, 0), func(vec![named(INT)], named(INT)));
    let r = PipeTyper::infer(&mut typer, chain(vec![lit(0, 1, named(INT)), var(5, 8, 10)]));
    let te = r.unwrap();
    match te {
        TypedExpr::Pipeline { location, assignments, finally } => {
            assert_eq!(location, span(0, 8));
            assert_eq!(assignments.len(), 1);
            assert_eq!(
                assignments[0],
                Assignment {
                    location: span(0, 1),
                    pattern: Pattern {
                        location: span(0, 1),
                        name: PIPE_VARIABLE,
                        type_: named(INT),
                    },
                    value: TypedExpr::Lit { location: span(0, 1), type_: named(INT) },
                }
            );
            assert_eq!(
                *finally,
                TypedExpr::Call {
                    location: span(5, 8),
                    typ: named(INT),
                    fun: Box::new(TypedExpr::Var {
                        location: span(5, 8),
                        name: 10,
                        type_: func(vec![named(INT)], named(INT)),
                    }),
                    args: arg_list(vec![pipe_var_arg(0, 1, named(INT))]),
                }
            );
        },
        other => panic!("expected a pipeline, got {:?}", other),
    }
}

/// `1 |> f(x)` with `f` of arity 2 becomes `f($pipe, x)`: the threaded
/// value is inserted as an implicit first argument.
#[test]
fn insert_pipe_with_arity_two() {
    let mut typer = ExprTyper::new();
    typer.insert_local_variable(11, span(0, 0), func(vec![named(INT), named(BOOL)], named(STRING)));
    let f = call(5, 12, var(5, 6, 11), vec![lit(7, 11, named(BOOL))]);
    let r = PipeTyper::infer(&mut typer, chain(vec![lit(0, 1, named(INT)), f]));
    match r.unwrap() {
        TypedExpr::Pipeline { assignments, finally, .. } => {
            assert_eq!(assignments.len(), 1);
            assert_eq!(
                *finally,
                TypedExpr::Call {
                    location: span(5, 12),
                    typ: named(STRING),
                    fun: Box::new(TypedExpr::Var {
                        location: span(5, 6),
                        name: 11,
                        type_: func(vec![named(INT), named(BOOL)], named(STRING)),
                    }),
                    args: arg_list(vec![
                        pipe_var_arg(0, 1, named(INT)),
                        CallArg {
                            label: None,
                            location: span(7, 11),
                            implicit: false,
                            value: TypedExpr::Lit { location: span(7, 11), type_: named(BOOL) },
                        },
                    ]),
                }
            );
        },
        other => panic!("expected a pipeline, got {:?}", other),
    }
}

/// `1 |> f(x)` where `f(x)` alone is already saturated becomes
/// `(f(x))($pipe)`.
#[test]
fn apply_to_call_when_saturated() {
    let mut typer = ExprTyper::new();
    let inner_ty = func(vec![named(INT)], named(STRING));
    typer.insert_local_variable(12, span(0, 0), func(vec![named(BOOL)], inner_ty));
    let f = call(5, 12, var(5, 6, 12), vec![lit(7, 11, named(BOOL))]);
    let r = PipeTyper::infer(&mut typer, chain(vec![lit(0, 1, named(INT)), f]));
    match r.unwrap() {
        TypedExpr::Pipeline { finally, .. } => {
            let inner = TypedExpr::Call {
                location: span(5, 12),
                typ: func(vec![named(INT)], named(STRING)),
                fun: Box::new(TypedExpr::Var {
                    location: span(5, 6),
                    name: 12,
                    type_: func(vec![named(BOOL)], func(vec![named(INT)], named(STRING))),
                }),
                args: arg_list(vec![CallArg {
                    label: None,
                    location: span(7, 11),
                    implicit: false,
                    value: TypedExpr::Lit { location: span(7, 11), type_: named(BOOL) },
                }]),
            };
            assert_eq!(
                *finally,
                TypedExpr::Call {
                    location: span(5, 12),
                    typ: named(STRING),
                    fun: Box::new(inner),
                    args: arg_list(vec![pipe_var_arg(0, 1, named(INT))]),
                }
            );
        },
        other => panic!("expected a pipeline, got {:?}", other),
    }
}

/// An N-element chain gives exactly N - 1 bindings and one terminal
/// expression, and the bindings' spans increase in source order.
#[test]
fn binding_count_and_spans() {
    let mut typer = ExprTyper::new();
    typer.insert_local_variable(13, span(0, 0), func(vec![named(INT)], named(BOOL)));
    typer.insert_local_variable(14, span(0, 0), func(vec![named(BOOL)], named(STRING)));
    let r = PipeTyper::infer(
        &mut typer,
        chain(vec![lit(0, 1, named(INT)), var(5, 8, 13), var(12, 15, 14)]),
    );
    match r.unwrap() {
        TypedExpr::Pipeline { location, assignments, finally } => {
            assert_eq!(assignments.len(), 2);
            assert_eq!(location, span(0, 15));
            assert!(assignments[0].location.start < assignments[1].location.start);
            assert_eq!(assignments[0].pattern.type_, named(INT));
            assert_eq!(assignments[1].pattern.type_, named(BOOL));
            // Type threading: each step is checked against the previous
            // step's type, and the terminal expression gets the last
            // function's return type.
            match *finally {
                TypedExpr::Call { typ, args, .. } => {
                    assert_eq!(typ, named(STRING));
                    assert_eq!(*args, *arg_list(vec![pipe_var_arg(5, 8, named(BOOL))]));
                },
                other => panic!("expected a call, got {:?}", other),
            }
        },
        other => panic!("expected a pipeline, got {:?}", other),
    }
}

/// The enclosing scope is identical after the pass: the synthetic
/// variable does not leak, on the success path.
#[test]
fn scope_restored_on_success() {
    let mut typer = ExprTyper::new();
    typer.insert_local_variable(10, span(0, 0), func(vec![named(INT)], named(INT)));
    let before = typer.scope.len();
    let r = PipeTyper::infer(&mut typer, chain(vec![lit(0, 1, named(INT)), var(5, 8, 10)]));
    assert!(r.is_ok());
    assert_eq!(typer.scope.len(), before);
    assert_eq!(typer.lookup_variable(PIPE_VARIABLE), None);
    assert_eq!(typer.lookup_variable(10), Some(func(vec![named(INT)], named(INT))));
}

/// The enclosing scope is identical after the pass on the failure path
/// too.
#[test]
fn scope_restored_on_failure() {
    let mut typer = ExprTyper::new();
    let before = typer.scope.len();
    let r = PipeTyper::infer(&mut typer, chain(vec![lit(0, 1, named(INT)), var(5, 8, 99)]));
    assert_eq!(r, Err(Error::UnknownVariable { location: span(5, 8), name: 99 }));
    assert_eq!(typer.scope.len(), before);
    assert_eq!(typer.lookup_variable(PIPE_VARIABLE), None);
}

/// A step after an unconditional-abort marker is flagged unreachable, and
/// the marker itself is reported as used like a function.
#[test]
fn divergence_flags_next_step_unreachable() {
    let mut typer = ExprTyper::new();
    typer.insert_local_variable(10, span(0, 0), func(vec![named(INT)], named(INT)));
    let r = PipeTyper::infer(
        &mut typer,
        chain(vec![
            lit(0, 1, named(INT)),
            UntypedExpr::Panic { location: span(5, 10) },
            var(14, 17, 10),
        ]),
    );
    assert!(r.is_ok());
    assert!(typer.warnings.contains(&Warning::TodoOrPanicUsedAsFunction {
        kind: TodoOrPanic::Panic,
        location: span(5, 10),
        args_location: Some(span(0, 1)),
        args: 1,
    }));
    assert!(typer
        .warnings
        .contains(&Warning::UnreachableCodeAfterPanic { location: span(14, 17) }));
}

/// Piping into a call of the not-yet-implemented marker warns with the
/// marker's kind and the argument context.
#[test]
fn todo_called_as_function_warns() {
    let mut typer = ExprTyper::new();
    let f = call(5, 12, UntypedExpr::Todo { location: span(5, 9) }, vec![]);
    let r = PipeTyper::infer(&mut typer, chain(vec![lit(0, 1, named(INT)), f]));
    assert!(r.is_ok());
    assert_eq!(
        typer.warnings,
        vec![Warning::TodoOrPanicUsedAsFunction {
            kind: TodoOrPanic::Todo,
            location: span(5, 12),
            args_location: Some(span(0, 1)),
            args: 1,
        }]
    );
}

/// Unifying `fn(Int) -> Bool` against `fn(String) -> Bool` during direct
/// application yields a pipe-specific mismatch tag.
#[test]
fn mismatch_is_tagged_pipe_specific() {
    let mut typer = ExprTyper::new();
    typer.insert_local_variable(15, span(0, 0), func(vec![named(STRING)], named(BOOL)));
    let r = PipeTyper::infer(&mut typer, chain(vec![lit(0, 1, named(INT)), var(5, 8, 15)]));
    match r {
        Err(Error::CouldNotUnify { location, expected, situation, .. }) => {
            assert_eq!(location, span(5, 8));
            assert_eq!(expected, func(vec![named(STRING)], named(BOOL)));
            assert_eq!(situation, Some(UnifyErrorSituation::PipeTypeMismatch));
        },
        other => panic!("expected a unification error, got {:?}", other),
    }
}

/// A function-shape disagreement elsewhere (different arity) stays a
/// generic unification error, with no pipe-specific tag.
#[test]
fn arity_mismatch_is_untagged() {
    let mut typer = ExprTyper::new();
    typer.insert_local_variable(16, span(0, 0), func(vec![named(INT), named(INT)], named(BOOL)));
    let r = PipeTyper::infer(&mut typer, chain(vec![lit(0, 1, named(INT)), var(5, 8, 16)]));
    match r {
        Err(Error::CouldNotUnify { situation, .. }) => {
            assert_eq!(situation, None);
        },
        other => panic!("expected a unification error, got {:?}", other),
    }
}

/// Calling a value with the wrong number of arguments is an arity error.
#[test]
fn wrong_argument_count_is_arity_error() {
    let mut typer = ExprTyper::new();
    typer.insert_local_variable(17, span(0, 0), func(vec![], named(INT)));
    let f = call(5, 12, var(5, 6, 17), vec![lit(7, 11, named(BOOL))]);
    let r = PipeTyper::infer(&mut typer, chain(vec![lit(0, 1, named(INT)), f]));
    assert_eq!(
        r,
        Err(Error::IncorrectArity { location: span(5, 12), expected_arity: 0, given_arity: 1 })
    );
}

/// Calling something that is not a function at all is its own error.
#[test]
fn calling_a_non_function_fails() {
    let mut typer = ExprTyper::new();
    let f = call(5, 12, lit(5, 6, named(INT)), vec![]);
    let r = PipeTyper::infer(&mut typer, chain(vec![lit(0, 1, named(INT)), f]));
    assert_eq!(r, Err(Error::NotFn { location: span(5, 12), type_: named(INT) }));
}

/// An argument that does not fit its parameter is reported at the
/// argument.
#[test]
fn argument_type_mismatch_fails() {
    let mut typer = ExprTyper::new();
    typer.insert_local_variable(18, span(0, 0), func(vec![named(INT), named(BOOL)], named(INT)));
    let f = call(5, 12, var(5, 6, 18), vec![lit(7, 11, named(STRING))]);
    let r = PipeTyper::infer(&mut typer, chain(vec![lit(0, 1, named(INT)), f]));
    assert_eq!(
        r,
        Err(Error::CouldNotUnify {
            location: span(7, 11),
            expected: named(BOOL),
            given: named(STRING),
            situation: None,
        })
    );
}

/// The end-to-end example: `1 |> (fn(x){x+1}) |> int_to_string` produces
/// `let $pipe = 1`, `let $pipe = (fn(x){x+1})($pipe)`, and the terminal
/// `int_to_string($pipe)`, under the chain's overall span.
#[test]
fn example_end_to_end() {
    let mut typer = ExprTyper::new();
    typer.insert_local_variable(20, span(0, 0), func(vec![named(INT)], named(STRING)));
    let lambda = lit(5, 17, func(vec![named(INT)], named(INT)));
    let r = PipeTyper::infer(
        &mut typer,
        chain(vec![lit(0, 1, named(INT)), lambda, var(21, 34, 20)]),
    );
    match r.unwrap() {
        TypedExpr::Pipeline { location, assignments, finally } => {
            assert_eq!(location, span(0, 34));
            assert_eq!(assignments.len(), 2);
            assert_eq!(assignments[0].pattern.name, PIPE_VARIABLE);
            assert_eq!(
                assignments[0].value,
                TypedExpr::Lit { location: span(0, 1), type_: named(INT) }
            );
            assert_eq!(
                assignments[1].value,
                TypedExpr::Call {
                    location: span(5, 17),
                    typ: named(INT),
                    fun: Box::new(TypedExpr::Lit {
                        location: span(5, 17),
                        type_: func(vec![named(INT)], named(INT)),
                    }),
                    args: arg_list(vec![pipe_var_arg(0, 1, named(INT))]),
                }
            );
            assert_eq!(
                *finally,
                TypedExpr::Call {
                    location: span(21, 34),
                    typ: named(STRING),
                    fun: Box::new(TypedExpr::Var {
                        location: span(21, 34),
                        name: 20,
                        type_: func(vec![named(INT)], named(STRING)),
                    }),
                    args: arg_list(vec![pipe_var_arg(5, 17, named(INT))]),
                }
            );
        },
        other => panic!("expected a pipeline, got {:?}", other),
    }
}

/// The checked entry answers `None` for a chain of fewer than two
/// elements and runs the pass otherwise.
#[test]
fn checked_entry_requires_two_elements() {
    let mut typer = ExprTyper::new();
    assert_eq!(
        PipeTyper::infer_checked(&mut typer, chain(vec![lit(0, 1, named(INT))])),
        None
    );
    typer.insert_local_variable(10, span(0, 0), func(vec![named(INT)], named(INT)));
    let r = PipeTyper::infer_checked(
        &mut typer,
        chain(vec![lit(0, 1, named(INT)), var(5, 8, 10)]),
    );
    assert!(matches!(r, Some(Ok(_))));
}

/// The unifier: type variables are compatible with anything, named types
/// only with themselves, function types parameter-wise.
#[test]
fn unifier_basics() {
    assert!(unify(&named(INT), &named(INT)).is_ok());
    assert!(unify(&named(INT), &named(BOOL)).is_err());
    assert!(unify(&Type::Var { id: 7 }, &named(BOOL)).is_ok());
    assert!(unify(&func(vec![named(INT)], named(BOOL)), &func(vec![named(INT)], named(BOOL))).is_ok());
    let e = unify(&func(vec![named(INT)], named(BOOL)), &func(vec![named(STRING)], named(BOOL)));
    assert_eq!(
        e,
        Err(pipe_typer::ast::UnifyError::CouldNotUnify {
            expected: func(vec![named(INT)], named(BOOL)),
            given: func(vec![named(STRING)], named(BOOL)),
        })
    );
}

/// Piping into a marker succeeds with an unconstrained result type: the
/// marker is compatible with any expected type.
#[test]
fn piping_into_todo_succeeds() {
    let mut typer = ExprTyper::new();
    let r = PipeTyper::infer(
        &mut typer,
        chain(vec![lit(0, 1, named(INT)), UntypedExpr::Todo { location: span(5, 9) }]),
    );
    match r.unwrap() {
        TypedExpr::Pipeline { finally, .. } => match *finally {
            TypedExpr::Call { typ, .. } => assert!(matches!(typ, Type::Var { .. })),
            other => panic!("expected a call, got {:?}", other),
        },
        other => panic!("expected a pipeline, got {:?}", other),
    }
}
