use vstd::prelude::*;

verus! {

/// The reserved identifier that names the threaded pipe value during type
/// checking. Identifiers are interned as integers; user source is never
/// given this one, so bindings of it cannot collide with user bindings.
pub const PIPE_VARIABLE: u64 = 0;

/// A half-open span of source text, `start..end`.
#[derive(Clone, Copy, PartialEq, Eq, Structural, Debug)]
pub struct SrcSpan {
    pub start: u32,
    pub end: u32,
}

impl SrcSpan {
    pub fn new(start: u32, end: u32) -> (s: SrcSpan)
        ensures
            s == (SrcSpan { start, end }),
    {
        SrcSpan { start, end }
    }
}

/// A singly linked list. Argument and parameter sequences are kept in this
/// form rather than in `Vec` so that structural equality of whole syntax
/// trees is available to specifications.
#[derive(PartialEq, Eq, Debug)]
pub enum List<T> {
    Nil,
    Cons(T, Box<List<T>>),
}

impl<T> List<T> {
    /// Length as a mathematical integer.
    pub open spec fn len(self) -> nat
        decreases self,
    {
        match self {
            List::Nil => 0,
            List::Cons(_, tail) => 1 + tail.len(),
        }
    }

    /// The element at position `i` (meaningful for `0 <= i < len`).
    pub open spec fn index(self, i: int) -> T
        recommends
            0 <= i < self.len(),
        decreases self,
    {
        match self {
            List::Nil => arbitrary(),
            List::Cons(head, tail) => if i == 0 {
                head
            } else {
                tail.index(i - 1)
            },
        }
    }

    /// Length, capped at `u64::MAX`; lists anywhere near the cap are not
    /// representable in memory, and the cap keeps the count total.
    pub open spec fn spec_count(self) -> u64
        decreases self,
    {
        match self {
            List::Nil => 0u64,
            List::Cons(_, tail) => {
                let n = tail.spec_count();
                if n == u64::MAX {
                    n
                } else {
                    (n + 1) as u64
                }
            },
        }
    }

    /// Counts the elements.
    pub fn count(&self) -> (n: u64)
        ensures
            n == self.spec_count(),
        decreases *self,
    {
        match self {
            List::Nil => 0,
            List::Cons(_, tail) => {
                let n: u64 = tail.count();
                if n == u64::MAX {
                    n
                } else {
                    n + 1
                }
            },
        }
    }

    /// Do two lists have the same length?
    pub open spec fn same_len<U>(self, other: List<U>) -> bool
        decreases self,
    {
        match (self, other) {
            (List::Nil, List::Nil) => true,
            (List::Cons(_, t1), List::Cons(_, t2)) => t1.same_len(*t2),
            _ => false,
        }
    }

    /// Is this list exactly one element longer than `other`?
    pub open spec fn one_longer<U>(self, other: List<U>) -> bool {
        match self {
            List::Nil => false,
            List::Cons(_, tail) => tail.same_len(other),
        }
    }
}

/// A type of the object language. Type variables stand for not yet
/// constrained types: a placeholder produced by the fresh-variable
/// allocator, or the type given to a divergent marker expression.
#[derive(PartialEq, Eq, Debug)]
pub enum Type {
    /// A concrete named type (an interned type constructor).
    Named { id: u64 },
    /// A function type with parameter types `args` and return type `ret`.
    Func { args: Box<List<Type>>, ret: Box<Type> },
    /// An unconstrained type variable.
    Var { id: u64 },
}

/// One argument of a call. `implicit` marks arguments synthesized by the
/// compiler (the piped value) as opposed to ones the programmer wrote.
#[derive(PartialEq, Eq, Debug)]
pub struct CallArg<T> {
    pub label: Option<u64>,
    pub location: SrcSpan,
    pub implicit: bool,
    pub value: T,
}

/// An expression as the parser hands it over, before type checking.
#[derive(PartialEq, Eq, Debug)]
pub enum UntypedExpr {
    /// A literal whose type is immediate from its lexical form, including
    /// annotated anonymous functions.
    Lit { location: SrcSpan, type_: Type },
    /// A reference to a variable.
    Var { location: SrcSpan, name: u64 },
    /// A call `fun(arguments...)`.
    Call { location: SrcSpan, fun: Box<UntypedExpr>, arguments: Box<List<CallArg<UntypedExpr>>> },
    /// The not-yet-implemented marker; compatible with any expected type.
    Todo { location: SrcSpan },
    /// The unconditional-abort marker; compatible with any expected type.
    Panic { location: SrcSpan },
}

impl UntypedExpr {
    pub open spec fn spec_location(self) -> SrcSpan {
        match self {
            UntypedExpr::Lit { location, .. } => location,
            UntypedExpr::Var { location, .. } => location,
            UntypedExpr::Call { location, .. } => location,
            UntypedExpr::Todo { location } => location,
            UntypedExpr::Panic { location } => location,
        }
    }

    pub fn location(&self) -> (l: SrcSpan)
        ensures
            l == self.spec_location(),
    {
        match self {
            UntypedExpr::Lit { location, .. } => *location,
            UntypedExpr::Var { location, .. } => *location,
            UntypedExpr::Call { location, .. } => *location,
            UntypedExpr::Todo { location } => *location,
            UntypedExpr::Panic { location } => *location,
        }
    }

    /// Does evaluating this expression always diverge? True of the markers
    /// themselves and of calls whose callee diverges.
    pub open spec fn spec_diverges(self) -> bool
        decreases self,
    {
        match self {
            UntypedExpr::Todo { .. } => true,
            UntypedExpr::Panic { .. } => true,
            UntypedExpr::Call { fun, .. } => fun.spec_diverges(),
            _ => false,
        }
    }
}

/// An expression after type checking.
#[derive(PartialEq, Eq, Debug)]
pub enum TypedExpr {
    Lit { location: SrcSpan, type_: Type },
    Var { location: SrcSpan, name: u64, type_: Type },
    Call { location: SrcSpan, typ: Type, fun: Box<TypedExpr>, args: Box<List<CallArg<TypedExpr>>> },
    Todo { location: SrcSpan, type_: Type },
    Panic { location: SrcSpan, type_: Type },
    /// The rewritten form of a pipe chain: the bindings of the threaded
    /// value, in order, and the terminal expression.
    Pipeline { location: SrcSpan, assignments: Vec<Assignment>, finally: Box<TypedExpr> },
}

/// The pattern of a pipe binding: it always names the synthetic variable.
#[derive(PartialEq, Eq, Debug)]
pub struct Pattern {
    pub location: SrcSpan,
    pub name: u64,
    pub type_: Type,
}

/// One `let`-style binding produced for a pipeline element.
#[derive(PartialEq, Eq, Debug)]
pub struct Assignment {
    pub location: SrcSpan,
    pub pattern: Pattern,
    pub value: TypedExpr,
}

impl TypedExpr {
    pub open spec fn spec_location(self) -> SrcSpan {
        match self {
            TypedExpr::Lit { location, .. } => location,
            TypedExpr::Var { location, .. } => location,
            TypedExpr::Call { location, .. } => location,
            TypedExpr::Todo { location, .. } => location,
            TypedExpr::Panic { location, .. } => location,
            TypedExpr::Pipeline { location, .. } => location,
        }
    }

    pub fn location(&self) -> (l: SrcSpan)
        ensures
            l == self.spec_location(),
    {
        match self {
            TypedExpr::Lit { location, .. } => *location,
            TypedExpr::Var { location, .. } => *location,
            TypedExpr::Call { location, .. } => *location,
            TypedExpr::Todo { location, .. } => *location,
            TypedExpr::Panic { location, .. } => *location,
            TypedExpr::Pipeline { location, .. } => *location,
        }
    }

    /// The type of the expression. A pipeline has the type of its terminal
    /// expression.
    pub open spec fn spec_type(self) -> Type
        decreases self,
    {
        match self {
            TypedExpr::Lit { type_, .. } => type_,
            TypedExpr::Var { type_, .. } => type_,
            TypedExpr::Call { typ, .. } => typ,
            TypedExpr::Todo { type_, .. } => type_,
            TypedExpr::Panic { type_, .. } => type_,
            TypedExpr::Pipeline { finally, .. } => finally.spec_type(),
        }
    }

    /// Does evaluating this expression always diverge?
    pub open spec fn spec_diverges(self) -> bool
        decreases self,
    {
        match self {
            TypedExpr::Todo { .. } => true,
            TypedExpr::Panic { .. } => true,
            TypedExpr::Call { fun, .. } => fun.spec_diverges(),
            _ => false,
        }
    }

    /// Decides `spec_diverges`.
    pub fn is_divergent(&self) -> (r: bool)
        ensures
            r == self.spec_diverges(),
        decreases *self,
    {
        match self {
            TypedExpr::Todo { .. } => true,
            TypedExpr::Panic { .. } => true,
            TypedExpr::Call { fun, .. } => fun.is_divergent(),
            _ => false,
        }
    }
}

/// Deep copy of a type, needed because types are kept both in the scope
/// store and in the syntax tree.
pub fn clone_type(t: &Type) -> (r: Type)
    ensures
        r == *t,
    decreases *t,
{
    match t {
        Type::Named { id } => Type::Named { id: *id },
        Type::Var { id } => Type::Var { id: *id },
        Type::Func { args, ret } => Type::Func {
            args: Box::new(clone_type_list(args)),
            ret: Box::new(clone_type(ret)),
        },
    }
}

/// Deep copy of a list of types.
pub fn clone_type_list(l: &List<Type>) -> (r: List<Type>)
    ensures
        r == *l,
    decreases *l,
{
    match l {
        List::Nil => List::Nil,
        List::Cons(head, tail) => List::Cons(clone_type(head), Box::new(clone_type_list(tail))),
    }
}

/// The two flavours of divergent marker, distinguished in diagnostics.
#[derive(Clone, Copy, PartialEq, Eq, Structural, Debug)]
pub enum TodoOrPanic {
    Todo,
    Panic,
}

/// Non-fatal diagnostics accumulated by the warning sink.
#[derive(PartialEq, Eq, Debug)]
pub enum Warning {
    /// A divergent marker stands where a callable is expected; `args` is
    /// how many arguments the surrounding construct supplies to it.
    TodoOrPanicUsedAsFunction {
        kind: TodoOrPanic,
        location: SrcSpan,
        args_location: Option<SrcSpan>,
        args: u64,
    },
    /// Code that follows an expression which always diverges.
    UnreachableCodeAfterPanic { location: SrcSpan },
}

/// A failure reported by the unifier: the two types could not be made equal.
#[derive(PartialEq, Eq, Debug)]
pub enum UnifyError {
    CouldNotUnify { expected: Type, given: Type },
}

/// Extra classification attached to a unification failure.
#[derive(Clone, Copy, PartialEq, Eq, Structural, Debug)]
pub enum UnifyErrorSituation {
    /// The value piped in does not fit the first parameter of the target.
    PipeTypeMismatch,
}

/// A fatal type-checking error; the pass aborts on the first one.
#[derive(PartialEq, Eq, Debug)]
pub enum Error {
    UnknownVariable { location: SrcSpan, name: u64 },
    NotFn { location: SrcSpan, type_: Type },
    IncorrectArity { location: SrcSpan, expected_arity: u64, given_arity: u64 },
    CouldNotUnify {
        location: SrcSpan,
        expected: Type,
        given: Type,
        situation: Option<UnifyErrorSituation>,
    },
}

} // verus!
