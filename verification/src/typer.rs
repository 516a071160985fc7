use vstd::prelude::*;
use crate::ast::{clone_type, SrcSpan, Type, Warning};

verus! {

/// One binding of the variable-scope table.
#[derive(PartialEq, Eq, Debug)]
pub struct ScopeEntry {
    pub name: u64,
    pub location: SrcSpan,
    pub type_: Type,
}

/// The binding of `name` that a lookup sees: the newest entry wins.
pub open spec fn scope_lookup(s: Seq<ScopeEntry>, name: u64) -> Option<Type>
    decreases s.len(),
{
    if s.len() == 0 {
        None
    } else if s.last().name == name {
        Some(s.last().type_)
    } else {
        scope_lookup(s.drop_last(), name)
    }
}

/// Appending an entry shadows exactly the bindings of its name.
pub proof fn lemma_scope_lookup_push(s: Seq<ScopeEntry>, e: ScopeEntry, name: u64)
    ensures
        scope_lookup(s.push(e), name) == if e.name == name {
            Some(e.type_)
        } else {
            scope_lookup(s, name)
        },
{
    assert(s.push(e).last() == e);
    assert(s.push(e).drop_last() =~= s);
}

/// The expression typer: the ambient state that type checking threads
/// through every inference step. It owns the variable scope, the warning
/// sink and the fresh-type-variable counter, and remembers whether the
/// expression typed last diverges unconditionally.
pub struct ExprTyper {
    pub scope: Vec<ScopeEntry>,
    pub warnings: Vec<Warning>,
    pub next_var: u64,
    pub previous_panics: bool,
}

/// The fresh-variable counter after one allocation. It is saturating: the
/// counter cannot be exhausted by any list of expressions that fits in
/// memory, and saturation keeps the allocator total.
pub open spec fn bump(nv: u64) -> u64 {
    if nv == u64::MAX {
        nv
    } else {
        (nv + 1) as u64
    }
}

impl ExprTyper {
    /// A typer over an empty scope.
    pub fn new() -> (t: ExprTyper)
        ensures
            t.scope@ == Seq::<ScopeEntry>::empty(),
            t.warnings@ == Seq::<Warning>::empty(),
            t.next_var == 1u64,
            t.previous_panics == false,
    {
        ExprTyper { scope: Vec::new(), warnings: Vec::new(), next_var: 1, previous_panics: false }
    }

    /// The current binding of `name`, if any.
    pub fn lookup_variable(&self, name: u64) -> (r: Option<Type>)
        ensures
            r == scope_lookup(self.scope@, name),
    {
        let mut i: usize = self.scope.len();
        proof {
            assert(self.scope@.subrange(0, self.scope@.len() as int) =~= self.scope@);
        }
        while i > 0
            invariant
                i <= self.scope@.len(),
                scope_lookup(self.scope@, name) == scope_lookup(
                    self.scope@.subrange(0, i as int),
                    name,
                ),
            decreases i,
        {
            let entry = &self.scope[i - 1];
            proof {
                let sub = self.scope@.subrange(0, i as int);
                assert(sub.last() == self.scope@[i - 1]);
                assert(sub.drop_last() =~= self.scope@.subrange(0, i - 1));
            }
            if entry.name == name {
                return Some(clone_type(&entry.type_));
            }
            i = i - 1;
        }
        proof {
            assert(self.scope@.subrange(0, 0) =~= Seq::<ScopeEntry>::empty());
        }
        None
    }

    /// Binds `name` in the scope, shadowing any earlier binding of it.
    pub fn insert_local_variable(&mut self, name: u64, location: SrcSpan, type_: Type)
        ensures
            final(self).scope@ == old(self).scope@.push(
                ScopeEntry { name, location, type_ },
            ),
            final(self).warnings@ == old(self).warnings@,
            final(self).next_var == old(self).next_var,
            final(self).previous_panics == old(self).previous_panics,
    {
        self.scope.push(ScopeEntry { name, location, type_ });
    }

    /// Snapshots the scope; `restore_scope` undoes everything bound since.
    pub fn snapshot_scope(&self) -> (h: usize)
        ensures
            h == self.scope@.len(),
    {
        self.scope.len()
    }

    /// Restores the scope to an earlier snapshot. Bindings are only ever
    /// appended, so cutting the table back is a full restoration.
    pub fn restore_scope(&mut self, h: usize)
        requires
            h <= old(self).scope@.len(),
        ensures
            final(self).scope@ == old(self).scope@.subrange(0, h as int),
            final(self).warnings@ == old(self).warnings@,
            final(self).next_var == old(self).next_var,
            final(self).previous_panics == old(self).previous_panics,
    {
        self.scope.truncate(h);
    }

    /// Produces a fresh, unconstrained type variable.
    pub fn new_unbound_var(&mut self) -> (t: Type)
        ensures
            t == (Type::Var { id: old(self).next_var }),
            final(self).next_var == bump(old(self).next_var),
            final(self).scope@ == old(self).scope@,
            final(self).warnings@ == old(self).warnings@,
            final(self).previous_panics == old(self).previous_panics,
    {
        let id = self.next_var;
        if self.next_var < u64::MAX {
            self.next_var = self.next_var + 1;
        }
        Type::Var { id }
    }

    /// The warning sink: records a non-fatal diagnostic.
    pub fn emit_warning(&mut self, warning: Warning)
        ensures
            final(self).warnings@ == old(self).warnings@.push(warning),
            final(self).scope@ == old(self).scope@,
            final(self).next_var == old(self).next_var,
            final(self).previous_panics == old(self).previous_panics,
    {
        self.warnings.push(warning);
    }

    /// Warns that the code at `location` can never run because the
    /// expression before it always diverges.
    pub fn warn_for_unreachable_code(&mut self, location: SrcSpan)
        ensures
            final(self).warnings@ == old(self).warnings@.push(
                Warning::UnreachableCodeAfterPanic { location },
            ),
            final(self).scope@ == old(self).scope@,
            final(self).next_var == old(self).next_var,
            final(self).previous_panics == old(self).previous_panics,
    {
        self.emit_warning(Warning::UnreachableCodeAfterPanic { location });
    }
}

} // verus!
