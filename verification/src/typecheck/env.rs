//! The typing environment: a stack of bindings, innermost last.

use crate::types::ty::Type;
use vstd::prelude::*;

verus! {

/// The mapping that a stack of bindings denotes: a later binding of a name
/// hides an earlier one.
pub open spec fn bindings_map<Ann: Clone + Copy>(scopes: Seq<(Seq<char>, Type<Ann>)>) -> Map<
    Seq<char>,
    Type<Ann>,
>
    decreases scopes.len(),
{
    if scopes.len() == 0 {
        Map::empty()
    } else {
        bindings_map(scopes.drop_last()).insert(scopes.last().0, scopes.last().1)
    }
}

/// A typing environment. Bindings are pushed when a scope is entered and
/// popped when it is left, so an inner binding hides an outer one of the
/// same name without destroying it.
pub struct Env<Ann> where Ann: Clone + Copy {
    bindings: Vec<(String, Type<Ann>)>,
}

impl<Ann: Clone + Copy> Env<Ann> {
    /// The bindings in scope, outermost first.
    pub closed spec fn scopes(&self) -> Seq<(Seq<char>, Type<Ann>)> {
        Seq::new(self.bindings@.len(), |i: int| (self.bindings@[i].0@, self.bindings@[i].1))
    }

    /// An environment without bindings.
    pub fn new() -> (env: Self)
        ensures
            env.scopes() == Seq::<(Seq<char>, Type<Ann>)>::empty(),
            env@ == Map::<Seq<char>, Type<Ann>>::empty(),
    {
        let env = Env { bindings: Vec::new() };
        assert(env.scopes() =~= Seq::empty());
        env
    }

    /// Enters a scope in which `name` has type `ty`.
    pub fn push(&mut self, name: String, ty: Type<Ann>)
        ensures
            final(self).scopes() == old(self).scopes().push((name@, ty)),
            final(self)@ == old(self)@.insert(name@, ty),
    {
        self.bindings.push((name, ty));
        assert(self.scopes() =~= old(self).scopes().push((name@, ty)));
        assert(self.scopes().drop_last() =~= old(self).scopes());
    }

    /// Leaves the innermost scope, if there is one.
    pub fn pop(&mut self)
        ensures
            final(self).scopes() == if old(self).scopes().len() > 0 {
                old(self).scopes().drop_last()
            } else {
                old(self).scopes()
            },
    {
        self.bindings.pop();
        proof {
            if old(self).scopes().len() > 0 {
                assert(self.scopes() =~= old(self).scopes().drop_last());
            } else {
                assert(self.scopes() =~= old(self).scopes());
            }
        }
    }

    /// The type bound to `name` by the innermost binding of it, if any.
    pub fn lookup(&self, name: &String) -> (found: Option<Type<Ann>>)
        ensures
            found == (if self@.dom().contains(name@) {
                Some(self@[name@])
            } else {
                None
            }),
    {
        let mut i: usize = self.bindings.len();
        assert(self.scopes().take(i as int) =~= self.scopes());
        while i > 0
            invariant
                i <= self.bindings@.len(),
                bindings_map(self.scopes()).dom().contains(name@) <==> bindings_map(
                    self.scopes().take(i as int),
                ).dom().contains(name@),
                bindings_map(self.scopes()).dom().contains(name@) ==> bindings_map(
                    self.scopes(),
                )[name@] == bindings_map(self.scopes().take(i as int))[name@],
            decreases i,
        {
            let ghost prefix = self.scopes().take(i as int);
            assert(prefix.drop_last() =~= self.scopes().take(i - 1));
            i = i - 1;
            if self.bindings[i].0 == *name {
                return Some(self.bindings[i].1);
            }
        }
        assert(self.scopes().take(0) =~= Seq::empty());
        None
    }
}

impl<Ann: Clone + Copy> View for Env<Ann> {
    type V = Map<Seq<char>, Type<Ann>>;

    open spec fn view(&self) -> Map<Seq<char>, Type<Ann>> {
        bindings_map(self.scopes())
    }
}

} // verus!
