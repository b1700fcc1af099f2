//! Types of the expression language.

use vstd::prelude::*;

verus! {

/// A type of the language, carrying the annotation of the expression it was
/// synthesized from. Annotations record provenance only: two types are
/// compatible when they agree once annotations are erased.
#[derive(Debug, PartialEq, Copy)]
pub enum Type<Ann> where Ann: Clone + Copy {
    TInt { ann: Ann },
    TBool { ann: Ann },
}

impl<Ann: Clone + Copy> Clone for Type<Ann> {
    fn clone(&self) -> (res: Self)
        ensures
            res == *self,
    {
        *self
    }
}

impl<Ann: Clone + Copy> Type<Ann> {
    /// The annotation this type carries.
    pub open spec fn annotation(self) -> Ann {
        match self {
            Type::TInt { ann } => ann,
            Type::TBool { ann } => ann,
        }
    }

    /// The same type constructor carrying annotation `ann`.
    pub open spec fn with_annotation<B: Clone + Copy>(self, ann: B) -> Type<B> {
        match self {
            Type::TInt { .. } => Type::TInt { ann },
            Type::TBool { .. } => Type::TBool { ann },
        }
    }

    /// The type with its annotation erased.
    pub open spec fn erased(self) -> Type<()> {
        self.with_annotation(())
    }

    /// Compatibility: equality after annotation erasure.
    pub open spec fn compatible(self, other: Type<Ann>) -> bool {
        self.erased() == other.erased()
    }
}

/// Applies `f` to the annotation of `a`, keeping the type constructor.
pub fn map_type<F, A, B>(a: Type<A>, f: F) -> (r: Type<B>) where
    F: FnOnce(A) -> B,
    A: Clone + Copy,
    B: Clone + Copy,

    requires
        call_requires(f, (a.annotation(),)),
    ensures
        r.erased() == a.erased(),
        call_ensures(f, (a.annotation(),), r.annotation()),
{
    match a {
        Type::TInt { ann } => Type::TInt { ann: f(ann) },
        Type::TBool { ann } => Type::TBool { ann: f(ann) },
    }
}

/// Erases the annotation of a type.
pub fn remove_type_annotation<Ann>(ty: Type<Ann>) -> (r: Type<()>) where Ann: Clone + Copy
    ensures
        r == ty.erased(),
{
    map_type(ty, |_a: Ann| -> (u: ()) { () })
}

} // verus!
