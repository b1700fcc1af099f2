//! Errors of type elaboration.

use super::ty::Type;
use vstd::prelude::*;

verus! {

/// Why an expression failed to elaborate.
#[derive(Debug, PartialEq)]
pub enum TypeError<Ann> where Ann: Clone + Copy {
    /// The predicate of the conditional annotated `ann` has type `found`,
    /// which is not boolean.
    PredicateShouldBeBool { ann: Ann, found: Type<Ann> },
    /// The branches of the conditional annotated `ann` have incompatible
    /// types.
    MismatchedIfBranches { ann: Ann, then_found: Type<Ann>, else_found: Type<Ann> },
    /// Two types that had to be compatible are not.
    TypeMismatch { type_a: Type<Ann>, type_b: Type<Ann> },
    /// A variable is used outside the body of any binding of its name.
    UnboundVariable { name: String },
}

/// The mathematical model of a [`TypeError`]: names are character sequences.
pub enum TypeErrorView<Ann> where Ann: Clone + Copy {
    PredicateShouldBeBool { ann: Ann, found: Type<Ann> },
    MismatchedIfBranches { ann: Ann, then_found: Type<Ann>, else_found: Type<Ann> },
    TypeMismatch { type_a: Type<Ann>, type_b: Type<Ann> },
    UnboundVariable { name: Seq<char> },
}

impl<Ann: Clone + Copy> View for TypeError<Ann> {
    type V = TypeErrorView<Ann>;

    open spec fn view(&self) -> TypeErrorView<Ann> {
        match self {
            TypeError::PredicateShouldBeBool { ann, found } => {
                TypeErrorView::PredicateShouldBeBool { ann: *ann, found: *found }
            },
            TypeError::MismatchedIfBranches { ann, then_found, else_found } => {
                TypeErrorView::MismatchedIfBranches {
                    ann: *ann,
                    then_found: *then_found,
                    else_found: *else_found,
                }
            },
            TypeError::TypeMismatch { type_a, type_b } => TypeErrorView::TypeMismatch {
                type_a: *type_a,
                type_b: *type_b,
            },
            TypeError::UnboundVariable { name } => TypeErrorView::UnboundVariable { name: name@ },
        }
    }
}

} // verus!
