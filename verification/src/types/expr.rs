//! Annotated expression trees.

use vstd::prelude::*;

verus! {

/// A literal value.
#[derive(Debug, PartialEq)]
pub enum Prim {
    PBool { bool: bool },
    PInt { int: i32 },
}

impl Clone for Prim {
    fn clone(&self) -> (res: Self)
        ensures
            res == *self,
    {
        match self {
            Prim::PBool { bool: b } => Prim::PBool { bool: *b },
            Prim::PInt { int: n } => Prim::PInt { int: *n },
        }
    }
}

/// An expression whose every node carries an annotation of type `Ann`.
///
/// `ELet` binds `identifier` in `rest_expr` only; `EVar` refers to the
/// innermost enclosing binding of its identifier.
#[derive(Debug, PartialEq)]
pub enum Expr<Ann> {
    EPrim { ann: Ann, prim: Prim },
    EIf { ann: Ann, pred_expr: Box<Self>, then_expr: Box<Self>, else_expr: Box<Self> },
    ELet { ann: Ann, identifier: String, bound_expr: Box<Self>, rest_expr: Box<Self> },
    EVar { ann: Ann, identifier: String },
}

/// The mathematical model of an [`Expr`]: the same tree with identifiers as
/// character sequences.
pub enum ExprView<Ann> {
    Prim { ann: Ann, prim: Prim },
    If {
        ann: Ann,
        pred_expr: Box<ExprView<Ann>>,
        then_expr: Box<ExprView<Ann>>,
        else_expr: Box<ExprView<Ann>>,
    },
    Let {
        ann: Ann,
        identifier: Seq<char>,
        bound_expr: Box<ExprView<Ann>>,
        rest_expr: Box<ExprView<Ann>>,
    },
    Var { ann: Ann, identifier: Seq<char> },
}

impl<Ann> Expr<Ann> {
    /// The model of this expression.
    pub open spec fn model(self) -> ExprView<Ann>
        decreases self,
    {
        match self {
            Expr::EPrim { ann, prim } => ExprView::Prim { ann, prim },
            Expr::EIf { ann, pred_expr, then_expr, else_expr } => ExprView::If {
                ann,
                pred_expr: Box::new(pred_expr.model()),
                then_expr: Box::new(then_expr.model()),
                else_expr: Box::new(else_expr.model()),
            },
            Expr::ELet { ann, identifier, bound_expr, rest_expr } => ExprView::Let {
                ann,
                identifier: identifier@,
                bound_expr: Box::new(bound_expr.model()),
                rest_expr: Box::new(rest_expr.model()),
            },
            Expr::EVar { ann, identifier } => ExprView::Var { ann, identifier: identifier@ },
        }
    }
}

impl<Ann> View for Expr<Ann> {
    type V = ExprView<Ann>;

    open spec fn view(&self) -> ExprView<Ann> {
        self.model()
    }
}

/// The largest of three natural numbers.
pub open spec fn max3(a: nat, b: nat, c: nat) -> nat {
    if a >= b && a >= c {
        a
    } else if b >= c {
        b
    } else {
        c
    }
}

impl<Ann> ExprView<Ann> {
    /// The annotation at the root.
    pub open spec fn annotation(self) -> Ann {
        match self {
            ExprView::Prim { ann, .. } => ann,
            ExprView::If { ann, .. } => ann,
            ExprView::Let { ann, .. } => ann,
            ExprView::Var { ann, .. } => ann,
        }
    }

    /// The same tree with every annotation replaced by `b`.
    pub open spec fn filled<B>(self, b: B) -> ExprView<B>
        decreases self,
    {
        match self {
            ExprView::Prim { prim, .. } => ExprView::Prim { ann: b, prim },
            ExprView::If { pred_expr, then_expr, else_expr, .. } => ExprView::If {
                ann: b,
                pred_expr: Box::new(pred_expr.filled(b)),
                then_expr: Box::new(then_expr.filled(b)),
                else_expr: Box::new(else_expr.filled(b)),
            },
            ExprView::Let { identifier, bound_expr, rest_expr, .. } => ExprView::Let {
                ann: b,
                identifier,
                bound_expr: Box::new(bound_expr.filled(b)),
                rest_expr: Box::new(rest_expr.filled(b)),
            },
            ExprView::Var { identifier, .. } => ExprView::Var { ann: b, identifier },
        }
    }

    /// The tree with its annotations erased.
    pub open spec fn erased(self) -> ExprView<()> {
        self.filled(())
    }

    /// The number of nodes on the longest path from the root to a leaf.
    pub open spec fn height(self) -> nat
        decreases self,
    {
        match self {
            ExprView::Prim { .. } => 0,
            ExprView::If { pred_expr, then_expr, else_expr, .. } => 1 + max3(
                pred_expr.height(),
                then_expr.height(),
                else_expr.height(),
            ),
            ExprView::Let { bound_expr, rest_expr, .. } => 1 + max3(
                bound_expr.height(),
                rest_expr.height(),
                0,
            ),
            ExprView::Var { .. } => 0,
        }
    }

    /// Whether `p` holds of every annotation in the tree.
    pub open spec fn every_annotation(self, p: spec_fn(Ann) -> bool) -> bool
        decreases self,
    {
        match self {
            ExprView::Prim { ann, .. } => p(ann),
            ExprView::If { ann, pred_expr, then_expr, else_expr } => {
                &&& p(ann)
                &&& pred_expr.every_annotation(p)
                &&& then_expr.every_annotation(p)
                &&& else_expr.every_annotation(p)
            },
            ExprView::Let { ann, bound_expr, rest_expr, .. } => {
                &&& p(ann)
                &&& bound_expr.every_annotation(p)
                &&& rest_expr.every_annotation(p)
            },
            ExprView::Var { ann, .. } => p(ann),
        }
    }
}

/// Whether `r` is `e` with each annotation `a` replaced by some `b` that
/// `rel` relates to it: same shape, same literals, same identifiers.
pub open spec fn related<A, B>(e: ExprView<A>, r: ExprView<B>, rel: spec_fn(A, B) -> bool) -> bool
    decreases e,
{
    match e {
        ExprView::Prim { ann, prim } => {
            &&& r matches ExprView::Prim { ann: b, prim: q }
            &&& rel(ann, b)
            &&& q == prim
        },
        ExprView::If { ann, pred_expr, then_expr, else_expr } => {
            &&& r matches ExprView::If { ann: b, pred_expr: p2, then_expr: t2, else_expr: e2 }
            &&& rel(ann, b)
            &&& related(*pred_expr, *p2, rel)
            &&& related(*then_expr, *t2, rel)
            &&& related(*else_expr, *e2, rel)
        },
        ExprView::Let { ann, identifier, bound_expr, rest_expr } => {
            &&& r matches ExprView::Let { ann: b, identifier: i2, bound_expr: b2, rest_expr: r2 }
            &&& rel(ann, b)
            &&& i2 == identifier
            &&& related(*bound_expr, *b2, rel)
            &&& related(*rest_expr, *r2, rel)
        },
        ExprView::Var { ann, identifier } => {
            &&& r matches ExprView::Var { ann: b, identifier: i2 }
            &&& rel(ann, b)
            &&& i2 == identifier
        },
    }
}

/// What holds of every value of the annotation type holds of every
/// annotation in a tree.
pub proof fn lemma_every_annotation<A>(e: ExprView<A>, p: spec_fn(A) -> bool)
    requires
        forall|a: A| #[trigger] p(a),
    ensures
        e.every_annotation(p),
    decreases e,
{
    match e {
        ExprView::Prim { .. } => {},
        ExprView::If { pred_expr, then_expr, else_expr, .. } => {
            lemma_every_annotation(*pred_expr, p);
            lemma_every_annotation(*then_expr, p);
            lemma_every_annotation(*else_expr, p);
        },
        ExprView::Let { bound_expr, rest_expr, .. } => {
            lemma_every_annotation(*bound_expr, p);
            lemma_every_annotation(*rest_expr, p);
        },
        ExprView::Var { .. } => {},
    }
}

/// Where `rel` admits only `c` as an image, a tree related to `e` is `e`
/// filled with `c`.
pub proof fn lemma_related_filled<A, B>(
    e: ExprView<A>,
    r: ExprView<B>,
    rel: spec_fn(A, B) -> bool,
    c: B,
)
    requires
        related(e, r, rel),
        forall|a: A, b: B| #[trigger] rel(a, b) ==> b == c,
    ensures
        r == e.filled(c),
    decreases e,
{
    match e {
        ExprView::Prim { .. } => {},
        ExprView::If { pred_expr, then_expr, else_expr, .. } => {
            if let ExprView::If { pred_expr: p2, then_expr: t2, else_expr: e2, .. } = r {
                lemma_related_filled(*pred_expr, *p2, rel, c);
                lemma_related_filled(*then_expr, *t2, rel, c);
                lemma_related_filled(*else_expr, *e2, rel, c);
            }
        },
        ExprView::Let { bound_expr, rest_expr, .. } => {
            if let ExprView::Let { bound_expr: b2, rest_expr: r2, .. } = r {
                lemma_related_filled(*bound_expr, *b2, rel, c);
                lemma_related_filled(*rest_expr, *r2, rel, c);
            }
        },
        ExprView::Var { .. } => {},
    }
}

/// Related trees differ in their annotations only: erased, they are the
/// same tree.
pub proof fn lemma_related_erased<A, B>(e: ExprView<A>, r: ExprView<B>, rel: spec_fn(A, B) -> bool)
    requires
        related(e, r, rel),
    ensures
        r.erased() == e.erased(),
    decreases e,
{
    match e {
        ExprView::Prim { .. } => {},
        ExprView::If { pred_expr, then_expr, else_expr, .. } => {
            if let ExprView::If { pred_expr: p2, then_expr: t2, else_expr: e2, .. } = r {
                lemma_related_erased(*pred_expr, *p2, rel);
                lemma_related_erased(*then_expr, *t2, rel);
                lemma_related_erased(*else_expr, *e2, rel);
            }
        },
        ExprView::Let { bound_expr, rest_expr, .. } => {
            if let ExprView::Let { bound_expr: b2, rest_expr: r2, .. } = r {
                lemma_related_erased(*bound_expr, *b2, rel);
                lemma_related_erased(*rest_expr, *r2, rel);
            }
        },
        ExprView::Var { .. } => {},
    }
}

impl<Ann: Clone> Clone for Expr<Ann> {
    /// A structural copy: the same tree, each annotation a clone of the one
    /// in its place.
    fn clone(&self) -> (res: Self)
        ensures
            related(self@, res@, |a: Ann, b: Ann| cloned(a, b)),
        decreases self,
    {
        match self {
            Expr::EPrim { ann, prim } => Expr::EPrim { ann: ann.clone(), prim: prim.clone() },
            Expr::EIf { ann, pred_expr, then_expr, else_expr } => Expr::EIf {
                ann: ann.clone(),
                pred_expr: Box::new((&**pred_expr).clone()),
                then_expr: Box::new((&**then_expr).clone()),
                else_expr: Box::new((&**else_expr).clone()),
            },
            Expr::ELet { ann, identifier, bound_expr, rest_expr } => Expr::ELet {
                ann: ann.clone(),
                identifier: identifier.clone(),
                bound_expr: Box::new((&**bound_expr).clone()),
                rest_expr: Box::new((&**rest_expr).clone()),
            },
            Expr::EVar { ann, identifier } => Expr::EVar {
                ann: ann.clone(),
                identifier: identifier.clone(),
            },
        }
    }
}

/// Applies `f` to every annotation of `expr`, keeping its structure.
pub fn map_expr<F, A, B>(expr: Expr<A>, f: F) -> (res: Expr<B>) where
    F: FnOnce(A) -> B + Copy,
    A: Clone,
    B: Clone,

    requires
        expr@.every_annotation(|a: A| call_requires(f, (a,))),
    ensures
        related(expr@, res@, |a: A, b: B| call_ensures(f, (a,), b)),
    decreases expr,
{
    match expr {
        Expr::EPrim { ann, prim } => Expr::EPrim { ann: f(ann), prim },
        Expr::EVar { ann, identifier } => Expr::EVar { ann: f(ann), identifier },
        Expr::EIf { ann, pred_expr, then_expr, else_expr } => Expr::EIf {
            ann: f(ann),
            pred_expr: Box::new(map_expr(*pred_expr, f)),
            then_expr: Box::new(map_expr(*then_expr, f)),
            else_expr: Box::new(map_expr(*else_expr, f)),
        },
        Expr::ELet { ann, identifier, bound_expr, rest_expr } => Expr::ELet {
            ann: f(ann),
            identifier,
            bound_expr: Box::new(map_expr(*bound_expr, f)),
            rest_expr: Box::new(map_expr(*rest_expr, f)),
        },
    }
}

/// The annotation at the root of `expr`.
pub fn get_expr_annotation<Ann>(expr: Expr<Ann>) -> (ann: Ann)
    ensures
        ann == expr@.annotation(),
{
    match expr {
        Expr::EPrim { ann, .. } => ann,
        Expr::EIf { ann, .. } => ann,
        Expr::ELet { ann, .. } => ann,
        Expr::EVar { ann, .. } => ann,
    }
}

} // verus!
