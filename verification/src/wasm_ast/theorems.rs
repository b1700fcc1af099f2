//! The textual form determines the tree: rendering loses nothing, so that
//! reading a text back can give but the tree that was rendered.

use super::pretty::{decimal, digits};
use super::types::{BinaryOp, Number, Type, Value, WasmModule};
use vstd::prelude::*;

verus! {

/// Whether `c` is a decimal digit.
spec fn is_digit(c: char) -> bool {
    '0' <= c <= '9'
}

/// The number that a sequence of decimal digits denotes.
spec fn digits_value(s: Seq<char>) -> int
    decreases s.len(),
{
    if s.len() == 0 {
        0
    } else {
        digits_value(s.drop_last()) * 10 + (s.last() as int - '0' as int)
    }
}

/// Texts that are equal and begin with parts of one length have equal
/// parts and equal rests.
proof fn lemma_cancel_prefix(p: Seq<char>, u: Seq<char>, q: Seq<char>, v: Seq<char>)
    requires
        p + u == q + v,
        p.len() == q.len(),
    ensures
        p == q,
        u == v,
{
    assert(p =~= (p + u).take(p.len() as int));
    assert(q =~= (q + v).take(q.len() as int));
    assert(u =~= (p + u).skip(p.len() as int));
    assert(v =~= (q + v).skip(q.len() as int));
}

/// The digits of a number are decimal digits, and there is one at least.
proof fn lemma_digits_are_digits(n: nat)
    ensures
        digits(n).len() >= 1,
        forall|k: int| 0 <= k < digits(n).len() ==> is_digit(#[trigger] digits(n)[k]),
    decreases n,
{
    if n >= 10 {
        lemma_digits_are_digits(n / 10);
    }
}

/// The digits of a number denote the number.
proof fn lemma_digits_value(n: nat)
    ensures
        digits_value(digits(n)) == n,
    decreases n,
{
    if n < 10 {
        assert(digits(n).drop_last() =~= Seq::empty());
        reveal_with_fuel(digits_value, 2);
    } else {
        lemma_digits_value(n / 10);
        assert(digits(n).drop_last() =~= digits(n / 10));
    }
}

/// Where the digits of two numbers are each followed by a character that
/// is no digit, equal texts hold equal numbers and equal rests.
proof fn lemma_digits_prefix_free(n: nat, m: nat, r1: Seq<char>, r2: Seq<char>)
    requires
        digits(n) + r1 == digits(m) + r2,
        r1.len() > 0 && !is_digit(r1[0]),
        r2.len() > 0 && !is_digit(r2[0]),
    ensures
        n == m,
        r1 == r2,
{
    lemma_digits_are_digits(n);
    lemma_digits_are_digits(m);
    let ln = digits(n).len() as int;
    let lm = digits(m).len() as int;
    if ln < lm {
        assert((digits(n) + r1)[ln] == r1[0]);
        assert((digits(m) + r2)[ln] == digits(m)[ln]);
    }
    if lm < ln {
        assert((digits(m) + r2)[lm] == r2[0]);
        assert((digits(n) + r1)[lm] == digits(n)[lm]);
    }
    lemma_cancel_prefix(digits(n), r1, digits(m), r2);
    lemma_digits_value(n);
    lemma_digits_value(m);
}

/// Where the decimal forms of two integers are each followed by a
/// character that is no digit, equal texts hold equal integers and equal
/// rests.
proof fn lemma_decimal_prefix_free(i: int, j: int, r1: Seq<char>, r2: Seq<char>)
    requires
        decimal(i) + r1 == decimal(j) + r2,
        r1.len() > 0 && !is_digit(r1[0]),
        r2.len() > 0 && !is_digit(r2[0]),
    ensures
        i == j,
        r1 == r2,
{
    let minus = seq!['-'];
    if i < 0 {
        lemma_digits_are_digits((-i) as nat);
        assert(decimal(i) + r1 =~= minus + (digits((-i) as nat) + r1));
        assert((decimal(i) + r1)[0] == '-');
    } else {
        lemma_digits_are_digits(i as nat);
        assert((decimal(i) + r1)[0] == digits(i as nat)[0]);
    }
    if j < 0 {
        lemma_digits_are_digits((-j) as nat);
        assert(decimal(j) + r2 =~= minus + (digits((-j) as nat) + r2));
        assert((decimal(j) + r2)[0] == '-');
    } else {
        lemma_digits_are_digits(j as nat);
        assert((decimal(j) + r2)[0] == digits(j as nat)[0]);
    }
    if i < 0 {
        lemma_cancel_prefix(
            minus,
            digits((-i) as nat) + r1,
            minus,
            digits((-j) as nat) + r2,
        );
        lemma_digits_prefix_free((-i) as nat, (-j) as nat, r1, r2);
    } else {
        lemma_digits_prefix_free(i as nat, j as nat, r1, r2);
    }
}

/// How the text of a constant begins.
spec fn const_head() -> Seq<char> {
    "("@ + "i32.const "@
}

/// How the text of an operator with operands begins.
spec fn binary_head(op: BinaryOp) -> Seq<char> {
    "("@ + op.text() + " "@
}

/// How the text of a selection begins.
spec fn select_head() -> Seq<char> {
    "("@ + "select "@
}

/// The text of a tree, with something behind it, in its parts: how it
/// begins and, between the operands, what follows each.
proof fn lemma_text_parts(v: Value, x: Seq<char>)
    ensures
        (v.text() + x).len() >= 6,
        match v {
            Value::Const(Number::I32(i)) => {
                &&& v.text() + x == const_head() + (decimal(i as int) + (")"@ + x))
                &&& (v.text() + x)[1] == 'i'
                &&& (v.text() + x)[5] == 'c'
            },
            Value::BinaryOp { op, left, right } => {
                &&& v.text() + x == binary_head(op) + (left.text() + (" "@ + (right.text() + (")"@
                    + x))))
                &&& binary_head(op).len() == 8
                &&& (v.text() + x)[1] == 'i'
                &&& (v.text() + x)[5] == 'e'
            },
            Value::Select { pred_expr, then_expr, else_expr } => {
                &&& v.text() + x == select_head() + (then_expr.text() + (" "@ + (else_expr.text()
                    + (" "@ + (pred_expr.text() + (")"@ + x))))))
                &&& (v.text() + x)[1] == 's'
            },
        },
{
    reveal_strlit("(");
    reveal_strlit(" ");
    reveal_strlit("i32.const ");
    reveal_strlit("select ");
    reveal_strlit("i32");
    reveal_strlit("i64");
    reveal_strlit(".eq");
    match v {
        Value::Const(Number::I32(i)) => {
            let head = const_head();
            let tail = decimal(i as int) + (")"@ + x);
            assert(v.text() + x =~= head + tail);
            assert(head.len() == 11);
            assert((head + tail)[1] == head[1]);
            assert((head + tail)[5] == head[5]);
        },
        Value::BinaryOp { op, left, right } => {
            let head = binary_head(op);
            let tail = left.text() + (" "@ + (right.text() + (")"@ + x)));
            assert(v.text() + x =~= head + tail);
            assert(head.len() == 8);
            assert((head + tail)[1] == head[1]);
            assert((head + tail)[5] == head[5]);
        },
        Value::Select { pred_expr, then_expr, else_expr } => {
            let head = select_head();
            let tail = then_expr.text() + (" "@ + (else_expr.text() + (" "@ + (pred_expr.text() + (
                ")"@ + x)))));
            assert(v.text() + x =~= head + tail);
            assert(head.len() == 8);
            assert((head + tail)[1] == head[1]);
        },
    }
}

/// Operators whose texts begin alike are the same operator.
proof fn lemma_head_determines_operator(op: BinaryOp, other: BinaryOp)
    requires
        binary_head(op) == binary_head(other),
    ensures
        op == other,
{
    reveal_strlit("(");
    reveal_strlit(" ");
    reveal_strlit("i32");
    reveal_strlit("i64");
    reveal_strlit(".eq");
    lemma_operator_mark(op);
    lemma_operator_mark(other);
}

/// The third character of the text of an operator with operands tells the
/// type of the operands.
proof fn lemma_operator_mark(op: BinaryOp)
    ensures
        binary_head(op)[2] == match op {
            BinaryOp::Equal(Type::Int32) => '3',
            BinaryOp::Equal(Type::Int64) => '6',
        },
{
    reveal_strlit("(");
    reveal_strlit(" ");
    reveal_strlit("i32");
    reveal_strlit("i64");
    reveal_strlit(".eq");
    match op {
        BinaryOp::Equal(ty) => {
            assert(ty.text().len() == 3);
            assert(op.text()[1] == ty.text()[1]);
            assert(("("@ + op.text())[2] == op.text()[1]);
            assert(binary_head(op)[2] == ("("@ + op.text())[2]);
        },
    }
}

/// A closing parenthesis is no digit.
proof fn lemma_close_is_no_digit(x: Seq<char>)
    ensures
        (")"@ + x).len() > 0,
        !is_digit((")"@ + x)[0]),
{
    reveal_strlit(")");
}

/// The text of a tree, where something follows it, determines the tree and
/// what follows.
proof fn lemma_text_prefix_free(a: Value, b: Value, x: Seq<char>, y: Seq<char>)
    requires
        a.text() + x == b.text() + y,
    ensures
        a == b,
        x == y,
    decreases a,
{
    lemma_text_parts(a, x);
    lemma_text_parts(b, y);
    match a {
        Value::Const(Number::I32(i)) => {
            if let Value::Const(Number::I32(j)) = b {
                let close_x = ")"@ + x;
                let close_y = ")"@ + y;
                lemma_cancel_prefix(
                    const_head(),
                    decimal(i as int) + close_x,
                    const_head(),
                    decimal(j as int) + close_y,
                );
                lemma_close_is_no_digit(x);
                lemma_close_is_no_digit(y);
                lemma_decimal_prefix_free(i as int, j as int, close_x, close_y);
                lemma_cancel_prefix(")"@, x, ")"@, y);
            }
        },
        Value::BinaryOp { op, left: l1, right: r1 } => {
            if let Value::BinaryOp { op: op2, left: l2, right: r2 } = b {
                let after_r1 = ")"@ + x;
                let after_r2 = ")"@ + y;
                let after_l1 = " "@ + (r1.text() + after_r1);
                let after_l2 = " "@ + (r2.text() + after_r2);
                lemma_cancel_prefix(
                    binary_head(op),
                    l1.text() + after_l1,
                    binary_head(op2),
                    l2.text() + after_l2,
                );
                lemma_head_determines_operator(op, op2);
                lemma_text_prefix_free(*l1, *l2, after_l1, after_l2);
                lemma_cancel_prefix(" "@, r1.text() + after_r1, " "@, r2.text() + after_r2);
                lemma_text_prefix_free(*r1, *r2, after_r1, after_r2);
                lemma_cancel_prefix(")"@, x, ")"@, y);
            }
        },
        Value::Select { pred_expr: p1, then_expr: t1, else_expr: e1 } => {
            if let Value::Select { pred_expr: p2, then_expr: t2, else_expr: e2 } = b {
                let after_p1 = ")"@ + x;
                let after_p2 = ")"@ + y;
                let after_e1 = " "@ + (p1.text() + after_p1);
                let after_e2 = " "@ + (p2.text() + after_p2);
                let after_t1 = " "@ + (e1.text() + after_e1);
                let after_t2 = " "@ + (e2.text() + after_e2);
                lemma_cancel_prefix(
                    select_head(),
                    t1.text() + after_t1,
                    select_head(),
                    t2.text() + after_t2,
                );
                lemma_text_prefix_free(*t1, *t2, after_t1, after_t2);
                lemma_cancel_prefix(" "@, e1.text() + after_e1, " "@, e2.text() + after_e2);
                lemma_text_prefix_free(*e1, *e2, after_e1, after_e2);
                lemma_cancel_prefix(" "@, p1.text() + after_p1, " "@, p2.text() + after_p2);
                lemma_text_prefix_free(*p1, *p2, after_p1, after_p2);
                lemma_cancel_prefix(")"@, x, ")"@, y);
            }
        },
    }
}

/// Rendering is injective: two instruction trees with the same text are
/// the same tree.
pub proof fn text_determines_tree(a: Value, b: Value)
    requires
        a.text() == b.text(),
    ensures
        a == b,
{
    lemma_text_prefix_free(a, b, Seq::empty(), Seq::empty());
}

/// Two modules with the same text are the same module.
pub proof fn text_determines_module(a: WasmModule, b: WasmModule)
    requires
        a.text() == b.text(),
    ensures
        a == b,
{
    let head = "(module "@ + "(func $main (result i32) "@;
    let tail = ")"@ + "(export \"main\" (func $main))"@ + ")"@;
    assert(a.text() =~= head + (a.main.text() + tail));
    assert(b.text() =~= head + (b.main.text() + tail));
    lemma_cancel_prefix(head, a.main.text() + tail, head, b.main.text() + tail);
    lemma_text_prefix_free(a.main, b.main, tail, tail);
}

} // verus!
