//! The textual form of instruction trees: parenthesized instructions, each
//! operator before its operands.

use super::types::{BinaryOp, Number, Type, Value, WasmModule};
use vstd::prelude::*;
use vstd::string::StringExecFns;

verus! {

/// The character of a decimal digit.
pub open spec fn digit_char(digit: int) -> char {
    if digit == 0 {
        '0'
    } else if digit == 1 {
        '1'
    } else if digit == 2 {
        '2'
    } else if digit == 3 {
        '3'
    } else if digit == 4 {
        '4'
    } else if digit == 5 {
        '5'
    } else if digit == 6 {
        '6'
    } else if digit == 7 {
        '7'
    } else if digit == 8 {
        '8'
    } else {
        '9'
    }
}

/// The decimal digits of a natural number, without leading zeros.
pub open spec fn digits(n: nat) -> Seq<char>
    decreases n,
{
    if n < 10 {
        seq![digit_char(n as int)]
    } else {
        digits(n / 10).push(digit_char((n % 10) as int))
    }
}

/// The decimal form of an integer: a minus sign where it is negative, then
/// the digits of its absolute value.
pub open spec fn decimal(n: int) -> Seq<char> {
    if n < 0 {
        seq!['-'] + digits((-n) as nat)
    } else {
        digits(n as nat)
    }
}

impl Number {
    /// The text of a number: its decimal form.
    pub open spec fn text(self) -> Seq<char> {
        match self {
            Number::I32(i) => decimal(i as int),
        }
    }
}

impl Type {
    /// The text of a value type.
    pub open spec fn text(self) -> Seq<char> {
        match self {
            Type::Int32 => "i32"@,
            Type::Int64 => "i64"@,
        }
    }
}

impl BinaryOp {
    /// The text of an operator: the type of its operands, a dot and its
    /// name.
    pub open spec fn text(self) -> Seq<char> {
        match self {
            BinaryOp::Equal(ty) => ty.text() + ".eq"@,
        }
    }
}

impl Value {
    /// The text of an instruction tree.
    ///
    /// - A constant is `(i32.const N)`.
    /// - An operator with operands is `(OP LEFT RIGHT)`.
    /// - A selection is `(select THEN ELSE PRED)`: the operands in the order
    ///   in which the machine takes them.
    pub open spec fn text(self) -> Seq<char>
        decreases self,
    {
        match self {
            Value::Const(Number::I32(i)) => "("@ + "i32.const "@ + decimal(i as int) + ")"@,
            Value::BinaryOp { op, left, right } => "("@ + op.text() + " "@ + left.text() + " "@
                + right.text() + ")"@,
            Value::Select { pred_expr, then_expr, else_expr } => "("@ + "select "@
                + then_expr.text() + " "@ + else_expr.text() + " "@ + pred_expr.text() + ")"@,
        }
    }
}

impl WasmModule {
    /// The text of a module: the function `main`, whose body is the
    /// instruction tree and whose result is an `i32`, and its export.
    pub open spec fn text(self) -> Seq<char> {
        "(module "@ + "(func $main (result i32) "@ + self.main.text() + ")"@
            + "(export \"main\" (func $main))"@ + ")"@
    }
}

/// What can be rendered as text.
pub trait Pretty {
    /// The text that `pretty` appends.
    spec fn rendered(&self) -> Seq<char>;

    /// Appends the text of `self` to `str`.
    fn pretty(&self, str: &mut String)
        ensures
            final(str)@ == old(str)@ + self.rendered(),
    ;
}

impl Pretty for WasmModule {
    open spec fn rendered(&self) -> Seq<char> {
        self.text()
    }

    fn pretty(&self, str: &mut String) {
        str.append("(module ");
        str.append("(func $main (result i32) ");
        self.main.pretty(str);
        str.append(")");
        str.append("(export \"main\" (func $main))");
        str.append(")");
    }
}

impl Pretty for Number {
    open spec fn rendered(&self) -> Seq<char> {
        self.text()
    }

    fn pretty(&self, str: &mut String) {
        match self {
            Number::I32(i) => push_decimal(str, *i),
        }
    }
}

/// Appends a space.
pub fn space(str: &mut String)
    ensures
        final(str)@ == old(str)@ + " "@,
{
    str.append(" ")
}

/// Appends an opening parenthesis.
pub fn open(str: &mut String)
    ensures
        final(str)@ == old(str)@ + "("@,
{
    str.append("(")
}

/// Appends a closing parenthesis.
pub fn close(str: &mut String)
    ensures
        final(str)@ == old(str)@ + ")"@,
{
    str.append(")")
}

impl Pretty for Value {
    open spec fn rendered(&self) -> Seq<char> {
        self.text()
    }

    fn pretty(&self, str: &mut String)
        decreases self,
    {
        match self {
            Value::Const(Number::I32(i)) => {
                open(str);
                str.append("i32.const ");
                push_decimal(str, *i);
                close(str)
            },
            Value::BinaryOp { op, left, right } => {
                open(str);
                op.pretty(str);
                space(str);
                left.pretty(str);
                space(str);
                right.pretty(str);
                close(str)
            },
            Value::Select { pred_expr, then_expr, else_expr } => {
                open(str);
                str.append("select ");
                then_expr.pretty(str);
                space(str);
                else_expr.pretty(str);
                space(str);
                pred_expr.pretty(str);
                close(str)
            },
        }
    }
}

impl Pretty for BinaryOp {
    open spec fn rendered(&self) -> Seq<char> {
        self.text()
    }

    fn pretty(&self, str: &mut String) {
        match self {
            BinaryOp::Equal(ty) => {
                ty.pretty(str);
                str.append(".eq")
            },
        }
    }
}

impl Pretty for Type {
    open spec fn rendered(&self) -> Seq<char> {
        self.text()
    }

    fn pretty(&self, str: &mut String) {
        match self {
            Type::Int32 => str.append("i32"),
            Type::Int64 => str.append("i64"),
        }
    }
}

/// The one-character string of a decimal digit.
fn digit_str(digit: u32) -> (s: &'static str)
    requires
        digit < 10,
    ensures
        s@ == seq![digit_char(digit as int)],
{
    proof {
        reveal_strlit("0");
        reveal_strlit("1");
        reveal_strlit("2");
        reveal_strlit("3");
        reveal_strlit("4");
        reveal_strlit("5");
        reveal_strlit("6");
        reveal_strlit("7");
        reveal_strlit("8");
        reveal_strlit("9");
    }
    let s = if digit == 0 {
        "0"
    } else if digit == 1 {
        "1"
    } else if digit == 2 {
        "2"
    } else if digit == 3 {
        "3"
    } else if digit == 4 {
        "4"
    } else if digit == 5 {
        "5"
    } else if digit == 6 {
        "6"
    } else if digit == 7 {
        "7"
    } else if digit == 8 {
        "8"
    } else {
        "9"
    };
    assert(s@ =~= seq![digit_char(digit as int)]);
    s
}

/// Appends the decimal digits of `n`.
fn push_digits(str: &mut String, n: u32)
    ensures
        final(str)@ == old(str)@ + digits(n as nat),
    decreases n,
{
    if n >= 10 {
        push_digits(str, n / 10);
    }
    str.append(digit_str(n % 10));
}

/// Appends the decimal form of `value`.
fn push_decimal(str: &mut String, value: i32)
    ensures
        final(str)@ == old(str)@ + decimal(value as int),
{
    if value < 0 {
        proof {
            reveal_strlit("-");
        }
        str.append("-");
        assert("-"@ =~= seq!['-']);
        let magnitude: u32 = if value == i32::MIN {
            0x8000_0000u32
        } else {
            (-value) as u32
        };
        push_digits(str, magnitude);
    } else {
        push_digits(str, value as u32);
    }
}

/// Rendering is a function of the tree: what two runs of `pretty` on the
/// same tree append to the same text is the same text.
pub proof fn rendering_is_deterministic<T: Pretty>(
    tree: T,
    before: Seq<char>,
    first: Seq<char>,
    second: Seq<char>,
)
    requires
        first == before + tree.rendered(),
        second == before + tree.rendered(),
    ensures
        first == second,
{
}

} // verus!
