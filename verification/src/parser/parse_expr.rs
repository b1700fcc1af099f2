//! The grammar of expressions:
//!
//! ```text
//! expr  = bool | int | var | if
//! bool  = "True" | "False"
//! int   = one to twelve decimal digits, of a value up to 255
//! var   = one or more letters that do not spell a reserved word
//! if    = "if" expr "then" expr "else" expr
//! ```
//!
//! White space may precede every token. The alternatives of `expr` are
//! tried in the order given, and the first that matches is taken.

use super::lexeme::{
    leading, leading_len, lemma_leading_bound, lemma_leading_holds, skip_spaces, split_chars, ws,
    CharClass,
};
use super::parse_constructors::{bool, mk_if, mk_int, var};
use crate::types::expr::{Expr, ExprView, Prim};
use vstd::prelude::*;
use vstd::string::StrSliceExecFns;

verus! {

/// Why a text is not what the parser was asked for.
#[derive(Debug, PartialEq, Eq)]
pub enum ParseError {
    /// A keyword is not where it has to be.
    ExpectedKeyword,
    /// No digit is where a number has to begin.
    ExpectedDigits,
    /// The number is larger than 255.
    IntegerTooLarge,
    /// No letter is where a name has to begin.
    ExpectedIdentifier,
    /// The name is a reserved word.
    ReservedWord,
}

/// An expression without annotations, as the parser builds it.
pub type ParseExpr = Expr<()>;

/// What parsing a text gives, in the model: what is left of the text and
/// the expression found, or an error.
pub type Parsed = Result<(Seq<char>, ExprView<()>), ParseError>;

/// The model of what a parser returned.
pub open spec fn outcome(r: Result<(&str, ParseExpr), ParseError>) -> Parsed {
    match r {
        Ok((rest, expr)) => Ok((rest@, expr@)),
        Err(err) => Err(err),
    }
}

/// The most digits that a number may have.
pub const MAX_DIGITS: usize = 12;

/// The text behind `word`, where `s` begins with `word` after white space.
pub open spec fn keyword_skipped(s: Seq<char>, word: Seq<char>) -> Result<Seq<char>, ParseError> {
    let text = skip_spaces(s);
    if word.is_prefix_of(text) {
        Ok(text.skip(word.len() as int))
    } else {
        Err(ParseError::ExpectedKeyword)
    }
}

/// The value of a decimal digit.
pub open spec fn digit_value(c: char) -> nat {
    (c as u32 - '0' as u32) as nat
}

/// The number that a sequence of decimal digits denotes.
pub open spec fn decimal_value(digits: Seq<char>) -> nat
    decreases digits.len(),
{
    if digits.len() == 0 {
        0
    } else {
        decimal_value(digits.drop_last()) * 10 + digit_value(digits.last())
    }
}

/// The number of digits that a number at the start of `text` takes: all
/// that are there, but no more than twelve.
pub open spec fn digits_taken(text: Seq<char>) -> nat {
    if leading(text, CharClass::Digit) <= MAX_DIGITS {
        leading(text, CharClass::Digit)
    } else {
        MAX_DIGITS as nat
    }
}

/// Whether every character of `text` is a decimal digit.
pub open spec fn all_digits(text: Seq<char>) -> bool {
    forall|j: int| 0 <= j < text.len() ==> CharClass::Digit.holds(#[trigger] text[j])
}

/// `text` without the plus sign that may precede the digits of a number.
pub open spec fn without_sign(text: Seq<char>) -> Seq<char> {
    if text.len() > 1 && text[0] == '+' {
        text.drop_first()
    } else {
        text
    }
}

/// The number of eight bits that `text` denotes in base ten: `text` is one
/// or more decimal digits, which a plus sign may precede, and their value
/// is at most 255.
pub open spec fn small_number(text: Seq<char>) -> Option<u8> {
    let digits = without_sign(text);
    if digits.len() > 0 && all_digits(digits) && decimal_value(digits) <= 255 {
        Some(decimal_value(digits) as u8)
    } else {
        None
    }
}

/// A number at the start of `text`: the digits taken, where there is one
/// at least and their value is at most 255.
pub open spec fn parsed_number(text: Seq<char>) -> Result<(Seq<char>, u8), ParseError> {
    let n = digits_taken(text) as int;
    if n == 0 {
        Err(ParseError::ExpectedDigits)
    } else {
        match small_number(text.take(n)) {
            Some(value) => Ok((text.skip(n), value)),
            None => Err(ParseError::IntegerTooLarge),
        }
    }
}

/// An integer literal: a number, after white space.
pub open spec fn parsed_int(s: Seq<char>) -> Parsed {
    match parsed_number(skip_spaces(s)) {
        Ok((rest, value)) => Ok(
            (rest, ExprView::Prim { ann: (), prim: Prim::PInt { int: value as i32 } }),
        ),
        Err(err) => Err(err),
    }
}

/// Whether `word` is reserved: a keyword or a boolean literal.
pub open spec fn is_protected(word: Seq<char>) -> bool {
    ||| word == "True"@
    ||| word == "False"@
    ||| word == "if"@
    ||| word == "then"@
    ||| word == "else"@
}

/// A variable: after white space, all the letters that are there, where
/// there is one at least and they spell no reserved word.
pub open spec fn parsed_var(s: Seq<char>) -> Parsed {
    let text = skip_spaces(s);
    let n = leading(text, CharClass::Alpha) as int;
    if n == 0 {
        Err(ParseError::ExpectedIdentifier)
    } else if is_protected(text.take(n)) {
        Err(ParseError::ReservedWord)
    } else {
        Ok((text.skip(n), ExprView::Var { ann: (), identifier: text.take(n) }))
    }
}

/// The boolean literal `value` where `s` begins with `word` after white
/// space.
pub open spec fn parsed_literal(s: Seq<char>, word: Seq<char>, value: bool) -> Parsed {
    match keyword_skipped(s, word) {
        Ok(rest) => Ok((rest, ExprView::Prim { ann: (), prim: Prim::PBool { bool: value } })),
        Err(err) => Err(err),
    }
}

/// A boolean literal: `True`, or else `False`.
pub open spec fn parsed_bool(s: Seq<char>) -> Parsed {
    match parsed_literal(s, "True"@, true) {
        Ok(found) => Ok(found),
        Err(_) => parsed_literal(s, "False"@, false),
    }
}

/// The expression at the start of `s`, where `s` is shorter than `outer`.
/// It always is where this is asked: what a parser leaves is shorter than
/// what it was given (see [`lemma_parse_consumes`]).
pub open spec fn parsed_within(outer: Seq<char>, s: Seq<char>) -> Parsed
    decreases outer.len(), 0nat,
{
    if s.len() < outer.len() {
        parsed_expr(s)
    } else {
        Err(ParseError::ExpectedKeyword)
    }
}

/// A conditional: `if`, an expression, `then`, an expression, `else` and
/// an expression.
pub open spec fn parsed_if(s: Seq<char>) -> Parsed
    decreases s.len(), 1nat,
{
    match keyword_skipped(s, "if"@) {
        Err(err) => Err(err),
        Ok(after_if) => match parsed_within(s, after_if) {
            Err(err) => Err(err),
            Ok((after_pred, pred_expr)) => match keyword_skipped(after_pred, "then"@) {
                Err(err) => Err(err),
                Ok(after_then) => match parsed_within(s, after_then) {
                    Err(err) => Err(err),
                    Ok((after_branch, then_expr)) => match keyword_skipped(after_branch, "else"@) {
                        Err(err) => Err(err),
                        Ok(after_else) => match parsed_within(s, after_else) {
                            Err(err) => Err(err),
                            Ok((rest, else_expr)) => Ok(
                                (
                                    rest,
                                    ExprView::If {
                                        ann: (),
                                        pred_expr: Box::new(pred_expr),
                                        then_expr: Box::new(then_expr),
                                        else_expr: Box::new(else_expr),
                                    },
                                ),
                            ),
                        },
                    },
                },
            },
        },
    }
}

/// An expression: the first of a boolean literal, an integer literal, a
/// variable and a conditional that is at the start of `s`. Where none is,
/// the error is that of the conditional.
pub open spec fn parsed_expr(s: Seq<char>) -> Parsed
    decreases s.len(), 2nat,
{
    match parsed_bool(s) {
        Ok(found) => Ok(found),
        Err(_) => match parsed_int(s) {
            Ok(found) => Ok(found),
            Err(_) => match parsed_var(s) {
                Ok(found) => Ok(found),
                Err(_) => parsed_if(s),
            },
        },
    }
}

/// Whether two texts hold the same characters.
fn str_equal(a: &str, b: &str) -> (r: bool)
    ensures
        r == (a@ == b@),
{
    let len = a.unicode_len();
    if len != b.unicode_len() {
        return false;
    }
    let mut i: usize = 0;
    while i < len
        invariant
            i <= len,
            len == a@.len(),
            len == b@.len(),
            forall|j: int| 0 <= j < i ==> a@[j] == b@[j],
        decreases len - i,
    {
        if a.get_char(i) != b.get_char(i) {
            return false;
        }
        i = i + 1;
    }
    assert(a@ =~= b@);
    true
}

/// The model of what the parser of keywords returned.
pub open spec fn rest_outcome(r: Result<&str, ParseError>) -> Result<Seq<char>, ParseError> {
    match r {
        Ok(rest) => Ok(rest@),
        Err(err) => Err(err),
    }
}

/// Skips white space, then `word`, or fails where `word` is not there.
pub fn keyword<'a>(input: &'a str, word: &str) -> (r: Result<&'a str, ParseError>)
    ensures
        rest_outcome(r) == keyword_skipped(input@, word@),
{
    let text = ws(input);
    let n = word.unicode_len();
    if n > text.unicode_len() {
        return Err(ParseError::ExpectedKeyword);
    }
    let (head, rest) = split_chars(text, n);
    if str_equal(head, word) {
        Ok(rest)
    } else {
        Err(ParseError::ExpectedKeyword)
    }
}

/// Whether `c` is a decimal digit.
pub fn is_int_digit(c: char) -> (r: bool)
    ensures
        r == CharClass::Digit.holds(c),
{
    CharClass::Digit.contains(c)
}

/// Reads `input` as a number of eight bits in base ten.
pub fn from_int(input: &str) -> (r: Option<u8>)
    ensures
        r == small_number(input@),
{
    let len = input.unicode_len();
    let start: usize = if len > 1 && input.get_char(0) == '+' {
        1
    } else {
        0
    };
    let ghost digits = without_sign(input@);
    assert(digits =~= input@.skip(start as int));
    if start == len {
        return None;
    }
    let mut value: u32 = 0;
    let mut i: usize = start;
    assert(digits.take(0) =~= Seq::empty());
    while i < len
        invariant
            start <= i <= len,
            len == input@.len(),
            digits == input@.skip(start as int),
            digits == without_sign(input@),
            forall|j: int| 0 <= j < i - start ==> CharClass::Digit.holds(#[trigger] digits[j]),
            value <= 256,
            value <= 255 ==> value == decimal_value(digits.take(i - start)),
            value == 256 ==> decimal_value(digits.take(i - start)) > 255,
        decreases len - i,
    {
        let c = input.get_char(i);
        assert(digits[i - start] == c);
        if !is_int_digit(c) {
            assert(!CharClass::Digit.holds(digits[i - start]));
            return None;
        }
        let digit: u32 = c as u32 - '0' as u32;
        assert(digits.take(i - start + 1).drop_last() =~= digits.take(i - start));
        assert(digits.take(i - start + 1).last() == c);
        if value <= 255 {
            value = value * 10 + digit;
            if value > 255 {
                value = 256;
            }
        }
        i = i + 1;
    }
    assert(digits.take(i - start) =~= digits);
    if value <= 255 {
        Some(value as u8)
    } else {
        None
    }
}

/// The model of what the parser of numbers returned.
pub open spec fn number_outcome(r: Result<(&str, u8), ParseError>) -> Result<
    (Seq<char>, u8),
    ParseError,
> {
    match r {
        Ok((rest, value)) => Ok((rest@, value)),
        Err(err) => Err(err),
    }
}

/// Parses a number of up to twelve digits.
pub fn int_primary(input: &str) -> (r: Result<(&str, u8), ParseError>)
    ensures
        number_outcome(r) == parsed_number(input@),
{
    let found = leading_len(input, CharClass::Digit);
    let n = if found <= MAX_DIGITS {
        found
    } else {
        MAX_DIGITS
    };
    if n == 0 {
        return Err(ParseError::ExpectedDigits);
    }
    let (digits, rest) = split_chars(input, n);
    match from_int(digits) {
        Some(value) => Ok((rest, value)),
        None => Err(ParseError::IntegerTooLarge),
    }
}

/// Parses an integer literal.
pub fn parse_my_int(input: &str) -> (r: Result<(&str, ParseExpr), ParseError>)
    ensures
        outcome(r) == parsed_int(input@),
        r matches Ok((rest, _)) ==> rest@.len() < input@.len(),
{
    proof {
        lemma_leading_bound(input@, CharClass::Space);
        lemma_leading_bound(skip_spaces(input@), CharClass::Digit);
    }
    match int_primary(ws(input)) {
        Ok((rest, int_val)) => Ok((rest, mk_int(int_val as i32))),
        Err(err) => Err(err),
    }
}

/// Whether `ident` is a reserved word, which no variable may be named.
pub fn var_is_protected(ident: &str) -> (r: bool)
    ensures
        r == is_protected(ident@),
{
    str_equal(ident, "True") || str_equal(ident, "False") || str_equal(ident, "if") || str_equal(
        ident,
        "then",
    ) || str_equal(ident, "else")
}

/// Parses a variable.
pub fn parse_my_var(input: &str) -> (r: Result<(&str, ParseExpr), ParseError>)
    ensures
        outcome(r) == parsed_var(input@),
        r matches Ok((rest, _)) ==> rest@.len() < input@.len(),
{
    proof {
        lemma_leading_bound(input@, CharClass::Space);
    }
    let text = ws(input);
    let n = leading_len(text, CharClass::Alpha);
    if n == 0 {
        return Err(ParseError::ExpectedIdentifier);
    }
    let (var_val, rest) = split_chars(text, n);
    if var_is_protected(var_val) {
        Err(ParseError::ReservedWord)
    } else {
        Ok((rest, var(var_val)))
    }
}

/// Parses the literal `True`.
pub fn parse_true(input: &str) -> (r: Result<(&str, ParseExpr), ParseError>)
    ensures
        outcome(r) == parsed_literal(input@, "True"@, true),
{
    match keyword(input, "True") {
        Ok(rest) => Ok((rest, bool(true))),
        Err(err) => Err(err),
    }
}

/// Parses the literal `False`.
pub fn parse_false(input: &str) -> (r: Result<(&str, ParseExpr), ParseError>)
    ensures
        outcome(r) == parsed_literal(input@, "False"@, false),
{
    match keyword(input, "False") {
        Ok(rest) => Ok((rest, bool(false))),
        Err(err) => Err(err),
    }
}

/// Parses a boolean literal.
pub fn parse_my_bool(input: &str) -> (r: Result<(&str, ParseExpr), ParseError>)
    ensures
        outcome(r) == parsed_bool(input@),
        r matches Ok((rest, _)) ==> rest@.len() < input@.len(),
{
    proof {
        lemma_leading_bound(input@, CharClass::Space);
        reveal_strlit("True");
        reveal_strlit("False");
    }
    match parse_true(input) {
        Ok(found) => Ok(found),
        Err(_) => parse_false(input),
    }
}

/// Parses a conditional.
pub fn parse_my_if(input: &str) -> (r: Result<(&str, ParseExpr), ParseError>)
    ensures
        outcome(r) == parsed_if(input@),
        r matches Ok((rest, _)) ==> rest@.len() < input@.len(),
    decreases input@.len(), 1nat,
{
    proof {
        reveal_strlit("if");
        reveal_strlit("then");
        reveal_strlit("else");
        lemma_leading_bound(input@, CharClass::Space);
    }
    let input1 = match keyword(input, "if") {
        Ok(rest) => rest,
        Err(err) => {
            return Err(err);
        },
    };
    let (input2, pred_expr) = match parse_my_expr(input1) {
        Ok(found) => found,
        Err(err) => {
            return Err(err);
        },
    };
    proof {
        lemma_leading_bound(input2@, CharClass::Space);
    }
    let input3 = match keyword(input2, "then") {
        Ok(rest) => rest,
        Err(err) => {
            return Err(err);
        },
    };
    let (input4, then_expr) = match parse_my_expr(input3) {
        Ok(found) => found,
        Err(err) => {
            return Err(err);
        },
    };
    proof {
        lemma_leading_bound(input4@, CharClass::Space);
    }
    let input5 = match keyword(input4, "else") {
        Ok(rest) => rest,
        Err(err) => {
            return Err(err);
        },
    };
    let (input6, else_expr) = match parse_my_expr(input5) {
        Ok(found) => found,
        Err(err) => {
            return Err(err);
        },
    };
    Ok((input6, mk_if(pred_expr, then_expr, else_expr)))
}

/// Parses an expression.
pub fn parse_my_expr(input: &str) -> (r: Result<(&str, ParseExpr), ParseError>)
    ensures
        outcome(r) == parsed_expr(input@),
        r matches Ok((rest, _)) ==> rest@.len() < input@.len(),
    decreases input@.len(), 2nat,
{
    match parse_my_bool(input) {
        Ok(found) => {
            return Ok(found);
        },
        Err(_) => {},
    }
    match parse_my_int(input) {
        Ok(found) => {
            return Ok(found);
        },
        Err(_) => {},
    }
    match parse_my_var(input) {
        Ok(found) => {
            return Ok(found);
        },
        Err(_) => {},
    }
    parse_my_if(input)
}

/// A number is rejected as too large exactly where the digits taken denote
/// more than 255, and is otherwise the value that they denote.
pub proof fn lemma_number_is_value_of_digits(text: Seq<char>)
    requires
        digits_taken(text) > 0,
    ensures
        ({
            let n = digits_taken(text) as int;
            let value = decimal_value(text.take(n));
            parsed_number(text) == if value > 255 {
                Err::<(Seq<char>, u8), ParseError>(ParseError::IntegerTooLarge)
            } else {
                Ok::<(Seq<char>, u8), ParseError>((text.skip(n), value as u8))
            }
        }),
{
    lemma_leading_holds(text, CharClass::Digit);
    lemma_leading_bound(text, CharClass::Digit);
    let n = digits_taken(text) as int;
    let digits = text.take(n);
    assert(CharClass::Digit.holds(digits[0]));
    assert(without_sign(digits) == digits);
    assert(all_digits(digits));
}

/// What a parser leaves is shorter than what it was given, and is the end
/// of it.
pub proof fn lemma_parse_consumes(s: Seq<char>)
    ensures
        parsed_expr(s) matches Ok((rest, _)) ==> rest.len() < s.len() && rest.is_suffix_of(s),
    decreases s.len(),
{
    lemma_leading_bound(s, CharClass::Space);
    let text = skip_spaces(s);
    lemma_leading_bound(text, CharClass::Digit);
    lemma_leading_bound(text, CharClass::Alpha);
    reveal_strlit("True");
    reveal_strlit("False");
    reveal_strlit("if");
    reveal_strlit("then");
    reveal_strlit("else");
    if parsed_bool(s) is Err && parsed_int(s) is Err && parsed_var(s) is Err && parsed_if(s)
        is Ok {
        let after_if = keyword_skipped(s, "if"@)->Ok_0;
        lemma_parse_consumes(after_if);
        let after_pred = parsed_expr(after_if)->Ok_0.0;
        lemma_leading_bound(after_pred, CharClass::Space);
        let after_then = keyword_skipped(after_pred, "then"@)->Ok_0;
        lemma_parse_consumes(after_then);
        let after_branch = parsed_expr(after_then)->Ok_0.0;
        lemma_leading_bound(after_branch, CharClass::Space);
        let after_else = keyword_skipped(after_branch, "else"@)->Ok_0;
        lemma_parse_consumes(after_else);
    }
}

} // verus!
