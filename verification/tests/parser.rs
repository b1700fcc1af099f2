use compiler::parser::lexeme::{leading_len, split_chars, ws, CharClass};
use compiler::parser::parse_constructors::{bool, mk_if, mk_int, var};
use compiler::parser::parse_expr::{
    from_int, int_primary, is_int_digit, keyword, parse_false, parse_my_bool, parse_my_expr,
    parse_my_if, parse_my_int, parse_my_var, parse_true, var_is_protected, ParseError,
};
use compiler::types::expr::{Expr, Prim};

#[test]
fn parse_expr_test_parse_my_int() {
    assert_eq!(parse_my_int(" 1"), Ok(("", mk_int(1))));
    assert_eq!(parse_my_int("1"), Ok(("", mk_int(1))));
    assert_eq!(parse_my_int("11"), Ok(("", mk_int(11))));
    assert_eq!(parse_my_int("11dog"), Ok(("dog", mk_int(11))));
}

#[test]
fn parse_expr_test_parse_my_var() {
    assert_ne!(parse_my_var("False"), Ok(("", var("False"))));
    assert_ne!(parse_my_var("True"), Ok(("", var("True"))));
    assert_ne!(parse_my_var("if"), Ok(("", var("if"))));
    assert_eq!(parse_my_var(" p"), Ok(("", var("p"))));
    assert_eq!(parse_my_var("p"), Ok(("", var("p"))));
    assert_eq!(parse_my_var("poo"), Ok(("", var("poo"))));
    assert_eq!(parse_my_var("poo "), Ok((" ", var("poo"))))
}

#[test]
fn parse_expr_test_parse_my_bool() {
    assert_eq!(parse_my_bool(" True"), Ok(("", bool(true))));
    assert_eq!(parse_my_bool("False"), Ok(("", bool(false))));
    assert_eq!(parse_my_bool("   True100"), Ok(("100", bool(true))));
}

#[test]
fn parse_expr_test_parse_my_if() {
    assert_eq!(
        parse_my_if("if 1 then False else True"),
        Ok(("", mk_if(mk_int(1), bool(false), bool(true))))
    );

    assert_eq!(
        parse_my_if("if False then 1 else 2"),
        Ok(("", mk_if(bool(false), mk_int(1), mk_int(2))))
    );
}

#[test]
fn test_parse_my_int() {
    assert_eq!(parse_my_int("1"), Ok(("", mk_int(1))));
    assert_eq!(parse_my_int("11"), Ok(("", mk_int(11))));
    assert_eq!(parse_my_int("11dog"), Ok(("dog", mk_int(11))));
}

#[test]
fn test_parse_my_var() {
    assert_eq!(parse_my_var("p"), Ok(("", var("p"))));
    assert_eq!(parse_my_var("poo"), Ok(("", var("poo"))));
    assert_eq!(parse_my_var("poo "), Ok((" ", var("poo"))))
}

#[test]
fn test_parse_my_bool() {
    assert_eq!(parse_my_bool("True"), Ok(("", bool(true))));
    assert_eq!(parse_my_bool("False"), Ok(("", bool(false))));
    assert_eq!(parse_my_bool("True100"), Ok(("100", bool(true))));
}

#[test]
fn test_parse_my_if() {
    assert_eq!(
        parse_my_if("if True then 1 else 2"),
        Ok(("", mk_if(bool(true), mk_int(1), mk_int(2))))
    );
}

#[test]
fn test_parse_my_expr() {
    assert_eq!(parse_my_expr("True"), Ok(("", bool(true))));
    assert_eq!(parse_my_expr("False"), Ok(("", bool(false))));
    assert_eq!(parse_my_expr("p"), Ok(("", var("p"))));
    assert_eq!(parse_my_expr("poo"), Ok(("", var("poo"))));
}

#[test]
fn constructors_build_unannotated_nodes() {
    assert_eq!(mk_int(3), Expr::EPrim { ann: (), prim: Prim::PInt { int: 3 } });
    assert_eq!(bool(true), Expr::EPrim { ann: (), prim: Prim::PBool { bool: true } });
    assert_eq!(var("poo"), Expr::EVar { ann: (), identifier: "poo".to_string() });
    assert_eq!(
        mk_if(bool(true), mk_int(1), mk_int(2)),
        Expr::EIf {
            ann: (),
            pred_expr: Box::new(bool(true)),
            then_expr: Box::new(mk_int(1)),
            else_expr: Box::new(mk_int(2)),
        }
    );
}

#[test]
fn white_space_is_space_tab_return_and_line_feed() {
    assert_eq!(ws(" \t\r\n x "), "x ");
    assert_eq!(ws("x"), "x");
    assert_eq!(ws(""), "");
    assert_eq!(ws("   "), "");
    // A no-break space is no white space here.
    assert_eq!(ws("\u{a0}x"), "\u{a0}x");
    assert_eq!(leading_len("  \u{a0}", CharClass::Space), 2);
}

#[test]
fn character_classes_are_ascii() {
    assert!(CharClass::Digit.contains('0'));
    assert!(CharClass::Digit.contains('9'));
    assert!(!CharClass::Digit.contains('a'));
    assert!(!CharClass::Digit.contains('\u{663}'));
    assert!(CharClass::Alpha.contains('a'));
    assert!(CharClass::Alpha.contains('Z'));
    assert!(!CharClass::Alpha.contains('_'));
    assert!(!CharClass::Alpha.contains('0'));
    assert!(!CharClass::Alpha.contains('\u{e9}'));
    assert!(is_int_digit('5'));
    assert!(!is_int_digit('/'));
    assert!(!is_int_digit(':'));
    assert_eq!(leading_len("abc1", CharClass::Alpha), 3);
    assert_eq!(leading_len("12ab", CharClass::Digit), 2);
}

#[test]
fn splitting_counts_characters_not_bytes() {
    assert_eq!(split_chars("h\u{e9}llo", 2), ("h\u{e9}", "llo"));
    assert_eq!(split_chars("abc", 0), ("", "abc"));
    assert_eq!(split_chars("abc", 3), ("abc", ""));
}

#[test]
fn keywords_may_follow_white_space() {
    assert_eq!(keyword("  if x", "if"), Ok(" x"));
    assert_eq!(keyword("iffy", "if"), Ok("fy"));
    assert_eq!(keyword("i", "if"), Err(ParseError::ExpectedKeyword));
    assert_eq!(keyword("", "if"), Err(ParseError::ExpectedKeyword));
    assert_eq!(keyword("then", "if"), Err(ParseError::ExpectedKeyword));
    assert_eq!(parse_true("True"), Ok(("", bool(true))));
    assert_eq!(parse_true("False"), Err(ParseError::ExpectedKeyword));
    assert_eq!(parse_false(" False!"), Ok(("!", bool(false))));
    assert_eq!(parse_my_bool("true"), Err(ParseError::ExpectedKeyword));
}

#[test]
fn integers_are_at_most_255() {
    assert_eq!(parse_my_int("0"), Ok(("", mk_int(0))));
    assert_eq!(parse_my_int("255"), Ok(("", mk_int(255))));
    assert_eq!(parse_my_int("0255"), Ok(("", mk_int(255))));
    assert_eq!(parse_my_int("256"), Err(ParseError::IntegerTooLarge));
    assert_eq!(parse_my_int("999999999999"), Err(ParseError::IntegerTooLarge));
    assert_eq!(parse_my_int("dog"), Err(ParseError::ExpectedDigits));
    assert_eq!(parse_my_int(""), Err(ParseError::ExpectedDigits));
    assert_eq!(parse_my_int("-1"), Err(ParseError::ExpectedDigits));
    assert_eq!(from_int("42"), Some(42));
    assert_eq!(from_int("255"), Some(255));
    assert_eq!(from_int("256"), None);
    assert_eq!(from_int("000000000001"), Some(1));
    assert_eq!(from_int("+5"), Some(5));
    assert_eq!(from_int("+"), None);
    assert_eq!(from_int("++5"), None);
    assert_eq!(from_int("-5"), None);
    assert_eq!(from_int(""), None);
    assert_eq!(from_int("1a"), None);
    assert_eq!(from_int(" 1"), None);
    assert_eq!(from_int("99999999999999999999999999"), None);
    assert_eq!(int_primary("12ab"), Ok(("ab", 12)));
    assert_eq!(int_primary(" 12"), Err(ParseError::ExpectedDigits));
}

#[test]
fn integers_take_at_most_twelve_digits() {
    assert_eq!(parse_my_int("000000000012"), Ok(("", mk_int(12))));
    assert_eq!(parse_my_int("0000000000123"), Ok(("3", mk_int(12))));
    assert_eq!(parse_my_int("0000000000001"), Ok(("1", mk_int(0))));
}

#[test]
fn reserved_words_are_no_variables() {
    for word in ["True", "False", "if", "then", "else"] {
        assert!(var_is_protected(word));
        assert_eq!(parse_my_var(word), Err(ParseError::ReservedWord));
    }
    for word in ["true", "iff", "Then", "elsewhere", "", "x"] {
        assert!(!var_is_protected(word));
    }
    assert_eq!(parse_my_var("iffy"), Ok(("", var("iffy"))));
    assert_eq!(parse_my_var("else1"), Err(ParseError::ReservedWord));
    assert_eq!(parse_my_var("1x"), Err(ParseError::ExpectedIdentifier));
    assert_eq!(parse_my_var(""), Err(ParseError::ExpectedIdentifier));
}

#[test]
fn alternatives_are_tried_in_order() {
    // A boolean literal wins over a variable that begins with it.
    assert_eq!(parse_my_expr("Truely"), Ok(("ly", bool(true))));
    assert_eq!(parse_my_expr("12ab"), Ok(("ab", mk_int(12))));
    assert_eq!(parse_my_expr("ifx"), Ok(("", var("ifx"))));
    assert_eq!(
        parse_my_expr("if x then y else z rest"),
        Ok((" rest", mk_if(var("x"), var("y"), var("z"))))
    );
}

#[test]
fn conditionals_nest() {
    assert_eq!(
        parse_my_expr("if if True then False else True then 1 else if x then 2 else 3"),
        Ok((
            "",
            mk_if(
                mk_if(bool(true), bool(false), bool(true)),
                mk_int(1),
                mk_if(var("x"), mk_int(2), mk_int(3)),
            )
        ))
    );
    assert_eq!(
        parse_my_expr("if\tTrue\nthen\r\n1 else  2"),
        Ok(("", mk_if(bool(true), mk_int(1), mk_int(2))))
    );
}

#[test]
fn what_is_no_expression_fails_as_a_conditional_does() {
    for source in [
        "",
        "   ",
        "256",
        "then",
        "?",
        "if",
        "if True",
        "if True then",
        "if True then 1",
        "if True then 1 else",
        "if True 1 else 2",
        "if then 1 else 2",
        "if True then 1 else 256",
    ] {
        assert_eq!(parse_my_expr(source), Err(ParseError::ExpectedKeyword));
        assert_eq!(parse_my_if(source), Err(ParseError::ExpectedKeyword));
    }
}
