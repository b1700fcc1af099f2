// The grammar written once more, with nom's combinators: on a corpus of
// texts the verified parsers have to agree with it.

use compiler::parser::lexeme::ws;
use compiler::parser::parse_constructors::{bool, mk_if, mk_int, var};
use compiler::parser::parse_expr::{
    from_int, parse_my_bool, parse_my_expr, parse_my_if, parse_my_int, parse_my_var, ParseError,
};
use compiler::types::expr::Expr;
use nom::branch::alt;
use nom::bytes::complete::{tag, take_while_m_n};
use nom::character::complete::{alpha1, multispace0};
use nom::combinator::map_res;
use nom::error::ErrorKind;
use nom::sequence::preceded;
use nom::IResult;

type ParseExpr = Expr<()>;

fn nom_is_int_digit(c: char) -> bool {
    c.is_digit(10)
}

fn nom_from_int(input: &str) -> Result<u8, std::num::ParseIntError> {
    u8::from_str_radix(input, 10)
}

fn nom_int_primary(input: &str) -> IResult<&str, u8> {
    map_res(take_while_m_n(1, 12, nom_is_int_digit), nom_from_int)(input)
}

fn nom_int(input: &str) -> IResult<&str, ParseExpr> {
    let (input, int_val) = preceded(multispace0, nom_int_primary)(input)?;
    Ok((input, mk_int(i32::from(int_val))))
}

fn nom_var_is_protected(ident: &str) -> bool {
    vec!["True", "False", "if", "then", "else"].contains(&ident)
}

fn nom_var(input: &str) -> IResult<&str, ParseExpr> {
    map_res(preceded(multispace0, alpha1), |var_val| {
        match nom_var_is_protected(var_val) {
            true => Err(nom::Err::Error(nom::error::Error { code: ErrorKind::Tag, input })),
            false => Ok(var(var_val)),
        }
    })(input)
}

fn nom_true(input: &str) -> IResult<&str, ParseExpr> {
    nom::combinator::map(preceded(multispace0, tag("True")), |_| bool(true))(input)
}

fn nom_false(input: &str) -> IResult<&str, ParseExpr> {
    nom::combinator::map(preceded(multispace0, tag("False")), |_| bool(false))(input)
}

fn nom_bool(input: &str) -> IResult<&str, ParseExpr> {
    alt((nom_true, nom_false))(input)
}

fn nom_if(input: &str) -> IResult<&str, ParseExpr> {
    let (input, _) = preceded(multispace0, tag("if"))(input)?;
    let (input, pred_expr) = nom_expr(input)?;

    let (input, _) = preceded(multispace0, tag("then"))(input)?;
    let (input, then_expr) = nom_expr(input)?;

    let (input, _) = preceded(multispace0, tag("else"))(input)?;
    let (input, else_expr) = nom_expr(input)?;

    Ok((input, mk_if(pred_expr, then_expr, else_expr)))
}

fn nom_expr(input: &str) -> IResult<&str, ParseExpr> {
    alt((nom_bool, nom_int, nom_var, nom_if))(input)
}

fn in_library_terms(
    result: IResult<&str, ParseExpr>,
    map_res_means: ParseError,
) -> Result<(&str, ParseExpr), ParseError> {
    match result {
        Ok(found) => Ok(found),
        Err(nom::Err::Error(err)) => Err(match err.code {
            ErrorKind::Tag => ParseError::ExpectedKeyword,
            ErrorKind::TakeWhileMN => ParseError::ExpectedDigits,
            ErrorKind::Alpha => ParseError::ExpectedIdentifier,
            ErrorKind::MapRes => map_res_means,
            other => panic!("nom gave an error of kind {:?}", other),
        }),
        Err(other) => panic!("nom gave {:?}", other),
    }
}

fn corpus() -> Vec<String> {
    let mut texts: Vec<String> = Vec::new();
    let tokens = [
        "", " ", "\t", "\n", "\r\n", "True", "False", "if", "then", "else", "0", "1", "42", "255",
        "256", "007", "999999999999", "1234567890123", "x", "poo", "iffy", "Truely", "elsewhere",
        "\u{e9}", "\u{a0}", "\u{663}", "_", "-", "(", "True100", "11dog", "dog11",
    ];
    for a in tokens {
        texts.push(a.to_string());
        for b in tokens {
            texts.push(format!("{}{}", a, b));
            texts.push(format!("{} {}", a, b));
        }
    }
    let exprs = ["True", "False", "1", "x", "256", "if", "if True then 1 else 2", "?"];
    for p in exprs {
        for t in exprs {
            for f in exprs {
                texts.push(format!("if {} then {} else {}", p, t, f));
                texts.push(format!("if {}then {}else {}", p, t, f));
                texts.push(format!(" if\t{}\nthen {} else {}  rest", p, t, f));
                texts.push(format!("if {} then {} otherwise {}", p, t, f));
            }
        }
    }
    texts
}

#[test]
fn integers_parse_as_the_nom_does() {
    for text in corpus() {
        assert_eq!(
            parse_my_int(&text),
            in_library_terms(nom_int(&text), ParseError::IntegerTooLarge),
            "on {:?}",
            text
        );
    }
}

#[test]
fn variables_parse_as_the_nom_does() {
    for text in corpus() {
        assert_eq!(
            parse_my_var(&text),
            in_library_terms(nom_var(&text), ParseError::ReservedWord),
            "on {:?}",
            text
        );
    }
}

#[test]
fn booleans_parse_as_the_nom_does() {
    for text in corpus() {
        assert_eq!(
            parse_my_bool(&text),
            in_library_terms(nom_bool(&text), ParseError::ExpectedKeyword),
            "on {:?}",
            text
        );
    }
}

#[test]
fn conditionals_parse_as_the_nom_does() {
    for text in corpus() {
        assert_eq!(
            parse_my_if(&text),
            in_library_terms(nom_if(&text), ParseError::ExpectedKeyword),
            "on {:?}",
            text
        );
    }
}

#[test]
fn expressions_parse_as_the_nom_does() {
    for text in corpus() {
        assert_eq!(
            parse_my_expr(&text),
            in_library_terms(nom_expr(&text), ParseError::ExpectedKeyword),
            "on {:?}",
            text
        );
    }
}

#[test]
fn numbers_are_read_as_std_reads_them() {
    let mut texts = corpus();
    for text in ["+", "-", "+0", "+255", "+256", "-0", "++1", "+-1", "1+", "0x10", "1 ", "2e1"] {
        texts.push(text.to_string());
    }
    for value in 0..300 {
        texts.push(format!("{}", value));
        texts.push(format!("+{}", value));
        texts.push(format!("00{}", value));
    }
    for text in texts {
        assert_eq!(from_int(&text), nom_from_int(&text).ok(), "on {:?}", text);
    }
}

#[test]
fn white_space_is_skipped_as_the_nom_does() {
    for text in corpus() {
        let skipped: IResult<&str, &str> = multispace0(text.as_str());
        let (rest, _) = skipped.unwrap();
        assert_eq!(ws(&text), rest, "on {:?}", text);
    }
}
