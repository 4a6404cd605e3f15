use std::ops::Range;
use std::str::FromStr;

use chumsky::error::Simple;
use chumsky::primitive::{end, filter_map, just};
use chumsky::recursive::recursive;
use chumsky::{Error, Parser, Stream};

use honk::ast::parser::{at_mark, digit_of, parse_int, Mark};
use honk::ast::{
    Assign, AssignOp, AssignTy, BinOp, Expr, File, FnArg, FnCall, FnDef, Ident, Literal, Stmt,
    Type,
};
use honk::parser::{parse, ParseError};
use honk::token::{strip_comments, Token};

/// The token that one word of a test program spells.
fn word(w: &str) -> Token {
    match w {
        "def" => Token::Def,
        "unique" | "u" => Token::Unique,
        "sync" => Token::Sync,
        "fn" => Token::Fn,
        "once" => Token::Once,
        "carryover" => Token::CarryOver,
        "type" => Token::Type,
        "(" => Token::OpenParen,
        ")" => Token::CloseParen,
        "[" => Token::OpenBracket,
        "]" => Token::CloseBracket,
        "{" => Token::OpenCurly,
        "}" => Token::CloseCurly,
        "|" => Token::Pipe,
        ";" => Token::SemiColon,
        ":" => Token::Colon,
        "," => Token::Comma,
        "=" => Token::Eq,
        "->" => Token::Arrow,
        "==" => Token::EqEq,
        "!=" => Token::BangEq,
        "+=" => Token::PlusEq,
        "-=" => Token::DashEq,
        "*=" => Token::StarEq,
        "/=" => Token::SlashEq,
        "+" => Token::Plus,
        "?" => Token::Question,
        "0b" | "1b" => Token::Bit(w.to_string()),
        _ if w.starts_with('"') => Token::Str(w.to_string()),
        _ if w.starts_with('\'') => Token::Char(w.to_string()),
        _ if w.contains('.') => Token::Float(w.to_string(), f64::from_str(w).unwrap().to_bits()),
        _ if w.chars().next().unwrap().is_ascii_digit() => Token::Int(w.to_string()),
        _ => Token::Ident(w.to_string()),
    }
}

/// The tokens of a test program whose tokens stand apart.
fn words(src: &str) -> Vec<Token> {
    src.split_whitespace().map(word).collect()
}

fn ident_rule() -> impl Parser<Token, Ident, Error = Simple<Token>> + Clone {
    filter_map(|span, tok| {
        if let Token::Ident(i) = &tok {
            Ok(Ident::new(i))
        } else {
            Err(Simple::expected_input_found(span, [Some(Token::Ident("...".to_string()))], Some(tok)))
        }
    })
}

fn type_rule() -> impl Parser<Token, Type, Error = Simple<Token>> + Clone {
    recursive(|ty| {
        filter_map(|span, tok| match &tok {
            Token::Ident(name)
                if matches!(name.as_str(), "null" | "int" | "float" | "char" | "chararray" | "bit") =>
            {
                Ok(Type::named(name))
            }
            _ => Err(Simple::custom(span, "unrecognized type")),
        })
        .or(ty
            .clone()
            .delimited_by(just(Token::OpenBracket), just(Token::CloseBracket))
            .map(|ty| Type::Array(Box::new(ty))))
        .or(just(Token::Fn)
            .ignore_then(just(Token::Colon))
            .ignore_then(ty.clone())
            .then(
                ty.separated_by(just(Token::Comma))
                    .delimited_by(just(Token::OpenParen), just(Token::CloseParen)),
            )
            .map(|(ret, args)| Type::Fn(Box::new(ret), args)))
    })
}

fn fn_arg_rule() -> impl Parser<Token, FnArg, Error = Simple<Token>> + Clone {
    ident_rule()
        .then_ignore(just(Token::Colon))
        .then(type_rule())
        .map(|(name, ty)| FnArg { name, ty })
}

fn assign_op_rule() -> impl Parser<Token, AssignOp, Error = Simple<Token>> + Clone {
    just(Token::Eq)
        .to(AssignOp::Eq)
        .or(just(Token::PlusEq).to(AssignOp::PlusEq))
        .or(just(Token::DashEq).to(AssignOp::SubEq))
        .or(just(Token::StarEq).to(AssignOp::MulEq))
        .or(just(Token::SlashEq).to(AssignOp::DivEq))
}

fn assign_rule(
    expr: impl Parser<Token, Expr, Error = Simple<Token>> + Clone,
) -> impl Parser<Token, Assign, Error = Simple<Token>> + Clone {
    just(Token::Unique)
        .to(AssignTy::Unique)
        .or(just(Token::CarryOver).to(AssignTy::CarryOver))
        .or_not()
        .map(|ty| ty.unwrap_or(AssignTy::Default))
        .then(ident_rule())
        .then(assign_op_rule())
        .then(expr)
        .then_ignore(just(Token::SemiColon))
        .map(|(((ty, ident), assign_op), val)| Assign { ty, ident, assign_op, val })
}

fn fn_call_rule(
    expr: impl Parser<Token, Expr, Error = Simple<Token>> + Clone,
) -> impl Parser<Token, FnCall, Error = Simple<Token>> + Clone {
    ident_rule()
        .then(
            expr.separated_by(just(Token::Comma))
                .delimited_by(just(Token::OpenParen), just(Token::CloseParen)),
        )
        .map(|(name, args)| FnCall { name, args })
}

fn literal_rule<'a>(
    expr: impl Parser<Token, Expr, Error = Simple<Token>> + Clone + 'a,
) -> impl Parser<Token, Literal, Error = Simple<Token>> + Clone + 'a {
    filter_map(|span, tok| match &tok {
        Token::Int(i) => Ok(Literal::Int(i128::from_str(i).unwrap())),
        Token::Float(_, bits) => Ok(Literal::Float(*bits)),
        Token::Bit(b) => Ok(Literal::Bit(&b[0..1] == "1")),
        Token::Char(c) => Ok(Literal::Char(c.chars().nth(1).unwrap())),
        Token::Str(s) => Ok(Literal::CharArray(s.to_string())),
        _ => Err(Simple::expected_input_found(span, [Some(Token::Int("...".to_string()))], Some(tok))),
    })
    .or(expr
        .clone()
        .separated_by(just(Token::Comma))
        .delimited_by(just(Token::OpenBracket), just(Token::CloseBracket))
        .map(Literal::Array))
    .or(just(Token::Fn)
        .ignore_then(just(Token::Colon))
        .ignore_then(type_rule())
        .then(
            fn_arg_rule()
                .separated_by(just(Token::Comma))
                .delimited_by(just(Token::OpenParen), just(Token::CloseParen)),
        )
        .then_ignore(just(Token::Arrow))
        .then(expr.clone().delimited_by(just(Token::Pipe), just(Token::Pipe)))
        .then(
            stmt_rule(expr)
                .repeated()
                .delimited_by(just(Token::OpenBracket), just(Token::CloseBracket)),
        )
        .map_with_span(|(((ret, args), limit), stmts), span: Range<usize>| {
            Literal::Fn(FnDef {
                id: span.start as u64,
                name: Ident::new("<closure>"),
                ret,
                args,
                limit: Box::new(limit),
                stmts,
            })
        }))
}

fn expr_rule<'a>() -> impl Parser<Token, Expr, Error = Simple<Token>> + Clone + 'a {
    recursive(|expr| {
        let atom = literal_rule(expr.clone())
            .map(Expr::Literal)
            .or(fn_call_rule(expr).map(Expr::FnCall))
            .or(ident_rule().map(Expr::Ident));
        let op = just(Token::EqEq).to(BinOp::Eq).or(just(Token::BangEq).to(BinOp::Neq));
        atom.clone()
            .then(op.then(atom).repeated())
            .foldl(|left, (op, right)| Expr::BinOp(Box::new(left), op, Box::new(right)))
    })
}

fn fn_def_rule<'a>(
    expr: impl Parser<Token, Expr, Error = Simple<Token>> + Clone + 'a,
    stmt: impl Parser<Token, Stmt, Error = Simple<Token>> + Clone + 'a,
) -> impl Parser<Token, FnDef, Error = Simple<Token>> + Clone + 'a {
    just(Token::Def)
        .ignore_then(ident_rule())
        .then_ignore(just(Token::Colon))
        .then(type_rule())
        .then(
            fn_arg_rule()
                .separated_by(just(Token::Comma))
                .delimited_by(just(Token::OpenParen), just(Token::CloseParen)),
        )
        .then_ignore(just(Token::Arrow))
        .then(expr.delimited_by(just(Token::Pipe), just(Token::Pipe)))
        .then(stmt.repeated().delimited_by(just(Token::OpenBracket), just(Token::CloseBracket)))
        .map_with_span(|((((name, ret), args), limit), stmts), span: Range<usize>| FnDef {
            id: span.start as u64,
            name,
            ret,
            args,
            limit: Box::new(limit),
            stmts,
        })
}

fn stmt_rule<'a>(
    expr: impl Parser<Token, Expr, Error = Simple<Token>> + Clone + 'a,
) -> impl Parser<Token, Stmt, Error = Simple<Token>> + Clone + 'a {
    recursive(|stmt| {
        fn_def_rule(expr.clone(), stmt.clone())
            .map(Stmt::FnDef)
            .or(assign_rule(expr.clone()).map(Stmt::Assign))
            .or(just(Token::Sync)
                .ignore_then(
                    stmt.clone()
                        .repeated()
                        .delimited_by(just(Token::OpenCurly), just(Token::CloseCurly)),
                )
                .map(Stmt::Sync))
            .or(just(Token::Once)
                .ignore_then(
                    stmt.repeated().delimited_by(just(Token::OpenCurly), just(Token::CloseCurly)),
                )
                .map(Stmt::Once))
            .or(just(Token::Type)
                .ignore_then(ident_rule())
                .then_ignore(just(Token::Eq))
                .then(type_rule())
                .then_ignore(just(Token::SemiColon))
                .map(|(name, ty)| Stmt::TypeDef(name, ty)))
            .or(expr.map(Stmt::Expr).then_ignore(just(Token::SemiColon)))
    })
}

/// The same grammar written with combinators, to hold the parser against.
fn combinators(tokens: &[Token]) -> Option<File> {
    let n = tokens.len();
    let stream = Stream::from_iter(
        n..n + 1,
        tokens.iter().cloned().enumerate().map(|(i, t)| (t, i..i + 1)),
    );
    stmt_rule(expr_rule())
        .repeated()
        .then_ignore(end())
        .map(|stmts| File { stmts })
        .parse(stream)
        .ok()
}

const PROGRAMS: [&str; 30] = [
    "",
    "x = 1 ;",
    "unique x = 1 ;",
    "u x = 1 ;",
    "carryover total = 0 ;",
    "x += 1 ; x -= 2 ; x *= 3 ; x /= 4 ;",
    "x == y ;",
    "a == b != c == d ;",
    "f ( ) ;",
    "f ( 1 , 2.5 , 'c' , \"text\" , 1b , 0b , [ 1 , 2 ] , g ( x ) ) ;",
    "x = [ ] ;",
    "x = [ [ 1 ] , [ ] , [ f ( ) == 2 ] ] ;",
    "def f : int ( ) -> | 1b | [ ]",
    "def f : int ( a : int ) -> | a == 3 | [ a += 1 ; ]",
    "def f : [ int ] ( a : [ [ bit ] ] , b : fn : null ( int , float ) ) -> | 1b | [ x = a ; ]",
    "def outer : null ( ) -> | done | [ def inner : null ( ) -> | 1b | [ ] inner ( ) ; unique done = 1b ; ]",
    "x = fn : int ( a : int ) -> | 1b | [ a ; ] ;",
    "x = fn : null ( ) -> | 1b | [ ] == fn : null ( ) -> | 1b | [ ] ;",
    "sync { x = 1 ; y = 2 ; }",
    "once { unique x = 1 ; } sync { } once { once { f ( ) ; } }",
    "type Foo = int ;",
    "type Foo = fn : int ( ) ; type Bar = [ chararray ] ;",
    "def f : null ( ) -> | x == [ 1 , 2 ] | [ sync { once { carryover n = 0 ; } n += 1 ; } ]",
    "x = 007 ; y = 0 ; z = 170141183460469231731687303715884105727 ;",
    "x = 'a' ; y = \"\" ; z = 3. ;",
    "f ( g ( h ( 1 ) ) ) == i ( ) ;",
    "def f : fn : int ( ) ( ) -> | 1b | [ ]",
    "int = 1 ; null ( ) ; bit == char ;",
    "def f : int ( a : int , b : bit , c : char ) -> | f ( a , b , c ) | [ f ( a , b , c ) ; ]",
    "x = y ; def g : null ( ) -> | 1b | [ ] g ( ) ; type T = bit ; once { } x == y ;",
];

const NOT_PROGRAMS: [&str; 30] = [
    "x",
    "x = ;",
    "x = 1",
    "= 1 ;",
    "x = 1 ; ;",
    "unique = 1 ;",
    "unique carryover x = 1 ;",
    "x + 1 ;",
    "f ( 1 , ) ;",
    "f ( , 1 ) ;",
    "f ( 1 2 ) ;",
    "f ( ;",
    "[ 1 , 2 ;",
    "x = [ 1 , ] ;",
    "def f : int ( ) -> | 1b | [",
    "def f : int ( ) -> | 1b [ ]",
    "def f : int ( ) | 1b | [ ]",
    "def f int ( ) -> | 1b | [ ]",
    "def : int ( ) -> | 1b | [ ]",
    "def f : Foo ( ) -> | 1b | [ ]",
    "def f : int ( a ) -> | 1b | [ ]",
    "def f : int ( a : int , ) -> | 1b | [ ]",
    "def f : int ( ) -> | | [ ]",
    "sync x = 1 ;",
    "sync { x = 1 ;",
    "once { x = 1 }",
    "type Foo = Bar ;",
    "type Foo int ;",
    "type = int ;",
    "x = 1 ; y = ; z = 3 ;",
];

#[test]
fn the_parser_reads_what_the_combinators_read() {
    for src in PROGRAMS.iter() {
        let tokens = words(src);
        let ours = parse(&tokens);
        let theirs = combinators(&tokens);
        assert!(theirs.is_some(), "the combinators refuse {:?}", src);
        assert_eq!(
            format!("{:?}", ours.expect(src)),
            format!("{:?}", theirs.unwrap()),
            "the trees differ for {:?}",
            src
        );
    }
}

#[test]
fn the_parser_refuses_what_the_combinators_refuse() {
    for src in NOT_PROGRAMS.iter() {
        let tokens = words(src);
        assert!(combinators(&tokens).is_none(), "the combinators accept {:?}", src);
        assert!(parse(&tokens).is_err(), "the parser accepts {:?}", src);
    }
}

#[test]
fn a_refusal_names_the_first_token_not_covered() {
    let cases = [
        ("x", 0),
        ("x = 1 ; ;", 4),
        ("x = 1 ; y = ; z = 3 ;", 4),
        ("f ( ) ; def f : int ( ) -> | 1b | [ x = ; ]", 4),
        ("once { } sync { x }", 3),
        ("x + 1 ;", 0),
    ];
    for (src, at) in cases.iter() {
        let tokens = words(src);
        assert_eq!(parse(&tokens).unwrap_err(), ParseError { at: *at }, "for {:?}", src);
    }
    let tokens = words("x = 1 ; ? y");
    let err = parse(&tokens).unwrap_err();
    assert_eq!(err.at, 4);
    assert_eq!(err.message(&tokens), "Unexpected token `?`");
}

#[test]
fn an_assignment_is_read_with_its_modifier_and_operator() {
    let file = parse(&words("carryover total -= f ( 1 ) ;")).unwrap();
    assert_eq!(file.stmts.len(), 1);
    match &file.stmts[0] {
        Stmt::Assign(a) => {
            assert_eq!(a.ty, AssignTy::CarryOver);
            assert_eq!(a.ident.as_str(), "total");
            assert_eq!(a.assign_op, AssignOp::SubEq);
            match &a.val {
                Expr::FnCall(call) => {
                    assert_eq!(call.name.as_str(), "f");
                    assert!(matches!(call.args[0], Expr::Literal(Literal::Int(1))));
                }
                other => panic!("expected a call, got {:?}", other),
            }
        }
        other => panic!("expected an assignment, got {:?}", other),
    }
}

#[test]
fn comparisons_group_to_the_left() {
    let file = parse(&words("a == b != c ;")).unwrap();
    match &file.stmts[0] {
        Stmt::Expr(Expr::BinOp(left, BinOp::Neq, right)) => {
            assert!(matches!(**right, Expr::Ident(_)));
            match &**left {
                Expr::BinOp(l, BinOp::Eq, r) => {
                    assert!(matches!(**l, Expr::Ident(_)));
                    assert!(matches!(**r, Expr::Ident(_)));
                }
                other => panic!("expected a comparison, got {:?}", other),
            }
        }
        other => panic!("expected a comparison, got {:?}", other),
    }
}

#[test]
fn a_definition_is_read_with_its_parts_and_its_place() {
    let file = parse(&words(
        "x = 1 ; def f : [ int ] ( a : int , b : bit ) -> | a == 1 | [ a += 1 ; once { } ]",
    ))
    .unwrap();
    match &file.stmts[1] {
        Stmt::FnDef(def) => {
            assert_eq!(def.id, 4);
            assert_eq!(def.name(), "f");
            assert_eq!(def.ret_ty().pretty(), "[int]");
            assert_eq!(def.args.len(), 2);
            assert_eq!(def.args[1].name.as_str(), "b");
            assert_eq!(def.args[1].ty.pretty(), "bit");
            assert!(matches!(*def.limit, Expr::BinOp(_, BinOp::Eq, _)));
            assert_eq!(def.stmts.len(), 2);
            assert!(matches!(def.stmts[1], Stmt::Once(_)));
        }
        other => panic!("expected a definition, got {:?}", other),
    }
    let lit = parse(&words("f = fn : null ( ) -> | 1b | [ ] ;")).unwrap();
    match &lit.stmts[0] {
        Stmt::Assign(a) => match &a.val {
            Expr::Literal(Literal::Fn(def)) => {
                assert_eq!(def.id, 2);
                assert_eq!(def.name(), "<closure>");
            }
            other => panic!("expected a function literal, got {:?}", other),
        },
        other => panic!("expected an assignment, got {:?}", other),
    }
}

#[test]
fn literal_tokens_give_their_values() {
    let file = parse(&words("f ( 42 , 1b , 0b , 'q' , \"hi\" , 2.5 ) ;")).unwrap();
    match &file.stmts[0] {
        Stmt::Expr(Expr::FnCall(call)) => {
            assert!(matches!(call.args[0], Expr::Literal(Literal::Int(42))));
            assert!(matches!(call.args[1], Expr::Literal(Literal::Bit(true))));
            assert!(matches!(call.args[2], Expr::Literal(Literal::Bit(false))));
            assert!(matches!(call.args[3], Expr::Literal(Literal::Char('q'))));
            match &call.args[4] {
                Expr::Literal(Literal::CharArray(s)) => assert_eq!(s, "\"hi\""),
                other => panic!("expected a character array, got {:?}", other),
            }
            match &call.args[5] {
                Expr::Literal(Literal::Float(bits)) => assert_eq!(f64::from_bits(*bits), 2.5),
                other => panic!("expected a float, got {:?}", other),
            }
        }
        other => panic!("expected a call, got {:?}", other),
    }
}

#[test]
fn decimal_texts_give_integers_that_fit() {
    assert_eq!(parse_int("0"), Some(0));
    assert_eq!(parse_int("7"), Some(7));
    assert_eq!(parse_int("0042"), Some(42));
    assert_eq!(parse_int("1234567890"), Some(1234567890));
    assert_eq!(parse_int("170141183460469231731687303715884105727"), Some(i128::MAX));
    assert_eq!(parse_int("170141183460469231731687303715884105728"), None);
    assert_eq!(parse_int("99999999999999999999999999999999999999999999"), None);
    assert_eq!(parse_int(""), None);
    assert_eq!(parse_int("12a"), None);
    assert_eq!(parse_int("-1"), None);
    assert_eq!(parse_int("1 "), None);
    assert_eq!(digit_of('7'), Some(7));
    assert_eq!(digit_of('x'), None);
}

#[test]
fn an_integer_too_large_is_no_literal() {
    let tokens = words("x = 170141183460469231731687303715884105728 ;");
    assert_eq!(parse(&tokens).unwrap_err(), ParseError { at: 0 });
}

#[test]
fn marks_are_found_where_they_stand() {
    let tokens = words("def f : ( ) ;");
    assert!(at_mark(&tokens, 0, Mark::Def));
    assert!(!at_mark(&tokens, 1, Mark::Def));
    assert!(at_mark(&tokens, 2, Mark::Colon));
    assert!(at_mark(&tokens, 5, Mark::SemiColon));
    assert!(!at_mark(&tokens, 6, Mark::SemiColon));
}

#[test]
fn the_rules_read_from_where_they_are_told() {
    let tokens = words("x = [ int ] ; f ( a , b )");
    let (ty, end) = Type::parser(&tokens, 2).unwrap();
    assert_eq!(ty.pretty(), "[int]");
    assert_eq!(end, 5);
    assert!(Type::parser(&tokens, 0).is_none());
    let (name, end) = Ident::parser(&tokens, 0).unwrap();
    assert_eq!((name.as_str(), end), ("x", 1));
    assert_eq!(AssignOp::parser(&tokens, 1), Some(AssignOp::Eq));
    assert_eq!(AssignOp::parser(&tokens, 0), None);
    let (call, end) = FnCall::parser(&tokens, 6).unwrap();
    assert_eq!((call.name.as_str(), call.args.len(), end), ("f", 2, 12));
    let (e, end) = Expr::parser(&tokens, 8).unwrap();
    assert!(matches!(e, Expr::Ident(_)));
    assert_eq!(end, 9);
    assert!(Stmt::parser(&tokens, 6).is_none());
    assert!(Assign::parser(&tokens, 6).is_none());
    assert!(FnDef::parser(&tokens, 0).is_none());
    assert!(Literal::parser(&tokens, 0).is_none());
    let cmp = words("== != =");
    assert_eq!(BinOp::cmp_parser(&cmp, 0), Some(BinOp::Eq));
    assert_eq!(BinOp::cmp_parser(&cmp, 1), Some(BinOp::Neq));
    assert_eq!(BinOp::cmp_parser(&cmp, 2), None);
    assert_eq!(BinOp::cmp_parser(&cmp, 3), None);
    let arg = words("a : int");
    let (a, end) = FnArg::parser(&arg, 0).unwrap();
    assert_eq!((a.name.as_str(), a.ty.pretty().as_str(), end), ("a", "int", 3));
    assert!(File::parser(&tokens).is_err());
}

#[test]
fn a_parsed_program_runs() {
    let tokens = words(
        "def count : int ( n : int ) -> | k == n | [ carryover k = 0 ; k = next ( k ) ; ] \
         unique r = count ( 3 ) ;",
    );
    let mut file = parse(&tokens).unwrap();
    // the language has no arithmetic in its grammar: give `next` a body by hand
    file.stmts.insert(
        0,
        Stmt::FnDef(FnDef {
            id: 1000,
            name: Ident::new("next"),
            ret: Type::named("int"),
            args: vec![FnArg { name: Ident::new("i"), ty: Type::named("int") }],
            limit: Box::new(Expr::Literal(Literal::Bit(true))),
            stmts: vec![Stmt::Expr(Expr::BinOp(
                Box::new(Expr::Ident(Ident::new("i"))),
                BinOp::Add,
                Box::new(Expr::Literal(Literal::Int(1))),
            ))],
        }),
    );
    let mut env = honk::interp::Env::new();
    file.interpret(&mut env, 100).unwrap();
    let mut s = String::new();
    env.lookup_var("r").unwrap().write(&mut s);
    assert_eq!(s, "3");
}

#[test]
fn tokens_show_their_text() {
    assert_eq!(Token::Def.pretty(), "def");
    assert_eq!(Token::Unique.pretty(), "unique");
    assert_eq!(Token::Ident("x".to_string()).pretty(), "x");
    assert_eq!(Token::Ident("...".to_string()).pretty(), "<ident>");
    assert_eq!(Token::Int("...".to_string()).pretty(), "<int>");
    assert_eq!(Token::Int("12".to_string()).pretty(), "12");
    assert_eq!(Token::Float("...".to_string(), 0).pretty(), "<float>");
    assert_eq!(Token::Float("1.5".to_string(), 1.5f64.to_bits()).pretty(), "1.5");
    assert_eq!(Token::Bit("...".to_string()).pretty(), "<bit>");
    assert_eq!(Token::Char("...".to_string()).pretty(), "<char>");
    assert_eq!(Token::Str("...".to_string()).pretty(), "<chararray>");
    assert_eq!(Token::Str("\"s\"".to_string()).pretty(), "\"s\"");
    assert_eq!(Token::Backslash.pretty(), "\\");
    assert_eq!(Token::Arrow.pretty(), "->");
    assert_eq!(Token::SlashEq.pretty(), "/=");
    assert_eq!(Token::String.pretty(), "string");
    assert_eq!(Token::Comment("$ note".to_string()).pretty(), "$ note");
    assert_eq!(Token::Error.pretty(), "<error>");
    assert_eq!(Token::At.pretty(), "@");
    assert_eq!(Token::Question.pretty(), "?");
}

#[test]
fn comments_are_left_out_and_the_rest_keeps_its_order() {
    let tokens = vec![
        (Token::Comment("$ first".to_string()), 0usize),
        (Token::Ident("x".to_string()), 1),
        (Token::Eq, 2),
        (Token::Comment("$$$ in between $$$".to_string()), 3),
        (Token::Int("1".to_string()), 4),
        (Token::SemiColon, 5),
        (Token::Comment("$ last".to_string()), 6),
    ];
    let kept = strip_comments(tokens);
    assert_eq!(
        kept,
        vec![
            (Token::Ident("x".to_string()), 1),
            (Token::Eq, 2),
            (Token::Int("1".to_string()), 4),
            (Token::SemiColon, 5),
        ]
    );
    let none: Vec<(Token, usize)> = strip_comments(vec![]);
    assert!(none.is_empty());
    let only = strip_comments(vec![(Token::Comment("$".to_string()), ())]);
    assert!(only.is_empty());
    let all = strip_comments(vec![(Token::Def, 'a'), (Token::Error, 'b')]);
    assert_eq!(all, vec![(Token::Def, 'a'), (Token::Error, 'b')]);
}
