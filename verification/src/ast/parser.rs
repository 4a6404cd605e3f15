//! The parser: reads a list of tokens as the grammar says.

use vstd::prelude::*;
use vstd::string::*;
use crate::ast::grammar::{
    assign_op, at, comparison, decimal_value, digit_value, g_assign, g_atom, g_braced, g_expr,
    g_expr_rest, g_exprs, g_exprs_rest, g_file, g_fn_arg, g_fn_args, g_fn_args_rest, g_fn_call,
    g_fn_def, g_fn_rest, g_ident, g_literal, g_stmt, g_stmts, g_type, g_type_def, g_types,
    g_types_rest, int_literal, peek, token_literal,
};
use crate::ast::model::{
    expr_views, fn_arg_views, lemma_expr_views_push, lemma_stmt_views_push, stmt_views,
};
use crate::ast::{
    lemma_fn_type_view, type_views, Assign, AssignOp, AssignTy, BinOp, Expr, File, FnArg, FnCall,
    FnDef, Ident, Literal, Stmt, Type,
};
use crate::token::{token_views, Token, TokenView};

verus! {

/// The tokens that the grammar names by themselves.
#[derive(Copy, Clone, Debug, PartialEq, Eq, Structural)]
pub enum Mark {
    Def,
    Sync,
    Once,
    Type,
    Fn,
    Colon,
    Comma,
    SemiColon,
    Eq,
    Arrow,
    Pipe,
    OpenParen,
    CloseParen,
    OpenBracket,
    CloseBracket,
    OpenCurly,
    CloseCurly,
}

impl Mark {
    /// The token that the mark names.
    pub open spec fn token(self) -> TokenView {
        match self {
            Mark::Def => TokenView::Def,
            Mark::Sync => TokenView::Sync,
            Mark::Once => TokenView::Once,
            Mark::Type => TokenView::Type,
            Mark::Fn => TokenView::Fn,
            Mark::Colon => TokenView::Colon,
            Mark::Comma => TokenView::Comma,
            Mark::SemiColon => TokenView::SemiColon,
            Mark::Eq => TokenView::Eq,
            Mark::Arrow => TokenView::Arrow,
            Mark::Pipe => TokenView::Pipe,
            Mark::OpenParen => TokenView::OpenParen,
            Mark::CloseParen => TokenView::CloseParen,
            Mark::OpenBracket => TokenView::OpenBracket,
            Mark::CloseBracket => TokenView::CloseBracket,
            Mark::OpenCurly => TokenView::OpenCurly,
            Mark::CloseCurly => TokenView::CloseCurly,
        }
    }
}

/// Whether the token at `pos` is the one that `mark` names.
pub fn at_mark(tokens: &[Token], pos: usize, mark: Mark) -> (r: bool)
    ensures
        r == at(token_views(tokens@), pos as int, mark.token()),
        r ==> pos < tokens.len(),
{
    if pos >= tokens.len() {
        return false;
    }
    match (&tokens[pos], mark) {
        (Token::Def, Mark::Def) => true,
        (Token::Sync, Mark::Sync) => true,
        (Token::Once, Mark::Once) => true,
        (Token::Type, Mark::Type) => true,
        (Token::Fn, Mark::Fn) => true,
        (Token::Colon, Mark::Colon) => true,
        (Token::Comma, Mark::Comma) => true,
        (Token::SemiColon, Mark::SemiColon) => true,
        (Token::Eq, Mark::Eq) => true,
        (Token::Arrow, Mark::Arrow) => true,
        (Token::Pipe, Mark::Pipe) => true,
        (Token::OpenParen, Mark::OpenParen) => true,
        (Token::CloseParen, Mark::CloseParen) => true,
        (Token::OpenBracket, Mark::OpenBracket) => true,
        (Token::CloseBracket, Mark::CloseBracket) => true,
        (Token::OpenCurly, Mark::OpenCurly) => true,
        (Token::CloseCurly, Mark::CloseCurly) => true,
        _ => false,
    }
}

/// Whether a name is one of the builtin type names.
pub fn is_type_name(name: &str) -> (r: bool)
    ensures
        r == crate::ast::grammar::is_type_name(name@),
{
    let name = String::from_str(name);
    name == String::from_str("null") || name == String::from_str("int") || name
        == String::from_str("float") || name == String::from_str("char") || name
        == String::from_str("chararray") || name == String::from_str("bit")
}

/// The value of a decimal digit, if the character is one.
pub fn digit_of(c: char) -> (r: Option<u8>)
    ensures
        match r {
            Some(d) => digit_value(c) == Some(d as nat) && d < 10,
            None => digit_value(c) is None,
        },
{
    if c == '0' {
        Some(0)
    } else if c == '1' {
        Some(1)
    } else if c == '2' {
        Some(2)
    } else if c == '3' {
        Some(3)
    } else if c == '4' {
        Some(4)
    } else if c == '5' {
        Some(5)
    } else if c == '6' {
        Some(6)
    } else if c == '7' {
        Some(7)
    } else if c == '8' {
        Some(8)
    } else if c == '9' {
        Some(9)
    } else {
        None
    }
}

/// A longer text spells no smaller number, and no number at all where a
/// shorter part of it spells none.
pub proof fn lemma_decimal_grows(s: Seq<char>, k: int, n: int)
    requires
        0 <= k <= n,
    ensures
        match (decimal_value(s, k), decimal_value(s, n)) {
            (Some(a), Some(b)) => a <= b,
            (None, Some(_)) => false,
            _ => true,
        },
    decreases n - k,
{
    if k < n {
        lemma_decimal_grows(s, k, n - 1);
    }
}

/// The integer that a text spells in decimal.
pub fn parse_int(text: &str) -> (r: Option<i128>)
    ensures
        match r {
            Some(i) => int_literal(text@) == Some(i as int),
            None => int_literal(text@) is None,
        },
{
    let n = text.unicode_len();
    if n == 0 {
        return None;
    }
    let mut acc: i128 = 0;
    let mut i: usize = 0;
    while i < n
        invariant
            0 <= i <= n,
            n == text@.len(),
            0 <= acc,
            decimal_value(text@, i as int) == Some(acc as nat),
        decreases n - i,
    {
        let d = match digit_of(text.get_char(i)) {
            Some(d) => d,
            None => {
                proof {
                    lemma_decimal_grows(text@, i + 1, n as int);
                }
                return None;
            },
        };
        let next = match acc.checked_mul(10) {
            Some(m) => m.checked_add(d as i128),
            None => None,
        };
        match next {
            Some(v) => {
                acc = v;
            },
            None => {
                proof {
                    lemma_decimal_grows(text@, i + 1, n as int);
                }
                return None;
            },
        }
        i += 1;
    }
    Some(acc)
}

impl Ident {
    /// Reads an identifier.
    pub fn parser(tokens: &[Token], pos: usize) -> (r: Option<(Ident, usize)>)
        ensures
            match r {
                Some((name, end)) => g_ident(token_views(tokens@), pos as int) == Some(
                    (name@, end as int),
                ) && end == pos + 1 && end <= tokens.len(),
                None => g_ident(token_views(tokens@), pos as int) is None,
            },
    {
        if pos >= tokens.len() {
            return None;
        }
        match &tokens[pos] {
            Token::Ident(name) => Some((Ident::new(name.as_str()), pos + 1)),
            _ => None,
        }
    }
}

impl AssignOp {
    /// Reads an assignment operator.
    pub fn parser(tokens: &[Token], pos: usize) -> (r: Option<AssignOp>)
        ensures
            r == assign_op(peek(token_views(tokens@), pos as int)),
            r is Some ==> pos < tokens.len(),
    {
        if pos >= tokens.len() {
            return None;
        }
        match &tokens[pos] {
            Token::Eq => Some(AssignOp::Eq),
            Token::PlusEq => Some(AssignOp::PlusEq),
            Token::DashEq => Some(AssignOp::SubEq),
            Token::StarEq => Some(AssignOp::MulEq),
            Token::SlashEq => Some(AssignOp::DivEq),
            _ => None,
        }
    }
}

/// The comparison operator at a position of a list of tokens, if one is
/// there.
pub open spec fn comparison_at(tokens: Seq<Token>, pos: usize) -> Option<BinOp> {
    comparison(peek(token_views(tokens), pos as int))
}

/// Reads a comparison operator.
pub fn parse_comparison(tokens: &[Token], pos: usize) -> (r: Option<BinOp>)
    ensures
        r == comparison_at(tokens@, pos),
        r is Some ==> pos < tokens.len(),
{
    if pos >= tokens.len() {
        return None;
    }
    match &tokens[pos] {
        Token::EqEq => Some(BinOp::Eq),
        Token::BangEq => Some(BinOp::Neq),
        _ => None,
    }
}

impl BinOp {
    /// Reads a comparison operator.
    pub fn cmp_parser(tokens: &[Token], pos: usize) -> (r: Option<BinOp>)
        ensures
            r == comparison_at(tokens@, pos),
            r is Some ==> pos < tokens.len(),
    {
        parse_comparison(tokens, pos)
    }
}

impl Type {
    /// Reads a type.
    pub fn parser(tokens: &[Token], pos: usize) -> (r: Option<(Type, usize)>)
        ensures
            match r {
                Some((ty, end)) => g_type(token_views(tokens@), pos as int) == Some(
                    (ty@, end as int),
                ) && pos < end <= tokens.len(),
                None => g_type(token_views(tokens@), pos as int) is None,
            },
        decreases tokens.len() - pos, 1int,
    {
        if pos >= tokens.len() {
            return None;
        }
        match &tokens[pos] {
            Token::Ident(name) => {
                if is_type_name(name.as_str()) {
                    Some((Type::named(name.as_str()), pos + 1))
                } else {
                    None
                }
            },
            Token::OpenBracket => match Type::parser(tokens, pos + 1) {
                Some((inner, p)) => {
                    if at_mark(tokens, p, Mark::CloseBracket) {
                        Some((Type::Array(Box::new(inner)), p + 1))
                    } else {
                        None
                    }
                },
                None => None,
            },
            Token::Fn => {
                if !at_mark(tokens, pos + 1, Mark::Colon) {
                    return None;
                }
                match Type::parser(tokens, pos + 2) {
                    Some((ret, p)) => {
                        if !at_mark(tokens, p, Mark::OpenParen) {
                            return None;
                        }
                        let (args, q) = parse_types(tokens, p + 1);
                        if at_mark(tokens, q, Mark::CloseParen) {
                            let ret = Box::new(ret);
                            proof {
                                lemma_fn_type_view(ret, args);
                            }
                            Some((Type::Fn(ret, args), q + 1))
                        } else {
                            None
                        }
                    },
                    None => None,
                }
            },
            _ => None,
        }
    }
}

/// Reads types separated by commas.
pub fn parse_types(tokens: &[Token], pos: usize) -> (r: (Vec<Type>, usize))
    requires
        pos <= tokens.len(),
    ensures
        g_types(token_views(tokens@), pos as int) == (type_views(r.0@), r.1 as int),
        pos <= r.1 <= tokens.len(),
    decreases tokens.len() - pos, 2int,
{
    let ghost ts = token_views(tokens@);
    let mut acc: Vec<Type> = Vec::new();
    let mut p: usize = match Type::parser(tokens, pos) {
        Some((first, p)) => {
            acc.push(first);
            p
        },
        None => {
            assert(type_views(acc@) =~= Seq::empty());
            return (acc, pos);
        },
    };
    assert(type_views(acc@) =~= seq![acc[0]@]);
    loop
        invariant
            ts == token_views(tokens@),
            pos < p <= tokens.len(),
            g_types(ts, pos as int) == g_types_rest(ts, p as int, type_views(acc@)),
        decreases tokens.len() - p,
    {
        if !at_mark(tokens, p, Mark::Comma) {
            return (acc, p);
        }
        match Type::parser(tokens, p + 1) {
            Some((next, q)) => {
                let ghost before = type_views(acc@);
                acc.push(next);
                assert(type_views(acc@) =~= before.push(next@));
                p = q;
            },
            None => {
                return (acc, p);
            },
        }
    }
}

impl FnArg {
    /// Reads a parameter.
    pub fn parser(tokens: &[Token], pos: usize) -> (r: Option<(FnArg, usize)>)
        ensures
            match r {
                Some((arg, end)) => g_fn_arg(token_views(tokens@), pos as int) == Some(
                    (arg@, end as int),
                ) && pos < end <= tokens.len(),
                None => g_fn_arg(token_views(tokens@), pos as int) is None,
            },
    {
        match Ident::parser(tokens, pos) {
            Some((name, p)) => {
                if !at_mark(tokens, p, Mark::Colon) {
                    return None;
                }
                match Type::parser(tokens, p + 1) {
                    Some((ty, q)) => Some((FnArg { name, ty }, q)),
                    None => None,
                }
            },
            None => None,
        }
    }
}

/// Reads parameters separated by commas.
pub fn parse_fn_args(tokens: &[Token], pos: usize) -> (r: (Vec<FnArg>, usize))
    requires
        pos <= tokens.len(),
    ensures
        g_fn_args(token_views(tokens@), pos as int) == (fn_arg_views(r.0@), r.1 as int),
        pos <= r.1 <= tokens.len(),
{
    let ghost ts = token_views(tokens@);
    let mut acc: Vec<FnArg> = Vec::new();
    let mut p: usize = match FnArg::parser(tokens, pos) {
        Some((first, p)) => {
            acc.push(first);
            p
        },
        None => {
            assert(fn_arg_views(acc@) =~= Seq::empty());
            return (acc, pos);
        },
    };
    assert(fn_arg_views(acc@) =~= seq![acc[0]@]);
    loop
        invariant
            ts == token_views(tokens@),
            pos < p <= tokens.len(),
            g_fn_args(ts, pos as int) == g_fn_args_rest(ts, p as int, fn_arg_views(acc@)),
        decreases tokens.len() - p,
    {
        if !at_mark(tokens, p, Mark::Comma) {
            return (acc, p);
        }
        match FnArg::parser(tokens, p + 1) {
            Some((next, q)) => {
                let ghost before = fn_arg_views(acc@);
                acc.push(next);
                assert(fn_arg_views(acc@) =~= before.push(next@));
                p = q;
            },
            None => {
                return (acc, p);
            },
        }
    }
}

/// The literal that one token stands for, if it stands for one.
pub fn literal_of(token: &Token) -> (r: Option<Literal>)
    ensures
        match r {
            Some(lit) => token_literal(token@) == Some(lit@),
            None => token_literal(token@) is None,
        },
{
    match token {
        Token::Int(text) => match parse_int(text.as_str()) {
            Some(i) => Some(Literal::Int(i)),
            None => None,
        },
        Token::Float(_, bits) => Some(Literal::Float(*bits)),
        Token::Bit(text) => {
            if text.as_str().unicode_len() >= 1 {
                Some(Literal::Bit(text.as_str().get_char(0) == '1'))
            } else {
                None
            }
        },
        Token::Char(text) => {
            if text.as_str().unicode_len() >= 2 {
                Some(Literal::Char(text.as_str().get_char(1)))
            } else {
                None
            }
        },
        Token::Str(text) => Some(Literal::CharArray(text.clone())),
        _ => None,
    }
}

impl Literal {
    /// Reads a literal.
    pub fn parser(tokens: &[Token], pos: usize) -> (r: Option<(Literal, usize)>)
        ensures
            match r {
                Some((lit, end)) => g_literal(token_views(tokens@), pos as int) == Some(
                    (lit@, end as int),
                ) && pos < end <= tokens.len(),
                None => g_literal(token_views(tokens@), pos as int) is None,
            },
        decreases tokens.len() - pos, 5int,
    {
        if pos >= tokens.len() {
            return None;
        }
        match &tokens[pos] {
            Token::OpenBracket => {
                let (items, p) = parse_exprs(tokens, pos + 1);
                if at_mark(tokens, p, Mark::CloseBracket) {
                    Some((Literal::Array(items), p + 1))
                } else {
                    None
                }
            },
            Token::Fn => match parse_fn_rest(tokens, pos + 1, pos, "<closure>") {
                Some((def, p)) => Some((Literal::Fn(def), p)),
                None => None,
            },
            token => match literal_of(token) {
                Some(lit) => Some((lit, pos + 1)),
                None => None,
            },
        }
    }
}

/// Reads the rest of a definition after its name.
pub fn parse_fn_rest(tokens: &[Token], pos: usize, start: usize, name: &str) -> (r: Option<
    (FnDef, usize),
>)
    requires
        start < pos <= tokens.len(),
    ensures
        match r {
            Some((def, end)) => g_fn_rest(
                token_views(tokens@),
                pos as int,
                start as int,
                name@,
            ) == Some((def@, end as int)) && pos < end <= tokens.len(),
            None => g_fn_rest(token_views(tokens@), pos as int, start as int, name@) is None,
        },
    decreases tokens.len() - pos, 4int,
{
    if !at_mark(tokens, pos, Mark::Colon) {
        return None;
    }
    let (ret, p) = match Type::parser(tokens, pos + 1) {
        Some(r) => r,
        None => {
            return None;
        },
    };
    if !at_mark(tokens, p, Mark::OpenParen) {
        return None;
    }
    let (args, q) = parse_fn_args(tokens, p + 1);
    if !(at_mark(tokens, q, Mark::CloseParen) && at_mark(tokens, q + 1, Mark::Arrow) && at_mark(
        tokens,
        q + 2,
        Mark::Pipe,
    )) {
        return None;
    }
    let (limit, r) = match Expr::parser(tokens, q + 3) {
        Some(r) => r,
        None => {
            return None;
        },
    };
    if !(at_mark(tokens, r, Mark::Pipe) && at_mark(tokens, r + 1, Mark::OpenBracket)) {
        return None;
    }
    let (stmts, s) = parse_stmts(tokens, r + 2);
    if !at_mark(tokens, s, Mark::CloseBracket) {
        return None;
    }
    let def = FnDef {
        id: start as u64,
        name: Ident::new(name),
        ret,
        args,
        limit: Box::new(limit),
        stmts,
    };
    Some((def, s + 1))
}

impl FnCall {
    /// Reads a call.
    pub fn parser(tokens: &[Token], pos: usize) -> (r: Option<(FnCall, usize)>)
        ensures
            match r {
                Some((call, end)) => g_fn_call(token_views(tokens@), pos as int) == Some(
                    (
                        crate::ast::model::FnCallView {
                            name: call.name@,
                            args: expr_views(call.args@),
                        },
                        end as int,
                    ),
                ) && pos < end <= tokens.len(),
                None => g_fn_call(token_views(tokens@), pos as int) is None,
            },
        decreases tokens.len() - pos, 5int,
    {
        match Ident::parser(tokens, pos) {
            Some((name, p)) => {
                if !at_mark(tokens, p, Mark::OpenParen) {
                    return None;
                }
                let (args, q) = parse_exprs(tokens, p + 1);
                if at_mark(tokens, q, Mark::CloseParen) {
                    Some((FnCall { name, args }, q + 1))
                } else {
                    None
                }
            },
            None => None,
        }
    }
}

/// Reads an atom: a literal, or a call, or an identifier.
pub fn parse_atom(tokens: &[Token], pos: usize) -> (r: Option<(Expr, usize)>)
    ensures
        match r {
            Some((e, end)) => g_atom(token_views(tokens@), pos as int) == Some((e@, end as int))
                && pos < end <= tokens.len(),
            None => g_atom(token_views(tokens@), pos as int) is None,
        },
    decreases tokens.len() - pos, 6int,
{
    match Literal::parser(tokens, pos) {
        Some((lit, p)) => {
            return Some((Expr::Literal(lit), p));
        },
        None => {},
    }
    match FnCall::parser(tokens, pos) {
        Some((call, p)) => {
            return Some((Expr::FnCall(call), p));
        },
        None => {},
    }
    match Ident::parser(tokens, pos) {
        Some((name, p)) => Some((Expr::Ident(name), p)),
        None => None,
    }
}

impl Expr {
    /// Reads an expression.
    pub fn parser(tokens: &[Token], pos: usize) -> (r: Option<(Expr, usize)>)
        ensures
            match r {
                Some((e, end)) => g_expr(token_views(tokens@), pos as int) == Some(
                    (e@, end as int),
                ) && pos < end <= tokens.len(),
                None => g_expr(token_views(tokens@), pos as int) is None,
            },
        decreases tokens.len() - pos, 7int,
    {
        let ghost ts = token_views(tokens@);
        let (mut left, mut p) = match parse_atom(tokens, pos) {
            Some(r) => r,
            None => {
                return None;
            },
        };
        loop
            invariant
                ts == token_views(tokens@),
                pos < p <= tokens.len(),
                g_expr(ts, pos as int) == Some(g_expr_rest(ts, p as int, left@)),
            decreases tokens.len() - p,
        {
            let op = match parse_comparison(tokens, p) {
                Some(op) => op,
                None => {
                    return Some((left, p));
                },
            };
            match parse_atom(tokens, p + 1) {
                Some((right, q)) => {
                    left = Expr::BinOp(Box::new(left), op, Box::new(right));
                    p = q;
                },
                None => {
                    return Some((left, p));
                },
            }
        }
    }
}

/// Reads expressions separated by commas.
pub fn parse_exprs(tokens: &[Token], pos: usize) -> (r: (Vec<Expr>, usize))
    requires
        pos <= tokens.len(),
    ensures
        g_exprs(token_views(tokens@), pos as int) == (expr_views(r.0@), r.1 as int),
        pos <= r.1 <= tokens.len(),
    decreases tokens.len() - pos, 8int,
{
    let ghost ts = token_views(tokens@);
    let mut acc: Vec<Expr> = Vec::new();
    let mut p: usize = match Expr::parser(tokens, pos) {
        Some((first, p)) => {
            proof {
                lemma_expr_views_push(acc@, first);
                assert(expr_views(acc@) =~= Seq::empty());
                assert(expr_views(acc@).push(first@) =~= seq![first@]);
            }
            acc.push(first);
            p
        },
        None => {
            assert(expr_views(acc@) =~= Seq::empty());
            return (acc, pos);
        },
    };
    loop
        invariant
            ts == token_views(tokens@),
            pos < p <= tokens.len(),
            g_exprs(ts, pos as int) == g_exprs_rest(ts, p as int, expr_views(acc@)),
        decreases tokens.len() - p,
    {
        if !at_mark(tokens, p, Mark::Comma) {
            return (acc, p);
        }
        match Expr::parser(tokens, p + 1) {
            Some((next, q)) => {
                proof {
                    lemma_expr_views_push(acc@, next);
                }
                acc.push(next);
                p = q;
            },
            None => {
                return (acc, p);
            },
        }
    }
}

impl Assign {
    /// Reads an assignment.
    pub fn parser(tokens: &[Token], pos: usize) -> (r: Option<(Assign, usize)>)
        ensures
            match r {
                Some((a, end)) => g_assign(token_views(tokens@), pos as int) == Some(
                    (
                        crate::ast::model::AssignView {
                            ty: a.ty,
                            ident: a.ident@,
                            assign_op: a.assign_op,
                            val: a.val@,
                        },
                        end as int,
                    ),
                ) && pos < end <= tokens.len(),
                None => g_assign(token_views(tokens@), pos as int) is None,
            },
        decreases tokens.len() - pos, 8int,
    {
        if pos >= tokens.len() {
            return None;
        }
        let (ty, p) = match &tokens[pos] {
            Token::Unique => (AssignTy::Unique, pos + 1),
            Token::CarryOver => (AssignTy::CarryOver, pos + 1),
            _ => (AssignTy::Default, pos),
        };
        let (ident, q) = match Ident::parser(tokens, p) {
            Some(r) => r,
            None => {
                return None;
            },
        };
        let op = match AssignOp::parser(tokens, q) {
            Some(op) => op,
            None => {
                return None;
            },
        };
        let (val, r) = match Expr::parser(tokens, q + 1) {
            Some(r) => r,
            None => {
                return None;
            },
        };
        if at_mark(tokens, r, Mark::SemiColon) {
            Some((Assign { ty, ident, assign_op: op, val }, r + 1))
        } else {
            None
        }
    }
}

impl FnDef {
    /// Reads a named definition.
    pub fn parser(tokens: &[Token], pos: usize) -> (r: Option<(FnDef, usize)>)
        ensures
            match r {
                Some((def, end)) => g_fn_def(token_views(tokens@), pos as int) == Some(
                    (def@, end as int),
                ) && pos < end <= tokens.len(),
                None => g_fn_def(token_views(tokens@), pos as int) is None,
            },
        decreases tokens.len() - pos, 8int,
    {
        if !at_mark(tokens, pos, Mark::Def) {
            return None;
        }
        match Ident::parser(tokens, pos + 1) {
            Some((name, p)) => parse_fn_rest(tokens, p, pos, name.as_str()),
            None => None,
        }
    }
}

/// Reads a block: `{` statements `}`.
pub fn parse_braced(tokens: &[Token], pos: usize) -> (r: Option<(Vec<Stmt>, usize)>)
    ensures
        match r {
            Some((stmts, end)) => g_braced(token_views(tokens@), pos as int) == Some(
                (stmt_views(stmts@), end as int),
            ) && pos < end <= tokens.len(),
            None => g_braced(token_views(tokens@), pos as int) is None,
        },
    decreases tokens.len() - pos, 8int,
{
    if !at_mark(tokens, pos, Mark::OpenCurly) {
        return None;
    }
    let (stmts, p) = parse_stmts(tokens, pos + 1);
    if at_mark(tokens, p, Mark::CloseCurly) {
        Some((stmts, p + 1))
    } else {
        None
    }
}

/// Reads a type declaration.
pub fn parse_type_def(tokens: &[Token], pos: usize) -> (r: Option<(Stmt, usize)>)
    ensures
        match r {
            Some((s, end)) => g_type_def(token_views(tokens@), pos as int) == Some(
                (s@, end as int),
            ) && pos < end <= tokens.len(),
            None => g_type_def(token_views(tokens@), pos as int) is None,
        },
{
    if !at_mark(tokens, pos, Mark::Type) {
        return None;
    }
    let (name, p) = match Ident::parser(tokens, pos + 1) {
        Some(r) => r,
        None => {
            return None;
        },
    };
    if !at_mark(tokens, p, Mark::Eq) {
        return None;
    }
    let (ty, q) = match Type::parser(tokens, p + 1) {
        Some(r) => r,
        None => {
            return None;
        },
    };
    if at_mark(tokens, q, Mark::SemiColon) {
        Some((Stmt::TypeDef(name, ty), q + 1))
    } else {
        None
    }
}

impl Stmt {
    /// Reads a statement.
    pub fn parser(tokens: &[Token], pos: usize) -> (r: Option<(Stmt, usize)>)
        ensures
            match r {
                Some((s, end)) => g_stmt(token_views(tokens@), pos as int) == Some(
                    (s@, end as int),
                ) && pos < end <= tokens.len(),
                None => g_stmt(token_views(tokens@), pos as int) is None,
            },
        decreases tokens.len() - pos, 9int,
    {
        match FnDef::parser(tokens, pos) {
            Some((def, p)) => {
                return Some((Stmt::FnDef(def), p));
            },
            None => {},
        }
        match Assign::parser(tokens, pos) {
            Some((a, p)) => {
                return Some((Stmt::Assign(a), p));
            },
            None => {},
        }
        if at_mark(tokens, pos, Mark::Sync) {
            return match parse_braced(tokens, pos + 1) {
                Some((stmts, p)) => Some((Stmt::Sync(stmts), p)),
                None => None,
            };
        }
        if at_mark(tokens, pos, Mark::Once) {
            return match parse_braced(tokens, pos + 1) {
                Some((stmts, p)) => Some((Stmt::Once(stmts), p)),
                None => None,
            };
        }
        match parse_type_def(tokens, pos) {
            Some(r) => {
                return Some(r);
            },
            None => {},
        }
        match Expr::parser(tokens, pos) {
            Some((e, p)) => {
                if at_mark(tokens, p, Mark::SemiColon) {
                    Some((Stmt::Expr(e), p + 1))
                } else {
                    None
                }
            },
            None => None,
        }
    }
}

/// Reads as many statements as can be read.
pub fn parse_stmts(tokens: &[Token], pos: usize) -> (r: (Vec<Stmt>, usize))
    requires
        pos <= tokens.len(),
    ensures
        g_stmts(token_views(tokens@), pos as int, Seq::empty()) == (
            stmt_views(r.0@),
            r.1 as int,
        ),
        pos <= r.1 <= tokens.len(),
    decreases tokens.len() - pos, 10int,
{
    let ghost ts = token_views(tokens@);
    let mut acc: Vec<Stmt> = Vec::new();
    let mut p: usize = pos;
    assert(stmt_views(acc@) =~= Seq::empty());
    loop
        invariant
            ts == token_views(tokens@),
            pos <= p <= tokens.len(),
            g_stmts(ts, pos as int, Seq::empty()) == g_stmts(ts, p as int, stmt_views(acc@)),
        decreases tokens.len() - p,
    {
        match Stmt::parser(tokens, p) {
            Some((s, q)) => {
                proof {
                    lemma_stmt_views_push(acc@, s);
                }
                acc.push(s);
                p = q;
            },
            None => {
                return (acc, p);
            },
        }
    }
}

impl File {
    /// Reads a whole file: statements up to the end of the tokens.
    pub fn parser(tokens: &[Token]) -> (r: Result<File, usize>)
        ensures
            match r {
                Ok(file) => g_file(token_views(tokens@)) == Ok::<
                    crate::ast::model::FileView,
                    int,
                >(file@),
                Err(at) => g_file(token_views(tokens@)) == Err::<crate::ast::model::FileView, int>(
                    at as int,
                ) && at < tokens.len(),
            },
    {
        let (stmts, p) = parse_stmts(tokens, 0);
        if p == tokens.len() {
            Ok(File { stmts })
        } else {
            Err(p)
        }
    }
}

} // verus!
