//! The grammar: which tree a list of tokens is read as.
//!
//! Every rule reads the tokens from a position on and either fails or
//! gives what it read and the position after it. Where a rule has
//! alternatives, the first that succeeds counts. A repetition reads as many
//! items as it can.

use vstd::prelude::*;
use crate::ast::model::{
    AssignView, ExprView, FileView, FnArgView, FnCallView, FnDefView, LiteralView, StmtView,
};
use crate::ast::{AssignOp, AssignTy, BinOp, TypeView};
use crate::token::TokenView;

verus! {

/// The token at a position, if there is one.
pub open spec fn peek(ts: Seq<TokenView>, pos: int) -> Option<TokenView> {
    if 0 <= pos < ts.len() {
        Some(ts[pos])
    } else {
        None
    }
}

/// Whether the token at a position is the given one.
pub open spec fn at(ts: Seq<TokenView>, pos: int, t: TokenView) -> bool {
    peek(ts, pos) == Some(t)
}

/// The value of a decimal digit, if the character is one.
pub open spec fn digit_value(c: char) -> Option<nat> {
    if c == '0' {
        Some(0)
    } else if c == '1' {
        Some(1)
    } else if c == '2' {
        Some(2)
    } else if c == '3' {
        Some(3)
    } else if c == '4' {
        Some(4)
    } else if c == '5' {
        Some(5)
    } else if c == '6' {
        Some(6)
    } else if c == '7' {
        Some(7)
    } else if c == '8' {
        Some(8)
    } else if c == '9' {
        Some(9)
    } else {
        None
    }
}

/// The number that the first `n` characters spell in decimal, if all of
/// them are digits.
pub open spec fn decimal_value(s: Seq<char>, n: int) -> Option<nat>
    decreases n,
{
    if n <= 0 {
        Some(0)
    } else {
        match (decimal_value(s, n - 1), digit_value(s[n - 1])) {
            (Some(v), Some(d)) => Some(v * 10 + d),
            _ => None,
        }
    }
}

/// The integer that a text spells, if it is one or more decimal digits and
/// the native integer can hold the number.
pub open spec fn int_literal(s: Seq<char>) -> Option<int> {
    match decimal_value(s, s.len() as int) {
        Some(v) => if s.len() > 0 && v <= i128::MAX {
            Some(v as int)
        } else {
            None
        },
        None => None,
    }
}

/// Whether a name is one of the builtin type names.
pub open spec fn is_type_name(name: Seq<char>) -> bool {
    name == "null"@ || name == "int"@ || name == "float"@ || name == "char"@ || name
        == "chararray"@ || name == "bit"@
}

/// The comparison operator that a token is, if it is one.
pub open spec fn comparison(t: Option<TokenView>) -> Option<BinOp> {
    match t {
        Some(TokenView::EqEq) => Some(BinOp::Eq),
        Some(TokenView::BangEq) => Some(BinOp::Neq),
        _ => None,
    }
}

/// The assignment operator that a token is, if it is one.
pub open spec fn assign_op(t: Option<TokenView>) -> Option<AssignOp> {
    match t {
        Some(TokenView::Eq) => Some(AssignOp::Eq),
        Some(TokenView::PlusEq) => Some(AssignOp::PlusEq),
        Some(TokenView::DashEq) => Some(AssignOp::SubEq),
        Some(TokenView::StarEq) => Some(AssignOp::MulEq),
        Some(TokenView::SlashEq) => Some(AssignOp::DivEq),
        _ => None,
    }
}

/// An identifier: one identifier token.
pub open spec fn g_ident(ts: Seq<TokenView>, pos: int) -> Option<(Seq<char>, int)> {
    match peek(ts, pos) {
        Some(TokenView::Ident(name)) => Some((name, pos + 1)),
        _ => None,
    }
}

/// A type: a builtin type name; or `[` type `]`; or `fn` `:` type `(`
/// types `)`.
pub open spec fn g_type(ts: Seq<TokenView>, pos: int) -> Option<(TypeView, int)>
    decreases ts.len() - pos, 1int,
{
    match peek(ts, pos) {
        Some(TokenView::Ident(name)) => if is_type_name(name) {
            Some((TypeView::Named(name), pos + 1))
        } else {
            None
        },
        Some(TokenView::OpenBracket) => match g_type(ts, pos + 1) {
            Some((inner, p)) => if at(ts, p, TokenView::CloseBracket) {
                Some((TypeView::Array(Box::new(inner)), p + 1))
            } else {
                None
            },
            None => None,
        },
        Some(TokenView::Fn) => if at(ts, pos + 1, TokenView::Colon) {
            match g_type(ts, pos + 2) {
                Some((ret, p)) => if p > pos && at(ts, p, TokenView::OpenParen) {
                    let (args, q) = g_types(ts, p + 1);
                    if at(ts, q, TokenView::CloseParen) {
                        Some((TypeView::Fn(Box::new(ret), args), q + 1))
                    } else {
                        None
                    }
                } else {
                    None
                },
                None => None,
            }
        } else {
            None
        },
        _ => None,
    }
}

/// Types separated by commas: none, or one and then as many `,` type as
/// can be read.
pub open spec fn g_types(ts: Seq<TokenView>, pos: int) -> (Seq<TypeView>, int)
    decreases ts.len() - pos, 2int,
{
    match g_type(ts, pos) {
        Some((first, p)) => if pos < p <= ts.len() {
            g_types_rest(ts, p, seq![first])
        } else {
            (Seq::empty(), pos)
        },
        None => (Seq::empty(), pos),
    }
}

/// As many `,` type as can be read, after the types in `acc`.
pub open spec fn g_types_rest(ts: Seq<TokenView>, pos: int, acc: Seq<TypeView>) -> (
    Seq<TypeView>,
    int,
)
    decreases ts.len() - pos, 0int,
{
    if at(ts, pos, TokenView::Comma) {
        match g_type(ts, pos + 1) {
            Some((next, p)) => if pos < p <= ts.len() {
                g_types_rest(ts, p, acc.push(next))
            } else {
                (acc, pos)
            },
            None => (acc, pos),
        }
    } else {
        (acc, pos)
    }
}

/// A parameter: identifier `:` type.
pub open spec fn g_fn_arg(ts: Seq<TokenView>, pos: int) -> Option<(FnArgView, int)> {
    match g_ident(ts, pos) {
        Some((name, p)) => if at(ts, p, TokenView::Colon) {
            match g_type(ts, p + 1) {
                Some((ty, q)) => Some((FnArgView { name, ty }, q)),
                None => None,
            }
        } else {
            None
        },
        None => None,
    }
}

/// Parameters separated by commas.
pub open spec fn g_fn_args(ts: Seq<TokenView>, pos: int) -> (Seq<FnArgView>, int) {
    match g_fn_arg(ts, pos) {
        Some((first, p)) => if pos < p <= ts.len() {
            g_fn_args_rest(ts, p, seq![first])
        } else {
            (Seq::empty(), pos)
        },
        None => (Seq::empty(), pos),
    }
}

/// As many `,` parameter as can be read, after the parameters in `acc`.
pub open spec fn g_fn_args_rest(ts: Seq<TokenView>, pos: int, acc: Seq<FnArgView>) -> (
    Seq<FnArgView>,
    int,
)
    decreases ts.len() - pos,
{
    if at(ts, pos, TokenView::Comma) {
        match g_fn_arg(ts, pos + 1) {
            Some((next, p)) => if pos < p <= ts.len() {
                g_fn_args_rest(ts, p, acc.push(next))
            } else {
                (acc, pos)
            },
            None => (acc, pos),
        }
    } else {
        (acc, pos)
    }
}

/// The literal that one token stands for, if it stands for one.
pub open spec fn token_literal(t: TokenView) -> Option<LiteralView> {
    match t {
        TokenView::Int(text) => match int_literal(text) {
            Some(i) => Some(LiteralView::Int(i)),
            None => None,
        },
        TokenView::Float(_, bits) => Some(LiteralView::Float(bits)),
        TokenView::Bit(text) => if text.len() >= 1 {
            Some(LiteralView::Bit(text[0] == '1'))
        } else {
            None
        },
        TokenView::Char(text) => if text.len() >= 2 {
            Some(LiteralView::Char(text[1]))
        } else {
            None
        },
        TokenView::Str(text) => Some(LiteralView::CharArray(text)),
        _ => None,
    }
}

/// A literal: a literal token; or `[` expressions `]`; or `fn` and the
/// rest of a definition, which is then named `<closure>`.
pub open spec fn g_literal(ts: Seq<TokenView>, pos: int) -> Option<(LiteralView, int)>
    decreases ts.len() - pos, 5int,
{
    match peek(ts, pos) {
        Some(TokenView::OpenBracket) => {
            let (items, p) = g_exprs(ts, pos + 1);
            if at(ts, p, TokenView::CloseBracket) {
                Some((LiteralView::Array(items), p + 1))
            } else {
                None
            }
        },
        Some(TokenView::Fn) => match g_fn_rest(ts, pos + 1, pos, "<closure>"@) {
            Some((def, p)) => Some((LiteralView::Fn(Box::new(def)), p)),
            None => None,
        },
        Some(t) => match token_literal(t) {
            Some(lit) => Some((lit, pos + 1)),
            None => None,
        },
        None => None,
    }
}

/// The rest of a definition after its name: `:` type `(` parameters `)`
/// `->` `|` expression `|` `[` statements `]`. The definition's identity
/// is the position of its first token.
pub open spec fn g_fn_rest(ts: Seq<TokenView>, pos: int, start: int, name: Seq<char>) -> Option<
    (FnDefView, int),
>
    decreases ts.len() - pos, 4int,
{
    if at(ts, pos, TokenView::Colon) {
        match g_type(ts, pos + 1) {
            Some((ret, p)) => if p > pos && at(ts, p, TokenView::OpenParen) {
                let (args, q) = g_fn_args(ts, p + 1);
                if q > p && at(ts, q, TokenView::CloseParen) && at(ts, q + 1, TokenView::Arrow)
                    && at(ts, q + 2, TokenView::Pipe) {
                    match g_expr(ts, q + 3) {
                        Some((limit, r)) => if r > q && at(ts, r, TokenView::Pipe) && at(
                            ts,
                            r + 1,
                            TokenView::OpenBracket,
                        ) {
                            let (stmts, s) = g_stmts(ts, r + 2, Seq::empty());
                            if at(ts, s, TokenView::CloseBracket) {
                                Some(
                                    (
                                        FnDefView {
                                            id: start as u64,
                                            name,
                                            ret,
                                            args,
                                            limit,
                                            stmts,
                                        },
                                        s + 1,
                                    ),
                                )
                            } else {
                                None
                            }
                        } else {
                            None
                        },
                        None => None,
                    }
                } else {
                    None
                }
            } else {
                None
            },
            None => None,
        }
    } else {
        None
    }
}

/// A call: identifier `(` expressions `)`.
pub open spec fn g_fn_call(ts: Seq<TokenView>, pos: int) -> Option<(FnCallView, int)>
    decreases ts.len() - pos, 5int,
{
    match g_ident(ts, pos) {
        Some((name, p)) => if at(ts, p, TokenView::OpenParen) {
            let (args, q) = g_exprs(ts, p + 1);
            if at(ts, q, TokenView::CloseParen) {
                Some((FnCallView { name, args }, q + 1))
            } else {
                None
            }
        } else {
            None
        },
        None => None,
    }
}

/// An atom: a literal, or a call, or an identifier.
pub open spec fn g_atom(ts: Seq<TokenView>, pos: int) -> Option<(ExprView, int)>
    decreases ts.len() - pos, 6int,
{
    match g_literal(ts, pos) {
        Some((lit, p)) => Some((ExprView::Literal(lit), p)),
        None => match g_fn_call(ts, pos) {
            Some((call, p)) => Some((ExprView::FnCall(call), p)),
            None => match g_ident(ts, pos) {
                Some((name, p)) => Some((ExprView::Ident(name), p)),
                None => None,
            },
        },
    }
}

/// An expression: an atom and then as many comparison-and-atom as can be
/// read; comparisons group to the left.
pub open spec fn g_expr(ts: Seq<TokenView>, pos: int) -> Option<(ExprView, int)>
    decreases ts.len() - pos, 7int,
{
    match g_atom(ts, pos) {
        Some((first, p)) => if pos < p <= ts.len() {
            Some(g_expr_rest(ts, p, first))
        } else {
            None
        },
        None => None,
    }
}

/// As many comparison-and-atom as can be read, after the expression `left`.
pub open spec fn g_expr_rest(ts: Seq<TokenView>, pos: int, left: ExprView) -> (ExprView, int)
    decreases ts.len() - pos, 0int,
{
    match comparison(peek(ts, pos)) {
        Some(op) => match g_atom(ts, pos + 1) {
            Some((right, p)) => if pos < p <= ts.len() {
                g_expr_rest(ts, p, ExprView::BinOp(Box::new(left), op, Box::new(right)))
            } else {
                (left, pos)
            },
            None => (left, pos),
        },
        None => (left, pos),
    }
}

/// Expressions separated by commas.
pub open spec fn g_exprs(ts: Seq<TokenView>, pos: int) -> (Seq<ExprView>, int)
    decreases ts.len() - pos, 8int,
{
    match g_expr(ts, pos) {
        Some((first, p)) => if pos < p <= ts.len() {
            g_exprs_rest(ts, p, seq![first])
        } else {
            (Seq::empty(), pos)
        },
        None => (Seq::empty(), pos),
    }
}

/// As many `,` expression as can be read, after the expressions in `acc`.
pub open spec fn g_exprs_rest(ts: Seq<TokenView>, pos: int, acc: Seq<ExprView>) -> (
    Seq<ExprView>,
    int,
)
    decreases ts.len() - pos, 0int,
{
    if at(ts, pos, TokenView::Comma) {
        match g_expr(ts, pos + 1) {
            Some((next, p)) => if pos < p <= ts.len() {
                g_exprs_rest(ts, p, acc.push(next))
            } else {
                (acc, pos)
            },
            None => (acc, pos),
        }
    } else {
        (acc, pos)
    }
}

/// The modifier of an assignment and the position after it.
pub open spec fn g_modifier(ts: Seq<TokenView>, pos: int) -> (AssignTy, int) {
    match peek(ts, pos) {
        Some(TokenView::Unique) => (AssignTy::Unique, pos + 1),
        Some(TokenView::CarryOver) => (AssignTy::CarryOver, pos + 1),
        _ => (AssignTy::Default, pos),
    }
}

/// An assignment: an optional `unique` or `carryover`, identifier,
/// assignment operator, expression, `;`.
pub open spec fn g_assign(ts: Seq<TokenView>, pos: int) -> Option<(AssignView, int)>
    decreases ts.len() - pos, 8int,
{
    let (ty, p) = g_modifier(ts, pos);
    match g_ident(ts, p) {
        Some((ident, q)) => match assign_op(peek(ts, q)) {
            Some(op) => if q > pos {
                match g_expr(ts, q + 1) {
                    Some((val, r)) => if at(ts, r, TokenView::SemiColon) {
                        Some((AssignView { ty, ident, assign_op: op, val }, r + 1))
                    } else {
                        None
                    },
                    None => None,
                }
            } else {
                None
            },
            None => None,
        },
        None => None,
    }
}

/// A named definition: `def` identifier and the rest of a definition.
pub open spec fn g_fn_def(ts: Seq<TokenView>, pos: int) -> Option<(FnDefView, int)>
    decreases ts.len() - pos, 8int,
{
    if at(ts, pos, TokenView::Def) {
        match g_ident(ts, pos + 1) {
            Some((name, p)) => if pos < p <= ts.len() {
                g_fn_rest(ts, p, pos, name)
            } else {
                None
            },
            None => None,
        }
    } else {
        None
    }
}

/// A block after a keyword: `{` statements `}`.
pub open spec fn g_braced(ts: Seq<TokenView>, pos: int) -> Option<(Seq<StmtView>, int)>
    decreases ts.len() - pos, 8int,
{
    if at(ts, pos, TokenView::OpenCurly) {
        let (stmts, p) = g_stmts(ts, pos + 1, Seq::empty());
        if at(ts, p, TokenView::CloseCurly) {
            Some((stmts, p + 1))
        } else {
            None
        }
    } else {
        None
    }
}

/// A type declaration: `type` identifier `=` type `;`.
pub open spec fn g_type_def(ts: Seq<TokenView>, pos: int) -> Option<(StmtView, int)> {
    if at(ts, pos, TokenView::Type) {
        match g_ident(ts, pos + 1) {
            Some((name, p)) => if at(ts, p, TokenView::Eq) {
                match g_type(ts, p + 1) {
                    Some((ty, q)) => if at(ts, q, TokenView::SemiColon) {
                        Some((StmtView::TypeDef(name, ty), q + 1))
                    } else {
                        None
                    },
                    None => None,
                }
            } else {
                None
            },
            None => None,
        }
    } else {
        None
    }
}

/// A statement: a named definition; or an assignment; or `sync` and a
/// block; or `once` and a block; or a type declaration; or an expression
/// and `;`.
pub open spec fn g_stmt(ts: Seq<TokenView>, pos: int) -> Option<(StmtView, int)>
    decreases ts.len() - pos, 9int,
{
    match g_fn_def(ts, pos) {
        Some((def, p)) => Some((StmtView::FnDef(def), p)),
        None => match g_assign(ts, pos) {
            Some((a, p)) => Some((StmtView::Assign(a), p)),
            None => if at(ts, pos, TokenView::Sync) {
                match g_braced(ts, pos + 1) {
                    Some((stmts, p)) => Some((StmtView::Sync(stmts), p)),
                    None => None,
                }
            } else if at(ts, pos, TokenView::Once) {
                match g_braced(ts, pos + 1) {
                    Some((stmts, p)) => Some((StmtView::Once(stmts), p)),
                    None => None,
                }
            } else {
                match g_type_def(ts, pos) {
                    Some(r) => Some(r),
                    None => match g_expr(ts, pos) {
                        Some((e, p)) => if at(ts, p, TokenView::SemiColon) {
                            Some((StmtView::Expr(e), p + 1))
                        } else {
                            None
                        },
                        None => None,
                    },
                }
            },
        },
    }
}

/// As many statements as can be read, after the statements in `acc`.
pub open spec fn g_stmts(ts: Seq<TokenView>, pos: int, acc: Seq<StmtView>) -> (
    Seq<StmtView>,
    int,
)
    decreases ts.len() - pos, 10int,
{
    match g_stmt(ts, pos) {
        Some((s, p)) => if pos < p <= ts.len() {
            g_stmts(ts, p, acc.push(s))
        } else {
            (acc, pos)
        },
        None => (acc, pos),
    }
}

/// A file: statements up to the end of the tokens. Where the statements
/// stop before the end, the file is refused at the position where they
/// stop.
pub open spec fn g_file(ts: Seq<TokenView>) -> Result<FileView, int> {
    let (stmts, p) = g_stmts(ts, 0, Seq::empty());
    if p == ts.len() {
        Ok(FileView { stmts })
    } else {
        Err(p)
    }
}

/// Whether a rule that started at `pos` and ended at `end` has read at
/// least one token and none beyond the last.
pub open spec fn advanced(ts: Seq<TokenView>, pos: int, end: int) -> bool {
    pos < end <= ts.len()
}

/// Whether a repetition that started at `pos` and ended at `end` has read
/// no token beyond the last.
pub open spec fn within(ts: Seq<TokenView>, pos: int, end: int) -> bool {
    pos <= end <= ts.len()
}

/// A type that was read has at least one token. So has every item of the
/// other rules below: where a rule asks whether the position has moved, it
/// has, and the question only shows that the reading ends.
pub proof fn law_type_advances(ts: Seq<TokenView>, pos: int)
    requires
        0 <= pos,
    ensures
        g_type(ts, pos) is Some ==> advanced(ts, pos, g_type(ts, pos)->Some_0.1),
    decreases ts.len() - pos, 1int,
{
    match peek(ts, pos) {
        Some(TokenView::OpenBracket) => {
            law_type_advances(ts, pos + 1);
        },
        Some(TokenView::Fn) => {
            if at(ts, pos + 1, TokenView::Colon) {
                law_type_advances(ts, pos + 2);
                match g_type(ts, pos + 2) {
                    Some((_, p)) => {
                        if at(ts, p, TokenView::OpenParen) {
                            law_types_within(ts, p + 1);
                        }
                    },
                    None => {},
                }
            }
        },
        _ => {},
    }
}

/// A list of types ends within the tokens.
pub proof fn law_types_within(ts: Seq<TokenView>, pos: int)
    requires
        0 <= pos <= ts.len(),
    ensures
        within(ts, pos, g_types(ts, pos).1),
    decreases ts.len() - pos, 2int,
{
    law_type_advances(ts, pos);
    match g_type(ts, pos) {
        Some((first, p)) => {
            law_types_rest_within(ts, p, seq![first]);
        },
        None => {},
    }
}

/// The rest of a list of types ends within the tokens.
pub proof fn law_types_rest_within(ts: Seq<TokenView>, pos: int, acc: Seq<TypeView>)
    requires
        0 <= pos <= ts.len(),
    ensures
        within(ts, pos, g_types_rest(ts, pos, acc).1),
    decreases ts.len() - pos, 0int,
{
    if at(ts, pos, TokenView::Comma) {
        law_type_advances(ts, pos + 1);
        match g_type(ts, pos + 1) {
            Some((next, p)) => {
                law_types_rest_within(ts, p, acc.push(next));
            },
            None => {},
        }
    }
}

/// A parameter that was read has at least one token.
pub proof fn law_fn_arg_advances(ts: Seq<TokenView>, pos: int)
    requires
        0 <= pos,
    ensures
        g_fn_arg(ts, pos) is Some ==> advanced(ts, pos, g_fn_arg(ts, pos)->Some_0.1),
{
    match g_ident(ts, pos) {
        Some((_, p)) => {
            law_type_advances(ts, p + 1);
        },
        None => {},
    }
}

/// The rest of a list of parameters ends within the tokens.
pub proof fn law_fn_args_rest_within(ts: Seq<TokenView>, pos: int, acc: Seq<FnArgView>)
    requires
        0 <= pos <= ts.len(),
    ensures
        within(ts, pos, g_fn_args_rest(ts, pos, acc).1),
    decreases ts.len() - pos,
{
    if at(ts, pos, TokenView::Comma) {
        law_fn_arg_advances(ts, pos + 1);
        match g_fn_arg(ts, pos + 1) {
            Some((next, p)) => {
                law_fn_args_rest_within(ts, p, acc.push(next));
            },
            None => {},
        }
    }
}

/// A list of parameters ends within the tokens.
pub proof fn law_fn_args_within(ts: Seq<TokenView>, pos: int)
    requires
        0 <= pos <= ts.len(),
    ensures
        within(ts, pos, g_fn_args(ts, pos).1),
{
    law_fn_arg_advances(ts, pos);
    match g_fn_arg(ts, pos) {
        Some((first, p)) => {
            law_fn_args_rest_within(ts, p, seq![first]);
        },
        None => {},
    }
}

/// A literal that was read has at least one token.
pub proof fn law_literal_advances(ts: Seq<TokenView>, pos: int)
    requires
        0 <= pos,
    ensures
        g_literal(ts, pos) is Some ==> advanced(ts, pos, g_literal(ts, pos)->Some_0.1),
    decreases ts.len() - pos, 5int,
{
    match peek(ts, pos) {
        Some(TokenView::OpenBracket) => {
            law_exprs_within(ts, pos + 1);
        },
        Some(TokenView::Fn) => {
            law_fn_rest_advances(ts, pos + 1, pos, "<closure>"@);
        },
        _ => {},
    }
}

/// The rest of a definition that was read has at least one token.
pub proof fn law_fn_rest_advances(ts: Seq<TokenView>, pos: int, start: int, name: Seq<char>)
    requires
        0 <= pos,
    ensures
        g_fn_rest(ts, pos, start, name) is Some ==> advanced(
            ts,
            pos,
            g_fn_rest(ts, pos, start, name)->Some_0.1,
        ),
    decreases ts.len() - pos, 4int,
{
    if at(ts, pos, TokenView::Colon) {
        law_type_advances(ts, pos + 1);
        match g_type(ts, pos + 1) {
            Some((_, p)) => {
                if at(ts, p, TokenView::OpenParen) {
                    law_fn_args_within(ts, p + 1);
                    let (_, q) = g_fn_args(ts, p + 1);
                    if at(ts, q, TokenView::CloseParen) && at(ts, q + 1, TokenView::Arrow) && at(
                        ts,
                        q + 2,
                        TokenView::Pipe,
                    ) {
                        law_expr_advances(ts, q + 3);
                        match g_expr(ts, q + 3) {
                            Some((_, r)) => {
                                if at(ts, r, TokenView::Pipe) && at(
                                    ts,
                                    r + 1,
                                    TokenView::OpenBracket,
                                ) {
                                    law_stmts_within(ts, r + 2, Seq::empty());
                                }
                            },
                            None => {},
                        }
                    }
                }
            },
            None => {},
        }
    }
}

/// A call that was read has at least one token.
pub proof fn law_fn_call_advances(ts: Seq<TokenView>, pos: int)
    requires
        0 <= pos,
    ensures
        g_fn_call(ts, pos) is Some ==> advanced(ts, pos, g_fn_call(ts, pos)->Some_0.1),
    decreases ts.len() - pos, 5int,
{
    match g_ident(ts, pos) {
        Some((_, p)) => {
            if at(ts, p, TokenView::OpenParen) {
                law_exprs_within(ts, p + 1);
            }
        },
        None => {},
    }
}

/// An atom that was read has at least one token.
pub proof fn law_atom_advances(ts: Seq<TokenView>, pos: int)
    requires
        0 <= pos,
    ensures
        g_atom(ts, pos) is Some ==> advanced(ts, pos, g_atom(ts, pos)->Some_0.1),
    decreases ts.len() - pos, 6int,
{
    law_literal_advances(ts, pos);
    law_fn_call_advances(ts, pos);
}

/// An expression that was read has at least one token.
pub proof fn law_expr_advances(ts: Seq<TokenView>, pos: int)
    requires
        0 <= pos,
    ensures
        g_expr(ts, pos) is Some <==> g_atom(ts, pos) is Some,
        g_expr(ts, pos) is Some ==> advanced(ts, pos, g_expr(ts, pos)->Some_0.1),
    decreases ts.len() - pos, 7int,
{
    law_atom_advances(ts, pos);
    match g_atom(ts, pos) {
        Some((first, p)) => {
            law_expr_rest_within(ts, p, first);
        },
        None => {},
    }
}

/// The rest of an expression ends within the tokens.
pub proof fn law_expr_rest_within(ts: Seq<TokenView>, pos: int, left: ExprView)
    requires
        0 <= pos <= ts.len(),
    ensures
        within(ts, pos, g_expr_rest(ts, pos, left).1),
    decreases ts.len() - pos, 0int,
{
    match comparison(peek(ts, pos)) {
        Some(op) => {
            law_atom_advances(ts, pos + 1);
            match g_atom(ts, pos + 1) {
                Some((right, p)) => {
                    law_expr_rest_within(
                        ts,
                        p,
                        ExprView::BinOp(Box::new(left), op, Box::new(right)),
                    );
                },
                None => {},
            }
        },
        None => {},
    }
}

/// A list of expressions ends within the tokens.
pub proof fn law_exprs_within(ts: Seq<TokenView>, pos: int)
    requires
        0 <= pos <= ts.len(),
    ensures
        within(ts, pos, g_exprs(ts, pos).1),
    decreases ts.len() - pos, 8int,
{
    law_expr_advances(ts, pos);
    match g_expr(ts, pos) {
        Some((first, p)) => {
            law_exprs_rest_within(ts, p, seq![first]);
        },
        None => {},
    }
}

/// The rest of a list of expressions ends within the tokens.
pub proof fn law_exprs_rest_within(ts: Seq<TokenView>, pos: int, acc: Seq<ExprView>)
    requires
        0 <= pos <= ts.len(),
    ensures
        within(ts, pos, g_exprs_rest(ts, pos, acc).1),
    decreases ts.len() - pos, 0int,
{
    if at(ts, pos, TokenView::Comma) {
        law_expr_advances(ts, pos + 1);
        match g_expr(ts, pos + 1) {
            Some((next, p)) => {
                law_exprs_rest_within(ts, p, acc.push(next));
            },
            None => {},
        }
    }
}

/// A statement that was read has at least one token.
pub proof fn law_stmt_advances(ts: Seq<TokenView>, pos: int)
    requires
        0 <= pos,
    ensures
        g_stmt(ts, pos) is Some ==> advanced(ts, pos, g_stmt(ts, pos)->Some_0.1),
    decreases ts.len() - pos, 9int,
{
    if at(ts, pos, TokenView::Def) {
        match g_ident(ts, pos + 1) {
            Some((name, p)) => {
                law_fn_rest_advances(ts, p, pos, name);
            },
            None => {},
        }
    }
    let (_, p) = g_modifier(ts, pos);
    match g_ident(ts, p) {
        Some((_, q)) => {
            if assign_op(peek(ts, q)) is Some {
                law_expr_advances(ts, q + 1);
            }
        },
        None => {},
    }
    if at(ts, pos, TokenView::Sync) || at(ts, pos, TokenView::Once) {
        if at(ts, pos + 1, TokenView::OpenCurly) {
            law_stmts_within(ts, pos + 2, Seq::empty());
        }
    }
    if at(ts, pos, TokenView::Type) {
        match g_ident(ts, pos + 1) {
            Some((_, p)) => {
                law_type_advances(ts, p + 1);
            },
            None => {},
        }
    }
    law_expr_advances(ts, pos);
}

/// A list of statements ends within the tokens.
pub proof fn law_stmts_within(ts: Seq<TokenView>, pos: int, acc: Seq<StmtView>)
    requires
        0 <= pos <= ts.len(),
    ensures
        within(ts, pos, g_stmts(ts, pos, acc).1),
    decreases ts.len() - pos, 10int,
{
    law_stmt_advances(ts, pos);
    match g_stmt(ts, pos) {
        Some((s, p)) => {
            law_stmts_within(ts, p, acc.push(s));
        },
        None => {},
    }
}

/// A file is refused at a token: never after the last one.
pub proof fn law_file_refusal(ts: Seq<TokenView>)
    ensures
        g_file(ts) is Err ==> 0 <= g_file(ts)->Err_0 < ts.len(),
{
    law_stmts_within(ts, 0, Seq::empty());
}

} // verus!
