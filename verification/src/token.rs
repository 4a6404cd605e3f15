//! The tokens of a program. A tokenizer hands them to the parser: each token
//! that stands for a class of texts carries its text.

use vstd::prelude::*;
use vstd::string::*;
use crate::text::holds;

verus! {

/// One token.
#[derive(Clone, Debug, PartialEq, Eq, Hash)]
pub enum Token {
    Def,
    Unique,
    Sync,
    Fn,
    Once,
    CarryOver,
    Type,
    Ident(String),
    Int(String),
    /// A float literal: its text, and its value as an IEEE-754 bit pattern.
    Float(String, u64),
    Bit(String),
    Char(String),
    Str(String),
    Tick,
    Tilde,
    Bang,
    At,
    Hash,
    Percent,
    Caret,
    And,
    Star,
    OpenParen,
    CloseParen,
    Dash,
    Eq,
    Plus,
    OpenBracket,
    CloseBracket,
    OpenCurly,
    CloseCurly,
    Backslash,
    Pipe,
    SemiColon,
    Colon,
    Comma,
    Lt,
    Dot,
    Gt,
    Slash,
    Question,
    Arrow,
    EqEq,
    BangEq,
    PlusEq,
    DashEq,
    StarEq,
    SlashEq,
    String,
    Comment(String),
    Error,
}

/// The model of a token.
pub enum TokenView {
    Def,
    Unique,
    Sync,
    Fn,
    Once,
    CarryOver,
    Type,
    Ident(Seq<char>),
    Int(Seq<char>),
    Float(Seq<char>, u64),
    Bit(Seq<char>),
    Char(Seq<char>),
    Str(Seq<char>),
    Tick,
    Tilde,
    Bang,
    At,
    Hash,
    Percent,
    Caret,
    And,
    Star,
    OpenParen,
    CloseParen,
    Dash,
    Eq,
    Plus,
    OpenBracket,
    CloseBracket,
    OpenCurly,
    CloseCurly,
    Backslash,
    Pipe,
    SemiColon,
    Colon,
    Comma,
    Lt,
    Dot,
    Gt,
    Slash,
    Question,
    Arrow,
    EqEq,
    BangEq,
    PlusEq,
    DashEq,
    StarEq,
    SlashEq,
    String,
    Comment(Seq<char>),
    Error,
}

impl View for Token {
    type V = TokenView;

    open spec fn view(&self) -> TokenView {
        match self {
            Token::Def => TokenView::Def,
            Token::Unique => TokenView::Unique,
            Token::Sync => TokenView::Sync,
            Token::Fn => TokenView::Fn,
            Token::Once => TokenView::Once,
            Token::CarryOver => TokenView::CarryOver,
            Token::Type => TokenView::Type,
            Token::Ident(s) => TokenView::Ident(s@),
            Token::Int(s) => TokenView::Int(s@),
            Token::Float(s, bits) => TokenView::Float(s@, *bits),
            Token::Bit(s) => TokenView::Bit(s@),
            Token::Char(s) => TokenView::Char(s@),
            Token::Str(s) => TokenView::Str(s@),
            Token::Tick => TokenView::Tick,
            Token::Tilde => TokenView::Tilde,
            Token::Bang => TokenView::Bang,
            Token::At => TokenView::At,
            Token::Hash => TokenView::Hash,
            Token::Percent => TokenView::Percent,
            Token::Caret => TokenView::Caret,
            Token::And => TokenView::And,
            Token::Star => TokenView::Star,
            Token::OpenParen => TokenView::OpenParen,
            Token::CloseParen => TokenView::CloseParen,
            Token::Dash => TokenView::Dash,
            Token::Eq => TokenView::Eq,
            Token::Plus => TokenView::Plus,
            Token::OpenBracket => TokenView::OpenBracket,
            Token::CloseBracket => TokenView::CloseBracket,
            Token::OpenCurly => TokenView::OpenCurly,
            Token::CloseCurly => TokenView::CloseCurly,
            Token::Backslash => TokenView::Backslash,
            Token::Pipe => TokenView::Pipe,
            Token::SemiColon => TokenView::SemiColon,
            Token::Colon => TokenView::Colon,
            Token::Comma => TokenView::Comma,
            Token::Lt => TokenView::Lt,
            Token::Dot => TokenView::Dot,
            Token::Gt => TokenView::Gt,
            Token::Slash => TokenView::Slash,
            Token::Question => TokenView::Question,
            Token::Arrow => TokenView::Arrow,
            Token::EqEq => TokenView::EqEq,
            Token::BangEq => TokenView::BangEq,
            Token::PlusEq => TokenView::PlusEq,
            Token::DashEq => TokenView::DashEq,
            Token::StarEq => TokenView::StarEq,
            Token::SlashEq => TokenView::SlashEq,
            Token::String => TokenView::String,
            Token::Comment(s) => TokenView::Comment(s@),
            Token::Error => TokenView::Error,
        }
    }
}

/// The models of a list of tokens, in order.
pub open spec fn token_views(tokens: Seq<Token>) -> Seq<TokenView> {
    Seq::new(tokens.len(), |i: int| tokens[i]@)
}

/// The text shown for a token that carries its text: the text itself, or
/// the name of the class when the text is the placeholder `...`.
pub open spec fn class_text(text: Seq<char>, class: Seq<char>) -> Seq<char> {
    if text == "..."@ {
        class
    } else {
        text
    }
}

impl TokenView {
    /// The text shown for a token.
    pub open spec fn text(self) -> Seq<char> {
        match self {
            TokenView::Def => "def"@,
            TokenView::Unique => "unique"@,
            TokenView::Sync => "sync"@,
            TokenView::Fn => "fn"@,
            TokenView::Once => "once"@,
            TokenView::CarryOver => "carryover"@,
            TokenView::Type => "type"@,
            TokenView::Ident(s) => class_text(s, "<ident>"@),
            TokenView::Int(s) => class_text(s, "<int>"@),
            TokenView::Float(s, _) => class_text(s, "<float>"@),
            TokenView::Bit(s) => class_text(s, "<bit>"@),
            TokenView::Char(s) => class_text(s, "<char>"@),
            TokenView::Str(s) => class_text(s, "<chararray>"@),
            TokenView::Tick => "`"@,
            TokenView::Tilde => "~"@,
            TokenView::Bang => "!"@,
            TokenView::At => "@"@,
            TokenView::Hash => "#"@,
            TokenView::Percent => "%"@,
            TokenView::Caret => "^"@,
            TokenView::And => "&"@,
            TokenView::Star => "*"@,
            TokenView::OpenParen => "("@,
            TokenView::CloseParen => ")"@,
            TokenView::Dash => "-"@,
            TokenView::Eq => "="@,
            TokenView::Plus => "+"@,
            TokenView::OpenBracket => "["@,
            TokenView::CloseBracket => "]"@,
            TokenView::OpenCurly => "{"@,
            TokenView::CloseCurly => "}"@,
            TokenView::Backslash => "\\"@,
            TokenView::Pipe => "|"@,
            TokenView::SemiColon => ";"@,
            TokenView::Colon => ":"@,
            TokenView::Comma => ","@,
            TokenView::Lt => "<"@,
            TokenView::Dot => "."@,
            TokenView::Gt => ">"@,
            TokenView::Slash => "/"@,
            TokenView::Question => "?"@,
            TokenView::Arrow => "->"@,
            TokenView::EqEq => "=="@,
            TokenView::BangEq => "!="@,
            TokenView::PlusEq => "+="@,
            TokenView::DashEq => "-="@,
            TokenView::StarEq => "*="@,
            TokenView::SlashEq => "/="@,
            TokenView::String => "string"@,
            TokenView::Comment(s) => s,
            TokenView::Error => "<error>"@,
        }
    }
}

/// The text shown for a token that carries its text.
fn class_pretty(text: &String, class: &str) -> (s: String)
    ensures
        s@ == class_text(text@, class@),
{
    if holds(text, "...") {
        String::from_str(class)
    } else {
        text.clone()
    }
}

impl Token {
    /// The text shown for the token.
    pub fn pretty(&self) -> (s: String)
        ensures
            s@ == self@.text(),
    {
        match self {
            Token::Def => String::from_str("def"),
            Token::Unique => String::from_str("unique"),
            Token::Sync => String::from_str("sync"),
            Token::Fn => String::from_str("fn"),
            Token::Once => String::from_str("once"),
            Token::CarryOver => String::from_str("carryover"),
            Token::Type => String::from_str("type"),
            Token::Ident(s) => class_pretty(s, "<ident>"),
            Token::Int(s) => class_pretty(s, "<int>"),
            Token::Float(s, _) => class_pretty(s, "<float>"),
            Token::Bit(s) => class_pretty(s, "<bit>"),
            Token::Char(s) => class_pretty(s, "<char>"),
            Token::Str(s) => class_pretty(s, "<chararray>"),
            Token::Tick => String::from_str("`"),
            Token::Tilde => String::from_str("~"),
            Token::Bang => String::from_str("!"),
            Token::At => String::from_str("@"),
            Token::Hash => String::from_str("#"),
            Token::Percent => String::from_str("%"),
            Token::Caret => String::from_str("^"),
            Token::And => String::from_str("&"),
            Token::Star => String::from_str("*"),
            Token::OpenParen => String::from_str("("),
            Token::CloseParen => String::from_str(")"),
            Token::Dash => String::from_str("-"),
            Token::Eq => String::from_str("="),
            Token::Plus => String::from_str("+"),
            Token::OpenBracket => String::from_str("["),
            Token::CloseBracket => String::from_str("]"),
            Token::OpenCurly => String::from_str("{"),
            Token::CloseCurly => String::from_str("}"),
            Token::Backslash => String::from_str("\\"),
            Token::Pipe => String::from_str("|"),
            Token::SemiColon => String::from_str(";"),
            Token::Colon => String::from_str(":"),
            Token::Comma => String::from_str(","),
            Token::Lt => String::from_str("<"),
            Token::Dot => String::from_str("."),
            Token::Gt => String::from_str(">"),
            Token::Slash => String::from_str("/"),
            Token::Question => String::from_str("?"),
            Token::Arrow => String::from_str("->"),
            Token::EqEq => String::from_str("=="),
            Token::BangEq => String::from_str("!="),
            Token::PlusEq => String::from_str("+="),
            Token::DashEq => String::from_str("-="),
            Token::StarEq => String::from_str("*="),
            Token::SlashEq => String::from_str("/="),
            Token::String => String::from_str("string"),
            Token::Comment(s) => s.clone(),
            Token::Error => String::from_str("<error>"),
        }
    }
}

/// Whether a token, with whatever stands beside it, goes on to the parser:
/// every token does but a comment.
pub open spec fn kept<S>(pair: (Token, S)) -> bool {
    !(pair.0 is Comment)
}

/// Leaves the comments out of a list of tokens. Each token comes with
/// something of the caller's, such as its place in the text, which stays
/// with it. The other tokens keep their order.
#[verifier::loop_isolation(false)]
pub fn strip_comments<S>(tokens: Vec<(Token, S)>) -> (r: Vec<(Token, S)>)
    ensures
        r@ == tokens@.filter(|pair: (Token, S)| kept(pair)),
{
    let ghost all = tokens@;
    let ghost pred = |pair: (Token, S)| kept(pair);
    let n = tokens.len();
    let mut rest = tokens;
    let mut turned: Vec<(Token, S)> = Vec::new();
    while rest.len() > 0
        invariant
            rest.len() + turned.len() == n,
            n == all.len(),
            forall|j: int| 0 <= j < rest.len() ==> rest@[j] == all[j],
            forall|j: int| 0 <= j < turned.len() ==> turned@[j] == all[n - 1 - j],
        decreases rest.len(),
    {
        match rest.pop() {
            Some(pair) => {
                turned.push(pair);
            },
            None => {},
        }
    }
    let mut out: Vec<(Token, S)> = Vec::new();
    proof {
        reveal(Seq::filter);
        assert(all.subrange(0, 0).filter(pred) =~= Seq::empty());
    }
    while turned.len() > 0
        invariant
            turned.len() <= n,
            n == all.len(),
            forall|j: int| 0 <= j < turned.len() ==> turned@[j] == all[n - 1 - j],
            out@ == all.subrange(0, n - turned.len()).filter(pred),
        decreases turned.len(),
    {
        let ghost i: int = n - turned.len();
        let ghost before = out@;
        match turned.pop() {
            Some(pair) => {
                proof {
                    let upto = all.subrange(0, i + 1);
                    assert(upto.len() == i + 1);
                    assert(upto.drop_last() =~= all.subrange(0, i));
                    assert(upto.last() == pair);
                    assert(upto.filter(pred) == if pred(pair) {
                        before.push(pair)
                    } else {
                        before
                    }) by {
                        reveal(Seq::filter);
                    }
                }
                let ghost read = pair;
                match &pair.0 {
                    Token::Comment(_) => {},
                    _ => {
                        out.push(pair);
                    },
                }
                assert(pred(read) == !(read.0 is Comment));
            },
            None => {},
        }
    }
    assert(all.subrange(0, n as int) =~= all);
    assert(pred =~= (|pair: (Token, S)| kept(pair)));
    out
}

} // verus!
