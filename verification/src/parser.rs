//! Reading a whole program.

use vstd::prelude::*;
use vstd::string::*;
use crate::ast::grammar::g_file;
use crate::ast::model::FileView;
use crate::ast::File;
use crate::token::{token_views, Token, TokenView};

verus! {

/// Why a list of tokens is no program: the statements stop at the token at
/// `at`, which starts nothing that the grammar knows.
#[derive(Copy, Clone, Debug, PartialEq, Eq, Structural)]
pub struct ParseError {
    pub at: usize,
}

/// The message for a refusal at the given token.
pub open spec fn refusal_text(found: TokenView) -> Seq<char> {
    "Unexpected token `"@ + found.text() + "`"@
}

impl ParseError {
    /// The message shown for the refusal, which names the token at which
    /// the statements stop.
    pub fn message(&self, tokens: &[Token]) -> (s: String)
        requires
            self.at < tokens.len(),
        ensures
            s@ == refusal_text(tokens[self.at as int]@),
    {
        let mut s = String::from_str("Unexpected token `");
        s.append(tokens[self.at].pretty().as_str());
        s.append("`");
        s
    }
}

/// Reads a list of tokens as a program.
///
/// The result is the tree that the grammar reads the tokens as. Tokens
/// that no sequence of statements covers to the end are refused at the
/// first token that is not covered.
pub fn parse(tokens: &[Token]) -> (r: Result<File, ParseError>)
    ensures
        match r {
            Ok(file) => g_file(token_views(tokens@)) == Ok::<FileView, int>(file@),
            Err(e) => g_file(token_views(tokens@)) == Err::<FileView, int>(e.at as int) && e.at
                < tokens.len(),
        },
{
    match File::parser(tokens) {
        Ok(file) => Ok(file),
        Err(at) => Err(ParseError { at }),
    }
}

} // verus!
