//! The lexical units that the parser consumes.

use crate::position::Position;
use vstd::prelude::*;

verus! {

/// The class of a token.
#[derive(Clone, Copy, Debug, PartialEq, Eq, Structural)]
pub enum TokenKind {
    Keyword,
    Identifier,
    Integer,
    Operator,
    Delimiter,
    Comment,
}

/// A classified piece of source text together with the positions at which it
/// starts and ends.
#[derive(Debug, PartialEq, Eq)]
pub struct Token {
    pub kind: TokenKind,
    pub value: String,
    pub start_position: Position,
    pub end_position: Position,
}

/// The mathematical value of a [`Token`]: its text is a sequence of characters.
pub struct TokenView {
    pub kind: TokenKind,
    pub value: Seq<char>,
    pub start_position: Position,
    pub end_position: Position,
}

impl View for Token {
    type V = TokenView;

    open spec fn view(&self) -> TokenView {
        TokenView {
            kind: self.kind,
            value: self.value@,
            start_position: self.start_position,
            end_position: self.end_position,
        }
    }
}

impl Clone for Token {
    fn clone(&self) -> (copy: Token)
        ensures
            copy == *self,
    {
        Token {
            kind: self.kind,
            value: self.value.clone(),
            start_position: self.start_position,
            end_position: self.end_position,
        }
    }
}

/// Whether a token takes part in parsing: comments do not.
pub open spec fn is_significant(token: TokenView) -> bool {
    token.kind != TokenKind::Comment
}

/// The tokens of `tokens` that are not comments, in the order in which they stand.
pub open spec fn without_comments(tokens: Seq<TokenView>) -> Seq<TokenView> {
    tokens.filter(|token: TokenView| is_significant(token))
}

} // verus!
