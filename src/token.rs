//! Token kinds, the token record, and keyword recognition.
use crate::text::chars_of;
use vstd::prelude::*;

verus! {

/// The closed set of token kinds.
#[derive(Debug, PartialEq, Eq, Clone, Copy, Structural)]
pub enum TokenType {
    Illegal,
    EoF,
    // identifiers and literals
    Identifier,
    Int,
    // operators
    Assign,
    Plus,
    Minus,
    Bang,
    Asterisk,
    Slash,
    LowerThan,
    GraterThan,
    Equal,
    NotEqual,
    // delimiters
    Comma,
    SemiColon,
    LeftParenthesis,
    RightParenthesis,
    LeftBrace,
    RightBrace,
    // keywords
    Function,
    Let,
    True,
    False,
    If,
    Else,
    Return,
}

/// A token: its kind and the exact source text it was scanned from.
#[derive(Debug, Clone)]
pub struct Token {
    pub token_type: TokenType,
    pub literal: String,
}

/// The kind of a word: one of the seven keywords when it spells exactly that
/// keyword, otherwise an identifier.
pub open spec fn keyword_kind(w: Seq<char>) -> TokenType {
    if w == seq!['f', 'n'] {
        TokenType::Function
    } else if w == seq!['l', 'e', 't'] {
        TokenType::Let
    } else if w == seq!['t', 'r', 'u', 'e'] {
        TokenType::True
    } else if w == seq!['f', 'a', 'l', 's', 'e'] {
        TokenType::False
    } else if w == seq!['i', 'f'] {
        TokenType::If
    } else if w == seq!['e', 'l', 's', 'e'] {
        TokenType::Else
    } else if w == seq!['r', 'e', 't', 'u', 'r', 'n'] {
        TokenType::Return
    } else {
        TokenType::Identifier
    }
}

impl Token {
    /// Pairs a kind with its literal; no check that the two agree.
    pub fn new(token_type: TokenType, literal: String) -> (t: Token)
        ensures
            t.token_type == token_type,
            t.literal@ == literal@,
    {
        Token { token_type, literal }
    }

    /// Classifies a word: the keyword kind it spells (case-sensitive, exact
    /// match), or `Identifier`.
    pub fn lookup_identifier(identifier: &str) -> (k: TokenType)
        ensures
            k == keyword_kind(identifier@),
    {
        let w = chars_of(identifier);
        keyword_of(&w)
    }
}

/// The keyword kind spelled by `w`, or `Identifier`.
fn keyword_of(w: &Vec<char>) -> (k: TokenType)
    ensures
        k == keyword_kind(w@),
{
    let n = w.len();
    if n == 2 && w[0] == 'f' && w[1] == 'n' {
        assert(w@ =~= seq!['f', 'n']);
        TokenType::Function
    } else if n == 3 && w[0] == 'l' && w[1] == 'e' && w[2] == 't' {
        assert(w@ =~= seq!['l', 'e', 't']);
        TokenType::Let
    } else if n == 4 && w[0] == 't' && w[1] == 'r' && w[2] == 'u' && w[3] == 'e' {
        assert(w@ =~= seq!['t', 'r', 'u', 'e']);
        TokenType::True
    } else if n == 5 && w[0] == 'f' && w[1] == 'a' && w[2] == 'l' && w[3] == 's' && w[4] == 'e' {
        assert(w@ =~= seq!['f', 'a', 'l', 's', 'e']);
        TokenType::False
    } else if n == 2 && w[0] == 'i' && w[1] == 'f' {
        assert(w@ =~= seq!['i', 'f']);
        TokenType::If
    } else if n == 4 && w[0] == 'e' && w[1] == 'l' && w[2] == 's' && w[3] == 'e' {
        assert(w@ =~= seq!['e', 'l', 's', 'e']);
        TokenType::Else
    } else if n == 6 && w[0] == 'r' && w[1] == 'e' && w[2] == 't' && w[3] == 'u' && w[4] == 'r'
        && w[5] == 'n' {
        assert(w@ =~= seq!['r', 'e', 't', 'u', 'r', 'n']);
        TokenType::Return
    } else {
        TokenType::Identifier
    }
}

} // verus!
