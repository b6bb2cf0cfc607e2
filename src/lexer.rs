//! The scanner: a cursor over the input's characters that yields one token
//! per call.
use crate::text::{chars_of, push_char};
use crate::token::{keyword_kind, Token, TokenType};
use vstd::prelude::*;

verus! {

/// Space, tab, newline and carriage return.
pub open spec fn is_white_space(c: char) -> bool {
    c == ' ' || c == '\t' || c == '\n' || c == '\r'
}

/// An ASCII letter, `a`-`z` or `A`-`Z`.
pub open spec fn is_letter_char(c: char) -> bool {
    ('a' <= c && c <= 'z') || ('A' <= c && c <= 'Z')
}

/// An ASCII digit, `0`-`9`.
pub open spec fn is_digit_char(c: char) -> bool {
    '0' <= c && c <= '9'
}

/// The first index at or after `i` that does not hold white space (the end
/// of `s` when the rest is all white space).
pub open spec fn skip_ws(s: Seq<char>, i: int) -> int
    decreases s.len() - i,
{
    if 0 <= i < s.len() && is_white_space(s[i]) {
        skip_ws(s, i + 1)
    } else {
        i
    }
}

/// The end of the maximal run of letters that starts at `i`.
pub open spec fn letter_run_end(s: Seq<char>, i: int) -> int
    decreases s.len() - i,
{
    if 0 <= i < s.len() && is_letter_char(s[i]) {
        letter_run_end(s, i + 1)
    } else {
        i
    }
}

/// The end of the maximal run of digits that starts at `i`.
pub open spec fn digit_run_end(s: Seq<char>, i: int) -> int
    decreases s.len() - i,
{
    if 0 <= i < s.len() && is_digit_char(s[i]) {
        digit_run_end(s, i + 1)
    } else {
        i
    }
}

/// The kind of a one-character token: an operator, a delimiter, or
/// `Illegal` for any other character.
pub open spec fn symbol_kind(c: char) -> TokenType {
    if c == '=' {
        TokenType::Assign
    } else if c == '+' {
        TokenType::Plus
    } else if c == '-' {
        TokenType::Minus
    } else if c == '!' {
        TokenType::Bang
    } else if c == '/' {
        TokenType::Slash
    } else if c == '*' {
        TokenType::Asterisk
    } else if c == '<' {
        TokenType::LowerThan
    } else if c == '>' {
        TokenType::GraterThan
    } else if c == ';' {
        TokenType::SemiColon
    } else if c == ',' {
        TokenType::Comma
    } else if c == '{' {
        TokenType::LeftBrace
    } else if c == '}' {
        TokenType::RightBrace
    } else if c == '(' {
        TokenType::LeftParenthesis
    } else if c == ')' {
        TokenType::RightParenthesis
    } else {
        TokenType::Illegal
    }
}

/// Whether `s[j]` is `=` or `!` and the character after it is `=`.
pub open spec fn is_two_char_op(s: Seq<char>, j: int) -> bool {
    0 <= j && j + 1 < s.len() && (s[j] == '=' || s[j] == '!') && s[j + 1] == '='
}

/// Where the token that starts at `j` ends (exclusive). At the end of input
/// nothing is consumed.
pub open spec fn token_end(s: Seq<char>, j: int) -> int {
    if j >= s.len() {
        j
    } else if is_two_char_op(s, j) {
        j + 2
    } else if is_letter_char(s[j]) {
        letter_run_end(s, j)
    } else if is_digit_char(s[j]) {
        digit_run_end(s, j)
    } else {
        j + 1
    }
}

/// The kind of the token that starts at `j`.
pub open spec fn token_kind(s: Seq<char>, j: int) -> TokenType {
    if j >= s.len() {
        TokenType::EoF
    } else if is_two_char_op(s, j) {
        if s[j] == '=' {
            TokenType::Equal
        } else {
            TokenType::NotEqual
        }
    } else if is_letter_char(s[j]) {
        keyword_kind(s.subrange(j, letter_run_end(s, j)))
    } else if is_digit_char(s[j]) {
        TokenType::Int
    } else {
        symbol_kind(s[j])
    }
}

/// A scanner over a fixed input. The cursor is the index of the current
/// character, the index of the next one (which stops at the end of the
/// input), and the current character itself (`'\0'` once the cursor has
/// reached the end).
pub struct Lexer {
    input: Vec<char>,
    position: usize,
    read_position: usize,
    ch: char,
}

impl Lexer {
    /// The input, as characters.
    pub closed spec fn text(&self) -> Seq<char> {
        self.input@
    }

    /// The index of the current character; the length of the input once all
    /// of it has been read.
    pub closed spec fn pos(&self) -> int {
        self.position as int
    }

    /// The cursor lies within the input and its three parts agree.
    pub closed spec fn wf(&self) -> bool {
        &&& self.position <= self.input.len()
        &&& self.read_position == if self.position < self.input.len() {
            self.position + 1
        } else {
            self.position as int
        }
        &&& self.ch == if self.position < self.input.len() {
            self.input@[self.position as int]
        } else {
            '\0'
        }
    }

    /// A scanner over `input`, with the cursor on its first character.
    pub fn new(input: String) -> (l: Lexer)
        ensures
            l.wf(),
            l.text() == input@,
            l.pos() == 0,
    {
        let mut lexer = Lexer { input: chars_of(input.as_str()), position: 0, read_position: 0, ch: '\0' };
        lexer.read_char();
        lexer
    }

    /// Skips white space, then scans and returns the token that starts there,
    /// leaving the cursor on the first character after it. At the end of the
    /// input the token is `EoF` with an empty literal and the cursor stays.
    /// A NUL character inside the input marks no end: it scans as `Illegal`.
    pub fn next_token(&mut self) -> (tok: Token)
        requires
            old(self).wf(),
        ensures
            final(self).wf(),
            final(self).text() == old(self).text(),
            tok.token_type == token_kind(old(self).text(), skip_ws(old(self).text(), old(self).pos())),
            tok.literal@ == old(self).text().subrange(
                skip_ws(old(self).text(), old(self).pos()),
                token_end(old(self).text(), skip_ws(old(self).text(), old(self).pos())),
            ),
            final(self).pos() == token_end(
                old(self).text(),
                skip_ws(old(self).text(), old(self).pos()),
            ),
    {
        self.skip_white_space();
        let ghost s = self.input@;
        let ghost j = self.position as int;
        if self.position >= self.input.len() {
            assert(s.subrange(j, j) =~= Seq::<char>::empty());
            return Token::new(TokenType::EoF, String::new());
        }
        let c = self.ch;
        if (c == '=' || c == '!') && self.peek_char() == '=' {
            let mut literal = String::new();
            push_char(&mut literal, c);
            self.read_char();
            push_char(&mut literal, self.ch);
            self.read_char();
            assert(literal@ =~= s.subrange(j, j + 2));
            let kind = if c == '=' {
                TokenType::Equal
            } else {
                TokenType::NotEqual
            };
            Token::new(kind, literal)
        } else if self.is_letter(c) {
            let literal = self.read_identifier();
            let kind = Token::lookup_identifier(literal.as_str());
            Token::new(kind, literal)
        } else if is_digit(c) {
            let literal = self.read_number();
            Token::new(TokenType::Int, literal)
        } else {
            let mut literal = String::new();
            push_char(&mut literal, c);
            assert(literal@ =~= s.subrange(j, j + 1));
            self.read_char();
            Token::new(symbol_of(c), literal)
        }
    }

    /// Moves the cursor onto the character at the next index, or leaves it at
    /// the end of the input.
    fn read_char(&mut self)
        requires
            old(self).read_position <= old(self).input.len(),
            old(self).position <= old(self).read_position,
        ensures
            final(self).wf(),
            final(self).input == old(self).input,
            final(self).position == old(self).read_position,
    {
        if self.read_position >= self.input.len() {
            self.ch = '\0';
        } else {
            self.ch = self.input[self.read_position];
        }
        self.position = self.read_position;
        if self.read_position < self.input.len() {
            self.read_position = self.read_position + 1;
        }
    }

    /// The character after the current one, or `'\0'` when there is none.
    fn peek_char(&self) -> (c: char)
        requires
            self.wf(),
        ensures
            c == if self.position + 1 < self.input.len() {
                self.input@[self.position + 1]
            } else {
                '\0'
            },
    {
        if self.read_position >= self.input.len() {
            '\0'
        } else {
            self.input[self.read_position]
        }
    }

    /// Moves the cursor past any run of white space.
    fn skip_white_space(&mut self)
        requires
            old(self).wf(),
        ensures
            final(self).wf(),
            final(self).input == old(self).input,
            final(self).position == skip_ws(old(self).input@, old(self).position as int),
    {
        while self.ch == ' ' || self.ch == '\t' || self.ch == '\n' || self.ch == '\r'
            invariant
                self.wf(),
                self.input == old(self).input,
                skip_ws(self.input@, self.position as int) == skip_ws(
                    self.input@,
                    old(self).position as int,
                ),
            decreases self.input.len() - self.position,
        {
            self.read_char();
        }
    }

    /// Reads the maximal run of letters at the cursor and returns it.
    fn read_identifier(&mut self) -> (r: String)
        requires
            old(self).wf(),
        ensures
            final(self).wf(),
            final(self).input == old(self).input,
            final(self).position == letter_run_end(old(self).input@, old(self).position as int),
            r@ == old(self).input@.subrange(old(self).position as int, final(self).position as int),
    {
        let start = self.position;
        let mut literal = String::new();
        while self.is_letter(self.ch)
            invariant
                self.wf(),
                self.input == old(self).input,
                start == old(self).position,
                start <= self.position,
                letter_run_end(self.input@, self.position as int) == letter_run_end(
                    self.input@,
                    start as int,
                ),
                literal@ == self.input@.subrange(start as int, self.position as int),
            decreases self.input.len() - self.position,
        {
            push_char(&mut literal, self.ch);
            assert(self.input@.subrange(start as int, self.position + 1) =~= literal@);
            self.read_char();
        }
        literal
    }

    /// Reads the maximal run of digits at the cursor and returns it.
    fn read_number(&mut self) -> (r: String)
        requires
            old(self).wf(),
        ensures
            final(self).wf(),
            final(self).input == old(self).input,
            final(self).position == digit_run_end(old(self).input@, old(self).position as int),
            r@ == old(self).input@.subrange(old(self).position as int, final(self).position as int),
    {
        let start = self.position;
        let mut literal = String::new();
        while is_digit(self.ch)
            invariant
                self.wf(),
                self.input == old(self).input,
                start == old(self).position,
                start <= self.position,
                digit_run_end(self.input@, self.position as int) == digit_run_end(
                    self.input@,
                    start as int,
                ),
                literal@ == self.input@.subrange(start as int, self.position as int),
            decreases self.input.len() - self.position,
        {
            push_char(&mut literal, self.ch);
            assert(self.input@.subrange(start as int, self.position + 1) =~= literal@);
            self.read_char();
        }
        literal
    }

    /// Whether `ch` is an ASCII letter.
    fn is_letter(&self, ch: char) -> (r: bool)
        ensures
            r == is_letter_char(ch),
    {
        ('a' <= ch && ch <= 'z') || ('A' <= ch && ch <= 'Z')
    }
}

/// The kind of a one-character token starting with `c`.
fn symbol_of(c: char) -> (k: TokenType)
    ensures
        k == symbol_kind(c),
{
    match c {
        '=' => TokenType::Assign,
        '+' => TokenType::Plus,
        '-' => TokenType::Minus,
        '!' => TokenType::Bang,
        '/' => TokenType::Slash,
        '*' => TokenType::Asterisk,
        '<' => TokenType::LowerThan,
        '>' => TokenType::GraterThan,
        ';' => TokenType::SemiColon,
        ',' => TokenType::Comma,
        '{' => TokenType::LeftBrace,
        '}' => TokenType::RightBrace,
        '(' => TokenType::LeftParenthesis,
        ')' => TokenType::RightParenthesis,
        _ => TokenType::Illegal,
    }
}

/// Whether `ch` is an ASCII digit.
fn is_digit(ch: char) -> (r: bool)
    ensures
        r == is_digit_char(ch),
{
    '0' <= ch && ch <= '9'
}

} // verus!
