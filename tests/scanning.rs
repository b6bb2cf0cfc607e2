use monkey_lexer::lexer::Lexer;
use monkey_lexer::text::chars_of;
use monkey_lexer::token::{Token, TokenType};

fn scan_all(input: &str) -> Vec<(TokenType, String)> {
    let mut lexer = Lexer::new(input.to_string());
    let mut out = Vec::new();
    loop {
        let tok = lexer.next_token();
        let done = tok.token_type == TokenType::EoF;
        out.push((tok.token_type, tok.literal));
        if done {
            return out;
        }
    }
}

fn pairs(expected: &[(TokenType, &str)]) -> Vec<(TokenType, String)> {
    expected.iter().map(|(k, l)| (k.clone(), l.to_string())).collect()
}

#[test]
fn white_space_only_gives_end_of_input() {
    for input in ["", " ", "\t\n\r  ", "\n\n\n"] {
        let mut lexer = Lexer::new(input.to_string());
        let tok = lexer.next_token();
        assert_eq!(tok.token_type, TokenType::EoF);
        assert_eq!(tok.literal, "");
        let again = lexer.next_token();
        assert_eq!(again.token_type, TokenType::EoF);
        assert_eq!(again.literal, "");
    }
}

#[test]
fn equal_and_not_equal_are_single_tokens() {
    assert_eq!(
        scan_all("a==b!=c"),
        pairs(&[
            (TokenType::Identifier, "a"),
            (TokenType::Equal, "=="),
            (TokenType::Identifier, "b"),
            (TokenType::NotEqual, "!="),
            (TokenType::Identifier, "c"),
            (TokenType::EoF, ""),
        ])
    );
}

#[test]
fn three_equals_signs_scan_as_equal_then_assign() {
    assert_eq!(
        scan_all("==="),
        pairs(&[(TokenType::Equal, "=="), (TokenType::Assign, "="), (TokenType::EoF, "")])
    );
    assert_eq!(
        scan_all("!==  = !"),
        pairs(&[
            (TokenType::NotEqual, "!="),
            (TokenType::Assign, "="),
            (TokenType::Assign, "="),
            (TokenType::Bang, "!"),
            (TokenType::EoF, ""),
        ])
    );
}

#[test]
fn letter_runs_are_keywords_or_identifiers() {
    assert_eq!(
        scan_all("fn let true false if else return Let lets iff foobar"),
        pairs(&[
            (TokenType::Function, "fn"),
            (TokenType::Let, "let"),
            (TokenType::True, "true"),
            (TokenType::False, "false"),
            (TokenType::If, "if"),
            (TokenType::Else, "else"),
            (TokenType::Return, "return"),
            (TokenType::Identifier, "Let"),
            (TokenType::Identifier, "lets"),
            (TokenType::Identifier, "iff"),
            (TokenType::Identifier, "foobar"),
            (TokenType::EoF, ""),
        ])
    );
}

#[test]
fn identifiers_stop_at_digits_and_underscores() {
    assert_eq!(
        scan_all("x1 a_b"),
        pairs(&[
            (TokenType::Identifier, "x"),
            (TokenType::Int, "1"),
            (TokenType::Identifier, "a"),
            (TokenType::Illegal, "_"),
            (TokenType::Identifier, "b"),
            (TokenType::EoF, ""),
        ])
    );
}

#[test]
fn digit_runs_do_not_absorb_letters() {
    assert_eq!(
        scan_all("5x 12345 007"),
        pairs(&[
            (TokenType::Int, "5"),
            (TokenType::Identifier, "x"),
            (TokenType::Int, "12345"),
            (TokenType::Int, "007"),
            (TokenType::EoF, ""),
        ])
    );
}

#[test]
fn negative_number_is_minus_then_int() {
    assert_eq!(
        scan_all("-5"),
        pairs(&[(TokenType::Minus, "-"), (TokenType::Int, "5"), (TokenType::EoF, "")])
    );
}

#[test]
fn end_of_input_repeats() {
    let mut lexer = Lexer::new("x;".to_string());
    assert_eq!(lexer.next_token().token_type, TokenType::Identifier);
    assert_eq!(lexer.next_token().token_type, TokenType::SemiColon);
    for _ in 0..5 {
        let tok = lexer.next_token();
        assert_eq!(tok.token_type, TokenType::EoF);
        assert_eq!(tok.literal, "");
    }
}

#[test]
fn let_statement() {
    assert_eq!(
        scan_all("let five = 5;"),
        pairs(&[
            (TokenType::Let, "let"),
            (TokenType::Identifier, "five"),
            (TokenType::Assign, "="),
            (TokenType::Int, "5"),
            (TokenType::SemiColon, ";"),
            (TokenType::EoF, ""),
        ])
    );
}

#[test]
fn equality_statement() {
    assert_eq!(
        scan_all("10 == 10;"),
        pairs(&[
            (TokenType::Int, "10"),
            (TokenType::Equal, "=="),
            (TokenType::Int, "10"),
            (TokenType::SemiColon, ";"),
            (TokenType::EoF, ""),
        ])
    );
}

#[test]
fn operator_run() {
    assert_eq!(
        scan_all("!-/*5;"),
        pairs(&[
            (TokenType::Bang, "!"),
            (TokenType::Minus, "-"),
            (TokenType::Slash, "/"),
            (TokenType::Asterisk, "*"),
            (TokenType::Int, "5"),
            (TokenType::SemiColon, ";"),
            (TokenType::EoF, ""),
        ])
    );
}

#[test]
fn single_illegal_character() {
    assert_eq!(scan_all("@"), pairs(&[(TokenType::Illegal, "@"), (TokenType::EoF, "")]));
}

#[test]
fn every_delimiter_and_operator() {
    assert_eq!(
        scan_all("=+-!/*<>;,{}()"),
        pairs(&[
            (TokenType::Assign, "="),
            (TokenType::Plus, "+"),
            (TokenType::Minus, "-"),
            (TokenType::Bang, "!"),
            (TokenType::Slash, "/"),
            (TokenType::Asterisk, "*"),
            (TokenType::LowerThan, "<"),
            (TokenType::GraterThan, ">"),
            (TokenType::SemiColon, ";"),
            (TokenType::Comma, ","),
            (TokenType::LeftBrace, "{"),
            (TokenType::RightBrace, "}"),
            (TokenType::LeftParenthesis, "("),
            (TokenType::RightParenthesis, ")"),
            (TokenType::EoF, ""),
        ])
    );
}

#[test]
fn non_ascii_character_is_one_illegal_token() {
    assert_eq!(
        scan_all("é+日x"),
        pairs(&[
            (TokenType::Illegal, "é"),
            (TokenType::Plus, "+"),
            (TokenType::Illegal, "日"),
            (TokenType::Identifier, "x"),
            (TokenType::EoF, ""),
        ])
    );
}

#[test]
fn nul_inside_the_input_is_illegal() {
    assert_eq!(
        scan_all("a\0b"),
        pairs(&[
            (TokenType::Identifier, "a"),
            (TokenType::Illegal, "\0"),
            (TokenType::Identifier, "b"),
            (TokenType::EoF, ""),
        ])
    );
}

#[test]
fn other_punctuation_is_illegal() {
    assert_eq!(
        scan_all("#$"),
        pairs(&[(TokenType::Illegal, "#"), (TokenType::Illegal, "$"), (TokenType::EoF, "")])
    );
}

#[test]
fn lookup_identifier_classifies_words() {
    assert_eq!(Token::lookup_identifier("fn"), TokenType::Function);
    assert_eq!(Token::lookup_identifier("let"), TokenType::Let);
    assert_eq!(Token::lookup_identifier("true"), TokenType::True);
    assert_eq!(Token::lookup_identifier("false"), TokenType::False);
    assert_eq!(Token::lookup_identifier("if"), TokenType::If);
    assert_eq!(Token::lookup_identifier("else"), TokenType::Else);
    assert_eq!(Token::lookup_identifier("return"), TokenType::Return);
    assert_eq!(Token::lookup_identifier("RETURN"), TokenType::Identifier);
    assert_eq!(Token::lookup_identifier("f"), TokenType::Identifier);
    assert_eq!(Token::lookup_identifier(""), TokenType::Identifier);
}

#[test]
fn token_new_keeps_its_fields() {
    let tok = Token::new(TokenType::Plus, "+".to_string());
    assert_eq!(tok.token_type, TokenType::Plus);
    assert_eq!(tok.literal, "+");
}

#[test]
fn chars_of_splits_into_characters() {
    assert_eq!(chars_of("aé日"), vec!['a', 'é', '日']);
    assert_eq!(chars_of(""), Vec::<char>::new());
}

#[test]
fn pushed_characters_form_literals() {
    // multi-character literals are assembled one character at a time
    let tok = Lexer::new("  return".to_string()).next_token();
    assert_eq!(tok.literal, "return");
    assert_eq!(tok.literal.len(), 6);
}
