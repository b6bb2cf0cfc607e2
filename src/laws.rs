//! Properties of the token stream, stated over the scanning functions that
//! `Lexer::next_token` is specified by.
use crate::lexer::{
    digit_run_end, is_digit_char, is_letter_char, is_white_space, letter_run_end, skip_ws,
    token_end, token_kind,
};
use crate::token::{keyword_kind, TokenType};
use vstd::prelude::*;

verus! {

/// Skipping white space from `i` stops within the input, passes only white
/// space, and stops at the end or on a character that is not white space.
pub proof fn lemma_skip_ws(s: Seq<char>, i: int)
    requires
        0 <= i <= s.len(),
    ensures
        i <= skip_ws(s, i) <= s.len(),
        forall|k: int| i <= k < skip_ws(s, i) ==> is_white_space(#[trigger] s[k]),
        skip_ws(s, i) == s.len() || !is_white_space(s[skip_ws(s, i)]),
    decreases s.len() - i,
{
    if i < s.len() && is_white_space(s[i]) {
        lemma_skip_ws(s, i + 1);
    }
}

/// The run of letters from `i` is maximal: every character in it is a
/// letter, and the one after it (if any) is not.
pub proof fn lemma_letter_run(s: Seq<char>, i: int)
    requires
        0 <= i <= s.len(),
    ensures
        i <= letter_run_end(s, i) <= s.len(),
        forall|k: int| i <= k < letter_run_end(s, i) ==> is_letter_char(#[trigger] s[k]),
        letter_run_end(s, i) == s.len() || !is_letter_char(s[letter_run_end(s, i)]),
    decreases s.len() - i,
{
    if i < s.len() && is_letter_char(s[i]) {
        lemma_letter_run(s, i + 1);
    }
}

/// The run of digits from `i` is maximal: every character in it is a digit,
/// and the one after it (if any) is not.
pub proof fn lemma_digit_run(s: Seq<char>, i: int)
    requires
        0 <= i <= s.len(),
    ensures
        i <= digit_run_end(s, i) <= s.len(),
        forall|k: int| i <= k < digit_run_end(s, i) ==> is_digit_char(#[trigger] s[k]),
        digit_run_end(s, i) == s.len() || !is_digit_char(s[digit_run_end(s, i)]),
    decreases s.len() - i,
{
    if i < s.len() && is_digit_char(s[i]) {
        lemma_digit_run(s, i + 1);
    }
}

/// On input made only of white space, the token scanned from any cursor is
/// `EoF` with an empty literal, and the cursor ends at the end of the input.
pub proof fn lemma_white_space_only(s: Seq<char>, p: int)
    requires
        0 <= p <= s.len(),
        forall|k: int| 0 <= k < s.len() ==> is_white_space(#[trigger] s[k]),
    ensures
        skip_ws(s, p) == s.len(),
        token_kind(s, skip_ws(s, p)) == TokenType::EoF,
        token_end(s, skip_ws(s, p)) == s.len(),
        s.subrange(skip_ws(s, p), token_end(s, skip_ws(s, p))) == Seq::<char>::empty(),
{
    lemma_skip_ws(s, p);
    assert(s.subrange(s.len() as int, s.len() as int) =~= Seq::<char>::empty());
}

/// Where a token starts on `==` or `!=`, it is a single `Equal` or
/// `NotEqual` token that covers both characters.
pub proof fn lemma_two_char_operator(s: Seq<char>, p: int)
    requires
        0 <= p <= s.len(),
        skip_ws(s, p) + 1 < s.len(),
        s[skip_ws(s, p)] == '=' || s[skip_ws(s, p)] == '!',
        s[skip_ws(s, p) + 1] == '=',
    ensures
        token_end(s, skip_ws(s, p)) == skip_ws(s, p) + 2,
        token_kind(s, skip_ws(s, p)) == if s[skip_ws(s, p)] == '=' {
            TokenType::Equal
        } else {
            TokenType::NotEqual
        },
        s.subrange(skip_ws(s, p), token_end(s, skip_ws(s, p))) == seq![s[skip_ws(s, p)], '='],
{
    lemma_skip_ws(s, p);
    let j = skip_ws(s, p);
    assert(s.subrange(j, j + 2) =~= seq![s[j], '=']);
}

/// Where a token starts on a letter, its literal is the maximal run of
/// letters there, and its kind is that word's keyword kind, or `Identifier`
/// when the word is no keyword.
pub proof fn lemma_word_token(s: Seq<char>, p: int)
    requires
        0 <= p <= s.len(),
        skip_ws(s, p) < s.len(),
        is_letter_char(s[skip_ws(s, p)]),
    ensures
        ({
            let j = skip_ws(s, p);
            let e = token_end(s, j);
            &&& j < e <= s.len()
            &&& forall|k: int| j <= k < e ==> is_letter_char(#[trigger] s[k])
            &&& (e == s.len() || !is_letter_char(s[e]))
            &&& token_kind(s, j) == keyword_kind(s.subrange(j, e))
        }),
{
    lemma_skip_ws(s, p);
    lemma_letter_run(s, skip_ws(s, p));
    let j = skip_ws(s, p);
    assert(letter_run_end(s, j) == letter_run_end(s, j + 1));
    lemma_letter_run(s, j + 1);
}

/// Where a token starts on a digit, it is an `Int` token whose literal is
/// the maximal run of digits there; a letter right after the run is not
/// part of it.
pub proof fn lemma_number_token(s: Seq<char>, p: int)
    requires
        0 <= p <= s.len(),
        skip_ws(s, p) < s.len(),
        is_digit_char(s[skip_ws(s, p)]),
    ensures
        ({
            let j = skip_ws(s, p);
            let e = token_end(s, j);
            &&& j < e <= s.len()
            &&& forall|k: int| j <= k < e ==> is_digit_char(#[trigger] s[k])
            &&& forall|k: int| j <= k < e ==> !is_letter_char(#[trigger] s[k])
            &&& (e == s.len() || !is_digit_char(s[e]))
            &&& token_kind(s, j) == TokenType::Int
        }),
{
    lemma_skip_ws(s, p);
    let j = skip_ws(s, p);
    assert(digit_run_end(s, j) == digit_run_end(s, j + 1));
    lemma_digit_run(s, j + 1);
}

/// Once a scan yields `EoF`, the cursor it leaves yields `EoF` again, and
/// stays where it is.
pub proof fn lemma_end_is_terminal(s: Seq<char>, p: int)
    requires
        0 <= p <= s.len(),
        token_kind(s, skip_ws(s, p)) == TokenType::EoF,
    ensures
        ({
            let q = token_end(s, skip_ws(s, p));
            &&& 0 <= q <= s.len()
            &&& token_kind(s, skip_ws(s, q)) == TokenType::EoF
            &&& token_end(s, skip_ws(s, q)) == q
        }),
{
    lemma_skip_ws(s, p);
    let j = skip_ws(s, p);
    if j < s.len() {
        if is_letter_char(s[j]) {
            let w = s.subrange(j, letter_run_end(s, j));
            assert(keyword_kind(w) != TokenType::EoF);
        }
        assert(token_kind(s, j) != TokenType::EoF);
    }
}

} // verus!
