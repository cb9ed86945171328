use ansi_parser::{AnsiParser, Output};
use vstd::prelude::*;

verus! {

/// The character that opens every escape sequence.
pub const ESC: char = '\u{1b}';

/// One piece of a line, as the tokenizer cuts it.
#[derive(Debug)]
pub enum Token {
    /// Literal text between escape sequences.
    Text(String),
    /// A recognised escape sequence, in the spelling the tokenizer prints it
    /// with. Two sequences are the same exactly where their spellings are.
    Escape(String),
}

/// A `Token` over mathematical strings.
pub enum TokenView {
    Text(Seq<char>),
    Escape(Seq<char>),
}

impl View for Token {
    type V = TokenView;

    open spec fn view(&self) -> TokenView {
        match self {
            Token::Text(text) => TokenView::Text(text@),
            Token::Escape(code) => TokenView::Escape(code@),
        }
    }
}

impl DeepView for Token {
    type V = TokenView;

    open spec fn deep_view(&self) -> TokenView {
        self@
    }
}

/// The pieces that `ansi_parser`'s iterator cuts `line` into, in order, each
/// escape sequence printed by its `Display`.
pub uninterp spec fn ansi_tokens(line: Seq<char>) -> Seq<TokenView>;

/// Runs `AnsiParser::ansi_parse` over `line` to its end and hands out every
/// piece: a text block as it stands, an escape sequence as its `Display`
/// prints it. Trusted: the pieces depend on the line alone; an empty line has
/// none (the iterator ends at once); and a line that is not empty and does
/// not open with the escape character starts with a text block (the iterator
/// cuts text off at the first escape character, or takes the whole line where
/// there is none).
#[verifier::external_body]
pub(crate) fn tokenize(line: &str) -> (tokens: Vec<Token>)
    ensures
        tokens.deep_view() == ansi_tokens(line@),
        line@.len() == 0 ==> tokens@.len() == 0,
        line@.len() > 0 && line@[0] != ESC ==> tokens@.len() > 0 && tokens@[0] is Text,
{
    line.ansi_parse().map(
        |piece|
            match piece {
                Output::TextBlock(text) => Token::Text(text.to_string()),
                Output::Escape(code) => Token::Escape(code.to_string()),
            },
    ).collect()
}

/// The line starts with literal text.
pub open spec fn lead_is_text(tokens: Seq<TokenView>) -> bool {
    tokens.len() > 0 && tokens[0] is Text
}

/// The line starts with the escape sequence `marker`.
pub open spec fn lead_is_marker(tokens: Seq<TokenView>, marker: Seq<char>) -> bool {
    tokens.len() > 0 && tokens[0] == TokenView::Escape(marker)
}

/// The text block that follows the first token, if there is one.
pub open spec fn text_after_lead(tokens: Seq<TokenView>) -> Option<Seq<char>> {
    if tokens.len() > 1 {
        match tokens[1] {
            TokenView::Text(text) => Some(text),
            TokenView::Escape(_) => None,
        }
    } else {
        None
    }
}

/// Whether the first token is literal text.
pub fn starts_with_text(tokens: &Vec<Token>) -> (r: bool)
    ensures
        r == lead_is_text(tokens.deep_view()),
{
    if tokens.len() == 0 {
        return false;
    }
    assert(tokens.deep_view()[0] == tokens@[0]@);
    match &tokens[0] {
        Token::Text(_) => true,
        Token::Escape(_) => false,
    }
}

/// Whether the first token is the escape sequence `marker`.
pub fn starts_with_marker(tokens: &Vec<Token>, marker: &String) -> (r: bool)
    ensures
        r == lead_is_marker(tokens.deep_view(), marker@),
{
    if tokens.len() == 0 {
        return false;
    }
    assert(tokens.deep_view()[0] == tokens@[0]@);
    match &tokens[0] {
        Token::Text(_) => false,
        Token::Escape(code) => *code == *marker,
    }
}

/// The text block in second place, if there is one.
pub fn second_text(tokens: &Vec<Token>) -> (r: Option<&String>)
    ensures
        match r {
            Some(text) => text_after_lead(tokens.deep_view()) == Some(text@),
            None => text_after_lead(tokens.deep_view()) is None,
        },
{
    if tokens.len() < 2 {
        return None;
    }
    assert(tokens.deep_view()[1] == tokens@[1]@);
    match &tokens[1] {
        Token::Text(text) => Some(text),
        Token::Escape(_) => None,
    }
}

} // verus!
