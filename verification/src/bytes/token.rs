//! A closed set of single-character tokens over byte input.

use vstd::prelude::*;
use crate::bytes::matchers::{match_char, spec_match_char};
use crate::matcher::{Match, MatchSize};

verus! {

/// The token type: a closed set of single-element fixed patterns, each
/// with exact size 1.
pub enum Token {
    /// The `(` character
    OpenParen,
    /// The `)` character
    CloseParen,
    /// The `,` character
    Comma,
    /// The `;` character
    Semicolon,
    /// The `:` character
    Colon,
    /// The whitespace character
    Whitespace,
    /// The `>` character
    GreaterThan,
    /// The `<` character
    LessThan,
    /// The `!` character
    Exclamation,
    /// The `'` character
    Quote,
    /// The `"` character
    DoubleQuote,
    /// The `=` character
    Equal,
    /// The `+` character
    Plus,
}

impl Token {
    /// The single character this token stands for.
    pub open spec fn spec_char(self) -> char {
        match self {
            Token::OpenParen => '(',
            Token::CloseParen => ')',
            Token::Comma => ',',
            Token::Semicolon => ';',
            Token::Colon => ':',
            Token::Whitespace => ' ',
            Token::GreaterThan => '>',
            Token::LessThan => '<',
            Token::Exclamation => '!',
            Token::Quote => '\'',
            Token::DoubleQuote => '"',
            Token::Equal => '=',
            Token::Plus => '+',
        }
    }
}

impl Match<u8> for Token {
    open spec fn spec_matches(&self, data: Seq<u8>) -> bool {
        spec_match_char(self.spec_char(), data)
    }

    open spec fn spec_consumed(&self, data: Seq<u8>) -> nat {
        if spec_match_char(self.spec_char(), data) {
            1
        } else {
            0
        }
    }

    fn matcher(&self, data: &[u8]) -> (r: (bool, usize)) {
        match self {
            Token::OpenParen => match_char('(', data),
            Token::CloseParen => match_char(')', data),
            Token::Comma => match_char(',', data),
            Token::Semicolon => match_char(';', data),
            Token::Colon => match_char(':', data),
            Token::Whitespace => match_char(' ', data),
            Token::GreaterThan => match_char('>', data),
            Token::LessThan => match_char('<', data),
            Token::Exclamation => match_char('!', data),
            Token::Quote => match_char('\'', data),
            Token::DoubleQuote => match_char('"', data),
            Token::Equal => match_char('=', data),
            Token::Plus => match_char('+', data),
        }
    }
}

impl MatchSize for Token {
    open spec fn spec_size(&self) -> nat {
        1
    }

    fn size(&self) -> usize {
        match self {
            Token::OpenParen => 1,
            Token::CloseParen => 1,
            Token::Comma => 1,
            Token::Semicolon => 1,
            Token::Colon => 1,
            Token::Whitespace => 1,
            Token::GreaterThan => 1,
            Token::LessThan => 1,
            Token::Exclamation => 1,
            Token::Quote => 1,
            Token::DoubleQuote => 1,
            Token::Equal => 1,
            Token::Plus => 1,
        }
    }
}

} // verus!
