use noa_parser::bytes::matchers::TokenNumber;
use noa_parser::bytes::token::Token;
use noa_parser::errors::ParseError;
use noa_parser::matcher::{Match, MatchSize};
use noa_parser::recognizer::{recognize, Recognizable};
use noa_parser::scanner::Scanner;
use noa_parser::turbofish::Turbofish;

fn number(scanner: &mut Scanner<u8>) -> usize {
    let raw = recognize(TokenNumber, scanner).unwrap();
    std::str::from_utf8(raw).unwrap().parse::<usize>().unwrap()
}

#[test]
fn addition_parse() {
    let data = b"1 + 2 = 3";
    let mut scanner = Scanner::new(&data[..]);
    let lhs = number(&mut scanner);
    recognize(Token::Whitespace, &mut scanner).unwrap();
    recognize(Token::Plus, &mut scanner).unwrap();
    recognize(Token::Whitespace, &mut scanner).unwrap();
    let rhs = number(&mut scanner);
    recognize(Token::Whitespace, &mut scanner).unwrap();
    recognize(Token::Equal, &mut scanner).unwrap();
    recognize(Token::Whitespace, &mut scanner).unwrap();
    let result = number(&mut scanner);
    assert_eq!(lhs, 1);
    assert_eq!(rhs, 2);
    assert_eq!(result, 3);
    assert_eq!(scanner.current_position(), data.len());
    assert!(scanner.is_empty());
}

#[test]
fn turbofish_match() {
    let data: Vec<char> = "::<>b".chars().collect();
    let mut scanner = Scanner::new(data.as_slice());
    let matched = Turbofish.recognize(&mut scanner).unwrap().unwrap();
    assert_eq!(matched, &[':', ':', '<', '>'][..]);
    assert_eq!(matched.len(), 4);
    assert_eq!(scanner.current_position(), 4);
    assert_eq!(scanner.remaining(), &['b'][..]);
}

#[test]
fn empty_input_fails_with_end_of_input() {
    let data: [u8; 0] = [];
    let mut scanner = Scanner::new(&data[..]);
    let r = recognize(Token::Comma, &mut scanner);
    assert_eq!(r, Err(ParseError::UnexpectedEndOfInput));
    assert_eq!(scanner.current_position(), 0);
}

#[test]
fn pattern_longer_than_input_reports_no_match() {
    let data: Vec<char> = "3".chars().collect();
    assert_eq!(Turbofish.matcher(data.as_slice()), (false, 0));
}

#[test]
fn pattern_longer_than_input_fails_fast() {
    // The declared minimum size (4) exceeds the remaining input (1), so
    // the recognize operation fails before the matcher is ever invoked.
    let data: Vec<char> = "3".chars().collect();
    let mut scanner = Scanner::new(data.as_slice());
    let r = recognize(Turbofish, &mut scanner);
    assert_eq!(r, Err(ParseError::UnexpectedEndOfInput));
    assert_eq!(scanner.current_position(), 0);
}

#[test]
fn digit_run_then_mismatch() {
    let data = b"12a";
    let mut scanner = Scanner::new(&data[..]);
    let matched = recognize(TokenNumber, &mut scanner).unwrap();
    assert_eq!(matched, &b"12"[..]);
    assert_eq!(scanner.current_position(), 2);
    let again = TokenNumber.recognize(&mut scanner).unwrap();
    assert_eq!(again, None);
    assert_eq!(scanner.current_position(), 2);
}

#[test]
fn size_zero_may_consume_more() {
    // The digit-run matcher declares minimum size 0 yet consumes two
    // elements here: the declared size is a lower bound only.
    assert_eq!(TokenNumber.size(), 0);
    assert_eq!(TokenNumber.matcher(&b"12a"[..]), (true, 2));
}
