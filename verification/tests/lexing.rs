use cif_lexer::lexer::Lexer;
use cif_lexer::token::LexError;
use cif_lexer::token::TokenKind;

fn chars_of(s: &str) -> Vec<char> {
    s.chars().collect()
}

fn text_of(v: &[char]) -> String {
    v.iter().collect()
}

#[test]
fn empty_input_is_immediate_end() {
    let mut lx = Lexer::new(chars_of(""));
    assert!(lx.next().is_none());
    assert!(lx.next().is_none());
}

#[test]
fn comment_token_excludes_delimiters() {
    let mut lx = Lexer::new(chars_of("# hello\n"));
    let t = lx.next().unwrap().unwrap();
    assert_eq!(text_of(&t.lexeme), "hello");
    assert_eq!(t.kind, TokenKind::Comment);
    assert_eq!(t.line, 1);
    assert_eq!(t.start_offset, 2);
    assert!(lx.next().is_none());
}

#[test]
fn integer_token() {
    let mut lx = Lexer::new(chars_of("42\n"));
    let t = lx.next().unwrap().unwrap();
    assert_eq!(text_of(&t.lexeme), "42");
    assert_eq!(t.kind, TokenKind::Integer);
    assert_eq!(t.line, 1);
    assert_eq!(t.start_offset, 0);
    assert!(lx.next().is_none());
}

#[test]
fn float_token() {
    let mut lx = Lexer::new(chars_of("3.14\n"));
    let t = lx.next().unwrap().unwrap();
    assert_eq!(text_of(&t.lexeme), "3.14");
    assert_eq!(t.kind, TokenKind::Float);
    assert_eq!(t.line, 1);
    assert_eq!(t.start_offset, 0);
    assert!(lx.next().is_none());
}

#[test]
fn decimal_point_needs_digit() {
    let mut lx = Lexer::new(chars_of("3.\n"));
    let e = lx.next().unwrap().unwrap_err();
    assert_eq!(e, LexError { position: 2, line: 1 });
    assert!(lx.next().is_none());
}

#[test]
fn two_comments_line_numbers() {
    let mut lx = Lexer::new(chars_of("# a\n# b\n"));
    let a = lx.next().unwrap().unwrap();
    assert_eq!(text_of(&a.lexeme), "a");
    assert_eq!(a.kind, TokenKind::Comment);
    assert_eq!(a.line, 1);
    let b = lx.next().unwrap().unwrap();
    assert_eq!(text_of(&b.lexeme), "b");
    assert_eq!(b.kind, TokenKind::Comment);
    assert_eq!(b.line, 2);
    assert!(lx.next().is_none());
}

#[test]
fn comment_ends_at_end_of_input() {
    let mut lx = Lexer::new(chars_of("# tail"));
    let t = lx.next().unwrap().unwrap();
    assert_eq!(text_of(&t.lexeme), "tail");
    assert_eq!(t.kind, TokenKind::Comment);
    assert!(lx.next().is_none());
}

#[test]
fn integer_ends_at_end_of_input() {
    let mut lx = Lexer::new(chars_of("7"));
    let t = lx.next().unwrap().unwrap();
    assert_eq!(text_of(&t.lexeme), "7");
    assert_eq!(t.kind, TokenKind::Integer);
    assert!(lx.next().is_none());
}

#[test]
fn float_ends_at_end_of_input() {
    let mut lx = Lexer::new(chars_of("3.5"));
    let t = lx.next().unwrap().unwrap();
    assert_eq!(text_of(&t.lexeme), "3.5");
    assert_eq!(t.kind, TokenKind::Float);
    assert!(lx.next().is_none());
}

#[test]
fn decimal_point_at_end_of_input_fails() {
    let mut lx = Lexer::new(chars_of("3."));
    let e = lx.next().unwrap().unwrap_err();
    assert_eq!(e, LexError { position: 2, line: 1 });
    assert!(lx.next().is_none());
}

#[test]
fn empty_comment_emits_no_token() {
    let mut lx = Lexer::new(chars_of("#\n# x\n"));
    let t = lx.next().unwrap().unwrap();
    assert_eq!(text_of(&t.lexeme), "x");
    assert_eq!(t.line, 2);
    assert!(lx.next().is_none());

    let mut only = Lexer::new(chars_of("#"));
    assert!(only.next().is_none());
}

#[test]
fn comment_leading_whitespace_skipped() {
    let mut lx = Lexer::new(chars_of("#\t  padded out\n"));
    let t = lx.next().unwrap().unwrap();
    assert_eq!(text_of(&t.lexeme), "padded out");
    assert_eq!(t.start_offset, 4);
    assert!(lx.next().is_none());
}

#[test]
fn hash_inside_comment_is_kept() {
    let mut lx = Lexer::new(chars_of("# a#b\n"));
    let t = lx.next().unwrap().unwrap();
    assert_eq!(text_of(&t.lexeme), "a#b");
    assert!(lx.next().is_none());
}

#[test]
fn unexpected_character_fails() {
    let mut lx = Lexer::new(chars_of("~"));
    let e = lx.next().unwrap().unwrap_err();
    assert_eq!(e, LexError { position: 0, line: 1 });
    assert!(lx.next().is_none());
}

#[test]
fn non_ascii_comment_character_fails() {
    let mut lx = Lexer::new(chars_of("# \u{e9}\n"));
    let e = lx.next().unwrap().unwrap_err();
    assert_eq!(e, LexError { position: 2, line: 1 });
    assert!(lx.next().is_none());
}

#[test]
fn error_carries_line_and_position() {
    let mut lx = Lexer::new(chars_of("1\n 2\n!"));
    let one = lx.next().unwrap().unwrap();
    assert_eq!(text_of(&one.lexeme), "1");
    assert_eq!(one.line, 1);
    let two = lx.next().unwrap().unwrap();
    assert_eq!(text_of(&two.lexeme), "2");
    assert_eq!(two.line, 2);
    assert_eq!(two.start_offset, 3);
    let e = lx.next().unwrap().unwrap_err();
    assert_eq!(e, LexError { position: 5, line: 3 });
    assert!(lx.next().is_none());
}

#[test]
fn mixed_line_of_tokens() {
    let mut lx = Lexer::new(chars_of("# t\n12 3.5\n"));
    let c = lx.next().unwrap().unwrap();
    assert_eq!(text_of(&c.lexeme), "t");
    assert_eq!(c.kind, TokenKind::Comment);
    assert_eq!(c.line, 1);
    let i = lx.next().unwrap().unwrap();
    assert_eq!(text_of(&i.lexeme), "12");
    assert_eq!(i.kind, TokenKind::Integer);
    assert_eq!(i.line, 2);
    assert_eq!(i.start_offset, 4);
    let f = lx.next().unwrap().unwrap();
    assert_eq!(text_of(&f.lexeme), "3.5");
    assert_eq!(f.kind, TokenKind::Float);
    assert_eq!(f.line, 2);
    assert_eq!(f.start_offset, 7);
    assert!(lx.next().is_none());
}

#[test]
fn numbers_separated_by_whitespace() {
    let mut lx = Lexer::new(chars_of(" 42  7\n"));
    let a = lx.next().unwrap().unwrap();
    assert_eq!(text_of(&a.lexeme), "42");
    assert_eq!(a.start_offset, 1);
    let b = lx.next().unwrap().unwrap();
    assert_eq!(text_of(&b.lexeme), "7");
    assert_eq!(b.start_offset, 5);
    assert!(lx.next().is_none());
}

#[test]
fn tab_and_carriage_return_are_delimiters() {
    let mut lx = Lexer::new(chars_of("\t9\r\n"));
    let t = lx.next().unwrap().unwrap();
    assert_eq!(text_of(&t.lexeme), "9");
    assert_eq!(t.kind, TokenKind::Integer);
    assert_eq!(t.line, 1);
    assert!(lx.next().is_none());
}

#[test]
fn float_with_many_digits() {
    let mut lx = Lexer::new(chars_of("10.25\n"));
    let t = lx.next().unwrap().unwrap();
    assert_eq!(text_of(&t.lexeme), "10.25");
    assert_eq!(t.kind, TokenKind::Float);
    assert!(lx.next().is_none());
}
