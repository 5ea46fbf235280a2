use cif_lexer::lexer::Lexer;
use cif_lexer::token::Token;

fn chars_of(s: &str) -> Vec<char> {
    s.chars().collect()
}

#[test]
fn terminated_by_error_stays_terminated() {
    let mut lx = Lexer::new(chars_of("3.\n"));
    assert!(lx.next().unwrap().is_err());
    assert!(lx.next().is_none());
    assert!(lx.next().is_none());
    assert!(lx.next().is_none());
}

#[test]
fn terminated_by_exhaustion_stays_terminated() {
    let mut lx = Lexer::new(chars_of("42\n"));
    assert!(lx.next().unwrap().is_ok());
    assert!(lx.next().is_none());
    assert!(lx.next().is_none());
    assert!(lx.next().is_none());
}

#[test]
fn read_position_stays_in_bounds() {
    let input = "# a\n1 2.5\nx";
    let mut lx = Lexer::new(chars_of(input));
    loop {
        assert!(lx.cursor.position + lx.cursor.offset <= input.chars().count());
        match lx.next() {
            None => break,
            Some(Err(_)) => break,
            Some(Ok(_)) => {}
        }
    }
    assert!(lx.cursor.position + lx.cursor.offset <= input.chars().count());
}

#[test]
fn line_counts_consumed_newlines() {
    let input: Vec<char> = chars_of("# a\n# b\n\n\n7\n");
    let mut lx = Lexer::new(input.clone());
    loop {
        let consumed = lx.cursor.position + lx.cursor.offset;
        let newlines = input[..consumed].iter().filter(|c| **c == '\n').count();
        assert_eq!(lx.cursor.line, 1 + newlines);
        match lx.next() {
            None => break,
            Some(Err(_)) => break,
            Some(Ok(_)) => {}
        }
    }
    let newlines = input[..lx.cursor.position + lx.cursor.offset]
        .iter()
        .filter(|c| **c == '\n')
        .count();
    assert_eq!(lx.cursor.line, 1 + newlines);
}

#[test]
fn lexemes_are_exact_input_slices() {
    let input: Vec<char> = chars_of("# note\n10 20.5 30\n# last");
    let mut lx = Lexer::new(input.clone());
    let mut tokens: Vec<Token> = Vec::new();
    loop {
        match lx.next() {
            None => break,
            Some(Err(_)) => panic!("input is well-formed"),
            Some(Ok(t)) => tokens.push(t),
        }
    }
    assert_eq!(tokens.len(), 5);
    for t in &tokens {
        assert!(!t.lexeme.is_empty());
        let end = t.start_offset + t.lexeme.len();
        assert!(end <= input.len());
        assert_eq!(t.lexeme[..], input[t.start_offset..end]);
    }
}
