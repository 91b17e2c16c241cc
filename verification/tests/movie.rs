use winter::movie::{parse_byte, parse_movie_line, parse_movie_tokens, split_tokens, MovieCommand, MovieLineError};

fn chars(s: &str) -> Vec<char> {
    s.chars().collect()
}

fn key(line: &str) -> (u8, bool) {
    match parse_movie_line(line) {
        Ok(MovieCommand::Key { id, state }) => (id, state),
        other => panic!("expected a key command, got {:?}", other),
    }
}

fn wait(line: &str) -> String {
    match parse_movie_line(line) {
        Ok(MovieCommand::Wait { seconds }) => seconds.into_iter().collect(),
        other => panic!("expected a wait command, got {:?}", other),
    }
}

#[test]
fn key_commands() {
    assert_eq!(key("key 65 1"), (65, true));
    assert_eq!(key("key 65 0"), (65, false));
    assert_eq!(key("KEY 32 255"), (32, true));
    assert_eq!(key("  Key\t13  2 trailing tokens"), (13, true));
    assert_eq!(key("key 007 000"), (7, false));
}

#[test]
fn key_word_in_any_case_by_unicode_lowercase() {
    // U+212A KELVIN SIGN lowercases to 'k'.
    assert_eq!(key("\u{212A}ey 1 1"), (1, true));
}

#[test]
fn wait_commands() {
    assert_eq!(wait("wait 0.5"), "0.5");
    assert_eq!(wait("WAIT 2 extra"), "2");
    assert_eq!(wait("\twait   1e-3\r"), "1e-3");
}

#[test]
fn movie_line_errors() {
    assert_eq!(parse_movie_line("").unwrap_err(), MovieLineError::MissingToken);
    assert_eq!(parse_movie_line("   \t ").unwrap_err(), MovieLineError::MissingToken);
    assert_eq!(parse_movie_line("key").unwrap_err(), MovieLineError::MissingToken);
    assert_eq!(parse_movie_line("key 65").unwrap_err(), MovieLineError::MissingToken);
    assert_eq!(parse_movie_line("key 256 1").unwrap_err(), MovieLineError::InvalidNumber);
    assert_eq!(parse_movie_line("key -1 1").unwrap_err(), MovieLineError::InvalidNumber);
    assert_eq!(parse_movie_line("key x").unwrap_err(), MovieLineError::InvalidNumber);
    assert_eq!(parse_movie_line("key 65 on").unwrap_err(), MovieLineError::InvalidNumber);
    assert_eq!(parse_movie_line("wait").unwrap_err(), MovieLineError::MissingToken);
    assert_eq!(parse_movie_line("press 65 1").unwrap_err(), MovieLineError::UnknownCommand);
}

#[test]
fn tokens_split_on_ascii_whitespace() {
    let tokens = split_tokens(" a\tbc\n\x0cd\re  ");
    assert_eq!(tokens, vec![chars("a"), chars("bc"), chars("d"), chars("e")]);
    assert!(split_tokens("").is_empty());
    // A no-break space is not ASCII whitespace.
    assert_eq!(split_tokens("a\u{a0}b"), vec![chars("a\u{a0}b")]);
}

#[test]
fn tokens_with_lowercase_command() {
    let tokens = vec![chars("KEY"), chars("10"), chars("1")];
    assert_eq!(
        parse_movie_tokens(&tokens, &chars("key")).ok().map(|c| matches!(c, MovieCommand::Key { id: 10, state: true })),
        Some(true)
    );
    assert_eq!(parse_movie_tokens(&tokens, &chars("KEY")).unwrap_err(), MovieLineError::UnknownCommand);
    assert_eq!(parse_movie_tokens(&Vec::new(), &chars("key")).unwrap_err(), MovieLineError::MissingToken);
}

#[test]
fn bytes_in_decimal() {
    assert_eq!(parse_byte(&chars("0")), Some(0));
    assert_eq!(parse_byte(&chars("255")), Some(255));
    assert_eq!(parse_byte(&chars("+7")), Some(7));
    assert_eq!(parse_byte(&chars("256")), None);
    assert_eq!(parse_byte(&chars("")), None);
    assert_eq!(parse_byte(&chars("+")), None);
    assert_eq!(parse_byte(&chars("1a")), None);
}
