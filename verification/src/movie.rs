use vstd::prelude::*;
use crate::text::{lowercase_chars, str_chars, unicode_lowercase};

verus! {

broadcast use vstd::string::group_string_axioms;

/// ASCII whitespace as `split_ascii_whitespace` takes it: space, tab, line
/// feed, form feed and carriage return.
pub open spec fn is_ascii_whitespace(c: char) -> bool {
    c == ' ' || c == '\t' || c == '\n' || c == '\x0C' || c == '\r'
}

/// The maximal runs of characters that are not ASCII whitespace, in order.
pub open spec fn tokens(s: Seq<char>) -> Seq<Seq<char>>
    decreases s.len(),
{
    if s.len() == 0 {
        Seq::empty()
    } else {
        let t = tokens(s.drop_last());
        let c = s.last();
        if is_ascii_whitespace(c) {
            t
        } else if s.len() >= 2 && !is_ascii_whitespace(s[s.len() - 2]) {
            t.update(t.len() - 1, t.last().push(c))
        } else {
            t.push(seq![c])
        }
    }
}

pub open spec fn is_digit(c: char) -> bool {
    '0' <= c && c <= '9'
}

pub open spec fn all_digits(d: Seq<char>) -> bool {
    forall|i: int| 0 <= i < d.len() ==> is_digit(#[trigger] d[i])
}

/// The decimal value of a string of digits.
pub open spec fn digits_value(d: Seq<char>) -> int
    decreases d.len(),
{
    if d.len() == 0 {
        0
    } else {
        digits_value(d.drop_last()) * 10 + (d.last() as int - '0' as int)
    }
}

/// The byte that a token stands for in decimal, as `str::parse::<u8>` reads
/// it: an optional `+`, then at least one digit, with a value of at most 255.
pub open spec fn parse_u8(s: Seq<char>) -> Option<u8> {
    let d = if s.len() > 0 && s[0] == '+' {
        s.drop_first()
    } else {
        s
    };
    if d.len() == 0 || !all_digits(d) || digits_value(d) > 255 {
        None
    } else {
        Some(digits_value(d) as u8)
    }
}

proof fn lemma_digits_value_grows(d: Seq<char>, k: int)
    requires
        all_digits(d),
        0 <= k <= d.len(),
    ensures
        digits_value(d.take(k)) <= digits_value(d),
        digits_value(d.take(k)) >= 0,
    decreases d.len(),
{
    if k == d.len() {
        assert(d.take(k) =~= d);
        lemma_digits_value_nonnegative(d);
    } else {
        assert(all_digits(d.drop_last()));
        lemma_digits_value_grows(d.drop_last(), k);
        assert(d.drop_last().take(k) =~= d.take(k));
        lemma_digits_value_nonnegative(d.drop_last());
        assert(is_digit(d[d.len() - 1]));
    }
}

proof fn lemma_digits_value_nonnegative(d: Seq<char>)
    requires
        all_digits(d),
    ensures
        digits_value(d) >= 0,
    decreases d.len(),
{
    if d.len() > 0 {
        assert(all_digits(d.drop_last()));
        lemma_digits_value_nonnegative(d.drop_last());
        assert(is_digit(d[d.len() - 1]));
    }
}

/// Reads a token as a byte in decimal (see `parse_u8`).
pub fn parse_byte(token: &Vec<char>) -> (value: Option<u8>)
    ensures
        value == parse_u8(token@),
{
    let ghost s = token@;
    let start: usize = if token.len() > 0 && token[0] == '+' {
        1
    } else {
        0
    };
    let ghost d = if s.len() > 0 && s[0] == '+' {
        s.drop_first()
    } else {
        s
    };
    assert(d =~= s.skip(start as int));
    if start >= token.len() {
        return None;
    }
    let mut value: u32 = 0;
    let mut i: usize = start;
    while i < token.len()
        invariant
            start <= i <= token@.len(),
            s == token@,
            d == s.skip(start as int),
            d == (if s.len() > 0 && s[0] == '+' {
                s.drop_first()
            } else {
                s
            }),
            all_digits(d.take(i - start)),
            value == digits_value(d.take(i - start)),
            value <= 255,
        decreases token@.len() - i,
    {
        let c = token[i];
        if !('0' <= c && c <= '9') {
            assert(!all_digits(d)) by {
                assert(d[i - start] == c);
            }
            assert(parse_u8(s) is None);
            return None;
        }
        let digit = (c as u32) - ('0' as u32);
        assert(d.take(i - start + 1).drop_last() =~= d.take(i - start));
        assert(d.take(i - start + 1).last() == c);
        let next = value * 10 + digit;
        assert(all_digits(d.take(i - start + 1))) by {
            assert forall|j: int| 0 <= j < d.take(i - start + 1).len() implies is_digit(#[trigger] d.take(i - start + 1)[j]) by {
                if j < i - start {
                    assert(d.take(i - start + 1)[j] == d.take(i - start)[j]);
                }
            }
        }
        if next > 255 {
            proof {
                if all_digits(d) {
                    lemma_digits_value_grows(d, i - start + 1);
                }
            }
            assert(parse_u8(s) is None);
            return None;
        }
        value = next;
        i = i + 1;
    }
    assert(d.take(i - start) =~= d);
    Some(value as u8)
}

/// A command of a movie file.
#[derive(Clone, Debug)]
pub enum MovieCommand {
    /// Press (true) or release (false) the key with this virtual-key code.
    Key { id: u8, state: bool },
    /// Let the given number of seconds pass; the token is a decimal
    /// floating-point number, which the caller reads.
    Wait { seconds: Vec<char> },
}

/// Why a movie line is not a command.
#[derive(Clone, Copy, Debug, PartialEq, Eq, Structural)]
pub enum MovieLineError {
    /// The line ends before a token that its command needs.
    MissingToken,
    /// A key code or state is not a byte in decimal.
    InvalidNumber,
    /// The first token names no command.
    UnknownCommand,
}

/// What the tokens of a movie line mean, given the lowercase form of the
/// first token as `command`: `key` takes a key code and a state (any value
/// but 0 presses the key) and `wait` takes a number of seconds; tokens after
/// those are ignored. The tokens are read in order, so a bad key code is
/// reported before a missing state.
pub open spec fn tokens_result(
    t: Seq<Seq<char>>,
    command: Seq<char>,
    result: Result<MovieCommand, MovieLineError>,
) -> bool {
    if t.len() == 0 {
        result == Err::<MovieCommand, MovieLineError>(MovieLineError::MissingToken)
    } else if command == seq!['k', 'e', 'y'] {
        if t.len() < 2 {
            result == Err::<MovieCommand, MovieLineError>(MovieLineError::MissingToken)
        } else if parse_u8(t[1]) is None {
            result == Err::<MovieCommand, MovieLineError>(MovieLineError::InvalidNumber)
        } else if t.len() < 3 {
            result == Err::<MovieCommand, MovieLineError>(MovieLineError::MissingToken)
        } else if parse_u8(t[2]) is None {
            result == Err::<MovieCommand, MovieLineError>(MovieLineError::InvalidNumber)
        } else {
            result matches Ok(MovieCommand::Key { id, state }) && id == parse_u8(t[1]).unwrap()
                && state == (parse_u8(t[2]).unwrap() != 0)
        }
    } else if command == seq!['w', 'a', 'i', 't'] {
        if t.len() < 2 {
            result == Err::<MovieCommand, MovieLineError>(MovieLineError::MissingToken)
        } else {
            result matches Ok(MovieCommand::Wait { seconds }) && seconds@ == t[1]
        }
    } else {
        result == Err::<MovieCommand, MovieLineError>(MovieLineError::UnknownCommand)
    }
}

/// What a movie line means: its tokens, with the first one compared in
/// lowercase (see `tokens_result`).
pub open spec fn line_result(line: Seq<char>, result: Result<MovieCommand, MovieLineError>) -> bool {
    let t = tokens(line);
    tokens_result(t, if t.len() == 0 { Seq::empty() } else { unicode_lowercase(t[0]) }, result)
}

fn is_whitespace_char(c: char) -> (ws: bool)
    ensures
        ws == is_ascii_whitespace(c),
{
    c == ' ' || c == '\t' || c == '\n' || c == '\x0C' || c == '\r'
}

pub open spec fn token_views(tokens: Seq<Vec<char>>) -> Seq<Seq<char>> {
    tokens.map_values(|t: Vec<char>| t@)
}

/// Splits a line into its tokens (see `tokens`).
pub fn split_tokens(line: &str) -> (result: Vec<Vec<char>>)
    ensures
        token_views(result@) == tokens(line@),
{
    let chars = str_chars(line);
    let ghost s = chars@;
    let mut done: Vec<Vec<char>> = Vec::new();
    let mut current: Vec<char> = Vec::new();
    let mut in_token = false;
    let mut i: usize = 0;
    while i < chars.len()
        invariant
            i <= chars@.len(),
            s == chars@,
            in_token == (i > 0 && !is_ascii_whitespace(s[i - 1])),
            in_token ==> tokens(s.take(i as int)) == token_views(done@).push(current@),
            !in_token ==> tokens(s.take(i as int)) == token_views(done@),
        decreases chars@.len() - i,
    {
        let c = chars[i];
        let ghost prefix = s.take(i + 1);
        assert(prefix.drop_last() =~= s.take(i as int));
        assert(prefix.last() == c);
        if is_whitespace_char(c) {
            if in_token {
                let finished = current;
                current = Vec::new();
                done.push(finished);
                assert(token_views(done@) =~= token_views(done@.drop_last()).push(finished@));
                assert(done@.drop_last() =~= done@.drop_last());
            }
            in_token = false;
            proof {
                if i > 0 && !is_ascii_whitespace(s[i - 1]) {
                    assert(tokens(prefix) == tokens(s.take(i as int)));
                }
            }
        } else {
            if in_token {
                let ghost before = current@;
                current.push(c);
                assert(prefix[prefix.len() - 2] == s[i - 1]);
                assert(tokens(prefix) =~= token_views(done@).push(current@));
            } else {
                current = Vec::new();
                current.push(c);
                assert(current@ =~= seq![c]);
                proof {
                    if i > 0 {
                        assert(prefix[prefix.len() - 2] == s[i - 1]);
                    }
                }
                assert(tokens(prefix) =~= token_views(done@).push(current@));
            }
            in_token = true;
        }
        i = i + 1;
    }
    if in_token {
        let ghost before = token_views(done@);
        done.push(current);
        assert(token_views(done@) =~= before.push(current@));
    }
    assert(s.take(i as int) =~= s);
    done
}

/// Reads the tokens of a movie line, given the lowercase form of its first
/// token (see `tokens_result`).
pub fn parse_movie_tokens(tokens: &Vec<Vec<char>>, command: &Vec<char>) -> (result: Result<
    MovieCommand,
    MovieLineError,
>)
    ensures
        tokens_result(token_views(tokens@), command@, result),
{
    let ghost t = token_views(tokens@);
    if tokens.len() == 0 {
        return Err(MovieLineError::MissingToken);
    }
    let is_key = command.len() == 3 && command[0] == 'k' && command[1] == 'e' && command[2] == 'y';
    let is_wait = command.len() == 4 && command[0] == 'w' && command[1] == 'a' && command[2] == 'i'
        && command[3] == 't';
    assert(is_key <==> command@ == seq!['k', 'e', 'y']) by {
        if is_key {
            assert(command@ =~= seq!['k', 'e', 'y']);
        }
    }
    assert(is_wait <==> command@ == seq!['w', 'a', 'i', 't']) by {
        if is_wait {
            assert(command@ =~= seq!['w', 'a', 'i', 't']);
        }
    }
    if is_key {
        if tokens.len() < 2 {
            return Err(MovieLineError::MissingToken);
        }
        assert(tokens@[1]@ == t[1]);
        let id = match parse_byte(&tokens[1]) {
            Some(id) => id,
            None => {
                return Err(MovieLineError::InvalidNumber);
            },
        };
        if tokens.len() < 3 {
            return Err(MovieLineError::MissingToken);
        }
        assert(tokens@[2]@ == t[2]);
        let state = match parse_byte(&tokens[2]) {
            Some(state) => state,
            None => {
                return Err(MovieLineError::InvalidNumber);
            },
        };
        Ok(MovieCommand::Key { id, state: state != 0 })
    } else if is_wait {
        if tokens.len() < 2 {
            return Err(MovieLineError::MissingToken);
        }
        assert(tokens@[1]@ == t[1]);
        let seconds = tokens[1].clone();
        Ok(MovieCommand::Wait { seconds })
    } else {
        Err(MovieLineError::UnknownCommand)
    }
}

/// Reads one line of a movie file (see `line_result`).
pub fn parse_movie_line(line: &str) -> (result: Result<MovieCommand, MovieLineError>)
    ensures
        line_result(line@, result),
{
    let words = split_tokens(line);
    if words.len() == 0 {
        return Err(MovieLineError::MissingToken);
    }
    let command = lowercase_chars(&words[0]);
    assert(words@[0]@ == tokens(line@)[0]);
    parse_movie_tokens(&words, &command)
}

} // verus!
