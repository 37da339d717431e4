use vstd::prelude::*;

verus! {

/// One token of an invocation, holding what the shape check reads.
#[derive(Debug, Clone, PartialEq, Eq)]
pub enum Token {
    /// An identifier or keyword.
    Ident(String),
    /// A single punctuation character.
    Punct(char),
    /// A literal, as written in the source (a string keeps its quotes).
    Literal(String),
    /// A delimited group of tokens.
    Group,
}

/// Why an invocation does not have the shape `"path" <punct> body...`.
#[derive(Debug, Clone, Copy, PartialEq, Eq, Structural)]
pub enum UsageError {
    /// Fewer than three tokens.
    TooFewTokens,
    /// The first token is not a literal.
    PathNotLiteral,
    /// The first token is a literal but not a quoted string.
    PathNotString,
    /// The second token is not punctuation.
    SeparatorNotPunct,
}

/// Index of the first token of the payload in a well-formed invocation.
pub const BODY_START: usize = 2;

/// `s` is written as a quoted string: it opens and closes with `"`.
pub open spec fn is_quoted(s: Seq<char>) -> bool {
    s.len() >= 2 && s[0] == '"' && s[s.len() - 1] == '"'
}

/// The text between the quotes of a quoted string, as written.
pub open spec fn unquoted(s: Seq<char>) -> Seq<char> {
    s.subrange(1, s.len() - 1)
}

/// Checks the shape of an invocation and returns the target path: the text
/// between the quotes of the first token. The payload is every token from
/// `BODY_START` on.
pub fn parse_invocation(tokens: &Vec<Token>) -> (r: Result<String, UsageError>)
    ensures
        tokens@.len() <= 2 ==> r == Err::<String, UsageError>(UsageError::TooFewTokens),
        tokens@.len() > 2 && !(tokens@[0] is Literal) ==> r == Err::<String, UsageError>(
            UsageError::PathNotLiteral,
        ),
        tokens@.len() > 2 && tokens@[0] is Literal && !is_quoted(tokens@[0]->Literal_0@) ==> r
            == Err::<String, UsageError>(UsageError::PathNotString),
        tokens@.len() > 2 && tokens@[0] is Literal && is_quoted(tokens@[0]->Literal_0@) && !(
        tokens@[1] is Punct) ==> r == Err::<String, UsageError>(UsageError::SeparatorNotPunct),
        r is Ok <==> (tokens@.len() > 2 && tokens@[0] is Literal && is_quoted(
            tokens@[0]->Literal_0@,
        ) && tokens@[1] is Punct),
        r matches Ok(path) ==> path@ == unquoted(tokens@[0]->Literal_0@),
{
    if tokens.len() <= 2 {
        return Err(UsageError::TooFewTokens);
    }
    let text = match &tokens[0] {
        Token::Literal(text) => text,
        _ => {
            return Err(UsageError::PathNotLiteral);
        },
    };
    let n = text.as_str().unicode_len();
    if n < 2 || text.as_str().get_char(0) != '"' || text.as_str().get_char(n - 1) != '"' {
        return Err(UsageError::PathNotString);
    }
    match &tokens[1] {
        Token::Punct(_) => {},
        _ => {
            return Err(UsageError::SeparatorNotPunct);
        },
    }
    let path = text.as_str().substring_char(1, n - 1);
    Ok(String::from_str(path))
}

} // verus!
