//! The lexical rules, stated over the input as a sequence of characters.
//!
//! `lexeme_at(s, i)` says what the rule that owns `s[i]` does there: which
//! token it emits and the index of the last character of that token, or
//! which failure it reports. `scan_from` chains those decisions into the
//! whole token sequence, each token carrying the line it starts on.
use vstd::prelude::*;

use super::{TokenType, TokenView};
use crate::spiral_error::{DiagView, ErrorKind};

verus! {

pub open spec fn is_upper(c: char) -> bool {
    'A' <= c && c <= 'Z'
}

pub open spec fn is_lower(c: char) -> bool {
    'a' <= c && c <= 'z'
}

pub open spec fn is_letter(c: char) -> bool {
    is_upper(c) || is_lower(c)
}

pub open spec fn is_digit(c: char) -> bool {
    '0' <= c && c <= '9'
}

pub open spec fn is_line_break(c: char) -> bool {
    c == '\n' || c == '\r'
}

/// The classes of characters that a rule consumes greedily.
#[derive(Clone, Copy, PartialEq, Eq, Structural)]
pub enum CharClass {
    Letter,
    Digit,
    Space,
    LineBreak,
    /// Anything but a line break: the body of a source line.
    LineBody,
}

pub open spec fn in_class(c: char, k: CharClass) -> bool {
    match k {
        CharClass::Letter => is_letter(c),
        CharClass::Digit => is_digit(c),
        CharClass::Space => c == ' ',
        CharClass::LineBreak => is_line_break(c),
        CharClass::LineBody => !is_line_break(c),
    }
}

/// The index just past the longest run of class `k` starting at `i`.
pub open spec fn run_end(s: Seq<char>, i: int, k: CharClass) -> int
    decreases s.len() - i,
{
    if 0 <= i < s.len() && in_class(s[i], k) {
        run_end(s, i + 1, k)
    } else {
        i
    }
}

/// The index of the first `q` at or after `j` that does not follow a
/// backslash, or the length of `s` when there is none.
pub open spec fn literal_close(s: Seq<char>, j: int, q: char) -> int
    decreases s.len() - j,
{
    if j >= s.len() {
        s.len() as int
    } else if s[j] == q && s[j - 1] != '\\' {
        j
    } else {
        literal_close(s, j + 1, q)
    }
}

/// 1-based number of the line that holds index `i`: one more than the
/// line breaks before it. Every `\n` and every `\r` ends a line.
pub open spec fn line_of(s: Seq<char>, i: int) -> int
    decreases i,
{
    if i <= 0 {
        1
    } else if is_line_break(s[i - 1]) {
        line_of(s, i - 1) + 1
    } else {
        line_of(s, i - 1)
    }
}

/// Index of the first character of line `n` (the length of `s` past the last line).
pub open spec fn line_start(s: Seq<char>, n: int) -> int
    decreases n,
{
    if n <= 1 {
        0
    } else {
        let e = run_end(s, line_start(s, n - 1), CharClass::LineBody);
        if e < s.len() {
            e + 1
        } else {
            s.len() as int
        }
    }
}

/// The text of line `n`, without its line break.
pub open spec fn line_text(s: Seq<char>, n: int) -> Seq<char> {
    s.subrange(line_start(s, n), run_end(s, line_start(s, n), CharClass::LineBody))
}

/// The category of a character that is a token by itself, if it is one.
pub open spec fn simple_category(c: char) -> Option<TokenType> {
    if c == '[' {
        Some(TokenType::LeftSquareBracket)
    } else if c == ']' {
        Some(TokenType::RightSquareBracket)
    } else if c == '(' {
        Some(TokenType::LeftBracket)
    } else if c == ')' {
        Some(TokenType::RightBracket)
    } else if c == '{' {
        Some(TokenType::LeftCurlyBracket)
    } else if c == '}' {
        Some(TokenType::RightCurlyBracket)
    } else if c == '_' {
        Some(TokenType::Underscore)
    } else if c == ',' {
        Some(TokenType::Comma)
    } else if c == ':' {
        Some(TokenType::Colon)
    } else if c == '-' {
        Some(TokenType::Dash)
    } else if c == '/' {
        Some(TokenType::ForwardSlash)
    } else if c == '*' {
        Some(TokenType::Star)
    } else if c == '^' {
        Some(TokenType::Caret)
    } else if c == '.' {
        Some(TokenType::Period)
    } else {
        None
    }
}

/// The category of a run of letters that starts with a lowercase letter and
/// is not followed by a colon: a keyword, or else a variable name.
pub open spec fn keyword_category(w: Seq<char>) -> TokenType {
    if w == "namespace"@ {
        TokenType::KeywordNamespace
    } else if w == "exposing"@ {
        TokenType::KeywordExposing
    } else if w == "import"@ {
        TokenType::KeywordImport
    } else if w == "let"@ {
        TokenType::KeywordLet
    } else if w == "in"@ {
        TokenType::KeywordIn
    } else if w == "if"@ {
        TokenType::KeywordIf
    } else if w == "else"@ {
        TokenType::KeywordElse
    } else if w == "match"@ {
        TokenType::KeywordMatch
    } else if w == "when"@ {
        TokenType::KeywordWhen
    } else if w == "true"@ {
        TokenType::KeywordTrue
    } else if w == "false"@ {
        TokenType::KeywordFalse
    } else {
        TokenType::VariableId
    }
}

/// Whether some rule owns the character `c`; any other character is a failure.
pub open spec fn has_rule(c: char) -> bool {
    ||| c == '#' || c == '@' || c == '\'' || c == '"'
    ||| simple_category(c) is Some
    ||| c == '<' || c == '>' || c == '|' || c == '&' || c == '=' || c == '!' || c == '+'
    ||| c == ' ' || is_line_break(c)
    ||| is_upper(c) || is_lower(c) || is_digit(c)
}

/// What the rule owning a character decides at that character.
pub enum Lexeme {
    /// A token of this category whose last character is at this index.
    Emit(TokenType, int),
    /// A failure of this kind, underlining this span.
    Fault(ErrorKind, int, int),
}

pub open spec fn next_is(s: Seq<char>, i: int, c: char) -> bool {
    i + 1 < s.len() && s[i + 1] == c
}

/// `#` or `@`, a capital letter, then letters.
pub open spec fn sigil_rule(s: Seq<char>, i: int, t: TokenType) -> Lexeme {
    if i + 1 >= s.len() {
        Lexeme::Fault(ErrorKind::MustStartCapital, i, i)
    } else if !is_upper(s[i + 1]) {
        Lexeme::Fault(ErrorKind::MustStartCapital, i, i + 1)
    } else {
        Lexeme::Emit(t, run_end(s, i + 1, CharClass::Letter) - 1)
    }
}

/// A quote, then everything up to the next quote not preceded by a backslash.
pub open spec fn literal_rule(s: Seq<char>, i: int, t: TokenType) -> Lexeme {
    let close = literal_close(s, i + 1, s[i]);
    if close >= s.len() {
        Lexeme::Fault(ErrorKind::UnterminatedLiteral, i, s.len() - 1)
    } else {
        Lexeme::Emit(t, close)
    }
}

/// A lowercase letter, then letters: a field name when a colon follows
/// (the colon belongs to it), else a keyword or a variable name.
pub open spec fn word_rule(s: Seq<char>, i: int) -> Lexeme {
    let e = run_end(s, i, CharClass::Letter);
    if e < s.len() && s[e] == ':' {
        Lexeme::Emit(TokenType::FieldId, e)
    } else {
        Lexeme::Emit(keyword_category(s.subrange(i, e)), e - 1)
    }
}

/// Digits with at most one period among them.
pub open spec fn number_rule(s: Seq<char>, i: int) -> Lexeme {
    let a = run_end(s, i, CharClass::Digit);
    if a < s.len() && s[a] == '.' {
        let b = run_end(s, a + 1, CharClass::Digit);
        if b < s.len() && s[b] == '.' {
            Lexeme::Fault(ErrorKind::MultiplePeriods, i, i)
        } else {
            Lexeme::Emit(TokenType::Float, b - 1)
        }
    } else {
        Lexeme::Emit(TokenType::Integer, a - 1)
    }
}

/// The decision of the rule that owns `s[i]`; the rules in priority order.
pub open spec fn lexeme_at(s: Seq<char>, i: int) -> Lexeme {
    let c = s[i];
    if c == '#' {
        sigil_rule(s, i, TokenType::TypeId)
    } else if c == '@' {
        sigil_rule(s, i, TokenType::NamespaceId)
    } else if c == '\'' {
        literal_rule(s, i, TokenType::Char)
    } else if c == '"' {
        literal_rule(s, i, TokenType::String)
    } else if simple_category(c) is Some {
        Lexeme::Emit(simple_category(c)->0, i)
    } else if c == '<' {
        if next_is(s, i, '=') {
            Lexeme::Emit(TokenType::LessThanEquals, i + 1)
        } else if next_is(s, i, '-') {
            Lexeme::Emit(TokenType::LeftArrow, i + 1)
        } else {
            Lexeme::Emit(TokenType::LessThan, i)
        }
    } else if c == '>' {
        if next_is(s, i, '=') {
            Lexeme::Emit(TokenType::GreaterThanEquals, i + 1)
        } else {
            Lexeme::Emit(TokenType::GreaterThan, i)
        }
    } else if c == '|' {
        if next_is(s, i, '|') {
            Lexeme::Emit(TokenType::Or, i + 1)
        } else if next_is(s, i, '>') {
            Lexeme::Emit(TokenType::Flow, i + 1)
        } else {
            Lexeme::Fault(ErrorKind::UnknownOperator, i, i)
        }
    } else if c == '&' {
        if next_is(s, i, '&') {
            Lexeme::Emit(TokenType::And, i + 1)
        } else {
            Lexeme::Fault(ErrorKind::UnknownOperator, i, i)
        }
    } else if c == '=' {
        if next_is(s, i, '=') {
            Lexeme::Emit(TokenType::DoubleEquals, i + 1)
        } else {
            Lexeme::Emit(TokenType::Equals, i)
        }
    } else if c == '!' {
        if next_is(s, i, '=') {
            Lexeme::Emit(TokenType::NotEquals, i + 1)
        } else {
            Lexeme::Emit(TokenType::Not, i)
        }
    } else if c == '+' {
        if next_is(s, i, '+') {
            Lexeme::Emit(TokenType::DoublePlus, i + 1)
        } else {
            Lexeme::Emit(TokenType::Plus, i)
        }
    } else if c == ' ' {
        Lexeme::Emit(TokenType::Whitespace, run_end(s, i, CharClass::Space) - 1)
    } else if is_line_break(c) {
        Lexeme::Emit(TokenType::Newline, run_end(s, i, CharClass::LineBreak) - 1)
    } else if is_upper(c) {
        Lexeme::Emit(TokenType::FunctionId, run_end(s, i, CharClass::Letter) - 1)
    } else if is_lower(c) {
        word_rule(s, i)
    } else if is_digit(c) {
        number_rule(s, i)
    } else {
        Lexeme::Fault(ErrorKind::UnrecognizedCharacter, i, i)
    }
}

/// The token whose characters are `s[b..=e]`, of category `t`.
pub open spec fn token_at(s: Seq<char>, t: TokenType, b: int, e: int) -> TokenView {
    TokenView {
        value: s.subrange(b, e + 1),
        token_type: t,
        begin: b,
        end: e,
        line_number: line_of(s, b),
        line: line_text(s, line_of(s, b)),
    }
}

/// The diagnostic of kind `k` underlining `b..=e`, reported on the line of index `at`.
pub open spec fn fault_at(s: Seq<char>, k: ErrorKind, b: int, e: int, at: int) -> DiagView {
    DiagView {
        kind: k,
        line_text: line_text(s, line_of(s, at)),
        line_number: line_of(s, at),
        begin: b,
        end: e,
    }
}

/// Tokenizing `s` from index `i` on: the tokens in order, or the first failure.
pub open spec fn scan_from(s: Seq<char>, i: int) -> Result<Seq<TokenView>, DiagView>
    decreases s.len() - i,
{
    if i < 0 || i >= s.len() {
        Ok(Seq::empty())
    } else {
        match lexeme_at(s, i) {
            Lexeme::Fault(k, b, e) => Err(fault_at(s, k, b, e, i)),
            Lexeme::Emit(t, e) => {
                proof {
                    lemma_lexeme_bounds(s, i);
                }
                match scan_from(s, e + 1) {
                    Ok(rest) => Ok(seq![token_at(s, t, i, e)] + rest),
                    Err(d) => Err(d),
                }
            },
        }
    }
}

/// Tokenizing the whole of `s`.
pub open spec fn scan(s: Seq<char>) -> Result<Seq<TokenView>, DiagView> {
    scan_from(s, 0)
}

pub proof fn lemma_run_end(s: Seq<char>, i: int, k: CharClass)
    requires
        0 <= i <= s.len(),
    ensures
        i <= run_end(s, i, k) <= s.len(),
        forall|j: int| i <= j < run_end(s, i, k) ==> in_class(#[trigger] s[j], k),
        run_end(s, i, k) < s.len() ==> !in_class(s[run_end(s, i, k)], k),
    decreases s.len() - i,
{
    if i < s.len() && in_class(s[i], k) {
        lemma_run_end(s, i + 1, k);
    }
}

pub proof fn lemma_literal_close(s: Seq<char>, j: int, q: char)
    requires
        1 <= j <= s.len(),
    ensures
        j <= literal_close(s, j, q) <= s.len(),
        literal_close(s, j, q) < s.len() ==> s[literal_close(s, j, q)] == q,
    decreases s.len() - j,
{
    if j < s.len() && !(s[j] == q && s[j - 1] != '\\') {
        lemma_literal_close(s, j + 1, q);
    }
}

/// A token emitted at `i` ends at or after `i` and inside the input.
pub proof fn lemma_lexeme_bounds(s: Seq<char>, i: int)
    requires
        0 <= i < s.len(),
    ensures
        lexeme_at(s, i) matches Lexeme::Emit(_, e) ==> i <= e < s.len(),
{
    lemma_run_end(s, i, CharClass::Letter);
    lemma_run_end(s, i, CharClass::Digit);
    lemma_run_end(s, i, CharClass::Space);
    lemma_run_end(s, i, CharClass::LineBreak);
    if i + 1 <= s.len() {
        lemma_run_end(s, i + 1, CharClass::Letter);
        lemma_literal_close(s, i + 1, s[i]);
    }
    let a = run_end(s, i, CharClass::Digit);
    if a < s.len() {
        lemma_run_end(s, a + 1, CharClass::Digit);
    }
}

/// The line does not change across characters that are not line breaks.
pub proof fn lemma_line_flat(s: Seq<char>, i: int, j: int)
    requires
        0 <= i <= j <= s.len(),
        forall|k: int| i <= k < j ==> !is_line_break(#[trigger] s[k]),
    ensures
        line_of(s, j) == line_of(s, i),
    decreases j - i,
{
    if j > i {
        lemma_line_flat(s, i, j - 1);
    }
}

/// Each line break starts a new line.
pub proof fn lemma_line_breaks(s: Seq<char>, i: int, j: int)
    requires
        0 <= i <= j <= s.len(),
        forall|k: int| i <= k < j ==> is_line_break(#[trigger] s[k]),
    ensures
        line_of(s, j) == line_of(s, i) + (j - i),
    decreases j - i,
{
    if j > i {
        lemma_line_breaks(s, i, j - 1);
    }
}

/// There are never more lines than characters plus one.
pub proof fn lemma_line_bound(s: Seq<char>, j: int)
    requires
        0 <= j,
    ensures
        1 <= line_of(s, j) <= j + 1,
    decreases j,
{
    if j > 0 {
        lemma_line_bound(s, j - 1);
    }
}

} // verus!
