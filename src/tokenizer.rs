use vstd::prelude::*;

pub mod rules;
pub mod and_token_generator;
pub mod char_token_generator;
pub mod equals_token_generator;
pub mod function_id_token_generator;
pub mod greater_than_token_generator;
pub mod less_than_token_generator;
pub mod namespace_id_token_generator;
pub mod newline_token_generator;
pub mod not_token_generator;
pub mod number_token_generator;
pub mod or_token_generator;
pub mod plus_token_generator;
pub mod simple_token_generator;
pub mod string_token_generator;
pub mod token_generator;
pub mod type_id_token_generator;
pub mod whitespace_token_generator;
pub mod word_token_generator;

use crate::spiral_error::{DiagView, ErrorKind, SpiralError};
use token_generator::TokenGenerator;
use rules::{
    fault_at, in_class, lexeme_at, line_of, line_text, run_end, token_at, CharClass, Lexeme,
};

verus! {

/// The category of a token.
#[derive(Debug, Clone, Copy, PartialEq, Eq, Structural)]
pub enum TokenType {
    KeywordNamespace,
    KeywordExposing,
    KeywordImport,
    KeywordLet,
    KeywordIn,
    KeywordIf,
    KeywordElse,
    KeywordMatch,
    KeywordWhen,
    KeywordTrue,
    KeywordFalse,
    NamespaceId,
    FunctionId,
    TypeId,
    FieldId,
    VariableId,
    Integer,
    Float,
    Char,
    String,
    LeftSquareBracket,
    RightSquareBracket,
    LeftBracket,
    RightBracket,
    LeftCurlyBracket,
    RightCurlyBracket,
    Underscore,
    Comma,
    Colon,
    Or,
    And,
    LessThan,
    GreaterThan,
    LessThanEquals,
    GreaterThanEquals,
    Not,
    Equals,
    NotEquals,
    DoubleEquals,
    DoublePlus,
    Flow,
    Plus,
    Dash,
    ForwardSlash,
    Star,
    Caret,
    Period,
    Whitespace,
    Newline,
    LeftArrow,
}

/// The mathematical content of a token.
pub struct TokenView {
    pub value: Seq<char>,
    pub token_type: TokenType,
    pub begin: int,
    pub end: int,
    pub line_number: int,
    pub line: Seq<char>,
}

/// A classified piece of the input. `begin` and `end` are the character
/// indices of its first and last character; `line` is the whole source line
/// that holds its first character, and `line_number` that line's number.
#[derive(Debug)]
pub struct Token {
    pub value: String,
    pub token_type: TokenType,
    pub begin: usize,
    pub end: usize,
    pub line_number: usize,
    pub line: String,
}

impl View for Token {
    type V = TokenView;

    open spec fn view(&self) -> TokenView {
        TokenView {
            value: self.value@,
            token_type: self.token_type,
            begin: self.begin as int,
            end: self.end as int,
            line_number: self.line_number as int,
            line: self.line@,
        }
    }
}

impl Clone for Token {
    fn clone(&self) -> (r: Self)
        ensures
            r == *self,
    {
        Token {
            value: self.value.clone(),
            token_type: self.token_type,
            begin: self.begin,
            end: self.end,
            line_number: self.line_number,
            line: self.line.clone(),
        }
    }
}

/// Walks the input one character at a time, handing each position to the
/// rule that owns its character.
pub struct Tokenizer<'a> {
    pub input: &'a str,
    pub current_index: usize,
    pub line_number: usize,
}

/// After a rule ran at the cursor of `pre`: on a token, the cursor rests on
/// the token's last character and the line counter counts every line break
/// up to and including it; on a failure, the diagnostic the rules give.
pub open spec fn generated<'a>(
    pre: Tokenizer<'a>,
    post: Tokenizer<'a>,
    r: Result<Token, SpiralError>,
) -> bool {
    let s = pre.input@;
    let i = pre.current_index as int;
    &&& post.input == pre.input
    &&& match lexeme_at(s, i) {
        Lexeme::Emit(t, e) => {
            &&& r matches Ok(tok)
            &&& tok@ == token_at(s, t, i, e)
            &&& post.current_index == e
            &&& post.line_number == line_of(s, e + 1)
        },
        Lexeme::Fault(k, b, e) => r matches Err(err) && err@ == fault_at(s, k, b, e, i),
    }
}

pub(crate) fn upper(c: char) -> (r: bool)
    ensures
        r == rules::is_upper(c),
{
    c >= 'A' && c <= 'Z'
}

pub(crate) fn lower(c: char) -> (r: bool)
    ensures
        r == rules::is_lower(c),
{
    c >= 'a' && c <= 'z'
}

pub(crate) fn digit(c: char) -> (r: bool)
    ensures
        r == rules::is_digit(c),
{
    c >= '0' && c <= '9'
}

pub(crate) fn line_break(c: char) -> (r: bool)
    ensures
        r == rules::is_line_break(c),
{
    c == '\n' || c == '\r'
}

/// Whether `a` and `b` hold the same text.
pub(crate) fn text_is(a: &str, b: &str) -> (r: bool)
    ensures
        r == (a@ == b@),
{
    let n = a.unicode_len();
    if n != b.unicode_len() {
        return false;
    }
    let mut k: usize = 0;
    while k < n
        invariant
            n == a@.len(),
            n == b@.len(),
            k <= n,
            a@.subrange(0, k as int) == b@.subrange(0, k as int),
        decreases n - k,
    {
        if a.get_char(k) != b.get_char(k) {
            assert(a@[k as int] != b@[k as int]);
            return false;
        }
        assert(a@.subrange(0, k + 1) == a@.subrange(0, k as int).push(a@[k as int]));
        assert(b@.subrange(0, k + 1) == b@.subrange(0, k as int).push(b@[k as int]));
        k = k + 1;
    }
    assert(a@ == a@.subrange(0, n as int));
    assert(b@ == b@.subrange(0, n as int));
    true
}

fn belongs(c: char, k: CharClass) -> (r: bool)
    ensures
        r == in_class(c, k),
{
    match k {
        CharClass::Letter => upper(c) || lower(c),
        CharClass::Digit => digit(c),
        CharClass::Space => c == ' ',
        CharClass::LineBreak => line_break(c),
        CharClass::LineBody => !line_break(c),
    }
}

impl<'a> Tokenizer<'a> {
    /// The cursor is inside the input (or just past it), the line counter
    /// names the line under the cursor, and the input's length fits.
    pub open spec fn wf(&self) -> bool {
        &&& self.input@.len() < usize::MAX
        &&& self.current_index <= self.input@.len()
        &&& self.line_number == line_of(self.input@, self.current_index as int)
    }

    /// Ready to run a rule on `c`, the character under the cursor.
    pub open spec fn at_char(&self, c: char) -> bool {
        &&& self.wf()
        &&& (self.current_index as int) < self.input@.len()
        &&& self.input@[self.current_index as int] == c
    }

    pub fn build(input: &'a str) -> (r: Tokenizer<'a>)
        requires
            input@.len() < usize::MAX,
        ensures
            r.wf(),
            r.input == input,
            r.current_index == 0,
    {
        Tokenizer { input, current_index: 0, line_number: 1 }
    }

    /// The character at index `i`, if the input has one there.
    pub(crate) fn char_at(&self, i: usize) -> (r: Option<char>)
        ensures
            (i as int) < self.input@.len() ==> r == Some(self.input@[i as int]),
            (i as int) >= self.input@.len() ==> r is None,
    {
        if i < self.input.unicode_len() {
            Some(self.input.get_char(i))
        } else {
            None
        }
    }

    pub fn current_char(&self) -> (r: Option<char>)
        requires
            self.wf(),
        ensures
            (self.current_index as int) < self.input@.len() ==> r == Some(
                self.input@[self.current_index as int],
            ),
            (self.current_index as int) >= self.input@.len() ==> r is None,
    {
        self.char_at(self.current_index)
    }

    /// The character after the cursor, if any.
    pub(crate) fn next_char(&self) -> (r: Option<char>)
        requires
            self.wf(),
        ensures
            r == (if self.current_index + 1 < self.input@.len() {
                Some(self.input@[self.current_index + 1])
            } else {
                None
            }),
    {
        self.char_at(self.current_index + 1)
    }

    /// The index just past the run of class `k` that starts at `i`.
    pub(crate) fn run_end(&self, i: usize, k: CharClass) -> (r: usize)
        requires
            i <= self.input@.len(),
        ensures
            r == run_end(self.input@, i as int, k),
    {
        let n = self.input.unicode_len();
        let mut j = i;
        while j < n && belongs(self.input.get_char(j), k)
            invariant
                n == self.input@.len(),
                i <= j <= n,
                run_end(self.input@, j as int, k) == run_end(self.input@, i as int, k),
            decreases n - j,
        {
            j = j + 1;
        }
        j
    }

    /// The text of line `line_number` of the input.
    pub fn current_line(&self) -> (r: String)
        requires
            self.wf(),
        ensures
            r@ == line_text(self.input@, self.line_number as int),
    {
        let n = self.input.unicode_len();
        let mut start: usize = 0;
        let mut k: usize = 1;
        while k < self.line_number
            invariant
                self.wf(),
                1 <= k,
                k <= self.line_number || k == 1,
                n == self.input@.len(),
                start <= n,
                start == rules::line_start(self.input@, k as int),
            decreases self.line_number - k,
        {
            let e = self.run_end(start, CharClass::LineBody);
            proof {
                rules::lemma_run_end(self.input@, start as int, CharClass::LineBody);
            }
            start = if e < n {
                e + 1
            } else {
                n
            };
            k = k + 1;
        }
        let e = self.run_end(start, CharClass::LineBody);
        proof {
            rules::lemma_run_end(self.input@, start as int, CharClass::LineBody);
        }
        String::from_str(self.input.substring_char(start, e))
    }

    /// The token of category `t` made of the characters `begin..=end`,
    /// located on the line under the cursor.
    pub(crate) fn make_token(&self, t: TokenType, begin: usize, end: usize) -> (r: Token)
        requires
            self.wf(),
            begin <= end < self.input@.len(),
            self.line_number == line_of(self.input@, begin as int),
        ensures
            r@ == token_at(self.input@, t, begin as int, end as int),
    {
        let value = String::from_str(self.input.substring_char(begin, end + 1));
        Token {
            value,
            token_type: t,
            begin,
            end,
            line_number: self.line_number,
            line: self.current_line(),
        }
    }

    /// The diagnostic of kind `kind` underlining `begin..=end`, reported on
    /// the line under the cursor.
    pub(crate) fn make_error(&self, kind: ErrorKind, begin: usize, end: usize) -> (r: SpiralError)
        requires
            self.wf(),
        ensures
            r@ == fault_at(
                self.input@,
                kind,
                begin as int,
                end as int,
                self.current_index as int,
            ),
    {
        SpiralError {
            kind,
            line_text: self.current_line(),
            line_number: self.line_number,
            begin,
            end,
        }
    }

    /// Whether the character after the cursor is `c`.
    pub(crate) fn next_is(&self, c: char) -> (r: bool)
        requires
            self.wf(),
        ensures
            r == rules::next_is(self.input@, self.current_index as int, c),
    {
        match self.next_char() {
            Some(d) => d == c,
            None => false,
        }
    }

    /// Emits the token `current_index..=end` and rests the cursor on its last
    /// character; nothing in it may be a line break.
    pub(crate) fn emit_flat(&mut self, t: TokenType, end: usize) -> (r: Token)
        requires
            old(self).wf(),
            old(self).current_index <= end < old(self).input@.len(),
            forall|k: int|
                old(self).current_index <= k <= end ==> !rules::is_line_break(
                    #[trigger] old(self).input@[k],
                ),
        ensures
            r@ == token_at(old(self).input@, t, old(self).current_index as int, end as int),
            final(self).input == old(self).input,
            final(self).current_index == end,
            final(self).line_number == line_of(old(self).input@, end + 1),
    {
        let tok = self.make_token(t, self.current_index, end);
        proof {
            rules::lemma_line_flat(self.input@, self.current_index as int, end + 1);
        }
        self.current_index = end;
        tok
    }

    /// The category of the letters `begin..end`: a keyword or a variable name.
    pub(crate) fn keyword_category(&self, begin: usize, end: usize) -> (r: TokenType)
        requires
            begin <= end <= self.input@.len(),
        ensures
            r == rules::keyword_category(self.input@.subrange(begin as int, end as int)),
    {
        let w = self.input.substring_char(begin, end);
        if text_is(w, "namespace") {
            TokenType::KeywordNamespace
        } else if text_is(w, "exposing") {
            TokenType::KeywordExposing
        } else if text_is(w, "import") {
            TokenType::KeywordImport
        } else if text_is(w, "let") {
            TokenType::KeywordLet
        } else if text_is(w, "in") {
            TokenType::KeywordIn
        } else if text_is(w, "if") {
            TokenType::KeywordIf
        } else if text_is(w, "else") {
            TokenType::KeywordElse
        } else if text_is(w, "match") {
            TokenType::KeywordMatch
        } else if text_is(w, "when") {
            TokenType::KeywordWhen
        } else if text_is(w, "true") {
            TokenType::KeywordTrue
        } else if text_is(w, "false") {
            TokenType::KeywordFalse
        } else {
            TokenType::VariableId
        }
    }

    /// `#` or `@` under the cursor: a capital letter must follow, then the
    /// run of letters makes the name.
    pub(crate) fn scan_sigil(&mut self, t: TokenType) -> (r: Result<Token, SpiralError>)
        requires
            old(self).wf(),
            (old(self).current_index as int) < old(self).input@.len(),
            old(self).input@[old(self).current_index as int] == '#' ==> t == TokenType::TypeId,
            old(self).input@[old(self).current_index as int] == '@' ==> t
                == TokenType::NamespaceId,
            old(self).input@[old(self).current_index as int] == '#' || old(self).input@[old(
                self,
            ).current_index as int] == '@',
        ensures
            generated(*old(self), *final(self), r),
    {
        let i = self.current_index;
        match self.next_char() {
            None => Err(self.make_error(ErrorKind::MustStartCapital, i, i)),
            Some(c) => {
                if !upper(c) {
                    Err(self.make_error(ErrorKind::MustStartCapital, i, i + 1))
                } else {
                    let e = self.run_end(i + 1, CharClass::Letter);
                    proof {
                        rules::lemma_run_end(self.input@, i + 1, CharClass::Letter);
                    }
                    Ok(self.emit_flat(t, e - 1))
                }
            },
        }
    }

    /// A quote under the cursor: the literal runs to the next quote of the
    /// same kind that does not follow a backslash.
    pub(crate) fn scan_literal(&mut self, t: TokenType) -> (r: Result<Token, SpiralError>)
        requires
            old(self).wf(),
            (old(self).current_index as int) < old(self).input@.len(),
            old(self).input@[old(self).current_index as int] == '\'' ==> t == TokenType::Char,
            old(self).input@[old(self).current_index as int] == '"' ==> t == TokenType::String,
            old(self).input@[old(self).current_index as int] == '\'' || old(
                self,
            ).input@[old(self).current_index as int] == '"',
        ensures
            generated(*old(self), *final(self), r),
    {
        let ghost s = self.input@;
        let n = self.input.unicode_len();
        let i = self.current_index;
        let q = self.input.get_char(i);
        let mut j = i + 1;
        let mut line = self.line_number;
        while j < n && !(self.input.get_char(j) == q && self.input.get_char(j - 1) != '\\')
            invariant
                s == self.input@,
                n == s.len(),
                n < usize::MAX,
                i < n,
                q == s[i as int],
                i + 1 <= j <= n,
                rules::literal_close(s, j as int, q) == rules::literal_close(s, i + 1, q),
                line == line_of(s, j as int),
            decreases n - j,
        {
            proof {
                rules::lemma_line_bound(s, j + 1);
            }
            if line_break(self.input.get_char(j)) {
                line = line + 1;
            }
            j = j + 1;
        }
        if j >= n {
            Err(self.make_error(ErrorKind::UnterminatedLiteral, i, n - 1))
        } else {
            let tok = self.make_token(t, i, j);
            self.current_index = j;
            self.line_number = line;
            Ok(tok)
        }
    }

    /// The rules in priority order. Every character that some rule owns is
    /// accepted by one of them.
    pub fn token_generators(&self) -> (r: Vec<TokenGenerator>)
        ensures
            forall|k: int| 0 <= k < r@.len() ==> (#[trigger] r@[k]).wf(),
            forall|c: char|
                rules::has_rule(c) ==> exists|k: int|
                    0 <= k < r@.len() && (#[trigger] r@[k]).accepts(c),
    {
        let r = vec![
            TokenGenerator::TypeId(type_id_token_generator::TypeIdTokenGenerator {}),
            TokenGenerator::NamespaceId(namespace_id_token_generator::NamespaceIdTokenGenerator {}),
            TokenGenerator::Char(char_token_generator::CharTokenGenerator {}),
            TokenGenerator::String(string_token_generator::StringTokenGenerator {}),
            TokenGenerator::Simple(
                simple_token_generator::SimpleTokenGenerator {
                    char_to_match: '[',
                    token_type: TokenType::LeftSquareBracket,
                },
            ),
            TokenGenerator::Simple(
                simple_token_generator::SimpleTokenGenerator {
                    char_to_match: ']',
                    token_type: TokenType::RightSquareBracket,
                },
            ),
            TokenGenerator::Simple(
                simple_token_generator::SimpleTokenGenerator {
                    char_to_match: '(',
                    token_type: TokenType::LeftBracket,
                },
            ),
            TokenGenerator::Simple(
                simple_token_generator::SimpleTokenGenerator {
                    char_to_match: ')',
                    token_type: TokenType::RightBracket,
                },
            ),
            TokenGenerator::Simple(
                simple_token_generator::SimpleTokenGenerator {
                    char_to_match: '{',
                    token_type: TokenType::LeftCurlyBracket,
                },
            ),
            TokenGenerator::Simple(
                simple_token_generator::SimpleTokenGenerator {
                    char_to_match: '}',
                    token_type: TokenType::RightCurlyBracket,
                },
            ),
            TokenGenerator::LessThan(less_than_token_generator::LessThanTokenGenerator {}),
            TokenGenerator::GreaterThan(greater_than_token_generator::GreaterThanTokenGenerator {}),
            TokenGenerator::Simple(
                simple_token_generator::SimpleTokenGenerator {
                    char_to_match: '_',
                    token_type: TokenType::Underscore,
                },
            ),
            TokenGenerator::Simple(
                simple_token_generator::SimpleTokenGenerator {
                    char_to_match: ',',
                    token_type: TokenType::Comma,
                },
            ),
            TokenGenerator::Simple(
                simple_token_generator::SimpleTokenGenerator {
                    char_to_match: ':',
                    token_type: TokenType::Colon,
                },
            ),
            TokenGenerator::Or(or_token_generator::OrTokenGenerator {}),
            TokenGenerator::And(and_token_generator::AndTokenGenerator {}),
            TokenGenerator::Equals(equals_token_generator::EqualsTokenGenerator {}),
            TokenGenerator::Not(not_token_generator::NotTokenGenerator {}),
            TokenGenerator::Plus(plus_token_generator::PlusTokenGenerator {}),
            TokenGenerator::Simple(
                simple_token_generator::SimpleTokenGenerator {
                    char_to_match: '-',
                    token_type: TokenType::Dash,
                },
            ),
            TokenGenerator::Simple(
                simple_token_generator::SimpleTokenGenerator {
                    char_to_match: '/',
                    token_type: TokenType::ForwardSlash,
                },
            ),
            TokenGenerator::Simple(
                simple_token_generator::SimpleTokenGenerator {
                    char_to_match: '*',
                    token_type: TokenType::Star,
                },
            ),
            TokenGenerator::Simple(
                simple_token_generator::SimpleTokenGenerator {
                    char_to_match: '^',
                    token_type: TokenType::Caret,
                },
            ),
            TokenGenerator::Simple(
                simple_token_generator::SimpleTokenGenerator {
                    char_to_match: '.',
                    token_type: TokenType::Period,
                },
            ),
            TokenGenerator::Whitespace(whitespace_token_generator::WhitespaceTokenGenerator {}),
            TokenGenerator::Newline(newline_token_generator::NewlineTokenGenerator {}),
            TokenGenerator::FunctionId(function_id_token_generator::FunctionIdTokenGenerator {}),
            TokenGenerator::Word(word_token_generator::WordTokenGenerator {}),
            TokenGenerator::Number(number_token_generator::NumberTokenGenerator {}),
        ];
        assert forall|c: char| rules::has_rule(c) implies exists|k: int|
            0 <= k < r@.len() && (#[trigger] r@[k]).accepts(c) by {
            if c == '#' {
                assert(r@[0].accepts(c));
            } else if c == '@' {
                assert(r@[1].accepts(c));
            } else if c == '\'' {
                assert(r@[2].accepts(c));
            } else if c == '"' {
                assert(r@[3].accepts(c));
            } else if c == '[' {
                assert(r@[4].accepts(c));
            } else if c == ']' {
                assert(r@[5].accepts(c));
            } else if c == '(' {
                assert(r@[6].accepts(c));
            } else if c == ')' {
                assert(r@[7].accepts(c));
            } else if c == '{' {
                assert(r@[8].accepts(c));
            } else if c == '}' {
                assert(r@[9].accepts(c));
            } else if c == '<' {
                assert(r@[10].accepts(c));
            } else if c == '>' {
                assert(r@[11].accepts(c));
            } else if c == '_' {
                assert(r@[12].accepts(c));
            } else if c == ',' {
                assert(r@[13].accepts(c));
            } else if c == ':' {
                assert(r@[14].accepts(c));
            } else if c == '|' {
                assert(r@[15].accepts(c));
            } else if c == '&' {
                assert(r@[16].accepts(c));
            } else if c == '=' {
                assert(r@[17].accepts(c));
            } else if c == '!' {
                assert(r@[18].accepts(c));
            } else if c == '+' {
                assert(r@[19].accepts(c));
            } else if c == '-' {
                assert(r@[20].accepts(c));
            } else if c == '/' {
                assert(r@[21].accepts(c));
            } else if c == '*' {
                assert(r@[22].accepts(c));
            } else if c == '^' {
                assert(r@[23].accepts(c));
            } else if c == '.' {
                assert(r@[24].accepts(c));
            } else if c == ' ' {
                assert(r@[25].accepts(c));
            } else if rules::is_line_break(c) {
                assert(r@[26].accepts(c));
            } else if rules::is_upper(c) {
                assert(r@[27].accepts(c));
            } else if rules::is_lower(c) {
                assert(r@[28].accepts(c));
            } else {
                assert(r@[29].accepts(c));
            }
        }
        r
    }

    /// Tokenizes the input from the cursor to its end, stopping at the first
    /// failure.
    pub fn execute(&mut self) -> (r: Result<Vec<Token>, SpiralError>)
        requires
            old(self).wf(),
        ensures
            final(self).input == old(self).input,
            scan_view(r) == rules::scan_from(old(self).input@, old(self).current_index as int),
    {
        let ghost s = self.input@;
        let ghost input = self.input;
        let ghost start = self.current_index as int;
        let n = self.input.unicode_len();
        let generators = self.token_generators();
        let mut tokens: Vec<Token> = Vec::new();
        while self.current_index < n
            invariant
                self.wf(),
                input == old(self).input,
                start == old(self).current_index,
                self.input == input,
                self.input@ == s,
                n == s.len(),
                forall|k: int| 0 <= k < generators@.len() ==> (#[trigger] generators@[k]).wf(),
                forall|c: char|
                    rules::has_rule(c) ==> exists|k: int|
                        0 <= k < generators@.len() && (#[trigger] generators@[k]).accepts(c),
                rules::scan_from(s, start) == prepend(
                    tokens_view(tokens@),
                    rules::scan_from(s, self.current_index as int),
                ),
            decreases n - self.current_index,
        {
            let i = self.current_index;
            let c = self.input.get_char(i);
            match find_generator(&generators, c) {
                Some(g) => {
                    match generators[g].generate(c, self) {
                        Ok(tok) => {
                            let ghost before = tokens@;
                            proof {
                                rules::lemma_lexeme_bounds(s, i as int);
                            }
                            tokens.push(tok);
                            assert(tokens_view(tokens@) =~= tokens_view(before).push(tok@));
                            proof {
                                match rules::scan_from(s, self.current_index + 1) {
                                    Ok(rest) => {
                                        assert(tokens_view(before).push(tok@) + rest
                                            =~= tokens_view(before) + (seq![tok@] + rest));
                                    },
                                    Err(_) => {},
                                }
                            }
                            self.current_index = self.current_index + 1;
                        },
                        Err(e) => {
                            return Err(e);
                        },
                    }
                },
                None => {
                    assert(!rules::has_rule(c));
                    assert(lexeme_at(s, i as int) == Lexeme::Fault(
                        ErrorKind::UnrecognizedCharacter,
                        i as int,
                        i as int,
                    ));
                    return Err(self.make_error(ErrorKind::UnrecognizedCharacter, i, i));
                },
            }
        }
        assert(tokens_view(tokens@) + Seq::empty() =~= tokens_view(tokens@));
        Ok(tokens)
    }
}

/// The first rule that accepts `c`, if any does.
fn find_generator(generators: &Vec<TokenGenerator>, c: char) -> (r: Option<usize>)
    ensures
        r matches Some(g) ==> g < generators@.len() && generators@[g as int].accepts(c),
        r is None ==> forall|k: int|
            0 <= k < generators@.len() ==> !(#[trigger] generators@[k]).accepts(c),
{
    let mut g: usize = 0;
    while g < generators.len()
        invariant
            g <= generators@.len(),
            forall|k: int| 0 <= k < g ==> !(#[trigger] generators@[k]).accepts(c),
        decreases generators@.len() - g,
    {
        if generators[g].matches(c) {
            return Some(g);
        }
        g = g + 1;
    }
    None
}

pub open spec fn tokens_view(ts: Seq<Token>) -> Seq<TokenView> {
    ts.map_values(|t: Token| t@)
}

/// What a tokenizing result says, over views.
pub open spec fn scan_view(r: Result<Vec<Token>, SpiralError>) -> Result<Seq<TokenView>, DiagView> {
    match r {
        Ok(v) => Ok(tokens_view(v@)),
        Err(e) => Err(e@),
    }
}

/// `ts` followed by what `r` gives, or the failure of `r`.
pub open spec fn prepend(
    ts: Seq<TokenView>,
    r: Result<Seq<TokenView>, DiagView>,
) -> Result<Seq<TokenView>, DiagView> {
    match r {
        Ok(rest) => Ok(ts + rest),
        Err(d) => Err(d),
    }
}

} // verus!
