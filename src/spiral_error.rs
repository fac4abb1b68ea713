use colored::Colorize;
use vstd::prelude::*;

verus! {

/// The ways in which tokenizing or parsing can fail.
#[derive(Debug, Clone, Copy, PartialEq, Eq, Structural)]
pub enum ErrorKind {
    UnrecognizedCharacter,
    MustStartCapital,
    UnterminatedLiteral,
    MultiplePeriods,
    UnknownOperator,
    ExpectedFactor,
    UnknownFactor,
    UnclosedBracket,
}

/// The mathematical content of a diagnostic.
pub struct DiagView {
    pub kind: ErrorKind,
    pub line_text: Seq<char>,
    pub line_number: int,
    pub begin: int,
    pub end: int,
}

/// A located error: which rule failed, the source line it failed on and the
/// span of that line to underline.
#[derive(Debug)]
pub struct SpiralError {
    pub kind: ErrorKind,
    pub line_text: String,
    pub line_number: usize,
    pub begin: usize,
    pub end: usize,
}

impl View for SpiralError {
    type V = DiagView;

    open spec fn view(&self) -> DiagView {
        DiagView {
            kind: self.kind,
            line_text: self.line_text@,
            line_number: self.line_number as int,
            begin: self.begin as int,
            end: self.end as int,
        }
    }
}

/// The character of the decimal digit `d`.
pub open spec fn digit_char(d: nat) -> char {
    (48 + d) as char
}

/// `n` written in decimal.
pub open spec fn decimal_digits(n: nat) -> Seq<char>
    decreases n,
{
    if n < 10 {
        seq![digit_char(n)]
    } else {
        decimal_digits(n / 10).push(digit_char(n % 10))
    }
}

/// A positive number has no more digits than its value.
proof fn lemma_decimal_width_bound(n: nat)
    requires
        n >= 1,
    ensures
        decimal_digits(n).len() <= n,
    decreases n,
{
    if n >= 10 {
        lemma_decimal_width_bound(n / 10);
    }
}

/// A `usize` has at most twenty decimal digits.
proof fn lemma_decimal_width_usize(n: nat)
    requires
        n <= usize::MAX,
    ensures
        decimal_digits(n).len() <= 20,
{
    reveal_with_fuel(pow10, 21);
    assert(pow10(20) == 100000000000000000000nat);
    lemma_decimal_width_small(n, 20);
}

/// Below `10^k`, a number has at most `k` digits.
proof fn lemma_decimal_width_small(n: nat, k: nat)
    requires
        k >= 1,
        n < pow10(k),
    ensures
        decimal_digits(n).len() <= k,
    decreases k,
{
    if n >= 10 {
        if k == 1 {
            assert(pow10(1) == 10) by {
                assert(pow10(0) == 1);
            }
        } else {
            assert(pow10(k) == 10 * pow10((k - 1) as nat));
            assert(n / 10 < pow10((k - 1) as nat));
            lemma_decimal_width_small(n / 10, (k - 1) as nat);
        }
    }
}

pub open spec fn pow10(k: nat) -> nat
    decreases k,
{
    if k == 0 {
        1
    } else {
        10 * pow10((k - 1) as nat)
    }
}

impl SpiralError {
    /// Width of the line number as printed in decimal.
    pub fn length_of_line_number(&self) -> (r: usize)
        ensures
            r == decimal_digits(self.line_number as nat).len(),
    {
        let mut n: usize = self.line_number;
        let mut w: usize = 1;
        proof {
            if n >= 1 {
                lemma_decimal_width_bound(n as nat);
            }
        }
        while n >= 10
            invariant
                w + decimal_digits(n as nat).len() == decimal_digits(self.line_number as nat).len()
                    + 1,
                decimal_digits(self.line_number as nat).len() <= usize::MAX,
            decreases n,
        {
            assert(decimal_digits((n / 10) as nat).len() >= 1);
            n = n / 10;
            w = w + 1;
        }
        w
    }
}

/// The message of each kind of failure.
pub open spec fn error_text_of(k: ErrorKind) -> Seq<char> {
    match k {
        ErrorKind::UnrecognizedCharacter => "Unable to parse character"@,
        ErrorKind::MustStartCapital => "Type and namespace names must begin with a capital letter"@,
        ErrorKind::UnterminatedLiteral => "Literal must be closed"@,
        ErrorKind::MultiplePeriods => "Number contains multiple periods"@,
        ErrorKind::UnknownOperator => "Unknown operator"@,
        ErrorKind::ExpectedFactor => "Expected a factor. Valid Factors are: Int"@,
        ErrorKind::UnknownFactor => "Unknown Factor"@,
        ErrorKind::UnclosedBracket => "Unclosed bracket"@,
    }
}

/// The hint that comes with each kind of failure.
pub open spec fn help_text_of(k: ErrorKind) -> Seq<char> {
    match k {
        ErrorKind::UnrecognizedCharacter => ""@,
        ErrorKind::MustStartCapital => "Follow '#' or '@' with a capital letter"@,
        ErrorKind::UnterminatedLiteral => "Close the literal with the quote it was opened with"@,
        ErrorKind::MultiplePeriods => "Ensure the number has a maximum of one period"@,
        ErrorKind::UnknownOperator => "Use '||', '|>' or '&&'"@,
        ErrorKind::ExpectedFactor => ""@,
        ErrorKind::UnknownFactor => ""@,
        ErrorKind::UnclosedBracket => "Please close the bracket"@,
    }
}

/// The escape character that starts a terminal colour code.
pub open spec fn escape() -> char {
    '\x1B'
}

/// The terminal colours a rendered diagnostic uses.
#[derive(Clone, Copy, PartialEq, Eq, Structural)]
pub enum Paint {
    Yellow,
    Red,
    Green,
}

pub open spec fn paint_code(p: Paint) -> Seq<char> {
    match p {
        Paint::Yellow => seq!['3', '3'],
        Paint::Red => seq!['3', '1'],
        Paint::Green => seq!['3', '2'],
    }
}

/// `s` between the foreground code of `p` and the reset code.
pub open spec fn painted(s: Seq<char>, p: Paint) -> Seq<char> {
    seq![escape(), '['] + paint_code(p) + seq!['m'] + s + seq![escape(), '[', '0', 'm']
}

/// `s` as shown with colouring on or off.
pub open spec fn shown(s: Seq<char>, p: Paint, on: bool) -> Seq<char> {
    if on {
        painted(s, p)
    } else {
        s
    }
}

/// Relies on colored's `Colorize::color` for `&str` and on the `Display` of
/// the `ColoredString` it returns. When colouring is off (the environment
/// and the terminal decide) that is the text itself; else the foreground
/// code of the colour, the text and the reset code, where a text without
/// an escape character is left as it is.
#[verifier::external_body]
fn paint(s: &str, p: Paint) -> (r: String)
    ensures
        !s@.contains(escape()) ==> (r@ == s@ || r@ == painted(s@, p)),
{
    let color = match p {
        Paint::Yellow => colored::Color::Yellow,
        Paint::Red => colored::Color::Red,
        Paint::Green => colored::Color::Green,
    };
    s.color(color).to_string()
}

/// The digit `d` as a one-character string.
fn digit_text(d: usize) -> (r: &'static str)
    requires
        d < 10,
    ensures
        r@ == seq![digit_char(d as nat)],
{
    if d == 0 {
        proof {
            reveal_strlit("0");
        }
        "0"
    } else if d == 1 {
        proof {
            reveal_strlit("1");
        }
        "1"
    } else if d == 2 {
        proof {
            reveal_strlit("2");
        }
        "2"
    } else if d == 3 {
        proof {
            reveal_strlit("3");
        }
        "3"
    } else if d == 4 {
        proof {
            reveal_strlit("4");
        }
        "4"
    } else if d == 5 {
        proof {
            reveal_strlit("5");
        }
        "5"
    } else if d == 6 {
        proof {
            reveal_strlit("6");
        }
        "6"
    } else if d == 7 {
        proof {
            reveal_strlit("7");
        }
        "7"
    } else if d == 8 {
        proof {
            reveal_strlit("8");
        }
        "8"
    } else {
        proof {
            reveal_strlit("9");
        }
        "9"
    }
}

/// `n` written in decimal.
pub fn decimal(n: usize) -> (r: String)
    ensures
        r@ == decimal_digits(n as nat),
    decreases n,
{
    let last = digit_text(n % 10);
    if n < 10 {
        String::from_str(last)
    } else {
        let mut r = decimal(n / 10);
        r.append(last);
        r
    }
}

/// `n` copies of `c`.
pub open spec fn repeated(c: char, n: nat) -> Seq<char> {
    Seq::new(n, |i: int| c)
}

/// The underline of a diagnostic: spaces up to its first column (past the
/// `L<n>: ` gutter of the excerpt), then a caret under each character of
/// the span.
pub open spec fn marker(d: DiagView) -> Seq<char> {
    repeated(' ', (d.begin + 3 + decimal_digits(d.line_number as nat).len()) as nat) + repeated(
        '^',
        (d.end - d.begin + 1) as nat,
    )
}

/// The rendered diagnostic: message, blank line, `L<n>: <line>`, underline,
/// hint; each of the three coloured parts coloured or not.
pub open spec fn rendered(d: DiagView, y: bool, r: bool, g: bool) -> Seq<char> {
    shown(error_text_of(d.kind), Paint::Yellow, y) + "\n\nL"@ + decimal_digits(d.line_number as nat)
        + ": "@ + d.line_text + "\n"@ + shown(marker(d), Paint::Red, r) + "\n"@ + shown(
        help_text_of(d.kind),
        Paint::Green,
        g,
    )
}

/// Appends `n` copies of the one-character string `c` to `out`.
fn push_repeated(out: &mut String, c: &str, n: usize)
    requires
        c@.len() == 1,
    ensures
        final(out)@ == old(out)@ + repeated(c@[0], n as nat),
{
    let ghost start = out@;
    let mut k: usize = 0;
    while k < n
        invariant
            c@.len() == 1,
            k <= n,
            out@ == start + repeated(c@[0], k as nat),
        decreases n - k,
    {
        out.append(c);
        assert(repeated(c@[0], (k + 1) as nat) =~= repeated(c@[0], k as nat) + c@);
        assert(start + repeated(c@[0], (k + 1) as nat) =~= start + repeated(c@[0], k as nat) + c@);
        k = k + 1;
    }
}

impl SpiralError {
    /// The message of this failure.
    pub fn error_text(&self) -> (r: &'static str)
        ensures
            r@ == error_text_of(self.kind),
            !r@.contains(escape()),
    {
        match self.kind {
            ErrorKind::UnrecognizedCharacter => {
                proof {
                    reveal_strlit("Unable to parse character");
                }
                "Unable to parse character"
            },
            ErrorKind::MustStartCapital => {
                proof {
                    reveal_strlit("Type and namespace names must begin with a capital letter");
                }
                "Type and namespace names must begin with a capital letter"
            },
            ErrorKind::UnterminatedLiteral => {
                proof {
                    reveal_strlit("Literal must be closed");
                }
                "Literal must be closed"
            },
            ErrorKind::MultiplePeriods => {
                proof {
                    reveal_strlit("Number contains multiple periods");
                }
                "Number contains multiple periods"
            },
            ErrorKind::UnknownOperator => {
                proof {
                    reveal_strlit("Unknown operator");
                }
                "Unknown operator"
            },
            ErrorKind::ExpectedFactor => {
                proof {
                    reveal_strlit("Expected a factor. Valid Factors are: Int");
                }
                "Expected a factor. Valid Factors are: Int"
            },
            ErrorKind::UnknownFactor => {
                proof {
                    reveal_strlit("Unknown Factor");
                }
                "Unknown Factor"
            },
            ErrorKind::UnclosedBracket => {
                proof {
                    reveal_strlit("Unclosed bracket");
                }
                "Unclosed bracket"
            },
        }
    }

    /// The hint that comes with this failure.
    pub fn help_text(&self) -> (r: &'static str)
        ensures
            r@ == help_text_of(self.kind),
            !r@.contains(escape()),
    {
        match self.kind {
            ErrorKind::UnrecognizedCharacter => {
                proof {
                    reveal_strlit("");
                }
                ""
            },
            ErrorKind::MustStartCapital => {
                proof {
                    reveal_strlit("Follow '#' or '@' with a capital letter");
                }
                "Follow '#' or '@' with a capital letter"
            },
            ErrorKind::UnterminatedLiteral => {
                proof {
                    reveal_strlit("Close the literal with the quote it was opened with");
                }
                "Close the literal with the quote it was opened with"
            },
            ErrorKind::MultiplePeriods => {
                proof {
                    reveal_strlit("Ensure the number has a maximum of one period");
                }
                "Ensure the number has a maximum of one period"
            },
            ErrorKind::UnknownOperator => {
                proof {
                    reveal_strlit("Use '||', '|>' or '&&'");
                }
                "Use '||', '|>' or '&&'"
            },
            ErrorKind::ExpectedFactor => {
                proof {
                    reveal_strlit("");
                }
                ""
            },
            ErrorKind::UnknownFactor => {
                proof {
                    reveal_strlit("");
                }
                ""
            },
            ErrorKind::UnclosedBracket => {
                proof {
                    reveal_strlit("Please close the bracket");
                }
                "Please close the bracket"
            },
        }
    }

    /// The underline of the span: spaces to its first column, then carets.
    pub fn error_display(&self) -> (r: String)
        requires
            self.begin <= self.end,
            self.end + 24 <= usize::MAX,
        ensures
            r@ == marker(self@),
    {
        proof {
            lemma_decimal_width_usize(self.line_number as nat);
        }
        let pad = self.begin + 3 + self.length_of_line_number();
        let mut r = String::new();
        proof {
            reveal_strlit(" ");
            reveal_strlit("^");
        }
        push_repeated(&mut r, " ", pad);
        push_repeated(&mut r, "^", self.end - self.begin + 1);
        assert(r@ =~= marker(self@));
        r
    }

    /// The diagnostic as shown to a user: message, blank line, the source
    /// line behind its number, the underline, and the hint. Whether the
    /// message, underline and hint carry colour codes is up to the terminal.
    pub fn fmt_for_display(&self) -> (r: String)
        requires
            self.begin <= self.end,
            self.end + 24 <= usize::MAX,
        ensures
            exists|y: bool, red: bool, g: bool| r@ == rendered(self@, y, red, g),
    {
        let error_text = self.error_text();
        let help_text = self.help_text();
        let under = self.error_display();
        proof {
            lemma_marker_plain(self@);
        }
        let mut r = paint(error_text, Paint::Yellow);
        let ghost y = r@ != error_text@;
        r.append("\n\nL");
        let number = decimal(self.line_number);
        r.append(number.as_str());
        r.append(": ");
        r.append(self.line_text.as_str());
        r.append("\n");
        let red = paint(under.as_str(), Paint::Red);
        let ghost rd = red@ != under@;
        r.append(red.as_str());
        r.append("\n");
        let green = paint(help_text, Paint::Green);
        let ghost g = green@ != help_text@;
        r.append(green.as_str());
        assert(r@ =~= rendered(self@, y, rd, g));
        r
    }
}

/// An underline holds no escape character.
proof fn lemma_marker_plain(d: DiagView)
    ensures
        !marker(d).contains(escape()),
{
    assert forall|i: int| 0 <= i < marker(d).len() implies marker(d)[i] != escape() by {
        reveal_strlit(" ");
    }
}

} // verus!
