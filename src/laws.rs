//! Properties of the tokenizer that hold for every input, proved over the
//! lexical rules that `Tokenizer::execute` is verified against.
use vstd::prelude::*;

use crate::tokenizer::rules::{
    in_class, is_letter, is_lower, keyword_category, lemma_lexeme_bounds, lexeme_at, run_end, scan,
    scan_from, simple_category, CharClass, Lexeme,
};
use crate::spiral_error::DiagView;
use crate::tokenizer::{TokenType, TokenView};

verus! {

/// The texts of `ts`, one after the other.
pub open spec fn joined(ts: Seq<TokenView>) -> Seq<char>
    decreases ts.len(),
{
    if ts.len() == 0 {
        Seq::empty()
    } else {
        ts[0].value + joined(ts.drop_first())
    }
}

/// A run of class `k` that covers `i..j` and stops at `j` ends at `j`.
proof fn lemma_run_end_at(s: Seq<char>, i: int, j: int, k: CharClass)
    requires
        0 <= i <= j <= s.len(),
        forall|m: int| i <= m < j ==> in_class(#[trigger] s[m], k),
        j == s.len() || !in_class(s[j], k),
    ensures
        run_end(s, i, k) == j,
    decreases j - i,
{
    if i < j {
        lemma_run_end_at(s, i + 1, j, k);
    }
}

/// Each of the punctuation characters `[ ] ( ) { } _ , : - / * ^ .`
/// standing alone tokenizes to exactly one token, whose text is that
/// character and whose category is the one the character stands for.
pub proof fn law_single_punctuation(c: char)
    requires
        simple_category(c) is Some,
    ensures
        scan(seq![c]) matches Ok(ts) && ts.len() == 1 && ts[0].value == seq![c] && Some(
            ts[0].token_type,
        ) == simple_category(c),
{
    let s = seq![c];
    assert(lexeme_at(s, 0) == Lexeme::Emit(simple_category(c)->0, 0));
    assert(scan_from(s, 1) == Ok::<Seq<TokenView>, DiagView>(Seq::empty()));
    assert(s.subrange(0, 1) =~= s);
    let ts = scan(s)->Ok_0;
    assert(ts.len() == 1);
}

/// A word of letters that starts with a lowercase letter, standing alone,
/// tokenizes to one token with the word as its text: the keyword's
/// category if the word is one of the reserved words, else a variable
/// name. Followed by a colon it is one field-name token whose text
/// includes the colon.
pub proof fn law_word_classification(w: Seq<char>)
    requires
        w.len() >= 1,
        is_lower(w[0]),
        forall|i: int| 0 <= i < w.len() ==> is_letter(#[trigger] w[i]),
    ensures
        scan(w) matches Ok(ts) && ts.len() == 1 && ts[0].value == w && ts[0].token_type
            == keyword_category(w),
        scan(w.push(':')) matches Ok(ts) && ts.len() == 1 && ts[0].value == w.push(':')
            && ts[0].token_type == TokenType::FieldId,
{
    let n = w.len() as int;
    lemma_run_end_at(w, 0, n, CharClass::Letter);
    assert(w.subrange(0, n) =~= w);
    assert(lexeme_at(w, 0) == Lexeme::Emit(keyword_category(w), n - 1));
    assert(scan_from(w, n) == Ok::<Seq<TokenView>, DiagView>(Seq::empty()));
    let ts = scan(w)->Ok_0;
    assert(ts.len() == 1);

    let f = w.push(':');
    assert forall|m: int| 0 <= m < n implies in_class(#[trigger] f[m], CharClass::Letter) by {
        assert(f[m] == w[m]);
    }
    lemma_run_end_at(f, 0, n, CharClass::Letter);
    assert(lexeme_at(f, 0) == Lexeme::Emit(TokenType::FieldId, n));
    assert(scan_from(f, n + 1) == Ok::<Seq<TokenView>, DiagView>(Seq::empty()));
    assert(f.subrange(0, n + 1) =~= f);
    let fs = scan(f)->Ok_0;
    assert(fs.len() == 1);
}

/// Tokens scanned from `i` on spell out the input from `i` on.
proof fn lemma_joined_from(s: Seq<char>, i: int)
    requires
        0 <= i <= s.len(),
        scan_from(s, i) is Ok,
    ensures
        joined(scan_from(s, i)->Ok_0) == s.subrange(i, s.len() as int),
    decreases s.len() - i,
{
    if i < s.len() {
        lemma_lexeme_bounds(s, i);
        if let Lexeme::Emit(t, e) = lexeme_at(s, i) {
            lemma_joined_from(s, e + 1);
            let rest = scan_from(s, e + 1)->Ok_0;
            let ts = scan_from(s, i)->Ok_0;
            assert(ts.drop_first() =~= rest);
            assert(s.subrange(i, e + 1) + s.subrange(e + 1, s.len() as int) =~= s.subrange(
                i,
                s.len() as int,
            ));
        }
    } else {
        assert(s.subrange(i, s.len() as int) =~= Seq::<char>::empty());
    }
}

/// When an input tokenizes, the texts of its tokens joined in order give
/// the input back exactly, and tokenizing that text again gives the same
/// tokens.
pub proof fn law_reconstruction(s: Seq<char>)
    requires
        scan(s) is Ok,
    ensures
        joined(scan(s)->Ok_0) == s,
        scan(joined(scan(s)->Ok_0)) == scan(s),
{
    lemma_joined_from(s, 0);
    assert(s.subrange(0, s.len() as int) =~= s);
}

} // verus!
