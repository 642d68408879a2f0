use vstd::prelude::*;

use crate::grammar::parse_text;
use crate::lexer::{
    ident_end, is_ident_char, keyword_at, keyword_from, keyword_order, keyword_text,
    lemma_keyword_from_matches, literal_from, phrase_at, scan, upper_code, Keyword, TokenKind,
};

verus! {

/// Parsing is a function of the text alone: equal texts give equal outcomes.
pub proof fn lemma_parse_deterministic(a: Seq<char>, b: Seq<char>)
    requires
        a == b,
    ensures
        parse_text(a) == parse_text(b),
{
}

/// Every reserved phrase begins with an upper-case letter.
proof fn lemma_keyword_starts_with_letter(k: Keyword)
    ensures
        keyword_text(k).len() > 0,
        65 <= keyword_text(k)[0] as u32 <= 90,
{
    match k {
        _ => {},
    }
}

/// No reserved phrase starts at a character that cannot be part of an identifier.
pub proof fn lemma_no_keyword_at_symbol(s: Seq<char>, pos: int, i: int)
    requires
        0 <= pos < s.len(),
        !is_ident_char(s[pos]),
    ensures
        keyword_from(s, pos, i) is None,
    decreases keyword_order().len() - i,
{
    if 0 <= i < keyword_order().len() {
        let k = keyword_order()[i];
        lemma_keyword_starts_with_letter(k);
        if phrase_at(s, pos, keyword_text(k)) {
            assert(upper_code(s[pos + 0]) == keyword_text(k)[0] as u32);
        }
        lemma_no_keyword_at_symbol(s, pos, i + 1);
    }
}

/// Texts that agree up to the case of ASCII letters match the same phrases in the
/// same places.
pub proof fn lemma_phrase_case_insensitive(s: Seq<char>, t: Seq<char>, pos: int, p: Seq<char>)
    requires
        s.len() == t.len(),
        forall|j: int| 0 <= j < s.len() ==> upper_code(#[trigger] s[j]) == upper_code(t[j]),
    ensures
        phrase_at(s, pos, p) == phrase_at(t, pos, p),
{
    if phrase_at(s, pos, p) {
        assert forall|j: int| 0 <= j < p.len() implies upper_code(#[trigger] t[pos + j]) == p[j]
            as u32 by {
            assert(upper_code(s[pos + j]) == upper_code(t[pos + j]));
        }
        if pos + p.len() < s.len() {
            assert(upper_code(s[pos + p.len()]) == upper_code(t[pos + p.len()]));
        }
    }
    if phrase_at(t, pos, p) {
        assert forall|j: int| 0 <= j < p.len() implies upper_code(#[trigger] s[pos + j]) == p[j]
            as u32 by {
            assert(upper_code(s[pos + j]) == upper_code(t[pos + j]));
        }
        if pos + p.len() < s.len() {
            assert(upper_code(s[pos + p.len()]) == upper_code(t[pos + p.len()]));
        }
    }
}

proof fn lemma_keyword_from_case_insensitive(s: Seq<char>, t: Seq<char>, pos: int, i: int)
    requires
        s.len() == t.len(),
        forall|j: int| 0 <= j < s.len() ==> upper_code(#[trigger] s[j]) == upper_code(t[j]),
    ensures
        keyword_from(s, pos, i) == keyword_from(t, pos, i),
    decreases keyword_order().len() - i,
{
    if 0 <= i < keyword_order().len() {
        lemma_phrase_case_insensitive(s, t, pos, keyword_text(keyword_order()[i]));
        lemma_keyword_from_case_insensitive(s, t, pos, i + 1);
    }
}

/// Reserved phrases are matched without regard to the case of ASCII letters.
pub proof fn lemma_keyword_case_insensitive(s: Seq<char>, t: Seq<char>, pos: int)
    requires
        s.len() == t.len(),
        forall|j: int| 0 <= j < s.len() ==> upper_code(#[trigger] s[j]) == upper_code(t[j]),
    ensures
        keyword_at(s, pos) == keyword_at(t, pos),
{
    lemma_keyword_from_case_insensitive(s, t, pos, 0);
}

/// A reserved phrase directly followed by an identifier character does not match there.
pub proof fn lemma_word_boundary(s: Seq<char>, pos: int, k: Keyword)
    requires
        0 <= pos,
        pos + keyword_text(k).len() < s.len(),
        is_ident_char(s[pos + keyword_text(k).len()]),
    ensures
        !phrase_at(s, pos, keyword_text(k)),
        keyword_at(s, pos) != Some(k),
{
    if keyword_at(s, pos) is Some {
        lemma_keyword_from_matches(s, pos, 0);
    }
}

/// The identifier run at `pos` holds identifier characters only and ends at the end of
/// the text or at the first character that is not one.
pub proof fn lemma_ident_end(s: Seq<char>, pos: int)
    requires
        0 <= pos <= s.len(),
    ensures
        pos <= ident_end(s, pos) <= s.len(),
        forall|k: int| pos <= k < ident_end(s, pos) ==> is_ident_char(#[trigger] s[k]),
        ident_end(s, pos) == s.len() || !is_ident_char(s[ident_end(s, pos)]),
    decreases s.len() - pos,
{
    if pos < s.len() && is_ident_char(s[pos]) {
        lemma_ident_end(s, pos + 1);
    }
}

/// At an identifier character that starts no reserved phrase, the scanner yields the
/// whole identifier run, and consumes exactly its length.
pub proof fn lemma_ident_token(s: Seq<char>, pos: int)
    requires
        0 <= pos < s.len(),
        is_ident_char(s[pos]),
        keyword_at(s, pos) is None,
    ensures
        scan(s, pos) == Some(
            (
                TokenKind::Ident,
                s.subrange(pos, ident_end(s, pos)),
                (ident_end(s, pos) - pos) as nat,
            ),
        ),
        forall|k: int| pos <= k < ident_end(s, pos) ==> is_ident_char(#[trigger] s[k]),
        ident_end(s, pos) == s.len() || !is_ident_char(s[ident_end(s, pos)]),
{
    lemma_ident_end(s, pos);
}

/// The body of a quoted literal holding `w`: each quote and backslash of `w` is
/// preceded by a backslash.
pub open spec fn escaped(w: Seq<char>) -> Seq<char>
    decreases w.len(),
{
    if w.len() == 0 {
        Seq::empty()
    } else {
        let c = w[0];
        let head = if c == '\'' || c == '\\' {
            seq!['\\', c]
        } else {
            seq![c]
        };
        head + escaped(w.drop_first())
    }
}

proof fn lemma_literal_from_escaped(s: Seq<char>, j: int, acc: Seq<char>, w: Seq<char>)
    requires
        0 <= j,
        j + escaped(w).len() < s.len(),
        forall|k: int| 0 <= k < escaped(w).len() ==> s[j + k] == #[trigger] escaped(w)[k],
        s[j + escaped(w).len()] == '\'',
    ensures
        literal_from(s, j, acc) == Some((acc + w, j + escaped(w).len() + 1)),
    decreases w.len(),
{
    if w.len() == 0 {
        assert(acc + w =~= acc);
    } else {
        let c = w[0];
        let rest = w.drop_first();
        let e = escaped(w);
        let h: int = if c == '\'' || c == '\\' {
            2
        } else {
            1
        };
        assert(e.len() == h + escaped(rest).len());
        assert forall|k: int| 0 <= k < escaped(rest).len() implies s[(j + h) + k]
            == #[trigger] escaped(rest)[k] by {
            assert(e[h + k] == escaped(rest)[k]);
            assert(s[j + (h + k)] == e[h + k]);
        }
        assert(s[j + 0] == e[0]);
        if h == 2 {
            assert(s[j + 1] == e[1]);
        }
        lemma_literal_from_escaped(s, j + h, acc.push(c), rest);
        assert(acc.push(c) + rest =~= acc + w);
    }
}

/// A quoted literal comes back as the text it holds: the quotes are dropped, escaped
/// quotes and backslashes are kept, and the whole literal is consumed.
pub proof fn lemma_literal_round_trip(w: Seq<char>, rest: Seq<char>)
    ensures
        scan(seq!['\''] + escaped(w) + seq!['\''] + rest, 0) == Some(
            (TokenKind::Literal, w, escaped(w).len() + 2),
        ),
{
    let s = seq!['\''] + escaped(w) + seq!['\''] + rest;
    assert(!is_ident_char(s[0]));
    lemma_no_keyword_at_symbol(s, 0, 0);
    assert forall|k: int| 0 <= k < escaped(w).len() implies s[1 + k] == #[trigger] escaped(w)[k] by {
    }
    assert(s[1 + escaped(w).len() as int] == '\'');
    lemma_literal_from_escaped(s, 1, Seq::empty(), w);
    assert(Seq::<char>::empty() + w =~= w);
}

} // verus!
