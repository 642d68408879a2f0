use vstd::prelude::*;

verus! {

/// The reserved words and phrases, each matched case-insensitively as one token.
#[derive(Clone, Copy, Debug, PartialEq, Eq, Structural)]
pub enum Keyword {
    Select,
    InsertInto,
    DeleteFrom,
    Update,
    From,
    Where,
    And,
    Or,
    Values,
    SetKw,
}

/// What kind of token the scanner found.
#[derive(Clone, Copy, Debug, PartialEq, Eq, Structural)]
pub enum TokenKind {
    Keyword(Keyword),
    /// A single-quoted literal; the token text is its content with the escapes removed.
    Literal,
    /// A maximal run of identifier characters.
    Ident,
    /// An operator or punctuation mark.
    Symbol,
    /// The end of the input.
    End,
}

/// The scanner's view of a token: its kind, its text and how many characters it consumed.
pub struct Scanned {
    pub kind: TokenKind,
    pub text: Vec<char>,
    pub len: usize,
}

/// A token as a mathematical value: kind, text, consumed length.
pub type TokenModel = (TokenKind, Seq<char>, nat);

impl Scanned {
    pub open spec fn model(&self) -> TokenModel {
        (self.kind, self.text@, self.len as nat)
    }
}

/// Letters, digits, underscore and the wildcard symbol.
pub open spec fn is_ident_char(c: char) -> bool {
    let u = c as u32;
    (97 <= u && u <= 122) || (65 <= u && u <= 90) || (48 <= u && u <= 57) || u == 95 || u == 42
}

pub open spec fn is_space(c: char) -> bool {
    c == ' ' || c == '\t' || c == '\n'
}

/// The code of `c` with ASCII lower-case letters raised to upper case.
pub open spec fn upper_code(c: char) -> u32 {
    let u = c as u32;
    if 97 <= u && u <= 122 {
        (u - 32) as u32
    } else {
        u
    }
}

pub open spec fn keyword_text(k: Keyword) -> Seq<char> {
    match k {
        Keyword::Select => seq!['S', 'E', 'L', 'E', 'C', 'T'],
        Keyword::InsertInto => seq!['I', 'N', 'S', 'E', 'R', 'T', ' ', 'I', 'N', 'T', 'O'],
        Keyword::DeleteFrom => seq!['D', 'E', 'L', 'E', 'T', 'E', ' ', 'F', 'R', 'O', 'M'],
        Keyword::Update => seq!['U', 'P', 'D', 'A', 'T', 'E'],
        Keyword::From => seq!['F', 'R', 'O', 'M'],
        Keyword::Where => seq!['W', 'H', 'E', 'R', 'E'],
        Keyword::And => seq!['A', 'N', 'D'],
        Keyword::Or => seq!['O', 'R'],
        Keyword::Values => seq!['V', 'A', 'L', 'U', 'E', 'S'],
        Keyword::SetKw => seq!['S', 'E', 'T'],
    }
}

/// The reserved phrases in the order in which they are tried.
pub open spec fn keyword_order() -> Seq<Keyword> {
    seq![
        Keyword::Select,
        Keyword::InsertInto,
        Keyword::DeleteFrom,
        Keyword::Update,
        Keyword::From,
        Keyword::Where,
        Keyword::And,
        Keyword::Or,
        Keyword::Values,
        Keyword::SetKw,
    ]
}

/// The phrase `p` stands at `pos`, up to case, and is not followed by an identifier character.
pub open spec fn phrase_at(s: Seq<char>, pos: int, p: Seq<char>) -> bool {
    &&& 0 <= pos
    &&& pos + p.len() <= s.len()
    &&& forall|j: int| 0 <= j < p.len() ==> upper_code(#[trigger] s[pos + j]) == p[j] as u32
    &&& (pos + p.len() == s.len() || !is_ident_char(s[pos + p.len()]))
}

/// The first reserved phrase, from the `i`-th on, that stands at `pos`.
pub open spec fn keyword_from(s: Seq<char>, pos: int, i: int) -> Option<Keyword>
    decreases keyword_order().len() - i,
{
    if i < 0 || i >= keyword_order().len() {
        None
    } else if phrase_at(s, pos, keyword_text(keyword_order()[i])) {
        Some(keyword_order()[i])
    } else {
        keyword_from(s, pos, i + 1)
    }
}

pub open spec fn keyword_at(s: Seq<char>, pos: int) -> Option<Keyword> {
    keyword_from(s, pos, 0)
}

/// A phrase that `keyword_from` reports does stand at `pos`.
pub proof fn lemma_keyword_from_matches(s: Seq<char>, pos: int, i: int)
    requires
        keyword_from(s, pos, i) is Some,
    ensures
        phrase_at(s, pos, keyword_text(keyword_from(s, pos, i)->0)),
        keyword_text(keyword_from(s, pos, i)->0).len() > 0,
    decreases keyword_order().len() - i,
{
    if i >= 0 && i < keyword_order().len() && !phrase_at(s, pos, keyword_text(keyword_order()[i])) {
        lemma_keyword_from_matches(s, pos, i + 1);
    }
    let k = keyword_from(s, pos, i)->0;
    assert(keyword_text(k).len() > 0) by {
        match k {
            _ => {},
        }
    }
}

/// The end of the run of identifier characters that starts at `pos`.
pub open spec fn ident_end(s: Seq<char>, pos: int) -> int
    decreases s.len() - pos,
{
    if 0 <= pos < s.len() && is_ident_char(s[pos]) {
        ident_end(s, pos + 1)
    } else {
        pos
    }
}

/// The end of the run of whitespace that starts at `pos`.
pub open spec fn space_end(s: Seq<char>, pos: int) -> int
    decreases s.len() - pos,
{
    if 0 <= pos < s.len() && is_space(s[pos]) {
        space_end(s, pos + 1)
    } else {
        pos
    }
}

/// Scans the body of a quoted literal from `j`, with `acc` the content read so far.
/// A backslash takes the next character literally; the first other quote closes the
/// literal. Gives the content and the index just past the closing quote, or `None`
/// when the input ends first.
pub open spec fn literal_from(s: Seq<char>, j: int, acc: Seq<char>) -> Option<(Seq<char>, int)>
    decreases s.len() - j,
{
    if j < 0 || j >= s.len() {
        None
    } else if s[j] == '\'' {
        Some((acc, j + 1))
    } else if s[j] == '\\' {
        if j + 1 >= s.len() {
            None
        } else {
            literal_from(s, j + 2, acc.push(s[j + 1]))
        }
    } else {
        literal_from(s, j + 1, acc.push(s[j]))
    }
}

pub open spec fn is_two_char_operator(a: char, b: char) -> bool {
    (a == '!' && b == '=') || (a == '<' && b == '=') || (a == '>' && b == '=') || (a == '<'
        && b == '>')
}

/// The token at `pos`, or `None` for a literal that is never closed.
pub open spec fn scan(s: Seq<char>, pos: int) -> Option<TokenModel> {
    if pos < 0 || pos >= s.len() {
        Some((TokenKind::End, Seq::empty(), 0))
    } else if keyword_at(s, pos) is Some {
        let k = keyword_at(s, pos)->0;
        Some((TokenKind::Keyword(k), keyword_text(k), keyword_text(k).len()))
    } else if s[pos] == '\'' {
        match literal_from(s, pos + 1, Seq::empty()) {
            Some((content, end)) => Some((TokenKind::Literal, content, (end - pos) as nat)),
            None => None,
        }
    } else if is_ident_char(s[pos]) {
        let e = ident_end(s, pos);
        Some((TokenKind::Ident, s.subrange(pos, e), (e - pos) as nat))
    } else if pos + 1 < s.len() && is_two_char_operator(s[pos], s[pos + 1]) {
        Some((TokenKind::Symbol, s.subrange(pos, pos + 2), 2))
    } else {
        Some((TokenKind::Symbol, seq![s[pos]], 1))
    }
}

pub fn is_ident_char_exec(c: char) -> (r: bool)
    ensures
        r == is_ident_char(c),
{
    let u = c as u32;
    (97 <= u && u <= 122) || (65 <= u && u <= 90) || (48 <= u && u <= 57) || u == 95 || u == 42
}

fn upper_code_exec(c: char) -> (r: u32)
    ensures
        r == upper_code(c),
{
    let u = c as u32;
    if 97 <= u && u <= 122 {
        u - 32
    } else {
        u
    }
}

impl Keyword {
    /// The reserved phrase, in upper case.
    pub fn text(&self) -> (v: Vec<char>)
        ensures
            v@ == keyword_text(*self),
    {
        match self {
            Keyword::Select => vec!['S', 'E', 'L', 'E', 'C', 'T'],
            Keyword::InsertInto => vec!['I', 'N', 'S', 'E', 'R', 'T', ' ', 'I', 'N', 'T', 'O'],
            Keyword::DeleteFrom => vec!['D', 'E', 'L', 'E', 'T', 'E', ' ', 'F', 'R', 'O', 'M'],
            Keyword::Update => vec!['U', 'P', 'D', 'A', 'T', 'E'],
            Keyword::From => vec!['F', 'R', 'O', 'M'],
            Keyword::Where => vec!['W', 'H', 'E', 'R', 'E'],
            Keyword::And => vec!['A', 'N', 'D'],
            Keyword::Or => vec!['O', 'R'],
            Keyword::Values => vec!['V', 'A', 'L', 'U', 'E', 'S'],
            Keyword::SetKw => vec!['S', 'E', 'T'],
        }
    }
}

fn keyword_order_exec() -> (v: Vec<Keyword>)
    ensures
        v@ == keyword_order(),
{
    vec![
        Keyword::Select,
        Keyword::InsertInto,
        Keyword::DeleteFrom,
        Keyword::Update,
        Keyword::From,
        Keyword::Where,
        Keyword::And,
        Keyword::Or,
        Keyword::Values,
        Keyword::SetKw,
    ]
}

/// Whether the phrase `p` stands at `pos` (see `phrase_at`).
pub fn phrase_at_exec(s: &Vec<char>, pos: usize, p: &Vec<char>) -> (r: bool)
    ensures
        r == phrase_at(s@, pos as int, p@),
{
    if pos > s.len() || p.len() > s.len() - pos {
        return false;
    }
    let mut j: usize = 0;
    while j < p.len()
        invariant
            pos + p.len() <= s.len(),
            j <= p.len(),
            forall|k: int| 0 <= k < j ==> upper_code(#[trigger] s@[pos + k]) == p@[k] as u32,
        decreases p.len() - j,
    {
        if upper_code_exec(s[pos + j]) != p[j] as u32 {
            return false;
        }
        j = j + 1;
    }
    let end = pos + p.len();
    end == s.len() || !is_ident_char_exec(s[end])
}

/// The reserved phrase at `pos`, if any.
pub fn keyword_at_exec(s: &Vec<char>, pos: usize) -> (r: Option<Keyword>)
    ensures
        r == keyword_at(s@, pos as int),
{
    let order = keyword_order_exec();
    let mut i: usize = 0;
    while i < order.len()
        invariant
            order@ == keyword_order(),
            i <= order.len(),
            keyword_from(s@, pos as int, 0) == keyword_from(s@, pos as int, i as int),
        decreases order.len() - i,
    {
        let k = order[i];
        let t = k.text();
        if phrase_at_exec(s, pos, &t) {
            return Some(k);
        }
        i = i + 1;
    }
    None
}

/// The end of the identifier run at `pos`.
pub fn ident_end_exec(s: &Vec<char>, pos: usize) -> (e: usize)
    requires
        pos <= s.len(),
    ensures
        e == ident_end(s@, pos as int),
        pos <= e <= s.len(),
{
    let mut e = pos;
    while e < s.len() && is_ident_char_exec(s[e])
        invariant
            pos <= e <= s.len(),
            ident_end(s@, pos as int) == ident_end(s@, e as int),
        decreases s.len() - e,
    {
        e = e + 1;
    }
    e
}

/// The end of the whitespace run at `pos`.
pub fn space_end_exec(s: &Vec<char>, pos: usize) -> (e: usize)
    requires
        pos <= s.len(),
    ensures
        e == space_end(s@, pos as int),
        pos <= e <= s.len(),
{
    let mut e = pos;
    while e < s.len() && (s[e] == ' ' || s[e] == '\t' || s[e] == '\n')
        invariant
            pos <= e <= s.len(),
            space_end(s@, pos as int) == space_end(s@, e as int),
        decreases s.len() - e,
    {
        e = e + 1;
    }
    e
}

/// The content of the quoted literal whose opening quote is at `pos`, with the index
/// just past its closing quote; `None` when it is never closed.
pub fn literal_exec(s: &Vec<char>, pos: usize) -> (r: Option<(Vec<char>, usize)>)
    requires
        pos < s.len(),
    ensures
        match r {
            Some((v, e)) => literal_from(s@, pos + 1, Seq::empty()) == Some((v@, e as int)),
            None => literal_from(s@, pos + 1, Seq::empty()) is None,
        },
        r matches Some((v, e)) ==> pos + 2 <= e <= s.len(),
{
    let mut acc: Vec<char> = Vec::new();
    let mut j = pos + 1;
    while j < s.len()
        invariant
            pos + 1 <= j <= s.len() + 1,
            j <= pos + 1 + 2 * acc.len(),
            literal_from(s@, pos + 1, Seq::empty()) == literal_from(s@, j as int, acc@),
        decreases s.len() - j,
    {
        if s[j] == '\'' {
            return Some((acc, j + 1));
        } else if s[j] == '\\' {
            if j + 1 >= s.len() {
                return None;
            }
            acc.push(s[j + 1]);
            j = j + 2;
        } else {
            acc.push(s[j]);
            j = j + 1;
        }
    }
    None
}

/// The token at `pos`, or `None` for a literal that is never closed.
pub fn scan_exec(s: &Vec<char>, pos: usize) -> (r: Option<Scanned>)
    requires
        pos <= s.len(),
    ensures
        match r {
            Some(t) => scan(s@, pos as int) == Some(t.model()),
            None => scan(s@, pos as int) is None,
        },
        r matches Some(t) ==> pos + t.len <= s.len() && (t.kind == TokenKind::End <==> t.len
            == 0),
{
    if pos >= s.len() {
        return Some(Scanned { kind: TokenKind::End, text: Vec::new(), len: 0 });
    }
    match keyword_at_exec(s, pos) {
        Some(k) => {
            proof {
                lemma_keyword_from_matches(s@, pos as int, 0);
            }
            let text = k.text();
            let len = text.len();
            return Some(Scanned { kind: TokenKind::Keyword(k), text, len });
        },
        None => {},
    }
    if s[pos] == '\'' {
        return match literal_exec(s, pos) {
            Some((content, end)) => Some(Scanned { kind: TokenKind::Literal, text: content, len: end - pos }),
            None => None,
        };
    }
    if is_ident_char_exec(s[pos]) {
        let e = ident_end_exec(s, pos + 1);
        let mut text: Vec<char> = Vec::new();
        let mut j = pos;
        while j < e
            invariant
                pos <= j <= e <= s.len(),
                text@ == s@.subrange(pos as int, j as int),
            decreases e - j,
        {
            text.push(s[j]);
            assert(s@.subrange(pos as int, j + 1) =~= s@.subrange(pos as int, j as int).push(s@[j as int]));
            j = j + 1;
        }
        return Some(Scanned { kind: TokenKind::Ident, text, len: e - pos });
    }
    if pos + 1 < s.len() && ((s[pos] == '!' && s[pos + 1] == '=') || (s[pos] == '<' && s[pos + 1] == '=')
        || (s[pos] == '>' && s[pos + 1] == '=') || (s[pos] == '<' && s[pos + 1] == '>')) {
        let text = vec![s[pos], s[pos + 1]];
        assert(text@ =~= s@.subrange(pos as int, pos + 2));
        return Some(Scanned { kind: TokenKind::Symbol, text, len: 2 });
    }
    Some(Scanned { kind: TokenKind::Symbol, text: vec![s[pos]], len: 1 })
}

} // verus!
