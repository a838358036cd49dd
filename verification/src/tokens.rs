//! A flat model of a token stream.
//!
//! A group `( .. )`, `[ .. ]` or `{ .. }` is written as an opening token, the
//! tokens inside it and a closing token. A multi-character punctuation such
//! as `::` or `=>` is a run of single-character `Punct` tokens.
use vstd::prelude::*;

verus! {

/// Delimiter of a token group.
#[derive(Clone, Copy, PartialEq, Eq, Structural, Debug)]
pub enum Delim {
    Paren,
    Bracket,
    Brace,
    Invisible,
}

/// One token of a flat token stream.
#[derive(Clone, Debug)]
pub enum Tok {
    Ident(String),
    Punct(char),
    Lit(String),
    Open(Delim),
    Close(Delim),
}

/// The mathematical value of a token.
pub enum TokV {
    Ident(Seq<char>),
    Punct(char),
    Lit(Seq<char>),
    Open(Delim),
    Close(Delim),
}

impl View for Tok {
    type V = TokV;

    open spec fn view(&self) -> TokV {
        match self {
            Tok::Ident(s) => TokV::Ident(s@),
            Tok::Punct(c) => TokV::Punct(*c),
            Tok::Lit(s) => TokV::Lit(s@),
            Tok::Open(d) => TokV::Open(*d),
            Tok::Close(d) => TokV::Close(*d),
        }
    }
}

/// The values of a sequence of tokens.
pub open spec fn toks(v: Seq<Tok>) -> Seq<TokV> {
    Seq::new(v.len(), |i: int| v[i]@)
}

/// The identifier token spelled `s`.
pub open spec fn id(s: &str) -> TokV {
    TokV::Ident(s@)
}

/// The punctuation token `c`.
pub open spec fn pc(c: char) -> TokV {
    TokV::Punct(c)
}

/// `::`
pub open spec fn colon2() -> Seq<TokV> {
    seq![TokV::Punct(':'), TokV::Punct(':')]
}

impl Tok {
    /// A copy of the token.
    pub fn copy(&self) -> (r: Tok)
        ensures
            r@ == self@,
    {
        match self {
            Tok::Ident(s) => Tok::Ident(s.clone()),
            Tok::Punct(c) => Tok::Punct(*c),
            Tok::Lit(s) => Tok::Lit(s.clone()),
            Tok::Open(d) => Tok::Open(*d),
            Tok::Close(d) => Tok::Close(*d),
        }
    }

    /// The identifier token spelled `s`.
    pub fn ident(s: &str) -> (r: Tok)
        ensures
            r@ == TokV::Ident(s@),
    {
        Tok::Ident(String::from_str(s))
    }

    /// Whether the token is the identifier `s`.
    pub fn is_ident(&self, s: &str) -> (b: bool)
        ensures
            b == (self@ == TokV::Ident(s@)),
    {
        match self {
            Tok::Ident(x) => string_is(x, s),
            _ => false,
        }
    }

    /// Whether the token is an identifier.
    pub fn is_any_ident(&self) -> (b: bool)
        ensures
            b == (self@ is Ident),
    {
        match self {
            Tok::Ident(_) => true,
            _ => false,
        }
    }

    /// Whether the token is the punctuation `c`.
    pub fn is_punct(&self, c: char) -> (b: bool)
        ensures
            b == (self@ == TokV::Punct(c)),
    {
        match self {
            Tok::Punct(x) => *x == c,
            _ => false,
        }
    }

    /// Whether two tokens are the same.
    pub fn same(&self, other: &Tok) -> (b: bool)
        ensures
            b == (self@ == other@),
    {
        match (self, other) {
            (Tok::Ident(a), Tok::Ident(b)) => a.eq(b),
            (Tok::Lit(a), Tok::Lit(b)) => a.eq(b),
            (Tok::Punct(a), Tok::Punct(b)) => *a == *b,
            (Tok::Open(a), Tok::Open(b)) => *a == *b,
            (Tok::Close(a), Tok::Close(b)) => *a == *b,
            _ => false,
        }
    }
}

/// Whether the string `x` is spelled `s`.
pub fn string_is(x: &String, s: &str) -> (b: bool)
    ensures
        b == (x@ == s@),
{
    let y = String::from_str(s);
    x.eq(&y)
}

/// Whether two token sequences are the same.
pub fn toks_equal(a: &Vec<Tok>, b: &Vec<Tok>) -> (r: bool)
    ensures
        r == (toks(a@) == toks(b@)),
{
    if a.len() != b.len() {
        proof {
            assert(toks(a@).len() != toks(b@).len());
        }
        return false;
    }
    let mut i: usize = 0;
    while i < a.len()
        invariant
            a.len() == b.len(),
            i <= a.len(),
            forall|j: int| 0 <= j < i ==> a@[j]@ == b@[j]@,
        decreases a.len() - i,
    {
        if !a[i].same(&b[i]) {
            proof {
                assert(toks(a@)[i as int] != toks(b@)[i as int]);
            }
            return false;
        }
        i = i + 1;
    }
    proof {
        assert(toks(a@) =~= toks(b@));
    }
    true
}

/// Appends copies of the tokens of `src` to `dst`.
pub fn extend_toks(dst: &mut Vec<Tok>, src: &Vec<Tok>)
    ensures
        toks(final(dst)@) == toks(old(dst)@) + toks(src@),
{
    let ghost start = toks(dst@);
    let mut i: usize = 0;
    while i < src.len()
        invariant
            i <= src.len(),
            toks(dst@) == start + toks(src@).subrange(0, i as int),
        decreases src.len() - i,
    {
        let t = src[i].copy();
        let ghost prev = dst@;
        dst.push(t);
        proof {
            assert(toks(dst@) =~= toks(prev).push(src@[i as int]@));
            assert(toks(src@).subrange(0, i + 1) =~= toks(src@).subrange(0, i as int).push(src@[i as int]@));
            assert(toks(dst@) =~= start + toks(src@).subrange(0, i + 1));
        }
        i = i + 1;
    }
    proof {
        assert(toks(src@).subrange(0, src@.len() as int) =~= toks(src@));
    }
}

/// Appends the identifier `s` to `dst`.
pub fn push_ident(dst: &mut Vec<Tok>, s: &str)
    ensures
        toks(final(dst)@) == toks(old(dst)@).push(TokV::Ident(s@)),
{
    dst.push(Tok::ident(s));
    proof {
        assert(toks(dst@) =~= toks(old(dst)@).push(TokV::Ident(s@)));
    }
}

/// Appends the punctuation `c` to `dst`.
pub fn push_punct(dst: &mut Vec<Tok>, c: char)
    ensures
        toks(final(dst)@) == toks(old(dst)@).push(TokV::Punct(c)),
{
    dst.push(Tok::Punct(c));
    proof {
        assert(toks(dst@) =~= toks(old(dst)@).push(TokV::Punct(c)));
    }
}

/// Appends the token `t` to `dst`.
pub fn push_tok(dst: &mut Vec<Tok>, t: Tok)
    ensures
        toks(final(dst)@) == toks(old(dst)@).push(t@),
{
    let ghost tv = t@;
    dst.push(t);
    proof {
        assert(toks(dst@) =~= toks(old(dst)@).push(tv));
    }
}

/// A copy of a token sequence.
pub fn copy_toks(src: &Vec<Tok>) -> (r: Vec<Tok>)
    ensures
        toks(r@) == toks(src@),
{
    let mut r: Vec<Tok> = Vec::new();
    proof {
        assert(toks(r@) =~= Seq::<TokV>::empty());
    }
    extend_toks(&mut r, src);
    proof {
        assert(toks(r@) =~= toks(src@));
    }
    r
}


/// The token sequences one after the other.
pub open spec fn concat(ps: Seq<Seq<TokV>>) -> Seq<TokV>
    decreases ps.len(),
{
    if ps.len() == 0 {
        Seq::empty()
    } else {
        concat(ps.drop_last()) + ps.last()
    }
}

/// Whether `x` occurs as a contiguous part of `t`.
pub open spec fn is_infix(x: Seq<TokV>, t: Seq<TokV>) -> bool {
    exists|i: int| 0 <= i && i + x.len() <= t.len() && #[trigger] t.subrange(i, i + x.len()) == x
}

/// A part of a sequence occurs in it with anything added around it.
pub proof fn lemma_infix_within(x: Seq<TokV>, t: Seq<TokV>, a: Seq<TokV>, b: Seq<TokV>)
    requires
        is_infix(x, t),
    ensures
        is_infix(x, a + t + b),
{
    let i = choose|i: int| 0 <= i && i + x.len() <= t.len() && #[trigger] t.subrange(i, i + x.len()) == x;
    let j = a.len() + i;
    assert((a + t + b).subrange(j, j + x.len()) =~= t.subrange(i, i + x.len()));
}

/// Each of the token sequences occurs in their concatenation.
pub proof fn lemma_concat_part(ps: Seq<Seq<TokV>>, k: int)
    requires
        0 <= k < ps.len(),
    ensures
        is_infix(ps[k], concat(ps)),
    decreases ps.len(),
{
    if k == ps.len() - 1 {
        let o = concat(ps.drop_last()).len() as int;
        assert(concat(ps).subrange(o, o + ps[k].len()) =~= ps[k]);
    } else {
        lemma_concat_part(ps.drop_last(), k);
        lemma_infix_within(ps[k], concat(ps.drop_last()), Seq::empty(), ps.last());
        assert(Seq::<TokV>::empty() + concat(ps.drop_last()) + ps.last() =~= concat(ps));
    }
}

/// Why a token stream does not follow an attribute's grammar.
#[derive(Clone, Copy, PartialEq, Eq, Structural, Debug)]
pub enum ParseError {
    /// An identifier was expected.
    ExpectedIdent,
    /// The punctuation `c` was expected.
    ExpectedPunct(char),
    /// A type was expected.
    ExpectedType,
    /// A parenthesized group was expected.
    ExpectedParen,
    /// The attribute takes its arguments in parentheses.
    ExpectedList,
    /// Tokens are left over where the attribute should end.
    UnexpectedToken,
    /// A comma was expected between two arguments.
    ExpectedComma,
    /// The message kind is not one of `exec`, `query`, `instantiate`, `migrate`, `reply`.
    InvalidMsgType,
    /// The argument of the contract macro is not `module`.
    ExpectedModule,
    /// The argument of the entry points macro is not `generics<..>`.
    ExpectedGenerics,
    /// An entry of `custom(..)` is not `msg` or `query`.
    InvalidCustom,
    /// A custom type is neither `msg` nor `query`.
    InvalidCustomType,
    /// The overridden entry point is not one of the known ones.
    InvalidEntryPoint,
    /// An option of `data(..)` is not `raw`, `opt` or `instantiate`.
    InvalidDataOption,
    /// The option of `payload(..)` is not `raw`.
    InvalidPayloadOption,
}

/// Whether position `i` holds an identifier.
pub open spec fn ident_at(t: Seq<TokV>, i: int) -> bool {
    0 <= i < t.len() && t[i] is Ident
}

/// Whether position `i` holds the identifier `s`.
pub open spec fn ident_is(t: Seq<TokV>, i: int, s: Seq<char>) -> bool {
    0 <= i < t.len() && t[i] == TokV::Ident(s)
}

/// Whether position `i` holds the punctuation `c`.
pub open spec fn punct_at(t: Seq<TokV>, i: int, c: char) -> bool {
    0 <= i < t.len() && t[i] == TokV::Punct(c)
}

/// Whether position `i` holds a punctuation.
pub open spec fn any_punct_at(t: Seq<TokV>, i: int) -> bool {
    0 <= i < t.len() && t[i] is Punct
}

/// Whether position `i` holds the identifier `s`.
pub fn ident_is_exec(t: &Vec<Tok>, i: usize, s: &str) -> (b: bool)
    ensures
        b == ident_is(toks(t@), i as int, s@),
{
    if i < t.len() {
        t[i].is_ident(s)
    } else {
        false
    }
}

/// Whether position `i` holds an identifier.
pub fn ident_at_exec(t: &Vec<Tok>, i: usize) -> (b: bool)
    ensures
        b == ident_at(toks(t@), i as int),
{
    if i < t.len() {
        t[i].is_any_ident()
    } else {
        false
    }
}

/// Whether position `i` holds the punctuation `c`.
pub fn punct_at_exec(t: &Vec<Tok>, i: usize, c: char) -> (b: bool)
    ensures
        b == punct_at(toks(t@), i as int, c),
{
    if i < t.len() {
        t[i].is_punct(c)
    } else {
        false
    }
}

/// Whether position `i` holds a punctuation.
pub fn any_punct_at_exec(t: &Vec<Tok>, i: usize) -> (b: bool)
    ensures
        b == any_punct_at(toks(t@), i as int),
{
    if i < t.len() {
        match &t[i] {
            Tok::Punct(_) => true,
            _ => false,
        }
    } else {
        false
    }
}

/// The tokens at positions `lo .. hi`.
pub fn slice_toks(t: &Vec<Tok>, lo: usize, hi: usize) -> (r: Vec<Tok>)
    requires
        lo <= hi <= t.len(),
    ensures
        toks(r@) == toks(t@).subrange(lo as int, hi as int),
{
    let mut r: Vec<Tok> = Vec::new();
    let mut i: usize = lo;
    while i < hi
        invariant
            lo <= i <= hi,
            hi <= t.len(),
            toks(r@) == toks(t@).subrange(lo as int, i as int),
        decreases hi - i,
    {
        let ghost prev = r@;
        r.push(t[i].copy());
        assert(toks(r@) =~= toks(prev).push(t@[i as int]@));
        assert(toks(t@).subrange(lo as int, i + 1) =~= toks(t@).subrange(lo as int, i as int).push(toks(t@)[i as int]));
        i = i + 1;
    }
    r
}

} // verus!
