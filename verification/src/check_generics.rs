//! Which generics of a contract or interface its message signatures use.
use vstd::prelude::*;
use crate::grammar;
use crate::tokens::{self, Tok, TokV};

verus! {

/// A generic parameter of an item.
#[derive(Debug)]
pub enum GenericParam {
    Type(String),
    Lifetime(String),
    Const(String),
}

pub enum GenericParamV {
    Type(Seq<char>),
    Lifetime(Seq<char>),
    Const(Seq<char>),
}

impl View for GenericParam {
    type V = GenericParamV;

    open spec fn view(&self) -> GenericParamV {
        match self {
            GenericParam::Type(s) => GenericParamV::Type(s@),
            GenericParam::Lifetime(s) => GenericParamV::Lifetime(s@),
            GenericParam::Const(s) => GenericParamV::Const(s@),
        }
    }
}

/// A generic argument given to an item: a type written as a path, or anything else.
#[derive(Debug)]
pub enum GenericArgument {
    TypePath(Vec<Tok>),
    Other(Vec<Tok>),
}

pub enum GenericArgumentV {
    TypePath(Seq<TokV>),
    Other(Seq<TokV>),
}

impl View for GenericArgument {
    type V = GenericArgumentV;

    open spec fn view(&self) -> GenericArgumentV {
        match self {
            GenericArgument::TypePath(t) => GenericArgumentV::TypePath(tokens::toks(t@)),
            GenericArgument::Other(t) => GenericArgumentV::Other(tokens::toks(t@)),
        }
    }
}

/// Provides method extracting the path naming a generic.
pub trait GetPath: View + Sized {
    /// The path naming the generic, if it is named by one.
    spec fn path_of(&self) -> Option<Seq<TokV>>;

    fn get_path(&self) -> (r: Option<Vec<Tok>>)
        ensures
            match r {
                Some(p) => self.path_of() == Some(tokens::toks(p@)),
                None => self.path_of() is None,
            },
    ;

    /// Whether two generics are the same.
    fn same(&self, other: &Self) -> (b: bool)
        ensures
            b == (self@ == other@),
    ;
}

impl GetPath for GenericParam {
    /// A type parameter is named by its identifier; lifetimes and constants
    /// are named by no path.
    open spec fn path_of(&self) -> Option<Seq<TokV>> {
        match self {
            GenericParam::Type(s) => Some(seq![TokV::Ident(s@)]),
            _ => None,
        }
    }

    fn get_path(&self) -> (r: Option<Vec<Tok>>) {
        match self {
            GenericParam::Type(s) => {
                let mut v: Vec<Tok> = Vec::new();
                tokens::push_tok(&mut v, Tok::Ident(s.clone()));
                assert(tokens::toks(v@) =~= seq![TokV::Ident(s@)]);
                Some(v)
            },
            _ => None,
        }
    }

    fn same(&self, other: &Self) -> (b: bool) {
        match (self, other) {
            (GenericParam::Type(a), GenericParam::Type(b)) => a.eq(b),
            (GenericParam::Lifetime(a), GenericParam::Lifetime(b)) => a.eq(b),
            (GenericParam::Const(a), GenericParam::Const(b)) => a.eq(b),
            _ => false,
        }
    }
}

impl GetPath for GenericArgument {
    /// A type argument written as a path is named by that path.
    open spec fn path_of(&self) -> Option<Seq<TokV>> {
        match self {
            GenericArgument::TypePath(t) => Some(tokens::toks(t@)),
            _ => None,
        }
    }

    fn get_path(&self) -> (r: Option<Vec<Tok>>) {
        match self {
            GenericArgument::TypePath(t) => Some(tokens::copy_toks(t)),
            _ => None,
        }
    }

    fn same(&self, other: &Self) -> (b: bool) {
        match (self, other) {
            (GenericArgument::TypePath(a), GenericArgument::TypePath(b)) => tokens::toks_equal(a, b),
            (GenericArgument::Other(a), GenericArgument::Other(b)) => tokens::toks_equal(a, b),
            _ => false,
        }
    }
}

impl GetPath for String {
    /// A name (of an associated type, or an identifier) is the path of one segment.
    open spec fn path_of(&self) -> Option<Seq<TokV>> {
        Some(seq![TokV::Ident(self@)])
    }

    fn get_path(&self) -> (r: Option<Vec<Tok>>) {
        let mut v: Vec<Tok> = Vec::new();
        tokens::push_tok(&mut v, Tok::Ident(self.clone()));
        assert(tokens::toks(v@) =~= seq![TokV::Ident(self@)]);
        Some(v)
    }

    fn same(&self, other: &Self) -> (b: bool) {
        self.eq(other)
    }
}

/// Traverses the paths of method signatures and records which generics they use.
#[derive(Debug)]
pub struct CheckGenerics<'g, G> {
    generics: &'g Vec<G>,
    used: Vec<usize>,
}

/// The position of the first generic named by path `p`.
pub open spec fn find_generic<G: GetPath>(gs: Seq<G>, p: Seq<TokV>) -> Option<int>
    decreases gs.len(),
{
    if gs.len() == 0 {
        None
    } else {
        match find_generic(gs.drop_last(), p) {
            Some(i) => Some(i),
            None => if gs.last().path_of() == Some(p) {
                Some(gs.len() - 1)
            } else {
                None
            },
        }
    }
}

/// Whether a generic equal to `g` is among the used ones.
pub open spec fn is_used<G: View>(gs: Seq<G>, used: Seq<usize>, g: G::V) -> bool {
    exists|k: int| 0 <= k < used.len() && gs[(#[trigger] used[k]) as int]@ == g
}

/// The used generics after path `p` is visited.
pub open spec fn visit<G: GetPath>(gs: Seq<G>, used: Seq<usize>, p: Seq<TokV>) -> Seq<usize> {
    match find_generic(gs, p) {
        Some(i) => if is_used(gs, used, gs[i]@) {
            used
        } else {
            used.push(i as usize)
        },
        None => used,
    }
}


/// Whether a path starts at position `i` of the type `t`: an identifier
/// that continues no other path and names no lifetime.
pub open spec fn path_starts_at(t: Seq<TokV>, i: int) -> bool {
    &&& tokens::ident_at(t, i)
    &&& !(i > 0 && (t[i - 1] == tokens::pc(':') || t[i - 1] == tokens::pc('\'')))
    &&& grammar::p_path(t, i) is Ok
}

/// The paths written in the first `n` tokens of the type `t`, in order: a
/// path comes before the paths inside its generic arguments.
pub open spec fn type_paths(t: Seq<TokV>, n: int) -> Seq<Seq<TokV>>
    decreases n,
{
    if n <= 0 {
        Seq::empty()
    } else if path_starts_at(t, n - 1) {
        match grammar::p_path(t, n - 1) {
            Ok(p) => type_paths(t, n - 1).push(t.subrange(n - 1, p.end)),
            Err(_) => type_paths(t, n - 1),
        }
    } else {
        type_paths(t, n - 1)
    }
}

/// The used generics after the paths `ps` are visited in order.
pub open spec fn visit_all<G: GetPath>(gs: Seq<G>, used: Seq<usize>, ps: Seq<Seq<TokV>>) -> Seq<usize>
    decreases ps.len(),
{
    if ps.len() == 0 {
        used
    } else {
        visit(gs, visit_all(gs, used, ps.drop_last()), ps.last())
    }
}

/// The generics not equal to a used one, in their order.
pub open spec fn unused_of<G: View>(gs: Seq<G>, all: Seq<G>, used: Seq<usize>) -> Seq<G>
    decreases gs.len(),
{
    if gs.len() == 0 {
        Seq::empty()
    } else if is_used(all, used, gs.last()@) {
        unused_of(gs.drop_last(), all, used)
    } else {
        unused_of(gs.drop_last(), all, used).push(gs.last())
    }
}

proof fn lemma_find_generic_prefix<G: GetPath>(s: Seq<G>, p: Seq<TokV>, n: int)
    requires
        0 <= n <= s.len(),
        find_generic(s.take(n), p) is Some,
    ensures
        find_generic(s, p) == find_generic(s.take(n), p),
    decreases s.len(),
{
    if n == s.len() {
        assert(s.take(n) =~= s);
    } else {
        assert(s.drop_last().take(n) =~= s.take(n));
        lemma_find_generic_prefix(s.drop_last(), p, n);
    }
}

pub proof fn lemma_find_generic<G: GetPath>(s: Seq<G>, p: Seq<TokV>)
    ensures
        find_generic(s, p) matches Some(i) ==> 0 <= i < s.len() && s[i].path_of() == Some(p),
        find_generic(s, p) is None ==> forall|i: int| 0 <= i < s.len() ==> (#[trigger] s[i]).path_of() != Some(p),
    decreases s.len(),
{
    if s.len() > 0 {
        lemma_find_generic(s.drop_last(), p);
        assert forall|i: int| 0 <= i < s.len() - 1 implies s.drop_last()[i] == s[i] by {}
    }
}

impl<'g, G: GetPath> CheckGenerics<'g, G> {
    /// The generics that were found used, as positions among all the generics.
    pub closed spec fn used_view(&self) -> Seq<usize> {
        self.used@
    }

    /// All the generics.
    pub closed spec fn generics_view(&self) -> Seq<G> {
        self.generics@
    }

    /// The used positions name generics and no two of them are equal.
    pub closed spec fn wf(&self) -> bool {
        &&& forall|k: int| 0 <= k < self.used@.len() ==> (#[trigger] self.used@[k]) < self.generics@.len()
        &&& forall|a: int, b: int|
            0 <= a < self.used@.len() && 0 <= b < self.used@.len() && a != b ==> self.generics@[(#[trigger] self.used@[a]) as int]@
                != self.generics@[(#[trigger] self.used@[b]) as int]@
    }

    /// Starts with no generic used.
    pub fn new(generics: &'g Vec<G>) -> (r: Self)
        ensures
            r.wf(),
            r.generics_view() == generics@,
            r.used_view() == Seq::<usize>::empty(),
    {
        CheckGenerics { generics, used: Vec::new() }
    }

    /// Records the generic named by path `p` as used, unless an equal one already is.
    pub fn visit_path(&mut self, p: &Vec<Tok>)
        requires
            old(self).wf(),
        ensures
            final(self).wf(),
            final(self).generics_view() == old(self).generics_view(),
            final(self).used_view() == visit(old(self).generics_view(), old(self).used_view(), tokens::toks(p@)),
    {
        let ghost gs = self.generics@;
        let ghost pv = tokens::toks(p@);
        let found = match self.find(p) {
            Some(i) => i,
            None => {
                return;
            },
        };
        let mut k: usize = 0;
        while k < self.used.len()
            invariant
                self.wf(),
                gs == self.generics@,
                self.used@ == old(self).used@,
                self.generics@ == old(self).generics@,
                find_generic(gs, tokens::toks(p@)) == Some(found as int),
                found < gs.len(),
                k <= self.used.len(),
                forall|q: int| 0 <= q < k ==> gs[(#[trigger] self.used@[q]) as int]@ != gs[found as int]@,
            decreases self.used.len() - k,
        {
            let u = self.used[k];
            if self.generics[u].same(&self.generics[found]) {
                assert(is_used(gs, self.used@, gs[found as int]@));
                return;
            }
            k = k + 1;
        }
        assert(!is_used(gs, self.used@, gs[found as int]@));
        self.used.push(found);
        proof {
            assert forall|a: int, b: int|
                0 <= a < self.used@.len() && 0 <= b < self.used@.len() && a != b implies self.generics@[(#[trigger] self.used@[a]) as int]@
                    != self.generics@[(#[trigger] self.used@[b]) as int]@ by {
                if a < self.used@.len() - 1 && b < self.used@.len() - 1 {
                    assert(self.used@[a] == old(self).used@[a]);
                    assert(self.used@[b] == old(self).used@[b]);
                } else if a < self.used@.len() - 1 {
                    assert(self.used@[a] == old(self).used@[a]);
                } else {
                    assert(self.used@[b] == old(self).used@[b]);
                }
            }
        }
    }

    /// Visits every path written in the type `t`, the paths inside the
    /// generic arguments of a path after that path.
    pub fn visit_type(&mut self, t: &Vec<Tok>)
        requires
            old(self).wf(),
        ensures
            final(self).wf(),
            final(self).generics_view() == old(self).generics_view(),
            final(self).used_view() == visit_all(
                old(self).generics_view(),
                old(self).used_view(),
                type_paths(tokens::toks(t@), t@.len() as int),
            ),
    {
        let ghost tv = tokens::toks(t@);
        let mut i: usize = 0;
        while i < t.len()
            invariant
                self.wf(),
                tv == tokens::toks(t@),
                i <= t.len(),
                self.generics_view() == old(self).generics_view(),
                self.used_view() == visit_all(old(self).generics_view(), old(self).used_view(), type_paths(tv, i as int)),
            decreases t.len() - i,
        {
            let ghost before = type_paths(tv, i as int);
            let starts = tokens::ident_at_exec(t, i) && !(i > 0 && (t[i - 1].is_punct(':') || t[i - 1].is_punct('\'')));
            if starts {
                match grammar::parse_path(t, i) {
                    Ok(p) => {
                        let q = tokens::slice_toks(t, i, p.end);
                        self.visit_path(&q);
                        let ghost x = tv.subrange(i as int, p.end as int);
                        assert(type_paths(tv, i + 1) == before.push(x));
                        assert(before.push(x).drop_last() =~= before);
                    },
                    Err(_) => {
                        assert(type_paths(tv, i + 1) == before);
                    },
                }
            } else {
                assert(!path_starts_at(tv, i as int));
                assert(type_paths(tv, i + 1) == before);
            }
            i = i + 1;
        }
    }

    /// The position of the first generic named by path `p`.
    fn find(&self, p: &Vec<Tok>) -> (r: Option<usize>)
        ensures
            match r {
                Some(i) => find_generic(self.generics@, tokens::toks(p@)) == Some(i as int) && i < self.generics.len(),
                None => find_generic(self.generics@, tokens::toks(p@)) is None,
            },
    {
        let ghost gs = self.generics@;
        let ghost pv = tokens::toks(p@);
        let mut i: usize = 0;
        while i < self.generics.len()
            invariant
                gs == self.generics@,
                pv == tokens::toks(p@),
                i <= self.generics.len(),
                find_generic(gs.take(i as int), pv) is None,
            decreases self.generics.len() - i,
        {
            assert(gs.take(i + 1).drop_last() =~= gs.take(i as int));
            let named = match self.generics[i].get_path() {
                Some(q) => tokens::toks_equal(&q, p),
                None => false,
            };
            if named {
                assert(gs.take(i + 1).last().path_of() == Some(pv));
                proof {
                    lemma_find_generic_prefix(gs, pv, i + 1);
                }
                return Some(i);
            }
            i = i + 1;
        }
        assert(gs.take(i as int) =~= gs);
        None
    }

    /// The used generics, in the order in which they were found.
    pub fn used(self) -> (r: Vec<&'g G>)
        requires
            self.wf(),
        ensures
            r@.len() == self.used_view().len(),
            forall|k: int| 0 <= k < r@.len() ==> *(#[trigger] r@[k]) == self.generics_view()[self.used_view()[k] as int],
    {
        let mut r: Vec<&'g G> = Vec::new();
        let mut k: usize = 0;
        while k < self.used.len()
            invariant
                self.wf(),
                k <= self.used.len(),
                r@.len() == k,
                forall|q: int| 0 <= q < k ==> *(#[trigger] r@[q]) == self.generics@[self.used@[q] as int],
            decreases self.used.len() - k,
        {
            let u = self.used[k];
            r.push(&self.generics[u]);
            k = k + 1;
        }
        r
    }

    /// Returns split between used and unused generics: the used ones in the
    /// order in which they were found, and the generics equal to none of
    /// them in their order.
    pub fn used_unused(self) -> (r: (Vec<&'g G>, Vec<&'g G>))
        requires
            self.wf(),
        ensures
            r.0@.len() == self.used_view().len(),
            forall|k: int| 0 <= k < r.0@.len() ==> *(#[trigger] r.0@[k]) == self.generics_view()[self.used_view()[k] as int],
            r.1@.len() == unused_of(self.generics_view(), self.generics_view(), self.used_view()).len(),
            forall|k: int|
                0 <= k < r.1@.len() ==> *(#[trigger] r.1@[k]) == unused_of(
                    self.generics_view(),
                    self.generics_view(),
                    self.used_view(),
                )[k],
    {
        let ghost gs = self.generics@;
        let ghost us = self.used@;
        let mut unused: Vec<&'g G> = Vec::new();
        let mut i: usize = 0;
        while i < self.generics.len()
            invariant
                gs == self.generics@,
                us == self.used@,
                self.wf(),
                i <= self.generics.len(),
                unused@.len() == unused_of(gs.take(i as int), gs, us).len(),
                forall|k: int| 0 <= k < unused@.len() ==> *(#[trigger] unused@[k]) == unused_of(gs.take(i as int), gs, us)[k],
            decreases self.generics.len() - i,
        {
            assert(gs.take(i + 1).drop_last() =~= gs.take(i as int));
            assert(gs.take(i + 1).last() == gs[i as int]);
            let mut k: usize = 0;
            let mut hit = false;
            while k < self.used.len()
                invariant
                    gs == self.generics@,
                    us == self.used@,
                    self.wf(),
                    i < self.generics.len(),
                    k <= self.used.len(),
                    hit == exists|q: int| 0 <= q < k && gs[(#[trigger] us[q]) as int]@ == gs[i as int]@,
                decreases self.used.len() - k,
            {
                let u = self.used[k];
                if self.generics[u].same(&self.generics[i]) {
                    hit = true;
                }
                k = k + 1;
            }
            if !hit {
                unused.push(&self.generics[i]);
            }
            i = i + 1;
        }
        assert(gs.take(i as int) =~= gs);
        let used = self.used();
        (used, unused)
    }
}

/// Whether one of the paths `ps` names generic `i` first.
pub open spec fn named_by_some<G: GetPath>(gs: Seq<G>, ps: Seq<Seq<TokV>>, i: int) -> bool {
    exists|j: int| 0 <= j < ps.len() && find_generic(gs, #[trigger] ps[j]) == Some(i)
}

/// Whether a path names generic `x` first before every path that names
/// generic `y` first.
pub open spec fn matched_before<G: GetPath>(gs: Seq<G>, ps: Seq<Seq<TokV>>, x: int, y: int) -> bool {
    exists|ja: int|
        0 <= ja < ps.len() && find_generic(gs, #[trigger] ps[ja]) == Some(x) && forall|jb: int|
            0 <= jb < ps.len() && find_generic(gs, #[trigger] ps[jb]) == Some(y) ==> ja < jb
}

proof fn lemma_matched_before_extend<G: GetPath>(gs: Seq<G>, ps: Seq<Seq<TokV>>, x: int, y: int)
    requires
        ps.len() > 0,
        matched_before(gs, ps.drop_last(), x, y),
    ensures
        matched_before(gs, ps, x, y),
{
    let pre = ps.drop_last();
    let ja = choose|ja: int|
        0 <= ja < pre.len() && find_generic(gs, #[trigger] pre[ja]) == Some(x) && forall|jb: int|
            0 <= jb < pre.len() && find_generic(gs, #[trigger] pre[jb]) == Some(y) ==> ja < jb;
    assert(ps[ja] == pre[ja]);
    assert forall|jb: int| 0 <= jb < ps.len() && find_generic(gs, #[trigger] ps[jb]) == Some(y) implies ja < jb by {
        if jb < pre.len() {
            assert(ps[jb] == pre[jb]);
        }
    }
}

/// After any sequence of visited paths, starting from no generic used: the
/// used generics are generics, no two of them are equal, each is the first
/// generic named by one of the paths, the first generic named by each path
/// is among them, and they come in the order of the first paths naming them.
pub proof fn used_generics_law<G: GetPath>(gs: Seq<G>, ps: Seq<Seq<TokV>>)
    requires
        gs.len() <= usize::MAX,
    ensures
        forall|k: int| 0 <= k < visit_all(gs, Seq::empty(), ps).len() ==> (#[trigger] visit_all(gs, Seq::empty(), ps)[k]) < gs.len(),
        forall|a: int, b: int|
            0 <= a < visit_all(gs, Seq::empty(), ps).len() && 0 <= b < visit_all(gs, Seq::empty(), ps).len() && a != b ==> gs[(#[trigger] visit_all(gs, Seq::empty(), ps)[a]) as int]@
                != gs[(#[trigger] visit_all(gs, Seq::empty(), ps)[b]) as int]@,
        forall|k: int|
            0 <= k < visit_all(gs, Seq::empty(), ps).len() ==> named_by_some(gs, ps, (#[trigger] visit_all(gs, Seq::empty(), ps)[k]) as int),
        forall|j: int|
            0 <= j < ps.len() && #[trigger] find_generic(gs, ps[j]) is Some ==> is_used(
                gs,
                visit_all(gs, Seq::empty(), ps),
                gs[find_generic(gs, ps[j])->0]@,
            ),
        forall|a: int, b: int|
            0 <= a < b < visit_all(gs, Seq::empty(), ps).len() ==> matched_before(
                gs,
                ps,
                (#[trigger] visit_all(gs, Seq::empty(), ps)[a]) as int,
                (#[trigger] visit_all(gs, Seq::empty(), ps)[b]) as int,
            ),
    decreases ps.len(),
{
    if ps.len() > 0 {
        let pre = ps.drop_last();
        used_generics_law(gs, pre);
        let u0p = visit_all(gs, Seq::empty(), pre);
        assert forall|a: int, b: int| 0 <= a < b < u0p.len() implies matched_before(gs, ps, u0p[a] as int, u0p[b] as int) by {
            lemma_matched_before_extend(gs, ps, u0p[a] as int, u0p[b] as int);
        }
        let u0 = visit_all(gs, Seq::empty(), pre);
        let p = ps.last();
        let u = visit_all(gs, Seq::empty(), ps);
        assert(u == visit(gs, u0, p));
        lemma_find_generic(gs, p);
        assert forall|j: int| 0 <= j < pre.len() implies pre[j] == ps[j] by {}
        match find_generic(gs, p) {
            Some(i) => {
                if !is_used(gs, u0, gs[i]@) {
                    assert(u == u0.push(i as usize));
                    assert forall|k: int| 0 <= k < u.len() implies named_by_some(gs, ps, u[k] as int) by {
                        if k < u0.len() {
                            assert(u[k] == u0[k]);
                            let j = choose|j: int| 0 <= j < pre.len() && find_generic(gs, #[trigger] pre[j]) == Some(u0[k] as int);
                            assert(ps[j] == pre[j]);
                        } else {
                            assert(u[k] as int == i);
                            assert(ps[ps.len() - 1] == p);
                            assert(find_generic(gs, ps[ps.len() - 1]) == Some(u[k] as int));
                        }
                    }
                    assert forall|j: int| 0 <= j < ps.len() && #[trigger] find_generic(gs, ps[j]) is Some implies is_used(
                        gs,
                        u,
                        gs[find_generic(gs, ps[j])->0]@,
                    ) by {
                        if j < pre.len() {
                            assert(ps[j] == pre[j]);
                            let g = gs[find_generic(gs, ps[j])->0]@;
                            let k = choose|k: int| 0 <= k < u0.len() && gs[(#[trigger] u0[k]) as int]@ == g;
                            assert(u[k] == u0[k]);
                        } else {
                            assert(ps[j] == p);
                            assert(u[u0.len() as int] as int == i);
                            assert(gs[(u[u0.len() as int]) as int]@ == gs[i]@);
                        }
                    }
                    assert forall|a: int, b: int| 0 <= a < b < u.len() implies matched_before(gs, ps, u[a] as int, u[b] as int) by {
                        assert(u[a] == u0[a]);
                        if b < u0.len() {
                            assert(u[b] == u0[b]);
                        } else {
                            assert(u[b] as int == i);
                            let ja = choose|ja: int| 0 <= ja < pre.len() && find_generic(gs, #[trigger] pre[ja]) == Some(u0[a] as int);
                            assert(ps[ja] == pre[ja]);
                            assert forall|jb: int| 0 <= jb < ps.len() && find_generic(gs, #[trigger] ps[jb]) == Some(i) implies ja < jb by {
                                if jb < pre.len() {
                                    assert(ps[jb] == pre[jb]);
                                    assert(find_generic(gs, pre[jb]) is Some);
                                    assert(is_used(gs, u0, gs[i]@));
                                }
                            }
                        }
                    }
                } else {
                    assert(u == u0);
                    assert forall|k: int| 0 <= k < u.len() implies named_by_some(gs, ps, u[k] as int) by {
                        let j = choose|j: int| 0 <= j < pre.len() && find_generic(gs, #[trigger] pre[j]) == Some(u0[k] as int);
                        assert(ps[j] == pre[j]);
                    }
                    assert forall|j: int| 0 <= j < ps.len() && #[trigger] find_generic(gs, ps[j]) is Some implies is_used(
                        gs,
                        u,
                        gs[find_generic(gs, ps[j])->0]@,
                    ) by {
                        if j < pre.len() {
                            assert(ps[j] == pre[j]);
                        } else {
                            assert(ps[j] == p);
                        }
                    }
                }
            },
            None => {
                assert(u == u0);
                assert forall|k: int| 0 <= k < u.len() implies named_by_some(gs, ps, u[k] as int) by {
                    let j = choose|j: int| 0 <= j < pre.len() && find_generic(gs, #[trigger] pre[j]) == Some(u0[k] as int);
                    assert(ps[j] == pre[j]);
                }
                assert forall|j: int| 0 <= j < ps.len() && #[trigger] find_generic(gs, ps[j]) is Some implies is_used(
                    gs,
                    u,
                    gs[find_generic(gs, ps[j])->0]@,
                ) by {
                    if j < pre.len() {
                        assert(ps[j] == pre[j]);
                    } else {
                        assert(ps[j] == p);
                    }
                }
            },
        }
    }
}

/// Used and unused generics split all the generics: every generic is equal
/// to a used one or is among the unused ones, and no unused one is equal to
/// a used one.
pub proof fn used_unused_partition<G: GetPath>(gs: Seq<G>, used: Seq<usize>)
    ensures
        forall|i: int| 0 <= i < gs.len() ==> (is_used(gs, used, (#[trigger] gs[i])@) || unused_of(gs, gs, used).contains(gs[i])),
        forall|j: int| 0 <= j < unused_of(gs, gs, used).len() ==> !is_used(gs, used, (#[trigger] unused_of(gs, gs, used)[j])@),
{
    lemma_unused_of(gs, gs, used);
}

proof fn lemma_unused_of<G: GetPath>(s: Seq<G>, all: Seq<G>, used: Seq<usize>)
    ensures
        forall|i: int| 0 <= i < s.len() ==> (is_used(all, used, (#[trigger] s[i])@) || unused_of(s, all, used).contains(s[i])),
        forall|j: int| 0 <= j < unused_of(s, all, used).len() ==> !is_used(all, used, (#[trigger] unused_of(s, all, used)[j])@),
    decreases s.len(),
{
    if s.len() > 0 {
        let prev = s.drop_last();
        lemma_unused_of(prev, all, used);
        let u = unused_of(s, all, used);
        let up = unused_of(prev, all, used);
        assert forall|i: int| 0 <= i < s.len() implies (is_used(all, used, (#[trigger] s[i])@) || u.contains(s[i])) by {
            if i < s.len() - 1 {
                assert(prev[i] == s[i]);
                if !is_used(all, used, s[i]@) {
                    assert(up.contains(s[i]));
                    let w = choose|w: int| 0 <= w < up.len() && up[w] == s[i];
                    if !is_used(all, used, s.last()@) {
                        assert(u[w] == up[w]);
                    }
                }
            } else {
                if !is_used(all, used, s.last()@) {
                    assert(u[u.len() - 1] == s.last());
                }
            }
        }
    }
}

} // verus!
