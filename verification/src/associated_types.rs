//! Associated types of interfaces and of their implementations.
//!
//! `Error`, `QueryC` and `ExecC` are reserved: they are read by the
//! generators themselves; the other associated types become generics of the
//! generated messages.
use vstd::prelude::*;
use crate::tokens::{self, Tok, TokV};

verus! {

/// Whether the name is reserved.
pub open spec fn is_reserved(s: Seq<char>) -> bool {
    s == "Error"@ || s == "QueryC"@ || s == "ExecC"@
}

/// Whether the name is reserved.
pub fn is_reserved_exec(s: &String) -> (b: bool)
    ensures
        b == is_reserved(s@),
{
    tokens::string_is(s, "Error") || tokens::string_is(s, "QueryC") || tokens::string_is(s, "ExecC")
}

/// An associated type declared in a trait: `type Name: Bounds;`.
#[derive(Debug)]
pub struct TraitItemType {
    pub ident: String,
    /// Whether the declaration has a colon before its bounds.
    pub colon: bool,
    pub bounds: Vec<Tok>,
}

pub struct TraitItemTypeV {
    pub ident: Seq<char>,
    pub colon: bool,
    pub bounds: Seq<TokV>,
}

impl View for TraitItemType {
    type V = TraitItemTypeV;

    open spec fn view(&self) -> TraitItemTypeV {
        TraitItemTypeV { ident: self.ident@, colon: self.colon, bounds: tokens::toks(self.bounds@) }
    }
}

/// The associated types of an interface that are not reserved, in order.
pub struct AssociatedTypes<'a>(pub Vec<&'a TraitItemType>);

/// The positions of the non-reserved associated types among `ts`.
pub open spec fn kept_positions(ts: Seq<Seq<char>>) -> Seq<int>
    decreases ts.len(),
{
    if ts.len() == 0 {
        Seq::empty()
    } else if is_reserved(ts.last()) {
        kept_positions(ts.drop_last())
    } else {
        kept_positions(ts.drop_last()).push(ts.len() - 1)
    }
}

/// `Name : Bounds` (without the colon when the declaration has none).
pub open spec fn where_predicate(t: TraitItemTypeV) -> Seq<TokV> {
    seq![TokV::Ident(t.ident)] + (if t.colon { seq![TokV::Punct(':')] } else { Seq::empty() }) + t.bounds
}

/// `p1 , p2 , ..`
pub open spec fn comma_join(ps: Seq<Seq<TokV>>) -> Seq<TokV>
    decreases ps.len(),
{
    if ps.len() == 0 {
        Seq::empty()
    } else if ps.len() == 1 {
        ps[0]
    } else {
        comma_join(ps.drop_last()) + seq![TokV::Punct(',')] + ps.last()
    }
}

/// Appends `p1 , p2 , ..`, the token sequences of `parts` separated by commas.
pub fn push_comma_joined(dst: &mut Vec<Tok>, parts: &Vec<Vec<Tok>>)
    ensures
        tokens::toks(final(dst)@) == tokens::toks(old(dst)@) + comma_join(crate::parser::toks2(parts@)),
{
    let ghost start = tokens::toks(dst@);
    let ghost ps = crate::parser::toks2(parts@);
    let mut k: usize = 0;
    assert(ps.take(0) =~= Seq::<Seq<TokV>>::empty());
    assert(tokens::toks(dst@) =~= start + comma_join(ps.take(0)));
    while k < parts.len()
        invariant
            ps == crate::parser::toks2(parts@),
            k <= parts.len(),
            tokens::toks(dst@) == start + comma_join(ps.take(k as int)),
        decreases parts.len() - k,
    {
        if k > 0 {
            tokens::push_punct(dst, ',');
        }
        tokens::extend_toks(dst, &parts[k]);
        assert(ps.take(k + 1).drop_last() =~= ps.take(k as int));
        assert(ps.take(k + 1).last() == tokens::toks(parts@[k as int]@));
        assert(tokens::toks(dst@) =~= start + comma_join(ps.take(k + 1)));
        k = k + 1;
    }
    assert(ps.take(k as int) =~= ps);
}

/// `type Name = Name ;`
pub open spec fn type_definition(name: Seq<char>) -> Seq<TokV> {
    seq![TokV::Ident("type"@), TokV::Ident(name), TokV::Punct('='), TokV::Ident(name), TokV::Punct(';')]
}

/// `type Name ;`
pub open spec fn type_declaration(name: Seq<char>) -> Seq<TokV> {
    seq![TokV::Ident("type"@), TokV::Ident(name), TokV::Punct(';')]
}

/// `ContractT : Trait` followed, when there are associated types, by
/// `< N1 = N1 , N2 = N2 , .. >`.
pub open spec fn contract_predicate(trait_name: Seq<char>, names: Seq<Seq<char>>) -> Seq<TokV> {
    let base = seq![TokV::Ident("ContractT"@), TokV::Punct(':'), TokV::Ident(trait_name)];
    if names.len() == 0 {
        base
    } else {
        base + seq![TokV::Punct('<')] + bindings(names) + seq![TokV::Punct('>')]
    }
}

/// `N1 = N1 , N2 = N2 , ..` each followed by a comma.
pub open spec fn bindings(names: Seq<Seq<char>>) -> Seq<TokV>
    decreases names.len(),
{
    if names.len() == 0 {
        Seq::empty()
    } else {
        bindings(names.drop_last()) + seq![
            TokV::Ident(names.last()),
            TokV::Punct('='),
            TokV::Ident(names.last()),
            TokV::Punct(','),
        ]
    }
}

impl<'a> AssociatedTypes<'a> {
    /// The view: the kept associated types, in order.
    pub open spec fn types(&self) -> Seq<TraitItemTypeV> {
        Seq::new(self.0@.len(), |i: int| self.0@[i]@)
    }

    /// The names of the kept associated types.
    pub open spec fn names(&self) -> Seq<Seq<char>> {
        Seq::new(self.0@.len(), |i: int| self.0@[i].ident@)
    }

    /// The associated types among `items` whose names are not reserved, in order.
    pub fn new(items: &'a Vec<TraitItemType>) -> (r: AssociatedTypes<'a>)
        ensures
            r.types() == Seq::new(
                kept_positions(Seq::new(items@.len(), |i: int| items@[i].ident@)).len(),
                |k: int| items@[kept_positions(Seq::new(items@.len(), |i: int| items@[i].ident@))[k]]@,
            ),
    {
        let ghost names = Seq::new(items@.len(), |i: int| items@[i].ident@);
        let mut kept: Vec<&'a TraitItemType> = Vec::new();
        let mut i: usize = 0;
        while i < items.len()
            invariant
                names == Seq::new(items@.len(), |i: int| items@[i].ident@),
                i <= items.len(),
                kept@.len() == kept_positions(names.take(i as int)).len(),
                forall|k: int|
                    0 <= k < kept@.len() ==> (#[trigger] kept@[k])@ == items@[kept_positions(names.take(i as int))[k]]@,
            decreases items.len() - i,
        {
            assert(names.take(i + 1).drop_last() =~= names.take(i as int));
            assert(names.take(i + 1).last() == items@[i as int].ident@);
            if !is_reserved_exec(&items[i].ident) {
                kept.push(&items[i]);
            }
            i = i + 1;
        }
        assert(names.take(i as int) =~= names);
        let r = AssociatedTypes(kept);
        assert(r.types() =~= Seq::new(
            kept_positions(names).len(),
            |k: int| items@[kept_positions(names)[k]]@,
        ));
        r
    }

    /// `Name : Bounds` for each kept associated type.
    pub fn as_where_predicates(&self) -> (r: Vec<Vec<Tok>>)
        ensures
            r@.len() == self.0@.len(),
            forall|k: int| 0 <= k < r@.len() ==> tokens::toks((#[trigger] r@[k])@) == where_predicate(self.0@[k]@),
    {
        let mut r: Vec<Vec<Tok>> = Vec::new();
        let mut k: usize = 0;
        while k < self.0.len()
            invariant
                k <= self.0.len(),
                r@.len() == k,
                forall|q: int| 0 <= q < k ==> tokens::toks((#[trigger] r@[q])@) == where_predicate(self.0@[q]@),
            decreases self.0.len() - k,
        {
            let t = self.0[k];
            let mut p: Vec<Tok> = Vec::new();
            tokens::push_tok(&mut p, Tok::Ident(t.ident.clone()));
            if t.colon {
                tokens::push_punct(&mut p, ':');
            }
            tokens::extend_toks(&mut p, &t.bounds);
            assert(tokens::toks(p@) =~= where_predicate(t@));
            r.push(p);
            k = k + 1;
        }
        r
    }

    /// The kept associated types.
    pub fn as_types_declaration(&self) -> (r: &Vec<&'a TraitItemType>)
        ensures
            r == &self.0,
    {
        &self.0
    }

    /// `where p1 , p2 , ..` over the kept associated types; none when there are none.
    pub fn as_where_clause(&self) -> (r: Option<Vec<Tok>>)
        ensures
            self.0@.len() == 0 ==> r is None,
            self.0@.len() > 0 ==> (r matches Some(w) && tokens::toks(w@) == seq![TokV::Ident("where"@)] + comma_join(
                Seq::new(self.0@.len(), |k: int| where_predicate(self.0@[k]@)),
            )),
    {
        let preds = self.as_where_predicates();
        if preds.len() == 0 {
            return None;
        }
        let ghost ps = Seq::new(self.0@.len(), |k: int| where_predicate(self.0@[k]@));
        let mut w: Vec<Tok> = Vec::new();
        tokens::push_ident(&mut w, "where");
        let mut k: usize = 0;
        assert(ps.take(0) =~= Seq::<Seq<TokV>>::empty());
        while k < preds.len()
            invariant
                preds@.len() == ps.len(),
                forall|q: int| 0 <= q < preds@.len() ==> tokens::toks((#[trigger] preds@[q])@) == ps[q],
                k <= preds.len(),
                tokens::toks(w@) == seq![TokV::Ident("where"@)] + comma_join(ps.take(k as int)),
            decreases preds.len() - k,
        {
            if k > 0 {
                tokens::push_punct(&mut w, ',');
            }
            tokens::extend_toks(&mut w, &preds[k]);
            assert(ps.take(k + 1).drop_last() =~= ps.take(k as int));
            assert(tokens::toks(w@) =~= seq![TokV::Ident("where"@)] + comma_join(ps.take(k + 1)));
            k = k + 1;
        }
        assert(ps.take(k as int) =~= ps);
        Some(w)
    }

    /// The names of the kept associated types.
    pub fn as_names(&self) -> (r: Vec<String>)
        ensures
            r@.len() == self.0@.len(),
            forall|k: int| 0 <= k < r@.len() ==> (#[trigger] r@[k])@ == self.0@[k].ident@,
    {
        let mut r: Vec<String> = Vec::new();
        let mut k: usize = 0;
        while k < self.0.len()
            invariant
                k <= self.0.len(),
                r@.len() == k,
                forall|q: int| 0 <= q < k ==> (#[trigger] r@[q])@ == self.0@[q].ident@,
            decreases self.0.len() - k,
        {
            r.push(self.0[k].ident.clone());
            k = k + 1;
        }
        r
    }

    /// `type Name = Name ;` for each kept associated type.
    pub fn emit_types_definition(&self) -> (r: Vec<Vec<Tok>>)
        ensures
            r@.len() == self.0@.len(),
            forall|k: int| 0 <= k < r@.len() ==> tokens::toks((#[trigger] r@[k])@) == type_definition(self.0@[k].ident@),
    {
        let mut r: Vec<Vec<Tok>> = Vec::new();
        let mut k: usize = 0;
        while k < self.0.len()
            invariant
                k <= self.0.len(),
                r@.len() == k,
                forall|q: int| 0 <= q < k ==> tokens::toks((#[trigger] r@[q])@) == type_definition(self.0@[q].ident@),
            decreases self.0.len() - k,
        {
            let n = &self.0[k].ident;
            let mut d: Vec<Tok> = Vec::new();
            tokens::push_ident(&mut d, "type");
            tokens::push_tok(&mut d, Tok::Ident(n.clone()));
            tokens::push_punct(&mut d, '=');
            tokens::push_tok(&mut d, Tok::Ident(n.clone()));
            tokens::push_punct(&mut d, ';');
            assert(tokens::toks(d@) =~= type_definition(n@));
            r.push(d);
            k = k + 1;
        }
        r
    }

    /// The bound `ContractT: Trait<N1 = N1, ..>` on a contract implementing the interface.
    pub fn emit_contract_predicate(&self, trait_name: &String) -> (r: Vec<Tok>)
        ensures
            tokens::toks(r@) == contract_predicate(trait_name@, self.names()),
    {
        let ghost names = self.names();
        let mut r: Vec<Tok> = Vec::new();
        tokens::push_ident(&mut r, "ContractT");
        tokens::push_punct(&mut r, ':');
        tokens::push_tok(&mut r, Tok::Ident(trait_name.clone()));
        if self.0.len() == 0 {
            assert(tokens::toks(r@) =~= contract_predicate(trait_name@, names));
            return r;
        }
        tokens::push_punct(&mut r, '<');
        let ghost base = tokens::toks(r@);
        let mut k: usize = 0;
        assert(names.take(0) =~= Seq::<Seq<char>>::empty());
        while k < self.0.len()
            invariant
                names == self.names(),
                k <= self.0.len(),
                tokens::toks(r@) == base + bindings(names.take(k as int)),
            decreases self.0.len() - k,
        {
            let n = &self.0[k].ident;
            tokens::push_tok(&mut r, Tok::Ident(n.clone()));
            tokens::push_punct(&mut r, '=');
            tokens::push_tok(&mut r, Tok::Ident(n.clone()));
            tokens::push_punct(&mut r, ',');
            assert(names.take(k + 1).drop_last() =~= names.take(k as int));
            assert(names[k as int] == n@);
            assert(tokens::toks(r@) =~= base + bindings(names.take(k + 1)));
            k = k + 1;
        }
        tokens::push_punct(&mut r, '>');
        assert(names.take(k as int) =~= names);
        assert(tokens::toks(r@) =~= contract_predicate(trait_name@, names));
        r
    }
}

/// An associated type defined in an implementation: `type Name = Type;`.
#[derive(Debug)]
pub struct ImplItemType {
    pub ident: String,
    pub ty: Vec<Tok>,
}

/// The associated types of an implementation that are not reserved, in order.
pub struct ImplAssociatedTypes<'a>(pub Vec<&'a ImplItemType>);

impl<'a> ImplAssociatedTypes<'a> {
    /// The associated types among `items` whose names are not reserved, in order.
    pub fn new(items: &'a Vec<ImplItemType>) -> (r: ImplAssociatedTypes<'a>)
        ensures
            r.0@.len() == kept_positions(Seq::new(items@.len(), |i: int| items@[i].ident@)).len(),
            forall|k: int|
                0 <= k < r.0@.len() ==> *(#[trigger] r.0@[k]) == items@[kept_positions(
                    Seq::new(items@.len(), |i: int| items@[i].ident@),
                )[k]],
    {
        let ghost names = Seq::new(items@.len(), |i: int| items@[i].ident@);
        let mut kept: Vec<&'a ImplItemType> = Vec::new();
        let mut i: usize = 0;
        while i < items.len()
            invariant
                names == Seq::new(items@.len(), |i: int| items@[i].ident@),
                i <= items.len(),
                kept@.len() == kept_positions(names.take(i as int)).len(),
                forall|k: int| 0 <= k < kept@.len() ==> *(#[trigger] kept@[k]) == items@[kept_positions(names.take(i as int))[k]],
            decreases items.len() - i,
        {
            assert(names.take(i + 1).drop_last() =~= names.take(i as int));
            assert(names.take(i + 1).last() == items@[i as int].ident@);
            if !is_reserved_exec(&items[i].ident) {
                kept.push(&items[i]);
            }
            i = i + 1;
        }
        assert(names.take(i as int) =~= names);
        ImplAssociatedTypes(kept)
    }

    /// The names of the kept associated types.
    pub fn as_names(&self) -> (r: Vec<String>)
        ensures
            r@.len() == self.0@.len(),
            forall|k: int| 0 <= k < r@.len() ==> (#[trigger] r@[k])@ == self.0@[k].ident@,
    {
        let mut r: Vec<String> = Vec::new();
        let mut k: usize = 0;
        while k < self.0.len()
            invariant
                k <= self.0.len(),
                r@.len() == k,
                forall|q: int| 0 <= q < k ==> (#[trigger] r@[q])@ == self.0@[q].ident@,
            decreases self.0.len() - k,
        {
            r.push(self.0[k].ident.clone());
            k = k + 1;
        }
        r
    }

    /// The types the kept associated types are defined as.
    pub fn as_item_types(&self) -> (r: &Vec<&'a ImplItemType>)
        ensures
            r == &self.0,
    {
        &self.0
    }

    /// The types given to the kept associated types.
    pub fn as_types(&self) -> (r: Vec<Vec<Tok>>)
        ensures
            r@.len() == self.0@.len(),
            forall|k: int| 0 <= k < r@.len() ==> tokens::toks((#[trigger] r@[k])@) == tokens::toks(self.0@[k].ty@),
    {
        let mut r: Vec<Vec<Tok>> = Vec::new();
        let mut k: usize = 0;
        while k < self.0.len()
            invariant
                k <= self.0.len(),
                r@.len() == k,
                forall|q: int| 0 <= q < k ==> tokens::toks((#[trigger] r@[q])@) == tokens::toks(self.0@[q].ty@),
            decreases self.0.len() - k,
        {
            r.push(tokens::copy_toks(&self.0[k].ty));
            k = k + 1;
        }
        r
    }

    /// `type Name ;` for each kept associated type.
    pub fn emit_types_declaration(&self) -> (r: Vec<Vec<Tok>>)
        ensures
            r@.len() == self.0@.len(),
            forall|k: int| 0 <= k < r@.len() ==> tokens::toks((#[trigger] r@[k])@) == type_declaration(self.0@[k].ident@),
    {
        let mut r: Vec<Vec<Tok>> = Vec::new();
        let mut k: usize = 0;
        while k < self.0.len()
            invariant
                k <= self.0.len(),
                r@.len() == k,
                forall|q: int| 0 <= q < k ==> tokens::toks((#[trigger] r@[q])@) == type_declaration(self.0@[q].ident@),
            decreases self.0.len() - k,
        {
            let mut d: Vec<Tok> = Vec::new();
            tokens::push_ident(&mut d, "type");
            tokens::push_tok(&mut d, Tok::Ident(self.0[k].ident.clone()));
            tokens::push_punct(&mut d, ';');
            assert(tokens::toks(d@) =~= type_declaration(self.0@[k as int].ident@));
            r.push(d);
            k = k + 1;
        }
        r
    }
}


/// A predicate of a where clause.
#[derive(Debug)]
pub enum WherePredicate {
    /// `[for < lifetimes >] bounded_ty : bounds`
    Type { lifetimes: Option<Vec<Tok>>, bounded_ty: Vec<Tok>, bounds: Vec<Tok> },
    /// A predicate on a lifetime, `'a : 'b + ..`, as written.
    Lifetime(Vec<Tok>),
}

pub enum WherePredicateV {
    Type { lifetimes: Option<Seq<TokV>>, bounded_ty: Seq<TokV>, bounds: Seq<TokV> },
    Lifetime(Seq<TokV>),
}

impl View for WherePredicate {
    type V = WherePredicateV;

    open spec fn view(&self) -> WherePredicateV {
        match self {
            WherePredicate::Type { lifetimes, bounded_ty, bounds } => WherePredicateV::Type {
                lifetimes: match lifetimes {
                    Some(l) => Some(tokens::toks(l@)),
                    None => None,
                },
                bounded_ty: tokens::toks(bounded_ty@),
                bounds: tokens::toks(bounds@),
            },
            WherePredicate::Lifetime(t) => WherePredicateV::Lifetime(tokens::toks(t@)),
        }
    }
}

/// A where clause: its predicates.
#[derive(Debug)]
pub struct WhereClause {
    pub predicates: Vec<WherePredicate>,
    /// Whether a comma follows the last predicate.
    pub trailing_comma: bool,
}

/// The values of the predicates.
pub open spec fn predicates_view(v: Seq<WherePredicate>) -> Seq<WherePredicateV> {
    Seq::new(v.len(), |i: int| v[i]@)
}

/// `for < lifetimes >`, or nothing.
pub open spec fn for_lifetimes(l: Option<Seq<TokV>>) -> Seq<TokV> {
    match l {
        Some(l) => seq![TokV::Ident("for"@), TokV::Punct('<')] + l + seq![TokV::Punct('>')],
        None => Seq::empty(),
    }
}

/// The tokens of a predicate: `[for < lifetimes >] bounded_ty : bounds`.
pub open spec fn predicate_tokens(p: WherePredicateV) -> Seq<TokV> {
    match p {
        WherePredicateV::Type { lifetimes, bounded_ty, bounds } => for_lifetimes(lifetimes) + bounded_ty + seq![
            TokV::Punct(':'),
        ] + bounds,
        WherePredicateV::Lifetime(t) => t,
    }
}

/// The predicates separated by commas: `p1 , p2 [,]`.
pub open spec fn punctuated(ps: Seq<WherePredicateV>, trailing_comma: bool) -> Seq<TokV> {
    comma_join(Seq::new(ps.len(), |i: int| predicate_tokens(ps[i]))) + (if trailing_comma {
        seq![TokV::Punct(',')]
    } else {
        Seq::empty()
    })
}

/// The tokens of a where clause: `where p1 , p2 [,]`, or nothing when it
/// has no predicate.
pub open spec fn where_tokens(ps: Seq<WherePredicateV>, trailing_comma: bool) -> Seq<TokV> {
    if ps.len() == 0 {
        Seq::empty()
    } else {
        seq![TokV::Ident("where"@)] + punctuated(ps, trailing_comma)
    }
}

/// The predicates of an optional where clause, separated by commas.
pub open spec fn opt_punctuated(w: Option<(Seq<WherePredicateV>, bool)>) -> Seq<TokV> {
    match w {
        Some((ps, t)) => punctuated(ps, t),
        None => Seq::empty(),
    }
}

/// The tokens of an optional where clause.
pub open spec fn opt_where_tokens(w: Option<(Seq<WherePredicateV>, bool)>) -> Seq<TokV> {
    match w {
        Some((ps, t)) => where_tokens(ps, t),
        None => Seq::empty(),
    }
}

impl WhereClause {
    /// The value of the clause: its predicates and trailing comma.
    pub open spec fn value(&self) -> (Seq<WherePredicateV>, bool) {
        (predicates_view(self.predicates@), self.trailing_comma)
    }

    /// The predicates of the clause, separated by commas.
    pub fn predicates_to_tokens(&self) -> (r: Vec<Tok>)
        ensures
            tokens::toks(r@) == punctuated(predicates_view(self.predicates@), self.trailing_comma),
    {
        let ghost ps = predicates_view(self.predicates@);
        let ghost pts = Seq::new(ps.len(), |i: int| predicate_tokens(ps[i]));
        let mut parts: Vec<Vec<Tok>> = Vec::new();
        let mut k: usize = 0;
        while k < self.predicates.len()
            invariant
                ps == predicates_view(self.predicates@),
                pts == Seq::new(ps.len(), |i: int| predicate_tokens(ps[i])),
                k <= self.predicates.len(),
                crate::parser::toks2(parts@) == pts.take(k as int),
            decreases self.predicates.len() - k,
        {
            let mut d: Vec<Tok> = Vec::new();
            match &self.predicates[k] {
                WherePredicate::Type { lifetimes, bounded_ty, bounds } => {
                    match lifetimes {
                        Some(l) => {
                            tokens::push_ident(&mut d, "for");
                            tokens::push_punct(&mut d, '<');
                            tokens::extend_toks(&mut d, l);
                            tokens::push_punct(&mut d, '>');
                        },
                        None => {},
                    }
                    tokens::extend_toks(&mut d, bounded_ty);
                    tokens::push_punct(&mut d, ':');
                    tokens::extend_toks(&mut d, bounds);
                },
                WherePredicate::Lifetime(t) => {
                    tokens::extend_toks(&mut d, t);
                },
            }
            assert(tokens::toks(d@) =~= pts[k as int]);
            let ghost prev = parts@;
            parts.push(d);
            assert(crate::parser::toks2(parts@) =~= crate::parser::toks2(prev).push(tokens::toks(d@)));
            assert(pts.take(k + 1) =~= pts.take(k as int).push(pts[k as int]));
            k = k + 1;
        }
        assert(pts.take(k as int) =~= pts);
        let mut r: Vec<Tok> = Vec::new();
        push_comma_joined(&mut r, &parts);
        if self.trailing_comma {
            tokens::push_punct(&mut r, ',');
        }
        assert(tokens::toks(r@) =~= punctuated(ps, self.trailing_comma));
        r
    }

    /// The tokens of the clause.
    pub fn to_tokens(&self) -> (r: Vec<Tok>)
        ensures
            tokens::toks(r@) == where_tokens(predicates_view(self.predicates@), self.trailing_comma),
    {
        let mut r: Vec<Tok> = Vec::new();
        if self.predicates.len() > 0 {
            tokens::push_ident(&mut r, "where");
            let p = self.predicates_to_tokens();
            tokens::extend_toks(&mut r, &p);
        }
        assert(tokens::toks(r@) =~= where_tokens(predicates_view(self.predicates@), self.trailing_comma));
        r
    }
}

/// The tokens of an optional where clause.
pub fn opt_where_to_tokens(w: &Option<WhereClause>) -> (r: Vec<Tok>)
    ensures
        tokens::toks(r@) == opt_where_tokens(
            match w {
                Some(c) => Some(c.value()),
                None => None,
            },
        ),
{
    match w {
        Some(c) => c.to_tokens(),
        None => {
            let r: Vec<Tok> = Vec::new();
            assert(tokens::toks(r@) =~= Seq::<TokV>::empty());
            r
        },
    }
}

/// `< lifetimes >`, or nothing.
pub open spec fn opt_lifetimes(l: Option<Seq<TokV>>) -> Seq<TokV> {
    match l {
        Some(l) => seq![TokV::Punct('<')] + l + seq![TokV::Punct('>')],
        None => Seq::empty(),
    }
}

/// For each type predicate `T : bounds`, the associated type declaration
/// `type T < lifetimes > : bounds ;`, in order; other predicates give none.
pub open spec fn declarations(ps: Seq<WherePredicateV>) -> Seq<Seq<TokV>>
    decreases ps.len(),
{
    if ps.len() == 0 {
        Seq::empty()
    } else {
        let prev = declarations(ps.drop_last());
        match ps.last() {
            WherePredicateV::Type { lifetimes, bounded_ty, bounds } => prev.push(
                seq![TokV::Ident("type"@)] + bounded_ty + opt_lifetimes(lifetimes) + seq![TokV::Punct(':')] + bounds + seq![
                    TokV::Punct(';'),
                ],
            ),
            WherePredicateV::Lifetime(_) => prev,
        }
    }
}

/// For each type predicate `T : bounds`, the associated type definition
/// `type T < lifetimes > = T ;`, in order; other predicates give none.
pub open spec fn implementations(ps: Seq<WherePredicateV>) -> Seq<Seq<TokV>>
    decreases ps.len(),
{
    if ps.len() == 0 {
        Seq::empty()
    } else {
        let prev = implementations(ps.drop_last());
        match ps.last() {
            WherePredicateV::Type { lifetimes, bounded_ty, bounds } => prev.push(
                seq![TokV::Ident("type"@)] + bounded_ty + opt_lifetimes(lifetimes) + seq![TokV::Punct('=')] + bounded_ty
                    + seq![TokV::Punct(';')],
            ),
            WherePredicateV::Lifetime(_) => prev,
        }
    }
}

/// Associated types standing for the bounded types of a where clause.
pub trait EmitAssociated {
    /// Their declarations in a trait.
    fn emit_declaration(&self) -> Vec<Vec<Tok>>;

    /// Their definitions in an implementation, each type standing for itself.
    fn emit_implementation(&self) -> Vec<Vec<Tok>>;
}

/// Appends `< lifetimes >`, or nothing.
fn push_opt_lifetimes(dst: &mut Vec<Tok>, l: &Option<Vec<Tok>>)
    ensures
        tokens::toks(final(dst)@) == tokens::toks(old(dst)@) + opt_lifetimes(
            match l {
                Some(x) => Some(tokens::toks(x@)),
                None => None,
            },
        ),
{
    match l {
        Some(x) => {
            tokens::push_punct(dst, '<');
            tokens::extend_toks(dst, x);
            tokens::push_punct(dst, '>');
        },
        None => {},
    }
    assert(tokens::toks(dst@) =~= tokens::toks(old(dst)@) + opt_lifetimes(
        match l {
            Some(x) => Some(tokens::toks(x@)),
            None => None,
        },
    ));
}

impl EmitAssociated for WhereClause {
    fn emit_declaration(&self) -> (r: Vec<Vec<Tok>>)
        ensures
            crate::parser::toks2(r@) == declarations(predicates_view(self.predicates@)),
    {
        let ghost ps = predicates_view(self.predicates@);
        let mut r: Vec<Vec<Tok>> = Vec::new();
        let mut k: usize = 0;
        assert(crate::parser::toks2(r@) =~= declarations(ps.take(0)));
        while k < self.predicates.len()
            invariant
                ps == predicates_view(self.predicates@),
                k <= self.predicates.len(),
                crate::parser::toks2(r@) == declarations(ps.take(k as int)),
            decreases self.predicates.len() - k,
        {
            assert(ps.take(k + 1).drop_last() =~= ps.take(k as int));
            assert(ps.take(k + 1).last() == self.predicates@[k as int]@);
            match &self.predicates[k] {
                WherePredicate::Type { lifetimes, bounded_ty, bounds } => {
                    let mut d: Vec<Tok> = Vec::new();
                    tokens::push_ident(&mut d, "type");
                    tokens::extend_toks(&mut d, bounded_ty);
                    push_opt_lifetimes(&mut d, lifetimes);
                    tokens::push_punct(&mut d, ':');
                    tokens::extend_toks(&mut d, bounds);
                    tokens::push_punct(&mut d, ';');
                    let ghost prev = r@;
                    let ghost dv = tokens::toks(d@);
                    let ghost lv = match lifetimes {
                        Some(x) => Some(tokens::toks(x@)),
                        None => None,
                    };
                    assert(dv =~= seq![TokV::Ident("type"@)] + tokens::toks(bounded_ty@) + opt_lifetimes(lv) + seq![TokV::Punct(':')]
                        + tokens::toks(bounds@) + seq![TokV::Punct(';')]);
                    r.push(d);
                    assert(crate::parser::toks2(r@) =~= crate::parser::toks2(prev).push(dv));
                    assert(crate::parser::toks2(r@) =~= declarations(ps.take(k + 1)));
                },
                WherePredicate::Lifetime(_) => {},
            }
            k = k + 1;
        }
        assert(ps.take(k as int) =~= ps);
        r
    }

    fn emit_implementation(&self) -> (r: Vec<Vec<Tok>>)
        ensures
            crate::parser::toks2(r@) == implementations(predicates_view(self.predicates@)),
    {
        let ghost ps = predicates_view(self.predicates@);
        let mut r: Vec<Vec<Tok>> = Vec::new();
        let mut k: usize = 0;
        assert(crate::parser::toks2(r@) =~= implementations(ps.take(0)));
        while k < self.predicates.len()
            invariant
                ps == predicates_view(self.predicates@),
                k <= self.predicates.len(),
                crate::parser::toks2(r@) == implementations(ps.take(k as int)),
            decreases self.predicates.len() - k,
        {
            assert(ps.take(k + 1).drop_last() =~= ps.take(k as int));
            assert(ps.take(k + 1).last() == self.predicates@[k as int]@);
            match &self.predicates[k] {
                WherePredicate::Type { lifetimes, bounded_ty, bounds } => {
                    let mut d: Vec<Tok> = Vec::new();
                    tokens::push_ident(&mut d, "type");
                    tokens::extend_toks(&mut d, bounded_ty);
                    push_opt_lifetimes(&mut d, lifetimes);
                    tokens::push_punct(&mut d, '=');
                    tokens::extend_toks(&mut d, bounded_ty);
                    tokens::push_punct(&mut d, ';');
                    let ghost prev = r@;
                    let ghost dv = tokens::toks(d@);
                    let ghost lv = match lifetimes {
                        Some(x) => Some(tokens::toks(x@)),
                        None => None,
                    };
                    assert(dv =~= seq![TokV::Ident("type"@)] + tokens::toks(bounded_ty@) + opt_lifetimes(lv) + seq![TokV::Punct('=')]
                        + tokens::toks(bounded_ty@) + seq![TokV::Punct(';')]);
                    r.push(d);
                    assert(crate::parser::toks2(r@) =~= crate::parser::toks2(prev).push(dv));
                    assert(crate::parser::toks2(r@) =~= implementations(ps.take(k + 1)));
                },
                WherePredicate::Lifetime(_) => {},
            }
            k = k + 1;
        }
        assert(ps.take(k as int) =~= ps);
        r
    }
}
/// The predicates of an optional where clause, separated by commas.
pub fn opt_predicates_to_tokens(w: &Option<WhereClause>) -> (r: Vec<Tok>)
    ensures
        tokens::toks(r@) == opt_punctuated(
            match w {
                Some(c) => Some(c.value()),
                None => None,
            },
        ),
{
    match w {
        Some(c) => c.predicates_to_tokens(),
        None => {
            let r: Vec<Tok> = Vec::new();
            assert(tokens::toks(r@) =~= Seq::<TokV>::empty());
            r
        },
    }
}

} // verus!
