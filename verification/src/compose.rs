//! Puts the generators together: the parts of the generated code computed
//! from the methods of a contract, which generics its messages use, and the
//! generated module `sv` of a contract.
use vstd::prelude::*;
use crate::api::{api_tokens, has_kind, Api, UsedGenerics, UsedGenericsV};
use crate::associated_types::{kept_positions, where_predicate, AssociatedTypes, TraitItemType, TraitItemTypeV, WhereClause, WherePredicateV};
use crate::case::{self, TextCase};
use crate::check_generics::{find_generic, is_used, lemma_find_generic, type_paths, unused_of, visit_all, CheckGenerics, GetPath};
use crate::contract::ContractInput;
use crate::copies;
use crate::enum_msg::{enum_tokens, phantom_arm, EnumMessage};
use crate::executor::{executor_tokens, Executor};
use crate::glue::{glue_tokens, GlueMessage};
use crate::instantiate_builder::{is_type_path, type_ident};
use crate::interface::InterfaceInput;
use crate::interface_api::{messages_api_tokens, UsedNames};
use crate::interface_enum_msg::{interface_enum_tokens, kept_names};
use crate::interface_helpers::{iface_executor_tokens, iface_querier_tokens, names_view, InterfaceExecutor};
use crate::interfaces::{interface_api, interfaces_view, Interfaces};
use crate::msg_type::{self, cw_std_item, MsgType};
use crate::mt::{mt_definition, mt_tokens, params_each_comma, path3, push_path3, MtHelpers};
use crate::multitest::{contract_helpers_tokens, extract_contract_name, multitest_utils, names_each_comma, proxy_app, proxy_name_of, ContractMtHelpers};
use crate::parser::{self, ContractMessageAttrV, OverrideEntryPointV};
use crate::querier::{method_name, querier_tokens, where_value, Querier};
use crate::reply::{self, MsgVariant, MsgVariantV};
use crate::struct_msg::{positions_of_kind, struct_tokens, variant_positions, StructMessage};
use crate::tokens::{self, Delim, Tok, TokV};

verus! {

/// A generic parameter of a contract, written as tokens: `T`, `T : Bound`,
/// `'a` or `const N : usize`.
#[derive(Debug)]
pub struct Generic {
    pub toks: Vec<Tok>,
}

impl View for Generic {
    type V = Seq<TokV>;

    open spec fn view(&self) -> Seq<TokV> {
        tokens::toks(self.toks@)
    }
}

/// The path naming a generic parameter: the identifier of a type parameter.
pub open spec fn generic_path(g: Seq<TokV>) -> Option<Seq<TokV>> {
    if g.len() > 0 && g[0] is Ident && g[0] != tokens::id("const") {
        Some(seq![g[0]])
    } else {
        None
    }
}

impl GetPath for Generic {
    open spec fn path_of(&self) -> Option<Seq<TokV>> {
        generic_path(self@)
    }

    fn get_path(&self) -> (r: Option<Vec<Tok>>) {
        if self.toks.len() > 0 && self.toks[0].is_any_ident() && !self.toks[0].is_ident("const") {
            let mut v: Vec<Tok> = Vec::new();
            v.push(self.toks[0].copy());
            assert(tokens::toks(v@) =~= seq![self@[0]]);
            Some(v)
        } else {
            None
        }
    }

    fn same(&self, other: &Self) -> (b: bool) {
        tokens::toks_equal(&self.toks, &other.toks)
    }
}

/// The token sequences of the generics.
pub open spec fn generics_toks(gs: Seq<Generic>) -> Seq<Seq<TokV>> {
    Seq::new(gs.len(), |i: int| gs[i]@)
}

/// The paths written in the types, one type after the other.
pub open spec fn paths_of(ts: Seq<Seq<TokV>>) -> Seq<Seq<TokV>>
    decreases ts.len(),
{
    if ts.len() == 0 {
        Seq::empty()
    } else {
        paths_of(ts.drop_last()) + type_paths(ts.last(), ts.last().len() as int)
    }
}

/// The positions of the generics the types `ts` use, in the order in which
/// their paths name them, each once.
pub open spec fn used_positions(gs: Seq<Generic>, ts: Seq<Seq<TokV>>) -> Seq<usize> {
    visit_all(gs, Seq::empty(), paths_of(ts))
}

/// The generics the types `ts` use.
pub open spec fn used_generics(gs: Seq<Generic>, ts: Seq<Seq<TokV>>) -> Seq<Seq<TokV>> {
    let u = used_positions(gs, ts);
    Seq::new(u.len(), |k: int| gs[u[k] as int]@)
}

/// The generics the types `ts` do not use, in their order.
pub open spec fn unused_generics(gs: Seq<Generic>, ts: Seq<Seq<TokV>>) -> Seq<Seq<TokV>> {
    let un = unused_of(gs, gs, used_positions(gs, ts));
    Seq::new(un.len(), |k: int| un[k]@)
}


/// Generics written as the token sequences `gv`.
pub open spec fn generics_of(gv: Seq<Seq<TokV>>) -> Seq<Generic> {
    choose|gs: Seq<Generic>| generics_toks(gs) == gv
}

/// The generics among `gv` that the types `ts` use, in the order in which
/// the types name them, each once.
pub open spec fn used_of(gv: Seq<Seq<TokV>>, ts: Seq<Seq<TokV>>) -> Seq<Seq<TokV>> {
    used_generics(generics_of(gv), ts)
}

/// The generics among `gv` that the types `ts` do not use, in their order.
pub open spec fn unused_of_toks(gv: Seq<Seq<TokV>>, ts: Seq<Seq<TokV>>) -> Seq<Seq<TokV>> {
    unused_generics(generics_of(gv), ts)
}

/// The types of the parameters of `v`.
pub open spec fn field_types(v: MsgVariantV) -> Seq<Seq<TokV>> {
    Seq::new(v.fields.len(), |i: int| v.fields[i].ty)
}

/// The types in the signature of `v` that a message carries or answers: its
/// parameters, and for a query its response.
pub open spec fn method_types(v: MsgVariantV) -> Seq<Seq<TokV>> {
    if v.msg_type == MsgType::Query {
        field_types(v).push(v.return_type)
    } else {
        field_types(v)
    }
}

/// The types of the messages of kind `ty` among `vs`, method after method.
pub open spec fn kind_types(vs: Seq<MsgVariantV>, ty: MsgType) -> Seq<Seq<TokV>>
    decreases vs.len(),
{
    if vs.len() == 0 {
        Seq::empty()
    } else if vs.last().msg_type == ty {
        kind_types(vs.drop_last(), ty) + method_types(vs.last())
    } else {
        kind_types(vs.drop_last(), ty)
    }
}

/// The methods of kind `ty` among `vs`, in their order.
pub open spec fn of_kind(vs: Seq<MsgVariantV>, ty: MsgType) -> Seq<MsgVariantV> {
    let ps = variant_positions(vs, ty);
    Seq::new(ps.len(), |k: int| vs[ps[k] as int])
}

/// `# [ returns ( R ) ]`: the response type of a query, for `QueryResponses`.
pub open spec fn returns_attr(resp: Seq<TokV>) -> Seq<TokV> {
    seq![tokens::pc('#'), TokV::Open(Delim::Bracket), tokens::id("returns"), TokV::Open(Delim::Paren)]
        + resp
        + seq![TokV::Close(Delim::Paren), TokV::Close(Delim::Bracket)]
}

/// `Name { fields }`
pub open spec fn variant_body(vn: Seq<char>, params: Seq<TokV>) -> Seq<TokV> {
    seq![TokV::Ident(vn)]
        + seq![TokV::Open(Delim::Brace)]
        + params
        + seq![TokV::Close(Delim::Brace)]
}

/// `contract . method ( Into :: into ( ctx ) , names ) . map_err ( Into :: into )`
pub open spec fn exec_call(fname: Seq<char>, names: Seq<TokV>) -> Seq<TokV> {
    seq![tokens::id("contract"), tokens::pc('.')]
        + seq![TokV::Ident(fname)]
        + seq![TokV::Open(Delim::Paren), tokens::id("Into"), tokens::pc(':'), tokens::pc(':'), tokens::id("into"), TokV::Open(Delim::Paren), tokens::id("ctx"), TokV::Close(Delim::Paren), tokens::pc(',')]
        + names
        + seq![TokV::Close(Delim::Paren), tokens::pc('.'), tokens::id("map_err"), TokV::Open(Delim::Paren), tokens::id("Into"), tokens::pc(':'), tokens::pc(':'), tokens::id("into"), TokV::Close(Delim::Paren)]
}

/// `sylvia :: cw_std :: to_json_binary ( & contract . method ( Into :: into ( ctx ) , names ) ? ) . map_err ( Into :: into )`
pub open spec fn query_call(fname: Seq<char>, names: Seq<TokV>, sylvia: Seq<TokV>) -> Seq<TokV> {
    cw_std_item(sylvia, "to_json_binary")
        + seq![TokV::Open(Delim::Paren), tokens::pc('&'), tokens::id("contract"), tokens::pc('.')]
        + seq![TokV::Ident(fname)]
        + seq![TokV::Open(Delim::Paren), tokens::id("Into"), tokens::pc(':'), tokens::pc(':'), tokens::id("into"), TokV::Open(Delim::Paren), tokens::id("ctx"), TokV::Close(Delim::Paren), tokens::pc(',')]
        + names
        + seq![TokV::Close(Delim::Paren), tokens::pc('?'), TokV::Close(Delim::Paren), tokens::pc('.'), tokens::id("map_err"), TokV::Open(Delim::Paren), tokens::id("Into"), tokens::pc(':'), tokens::pc(':'), tokens::id("into"), TokV::Close(Delim::Paren)]
}

/// `Name { names } =>`
pub open spec fn arm_head(vn: Seq<char>, names: Seq<TokV>) -> Seq<TokV> {
    seq![TokV::Ident(vn)]
        + seq![TokV::Open(Delim::Brace)]
        + names
        + seq![TokV::Close(Delim::Brace), tokens::pc('='), tokens::pc('>')]
}

/// `pub fn method ( params ) -> Self { Self :: Name { names } }`
pub open spec fn ctor(mn: Seq<char>, vn: Seq<char>, params: Seq<TokV>, names: Seq<TokV>) -> Seq<TokV> {
    seq![tokens::id("pub"), tokens::id("fn")]
        + seq![TokV::Ident(mn)]
        + seq![TokV::Open(Delim::Paren)]
        + params
        + seq![TokV::Close(Delim::Paren), tokens::pc('-'), tokens::pc('>'), tokens::id("Self"), TokV::Open(Delim::Brace), tokens::id("Self"), tokens::pc(':'), tokens::pc(':')]
        + seq![TokV::Ident(vn)]
        + seq![TokV::Open(Delim::Brace)]
        + names
        + seq![TokV::Close(Delim::Brace), TokV::Close(Delim::Brace)]
}

/// `# [ serde ( skip ) ] _Phantom ( std :: marker :: PhantomData < ( generics ) > ) ,`
pub open spec fn phantom_decl(ugc: Seq<TokV>) -> Seq<TokV> {
    seq![tokens::pc('#'), TokV::Open(Delim::Bracket), tokens::id("serde"), TokV::Open(Delim::Paren), tokens::id("skip"), TokV::Close(Delim::Paren), TokV::Close(Delim::Bracket), tokens::id("_Phantom"), TokV::Open(Delim::Paren), tokens::id("std"), tokens::pc(':'), tokens::pc(':'), tokens::id("marker"), tokens::pc(':'), tokens::pc(':'), tokens::id("PhantomData"), tokens::pc('<'), TokV::Open(Delim::Paren)]
        + ugc
        + seq![TokV::Close(Delim::Paren), tokens::pc('>'), TokV::Close(Delim::Paren), tokens::pc(',')]
}

/// `pub mod sv { use super :: * ;`
pub open spec fn sv_open() -> Seq<TokV> {
    seq![tokens::id("pub"), tokens::id("mod"), tokens::id("sv"), TokV::Open(Delim::Brace), tokens::id("use"), tokens::id("super"), tokens::pc(':'), tokens::pc(':'), tokens::pc('*'), tokens::pc(';')]
}


/// The variant of the message enum for `v`: a query variant lists its
/// response for `QueryResponses`.
pub open spec fn enum_variant(v: MsgVariantV) -> Seq<TokV> {
    (if v.msg_type == MsgType::Query {
        returns_attr(v.return_type)
    } else {
        Seq::empty()
    }) + variant_body(reply::variant_name(v), params_each_comma(v.fields))
}

/// The arm of the dispatch for `v`: it calls the method with the context and
/// the message's fields; a query's answer is serialized.
pub open spec fn enum_arm(v: MsgVariantV, sylvia: Seq<TokV>) -> Seq<TokV> {
    arm_head(reply::variant_name(v), names_each_comma(v.fields)) + if v.msg_type == MsgType::Query {
        query_call(v.function_name, names_each_comma(v.fields), sylvia)
    } else {
        exec_call(v.function_name, names_each_comma(v.fields))
    }
}

/// The constructor of the message of `v`.
pub open spec fn enum_ctor(v: MsgVariantV) -> Seq<TokV> {
    ctor(method_name(v), reply::variant_name(v), params_each_comma(v.fields), names_each_comma(v.fields))
}

/// The phantom variant of a message enum: present exactly when the enum
/// uses generics, and carrying them.
pub open spec fn enum_phantom(used: Seq<Seq<TokV>>) -> Seq<TokV> {
    if used.len() > 0 {
        phantom_decl(crate::interfaces::each_with_comma(used))
    } else {
        Seq::empty()
    }
}


/// The positions of the methods of a kind are positions of methods.
proof fn lemma_positions_in_range(vs: Seq<MsgVariantV>, ty: MsgType)
    ensures
        forall|k: int| 0 <= k < variant_positions(vs, ty).len() ==> (#[trigger] variant_positions(vs, ty)[k]) < vs.len(),
    decreases vs.len(),
{
    if vs.len() > 0 {
        lemma_positions_in_range(vs.drop_last(), ty);
        let p = variant_positions(vs.drop_last(), ty);
        if vs.last().msg_type == ty {
            assert(variant_positions(vs, ty) == p.push((vs.len() - 1) as usize));
        } else {
            assert(variant_positions(vs, ty) == p);
        }
    }
}


proof fn lemma_find_congr(a: Seq<Generic>, b: Seq<Generic>, p: Seq<TokV>)
    requires
        generics_toks(a) == generics_toks(b),
    ensures
        find_generic(a, p) == find_generic(b, p),
    decreases a.len(),
{
    assert(a.len() == generics_toks(a).len());
    if a.len() > 0 {
        assert(b.len() == generics_toks(b).len());
        assert forall|i: int| 0 <= i < a.len() implies (#[trigger] a[i])@ == b[i]@ by {
            assert(a[i]@ == generics_toks(a)[i]);
            assert(b[i]@ == generics_toks(b)[i]);
        }
        assert(generics_toks(a.drop_last()) =~= generics_toks(b.drop_last()));
        lemma_find_congr(a.drop_last(), b.drop_last(), p);
        assert(a.last()@ == generics_toks(a)[a.len() - 1]);
        assert(b.last()@ == generics_toks(b)[b.len() - 1]);
    }
}

proof fn lemma_visit_all_congr(a: Seq<Generic>, b: Seq<Generic>, u: Seq<usize>, ps: Seq<Seq<TokV>>)
    requires
        generics_toks(a) == generics_toks(b),
        forall|k: int| 0 <= k < u.len() ==> (#[trigger] u[k]) < a.len(),
    ensures
        visit_all(a, u, ps) == visit_all(b, u, ps),
        forall|k: int| 0 <= k < visit_all(a, u, ps).len() ==> (#[trigger] visit_all(a, u, ps)[k]) < a.len(),
    decreases ps.len(),
{
    assert(a.len() == generics_toks(a).len());
    assert(b.len() == generics_toks(b).len());
    if ps.len() > 0 {
        lemma_visit_all_congr(a, b, u, ps.drop_last());
        let v = visit_all(a, u, ps.drop_last());
        let p = ps.last();
        lemma_find_congr(a, b, p);
        lemma_find_generic(a, p);
        match find_generic(a, p) {
            Some(i) => {
                assert(a[i]@ == generics_toks(a)[i]);
                assert(b[i]@ == generics_toks(b)[i]);
                assert forall|k: int| 0 <= k < v.len() implies a[(#[trigger] v[k]) as int]@ == b[v[k] as int]@ by {
                    assert(a[v[k] as int]@ == generics_toks(a)[v[k] as int]);
                    assert(b[v[k] as int]@ == generics_toks(b)[v[k] as int]);
                }
                assert(is_used(a, v, a[i]@) == is_used(b, v, b[i]@));
            },
            None => {},
        }
    }
}

proof fn lemma_unused_congr(a: Seq<Generic>, b: Seq<Generic>, all_a: Seq<Generic>, all_b: Seq<Generic>, u: Seq<usize>)
    requires
        generics_toks(a) == generics_toks(b),
        generics_toks(all_a) == generics_toks(all_b),
        forall|k: int| 0 <= k < u.len() ==> (#[trigger] u[k]) < all_a.len(),
    ensures
        generics_toks(unused_of(a, all_a, u)) == generics_toks(unused_of(b, all_b, u)),
    decreases a.len(),
{
    assert(a.len() == generics_toks(a).len());
    assert(all_a.len() == generics_toks(all_a).len());
    assert(all_b.len() == generics_toks(all_b).len());
    if a.len() > 0 {
        assert(b.len() == generics_toks(b).len());
        assert forall|i: int| 0 <= i < a.len() implies (#[trigger] a[i])@ == b[i]@ by {
            assert(a[i]@ == generics_toks(a)[i]);
            assert(b[i]@ == generics_toks(b)[i]);
        }
        assert(generics_toks(a.drop_last()) =~= generics_toks(b.drop_last()));
        lemma_unused_congr(a.drop_last(), b.drop_last(), all_a, all_b, u);
        assert(a.last()@ == generics_toks(a)[a.len() - 1]);
        assert(b.last()@ == generics_toks(b)[b.len() - 1]);
        assert forall|k: int| 0 <= k < u.len() implies all_a[(#[trigger] u[k]) as int]@ == all_b[u[k] as int]@ by {
            assert(all_a[u[k] as int]@ == generics_toks(all_a)[u[k] as int]);
            assert(all_b[u[k] as int]@ == generics_toks(all_b)[u[k] as int]);
        }
        assert(is_used(all_a, u, a.last()@) == is_used(all_b, u, b.last()@));
        let ra = unused_of(a.drop_last(), all_a, u);
        let rb = unused_of(b.drop_last(), all_b, u);
        assert(generics_toks(ra.push(a.last())) =~= generics_toks(ra).push(a.last()@));
        assert(generics_toks(rb.push(b.last())) =~= generics_toks(rb).push(b.last()@));
    }
}

/// What the generics `gs` give for the types `ts` depends only on their tokens.
proof fn lemma_used_of(gs: Seq<Generic>, ts: Seq<Seq<TokV>>)
    ensures
        used_of(generics_toks(gs), ts) == used_generics(gs, ts),
        unused_of_toks(generics_toks(gs), ts) == unused_generics(gs, ts),
{
    let gv = generics_toks(gs);
    let other = generics_of(gv);
    assert(generics_toks(other) == gv);
    lemma_visit_all_congr(other, gs, Seq::empty(), paths_of(ts));
    let u = used_positions(gs, ts);
    assert(other.len() == gv.len());
    assert(gs.len() == gv.len());
    assert forall|k: int| 0 <= k < u.len() implies other[(#[trigger] u[k]) as int]@ == gs[u[k] as int]@ by {
        assert(other[u[k] as int]@ == generics_toks(other)[u[k] as int]);
        assert(gs[u[k] as int]@ == generics_toks(gs)[u[k] as int]);
    }
    assert(used_generics(other, ts) =~= used_generics(gs, ts));
    lemma_unused_congr(other, gs, other, gs, u);
    let ua = unused_of(other, other, u);
    let ub = unused_of(gs, gs, u);
    assert(ua.len() == generics_toks(ua).len());
    assert(ub.len() == generics_toks(ub).len());
    assert forall|k: int| 0 <= k < ua.len() implies ua[k]@ == ub[k]@ by {
        assert(ua[k]@ == generics_toks(ua)[k]);
        assert(ub[k]@ == generics_toks(ub)[k]);
    }
    assert(unused_generics(other, ts) =~= unused_generics(gs, ts));
}

proof fn lemma_visit_all_append(gs: Seq<Generic>, u: Seq<usize>, a: Seq<Seq<TokV>>, b: Seq<Seq<TokV>>)
    ensures
        visit_all(gs, u, a + b) == visit_all(gs, visit_all(gs, u, a), b),
    decreases b.len(),
{
    if b.len() == 0 {
        assert(a + b =~= a);
    } else {
        assert((a + b).drop_last() =~= a + b.drop_last());
        assert((a + b).last() == b.last());
        lemma_visit_all_append(gs, u, a, b.drop_last());
    }
}

/// Splits the generics `gs` into those the types `ts` use, in the order in
/// which the types name them, and the others, in their order.
pub fn split_generics(gs: &Vec<Generic>, ts: &Vec<Vec<Tok>>) -> (r: (Vec<Vec<Tok>>, Vec<Vec<Tok>>))
    ensures
        parser::toks2(r.0@) == used_generics(gs@, parser::toks2(ts@)),
        parser::toks2(r.1@) == unused_generics(gs@, parser::toks2(ts@)),
{
    let ghost tv = parser::toks2(ts@);
    let mut cg = CheckGenerics::new(gs);
    let mut i: usize = 0;
    assert(tv.take(0) =~= Seq::<Seq<TokV>>::empty());
    while i < ts.len()
        invariant
            cg.wf(),
            cg.generics_view() == gs@,
            tv == parser::toks2(ts@),
            i <= ts.len(),
            cg.used_view() == visit_all(gs@, Seq::empty(), paths_of(tv.take(i as int))),
        decreases ts.len() - i,
    {
        proof {
            assert(tv.take(i + 1).drop_last() =~= tv.take(i as int));
            assert(tv.take(i + 1).last() == tokens::toks(ts@[i as int]@));
            lemma_visit_all_append(
                gs@,
                Seq::empty(),
                paths_of(tv.take(i as int)),
                type_paths(tokens::toks(ts@[i as int]@), ts@[i as int]@.len() as int),
            );
        }
        cg.visit_type(&ts[i]);
        i = i + 1;
    }
    assert(tv.take(i as int) =~= tv);
    let ghost uv = cg.used_view();
    let (u, un) = cg.used_unused();
    let mut used: Vec<Vec<Tok>> = Vec::new();
    let mut k: usize = 0;
    while k < u.len()
        invariant
            k <= u.len(),
            u@.len() == uv.len(),
            uv == used_positions(gs@, tv),
            forall|q: int| 0 <= q < u@.len() ==> *(#[trigger] u@[q]) == gs@[uv[q] as int],
            parser::toks2(used@) == Seq::new(k as nat, |q: int| gs@[uv[q] as int]@),
        decreases u.len() - k,
    {
        let ghost prev = used@;
        let c = tokens::copy_toks(&u[k].toks);
        assert(tokens::toks(c@) == gs@[uv[k as int] as int]@);
        used.push(c);
        assert(parser::toks2(used@) =~= parser::toks2(prev).push(tokens::toks(c@)));
        assert(parser::toks2(used@) =~= Seq::new((k + 1) as nat, |q: int| gs@[uv[q] as int]@));
        k = k + 1;
    }
    let ghost unv = unused_of(gs@, gs@, uv);
    let mut unused: Vec<Vec<Tok>> = Vec::new();
    let mut k: usize = 0;
    while k < un.len()
        invariant
            k <= un.len(),
            un@.len() == unv.len(),
            forall|q: int| 0 <= q < un@.len() ==> *(#[trigger] un@[q]) == unv[q],
            parser::toks2(unused@) == Seq::new(k as nat, |q: int| unv[q]@),
        decreases un.len() - k,
    {
        let ghost prev = unused@;
        let c = tokens::copy_toks(&un[k].toks);
        assert(tokens::toks(c@) == unv[k as int]@);
        unused.push(c);
        assert(parser::toks2(unused@) =~= parser::toks2(prev).push(tokens::toks(c@)));
        assert(parser::toks2(unused@) =~= Seq::new((k + 1) as nat, |q: int| unv[q]@));
        k = k + 1;
    }
    assert(parser::toks2(used@) =~= used_generics(gs@, tv));
    assert(parser::toks2(unused@) =~= unused_generics(gs@, tv));
    (used, unused)
}

/// The tokens of each generic.
pub fn generic_tokens(gs: &Vec<Generic>) -> (r: Vec<Vec<Tok>>)
    ensures
        parser::toks2(r@) == generics_toks(gs@),
{
    let mut r: Vec<Vec<Tok>> = Vec::new();
    let mut k: usize = 0;
    while k < gs.len()
        invariant
            k <= gs.len(),
            parser::toks2(r@) == Seq::new(k as nat, |q: int| gs@[q]@),
        decreases gs.len() - k,
    {
        let ghost prev = r@;
        let c = tokens::copy_toks(&gs[k].toks);
        r.push(c);
        assert(parser::toks2(r@) =~= parser::toks2(prev).push(tokens::toks(c@)));
        assert(parser::toks2(r@) =~= Seq::new((k + 1) as nat, |q: int| gs@[q]@));
        k = k + 1;
    }
    r
}

/// The types of the messages of kind `ty` among `vs`.
pub fn kind_types_exec(vs: &Vec<MsgVariant>, ty: MsgType) -> (r: Vec<Vec<Tok>>)
    ensures
        parser::toks2(r@) == kind_types(reply::variants_view(vs@), ty),
{
    let ghost vv = reply::variants_view(vs@);
    let mut r: Vec<Vec<Tok>> = Vec::new();
    let mut i: usize = 0;
    assert(vv.take(0) =~= Seq::<MsgVariantV>::empty());
    while i < vs.len()
        invariant
            vv == reply::variants_view(vs@),
            i <= vs.len(),
            parser::toks2(r@) == kind_types(vv.take(i as int), ty),
        decreases vs.len() - i,
    {
        assert(vv.take(i + 1).drop_last() =~= vv.take(i as int));
        assert(vv.take(i + 1).last() == vs@[i as int]@);
        let v = &vs[i];
        if v.msg_type == ty {
            let ghost before = parser::toks2(r@);
            let mut j: usize = 0;
            while j < v.fields.len()
                invariant
                    j <= v.fields.len(),
                    v == &vs@[i as int],
                    parser::toks2(r@) == before + field_types(v@).take(j as int),
                decreases v.fields.len() - j,
            {
                let ghost prev = r@;
                let c = tokens::copy_toks(&v.fields[j].ty);
                assert(tokens::toks(c@) == field_types(v@)[j as int]);
                r.push(c);
                assert(r@ == prev.push(c));
                assert(parser::toks2(r@) =~= parser::toks2(prev).push(tokens::toks(c@)));
                assert(field_types(v@).take(j + 1) =~= field_types(v@).take(j as int).push(field_types(v@)[j as int]));
                assert(parser::toks2(r@) =~= before + field_types(v@).take(j + 1));
                j = j + 1;
            }
            assert(field_types(v@).take(j as int) =~= field_types(v@));
            if v.msg_type == MsgType::Query {
                let ghost prev = r@;
                let c = tokens::copy_toks(&v.return_type);
                r.push(c);
                assert(parser::toks2(r@) =~= parser::toks2(prev).push(tokens::toks(c@)));
                assert(parser::toks2(r@) =~= before + method_types(v@));
            } else {
                assert(parser::toks2(r@) =~= before + method_types(v@));
            }
        }
        i = i + 1;
    }
    assert(vv.take(i as int) =~= vv);
    r
}

/// The methods of kind `ty` among `vs`.
pub fn of_kind_exec(vs: &Vec<MsgVariant>, ty: MsgType) -> (r: Vec<MsgVariant>)
    ensures
        reply::variants_view(r@) == of_kind(reply::variants_view(vs@), ty),
{
    let ps = positions_of_kind(vs, ty);
    let ghost vv = reply::variants_view(vs@);
    let mut r: Vec<MsgVariant> = Vec::new();
    let mut k: usize = 0;
    while k < ps.len()
        invariant
            k <= ps.len(),
            vv == reply::variants_view(vs@),
            ps@ == variant_positions(vv, ty),
            forall|q: int| 0 <= q < ps@.len() ==> ps@[q] < vs@.len(),
            reply::variants_view(r@) == Seq::new(k as nat, |q: int| vv[ps@[q] as int]),
        decreases ps.len() - k,
    {
        let ghost prev = r@;
        let c = crate::copies::copy_variant(&vs[ps[k]]);
        assert(c@ == vv[ps@[k as int] as int]);
        r.push(c);
        assert(reply::variants_view(r@) =~= reply::variants_view(prev).push(c@));
        assert(reply::variants_view(r@) =~= Seq::new((k + 1) as nat, |q: int| vv[ps@[q] as int]));
        k = k + 1;
    }
    assert(reply::variants_view(r@) =~= of_kind(vv, ty));
    r
}

fn enum_variant_exec(v: &MsgVariant) -> (r: Vec<Tok>)
    ensures
        tokens::toks(r@) == enum_variant(v@),
{
    let mut r: Vec<Tok> = if v.msg_type == MsgType::Query {
        returns_attr_exec(&v.return_type)
    } else {
        Vec::new()
    };
    let mut params: Vec<Tok> = Vec::new();
    crate::mt::push_params_each_comma(&mut params, v);
    assert(tokens::toks(params@) =~= params_each_comma(v@.fields));
    let b = variant_body_exec(&v.name(), &params);
    tokens::extend_toks(&mut r, &b);
    assert(tokens::toks(r@) =~= enum_variant(v@));
    r
}

fn enum_arm_exec(v: &MsgVariant, sylvia: &Vec<Tok>) -> (r: Vec<Tok>)
    ensures
        tokens::toks(r@) == enum_arm(v@, tokens::toks(sylvia@)),
{
    let names = crate::multitest::names_each_comma_exec(v);
    let mut r = arm_head_exec(&v.name(), &names);
    let call = if v.msg_type == MsgType::Query {
        query_call_exec(&v.function_name, &names, sylvia)
    } else {
        exec_call_exec(&v.function_name, &names)
    };
    tokens::extend_toks(&mut r, &call);
    r
}

fn enum_ctor_exec(v: &MsgVariant) -> (r: Vec<Tok>)
    ensures
        tokens::toks(r@) == enum_ctor(v@),
{
    let names = crate::multitest::names_each_comma_exec(v);
    let mut params: Vec<Tok> = Vec::new();
    crate::mt::push_params_each_comma(&mut params, v);
    assert(tokens::toks(params@) =~= params_each_comma(v@.fields));
    let vn = v.name();
    let mn = case::to_case(vn.as_str(), TextCase::Snake);
    ctor_exec(&mn, &vn, &params, &names)
}

/// The variants, dispatch arms and constructors of a message enum whose
/// messages are those of the methods `kv`.
pub fn enum_pieces(kv: &Vec<MsgVariant>, sylvia: &Vec<Tok>) -> (r: (Vec<Vec<Tok>>, Vec<Vec<Tok>>, Vec<Tok>))
    ensures
        parser::toks2(r.0@) == Seq::new(kv@.len(), |i: int| enum_variant(kv@[i]@)),
        parser::toks2(r.1@) == Seq::new(kv@.len(), |i: int| enum_arm(kv@[i]@, tokens::toks(sylvia@))),
        tokens::toks(r.2@) == tokens::concat(Seq::new(kv@.len(), |i: int| enum_ctor(kv@[i]@))),
{
    let ghost sy = tokens::toks(sylvia@);
    let ghost cs = Seq::new(kv@.len(), |i: int| enum_ctor(kv@[i]@));
    let mut vs: Vec<Vec<Tok>> = Vec::new();
    let mut arms: Vec<Vec<Tok>> = Vec::new();
    let mut ctors: Vec<Tok> = Vec::new();
    let mut k: usize = 0;
    assert(cs.take(0) =~= Seq::<Seq<TokV>>::empty());
    assert(tokens::toks(ctors@) =~= tokens::concat(cs.take(0)));
    while k < kv.len()
        invariant
            k <= kv.len(),
            sy == tokens::toks(sylvia@),
            cs == Seq::new(kv@.len(), |i: int| enum_ctor(kv@[i]@)),
            parser::toks2(vs@) == Seq::new(k as nat, |i: int| enum_variant(kv@[i]@)),
            parser::toks2(arms@) == Seq::new(k as nat, |i: int| enum_arm(kv@[i]@, sy)),
            tokens::toks(ctors@) == tokens::concat(cs.take(k as int)),
        decreases kv.len() - k,
    {
        let ghost pv = vs@;
        let ghost pa = arms@;
        let ev = enum_variant_exec(&kv[k]);
        let ea = enum_arm_exec(&kv[k], sylvia);
        vs.push(ev);
        arms.push(ea);
        assert(parser::toks2(vs@) =~= parser::toks2(pv).push(tokens::toks(ev@)));
        assert(parser::toks2(arms@) =~= parser::toks2(pa).push(tokens::toks(ea@)));
        let c = enum_ctor_exec(&kv[k]);
        tokens::extend_toks(&mut ctors, &c);
        assert(parser::toks2(vs@) =~= Seq::new((k + 1) as nat, |i: int| enum_variant(kv@[i]@)));
        assert(parser::toks2(arms@) =~= Seq::new((k + 1) as nat, |i: int| enum_arm(kv@[i]@, sy)));
        assert(cs.take(k + 1).drop_last() =~= cs.take(k as int));
        k = k + 1;
    }
    assert(cs.take(k as int) =~= cs);
    assert(parser::toks2(vs@) =~= Seq::new(kv@.len(), |i: int| enum_variant(kv@[i]@)));
    assert(parser::toks2(arms@) =~= Seq::new(kv@.len(), |i: int| enum_arm(kv@[i]@, sy)));
    (vs, arms, ctors)
}

/// The phantom variant of a message enum using the generics `used`.
pub fn enum_phantom_exec(used: &Vec<Vec<Tok>>) -> (r: Vec<Tok>)
    ensures
        tokens::toks(r@) == enum_phantom(parser::toks2(used@)),
{
    if used.len() > 0 {
        let mut ugc: Vec<Tok> = Vec::new();
        crate::interfaces::push_each_with_comma(&mut ugc, used);
        assert(tokens::toks(ugc@) =~= crate::interfaces::each_with_comma(parser::toks2(used@)));
        phantom_decl_exec(&ugc)
    } else {
        let r: Vec<Tok> = Vec::new();
        assert(tokens::toks(r@) =~= Seq::<TokV>::empty());
        r
    }
}

fn returns_attr_exec(resp: &Vec<Tok>) -> (r: Vec<Tok>)
    ensures
        tokens::toks(r@) == returns_attr(tokens::toks(resp@)),
{
    let mut r: Vec<Tok> = Vec::new();
    let k1: Vec<Tok> = vec![Tok::Punct('#'), Tok::Open(Delim::Bracket), Tok::ident("returns"), Tok::Open(Delim::Paren)];
    assert(tokens::toks(k1@) =~= seq![tokens::pc('#'), TokV::Open(Delim::Bracket), tokens::id("returns"), TokV::Open(Delim::Paren)]);
    tokens::extend_toks(&mut r, &k1);
    tokens::extend_toks(&mut r, resp);
    let k2: Vec<Tok> = vec![Tok::Close(Delim::Paren), Tok::Close(Delim::Bracket)];
    assert(tokens::toks(k2@) =~= seq![TokV::Close(Delim::Paren), TokV::Close(Delim::Bracket)]);
    tokens::extend_toks(&mut r, &k2);
    assert(tokens::toks(r@) =~= returns_attr(tokens::toks(resp@)));
    r
}

fn variant_body_exec(vn: &String, params: &Vec<Tok>) -> (r: Vec<Tok>)
    ensures
        tokens::toks(r@) == variant_body(vn@, tokens::toks(params@)),
{
    let mut r: Vec<Tok> = Vec::new();
    tokens::push_tok(&mut r, Tok::Ident(vn.clone()));
    let k1: Vec<Tok> = vec![Tok::Open(Delim::Brace)];
    assert(tokens::toks(k1@) =~= seq![TokV::Open(Delim::Brace)]);
    tokens::extend_toks(&mut r, &k1);
    tokens::extend_toks(&mut r, params);
    let k2: Vec<Tok> = vec![Tok::Close(Delim::Brace)];
    assert(tokens::toks(k2@) =~= seq![TokV::Close(Delim::Brace)]);
    tokens::extend_toks(&mut r, &k2);
    assert(tokens::toks(r@) =~= variant_body(vn@, tokens::toks(params@)));
    r
}

fn exec_call_exec(fname: &String, names: &Vec<Tok>) -> (r: Vec<Tok>)
    ensures
        tokens::toks(r@) == exec_call(fname@, tokens::toks(names@)),
{
    let mut r: Vec<Tok> = Vec::new();
    let k1: Vec<Tok> = vec![Tok::ident("contract"), Tok::Punct('.')];
    assert(tokens::toks(k1@) =~= seq![tokens::id("contract"), tokens::pc('.')]);
    tokens::extend_toks(&mut r, &k1);
    tokens::push_tok(&mut r, Tok::Ident(fname.clone()));
    let k2: Vec<Tok> = vec![Tok::Open(Delim::Paren), Tok::ident("Into"), Tok::Punct(':'), Tok::Punct(':'), Tok::ident("into"), Tok::Open(Delim::Paren), Tok::ident("ctx"), Tok::Close(Delim::Paren), Tok::Punct(',')];
    assert(tokens::toks(k2@) =~= seq![TokV::Open(Delim::Paren), tokens::id("Into"), tokens::pc(':'), tokens::pc(':'), tokens::id("into"), TokV::Open(Delim::Paren), tokens::id("ctx"), TokV::Close(Delim::Paren), tokens::pc(',')]);
    tokens::extend_toks(&mut r, &k2);
    tokens::extend_toks(&mut r, names);
    let k3: Vec<Tok> = vec![Tok::Close(Delim::Paren), Tok::Punct('.'), Tok::ident("map_err"), Tok::Open(Delim::Paren), Tok::ident("Into"), Tok::Punct(':'), Tok::Punct(':'), Tok::ident("into"), Tok::Close(Delim::Paren)];
    assert(tokens::toks(k3@) =~= seq![TokV::Close(Delim::Paren), tokens::pc('.'), tokens::id("map_err"), TokV::Open(Delim::Paren), tokens::id("Into"), tokens::pc(':'), tokens::pc(':'), tokens::id("into"), TokV::Close(Delim::Paren)]);
    tokens::extend_toks(&mut r, &k3);
    assert(tokens::toks(r@) =~= exec_call(fname@, tokens::toks(names@)));
    r
}

fn query_call_exec(fname: &String, names: &Vec<Tok>, sylvia: &Vec<Tok>) -> (r: Vec<Tok>)
    ensures
        tokens::toks(r@) == query_call(fname@, tokens::toks(names@), tokens::toks(sylvia@)),
{
    let mut r: Vec<Tok> = Vec::new();
    msg_type::push_cw_std_item(&mut r, sylvia, "to_json_binary");
    let k1: Vec<Tok> = vec![Tok::Open(Delim::Paren), Tok::Punct('&'), Tok::ident("contract"), Tok::Punct('.')];
    assert(tokens::toks(k1@) =~= seq![TokV::Open(Delim::Paren), tokens::pc('&'), tokens::id("contract"), tokens::pc('.')]);
    tokens::extend_toks(&mut r, &k1);
    tokens::push_tok(&mut r, Tok::Ident(fname.clone()));
    let k2: Vec<Tok> = vec![Tok::Open(Delim::Paren), Tok::ident("Into"), Tok::Punct(':'), Tok::Punct(':'), Tok::ident("into"), Tok::Open(Delim::Paren), Tok::ident("ctx"), Tok::Close(Delim::Paren), Tok::Punct(',')];
    assert(tokens::toks(k2@) =~= seq![TokV::Open(Delim::Paren), tokens::id("Into"), tokens::pc(':'), tokens::pc(':'), tokens::id("into"), TokV::Open(Delim::Paren), tokens::id("ctx"), TokV::Close(Delim::Paren), tokens::pc(',')]);
    tokens::extend_toks(&mut r, &k2);
    tokens::extend_toks(&mut r, names);
    let k3: Vec<Tok> = vec![Tok::Close(Delim::Paren), Tok::Punct('?'), Tok::Close(Delim::Paren), Tok::Punct('.'), Tok::ident("map_err"), Tok::Open(Delim::Paren), Tok::ident("Into"), Tok::Punct(':'), Tok::Punct(':'), Tok::ident("into"), Tok::Close(Delim::Paren)];
    assert(tokens::toks(k3@) =~= seq![TokV::Close(Delim::Paren), tokens::pc('?'), TokV::Close(Delim::Paren), tokens::pc('.'), tokens::id("map_err"), TokV::Open(Delim::Paren), tokens::id("Into"), tokens::pc(':'), tokens::pc(':'), tokens::id("into"), TokV::Close(Delim::Paren)]);
    tokens::extend_toks(&mut r, &k3);
    assert(tokens::toks(r@) =~= query_call(fname@, tokens::toks(names@), tokens::toks(sylvia@)));
    r
}

fn arm_head_exec(vn: &String, names: &Vec<Tok>) -> (r: Vec<Tok>)
    ensures
        tokens::toks(r@) == arm_head(vn@, tokens::toks(names@)),
{
    let mut r: Vec<Tok> = Vec::new();
    tokens::push_tok(&mut r, Tok::Ident(vn.clone()));
    let k1: Vec<Tok> = vec![Tok::Open(Delim::Brace)];
    assert(tokens::toks(k1@) =~= seq![TokV::Open(Delim::Brace)]);
    tokens::extend_toks(&mut r, &k1);
    tokens::extend_toks(&mut r, names);
    let k2: Vec<Tok> = vec![Tok::Close(Delim::Brace), Tok::Punct('='), Tok::Punct('>')];
    assert(tokens::toks(k2@) =~= seq![TokV::Close(Delim::Brace), tokens::pc('='), tokens::pc('>')]);
    tokens::extend_toks(&mut r, &k2);
    assert(tokens::toks(r@) =~= arm_head(vn@, tokens::toks(names@)));
    r
}

fn ctor_exec(mn: &String, vn: &String, params: &Vec<Tok>, names: &Vec<Tok>) -> (r: Vec<Tok>)
    ensures
        tokens::toks(r@) == ctor(mn@, vn@, tokens::toks(params@), tokens::toks(names@)),
{
    let mut r: Vec<Tok> = Vec::new();
    let k1: Vec<Tok> = vec![Tok::ident("pub"), Tok::ident("fn")];
    assert(tokens::toks(k1@) =~= seq![tokens::id("pub"), tokens::id("fn")]);
    tokens::extend_toks(&mut r, &k1);
    tokens::push_tok(&mut r, Tok::Ident(mn.clone()));
    let k2: Vec<Tok> = vec![Tok::Open(Delim::Paren)];
    assert(tokens::toks(k2@) =~= seq![TokV::Open(Delim::Paren)]);
    tokens::extend_toks(&mut r, &k2);
    tokens::extend_toks(&mut r, params);
    let k3: Vec<Tok> = vec![Tok::Close(Delim::Paren), Tok::Punct('-'), Tok::Punct('>'), Tok::ident("Self"), Tok::Open(Delim::Brace), Tok::ident("Self"), Tok::Punct(':'), Tok::Punct(':')];
    assert(tokens::toks(k3@) =~= seq![TokV::Close(Delim::Paren), tokens::pc('-'), tokens::pc('>'), tokens::id("Self"), TokV::Open(Delim::Brace), tokens::id("Self"), tokens::pc(':'), tokens::pc(':')]);
    tokens::extend_toks(&mut r, &k3);
    tokens::push_tok(&mut r, Tok::Ident(vn.clone()));
    let k4: Vec<Tok> = vec![Tok::Open(Delim::Brace)];
    assert(tokens::toks(k4@) =~= seq![TokV::Open(Delim::Brace)]);
    tokens::extend_toks(&mut r, &k4);
    tokens::extend_toks(&mut r, names);
    let k5: Vec<Tok> = vec![Tok::Close(Delim::Brace), Tok::Close(Delim::Brace)];
    assert(tokens::toks(k5@) =~= seq![TokV::Close(Delim::Brace), TokV::Close(Delim::Brace)]);
    tokens::extend_toks(&mut r, &k5);
    assert(tokens::toks(r@) =~= ctor(mn@, vn@, tokens::toks(params@), tokens::toks(names@)));
    r
}

fn phantom_decl_exec(ugc: &Vec<Tok>) -> (r: Vec<Tok>)
    ensures
        tokens::toks(r@) == phantom_decl(tokens::toks(ugc@)),
{
    let mut r: Vec<Tok> = Vec::new();
    let k1: Vec<Tok> = vec![Tok::Punct('#'), Tok::Open(Delim::Bracket), Tok::ident("serde"), Tok::Open(Delim::Paren), Tok::ident("skip"), Tok::Close(Delim::Paren), Tok::Close(Delim::Bracket), Tok::ident("_Phantom"), Tok::Open(Delim::Paren), Tok::ident("std"), Tok::Punct(':'), Tok::Punct(':'), Tok::ident("marker"), Tok::Punct(':'), Tok::Punct(':'), Tok::ident("PhantomData"), Tok::Punct('<'), Tok::Open(Delim::Paren)];
    assert(tokens::toks(k1@) =~= seq![tokens::pc('#'), TokV::Open(Delim::Bracket), tokens::id("serde"), TokV::Open(Delim::Paren), tokens::id("skip"), TokV::Close(Delim::Paren), TokV::Close(Delim::Bracket), tokens::id("_Phantom"), TokV::Open(Delim::Paren), tokens::id("std"), tokens::pc(':'), tokens::pc(':'), tokens::id("marker"), tokens::pc(':'), tokens::pc(':'), tokens::id("PhantomData"), tokens::pc('<'), TokV::Open(Delim::Paren)]);
    tokens::extend_toks(&mut r, &k1);
    tokens::extend_toks(&mut r, ugc);
    let k2: Vec<Tok> = vec![Tok::Close(Delim::Paren), Tok::Punct('>'), Tok::Close(Delim::Paren), Tok::Punct(',')];
    assert(tokens::toks(k2@) =~= seq![TokV::Close(Delim::Paren), tokens::pc('>'), TokV::Close(Delim::Paren), tokens::pc(',')]);
    tokens::extend_toks(&mut r, &k2);
    assert(tokens::toks(r@) =~= phantom_decl(tokens::toks(ugc@)));
    r
}

fn sv_open_exec() -> (r: Vec<Tok>)
    ensures
        tokens::toks(r@) == sv_open(),
{
    let mut r: Vec<Tok> = Vec::new();
    let k1: Vec<Tok> = vec![Tok::ident("pub"), Tok::ident("mod"), Tok::ident("sv"), Tok::Open(Delim::Brace), Tok::ident("use"), Tok::ident("super"), Tok::Punct(':'), Tok::Punct(':'), Tok::Punct('*'), Tok::Punct(';')];
    assert(tokens::toks(k1@) =~= seq![tokens::id("pub"), tokens::id("mod"), tokens::id("sv"), TokV::Open(Delim::Brace), tokens::id("use"), tokens::id("super"), tokens::pc(':'), tokens::pc(':'), tokens::pc('*'), tokens::pc(';')]);
    tokens::extend_toks(&mut r, &k1);
    assert(tokens::toks(r@) =~= sv_open());
    r
}


/// The message enum of kind `ty` of the contract `contract` with the methods
/// `vs` and the generic parameters `generics`: a variant, a dispatch arm and
/// a constructor for each method of the kind, in their order, over the
/// generics their messages use, and a phantom variant exactly when they use
/// some.
pub open spec fn enum_message_tokens(
    vs: Seq<MsgVariantV>,
    ty: MsgType,
    contract: Seq<TokV>,
    generics: Seq<Generic>,
    w: Option<(Seq<WherePredicateV>, bool)>,
    attrs: Seq<Seq<TokV>>,
    cm: Seq<TokV>,
    cq: Seq<TokV>,
    err: Seq<TokV>,
    sy: Seq<TokV>,
) -> Seq<TokV> {
    let kv = of_kind(vs, ty);
    let used = used_generics(generics, kind_types(vs, ty));
    enum_tokens(
        msg_type::msg_name(ty, false),
        vs,
        ty,
        contract,
        used,
        unused_generics(generics, kind_types(vs, ty)),
        w,
        attrs,
        Seq::new(kv.len(), |i: int| enum_variant(kv[i])),
        Seq::new(kv.len(), |i: int| enum_arm(kv[i], sy)),
        tokens::concat(Seq::new(kv.len(), |i: int| enum_ctor(kv[i]))),
        enum_phantom(used),
        cm,
        cq,
        err,
        sy,
    )
}

/// The message struct of kind `ty` of the contract `contract` with the
/// methods `vs` and the generic parameters `generics`, over the generics its
/// fields use; nothing unless exactly one method declares a message of the
/// kind.
pub open spec fn struct_message_tokens(
    vs: Seq<MsgVariantV>,
    ty: MsgType,
    contract: Seq<TokV>,
    generics: Seq<Generic>,
    w: Option<(Seq<WherePredicateV>, bool)>,
    attrs: Seq<Seq<TokV>>,
    cm: Seq<TokV>,
    cq: Seq<TokV>,
    err: Seq<TokV>,
    sy: Seq<TokV>,
) -> Seq<TokV> {
    let ps = variant_positions(vs, ty);
    if ps.len() == 1 {
        let v = vs[ps[0] as int];
        struct_tokens(
            v,
            contract,
            used_generics(generics, method_types(v)),
            unused_generics(generics, method_types(v)),
            w,
            w,
            attrs,
            cm,
            cq,
            err,
            sy,
        )
    } else {
        Seq::empty()
    }
}


/// `pub mod sv { use super :: * ; body }`
pub open spec fn sv_module(body: Seq<TokV>) -> Seq<TokV> {
    sv_open() + body + seq![TokV::Close(Delim::Brace)]
}

/// `< contract as sylvia :: types :: ContractApi >`
pub open spec fn contract_api(contract: Seq<TokV>, sy: Seq<TokV>) -> Seq<TokV> {
    seq![tokens::pc('<')] + contract + seq![tokens::id("as")] + sy + tokens::colon2() + seq![tokens::id("types")] + tokens::colon2()
        + seq![tokens::id("ContractApi"), tokens::pc('>')]
}

/// The message types of kind `ty` of the interfaces `is`, as the schema of
/// the wrapper message lists them.
pub open spec fn glue_types(sy: Seq<TokV>, is: Seq<ContractMessageAttrV>, ty: MsgType) -> Seq<Seq<TokV>> {
    Seq::new(is.len(), |k: int| interface_api(sy, is[k]) + tokens::colon2() + seq![TokV::Ident(msg_type::accessor_name(ty, false))])
}

/// The attributes forwarded to the message of kind `ty`, in their order.
pub open spec fn forwarded_of(fs: Seq<(MsgType, Seq<TokV>)>, ty: MsgType) -> Seq<Seq<TokV>>
    decreases fs.len(),
{
    if fs.len() == 0 {
        Seq::empty()
    } else if fs.last().0 == ty {
        forwarded_of(fs.drop_last(), ty).push(fs.last().1)
    } else {
        forwarded_of(fs.drop_last(), ty)
    }
}

/// The public method of the contract's MultiTest proxy sending the message
/// of `v` through the contract's API `api`.
pub open spec fn proxy_method(v: MsgVariantV, cm: Seq<TokV>, err: Seq<TokV>, api: Seq<TokV>, sy: Seq<TokV>) -> Seq<TokV> {
    let d = mt_definition(v, cm, proxy_app(sy), err, api, sy);
    if v.msg_type == MsgType::Exec || v.msg_type == MsgType::Migrate {
        d.take(4) + seq![tokens::id("pub")] + d.skip(4)
    } else {
        seq![tokens::id("pub")] + d
    }
}

/// The proxy methods of the messages of kind `ty` among `vs`, in order.
pub open spec fn proxy_methods(vs: Seq<MsgVariantV>, ty: MsgType, cm: Seq<TokV>, err: Seq<TokV>, api: Seq<TokV>, sy: Seq<TokV>) -> Seq<TokV> {
    let kv = of_kind(vs, ty);
    tokens::concat(Seq::new(kv.len(), |i: int| proxy_method(kv[i], cm, err, api, sy)))
}

/// The messages of a contract: its instantiation message, its execute,
/// query and sudo enums, its migration message, and the wrapper messages
/// over its interfaces `is`.
pub open spec fn contract_messages(
    vs: Seq<MsgVariantV>,
    contract: Seq<TokV>,
    generics: Seq<Generic>,
    w: Option<(Seq<WherePredicateV>, bool)>,
    is: Seq<ContractMessageAttrV>,
    fwd: Seq<(MsgType, Seq<TokV>)>,
    cm: Seq<TokV>,
    cq: Seq<TokV>,
    err: Seq<TokV>,
    sy: Seq<TokV>,
) -> Seq<TokV> {
    let gt = generics_toks(generics);
    struct_message_tokens(vs, MsgType::Instantiate, contract, generics, w, forwarded_of(fwd, MsgType::Instantiate), cm, cq, err, sy)
        + enum_message_tokens(vs, MsgType::Exec, contract, generics, w, forwarded_of(fwd, MsgType::Exec), cm, cq, err, sy)
        + enum_message_tokens(vs, MsgType::Query, contract, generics, w, forwarded_of(fwd, MsgType::Query), cm, cq, err, sy)
        + enum_message_tokens(vs, MsgType::Sudo, contract, generics, w, forwarded_of(fwd, MsgType::Sudo), cm, cq, err, sy)
        + struct_message_tokens(vs, MsgType::Migrate, contract, generics, w, forwarded_of(fwd, MsgType::Migrate), cm, cq, err, sy)
        + glue_tokens(msg_type::msg_name(MsgType::Exec, true), gt, w, contract, MsgType::Exec, is, glue_types(sy, is, MsgType::Exec), cm, cq, err, sy)
        + glue_tokens(msg_type::msg_name(MsgType::Query, true), gt, w, contract, MsgType::Query, is, glue_types(sy, is, MsgType::Query), cm, cq, err, sy)
        + glue_tokens(msg_type::msg_name(MsgType::Sudo, true), gt, w, contract, MsgType::Sudo, is, glue_types(sy, is, MsgType::Sudo), cm, cq, err, sy)
}

/// The MultiTest helpers of a contract: its proxy with a method per
/// execute, migrate, query and sudo message, and its helpers.
pub open spec fn contract_multitest(
    vs: Seq<MsgVariantV>,
    contract: Seq<TokV>,
    generics: Seq<Generic>,
    w: Option<(Seq<WherePredicateV>, bool)>,
    overrides: Seq<OverrideEntryPointV>,
    cm: Seq<TokV>,
    cq: Seq<TokV>,
    err: Seq<TokV>,
    sy: Seq<TokV>,
    instantiate2_available: bool,
) -> Seq<TokV> {
    let gt = generics_toks(generics);
    let api = contract_api(contract, sy);
    let cname = type_ident(contract);
    let pname = proxy_name_of(cname);
    multitest_utils(
        pname,
        gt,
        w,
        cm,
        proxy_methods(vs, MsgType::Exec, cm, err, api, sy) + proxy_methods(vs, MsgType::Migrate, cm, err, api, sy) + proxy_methods(
            vs,
            MsgType::Query,
            cm,
            err,
            api,
            sy,
        ) + proxy_methods(vs, MsgType::Sudo, cm, err, api, sy),
        contract_helpers_tokens(
            gt,
            w,
            contract,
            overrides,
            vs,
            cm,
            cq,
            cname,
            used_generics(generics, kind_types(vs, MsgType::Instantiate)),
            pname,
            err,
            sy,
            instantiate2_available,
        ),
        sy,
    )
}

/// The generics the messages of each kind use.
pub open spec fn used_by_kind(vs: Seq<MsgVariantV>, generics: Seq<Generic>) -> UsedGenericsV {
    UsedGenericsV {
        execute: used_generics(generics, kind_types(vs, MsgType::Exec)),
        query: used_generics(generics, kind_types(vs, MsgType::Query)),
        instantiate: used_generics(generics, kind_types(vs, MsgType::Instantiate)),
        migrate: used_generics(generics, kind_types(vs, MsgType::Migrate)),
        sudo: used_generics(generics, kind_types(vs, MsgType::Sudo)),
    }
}

/// The module `sv` generated for a contract: its messages, its MultiTest
/// helpers when `mt` is set, its querier and executor helpers and its API.
#[verifier::opaque]
pub open spec fn contract_sv(
    vs: Seq<MsgVariantV>,
    contract: Seq<TokV>,
    generics: Seq<Generic>,
    w: Option<(Seq<WherePredicateV>, bool)>,
    is: Seq<ContractMessageAttrV>,
    overrides: Seq<OverrideEntryPointV>,
    fwd: Seq<(MsgType, Seq<TokV>)>,
    cm: Seq<TokV>,
    cq: Seq<TokV>,
    err: Seq<TokV>,
    sy: Seq<TokV>,
    mt: bool,
    instantiate2_available: bool,
) -> Seq<TokV> {
    let gt = generics_toks(generics);
    sv_module(
        contract_messages(vs, contract, generics, w, is, fwd, cm, cq, err, sy) + (if mt {
            contract_multitest(vs, contract, generics, w, overrides, cm, cq, err, sy, instantiate2_available)
        } else {
            Seq::empty()
        }) + querier_tokens(gt, w, contract, of_kind(vs, MsgType::Query), sy) + executor_tokens(
            gt,
            w,
            contract,
            of_kind(vs, MsgType::Exec),
            sy,
        ) + api_tokens(contract, gt, w, used_by_kind(vs, generics), has_kind(vs, MsgType::Migrate), cm, cq, sy),
    )
}

/// The derives of a message enum of an interface.
pub open spec fn enum_derive(dq: Seq<TokV>, sylvia: Seq<TokV>) -> Seq<TokV> {
    seq![tokens::pc('#'), TokV::Open(Delim::Bracket), tokens::id("derive"), TokV::Open(Delim::Paren)]
        + path3(sylvia, "serde", "Serialize")
        + seq![tokens::pc(',')]
        + path3(sylvia, "serde", "Deserialize")
        + seq![tokens::pc(','), tokens::id("Clone"), tokens::pc(','), tokens::id("Debug"), tokens::pc(','), tokens::id("PartialEq"), tokens::pc(',')]
        + path3(sylvia, "schemars", "JsonSchema")
        + seq![tokens::pc(',')]
        + dq
        + seq![TokV::Close(Delim::Paren), TokV::Close(Delim::Bracket)]
}

/// `sylvia :: cw_schema :: QueryResponses` for a query enum, else nothing.
pub open spec fn derive_query(ty: MsgType, sy: Seq<TokV>) -> Seq<TokV> {
    if ty == MsgType::Query {
        path3(sy, "cw_schema", "QueryResponses")
    } else {
        Seq::empty()
    }
}

/// The names of the associated types, in order.
pub open spec fn item_idents(items: Seq<TraitItemType>) -> Seq<Seq<char>> {
    Seq::new(items.len(), |i: int| items[i].ident@)
}

/// The associated types of an interface that are not reserved, in order.
pub open spec fn kept_items(items: Seq<TraitItemType>) -> Seq<TraitItemTypeV> {
    let kp = kept_positions(item_idents(items));
    Seq::new(kp.len(), |k: int| items[kp[k]]@)
}

/// Each name as a generic: the path of one identifier.
pub open spec fn name_toks(ns: Seq<Seq<char>>) -> Seq<Seq<TokV>> {
    Seq::new(ns.len(), |k: int| seq![TokV::Ident(ns[k])])
}

/// The name of a generic written as an identifier.
pub open spec fn first_ident(t: Seq<TokV>) -> Seq<char> {
    if t.len() > 0 && t[0] is Ident {
        t[0]->Ident_0
    } else {
        Seq::empty()
    }
}

/// The associated types of the interface `items` that the messages of kind
/// `ty` among `vs` use.
pub open spec fn used_names(items: Seq<TraitItemType>, vs: Seq<MsgVariantV>, ty: MsgType) -> Seq<Seq<char>> {
    let u = used_of(name_toks(kept_names(items)), kind_types(vs, ty));
    Seq::new(u.len(), |k: int| first_ident(u[k]))
}

/// `< ContractT as Trait > :: name`, when the interface declares the
/// associated type `name`.
pub open spec fn contract_assoc(tn: Seq<char>, idents: Seq<Seq<char>>, name: Seq<char>) -> Option<Seq<TokV>> {
    if idents.contains(name) {
        Some(seq![tokens::pc('<'), tokens::id("ContractT"), tokens::id("as"), TokV::Ident(tn), tokens::pc('>'), tokens::pc(':'), tokens::pc(':'), TokV::Ident(name)])
    } else {
        None
    }
}

/// The custom type: the one the attribute gives, else the one the
/// interface's associated type gives, else the default one.
pub open spec fn custom_or_assoc(c: Option<Seq<TokV>>, a: Option<Seq<TokV>>, sy: Seq<TokV>) -> Seq<TokV> {
    match (c, a) {
        (Some(m), _) => m,
        (None, Some(e)) => e,
        (None, None) => parser::default_type(sy),
    }
}

/// The message enum of kind `ty` of the interface `tn` with the methods
/// `vs` and the associated types `items`: a variant, a dispatch arm and a
/// constructor for each method of the kind, over the associated types their
/// messages use, with a phantom variant and its arm exactly when they use
/// some.
pub open spec fn iface_enum_message_tokens(
    tn: Seq<char>,
    vs: Seq<MsgVariantV>,
    items: Seq<TraitItemType>,
    ty: MsgType,
    cmsg: Option<Seq<TokV>>,
    cquery: Option<Seq<TokV>>,
    attrs: Seq<Seq<TokV>>,
    sy: Seq<TokV>,
) -> Seq<TokV> {
    let kv = of_kind(vs, ty);
    let gv = name_toks(kept_names(items));
    let ug = used_of(gv, kind_types(vs, ty));
    let ki = kept_items(items);
    interface_enum_tokens(
        tn,
        msg_type::msg_name(ty, false),
        vs,
        items,
        ty,
        custom_or_assoc(cmsg, contract_assoc(tn, item_idents(items), "ExecC"@), sy),
        custom_or_assoc(cquery, contract_assoc(tn, item_idents(items), "QueryC"@), sy),
        ug,
        unused_of_toks(gv, kind_types(vs, ty)),
        None,
        Seq::new(ki.len(), |k: int| where_predicate(ki[k])),
        attrs,
        enum_derive(derive_query(ty, sy), sy),
        Seq::new(kv.len(), |i: int| enum_variant(kv[i])),
        Seq::new(kv.len(), |i: int| enum_arm(kv[i], sy)),
        if ug.len() > 0 {
            phantom_arm(sy)
        } else {
            Seq::empty()
        },
        tokens::concat(Seq::new(kv.len(), |i: int| enum_ctor(kv[i]))),
        enum_phantom(ug),
        sy,
    )
}

/// The module `sv` generated for an interface: its execute, query and sudo
/// messages, its querier and executor traits, its messages API, and its
/// MultiTest helpers when `mt` is set.
#[verifier::opaque]
pub open spec fn interface_sv(
    tn: Seq<char>,
    vs: Seq<MsgVariantV>,
    items: Seq<TraitItemType>,
    w: Option<(Seq<WherePredicateV>, bool)>,
    cmsg: Option<Seq<TokV>>,
    cquery: Option<Seq<TokV>>,
    fwd: Seq<(MsgType, Seq<TokV>)>,
    sy: Seq<TokV>,
    mt: bool,
) -> Seq<TokV> {
    let ki = kept_items(items);
    let kn = kept_names(items);
    sv_module(
        iface_enum_message_tokens(tn, vs, items, MsgType::Exec, cmsg, cquery, forwarded_of(fwd, MsgType::Exec), sy)
            + iface_enum_message_tokens(tn, vs, items, MsgType::Query, cmsg, cquery, forwarded_of(fwd, MsgType::Query), sy)
            + iface_enum_message_tokens(tn, vs, items, MsgType::Sudo, cmsg, cquery, forwarded_of(fwd, MsgType::Sudo), sy)
            + iface_querier_tokens(tn, ki, kn, of_kind(vs, MsgType::Query), sy)
            + iface_executor_tokens(tn, ki, kn, of_kind(vs, MsgType::Exec), sy)
            + messages_api_tokens(
                tn,
                kn,
                used_names(items, vs, MsgType::Exec),
                used_names(items, vs, MsgType::Query),
                used_names(items, vs, MsgType::Sudo),
            ) + if mt {
            mt_tokens(tn, w, ki, kn, vs, sy)
        } else {
            Seq::empty()
        },
    )
}

/// The default of a custom type.
pub open spec fn or_default(t: Option<Seq<TokV>>, sy: Seq<TokV>) -> Seq<TokV> {
    match t {
        Some(m) => m,
        None => parser::default_type(sy),
    }
}

impl EnumMessage {
    /// The message enum of its kind, over the generic parameters `generics`
    /// of the contract.
    pub fn emit(&self, sylvia: &Vec<Tok>, generics: &Vec<Generic>) -> (r: Vec<Tok>)
        ensures
            tokens::toks(r@) == enum_message_tokens(
                reply::variants_view(self.variants@),
                self.msg_ty,
                tokens::toks(self.contract@),
                generics@,
                where_value(self.where_clause),
                parser::toks2(self.msg_attrs_to_forward@),
                or_default(self.custom@.msg, tokens::toks(sylvia@)),
                or_default(self.custom@.query, tokens::toks(sylvia@)),
                tokens::toks(self.error.error@),
                tokens::toks(sylvia@),
            ),
    {
        let ghost vv = reply::variants_view(self.variants@);
        let ghost sy = tokens::toks(sylvia@);
        let ts = kind_types_exec(&self.variants, self.msg_ty);
        let (used, unused) = split_generics(generics, &ts);
        let kv = of_kind_exec(&self.variants, self.msg_ty);
        let (vs, arms, ctors) = enum_pieces(&kv, sylvia);
        let ghost k = of_kind(vv, self.msg_ty);
        assert(parser::toks2(vs@) =~= Seq::new(k.len(), |i: int| enum_variant(k[i])));
        assert(parser::toks2(arms@) =~= Seq::new(k.len(), |i: int| enum_arm(k[i], sy)));
        assert(Seq::new(kv@.len(), |i: int| enum_ctor(kv@[i]@)) =~= Seq::new(k.len(), |i: int| enum_ctor(k[i])));
        let phantom = enum_phantom_exec(&used);
        let name = self.msg_ty.emit_msg_name(false);
        self.emit_parts(sylvia, &name, &used, &unused, &vs, &arms, &ctors, &phantom)
    }
}

/// The types of the parameters of `v`, and for a query its response.
fn method_types_exec(v: &MsgVariant) -> (r: Vec<Vec<Tok>>)
    ensures
        parser::toks2(r@) == method_types(v@),
{
    let mut r: Vec<Vec<Tok>> = Vec::new();
    let mut j: usize = 0;
    while j < v.fields.len()
        invariant
            j <= v.fields.len(),
            parser::toks2(r@) == field_types(v@).take(j as int),
        decreases v.fields.len() - j,
    {
        let ghost prev = r@;
        let c = tokens::copy_toks(&v.fields[j].ty);
        assert(tokens::toks(c@) == field_types(v@)[j as int]);
        r.push(c);
        assert(parser::toks2(r@) =~= parser::toks2(prev).push(tokens::toks(c@)));
        assert(field_types(v@).take(j + 1) =~= field_types(v@).take(j as int).push(field_types(v@)[j as int]));
        j = j + 1;
    }
    assert(field_types(v@).take(j as int) =~= field_types(v@));
    if v.msg_type == MsgType::Query {
        let ghost prev = r@;
        let c = tokens::copy_toks(&v.return_type);
        r.push(c);
        assert(parser::toks2(r@) =~= parser::toks2(prev).push(tokens::toks(c@)));
    }
    r
}

impl StructMessage {
    /// The message struct of its kind and its implementation, over the
    /// generic parameters `generics` of the contract that its fields use,
    /// with the where clause of the contract; nothing when the contract has
    /// no message of the kind.
    pub fn emit(&self, sylvia: &Vec<Tok>, generics: &Vec<Generic>) -> (r: Vec<Tok>)
        ensures
            tokens::toks(r@) == match self.variant {
                Some(v) => struct_tokens(
                    v@,
                    tokens::toks(self.contract_type@),
                    used_generics(generics@, method_types(v@)),
                    unused_generics(generics@, method_types(v@)),
                    where_value(self.full_where),
                    where_value(self.full_where),
                    parser::toks2(self.msg_attrs_to_forward@),
                    or_default(self.custom@.msg, tokens::toks(sylvia@)),
                    or_default(self.custom@.query, tokens::toks(sylvia@)),
                    tokens::toks(self.error.error@),
                    tokens::toks(sylvia@),
                ),
                None => Seq::empty(),
            },
    {
        match &self.variant {
            Some(v) => {
                let ts = method_types_exec(v);
                let (used, unused) = split_generics(generics, &ts);
                self.emit_parts(sylvia, &used, &unused, &self.full_where)
            },
            None => {
                let none: Vec<Vec<Tok>> = Vec::new();
                self.emit_parts(sylvia, &none, &none, &self.full_where)
            },
        }
    }
}


/// A method of kind `ty` is among the positions of the methods of that kind.
proof fn lemma_positions_complete(vs: Seq<MsgVariantV>, ty: MsgType, i: int)
    requires
        0 <= i < vs.len(),
        vs.len() <= usize::MAX,
        vs[i].msg_type == ty,
    ensures
        exists|k: int| 0 <= k < variant_positions(vs, ty).len() && variant_positions(vs, ty)[k] == i,
    decreases vs.len(),
{
    let p = variant_positions(vs.drop_last(), ty);
    if i == vs.len() - 1 {
        assert(variant_positions(vs, ty) == p.push((vs.len() - 1) as usize));
        assert(variant_positions(vs, ty)[p.len() as int] == i);
    } else {
        lemma_positions_complete(vs.drop_last(), ty, i);
        let k = choose|k: int| 0 <= k < p.len() && p[k] == i;
        if vs.last().msg_type == ty {
            assert(variant_positions(vs, ty) == p.push((vs.len() - 1) as usize));
            assert(variant_positions(vs, ty)[k] == i);
        } else {
            assert(variant_positions(vs, ty) == p);
        }
    }
}

/// Every message of a kind has its method on the contract's MultiTest
/// proxy: the proxy methods of the kind hold the method of each of them.
pub proof fn proxy_method_per_message(
    vs: Seq<MsgVariantV>,
    ty: MsgType,
    i: int,
    cm: Seq<TokV>,
    err: Seq<TokV>,
    api: Seq<TokV>,
    sy: Seq<TokV>,
)
    requires
        0 <= i < vs.len(),
        vs.len() <= usize::MAX,
        vs[i].msg_type == ty,
    ensures
        tokens::is_infix(proxy_method(vs[i], cm, err, api, sy), proxy_methods(vs, ty, cm, err, api, sy)),
{
    lemma_positions_complete(vs, ty, i);
    lemma_positions_in_range(vs, ty);
    let ps = variant_positions(vs, ty);
    let k = choose|k: int| 0 <= k < ps.len() && ps[k] == i;
    let kv = of_kind(vs, ty);
    let ms = Seq::new(kv.len(), |j: int| proxy_method(kv[j], cm, err, api, sy));
    assert(kv[k] == vs[i]);
    tokens::lemma_concat_part(ms, k);
}

/// Every message of a kind has a variant, a dispatch arm and a constructor
/// in the enum of that kind: they are those of the methods of the kind, in
/// order; and the enum has a phantom variant exactly when its messages use
/// generics.
pub proof fn enum_parts_per_message(vs: Seq<MsgVariantV>, ty: MsgType, i: int, generics: Seq<Generic>, sy: Seq<TokV>)
    requires
        0 <= i < vs.len(),
        vs.len() <= usize::MAX,
        vs[i].msg_type == ty,
    ensures
        exists|k: int|
            0 <= k < of_kind(vs, ty).len() && #[trigger] of_kind(vs, ty)[k] == vs[i] && Seq::new(
                of_kind(vs, ty).len(),
                |j: int| enum_variant(of_kind(vs, ty)[j]),
            )[k] == enum_variant(vs[i]) && Seq::new(of_kind(vs, ty).len(), |j: int| enum_arm(of_kind(vs, ty)[j], sy))[k] == enum_arm(
                vs[i],
                sy,
            ),
        tokens::is_infix(enum_ctor(vs[i]), tokens::concat(Seq::new(of_kind(vs, ty).len(), |j: int| enum_ctor(of_kind(vs, ty)[j])))),
        (enum_phantom(used_generics(generics, kind_types(vs, ty))).len() > 0) == (used_generics(generics, kind_types(vs, ty)).len() > 0),
{
    lemma_positions_complete(vs, ty, i);
    lemma_positions_in_range(vs, ty);
    let ps = variant_positions(vs, ty);
    let k = choose|k: int| 0 <= k < ps.len() && ps[k] == i;
    let kv = of_kind(vs, ty);
    assert(kv[k] == vs[i]);
    tokens::lemma_concat_part(Seq::new(kv.len(), |j: int| enum_ctor(kv[j])), k);
}

/// The attributes forwarded to the message of kind `ty`.
pub fn forwarded_exec(fwd: &Vec<(MsgType, Vec<Tok>)>, ty: MsgType) -> (r: Vec<Vec<Tok>>)
    ensures
        parser::toks2(r@) == forwarded_of(parser::forwarded_view(fwd@), ty),
{
    let mut r: Vec<Vec<Tok>> = Vec::new();
    let mut i: usize = 0;
    let ghost fv = parser::forwarded_view(fwd@);
    assert(fv.take(0) =~= Seq::<(MsgType, Seq<TokV>)>::empty());
    while i < fwd.len()
        invariant
            i <= fwd.len(),
            fv == parser::forwarded_view(fwd@),
            parser::toks2(r@) == forwarded_of(fv.take(i as int), ty),
        decreases fwd.len() - i,
    {
        assert(fv.take(i + 1).drop_last() =~= fv.take(i as int));
        assert(fv.take(i + 1).last() == (fwd@[i as int].0, tokens::toks(fwd@[i as int].1@)));
        if fwd[i].0 == ty {
            let ghost prev = r@;
            let c = tokens::copy_toks(&fwd[i].1);
            r.push(c);
            assert(parser::toks2(r@) =~= parser::toks2(prev).push(tokens::toks(c@)));
        }
        i = i + 1;
    }
    assert(fv.take(i as int) =~= fv);
    r
}

/// `< contract as sylvia :: types :: ContractApi >`
fn contract_api_exec(contract: &Vec<Tok>, sylvia: &Vec<Tok>) -> (r: Vec<Tok>)
    ensures
        tokens::toks(r@) == contract_api(tokens::toks(contract@), tokens::toks(sylvia@)),
{
    let mut r: Vec<Tok> = Vec::new();
    tokens::push_punct(&mut r, '<');
    tokens::extend_toks(&mut r, contract);
    tokens::push_ident(&mut r, "as");
    tokens::extend_toks(&mut r, sylvia);
    tokens::push_punct(&mut r, ':');
    tokens::push_punct(&mut r, ':');
    tokens::push_ident(&mut r, "types");
    tokens::push_punct(&mut r, ':');
    tokens::push_punct(&mut r, ':');
    tokens::push_ident(&mut r, "ContractApi");
    tokens::push_punct(&mut r, '>');
    assert(tokens::toks(r@) =~= contract_api(tokens::toks(contract@), tokens::toks(sylvia@)));
    r
}

/// The message types of kind `ty` of the interfaces `ifs`.
fn glue_types_exec(sylvia: &Vec<Tok>, ifs: &Interfaces, ty: MsgType) -> (r: Vec<Vec<Tok>>)
    ensures
        parser::toks2(r@) == glue_types(tokens::toks(sylvia@), interfaces_view(ifs.interfaces@), ty),
{
    let ghost is = interfaces_view(ifs.interfaces@);
    let ghost sy = tokens::toks(sylvia@);
    let acc = match ty.as_accessor_name(false) {
        Some(a) => a,
        None => String::new(),
    };
    let mut r: Vec<Vec<Tok>> = Vec::new();
    let mut k: usize = 0;
    while k < ifs.interfaces.len()
        invariant
            k <= ifs.interfaces.len(),
            is == interfaces_view(ifs.interfaces@),
            sy == tokens::toks(sylvia@),
            acc@ == msg_type::accessor_name(ty, false),
            parser::toks2(r@) == glue_types(sy, is, ty).take(k as int),
        decreases ifs.interfaces.len() - k,
    {
        let mut t: Vec<Tok> = Vec::new();
        crate::interfaces::push_interface_api(&mut t, sylvia, &ifs.interfaces[k]);
        tokens::push_punct(&mut t, ':');
        tokens::push_punct(&mut t, ':');
        tokens::push_tok(&mut t, Tok::Ident(acc.clone()));
        assert(is[k as int] == ifs.interfaces@[k as int]@);
        assert(tokens::toks(t@) =~= glue_types(sy, is, ty)[k as int]);
        let ghost prev = r@;
        r.push(t);
        assert(parser::toks2(r@) =~= parser::toks2(prev).push(tokens::toks(t@)));
        assert(glue_types(sy, is, ty).take(k + 1) =~= glue_types(sy, is, ty).take(k as int).push(glue_types(sy, is, ty)[k as int]));
        k = k + 1;
    }
    assert(glue_types(sy, is, ty).take(k as int) =~= glue_types(sy, is, ty));
    r
}

/// The proxy methods of the messages of kind `ty` among `vs`.
fn proxy_methods_exec(vs: &Vec<MsgVariant>, ty: MsgType, cm: &Vec<Tok>, err: &Vec<Tok>, api: &Vec<Tok>, sylvia: &Vec<Tok>) -> (r: Vec<Tok>)
    ensures
        tokens::toks(r@) == proxy_methods(
            reply::variants_view(vs@),
            ty,
            tokens::toks(cm@),
            tokens::toks(err@),
            tokens::toks(api@),
            tokens::toks(sylvia@),
        ),
{
    let ghost sy = tokens::toks(sylvia@);
    let ghost c = tokens::toks(cm@);
    let ghost e = tokens::toks(err@);
    let ghost a = tokens::toks(api@);
    let kv = of_kind_exec(vs, ty);
    let ghost k = of_kind(reply::variants_view(vs@), ty);
    let ghost ms = Seq::new(k.len(), |i: int| proxy_method(k[i], c, e, a, sy));
    let app = crate::multitest::proxy_app_exec(sylvia);
    let mut r: Vec<Tok> = Vec::new();
    let mut i: usize = 0;
    assert(ms.take(0) =~= Seq::<Seq<TokV>>::empty());
    assert(tokens::toks(r@) =~= tokens::concat(ms.take(0)));
    while i < kv.len()
        invariant
            i <= kv.len(),
            reply::variants_view(kv@) == k,
            ms == Seq::new(k.len(), |j: int| proxy_method(k[j], c, e, a, sy)),
            tokens::toks(app@) == proxy_app(sy),
            sy == tokens::toks(sylvia@),
            c == tokens::toks(cm@),
            e == tokens::toks(err@),
            a == tokens::toks(api@),
            tokens::toks(r@) == tokens::concat(ms.take(i as int)),
        decreases kv.len() - i,
    {
        let v = &kv[i];
        assert(v@ == k[i as int]);
        let d = v.emit_mt_method_definition(cm, &app, err, api, sylvia);
        let ghost dv = mt_definition(v@, c, proxy_app(sy), e, a, sy);
        let mut m: Vec<Tok> = Vec::new();
        if v.msg_type == MsgType::Exec || v.msg_type == MsgType::Migrate {
            assert(dv.len() >= 4);
            let head = tokens::slice_toks(&d, 0, 4);
            let rest = tokens::slice_toks(&d, 4, d.len());
            tokens::extend_toks(&mut m, &head);
            tokens::push_ident(&mut m, "pub");
            tokens::extend_toks(&mut m, &rest);
            assert(dv.take(4) =~= dv.subrange(0, 4));
            assert(dv.skip(4) =~= dv.subrange(4, dv.len() as int));
        } else {
            tokens::push_ident(&mut m, "pub");
            tokens::extend_toks(&mut m, &d);
        }
        assert(tokens::toks(m@) =~= proxy_method(v@, c, e, a, sy));
        tokens::extend_toks(&mut r, &m);
        assert(ms.take(i + 1).drop_last() =~= ms.take(i as int));
        i = i + 1;
    }
    assert(ms.take(i as int) =~= ms);
    r
}

impl ContractInput {
    /// The message struct of kind `ty` of the contract.
    fn emit_struct_msg(
        &self,
        ty: MsgType,
        contract: &Vec<Tok>,
        generics: &Vec<Generic>,
        where_clause: &Option<WhereClause>,
        forwarded: &Vec<(MsgType, Vec<Tok>)>,
        variants: &Vec<MsgVariant>,
        sylvia: &Vec<Tok>,
    ) -> (r: Vec<Tok>)
        ensures
            tokens::toks(r@) == struct_message_tokens(
                reply::variants_view(variants@),
                ty,
                tokens::toks(contract@),
                generics@,
                where_value(*where_clause),
                forwarded_of(parser::forwarded_view(forwarded@), ty),
                or_default(self.custom@.msg, tokens::toks(sylvia@)),
                or_default(self.custom@.query, tokens::toks(sylvia@)),
                tokens::toks(self.error.error@),
                tokens::toks(sylvia@),
            ),
    {
        let ghost vv = reply::variants_view(variants@);
        let attrs = forwarded_exec(forwarded, ty);
        let vs = copies::copy_variants(variants);
        let ghost ps = variant_positions(vv, ty);
        let ghost vs0 = vs@;
        proof {
            lemma_positions_in_range(vv, ty);
        }
        let (m, _) = StructMessage::new(
            vs,
            ty,
            tokens::copy_toks(contract),
            copies::copy_where(where_clause),
            copies::copy_error(&self.error),
            copies::copy_custom(&self.custom),
            attrs,
        );
        match m {
            Some(m) => {
                match &m.variant {
                    Some(v) => {
                        assert(ps.len() == 1);
                        assert(v@ == vs0[ps[0] as int]@);
                        assert(v@ == vv[ps[0] as int]);
                    },
                    None => {
                        assert(ps.len() == 0);
                    },
                }
                m.emit(sylvia, generics)
            },
            None => {
                let r: Vec<Tok> = Vec::new();
                assert(tokens::toks(r@) =~= Seq::<TokV>::empty());
                r
            },
        }
    }

    /// The message enum of kind `ty` of the contract.
    fn emit_enum_msg(
        &self,
        ty: MsgType,
        contract: &Vec<Tok>,
        generics: &Vec<Generic>,
        where_clause: &Option<WhereClause>,
        forwarded: &Vec<(MsgType, Vec<Tok>)>,
        variants: &Vec<MsgVariant>,
        sylvia: &Vec<Tok>,
    ) -> (r: Vec<Tok>)
        ensures
            tokens::toks(r@) == enum_message_tokens(
                reply::variants_view(variants@),
                ty,
                tokens::toks(contract@),
                generics@,
                where_value(*where_clause),
                forwarded_of(parser::forwarded_view(forwarded@), ty),
                or_default(self.custom@.msg, tokens::toks(sylvia@)),
                or_default(self.custom@.query, tokens::toks(sylvia@)),
                tokens::toks(self.error.error@),
                tokens::toks(sylvia@),
            ),
    {
        let m = EnumMessage::new(
            copies::copy_variants(variants),
            ty,
            tokens::copy_toks(contract),
            copies::copy_error(&self.error),
            copies::copy_custom(&self.custom),
            copies::copy_where(where_clause),
            forwarded_exec(forwarded, ty),
        );
        m.emit(sylvia, generics)
    }

    /// The wrapper message of kind `ty` of the contract.
    fn emit_glue_msg(
        &self,
        ty: MsgType,
        contract: &Vec<Tok>,
        generics: &Vec<Generic>,
        where_clause: &Option<WhereClause>,
        sylvia: &Vec<Tok>,
    ) -> (r: Vec<Tok>)
        ensures
            tokens::toks(r@) == glue_tokens(
                msg_type::msg_name(ty, true),
                generics_toks(generics@),
                where_value(*where_clause),
                tokens::toks(contract@),
                ty,
                interfaces_view(self.interfaces.interfaces@),
                glue_types(tokens::toks(sylvia@), interfaces_view(self.interfaces.interfaces@), ty),
                or_default(self.custom@.msg, tokens::toks(sylvia@)),
                or_default(self.custom@.query, tokens::toks(sylvia@)),
                tokens::toks(self.error.error@),
                tokens::toks(sylvia@),
            ),
    {
        let g = GlueMessage::new(
            generic_tokens(generics),
            copies::copy_where(where_clause),
            tokens::copy_toks(contract),
            ty,
            copies::copy_error(&self.error),
            copies::copy_custom(&self.custom),
            copies::copy_interfaces(&self.interfaces),
        );
        let types = glue_types_exec(sylvia, &self.interfaces, ty);
        g.emit(sylvia, &types)
    }

    /// The messages of the contract.
    fn emit_messages(
        &self,
        contract: &Vec<Tok>,
        generics: &Vec<Generic>,
        where_clause: &Option<WhereClause>,
        forwarded: &Vec<(MsgType, Vec<Tok>)>,
        variants: &Vec<MsgVariant>,
        sylvia: &Vec<Tok>,
    ) -> (r: Vec<Tok>)
        ensures
            tokens::toks(r@) == contract_messages(
                reply::variants_view(variants@),
                tokens::toks(contract@),
                generics@,
                where_value(*where_clause),
                interfaces_view(self.interfaces.interfaces@),
                parser::forwarded_view(forwarded@),
                or_default(self.custom@.msg, tokens::toks(sylvia@)),
                or_default(self.custom@.query, tokens::toks(sylvia@)),
                tokens::toks(self.error.error@),
                tokens::toks(sylvia@),
            ),
    {
        let mut r = self.emit_struct_msg(MsgType::Instantiate, contract, generics, where_clause, forwarded, variants, sylvia);
        let p = self.emit_enum_msg(MsgType::Exec, contract, generics, where_clause, forwarded, variants, sylvia);
        tokens::extend_toks(&mut r, &p);
        let p = self.emit_enum_msg(MsgType::Query, contract, generics, where_clause, forwarded, variants, sylvia);
        tokens::extend_toks(&mut r, &p);
        let p = self.emit_enum_msg(MsgType::Sudo, contract, generics, where_clause, forwarded, variants, sylvia);
        tokens::extend_toks(&mut r, &p);
        let p = self.emit_struct_msg(MsgType::Migrate, contract, generics, where_clause, forwarded, variants, sylvia);
        tokens::extend_toks(&mut r, &p);
        let p = self.emit_glue_msg(MsgType::Exec, contract, generics, where_clause, sylvia);
        tokens::extend_toks(&mut r, &p);
        let p = self.emit_glue_msg(MsgType::Query, contract, generics, where_clause, sylvia);
        tokens::extend_toks(&mut r, &p);
        let p = self.emit_glue_msg(MsgType::Sudo, contract, generics, where_clause, sylvia);
        tokens::extend_toks(&mut r, &p);
        r
    }

    /// The MultiTest helpers of the contract.
    fn emit_multitest_helpers(
        &self,
        contract: &Vec<Tok>,
        generics: &Vec<Generic>,
        where_clause: &Option<WhereClause>,
        variants: &Vec<MsgVariant>,
        instantiate2_available: bool,
        sylvia: &Vec<Tok>,
    ) -> (r: Vec<Tok>)
        requires
            is_type_path(tokens::toks(contract@)),
        ensures
            tokens::toks(r@) == contract_multitest(
                reply::variants_view(variants@),
                tokens::toks(contract@),
                generics@,
                where_value(*where_clause),
                parser::overrides_view(self.override_entry_points.0@),
                or_default(self.custom@.msg, tokens::toks(sylvia@)),
                or_default(self.custom@.query, tokens::toks(sylvia@)),
                tokens::toks(self.error.error@),
                tokens::toks(sylvia@),
                instantiate2_available,
            ),
    {
        let its = kind_types_exec(variants, MsgType::Instantiate);
        let (instantiate_generics, _) = split_generics(generics, &its);
        let contract_name = extract_contract_name(contract);
        let mut proxy_name = contract_name.clone();
        proxy_name.append("Proxy");
        let h = ContractMtHelpers {
            error_type: tokens::copy_toks(&self.error.error),
            contract: tokens::copy_toks(contract),
            generic_params: generic_tokens(generics),
            where_clause: copies::copy_where(where_clause),
            contract_name,
            proxy_name,
            custom: copies::copy_custom(&self.custom),
            override_entry_points: copies::copy_overrides(&self.override_entry_points),
            variants: copies::copy_variants(variants),
            instantiate_generics,
        };
        let cm = self.custom.msg_or_default(sylvia);
        let api = contract_api_exec(contract, sylvia);
        let e = proxy_methods_exec(variants, MsgType::Exec, &cm, &self.error.error, &api, sylvia);
        let m = proxy_methods_exec(variants, MsgType::Migrate, &cm, &self.error.error, &api, sylvia);
        let q = proxy_methods_exec(variants, MsgType::Query, &cm, &self.error.error, &api, sylvia);
        let s = proxy_methods_exec(variants, MsgType::Sudo, &cm, &self.error.error, &api, sylvia);
        h.emit(instantiate2_available, &e, &m, &q, &s, sylvia)
    }

    /// The module `sv` of the contract `contract`, implemented with the
    /// generic parameters `generics` and the where clause `where_clause` by
    /// the methods `variants`: its messages (the instantiation message, the
    /// execute, query and sudo enums, the migration message and the wrapper
    /// messages over its interfaces), its MultiTest helpers when `mt` is set,
    /// the querier and executor helpers of its queries and execute messages,
    /// and its API. `forwarded` are the attributes to forward to the message
    /// of each kind.
    #[verifier::rlimit(80)]
    #[verifier::spinoff_prover]
    pub fn process(
        &self,
        contract: &Vec<Tok>,
        generics: &Vec<Generic>,
        where_clause: &Option<WhereClause>,
        forwarded: &Vec<(MsgType, Vec<Tok>)>,
        variants: &Vec<MsgVariant>,
        mt: bool,
        instantiate2_available: bool,
        sylvia: &Vec<Tok>,
    ) -> (r: Vec<Tok>)
        requires
            is_type_path(tokens::toks(contract@)),
        ensures
            tokens::toks(r@) == contract_sv(
                reply::variants_view(variants@),
                tokens::toks(contract@),
                generics@,
                where_value(*where_clause),
                interfaces_view(self.interfaces.interfaces@),
                parser::overrides_view(self.override_entry_points.0@),
                parser::forwarded_view(forwarded@),
                or_default(self.custom@.msg, tokens::toks(sylvia@)),
                or_default(self.custom@.query, tokens::toks(sylvia@)),
                tokens::toks(self.error.error@),
                tokens::toks(sylvia@),
                mt,
                instantiate2_available,
            ),
    {
        let ghost vv = reply::variants_view(variants@);
        let ghost sy = tokens::toks(sylvia@);
        let ghost ct = tokens::toks(contract@);
        let ghost w = where_value(*where_clause);
        let ghost gt = generics_toks(generics@);
        let ghost cm = or_default(self.custom@.msg, sy);
        let ghost cq = or_default(self.custom@.query, sy);
        let ghost err = tokens::toks(self.error.error@);
        let mut r = sv_open_exec();
        let msgs = self.emit_messages(contract, generics, where_clause, forwarded, variants, sylvia);
        let ghost pm = contract_messages(vv, ct, generics@, w, interfaces_view(self.interfaces.interfaces@), parser::forwarded_view(forwarded@), cm, cq, err, sy);
        tokens::extend_toks(&mut r, &msgs);
        let ghost ph = if mt {
            contract_multitest(vv, ct, generics@, w, parser::overrides_view(self.override_entry_points.0@), cm, cq, err, sy, instantiate2_available)
        } else {
            Seq::<TokV>::empty()
        };
        if mt {
            let h = self.emit_multitest_helpers(contract, generics, where_clause, variants, instantiate2_available, sylvia);
            tokens::extend_toks(&mut r, &h);
        } else {
            assert(tokens::toks(r@) =~= tokens::toks(r@) + ph);
        }
        assert(tokens::toks(r@) == sv_open() + pm + ph);
        let gtv = generic_tokens(generics);
        let querier = Querier::new(
            copies::copy_toks2(&gtv),
            copies::copy_where(where_clause),
            tokens::copy_toks(contract),
            of_kind_exec(variants, MsgType::Query),
        ).emit(sylvia);
        let ghost pq = querier_tokens(gt, w, ct, of_kind(vv, MsgType::Query), sy);
        assert(tokens::toks(querier@) == pq);
        tokens::extend_toks(&mut r, &querier);
        let executor = Executor::new(
            copies::copy_toks2(&gtv),
            copies::copy_where(where_clause),
            tokens::copy_toks(contract),
            of_kind_exec(variants, MsgType::Exec),
        ).emit(sylvia);
        let ghost pe = executor_tokens(gt, w, ct, of_kind(vv, MsgType::Exec), sy);
        assert(tokens::toks(executor@) == pe);
        tokens::extend_toks(&mut r, &executor);
        let used = self.used_by_kind(generics, variants);
        let api = Api::new(
            tokens::copy_toks(contract),
            gtv,
            copies::copy_where(where_clause),
            copies::copy_variants(variants),
            used,
            copies::copy_custom(&self.custom),
        ).emit(sylvia);
        let ghost pa = api_tokens(ct, gt, w, used_by_kind(vv, generics@), has_kind(vv, MsgType::Migrate), cm, cq, sy);
        assert(tokens::toks(api@) == pa);
        tokens::extend_toks(&mut r, &api);
        tokens::push_tok(&mut r, Tok::Close(Delim::Brace));
        assert(tokens::toks(r@) =~= sv_module(pm + ph + pq + pe + pa));
        reveal(contract_sv);
        r
    }

    /// The generics the messages of each kind use.
    fn used_by_kind(&self, generics: &Vec<Generic>, variants: &Vec<MsgVariant>) -> (r: UsedGenerics)
        ensures
            r@ == used_by_kind(reply::variants_view(variants@), generics@),
    {
        let (execute, _) = split_generics(generics, &kind_types_exec(variants, MsgType::Exec));
        let (query, _) = split_generics(generics, &kind_types_exec(variants, MsgType::Query));
        let (instantiate, _) = split_generics(generics, &kind_types_exec(variants, MsgType::Instantiate));
        let (migrate, _) = split_generics(generics, &kind_types_exec(variants, MsgType::Migrate));
        let (sudo, _) = split_generics(generics, &kind_types_exec(variants, MsgType::Sudo));
        UsedGenerics { execute, query, instantiate, migrate, sudo }
    }
}

fn enum_derive_exec(dq: &Vec<Tok>, sylvia: &Vec<Tok>) -> (r: Vec<Tok>)
    ensures
        tokens::toks(r@) == enum_derive(tokens::toks(dq@), tokens::toks(sylvia@)),
{
    let mut r: Vec<Tok> = Vec::new();
    let k1: Vec<Tok> = vec![Tok::Punct('#'), Tok::Open(Delim::Bracket), Tok::ident("derive"), Tok::Open(Delim::Paren)];
    assert(tokens::toks(k1@) =~= seq![tokens::pc('#'), TokV::Open(Delim::Bracket), tokens::id("derive"), TokV::Open(Delim::Paren)]);
    tokens::extend_toks(&mut r, &k1);
    push_path3(&mut r, sylvia, "serde", "Serialize");
    let k2: Vec<Tok> = vec![Tok::Punct(',')];
    assert(tokens::toks(k2@) =~= seq![tokens::pc(',')]);
    tokens::extend_toks(&mut r, &k2);
    push_path3(&mut r, sylvia, "serde", "Deserialize");
    let k3: Vec<Tok> = vec![Tok::Punct(','), Tok::ident("Clone"), Tok::Punct(','), Tok::ident("Debug"), Tok::Punct(','), Tok::ident("PartialEq"), Tok::Punct(',')];
    assert(tokens::toks(k3@) =~= seq![tokens::pc(','), tokens::id("Clone"), tokens::pc(','), tokens::id("Debug"), tokens::pc(','), tokens::id("PartialEq"), tokens::pc(',')]);
    tokens::extend_toks(&mut r, &k3);
    push_path3(&mut r, sylvia, "schemars", "JsonSchema");
    let k4: Vec<Tok> = vec![Tok::Punct(',')];
    assert(tokens::toks(k4@) =~= seq![tokens::pc(',')]);
    tokens::extend_toks(&mut r, &k4);
    tokens::extend_toks(&mut r, dq);
    let k5: Vec<Tok> = vec![Tok::Close(Delim::Paren), Tok::Close(Delim::Bracket)];
    assert(tokens::toks(k5@) =~= seq![TokV::Close(Delim::Paren), TokV::Close(Delim::Bracket)]);
    tokens::extend_toks(&mut r, &k5);
    assert(tokens::toks(r@) =~= enum_derive(tokens::toks(dq@), tokens::toks(sylvia@)));
    r
}

/// A copy of the associated types.
fn copy_items(items: &Vec<TraitItemType>) -> (r: Vec<TraitItemType>)
    ensures
        r@.len() == items@.len(),
        forall|i: int| 0 <= i < r@.len() ==> (#[trigger] r@[i])@ == items@[i]@ && r@[i].ident@ == items@[i].ident@,
{
    let mut r: Vec<TraitItemType> = Vec::new();
    let mut k: usize = 0;
    while k < items.len()
        invariant
            k <= items.len(),
            r@.len() == k,
            forall|i: int| 0 <= i < k ==> (#[trigger] r@[i])@ == items@[i]@ && r@[i].ident@ == items@[i].ident@,
        decreases items.len() - k,
    {
        let t = &items[k];
        r.push(TraitItemType { ident: t.ident.clone(), colon: t.colon, bounds: tokens::copy_toks(&t.bounds) });
        k = k + 1;
    }
    r
}

/// `< ContractT as Trait > :: name` when the interface declares `name`.
fn contract_assoc_exec(tn: &String, items: &Vec<TraitItemType>, name: &str) -> (r: Option<Vec<Tok>>)
    ensures
        match r {
            Some(t) => contract_assoc(tn@, item_idents(items@), name@) == Some(tokens::toks(t@)),
            None => contract_assoc(tn@, item_idents(items@), name@) is None,
        },
{
    let ghost ids = item_idents(items@);
    let mut found = false;
    let mut k: usize = 0;
    while k < items.len()
        invariant
            k <= items.len(),
            ids == item_idents(items@),
            found == exists|j: int| 0 <= j < k && ids[j] == name@,
        decreases items.len() - k,
    {
        assert(ids[k as int] == items@[k as int].ident@);
        if tokens::string_is(&items[k].ident, name) {
            found = true;
            assert(ids[k as int] == name@);
        }
        k = k + 1;
    }
    if found {
        assert(ids.contains(name@));
        let mut t: Vec<Tok> = Vec::new();
        tokens::push_punct(&mut t, '<');
        tokens::push_ident(&mut t, "ContractT");
        tokens::push_ident(&mut t, "as");
        tokens::push_tok(&mut t, Tok::Ident(tn.clone()));
        tokens::push_punct(&mut t, '>');
        tokens::push_punct(&mut t, ':');
        tokens::push_punct(&mut t, ':');
        tokens::push_ident(&mut t, name);
        assert(tokens::toks(t@) =~= seq![tokens::pc('<'), tokens::id("ContractT"), tokens::id("as"), TokV::Ident(tn@), tokens::pc('>'), tokens::pc(':'), tokens::pc(':'), TokV::Ident(name@)]);
        Some(t)
    } else {
        assert(!ids.contains(name@));
        None
    }
}

/// The names as generics.
fn names_generics(names: &Vec<String>) -> (r: Vec<Generic>)
    ensures
        generics_toks(r@) == name_toks(names_view(names@)),
{
    let mut r: Vec<Generic> = Vec::new();
    let mut k: usize = 0;
    while k < names.len()
        invariant
            k <= names.len(),
            generics_toks(r@) == name_toks(names_view(names@)).take(k as int),
        decreases names.len() - k,
    {
        let mut t: Vec<Tok> = Vec::new();
        tokens::push_tok(&mut t, Tok::Ident(names[k].clone()));
        let ghost prev = r@;
        let g = Generic { toks: t };
        assert(g@ =~= seq![TokV::Ident(names@[k as int]@)]);
        r.push(g);
        assert(generics_toks(r@) =~= generics_toks(prev).push(g@));
        assert(name_toks(names_view(names@)).take(k + 1) =~= name_toks(names_view(names@)).take(k as int).push(seq![TokV::Ident(names@[k as int]@)]));
        assert(generics_toks(r@) =~= name_toks(names_view(names@)).take(k + 1));
        k = k + 1;
    }
    assert(name_toks(names_view(names@)).take(k as int) =~= name_toks(names_view(names@)));
    r
}

/// The names of the generics among `gens` that the types `ts` use.
fn used_names_exec(gens: &Vec<Generic>, ts: &Vec<Vec<Tok>>) -> (r: Vec<String>)
    ensures
        names_view(r@) == ({
            let u = used_generics(gens@, parser::toks2(ts@));
            Seq::new(u.len(), |k: int| first_ident(u[k]))
        }),
{
    let (used, _) = split_generics(gens, ts);
    let ghost u = used_generics(gens@, parser::toks2(ts@));
    let mut r: Vec<String> = Vec::new();
    let mut k: usize = 0;
    while k < used.len()
        invariant
            k <= used.len(),
            parser::toks2(used@) == u,
            names_view(r@) == Seq::new(k as nat, |q: int| first_ident(u[q])),
        decreases used.len() - k,
    {
        assert(tokens::toks(used@[k as int]@) == u[k as int]);
        let n = if used[k].len() > 0 {
            match &used[k][0] {
                Tok::Ident(x) => x.clone(),
                _ => String::new(),
            }
        } else {
            String::new()
        };
        assert(n@ == first_ident(u[k as int]));
        let ghost prev = r@;
        r.push(n);
        assert(names_view(r@) =~= names_view(prev).push(n@));
        assert(names_view(r@) =~= Seq::new((k + 1) as nat, |q: int| first_ident(u[q])));
        k = k + 1;
    }
    r
}

impl InterfaceInput {
    /// The message enum of kind `ty` of the interface.
    fn emit_iface_enum(
        &self,
        ty: MsgType,
        name: &String,
        items: &Vec<TraitItemType>,
        forwarded: &Vec<(MsgType, Vec<Tok>)>,
        variants: &Vec<MsgVariant>,
        gens: &Vec<Generic>,
        assoc: &AssociatedTypes,
        sylvia: &Vec<Tok>,
    ) -> (r: Vec<Tok>)
        requires
            generics_toks(gens@) == name_toks(kept_names(items@)),
            assoc.types() == kept_items(items@),
        ensures
            tokens::toks(r@) == iface_enum_message_tokens(
                name@,
                reply::variants_view(variants@),
                items@,
                ty,
                self.custom@.msg,
                self.custom@.query,
                forwarded_of(parser::forwarded_view(forwarded@), ty),
                tokens::toks(sylvia@),
            ),
    {
        let ghost vv = reply::variants_view(variants@);
        let ghost sy = tokens::toks(sylvia@);
        let ts = kind_types_exec(variants, ty);
        let (used, unused) = split_generics(gens, &ts);
        proof {
            lemma_used_of(gens@, parser::toks2(ts@));
        }
        let kv = of_kind_exec(variants, ty);
        let (vs, arms, ctors) = enum_pieces(&kv, sylvia);
        let ghost k = of_kind(vv, ty);
        assert(parser::toks2(vs@) =~= Seq::new(k.len(), |i: int| enum_variant(k[i])));
        assert(parser::toks2(arms@) =~= Seq::new(k.len(), |i: int| enum_arm(k[i], sy)));
        assert(Seq::new(kv@.len(), |i: int| enum_ctor(kv@[i]@)) =~= Seq::new(k.len(), |i: int| enum_ctor(k[i])));
        let phantom = enum_phantom_exec(&used);
        let parm = if used.len() > 0 {
            crate::enum_msg::phantom_arm_exec(sylvia)
        } else {
            Vec::new()
        };
        assert(tokens::toks(parm@) =~= (if parser::toks2(used@).len() > 0 {
            phantom_arm(sy)
        } else {
            Seq::empty()
        }));
        let mut dq: Vec<Tok> = Vec::new();
        if ty == MsgType::Query {
            push_path3(&mut dq, sylvia, "cw_schema", "QueryResponses");
        }
        assert(tokens::toks(dq@) =~= derive_query(ty, sy));
        let derive = enum_derive_exec(&dq, sylvia);
        let wp = assoc.as_where_predicates();
        let ghost ki = kept_items(items@);
        assert(parser::toks2(wp@) =~= Seq::new(ki.len(), |q: int| where_predicate(ki[q]))) by {
            assert forall|q: int| 0 <= q < wp@.len() implies tokens::toks(wp@[q]@) == where_predicate(ki[q]) by {
                assert(assoc.types()[q] == assoc.0@[q]@);
            }
        }
        let copied = copy_items(items);
        assert(item_idents(copied@) =~= item_idents(items@));
        assert(kept_names(copied@) =~= kept_names(items@)) by {
            assert(Seq::new(copied@.len(), |i: int| copied@[i].ident@) =~= Seq::new(items@.len(), |i: int| items@[i].ident@));
        }
        let e = crate::interface_enum_msg::EnumMessage::new(
            name.clone(),
            ty,
            &self.custom,
            contract_assoc_exec(name, items, "ExecC"),
            contract_assoc_exec(name, items, "QueryC"),
            copies::copy_variants(variants),
            copied,
            forwarded_exec(forwarded, ty),
            sylvia,
        );
        let enum_name = ty.emit_msg_name(false);
        let none: Option<WhereClause> = None;
        e.emit(sylvia, &enum_name, &used, &unused, &none, &wp, &derive, &vs, &arms, &parm, &ctors, &phantom)
    }

    /// The module `sv` of the interface `interface_name` with the associated
    /// types `items`, the where clause `where_clause` and the methods
    /// `variants`: its execute, query and sudo messages, its querier and
    /// executor traits, its messages API and, when `mt` is set, its MultiTest
    /// helpers. `forwarded` are the attributes to forward to the message of
    /// each kind.
    #[verifier::rlimit(80)]
    #[verifier::spinoff_prover]
    pub fn process(
        &self,
        interface_name: &String,
        items: &Vec<TraitItemType>,
        where_clause: &Option<WhereClause>,
        forwarded: &Vec<(MsgType, Vec<Tok>)>,
        variants: &Vec<MsgVariant>,
        mt: bool,
        sylvia: &Vec<Tok>,
    ) -> (r: Vec<Tok>)
        ensures
            tokens::toks(r@) == interface_sv(
                interface_name@,
                reply::variants_view(variants@),
                items@,
                where_value(*where_clause),
                self.custom@.msg,
                self.custom@.query,
                parser::forwarded_view(forwarded@),
                tokens::toks(sylvia@),
                mt,
            ),
    {
        let ghost vv = reply::variants_view(variants@);
        let ghost sy = tokens::toks(sylvia@);
        let ghost tn = interface_name@;
        let assoc = AssociatedTypes::new(items);
        assert(assoc.types() =~= kept_items(items@));
        assert(assoc.names() =~= kept_names(items@)) by {
            crate::interface_enum_msg::lemma_kept_positions_range(item_idents(items@));
            assert(item_idents(items@) == Seq::new(items@.len(), |i: int| items@[i].ident@));
            assert(assoc.names().len() == assoc.types().len());
            assert(kept_names(items@).len() == kept_items(items@).len());
            assert forall|q: int| 0 <= q < assoc.names().len() implies assoc.names()[q] == kept_names(items@)[q] by {
                assert(assoc.types()[q] == assoc.0@[q]@);
                assert(assoc.types()[q].ident == assoc.0@[q].ident@);
                assert(kept_items(items@)[q].ident == kept_names(items@)[q]);
            }
        }
        let names = assoc.as_names();
        assert(names_view(names@) =~= assoc.names());
        let gens = names_generics(&names);
        let ghost ki = kept_items(items@);
        let ghost kn = kept_names(items@);
        let ghost cmsg = self.custom@.msg;
        let ghost cq = self.custom@.query;
        let mut r = sv_open_exec();
        let p1 = self.emit_iface_enum(MsgType::Exec, interface_name, items, forwarded, variants, &gens, &assoc, sylvia);
        tokens::extend_toks(&mut r, &p1);
        let p2 = self.emit_iface_enum(MsgType::Query, interface_name, items, forwarded, variants, &gens, &assoc, sylvia);
        tokens::extend_toks(&mut r, &p2);
        let p3 = self.emit_iface_enum(MsgType::Sudo, interface_name, items, forwarded, variants, &gens, &assoc, sylvia);
        tokens::extend_toks(&mut r, &p3);
        let ghost m = iface_enum_message_tokens(tn, vv, items@, MsgType::Exec, cmsg, cq, forwarded_of(parser::forwarded_view(forwarded@), MsgType::Exec), sy)
            + iface_enum_message_tokens(tn, vv, items@, MsgType::Query, cmsg, cq, forwarded_of(parser::forwarded_view(forwarded@), MsgType::Query), sy)
            + iface_enum_message_tokens(tn, vv, items@, MsgType::Sudo, cmsg, cq, forwarded_of(parser::forwarded_view(forwarded@), MsgType::Sudo), sy);
        assert(tokens::toks(r@) =~= sv_open() + m);
        let qv = of_kind_exec(variants, MsgType::Query);
        let q = crate::interface_helpers::Querier::new(&qv, &assoc, interface_name).emit_querier_trait(sylvia);
        let ghost pq = iface_querier_tokens(tn, ki, kn, of_kind(vv, MsgType::Query), sy);
        assert(tokens::toks(q@) == pq);
        tokens::extend_toks(&mut r, &q);
        let ev = of_kind_exec(variants, MsgType::Exec);
        let x = InterfaceExecutor::new(&ev, &assoc, interface_name).emit_executor_trait(sylvia);
        let ghost pe = iface_executor_tokens(tn, ki, kn, of_kind(vv, MsgType::Exec), sy);
        assert(tokens::toks(x@) == pe);
        tokens::extend_toks(&mut r, &x);
        let te = kind_types_exec(variants, MsgType::Exec);
        let tq = kind_types_exec(variants, MsgType::Query);
        let tsu = kind_types_exec(variants, MsgType::Sudo);
        proof {
            lemma_used_of(gens@, parser::toks2(te@));
            lemma_used_of(gens@, parser::toks2(tq@));
            lemma_used_of(gens@, parser::toks2(tsu@));
        }
        let used = UsedNames { execute: used_names_exec(&gens, &te), query: used_names_exec(&gens, &tq), sudo: used_names_exec(&gens, &tsu) };
        let a = crate::interface_api::Api::new(interface_name, &assoc, used).emit();
        let ghost pa = messages_api_tokens(
            tn,
            kn,
            used_names(items@, vv, MsgType::Exec),
            used_names(items@, vv, MsgType::Query),
            used_names(items@, vv, MsgType::Sudo),
        );
        assert(tokens::toks(a@) == pa);
        tokens::extend_toks(&mut r, &a);
        let ghost ph = if mt {
            mt_tokens(tn, where_value(*where_clause), ki, kn, vv, sy)
        } else {
            Seq::<TokV>::empty()
        };
        if mt {
            let h = MtHelpers::new(interface_name, where_clause, &assoc, variants).emit(sylvia);
            tokens::extend_toks(&mut r, &h);
        } else {
            assert(tokens::toks(r@) =~= tokens::toks(r@) + ph);
        }
        tokens::push_tok(&mut r, Tok::Close(Delim::Brace));
        assert(tokens::toks(r@) =~= sv_module(m + pq + pe + pa + ph));
        assert(tokens::toks(r@) == interface_sv(tn, vv, items@, where_value(*where_clause), self.custom@.msg, self.custom@.query, parser::forwarded_view(forwarded@), sy, mt)) by {
            reveal(interface_sv);
        }
        r
    }
}

} // verus!
