//! The query helpers of a contract: a trait with a method per query, which
//! sends the query to a contract through its bound querier.
use vstd::prelude::*;
use crate::associated_types::{self, EmitAssociated, WhereClause, WherePredicateV};
use crate::case::{self, TextCase};
use crate::entry_points;
use crate::interfaces::each_with_comma;
use crate::msg_type::{self, MsgType};
use crate::parser;
use crate::reply::{self, MsgVariant, MsgVariantV};
use crate::reply_emit::{self, comma_params};
use crate::tokens::{self, Delim, Tok, TokV};

verus! {

/// The name of the generated method of a message: the name of its variant in
/// snake case.
pub open spec fn method_name(v: MsgVariantV) -> Seq<char> {
    case::converted(reply::variant_name(v), TextCase::Snake)
}

/// The names of all parameters of `v`, separated by commas.
pub open spec fn all_names(v: MsgVariantV) -> Seq<TokV> {
    reply::comma_names(reply::names_from(v, 0))
}

/// `fn name ( receiver , params ) -> Result < ok , sylvia :: cw_std :: StdError >`
pub open spec fn method_sig(v: MsgVariantV, receiver: Seq<TokV>, ok: Seq<TokV>, sylvia: Seq<TokV>) -> Seq<TokV> {
    seq![tokens::id("fn"), TokV::Ident(method_name(v)), TokV::Open(Delim::Paren)] + receiver + seq![tokens::pc(',')]
        + comma_params(v.fields) + seq![
        TokV::Close(Delim::Paren),
        tokens::pc('-'),
        tokens::pc('>'),
        tokens::id("Result"),
        tokens::pc('<'),
    ] + ok + seq![tokens::pc(',')] + msg_type::cw_std_item(sylvia, "StdError") + seq![tokens::pc('>')]
}

/// `& self`
pub open spec fn ref_self() -> Seq<TokV> {
    seq![tokens::pc('&'), tokens::id("self")]
}

/// The declaration of the query method of `v`:
/// `fn name ( & self , params ) -> Result < Response , sylvia :: cw_std :: StdError > ;`
pub open spec fn querier_decl(v: MsgVariantV, sylvia: Seq<TokV>) -> Seq<TokV> {
    method_sig(v, ref_self(), v.return_type, sylvia) + seq![tokens::pc(';')]
}

/// The query method of `v`, which builds the query at `api_path` and sends it:
/// `fn name ( & self , params ) -> Result < .. > { let query = api_path :: name ( names ) ;
/// self . querier ( ) . query_wasm_smart ( self . contract ( ) , & query ) }`
pub open spec fn querier_impl(v: MsgVariantV, sylvia: Seq<TokV>, api_path: Seq<TokV>) -> Seq<TokV> {
    method_sig(v, ref_self(), v.return_type, sylvia) + seq![
        TokV::Open(Delim::Brace),
        tokens::id("let"),
        tokens::id("query"),
        tokens::pc('='),
    ] + api_path + tokens::colon2() + seq![TokV::Ident(method_name(v)), TokV::Open(Delim::Paren)] + all_names(v) + seq![
        TokV::Close(Delim::Paren),
        tokens::pc(';'),
        tokens::id("self"),
        tokens::pc('.'),
        tokens::id("querier"),
        TokV::Open(Delim::Paren),
        TokV::Close(Delim::Paren),
        tokens::pc('.'),
        tokens::id("query_wasm_smart"),
        TokV::Open(Delim::Paren),
        tokens::id("self"),
        tokens::pc('.'),
        tokens::id("contract"),
        TokV::Open(Delim::Paren),
        TokV::Close(Delim::Paren),
        tokens::pc(','),
        tokens::pc('&'),
        tokens::id("query"),
        TokV::Close(Delim::Paren),
        TokV::Close(Delim::Brace),
    ]
}

/// Each query method is implemented with the signature its declaration
/// gives it: the declaration is the signature followed by `;`, and the
/// implementation is the same signature followed by a block.
pub proof fn querier_impl_matches_declaration(v: MsgVariantV, sylvia: Seq<TokV>, api_path: Seq<TokV>)
    ensures
        ({
            let d = querier_decl(v, sylvia);
            let i = querier_impl(v, sylvia, api_path);
            &&& d.last() == tokens::pc(';')
            &&& d.len() <= i.len()
            &&& i.subrange(0, d.len() - 1) == d.drop_last()
            &&& i[d.len() - 1] == TokV::Open(Delim::Brace)
        }),
{
    let sig = method_sig(v, ref_self(), v.return_type, sylvia);
    assert(querier_decl(v, sylvia).drop_last() =~= sig);
    assert(querier_impl(v, sylvia, api_path).subrange(0, sig.len() as int) =~= sig);
}

/// For each query of the contract, the generated `Querier` trait declares a
/// method, and its implementation on the bound querier defines that method,
/// sending the query.
pub proof fn querier_method_per_query(
    gs: Seq<Seq<TokV>>,
    w: Option<(Seq<WherePredicateV>, bool)>,
    contract: Seq<TokV>,
    vs: Seq<MsgVariantV>,
    sylvia: Seq<TokV>,
    k: int,
)
    requires
        0 <= k < vs.len(),
    ensures
        tokens::is_infix(querier_decl(vs[k], sylvia), querier_trait(gs, w, vs, sylvia)),
        tokens::is_infix(querier_impl(vs[k], sylvia, query_api_path(sylvia, contract)), querier_impl_body(w, contract, vs, sylvia)),
{
    let ds = Seq::new(vs.len(), |i: int| querier_decl(vs[i], sylvia));
    tokens::lemma_concat_part(ds, k);
    let head = seq![tokens::id("pub"), tokens::id("trait"), tokens::id("Querier")] + bracketed_generics(gs) + seq![
        TokV::Open(Delim::Brace),
    ] + assoc_declarations(w);
    tokens::lemma_infix_within(querier_decl(vs[k], sylvia), querier_decls(vs, sylvia), head, seq![TokV::Close(Delim::Brace)]);
    assert(head + querier_decls(vs, sylvia) + seq![TokV::Close(Delim::Brace)] =~= querier_trait(gs, w, vs, sylvia));
    let api = query_api_path(sylvia, contract);
    let is = Seq::new(vs.len(), |i: int| querier_impl(vs[i], sylvia, api));
    tokens::lemma_concat_part(is, k);
    let open = seq![TokV::Open(Delim::Brace)] + assoc_implementations(w);
    tokens::lemma_infix_within(querier_impl(vs[k], sylvia, api), querier_impls(vs, sylvia, api), open, seq![TokV::Close(Delim::Brace)]);
    assert(open + querier_impls(vs, sylvia, api) + seq![TokV::Close(Delim::Brace)] =~= querier_impl_body(w, contract, vs, sylvia));
}

/// Appends the name of the generated method of `v`.
pub(crate) fn push_method_name(dst: &mut Vec<Tok>, v: &MsgVariant)
    ensures
        tokens::toks(final(dst)@) == tokens::toks(old(dst)@).push(TokV::Ident(method_name(v@))),
{
    let name = v.name();
    let snake = case::to_case(name.as_str(), TextCase::Snake);
    tokens::push_tok(dst, Tok::Ident(snake));
}

/// Appends the names of all parameters of `v`, separated by commas.
pub(crate) fn push_all_names(dst: &mut Vec<Tok>, v: &MsgVariant)
    ensures
        tokens::toks(final(dst)@) == tokens::toks(old(dst)@) + all_names(v@),
{
    reply::push_comma_names(dst, v, 0);
}

/// Appends `fn name ( receiver , params ) -> Result < ok , sylvia :: cw_std :: StdError >`.
pub(crate) fn push_method_sig(dst: &mut Vec<Tok>, v: &MsgVariant, receiver: &Vec<Tok>, ok: &Vec<Tok>, sylvia: &Vec<Tok>)
    ensures
        tokens::toks(final(dst)@) == tokens::toks(old(dst)@) + method_sig(
            v@,
            tokens::toks(receiver@),
            tokens::toks(ok@),
            tokens::toks(sylvia@),
        ),
{
    let ghost s0 = tokens::toks(dst@);
    tokens::push_ident(dst, "fn");
    push_method_name(dst, v);
    tokens::push_tok(dst, Tok::Open(Delim::Paren));
    tokens::extend_toks(dst, receiver);
    tokens::push_punct(dst, ',');
    let ghost s1 = tokens::toks(dst@);
    reply_emit::push_comma_params(dst, v, 0);
    assert(reply_emit::fields_from(v@, 0) =~= v@.fields);
    tokens::push_tok(dst, Tok::Close(Delim::Paren));
    tokens::push_punct(dst, '-');
    tokens::push_punct(dst, '>');
    tokens::push_ident(dst, "Result");
    tokens::push_punct(dst, '<');
    tokens::extend_toks(dst, ok);
    tokens::push_punct(dst, ',');
    msg_type::push_cw_std_item(dst, sylvia, "StdError");
    tokens::push_punct(dst, '>');
    assert(tokens::toks(dst@) =~= s0 + method_sig(v@, tokens::toks(receiver@), tokens::toks(ok@), tokens::toks(sylvia@)));
}

impl MsgVariant {
    /// The declaration of the method of the query helper trait for this query.
    pub fn emit_querier_method_declaration(&self, sylvia: &Vec<Tok>) -> (r: Vec<Tok>)
        ensures
            tokens::toks(r@) == querier_decl(self@, tokens::toks(sylvia@)),
    {
        let receiver: Vec<Tok> = vec![Tok::Punct('&'), Tok::ident("self")];
        assert(tokens::toks(receiver@) =~= ref_self());
        let mut r: Vec<Tok> = Vec::new();
        push_method_sig(&mut r, self, &receiver, &self.return_type, sylvia);
        tokens::push_punct(&mut r, ';');
        assert(tokens::toks(r@) =~= querier_decl(self@, tokens::toks(sylvia@)));
        r
    }

    /// The method of the query helper trait for this query, sending the
    /// message found at `api_path`.
    pub fn emit_querier_impl(&self, sylvia: &Vec<Tok>, api_path: &Vec<Tok>) -> (r: Vec<Tok>)
        ensures
            tokens::toks(r@) == querier_impl(self@, tokens::toks(sylvia@), tokens::toks(api_path@)),
    {
        let receiver: Vec<Tok> = vec![Tok::Punct('&'), Tok::ident("self")];
        assert(tokens::toks(receiver@) =~= ref_self());
        let mut r: Vec<Tok> = Vec::new();
        push_method_sig(&mut r, self, &receiver, &self.return_type, sylvia);
        let ghost s1 = tokens::toks(r@);
        tokens::push_tok(&mut r, Tok::Open(Delim::Brace));
        tokens::push_ident(&mut r, "let");
        tokens::push_ident(&mut r, "query");
        tokens::push_punct(&mut r, '=');
        tokens::extend_toks(&mut r, api_path);
        tokens::push_punct(&mut r, ':');
        tokens::push_punct(&mut r, ':');
        push_method_name(&mut r, self);
        tokens::push_tok(&mut r, Tok::Open(Delim::Paren));
        push_all_names(&mut r, self);
        let ghost s2 = tokens::toks(r@);
        let tail: Vec<Tok> = vec![
            Tok::Close(Delim::Paren),
            Tok::Punct(';'),
            Tok::ident("self"),
            Tok::Punct('.'),
            Tok::ident("querier"),
            Tok::Open(Delim::Paren),
            Tok::Close(Delim::Paren),
            Tok::Punct('.'),
            Tok::ident("query_wasm_smart"),
            Tok::Open(Delim::Paren),
            Tok::ident("self"),
            Tok::Punct('.'),
            Tok::ident("contract"),
            Tok::Open(Delim::Paren),
            Tok::Close(Delim::Paren),
            Tok::Punct(','),
            Tok::Punct('&'),
            Tok::ident("query"),
            Tok::Close(Delim::Paren),
            Tok::Close(Delim::Brace),
        ];
        tokens::extend_toks(&mut r, &tail);
        assert(tokens::toks(r@) =~= querier_impl(self@, tokens::toks(sylvia@), tokens::toks(api_path@)));
        r
    }
}

/// Appends the token sequences of `parts` one after the other.
pub(crate) fn push_concat(dst: &mut Vec<Tok>, parts: &Vec<Vec<Tok>>)
    ensures
        tokens::toks(final(dst)@) == tokens::toks(old(dst)@) + tokens::concat(parser::toks2(parts@)),
{
    let ghost start = tokens::toks(dst@);
    let ghost ps = parser::toks2(parts@);
    let mut k: usize = 0;
    assert(ps.take(0) =~= Seq::<Seq<TokV>>::empty());
    assert(tokens::toks(dst@) =~= start + tokens::concat(ps.take(0)));
    while k < parts.len()
        invariant
            ps == parser::toks2(parts@),
            k <= parts.len(),
            tokens::toks(dst@) == start + tokens::concat(ps.take(k as int)),
        decreases parts.len() - k,
    {
        tokens::extend_toks(dst, &parts[k]);
        assert(ps.take(k + 1).drop_last() =~= ps.take(k as int));
        assert(ps.take(k + 1).last() == tokens::toks(parts@[k as int]@));
        assert(tokens::toks(dst@) =~= start + tokens::concat(ps.take(k + 1)));
        k = k + 1;
    }
    assert(ps.take(k as int) =~= ps);
}

/// `< g1 , g2 , .. , >`, or nothing when there are no generics.
pub open spec fn bracketed_generics(gs: Seq<Seq<TokV>>) -> Seq<TokV> {
    if gs.len() == 0 {
        Seq::empty()
    } else {
        seq![tokens::pc('<')] + each_with_comma(gs) + seq![tokens::pc('>')]
    }
}

/// Appends `< g1 , g2 , .. , >`, or nothing when there are no generics.
pub(crate) fn push_bracketed_generics(dst: &mut Vec<Tok>, gs: &Vec<Vec<Tok>>)
    ensures
        tokens::toks(final(dst)@) == tokens::toks(old(dst)@) + bracketed_generics(parser::toks2(gs@)),
{
    let ghost s0 = tokens::toks(dst@);
    if gs.len() > 0 {
        tokens::push_punct(dst, '<');
        crate::interfaces::push_each_with_comma(dst, gs);
        tokens::push_punct(dst, '>');
    }
    assert(tokens::toks(dst@) =~= s0 + bracketed_generics(parser::toks2(gs@)));
}

/// The value of an optional where clause.
pub open spec fn where_value(w: Option<WhereClause>) -> Option<(Seq<WherePredicateV>, bool)> {
    match w {
        Some(c) => Some(c.value()),
        None => None,
    }
}

/// The associated types declared for the bounded types of a where clause.
pub open spec fn assoc_declarations(w: Option<(Seq<WherePredicateV>, bool)>) -> Seq<TokV> {
    match w {
        Some((ps, _)) => tokens::concat(associated_types::declarations(ps)),
        None => Seq::empty(),
    }
}

/// The associated types defined for the bounded types of a where clause.
pub open spec fn assoc_implementations(w: Option<(Seq<WherePredicateV>, bool)>) -> Seq<TokV> {
    match w {
        Some((ps, _)) => tokens::concat(associated_types::implementations(ps)),
        None => Seq::empty(),
    }
}

/// Appends the associated type declarations of the where clause, if any.
pub(crate) fn push_assoc_declarations(dst: &mut Vec<Tok>, w: &Option<WhereClause>)
    ensures
        tokens::toks(final(dst)@) == tokens::toks(old(dst)@) + assoc_declarations(where_value(*w)),
{
    match w {
        Some(c) => {
            let d = c.emit_declaration();
            push_concat(dst, &d);
        },
        None => {
            assert(tokens::toks(dst@) =~= tokens::toks(old(dst)@) + assoc_declarations(where_value(*w)));
        },
    }
}

/// Appends the associated type definitions of the where clause, if any.
pub(crate) fn push_assoc_implementations(dst: &mut Vec<Tok>, w: &Option<WhereClause>)
    ensures
        tokens::toks(final(dst)@) == tokens::toks(old(dst)@) + assoc_implementations(where_value(*w)),
{
    match w {
        Some(c) => {
            let d = c.emit_implementation();
            push_concat(dst, &d);
        },
        None => {
            assert(tokens::toks(dst@) =~= tokens::toks(old(dst)@) + assoc_implementations(where_value(*w)));
        },
    }
}

/// `< contract as sylvia :: types :: ContractApi > :: Query`
pub open spec fn query_api_path(sylvia: Seq<TokV>, contract: Seq<TokV>) -> Seq<TokV> {
    entry_points::contract_api_item(sylvia, contract, msg_type::accessor_name(MsgType::Query, false))
}

/// The declarations of the query methods of the variants.
pub open spec fn querier_decls(vs: Seq<MsgVariantV>, sylvia: Seq<TokV>) -> Seq<TokV> {
    tokens::concat(Seq::new(vs.len(), |i: int| querier_decl(vs[i], sylvia)))
}

/// The query methods of the variants, sending the messages found at `api_path`.
pub open spec fn querier_impls(vs: Seq<MsgVariantV>, sylvia: Seq<TokV>, api_path: Seq<TokV>) -> Seq<TokV> {
    tokens::concat(Seq::new(vs.len(), |i: int| querier_impl(vs[i], sylvia, api_path)))
}

/// Appends the declarations of the query methods of `vs`.
pub(crate) fn push_querier_decls(dst: &mut Vec<Tok>, vs: &Vec<MsgVariant>, sylvia: &Vec<Tok>)
    ensures
        tokens::toks(final(dst)@) == tokens::toks(old(dst)@) + querier_decls(reply::variants_view(vs@), tokens::toks(sylvia@)),
{
    let ghost vv = reply::variants_view(vs@);
    let ghost want = Seq::new(vv.len(), |i: int| querier_decl(vv[i], tokens::toks(sylvia@)));
    let mut parts: Vec<Vec<Tok>> = Vec::new();
    let mut k: usize = 0;
    while k < vs.len()
        invariant
            vv == reply::variants_view(vs@),
            want == Seq::new(vv.len(), |i: int| querier_decl(vv[i], tokens::toks(sylvia@))),
            k <= vs.len(),
            parser::toks2(parts@) == want.take(k as int),
        decreases vs.len() - k,
    {
        let d = vs[k].emit_querier_method_declaration(sylvia);
        let ghost prev = parts@;
        parts.push(d);
        assert(parser::toks2(parts@) =~= parser::toks2(prev).push(tokens::toks(d@)));
        assert(want.take(k + 1) =~= want.take(k as int).push(want[k as int]));
        k = k + 1;
    }
    assert(want.take(k as int) =~= want);
    push_concat(dst, &parts);
}

/// Appends the query methods of `vs`, sending the messages found at `api_path`.
pub(crate) fn push_querier_impls(dst: &mut Vec<Tok>, vs: &Vec<MsgVariant>, sylvia: &Vec<Tok>, api_path: &Vec<Tok>)
    ensures
        tokens::toks(final(dst)@) == tokens::toks(old(dst)@) + querier_impls(
            reply::variants_view(vs@),
            tokens::toks(sylvia@),
            tokens::toks(api_path@),
        ),
{
    let ghost vv = reply::variants_view(vs@);
    let ghost want = Seq::new(vv.len(), |i: int| querier_impl(vv[i], tokens::toks(sylvia@), tokens::toks(api_path@)));
    let mut parts: Vec<Vec<Tok>> = Vec::new();
    let mut k: usize = 0;
    while k < vs.len()
        invariant
            vv == reply::variants_view(vs@),
            want == Seq::new(vv.len(), |i: int| querier_impl(vv[i], tokens::toks(sylvia@), tokens::toks(api_path@))),
            k <= vs.len(),
            parser::toks2(parts@) == want.take(k as int),
        decreases vs.len() - k,
    {
        let d = vs[k].emit_querier_impl(sylvia, api_path);
        let ghost prev = parts@;
        parts.push(d);
        assert(parser::toks2(parts@) =~= parser::toks2(prev).push(tokens::toks(d@)));
        assert(want.take(k + 1) =~= want.take(k as int).push(want[k as int]));
        k = k + 1;
    }
    assert(want.take(k as int) =~= want);
    push_concat(dst, &parts);
}

/// Generator of the query helpers of a contract.
pub struct Querier {
    /// The generic parameters of the contract's impl block.
    pub generics: Vec<Vec<Tok>>,
    /// Its where clause.
    pub where_clause: Option<WhereClause>,
    /// The contract type.
    pub self_ty: Vec<Tok>,
    /// The contract's queries.
    pub variants: Vec<MsgVariant>,
}

/// `' sv_querier_lifetime`
pub open spec fn querier_lifetime() -> Seq<TokV> {
    seq![tokens::pc('\''), tokens::id("sv_querier_lifetime")]
}

/// `sylvia :: types :: item`
pub open spec fn types_item(sylvia: Seq<TokV>, item: &str) -> Seq<TokV> {
    sylvia + tokens::colon2() + seq![tokens::id("types")] + tokens::colon2() + seq![tokens::id(item)]
}

/// `pub trait Querier <generics> { associated types ; method declarations }`
pub open spec fn querier_trait(gs: Seq<Seq<TokV>>, w: Option<(Seq<WherePredicateV>, bool)>, vs: Seq<MsgVariantV>, sylvia: Seq<TokV>) -> Seq<TokV> {
    seq![tokens::id("pub"), tokens::id("trait"), tokens::id("Querier")] + bracketed_generics(gs) + seq![
        TokV::Open(Delim::Brace),
    ] + assoc_declarations(w) + querier_decls(vs, sylvia) + seq![TokV::Close(Delim::Brace)]
}

/// `impl < 'sv_querier_lifetime , generics , C : sylvia :: cw_std :: CustomQuery > Querier <generics>
/// for sylvia :: types :: BoundQuerier < 'sv_querier_lifetime , C , Contract > where ..`
pub open spec fn querier_impl_head(
    gs: Seq<Seq<TokV>>,
    w: Option<(Seq<WherePredicateV>, bool)>,
    contract: Seq<TokV>,
    sylvia: Seq<TokV>,
) -> Seq<TokV> {
    seq![tokens::id("impl"), tokens::pc('<')] + querier_lifetime() + seq![tokens::pc(',')] + each_with_comma(gs) + seq![
        tokens::id("C"),
        tokens::pc(':'),
    ] + msg_type::cw_std_item(sylvia, "CustomQuery") + seq![tokens::pc('>'), tokens::id("Querier")] + bracketed_generics(gs)
        + seq![tokens::id("for")] + types_item(sylvia, "BoundQuerier") + seq![tokens::pc('<')] + querier_lifetime() + seq![
        tokens::pc(','),
        tokens::id("C"),
        tokens::pc(','),
    ] + contract + seq![tokens::pc('>')] + associated_types::opt_where_tokens(w)
}

/// `{ associated types ; query methods }`
pub open spec fn querier_impl_body(
    w: Option<(Seq<WherePredicateV>, bool)>,
    contract: Seq<TokV>,
    vs: Seq<MsgVariantV>,
    sylvia: Seq<TokV>,
) -> Seq<TokV> {
    seq![TokV::Open(Delim::Brace)] + assoc_implementations(w) + querier_impls(vs, sylvia, query_api_path(sylvia, contract))
        + seq![TokV::Close(Delim::Brace)]
}

/// The query helpers: the trait `Querier` with a method per query, and its
/// implementation on the contract's bound querier.
pub open spec fn querier_tokens(
    gs: Seq<Seq<TokV>>,
    w: Option<(Seq<WherePredicateV>, bool)>,
    contract: Seq<TokV>,
    vs: Seq<MsgVariantV>,
    sylvia: Seq<TokV>,
) -> Seq<TokV> {
    querier_trait(gs, w, vs, sylvia) + querier_impl_head(gs, w, contract, sylvia) + querier_impl_body(w, contract, vs, sylvia)
}

/// Appends `sylvia :: types :: item`.
pub(crate) fn push_types_item(dst: &mut Vec<Tok>, sylvia: &Vec<Tok>, item: &str)
    ensures
        tokens::toks(final(dst)@) == tokens::toks(old(dst)@) + types_item(tokens::toks(sylvia@), item),
{
    tokens::extend_toks(dst, sylvia);
    tokens::push_punct(dst, ':');
    tokens::push_punct(dst, ':');
    tokens::push_ident(dst, "types");
    tokens::push_punct(dst, ':');
    tokens::push_punct(dst, ':');
    tokens::push_ident(dst, item);
    assert(tokens::toks(dst@) =~= tokens::toks(old(dst)@) + types_item(tokens::toks(sylvia@), item));
}

/// Appends `' sv_querier_lifetime`.
fn push_querier_lifetime(dst: &mut Vec<Tok>)
    ensures
        tokens::toks(final(dst)@) == tokens::toks(old(dst)@) + querier_lifetime(),
{
    tokens::push_punct(dst, '\'');
    tokens::push_ident(dst, "sv_querier_lifetime");
    assert(tokens::toks(dst@) =~= tokens::toks(old(dst)@) + querier_lifetime());
}

impl Querier {
    /// The generator for the queries `variants` of the contract `self_ty`,
    /// implemented with the generic parameters `generics` and the where clause
    /// `where_clause`.
    pub fn new(generics: Vec<Vec<Tok>>, where_clause: Option<WhereClause>, self_ty: Vec<Tok>, variants: Vec<MsgVariant>) -> (r: Querier)
        ensures
            r.generics@ == generics@,
            r.where_clause == where_clause,
            r.self_ty@ == self_ty@,
            r.variants@ == variants@,
    {
        Querier { generics, where_clause, self_ty, variants }
    }

    /// The query helpers of the contract.
    pub fn emit(&self, sylvia: &Vec<Tok>) -> (r: Vec<Tok>)
        ensures
            tokens::toks(r@) == querier_tokens(
                parser::toks2(self.generics@),
                where_value(self.where_clause),
                tokens::toks(self.self_ty@),
                reply::variants_view(self.variants@),
                tokens::toks(sylvia@),
            ),
    {
        let mut r = self.emit_trait(sylvia);
        let h = self.emit_impl_head(sylvia);
        let b = self.emit_impl_body(sylvia);
        tokens::extend_toks(&mut r, &h);
        tokens::extend_toks(&mut r, &b);
        r
    }

    fn emit_trait(&self, sylvia: &Vec<Tok>) -> (r: Vec<Tok>)
        ensures
            tokens::toks(r@) == querier_trait(
                parser::toks2(self.generics@),
                where_value(self.where_clause),
                reply::variants_view(self.variants@),
                tokens::toks(sylvia@),
            ),
    {
        let mut r: Vec<Tok> = Vec::new();
        tokens::push_ident(&mut r, "pub");
        tokens::push_ident(&mut r, "trait");
        tokens::push_ident(&mut r, "Querier");
        push_bracketed_generics(&mut r, &self.generics);
        tokens::push_tok(&mut r, Tok::Open(Delim::Brace));
        push_assoc_declarations(&mut r, &self.where_clause);
        push_querier_decls(&mut r, &self.variants, sylvia);
        tokens::push_tok(&mut r, Tok::Close(Delim::Brace));
        assert(tokens::toks(r@) =~= querier_trait(
            parser::toks2(self.generics@),
            where_value(self.where_clause),
            reply::variants_view(self.variants@),
            tokens::toks(sylvia@),
        ));
        r
    }

    fn emit_impl_head(&self, sylvia: &Vec<Tok>) -> (r: Vec<Tok>)
        ensures
            tokens::toks(r@) == querier_impl_head(
                parser::toks2(self.generics@),
                where_value(self.where_clause),
                tokens::toks(self.self_ty@),
                tokens::toks(sylvia@),
            ),
    {
        let mut h: Vec<Tok> = Vec::new();
        tokens::push_ident(&mut h, "impl");
        tokens::push_punct(&mut h, '<');
        push_querier_lifetime(&mut h);
        tokens::push_punct(&mut h, ',');
        crate::interfaces::push_each_with_comma(&mut h, &self.generics);
        tokens::push_ident(&mut h, "C");
        tokens::push_punct(&mut h, ':');
        msg_type::push_cw_std_item(&mut h, sylvia, "CustomQuery");
        tokens::push_punct(&mut h, '>');
        tokens::push_ident(&mut h, "Querier");
        push_bracketed_generics(&mut h, &self.generics);
        tokens::push_ident(&mut h, "for");
        push_types_item(&mut h, sylvia, "BoundQuerier");
        tokens::push_punct(&mut h, '<');
        push_querier_lifetime(&mut h);
        tokens::push_punct(&mut h, ',');
        tokens::push_ident(&mut h, "C");
        tokens::push_punct(&mut h, ',');
        tokens::extend_toks(&mut h, &self.self_ty);
        tokens::push_punct(&mut h, '>');
        let wt = associated_types::opt_where_to_tokens(&self.where_clause);
        tokens::extend_toks(&mut h, &wt);
        assert(tokens::toks(h@) =~= querier_impl_head(
            parser::toks2(self.generics@),
            where_value(self.where_clause),
            tokens::toks(self.self_ty@),
            tokens::toks(sylvia@),
        ));
        h
    }

    fn emit_impl_body(&self, sylvia: &Vec<Tok>) -> (r: Vec<Tok>)
        ensures
            tokens::toks(r@) == querier_impl_body(
                where_value(self.where_clause),
                tokens::toks(self.self_ty@),
                reply::variants_view(self.variants@),
                tokens::toks(sylvia@),
            ),
    {
        let mut api_path: Vec<Tok> = Vec::new();
        let acc = match MsgType::Query.as_accessor_name(false) {
            Some(a) => a,
            None => String::new(),
        };
        entry_points::push_contract_api_item(&mut api_path, sylvia, &self.self_ty, acc);
        assert(tokens::toks(api_path@) =~= query_api_path(tokens::toks(sylvia@), tokens::toks(self.self_ty@)));
        let mut b: Vec<Tok> = Vec::new();
        tokens::push_tok(&mut b, Tok::Open(Delim::Brace));
        push_assoc_implementations(&mut b, &self.where_clause);
        push_querier_impls(&mut b, &self.variants, sylvia, &api_path);
        tokens::push_tok(&mut b, Tok::Close(Delim::Brace));
        assert(tokens::toks(b@) =~= querier_impl_body(
            where_value(self.where_clause),
            tokens::toks(self.self_ty@),
            reply::variants_view(self.variants@),
            tokens::toks(sylvia@),
        ));
        b
    }
}

} // verus!
