//! The execution helpers of a contract: a trait with a method per execute
//! message, which turns an executor builder into one ready to send the
//! message to a contract.
use vstd::prelude::*;
use crate::associated_types::{self, WhereClause, WherePredicateV};
use crate::entry_points;
use crate::interfaces::each_with_comma;
use crate::msg_type::{self, MsgType};
use crate::parser;
use crate::querier::{
    self, all_names, assoc_declarations, assoc_implementations, method_name, method_sig, types_item, where_value,
};
use crate::reply::{self, MsgVariant, MsgVariantV};
use crate::tokens::{self, Delim, Tok, TokV};

verus! {

/// `self`
pub open spec fn by_value_self() -> Seq<TokV> {
    seq![tokens::id("self")]
}

/// `sylvia :: types :: ExecutorBuilder < sylvia :: types :: ReadyExecutorBuilderState >`
pub open spec fn ready_builder(sylvia: Seq<TokV>) -> Seq<TokV> {
    types_item(sylvia, "ExecutorBuilder") + seq![tokens::pc('<')] + types_item(sylvia, "ReadyExecutorBuilderState") + seq![
        tokens::pc('>'),
    ]
}

/// The declaration of the execution method of `v`:
/// `fn name ( self , params ) -> Result < ready builder , sylvia :: cw_std :: StdError > ;`
pub open spec fn executor_decl(v: MsgVariantV, sylvia: Seq<TokV>) -> Seq<TokV> {
    method_sig(v, by_value_self(), ready_builder(sylvia), sylvia) + seq![tokens::pc(';')]
}

/// `sylvia :: types :: ExecutorBuilder :: < sylvia :: types :: ReadyExecutorBuilderState > :: new (
/// self . contract ( ) . to_owned ( ) , self . funds ( ) . to_owned ( ) ,`
pub open spec fn builder_new(sylvia: Seq<TokV>) -> Seq<TokV> {
    types_item(sylvia, "ExecutorBuilder") + tokens::colon2() + seq![tokens::pc('<')] + types_item(
        sylvia,
        "ReadyExecutorBuilderState",
    ) + seq![tokens::pc('>')] + tokens::colon2() + seq![
        tokens::id("new"),
        TokV::Open(Delim::Paren),
        tokens::id("self"),
        tokens::pc('.'),
        tokens::id("contract"),
        TokV::Open(Delim::Paren),
        TokV::Close(Delim::Paren),
        tokens::pc('.'),
        tokens::id("to_owned"),
        TokV::Open(Delim::Paren),
        TokV::Close(Delim::Paren),
        tokens::pc(','),
        tokens::id("self"),
        tokens::pc('.'),
        tokens::id("funds"),
        TokV::Open(Delim::Paren),
        TokV::Close(Delim::Paren),
        tokens::pc('.'),
        tokens::id("to_owned"),
        TokV::Open(Delim::Paren),
        TokV::Close(Delim::Paren),
        tokens::pc(','),
    ]
}

/// `sylvia :: cw_std :: to_json_binary ( & api_path :: name ( names ) ) ? ,`
pub open spec fn serialized_msg(v: MsgVariantV, sylvia: Seq<TokV>, api_path: Seq<TokV>) -> Seq<TokV> {
    msg_type::cw_std_item(sylvia, "to_json_binary") + seq![TokV::Open(Delim::Paren), tokens::pc('&')] + api_path
        + tokens::colon2() + seq![TokV::Ident(method_name(v)), TokV::Open(Delim::Paren)] + all_names(v) + seq![
        TokV::Close(Delim::Paren),
        TokV::Close(Delim::Paren),
        tokens::pc('?'),
        tokens::pc(','),
    ]
}

/// The execution method of `v`, which serializes the message found at
/// `api_path` into a ready builder:
/// `fn name ( self , params ) -> Result < .. > { Ok ( builder_new serialized_msg ) ) }`
pub open spec fn executor_impl(v: MsgVariantV, sylvia: Seq<TokV>, api_path: Seq<TokV>) -> Seq<TokV> {
    method_sig(v, by_value_self(), ready_builder(sylvia), sylvia) + seq![
        TokV::Open(Delim::Brace),
        tokens::id("Ok"),
        TokV::Open(Delim::Paren),
    ] + builder_new(sylvia) + serialized_msg(v, sylvia, api_path) + seq![
        TokV::Close(Delim::Paren),
        TokV::Close(Delim::Paren),
        TokV::Close(Delim::Brace),
    ]
}

/// Appends the start of the ready builder.
fn push_builder_new(dst: &mut Vec<Tok>, sylvia: &Vec<Tok>)
    ensures
        tokens::toks(final(dst)@) == tokens::toks(old(dst)@) + builder_new(tokens::toks(sylvia@)),
{
    let ghost s0 = tokens::toks(dst@);
    querier::push_types_item(dst, sylvia, "ExecutorBuilder");
    tokens::push_punct(dst, ':');
    tokens::push_punct(dst, ':');
    tokens::push_punct(dst, '<');
    querier::push_types_item(dst, sylvia, "ReadyExecutorBuilderState");
    tokens::push_punct(dst, '>');
    tokens::push_punct(dst, ':');
    tokens::push_punct(dst, ':');
    let args: Vec<Tok> = vec![
        Tok::ident("new"),
        Tok::Open(Delim::Paren),
        Tok::ident("self"),
        Tok::Punct('.'),
        Tok::ident("contract"),
        Tok::Open(Delim::Paren),
        Tok::Close(Delim::Paren),
        Tok::Punct('.'),
        Tok::ident("to_owned"),
        Tok::Open(Delim::Paren),
        Tok::Close(Delim::Paren),
        Tok::Punct(','),
        Tok::ident("self"),
        Tok::Punct('.'),
        Tok::ident("funds"),
        Tok::Open(Delim::Paren),
        Tok::Close(Delim::Paren),
        Tok::Punct('.'),
        Tok::ident("to_owned"),
        Tok::Open(Delim::Paren),
        Tok::Close(Delim::Paren),
        Tok::Punct(','),
    ];
    tokens::extend_toks(dst, &args);
    assert(tokens::toks(dst@) =~= s0 + builder_new(tokens::toks(sylvia@)));
}

/// Appends the serialized message of `v` found at `api_path`.
fn push_serialized_msg(dst: &mut Vec<Tok>, v: &MsgVariant, sylvia: &Vec<Tok>, api_path: &Vec<Tok>)
    ensures
        tokens::toks(final(dst)@) == tokens::toks(old(dst)@) + serialized_msg(v@, tokens::toks(sylvia@), tokens::toks(api_path@)),
{
    let ghost s0 = tokens::toks(dst@);
    msg_type::push_cw_std_item(dst, sylvia, "to_json_binary");
    tokens::push_tok(dst, Tok::Open(Delim::Paren));
    tokens::push_punct(dst, '&');
    tokens::extend_toks(dst, api_path);
    tokens::push_punct(dst, ':');
    tokens::push_punct(dst, ':');
    querier::push_method_name(dst, v);
    tokens::push_tok(dst, Tok::Open(Delim::Paren));
    querier::push_all_names(dst, v);
    tokens::push_tok(dst, Tok::Close(Delim::Paren));
    tokens::push_tok(dst, Tok::Close(Delim::Paren));
    tokens::push_punct(dst, '?');
    tokens::push_punct(dst, ',');
    assert(tokens::toks(dst@) =~= s0 + serialized_msg(v@, tokens::toks(sylvia@), tokens::toks(api_path@)));
}

/// Each execution method is implemented with the signature its declaration
/// gives it: the declaration is the signature followed by `;`, and the
/// implementation is the same signature followed by a block.
pub proof fn executor_impl_matches_declaration(v: MsgVariantV, sylvia: Seq<TokV>, api_path: Seq<TokV>)
    ensures
        ({
            let d = executor_decl(v, sylvia);
            let i = executor_impl(v, sylvia, api_path);
            &&& d.last() == tokens::pc(';')
            &&& d.len() <= i.len()
            &&& i.subrange(0, d.len() - 1) == d.drop_last()
            &&& i[d.len() - 1] == TokV::Open(Delim::Brace)
        }),
{
    let sig = method_sig(v, by_value_self(), ready_builder(sylvia), sylvia);
    assert(executor_decl(v, sylvia).drop_last() =~= sig);
    assert(executor_impl(v, sylvia, api_path).subrange(0, sig.len() as int) =~= sig);
}

/// Appends `sylvia :: types :: ExecutorBuilder < sylvia :: types :: ReadyExecutorBuilderState >`.
fn push_ready_builder(dst: &mut Vec<Tok>, sylvia: &Vec<Tok>)
    ensures
        tokens::toks(final(dst)@) == tokens::toks(old(dst)@) + ready_builder(tokens::toks(sylvia@)),
{
    querier::push_types_item(dst, sylvia, "ExecutorBuilder");
    tokens::push_punct(dst, '<');
    querier::push_types_item(dst, sylvia, "ReadyExecutorBuilderState");
    tokens::push_punct(dst, '>');
    assert(tokens::toks(dst@) =~= tokens::toks(old(dst)@) + ready_builder(tokens::toks(sylvia@)));
}

impl MsgVariant {
    /// The declaration of the method of the execution helper trait for this
    /// message.
    pub fn emit_executor_method_declaration(&self, sylvia: &Vec<Tok>) -> (r: Vec<Tok>)
        ensures
            tokens::toks(r@) == executor_decl(self@, tokens::toks(sylvia@)),
    {
        let receiver: Vec<Tok> = vec![Tok::ident("self")];
        assert(tokens::toks(receiver@) =~= by_value_self());
        let mut ok: Vec<Tok> = Vec::new();
        push_ready_builder(&mut ok, sylvia);
        assert(tokens::toks(ok@) =~= ready_builder(tokens::toks(sylvia@)));
        let mut r: Vec<Tok> = Vec::new();
        querier::push_method_sig(&mut r, self, &receiver, &ok, sylvia);
        tokens::push_punct(&mut r, ';');
        assert(tokens::toks(r@) =~= executor_decl(self@, tokens::toks(sylvia@)));
        r
    }

    /// The method of the execution helper trait for this message, which
    /// serializes the message found at `api_path`.
    pub fn emit_executor_impl(&self, sylvia: &Vec<Tok>, api_path: &Vec<Tok>) -> (r: Vec<Tok>)
        ensures
            tokens::toks(r@) == executor_impl(self@, tokens::toks(sylvia@), tokens::toks(api_path@)),
    {
        let receiver: Vec<Tok> = vec![Tok::ident("self")];
        assert(tokens::toks(receiver@) =~= by_value_self());
        let mut ok: Vec<Tok> = Vec::new();
        push_ready_builder(&mut ok, sylvia);
        assert(tokens::toks(ok@) =~= ready_builder(tokens::toks(sylvia@)));
        let mut r: Vec<Tok> = Vec::new();
        querier::push_method_sig(&mut r, self, &receiver, &ok, sylvia);
        tokens::push_tok(&mut r, Tok::Open(Delim::Brace));
        tokens::push_ident(&mut r, "Ok");
        tokens::push_tok(&mut r, Tok::Open(Delim::Paren));
        push_builder_new(&mut r, sylvia);
        push_serialized_msg(&mut r, self, sylvia, api_path);
        tokens::push_tok(&mut r, Tok::Close(Delim::Paren));
        tokens::push_tok(&mut r, Tok::Close(Delim::Paren));
        tokens::push_tok(&mut r, Tok::Close(Delim::Brace));
        assert(tokens::toks(r@) =~= executor_impl(self@, tokens::toks(sylvia@), tokens::toks(api_path@)));
        r
    }
}

/// `< contract as sylvia :: types :: ContractApi > :: Exec`
pub open spec fn exec_api_path(sylvia: Seq<TokV>, contract: Seq<TokV>) -> Seq<TokV> {
    entry_points::contract_api_item(sylvia, contract, msg_type::accessor_name(MsgType::Exec, false))
}

/// The declarations of the execution methods of the variants.
pub open spec fn executor_decls(vs: Seq<MsgVariantV>, sylvia: Seq<TokV>) -> Seq<TokV> {
    tokens::concat(Seq::new(vs.len(), |i: int| executor_decl(vs[i], sylvia)))
}

/// The execution methods of the variants, serializing the messages found at `api_path`.
pub open spec fn executor_impls(vs: Seq<MsgVariantV>, sylvia: Seq<TokV>, api_path: Seq<TokV>) -> Seq<TokV> {
    tokens::concat(Seq::new(vs.len(), |i: int| executor_impl(vs[i], sylvia, api_path)))
}

/// Appends the declarations of the execution methods of `vs`.
pub(crate) fn push_executor_decls(dst: &mut Vec<Tok>, vs: &Vec<MsgVariant>, sylvia: &Vec<Tok>)
    ensures
        tokens::toks(final(dst)@) == tokens::toks(old(dst)@) + executor_decls(reply::variants_view(vs@), tokens::toks(sylvia@)),
{
    let ghost vv = reply::variants_view(vs@);
    let ghost want = Seq::new(vv.len(), |i: int| executor_decl(vv[i], tokens::toks(sylvia@)));
    let mut parts: Vec<Vec<Tok>> = Vec::new();
    let mut k: usize = 0;
    while k < vs.len()
        invariant
            vv == reply::variants_view(vs@),
            want == Seq::new(vv.len(), |i: int| executor_decl(vv[i], tokens::toks(sylvia@))),
            k <= vs.len(),
            parser::toks2(parts@) == want.take(k as int),
        decreases vs.len() - k,
    {
        let d = vs[k].emit_executor_method_declaration(sylvia);
        let ghost prev = parts@;
        parts.push(d);
        assert(parser::toks2(parts@) =~= parser::toks2(prev).push(tokens::toks(d@)));
        assert(want.take(k + 1) =~= want.take(k as int).push(want[k as int]));
        k = k + 1;
    }
    assert(want.take(k as int) =~= want);
    querier::push_concat(dst, &parts);
}

/// Appends the execution methods of `vs`, serializing the messages found at `api_path`.
pub(crate) fn push_executor_impls(dst: &mut Vec<Tok>, vs: &Vec<MsgVariant>, sylvia: &Vec<Tok>, api_path: &Vec<Tok>)
    ensures
        tokens::toks(final(dst)@) == tokens::toks(old(dst)@) + executor_impls(
            reply::variants_view(vs@),
            tokens::toks(sylvia@),
            tokens::toks(api_path@),
        ),
{
    let ghost vv = reply::variants_view(vs@);
    let ghost want = Seq::new(vv.len(), |i: int| executor_impl(vv[i], tokens::toks(sylvia@), tokens::toks(api_path@)));
    let mut parts: Vec<Vec<Tok>> = Vec::new();
    let mut k: usize = 0;
    while k < vs.len()
        invariant
            vv == reply::variants_view(vs@),
            want == Seq::new(vv.len(), |i: int| executor_impl(vv[i], tokens::toks(sylvia@), tokens::toks(api_path@))),
            k <= vs.len(),
            parser::toks2(parts@) == want.take(k as int),
        decreases vs.len() - k,
    {
        let d = vs[k].emit_executor_impl(sylvia, api_path);
        let ghost prev = parts@;
        parts.push(d);
        assert(parser::toks2(parts@) =~= parser::toks2(prev).push(tokens::toks(d@)));
        assert(want.take(k + 1) =~= want.take(k as int).push(want[k as int]));
        k = k + 1;
    }
    assert(want.take(k as int) =~= want);
    querier::push_concat(dst, &parts);
}

/// `pub trait Executor < generics , > where .. { associated types ; method declarations }`
pub open spec fn executor_trait(gs: Seq<Seq<TokV>>, w: Option<(Seq<WherePredicateV>, bool)>, vs: Seq<MsgVariantV>, sylvia: Seq<TokV>) -> Seq<TokV> {
    seq![tokens::id("pub"), tokens::id("trait"), tokens::id("Executor"), tokens::pc('<')] + each_with_comma(gs) + seq![
        tokens::pc('>'),
    ] + associated_types::opt_where_tokens(w) + seq![TokV::Open(Delim::Brace)] + assoc_declarations(w) + executor_decls(
        vs,
        sylvia,
    ) + seq![TokV::Close(Delim::Brace)]
}

/// `impl < generics , > Executor < generics , > for sylvia :: types :: ExecutorBuilder <
/// ( sylvia :: types :: EmptyExecutorBuilderState , Contract ) > where ..`
pub open spec fn executor_impl_head(
    gs: Seq<Seq<TokV>>,
    w: Option<(Seq<WherePredicateV>, bool)>,
    contract: Seq<TokV>,
    sylvia: Seq<TokV>,
) -> Seq<TokV> {
    seq![tokens::id("impl"), tokens::pc('<')] + each_with_comma(gs) + seq![tokens::pc('>'), tokens::id("Executor"), tokens::pc('<')]
        + each_with_comma(gs) + seq![tokens::pc('>'), tokens::id("for")] + types_item(sylvia, "ExecutorBuilder") + seq![
        tokens::pc('<'),
        TokV::Open(Delim::Paren),
    ] + types_item(sylvia, "EmptyExecutorBuilderState") + seq![tokens::pc(',')] + contract + seq![
        TokV::Close(Delim::Paren),
        tokens::pc('>'),
    ] + associated_types::opt_where_tokens(w)
}

/// `{ associated types ; execution methods }`
pub open spec fn executor_impl_body(
    w: Option<(Seq<WherePredicateV>, bool)>,
    contract: Seq<TokV>,
    vs: Seq<MsgVariantV>,
    sylvia: Seq<TokV>,
) -> Seq<TokV> {
    seq![TokV::Open(Delim::Brace)] + assoc_implementations(w) + executor_impls(vs, sylvia, exec_api_path(sylvia, contract))
        + seq![TokV::Close(Delim::Brace)]
}

/// The execution helpers: the trait `Executor` with a method per execute
/// message, and its implementation on the contract's empty executor builder.
pub open spec fn executor_tokens(
    gs: Seq<Seq<TokV>>,
    w: Option<(Seq<WherePredicateV>, bool)>,
    contract: Seq<TokV>,
    vs: Seq<MsgVariantV>,
    sylvia: Seq<TokV>,
) -> Seq<TokV> {
    executor_trait(gs, w, vs, sylvia) + executor_impl_head(gs, w, contract, sylvia) + executor_impl_body(w, contract, vs, sylvia)
}

/// For each execute message of the contract, the generated `Executor` trait
/// declares a method, and its implementation on the executor builder defines
/// that method, serializing the message.
pub proof fn executor_method_per_message(
    gs: Seq<Seq<TokV>>,
    w: Option<(Seq<WherePredicateV>, bool)>,
    contract: Seq<TokV>,
    vs: Seq<MsgVariantV>,
    sylvia: Seq<TokV>,
    k: int,
)
    requires
        0 <= k < vs.len(),
    ensures
        tokens::is_infix(executor_decl(vs[k], sylvia), executor_trait(gs, w, vs, sylvia)),
        tokens::is_infix(executor_impl(vs[k], sylvia, exec_api_path(sylvia, contract)), executor_impl_body(w, contract, vs, sylvia)),
{
    let ds = Seq::new(vs.len(), |i: int| executor_decl(vs[i], sylvia));
    tokens::lemma_concat_part(ds, k);
    let head = seq![tokens::id("pub"), tokens::id("trait"), tokens::id("Executor"), tokens::pc('<')] + each_with_comma(gs) + seq![
        tokens::pc('>'),
    ] + associated_types::opt_where_tokens(w) + seq![TokV::Open(Delim::Brace)] + assoc_declarations(w);
    tokens::lemma_infix_within(executor_decl(vs[k], sylvia), executor_decls(vs, sylvia), head, seq![TokV::Close(Delim::Brace)]);
    assert(head + executor_decls(vs, sylvia) + seq![TokV::Close(Delim::Brace)] =~= executor_trait(gs, w, vs, sylvia));
    let api = exec_api_path(sylvia, contract);
    let is = Seq::new(vs.len(), |i: int| executor_impl(vs[i], sylvia, api));
    tokens::lemma_concat_part(is, k);
    let open = seq![TokV::Open(Delim::Brace)] + assoc_implementations(w);
    tokens::lemma_infix_within(executor_impl(vs[k], sylvia, api), executor_impls(vs, sylvia, api), open, seq![TokV::Close(Delim::Brace)]);
    assert(open + executor_impls(vs, sylvia, api) + seq![TokV::Close(Delim::Brace)] =~= executor_impl_body(w, contract, vs, sylvia));
}

/// Generator of the execution helpers of a contract.
pub struct Executor {
    /// The generic parameters of the contract's impl block.
    pub generics: Vec<Vec<Tok>>,
    /// Its where clause.
    pub where_clause: Option<WhereClause>,
    /// The contract type.
    pub self_ty: Vec<Tok>,
    /// The contract's execute messages.
    pub variants: Vec<MsgVariant>,
}

/// The same generator under its other name.
pub type ContractExecutor = Executor;

impl Executor {
    /// The generator for the execute messages `variants` of the contract
    /// `self_ty`, implemented with the generic parameters `generics` and the
    /// where clause `where_clause`.
    pub fn new(generics: Vec<Vec<Tok>>, where_clause: Option<WhereClause>, self_ty: Vec<Tok>, variants: Vec<MsgVariant>) -> (r: Executor)
        ensures
            r.generics@ == generics@,
            r.where_clause == where_clause,
            r.self_ty@ == self_ty@,
            r.variants@ == variants@,
    {
        Executor { generics, where_clause, self_ty, variants }
    }

    /// The execution helpers of the contract.
    pub fn emit(&self, sylvia: &Vec<Tok>) -> (r: Vec<Tok>)
        ensures
            tokens::toks(r@) == executor_tokens(
                parser::toks2(self.generics@),
                where_value(self.where_clause),
                tokens::toks(self.self_ty@),
                reply::variants_view(self.variants@),
                tokens::toks(sylvia@),
            ),
    {
        let mut r = self.emit_trait(sylvia);
        let h = self.emit_impl_head(sylvia);
        let b = self.emit_impl_body(sylvia);
        tokens::extend_toks(&mut r, &h);
        tokens::extend_toks(&mut r, &b);
        r
    }

    fn emit_trait(&self, sylvia: &Vec<Tok>) -> (r: Vec<Tok>)
        ensures
            tokens::toks(r@) == executor_trait(
                parser::toks2(self.generics@),
                where_value(self.where_clause),
                reply::variants_view(self.variants@),
                tokens::toks(sylvia@),
            ),
    {
        let mut r: Vec<Tok> = Vec::new();
        tokens::push_ident(&mut r, "pub");
        tokens::push_ident(&mut r, "trait");
        tokens::push_ident(&mut r, "Executor");
        tokens::push_punct(&mut r, '<');
        crate::interfaces::push_each_with_comma(&mut r, &self.generics);
        tokens::push_punct(&mut r, '>');
        let wt = associated_types::opt_where_to_tokens(&self.where_clause);
        tokens::extend_toks(&mut r, &wt);
        tokens::push_tok(&mut r, Tok::Open(Delim::Brace));
        querier::push_assoc_declarations(&mut r, &self.where_clause);
        push_executor_decls(&mut r, &self.variants, sylvia);
        tokens::push_tok(&mut r, Tok::Close(Delim::Brace));
        assert(tokens::toks(r@) =~= executor_trait(
            parser::toks2(self.generics@),
            where_value(self.where_clause),
            reply::variants_view(self.variants@),
            tokens::toks(sylvia@),
        ));
        r
    }

    fn emit_impl_head(&self, sylvia: &Vec<Tok>) -> (r: Vec<Tok>)
        ensures
            tokens::toks(r@) == executor_impl_head(
                parser::toks2(self.generics@),
                where_value(self.where_clause),
                tokens::toks(self.self_ty@),
                tokens::toks(sylvia@),
            ),
    {
        let mut h: Vec<Tok> = Vec::new();
        tokens::push_ident(&mut h, "impl");
        tokens::push_punct(&mut h, '<');
        crate::interfaces::push_each_with_comma(&mut h, &self.generics);
        tokens::push_punct(&mut h, '>');
        tokens::push_ident(&mut h, "Executor");
        tokens::push_punct(&mut h, '<');
        crate::interfaces::push_each_with_comma(&mut h, &self.generics);
        tokens::push_punct(&mut h, '>');
        tokens::push_ident(&mut h, "for");
        querier::push_types_item(&mut h, sylvia, "ExecutorBuilder");
        tokens::push_punct(&mut h, '<');
        tokens::push_tok(&mut h, Tok::Open(Delim::Paren));
        querier::push_types_item(&mut h, sylvia, "EmptyExecutorBuilderState");
        tokens::push_punct(&mut h, ',');
        tokens::extend_toks(&mut h, &self.self_ty);
        tokens::push_tok(&mut h, Tok::Close(Delim::Paren));
        tokens::push_punct(&mut h, '>');
        let wt = associated_types::opt_where_to_tokens(&self.where_clause);
        tokens::extend_toks(&mut h, &wt);
        assert(tokens::toks(h@) =~= executor_impl_head(
            parser::toks2(self.generics@),
            where_value(self.where_clause),
            tokens::toks(self.self_ty@),
            tokens::toks(sylvia@),
        ));
        h
    }

    fn emit_impl_body(&self, sylvia: &Vec<Tok>) -> (r: Vec<Tok>)
        ensures
            tokens::toks(r@) == executor_impl_body(
                where_value(self.where_clause),
                tokens::toks(self.self_ty@),
                reply::variants_view(self.variants@),
                tokens::toks(sylvia@),
            ),
    {
        let mut api_path: Vec<Tok> = Vec::new();
        let acc = match MsgType::Exec.as_accessor_name(false) {
            Some(a) => a,
            None => String::new(),
        };
        entry_points::push_contract_api_item(&mut api_path, sylvia, &self.self_ty, acc);
        assert(tokens::toks(api_path@) =~= exec_api_path(tokens::toks(sylvia@), tokens::toks(self.self_ty@)));
        let mut b: Vec<Tok> = Vec::new();
        tokens::push_tok(&mut b, Tok::Open(Delim::Brace));
        querier::push_assoc_implementations(&mut b, &self.where_clause);
        push_executor_impls(&mut b, &self.variants, sylvia, &api_path);
        tokens::push_tok(&mut b, Tok::Close(Delim::Brace));
        assert(tokens::toks(b@) =~= executor_impl_body(
            where_value(self.where_clause),
            tokens::toks(self.self_ty@),
            reply::variants_view(self.variants@),
            tokens::toks(sylvia@),
        ));
        b
    }
}

} // verus!
