//! The instantiate builder of a contract: a trait, implemented on sylvia's
//! `InstantiateBuilder`, whose method builds the contract's instantiate
//! message and starts the instantiation with it.
use vstd::prelude::*;
use crate::associated_types::{self, comma_join, WhereClause, WherePredicateV};
use crate::case::{self, TextCase};
use crate::grammar::{self, p_path};
use crate::msg_type::{self, MsgType};
use crate::mt::params_each_comma;
use crate::parser::{self, ident_text};
use crate::querier::{self, all_names, where_value};
use crate::reply::{MsgVariant, MsgVariantV};
use crate::reply_emit::{self, comma_params};
use crate::tokens::{self, Delim, Tok, TokV};

verus! {

/// Whether the tokens spell a type path, such as `Contract` or `crate::Contract<T>`.
pub open spec fn is_type_path(t: Seq<TokV>) -> bool {
    p_path(t, 0) matches Ok(p) && p.end == t.len()
}

/// The identifier of the last segment of the type path `t`.
pub open spec fn type_ident(t: Seq<TokV>) -> Seq<char> {
    match p_path(t, 0) {
        Ok(p) => ident_text(t[p.last]),
        Err(_) => Seq::empty(),
    }
}

/// Whether the tokens spell a type path.
pub fn is_type_path_exec(t: &Vec<Tok>) -> (b: bool)
    ensures
        b == is_type_path(tokens::toks(t@)),
{
    match grammar::parse_path(t, 0) {
        Ok(p) => p.end == t.len(),
        Err(_) => false,
    }
}

/// The identifier of the last segment of a type path.
pub fn get_ident_from_type(t: &Vec<Tok>) -> (r: String)
    requires
        is_type_path(tokens::toks(t@)),
    ensures
        r@ == type_ident(tokens::toks(t@)),
{
    match grammar::parse_path(t, 0) {
        Ok(p) => parser::ident_text_exec(t, p.last),
        Err(_) => String::new(),
    }
}

/// `sylvia :: builder :: instantiate :: InstantiateBuilder`
pub open spec fn builder_path(sylvia: Seq<TokV>) -> Seq<TokV> {
    sylvia + tokens::colon2() + seq![tokens::id("builder")] + tokens::colon2() + seq![tokens::id("instantiate")] + tokens::colon2()
        + seq![tokens::id("InstantiateBuilder")]
}

/// `sylvia :: cw_std :: StdResult < sylvia :: builder :: instantiate :: InstantiateBuilder >`
pub open spec fn builder_result(sylvia: Seq<TokV>) -> Seq<TokV> {
    msg_type::cw_std_item(sylvia, "StdResult") + seq![tokens::pc('<')] + builder_path(sylvia) + seq![tokens::pc('>')]
}

/// The name of the builder trait of the contract named `name`.
pub open spec fn builder_trait_name(name: Seq<char>) -> Seq<char> {
    name + "InstantiateBuilder"@
}

/// `fn method < generics > ( code_id : u64 ,`
pub open spec fn builder_fn_start(name: Seq<char>, gs: Seq<Seq<TokV>>) -> Seq<TokV> {
    seq![tokens::id("fn"), TokV::Ident(case::converted(name, TextCase::Snake)), tokens::pc('<')] + comma_join(gs) + seq![
        tokens::pc('>'),
        TokV::Open(Delim::Paren),
        tokens::id("code_id"),
        tokens::pc(':'),
        tokens::id("u64"),
        tokens::pc(','),
    ]
}

/// `pub trait NameInstantiateBuilder { fn name < generics > ( code_id : u64 , params )
/// -> sylvia :: cw_std :: StdResult < .. > where .. ; }`
pub open spec fn builder_trait(
    name: Seq<char>,
    gs: Seq<Seq<TokV>>,
    w: Option<(Seq<WherePredicateV>, bool)>,
    v: MsgVariantV,
    sylvia: Seq<TokV>,
) -> Seq<TokV> {
    seq![tokens::id("pub"), tokens::id("trait"), TokV::Ident(builder_trait_name(name)), TokV::Open(Delim::Brace)]
        + builder_fn_start(name, gs) + comma_params(v.fields) + seq![TokV::Close(Delim::Paren), tokens::pc('-'), tokens::pc('>')]
        + builder_result(sylvia) + associated_types::opt_where_tokens(w) + seq![tokens::pc(';'), TokV::Close(Delim::Brace)]
}

/// `let msg = InstantiateMsg :: < generics > :: new ( names ) ;`
pub open spec fn msg_ctor(gs: Seq<Seq<TokV>>, v: MsgVariantV) -> Seq<TokV> {
    seq![
        tokens::id("let"),
        tokens::id("msg"),
        tokens::pc('='),
        TokV::Ident(msg_type::msg_name(MsgType::Instantiate, false)),
        tokens::pc(':'),
        tokens::pc(':'),
        tokens::pc('<'),
    ] + comma_join(gs) + seq![
        tokens::pc('>'),
        tokens::pc(':'),
        tokens::pc(':'),
        tokens::id("new"),
        TokV::Open(Delim::Paren),
    ] + all_names(v) + seq![TokV::Close(Delim::Paren), tokens::pc(';')]
}

/// `let msg = sylvia :: cw_std :: to_json_binary ( & msg ) ? ;`
pub open spec fn serialize_msg(sylvia: Seq<TokV>) -> Seq<TokV> {
    seq![tokens::id("let"), tokens::id("msg"), tokens::pc('=')] + msg_type::cw_std_item(sylvia, "to_json_binary") + seq![
        TokV::Open(Delim::Paren),
        tokens::pc('&'),
        tokens::id("msg"),
        TokV::Close(Delim::Paren),
        tokens::pc('?'),
        tokens::pc(';'),
    ]
}

/// `Ok ( sylvia :: builder :: instantiate :: InstantiateBuilder :: new ( msg , code_id ) )`
pub open spec fn ok_builder(sylvia: Seq<TokV>) -> Seq<TokV> {
    seq![tokens::id("Ok"), TokV::Open(Delim::Paren)] + builder_path(sylvia) + seq![
        tokens::pc(':'),
        tokens::pc(':'),
        tokens::id("new"),
        TokV::Open(Delim::Paren),
        tokens::id("msg"),
        tokens::pc(','),
        tokens::id("code_id"),
        TokV::Close(Delim::Paren),
        TokV::Close(Delim::Paren),
    ]
}

/// `{ msg_ctor serialize_msg ok_builder }`
pub open spec fn builder_body(gs: Seq<Seq<TokV>>, v: MsgVariantV, sylvia: Seq<TokV>) -> Seq<TokV> {
    seq![TokV::Open(Delim::Brace)] + msg_ctor(gs, v) + serialize_msg(sylvia) + ok_builder(sylvia) + seq![TokV::Close(Delim::Brace)]
}

/// `impl NameInstantiateBuilder for sylvia :: builder :: instantiate :: InstantiateBuilder {
/// fn name < generics > ( code_id : u64 , params , ) -> .. where .. { body } }`
pub open spec fn builder_impl(
    name: Seq<char>,
    gs: Seq<Seq<TokV>>,
    w: Option<(Seq<WherePredicateV>, bool)>,
    v: MsgVariantV,
    sylvia: Seq<TokV>,
) -> Seq<TokV> {
    seq![tokens::id("impl"), TokV::Ident(builder_trait_name(name)), tokens::id("for")] + builder_path(sylvia) + seq![
        TokV::Open(Delim::Brace),
    ] + builder_fn_start(name, gs) + params_each_comma(v.fields) + seq![
        TokV::Close(Delim::Paren),
        tokens::pc('-'),
        tokens::pc('>'),
    ] + builder_result(sylvia) + associated_types::opt_where_tokens(w) + builder_body(gs, v, sylvia) + seq![
        TokV::Close(Delim::Brace),
    ]
}

/// Appends `sylvia :: builder :: instantiate :: InstantiateBuilder`.
fn push_builder_path(dst: &mut Vec<Tok>, sylvia: &Vec<Tok>)
    ensures
        tokens::toks(final(dst)@) == tokens::toks(old(dst)@) + builder_path(tokens::toks(sylvia@)),
{
    tokens::extend_toks(dst, sylvia);
    tokens::push_punct(dst, ':');
    tokens::push_punct(dst, ':');
    tokens::push_ident(dst, "builder");
    tokens::push_punct(dst, ':');
    tokens::push_punct(dst, ':');
    tokens::push_ident(dst, "instantiate");
    tokens::push_punct(dst, ':');
    tokens::push_punct(dst, ':');
    tokens::push_ident(dst, "InstantiateBuilder");
    assert(tokens::toks(dst@) =~= tokens::toks(old(dst)@) + builder_path(tokens::toks(sylvia@)));
}

/// Appends the result type of the builder method.
fn push_builder_result(dst: &mut Vec<Tok>, sylvia: &Vec<Tok>)
    ensures
        tokens::toks(final(dst)@) == tokens::toks(old(dst)@) + builder_result(tokens::toks(sylvia@)),
{
    let ghost s0 = tokens::toks(dst@);
    msg_type::push_cw_std_item(dst, sylvia, "StdResult");
    tokens::push_punct(dst, '<');
    push_builder_path(dst, sylvia);
    tokens::push_punct(dst, '>');
    assert(tokens::toks(dst@) =~= s0 + builder_result(tokens::toks(sylvia@)));
}

/// Appends `fn method < generics > ( code_id : u64 ,`.
fn push_builder_fn_start(dst: &mut Vec<Tok>, name: &String, gs: &Vec<Vec<Tok>>)
    ensures
        tokens::toks(final(dst)@) == tokens::toks(old(dst)@) + builder_fn_start(name@, parser::toks2(gs@)),
{
    let ghost s0 = tokens::toks(dst@);
    tokens::push_ident(dst, "fn");
    tokens::push_tok(dst, Tok::Ident(case::to_case(name.as_str(), TextCase::Snake)));
    tokens::push_punct(dst, '<');
    associated_types::push_comma_joined(dst, gs);
    tokens::push_punct(dst, '>');
    tokens::push_tok(dst, Tok::Open(Delim::Paren));
    tokens::push_ident(dst, "code_id");
    tokens::push_punct(dst, ':');
    tokens::push_ident(dst, "u64");
    tokens::push_punct(dst, ',');
    assert(tokens::toks(dst@) =~= s0 + builder_fn_start(name@, parser::toks2(gs@)));
}

fn serialize_msg_exec(sylvia: &Vec<Tok>) -> (r: Vec<Tok>)
    ensures
        tokens::toks(r@) == serialize_msg(tokens::toks(sylvia@)),
{
    let mut r: Vec<Tok> = vec![Tok::ident("let"), Tok::ident("msg"), Tok::Punct('=')];
    msg_type::push_cw_std_item(&mut r, sylvia, "to_json_binary");
    let tail: Vec<Tok> = vec![
        Tok::Open(Delim::Paren),
        Tok::Punct('&'),
        Tok::ident("msg"),
        Tok::Close(Delim::Paren),
        Tok::Punct('?'),
        Tok::Punct(';'),
    ];
    tokens::extend_toks(&mut r, &tail);
    assert(tokens::toks(r@) =~= serialize_msg(tokens::toks(sylvia@)));
    r
}

fn ok_builder_exec(sylvia: &Vec<Tok>) -> (r: Vec<Tok>)
    ensures
        tokens::toks(r@) == ok_builder(tokens::toks(sylvia@)),
{
    let mut r: Vec<Tok> = vec![Tok::ident("Ok"), Tok::Open(Delim::Paren)];
    push_builder_path(&mut r, sylvia);
    let tail: Vec<Tok> = vec![
        Tok::Punct(':'),
        Tok::Punct(':'),
        Tok::ident("new"),
        Tok::Open(Delim::Paren),
        Tok::ident("msg"),
        Tok::Punct(','),
        Tok::ident("code_id"),
        Tok::Close(Delim::Paren),
        Tok::Close(Delim::Paren),
    ];
    tokens::extend_toks(&mut r, &tail);
    assert(tokens::toks(r@) =~= ok_builder(tokens::toks(sylvia@)));
    r
}

/// Generator of the instantiate builder of a contract.
pub struct InstantiateBuilder {
    /// The contract type, a type path.
    pub contract: Vec<Tok>,
    /// The generic parameters the instantiate message uses.
    pub used_generics: Vec<Vec<Tok>>,
    /// The where clause of the contract's impl block.
    pub where_clause: Option<WhereClause>,
    /// The contract's instantiate method.
    pub instantiate_variant: MsgVariant,
}

impl InstantiateBuilder {
    /// The generator for the contract `contract` whose instantiate method
    /// `instantiate_variant` uses the generics `used_generics`.
    pub fn new(contract: Vec<Tok>, used_generics: Vec<Vec<Tok>>, where_clause: Option<WhereClause>, instantiate_variant: MsgVariant) -> (r: InstantiateBuilder)
        ensures
            r.contract@ == contract@,
            r.used_generics@ == used_generics@,
            r.where_clause == where_clause,
            r.instantiate_variant == instantiate_variant,
    {
        InstantiateBuilder { contract, used_generics, where_clause, instantiate_variant }
    }

    fn emit_trait(&self, name: &String, sylvia: &Vec<Tok>) -> (r: Vec<Tok>)
        ensures
            tokens::toks(r@) == builder_trait(
                name@,
                parser::toks2(self.used_generics@),
                where_value(self.where_clause),
                self.instantiate_variant@,
                tokens::toks(sylvia@),
            ),
    {
        let mut trait_name = name.clone();
        trait_name.append("InstantiateBuilder");
        let mut r: Vec<Tok> = Vec::new();
        tokens::push_ident(&mut r, "pub");
        tokens::push_ident(&mut r, "trait");
        tokens::push_tok(&mut r, Tok::Ident(trait_name));
        tokens::push_tok(&mut r, Tok::Open(Delim::Brace));
        push_builder_fn_start(&mut r, name, &self.used_generics);
        reply_emit::push_comma_params(&mut r, &self.instantiate_variant, 0);
        assert(reply_emit::fields_from(self.instantiate_variant@, 0) =~= self.instantiate_variant@.fields);
        tokens::push_tok(&mut r, Tok::Close(Delim::Paren));
        tokens::push_punct(&mut r, '-');
        tokens::push_punct(&mut r, '>');
        push_builder_result(&mut r, sylvia);
        let wt = associated_types::opt_where_to_tokens(&self.where_clause);
        tokens::extend_toks(&mut r, &wt);
        tokens::push_punct(&mut r, ';');
        tokens::push_tok(&mut r, Tok::Close(Delim::Brace));
        assert(tokens::toks(r@) =~= builder_trait(
            name@,
            parser::toks2(self.used_generics@),
            where_value(self.where_clause),
            self.instantiate_variant@,
            tokens::toks(sylvia@),
        ));
        r
    }

    fn emit_msg_ctor(&self) -> (r: Vec<Tok>)
        ensures
            tokens::toks(r@) == msg_ctor(parser::toks2(self.used_generics@), self.instantiate_variant@),
    {
        let mut r: Vec<Tok> = Vec::new();
        tokens::push_ident(&mut r, "let");
        tokens::push_ident(&mut r, "msg");
        tokens::push_punct(&mut r, '=');
        tokens::push_tok(&mut r, Tok::Ident(MsgType::Instantiate.emit_msg_name(false)));
        tokens::push_punct(&mut r, ':');
        tokens::push_punct(&mut r, ':');
        tokens::push_punct(&mut r, '<');
        associated_types::push_comma_joined(&mut r, &self.used_generics);
        tokens::push_punct(&mut r, '>');
        tokens::push_punct(&mut r, ':');
        tokens::push_punct(&mut r, ':');
        tokens::push_ident(&mut r, "new");
        tokens::push_tok(&mut r, Tok::Open(Delim::Paren));
        querier::push_all_names(&mut r, &self.instantiate_variant);
        tokens::push_tok(&mut r, Tok::Close(Delim::Paren));
        tokens::push_punct(&mut r, ';');
        assert(tokens::toks(r@) =~= msg_ctor(parser::toks2(self.used_generics@), self.instantiate_variant@));
        r
    }

    fn emit_body(&self, sylvia: &Vec<Tok>) -> (r: Vec<Tok>)
        ensures
            tokens::toks(r@) == builder_body(parser::toks2(self.used_generics@), self.instantiate_variant@, tokens::toks(sylvia@)),
    {
        let mut r: Vec<Tok> = Vec::new();
        tokens::push_tok(&mut r, Tok::Open(Delim::Brace));
        let c = self.emit_msg_ctor();
        tokens::extend_toks(&mut r, &c);
        let s = serialize_msg_exec(sylvia);
        tokens::extend_toks(&mut r, &s);
        let o = ok_builder_exec(sylvia);
        tokens::extend_toks(&mut r, &o);
        tokens::push_tok(&mut r, Tok::Close(Delim::Brace));
        assert(tokens::toks(r@) =~= builder_body(parser::toks2(self.used_generics@), self.instantiate_variant@, tokens::toks(sylvia@)));
        r
    }

    fn emit_impl(&self, name: &String, sylvia: &Vec<Tok>) -> (r: Vec<Tok>)
        ensures
            tokens::toks(r@) == builder_impl(
                name@,
                parser::toks2(self.used_generics@),
                where_value(self.where_clause),
                self.instantiate_variant@,
                tokens::toks(sylvia@),
            ),
    {
        let mut trait_name = name.clone();
        trait_name.append("InstantiateBuilder");
        let mut r: Vec<Tok> = Vec::new();
        tokens::push_ident(&mut r, "impl");
        tokens::push_tok(&mut r, Tok::Ident(trait_name));
        tokens::push_ident(&mut r, "for");
        push_builder_path(&mut r, sylvia);
        tokens::push_tok(&mut r, Tok::Open(Delim::Brace));
        push_builder_fn_start(&mut r, name, &self.used_generics);
        crate::mt::push_params_each_comma(&mut r, &self.instantiate_variant);
        tokens::push_tok(&mut r, Tok::Close(Delim::Paren));
        tokens::push_punct(&mut r, '-');
        tokens::push_punct(&mut r, '>');
        push_builder_result(&mut r, sylvia);
        let wt = associated_types::opt_where_to_tokens(&self.where_clause);
        tokens::extend_toks(&mut r, &wt);
        let b = self.emit_body(sylvia);
        tokens::extend_toks(&mut r, &b);
        tokens::push_tok(&mut r, Tok::Close(Delim::Brace));
        assert(tokens::toks(r@) =~= builder_impl(
            name@,
            parser::toks2(self.used_generics@),
            where_value(self.where_clause),
            self.instantiate_variant@,
            tokens::toks(sylvia@),
        ));
        r
    }

    /// The builder trait of the contract and its implementation.
    pub fn emit(&self, sylvia: &Vec<Tok>) -> (r: Vec<Tok>)
        requires
            is_type_path(tokens::toks(self.contract@)),
        ensures
            tokens::toks(r@) == builder_trait(
                type_ident(tokens::toks(self.contract@)),
                parser::toks2(self.used_generics@),
                where_value(self.where_clause),
                self.instantiate_variant@,
                tokens::toks(sylvia@),
            ) + builder_impl(
                type_ident(tokens::toks(self.contract@)),
                parser::toks2(self.used_generics@),
                where_value(self.where_clause),
                self.instantiate_variant@,
                tokens::toks(sylvia@),
            ),
    {
        let name = get_ident_from_type(&self.contract);
        let mut r = self.emit_trait(&name, sylvia);
        let i = self.emit_impl(&name, sylvia);
        tokens::extend_toks(&mut r, &i);
        r
    }
}

} // verus!
