//! The MultiTest helpers of an interface: a proxy trait with a method per
//! message, implemented on the proxy of any contract implementing the
//! interface in a MultiTest app.
use vstd::prelude::*;
use crate::associated_types::{self, AssociatedTypes, WhereClause, WherePredicateV, TraitItemTypeV};
use crate::interface_helpers::{self, iface_messages_api, patterns, trait_type_decls, NamePattern};
use crate::msg_type::{self, MsgType};
use crate::querier::{self, all_names, method_name, where_value};
use crate::reply::{self, MsgFieldV, MsgVariant, MsgVariantV};
use crate::reply_emit::field_param;
use crate::tokens::{self, Delim, Tok, TokV};

verus! {

/// `name : Type ,` for each field.
pub open spec fn params_each_comma(fs: Seq<MsgFieldV>) -> Seq<TokV> {
    tokens::concat(Seq::new(fs.len(), |i: int| field_param(fs[i]) + seq![tokens::pc(',')]))
}

/// `sylvia :: module :: item`
pub open spec fn path3(sylvia: Seq<TokV>, module: &str, item: &str) -> Seq<TokV> {
    sylvia + tokens::colon2() + seq![tokens::id(module)] + tokens::colon2() + seq![tokens::id(item)]
}

/// The attribute that makes a panic in the method report its caller's location.
pub open spec fn caller_location_attr() -> Seq<TokV> {
    seq![tokens::pc('#'), TokV::Open(Delim::Bracket), TokV::Ident("track_"@ + "caller"@), TokV::Close(Delim::Bracket)]
}

/// `fn name ( & self , params , ) ->`
pub open spec fn mt_head(v: MsgVariantV) -> Seq<TokV> {
    seq![
        tokens::id("fn"),
        TokV::Ident(method_name(v)),
        TokV::Open(Delim::Paren),
        tokens::pc('&'),
        tokens::id("self"),
        tokens::pc(','),
    ] + params_each_comma(v.fields) + seq![TokV::Close(Delim::Paren), tokens::pc('-'), tokens::pc('>')]
}

/// `api :: Kind`: the message of the kind of `v` among the messages `api`.
pub open spec fn msg_path(v: MsgVariantV, api: Seq<TokV>) -> Seq<TokV> {
    api + tokens::colon2() + seq![TokV::Ident(msg_type::accessor_name(v.msg_type, false))]
}

/// `sylvia :: multitest :: proxy :: < err , api :: Kind , app , custom_msg >`
pub open spec fn proxy_type(
    sylvia: Seq<TokV>,
    proxy: &str,
    err: Seq<TokV>,
    v: MsgVariantV,
    api: Seq<TokV>,
    app: Seq<TokV>,
    custom_msg: Seq<TokV>,
) -> Seq<TokV> {
    path3(sylvia, "multitest", proxy) + tokens::colon2() + seq![tokens::pc('<')] + err + seq![tokens::pc(',')] + msg_path(v, api)
        + seq![tokens::pc(',')] + app + seq![tokens::pc(',')] + custom_msg + seq![tokens::pc('>')]
}

/// `let msg = api :: Kind :: ctor ( names ) ;`
pub open spec fn let_msg(v: MsgVariantV, api: Seq<TokV>, ctor: Seq<char>) -> Seq<TokV> {
    seq![tokens::id("let"), tokens::id("msg"), tokens::pc('=')] + msg_path(v, api) + tokens::colon2() + seq![
        TokV::Ident(ctor),
        TokV::Open(Delim::Paren),
    ] + all_names(v) + seq![TokV::Close(Delim::Paren), tokens::pc(';')]
}

/// `sylvia :: multitest :: proxy :: new ( & self . contract_addr , msg , & self . app )`
pub open spec fn proxy_new(sylvia: Seq<TokV>, proxy: &str) -> Seq<TokV> {
    path3(sylvia, "multitest", proxy) + tokens::colon2() + seq![
        tokens::id("new"),
        TokV::Open(Delim::Paren),
        tokens::pc('&'),
        tokens::id("self"),
        tokens::pc('.'),
        tokens::id("contract_addr"),
        tokens::pc(','),
        tokens::id("msg"),
        tokens::pc(','),
        tokens::pc('&'),
        tokens::id("self"),
        tokens::pc('.'),
        tokens::id("app"),
        TokV::Close(Delim::Paren),
    ]
}

/// `Result < ok , err >`
pub open spec fn result_of(ok: Seq<TokV>, err: Seq<TokV>) -> Seq<TokV> {
    seq![tokens::id("Result"), tokens::pc('<')] + ok + seq![tokens::pc(',')] + err + seq![tokens::pc('>')]
}

/// `( * self . app ) . querier ( ) . query_wasm_smart ( self . contract_addr . clone ( ) , & msg )
/// . map_err ( Into :: into )`
pub open spec fn query_call() -> Seq<TokV> {
    seq![
        TokV::Open(Delim::Paren),
        tokens::pc('*'),
        tokens::id("self"),
        tokens::pc('.'),
        tokens::id("app"),
        TokV::Close(Delim::Paren),
        tokens::pc('.'),
        tokens::id("querier"),
        TokV::Open(Delim::Paren),
        TokV::Close(Delim::Paren),
        tokens::pc('.'),
        tokens::id("query_wasm_smart"),
        TokV::Open(Delim::Paren),
        tokens::id("self"),
        tokens::pc('.'),
        tokens::id("contract_addr"),
        tokens::pc('.'),
        tokens::id("clone"),
        TokV::Open(Delim::Paren),
        TokV::Close(Delim::Paren),
        tokens::pc(','),
        tokens::pc('&'),
        tokens::id("msg"),
        TokV::Close(Delim::Paren),
        tokens::pc('.'),
        tokens::id("map_err"),
        TokV::Open(Delim::Paren),
        tokens::id("Into"),
        tokens::pc(':'),
        tokens::pc(':'),
        tokens::id("into"),
        TokV::Close(Delim::Paren),
    ]
}

/// `( * self . app ) . app_mut ( ) . wasm_sudo ( self . contract_addr . clone ( ) , & msg )
/// . map_err ( | err | err . downcast ( ) . unwrap ( ) )`
pub open spec fn sudo_call() -> Seq<TokV> {
    seq![
        TokV::Open(Delim::Paren),
        tokens::pc('*'),
        tokens::id("self"),
        tokens::pc('.'),
        tokens::id("app"),
        TokV::Close(Delim::Paren),
        tokens::pc('.'),
        tokens::id("app_mut"),
        TokV::Open(Delim::Paren),
        TokV::Close(Delim::Paren),
        tokens::pc('.'),
        tokens::id("wasm_sudo"),
        TokV::Open(Delim::Paren),
        tokens::id("self"),
        tokens::pc('.'),
        tokens::id("contract_addr"),
        tokens::pc('.'),
        tokens::id("clone"),
        TokV::Open(Delim::Paren),
        TokV::Close(Delim::Paren),
        tokens::pc(','),
        tokens::pc('&'),
        tokens::id("msg"),
        TokV::Close(Delim::Paren),
        tokens::pc('.'),
        tokens::id("map_err"),
        TokV::Open(Delim::Paren),
        tokens::pc('|'),
        tokens::id("err"),
        tokens::pc('|'),
        tokens::id("err"),
        tokens::pc('.'),
        tokens::id("downcast"),
        TokV::Open(Delim::Paren),
        TokV::Close(Delim::Paren),
        tokens::pc('.'),
        tokens::id("unwrap"),
        TokV::Open(Delim::Paren),
        TokV::Close(Delim::Paren),
        TokV::Close(Delim::Paren),
    ]
}

/// The method of the MultiTest proxy for `v`, sending the message of its
/// kind among `api` through the app `app`; nothing for the kinds that have no
/// such method.
pub open spec fn mt_definition(
    v: MsgVariantV,
    custom_msg: Seq<TokV>,
    app: Seq<TokV>,
    err: Seq<TokV>,
    api: Seq<TokV>,
    sylvia: Seq<TokV>,
) -> Seq<TokV> {
    match v.msg_type {
        MsgType::Exec => caller_location_attr() + mt_head(v) + proxy_type(sylvia, "ExecProxy", err, v, api, app, custom_msg) + seq![
            TokV::Open(Delim::Brace),
        ] + let_msg(v, api, method_name(v)) + proxy_new(sylvia, "ExecProxy") + seq![TokV::Close(Delim::Brace)],
        MsgType::Query => mt_head(v) + result_of(v.return_type, err) + seq![TokV::Open(Delim::Brace)] + let_msg(
            v,
            api,
            method_name(v),
        ) + query_call() + seq![TokV::Close(Delim::Brace)],
        MsgType::Sudo => mt_head(v) + result_of(path3(sylvia, "cw_multi_test", "AppResponse"), err) + seq![
            TokV::Open(Delim::Brace),
        ] + let_msg(v, api, method_name(v)) + sudo_call() + seq![TokV::Close(Delim::Brace)],
        MsgType::Migrate => caller_location_attr() + mt_head(v) + proxy_type(sylvia, "MigrateProxy", err, v, api, app, custom_msg)
            + seq![TokV::Open(Delim::Brace)] + let_msg(v, api, "new"@) + proxy_new(sylvia, "MigrateProxy") + seq![
            TokV::Close(Delim::Brace),
        ],
        _ => Seq::empty(),
    }
}

/// The declaration of the method of the MultiTest proxy trait for `v`, over
/// the app parameter `MtApp`; nothing for the kinds that have no such method.
pub open spec fn mt_declaration(v: MsgVariantV, custom_msg: Seq<TokV>, err: Seq<TokV>, api: Seq<TokV>, sylvia: Seq<TokV>) -> Seq<TokV> {
    match v.msg_type {
        MsgType::Exec => mt_head(v) + proxy_type(sylvia, "ExecProxy", err, v, api, seq![tokens::id("MtApp")], custom_msg) + seq![
            tokens::pc(';'),
        ],
        MsgType::Query => mt_head(v) + result_of(v.return_type, err) + seq![tokens::pc(';')],
        MsgType::Sudo => mt_head(v) + result_of(path3(sylvia, "cw_multi_test", "AppResponse"), err) + seq![tokens::pc(';')],
        MsgType::Migrate => caller_location_attr() + mt_head(v) + proxy_type(
            sylvia,
            "MigrateProxy",
            err,
            v,
            api,
            seq![tokens::id("MtApp")],
            custom_msg,
        ) + seq![tokens::pc(';')],
        _ => Seq::empty(),
    }
}

/// Appends `sylvia :: module :: item`.
pub(crate) fn push_path3(dst: &mut Vec<Tok>, sylvia: &Vec<Tok>, module: &str, item: &str)
    ensures
        tokens::toks(final(dst)@) == tokens::toks(old(dst)@) + path3(tokens::toks(sylvia@), module, item),
{
    tokens::extend_toks(dst, sylvia);
    tokens::push_punct(dst, ':');
    tokens::push_punct(dst, ':');
    tokens::push_ident(dst, module);
    tokens::push_punct(dst, ':');
    tokens::push_punct(dst, ':');
    tokens::push_ident(dst, item);
    assert(tokens::toks(dst@) =~= tokens::toks(old(dst)@) + path3(tokens::toks(sylvia@), module, item));
}

/// Appends `name : Type ,` for each field of `v`.
pub(crate) fn push_params_each_comma(dst: &mut Vec<Tok>, v: &MsgVariant)
    ensures
        tokens::toks(final(dst)@) == tokens::toks(old(dst)@) + params_each_comma(v@.fields),
{
    let ghost fs = v@.fields;
    let ghost want = Seq::new(fs.len(), |i: int| field_param(fs[i]) + seq![tokens::pc(',')]);
    let ghost start = tokens::toks(dst@);
    let mut k: usize = 0;
    assert(want.take(0) =~= Seq::<Seq<TokV>>::empty());
    assert(tokens::toks(dst@) =~= start + tokens::concat(want.take(0)));
    while k < v.fields.len()
        invariant
            fs == v@.fields,
            want == Seq::new(fs.len(), |i: int| field_param(fs[i]) + seq![tokens::pc(',')]),
            k <= v.fields.len(),
            tokens::toks(dst@) == start + tokens::concat(want.take(k as int)),
        decreases v.fields.len() - k,
    {
        let ghost before = tokens::toks(dst@);
        let f = &v.fields[k];
        tokens::push_tok(dst, Tok::Ident(f.name.clone()));
        tokens::push_punct(dst, ':');
        tokens::extend_toks(dst, &f.ty);
        tokens::push_punct(dst, ',');
        assert(fs[k as int] == f@);
        assert(tokens::toks(dst@) =~= before + want[k as int]);
        assert(want.take(k + 1).drop_last() =~= want.take(k as int));
        assert(tokens::toks(dst@) =~= start + tokens::concat(want.take(k + 1)));
        k = k + 1;
    }
    assert(want.take(k as int) =~= want);
}

/// Appends the attribute that makes a panic report the caller's location.
pub(crate) fn push_caller_location_attr(dst: &mut Vec<Tok>)
    ensures
        tokens::toks(final(dst)@) == tokens::toks(old(dst)@) + caller_location_attr(),
{
    tokens::push_punct(dst, '#');
    tokens::push_tok(dst, Tok::Open(Delim::Bracket));
    let mut name = String::from_str("track_");
    name.append("caller");
    tokens::push_tok(dst, Tok::Ident(name));
    tokens::push_tok(dst, Tok::Close(Delim::Bracket));
    assert(tokens::toks(dst@) =~= tokens::toks(old(dst)@) + caller_location_attr());
}

/// Appends `fn name ( & self , params , ) ->`.
fn push_mt_head(dst: &mut Vec<Tok>, v: &MsgVariant)
    ensures
        tokens::toks(final(dst)@) == tokens::toks(old(dst)@) + mt_head(v@),
{
    let ghost s0 = tokens::toks(dst@);
    tokens::push_ident(dst, "fn");
    querier::push_method_name(dst, v);
    tokens::push_tok(dst, Tok::Open(Delim::Paren));
    tokens::push_punct(dst, '&');
    tokens::push_ident(dst, "self");
    tokens::push_punct(dst, ',');
    push_params_each_comma(dst, v);
    tokens::push_tok(dst, Tok::Close(Delim::Paren));
    tokens::push_punct(dst, '-');
    tokens::push_punct(dst, '>');
    assert(tokens::toks(dst@) =~= s0 + mt_head(v@));
}

/// Appends `api :: Kind`.
fn push_msg_path(dst: &mut Vec<Tok>, v: &MsgVariant, api: &Vec<Tok>)
    ensures
        tokens::toks(final(dst)@) == tokens::toks(old(dst)@) + msg_path(v@, tokens::toks(api@)),
{
    tokens::extend_toks(dst, api);
    tokens::push_punct(dst, ':');
    tokens::push_punct(dst, ':');
    let acc = match v.msg_type.as_accessor_name(false) {
        Some(a) => a,
        None => String::new(),
    };
    tokens::push_tok(dst, Tok::Ident(acc));
    assert(tokens::toks(dst@) =~= tokens::toks(old(dst)@) + msg_path(v@, tokens::toks(api@)));
}

/// Appends `sylvia :: multitest :: proxy :: < err , api :: Kind , app , custom_msg >`.
fn push_proxy_type(
    dst: &mut Vec<Tok>,
    sylvia: &Vec<Tok>,
    proxy: &str,
    err: &Vec<Tok>,
    v: &MsgVariant,
    api: &Vec<Tok>,
    app: &Vec<Tok>,
    custom_msg: &Vec<Tok>,
)
    ensures
        tokens::toks(final(dst)@) == tokens::toks(old(dst)@) + proxy_type(
            tokens::toks(sylvia@),
            proxy,
            tokens::toks(err@),
            v@,
            tokens::toks(api@),
            tokens::toks(app@),
            tokens::toks(custom_msg@),
        ),
{
    let ghost s0 = tokens::toks(dst@);
    push_path3(dst, sylvia, "multitest", proxy);
    tokens::push_punct(dst, ':');
    tokens::push_punct(dst, ':');
    tokens::push_punct(dst, '<');
    tokens::extend_toks(dst, err);
    tokens::push_punct(dst, ',');
    push_msg_path(dst, v, api);
    tokens::push_punct(dst, ',');
    tokens::extend_toks(dst, app);
    tokens::push_punct(dst, ',');
    tokens::extend_toks(dst, custom_msg);
    tokens::push_punct(dst, '>');
    assert(tokens::toks(dst@) =~= s0 + proxy_type(
        tokens::toks(sylvia@),
        proxy,
        tokens::toks(err@),
        v@,
        tokens::toks(api@),
        tokens::toks(app@),
        tokens::toks(custom_msg@),
    ));
}

/// Appends `let msg = api :: Kind :: ctor ( names ) ;`, the constructor being
/// `new` when `by_new` and the method's name otherwise.
fn push_let_msg(dst: &mut Vec<Tok>, v: &MsgVariant, api: &Vec<Tok>, by_new: bool)
    ensures
        tokens::toks(final(dst)@) == tokens::toks(old(dst)@) + let_msg(v@, tokens::toks(api@), if by_new { "new"@ } else { method_name(v@) }),
{
    let ghost s0 = tokens::toks(dst@);
    tokens::push_ident(dst, "let");
    tokens::push_ident(dst, "msg");
    tokens::push_punct(dst, '=');
    push_msg_path(dst, v, api);
    tokens::push_punct(dst, ':');
    tokens::push_punct(dst, ':');
    if by_new {
        tokens::push_ident(dst, "new");
    } else {
        querier::push_method_name(dst, v);
    }
    tokens::push_tok(dst, Tok::Open(Delim::Paren));
    querier::push_all_names(dst, v);
    tokens::push_tok(dst, Tok::Close(Delim::Paren));
    tokens::push_punct(dst, ';');
    assert(tokens::toks(dst@) =~= s0 + let_msg(v@, tokens::toks(api@), if by_new { "new"@ } else { method_name(v@) }));
}

/// Appends `sylvia :: multitest :: proxy :: new ( & self . contract_addr , msg , & self . app )`.
fn push_proxy_new(dst: &mut Vec<Tok>, sylvia: &Vec<Tok>, proxy: &str)
    ensures
        tokens::toks(final(dst)@) == tokens::toks(old(dst)@) + proxy_new(tokens::toks(sylvia@), proxy),
{
    let ghost s0 = tokens::toks(dst@);
    push_path3(dst, sylvia, "multitest", proxy);
    tokens::push_punct(dst, ':');
    tokens::push_punct(dst, ':');
    let rest: Vec<Tok> = vec![
        Tok::ident("new"),
        Tok::Open(Delim::Paren),
        Tok::Punct('&'),
        Tok::ident("self"),
        Tok::Punct('.'),
        Tok::ident("contract_addr"),
        Tok::Punct(','),
        Tok::ident("msg"),
        Tok::Punct(','),
        Tok::Punct('&'),
        Tok::ident("self"),
        Tok::Punct('.'),
        Tok::ident("app"),
        Tok::Close(Delim::Paren),
    ];
    tokens::extend_toks(dst, &rest);
    assert(tokens::toks(dst@) =~= s0 + proxy_new(tokens::toks(sylvia@), proxy));
}

/// Appends `Result < ok , err >`.
fn push_result_of(dst: &mut Vec<Tok>, ok: &Vec<Tok>, err: &Vec<Tok>)
    ensures
        tokens::toks(final(dst)@) == tokens::toks(old(dst)@) + result_of(tokens::toks(ok@), tokens::toks(err@)),
{
    tokens::push_ident(dst, "Result");
    tokens::push_punct(dst, '<');
    tokens::extend_toks(dst, ok);
    tokens::push_punct(dst, ',');
    tokens::extend_toks(dst, err);
    tokens::push_punct(dst, '>');
    assert(tokens::toks(dst@) =~= tokens::toks(old(dst)@) + result_of(tokens::toks(ok@), tokens::toks(err@)));
}

/// The tokens of the query call of a proxy method.
fn query_call_exec() -> (r: Vec<Tok>)
    ensures
        tokens::toks(r@) == query_call(),
{
    let r: Vec<Tok> = vec![
        Tok::Open(Delim::Paren),
        Tok::Punct('*'),
        Tok::ident("self"),
        Tok::Punct('.'),
        Tok::ident("app"),
        Tok::Close(Delim::Paren),
        Tok::Punct('.'),
        Tok::ident("querier"),
        Tok::Open(Delim::Paren),
        Tok::Close(Delim::Paren),
        Tok::Punct('.'),
        Tok::ident("query_wasm_smart"),
        Tok::Open(Delim::Paren),
        Tok::ident("self"),
        Tok::Punct('.'),
        Tok::ident("contract_addr"),
        Tok::Punct('.'),
        Tok::ident("clone"),
        Tok::Open(Delim::Paren),
        Tok::Close(Delim::Paren),
        Tok::Punct(','),
        Tok::Punct('&'),
        Tok::ident("msg"),
        Tok::Close(Delim::Paren),
        Tok::Punct('.'),
        Tok::ident("map_err"),
        Tok::Open(Delim::Paren),
        Tok::ident("Into"),
        Tok::Punct(':'),
        Tok::Punct(':'),
        Tok::ident("into"),
        Tok::Close(Delim::Paren),
    ];
    assert(tokens::toks(r@) =~= query_call());
    r
}

/// The tokens of the sudo call of a proxy method.
fn sudo_call_exec() -> (r: Vec<Tok>)
    ensures
        tokens::toks(r@) == sudo_call(),
{
    let r: Vec<Tok> = vec![
        Tok::Open(Delim::Paren),
        Tok::Punct('*'),
        Tok::ident("self"),
        Tok::Punct('.'),
        Tok::ident("app"),
        Tok::Close(Delim::Paren),
        Tok::Punct('.'),
        Tok::ident("app_mut"),
        Tok::Open(Delim::Paren),
        Tok::Close(Delim::Paren),
        Tok::Punct('.'),
        Tok::ident("wasm_sudo"),
        Tok::Open(Delim::Paren),
        Tok::ident("self"),
        Tok::Punct('.'),
        Tok::ident("contract_addr"),
        Tok::Punct('.'),
        Tok::ident("clone"),
        Tok::Open(Delim::Paren),
        Tok::Close(Delim::Paren),
        Tok::Punct(','),
        Tok::Punct('&'),
        Tok::ident("msg"),
        Tok::Close(Delim::Paren),
        Tok::Punct('.'),
        Tok::ident("map_err"),
        Tok::Open(Delim::Paren),
        Tok::Punct('|'),
        Tok::ident("err"),
        Tok::Punct('|'),
        Tok::ident("err"),
        Tok::Punct('.'),
        Tok::ident("downcast"),
        Tok::Open(Delim::Paren),
        Tok::Close(Delim::Paren),
        Tok::Punct('.'),
        Tok::ident("unwrap"),
        Tok::Open(Delim::Paren),
        Tok::Close(Delim::Paren),
        Tok::Close(Delim::Paren),
    ];
    assert(tokens::toks(r@) =~= sudo_call());
    r
}

impl MsgVariant {
    /// The method of the MultiTest proxy for this message: it builds the
    /// message of its kind among `api` and sends it through the app `mt_app`,
    /// failing with `error_type`. Nothing for kinds without such a method.
    pub fn emit_mt_method_definition(
        &self,
        custom_msg: &Vec<Tok>,
        mt_app: &Vec<Tok>,
        error_type: &Vec<Tok>,
        api: &Vec<Tok>,
        sylvia: &Vec<Tok>,
    ) -> (r: Vec<Tok>)
        ensures
            tokens::toks(r@) == mt_definition(
                self@,
                tokens::toks(custom_msg@),
                tokens::toks(mt_app@),
                tokens::toks(error_type@),
                tokens::toks(api@),
                tokens::toks(sylvia@),
            ),
    {
        let mut r: Vec<Tok> = Vec::new();
        match self.msg_type {
            MsgType::Exec => {
                push_caller_location_attr(&mut r);
                push_mt_head(&mut r, self);
                push_proxy_type(&mut r, sylvia, "ExecProxy", error_type, self, api, mt_app, custom_msg);
                tokens::push_tok(&mut r, Tok::Open(Delim::Brace));
                push_let_msg(&mut r, self, api, false);
                push_proxy_new(&mut r, sylvia, "ExecProxy");
                tokens::push_tok(&mut r, Tok::Close(Delim::Brace));
            },
            MsgType::Query => {
                push_mt_head(&mut r, self);
                push_result_of(&mut r, &self.return_type, error_type);
                tokens::push_tok(&mut r, Tok::Open(Delim::Brace));
                push_let_msg(&mut r, self, api, false);
                let c = query_call_exec();
                tokens::extend_toks(&mut r, &c);
                tokens::push_tok(&mut r, Tok::Close(Delim::Brace));
            },
            MsgType::Sudo => {
                push_mt_head(&mut r, self);
                let mut ok: Vec<Tok> = Vec::new();
                push_path3(&mut ok, sylvia, "cw_multi_test", "AppResponse");
                assert(tokens::toks(ok@) =~= path3(tokens::toks(sylvia@), "cw_multi_test", "AppResponse"));
                push_result_of(&mut r, &ok, error_type);
                tokens::push_tok(&mut r, Tok::Open(Delim::Brace));
                push_let_msg(&mut r, self, api, false);
                let c = sudo_call_exec();
                tokens::extend_toks(&mut r, &c);
                tokens::push_tok(&mut r, Tok::Close(Delim::Brace));
            },
            MsgType::Migrate => {
                push_caller_location_attr(&mut r);
                push_mt_head(&mut r, self);
                push_proxy_type(&mut r, sylvia, "MigrateProxy", error_type, self, api, mt_app, custom_msg);
                tokens::push_tok(&mut r, Tok::Open(Delim::Brace));
                push_let_msg(&mut r, self, api, true);
                push_proxy_new(&mut r, sylvia, "MigrateProxy");
                tokens::push_tok(&mut r, Tok::Close(Delim::Brace));
            },
            _ => {},
        }
        assert(tokens::toks(r@) =~= mt_definition(
            self@,
            tokens::toks(custom_msg@),
            tokens::toks(mt_app@),
            tokens::toks(error_type@),
            tokens::toks(api@),
            tokens::toks(sylvia@),
        ));
        r
    }

    /// The declaration of the method of the MultiTest proxy trait for this
    /// message, over the app parameter `MtApp`. Nothing for kinds without
    /// such a method.
    pub fn emit_mt_method_declaration(&self, custom_msg: &Vec<Tok>, error_type: &Vec<Tok>, api: &Vec<Tok>, sylvia: &Vec<Tok>) -> (r: Vec<Tok>)
        ensures
            tokens::toks(r@) == mt_declaration(
                self@,
                tokens::toks(custom_msg@),
                tokens::toks(error_type@),
                tokens::toks(api@),
                tokens::toks(sylvia@),
            ),
    {
        let app: Vec<Tok> = vec![Tok::ident("MtApp")];
        assert(tokens::toks(app@) =~= seq![tokens::id("MtApp")]);
        let mut r: Vec<Tok> = Vec::new();
        match self.msg_type {
            MsgType::Exec => {
                push_mt_head(&mut r, self);
                push_proxy_type(&mut r, sylvia, "ExecProxy", error_type, self, api, &app, custom_msg);
                tokens::push_punct(&mut r, ';');
            },
            MsgType::Query => {
                push_mt_head(&mut r, self);
                push_result_of(&mut r, &self.return_type, error_type);
                tokens::push_punct(&mut r, ';');
            },
            MsgType::Sudo => {
                push_mt_head(&mut r, self);
                let mut ok: Vec<Tok> = Vec::new();
                push_path3(&mut ok, sylvia, "cw_multi_test", "AppResponse");
                assert(tokens::toks(ok@) =~= path3(tokens::toks(sylvia@), "cw_multi_test", "AppResponse"));
                push_result_of(&mut r, &ok, error_type);
                tokens::push_punct(&mut r, ';');
            },
            MsgType::Migrate => {
                push_caller_location_attr(&mut r);
                push_mt_head(&mut r, self);
                push_proxy_type(&mut r, sylvia, "MigrateProxy", error_type, self, api, &app, custom_msg);
                tokens::push_punct(&mut r, ';');
            },
            _ => {},
        }
        assert(tokens::toks(r@) =~= mt_declaration(
            self@,
            tokens::toks(custom_msg@),
            tokens::toks(error_type@),
            tokens::toks(api@),
            tokens::toks(sylvia@),
        ));
        r
    }
}

/// The declarations, in order, of the proxy methods of the messages of kind `ty` among `vs`.
pub open spec fn kind_decls(vs: Seq<MsgVariantV>, ty: MsgType, custom_msg: Seq<TokV>, err: Seq<TokV>, api: Seq<TokV>, sylvia: Seq<TokV>) -> Seq<TokV>
    decreases vs.len(),
{
    if vs.len() == 0 {
        Seq::empty()
    } else {
        kind_decls(vs.drop_last(), ty, custom_msg, err, api, sylvia) + (if vs.last().msg_type == ty {
            mt_declaration(vs.last(), custom_msg, err, api, sylvia)
        } else {
            Seq::empty()
        })
    }
}

/// The proxy methods, in order, of the messages of kind `ty` among `vs`.
pub open spec fn kind_defs(
    vs: Seq<MsgVariantV>,
    ty: MsgType,
    custom_msg: Seq<TokV>,
    app: Seq<TokV>,
    err: Seq<TokV>,
    api: Seq<TokV>,
    sylvia: Seq<TokV>,
) -> Seq<TokV>
    decreases vs.len(),
{
    if vs.len() == 0 {
        Seq::empty()
    } else {
        kind_defs(vs.drop_last(), ty, custom_msg, app, err, api, sylvia) + (if vs.last().msg_type == ty {
            mt_definition(vs.last(), custom_msg, app, err, api, sylvia)
        } else {
            Seq::empty()
        })
    }
}

/// The declaration of the proxy method of a message of kind `ty` occurs among
/// the declarations for that kind.
proof fn lemma_kind_decls_part(
    vs: Seq<MsgVariantV>,
    ty: MsgType,
    custom_msg: Seq<TokV>,
    err: Seq<TokV>,
    api: Seq<TokV>,
    sylvia: Seq<TokV>,
    k: int,
)
    requires
        0 <= k < vs.len(),
        vs[k].msg_type == ty,
    ensures
        tokens::is_infix(mt_declaration(vs[k], custom_msg, err, api, sylvia), kind_decls(vs, ty, custom_msg, err, api, sylvia)),
    decreases vs.len(),
{
    let x = mt_declaration(vs[k], custom_msg, err, api, sylvia);
    let prev = kind_decls(vs.drop_last(), ty, custom_msg, err, api, sylvia);
    if k == vs.len() - 1 {
        let o = prev.len() as int;
        assert(kind_decls(vs, ty, custom_msg, err, api, sylvia).subrange(o, o + x.len()) =~= x);
    } else {
        assert(vs.drop_last()[k] == vs[k]);
        lemma_kind_decls_part(vs.drop_last(), ty, custom_msg, err, api, sylvia, k);
        let tail = if vs.last().msg_type == ty {
            mt_declaration(vs.last(), custom_msg, err, api, sylvia)
        } else {
            Seq::empty()
        };
        tokens::lemma_infix_within(x, prev, Seq::empty(), tail);
        assert(Seq::<TokV>::empty() + prev + tail =~= kind_decls(vs, ty, custom_msg, err, api, sylvia));
    }
}

/// The proxy method of a message of kind `ty` occurs among the methods for
/// that kind.
proof fn lemma_kind_defs_part(
    vs: Seq<MsgVariantV>,
    ty: MsgType,
    custom_msg: Seq<TokV>,
    app: Seq<TokV>,
    err: Seq<TokV>,
    api: Seq<TokV>,
    sylvia: Seq<TokV>,
    k: int,
)
    requires
        0 <= k < vs.len(),
        vs[k].msg_type == ty,
    ensures
        tokens::is_infix(mt_definition(vs[k], custom_msg, app, err, api, sylvia), kind_defs(vs, ty, custom_msg, app, err, api, sylvia)),
    decreases vs.len(),
{
    let x = mt_definition(vs[k], custom_msg, app, err, api, sylvia);
    let prev = kind_defs(vs.drop_last(), ty, custom_msg, app, err, api, sylvia);
    if k == vs.len() - 1 {
        let o = prev.len() as int;
        assert(kind_defs(vs, ty, custom_msg, app, err, api, sylvia).subrange(o, o + x.len()) =~= x);
    } else {
        assert(vs.drop_last()[k] == vs[k]);
        lemma_kind_defs_part(vs.drop_last(), ty, custom_msg, app, err, api, sylvia, k);
        let tail = if vs.last().msg_type == ty {
            mt_definition(vs.last(), custom_msg, app, err, api, sylvia)
        } else {
            Seq::empty()
        };
        tokens::lemma_infix_within(x, prev, Seq::empty(), tail);
        assert(Seq::<TokV>::empty() + prev + tail =~= kind_defs(vs, ty, custom_msg, app, err, api, sylvia));
    }
}

/// Appends the declarations of the proxy methods of the messages of kind `ty` among `vs`.
pub(crate) fn push_kind_decls(dst: &mut Vec<Tok>, vs: &Vec<MsgVariant>, ty: MsgType, custom_msg: &Vec<Tok>, err: &Vec<Tok>, api: &Vec<Tok>, sylvia: &Vec<Tok>)
    ensures
        tokens::toks(final(dst)@) == tokens::toks(old(dst)@) + kind_decls(
            reply::variants_view(vs@),
            ty,
            tokens::toks(custom_msg@),
            tokens::toks(err@),
            tokens::toks(api@),
            tokens::toks(sylvia@),
        ),
{
    let ghost vv = reply::variants_view(vs@);
    let ghost start = tokens::toks(dst@);
    let ghost (cm, e, a, sy) = (tokens::toks(custom_msg@), tokens::toks(err@), tokens::toks(api@), tokens::toks(sylvia@));
    let mut k: usize = 0;
    assert(vv.take(0) =~= Seq::<MsgVariantV>::empty());
    assert(tokens::toks(dst@) =~= start + kind_decls(vv.take(0), ty, cm, e, a, sy));
    while k < vs.len()
        invariant
            vv == reply::variants_view(vs@),
            cm == tokens::toks(custom_msg@),
            e == tokens::toks(err@),
            a == tokens::toks(api@),
            sy == tokens::toks(sylvia@),
            k <= vs.len(),
            tokens::toks(dst@) == start + kind_decls(vv.take(k as int), ty, cm, e, a, sy),
        decreases vs.len() - k,
    {
        assert(vv.take(k + 1).drop_last() =~= vv.take(k as int));
        assert(vv.take(k + 1).last() == vs@[k as int]@);
        if vs[k].msg_type == ty {
            let d = vs[k].emit_mt_method_declaration(custom_msg, err, api, sylvia);
            tokens::extend_toks(dst, &d);
        }
        assert(tokens::toks(dst@) =~= start + kind_decls(vv.take(k + 1), ty, cm, e, a, sy));
        k = k + 1;
    }
    assert(vv.take(k as int) =~= vv);
}

/// Appends the proxy methods of the messages of kind `ty` among `vs`.
pub(crate) fn push_kind_defs(
    dst: &mut Vec<Tok>,
    vs: &Vec<MsgVariant>,
    ty: MsgType,
    custom_msg: &Vec<Tok>,
    app: &Vec<Tok>,
    err: &Vec<Tok>,
    api: &Vec<Tok>,
    sylvia: &Vec<Tok>,
)
    ensures
        tokens::toks(final(dst)@) == tokens::toks(old(dst)@) + kind_defs(
            reply::variants_view(vs@),
            ty,
            tokens::toks(custom_msg@),
            tokens::toks(app@),
            tokens::toks(err@),
            tokens::toks(api@),
            tokens::toks(sylvia@),
        ),
{
    let ghost vv = reply::variants_view(vs@);
    let ghost start = tokens::toks(dst@);
    let ghost (cm, ap, e, a, sy) = (
        tokens::toks(custom_msg@),
        tokens::toks(app@),
        tokens::toks(err@),
        tokens::toks(api@),
        tokens::toks(sylvia@),
    );
    let mut k: usize = 0;
    assert(vv.take(0) =~= Seq::<MsgVariantV>::empty());
    assert(tokens::toks(dst@) =~= start + kind_defs(vv.take(0), ty, cm, ap, e, a, sy));
    while k < vs.len()
        invariant
            vv == reply::variants_view(vs@),
            cm == tokens::toks(custom_msg@),
            ap == tokens::toks(app@),
            e == tokens::toks(err@),
            a == tokens::toks(api@),
            sy == tokens::toks(sylvia@),
            k <= vs.len(),
            tokens::toks(dst@) == start + kind_defs(vv.take(k as int), ty, cm, ap, e, a, sy),
        decreases vs.len() - k,
    {
        assert(vv.take(k + 1).drop_last() =~= vv.take(k as int));
        assert(vv.take(k + 1).last() == vs@[k as int]@);
        if vs[k].msg_type == ty {
            let d = vs[k].emit_mt_method_definition(custom_msg, app, err, api, sylvia);
            tokens::extend_toks(dst, &d);
        }
        assert(tokens::toks(dst@) =~= start + kind_defs(vv.take(k + 1), ty, cm, ap, e, a, sy));
        k = k + 1;
    }
    assert(vv.take(k as int) =~= vv);
}

/// `sylvia :: cw_multi_test :: App < BankT , ApiT , StorageT , CustomT , WasmT , StakingT , DistrT , IbcT , GovT , >`
pub open spec fn mt_app_ty(sylvia: Seq<TokV>) -> Seq<TokV> {
    path3(sylvia, "cw_multi_test", "App") + seq![tokens::pc('<')] + module_params() + seq![tokens::pc('>')]
}

/// `BankT , ApiT , StorageT , CustomT , WasmT , StakingT , DistrT , IbcT , GovT ,`
pub open spec fn module_params() -> Seq<TokV> {
    seq![
        tokens::id("BankT"),
        tokens::pc(','),
        tokens::id("ApiT"),
        tokens::pc(','),
        tokens::id("StorageT"),
        tokens::pc(','),
        tokens::id("CustomT"),
        tokens::pc(','),
        tokens::id("WasmT"),
        tokens::pc(','),
        tokens::id("StakingT"),
        tokens::pc(','),
        tokens::id("DistrT"),
        tokens::pc(','),
        tokens::id("IbcT"),
        tokens::pc(','),
        tokens::id("GovT"),
        tokens::pc(','),
    ]
}

/// `std :: fmt :: Debug + std :: fmt :: Display + Send + Sync + 'static`
pub open spec fn error_bounds() -> Seq<TokV> {
    seq![
        tokens::id("std"),
        tokens::pc(':'),
        tokens::pc(':'),
        tokens::id("fmt"),
        tokens::pc(':'),
        tokens::pc(':'),
        tokens::id("Debug"),
        tokens::pc('+'),
        tokens::id("std"),
        tokens::pc(':'),
        tokens::pc(':'),
        tokens::id("fmt"),
        tokens::pc(':'),
        tokens::pc(':'),
        tokens::id("Display"),
        tokens::pc('+'),
        tokens::id("Send"),
        tokens::pc('+'),
        tokens::id("Sync"),
        tokens::pc('+'),
        tokens::pc('\''),
        tokens::id("static"),
    ]
}

/// The name of the MultiTest proxy trait of the interface `iname`.
pub open spec fn proxy_trait_name(iname: Seq<char>) -> Seq<char> {
    iname + "Proxy"@
}

/// `Self :: Error`
pub open spec fn self_error() -> Seq<TokV> {
    seq![tokens::id("Self"), tokens::pc(':'), tokens::pc(':'), tokens::id("Error")]
}

/// `CustomMsgT`
pub open spec fn custom_msg_param() -> Seq<TokV> {
    seq![tokens::id("CustomMsgT")]
}

/// `pub mod mt { use super :: * ; pub trait InterfaceProxy < MtApp , CustomMsgT > where .. {
/// type Error : bounds ;`
pub open spec fn mt_trait_head(iname: Seq<char>, w: Option<(Seq<WherePredicateV>, bool)>) -> Seq<TokV> {
    seq![
        tokens::id("pub"),
        tokens::id("mod"),
        tokens::id("mt"),
        TokV::Open(Delim::Brace),
        tokens::id("use"),
        tokens::id("super"),
        tokens::pc(':'),
        tokens::pc(':'),
        tokens::pc('*'),
        tokens::pc(';'),
        tokens::id("pub"),
        tokens::id("trait"),
        TokV::Ident(proxy_trait_name(iname)),
        tokens::pc('<'),
        tokens::id("MtApp"),
        tokens::pc(','),
        tokens::id("CustomMsgT"),
        tokens::pc('>'),
    ] + associated_types::opt_where_tokens(w) + seq![
        TokV::Open(Delim::Brace),
        tokens::id("type"),
        tokens::id("Error"),
        tokens::pc(':'),
    ] + error_bounds() + seq![tokens::pc(';')]
}

/// The declarations of the proxy methods of the queries, then of the execute
/// messages, then of the sudo messages among `vs`.
pub open spec fn all_kind_decls(vs: Seq<MsgVariantV>, api: Seq<TokV>, sylvia: Seq<TokV>) -> Seq<TokV> {
    kind_decls(vs, MsgType::Query, custom_msg_param(), self_error(), api, sylvia) + kind_decls(
        vs,
        MsgType::Exec,
        custom_msg_param(),
        self_error(),
        api,
        sylvia,
    ) + kind_decls(vs, MsgType::Sudo, custom_msg_param(), self_error(), api, sylvia)
}

/// The proxy trait: its head, the associated types of the interface and the
/// method declarations.
pub open spec fn mt_trait(
    iname: Seq<char>,
    w: Option<(Seq<WherePredicateV>, bool)>,
    ts: Seq<TraitItemTypeV>,
    vs: Seq<MsgVariantV>,
    api: Seq<TokV>,
    sylvia: Seq<TokV>,
) -> Seq<TokV> {
    mt_trait_head(iname, w) + trait_type_decls(ts) + all_kind_decls(vs, api, sylvia) + seq![TokV::Close(Delim::Brace)]
}

/// `impl < BankT , .. , GovT , CustomMsgT , ContractT : super :: Interface > InterfaceProxy <`
pub open spec fn mt_impl_params(iname: Seq<char>) -> Seq<TokV> {
    seq![tokens::id("impl"), tokens::pc('<')] + module_params() + seq![
        tokens::id("CustomMsgT"),
        tokens::pc(','),
        tokens::id("ContractT"),
        tokens::pc(':'),
        tokens::id("super"),
        tokens::pc(':'),
        tokens::pc(':'),
        TokV::Ident(iname),
        tokens::pc('>'),
        TokV::Ident(proxy_trait_name(iname)),
        tokens::pc('<'),
    ]
}

/// `app , CustomMsgT > for sylvia :: multitest :: Proxy < '_ , app , ContractT >`
pub open spec fn mt_impl_target(sylvia: Seq<TokV>) -> Seq<TokV> {
    mt_app_ty(sylvia) + seq![tokens::pc(','), tokens::id("CustomMsgT"), tokens::pc('>'), tokens::id("for")] + path3(
        sylvia,
        "multitest",
        "Proxy",
    ) + seq![tokens::pc('<'), tokens::pc('\''), tokens::id("_"), tokens::pc(',')] + mt_app_ty(sylvia) + seq![
        tokens::pc(','),
        tokens::id("ContractT"),
        tokens::pc('>'),
    ]
}

/// `impl < BankT , .. , GovT , CustomMsgT , ContractT : super :: Interface > InterfaceProxy <
/// app , CustomMsgT > for sylvia :: multitest :: Proxy < '_ , app , ContractT >`
pub open spec fn mt_impl_head(iname: Seq<char>, sylvia: Seq<TokV>) -> Seq<TokV> {
    mt_impl_params(iname) + mt_impl_target(sylvia)
}

/// `x : path ,`
pub open spec fn bound(x: &str, path: Seq<TokV>) -> Seq<TokV> {
    seq![tokens::id(x), tokens::pc(':')] + path + seq![tokens::pc(',')]
}

/// `'static`
pub open spec fn static_lt() -> Seq<TokV> {
    seq![tokens::pc('\''), tokens::id("static")]
}

/// The bounds of the proxy implementation on the contract's error, the
/// custom message, the custom module and the wasm module.
pub open spec fn first_bounds(sylvia: Seq<TokV>) -> Seq<TokV> {
    seq![tokens::id("where"), tokens::id("ContractT"), tokens::pc(':'), tokens::pc(':'), tokens::id("Error"), tokens::pc(':')]
        + error_bounds() + seq![tokens::pc(','), tokens::id("CustomMsgT"), tokens::pc(':')] + path3(sylvia, "types", "CustomMsg")
        + seq![tokens::pc('+')] + static_lt() + seq![tokens::pc(',')] + bound("CustomT", path3(sylvia, "cw_multi_test", "Module"))
        + seq![tokens::id("WasmT"), tokens::pc(':')] + path3(sylvia, "cw_multi_test", "Wasm") + seq![
        tokens::pc('<'),
        tokens::id("CustomT"),
        tokens::pc(':'),
        tokens::pc(':'),
        tokens::id("ExecT"),
        tokens::pc(','),
        tokens::id("CustomT"),
        tokens::pc(':'),
        tokens::pc(':'),
        tokens::id("QueryT"),
        tokens::pc('>'),
        tokens::pc(','),
    ]
}

/// The bounds of the proxy implementation on the other modules of the app.
pub open spec fn module_bounds(sylvia: Seq<TokV>) -> Seq<TokV> {
    bound("BankT", path3(sylvia, "cw_multi_test", "Bank")) + bound("ApiT", path3(sylvia, "cw_std", "Api")) + bound(
        "StorageT",
        path3(sylvia, "cw_std", "Storage"),
    ) + bound("CustomT", path3(sylvia, "cw_multi_test", "Module")) + bound("StakingT", path3(sylvia, "cw_multi_test", "Staking"))
        + bound("DistrT", path3(sylvia, "cw_multi_test", "Distribution")) + bound("IbcT", path3(sylvia, "cw_multi_test", "Ibc"))
        + bound("GovT", path3(sylvia, "cw_multi_test", "Gov"))
}

/// The bounds of the proxy implementation on its parameters.
pub open spec fn mt_impl_bounds(sylvia: Seq<TokV>) -> Seq<TokV> {
    first_bounds(sylvia) + module_bounds(sylvia)
}

/// `CustomT :: ExecT : sylvia :: types :: CustomMsg + 'static , CustomT :: QueryT :
/// sylvia :: types :: CustomQuery + 'static ,`
pub open spec fn custom_bounds(sylvia: Seq<TokV>) -> Seq<TokV> {
    seq![tokens::id("CustomT"), tokens::pc(':'), tokens::pc(':'), tokens::id("ExecT"), tokens::pc(':')] + path3(
        sylvia,
        "types",
        "CustomMsg",
    ) + seq![tokens::pc('+')] + static_lt() + seq![
        tokens::pc(','),
        tokens::id("CustomT"),
        tokens::pc(':'),
        tokens::pc(':'),
        tokens::id("QueryT"),
        tokens::pc(':'),
    ] + path3(sylvia, "types", "CustomQuery") + seq![tokens::pc('+')] + static_lt() + seq![tokens::pc(',')]
}

/// `app : sylvia :: cw_multi_test :: Executor < CustomMsgT > ,`
pub open spec fn executor_bound(sylvia: Seq<TokV>) -> Seq<TokV> {
    mt_app_ty(sylvia) + seq![tokens::pc(':')] + path3(sylvia, "cw_multi_test", "Executor") + seq![
        tokens::pc('<'),
        tokens::id("CustomMsgT"),
        tokens::pc('>'),
        tokens::pc(','),
    ]
}

/// The bounds of the proxy implementation on the app and custom types,
/// followed by the predicates of the interface's where clause.
pub open spec fn mt_impl_more_bounds(w: Option<(Seq<WherePredicateV>, bool)>, sylvia: Seq<TokV>) -> Seq<TokV> {
    custom_bounds(sylvia) + executor_bound(sylvia) + associated_types::opt_punctuated(w)
}

/// `{ type Error = < ContractT as super :: Interface > :: Error ; associated types ;
/// query , exec and sudo methods } }`, the last brace closing the module.
pub open spec fn mt_impl_body(iname: Seq<char>, ns: Seq<Seq<char>>, vs: Seq<MsgVariantV>, api: Seq<TokV>, sylvia: Seq<TokV>) -> Seq<TokV> {
    seq![
        TokV::Open(Delim::Brace),
        tokens::id("type"),
        tokens::id("Error"),
        tokens::pc('='),
        tokens::pc('<'),
        tokens::id("ContractT"),
        tokens::id("as"),
        tokens::id("super"),
        tokens::pc(':'),
        tokens::pc(':'),
        TokV::Ident(iname),
        tokens::pc('>'),
        tokens::pc(':'),
        tokens::pc(':'),
        tokens::id("Error"),
        tokens::pc(';'),
    ] + patterns(NamePattern::SuperDefinition, iname, ns) + kind_defs(
        vs,
        MsgType::Query,
        custom_msg_param(),
        mt_app_ty(sylvia),
        self_error(),
        api,
        sylvia,
    ) + kind_defs(vs, MsgType::Exec, custom_msg_param(), mt_app_ty(sylvia), self_error(), api, sylvia) + kind_defs(
        vs,
        MsgType::Sudo,
        custom_msg_param(),
        mt_app_ty(sylvia),
        self_error(),
        api,
        sylvia,
    ) + seq![TokV::Close(Delim::Brace), TokV::Close(Delim::Brace)]
}

/// The MultiTest helpers of an interface: the module `mt` with the proxy
/// trait and its implementation on the proxy of any contract implementing
/// the interface.
pub open spec fn mt_tokens(
    iname: Seq<char>,
    w: Option<(Seq<WherePredicateV>, bool)>,
    ts: Seq<TraitItemTypeV>,
    ns: Seq<Seq<char>>,
    vs: Seq<MsgVariantV>,
    sylvia: Seq<TokV>,
) -> Seq<TokV> {
    let api = iface_messages_api(iname, ns);
    mt_trait(iname, w, ts, vs, api, sylvia) + mt_impl_head(iname, sylvia) + mt_impl_bounds(sylvia) + mt_impl_more_bounds(w, sylvia)
        + mt_impl_body(iname, ns, vs, api, sylvia)
}

fn module_params_exec() -> (r: Vec<Tok>)
    ensures
        tokens::toks(r@) == module_params(),
{
    let r: Vec<Tok> = vec![
        Tok::ident("BankT"),
        Tok::Punct(','),
        Tok::ident("ApiT"),
        Tok::Punct(','),
        Tok::ident("StorageT"),
        Tok::Punct(','),
        Tok::ident("CustomT"),
        Tok::Punct(','),
        Tok::ident("WasmT"),
        Tok::Punct(','),
        Tok::ident("StakingT"),
        Tok::Punct(','),
        Tok::ident("DistrT"),
        Tok::Punct(','),
        Tok::ident("IbcT"),
        Tok::Punct(','),
        Tok::ident("GovT"),
        Tok::Punct(','),
    ];
    assert(tokens::toks(r@) =~= module_params());
    r
}

fn mt_app_exec(sylvia: &Vec<Tok>) -> (r: Vec<Tok>)
    ensures
        tokens::toks(r@) == mt_app_ty(tokens::toks(sylvia@)),
{
    let mut r: Vec<Tok> = Vec::new();
    push_path3(&mut r, sylvia, "cw_multi_test", "App");
    tokens::push_punct(&mut r, '<');
    let m = module_params_exec();
    tokens::extend_toks(&mut r, &m);
    tokens::push_punct(&mut r, '>');
    assert(tokens::toks(r@) =~= mt_app_ty(tokens::toks(sylvia@)));
    r
}

fn error_bounds_exec() -> (r: Vec<Tok>)
    ensures
        tokens::toks(r@) == error_bounds(),
{
    let r: Vec<Tok> = vec![
        Tok::ident("std"),
        Tok::Punct(':'),
        Tok::Punct(':'),
        Tok::ident("fmt"),
        Tok::Punct(':'),
        Tok::Punct(':'),
        Tok::ident("Debug"),
        Tok::Punct('+'),
        Tok::ident("std"),
        Tok::Punct(':'),
        Tok::Punct(':'),
        Tok::ident("fmt"),
        Tok::Punct(':'),
        Tok::Punct(':'),
        Tok::ident("Display"),
        Tok::Punct('+'),
        Tok::ident("Send"),
        Tok::Punct('+'),
        Tok::ident("Sync"),
        Tok::Punct('+'),
        Tok::Punct('\''),
        Tok::ident("static"),
    ];
    assert(tokens::toks(r@) =~= error_bounds());
    r
}

/// Appends `x : sylvia :: module :: item ,`.
fn push_bound(dst: &mut Vec<Tok>, x: &str, sylvia: &Vec<Tok>, module: &str, item: &str)
    ensures
        tokens::toks(final(dst)@) == tokens::toks(old(dst)@) + bound(x, path3(tokens::toks(sylvia@), module, item)),
{
    tokens::push_ident(dst, x);
    tokens::push_punct(dst, ':');
    push_path3(dst, sylvia, module, item);
    tokens::push_punct(dst, ',');
    assert(tokens::toks(dst@) =~= tokens::toks(old(dst)@) + bound(x, path3(tokens::toks(sylvia@), module, item)));
}

/// Appends `+ 'static ,`.
fn push_plus_static_comma(dst: &mut Vec<Tok>)
    ensures
        tokens::toks(final(dst)@) == tokens::toks(old(dst)@) + seq![tokens::pc('+')] + static_lt() + seq![tokens::pc(',')],
{
    tokens::push_punct(dst, '+');
    tokens::push_punct(dst, '\'');
    tokens::push_ident(dst, "static");
    tokens::push_punct(dst, ',');
    assert(tokens::toks(dst@) =~= tokens::toks(old(dst)@) + seq![tokens::pc('+')] + static_lt() + seq![tokens::pc(',')]);
}

fn mt_impl_target_exec(sylvia: &Vec<Tok>) -> (r: Vec<Tok>)
    ensures
        tokens::toks(r@) == mt_impl_target(tokens::toks(sylvia@)),
{
    let app = mt_app_exec(sylvia);
    let mut r: Vec<Tok> = Vec::new();
    tokens::extend_toks(&mut r, &app);
    tokens::push_punct(&mut r, ',');
    tokens::push_ident(&mut r, "CustomMsgT");
    tokens::push_punct(&mut r, '>');
    tokens::push_ident(&mut r, "for");
    push_path3(&mut r, sylvia, "multitest", "Proxy");
    tokens::push_punct(&mut r, '<');
    tokens::push_punct(&mut r, '\'');
    tokens::push_ident(&mut r, "_");
    tokens::push_punct(&mut r, ',');
    tokens::extend_toks(&mut r, &app);
    tokens::push_punct(&mut r, ',');
    tokens::push_ident(&mut r, "ContractT");
    tokens::push_punct(&mut r, '>');
    assert(tokens::toks(r@) =~= mt_impl_target(tokens::toks(sylvia@)));
    r
}

fn first_bounds_exec(sylvia: &Vec<Tok>) -> (r: Vec<Tok>)
    ensures
        tokens::toks(r@) == first_bounds(tokens::toks(sylvia@)),
{
    let mut r: Vec<Tok> = vec![
        Tok::ident("where"),
        Tok::ident("ContractT"),
        Tok::Punct(':'),
        Tok::Punct(':'),
        Tok::ident("Error"),
        Tok::Punct(':'),
    ];
    let eb = error_bounds_exec();
    tokens::extend_toks(&mut r, &eb);
    tokens::push_punct(&mut r, ',');
    tokens::push_ident(&mut r, "CustomMsgT");
    tokens::push_punct(&mut r, ':');
    push_path3(&mut r, sylvia, "types", "CustomMsg");
    push_plus_static_comma(&mut r);
    push_bound(&mut r, "CustomT", sylvia, "cw_multi_test", "Module");
    tokens::push_ident(&mut r, "WasmT");
    tokens::push_punct(&mut r, ':');
    push_path3(&mut r, sylvia, "cw_multi_test", "Wasm");
    let args: Vec<Tok> = vec![
        Tok::Punct('<'),
        Tok::ident("CustomT"),
        Tok::Punct(':'),
        Tok::Punct(':'),
        Tok::ident("ExecT"),
        Tok::Punct(','),
        Tok::ident("CustomT"),
        Tok::Punct(':'),
        Tok::Punct(':'),
        Tok::ident("QueryT"),
        Tok::Punct('>'),
        Tok::Punct(','),
    ];
    tokens::extend_toks(&mut r, &args);
    assert(tokens::toks(r@) =~= first_bounds(tokens::toks(sylvia@)));
    r
}

fn module_bounds_exec(sylvia: &Vec<Tok>) -> (r: Vec<Tok>)
    ensures
        tokens::toks(r@) == module_bounds(tokens::toks(sylvia@)),
{
    let mut r: Vec<Tok> = Vec::new();
    push_bound(&mut r, "BankT", sylvia, "cw_multi_test", "Bank");
    push_bound(&mut r, "ApiT", sylvia, "cw_std", "Api");
    push_bound(&mut r, "StorageT", sylvia, "cw_std", "Storage");
    push_bound(&mut r, "CustomT", sylvia, "cw_multi_test", "Module");
    push_bound(&mut r, "StakingT", sylvia, "cw_multi_test", "Staking");
    push_bound(&mut r, "DistrT", sylvia, "cw_multi_test", "Distribution");
    push_bound(&mut r, "IbcT", sylvia, "cw_multi_test", "Ibc");
    push_bound(&mut r, "GovT", sylvia, "cw_multi_test", "Gov");
    assert(tokens::toks(r@) =~= module_bounds(tokens::toks(sylvia@)));
    r
}

fn custom_bounds_exec(sylvia: &Vec<Tok>) -> (r: Vec<Tok>)
    ensures
        tokens::toks(r@) == custom_bounds(tokens::toks(sylvia@)),
{
    let mut r: Vec<Tok> = vec![Tok::ident("CustomT"), Tok::Punct(':'), Tok::Punct(':'), Tok::ident("ExecT"), Tok::Punct(':')];
    push_path3(&mut r, sylvia, "types", "CustomMsg");
    push_plus_static_comma(&mut r);
    tokens::push_ident(&mut r, "CustomT");
    tokens::push_punct(&mut r, ':');
    tokens::push_punct(&mut r, ':');
    tokens::push_ident(&mut r, "QueryT");
    tokens::push_punct(&mut r, ':');
    push_path3(&mut r, sylvia, "types", "CustomQuery");
    push_plus_static_comma(&mut r);
    assert(tokens::toks(r@) =~= custom_bounds(tokens::toks(sylvia@)));
    r
}

fn executor_bound_exec(sylvia: &Vec<Tok>) -> (r: Vec<Tok>)
    ensures
        tokens::toks(r@) == executor_bound(tokens::toks(sylvia@)),
{
    let mut r = mt_app_exec(sylvia);
    tokens::push_punct(&mut r, ':');
    push_path3(&mut r, sylvia, "cw_multi_test", "Executor");
    tokens::push_punct(&mut r, '<');
    tokens::push_ident(&mut r, "CustomMsgT");
    tokens::push_punct(&mut r, '>');
    tokens::push_punct(&mut r, ',');
    assert(tokens::toks(r@) =~= executor_bound(tokens::toks(sylvia@)));
    r
}

/// Generator of the MultiTest helpers of an interface.
pub struct MtHelpers<'a> {
    /// The interface's name.
    pub interface_name: &'a String,
    /// The interface's where clause.
    pub where_clause: &'a Option<WhereClause>,
    /// Its associated types.
    pub associated_types: &'a AssociatedTypes<'a>,
    /// Its messages; the helpers cover its queries, execute and sudo messages.
    pub variants: &'a Vec<MsgVariant>,
}

impl<'a> MtHelpers<'a> {
    /// The generator for the interface `interface_name` with the where clause
    /// `where_clause`, the associated types `associated_types` and the
    /// messages `variants`.
    pub fn new(
        interface_name: &'a String,
        where_clause: &'a Option<WhereClause>,
        associated_types: &'a AssociatedTypes<'a>,
        variants: &'a Vec<MsgVariant>,
    ) -> (r: MtHelpers<'a>)
        ensures
            r.interface_name == interface_name,
            r.where_clause == where_clause,
            r.associated_types == associated_types,
            r.variants == variants,
    {
        MtHelpers { interface_name, where_clause, associated_types, variants }
    }

    fn proxy_name(&self) -> (r: String)
        ensures
            r@ == proxy_trait_name(self.interface_name@),
    {
        let mut r = self.interface_name.clone();
        r.append("Proxy");
        r
    }

    fn emit_trait_head(&self) -> (r: Vec<Tok>)
        ensures
            tokens::toks(r@) == mt_trait_head(self.interface_name@, where_value(*self.where_clause)),
    {
        let head: Vec<Tok> = vec![
            Tok::ident("pub"),
            Tok::ident("mod"),
            Tok::ident("mt"),
            Tok::Open(Delim::Brace),
            Tok::ident("use"),
            Tok::ident("super"),
            Tok::Punct(':'),
            Tok::Punct(':'),
            Tok::Punct('*'),
            Tok::Punct(';'),
            Tok::ident("pub"),
            Tok::ident("trait"),
        ];
        let mut r = head;
        tokens::push_tok(&mut r, Tok::Ident(self.proxy_name()));
        tokens::push_punct(&mut r, '<');
        tokens::push_ident(&mut r, "MtApp");
        tokens::push_punct(&mut r, ',');
        tokens::push_ident(&mut r, "CustomMsgT");
        tokens::push_punct(&mut r, '>');
        let wt = associated_types::opt_where_to_tokens(self.where_clause);
        tokens::extend_toks(&mut r, &wt);
        tokens::push_tok(&mut r, Tok::Open(Delim::Brace));
        tokens::push_ident(&mut r, "type");
        tokens::push_ident(&mut r, "Error");
        tokens::push_punct(&mut r, ':');
        let eb = error_bounds_exec();
        tokens::extend_toks(&mut r, &eb);
        tokens::push_punct(&mut r, ';');
        assert(tokens::toks(r@) =~= mt_trait_head(self.interface_name@, where_value(*self.where_clause)));
        r
    }

    fn emit_all_kind_decls(&self, api: &Vec<Tok>, sylvia: &Vec<Tok>) -> (r: Vec<Tok>)
        ensures
            tokens::toks(r@) == all_kind_decls(reply::variants_view(self.variants@), tokens::toks(api@), tokens::toks(sylvia@)),
    {
        let cm: Vec<Tok> = vec![Tok::ident("CustomMsgT")];
        let err: Vec<Tok> = vec![Tok::ident("Self"), Tok::Punct(':'), Tok::Punct(':'), Tok::ident("Error")];
        assert(tokens::toks(cm@) =~= custom_msg_param());
        assert(tokens::toks(err@) =~= self_error());
        let mut r: Vec<Tok> = Vec::new();
        push_kind_decls(&mut r, self.variants, MsgType::Query, &cm, &err, api, sylvia);
        push_kind_decls(&mut r, self.variants, MsgType::Exec, &cm, &err, api, sylvia);
        push_kind_decls(&mut r, self.variants, MsgType::Sudo, &cm, &err, api, sylvia);
        assert(tokens::toks(r@) =~= all_kind_decls(reply::variants_view(self.variants@), tokens::toks(api@), tokens::toks(sylvia@)));
        r
    }

    fn emit_trait(&self, api: &Vec<Tok>, sylvia: &Vec<Tok>) -> (r: Vec<Tok>)
        ensures
            tokens::toks(r@) == mt_trait(
                self.interface_name@,
                where_value(*self.where_clause),
                self.associated_types.types(),
                reply::variants_view(self.variants@),
                tokens::toks(api@),
                tokens::toks(sylvia@),
            ),
    {
        let mut r = self.emit_trait_head();
        interface_helpers::push_trait_type_decls(&mut r, self.associated_types);
        let d = self.emit_all_kind_decls(api, sylvia);
        tokens::extend_toks(&mut r, &d);
        tokens::push_tok(&mut r, Tok::Close(Delim::Brace));
        assert(tokens::toks(r@) =~= mt_trait(
            self.interface_name@,
            where_value(*self.where_clause),
            self.associated_types.types(),
            reply::variants_view(self.variants@),
            tokens::toks(api@),
            tokens::toks(sylvia@),
        ));
        r
    }

    fn emit_impl_params(&self) -> (r: Vec<Tok>)
        ensures
            tokens::toks(r@) == mt_impl_params(self.interface_name@),
    {
        let mut r: Vec<Tok> = Vec::new();
        tokens::push_ident(&mut r, "impl");
        tokens::push_punct(&mut r, '<');
        let m = module_params_exec();
        tokens::extend_toks(&mut r, &m);
        tokens::push_ident(&mut r, "CustomMsgT");
        tokens::push_punct(&mut r, ',');
        tokens::push_ident(&mut r, "ContractT");
        tokens::push_punct(&mut r, ':');
        tokens::push_ident(&mut r, "super");
        tokens::push_punct(&mut r, ':');
        tokens::push_punct(&mut r, ':');
        tokens::push_tok(&mut r, Tok::Ident(self.interface_name.clone()));
        tokens::push_punct(&mut r, '>');
        tokens::push_tok(&mut r, Tok::Ident(self.proxy_name()));
        tokens::push_punct(&mut r, '<');
        assert(tokens::toks(r@) =~= mt_impl_params(self.interface_name@));
        r
    }

    fn emit_impl_head(&self, sylvia: &Vec<Tok>) -> (r: Vec<Tok>)
        ensures
            tokens::toks(r@) == mt_impl_head(self.interface_name@, tokens::toks(sylvia@)),
    {
        let mut r = self.emit_impl_params();
        let t = mt_impl_target_exec(sylvia);
        tokens::extend_toks(&mut r, &t);
        r
    }

    fn emit_impl_bounds(&self, sylvia: &Vec<Tok>) -> (r: Vec<Tok>)
        ensures
            tokens::toks(r@) == mt_impl_bounds(tokens::toks(sylvia@)),
    {
        let mut r = first_bounds_exec(sylvia);
        let m = module_bounds_exec(sylvia);
        tokens::extend_toks(&mut r, &m);
        r
    }

    fn emit_impl_more_bounds(&self, sylvia: &Vec<Tok>) -> (r: Vec<Tok>)
        ensures
            tokens::toks(r@) == mt_impl_more_bounds(where_value(*self.where_clause), tokens::toks(sylvia@)),
    {
        let mut r = custom_bounds_exec(sylvia);
        let e = executor_bound_exec(sylvia);
        tokens::extend_toks(&mut r, &e);
        let p = associated_types::opt_predicates_to_tokens(self.where_clause);
        tokens::extend_toks(&mut r, &p);
        r
    }

    fn emit_impl_body(&self, api: &Vec<Tok>, sylvia: &Vec<Tok>) -> (r: Vec<Tok>)
        ensures
            tokens::toks(r@) == mt_impl_body(
                self.interface_name@,
                self.associated_types.names(),
                reply::variants_view(self.variants@),
                tokens::toks(api@),
                tokens::toks(sylvia@),
            ),
    {
        let mut r: Vec<Tok> = vec![
            Tok::Open(Delim::Brace),
            Tok::ident("type"),
            Tok::ident("Error"),
            Tok::Punct('='),
            Tok::Punct('<'),
            Tok::ident("ContractT"),
            Tok::ident("as"),
            Tok::ident("super"),
            Tok::Punct(':'),
            Tok::Punct(':'),
        ];
        tokens::push_tok(&mut r, Tok::Ident(self.interface_name.clone()));
        tokens::push_punct(&mut r, '>');
        tokens::push_punct(&mut r, ':');
        tokens::push_punct(&mut r, ':');
        tokens::push_ident(&mut r, "Error");
        tokens::push_punct(&mut r, ';');
        interface_helpers::push_patterns(&mut r, self.associated_types, NamePattern::SuperDefinition, self.interface_name);
        let cm: Vec<Tok> = vec![Tok::ident("CustomMsgT")];
        let err: Vec<Tok> = vec![Tok::ident("Self"), Tok::Punct(':'), Tok::Punct(':'), Tok::ident("Error")];
        assert(tokens::toks(cm@) =~= custom_msg_param());
        assert(tokens::toks(err@) =~= self_error());
        let app = mt_app_exec(sylvia);
        push_kind_defs(&mut r, self.variants, MsgType::Query, &cm, &app, &err, api, sylvia);
        push_kind_defs(&mut r, self.variants, MsgType::Exec, &cm, &app, &err, api, sylvia);
        push_kind_defs(&mut r, self.variants, MsgType::Sudo, &cm, &app, &err, api, sylvia);
        tokens::push_tok(&mut r, Tok::Close(Delim::Brace));
        tokens::push_tok(&mut r, Tok::Close(Delim::Brace));
        assert(tokens::toks(r@) =~= mt_impl_body(
            self.interface_name@,
            self.associated_types.names(),
            reply::variants_view(self.variants@),
            tokens::toks(api@),
            tokens::toks(sylvia@),
        ));
        r
    }

    /// The MultiTest helpers of the interface.
    pub fn emit(&self, sylvia: &Vec<Tok>) -> (r: Vec<Tok>)
        ensures
            tokens::toks(r@) == mt_tokens(
                self.interface_name@,
                where_value(*self.where_clause),
                self.associated_types.types(),
                self.associated_types.names(),
                reply::variants_view(self.variants@),
                tokens::toks(sylvia@),
            ),
    {
        let mut api: Vec<Tok> = Vec::new();
        interface_helpers::push_iface_messages_api(&mut api, self.associated_types, self.interface_name);
        assert(tokens::toks(api@) =~= iface_messages_api(self.interface_name@, self.associated_types.names()));
        let mut r = self.emit_trait(&api, sylvia);
        let h = self.emit_impl_head(sylvia);
        let b1 = self.emit_impl_bounds(sylvia);
        let b2 = self.emit_impl_more_bounds(sylvia);
        let body = self.emit_impl_body(&api, sylvia);
        tokens::extend_toks(&mut r, &h);
        tokens::extend_toks(&mut r, &b1);
        tokens::extend_toks(&mut r, &b2);
        tokens::extend_toks(&mut r, &body);
        r
    }
}

/// The proxy trait declares a method for each query, execute and sudo
/// message of the interface, and its implementation on the proxy of any
/// contract implementing the interface defines that method.
pub proof fn mt_method_per_message(
    iname: Seq<char>,
    w: Option<(Seq<WherePredicateV>, bool)>,
    ts: Seq<TraitItemTypeV>,
    ns: Seq<Seq<char>>,
    vs: Seq<MsgVariantV>,
    sylvia: Seq<TokV>,
    k: int,
)
    requires
        0 <= k < vs.len(),
        vs[k].msg_type == MsgType::Query || vs[k].msg_type == MsgType::Exec || vs[k].msg_type == MsgType::Sudo,
    ensures
        tokens::is_infix(
            mt_declaration(vs[k], custom_msg_param(), self_error(), iface_messages_api(iname, ns), sylvia),
            mt_trait(iname, w, ts, vs, iface_messages_api(iname, ns), sylvia),
        ),
        tokens::is_infix(
            mt_definition(vs[k], custom_msg_param(), mt_app_ty(sylvia), self_error(), iface_messages_api(iname, ns), sylvia),
            mt_impl_body(iname, ns, vs, iface_messages_api(iname, ns), sylvia),
        ),
{
    let api = iface_messages_api(iname, ns);
    let (cm, err, app) = (custom_msg_param(), self_error(), mt_app_ty(sylvia));
    let ty = vs[k].msg_type;
    lemma_kind_decls_part(vs, ty, cm, err, api, sylvia, k);
    lemma_kind_defs_part(vs, ty, cm, app, err, api, sylvia, k);
    let x = mt_declaration(vs[k], cm, err, api, sylvia);
    let y = mt_definition(vs[k], cm, app, err, api, sylvia);
    let dq = kind_decls(vs, MsgType::Query, cm, err, api, sylvia);
    let de = kind_decls(vs, MsgType::Exec, cm, err, api, sylvia);
    let ds = kind_decls(vs, MsgType::Sudo, cm, err, api, sylvia);
    let fq = kind_defs(vs, MsgType::Query, cm, app, err, api, sylvia);
    let fe = kind_defs(vs, MsgType::Exec, cm, app, err, api, sylvia);
    let fs = kind_defs(vs, MsgType::Sudo, cm, app, err, api, sylvia);
    let empty = Seq::<TokV>::empty();
    if ty == MsgType::Query {
        tokens::lemma_infix_within(x, dq, empty, de + ds);
        assert(empty + dq + (de + ds) =~= all_kind_decls(vs, api, sylvia));
        tokens::lemma_infix_within(y, fq, empty, fe + fs);
        assert(empty + fq + (fe + fs) =~= fq + fe + fs);
    } else if ty == MsgType::Exec {
        tokens::lemma_infix_within(x, de, dq, ds);
        assert(dq + de + ds =~= all_kind_decls(vs, api, sylvia));
        tokens::lemma_infix_within(y, fe, fq, fs);
    } else {
        tokens::lemma_infix_within(x, ds, dq + de, empty);
        assert(dq + de + ds + empty =~= all_kind_decls(vs, api, sylvia));
        tokens::lemma_infix_within(y, fs, fq + fe, empty);
        assert(fq + fe + fs + empty =~= fq + fe + fs);
    }
    let head = mt_trait_head(iname, w) + trait_type_decls(ts);
    tokens::lemma_infix_within(x, all_kind_decls(vs, api, sylvia), head, seq![TokV::Close(Delim::Brace)]);
    assert(head + all_kind_decls(vs, api, sylvia) + seq![TokV::Close(Delim::Brace)] =~= mt_trait(iname, w, ts, vs, api, sylvia));
    let open = seq![
        TokV::Open(Delim::Brace),
        tokens::id("type"),
        tokens::id("Error"),
        tokens::pc('='),
        tokens::pc('<'),
        tokens::id("ContractT"),
        tokens::id("as"),
        tokens::id("super"),
        tokens::pc(':'),
        tokens::pc(':'),
        TokV::Ident(iname),
        tokens::pc('>'),
        tokens::pc(':'),
        tokens::pc(':'),
        tokens::id("Error"),
        tokens::pc(';'),
    ] + patterns(NamePattern::SuperDefinition, iname, ns);
    tokens::lemma_infix_within(y, fq + fe + fs, open, seq![TokV::Close(Delim::Brace), TokV::Close(Delim::Brace)]);
    assert(open + (fq + fe + fs) + seq![TokV::Close(Delim::Brace), TokV::Close(Delim::Brace)] =~= mt_impl_body(iname, ns, vs, api, sylvia));
}

} // verus!
