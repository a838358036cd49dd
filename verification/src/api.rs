//! The `ContractApi` implementation of a contract: the message types of each
//! kind, the remote and querier types, and the custom types.
use vstd::prelude::*;
use crate::associated_types::{self, WhereClause, WherePredicateV};
use crate::msg_type::{self, MsgType};
use crate::parser::{self, Custom};
use crate::querier::{self, bracketed_generics, types_item, where_value};
use crate::reply::{self, MsgVariant, MsgVariantV};
use crate::tokens::{self, Delim, Tok, TokV};

verus! {

/// The generic parameters that the messages of each kind use.
pub struct UsedGenerics {
    pub execute: Vec<Vec<Tok>>,
    pub query: Vec<Vec<Tok>>,
    pub instantiate: Vec<Vec<Tok>>,
    pub migrate: Vec<Vec<Tok>>,
    pub sudo: Vec<Vec<Tok>>,
}

pub struct UsedGenericsV {
    pub execute: Seq<Seq<TokV>>,
    pub query: Seq<Seq<TokV>>,
    pub instantiate: Seq<Seq<TokV>>,
    pub migrate: Seq<Seq<TokV>>,
    pub sudo: Seq<Seq<TokV>>,
}

impl View for UsedGenerics {
    type V = UsedGenericsV;

    open spec fn view(&self) -> UsedGenericsV {
        UsedGenericsV {
            execute: parser::toks2(self.execute@),
            query: parser::toks2(self.query@),
            instantiate: parser::toks2(self.instantiate@),
            migrate: parser::toks2(self.migrate@),
            sudo: parser::toks2(self.sudo@),
        }
    }
}

/// `type Name = Msg <generics> ;`
pub open spec fn assoc_msg(name: &str, msg: &str, gs: Seq<Seq<TokV>>) -> Seq<TokV> {
    seq![tokens::id("type"), tokens::id(name), tokens::pc('='), tokens::id(msg)] + bracketed_generics(gs) + seq![tokens::pc(';')]
}

/// Whether one of the methods handles a migration.
pub open spec fn has_kind(vs: Seq<MsgVariantV>, ty: MsgType) -> bool {
    exists|i: int| 0 <= i < vs.len() && #[trigger] vs[i].msg_type == ty
}

/// `type Migrate = MigrateMsg <generics> ;` when the contract has a migration,
/// `type Migrate = sylvia :: cw_std :: Empty ;` otherwise.
pub open spec fn migrate_type(has_migrate: bool, gs: Seq<Seq<TokV>>, sylvia: Seq<TokV>) -> Seq<TokV> {
    if has_migrate {
        assoc_msg("Migrate", "MigrateMsg", gs)
    } else {
        seq![tokens::id("type"), tokens::id("Migrate"), tokens::pc('=')] + msg_type::cw_std_item(sylvia, "Empty") + seq![
            tokens::pc(';'),
        ]
    }
}

/// `impl <generics> sylvia :: types :: ContractApi for Contract where .. {`
pub open spec fn api_head(contract: Seq<TokV>, gs: Seq<Seq<TokV>>, w: Option<(Seq<WherePredicateV>, bool)>, sylvia: Seq<TokV>) -> Seq<TokV> {
    seq![tokens::id("impl")] + bracketed_generics(gs) + types_item(sylvia, "ContractApi") + seq![tokens::id("for")] + contract
        + associated_types::opt_where_tokens(w) + seq![TokV::Open(Delim::Brace)]
}

/// The message types of the contract's API.
pub open spec fn api_messages(gs: Seq<Seq<TokV>>, used: UsedGenericsV, has_migrate: bool, sylvia: Seq<TokV>) -> Seq<TokV> {
    assoc_msg("ContractExec", "ContractExecMsg", gs) + assoc_msg("ContractQuery", "ContractQueryMsg", gs) + assoc_msg(
        "ContractSudo",
        "ContractSudoMsg",
        gs,
    ) + assoc_msg("Exec", "ExecMsg", used.execute) + assoc_msg("Query", "QueryMsg", used.query) + assoc_msg("Sudo", "SudoMsg", used.sudo)
        + assoc_msg("Instantiate", "InstantiateMsg", used.instantiate) + migrate_type(has_migrate, used.migrate, sylvia)
}

/// `type Remote < 'remote > = sylvia :: types :: Remote < 'remote , Self > ;`
pub open spec fn remote_type(sylvia: Seq<TokV>) -> Seq<TokV> {
    seq![tokens::id("type"), tokens::id("Remote"), tokens::pc('<'), tokens::pc('\''), tokens::id("remote"), tokens::pc('>'), tokens::pc('=')]
        + types_item(sylvia, "Remote") + seq![
        tokens::pc('<'),
        tokens::pc('\''),
        tokens::id("remote"),
        tokens::pc(','),
        tokens::id("Self"),
        tokens::pc('>'),
        tokens::pc(';'),
    ]
}

/// `type Querier < 'querier > = sylvia :: types :: BoundQuerier < 'querier , CustomQuery , Self > ;`
pub open spec fn querier_type(custom_query: Seq<TokV>, sylvia: Seq<TokV>) -> Seq<TokV> {
    seq![
        tokens::id("type"),
        tokens::id("Querier"),
        tokens::pc('<'),
        tokens::pc('\''),
        tokens::id("querier"),
        tokens::pc('>'),
        tokens::pc('='),
    ] + types_item(sylvia, "BoundQuerier") + seq![tokens::pc('<'), tokens::pc('\''), tokens::id("querier"), tokens::pc(',')]
        + custom_query + seq![tokens::pc(','), tokens::id("Self"), tokens::pc('>'), tokens::pc(';')]
}

/// `type CustomMsg = CustomMsg ; type CustomQuery = CustomQuery ; }`
pub open spec fn custom_types(custom_msg: Seq<TokV>, custom_query: Seq<TokV>) -> Seq<TokV> {
    seq![tokens::id("type"), tokens::id("CustomMsg"), tokens::pc('=')] + custom_msg + seq![
        tokens::pc(';'),
        tokens::id("type"),
        tokens::id("CustomQuery"),
        tokens::pc('='),
    ] + custom_query + seq![tokens::pc(';'), TokV::Close(Delim::Brace)]
}

/// The remote and querier types and the custom types, closing the implementation.
pub open spec fn api_tail(custom_msg: Seq<TokV>, custom_query: Seq<TokV>, sylvia: Seq<TokV>) -> Seq<TokV> {
    remote_type(sylvia) + querier_type(custom_query, sylvia) + custom_types(custom_msg, custom_query)
}

/// The `ContractApi` implementation of a contract.
pub open spec fn api_tokens(
    contract: Seq<TokV>,
    gs: Seq<Seq<TokV>>,
    w: Option<(Seq<WherePredicateV>, bool)>,
    used: UsedGenericsV,
    has_migrate: bool,
    custom_msg: Seq<TokV>,
    custom_query: Seq<TokV>,
    sylvia: Seq<TokV>,
) -> Seq<TokV> {
    api_head(contract, gs, w, sylvia) + api_messages(gs, used, has_migrate, sylvia) + api_tail(custom_msg, custom_query, sylvia)
}

/// Appends `type Name = Msg <generics> ;`.
fn push_assoc_msg(dst: &mut Vec<Tok>, name: &str, msg: &str, gs: &Vec<Vec<Tok>>)
    ensures
        tokens::toks(final(dst)@) == tokens::toks(old(dst)@) + assoc_msg(name, msg, parser::toks2(gs@)),
{
    let ghost s0 = tokens::toks(dst@);
    tokens::push_ident(dst, "type");
    tokens::push_ident(dst, name);
    tokens::push_punct(dst, '=');
    tokens::push_ident(dst, msg);
    querier::push_bracketed_generics(dst, gs);
    tokens::push_punct(dst, ';');
    assert(tokens::toks(dst@) =~= s0 + assoc_msg(name, msg, parser::toks2(gs@)));
}

/// Whether one of `vs` handles a message of kind `ty`.
pub fn has_variant_of_kind(vs: &Vec<MsgVariant>, ty: MsgType) -> (b: bool)
    ensures
        b == has_kind(reply::variants_view(vs@), ty),
{
    let ghost vv = reply::variants_view(vs@);
    let mut k: usize = 0;
    while k < vs.len()
        invariant
            vv == reply::variants_view(vs@),
            k <= vs.len(),
            forall|i: int| 0 <= i < k ==> (#[trigger] vv[i]).msg_type != ty,
        decreases vs.len() - k,
    {
        if vs[k].msg_type == ty {
            assert(vv[k as int].msg_type == ty);
            return true;
        }
        k = k + 1;
    }
    false
}

fn remote_type_exec(sylvia: &Vec<Tok>) -> (r: Vec<Tok>)
    ensures
        tokens::toks(r@) == remote_type(tokens::toks(sylvia@)),
{
    let mut r: Vec<Tok> = vec![
        Tok::ident("type"),
        Tok::ident("Remote"),
        Tok::Punct('<'),
        Tok::Punct('\''),
        Tok::ident("remote"),
        Tok::Punct('>'),
        Tok::Punct('='),
    ];
    querier::push_types_item(&mut r, sylvia, "Remote");
    let tail: Vec<Tok> = vec![
        Tok::Punct('<'),
        Tok::Punct('\''),
        Tok::ident("remote"),
        Tok::Punct(','),
        Tok::ident("Self"),
        Tok::Punct('>'),
        Tok::Punct(';'),
    ];
    tokens::extend_toks(&mut r, &tail);
    assert(tokens::toks(r@) =~= remote_type(tokens::toks(sylvia@)));
    r
}

fn querier_type_exec(custom_query: &Vec<Tok>, sylvia: &Vec<Tok>) -> (r: Vec<Tok>)
    ensures
        tokens::toks(r@) == querier_type(tokens::toks(custom_query@), tokens::toks(sylvia@)),
{
    let mut r: Vec<Tok> = vec![
        Tok::ident("type"),
        Tok::ident("Querier"),
        Tok::Punct('<'),
        Tok::Punct('\''),
        Tok::ident("querier"),
        Tok::Punct('>'),
        Tok::Punct('='),
    ];
    querier::push_types_item(&mut r, sylvia, "BoundQuerier");
    tokens::push_punct(&mut r, '<');
    tokens::push_punct(&mut r, '\'');
    tokens::push_ident(&mut r, "querier");
    tokens::push_punct(&mut r, ',');
    tokens::extend_toks(&mut r, custom_query);
    tokens::push_punct(&mut r, ',');
    tokens::push_ident(&mut r, "Self");
    tokens::push_punct(&mut r, '>');
    tokens::push_punct(&mut r, ';');
    assert(tokens::toks(r@) =~= querier_type(tokens::toks(custom_query@), tokens::toks(sylvia@)));
    r
}

fn custom_types_exec(custom_msg: &Vec<Tok>, custom_query: &Vec<Tok>) -> (r: Vec<Tok>)
    ensures
        tokens::toks(r@) == custom_types(tokens::toks(custom_msg@), tokens::toks(custom_query@)),
{
    let mut r: Vec<Tok> = Vec::new();
    tokens::push_ident(&mut r, "type");
    tokens::push_ident(&mut r, "CustomMsg");
    tokens::push_punct(&mut r, '=');
    tokens::extend_toks(&mut r, custom_msg);
    tokens::push_punct(&mut r, ';');
    tokens::push_ident(&mut r, "type");
    tokens::push_ident(&mut r, "CustomQuery");
    tokens::push_punct(&mut r, '=');
    tokens::extend_toks(&mut r, custom_query);
    tokens::push_punct(&mut r, ';');
    tokens::push_tok(&mut r, Tok::Close(Delim::Brace));
    assert(tokens::toks(r@) =~= custom_types(tokens::toks(custom_msg@), tokens::toks(custom_query@)));
    r
}

/// Generator of the `ContractApi` implementation of a contract.
pub struct Api {
    /// The contract type.
    pub self_ty: Vec<Tok>,
    /// The generic parameters of the contract's impl block.
    pub generics: Vec<Vec<Tok>>,
    /// Its where clause.
    pub where_clause: Option<WhereClause>,
    /// The contract's message handlers.
    pub variants: Vec<MsgVariant>,
    /// The generic parameters the messages of each kind use.
    pub used: UsedGenerics,
    /// The custom message and query types.
    pub custom: Custom,
}

impl Api {
    /// The generator for the contract `self_ty` with the generic parameters
    /// `generics`, the where clause `where_clause`, the handlers `variants`,
    /// of which the messages of each kind use the generics `used`, and the
    /// custom types `custom`.
    pub fn new(
        self_ty: Vec<Tok>,
        generics: Vec<Vec<Tok>>,
        where_clause: Option<WhereClause>,
        variants: Vec<MsgVariant>,
        used: UsedGenerics,
        custom: Custom,
    ) -> (r: Api)
        ensures
            r.self_ty@ == self_ty@,
            r.generics@ == generics@,
            r.where_clause == where_clause,
            r.variants@ == variants@,
            r.used@ == used@,
            r.custom@ == custom@,
    {
        Api { self_ty, generics, where_clause, variants, used, custom }
    }

    fn emit_head(&self, sylvia: &Vec<Tok>) -> (r: Vec<Tok>)
        ensures
            tokens::toks(r@) == api_head(
                tokens::toks(self.self_ty@),
                parser::toks2(self.generics@),
                where_value(self.where_clause),
                tokens::toks(sylvia@),
            ),
    {
        let mut r: Vec<Tok> = Vec::new();
        tokens::push_ident(&mut r, "impl");
        querier::push_bracketed_generics(&mut r, &self.generics);
        querier::push_types_item(&mut r, sylvia, "ContractApi");
        tokens::push_ident(&mut r, "for");
        tokens::extend_toks(&mut r, &self.self_ty);
        let wt = associated_types::opt_where_to_tokens(&self.where_clause);
        tokens::extend_toks(&mut r, &wt);
        tokens::push_tok(&mut r, Tok::Open(Delim::Brace));
        assert(tokens::toks(r@) =~= api_head(
            tokens::toks(self.self_ty@),
            parser::toks2(self.generics@),
            where_value(self.where_clause),
            tokens::toks(sylvia@),
        ));
        r
    }

    fn emit_messages(&self, sylvia: &Vec<Tok>) -> (r: Vec<Tok>)
        ensures
            tokens::toks(r@) == api_messages(
                parser::toks2(self.generics@),
                self.used@,
                has_kind(reply::variants_view(self.variants@), MsgType::Migrate),
                tokens::toks(sylvia@),
            ),
    {
        let mut r: Vec<Tok> = Vec::new();
        push_assoc_msg(&mut r, "ContractExec", "ContractExecMsg", &self.generics);
        push_assoc_msg(&mut r, "ContractQuery", "ContractQueryMsg", &self.generics);
        push_assoc_msg(&mut r, "ContractSudo", "ContractSudoMsg", &self.generics);
        push_assoc_msg(&mut r, "Exec", "ExecMsg", &self.used.execute);
        push_assoc_msg(&mut r, "Query", "QueryMsg", &self.used.query);
        push_assoc_msg(&mut r, "Sudo", "SudoMsg", &self.used.sudo);
        push_assoc_msg(&mut r, "Instantiate", "InstantiateMsg", &self.used.instantiate);
        let ghost s1 = tokens::toks(r@);
        let has_migrate = has_variant_of_kind(&self.variants, MsgType::Migrate);
        if has_migrate {
            push_assoc_msg(&mut r, "Migrate", "MigrateMsg", &self.used.migrate);
        } else {
            tokens::push_ident(&mut r, "type");
            tokens::push_ident(&mut r, "Migrate");
            tokens::push_punct(&mut r, '=');
            msg_type::push_cw_std_item(&mut r, sylvia, "Empty");
            tokens::push_punct(&mut r, ';');
        }
        assert(tokens::toks(r@) =~= s1 + migrate_type(has_migrate, parser::toks2(self.used.migrate@), tokens::toks(sylvia@)));
        assert(tokens::toks(r@) =~= api_messages(
            parser::toks2(self.generics@),
            self.used@,
            has_kind(reply::variants_view(self.variants@), MsgType::Migrate),
            tokens::toks(sylvia@),
        ));
        r
    }

    fn emit_tail(&self, sylvia: &Vec<Tok>) -> (r: Vec<Tok>)
        ensures
            tokens::toks(r@) == api_tail(
                match self.custom@.msg {
                    Some(m) => m,
                    None => parser::default_type(tokens::toks(sylvia@)),
                },
                match self.custom@.query {
                    Some(q) => q,
                    None => parser::default_type(tokens::toks(sylvia@)),
                },
                tokens::toks(sylvia@),
            ),
    {
        let cm = self.custom.msg_or_default(sylvia);
        let cq = self.custom.query_or_default(sylvia);
        let mut r = remote_type_exec(sylvia);
        let q = querier_type_exec(&cq, sylvia);
        let c = custom_types_exec(&cm, &cq);
        tokens::extend_toks(&mut r, &q);
        tokens::extend_toks(&mut r, &c);
        r
    }

    /// The `ContractApi` implementation of the contract.
    pub fn emit(&self, sylvia: &Vec<Tok>) -> (r: Vec<Tok>)
        ensures
            tokens::toks(r@) == api_tokens(
                tokens::toks(self.self_ty@),
                parser::toks2(self.generics@),
                where_value(self.where_clause),
                self.used@,
                has_kind(reply::variants_view(self.variants@), MsgType::Migrate),
                match self.custom@.msg {
                    Some(m) => m,
                    None => parser::default_type(tokens::toks(sylvia@)),
                },
                match self.custom@.query {
                    Some(q) => q,
                    None => parser::default_type(tokens::toks(sylvia@)),
                },
                tokens::toks(sylvia@),
            ),
    {
        let mut r = self.emit_head(sylvia);
        let m = self.emit_messages(sylvia);
        let t = self.emit_tail(sylvia);
        tokens::extend_toks(&mut r, &m);
        tokens::extend_toks(&mut r, &t);
        r
    }
}

} // verus!
