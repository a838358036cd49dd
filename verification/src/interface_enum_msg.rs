//! The message enum of an interface for a kind with several messages: its
//! variants, its dispatch on any contract implementing the interface, and
//! the sorted list of the names of its messages.
use vstd::prelude::*;
use crate::associated_types::{self, kept_positions, AssociatedTypes, TraitItemType, WhereClause, WherePredicateV};
use crate::enum_msg::{emit_snake_names, messages_fn, messages_fn_exec, name_order, quoted_names, quoted_names_exec, snake_names, sort_names};
use crate::interfaces::{each_with_comma, messages_fn_name, push_each_with_comma};
use crate::msg_type::{self, MsgType};
use crate::parser::{self, Custom};
use crate::querier::{self, bracketed_generics, where_value};
use crate::reply::{self, MsgVariant, MsgVariantV};
use crate::struct_msg::{forwarded_attrs, forwarded_attrs_exec};
use crate::tokens::{self, Delim, Tok, TokV};

verus! {

/// The names of the associated types of the interface that are not reserved.
pub open spec fn kept_names(items: Seq<TraitItemType>) -> Seq<Seq<char>> {
    let idents = Seq::new(items.len(), |i: int| items[i].ident@);
    Seq::new(kept_positions(idents).len(), |k: int| idents[kept_positions(idents)[k]])
}


pub(crate) proof fn lemma_kept_positions_range(ts: Seq<Seq<char>>)
    ensures
        forall|k: int| 0 <= k < kept_positions(ts).len() ==> 0 <= #[trigger] kept_positions(ts)[k] < ts.len(),
    decreases ts.len(),
{
    if ts.len() > 0 {
        let p = kept_positions(ts.drop_last());
        lemma_kept_positions_range(ts.drop_last());
        assert forall|k: int| 0 <= k < kept_positions(ts).len() implies 0 <= #[trigger] kept_positions(ts)[k] < ts.len() by {
            if k < p.len() {
                assert(kept_positions(ts)[k] == p[k]);
            }
        }
    }
}

/// `ContractT :: Error`
pub open spec fn contract_error() -> Seq<TokV> {
    seq![tokens::id("ContractT")] + tokens::colon2() + seq![tokens::id("Error")]
}

/// The message enum of the interface, named after the trait, and its alias under the name of the kind's message.
pub open spec fn ienum_def(u: Seq<char>, name: Seq<char>, ugb: Seq<TokV>, derive: Seq<TokV>, attrs: Seq<TokV>, vs: Seq<TokV>, phantom: Seq<TokV>) -> Seq<TokV> {
    seq![tokens::pc('#'), TokV::Open(Delim::Bracket), tokens::id("allow"), TokV::Open(Delim::Paren), tokens::id("clippy"), tokens::pc(':'), tokens::pc(':'), tokens::id("derive_partial_eq_without_eq"), TokV::Close(Delim::Paren), TokV::Close(Delim::Bracket)]
        + derive
        + attrs
        + seq![tokens::pc('#'), TokV::Open(Delim::Bracket), tokens::id("serde"), TokV::Open(Delim::Paren), tokens::id("rename_all"), tokens::pc('='), TokV::Lit("\"snake_case\""@), TokV::Close(Delim::Paren), TokV::Close(Delim::Bracket), tokens::id("pub"), tokens::id("enum")]
        + seq![TokV::Ident(u)]
        + ugb
        + seq![TokV::Open(Delim::Brace)]
        + vs
        + phantom
        + seq![TokV::Close(Delim::Brace), tokens::id("pub"), tokens::id("type")]
        + seq![TokV::Ident(name)]
        + ugb
        + seq![tokens::pc('=')]
        + seq![TokV::Ident(u)]
        + ugb
        + seq![tokens::pc(';')]
}

/// The implementation of the interface's message enum: `dispatch` on any contract implementing the interface, and the constructors.
pub open spec fn ienum_impl(u: Seq<char>, ugb: Seq<TokV>, wc: Seq<TokV>, ungc: Seq<TokV>, ctx: Seq<TokV>, ret: Seq<TokV>, wp: Seq<TokV>, cp: Seq<TokV>, arms: Seq<TokV>, parm: Seq<TokV>, ctors: Seq<TokV>) -> Seq<TokV> {
    seq![tokens::id("impl")]
        + ugb
        + seq![TokV::Ident(u)]
        + ugb
        + wc
        + seq![TokV::Open(Delim::Brace), tokens::id("pub"), tokens::id("fn"), tokens::id("dispatch"), tokens::pc('<'), tokens::id("ContractT"), tokens::pc(',')]
        + ungc
        + seq![tokens::pc('>'), TokV::Open(Delim::Paren), tokens::id("self"), tokens::pc(','), tokens::id("contract"), tokens::pc(':'), tokens::pc('&'), tokens::id("ContractT"), tokens::pc(','), tokens::id("ctx"), tokens::pc(':')]
        + ctx
        + seq![TokV::Close(Delim::Paren), tokens::pc('-'), tokens::pc('>')]
        + ret
        + seq![tokens::id("where")]
        + wp
        + cp
        + seq![TokV::Open(Delim::Brace), tokens::id("use")]
        + seq![TokV::Ident(u)]
        + seq![tokens::pc(':'), tokens::pc(':'), tokens::pc('*'), tokens::pc(';'), tokens::id("match"), tokens::id("self"), TokV::Open(Delim::Brace)]
        + arms
        + parm
        + seq![TokV::Close(Delim::Brace), TokV::Close(Delim::Brace)]
        + ctors
        + seq![TokV::Close(Delim::Brace)]
}


/// The message enum of kind `ty` of the interface `trait_name` with the
/// methods `vs` and the associated types `items`, named `trait_name` and
/// `name` and aliased as `name`: `resp` is the custom message type of the
/// responses, `query` the custom query type; `ug` are the generic parameters
/// its variants use, `ung` the other ones, `wc` its where clause and `wp` the
/// predicates its dispatch puts on the contract's associated types; `attrs`
/// are the forwarded attributes and `derive` its derive attribute;
/// `variants`, `arms`, `parm`, `ctors` and `phantom` are its variants, the
/// arms of its dispatch, the arm of the phantom variant, its constructors
/// and its phantom variant. The names of the messages are listed sorted.
pub open spec fn interface_enum_tokens(
    trait_name: Seq<char>,
    name: Seq<char>,
    vs: Seq<MsgVariantV>,
    items: Seq<TraitItemType>,
    ty: MsgType,
    resp: Seq<TokV>,
    query: Seq<TokV>,
    ug: Seq<Seq<TokV>>,
    ung: Seq<Seq<TokV>>,
    wc: Option<(Seq<WherePredicateV>, bool)>,
    wp: Seq<Seq<TokV>>,
    attrs: Seq<Seq<TokV>>,
    derive: Seq<TokV>,
    variants: Seq<Seq<TokV>>,
    arms: Seq<Seq<TokV>>,
    parm: Seq<TokV>,
    ctors: Seq<TokV>,
    phantom: Seq<TokV>,
    sylvia: Seq<TokV>,
) -> Seq<TokV> {
    let u = trait_name + name;
    let sorted = snake_names(vs, ty).sort_by(name_order());
    ienum_def(u, name, bracketed_generics(ug), derive, forwarded_attrs(attrs), each_with_comma(variants), phantom) + ienum_impl(
        u,
        bracketed_generics(ug),
        associated_types::opt_where_tokens(wc),
        each_with_comma(ung),
        msg_type::ctx_type(ty, sylvia, query),
        msg_type::result_type(ty, sylvia, resp, contract_error()),
        each_with_comma(wp),
        associated_types::contract_predicate(trait_name, kept_names(items)),
        each_with_comma(arms),
        parm,
        ctors,
    ) + messages_fn(messages_fn_name(ty), sorted.len(), quoted_names(sorted))
}

fn ienum_def_exec(u: &String, name: &String, ugb: &Vec<Tok>, derive: &Vec<Tok>, attrs: &Vec<Tok>, vs: &Vec<Tok>, phantom: &Vec<Tok>) -> (r: Vec<Tok>)
    ensures
        tokens::toks(r@) == ienum_def(u@, name@, tokens::toks(ugb@), tokens::toks(derive@), tokens::toks(attrs@), tokens::toks(vs@), tokens::toks(phantom@)),
{
    let mut r: Vec<Tok> = Vec::new();
    let k1: Vec<Tok> = vec![Tok::Punct('#'), Tok::Open(Delim::Bracket), Tok::ident("allow"), Tok::Open(Delim::Paren), Tok::ident("clippy"), Tok::Punct(':'), Tok::Punct(':'), Tok::ident("derive_partial_eq_without_eq"), Tok::Close(Delim::Paren), Tok::Close(Delim::Bracket)];
    assert(tokens::toks(k1@) =~= seq![tokens::pc('#'), TokV::Open(Delim::Bracket), tokens::id("allow"), TokV::Open(Delim::Paren), tokens::id("clippy"), tokens::pc(':'), tokens::pc(':'), tokens::id("derive_partial_eq_without_eq"), TokV::Close(Delim::Paren), TokV::Close(Delim::Bracket)]);
    tokens::extend_toks(&mut r, &k1);
    tokens::extend_toks(&mut r, derive);
    tokens::extend_toks(&mut r, attrs);
    let k2: Vec<Tok> = vec![Tok::Punct('#'), Tok::Open(Delim::Bracket), Tok::ident("serde"), Tok::Open(Delim::Paren), Tok::ident("rename_all"), Tok::Punct('='), Tok::Lit(String::from_str("\"snake_case\"")), Tok::Close(Delim::Paren), Tok::Close(Delim::Bracket), Tok::ident("pub"), Tok::ident("enum")];
    assert(tokens::toks(k2@) =~= seq![tokens::pc('#'), TokV::Open(Delim::Bracket), tokens::id("serde"), TokV::Open(Delim::Paren), tokens::id("rename_all"), tokens::pc('='), TokV::Lit("\"snake_case\""@), TokV::Close(Delim::Paren), TokV::Close(Delim::Bracket), tokens::id("pub"), tokens::id("enum")]);
    tokens::extend_toks(&mut r, &k2);
    tokens::push_tok(&mut r, Tok::Ident(u.clone()));
    tokens::extend_toks(&mut r, ugb);
    let k3: Vec<Tok> = vec![Tok::Open(Delim::Brace)];
    assert(tokens::toks(k3@) =~= seq![TokV::Open(Delim::Brace)]);
    tokens::extend_toks(&mut r, &k3);
    tokens::extend_toks(&mut r, vs);
    tokens::extend_toks(&mut r, phantom);
    let k4: Vec<Tok> = vec![Tok::Close(Delim::Brace), Tok::ident("pub"), Tok::ident("type")];
    assert(tokens::toks(k4@) =~= seq![TokV::Close(Delim::Brace), tokens::id("pub"), tokens::id("type")]);
    tokens::extend_toks(&mut r, &k4);
    tokens::push_tok(&mut r, Tok::Ident(name.clone()));
    tokens::extend_toks(&mut r, ugb);
    let k5: Vec<Tok> = vec![Tok::Punct('=')];
    assert(tokens::toks(k5@) =~= seq![tokens::pc('=')]);
    tokens::extend_toks(&mut r, &k5);
    tokens::push_tok(&mut r, Tok::Ident(u.clone()));
    tokens::extend_toks(&mut r, ugb);
    let k6: Vec<Tok> = vec![Tok::Punct(';')];
    assert(tokens::toks(k6@) =~= seq![tokens::pc(';')]);
    tokens::extend_toks(&mut r, &k6);
    assert(tokens::toks(r@) =~= ienum_def(u@, name@, tokens::toks(ugb@), tokens::toks(derive@), tokens::toks(attrs@), tokens::toks(vs@), tokens::toks(phantom@)));
    r
}

fn ienum_impl_exec(u: &String, ugb: &Vec<Tok>, wc: &Vec<Tok>, ungc: &Vec<Tok>, ctx: &Vec<Tok>, ret: &Vec<Tok>, wp: &Vec<Tok>, cp: &Vec<Tok>, arms: &Vec<Tok>, parm: &Vec<Tok>, ctors: &Vec<Tok>) -> (r: Vec<Tok>)
    ensures
        tokens::toks(r@) == ienum_impl(u@, tokens::toks(ugb@), tokens::toks(wc@), tokens::toks(ungc@), tokens::toks(ctx@), tokens::toks(ret@), tokens::toks(wp@), tokens::toks(cp@), tokens::toks(arms@), tokens::toks(parm@), tokens::toks(ctors@)),
{
    let mut r: Vec<Tok> = Vec::new();
    let k1: Vec<Tok> = vec![Tok::ident("impl")];
    assert(tokens::toks(k1@) =~= seq![tokens::id("impl")]);
    tokens::extend_toks(&mut r, &k1);
    tokens::extend_toks(&mut r, ugb);
    tokens::push_tok(&mut r, Tok::Ident(u.clone()));
    tokens::extend_toks(&mut r, ugb);
    tokens::extend_toks(&mut r, wc);
    let k2: Vec<Tok> = vec![Tok::Open(Delim::Brace), Tok::ident("pub"), Tok::ident("fn"), Tok::ident("dispatch"), Tok::Punct('<'), Tok::ident("ContractT"), Tok::Punct(',')];
    assert(tokens::toks(k2@) =~= seq![TokV::Open(Delim::Brace), tokens::id("pub"), tokens::id("fn"), tokens::id("dispatch"), tokens::pc('<'), tokens::id("ContractT"), tokens::pc(',')]);
    tokens::extend_toks(&mut r, &k2);
    tokens::extend_toks(&mut r, ungc);
    let k3: Vec<Tok> = vec![Tok::Punct('>'), Tok::Open(Delim::Paren), Tok::ident("self"), Tok::Punct(','), Tok::ident("contract"), Tok::Punct(':'), Tok::Punct('&'), Tok::ident("ContractT"), Tok::Punct(','), Tok::ident("ctx"), Tok::Punct(':')];
    assert(tokens::toks(k3@) =~= seq![tokens::pc('>'), TokV::Open(Delim::Paren), tokens::id("self"), tokens::pc(','), tokens::id("contract"), tokens::pc(':'), tokens::pc('&'), tokens::id("ContractT"), tokens::pc(','), tokens::id("ctx"), tokens::pc(':')]);
    tokens::extend_toks(&mut r, &k3);
    tokens::extend_toks(&mut r, ctx);
    let k4: Vec<Tok> = vec![Tok::Close(Delim::Paren), Tok::Punct('-'), Tok::Punct('>')];
    assert(tokens::toks(k4@) =~= seq![TokV::Close(Delim::Paren), tokens::pc('-'), tokens::pc('>')]);
    tokens::extend_toks(&mut r, &k4);
    tokens::extend_toks(&mut r, ret);
    let k5: Vec<Tok> = vec![Tok::ident("where")];
    assert(tokens::toks(k5@) =~= seq![tokens::id("where")]);
    tokens::extend_toks(&mut r, &k5);
    tokens::extend_toks(&mut r, wp);
    tokens::extend_toks(&mut r, cp);
    let k6: Vec<Tok> = vec![Tok::Open(Delim::Brace), Tok::ident("use")];
    assert(tokens::toks(k6@) =~= seq![TokV::Open(Delim::Brace), tokens::id("use")]);
    tokens::extend_toks(&mut r, &k6);
    tokens::push_tok(&mut r, Tok::Ident(u.clone()));
    let k7: Vec<Tok> = vec![Tok::Punct(':'), Tok::Punct(':'), Tok::Punct('*'), Tok::Punct(';'), Tok::ident("match"), Tok::ident("self"), Tok::Open(Delim::Brace)];
    assert(tokens::toks(k7@) =~= seq![tokens::pc(':'), tokens::pc(':'), tokens::pc('*'), tokens::pc(';'), tokens::id("match"), tokens::id("self"), TokV::Open(Delim::Brace)]);
    tokens::extend_toks(&mut r, &k7);
    tokens::extend_toks(&mut r, arms);
    tokens::extend_toks(&mut r, parm);
    let k8: Vec<Tok> = vec![Tok::Close(Delim::Brace), Tok::Close(Delim::Brace)];
    assert(tokens::toks(k8@) =~= seq![TokV::Close(Delim::Brace), TokV::Close(Delim::Brace)]);
    tokens::extend_toks(&mut r, &k8);
    tokens::extend_toks(&mut r, ctors);
    let k9: Vec<Tok> = vec![Tok::Close(Delim::Brace)];
    assert(tokens::toks(k9@) =~= seq![TokV::Close(Delim::Brace)]);
    tokens::extend_toks(&mut r, &k9);
    assert(tokens::toks(r@) =~= ienum_impl(u@, tokens::toks(ugb@), tokens::toks(wc@), tokens::toks(ungc@), tokens::toks(ctx@), tokens::toks(ret@), tokens::toks(wp@), tokens::toks(cp@), tokens::toks(arms@), tokens::toks(parm@), tokens::toks(ctors@)));
    r
}


/// Generator of the message enum of an interface for a kind with several
/// messages.
pub struct EnumMessage {
    /// The name of the interface trait.
    pub trait_name: String,
    /// The methods of the interface.
    pub variants: Vec<MsgVariant>,
    /// The associated types of the interface.
    pub associated: Vec<TraitItemType>,
    pub msg_ty: MsgType,
    /// The custom message type of the responses.
    pub resp_type: Vec<Tok>,
    /// The custom query type.
    pub query_type: Vec<Tok>,
    /// The attributes forwarded to the message enum.
    pub msg_attrs_to_forward: Vec<Vec<Tok>>,
}

impl EnumMessage {
    /// The generator of the message enum of kind `msg_ty` of the interface
    /// `trait_name`: the custom types are those of `custom`, else the ones
    /// the interface's associated types give (`associated_exec`,
    /// `associated_query`), else the default one.
    pub fn new(
        trait_name: String,
        msg_ty: MsgType,
        custom: &Custom,
        associated_exec: Option<Vec<Tok>>,
        associated_query: Option<Vec<Tok>>,
        variants: Vec<MsgVariant>,
        associated: Vec<TraitItemType>,
        msg_attrs_to_forward: Vec<Vec<Tok>>,
        sylvia: &Vec<Tok>,
    ) -> (r: EnumMessage)
        ensures
            r.trait_name@ == trait_name@,
            r.msg_ty == msg_ty,
            r.variants@ == variants@,
            r.associated@ == associated@,
            r.msg_attrs_to_forward@ == msg_attrs_to_forward@,
            tokens::toks(r.resp_type@) == match (custom@.msg, associated_exec) {
                (Some(m), _) => m,
                (None, Some(e)) => tokens::toks(e@),
                (None, None) => parser::default_type(tokens::toks(sylvia@)),
            },
            tokens::toks(r.query_type@) == match (custom@.query, associated_query) {
                (Some(q), _) => q,
                (None, Some(e)) => tokens::toks(e@),
                (None, None) => parser::default_type(tokens::toks(sylvia@)),
            },
    {
        let resp_type = match &custom.msg {
            Some(m) => tokens::copy_toks(m),
            None => match associated_exec {
                Some(e) => e,
                None => parser::Custom::default_type(sylvia),
            },
        };
        let query_type = match &custom.query {
            Some(q) => tokens::copy_toks(q),
            None => match associated_query {
                Some(e) => e,
                None => parser::Custom::default_type(sylvia),
            },
        };
        EnumMessage { trait_name, variants, associated, msg_ty, resp_type, query_type, msg_attrs_to_forward }
    }

    /// The message enum named after the trait and `enum_name`, with its
    /// alias `enum_name`, its implementation and the function listing the
    /// names of its messages, sorted. The other arguments are the parts of
    /// the enum that `interface_enum_tokens` names.
    pub fn emit(
        &self,
        sylvia: &Vec<Tok>,
        enum_name: &String,
        used: &Vec<Vec<Tok>>,
        unused: &Vec<Vec<Tok>>,
        where_clause: &Option<WhereClause>,
        where_predicates: &Vec<Vec<Tok>>,
        derive_call: &Vec<Tok>,
        variants: &Vec<Vec<Tok>>,
        arms: &Vec<Vec<Tok>>,
        phantom_arm: &Vec<Tok>,
        ctors: &Vec<Tok>,
        phantom: &Vec<Tok>,
    ) -> (r: Vec<Tok>)
        ensures
            tokens::toks(r@) == interface_enum_tokens(
                self.trait_name@,
                enum_name@,
                reply::variants_view(self.variants@),
                self.associated@,
                self.msg_ty,
                tokens::toks(self.resp_type@),
                tokens::toks(self.query_type@),
                parser::toks2(used@),
                parser::toks2(unused@),
                where_value(*where_clause),
                parser::toks2(where_predicates@),
                parser::toks2(self.msg_attrs_to_forward@),
                tokens::toks(derive_call@),
                parser::toks2(variants@),
                parser::toks2(arms@),
                tokens::toks(phantom_arm@),
                tokens::toks(ctors@),
                tokens::toks(phantom@),
                tokens::toks(sylvia@),
            ),
    {
        let mut u = self.trait_name.clone();
        u.append(enum_name.as_str());
        let mut ugb: Vec<Tok> = Vec::new();
        querier::push_bracketed_generics(&mut ugb, used);
        assert(tokens::toks(ugb@) =~= bracketed_generics(parser::toks2(used@)));
        let attrs = forwarded_attrs_exec(&self.msg_attrs_to_forward);
        let mut vs: Vec<Tok> = Vec::new();
        push_each_with_comma(&mut vs, variants);
        let mut r = ienum_def_exec(&u, enum_name, &ugb, derive_call, &attrs, &vs, phantom);

        let wc = associated_types::opt_where_to_tokens(where_clause);
        let mut ungc: Vec<Tok> = Vec::new();
        push_each_with_comma(&mut ungc, unused);
        let ctx = self.msg_ty.emit_ctx_type(sylvia, &self.query_type);
        let mut err: Vec<Tok> = Vec::new();
        tokens::push_ident(&mut err, "ContractT");
        tokens::push_punct(&mut err, ':');
        tokens::push_punct(&mut err, ':');
        tokens::push_ident(&mut err, "Error");
        assert(tokens::toks(err@) =~= contract_error());
        let ret = self.msg_ty.emit_result_type(sylvia, &self.resp_type, &err);
        let mut wp: Vec<Tok> = Vec::new();
        push_each_with_comma(&mut wp, where_predicates);
        let assoc = AssociatedTypes::new(&self.associated);
        let cp = assoc.emit_contract_predicate(&self.trait_name);
        proof {
            let idents = Seq::new(self.associated@.len(), |i: int| self.associated@[i].ident@);
            let kept = kept_positions(idents);
            lemma_kept_positions_range(idents);
            assert(assoc.types().len() == kept.len());
            assert forall|k: int| 0 <= k < kept.len() implies #[trigger] assoc.names()[k] == kept_names(self.associated@)[k] by {
                assert(assoc.types()[k] == self.associated@[kept[k]]@);
            }
            assert(assoc.names() =~= kept_names(self.associated@));
        }
        let mut arms_t: Vec<Tok> = Vec::new();
        push_each_with_comma(&mut arms_t, arms);
        let i = ienum_impl_exec(&u, &ugb, &wc, &ungc, &ctx, &ret, &wp, &cp, &arms_t, phantom_arm, ctors);
        tokens::extend_toks(&mut r, &i);

        let names = emit_snake_names(&self.variants, self.msg_ty);
        let sorted = sort_names(&names);
        let quoted = quoted_names_exec(&sorted);
        let mut mfn = self.msg_ty.emit_ep_name();
        mfn.append("_messages");
        let m = messages_fn_exec(&mfn, sorted.len() as u64, &quoted);
        tokens::extend_toks(&mut r, &m);
        r
    }
}

} // verus!
