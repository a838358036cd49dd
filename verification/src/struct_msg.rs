//! The message struct of a contract for a kind with a single message
//! (instantiation, migration): the struct holding the method's parameters,
//! its constructor and its dispatch to the contract's method.
use vstd::prelude::*;
use crate::associated_types::{self, WhereClause, WherePredicateV};
use crate::diag::Diag;
use crate::interface::{select_struct_message, single_message};
use crate::msg_type::{self, MsgType};
use crate::mt::{params_each_comma, path3, push_params_each_comma, push_path3};
use crate::multitest::{names_each_comma, names_each_comma_exec};
use crate::parser::{self, ContractErrorAttr, Custom};
use crate::querier::{self, bracketed_generics, push_concat, where_value};
use crate::reply::{self, MsgFieldV, MsgVariant, MsgVariantV};
use crate::tokens::{self, Delim, Tok, TokV};

verus! {

/// The positions of the methods of kind `ty` among `vs`.
pub open spec fn variant_positions(vs: Seq<MsgVariantV>, ty: MsgType) -> Seq<usize>
    decreases vs.len(),
{
    if vs.len() == 0 {
        Seq::empty()
    } else if vs.last().msg_type == ty {
        variant_positions(vs.drop_last(), ty).push((vs.len() - 1) as usize)
    } else {
        variant_positions(vs.drop_last(), ty)
    }
}

/// `# [ attr ]` for each forwarded attribute.
pub open spec fn forwarded_attrs(attrs: Seq<Seq<TokV>>) -> Seq<TokV> {
    tokens::concat(
        Seq::new(attrs.len(), |k: int| seq![tokens::pc('#'), TokV::Open(Delim::Bracket)] + attrs[k] + seq![TokV::Close(Delim::Bracket)]),
    )
}

/// `pub name : Type ,` for each field.
pub open spec fn pub_fields(fs: Seq<MsgFieldV>) -> Seq<TokV> {
    tokens::concat(Seq::new(fs.len(), |k: int| seq![tokens::id("pub"), TokV::Ident(fs[k].name), tokens::pc(':')] + fs[k].ty + seq![tokens::pc(',')]))
}

/// The message struct, with its derives, the forwarded attributes and its public fields.
pub open spec fn struct_def(name: Seq<char>, ugb: Seq<TokV>, attrs: Seq<TokV>, fields: Seq<TokV>, sylvia: Seq<TokV>) -> Seq<TokV> {
    seq![tokens::pc('#'), TokV::Open(Delim::Bracket), tokens::id("allow"), TokV::Open(Delim::Paren), tokens::id("clippy"), tokens::pc(':'), tokens::pc(':'), tokens::id("derive_partial_eq_without_eq"), TokV::Close(Delim::Paren), TokV::Close(Delim::Bracket), tokens::pc('#'), TokV::Open(Delim::Bracket), tokens::id("derive"), TokV::Open(Delim::Paren)]
        + path3(sylvia, "serde", "Serialize")
        + seq![tokens::pc(',')]
        + path3(sylvia, "serde", "Deserialize")
        + seq![tokens::pc(','), tokens::id("Clone"), tokens::pc(','), tokens::id("Debug"), tokens::pc(','), tokens::id("PartialEq"), tokens::pc(',')]
        + path3(sylvia, "schemars", "JsonSchema")
        + seq![TokV::Close(Delim::Paren), TokV::Close(Delim::Bracket)]
        + attrs
        + seq![tokens::pc('#'), TokV::Open(Delim::Bracket), tokens::id("serde"), TokV::Open(Delim::Paren), tokens::id("rename_all"), tokens::pc('='), TokV::Lit("\"snake_case\""@), TokV::Close(Delim::Paren), TokV::Close(Delim::Bracket), tokens::id("pub"), tokens::id("struct")]
        + seq![TokV::Ident(name)]
        + ugb
        + seq![TokV::Open(Delim::Brace)]
        + fields
        + seq![TokV::Close(Delim::Brace)]
}

/// The implementation of the message struct: its constructor, and `dispatch`, calling the contract's method with the context and the fields.
pub open spec fn struct_impl(name: Seq<char>, ugb: Seq<TokV>, wc: Seq<TokV>, params: Seq<TokV>, names: Seq<TokV>, ungb: Seq<TokV>, ct: Seq<TokV>, ctx: Seq<TokV>, ret: Seq<TokV>, fw: Seq<TokV>, fname: Seq<char>) -> Seq<TokV> {
    seq![tokens::id("impl")]
        + ugb
        + seq![TokV::Ident(name)]
        + ugb
        + wc
        + seq![TokV::Open(Delim::Brace), tokens::id("pub"), tokens::id("fn"), tokens::id("new"), TokV::Open(Delim::Paren)]
        + params
        + seq![TokV::Close(Delim::Paren), tokens::pc('-'), tokens::pc('>'), tokens::id("Self"), TokV::Open(Delim::Brace), tokens::id("Self"), TokV::Open(Delim::Brace)]
        + names
        + seq![TokV::Close(Delim::Brace), TokV::Close(Delim::Brace), tokens::id("pub"), tokens::id("fn"), tokens::id("dispatch")]
        + ungb
        + seq![TokV::Open(Delim::Paren), tokens::id("self"), tokens::pc(','), tokens::id("contract"), tokens::pc(':'), tokens::pc('&')]
        + ct
        + seq![tokens::pc(','), tokens::id("ctx"), tokens::pc(':')]
        + ctx
        + seq![TokV::Close(Delim::Paren), tokens::pc('-'), tokens::pc('>')]
        + ret
        + fw
        + seq![TokV::Open(Delim::Brace), tokens::id("let"), tokens::id("Self"), TokV::Open(Delim::Brace)]
        + names
        + seq![TokV::Close(Delim::Brace), tokens::pc('='), tokens::id("self"), tokens::pc(';'), tokens::id("contract"), tokens::pc('.')]
        + seq![TokV::Ident(fname)]
        + seq![TokV::Open(Delim::Paren), tokens::id("Into"), tokens::pc(':'), tokens::pc(':'), tokens::id("into"), TokV::Open(Delim::Paren), tokens::id("ctx"), TokV::Close(Delim::Paren), tokens::pc(',')]
        + names
        + seq![TokV::Close(Delim::Paren), tokens::pc('.'), tokens::id("map_err"), TokV::Open(Delim::Paren), tokens::id("Into"), tokens::pc(':'), tokens::pc(':'), tokens::id("into"), TokV::Close(Delim::Paren), TokV::Close(Delim::Brace), TokV::Close(Delim::Brace)]
}


/// The message struct of the method `v` of the contract `ct`: `ug` are the
/// generic parameters its fields use, `ung` the other ones, `wc` the where
/// clause of the struct and `fw` the where clause of the contract's
/// implementation; `attrs` are the attributes forwarded to the struct.
pub open spec fn struct_tokens(
    v: MsgVariantV,
    ct: Seq<TokV>,
    ug: Seq<Seq<TokV>>,
    ung: Seq<Seq<TokV>>,
    wc: Option<(Seq<WherePredicateV>, bool)>,
    fw: Option<(Seq<WherePredicateV>, bool)>,
    attrs: Seq<Seq<TokV>>,
    custom_msg: Seq<TokV>,
    custom_query: Seq<TokV>,
    err: Seq<TokV>,
    sylvia: Seq<TokV>,
) -> Seq<TokV> {
    let name = msg_type::msg_name(v.msg_type, false);
    struct_def(name, bracketed_generics(ug), forwarded_attrs(attrs), pub_fields(v.fields), sylvia) + struct_impl(
        name,
        bracketed_generics(ug),
        associated_types::opt_where_tokens(wc),
        params_each_comma(v.fields),
        names_each_comma(v.fields),
        bracketed_generics(ung),
        ct,
        msg_type::ctx_type(v.msg_type, sylvia, custom_query),
        msg_type::result_type(v.msg_type, sylvia, custom_msg, err),
        associated_types::opt_where_tokens(fw),
        v.function_name,
    )
}

fn struct_def_exec(name: &String, ugb: &Vec<Tok>, attrs: &Vec<Tok>, fields: &Vec<Tok>, sylvia: &Vec<Tok>) -> (r: Vec<Tok>)
    ensures
        tokens::toks(r@) == struct_def(name@, tokens::toks(ugb@), tokens::toks(attrs@), tokens::toks(fields@), tokens::toks(sylvia@)),
{
    let mut r: Vec<Tok> = Vec::new();
    let k1: Vec<Tok> = vec![Tok::Punct('#'), Tok::Open(Delim::Bracket), Tok::ident("allow"), Tok::Open(Delim::Paren), Tok::ident("clippy"), Tok::Punct(':'), Tok::Punct(':'), Tok::ident("derive_partial_eq_without_eq"), Tok::Close(Delim::Paren), Tok::Close(Delim::Bracket), Tok::Punct('#'), Tok::Open(Delim::Bracket), Tok::ident("derive"), Tok::Open(Delim::Paren)];
    assert(tokens::toks(k1@) =~= seq![tokens::pc('#'), TokV::Open(Delim::Bracket), tokens::id("allow"), TokV::Open(Delim::Paren), tokens::id("clippy"), tokens::pc(':'), tokens::pc(':'), tokens::id("derive_partial_eq_without_eq"), TokV::Close(Delim::Paren), TokV::Close(Delim::Bracket), tokens::pc('#'), TokV::Open(Delim::Bracket), tokens::id("derive"), TokV::Open(Delim::Paren)]);
    tokens::extend_toks(&mut r, &k1);
    push_path3(&mut r, sylvia, "serde", "Serialize");
    let k2: Vec<Tok> = vec![Tok::Punct(',')];
    assert(tokens::toks(k2@) =~= seq![tokens::pc(',')]);
    tokens::extend_toks(&mut r, &k2);
    push_path3(&mut r, sylvia, "serde", "Deserialize");
    let k3: Vec<Tok> = vec![Tok::Punct(','), Tok::ident("Clone"), Tok::Punct(','), Tok::ident("Debug"), Tok::Punct(','), Tok::ident("PartialEq"), Tok::Punct(',')];
    assert(tokens::toks(k3@) =~= seq![tokens::pc(','), tokens::id("Clone"), tokens::pc(','), tokens::id("Debug"), tokens::pc(','), tokens::id("PartialEq"), tokens::pc(',')]);
    tokens::extend_toks(&mut r, &k3);
    push_path3(&mut r, sylvia, "schemars", "JsonSchema");
    let k4: Vec<Tok> = vec![Tok::Close(Delim::Paren), Tok::Close(Delim::Bracket)];
    assert(tokens::toks(k4@) =~= seq![TokV::Close(Delim::Paren), TokV::Close(Delim::Bracket)]);
    tokens::extend_toks(&mut r, &k4);
    tokens::extend_toks(&mut r, attrs);
    let k5: Vec<Tok> = vec![Tok::Punct('#'), Tok::Open(Delim::Bracket), Tok::ident("serde"), Tok::Open(Delim::Paren), Tok::ident("rename_all"), Tok::Punct('='), Tok::Lit(String::from_str("\"snake_case\"")), Tok::Close(Delim::Paren), Tok::Close(Delim::Bracket), Tok::ident("pub"), Tok::ident("struct")];
    assert(tokens::toks(k5@) =~= seq![tokens::pc('#'), TokV::Open(Delim::Bracket), tokens::id("serde"), TokV::Open(Delim::Paren), tokens::id("rename_all"), tokens::pc('='), TokV::Lit("\"snake_case\""@), TokV::Close(Delim::Paren), TokV::Close(Delim::Bracket), tokens::id("pub"), tokens::id("struct")]);
    tokens::extend_toks(&mut r, &k5);
    tokens::push_tok(&mut r, Tok::Ident(name.clone()));
    tokens::extend_toks(&mut r, ugb);
    let k6: Vec<Tok> = vec![Tok::Open(Delim::Brace)];
    assert(tokens::toks(k6@) =~= seq![TokV::Open(Delim::Brace)]);
    tokens::extend_toks(&mut r, &k6);
    tokens::extend_toks(&mut r, fields);
    let k7: Vec<Tok> = vec![Tok::Close(Delim::Brace)];
    assert(tokens::toks(k7@) =~= seq![TokV::Close(Delim::Brace)]);
    tokens::extend_toks(&mut r, &k7);
    assert(tokens::toks(r@) =~= struct_def(name@, tokens::toks(ugb@), tokens::toks(attrs@), tokens::toks(fields@), tokens::toks(sylvia@)));
    r
}

fn struct_impl_exec(name: &String, ugb: &Vec<Tok>, wc: &Vec<Tok>, params: &Vec<Tok>, names: &Vec<Tok>, ungb: &Vec<Tok>, ct: &Vec<Tok>, ctx: &Vec<Tok>, ret: &Vec<Tok>, fw: &Vec<Tok>, fname: &String) -> (r: Vec<Tok>)
    ensures
        tokens::toks(r@) == struct_impl(name@, tokens::toks(ugb@), tokens::toks(wc@), tokens::toks(params@), tokens::toks(names@), tokens::toks(ungb@), tokens::toks(ct@), tokens::toks(ctx@), tokens::toks(ret@), tokens::toks(fw@), fname@),
{
    let mut r: Vec<Tok> = Vec::new();
    let k1: Vec<Tok> = vec![Tok::ident("impl")];
    assert(tokens::toks(k1@) =~= seq![tokens::id("impl")]);
    tokens::extend_toks(&mut r, &k1);
    tokens::extend_toks(&mut r, ugb);
    tokens::push_tok(&mut r, Tok::Ident(name.clone()));
    tokens::extend_toks(&mut r, ugb);
    tokens::extend_toks(&mut r, wc);
    let k2: Vec<Tok> = vec![Tok::Open(Delim::Brace), Tok::ident("pub"), Tok::ident("fn"), Tok::ident("new"), Tok::Open(Delim::Paren)];
    assert(tokens::toks(k2@) =~= seq![TokV::Open(Delim::Brace), tokens::id("pub"), tokens::id("fn"), tokens::id("new"), TokV::Open(Delim::Paren)]);
    tokens::extend_toks(&mut r, &k2);
    tokens::extend_toks(&mut r, params);
    let k3: Vec<Tok> = vec![Tok::Close(Delim::Paren), Tok::Punct('-'), Tok::Punct('>'), Tok::ident("Self"), Tok::Open(Delim::Brace), Tok::ident("Self"), Tok::Open(Delim::Brace)];
    assert(tokens::toks(k3@) =~= seq![TokV::Close(Delim::Paren), tokens::pc('-'), tokens::pc('>'), tokens::id("Self"), TokV::Open(Delim::Brace), tokens::id("Self"), TokV::Open(Delim::Brace)]);
    tokens::extend_toks(&mut r, &k3);
    tokens::extend_toks(&mut r, names);
    let k4: Vec<Tok> = vec![Tok::Close(Delim::Brace), Tok::Close(Delim::Brace), Tok::ident("pub"), Tok::ident("fn"), Tok::ident("dispatch")];
    assert(tokens::toks(k4@) =~= seq![TokV::Close(Delim::Brace), TokV::Close(Delim::Brace), tokens::id("pub"), tokens::id("fn"), tokens::id("dispatch")]);
    tokens::extend_toks(&mut r, &k4);
    tokens::extend_toks(&mut r, ungb);
    let k5: Vec<Tok> = vec![Tok::Open(Delim::Paren), Tok::ident("self"), Tok::Punct(','), Tok::ident("contract"), Tok::Punct(':'), Tok::Punct('&')];
    assert(tokens::toks(k5@) =~= seq![TokV::Open(Delim::Paren), tokens::id("self"), tokens::pc(','), tokens::id("contract"), tokens::pc(':'), tokens::pc('&')]);
    tokens::extend_toks(&mut r, &k5);
    tokens::extend_toks(&mut r, ct);
    let k6: Vec<Tok> = vec![Tok::Punct(','), Tok::ident("ctx"), Tok::Punct(':')];
    assert(tokens::toks(k6@) =~= seq![tokens::pc(','), tokens::id("ctx"), tokens::pc(':')]);
    tokens::extend_toks(&mut r, &k6);
    tokens::extend_toks(&mut r, ctx);
    let k7: Vec<Tok> = vec![Tok::Close(Delim::Paren), Tok::Punct('-'), Tok::Punct('>')];
    assert(tokens::toks(k7@) =~= seq![TokV::Close(Delim::Paren), tokens::pc('-'), tokens::pc('>')]);
    tokens::extend_toks(&mut r, &k7);
    tokens::extend_toks(&mut r, ret);
    tokens::extend_toks(&mut r, fw);
    let k8: Vec<Tok> = vec![Tok::Open(Delim::Brace), Tok::ident("let"), Tok::ident("Self"), Tok::Open(Delim::Brace)];
    assert(tokens::toks(k8@) =~= seq![TokV::Open(Delim::Brace), tokens::id("let"), tokens::id("Self"), TokV::Open(Delim::Brace)]);
    tokens::extend_toks(&mut r, &k8);
    tokens::extend_toks(&mut r, names);
    let k9: Vec<Tok> = vec![Tok::Close(Delim::Brace), Tok::Punct('='), Tok::ident("self"), Tok::Punct(';'), Tok::ident("contract"), Tok::Punct('.')];
    assert(tokens::toks(k9@) =~= seq![TokV::Close(Delim::Brace), tokens::pc('='), tokens::id("self"), tokens::pc(';'), tokens::id("contract"), tokens::pc('.')]);
    tokens::extend_toks(&mut r, &k9);
    tokens::push_tok(&mut r, Tok::Ident(fname.clone()));
    let k10: Vec<Tok> = vec![Tok::Open(Delim::Paren), Tok::ident("Into"), Tok::Punct(':'), Tok::Punct(':'), Tok::ident("into"), Tok::Open(Delim::Paren), Tok::ident("ctx"), Tok::Close(Delim::Paren), Tok::Punct(',')];
    assert(tokens::toks(k10@) =~= seq![TokV::Open(Delim::Paren), tokens::id("Into"), tokens::pc(':'), tokens::pc(':'), tokens::id("into"), TokV::Open(Delim::Paren), tokens::id("ctx"), TokV::Close(Delim::Paren), tokens::pc(',')]);
    tokens::extend_toks(&mut r, &k10);
    tokens::extend_toks(&mut r, names);
    let k11: Vec<Tok> = vec![Tok::Close(Delim::Paren), Tok::Punct('.'), Tok::ident("map_err"), Tok::Open(Delim::Paren), Tok::ident("Into"), Tok::Punct(':'), Tok::Punct(':'), Tok::ident("into"), Tok::Close(Delim::Paren), Tok::Close(Delim::Brace), Tok::Close(Delim::Brace)];
    assert(tokens::toks(k11@) =~= seq![TokV::Close(Delim::Paren), tokens::pc('.'), tokens::id("map_err"), TokV::Open(Delim::Paren), tokens::id("Into"), tokens::pc(':'), tokens::pc(':'), tokens::id("into"), TokV::Close(Delim::Paren), TokV::Close(Delim::Brace), TokV::Close(Delim::Brace)]);
    tokens::extend_toks(&mut r, &k11);
    assert(tokens::toks(r@) =~= struct_impl(name@, tokens::toks(ugb@), tokens::toks(wc@), tokens::toks(params@), tokens::toks(names@), tokens::toks(ungb@), tokens::toks(ct@), tokens::toks(ctx@), tokens::toks(ret@), tokens::toks(fw@), fname@));
    r
}


/// The positions of the methods of kind `ty` among `vs`.
pub fn positions_of_kind(vs: &Vec<MsgVariant>, ty: MsgType) -> (r: Vec<usize>)
    ensures
        r@ == variant_positions(reply::variants_view(vs@), ty),
        forall|q: int| 0 <= q < r@.len() ==> r@[q] < vs@.len(),
{
    let ghost all = reply::variants_view(vs@);
    let mut r: Vec<usize> = Vec::new();
    let mut k: usize = 0;
    while k < vs.len()
        invariant
            all == reply::variants_view(vs@),
            k <= vs@.len(),
            r@ == variant_positions(all.take(k as int), ty),
            forall|q: int| 0 <= q < r@.len() ==> r@[q] < k,
        decreases vs@.len() - k,
    {
        assert(all.take(k + 1).drop_last() =~= all.take(k as int));
        if vs[k].msg_type == ty {
            r.push(k);
        }
        k = k + 1;
    }
    assert(all.take(k as int) =~= all);
    r
}

pub(crate) fn forwarded_attrs_exec(attrs: &Vec<Vec<Tok>>) -> (r: Vec<Tok>)
    ensures
        tokens::toks(r@) == forwarded_attrs(parser::toks2(attrs@)),
{
    let ghost a = parser::toks2(attrs@);
    let mut parts: Vec<Vec<Tok>> = Vec::new();
    let mut k: usize = 0;
    while k < attrs.len()
        invariant
            k <= attrs@.len(),
            a == parser::toks2(attrs@),
            parts@.len() == k,
            forall|q: int|
                0 <= q < k ==> tokens::toks((#[trigger] parts@[q])@) == seq![tokens::pc('#'), TokV::Open(Delim::Bracket)] + a[q] + seq![
                    TokV::Close(Delim::Bracket),
                ],
        decreases attrs@.len() - k,
    {
        let mut p: Vec<Tok> = Vec::new();
        tokens::push_punct(&mut p, '#');
        tokens::push_tok(&mut p, Tok::Open(Delim::Bracket));
        tokens::extend_toks(&mut p, &attrs[k]);
        tokens::push_tok(&mut p, Tok::Close(Delim::Bracket));
        assert(tokens::toks(p@) =~= seq![tokens::pc('#'), TokV::Open(Delim::Bracket)] + a[k as int] + seq![TokV::Close(Delim::Bracket)]);
        parts.push(p);
        k = k + 1;
    }
    assert(parser::toks2(parts@) =~= Seq::new(
        a.len(),
        |q: int| seq![tokens::pc('#'), TokV::Open(Delim::Bracket)] + a[q] + seq![TokV::Close(Delim::Bracket)],
    ));
    let mut r: Vec<Tok> = Vec::new();
    push_concat(&mut r, &parts);
    r
}

fn pub_fields_exec(v: &MsgVariant) -> (r: Vec<Tok>)
    ensures
        tokens::toks(r@) == pub_fields(v@.fields),
{
    let ghost fs = v@.fields;
    let mut parts: Vec<Vec<Tok>> = Vec::new();
    let mut k: usize = 0;
    while k < v.fields.len()
        invariant
            k <= fs.len(),
            fs == v@.fields,
            parts@.len() == k,
            forall|q: int|
                0 <= q < k ==> tokens::toks((#[trigger] parts@[q])@) == seq![tokens::id("pub"), TokV::Ident(fs[q].name), tokens::pc(':')] + fs[q].ty
                    + seq![tokens::pc(',')],
        decreases fs.len() - k,
    {
        let f = &v.fields[k];
        let mut p: Vec<Tok> = Vec::new();
        tokens::push_ident(&mut p, "pub");
        tokens::push_tok(&mut p, Tok::Ident(f.name.clone()));
        tokens::push_punct(&mut p, ':');
        tokens::extend_toks(&mut p, &f.ty);
        tokens::push_punct(&mut p, ',');
        assert(tokens::toks(p@) =~= seq![tokens::id("pub"), TokV::Ident(fs[k as int].name), tokens::pc(':')] + fs[k as int].ty + seq![tokens::pc(',')]);
        parts.push(p);
        k = k + 1;
    }
    assert(parser::toks2(parts@) =~= Seq::new(
        fs.len(),
        |q: int| seq![tokens::id("pub"), TokV::Ident(fs[q].name), tokens::pc(':')] + fs[q].ty + seq![tokens::pc(',')],
    ));
    let mut r: Vec<Tok> = Vec::new();
    push_concat(&mut r, &parts);
    r
}

/// Generator of the message struct of a contract for a kind with a single
/// message.
pub struct StructMessage {
    /// The contract type.
    pub contract_type: Vec<Tok>,
    /// The method declaring the message, if the contract has one.
    pub variant: Option<MsgVariant>,
    /// The where clause of the contract's implementation.
    pub full_where: Option<WhereClause>,
    pub error: ContractErrorAttr,
    pub custom: Custom,
    /// The attributes forwarded to the message struct.
    pub msg_attrs_to_forward: Vec<Vec<Tok>>,
}

impl StructMessage {
    /// The generator of the message struct of kind `msg_ty` among the
    /// methods `variants` of the contract `contract_type`: none, with an
    /// error, without an instantiation message or with more than one message
    /// of the kind.
    pub fn new(
        variants: Vec<MsgVariant>,
        msg_ty: MsgType,
        contract_type: Vec<Tok>,
        full_where: Option<WhereClause>,
        error: ContractErrorAttr,
        custom: Custom,
        msg_attrs_to_forward: Vec<Vec<Tok>>,
    ) -> (r: (Option<StructMessage>, Vec<Diag>))
        ensures
            ({
                let ps = variant_positions(reply::variants_view(variants@), msg_ty);
                &&& r.1@ == single_message(ps, msg_ty).1
                &&& (r.0 is None <==> ((ps.len() == 0 && msg_ty == MsgType::Instantiate) || ps.len() > 1))
                &&& r.0 matches Some(m) ==> {
                    &&& m.contract_type@ == contract_type@
                    &&& m.full_where == full_where
                    &&& m.error == error
                    &&& m.custom == custom
                    &&& m.msg_attrs_to_forward@ == msg_attrs_to_forward@
                    &&& match m.variant {
                        Some(v) => ps.len() == 1 && v@ == variants@[ps[0] as int]@,
                        None => ps.len() == 0,
                    }
                }
            }),
    {
        let mut variants = variants;
        let ps = positions_of_kind(&variants, msg_ty);
        let (chosen, diags) = select_struct_message(&ps, msg_ty);
        if ps.len() > 1 || (ps.len() == 0 && msg_ty == MsgType::Instantiate) {
            return (None, diags);
        }
        let variant = match chosen {
            Some(i) => Some(variants.remove(i)),
            None => None,
        };
        (Some(StructMessage { contract_type, variant, full_where, error, custom, msg_attrs_to_forward }), diags)
    }

    /// The message struct and its implementation, from its parts; nothing
    /// when the contract has no message of the kind. `used` are the generic
    /// parameters the message's fields use, `unused` the other ones, and
    /// `where_clause` the where clause of the struct.
    pub fn emit_parts(&self, sylvia: &Vec<Tok>, used: &Vec<Vec<Tok>>, unused: &Vec<Vec<Tok>>, where_clause: &Option<WhereClause>) -> (r: Vec<Tok>)
        ensures
            tokens::toks(r@) == match self.variant {
                Some(v) => struct_tokens(
                    v@,
                    tokens::toks(self.contract_type@),
                    parser::toks2(used@),
                    parser::toks2(unused@),
                    where_value(*where_clause),
                    where_value(self.full_where),
                    parser::toks2(self.msg_attrs_to_forward@),
                    match self.custom@.msg {
                        Some(m) => m,
                        None => parser::default_type(tokens::toks(sylvia@)),
                    },
                    match self.custom@.query {
                        Some(q) => q,
                        None => parser::default_type(tokens::toks(sylvia@)),
                    },
                    tokens::toks(self.error.error@),
                    tokens::toks(sylvia@),
                ),
                None => Seq::empty(),
            },
    {
        match &self.variant {
            None => {
                let r: Vec<Tok> = Vec::new();
                assert(tokens::toks(r@) =~= Seq::<TokV>::empty());
                r
            },
            Some(v) => {
                let name = v.msg_type.emit_msg_name(false);
                let mut ugb: Vec<Tok> = Vec::new();
                querier::push_bracketed_generics(&mut ugb, used);
                assert(tokens::toks(ugb@) =~= bracketed_generics(parser::toks2(used@)));
                let mut ungb: Vec<Tok> = Vec::new();
                querier::push_bracketed_generics(&mut ungb, unused);
                assert(tokens::toks(ungb@) =~= bracketed_generics(parser::toks2(unused@)));
                let attrs = forwarded_attrs_exec(&self.msg_attrs_to_forward);
                let fields = pub_fields_exec(v);
                let mut r = struct_def_exec(&name, &ugb, &attrs, &fields, sylvia);
                let wc = associated_types::opt_where_to_tokens(where_clause);
                let fw = associated_types::opt_where_to_tokens(&self.full_where);
                let mut params: Vec<Tok> = Vec::new();
                push_params_each_comma(&mut params, v);
                assert(tokens::toks(params@) =~= params_each_comma(v@.fields));
                let names = names_each_comma_exec(v);
                let cq = self.custom.query_or_default(sylvia);
                let cm = self.custom.msg_or_default(sylvia);
                let ctx = v.msg_type.emit_ctx_type(sylvia, &cq);
                let ret = v.msg_type.emit_result_type(sylvia, &cm, &self.error.error);
                let i = struct_impl_exec(&name, &ugb, &wc, &params, &names, &ungb, &self.contract_type, &ctx, &ret, &fw, &v.function_name);
                tokens::extend_toks(&mut r, &i);
                r
            },
        }
    }
}

} // verus!
