//! The code generated for the reply handling of a contract: the reply id
//! constants, the dispatch of replies to their handlers, and the methods
//! attaching a reply id to a sub-message.
use vstd::prelude::*;
use crate::diag::Diag;
use crate::msg_type::{self, MsgType};
use crate::parser;
use crate::reply::{
    self, MsgFieldV, MsgVariant, MsgVariantV, ReplyData, ReplyDataV, ReplyOn, datas_view, variants_view,
};
use crate::tokens::{self, Tok, TokV, Delim};
use crate::associated_types::{self, comma_join};
use crate::entry_points::{contract_api_item, contract_turbo};

verus! {

/// The digit `d` as a character.
pub open spec fn digit_char(d: nat) -> char {
    if d == 0 {
        '0'
    } else if d == 1 {
        '1'
    } else if d == 2 {
        '2'
    } else if d == 3 {
        '3'
    } else if d == 4 {
        '4'
    } else if d == 5 {
        '5'
    } else if d == 6 {
        '6'
    } else if d == 7 {
        '7'
    } else if d == 8 {
        '8'
    } else {
        '9'
    }
}

/// The decimal digits of `n`, most significant first.
pub open spec fn decimal(n: nat) -> Seq<char>
    decreases n,
{
    if n < 10 {
        seq![digit_char(n)]
    } else {
        decimal(n / 10).push(digit_char(n % 10))
    }
}

/// The digit `d` as a string.
fn digit_str(d: u64) -> (r: &'static str)
    requires
        d < 10,
    ensures
        r@ == seq![digit_char(d as nat)],
{
    proof {
        reveal_strlit("0");
        reveal_strlit("1");
        reveal_strlit("2");
        reveal_strlit("3");
        reveal_strlit("4");
        reveal_strlit("5");
        reveal_strlit("6");
        reveal_strlit("7");
        reveal_strlit("8");
        reveal_strlit("9");
    }
    if d == 0 {
        "0"
    } else if d == 1 {
        "1"
    } else if d == 2 {
        "2"
    } else if d == 3 {
        "3"
    } else if d == 4 {
        "4"
    } else if d == 5 {
        "5"
    } else if d == 6 {
        "6"
    } else if d == 7 {
        "7"
    } else if d == 8 {
        "8"
    } else {
        "9"
    }
}

/// Appends the decimal digits of `n` to `s`.
pub(crate) fn push_decimal(s: &mut String, n: u64)
    ensures
        final(s)@ == old(s)@ + decimal(n as nat),
    decreases n,
{
    if n >= 10 {
        push_decimal(s, n / 10);
    }
    s.append(digit_str(n % 10));
    assert(s@ =~= old(s)@ + decimal(n as nat));
}

/// `pub const NAME : u64 = {id}u64 ;`
pub open spec fn reply_id_const(name: Seq<char>, id: nat) -> Seq<TokV> {
    seq![tokens::id("pub"), tokens::id("const"), TokV::Ident(name), tokens::pc(':'), tokens::id("u64"), tokens::pc('='), TokV::Lit(
        decimal(id) + "u64"@,
    ), tokens::pc(';')]
}

/// The handler name that named the reply id: the name of the methods
/// attaching the reply id to a sub-message.
pub open spec fn handler_id(vs: Seq<MsgVariantV>, d: ReplyDataV) -> Seq<char> {
    reply::handler_name(vs[d.variant as int], d.handler)
}

/// The payload parameters of the first handler of the reply id.
pub open spec fn payload_fields(vs: Seq<MsgVariantV>, d: ReplyDataV) -> Seq<MsgFieldV> {
    let v = vs[d.variant as int];
    let from = d.payload_from as int;
    Seq::new((if v.fields.len() >= from { v.fields.len() - from } else { 0 }) as nat, |j: int| v.fields[from + j])
}

/// `name : Type`
pub open spec fn field_param(f: MsgFieldV) -> Seq<TokV> {
    seq![TokV::Ident(f.name), tokens::pc(':')] + f.ty
}

/// The parameters `name : Type` of the fields, separated by commas.
pub open spec fn comma_params(fs: Seq<MsgFieldV>) -> Seq<TokV>
    decreases fs.len(),
{
    if fs.len() == 0 {
        Seq::empty()
    } else if fs.len() == 1 {
        field_param(fs[0])
    } else {
        comma_params(fs.drop_last()) + seq![tokens::pc(',')] + field_param(fs.last())
    }
}

/// The names of the payload parameters of the reply id, separated by commas.
pub open spec fn payload_names(vs: Seq<MsgVariantV>, d: ReplyDataV) -> Seq<TokV> {
    reply::comma_names(reply::names_from(vs[d.variant as int], d.payload_from as int))
}

/// The payload deserialization of the reply id.
pub open spec fn payload_deser(vs: Seq<MsgVariantV>, d: ReplyDataV, sylvia: Seq<TokV>) -> Seq<TokV> {
    reply::payload_deserialization(vs[d.variant as int], d.payload_from as int, sylvia)
}

/// The payload serialization of the reply id.
pub open spec fn payload_ser(vs: Seq<MsgVariantV>, d: ReplyDataV, sylvia: Seq<TokV>) -> Seq<TokV> {
    reply::payload_serialization(vs[d.variant as int], d.payload_from as int, sylvia)
}

/// `fn handler ( self , payload params ) -> StdResult < SubMsg < CustomMsgT > >`
pub open spec fn submsg_sig(vs: Seq<MsgVariantV>, d: ReplyDataV, sylvia: Seq<TokV>) -> Seq<TokV> {
    seq![tokens::id("fn")] + seq![TokV::Ident(handler_id(vs, d))] + seq![TokV::Open(Delim::Paren), tokens::id("self"), tokens::pc(',')] + comma_params(payload_fields(vs, d)) + seq![TokV::Close(Delim::Paren), tokens::pc('-'), tokens::pc('>')] + msg_type::cw_std_item(sylvia, "StdResult") + seq![tokens::pc('<')] + msg_type::cw_std_item(sylvia, "SubMsg") + seq![tokens::pc('<'), tokens::id("CustomMsgT"), tokens::pc('>'), tokens::pc('>')]
}

/// The declaration of the method attaching the reply id to a sub-message.
pub open spec fn submsg_trait_method(vs: Seq<MsgVariantV>, d: ReplyDataV, sylvia: Seq<TokV>) -> Seq<TokV> {
    submsg_sig(vs, d, sylvia) + seq![tokens::pc(';')]
}

/// The method setting the reply id, its `ReplyOn` and the payload on a sub-message.
pub open spec fn submsg_setter(vs: Seq<MsgVariantV>, d: ReplyDataV, sylvia: Seq<TokV>) -> Seq<TokV> {
    submsg_sig(vs, d, sylvia) + seq![TokV::Open(Delim::Brace)] + payload_ser(vs, d, sylvia) + seq![tokens::id("Ok"), TokV::Open(Delim::Paren)] + msg_type::cw_std_item(sylvia, "SubMsg") + seq![TokV::Open(Delim::Brace), tokens::id("reply_on"), tokens::pc(':')] + reply::cw_reply_on_tokens(reply::cw_reply_on(d), sylvia) + seq![tokens::pc(','), tokens::id("id"), tokens::pc(':')] + seq![TokV::Ident(d.reply_id)] + seq![tokens::pc(','), tokens::id("payload"), tokens::pc(','), tokens::pc('.'), tokens::pc('.'), tokens::id("self"), TokV::Close(Delim::Brace), TokV::Close(Delim::Paren), TokV::Close(Delim::Brace)]
}

/// The method turning a message into a sub-message with the reply id, its
/// `ReplyOn` and the payload.
pub open spec fn submsg_converter(vs: Seq<MsgVariantV>, d: ReplyDataV, sylvia: Seq<TokV>) -> Seq<TokV> {
    submsg_sig(vs, d, sylvia) + seq![TokV::Open(Delim::Brace)] + payload_ser(vs, d, sylvia) + seq![tokens::id("Ok"), TokV::Open(Delim::Paren)] + msg_type::cw_std_item(sylvia, "SubMsg") + seq![TokV::Open(Delim::Brace), tokens::id("reply_on"), tokens::pc(':')] + reply::cw_reply_on_tokens(reply::cw_reply_on(d), sylvia) + seq![tokens::pc(','), tokens::id("id"), tokens::pc(':')] + seq![TokV::Ident(d.reply_id)] + seq![tokens::pc(','), tokens::id("msg"), tokens::pc(':'), tokens::id("self"), tokens::pc('.'), tokens::id("into"), TokV::Open(Delim::Paren), TokV::Close(Delim::Paren), tokens::pc(','), tokens::id("payload"), tokens::pc(','), tokens::id("gas_limit"), tokens::pc(':'), tokens::id("None"), tokens::pc(','), TokV::Close(Delim::Brace), TokV::Close(Delim::Paren), TokV::Close(Delim::Brace)]
}

/// `turbo :: new ( ) . method ( ( ctx ) . into ( ) , args )`
pub open spec fn call_handler(turbo: Seq<TokV>, method: Seq<char>, ctx: Seq<TokV>, args: Seq<TokV>) -> Seq<TokV> {
    turbo + seq![tokens::pc(':'), tokens::pc(':'), tokens::id("new"), TokV::Open(Delim::Paren), TokV::Close(Delim::Paren), tokens::pc('.')] + seq![TokV::Ident(method)] + seq![TokV::Open(Delim::Paren), TokV::Open(Delim::Paren)] + ctx + seq![TokV::Close(Delim::Paren), tokens::pc('.'), tokens::id("into"), TokV::Open(Delim::Paren), TokV::Close(Delim::Paren), tokens::pc(',')] + args + seq![TokV::Close(Delim::Paren)]
}

/// The context of a handler of a successful reply.
pub open spec fn success_ctx() -> Seq<TokV> {
    seq![tokens::id("deps"), tokens::pc(','), tokens::id("env"), tokens::pc(','), tokens::id("gas_used"), tokens::pc(','), tokens::id("events"), tokens::pc(','), tokens::id("msg_responses")]
}

/// The context of a handler of a failed reply, or of every reply.
pub open spec fn plain_ctx() -> Seq<TokV> {
    seq![tokens::id("deps"), tokens::pc(','), tokens::id("env"), tokens::pc(','), tokens::id("gas_used"), tokens::pc(','), tokens::id("vec"), tokens::pc('!'), TokV::Open(Delim::Bracket), TokV::Close(Delim::Bracket), tokens::pc(','), tokens::id("vec"), tokens::pc('!'), TokV::Open(Delim::Bracket), TokV::Close(Delim::Bracket)]
}

/// `sylvia :: cw_std :: SubMsgResult :: Variant ( binding ) => {`
pub open spec fn result_arm_head(sylvia: Seq<TokV>, variant: &str, binding: &str) -> Seq<TokV> {
    msg_type::cw_std_item(sylvia, "SubMsgResult") + seq![tokens::pc(':'), tokens::pc(':')] + seq![tokens::id(variant), TokV::Open(Delim::Paren), tokens::id(binding), TokV::Close(Delim::Paren), tokens::pc('='), tokens::pc('>'), TokV::Open(Delim::Brace)]
}

/// The data parameter's value before the payload values: `data ,` when the
/// handlers take the data.
pub open spec fn data_arg(d: ReplyDataV) -> Seq<TokV> {
    if d.data is Some {
        seq![tokens::id("data"), tokens::pc(',')]
    } else {
        Seq::empty()
    }
}

/// The deserialization of the data parameter, when the handlers take one.
pub open spec fn data_deser(vs: Seq<MsgVariantV>, d: ReplyDataV, sylvia: Seq<TokV>) -> Seq<TokV> {
    match d.data {
        Some(x) => reply::data_deserialization(reply::data_handling(vs[d.variant as int].fields[x as int].data), sylvia),
        None => Seq::empty(),
    }
}

/// The arm of a successful reply: to the handler for success, which takes
/// the events, the responses and the data; else to the handler for every
/// outcome, which takes the result; else the events and data of the reply
/// are forwarded in a new response.
pub open spec fn success_arm(vs: Seq<MsgVariantV>, d: ReplyDataV, sylvia: Seq<TokV>, turbo: Seq<TokV>) -> Seq<TokV> {
    match reply::first_handler_for(d.handlers, ReplyOn::Success) {
        Some((m, on)) => if on == ReplyOn::Success {
            result_arm_head(sylvia, "Ok", "sub_msg_resp") + seq![tokens::pc('#'), TokV::Open(Delim::Bracket), tokens::id("allow"), TokV::Open(Delim::Paren), tokens::id("deprecated"), TokV::Close(Delim::Paren), TokV::Close(Delim::Bracket), tokens::id("let")] + msg_type::cw_std_item(sylvia, "SubMsgResponse") + seq![TokV::Open(Delim::Brace), tokens::id("events"), tokens::pc(','), tokens::id("data"), tokens::pc(','), tokens::id("msg_responses"), TokV::Close(Delim::Brace), tokens::pc('='), tokens::id("sub_msg_resp"), tokens::pc(';')] + payload_deser(vs, d, sylvia) + data_deser(vs, d, sylvia) + call_handler(turbo, vs[m as int].function_name, success_ctx(), data_arg(d) + payload_names(vs, d)) + seq![TokV::Close(Delim::Brace)]
        } else {
            result_arm_head(sylvia, "Ok", "_") + payload_deser(vs, d, sylvia) + call_handler(turbo, vs[m as int].function_name, plain_ctx(), seq![tokens::id("result"), tokens::pc(',')] + payload_names(vs, d)) + seq![TokV::Close(Delim::Brace)]
        },
        None => result_arm_head(sylvia, "Ok", "sub_msg_resp") + seq![tokens::id("let"), tokens::id("mut"), tokens::id("resp"), tokens::pc('='), tokens::id("sylvia"), tokens::pc(':'), tokens::pc(':'), tokens::id("cw_std"), tokens::pc(':'), tokens::pc(':'), tokens::id("Response"), tokens::pc(':'), tokens::pc(':'), tokens::id("new"), TokV::Open(Delim::Paren), TokV::Close(Delim::Paren), tokens::pc('.'), tokens::id("add_events"), TokV::Open(Delim::Paren), tokens::id("sub_msg_resp"), tokens::pc('.'), tokens::id("events"), TokV::Close(Delim::Paren), tokens::pc(';'), tokens::pc('#'), TokV::Open(Delim::Bracket), tokens::id("allow"), TokV::Open(Delim::Paren), tokens::id("deprecated"), TokV::Close(Delim::Paren), TokV::Close(Delim::Bracket), tokens::id("if"), tokens::id("sub_msg_resp"), tokens::pc('.'), tokens::id("data"), tokens::pc('.'), tokens::id("is_some"), TokV::Open(Delim::Paren), TokV::Close(Delim::Paren), TokV::Open(Delim::Brace), tokens::id("resp"), tokens::pc('='), tokens::id("resp"), tokens::pc('.'), tokens::id("set_data"), TokV::Open(Delim::Paren), tokens::id("sub_msg_resp"), tokens::pc('.'), tokens::id("data"), tokens::pc('.'), tokens::id("unwrap"), TokV::Open(Delim::Paren), TokV::Close(Delim::Paren), TokV::Close(Delim::Paren), tokens::pc(';'), TokV::Close(Delim::Brace), tokens::id("Ok"), TokV::Open(Delim::Paren), tokens::id("resp"), TokV::Close(Delim::Paren), TokV::Close(Delim::Brace)],
    }
}

/// The arm of a failed reply: to the handler for errors, which takes the
/// error; else to the handler for every outcome, which takes the result;
/// else the error is returned.
pub open spec fn error_arm(vs: Seq<MsgVariantV>, d: ReplyDataV, sylvia: Seq<TokV>, turbo: Seq<TokV>) -> Seq<TokV> {
    match reply::first_handler_for(d.handlers, ReplyOn::Error) {
        Some((m, on)) => if on == ReplyOn::Error {
            result_arm_head(sylvia, "Err", "error") + payload_deser(vs, d, sylvia) + call_handler(turbo, vs[m as int].function_name, plain_ctx(), seq![tokens::id("error"), tokens::pc(',')] + payload_names(vs, d)) + seq![TokV::Close(Delim::Brace)]
        } else {
            result_arm_head(sylvia, "Err", "_") + payload_deser(vs, d, sylvia) + call_handler(turbo, vs[m as int].function_name, plain_ctx(), seq![tokens::id("result"), tokens::pc(',')] + payload_names(vs, d)) + seq![TokV::Close(Delim::Brace)]
        },
        None => result_arm_head(sylvia, "Err", "error") + seq![tokens::id("Err"), TokV::Open(Delim::Paren), tokens::id("sylvia"), tokens::pc(':'), tokens::pc(':'), tokens::id("cw_std"), tokens::pc(':'), tokens::pc(':'), tokens::id("StdError"), tokens::pc(':'), tokens::pc(':'), tokens::id("generic_err"), TokV::Open(Delim::Paren), tokens::id("error"), TokV::Close(Delim::Paren), TokV::Close(Delim::Paren), tokens::pc('.'), tokens::id("map_err"), TokV::Open(Delim::Paren), tokens::id("Into"), tokens::pc(':'), tokens::pc(':'), tokens::id("into"), TokV::Close(Delim::Paren), TokV::Close(Delim::Brace)],
    }
}

/// `REPLY_ID => { match result { success arm error arm } }`
pub open spec fn match_arm(vs: Seq<MsgVariantV>, d: ReplyDataV, sylvia: Seq<TokV>, turbo: Seq<TokV>) -> Seq<TokV> {
    seq![TokV::Ident(d.reply_id), tokens::pc('='), tokens::pc('>'), TokV::Open(Delim::Brace), tokens::id("match"), tokens::id("result"), TokV::Open(Delim::Brace)]
        + success_arm(vs, d, sylvia, turbo) + error_arm(vs, d, sylvia, turbo) + seq![TokV::Close(Delim::Brace), TokV::Close(Delim::Brace)]
}

/// The fields of `v` from `from` on.
pub open spec fn fields_from(v: MsgVariantV, from: int) -> Seq<MsgFieldV> {
    Seq::new((if v.fields.len() >= from { v.fields.len() - from } else { 0 }) as nat, |j: int| v.fields[from + j])
}

/// Appends the parameters `name : Type` of the fields of `v` from `from` on.
pub(crate) fn push_comma_params(dst: &mut Vec<Tok>, v: &MsgVariant, from: usize)
    ensures
        tokens::toks(final(dst)@) == tokens::toks(old(dst)@) + comma_params(fields_from(v@, from as int)),
{
    let ghost fs = fields_from(v@, from as int);
    let ghost start = tokens::toks(dst@);
    let n: usize = if v.fields.len() >= from { v.fields.len() - from } else { 0 };
    let mut i: usize = 0;
    assert(fs.take(0) =~= Seq::<MsgFieldV>::empty());
    while i < n
        invariant
            fs == fields_from(v@, from as int),
            n == fs.len(),
            i <= n,
            n > 0 ==> from + n == v.fields.len(),
            tokens::toks(dst@) == start + comma_params(fs.take(i as int)),
        decreases n - i,
    {
        if i > 0 {
            tokens::push_punct(dst, ',');
        }
        let f = &v.fields[from + i];
        assert(fs[i as int] == f@);
        tokens::push_tok(dst, Tok::Ident(f.name.clone()));
        tokens::push_punct(dst, ':');
        tokens::extend_toks(dst, &f.ty);
        assert(fs.take(i + 1).drop_last() =~= fs.take(i as int));
        assert(tokens::toks(dst@) =~= start + comma_params(fs.take(i + 1)));
        i = i + 1;
    }
    assert(fs.take(i as int) =~= fs);
}

/// The name of the handler that named the reply id.
fn handler_id_exec(variants: &Vec<MsgVariant>, d: &ReplyData) -> (r: String)
    requires
        reply::data_indices_valid(variants_view(variants@), d@),
    ensures
        r@ == handler_id(variants_view(variants@), d@),
{
    let v = &variants[d.variant];
    assert(variants_view(variants@)[d.variant as int] == v@);
    match d.handler {
        Some(j) => v.handlers[j].clone(),
        None => v.function_name.clone(),
    }
}

proof fn lemma_first_handler_in(hs: Seq<(usize, ReplyOn)>, r: ReplyOn)
    ensures
        reply::first_handler_for(hs, r) matches Some(h) ==> (exists|m: int| 0 <= m < hs.len() && hs[m] == h) && (h.1 == r
            || h.1 == ReplyOn::Always),
    decreases hs.len(),
{
    if hs.len() > 0 {
        lemma_first_handler_in(hs.drop_first(), r);
        if !(hs[0].1 == r || hs[0].1 == ReplyOn::Always) {
            if reply::first_handler_for(hs.drop_first(), r) is Some {
                let h = reply::first_handler_for(hs.drop_first(), r)->0;
                let m = choose|m: int| 0 <= m < hs.drop_first().len() && hs.drop_first()[m] == h;
                assert(hs[m + 1] == h);
            }
        }
    }
}

/// Appends `turbo :: new ( ) . method ( ( ctx ) . into ( ) , args )`.
fn push_call_handler(dst: &mut Vec<Tok>, turbo: &Vec<Tok>, method: &String, ctx: &Vec<Tok>, args: &Vec<Tok>)
    ensures
        tokens::toks(final(dst)@) == tokens::toks(old(dst)@) + call_handler(tokens::toks(turbo@), method@, tokens::toks(ctx@), tokens::toks(args@)),
{
    let ghost s0 = tokens::toks(dst@);

    tokens::extend_toks(dst, turbo);
    let k1: Vec<Tok> = vec![Tok::Punct(':'), Tok::Punct(':'), Tok::ident("new"), Tok::Open(Delim::Paren), Tok::Close(Delim::Paren), Tok::Punct('.')];
    assert(tokens::toks(k1@) =~= seq![tokens::pc(':'), tokens::pc(':'), tokens::id("new"), TokV::Open(Delim::Paren), TokV::Close(Delim::Paren), tokens::pc('.')]);
    tokens::extend_toks(dst, &k1);
    tokens::push_tok(dst, Tok::Ident(method.clone()));
    let k2: Vec<Tok> = vec![Tok::Open(Delim::Paren), Tok::Open(Delim::Paren)];
    assert(tokens::toks(k2@) =~= seq![TokV::Open(Delim::Paren), TokV::Open(Delim::Paren)]);
    tokens::extend_toks(dst, &k2);
    tokens::extend_toks(dst, ctx);
    let k3: Vec<Tok> = vec![Tok::Close(Delim::Paren), Tok::Punct('.'), Tok::ident("into"), Tok::Open(Delim::Paren), Tok::Close(Delim::Paren), Tok::Punct(',')];
    assert(tokens::toks(k3@) =~= seq![TokV::Close(Delim::Paren), tokens::pc('.'), tokens::id("into"), TokV::Open(Delim::Paren), TokV::Close(Delim::Paren), tokens::pc(',')]);
    tokens::extend_toks(dst, &k3);
    tokens::extend_toks(dst, args);
    let k4: Vec<Tok> = vec![Tok::Close(Delim::Paren)];
    assert(tokens::toks(k4@) =~= seq![TokV::Close(Delim::Paren)]);
    tokens::extend_toks(dst, &k4);
    assert(tokens::toks(dst@) =~= s0 + call_handler(tokens::toks(turbo@), method@, tokens::toks(ctx@), tokens::toks(args@)));
}

/// Appends `sylvia :: cw_std :: SubMsgResult :: variant ( binding ) => {`.
fn push_result_arm_head(dst: &mut Vec<Tok>, sylvia: &Vec<Tok>, variant: &str, binding: &str)
    ensures
        tokens::toks(final(dst)@) == tokens::toks(old(dst)@) + result_arm_head(tokens::toks(sylvia@), variant, binding),
{
    msg_type::push_cw_std_item(dst, sylvia, "SubMsgResult");
    tokens::push_punct(dst, ':');
    tokens::push_punct(dst, ':');
    tokens::push_ident(dst, variant);
    tokens::push_tok(dst, Tok::Open(Delim::Paren));
    tokens::push_ident(dst, binding);
    tokens::push_tok(dst, Tok::Close(Delim::Paren));
    tokens::push_punct(dst, '=');
    tokens::push_punct(dst, '>');
    tokens::push_tok(dst, Tok::Open(Delim::Brace));
    assert(tokens::toks(dst@) =~= tokens::toks(old(dst)@) + result_arm_head(tokens::toks(sylvia@), variant, binding));
}

/// The names of the payload parameters, separated by commas, after `prefix`.
fn names_after(prefix: Vec<Tok>, variants: &Vec<MsgVariant>, d: &ReplyData) -> (r: Vec<Tok>)
    requires
        d.variant < variants.len(),
    ensures
        tokens::toks(r@) == tokens::toks(prefix@) + payload_names(variants_view(variants@), d@),
{
    let mut r = prefix;
    let v = &variants[d.variant];
    assert(variants_view(variants@)[d.variant as int] == v@);
    reply::push_comma_names(&mut r, v, d.payload_from);
    r
}

/// The context handed to a handler of a failed reply, or of every reply.
fn plain_ctx_exec() -> (r: Vec<Tok>)
    ensures
        tokens::toks(r@) == plain_ctx(),
{
    let mut r: Vec<Tok> = Vec::new();
    let dst = &mut r;

    let k5: Vec<Tok> = vec![Tok::ident("deps"), Tok::Punct(','), Tok::ident("env"), Tok::Punct(','), Tok::ident("gas_used"), Tok::Punct(','), Tok::ident("vec"), Tok::Punct('!'), Tok::Open(Delim::Bracket), Tok::Close(Delim::Bracket), Tok::Punct(','), Tok::ident("vec"), Tok::Punct('!'), Tok::Open(Delim::Bracket), Tok::Close(Delim::Bracket)];
    assert(tokens::toks(k5@) =~= seq![tokens::id("deps"), tokens::pc(','), tokens::id("env"), tokens::pc(','), tokens::id("gas_used"), tokens::pc(','), tokens::id("vec"), tokens::pc('!'), TokV::Open(Delim::Bracket), TokV::Close(Delim::Bracket), tokens::pc(','), tokens::id("vec"), tokens::pc('!'), TokV::Open(Delim::Bracket), TokV::Close(Delim::Bracket)]);
    tokens::extend_toks(dst, &k5);
    assert(tokens::toks(r@) =~= plain_ctx());
    r
}

impl ReplyData {
    /// Appends the signature of the methods attaching the reply id to a sub-message.
    fn push_submsg_sig(&self, dst: &mut Vec<Tok>, variants: &Vec<MsgVariant>, sylvia: &Vec<Tok>)
        requires
            reply::data_indices_valid(variants_view(variants@), self@),
        ensures
            tokens::toks(final(dst)@) == tokens::toks(old(dst)@) + submsg_sig(variants_view(variants@), self@, tokens::toks(sylvia@)),
    {
        let ghost s0 = tokens::toks(dst@);
        let v = &variants[self.variant];
        assert(variants_view(variants@)[self.variant as int] == v@);

        let k6: Vec<Tok> = vec![Tok::ident("fn")];
        assert(tokens::toks(k6@) =~= seq![tokens::id("fn")]);
        tokens::extend_toks(dst, &k6);
        tokens::push_tok(dst, Tok::Ident(handler_id_exec(variants, self)));
        let k7: Vec<Tok> = vec![Tok::Open(Delim::Paren), Tok::ident("self"), Tok::Punct(',')];
        assert(tokens::toks(k7@) =~= seq![TokV::Open(Delim::Paren), tokens::id("self"), tokens::pc(',')]);
        tokens::extend_toks(dst, &k7);
        push_comma_params(dst, v, self.payload_from);
        let k8: Vec<Tok> = vec![Tok::Close(Delim::Paren), Tok::Punct('-'), Tok::Punct('>')];
        assert(tokens::toks(k8@) =~= seq![TokV::Close(Delim::Paren), tokens::pc('-'), tokens::pc('>')]);
        tokens::extend_toks(dst, &k8);
        msg_type::push_cw_std_item(dst, sylvia, "StdResult");
        let k9: Vec<Tok> = vec![Tok::Punct('<')];
        assert(tokens::toks(k9@) =~= seq![tokens::pc('<')]);
        tokens::extend_toks(dst, &k9);
        msg_type::push_cw_std_item(dst, sylvia, "SubMsg");
        let k10: Vec<Tok> = vec![Tok::Punct('<'), Tok::ident("CustomMsgT"), Tok::Punct('>'), Tok::Punct('>')];
        assert(tokens::toks(k10@) =~= seq![tokens::pc('<'), tokens::id("CustomMsgT"), tokens::pc('>'), tokens::pc('>')]);
        tokens::extend_toks(dst, &k10);
        assert(fields_from(v@, self.payload_from as int) =~= payload_fields(variants_view(variants@), self@));
        assert(tokens::toks(dst@) =~= s0 + submsg_sig(variants_view(variants@), self@, tokens::toks(sylvia@)));
    }

    /// The declaration of the method attaching the reply id to a sub-message.
    pub fn emit_submsg_trait_method(&self, variants: &Vec<MsgVariant>, sylvia: &Vec<Tok>) -> (r: Vec<Tok>)
        requires
            reply::data_indices_valid(variants_view(variants@), self@),
        ensures
            tokens::toks(r@) == submsg_trait_method(variants_view(variants@), self@, tokens::toks(sylvia@)),
    {
        let mut r: Vec<Tok> = Vec::new();
        self.push_submsg_sig(&mut r, variants, sylvia);
        tokens::push_punct(&mut r, ';');
        assert(tokens::toks(r@) =~= submsg_trait_method(variants_view(variants@), self@, tokens::toks(sylvia@)));
        r
    }

    /// The method setting the reply id, its `ReplyOn` and the payload on a sub-message.
    pub fn emit_submsg_setter(&self, variants: &Vec<MsgVariant>, sylvia: &Vec<Tok>) -> (r: Vec<Tok>)
        requires
            reply::data_indices_valid(variants_view(variants@), self@),
        ensures
            tokens::toks(r@) == submsg_setter(variants_view(variants@), self@, tokens::toks(sylvia@)),
    {
        let mut r: Vec<Tok> = Vec::new();
        let dst = &mut r;
        let v = &variants[self.variant];
        assert(variants_view(variants@)[self.variant as int] == v@);

        self.push_submsg_sig(dst, variants, sylvia);
        let k11: Vec<Tok> = vec![Tok::Open(Delim::Brace)];
        assert(tokens::toks(k11@) =~= seq![TokV::Open(Delim::Brace)]);
        tokens::extend_toks(dst, &k11);
        let ser = self.emit_payload_serialization(variants, sylvia);
        tokens::extend_toks(dst, &ser);
        let k12: Vec<Tok> = vec![Tok::ident("Ok"), Tok::Open(Delim::Paren)];
        assert(tokens::toks(k12@) =~= seq![tokens::id("Ok"), TokV::Open(Delim::Paren)]);
        tokens::extend_toks(dst, &k12);
        msg_type::push_cw_std_item(dst, sylvia, "SubMsg");
        let k13: Vec<Tok> = vec![Tok::Open(Delim::Brace), Tok::ident("reply_on"), Tok::Punct(':')];
        assert(tokens::toks(k13@) =~= seq![TokV::Open(Delim::Brace), tokens::id("reply_on"), tokens::pc(':')]);
        tokens::extend_toks(dst, &k13);
        let on = self.emit_cw_reply_on(sylvia);
        tokens::extend_toks(dst, &on);
        let k14: Vec<Tok> = vec![Tok::Punct(','), Tok::ident("id"), Tok::Punct(':')];
        assert(tokens::toks(k14@) =~= seq![tokens::pc(','), tokens::id("id"), tokens::pc(':')]);
        tokens::extend_toks(dst, &k14);
        tokens::push_tok(dst, Tok::Ident(self.reply_id.clone()));
        let k15: Vec<Tok> = vec![Tok::Punct(','), Tok::ident("payload"), Tok::Punct(','), Tok::Punct('.'), Tok::Punct('.'), Tok::ident("self"), Tok::Close(Delim::Brace), Tok::Close(Delim::Paren), Tok::Close(Delim::Brace)];
        assert(tokens::toks(k15@) =~= seq![tokens::pc(','), tokens::id("payload"), tokens::pc(','), tokens::pc('.'), tokens::pc('.'), tokens::id("self"), TokV::Close(Delim::Brace), TokV::Close(Delim::Paren), TokV::Close(Delim::Brace)]);
        tokens::extend_toks(dst, &k15);
        assert(tokens::toks(r@) =~= submsg_setter(variants_view(variants@), self@, tokens::toks(sylvia@)));
        r
    }

    /// The method turning a message into a sub-message with the reply id,
    /// its `ReplyOn` and the payload.
    pub fn emit_submsg_converter(&self, variants: &Vec<MsgVariant>, sylvia: &Vec<Tok>) -> (r: Vec<Tok>)
        requires
            reply::data_indices_valid(variants_view(variants@), self@),
        ensures
            tokens::toks(r@) == submsg_converter(variants_view(variants@), self@, tokens::toks(sylvia@)),
    {
        let mut r: Vec<Tok> = Vec::new();
        let dst = &mut r;
        let v = &variants[self.variant];
        assert(variants_view(variants@)[self.variant as int] == v@);

        self.push_submsg_sig(dst, variants, sylvia);
        let k16: Vec<Tok> = vec![Tok::Open(Delim::Brace)];
        assert(tokens::toks(k16@) =~= seq![TokV::Open(Delim::Brace)]);
        tokens::extend_toks(dst, &k16);
        let ser = self.emit_payload_serialization(variants, sylvia);
        tokens::extend_toks(dst, &ser);
        let k17: Vec<Tok> = vec![Tok::ident("Ok"), Tok::Open(Delim::Paren)];
        assert(tokens::toks(k17@) =~= seq![tokens::id("Ok"), TokV::Open(Delim::Paren)]);
        tokens::extend_toks(dst, &k17);
        msg_type::push_cw_std_item(dst, sylvia, "SubMsg");
        let k18: Vec<Tok> = vec![Tok::Open(Delim::Brace), Tok::ident("reply_on"), Tok::Punct(':')];
        assert(tokens::toks(k18@) =~= seq![TokV::Open(Delim::Brace), tokens::id("reply_on"), tokens::pc(':')]);
        tokens::extend_toks(dst, &k18);
        let on = self.emit_cw_reply_on(sylvia);
        tokens::extend_toks(dst, &on);
        let k19: Vec<Tok> = vec![Tok::Punct(','), Tok::ident("id"), Tok::Punct(':')];
        assert(tokens::toks(k19@) =~= seq![tokens::pc(','), tokens::id("id"), tokens::pc(':')]);
        tokens::extend_toks(dst, &k19);
        tokens::push_tok(dst, Tok::Ident(self.reply_id.clone()));
        let k20: Vec<Tok> = vec![Tok::Punct(','), Tok::ident("msg"), Tok::Punct(':'), Tok::ident("self"), Tok::Punct('.'), Tok::ident("into"), Tok::Open(Delim::Paren), Tok::Close(Delim::Paren), Tok::Punct(','), Tok::ident("payload"), Tok::Punct(','), Tok::ident("gas_limit"), Tok::Punct(':'), Tok::ident("None"), Tok::Punct(','), Tok::Close(Delim::Brace), Tok::Close(Delim::Paren), Tok::Close(Delim::Brace)];
        assert(tokens::toks(k20@) =~= seq![tokens::pc(','), tokens::id("msg"), tokens::pc(':'), tokens::id("self"), tokens::pc('.'), tokens::id("into"), TokV::Open(Delim::Paren), TokV::Close(Delim::Paren), tokens::pc(','), tokens::id("payload"), tokens::pc(','), tokens::id("gas_limit"), tokens::pc(':'), tokens::id("None"), tokens::pc(','), TokV::Close(Delim::Brace), TokV::Close(Delim::Paren), TokV::Close(Delim::Brace)]);
        tokens::extend_toks(dst, &k20);
        assert(tokens::toks(r@) =~= submsg_converter(variants_view(variants@), self@, tokens::toks(sylvia@)));
        r
    }

    /// The deserialization of the data parameter, when the handlers take one.
    fn emit_data_deser(&self, variants: &Vec<MsgVariant>, sylvia: &Vec<Tok>) -> (r: Vec<Tok>)
        requires
            reply::data_indices_valid(variants_view(variants@), self@),
        ensures
            tokens::toks(r@) == data_deser(variants_view(variants@), self@, tokens::toks(sylvia@)),
    {
        let v = &variants[self.variant];
        assert(variants_view(variants@)[self.variant as int] == v@);
        match self.data {
            Some(x) => {
                assert(v@.fields[x as int] == v.fields@[x as int]@);
                v.fields[x].emit_data_deserialization(sylvia)
            },
            None => {
                let r: Vec<Tok> = Vec::new();
                assert(tokens::toks(r@) =~= Seq::<TokV>::empty());
                r
            },
        }
    }

    /// The arm of a successful reply.
    pub fn emit_success_match_arm(&self, variants: &Vec<MsgVariant>, sylvia: &Vec<Tok>, turbo: &Vec<Tok>) -> (r: Vec<Tok>)
        requires
            reply::data_indices_valid(variants_view(variants@), self@),
        ensures
            tokens::toks(r@) == success_arm(variants_view(variants@), self@, tokens::toks(sylvia@), tokens::toks(turbo@)),
    {
        let ghost vs = variants_view(variants@);
        let mut r: Vec<Tok> = Vec::new();
        let dst = &mut r;
        proof {
            lemma_first_handler_in(self@.handlers, ReplyOn::Success);
        }
        match self.success_handler() {
            Some((m, on)) => {
                proof {
                    let q = choose|q: int| 0 <= q < self@.handlers.len() && self@.handlers[q] == (m, on);
                    assert(self@.handlers[q].0 < vs.len());
                }
                let method = &variants[m].function_name;
                assert(vs[m as int].function_name == method@);
                if on == ReplyOn::Success {

                    push_result_arm_head(dst, sylvia, "Ok", "sub_msg_resp");
                    let k21: Vec<Tok> = vec![Tok::Punct('#'), Tok::Open(Delim::Bracket), Tok::ident("allow"), Tok::Open(Delim::Paren), Tok::ident("deprecated"), Tok::Close(Delim::Paren), Tok::Close(Delim::Bracket), Tok::ident("let")];
                    assert(tokens::toks(k21@) =~= seq![tokens::pc('#'), TokV::Open(Delim::Bracket), tokens::id("allow"), TokV::Open(Delim::Paren), tokens::id("deprecated"), TokV::Close(Delim::Paren), TokV::Close(Delim::Bracket), tokens::id("let")]);
                    tokens::extend_toks(dst, &k21);
                    msg_type::push_cw_std_item(dst, sylvia, "SubMsgResponse");
                    let k22: Vec<Tok> = vec![Tok::Open(Delim::Brace), Tok::ident("events"), Tok::Punct(','), Tok::ident("data"), Tok::Punct(','), Tok::ident("msg_responses"), Tok::Close(Delim::Brace), Tok::Punct('='), Tok::ident("sub_msg_resp"), Tok::Punct(';')];
                    assert(tokens::toks(k22@) =~= seq![TokV::Open(Delim::Brace), tokens::id("events"), tokens::pc(','), tokens::id("data"), tokens::pc(','), tokens::id("msg_responses"), TokV::Close(Delim::Brace), tokens::pc('='), tokens::id("sub_msg_resp"), tokens::pc(';')]);
                    tokens::extend_toks(dst, &k22);
                    let pd = self.emit_payload_deserialization(variants, sylvia);
                    tokens::extend_toks(dst, &pd);
                    let dd = self.emit_data_deser(variants, sylvia);
                    tokens::extend_toks(dst, &dd);
                    let ctx: Vec<Tok> = vec![Tok::ident("deps"), Tok::Punct(','), Tok::ident("env"), Tok::Punct(','), Tok::ident("gas_used"), Tok::Punct(','), Tok::ident("events"), Tok::Punct(','), Tok::ident("msg_responses")];
                    assert(tokens::toks(ctx@) =~= success_ctx());
                    let mut prefix: Vec<Tok> = Vec::new();
                    if self.data.is_some() {
                        tokens::push_ident(&mut prefix, "data");
                        tokens::push_punct(&mut prefix, ',');
                    }
                    assert(tokens::toks(prefix@) =~= data_arg(self@));
                    let args = names_after(prefix, variants, self);
                    push_call_handler(dst, turbo, method, &ctx, &args);
                    let k23: Vec<Tok> = vec![Tok::Close(Delim::Brace)];
                    assert(tokens::toks(k23@) =~= seq![TokV::Close(Delim::Brace)]);
                    tokens::extend_toks(dst, &k23);
                } else {

                    push_result_arm_head(dst, sylvia, "Ok", "_");
                    let pd = self.emit_payload_deserialization(variants, sylvia);
                    tokens::extend_toks(dst, &pd);
                    let ctx = plain_ctx_exec();
                    let prefix: Vec<Tok> = vec![Tok::ident("result"), Tok::Punct(',')];
                    assert(tokens::toks(prefix@) =~= seq![tokens::id("result"), tokens::pc(',')]);
                    let args = names_after(prefix, variants, self);
                    push_call_handler(dst, turbo, method, &ctx, &args);
                    let k24: Vec<Tok> = vec![Tok::Close(Delim::Brace)];
                    assert(tokens::toks(k24@) =~= seq![TokV::Close(Delim::Brace)]);
                    tokens::extend_toks(dst, &k24);
                }
            },
            None => {

                push_result_arm_head(dst, sylvia, "Ok", "sub_msg_resp");
                let k25: Vec<Tok> = vec![Tok::ident("let"), Tok::ident("mut"), Tok::ident("resp"), Tok::Punct('='), Tok::ident("sylvia"), Tok::Punct(':'), Tok::Punct(':'), Tok::ident("cw_std"), Tok::Punct(':'), Tok::Punct(':'), Tok::ident("Response"), Tok::Punct(':'), Tok::Punct(':'), Tok::ident("new"), Tok::Open(Delim::Paren), Tok::Close(Delim::Paren), Tok::Punct('.'), Tok::ident("add_events"), Tok::Open(Delim::Paren), Tok::ident("sub_msg_resp"), Tok::Punct('.'), Tok::ident("events"), Tok::Close(Delim::Paren), Tok::Punct(';')];
                assert(tokens::toks(k25@) =~= seq![tokens::id("let"), tokens::id("mut"), tokens::id("resp"), tokens::pc('='), tokens::id("sylvia"), tokens::pc(':'), tokens::pc(':'), tokens::id("cw_std"), tokens::pc(':'), tokens::pc(':'), tokens::id("Response"), tokens::pc(':'), tokens::pc(':'), tokens::id("new"), TokV::Open(Delim::Paren), TokV::Close(Delim::Paren), tokens::pc('.'), tokens::id("add_events"), TokV::Open(Delim::Paren), tokens::id("sub_msg_resp"), tokens::pc('.'), tokens::id("events"), TokV::Close(Delim::Paren), tokens::pc(';')]);
                tokens::extend_toks(dst, &k25);
                let k26: Vec<Tok> = vec![Tok::Punct('#'), Tok::Open(Delim::Bracket), Tok::ident("allow"), Tok::Open(Delim::Paren), Tok::ident("deprecated"), Tok::Close(Delim::Paren), Tok::Close(Delim::Bracket), Tok::ident("if"), Tok::ident("sub_msg_resp"), Tok::Punct('.'), Tok::ident("data"), Tok::Punct('.'), Tok::ident("is_some"), Tok::Open(Delim::Paren), Tok::Close(Delim::Paren), Tok::Open(Delim::Brace), Tok::ident("resp"), Tok::Punct('='), Tok::ident("resp"), Tok::Punct('.'), Tok::ident("set_data"), Tok::Open(Delim::Paren), Tok::ident("sub_msg_resp"), Tok::Punct('.')];
                assert(tokens::toks(k26@) =~= seq![tokens::pc('#'), TokV::Open(Delim::Bracket), tokens::id("allow"), TokV::Open(Delim::Paren), tokens::id("deprecated"), TokV::Close(Delim::Paren), TokV::Close(Delim::Bracket), tokens::id("if"), tokens::id("sub_msg_resp"), tokens::pc('.'), tokens::id("data"), tokens::pc('.'), tokens::id("is_some"), TokV::Open(Delim::Paren), TokV::Close(Delim::Paren), TokV::Open(Delim::Brace), tokens::id("resp"), tokens::pc('='), tokens::id("resp"), tokens::pc('.'), tokens::id("set_data"), TokV::Open(Delim::Paren), tokens::id("sub_msg_resp"), tokens::pc('.')]);
                tokens::extend_toks(dst, &k26);
                let k27: Vec<Tok> = vec![Tok::ident("data"), Tok::Punct('.'), Tok::ident("unwrap"), Tok::Open(Delim::Paren), Tok::Close(Delim::Paren), Tok::Close(Delim::Paren), Tok::Punct(';'), Tok::Close(Delim::Brace), Tok::ident("Ok"), Tok::Open(Delim::Paren), Tok::ident("resp"), Tok::Close(Delim::Paren), Tok::Close(Delim::Brace)];
                assert(tokens::toks(k27@) =~= seq![tokens::id("data"), tokens::pc('.'), tokens::id("unwrap"), TokV::Open(Delim::Paren), TokV::Close(Delim::Paren), TokV::Close(Delim::Paren), tokens::pc(';'), TokV::Close(Delim::Brace), tokens::id("Ok"), TokV::Open(Delim::Paren), tokens::id("resp"), TokV::Close(Delim::Paren), TokV::Close(Delim::Brace)]);
                tokens::extend_toks(dst, &k27);
            },
        }
        assert(tokens::toks(r@) =~= success_arm(vs, self@, tokens::toks(sylvia@), tokens::toks(turbo@)));
        r
    }

    /// The arm of a failed reply.
    pub fn emit_error_match_arm(&self, variants: &Vec<MsgVariant>, sylvia: &Vec<Tok>, turbo: &Vec<Tok>) -> (r: Vec<Tok>)
        requires
            reply::data_indices_valid(variants_view(variants@), self@),
        ensures
            tokens::toks(r@) == error_arm(variants_view(variants@), self@, tokens::toks(sylvia@), tokens::toks(turbo@)),
    {
        let ghost vs = variants_view(variants@);
        let mut r: Vec<Tok> = Vec::new();
        let dst = &mut r;
        proof {
            lemma_first_handler_in(self@.handlers, ReplyOn::Error);
        }
        match self.error_handler() {
            Some((m, on)) => {
                proof {
                    let q = choose|q: int| 0 <= q < self@.handlers.len() && self@.handlers[q] == (m, on);
                    assert(self@.handlers[q].0 < vs.len());
                }
                let method = &variants[m].function_name;
                assert(vs[m as int].function_name == method@);
                let binding = if on == ReplyOn::Error { "error" } else { "_" };
                let first = if on == ReplyOn::Error { "error" } else { "result" };
                proof {
                    reveal_strlit("error");
                    reveal_strlit("_");
                    reveal_strlit("result");
                }
                let ghost s0 = tokens::toks(dst@);
                push_result_arm_head(dst, sylvia, "Err", binding);
                let pd = self.emit_payload_deserialization(variants, sylvia);
                tokens::extend_toks(dst, &pd);
                let ctx = plain_ctx_exec();
                let mut prefix: Vec<Tok> = Vec::new();
                tokens::push_ident(&mut prefix, first);
                tokens::push_punct(&mut prefix, ',');
                let args = names_after(prefix, variants, self);
                push_call_handler(dst, turbo, method, &ctx, &args);
                tokens::push_tok(dst, Tok::Close(Delim::Brace));
                if on == ReplyOn::Error {
                    assert(tokens::toks(r@) =~= error_arm(vs, self@, tokens::toks(sylvia@), tokens::toks(turbo@)));
                } else {
                    assert(tokens::toks(r@) =~= error_arm(vs, self@, tokens::toks(sylvia@), tokens::toks(turbo@)));
                }
            },
            None => {

                push_result_arm_head(dst, sylvia, "Err", "error");
                let k28: Vec<Tok> = vec![Tok::ident("Err"), Tok::Open(Delim::Paren), Tok::ident("sylvia"), Tok::Punct(':'), Tok::Punct(':'), Tok::ident("cw_std"), Tok::Punct(':'), Tok::Punct(':'), Tok::ident("StdError"), Tok::Punct(':'), Tok::Punct(':'), Tok::ident("generic_err"), Tok::Open(Delim::Paren), Tok::ident("error"), Tok::Close(Delim::Paren), Tok::Close(Delim::Paren), Tok::Punct('.'), Tok::ident("map_err"), Tok::Open(Delim::Paren), Tok::ident("Into"), Tok::Punct(':'), Tok::Punct(':'), Tok::ident("into"), Tok::Close(Delim::Paren)];
                assert(tokens::toks(k28@) =~= seq![tokens::id("Err"), TokV::Open(Delim::Paren), tokens::id("sylvia"), tokens::pc(':'), tokens::pc(':'), tokens::id("cw_std"), tokens::pc(':'), tokens::pc(':'), tokens::id("StdError"), tokens::pc(':'), tokens::pc(':'), tokens::id("generic_err"), TokV::Open(Delim::Paren), tokens::id("error"), TokV::Close(Delim::Paren), TokV::Close(Delim::Paren), tokens::pc('.'), tokens::id("map_err"), TokV::Open(Delim::Paren), tokens::id("Into"), tokens::pc(':'), tokens::pc(':'), tokens::id("into"), TokV::Close(Delim::Paren)]);
                tokens::extend_toks(dst, &k28);
                let k29: Vec<Tok> = vec![Tok::Close(Delim::Brace)];
                assert(tokens::toks(k29@) =~= seq![TokV::Close(Delim::Brace)]);
                tokens::extend_toks(dst, &k29);
                assert(tokens::toks(r@) =~= error_arm(vs, self@, tokens::toks(sylvia@), tokens::toks(turbo@)));
            },
        }
        r
    }

    /// `REPLY_ID => { match result { .. } }`: the dispatch of the replies with this reply id.
    pub fn emit_match_arms(&self, variants: &Vec<MsgVariant>, sylvia: &Vec<Tok>, turbo: &Vec<Tok>) -> (r: Vec<Tok>)
        requires
            reply::data_indices_valid(variants_view(variants@), self@),
        ensures
            tokens::toks(r@) == match_arm(variants_view(variants@), self@, tokens::toks(sylvia@), tokens::toks(turbo@)),
    {
        let mut r: Vec<Tok> = Vec::new();
        tokens::push_tok(&mut r, Tok::Ident(self.reply_id.clone()));
        tokens::push_punct(&mut r, '=');
        tokens::push_punct(&mut r, '>');
        tokens::push_tok(&mut r, Tok::Open(Delim::Brace));
        tokens::push_ident(&mut r, "match");
        tokens::push_ident(&mut r, "result");
        tokens::push_tok(&mut r, Tok::Open(Delim::Brace));
        let ghost s0 = tokens::toks(r@);
        let s = self.emit_success_match_arm(variants, sylvia, turbo);
        tokens::extend_toks(&mut r, &s);
        let e = self.emit_error_match_arm(variants, sylvia, turbo);
        tokens::extend_toks(&mut r, &e);
        tokens::push_tok(&mut r, Tok::Close(Delim::Brace));
        tokens::push_tok(&mut r, Tok::Close(Delim::Brace));
        assert(tokens::toks(r@) =~= match_arm(variants_view(variants@), self@, tokens::toks(sylvia@), tokens::toks(turbo@)));
        r
    }
}

/// The reply handling of a contract: what its code is generated from.
#[derive(Debug)]
pub struct Reply {
    /// The contract type, as the implementation names it.
    pub contract: Vec<Tok>,
    /// The generic parameters of the implementation.
    pub generics: Vec<Vec<Tok>>,
    /// The where clause of the implementation, or nothing.
    pub where_clause: Vec<Tok>,
    /// The methods handling replies.
    pub variants: Vec<MsgVariant>,
    /// The planned reply ids.
    pub reply_data: Vec<ReplyData>,
    pub error: Vec<Tok>,
}

pub struct ReplyV {
    pub contract: Seq<TokV>,
    pub generics: Seq<Seq<TokV>>,
    pub where_clause: Seq<TokV>,
    pub variants: Seq<MsgVariantV>,
    pub datas: Seq<ReplyDataV>,
    pub error: Seq<TokV>,
}

impl View for Reply {
    type V = ReplyV;

    open spec fn view(&self) -> ReplyV {
        ReplyV {
            contract: tokens::toks(self.contract@),
            generics: parser::toks2(self.generics@),
            where_clause: tokens::toks(self.where_clause@),
            variants: variants_view(self.variants@),
            datas: datas_view(self.reply_data@),
            error: tokens::toks(self.error@),
        }
    }
}

/// The contract type in expression position, without its generic arguments
/// and with the implementation's generics: the type on which handlers are called.
pub open spec fn reply_turbo(r: ReplyV) -> Seq<TokV> {
    contract_turbo(parser::strip_angles(r.contract, 0, r.contract.len() as int, 0), r.generics)
}

/// The constants of the reply ids: the i-th planned reply id has the value i.
pub open spec fn reply_id_consts(ds: Seq<ReplyDataV>) -> Seq<TokV> {
    tokens::concat(Seq::new(ds.len(), |i: int| reply_id_const(ds[i].reply_id, i as nat)))
}

/// The arms of the dispatch, one per reply id, each followed by a comma.
pub open spec fn match_arms(r: ReplyV, sylvia: Seq<TokV>) -> Seq<TokV> {
    tokens::concat(
        Seq::new(r.datas.len(), |i: int| match_arm(r.variants, r.datas[i], sylvia, reply_turbo(r)) + seq![tokens::pc(',')]),
    )
}

/// For each reply id: the method declarations (`kind` 0), the setters on
/// sub-messages (1), or the converters of messages (2).
pub open spec fn submsg_items(r: ReplyV, sylvia: Seq<TokV>, kind: int) -> Seq<TokV> {
    tokens::concat(
        Seq::new(
            r.datas.len(),
            |i: int|
                if kind == 0 {
                    submsg_trait_method(r.variants, r.datas[i], sylvia)
                } else if kind == 1 {
                    submsg_setter(r.variants, r.datas[i], sylvia)
                } else {
                    submsg_converter(r.variants, r.datas[i], sylvia)
                },
        ),
    )
}

/// `pub fn dispatch_reply<..>(ctx, msg: Reply, contract: Contract) -> Result
/// { match id { arms, _ => unknown reply id error } }`
pub open spec fn dispatch_reply(r: ReplyV, sylvia: Seq<TokV>) -> Seq<TokV> {
    seq![tokens::id("pub"), tokens::id("fn"), tokens::id("dispatch_reply"), tokens::pc('<')] + comma_join(r.generics) + seq![tokens::pc('>'), TokV::Open(Delim::Paren)] + msg_type::ctx_params(MsgType::Reply, sylvia, contract_api_item(sylvia, r.contract, "CustomQuery"@)) + seq![tokens::pc(','), tokens::id("msg"), tokens::pc(':')] + msg_type::cw_std_item(sylvia, "Reply") + seq![tokens::pc(','), tokens::id("contract"), tokens::pc(':')] + r.contract + seq![TokV::Close(Delim::Paren), tokens::pc('-'), tokens::pc('>')] + msg_type::result_type(MsgType::Reply, sylvia, contract_api_item(sylvia, r.contract, "CustomMsg"@), r.error) + r.where_clause + seq![TokV::Open(Delim::Brace), tokens::id("let")] + msg_type::cw_std_item(sylvia, "Reply") + seq![TokV::Open(Delim::Brace), tokens::id("id"), tokens::pc(','), tokens::id("payload"), tokens::pc(','), tokens::id("gas_used"), tokens::pc(','), tokens::id("result"), tokens::pc(','), TokV::Close(Delim::Brace), tokens::pc('='), tokens::id("msg"), tokens::pc(';'), tokens::id("match"), tokens::id("id"), TokV::Open(Delim::Brace)] + match_arms(r, sylvia) + seq![tokens::id("_"), tokens::pc('='), tokens::pc('>'), TokV::Open(Delim::Brace), tokens::id("let"), tokens::id("err_msg"), tokens::pc('='), tokens::id("format"), tokens::pc('!'), TokV::Open(Delim::Paren), TokV::Lit("\"Unknown reply id: {}.\""@), tokens::pc(','), tokens::id("id"), TokV::Close(Delim::Paren), tokens::pc(';'), tokens::id("Err"), TokV::Open(Delim::Paren)] + crate::reply::generic_err(sylvia, seq![tokens::id("err_msg")]) + seq![TokV::Close(Delim::Paren), tokens::pc('.'), tokens::id("map_err"), TokV::Open(Delim::Paren), tokens::id("Into"), tokens::pc(':'), tokens::pc(':'), tokens::id("into"), TokV::Close(Delim::Paren), TokV::Close(Delim::Brace), TokV::Close(Delim::Brace), TokV::Close(Delim::Brace)]
}

/// The trait `SubMsgMethods` with a method per reply id, implemented for
/// sub-messages, wasm messages and cosmos messages.
pub open spec fn sub_msg_trait(r: ReplyV, sylvia: Seq<TokV>) -> Seq<TokV> {
    seq![tokens::id("pub"), tokens::id("trait"), tokens::id("SubMsgMethods"), tokens::pc('<'), tokens::id("CustomMsgT"), tokens::pc('>'), TokV::Open(Delim::Brace)] + submsg_items(r, sylvia, 0) + seq![TokV::Close(Delim::Brace), tokens::id("impl"), tokens::pc('<'), tokens::id("CustomMsgT"), tokens::pc('>'), tokens::id("SubMsgMethods"), tokens::pc('<'), tokens::id("CustomMsgT"), tokens::pc('>'), tokens::id("for")] + msg_type::cw_std_item(sylvia, "SubMsg") + seq![tokens::pc('<'), tokens::id("CustomMsgT"), tokens::pc('>'), TokV::Open(Delim::Brace)] + submsg_items(r, sylvia, 1) + seq![TokV::Close(Delim::Brace), tokens::id("impl"), tokens::pc('<'), tokens::id("CustomMsgT"), tokens::pc('>'), tokens::id("SubMsgMethods"), tokens::pc('<'), tokens::id("CustomMsgT"), tokens::pc('>'), tokens::id("for")] + msg_type::cw_std_item(sylvia, "WasmMsg") + seq![TokV::Open(Delim::Brace)] + submsg_items(r, sylvia, 2) + seq![TokV::Close(Delim::Brace), tokens::id("impl"), tokens::pc('<'), tokens::id("CustomMsgT"), tokens::pc('>'), tokens::id("SubMsgMethods"), tokens::pc('<'), tokens::id("CustomMsgT"), tokens::pc('>'), tokens::id("for")] + msg_type::cw_std_item(sylvia, "CosmosMsg") + seq![tokens::pc('<'), tokens::id("CustomMsgT"), tokens::pc('>'), TokV::Open(Delim::Brace)] + submsg_items(r, sylvia, 2) + seq![TokV::Close(Delim::Brace)]
}

/// The whole reply handling: the reply id constants, the dispatch, and the
/// trait attaching reply ids to sub-messages.
pub open spec fn reply_code(r: ReplyV, sylvia: Seq<TokV>) -> Seq<TokV> {
    reply_id_consts(r.datas) + dispatch_reply(r, sylvia) + sub_msg_trait(r, sylvia)
}

impl Reply {
    /// Well formed: the planned reply ids point into the methods.
    pub open spec fn wf(&self) -> bool {
        reply::indices_valid(self@.variants, self@.datas)
    }

    /// The reply handling of a contract with the type `contract`, the
    /// generics and where clause of its implementation, the reply handlers
    /// `variants` and the error type `error`; reports the errors of the plan.
    pub fn new(
        contract: Vec<Tok>,
        generics: Vec<Vec<Tok>>,
        where_clause: Vec<Tok>,
        variants: Vec<MsgVariant>,
        error: Vec<Tok>,
    ) -> (r: (Reply, Vec<Diag>))
        ensures
            r.0.wf(),
            r.0@.contract == tokens::toks(contract@),
            r.0@.generics == parser::toks2(generics@),
            r.0@.where_clause == tokens::toks(where_clause@),
            r.0@.variants == variants_view(variants@),
            r.0@.datas == reply::reply_plan(variants_view(variants@)).0,
            r.0@.error == tokens::toks(error@),
            r.1@ == reply::reply_plan(variants_view(variants@)).1,
    {
        let (reply_data, diags) = reply::as_reply_data(&variants);
        (Reply { contract, generics, where_clause, variants, reply_data, error }, diags)
    }

    /// The contract type in expression position.
    fn turbo(&self) -> (t: Vec<Tok>)
        ensures
            tokens::toks(t@) == reply_turbo(self@),
    {
        let mut t = parser::strip_generics(&self.contract, 0, self.contract.len());
        if self.generics.len() > 0 {
            tokens::push_punct(&mut t, ':');
            tokens::push_punct(&mut t, ':');
            tokens::push_punct(&mut t, '<');
            associated_types::push_comma_joined(&mut t, &self.generics);
            tokens::push_punct(&mut t, '>');
        }
        assert(tokens::toks(t@) =~= reply_turbo(self@));
        t
    }

    /// The constants of the reply ids.
    pub fn emit_reply_ids(&self) -> (r: Vec<Tok>)
        ensures
            tokens::toks(r@) == reply_id_consts(self@.datas),
    {
        let ghost ds = self@.datas;
        let ghost ps = Seq::new(ds.len(), |i: int| reply_id_const(ds[i].reply_id, i as nat));
        let mut r: Vec<Tok> = Vec::new();
        let mut k: usize = 0;
        assert(ps.take(0) =~= Seq::<Seq<TokV>>::empty());
        assert(tokens::toks(r@) =~= tokens::concat(ps.take(0)));
        while k < self.reply_data.len()
            invariant
                ds == self@.datas,
                ps == Seq::new(ds.len(), |i: int| reply_id_const(ds[i].reply_id, i as nat)),
                k <= self.reply_data.len(),
                tokens::toks(r@) == tokens::concat(ps.take(k as int)),
            decreases self.reply_data.len() - k,
        {
            let ghost s0 = tokens::toks(r@);
            let mut lit = String::new();
            push_decimal(&mut lit, k as u64);
            lit.append("u64");
            tokens::push_ident(&mut r, "pub");
            tokens::push_ident(&mut r, "const");
            tokens::push_tok(&mut r, Tok::Ident(self.reply_data[k].reply_id.clone()));
            tokens::push_punct(&mut r, ':');
            tokens::push_ident(&mut r, "u64");
            tokens::push_punct(&mut r, '=');
            tokens::push_tok(&mut r, Tok::Lit(lit));
            tokens::push_punct(&mut r, ';');
            assert(ds[k as int] == self.reply_data@[k as int]@);
            proof {
                reveal_strlit("u64");
            }
            assert(tokens::toks(r@) =~= s0 + ps[k as int]);
            assert(ps.take(k + 1).drop_last() =~= ps.take(k as int));
            k = k + 1;
        }
        assert(ps.take(k as int) =~= ps);
        r
    }

    /// Appends the arms of the dispatch.
    fn push_match_arms(&self, dst: &mut Vec<Tok>, sylvia: &Vec<Tok>)
        requires
            self.wf(),
        ensures
            tokens::toks(final(dst)@) == tokens::toks(old(dst)@) + match_arms(self@, tokens::toks(sylvia@)),
    {
        let ghost v = self@;
        let ghost sv = tokens::toks(sylvia@);
        let ghost ps = Seq::new(v.datas.len(), |i: int| match_arm(v.variants, v.datas[i], sv, reply_turbo(v)) + seq![tokens::pc(',')]);
        let ghost start = tokens::toks(dst@);
        let turbo = self.turbo();
        let mut k: usize = 0;
        assert(ps.take(0) =~= Seq::<Seq<TokV>>::empty());
        assert(tokens::toks(dst@) =~= start + tokens::concat(ps.take(0)));
        while k < self.reply_data.len()
            invariant
                v == self@,
                self.wf(),
                sv == tokens::toks(sylvia@),
                tokens::toks(turbo@) == reply_turbo(v),
                ps == Seq::new(v.datas.len(), |i: int| match_arm(v.variants, v.datas[i], sv, reply_turbo(v)) + seq![tokens::pc(',')]),
                k <= self.reply_data.len(),
                tokens::toks(dst@) == start + tokens::concat(ps.take(k as int)),
            decreases self.reply_data.len() - k,
        {
            let ghost s0 = tokens::toks(dst@);
            assert(v.datas[k as int] == self.reply_data@[k as int]@);
            assert(reply::data_indices_valid(v.variants, v.datas[k as int]));
            let a = self.reply_data[k].emit_match_arms(&self.variants, sylvia, &turbo);
            tokens::extend_toks(dst, &a);
            tokens::push_punct(dst, ',');
            assert(tokens::toks(dst@) =~= s0 + ps[k as int]);
            assert(ps.take(k + 1).drop_last() =~= ps.take(k as int));
            k = k + 1;
        }
        assert(ps.take(k as int) =~= ps);
    }

    /// Appends, for each reply id, the method declarations (`kind` 0), the
    /// setters (1) or the converters (2).
    fn push_submsg_items(&self, dst: &mut Vec<Tok>, sylvia: &Vec<Tok>, kind: u8)
        requires
            self.wf(),
        ensures
            tokens::toks(final(dst)@) == tokens::toks(old(dst)@) + submsg_items(self@, tokens::toks(sylvia@), kind as int),
    {
        let ghost v = self@;
        let ghost sv = tokens::toks(sylvia@);
        let ghost kd = kind as int;
        let ghost ps = Seq::new(
            v.datas.len(),
            |i: int|
                if kd == 0 {
                    submsg_trait_method(v.variants, v.datas[i], sv)
                } else if kd == 1 {
                    submsg_setter(v.variants, v.datas[i], sv)
                } else {
                    submsg_converter(v.variants, v.datas[i], sv)
                },
        );
        let ghost start = tokens::toks(dst@);
        let mut k: usize = 0;
        assert(ps.take(0) =~= Seq::<Seq<TokV>>::empty());
        assert(tokens::toks(dst@) =~= start + tokens::concat(ps.take(0)));
        while k < self.reply_data.len()
            invariant
                v == self@,
                self.wf(),
                sv == tokens::toks(sylvia@),
                kd == kind as int,
                ps == Seq::new(
                    v.datas.len(),
                    |i: int|
                        if kd == 0 {
                            submsg_trait_method(v.variants, v.datas[i], sv)
                        } else if kd == 1 {
                            submsg_setter(v.variants, v.datas[i], sv)
                        } else {
                            submsg_converter(v.variants, v.datas[i], sv)
                        },
                ),
                k <= self.reply_data.len(),
                tokens::toks(dst@) == start + tokens::concat(ps.take(k as int)),
            decreases self.reply_data.len() - k,
        {
            let ghost s0 = tokens::toks(dst@);
            assert(v.datas[k as int] == self.reply_data@[k as int]@);
            assert(reply::data_indices_valid(v.variants, v.datas[k as int]));
            let a = if kind == 0 {
                self.reply_data[k].emit_submsg_trait_method(&self.variants, sylvia)
            } else if kind == 1 {
                self.reply_data[k].emit_submsg_setter(&self.variants, sylvia)
            } else {
                self.reply_data[k].emit_submsg_converter(&self.variants, sylvia)
            };
            tokens::extend_toks(dst, &a);
            assert(tokens::toks(dst@) =~= s0 + ps[k as int]);
            assert(ps.take(k + 1).drop_last() =~= ps.take(k as int));
            k = k + 1;
        }
        assert(ps.take(k as int) =~= ps);
    }

    /// The dispatch of replies to their handlers by reply id.
    pub fn emit_dispatch(&self, sylvia: &Vec<Tok>) -> (r: Vec<Tok>)
        requires
            self.wf(),
        ensures
            tokens::toks(r@) == dispatch_reply(self@, tokens::toks(sylvia@)),
    {
        let ghost sv = tokens::toks(sylvia@);
        let mut custom_query: Vec<Tok> = Vec::new();
        crate::entry_points::push_contract_api_item(&mut custom_query, sylvia, &self.contract, String::from_str("CustomQuery"));
        let mut custom_msg: Vec<Tok> = Vec::new();
        crate::entry_points::push_contract_api_item(&mut custom_msg, sylvia, &self.contract, String::from_str("CustomMsg"));
        proof {
            reveal_strlit("CustomQuery");
            reveal_strlit("CustomMsg");
            assert(tokens::toks(custom_query@) =~= contract_api_item(sv, self@.contract, "CustomQuery"@));
            assert(tokens::toks(custom_msg@) =~= contract_api_item(sv, self@.contract, "CustomMsg"@));
        }
        let mut r: Vec<Tok> = Vec::new();
        let dst = &mut r;
        let k101: Vec<Tok> = vec![Tok::ident("pub"), Tok::ident("fn"), Tok::ident("dispatch_reply"), Tok::Punct('<')];
        assert(tokens::toks(k101@) =~= seq![tokens::id("pub"), tokens::id("fn"), tokens::id("dispatch_reply"), tokens::pc('<')]);
        tokens::extend_toks(dst, &k101);
        associated_types::push_comma_joined(dst, &self.generics);
        let k102: Vec<Tok> = vec![Tok::Punct('>'), Tok::Open(Delim::Paren)];
        assert(tokens::toks(k102@) =~= seq![tokens::pc('>'), TokV::Open(Delim::Paren)]);
        tokens::extend_toks(dst, &k102);
        let params = MsgType::Reply.emit_ctx_params(sylvia, &custom_query);
        tokens::extend_toks(dst, &params);
        let k103: Vec<Tok> = vec![Tok::Punct(','), Tok::ident("msg"), Tok::Punct(':')];
        assert(tokens::toks(k103@) =~= seq![tokens::pc(','), tokens::id("msg"), tokens::pc(':')]);
        tokens::extend_toks(dst, &k103);
        msg_type::push_cw_std_item(dst, sylvia, "Reply");
        let k104: Vec<Tok> = vec![Tok::Punct(','), Tok::ident("contract"), Tok::Punct(':')];
        assert(tokens::toks(k104@) =~= seq![tokens::pc(','), tokens::id("contract"), tokens::pc(':')]);
        tokens::extend_toks(dst, &k104);
        tokens::extend_toks(dst, &self.contract);
        let k105: Vec<Tok> = vec![Tok::Close(Delim::Paren), Tok::Punct('-'), Tok::Punct('>')];
        assert(tokens::toks(k105@) =~= seq![TokV::Close(Delim::Paren), tokens::pc('-'), tokens::pc('>')]);
        tokens::extend_toks(dst, &k105);
        let result = MsgType::Reply.emit_result_type(sylvia, &custom_msg, &self.error);
        tokens::extend_toks(dst, &result);
        tokens::extend_toks(dst, &self.where_clause);
        let k106: Vec<Tok> = vec![Tok::Open(Delim::Brace), Tok::ident("let")];
        assert(tokens::toks(k106@) =~= seq![TokV::Open(Delim::Brace), tokens::id("let")]);
        tokens::extend_toks(dst, &k106);
        msg_type::push_cw_std_item(dst, sylvia, "Reply");
        let k107: Vec<Tok> = vec![Tok::Open(Delim::Brace), Tok::ident("id"), Tok::Punct(','), Tok::ident("payload"), Tok::Punct(','), Tok::ident("gas_used"), Tok::Punct(','), Tok::ident("result"), Tok::Punct(','), Tok::Close(Delim::Brace), Tok::Punct('='), Tok::ident("msg"), Tok::Punct(';'), Tok::ident("match"), Tok::ident("id"), Tok::Open(Delim::Brace)];
        assert(tokens::toks(k107@) =~= seq![TokV::Open(Delim::Brace), tokens::id("id"), tokens::pc(','), tokens::id("payload"), tokens::pc(','), tokens::id("gas_used"), tokens::pc(','), tokens::id("result"), tokens::pc(','), TokV::Close(Delim::Brace), tokens::pc('='), tokens::id("msg"), tokens::pc(';'), tokens::id("match"), tokens::id("id"), TokV::Open(Delim::Brace)]);
        tokens::extend_toks(dst, &k107);
        self.push_match_arms(dst, sylvia);
        let k108: Vec<Tok> = vec![Tok::ident("_"), Tok::Punct('='), Tok::Punct('>'), Tok::Open(Delim::Brace), Tok::ident("let"), Tok::ident("err_msg"), Tok::Punct('='), Tok::ident("format"), Tok::Punct('!'), Tok::Open(Delim::Paren), Tok::Lit(String::from_str("\"Unknown reply id: {}.\"")), Tok::Punct(','), Tok::ident("id"), Tok::Close(Delim::Paren), Tok::Punct(';'), Tok::ident("Err"), Tok::Open(Delim::Paren)];
        assert(tokens::toks(k108@) =~= seq![tokens::id("_"), tokens::pc('='), tokens::pc('>'), TokV::Open(Delim::Brace), tokens::id("let"), tokens::id("err_msg"), tokens::pc('='), tokens::id("format"), tokens::pc('!'), TokV::Open(Delim::Paren), TokV::Lit("\"Unknown reply id: {}.\""@), tokens::pc(','), tokens::id("id"), TokV::Close(Delim::Paren), tokens::pc(';'), tokens::id("Err"), TokV::Open(Delim::Paren)]);
        tokens::extend_toks(dst, &k108);
        let em: Vec<Tok> = vec![Tok::ident("err_msg")];
        assert(tokens::toks(em@) =~= seq![tokens::id("err_msg")]);
        crate::reply::push_generic_err(dst, sylvia, &em);
        let k109: Vec<Tok> = vec![Tok::Close(Delim::Paren), Tok::Punct('.'), Tok::ident("map_err"), Tok::Open(Delim::Paren), Tok::ident("Into"), Tok::Punct(':'), Tok::Punct(':'), Tok::ident("into"), Tok::Close(Delim::Paren), Tok::Close(Delim::Brace), Tok::Close(Delim::Brace), Tok::Close(Delim::Brace)];
        assert(tokens::toks(k109@) =~= seq![TokV::Close(Delim::Paren), tokens::pc('.'), tokens::id("map_err"), TokV::Open(Delim::Paren), tokens::id("Into"), tokens::pc(':'), tokens::pc(':'), tokens::id("into"), TokV::Close(Delim::Paren), TokV::Close(Delim::Brace), TokV::Close(Delim::Brace), TokV::Close(Delim::Brace)]);
        tokens::extend_toks(dst, &k109);
        assert(tokens::toks(r@) =~= dispatch_reply(self@, sv));
        r
    }

    /// The trait attaching the reply ids to sub-messages, with its implementations.
    pub fn emit_sub_msg_trait(&self, sylvia: &Vec<Tok>) -> (r: Vec<Tok>)
        requires
            self.wf(),
        ensures
            tokens::toks(r@) == sub_msg_trait(self@, tokens::toks(sylvia@)),
    {
        let mut r: Vec<Tok> = Vec::new();
        let dst = &mut r;
        let k110: Vec<Tok> = vec![Tok::ident("pub"), Tok::ident("trait"), Tok::ident("SubMsgMethods"), Tok::Punct('<'), Tok::ident("CustomMsgT"), Tok::Punct('>'), Tok::Open(Delim::Brace)];
        assert(tokens::toks(k110@) =~= seq![tokens::id("pub"), tokens::id("trait"), tokens::id("SubMsgMethods"), tokens::pc('<'), tokens::id("CustomMsgT"), tokens::pc('>'), TokV::Open(Delim::Brace)]);
        tokens::extend_toks(dst, &k110);
        self.push_submsg_items(dst, sylvia, 0);
        let k111: Vec<Tok> = vec![Tok::Close(Delim::Brace), Tok::ident("impl"), Tok::Punct('<'), Tok::ident("CustomMsgT"), Tok::Punct('>'), Tok::ident("SubMsgMethods"), Tok::Punct('<'), Tok::ident("CustomMsgT"), Tok::Punct('>'), Tok::ident("for")];
        assert(tokens::toks(k111@) =~= seq![TokV::Close(Delim::Brace), tokens::id("impl"), tokens::pc('<'), tokens::id("CustomMsgT"), tokens::pc('>'), tokens::id("SubMsgMethods"), tokens::pc('<'), tokens::id("CustomMsgT"), tokens::pc('>'), tokens::id("for")]);
        tokens::extend_toks(dst, &k111);
        msg_type::push_cw_std_item(dst, sylvia, "SubMsg");
        let k112: Vec<Tok> = vec![Tok::Punct('<'), Tok::ident("CustomMsgT"), Tok::Punct('>'), Tok::Open(Delim::Brace)];
        assert(tokens::toks(k112@) =~= seq![tokens::pc('<'), tokens::id("CustomMsgT"), tokens::pc('>'), TokV::Open(Delim::Brace)]);
        tokens::extend_toks(dst, &k112);
        self.push_submsg_items(dst, sylvia, 1);
        let k113: Vec<Tok> = vec![Tok::Close(Delim::Brace), Tok::ident("impl"), Tok::Punct('<'), Tok::ident("CustomMsgT"), Tok::Punct('>'), Tok::ident("SubMsgMethods"), Tok::Punct('<'), Tok::ident("CustomMsgT"), Tok::Punct('>'), Tok::ident("for")];
        assert(tokens::toks(k113@) =~= seq![TokV::Close(Delim::Brace), tokens::id("impl"), tokens::pc('<'), tokens::id("CustomMsgT"), tokens::pc('>'), tokens::id("SubMsgMethods"), tokens::pc('<'), tokens::id("CustomMsgT"), tokens::pc('>'), tokens::id("for")]);
        tokens::extend_toks(dst, &k113);
        msg_type::push_cw_std_item(dst, sylvia, "WasmMsg");
        let k114: Vec<Tok> = vec![Tok::Open(Delim::Brace)];
        assert(tokens::toks(k114@) =~= seq![TokV::Open(Delim::Brace)]);
        tokens::extend_toks(dst, &k114);
        self.push_submsg_items(dst, sylvia, 2);
        let k115: Vec<Tok> = vec![Tok::Close(Delim::Brace), Tok::ident("impl"), Tok::Punct('<'), Tok::ident("CustomMsgT"), Tok::Punct('>'), Tok::ident("SubMsgMethods"), Tok::Punct('<'), Tok::ident("CustomMsgT"), Tok::Punct('>'), Tok::ident("for")];
        assert(tokens::toks(k115@) =~= seq![TokV::Close(Delim::Brace), tokens::id("impl"), tokens::pc('<'), tokens::id("CustomMsgT"), tokens::pc('>'), tokens::id("SubMsgMethods"), tokens::pc('<'), tokens::id("CustomMsgT"), tokens::pc('>'), tokens::id("for")]);
        tokens::extend_toks(dst, &k115);
        msg_type::push_cw_std_item(dst, sylvia, "CosmosMsg");
        let k116: Vec<Tok> = vec![Tok::Punct('<'), Tok::ident("CustomMsgT"), Tok::Punct('>'), Tok::Open(Delim::Brace)];
        assert(tokens::toks(k116@) =~= seq![tokens::pc('<'), tokens::id("CustomMsgT"), tokens::pc('>'), TokV::Open(Delim::Brace)]);
        tokens::extend_toks(dst, &k116);
        self.push_submsg_items(dst, sylvia, 2);
        let k117: Vec<Tok> = vec![Tok::Close(Delim::Brace)];
        assert(tokens::toks(k117@) =~= seq![TokV::Close(Delim::Brace)]);
        tokens::extend_toks(dst, &k117);
        assert(tokens::toks(r@) =~= sub_msg_trait(self@, tokens::toks(sylvia@)));
        r
    }

    /// The code of the reply handling of the contract.
    pub fn emit(&self, sylvia: &Vec<Tok>) -> (r: Vec<Tok>)
        requires
            self.wf(),
        ensures
            tokens::toks(r@) == reply_code(self@, tokens::toks(sylvia@)),
    {
        let mut r = self.emit_reply_ids();
        let d = self.emit_dispatch(sylvia);
        tokens::extend_toks(&mut r, &d);
        let t = self.emit_sub_msg_trait(sylvia);
        tokens::extend_toks(&mut r, &t);
        r
    }
}

} // verus!
