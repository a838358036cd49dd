//! The message enum of a contract for a kind with several messages
//! (execution, query, sudo): its variants, its dispatch to the contract's
//! methods and the sorted list of the names of its messages.
use vstd::prelude::*;
use vstd::relations::{sorted_by, total_ordering};
use vstd::string::StrSliceExecFns;
use crate::associated_types::{self, WhereClause, WherePredicateV};
use crate::case::{self, TextCase};
use crate::glue::usize_lit;
use crate::interfaces::{each_with_comma, messages_fn_name, push_each_with_comma};
use crate::msg_type::{self, cw_std_item, MsgType};
use crate::mt::{path3, push_path3};
use crate::parser::{self, ContractErrorAttr, Custom};
use crate::querier::{self, bracketed_generics, push_concat, where_value};
use crate::reply::{self, variant_name, MsgVariant, MsgVariantV};
use crate::reply_emit;
use crate::struct_msg::{forwarded_attrs, forwarded_attrs_exec};
use crate::tokens::{self, Delim, Tok, TokV};

verus! {

/// `a` is `b` or comes before it among strings: compared by the first
/// character where they differ, a prefix coming first.
pub open spec fn chars_le(a: Seq<char>, b: Seq<char>) -> bool
    decreases a.len(),
{
    if a.len() == 0 {
        true
    } else if b.len() == 0 {
        false
    } else if a[0] != b[0] {
        a[0] < b[0]
    } else {
        chars_le(a.drop_first(), b.drop_first())
    }
}

/// The order of strings, as a relation.
pub open spec fn name_order() -> spec_fn(Seq<char>, Seq<char>) -> bool {
    |a: Seq<char>, b: Seq<char>| chars_le(a, b)
}

/// The values of a sequence of strings.
pub open spec fn strings_view(v: Seq<String>) -> Seq<Seq<char>> {
    Seq::new(v.len(), |i: int| v[i]@)
}

proof fn lemma_chars_le_reflexive(a: Seq<char>)
    ensures
        chars_le(a, a),
    decreases a.len(),
{
    if a.len() > 0 {
        lemma_chars_le_reflexive(a.drop_first());
    }
}

proof fn lemma_chars_le_total(a: Seq<char>, b: Seq<char>)
    ensures
        chars_le(a, b) || chars_le(b, a),
    decreases a.len(),
{
    if a.len() > 0 && b.len() > 0 {
        if a[0] == b[0] {
            lemma_chars_le_total(a.drop_first(), b.drop_first());
        } else {
            assert(a[0] < b[0] || b[0] < a[0]);
        }
    }
}

proof fn lemma_chars_le_antisymmetric(a: Seq<char>, b: Seq<char>)
    requires
        chars_le(a, b),
        chars_le(b, a),
    ensures
        a == b,
    decreases a.len(),
{
    if a.len() > 0 {
        lemma_chars_le_antisymmetric(a.drop_first(), b.drop_first());
        assert(a =~= seq![a[0]] + a.drop_first());
        assert(b =~= seq![b[0]] + b.drop_first());
    } else {
        assert(a =~= b);
    }
}

proof fn lemma_chars_le_transitive(a: Seq<char>, b: Seq<char>, c: Seq<char>)
    requires
        chars_le(a, b),
        chars_le(b, c),
    ensures
        chars_le(a, c),
    decreases a.len(),
{
    if a.len() > 0 && a[0] == b[0] && b[0] == c[0] {
        lemma_chars_le_transitive(a.drop_first(), b.drop_first(), c.drop_first());
    }
}

/// The order of strings is total.
pub proof fn lemma_name_order_total()
    ensures
        total_ordering(name_order()),
{
    let r = name_order();
    assert forall|x: Seq<char>| #[trigger] r(x, x) by {
        lemma_chars_le_reflexive(x);
    }
    assert forall|x: Seq<char>, y: Seq<char>| #[trigger] r(x, y) && #[trigger] r(y, x) implies x == y by {
        lemma_chars_le_antisymmetric(x, y);
    }
    assert forall|x: Seq<char>, y: Seq<char>, z: Seq<char>| #[trigger] r(x, y) && #[trigger] r(y, z) implies r(x, z) by {
        lemma_chars_le_transitive(x, y, z);
    }
    assert forall|x: Seq<char>, y: Seq<char>| #[trigger] r(x, y) || #[trigger] r(y, x) by {
        lemma_chars_le_total(x, y);
    }
}


/// The names of the messages of kind `ty` among the methods `vs`: the names
/// of their variants in snake case, in the order of the methods.
pub open spec fn snake_names(vs: Seq<MsgVariantV>, ty: MsgType) -> Seq<Seq<char>>
    decreases vs.len(),
{
    if vs.len() == 0 {
        Seq::empty()
    } else if vs.last().msg_type == ty {
        snake_names(vs.drop_last(), ty).push(case::converted(variant_name(vs.last()), TextCase::Snake))
    } else {
        snake_names(vs.drop_last(), ty)
    }
}

/// `"name" ,` for each name.
pub open spec fn quoted_names(ns: Seq<Seq<char>>) -> Seq<TokV> {
    tokens::concat(Seq::new(ns.len(), |k: int| seq![TokV::Lit(seq!['"'] + ns[k] + seq!['"']), tokens::pc(',')]))
}

/// The message enum `name` of kind `ty` of the contract `ct` with the methods
/// `vs`: `ug` are the generic parameters its variants use, `ung` the other
/// ones, `wc` the where clause of the contract's implementation and `attrs`
/// the attributes forwarded to the enum; `variants` are its variants, `arms`
/// the arms of its dispatch, `ctors` its constructors and `phantom` its
/// phantom variant. The names of the messages are listed sorted.
pub open spec fn enum_tokens(
    name: Seq<char>,
    vs: Seq<MsgVariantV>,
    ty: MsgType,
    ct: Seq<TokV>,
    ug: Seq<Seq<TokV>>,
    ung: Seq<Seq<TokV>>,
    wc: Option<(Seq<WherePredicateV>, bool)>,
    attrs: Seq<Seq<TokV>>,
    variants: Seq<Seq<TokV>>,
    arms: Seq<Seq<TokV>>,
    ctors: Seq<TokV>,
    phantom: Seq<TokV>,
    custom_msg: Seq<TokV>,
    custom_query: Seq<TokV>,
    err: Seq<TokV>,
    sylvia: Seq<TokV>,
) -> Seq<TokV> {
    let sorted = snake_names(vs, ty).sort_by(name_order());
    enum_def(
        name,
        bracketed_generics(ug),
        if ty == MsgType::Query {
            path3(sylvia, "cw_schema", "QueryResponses")
        } else {
            Seq::empty()
        },
        forwarded_attrs(attrs),
        each_with_comma(variants),
        phantom,
        sylvia,
    ) + enum_impl(
        name,
        bracketed_generics(ug),
        bracketed_generics(ung),
        ct,
        msg_type::ctx_type(ty, sylvia, custom_query),
        msg_type::result_type(ty, sylvia, custom_msg, err),
        associated_types::opt_where_tokens(wc),
        each_with_comma(arms),
        if ug.len() > 0 {
            phantom_arm(sylvia)
        } else {
            Seq::empty()
        },
        ctors,
    ) + messages_fn(messages_fn_name(ty), sorted.len(), quoted_names(sorted))
}

/// The message enum, with its derives, the forwarded attributes, its variants and its phantom variant.
pub open spec fn enum_def(name: Seq<char>, ugb: Seq<TokV>, dq: Seq<TokV>, attrs: Seq<TokV>, vs: Seq<TokV>, phantom: Seq<TokV>, sylvia: Seq<TokV>) -> Seq<TokV> {
    seq![tokens::pc('#'), TokV::Open(Delim::Bracket), tokens::id("allow"), TokV::Open(Delim::Paren), tokens::id("clippy"), tokens::pc(':'), tokens::pc(':'), tokens::id("derive_partial_eq_without_eq"), TokV::Close(Delim::Paren), TokV::Close(Delim::Bracket), tokens::pc('#'), TokV::Open(Delim::Bracket), tokens::id("derive"), TokV::Open(Delim::Paren)]
        + path3(sylvia, "serde", "Serialize")
        + seq![tokens::pc(',')]
        + path3(sylvia, "serde", "Deserialize")
        + seq![tokens::pc(','), tokens::id("Clone"), tokens::pc(','), tokens::id("Debug"), tokens::pc(','), tokens::id("PartialEq"), tokens::pc(',')]
        + path3(sylvia, "schemars", "JsonSchema")
        + seq![tokens::pc(',')]
        + dq
        + seq![TokV::Close(Delim::Paren), TokV::Close(Delim::Bracket)]
        + attrs
        + seq![tokens::pc('#'), TokV::Open(Delim::Bracket), tokens::id("serde"), TokV::Open(Delim::Paren), tokens::id("rename_all"), tokens::pc('='), TokV::Lit("\"snake_case\""@), TokV::Close(Delim::Paren), TokV::Close(Delim::Bracket), tokens::id("pub"), tokens::id("enum")]
        + seq![TokV::Ident(name)]
        + ugb
        + seq![TokV::Open(Delim::Brace)]
        + vs
        + phantom
        + seq![TokV::Close(Delim::Brace)]
}

/// The implementation of the message enum: `dispatch`, matching each message to the contract's method, and the constructors.
pub open spec fn enum_impl(name: Seq<char>, ugb: Seq<TokV>, ungb: Seq<TokV>, ct: Seq<TokV>, ctx: Seq<TokV>, ret: Seq<TokV>, wc: Seq<TokV>, arms: Seq<TokV>, parm: Seq<TokV>, ctors: Seq<TokV>) -> Seq<TokV> {
    seq![tokens::id("impl")]
        + ugb
        + seq![TokV::Ident(name)]
        + ugb
        + seq![TokV::Open(Delim::Brace), tokens::id("pub"), tokens::id("fn"), tokens::id("dispatch")]
        + ungb
        + seq![TokV::Open(Delim::Paren), tokens::id("self"), tokens::pc(','), tokens::id("contract"), tokens::pc(':'), tokens::pc('&')]
        + ct
        + seq![tokens::pc(','), tokens::id("ctx"), tokens::pc(':')]
        + ctx
        + seq![TokV::Close(Delim::Paren), tokens::pc('-'), tokens::pc('>')]
        + ret
        + wc
        + seq![TokV::Open(Delim::Brace), tokens::id("use")]
        + seq![TokV::Ident(name)]
        + seq![tokens::pc(':'), tokens::pc(':'), tokens::pc('*'), tokens::pc(';'), tokens::id("match"), tokens::id("self"), TokV::Open(Delim::Brace)]
        + arms
        + parm
        + seq![TokV::Close(Delim::Brace), TokV::Close(Delim::Brace)]
        + ctors
        + seq![TokV::Close(Delim::Brace)]
}

/// The function listing the names of the messages.
pub open spec fn messages_fn(mfn: Seq<char>, n: nat, names: Seq<TokV>) -> Seq<TokV> {
    seq![tokens::id("pub"), tokens::id("const"), tokens::id("fn")]
        + seq![TokV::Ident(mfn)]
        + seq![TokV::Open(Delim::Paren), TokV::Close(Delim::Paren), tokens::pc('-'), tokens::pc('>'), TokV::Open(Delim::Bracket), tokens::pc('&'), tokens::pc('\''), tokens::id("static"), tokens::id("str"), tokens::pc(';')]
        + seq![TokV::Lit(reply_emit::decimal(n) + "usize"@)]
        + seq![TokV::Close(Delim::Bracket), TokV::Open(Delim::Brace), TokV::Open(Delim::Bracket)]
        + names
        + seq![TokV::Close(Delim::Bracket), TokV::Close(Delim::Brace)]
}

/// The arm rejecting the phantom variant.
pub open spec fn phantom_arm(sylvia: Seq<TokV>) -> Seq<TokV> {
    seq![tokens::id("_Phantom"), TokV::Open(Delim::Paren), tokens::id("_"), TokV::Close(Delim::Paren), tokens::pc('='), tokens::pc('>'), tokens::id("Err"), TokV::Open(Delim::Paren)]
        + cw_std_item(sylvia, "StdError")
        + seq![tokens::pc(':'), tokens::pc(':'), tokens::id("generic_err"), TokV::Open(Delim::Paren), TokV::Lit("\"Phantom message should not be constructed.\""@), TokV::Close(Delim::Paren), TokV::Close(Delim::Paren), tokens::pc('.'), tokens::id("map_err"), TokV::Open(Delim::Paren), tokens::id("Into"), tokens::pc(':'), tokens::pc(':'), tokens::id("into"), TokV::Close(Delim::Paren), tokens::pc(',')]
}

/// The function listing the messages of an enum gives the names of the
/// messages of its kind, each as often as a method declares it, sorted.
pub proof fn message_names_sorted(vs: Seq<MsgVariantV>, ty: MsgType)
    ensures
        sorted_by(snake_names(vs, ty).sort_by(name_order()), name_order()),
        snake_names(vs, ty).sort_by(name_order()).to_multiset() == snake_names(vs, ty).to_multiset(),
{
    lemma_name_order_total();
    snake_names(vs, ty).lemma_sort_by_ensures(name_order());
}

/// Whether `a` is `b` or comes before it.
pub fn chars_le_exec(a: &String, b: &String) -> (r: bool)
    ensures
        r == chars_le(a@, b@),
{
    let sa = a.as_str();
    let sb = b.as_str();
    let la = sa.unicode_len();
    let lb = sb.unicode_len();
    let mut i: usize = 0;
    assert(a@.skip(0) =~= a@);
    assert(b@.skip(0) =~= b@);
    while i < la && i < lb
        invariant
            i <= la,
            i <= lb,
            la == a@.len(),
            lb == b@.len(),
            sa@ == a@,
            sb@ == b@,
            chars_le(a@, b@) == chars_le(a@.skip(i as int), b@.skip(i as int)),
        decreases la - i,
    {
        let ca = sa.get_char(i);
        let cb = sb.get_char(i);
        assert(a@.skip(i as int)[0] == ca);
        assert(b@.skip(i as int)[0] == cb);
        if ca != cb {
            return ca < cb;
        }
        assert(a@.skip(i as int).drop_first() =~= a@.skip(i + 1));
        assert(b@.skip(i as int).drop_first() =~= b@.skip(i + 1));
        i = i + 1;
    }
    i == la
}

/// The strings `names`, sorted.
pub fn sort_names(names: &Vec<String>) -> (r: Vec<String>)
    ensures
        strings_view(r@) == strings_view(names@).sort_by(name_order()),
{
    let ghost all = strings_view(names@);
    let mut r: Vec<String> = Vec::new();
    let mut k: usize = 0;
    proof {
        lemma_name_order_total();
    }
    assert(strings_view(r@).to_multiset() =~= all.take(0).to_multiset()) by {
        assert(strings_view(r@) =~= all.take(0));
    }
    while k < names.len()
        invariant
            k <= names@.len(),
            all == strings_view(names@),
            total_ordering(name_order()),
            sorted_by(strings_view(r@), name_order()),
            strings_view(r@).to_multiset() == all.take(k as int).to_multiset(),
        decreases names@.len() - k,
    {
        let x = names[k].clone();
        let ghost rv = strings_view(r@);
        let mut p: usize = 0;
        while p < r.len() && chars_le_exec(&r[p], &x)
            invariant
                p <= r@.len(),
                rv == strings_view(r@),
                forall|q: int| 0 <= q < p ==> chars_le(#[trigger] rv[q], x@),
            decreases r@.len() - p,
        {
            p = p + 1;
        }
        proof {
            if p < rv.len() {
                lemma_chars_le_total(rv[p as int], x@);
            }
            assert forall|q: int| p <= q < rv.len() implies chars_le(x@, #[trigger] rv[q]) by {
                lemma_chars_le_total(rv[p as int], x@);
                if q > p {
                    assert(name_order()(rv[p as int], rv[q]));
                    lemma_chars_le_transitive(x@, rv[p as int], rv[q]);
                }
            }
        }
        r.insert(p, x);
        let ghost nv = strings_view(r@);
        assert(nv =~= rv.insert(p as int, x@));
        proof {
            assert forall|i: int, j: int| 0 <= i < j < nv.len() implies #[trigger] name_order()(nv[i], nv[j]) by {
                if j < p {
                    assert(name_order()(rv[i], rv[j]));
                } else if j == p {
                    assert(chars_le(rv[i], x@));
                } else if i < p {
                    assert(chars_le(rv[i], x@));
                    assert(chars_le(x@, rv[j - 1]));
                    lemma_chars_le_transitive(rv[i], x@, rv[j - 1]);
                } else if i == p {
                    assert(chars_le(x@, rv[j - 1]));
                } else {
                    assert(name_order()(rv[i - 1], rv[j - 1]));
                }
            }
            vstd::seq_lib::to_multiset_insert(rv, p as int, x@);
            assert(all.take(k + 1) =~= all.take(k as int).push(all[k as int]));
            vstd::seq_lib::to_multiset_build(all.take(k as int), all[k as int]);
        }
        k = k + 1;
    }
    proof {
        assert(all.take(k as int) =~= all);
        all.lemma_sort_by_ensures(name_order());
        vstd::seq_lib::lemma_sorted_unique(strings_view(r@), all.sort_by(name_order()), name_order());
    }
    r
}

fn enum_def_exec(name: &String, ugb: &Vec<Tok>, dq: &Vec<Tok>, attrs: &Vec<Tok>, vs: &Vec<Tok>, phantom: &Vec<Tok>, sylvia: &Vec<Tok>) -> (r: Vec<Tok>)
    ensures
        tokens::toks(r@) == enum_def(name@, tokens::toks(ugb@), tokens::toks(dq@), tokens::toks(attrs@), tokens::toks(vs@), tokens::toks(phantom@), tokens::toks(sylvia@)),
{
    let mut r: Vec<Tok> = Vec::new();
    let k1: Vec<Tok> = vec![Tok::Punct('#'), Tok::Open(Delim::Bracket), Tok::ident("allow"), Tok::Open(Delim::Paren), Tok::ident("clippy"), Tok::Punct(':'), Tok::Punct(':'), Tok::ident("derive_partial_eq_without_eq"), Tok::Close(Delim::Paren), Tok::Close(Delim::Bracket), Tok::Punct('#'), Tok::Open(Delim::Bracket), Tok::ident("derive"), Tok::Open(Delim::Paren)];
    assert(tokens::toks(k1@) =~= seq![tokens::pc('#'), TokV::Open(Delim::Bracket), tokens::id("allow"), TokV::Open(Delim::Paren), tokens::id("clippy"), tokens::pc(':'), tokens::pc(':'), tokens::id("derive_partial_eq_without_eq"), TokV::Close(Delim::Paren), TokV::Close(Delim::Bracket), tokens::pc('#'), TokV::Open(Delim::Bracket), tokens::id("derive"), TokV::Open(Delim::Paren)]);
    tokens::extend_toks(&mut r, &k1);
    push_path3(&mut r, sylvia, "serde", "Serialize");
    let k2: Vec<Tok> = vec![Tok::Punct(',')];
    assert(tokens::toks(k2@) =~= seq![tokens::pc(',')]);
    tokens::extend_toks(&mut r, &k2);
    push_path3(&mut r, sylvia, "serde", "Deserialize");
    let k3: Vec<Tok> = vec![Tok::Punct(','), Tok::ident("Clone"), Tok::Punct(','), Tok::ident("Debug"), Tok::Punct(','), Tok::ident("PartialEq"), Tok::Punct(',')];
    assert(tokens::toks(k3@) =~= seq![tokens::pc(','), tokens::id("Clone"), tokens::pc(','), tokens::id("Debug"), tokens::pc(','), tokens::id("PartialEq"), tokens::pc(',')]);
    tokens::extend_toks(&mut r, &k3);
    push_path3(&mut r, sylvia, "schemars", "JsonSchema");
    let k4: Vec<Tok> = vec![Tok::Punct(',')];
    assert(tokens::toks(k4@) =~= seq![tokens::pc(',')]);
    tokens::extend_toks(&mut r, &k4);
    tokens::extend_toks(&mut r, dq);
    let k5: Vec<Tok> = vec![Tok::Close(Delim::Paren), Tok::Close(Delim::Bracket)];
    assert(tokens::toks(k5@) =~= seq![TokV::Close(Delim::Paren), TokV::Close(Delim::Bracket)]);
    tokens::extend_toks(&mut r, &k5);
    tokens::extend_toks(&mut r, attrs);
    let k6: Vec<Tok> = vec![Tok::Punct('#'), Tok::Open(Delim::Bracket), Tok::ident("serde"), Tok::Open(Delim::Paren), Tok::ident("rename_all"), Tok::Punct('='), Tok::Lit(String::from_str("\"snake_case\"")), Tok::Close(Delim::Paren), Tok::Close(Delim::Bracket), Tok::ident("pub"), Tok::ident("enum")];
    assert(tokens::toks(k6@) =~= seq![tokens::pc('#'), TokV::Open(Delim::Bracket), tokens::id("serde"), TokV::Open(Delim::Paren), tokens::id("rename_all"), tokens::pc('='), TokV::Lit("\"snake_case\""@), TokV::Close(Delim::Paren), TokV::Close(Delim::Bracket), tokens::id("pub"), tokens::id("enum")]);
    tokens::extend_toks(&mut r, &k6);
    tokens::push_tok(&mut r, Tok::Ident(name.clone()));
    tokens::extend_toks(&mut r, ugb);
    let k7: Vec<Tok> = vec![Tok::Open(Delim::Brace)];
    assert(tokens::toks(k7@) =~= seq![TokV::Open(Delim::Brace)]);
    tokens::extend_toks(&mut r, &k7);
    tokens::extend_toks(&mut r, vs);
    tokens::extend_toks(&mut r, phantom);
    let k8: Vec<Tok> = vec![Tok::Close(Delim::Brace)];
    assert(tokens::toks(k8@) =~= seq![TokV::Close(Delim::Brace)]);
    tokens::extend_toks(&mut r, &k8);
    assert(tokens::toks(r@) =~= enum_def(name@, tokens::toks(ugb@), tokens::toks(dq@), tokens::toks(attrs@), tokens::toks(vs@), tokens::toks(phantom@), tokens::toks(sylvia@)));
    r
}

fn enum_impl_exec(name: &String, ugb: &Vec<Tok>, ungb: &Vec<Tok>, ct: &Vec<Tok>, ctx: &Vec<Tok>, ret: &Vec<Tok>, wc: &Vec<Tok>, arms: &Vec<Tok>, parm: &Vec<Tok>, ctors: &Vec<Tok>) -> (r: Vec<Tok>)
    ensures
        tokens::toks(r@) == enum_impl(name@, tokens::toks(ugb@), tokens::toks(ungb@), tokens::toks(ct@), tokens::toks(ctx@), tokens::toks(ret@), tokens::toks(wc@), tokens::toks(arms@), tokens::toks(parm@), tokens::toks(ctors@)),
{
    let mut r: Vec<Tok> = Vec::new();
    let k1: Vec<Tok> = vec![Tok::ident("impl")];
    assert(tokens::toks(k1@) =~= seq![tokens::id("impl")]);
    tokens::extend_toks(&mut r, &k1);
    tokens::extend_toks(&mut r, ugb);
    tokens::push_tok(&mut r, Tok::Ident(name.clone()));
    tokens::extend_toks(&mut r, ugb);
    let k2: Vec<Tok> = vec![Tok::Open(Delim::Brace), Tok::ident("pub"), Tok::ident("fn"), Tok::ident("dispatch")];
    assert(tokens::toks(k2@) =~= seq![TokV::Open(Delim::Brace), tokens::id("pub"), tokens::id("fn"), tokens::id("dispatch")]);
    tokens::extend_toks(&mut r, &k2);
    tokens::extend_toks(&mut r, ungb);
    let k3: Vec<Tok> = vec![Tok::Open(Delim::Paren), Tok::ident("self"), Tok::Punct(','), Tok::ident("contract"), Tok::Punct(':'), Tok::Punct('&')];
    assert(tokens::toks(k3@) =~= seq![TokV::Open(Delim::Paren), tokens::id("self"), tokens::pc(','), tokens::id("contract"), tokens::pc(':'), tokens::pc('&')]);
    tokens::extend_toks(&mut r, &k3);
    tokens::extend_toks(&mut r, ct);
    let k4: Vec<Tok> = vec![Tok::Punct(','), Tok::ident("ctx"), Tok::Punct(':')];
    assert(tokens::toks(k4@) =~= seq![tokens::pc(','), tokens::id("ctx"), tokens::pc(':')]);
    tokens::extend_toks(&mut r, &k4);
    tokens::extend_toks(&mut r, ctx);
    let k5: Vec<Tok> = vec![Tok::Close(Delim::Paren), Tok::Punct('-'), Tok::Punct('>')];
    assert(tokens::toks(k5@) =~= seq![TokV::Close(Delim::Paren), tokens::pc('-'), tokens::pc('>')]);
    tokens::extend_toks(&mut r, &k5);
    tokens::extend_toks(&mut r, ret);
    tokens::extend_toks(&mut r, wc);
    let k6: Vec<Tok> = vec![Tok::Open(Delim::Brace), Tok::ident("use")];
    assert(tokens::toks(k6@) =~= seq![TokV::Open(Delim::Brace), tokens::id("use")]);
    tokens::extend_toks(&mut r, &k6);
    tokens::push_tok(&mut r, Tok::Ident(name.clone()));
    let k7: Vec<Tok> = vec![Tok::Punct(':'), Tok::Punct(':'), Tok::Punct('*'), Tok::Punct(';'), Tok::ident("match"), Tok::ident("self"), Tok::Open(Delim::Brace)];
    assert(tokens::toks(k7@) =~= seq![tokens::pc(':'), tokens::pc(':'), tokens::pc('*'), tokens::pc(';'), tokens::id("match"), tokens::id("self"), TokV::Open(Delim::Brace)]);
    tokens::extend_toks(&mut r, &k7);
    tokens::extend_toks(&mut r, arms);
    tokens::extend_toks(&mut r, parm);
    let k8: Vec<Tok> = vec![Tok::Close(Delim::Brace), Tok::Close(Delim::Brace)];
    assert(tokens::toks(k8@) =~= seq![TokV::Close(Delim::Brace), TokV::Close(Delim::Brace)]);
    tokens::extend_toks(&mut r, &k8);
    tokens::extend_toks(&mut r, ctors);
    let k9: Vec<Tok> = vec![Tok::Close(Delim::Brace)];
    assert(tokens::toks(k9@) =~= seq![TokV::Close(Delim::Brace)]);
    tokens::extend_toks(&mut r, &k9);
    assert(tokens::toks(r@) =~= enum_impl(name@, tokens::toks(ugb@), tokens::toks(ungb@), tokens::toks(ct@), tokens::toks(ctx@), tokens::toks(ret@), tokens::toks(wc@), tokens::toks(arms@), tokens::toks(parm@), tokens::toks(ctors@)));
    r
}

pub(crate) fn messages_fn_exec(mfn: &String, n: u64, names: &Vec<Tok>) -> (r: Vec<Tok>)
    ensures
        tokens::toks(r@) == messages_fn(mfn@, n as nat, tokens::toks(names@)),
{
    let mut r: Vec<Tok> = Vec::new();
    let k1: Vec<Tok> = vec![Tok::ident("pub"), Tok::ident("const"), Tok::ident("fn")];
    assert(tokens::toks(k1@) =~= seq![tokens::id("pub"), tokens::id("const"), tokens::id("fn")]);
    tokens::extend_toks(&mut r, &k1);
    tokens::push_tok(&mut r, Tok::Ident(mfn.clone()));
    let k2: Vec<Tok> = vec![Tok::Open(Delim::Paren), Tok::Close(Delim::Paren), Tok::Punct('-'), Tok::Punct('>'), Tok::Open(Delim::Bracket), Tok::Punct('&'), Tok::Punct('\''), Tok::ident("static"), Tok::ident("str"), Tok::Punct(';')];
    assert(tokens::toks(k2@) =~= seq![TokV::Open(Delim::Paren), TokV::Close(Delim::Paren), tokens::pc('-'), tokens::pc('>'), TokV::Open(Delim::Bracket), tokens::pc('&'), tokens::pc('\''), tokens::id("static"), tokens::id("str"), tokens::pc(';')]);
    tokens::extend_toks(&mut r, &k2);
    tokens::push_tok(&mut r, usize_lit(n));
    let k3: Vec<Tok> = vec![Tok::Close(Delim::Bracket), Tok::Open(Delim::Brace), Tok::Open(Delim::Bracket)];
    assert(tokens::toks(k3@) =~= seq![TokV::Close(Delim::Bracket), TokV::Open(Delim::Brace), TokV::Open(Delim::Bracket)]);
    tokens::extend_toks(&mut r, &k3);
    tokens::extend_toks(&mut r, names);
    let k4: Vec<Tok> = vec![Tok::Close(Delim::Bracket), Tok::Close(Delim::Brace)];
    assert(tokens::toks(k4@) =~= seq![TokV::Close(Delim::Bracket), TokV::Close(Delim::Brace)]);
    tokens::extend_toks(&mut r, &k4);
    assert(tokens::toks(r@) =~= messages_fn(mfn@, n as nat, tokens::toks(names@)));
    r
}

pub(crate) fn phantom_arm_exec(sylvia: &Vec<Tok>) -> (r: Vec<Tok>)
    ensures
        tokens::toks(r@) == phantom_arm(tokens::toks(sylvia@)),
{
    let mut r: Vec<Tok> = Vec::new();
    let k1: Vec<Tok> = vec![Tok::ident("_Phantom"), Tok::Open(Delim::Paren), Tok::ident("_"), Tok::Close(Delim::Paren), Tok::Punct('='), Tok::Punct('>'), Tok::ident("Err"), Tok::Open(Delim::Paren)];
    assert(tokens::toks(k1@) =~= seq![tokens::id("_Phantom"), TokV::Open(Delim::Paren), tokens::id("_"), TokV::Close(Delim::Paren), tokens::pc('='), tokens::pc('>'), tokens::id("Err"), TokV::Open(Delim::Paren)]);
    tokens::extend_toks(&mut r, &k1);
    msg_type::push_cw_std_item(&mut r, sylvia, "StdError");
    let k2: Vec<Tok> = vec![Tok::Punct(':'), Tok::Punct(':'), Tok::ident("generic_err"), Tok::Open(Delim::Paren), Tok::Lit(String::from_str("\"Phantom message should not be constructed.\"")), Tok::Close(Delim::Paren), Tok::Close(Delim::Paren), Tok::Punct('.'), Tok::ident("map_err"), Tok::Open(Delim::Paren), Tok::ident("Into"), Tok::Punct(':'), Tok::Punct(':'), Tok::ident("into"), Tok::Close(Delim::Paren), Tok::Punct(',')];
    assert(tokens::toks(k2@) =~= seq![tokens::pc(':'), tokens::pc(':'), tokens::id("generic_err"), TokV::Open(Delim::Paren), TokV::Lit("\"Phantom message should not be constructed.\""@), TokV::Close(Delim::Paren), TokV::Close(Delim::Paren), tokens::pc('.'), tokens::id("map_err"), TokV::Open(Delim::Paren), tokens::id("Into"), tokens::pc(':'), tokens::pc(':'), tokens::id("into"), TokV::Close(Delim::Paren), tokens::pc(',')]);
    tokens::extend_toks(&mut r, &k2);
    assert(tokens::toks(r@) =~= phantom_arm(tokens::toks(sylvia@)));
    r
}


/// The names of the messages of kind `ty` among the methods `vs`.
pub fn emit_snake_names(vs: &Vec<MsgVariant>, ty: MsgType) -> (r: Vec<String>)
    ensures
        strings_view(r@) == snake_names(reply::variants_view(vs@), ty),
{
    let ghost all = reply::variants_view(vs@);
    let mut r: Vec<String> = Vec::new();
    let mut k: usize = 0;
    while k < vs.len()
        invariant
            k <= vs@.len(),
            all == reply::variants_view(vs@),
            strings_view(r@) == snake_names(all.take(k as int), ty),
        decreases vs@.len() - k,
    {
        assert(all.take(k + 1).drop_last() =~= all.take(k as int));
        let ghost before = strings_view(r@);
        if vs[k].msg_type == ty {
            let n = vs[k].name();
            let s = case::to_case(n.as_str(), TextCase::Snake);
            r.push(s);
            assert(strings_view(r@) =~= before.push(case::converted(variant_name(all[k as int]), TextCase::Snake)));
        }
        k = k + 1;
    }
    assert(all.take(k as int) =~= all);
    r
}

pub(crate) fn quoted_names_exec(ns: &Vec<String>) -> (r: Vec<Tok>)
    ensures
        tokens::toks(r@) == quoted_names(strings_view(ns@)),
{
    let ghost v = strings_view(ns@);
    let mut parts: Vec<Vec<Tok>> = Vec::new();
    let mut k: usize = 0;
    while k < ns.len()
        invariant
            k <= ns@.len(),
            v == strings_view(ns@),
            parts@.len() == k,
            forall|q: int| 0 <= q < k ==> tokens::toks((#[trigger] parts@[q])@) == seq![TokV::Lit(seq!['"'] + v[q] + seq!['"']), tokens::pc(',')],
        decreases ns@.len() - k,
    {
        let mut lit = String::new();
        lit.append("\"");
        lit.append(ns[k].as_str());
        lit.append("\"");
        proof {
            reveal_strlit("\"");
        }
        assert(lit@ =~= seq!['"'] + v[k as int] + seq!['"']);
        let mut p: Vec<Tok> = Vec::new();
        tokens::push_tok(&mut p, Tok::Lit(lit));
        tokens::push_punct(&mut p, ',');
        assert(tokens::toks(p@) =~= seq![TokV::Lit(seq!['"'] + v[k as int] + seq!['"']), tokens::pc(',')]);
        parts.push(p);
        k = k + 1;
    }
    assert(parser::toks2(parts@) =~= Seq::new(v.len(), |q: int| seq![TokV::Lit(seq!['"'] + v[q] + seq!['"']), tokens::pc(',')]));
    let mut r: Vec<Tok> = Vec::new();
    push_concat(&mut r, &parts);
    r
}

/// Generator of the message enum of a contract for a kind with several
/// messages.
pub struct EnumMessage {
    /// The methods of the contract.
    pub variants: Vec<MsgVariant>,
    pub msg_ty: MsgType,
    /// The contract type.
    pub contract: Vec<Tok>,
    pub error: ContractErrorAttr,
    pub custom: Custom,
    /// The where clause of the contract's implementation.
    pub where_clause: Option<WhereClause>,
    /// The attributes forwarded to the message enum.
    pub msg_attrs_to_forward: Vec<Vec<Tok>>,
}

impl EnumMessage {
    /// The generator of the message enum of kind `msg_ty` of the contract
    /// `contract` with the methods `variants`.
    pub fn new(
        variants: Vec<MsgVariant>,
        msg_ty: MsgType,
        contract: Vec<Tok>,
        error: ContractErrorAttr,
        custom: Custom,
        where_clause: Option<WhereClause>,
        msg_attrs_to_forward: Vec<Vec<Tok>>,
    ) -> (r: EnumMessage)
        ensures
            r.variants@ == variants@,
            r.msg_ty == msg_ty,
            r.contract@ == contract@,
            r.error == error,
            r.custom == custom,
            r.where_clause == where_clause,
            r.msg_attrs_to_forward@ == msg_attrs_to_forward@,
    {
        EnumMessage { variants, msg_ty, contract, error, custom, where_clause, msg_attrs_to_forward }
    }

    /// The message enum named `enum_name`, with its implementation and the
    /// function listing the names of its messages, sorted, from its parts.
    /// `used` are the generic parameters its variants use and `unused` the
    /// other ones; `variants`, `arms`, `ctors` and `phantom` are its variants,
    /// the arms of its dispatch, its constructors and its phantom variant.
    pub fn emit_parts(
        &self,
        sylvia: &Vec<Tok>,
        enum_name: &String,
        used: &Vec<Vec<Tok>>,
        unused: &Vec<Vec<Tok>>,
        variants: &Vec<Vec<Tok>>,
        arms: &Vec<Vec<Tok>>,
        ctors: &Vec<Tok>,
        phantom: &Vec<Tok>,
    ) -> (r: Vec<Tok>)
        ensures
            tokens::toks(r@) == enum_tokens(
                enum_name@,
                reply::variants_view(self.variants@),
                self.msg_ty,
                tokens::toks(self.contract@),
                parser::toks2(used@),
                parser::toks2(unused@),
                where_value(self.where_clause),
                parser::toks2(self.msg_attrs_to_forward@),
                parser::toks2(variants@),
                parser::toks2(arms@),
                tokens::toks(ctors@),
                tokens::toks(phantom@),
                match self.custom@.msg {
                    Some(m) => m,
                    None => parser::default_type(tokens::toks(sylvia@)),
                },
                match self.custom@.query {
                    Some(q) => q,
                    None => parser::default_type(tokens::toks(sylvia@)),
                },
                tokens::toks(self.error.error@),
                tokens::toks(sylvia@),
            ),
    {
        let mut ugb: Vec<Tok> = Vec::new();
        querier::push_bracketed_generics(&mut ugb, used);
        assert(tokens::toks(ugb@) =~= bracketed_generics(parser::toks2(used@)));
        let mut ungb: Vec<Tok> = Vec::new();
        querier::push_bracketed_generics(&mut ungb, unused);
        assert(tokens::toks(ungb@) =~= bracketed_generics(parser::toks2(unused@)));
        let mut dq: Vec<Tok> = Vec::new();
        if self.msg_ty == MsgType::Query {
            push_path3(&mut dq, sylvia, "cw_schema", "QueryResponses");
        }
        assert(tokens::toks(dq@) =~= (if self.msg_ty == MsgType::Query {
            path3(tokens::toks(sylvia@), "cw_schema", "QueryResponses")
        } else {
            Seq::empty()
        }));
        let attrs = forwarded_attrs_exec(&self.msg_attrs_to_forward);
        let mut vs: Vec<Tok> = Vec::new();
        push_each_with_comma(&mut vs, variants);
        let mut r = enum_def_exec(enum_name, &ugb, &dq, &attrs, &vs, phantom, sylvia);

        let cq = self.custom.query_or_default(sylvia);
        let cm = self.custom.msg_or_default(sylvia);
        let ctx = self.msg_ty.emit_ctx_type(sylvia, &cq);
        let ret = self.msg_ty.emit_result_type(sylvia, &cm, &self.error.error);
        let wc = associated_types::opt_where_to_tokens(&self.where_clause);
        let mut arms_t: Vec<Tok> = Vec::new();
        push_each_with_comma(&mut arms_t, arms);
        let parm = if used.len() > 0 {
            phantom_arm_exec(sylvia)
        } else {
            Vec::new()
        };
        assert(tokens::toks(parm@) =~= (if used@.len() > 0 {
            phantom_arm(tokens::toks(sylvia@))
        } else {
            Seq::empty()
        }));
        let i = enum_impl_exec(enum_name, &ugb, &ungb, &self.contract, &ctx, &ret, &wc, &arms_t, &parm, ctors);
        tokens::extend_toks(&mut r, &i);

        let names = emit_snake_names(&self.variants, self.msg_ty);
        let sorted = sort_names(&names);
        let quoted = quoted_names_exec(&sorted);
        let mut mfn = self.msg_ty.emit_ep_name();
        mfn.append("_messages");
        let m = messages_fn_exec(&mfn, sorted.len() as u64, &quoted);
        tokens::extend_toks(&mut r, &m);
        r
    }
}

} // verus!
