//! The MultiTest helpers of an interface implementation: a trait of the
//! interface's proxy methods, implemented on the contract's proxy.
use vstd::prelude::*;
use crate::associated_types::{self, ImplAssociatedTypes, ImplItemType, WhereClause, WherePredicateV};
use crate::diag::Diag;
use crate::glue::{path4, push_path4};
use crate::instantiate_builder::{get_ident_from_type, is_type_path, type_ident};
use crate::interfaces::{each_with_comma, Interfaces};
use crate::msg_type::{self, cw_std_item};
use crate::mt::{kind_decls, kind_defs, path3, push_kind_decls, push_kind_defs, push_path3};
use crate::msg_type::MsgType;
use crate::reply::{self, MsgVariant};
use crate::multitest::{proxy_app, proxy_app_exec, proxy_name_of};
use crate::parser;
use crate::querier::{self, bracketed_generics, where_value};
use crate::tokens::{self, Delim, Tok, TokV};

verus! {

/// The position of the first associated type named `Error` among `names`.
pub open spec fn error_position(names: Seq<Seq<char>>) -> Option<int>
    decreases names.len(),
{
    if names.len() == 0 {
        None
    } else {
        match error_position(names.drop_last()) {
            Some(i) => Some(i),
            None => if names.last() == "Error"@ {
                Some(names.len() - 1)
            } else {
                None
            },
        }
    }
}

/// The names of the associated types.
pub open spec fn item_names(items: Seq<ImplItemType>) -> Seq<Seq<char>> {
    Seq::new(items.len(), |i: int| items[i].ident@)
}

/// The start of the module `test_utils`, with the trait declaring the proxy methods `decls` of the interface.
#[verifier::opaque]
pub open spec fn test_utils_trait(tname: Seq<char>, gp: Seq<Seq<TokV>>, w: Option<(Seq<WherePredicateV>, bool)>, decls: Seq<TokV>) -> Seq<TokV> {
    seq![tokens::id("pub"), tokens::id("mod"), tokens::id("test_utils"), TokV::Open(Delim::Brace), tokens::id("use"), tokens::id("super"), tokens::pc(':'), tokens::pc(':'), tokens::pc('*'), tokens::pc(';'), tokens::id("pub"), tokens::id("trait")]
        + seq![TokV::Ident(tname)]
        + seq![tokens::pc('<'), tokens::id("MtApp"), tokens::pc(','), tokens::id("MultitestExecCustomType"), tokens::pc(',')]
        + each_with_comma(gp)
        + seq![tokens::pc('>')]
        + associated_types::opt_where_tokens(w)
        + seq![TokV::Open(Delim::Brace)]
        + decls
        + seq![TokV::Close(Delim::Brace)]
}

/// The head of the implementation of the interface's proxy trait on the contract's proxy, up to `where`.
#[verifier::opaque]
pub open spec fn test_utils_impl_for(tname: Seq<char>, gp: Seq<Seq<TokV>>, cmod: Seq<TokV>, cproxy: Seq<char>, sylvia: Seq<TokV>) -> Seq<TokV> {
    seq![tokens::id("impl"), tokens::pc('<'), tokens::id("BankT"), tokens::pc(','), tokens::id("ApiT"), tokens::pc(','), tokens::id("StorageT"), tokens::pc(','), tokens::id("CustomT"), tokens::pc(','), tokens::id("WasmT"), tokens::pc(','), tokens::id("StakingT"), tokens::pc(','), tokens::id("DistrT"), tokens::pc(','), tokens::id("IbcT"), tokens::pc(','), tokens::id("GovT"), tokens::pc(','), tokens::id("MultitestExecCustomType"), tokens::pc(',')]
        + each_with_comma(gp)
        + seq![tokens::pc('>')]
        + seq![TokV::Ident(tname)]
        + seq![tokens::pc('<')]
        + proxy_app(sylvia)
        + seq![tokens::pc(','), tokens::id("MultitestExecCustomType"), tokens::pc(',')]
        + each_with_comma(gp)
        + seq![tokens::pc('>'), tokens::id("for")]
        + cmod
        + seq![tokens::pc(':'), tokens::pc(':'), tokens::id("sv"), tokens::pc(':'), tokens::pc(':'), tokens::id("multitest_utils"), tokens::pc(':'), tokens::pc(':')]
        + seq![TokV::Ident(cproxy)]
        + seq![tokens::pc('<'), tokens::pc('\''), tokens::id("_"), tokens::pc(',')]
        + proxy_app(sylvia)
        + seq![tokens::pc(',')]
        + each_with_comma(gp)
        + seq![tokens::pc('>'), tokens::id("where")]
}

/// The bounds of the implementation of the interface's proxy trait, opening its body.
#[verifier::opaque]
pub open spec fn test_utils_bounds(w: Option<(Seq<WherePredicateV>, bool)>, sylvia: Seq<TokV>) -> Seq<TokV> {
    seq![tokens::id("MultitestExecCustomType"), tokens::pc(':'), tokens::id("Clone"), tokens::pc('+'), tokens::id("std"), tokens::pc(':'), tokens::pc(':'), tokens::id("fmt"), tokens::pc(':'), tokens::pc(':'), tokens::id("Debug"), tokens::pc('+'), tokens::id("std"), tokens::pc(':'), tokens::pc(':'), tokens::id("cmp"), tokens::pc(':'), tokens::pc(':'), tokens::id("PartialEq"), tokens::pc('+'), tokens::id("cosmwasm_schema"), tokens::pc(':'), tokens::pc(':'), tokens::id("schemars"), tokens::pc(':'), tokens::pc(':'), tokens::id("JsonSchema"), tokens::pc('+'), tokens::pc('\''), tokens::id("static"), tokens::pc(','), tokens::id("CustomT"), tokens::pc(':')]
        + path3(sylvia, "cw_multi_test", "Module")
        + seq![tokens::pc(','), tokens::id("WasmT"), tokens::pc(':')]
        + path3(sylvia, "cw_multi_test", "Wasm")
        + seq![tokens::pc('<'), tokens::id("CustomT"), tokens::pc(':'), tokens::pc(':'), tokens::id("ExecT"), tokens::pc(','), tokens::id("CustomT"), tokens::pc(':'), tokens::pc(':'), tokens::id("QueryT"), tokens::pc('>'), tokens::pc(','), tokens::id("BankT"), tokens::pc(':')]
        + path3(sylvia, "cw_multi_test", "Bank")
        + seq![tokens::pc(','), tokens::id("ApiT"), tokens::pc(':')]
        + cw_std_item(sylvia, "Api")
        + seq![tokens::pc(','), tokens::id("StorageT"), tokens::pc(':')]
        + cw_std_item(sylvia, "Storage")
        + seq![tokens::pc(','), tokens::id("CustomT"), tokens::pc(':')]
        + path3(sylvia, "cw_multi_test", "Module")
        + seq![tokens::pc(','), tokens::id("StakingT"), tokens::pc(':')]
        + path3(sylvia, "cw_multi_test", "Staking")
        + seq![tokens::pc(','), tokens::id("DistrT"), tokens::pc(':')]
        + path3(sylvia, "cw_multi_test", "Distribution")
        + seq![tokens::pc(','), tokens::id("IbcT"), tokens::pc(':')]
        + path3(sylvia, "cw_multi_test", "Ibc")
        + seq![tokens::pc(','), tokens::id("GovT"), tokens::pc(':')]
        + path3(sylvia, "cw_multi_test", "Gov")
        + seq![tokens::pc(','), tokens::id("CustomT"), tokens::pc(':'), tokens::pc(':'), tokens::id("ExecT"), tokens::pc(':'), tokens::id("Clone"), tokens::pc('+'), tokens::id("std"), tokens::pc(':'), tokens::pc(':'), tokens::id("fmt"), tokens::pc(':'), tokens::pc(':'), tokens::id("Debug"), tokens::pc('+'), tokens::id("PartialEq"), tokens::pc('+')]
        + path3(sylvia, "schemars", "JsonSchema")
        + seq![tokens::pc('+')]
        + path4(sylvia, "serde", "de", "DeserializeOwned")
        + seq![tokens::pc('+'), tokens::pc('\''), tokens::id("static"), tokens::pc(','), tokens::id("CustomT"), tokens::pc(':'), tokens::pc(':'), tokens::id("QueryT"), tokens::pc(':')]
        + cw_std_item(sylvia, "CustomQuery")
        + seq![tokens::pc('+')]
        + path4(sylvia, "serde", "de", "DeserializeOwned")
        + seq![tokens::pc('+'), tokens::pc('\''), tokens::id("static"), tokens::pc(',')]
        + proxy_app(sylvia)
        + seq![tokens::pc(':')]
        + path3(sylvia, "cw_multi_test", "Executor")
        + seq![tokens::pc('<'), tokens::id("MultitestExecCustomType"), tokens::pc('>'), tokens::pc(',')]
        + associated_types::opt_punctuated(w)
        + seq![TokV::Open(Delim::Brace)]
}


/// The MultiTest helpers of the implementation of the interface `tname` by
/// the contract whose proxy is `cproxy`, in the module `cmod`: the trait with
/// the declarations `decls` of the proxy methods, and its implementation on
/// the contract's proxy with the methods `methods`.
pub open spec fn test_utils(
    tname: Seq<char>,
    gp: Seq<Seq<TokV>>,
    w: Option<(Seq<WherePredicateV>, bool)>,
    cmod: Seq<TokV>,
    cproxy: Seq<char>,
    decls: Seq<TokV>,
    methods: Seq<TokV>,
    sylvia: Seq<TokV>,
) -> Seq<TokV> {
    test_utils_trait(tname, gp, w, decls) + test_utils_impl_for(tname, gp, cmod, cproxy, sylvia) + test_utils_bounds(w, sylvia) + methods + seq![
        TokV::Close(Delim::Brace),
        TokV::Close(Delim::Brace),
    ]
}

/// `< module :: sv :: Api < types , > as sylvia :: types :: InterfaceApi >`,
/// the module omitted without a single interface.
pub open spec fn impl_interface_api(module: Option<Seq<TokV>>, types: Seq<Seq<TokV>>, sylvia: Seq<TokV>) -> Seq<TokV> {
    seq![tokens::pc('<')] + (match module {
        Some(m) => m + tokens::colon2(),
        None => Seq::empty(),
    }) + seq![tokens::id("sv")] + tokens::colon2() + seq![tokens::id("Api")] + bracketed_generics(types) + seq![tokens::id("as")] + sylvia
        + tokens::colon2() + seq![tokens::id("types")] + tokens::colon2() + seq![tokens::id("InterfaceApi"), tokens::pc('>')]
}

fn test_utils_trait_exec(tname: &String, gp: &Vec<Vec<Tok>>, w: &Option<WhereClause>, decls: &Vec<Tok>) -> (r: Vec<Tok>)
    ensures
        tokens::toks(r@) == test_utils_trait(tname@, parser::toks2(gp@), where_value(*w), tokens::toks(decls@)),
{
    proof {
        reveal(test_utils_trait);
    }
    let mut r: Vec<Tok> = Vec::new();
    let k1: Vec<Tok> = vec![Tok::ident("pub"), Tok::ident("mod"), Tok::ident("test_utils"), Tok::Open(Delim::Brace), Tok::ident("use"), Tok::ident("super"), Tok::Punct(':'), Tok::Punct(':'), Tok::Punct('*'), Tok::Punct(';'), Tok::ident("pub"), Tok::ident("trait")];
    assert(tokens::toks(k1@) =~= seq![tokens::id("pub"), tokens::id("mod"), tokens::id("test_utils"), TokV::Open(Delim::Brace), tokens::id("use"), tokens::id("super"), tokens::pc(':'), tokens::pc(':'), tokens::pc('*'), tokens::pc(';'), tokens::id("pub"), tokens::id("trait")]);
    tokens::extend_toks(&mut r, &k1);
    tokens::push_tok(&mut r, Tok::Ident(tname.clone()));
    let k2: Vec<Tok> = vec![Tok::Punct('<'), Tok::ident("MtApp"), Tok::Punct(','), Tok::ident("MultitestExecCustomType"), Tok::Punct(',')];
    assert(tokens::toks(k2@) =~= seq![tokens::pc('<'), tokens::id("MtApp"), tokens::pc(','), tokens::id("MultitestExecCustomType"), tokens::pc(',')]);
    tokens::extend_toks(&mut r, &k2);
    crate::interfaces::push_each_with_comma(&mut r, gp);
    let k3: Vec<Tok> = vec![Tok::Punct('>')];
    assert(tokens::toks(k3@) =~= seq![tokens::pc('>')]);
    tokens::extend_toks(&mut r, &k3);
    let wc = associated_types::opt_where_to_tokens(w);
    tokens::extend_toks(&mut r, &wc);
    let k4: Vec<Tok> = vec![Tok::Open(Delim::Brace)];
    assert(tokens::toks(k4@) =~= seq![TokV::Open(Delim::Brace)]);
    tokens::extend_toks(&mut r, &k4);
    tokens::extend_toks(&mut r, decls);
    let k5: Vec<Tok> = vec![Tok::Close(Delim::Brace)];
    assert(tokens::toks(k5@) =~= seq![TokV::Close(Delim::Brace)]);
    tokens::extend_toks(&mut r, &k5);
    assert(tokens::toks(r@) =~= test_utils_trait(tname@, parser::toks2(gp@), where_value(*w), tokens::toks(decls@)));
    r
}

fn test_utils_impl_for_exec(tname: &String, gp: &Vec<Vec<Tok>>, cmod: &Vec<Tok>, cproxy: &String, sylvia: &Vec<Tok>) -> (r: Vec<Tok>)
    ensures
        tokens::toks(r@) == test_utils_impl_for(tname@, parser::toks2(gp@), tokens::toks(cmod@), cproxy@, tokens::toks(sylvia@)),
{
    proof {
        reveal(test_utils_impl_for);
    }
    let mut r: Vec<Tok> = Vec::new();
    let k1: Vec<Tok> = vec![Tok::ident("impl"), Tok::Punct('<'), Tok::ident("BankT"), Tok::Punct(','), Tok::ident("ApiT"), Tok::Punct(','), Tok::ident("StorageT"), Tok::Punct(','), Tok::ident("CustomT"), Tok::Punct(','), Tok::ident("WasmT"), Tok::Punct(','), Tok::ident("StakingT"), Tok::Punct(','), Tok::ident("DistrT"), Tok::Punct(','), Tok::ident("IbcT"), Tok::Punct(','), Tok::ident("GovT"), Tok::Punct(','), Tok::ident("MultitestExecCustomType"), Tok::Punct(',')];
    assert(tokens::toks(k1@) =~= seq![tokens::id("impl"), tokens::pc('<'), tokens::id("BankT"), tokens::pc(','), tokens::id("ApiT"), tokens::pc(','), tokens::id("StorageT"), tokens::pc(','), tokens::id("CustomT"), tokens::pc(','), tokens::id("WasmT"), tokens::pc(','), tokens::id("StakingT"), tokens::pc(','), tokens::id("DistrT"), tokens::pc(','), tokens::id("IbcT"), tokens::pc(','), tokens::id("GovT"), tokens::pc(','), tokens::id("MultitestExecCustomType"), tokens::pc(',')]);
    tokens::extend_toks(&mut r, &k1);
    crate::interfaces::push_each_with_comma(&mut r, gp);
    let k2: Vec<Tok> = vec![Tok::Punct('>')];
    assert(tokens::toks(k2@) =~= seq![tokens::pc('>')]);
    tokens::extend_toks(&mut r, &k2);
    tokens::push_tok(&mut r, Tok::Ident(tname.clone()));
    let k3: Vec<Tok> = vec![Tok::Punct('<')];
    assert(tokens::toks(k3@) =~= seq![tokens::pc('<')]);
    tokens::extend_toks(&mut r, &k3);
    let a = proxy_app_exec(sylvia);
    tokens::extend_toks(&mut r, &a);
    let k4: Vec<Tok> = vec![Tok::Punct(','), Tok::ident("MultitestExecCustomType"), Tok::Punct(',')];
    assert(tokens::toks(k4@) =~= seq![tokens::pc(','), tokens::id("MultitestExecCustomType"), tokens::pc(',')]);
    tokens::extend_toks(&mut r, &k4);
    crate::interfaces::push_each_with_comma(&mut r, gp);
    let k5: Vec<Tok> = vec![Tok::Punct('>'), Tok::ident("for")];
    assert(tokens::toks(k5@) =~= seq![tokens::pc('>'), tokens::id("for")]);
    tokens::extend_toks(&mut r, &k5);
    tokens::extend_toks(&mut r, cmod);
    let k6: Vec<Tok> = vec![Tok::Punct(':'), Tok::Punct(':'), Tok::ident("sv"), Tok::Punct(':'), Tok::Punct(':'), Tok::ident("multitest_utils"), Tok::Punct(':'), Tok::Punct(':')];
    assert(tokens::toks(k6@) =~= seq![tokens::pc(':'), tokens::pc(':'), tokens::id("sv"), tokens::pc(':'), tokens::pc(':'), tokens::id("multitest_utils"), tokens::pc(':'), tokens::pc(':')]);
    tokens::extend_toks(&mut r, &k6);
    tokens::push_tok(&mut r, Tok::Ident(cproxy.clone()));
    let k7: Vec<Tok> = vec![Tok::Punct('<'), Tok::Punct('\''), Tok::ident("_"), Tok::Punct(',')];
    assert(tokens::toks(k7@) =~= seq![tokens::pc('<'), tokens::pc('\''), tokens::id("_"), tokens::pc(',')]);
    tokens::extend_toks(&mut r, &k7);
    let a = proxy_app_exec(sylvia);
    tokens::extend_toks(&mut r, &a);
    let k8: Vec<Tok> = vec![Tok::Punct(',')];
    assert(tokens::toks(k8@) =~= seq![tokens::pc(',')]);
    tokens::extend_toks(&mut r, &k8);
    crate::interfaces::push_each_with_comma(&mut r, gp);
    let k9: Vec<Tok> = vec![Tok::Punct('>'), Tok::ident("where")];
    assert(tokens::toks(k9@) =~= seq![tokens::pc('>'), tokens::id("where")]);
    tokens::extend_toks(&mut r, &k9);
    assert(tokens::toks(r@) =~= test_utils_impl_for(tname@, parser::toks2(gp@), tokens::toks(cmod@), cproxy@, tokens::toks(sylvia@)));
    r
}

fn test_utils_bounds_exec(w: &Option<WhereClause>, sylvia: &Vec<Tok>) -> (r: Vec<Tok>)
    ensures
        tokens::toks(r@) == test_utils_bounds(where_value(*w), tokens::toks(sylvia@)),
{
    proof {
        reveal(test_utils_bounds);
    }
    let mut r: Vec<Tok> = Vec::new();
    let k1: Vec<Tok> = vec![Tok::ident("MultitestExecCustomType"), Tok::Punct(':'), Tok::ident("Clone"), Tok::Punct('+'), Tok::ident("std"), Tok::Punct(':'), Tok::Punct(':'), Tok::ident("fmt"), Tok::Punct(':'), Tok::Punct(':'), Tok::ident("Debug"), Tok::Punct('+'), Tok::ident("std"), Tok::Punct(':'), Tok::Punct(':'), Tok::ident("cmp"), Tok::Punct(':'), Tok::Punct(':'), Tok::ident("PartialEq"), Tok::Punct('+'), Tok::ident("cosmwasm_schema"), Tok::Punct(':'), Tok::Punct(':'), Tok::ident("schemars"), Tok::Punct(':'), Tok::Punct(':'), Tok::ident("JsonSchema"), Tok::Punct('+'), Tok::Punct('\''), Tok::ident("static"), Tok::Punct(','), Tok::ident("CustomT"), Tok::Punct(':')];
    assert(tokens::toks(k1@) =~= seq![tokens::id("MultitestExecCustomType"), tokens::pc(':'), tokens::id("Clone"), tokens::pc('+'), tokens::id("std"), tokens::pc(':'), tokens::pc(':'), tokens::id("fmt"), tokens::pc(':'), tokens::pc(':'), tokens::id("Debug"), tokens::pc('+'), tokens::id("std"), tokens::pc(':'), tokens::pc(':'), tokens::id("cmp"), tokens::pc(':'), tokens::pc(':'), tokens::id("PartialEq"), tokens::pc('+'), tokens::id("cosmwasm_schema"), tokens::pc(':'), tokens::pc(':'), tokens::id("schemars"), tokens::pc(':'), tokens::pc(':'), tokens::id("JsonSchema"), tokens::pc('+'), tokens::pc('\''), tokens::id("static"), tokens::pc(','), tokens::id("CustomT"), tokens::pc(':')]);
    tokens::extend_toks(&mut r, &k1);
    push_path3(&mut r, sylvia, "cw_multi_test", "Module");
    let k2: Vec<Tok> = vec![Tok::Punct(','), Tok::ident("WasmT"), Tok::Punct(':')];
    assert(tokens::toks(k2@) =~= seq![tokens::pc(','), tokens::id("WasmT"), tokens::pc(':')]);
    tokens::extend_toks(&mut r, &k2);
    push_path3(&mut r, sylvia, "cw_multi_test", "Wasm");
    let k3: Vec<Tok> = vec![Tok::Punct('<'), Tok::ident("CustomT"), Tok::Punct(':'), Tok::Punct(':'), Tok::ident("ExecT"), Tok::Punct(','), Tok::ident("CustomT"), Tok::Punct(':'), Tok::Punct(':'), Tok::ident("QueryT"), Tok::Punct('>'), Tok::Punct(','), Tok::ident("BankT"), Tok::Punct(':')];
    assert(tokens::toks(k3@) =~= seq![tokens::pc('<'), tokens::id("CustomT"), tokens::pc(':'), tokens::pc(':'), tokens::id("ExecT"), tokens::pc(','), tokens::id("CustomT"), tokens::pc(':'), tokens::pc(':'), tokens::id("QueryT"), tokens::pc('>'), tokens::pc(','), tokens::id("BankT"), tokens::pc(':')]);
    tokens::extend_toks(&mut r, &k3);
    push_path3(&mut r, sylvia, "cw_multi_test", "Bank");
    let k4: Vec<Tok> = vec![Tok::Punct(','), Tok::ident("ApiT"), Tok::Punct(':')];
    assert(tokens::toks(k4@) =~= seq![tokens::pc(','), tokens::id("ApiT"), tokens::pc(':')]);
    tokens::extend_toks(&mut r, &k4);
    msg_type::push_cw_std_item(&mut r, sylvia, "Api");
    let k5: Vec<Tok> = vec![Tok::Punct(','), Tok::ident("StorageT"), Tok::Punct(':')];
    assert(tokens::toks(k5@) =~= seq![tokens::pc(','), tokens::id("StorageT"), tokens::pc(':')]);
    tokens::extend_toks(&mut r, &k5);
    msg_type::push_cw_std_item(&mut r, sylvia, "Storage");
    let k6: Vec<Tok> = vec![Tok::Punct(','), Tok::ident("CustomT"), Tok::Punct(':')];
    assert(tokens::toks(k6@) =~= seq![tokens::pc(','), tokens::id("CustomT"), tokens::pc(':')]);
    tokens::extend_toks(&mut r, &k6);
    push_path3(&mut r, sylvia, "cw_multi_test", "Module");
    let k7: Vec<Tok> = vec![Tok::Punct(','), Tok::ident("StakingT"), Tok::Punct(':')];
    assert(tokens::toks(k7@) =~= seq![tokens::pc(','), tokens::id("StakingT"), tokens::pc(':')]);
    tokens::extend_toks(&mut r, &k7);
    push_path3(&mut r, sylvia, "cw_multi_test", "Staking");
    let k8: Vec<Tok> = vec![Tok::Punct(','), Tok::ident("DistrT"), Tok::Punct(':')];
    assert(tokens::toks(k8@) =~= seq![tokens::pc(','), tokens::id("DistrT"), tokens::pc(':')]);
    tokens::extend_toks(&mut r, &k8);
    push_path3(&mut r, sylvia, "cw_multi_test", "Distribution");
    let k9: Vec<Tok> = vec![Tok::Punct(','), Tok::ident("IbcT"), Tok::Punct(':')];
    assert(tokens::toks(k9@) =~= seq![tokens::pc(','), tokens::id("IbcT"), tokens::pc(':')]);
    tokens::extend_toks(&mut r, &k9);
    push_path3(&mut r, sylvia, "cw_multi_test", "Ibc");
    let k10: Vec<Tok> = vec![Tok::Punct(','), Tok::ident("GovT"), Tok::Punct(':')];
    assert(tokens::toks(k10@) =~= seq![tokens::pc(','), tokens::id("GovT"), tokens::pc(':')]);
    tokens::extend_toks(&mut r, &k10);
    push_path3(&mut r, sylvia, "cw_multi_test", "Gov");
    let k11: Vec<Tok> = vec![Tok::Punct(','), Tok::ident("CustomT"), Tok::Punct(':'), Tok::Punct(':'), Tok::ident("ExecT"), Tok::Punct(':'), Tok::ident("Clone"), Tok::Punct('+'), Tok::ident("std"), Tok::Punct(':'), Tok::Punct(':'), Tok::ident("fmt"), Tok::Punct(':'), Tok::Punct(':'), Tok::ident("Debug"), Tok::Punct('+'), Tok::ident("PartialEq"), Tok::Punct('+')];
    assert(tokens::toks(k11@) =~= seq![tokens::pc(','), tokens::id("CustomT"), tokens::pc(':'), tokens::pc(':'), tokens::id("ExecT"), tokens::pc(':'), tokens::id("Clone"), tokens::pc('+'), tokens::id("std"), tokens::pc(':'), tokens::pc(':'), tokens::id("fmt"), tokens::pc(':'), tokens::pc(':'), tokens::id("Debug"), tokens::pc('+'), tokens::id("PartialEq"), tokens::pc('+')]);
    tokens::extend_toks(&mut r, &k11);
    push_path3(&mut r, sylvia, "schemars", "JsonSchema");
    let k12: Vec<Tok> = vec![Tok::Punct('+')];
    assert(tokens::toks(k12@) =~= seq![tokens::pc('+')]);
    tokens::extend_toks(&mut r, &k12);
    push_path4(&mut r, sylvia, "serde", "de", "DeserializeOwned");
    let k13: Vec<Tok> = vec![Tok::Punct('+'), Tok::Punct('\''), Tok::ident("static"), Tok::Punct(','), Tok::ident("CustomT"), Tok::Punct(':'), Tok::Punct(':'), Tok::ident("QueryT"), Tok::Punct(':')];
    assert(tokens::toks(k13@) =~= seq![tokens::pc('+'), tokens::pc('\''), tokens::id("static"), tokens::pc(','), tokens::id("CustomT"), tokens::pc(':'), tokens::pc(':'), tokens::id("QueryT"), tokens::pc(':')]);
    tokens::extend_toks(&mut r, &k13);
    msg_type::push_cw_std_item(&mut r, sylvia, "CustomQuery");
    let k14: Vec<Tok> = vec![Tok::Punct('+')];
    assert(tokens::toks(k14@) =~= seq![tokens::pc('+')]);
    tokens::extend_toks(&mut r, &k14);
    push_path4(&mut r, sylvia, "serde", "de", "DeserializeOwned");
    let k15: Vec<Tok> = vec![Tok::Punct('+'), Tok::Punct('\''), Tok::ident("static"), Tok::Punct(',')];
    assert(tokens::toks(k15@) =~= seq![tokens::pc('+'), tokens::pc('\''), tokens::id("static"), tokens::pc(',')]);
    tokens::extend_toks(&mut r, &k15);
    let a = proxy_app_exec(sylvia);
    tokens::extend_toks(&mut r, &a);
    let k16: Vec<Tok> = vec![Tok::Punct(':')];
    assert(tokens::toks(k16@) =~= seq![tokens::pc(':')]);
    tokens::extend_toks(&mut r, &k16);
    push_path3(&mut r, sylvia, "cw_multi_test", "Executor");
    let k17: Vec<Tok> = vec![Tok::Punct('<'), Tok::ident("MultitestExecCustomType"), Tok::Punct('>'), Tok::Punct(',')];
    assert(tokens::toks(k17@) =~= seq![tokens::pc('<'), tokens::id("MultitestExecCustomType"), tokens::pc('>'), tokens::pc(',')]);
    tokens::extend_toks(&mut r, &k17);
    let wp = associated_types::opt_predicates_to_tokens(w);
    tokens::extend_toks(&mut r, &wp);
    let k18: Vec<Tok> = vec![Tok::Open(Delim::Brace)];
    assert(tokens::toks(k18@) =~= seq![TokV::Open(Delim::Brace)]);
    tokens::extend_toks(&mut r, &k18);
    assert(tokens::toks(r@) =~= test_utils_bounds(where_value(*w), tokens::toks(sylvia@)));
    r
}


proof fn lemma_error_position_range(names: Seq<Seq<char>>)
    ensures
        error_position(names) matches Some(i) ==> 0 <= i < names.len() && names[i] == "Error"@,
    decreases names.len(),
{
    if names.len() > 0 {
        lemma_error_position_range(names.drop_last());
    }
}

proof fn lemma_error_position_extends(names: Seq<Seq<char>>, n: int)
    requires
        0 <= n <= names.len(),
        error_position(names.take(n)) is Some,
    ensures
        error_position(names) == error_position(names.take(n)),
    decreases names.len() - n,
{
    if n < names.len() {
        assert(names.take(n + 1).drop_last() =~= names.take(n));
        lemma_error_position_extends(names, n + 1);
    } else {
        assert(names.take(n) =~= names);
    }
}

/// The first associated type named `Error` among `items`.
fn find_error(items: &Vec<ImplItemType>) -> (r: Option<usize>)
    ensures
        match r {
            Some(i) => error_position(item_names(items@)) == Some(i as int) && i < items@.len(),
            None => error_position(item_names(items@)) is None,
        },
{
    let ghost names = item_names(items@);
    let mut k: usize = 0;
    while k < items.len()
        invariant
            k <= items@.len(),
            names == item_names(items@),
            error_position(names.take(k as int)) is None,
        decreases items@.len() - k,
    {
        assert(names.take(k + 1).drop_last() =~= names.take(k as int));
        if tokens::string_is(&items[k].ident, "Error") {
            proof {
                reveal_strlit("Error");
                lemma_error_position_extends(names, k + 1);
            }
            return Some(k);
        }
        k = k + 1;
    }
    assert(names.take(k as int) =~= names);
    None
}

/// Generator of the MultiTest helpers of an interface implementation.
pub struct ImplMtHelpers {
    /// The associated types the implementation defines.
    pub items: Vec<ImplItemType>,
    /// The type of its associated type `Error`.
    pub error_type: Vec<Tok>,
    pub interfaces: Interfaces,
    /// The generic parameters of the implementation.
    pub generic_params: Vec<Vec<Tok>>,
    pub where_clause: Option<WhereClause>,
    /// The path of the module of the contract.
    pub contract_module: Vec<Tok>,
    /// The identifier naming the contract type.
    pub contract_name: String,
    /// The identifier naming the interface trait.
    pub trait_name: String,
}


/// The custom message parameter of the proxy trait of an interface's implementation.
pub open spec fn mt_custom_msg() -> Seq<TokV> {
    seq![tokens::id("MultitestExecCustomType")]
}

/// The module `test_utils` of the implementation of an interface whose
/// messages are those of `vs`: a proxy method for each query, execute and
/// sudo message, in that order of kinds, sent through the interface's API
/// `api` and failing with `err`.
pub open spec fn impl_test_utils(
    tname: Seq<char>,
    gp: Seq<Seq<TokV>>,
    w: Option<(Seq<WherePredicateV>, bool)>,
    cmod: Seq<TokV>,
    cproxy: Seq<char>,
    vs: Seq<reply::MsgVariantV>,
    err: Seq<TokV>,
    api: Seq<TokV>,
    sylvia: Seq<TokV>,
) -> Seq<TokV> {
    let cm = mt_custom_msg();
    let app = proxy_app(sylvia);
    test_utils(
        tname,
        gp,
        w,
        cmod,
        cproxy,
        kind_decls(vs, MsgType::Query, cm, err, api, sylvia) + kind_decls(vs, MsgType::Exec, cm, err, api, sylvia) + kind_decls(
            vs,
            MsgType::Sudo,
            cm,
            err,
            api,
            sylvia,
        ),
        kind_defs(vs, MsgType::Query, cm, app, err, api, sylvia) + kind_defs(vs, MsgType::Exec, cm, app, err, api, sylvia)
            + kind_defs(vs, MsgType::Sudo, cm, app, err, api, sylvia),
        sylvia,
    )
}

impl ImplMtHelpers {
    /// The generator for the implementation of the trait `trait_path` by
    /// `contract`, with the associated types `items`; the interface macro
    /// makes the implementation define an associated type `Error`.
    pub fn new(
        items: Vec<ImplItemType>,
        trait_path: &Vec<Tok>,
        contract: &Vec<Tok>,
        generic_params: Vec<Vec<Tok>>,
        where_clause: Option<WhereClause>,
        interfaces: Interfaces,
        contract_module: Vec<Tok>,
    ) -> (r: ImplMtHelpers)
        requires
            error_position(item_names(items@)) is Some,
            is_type_path(tokens::toks(trait_path@)),
            is_type_path(tokens::toks(contract@)),
        ensures
            tokens::toks(r.error_type@) == tokens::toks(items@[error_position(item_names(items@))->0].ty@),
            r.items@ == items@,
            r.interfaces == interfaces,
            r.generic_params@ == generic_params@,
            r.where_clause == where_clause,
            r.contract_module@ == contract_module@,
            r.contract_name@ == type_ident(tokens::toks(contract@)),
            r.trait_name@ == type_ident(tokens::toks(trait_path@)),
    {
        proof {
            lemma_error_position_range(item_names(items@));
        }
        let error_type = match find_error(&items) {
            Some(i) => tokens::copy_toks(&items[i].ty),
            None => Vec::new(),
        };
        let contract_name = get_ident_from_type(contract);
        let trait_name = get_ident_from_type(trait_path);
        ImplMtHelpers { items, error_type, interfaces, generic_params, where_clause, contract_module, contract_name, trait_name }
    }

    /// The interface API that the proxy methods go through: the one of the
    /// module of the single interface the implementation declares, over the
    /// implementation's associated types; other interfaces are reported.
    pub fn emit_interface_api(&self, sylvia: &Vec<Tok>) -> (r: (Vec<Tok>, Vec<Diag>))
        ensures
            tokens::toks(r.0@) == impl_interface_api(
                if self.interfaces.interfaces@.len() == 1 {
                    Some(tokens::toks(self.interfaces.interfaces@[0].module@))
                } else {
                    None
                },
                Seq::new(
                    associated_types::kept_positions(item_names(self.items@)).len(),
                    |k: int| tokens::toks(self.items@[associated_types::kept_positions(item_names(self.items@))[k]].ty@),
                ),
                tokens::toks(sylvia@),
            ),
    {
        let assoc = ImplAssociatedTypes::new(&self.items);
        let types = assoc.as_types();
        let ghost kept = associated_types::kept_positions(item_names(self.items@));
        assert(item_names(self.items@) =~= Seq::new(self.items@.len(), |i: int| self.items@[i].ident@));
        assert(parser::toks2(types@) =~= Seq::new(kept.len(), |k: int| tokens::toks(self.items@[kept[k]].ty@)));
        let (only, diags) = self.interfaces.get_only_interface();
        let mut r: Vec<Tok> = Vec::new();
        tokens::push_punct(&mut r, '<');
        match only {
            Some(i) => {
                tokens::extend_toks(&mut r, &i.module);
                tokens::push_punct(&mut r, ':');
                tokens::push_punct(&mut r, ':');
            },
            None => {},
        }
        tokens::push_ident(&mut r, "sv");
        tokens::push_punct(&mut r, ':');
        tokens::push_punct(&mut r, ':');
        tokens::push_ident(&mut r, "Api");
        querier::push_bracketed_generics(&mut r, &types);
        tokens::push_ident(&mut r, "as");
        tokens::extend_toks(&mut r, sylvia);
        tokens::push_punct(&mut r, ':');
        tokens::push_punct(&mut r, ':');
        tokens::push_ident(&mut r, "types");
        tokens::push_punct(&mut r, ':');
        tokens::push_punct(&mut r, ':');
        tokens::push_ident(&mut r, "InterfaceApi");
        tokens::push_punct(&mut r, '>');
        (r, diags)
    }

    /// The module `test_utils` for the interface's messages `variants`: the
    /// proxy trait with a method for each of its queries, execute and sudo
    /// messages and its implementation on the contract's proxy, through the
    /// interface API of `emit_interface_api`, whose diagnostics it returns.
    pub fn emit_for_variants(&self, sylvia: &Vec<Tok>, variants: &Vec<MsgVariant>) -> (r: (Vec<Tok>, Vec<Diag>))
        ensures
            tokens::toks(r.0@) == impl_test_utils(
                self.trait_name@,
                parser::toks2(self.generic_params@),
                where_value(self.where_clause),
                tokens::toks(self.contract_module@),
                proxy_name_of(self.contract_name@),
                reply::variants_view(variants@),
                tokens::toks(self.error_type@),
                impl_interface_api(
                    if self.interfaces.interfaces@.len() == 1 {
                        Some(tokens::toks(self.interfaces.interfaces@[0].module@))
                    } else {
                        None
                    },
                    Seq::new(
                        associated_types::kept_positions(item_names(self.items@)).len(),
                        |k: int| tokens::toks(self.items@[associated_types::kept_positions(item_names(self.items@))[k]].ty@),
                    ),
                    tokens::toks(sylvia@),
                ),
                tokens::toks(sylvia@),
            ),
    {
        let (api, diags) = self.emit_interface_api(sylvia);
        let mut cm: Vec<Tok> = Vec::new();
        tokens::push_ident(&mut cm, "MultitestExecCustomType");
        assert(tokens::toks(cm@) =~= mt_custom_msg());
        let app = proxy_app_exec(sylvia);
        let mut qd: Vec<Tok> = Vec::new();
        assert(tokens::toks(qd@) =~= Seq::<TokV>::empty());
        push_kind_decls(&mut qd, variants, MsgType::Query, &cm, &self.error_type, &api, sylvia);
        let mut ed: Vec<Tok> = Vec::new();
        assert(tokens::toks(ed@) =~= Seq::<TokV>::empty());
        push_kind_decls(&mut ed, variants, MsgType::Exec, &cm, &self.error_type, &api, sylvia);
        let mut sd: Vec<Tok> = Vec::new();
        assert(tokens::toks(sd@) =~= Seq::<TokV>::empty());
        push_kind_decls(&mut sd, variants, MsgType::Sudo, &cm, &self.error_type, &api, sylvia);
        let mut qm: Vec<Tok> = Vec::new();
        assert(tokens::toks(qm@) =~= Seq::<TokV>::empty());
        push_kind_defs(&mut qm, variants, MsgType::Query, &cm, &app, &self.error_type, &api, sylvia);
        let mut em: Vec<Tok> = Vec::new();
        assert(tokens::toks(em@) =~= Seq::<TokV>::empty());
        push_kind_defs(&mut em, variants, MsgType::Exec, &cm, &app, &self.error_type, &api, sylvia);
        let mut sm: Vec<Tok> = Vec::new();
        assert(tokens::toks(sm@) =~= Seq::<TokV>::empty());
        push_kind_defs(&mut sm, variants, MsgType::Sudo, &cm, &app, &self.error_type, &api, sylvia);
        let r = self.emit(sylvia, &qd, &ed, &sd, &qm, &em, &sm);
        (r, diags)
    }

    /// The module `test_utils`: the trait of the interface's proxy methods,
    /// declared by `query_decls`, `exec_decls` and `sudo_decls`, and its
    /// implementation on the contract's proxy with the methods
    /// `query_methods`, `exec_methods` and `sudo_methods`.
    pub fn emit(
        &self,
        sylvia: &Vec<Tok>,
        query_decls: &Vec<Tok>,
        exec_decls: &Vec<Tok>,
        sudo_decls: &Vec<Tok>,
        query_methods: &Vec<Tok>,
        exec_methods: &Vec<Tok>,
        sudo_methods: &Vec<Tok>,
    ) -> (r: Vec<Tok>)
        ensures
            tokens::toks(r@) == test_utils(
                self.trait_name@,
                parser::toks2(self.generic_params@),
                where_value(self.where_clause),
                tokens::toks(self.contract_module@),
                proxy_name_of(self.contract_name@),
                tokens::toks(query_decls@) + tokens::toks(exec_decls@) + tokens::toks(sudo_decls@),
                tokens::toks(query_methods@) + tokens::toks(exec_methods@) + tokens::toks(sudo_methods@),
                tokens::toks(sylvia@),
            ),
    {
        let mut decls = tokens::copy_toks(query_decls);
        tokens::extend_toks(&mut decls, exec_decls);
        tokens::extend_toks(&mut decls, sudo_decls);
        let mut cproxy = self.contract_name.clone();
        cproxy.append("Proxy");
        let mut r = test_utils_trait_exec(&self.trait_name, &self.generic_params, &self.where_clause, &decls);
        let h = test_utils_impl_for_exec(&self.trait_name, &self.generic_params, &self.contract_module, &cproxy, sylvia);
        tokens::extend_toks(&mut r, &h);
        let b = test_utils_bounds_exec(&self.where_clause, sylvia);
        tokens::extend_toks(&mut r, &b);
        tokens::extend_toks(&mut r, query_methods);
        tokens::extend_toks(&mut r, exec_methods);
        tokens::extend_toks(&mut r, sudo_methods);
        tokens::push_tok(&mut r, Tok::Close(Delim::Brace));
        tokens::push_tok(&mut r, Tok::Close(Delim::Brace));
        r
    }
}

} // verus!
