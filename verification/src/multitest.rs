//! The MultiTest helpers of a contract: the implementation of MultiTest's
//! `Contract` trait, dispatching each kind of message as the entry points do.
use vstd::prelude::*;
use crate::associated_types::{self, WhereClause, WherePredicateV};
use crate::entry_points::{self, default_dispatch, mt_dispatch, Dispatch};
use crate::instantiate_builder::{get_ident_from_type, is_type_path, type_ident};
use crate::msg_type::{self, cw_std_item, MsgType};
use crate::interfaces::each_with_comma;
use crate::mt::{params_each_comma, path3, push_path3};
use crate::parser::{self, Attribute, ContractErrorAttr, Custom, OverrideEntryPoints, OverrideEntryPointV};
use crate::querier::{self, bracketed_generics, method_name, where_value};
use crate::reply::{self, MsgFieldV, MsgVariant, MsgVariantV};
use crate::tokens::{self, Delim, Tok, TokV};
use crate::glue::{self, push_path4};

verus! {

/// The position of the first method handling messages of kind `ty`.
pub open spec fn first_of_kind(vs: Seq<MsgVariantV>, ty: MsgType) -> Option<int>
    decreases vs.len(),
{
    if vs.len() == 0 {
        None
    } else {
        match first_of_kind(vs.drop_last(), ty) {
            Some(i) => Some(i),
            None => if vs.last().msg_type == ty {
                Some(vs.len() - 1)
            } else {
                None
            },
        }
    }
}

proof fn lemma_first_of_kind(vs: Seq<MsgVariantV>, ty: MsgType)
    ensures
        match first_of_kind(vs, ty) {
            Some(i) => 0 <= i < vs.len() && vs[i].msg_type == ty && forall|q: int| 0 <= q < i ==> (#[trigger] vs[q]).msg_type != ty,
            None => forall|q: int| 0 <= q < vs.len() ==> (#[trigger] vs[q]).msg_type != ty,
        },
    decreases vs.len(),
{
    if vs.len() > 0 {
        lemma_first_of_kind(vs.drop_last(), ty);
        assert forall|q: int| 0 <= q < vs.len() - 1 implies vs.drop_last()[q] == vs[q] by {}
    }
}

proof fn lemma_first_of_kind_is(vs: Seq<MsgVariantV>, ty: MsgType, i: int)
    requires
        0 <= i < vs.len(),
        vs[i].msg_type == ty,
        forall|q: int| 0 <= q < i ==> (#[trigger] vs[q]).msg_type != ty,
    ensures
        first_of_kind(vs, ty) == Some(i),
    decreases vs.len(),
{
    if i < vs.len() - 1 {
        assert forall|q: int| 0 <= q < i implies (#[trigger] vs.drop_last()[q]).msg_type != ty by {
            assert(vs.drop_last()[q] == vs[q]);
        }
        lemma_first_of_kind_is(vs.drop_last(), ty, i);
    } else {
        lemma_first_of_kind(vs.drop_last(), ty);
        if first_of_kind(vs.drop_last(), ty) is Some {
            let j = first_of_kind(vs.drop_last(), ty)->0;
            assert(vs.drop_last()[j] == vs[j]);
        }
    }
}

/// The position of the first method of `vs` handling messages of kind `ty`.
pub fn find_first_of_kind(vs: &Vec<MsgVariant>, ty: MsgType) -> (r: Option<usize>)
    ensures
        match r {
            Some(i) => first_of_kind(reply::variants_view(vs@), ty) == Some(i as int),
            None => first_of_kind(reply::variants_view(vs@), ty) is None,
        },
{
    let ghost vv = reply::variants_view(vs@);
    let mut i: usize = 0;
    while i < vs.len()
        invariant
            vv == reply::variants_view(vs@),
            i <= vs.len(),
            forall|q: int| 0 <= q < i ==> (#[trigger] vv[q]).msg_type != ty,
        decreases vs.len() - i,
    {
        if vs[i].msg_type == ty {
            proof {
                lemma_first_of_kind_is(vv, ty, i as int);
            }
            return Some(i);
        }
        i = i + 1;
    }
    proof {
        lemma_first_of_kind(vv, ty);
        if first_of_kind(vv, ty) is Some {
            let j = first_of_kind(vv, ty)->0;
            assert(vv[j].msg_type == ty);
        }
    }
    None
}

/// `sylvia :: anyhow :: bail ! ( "what not implemented for contract" )`
pub open spec fn bail(sylvia: Seq<TokV>, message: Seq<char>) -> Seq<TokV> {
    path3(sylvia, "anyhow", "bail") + seq![tokens::pc('!'), TokV::Open(Delim::Paren), TokV::Lit(message), TokV::Close(Delim::Paren)]
}

/// `self . handler ( ( deps , env ) . into ( ) , msg ) . map_err ( Into :: into )`
pub open spec fn reply_call(v: MsgVariantV) -> Seq<TokV> {
    seq![
        tokens::id("self"),
        tokens::pc('.'),
        TokV::Ident(method_name(v)),
        TokV::Open(Delim::Paren),
        TokV::Open(Delim::Paren),
        tokens::id("deps"),
        tokens::pc(','),
        tokens::id("env"),
        TokV::Close(Delim::Paren),
        tokens::pc('.'),
        tokens::id("into"),
        TokV::Open(Delim::Paren),
        TokV::Close(Delim::Paren),
        tokens::pc(','),
        tokens::id("msg"),
        TokV::Close(Delim::Paren),
        tokens::pc('.'),
        tokens::id("map_err"),
        TokV::Open(Delim::Paren),
        tokens::id("Into"),
        tokens::pc(':'),
        tokens::pc(':'),
        tokens::id("into"),
        TokV::Close(Delim::Paren),
    ]
}

/// The literal of the error a proxy bails out with for a kind the contract
/// does not handle.
pub open spec fn not_implemented(ty: MsgType) -> Seq<char> {
    if ty == MsgType::Migrate {
        "\"migrate not implemented for contract\""@
    } else {
        "\"reply not implemented for contract\""@
    }
}

/// How the MultiTest contract handles a message of kind `ty`: through the
/// overriding entry point, through the contract's dispatch (for replies, its
/// first reply handler), or by bailing out.
pub open spec fn mt_body(
    ty: MsgType,
    eps: Seq<OverrideEntryPointV>,
    contract: Seq<TokV>,
    vs: Seq<MsgVariantV>,
    sylvia: Seq<TokV>,
) -> Seq<TokV> {
    match mt_dispatch(eps, ty, first_of_kind(vs, ty) is Some) {
        Dispatch::Override(i) => parser::multitest_dispatch(eps[i as int], sylvia),
        Dispatch::Default => if ty == MsgType::Reply {
            reply_call(vs[first_of_kind(vs, ty)->0])
        } else {
            default_dispatch(ty, contract, sylvia)
        },
        Dispatch::NotImplemented => bail(sylvia, not_implemented(ty)),
    }
}

/// `deps : sylvia :: cw_std :: DepsMut < query > ,` (`Deps` when not mutable)
pub open spec fn deps_param(mutable: bool, query: Seq<TokV>, sylvia: Seq<TokV>) -> Seq<TokV> {
    seq![tokens::id("deps"), tokens::pc(':')] + cw_std_item(sylvia, if mutable { "DepsMut" } else { "Deps" }) + seq![
        tokens::pc('<'),
    ] + query + seq![tokens::pc('>'), tokens::pc(',')]
}

/// `name : sylvia :: cw_std :: Type ,`
pub open spec fn std_param(name: &str, ty: &str, sylvia: Seq<TokV>) -> Seq<TokV> {
    seq![tokens::id(name), tokens::pc(':')] + cw_std_item(sylvia, ty) + seq![tokens::pc(',')]
}

/// `msg : Vec < u8 > ,`
pub open spec fn bytes_param() -> Seq<TokV> {
    seq![
        tokens::id("msg"),
        tokens::pc(':'),
        tokens::id("Vec"),
        tokens::pc('<'),
        tokens::id("u8"),
        tokens::pc('>'),
        tokens::pc(','),
    ]
}

/// `sylvia :: anyhow :: Result < ok >`
pub open spec fn anyhow_result(ok: Seq<TokV>, sylvia: Seq<TokV>) -> Seq<TokV> {
    path3(sylvia, "anyhow", "Result") + seq![tokens::pc('<')] + ok + seq![tokens::pc('>')]
}

/// `sylvia :: cw_std :: Response < custom_msg >`
pub open spec fn response(custom_msg: Seq<TokV>, sylvia: Seq<TokV>) -> Seq<TokV> {
    cw_std_item(sylvia, "Response") + seq![tokens::pc('<')] + custom_msg + seq![tokens::pc('>')]
}

/// `fn name ( & self , params ) -> ret { body }`
pub open spec fn fn_item(name: &str, params: Seq<TokV>, ret: Seq<TokV>, body: Seq<TokV>) -> Seq<TokV> {
    seq![tokens::id("fn"), tokens::id(name), TokV::Open(Delim::Paren), tokens::pc('&'), tokens::id("self"), tokens::pc(',')]
        + params + seq![TokV::Close(Delim::Paren), tokens::pc('-'), tokens::pc('>')] + ret + seq![TokV::Open(Delim::Brace)]
        + body + seq![TokV::Close(Delim::Brace)]
}

/// The parameters of the handler of kind `ty` in MultiTest's `Contract`.
pub open spec fn mt_params(ty: MsgType, query: Seq<TokV>, sylvia: Seq<TokV>) -> Seq<TokV> {
    match ty {
        MsgType::Exec | MsgType::Instantiate => deps_param(true, query, sylvia) + std_param("env", "Env", sylvia) + std_param(
            "info",
            "MessageInfo",
            sylvia,
        ) + bytes_param(),
        MsgType::Query => deps_param(false, query, sylvia) + std_param("env", "Env", sylvia) + bytes_param(),
        MsgType::Reply => deps_param(true, query, sylvia) + std_param("env", "Env", sylvia) + std_param("msg", "Reply", sylvia),
        _ => deps_param(true, query, sylvia) + std_param("env", "Env", sylvia) + bytes_param(),
    }
}

/// The result type of the handler of kind `ty` in MultiTest's `Contract`.
pub open spec fn mt_ret(ty: MsgType, custom_msg: Seq<TokV>, sylvia: Seq<TokV>) -> Seq<TokV> {
    if ty == MsgType::Query {
        anyhow_result(cw_std_item(sylvia, "Binary"), sylvia)
    } else {
        anyhow_result(response(custom_msg, sylvia), sylvia)
    }
}

/// The handler of kind `ty` in MultiTest's `Contract`.
pub open spec fn mt_handler(
    ty: MsgType,
    eps: Seq<OverrideEntryPointV>,
    contract: Seq<TokV>,
    vs: Seq<MsgVariantV>,
    custom_msg: Seq<TokV>,
    custom_query: Seq<TokV>,
    sylvia: Seq<TokV>,
) -> Seq<TokV> {
    fn_item(
        match ty {
            MsgType::Exec => "execute",
            MsgType::Instantiate => "instantiate",
            MsgType::Query => "query",
            MsgType::Sudo => "sudo",
            MsgType::Reply => "reply",
            MsgType::Migrate => "migrate",
        },
        mt_params(ty, custom_query, sylvia),
        mt_ret(ty, custom_msg, sylvia),
        mt_body(ty, eps, contract, vs, sylvia),
    )
}

/// `impl <generics> sylvia :: cw_multi_test :: Contract < custom_msg , custom_query > for Contract where .. {`
pub open spec fn mt_contract_head(
    gs: Seq<Seq<TokV>>,
    w: Option<(Seq<WherePredicateV>, bool)>,
    contract: Seq<TokV>,
    custom_msg: Seq<TokV>,
    custom_query: Seq<TokV>,
    sylvia: Seq<TokV>,
) -> Seq<TokV> {
    seq![tokens::id("impl")] + bracketed_generics(gs) + path3(sylvia, "cw_multi_test", "Contract") + seq![tokens::pc('<')] + custom_msg
        + seq![tokens::pc(',')] + custom_query + seq![tokens::pc('>'), tokens::id("for")] + contract + associated_types::opt_where_tokens(w)
        + seq![TokV::Open(Delim::Brace)]
}

/// The implementation of MultiTest's `Contract` for the contract: its
/// execute, instantiate, query, sudo, reply and migrate handlers.
pub open spec fn mt_contract_impl(
    gs: Seq<Seq<TokV>>,
    w: Option<(Seq<WherePredicateV>, bool)>,
    contract: Seq<TokV>,
    eps: Seq<OverrideEntryPointV>,
    vs: Seq<MsgVariantV>,
    custom_msg: Seq<TokV>,
    custom_query: Seq<TokV>,
    sylvia: Seq<TokV>,
) -> Seq<TokV> {
    mt_contract_head(gs, w, contract, custom_msg, custom_query, sylvia) + mt_handler(
        MsgType::Exec,
        eps,
        contract,
        vs,
        custom_msg,
        custom_query,
        sylvia,
    ) + mt_handler(MsgType::Instantiate, eps, contract, vs, custom_msg, custom_query, sylvia) + mt_handler(
        MsgType::Query,
        eps,
        contract,
        vs,
        custom_msg,
        custom_query,
        sylvia,
    ) + mt_handler(MsgType::Sudo, eps, contract, vs, custom_msg, custom_query, sylvia) + mt_handler(
        MsgType::Reply,
        eps,
        contract,
        vs,
        custom_msg,
        custom_query,
        sylvia,
    ) + mt_handler(MsgType::Migrate, eps, contract, vs, custom_msg, custom_query, sylvia) + seq![TokV::Close(Delim::Brace)]
}

/// `sylvia :: cw_multi_test :: App < BankT , ApiT , StorageT , CustomT , WasmKeeper < msg , query > , StakingT , DistrT , IbcT , GovT , >`
pub open spec fn contract_app(sylvia: Seq<TokV>, cm: Seq<TokV>, cq: Seq<TokV>) -> Seq<TokV> {
    path3(sylvia, "cw_multi_test", "App")
        + seq![tokens::pc('<'), tokens::id("BankT"), tokens::pc(','), tokens::id("ApiT"), tokens::pc(','), tokens::id("StorageT"), tokens::pc(','), tokens::id("CustomT"), tokens::pc(',')]
        + path3(sylvia, "cw_multi_test", "WasmKeeper")
        + seq![tokens::pc('<')]
        + cm
        + seq![tokens::pc(',')]
        + cq
        + seq![tokens::pc('>'), tokens::pc(','), tokens::id("StakingT"), tokens::pc(','), tokens::id("DistrT"), tokens::pc(','), tokens::id("IbcT"), tokens::pc(','), tokens::id("GovT"), tokens::pc(','), tokens::pc('>')]
}

/// `pub struct CodeId < 'app , generics , MtApp > { code_id : u64 , app : .. , _phantom : .. , }`
pub open spec fn code_id_struct(gp: Seq<Seq<TokV>>, sylvia: Seq<TokV>) -> Seq<TokV> {
    seq![tokens::id("pub"), tokens::id("struct"), tokens::id("CodeId"), tokens::pc('<'), tokens::pc('\''), tokens::id("app"), tokens::pc(',')]
        + each_with_comma(gp)
        + seq![tokens::id("MtApp"), tokens::pc('>'), TokV::Open(Delim::Brace), tokens::id("code_id"), tokens::pc(':'), tokens::id("u64"), tokens::pc(','), tokens::id("app"), tokens::pc(':'), tokens::pc('&'), tokens::pc('\''), tokens::id("app")]
        + path3(sylvia, "multitest", "App")
        + seq![tokens::pc('<'), tokens::id("MtApp"), tokens::pc('>'), tokens::pc(','), tokens::id("_phantom"), tokens::pc(':'), tokens::id("std"), tokens::pc(':'), tokens::pc(':'), tokens::id("marker"), tokens::pc(':'), tokens::pc(':'), tokens::id("PhantomData"), tokens::pc('<'), TokV::Open(Delim::Paren)]
        + each_with_comma(gp)
        + seq![TokV::Close(Delim::Paren), tokens::pc('>'), tokens::pc(','), TokV::Close(Delim::Brace)]
}

/// The head of the implementation of `CodeId` over the contract's app, with its bounds.
pub open spec fn code_id_impl_head(gp: Seq<Seq<TokV>>, w: Option<(Seq<WherePredicateV>, bool)>, cm: Seq<TokV>, cq: Seq<TokV>, sylvia: Seq<TokV>) -> Seq<TokV> {
    seq![tokens::id("impl"), tokens::pc('<'), tokens::pc('\''), tokens::id("app"), tokens::pc(','), tokens::id("BankT"), tokens::pc(','), tokens::id("ApiT"), tokens::pc(','), tokens::id("StorageT"), tokens::pc(','), tokens::id("CustomT"), tokens::pc(','), tokens::id("StakingT"), tokens::pc(','), tokens::id("DistrT"), tokens::pc(','), tokens::id("IbcT"), tokens::pc(','), tokens::id("GovT"), tokens::pc(',')]
        + each_with_comma(gp)
        + seq![tokens::pc('>'), tokens::id("CodeId"), tokens::pc('<'), tokens::pc('\''), tokens::id("app"), tokens::pc(',')]
        + each_with_comma(gp)
        + contract_app(sylvia, cm, cq)
        + seq![tokens::pc('>'), tokens::id("where"), tokens::id("BankT"), tokens::pc(':')]
        + path3(sylvia, "cw_multi_test", "Bank")
        + seq![tokens::pc(','), tokens::id("ApiT"), tokens::pc(':')]
        + cw_std_item(sylvia, "Api")
        + seq![tokens::pc(','), tokens::id("StorageT"), tokens::pc(':')]
        + cw_std_item(sylvia, "Storage")
        + seq![tokens::pc(','), tokens::id("CustomT"), tokens::pc(':')]
        + path3(sylvia, "cw_multi_test", "Module")
        + seq![tokens::pc('<'), tokens::id("ExecT"), tokens::pc('=')]
        + cm
        + seq![tokens::pc(','), tokens::id("QueryT"), tokens::pc('=')]
        + cq
        + seq![tokens::pc('>'), tokens::pc(','), tokens::id("StakingT"), tokens::pc(':')]
        + path3(sylvia, "cw_multi_test", "Staking")
        + seq![tokens::pc(','), tokens::id("DistrT"), tokens::pc(':')]
        + path3(sylvia, "cw_multi_test", "Distribution")
        + seq![tokens::pc(','), tokens::id("IbcT"), tokens::pc(':')]
        + path3(sylvia, "cw_multi_test", "Ibc")
        + seq![tokens::pc(','), tokens::id("GovT"), tokens::pc(':')]
        + path3(sylvia, "cw_multi_test", "Gov")
        + seq![tokens::pc(',')]
        + associated_types::opt_punctuated(w)
        + seq![TokV::Open(Delim::Brace)]
}

/// `pub fn store_code ( app : .. ) -> Self { .. } pub fn code_id ( & self ) -> u64 { self . code_id }`
pub open spec fn store_code_fns(contract: Seq<TokV>, cm: Seq<TokV>, cq: Seq<TokV>, sylvia: Seq<TokV>) -> Seq<TokV> {
    seq![tokens::id("pub"), tokens::id("fn"), tokens::id("store_code"), TokV::Open(Delim::Paren), tokens::id("app"), tokens::pc(':'), tokens::pc('&'), tokens::pc('\''), tokens::id("app")]
        + path3(sylvia, "multitest", "App")
        + seq![tokens::pc('<')]
        + contract_app(sylvia, cm, cq)
        + seq![tokens::pc('>'), TokV::Close(Delim::Paren), tokens::pc('-'), tokens::pc('>'), tokens::id("Self"), TokV::Open(Delim::Brace), tokens::id("let"), tokens::id("code_id"), tokens::pc('='), tokens::id("app"), tokens::pc('.'), tokens::id("app_mut"), TokV::Open(Delim::Paren), TokV::Close(Delim::Paren), tokens::pc('.'), tokens::id("store_code"), TokV::Open(Delim::Paren), tokens::id("Box"), tokens::pc(':'), tokens::pc(':'), tokens::id("new"), TokV::Open(Delim::Paren)]
        + contract
        + seq![tokens::pc(':'), tokens::pc(':'), tokens::id("new"), TokV::Open(Delim::Paren), TokV::Close(Delim::Paren), TokV::Close(Delim::Paren), TokV::Close(Delim::Paren), tokens::pc(';'), tokens::id("Self"), TokV::Open(Delim::Brace), tokens::id("code_id"), tokens::pc(','), tokens::id("app"), tokens::pc(','), tokens::id("_phantom"), tokens::pc(':'), tokens::id("std"), tokens::pc(':'), tokens::pc(':'), tokens::id("marker"), tokens::pc(':'), tokens::pc(':'), tokens::id("PhantomData"), tokens::pc(':'), tokens::pc(':'), tokens::id("default"), TokV::Open(Delim::Paren), TokV::Close(Delim::Paren), TokV::Close(Delim::Brace), TokV::Close(Delim::Brace), tokens::id("pub"), tokens::id("fn"), tokens::id("code_id"), TokV::Open(Delim::Paren), tokens::pc('&'), tokens::id("self"), TokV::Close(Delim::Paren), tokens::pc('-'), tokens::pc('>'), tokens::id("u64"), TokV::Open(Delim::Brace), tokens::id("self"), tokens::pc('.'), tokens::id("code_id"), TokV::Close(Delim::Brace)]
}

/// `pub fn code_info ( & self ) -> .. { self . app . app ( ) . wrap ( ) . query_wasm_code_info ( self . code_id ) }`
pub open spec fn code_info_fn(sylvia: Seq<TokV>) -> Seq<TokV> {
    seq![tokens::id("pub"), tokens::id("fn"), tokens::id("code_info"), TokV::Open(Delim::Paren), tokens::pc('&'), tokens::id("self"), TokV::Close(Delim::Paren), tokens::pc('-'), tokens::pc('>')]
        + cw_std_item(sylvia, "StdResult")
        + seq![tokens::pc('<')]
        + cw_std_item(sylvia, "CodeInfoResponse")
        + seq![tokens::pc('>'), TokV::Open(Delim::Brace), tokens::id("self"), tokens::pc('.'), tokens::id("app"), tokens::pc('.'), tokens::id("app"), TokV::Open(Delim::Paren), TokV::Close(Delim::Paren), tokens::pc('.'), tokens::id("wrap"), TokV::Open(Delim::Paren), TokV::Close(Delim::Paren), tokens::pc('.'), tokens::id("query_wasm_code_info"), TokV::Open(Delim::Paren), tokens::id("self"), tokens::pc('.'), tokens::id("code_id"), TokV::Close(Delim::Paren), TokV::Close(Delim::Brace)]
}

/// `pub fn instantiate ( & self , params , ) -> InstantiateProxy < .. > { .. } }`, closing the implementation of `CodeId`.
pub open spec fn instantiate_fn(gp: Seq<Seq<TokV>>, imsg: Seq<TokV>, params: Seq<TokV>, names: Seq<TokV>, cm: Seq<TokV>, cq: Seq<TokV>, sylvia: Seq<TokV>) -> Seq<TokV> {
    seq![tokens::id("pub"), tokens::id("fn"), tokens::id("instantiate"), TokV::Open(Delim::Paren), tokens::pc('&'), tokens::id("self"), tokens::pc(',')]
        + params
        + seq![TokV::Close(Delim::Paren), tokens::pc('-'), tokens::pc('>'), tokens::id("InstantiateProxy"), tokens::pc('<'), tokens::pc('\''), tokens::id("_"), tokens::pc(','), tokens::pc('\''), tokens::id("app"), tokens::pc(',')]
        + each_with_comma(gp)
        + contract_app(sylvia, cm, cq)
        + seq![tokens::pc('>'), TokV::Open(Delim::Brace), tokens::id("let"), tokens::id("msg"), tokens::pc('=')]
        + imsg
        + seq![TokV::Open(Delim::Brace)]
        + names
        + seq![TokV::Close(Delim::Brace), tokens::pc(';'), tokens::id("InstantiateProxy"), tokens::pc(':'), tokens::pc(':'), tokens::pc('<')]
        + each_with_comma(gp)
        + seq![tokens::id("_"), tokens::pc('>'), TokV::Open(Delim::Brace), tokens::id("code_id"), tokens::pc(':'), tokens::id("self"), tokens::pc(','), tokens::id("funds"), tokens::pc(':'), tokens::pc('&'), TokV::Open(Delim::Bracket), TokV::Close(Delim::Bracket), tokens::pc(','), tokens::id("label"), tokens::pc(':'), TokV::Lit("\"Contract\""@), tokens::pc(','), tokens::id("admin"), tokens::pc(':'), tokens::id("None"), tokens::pc(','), tokens::id("salt"), tokens::pc(':'), tokens::id("None"), tokens::pc(','), tokens::id("msg"), tokens::pc(','), TokV::Close(Delim::Brace), TokV::Close(Delim::Brace), TokV::Close(Delim::Brace)]
}

/// `pub struct InstantiateProxy < 'proxy , 'app , generics , MtApp > { .. }`
pub open spec fn proxy_struct(gp: Seq<Seq<TokV>>, ug: Seq<Seq<TokV>>, sylvia: Seq<TokV>) -> Seq<TokV> {
    seq![tokens::id("pub"), tokens::id("struct"), tokens::id("InstantiateProxy"), tokens::pc('<'), tokens::pc('\''), tokens::id("proxy"), tokens::pc(','), tokens::pc('\''), tokens::id("app"), tokens::pc(',')]
        + each_with_comma(gp)
        + seq![tokens::id("MtApp"), tokens::pc('>'), TokV::Open(Delim::Brace), tokens::id("code_id"), tokens::pc(':'), tokens::pc('&'), tokens::pc('\''), tokens::id("proxy"), tokens::id("CodeId"), tokens::pc('<'), tokens::pc('\''), tokens::id("app"), tokens::pc(',')]
        + each_with_comma(gp)
        + seq![tokens::id("MtApp"), tokens::pc('>'), tokens::pc(','), tokens::id("funds"), tokens::pc(':'), tokens::pc('&'), tokens::pc('\''), tokens::id("proxy"), TokV::Open(Delim::Bracket)]
        + cw_std_item(sylvia, "Coin")
        + seq![TokV::Close(Delim::Bracket), tokens::pc(','), tokens::id("label"), tokens::pc(':'), tokens::pc('&'), tokens::pc('\''), tokens::id("proxy"), tokens::id("str"), tokens::pc(','), tokens::id("admin"), tokens::pc(':'), tokens::id("Option"), tokens::pc('<'), tokens::id("String"), tokens::pc('>'), tokens::pc(','), tokens::id("salt"), tokens::pc(':'), tokens::id("Option"), tokens::pc('<'), tokens::pc('&'), tokens::pc('\''), tokens::id("proxy"), TokV::Open(Delim::Bracket), tokens::id("u8"), TokV::Close(Delim::Bracket), tokens::pc('>'), tokens::pc(','), tokens::id("msg"), tokens::pc(':'), tokens::id("InstantiateMsg")]
        + querier::bracketed_generics(ug)
        + seq![tokens::pc(','), TokV::Close(Delim::Brace)]
}

/// The head of the implementation of `InstantiateProxy`, with `with_funds` and `with_label`.
pub open spec fn proxy_impl_head(gp: Seq<Seq<TokV>>, w: Option<(Seq<WherePredicateV>, bool)>, cm: Seq<TokV>, sylvia: Seq<TokV>) -> Seq<TokV> {
    seq![tokens::id("impl"), tokens::pc('<'), tokens::pc('\''), tokens::id("proxy"), tokens::pc(','), tokens::pc('\''), tokens::id("app"), tokens::pc(',')]
        + each_with_comma(gp)
        + seq![tokens::id("MtApp"), tokens::pc('>'), tokens::id("InstantiateProxy"), tokens::pc('<'), tokens::pc('\''), tokens::id("proxy"), tokens::pc(','), tokens::pc('\''), tokens::id("app"), tokens::pc(',')]
        + each_with_comma(gp)
        + seq![tokens::id("MtApp"), tokens::pc('>'), tokens::id("where"), tokens::id("MtApp"), tokens::pc(':'), tokens::id("Executor"), tokens::pc('<')]
        + cm
        + seq![tokens::pc('>'), tokens::pc(',')]
        + associated_types::opt_punctuated(w)
        + seq![TokV::Open(Delim::Brace), tokens::id("pub"), tokens::id("fn"), tokens::id("with_funds"), TokV::Open(Delim::Paren), tokens::id("self"), tokens::pc(','), tokens::id("funds"), tokens::pc(':'), tokens::pc('&'), tokens::pc('\''), tokens::id("proxy"), TokV::Open(Delim::Bracket)]
        + cw_std_item(sylvia, "Coin")
        + seq![TokV::Close(Delim::Bracket), TokV::Close(Delim::Paren), tokens::pc('-'), tokens::pc('>'), tokens::id("Self"), TokV::Open(Delim::Brace), tokens::id("Self"), TokV::Open(Delim::Brace), tokens::id("funds"), tokens::pc(','), tokens::pc('.'), tokens::pc('.'), tokens::id("self"), TokV::Close(Delim::Brace), TokV::Close(Delim::Brace), tokens::id("pub"), tokens::id("fn"), tokens::id("with_label"), TokV::Open(Delim::Paren), tokens::id("self"), tokens::pc(','), tokens::id("label"), tokens::pc(':'), tokens::pc('&'), tokens::pc('\''), tokens::id("proxy"), tokens::id("str"), TokV::Close(Delim::Paren), tokens::pc('-'), tokens::pc('>'), tokens::id("Self"), TokV::Open(Delim::Brace), tokens::id("Self"), TokV::Open(Delim::Brace), tokens::id("label"), tokens::pc(','), tokens::pc('.'), tokens::pc('.'), tokens::id("self"), TokV::Close(Delim::Brace), TokV::Close(Delim::Brace)]
}

/// `pub fn with_admin .. pub fn with_salt ..`
pub open spec fn with_admin_salt() -> Seq<TokV> {
    seq![tokens::id("pub"), tokens::id("fn"), tokens::id("with_admin"), tokens::pc('<'), tokens::pc('\''), tokens::id("s"), tokens::pc('>'), TokV::Open(Delim::Paren), tokens::id("self"), tokens::pc(','), tokens::id("admin"), tokens::pc(':'), tokens::id("impl"), tokens::id("Into"), tokens::pc('<'), tokens::id("Option"), tokens::pc('<'), tokens::pc('&'), tokens::pc('\''), tokens::id("s"), tokens::id("str"), tokens::pc('>'), tokens::pc('>'), TokV::Close(Delim::Paren), tokens::pc('-'), tokens::pc('>'), tokens::id("Self"), TokV::Open(Delim::Brace), tokens::id("let"), tokens::id("admin"), tokens::pc('='), tokens::id("admin"), tokens::pc('.'), tokens::id("into"), TokV::Open(Delim::Paren), TokV::Close(Delim::Paren), tokens::pc('.'), tokens::id("map"), TokV::Open(Delim::Paren), tokens::id("str"), tokens::pc(':'), tokens::pc(':'), tokens::id("to_owned"), TokV::Close(Delim::Paren), tokens::pc(';'), tokens::id("Self"), TokV::Open(Delim::Brace), tokens::id("admin"), tokens::pc(','), tokens::pc('.'), tokens::pc('.'), tokens::id("self"), TokV::Close(Delim::Brace), TokV::Close(Delim::Brace), tokens::id("pub"), tokens::id("fn"), tokens::id("with_salt"), TokV::Open(Delim::Paren), tokens::id("self"), tokens::pc(','), tokens::id("salt"), tokens::pc(':'), tokens::id("impl"), tokens::id("Into"), tokens::pc('<'), tokens::id("Option"), tokens::pc('<'), tokens::pc('&'), tokens::pc('\''), tokens::id("proxy"), TokV::Open(Delim::Bracket), tokens::id("u8"), TokV::Close(Delim::Bracket), tokens::pc('>'), tokens::pc('>'), TokV::Close(Delim::Paren), tokens::pc('-'), tokens::pc('>'), tokens::id("Self"), TokV::Open(Delim::Brace), tokens::id("let"), tokens::id("salt"), tokens::pc('='), tokens::id("salt"), tokens::pc('.'), tokens::id("into"), TokV::Open(Delim::Paren), TokV::Close(Delim::Paren), tokens::pc(';'), tokens::id("Self"), TokV::Open(Delim::Brace), tokens::id("salt"), tokens::pc(','), tokens::pc('.'), tokens::pc('.'), tokens::id("self"), TokV::Close(Delim::Brace), TokV::Close(Delim::Brace)]
}

/// The start of `call`, up to the instantiation with a salt.
pub open spec fn call_head(pname: Seq<char>, gp: Seq<Seq<TokV>>, err: Seq<TokV>) -> Seq<TokV> {
    crate::mt::caller_location_attr()
        + seq![tokens::id("pub"), tokens::id("fn"), tokens::id("call"), TokV::Open(Delim::Paren), tokens::id("self"), tokens::pc(','), tokens::id("sender"), tokens::pc(':'), tokens::pc('&'), tokens::id("str"), TokV::Close(Delim::Paren), tokens::pc('-'), tokens::pc('>'), tokens::id("Result"), tokens::pc('<')]
        + seq![TokV::Ident(pname)]
        + seq![tokens::pc('<'), tokens::pc('\''), tokens::id("app"), tokens::pc(','), tokens::id("MtApp"), tokens::pc(',')]
        + each_with_comma(gp)
        + seq![tokens::pc('>'), tokens::pc(',')]
        + err
        + seq![tokens::pc('>'), TokV::Open(Delim::Brace), tokens::id("let"), tokens::id("Self"), TokV::Open(Delim::Brace), tokens::id("code_id"), tokens::pc(','), tokens::id("funds"), tokens::pc(','), tokens::id("label"), tokens::pc(','), tokens::id("admin"), tokens::pc(','), tokens::id("salt"), tokens::pc(','), tokens::id("msg"), TokV::Close(Delim::Brace), tokens::pc('='), tokens::id("self"), tokens::pc(';'), tokens::id("match"), tokens::id("salt"), TokV::Open(Delim::Brace), tokens::id("Some"), TokV::Open(Delim::Paren), tokens::id("salt"), TokV::Close(Delim::Paren), tokens::pc('='), tokens::pc('>'), TokV::Open(Delim::Brace)]
}

/// The instantiation with a salt, through `Instantiate2`.
pub open spec fn instantiate2(pname: Seq<char>, err: Seq<TokV>, sylvia: Seq<TokV>) -> Seq<TokV> {
    seq![tokens::id("let"), tokens::id("msg"), tokens::pc('=')]
        + cw_std_item(sylvia, "to_json_binary")
        + seq![TokV::Open(Delim::Paren), tokens::pc('&'), tokens::id("msg"), TokV::Close(Delim::Paren), tokens::pc('.'), tokens::id("map_err"), TokV::Open(Delim::Paren), tokens::id("Into"), tokens::pc(':'), tokens::pc(':'), tokens::pc('<')]
        + err
        + seq![tokens::pc('>'), tokens::pc(':'), tokens::pc(':'), tokens::id("into"), TokV::Close(Delim::Paren), tokens::pc('?'), tokens::pc(';'), tokens::id("let"), tokens::id("sender"), tokens::pc('=')]
        + cw_std_item(sylvia, "Addr")
        + seq![tokens::pc(':'), tokens::pc(':'), tokens::id("unchecked"), TokV::Open(Delim::Paren), tokens::id("sender"), TokV::Close(Delim::Paren), tokens::pc(';'), tokens::id("let"), tokens::id("msg"), tokens::pc('=')]
        + cw_std_item(sylvia, "WasmMsg")
        + seq![tokens::pc(':'), tokens::pc(':'), tokens::id("Instantiate2"), TokV::Open(Delim::Brace), tokens::id("admin"), tokens::pc(','), tokens::id("code_id"), tokens::pc(':'), tokens::id("code_id"), tokens::pc('.'), tokens::id("code_id"), tokens::pc(','), tokens::id("msg"), tokens::pc(','), tokens::id("funds"), tokens::pc(':'), tokens::id("funds"), tokens::pc('.'), tokens::id("to_owned"), TokV::Open(Delim::Paren), TokV::Close(Delim::Paren), tokens::pc(','), tokens::id("label"), tokens::pc(':'), tokens::id("label"), tokens::pc('.'), tokens::id("to_owned"), TokV::Open(Delim::Paren), TokV::Close(Delim::Paren), tokens::pc(','), tokens::id("salt"), tokens::pc(':'), tokens::id("salt"), tokens::pc('.'), tokens::id("into"), TokV::Open(Delim::Paren), TokV::Close(Delim::Paren), tokens::pc(','), TokV::Close(Delim::Brace), tokens::pc(';'), tokens::id("let"), tokens::id("app_response"), tokens::pc('='), TokV::Open(Delim::Paren), tokens::pc('*'), tokens::id("code_id"), tokens::pc('.'), tokens::id("app"), TokV::Close(Delim::Paren), tokens::pc('.'), tokens::id("app_mut"), TokV::Open(Delim::Paren), TokV::Close(Delim::Paren), tokens::pc('.'), tokens::id("execute"), TokV::Open(Delim::Paren), tokens::id("sender"), tokens::pc('.'), tokens::id("clone"), TokV::Open(Delim::Paren), TokV::Close(Delim::Paren), tokens::pc(','), tokens::id("msg"), tokens::pc('.'), tokens::id("into"), TokV::Open(Delim::Paren), TokV::Close(Delim::Paren), TokV::Close(Delim::Paren), tokens::pc('.'), tokens::id("map_err"), TokV::Open(Delim::Paren), tokens::pc('|'), tokens::id("err"), tokens::pc('|'), tokens::id("err"), tokens::pc('.'), tokens::id("downcast"), tokens::pc(':'), tokens::pc(':'), tokens::pc('<')]
        + err
        + seq![tokens::pc('>'), TokV::Open(Delim::Paren), TokV::Close(Delim::Paren), tokens::pc('.'), tokens::id("unwrap"), TokV::Open(Delim::Paren), TokV::Close(Delim::Paren), TokV::Close(Delim::Paren), tokens::pc('?'), tokens::pc(';')]
        + path3(sylvia, "cw_utils", "parse_instantiate_response_data")
        + seq![TokV::Open(Delim::Paren), tokens::id("app_response"), tokens::pc('.'), tokens::id("data"), tokens::pc('.'), tokens::id("unwrap"), TokV::Open(Delim::Paren), TokV::Close(Delim::Paren), tokens::pc('.'), tokens::id("as_slice"), TokV::Open(Delim::Paren), TokV::Close(Delim::Paren), TokV::Close(Delim::Paren), tokens::pc('.'), tokens::id("map_err"), TokV::Open(Delim::Paren), tokens::pc('|'), tokens::id("err"), tokens::pc('|'), tokens::id("Into"), tokens::pc(':'), tokens::pc(':'), tokens::id("into"), TokV::Open(Delim::Paren)]
        + cw_std_item(sylvia, "StdError")
        + seq![tokens::pc(':'), tokens::pc(':'), tokens::id("generic_err"), TokV::Open(Delim::Paren), tokens::id("err"), tokens::pc('.'), tokens::id("to_string"), TokV::Open(Delim::Paren), TokV::Close(Delim::Paren), TokV::Close(Delim::Paren), TokV::Close(Delim::Paren), TokV::Close(Delim::Paren), tokens::pc('.'), tokens::id("map"), TokV::Open(Delim::Paren), tokens::pc('|'), tokens::id("data"), tokens::pc('|')]
        + seq![TokV::Ident(pname)]
        + seq![TokV::Open(Delim::Brace), tokens::id("contract_addr"), tokens::pc(':')]
        + cw_std_item(sylvia, "Addr")
        + seq![tokens::pc(':'), tokens::pc(':'), tokens::id("unchecked"), TokV::Open(Delim::Paren), tokens::id("data"), tokens::pc('.'), tokens::id("contract_address"), TokV::Close(Delim::Paren), tokens::pc(','), tokens::id("app"), tokens::pc(':'), tokens::id("code_id"), tokens::pc('.'), tokens::id("app"), tokens::pc(','), tokens::id("_phantom"), tokens::pc(':'), tokens::id("std"), tokens::pc(':'), tokens::pc(':'), tokens::id("marker"), tokens::pc(':'), tokens::pc(':'), tokens::id("PhantomData"), tokens::pc(':'), tokens::pc(':'), tokens::id("default"), TokV::Open(Delim::Paren), TokV::Close(Delim::Paren), tokens::pc(','), TokV::Close(Delim::Brace), TokV::Close(Delim::Paren)]
}

/// The error of an instantiation with a salt where `Instantiate2` is not available.
pub open spec fn salt_unsupported(sylvia: Seq<TokV>) -> Seq<TokV> {
    seq![tokens::id("let"), tokens::id("err"), tokens::pc('=')]
        + cw_std_item(sylvia, "StdError")
        + seq![tokens::pc(':'), tokens::pc(':'), tokens::id("generic_err"), TokV::Open(Delim::Paren), TokV::Lit("\"`with_salt` was called, but it requires `cosmwasm_1_2` feature enabled. Consider removing `with_salt` or adding the `cosmwasm_1_2` feature.\""@), TokV::Close(Delim::Paren), tokens::pc(';'), tokens::id("Err"), TokV::Open(Delim::Paren), tokens::id("Into"), tokens::pc(':'), tokens::pc(':'), tokens::id("into"), TokV::Open(Delim::Paren), tokens::id("err"), TokV::Close(Delim::Paren), TokV::Close(Delim::Paren)]
}

/// The end of `call`: the instantiation without a salt.
pub open spec fn call_tail(pname: Seq<char>, sylvia: Seq<TokV>) -> Seq<TokV> {
    seq![TokV::Close(Delim::Brace), tokens::pc(','), tokens::id("None"), tokens::pc('='), tokens::pc('>'), TokV::Open(Delim::Paren), tokens::pc('*'), tokens::id("code_id"), tokens::pc('.'), tokens::id("app"), TokV::Close(Delim::Paren), tokens::pc('.'), tokens::id("app_mut"), TokV::Open(Delim::Paren), TokV::Close(Delim::Paren), tokens::pc('.'), tokens::id("instantiate_contract"), TokV::Open(Delim::Paren), tokens::id("code_id"), tokens::pc('.'), tokens::id("code_id"), tokens::pc(',')]
        + cw_std_item(sylvia, "Addr")
        + seq![tokens::pc(':'), tokens::pc(':'), tokens::id("unchecked"), TokV::Open(Delim::Paren), tokens::id("sender"), TokV::Close(Delim::Paren), tokens::pc(','), tokens::pc('&'), tokens::id("msg"), tokens::pc(','), tokens::id("funds"), tokens::pc(','), tokens::id("label"), tokens::pc(','), tokens::id("admin"), tokens::pc(','), TokV::Close(Delim::Paren), tokens::pc('.'), tokens::id("map_err"), TokV::Open(Delim::Paren), tokens::pc('|'), tokens::id("err"), tokens::pc('|'), tokens::id("err"), tokens::pc('.'), tokens::id("downcast"), TokV::Open(Delim::Paren), TokV::Close(Delim::Paren), tokens::pc('.'), tokens::id("unwrap"), TokV::Open(Delim::Paren), TokV::Close(Delim::Paren), TokV::Close(Delim::Paren), tokens::pc('.'), tokens::id("map"), TokV::Open(Delim::Paren), tokens::pc('|'), tokens::id("addr"), tokens::pc('|')]
        + seq![TokV::Ident(pname)]
        + seq![TokV::Open(Delim::Brace), tokens::id("contract_addr"), tokens::pc(':'), tokens::id("addr"), tokens::pc(','), tokens::id("app"), tokens::pc(':'), tokens::id("code_id"), tokens::pc('.'), tokens::id("app"), tokens::pc(','), tokens::id("_phantom"), tokens::pc(':'), tokens::id("std"), tokens::pc(':'), tokens::pc(':'), tokens::id("marker"), tokens::pc(':'), tokens::pc(':'), tokens::id("PhantomData"), tokens::pc(':'), tokens::pc(':'), tokens::id("default"), TokV::Open(Delim::Paren), TokV::Close(Delim::Paren), tokens::pc(','), TokV::Close(Delim::Brace), TokV::Close(Delim::Paren), tokens::pc(','), TokV::Close(Delim::Brace), TokV::Close(Delim::Brace), TokV::Close(Delim::Brace)]
}

/// The contract type in expression position: `Name :: < generics , >`, or
/// `Name` without generics.
pub open spec fn contract_expr(name: Seq<char>, gp: Seq<Seq<TokV>>) -> Seq<TokV> {
    if gp.len() == 0 {
        seq![TokV::Ident(name)]
    } else {
        seq![TokV::Ident(name), tokens::pc(':'), tokens::pc(':'), tokens::pc('<')] + each_with_comma(gp) + seq![tokens::pc('>')]
    }
}

/// `InstantiateMsg :: < generics , >`, or `InstantiateMsg` without generics.
pub open spec fn instantiate_msg_expr(ug: Seq<Seq<TokV>>) -> Seq<TokV> {
    if ug.len() == 0 {
        seq![tokens::id("InstantiateMsg")]
    } else {
        seq![tokens::id("InstantiateMsg"), tokens::pc(':'), tokens::pc(':'), tokens::pc('<')] + each_with_comma(ug) + seq![tokens::pc('>')]
    }
}

/// `name ,` for each field.
pub open spec fn names_each_comma(fs: Seq<MsgFieldV>) -> Seq<TokV> {
    tokens::concat(Seq::new(fs.len(), |i: int| seq![TokV::Ident(fs[i].name), tokens::pc(',')]))
}

/// The parameters `name : Type ,` of the first instantiate method, if any.
pub open spec fn instantiate_params(vs: Seq<MsgVariantV>) -> Seq<TokV> {
    match first_of_kind(vs, MsgType::Instantiate) {
        Some(i) => params_each_comma(vs[i].fields),
        None => Seq::empty(),
    }
}

/// The names `name ,` of the parameters of the first instantiate method, if any.
pub open spec fn instantiate_names(vs: Seq<MsgVariantV>) -> Seq<TokV> {
    match first_of_kind(vs, MsgType::Instantiate) {
        Some(i) => names_each_comma(vs[i].fields),
        None => Seq::empty(),
    }
}

/// The code id type of the contract: its struct, and its implementation
/// storing the code, giving the code id (and the code info when `Instantiate2`
/// is available) and starting an instantiation.
pub open spec fn code_id_block(
    name: Seq<char>,
    gp: Seq<Seq<TokV>>,
    ug: Seq<Seq<TokV>>,
    w: Option<(Seq<WherePredicateV>, bool)>,
    vs: Seq<MsgVariantV>,
    cm: Seq<TokV>,
    cq: Seq<TokV>,
    sylvia: Seq<TokV>,
    instantiate2_available: bool,
) -> Seq<TokV> {
    code_id_struct(gp, sylvia) + code_id_impl_head(gp, w, cm, cq, sylvia) + store_code_fns(contract_expr(name, gp), cm, cq, sylvia) + (
    if instantiate2_available {
        code_info_fn(sylvia)
    } else {
        Seq::empty()
    }) + instantiate_fn(gp, instantiate_msg_expr(ug), instantiate_params(vs), instantiate_names(vs), cm, cq, sylvia)
}

/// The instantiation proxy of the contract: its struct, the setters of its
/// funds, label, admin and salt, and `call`, which instantiates the
/// contract (with `Instantiate2` when a salt is set and it is available).
pub open spec fn proxy_block(
    pname: Seq<char>,
    gp: Seq<Seq<TokV>>,
    ug: Seq<Seq<TokV>>,
    w: Option<(Seq<WherePredicateV>, bool)>,
    cm: Seq<TokV>,
    err: Seq<TokV>,
    sylvia: Seq<TokV>,
    instantiate2_available: bool,
) -> Seq<TokV> {
    proxy_struct(gp, ug, sylvia) + proxy_impl_head(gp, w, cm, sylvia) + with_admin_salt() + call_head(pname, gp, err) + (
    if instantiate2_available {
        instantiate2(pname, err, sylvia)
    } else {
        salt_unsupported(sylvia)
    }) + call_tail(pname, sylvia)
}

fn contract_app_exec(sylvia: &Vec<Tok>, cm: &Vec<Tok>, cq: &Vec<Tok>) -> (r: Vec<Tok>)
    ensures
        tokens::toks(r@) == contract_app(tokens::toks(sylvia@), tokens::toks(cm@), tokens::toks(cq@)),
{
    let mut r: Vec<Tok> = Vec::new();
    push_path3(&mut r, sylvia, "cw_multi_test", "App");
    let k1: Vec<Tok> = vec![Tok::Punct('<'), Tok::ident("BankT"), Tok::Punct(','), Tok::ident("ApiT"), Tok::Punct(','), Tok::ident("StorageT"), Tok::Punct(','), Tok::ident("CustomT"), Tok::Punct(',')];
    assert(tokens::toks(k1@) =~= seq![tokens::pc('<'), tokens::id("BankT"), tokens::pc(','), tokens::id("ApiT"), tokens::pc(','), tokens::id("StorageT"), tokens::pc(','), tokens::id("CustomT"), tokens::pc(',')]);
    tokens::extend_toks(&mut r, &k1);
    push_path3(&mut r, sylvia, "cw_multi_test", "WasmKeeper");
    let k2: Vec<Tok> = vec![Tok::Punct('<')];
    assert(tokens::toks(k2@) =~= seq![tokens::pc('<')]);
    tokens::extend_toks(&mut r, &k2);
    tokens::extend_toks(&mut r, cm);
    let k3: Vec<Tok> = vec![Tok::Punct(',')];
    assert(tokens::toks(k3@) =~= seq![tokens::pc(',')]);
    tokens::extend_toks(&mut r, &k3);
    tokens::extend_toks(&mut r, cq);
    let k4: Vec<Tok> = vec![Tok::Punct('>'), Tok::Punct(','), Tok::ident("StakingT"), Tok::Punct(','), Tok::ident("DistrT"), Tok::Punct(','), Tok::ident("IbcT"), Tok::Punct(','), Tok::ident("GovT"), Tok::Punct(','), Tok::Punct('>')];
    assert(tokens::toks(k4@) =~= seq![tokens::pc('>'), tokens::pc(','), tokens::id("StakingT"), tokens::pc(','), tokens::id("DistrT"), tokens::pc(','), tokens::id("IbcT"), tokens::pc(','), tokens::id("GovT"), tokens::pc(','), tokens::pc('>')]);
    tokens::extend_toks(&mut r, &k4);
    assert(tokens::toks(r@) =~= contract_app(tokens::toks(sylvia@), tokens::toks(cm@), tokens::toks(cq@)));
    r
}

fn code_id_struct_exec(gp: &Vec<Vec<Tok>>, sylvia: &Vec<Tok>) -> (r: Vec<Tok>)
    ensures
        tokens::toks(r@) == code_id_struct(parser::toks2(gp@), tokens::toks(sylvia@)),
{
    let mut r: Vec<Tok> = Vec::new();
    let k1: Vec<Tok> = vec![Tok::ident("pub"), Tok::ident("struct"), Tok::ident("CodeId"), Tok::Punct('<'), Tok::Punct('\''), Tok::ident("app"), Tok::Punct(',')];
    assert(tokens::toks(k1@) =~= seq![tokens::id("pub"), tokens::id("struct"), tokens::id("CodeId"), tokens::pc('<'), tokens::pc('\''), tokens::id("app"), tokens::pc(',')]);
    tokens::extend_toks(&mut r, &k1);
    crate::interfaces::push_each_with_comma(&mut r, gp);
    let k2: Vec<Tok> = vec![Tok::ident("MtApp"), Tok::Punct('>'), Tok::Open(Delim::Brace), Tok::ident("code_id"), Tok::Punct(':'), Tok::ident("u64"), Tok::Punct(','), Tok::ident("app"), Tok::Punct(':'), Tok::Punct('&'), Tok::Punct('\''), Tok::ident("app")];
    assert(tokens::toks(k2@) =~= seq![tokens::id("MtApp"), tokens::pc('>'), TokV::Open(Delim::Brace), tokens::id("code_id"), tokens::pc(':'), tokens::id("u64"), tokens::pc(','), tokens::id("app"), tokens::pc(':'), tokens::pc('&'), tokens::pc('\''), tokens::id("app")]);
    tokens::extend_toks(&mut r, &k2);
    push_path3(&mut r, sylvia, "multitest", "App");
    let k3: Vec<Tok> = vec![Tok::Punct('<'), Tok::ident("MtApp"), Tok::Punct('>'), Tok::Punct(','), Tok::ident("_phantom"), Tok::Punct(':'), Tok::ident("std"), Tok::Punct(':'), Tok::Punct(':'), Tok::ident("marker"), Tok::Punct(':'), Tok::Punct(':'), Tok::ident("PhantomData"), Tok::Punct('<'), Tok::Open(Delim::Paren)];
    assert(tokens::toks(k3@) =~= seq![tokens::pc('<'), tokens::id("MtApp"), tokens::pc('>'), tokens::pc(','), tokens::id("_phantom"), tokens::pc(':'), tokens::id("std"), tokens::pc(':'), tokens::pc(':'), tokens::id("marker"), tokens::pc(':'), tokens::pc(':'), tokens::id("PhantomData"), tokens::pc('<'), TokV::Open(Delim::Paren)]);
    tokens::extend_toks(&mut r, &k3);
    crate::interfaces::push_each_with_comma(&mut r, gp);
    let k4: Vec<Tok> = vec![Tok::Close(Delim::Paren), Tok::Punct('>'), Tok::Punct(','), Tok::Close(Delim::Brace)];
    assert(tokens::toks(k4@) =~= seq![TokV::Close(Delim::Paren), tokens::pc('>'), tokens::pc(','), TokV::Close(Delim::Brace)]);
    tokens::extend_toks(&mut r, &k4);
    assert(tokens::toks(r@) =~= code_id_struct(parser::toks2(gp@), tokens::toks(sylvia@)));
    r
}

fn code_id_impl_head_exec(gp: &Vec<Vec<Tok>>, w: &Option<WhereClause>, cm: &Vec<Tok>, cq: &Vec<Tok>, sylvia: &Vec<Tok>) -> (r: Vec<Tok>)
    ensures
        tokens::toks(r@) == code_id_impl_head(parser::toks2(gp@), where_value(*w), tokens::toks(cm@), tokens::toks(cq@), tokens::toks(sylvia@)),
{
    let mut r: Vec<Tok> = Vec::new();
    let k1: Vec<Tok> = vec![Tok::ident("impl"), Tok::Punct('<'), Tok::Punct('\''), Tok::ident("app"), Tok::Punct(','), Tok::ident("BankT"), Tok::Punct(','), Tok::ident("ApiT"), Tok::Punct(','), Tok::ident("StorageT"), Tok::Punct(','), Tok::ident("CustomT"), Tok::Punct(','), Tok::ident("StakingT"), Tok::Punct(','), Tok::ident("DistrT"), Tok::Punct(','), Tok::ident("IbcT"), Tok::Punct(','), Tok::ident("GovT"), Tok::Punct(',')];
    assert(tokens::toks(k1@) =~= seq![tokens::id("impl"), tokens::pc('<'), tokens::pc('\''), tokens::id("app"), tokens::pc(','), tokens::id("BankT"), tokens::pc(','), tokens::id("ApiT"), tokens::pc(','), tokens::id("StorageT"), tokens::pc(','), tokens::id("CustomT"), tokens::pc(','), tokens::id("StakingT"), tokens::pc(','), tokens::id("DistrT"), tokens::pc(','), tokens::id("IbcT"), tokens::pc(','), tokens::id("GovT"), tokens::pc(',')]);
    tokens::extend_toks(&mut r, &k1);
    crate::interfaces::push_each_with_comma(&mut r, gp);
    let k2: Vec<Tok> = vec![Tok::Punct('>'), Tok::ident("CodeId"), Tok::Punct('<'), Tok::Punct('\''), Tok::ident("app"), Tok::Punct(',')];
    assert(tokens::toks(k2@) =~= seq![tokens::pc('>'), tokens::id("CodeId"), tokens::pc('<'), tokens::pc('\''), tokens::id("app"), tokens::pc(',')]);
    tokens::extend_toks(&mut r, &k2);
    crate::interfaces::push_each_with_comma(&mut r, gp);
    let a1 = contract_app_exec(sylvia, cm, cq);
    tokens::extend_toks(&mut r, &a1);
    let k3: Vec<Tok> = vec![Tok::Punct('>'), Tok::ident("where"), Tok::ident("BankT"), Tok::Punct(':')];
    assert(tokens::toks(k3@) =~= seq![tokens::pc('>'), tokens::id("where"), tokens::id("BankT"), tokens::pc(':')]);
    tokens::extend_toks(&mut r, &k3);
    push_path3(&mut r, sylvia, "cw_multi_test", "Bank");
    let k4: Vec<Tok> = vec![Tok::Punct(','), Tok::ident("ApiT"), Tok::Punct(':')];
    assert(tokens::toks(k4@) =~= seq![tokens::pc(','), tokens::id("ApiT"), tokens::pc(':')]);
    tokens::extend_toks(&mut r, &k4);
    msg_type::push_cw_std_item(&mut r, sylvia, "Api");
    let k5: Vec<Tok> = vec![Tok::Punct(','), Tok::ident("StorageT"), Tok::Punct(':')];
    assert(tokens::toks(k5@) =~= seq![tokens::pc(','), tokens::id("StorageT"), tokens::pc(':')]);
    tokens::extend_toks(&mut r, &k5);
    msg_type::push_cw_std_item(&mut r, sylvia, "Storage");
    let k6: Vec<Tok> = vec![Tok::Punct(','), Tok::ident("CustomT"), Tok::Punct(':')];
    assert(tokens::toks(k6@) =~= seq![tokens::pc(','), tokens::id("CustomT"), tokens::pc(':')]);
    tokens::extend_toks(&mut r, &k6);
    push_path3(&mut r, sylvia, "cw_multi_test", "Module");
    let k7: Vec<Tok> = vec![Tok::Punct('<'), Tok::ident("ExecT"), Tok::Punct('=')];
    assert(tokens::toks(k7@) =~= seq![tokens::pc('<'), tokens::id("ExecT"), tokens::pc('=')]);
    tokens::extend_toks(&mut r, &k7);
    tokens::extend_toks(&mut r, cm);
    let k8: Vec<Tok> = vec![Tok::Punct(','), Tok::ident("QueryT"), Tok::Punct('=')];
    assert(tokens::toks(k8@) =~= seq![tokens::pc(','), tokens::id("QueryT"), tokens::pc('=')]);
    tokens::extend_toks(&mut r, &k8);
    tokens::extend_toks(&mut r, cq);
    let k9: Vec<Tok> = vec![Tok::Punct('>'), Tok::Punct(','), Tok::ident("StakingT"), Tok::Punct(':')];
    assert(tokens::toks(k9@) =~= seq![tokens::pc('>'), tokens::pc(','), tokens::id("StakingT"), tokens::pc(':')]);
    tokens::extend_toks(&mut r, &k9);
    push_path3(&mut r, sylvia, "cw_multi_test", "Staking");
    let k10: Vec<Tok> = vec![Tok::Punct(','), Tok::ident("DistrT"), Tok::Punct(':')];
    assert(tokens::toks(k10@) =~= seq![tokens::pc(','), tokens::id("DistrT"), tokens::pc(':')]);
    tokens::extend_toks(&mut r, &k10);
    push_path3(&mut r, sylvia, "cw_multi_test", "Distribution");
    let k11: Vec<Tok> = vec![Tok::Punct(','), Tok::ident("IbcT"), Tok::Punct(':')];
    assert(tokens::toks(k11@) =~= seq![tokens::pc(','), tokens::id("IbcT"), tokens::pc(':')]);
    tokens::extend_toks(&mut r, &k11);
    push_path3(&mut r, sylvia, "cw_multi_test", "Ibc");
    let k12: Vec<Tok> = vec![Tok::Punct(','), Tok::ident("GovT"), Tok::Punct(':')];
    assert(tokens::toks(k12@) =~= seq![tokens::pc(','), tokens::id("GovT"), tokens::pc(':')]);
    tokens::extend_toks(&mut r, &k12);
    push_path3(&mut r, sylvia, "cw_multi_test", "Gov");
    let k13: Vec<Tok> = vec![Tok::Punct(',')];
    assert(tokens::toks(k13@) =~= seq![tokens::pc(',')]);
    tokens::extend_toks(&mut r, &k13);
    let wp = associated_types::opt_predicates_to_tokens(w);
    tokens::extend_toks(&mut r, &wp);
    let k14: Vec<Tok> = vec![Tok::Open(Delim::Brace)];
    assert(tokens::toks(k14@) =~= seq![TokV::Open(Delim::Brace)]);
    tokens::extend_toks(&mut r, &k14);
    assert(tokens::toks(r@) =~= code_id_impl_head(parser::toks2(gp@), where_value(*w), tokens::toks(cm@), tokens::toks(cq@), tokens::toks(sylvia@)));
    r
}

fn store_code_fns_exec(contract: &Vec<Tok>, cm: &Vec<Tok>, cq: &Vec<Tok>, sylvia: &Vec<Tok>) -> (r: Vec<Tok>)
    ensures
        tokens::toks(r@) == store_code_fns(tokens::toks(contract@), tokens::toks(cm@), tokens::toks(cq@), tokens::toks(sylvia@)),
{
    let mut r: Vec<Tok> = Vec::new();
    let k1: Vec<Tok> = vec![Tok::ident("pub"), Tok::ident("fn"), Tok::ident("store_code"), Tok::Open(Delim::Paren), Tok::ident("app"), Tok::Punct(':'), Tok::Punct('&'), Tok::Punct('\''), Tok::ident("app")];
    assert(tokens::toks(k1@) =~= seq![tokens::id("pub"), tokens::id("fn"), tokens::id("store_code"), TokV::Open(Delim::Paren), tokens::id("app"), tokens::pc(':'), tokens::pc('&'), tokens::pc('\''), tokens::id("app")]);
    tokens::extend_toks(&mut r, &k1);
    push_path3(&mut r, sylvia, "multitest", "App");
    let k2: Vec<Tok> = vec![Tok::Punct('<')];
    assert(tokens::toks(k2@) =~= seq![tokens::pc('<')]);
    tokens::extend_toks(&mut r, &k2);
    let a1 = contract_app_exec(sylvia, cm, cq);
    tokens::extend_toks(&mut r, &a1);
    let k3: Vec<Tok> = vec![Tok::Punct('>'), Tok::Close(Delim::Paren), Tok::Punct('-'), Tok::Punct('>'), Tok::ident("Self"), Tok::Open(Delim::Brace), Tok::ident("let"), Tok::ident("code_id"), Tok::Punct('='), Tok::ident("app"), Tok::Punct('.'), Tok::ident("app_mut"), Tok::Open(Delim::Paren), Tok::Close(Delim::Paren), Tok::Punct('.'), Tok::ident("store_code"), Tok::Open(Delim::Paren), Tok::ident("Box"), Tok::Punct(':'), Tok::Punct(':'), Tok::ident("new"), Tok::Open(Delim::Paren)];
    assert(tokens::toks(k3@) =~= seq![tokens::pc('>'), TokV::Close(Delim::Paren), tokens::pc('-'), tokens::pc('>'), tokens::id("Self"), TokV::Open(Delim::Brace), tokens::id("let"), tokens::id("code_id"), tokens::pc('='), tokens::id("app"), tokens::pc('.'), tokens::id("app_mut"), TokV::Open(Delim::Paren), TokV::Close(Delim::Paren), tokens::pc('.'), tokens::id("store_code"), TokV::Open(Delim::Paren), tokens::id("Box"), tokens::pc(':'), tokens::pc(':'), tokens::id("new"), TokV::Open(Delim::Paren)]);
    tokens::extend_toks(&mut r, &k3);
    tokens::extend_toks(&mut r, contract);
    let k4: Vec<Tok> = vec![Tok::Punct(':'), Tok::Punct(':'), Tok::ident("new"), Tok::Open(Delim::Paren), Tok::Close(Delim::Paren), Tok::Close(Delim::Paren), Tok::Close(Delim::Paren), Tok::Punct(';'), Tok::ident("Self"), Tok::Open(Delim::Brace), Tok::ident("code_id"), Tok::Punct(','), Tok::ident("app"), Tok::Punct(','), Tok::ident("_phantom"), Tok::Punct(':'), Tok::ident("std"), Tok::Punct(':'), Tok::Punct(':'), Tok::ident("marker"), Tok::Punct(':'), Tok::Punct(':'), Tok::ident("PhantomData"), Tok::Punct(':'), Tok::Punct(':'), Tok::ident("default"), Tok::Open(Delim::Paren), Tok::Close(Delim::Paren), Tok::Close(Delim::Brace), Tok::Close(Delim::Brace), Tok::ident("pub"), Tok::ident("fn"), Tok::ident("code_id"), Tok::Open(Delim::Paren), Tok::Punct('&'), Tok::ident("self"), Tok::Close(Delim::Paren), Tok::Punct('-'), Tok::Punct('>'), Tok::ident("u64"), Tok::Open(Delim::Brace), Tok::ident("self"), Tok::Punct('.'), Tok::ident("code_id"), Tok::Close(Delim::Brace)];
    assert(tokens::toks(k4@) =~= seq![tokens::pc(':'), tokens::pc(':'), tokens::id("new"), TokV::Open(Delim::Paren), TokV::Close(Delim::Paren), TokV::Close(Delim::Paren), TokV::Close(Delim::Paren), tokens::pc(';'), tokens::id("Self"), TokV::Open(Delim::Brace), tokens::id("code_id"), tokens::pc(','), tokens::id("app"), tokens::pc(','), tokens::id("_phantom"), tokens::pc(':'), tokens::id("std"), tokens::pc(':'), tokens::pc(':'), tokens::id("marker"), tokens::pc(':'), tokens::pc(':'), tokens::id("PhantomData"), tokens::pc(':'), tokens::pc(':'), tokens::id("default"), TokV::Open(Delim::Paren), TokV::Close(Delim::Paren), TokV::Close(Delim::Brace), TokV::Close(Delim::Brace), tokens::id("pub"), tokens::id("fn"), tokens::id("code_id"), TokV::Open(Delim::Paren), tokens::pc('&'), tokens::id("self"), TokV::Close(Delim::Paren), tokens::pc('-'), tokens::pc('>'), tokens::id("u64"), TokV::Open(Delim::Brace), tokens::id("self"), tokens::pc('.'), tokens::id("code_id"), TokV::Close(Delim::Brace)]);
    tokens::extend_toks(&mut r, &k4);
    assert(tokens::toks(r@) =~= store_code_fns(tokens::toks(contract@), tokens::toks(cm@), tokens::toks(cq@), tokens::toks(sylvia@)));
    r
}

fn code_info_fn_exec(sylvia: &Vec<Tok>) -> (r: Vec<Tok>)
    ensures
        tokens::toks(r@) == code_info_fn(tokens::toks(sylvia@)),
{
    let mut r: Vec<Tok> = Vec::new();
    let k1: Vec<Tok> = vec![Tok::ident("pub"), Tok::ident("fn"), Tok::ident("code_info"), Tok::Open(Delim::Paren), Tok::Punct('&'), Tok::ident("self"), Tok::Close(Delim::Paren), Tok::Punct('-'), Tok::Punct('>')];
    assert(tokens::toks(k1@) =~= seq![tokens::id("pub"), tokens::id("fn"), tokens::id("code_info"), TokV::Open(Delim::Paren), tokens::pc('&'), tokens::id("self"), TokV::Close(Delim::Paren), tokens::pc('-'), tokens::pc('>')]);
    tokens::extend_toks(&mut r, &k1);
    msg_type::push_cw_std_item(&mut r, sylvia, "StdResult");
    let k2: Vec<Tok> = vec![Tok::Punct('<')];
    assert(tokens::toks(k2@) =~= seq![tokens::pc('<')]);
    tokens::extend_toks(&mut r, &k2);
    msg_type::push_cw_std_item(&mut r, sylvia, "CodeInfoResponse");
    let k3: Vec<Tok> = vec![Tok::Punct('>'), Tok::Open(Delim::Brace), Tok::ident("self"), Tok::Punct('.'), Tok::ident("app"), Tok::Punct('.'), Tok::ident("app"), Tok::Open(Delim::Paren), Tok::Close(Delim::Paren), Tok::Punct('.'), Tok::ident("wrap"), Tok::Open(Delim::Paren), Tok::Close(Delim::Paren), Tok::Punct('.'), Tok::ident("query_wasm_code_info"), Tok::Open(Delim::Paren), Tok::ident("self"), Tok::Punct('.'), Tok::ident("code_id"), Tok::Close(Delim::Paren), Tok::Close(Delim::Brace)];
    assert(tokens::toks(k3@) =~= seq![tokens::pc('>'), TokV::Open(Delim::Brace), tokens::id("self"), tokens::pc('.'), tokens::id("app"), tokens::pc('.'), tokens::id("app"), TokV::Open(Delim::Paren), TokV::Close(Delim::Paren), tokens::pc('.'), tokens::id("wrap"), TokV::Open(Delim::Paren), TokV::Close(Delim::Paren), tokens::pc('.'), tokens::id("query_wasm_code_info"), TokV::Open(Delim::Paren), tokens::id("self"), tokens::pc('.'), tokens::id("code_id"), TokV::Close(Delim::Paren), TokV::Close(Delim::Brace)]);
    tokens::extend_toks(&mut r, &k3);
    assert(tokens::toks(r@) =~= code_info_fn(tokens::toks(sylvia@)));
    r
}

fn instantiate_fn_exec(gp: &Vec<Vec<Tok>>, imsg: &Vec<Tok>, params: &Vec<Tok>, names: &Vec<Tok>, cm: &Vec<Tok>, cq: &Vec<Tok>, sylvia: &Vec<Tok>) -> (r: Vec<Tok>)
    ensures
        tokens::toks(r@) == instantiate_fn(parser::toks2(gp@), tokens::toks(imsg@), tokens::toks(params@), tokens::toks(names@), tokens::toks(cm@), tokens::toks(cq@), tokens::toks(sylvia@)),
{
    let mut r: Vec<Tok> = Vec::new();
    let k1: Vec<Tok> = vec![Tok::ident("pub"), Tok::ident("fn"), Tok::ident("instantiate"), Tok::Open(Delim::Paren), Tok::Punct('&'), Tok::ident("self"), Tok::Punct(',')];
    assert(tokens::toks(k1@) =~= seq![tokens::id("pub"), tokens::id("fn"), tokens::id("instantiate"), TokV::Open(Delim::Paren), tokens::pc('&'), tokens::id("self"), tokens::pc(',')]);
    tokens::extend_toks(&mut r, &k1);
    tokens::extend_toks(&mut r, params);
    let k2: Vec<Tok> = vec![Tok::Close(Delim::Paren), Tok::Punct('-'), Tok::Punct('>'), Tok::ident("InstantiateProxy"), Tok::Punct('<'), Tok::Punct('\''), Tok::ident("_"), Tok::Punct(','), Tok::Punct('\''), Tok::ident("app"), Tok::Punct(',')];
    assert(tokens::toks(k2@) =~= seq![TokV::Close(Delim::Paren), tokens::pc('-'), tokens::pc('>'), tokens::id("InstantiateProxy"), tokens::pc('<'), tokens::pc('\''), tokens::id("_"), tokens::pc(','), tokens::pc('\''), tokens::id("app"), tokens::pc(',')]);
    tokens::extend_toks(&mut r, &k2);
    crate::interfaces::push_each_with_comma(&mut r, gp);
    let a1 = contract_app_exec(sylvia, cm, cq);
    tokens::extend_toks(&mut r, &a1);
    let k3: Vec<Tok> = vec![Tok::Punct('>'), Tok::Open(Delim::Brace), Tok::ident("let"), Tok::ident("msg"), Tok::Punct('=')];
    assert(tokens::toks(k3@) =~= seq![tokens::pc('>'), TokV::Open(Delim::Brace), tokens::id("let"), tokens::id("msg"), tokens::pc('=')]);
    tokens::extend_toks(&mut r, &k3);
    tokens::extend_toks(&mut r, imsg);
    let k4: Vec<Tok> = vec![Tok::Open(Delim::Brace)];
    assert(tokens::toks(k4@) =~= seq![TokV::Open(Delim::Brace)]);
    tokens::extend_toks(&mut r, &k4);
    tokens::extend_toks(&mut r, names);
    let k5: Vec<Tok> = vec![Tok::Close(Delim::Brace), Tok::Punct(';'), Tok::ident("InstantiateProxy"), Tok::Punct(':'), Tok::Punct(':'), Tok::Punct('<')];
    assert(tokens::toks(k5@) =~= seq![TokV::Close(Delim::Brace), tokens::pc(';'), tokens::id("InstantiateProxy"), tokens::pc(':'), tokens::pc(':'), tokens::pc('<')]);
    tokens::extend_toks(&mut r, &k5);
    crate::interfaces::push_each_with_comma(&mut r, gp);
    let k6: Vec<Tok> = vec![Tok::ident("_"), Tok::Punct('>'), Tok::Open(Delim::Brace), Tok::ident("code_id"), Tok::Punct(':'), Tok::ident("self"), Tok::Punct(','), Tok::ident("funds"), Tok::Punct(':'), Tok::Punct('&'), Tok::Open(Delim::Bracket), Tok::Close(Delim::Bracket), Tok::Punct(','), Tok::ident("label"), Tok::Punct(':'), Tok::Lit(String::from_str("\"Contract\"")), Tok::Punct(','), Tok::ident("admin"), Tok::Punct(':'), Tok::ident("None"), Tok::Punct(','), Tok::ident("salt"), Tok::Punct(':'), Tok::ident("None"), Tok::Punct(','), Tok::ident("msg"), Tok::Punct(','), Tok::Close(Delim::Brace), Tok::Close(Delim::Brace), Tok::Close(Delim::Brace)];
    assert(tokens::toks(k6@) =~= seq![tokens::id("_"), tokens::pc('>'), TokV::Open(Delim::Brace), tokens::id("code_id"), tokens::pc(':'), tokens::id("self"), tokens::pc(','), tokens::id("funds"), tokens::pc(':'), tokens::pc('&'), TokV::Open(Delim::Bracket), TokV::Close(Delim::Bracket), tokens::pc(','), tokens::id("label"), tokens::pc(':'), TokV::Lit("\"Contract\""@), tokens::pc(','), tokens::id("admin"), tokens::pc(':'), tokens::id("None"), tokens::pc(','), tokens::id("salt"), tokens::pc(':'), tokens::id("None"), tokens::pc(','), tokens::id("msg"), tokens::pc(','), TokV::Close(Delim::Brace), TokV::Close(Delim::Brace), TokV::Close(Delim::Brace)]);
    tokens::extend_toks(&mut r, &k6);
    assert(tokens::toks(r@) =~= instantiate_fn(parser::toks2(gp@), tokens::toks(imsg@), tokens::toks(params@), tokens::toks(names@), tokens::toks(cm@), tokens::toks(cq@), tokens::toks(sylvia@)));
    r
}

fn proxy_struct_exec(gp: &Vec<Vec<Tok>>, ug: &Vec<Vec<Tok>>, sylvia: &Vec<Tok>) -> (r: Vec<Tok>)
    ensures
        tokens::toks(r@) == proxy_struct(parser::toks2(gp@), parser::toks2(ug@), tokens::toks(sylvia@)),
{
    let mut r: Vec<Tok> = Vec::new();
    let k1: Vec<Tok> = vec![Tok::ident("pub"), Tok::ident("struct"), Tok::ident("InstantiateProxy"), Tok::Punct('<'), Tok::Punct('\''), Tok::ident("proxy"), Tok::Punct(','), Tok::Punct('\''), Tok::ident("app"), Tok::Punct(',')];
    assert(tokens::toks(k1@) =~= seq![tokens::id("pub"), tokens::id("struct"), tokens::id("InstantiateProxy"), tokens::pc('<'), tokens::pc('\''), tokens::id("proxy"), tokens::pc(','), tokens::pc('\''), tokens::id("app"), tokens::pc(',')]);
    tokens::extend_toks(&mut r, &k1);
    crate::interfaces::push_each_with_comma(&mut r, gp);
    let k2: Vec<Tok> = vec![Tok::ident("MtApp"), Tok::Punct('>'), Tok::Open(Delim::Brace), Tok::ident("code_id"), Tok::Punct(':'), Tok::Punct('&'), Tok::Punct('\''), Tok::ident("proxy"), Tok::ident("CodeId"), Tok::Punct('<'), Tok::Punct('\''), Tok::ident("app"), Tok::Punct(',')];
    assert(tokens::toks(k2@) =~= seq![tokens::id("MtApp"), tokens::pc('>'), TokV::Open(Delim::Brace), tokens::id("code_id"), tokens::pc(':'), tokens::pc('&'), tokens::pc('\''), tokens::id("proxy"), tokens::id("CodeId"), tokens::pc('<'), tokens::pc('\''), tokens::id("app"), tokens::pc(',')]);
    tokens::extend_toks(&mut r, &k2);
    crate::interfaces::push_each_with_comma(&mut r, gp);
    let k3: Vec<Tok> = vec![Tok::ident("MtApp"), Tok::Punct('>'), Tok::Punct(','), Tok::ident("funds"), Tok::Punct(':'), Tok::Punct('&'), Tok::Punct('\''), Tok::ident("proxy"), Tok::Open(Delim::Bracket)];
    assert(tokens::toks(k3@) =~= seq![tokens::id("MtApp"), tokens::pc('>'), tokens::pc(','), tokens::id("funds"), tokens::pc(':'), tokens::pc('&'), tokens::pc('\''), tokens::id("proxy"), TokV::Open(Delim::Bracket)]);
    tokens::extend_toks(&mut r, &k3);
    msg_type::push_cw_std_item(&mut r, sylvia, "Coin");
    let k4: Vec<Tok> = vec![Tok::Close(Delim::Bracket), Tok::Punct(','), Tok::ident("label"), Tok::Punct(':'), Tok::Punct('&'), Tok::Punct('\''), Tok::ident("proxy"), Tok::ident("str"), Tok::Punct(','), Tok::ident("admin"), Tok::Punct(':'), Tok::ident("Option"), Tok::Punct('<'), Tok::ident("String"), Tok::Punct('>'), Tok::Punct(','), Tok::ident("salt"), Tok::Punct(':'), Tok::ident("Option"), Tok::Punct('<'), Tok::Punct('&'), Tok::Punct('\''), Tok::ident("proxy"), Tok::Open(Delim::Bracket), Tok::ident("u8"), Tok::Close(Delim::Bracket), Tok::Punct('>'), Tok::Punct(','), Tok::ident("msg"), Tok::Punct(':'), Tok::ident("InstantiateMsg")];
    assert(tokens::toks(k4@) =~= seq![TokV::Close(Delim::Bracket), tokens::pc(','), tokens::id("label"), tokens::pc(':'), tokens::pc('&'), tokens::pc('\''), tokens::id("proxy"), tokens::id("str"), tokens::pc(','), tokens::id("admin"), tokens::pc(':'), tokens::id("Option"), tokens::pc('<'), tokens::id("String"), tokens::pc('>'), tokens::pc(','), tokens::id("salt"), tokens::pc(':'), tokens::id("Option"), tokens::pc('<'), tokens::pc('&'), tokens::pc('\''), tokens::id("proxy"), TokV::Open(Delim::Bracket), tokens::id("u8"), TokV::Close(Delim::Bracket), tokens::pc('>'), tokens::pc(','), tokens::id("msg"), tokens::pc(':'), tokens::id("InstantiateMsg")]);
    tokens::extend_toks(&mut r, &k4);
    querier::push_bracketed_generics(&mut r, ug);
    let k5: Vec<Tok> = vec![Tok::Punct(','), Tok::Close(Delim::Brace)];
    assert(tokens::toks(k5@) =~= seq![tokens::pc(','), TokV::Close(Delim::Brace)]);
    tokens::extend_toks(&mut r, &k5);
    assert(tokens::toks(r@) =~= proxy_struct(parser::toks2(gp@), parser::toks2(ug@), tokens::toks(sylvia@)));
    r
}

fn proxy_impl_head_exec(gp: &Vec<Vec<Tok>>, w: &Option<WhereClause>, cm: &Vec<Tok>, sylvia: &Vec<Tok>) -> (r: Vec<Tok>)
    ensures
        tokens::toks(r@) == proxy_impl_head(parser::toks2(gp@), where_value(*w), tokens::toks(cm@), tokens::toks(sylvia@)),
{
    let mut r: Vec<Tok> = Vec::new();
    let k1: Vec<Tok> = vec![Tok::ident("impl"), Tok::Punct('<'), Tok::Punct('\''), Tok::ident("proxy"), Tok::Punct(','), Tok::Punct('\''), Tok::ident("app"), Tok::Punct(',')];
    assert(tokens::toks(k1@) =~= seq![tokens::id("impl"), tokens::pc('<'), tokens::pc('\''), tokens::id("proxy"), tokens::pc(','), tokens::pc('\''), tokens::id("app"), tokens::pc(',')]);
    tokens::extend_toks(&mut r, &k1);
    crate::interfaces::push_each_with_comma(&mut r, gp);
    let k2: Vec<Tok> = vec![Tok::ident("MtApp"), Tok::Punct('>'), Tok::ident("InstantiateProxy"), Tok::Punct('<'), Tok::Punct('\''), Tok::ident("proxy"), Tok::Punct(','), Tok::Punct('\''), Tok::ident("app"), Tok::Punct(',')];
    assert(tokens::toks(k2@) =~= seq![tokens::id("MtApp"), tokens::pc('>'), tokens::id("InstantiateProxy"), tokens::pc('<'), tokens::pc('\''), tokens::id("proxy"), tokens::pc(','), tokens::pc('\''), tokens::id("app"), tokens::pc(',')]);
    tokens::extend_toks(&mut r, &k2);
    crate::interfaces::push_each_with_comma(&mut r, gp);
    let k3: Vec<Tok> = vec![Tok::ident("MtApp"), Tok::Punct('>'), Tok::ident("where"), Tok::ident("MtApp"), Tok::Punct(':'), Tok::ident("Executor"), Tok::Punct('<')];
    assert(tokens::toks(k3@) =~= seq![tokens::id("MtApp"), tokens::pc('>'), tokens::id("where"), tokens::id("MtApp"), tokens::pc(':'), tokens::id("Executor"), tokens::pc('<')]);
    tokens::extend_toks(&mut r, &k3);
    tokens::extend_toks(&mut r, cm);
    let k4: Vec<Tok> = vec![Tok::Punct('>'), Tok::Punct(',')];
    assert(tokens::toks(k4@) =~= seq![tokens::pc('>'), tokens::pc(',')]);
    tokens::extend_toks(&mut r, &k4);
    let wp = associated_types::opt_predicates_to_tokens(w);
    tokens::extend_toks(&mut r, &wp);
    let k5: Vec<Tok> = vec![Tok::Open(Delim::Brace), Tok::ident("pub"), Tok::ident("fn"), Tok::ident("with_funds"), Tok::Open(Delim::Paren), Tok::ident("self"), Tok::Punct(','), Tok::ident("funds"), Tok::Punct(':'), Tok::Punct('&'), Tok::Punct('\''), Tok::ident("proxy"), Tok::Open(Delim::Bracket)];
    assert(tokens::toks(k5@) =~= seq![TokV::Open(Delim::Brace), tokens::id("pub"), tokens::id("fn"), tokens::id("with_funds"), TokV::Open(Delim::Paren), tokens::id("self"), tokens::pc(','), tokens::id("funds"), tokens::pc(':'), tokens::pc('&'), tokens::pc('\''), tokens::id("proxy"), TokV::Open(Delim::Bracket)]);
    tokens::extend_toks(&mut r, &k5);
    msg_type::push_cw_std_item(&mut r, sylvia, "Coin");
    let k6: Vec<Tok> = vec![Tok::Close(Delim::Bracket), Tok::Close(Delim::Paren), Tok::Punct('-'), Tok::Punct('>'), Tok::ident("Self"), Tok::Open(Delim::Brace), Tok::ident("Self"), Tok::Open(Delim::Brace), Tok::ident("funds"), Tok::Punct(','), Tok::Punct('.'), Tok::Punct('.'), Tok::ident("self"), Tok::Close(Delim::Brace), Tok::Close(Delim::Brace), Tok::ident("pub"), Tok::ident("fn"), Tok::ident("with_label"), Tok::Open(Delim::Paren), Tok::ident("self"), Tok::Punct(','), Tok::ident("label"), Tok::Punct(':'), Tok::Punct('&'), Tok::Punct('\''), Tok::ident("proxy"), Tok::ident("str"), Tok::Close(Delim::Paren), Tok::Punct('-'), Tok::Punct('>'), Tok::ident("Self"), Tok::Open(Delim::Brace), Tok::ident("Self"), Tok::Open(Delim::Brace), Tok::ident("label"), Tok::Punct(','), Tok::Punct('.'), Tok::Punct('.'), Tok::ident("self"), Tok::Close(Delim::Brace), Tok::Close(Delim::Brace)];
    assert(tokens::toks(k6@) =~= seq![TokV::Close(Delim::Bracket), TokV::Close(Delim::Paren), tokens::pc('-'), tokens::pc('>'), tokens::id("Self"), TokV::Open(Delim::Brace), tokens::id("Self"), TokV::Open(Delim::Brace), tokens::id("funds"), tokens::pc(','), tokens::pc('.'), tokens::pc('.'), tokens::id("self"), TokV::Close(Delim::Brace), TokV::Close(Delim::Brace), tokens::id("pub"), tokens::id("fn"), tokens::id("with_label"), TokV::Open(Delim::Paren), tokens::id("self"), tokens::pc(','), tokens::id("label"), tokens::pc(':'), tokens::pc('&'), tokens::pc('\''), tokens::id("proxy"), tokens::id("str"), TokV::Close(Delim::Paren), tokens::pc('-'), tokens::pc('>'), tokens::id("Self"), TokV::Open(Delim::Brace), tokens::id("Self"), TokV::Open(Delim::Brace), tokens::id("label"), tokens::pc(','), tokens::pc('.'), tokens::pc('.'), tokens::id("self"), TokV::Close(Delim::Brace), TokV::Close(Delim::Brace)]);
    tokens::extend_toks(&mut r, &k6);
    assert(tokens::toks(r@) =~= proxy_impl_head(parser::toks2(gp@), where_value(*w), tokens::toks(cm@), tokens::toks(sylvia@)));
    r
}

fn with_admin_salt_exec() -> (r: Vec<Tok>)
    ensures
        tokens::toks(r@) == with_admin_salt(),
{
    let mut r: Vec<Tok> = Vec::new();
    let k1: Vec<Tok> = vec![Tok::ident("pub"), Tok::ident("fn"), Tok::ident("with_admin"), Tok::Punct('<'), Tok::Punct('\''), Tok::ident("s"), Tok::Punct('>'), Tok::Open(Delim::Paren), Tok::ident("self"), Tok::Punct(','), Tok::ident("admin"), Tok::Punct(':'), Tok::ident("impl"), Tok::ident("Into"), Tok::Punct('<'), Tok::ident("Option"), Tok::Punct('<'), Tok::Punct('&'), Tok::Punct('\''), Tok::ident("s"), Tok::ident("str"), Tok::Punct('>'), Tok::Punct('>'), Tok::Close(Delim::Paren), Tok::Punct('-'), Tok::Punct('>'), Tok::ident("Self"), Tok::Open(Delim::Brace), Tok::ident("let"), Tok::ident("admin"), Tok::Punct('='), Tok::ident("admin"), Tok::Punct('.'), Tok::ident("into"), Tok::Open(Delim::Paren), Tok::Close(Delim::Paren), Tok::Punct('.'), Tok::ident("map"), Tok::Open(Delim::Paren), Tok::ident("str"), Tok::Punct(':'), Tok::Punct(':'), Tok::ident("to_owned"), Tok::Close(Delim::Paren), Tok::Punct(';'), Tok::ident("Self"), Tok::Open(Delim::Brace), Tok::ident("admin"), Tok::Punct(','), Tok::Punct('.'), Tok::Punct('.'), Tok::ident("self"), Tok::Close(Delim::Brace), Tok::Close(Delim::Brace), Tok::ident("pub"), Tok::ident("fn"), Tok::ident("with_salt"), Tok::Open(Delim::Paren), Tok::ident("self"), Tok::Punct(','), Tok::ident("salt"), Tok::Punct(':'), Tok::ident("impl"), Tok::ident("Into"), Tok::Punct('<'), Tok::ident("Option"), Tok::Punct('<'), Tok::Punct('&'), Tok::Punct('\''), Tok::ident("proxy"), Tok::Open(Delim::Bracket), Tok::ident("u8"), Tok::Close(Delim::Bracket), Tok::Punct('>'), Tok::Punct('>'), Tok::Close(Delim::Paren), Tok::Punct('-'), Tok::Punct('>'), Tok::ident("Self"), Tok::Open(Delim::Brace), Tok::ident("let"), Tok::ident("salt"), Tok::Punct('='), Tok::ident("salt"), Tok::Punct('.'), Tok::ident("into"), Tok::Open(Delim::Paren), Tok::Close(Delim::Paren), Tok::Punct(';'), Tok::ident("Self"), Tok::Open(Delim::Brace), Tok::ident("salt"), Tok::Punct(','), Tok::Punct('.'), Tok::Punct('.'), Tok::ident("self"), Tok::Close(Delim::Brace), Tok::Close(Delim::Brace)];
    assert(tokens::toks(k1@) =~= seq![tokens::id("pub"), tokens::id("fn"), tokens::id("with_admin"), tokens::pc('<'), tokens::pc('\''), tokens::id("s"), tokens::pc('>'), TokV::Open(Delim::Paren), tokens::id("self"), tokens::pc(','), tokens::id("admin"), tokens::pc(':'), tokens::id("impl"), tokens::id("Into"), tokens::pc('<'), tokens::id("Option"), tokens::pc('<'), tokens::pc('&'), tokens::pc('\''), tokens::id("s"), tokens::id("str"), tokens::pc('>'), tokens::pc('>'), TokV::Close(Delim::Paren), tokens::pc('-'), tokens::pc('>'), tokens::id("Self"), TokV::Open(Delim::Brace), tokens::id("let"), tokens::id("admin"), tokens::pc('='), tokens::id("admin"), tokens::pc('.'), tokens::id("into"), TokV::Open(Delim::Paren), TokV::Close(Delim::Paren), tokens::pc('.'), tokens::id("map"), TokV::Open(Delim::Paren), tokens::id("str"), tokens::pc(':'), tokens::pc(':'), tokens::id("to_owned"), TokV::Close(Delim::Paren), tokens::pc(';'), tokens::id("Self"), TokV::Open(Delim::Brace), tokens::id("admin"), tokens::pc(','), tokens::pc('.'), tokens::pc('.'), tokens::id("self"), TokV::Close(Delim::Brace), TokV::Close(Delim::Brace), tokens::id("pub"), tokens::id("fn"), tokens::id("with_salt"), TokV::Open(Delim::Paren), tokens::id("self"), tokens::pc(','), tokens::id("salt"), tokens::pc(':'), tokens::id("impl"), tokens::id("Into"), tokens::pc('<'), tokens::id("Option"), tokens::pc('<'), tokens::pc('&'), tokens::pc('\''), tokens::id("proxy"), TokV::Open(Delim::Bracket), tokens::id("u8"), TokV::Close(Delim::Bracket), tokens::pc('>'), tokens::pc('>'), TokV::Close(Delim::Paren), tokens::pc('-'), tokens::pc('>'), tokens::id("Self"), TokV::Open(Delim::Brace), tokens::id("let"), tokens::id("salt"), tokens::pc('='), tokens::id("salt"), tokens::pc('.'), tokens::id("into"), TokV::Open(Delim::Paren), TokV::Close(Delim::Paren), tokens::pc(';'), tokens::id("Self"), TokV::Open(Delim::Brace), tokens::id("salt"), tokens::pc(','), tokens::pc('.'), tokens::pc('.'), tokens::id("self"), TokV::Close(Delim::Brace), TokV::Close(Delim::Brace)]);
    tokens::extend_toks(&mut r, &k1);
    assert(tokens::toks(r@) =~= with_admin_salt());
    r
}

fn call_head_exec(pname: &String, gp: &Vec<Vec<Tok>>, err: &Vec<Tok>) -> (r: Vec<Tok>)
    ensures
        tokens::toks(r@) == call_head(pname@, parser::toks2(gp@), tokens::toks(err@)),
{
    let mut r: Vec<Tok> = Vec::new();
    crate::mt::push_caller_location_attr(&mut r);
    let k1: Vec<Tok> = vec![Tok::ident("pub"), Tok::ident("fn"), Tok::ident("call"), Tok::Open(Delim::Paren), Tok::ident("self"), Tok::Punct(','), Tok::ident("sender"), Tok::Punct(':'), Tok::Punct('&'), Tok::ident("str"), Tok::Close(Delim::Paren), Tok::Punct('-'), Tok::Punct('>'), Tok::ident("Result"), Tok::Punct('<')];
    assert(tokens::toks(k1@) =~= seq![tokens::id("pub"), tokens::id("fn"), tokens::id("call"), TokV::Open(Delim::Paren), tokens::id("self"), tokens::pc(','), tokens::id("sender"), tokens::pc(':'), tokens::pc('&'), tokens::id("str"), TokV::Close(Delim::Paren), tokens::pc('-'), tokens::pc('>'), tokens::id("Result"), tokens::pc('<')]);
    tokens::extend_toks(&mut r, &k1);
    tokens::push_tok(&mut r, Tok::Ident(pname.clone()));
    let k2: Vec<Tok> = vec![Tok::Punct('<'), Tok::Punct('\''), Tok::ident("app"), Tok::Punct(','), Tok::ident("MtApp"), Tok::Punct(',')];
    assert(tokens::toks(k2@) =~= seq![tokens::pc('<'), tokens::pc('\''), tokens::id("app"), tokens::pc(','), tokens::id("MtApp"), tokens::pc(',')]);
    tokens::extend_toks(&mut r, &k2);
    crate::interfaces::push_each_with_comma(&mut r, gp);
    let k3: Vec<Tok> = vec![Tok::Punct('>'), Tok::Punct(',')];
    assert(tokens::toks(k3@) =~= seq![tokens::pc('>'), tokens::pc(',')]);
    tokens::extend_toks(&mut r, &k3);
    tokens::extend_toks(&mut r, err);
    let k4: Vec<Tok> = vec![Tok::Punct('>'), Tok::Open(Delim::Brace), Tok::ident("let"), Tok::ident("Self"), Tok::Open(Delim::Brace), Tok::ident("code_id"), Tok::Punct(','), Tok::ident("funds"), Tok::Punct(','), Tok::ident("label"), Tok::Punct(','), Tok::ident("admin"), Tok::Punct(','), Tok::ident("salt"), Tok::Punct(','), Tok::ident("msg"), Tok::Close(Delim::Brace), Tok::Punct('='), Tok::ident("self"), Tok::Punct(';'), Tok::ident("match"), Tok::ident("salt"), Tok::Open(Delim::Brace), Tok::ident("Some"), Tok::Open(Delim::Paren), Tok::ident("salt"), Tok::Close(Delim::Paren), Tok::Punct('='), Tok::Punct('>'), Tok::Open(Delim::Brace)];
    assert(tokens::toks(k4@) =~= seq![tokens::pc('>'), TokV::Open(Delim::Brace), tokens::id("let"), tokens::id("Self"), TokV::Open(Delim::Brace), tokens::id("code_id"), tokens::pc(','), tokens::id("funds"), tokens::pc(','), tokens::id("label"), tokens::pc(','), tokens::id("admin"), tokens::pc(','), tokens::id("salt"), tokens::pc(','), tokens::id("msg"), TokV::Close(Delim::Brace), tokens::pc('='), tokens::id("self"), tokens::pc(';'), tokens::id("match"), tokens::id("salt"), TokV::Open(Delim::Brace), tokens::id("Some"), TokV::Open(Delim::Paren), tokens::id("salt"), TokV::Close(Delim::Paren), tokens::pc('='), tokens::pc('>'), TokV::Open(Delim::Brace)]);
    tokens::extend_toks(&mut r, &k4);
    assert(tokens::toks(r@) =~= call_head(pname@, parser::toks2(gp@), tokens::toks(err@)));
    r
}

fn instantiate2_exec(pname: &String, err: &Vec<Tok>, sylvia: &Vec<Tok>) -> (r: Vec<Tok>)
    ensures
        tokens::toks(r@) == instantiate2(pname@, tokens::toks(err@), tokens::toks(sylvia@)),
{
    let mut r: Vec<Tok> = Vec::new();
    let k1: Vec<Tok> = vec![Tok::ident("let"), Tok::ident("msg"), Tok::Punct('=')];
    assert(tokens::toks(k1@) =~= seq![tokens::id("let"), tokens::id("msg"), tokens::pc('=')]);
    tokens::extend_toks(&mut r, &k1);
    msg_type::push_cw_std_item(&mut r, sylvia, "to_json_binary");
    let k2: Vec<Tok> = vec![Tok::Open(Delim::Paren), Tok::Punct('&'), Tok::ident("msg"), Tok::Close(Delim::Paren), Tok::Punct('.'), Tok::ident("map_err"), Tok::Open(Delim::Paren), Tok::ident("Into"), Tok::Punct(':'), Tok::Punct(':'), Tok::Punct('<')];
    assert(tokens::toks(k2@) =~= seq![TokV::Open(Delim::Paren), tokens::pc('&'), tokens::id("msg"), TokV::Close(Delim::Paren), tokens::pc('.'), tokens::id("map_err"), TokV::Open(Delim::Paren), tokens::id("Into"), tokens::pc(':'), tokens::pc(':'), tokens::pc('<')]);
    tokens::extend_toks(&mut r, &k2);
    tokens::extend_toks(&mut r, err);
    let k3: Vec<Tok> = vec![Tok::Punct('>'), Tok::Punct(':'), Tok::Punct(':'), Tok::ident("into"), Tok::Close(Delim::Paren), Tok::Punct('?'), Tok::Punct(';'), Tok::ident("let"), Tok::ident("sender"), Tok::Punct('=')];
    assert(tokens::toks(k3@) =~= seq![tokens::pc('>'), tokens::pc(':'), tokens::pc(':'), tokens::id("into"), TokV::Close(Delim::Paren), tokens::pc('?'), tokens::pc(';'), tokens::id("let"), tokens::id("sender"), tokens::pc('=')]);
    tokens::extend_toks(&mut r, &k3);
    msg_type::push_cw_std_item(&mut r, sylvia, "Addr");
    let k4: Vec<Tok> = vec![Tok::Punct(':'), Tok::Punct(':'), Tok::ident("unchecked"), Tok::Open(Delim::Paren), Tok::ident("sender"), Tok::Close(Delim::Paren), Tok::Punct(';'), Tok::ident("let"), Tok::ident("msg"), Tok::Punct('=')];
    assert(tokens::toks(k4@) =~= seq![tokens::pc(':'), tokens::pc(':'), tokens::id("unchecked"), TokV::Open(Delim::Paren), tokens::id("sender"), TokV::Close(Delim::Paren), tokens::pc(';'), tokens::id("let"), tokens::id("msg"), tokens::pc('=')]);
    tokens::extend_toks(&mut r, &k4);
    msg_type::push_cw_std_item(&mut r, sylvia, "WasmMsg");
    let k5: Vec<Tok> = vec![Tok::Punct(':'), Tok::Punct(':'), Tok::ident("Instantiate2"), Tok::Open(Delim::Brace), Tok::ident("admin"), Tok::Punct(','), Tok::ident("code_id"), Tok::Punct(':'), Tok::ident("code_id"), Tok::Punct('.'), Tok::ident("code_id"), Tok::Punct(','), Tok::ident("msg"), Tok::Punct(','), Tok::ident("funds"), Tok::Punct(':'), Tok::ident("funds"), Tok::Punct('.'), Tok::ident("to_owned"), Tok::Open(Delim::Paren), Tok::Close(Delim::Paren), Tok::Punct(','), Tok::ident("label"), Tok::Punct(':'), Tok::ident("label"), Tok::Punct('.'), Tok::ident("to_owned"), Tok::Open(Delim::Paren), Tok::Close(Delim::Paren), Tok::Punct(','), Tok::ident("salt"), Tok::Punct(':'), Tok::ident("salt"), Tok::Punct('.'), Tok::ident("into"), Tok::Open(Delim::Paren), Tok::Close(Delim::Paren), Tok::Punct(','), Tok::Close(Delim::Brace), Tok::Punct(';'), Tok::ident("let"), Tok::ident("app_response"), Tok::Punct('='), Tok::Open(Delim::Paren), Tok::Punct('*'), Tok::ident("code_id"), Tok::Punct('.'), Tok::ident("app"), Tok::Close(Delim::Paren), Tok::Punct('.'), Tok::ident("app_mut"), Tok::Open(Delim::Paren), Tok::Close(Delim::Paren), Tok::Punct('.'), Tok::ident("execute"), Tok::Open(Delim::Paren), Tok::ident("sender"), Tok::Punct('.'), Tok::ident("clone"), Tok::Open(Delim::Paren), Tok::Close(Delim::Paren), Tok::Punct(','), Tok::ident("msg"), Tok::Punct('.'), Tok::ident("into"), Tok::Open(Delim::Paren), Tok::Close(Delim::Paren), Tok::Close(Delim::Paren), Tok::Punct('.'), Tok::ident("map_err"), Tok::Open(Delim::Paren), Tok::Punct('|'), Tok::ident("err"), Tok::Punct('|'), Tok::ident("err"), Tok::Punct('.'), Tok::ident("downcast"), Tok::Punct(':'), Tok::Punct(':'), Tok::Punct('<')];
    assert(tokens::toks(k5@) =~= seq![tokens::pc(':'), tokens::pc(':'), tokens::id("Instantiate2"), TokV::Open(Delim::Brace), tokens::id("admin"), tokens::pc(','), tokens::id("code_id"), tokens::pc(':'), tokens::id("code_id"), tokens::pc('.'), tokens::id("code_id"), tokens::pc(','), tokens::id("msg"), tokens::pc(','), tokens::id("funds"), tokens::pc(':'), tokens::id("funds"), tokens::pc('.'), tokens::id("to_owned"), TokV::Open(Delim::Paren), TokV::Close(Delim::Paren), tokens::pc(','), tokens::id("label"), tokens::pc(':'), tokens::id("label"), tokens::pc('.'), tokens::id("to_owned"), TokV::Open(Delim::Paren), TokV::Close(Delim::Paren), tokens::pc(','), tokens::id("salt"), tokens::pc(':'), tokens::id("salt"), tokens::pc('.'), tokens::id("into"), TokV::Open(Delim::Paren), TokV::Close(Delim::Paren), tokens::pc(','), TokV::Close(Delim::Brace), tokens::pc(';'), tokens::id("let"), tokens::id("app_response"), tokens::pc('='), TokV::Open(Delim::Paren), tokens::pc('*'), tokens::id("code_id"), tokens::pc('.'), tokens::id("app"), TokV::Close(Delim::Paren), tokens::pc('.'), tokens::id("app_mut"), TokV::Open(Delim::Paren), TokV::Close(Delim::Paren), tokens::pc('.'), tokens::id("execute"), TokV::Open(Delim::Paren), tokens::id("sender"), tokens::pc('.'), tokens::id("clone"), TokV::Open(Delim::Paren), TokV::Close(Delim::Paren), tokens::pc(','), tokens::id("msg"), tokens::pc('.'), tokens::id("into"), TokV::Open(Delim::Paren), TokV::Close(Delim::Paren), TokV::Close(Delim::Paren), tokens::pc('.'), tokens::id("map_err"), TokV::Open(Delim::Paren), tokens::pc('|'), tokens::id("err"), tokens::pc('|'), tokens::id("err"), tokens::pc('.'), tokens::id("downcast"), tokens::pc(':'), tokens::pc(':'), tokens::pc('<')]);
    tokens::extend_toks(&mut r, &k5);
    tokens::extend_toks(&mut r, err);
    let k6: Vec<Tok> = vec![Tok::Punct('>'), Tok::Open(Delim::Paren), Tok::Close(Delim::Paren), Tok::Punct('.'), Tok::ident("unwrap"), Tok::Open(Delim::Paren), Tok::Close(Delim::Paren), Tok::Close(Delim::Paren), Tok::Punct('?'), Tok::Punct(';')];
    assert(tokens::toks(k6@) =~= seq![tokens::pc('>'), TokV::Open(Delim::Paren), TokV::Close(Delim::Paren), tokens::pc('.'), tokens::id("unwrap"), TokV::Open(Delim::Paren), TokV::Close(Delim::Paren), TokV::Close(Delim::Paren), tokens::pc('?'), tokens::pc(';')]);
    tokens::extend_toks(&mut r, &k6);
    push_path3(&mut r, sylvia, "cw_utils", "parse_instantiate_response_data");
    let k7: Vec<Tok> = vec![Tok::Open(Delim::Paren), Tok::ident("app_response"), Tok::Punct('.'), Tok::ident("data"), Tok::Punct('.'), Tok::ident("unwrap"), Tok::Open(Delim::Paren), Tok::Close(Delim::Paren), Tok::Punct('.'), Tok::ident("as_slice"), Tok::Open(Delim::Paren), Tok::Close(Delim::Paren), Tok::Close(Delim::Paren), Tok::Punct('.'), Tok::ident("map_err"), Tok::Open(Delim::Paren), Tok::Punct('|'), Tok::ident("err"), Tok::Punct('|'), Tok::ident("Into"), Tok::Punct(':'), Tok::Punct(':'), Tok::ident("into"), Tok::Open(Delim::Paren)];
    assert(tokens::toks(k7@) =~= seq![TokV::Open(Delim::Paren), tokens::id("app_response"), tokens::pc('.'), tokens::id("data"), tokens::pc('.'), tokens::id("unwrap"), TokV::Open(Delim::Paren), TokV::Close(Delim::Paren), tokens::pc('.'), tokens::id("as_slice"), TokV::Open(Delim::Paren), TokV::Close(Delim::Paren), TokV::Close(Delim::Paren), tokens::pc('.'), tokens::id("map_err"), TokV::Open(Delim::Paren), tokens::pc('|'), tokens::id("err"), tokens::pc('|'), tokens::id("Into"), tokens::pc(':'), tokens::pc(':'), tokens::id("into"), TokV::Open(Delim::Paren)]);
    tokens::extend_toks(&mut r, &k7);
    msg_type::push_cw_std_item(&mut r, sylvia, "StdError");
    let k8: Vec<Tok> = vec![Tok::Punct(':'), Tok::Punct(':'), Tok::ident("generic_err"), Tok::Open(Delim::Paren), Tok::ident("err"), Tok::Punct('.'), Tok::ident("to_string"), Tok::Open(Delim::Paren), Tok::Close(Delim::Paren), Tok::Close(Delim::Paren), Tok::Close(Delim::Paren), Tok::Close(Delim::Paren), Tok::Punct('.'), Tok::ident("map"), Tok::Open(Delim::Paren), Tok::Punct('|'), Tok::ident("data"), Tok::Punct('|')];
    assert(tokens::toks(k8@) =~= seq![tokens::pc(':'), tokens::pc(':'), tokens::id("generic_err"), TokV::Open(Delim::Paren), tokens::id("err"), tokens::pc('.'), tokens::id("to_string"), TokV::Open(Delim::Paren), TokV::Close(Delim::Paren), TokV::Close(Delim::Paren), TokV::Close(Delim::Paren), TokV::Close(Delim::Paren), tokens::pc('.'), tokens::id("map"), TokV::Open(Delim::Paren), tokens::pc('|'), tokens::id("data"), tokens::pc('|')]);
    tokens::extend_toks(&mut r, &k8);
    tokens::push_tok(&mut r, Tok::Ident(pname.clone()));
    let k9: Vec<Tok> = vec![Tok::Open(Delim::Brace), Tok::ident("contract_addr"), Tok::Punct(':')];
    assert(tokens::toks(k9@) =~= seq![TokV::Open(Delim::Brace), tokens::id("contract_addr"), tokens::pc(':')]);
    tokens::extend_toks(&mut r, &k9);
    msg_type::push_cw_std_item(&mut r, sylvia, "Addr");
    let k10: Vec<Tok> = vec![Tok::Punct(':'), Tok::Punct(':'), Tok::ident("unchecked"), Tok::Open(Delim::Paren), Tok::ident("data"), Tok::Punct('.'), Tok::ident("contract_address"), Tok::Close(Delim::Paren), Tok::Punct(','), Tok::ident("app"), Tok::Punct(':'), Tok::ident("code_id"), Tok::Punct('.'), Tok::ident("app"), Tok::Punct(','), Tok::ident("_phantom"), Tok::Punct(':'), Tok::ident("std"), Tok::Punct(':'), Tok::Punct(':'), Tok::ident("marker"), Tok::Punct(':'), Tok::Punct(':'), Tok::ident("PhantomData"), Tok::Punct(':'), Tok::Punct(':'), Tok::ident("default"), Tok::Open(Delim::Paren), Tok::Close(Delim::Paren), Tok::Punct(','), Tok::Close(Delim::Brace), Tok::Close(Delim::Paren)];
    assert(tokens::toks(k10@) =~= seq![tokens::pc(':'), tokens::pc(':'), tokens::id("unchecked"), TokV::Open(Delim::Paren), tokens::id("data"), tokens::pc('.'), tokens::id("contract_address"), TokV::Close(Delim::Paren), tokens::pc(','), tokens::id("app"), tokens::pc(':'), tokens::id("code_id"), tokens::pc('.'), tokens::id("app"), tokens::pc(','), tokens::id("_phantom"), tokens::pc(':'), tokens::id("std"), tokens::pc(':'), tokens::pc(':'), tokens::id("marker"), tokens::pc(':'), tokens::pc(':'), tokens::id("PhantomData"), tokens::pc(':'), tokens::pc(':'), tokens::id("default"), TokV::Open(Delim::Paren), TokV::Close(Delim::Paren), tokens::pc(','), TokV::Close(Delim::Brace), TokV::Close(Delim::Paren)]);
    tokens::extend_toks(&mut r, &k10);
    assert(tokens::toks(r@) =~= instantiate2(pname@, tokens::toks(err@), tokens::toks(sylvia@)));
    r
}

fn salt_unsupported_exec(sylvia: &Vec<Tok>) -> (r: Vec<Tok>)
    ensures
        tokens::toks(r@) == salt_unsupported(tokens::toks(sylvia@)),
{
    let mut r: Vec<Tok> = Vec::new();
    let k1: Vec<Tok> = vec![Tok::ident("let"), Tok::ident("err"), Tok::Punct('=')];
    assert(tokens::toks(k1@) =~= seq![tokens::id("let"), tokens::id("err"), tokens::pc('=')]);
    tokens::extend_toks(&mut r, &k1);
    msg_type::push_cw_std_item(&mut r, sylvia, "StdError");
    let k2: Vec<Tok> = vec![Tok::Punct(':'), Tok::Punct(':'), Tok::ident("generic_err"), Tok::Open(Delim::Paren), Tok::Lit(String::from_str("\"`with_salt` was called, but it requires `cosmwasm_1_2` feature enabled. Consider removing `with_salt` or adding the `cosmwasm_1_2` feature.\"")), Tok::Close(Delim::Paren), Tok::Punct(';'), Tok::ident("Err"), Tok::Open(Delim::Paren), Tok::ident("Into"), Tok::Punct(':'), Tok::Punct(':'), Tok::ident("into"), Tok::Open(Delim::Paren), Tok::ident("err"), Tok::Close(Delim::Paren), Tok::Close(Delim::Paren)];
    assert(tokens::toks(k2@) =~= seq![tokens::pc(':'), tokens::pc(':'), tokens::id("generic_err"), TokV::Open(Delim::Paren), TokV::Lit("\"`with_salt` was called, but it requires `cosmwasm_1_2` feature enabled. Consider removing `with_salt` or adding the `cosmwasm_1_2` feature.\""@), TokV::Close(Delim::Paren), tokens::pc(';'), tokens::id("Err"), TokV::Open(Delim::Paren), tokens::id("Into"), tokens::pc(':'), tokens::pc(':'), tokens::id("into"), TokV::Open(Delim::Paren), tokens::id("err"), TokV::Close(Delim::Paren), TokV::Close(Delim::Paren)]);
    tokens::extend_toks(&mut r, &k2);
    assert(tokens::toks(r@) =~= salt_unsupported(tokens::toks(sylvia@)));
    r
}

fn call_tail_exec(pname: &String, sylvia: &Vec<Tok>) -> (r: Vec<Tok>)
    ensures
        tokens::toks(r@) == call_tail(pname@, tokens::toks(sylvia@)),
{
    let mut r: Vec<Tok> = Vec::new();
    let k1: Vec<Tok> = vec![Tok::Close(Delim::Brace), Tok::Punct(','), Tok::ident("None"), Tok::Punct('='), Tok::Punct('>'), Tok::Open(Delim::Paren), Tok::Punct('*'), Tok::ident("code_id"), Tok::Punct('.'), Tok::ident("app"), Tok::Close(Delim::Paren), Tok::Punct('.'), Tok::ident("app_mut"), Tok::Open(Delim::Paren), Tok::Close(Delim::Paren), Tok::Punct('.'), Tok::ident("instantiate_contract"), Tok::Open(Delim::Paren), Tok::ident("code_id"), Tok::Punct('.'), Tok::ident("code_id"), Tok::Punct(',')];
    assert(tokens::toks(k1@) =~= seq![TokV::Close(Delim::Brace), tokens::pc(','), tokens::id("None"), tokens::pc('='), tokens::pc('>'), TokV::Open(Delim::Paren), tokens::pc('*'), tokens::id("code_id"), tokens::pc('.'), tokens::id("app"), TokV::Close(Delim::Paren), tokens::pc('.'), tokens::id("app_mut"), TokV::Open(Delim::Paren), TokV::Close(Delim::Paren), tokens::pc('.'), tokens::id("instantiate_contract"), TokV::Open(Delim::Paren), tokens::id("code_id"), tokens::pc('.'), tokens::id("code_id"), tokens::pc(',')]);
    tokens::extend_toks(&mut r, &k1);
    msg_type::push_cw_std_item(&mut r, sylvia, "Addr");
    let k2: Vec<Tok> = vec![Tok::Punct(':'), Tok::Punct(':'), Tok::ident("unchecked"), Tok::Open(Delim::Paren), Tok::ident("sender"), Tok::Close(Delim::Paren), Tok::Punct(','), Tok::Punct('&'), Tok::ident("msg"), Tok::Punct(','), Tok::ident("funds"), Tok::Punct(','), Tok::ident("label"), Tok::Punct(','), Tok::ident("admin"), Tok::Punct(','), Tok::Close(Delim::Paren), Tok::Punct('.'), Tok::ident("map_err"), Tok::Open(Delim::Paren), Tok::Punct('|'), Tok::ident("err"), Tok::Punct('|'), Tok::ident("err"), Tok::Punct('.'), Tok::ident("downcast"), Tok::Open(Delim::Paren), Tok::Close(Delim::Paren), Tok::Punct('.'), Tok::ident("unwrap"), Tok::Open(Delim::Paren), Tok::Close(Delim::Paren), Tok::Close(Delim::Paren), Tok::Punct('.'), Tok::ident("map"), Tok::Open(Delim::Paren), Tok::Punct('|'), Tok::ident("addr"), Tok::Punct('|')];
    assert(tokens::toks(k2@) =~= seq![tokens::pc(':'), tokens::pc(':'), tokens::id("unchecked"), TokV::Open(Delim::Paren), tokens::id("sender"), TokV::Close(Delim::Paren), tokens::pc(','), tokens::pc('&'), tokens::id("msg"), tokens::pc(','), tokens::id("funds"), tokens::pc(','), tokens::id("label"), tokens::pc(','), tokens::id("admin"), tokens::pc(','), TokV::Close(Delim::Paren), tokens::pc('.'), tokens::id("map_err"), TokV::Open(Delim::Paren), tokens::pc('|'), tokens::id("err"), tokens::pc('|'), tokens::id("err"), tokens::pc('.'), tokens::id("downcast"), TokV::Open(Delim::Paren), TokV::Close(Delim::Paren), tokens::pc('.'), tokens::id("unwrap"), TokV::Open(Delim::Paren), TokV::Close(Delim::Paren), TokV::Close(Delim::Paren), tokens::pc('.'), tokens::id("map"), TokV::Open(Delim::Paren), tokens::pc('|'), tokens::id("addr"), tokens::pc('|')]);
    tokens::extend_toks(&mut r, &k2);
    tokens::push_tok(&mut r, Tok::Ident(pname.clone()));
    let k3: Vec<Tok> = vec![Tok::Open(Delim::Brace), Tok::ident("contract_addr"), Tok::Punct(':'), Tok::ident("addr"), Tok::Punct(','), Tok::ident("app"), Tok::Punct(':'), Tok::ident("code_id"), Tok::Punct('.'), Tok::ident("app"), Tok::Punct(','), Tok::ident("_phantom"), Tok::Punct(':'), Tok::ident("std"), Tok::Punct(':'), Tok::Punct(':'), Tok::ident("marker"), Tok::Punct(':'), Tok::Punct(':'), Tok::ident("PhantomData"), Tok::Punct(':'), Tok::Punct(':'), Tok::ident("default"), Tok::Open(Delim::Paren), Tok::Close(Delim::Paren), Tok::Punct(','), Tok::Close(Delim::Brace), Tok::Close(Delim::Paren), Tok::Punct(','), Tok::Close(Delim::Brace), Tok::Close(Delim::Brace), Tok::Close(Delim::Brace)];
    assert(tokens::toks(k3@) =~= seq![TokV::Open(Delim::Brace), tokens::id("contract_addr"), tokens::pc(':'), tokens::id("addr"), tokens::pc(','), tokens::id("app"), tokens::pc(':'), tokens::id("code_id"), tokens::pc('.'), tokens::id("app"), tokens::pc(','), tokens::id("_phantom"), tokens::pc(':'), tokens::id("std"), tokens::pc(':'), tokens::pc(':'), tokens::id("marker"), tokens::pc(':'), tokens::pc(':'), tokens::id("PhantomData"), tokens::pc(':'), tokens::pc(':'), tokens::id("default"), TokV::Open(Delim::Paren), TokV::Close(Delim::Paren), tokens::pc(','), TokV::Close(Delim::Brace), TokV::Close(Delim::Paren), tokens::pc(','), TokV::Close(Delim::Brace), TokV::Close(Delim::Brace), TokV::Close(Delim::Brace)]);
    tokens::extend_toks(&mut r, &k3);
    assert(tokens::toks(r@) =~= call_tail(pname@, tokens::toks(sylvia@)));
    r
}

fn contract_expr_exec(name: &String, gp: &Vec<Vec<Tok>>) -> (r: Vec<Tok>)
    ensures
        tokens::toks(r@) == contract_expr(name@, parser::toks2(gp@)),
{
    let mut r: Vec<Tok> = Vec::new();
    tokens::push_tok(&mut r, Tok::Ident(name.clone()));
    if gp.len() > 0 {
        tokens::push_punct(&mut r, ':');
        tokens::push_punct(&mut r, ':');
        tokens::push_punct(&mut r, '<');
        crate::interfaces::push_each_with_comma(&mut r, gp);
        tokens::push_punct(&mut r, '>');
    }
    assert(tokens::toks(r@) =~= contract_expr(name@, parser::toks2(gp@)));
    r
}

fn instantiate_msg_expr_exec(ug: &Vec<Vec<Tok>>) -> (r: Vec<Tok>)
    ensures
        tokens::toks(r@) == instantiate_msg_expr(parser::toks2(ug@)),
{
    let mut r: Vec<Tok> = Vec::new();
    tokens::push_ident(&mut r, "InstantiateMsg");
    if ug.len() > 0 {
        tokens::push_punct(&mut r, ':');
        tokens::push_punct(&mut r, ':');
        tokens::push_punct(&mut r, '<');
        crate::interfaces::push_each_with_comma(&mut r, ug);
        tokens::push_punct(&mut r, '>');
    }
    assert(tokens::toks(r@) =~= instantiate_msg_expr(parser::toks2(ug@)));
    r
}

pub(crate) fn names_each_comma_exec(v: &MsgVariant) -> (r: Vec<Tok>)
    ensures
        tokens::toks(r@) == names_each_comma(v@.fields),
{
    let ghost fs = v@.fields;
    let ghost want = Seq::new(fs.len(), |i: int| seq![TokV::Ident(fs[i].name), tokens::pc(',')]);
    let mut r: Vec<Tok> = Vec::new();
    let mut k: usize = 0;
    assert(want.take(0) =~= Seq::<Seq<TokV>>::empty());
    assert(tokens::toks(r@) =~= tokens::concat(want.take(0)));
    while k < v.fields.len()
        invariant
            fs == v@.fields,
            want == Seq::new(fs.len(), |i: int| seq![TokV::Ident(fs[i].name), tokens::pc(',')]),
            k <= v.fields.len(),
            tokens::toks(r@) == tokens::concat(want.take(k as int)),
        decreases v.fields.len() - k,
    {
        let ghost before = tokens::toks(r@);
        tokens::push_tok(&mut r, Tok::Ident(v.fields[k].name.clone()));
        tokens::push_punct(&mut r, ',');
        assert(fs[k as int] == v.fields@[k as int]@);
        assert(tokens::toks(r@) =~= before + want[k as int]);
        assert(want.take(k + 1).drop_last() =~= want.take(k as int));
        k = k + 1;
    }
    assert(want.take(k as int) =~= want);
    r
}

fn instantiate_params_exec(vs: &Vec<MsgVariant>) -> (r: Vec<Tok>)
    ensures
        tokens::toks(r@) == instantiate_params(reply::variants_view(vs@)),
{
    let mut r: Vec<Tok> = Vec::new();
    proof {
        lemma_first_of_kind(reply::variants_view(vs@), MsgType::Instantiate);
    }
    match find_first_of_kind(vs, MsgType::Instantiate) {
        Some(i) => {
            crate::mt::push_params_each_comma(&mut r, &vs[i]);
        },
        None => {},
    }
    assert(tokens::toks(r@) =~= instantiate_params(reply::variants_view(vs@)));
    r
}

fn instantiate_names_exec(vs: &Vec<MsgVariant>) -> (r: Vec<Tok>)
    ensures
        tokens::toks(r@) == instantiate_names(reply::variants_view(vs@)),
{
    proof {
        lemma_first_of_kind(reply::variants_view(vs@), MsgType::Instantiate);
    }
    match find_first_of_kind(vs, MsgType::Instantiate) {
        Some(i) => names_each_comma_exec(&vs[i]),
        None => {
            let r: Vec<Tok> = Vec::new();
            assert(tokens::toks(r@) =~= Seq::<TokV>::empty());
            r
        },
    }
}

fn reply_call_exec(v: &MsgVariant) -> (r: Vec<Tok>)
    ensures
        tokens::toks(r@) == reply_call(v@),
{
    let mut r: Vec<Tok> = vec![Tok::ident("self"), Tok::Punct('.')];
    querier::push_method_name(&mut r, v);
    let rest: Vec<Tok> = vec![
        Tok::Open(Delim::Paren),
        Tok::Open(Delim::Paren),
        Tok::ident("deps"),
        Tok::Punct(','),
        Tok::ident("env"),
        Tok::Close(Delim::Paren),
        Tok::Punct('.'),
        Tok::ident("into"),
        Tok::Open(Delim::Paren),
        Tok::Close(Delim::Paren),
        Tok::Punct(','),
        Tok::ident("msg"),
        Tok::Close(Delim::Paren),
        Tok::Punct('.'),
        Tok::ident("map_err"),
        Tok::Open(Delim::Paren),
        Tok::ident("Into"),
        Tok::Punct(':'),
        Tok::Punct(':'),
        Tok::ident("into"),
        Tok::Close(Delim::Paren),
    ];
    tokens::extend_toks(&mut r, &rest);
    assert(tokens::toks(r@) =~= reply_call(v@));
    r
}

fn bail_exec(sylvia: &Vec<Tok>, ty: MsgType) -> (r: Vec<Tok>)
    ensures
        tokens::toks(r@) == bail(tokens::toks(sylvia@), not_implemented(ty)),
{
    let mut r: Vec<Tok> = Vec::new();
    push_path3(&mut r, sylvia, "anyhow", "bail");
    tokens::push_punct(&mut r, '!');
    tokens::push_tok(&mut r, Tok::Open(Delim::Paren));
    let message = if ty == MsgType::Migrate {
        String::from_str("\"migrate not implemented for contract\"")
    } else {
        String::from_str("\"reply not implemented for contract\"")
    };
    tokens::push_tok(&mut r, Tok::Lit(message));
    tokens::push_tok(&mut r, Tok::Close(Delim::Paren));
    assert(tokens::toks(r@) =~= bail(tokens::toks(sylvia@), not_implemented(ty)));
    r
}

fn deps_param_exec(mutable: bool, query: &Vec<Tok>, sylvia: &Vec<Tok>) -> (r: Vec<Tok>)
    ensures
        tokens::toks(r@) == deps_param(mutable, tokens::toks(query@), tokens::toks(sylvia@)),
{
    let mut r: Vec<Tok> = vec![Tok::ident("deps"), Tok::Punct(':')];
    if mutable {
        msg_type::push_cw_std_item(&mut r, sylvia, "DepsMut");
    } else {
        msg_type::push_cw_std_item(&mut r, sylvia, "Deps");
    }
    tokens::push_punct(&mut r, '<');
    tokens::extend_toks(&mut r, query);
    tokens::push_punct(&mut r, '>');
    tokens::push_punct(&mut r, ',');
    assert(tokens::toks(r@) =~= deps_param(mutable, tokens::toks(query@), tokens::toks(sylvia@)));
    r
}

fn push_std_param(dst: &mut Vec<Tok>, name: &str, ty: &str, sylvia: &Vec<Tok>)
    ensures
        tokens::toks(final(dst)@) == tokens::toks(old(dst)@) + std_param(name, ty, tokens::toks(sylvia@)),
{
    tokens::push_ident(dst, name);
    tokens::push_punct(dst, ':');
    msg_type::push_cw_std_item(dst, sylvia, ty);
    tokens::push_punct(dst, ',');
    assert(tokens::toks(dst@) =~= tokens::toks(old(dst)@) + std_param(name, ty, tokens::toks(sylvia@)));
}

fn push_bytes_param(dst: &mut Vec<Tok>)
    ensures
        tokens::toks(final(dst)@) == tokens::toks(old(dst)@) + bytes_param(),
{
    let b: Vec<Tok> = vec![
        Tok::ident("msg"),
        Tok::Punct(':'),
        Tok::ident("Vec"),
        Tok::Punct('<'),
        Tok::ident("u8"),
        Tok::Punct('>'),
        Tok::Punct(','),
    ];
    assert(tokens::toks(b@) =~= bytes_param());
    tokens::extend_toks(dst, &b);
}

fn mt_params_exec(ty: MsgType, query: &Vec<Tok>, sylvia: &Vec<Tok>) -> (r: Vec<Tok>)
    ensures
        tokens::toks(r@) == mt_params(ty, tokens::toks(query@), tokens::toks(sylvia@)),
{
    let mutable = ty != MsgType::Query;
    let mut r = deps_param_exec(mutable, query, sylvia);
    push_std_param(&mut r, "env", "Env", sylvia);
    match ty {
        MsgType::Exec | MsgType::Instantiate => {
            push_std_param(&mut r, "info", "MessageInfo", sylvia);
            push_bytes_param(&mut r);
        },
        MsgType::Reply => {
            push_std_param(&mut r, "msg", "Reply", sylvia);
        },
        _ => {
            push_bytes_param(&mut r);
        },
    }
    assert(tokens::toks(r@) =~= mt_params(ty, tokens::toks(query@), tokens::toks(sylvia@)));
    r
}

fn mt_ret_exec(ty: MsgType, custom_msg: &Vec<Tok>, sylvia: &Vec<Tok>) -> (r: Vec<Tok>)
    ensures
        tokens::toks(r@) == mt_ret(ty, tokens::toks(custom_msg@), tokens::toks(sylvia@)),
{
    let mut r: Vec<Tok> = Vec::new();
    push_path3(&mut r, sylvia, "anyhow", "Result");
    tokens::push_punct(&mut r, '<');
    if ty == MsgType::Query {
        msg_type::push_cw_std_item(&mut r, sylvia, "Binary");
    } else {
        msg_type::push_cw_std_item(&mut r, sylvia, "Response");
        tokens::push_punct(&mut r, '<');
        tokens::extend_toks(&mut r, custom_msg);
        tokens::push_punct(&mut r, '>');
    }
    tokens::push_punct(&mut r, '>');
    assert(tokens::toks(r@) =~= mt_ret(ty, tokens::toks(custom_msg@), tokens::toks(sylvia@)));
    r
}

fn fn_item_exec(name: &str, params: &Vec<Tok>, ret: &Vec<Tok>, body: &Vec<Tok>) -> (r: Vec<Tok>)
    ensures
        tokens::toks(r@) == fn_item(name, tokens::toks(params@), tokens::toks(ret@), tokens::toks(body@)),
{
    let mut r: Vec<Tok> = vec![Tok::ident("fn")];
    tokens::push_ident(&mut r, name);
    tokens::push_tok(&mut r, Tok::Open(Delim::Paren));
    tokens::push_punct(&mut r, '&');
    tokens::push_ident(&mut r, "self");
    tokens::push_punct(&mut r, ',');
    tokens::extend_toks(&mut r, params);
    tokens::push_tok(&mut r, Tok::Close(Delim::Paren));
    tokens::push_punct(&mut r, '-');
    tokens::push_punct(&mut r, '>');
    tokens::extend_toks(&mut r, ret);
    tokens::push_tok(&mut r, Tok::Open(Delim::Brace));
    tokens::extend_toks(&mut r, body);
    tokens::push_tok(&mut r, Tok::Close(Delim::Brace));
    assert(tokens::toks(r@) =~= fn_item(name, tokens::toks(params@), tokens::toks(ret@), tokens::toks(body@)));
    r
}

/// `sylvia :: cw_multi_test :: App < BankT , ApiT , StorageT , CustomT , WasmT , StakingT , DistrT , IbcT , GovT , >`
#[verifier::opaque]
pub open spec fn proxy_app(sylvia: Seq<TokV>) -> Seq<TokV> {
    path3(sylvia, "cw_multi_test", "App")
        + seq![tokens::pc('<'), tokens::id("BankT"), tokens::pc(','), tokens::id("ApiT"), tokens::pc(','), tokens::id("StorageT"), tokens::pc(','), tokens::id("CustomT"), tokens::pc(','), tokens::id("WasmT"), tokens::pc(','), tokens::id("StakingT"), tokens::pc(','), tokens::id("DistrT"), tokens::pc(','), tokens::id("IbcT"), tokens::pc(','), tokens::id("GovT"), tokens::pc(','), tokens::pc('>')]
}

/// The bounds of the proxy's implementations on the app's modules, the contract's custom message and the contract's where clause.
#[verifier::opaque]
pub open spec fn proxy_bounds(cm: Seq<TokV>, w: Option<(Seq<WherePredicateV>, bool)>, sylvia: Seq<TokV>) -> Seq<TokV> {
    seq![tokens::id("CustomT"), tokens::pc(':')]
        + path3(sylvia, "cw_multi_test", "Module")
        + seq![tokens::pc(','), tokens::id("CustomT"), tokens::pc(':'), tokens::pc(':'), tokens::id("ExecT"), tokens::pc(':'), tokens::id("std"), tokens::pc(':'), tokens::pc(':'), tokens::id("fmt"), tokens::pc(':'), tokens::pc(':'), tokens::id("Debug"), tokens::pc('+'), tokens::id("PartialEq"), tokens::pc('+'), tokens::id("Clone"), tokens::pc('+')]
        + path3(sylvia, "schemars", "JsonSchema")
        + seq![tokens::pc('+')]
        + glue::path4(sylvia, "serde", "de", "DeserializeOwned")
        + seq![tokens::pc('+'), tokens::pc('\''), tokens::id("static"), tokens::pc(','), tokens::id("CustomT"), tokens::pc(':'), tokens::pc(':'), tokens::id("QueryT"), tokens::pc(':')]
        + cw_std_item(sylvia, "CustomQuery")
        + seq![tokens::pc('+')]
        + glue::path4(sylvia, "serde", "de", "DeserializeOwned")
        + seq![tokens::pc('+'), tokens::pc('\''), tokens::id("static"), tokens::pc(','), tokens::id("WasmT"), tokens::pc(':')]
        + path3(sylvia, "cw_multi_test", "Wasm")
        + seq![tokens::pc('<'), tokens::id("CustomT"), tokens::pc(':'), tokens::pc(':'), tokens::id("ExecT"), tokens::pc(','), tokens::id("CustomT"), tokens::pc(':'), tokens::pc(':'), tokens::id("QueryT"), tokens::pc('>'), tokens::pc(','), tokens::id("BankT"), tokens::pc(':')]
        + path3(sylvia, "cw_multi_test", "Bank")
        + seq![tokens::pc(','), tokens::id("ApiT"), tokens::pc(':')]
        + cw_std_item(sylvia, "Api")
        + seq![tokens::pc(','), tokens::id("StorageT"), tokens::pc(':')]
        + cw_std_item(sylvia, "Storage")
        + seq![tokens::pc(','), tokens::id("StakingT"), tokens::pc(':')]
        + path3(sylvia, "cw_multi_test", "Staking")
        + seq![tokens::pc(','), tokens::id("DistrT"), tokens::pc(':')]
        + path3(sylvia, "cw_multi_test", "Distribution")
        + seq![tokens::pc(','), tokens::id("IbcT"), tokens::pc(':')]
        + path3(sylvia, "cw_multi_test", "Ibc")
        + seq![tokens::pc(','), tokens::id("GovT"), tokens::pc(':')]
        + path3(sylvia, "cw_multi_test", "Gov")
        + seq![tokens::pc(',')]
        + proxy_app(sylvia)
        + seq![tokens::pc(':'), tokens::id("Executor"), tokens::pc('<')]
        + cm
        + seq![tokens::pc('>'), tokens::pc(',')]
        + associated_types::opt_punctuated(w)
}

/// The start of the module `multitest_utils`, with the proxy type of the contract.
#[verifier::opaque]
pub open spec fn proxy_struct_def(pname: Seq<char>, gp: Seq<Seq<TokV>>, sylvia: Seq<TokV>) -> Seq<TokV> {
    seq![tokens::id("pub"), tokens::id("mod"), tokens::id("multitest_utils"), TokV::Open(Delim::Brace), tokens::id("use"), tokens::id("super"), tokens::pc(':'), tokens::pc(':'), tokens::pc('*'), tokens::pc(';'), tokens::id("use")]
        + path3(sylvia, "cw_multi_test", "Executor")
        + seq![tokens::pc(';'), tokens::id("use")]
        + path3(sylvia, "derivative", "Derivative")
        + seq![tokens::pc(';'), tokens::pc('#'), TokV::Open(Delim::Bracket), tokens::id("derive"), TokV::Open(Delim::Paren), tokens::id("Derivative"), TokV::Close(Delim::Paren), TokV::Close(Delim::Bracket), tokens::pc('#'), TokV::Open(Delim::Bracket), tokens::id("derivative"), TokV::Open(Delim::Paren), tokens::id("Debug"), TokV::Close(Delim::Paren), TokV::Close(Delim::Bracket), tokens::id("pub"), tokens::id("struct")]
        + seq![TokV::Ident(pname)]
        + seq![tokens::pc('<'), tokens::pc('\''), tokens::id("app"), tokens::pc(','), tokens::id("MtApp"), tokens::pc(',')]
        + each_with_comma(gp)
        + seq![tokens::pc('>'), TokV::Open(Delim::Brace), tokens::id("pub"), tokens::id("contract_addr"), tokens::pc(':')]
        + cw_std_item(sylvia, "Addr")
        + seq![tokens::pc(','), tokens::pc('#'), TokV::Open(Delim::Bracket), tokens::id("derivative"), TokV::Open(Delim::Paren), tokens::id("Debug"), tokens::pc('='), TokV::Lit("\"ignore\""@), TokV::Close(Delim::Paren), TokV::Close(Delim::Bracket), tokens::id("pub"), tokens::id("app"), tokens::pc(':'), tokens::pc('&'), tokens::pc('\''), tokens::id("app")]
        + path3(sylvia, "multitest", "App")
        + seq![tokens::pc('<'), tokens::id("MtApp"), tokens::pc('>'), tokens::pc(','), tokens::id("_phantom"), tokens::pc(':'), tokens::id("std"), tokens::pc(':'), tokens::pc(':'), tokens::id("marker"), tokens::pc(':'), tokens::pc(':'), tokens::id("PhantomData"), tokens::pc('<'), TokV::Open(Delim::Paren)]
        + each_with_comma(gp)
        + seq![TokV::Close(Delim::Paren), tokens::pc('>'), tokens::pc(','), TokV::Close(Delim::Brace)]
}

/// The implementation of the proxy over the app, up to its methods: the constructor `new`.
#[verifier::opaque]
pub open spec fn proxy_impl_start(pname: Seq<char>, gp: Seq<Seq<TokV>>, cm: Seq<TokV>, w: Option<(Seq<WherePredicateV>, bool)>, sylvia: Seq<TokV>) -> Seq<TokV> {
    seq![tokens::id("impl"), tokens::pc('<'), tokens::pc('\''), tokens::id("app"), tokens::pc(','), tokens::id("BankT"), tokens::pc(','), tokens::id("ApiT"), tokens::pc(','), tokens::id("StorageT"), tokens::pc(','), tokens::id("CustomT"), tokens::pc(','), tokens::id("WasmT"), tokens::pc(','), tokens::id("StakingT"), tokens::pc(','), tokens::id("DistrT"), tokens::pc(','), tokens::id("IbcT"), tokens::pc(','), tokens::id("GovT"), tokens::pc(',')]
        + each_with_comma(gp)
        + seq![tokens::pc('>')]
        + seq![TokV::Ident(pname)]
        + seq![tokens::pc('<'), tokens::pc('\''), tokens::id("app"), tokens::pc(',')]
        + proxy_app(sylvia)
        + seq![tokens::pc(',')]
        + each_with_comma(gp)
        + seq![tokens::pc('>'), tokens::id("where")]
        + proxy_bounds(cm, w, sylvia)
        + seq![TokV::Open(Delim::Brace), tokens::id("pub"), tokens::id("fn"), tokens::id("new"), TokV::Open(Delim::Paren), tokens::id("contract_addr"), tokens::pc(':')]
        + cw_std_item(sylvia, "Addr")
        + seq![tokens::pc(','), tokens::id("app"), tokens::pc(':'), tokens::pc('&'), tokens::pc('\''), tokens::id("app")]
        + path3(sylvia, "multitest", "App")
        + seq![tokens::pc('<')]
        + proxy_app(sylvia)
        + seq![tokens::pc('>'), TokV::Close(Delim::Paren), tokens::pc('-'), tokens::pc('>'), tokens::id("Self"), TokV::Open(Delim::Brace)]
        + seq![TokV::Ident(pname)]
        + seq![TokV::Open(Delim::Brace), tokens::id("contract_addr"), tokens::pc(','), tokens::id("app"), tokens::pc(','), tokens::id("_phantom"), tokens::pc(':'), tokens::id("std"), tokens::pc(':'), tokens::pc(':'), tokens::id("marker"), tokens::pc(':'), tokens::pc(':'), tokens::id("PhantomData"), tokens::pc(':'), tokens::pc(':'), tokens::id("default"), TokV::Open(Delim::Paren), TokV::Close(Delim::Paren), TokV::Close(Delim::Brace), TokV::Close(Delim::Brace)]
}

/// The conversion of an address and an app into the proxy.
#[verifier::opaque]
pub open spec fn proxy_from_impl(pname: Seq<char>, gp: Seq<Seq<TokV>>, cm: Seq<TokV>, w: Option<(Seq<WherePredicateV>, bool)>, sylvia: Seq<TokV>) -> Seq<TokV> {
    seq![tokens::id("impl"), tokens::pc('<'), tokens::pc('\''), tokens::id("app"), tokens::pc(','), tokens::id("BankT"), tokens::pc(','), tokens::id("ApiT"), tokens::pc(','), tokens::id("StorageT"), tokens::pc(','), tokens::id("CustomT"), tokens::pc(','), tokens::id("WasmT"), tokens::pc(','), tokens::id("StakingT"), tokens::pc(','), tokens::id("DistrT"), tokens::pc(','), tokens::id("IbcT"), tokens::pc(','), tokens::id("GovT"), tokens::pc(',')]
        + each_with_comma(gp)
        + seq![tokens::pc('>'), tokens::id("From"), tokens::pc('<'), TokV::Open(Delim::Paren)]
        + cw_std_item(sylvia, "Addr")
        + seq![tokens::pc(','), tokens::pc('&'), tokens::pc('\''), tokens::id("app")]
        + path3(sylvia, "multitest", "App")
        + seq![tokens::pc('<')]
        + proxy_app(sylvia)
        + seq![tokens::pc('>'), tokens::pc(','), TokV::Close(Delim::Paren), tokens::pc('>'), tokens::id("for")]
        + seq![TokV::Ident(pname)]
        + seq![tokens::pc('<'), tokens::pc('\''), tokens::id("app"), tokens::pc(',')]
        + proxy_app(sylvia)
        + seq![tokens::pc(',')]
        + each_with_comma(gp)
        + seq![tokens::pc('>'), tokens::id("where")]
        + proxy_bounds(cm, w, sylvia)
        + seq![TokV::Open(Delim::Brace), tokens::id("fn"), tokens::id("from"), TokV::Open(Delim::Paren), tokens::id("input"), tokens::pc(':'), TokV::Open(Delim::Paren)]
        + cw_std_item(sylvia, "Addr")
        + seq![tokens::pc(','), tokens::pc('&'), tokens::pc('\''), tokens::id("app")]
        + path3(sylvia, "multitest", "App")
        + seq![tokens::pc('<')]
        + proxy_app(sylvia)
        + seq![tokens::pc('>'), TokV::Close(Delim::Paren), TokV::Close(Delim::Paren), tokens::pc('-'), tokens::pc('>')]
        + seq![TokV::Ident(pname)]
        + seq![tokens::pc('<'), tokens::pc('\''), tokens::id("app"), tokens::pc(',')]
        + proxy_app(sylvia)
        + seq![tokens::pc(',')]
        + each_with_comma(gp)
        + seq![tokens::pc('>'), TokV::Open(Delim::Brace)]
        + seq![TokV::Ident(pname)]
        + seq![tokens::pc(':'), tokens::pc(':'), tokens::id("new"), TokV::Open(Delim::Paren), tokens::id("input"), tokens::pc('.'), TokV::Lit("0"@), tokens::pc(','), tokens::id("input"), tokens::pc('.'), TokV::Lit("1"@), TokV::Close(Delim::Paren), TokV::Close(Delim::Brace), TokV::Close(Delim::Brace)]
}


/// The MultiTest helpers of a contract: the implementation of MultiTest's
/// `Contract`, the code id type and the instantiation proxy.
#[verifier::opaque]
pub open spec fn contract_helpers_tokens(
    gp: Seq<Seq<TokV>>,
    w: Option<(Seq<WherePredicateV>, bool)>,
    contract: Seq<TokV>,
    overrides: Seq<OverrideEntryPointV>,
    vs: Seq<MsgVariantV>,
    cm: Seq<TokV>,
    cq: Seq<TokV>,
    cname: Seq<char>,
    ug: Seq<Seq<TokV>>,
    pname: Seq<char>,
    err: Seq<TokV>,
    sylvia: Seq<TokV>,
    instantiate2_available: bool,
) -> Seq<TokV> {
    mt_contract_impl(gp, w, contract, overrides, vs, cm, cq, sylvia) + code_id_block(cname, gp, ug, w, vs, cm, cq, sylvia, instantiate2_available)
        + proxy_block(pname, gp, ug, w, cm, err, sylvia, instantiate2_available)
}

/// The module `multitest_utils` of a contract: the proxy type `pname` with
/// its constructor and its `methods`, the conversion into it from an address
/// and an app, and the contract's MultiTest `helpers`.
pub open spec fn multitest_utils(
    pname: Seq<char>,
    gp: Seq<Seq<TokV>>,
    w: Option<(Seq<WherePredicateV>, bool)>,
    cm: Seq<TokV>,
    methods: Seq<TokV>,
    helpers: Seq<TokV>,
    sylvia: Seq<TokV>,
) -> Seq<TokV> {
    proxy_struct_def(pname, gp, sylvia) + proxy_impl_start(pname, gp, cm, w, sylvia) + methods + seq![TokV::Close(Delim::Brace)]
        + proxy_from_impl(pname, gp, cm, w, sylvia) + helpers + seq![TokV::Close(Delim::Brace)]
}

pub(crate) fn proxy_app_exec(sylvia: &Vec<Tok>) -> (r: Vec<Tok>)
    ensures
        tokens::toks(r@) == proxy_app(tokens::toks(sylvia@)),
{
    proof {
        reveal(proxy_app);
    }
    let mut r: Vec<Tok> = Vec::new();
    push_path3(&mut r, sylvia, "cw_multi_test", "App");
    let k1: Vec<Tok> = vec![Tok::Punct('<'), Tok::ident("BankT"), Tok::Punct(','), Tok::ident("ApiT"), Tok::Punct(','), Tok::ident("StorageT"), Tok::Punct(','), Tok::ident("CustomT"), Tok::Punct(','), Tok::ident("WasmT"), Tok::Punct(','), Tok::ident("StakingT"), Tok::Punct(','), Tok::ident("DistrT"), Tok::Punct(','), Tok::ident("IbcT"), Tok::Punct(','), Tok::ident("GovT"), Tok::Punct(','), Tok::Punct('>')];
    assert(tokens::toks(k1@) =~= seq![tokens::pc('<'), tokens::id("BankT"), tokens::pc(','), tokens::id("ApiT"), tokens::pc(','), tokens::id("StorageT"), tokens::pc(','), tokens::id("CustomT"), tokens::pc(','), tokens::id("WasmT"), tokens::pc(','), tokens::id("StakingT"), tokens::pc(','), tokens::id("DistrT"), tokens::pc(','), tokens::id("IbcT"), tokens::pc(','), tokens::id("GovT"), tokens::pc(','), tokens::pc('>')]);
    tokens::extend_toks(&mut r, &k1);
    assert(tokens::toks(r@) =~= proxy_app(tokens::toks(sylvia@)));
    r
}

fn proxy_bounds_exec(cm: &Vec<Tok>, w: &Option<WhereClause>, sylvia: &Vec<Tok>) -> (r: Vec<Tok>)
    ensures
        tokens::toks(r@) == proxy_bounds(tokens::toks(cm@), where_value(*w), tokens::toks(sylvia@)),
{
    proof {
        reveal(proxy_bounds);
    }
    let mut r: Vec<Tok> = Vec::new();
    let k1: Vec<Tok> = vec![Tok::ident("CustomT"), Tok::Punct(':')];
    assert(tokens::toks(k1@) =~= seq![tokens::id("CustomT"), tokens::pc(':')]);
    tokens::extend_toks(&mut r, &k1);
    push_path3(&mut r, sylvia, "cw_multi_test", "Module");
    let k2: Vec<Tok> = vec![Tok::Punct(','), Tok::ident("CustomT"), Tok::Punct(':'), Tok::Punct(':'), Tok::ident("ExecT"), Tok::Punct(':'), Tok::ident("std"), Tok::Punct(':'), Tok::Punct(':'), Tok::ident("fmt"), Tok::Punct(':'), Tok::Punct(':'), Tok::ident("Debug"), Tok::Punct('+'), Tok::ident("PartialEq"), Tok::Punct('+'), Tok::ident("Clone"), Tok::Punct('+')];
    assert(tokens::toks(k2@) =~= seq![tokens::pc(','), tokens::id("CustomT"), tokens::pc(':'), tokens::pc(':'), tokens::id("ExecT"), tokens::pc(':'), tokens::id("std"), tokens::pc(':'), tokens::pc(':'), tokens::id("fmt"), tokens::pc(':'), tokens::pc(':'), tokens::id("Debug"), tokens::pc('+'), tokens::id("PartialEq"), tokens::pc('+'), tokens::id("Clone"), tokens::pc('+')]);
    tokens::extend_toks(&mut r, &k2);
    push_path3(&mut r, sylvia, "schemars", "JsonSchema");
    let k3: Vec<Tok> = vec![Tok::Punct('+')];
    assert(tokens::toks(k3@) =~= seq![tokens::pc('+')]);
    tokens::extend_toks(&mut r, &k3);
    push_path4(&mut r, sylvia, "serde", "de", "DeserializeOwned");
    let k4: Vec<Tok> = vec![Tok::Punct('+'), Tok::Punct('\''), Tok::ident("static"), Tok::Punct(','), Tok::ident("CustomT"), Tok::Punct(':'), Tok::Punct(':'), Tok::ident("QueryT"), Tok::Punct(':')];
    assert(tokens::toks(k4@) =~= seq![tokens::pc('+'), tokens::pc('\''), tokens::id("static"), tokens::pc(','), tokens::id("CustomT"), tokens::pc(':'), tokens::pc(':'), tokens::id("QueryT"), tokens::pc(':')]);
    tokens::extend_toks(&mut r, &k4);
    msg_type::push_cw_std_item(&mut r, sylvia, "CustomQuery");
    let k5: Vec<Tok> = vec![Tok::Punct('+')];
    assert(tokens::toks(k5@) =~= seq![tokens::pc('+')]);
    tokens::extend_toks(&mut r, &k5);
    push_path4(&mut r, sylvia, "serde", "de", "DeserializeOwned");
    let k6: Vec<Tok> = vec![Tok::Punct('+'), Tok::Punct('\''), Tok::ident("static"), Tok::Punct(','), Tok::ident("WasmT"), Tok::Punct(':')];
    assert(tokens::toks(k6@) =~= seq![tokens::pc('+'), tokens::pc('\''), tokens::id("static"), tokens::pc(','), tokens::id("WasmT"), tokens::pc(':')]);
    tokens::extend_toks(&mut r, &k6);
    push_path3(&mut r, sylvia, "cw_multi_test", "Wasm");
    let k7: Vec<Tok> = vec![Tok::Punct('<'), Tok::ident("CustomT"), Tok::Punct(':'), Tok::Punct(':'), Tok::ident("ExecT"), Tok::Punct(','), Tok::ident("CustomT"), Tok::Punct(':'), Tok::Punct(':'), Tok::ident("QueryT"), Tok::Punct('>'), Tok::Punct(','), Tok::ident("BankT"), Tok::Punct(':')];
    assert(tokens::toks(k7@) =~= seq![tokens::pc('<'), tokens::id("CustomT"), tokens::pc(':'), tokens::pc(':'), tokens::id("ExecT"), tokens::pc(','), tokens::id("CustomT"), tokens::pc(':'), tokens::pc(':'), tokens::id("QueryT"), tokens::pc('>'), tokens::pc(','), tokens::id("BankT"), tokens::pc(':')]);
    tokens::extend_toks(&mut r, &k7);
    push_path3(&mut r, sylvia, "cw_multi_test", "Bank");
    let k8: Vec<Tok> = vec![Tok::Punct(','), Tok::ident("ApiT"), Tok::Punct(':')];
    assert(tokens::toks(k8@) =~= seq![tokens::pc(','), tokens::id("ApiT"), tokens::pc(':')]);
    tokens::extend_toks(&mut r, &k8);
    msg_type::push_cw_std_item(&mut r, sylvia, "Api");
    let k9: Vec<Tok> = vec![Tok::Punct(','), Tok::ident("StorageT"), Tok::Punct(':')];
    assert(tokens::toks(k9@) =~= seq![tokens::pc(','), tokens::id("StorageT"), tokens::pc(':')]);
    tokens::extend_toks(&mut r, &k9);
    msg_type::push_cw_std_item(&mut r, sylvia, "Storage");
    let k10: Vec<Tok> = vec![Tok::Punct(','), Tok::ident("StakingT"), Tok::Punct(':')];
    assert(tokens::toks(k10@) =~= seq![tokens::pc(','), tokens::id("StakingT"), tokens::pc(':')]);
    tokens::extend_toks(&mut r, &k10);
    push_path3(&mut r, sylvia, "cw_multi_test", "Staking");
    let k11: Vec<Tok> = vec![Tok::Punct(','), Tok::ident("DistrT"), Tok::Punct(':')];
    assert(tokens::toks(k11@) =~= seq![tokens::pc(','), tokens::id("DistrT"), tokens::pc(':')]);
    tokens::extend_toks(&mut r, &k11);
    push_path3(&mut r, sylvia, "cw_multi_test", "Distribution");
    let k12: Vec<Tok> = vec![Tok::Punct(','), Tok::ident("IbcT"), Tok::Punct(':')];
    assert(tokens::toks(k12@) =~= seq![tokens::pc(','), tokens::id("IbcT"), tokens::pc(':')]);
    tokens::extend_toks(&mut r, &k12);
    push_path3(&mut r, sylvia, "cw_multi_test", "Ibc");
    let k13: Vec<Tok> = vec![Tok::Punct(','), Tok::ident("GovT"), Tok::Punct(':')];
    assert(tokens::toks(k13@) =~= seq![tokens::pc(','), tokens::id("GovT"), tokens::pc(':')]);
    tokens::extend_toks(&mut r, &k13);
    push_path3(&mut r, sylvia, "cw_multi_test", "Gov");
    let k14: Vec<Tok> = vec![Tok::Punct(',')];
    assert(tokens::toks(k14@) =~= seq![tokens::pc(',')]);
    tokens::extend_toks(&mut r, &k14);
    let a = proxy_app_exec(sylvia);
    tokens::extend_toks(&mut r, &a);
    let k15: Vec<Tok> = vec![Tok::Punct(':'), Tok::ident("Executor"), Tok::Punct('<')];
    assert(tokens::toks(k15@) =~= seq![tokens::pc(':'), tokens::id("Executor"), tokens::pc('<')]);
    tokens::extend_toks(&mut r, &k15);
    tokens::extend_toks(&mut r, cm);
    let k16: Vec<Tok> = vec![Tok::Punct('>'), Tok::Punct(',')];
    assert(tokens::toks(k16@) =~= seq![tokens::pc('>'), tokens::pc(',')]);
    tokens::extend_toks(&mut r, &k16);
    let wp = associated_types::opt_predicates_to_tokens(w);
    tokens::extend_toks(&mut r, &wp);
    assert(tokens::toks(r@) =~= proxy_bounds(tokens::toks(cm@), where_value(*w), tokens::toks(sylvia@)));
    r
}

fn proxy_struct_def_exec(pname: &String, gp: &Vec<Vec<Tok>>, sylvia: &Vec<Tok>) -> (r: Vec<Tok>)
    ensures
        tokens::toks(r@) == proxy_struct_def(pname@, parser::toks2(gp@), tokens::toks(sylvia@)),
{
    proof {
        reveal(proxy_struct_def);
    }
    let mut r: Vec<Tok> = Vec::new();
    let k1: Vec<Tok> = vec![Tok::ident("pub"), Tok::ident("mod"), Tok::ident("multitest_utils"), Tok::Open(Delim::Brace), Tok::ident("use"), Tok::ident("super"), Tok::Punct(':'), Tok::Punct(':'), Tok::Punct('*'), Tok::Punct(';'), Tok::ident("use")];
    assert(tokens::toks(k1@) =~= seq![tokens::id("pub"), tokens::id("mod"), tokens::id("multitest_utils"), TokV::Open(Delim::Brace), tokens::id("use"), tokens::id("super"), tokens::pc(':'), tokens::pc(':'), tokens::pc('*'), tokens::pc(';'), tokens::id("use")]);
    tokens::extend_toks(&mut r, &k1);
    push_path3(&mut r, sylvia, "cw_multi_test", "Executor");
    let k2: Vec<Tok> = vec![Tok::Punct(';'), Tok::ident("use")];
    assert(tokens::toks(k2@) =~= seq![tokens::pc(';'), tokens::id("use")]);
    tokens::extend_toks(&mut r, &k2);
    push_path3(&mut r, sylvia, "derivative", "Derivative");
    let k3: Vec<Tok> = vec![Tok::Punct(';'), Tok::Punct('#'), Tok::Open(Delim::Bracket), Tok::ident("derive"), Tok::Open(Delim::Paren), Tok::ident("Derivative"), Tok::Close(Delim::Paren), Tok::Close(Delim::Bracket), Tok::Punct('#'), Tok::Open(Delim::Bracket), Tok::ident("derivative"), Tok::Open(Delim::Paren), Tok::ident("Debug"), Tok::Close(Delim::Paren), Tok::Close(Delim::Bracket), Tok::ident("pub"), Tok::ident("struct")];
    assert(tokens::toks(k3@) =~= seq![tokens::pc(';'), tokens::pc('#'), TokV::Open(Delim::Bracket), tokens::id("derive"), TokV::Open(Delim::Paren), tokens::id("Derivative"), TokV::Close(Delim::Paren), TokV::Close(Delim::Bracket), tokens::pc('#'), TokV::Open(Delim::Bracket), tokens::id("derivative"), TokV::Open(Delim::Paren), tokens::id("Debug"), TokV::Close(Delim::Paren), TokV::Close(Delim::Bracket), tokens::id("pub"), tokens::id("struct")]);
    tokens::extend_toks(&mut r, &k3);
    tokens::push_tok(&mut r, Tok::Ident(pname.clone()));
    let k4: Vec<Tok> = vec![Tok::Punct('<'), Tok::Punct('\''), Tok::ident("app"), Tok::Punct(','), Tok::ident("MtApp"), Tok::Punct(',')];
    assert(tokens::toks(k4@) =~= seq![tokens::pc('<'), tokens::pc('\''), tokens::id("app"), tokens::pc(','), tokens::id("MtApp"), tokens::pc(',')]);
    tokens::extend_toks(&mut r, &k4);
    crate::interfaces::push_each_with_comma(&mut r, gp);
    let k5: Vec<Tok> = vec![Tok::Punct('>'), Tok::Open(Delim::Brace), Tok::ident("pub"), Tok::ident("contract_addr"), Tok::Punct(':')];
    assert(tokens::toks(k5@) =~= seq![tokens::pc('>'), TokV::Open(Delim::Brace), tokens::id("pub"), tokens::id("contract_addr"), tokens::pc(':')]);
    tokens::extend_toks(&mut r, &k5);
    msg_type::push_cw_std_item(&mut r, sylvia, "Addr");
    let k6: Vec<Tok> = vec![Tok::Punct(','), Tok::Punct('#'), Tok::Open(Delim::Bracket), Tok::ident("derivative"), Tok::Open(Delim::Paren), Tok::ident("Debug"), Tok::Punct('='), Tok::Lit(String::from_str("\"ignore\"")), Tok::Close(Delim::Paren), Tok::Close(Delim::Bracket), Tok::ident("pub"), Tok::ident("app"), Tok::Punct(':'), Tok::Punct('&'), Tok::Punct('\''), Tok::ident("app")];
    assert(tokens::toks(k6@) =~= seq![tokens::pc(','), tokens::pc('#'), TokV::Open(Delim::Bracket), tokens::id("derivative"), TokV::Open(Delim::Paren), tokens::id("Debug"), tokens::pc('='), TokV::Lit("\"ignore\""@), TokV::Close(Delim::Paren), TokV::Close(Delim::Bracket), tokens::id("pub"), tokens::id("app"), tokens::pc(':'), tokens::pc('&'), tokens::pc('\''), tokens::id("app")]);
    tokens::extend_toks(&mut r, &k6);
    push_path3(&mut r, sylvia, "multitest", "App");
    let k7: Vec<Tok> = vec![Tok::Punct('<'), Tok::ident("MtApp"), Tok::Punct('>'), Tok::Punct(','), Tok::ident("_phantom"), Tok::Punct(':'), Tok::ident("std"), Tok::Punct(':'), Tok::Punct(':'), Tok::ident("marker"), Tok::Punct(':'), Tok::Punct(':'), Tok::ident("PhantomData"), Tok::Punct('<'), Tok::Open(Delim::Paren)];
    assert(tokens::toks(k7@) =~= seq![tokens::pc('<'), tokens::id("MtApp"), tokens::pc('>'), tokens::pc(','), tokens::id("_phantom"), tokens::pc(':'), tokens::id("std"), tokens::pc(':'), tokens::pc(':'), tokens::id("marker"), tokens::pc(':'), tokens::pc(':'), tokens::id("PhantomData"), tokens::pc('<'), TokV::Open(Delim::Paren)]);
    tokens::extend_toks(&mut r, &k7);
    crate::interfaces::push_each_with_comma(&mut r, gp);
    let k8: Vec<Tok> = vec![Tok::Close(Delim::Paren), Tok::Punct('>'), Tok::Punct(','), Tok::Close(Delim::Brace)];
    assert(tokens::toks(k8@) =~= seq![TokV::Close(Delim::Paren), tokens::pc('>'), tokens::pc(','), TokV::Close(Delim::Brace)]);
    tokens::extend_toks(&mut r, &k8);
    assert(tokens::toks(r@) =~= proxy_struct_def(pname@, parser::toks2(gp@), tokens::toks(sylvia@)));
    r
}

fn proxy_impl_start_exec(pname: &String, gp: &Vec<Vec<Tok>>, cm: &Vec<Tok>, w: &Option<WhereClause>, sylvia: &Vec<Tok>) -> (r: Vec<Tok>)
    ensures
        tokens::toks(r@) == proxy_impl_start(pname@, parser::toks2(gp@), tokens::toks(cm@), where_value(*w), tokens::toks(sylvia@)),
{
    proof {
        reveal(proxy_impl_start);
    }
    let mut r: Vec<Tok> = Vec::new();
    let k1: Vec<Tok> = vec![Tok::ident("impl"), Tok::Punct('<'), Tok::Punct('\''), Tok::ident("app"), Tok::Punct(','), Tok::ident("BankT"), Tok::Punct(','), Tok::ident("ApiT"), Tok::Punct(','), Tok::ident("StorageT"), Tok::Punct(','), Tok::ident("CustomT"), Tok::Punct(','), Tok::ident("WasmT"), Tok::Punct(','), Tok::ident("StakingT"), Tok::Punct(','), Tok::ident("DistrT"), Tok::Punct(','), Tok::ident("IbcT"), Tok::Punct(','), Tok::ident("GovT"), Tok::Punct(',')];
    assert(tokens::toks(k1@) =~= seq![tokens::id("impl"), tokens::pc('<'), tokens::pc('\''), tokens::id("app"), tokens::pc(','), tokens::id("BankT"), tokens::pc(','), tokens::id("ApiT"), tokens::pc(','), tokens::id("StorageT"), tokens::pc(','), tokens::id("CustomT"), tokens::pc(','), tokens::id("WasmT"), tokens::pc(','), tokens::id("StakingT"), tokens::pc(','), tokens::id("DistrT"), tokens::pc(','), tokens::id("IbcT"), tokens::pc(','), tokens::id("GovT"), tokens::pc(',')]);
    tokens::extend_toks(&mut r, &k1);
    crate::interfaces::push_each_with_comma(&mut r, gp);
    let k2: Vec<Tok> = vec![Tok::Punct('>')];
    assert(tokens::toks(k2@) =~= seq![tokens::pc('>')]);
    tokens::extend_toks(&mut r, &k2);
    tokens::push_tok(&mut r, Tok::Ident(pname.clone()));
    let k3: Vec<Tok> = vec![Tok::Punct('<'), Tok::Punct('\''), Tok::ident("app"), Tok::Punct(',')];
    assert(tokens::toks(k3@) =~= seq![tokens::pc('<'), tokens::pc('\''), tokens::id("app"), tokens::pc(',')]);
    tokens::extend_toks(&mut r, &k3);
    let a = proxy_app_exec(sylvia);
    tokens::extend_toks(&mut r, &a);
    let k4: Vec<Tok> = vec![Tok::Punct(',')];
    assert(tokens::toks(k4@) =~= seq![tokens::pc(',')]);
    tokens::extend_toks(&mut r, &k4);
    crate::interfaces::push_each_with_comma(&mut r, gp);
    let k5: Vec<Tok> = vec![Tok::Punct('>'), Tok::ident("where")];
    assert(tokens::toks(k5@) =~= seq![tokens::pc('>'), tokens::id("where")]);
    tokens::extend_toks(&mut r, &k5);
    let b = proxy_bounds_exec(cm, w, sylvia);
    tokens::extend_toks(&mut r, &b);
    let k6: Vec<Tok> = vec![Tok::Open(Delim::Brace), Tok::ident("pub"), Tok::ident("fn"), Tok::ident("new"), Tok::Open(Delim::Paren), Tok::ident("contract_addr"), Tok::Punct(':')];
    assert(tokens::toks(k6@) =~= seq![TokV::Open(Delim::Brace), tokens::id("pub"), tokens::id("fn"), tokens::id("new"), TokV::Open(Delim::Paren), tokens::id("contract_addr"), tokens::pc(':')]);
    tokens::extend_toks(&mut r, &k6);
    msg_type::push_cw_std_item(&mut r, sylvia, "Addr");
    let k7: Vec<Tok> = vec![Tok::Punct(','), Tok::ident("app"), Tok::Punct(':'), Tok::Punct('&'), Tok::Punct('\''), Tok::ident("app")];
    assert(tokens::toks(k7@) =~= seq![tokens::pc(','), tokens::id("app"), tokens::pc(':'), tokens::pc('&'), tokens::pc('\''), tokens::id("app")]);
    tokens::extend_toks(&mut r, &k7);
    push_path3(&mut r, sylvia, "multitest", "App");
    let k8: Vec<Tok> = vec![Tok::Punct('<')];
    assert(tokens::toks(k8@) =~= seq![tokens::pc('<')]);
    tokens::extend_toks(&mut r, &k8);
    let a = proxy_app_exec(sylvia);
    tokens::extend_toks(&mut r, &a);
    let k9: Vec<Tok> = vec![Tok::Punct('>'), Tok::Close(Delim::Paren), Tok::Punct('-'), Tok::Punct('>'), Tok::ident("Self"), Tok::Open(Delim::Brace)];
    assert(tokens::toks(k9@) =~= seq![tokens::pc('>'), TokV::Close(Delim::Paren), tokens::pc('-'), tokens::pc('>'), tokens::id("Self"), TokV::Open(Delim::Brace)]);
    tokens::extend_toks(&mut r, &k9);
    tokens::push_tok(&mut r, Tok::Ident(pname.clone()));
    let k10: Vec<Tok> = vec![Tok::Open(Delim::Brace), Tok::ident("contract_addr"), Tok::Punct(','), Tok::ident("app"), Tok::Punct(','), Tok::ident("_phantom"), Tok::Punct(':'), Tok::ident("std"), Tok::Punct(':'), Tok::Punct(':'), Tok::ident("marker"), Tok::Punct(':'), Tok::Punct(':'), Tok::ident("PhantomData"), Tok::Punct(':'), Tok::Punct(':'), Tok::ident("default"), Tok::Open(Delim::Paren), Tok::Close(Delim::Paren), Tok::Close(Delim::Brace), Tok::Close(Delim::Brace)];
    assert(tokens::toks(k10@) =~= seq![TokV::Open(Delim::Brace), tokens::id("contract_addr"), tokens::pc(','), tokens::id("app"), tokens::pc(','), tokens::id("_phantom"), tokens::pc(':'), tokens::id("std"), tokens::pc(':'), tokens::pc(':'), tokens::id("marker"), tokens::pc(':'), tokens::pc(':'), tokens::id("PhantomData"), tokens::pc(':'), tokens::pc(':'), tokens::id("default"), TokV::Open(Delim::Paren), TokV::Close(Delim::Paren), TokV::Close(Delim::Brace), TokV::Close(Delim::Brace)]);
    tokens::extend_toks(&mut r, &k10);
    assert(tokens::toks(r@) =~= proxy_impl_start(pname@, parser::toks2(gp@), tokens::toks(cm@), where_value(*w), tokens::toks(sylvia@)));
    r
}

fn proxy_from_impl_exec(pname: &String, gp: &Vec<Vec<Tok>>, cm: &Vec<Tok>, w: &Option<WhereClause>, sylvia: &Vec<Tok>) -> (r: Vec<Tok>)
    ensures
        tokens::toks(r@) == proxy_from_impl(pname@, parser::toks2(gp@), tokens::toks(cm@), where_value(*w), tokens::toks(sylvia@)),
{
    proof {
        reveal(proxy_from_impl);
    }
    let mut r: Vec<Tok> = Vec::new();
    let k1: Vec<Tok> = vec![Tok::ident("impl"), Tok::Punct('<'), Tok::Punct('\''), Tok::ident("app"), Tok::Punct(','), Tok::ident("BankT"), Tok::Punct(','), Tok::ident("ApiT"), Tok::Punct(','), Tok::ident("StorageT"), Tok::Punct(','), Tok::ident("CustomT"), Tok::Punct(','), Tok::ident("WasmT"), Tok::Punct(','), Tok::ident("StakingT"), Tok::Punct(','), Tok::ident("DistrT"), Tok::Punct(','), Tok::ident("IbcT"), Tok::Punct(','), Tok::ident("GovT"), Tok::Punct(',')];
    assert(tokens::toks(k1@) =~= seq![tokens::id("impl"), tokens::pc('<'), tokens::pc('\''), tokens::id("app"), tokens::pc(','), tokens::id("BankT"), tokens::pc(','), tokens::id("ApiT"), tokens::pc(','), tokens::id("StorageT"), tokens::pc(','), tokens::id("CustomT"), tokens::pc(','), tokens::id("WasmT"), tokens::pc(','), tokens::id("StakingT"), tokens::pc(','), tokens::id("DistrT"), tokens::pc(','), tokens::id("IbcT"), tokens::pc(','), tokens::id("GovT"), tokens::pc(',')]);
    tokens::extend_toks(&mut r, &k1);
    crate::interfaces::push_each_with_comma(&mut r, gp);
    let k2: Vec<Tok> = vec![Tok::Punct('>'), Tok::ident("From"), Tok::Punct('<'), Tok::Open(Delim::Paren)];
    assert(tokens::toks(k2@) =~= seq![tokens::pc('>'), tokens::id("From"), tokens::pc('<'), TokV::Open(Delim::Paren)]);
    tokens::extend_toks(&mut r, &k2);
    msg_type::push_cw_std_item(&mut r, sylvia, "Addr");
    let k3: Vec<Tok> = vec![Tok::Punct(','), Tok::Punct('&'), Tok::Punct('\''), Tok::ident("app")];
    assert(tokens::toks(k3@) =~= seq![tokens::pc(','), tokens::pc('&'), tokens::pc('\''), tokens::id("app")]);
    tokens::extend_toks(&mut r, &k3);
    push_path3(&mut r, sylvia, "multitest", "App");
    let k4: Vec<Tok> = vec![Tok::Punct('<')];
    assert(tokens::toks(k4@) =~= seq![tokens::pc('<')]);
    tokens::extend_toks(&mut r, &k4);
    let a = proxy_app_exec(sylvia);
    tokens::extend_toks(&mut r, &a);
    let k5: Vec<Tok> = vec![Tok::Punct('>'), Tok::Punct(','), Tok::Close(Delim::Paren), Tok::Punct('>'), Tok::ident("for")];
    assert(tokens::toks(k5@) =~= seq![tokens::pc('>'), tokens::pc(','), TokV::Close(Delim::Paren), tokens::pc('>'), tokens::id("for")]);
    tokens::extend_toks(&mut r, &k5);
    tokens::push_tok(&mut r, Tok::Ident(pname.clone()));
    let k6: Vec<Tok> = vec![Tok::Punct('<'), Tok::Punct('\''), Tok::ident("app"), Tok::Punct(',')];
    assert(tokens::toks(k6@) =~= seq![tokens::pc('<'), tokens::pc('\''), tokens::id("app"), tokens::pc(',')]);
    tokens::extend_toks(&mut r, &k6);
    let a = proxy_app_exec(sylvia);
    tokens::extend_toks(&mut r, &a);
    let k7: Vec<Tok> = vec![Tok::Punct(',')];
    assert(tokens::toks(k7@) =~= seq![tokens::pc(',')]);
    tokens::extend_toks(&mut r, &k7);
    crate::interfaces::push_each_with_comma(&mut r, gp);
    let k8: Vec<Tok> = vec![Tok::Punct('>'), Tok::ident("where")];
    assert(tokens::toks(k8@) =~= seq![tokens::pc('>'), tokens::id("where")]);
    tokens::extend_toks(&mut r, &k8);
    let b = proxy_bounds_exec(cm, w, sylvia);
    tokens::extend_toks(&mut r, &b);
    let k9: Vec<Tok> = vec![Tok::Open(Delim::Brace), Tok::ident("fn"), Tok::ident("from"), Tok::Open(Delim::Paren), Tok::ident("input"), Tok::Punct(':'), Tok::Open(Delim::Paren)];
    assert(tokens::toks(k9@) =~= seq![TokV::Open(Delim::Brace), tokens::id("fn"), tokens::id("from"), TokV::Open(Delim::Paren), tokens::id("input"), tokens::pc(':'), TokV::Open(Delim::Paren)]);
    tokens::extend_toks(&mut r, &k9);
    msg_type::push_cw_std_item(&mut r, sylvia, "Addr");
    let k10: Vec<Tok> = vec![Tok::Punct(','), Tok::Punct('&'), Tok::Punct('\''), Tok::ident("app")];
    assert(tokens::toks(k10@) =~= seq![tokens::pc(','), tokens::pc('&'), tokens::pc('\''), tokens::id("app")]);
    tokens::extend_toks(&mut r, &k10);
    push_path3(&mut r, sylvia, "multitest", "App");
    let k11: Vec<Tok> = vec![Tok::Punct('<')];
    assert(tokens::toks(k11@) =~= seq![tokens::pc('<')]);
    tokens::extend_toks(&mut r, &k11);
    let a = proxy_app_exec(sylvia);
    tokens::extend_toks(&mut r, &a);
    let k12: Vec<Tok> = vec![Tok::Punct('>'), Tok::Close(Delim::Paren), Tok::Close(Delim::Paren), Tok::Punct('-'), Tok::Punct('>')];
    assert(tokens::toks(k12@) =~= seq![tokens::pc('>'), TokV::Close(Delim::Paren), TokV::Close(Delim::Paren), tokens::pc('-'), tokens::pc('>')]);
    tokens::extend_toks(&mut r, &k12);
    tokens::push_tok(&mut r, Tok::Ident(pname.clone()));
    let k13: Vec<Tok> = vec![Tok::Punct('<'), Tok::Punct('\''), Tok::ident("app"), Tok::Punct(',')];
    assert(tokens::toks(k13@) =~= seq![tokens::pc('<'), tokens::pc('\''), tokens::id("app"), tokens::pc(',')]);
    tokens::extend_toks(&mut r, &k13);
    let a = proxy_app_exec(sylvia);
    tokens::extend_toks(&mut r, &a);
    let k14: Vec<Tok> = vec![Tok::Punct(',')];
    assert(tokens::toks(k14@) =~= seq![tokens::pc(',')]);
    tokens::extend_toks(&mut r, &k14);
    crate::interfaces::push_each_with_comma(&mut r, gp);
    let k15: Vec<Tok> = vec![Tok::Punct('>'), Tok::Open(Delim::Brace)];
    assert(tokens::toks(k15@) =~= seq![tokens::pc('>'), TokV::Open(Delim::Brace)]);
    tokens::extend_toks(&mut r, &k15);
    tokens::push_tok(&mut r, Tok::Ident(pname.clone()));
    let k16: Vec<Tok> = vec![Tok::Punct(':'), Tok::Punct(':'), Tok::ident("new"), Tok::Open(Delim::Paren), Tok::ident("input"), Tok::Punct('.'), Tok::Lit(String::from_str("0")), Tok::Punct(','), Tok::ident("input"), Tok::Punct('.'), Tok::Lit(String::from_str("1")), Tok::Close(Delim::Paren), Tok::Close(Delim::Brace), Tok::Close(Delim::Brace)];
    assert(tokens::toks(k16@) =~= seq![tokens::pc(':'), tokens::pc(':'), tokens::id("new"), TokV::Open(Delim::Paren), tokens::id("input"), tokens::pc('.'), TokV::Lit("0"@), tokens::pc(','), tokens::id("input"), tokens::pc('.'), TokV::Lit("1"@), TokV::Close(Delim::Paren), TokV::Close(Delim::Brace), TokV::Close(Delim::Brace)]);
    tokens::extend_toks(&mut r, &k16);
    assert(tokens::toks(r@) =~= proxy_from_impl(pname@, parser::toks2(gp@), tokens::toks(cm@), where_value(*w), tokens::toks(sylvia@)));
    r
}

/// The name of the MultiTest proxy of the contract named `name`.
pub open spec fn proxy_name_of(name: Seq<char>) -> Seq<char> {
    name + "Proxy"@
}

/// The identifier of the last segment of the contract's type path.
pub fn extract_contract_name(contract: &Vec<Tok>) -> (r: String)
    requires
        is_type_path(tokens::toks(contract@)),
    ensures
        r@ == type_ident(tokens::toks(contract@)),
{
    get_ident_from_type(contract)
}

/// Generator of the MultiTest helpers of a contract.
pub struct ContractMtHelpers {
    /// The error type of the contract.
    pub error_type: Vec<Tok>,
    /// The contract type, a type path.
    pub contract: Vec<Tok>,
    /// The generic parameters of the contract's impl block.
    pub generic_params: Vec<Vec<Tok>>,
    /// Its where clause.
    pub where_clause: Option<WhereClause>,
    /// The identifier naming the contract type.
    pub contract_name: String,
    /// The name of the contract's MultiTest proxy.
    pub proxy_name: String,
    /// The custom message and query types.
    pub custom: Custom,
    /// The overridden entry points.
    pub override_entry_points: OverrideEntryPoints,
    /// The contract's message handlers.
    pub variants: Vec<MsgVariant>,
    /// The generic parameters the instantiate message uses.
    pub instantiate_generics: Vec<Vec<Tok>>,
}

impl ContractMtHelpers {
    /// The generator for the contract `contract` whose impl block has the
    /// generic parameters `generic_params`, the where clause `where_clause`
    /// and the attributes `attrs`, the custom types `custom`, the overridden
    /// entry points `override_entry_points` and the handlers `variants`, whose
    /// instantiate message uses the generics `instantiate_generics`. The
    /// error type is the one of `#[sv::error(..)]`, or `StdError`.
    pub fn new(
        contract: Vec<Tok>,
        generic_params: Vec<Vec<Tok>>,
        where_clause: Option<WhereClause>,
        attrs: &Vec<Attribute>,
        custom: Custom,
        override_entry_points: OverrideEntryPoints,
        variants: Vec<MsgVariant>,
        instantiate_generics: Vec<Vec<Tok>>,
        sylvia: &Vec<Tok>,
    ) -> (r: ContractMtHelpers)
        requires
            is_type_path(tokens::toks(contract@)),
        ensures
            tokens::toks(r.error_type@) == match parser::error_scan(parser::attrs_view(attrs@)).0 {
                Some(ty) => ty,
                None => parser::std_error(tokens::toks(sylvia@)),
            },
            r.contract@ == contract@,
            r.generic_params@ == generic_params@,
            r.where_clause == where_clause,
            r.contract_name@ == type_ident(tokens::toks(contract@)),
            r.proxy_name@ == proxy_name_of(type_ident(tokens::toks(contract@))),
            r.custom@ == custom@,
            r.override_entry_points.0@ == override_entry_points.0@,
            r.variants@ == variants@,
            r.instantiate_generics@ == instantiate_generics@,
    {
        let (error, _) = ContractErrorAttr::new(attrs, sylvia);
        let contract_name = extract_contract_name(&contract);
        let mut proxy_name = contract_name.clone();
        proxy_name.append("Proxy");
        ContractMtHelpers {
            error_type: error.error,
            contract,
            generic_params,
            where_clause,
            contract_name,
            proxy_name,
            custom,
            override_entry_points,
            variants,
            instantiate_generics,
        }
    }

    fn emit_mt_body(&self, ty: MsgType, sylvia: &Vec<Tok>) -> (r: Vec<Tok>)
        ensures
            tokens::toks(r@) == mt_body(
                ty,
                parser::overrides_view(self.override_entry_points.0@),
                tokens::toks(self.contract@),
                reply::variants_view(self.variants@),
                tokens::toks(sylvia@),
            ),
    {
        let ghost eps = parser::overrides_view(self.override_entry_points.0@);
        let ghost vv = reply::variants_view(self.variants@);
        let first = find_first_of_kind(&self.variants, ty);
        proof {
            parser::lemma_first_override(eps, ty);
            lemma_first_of_kind(vv, ty);
        }
        match entry_points::emit_mt_dispatch(&self.override_entry_points, ty, first.is_some()) {
            Dispatch::Override(i) => self.override_entry_points.0[i].emit_multitest_dispatch(sylvia),
            Dispatch::Default => {
                if ty == MsgType::Reply {
                    match first {
                        Some(k) => reply_call_exec(&self.variants[k]),
                        None => Vec::new(),
                    }
                } else {
                    entry_points::emit_default_dispatch(ty, &self.contract, sylvia)
                }
            },
            Dispatch::NotImplemented => bail_exec(sylvia, ty),
        }
    }

    fn emit_mt_handler(&self, ty: MsgType, custom_msg: &Vec<Tok>, custom_query: &Vec<Tok>, sylvia: &Vec<Tok>) -> (r: Vec<Tok>)
        ensures
            tokens::toks(r@) == mt_handler(
                ty,
                parser::overrides_view(self.override_entry_points.0@),
                tokens::toks(self.contract@),
                reply::variants_view(self.variants@),
                tokens::toks(custom_msg@),
                tokens::toks(custom_query@),
                tokens::toks(sylvia@),
            ),
    {
        let params = mt_params_exec(ty, custom_query, sylvia);
        let ret = mt_ret_exec(ty, custom_msg, sylvia);
        let body = self.emit_mt_body(ty, sylvia);
        let name = match ty {
            MsgType::Exec => "execute",
            MsgType::Instantiate => "instantiate",
            MsgType::Query => "query",
            MsgType::Sudo => "sudo",
            MsgType::Reply => "reply",
            MsgType::Migrate => "migrate",
        };
        fn_item_exec(name, &params, &ret, &body)
    }

    fn emit_head(&self, custom_msg: &Vec<Tok>, custom_query: &Vec<Tok>, sylvia: &Vec<Tok>) -> (r: Vec<Tok>)
        ensures
            tokens::toks(r@) == mt_contract_head(
                parser::toks2(self.generic_params@),
                where_value(self.where_clause),
                tokens::toks(self.contract@),
                tokens::toks(custom_msg@),
                tokens::toks(custom_query@),
                tokens::toks(sylvia@),
            ),
    {
        let mut r: Vec<Tok> = vec![Tok::ident("impl")];
        querier::push_bracketed_generics(&mut r, &self.generic_params);
        push_path3(&mut r, sylvia, "cw_multi_test", "Contract");
        tokens::push_punct(&mut r, '<');
        tokens::extend_toks(&mut r, custom_msg);
        tokens::push_punct(&mut r, ',');
        tokens::extend_toks(&mut r, custom_query);
        tokens::push_punct(&mut r, '>');
        tokens::push_ident(&mut r, "for");
        tokens::extend_toks(&mut r, &self.contract);
        let wt = associated_types::opt_where_to_tokens(&self.where_clause);
        tokens::extend_toks(&mut r, &wt);
        tokens::push_tok(&mut r, Tok::Open(Delim::Brace));
        assert(tokens::toks(r@) =~= mt_contract_head(
            parser::toks2(self.generic_params@),
            where_value(self.where_clause),
            tokens::toks(self.contract@),
            tokens::toks(custom_msg@),
            tokens::toks(custom_query@),
            tokens::toks(sylvia@),
        ));
        r
    }

    /// The implementation of MultiTest's `Contract` for the contract.
    pub fn generate_impl_contract(&self, sylvia: &Vec<Tok>) -> (r: Vec<Tok>)
        ensures
            tokens::toks(r@) == mt_contract_impl(
                parser::toks2(self.generic_params@),
                where_value(self.where_clause),
                tokens::toks(self.contract@),
                parser::overrides_view(self.override_entry_points.0@),
                reply::variants_view(self.variants@),
                match self.custom@.msg {
                    Some(m) => m,
                    None => parser::default_type(tokens::toks(sylvia@)),
                },
                match self.custom@.query {
                    Some(q) => q,
                    None => parser::default_type(tokens::toks(sylvia@)),
                },
                tokens::toks(sylvia@),
            ),
    {
        let cm = self.custom.msg_or_default(sylvia);
        let cq = self.custom.query_or_default(sylvia);
        let mut r = self.emit_head(&cm, &cq, sylvia);
        let e = self.emit_mt_handler(MsgType::Exec, &cm, &cq, sylvia);
        tokens::extend_toks(&mut r, &e);
        let i = self.emit_mt_handler(MsgType::Instantiate, &cm, &cq, sylvia);
        tokens::extend_toks(&mut r, &i);
        let q = self.emit_mt_handler(MsgType::Query, &cm, &cq, sylvia);
        tokens::extend_toks(&mut r, &q);
        let s = self.emit_mt_handler(MsgType::Sudo, &cm, &cq, sylvia);
        tokens::extend_toks(&mut r, &s);
        let p = self.emit_mt_handler(MsgType::Reply, &cm, &cq, sylvia);
        tokens::extend_toks(&mut r, &p);
        let m = self.emit_mt_handler(MsgType::Migrate, &cm, &cq, sylvia);
        tokens::extend_toks(&mut r, &m);
        tokens::push_tok(&mut r, Tok::Close(Delim::Brace));
        r
    }

    fn emit_code_id_block(&self, cm: &Vec<Tok>, cq: &Vec<Tok>, instantiate2_available: bool, sylvia: &Vec<Tok>) -> (r: Vec<Tok>)
        ensures
            tokens::toks(r@) == code_id_block(
                self.contract_name@,
                parser::toks2(self.generic_params@),
                parser::toks2(self.instantiate_generics@),
                where_value(self.where_clause),
                reply::variants_view(self.variants@),
                tokens::toks(cm@),
                tokens::toks(cq@),
                tokens::toks(sylvia@),
                instantiate2_available,
            ),
    {
        let mut r = code_id_struct_exec(&self.generic_params, sylvia);
        let h = code_id_impl_head_exec(&self.generic_params, &self.where_clause, cm, cq, sylvia);
        tokens::extend_toks(&mut r, &h);
        let c = contract_expr_exec(&self.contract_name, &self.generic_params);
        let st = store_code_fns_exec(&c, cm, cq, sylvia);
        tokens::extend_toks(&mut r, &st);
        let ghost before_info = tokens::toks(r@);
        if instantiate2_available {
            let ci = code_info_fn_exec(sylvia);
            tokens::extend_toks(&mut r, &ci);
        }
        assert(tokens::toks(r@) =~= before_info + (if instantiate2_available {
            code_info_fn(tokens::toks(sylvia@))
        } else {
            Seq::empty()
        }));
        let imsg = instantiate_msg_expr_exec(&self.instantiate_generics);
        let params = instantiate_params_exec(&self.variants);
        let names = instantiate_names_exec(&self.variants);
        let i = instantiate_fn_exec(&self.generic_params, &imsg, &params, &names, cm, cq, sylvia);
        tokens::extend_toks(&mut r, &i);
        assert(tokens::toks(r@) =~= code_id_block(
            self.contract_name@,
            parser::toks2(self.generic_params@),
            parser::toks2(self.instantiate_generics@),
            where_value(self.where_clause),
            reply::variants_view(self.variants@),
            tokens::toks(cm@),
            tokens::toks(cq@),
            tokens::toks(sylvia@),
            instantiate2_available,
        ));
        r
    }

    fn emit_proxy_block(&self, cm: &Vec<Tok>, instantiate2_available: bool, sylvia: &Vec<Tok>) -> (r: Vec<Tok>)
        ensures
            tokens::toks(r@) == proxy_block(
                self.proxy_name@,
                parser::toks2(self.generic_params@),
                parser::toks2(self.instantiate_generics@),
                where_value(self.where_clause),
                tokens::toks(cm@),
                tokens::toks(self.error_type@),
                tokens::toks(sylvia@),
                instantiate2_available,
            ),
    {
        let mut r = proxy_struct_exec(&self.generic_params, &self.instantiate_generics, sylvia);
        let h = proxy_impl_head_exec(&self.generic_params, &self.where_clause, cm, sylvia);
        tokens::extend_toks(&mut r, &h);
        let w = with_admin_salt_exec();
        tokens::extend_toks(&mut r, &w);
        let c = call_head_exec(&self.proxy_name, &self.generic_params, &self.error_type);
        tokens::extend_toks(&mut r, &c);
        let ghost before_salt = tokens::toks(r@);
        if instantiate2_available {
            let i = instantiate2_exec(&self.proxy_name, &self.error_type, sylvia);
            tokens::extend_toks(&mut r, &i);
        } else {
            let u = salt_unsupported_exec(sylvia);
            tokens::extend_toks(&mut r, &u);
        }
        assert(tokens::toks(r@) =~= before_salt + (if instantiate2_available {
            instantiate2(self.proxy_name@, tokens::toks(self.error_type@), tokens::toks(sylvia@))
        } else {
            salt_unsupported(tokens::toks(sylvia@))
        }));
        let t = call_tail_exec(&self.proxy_name, sylvia);
        tokens::extend_toks(&mut r, &t);
        assert(tokens::toks(r@) =~= proxy_block(
            self.proxy_name@,
            parser::toks2(self.generic_params@),
            parser::toks2(self.instantiate_generics@),
            where_value(self.where_clause),
            tokens::toks(cm@),
            tokens::toks(self.error_type@),
            tokens::toks(sylvia@),
            instantiate2_available,
        ));
        r
    }

    /// The MultiTest helpers of the contract: the implementation of
    /// MultiTest's `Contract`, the code id type and the instantiation proxy.
    /// `instantiate2_available` tells whether instantiations with a salt may
    /// use the `Instantiate2` message of CosmWasm 1.2.
    pub fn generate_contract_helpers(&self, instantiate2_available: bool, sylvia: &Vec<Tok>) -> (r: Vec<Tok>)
        ensures
            tokens::toks(r@) == contract_helpers_tokens(
                parser::toks2(self.generic_params@),
                where_value(self.where_clause),
                tokens::toks(self.contract@),
                parser::overrides_view(self.override_entry_points.0@),
                reply::variants_view(self.variants@),
                match self.custom@.msg {
                    Some(m) => m,
                    None => parser::default_type(tokens::toks(sylvia@)),
                },
                match self.custom@.query {
                    Some(q) => q,
                    None => parser::default_type(tokens::toks(sylvia@)),
                },
                self.contract_name@,
                parser::toks2(self.instantiate_generics@),
                self.proxy_name@,
                tokens::toks(self.error_type@),
                tokens::toks(sylvia@),
                instantiate2_available,
            ),
    {
        proof {
            reveal(contract_helpers_tokens);
        }
        let cm = self.custom.msg_or_default(sylvia);
        let cq = self.custom.query_or_default(sylvia);
        let mut r = self.generate_impl_contract(sylvia);
        let a = self.emit_code_id_block(&cm, &cq, instantiate2_available, sylvia);
        let b = self.emit_proxy_block(&cm, instantiate2_available, sylvia);
        tokens::extend_toks(&mut r, &a);
        tokens::extend_toks(&mut r, &b);
        r
    }

    /// The module `multitest_utils` of the contract: the proxy type with the
    /// methods sending the contract's messages, `exec_methods`,
    /// `migrate_methods`, `query_methods` and `sudo_methods`, in that order,
    /// and the contract's MultiTest helpers.
    pub fn emit(
        &self,
        instantiate2_available: bool,
        exec_methods: &Vec<Tok>,
        migrate_methods: &Vec<Tok>,
        query_methods: &Vec<Tok>,
        sudo_methods: &Vec<Tok>,
        sylvia: &Vec<Tok>,
    ) -> (r: Vec<Tok>)
        ensures
            tokens::toks(r@) == multitest_utils(
                self.proxy_name@,
                parser::toks2(self.generic_params@),
                where_value(self.where_clause),
                match self.custom@.msg {
                    Some(m) => m,
                    None => parser::default_type(tokens::toks(sylvia@)),
                },
                tokens::toks(exec_methods@) + tokens::toks(migrate_methods@) + tokens::toks(query_methods@) + tokens::toks(sudo_methods@),
                contract_helpers_tokens(
                    parser::toks2(self.generic_params@),
                    where_value(self.where_clause),
                    tokens::toks(self.contract@),
                    parser::overrides_view(self.override_entry_points.0@),
                    reply::variants_view(self.variants@),
                    match self.custom@.msg {
                        Some(m) => m,
                        None => parser::default_type(tokens::toks(sylvia@)),
                    },
                    match self.custom@.query {
                        Some(q) => q,
                        None => parser::default_type(tokens::toks(sylvia@)),
                    },
                    self.contract_name@,
                    parser::toks2(self.instantiate_generics@),
                    self.proxy_name@,
                    tokens::toks(self.error_type@),
                    tokens::toks(sylvia@),
                    instantiate2_available,
                ),
                tokens::toks(sylvia@),
            ),
    {
        let cm = self.custom.msg_or_default(sylvia);
        let mut r = proxy_struct_def_exec(&self.proxy_name, &self.generic_params, sylvia);
        let s = proxy_impl_start_exec(&self.proxy_name, &self.generic_params, &cm, &self.where_clause, sylvia);
        tokens::extend_toks(&mut r, &s);
        tokens::extend_toks(&mut r, exec_methods);
        tokens::extend_toks(&mut r, migrate_methods);
        tokens::extend_toks(&mut r, query_methods);
        tokens::extend_toks(&mut r, sudo_methods);
        tokens::push_tok(&mut r, Tok::Close(Delim::Brace));
        let f = proxy_from_impl_exec(&self.proxy_name, &self.generic_params, &cm, &self.where_clause, sylvia);
        tokens::extend_toks(&mut r, &f);
        let h = self.generate_contract_helpers(instantiate2_available, sylvia);
        tokens::extend_toks(&mut r, &h);
        tokens::push_tok(&mut r, Tok::Close(Delim::Brace));
        r
    }
}

} // verus!
