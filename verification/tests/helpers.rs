use std::str::FromStr;

use proc_macro2::{Delimiter, TokenStream, TokenTree};
use sylvia_derive::associated_types::{AssociatedTypes, TraitItemType, WhereClause, WherePredicate};
use sylvia_derive::executor::{ContractExecutor, Executor};
use sylvia_derive::interface_helpers::{InterfaceExecutor, Querier as InterfaceQuerier};
use sylvia_derive::mt::MtHelpers;
use sylvia_derive::api::{Api, UsedGenerics};
use sylvia_derive::instantiate_builder::{get_ident_from_type, InstantiateBuilder};
use sylvia_derive::parser::{Attribute, Custom, OverrideEntryPoints};
use sylvia_derive::multitest::{extract_contract_name, ContractMtHelpers};
use sylvia_derive::interface_api::{Api as MessagesApi, UsedNames};
use sylvia_derive::msg_type::MsgType;
use sylvia_derive::querier::Querier;
use sylvia_derive::reply::{MsgField, MsgVariant, ReplyOn};
use sylvia_derive::tokens::{Delim, Tok};

fn flatten(ts: TokenStream, out: &mut Vec<Tok>) {
    for tt in ts {
        match tt {
            TokenTree::Group(g) => {
                let d = match g.delimiter() {
                    Delimiter::Parenthesis => Delim::Paren,
                    Delimiter::Bracket => Delim::Bracket,
                    Delimiter::Brace => Delim::Brace,
                    Delimiter::None => Delim::Invisible,
                };
                out.push(Tok::Open(d));
                flatten(g.stream(), out);
                out.push(Tok::Close(d));
            }
            TokenTree::Ident(i) => out.push(Tok::Ident(i.to_string())),
            TokenTree::Punct(p) => out.push(Tok::Punct(p.as_char())),
            TokenTree::Literal(l) => out.push(Tok::Lit(l.to_string())),
        }
    }
}

fn toks(s: &str) -> Vec<Tok> {
    let mut v = Vec::new();
    flatten(TokenStream::from_str(s).unwrap(), &mut v);
    v
}

fn text(v: &[Tok]) -> String {
    let mut s = String::new();
    for t in v {
        match t {
            Tok::Ident(i) => s.push_str(i),
            Tok::Lit(l) => s.push_str(l),
            Tok::Punct(c) => s.push(*c),
            Tok::Open(Delim::Paren) => s.push('('),
            Tok::Close(Delim::Paren) => s.push(')'),
            Tok::Open(Delim::Bracket) => s.push('['),
            Tok::Close(Delim::Bracket) => s.push(']'),
            Tok::Open(Delim::Brace) => s.push('{'),
            Tok::Close(Delim::Brace) => s.push('}'),
            _ => {}
        }
        s.push(' ');
    }
    s.trim_end().to_string()
}

fn code(s: &str) -> String {
    text(&toks(s))
}

fn field(name: &str, t: &str) -> MsgField {
    MsgField { name: name.to_string(), ty: toks(t), data: None, payload: false }
}

fn message(name: &str, fields: Vec<MsgField>, ret: &str) -> MsgVariant {
    let kind = if ret.is_empty() { MsgType::Exec } else { MsgType::Query };
    message_of(kind, name, fields, ret)
}

fn message_of(kind: MsgType, name: &str, fields: Vec<MsgField>, ret: &str) -> MsgVariant {
    MsgVariant {
        function_name: name.to_string(),
        msg_type: kind,
        reply_on: ReplyOn::Success,
        handlers: vec![],
        fields,
        return_type: toks(ret),
    }
}

fn sylvia() -> Vec<Tok> {
    toks("sylvia")
}

#[test]
fn variant_name_is_upper_camel() {
    assert_eq!(message("count_items", vec![], "").name(), "CountItems");
    assert_eq!(message("admin", vec![], "").name(), "Admin");
}

#[test]
fn querier_method_declaration() {
    let v = message("count_items", vec![field("owner", "String"), field("limit", "u32")], "CountResponse");
    assert_eq!(
        text(&v.emit_querier_method_declaration(&sylvia())),
        code("fn count_items(&self, owner: String, limit: u32) -> Result<CountResponse, sylvia::cw_std::StdError>;")
    );
}

#[test]
fn querier_method_without_parameters() {
    let v = message("admins", vec![], "AdminsResponse");
    assert_eq!(
        text(&v.emit_querier_impl(&sylvia(), &toks("<Contract as sylvia::types::ContractApi>::Query"))),
        code(
            "fn admins(&self, ) -> Result<AdminsResponse, sylvia::cw_std::StdError> { \
             let query = <Contract as sylvia::types::ContractApi>::Query::admins(); \
             self.querier().query_wasm_smart(self.contract(), &query) }"
        )
    );
}

#[test]
fn querier_method_implementation() {
    let v = message("count_items", vec![field("owner", "String"), field("limit", "u32")], "CountResponse");
    assert_eq!(
        text(&v.emit_querier_impl(&sylvia(), &toks("<Contract as sylvia::types::ContractApi>::Query"))),
        code(
            "fn count_items(&self, owner: String, limit: u32) -> Result<CountResponse, sylvia::cw_std::StdError> { \
             let query = <Contract as sylvia::types::ContractApi>::Query::count_items(owner, limit); \
             self.querier().query_wasm_smart(self.contract(), &query) }"
        )
    );
}

#[test]
fn executor_method_declaration() {
    let v = message("add_member", vec![field("addr", "String")], "");
    assert_eq!(
        text(&v.emit_executor_method_declaration(&sylvia())),
        code(
            "fn add_member(self, addr: String) -> Result<sylvia::types::ExecutorBuilder<sylvia::types::ReadyExecutorBuilderState>, \
             sylvia::cw_std::StdError>;"
        )
    );
}

#[test]
fn executor_method_implementation() {
    let v = message("add_member", vec![field("addr", "String"), field("weight", "u64")], "");
    assert_eq!(
        text(&v.emit_executor_impl(&sylvia(), &toks("<Contract as sylvia::types::ContractApi>::Exec"))),
        code(
            "fn add_member(self, addr: String, weight: u64) -> Result<sylvia::types::ExecutorBuilder<sylvia::types::ReadyExecutorBuilderState>, \
             sylvia::cw_std::StdError> { Ok(sylvia::types::ExecutorBuilder::<sylvia::types::ReadyExecutorBuilderState>::new( \
             self.contract().to_owned(), self.funds().to_owned(), \
             sylvia::cw_std::to_json_binary(&<Contract as sylvia::types::ContractApi>::Exec::add_member(addr, weight))?, )) }"
        )
    );
}

#[test]
fn where_clause_tokens() {
    let w = WhereClause {
        predicates: vec![
            WherePredicate::Type { lifetimes: Some(toks("'a")), bounded_ty: toks("T"), bounds: toks("Fn(&'a u8)") },
            WherePredicate::Lifetime(toks("'b: 'c")),
        ],
        trailing_comma: true,
    };
    assert_eq!(text(&w.to_tokens()), code("where for<'a> T: Fn(&'a u8), 'b: 'c,"));
    let empty = WhereClause { predicates: vec![], trailing_comma: false };
    assert!(empty.to_tokens().is_empty());
}

#[test]
fn contract_querier_with_generics() {
    let w = WhereClause {
        predicates: vec![WherePredicate::Type { lifetimes: None, bounded_ty: toks("T"), bounds: toks("Clone") }],
        trailing_comma: false,
    };
    let q = Querier::new(
        vec![toks("T")],
        Some(w),
        toks("Contract<T>"),
        vec![message("count", vec![field("p", "u32")], "CountResponse")],
    );
    assert_eq!(
        text(&q.emit(&sylvia())),
        code(
            "pub trait Querier<T,> { type T: Clone; \
             fn count(&self, p: u32) -> Result<CountResponse, sylvia::cw_std::StdError>; } \
             impl<'sv_querier_lifetime, T, C: sylvia::cw_std::CustomQuery> Querier<T,> \
             for sylvia::types::BoundQuerier<'sv_querier_lifetime, C, Contract<T> > where T: Clone { type T = T; \
             fn count(&self, p: u32) -> Result<CountResponse, sylvia::cw_std::StdError> { \
             let query = <Contract<T> as sylvia::types::ContractApi>::Query::count(p); \
             self.querier().query_wasm_smart(self.contract(), &query) } }"
        )
    );
}

#[test]
fn contract_querier_without_generics() {
    let q = Querier::new(vec![], None, toks("Contract"), vec![]);
    assert_eq!(
        text(&q.emit(&sylvia())),
        code(
            "pub trait Querier { } impl<'sv_querier_lifetime, C: sylvia::cw_std::CustomQuery> Querier \
             for sylvia::types::BoundQuerier<'sv_querier_lifetime, C, Contract> { }"
        )
    );
}

#[test]
fn contract_executor() {
    let e = Executor::new(
        vec![],
        None,
        toks("Contract"),
        vec![message("freeze", vec![], "")],
    );
    assert_eq!(
        text(&e.emit(&sylvia())),
        code(
            "pub trait Executor<> { fn freeze(self, ) -> Result<sylvia::types::ExecutorBuilder<sylvia::types::ReadyExecutorBuilderState>, \
             sylvia::cw_std::StdError>; } \
             impl<> Executor<> for sylvia::types::ExecutorBuilder<(sylvia::types::EmptyExecutorBuilderState, Contract)> { \
             fn freeze(self, ) -> Result<sylvia::types::ExecutorBuilder<sylvia::types::ReadyExecutorBuilderState>, \
             sylvia::cw_std::StdError> { Ok(sylvia::types::ExecutorBuilder::<sylvia::types::ReadyExecutorBuilderState>::new( \
             self.contract().to_owned(), self.funds().to_owned(), \
             sylvia::cw_std::to_json_binary(&<Contract as sylvia::types::ContractApi>::Exec::freeze())?, )) } }"
        )
    );
}

#[test]
fn contract_executor_with_generics() {
    let w = WhereClause {
        predicates: vec![WherePredicate::Type { lifetimes: None, bounded_ty: toks("M"), bounds: toks("CustomMsg") }],
        trailing_comma: false,
    };
    let e: ContractExecutor = ContractExecutor::new(vec![toks("M")], Some(w), toks("Contract<M>"), vec![]);
    assert_eq!(
        text(&e.emit(&sylvia())),
        code(
            "pub trait Executor<M,> where M: CustomMsg { type M: CustomMsg; } \
             impl<M,> Executor<M,> for sylvia::types::ExecutorBuilder<(sylvia::types::EmptyExecutorBuilderState, Contract<M>)> \
             where M: CustomMsg { type M = M; }"
        )
    );
}

fn interface_types() -> Vec<TraitItemType> {
    vec![
        TraitItemType { ident: "Error".to_string(), colon: true, bounds: toks("From<StdError>") },
        TraitItemType { ident: "MemberT".to_string(), colon: true, bounds: toks("CustomMsg") },
    ]
}

#[test]
fn interface_querier() {
    let items = interface_types();
    let at = AssociatedTypes::new(&items);
    let variants = vec![message("member", vec![field("addr", "String")], "MemberResp<Self::MemberT>")];
    let name = "Group".to_string();
    let q = InterfaceQuerier::new(&variants, &at, &name);
    let m_decl = "fn member(&self, addr: String) -> Result<MemberResp<Self::MemberT>, sylvia::cw_std::StdError>";
    let api = "<dyn Group<Error = (), MemberT = Self::MemberT,> as InterfaceMessagesApi>::Query";
    let m_impl = format!(
        "{} {{ let query = {}::member(addr); self.querier().query_wasm_smart(self.contract(), &query) }}",
        m_decl, api
    );
    assert_eq!(
        text(&q.emit_querier_trait(&sylvia())),
        code(&format!(
            "pub trait Querier {{ type MemberT: CustomMsg; {}; }} \
             impl<'a, C: sylvia::cw_std::CustomQuery, MemberT,> Querier \
             for sylvia::types::BoundQuerier<'a, C, dyn Group<MemberT = MemberT,> > where MemberT: CustomMsg \
             {{ type MemberT = MemberT; {} }} \
             impl<'a, C: sylvia::cw_std::CustomQuery, Contract: Group> Querier \
             for sylvia::types::BoundQuerier<'a, C, Contract> {{ type MemberT = <Contract as Group>::MemberT; {} }}",
            m_decl, m_impl, m_impl
        ))
    );
}

#[test]
fn interface_executor() {
    let items = interface_types();
    let at = AssociatedTypes::new(&items);
    let variants = vec![message("add_member", vec![field("member", "Self::MemberT")], "")];
    let name = "Group".to_string();
    let e = InterfaceExecutor::new(&variants, &at, &name);
    let sig = "fn add_member(self, member: Self::MemberT) -> Result<sylvia::types::ExecutorBuilder<sylvia::types::ReadyExecutorBuilderState>, \
               sylvia::cw_std::StdError>";
    let body = "{ Ok(sylvia::types::ExecutorBuilder::<sylvia::types::ReadyExecutorBuilderState>::new( \
                self.contract().to_owned(), self.funds().to_owned(), \
                sylvia::cw_std::to_json_binary(&<Api<Self::MemberT,> as sylvia::types::InterfaceApi>::Exec::add_member(member))?, )) }";
    assert_eq!(
        text(&e.emit_executor_trait(&sylvia())),
        code(&format!(
            "pub trait Executor {{ type MemberT: CustomMsg; {sig}; }} \
             impl<MemberT,> Executor for sylvia::types::ExecutorBuilder<(sylvia::types::EmptyExecutorBuilderState, dyn Group<MemberT = MemberT,>)> \
             where MemberT: CustomMsg {{ type MemberT = MemberT; {sig} {body} }} \
             impl<Contract: Group> Executor for sylvia::types::ExecutorBuilder<(sylvia::types::EmptyExecutorBuilderState, Contract)> \
             {{ type MemberT = <Contract as Group>::MemberT; {sig} {body} }}"
        ))
    );
}

#[test]
fn interface_executor_without_associated_types() {
    let items: Vec<TraitItemType> = vec![];
    let at = AssociatedTypes::new(&items);
    let variants = vec![message("ping", vec![], "")];
    let name = "Pinger".to_string();
    let e = InterfaceExecutor::new(&variants, &at, &name);
    let sig = "fn ping(self, ) -> Result<sylvia::types::ExecutorBuilder<sylvia::types::ReadyExecutorBuilderState>, \
               sylvia::cw_std::StdError>";
    let body = "{ Ok(sylvia::types::ExecutorBuilder::<sylvia::types::ReadyExecutorBuilderState>::new( \
                self.contract().to_owned(), self.funds().to_owned(), \
                sylvia::cw_std::to_json_binary(&<Api as sylvia::types::InterfaceApi>::Exec::ping())?, )) }";
    assert_eq!(
        text(&e.emit_executor_trait(&sylvia())),
        code(&format!(
            "pub trait Executor {{ {sig}; }} \
             impl<> Executor for sylvia::types::ExecutorBuilder<(sylvia::types::EmptyExecutorBuilderState, dyn Pinger<>)> \
             {{ {sig} {body} }} \
             impl<Contract: Pinger> Executor for sylvia::types::ExecutorBuilder<(sylvia::types::EmptyExecutorBuilderState, Contract)> \
             {{ {sig} {body} }}"
        ))
    );
}

const APP: &str = "sylvia::cw_multi_test::App<BankT, ApiT, StorageT, CustomT, WasmT, StakingT, DistrT, IbcT, GovT,>";
const CW1_API: &str = "<dyn Cw1<Error = (),> as InterfaceMessagesApi>";

fn caller_attr() -> String {
    format!("#[track_{}]", "caller")
}

#[test]
fn mt_method_definitions_per_kind() {
    let cm = toks("CustomMsgT");
    let app = toks(APP);
    let err = toks("Self::Error");
    let api = toks(CW1_API);
    let q = message_of(MsgType::Query, "admin", vec![], "AdminResp");
    assert_eq!(
        text(&q.emit_mt_method_definition(&cm, &app, &err, &api, &sylvia())),
        code(&format!(
            "fn admin(&self, ) -> Result<AdminResp, Self::Error> {{ let msg = {CW1_API}::Query::admin(); \
             (*self.app).querier().query_wasm_smart(self.contract_addr.clone(), &msg).map_err(Into::into) }}"
        ))
    );
    let e = message_of(MsgType::Exec, "freeze", vec![field("until", "u64")], "");
    assert_eq!(
        text(&e.emit_mt_method_definition(&cm, &app, &err, &api, &sylvia())),
        code(&format!(
            "{} fn freeze(&self, until: u64, ) -> sylvia::multitest::ExecProxy::<Self::Error, {CW1_API}::Exec, {APP}, CustomMsgT> \
             {{ let msg = {CW1_API}::Exec::freeze(until); sylvia::multitest::ExecProxy::new(&self.contract_addr, msg, &self.app) }}",
            caller_attr()
        ))
    );
    let s = message_of(MsgType::Sudo, "clean", vec![field("p", "u32")], "");
    assert_eq!(
        text(&s.emit_mt_method_definition(&cm, &app, &err, &api, &sylvia())),
        code(&format!(
            "fn clean(&self, p: u32, ) -> Result<sylvia::cw_multi_test::AppResponse, Self::Error> {{ let msg = {CW1_API}::Sudo::clean(p); \
             (*self.app).app_mut().wasm_sudo(self.contract_addr.clone(), &msg).map_err(|err| err.downcast().unwrap()) }}"
        ))
    );
    let m = message_of(MsgType::Migrate, "upgrade", vec![field("v", "String")], "");
    assert_eq!(
        text(&m.emit_mt_method_definition(&cm, &app, &err, &api, &sylvia())),
        code(&format!(
            "{} fn upgrade(&self, v: String, ) -> sylvia::multitest::MigrateProxy::<Self::Error, {CW1_API}::Migrate, {APP}, CustomMsgT> \
             {{ let msg = {CW1_API}::Migrate::new(v); sylvia::multitest::MigrateProxy::new(&self.contract_addr, msg, &self.app) }}",
            caller_attr()
        ))
    );
    let i = message_of(MsgType::Instantiate, "instantiate", vec![], "");
    assert!(i.emit_mt_method_definition(&cm, &app, &err, &api, &sylvia()).is_empty());
    assert!(i.emit_mt_method_declaration(&cm, &err, &api, &sylvia()).is_empty());
}

#[test]
fn mt_method_declarations_per_kind() {
    let cm = toks("CustomMsgT");
    let err = toks("Self::Error");
    let api = toks(CW1_API);
    let e = message_of(MsgType::Exec, "freeze", vec![], "");
    assert_eq!(
        text(&e.emit_mt_method_declaration(&cm, &err, &api, &sylvia())),
        code(&format!("fn freeze(&self, ) -> sylvia::multitest::ExecProxy::<Self::Error, {CW1_API}::Exec, MtApp, CustomMsgT>;"))
    );
    let m = message_of(MsgType::Migrate, "upgrade", vec![], "");
    assert_eq!(
        text(&m.emit_mt_method_declaration(&cm, &err, &api, &sylvia())),
        code(&format!(
            "{} fn upgrade(&self, ) -> sylvia::multitest::MigrateProxy::<Self::Error, {CW1_API}::Migrate, MtApp, CustomMsgT>;",
            caller_attr()
        ))
    );
    let q = message_of(MsgType::Query, "admin", vec![field("id", "u8")], "AdminResp");
    assert_eq!(
        text(&q.emit_mt_method_declaration(&cm, &err, &api, &sylvia())),
        code("fn admin(&self, id: u8, ) -> Result<AdminResp, Self::Error>;")
    );
}

#[test]
fn interface_mt_helpers() {
    let items = vec![TraitItemType { ident: "Error".to_string(), colon: true, bounds: toks("From<StdError>") }];
    let at = AssociatedTypes::new(&items);
    let name = "Cw1".to_string();
    let variants = vec![
        message_of(MsgType::Exec, "freeze", vec![], ""),
        message_of(MsgType::Migrate, "upgrade", vec![], ""),
        message_of(MsgType::Query, "admin", vec![], "AdminResp"),
        message_of(MsgType::Sudo, "clean", vec![field("p", "u32")], ""),
    ];
    let w: Option<WhereClause> = None;
    let mt = MtHelpers::new(&name, &w, &at, &variants);
    let expected = format!(
        "pub mod mt {{ use super::*; \
         pub trait Cw1Proxy<MtApp, CustomMsgT> {{ type Error: std::fmt::Debug + std::fmt::Display + Send + Sync + 'static; \
         fn admin(&self, ) -> Result<AdminResp, Self::Error>; \
         fn freeze(&self, ) -> sylvia::multitest::ExecProxy::<Self::Error, {api}::Exec, MtApp, CustomMsgT>; \
         fn clean(&self, p: u32, ) -> Result<sylvia::cw_multi_test::AppResponse, Self::Error>; }} \
         impl<BankT, ApiT, StorageT, CustomT, WasmT, StakingT, DistrT, IbcT, GovT, CustomMsgT, ContractT: super::Cw1> \
         Cw1Proxy<{app}, CustomMsgT> for sylvia::multitest::Proxy<'_, {app}, ContractT> \
         where ContractT::Error: std::fmt::Debug + std::fmt::Display + Send + Sync + 'static, \
         CustomMsgT: sylvia::types::CustomMsg + 'static, CustomT: sylvia::cw_multi_test::Module, \
         WasmT: sylvia::cw_multi_test::Wasm<CustomT::ExecT, CustomT::QueryT>, BankT: sylvia::cw_multi_test::Bank, \
         ApiT: sylvia::cw_std::Api, StorageT: sylvia::cw_std::Storage, CustomT: sylvia::cw_multi_test::Module, \
         StakingT: sylvia::cw_multi_test::Staking, DistrT: sylvia::cw_multi_test::Distribution, \
         IbcT: sylvia::cw_multi_test::Ibc, GovT: sylvia::cw_multi_test::Gov, \
         CustomT::ExecT: sylvia::types::CustomMsg + 'static, CustomT::QueryT: sylvia::types::CustomQuery + 'static, \
         {app}: sylvia::cw_multi_test::Executor<CustomMsgT>, \
         {{ type Error = <ContractT as super::Cw1>::Error; \
         fn admin(&self, ) -> Result<AdminResp, Self::Error> {{ let msg = {api}::Query::admin(); \
         (*self.app).querier().query_wasm_smart(self.contract_addr.clone(), &msg).map_err(Into::into) }} \
         {attr} fn freeze(&self, ) -> sylvia::multitest::ExecProxy::<Self::Error, {api}::Exec, {app}, CustomMsgT> \
         {{ let msg = {api}::Exec::freeze(); sylvia::multitest::ExecProxy::new(&self.contract_addr, msg, &self.app) }} \
         fn clean(&self, p: u32, ) -> Result<sylvia::cw_multi_test::AppResponse, Self::Error> {{ let msg = {api}::Sudo::clean(p); \
         (*self.app).app_mut().wasm_sudo(self.contract_addr.clone(), &msg).map_err(|err| err.downcast().unwrap()) }} }} }}",
        api = CW1_API,
        app = APP,
        attr = caller_attr()
    );
    assert_eq!(text(&mt.emit(&sylvia())), code(&expected));
}

#[test]
fn interface_mt_helpers_with_where_clause() {
    let items = vec![TraitItemType { ident: "MemberT".to_string(), colon: true, bounds: toks("CustomMsg") }];
    let at = AssociatedTypes::new(&items);
    let name = "Group".to_string();
    let variants: Vec<MsgVariant> = vec![];
    let w = Some(WhereClause {
        predicates: vec![WherePredicate::Type { lifetimes: None, bounded_ty: toks("Self"), bounds: toks("Sized") }],
        trailing_comma: false,
    });
    let mt = MtHelpers::new(&name, &w, &at, &variants);
    let expected = format!(
        "pub mod mt {{ use super::*; pub trait GroupProxy<MtApp, CustomMsgT> where Self: Sized \
         {{ type Error: std::fmt::Debug + std::fmt::Display + Send + Sync + 'static; type MemberT: CustomMsg; }} \
         impl<BankT, ApiT, StorageT, CustomT, WasmT, StakingT, DistrT, IbcT, GovT, CustomMsgT, ContractT: super::Group> \
         GroupProxy<{app}, CustomMsgT> for sylvia::multitest::Proxy<'_, {app}, ContractT> \
         where ContractT::Error: std::fmt::Debug + std::fmt::Display + Send + Sync + 'static, \
         CustomMsgT: sylvia::types::CustomMsg + 'static, CustomT: sylvia::cw_multi_test::Module, \
         WasmT: sylvia::cw_multi_test::Wasm<CustomT::ExecT, CustomT::QueryT>, BankT: sylvia::cw_multi_test::Bank, \
         ApiT: sylvia::cw_std::Api, StorageT: sylvia::cw_std::Storage, CustomT: sylvia::cw_multi_test::Module, \
         StakingT: sylvia::cw_multi_test::Staking, DistrT: sylvia::cw_multi_test::Distribution, \
         IbcT: sylvia::cw_multi_test::Ibc, GovT: sylvia::cw_multi_test::Gov, \
         CustomT::ExecT: sylvia::types::CustomMsg + 'static, CustomT::QueryT: sylvia::types::CustomQuery + 'static, \
         {app}: sylvia::cw_multi_test::Executor<CustomMsgT>, Self: Sized \
         {{ type Error = <ContractT as super::Group>::Error; type MemberT = <ContractT as super::Group>::MemberT; }} }}",
        app = APP
    );
    assert_eq!(text(&mt.emit(&sylvia())), code(&expected));
}

fn no_generics() -> Vec<Vec<Tok>> {
    vec![]
}

#[test]
fn contract_api_with_generics() {
    let used = UsedGenerics {
        execute: vec![toks("T")],
        query: no_generics(),
        instantiate: no_generics(),
        migrate: vec![toks("T")],
        sudo: no_generics(),
    };
    let variants = vec![message_of(MsgType::Migrate, "migrate", vec![], ""), message_of(MsgType::Exec, "run", vec![], "")];
    let api = Api::new(toks("Contract<T>"), vec![toks("T")], None, variants, used, Custom::default());
    assert_eq!(
        text(&api.emit(&sylvia())),
        code(
            "impl<T,> sylvia::types::ContractApi for Contract<T> { \
             type ContractExec = ContractExecMsg<T,>; type ContractQuery = ContractQueryMsg<T,>; \
             type ContractSudo = ContractSudoMsg<T,>; type Exec = ExecMsg<T,>; type Query = QueryMsg; \
             type Sudo = SudoMsg; type Instantiate = InstantiateMsg; type Migrate = MigrateMsg<T,>; \
             type Remote<'remote> = sylvia::types::Remote<'remote, Self>; \
             type Querier<'querier> = sylvia::types::BoundQuerier<'querier, sylvia::cw_std::Empty, Self>; \
             type CustomMsg = sylvia::cw_std::Empty; type CustomQuery = sylvia::cw_std::Empty; }"
        )
    );
}

#[test]
fn contract_api_without_migration() {
    let used = UsedGenerics {
        execute: no_generics(),
        query: no_generics(),
        instantiate: no_generics(),
        migrate: no_generics(),
        sudo: no_generics(),
    };
    let custom = Custom { msg: Some(toks("MyMsg")), query: None, input_attr: None };
    let w = WhereClause {
        predicates: vec![WherePredicate::Type { lifetimes: None, bounded_ty: toks("Self"), bounds: toks("Sized") }],
        trailing_comma: false,
    };
    let api = Api::new(toks("Contract"), no_generics(), Some(w), vec![], used, custom);
    assert_eq!(
        text(&api.emit(&sylvia())),
        code(
            "impl sylvia::types::ContractApi for Contract where Self: Sized { \
             type ContractExec = ContractExecMsg; type ContractQuery = ContractQueryMsg; \
             type ContractSudo = ContractSudoMsg; type Exec = ExecMsg; type Query = QueryMsg; \
             type Sudo = SudoMsg; type Instantiate = InstantiateMsg; type Migrate = sylvia::cw_std::Empty; \
             type Remote<'remote> = sylvia::types::Remote<'remote, Self>; \
             type Querier<'querier> = sylvia::types::BoundQuerier<'querier, sylvia::cw_std::Empty, Self>; \
             type CustomMsg = MyMsg; type CustomQuery = sylvia::cw_std::Empty; }"
        )
    );
}

#[test]
fn ident_of_type_path() {
    assert_eq!(get_ident_from_type(&toks("crate::CounterContract<T>")), "CounterContract");
    assert_eq!(get_ident_from_type(&toks("Contract")), "Contract");
}

#[test]
fn contract_instantiate_builder() {
    let variant = message_of(MsgType::Instantiate, "instantiate", vec![field("count", "u32")], "");
    let b = InstantiateBuilder::new(toks("crate::CounterContract<T>"), vec![toks("T")], None, variant);
    assert_eq!(
        text(&b.emit(&sylvia())),
        code(
            "pub trait CounterContractInstantiateBuilder { fn counter_contract<T>(code_id: u64, count: u32) \
             -> sylvia::cw_std::StdResult<sylvia::builder::instantiate::InstantiateBuilder>; } \
             impl CounterContractInstantiateBuilder for sylvia::builder::instantiate::InstantiateBuilder { \
             fn counter_contract<T>(code_id: u64, count: u32, ) -> sylvia::cw_std::StdResult<sylvia::builder::instantiate::InstantiateBuilder> { \
             let msg = InstantiateMsg::<T>::new(count); let msg = sylvia::cw_std::to_json_binary(&msg)?; \
             Ok(sylvia::builder::instantiate::InstantiateBuilder::new(msg, code_id)) } }"
        )
    );
}

#[test]
fn interface_messages_api() {
    let items = vec![
        TraitItemType { ident: "Error".to_string(), colon: true, bounds: toks("From<StdError>") },
        TraitItemType { ident: "ExecC".to_string(), colon: true, bounds: toks("CustomMsg") },
        TraitItemType { ident: "QueryC".to_string(), colon: true, bounds: toks("CustomQuery") },
        TraitItemType { ident: "MemberT".to_string(), colon: true, bounds: toks("CustomMsg") },
    ];
    let at = AssociatedTypes::new(&items);
    let name = "Group".to_string();
    let used = UsedNames { execute: vec!["MemberT".to_string()], query: vec![], sudo: vec![] };
    let api = MessagesApi::new(&name, &at, used);
    assert_eq!(
        text(&api.emit()),
        code(
            "pub trait InterfaceMessagesApi { type Exec; type Query; type Sudo; } \
             impl<Contract: Group> InterfaceMessagesApi for Contract { \
             type Exec = ExecMsg<<Contract as Group>::MemberT,>; type Query = QueryMsg<>; type Sudo = SudoMsg<>; } \
             impl<'sv_iface_msg_api, Error, MemberT> InterfaceMessagesApi for dyn Group<Error = Error, MemberT = MemberT,> + 'sv_iface_msg_api { \
             type Exec = ExecMsg<MemberT,>; type Query = QueryMsg<>; type Sudo = SudoMsg<>; }"
        )
    );
}

#[test]
fn methods_implemented_with_declared_signatures() {
    let api = toks("<Contract as sylvia::types::ContractApi>::Query");
    let q = message("count_items", vec![field("owner", "String")], "CountResponse");
    let decl = q.emit_querier_method_declaration(&sylvia());
    let imp = q.emit_querier_impl(&sylvia(), &api);
    assert_eq!(text(&decl[decl.len() - 1..]), ";");
    assert_eq!(text(&imp[..decl.len() - 1]), text(&decl[..decl.len() - 1]));
    assert_eq!(text(&imp[decl.len() - 1..decl.len()]), "{");
    let e = message("add_member", vec![field("addr", "String")], "");
    let decl = e.emit_executor_method_declaration(&sylvia());
    let imp = e.emit_executor_impl(&sylvia(), &api);
    assert_eq!(text(&imp[..decl.len() - 1]), text(&decl[..decl.len() - 1]));
    assert_eq!(text(&imp[decl.len() - 1..decl.len()]), "{");
}

#[test]
fn a_method_for_each_message() {
    let queries = vec![
        message("count", vec![field("p", "u32")], "CountResponse"),
        message("admins", vec![], "AdminsResponse"),
    ];
    let api = toks("<Contract as sylvia::types::ContractApi>::Query");
    let out = text(&Querier::new(vec![], None, toks("Contract"), queries.clone()).emit(&sylvia()));
    for q in &queries {
        assert!(out.contains(&text(&q.emit_querier_method_declaration(&sylvia()))));
        assert!(out.contains(&text(&q.emit_querier_impl(&sylvia(), &api))));
    }
    let items = vec![TraitItemType { ident: "Error".to_string(), colon: true, bounds: toks("From<StdError>") }];
    let at = AssociatedTypes::new(&items);
    let name = "Cw1".to_string();
    let variants = vec![
        message_of(MsgType::Sudo, "clean", vec![], ""),
        message_of(MsgType::Exec, "freeze", vec![], ""),
        message_of(MsgType::Query, "admin", vec![], "AdminResp"),
    ];
    let w: Option<WhereClause> = None;
    let out = text(&MtHelpers::new(&name, &w, &at, &variants).emit(&sylvia()));
    let (cm, app, err, mt_api) = (toks("CustomMsgT"), toks(APP), toks("Self::Error"), toks(CW1_API));
    for v in &variants {
        assert!(out.contains(&text(&v.emit_mt_method_declaration(&cm, &err, &mt_api, &sylvia()))));
        assert!(out.contains(&text(&v.emit_mt_method_definition(&cm, &app, &err, &mt_api, &sylvia()))));
    }
}

fn attr(path: &[&str], args: Option<&str>) -> Attribute {
    Attribute { path: path.iter().map(|s| s.to_string()).collect(), args: args.map(toks) }
}

const EMPTY: &str = "sylvia::cw_std::Empty";

fn std_params(mutable: bool, info: bool, msg: &str) -> String {
    format!(
        "deps: sylvia::cw_std::{}<{EMPTY}>, env: sylvia::cw_std::Env, {}{},",
        if mutable { "DepsMut" } else { "Deps" },
        if info { "info: sylvia::cw_std::MessageInfo, " } else { "" },
        msg
    )
}

#[test]
fn contract_mt_helpers_names() {
    let (eps, _) = OverrideEntryPoints::new(&vec![]);
    let mt = ContractMtHelpers::new(
        toks("crate::contract::CounterContract<T>"),
        vec![toks("T")],
        None,
        &vec![attr(&["sv", "error"], Some("ContractError"))],
        Custom::default(),
        eps,
        vec![],
        vec![],
        &sylvia(),
    );
    assert_eq!(mt.contract_name, "CounterContract");
    assert_eq!(mt.proxy_name, "CounterContractProxy");
    assert_eq!(text(&mt.error_type), "ContractError");
    assert_eq!(extract_contract_name(&toks("Contract")), "Contract");
    let (eps, _) = OverrideEntryPoints::new(&vec![]);
    let plain = ContractMtHelpers::new(toks("Contract"), vec![], None, &vec![], Custom::default(), eps, vec![], vec![], &sylvia());
    assert_eq!(text(&plain.error_type), code("sylvia::cw_std::StdError"));
}

#[test]
fn contract_impl_for_multitest() {
    let (eps, _) = OverrideEntryPoints::new(&vec![]);
    let variants = vec![
        message_of(MsgType::Exec, "increment", vec![], ""),
        message_of(MsgType::Reply, "on_reply", vec![], ""),
    ];
    let mt = ContractMtHelpers::new(toks("Contract"), vec![], None, &vec![], Custom::default(), eps, variants, vec![], &sylvia());
    let api = |kind: &str| format!("<Contract as sylvia::types::ContractApi>::{kind}");
    let response = format!("sylvia::anyhow::Result<sylvia::cw_std::Response<{EMPTY}>>");
    let expected = format!(
        "impl sylvia::cw_multi_test::Contract<{EMPTY}, {EMPTY}> for Contract {{ \
         fn execute(&self, {p_exec}) -> {response} {{ sylvia::cw_std::from_json::<{exec}>(&msg)?.dispatch(self, (deps, env, info)).map_err(Into::into) }} \
         fn instantiate(&self, {p_exec}) -> {response} {{ sylvia::cw_std::from_json::<{inst}>(&msg)?.dispatch(self, (deps, env, info)).map_err(Into::into) }} \
         fn query(&self, {p_query}) -> sylvia::anyhow::Result<sylvia::cw_std::Binary> {{ sylvia::cw_std::from_json::<{query}>(&msg)?.dispatch(self, (deps, env)).map_err(Into::into) }} \
         fn sudo(&self, {p_sudo}) -> {response} {{ sylvia::cw_std::from_json::<{sudo}>(&msg)?.dispatch(self, (deps, env)).map_err(Into::into) }} \
         fn reply(&self, {p_reply}) -> {response} {{ self.on_reply((deps, env).into(), msg).map_err(Into::into) }} \
         fn migrate(&self, {p_sudo}) -> {response} {{ sylvia::anyhow::bail!(\"migrate not implemented for contract\") }} }}",
        p_exec = std_params(true, true, "msg: Vec<u8>"),
        p_query = std_params(false, false, "msg: Vec<u8>"),
        p_sudo = std_params(true, false, "msg: Vec<u8>"),
        p_reply = std_params(true, false, "msg: sylvia::cw_std::Reply"),
        exec = api("ContractExec"),
        inst = api("Instantiate"),
        query = api("ContractQuery"),
        sudo = api("Sudo"),
    );
    assert_eq!(text(&mt.generate_impl_contract(&sylvia())), code(&expected));
}

#[test]
fn contract_impl_for_multitest_with_overrides() {
    let (eps, _) = OverrideEntryPoints::new(&vec![attr(&["sv", "override_entry_point"], Some("sudo = crate::sudo(crate::SudoMsg)"))]);
    let variants = vec![message_of(MsgType::Migrate, "migrate", vec![], "")];
    let custom = Custom { msg: Some(toks("MyMsg")), query: Some(toks("MyQuery")), input_attr: None };
    let mt = ContractMtHelpers::new(toks("Contract<T>"), vec![toks("T")], None, &vec![], custom, eps, variants, vec![], &sylvia());
    let out = text(&mt.generate_impl_contract(&sylvia()));
    assert!(out.starts_with(&code("impl<T,> sylvia::cw_multi_test::Contract<MyMsg, MyQuery> for Contract<T> { }")
        .trim_end_matches(" }")
        .to_string()));
    assert!(out.contains(&code(
        "{ crate::sudo(deps, env.into(), sylvia::cw_std::from_json::<crate::SudoMsg>(&msg)?).map_err(Into::into) }"
    )));
    assert!(out.contains(&code(
        "{ sylvia::cw_std::from_json::<<Contract<T> as sylvia::types::ContractApi>::Migrate>(&msg)?.dispatch(self, (deps, env)).map_err(Into::into) }"
    )));
    assert!(out.contains(&code("{ sylvia::anyhow::bail!(\"reply not implemented for contract\") }")));
}

fn counter_helpers(generics: Vec<Vec<Tok>>, contract: &str) -> ContractMtHelpers {
    let (eps, _) = OverrideEntryPoints::new(&vec![]);
    let variants = vec![message_of(MsgType::Instantiate, "instantiate", vec![field("count", "u32")], "")];
    let used = generics.clone();
    ContractMtHelpers::new(toks(contract), generics, None, &vec![], Custom::default(), eps, variants, used, &sylvia())
}

#[test]
fn contract_multitest_helpers() {
    let mt = counter_helpers(vec![], "Counter");
    let full = text(&mt.generate_contract_helpers(false, &sylvia()));
    let imp = text(&mt.generate_impl_contract(&sylvia()));
    assert!(full.starts_with(&imp));
    let app = format!(
        "sylvia::cw_multi_test::App<BankT, ApiT, StorageT, CustomT, sylvia::cw_multi_test::WasmKeeper<{EMPTY}, {EMPTY}>, StakingT, DistrT, IbcT, GovT,>"
    );
    let expected = format!(
        "pub struct CodeId<'app, MtApp> {{ code_id: u64, app: &'app sylvia::multitest::App<MtApp>, _phantom: std::marker::PhantomData<()>, }} \
         impl<'app, BankT, ApiT, StorageT, CustomT, StakingT, DistrT, IbcT, GovT, > CodeId<'app, {app}> \
         where BankT: sylvia::cw_multi_test::Bank, ApiT: sylvia::cw_std::Api, StorageT: sylvia::cw_std::Storage, \
         CustomT: sylvia::cw_multi_test::Module<ExecT = {EMPTY}, QueryT = {EMPTY}>, StakingT: sylvia::cw_multi_test::Staking, \
         DistrT: sylvia::cw_multi_test::Distribution, IbcT: sylvia::cw_multi_test::Ibc, GovT: sylvia::cw_multi_test::Gov, {{ \
         pub fn store_code(app: &'app sylvia::multitest::App<{app}>) -> Self {{ \
         let code_id = app.app_mut().store_code(Box::new(Counter::new())); \
         Self {{ code_id, app, _phantom: std::marker::PhantomData::default() }} }} \
         pub fn code_id(&self) -> u64 {{ self.code_id }} \
         pub fn instantiate(&self, count: u32,) -> InstantiateProxy<'_, 'app, {app}> {{ \
         let msg = InstantiateMsg {{count,}}; \
         InstantiateProxy::<_> {{ code_id: self, funds: &[], label: \"Contract\", admin: None, salt: None, msg, }} }} }} \
         pub struct InstantiateProxy<'proxy, 'app, MtApp> {{ code_id: &'proxy CodeId<'app, MtApp>, \
         funds: &'proxy [sylvia::cw_std::Coin], label: &'proxy str, admin: Option<String>, \
         salt: Option<&'proxy [u8]>, msg: InstantiateMsg, }} \
         impl<'proxy, 'app, MtApp> InstantiateProxy<'proxy, 'app, MtApp> where MtApp: Executor<{EMPTY}>, {{ \
         pub fn with_funds(self, funds: &'proxy [sylvia::cw_std::Coin]) -> Self {{ Self {{ funds, ..self }} }} \
         pub fn with_label(self, label: &'proxy str) -> Self {{ Self {{ label, ..self }} }} \
         pub fn with_admin<'s>(self, admin: impl Into<Option<&'s str>>) -> Self {{ \
         let admin = admin.into().map(str::to_owned); Self {{ admin, ..self }} }} \
         pub fn with_salt(self, salt: impl Into<Option<&'proxy [u8]>>) -> Self {{ let salt = salt.into(); Self {{ salt, ..self }} }} \
         {attr} pub fn call(self, sender: &str) -> Result<CounterProxy<'app, MtApp, >, sylvia::cw_std::StdError> {{ \
         let Self {{code_id, funds, label, admin, salt, msg}} = self; \
         match salt {{ Some(salt) => {{ let err = sylvia::cw_std::StdError::generic_err(\
         \"`with_salt` was called, but it requires `cosmwasm_1_2` feature enabled. Consider removing `with_salt` or adding the `cosmwasm_1_2` feature.\"); \
         Err(Into::into(err)) }}, \
         None => (*code_id.app).app_mut().instantiate_contract(code_id.code_id, sylvia::cw_std::Addr::unchecked(sender), \
         &msg, funds, label, admin,).map_err(|err| err.downcast().unwrap()) \
         .map(|addr| CounterProxy {{ contract_addr: addr, app: code_id.app, _phantom: std::marker::PhantomData::default(), }}), }} }} }}",
        attr = caller_attr()
    );
    assert_eq!(full[imp.len()..].trim(), code(&expected));
}

#[test]
fn contract_multitest_helpers_with_instantiate2() {
    let mt = counter_helpers(vec![toks("T")], "Counter<T>");
    let full = text(&mt.generate_contract_helpers(true, &sylvia()));
    assert!(full.contains(&code(
        "pub fn code_info(&self) -> sylvia::cw_std::StdResult<sylvia::cw_std::CodeInfoResponse> { \
         self.app.app().wrap().query_wasm_code_info(self.code_id) }"
    )));
    assert!(full.contains(&code("Box::new(Counter::<T,>::new())")));
    assert!(full.contains(&code("{ let msg = InstantiateMsg::<T,> {count,}; }")[1..].trim_end_matches('}').trim()));
    assert!(full.contains(&code(
        "{ let msg = sylvia::cw_std::to_json_binary(&msg).map_err(Into::<sylvia::cw_std::StdError>::into)?; \
         let sender = sylvia::cw_std::Addr::unchecked(sender); \
         let msg = sylvia::cw_std::WasmMsg::Instantiate2 { admin, code_id: code_id.code_id, msg, funds: funds.to_owned(), \
         label: label.to_owned(), salt: salt.into(), }; \
         let app_response = (*code_id.app).app_mut().execute(sender.clone(), msg.into()) \
         .map_err(|err| err.downcast::<sylvia::cw_std::StdError>().unwrap())?; \
         sylvia::cw_utils::parse_instantiate_response_data(app_response.data.unwrap().as_slice()) \
         .map_err(|err| Into::into(sylvia::cw_std::StdError::generic_err(err.to_string()))) \
         .map(|data| CounterProxy { contract_addr: sylvia::cw_std::Addr::unchecked(data.contract_address), \
         app: code_id.app, _phantom: std::marker::PhantomData::default(), }) }"
    )));
    assert!(full.contains(&code("msg: InstantiateMsg<T,>,")));
}

#[test]
fn contract_multitest_utils_module() {
    let mt = counter_helpers(vec![toks("T")], "Counter<T>");
    let helpers = text(&mt.generate_contract_helpers(false, &sylvia()));
    let out = text(&mt.emit(
        false,
        &toks("pub fn increment(&self) {}"),
        &vec![],
        &toks("pub fn count(&self) {}"),
        &vec![],
        &sylvia(),
    ));
    let app = "sylvia::cw_multi_test::App<BankT, ApiT, StorageT, CustomT, WasmT, StakingT, DistrT, IbcT, GovT,>";
    let bounds = format!(
        "CustomT: sylvia::cw_multi_test::Module, \
         CustomT::ExecT: std::fmt::Debug + PartialEq + Clone + sylvia::schemars::JsonSchema + sylvia::serde::de::DeserializeOwned + 'static, \
         CustomT::QueryT: sylvia::cw_std::CustomQuery + sylvia::serde::de::DeserializeOwned + 'static, \
         WasmT: sylvia::cw_multi_test::Wasm<CustomT::ExecT, CustomT::QueryT>, BankT: sylvia::cw_multi_test::Bank, \
         ApiT: sylvia::cw_std::Api, StorageT: sylvia::cw_std::Storage, StakingT: sylvia::cw_multi_test::Staking, \
         DistrT: sylvia::cw_multi_test::Distribution, IbcT: sylvia::cw_multi_test::Ibc, GovT: sylvia::cw_multi_test::Gov, \
         {app}: Executor<{EMPTY}>,"
    );
    let expected = format!(
        "pub mod multitest_utils {{ use super::*; use sylvia::cw_multi_test::Executor; use sylvia::derivative::Derivative; \
         #[derive(Derivative)] #[derivative(Debug)] pub struct CounterProxy<'app, MtApp, T,> {{ \
         pub contract_addr: sylvia::cw_std::Addr, #[derivative(Debug=\"ignore\")] pub app: &'app sylvia::multitest::App<MtApp>, \
         _phantom: std::marker::PhantomData<(T,)>, }} \
         impl<'app, BankT, ApiT, StorageT, CustomT, WasmT, StakingT, DistrT, IbcT, GovT, T,> CounterProxy<'app, {app}, T,> \
         where {bounds} {{ \
         pub fn new(contract_addr: sylvia::cw_std::Addr, app: &'app sylvia::multitest::App<{app}>) -> Self {{ \
         CounterProxy {{ contract_addr, app, _phantom: std::marker::PhantomData::default() }} }} \
         pub fn increment(&self) {{}} pub fn count(&self) {{}} }} \
         impl<'app, BankT, ApiT, StorageT, CustomT, WasmT, StakingT, DistrT, IbcT, GovT, T,> \
         From<(sylvia::cw_std::Addr, &'app sylvia::multitest::App<{app}>,)> for CounterProxy<'app, {app}, T,> \
         where {bounds} {{ \
         fn from(input: (sylvia::cw_std::Addr, &'app sylvia::multitest::App<{app}>)) -> CounterProxy<'app, {app}, T,> {{ \
         CounterProxy::new(input.0, input.1) }} }}"
    );
    let closed = code(&format!("{expected} }}"));
    let open = closed[..closed.len() - 1].trim_end();
    assert_eq!(out, format!("{open} {helpers} }}"));
}
