use std::str::FromStr;

use proc_macro2::{Delimiter, TokenStream, TokenTree};
use sylvia_derive::associated_types::{ImplItemType, TraitItemType};
use sylvia_derive::interface_enum_msg::EnumMessage as InterfaceEnumMessage;
use sylvia_derive::glue::{strip_generics_exec, GlueMessage};
use sylvia_derive::impl_mt::ImplMtHelpers;
use sylvia_derive::interfaces::Interfaces;
use sylvia_derive::msg_type::MsgType;
use sylvia_derive::parser::{ContractErrorAttr, ContractMessageAttr, Custom, Customs};
use sylvia_derive::reply::{MsgField, MsgVariant, ReplyOn};
use sylvia_derive::struct_msg::StructMessage;
use sylvia_derive::diag::Diag;
use sylvia_derive::enum_msg::{chars_le_exec, sort_names, EnumMessage};
use sylvia_derive::tokens::{Delim, Tok};

fn flatten(ts: TokenStream, out: &mut Vec<Tok>) {
    for tt in ts {
        match tt {
            TokenTree::Group(g) => {
                let d = match g.delimiter() {
                    Delimiter::Parenthesis => Delim::Paren,
                    Delimiter::Bracket => Delim::Bracket,
                    Delimiter::Brace => Delim::Brace,
                    Delimiter::None => Delim::Invisible,
                };
                out.push(Tok::Open(d));
                flatten(g.stream(), out);
                out.push(Tok::Close(d));
            }
            TokenTree::Ident(i) => out.push(Tok::Ident(i.to_string())),
            TokenTree::Punct(p) => out.push(Tok::Punct(p.as_char())),
            TokenTree::Literal(l) => out.push(Tok::Lit(l.to_string())),
        }
    }
}

fn toks(s: &str) -> Vec<Tok> {
    let mut v = Vec::new();
    flatten(TokenStream::from_str(s).unwrap(), &mut v);
    v
}

fn text(v: &[Tok]) -> String {
    let mut s = String::new();
    for t in v {
        match t {
            Tok::Ident(i) => s.push_str(i),
            Tok::Lit(l) => s.push_str(l),
            Tok::Punct(c) => s.push(*c),
            Tok::Open(Delim::Paren) => s.push('('),
            Tok::Close(Delim::Paren) => s.push(')'),
            Tok::Open(Delim::Bracket) => s.push('['),
            Tok::Close(Delim::Bracket) => s.push(']'),
            Tok::Open(Delim::Brace) => s.push('{'),
            Tok::Close(Delim::Brace) => s.push('}'),
            _ => {}
        }
        s.push(' ');
    }
    s.trim_end().to_string()
}

fn code(s: &str) -> String {
    text(&toks(s))
}

fn interface(module: &str, variant: &str, has_msg: bool) -> ContractMessageAttr {
    ContractMessageAttr {
        module: toks(module),
        variant: variant.to_string(),
        customs: Customs { has_msg, has_query: false },
        generics: vec![],
    }
}

fn glue(kind: MsgType, interfaces: Vec<ContractMessageAttr>) -> GlueMessage {
    GlueMessage::new(
        vec![toks("T")],
        None,
        toks("Counter<T>"),
        kind,
        ContractErrorAttr { error: toks("StdError") },
        Custom::default(),
        Interfaces { interfaces },
    )
}

fn deserialize_impl(wrapper: &str, attempts: &str, own_fn: &str, calls: &str, count: &str) -> String {
    format!(
        "impl<'sv_de, T,> serde::Deserialize<'sv_de> for {wrapper}<T,> {{ \
         fn deserialize<D>(deserializer: D) -> Result<Self, D::Error> where D: serde::Deserializer<'sv_de>, {{ \
         use serde::de::Error; \
         let val = sylvia::serde_value::Value::deserialize(deserializer)?; \
         let map = match &val {{ sylvia::serde_value::Value::Map(map) => map, _ => return Err(D::Error::custom(\"Wrong message format!\")) }}; \
         if map.len() != 1 {{ return Err(D::Error::custom(format!(\"Expected exactly one message. Received {{}}\", map.len()))) }} \
         let recv_msg_name = map.into_iter().next().unwrap(); \
         if let sylvia::serde_value::Value::String(recv_msg_name) = &recv_msg_name .0 {{ {attempts} \
         let msgs = &{own_fn}(); \
         if msgs.into_iter().any(|msg| msg == &recv_msg_name) {{ \
         match val.deserialize_into() {{ Ok(msg) => return Ok(Self::Counter(msg)), Err(err) => return Err(D::Error::custom(err)).map(Self::Counter) }}; }} }} \
         let msgs: [&[&str]; {count}] = [{calls}]; \
         let mut err_msg = msgs.into_iter().flatten().fold(\
         format!(\"Unsupported message received: {{}}. Messages supported by this contract: \", \
         sylvia::serde_json::to_string(&val).unwrap_or_else(|_| String::new())), \
         |mut acc, message| acc + message + \", \",); \
         err_msg.truncate(err_msg.len() - 2); Err(D::Error::custom(err_msg)) }} }}"
    )
}

fn schema_impl(wrapper: &str, subschemas: &str, accessor: &str) -> String {
    format!(
        "impl<T,> sylvia::schemars::JsonSchema for {wrapper}<T,> {{ \
         fn schema_name() -> std::string::String {{ {{ let res = format!(\"{{0}}\", std::any::type_name::<Self>()); res }} }} \
         fn json_schema(gen: &mut sylvia::schemars::gen::SchemaGenerator,) -> sylvia::schemars::schema::Schema {{ \
         sylvia::schemars::schema::Schema::Object(sylvia::schemars::schema::SchemaObject {{ \
         subschemas: Some(Box::new(sylvia::schemars::schema::SubschemaValidation {{ \
         any_of: Some(<[_]>::into_vec(Box::new([{subschemas} \
         gen.subschema_for::< <Counter<T> as sylvia::types::ContractApi>::{accessor} >(),]),),), \
         ..Default::default() }}),), ..Default::default() }}) }} }}"
    )
}

#[test]
fn contract_type_without_generic_arguments() {
    assert_eq!(text(&strip_generics_exec(&toks("Counter<T, Vec<u8>>"))), "Counter");
    assert_eq!(text(&strip_generics_exec(&toks("crate::Counter"))), "crate : : Counter");
}

#[test]
fn execute_wrapper_of_contract_with_interface() {
    let g = glue(MsgType::Exec, vec![interface("cw1", "Cw1", true)]);
    let out = g.emit(&toks("sylvia"), &vec![toks("cw1::sv::Cw1ExecMsg")]);
    let expected = [
        "#[allow(clippy::derive_partial_eq_without_eq)] \
         #[derive(sylvia::serde::Serialize, Clone, Debug, PartialEq)] \
         #[serde(rename_all=\"snake_case\", untagged)] \
         pub enum ContractExecMsg<T,> { \
         Cw1(<cw1::sv::Api as sylvia::types::InterfaceApi>::Exec), \
         Counter(<Counter<T> as sylvia::types::ContractApi>::Exec) }"
            .to_string(),
        schema_impl("ContractExecMsg", "gen.subschema_for::<cw1::sv::Cw1ExecMsg>(),", "Exec"),
        "impl<T,> ContractExecMsg<T,> { \
         pub fn dispatch(self, contract: &Counter<T>, \
         ctx: (sylvia::cw_std::DepsMut<sylvia::cw_std::Empty>, sylvia::cw_std::Env, sylvia::cw_std::MessageInfo),) \
         -> std::result::Result<sylvia::cw_std::Response<sylvia::cw_std::Empty>, StdError> { \
         const _: () = { let msgs: [&[&str]; 2usize] = [&cw1::sv::execute_messages(), &execute_messages()]; \
         sylvia::utils::assert_no_intersection(msgs); }; \
         match self { \
         ContractExecMsg::Cw1(msg) => sylvia::into_response::IntoResponse::into_response(\
         msg.dispatch(contract, Into::into(ctx))?), \
         ContractExecMsg::Counter(msg) => msg.dispatch(contract, ctx) } } }"
            .to_string(),
        deserialize_impl(
            "ContractExecMsg",
            "let msgs = &cw1::sv::execute_messages(); \
             if msgs.into_iter().any(|msg| msg == &recv_msg_name) { \
             match val.deserialize_into() { Ok(msg) => return Ok(Self::Cw1(msg)), \
             Err(err) => return Err(D::Error::custom(err)).map(Self::Cw1), }; }",
            "execute_messages",
            "&cw1::sv::execute_messages(), &execute_messages()",
            "2usize",
        ),
        "impl<T,> From<<Counter<T> as sylvia::types::ContractApi>::Exec> for ContractExecMsg<T,> { \
         fn from(a: <Counter<T> as sylvia::types::ContractApi>::Exec) -> Self { Self::Counter(a) } }"
            .to_string(),
        "impl<T,> From<<Counter<T> as cw1::sv::InterfaceMessagesApi>::Exec> for ContractExecMsg<T,> { \
         fn from(a: <Counter<T> as cw1::sv::InterfaceMessagesApi>::Exec) -> Self { Self::Cw1(a) } }"
            .to_string(),
    ]
    .join(" ");
    assert_eq!(text(&out), code(&expected));
}

#[test]
fn query_wrapper_lists_response_schemas() {
    let g = glue(MsgType::Query, vec![]);
    let out = g.emit(&toks("sylvia"), &vec![]);
    let expected = [
        "#[allow(clippy::derive_partial_eq_without_eq)] \
         #[derive(sylvia::serde::Serialize, Clone, Debug, PartialEq)] \
         #[serde(rename_all=\"snake_case\", untagged)] \
         pub enum ContractQueryMsg<T,> { Counter(<Counter<T> as sylvia::types::ContractApi>::Query) }"
            .to_string(),
        schema_impl("ContractQueryMsg", "", "Query"),
        "impl<T,> ContractQueryMsg<T,> { \
         pub fn dispatch(self, contract: &Counter<T>, \
         ctx: (sylvia::cw_std::Deps<sylvia::cw_std::Empty>, sylvia::cw_std::Env),) \
         -> std::result::Result<sylvia::cw_std::Binary, StdError> { \
         const _: () = { let msgs: [&[&str]; 1usize] = [&query_messages()]; \
         sylvia::utils::assert_no_intersection(msgs); }; \
         match self { ContractQueryMsg::Counter(msg) => msg.dispatch(contract, ctx) } } }"
            .to_string(),
        "#[cfg(not(target_arch = \"wasm32\"))] \
         impl<T,> sylvia::cw_schema::QueryResponses for ContractQueryMsg<T,> { \
         fn response_schemas_impl() -> std::collections::BTreeMap<String, sylvia::schemars::schema::RootSchema> { \
         let responses = [<Counter<T> as sylvia::types::ContractApi>::Query::response_schemas_impl()]; \
         responses.into_iter().flatten().collect() } }"
            .to_string(),
        deserialize_impl("ContractQueryMsg", "", "query_messages", "&query_messages()", "1usize"),
        "impl<T,> From<<Counter<T> as sylvia::types::ContractApi>::Query> for ContractQueryMsg<T,> { \
         fn from(a: <Counter<T> as sylvia::types::ContractApi>::Query) -> Self { Self::Counter(a) } }"
            .to_string(),
    ]
    .join(" ");
    assert_eq!(text(&out), code(&expected));
}

#[test]
fn query_dispatch_of_interface_keeps_response() {
    let g = glue(MsgType::Query, vec![interface("cw1", "Cw1", true), interface("cw4", "Cw4", false)]);
    let out = text(&g.emit(&toks("sylvia"), &vec![]));
    assert!(out.contains(&code("ContractQueryMsg::Cw1(msg) => msg.dispatch(contract, Into::into(ctx)),")));
    assert!(out.contains(&code("ContractQueryMsg::Cw4(msg) => msg.dispatch(contract, Into::into(ctx)),")));
    assert!(out.contains(&code("let msgs: [&[&str]; 3usize]")));
    assert!(out.contains(&code(
        "let responses = [<cw1::sv::Api as sylvia::types::InterfaceApi>::Query::response_schemas_impl(), \
         <cw4::sv::Api as sylvia::types::InterfaceApi>::Query::response_schemas_impl(), \
         <Counter<T> as sylvia::types::ContractApi>::Query::response_schemas_impl()];"
    )));
    assert!(out.contains(&code("fn from(a: <Counter<T> as cw4::sv::InterfaceMessagesApi>::Query) -> Self { Self::Cw4(a) }")));
}

fn field(name: &str, t: &str) -> MsgField {
    MsgField { name: name.to_string(), ty: toks(t), data: None, payload: false }
}

fn method(kind: MsgType, name: &str, fields: Vec<MsgField>) -> MsgVariant {
    MsgVariant {
        function_name: name.to_string(),
        msg_type: kind,
        reply_on: ReplyOn::Success,
        handlers: vec![],
        fields,
        return_type: vec![],
    }
}

fn struct_message(variants: Vec<MsgVariant>, kind: MsgType) -> (Option<StructMessage>, Vec<Diag>) {
    StructMessage::new(
        variants,
        kind,
        toks("Counter<T>"),
        None,
        ContractErrorAttr { error: toks("StdError") },
        Custom::default(),
        vec![toks("doc = \"Counter\"")],
    )
}

#[test]
fn instantiate_struct_message() {
    let variants = vec![
        method(MsgType::Exec, "increment", vec![]),
        method(MsgType::Instantiate, "instantiate", vec![field("start", "T"), field("admin", "String")]),
    ];
    let (msg, diags) = struct_message(variants, MsgType::Instantiate);
    assert!(diags.is_empty());
    let msg = msg.unwrap();
    let out = msg.emit_parts(&toks("sylvia"), &vec![toks("T")], &vec![], &None);
    let expected = "#[allow(clippy::derive_partial_eq_without_eq)] \
        #[derive(sylvia::serde::Serialize, sylvia::serde::Deserialize, Clone, Debug, PartialEq, sylvia::schemars::JsonSchema)] \
        #[doc = \"Counter\"] \
        #[serde(rename_all=\"snake_case\")] \
        pub struct InstantiateMsg<T,> { pub start: T, pub admin: String, } \
        impl<T,> InstantiateMsg<T,> { \
        pub fn new(start: T, admin: String,) -> Self { Self { start, admin, } } \
        pub fn dispatch(self, contract: &Counter<T>, \
        ctx: (sylvia::cw_std::DepsMut<sylvia::cw_std::Empty>, sylvia::cw_std::Env, sylvia::cw_std::MessageInfo)) \
        -> std::result::Result<sylvia::cw_std::Response<sylvia::cw_std::Empty>, StdError> { \
        let Self { start, admin, } = self; \
        contract.instantiate(Into::into(ctx), start, admin,).map_err(Into::into) } }";
    assert_eq!(text(&out), code(expected));
}

#[test]
fn migrate_struct_message_with_unused_generics() {
    let variants = vec![method(MsgType::Migrate, "migrate", vec![])];
    let (msg, diags) = struct_message(variants, MsgType::Migrate);
    assert!(diags.is_empty());
    let out = msg.unwrap().emit_parts(&toks("sylvia"), &vec![], &vec![toks("T")], &None);
    let out = text(&out);
    assert!(out.starts_with(&code("#[allow(clippy::derive_partial_eq_without_eq)]")));
    assert!(out.contains(&code("pub struct MigrateMsg { }")));
    assert!(out.contains(&code("pub fn new() -> Self { Self { } }")));
    assert!(out.contains(&code(
        "pub fn dispatch<T,>(self, contract: &Counter<T>, \
         ctx: (sylvia::cw_std::DepsMut<sylvia::cw_std::Empty>, sylvia::cw_std::Env)) \
         -> std::result::Result<sylvia::cw_std::Response<sylvia::cw_std::Empty>, StdError> \
         { let Self { } = self; contract.migrate(Into::into(ctx),).map_err(Into::into) }"
    )));
    assert!(out.ends_with("} }"));
}

#[test]
fn missing_instantiation_message() {
    let (msg, diags) = struct_message(vec![method(MsgType::Exec, "increment", vec![])], MsgType::Instantiate);
    assert!(msg.is_none());
    assert!(matches!(diags.as_slice(), [Diag::MissingContractInstantiation]));
}

#[test]
fn no_migration_message_gives_nothing() {
    let (msg, diags) = struct_message(vec![method(MsgType::Exec, "increment", vec![])], MsgType::Migrate);
    assert!(diags.is_empty());
    let msg = msg.unwrap();
    assert!(msg.variant.is_none());
    assert!(msg.emit_parts(&toks("sylvia"), &vec![], &vec![], &None).is_empty());
}

#[test]
fn second_instantiation_message() {
    let variants = vec![
        method(MsgType::Instantiate, "instantiate", vec![]),
        method(MsgType::Exec, "increment", vec![]),
        method(MsgType::Instantiate, "init", vec![]),
    ];
    let (msg, diags) = struct_message(variants, MsgType::Instantiate);
    assert!(msg.is_none());
    assert!(matches!(diags.as_slice(), [Diag::MultipleMessages { method: 2, first: 0 }]));
}

fn impl_helpers(interfaces: Vec<ContractMessageAttr>) -> ImplMtHelpers {
    let items = vec![
        ImplItemType { ident: "Error".to_string(), ty: toks("StdError") },
        ImplItemType { ident: "Amount".to_string(), ty: toks("Uint128") },
    ];
    ImplMtHelpers::new(
        items,
        &toks("cw1::Cw1"),
        &toks("Counter<T>"),
        vec![toks("T")],
        None,
        Interfaces { interfaces },
        toks("crate::contract"),
    )
}

#[test]
fn interface_impl_helpers_names() {
    let h = impl_helpers(vec![]);
    assert_eq!(text(&h.error_type), "StdError");
    assert_eq!(h.trait_name, "Cw1");
    assert_eq!(h.contract_name, "Counter");
}

#[test]
fn interface_impl_api_of_single_interface() {
    let h = impl_helpers(vec![interface("cw1", "Cw1", false)]);
    let (api, diags) = h.emit_interface_api(&toks("sylvia"));
    assert!(diags.is_empty());
    assert_eq!(text(&api), code("<cw1::sv::Api<Uint128,> as sylvia::types::InterfaceApi>"));
    let h = impl_helpers(vec![]);
    let (api, _) = h.emit_interface_api(&toks("sylvia"));
    assert_eq!(text(&api), code("<sv::Api<Uint128,> as sylvia::types::InterfaceApi>"));
}

#[test]
fn interface_impl_test_utils() {
    let h = impl_helpers(vec![interface("cw1", "Cw1", false)]);
    let out = h.emit(
        &toks("sylvia"),
        &toks("fn can_execute(&self);"),
        &toks("fn freeze(&self);"),
        &vec![],
        &toks("fn can_execute(&self) {}"),
        &toks("fn freeze(&self) {}"),
        &vec![],
    );
    let app = "sylvia::cw_multi_test::App<BankT, ApiT, StorageT, CustomT, WasmT, StakingT, DistrT, IbcT, GovT,>";
    let expected = format!(
        "pub mod test_utils {{ use super::*; \
         pub trait Cw1<MtApp, MultitestExecCustomType, T,> {{ fn can_execute(&self); fn freeze(&self); }} \
         impl<BankT, ApiT, StorageT, CustomT, WasmT, StakingT, DistrT, IbcT, GovT, MultitestExecCustomType, T,> \
         Cw1<{app}, MultitestExecCustomType, T,> for crate::contract::sv::multitest_utils::CounterProxy<'_, {app}, T,> \
         where MultitestExecCustomType: Clone + std::fmt::Debug + std::cmp::PartialEq + cosmwasm_schema::schemars::JsonSchema + 'static, \
         CustomT: sylvia::cw_multi_test::Module, WasmT: sylvia::cw_multi_test::Wasm<CustomT::ExecT, CustomT::QueryT>, \
         BankT: sylvia::cw_multi_test::Bank, ApiT: sylvia::cw_std::Api, StorageT: sylvia::cw_std::Storage, \
         CustomT: sylvia::cw_multi_test::Module, StakingT: sylvia::cw_multi_test::Staking, \
         DistrT: sylvia::cw_multi_test::Distribution, IbcT: sylvia::cw_multi_test::Ibc, GovT: sylvia::cw_multi_test::Gov, \
         CustomT::ExecT: Clone + std::fmt::Debug + PartialEq + sylvia::schemars::JsonSchema + sylvia::serde::de::DeserializeOwned + 'static, \
         CustomT::QueryT: sylvia::cw_std::CustomQuery + sylvia::serde::de::DeserializeOwned + 'static, \
         {app}: sylvia::cw_multi_test::Executor<MultitestExecCustomType>, \
         {{ fn can_execute(&self) {{}} fn freeze(&self) {{}} }} }}"
    );
    assert_eq!(text(&out), code(&expected));
}

#[test]
fn names_sorted_as_strings() {
    let names = vec!["increment".to_string(), "add_member".to_string(), "add".to_string(), "Zeta".to_string()];
    assert_eq!(sort_names(&names), vec!["Zeta", "add", "add_member", "increment"]);
    assert!(chars_le_exec(&"add".to_string(), &"add_member".to_string()));
    assert!(!chars_le_exec(&"b".to_string(), &"add".to_string()));
}

#[test]
fn execute_enum_message() {
    let methods = vec![
        method(MsgType::Exec, "increment", vec![]),
        method(MsgType::Query, "count", vec![]),
        method(MsgType::Exec, "add_member", vec![field("member", "String")]),
    ];
    let e = EnumMessage::new(
        methods,
        MsgType::Exec,
        toks("Counter<T>"),
        ContractErrorAttr { error: toks("StdError") },
        Custom::default(),
        None,
        vec![],
    );
    let out = e.emit_parts(
        &toks("sylvia"),
        &"ExecMsg".to_string(),
        &vec![],
        &vec![toks("T")],
        &vec![toks("Increment {}"), toks("AddMember { member: String }")],
        &vec![
            toks("Increment {} => contract.increment(Into::into(ctx)).map_err(Into::into)"),
            toks("AddMember { member } => contract.add_member(Into::into(ctx), member).map_err(Into::into)"),
        ],
        &toks("pub fn increment() -> Self { Self::Increment {} }"),
        &vec![],
    );
    let expected = "#[allow(clippy::derive_partial_eq_without_eq)] \
        #[derive(sylvia::serde::Serialize, sylvia::serde::Deserialize, Clone, Debug, PartialEq, sylvia::schemars::JsonSchema, )] \
        #[serde(rename_all=\"snake_case\")] \
        pub enum ExecMsg { Increment {}, AddMember { member: String }, } \
        impl ExecMsg { \
        pub fn dispatch<T,>(self, contract: &Counter<T>, \
        ctx: (sylvia::cw_std::DepsMut<sylvia::cw_std::Empty>, sylvia::cw_std::Env, sylvia::cw_std::MessageInfo)) \
        -> std::result::Result<sylvia::cw_std::Response<sylvia::cw_std::Empty>, StdError> { \
        use ExecMsg::*; \
        match self { \
        Increment {} => contract.increment(Into::into(ctx)).map_err(Into::into), \
        AddMember { member } => contract.add_member(Into::into(ctx), member).map_err(Into::into), } } \
        pub fn increment() -> Self { Self::Increment {} } } \
        pub const fn execute_messages() -> [&'static str; 2usize] { [\"add_member\", \"increment\",] }";
    assert_eq!(text(&out), code(expected));
}

#[test]
fn generic_query_enum_message_rejects_phantom() {
    let e = EnumMessage::new(
        vec![method(MsgType::Query, "count", vec![])],
        MsgType::Query,
        toks("Counter<T>"),
        ContractErrorAttr { error: toks("StdError") },
        Custom::default(),
        None,
        vec![toks("doc = \"Queries\"")],
    );
    let out = text(&e.emit_parts(
        &toks("sylvia"),
        &"QueryMsg".to_string(),
        &vec![toks("T")],
        &vec![],
        &vec![toks("Count {}")],
        &vec![toks("Count {} => Ok(())")],
        &vec![],
        &toks("_Phantom(std::marker::PhantomData<(T,)>),"),
    ));
    assert!(out.contains(&code(
        "#[derive(sylvia::serde::Serialize, sylvia::serde::Deserialize, Clone, Debug, PartialEq, \
         sylvia::schemars::JsonSchema, sylvia::cw_schema::QueryResponses)] #[doc = \"Queries\"]"
    )));
    assert!(out.contains(&code("pub enum QueryMsg<T,> { Count {}, _Phantom(std::marker::PhantomData<(T,)>), }")));
    assert!(out.contains(&code(
        "match self { Count {} => Ok(()), \
         _Phantom(_) => Err(sylvia::cw_std::StdError::generic_err(\"Phantom message should not be constructed.\")).map_err(Into::into), }"
    )));
    assert!(out.ends_with(&code("pub const fn query_messages() -> [&'static str; 1usize] { [\"count\",] }")));
}

#[test]
fn interface_query_enum_message() {
    let methods = vec![
        method(MsgType::Query, "can_execute", vec![field("sender", "String")]),
        method(MsgType::Exec, "freeze", vec![]),
    ];
    let associated = vec![
        TraitItemType { ident: "Error".to_string(), colon: true, bounds: toks("From<StdError>") },
        TraitItemType { ident: "Extra".to_string(), colon: false, bounds: vec![] },
    ];
    let e = InterfaceEnumMessage::new(
        "Cw1".to_string(),
        MsgType::Query,
        &Custom::default(),
        None,
        Some(toks("MyQuery")),
        methods,
        associated,
        vec![],
        &toks("sylvia"),
    );
    assert_eq!(text(&e.resp_type), "sylvia : : cw_std : : Empty");
    assert_eq!(text(&e.query_type), "MyQuery");
    let out = e.emit(
        &toks("sylvia"),
        &"QueryMsg".to_string(),
        &vec![],
        &vec![],
        &None,
        &vec![toks("Extra: Clone")],
        &toks("#[derive(Clone)]"),
        &vec![toks("CanExecute { sender: String }")],
        &vec![toks("CanExecute { sender } => contract.can_execute(ctx, sender)")],
        &vec![],
        &vec![],
        &vec![],
    );
    let expected = "#[allow(clippy::derive_partial_eq_without_eq)] #[derive(Clone)] #[serde(rename_all=\"snake_case\")] \
        pub enum Cw1QueryMsg { CanExecute { sender: String }, } pub type QueryMsg = Cw1QueryMsg; \
        impl Cw1QueryMsg { pub fn dispatch<ContractT,>(self, contract: &ContractT, \
        ctx: (sylvia::cw_std::Deps<MyQuery>, sylvia::cw_std::Env)) \
        -> std::result::Result<sylvia::cw_std::Binary, ContractT::Error> \
        where Extra: Clone, ContractT: Cw1<Extra = Extra,> { \
        use Cw1QueryMsg::*; match self { CanExecute { sender } => contract.can_execute(ctx, sender), } } } \
        pub const fn query_messages() -> [&'static str; 1usize] { [\"can_execute\",] }";
    assert_eq!(text(&out), code(expected));
}

#[test]
fn interface_custom_types_come_first() {
    let custom = Custom { msg: Some(toks("MyMsg")), query: None, input_attr: None };
    let e = InterfaceEnumMessage::new(
        "Cw1".to_string(),
        MsgType::Exec,
        &custom,
        Some(toks("AssocExec")),
        None,
        vec![],
        vec![],
        vec![],
        &toks("sylvia"),
    );
    assert_eq!(text(&e.resp_type), "MyMsg");
    assert_eq!(text(&e.query_type), "sylvia : : cw_std : : Empty");
}

#[test]
fn interface_impl_test_utils_from_messages() {
    let h = impl_helpers(vec![interface("cw1", "Cw1", false)]);
    let methods = vec![
        method(MsgType::Exec, "freeze", vec![]),
        method(MsgType::Instantiate, "instantiate", vec![]),
    ];
    let (out, diags) = h.emit_for_variants(&toks("sylvia"), &methods);
    assert!(diags.is_empty());
    let out = text(&out);
    assert!(out.starts_with("pub mod test_utils {"));
    assert!(out.contains("fn freeze ( & self , )"));
    assert!(out.contains(&code("<cw1::sv::Api<Uint128,> as sylvia::types::InterfaceApi>::Exec")));
    assert!(!out.contains("instantiate"));
}
