use std::str::FromStr;

use proc_macro2::{Delimiter, TokenStream, TokenTree};
use sylvia_derive::associated_types::TraitItemType;
use sylvia_derive::compose::{split_generics, Generic};
use sylvia_derive::contract::ContractInput;
use sylvia_derive::enum_msg::EnumMessage;
use sylvia_derive::interface::InterfaceInput;
use sylvia_derive::msg_type::MsgType;
use sylvia_derive::parser::{ContractErrorAttr, Custom};
use sylvia_derive::reply::{MsgField, MsgVariant, ReplyOn};
use sylvia_derive::struct_msg::StructMessage;
use sylvia_derive::tokens::{Delim, Tok};

fn flatten(ts: TokenStream, out: &mut Vec<Tok>) {
    for tt in ts {
        match tt {
            TokenTree::Group(g) => {
                let d = match g.delimiter() {
                    Delimiter::Parenthesis => Delim::Paren,
                    Delimiter::Bracket => Delim::Bracket,
                    Delimiter::Brace => Delim::Brace,
                    Delimiter::None => Delim::Invisible,
                };
                out.push(Tok::Open(d));
                flatten(g.stream(), out);
                out.push(Tok::Close(d));
            }
            TokenTree::Ident(i) => out.push(Tok::Ident(i.to_string())),
            TokenTree::Punct(p) => out.push(Tok::Punct(p.as_char())),
            TokenTree::Literal(l) => out.push(Tok::Lit(l.to_string())),
        }
    }
}

fn toks(s: &str) -> Vec<Tok> {
    let mut v = Vec::new();
    flatten(TokenStream::from_str(s).unwrap(), &mut v);
    v
}

fn text(v: &[Tok]) -> String {
    let mut s = String::new();
    for t in v {
        match t {
            Tok::Ident(i) => s.push_str(i),
            Tok::Lit(l) => s.push_str(l),
            Tok::Punct(c) => s.push(*c),
            Tok::Open(Delim::Paren) => s.push('('),
            Tok::Close(Delim::Paren) => s.push(')'),
            Tok::Open(Delim::Bracket) => s.push('['),
            Tok::Close(Delim::Bracket) => s.push(']'),
            Tok::Open(Delim::Brace) => s.push('{'),
            Tok::Close(Delim::Brace) => s.push('}'),
            _ => {}
        }
        s.push(' ');
    }
    s.trim_end().to_string()
}

fn code(s: &str) -> String {
    text(&toks(s))
}

fn generic(s: &str) -> Generic {
    Generic { toks: toks(s) }
}

fn field(name: &str, ty: &str) -> MsgField {
    MsgField { name: name.to_string(), ty: toks(ty), data: None, payload: false }
}

fn method(kind: MsgType, name: &str, fields: Vec<MsgField>, ret: &str) -> MsgVariant {
    MsgVariant {
        function_name: name.to_string(),
        msg_type: kind,
        reply_on: ReplyOn::Success,
        handlers: vec![],
        fields,
        return_type: toks(ret),
    }
}

#[test]
fn generics_split_by_message_types() {
    let gens = vec![generic("T"), generic("U"), generic("'a")];
    let (used, unused) = split_generics(&gens, &vec![toks("Vec<T>"), toks("Option<Vec<T>>")]);
    assert_eq!(used.iter().map(|t| text(t)).collect::<Vec<_>>(), vec!["T"]);
    assert_eq!(unused.iter().map(|t| text(t)).collect::<Vec<_>>(), vec!["U", "' a"]);
    let (used, unused) = split_generics(&gens, &vec![toks("U"), toks("T")]);
    assert_eq!(used.iter().map(|t| text(t)).collect::<Vec<_>>(), vec!["U", "T"]);
    assert_eq!(unused.iter().map(|t| text(t)).collect::<Vec<_>>(), vec!["' a"]);
}

#[test]
fn enum_message_built_from_methods() {
    let methods = vec![
        method(MsgType::Exec, "add_member", vec![field("member", "T")], ""),
        method(MsgType::Query, "count", vec![], "CountResponse"),
    ];
    let e = EnumMessage::new(
        methods,
        MsgType::Exec,
        toks("Counter<T>"),
        ContractErrorAttr { error: toks("StdError") },
        Custom::default(),
        None,
        vec![],
    );
    let out = text(&e.emit(&toks("sylvia"), &vec![generic("T")]));
    assert!(out.contains(&code(
        "pub enum ExecMsg<T,> { AddMember { member: T, }, #[serde(skip)] _Phantom(std::marker::PhantomData<(T,)>), }"
    )));
    assert!(out.contains(&code(
        "AddMember { member, } => contract.add_member(Into::into(ctx), member,).map_err(Into::into),"
    )));
    assert!(out.contains("_Phantom ( _ ) = > Err ("));
    assert!(out.contains(&code("pub fn add_member(member: T,) -> Self { Self::AddMember { member, } }")));
    assert!(!out.contains("CountResponse"));
    assert!(!out.contains("fn count"));
}

#[test]
fn enum_message_without_generics_has_no_phantom() {
    let methods = vec![method(MsgType::Query, "count", vec![], "CountResponse")];
    let e = EnumMessage::new(
        methods,
        MsgType::Query,
        toks("Counter"),
        ContractErrorAttr { error: toks("StdError") },
        Custom::default(),
        None,
        vec![],
    );
    let out = text(&e.emit(&toks("sylvia"), &vec![]));
    assert!(out.contains(&code("pub enum QueryMsg { #[returns(CountResponse)] Count { }, }")));
    assert!(out.contains(&code(
        "Count { } => sylvia::cw_std::to_json_binary(&contract.count(Into::into(ctx),)?).map_err(Into::into),"
    )));
    assert!(!out.contains("_Phantom"));
}

#[test]
fn struct_message_uses_field_generics() {
    let methods = vec![method(MsgType::Instantiate, "instantiate", vec![field("admin", "Option<A>")], "")];
    let (m, diags) = StructMessage::new(
        methods,
        MsgType::Instantiate,
        toks("Counter<A, B>"),
        None,
        ContractErrorAttr { error: toks("StdError") },
        Custom::default(),
        vec![],
    );
    assert!(diags.is_empty());
    let out = text(&m.unwrap().emit(&toks("sylvia"), &vec![generic("A"), generic("B")]));
    assert!(out.contains(&code("pub struct InstantiateMsg<A,>")));
    assert!(out.contains(&code("pub admin: Option<A>,")));
}

#[test]
fn contract_module_holds_all_generated_items() {
    let sylvia = toks("sylvia");
    let (contract, diags) = ContractInput::new(0, &vec![], &sylvia);
    assert!(diags.is_empty());
    let methods = vec![
        method(MsgType::Instantiate, "instantiate", vec![], ""),
        method(MsgType::Exec, "increment", vec![], ""),
        method(MsgType::Query, "count", vec![], "CountResponse"),
        method(MsgType::Sudo, "clean", vec![field("p", "u32")], ""),
    ];
    let out = text(&contract.process(&toks("Counter"), &vec![], &None, &vec![], &methods, true, false, &sylvia));
    assert!(out.starts_with("pub mod sv { use super : : * ;"));
    assert!(out.ends_with("}"));
    for item in [
        "pub struct InstantiateMsg",
        "pub enum ExecMsg",
        "pub enum QueryMsg",
        "pub enum SudoMsg",
        "pub enum ContractExecMsg",
        "pub enum ContractQueryMsg",
        "pub enum ContractSudoMsg",
        "pub struct CounterProxy",
        "pub fn increment",
        "pub fn count",
        "pub trait Querier",
        "pub trait Executor",
        "ContractApi for Counter",
    ] {
        assert!(out.contains(&code(item)), "missing {item}");
    }
    assert!(out.contains("# [ track_caller ] pub fn increment ( & self , )"));
    assert!(out.contains("pub fn count ( & self , )"));
    assert!(!out.contains("MigrateMsg {"));
    let without_mt = text(&contract.process(&toks("Counter"), &vec![], &None, &vec![], &methods, false, false, &sylvia));
    assert!(!without_mt.contains("CounterProxy"));
    assert!(without_mt.contains(&code("pub enum ExecMsg")));
}

#[test]
fn forwarded_attributes_reach_their_message() {
    let sylvia = toks("sylvia");
    let (contract, _) = ContractInput::new(0, &vec![], &sylvia);
    let methods = vec![
        method(MsgType::Instantiate, "instantiate", vec![], ""),
        method(MsgType::Exec, "increment", vec![], ""),
    ];
    let fwd = vec![(MsgType::Exec, toks("derive(Eq)"))];
    let out = text(&contract.process(&toks("Counter"), &vec![], &None, &fwd, &methods, false, false, &sylvia));
    assert!(out.contains(&code("#[derive(Eq)] #[serde(rename_all=\"snake_case\")] pub enum ExecMsg")));
    assert!(!out.contains(&code("#[derive(Eq)] #[serde(rename_all=\"snake_case\")] pub struct InstantiateMsg")));
}

#[test]
fn interface_module_holds_all_generated_items() {
    let sylvia = toks("sylvia");
    let (input, _) = InterfaceInput::new(0, &vec!["Error".to_string()], Custom::default());
    let items = vec![
        TraitItemType { ident: "Error".to_string(), colon: true, bounds: toks("From<StdError>") },
        TraitItemType { ident: "Extra".to_string(), colon: false, bounds: vec![] },
    ];
    let methods = vec![
        method(MsgType::Exec, "freeze", vec![], ""),
        method(MsgType::Query, "can_execute", vec![field("sender", "String")], "CanExecuteResp"),
        method(MsgType::Sudo, "clean", vec![field("x", "Self::Extra")], ""),
    ];
    let out = text(&input.process(&"Cw1".to_string(), &items, &None, &vec![], &methods, true, &sylvia));
    assert!(out.starts_with("pub mod sv { use super : : * ;"));
    for item in [
        "pub enum Cw1ExecMsg",
        "pub type ExecMsg = Cw1ExecMsg;",
        "pub enum Cw1QueryMsg",
        "pub enum Cw1SudoMsg",
        "CanExecute { sender: String, }",
        "pub trait InterfaceMessagesApi",
        "pub mod mt",
    ] {
        assert!(out.contains(&code(item)), "missing {item}");
    }
    let without_mt = text(&input.process(&"Cw1".to_string(), &items, &None, &vec![], &methods, false, &sylvia));
    assert!(!without_mt.contains(&code("pub mod mt")));
}
