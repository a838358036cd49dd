use std::str::FromStr;

use proc_macro2::{Delimiter, TokenStream, TokenTree};
use sylvia_derive::entry_points::{emit_default_dispatch, EntryPoints};
use sylvia_derive::interfaces::Interfaces;
use sylvia_derive::msg_type::MsgType;
use sylvia_derive::associated_types::{EmitAssociated, WhereClause, WherePredicate};
use sylvia_derive::parser::{
    is_generator_attribute, methods_of_kind, Attribute, ContractErrorAttr, EntryPointArgs, Method,
};
use sylvia_derive::diag::Diag;
use sylvia_derive::reply::{DataAttr, MsgField, MsgVariant, ReplyOn};
use sylvia_derive::reply_emit::Reply;
use sylvia_derive::tokens::{Delim, ParseError, Tok};

fn flatten(ts: TokenStream, out: &mut Vec<Tok>) {
    for tt in ts {
        match tt {
            TokenTree::Group(g) => {
                let d = match g.delimiter() {
                    Delimiter::Parenthesis => Delim::Paren,
                    Delimiter::Bracket => Delim::Bracket,
                    Delimiter::Brace => Delim::Brace,
                    Delimiter::None => Delim::Invisible,
                };
                out.push(Tok::Open(d));
                flatten(g.stream(), out);
                out.push(Tok::Close(d));
            }
            TokenTree::Ident(i) => out.push(Tok::Ident(i.to_string())),
            TokenTree::Punct(p) => out.push(Tok::Punct(p.as_char())),
            TokenTree::Literal(l) => out.push(Tok::Lit(l.to_string())),
        }
    }
}

fn toks(s: &str) -> Vec<Tok> {
    let mut v = Vec::new();
    flatten(TokenStream::from_str(s).unwrap(), &mut v);
    v
}

fn text(v: &[Tok]) -> String {
    let mut s = String::new();
    for t in v {
        match t {
            Tok::Ident(i) => s.push_str(i),
            Tok::Lit(l) => s.push_str(l),
            Tok::Punct(c) => s.push(*c),
            Tok::Open(Delim::Paren) => s.push('('),
            Tok::Close(Delim::Paren) => s.push(')'),
            Tok::Open(Delim::Bracket) => s.push('['),
            Tok::Close(Delim::Bracket) => s.push(']'),
            Tok::Open(Delim::Brace) => s.push('{'),
            Tok::Close(Delim::Brace) => s.push('}'),
            _ => {}
        }
        s.push(' ');
    }
    s.trim_end().to_string()
}

/// Source text with its tokens separated by single spaces; unlike `toks`,
/// it accepts unbalanced delimiters, so it can spell a prefix of some code.
fn spaced(s: &str) -> String {
    let cs: Vec<char> = s.chars().collect();
    let mut out: Vec<String> = Vec::new();
    let mut i = 0;
    while i < cs.len() {
        let c = cs[i];
        if c.is_whitespace() {
            i += 1;
        } else if c.is_alphanumeric() || c == '_' {
            let start = i;
            while i < cs.len() && (cs[i].is_alphanumeric() || cs[i] == '_') {
                i += 1;
            }
            out.push(cs[start..i].iter().collect());
        } else if c == '"' {
            let start = i;
            i += 1;
            while cs[i] != '"' {
                if cs[i] == '\\' {
                    i += 1;
                }
                i += 1;
            }
            i += 1;
            out.push(cs[start..i].iter().collect());
        } else {
            out.push(c.to_string());
            i += 1;
        }
    }
    out.join(" ")
}

fn attr(path: &[&str], args: Option<&str>) -> Attribute {
    Attribute { path: path.iter().map(|s| s.to_string()).collect(), args: args.map(toks) }
}

fn method(name: &str, msg: Option<&str>) -> Method {
    Method {
        name: name.to_string(),
        attrs: msg.map(|m| vec![attr(&["msg"], Some(m))]).unwrap_or_default(),
    }
}

fn sylvia() -> Vec<Tok> {
    toks("sylvia")
}

#[test]
fn error_attr_parses_a_type() {
    let e = ContractErrorAttr::parse(&toks("crate::ContractError")).unwrap();
    assert_eq!(text(&e.error), "crate : : ContractError");
    assert_eq!(ContractErrorAttr::parse(&toks("")).err(), Some(ParseError::ExpectedType));
    assert_eq!(ContractErrorAttr::parse(&toks("A, B")).err(), Some(ParseError::UnexpectedToken));
}

#[test]
fn error_attr_defaults_to_std_error() {
    let (e, diags) = ContractErrorAttr::new(&vec![], &sylvia());
    assert_eq!(text(&e.error), "sylvia : : cw_std : : StdError");
    assert!(diags.is_empty());
    let attrs = vec![
        attr(&["sv", "error"], None),
        attr(&["sv", "error"], Some("MyError")),
        attr(&["sv", "error"], Some("Other")),
    ];
    let (e, diags) = ContractErrorAttr::new(&attrs, &sylvia());
    assert_eq!(text(&e.error), "MyError");
    assert_eq!(diags, vec![Diag::AttrParse { attr: 0, error: ParseError::ExpectedList }]);
}

#[test]
fn methods_of_a_kind() {
    let methods = vec![
        method("new", None),
        method("instantiate", Some("instantiate")),
        method("reply_a", Some("reply")),
        method("broken", Some("nonsense")),
        method("reply_b", Some("reply")),
    ];
    assert_eq!(methods_of_kind(&methods, MsgType::Reply), vec![2, 4]);
    assert_eq!(methods_of_kind(&methods, MsgType::Instantiate), vec![1]);
    assert!(methods_of_kind(&methods, MsgType::Migrate).is_empty());
}

fn entry_points(self_ty: &str, attrs: Vec<Attribute>, methods: Vec<Method>, generics: &str) -> EntryPoints {
    let args = EntryPointArgs::parse(&toks(generics)).unwrap();
    let (eps, diags) = EntryPoints::new(&toks(self_ty), &attrs, &methods, &args, &sylvia());
    assert!(diags.is_empty());
    eps
}

#[test]
fn default_execute_entry_point() {
    let eps = entry_points("Contract", vec![], vec![method("instantiate", Some("instantiate"))], "");
    assert_eq!(
        text(&eps.emit_default_entry_point(MsgType::Exec, &sylvia())),
        spaced(
            "#[sylvia::cw_std::entry_point] pub fn execute(deps: sylvia::cw_std::DepsMut<<Contract as sylvia::types::ContractApi>::CustomQuery>, \
             env: sylvia::cw_std::Env, info: sylvia::cw_std::MessageInfo, msg: <Contract as sylvia::types::ContractApi>::ContractExec) \
             -> std::result::Result<sylvia::cw_std::Response<<Contract as sylvia::types::ContractApi>::CustomMsg>, sylvia::cw_std::StdError> \
             { msg.dispatch(&Contract::new(), (deps, env, info)).map_err(Into::into) }"
        )
    );
}

#[test]
fn default_reply_entry_point_with_concrete_types() {
    let eps = entry_points(
        "Contract<T>",
        vec![attr(&["sv", "error"], Some("ContractError"))],
        vec![method("instantiate", Some("instantiate")), method("on_reply", Some("reply"))],
        "generics<u32>",
    );
    assert_eq!(eps.reply.as_deref(), Some("on_reply"));
    assert_eq!(
        text(&eps.emit_default_entry_point(MsgType::Reply, &sylvia())),
        spaced(
            "#[sylvia::cw_std::entry_point] pub fn reply(deps: sylvia::cw_std::DepsMut<<Contract<u32> as sylvia::types::ContractApi>::CustomQuery>, \
             env: sylvia::cw_std::Env, msg: sylvia::cw_std::Reply) \
             -> std::result::Result<sylvia::cw_std::Response<<Contract<u32> as sylvia::types::ContractApi>::CustomMsg>, ContractError> \
             { Contract::<u32>::new().on_reply((deps, env).into(), msg).map_err(Into::into) }"
        )
    );
}

#[test]
fn entry_points_module_skips_overridden() {
    let eps = entry_points(
        "Contract",
        vec![attr(&["sv", "override_entry_point"], Some("sudo = crate::sudo(SudoMsg)"))],
        vec![method("instantiate", Some("instantiate")), method("migrate", Some("migrate"))],
        "",
    );
    assert!(eps.has_migrate);
    assert_eq!(eps.reply, None);
    let code = text(&eps.emit(&sylvia()));
    assert!(code.starts_with("pub mod entry_points { use super : : * ;"));
    assert!(code.ends_with("}"));
    for name in ["instantiate", "execute", "query", "migrate"] {
        assert!(code.contains(&format!("pub fn {} (", name)), "{}", name);
    }
    assert!(!code.contains("pub fn sudo"));
    assert!(!code.contains("pub fn reply"));
    let expected = format!(
        "pub mod entry_points {{ use super : : * ; {} {} {} {} }}",
        text(&eps.emit_default_entry_point(MsgType::Instantiate, &sylvia())),
        text(&eps.emit_default_entry_point(MsgType::Exec, &sylvia())),
        text(&eps.emit_default_entry_point(MsgType::Query, &sylvia())),
        text(&eps.emit_default_entry_point(MsgType::Migrate, &sylvia())),
    );
    assert_eq!(code, expected);
}

#[test]
fn query_entry_point_returns_binary() {
    let eps = entry_points("Contract", vec![], vec![method("instantiate", Some("instantiate"))], "");
    assert_eq!(
        text(&eps.emit_default_entry_point(MsgType::Query, &sylvia())),
        spaced(
            "#[sylvia::cw_std::entry_point] pub fn query(deps: sylvia::cw_std::Deps<<Contract as sylvia::types::ContractApi>::CustomQuery>, \
             env: sylvia::cw_std::Env, msg: <Contract as sylvia::types::ContractApi>::ContractQuery) \
             -> std::result::Result<sylvia::cw_std::Binary, sylvia::cw_std::StdError> \
             { msg.dispatch(&Contract::new(), (deps, env)).map_err(Into::into) }"
        )
    );
}

fn interfaces(attrs: &[&str]) -> Interfaces {
    let attrs: Vec<Attribute> = attrs.iter().map(|a| attr(&["messages"], Some(a))).collect();
    Interfaces::new(&attrs).0
}

#[test]
fn glue_variants_and_schemas() {
    let i = interfaces(&["cw1 as Cw1", "generic<u32, String> as Generic"]);
    let v = i.emit_glue_message_variants(&sylvia(), &MsgType::Exec);
    assert_eq!(text(&v[0]), spaced("Cw1(<cw1::sv::Api as sylvia::types::InterfaceApi>::Exec)"));
    assert_eq!(
        text(&v[1]),
        spaced("Generic(<generic::sv::Api<u32, String> as sylvia::types::InterfaceApi>::Exec)")
    );
    let s = i.emit_response_schemas_calls(&sylvia(), &MsgType::Query);
    assert_eq!(
        text(&s[0]),
        spaced("<cw1::sv::Api as sylvia::types::InterfaceApi>::Query::response_schemas_impl()")
    );
}

#[test]
fn deserialization_attempts() {
    let i = interfaces(&["cw1 as Cw1"]);
    let d = i.emit_deserialization_attempts(&MsgType::Query);
    assert_eq!(
        text(&d[0]),
        spaced(
            "let msgs = &cw1::sv::query_messages(); \
             if msgs.into_iter().any(|msg| msg == &recv_msg_name) { \
                 match val.deserialize_into() { \
                     Ok(msg) => return Ok(Self::Cw1(msg)), \
                     Err(err) => return Err(D::Error::custom(err)).map(Self::Cw1), \
                 }; \
             }"
        )
    );
}

#[test]
fn querier_and_remote_conversions() {
    let i = interfaces(&["generic<T> as Generic"]);
    let cg = vec![toks("T")];
    let q = i.emit_querier_from_impl(&sylvia(), &cg);
    assert_eq!(
        text(&q[0]),
        spaced(
            "impl<'a, C: sylvia::cw_std::CustomQuery, T,> From<&'a BoundQuerier<'a, C, T,>> for generic::sv::BoundQuerier<'a, C, T> { \
                 fn from(querier: &'a BoundQuerier<'a, C, T,>) -> Self { \
                     Self::borrowed(querier.contract(), querier.querier()) \
                 } \
             }"
        )
    );
    let r = i.emit_remote_from_impl(&cg);
    assert_eq!(
        text(&r[0]),
        spaced(
            "impl<'a, T,> From<&'a Remote<'a, T,>> for generic::sv::Remote<'a, T> { \
                 fn from(remote: &'a Remote<'a, T,>) -> Self { \
                     generic::sv::Remote::borrowed(remote.as_ref()) \
                 } \
             }"
        )
    );
}

fn field(name: &str, t: &str) -> MsgField {
    MsgField { name: name.to_string(), ty: toks(t), data: None, payload: false }
}

fn data_field(raw: bool, opt: bool, instantiate: bool) -> MsgField {
    let mut f = field("data", "Option<Binary>");
    f.data = Some(DataAttr { raw, opt, instantiate });
    f
}

#[test]
fn raw_data_deserialization() {
    assert!(data_field(true, true, false).emit_data_deserialization(&sylvia()).is_empty());
    assert_eq!(
        text(&data_field(true, false, false).emit_data_deserialization(&sylvia())),
        spaced(
            "let data = match data { Some(data) => data, \
             None => return Err(Into::into(sylvia::cw_std::StdError::generic_err(\"Missing reply data field.\"))), };"
        )
    );
}

#[test]
fn instantiate_data_deserialization() {
    let parse = "let deserialized_data = sylvia::cw_utils::parse_instantiate_response_data(data.as_slice()) \
                 .map_err(|err| sylvia::cw_std::StdError::generic_err(format!(\"Failed deserializing protobuf data: {}\", err)))?;";
    assert_eq!(
        text(&data_field(false, true, true).emit_data_deserialization(&sylvia())),
        spaced(&format!(
            "let data = match data {{ Some(data) => {{ {} Some(deserialized_data) }}, None => None, }};",
            parse
        ))
    );
    assert_eq!(
        text(&data_field(false, false, true).emit_data_deserialization(&sylvia())),
        spaced(&format!(
            "let data = match data {{ Some(data) => {{ {} deserialized_data }}, \
             None => return Err(Into::into(sylvia::cw_std::StdError::generic_err(\"Missing reply data field.\"))), }};",
            parse
        ))
    );
}

#[test]
fn execute_data_deserialization() {
    let code = text(&field("data", "Coin").emit_data_deserialization(&sylvia()));
    assert!(code.starts_with(&spaced(
        "let data = match data { Some(data) => { let deserialized_data = sylvia::cw_utils::parse_execute_response_data(data.as_slice())"
    )));
    assert!(code.contains(&spaced(
        "let deserialized_data = match deserialized_data.data { Some(data) => sylvia::cw_std::from_json(&data)"
    )));
    assert!(code.contains(&spaced(
        "format! {\"Invalid reply data at block height: {}, transaction id: {}.\\nSerde error while deserializing {}\", \
         env.block.height, env.transaction.as_ref().map(|tx| format!(\"{}\", &tx.index)).unwrap_or_else(|| \"Missing\".to_string()), err}"
    )));
    assert!(code.ends_with(&spaced(
        "deserialized_data }, None => return Err(Into::into(sylvia::cw_std::StdError::generic_err(\"Missing reply data field.\"))), };"
    )));
}

fn handler(name: &str, on: ReplyOn, handlers: &[&str], fields: Vec<MsgField>) -> MsgVariant {
    MsgVariant {
        function_name: name.to_string(),
        msg_type: MsgType::Reply,
        reply_on: on,
        handlers: handlers.iter().map(|s| s.to_string()).collect(),
        fields,
        return_type: vec![],
    }
}

fn reply(variants: Vec<MsgVariant>) -> Reply {
    let (r, diags) = Reply::new(toks("Contract"), vec![], vec![], variants, toks("sylvia::cw_std::StdError"));
    assert!(diags.is_empty(), "{:?}", diags);
    r
}

#[test]
fn reply_id_constants_are_numbered() {
    let r = reply(vec![
        handler("on_a", ReplyOn::Success, &[], vec![field("p", "u32")]),
        handler("on_b", ReplyOn::Error, &[], vec![field("e", "String"), field("p", "u32")]),
    ]);
    assert_eq!(
        text(&r.emit_reply_ids()),
        "pub const ON_A_REPLY_ID : u64 = 0u64 ; pub const ON_B_REPLY_ID : u64 = 1u64 ;"
    );
}

#[test]
fn reply_match_arms_for_success_and_error() {
    let r = reply(vec![
        handler("on_ok", ReplyOn::Success, &["remote"], vec![field("p", "u32")]),
        handler("on_err", ReplyOn::Error, &["remote"], vec![field("error", "String"), field("p", "u32")]),
    ]);
    let d = &r.reply_data[0];
    let turbo = toks("Contract");
    assert_eq!(
        text(&d.emit_success_match_arm(&r.variants, &sylvia(), &turbo)),
        spaced(
            "sylvia::cw_std::SubMsgResult::Ok(sub_msg_resp) => { \
                 #[allow(deprecated)] let sylvia::cw_std::SubMsgResponse { events, data, msg_responses } = sub_msg_resp; \
                 let (p) = sylvia::cw_std::from_json(&payload)?; \
                 Contract::new().on_ok((deps, env, gas_used, events, msg_responses).into(), p) \
             }"
        )
    );
    assert_eq!(
        text(&d.emit_error_match_arm(&r.variants, &sylvia(), &turbo)),
        spaced(
            "sylvia::cw_std::SubMsgResult::Err(error) => { \
                 let (p) = sylvia::cw_std::from_json(&payload)?; \
                 Contract::new().on_err((deps, env, gas_used, vec![], vec![]).into(), error, p) \
             }"
        )
    );
}

#[test]
fn reply_arms_without_handlers_forward() {
    let r = reply(vec![handler("on_err", ReplyOn::Error, &[], vec![field("error", "String"), field("p", "u32")])]);
    let d = &r.reply_data[0];
    assert_eq!(
        text(&d.emit_success_match_arm(&r.variants, &sylvia(), &toks("Contract"))),
        spaced(
            "sylvia::cw_std::SubMsgResult::Ok(sub_msg_resp) => { \
                 let mut resp = sylvia::cw_std::Response::new().add_events(sub_msg_resp.events); \
                 #[allow(deprecated)] if sub_msg_resp.data.is_some() { resp = resp.set_data(sub_msg_resp.data.unwrap()); } \
                 Ok(resp) \
             }"
        )
    );
    let r = reply(vec![handler("on_ok", ReplyOn::Success, &[], vec![field("p", "u32")])]);
    let d = &r.reply_data[0];
    assert_eq!(
        text(&d.emit_error_match_arm(&r.variants, &sylvia(), &toks("Contract"))),
        spaced(
            "sylvia::cw_std::SubMsgResult::Err(error) => { \
                 Err(sylvia::cw_std::StdError::generic_err(error)).map_err(Into::into) \
             }"
        )
    );
}

#[test]
fn reply_always_handler_takes_the_result() {
    let r = reply(vec![handler("on_any", ReplyOn::Always, &[], vec![field("result", "SubMsgResult"), field("p", "u32")])]);
    let d = &r.reply_data[0];
    let turbo = toks("Contract");
    assert_eq!(
        text(&d.emit_success_match_arm(&r.variants, &sylvia(), &turbo)),
        spaced(
            "sylvia::cw_std::SubMsgResult::Ok(_) => { \
                 let (p) = sylvia::cw_std::from_json(&payload)?; \
                 Contract::new().on_any((deps, env, gas_used, vec![], vec![]).into(), result, p) \
             }"
        )
    );
    assert_eq!(
        text(&d.emit_error_match_arm(&r.variants, &sylvia(), &turbo)),
        spaced(
            "sylvia::cw_std::SubMsgResult::Err(_) => { \
                 let (p) = sylvia::cw_std::from_json(&payload)?; \
                 Contract::new().on_any((deps, env, gas_used, vec![], vec![]).into(), result, p) \
             }"
        )
    );
}

#[test]
fn submsg_methods() {
    let r = reply(vec![handler("on_ok", ReplyOn::Success, &["remote"], vec![field("p", "u32"), field("q", "String")])]);
    let d = &r.reply_data[0];
    assert_eq!(
        text(&d.emit_submsg_trait_method(&r.variants, &sylvia())),
        spaced("fn remote(self, p: u32, q: String) -> sylvia::cw_std::StdResult<sylvia::cw_std::SubMsg<CustomMsgT>>;")
    );
    assert_eq!(
        text(&d.emit_submsg_setter(&r.variants, &sylvia())),
        spaced(
            "fn remote(self, p: u32, q: String) -> sylvia::cw_std::StdResult<sylvia::cw_std::SubMsg<CustomMsgT>> { \
                 let payload = sylvia::cw_std::to_json_binary(&(p, q))?; \
                 Ok(sylvia::cw_std::SubMsg { reply_on: sylvia::cw_std::ReplyOn::Success, id: REMOTE_REPLY_ID, payload, ..self }) \
             }"
        )
    );
    assert_eq!(
        text(&d.emit_submsg_converter(&r.variants, &sylvia())),
        spaced(
            "fn remote(self, p: u32, q: String) -> sylvia::cw_std::StdResult<sylvia::cw_std::SubMsg<CustomMsgT>> { \
                 let payload = sylvia::cw_std::to_json_binary(&(p, q))?; \
                 Ok(sylvia::cw_std::SubMsg { reply_on: sylvia::cw_std::ReplyOn::Success, id: REMOTE_REPLY_ID, msg: self.into(), payload, gas_limit: None, }) \
             }"
        )
    );
}

#[test]
fn reply_dispatch() {
    let r = reply(vec![handler("on_ok", ReplyOn::Success, &[], vec![field("p", "u32")])]);
    let arm = text(&r.reply_data[0].emit_match_arms(&r.variants, &sylvia(), &toks("Contract")));
    assert!(arm.starts_with("ON_OK_REPLY_ID = > { match result {"));
    let code = text(&r.emit_dispatch(&sylvia()));
    let expected = format!(
        "{} {} , {}",
        spaced(
            "pub fn dispatch_reply<>(deps: sylvia::cw_std::DepsMut<<Contract as sylvia::types::ContractApi>::CustomQuery>, env: sylvia::cw_std::Env, \
             msg: sylvia::cw_std::Reply, contract: Contract) \
             -> std::result::Result<sylvia::cw_std::Response<<Contract as sylvia::types::ContractApi>::CustomMsg>, sylvia::cw_std::StdError> { \
             let sylvia::cw_std::Reply { id, payload, gas_used, result, } = msg; match id {"
        ),
        arm,
        spaced(
            "_ => { let err_msg = format!(\"Unknown reply id: {}.\", id); \
             Err(sylvia::cw_std::StdError::generic_err(err_msg)).map_err(Into::into) } } }"
        )
    );
    assert_eq!(code, expected);
}

#[test]
fn reply_code_and_trait() {
    let r = reply(vec![handler("on_ok", ReplyOn::Success, &[], vec![field("p", "u32")])]);
    let t = text(&r.emit_sub_msg_trait(&sylvia()));
    assert!(t.starts_with(&spaced("pub trait SubMsgMethods<CustomMsgT> { fn on_ok(self, p: u32)")));
    assert!(t.contains(&spaced("impl<CustomMsgT> SubMsgMethods<CustomMsgT> for sylvia::cw_std::SubMsg<CustomMsgT> {")));
    assert!(t.contains(&spaced("impl<CustomMsgT> SubMsgMethods<CustomMsgT> for sylvia::cw_std::WasmMsg {")));
    assert!(t.contains(&spaced("impl<CustomMsgT> SubMsgMethods<CustomMsgT> for sylvia::cw_std::CosmosMsg<CustomMsgT> {")));
    let code = text(&r.emit(&sylvia()));
    assert_eq!(
        code,
        format!("{} {} {}", text(&r.emit_reply_ids()), text(&r.emit_dispatch(&sylvia())), t)
    );
}

#[test]
fn data_attribute_options() {
    assert_eq!(DataAttr::parse(&None), Ok(DataAttr { raw: false, opt: false, instantiate: false }));
    assert_eq!(
        DataAttr::parse(&Some(toks("raw, opt"))),
        Ok(DataAttr { raw: true, opt: true, instantiate: false })
    );
    assert_eq!(
        DataAttr::parse(&Some(toks("instantiate,"))),
        Ok(DataAttr { raw: false, opt: false, instantiate: true })
    );
    assert_eq!(DataAttr::parse(&Some(toks("raw opt"))), Err(ParseError::ExpectedComma));
    assert_eq!(DataAttr::parse(&Some(toks("fast"))), Err(ParseError::InvalidDataOption));
    assert_eq!(DataAttr::parse(&Some(toks("raw, ,"))), Err(ParseError::ExpectedIdent));
}

#[test]
fn parameter_attributes() {
    let attrs = vec![
        attr(&["sv", "data"], Some("opt")),
        attr(&["sv", "data"], Some("raw")),
        attr(&["sv", "payload"], Some("cooked")),
        attr(&["serde"], Some("skip")),
    ];
    let (f, diags) = MsgField::new("data".to_string(), toks("Option<Coin>"), &attrs);
    assert_eq!(f.data, Some(DataAttr { raw: false, opt: true, instantiate: false }));
    assert!(!f.payload);
    assert_eq!(text(&f.ty), "Option < Coin >");
    assert_eq!(diags, vec![Diag::AttrParse { attr: 2, error: ParseError::InvalidPayloadOption }]);
    let (f, diags) = MsgField::new("p".to_string(), toks("Binary"), &vec![attr(&["sv", "payload"], Some("raw"))]);
    assert!(f.payload);
    assert_eq!(f.data, None);
    assert!(diags.is_empty());
}

#[test]
fn generator_attributes() {
    assert!(is_generator_attribute(&attr(&["sv", "msg"], Some("exec"))));
    assert!(is_generator_attribute(&attr(&["msg"], Some("exec"))));
    assert!(is_generator_attribute(&attr(&["messages"], Some("cw1 as Cw1"))));
    assert!(!is_generator_attribute(&attr(&["serde"], Some("skip"))));
    assert!(!is_generator_attribute(&attr(&["doc"], None)));
}

#[test]
fn reply_method_handles_success() {
    let v = MsgVariant::reply_method("on_done".to_string(), vec![field("p", "u32")]);
    assert_eq!(v.function_name, "on_done");
    assert_eq!(v.reply_on, ReplyOn::Success);
    assert!(v.handlers.is_empty());
    assert_eq!(v.fields.len(), 1);
}

#[test]
fn where_clause_associated_types() {
    let w = WhereClause {
        predicates: vec![
            WherePredicate::Type { lifetimes: None, bounded_ty: toks("T"), bounds: toks("Clone + Debug") },
            WherePredicate::Lifetime(toks("'a: 'b")),
            WherePredicate::Type { lifetimes: Some(toks("'a")), bounded_ty: toks("U"), bounds: toks("Copy") },
        ],
        trailing_comma: false,
    };
    let d: Vec<String> = w.emit_declaration().iter().map(|t| text(t)).collect();
    assert_eq!(d, vec![spaced("type T: Clone + Debug;"), spaced("type U<'a>: Copy;")]);
    let i: Vec<String> = w.emit_implementation().iter().map(|t| text(t)).collect();
    assert_eq!(i, vec![spaced("type T = T;"), spaced("type U<'a> = U;")]);
}

#[test]
fn multitest_default_dispatch() {
    assert_eq!(
        text(&emit_default_dispatch(MsgType::Exec, &toks("Contract<u32>"), &sylvia())),
        spaced(
            "sylvia::cw_std::from_json::<<Contract<u32> as sylvia::types::ContractApi>::ContractExec>(&msg)? \
             .dispatch(self, (deps, env, info)).map_err(Into::into)"
        )
    );
    assert_eq!(
        text(&emit_default_dispatch(MsgType::Migrate, &toks("Contract"), &sylvia())),
        spaced(
            "sylvia::cw_std::from_json::<<Contract as sylvia::types::ContractApi>::Migrate>(&msg)? \
             .dispatch(self, (deps, env)).map_err(Into::into)"
        )
    );
}
