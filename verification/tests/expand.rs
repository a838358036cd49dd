use std::str::FromStr;

use proc_macro2::{Delimiter, TokenStream, TokenTree};
use sylvia_derive::associated_types::TraitItemType;
use sylvia_derive::compose::Generic;
use sylvia_derive::diag::Diag;
use sylvia_derive::expand::{
    contract_expand, entry_points_expand, interface_expand, response_exec, FnModel, ImplModel, ParamModel, TraitModel,
};
use sylvia_derive::mod_folder::{module_source, ModuleSource};
use sylvia_derive::parser::{Attribute, Method};
use sylvia_derive::tokens::{Delim, ParseError, Tok};

fn flatten(ts: TokenStream, out: &mut Vec<Tok>) {
    for tt in ts {
        match tt {
            TokenTree::Group(g) => {
                let d = match g.delimiter() {
                    Delimiter::Parenthesis => Delim::Paren,
                    Delimiter::Bracket => Delim::Bracket,
                    Delimiter::Brace => Delim::Brace,
                    Delimiter::None => Delim::Invisible,
                };
                out.push(Tok::Open(d));
                flatten(g.stream(), out);
                out.push(Tok::Close(d));
            }
            TokenTree::Ident(i) => out.push(Tok::Ident(i.to_string())),
            TokenTree::Punct(p) => out.push(Tok::Punct(p.as_char())),
            TokenTree::Literal(l) => out.push(Tok::Lit(l.to_string())),
        }
    }
}

fn toks(s: &str) -> Vec<Tok> {
    let mut v = Vec::new();
    flatten(TokenStream::from_str(s).unwrap(), &mut v);
    v
}

fn text(v: &[Tok]) -> String {
    let mut s = String::new();
    for t in v {
        match t {
            Tok::Ident(i) => s.push_str(i),
            Tok::Lit(l) => s.push_str(l),
            Tok::Punct(c) => s.push(*c),
            Tok::Open(Delim::Paren) => s.push('('),
            Tok::Close(Delim::Paren) => s.push(')'),
            Tok::Open(Delim::Bracket) => s.push('['),
            Tok::Close(Delim::Bracket) => s.push(']'),
            Tok::Open(Delim::Brace) => s.push('{'),
            Tok::Close(Delim::Brace) => s.push('}'),
            _ => {}
        }
        s.push(' ');
    }
    s.trim_end().to_string()
}

fn code(s: &str) -> String {
    text(&toks(s))
}

fn attr(path: &[&str], args: Option<&str>) -> Attribute {
    Attribute { path: path.iter().map(|s| s.to_string()).collect(), args: args.map(toks) }
}

fn param(name: &str, ty: &str) -> ParamModel {
    ParamModel { name: name.to_string(), ty: toks(ty), attrs: vec![] }
}

fn func(name: &str, msg: Option<&str>, params: Vec<ParamModel>, output: &str) -> FnModel {
    FnModel {
        method: Method {
            name: name.to_string(),
            attrs: msg.map(|m| vec![attr(&["sv", "msg"], Some(m))]).unwrap_or_default(),
        },
        params,
        output: toks(output),
    }
}

fn counter(methods: Vec<FnModel>) -> ImplModel {
    ImplModel { attrs: vec![], generics: vec![], where_clause: None, self_ty: toks("Counter"), methods }
}

#[test]
fn query_response_is_the_result_argument() {
    assert_eq!(text(&response_exec(&toks("StdResult<CountResponse>"))), "CountResponse");
    assert_eq!(text(&response_exec(&toks("Result<Vec<u8>, ContractError>"))), "Vec < u8 >");
    assert_eq!(text(&response_exec(&toks("CountResponse"))), "CountResponse");
}

#[test]
fn contract_expansion_from_methods() {
    let m = counter(vec![
        func("new", None, vec![], "Self"),
        func("instantiate", Some("instantiate"), vec![param("ctx", "InstantiateCtx")], "StdResult<Response>"),
        func("count", Some("query"), vec![param("ctx", "QueryCtx")], "StdResult<CountResponse>"),
        func("admin", Some("query, resp = AdminResponse"), vec![param("ctx", "QueryCtx")], "StdResult<Binary>"),
        func("add", Some("exec"), vec![param("ctx", "ExecCtx"), param("value", "u32")], "StdResult<Response>"),
    ]);
    let (out, diags, fdiags) = contract_expand(&vec![], &m, &toks("sylvia"), false, false);
    assert!(diags.is_empty());
    assert!(fdiags.is_empty());
    let out = text(&out);
    assert!(out.starts_with("pub mod sv { use super : : * ;"));
    assert!(out.contains(&code("#[returns(CountResponse)] Count { }")));
    assert!(out.contains(&code("#[returns(AdminResponse)] Admin { }")));
    assert!(out.contains(&code("Add { value: u32, }")));
    assert!(!out.contains("New"));
}

#[test]
fn contract_expansion_with_arguments_is_empty() {
    let m = counter(vec![func("instantiate", Some("instantiate"), vec![param("ctx", "InstantiateCtx")], "")]);
    let (out, diags, _) = contract_expand(&toks("module = crate"), &m, &toks("sylvia"), false, false);
    assert!(out.is_empty());
    assert!(diags.is_empty());
}

#[test]
fn contract_expansion_reports_missing_instantiation() {
    let m = counter(vec![func("add", Some("exec"), vec![param("ctx", "ExecCtx")], "")]);
    let (_, diags, _) = contract_expand(&vec![], &m, &toks("sylvia"), false, false);
    assert_eq!(diags, vec![Diag::NoInstantiationMessage, Diag::MissingContractInstantiation]);
    assert_eq!(diags[1].message(&vec![]), "Missing instantiation message.");
}

#[test]
fn contract_expansion_places_reply_handling_inside_the_module() {
    let m = counter(vec![
        func("instantiate", Some("instantiate"), vec![param("ctx", "InstantiateCtx")], ""),
        func("on_done", Some("reply"), vec![param("ctx", "ReplyCtx"), param("payload", "Binary")], ""),
    ]);
    let (out, diags, _) = contract_expand(&vec![], &m, &toks("sylvia"), false, false);
    assert!(diags.is_empty());
    let out = text(&out);
    assert!(out.contains("ON_DONE_REPLY_ID"));
    assert!(out.ends_with("}"));
    let opens = out.matches('{').count();
    let closes = out.matches('}').count();
    assert_eq!(opens, closes);
}

#[test]
fn contract_expansion_rejects_a_type_that_is_no_path() {
    let mut m = counter(vec![func("instantiate", Some("instantiate"), vec![param("ctx", "InstantiateCtx")], "")]);
    m.self_ty = toks("&'a Counter");
    let (out, diags, _) = contract_expand(&vec![], &m, &toks("sylvia"), false, false);
    assert!(out.is_empty());
    assert_eq!(diags, vec![Diag::ContractTypeNotPath]);
}

#[test]
fn interface_expansion_from_methods() {
    let t = TraitModel {
        ident: "Cw1".to_string(),
        attrs: vec![],
        n_generics: 0,
        items: vec![TraitItemType { ident: "Error".to_string(), colon: true, bounds: toks("From<StdError>") }],
        where_clause: None,
        methods: vec![func("can_execute", Some("query"), vec![param("ctx", "QueryCtx"), param("sender", "String")], "StdResult<CanExecuteResp>")],
    };
    let (out, diags, _) = interface_expand(&t, &toks("sylvia"), false);
    assert_eq!(diags, vec![Diag::MissingExecType, Diag::MissingQueryType]);
    let out = text(&out);
    assert!(out.contains(&code("#[returns(CanExecuteResp)] CanExecute { sender: String, }")));
}

#[test]
fn entry_points_expansion() {
    let m = counter(vec![func("instantiate", Some("instantiate"), vec![param("ctx", "InstantiateCtx")], "")]);
    let (out, diags) = entry_points_expand(&vec![], &m, &toks("sylvia")).unwrap();
    assert!(diags.is_empty());
    assert!(text(&out).starts_with("pub mod entry_points {"));
    assert_eq!(entry_points_expand(&toks("bogus"), &m, &toks("sylvia")).err(), Some(ParseError::ExpectedGenerics));
}

#[test]
fn module_sources() {
    let dir = "src/contract".to_string();
    let x = "x".to_string();
    assert!(matches!(module_source(false, None, &dir, &x), ModuleSource::Keep));
    match module_source(true, None, &dir, &x) {
        ModuleSource::FirstExisting(a, b) => {
            assert_eq!(a, "src/contract/x.rs");
            assert_eq!(b, "src/contract/x/mod.rs");
        }
        other => panic!("{other:?}"),
    }
    match module_source(true, Some(&toks("= \"other.rs\"")), &dir, &x) {
        ModuleSource::Path(p) => assert_eq!(p, "other.rs"),
        other => panic!("{other:?}"),
    }
    assert!(matches!(module_source(true, Some(&toks("(x)")), &dir, &x), ModuleSource::Keep));
}
