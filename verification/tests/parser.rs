use std::str::FromStr;

use proc_macro2::{Delimiter, TokenStream, TokenTree};
use sylvia_derive::msg_type::MsgType;
use sylvia_derive::parser::{
    parse_associated_custom_type, parse_struct_message, sylvia_attribute, Attribute,
    ContractArgs, ContractMessageAttr, Custom, EntryPointArgs, Method, MsgAttr,
    OverrideEntryPoint, OverrideEntryPoints,
};
use sylvia_derive::diag::Diag;
use sylvia_derive::tokens::{Delim, ParseError, Tok};

fn flatten(ts: TokenStream, out: &mut Vec<Tok>) {
    for tt in ts {
        match tt {
            TokenTree::Group(g) => {
                let d = match g.delimiter() {
                    Delimiter::Parenthesis => Delim::Paren,
                    Delimiter::Bracket => Delim::Bracket,
                    Delimiter::Brace => Delim::Brace,
                    Delimiter::None => Delim::Invisible,
                };
                out.push(Tok::Open(d));
                flatten(g.stream(), out);
                out.push(Tok::Close(d));
            }
            TokenTree::Ident(i) => out.push(Tok::Ident(i.to_string())),
            TokenTree::Punct(p) => out.push(Tok::Punct(p.as_char())),
            TokenTree::Literal(l) => out.push(Tok::Lit(l.to_string())),
        }
    }
}

fn toks(s: &str) -> Vec<Tok> {
    let mut v = Vec::new();
    flatten(TokenStream::from_str(s).unwrap(), &mut v);
    v
}

fn text(v: &[Tok]) -> String {
    let mut s = String::new();
    for t in v {
        match t {
            Tok::Ident(i) => s.push_str(i),
            Tok::Lit(l) => s.push_str(l),
            Tok::Punct(c) => s.push(*c),
            Tok::Open(Delim::Paren) => s.push('('),
            Tok::Close(Delim::Paren) => s.push(')'),
            Tok::Open(Delim::Bracket) => s.push('['),
            Tok::Close(Delim::Bracket) => s.push(']'),
            Tok::Open(Delim::Brace) => s.push('{'),
            Tok::Close(Delim::Brace) => s.push('}'),
            _ => {}
        }
        s.push(' ');
    }
    s.trim_end().to_string()
}

fn attr(path: &[&str], args: Option<&str>) -> Attribute {
    Attribute {
        path: path.iter().map(|s| s.to_string()).collect(),
        args: args.map(toks),
    }
}

#[test]
fn msg_attr_kinds() {
    assert!(matches!(MsgAttr::parse(&toks("exec")), Ok(MsgAttr::Exec)));
    assert!(matches!(MsgAttr::parse(&toks("reply")), Ok(MsgAttr::Reply)));
    match MsgAttr::parse(&toks("instantiate")) {
        Ok(MsgAttr::Instantiate { name }) => assert_eq!(name, "InstantiateMsg"),
        _ => panic!("expected instantiate"),
    }
    match MsgAttr::parse(&toks("migrate")) {
        Ok(MsgAttr::Migrate { name }) => assert_eq!(name, "MigrateMsg"),
        _ => panic!("expected migrate"),
    }
    match MsgAttr::parse(&toks("query")) {
        Ok(MsgAttr::Query { resp_type }) => assert_eq!(resp_type, None),
        _ => panic!("expected query"),
    }
}

#[test]
fn msg_attr_query_with_response_type() {
    match MsgAttr::parse(&toks("query, resp = AdminQueryResponse")) {
        Ok(MsgAttr::Query { resp_type }) => {
            assert_eq!(resp_type.as_deref(), Some("AdminQueryResponse"))
        }
        _ => panic!("expected query with response type"),
    }
}

#[test]
fn msg_attr_errors() {
    assert_eq!(MsgAttr::parse(&toks("other")).err(), Some(ParseError::InvalidMsgType));
    assert_eq!(MsgAttr::parse(&toks("exec extra")).err(), Some(ParseError::UnexpectedToken));
    assert_eq!(MsgAttr::parse(&toks("")).err(), Some(ParseError::ExpectedIdent));
    assert_eq!(MsgAttr::parse(&toks("query x y z")).err(), Some(ParseError::ExpectedPunct(',')));
    assert_eq!(
        MsgAttr::parse(&toks("query, resp = A B")).err(),
        Some(ParseError::UnexpectedToken)
    );
}

#[test]
fn msg_attr_kind_comparison() {
    let a = MsgAttr::parse(&toks("query")).unwrap();
    assert_eq!(a.msg_type(), MsgType::Query);
    assert!(a.eq(&MsgType::Query));
    assert!(!a.eq(&MsgType::Exec));
}

#[test]
fn custom_types() {
    let c = Custom::parse(&toks("msg = MyMsg, query = my::Query<A, B>")).unwrap();
    assert_eq!(text(c.msg.as_ref().unwrap()), "MyMsg");
    assert_eq!(text(c.query.as_ref().unwrap()), "my : : Query < A , B >");
    let c = Custom::parse(&toks("query = Q")).unwrap();
    assert!(c.msg.is_none());
    assert_eq!(text(c.query.as_ref().unwrap()), "Q");
    let c = Custom::parse(&toks("msg = A, msg = B")).unwrap();
    assert_eq!(text(c.msg.as_ref().unwrap()), "B");
}

#[test]
fn custom_type_errors() {
    assert_eq!(Custom::parse(&toks("foo = X")).err(), Some(ParseError::InvalidCustomType));
    assert_eq!(Custom::parse(&toks("msg X")).err(), Some(ParseError::ExpectedPunct('=')));
    assert_eq!(Custom::parse(&toks("msg = ")).err(), Some(ParseError::ExpectedType));
    assert_eq!(Custom::parse(&toks("msg = , query = Q")).err(), Some(ParseError::ExpectedType));
}

#[test]
fn custom_defaults_to_empty() {
    let sylvia = toks("sylvia");
    let c = Custom::default();
    assert_eq!(text(&c.msg_or_default(&sylvia)), "sylvia : : cw_std : : Empty");
    assert_eq!(text(&c.query_or_default(&sylvia)), "sylvia : : cw_std : : Empty");
    let c = Custom::parse(&toks("msg = M")).unwrap();
    assert_eq!(text(&c.msg_or_default(&sylvia)), "M");
    assert_eq!(text(&c.msg().unwrap()), "M");
    assert!(c.query().is_none());
}

#[test]
fn custom_first_attribute_wins() {
    let attrs = vec![
        attr(&["sv", "custom"], Some("msg = First")),
        attr(&["doc"], None),
        attr(&["sv", "custom"], Some("bad = X")),
        attr(&["sv", "custom"], Some("query = Second")),
    ];
    let (c, diags) = Custom::new(&attrs);
    assert_eq!(text(c.msg.as_ref().unwrap()), "First");
    assert!(c.query.is_none());
    assert_eq!(c.input_attr, Some(0));
    assert_eq!(
        diags,
        vec![
            Diag::AttrParse { attr: 2, error: ParseError::InvalidCustomType },
            Diag::CustomRedefined { attr: 3, first: 0 },
        ]
    );
}

#[test]
fn contract_args() {
    let a = ContractArgs::parse(&toks("module = crate::contract")).unwrap();
    assert_eq!(text(a.module.as_ref().unwrap()), "crate : : contract");
    assert!(ContractArgs::parse(&toks("")).unwrap().module.is_none());
    assert_eq!(ContractArgs::parse(&toks("other = x")).err(), Some(ParseError::ExpectedModule));
    assert_eq!(ContractArgs::parse(&toks("module = a b")).err(), Some(ParseError::ExpectedComma));
    assert_eq!(ContractArgs::parse(&toks("module a")).err(), Some(ParseError::ExpectedPunct('=')));
}

#[test]
fn entry_point_args() {
    assert!(EntryPointArgs::parse(&toks("")).unwrap().generics.is_none());
    let a = EntryPointArgs::parse(&toks("generics<SvCustomMsg, Vec<A, B>>")).unwrap();
    let g = a.generics.unwrap();
    assert_eq!(g.len(), 2);
    assert_eq!(text(&g[0]), "SvCustomMsg");
    assert_eq!(text(&g[1]), "Vec < A , B >");
    assert_eq!(
        EntryPointArgs::parse(&toks("other<A>")).err(),
        Some(ParseError::ExpectedGenerics)
    );
    assert_eq!(
        EntryPointArgs::parse(&toks("generics<A> x")).err(),
        Some(ParseError::UnexpectedToken)
    );
}

#[test]
fn entry_point_args_with_custom_types() {
    let a = EntryPointArgs::parse(&toks(
        "generics<SvCustomMsg, SvCustomMsg, SvCustomMsg>, custom(msg=SvCustomMsg, query=SvCustomQuery)",
    ))
    .unwrap();
    assert_eq!(a.generics.unwrap().len(), 3);
    let c = a.custom.unwrap();
    assert_eq!(text(&c.msg.unwrap()), "SvCustomMsg");
    assert_eq!(text(&c.query.unwrap()), "SvCustomQuery");
    assert!(EntryPointArgs::parse(&toks("generics<A>")).unwrap().custom.is_none());
    assert_eq!(
        EntryPointArgs::parse(&toks("generics<A>, other(msg=B)")).err(),
        Some(ParseError::UnexpectedToken)
    );
    assert_eq!(
        EntryPointArgs::parse(&toks("generics<A>, custom(msg=B) x")).err(),
        Some(ParseError::UnexpectedToken)
    );
    assert_eq!(
        EntryPointArgs::parse(&toks("generics<A>, custom(other=B)")).err(),
        Some(ParseError::InvalidCustomType)
    );
}

#[test]
fn contract_message_attr_deduces_name() {
    let (a, warn) = ContractMessageAttr::parse(&toks("some_interface")).unwrap();
    assert_eq!(a.variant, "SomeInterface");
    assert!(!warn);
    assert_eq!(text(&a.module), "some_interface");
    assert!(!a.customs.has_msg && !a.customs.has_query);
}

#[test]
fn redundant_as_names_the_same_interface() {
    let (plain, warn) = ContractMessageAttr::parse(&toks("crate::group<u32, Vec<String>>")).unwrap();
    assert!(!warn);
    let (named, warn) = ContractMessageAttr::parse(&toks("crate::group<u32, Vec<String>> as Group")).unwrap();
    assert!(warn);
    assert_eq!(named.variant, plain.variant);
    assert_eq!(text(&named.module), text(&plain.module));
    assert_eq!(named.generics.len(), plain.generics.len());
    for (x, y) in named.generics.iter().zip(plain.generics.iter()) {
        assert_eq!(text(x), text(y));
    }
    assert_eq!(named.customs, plain.customs);
    let (plain, _) = ContractMessageAttr::parse(&toks("cw1: custom(msg)")).unwrap();
    let (named, warn) = ContractMessageAttr::parse(&toks("cw1 as Cw1: custom(msg)")).unwrap();
    assert!(warn);
    assert_eq!(named.variant, plain.variant);
    assert_eq!(named.customs, plain.customs);
    assert!(named.customs.has_msg && !named.customs.has_query);
}

#[test]
fn contract_message_attr_full() {
    let (a, warn) =
        ContractMessageAttr::parse(&toks("crate::cw1<A, B> as Cw1: custom(msg, query)")).unwrap();
    assert_eq!(a.variant, "Cw1");
    assert!(warn);
    assert_eq!(text(&a.module), "crate : : cw1");
    assert_eq!(a.generics.len(), 2);
    assert!(a.customs.has_msg && a.customs.has_query);
    let (a, warn) = ContractMessageAttr::parse(&toks("cw1 as Other: custom(query)")).unwrap();
    assert_eq!(a.variant, "Other");
    assert!(!warn);
    assert!(!a.customs.has_msg && a.customs.has_query);
}

#[test]
fn contract_message_attr_errors() {
    assert_eq!(
        ContractMessageAttr::parse(&toks("cw1: custom(foo)")).err(),
        Some(ParseError::InvalidCustom)
    );
    assert_eq!(
        ContractMessageAttr::parse(&toks("cw1 as")).err(),
        Some(ParseError::ExpectedIdent)
    );
    assert_eq!(
        ContractMessageAttr::parse(&toks("cw1 extra")).err(),
        Some(ParseError::UnexpectedToken)
    );
    assert_eq!(
        ContractMessageAttr::parse(&toks("cw1: custom(msg query)")).err(),
        Some(ParseError::UnexpectedToken)
    );
}

#[test]
fn override_entry_point() {
    let e = OverrideEntryPoint::parse(&toks("exec = crate::entry::execute(crate::ExecMsg)")).unwrap();
    assert_eq!(e.msg_type, MsgType::Exec);
    assert_eq!(text(&e.entry_point), "crate : : entry : : execute");
    assert_eq!(text(&e.msg_name), "crate : : ExecMsg");
    let e = OverrideEntryPoint::parse(&toks("query = f(Q)")).unwrap();
    assert_eq!(e.msg_type, MsgType::Query);
    let e = OverrideEntryPoint::parse(&toks("sudo = f(S)")).unwrap();
    assert_eq!(e.msg_type, MsgType::Sudo);
    assert_eq!(
        OverrideEntryPoint::parse(&toks("bad = f(X)")).err(),
        Some(ParseError::InvalidEntryPoint)
    );
    assert_eq!(
        OverrideEntryPoint::parse(&toks("exec = f X")).err(),
        Some(ParseError::ExpectedParen)
    );
    assert_eq!(
        OverrideEntryPoint::parse(&toks("exec = f()")).err(),
        Some(ParseError::ExpectedType)
    );
}

#[test]
fn override_entry_points_lookup() {
    let attrs = vec![
        attr(&["sv", "override_entry_point"], Some("exec = a(E)")),
        attr(&["sv", "override_entry_point"], Some("oops")),
        attr(&["sv", "override_entry_point"], Some("migrate = b(M)")),
        attr(&["sv", "override_entry_point"], Some("exec = c(E2)")),
    ];
    let (eps, diags) = OverrideEntryPoints::new(&attrs);
    assert_eq!(eps.0.len(), 3);
    assert_eq!(diags, vec![Diag::AttrParse { attr: 1, error: ParseError::ExpectedPunct('=') }]);
    assert_eq!(text(&eps.get_entry_point(MsgType::Exec).unwrap().entry_point), "a");
    assert_eq!(text(&eps.get_entry_point(MsgType::Migrate).unwrap().entry_point), "b");
    assert!(eps.get_entry_point(MsgType::Query).is_none());
}

#[test]
fn sylvia_attribute_names() {
    assert_eq!(sylvia_attribute(&attr(&["sv", "custom"], None)).as_deref(), Some("custom"));
    assert_eq!(sylvia_attribute(&attr(&["custom"], None)), None);
    assert_eq!(sylvia_attribute(&attr(&["other", "custom"], None)), None);
    assert_eq!(sylvia_attribute(&attr(&["sv", "a", "b"], None)), None);
}

fn method(name: &str, msg: Option<&str>) -> Method {
    Method {
        name: name.to_string(),
        attrs: msg.map(|m| vec![attr(&["msg"], Some(m))]).unwrap_or_default(),
    }
}

#[test]
fn struct_message_selection() {
    let methods = vec![
        method("new", None),
        method("instantiate", Some("instantiate")),
        method("exec", Some("exec")),
    ];
    let (found, diags) = parse_struct_message(&methods, MsgType::Instantiate);
    assert_eq!(found.map(|(i, _)| i), Some(1));
    assert!(diags.is_empty());
    let (found, diags) = parse_struct_message(&methods, MsgType::Migrate);
    assert!(found.is_none());
    assert!(diags.is_empty());
}

#[test]
fn struct_message_errors() {
    let methods = vec![
        method("exec", Some("exec")),
        method("bad", Some("nonsense")),
    ];
    let (found, diags) = parse_struct_message(&methods, MsgType::Instantiate);
    assert!(found.is_none());
    assert_eq!(
        diags,
        vec![
            Diag::MethodAttrParse { method: 1, error: ParseError::InvalidMsgType },
            Diag::NoInstantiationMessage,
        ]
    );
    let methods = vec![
        method("a", Some("migrate")),
        method("b", Some("migrate")),
        method("c", Some("nonsense")),
    ];
    let (found, diags) = parse_struct_message(&methods, MsgType::Migrate);
    assert_eq!(found.map(|(i, _)| i), Some(0));
    assert_eq!(diags, vec![Diag::MultipleMessages { method: 1, first: 0 }]);
}

#[test]
fn associated_custom_type() {
    let types = vec!["Error".to_string(), "ExecC".to_string()];
    let t = parse_associated_custom_type(&"Cw1".to_string(), &types, "ExecC").unwrap();
    assert_eq!(text(&t), "< C as Cw1 > : : ExecC");
    assert!(parse_associated_custom_type(&"Cw1".to_string(), &types, "QueryC").is_none());
}

#[test]
fn override_multitest_dispatch() {
    let e = OverrideEntryPoint::parse(&toks("exec = crate::entry::execute(crate::ExecMsg)")).unwrap();
    assert_eq!(
        text(&e.emit_multitest_dispatch(&toks("sylvia"))),
        text(&toks(
            "crate::entry::execute(deps, env, info.into(), sylvia::cw_std::from_json::<crate::ExecMsg>(&msg)?).map_err(Into::into)"
        ))
    );
}

#[test]
fn msg_attr_sudo() {
    let a = MsgAttr::parse(&toks("sudo")).unwrap();
    assert!(matches!(a, MsgAttr::Sudo));
    assert_eq!(a.msg_type(), MsgType::Sudo);
}

#[test]
fn override_query_entry_point() {
    let e = OverrideEntryPoint::parse(&toks("query=crate::entry_points::query(crate::QueryMsg)")).unwrap();
    assert_eq!(e.msg_type, MsgType::Query);
    assert_eq!(text(&e.entry_point), "crate : : entry_points : : query");
    assert_eq!(text(&e.msg_name), "crate : : QueryMsg");
}

#[test]
fn msg_attrs_forwarded_by_kind() {
    let attrs = vec![
        attr(&["sv", "msg_attr"], Some("exec, derive(Eq)")),
        attr(&["sv", "custom"], Some("msg = M")),
        attr(&["sv", "msg_attr"], Some("bogus, derive(Eq)")),
        attr(&["msg_attr"], Some("query, doc = \"q\"")),
    ];
    let f = sylvia_derive::parser::msg_attrs_forward(&attrs);
    assert_eq!(f.len(), 2);
    assert_eq!(f[0].0, MsgType::Exec);
    assert_eq!(text(&f[0].1), "derive ( Eq )");
    assert_eq!(f[1].0, MsgType::Query);
    assert_eq!(text(&f[1].1), "doc = \"q\"");
}
