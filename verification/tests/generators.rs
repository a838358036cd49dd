use sylvia_derive::associated_types::{AssociatedTypes, ImplAssociatedTypes, ImplItemType, TraitItemType};
use sylvia_derive::check_generics::{CheckGenerics, GenericArgument, GenericParam, GetPath};
use sylvia_derive::cw1::CanExecuteResp;
use sylvia_derive::diag::Diag;
use sylvia_derive::entry_points::{emit_entry_points, emit_mt_dispatch, reply_method_name, Dispatch, EntryPointInput};
use sylvia_derive::interface::{select_struct_message, InterfaceInput};
use sylvia_derive::interfaces::Interfaces;
use sylvia_derive::mod_folder::{Item, ModFolder};
use sylvia_derive::msg_type::MsgType;
use sylvia_derive::parser::{Attribute, Custom, EntryPointArgs, Method, OverrideEntryPoints};
use sylvia_derive::tokens::{Delim, Tok};

fn id(s: &str) -> Tok {
    Tok::Ident(s.to_string())
}

fn text(v: &[Tok]) -> String {
    let mut s = String::new();
    for t in v {
        match t {
            Tok::Ident(i) => s.push_str(i),
            Tok::Lit(l) => s.push_str(l),
            Tok::Punct(c) => s.push(*c),
            Tok::Open(Delim::Paren) => s.push('('),
            Tok::Close(Delim::Paren) => s.push(')'),
            _ => s.push('?'),
        }
        s.push(' ');
    }
    s.trim_end().to_string()
}

fn lex(s: &str) -> Vec<Tok> {
    // identifiers, `::`, `<`, `>`, `,`, `=`, `:` and parentheses only
    let mut out = Vec::new();
    let mut word = String::new();
    for c in s.chars() {
        if c.is_alphanumeric() || c == '_' {
            word.push(c);
            continue;
        }
        if !word.is_empty() {
            out.push(Tok::Ident(std::mem::take(&mut word)));
        }
        match c {
            ' ' => {}
            '(' => out.push(Tok::Open(Delim::Paren)),
            ')' => out.push(Tok::Close(Delim::Paren)),
            _ => out.push(Tok::Punct(c)),
        }
    }
    if !word.is_empty() {
        out.push(Tok::Ident(word));
    }
    out
}

#[test]
fn msg_type_names() {
    assert_eq!(MsgType::Exec.emit_ep_name(), "execute");
    assert_eq!(MsgType::Sudo.emit_ep_name(), "sudo");
    assert_eq!(MsgType::Exec.emit_msg_name(true), "ContractExecMsg");
    assert_eq!(MsgType::Exec.emit_msg_name(false), "ExecMsg");
    assert_eq!(MsgType::Reply.emit_msg_name(false), "ReplyMsg");
    assert_eq!(MsgType::Query.as_accessor_name(true).as_deref(), Some("ContractQuery"));
    assert_eq!(MsgType::Sudo.as_accessor_name(true).as_deref(), Some("Sudo"));
}

#[test]
fn msg_type_contexts() {
    let sylvia = vec![id("sylvia")];
    let q = vec![id("Q")];
    assert_eq!(text(&MsgType::Exec.emit_ctx_values()), "deps , env , info");
    assert_eq!(text(&MsgType::Query.emit_ctx_values()), "deps , env");
    assert_eq!(
        text(&MsgType::Query.emit_ctx_type(&sylvia, &q)),
        "( sylvia : : cw_std : : Deps < Q > , sylvia : : cw_std : : Env )"
    );
    assert_eq!(
        text(&MsgType::Instantiate.emit_ctx_params(&sylvia, &q)),
        "deps : sylvia : : cw_std : : DepsMut < Q > , env : sylvia : : cw_std : : Env , info : sylvia : : cw_std : : MessageInfo"
    );
    assert_eq!(
        text(&MsgType::Query.emit_result_type(&sylvia, &vec![id("M")], &vec![id("E")])),
        "std : : result : : Result < sylvia : : cw_std : : Binary , E >"
    );
    assert_eq!(
        text(&MsgType::Exec.emit_result_type(&sylvia, &vec![id("M")], &vec![id("E")])),
        "std : : result : : Result < sylvia : : cw_std : : Response < M > , E >"
    );
}

#[test]
fn generics_used_and_unused() {
    let generics = vec![
        GenericParam::Type("T".to_string()),
        GenericParam::Lifetime("a".to_string()),
        GenericParam::Type("U".to_string()),
    ];
    let mut check = CheckGenerics::new(&generics);
    check.visit_path(&vec![id("Vec")]);
    check.visit_path(&vec![id("U")]);
    check.visit_path(&vec![id("T")]);
    check.visit_path(&vec![id("U")]);
    let (used, unused) = check.used_unused();
    let names = |v: &[&GenericParam]| {
        v.iter()
            .map(|g| match g {
                GenericParam::Type(s) | GenericParam::Lifetime(s) | GenericParam::Const(s) => s.clone(),
            })
            .collect::<Vec<_>>()
    };
    assert_eq!(names(&used), vec!["U", "T"]);
    assert_eq!(names(&unused), vec!["a"]);
}

#[test]
fn generics_used_only() {
    let generics = vec![
        GenericArgument::TypePath(vec![id("A")]),
        GenericArgument::Other(vec![id("3")]),
    ];
    let mut check = CheckGenerics::new(&generics);
    check.visit_path(&vec![id("A")]);
    assert_eq!(check.used().len(), 1);
    assert!(generics[1].get_path().is_none());
    assert_eq!(text(&"Name".to_string().get_path().unwrap()), "Name");
}

fn attr(path: &[&str], args: Option<&str>) -> Attribute {
    Attribute { path: path.iter().map(|s| s.to_string()).collect(), args: args.map(lex) }
}

#[test]
fn interfaces_of_contract() {
    let attrs = vec![
        attr(&["messages"], Some("cw1 as Cw1")),
        attr(&["messages"], Some("generic<A, B>: custom(msg)")),
        attr(&["messages"], Some("bad: custom(x)")),
    ];
    let (is, diags) = Interfaces::new(&attrs);
    assert_eq!(is.interfaces.len(), 2);
    assert_eq!(is.interfaces[1].variant, "Generic");
    assert_eq!(diags.len(), 2);
    assert_eq!(diags[0], Diag::RedundantAs { attr: 0, interface: 0 });
    assert_eq!(is.as_generic_args().len(), 2);
    let calls = is.emit_messages_call(&MsgType::Exec);
    assert_eq!(text(&calls[0]), "& cw1 : : sv : : execute_messages ( )");
    let (only, diags) = is.get_only_interface();
    assert!(only.is_none());
    assert_eq!(diags, vec![Diag::MessagesRedefined { attr: 1, first: 0 }]);
    let (one, _) = Interfaces::new(&vec![attr(&["messages"], Some("cw1"))]);
    let (only, diags) = one.get_only_interface();
    assert_eq!(only.unwrap().variant, "Cw1");
    assert!(diags.is_empty());
}

#[test]
fn associated_types_skip_reserved() {
    let items = vec![
        TraitItemType { ident: "Error".to_string(), colon: true, bounds: lex("From<StdError>") },
        TraitItemType { ident: "Data".to_string(), colon: true, bounds: lex("Serialize") },
        TraitItemType { ident: "ExecC".to_string(), colon: true, bounds: lex("CustomMsg") },
        TraitItemType { ident: "Other".to_string(), colon: false, bounds: vec![] },
    ];
    let a = AssociatedTypes::new(&items);
    assert_eq!(a.as_names(), vec!["Data".to_string(), "Other".to_string()]);
    assert_eq!(a.as_types_declaration().len(), 2);
    assert_eq!(a.as_types_declaration()[1].ident, "Other");
    assert_eq!(text(&a.as_where_clause().unwrap()), "where Data : Serialize , Other");
    assert_eq!(text(&a.emit_types_definition()[0]), "type Data = Data ;");
    assert_eq!(
        text(&a.emit_contract_predicate(&"Iface".to_string())),
        "ContractT : Iface < Data = Data , Other = Other , >"
    );
    let only_error = vec![TraitItemType { ident: "Error".to_string(), colon: false, bounds: vec![] }];
    let none = AssociatedTypes::new(&only_error);
    assert!(none.as_where_clause().is_none());
    assert_eq!(text(&none.emit_contract_predicate(&"Iface".to_string())), "ContractT : Iface");
}

#[test]
fn impl_associated_types() {
    let items = vec![
        ImplItemType { ident: "Error".to_string(), ty: lex("StdError") },
        ImplItemType { ident: "Data".to_string(), ty: lex("u32") },
    ];
    let a = ImplAssociatedTypes::new(&items);
    assert_eq!(a.as_names(), vec!["Data".to_string()]);
    assert_eq!(text(&a.as_types()[0]), "u32");
    assert_eq!(text(&a.emit_types_declaration()[0]), "type Data ;");
    assert_eq!(a.as_item_types().len(), 1);
    assert_eq!(a.as_item_types()[0].ident, "Data");
}

#[test]
fn entry_points_plan() {
    let (eps, _) = OverrideEntryPoints::new(&vec![
        attr(&["sv", "override_entry_point"], Some("exec = f(E)")),
        attr(&["sv", "override_entry_point"], Some("migrate = g(M)")),
    ]);
    assert_eq!(
        emit_entry_points(&eps, true, true),
        vec![MsgType::Instantiate, MsgType::Query, MsgType::Sudo, MsgType::Reply]
    );
    let (none, _) = OverrideEntryPoints::new(&vec![]);
    assert_eq!(
        emit_entry_points(&none, true, false),
        vec![MsgType::Instantiate, MsgType::Exec, MsgType::Query, MsgType::Sudo, MsgType::Migrate]
    );
    assert_eq!(emit_mt_dispatch(&eps, MsgType::Exec, false), Dispatch::Override(0));
    assert_eq!(emit_mt_dispatch(&eps, MsgType::Query, false), Dispatch::Default);
    assert_eq!(emit_mt_dispatch(&none, MsgType::Reply, false), Dispatch::NotImplemented);
    assert_eq!(emit_mt_dispatch(&none, MsgType::Migrate, true), Dispatch::Default);
    assert_eq!(reply_method_name(&"OnReply".to_string()), "on_reply");
}

#[test]
fn entry_point_input_checks() {
    let args = EntryPointArgs::parse(&lex("generics<A>")).unwrap();
    let (_, diags) = EntryPointInput::new(args, 2, 0);
    assert_eq!(diags, vec![Diag::MissingConcreteTypes, Diag::MissingInstantiationMessage]);
    let args = EntryPointArgs::parse(&vec![]).unwrap();
    let (_, diags) = EntryPointInput::new(args, 0, 1);
    assert!(diags.is_empty());
}

#[test]
fn interface_input_checks() {
    let (_, diags) = InterfaceInput::new(1, &vec!["Data".to_string()], Custom::default());
    assert_eq!(
        diags,
        vec![Diag::GenericsOnTrait, Diag::MissingErrorType, Diag::MissingExecType, Diag::MissingQueryType]
    );
    let types = vec!["Error".to_string(), "ExecC".to_string(), "QueryC".to_string()];
    let (_, diags) = InterfaceInput::new(0, &types, Custom::default());
    assert!(diags.is_empty());
    let custom = Custom::parse(&lex("query = Q")).unwrap();
    let (_, diags) = InterfaceInput::new(0, &vec!["Error".to_string()], custom);
    assert_eq!(diags, vec![Diag::MissingExecType]);
}

#[test]
fn single_struct_message() {
    assert_eq!(select_struct_message(&vec![3], MsgType::Migrate), (Some(3), vec![]));
    assert_eq!(
        select_struct_message(&vec![], MsgType::Instantiate),
        (None, vec![Diag::MissingContractInstantiation])
    );
    assert_eq!(select_struct_message(&vec![], MsgType::Migrate), (None, vec![]));
    assert_eq!(
        select_struct_message(&vec![1, 4], MsgType::Instantiate),
        (None, vec![Diag::MultipleMessages { method: 4, first: 1 }])
    );
}

#[test]
fn build_keeps_sylvia_impls() {
    let folder = ModFolder::new(&"sylvia".to_string());
    let path = |p: &[&str]| p.iter().map(|s| s.to_string()).collect::<Vec<_>>();
    assert!(folder.is_sylvia_attribute(&path(&["sylvia", "contract"])));
    assert!(folder.is_sylvia_attribute(&path(&["sylvia", "interface"])));
    assert!(!folder.is_sylvia_attribute(&path(&["contract"])));
    let items = vec![
        Item::Impl { attrs: vec![path(&["sylvia", "contract"])] },
        Item::Other,
        Item::Impl { attrs: vec![path(&["derive"])] },
        Item::Impl { attrs: vec![path(&["doc"]), path(&["sylvia", "interface"])] },
    ];
    let kept = folder.process_impl_items(items);
    assert_eq!(kept.len(), 3);
    assert!(matches!(&kept[1], Item::Other));
    assert!(matches!(&kept[2], Item::Impl { attrs } if attrs.len() == 2));
}

#[test]
fn can_execute_resp() {
    assert!(!CanExecuteResp::default().can_execute);
    assert!(CanExecuteResp::new(true).can_execute);
}

#[test]
fn interface_rejects_contract_messages() {
    let method = |name: &str, msg: Option<&str>| Method {
        name: name.to_string(),
        attrs: msg.map(|m| vec![Attribute { path: vec!["msg".to_string()], args: Some(lex(m)) }]).unwrap_or_default(),
    };
    let (input, _) = InterfaceInput::new(0, &vec!["Error".to_string()], Custom::default());
    let methods = vec![
        method("exec", Some("exec")),
        method("migrate", Some("migrate")),
        method("instantiate", Some("instantiate")),
        method("other", Some("instantiate")),
    ];
    assert_eq!(
        input.message_diags(&methods),
        vec![Diag::InstantiateInInterface { method: 2 }, Diag::MigrateInInterface { method: 1 }]
    );
    assert!(input.message_diags(&vec![method("q", Some("query"))]).is_empty());
}

#[test]
fn generics_used_inside_generic_arguments() {
    let generics = vec![GenericParam::Type("T".to_string()), GenericParam::Type("U".to_string())];
    let mut check = CheckGenerics::new(&generics);
    check.visit_type(&lex("Vec<T>"));
    let (used, unused) = check.used_unused();
    assert!(matches!(used.as_slice(), [GenericParam::Type(t)] if t == "T"));
    assert!(matches!(unused.as_slice(), [GenericParam::Type(u)] if u == "U"));
    let mut check = CheckGenerics::new(&generics);
    check.visit_type(&lex("Option<(std::vec::Vec<U>, &'a T)>"));
    let used = check.used();
    assert!(matches!(used.as_slice(), [GenericParam::Type(u), GenericParam::Type(t)] if u == "U" && t == "T"));
}

#[test]
fn sv_messages_attribute_names_interfaces() {
    let (is, diags) = Interfaces::new(&vec![attr(&["sv", "messages"], Some("cw1 as Cw1"))]);
    assert_eq!(is.interfaces.len(), 1);
    assert_eq!(is.interfaces[0].variant, "Cw1");
    assert_eq!(text(&is.interfaces[0].module), "cw1");
    assert!(!is.interfaces[0].customs.has_msg);
    assert!(!is.interfaces[0].customs.has_query);
    assert!(is.interfaces[0].generics.is_empty());
    assert_eq!(diags, vec![Diag::RedundantAs { attr: 0, interface: 0 }]);
}

#[test]
fn sudo_message_names() {
    assert_eq!(MsgType::Sudo.emit_msg_name(false), "SudoMsg");
    assert_eq!(MsgType::Sudo.emit_msg_name(true), "ContractSudoMsg");
}

#[test]
fn diagnostics_read_as_text() {
    let d = Diag::NoInstantiationMessage;
    assert!(!d.is_warning());
    assert_eq!(d.message(&vec![]), "No instantiation message");
    assert!(d.notes().is_empty());
    let w = Diag::RedundantAs { attr: 0, interface: 0 };
    assert!(w.is_warning());
    assert_eq!(w.message(&vec!["Cw1".to_string()]), "Redundant `as Cw1`.");
    assert_eq!(w.notes(), vec!["Interface name is a camel case version of the path and can be auto deduced."]);
    let m = Diag::MissingContractInstantiation;
    assert_eq!(m.message(&vec![]), "Missing instantiation message.");
    assert_eq!(
        m.notes(),
        vec!["`sylvia::contract` requires exactly one method marked with `#[sv::msg(instantiation)]` attribute."]
    );
    let r = Diag::MessagesRedefined { attr: 1, first: 0 };
    assert_eq!(r.message(&vec![]), "The attribute `messages` is redefined");
    assert_eq!(
        r.notes(),
        vec![
            "Previous definition of the attribute `messsages`",
            "Only one `messages` attribute can exist on an interface implementation on contract"
        ]
    );
    let c = Diag::CustomRedefined { attr: 1, first: 0 };
    assert_eq!(c.message(&vec![]), "The attribute `custom` is redefined");
    assert_eq!(c.notes().len(), 2);
    let e = Diag::MissingInstantiationMessage;
    assert_eq!(e.message(&vec![]), "Missing instantiation message.");
    assert_eq!(e.notes().len(), 2);
    let p = Diag::AttrParse { attr: 0, error: sylvia_derive::tokens::ParseError::InvalidEntryPoint };
    assert_eq!(
        p.message(&vec![]),
        "Invalid entry point. Expected exec, instantiate, query, migrate, reply or sudo. Found {ty}"
    );
}
