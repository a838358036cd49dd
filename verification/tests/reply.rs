use sylvia_derive::diag::Diag;
use sylvia_derive::msg_type::MsgType;
use sylvia_derive::reply::{
    as_reply_data, as_reply_id, DataAttr, DataHandling, MsgField, MsgVariant,
    ReplyOn,
};
use sylvia_derive::tokens::{Delim, Tok};

fn ty(s: &str) -> Vec<Tok> {
    vec![Tok::Ident(s.to_string())]
}

fn field(name: &str, t: &str) -> MsgField {
    MsgField { name: name.to_string(), ty: ty(t), data: None, payload: false }
}

fn handler(name: &str, on: ReplyOn, handlers: &[&str], fields: Vec<MsgField>) -> MsgVariant {
    MsgVariant {
        function_name: name.to_string(),
        msg_type: MsgType::Reply,
        reply_on: on,
        handlers: handlers.iter().map(|s| s.to_string()).collect(),
        fields,
        return_type: vec![],
    }
}

fn text(v: &[Tok]) -> String {
    let mut s = String::new();
    for t in v {
        match t {
            Tok::Ident(i) => s.push_str(i),
            Tok::Lit(l) => s.push_str(l),
            Tok::Punct(c) => s.push(*c),
            Tok::Open(Delim::Paren) => s.push('('),
            Tok::Close(Delim::Paren) => s.push(')'),
            _ => s.push('?'),
        }
        s.push(' ');
    }
    s.trim_end().to_string()
}

#[test]
fn reply_id_is_upper_snake() {
    assert_eq!(as_reply_id(&"on_instantiated".to_string()), "ON_INSTANTIATED_REPLY_ID");
    assert_eq!(as_reply_id(&"remote".to_string()), "REMOTE_REPLY_ID");
}

#[test]
fn reply_on_exclusion() {
    assert!(ReplyOn::Success.excludes(&ReplyOn::Success));
    assert!(ReplyOn::Success.excludes(&ReplyOn::Always));
    assert!(ReplyOn::Always.excludes(&ReplyOn::Error));
    assert!(!ReplyOn::Success.excludes(&ReplyOn::Error));
    assert!(!ReplyOn::Error.excludes(&ReplyOn::Success));
}

#[test]
fn success_and_error_handlers_share_a_reply_id() {
    let variants = vec![
        handler("on_ok", ReplyOn::Success, &["remote"], vec![field("p", "u32")]),
        handler("on_err", ReplyOn::Error, &["remote"], vec![field("error", "String"), field("p", "u32")]),
    ];
    let (datas, diags) = as_reply_data(&variants);
    assert!(diags.is_empty());
    assert_eq!(datas.len(), 1);
    let d = &datas[0];
    assert_eq!(d.reply_id, "REMOTE_REPLY_ID");
    assert_eq!(d.handlers, vec![(0, ReplyOn::Success), (1, ReplyOn::Error)]);
    assert_eq!(d.payload_from, 0);
    assert_eq!(d.cw_reply_on(), ReplyOn::Always);
    assert_eq!(d.success_handler(), Some((0, ReplyOn::Success)));
    assert_eq!(d.error_handler(), Some((1, ReplyOn::Error)));
}

#[test]
fn duplicated_handler_is_reported() {
    let variants = vec![
        handler("first", ReplyOn::Always, &["remote"], vec![field("r", "R"), field("p", "u32")]),
        handler("second", ReplyOn::Success, &["remote"], vec![field("p", "u32")]),
    ];
    let (datas, diags) = as_reply_data(&variants);
    assert_eq!(datas.len(), 1);
    assert_eq!(datas[0].handlers, vec![(0, ReplyOn::Always)]);
    assert_eq!(
        diags,
        vec![Diag::DuplicatedReplyHandler {
            variant: 1,
            existing_variant: 0,
            existing_reply_on: ReplyOn::Always
        }]
    );
    assert_eq!(datas[0].cw_reply_on(), ReplyOn::Always);
}

#[test]
fn methods_without_handlers_use_their_names() {
    let variants = vec![
        handler("on_a", ReplyOn::Success, &[], vec![field("p", "u32")]),
        handler("on_b", ReplyOn::Error, &[], vec![field("e", "String"), field("p", "u32")]),
    ];
    let (datas, diags) = as_reply_data(&variants);
    assert!(diags.is_empty());
    assert_eq!(datas.len(), 2);
    assert_eq!(datas[0].reply_id, "ON_A_REPLY_ID");
    assert_eq!(datas[0].handler, None);
    assert_eq!(datas[1].reply_id, "ON_B_REPLY_ID");
    assert_eq!(datas[0].cw_reply_on(), ReplyOn::Success);
    assert_eq!(datas[1].cw_reply_on(), ReplyOn::Error);
    assert_eq!(datas[0].error_handler(), None);
    assert_eq!(datas[1].success_handler(), None);
}

#[test]
fn mismatched_payloads_are_reported() {
    let variants = vec![
        handler("on_ok", ReplyOn::Success, &["remote"], vec![field("a", "u32"), field("b", "u64")]),
        handler("on_err", ReplyOn::Error, &["remote"], vec![field("e", "String"), field("a", "String")]),
    ];
    let (datas, diags) = as_reply_data(&variants);
    assert_eq!(datas.len(), 1);
    assert_eq!(datas[0].handlers.len(), 1);
    assert_eq!(
        diags,
        vec![
            Diag::MismatchedParamCount { variant: 0, new_variant: 1 },
            Diag::MismatchedParam { variant: 0, field: 0, new_variant: 1, new_field: 1 },
        ]
    );
}

#[test]
fn data_and_payload_placement() {
    let mut data = field("data", "Option<Binary>");
    data.data = Some(DataAttr { raw: true, opt: true, instantiate: false });
    let mut raw = field("payload", "Binary");
    raw.payload = true;
    let variants = vec![handler("on_ok", ReplyOn::Success, &[], vec![data, raw])];
    let (datas, diags) = as_reply_data(&variants);
    assert!(diags.is_empty());
    assert_eq!(datas[0].data, Some(0));
    assert_eq!(datas[0].payload_from, 1);
    assert!(datas[0].is_payload_marked(&variants));
    assert_eq!(variants[0].fields[0].data_handling(), DataHandling::RawOptional);
    let sylvia = vec![Tok::Ident("sylvia".to_string())];
    assert_eq!(text(&datas[0].emit_payload_deserialization(&variants, &sylvia)), "let payload = payload ;");
    assert_eq!(text(&datas[0].emit_payload_serialization(&variants, &sylvia)), "let payload = payload ;");
}

#[test]
fn payload_serialization_of_plain_parameters() {
    let variants = vec![handler("on_ok", ReplyOn::Success, &[], vec![field("a", "u32"), field("b", "u64")])];
    let (datas, _) = as_reply_data(&variants);
    let sylvia = vec![Tok::Ident("sylvia".to_string())];
    assert_eq!(
        text(&datas[0].emit_payload_deserialization(&variants, &sylvia)),
        "let ( a , b ) = sylvia : : cw_std : : from_json ( & payload ) ? ;"
    );
    assert_eq!(
        text(&datas[0].emit_payload_serialization(&variants, &sylvia)),
        "let payload = sylvia : : cw_std : : to_json_binary ( & ( a , b ) ) ? ;"
    );
}

#[test]
fn misplaced_attributes_are_reported() {
    let mut data = field("data", "Binary");
    data.data = Some(DataAttr { raw: false, opt: false, instantiate: false });
    let variants = vec![
        handler("on_err", ReplyOn::Error, &[], vec![field("e", "String"), data]),
        handler("on_nothing", ReplyOn::Success, &[], vec![]),
    ];
    let (_, diags) = as_reply_data(&variants);
    assert_eq!(
        diags,
        vec![
            Diag::DataNotInSuccess { variant: 0, field: 1 },
            Diag::MissingPayload { variant: 1 },
        ]
    );
    let mut raw = field("raw", "Binary");
    raw.payload = true;
    let variants = vec![handler("on_ok", ReplyOn::Success, &[], vec![raw, field("extra", "u8")])];
    let (_, diags) = as_reply_data(&variants);
    assert_eq!(
        diags,
        vec![Diag::RedundantPayloadAfter { variant: 0, field: 1, payload_field: 0 }]
    );
}

#[test]
fn data_handling_options() {
    let mk = |raw, opt, instantiate| {
        let mut f = field("d", "T");
        f.data = Some(DataAttr { raw, opt, instantiate });
        f.data_handling()
    };
    assert_eq!(mk(true, false, false), DataHandling::RawRequired);
    assert_eq!(mk(false, true, true), DataHandling::InstantiateOptional);
    assert_eq!(mk(false, false, true), DataHandling::InstantiateRequired);
    assert_eq!(mk(false, true, false), DataHandling::ExecuteOptional);
    assert_eq!(mk(false, false, false), DataHandling::ExecuteRequired);
    assert_eq!(field("d", "T").data_handling(), DataHandling::ExecuteRequired);
}

#[test]
fn variant_handlers_pairs() {
    let listed = handler("on_done", ReplyOn::Success, &["first", "second"], vec![]);
    assert_eq!(listed.as_variant_handlers_pair(3), vec![(3, Some(0)), (3, Some(1))]);
    let own = handler("on_done", ReplyOn::Success, &[], vec![]);
    assert_eq!(own.as_variant_handlers_pair(0), vec![(0, None)]);
}

#[test]
fn matching_payloads_join_the_reply_id() {
    let variants = vec![
        handler("on_ok", ReplyOn::Success, &["remote"], vec![field("a", "u32")]),
        handler("on_err", ReplyOn::Error, &["remote"], vec![field("error", "String"), field("b", "u32")]),
    ];
    let (datas, _) = as_reply_data(&variants);
    assert_eq!(datas.len(), 1);
    assert_eq!(datas[0].handlers.len(), 2);
}
