//! The wrapper message of a contract for one kind of message: the enum
//! composing the contract's own messages with the messages of its
//! interfaces, with its schema, its dispatch, its deserialization routed by
//! the message name, and the conversions into it.
use vstd::prelude::*;
use crate::associated_types::{self, comma_join, push_comma_joined, WhereClause, WherePredicateV};
use crate::entry_points::{contract_api_item, push_contract_api_item};
use crate::interfaces::{
    deserialization_attempt, each_with_comma, glue_variant, interfaces_view, messages_call, messages_fn_name,
    push_each_with_comma, response_schemas_call, Interfaces,
};
use crate::msg_type::{self, MsgType};
use crate::mt::{path3, push_path3};
use crate::parser::{self, ContractErrorAttr, ContractMessageAttrV, Custom};
use crate::querier::{self, bracketed_generics, push_concat, where_value};
use crate::reply_emit;
use crate::tokens::{self, Delim, Tok, TokV};

verus! {

/// The nesting depth of angle brackets after the tokens `t`.
pub open spec fn angle_depth(t: Seq<TokV>) -> nat
    decreases t.len(),
{
    if t.len() == 0 {
        0
    } else {
        let d = angle_depth(t.drop_last());
        if t.last() == tokens::pc('<') {
            d + 1
        } else if t.last() == tokens::pc('>') && d > 0 {
            (d - 1) as nat
        } else {
            d
        }
    }
}

/// The type `t` with its generic arguments removed: the tokens that stand
/// outside of angle brackets.
pub open spec fn strip_generics(t: Seq<TokV>) -> Seq<TokV>
    decreases t.len(),
{
    if t.len() == 0 {
        Seq::empty()
    } else if angle_depth(t.drop_last()) == 0 && t.last() != tokens::pc('<') {
        strip_generics(t.drop_last()).push(t.last())
    } else {
        strip_generics(t.drop_last())
    }
}

/// `sylvia :: module :: sub :: item`
pub open spec fn path4(sylvia: Seq<TokV>, module: &str, sub: &str, item: &str) -> Seq<TokV> {
    path3(sylvia, module, sub) + tokens::colon2() + seq![tokens::id(item)]
}

/// The wrapper enum: one variant per interface, then the contract's own variant.
#[verifier::opaque]
pub open spec fn glue_enum(wn: Seq<char>, bg: Seq<TokV>, wh: Seq<TokV>, vs: Seq<TokV>, cname: Seq<TokV>, ca: Seq<TokV>, sylvia: Seq<TokV>) -> Seq<TokV> {
    seq![tokens::pc('#'), TokV::Open(Delim::Bracket), tokens::id("allow"), TokV::Open(Delim::Paren), tokens::id("clippy"), tokens::pc(':'), tokens::pc(':'), tokens::id("derive_partial_eq_without_eq"), TokV::Close(Delim::Paren), TokV::Close(Delim::Bracket), tokens::pc('#'), TokV::Open(Delim::Bracket), tokens::id("derive"), TokV::Open(Delim::Paren)]
        + path3(sylvia, "serde", "Serialize")
        + seq![tokens::pc(','), tokens::id("Clone"), tokens::pc(','), tokens::id("Debug"), tokens::pc(','), tokens::id("PartialEq"), TokV::Close(Delim::Paren), TokV::Close(Delim::Bracket), tokens::pc('#'), TokV::Open(Delim::Bracket), tokens::id("serde"), TokV::Open(Delim::Paren), tokens::id("rename_all"), tokens::pc('='), TokV::Lit("\"snake_case\""@), tokens::pc(','), tokens::id("untagged"), TokV::Close(Delim::Paren), TokV::Close(Delim::Bracket), tokens::id("pub"), tokens::id("enum")]
        + seq![TokV::Ident(wn)]
        + bg
        + wh
        + seq![TokV::Open(Delim::Brace)]
        + vs
        + cname
        + seq![TokV::Open(Delim::Paren)]
        + ca
        + seq![TokV::Close(Delim::Paren), TokV::Close(Delim::Brace)]
}

/// The head of the `JsonSchema` implementation of the wrapper, with `schema_name`.
#[verifier::opaque]
pub open spec fn glue_schema_name(wn: Seq<char>, bg: Seq<TokV>, wh: Seq<TokV>, sylvia: Seq<TokV>) -> Seq<TokV> {
    seq![tokens::id("impl")]
        + bg
        + path3(sylvia, "schemars", "JsonSchema")
        + seq![tokens::id("for")]
        + seq![TokV::Ident(wn)]
        + bg
        + wh
        + seq![TokV::Open(Delim::Brace), tokens::id("fn"), tokens::id("schema_name"), TokV::Open(Delim::Paren), TokV::Close(Delim::Paren), tokens::pc('-'), tokens::pc('>'), tokens::id("std"), tokens::pc(':'), tokens::pc(':'), tokens::id("string"), tokens::pc(':'), tokens::pc(':'), tokens::id("String"), TokV::Open(Delim::Brace), TokV::Open(Delim::Brace), tokens::id("let"), tokens::id("res"), tokens::pc('='), tokens::id("format"), tokens::pc('!'), TokV::Open(Delim::Paren), TokV::Lit("\"{0}\""@), tokens::pc(','), tokens::id("std"), tokens::pc(':'), tokens::pc(':'), tokens::id("any"), tokens::pc(':'), tokens::pc(':'), tokens::id("type_name"), tokens::pc(':'), tokens::pc(':'), tokens::pc('<'), tokens::id("Self"), tokens::pc('>'), TokV::Open(Delim::Paren), TokV::Close(Delim::Paren), TokV::Close(Delim::Paren), tokens::pc(';'), tokens::id("res"), TokV::Close(Delim::Brace), TokV::Close(Delim::Brace)]
}

/// `json_schema`: any of the schemas of the wrapped messages; it closes the `JsonSchema` implementation.
#[verifier::opaque]
pub open spec fn glue_json_schema(subs: Seq<TokV>, ca: Seq<TokV>, sylvia: Seq<TokV>) -> Seq<TokV> {
    seq![tokens::id("fn"), tokens::id("json_schema"), TokV::Open(Delim::Paren), tokens::id("gen"), tokens::pc(':'), tokens::pc('&'), tokens::id("mut")]
        + path4(sylvia, "schemars", "gen", "SchemaGenerator")
        + seq![tokens::pc(','), TokV::Close(Delim::Paren), tokens::pc('-'), tokens::pc('>')]
        + path4(sylvia, "schemars", "schema", "Schema")
        + seq![TokV::Open(Delim::Brace)]
        + path4(sylvia, "schemars", "schema", "Schema")
        + seq![tokens::pc(':'), tokens::pc(':'), tokens::id("Object"), TokV::Open(Delim::Paren)]
        + path4(sylvia, "schemars", "schema", "SchemaObject")
        + seq![TokV::Open(Delim::Brace), tokens::id("subschemas"), tokens::pc(':'), tokens::id("Some"), TokV::Open(Delim::Paren), tokens::id("Box"), tokens::pc(':'), tokens::pc(':'), tokens::id("new"), TokV::Open(Delim::Paren)]
        + path4(sylvia, "schemars", "schema", "SubschemaValidation")
        + seq![TokV::Open(Delim::Brace), tokens::id("any_of"), tokens::pc(':'), tokens::id("Some"), TokV::Open(Delim::Paren), tokens::pc('<'), TokV::Open(Delim::Bracket), tokens::id("_"), TokV::Close(Delim::Bracket), tokens::pc('>'), tokens::pc(':'), tokens::pc(':'), tokens::id("into_vec"), TokV::Open(Delim::Paren), tokens::id("Box"), tokens::pc(':'), tokens::pc(':'), tokens::id("new"), TokV::Open(Delim::Paren), TokV::Open(Delim::Bracket)]
        + subs
        + seq![tokens::id("gen"), tokens::pc('.'), tokens::id("subschema_for"), tokens::pc(':'), tokens::pc(':'), tokens::pc('<')]
        + ca
        + seq![tokens::pc('>'), TokV::Open(Delim::Paren), TokV::Close(Delim::Paren), tokens::pc(','), TokV::Close(Delim::Bracket), TokV::Close(Delim::Paren), tokens::pc(','), TokV::Close(Delim::Paren), tokens::pc(','), TokV::Close(Delim::Paren), tokens::pc(','), tokens::pc('.'), tokens::pc('.'), tokens::id("Default"), tokens::pc(':'), tokens::pc(':'), tokens::id("default"), TokV::Open(Delim::Paren), TokV::Close(Delim::Paren), TokV::Close(Delim::Brace), TokV::Close(Delim::Paren), tokens::pc(','), TokV::Close(Delim::Paren), tokens::pc(','), tokens::pc('.'), tokens::pc('.'), tokens::id("Default"), tokens::pc(':'), tokens::pc(':'), tokens::id("default"), TokV::Open(Delim::Paren), TokV::Close(Delim::Paren), TokV::Close(Delim::Brace), TokV::Close(Delim::Paren), TokV::Close(Delim::Brace), TokV::Close(Delim::Brace)]
}

/// The start of the `dispatch` method of the wrapper: the messages of the interfaces and of the contract must not share a name.
#[verifier::opaque]
pub open spec fn glue_dispatch_head(wn: Seq<char>, bg: Seq<TokV>, wh: Seq<TokV>, contract: Seq<TokV>, ctx: Seq<TokV>, ret: Seq<TokV>, n: nat, calls: Seq<TokV>, sylvia: Seq<TokV>) -> Seq<TokV> {
    seq![tokens::id("impl")]
        + bg
        + seq![TokV::Ident(wn)]
        + bg
        + wh
        + seq![TokV::Open(Delim::Brace), tokens::id("pub"), tokens::id("fn"), tokens::id("dispatch"), TokV::Open(Delim::Paren), tokens::id("self"), tokens::pc(','), tokens::id("contract"), tokens::pc(':'), tokens::pc('&')]
        + contract
        + seq![tokens::pc(','), tokens::id("ctx"), tokens::pc(':')]
        + ctx
        + seq![tokens::pc(','), TokV::Close(Delim::Paren), tokens::pc('-'), tokens::pc('>')]
        + ret
        + wh
        + seq![TokV::Open(Delim::Brace), tokens::id("const"), tokens::id("_"), tokens::pc(':'), TokV::Open(Delim::Paren), TokV::Close(Delim::Paren), tokens::pc('='), TokV::Open(Delim::Brace), tokens::id("let"), tokens::id("msgs"), tokens::pc(':'), TokV::Open(Delim::Bracket), tokens::pc('&'), TokV::Open(Delim::Bracket), tokens::pc('&'), tokens::id("str"), TokV::Close(Delim::Bracket), tokens::pc(';')]
        + seq![TokV::Lit(reply_emit::decimal(n) + "usize"@)]
        + seq![TokV::Close(Delim::Bracket), tokens::pc('='), TokV::Open(Delim::Bracket)]
        + calls
        + seq![TokV::Close(Delim::Bracket), tokens::pc(';')]
        + path3(sylvia, "utils", "assert_no_intersection")
        + seq![TokV::Open(Delim::Paren), tokens::id("msgs"), TokV::Close(Delim::Paren), tokens::pc(';'), TokV::Close(Delim::Brace), tokens::pc(';'), tokens::id("match"), tokens::id("self"), TokV::Open(Delim::Brace)]
}

/// The arm dispatching the contract's own message, closing `dispatch`.
#[verifier::opaque]
pub open spec fn glue_dispatch_tail(wn: Seq<char>, cname: Seq<TokV>) -> Seq<TokV> {
    seq![TokV::Ident(wn)]
        + seq![tokens::pc(':'), tokens::pc(':')]
        + cname
        + seq![TokV::Open(Delim::Paren), tokens::id("msg"), TokV::Close(Delim::Paren), tokens::pc('='), tokens::pc('>'), tokens::id("msg"), tokens::pc('.'), tokens::id("dispatch"), TokV::Open(Delim::Paren), tokens::id("contract"), tokens::pc(','), tokens::id("ctx"), TokV::Close(Delim::Paren), TokV::Close(Delim::Brace), TokV::Close(Delim::Brace), TokV::Close(Delim::Brace)]
}

/// The `QueryResponses` implementation of the wrapper, joining the response schemas of the wrapped messages.
#[verifier::opaque]
pub open spec fn glue_responses(wn: Seq<char>, bg: Seq<TokV>, wh: Seq<TokV>, calls: Seq<TokV>, sylvia: Seq<TokV>) -> Seq<TokV> {
    seq![tokens::pc('#'), TokV::Open(Delim::Bracket), tokens::id("cfg"), TokV::Open(Delim::Paren), tokens::id("not"), TokV::Open(Delim::Paren), tokens::id("target_arch"), tokens::pc('='), TokV::Lit("\"wasm32\""@), TokV::Close(Delim::Paren), TokV::Close(Delim::Paren), TokV::Close(Delim::Bracket), tokens::id("impl")]
        + bg
        + path3(sylvia, "cw_schema", "QueryResponses")
        + seq![tokens::id("for")]
        + seq![TokV::Ident(wn)]
        + bg
        + wh
        + seq![TokV::Open(Delim::Brace), tokens::id("fn"), tokens::id("response_schemas_impl"), TokV::Open(Delim::Paren), TokV::Close(Delim::Paren), tokens::pc('-'), tokens::pc('>'), tokens::id("std"), tokens::pc(':'), tokens::pc(':'), tokens::id("collections"), tokens::pc(':'), tokens::pc(':'), tokens::id("BTreeMap"), tokens::pc('<'), tokens::id("String"), tokens::pc(',')]
        + path4(sylvia, "schemars", "schema", "RootSchema")
        + seq![tokens::pc('>'), TokV::Open(Delim::Brace), tokens::id("let"), tokens::id("responses"), tokens::pc('='), TokV::Open(Delim::Bracket)]
        + calls
        + seq![TokV::Close(Delim::Bracket), tokens::pc(';'), tokens::id("responses"), tokens::pc('.'), tokens::id("into_iter"), TokV::Open(Delim::Paren), TokV::Close(Delim::Paren), tokens::pc('.'), tokens::id("flatten"), TokV::Open(Delim::Paren), TokV::Close(Delim::Paren), tokens::pc('.'), tokens::id("collect"), TokV::Open(Delim::Paren), TokV::Close(Delim::Paren), TokV::Close(Delim::Brace), TokV::Close(Delim::Brace)]
}

/// The attempt to deserialize a received message into the contract's own variant.
#[verifier::opaque]
pub open spec fn contract_attempt(mfn: Seq<char>, cname: Seq<TokV>) -> Seq<TokV> {
    seq![tokens::id("let"), tokens::id("msgs"), tokens::pc('='), tokens::pc('&')]
        + seq![TokV::Ident(mfn)]
        + seq![TokV::Open(Delim::Paren), TokV::Close(Delim::Paren), tokens::pc(';'), tokens::id("if"), tokens::id("msgs"), tokens::pc('.'), tokens::id("into_iter"), TokV::Open(Delim::Paren), TokV::Close(Delim::Paren), tokens::pc('.'), tokens::id("any"), TokV::Open(Delim::Paren), tokens::pc('|'), tokens::id("msg"), tokens::pc('|'), tokens::id("msg"), tokens::pc('='), tokens::pc('='), tokens::pc('&'), tokens::id("recv_msg_name"), TokV::Close(Delim::Paren), TokV::Open(Delim::Brace), tokens::id("match"), tokens::id("val"), tokens::pc('.'), tokens::id("deserialize_into"), TokV::Open(Delim::Paren), TokV::Close(Delim::Paren), TokV::Open(Delim::Brace), tokens::id("Ok"), TokV::Open(Delim::Paren), tokens::id("msg"), TokV::Close(Delim::Paren), tokens::pc('='), tokens::pc('>'), tokens::id("return"), tokens::id("Ok"), TokV::Open(Delim::Paren), tokens::id("Self"), tokens::pc(':'), tokens::pc(':')]
        + cname
        + seq![TokV::Open(Delim::Paren), tokens::id("msg"), TokV::Close(Delim::Paren), TokV::Close(Delim::Paren), tokens::pc(','), tokens::id("Err"), TokV::Open(Delim::Paren), tokens::id("err"), TokV::Close(Delim::Paren), tokens::pc('='), tokens::pc('>'), tokens::id("return"), tokens::id("Err"), TokV::Open(Delim::Paren), tokens::id("D"), tokens::pc(':'), tokens::pc(':'), tokens::id("Error"), tokens::pc(':'), tokens::pc(':'), tokens::id("custom"), TokV::Open(Delim::Paren), tokens::id("err"), TokV::Close(Delim::Paren), TokV::Close(Delim::Paren), tokens::pc('.'), tokens::id("map"), TokV::Open(Delim::Paren), tokens::id("Self"), tokens::pc(':'), tokens::pc(':')]
        + cname
        + seq![TokV::Close(Delim::Paren), TokV::Close(Delim::Brace), tokens::pc(';'), TokV::Close(Delim::Brace)]
}

/// The `Deserialize` implementation of the wrapper: the message is routed by its name to the interface or to the contract listing it, and an unknown name is reported with the names supported.
#[verifier::opaque]
pub open spec fn glue_deserialize(wn: Seq<char>, bg: Seq<TokV>, wh: Seq<TokV>, gsc: Seq<TokV>, attempts: Seq<TokV>, n: nat, calls: Seq<TokV>, sylvia: Seq<TokV>) -> Seq<TokV> {
    seq![tokens::id("impl"), tokens::pc('<'), tokens::pc('\''), tokens::id("sv_de"), tokens::pc(',')]
        + gsc
        + seq![tokens::pc('>'), tokens::id("serde"), tokens::pc(':'), tokens::pc(':'), tokens::id("Deserialize"), tokens::pc('<'), tokens::pc('\''), tokens::id("sv_de"), tokens::pc('>'), tokens::id("for")]
        + seq![TokV::Ident(wn)]
        + bg
        + wh
        + seq![TokV::Open(Delim::Brace), tokens::id("fn"), tokens::id("deserialize"), tokens::pc('<'), tokens::id("D"), tokens::pc('>'), TokV::Open(Delim::Paren), tokens::id("deserializer"), tokens::pc(':'), tokens::id("D"), TokV::Close(Delim::Paren), tokens::pc('-'), tokens::pc('>'), tokens::id("Result"), tokens::pc('<'), tokens::id("Self"), tokens::pc(','), tokens::id("D"), tokens::pc(':'), tokens::pc(':'), tokens::id("Error"), tokens::pc('>'), tokens::id("where"), tokens::id("D"), tokens::pc(':'), tokens::id("serde"), tokens::pc(':'), tokens::pc(':'), tokens::id("Deserializer"), tokens::pc('<'), tokens::pc('\''), tokens::id("sv_de"), tokens::pc('>'), tokens::pc(','), TokV::Open(Delim::Brace), tokens::id("use"), tokens::id("serde"), tokens::pc(':'), tokens::pc(':'), tokens::id("de"), tokens::pc(':'), tokens::pc(':'), tokens::id("Error"), tokens::pc(';'), tokens::id("let"), tokens::id("val"), tokens::pc('=')]
        + path4(sylvia, "serde_value", "Value", "deserialize")
        + seq![TokV::Open(Delim::Paren), tokens::id("deserializer"), TokV::Close(Delim::Paren), tokens::pc('?'), tokens::pc(';'), tokens::id("let"), tokens::id("map"), tokens::pc('='), tokens::id("match"), tokens::pc('&'), tokens::id("val"), TokV::Open(Delim::Brace)]
        + path4(sylvia, "serde_value", "Value", "Map")
        + seq![TokV::Open(Delim::Paren), tokens::id("map"), TokV::Close(Delim::Paren), tokens::pc('='), tokens::pc('>'), tokens::id("map"), tokens::pc(','), tokens::id("_"), tokens::pc('='), tokens::pc('>'), tokens::id("return"), tokens::id("Err"), TokV::Open(Delim::Paren), tokens::id("D"), tokens::pc(':'), tokens::pc(':'), tokens::id("Error"), tokens::pc(':'), tokens::pc(':'), tokens::id("custom"), TokV::Open(Delim::Paren), TokV::Lit("\"Wrong message format!\""@), TokV::Close(Delim::Paren), TokV::Close(Delim::Paren), TokV::Close(Delim::Brace), tokens::pc(';'), tokens::id("if"), tokens::id("map"), tokens::pc('.'), tokens::id("len"), TokV::Open(Delim::Paren), TokV::Close(Delim::Paren), tokens::pc('!'), tokens::pc('='), TokV::Lit("1"@), TokV::Open(Delim::Brace), tokens::id("return"), tokens::id("Err"), TokV::Open(Delim::Paren), tokens::id("D"), tokens::pc(':'), tokens::pc(':'), tokens::id("Error"), tokens::pc(':'), tokens::pc(':'), tokens::id("custom"), TokV::Open(Delim::Paren), tokens::id("format"), tokens::pc('!'), TokV::Open(Delim::Paren), TokV::Lit("\"Expected exactly one message. Received {}\""@), tokens::pc(','), tokens::id("map"), tokens::pc('.'), tokens::id("len"), TokV::Open(Delim::Paren), TokV::Close(Delim::Paren), TokV::Close(Delim::Paren), TokV::Close(Delim::Paren), TokV::Close(Delim::Paren), TokV::Close(Delim::Brace), tokens::id("let"), tokens::id("recv_msg_name"), tokens::pc('='), tokens::id("map"), tokens::pc('.'), tokens::id("into_iter"), TokV::Open(Delim::Paren), TokV::Close(Delim::Paren), tokens::pc('.'), tokens::id("next"), TokV::Open(Delim::Paren), TokV::Close(Delim::Paren), tokens::pc('.'), tokens::id("unwrap"), TokV::Open(Delim::Paren), TokV::Close(Delim::Paren), tokens::pc(';'), tokens::id("if"), tokens::id("let")]
        + path4(sylvia, "serde_value", "Value", "String")
        + seq![TokV::Open(Delim::Paren), tokens::id("recv_msg_name"), TokV::Close(Delim::Paren), tokens::pc('='), tokens::pc('&'), tokens::id("recv_msg_name"), tokens::pc('.'), TokV::Lit("0"@), TokV::Open(Delim::Brace)]
        + attempts
        + seq![TokV::Close(Delim::Brace), tokens::id("let"), tokens::id("msgs"), tokens::pc(':'), TokV::Open(Delim::Bracket), tokens::pc('&'), TokV::Open(Delim::Bracket), tokens::pc('&'), tokens::id("str"), TokV::Close(Delim::Bracket), tokens::pc(';')]
        + seq![TokV::Lit(reply_emit::decimal(n) + "usize"@)]
        + seq![TokV::Close(Delim::Bracket), tokens::pc('='), TokV::Open(Delim::Bracket)]
        + calls
        + seq![TokV::Close(Delim::Bracket), tokens::pc(';'), tokens::id("let"), tokens::id("mut"), tokens::id("err_msg"), tokens::pc('='), tokens::id("msgs"), tokens::pc('.'), tokens::id("into_iter"), TokV::Open(Delim::Paren), TokV::Close(Delim::Paren), tokens::pc('.'), tokens::id("flatten"), TokV::Open(Delim::Paren), TokV::Close(Delim::Paren), tokens::pc('.'), tokens::id("fold"), TokV::Open(Delim::Paren), tokens::id("format"), tokens::pc('!'), TokV::Open(Delim::Paren), TokV::Lit("\"Unsupported message received: {}. Messages supported by this contract: \""@), tokens::pc(',')]
        + path3(sylvia, "serde_json", "to_string")
        + seq![TokV::Open(Delim::Paren), tokens::pc('&'), tokens::id("val"), TokV::Close(Delim::Paren), tokens::pc('.'), tokens::id("unwrap_or_else"), TokV::Open(Delim::Paren), tokens::pc('|'), tokens::id("_"), tokens::pc('|'), tokens::id("String"), tokens::pc(':'), tokens::pc(':'), tokens::id("new"), TokV::Open(Delim::Paren), TokV::Close(Delim::Paren), TokV::Close(Delim::Paren), TokV::Close(Delim::Paren), tokens::pc(','), tokens::pc('|'), tokens::id("mut"), tokens::id("acc"), tokens::pc(','), tokens::id("message"), tokens::pc('|'), tokens::id("acc"), tokens::pc('+'), tokens::id("message"), tokens::pc('+'), TokV::Lit("\", \""@), tokens::pc(','), TokV::Close(Delim::Paren), tokens::pc(';'), tokens::id("err_msg"), tokens::pc('.'), tokens::id("truncate"), TokV::Open(Delim::Paren), tokens::id("err_msg"), tokens::pc('.'), tokens::id("len"), TokV::Open(Delim::Paren), TokV::Close(Delim::Paren), tokens::pc('-'), TokV::Lit("2"@), TokV::Close(Delim::Paren), tokens::pc(';'), tokens::id("Err"), TokV::Open(Delim::Paren), tokens::id("D"), tokens::pc(':'), tokens::pc(':'), tokens::id("Error"), tokens::pc(':'), tokens::pc(':'), tokens::id("custom"), TokV::Open(Delim::Paren), tokens::id("err_msg"), TokV::Close(Delim::Paren), TokV::Close(Delim::Paren), TokV::Close(Delim::Brace), TokV::Close(Delim::Brace)]
}

/// `impl From < source > for Wrapper { fn from ( a : source ) -> Self { Self :: variant ( a ) } }`
#[verifier::opaque]
pub open spec fn glue_from(wn: Seq<char>, bg: Seq<TokV>, wh: Seq<TokV>, src: Seq<TokV>, variant: Seq<TokV>) -> Seq<TokV> {
    seq![tokens::id("impl")]
        + bg
        + seq![tokens::id("From"), tokens::pc('<')]
        + src
        + seq![tokens::pc('>'), tokens::id("for")]
        + seq![TokV::Ident(wn)]
        + bg
        + wh
        + seq![TokV::Open(Delim::Brace), tokens::id("fn"), tokens::id("from"), TokV::Open(Delim::Paren), tokens::id("a"), tokens::pc(':')]
        + src
        + seq![TokV::Close(Delim::Paren), tokens::pc('-'), tokens::pc('>'), tokens::id("Self"), TokV::Open(Delim::Brace), tokens::id("Self"), tokens::pc(':'), tokens::pc(':')]
        + variant
        + seq![TokV::Open(Delim::Paren), tokens::id("a"), TokV::Close(Delim::Paren), TokV::Close(Delim::Brace), TokV::Close(Delim::Brace)]
}

/// The arm dispatching the message of one interface; with a custom message type, the response of an execution or sudo message is converted.
#[verifier::opaque]
pub open spec fn dispatch_arm(wn: Seq<char>, variant: Seq<char>, ctx: Seq<TokV>, sylvia: Seq<TokV>) -> Seq<TokV> {
    seq![TokV::Ident(wn)]
        + seq![tokens::pc(':'), tokens::pc(':')]
        + seq![TokV::Ident(variant)]
        + seq![TokV::Open(Delim::Paren), tokens::id("msg"), TokV::Close(Delim::Paren), tokens::pc('='), tokens::pc('>')]
        + path3(sylvia, "into_response", "IntoResponse")
        + seq![tokens::pc(':'), tokens::pc(':'), tokens::id("into_response"), TokV::Open(Delim::Paren), tokens::id("msg"), tokens::pc('.'), tokens::id("dispatch"), TokV::Open(Delim::Paren), tokens::id("contract"), tokens::pc(','), tokens::id("Into"), tokens::pc(':'), tokens::pc(':'), tokens::id("into"), TokV::Open(Delim::Paren)]
        + ctx
        + seq![TokV::Close(Delim::Paren), TokV::Close(Delim::Paren), tokens::pc('?'), TokV::Close(Delim::Paren)]
}

/// The arm dispatching the message of one interface.
#[verifier::opaque]
pub open spec fn plain_dispatch_arm(wn: Seq<char>, variant: Seq<char>, ctx: Seq<TokV>) -> Seq<TokV> {
    seq![TokV::Ident(wn)]
        + seq![tokens::pc(':'), tokens::pc(':')]
        + seq![TokV::Ident(variant)]
        + seq![TokV::Open(Delim::Paren), tokens::id("msg"), TokV::Close(Delim::Paren), tokens::pc('='), tokens::pc('>'), tokens::id("msg"), tokens::pc('.'), tokens::id("dispatch"), TokV::Open(Delim::Paren), tokens::id("contract"), tokens::pc(','), tokens::id("Into"), tokens::pc(':'), tokens::pc(':'), tokens::id("into"), TokV::Open(Delim::Paren)]
        + ctx
        + seq![TokV::Close(Delim::Paren), TokV::Close(Delim::Paren)]
}

/// The `dispatch` method of the wrapper, with an arm for each wrapped
/// message.
pub open spec fn glue_dispatch(
    wn: Seq<char>,
    bg: Seq<TokV>,
    wh: Seq<TokV>,
    contract: Seq<TokV>,
    ctx: Seq<TokV>,
    ret: Seq<TokV>,
    n: nat,
    calls: Seq<TokV>,
    arms: Seq<TokV>,
    cname: Seq<TokV>,
    sylvia: Seq<TokV>,
) -> Seq<TokV> {
    glue_dispatch_head(wn, bg, wh, contract, ctx, ret, n, calls, sylvia) + arms + glue_dispatch_tail(wn, cname)
}

/// The `JsonSchema` implementation of the wrapper: any of the schemas of the
/// wrapped messages.
pub open spec fn glue_schema(wn: Seq<char>, bg: Seq<TokV>, wh: Seq<TokV>, subs: Seq<TokV>, ca: Seq<TokV>, sylvia: Seq<TokV>) -> Seq<TokV> {
    glue_schema_name(wn, bg, wh, sylvia) + glue_json_schema(subs, ca, sylvia)
}

/// `< contract as module :: sv :: InterfaceMessagesApi > :: acc`
pub open spec fn interface_messages_item(contract: Seq<TokV>, module: Seq<TokV>, acc: Seq<char>) -> Seq<TokV> {
    seq![tokens::pc('<')] + contract + seq![tokens::id("as")] + module + tokens::colon2() + seq![tokens::id("sv")]
        + tokens::colon2() + seq![tokens::id("InterfaceMessagesApi"), tokens::pc('>')] + tokens::colon2() + seq![TokV::Ident(acc)]
}

/// `gen . subschema_for :: < t > ( ) ,`
pub open spec fn subschema(t: Seq<TokV>) -> Seq<TokV> {
    seq![tokens::id("gen"), tokens::pc('.'), tokens::id("subschema_for"), tokens::pc(':'), tokens::pc(':'), tokens::pc('<')] + t + seq![
        tokens::pc('>'),
        TokV::Open(Delim::Paren),
        TokV::Close(Delim::Paren),
        tokens::pc(','),
    ]
}

/// Whether the response of an interface's message of kind `ty` is converted
/// into the contract's response: for executions and sudo messages of an
/// interface with a custom message type.
pub open spec fn converts_response(i: ContractMessageAttrV, ty: MsgType) -> bool {
    (ty == MsgType::Exec || ty == MsgType::Sudo) && i.customs.has_msg
}

/// `ctx`: the context of the wrapper's `dispatch`, handed on to each
/// interface through `Into::into`.
pub open spec fn ctx_arg() -> Seq<TokV> {
    seq![tokens::id("ctx")]
}

/// The arm of the wrapper's `dispatch` for the interface `i`, handing it
/// `Into::into(ctx)`.
pub open spec fn interface_dispatch_arm(wn: Seq<char>, i: ContractMessageAttrV, ty: MsgType, sylvia: Seq<TokV>) -> Seq<TokV> {
    if converts_response(i, ty) {
        dispatch_arm(wn, i.variant, ctx_arg(), sylvia)
    } else {
        plain_dispatch_arm(wn, i.variant, ctx_arg())
    }
}

/// `Wrapper :: variant ( msg ) =>`: the head of the arm for the interface
/// wrapped as `variant`.
pub open spec fn arm_head(wn: Seq<char>, variant: Seq<char>) -> Seq<TokV> {
    seq![TokV::Ident(wn), tokens::pc(':'), tokens::pc(':'), TokV::Ident(variant), TokV::Open(Delim::Paren), tokens::id("msg"), TokV::Close(Delim::Paren), tokens::pc('='), tokens::pc('>')]
}

/// `msg . dispatch ( contract , Into :: into ( ctx ) )`: the interface's own
/// dispatch of its message.
pub open spec fn interface_call() -> Seq<TokV> {
    seq![
        tokens::id("msg"), tokens::pc('.'), tokens::id("dispatch"), TokV::Open(Delim::Paren), tokens::id("contract"), tokens::pc(','),
        tokens::id("Into"), tokens::pc(':'), tokens::pc(':'), tokens::id("into"), TokV::Open(Delim::Paren), tokens::id("ctx"), TokV::Close(Delim::Paren),
        TokV::Close(Delim::Paren),
    ]
}

/// The wrapper's `dispatch` treats an interface's sudo message as its
/// execution message: for an interface with a custom message type, both arms
/// are `Wrapper::variant(msg) => sylvia::into_response::IntoResponse::into_response(msg.dispatch(contract, Into::into(ctx))?)`,
/// the interface's response converted into the contract's; for one without,
/// both are `Wrapper::variant(msg) => msg.dispatch(contract, Into::into(ctx))`.
/// The arms of the other kinds of message never convert the response.
pub proof fn sudo_dispatch_converts_as_exec(wn: Seq<char>, i: ContractMessageAttrV, ty: MsgType, sylvia: Seq<TokV>)
    ensures
        interface_dispatch_arm(wn, i, MsgType::Sudo, sylvia) == interface_dispatch_arm(wn, i, MsgType::Exec, sylvia),
        i.customs.has_msg ==> interface_dispatch_arm(wn, i, MsgType::Sudo, sylvia) == arm_head(wn, i.variant) + sylvia
            + seq![tokens::pc(':'), tokens::pc(':'), tokens::id("into_response"), tokens::pc(':'), tokens::pc(':'), tokens::id("IntoResponse")]
            + seq![tokens::pc(':'), tokens::pc(':'), tokens::id("into_response"), TokV::Open(Delim::Paren)] + interface_call()
            + seq![tokens::pc('?'), TokV::Close(Delim::Paren)],
        !i.customs.has_msg ==> interface_dispatch_arm(wn, i, MsgType::Sudo, sylvia) == arm_head(wn, i.variant) + interface_call(),
        ty != MsgType::Exec && ty != MsgType::Sudo ==> interface_dispatch_arm(wn, i, ty, sylvia) == arm_head(wn, i.variant)
            + interface_call(),
{
    reveal(dispatch_arm);
    reveal(plain_dispatch_arm);
    let h = arm_head(wn, i.variant);
    let c = interface_call();
    assert(plain_dispatch_arm(wn, i.variant, ctx_arg()) =~= h + c);
    assert(dispatch_arm(wn, i.variant, ctx_arg(), sylvia) =~= h + sylvia
        + seq![tokens::pc(':'), tokens::pc(':'), tokens::id("into_response"), tokens::pc(':'), tokens::pc(':'), tokens::id("IntoResponse")]
        + seq![tokens::pc(':'), tokens::pc(':'), tokens::id("into_response"), TokV::Open(Delim::Paren)] + c
        + seq![tokens::pc('?'), TokV::Close(Delim::Paren)]);
}

/// The calls listing the message names of each interface, then the call
/// `& {entry point}_messages ( )` listing the contract's own.
pub open spec fn all_messages_calls(is: Seq<ContractMessageAttrV>, ty: MsgType) -> Seq<Seq<TokV>> {
    Seq::new(is.len(), |k: int| messages_call(is[k].module, messages_fn_name(ty))).push(
        seq![tokens::pc('&'), TokV::Ident(messages_fn_name(ty)), TokV::Open(Delim::Paren), TokV::Close(Delim::Paren)],
    )
}

/// The calls giving the response schemas of each interface, then of the
/// contract.
pub open spec fn all_schemas_calls(is: Seq<ContractMessageAttrV>, ty: MsgType, ca: Seq<TokV>, sylvia: Seq<TokV>) -> Seq<Seq<TokV>> {
    Seq::new(is.len(), |k: int| response_schemas_call(sylvia, is[k], ty)).push(
        ca + tokens::colon2() + seq![tokens::id("response_schemas_impl"), TokV::Open(Delim::Paren), TokV::Close(Delim::Paren)],
    )
}

/// The conversions into the wrapper from the message of each interface.
pub open spec fn interface_froms(
    wn: Seq<char>,
    bg: Seq<TokV>,
    wh: Seq<TokV>,
    contract: Seq<TokV>,
    is: Seq<ContractMessageAttrV>,
    acc: Seq<char>,
) -> Seq<TokV> {
    tokens::concat(
        Seq::new(
            is.len(),
            |k: int| glue_from(wn, bg, wh, interface_messages_item(contract, is[k].module, acc), seq![TokV::Ident(is[k].variant)]),
        ),
    )
}

/// The wrapper enum and its schema.
pub open spec fn glue_part_types(
    wn: Seq<char>,
    bg: Seq<TokV>,
    wh: Seq<TokV>,
    ca: Seq<TokV>,
    cname: Seq<TokV>,
    is: Seq<ContractMessageAttrV>,
    ty: MsgType,
    types: Seq<Seq<TokV>>,
    sylvia: Seq<TokV>,
) -> Seq<TokV> {
    glue_enum(wn, bg, wh, each_with_comma(Seq::new(is.len(), |k: int| glue_variant(sylvia, is[k], ty))), cname, ca, sylvia)
        + glue_schema(wn, bg, wh, tokens::concat(Seq::new(types.len(), |k: int| subschema(types[k]))), ca, sylvia)
}

/// The `dispatch` method of the wrapper, and for queries its response
/// schemas.
pub open spec fn glue_part_dispatch(
    wn: Seq<char>,
    bg: Seq<TokV>,
    wh: Seq<TokV>,
    ca: Seq<TokV>,
    cname: Seq<TokV>,
    contract: Seq<TokV>,
    is: Seq<ContractMessageAttrV>,
    ty: MsgType,
    ctx: Seq<TokV>,
    ret: Seq<TokV>,
    calls: Seq<TokV>,
    sylvia: Seq<TokV>,
) -> Seq<TokV> {
    glue_dispatch(
        wn,
        bg,
        wh,
        contract,
        ctx,
        ret,
        is.len() + 1,
        calls,
        each_with_comma(Seq::new(is.len(), |k: int| interface_dispatch_arm(wn, is[k], ty, sylvia))),
        cname,
        sylvia,
    ) + (if ty == MsgType::Query {
        glue_responses(wn, bg, wh, comma_join(all_schemas_calls(is, ty, ca, sylvia)), sylvia)
    } else {
        Seq::empty()
    })
}

/// The deserialization of the wrapper and the conversions into it.
pub open spec fn glue_part_conversions(
    wn: Seq<char>,
    gs: Seq<Seq<TokV>>,
    bg: Seq<TokV>,
    wh: Seq<TokV>,
    ca: Seq<TokV>,
    cname: Seq<TokV>,
    contract: Seq<TokV>,
    is: Seq<ContractMessageAttrV>,
    ty: MsgType,
    calls: Seq<TokV>,
    sylvia: Seq<TokV>,
) -> Seq<TokV> {
    glue_deserialize(
        wn,
        bg,
        wh,
        each_with_comma(gs),
        tokens::concat(Seq::new(is.len(), |k: int| deserialization_attempt(is[k], ty))) + contract_attempt(messages_fn_name(ty), cname),
        is.len() + 1,
        calls,
        sylvia,
    ) + glue_from(wn, bg, wh, ca, cname) + interface_froms(wn, bg, wh, contract, is, msg_type::accessor_name(ty, false))
}

/// The wrapper message `wn` of kind `ty` of the contract `contract`, whose
/// implementation has the generic parameters `gs` and the where clause `w`,
/// over its interfaces `is`; `types` are the message types of the interfaces
/// as the schema lists them.
pub open spec fn glue_tokens(
    wn: Seq<char>,
    gs: Seq<Seq<TokV>>,
    w: Option<(Seq<WherePredicateV>, bool)>,
    contract: Seq<TokV>,
    ty: MsgType,
    is: Seq<ContractMessageAttrV>,
    types: Seq<Seq<TokV>>,
    custom_msg: Seq<TokV>,
    custom_query: Seq<TokV>,
    err: Seq<TokV>,
    sylvia: Seq<TokV>,
) -> Seq<TokV> {
    let bg = bracketed_generics(gs);
    let wh = associated_types::opt_where_tokens(w);
    let ca = contract_api_item(sylvia, contract, msg_type::accessor_name(ty, false));
    let cname = strip_generics(contract);
    let calls = comma_join(all_messages_calls(is, ty));
    glue_part_types(wn, bg, wh, ca, cname, is, ty, types, sylvia) + glue_part_dispatch(
        wn,
        bg,
        wh,
        ca,
        cname,
        contract,
        is,
        ty,
        msg_type::ctx_type(ty, sylvia, custom_query),
        msg_type::result_type(ty, sylvia, custom_msg, err),
        calls,
        sylvia,
    ) + glue_part_conversions(wn, gs, bg, wh, ca, cname, contract, is, ty, calls, sylvia)
}

/// Each of the sequences occurs in their listing with commas.
proof fn lemma_each_with_comma_part(gs: Seq<Seq<TokV>>, k: int)
    requires
        0 <= k < gs.len(),
    ensures
        tokens::is_infix(gs[k], each_with_comma(gs)),
    decreases gs.len(),
{
    if k == gs.len() - 1 {
        let o = each_with_comma(gs.drop_last()).len() as int;
        assert(each_with_comma(gs).subrange(o, o + gs[k].len()) =~= gs[k]);
    } else {
        lemma_each_with_comma_part(gs.drop_last(), k);
        tokens::lemma_infix_within(gs[k], each_with_comma(gs.drop_last()), Seq::empty(), gs.last() + seq![tokens::pc(',')]);
        assert(Seq::<TokV>::empty() + each_with_comma(gs.drop_last()) + (gs.last() + seq![tokens::pc(',')]) =~= each_with_comma(gs));
    }
}

/// The wrapper message of a contract covers each of its interfaces: it
/// converts from the interface's message, and its `dispatch` has an arm
/// handing that message to the interface.
pub proof fn glue_covers_each_interface(
    wn: Seq<char>,
    gs: Seq<Seq<TokV>>,
    w: Option<(Seq<WherePredicateV>, bool)>,
    contract: Seq<TokV>,
    ty: MsgType,
    is: Seq<ContractMessageAttrV>,
    types: Seq<Seq<TokV>>,
    custom_msg: Seq<TokV>,
    custom_query: Seq<TokV>,
    err: Seq<TokV>,
    sylvia: Seq<TokV>,
    k: int,
)
    requires
        0 <= k < is.len(),
    ensures
        tokens::is_infix(
            glue_from(
                wn,
                bracketed_generics(gs),
                associated_types::opt_where_tokens(w),
                interface_messages_item(contract, is[k].module, msg_type::accessor_name(ty, false)),
                seq![TokV::Ident(is[k].variant)],
            ),
            glue_tokens(wn, gs, w, contract, ty, is, types, custom_msg, custom_query, err, sylvia),
        ),
        tokens::is_infix(
            interface_dispatch_arm(wn, is[k], ty, sylvia),
            glue_tokens(wn, gs, w, contract, ty, is, types, custom_msg, custom_query, err, sylvia),
        ),
{
    let bg = bracketed_generics(gs);
    let wh = associated_types::opt_where_tokens(w);
    let acc = msg_type::accessor_name(ty, false);
    let ca = contract_api_item(sylvia, contract, acc);
    let cname = strip_generics(contract);
    let calls = comma_join(all_messages_calls(is, ty));
    let ctx = msg_type::ctx_type(ty, sylvia, custom_query);
    let ret = msg_type::result_type(ty, sylvia, custom_msg, err);
    let t = glue_tokens(wn, gs, w, contract, ty, is, types, custom_msg, custom_query, err, sylvia);
    let p1 = glue_part_types(wn, bg, wh, ca, cname, is, ty, types, sylvia);
    let p2 = glue_part_dispatch(wn, bg, wh, ca, cname, contract, is, ty, ctx, ret, calls, sylvia);

    let fs = Seq::new(
        is.len(),
        |q: int| glue_from(wn, bg, wh, interface_messages_item(contract, is[q].module, acc), seq![TokV::Ident(is[q].variant)]),
    );
    tokens::lemma_concat_part(fs, k);
    let before = p1 + p2 + glue_deserialize(
        wn,
        bg,
        wh,
        each_with_comma(gs),
        tokens::concat(Seq::new(is.len(), |q: int| deserialization_attempt(is[q], ty))) + contract_attempt(messages_fn_name(ty), cname),
        is.len() + 1,
        calls,
        sylvia,
    ) + glue_from(wn, bg, wh, ca, cname);
    tokens::lemma_infix_within(fs[k], tokens::concat(fs), before, Seq::empty());
    assert(before + tokens::concat(fs) + Seq::<TokV>::empty() =~= t);

    let arms = Seq::new(is.len(), |q: int| interface_dispatch_arm(wn, is[q], ty, sylvia));
    lemma_each_with_comma_part(arms, k);
    let head = glue_dispatch_head(wn, bg, wh, contract, ctx, ret, is.len() + 1, calls, sylvia);
    let rest = glue_dispatch_tail(wn, cname) + (if ty == MsgType::Query {
        glue_responses(wn, bg, wh, comma_join(all_schemas_calls(is, ty, ca, sylvia)), sylvia)
    } else {
        Seq::empty()
    }) + glue_part_conversions(wn, gs, bg, wh, ca, cname, contract, is, ty, calls, sylvia);
    tokens::lemma_infix_within(arms[k], each_with_comma(arms), p1 + head, rest);
    assert(p1 + head + each_with_comma(arms) + rest =~= t);
}

pub(crate) fn push_path4(dst: &mut Vec<Tok>, sylvia: &Vec<Tok>, module: &str, sub: &str, item: &str)
    ensures
        tokens::toks(final(dst)@) == tokens::toks(old(dst)@) + path4(tokens::toks(sylvia@), module, sub, item),
{
    push_path3(dst, sylvia, module, sub);
    tokens::push_punct(dst, ':');
    tokens::push_punct(dst, ':');
    tokens::push_ident(dst, item);
    assert(tokens::toks(dst@) =~= tokens::toks(old(dst)@) + path4(tokens::toks(sylvia@), module, sub, item));
}

fn glue_enum_exec(wn: &String, bg: &Vec<Tok>, wh: &Vec<Tok>, vs: &Vec<Tok>, cname: &Vec<Tok>, ca: &Vec<Tok>, sylvia: &Vec<Tok>) -> (r: Vec<Tok>)
    ensures
        tokens::toks(r@) == glue_enum(wn@, tokens::toks(bg@), tokens::toks(wh@), tokens::toks(vs@), tokens::toks(cname@), tokens::toks(ca@), tokens::toks(sylvia@)),
{
    proof {
        reveal(glue_enum);
    }
    let mut r: Vec<Tok> = Vec::new();
    let k1: Vec<Tok> = vec![Tok::Punct('#'), Tok::Open(Delim::Bracket), Tok::ident("allow"), Tok::Open(Delim::Paren), Tok::ident("clippy"), Tok::Punct(':'), Tok::Punct(':'), Tok::ident("derive_partial_eq_without_eq"), Tok::Close(Delim::Paren), Tok::Close(Delim::Bracket), Tok::Punct('#'), Tok::Open(Delim::Bracket), Tok::ident("derive"), Tok::Open(Delim::Paren)];
    assert(tokens::toks(k1@) =~= seq![tokens::pc('#'), TokV::Open(Delim::Bracket), tokens::id("allow"), TokV::Open(Delim::Paren), tokens::id("clippy"), tokens::pc(':'), tokens::pc(':'), tokens::id("derive_partial_eq_without_eq"), TokV::Close(Delim::Paren), TokV::Close(Delim::Bracket), tokens::pc('#'), TokV::Open(Delim::Bracket), tokens::id("derive"), TokV::Open(Delim::Paren)]);
    tokens::extend_toks(&mut r, &k1);
    push_path3(&mut r, sylvia, "serde", "Serialize");
    let k2: Vec<Tok> = vec![Tok::Punct(','), Tok::ident("Clone"), Tok::Punct(','), Tok::ident("Debug"), Tok::Punct(','), Tok::ident("PartialEq"), Tok::Close(Delim::Paren), Tok::Close(Delim::Bracket), Tok::Punct('#'), Tok::Open(Delim::Bracket), Tok::ident("serde"), Tok::Open(Delim::Paren), Tok::ident("rename_all"), Tok::Punct('='), Tok::Lit(String::from_str("\"snake_case\"")), Tok::Punct(','), Tok::ident("untagged"), Tok::Close(Delim::Paren), Tok::Close(Delim::Bracket), Tok::ident("pub"), Tok::ident("enum")];
    assert(tokens::toks(k2@) =~= seq![tokens::pc(','), tokens::id("Clone"), tokens::pc(','), tokens::id("Debug"), tokens::pc(','), tokens::id("PartialEq"), TokV::Close(Delim::Paren), TokV::Close(Delim::Bracket), tokens::pc('#'), TokV::Open(Delim::Bracket), tokens::id("serde"), TokV::Open(Delim::Paren), tokens::id("rename_all"), tokens::pc('='), TokV::Lit("\"snake_case\""@), tokens::pc(','), tokens::id("untagged"), TokV::Close(Delim::Paren), TokV::Close(Delim::Bracket), tokens::id("pub"), tokens::id("enum")]);
    tokens::extend_toks(&mut r, &k2);
    tokens::push_tok(&mut r, Tok::Ident(wn.clone()));
    tokens::extend_toks(&mut r, bg);
    tokens::extend_toks(&mut r, wh);
    let k3: Vec<Tok> = vec![Tok::Open(Delim::Brace)];
    assert(tokens::toks(k3@) =~= seq![TokV::Open(Delim::Brace)]);
    tokens::extend_toks(&mut r, &k3);
    tokens::extend_toks(&mut r, vs);
    tokens::extend_toks(&mut r, cname);
    let k4: Vec<Tok> = vec![Tok::Open(Delim::Paren)];
    assert(tokens::toks(k4@) =~= seq![TokV::Open(Delim::Paren)]);
    tokens::extend_toks(&mut r, &k4);
    tokens::extend_toks(&mut r, ca);
    let k5: Vec<Tok> = vec![Tok::Close(Delim::Paren), Tok::Close(Delim::Brace)];
    assert(tokens::toks(k5@) =~= seq![TokV::Close(Delim::Paren), TokV::Close(Delim::Brace)]);
    tokens::extend_toks(&mut r, &k5);
    assert(tokens::toks(r@) =~= glue_enum(wn@, tokens::toks(bg@), tokens::toks(wh@), tokens::toks(vs@), tokens::toks(cname@), tokens::toks(ca@), tokens::toks(sylvia@)));
    r
}

fn glue_schema_name_exec(wn: &String, bg: &Vec<Tok>, wh: &Vec<Tok>, sylvia: &Vec<Tok>) -> (r: Vec<Tok>)
    ensures
        tokens::toks(r@) == glue_schema_name(wn@, tokens::toks(bg@), tokens::toks(wh@), tokens::toks(sylvia@)),
{
    proof {
        reveal(glue_schema_name);
    }
    let mut r: Vec<Tok> = Vec::new();
    let k1: Vec<Tok> = vec![Tok::ident("impl")];
    assert(tokens::toks(k1@) =~= seq![tokens::id("impl")]);
    tokens::extend_toks(&mut r, &k1);
    tokens::extend_toks(&mut r, bg);
    push_path3(&mut r, sylvia, "schemars", "JsonSchema");
    let k2: Vec<Tok> = vec![Tok::ident("for")];
    assert(tokens::toks(k2@) =~= seq![tokens::id("for")]);
    tokens::extend_toks(&mut r, &k2);
    tokens::push_tok(&mut r, Tok::Ident(wn.clone()));
    tokens::extend_toks(&mut r, bg);
    tokens::extend_toks(&mut r, wh);
    let k3: Vec<Tok> = vec![Tok::Open(Delim::Brace), Tok::ident("fn"), Tok::ident("schema_name"), Tok::Open(Delim::Paren), Tok::Close(Delim::Paren), Tok::Punct('-'), Tok::Punct('>'), Tok::ident("std"), Tok::Punct(':'), Tok::Punct(':'), Tok::ident("string"), Tok::Punct(':'), Tok::Punct(':'), Tok::ident("String"), Tok::Open(Delim::Brace), Tok::Open(Delim::Brace), Tok::ident("let"), Tok::ident("res"), Tok::Punct('='), Tok::ident("format"), Tok::Punct('!'), Tok::Open(Delim::Paren), Tok::Lit(String::from_str("\"{0}\"")), Tok::Punct(','), Tok::ident("std"), Tok::Punct(':'), Tok::Punct(':'), Tok::ident("any"), Tok::Punct(':'), Tok::Punct(':'), Tok::ident("type_name"), Tok::Punct(':'), Tok::Punct(':'), Tok::Punct('<'), Tok::ident("Self"), Tok::Punct('>'), Tok::Open(Delim::Paren), Tok::Close(Delim::Paren), Tok::Close(Delim::Paren), Tok::Punct(';'), Tok::ident("res"), Tok::Close(Delim::Brace), Tok::Close(Delim::Brace)];
    assert(tokens::toks(k3@) =~= seq![TokV::Open(Delim::Brace), tokens::id("fn"), tokens::id("schema_name"), TokV::Open(Delim::Paren), TokV::Close(Delim::Paren), tokens::pc('-'), tokens::pc('>'), tokens::id("std"), tokens::pc(':'), tokens::pc(':'), tokens::id("string"), tokens::pc(':'), tokens::pc(':'), tokens::id("String"), TokV::Open(Delim::Brace), TokV::Open(Delim::Brace), tokens::id("let"), tokens::id("res"), tokens::pc('='), tokens::id("format"), tokens::pc('!'), TokV::Open(Delim::Paren), TokV::Lit("\"{0}\""@), tokens::pc(','), tokens::id("std"), tokens::pc(':'), tokens::pc(':'), tokens::id("any"), tokens::pc(':'), tokens::pc(':'), tokens::id("type_name"), tokens::pc(':'), tokens::pc(':'), tokens::pc('<'), tokens::id("Self"), tokens::pc('>'), TokV::Open(Delim::Paren), TokV::Close(Delim::Paren), TokV::Close(Delim::Paren), tokens::pc(';'), tokens::id("res"), TokV::Close(Delim::Brace), TokV::Close(Delim::Brace)]);
    tokens::extend_toks(&mut r, &k3);
    assert(tokens::toks(r@) =~= glue_schema_name(wn@, tokens::toks(bg@), tokens::toks(wh@), tokens::toks(sylvia@)));
    r
}

fn glue_json_schema_exec(subs: &Vec<Tok>, ca: &Vec<Tok>, sylvia: &Vec<Tok>) -> (r: Vec<Tok>)
    ensures
        tokens::toks(r@) == glue_json_schema(tokens::toks(subs@), tokens::toks(ca@), tokens::toks(sylvia@)),
{
    proof {
        reveal(glue_json_schema);
    }
    let mut r: Vec<Tok> = Vec::new();
    let k1: Vec<Tok> = vec![Tok::ident("fn"), Tok::ident("json_schema"), Tok::Open(Delim::Paren), Tok::ident("gen"), Tok::Punct(':'), Tok::Punct('&'), Tok::ident("mut")];
    assert(tokens::toks(k1@) =~= seq![tokens::id("fn"), tokens::id("json_schema"), TokV::Open(Delim::Paren), tokens::id("gen"), tokens::pc(':'), tokens::pc('&'), tokens::id("mut")]);
    tokens::extend_toks(&mut r, &k1);
    push_path4(&mut r, sylvia, "schemars", "gen", "SchemaGenerator");
    let k2: Vec<Tok> = vec![Tok::Punct(','), Tok::Close(Delim::Paren), Tok::Punct('-'), Tok::Punct('>')];
    assert(tokens::toks(k2@) =~= seq![tokens::pc(','), TokV::Close(Delim::Paren), tokens::pc('-'), tokens::pc('>')]);
    tokens::extend_toks(&mut r, &k2);
    push_path4(&mut r, sylvia, "schemars", "schema", "Schema");
    let k3: Vec<Tok> = vec![Tok::Open(Delim::Brace)];
    assert(tokens::toks(k3@) =~= seq![TokV::Open(Delim::Brace)]);
    tokens::extend_toks(&mut r, &k3);
    push_path4(&mut r, sylvia, "schemars", "schema", "Schema");
    let k4: Vec<Tok> = vec![Tok::Punct(':'), Tok::Punct(':'), Tok::ident("Object"), Tok::Open(Delim::Paren)];
    assert(tokens::toks(k4@) =~= seq![tokens::pc(':'), tokens::pc(':'), tokens::id("Object"), TokV::Open(Delim::Paren)]);
    tokens::extend_toks(&mut r, &k4);
    push_path4(&mut r, sylvia, "schemars", "schema", "SchemaObject");
    let k5: Vec<Tok> = vec![Tok::Open(Delim::Brace), Tok::ident("subschemas"), Tok::Punct(':'), Tok::ident("Some"), Tok::Open(Delim::Paren), Tok::ident("Box"), Tok::Punct(':'), Tok::Punct(':'), Tok::ident("new"), Tok::Open(Delim::Paren)];
    assert(tokens::toks(k5@) =~= seq![TokV::Open(Delim::Brace), tokens::id("subschemas"), tokens::pc(':'), tokens::id("Some"), TokV::Open(Delim::Paren), tokens::id("Box"), tokens::pc(':'), tokens::pc(':'), tokens::id("new"), TokV::Open(Delim::Paren)]);
    tokens::extend_toks(&mut r, &k5);
    push_path4(&mut r, sylvia, "schemars", "schema", "SubschemaValidation");
    let k6: Vec<Tok> = vec![Tok::Open(Delim::Brace), Tok::ident("any_of"), Tok::Punct(':'), Tok::ident("Some"), Tok::Open(Delim::Paren), Tok::Punct('<'), Tok::Open(Delim::Bracket), Tok::ident("_"), Tok::Close(Delim::Bracket), Tok::Punct('>'), Tok::Punct(':'), Tok::Punct(':'), Tok::ident("into_vec"), Tok::Open(Delim::Paren), Tok::ident("Box"), Tok::Punct(':'), Tok::Punct(':'), Tok::ident("new"), Tok::Open(Delim::Paren), Tok::Open(Delim::Bracket)];
    assert(tokens::toks(k6@) =~= seq![TokV::Open(Delim::Brace), tokens::id("any_of"), tokens::pc(':'), tokens::id("Some"), TokV::Open(Delim::Paren), tokens::pc('<'), TokV::Open(Delim::Bracket), tokens::id("_"), TokV::Close(Delim::Bracket), tokens::pc('>'), tokens::pc(':'), tokens::pc(':'), tokens::id("into_vec"), TokV::Open(Delim::Paren), tokens::id("Box"), tokens::pc(':'), tokens::pc(':'), tokens::id("new"), TokV::Open(Delim::Paren), TokV::Open(Delim::Bracket)]);
    tokens::extend_toks(&mut r, &k6);
    tokens::extend_toks(&mut r, subs);
    let k7: Vec<Tok> = vec![Tok::ident("gen"), Tok::Punct('.'), Tok::ident("subschema_for"), Tok::Punct(':'), Tok::Punct(':'), Tok::Punct('<')];
    assert(tokens::toks(k7@) =~= seq![tokens::id("gen"), tokens::pc('.'), tokens::id("subschema_for"), tokens::pc(':'), tokens::pc(':'), tokens::pc('<')]);
    tokens::extend_toks(&mut r, &k7);
    tokens::extend_toks(&mut r, ca);
    let k8: Vec<Tok> = vec![Tok::Punct('>'), Tok::Open(Delim::Paren), Tok::Close(Delim::Paren), Tok::Punct(','), Tok::Close(Delim::Bracket), Tok::Close(Delim::Paren), Tok::Punct(','), Tok::Close(Delim::Paren), Tok::Punct(','), Tok::Close(Delim::Paren), Tok::Punct(','), Tok::Punct('.'), Tok::Punct('.'), Tok::ident("Default"), Tok::Punct(':'), Tok::Punct(':'), Tok::ident("default"), Tok::Open(Delim::Paren), Tok::Close(Delim::Paren), Tok::Close(Delim::Brace), Tok::Close(Delim::Paren), Tok::Punct(','), Tok::Close(Delim::Paren), Tok::Punct(','), Tok::Punct('.'), Tok::Punct('.'), Tok::ident("Default"), Tok::Punct(':'), Tok::Punct(':'), Tok::ident("default"), Tok::Open(Delim::Paren), Tok::Close(Delim::Paren), Tok::Close(Delim::Brace), Tok::Close(Delim::Paren), Tok::Close(Delim::Brace), Tok::Close(Delim::Brace)];
    assert(tokens::toks(k8@) =~= seq![tokens::pc('>'), TokV::Open(Delim::Paren), TokV::Close(Delim::Paren), tokens::pc(','), TokV::Close(Delim::Bracket), TokV::Close(Delim::Paren), tokens::pc(','), TokV::Close(Delim::Paren), tokens::pc(','), TokV::Close(Delim::Paren), tokens::pc(','), tokens::pc('.'), tokens::pc('.'), tokens::id("Default"), tokens::pc(':'), tokens::pc(':'), tokens::id("default"), TokV::Open(Delim::Paren), TokV::Close(Delim::Paren), TokV::Close(Delim::Brace), TokV::Close(Delim::Paren), tokens::pc(','), TokV::Close(Delim::Paren), tokens::pc(','), tokens::pc('.'), tokens::pc('.'), tokens::id("Default"), tokens::pc(':'), tokens::pc(':'), tokens::id("default"), TokV::Open(Delim::Paren), TokV::Close(Delim::Paren), TokV::Close(Delim::Brace), TokV::Close(Delim::Paren), TokV::Close(Delim::Brace), TokV::Close(Delim::Brace)]);
    tokens::extend_toks(&mut r, &k8);
    assert(tokens::toks(r@) =~= glue_json_schema(tokens::toks(subs@), tokens::toks(ca@), tokens::toks(sylvia@)));
    r
}

fn glue_dispatch_head_exec(wn: &String, bg: &Vec<Tok>, wh: &Vec<Tok>, contract: &Vec<Tok>, ctx: &Vec<Tok>, ret: &Vec<Tok>, n: u64, calls: &Vec<Tok>, sylvia: &Vec<Tok>) -> (r: Vec<Tok>)
    ensures
        tokens::toks(r@) == glue_dispatch_head(wn@, tokens::toks(bg@), tokens::toks(wh@), tokens::toks(contract@), tokens::toks(ctx@), tokens::toks(ret@), n as nat, tokens::toks(calls@), tokens::toks(sylvia@)),
{
    proof {
        reveal(glue_dispatch_head);
    }
    let mut r: Vec<Tok> = Vec::new();
    let k1: Vec<Tok> = vec![Tok::ident("impl")];
    assert(tokens::toks(k1@) =~= seq![tokens::id("impl")]);
    tokens::extend_toks(&mut r, &k1);
    tokens::extend_toks(&mut r, bg);
    tokens::push_tok(&mut r, Tok::Ident(wn.clone()));
    tokens::extend_toks(&mut r, bg);
    tokens::extend_toks(&mut r, wh);
    let k2: Vec<Tok> = vec![Tok::Open(Delim::Brace), Tok::ident("pub"), Tok::ident("fn"), Tok::ident("dispatch"), Tok::Open(Delim::Paren), Tok::ident("self"), Tok::Punct(','), Tok::ident("contract"), Tok::Punct(':'), Tok::Punct('&')];
    assert(tokens::toks(k2@) =~= seq![TokV::Open(Delim::Brace), tokens::id("pub"), tokens::id("fn"), tokens::id("dispatch"), TokV::Open(Delim::Paren), tokens::id("self"), tokens::pc(','), tokens::id("contract"), tokens::pc(':'), tokens::pc('&')]);
    tokens::extend_toks(&mut r, &k2);
    tokens::extend_toks(&mut r, contract);
    let k3: Vec<Tok> = vec![Tok::Punct(','), Tok::ident("ctx"), Tok::Punct(':')];
    assert(tokens::toks(k3@) =~= seq![tokens::pc(','), tokens::id("ctx"), tokens::pc(':')]);
    tokens::extend_toks(&mut r, &k3);
    tokens::extend_toks(&mut r, ctx);
    let k4: Vec<Tok> = vec![Tok::Punct(','), Tok::Close(Delim::Paren), Tok::Punct('-'), Tok::Punct('>')];
    assert(tokens::toks(k4@) =~= seq![tokens::pc(','), TokV::Close(Delim::Paren), tokens::pc('-'), tokens::pc('>')]);
    tokens::extend_toks(&mut r, &k4);
    tokens::extend_toks(&mut r, ret);
    tokens::extend_toks(&mut r, wh);
    let k5: Vec<Tok> = vec![Tok::Open(Delim::Brace), Tok::ident("const"), Tok::ident("_"), Tok::Punct(':'), Tok::Open(Delim::Paren), Tok::Close(Delim::Paren), Tok::Punct('='), Tok::Open(Delim::Brace), Tok::ident("let"), Tok::ident("msgs"), Tok::Punct(':'), Tok::Open(Delim::Bracket), Tok::Punct('&'), Tok::Open(Delim::Bracket), Tok::Punct('&'), Tok::ident("str"), Tok::Close(Delim::Bracket), Tok::Punct(';')];
    assert(tokens::toks(k5@) =~= seq![TokV::Open(Delim::Brace), tokens::id("const"), tokens::id("_"), tokens::pc(':'), TokV::Open(Delim::Paren), TokV::Close(Delim::Paren), tokens::pc('='), TokV::Open(Delim::Brace), tokens::id("let"), tokens::id("msgs"), tokens::pc(':'), TokV::Open(Delim::Bracket), tokens::pc('&'), TokV::Open(Delim::Bracket), tokens::pc('&'), tokens::id("str"), TokV::Close(Delim::Bracket), tokens::pc(';')]);
    tokens::extend_toks(&mut r, &k5);
    tokens::push_tok(&mut r, usize_lit(n));
    let k6: Vec<Tok> = vec![Tok::Close(Delim::Bracket), Tok::Punct('='), Tok::Open(Delim::Bracket)];
    assert(tokens::toks(k6@) =~= seq![TokV::Close(Delim::Bracket), tokens::pc('='), TokV::Open(Delim::Bracket)]);
    tokens::extend_toks(&mut r, &k6);
    tokens::extend_toks(&mut r, calls);
    let k7: Vec<Tok> = vec![Tok::Close(Delim::Bracket), Tok::Punct(';')];
    assert(tokens::toks(k7@) =~= seq![TokV::Close(Delim::Bracket), tokens::pc(';')]);
    tokens::extend_toks(&mut r, &k7);
    push_path3(&mut r, sylvia, "utils", "assert_no_intersection");
    let k8: Vec<Tok> = vec![Tok::Open(Delim::Paren), Tok::ident("msgs"), Tok::Close(Delim::Paren), Tok::Punct(';'), Tok::Close(Delim::Brace), Tok::Punct(';'), Tok::ident("match"), Tok::ident("self"), Tok::Open(Delim::Brace)];
    assert(tokens::toks(k8@) =~= seq![TokV::Open(Delim::Paren), tokens::id("msgs"), TokV::Close(Delim::Paren), tokens::pc(';'), TokV::Close(Delim::Brace), tokens::pc(';'), tokens::id("match"), tokens::id("self"), TokV::Open(Delim::Brace)]);
    tokens::extend_toks(&mut r, &k8);
    assert(tokens::toks(r@) =~= glue_dispatch_head(wn@, tokens::toks(bg@), tokens::toks(wh@), tokens::toks(contract@), tokens::toks(ctx@), tokens::toks(ret@), n as nat, tokens::toks(calls@), tokens::toks(sylvia@)));
    r
}

fn glue_dispatch_tail_exec(wn: &String, cname: &Vec<Tok>) -> (r: Vec<Tok>)
    ensures
        tokens::toks(r@) == glue_dispatch_tail(wn@, tokens::toks(cname@)),
{
    proof {
        reveal(glue_dispatch_tail);
    }
    let mut r: Vec<Tok> = Vec::new();
    tokens::push_tok(&mut r, Tok::Ident(wn.clone()));
    let k1: Vec<Tok> = vec![Tok::Punct(':'), Tok::Punct(':')];
    assert(tokens::toks(k1@) =~= seq![tokens::pc(':'), tokens::pc(':')]);
    tokens::extend_toks(&mut r, &k1);
    tokens::extend_toks(&mut r, cname);
    let k2: Vec<Tok> = vec![Tok::Open(Delim::Paren), Tok::ident("msg"), Tok::Close(Delim::Paren), Tok::Punct('='), Tok::Punct('>'), Tok::ident("msg"), Tok::Punct('.'), Tok::ident("dispatch"), Tok::Open(Delim::Paren), Tok::ident("contract"), Tok::Punct(','), Tok::ident("ctx"), Tok::Close(Delim::Paren), Tok::Close(Delim::Brace), Tok::Close(Delim::Brace), Tok::Close(Delim::Brace)];
    assert(tokens::toks(k2@) =~= seq![TokV::Open(Delim::Paren), tokens::id("msg"), TokV::Close(Delim::Paren), tokens::pc('='), tokens::pc('>'), tokens::id("msg"), tokens::pc('.'), tokens::id("dispatch"), TokV::Open(Delim::Paren), tokens::id("contract"), tokens::pc(','), tokens::id("ctx"), TokV::Close(Delim::Paren), TokV::Close(Delim::Brace), TokV::Close(Delim::Brace), TokV::Close(Delim::Brace)]);
    tokens::extend_toks(&mut r, &k2);
    assert(tokens::toks(r@) =~= glue_dispatch_tail(wn@, tokens::toks(cname@)));
    r
}

fn glue_responses_exec(wn: &String, bg: &Vec<Tok>, wh: &Vec<Tok>, calls: &Vec<Tok>, sylvia: &Vec<Tok>) -> (r: Vec<Tok>)
    ensures
        tokens::toks(r@) == glue_responses(wn@, tokens::toks(bg@), tokens::toks(wh@), tokens::toks(calls@), tokens::toks(sylvia@)),
{
    proof {
        reveal(glue_responses);
    }
    let mut r: Vec<Tok> = Vec::new();
    let k1: Vec<Tok> = vec![Tok::Punct('#'), Tok::Open(Delim::Bracket), Tok::ident("cfg"), Tok::Open(Delim::Paren), Tok::ident("not"), Tok::Open(Delim::Paren), Tok::ident("target_arch"), Tok::Punct('='), Tok::Lit(String::from_str("\"wasm32\"")), Tok::Close(Delim::Paren), Tok::Close(Delim::Paren), Tok::Close(Delim::Bracket), Tok::ident("impl")];
    assert(tokens::toks(k1@) =~= seq![tokens::pc('#'), TokV::Open(Delim::Bracket), tokens::id("cfg"), TokV::Open(Delim::Paren), tokens::id("not"), TokV::Open(Delim::Paren), tokens::id("target_arch"), tokens::pc('='), TokV::Lit("\"wasm32\""@), TokV::Close(Delim::Paren), TokV::Close(Delim::Paren), TokV::Close(Delim::Bracket), tokens::id("impl")]);
    tokens::extend_toks(&mut r, &k1);
    tokens::extend_toks(&mut r, bg);
    push_path3(&mut r, sylvia, "cw_schema", "QueryResponses");
    let k2: Vec<Tok> = vec![Tok::ident("for")];
    assert(tokens::toks(k2@) =~= seq![tokens::id("for")]);
    tokens::extend_toks(&mut r, &k2);
    tokens::push_tok(&mut r, Tok::Ident(wn.clone()));
    tokens::extend_toks(&mut r, bg);
    tokens::extend_toks(&mut r, wh);
    let k3: Vec<Tok> = vec![Tok::Open(Delim::Brace), Tok::ident("fn"), Tok::ident("response_schemas_impl"), Tok::Open(Delim::Paren), Tok::Close(Delim::Paren), Tok::Punct('-'), Tok::Punct('>'), Tok::ident("std"), Tok::Punct(':'), Tok::Punct(':'), Tok::ident("collections"), Tok::Punct(':'), Tok::Punct(':'), Tok::ident("BTreeMap"), Tok::Punct('<'), Tok::ident("String"), Tok::Punct(',')];
    assert(tokens::toks(k3@) =~= seq![TokV::Open(Delim::Brace), tokens::id("fn"), tokens::id("response_schemas_impl"), TokV::Open(Delim::Paren), TokV::Close(Delim::Paren), tokens::pc('-'), tokens::pc('>'), tokens::id("std"), tokens::pc(':'), tokens::pc(':'), tokens::id("collections"), tokens::pc(':'), tokens::pc(':'), tokens::id("BTreeMap"), tokens::pc('<'), tokens::id("String"), tokens::pc(',')]);
    tokens::extend_toks(&mut r, &k3);
    push_path4(&mut r, sylvia, "schemars", "schema", "RootSchema");
    let k4: Vec<Tok> = vec![Tok::Punct('>'), Tok::Open(Delim::Brace), Tok::ident("let"), Tok::ident("responses"), Tok::Punct('='), Tok::Open(Delim::Bracket)];
    assert(tokens::toks(k4@) =~= seq![tokens::pc('>'), TokV::Open(Delim::Brace), tokens::id("let"), tokens::id("responses"), tokens::pc('='), TokV::Open(Delim::Bracket)]);
    tokens::extend_toks(&mut r, &k4);
    tokens::extend_toks(&mut r, calls);
    let k5: Vec<Tok> = vec![Tok::Close(Delim::Bracket), Tok::Punct(';'), Tok::ident("responses"), Tok::Punct('.'), Tok::ident("into_iter"), Tok::Open(Delim::Paren), Tok::Close(Delim::Paren), Tok::Punct('.'), Tok::ident("flatten"), Tok::Open(Delim::Paren), Tok::Close(Delim::Paren), Tok::Punct('.'), Tok::ident("collect"), Tok::Open(Delim::Paren), Tok::Close(Delim::Paren), Tok::Close(Delim::Brace), Tok::Close(Delim::Brace)];
    assert(tokens::toks(k5@) =~= seq![TokV::Close(Delim::Bracket), tokens::pc(';'), tokens::id("responses"), tokens::pc('.'), tokens::id("into_iter"), TokV::Open(Delim::Paren), TokV::Close(Delim::Paren), tokens::pc('.'), tokens::id("flatten"), TokV::Open(Delim::Paren), TokV::Close(Delim::Paren), tokens::pc('.'), tokens::id("collect"), TokV::Open(Delim::Paren), TokV::Close(Delim::Paren), TokV::Close(Delim::Brace), TokV::Close(Delim::Brace)]);
    tokens::extend_toks(&mut r, &k5);
    assert(tokens::toks(r@) =~= glue_responses(wn@, tokens::toks(bg@), tokens::toks(wh@), tokens::toks(calls@), tokens::toks(sylvia@)));
    r
}

fn contract_attempt_exec(mfn: &String, cname: &Vec<Tok>) -> (r: Vec<Tok>)
    ensures
        tokens::toks(r@) == contract_attempt(mfn@, tokens::toks(cname@)),
{
    proof {
        reveal(contract_attempt);
    }
    let mut r: Vec<Tok> = Vec::new();
    let k1: Vec<Tok> = vec![Tok::ident("let"), Tok::ident("msgs"), Tok::Punct('='), Tok::Punct('&')];
    assert(tokens::toks(k1@) =~= seq![tokens::id("let"), tokens::id("msgs"), tokens::pc('='), tokens::pc('&')]);
    tokens::extend_toks(&mut r, &k1);
    tokens::push_tok(&mut r, Tok::Ident(mfn.clone()));
    let k2: Vec<Tok> = vec![Tok::Open(Delim::Paren), Tok::Close(Delim::Paren), Tok::Punct(';'), Tok::ident("if"), Tok::ident("msgs"), Tok::Punct('.'), Tok::ident("into_iter"), Tok::Open(Delim::Paren), Tok::Close(Delim::Paren), Tok::Punct('.'), Tok::ident("any"), Tok::Open(Delim::Paren), Tok::Punct('|'), Tok::ident("msg"), Tok::Punct('|'), Tok::ident("msg"), Tok::Punct('='), Tok::Punct('='), Tok::Punct('&'), Tok::ident("recv_msg_name"), Tok::Close(Delim::Paren), Tok::Open(Delim::Brace), Tok::ident("match"), Tok::ident("val"), Tok::Punct('.'), Tok::ident("deserialize_into"), Tok::Open(Delim::Paren), Tok::Close(Delim::Paren), Tok::Open(Delim::Brace), Tok::ident("Ok"), Tok::Open(Delim::Paren), Tok::ident("msg"), Tok::Close(Delim::Paren), Tok::Punct('='), Tok::Punct('>'), Tok::ident("return"), Tok::ident("Ok"), Tok::Open(Delim::Paren), Tok::ident("Self"), Tok::Punct(':'), Tok::Punct(':')];
    assert(tokens::toks(k2@) =~= seq![TokV::Open(Delim::Paren), TokV::Close(Delim::Paren), tokens::pc(';'), tokens::id("if"), tokens::id("msgs"), tokens::pc('.'), tokens::id("into_iter"), TokV::Open(Delim::Paren), TokV::Close(Delim::Paren), tokens::pc('.'), tokens::id("any"), TokV::Open(Delim::Paren), tokens::pc('|'), tokens::id("msg"), tokens::pc('|'), tokens::id("msg"), tokens::pc('='), tokens::pc('='), tokens::pc('&'), tokens::id("recv_msg_name"), TokV::Close(Delim::Paren), TokV::Open(Delim::Brace), tokens::id("match"), tokens::id("val"), tokens::pc('.'), tokens::id("deserialize_into"), TokV::Open(Delim::Paren), TokV::Close(Delim::Paren), TokV::Open(Delim::Brace), tokens::id("Ok"), TokV::Open(Delim::Paren), tokens::id("msg"), TokV::Close(Delim::Paren), tokens::pc('='), tokens::pc('>'), tokens::id("return"), tokens::id("Ok"), TokV::Open(Delim::Paren), tokens::id("Self"), tokens::pc(':'), tokens::pc(':')]);
    tokens::extend_toks(&mut r, &k2);
    tokens::extend_toks(&mut r, cname);
    let k3: Vec<Tok> = vec![Tok::Open(Delim::Paren), Tok::ident("msg"), Tok::Close(Delim::Paren), Tok::Close(Delim::Paren), Tok::Punct(','), Tok::ident("Err"), Tok::Open(Delim::Paren), Tok::ident("err"), Tok::Close(Delim::Paren), Tok::Punct('='), Tok::Punct('>'), Tok::ident("return"), Tok::ident("Err"), Tok::Open(Delim::Paren), Tok::ident("D"), Tok::Punct(':'), Tok::Punct(':'), Tok::ident("Error"), Tok::Punct(':'), Tok::Punct(':'), Tok::ident("custom"), Tok::Open(Delim::Paren), Tok::ident("err"), Tok::Close(Delim::Paren), Tok::Close(Delim::Paren), Tok::Punct('.'), Tok::ident("map"), Tok::Open(Delim::Paren), Tok::ident("Self"), Tok::Punct(':'), Tok::Punct(':')];
    assert(tokens::toks(k3@) =~= seq![TokV::Open(Delim::Paren), tokens::id("msg"), TokV::Close(Delim::Paren), TokV::Close(Delim::Paren), tokens::pc(','), tokens::id("Err"), TokV::Open(Delim::Paren), tokens::id("err"), TokV::Close(Delim::Paren), tokens::pc('='), tokens::pc('>'), tokens::id("return"), tokens::id("Err"), TokV::Open(Delim::Paren), tokens::id("D"), tokens::pc(':'), tokens::pc(':'), tokens::id("Error"), tokens::pc(':'), tokens::pc(':'), tokens::id("custom"), TokV::Open(Delim::Paren), tokens::id("err"), TokV::Close(Delim::Paren), TokV::Close(Delim::Paren), tokens::pc('.'), tokens::id("map"), TokV::Open(Delim::Paren), tokens::id("Self"), tokens::pc(':'), tokens::pc(':')]);
    tokens::extend_toks(&mut r, &k3);
    tokens::extend_toks(&mut r, cname);
    let k4: Vec<Tok> = vec![Tok::Close(Delim::Paren), Tok::Close(Delim::Brace), Tok::Punct(';'), Tok::Close(Delim::Brace)];
    assert(tokens::toks(k4@) =~= seq![TokV::Close(Delim::Paren), TokV::Close(Delim::Brace), tokens::pc(';'), TokV::Close(Delim::Brace)]);
    tokens::extend_toks(&mut r, &k4);
    assert(tokens::toks(r@) =~= contract_attempt(mfn@, tokens::toks(cname@)));
    r
}

#[verifier::rlimit(40)]
fn glue_deserialize_exec(wn: &String, bg: &Vec<Tok>, wh: &Vec<Tok>, gsc: &Vec<Tok>, attempts: &Vec<Tok>, n: u64, calls: &Vec<Tok>, sylvia: &Vec<Tok>) -> (r: Vec<Tok>)
    ensures
        tokens::toks(r@) == glue_deserialize(wn@, tokens::toks(bg@), tokens::toks(wh@), tokens::toks(gsc@), tokens::toks(attempts@), n as nat, tokens::toks(calls@), tokens::toks(sylvia@)),
{
    proof {
        reveal(glue_deserialize);
    }
    let mut r: Vec<Tok> = Vec::new();
    let k1: Vec<Tok> = vec![Tok::ident("impl"), Tok::Punct('<'), Tok::Punct('\''), Tok::ident("sv_de"), Tok::Punct(',')];
    assert(tokens::toks(k1@) =~= seq![tokens::id("impl"), tokens::pc('<'), tokens::pc('\''), tokens::id("sv_de"), tokens::pc(',')]);
    tokens::extend_toks(&mut r, &k1);
    tokens::extend_toks(&mut r, gsc);
    let k2: Vec<Tok> = vec![Tok::Punct('>'), Tok::ident("serde"), Tok::Punct(':'), Tok::Punct(':'), Tok::ident("Deserialize"), Tok::Punct('<'), Tok::Punct('\''), Tok::ident("sv_de"), Tok::Punct('>'), Tok::ident("for")];
    assert(tokens::toks(k2@) =~= seq![tokens::pc('>'), tokens::id("serde"), tokens::pc(':'), tokens::pc(':'), tokens::id("Deserialize"), tokens::pc('<'), tokens::pc('\''), tokens::id("sv_de"), tokens::pc('>'), tokens::id("for")]);
    tokens::extend_toks(&mut r, &k2);
    tokens::push_tok(&mut r, Tok::Ident(wn.clone()));
    tokens::extend_toks(&mut r, bg);
    tokens::extend_toks(&mut r, wh);
    let k3: Vec<Tok> = vec![Tok::Open(Delim::Brace), Tok::ident("fn"), Tok::ident("deserialize"), Tok::Punct('<'), Tok::ident("D"), Tok::Punct('>'), Tok::Open(Delim::Paren), Tok::ident("deserializer"), Tok::Punct(':'), Tok::ident("D"), Tok::Close(Delim::Paren), Tok::Punct('-'), Tok::Punct('>'), Tok::ident("Result"), Tok::Punct('<'), Tok::ident("Self"), Tok::Punct(','), Tok::ident("D"), Tok::Punct(':'), Tok::Punct(':'), Tok::ident("Error"), Tok::Punct('>'), Tok::ident("where"), Tok::ident("D"), Tok::Punct(':'), Tok::ident("serde"), Tok::Punct(':'), Tok::Punct(':'), Tok::ident("Deserializer"), Tok::Punct('<'), Tok::Punct('\''), Tok::ident("sv_de"), Tok::Punct('>'), Tok::Punct(','), Tok::Open(Delim::Brace), Tok::ident("use"), Tok::ident("serde"), Tok::Punct(':'), Tok::Punct(':'), Tok::ident("de"), Tok::Punct(':'), Tok::Punct(':'), Tok::ident("Error"), Tok::Punct(';'), Tok::ident("let"), Tok::ident("val"), Tok::Punct('=')];
    assert(tokens::toks(k3@) =~= seq![TokV::Open(Delim::Brace), tokens::id("fn"), tokens::id("deserialize"), tokens::pc('<'), tokens::id("D"), tokens::pc('>'), TokV::Open(Delim::Paren), tokens::id("deserializer"), tokens::pc(':'), tokens::id("D"), TokV::Close(Delim::Paren), tokens::pc('-'), tokens::pc('>'), tokens::id("Result"), tokens::pc('<'), tokens::id("Self"), tokens::pc(','), tokens::id("D"), tokens::pc(':'), tokens::pc(':'), tokens::id("Error"), tokens::pc('>'), tokens::id("where"), tokens::id("D"), tokens::pc(':'), tokens::id("serde"), tokens::pc(':'), tokens::pc(':'), tokens::id("Deserializer"), tokens::pc('<'), tokens::pc('\''), tokens::id("sv_de"), tokens::pc('>'), tokens::pc(','), TokV::Open(Delim::Brace), tokens::id("use"), tokens::id("serde"), tokens::pc(':'), tokens::pc(':'), tokens::id("de"), tokens::pc(':'), tokens::pc(':'), tokens::id("Error"), tokens::pc(';'), tokens::id("let"), tokens::id("val"), tokens::pc('=')]);
    tokens::extend_toks(&mut r, &k3);
    push_path4(&mut r, sylvia, "serde_value", "Value", "deserialize");
    let k4: Vec<Tok> = vec![Tok::Open(Delim::Paren), Tok::ident("deserializer"), Tok::Close(Delim::Paren), Tok::Punct('?'), Tok::Punct(';'), Tok::ident("let"), Tok::ident("map"), Tok::Punct('='), Tok::ident("match"), Tok::Punct('&'), Tok::ident("val"), Tok::Open(Delim::Brace)];
    assert(tokens::toks(k4@) =~= seq![TokV::Open(Delim::Paren), tokens::id("deserializer"), TokV::Close(Delim::Paren), tokens::pc('?'), tokens::pc(';'), tokens::id("let"), tokens::id("map"), tokens::pc('='), tokens::id("match"), tokens::pc('&'), tokens::id("val"), TokV::Open(Delim::Brace)]);
    tokens::extend_toks(&mut r, &k4);
    push_path4(&mut r, sylvia, "serde_value", "Value", "Map");
    let k5: Vec<Tok> = vec![Tok::Open(Delim::Paren), Tok::ident("map"), Tok::Close(Delim::Paren), Tok::Punct('='), Tok::Punct('>'), Tok::ident("map"), Tok::Punct(','), Tok::ident("_"), Tok::Punct('='), Tok::Punct('>'), Tok::ident("return"), Tok::ident("Err"), Tok::Open(Delim::Paren), Tok::ident("D"), Tok::Punct(':'), Tok::Punct(':'), Tok::ident("Error"), Tok::Punct(':'), Tok::Punct(':'), Tok::ident("custom"), Tok::Open(Delim::Paren), Tok::Lit(String::from_str("\"Wrong message format!\"")), Tok::Close(Delim::Paren), Tok::Close(Delim::Paren), Tok::Close(Delim::Brace), Tok::Punct(';'), Tok::ident("if"), Tok::ident("map"), Tok::Punct('.'), Tok::ident("len"), Tok::Open(Delim::Paren), Tok::Close(Delim::Paren), Tok::Punct('!'), Tok::Punct('='), Tok::Lit(String::from_str("1")), Tok::Open(Delim::Brace), Tok::ident("return"), Tok::ident("Err"), Tok::Open(Delim::Paren), Tok::ident("D"), Tok::Punct(':'), Tok::Punct(':'), Tok::ident("Error"), Tok::Punct(':'), Tok::Punct(':'), Tok::ident("custom"), Tok::Open(Delim::Paren), Tok::ident("format"), Tok::Punct('!'), Tok::Open(Delim::Paren), Tok::Lit(String::from_str("\"Expected exactly one message. Received {}\"")), Tok::Punct(','), Tok::ident("map"), Tok::Punct('.'), Tok::ident("len"), Tok::Open(Delim::Paren), Tok::Close(Delim::Paren), Tok::Close(Delim::Paren), Tok::Close(Delim::Paren), Tok::Close(Delim::Paren), Tok::Close(Delim::Brace), Tok::ident("let"), Tok::ident("recv_msg_name"), Tok::Punct('='), Tok::ident("map"), Tok::Punct('.'), Tok::ident("into_iter"), Tok::Open(Delim::Paren), Tok::Close(Delim::Paren), Tok::Punct('.'), Tok::ident("next"), Tok::Open(Delim::Paren), Tok::Close(Delim::Paren), Tok::Punct('.'), Tok::ident("unwrap"), Tok::Open(Delim::Paren), Tok::Close(Delim::Paren), Tok::Punct(';'), Tok::ident("if"), Tok::ident("let")];
    assert(tokens::toks(k5@) =~= seq![TokV::Open(Delim::Paren), tokens::id("map"), TokV::Close(Delim::Paren), tokens::pc('='), tokens::pc('>'), tokens::id("map"), tokens::pc(','), tokens::id("_"), tokens::pc('='), tokens::pc('>'), tokens::id("return"), tokens::id("Err"), TokV::Open(Delim::Paren), tokens::id("D"), tokens::pc(':'), tokens::pc(':'), tokens::id("Error"), tokens::pc(':'), tokens::pc(':'), tokens::id("custom"), TokV::Open(Delim::Paren), TokV::Lit("\"Wrong message format!\""@), TokV::Close(Delim::Paren), TokV::Close(Delim::Paren), TokV::Close(Delim::Brace), tokens::pc(';'), tokens::id("if"), tokens::id("map"), tokens::pc('.'), tokens::id("len"), TokV::Open(Delim::Paren), TokV::Close(Delim::Paren), tokens::pc('!'), tokens::pc('='), TokV::Lit("1"@), TokV::Open(Delim::Brace), tokens::id("return"), tokens::id("Err"), TokV::Open(Delim::Paren), tokens::id("D"), tokens::pc(':'), tokens::pc(':'), tokens::id("Error"), tokens::pc(':'), tokens::pc(':'), tokens::id("custom"), TokV::Open(Delim::Paren), tokens::id("format"), tokens::pc('!'), TokV::Open(Delim::Paren), TokV::Lit("\"Expected exactly one message. Received {}\""@), tokens::pc(','), tokens::id("map"), tokens::pc('.'), tokens::id("len"), TokV::Open(Delim::Paren), TokV::Close(Delim::Paren), TokV::Close(Delim::Paren), TokV::Close(Delim::Paren), TokV::Close(Delim::Paren), TokV::Close(Delim::Brace), tokens::id("let"), tokens::id("recv_msg_name"), tokens::pc('='), tokens::id("map"), tokens::pc('.'), tokens::id("into_iter"), TokV::Open(Delim::Paren), TokV::Close(Delim::Paren), tokens::pc('.'), tokens::id("next"), TokV::Open(Delim::Paren), TokV::Close(Delim::Paren), tokens::pc('.'), tokens::id("unwrap"), TokV::Open(Delim::Paren), TokV::Close(Delim::Paren), tokens::pc(';'), tokens::id("if"), tokens::id("let")]);
    tokens::extend_toks(&mut r, &k5);
    push_path4(&mut r, sylvia, "serde_value", "Value", "String");
    let k6: Vec<Tok> = vec![Tok::Open(Delim::Paren), Tok::ident("recv_msg_name"), Tok::Close(Delim::Paren), Tok::Punct('='), Tok::Punct('&'), Tok::ident("recv_msg_name"), Tok::Punct('.'), Tok::Lit(String::from_str("0")), Tok::Open(Delim::Brace)];
    assert(tokens::toks(k6@) =~= seq![TokV::Open(Delim::Paren), tokens::id("recv_msg_name"), TokV::Close(Delim::Paren), tokens::pc('='), tokens::pc('&'), tokens::id("recv_msg_name"), tokens::pc('.'), TokV::Lit("0"@), TokV::Open(Delim::Brace)]);
    tokens::extend_toks(&mut r, &k6);
    tokens::extend_toks(&mut r, attempts);
    let k7: Vec<Tok> = vec![Tok::Close(Delim::Brace), Tok::ident("let"), Tok::ident("msgs"), Tok::Punct(':'), Tok::Open(Delim::Bracket), Tok::Punct('&'), Tok::Open(Delim::Bracket), Tok::Punct('&'), Tok::ident("str"), Tok::Close(Delim::Bracket), Tok::Punct(';')];
    assert(tokens::toks(k7@) =~= seq![TokV::Close(Delim::Brace), tokens::id("let"), tokens::id("msgs"), tokens::pc(':'), TokV::Open(Delim::Bracket), tokens::pc('&'), TokV::Open(Delim::Bracket), tokens::pc('&'), tokens::id("str"), TokV::Close(Delim::Bracket), tokens::pc(';')]);
    tokens::extend_toks(&mut r, &k7);
    tokens::push_tok(&mut r, usize_lit(n));
    let k8: Vec<Tok> = vec![Tok::Close(Delim::Bracket), Tok::Punct('='), Tok::Open(Delim::Bracket)];
    assert(tokens::toks(k8@) =~= seq![TokV::Close(Delim::Bracket), tokens::pc('='), TokV::Open(Delim::Bracket)]);
    tokens::extend_toks(&mut r, &k8);
    tokens::extend_toks(&mut r, calls);
    let k9: Vec<Tok> = vec![Tok::Close(Delim::Bracket), Tok::Punct(';'), Tok::ident("let"), Tok::ident("mut"), Tok::ident("err_msg"), Tok::Punct('='), Tok::ident("msgs"), Tok::Punct('.'), Tok::ident("into_iter"), Tok::Open(Delim::Paren), Tok::Close(Delim::Paren), Tok::Punct('.'), Tok::ident("flatten"), Tok::Open(Delim::Paren), Tok::Close(Delim::Paren), Tok::Punct('.'), Tok::ident("fold"), Tok::Open(Delim::Paren), Tok::ident("format"), Tok::Punct('!'), Tok::Open(Delim::Paren), Tok::Lit(String::from_str("\"Unsupported message received: {}. Messages supported by this contract: \"")), Tok::Punct(',')];
    assert(tokens::toks(k9@) =~= seq![TokV::Close(Delim::Bracket), tokens::pc(';'), tokens::id("let"), tokens::id("mut"), tokens::id("err_msg"), tokens::pc('='), tokens::id("msgs"), tokens::pc('.'), tokens::id("into_iter"), TokV::Open(Delim::Paren), TokV::Close(Delim::Paren), tokens::pc('.'), tokens::id("flatten"), TokV::Open(Delim::Paren), TokV::Close(Delim::Paren), tokens::pc('.'), tokens::id("fold"), TokV::Open(Delim::Paren), tokens::id("format"), tokens::pc('!'), TokV::Open(Delim::Paren), TokV::Lit("\"Unsupported message received: {}. Messages supported by this contract: \""@), tokens::pc(',')]);
    tokens::extend_toks(&mut r, &k9);
    push_path3(&mut r, sylvia, "serde_json", "to_string");
    let k10: Vec<Tok> = vec![Tok::Open(Delim::Paren), Tok::Punct('&'), Tok::ident("val"), Tok::Close(Delim::Paren), Tok::Punct('.'), Tok::ident("unwrap_or_else"), Tok::Open(Delim::Paren), Tok::Punct('|'), Tok::ident("_"), Tok::Punct('|'), Tok::ident("String"), Tok::Punct(':'), Tok::Punct(':'), Tok::ident("new"), Tok::Open(Delim::Paren), Tok::Close(Delim::Paren), Tok::Close(Delim::Paren), Tok::Close(Delim::Paren), Tok::Punct(','), Tok::Punct('|'), Tok::ident("mut"), Tok::ident("acc"), Tok::Punct(','), Tok::ident("message"), Tok::Punct('|'), Tok::ident("acc"), Tok::Punct('+'), Tok::ident("message"), Tok::Punct('+'), Tok::Lit(String::from_str("\", \"")), Tok::Punct(','), Tok::Close(Delim::Paren), Tok::Punct(';'), Tok::ident("err_msg"), Tok::Punct('.'), Tok::ident("truncate"), Tok::Open(Delim::Paren), Tok::ident("err_msg"), Tok::Punct('.'), Tok::ident("len"), Tok::Open(Delim::Paren), Tok::Close(Delim::Paren), Tok::Punct('-'), Tok::Lit(String::from_str("2")), Tok::Close(Delim::Paren), Tok::Punct(';'), Tok::ident("Err"), Tok::Open(Delim::Paren), Tok::ident("D"), Tok::Punct(':'), Tok::Punct(':'), Tok::ident("Error"), Tok::Punct(':'), Tok::Punct(':'), Tok::ident("custom"), Tok::Open(Delim::Paren), Tok::ident("err_msg"), Tok::Close(Delim::Paren), Tok::Close(Delim::Paren), Tok::Close(Delim::Brace), Tok::Close(Delim::Brace)];
    assert(tokens::toks(k10@) =~= seq![TokV::Open(Delim::Paren), tokens::pc('&'), tokens::id("val"), TokV::Close(Delim::Paren), tokens::pc('.'), tokens::id("unwrap_or_else"), TokV::Open(Delim::Paren), tokens::pc('|'), tokens::id("_"), tokens::pc('|'), tokens::id("String"), tokens::pc(':'), tokens::pc(':'), tokens::id("new"), TokV::Open(Delim::Paren), TokV::Close(Delim::Paren), TokV::Close(Delim::Paren), TokV::Close(Delim::Paren), tokens::pc(','), tokens::pc('|'), tokens::id("mut"), tokens::id("acc"), tokens::pc(','), tokens::id("message"), tokens::pc('|'), tokens::id("acc"), tokens::pc('+'), tokens::id("message"), tokens::pc('+'), TokV::Lit("\", \""@), tokens::pc(','), TokV::Close(Delim::Paren), tokens::pc(';'), tokens::id("err_msg"), tokens::pc('.'), tokens::id("truncate"), TokV::Open(Delim::Paren), tokens::id("err_msg"), tokens::pc('.'), tokens::id("len"), TokV::Open(Delim::Paren), TokV::Close(Delim::Paren), tokens::pc('-'), TokV::Lit("2"@), TokV::Close(Delim::Paren), tokens::pc(';'), tokens::id("Err"), TokV::Open(Delim::Paren), tokens::id("D"), tokens::pc(':'), tokens::pc(':'), tokens::id("Error"), tokens::pc(':'), tokens::pc(':'), tokens::id("custom"), TokV::Open(Delim::Paren), tokens::id("err_msg"), TokV::Close(Delim::Paren), TokV::Close(Delim::Paren), TokV::Close(Delim::Brace), TokV::Close(Delim::Brace)]);
    tokens::extend_toks(&mut r, &k10);
    assert(tokens::toks(r@) =~= glue_deserialize(wn@, tokens::toks(bg@), tokens::toks(wh@), tokens::toks(gsc@), tokens::toks(attempts@), n as nat, tokens::toks(calls@), tokens::toks(sylvia@)));
    r
}

fn glue_from_exec(wn: &String, bg: &Vec<Tok>, wh: &Vec<Tok>, src: &Vec<Tok>, variant: &Vec<Tok>) -> (r: Vec<Tok>)
    ensures
        tokens::toks(r@) == glue_from(wn@, tokens::toks(bg@), tokens::toks(wh@), tokens::toks(src@), tokens::toks(variant@)),
{
    proof {
        reveal(glue_from);
    }
    let mut r: Vec<Tok> = Vec::new();
    let k1: Vec<Tok> = vec![Tok::ident("impl")];
    assert(tokens::toks(k1@) =~= seq![tokens::id("impl")]);
    tokens::extend_toks(&mut r, &k1);
    tokens::extend_toks(&mut r, bg);
    let k2: Vec<Tok> = vec![Tok::ident("From"), Tok::Punct('<')];
    assert(tokens::toks(k2@) =~= seq![tokens::id("From"), tokens::pc('<')]);
    tokens::extend_toks(&mut r, &k2);
    tokens::extend_toks(&mut r, src);
    let k3: Vec<Tok> = vec![Tok::Punct('>'), Tok::ident("for")];
    assert(tokens::toks(k3@) =~= seq![tokens::pc('>'), tokens::id("for")]);
    tokens::extend_toks(&mut r, &k3);
    tokens::push_tok(&mut r, Tok::Ident(wn.clone()));
    tokens::extend_toks(&mut r, bg);
    tokens::extend_toks(&mut r, wh);
    let k4: Vec<Tok> = vec![Tok::Open(Delim::Brace), Tok::ident("fn"), Tok::ident("from"), Tok::Open(Delim::Paren), Tok::ident("a"), Tok::Punct(':')];
    assert(tokens::toks(k4@) =~= seq![TokV::Open(Delim::Brace), tokens::id("fn"), tokens::id("from"), TokV::Open(Delim::Paren), tokens::id("a"), tokens::pc(':')]);
    tokens::extend_toks(&mut r, &k4);
    tokens::extend_toks(&mut r, src);
    let k5: Vec<Tok> = vec![Tok::Close(Delim::Paren), Tok::Punct('-'), Tok::Punct('>'), Tok::ident("Self"), Tok::Open(Delim::Brace), Tok::ident("Self"), Tok::Punct(':'), Tok::Punct(':')];
    assert(tokens::toks(k5@) =~= seq![TokV::Close(Delim::Paren), tokens::pc('-'), tokens::pc('>'), tokens::id("Self"), TokV::Open(Delim::Brace), tokens::id("Self"), tokens::pc(':'), tokens::pc(':')]);
    tokens::extend_toks(&mut r, &k5);
    tokens::extend_toks(&mut r, variant);
    let k6: Vec<Tok> = vec![Tok::Open(Delim::Paren), Tok::ident("a"), Tok::Close(Delim::Paren), Tok::Close(Delim::Brace), Tok::Close(Delim::Brace)];
    assert(tokens::toks(k6@) =~= seq![TokV::Open(Delim::Paren), tokens::id("a"), TokV::Close(Delim::Paren), TokV::Close(Delim::Brace), TokV::Close(Delim::Brace)]);
    tokens::extend_toks(&mut r, &k6);
    assert(tokens::toks(r@) =~= glue_from(wn@, tokens::toks(bg@), tokens::toks(wh@), tokens::toks(src@), tokens::toks(variant@)));
    r
}

fn dispatch_arm_exec(wn: &String, variant: &String, ctx: &Vec<Tok>, sylvia: &Vec<Tok>) -> (r: Vec<Tok>)
    ensures
        tokens::toks(r@) == dispatch_arm(wn@, variant@, tokens::toks(ctx@), tokens::toks(sylvia@)),
{
    proof {
        reveal(dispatch_arm);
    }
    let mut r: Vec<Tok> = Vec::new();
    tokens::push_tok(&mut r, Tok::Ident(wn.clone()));
    let k1: Vec<Tok> = vec![Tok::Punct(':'), Tok::Punct(':')];
    assert(tokens::toks(k1@) =~= seq![tokens::pc(':'), tokens::pc(':')]);
    tokens::extend_toks(&mut r, &k1);
    tokens::push_tok(&mut r, Tok::Ident(variant.clone()));
    let k2: Vec<Tok> = vec![Tok::Open(Delim::Paren), Tok::ident("msg"), Tok::Close(Delim::Paren), Tok::Punct('='), Tok::Punct('>')];
    assert(tokens::toks(k2@) =~= seq![TokV::Open(Delim::Paren), tokens::id("msg"), TokV::Close(Delim::Paren), tokens::pc('='), tokens::pc('>')]);
    tokens::extend_toks(&mut r, &k2);
    push_path3(&mut r, sylvia, "into_response", "IntoResponse");
    let k3: Vec<Tok> = vec![Tok::Punct(':'), Tok::Punct(':'), Tok::ident("into_response"), Tok::Open(Delim::Paren), Tok::ident("msg"), Tok::Punct('.'), Tok::ident("dispatch"), Tok::Open(Delim::Paren), Tok::ident("contract"), Tok::Punct(','), Tok::ident("Into"), Tok::Punct(':'), Tok::Punct(':'), Tok::ident("into"), Tok::Open(Delim::Paren)];
    assert(tokens::toks(k3@) =~= seq![tokens::pc(':'), tokens::pc(':'), tokens::id("into_response"), TokV::Open(Delim::Paren), tokens::id("msg"), tokens::pc('.'), tokens::id("dispatch"), TokV::Open(Delim::Paren), tokens::id("contract"), tokens::pc(','), tokens::id("Into"), tokens::pc(':'), tokens::pc(':'), tokens::id("into"), TokV::Open(Delim::Paren)]);
    tokens::extend_toks(&mut r, &k3);
    tokens::extend_toks(&mut r, ctx);
    let k4: Vec<Tok> = vec![Tok::Close(Delim::Paren), Tok::Close(Delim::Paren), Tok::Punct('?'), Tok::Close(Delim::Paren)];
    assert(tokens::toks(k4@) =~= seq![TokV::Close(Delim::Paren), TokV::Close(Delim::Paren), tokens::pc('?'), TokV::Close(Delim::Paren)]);
    tokens::extend_toks(&mut r, &k4);
    assert(tokens::toks(r@) =~= dispatch_arm(wn@, variant@, tokens::toks(ctx@), tokens::toks(sylvia@)));
    r
}

fn plain_dispatch_arm_exec(wn: &String, variant: &String, ctx: &Vec<Tok>) -> (r: Vec<Tok>)
    ensures
        tokens::toks(r@) == plain_dispatch_arm(wn@, variant@, tokens::toks(ctx@)),
{
    proof {
        reveal(plain_dispatch_arm);
    }
    let mut r: Vec<Tok> = Vec::new();
    tokens::push_tok(&mut r, Tok::Ident(wn.clone()));
    let k1: Vec<Tok> = vec![Tok::Punct(':'), Tok::Punct(':')];
    assert(tokens::toks(k1@) =~= seq![tokens::pc(':'), tokens::pc(':')]);
    tokens::extend_toks(&mut r, &k1);
    tokens::push_tok(&mut r, Tok::Ident(variant.clone()));
    let k2: Vec<Tok> = vec![Tok::Open(Delim::Paren), Tok::ident("msg"), Tok::Close(Delim::Paren), Tok::Punct('='), Tok::Punct('>'), Tok::ident("msg"), Tok::Punct('.'), Tok::ident("dispatch"), Tok::Open(Delim::Paren), Tok::ident("contract"), Tok::Punct(','), Tok::ident("Into"), Tok::Punct(':'), Tok::Punct(':'), Tok::ident("into"), Tok::Open(Delim::Paren)];
    assert(tokens::toks(k2@) =~= seq![TokV::Open(Delim::Paren), tokens::id("msg"), TokV::Close(Delim::Paren), tokens::pc('='), tokens::pc('>'), tokens::id("msg"), tokens::pc('.'), tokens::id("dispatch"), TokV::Open(Delim::Paren), tokens::id("contract"), tokens::pc(','), tokens::id("Into"), tokens::pc(':'), tokens::pc(':'), tokens::id("into"), TokV::Open(Delim::Paren)]);
    tokens::extend_toks(&mut r, &k2);
    tokens::extend_toks(&mut r, ctx);
    let k3: Vec<Tok> = vec![Tok::Close(Delim::Paren), Tok::Close(Delim::Paren)];
    assert(tokens::toks(k3@) =~= seq![TokV::Close(Delim::Paren), TokV::Close(Delim::Paren)]);
    tokens::extend_toks(&mut r, &k3);
    assert(tokens::toks(r@) =~= plain_dispatch_arm(wn@, variant@, tokens::toks(ctx@)));
    r
}

fn glue_dispatch_exec(
    wn: &String,
    bg: &Vec<Tok>,
    wh: &Vec<Tok>,
    contract: &Vec<Tok>,
    ctx: &Vec<Tok>,
    ret: &Vec<Tok>,
    n: u64,
    calls: &Vec<Tok>,
    arms: &Vec<Tok>,
    cname: &Vec<Tok>,
    sylvia: &Vec<Tok>,
) -> (r: Vec<Tok>)
    ensures
        tokens::toks(r@) == glue_dispatch(
            wn@,
            tokens::toks(bg@),
            tokens::toks(wh@),
            tokens::toks(contract@),
            tokens::toks(ctx@),
            tokens::toks(ret@),
            n as nat,
            tokens::toks(calls@),
            tokens::toks(arms@),
            tokens::toks(cname@),
            tokens::toks(sylvia@),
        ),
{
    let mut r = glue_dispatch_head_exec(wn, bg, wh, contract, ctx, ret, n, calls, sylvia);
    tokens::extend_toks(&mut r, arms);
    let t = glue_dispatch_tail_exec(wn, cname);
    tokens::extend_toks(&mut r, &t);
    r
}


fn glue_schema_exec(wn: &String, bg: &Vec<Tok>, wh: &Vec<Tok>, subs: &Vec<Tok>, ca: &Vec<Tok>, sylvia: &Vec<Tok>) -> (r: Vec<Tok>)
    ensures
        tokens::toks(r@) == glue_schema(wn@, tokens::toks(bg@), tokens::toks(wh@), tokens::toks(subs@), tokens::toks(ca@), tokens::toks(sylvia@)),
{
    let mut r = glue_schema_name_exec(wn, bg, wh, sylvia);
    let j = glue_json_schema_exec(subs, ca, sylvia);
    tokens::extend_toks(&mut r, &j);
    r
}

/// The literal `{n}usize`.
pub(crate) fn usize_lit(n: u64) -> (t: Tok)
    ensures
        t@ == TokV::Lit(reply_emit::decimal(n as nat) + "usize"@),
{
    let mut s = String::new();
    reply_emit::push_decimal(&mut s, n);
    s.append("usize");
    assert(s@ =~= reply_emit::decimal(n as nat) + "usize"@);
    Tok::Lit(s)
}

/// The type `t` with its generic arguments removed.
pub fn strip_generics_exec(t: &Vec<Tok>) -> (r: Vec<Tok>)
    ensures
        tokens::toks(r@) == strip_generics(tokens::toks(t@)),
{
    let ghost tv = tokens::toks(t@);
    let mut r: Vec<Tok> = Vec::new();
    let mut depth: usize = 0;
    let mut i: usize = 0;
    assert(tokens::toks(r@) =~= strip_generics(tv.subrange(0, 0)));
    while i < t.len()
        invariant
            i <= t.len(),
            tv == tokens::toks(t@),
            depth == angle_depth(tv.subrange(0, i as int)),
            depth <= i,
            tokens::toks(r@) == strip_generics(tv.subrange(0, i as int)),
        decreases t.len() - i,
    {
        let ghost pre = tv.subrange(0, i as int);
        let ghost next = tv.subrange(0, i + 1);
        assert(next.drop_last() =~= pre);
        assert(next.last() == t@[i as int]@);
        let is_open = t[i].is_punct('<');
        let is_close = t[i].is_punct('>');
        if depth == 0 && !is_open {
            tokens::push_tok(&mut r, t[i].copy());
        }
        if is_open {
            depth = depth + 1;
        } else if is_close && depth > 0 {
            depth = depth - 1;
        }
        i = i + 1;
    }
    assert(tv.subrange(0, t.len() as int) =~= tv);
    r
}

fn subschema_exec(t: &Vec<Tok>) -> (r: Vec<Tok>)
    ensures
        tokens::toks(r@) == subschema(tokens::toks(t@)),
{
    let mut r: Vec<Tok> = Vec::new();
    tokens::push_ident(&mut r, "gen");
    tokens::push_punct(&mut r, '.');
    tokens::push_ident(&mut r, "subschema_for");
    tokens::push_punct(&mut r, ':');
    tokens::push_punct(&mut r, ':');
    tokens::push_punct(&mut r, '<');
    tokens::extend_toks(&mut r, t);
    tokens::push_punct(&mut r, '>');
    tokens::push_tok(&mut r, Tok::Open(Delim::Paren));
    tokens::push_tok(&mut r, Tok::Close(Delim::Paren));
    tokens::push_punct(&mut r, ',');
    assert(tokens::toks(r@) =~= subschema(tokens::toks(t@)));
    r
}

fn interface_messages_item_exec(contract: &Vec<Tok>, module: &Vec<Tok>, acc: &String) -> (r: Vec<Tok>)
    ensures
        tokens::toks(r@) == interface_messages_item(tokens::toks(contract@), tokens::toks(module@), acc@),
{
    let mut r: Vec<Tok> = Vec::new();
    tokens::push_punct(&mut r, '<');
    tokens::extend_toks(&mut r, contract);
    tokens::push_ident(&mut r, "as");
    tokens::extend_toks(&mut r, module);
    tokens::push_punct(&mut r, ':');
    tokens::push_punct(&mut r, ':');
    tokens::push_ident(&mut r, "sv");
    tokens::push_punct(&mut r, ':');
    tokens::push_punct(&mut r, ':');
    tokens::push_ident(&mut r, "InterfaceMessagesApi");
    tokens::push_punct(&mut r, '>');
    tokens::push_punct(&mut r, ':');
    tokens::push_punct(&mut r, ':');
    tokens::push_tok(&mut r, Tok::Ident(acc.clone()));
    assert(tokens::toks(r@) =~= interface_messages_item(tokens::toks(contract@), tokens::toks(module@), acc@));
    r
}

impl Interfaces {
    /// For each interface, the arm of the `dispatch` method of the wrapper
    /// message `wrapper_name` of kind `msg_ty`, handing the interface's
    /// message `Into::into(ctx)`.
    pub fn emit_dispatch_arms(&self, sylvia: &Vec<Tok>, wrapper_name: &String, msg_ty: &MsgType) -> (r: Vec<Vec<Tok>>)
        ensures
            r@.len() == self.interfaces@.len(),
            forall|k: int|
                0 <= k < r@.len() ==> tokens::toks((#[trigger] r@[k])@) == interface_dispatch_arm(
                    wrapper_name@,
                    self.interfaces@[k]@,
                    *msg_ty,
                    tokens::toks(sylvia@),
                ),
    {
        let mut r: Vec<Vec<Tok>> = Vec::new();
        let mut k: usize = 0;
        while k < self.interfaces.len()
            invariant
                k <= self.interfaces@.len(),
                r@.len() == k,
                forall|q: int|
                    0 <= q < k ==> tokens::toks((#[trigger] r@[q])@) == interface_dispatch_arm(
                        wrapper_name@,
                        self.interfaces@[q]@,
                        *msg_ty,
                        tokens::toks(sylvia@),
                    ),
            decreases self.interfaces@.len() - k,
        {
            let i = &self.interfaces[k];
            let converts = (*msg_ty == MsgType::Exec || *msg_ty == MsgType::Sudo) && i.customs.has_msg;
            let mut ctx: Vec<Tok> = Vec::new();
            tokens::push_ident(&mut ctx, "ctx");
            assert(tokens::toks(ctx@) =~= ctx_arg());
            let arm = if converts {
                dispatch_arm_exec(wrapper_name, &i.variant, &ctx, sylvia)
            } else {
                plain_dispatch_arm_exec(wrapper_name, &i.variant, &ctx)
            };
            r.push(arm);
            k = k + 1;
        }
        r
    }
}

/// Generator of the wrapper message of a contract for one kind of message.
pub struct GlueMessage {
    /// The generic parameters of the contract's implementation.
    pub generics: Vec<Vec<Tok>>,
    /// Its where clause.
    pub where_clause: Option<WhereClause>,
    /// The contract type.
    pub contract: Vec<Tok>,
    pub msg_ty: MsgType,
    pub error: ContractErrorAttr,
    pub custom: Custom,
    pub interfaces: Interfaces,
}

impl GlueMessage {
    /// The generator of the wrapper message of kind `msg_ty` of the contract
    /// implemented by an `impl` block with the generic parameters `generics`,
    /// the where clause `where_clause` and the self type `contract`.
    pub fn new(
        generics: Vec<Vec<Tok>>,
        where_clause: Option<WhereClause>,
        contract: Vec<Tok>,
        msg_ty: MsgType,
        error: ContractErrorAttr,
        custom: Custom,
        interfaces: Interfaces,
    ) -> (r: GlueMessage)
        ensures
            r.generics@ == generics@,
            r.where_clause == where_clause,
            r.contract@ == contract@,
            r.msg_ty == msg_ty,
            r.error == error,
            r.custom == custom,
            r.interfaces == interfaces,
    {
        GlueMessage { generics, where_clause, contract, msg_ty, error, custom, interfaces }
    }

    /// The wrapper message (`ContractExecMsg`, `ContractQueryMsg`,
    /// `ContractSudoMsg`, ..), with its implementations; `types` are the
    /// message types of the interfaces as its schema lists them.
    pub fn emit(&self, sylvia: &Vec<Tok>, types: &Vec<Vec<Tok>>) -> (r: Vec<Tok>)
        ensures
            tokens::toks(r@) == glue_tokens(
                msg_type::msg_name(self.msg_ty, true),
                parser::toks2(self.generics@),
                where_value(self.where_clause),
                tokens::toks(self.contract@),
                self.msg_ty,
                interfaces_view(self.interfaces.interfaces@),
                parser::toks2(types@),
                match self.custom@.msg {
                    Some(m) => m,
                    None => parser::default_type(tokens::toks(sylvia@)),
                },
                match self.custom@.query {
                    Some(q) => q,
                    None => parser::default_type(tokens::toks(sylvia@)),
                },
                tokens::toks(self.error.error@),
                tokens::toks(sylvia@),
            ),
    {
        let wrapper_name = &self.msg_ty.emit_msg_name(true);
        let ghost is = interfaces_view(self.interfaces.interfaces@);
        let ghost ty = self.msg_ty;
        let ifs = &self.interfaces;
        let mut bg: Vec<Tok> = Vec::new();
        querier::push_bracketed_generics(&mut bg, &self.generics);
        assert(tokens::toks(bg@) =~= bracketed_generics(parser::toks2(self.generics@)));
        let wh = associated_types::opt_where_to_tokens(&self.where_clause);
        let acc = match self.msg_ty.as_accessor_name(false) {
            Some(a) => a,
            None => String::new(),
        };
        let mut ca: Vec<Tok> = Vec::new();
        push_contract_api_item(&mut ca, sylvia, &self.contract, acc.clone());
        assert(tokens::toks(ca@) =~= contract_api_item(tokens::toks(sylvia@), tokens::toks(self.contract@), msg_type::accessor_name(ty, false)));
        let cname = strip_generics_exec(&self.contract);
        let mut mfn = self.msg_ty.emit_ep_name();
        mfn.append("_messages");
        assert(mfn@ == messages_fn_name(ty));
        let (calls, n) = messages_calls_exec(ifs, &self.msg_ty, &mfn);

        let mut r = emit_types_part(ifs, sylvia, wrapper_name, &bg, &wh, &ca, &cname, self.msg_ty, types);
        let cq = self.custom.query_or_default(sylvia);
        let cm = self.custom.msg_or_default(sylvia);
        let ctx = self.msg_ty.emit_ctx_type(sylvia, &cq);
        let ret = self.msg_ty.emit_result_type(sylvia, &cm, &self.error.error);
        let p2 = emit_dispatch_part(ifs, sylvia, wrapper_name, &bg, &wh, &ca, &cname, &self.contract, self.msg_ty, &ctx, &ret, &calls, n);
        tokens::extend_toks(&mut r, &p2);
        let p3 = emit_conversions_part(ifs, sylvia, wrapper_name, &self.generics, &bg, &wh, &ca, &cname, &self.contract, self.msg_ty, &calls, n, &mfn, &acc);
        tokens::extend_toks(&mut r, &p3);
        r
    }
}

/// The calls listing the message names of each interface and of the
/// contract, joined by commas, and their number.
fn messages_calls_exec(ifs: &Interfaces, msg_ty: &MsgType, mfn: &String) -> (r: (Vec<Tok>, u64))
    requires
        mfn@ == messages_fn_name(*msg_ty),
    ensures
        tokens::toks(r.0@) == comma_join(all_messages_calls(interfaces_view(ifs.interfaces@), *msg_ty)),
        r.1 == ifs.interfaces@.len() + 1,
{
    let ghost is = interfaces_view(ifs.interfaces@);
    let mut calls_v = ifs.emit_messages_call(msg_ty);
    let ghost before = calls_v@;
    let mut own: Vec<Tok> = Vec::new();
    tokens::push_punct(&mut own, '&');
    tokens::push_tok(&mut own, Tok::Ident(mfn.clone()));
    tokens::push_tok(&mut own, Tok::Open(Delim::Paren));
    tokens::push_tok(&mut own, Tok::Close(Delim::Paren));
    assert(tokens::toks(own@) =~= seq![tokens::pc('&'), TokV::Ident(messages_fn_name(*msg_ty)), TokV::Open(Delim::Paren), TokV::Close(Delim::Paren)]);
    calls_v.push(own);
    assert forall|k: int| 0 <= k < is.len() implies parser::toks2(calls_v@)[k] == all_messages_calls(is, *msg_ty)[k] by {
        assert(calls_v@[k] == before[k]);
    }
    assert(parser::toks2(calls_v@) =~= all_messages_calls(is, *msg_ty));
    let n = calls_v.len() as u64;
    let mut calls: Vec<Tok> = Vec::new();
    push_comma_joined(&mut calls, &calls_v);
    assert(tokens::toks(calls@) =~= comma_join(all_messages_calls(is, *msg_ty)));
    (calls, n)
}

#[verifier::rlimit(30)]
fn emit_types_part(
    ifs: &Interfaces,
    sylvia: &Vec<Tok>,
    wn: &String,
    bg: &Vec<Tok>,
    wh: &Vec<Tok>,
    ca: &Vec<Tok>,
    cname: &Vec<Tok>,
    ty: MsgType,
    types: &Vec<Vec<Tok>>,
) -> (r: Vec<Tok>)
    ensures
        tokens::toks(r@) == glue_part_types(
            wn@,
            tokens::toks(bg@),
            tokens::toks(wh@),
            tokens::toks(ca@),
            tokens::toks(cname@),
            interfaces_view(ifs.interfaces@),
            ty,
            parser::toks2(types@),
            tokens::toks(sylvia@),
        ),
{
    let ghost is = interfaces_view(ifs.interfaces@);
    let ghost sy = tokens::toks(sylvia@);
    let vs_v = ifs.emit_glue_message_variants(sylvia, &ty);
    assert(parser::toks2(vs_v@) =~= Seq::new(is.len(), |k: int| glue_variant(sy, is[k], ty)));
    let mut vs: Vec<Tok> = Vec::new();
    push_each_with_comma(&mut vs, &vs_v);
    let mut r = glue_enum_exec(wn, bg, wh, &vs, cname, ca, sylvia);
    let mut subs_v: Vec<Vec<Tok>> = Vec::new();
    let mut k: usize = 0;
    while k < types.len()
        invariant
            k <= types@.len(),
            subs_v@.len() == k,
            forall|q: int| 0 <= q < k ==> tokens::toks((#[trigger] subs_v@[q])@) == subschema(tokens::toks(types@[q]@)),
        decreases types@.len() - k,
    {
        let s = subschema_exec(&types[k]);
        subs_v.push(s);
        k = k + 1;
    }
    assert(parser::toks2(subs_v@) =~= Seq::new(types@.len(), |q: int| subschema(parser::toks2(types@)[q])));
    let mut subs: Vec<Tok> = Vec::new();
    push_concat(&mut subs, &subs_v);
    let p2 = glue_schema_exec(wn, bg, wh, &subs, ca, sylvia);
    tokens::extend_toks(&mut r, &p2);
    r
}

#[verifier::rlimit(30)]
fn emit_dispatch_part(
    ifs: &Interfaces,
    sylvia: &Vec<Tok>,
    wn: &String,
    bg: &Vec<Tok>,
    wh: &Vec<Tok>,
    ca: &Vec<Tok>,
    cname: &Vec<Tok>,
    contract: &Vec<Tok>,
    ty: MsgType,
    ctx: &Vec<Tok>,
    ret: &Vec<Tok>,
    calls: &Vec<Tok>,
    n: u64,
) -> (r: Vec<Tok>)
    requires
        n == ifs.interfaces@.len() + 1,
    ensures
        tokens::toks(r@) == glue_part_dispatch(
            wn@,
            tokens::toks(bg@),
            tokens::toks(wh@),
            tokens::toks(ca@),
            tokens::toks(cname@),
            tokens::toks(contract@),
            interfaces_view(ifs.interfaces@),
            ty,
            tokens::toks(ctx@),
            tokens::toks(ret@),
            tokens::toks(calls@),
            tokens::toks(sylvia@),
        ),
{
    let ghost is = interfaces_view(ifs.interfaces@);
    let ghost sy = tokens::toks(sylvia@);
    let arms_v = ifs.emit_dispatch_arms(sylvia, wn, &ty);
    assert(parser::toks2(arms_v@) =~= Seq::new(is.len(), |q: int| interface_dispatch_arm(wn@, is[q], ty, sy)));
    let mut arms: Vec<Tok> = Vec::new();
    push_each_with_comma(&mut arms, &arms_v);
    let mut r = glue_dispatch_exec(wn, bg, wh, contract, ctx, ret, n, calls, &arms, cname, sylvia);
    if ty == MsgType::Query {
        let mut rs_v = ifs.emit_response_schemas_calls(sylvia, &ty);
        let ghost before = rs_v@;
        let mut own_rs = tokens::copy_toks(ca);
        tokens::push_punct(&mut own_rs, ':');
        tokens::push_punct(&mut own_rs, ':');
        tokens::push_ident(&mut own_rs, "response_schemas_impl");
        tokens::push_tok(&mut own_rs, Tok::Open(Delim::Paren));
        tokens::push_tok(&mut own_rs, Tok::Close(Delim::Paren));
        assert(tokens::toks(own_rs@) =~= tokens::toks(ca@) + tokens::colon2() + seq![
            tokens::id("response_schemas_impl"),
            TokV::Open(Delim::Paren),
            TokV::Close(Delim::Paren),
        ]);
        rs_v.push(own_rs);
        assert forall|k: int| 0 <= k < is.len() implies parser::toks2(rs_v@)[k] == all_schemas_calls(is, ty, tokens::toks(ca@), sy)[k] by {
            assert(rs_v@[k] == before[k]);
        }
        assert(parser::toks2(rs_v@) =~= all_schemas_calls(is, ty, tokens::toks(ca@), sy));
        let mut rs: Vec<Tok> = Vec::new();
        push_comma_joined(&mut rs, &rs_v);
        let p4 = glue_responses_exec(wn, bg, wh, &rs, sylvia);
        tokens::extend_toks(&mut r, &p4);
    } else {
        assert(tokens::toks(r@) =~= tokens::toks(r@) + Seq::<TokV>::empty());
    }
    r
}

#[verifier::rlimit(30)]
fn emit_conversions_part(
    ifs: &Interfaces,
    sylvia: &Vec<Tok>,
    wn: &String,
    gs: &Vec<Vec<Tok>>,
    bg: &Vec<Tok>,
    wh: &Vec<Tok>,
    ca: &Vec<Tok>,
    cname: &Vec<Tok>,
    contract: &Vec<Tok>,
    ty: MsgType,
    calls: &Vec<Tok>,
    n: u64,
    mfn: &String,
    acc: &String,
) -> (r: Vec<Tok>)
    requires
        n == ifs.interfaces@.len() + 1,
        mfn@ == messages_fn_name(ty),
        acc@ == msg_type::accessor_name(ty, false),
    ensures
        tokens::toks(r@) == glue_part_conversions(
            wn@,
            parser::toks2(gs@),
            tokens::toks(bg@),
            tokens::toks(wh@),
            tokens::toks(ca@),
            tokens::toks(cname@),
            tokens::toks(contract@),
            interfaces_view(ifs.interfaces@),
            ty,
            tokens::toks(calls@),
            tokens::toks(sylvia@),
        ),
{
    let ghost is = interfaces_view(ifs.interfaces@);
    let att_v = ifs.emit_deserialization_attempts(&ty);
    assert(parser::toks2(att_v@) =~= Seq::new(is.len(), |q: int| deserialization_attempt(is[q], ty)));
    let mut att: Vec<Tok> = Vec::new();
    push_concat(&mut att, &att_v);
    let own_att = contract_attempt_exec(mfn, cname);
    tokens::extend_toks(&mut att, &own_att);
    let mut gsc: Vec<Tok> = Vec::new();
    push_each_with_comma(&mut gsc, gs);
    assert(tokens::toks(gsc@) =~= each_with_comma(parser::toks2(gs@)));
    let mut r = glue_deserialize_exec(wn, bg, wh, &gsc, &att, n, calls, sylvia);
    let p6 = glue_from_exec(wn, bg, wh, ca, cname);
    tokens::extend_toks(&mut r, &p6);
    let mut froms_v: Vec<Vec<Tok>> = Vec::new();
    let mut k: usize = 0;
    while k < ifs.interfaces.len()
        invariant
            k <= is.len(),
            is == interfaces_view(ifs.interfaces@),
            froms_v@.len() == k,
            forall|q: int|
                0 <= q < k ==> tokens::toks((#[trigger] froms_v@[q])@) == glue_from(
                    wn@,
                    tokens::toks(bg@),
                    tokens::toks(wh@),
                    interface_messages_item(tokens::toks(contract@), is[q].module, acc@),
                    seq![TokV::Ident(is[q].variant)],
                ),
        decreases is.len() - k,
    {
        let src = interface_messages_item_exec(contract, &ifs.interfaces[k].module, acc);
        let mut var: Vec<Tok> = Vec::new();
        tokens::push_tok(&mut var, Tok::Ident(ifs.interfaces[k].variant.clone()));
        assert(tokens::toks(var@) =~= seq![TokV::Ident(is[k as int].variant)]);
        let f = glue_from_exec(wn, bg, wh, &src, &var);
        froms_v.push(f);
        k = k + 1;
    }
    assert(parser::toks2(froms_v@) =~= Seq::new(
        is.len(),
        |q: int| glue_from(
            wn@,
            tokens::toks(bg@),
            tokens::toks(wh@),
            interface_messages_item(tokens::toks(contract@), is[q].module, acc@),
            seq![TokV::Ident(is[q].variant)],
        ),
    ));
    let mut froms: Vec<Tok> = Vec::new();
    push_concat(&mut froms, &froms_v);
    tokens::extend_toks(&mut r, &froms);
    r
}

} // verus!
