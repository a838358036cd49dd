//! Planning of the reply handling of a contract.
//!
//! Every method marked `#[sv::msg(reply, ..)]` handles the replies of one or
//! more reply ids, each named after a handler (or after the method itself).
//! Handlers sharing a reply id are grouped into one [`ReplyData`], provided
//! they do not handle the same outcome; the grouped handlers must take the
//! same payload parameters.
use vstd::prelude::*;
use crate::case::{self, TextCase};
use crate::diag::Diag;
use crate::tokens::{self, Tok, TokV, Delim};
use crate::msg_type;
use crate::parser::{self, Attribute, AttributeV};
use crate::tokens::ParseError;

verus! {

/// On which outcome of a sub-message a handler is called.
#[derive(Clone, Copy, PartialEq, Eq, Structural, Debug)]
pub enum ReplyOn {
    Success,
    Error,
    Always,
}

/// Whether two handlers of one reply id cannot stand together: they handle
/// the same outcome, or one of them handles every outcome.
pub open spec fn excludes(a: ReplyOn, b: ReplyOn) -> bool {
    a == b || a == ReplyOn::Always || b == ReplyOn::Always
}

impl ReplyOn {
    /// Whether `self` and `other` cannot be handled by two handlers of one reply id.
    pub fn excludes(&self, other: &ReplyOn) -> (b: bool)
        ensures
            b == excludes(*self, *other),
    {
        *self == *other || *self == ReplyOn::Always || *other == ReplyOn::Always
    }
}

/// Options of the `#[sv::data(..)]` attribute of a parameter.
#[derive(Clone, Copy, PartialEq, Eq, Structural, Debug)]
pub struct DataAttr {
    pub raw: bool,
    pub opt: bool,
    pub instantiate: bool,
}

/// No option: the data is deserialized from an execute response and required.
pub open spec fn no_data_options() -> DataAttr {
    DataAttr { raw: false, opt: false, instantiate: false }
}

/// The options of `data(..)` from position `i` on, separated by commas (a
/// trailing comma is allowed), added to `a`.
pub open spec fn p_data_from(t: Seq<TokV>, i: int, a: DataAttr) -> Result<DataAttr, ParseError>
    decreases t.len() - i,
{
    if i < 0 || i >= t.len() {
        Ok(a)
    } else if !tokens::ident_at(t, i) {
        Err(ParseError::ExpectedIdent)
    } else {
        let o = parser::ident_text(t[i]);
        let b = if o == "raw"@ {
            Some(DataAttr { raw: true, ..a })
        } else if o == "opt"@ {
            Some(DataAttr { opt: true, ..a })
        } else if o == "instantiate"@ {
            Some(DataAttr { instantiate: true, ..a })
        } else {
            None
        };
        match b {
            None => Err(ParseError::InvalidDataOption),
            Some(b) => if i + 1 >= t.len() {
                Ok(b)
            } else if !tokens::punct_at(t, i + 1, ',') {
                Err(ParseError::ExpectedComma)
            } else {
                p_data_from(t, i + 2, b)
            },
        }
    }
}

/// The grammar of `#[sv::data]` and `#[sv::data(..)]`: a list, possibly
/// empty, of the options `raw`, `opt` and `instantiate`.
pub open spec fn p_data_attr(args: Option<Seq<TokV>>) -> Result<DataAttr, ParseError> {
    match args {
        None => Ok(no_data_options()),
        Some(t) => p_data_from(t, 0, no_data_options()),
    }
}

/// The grammar of `#[sv::payload(raw)]`.
pub open spec fn p_payload_attr(args: Option<Seq<TokV>>) -> Result<(), ParseError> {
    match args {
        None => Err(ParseError::ExpectedList),
        Some(t) => if !tokens::ident_at(t, 0) {
            Err(ParseError::ExpectedIdent)
        } else if !tokens::ident_is(t, 0, "raw"@) {
            Err(ParseError::InvalidPayloadOption)
        } else if t.len() != 1 {
            Err(ParseError::UnexpectedToken)
        } else {
            Ok(())
        },
    }
}

/// What the attributes `as_` of a parameter say of it: the options of its
/// first `sv::data` attribute that parses, whether a `sv::payload`
/// attribute parses, and the errors met on the way.
pub open spec fn field_attrs_scan(as_: Seq<AttributeV>) -> (Option<DataAttr>, bool, Seq<Diag>)
    decreases as_.len(),
{
    if as_.len() == 0 {
        (None, false, Seq::empty())
    } else {
        let (data, payload, diags) = field_attrs_scan(as_.drop_last());
        let k = (as_.len() - 1) as usize;
        let a = as_.last();
        if parser::sylvia_attr(a) == Some("data"@) {
            match p_data_attr(a.args) {
                Ok(d) => (if data is Some { data } else { Some(d) }, payload, diags),
                Err(e) => (data, payload, diags.push(Diag::AttrParse { attr: k, error: e })),
            }
        } else if parser::sylvia_attr(a) == Some("payload"@) {
            match p_payload_attr(a.args) {
                Ok(_) => (data, true, diags),
                Err(e) => (data, payload, diags.push(Diag::AttrParse { attr: k, error: e })),
            }
        } else {
            (data, payload, diags)
        }
    }
}

impl DataAttr {
    /// Reads the arguments of `#[sv::data]` or `#[sv::data(..)]`.
    pub fn parse(args: &Option<Vec<Tok>>) -> (r: Result<DataAttr, ParseError>)
        ensures
            r == p_data_attr(
                match args {
                    Some(t) => Some(tokens::toks(t@)),
                    None => None,
                },
            ),
    {
        let t = match args {
            None => {
                return Ok(DataAttr { raw: false, opt: false, instantiate: false });
            },
            Some(t) => t,
        };
        let ghost tv = tokens::toks(t@);
        let mut a = DataAttr { raw: false, opt: false, instantiate: false };
        let mut i: usize = 0;
        while i < t.len()
            invariant
                tv == tokens::toks(t@),
                p_data_attr(
                    match args {
                        Some(t) => Some(tokens::toks(t@)),
                        None => None,
                    },
                ) == p_data_from(tv, 0, no_data_options()),
                i <= t.len() + 1,
                p_data_from(tv, 0, no_data_options()) == p_data_from(tv, i as int, a),
            decreases t.len() + 1 - i,
        {
            if !tokens::ident_at_exec(t, i) {
                return Err(ParseError::ExpectedIdent);
            }
            let o = parser::ident_text_exec(t, i);
            if tokens::string_is(&o, "raw") {
                a = DataAttr { raw: true, ..a };
            } else if tokens::string_is(&o, "opt") {
                a = DataAttr { opt: true, ..a };
            } else if tokens::string_is(&o, "instantiate") {
                a = DataAttr { instantiate: true, ..a };
            } else {
                return Err(ParseError::InvalidDataOption);
            }
            if i + 1 >= t.len() {
                return Ok(a);
            }
            if !tokens::punct_at_exec(t, i + 1, ',') {
                return Err(ParseError::ExpectedComma);
            }
            i = i + 2;
        }
        Ok(a)
    }
}

/// Reads the arguments of `#[sv::payload(..)]`.
fn parse_payload_attr(args: &Option<Vec<Tok>>) -> (r: Result<(), ParseError>)
    ensures
        r == p_payload_attr(
            match args {
                Some(t) => Some(tokens::toks(t@)),
                None => None,
            },
        ),
{
    match args {
        None => Err(ParseError::ExpectedList),
        Some(t) => if !tokens::ident_at_exec(t, 0) {
            Err(ParseError::ExpectedIdent)
        } else if !tokens::ident_is_exec(t, 0, "raw") {
            Err(ParseError::InvalidPayloadOption)
        } else if t.len() != 1 {
            Err(ParseError::UnexpectedToken)
        } else {
            Ok(())
        },
    }
}

/// A parameter of a message handler.
#[derive(Clone, Debug)]
pub struct MsgField {
    pub name: String,
    pub ty: Vec<Tok>,
    /// The parameter's `#[sv::data(..)]` attribute, if it has one.
    pub data: Option<DataAttr>,
    /// Whether the parameter is marked `#[sv::payload(raw)]`.
    pub payload: bool,
}

pub struct MsgFieldV {
    pub name: Seq<char>,
    pub ty: Seq<TokV>,
    pub data: Option<DataAttr>,
    pub payload: bool,
}

impl View for MsgField {
    type V = MsgFieldV;

    open spec fn view(&self) -> MsgFieldV {
        MsgFieldV { name: self.name@, ty: tokens::toks(self.ty@), data: self.data, payload: self.payload }
    }
}

impl MsgField {
    /// The parameter `name : ty` with the attributes `attrs`: its data
    /// options and payload marker; reports attributes that do not parse.
    pub fn new(name: String, ty: Vec<Tok>, attrs: &Vec<Attribute>) -> (r: (MsgField, Vec<Diag>))
        ensures
            r.0@.name == name@,
            r.0@.ty == tokens::toks(ty@),
            r.0.data == field_attrs_scan(parser::attrs_view(attrs@)).0,
            r.0.payload == field_attrs_scan(parser::attrs_view(attrs@)).1,
            r.1@ == field_attrs_scan(parser::attrs_view(attrs@)).2,
    {
        let ghost av = parser::attrs_view(attrs@);
        let mut data: Option<DataAttr> = None;
        let mut payload = false;
        let mut diags: Vec<Diag> = Vec::new();
        let mut k: usize = 0;
        while k < attrs.len()
            invariant
                av == parser::attrs_view(attrs@),
                k <= attrs.len(),
                field_attrs_scan(av.take(k as int)) == (data, payload, diags@),
            decreases attrs.len() - k,
        {
            assert(av.take(k + 1).drop_last() =~= av.take(k as int));
            assert(av.take(k + 1).last() == attrs@[k as int]@);
            let a = &attrs[k];
            if parser::is_sylvia_attr_named(a, "data") {
                match DataAttr::parse(&a.args) {
                    Ok(d) => {
                        if data.is_none() {
                            data = Some(d);
                        }
                    },
                    Err(e) => {
                        diags.push(Diag::AttrParse { attr: k, error: e });
                    },
                }
            } else if parser::is_sylvia_attr_named(a, "payload") {
                match parse_payload_attr(&a.args) {
                    Ok(_) => {
                        payload = true;
                    },
                    Err(e) => {
                        diags.push(Diag::AttrParse { attr: k, error: e });
                    },
                }
            }
            k = k + 1;
        }
        assert(av.take(k as int) =~= av);
        (MsgField { name, ty, data, payload }, diags)
    }
}

/// A method of a contract or an interface that handles a message.
#[derive(Clone, Debug)]
pub struct MsgVariant {
    pub function_name: String,
    /// The kind of message the method handles.
    pub msg_type: msg_type::MsgType,
    /// For a reply handler: the results it handles.
    pub reply_on: ReplyOn,
    /// For a reply handler: the handler names given in the attribute; none
    /// means the method's name.
    pub handlers: Vec<String>,
    /// The parameters following the context.
    pub fields: Vec<MsgField>,
    /// For a query: the type of the response; empty for other messages.
    pub return_type: Vec<Tok>,
}

pub struct MsgVariantV {
    pub function_name: Seq<char>,
    pub msg_type: msg_type::MsgType,
    pub reply_on: ReplyOn,
    pub handlers: Seq<Seq<char>>,
    pub fields: Seq<MsgFieldV>,
    pub return_type: Seq<TokV>,
}

impl View for MsgVariant {
    type V = MsgVariantV;

    open spec fn view(&self) -> MsgVariantV {
        MsgVariantV {
            function_name: self.function_name@,
            msg_type: self.msg_type,
            reply_on: self.reply_on,
            handlers: Seq::new(self.handlers@.len(), |i: int| self.handlers@[i]@),
            fields: Seq::new(self.fields@.len(), |i: int| self.fields@[i]@),
            return_type: tokens::toks(self.return_type@),
        }
    }
}

impl MsgVariant {
    /// A method declared by `#[msg(reply)]` with the parameters `fields`
    /// after its context: it handles the success of the sub-messages sent
    /// with the reply id named after the method.
    pub fn reply_method(function_name: String, fields: Vec<MsgField>) -> (r: MsgVariant)
        ensures
            r@.function_name == function_name@,
            r.msg_type == msg_type::MsgType::Reply,
            r.reply_on == ReplyOn::Success,
            r@.handlers.len() == 0,
            r@.fields == Seq::new(fields@.len(), |i: int| fields@[i]@),
            r@.return_type.len() == 0,
    {
        MsgVariant { function_name, msg_type: msg_type::MsgType::Reply, reply_on: ReplyOn::Success, handlers: Vec::new(), fields, return_type: Vec::new() }
    }
}

/// The values of a sequence of methods.
pub open spec fn variants_view(v: Seq<MsgVariant>) -> Seq<MsgVariantV> {
    Seq::new(v.len(), |i: int| v[i]@)
}

/// One reply id with its handlers.
#[derive(Debug)]
pub struct ReplyData {
    /// The name of the constant holding the reply id.
    pub reply_id: String,
    /// The method whose handler name gave the reply id.
    pub variant: usize,
    /// Which of its handler names gave the reply id; none means the method's name.
    pub handler: Option<usize>,
    /// The methods handling the reply id, with the outcome each one handles.
    pub handlers: Vec<(usize, ReplyOn)>,
    /// The data parameter of the first method, if it has one.
    pub data: Option<usize>,
    /// The payload parameters of the first method are its parameters from this index on.
    pub payload_from: usize,
}

pub struct ReplyDataV {
    pub reply_id: Seq<char>,
    pub variant: usize,
    pub handler: Option<usize>,
    pub handlers: Seq<(usize, ReplyOn)>,
    pub data: Option<usize>,
    pub payload_from: usize,
}

impl View for ReplyData {
    type V = ReplyDataV;

    open spec fn view(&self) -> ReplyDataV {
        ReplyDataV {
            reply_id: self.reply_id@,
            variant: self.variant,
            handler: self.handler,
            handlers: self.handlers@,
            data: self.data,
            payload_from: self.payload_from,
        }
    }
}

/// The values of a sequence of reply ids.
pub open spec fn datas_view(v: Seq<ReplyData>) -> Seq<ReplyDataV> {
    Seq::new(v.len(), |i: int| v[i]@)
}

/// The name of the constant of the reply id named after `name`:
/// `name` in upper snake case followed by `_REPLY_ID`.
pub open spec fn reply_id_of(name: Seq<char>) -> Seq<char> {
    case::converted(name, TextCase::UpperSnake) + "_REPLY_ID"@
}

/// The handler name that `handler` selects in `v`.
pub open spec fn handler_name(v: MsgVariantV, handler: Option<usize>) -> Seq<char> {
    match handler {
        Some(j) => v.handlers[j as int],
        None => v.function_name,
    }
}

/// The handler names of method `vi`: its listed handlers, or its own name.
pub open spec fn variant_pairs(vi: usize, v: MsgVariantV) -> Seq<(usize, Option<usize>)> {
    if v.handlers.len() == 0 {
        seq![(vi, None::<usize>)]
    } else {
        Seq::new(v.handlers.len(), |j: int| (vi, Some(j as usize)))
    }
}

/// The (method, handler) pairs of all the methods, in order.
pub open spec fn all_pairs(vs: Seq<MsgVariantV>) -> Seq<(usize, Option<usize>)>
    decreases vs.len(),
{
    if vs.len() == 0 {
        Seq::empty()
    } else {
        all_pairs(vs.drop_last()) + variant_pairs((vs.len() - 1) as usize, vs.last())
    }
}

/// The index of the first parameter carrying `#[sv::data]`.
pub open spec fn first_data(fields: Seq<MsgFieldV>) -> Option<int>
    decreases fields.len(),
{
    if fields.len() == 0 {
        None
    } else {
        match first_data(fields.drop_last()) {
            Some(i) => Some(i),
            None => if fields.last().data is Some {
                Some(fields.len() - 1)
            } else {
                None
            },
        }
    }
}

/// The data parameter of a handler: the first parameter, when it carries
/// `#[sv::data]` and the handler handles success.
pub open spec fn data_field(v: MsgVariantV) -> Option<usize> {
    match first_data(v.fields) {
        Some(k) => if v.reply_on == ReplyOn::Success && k == 0 {
            Some(0usize)
        } else {
            None
        },
        None => None,
    }
}

/// Errors on the use of `#[sv::data]` by method `vi`.
pub open spec fn data_diags(vi: usize, v: MsgVariantV) -> Seq<Diag> {
    match first_data(v.fields) {
        Some(k) => if v.reply_on != ReplyOn::Success {
            seq![Diag::DataNotInSuccess { variant: vi, field: k as usize }]
        } else if k != 0 {
            seq![Diag::DataNotFirst { variant: vi, field: k as usize }]
        } else {
            Seq::empty()
        },
        None => Seq::empty(),
    }
}

/// Index of the first payload parameter: the parameters after the data
/// parameter, or after the result of a handler not only for success.
pub open spec fn payload_from(v: MsgVariantV) -> usize {
    if data_field(v) is Some || v.reply_on != ReplyOn::Success {
        1
    } else {
        0
    }
}

/// Number of payload parameters.
pub open spec fn payload_len(v: MsgVariantV) -> int {
    if v.fields.len() >= payload_from(v) {
        v.fields.len() - payload_from(v)
    } else {
        0
    }
}

/// Offset, among the payload parameters, of the first one marked `#[sv::payload(raw)]`.
pub open spec fn first_raw_payload(fields: Seq<MsgFieldV>, from: int) -> Option<int>
    decreases fields.len(),
{
    if fields.len() == 0 || fields.len() <= from {
        None
    } else {
        match first_raw_payload(fields.drop_last(), from) {
            Some(i) => Some(i),
            None => if fields.last().payload {
                Some(fields.len() - 1 - from)
            } else {
                None
            },
        }
    }
}

/// Errors on parameters around the one marked `#[sv::payload(raw)]`:
/// it must be the only payload parameter.
pub open spec fn redundant_diags(vi: usize, v: MsgVariantV) -> Seq<Diag> {
    let from = payload_from(v);
    if payload_len(v) == 1 {
        Seq::empty()
    } else {
        match first_raw_payload(v.fields, from as int) {
            None => Seq::empty(),
            Some(k) => if k == 0 {
                seq![Diag::RedundantPayloadAfter { variant: vi, field: (from + 1) as usize, payload_field: from }]
            } else {
                seq![Diag::RedundantPayloadBetween { variant: vi, field: from, payload_field: (from + k) as usize }]
            },
        }
    }
}

/// Errors on the parameters of method `vi` as a reply handler.
pub open spec fn new_diags(vi: usize, v: MsgVariantV) -> Seq<Diag> {
    data_diags(vi, v) + (if payload_len(v) == 0 {
        seq![Diag::MissingPayload { variant: vi }]
    } else {
        Seq::empty()
    }) + redundant_diags(vi, v)
}

/// The reply id named after `handler` of method `vi`, handled by that method alone.
pub open spec fn new_data(rid: Seq<char>, vi: usize, v: MsgVariantV, handler: Option<usize>) -> ReplyDataV {
    ReplyDataV {
        reply_id: rid,
        variant: vi,
        handler: handler,
        handlers: seq![(vi, v.reply_on)],
        data: data_field(v),
        payload_from: payload_from(v),
    }
}

/// Errors on payload parameters of different types, over the first `k` of them.
pub open spec fn mismatch_diags(
    vi: usize,
    a: Seq<MsgFieldV>,
    a_from: usize,
    wi: usize,
    b: Seq<MsgFieldV>,
    b_from: usize,
    k: nat,
) -> Seq<Diag>
    decreases k,
{
    if k == 0 {
        Seq::empty()
    } else {
        let i = (k - 1) as nat;
        mismatch_diags(vi, a, a_from, wi, b, b_from, i) + (if a[a_from + i].ty != b[b_from + i].ty {
            seq![Diag::MismatchedParam {
                variant: vi,
                field: (a_from + i) as usize,
                new_variant: wi,
                new_field: (b_from + i) as usize,
            }]
        } else {
            Seq::empty()
        })
    }
}

/// Errors when method `wi` joins reply id `d` as a further handler.
pub open spec fn merge_diags(vs: Seq<MsgVariantV>, d: ReplyDataV, wi: usize) -> Seq<Diag> {
    let v = vs[d.variant as int];
    let w = vs[wi as int];
    let la = if v.fields.len() >= d.payload_from { v.fields.len() - d.payload_from } else { 0 };
    let lb = payload_len(w);
    new_diags(wi, w) + (if la != lb {
        seq![Diag::MismatchedParamCount { variant: d.variant, new_variant: wi }]
    } else {
        Seq::empty()
    }) + mismatch_diags(
        d.variant,
        v.fields,
        d.payload_from,
        wi,
        w.fields,
        payload_from(w),
        (if la <= lb { la } else { lb }) as nat,
    )
}

/// Whether method `wi` takes the payload parameters of the first handler of
/// reply id `d`: as many, and of the same types.
pub open spec fn payloads_match(vs: Seq<MsgVariantV>, d: ReplyDataV, wi: usize) -> bool {
    let v = vs[d.variant as int];
    let w = vs[wi as int];
    let la = if v.fields.len() >= d.payload_from { v.fields.len() - d.payload_from } else { 0 };
    let lb = payload_len(w);
    la == lb && mismatch_diags(d.variant, v.fields, d.payload_from, wi, w.fields, payload_from(w), la as nat).len() == 0
}

/// Reply id `d` after method `wi` joins it: the method is added as a
/// further handler only when its payload parameters match.
pub open spec fn merged(vs: Seq<MsgVariantV>, d: ReplyDataV, wi: usize) -> ReplyDataV {
    if payloads_match(vs, d, wi) {
        ReplyDataV { handlers: d.handlers.push((wi, vs[wi as int].reply_on)), ..d }
    } else {
        d
    }
}

/// Errors when method `wi` handles an outcome that reply id `d` already handles.
pub open spec fn dup_diags(d: ReplyDataV, wi: usize) -> Seq<Diag> {
    Seq::new(
        d.handlers.len(),
        |m: int|
            Diag::DuplicatedReplyHandler {
                variant: wi,
                existing_variant: d.handlers[m].0,
                existing_reply_on: d.handlers[m].1,
            },
    )
}

/// The position of the reply id `rid` among the planned ones.
pub open spec fn find_reply(ds: Seq<ReplyDataV>, rid: Seq<char>) -> Option<int>
    decreases ds.len(),
{
    if ds.len() == 0 {
        None
    } else {
        match find_reply(ds.drop_last(), rid) {
            Some(i) => Some(i),
            None => if ds.last().reply_id == rid {
                Some(ds.len() - 1)
            } else {
                None
            },
        }
    }
}

/// Whether one of the handlers of `d` cannot stand beside a handler of `r`.
pub open spec fn any_excludes(d: ReplyDataV, r: ReplyOn) -> bool {
    exists|m: int| 0 <= m < d.handlers.len() && excludes(#[trigger] d.handlers[m].1, r)
}

/// The plan after handler `p` is considered.
pub open spec fn step(
    vs: Seq<MsgVariantV>,
    st: (Seq<ReplyDataV>, Seq<Diag>),
    p: (usize, Option<usize>),
) -> (Seq<ReplyDataV>, Seq<Diag>) {
    let vi = p.0;
    let v = vs[vi as int];
    let rid = reply_id_of(handler_name(v, p.1));
    match find_reply(st.0, rid) {
        None => (st.0.push(new_data(rid, vi, v, p.1)), st.1 + new_diags(vi, v)),
        Some(k) => {
            let d = st.0[k];
            if any_excludes(d, v.reply_on) {
                (st.0, st.1 + dup_diags(d, vi))
            } else {
                (st.0.update(k, merged(vs, d, vi)), st.1 + merge_diags(vs, d, vi))
            }
        },
    }
}

/// The plan after the handlers `ps` are considered in order.
pub open spec fn plan(vs: Seq<MsgVariantV>, ps: Seq<(usize, Option<usize>)>) -> (Seq<ReplyDataV>, Seq<Diag>)
    decreases ps.len(),
{
    if ps.len() == 0 {
        (Seq::empty(), Seq::empty())
    } else {
        step(vs, plan(vs, ps.drop_last()), ps.last())
    }
}

/// The reply ids of the methods `vs`, with the errors found on the way.
pub open spec fn reply_plan(vs: Seq<MsgVariantV>) -> (Seq<ReplyDataV>, Seq<Diag>) {
    plan(vs, all_pairs(vs))
}


proof fn lemma_first_data_prefix(s: Seq<MsgFieldV>, n: int)
    requires
        0 <= n <= s.len(),
        first_data(s.take(n)) is Some,
    ensures
        first_data(s) == first_data(s.take(n)),
    decreases s.len(),
{
    if n == s.len() {
        assert(s.take(n) =~= s);
    } else {
        assert(s.drop_last().take(n) =~= s.take(n));
        lemma_first_data_prefix(s.drop_last(), n);
    }
}

proof fn lemma_first_raw_prefix(s: Seq<MsgFieldV>, from: int, n: int)
    requires
        0 <= n <= s.len(),
        first_raw_payload(s.take(n), from) is Some,
    ensures
        first_raw_payload(s, from) == first_raw_payload(s.take(n), from),
    decreases s.len(),
{
    if n == s.len() {
        assert(s.take(n) =~= s);
    } else {
        assert(s.drop_last().take(n) =~= s.take(n));
        lemma_first_raw_prefix(s.drop_last(), from, n);
    }
}

proof fn lemma_find_reply_prefix(s: Seq<ReplyDataV>, rid: Seq<char>, n: int)
    requires
        0 <= n <= s.len(),
        find_reply(s.take(n), rid) is Some,
    ensures
        find_reply(s, rid) == find_reply(s.take(n), rid),
    decreases s.len(),
{
    if n == s.len() {
        assert(s.take(n) =~= s);
    } else {
        assert(s.drop_last().take(n) =~= s.take(n));
        lemma_find_reply_prefix(s.drop_last(), rid, n);
    }
}

/// The reply id named after the handler `name`: `name` in upper snake case
/// followed by `_REPLY_ID`.
pub fn as_reply_id(name: &String) -> (r: String)
    ensures
        r@ == reply_id_of(name@),
{
    let mut s = case::to_case(name.as_str(), TextCase::UpperSnake);
    s.append("_REPLY_ID");
    s
}

/// The name of the message variant of a method: its name in upper camel case.
pub open spec fn variant_name(v: MsgVariantV) -> Seq<char> {
    case::converted(v.function_name, TextCase::UpperCamel)
}

impl MsgVariant {
    /// The name of the message variant of the method.
    pub fn name(&self) -> (r: String)
        ensures
            r@ == variant_name(self@),
    {
        case::to_case(self.function_name.as_str(), TextCase::UpperCamel)
    }

    /// The (method, handler) pairs of the method at index `vi`: one per
    /// handler name given in its attribute, or one naming the method itself
    /// when none is given.
    pub fn as_variant_handlers_pair(&self, vi: usize) -> (r: Vec<(usize, Option<usize>)>)
        ensures
            r@ == variant_pairs(vi, self@),
    {
        let mut r: Vec<(usize, Option<usize>)> = Vec::new();
        let mut j: usize = 0;
        while j < self.handlers.len()
            invariant
                j <= self.handlers.len(),
                r@ == Seq::new(j as nat, |k: int| (vi, Some(k as usize))),
            decreases self.handlers.len() - j,
        {
            r.push((vi, Some(j)));
            assert(r@ =~= Seq::new((j + 1) as nat, |k: int| (vi, Some(k as usize))));
            j = j + 1;
        }
        if r.len() == 0 {
            let one: Vec<(usize, Option<usize>)> = vec![(vi, None)];
            assert(one@ =~= variant_pairs(vi, self@));
            return one;
        }
        assert(r@ =~= variant_pairs(vi, self@));
        r
    }

    /// The index of the first parameter carrying `#[sv::data]`.
    fn find_data(&self) -> (r: Option<usize>)
        ensures
            match r {
                Some(k) => first_data(self@.fields) == Some(k as int),
                None => first_data(self@.fields) is None,
            },
    {
        let ghost fs = self@.fields;
        let mut i: usize = 0;
        while i < self.fields.len()
            invariant
                fs == self@.fields,
                i <= self.fields.len(),
                first_data(fs.take(i as int)) is None,
            decreases self.fields.len() - i,
        {
            assert(fs.take(i + 1).drop_last() =~= fs.take(i as int));
            if self.fields[i].data.is_some() {
                proof {
                    lemma_first_data_prefix(fs, i + 1);
                }
                return Some(i);
            }
            i = i + 1;
        }
        assert(fs.take(i as int) =~= fs);
        None
    }

    /// The data parameter of the handler, reporting a misplaced `#[sv::data]`.
    pub fn as_data_field(&self, vi: usize, diags: &mut Vec<Diag>) -> (r: Option<usize>)
        ensures
            r == data_field(self@),
            final(diags)@ == old(diags)@ + data_diags(vi, self@),
    {
        match self.find_data() {
            Some(k) => {
                if self.reply_on != ReplyOn::Success {
                    diags.push(Diag::DataNotInSuccess { variant: vi, field: k });
                    None
                } else if k != 0 {
                    diags.push(Diag::DataNotFirst { variant: vi, field: k });
                    None
                } else {
                    assert(old(diags)@ + data_diags(vi, self@) =~= old(diags)@);
                    Some(0)
                }
            },
            None => {
                assert(old(diags)@ + data_diags(vi, self@) =~= old(diags)@);
                None
            },
        }
    }

    /// The offset, after `from`, of the first parameter marked `#[sv::payload(raw)]`.
    fn find_raw_payload(&self, from: usize) -> (r: Option<usize>)
        ensures
            match r {
                Some(k) => first_raw_payload(self@.fields, from as int) == Some(k as int),
                None => first_raw_payload(self@.fields, from as int) is None,
            },
            r matches Some(k) ==> from + k < self.fields.len(),
    {
        let ghost fs = self@.fields;
        if from >= self.fields.len() {
            return None;
        }
        let mut i: usize = from;
        assert(first_raw_payload(fs.take(i as int), from as int) is None);
        while i < self.fields.len()
            invariant
                fs == self@.fields,
                from <= i <= self.fields.len(),
                first_raw_payload(fs.take(i as int), from as int) is None,
            decreases self.fields.len() - i,
        {
            assert(fs.take(i + 1).drop_last() =~= fs.take(i as int));
            if self.fields[i].payload {
                proof {
                    lemma_first_raw_prefix(fs, from as int, i + 1);
                }
                return Some(i - from);
            }
            i = i + 1;
        }
        assert(fs.take(i as int) =~= fs);
        None
    }
}

/// Reports parameters besides the one marked `#[sv::payload(raw)]`, which
/// must then be the only payload parameter of handler `vi`.
fn assert_no_redundant_params(v: &MsgVariant, vi: usize, from: usize, diags: &mut Vec<Diag>)
    requires
        from == payload_from(v@),
    ensures
        final(diags)@ == old(diags)@ + redundant_diags(vi, v@),
{
    let len = if v.fields.len() >= from { v.fields.len() - from } else { 0 };
    if len == 1 {
        assert(old(diags)@ + redundant_diags(vi, v@) =~= old(diags)@);
        return;
    }
    match v.find_raw_payload(from) {
        None => {
            assert(old(diags)@ + redundant_diags(vi, v@) =~= old(diags)@);
        },
        Some(k) => {
            if k == 0 {
                diags.push(Diag::RedundantPayloadAfter { variant: vi, field: from + 1, payload_field: from });
            } else {
                diags.push(Diag::RedundantPayloadBetween { variant: vi, field: from, payload_field: from + k });
            }
        },
    }
}

impl ReplyData {
    /// The reply id `reply_id`, named after `handler` of method `vi`, handled
    /// by that method alone; reports the errors on its parameters.
    pub fn new(reply_id: String, variants: &Vec<MsgVariant>, vi: usize, handler: Option<usize>, diags: &mut Vec<Diag>) -> (r: ReplyData)
        requires
            vi < variants.len(),
        ensures
            r@ == new_data(reply_id@, vi, variants@[vi as int]@, handler),
            final(diags)@ == old(diags)@ + new_diags(vi, variants@[vi as int]@),
    {
        let v = &variants[vi];
        let ghost d0 = diags@;
        let data = v.as_data_field(vi, diags);
        let from: usize = if data.is_some() || v.reply_on != ReplyOn::Success { 1 } else { 0 };
        let ghost d1 = diags@;
        if v.fields.len() <= from {
            diags.push(Diag::MissingPayload { variant: vi });
        }
        let ghost d2 = diags@;
        assert(d2 == d1 + (if payload_len(v@) == 0 {
            seq![Diag::MissingPayload { variant: vi }]
        } else {
            Seq::<Diag>::empty()
        }));
        assert_no_redundant_params(v, vi, from, diags);
        assert(diags@ =~= d0 + new_diags(vi, v@));
        let mut handlers: Vec<(usize, ReplyOn)> = Vec::new();
        handlers.push((vi, v.reply_on));
        assert(handlers@ =~= seq![(vi, v.reply_on)]);
        ReplyData { reply_id, variant: vi, handler, handlers, data, payload_from: from }
    }
}


/// Every planned reply id names one of the methods and has at least one handler.
pub open spec fn wf_datas(ds: Seq<ReplyDataV>, n: int) -> bool {
    forall|k: int| 0 <= k < ds.len() ==> (#[trigger] ds[k]).variant < n && ds[k].handlers.len() > 0
}

/// The indices held by a reply id point into the methods: its method, the
/// methods of its handlers, its handler name and its data parameter.
pub open spec fn data_indices_valid(vs: Seq<MsgVariantV>, d: ReplyDataV) -> bool {
    &&& d.variant < vs.len()
    &&& forall|m: int| 0 <= m < d.handlers.len() ==> (#[trigger] d.handlers[m]).0 < vs.len()
    &&& (d.handler matches Some(j) ==> j < vs[d.variant as int].handlers.len())
    &&& (d.data matches Some(x) ==> x < vs[d.variant as int].fields.len())
}

/// The indices held by every planned reply id point into the methods.
pub open spec fn indices_valid(vs: Seq<MsgVariantV>, ds: Seq<ReplyDataV>) -> bool {
    forall|k: int| 0 <= k < ds.len() ==> data_indices_valid(vs, #[trigger] ds[k])
}

proof fn lemma_first_data_bound(fields: Seq<MsgFieldV>)
    ensures
        first_data(fields) matches Some(k) ==> 0 <= k < fields.len(),
    decreases fields.len(),
{
    if fields.len() > 0 {
        lemma_first_data_bound(fields.drop_last());
    }
}

impl ReplyData {
    /// A copy of the reply id.
    pub fn copy(&self) -> (r: ReplyData)
        ensures
            r@ == self@,
    {
        let mut handlers: Vec<(usize, ReplyOn)> = Vec::new();
        let mut i: usize = 0;
        while i < self.handlers.len()
            invariant
                i <= self.handlers.len(),
                handlers@ == self.handlers@.take(i as int),
            decreases self.handlers.len() - i,
        {
            let h = self.handlers[i];
            handlers.push(h);
            assert(self.handlers@.take(i + 1) =~= self.handlers@.take(i as int).push(h));
            i = i + 1;
        }
        assert(self.handlers@.take(i as int) =~= self.handlers@);
        ReplyData {
            reply_id: self.reply_id.clone(),
            variant: self.variant,
            handler: self.handler,
            handlers,
            data: self.data,
            payload_from: self.payload_from,
        }
    }

    /// Adds method `wi` as a further handler of the reply id when its payload
    /// parameters match those of the first handler; reports those that do not.
    pub fn merge(&mut self, variants: &Vec<MsgVariant>, wi: usize, diags: &mut Vec<Diag>)
        requires
            old(self).variant < variants.len(),
            wi < variants.len(),
        ensures
            old(self).handlers.len() == 0 ==> final(self)@ == old(self)@ && final(diags)@ == old(diags)@,
            old(self).handlers.len() > 0 ==> final(self)@ == merged(variants_view(variants@), old(self)@, wi),
            old(self).handlers.len() > 0 ==> final(diags)@ == old(diags)@ + merge_diags(
                variants_view(variants@),
                old(self)@,
                wi,
            ),
    {
        if self.handlers.len() == 0 {
            return;
        }
        let ghost vs = variants_view(variants@);
        let ghost d0 = diags@;
        let new_data = ReplyData::new(self.reply_id.clone(), variants, wi, self.handler, diags);
        let ghost d1 = diags@;
        let v = &variants[self.variant];
        let w = &variants[wi];
        assert(vs[self.variant as int] == v@);
        assert(vs[wi as int] == w@);
        let a_from = self.payload_from;
        let b_from = new_data.payload_from;
        let la: usize = if v.fields.len() >= a_from { v.fields.len() - a_from } else { 0 };
        let lb: usize = if w.fields.len() >= b_from { w.fields.len() - b_from } else { 0 };
        if la != lb {
            diags.push(Diag::MismatchedParamCount { variant: self.variant, new_variant: wi });
        }
        let ghost d2 = diags@;
        let mut same = true;
        let n: usize = if la <= lb { la } else { lb };
        let mut i: usize = 0;
        while i < n
            invariant
                i <= n,
                n <= la,
                n <= lb,
                la == (if v.fields.len() >= a_from { v.fields.len() - a_from } else { 0 }),
                lb == (if w.fields.len() >= b_from { w.fields.len() - b_from } else { 0 }),
                diags@ == d2 + mismatch_diags(self.variant, v@.fields, a_from, wi, w@.fields, b_from, i as nat),
                same == (mismatch_diags(self.variant, v@.fields, a_from, wi, w@.fields, b_from, i as nat).len() == 0),
            decreases n - i,
        {
            let ghost prev = diags@;
            if !tokens::toks_equal(&v.fields[a_from + i].ty, &w.fields[b_from + i].ty) {
                same = false;
                diags.push(Diag::MismatchedParam {
                    variant: self.variant,
                    field: a_from + i,
                    new_variant: wi,
                    new_field: b_from + i,
                });
            }
            assert(v@.fields[a_from + i] == v.fields@[a_from + i]@);
            assert(w@.fields[b_from + i] == w.fields@[b_from + i]@);
            assert(diags@ =~= d2 + mismatch_diags(self.variant, v@.fields, a_from, wi, w@.fields, b_from, (i + 1) as nat));
            i = i + 1;
        }
        assert(diags@ =~= d0 + merge_diags(vs, self@, wi));
        if la == lb && same {
            self.handlers.push((wi, w.reply_on));
        }
    }
}

/// The position of reply id `rid` among `datas`.
fn find_reply_exec(datas: &Vec<ReplyData>, rid: &String) -> (r: Option<usize>)
    ensures
        match r {
            Some(k) => k < datas.len() && find_reply(datas_view(datas@), rid@) == Some(k as int),
            None => find_reply(datas_view(datas@), rid@) is None,
        },
{
    let ghost ds = datas_view(datas@);
    let mut i: usize = 0;
    while i < datas.len()
        invariant
            ds == datas_view(datas@),
            i <= datas.len(),
            find_reply(ds.take(i as int), rid@) is None,
        decreases datas.len() - i,
    {
        assert(ds.take(i + 1).drop_last() =~= ds.take(i as int));
        assert(ds.take(i + 1).last() == datas@[i as int]@);
        if datas[i].reply_id.eq(rid) {
            proof {
                lemma_find_reply_prefix(ds, rid@, i + 1);
            }
            return Some(i);
        }
        i = i + 1;
    }
    assert(ds.take(i as int) =~= ds);
    None
}

/// Whether a handler of `d` cannot stand beside one of `r`.
fn any_excludes_exec(d: &ReplyData, r: ReplyOn) -> (b: bool)
    ensures
        b == any_excludes(d@, r),
{
    let mut m: usize = 0;
    while m < d.handlers.len()
        invariant
            m <= d.handlers.len(),
            forall|j: int| 0 <= j < m ==> !excludes(#[trigger] d.handlers@[j].1, r),
        decreases d.handlers.len() - m,
    {
        if d.handlers[m].1.excludes(&r) {
            assert(excludes(d@.handlers[m as int].1, r));
            return true;
        }
        m = m + 1;
    }
    false
}

/// Considers handler `handler` of method `vi`: it opens a new reply id,
/// joins the reply id of the same name, or is reported as a duplicate.
fn consider(
    datas: &mut Vec<ReplyData>,
    diags: &mut Vec<Diag>,
    variants: &Vec<MsgVariant>,
    vi: usize,
    handler: Option<usize>,
)
    requires
        vi < variants.len(),
        handler matches Some(j) ==> j < variants@[vi as int].handlers.len(),
        wf_datas(datas_view(old(datas)@), variants.len() as int),
        indices_valid(variants_view(variants@), datas_view(old(datas)@)),
    ensures
        wf_datas(datas_view(final(datas)@), variants.len() as int),
        indices_valid(variants_view(variants@), datas_view(final(datas)@)),
        (datas_view(final(datas)@), final(diags)@) == step(
            variants_view(variants@),
            (datas_view(old(datas)@), old(diags)@),
            (vi, handler),
        ),
{
    let ghost vs = variants_view(variants@);
    let ghost ds0 = datas_view(datas@);
    let ghost dg0 = diags@;
    let v = &variants[vi];
    assert(vs[vi as int] == v@);
    let name: &String = match handler {
        Some(j) => &v.handlers[j],
        None => &v.function_name,
    };
    assert(name@ == handler_name(v@, handler));
    let rid = as_reply_id(name);
    match find_reply_exec(datas, &rid) {
        None => {
            let d = ReplyData::new(rid, variants, vi, handler, diags);
            proof {
                lemma_first_data_bound(v@.fields);
                assert(data_indices_valid(vs, d@));
            }
            datas.push(d);
            assert(datas_view(datas@) =~= ds0.push(d@));
            assert forall|q: int| 0 <= q < datas_view(datas@).len() implies data_indices_valid(vs, #[trigger] datas_view(datas@)[q]) by {
                if q < ds0.len() {
                    assert(datas_view(datas@)[q] == ds0[q]);
                }
            }
        },
        Some(k) => {
            assert(ds0[k as int] == datas@[k as int]@);
            if any_excludes_exec(&datas[k], v.reply_on) {
                let dk = &datas[k];
                let mut m: usize = 0;
                while m < dk.handlers.len()
                    invariant
                        m <= dk.handlers.len(),
                        diags@ == dg0 + dup_diags(dk@, vi).take(m as int),
                    decreases dk.handlers.len() - m,
                {
                    let (ev, er) = dk.handlers[m];
                    diags.push(Diag::DuplicatedReplyHandler { variant: vi, existing_variant: ev, existing_reply_on: er });
                    assert(dup_diags(dk@, vi).take(m + 1) =~= dup_diags(dk@, vi).take(m as int).push(
                        Diag::DuplicatedReplyHandler { variant: vi, existing_variant: ev, existing_reply_on: er },
                    ));
                    m = m + 1;
                }
                assert(dup_diags(dk@, vi).take(m as int) =~= dup_diags(dk@, vi));
            } else {
                let mut d = datas[k].copy();
                d.merge(variants, vi, diags);
                let ghost dv = d@;
                proof {
                    assert(data_indices_valid(vs, ds0[k as int]));
                    assert forall|m: int| 0 <= m < dv.handlers.len() implies (#[trigger] dv.handlers[m]).0 < vs.len() by {
                        if m < ds0[k as int].handlers.len() {
                            assert(dv.handlers[m] == ds0[k as int].handlers[m]);
                        }
                    }
                    assert(data_indices_valid(vs, dv));
                }
                datas.set(k, d);
                assert(datas_view(datas@) =~= ds0.update(k as int, dv));
                assert forall|q: int| 0 <= q < datas_view(datas@).len() implies data_indices_valid(vs, #[trigger] datas_view(datas@)[q]) by {
                    if q != k {
                        assert(datas_view(datas@)[q] == ds0[q]);
                    }
                }
            }
        },
    }
}

/// Groups the reply handlers of `variants` by reply id, in the order of the
/// methods and of their handler names, and reports duplicated handlers and
/// mismatched parameters.
pub fn as_reply_data(variants: &Vec<MsgVariant>) -> (r: (Vec<ReplyData>, Vec<Diag>))
    ensures
        (datas_view(r.0@), r.1@) == reply_plan(variants_view(variants@)),
        wf_datas(datas_view(r.0@), variants.len() as int),
        indices_valid(variants_view(variants@), datas_view(r.0@)),
{
    let ghost vs = variants_view(variants@);
    let mut datas: Vec<ReplyData> = Vec::new();
    let mut diags: Vec<Diag> = Vec::new();
    let mut i: usize = 0;
    assert(datas_view(datas@) =~= Seq::<ReplyDataV>::empty());
    assert(all_pairs(vs.take(0)) =~= Seq::<(usize, Option<usize>)>::empty());
    while i < variants.len()
        invariant
            vs == variants_view(variants@),
            i <= variants.len(),
            wf_datas(datas_view(datas@), variants.len() as int),
            indices_valid(vs, datas_view(datas@)),
            (datas_view(datas@), diags@) == plan(vs, all_pairs(vs.take(i as int))),
        decreases variants.len() - i,
    {
        let ghost before = all_pairs(vs.take(i as int));
        let ghost vp = variant_pairs(i, vs[i as int]);
        assert(vs.take(i + 1).drop_last() =~= vs.take(i as int));
        assert(all_pairs(vs.take(i + 1)) == before + vp);
        let v = &variants[i];
        assert(vs[i as int] == v@);
        let ps = v.as_variant_handlers_pair(i);
        let mut j: usize = 0;
        assert(before + vp.take(0) =~= before);
        while j < ps.len()
            invariant
                vs == variants_view(variants@),
                i < variants.len(),
                vp == variant_pairs(i, vs[i as int]),
                ps@ == vp,
                j <= ps@.len(),
                wf_datas(datas_view(datas@), variants.len() as int),
                indices_valid(vs, datas_view(datas@)),
                (datas_view(datas@), diags@) == plan(vs, before + vp.take(j as int)),
            decreases ps.len() - j,
        {
            let (vi, h) = ps[j];
            assert(variants@[i as int]@ == vs[i as int]);
            consider(&mut datas, &mut diags, variants, vi, h);
            assert((before + vp.take(j + 1)).drop_last() =~= before + vp.take(j as int));
            assert((before + vp.take(j + 1)).last() == (vi, h));
            j = j + 1;
        }
        assert(vp.take(ps@.len() as int) =~= vp);
        i = i + 1;
    }
    assert(vs.take(i as int) =~= vs);
    (datas, diags)
}


proof fn lemma_find_reply(ds: Seq<ReplyDataV>, rid: Seq<char>)
    ensures
        match find_reply(ds, rid) {
            Some(k) => 0 <= k < ds.len() && ds[k].reply_id == rid,
            None => forall|k: int| 0 <= k < ds.len() ==> (#[trigger] ds[k]).reply_id != rid,
        },
    decreases ds.len(),
{
    if ds.len() > 0 {
        lemma_find_reply(ds.drop_last(), rid);
        assert forall|k: int| 0 <= k < ds.len() - 1 implies ds.drop_last()[k] == ds[k] by {}
    }
}

/// The reply ids are pairwise distinct.
pub open spec fn ids_distinct(ds: Seq<ReplyDataV>) -> bool {
    forall|a: int, b: int| 0 <= a < ds.len() && 0 <= b < ds.len() && a != b ==> (#[trigger] ds[a]).reply_id != (#[trigger] ds[b]).reply_id
}

/// No two handlers of one reply id handle overlapping outcomes.
pub open spec fn handlers_compatible(d: ReplyDataV) -> bool {
    forall|a: int, b: int|
        0 <= a < d.handlers.len() && 0 <= b < d.handlers.len() && a != b ==> !excludes(
            (#[trigger] d.handlers[a]).1,
            (#[trigger] d.handlers[b]).1,
        )
}

/// Each reply id is named after the handler it came from, and that handler's
/// method is the first to handle it.
pub open spec fn id_from_source(vs: Seq<MsgVariantV>, d: ReplyDataV) -> bool {
    &&& d.reply_id == reply_id_of(handler_name(vs[d.variant as int], d.handler))
    &&& d.handlers.len() > 0
    &&& d.handlers[0] == (d.variant, vs[d.variant as int].reply_on)
}

/// The reply id of every considered handler is planned.
pub open spec fn covers(vs: Seq<MsgVariantV>, ds: Seq<ReplyDataV>, ps: Seq<(usize, Option<usize>)>) -> bool {
    forall|i: int|
        0 <= i < ps.len() ==> exists|k: int|
            0 <= k < ds.len() && (#[trigger] ds[k]).reply_id == reply_id_of(
                handler_name(vs[(#[trigger] ps[i]).0 as int], ps[i].1),
            )
}

proof fn lemma_plan(vs: Seq<MsgVariantV>, ps: Seq<(usize, Option<usize>)>)
    ensures
        ids_distinct(plan(vs, ps).0),
        forall|k: int| 0 <= k < plan(vs, ps).0.len() ==> handlers_compatible(#[trigger] plan(vs, ps).0[k]),
        forall|k: int| 0 <= k < plan(vs, ps).0.len() ==> id_from_source(vs, #[trigger] plan(vs, ps).0[k]),
        covers(vs, plan(vs, ps).0, ps),
    decreases ps.len(),
{
    if ps.len() > 0 {
        let prev = plan(vs, ps.drop_last());
        lemma_plan(vs, ps.drop_last());
        let p = ps.last();
        let v = vs[p.0 as int];
        let rid = reply_id_of(handler_name(v, p.1));
        lemma_find_reply(prev.0, rid);
        let ds = prev.0;
        let nds = plan(vs, ps).0;
        match find_reply(ds, rid) {
            None => {
                assert(nds == ds.push(new_data(rid, p.0, v, p.1)));
                assert forall|k: int| 0 <= k < nds.len() implies handlers_compatible(#[trigger] nds[k]) by {
                    if k < ds.len() {
                        assert(nds[k] == ds[k]);
                    }
                }
                assert forall|k: int| 0 <= k < nds.len() implies id_from_source(vs, #[trigger] nds[k]) by {
                    if k < ds.len() {
                        assert(nds[k] == ds[k]);
                    }
                }
                assert forall|i: int| 0 <= i < ps.len() implies exists|k: int|
                    0 <= k < nds.len() && (#[trigger] nds[k]).reply_id == reply_id_of(
                        handler_name(vs[(#[trigger] ps[i]).0 as int], ps[i].1),
                    ) by {
                    if i < ps.len() - 1 {
                        assert(ps.drop_last()[i] == ps[i]);
                        let k = choose|k: int|
                            0 <= k < ds.len() && (#[trigger] ds[k]).reply_id == reply_id_of(
                                handler_name(vs[ps.drop_last()[i].0 as int], ps.drop_last()[i].1),
                            );
                        assert(nds[k] == ds[k]);
                    } else {
                        assert(nds[ds.len() as int].reply_id == rid);
                    }
                }
            },
            Some(k0) => {
                let d = ds[k0];
                if any_excludes(d, v.reply_on) {
                    assert(nds == ds);
                    assert forall|i: int| 0 <= i < ps.len() implies exists|k: int|
                        0 <= k < nds.len() && (#[trigger] nds[k]).reply_id == reply_id_of(
                            handler_name(vs[(#[trigger] ps[i]).0 as int], ps[i].1),
                        ) by {
                        if i < ps.len() - 1 {
                            assert(ps.drop_last()[i] == ps[i]);
                        } else {
                            assert(nds[k0].reply_id == rid);
                        }
                    }
                } else if !payloads_match(vs, d, p.0) {
                    assert(nds =~= ds);
                    assert forall|i: int| 0 <= i < ps.len() implies exists|k: int|
                        0 <= k < nds.len() && (#[trigger] nds[k]).reply_id == reply_id_of(
                            handler_name(vs[(#[trigger] ps[i]).0 as int], ps[i].1),
                        ) by {
                        if i < ps.len() - 1 {
                            assert(ps.drop_last()[i] == ps[i]);
                        } else {
                            assert(nds[k0].reply_id == rid);
                        }
                    }
                } else {
                    let nd = ReplyDataV { handlers: d.handlers.push((p.0, v.reply_on)), ..d };
                    assert(nds == ds.update(k0, nd));
                    assert(handlers_compatible(nd)) by {
                        assert forall|a: int, b: int|
                            0 <= a < nd.handlers.len() && 0 <= b < nd.handlers.len() && a != b implies !excludes(
                                (#[trigger] nd.handlers[a]).1,
                                (#[trigger] nd.handlers[b]).1,
                            ) by {
                            if a < d.handlers.len() && b < d.handlers.len() {
                                assert(nd.handlers[a] == d.handlers[a]);
                                assert(nd.handlers[b] == d.handlers[b]);
                                assert(handlers_compatible(ds[k0]));
                            } else if a < d.handlers.len() {
                                assert(nd.handlers[a] == d.handlers[a]);
                                assert(!excludes(d.handlers[a].1, v.reply_on));
                            } else {
                                assert(nd.handlers[b] == d.handlers[b]);
                                assert(!excludes(d.handlers[b].1, v.reply_on));
                            }
                        }
                    }
                    assert forall|k: int| 0 <= k < nds.len() implies handlers_compatible(#[trigger] nds[k]) by {
                        if k != k0 {
                            assert(nds[k] == ds[k]);
                        }
                    }
                    assert(id_from_source(vs, ds[k0]));
                    assert(nd.handlers[0] == d.handlers[0]);
                    assert forall|k: int| 0 <= k < nds.len() implies id_from_source(vs, #[trigger] nds[k]) by {
                        if k != k0 {
                            assert(nds[k] == ds[k]);
                        }
                    }
                    assert forall|a: int, b: int| 0 <= a < nds.len() && 0 <= b < nds.len() && a != b implies (#[trigger] nds[a]).reply_id != (#[trigger] nds[b]).reply_id by {
                        assert(ds[a].reply_id == nds[a].reply_id);
                        assert(ds[b].reply_id == nds[b].reply_id);
                    }
                    assert forall|i: int| 0 <= i < ps.len() implies exists|k: int|
                        0 <= k < nds.len() && (#[trigger] nds[k]).reply_id == reply_id_of(
                            handler_name(vs[(#[trigger] ps[i]).0 as int], ps[i].1),
                        ) by {
                        if i < ps.len() - 1 {
                            assert(ps.drop_last()[i] == ps[i]);
                            let k = choose|k: int|
                                0 <= k < ds.len() && (#[trigger] ds[k]).reply_id == reply_id_of(
                                    handler_name(vs[ps.drop_last()[i].0 as int], ps.drop_last()[i].1),
                                );
                            assert(nds[k].reply_id == ds[k].reply_id);
                        } else {
                            assert(nds[k0].reply_id == rid);
                        }
                    }
                }
            },
        }
    }
}

/// Laws of the reply plan: the reply ids are pairwise distinct; no two
/// handlers of one reply id handle overlapping outcomes; every reply id is
/// named after the handler name it came from and is first handled by that
/// handler's method; and the reply id of every handler name of every method
/// is among the planned ones.
pub proof fn reply_plan_laws(vs: Seq<MsgVariantV>)
    ensures
        ids_distinct(reply_plan(vs).0),
        forall|k: int| 0 <= k < reply_plan(vs).0.len() ==> handlers_compatible(#[trigger] reply_plan(vs).0[k]),
        forall|k: int| 0 <= k < reply_plan(vs).0.len() ==> id_from_source(vs, #[trigger] reply_plan(vs).0[k]),
        covers(vs, reply_plan(vs).0, all_pairs(vs)),
{
    lemma_plan(vs, all_pairs(vs));
}


/// Whether one of the handlers handles `r`.
pub open spec fn handles(hs: Seq<(usize, ReplyOn)>, r: ReplyOn) -> bool {
    exists|m: int| 0 <= m < hs.len() && (#[trigger] hs[m]).1 == r
}

/// The `ReplyOn` set on the sub-messages of a reply id: `Always` when a
/// handler handles every outcome or both outcomes have a handler, else the
/// one outcome that has a handler.
pub open spec fn cw_reply_on(d: ReplyDataV) -> ReplyOn {
    if handles(d.handlers, ReplyOn::Always) || (handles(d.handlers, ReplyOn::Success) && handles(
        d.handlers,
        ReplyOn::Error,
    )) {
        ReplyOn::Always
    } else if handles(d.handlers, ReplyOn::Success) {
        ReplyOn::Success
    } else {
        ReplyOn::Error
    }
}

/// The first handler called on outcome `r`: one for `r` or for every outcome.
pub open spec fn first_handler_for(hs: Seq<(usize, ReplyOn)>, r: ReplyOn) -> Option<(usize, ReplyOn)>
    decreases hs.len(),
{
    if hs.len() == 0 {
        None
    } else if hs[0].1 == r || hs[0].1 == ReplyOn::Always {
        Some(hs[0])
    } else {
        first_handler_for(hs.drop_first(), r)
    }
}

/// How the data of a successful reply reaches the handler.
#[derive(Clone, Copy, PartialEq, Eq, Structural, Debug)]
pub enum DataHandling {
    /// The optional raw data is forwarded as it is.
    RawOptional,
    /// The raw data is forwarded; its absence is an error.
    RawRequired,
    /// The data is read as an instantiate response; absent data is forwarded as `None`.
    InstantiateOptional,
    /// The data is read as an instantiate response; its absence is an error.
    InstantiateRequired,
    /// The data is read as an execute response and deserialized; absent data is forwarded as `None`.
    ExecuteOptional,
    /// The data is read as an execute response and deserialized; its absence is an error.
    ExecuteRequired,
}

/// The handling selected by the options of `#[sv::data(..)]`; `raw` takes
/// precedence over `instantiate`, and both over the execute response.
pub open spec fn data_handling(data: Option<DataAttr>) -> DataHandling {
    match data {
        Some(a) => if a.raw && a.opt {
            DataHandling::RawOptional
        } else if a.raw {
            DataHandling::RawRequired
        } else if a.instantiate && a.opt {
            DataHandling::InstantiateOptional
        } else if a.instantiate {
            DataHandling::InstantiateRequired
        } else if a.opt {
            DataHandling::ExecuteOptional
        } else {
            DataHandling::ExecuteRequired
        },
        None => DataHandling::ExecuteRequired,
    }
}

/// `sylvia :: cw_utils :: name`
pub open spec fn cw_utils_item(sylvia: Seq<TokV>, name: &str) -> Seq<TokV> {
    sylvia + seq![tokens::pc(':'), tokens::pc(':'), tokens::id("cw_utils"), tokens::pc(':'), tokens::pc(':')] + seq![tokens::id(name)]
}

/// Appends `sylvia :: cw_utils :: name`.
fn push_cw_utils_item(dst: &mut Vec<Tok>, sylvia: &Vec<Tok>, name: &str)
    ensures
        tokens::toks(final(dst)@) == tokens::toks(old(dst)@) + cw_utils_item(tokens::toks(sylvia@), name),
{
    let ghost s0 = tokens::toks(dst@);
    tokens::extend_toks(dst, sylvia);
    let k1: Vec<Tok> = vec![Tok::Punct(':'), Tok::Punct(':'), Tok::ident("cw_utils"), Tok::Punct(':'), Tok::Punct(':')];
    assert(tokens::toks(k1@) =~= seq![tokens::pc(':'), tokens::pc(':'), tokens::id("cw_utils"), tokens::pc(':'), tokens::pc(':')]);
    tokens::extend_toks(dst, &k1);
    tokens::push_ident(dst, name);
    assert(tokens::toks(dst@) =~= s0 + cw_utils_item(tokens::toks(sylvia@), name));
}

/// `sylvia :: cw_std :: StdError :: generic_err ( args )`
pub open spec fn generic_err(sylvia: Seq<TokV>, args: Seq<TokV>) -> Seq<TokV> {
    msg_type::cw_std_item(sylvia, "StdError") + seq![tokens::pc(':'), tokens::pc(':'), tokens::id("generic_err"), TokV::Open(Delim::Paren)] + args + seq![TokV::Close(Delim::Paren)]
}

/// Appends `sylvia :: cw_std :: StdError :: generic_err ( args )`.
pub(crate) fn push_generic_err(dst: &mut Vec<Tok>, sylvia: &Vec<Tok>, args: &Vec<Tok>)
    ensures
        tokens::toks(final(dst)@) == tokens::toks(old(dst)@) + generic_err(tokens::toks(sylvia@), tokens::toks(args@)),
{
    let ghost s0 = tokens::toks(dst@);
    msg_type::push_cw_std_item(dst, sylvia, "StdError");
    let k1: Vec<Tok> = vec![Tok::Punct(':'), Tok::Punct(':'), Tok::ident("generic_err"), Tok::Open(Delim::Paren)];
    assert(tokens::toks(k1@) =~= seq![tokens::pc(':'), tokens::pc(':'), tokens::id("generic_err"), TokV::Open(Delim::Paren)]);
    tokens::extend_toks(dst, &k1);
    tokens::extend_toks(dst, args);
    let k2: Vec<Tok> = vec![Tok::Close(Delim::Paren)];
    assert(tokens::toks(k2@) =~= seq![TokV::Close(Delim::Paren)]);
    tokens::extend_toks(dst, &k2);
    assert(tokens::toks(dst@) =~= s0 + generic_err(tokens::toks(sylvia@), tokens::toks(args@)));
}

/// `return Err ( Into :: into ( StdError :: generic_err ( "Missing reply data field." ) ) )`
pub open spec fn missing_data_return(sylvia: Seq<TokV>) -> Seq<TokV> {
    seq![tokens::id("return"), tokens::id("Err"), TokV::Open(Delim::Paren), tokens::id("Into"), tokens::pc(':'), tokens::pc(':'), tokens::id("into"), TokV::Open(Delim::Paren)] + generic_err(sylvia, seq![TokV::Lit("\"Missing reply data field.\""@)]) + seq![TokV::Close(Delim::Paren), TokV::Close(Delim::Paren)]
}

/// Appends the early return of the missing data error.
fn push_missing_data_return(dst: &mut Vec<Tok>, sylvia: &Vec<Tok>)
    ensures
        tokens::toks(final(dst)@) == tokens::toks(old(dst)@) + missing_data_return(tokens::toks(sylvia@)),
{
    let ghost s0 = tokens::toks(dst@);
    let k1: Vec<Tok> = vec![Tok::ident("return"), Tok::ident("Err"), Tok::Open(Delim::Paren), Tok::ident("Into"), Tok::Punct(':'), Tok::Punct(':'), Tok::ident("into"), Tok::Open(Delim::Paren)];
    assert(tokens::toks(k1@) =~= seq![tokens::id("return"), tokens::id("Err"), TokV::Open(Delim::Paren), tokens::id("Into"), tokens::pc(':'), tokens::pc(':'), tokens::id("into"), TokV::Open(Delim::Paren)]);
    tokens::extend_toks(dst, &k1);
    let lit: Vec<Tok> = vec![Tok::Lit(String::from_str("\"Missing reply data field.\""))];
    push_generic_err(dst, sylvia, &lit);
    let k2: Vec<Tok> = vec![Tok::Close(Delim::Paren), Tok::Close(Delim::Paren)];
    assert(tokens::toks(k2@) =~= seq![TokV::Close(Delim::Paren), TokV::Close(Delim::Paren)]);
    tokens::extend_toks(dst, &k2);
    assert(tokens::toks(dst@) =~= s0 + missing_data_return(tokens::toks(sylvia@)));
}

/// The id of the transaction in the environment, or `"Missing"`.
pub open spec fn transaction_id() -> Seq<TokV> {
    seq![tokens::id("env"), tokens::pc('.'), tokens::id("transaction"), tokens::pc('.'), tokens::id("as_ref"), TokV::Open(Delim::Paren), TokV::Close(Delim::Paren), tokens::pc('.'), tokens::id("map"), TokV::Open(Delim::Paren), tokens::pc('|'), tokens::id("tx"), tokens::pc('|'), tokens::id("format"), tokens::pc('!'), TokV::Open(Delim::Paren), TokV::Lit("\"{}\""@), tokens::pc(','), tokens::pc('&'), tokens::id("tx"), tokens::pc('.'), tokens::id("index"), TokV::Close(Delim::Paren), TokV::Close(Delim::Paren), tokens::pc('.'), tokens::id("unwrap_or_else"), TokV::Open(Delim::Paren), tokens::pc('|'), tokens::pc('|'), TokV::Lit("\"Missing\""@), tokens::pc('.'), tokens::id("to_string"), TokV::Open(Delim::Paren), TokV::Close(Delim::Paren), TokV::Close(Delim::Paren)]
}

/// Appends the id of the transaction in the environment.
fn push_transaction_id(dst: &mut Vec<Tok>)
    ensures
        tokens::toks(final(dst)@) == tokens::toks(old(dst)@) + transaction_id(),
{
    let ghost s0 = tokens::toks(dst@);
    let k1: Vec<Tok> = vec![Tok::ident("env"), Tok::Punct('.'), Tok::ident("transaction"), Tok::Punct('.'), Tok::ident("as_ref"), Tok::Open(Delim::Paren), Tok::Close(Delim::Paren), Tok::Punct('.'), Tok::ident("map"), Tok::Open(Delim::Paren), Tok::Punct('|'), Tok::ident("tx"), Tok::Punct('|'), Tok::ident("format"), Tok::Punct('!'), Tok::Open(Delim::Paren), Tok::Lit(String::from_str("\"{}\"")), Tok::Punct(','), Tok::Punct('&'), Tok::ident("tx"), Tok::Punct('.'), Tok::ident("index"), Tok::Close(Delim::Paren), Tok::Close(Delim::Paren)];
    assert(tokens::toks(k1@) =~= seq![tokens::id("env"), tokens::pc('.'), tokens::id("transaction"), tokens::pc('.'), tokens::id("as_ref"), TokV::Open(Delim::Paren), TokV::Close(Delim::Paren), tokens::pc('.'), tokens::id("map"), TokV::Open(Delim::Paren), tokens::pc('|'), tokens::id("tx"), tokens::pc('|'), tokens::id("format"), tokens::pc('!'), TokV::Open(Delim::Paren), TokV::Lit("\"{}\""@), tokens::pc(','), tokens::pc('&'), tokens::id("tx"), tokens::pc('.'), tokens::id("index"), TokV::Close(Delim::Paren), TokV::Close(Delim::Paren)]);
    tokens::extend_toks(dst, &k1);
    let k2: Vec<Tok> = vec![Tok::Punct('.'), Tok::ident("unwrap_or_else"), Tok::Open(Delim::Paren), Tok::Punct('|'), Tok::Punct('|'), Tok::Lit(String::from_str("\"Missing\"")), Tok::Punct('.'), Tok::ident("to_string"), Tok::Open(Delim::Paren), Tok::Close(Delim::Paren), Tok::Close(Delim::Paren)];
    assert(tokens::toks(k2@) =~= seq![tokens::pc('.'), tokens::id("unwrap_or_else"), TokV::Open(Delim::Paren), tokens::pc('|'), tokens::pc('|'), TokV::Lit("\"Missing\""@), tokens::pc('.'), tokens::id("to_string"), TokV::Open(Delim::Paren), TokV::Close(Delim::Paren), TokV::Close(Delim::Paren)]);
    tokens::extend_toks(dst, &k2);
    assert(tokens::toks(dst@) =~= s0 + transaction_id());
}

/// The message of an error on reply data that does not deserialize: the block height, the transaction and the error.
pub open spec fn invalid_reply_data_err() -> Seq<TokV> {
    seq![tokens::id("format"), tokens::pc('!'), TokV::Open(Delim::Brace), TokV::Lit("\"Invalid reply data at block height: {}, transaction id: {}.\\nSerde error while deserializing {}\""@), tokens::pc(','), tokens::id("env"), tokens::pc('.'), tokens::id("block"), tokens::pc('.'), tokens::id("height"), tokens::pc(',')] + transaction_id() + seq![tokens::pc(','), tokens::id("err"), TokV::Close(Delim::Brace)]
}

/// Appends the message of an error on reply data that does not deserialize.
fn push_invalid_reply_data_err(dst: &mut Vec<Tok>)
    ensures
        tokens::toks(final(dst)@) == tokens::toks(old(dst)@) + invalid_reply_data_err(),
{
    let ghost s0 = tokens::toks(dst@);
    let k1: Vec<Tok> = vec![Tok::ident("format"), Tok::Punct('!'), Tok::Open(Delim::Brace), Tok::Lit(String::from_str("\"Invalid reply data at block height: {}, transaction id: {}.\\nSerde error while deserializing {}\"")), Tok::Punct(','), Tok::ident("env"), Tok::Punct('.'), Tok::ident("block"), Tok::Punct('.'), Tok::ident("height"), Tok::Punct(',')];
    assert(tokens::toks(k1@) =~= seq![tokens::id("format"), tokens::pc('!'), TokV::Open(Delim::Brace), TokV::Lit("\"Invalid reply data at block height: {}, transaction id: {}.\\nSerde error while deserializing {}\""@), tokens::pc(','), tokens::id("env"), tokens::pc('.'), tokens::id("block"), tokens::pc('.'), tokens::id("height"), tokens::pc(',')]);
    tokens::extend_toks(dst, &k1);
    push_transaction_id(dst);
    let k2: Vec<Tok> = vec![Tok::Punct(','), Tok::ident("err"), Tok::Close(Delim::Brace)];
    assert(tokens::toks(k2@) =~= seq![tokens::pc(','), tokens::id("err"), TokV::Close(Delim::Brace)]);
    tokens::extend_toks(dst, &k2);
    assert(tokens::toks(dst@) =~= s0 + invalid_reply_data_err());
}

/// `let deserialized_data = sylvia :: cw_utils :: parser ( data . as_slice ( ) ) . map_err ( .. ) ? ;`
pub open spec fn parse_response_data(sylvia: Seq<TokV>, parser: &str) -> Seq<TokV> {
    seq![tokens::id("let"), tokens::id("deserialized_data"), tokens::pc('=')] + cw_utils_item(sylvia, parser) + seq![TokV::Open(Delim::Paren), tokens::id("data"), tokens::pc('.'), tokens::id("as_slice"), TokV::Open(Delim::Paren), TokV::Close(Delim::Paren), TokV::Close(Delim::Paren), tokens::pc('.'), tokens::id("map_err"), TokV::Open(Delim::Paren), tokens::pc('|'), tokens::id("err"), tokens::pc('|')] + generic_err(sylvia, seq![tokens::id("format"), tokens::pc('!'), TokV::Open(Delim::Paren), TokV::Lit("\"Failed deserializing protobuf data: {}\""@), tokens::pc(','), tokens::id("err"), TokV::Close(Delim::Paren)]) + seq![TokV::Close(Delim::Paren), tokens::pc('?'), tokens::pc(';')]
}

/// Appends the parse of the protobuf response data with `parser`.
fn push_parse_response_data(dst: &mut Vec<Tok>, sylvia: &Vec<Tok>, parser: &str)
    ensures
        tokens::toks(final(dst)@) == tokens::toks(old(dst)@) + parse_response_data(tokens::toks(sylvia@), parser),
{
    let ghost s0 = tokens::toks(dst@);
    let k1: Vec<Tok> = vec![Tok::ident("let"), Tok::ident("deserialized_data"), Tok::Punct('=')];
    assert(tokens::toks(k1@) =~= seq![tokens::id("let"), tokens::id("deserialized_data"), tokens::pc('=')]);
    tokens::extend_toks(dst, &k1);
    push_cw_utils_item(dst, sylvia, parser);
    let k2: Vec<Tok> = vec![Tok::Open(Delim::Paren), Tok::ident("data"), Tok::Punct('.'), Tok::ident("as_slice"), Tok::Open(Delim::Paren), Tok::Close(Delim::Paren), Tok::Close(Delim::Paren), Tok::Punct('.'), Tok::ident("map_err"), Tok::Open(Delim::Paren), Tok::Punct('|'), Tok::ident("err"), Tok::Punct('|')];
    assert(tokens::toks(k2@) =~= seq![TokV::Open(Delim::Paren), tokens::id("data"), tokens::pc('.'), tokens::id("as_slice"), TokV::Open(Delim::Paren), TokV::Close(Delim::Paren), TokV::Close(Delim::Paren), tokens::pc('.'), tokens::id("map_err"), TokV::Open(Delim::Paren), tokens::pc('|'), tokens::id("err"), tokens::pc('|')]);
    tokens::extend_toks(dst, &k2);
    let args: Vec<Tok> = vec![Tok::ident("format"), Tok::Punct('!'), Tok::Open(Delim::Paren), Tok::Lit(String::from_str("\"Failed deserializing protobuf data: {}\"")), Tok::Punct(','), Tok::ident("err"), Tok::Close(Delim::Paren)];
    push_generic_err(dst, sylvia, &args);
    let k3: Vec<Tok> = vec![Tok::Close(Delim::Paren), Tok::Punct('?'), Tok::Punct(';')];
    assert(tokens::toks(k3@) =~= seq![TokV::Close(Delim::Paren), tokens::pc('?'), tokens::pc(';')]);
    tokens::extend_toks(dst, &k3);
    assert(tokens::toks(dst@) =~= s0 + parse_response_data(tokens::toks(sylvia@), parser));
}

/// The data of an execute response: parsed from protobuf, then its inner data deserialized from JSON; absent inner data is an error.
pub open spec fn execute_data_deserialization(sylvia: Seq<TokV>) -> Seq<TokV> {
    parse_response_data(sylvia, "parse_execute_response_data") + seq![tokens::id("let"), tokens::id("deserialized_data"), tokens::pc('='), tokens::id("match"), tokens::id("deserialized_data"), tokens::pc('.'), tokens::id("data"), TokV::Open(Delim::Brace), tokens::id("Some"), TokV::Open(Delim::Paren), tokens::id("data"), TokV::Close(Delim::Paren), tokens::pc('='), tokens::pc('>')] + msg_type::cw_std_item(sylvia, "from_json") + seq![TokV::Open(Delim::Paren), tokens::pc('&'), tokens::id("data"), TokV::Close(Delim::Paren), tokens::pc('.'), tokens::id("map_err"), TokV::Open(Delim::Paren), tokens::pc('|'), tokens::id("err"), tokens::pc('|')] + generic_err(sylvia, invalid_reply_data_err()) + seq![TokV::Close(Delim::Paren), tokens::pc('?'), tokens::pc(','), tokens::id("None"), tokens::pc('='), tokens::pc('>')] + missing_data_return(sylvia) + seq![tokens::pc(','), TokV::Close(Delim::Brace), tokens::pc(';')]
}

/// Appends the deserialization of execute response data.
fn push_execute_data_deserialization(dst: &mut Vec<Tok>, sylvia: &Vec<Tok>)
    ensures
        tokens::toks(final(dst)@) == tokens::toks(old(dst)@) + execute_data_deserialization(tokens::toks(sylvia@)),
{
    let ghost s0 = tokens::toks(dst@);
    push_parse_response_data(dst, sylvia, "parse_execute_response_data");
    let k1: Vec<Tok> = vec![Tok::ident("let"), Tok::ident("deserialized_data"), Tok::Punct('='), Tok::ident("match"), Tok::ident("deserialized_data"), Tok::Punct('.'), Tok::ident("data"), Tok::Open(Delim::Brace), Tok::ident("Some"), Tok::Open(Delim::Paren), Tok::ident("data"), Tok::Close(Delim::Paren), Tok::Punct('='), Tok::Punct('>')];
    assert(tokens::toks(k1@) =~= seq![tokens::id("let"), tokens::id("deserialized_data"), tokens::pc('='), tokens::id("match"), tokens::id("deserialized_data"), tokens::pc('.'), tokens::id("data"), TokV::Open(Delim::Brace), tokens::id("Some"), TokV::Open(Delim::Paren), tokens::id("data"), TokV::Close(Delim::Paren), tokens::pc('='), tokens::pc('>')]);
    tokens::extend_toks(dst, &k1);
    msg_type::push_cw_std_item(dst, sylvia, "from_json");
    let k2: Vec<Tok> = vec![Tok::Open(Delim::Paren), Tok::Punct('&'), Tok::ident("data"), Tok::Close(Delim::Paren), Tok::Punct('.'), Tok::ident("map_err"), Tok::Open(Delim::Paren), Tok::Punct('|'), Tok::ident("err"), Tok::Punct('|')];
    assert(tokens::toks(k2@) =~= seq![TokV::Open(Delim::Paren), tokens::pc('&'), tokens::id("data"), TokV::Close(Delim::Paren), tokens::pc('.'), tokens::id("map_err"), TokV::Open(Delim::Paren), tokens::pc('|'), tokens::id("err"), tokens::pc('|')]);
    tokens::extend_toks(dst, &k2);
    let mut e: Vec<Tok> = Vec::new();
    push_invalid_reply_data_err(&mut e);
    assert(tokens::toks(e@) =~= invalid_reply_data_err());
    push_generic_err(dst, sylvia, &e);
    let k3: Vec<Tok> = vec![Tok::Close(Delim::Paren), Tok::Punct('?'), Tok::Punct(','), Tok::ident("None"), Tok::Punct('='), Tok::Punct('>')];
    assert(tokens::toks(k3@) =~= seq![TokV::Close(Delim::Paren), tokens::pc('?'), tokens::pc(','), tokens::id("None"), tokens::pc('='), tokens::pc('>')]);
    tokens::extend_toks(dst, &k3);
    push_missing_data_return(dst, sylvia);
    let k4: Vec<Tok> = vec![Tok::Punct(','), Tok::Close(Delim::Brace), Tok::Punct(';')];
    assert(tokens::toks(k4@) =~= seq![tokens::pc(','), TokV::Close(Delim::Brace), tokens::pc(';')]);
    tokens::extend_toks(dst, &k4);
    assert(tokens::toks(dst@) =~= s0 + execute_data_deserialization(tokens::toks(sylvia@)));
}

/// `let data = match data { Some(data) => { body Some(deserialized_data) }, None => None, };`
pub open spec fn optional_data_match(body: Seq<TokV>) -> Seq<TokV> {
    seq![tokens::id("let"), tokens::id("data"), tokens::pc('='), tokens::id("match"), tokens::id("data"), TokV::Open(Delim::Brace), tokens::id("Some"), TokV::Open(Delim::Paren), tokens::id("data"), TokV::Close(Delim::Paren), tokens::pc('='), tokens::pc('>'), TokV::Open(Delim::Brace)] + body + seq![tokens::id("Some"), TokV::Open(Delim::Paren), tokens::id("deserialized_data"), TokV::Close(Delim::Paren), TokV::Close(Delim::Brace), tokens::pc(','), tokens::id("None"), tokens::pc('='), tokens::pc('>'), tokens::id("None"), tokens::pc(','), TokV::Close(Delim::Brace), tokens::pc(';')]
}

/// Appends the match forwarding absent data as `None`.
fn push_optional_data_match(dst: &mut Vec<Tok>, body: &Vec<Tok>)
    ensures
        tokens::toks(final(dst)@) == tokens::toks(old(dst)@) + optional_data_match(tokens::toks(body@)),
{
    let ghost s0 = tokens::toks(dst@);
    let k1: Vec<Tok> = vec![Tok::ident("let"), Tok::ident("data"), Tok::Punct('='), Tok::ident("match"), Tok::ident("data"), Tok::Open(Delim::Brace), Tok::ident("Some"), Tok::Open(Delim::Paren), Tok::ident("data"), Tok::Close(Delim::Paren), Tok::Punct('='), Tok::Punct('>'), Tok::Open(Delim::Brace)];
    assert(tokens::toks(k1@) =~= seq![tokens::id("let"), tokens::id("data"), tokens::pc('='), tokens::id("match"), tokens::id("data"), TokV::Open(Delim::Brace), tokens::id("Some"), TokV::Open(Delim::Paren), tokens::id("data"), TokV::Close(Delim::Paren), tokens::pc('='), tokens::pc('>'), TokV::Open(Delim::Brace)]);
    tokens::extend_toks(dst, &k1);
    tokens::extend_toks(dst, body);
    let k2: Vec<Tok> = vec![Tok::ident("Some"), Tok::Open(Delim::Paren), Tok::ident("deserialized_data"), Tok::Close(Delim::Paren), Tok::Close(Delim::Brace), Tok::Punct(','), Tok::ident("None"), Tok::Punct('='), Tok::Punct('>'), Tok::ident("None"), Tok::Punct(','), Tok::Close(Delim::Brace), Tok::Punct(';')];
    assert(tokens::toks(k2@) =~= seq![tokens::id("Some"), TokV::Open(Delim::Paren), tokens::id("deserialized_data"), TokV::Close(Delim::Paren), TokV::Close(Delim::Brace), tokens::pc(','), tokens::id("None"), tokens::pc('='), tokens::pc('>'), tokens::id("None"), tokens::pc(','), TokV::Close(Delim::Brace), tokens::pc(';')]);
    tokens::extend_toks(dst, &k2);
    assert(tokens::toks(dst@) =~= s0 + optional_data_match(tokens::toks(body@)));
}

/// `let data = match data { Some(data) => { body deserialized_data }, None => return Err(..), };`
pub open spec fn required_data_match(sylvia: Seq<TokV>, body: Seq<TokV>) -> Seq<TokV> {
    seq![tokens::id("let"), tokens::id("data"), tokens::pc('='), tokens::id("match"), tokens::id("data"), TokV::Open(Delim::Brace), tokens::id("Some"), TokV::Open(Delim::Paren), tokens::id("data"), TokV::Close(Delim::Paren), tokens::pc('='), tokens::pc('>'), TokV::Open(Delim::Brace)] + body + seq![tokens::id("deserialized_data"), TokV::Close(Delim::Brace), tokens::pc(','), tokens::id("None"), tokens::pc('='), tokens::pc('>')] + missing_data_return(sylvia) + seq![tokens::pc(','), TokV::Close(Delim::Brace), tokens::pc(';')]
}

/// Appends the match failing on absent data.
fn push_required_data_match(dst: &mut Vec<Tok>, sylvia: &Vec<Tok>, body: &Vec<Tok>)
    ensures
        tokens::toks(final(dst)@) == tokens::toks(old(dst)@) + required_data_match(tokens::toks(sylvia@), tokens::toks(body@)),
{
    let ghost s0 = tokens::toks(dst@);
    let k1: Vec<Tok> = vec![Tok::ident("let"), Tok::ident("data"), Tok::Punct('='), Tok::ident("match"), Tok::ident("data"), Tok::Open(Delim::Brace), Tok::ident("Some"), Tok::Open(Delim::Paren), Tok::ident("data"), Tok::Close(Delim::Paren), Tok::Punct('='), Tok::Punct('>'), Tok::Open(Delim::Brace)];
    assert(tokens::toks(k1@) =~= seq![tokens::id("let"), tokens::id("data"), tokens::pc('='), tokens::id("match"), tokens::id("data"), TokV::Open(Delim::Brace), tokens::id("Some"), TokV::Open(Delim::Paren), tokens::id("data"), TokV::Close(Delim::Paren), tokens::pc('='), tokens::pc('>'), TokV::Open(Delim::Brace)]);
    tokens::extend_toks(dst, &k1);
    tokens::extend_toks(dst, body);
    let k2: Vec<Tok> = vec![Tok::ident("deserialized_data"), Tok::Close(Delim::Brace), Tok::Punct(','), Tok::ident("None"), Tok::Punct('='), Tok::Punct('>')];
    assert(tokens::toks(k2@) =~= seq![tokens::id("deserialized_data"), TokV::Close(Delim::Brace), tokens::pc(','), tokens::id("None"), tokens::pc('='), tokens::pc('>')]);
    tokens::extend_toks(dst, &k2);
    push_missing_data_return(dst, sylvia);
    let k3: Vec<Tok> = vec![Tok::Punct(','), Tok::Close(Delim::Brace), Tok::Punct(';')];
    assert(tokens::toks(k3@) =~= seq![tokens::pc(','), TokV::Close(Delim::Brace), tokens::pc(';')]);
    tokens::extend_toks(dst, &k3);
    assert(tokens::toks(dst@) =~= s0 + required_data_match(tokens::toks(sylvia@), tokens::toks(body@)));
}

/// `let data = match data { Some(data) => data, None => return Err(..), };`
pub open spec fn raw_data_match(sylvia: Seq<TokV>) -> Seq<TokV> {
    seq![tokens::id("let"), tokens::id("data"), tokens::pc('='), tokens::id("match"), tokens::id("data"), TokV::Open(Delim::Brace), tokens::id("Some"), TokV::Open(Delim::Paren), tokens::id("data"), TokV::Close(Delim::Paren), tokens::pc('='), tokens::pc('>'), tokens::id("data"), tokens::pc(','), tokens::id("None"), tokens::pc('='), tokens::pc('>')] + missing_data_return(sylvia) + seq![tokens::pc(','), TokV::Close(Delim::Brace), tokens::pc(';')]
}

/// Appends the match requiring the raw data.
fn push_raw_data_match(dst: &mut Vec<Tok>, sylvia: &Vec<Tok>)
    ensures
        tokens::toks(final(dst)@) == tokens::toks(old(dst)@) + raw_data_match(tokens::toks(sylvia@)),
{
    let ghost s0 = tokens::toks(dst@);
    let k1: Vec<Tok> = vec![Tok::ident("let"), Tok::ident("data"), Tok::Punct('='), Tok::ident("match"), Tok::ident("data"), Tok::Open(Delim::Brace), Tok::ident("Some"), Tok::Open(Delim::Paren), Tok::ident("data"), Tok::Close(Delim::Paren), Tok::Punct('='), Tok::Punct('>'), Tok::ident("data"), Tok::Punct(','), Tok::ident("None"), Tok::Punct('='), Tok::Punct('>')];
    assert(tokens::toks(k1@) =~= seq![tokens::id("let"), tokens::id("data"), tokens::pc('='), tokens::id("match"), tokens::id("data"), TokV::Open(Delim::Brace), tokens::id("Some"), TokV::Open(Delim::Paren), tokens::id("data"), TokV::Close(Delim::Paren), tokens::pc('='), tokens::pc('>'), tokens::id("data"), tokens::pc(','), tokens::id("None"), tokens::pc('='), tokens::pc('>')]);
    tokens::extend_toks(dst, &k1);
    push_missing_data_return(dst, sylvia);
    let k2: Vec<Tok> = vec![Tok::Punct(','), Tok::Close(Delim::Brace), Tok::Punct(';')];
    assert(tokens::toks(k2@) =~= seq![tokens::pc(','), TokV::Close(Delim::Brace), tokens::pc(';')]);
    tokens::extend_toks(dst, &k2);
    assert(tokens::toks(dst@) =~= s0 + raw_data_match(tokens::toks(sylvia@)));
}


/// The code turning the reply data into the value handed to the data
/// parameter, for each way of handling it.
pub open spec fn data_deserialization(h: DataHandling, sylvia: Seq<TokV>) -> Seq<TokV> {
    match h {
        DataHandling::RawOptional => Seq::empty(),
        DataHandling::RawRequired => raw_data_match(sylvia),
        DataHandling::InstantiateOptional => optional_data_match(parse_response_data(sylvia, "parse_instantiate_response_data")),
        DataHandling::InstantiateRequired => required_data_match(sylvia, parse_response_data(sylvia, "parse_instantiate_response_data")),
        DataHandling::ExecuteOptional => optional_data_match(execute_data_deserialization(sylvia)),
        DataHandling::ExecuteRequired => required_data_match(sylvia, execute_data_deserialization(sylvia)),
    }
}

impl MsgField {
    /// How the reply data reaches a handler through this parameter.
    pub fn data_handling(&self) -> (r: DataHandling)
        ensures
            r == data_handling(self.data),
    {
        match self.data {
            Some(a) => if a.raw && a.opt {
                DataHandling::RawOptional
            } else if a.raw {
                DataHandling::RawRequired
            } else if a.instantiate && a.opt {
                DataHandling::InstantiateOptional
            } else if a.instantiate {
                DataHandling::InstantiateRequired
            } else if a.opt {
                DataHandling::ExecuteOptional
            } else {
                DataHandling::ExecuteRequired
            },
            None => DataHandling::ExecuteRequired,
        }
    }

    /// The code turning the reply data into the value of this data parameter.
    pub fn emit_data_deserialization(&self, sylvia: &Vec<Tok>) -> (r: Vec<Tok>)
        ensures
            tokens::toks(r@) == data_deserialization(data_handling(self.data), tokens::toks(sylvia@)),
    {
        let h = self.data_handling();
        let mut r: Vec<Tok> = Vec::new();
        let mut body: Vec<Tok> = Vec::new();
        match h {
            DataHandling::RawOptional => {},
            DataHandling::RawRequired => push_raw_data_match(&mut r, sylvia),
            DataHandling::InstantiateOptional => {
                push_parse_response_data(&mut body, sylvia, "parse_instantiate_response_data");
                push_optional_data_match(&mut r, &body);
            },
            DataHandling::InstantiateRequired => {
                push_parse_response_data(&mut body, sylvia, "parse_instantiate_response_data");
                push_required_data_match(&mut r, sylvia, &body);
            },
            DataHandling::ExecuteOptional => {
                push_execute_data_deserialization(&mut body, sylvia);
                push_optional_data_match(&mut r, &body);
            },
            DataHandling::ExecuteRequired => {
                push_execute_data_deserialization(&mut body, sylvia);
                push_required_data_match(&mut r, sylvia, &body);
            },
        }
        assert(tokens::toks(r@) =~= data_deserialization(data_handling(self.data), tokens::toks(sylvia@)));
        r
    }

}

/// Whether one of the payload parameters (those of `v` from `from` on) is
/// marked `#[sv::payload(raw)]`.
pub open spec fn payload_marked(v: MsgVariantV, from: int) -> bool {
    exists|j: int| from <= j < v.fields.len() && (#[trigger] v.fields[j]).payload
}

/// The names of the payload parameters, separated by commas.
pub open spec fn comma_names(names: Seq<Seq<char>>) -> Seq<TokV>
    decreases names.len(),
{
    if names.len() == 0 {
        Seq::empty()
    } else if names.len() == 1 {
        seq![TokV::Ident(names[0])]
    } else {
        comma_names(names.drop_last()) + seq![TokV::Punct(','), TokV::Ident(names.last())]
    }
}

/// The names of the parameters of `v` from `from` on.
pub open spec fn names_from(v: MsgVariantV, from: int) -> Seq<Seq<char>> {
    Seq::new((if v.fields.len() >= from { v.fields.len() - from } else { 0 }) as nat, |j: int| v.fields[from + j].name)
}

/// `let first = payload ;` when the payload is raw, else
/// `let ( names ) = sylvia :: cw_std :: from_json ( & payload ) ? ;`
pub open spec fn payload_deserialization(v: MsgVariantV, from: int, sylvia: Seq<TokV>) -> Seq<TokV> {
    if payload_marked(v, from) {
        seq![TokV::Ident("let"@), TokV::Ident(v.fields[from].name), TokV::Punct('='), TokV::Ident("payload"@), TokV::Punct(';')]
    } else {
        seq![TokV::Ident("let"@), TokV::Open(tokens::Delim::Paren)] + comma_names(names_from(v, from)) + seq![
            TokV::Close(tokens::Delim::Paren),
            TokV::Punct('='),
        ] + crate::msg_type::cw_std_item(sylvia, "from_json") + seq![
            TokV::Open(tokens::Delim::Paren),
            TokV::Punct('&'),
            TokV::Ident("payload"@),
            TokV::Close(tokens::Delim::Paren),
            TokV::Punct('?'),
            TokV::Punct(';'),
        ]
    }
}

/// `let payload = first ;` when the payload is raw, else
/// `let payload = sylvia :: cw_std :: to_json_binary ( & ( names ) ) ? ;`
pub open spec fn payload_serialization(v: MsgVariantV, from: int, sylvia: Seq<TokV>) -> Seq<TokV> {
    if payload_marked(v, from) {
        seq![TokV::Ident("let"@), TokV::Ident("payload"@), TokV::Punct('='), TokV::Ident(v.fields[from].name), TokV::Punct(';')]
    } else {
        seq![TokV::Ident("let"@), TokV::Ident("payload"@), TokV::Punct('=')] + crate::msg_type::cw_std_item(
            sylvia,
            "to_json_binary",
        ) + seq![
            TokV::Open(tokens::Delim::Paren),
            TokV::Punct('&'),
            TokV::Open(tokens::Delim::Paren),
        ] + comma_names(names_from(v, from)) + seq![
            TokV::Close(tokens::Delim::Paren),
            TokV::Close(tokens::Delim::Paren),
            TokV::Punct('?'),
            TokV::Punct(';'),
        ]
    }
}

/// Appends the names of the parameters of `v` from `from` on, separated by commas.
pub(crate) fn push_comma_names(dst: &mut Vec<Tok>, v: &MsgVariant, from: usize)
    ensures
        tokens::toks(final(dst)@) == tokens::toks(old(dst)@) + comma_names(names_from(v@, from as int)),
{
    let ghost names = names_from(v@, from as int);
    let ghost start = tokens::toks(dst@);
    let n: usize = if v.fields.len() >= from { v.fields.len() - from } else { 0 };
    let mut i: usize = 0;
    assert(names.take(0) =~= Seq::<Seq<char>>::empty());
    while i < n
        invariant
            names == names_from(v@, from as int),
            n == names.len(),
            i <= n,
            n > 0 ==> from + n == v.fields.len(),
            tokens::toks(dst@) == start + comma_names(names.take(i as int)),
        decreases n - i,
    {
        if i > 0 {
            tokens::push_punct(dst, ',');
        }
        let t = Tok::Ident(v.fields[from + i].name.clone());
        tokens::push_tok(dst, t);
        assert(names.take(i + 1).drop_last() =~= names.take(i as int));
        assert(names[i as int] == v@.fields[from + i].name);
        assert(tokens::toks(dst@) =~= start + comma_names(names.take(i + 1)));
        i = i + 1;
    }
    assert(names.take(i as int) =~= names);
}

impl ReplyData {
    /// The `ReplyOn` set on the sub-messages sent with this reply id.
    pub fn cw_reply_on(&self) -> (r: ReplyOn)
        ensures
            r == cw_reply_on(self@),
    {
        let mut is_always = false;
        let mut is_success = false;
        let mut is_error = false;
        let mut m: usize = 0;
        while m < self.handlers.len()
            invariant
                m <= self.handlers.len(),
                is_always == handles(self.handlers@.take(m as int), ReplyOn::Always),
                is_success == handles(self.handlers@.take(m as int), ReplyOn::Success),
                is_error == handles(self.handlers@.take(m as int), ReplyOn::Error),
            decreases self.handlers.len() - m,
        {
            let r = self.handlers[m].1;
            let ghost pre = self.handlers@.take(m as int);
            let ghost post = self.handlers@.take(m + 1);
            assert(post =~= pre.push(self.handlers@[m as int]));
            assert forall|x: ReplyOn| handles(post, x) == (handles(pre, x) || r == x) by {
                if handles(post, x) {
                    let w = choose|w: int| 0 <= w < post.len() && (#[trigger] post[w]).1 == x;
                    if w < pre.len() {
                        assert(pre[w] == post[w]);
                    }
                }
                if handles(pre, x) {
                    let w = choose|w: int| 0 <= w < pre.len() && (#[trigger] pre[w]).1 == x;
                    assert(post[w] == pre[w]);
                }
                if r == x {
                    assert(post[m as int].1 == x);
                }
            }
            match r {
                ReplyOn::Always => { is_always = true; },
                ReplyOn::Success => { is_success = true; },
                ReplyOn::Error => { is_error = true; },
            }
            m = m + 1;
        }
        assert(self.handlers@.take(m as int) =~= self.handlers@);
        if is_always || (is_success && is_error) {
            ReplyOn::Always
        } else if is_success {
            ReplyOn::Success
        } else {
            ReplyOn::Error
        }
    }

    fn first_handler(&self, r: ReplyOn) -> (h: Option<(usize, ReplyOn)>)
        ensures
            h == first_handler_for(self@.handlers, r),
    {
        let ghost hs = self@.handlers;
        let mut m: usize = 0;
        assert(hs.skip(0) =~= hs);
        while m < self.handlers.len()
            invariant
                hs == self@.handlers,
                m <= self.handlers.len(),
                first_handler_for(hs, r) == first_handler_for(hs.skip(m as int), r),
            decreases self.handlers.len() - m,
        {
            let h = self.handlers[m];
            assert(hs.skip(m as int)[0] == h);
            if h.1 == r || h.1 == ReplyOn::Always {
                return Some(h);
            }
            assert(hs.skip(m as int).drop_first() =~= hs.skip(m + 1));
            m = m + 1;
        }
        None
    }

    /// The handler called when the sub-message succeeds: the first one for
    /// success or for every outcome. None means that the events and data of
    /// the reply are forwarded in the response.
    pub fn success_handler(&self) -> (h: Option<(usize, ReplyOn)>)
        ensures
            h == first_handler_for(self@.handlers, ReplyOn::Success),
    {
        self.first_handler(ReplyOn::Success)
    }

    /// The handler called when the sub-message fails: the first one for
    /// errors or for every outcome. None means that the error is forwarded.
    pub fn error_handler(&self) -> (h: Option<(usize, ReplyOn)>)
        ensures
            h == first_handler_for(self@.handlers, ReplyOn::Error),
    {
        self.first_handler(ReplyOn::Error)
    }

    /// Whether a payload parameter is marked `#[sv::payload(raw)]`.
    pub fn is_payload_marked(&self, variants: &Vec<MsgVariant>) -> (b: bool)
        requires
            self.variant < variants.len(),
        ensures
            b == payload_marked(variants@[self.variant as int]@, self.payload_from as int),
    {
        let v = &variants[self.variant];
        assert(variants@[self.variant as int]@ == v@);
        let mut j: usize = self.payload_from;
        while j < v.fields.len()
            invariant
                variants@[self.variant as int]@ == v@,
                self.payload_from <= j,
                forall|q: int| self.payload_from <= q < j && q < v.fields.len() ==> !(#[trigger] v@.fields[q]).payload,
            decreases v.fields.len() - j,
        {
            if v.fields[j].payload {
                assert(v@.fields[j as int].payload);
                return true;
            }
            j = j + 1;
        }
        false
    }

    /// The statement binding the payload parameters from the payload of the reply.
    pub fn emit_payload_deserialization(&self, variants: &Vec<MsgVariant>, sylvia: &Vec<Tok>) -> (r: Vec<Tok>)
        requires
            self.variant < variants.len(),
        ensures
            tokens::toks(r@) == payload_deserialization(
                variants@[self.variant as int]@,
                self.payload_from as int,
                tokens::toks(sylvia@),
            ),
    {
        let v = &variants[self.variant];
        let from = self.payload_from;
        let mut r: Vec<Tok> = Vec::new();
        tokens::push_ident(&mut r, "let");
        if self.is_payload_marked(variants) {
            tokens::push_tok(&mut r, Tok::Ident(v.fields[from].name.clone()));
            tokens::push_punct(&mut r, '=');
            tokens::push_ident(&mut r, "payload");
            tokens::push_punct(&mut r, ';');
        } else {
            tokens::push_tok(&mut r, Tok::Open(tokens::Delim::Paren));
            push_comma_names(&mut r, v, from);
            tokens::push_tok(&mut r, Tok::Close(tokens::Delim::Paren));
            tokens::push_punct(&mut r, '=');
            crate::msg_type::push_cw_std_item(&mut r, sylvia, "from_json");
            tokens::push_tok(&mut r, Tok::Open(tokens::Delim::Paren));
            tokens::push_punct(&mut r, '&');
            tokens::push_ident(&mut r, "payload");
            tokens::push_tok(&mut r, Tok::Close(tokens::Delim::Paren));
            tokens::push_punct(&mut r, '?');
            tokens::push_punct(&mut r, ';');
        }
        proof {
            assert(tokens::toks(r@) =~= payload_deserialization(v@, from as int, tokens::toks(sylvia@)));
        }
        r
    }

    /// The statement building the payload of a sub-message from the payload parameters.
    pub fn emit_payload_serialization(&self, variants: &Vec<MsgVariant>, sylvia: &Vec<Tok>) -> (r: Vec<Tok>)
        requires
            self.variant < variants.len(),
        ensures
            tokens::toks(r@) == payload_serialization(
                variants@[self.variant as int]@,
                self.payload_from as int,
                tokens::toks(sylvia@),
            ),
    {
        let v = &variants[self.variant];
        let from = self.payload_from;
        let mut r: Vec<Tok> = Vec::new();
        tokens::push_ident(&mut r, "let");
        if self.is_payload_marked(variants) {
            tokens::push_ident(&mut r, "payload");
            tokens::push_punct(&mut r, '=');
            tokens::push_tok(&mut r, Tok::Ident(v.fields[from].name.clone()));
            tokens::push_punct(&mut r, ';');
        } else {
            tokens::push_ident(&mut r, "payload");
            tokens::push_punct(&mut r, '=');
            crate::msg_type::push_cw_std_item(&mut r, sylvia, "to_json_binary");
            tokens::push_tok(&mut r, Tok::Open(tokens::Delim::Paren));
            tokens::push_punct(&mut r, '&');
            tokens::push_tok(&mut r, Tok::Open(tokens::Delim::Paren));
            push_comma_names(&mut r, v, from);
            tokens::push_tok(&mut r, Tok::Close(tokens::Delim::Paren));
            tokens::push_tok(&mut r, Tok::Close(tokens::Delim::Paren));
            tokens::push_punct(&mut r, '?');
            tokens::push_punct(&mut r, ';');
        }
        proof {
            assert(tokens::toks(r@) =~= payload_serialization(v@, from as int, tokens::toks(sylvia@)));
        }
        r
    }
}

/// `sylvia :: cw_std :: ReplyOn :: Variant`
pub open spec fn cw_reply_on_tokens(r: ReplyOn, sylvia: Seq<TokV>) -> Seq<TokV> {
    crate::msg_type::cw_std_item(sylvia, "ReplyOn") + tokens::colon2() + seq![
        TokV::Ident(
            match r {
                ReplyOn::Always => "Always"@,
                ReplyOn::Success => "Success"@,
                ReplyOn::Error => "Error"@,
            },
        ),
    ]
}

impl ReplyData {
    /// The `ReplyOn` value put in the sub-messages sent with this reply id.
    pub fn emit_cw_reply_on(&self, sylvia: &Vec<Tok>) -> (r: Vec<Tok>)
        ensures
            tokens::toks(r@) == cw_reply_on_tokens(cw_reply_on(self@), tokens::toks(sylvia@)),
    {
        let on = self.cw_reply_on();
        let mut r: Vec<Tok> = Vec::new();
        crate::msg_type::push_cw_std_item(&mut r, sylvia, "ReplyOn");
        tokens::push_punct(&mut r, ':');
        tokens::push_punct(&mut r, ':');
        match on {
            ReplyOn::Always => tokens::push_ident(&mut r, "Always"),
            ReplyOn::Success => tokens::push_ident(&mut r, "Success"),
            ReplyOn::Error => tokens::push_ident(&mut r, "Error"),
        }
        assert(tokens::toks(r@) =~= cw_reply_on_tokens(on, tokens::toks(sylvia@)));
        r
    }
}

} // verus!
