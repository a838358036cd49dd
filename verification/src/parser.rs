//! The grammars of sylvia's attributes.
//!
//! Each `parse_*` function reads the whole argument list of one attribute
//! (the tokens between its parentheses, or the arguments of a macro) and
//! fails on tokens left over at its end.
use vstd::prelude::*;
use crate::grammar::{self, PathRange, PathV};
use crate::case::{self, TextCase};
use crate::msg_type::MsgType;
use crate::diag::Diag;
use crate::tokens::{self, Tok, TokV, ParseError};
use crate::tokens::{ident_at_exec, ident_is_exec, punct_at_exec, any_punct_at_exec, slice_toks};

verus! {

/// The text of an identifier token.
pub open spec fn ident_text(t: TokV) -> Seq<char> {
    match t {
        TokV::Ident(s) => s,
        _ => Seq::empty(),
    }
}

/// The text of the identifier at position `i`.
pub fn ident_text_exec(t: &Vec<Tok>, i: usize) -> (s: String)
    requires
        tokens::ident_at(tokens::toks(t@), i as int),
    ensures
        s@ == ident_text(tokens::toks(t@)[i as int]),
{
    match &t[i] {
        Tok::Ident(s) => s.clone(),
        _ => String::new(),
    }
}

/// `#[msg(...)]` attribute for `interface` macro
#[derive(Debug)]
pub enum MsgAttr {
    Exec,
    Query { resp_type: Option<String> },
    Instantiate { name: String },
    Migrate { name: String },
    Reply,
    Sudo,
}

pub enum MsgAttrV {
    Exec,
    Query(Option<Seq<char>>),
    Instantiate(Seq<char>),
    Migrate(Seq<char>),
    Reply,
    Sudo,
}

impl View for MsgAttr {
    type V = MsgAttrV;

    open spec fn view(&self) -> MsgAttrV {
        match self {
            MsgAttr::Exec => MsgAttrV::Exec,
            MsgAttr::Query { resp_type } => MsgAttrV::Query(
                match resp_type {
                    Some(r) => Some(r@),
                    None => None,
                },
            ),
            MsgAttr::Instantiate { name } => MsgAttrV::Instantiate(name@),
            MsgAttr::Migrate { name } => MsgAttrV::Migrate(name@),
            MsgAttr::Reply => MsgAttrV::Reply,
            MsgAttr::Sudo => MsgAttrV::Sudo,
        }
    }
}

/// The kind of message a `msg` attribute declares.
pub open spec fn attr_msg_type(a: MsgAttrV) -> MsgType {
    match a {
        MsgAttrV::Exec => MsgType::Exec,
        MsgAttrV::Query(_) => MsgType::Query,
        MsgAttrV::Instantiate(_) => MsgType::Instantiate,
        MsgAttrV::Migrate(_) => MsgType::Migrate,
        MsgAttrV::Reply => MsgType::Reply,
        MsgAttrV::Sudo => MsgType::Sudo,
    }
}

/// The grammar of `msg(..)`: `exec`, `query` optionally followed by
/// `, name = Type`, `instantiate`, `migrate`, `reply` or `sudo`.
pub open spec fn p_msg_attr(t: Seq<TokV>) -> Result<MsgAttrV, ParseError> {
    if !tokens::ident_at(t, 0) {
        Err(ParseError::ExpectedIdent)
    } else if tokens::ident_is(t, 0, "exec"@) {
        if t.len() == 1 { Ok(MsgAttrV::Exec) } else { Err(ParseError::UnexpectedToken) }
    } else if tokens::ident_is(t, 0, "query"@) {
        if tokens::ident_at(t, 2) {
            if !tokens::any_punct_at(t, 1) {
                Err(ParseError::ExpectedPunct(','))
            } else if !tokens::any_punct_at(t, 3) {
                Err(ParseError::ExpectedPunct('='))
            } else if !tokens::ident_at(t, 4) {
                Err(ParseError::ExpectedIdent)
            } else if t.len() != 5 {
                Err(ParseError::UnexpectedToken)
            } else {
                Ok(MsgAttrV::Query(Some(ident_text(t[4]))))
            }
        } else if t.len() == 1 {
            Ok(MsgAttrV::Query(None))
        } else {
            Err(ParseError::UnexpectedToken)
        }
    } else if tokens::ident_is(t, 0, "instantiate"@) {
        if t.len() == 1 { Ok(MsgAttrV::Instantiate("InstantiateMsg"@)) } else { Err(ParseError::UnexpectedToken) }
    } else if tokens::ident_is(t, 0, "migrate"@) {
        if t.len() == 1 { Ok(MsgAttrV::Migrate("MigrateMsg"@)) } else { Err(ParseError::UnexpectedToken) }
    } else if tokens::ident_is(t, 0, "reply"@) {
        if t.len() == 1 { Ok(MsgAttrV::Reply) } else { Err(ParseError::UnexpectedToken) }
    } else if tokens::ident_is(t, 0, "sudo"@) {
        if t.len() == 1 { Ok(MsgAttrV::Sudo) } else { Err(ParseError::UnexpectedToken) }
    } else {
        Err(ParseError::InvalidMsgType)
    }
}

/// The view of a parse result.
pub open spec fn rv<A: View>(r: Result<A, ParseError>) -> Result<A::V, ParseError> {
    match r {
        Ok(a) => Ok(a@),
        Err(e) => Err(e),
    }
}

impl MsgAttr {
    /// Reads the arguments of `#[sv::msg(..)]`.
    pub fn parse(t: &Vec<Tok>) -> (r: Result<MsgAttr, ParseError>)
        ensures
            rv(r) == p_msg_attr(tokens::toks(t@)),
    {
        if !ident_at_exec(t, 0) {
            return Err(ParseError::ExpectedIdent);
        }
        if t[0].is_ident("exec") {
            if 1 != t.len() {
            return Err(ParseError::UnexpectedToken);
        }
            Ok(MsgAttr::Exec)
        } else if t[0].is_ident("query") {
            Self::parse_query(t)
        } else if t[0].is_ident("instantiate") {
            if 1 != t.len() {
            return Err(ParseError::UnexpectedToken);
        }
            Ok(MsgAttr::Instantiate { name: String::from_str("InstantiateMsg") })
        } else if t[0].is_ident("migrate") {
            if 1 != t.len() {
            return Err(ParseError::UnexpectedToken);
        }
            Ok(MsgAttr::Migrate { name: String::from_str("MigrateMsg") })
        } else if t[0].is_ident("reply") {
            if 1 != t.len() {
            return Err(ParseError::UnexpectedToken);
        }
            Ok(MsgAttr::Reply)
        } else if t[0].is_ident("sudo") {
            if 1 != t.len() {
                return Err(ParseError::UnexpectedToken);
            }
            Ok(MsgAttr::Sudo)
        } else {
            Err(ParseError::InvalidMsgType)
        }
    }

    fn parse_query(t: &Vec<Tok>) -> (r: Result<MsgAttr, ParseError>)
        requires
            tokens::ident_is(tokens::toks(t@), 0, "query"@),
            !tokens::ident_is(tokens::toks(t@), 0, "exec"@),
        ensures
            rv(r) == p_msg_attr(tokens::toks(t@)),
    {
        if ident_at_exec(t, 2) {
            if !any_punct_at_exec(t, 1) {
                return Err(ParseError::ExpectedPunct(','));
            }
            if !any_punct_at_exec(t, 3) {
                return Err(ParseError::ExpectedPunct('='));
            }
            if !ident_at_exec(t, 4) {
                return Err(ParseError::ExpectedIdent);
            }
            if 5 != t.len() {
            return Err(ParseError::UnexpectedToken);
        }
            let resp_type = Some(ident_text_exec(t, 4));
            Ok(MsgAttr::Query { resp_type })
        } else {
            if 1 != t.len() {
            return Err(ParseError::UnexpectedToken);
        }
            Ok(MsgAttr::Query { resp_type: None })
        }
    }

    /// The kind of message the attribute declares.
    pub fn msg_type(&self) -> (r: MsgType)
        ensures
            r == attr_msg_type(self@),
    {
        match self {
            MsgAttr::Exec => MsgType::Exec,
            MsgAttr::Query { .. } => MsgType::Query,
            MsgAttr::Instantiate { .. } => MsgType::Instantiate,
            MsgAttr::Migrate { .. } => MsgType::Migrate,
            MsgAttr::Reply => MsgType::Reply,
            MsgAttr::Sudo => MsgType::Sudo,
        }
    }

    /// Whether the attribute declares a message of kind `other`.
    pub fn eq(&self, other: &MsgType) -> (b: bool)
        ensures
            b == (attr_msg_type(self@) == *other),
    {
        self.msg_type() == *other
    }
}

/// The tokens of a range, when there is one.
pub open spec fn range_toks(t: Seq<TokV>, r: Option<(int, int)>) -> Option<Seq<TokV>> {
    match r {
        Some((a, b)) => Some(t.subrange(a, b)),
        None => None,
    }
}

/// Custom message and query types given by `#[sv::custom(msg = .., query = ..)]`.
#[derive(Debug)]
pub struct Custom {
    pub msg: Option<Vec<Tok>>,
    pub query: Option<Vec<Tok>>,
    /// The attribute the types were read from.
    pub input_attr: Option<usize>,
}

pub struct CustomV {
    pub msg: Option<Seq<TokV>>,
    pub query: Option<Seq<TokV>>,
    pub input_attr: Option<usize>,
}

impl View for Custom {
    type V = CustomV;

    open spec fn view(&self) -> CustomV {
        CustomV {
            msg: match &self.msg {
                Some(m) => Some(tokens::toks(m@)),
                None => None,
            },
            query: match &self.query {
                Some(q) => Some(tokens::toks(q@)),
                None => None,
            },
            input_attr: self.input_attr,
        }
    }
}

/// The grammar of `custom(..)`: `name = Type` entries separated by commas,
/// `name` being `msg` or `query`; a later entry overrides an earlier one.
pub open spec fn p_custom_from(
    t: Seq<TokV>,
    i: int,
    msg: Option<(int, int)>,
    query: Option<(int, int)>,
) -> Result<(Option<(int, int)>, Option<(int, int)>), ParseError>
    decreases t.len() - i,
{
    if i >= t.len() || i < 0 {
        Ok((msg, query))
    } else if !tokens::ident_at(t, i) {
        Err(ParseError::ExpectedIdent)
    } else if !tokens::punct_at(t, i + 1, '=') {
        Err(ParseError::ExpectedPunct('='))
    } else if !tokens::ident_is(t, i, "msg"@) && !tokens::ident_is(t, i, "query"@) {
        Err(ParseError::InvalidCustomType)
    } else {
        match grammar::p_type(t, i + 2, t.len() as int) {
            Err(e) => Err(e),
            Ok(e) => {
                let m = if tokens::ident_is(t, i, "msg"@) { Some((i + 2, e)) } else { msg };
                let q = if tokens::ident_is(t, i, "msg"@) { query } else { Some((i + 2, e)) };
                if tokens::punct_at(t, e, ',') {
                    proof {
                        grammar::lemma_scan_type(t, i + 2, t.len() as int, 0, 0);
                    }
                    p_custom_from(t, e + 1, m, q)
                } else if e == t.len() {
                    Ok((m, q))
                } else {
                    Err(ParseError::UnexpectedToken)
                }
            },
        }
    }
}

/// The custom types read from the arguments of `custom(..)`.
pub open spec fn p_custom(t: Seq<TokV>) -> Result<CustomV, ParseError> {
    match p_custom_from(t, 0, None, None) {
        Err(e) => Err(e),
        Ok((m, q)) => Ok(CustomV { msg: range_toks(t, m), query: range_toks(t, q), input_attr: None }),
    }
}

/// The tokens of a range, when there is one.
fn range_toks_exec(t: &Vec<Tok>, r: Option<(usize, usize)>) -> (o: Option<Vec<Tok>>)
    requires
        r matches Some((a, b)) ==> a <= b <= t.len(),
    ensures
        match o {
            Some(v) => range_toks(tokens::toks(t@), ri(r)) == Some(tokens::toks(v@)),
            None => r is None,
        },
{
    match r {
        Some((a, b)) => Some(slice_toks(t, a, b)),
        None => None,
    }
}

/// A range as an integer range.
pub open spec fn ri(r: Option<(usize, usize)>) -> Option<(int, int)> {
    match r {
        Some((a, b)) => Some((a as int, b as int)),
        None => None,
    }
}

impl Custom {
    /// No custom types.
    pub fn default() -> (r: Custom)
        ensures
            r@ == (CustomV { msg: None, query: None, input_attr: None }),
    {
        Custom { msg: None, query: None, input_attr: None }
    }

    /// Reads the arguments of `#[sv::custom(..)]`.
    pub fn parse(t: &Vec<Tok>) -> (r: Result<Custom, ParseError>)
        ensures
            rv(r) == p_custom(tokens::toks(t@)),
    {
        let ghost tv = tokens::toks(t@);
        let mut msg: Option<(usize, usize)> = None;
        let mut query: Option<(usize, usize)> = None;
        let mut i: usize = 0;
        while i < t.len()
            invariant
                tv == tokens::toks(t@),
                i <= t.len(),
                msg matches Some((a, b)) ==> a <= b <= t.len(),
                query matches Some((a, b)) ==> a <= b <= t.len(),
                p_custom_from(tv, 0, None, None) == p_custom_from(tv, i as int, ri(msg), ri(query)),
            decreases t.len() - i,
        {
            if !ident_at_exec(t, i) {
                return Err(ParseError::ExpectedIdent);
            }
            if !punct_at_exec(t, i + 1, '=') {
                return Err(ParseError::ExpectedPunct('='));
            }
            let is_msg = t[i].is_ident("msg");
            if !is_msg && !t[i].is_ident("query") {
                return Err(ParseError::InvalidCustomType);
            }
            let e = match grammar::parse_type(t, i + 2, t.len()) {
                Ok(e) => e,
                Err(err) => {
                    return Err(err);
                },
            };
            if is_msg {
                msg = Some((i + 2, e));
            } else {
                query = Some((i + 2, e));
            }
            if punct_at_exec(t, e, ',') {
                i = e + 1;
            } else if e == t.len() {
                i = e;
            } else {
                return Err(ParseError::UnexpectedToken);
            }
        }
        let m = range_toks_exec(t, msg);
        let q = range_toks_exec(t, query);
        Ok(Custom { msg: m, query: q, input_attr: None })
    }
}

/// Parsed arguments for `contract` macro
#[derive(Debug)]
pub struct ContractArgs {
    /// Module in which contract impl block is defined.
    pub module: Option<Vec<Tok>>,
}

/// The grammar of the `contract` macro arguments: `module = path` entries
/// separated by commas; a later one overrides an earlier one.
pub open spec fn p_contract_args_from(t: Seq<TokV>, i: int, module: Option<(int, int)>) -> Result<
    Option<(int, int)>,
    ParseError,
>
    decreases t.len() - i,
{
    if i >= t.len() || i < 0 {
        Ok(module)
    } else if !tokens::ident_at(t, i) {
        Err(ParseError::ExpectedIdent)
    } else if !tokens::punct_at(t, i + 1, '=') {
        Err(ParseError::ExpectedPunct('='))
    } else if !tokens::ident_is(t, i, "module"@) {
        Err(ParseError::ExpectedModule)
    } else {
        match grammar::p_path(t, i + 2) {
            Err(e) => Err(e),
            Ok(p) => {
                let m = Some((i + 2, p.end));
                if tokens::punct_at(t, p.end, ',') {
                    proof {
                        grammar::lemma_p_path(t, i + 2);
                    }
                    p_contract_args_from(t, p.end + 1, m)
                } else if p.end < t.len() {
                    Err(ParseError::ExpectedComma)
                } else {
                    Ok(m)
                }
            },
        }
    }
}

pub struct ContractArgsV {
    pub module: Option<Seq<TokV>>,
}

impl View for ContractArgs {
    type V = ContractArgsV;

    open spec fn view(&self) -> ContractArgsV {
        ContractArgsV {
            module: match &self.module {
                Some(m) => Some(tokens::toks(m@)),
                None => None,
            },
        }
    }
}

/// The arguments of the `contract` macro.
pub open spec fn p_contract_args(t: Seq<TokV>) -> Result<ContractArgsV, ParseError> {
    match p_contract_args_from(t, 0, None) {
        Err(e) => Err(e),
        Ok(m) => Ok(ContractArgsV { module: range_toks(t, m) }),
    }
}

impl ContractArgs {
    /// Reads the arguments of the `contract` macro.
    pub fn parse(t: &Vec<Tok>) -> (r: Result<ContractArgs, ParseError>)
        ensures
            rv(r) == p_contract_args(tokens::toks(t@)),
    {
        let ghost tv = tokens::toks(t@);
        let mut module: Option<(usize, usize)> = None;
        let mut i: usize = 0;
        while i < t.len()
            invariant
                tv == tokens::toks(t@),
                i <= t.len(),
                module matches Some((a, b)) ==> a <= b <= t.len(),
                p_contract_args_from(tv, 0, None) == p_contract_args_from(tv, i as int, ri(module)),
            decreases t.len() - i,
        {
            if !ident_at_exec(t, i) {
                return Err(ParseError::ExpectedIdent);
            }
            if !punct_at_exec(t, i + 1, '=') {
                return Err(ParseError::ExpectedPunct('='));
            }
            if !t[i].is_ident("module") {
                return Err(ParseError::ExpectedModule);
            }
            let p = match grammar::parse_path(t, i + 2) {
                Ok(p) => p,
                Err(err) => {
                    return Err(err);
                },
            };
            module = Some((i + 2, p.end));
            if punct_at_exec(t, p.end, ',') {
                i = p.end + 1;
            } else if p.end < t.len() {
                return Err(ParseError::ExpectedComma);
            } else {
                i = p.end;
            }
        }
        Ok(ContractArgs { module: range_toks_exec(t, module) })
    }
}


/// The values of a sequence of token sequences.
pub open spec fn toks2(v: Seq<Vec<Tok>>) -> Seq<Seq<TokV>> {
    Seq::new(v.len(), |k: int| tokens::toks(v[k]@))
}

/// The tokens of each range.
pub open spec fn ranges_toks(t: Seq<TokV>, rs: Seq<(int, int)>) -> Seq<Seq<TokV>> {
    Seq::new(rs.len(), |k: int| t.subrange(rs[k].0, rs[k].1))
}

/// The generic arguments of the last segment of a path.
pub open spec fn path_generics(t: Seq<TokV>, p: PathV) -> Seq<Seq<TokV>> {
    match p.args {
        Some((a, b)) => ranges_toks(t, grammar::split_args(t, a, b)),
        None => Seq::empty(),
    }
}

/// The generic arguments of the last segment of a path, each as its tokens.
pub fn extract_generics_from_path(t: &Vec<Tok>, p: &PathRange) -> (r: Vec<Vec<Tok>>)
    requires
        p.args matches Some((a, b)) ==> a <= b <= t.len(),
    ensures
        toks2(r@) == path_generics(tokens::toks(t@), p@),
{
    let ghost tv = tokens::toks(t@);
    let mut r: Vec<Vec<Tok>> = Vec::new();
    match p.args {
        None => {
            assert(toks2(r@) =~= Seq::<Seq<TokV>>::empty());
        },
        Some((a, b)) => {
            let ranges = grammar::split_args_exec(t, a, b);
            let ghost want = ranges_toks(tv, grammar::split_args(tv, a as int, b as int));
            let mut k: usize = 0;
            while k < ranges.len()
                invariant
                    tv == tokens::toks(t@),
                    a <= b <= t.len(),
                    want == ranges_toks(tv, grammar::split_args(tv, a as int, b as int)),
                    ranges@.len() == grammar::split_args(tv, a as int, b as int).len(),
                    forall|q: int|
                        0 <= q < ranges@.len() ==> (#[trigger] ranges@[q]).0 as int == grammar::split_args(tv, a as int, b as int)[q].0
                            && ranges@[q].1 as int == grammar::split_args(tv, a as int, b as int)[q].1
                            && ranges@[q].0 <= ranges@[q].1 && ranges@[q].1 <= b,
                    k <= ranges.len(),
                    toks2(r@) == want.take(k as int),
                decreases ranges.len() - k,
            {
                let (lo, hi) = ranges[k];
                let piece = slice_toks(t, lo, hi);
                let ghost prev = r@;
                r.push(piece);
                assert(toks2(r@) =~= toks2(prev).push(tokens::toks(piece@)));
                assert(want.take(k + 1) =~= want.take(k as int).push(want[k as int]));
                k = k + 1;
            }
            assert(want.take(k as int) =~= want);
        },
    }
    r
}

/// Parsed arguments for `entry_points` macro
#[derive(Debug)]
pub struct EntryPointArgs {
    /// Types used in place of contracts generics.
    pub generics: Option<Vec<Vec<Tok>>>,
    /// The custom types given by `custom(msg = .., query = ..)`.
    pub custom: Option<Custom>,
}

pub struct EntryPointArgsV {
    pub generics: Option<Seq<Seq<TokV>>>,
    pub custom: Option<CustomV>,
}

impl View for EntryPointArgs {
    type V = EntryPointArgsV;

    open spec fn view(&self) -> EntryPointArgsV {
        EntryPointArgsV {
            generics: match &self.generics {
                Some(g) => Some(toks2(g@)),
                None => None,
            },
            custom: match &self.custom {
                Some(c) => Some(c@),
                None => None,
            },
        }
    }
}

/// The grammar of the `entry_points` macro arguments: nothing, or
/// `generics<T1, T2, ..>` optionally followed by `, custom(msg = .., query = ..)`.
pub open spec fn p_entry_point_args(t: Seq<TokV>) -> Result<EntryPointArgsV, ParseError> {
    if t.len() == 0 {
        Ok(EntryPointArgsV { generics: None, custom: None })
    } else {
        match grammar::p_path(t, 0) {
            Err(e) => Err(e),
            Ok(p) => if !tokens::ident_is(t, p.last, "generics"@) {
                Err(ParseError::ExpectedGenerics)
            } else if p.end == t.len() {
                Ok(EntryPointArgsV { generics: Some(path_generics(t, p)), custom: None })
            } else if !tokens::punct_at(t, p.end, ',') || !tokens::ident_is(t, p.end + 1, "custom"@) {
                Err(ParseError::UnexpectedToken)
            } else {
                match grammar::p_paren(t, p.end + 2) {
                    Err(e) => Err(e),
                    Ok((a, b)) => if b + 1 != t.len() {
                        Err(ParseError::UnexpectedToken)
                    } else {
                        match p_custom(t.subrange(a, b)) {
                            Err(e) => Err(e),
                            Ok(c) => Ok(EntryPointArgsV { generics: Some(path_generics(t, p)), custom: Some(c) }),
                        }
                    },
                }
            },
        }
    }
}

impl EntryPointArgs {
    /// Reads the arguments of the `entry_points` macro.
    pub fn parse(t: &Vec<Tok>) -> (r: Result<EntryPointArgs, ParseError>)
        ensures
            rv(r) == p_entry_point_args(tokens::toks(t@)),
    {
        if t.len() == 0 {
            return Ok(EntryPointArgs { generics: None, custom: None });
        }
        let p = match grammar::parse_path(t, 0) {
            Ok(p) => p,
            Err(e) => {
                return Err(e);
            },
        };
        if !t[p.last].is_ident("generics") {
            return Err(ParseError::ExpectedGenerics);
        }
        let g = extract_generics_from_path(t, &p);
        if p.end == t.len() {
            return Ok(EntryPointArgs { generics: Some(g), custom: None });
        }
        if !punct_at_exec(t, p.end, ',') || !ident_is_exec(t, p.end + 1, "custom") {
            return Err(ParseError::UnexpectedToken);
        }
        let (a, b) = match grammar::parse_paren(t, p.end + 2) {
            Ok(r) => r,
            Err(e) => {
                return Err(e);
            },
        };
        if b + 1 != t.len() {
            return Err(ParseError::UnexpectedToken);
        }
        let inner = slice_toks(t, a, b);
        match Custom::parse(&inner) {
            Err(e) => Err(e),
            Ok(c) => Ok(EntryPointArgs { generics: Some(g), custom: Some(c) }),
        }
    }
}

/// Which custom types an interface uses: `: custom(msg, query)` after a
/// `messages` attribute.
#[derive(Clone, Copy, PartialEq, Eq, Structural, Debug)]
pub struct Customs {
    pub has_msg: bool,
    pub has_query: bool,
}

/// The entries of `custom(..)` from `j` on, up to `hi`: `msg` and `query`
/// separated by commas.
pub open spec fn p_customs_list(t: Seq<TokV>, j: int, hi: int, c: Customs) -> Result<Customs, ParseError>
    decreases hi - j,
{
    if j >= hi || j < 0 {
        Ok(c)
    } else {
        match grammar::p_path(t, j) {
            Err(e) => Err(e),
            Ok(p) => if p.end > hi {
                Err(ParseError::UnexpectedToken)
            } else if !(grammar::is_plain_ident(p) && (tokens::ident_is(t, p.last, "msg"@) || tokens::ident_is(t, p.last, "query"@))) {
                Err(ParseError::InvalidCustom)
            } else {
                let c2 = if tokens::ident_is(t, p.last, "msg"@) {
                    Customs { has_msg: true, ..c }
                } else {
                    Customs { has_query: true, ..c }
                };
                if p.end < hi && tokens::punct_at(t, p.end, ',') {
                    proof {
                        grammar::lemma_p_path(t, j);
                    }
                    p_customs_list(t, p.end + 1, hi, c2)
                } else if p.end == hi {
                    Ok(c2)
                } else {
                    Err(ParseError::UnexpectedToken)
                }
            },
        }
    }
}

/// The optional `: custom(..)` from `i` on, with the position after it.
pub open spec fn p_interface_has_custom(t: Seq<TokV>, i: int) -> Result<(Customs, int), ParseError> {
    let none = Customs { has_msg: false, has_query: false };
    if !tokens::punct_at(t, i, ':') {
        Ok((none, i))
    } else if !tokens::ident_at(t, i + 1) {
        Err(ParseError::ExpectedIdent)
    } else if !tokens::ident_is(t, i + 1, "custom"@) {
        Ok((none, i + 2))
    } else {
        match grammar::p_paren(t, i + 2) {
            Err(e) => Err(e),
            Ok((a, b)) => match p_customs_list(t, a, b, none) {
                Err(e) => Err(e),
                Ok(c) => Ok((c, b + 1)),
            },
        }
    }
}

/// Reads the optional `: custom(..)` starting at `i`; returns it with the
/// position after it.
pub fn interface_has_custom(t: &Vec<Tok>, i: usize) -> (r: Result<(Customs, usize), ParseError>)
    requires
        i <= t.len(),
    ensures
        match r {
            Ok((c, e)) => p_interface_has_custom(tokens::toks(t@), i as int) == Ok::<(Customs, int), ParseError>((c, e as int))
                && e <= t.len() && i <= e,
            Err(err) => p_interface_has_custom(tokens::toks(t@), i as int) == Err::<(Customs, int), ParseError>(err),
        },
{
    let ghost tv = tokens::toks(t@);
    let mut customs = Customs { has_msg: false, has_query: false };
    if !punct_at_exec(t, i, ':') {
        return Ok((customs, i));
    }
    assert(i < t.len());
    if !ident_at_exec(t, i + 1) {
        return Err(ParseError::ExpectedIdent);
    }
    if !t[i + 1].is_ident("custom") {
        return Ok((customs, i + 2));
    }
    let (a, b) = match grammar::parse_paren(t, i + 2) {
        Ok(r) => r,
        Err(e) => {
            return Err(e);
        },
    };
    let mut j: usize = a;
    let ghost none = Customs { has_msg: false, has_query: false };
    assert(p_interface_has_custom(tv, i as int) == match p_customs_list(tv, a as int, b as int, none) {
        Err(e) => Err(e),
        Ok(c) => Ok((c, b + 1)),
    });
    while j < b
        invariant
            tv == tokens::toks(t@),
            p_interface_has_custom(tv, i as int) == match p_customs_list(tv, a as int, b as int, none) {
                Err(e) => Err(e),
                Ok(c) => Ok((c, b + 1)),
            },
            none == (Customs { has_msg: false, has_query: false }),
            i <= a,
            a <= j <= b,
            b < t.len(),
            p_customs_list(tv, a as int, b as int, Customs { has_msg: false, has_query: false })
                == p_customs_list(tv, j as int, b as int, customs),
        decreases b - j,
    {
        let p = match grammar::parse_path(t, j) {
            Ok(p) => p,
            Err(e) => {
                return Err(e);
            },
        };
        if p.end > b {
            return Err(ParseError::UnexpectedToken);
        }
        let plain = !p.leading && p.segs == 1 && p.args.is_none();
        let is_msg = t[p.last].is_ident("msg");
        if !(plain && (is_msg || t[p.last].is_ident("query"))) {
            return Err(ParseError::InvalidCustom);
        }
        if is_msg {
            customs = Customs { has_msg: true, ..customs };
        } else {
            customs = Customs { has_query: true, ..customs };
        }
        if p.end < b && punct_at_exec(t, p.end, ',') {
            j = p.end + 1;
        } else if p.end == b {
            j = b;
        } else {
            return Err(ParseError::UnexpectedToken);
        }
    }
    Ok((customs, b + 1))
}

/// The tokens of `i .. hi` without the generic arguments in angle brackets.
pub open spec fn strip_angles(t: Seq<TokV>, i: int, hi: int, depth: nat) -> Seq<TokV>
    decreases hi - i,
{
    if i < 0 || i >= hi || i >= t.len() {
        Seq::empty()
    } else if t[i] == TokV::Punct('<') {
        strip_angles(t, i + 1, hi, depth + 1)
    } else if t[i] == TokV::Punct('>') && depth > 0 {
        strip_angles(t, i + 1, hi, (depth - 1) as nat)
    } else if depth == 0 {
        seq![t[i]] + strip_angles(t, i + 1, hi, depth)
    } else {
        strip_angles(t, i + 1, hi, depth)
    }
}

/// The tokens of `i .. hi` without the generic arguments in angle brackets.
pub fn strip_generics(t: &Vec<Tok>, i: usize, hi: usize) -> (r: Vec<Tok>)
    requires
        i <= hi <= t.len(),
    ensures
        tokens::toks(r@) == strip_angles(tokens::toks(t@), i as int, hi as int, 0),
{
    let ghost tv = tokens::toks(t@);
    let mut r: Vec<Tok> = Vec::new();
    let mut j: usize = i;
    let mut depth: usize = 0;
    while j < hi
        invariant
            tv == tokens::toks(t@),
            i <= j <= hi,
            hi <= t.len(),
            depth <= j,
            strip_angles(tv, i as int, hi as int, 0) == tokens::toks(r@) + strip_angles(tv, j as int, hi as int, depth as nat),
        decreases hi - j,
    {
        assert(tv[j as int] == t@[j as int]@);
        if t[j].is_punct('<') {
            depth = depth + 1;
        } else if t[j].is_punct('>') && depth > 0 {
            depth = depth - 1;
        } else if depth == 0 {
            let ghost prev = r@;
            r.push(t[j].copy());
            assert(tokens::toks(r@) =~= tokens::toks(prev).push(tv[j as int]));
            assert(tokens::toks(r@) + strip_angles(tv, j + 1, hi as int, depth as nat) =~= tokens::toks(prev) + (seq![tv[j as int]]
                + strip_angles(tv, j + 1, hi as int, depth as nat)));
        }
        j = j + 1;
    }
    assert(strip_angles(tv, j as int, hi as int, depth as nat) =~= Seq::<TokV>::empty());
    assert(tokens::toks(r@) + Seq::<TokV>::empty() =~= tokens::toks(r@));
    r
}


/// `#[sv::messages(path as Name: custom(..))]` on an interface implementation.
#[derive(Debug)]
pub struct ContractMessageAttr {
    /// The module of the interface, without generic arguments.
    pub module: Vec<Tok>,
    /// The variant of the contract's messages wrapping the interface's messages.
    pub variant: String,
    pub customs: Customs,
    /// The generic arguments given to the interface.
    pub generics: Vec<Vec<Tok>>,
}

pub struct ContractMessageAttrV {
    pub module: Seq<TokV>,
    pub variant: Seq<char>,
    pub customs: Customs,
    pub generics: Seq<Seq<TokV>>,
}

impl View for ContractMessageAttr {
    type V = ContractMessageAttrV;

    open spec fn view(&self) -> ContractMessageAttrV {
        ContractMessageAttrV {
            module: tokens::toks(self.module@),
            variant: self.variant@,
            customs: self.customs,
            generics: toks2(self.generics@),
        }
    }
}

/// The grammar of `messages(..)`: a path, optionally `as Name`, optionally
/// `: custom(..)`. Without `as`, the name is the last segment of the path in
/// upper camel case. The flag tells whether `as Name` only repeats that name.
pub open spec fn p_contract_message_attr(t: Seq<TokV>) -> Result<(ContractMessageAttrV, bool), ParseError> {
    match grammar::p_path(t, 0) {
        Err(e) => Err(e),
        Ok(p) => {
            let deduced = case::converted(ident_text(t[p.last]), TextCase::UpperCamel);
            let has_as = tokens::ident_is(t, p.end, "as"@);
            if has_as && !tokens::ident_at(t, p.end + 1) {
                Err(ParseError::ExpectedIdent)
            } else {
                let variant = if has_as { ident_text(t[p.end + 1]) } else { deduced };
                let pos = if has_as { p.end + 2 } else { p.end };
                match p_interface_has_custom(t, pos) {
                    Err(e) => Err(e),
                    Ok((c, e)) => if e != t.len() {
                        Err(ParseError::UnexpectedToken)
                    } else {
                        Ok((
                            ContractMessageAttrV {
                                module: strip_angles(t, 0, p.end, 0),
                                variant,
                                customs: c,
                                generics: path_generics(t, p),
                            },
                            has_as && variant == deduced,
                        ))
                    },
                }
            }
        },
    }
}

proof fn lemma_strip_angles_prefix(t: Seq<TokV>, u: Seq<TokV>, i: int, hi: int, depth: nat)
    requires
        grammar::agree_below(t, u, hi),
    ensures
        strip_angles(t, i, hi, depth) == strip_angles(u, i, hi, depth),
    decreases hi - i,
{
    if 0 <= i < hi {
        assert(t[i] == u[i]);
        if t[i] == TokV::Punct('<') {
            lemma_strip_angles_prefix(t, u, i + 1, hi, depth + 1);
        } else if t[i] == TokV::Punct('>') && depth > 0 {
            lemma_strip_angles_prefix(t, u, i + 1, hi, (depth - 1) as nat);
        } else {
            lemma_strip_angles_prefix(t, u, i + 1, hi, depth);
        }
    }
}

proof fn lemma_customs_list_shift(t: Seq<TokV>, u: Seq<TokV>, from: int, d: int, j: int, hi: int, c: Customs)
    requires
        grammar::shifted(t, u, from, d),
        from <= j,
        hi <= t.len(),
    ensures
        p_customs_list(u, j + d, hi + d, c) == p_customs_list(t, j, hi, c),
    decreases hi - j,
{
    if j < hi {
        grammar::lemma_p_path_shift(t, u, from, d, j);
        grammar::lemma_p_path(t, j);
        match grammar::p_path(t, j) {
            Ok(p) => {
                assert(u[p.last + d] == t[p.last]);
                if p.end < t.len() {
                    assert(u[p.end + d] == t[p.end]);
                }
                if p.end < hi && tokens::punct_at(t, p.end, ',') {
                    let c2 = if tokens::ident_is(t, p.last, "msg"@) {
                        Customs { has_msg: true, ..c }
                    } else {
                        Customs { has_query: true, ..c }
                    };
                    lemma_customs_list_shift(t, u, from, d, p.end + 1, hi, c2);
                }
            },
            Err(_) => {},
        }
    }
}

proof fn lemma_interface_has_custom_shift(t: Seq<TokV>, u: Seq<TokV>, from: int, d: int, i: int)
    requires
        grammar::shifted(t, u, from, d),
        from <= i,
    ensures
        p_interface_has_custom(u, i + d) == match p_interface_has_custom(t, i) {
            Ok((c, e)) => Ok((c, e + d)),
            Err(err) => Err(err),
        },
{
    if i < t.len() {
        assert(u[i + d] == t[i]);
    }
    if i + 1 < t.len() {
        assert(u[i + 1 + d] == t[i + 1]);
    }
    if i + 2 < t.len() {
        assert(u[i + 2 + d] == t[i + 2]);
    }
    grammar::lemma_group_close_shift(t, u, from, d, i + 3, 0);
    grammar::lemma_group_close(t, i + 3, 0);
    match grammar::group_close(t, i + 3, 0) {
        Some(b) => {
            let none = Customs { has_msg: false, has_query: false };
            lemma_customs_list_shift(t, u, from, d, i + 3, b, none);
        },
        None => {},
    }
}

/// A `messages` attribute naming its interface `path as Name`, where `Name`
/// is the name deduced from the path (its last segment in upper camel
/// case), declares the same interface as the attribute without `as Name`,
/// and is reported as redundant.
pub proof fn redundant_as_law(t: Seq<TokV>)
    requires
        grammar::p_path(t, 0) matches Ok(p) && !tokens::ident_is(t, p.end, "as"@),
        p_contract_message_attr(t) is Ok,
    ensures
        p_contract_message_attr(t) matches Ok((a, w)) && !w && p_contract_message_attr(
            t.take(grammar::p_path(t, 0)->Ok_0.end) + seq![TokV::Ident("as"@), TokV::Ident(a.variant)] + t.skip(
                grammar::p_path(t, 0)->Ok_0.end,
            ),
        ) == Ok::<(ContractMessageAttrV, bool), ParseError>((a, true)),
{
    let p = grammar::p_path(t, 0)->Ok_0;
    grammar::lemma_p_path(t, 0);
    let k = p.end;
    let a = p_contract_message_attr(t)->Ok_0.0;
    let u = t.take(k) + seq![TokV::Ident("as"@), TokV::Ident(a.variant)] + t.skip(k);
    assert(grammar::agree_below(t, u, k));
    assert(u[k] == TokV::Ident("as"@));
    assert(u[k + 1] == TokV::Ident(a.variant));
    assert(grammar::shifted(t, u, k, 2));
    grammar::lemma_p_path_prefix(t, u);
    assert(u[p.last] == t[p.last]);
    lemma_strip_angles_prefix(t, u, 0, k, 0);
    lemma_interface_has_custom_shift(t, u, k, 2, k);
    match p.args {
        Some((x, y)) => {
            assert(grammar::agree_below(t, u, y));
            grammar::lemma_split_args_prefix(t, u, x, y);
            let rs = grammar::split_args(t, x, y);
            assert forall|q: int| 0 <= q < rs.len() implies #[trigger] u.subrange(rs[q].0, rs[q].1) == t.subrange(
                rs[q].0,
                rs[q].1,
            ) by {
                assert(u.subrange(rs[q].0, rs[q].1) =~= t.subrange(rs[q].0, rs[q].1));
            }
            assert(ranges_toks(u, rs) =~= ranges_toks(t, rs));
        },
        None => {},
    }
    assert(path_generics(u, p) == path_generics(t, p));
}

impl ContractMessageAttr {
    /// Reads the arguments of `#[sv::messages(..)]`; the flag tells whether
    /// the `as Name` part is redundant.
    pub fn parse(t: &Vec<Tok>) -> (r: Result<(ContractMessageAttr, bool), ParseError>)
        ensures
            match r {
                Ok((a, w)) => p_contract_message_attr(tokens::toks(t@)) == Ok::<(ContractMessageAttrV, bool), ParseError>((a@, w)),
                Err(e) => p_contract_message_attr(tokens::toks(t@)) == Err::<(ContractMessageAttrV, bool), ParseError>(e),
            },
    {
        let ghost tv = tokens::toks(t@);
        let p = match grammar::parse_path(t, 0) {
            Ok(p) => p,
            Err(e) => {
                return Err(e);
            },
        };
        let generics = extract_generics_from_path(t, &p);
        let module = strip_generics(t, 0, p.end);
        let last = ident_text_exec(t, p.last);
        let deduced = case::to_case(last.as_str(), TextCase::UpperCamel);
        let has_as = ident_is_exec(t, p.end, "as");
        if has_as && !ident_at_exec(t, p.end + 1) {
            return Err(ParseError::ExpectedIdent);
        }
        let (variant, pos, warn) = if has_as {
            let v = ident_text_exec(t, p.end + 1);
            let w = v.eq(&deduced);
            (v, p.end + 2, w)
        } else {
            (deduced, p.end, false)
        };
        let (customs, e) = match interface_has_custom(t, pos) {
            Ok(r) => r,
            Err(err) => {
                return Err(err);
            },
        };
        if e != t.len() {
            return Err(ParseError::UnexpectedToken);
        }
        Ok((ContractMessageAttr { module, variant, customs, generics }, warn))
    }
}

/// The entry point overridden by `override_entry_point(kind = ..)`.
pub open spec fn ep_kind(s: Seq<char>) -> Option<MsgType> {
    if s == "exec"@ {
        Some(MsgType::Exec)
    } else if s == "instantiate"@ {
        Some(MsgType::Instantiate)
    } else if s == "query"@ {
        Some(MsgType::Query)
    } else if s == "migrate"@ {
        Some(MsgType::Migrate)
    } else if s == "reply"@ {
        Some(MsgType::Reply)
    } else if s == "sudo"@ {
        Some(MsgType::Sudo)
    } else {
        None
    }
}

/// An entry point replaced by a function of the user:
/// `#[sv::override_entry_point(kind = path::to::function(MsgType))]`.
#[derive(Debug)]
pub struct OverrideEntryPoint {
    pub entry_point: Vec<Tok>,
    pub msg_name: Vec<Tok>,
    pub msg_type: MsgType,
}

pub struct OverrideEntryPointV {
    pub entry_point: Seq<TokV>,
    pub msg_name: Seq<TokV>,
    pub msg_type: MsgType,
}

impl View for OverrideEntryPoint {
    type V = OverrideEntryPointV;

    open spec fn view(&self) -> OverrideEntryPointV {
        OverrideEntryPointV {
            entry_point: tokens::toks(self.entry_point@),
            msg_name: tokens::toks(self.msg_name@),
            msg_type: self.msg_type,
        }
    }
}

/// The grammar of `override_entry_point(..)`: `kind = path ( Type )`.
pub open spec fn p_override_entry_point(t: Seq<TokV>) -> Result<OverrideEntryPointV, ParseError> {
    if !tokens::ident_at(t, 0) {
        Err(ParseError::ExpectedIdent)
    } else if !tokens::punct_at(t, 1, '=') {
        Err(ParseError::ExpectedPunct('='))
    } else {
        match grammar::p_path(t, 2) {
            Err(e) => Err(e),
            Ok(p) => match grammar::p_paren(t, p.end) {
                Err(e) => Err(e),
                Ok((a, b)) => match grammar::p_type(t, a, b) {
                    Err(e) => Err(e),
                    Ok(e) => match ep_kind(ident_text(t[0])) {
                        None => Err(ParseError::InvalidEntryPoint),
                        Some(k) => if e != b || b + 1 != t.len() {
                            Err(ParseError::UnexpectedToken)
                        } else {
                            Ok(OverrideEntryPointV {
                                entry_point: t.subrange(2, p.end),
                                msg_name: t.subrange(a, e),
                                msg_type: k,
                            })
                        },
                    },
                },
            },
        }
    }
}

impl OverrideEntryPoint {
    /// Reads the arguments of `#[sv::override_entry_point(..)]`.
    pub fn parse(t: &Vec<Tok>) -> (r: Result<OverrideEntryPoint, ParseError>)
        ensures
            rv(r) == p_override_entry_point(tokens::toks(t@)),
    {
        let ghost tv = tokens::toks(t@);
        if !ident_at_exec(t, 0) {
            return Err(ParseError::ExpectedIdent);
        }
        if !punct_at_exec(t, 1, '=') {
            return Err(ParseError::ExpectedPunct('='));
        }
        let p = match grammar::parse_path(t, 2) {
            Ok(p) => p,
            Err(e) => {
                return Err(e);
            },
        };
        let (a, b) = match grammar::parse_paren(t, p.end) {
            Ok(r) => r,
            Err(e) => {
                return Err(e);
            },
        };
        let e = match grammar::parse_type(t, a, b) {
            Ok(e) => e,
            Err(err) => {
                return Err(err);
            },
        };
        let ty = &t[0];
        let kind = if ty.is_ident("exec") {
            MsgType::Exec
        } else if ty.is_ident("instantiate") {
            MsgType::Instantiate
        } else if ty.is_ident("query") {
            MsgType::Query
        } else if ty.is_ident("migrate") {
            MsgType::Migrate
        } else if ty.is_ident("reply") {
            MsgType::Reply
        } else if ty.is_ident("sudo") {
            MsgType::Sudo
        } else {
            return Err(ParseError::InvalidEntryPoint);
        };
        if e != b || b + 1 != t.len() {
            return Err(ParseError::UnexpectedToken);
        }
        let entry_point = slice_toks(t, 2, p.end);
        let msg_name = slice_toks(t, a, e);
        Ok(OverrideEntryPoint { entry_point, msg_name, msg_type: kind })
    }
}


/// An attribute: its path, and the tokens between its parentheses when it
/// is written as a list.
#[derive(Debug)]
pub struct Attribute {
    pub path: Vec<String>,
    pub args: Option<Vec<Tok>>,
}

pub struct AttributeV {
    pub path: Seq<Seq<char>>,
    pub args: Option<Seq<TokV>>,
}

impl View for Attribute {
    type V = AttributeV;

    open spec fn view(&self) -> AttributeV {
        AttributeV {
            path: Seq::new(self.path@.len(), |i: int| self.path@[i]@),
            args: match &self.args {
                Some(a) => Some(tokens::toks(a@)),
                None => None,
            },
        }
    }
}

/// The values of a sequence of attributes.
pub open spec fn attrs_view(v: Seq<Attribute>) -> Seq<AttributeV> {
    Seq::new(v.len(), |i: int| v[i]@)
}

/// The name of a sylvia attribute `sv::name`.
pub open spec fn sylvia_attr(a: AttributeV) -> Option<Seq<char>> {
    if a.path.len() == 2 && a.path[0] == "sv"@ {
        Some(a.path[1])
    } else {
        None
    }
}

/// Whether the attribute's path is the single identifier `s`.
pub open spec fn path_is_ident(a: AttributeV, s: Seq<char>) -> bool {
    a.path.len() == 1 && a.path[0] == s
}

/// The name of a sylvia attribute `#[sv::name ..]`.
pub fn sylvia_attribute(attr: &Attribute) -> (r: Option<String>)
    ensures
        match r {
            Some(s) => sylvia_attr(attr@) == Some(s@),
            None => sylvia_attr(attr@) is None,
        },
{
    if attr.path.len() == 2 && tokens::string_is(&attr.path[0], "sv") {
        Some(attr.path[1].clone())
    } else {
        None
    }
}

/// Whether the attribute is `#[sv::name ..]`.
pub fn is_sylvia_attr_named(attr: &Attribute, name: &str) -> (b: bool)
    ensures
        b == (sylvia_attr(attr@) == Some(name@)),
{
    match sylvia_attribute(attr) {
        Some(s) => tokens::string_is(&s, name),
        None => false,
    }
}

/// Whether the attribute is one the generators read and remove from their
/// output: a sylvia attribute `sv::..`, or `msg` or `messages`.
pub open spec fn is_generator_attr(a: AttributeV) -> bool {
    sylvia_attr(a) is Some || path_is_ident(a, "msg"@) || path_is_ident(a, "messages"@)
}

/// Whether the attribute is one the generators read and remove from their output.
pub fn is_generator_attribute(attr: &Attribute) -> (b: bool)
    ensures
        b == is_generator_attr(attr@),
{
    sylvia_attribute(attr).is_some() || attr_path_is_ident(attr, "msg") || attr_path_is_ident(attr, "messages")
}

/// Whether the attribute is named `s`, written `#[s ..]` or `#[sv::s ..]`.
pub open spec fn attr_named(a: AttributeV, s: Seq<char>) -> bool {
    path_is_ident(a, s) || sylvia_attr(a) == Some(s)
}

/// Whether the attribute is named `s`, written `#[s ..]` or `#[sv::s ..]`.
pub fn attr_is_named(attr: &Attribute, s: &str) -> (b: bool)
    ensures
        b == attr_named(attr@, s@),
{
    attr_path_is_ident(attr, s) || is_sylvia_attr_named(attr, s)
}

/// Whether the attribute's path is the single identifier `s`.
pub fn attr_path_is_ident(attr: &Attribute, s: &str) -> (b: bool)
    ensures
        b == path_is_ident(attr@, s@),
{
    attr.path.len() == 1 && tokens::string_is(&attr.path[0], s)
}

/// The custom types after the attributes `as[..k]`: the first `custom`
/// attribute that follows its grammar, with the errors met on the way.
pub open spec fn customs_scan(as_: Seq<AttributeV>) -> (Option<CustomV>, Seq<Diag>)
    decreases as_.len(),
{
    if as_.len() == 0 {
        (None, Seq::empty())
    } else {
        let (first, diags) = customs_scan(as_.drop_last());
        let k = (as_.len() - 1) as usize;
        let a = as_.last();
        if sylvia_attr(a) != Some("custom"@) {
            (first, diags)
        } else {
            match a.args {
                None => (first, diags.push(Diag::AttrParse { attr: k, error: ParseError::ExpectedList })),
                Some(ts) => match p_custom(ts) {
                    Err(e) => (first, diags.push(Diag::AttrParse { attr: k, error: e })),
                    Ok(c) => match first {
                        None => (Some(CustomV { input_attr: Some(k), ..c }), diags),
                        Some(f) => (first, diags.push(Diag::CustomRedefined { attr: k, first: f.input_attr->0 })),
                    },
                },
            }
        }
    }
}

/// The custom types of an item given its attributes.
pub open spec fn custom_of(as_: Seq<AttributeV>) -> CustomV {
    match customs_scan(as_).0 {
        Some(c) => c,
        None => CustomV { msg: None, query: None, input_attr: None },
    }
}

impl Custom {
    /// The custom types of the first `#[sv::custom(..)]` among `attrs`;
    /// reports attributes that do not parse and later `custom` attributes.
    pub fn new(attrs: &Vec<Attribute>) -> (r: (Custom, Vec<Diag>))
        ensures
            r.0@ == custom_of(attrs_view(attrs@)),
            r.1@ == customs_scan(attrs_view(attrs@)).1,
    {
        let ghost av = attrs_view(attrs@);
        let mut first: Option<Custom> = None;
        let mut diags: Vec<Diag> = Vec::new();
        let mut k: usize = 0;
        while k < attrs.len()
            invariant
                av == attrs_view(attrs@),
                k <= attrs.len(),
                customs_scan(av.take(k as int)).1 == diags@,
                match first {
                    Some(f) => customs_scan(av.take(k as int)).0 == Some(f@) && f.input_attr is Some,
                    None => customs_scan(av.take(k as int)).0 is None,
                },
            decreases attrs.len() - k,
        {
            assert(av.take(k + 1).drop_last() =~= av.take(k as int));
            assert(av.take(k + 1).last() == attrs@[k as int]@);
            let a = &attrs[k];
            if is_sylvia_attr_named(a, "custom") {
                match &a.args {
                    None => {
                        diags.push(Diag::AttrParse { attr: k, error: ParseError::ExpectedList });
                    },
                    Some(ts) => match Custom::parse(ts) {
                        Err(e) => {
                            diags.push(Diag::AttrParse { attr: k, error: e });
                        },
                        Ok(c) => {
                            match &first {
                                None => {
                                    first = Some(Custom { msg: c.msg, query: c.query, input_attr: Some(k) });
                                },
                                Some(f) => {
                                    let fi = match f.input_attr {
                                        Some(x) => x,
                                        None => 0,
                                    };
                                    diags.push(Diag::CustomRedefined { attr: k, first: fi });
                                },
                            }
                        },
                    },
                }
            }
            k = k + 1;
        }
        assert(av.take(k as int) =~= av);
        match first {
            Some(f) => (f, diags),
            None => (Custom::default(), diags),
        }
    }

    /// The custom message type, or `sylvia::cw_std::Empty` when there is none.
    pub fn msg_or_default(&self, sylvia: &Vec<Tok>) -> (r: Vec<Tok>)
        ensures
            tokens::toks(r@) == match self@.msg {
                Some(m) => m,
                None => default_type(tokens::toks(sylvia@)),
            },
    {
        match &self.msg {
            Some(m) => tokens::copy_toks(m),
            None => Self::default_type(sylvia),
        }
    }

    /// The custom query type, or `sylvia::cw_std::Empty` when there is none.
    pub fn query_or_default(&self, sylvia: &Vec<Tok>) -> (r: Vec<Tok>)
        ensures
            tokens::toks(r@) == match self@.query {
                Some(m) => m,
                None => default_type(tokens::toks(sylvia@)),
            },
    {
        match &self.query {
            Some(m) => tokens::copy_toks(m),
            None => Self::default_type(sylvia),
        }
    }

    /// The custom message type, if one is given.
    pub fn msg(&self) -> (r: Option<Vec<Tok>>)
        ensures
            match r {
                Some(v) => self@.msg == Some(tokens::toks(v@)),
                None => self@.msg is None,
            },
    {
        match &self.msg {
            Some(m) => Some(tokens::copy_toks(m)),
            None => None,
        }
    }

    /// The custom query type, if one is given.
    pub fn query(&self) -> (r: Option<Vec<Tok>>)
        ensures
            match r {
                Some(v) => self@.query == Some(tokens::toks(v@)),
                None => self@.query is None,
            },
    {
        match &self.query {
            Some(m) => Some(tokens::copy_toks(m)),
            None => None,
        }
    }

    /// `sylvia::cw_std::Empty`, the type used where no custom type is given.
    pub fn default_type(sylvia: &Vec<Tok>) -> (r: Vec<Tok>)
        ensures
            tokens::toks(r@) == default_type(tokens::toks(sylvia@)),
    {
        let mut r: Vec<Tok> = Vec::new();
        assert(tokens::toks(r@) =~= Seq::<TokV>::empty());
        crate::msg_type::push_cw_std_item(&mut r, sylvia, "Empty");
        assert(tokens::toks(r@) =~= default_type(tokens::toks(sylvia@)));
        r
    }
}

/// `sylvia :: cw_std :: Empty`
pub open spec fn default_type(sylvia: Seq<TokV>) -> Seq<TokV> {
    crate::msg_type::cw_std_item(sylvia, "Empty")
}


/// The overridden entry points after the attributes `as_`, with the errors met on the way.
pub open spec fn overrides_scan(as_: Seq<AttributeV>) -> (Seq<OverrideEntryPointV>, Seq<Diag>)
    decreases as_.len(),
{
    if as_.len() == 0 {
        (Seq::empty(), Seq::empty())
    } else {
        let (eps, diags) = overrides_scan(as_.drop_last());
        let k = (as_.len() - 1) as usize;
        let a = as_.last();
        if sylvia_attr(a) != Some("override_entry_point"@) {
            (eps, diags)
        } else {
            match a.args {
                None => (eps, diags.push(Diag::AttrParse { attr: k, error: ParseError::ExpectedList })),
                Some(ts) => match p_override_entry_point(ts) {
                    Err(e) => (eps, diags.push(Diag::AttrParse { attr: k, error: e })),
                    Ok(ep) => (eps.push(ep), diags),
                },
            }
        }
    }
}

/// The entry points overridden by `#[sv::override_entry_point(..)]` attributes.
#[derive(Debug)]
pub struct OverrideEntryPoints(pub Vec<OverrideEntryPoint>);

/// The values of a sequence of overridden entry points.
pub open spec fn overrides_view(v: Seq<OverrideEntryPoint>) -> Seq<OverrideEntryPointV> {
    Seq::new(v.len(), |i: int| v[i]@)
}

/// The position of the first overridden entry point of kind `ty`.
pub open spec fn first_override(eps: Seq<OverrideEntryPointV>, ty: MsgType) -> Option<int>
    decreases eps.len(),
{
    if eps.len() == 0 {
        None
    } else {
        match first_override(eps.drop_last(), ty) {
            Some(i) => Some(i),
            None => if eps.last().msg_type == ty {
                Some(eps.len() - 1)
            } else {
                None
            },
        }
    }
}

proof fn lemma_first_override_prefix(s: Seq<OverrideEntryPointV>, ty: MsgType, n: int)
    requires
        0 <= n <= s.len(),
        first_override(s.take(n), ty) is Some,
    ensures
        first_override(s, ty) == first_override(s.take(n), ty),
    decreases s.len(),
{
    if n == s.len() {
        assert(s.take(n) =~= s);
    } else {
        assert(s.drop_last().take(n) =~= s.take(n));
        lemma_first_override_prefix(s.drop_last(), ty, n);
    }
}

pub proof fn lemma_first_override(s: Seq<OverrideEntryPointV>, ty: MsgType)
    ensures
        first_override(s, ty) matches Some(i) ==> 0 <= i < s.len() && s[i].msg_type == ty,
        first_override(s, ty) is None ==> forall|i: int| 0 <= i < s.len() ==> (#[trigger] s[i]).msg_type != ty,
    decreases s.len(),
{
    if s.len() > 0 {
        lemma_first_override(s.drop_last(), ty);
        assert forall|i: int| 0 <= i < s.len() - 1 implies s.drop_last()[i] == s[i] by {}
    }
}

impl OverrideEntryPoints {
    /// The entry points overridden by the attributes `attrs`; reports the
    /// attributes that do not parse.
    pub fn new(attrs: &Vec<Attribute>) -> (r: (OverrideEntryPoints, Vec<Diag>))
        ensures
            overrides_view(r.0.0@) == overrides_scan(attrs_view(attrs@)).0,
            r.1@ == overrides_scan(attrs_view(attrs@)).1,
    {
        let ghost av = attrs_view(attrs@);
        let mut eps: Vec<OverrideEntryPoint> = Vec::new();
        let mut diags: Vec<Diag> = Vec::new();
        let mut k: usize = 0;
        assert(overrides_view(eps@) =~= Seq::<OverrideEntryPointV>::empty());
        while k < attrs.len()
            invariant
                av == attrs_view(attrs@),
                k <= attrs.len(),
                overrides_scan(av.take(k as int)).1 == diags@,
                overrides_scan(av.take(k as int)).0 == overrides_view(eps@),
            decreases attrs.len() - k,
        {
            assert(av.take(k + 1).drop_last() =~= av.take(k as int));
            assert(av.take(k + 1).last() == attrs@[k as int]@);
            let a = &attrs[k];
            if is_sylvia_attr_named(a, "override_entry_point") {
                match &a.args {
                    None => {
                        diags.push(Diag::AttrParse { attr: k, error: ParseError::ExpectedList });
                    },
                    Some(ts) => match OverrideEntryPoint::parse(ts) {
                        Err(e) => {
                            diags.push(Diag::AttrParse { attr: k, error: e });
                        },
                        Ok(ep) => {
                            let ghost prev = eps@;
                            eps.push(ep);
                            assert(overrides_view(eps@) =~= overrides_view(prev).push(ep@));
                        },
                    },
                }
            }
            k = k + 1;
        }
        assert(av.take(k as int) =~= av);
        (OverrideEntryPoints(eps), diags)
    }

    /// The first overridden entry point of kind `ty`.
    pub fn get_entry_point(&self, ty: MsgType) -> (r: Option<&OverrideEntryPoint>)
        ensures
            match r {
                Some(e) => first_override(overrides_view(self.0@), ty) matches Some(i) && e@ == overrides_view(self.0@)[i],
                None => first_override(overrides_view(self.0@), ty) is None,
            },
    {
        let ghost ov = overrides_view(self.0@);
        let mut i: usize = 0;
        while i < self.0.len()
            invariant
                ov == overrides_view(self.0@),
                i <= self.0.len(),
                first_override(ov.take(i as int), ty) is None,
            decreases self.0.len() - i,
        {
            assert(ov.take(i + 1).drop_last() =~= ov.take(i as int));
            assert(ov.take(i + 1).last() == self.0@[i as int]@);
            if self.0[i].msg_type == ty {
                proof {
                    lemma_first_override_prefix(ov, ty, i + 1);
                }
                return Some(&self.0[i]);
            }
            i = i + 1;
        }
        assert(ov.take(i as int) =~= ov);
        None
    }
}

/// A method of the input: its name and its attributes.
#[derive(Debug)]
pub struct Method {
    pub name: String,
    pub attrs: Vec<Attribute>,
}

/// The values of a sequence of methods.
pub open spec fn methods_attrs(v: Seq<Method>) -> Seq<Seq<AttributeV>> {
    Seq::new(v.len(), |i: int| attrs_view(v[i].attrs@))
}

/// The position of the first attribute `#[msg ..]` or `#[sv::msg ..]`.
pub open spec fn first_msg_attr(as_: Seq<AttributeV>) -> Option<int>
    decreases as_.len(),
{
    if as_.len() == 0 {
        None
    } else {
        match first_msg_attr(as_.drop_last()) {
            Some(i) => Some(i),
            None => if attr_named(as_.last(), "msg"@) {
                Some(as_.len() - 1)
            } else {
                None
            },
        }
    }
}

/// The `msg` attribute of a method, if it has one: parsed, or the error.
pub open spec fn method_msg(as_: Seq<AttributeV>) -> Option<Result<MsgAttrV, ParseError>> {
    match first_msg_attr(as_) {
        None => None,
        Some(i) => match as_[i].args {
            None => Some(Err(ParseError::ExpectedList)),
            Some(ts) => Some(p_msg_attr(ts)),
        },
    }
}

/// The methods declaring a message of kind `ty`, looked for in order until a
/// second one is found, with the errors on the `msg` attributes met on the way.
pub open spec fn struct_scan(ms: Seq<Seq<AttributeV>>, ty: MsgType) -> (Seq<(usize, MsgAttrV)>, Seq<Diag>)
    decreases ms.len(),
{
    if ms.len() == 0 {
        (Seq::empty(), Seq::empty())
    } else {
        let (found, diags) = struct_scan(ms.drop_last(), ty);
        let m = (ms.len() - 1) as usize;
        if found.len() >= 2 {
            (found, diags)
        } else {
            match method_msg(ms.last()) {
                None => (found, diags),
                Some(Err(e)) => (found, diags.push(Diag::MethodAttrParse { method: m, error: e })),
                Some(Ok(a)) => if attr_msg_type(a) == ty {
                    (found.push((m, a)), diags)
                } else {
                    (found, diags)
                },
            }
        }
    }
}

/// The method declaring the single message of kind `ty`, with the errors:
/// none for an instantiation message, a second one for any kind.
pub open spec fn struct_message(ms: Seq<Seq<AttributeV>>, ty: MsgType) -> (Option<(usize, MsgAttrV)>, Seq<Diag>) {
    let (found, diags) = struct_scan(ms, ty);
    if found.len() == 0 {
        (None, if ty == MsgType::Instantiate { diags.push(Diag::NoInstantiationMessage) } else { diags })
    } else if found.len() == 1 {
        (Some(found[0]), diags)
    } else {
        (Some(found[0]), diags.push(Diag::MultipleMessages { method: found[1].0, first: found[0].0 }))
    }
}

proof fn lemma_struct_scan_len(ms: Seq<Seq<AttributeV>>, ty: MsgType)
    ensures
        struct_scan(ms, ty).0.len() <= 2,
    decreases ms.len(),
{
    if ms.len() > 0 {
        lemma_struct_scan_len(ms.drop_last(), ty);
    }
}

/// The `msg` attribute of a method, if it has one: parsed, or the error.
pub fn method_msg_exec(m: &Method) -> (r: Option<Result<MsgAttr, ParseError>>)
    ensures
        match r {
            None => method_msg(attrs_view(m.attrs@)) is None,
            Some(x) => method_msg(attrs_view(m.attrs@)) == Some(rv(x)),
        },
{
    let ghost av = attrs_view(m.attrs@);
    let mut i: usize = 0;
    while i < m.attrs.len()
        invariant
            av == attrs_view(m.attrs@),
            i <= m.attrs.len(),
            first_msg_attr(av.take(i as int)) is None,
        decreases m.attrs.len() - i,
    {
        assert(av.take(i + 1).drop_last() =~= av.take(i as int));
        assert(av.take(i + 1).last() == m.attrs@[i as int]@);
        if attr_is_named(&m.attrs[i], "msg") {
            proof {
                lemma_first_msg_prefix(av, i + 1);
            }
            return match &m.attrs[i].args {
                None => Some(Err(ParseError::ExpectedList)),
                Some(ts) => Some(MsgAttr::parse(ts)),
            };
        }
        i = i + 1;
    }
    assert(av.take(i as int) =~= av);
    None
}

proof fn lemma_first_msg_prefix(s: Seq<AttributeV>, n: int)
    requires
        0 <= n <= s.len(),
        first_msg_attr(s.take(n)) is Some,
    ensures
        first_msg_attr(s) == first_msg_attr(s.take(n)),
    decreases s.len(),
{
    if n == s.len() {
        assert(s.take(n) =~= s);
    } else {
        assert(s.drop_last().take(n) =~= s.take(n));
        lemma_first_msg_prefix(s.drop_last(), n);
    }
}

/// The positions of the methods whose `msg` attribute declares a message of kind `ty`.
pub open spec fn kind_positions(ms: Seq<Seq<AttributeV>>, ty: MsgType) -> Seq<usize>
    decreases ms.len(),
{
    if ms.len() == 0 {
        Seq::empty()
    } else {
        let prev = kind_positions(ms.drop_last(), ty);
        match method_msg(ms.last()) {
            Some(Ok(a)) => if attr_msg_type(a) == ty {
                prev.push((ms.len() - 1) as usize)
            } else {
                prev
            },
            _ => prev,
        }
    }
}

/// The positions of the methods declaring a message of kind `ty`, in order.
pub fn methods_of_kind(methods: &Vec<Method>, ty: MsgType) -> (r: Vec<usize>)
    ensures
        r@ == kind_positions(methods_attrs(methods@), ty),
        forall|q: int| 0 <= q < r@.len() ==> r@[q] < methods@.len(),
{
    let ghost ms = methods_attrs(methods@);
    let mut r: Vec<usize> = Vec::new();
    let mut k: usize = 0;
    while k < methods.len()
        invariant
            ms == methods_attrs(methods@),
            k <= methods.len(),
            r@ == kind_positions(ms.take(k as int), ty),
            forall|q: int| 0 <= q < r@.len() ==> r@[q] < k,
        decreases methods.len() - k,
    {
        assert(ms.take(k + 1).drop_last() =~= ms.take(k as int));
        assert(ms.take(k + 1).last() == attrs_view(methods@[k as int].attrs@));
        match method_msg_exec(&methods[k]) {
            Some(Ok(a)) => {
                if a.msg_type() == ty {
                    r.push(k);
                }
            },
            _ => {},
        }
        k = k + 1;
    }
    assert(ms.take(k as int) =~= ms);
    r
}

/// The method declaring the single message of kind `ty` among `methods`,
/// with its attribute; reports a missing instantiation message, a second
/// message of the kind, and `msg` attributes that do not parse.
pub fn parse_struct_message(methods: &Vec<Method>, ty: MsgType) -> (r: (Option<(usize, MsgAttr)>, Vec<Diag>))
    ensures
        r.1@ == struct_message(methods_attrs(methods@), ty).1,
        match r.0 {
            None => struct_message(methods_attrs(methods@), ty).0 is None,
            Some((m, a)) => struct_message(methods_attrs(methods@), ty).0 == Some((m, a@)),
        },
{
    let ghost ms = methods_attrs(methods@);
    let mut first: Option<(usize, MsgAttr)> = None;
    let mut second: Option<usize> = None;
    let mut diags: Vec<Diag> = Vec::new();
    let mut k: usize = 0;
    while k < methods.len()
        invariant
            ms == methods_attrs(methods@),
            k <= methods.len(),
            struct_scan(ms.take(k as int), ty).1 == diags@,
            match first {
                None => struct_scan(ms.take(k as int), ty).0.len() == 0 && second is None,
                Some((i, a)) => struct_scan(ms.take(k as int), ty).0.len() >= 1 && struct_scan(ms.take(k as int), ty).0[0]
                    == (i, a@) && match second {
                    None => struct_scan(ms.take(k as int), ty).0.len() == 1,
                    Some(j) => struct_scan(ms.take(k as int), ty).0.len() == 2 && struct_scan(ms.take(k as int), ty).0[1].0 == j,
                },
            },
        decreases methods.len() - k,
    {
        assert(ms.take(k + 1).drop_last() =~= ms.take(k as int));
        assert(ms.take(k + 1).last() == attrs_view(methods@[k as int].attrs@));
        proof {
            lemma_struct_scan_len(ms.take(k as int), ty);
        }
        if second.is_none() {
            match method_msg_exec(&methods[k]) {
                None => {},
                Some(Err(e)) => {
                    diags.push(Diag::MethodAttrParse { method: k, error: e });
                },
                Some(Ok(a)) => {
                    if a.msg_type() == ty {
                        if first.is_none() {
                            first = Some((k, a));
                        } else {
                            second = Some(k);
                        }
                    }
                },
            }
        }
        k = k + 1;
    }
    assert(ms.take(k as int) =~= ms);
    match first {
        None => {
            if ty == MsgType::Instantiate {
                diags.push(Diag::NoInstantiationMessage);
            }
            (None, diags)
        },
        Some((i, a)) => {
            match second {
                Some(j) => {
                    diags.push(Diag::MultipleMessages { method: j, first: i });
                },
                None => {},
            }
            (Some((i, a)), diags)
        },
    }
}

/// `< C as Trait > :: Name`, the associated type `Name` of the interface.
pub open spec fn associated_custom_type(trait_name: Seq<char>, assoc_name: Seq<char>) -> Seq<TokV> {
    seq![TokV::Punct('<'), TokV::Ident("C"@), TokV::Ident("as"@), TokV::Ident(trait_name), TokV::Punct('>'),
        TokV::Punct(':'), TokV::Punct(':'), TokV::Ident(assoc_name)]
}

/// The associated type `assoc_name` of the interface `trait_name`, as seen
/// from a contract `C` implementing it, if the trait declares it among
/// `item_types`.
pub fn parse_associated_custom_type(trait_name: &String, item_types: &Vec<String>, assoc_name: &str) -> (r: Option<Vec<Tok>>)
    ensures
        match r {
            Some(v) => tokens::toks(v@) == associated_custom_type(trait_name@, assoc_name@)
                && exists|i: int| 0 <= i < item_types.len() && (#[trigger] item_types@[i])@ == assoc_name@,
            None => forall|i: int| 0 <= i < item_types.len() ==> (#[trigger] item_types@[i])@ != assoc_name@,
        },
{
    let mut i: usize = 0;
    while i < item_types.len()
        invariant
            i <= item_types.len(),
            forall|j: int| 0 <= j < i ==> (#[trigger] item_types@[j])@ != assoc_name@,
        decreases item_types.len() - i,
    {
        if tokens::string_is(&item_types[i], assoc_name) {
            let mut r: Vec<Tok> = Vec::new();
            tokens::push_punct(&mut r, '<');
            tokens::push_ident(&mut r, "C");
            tokens::push_ident(&mut r, "as");
            tokens::push_tok(&mut r, Tok::Ident(trait_name.clone()));
            tokens::push_punct(&mut r, '>');
            tokens::push_punct(&mut r, ':');
            tokens::push_punct(&mut r, ':');
            tokens::push_ident(&mut r, assoc_name);
            assert(tokens::toks(r@) =~= associated_custom_type(trait_name@, assoc_name@));
            return Some(r);
        }
        i = i + 1;
    }
    None
}


/// `entry_point ( values . into ( ) , sylvia :: cw_std :: from_json :: < Msg > ( & msg ) ? ) . map_err ( Into :: into )`
pub open spec fn multitest_dispatch(ep: OverrideEntryPointV, sylvia: Seq<TokV>) -> Seq<TokV> {
    ep.entry_point + seq![TokV::Open(tokens::Delim::Paren)] + crate::msg_type::ctx_values(ep.msg_type) + seq![
        TokV::Punct('.'),
        TokV::Ident("into"@),
        TokV::Open(tokens::Delim::Paren),
        TokV::Close(tokens::Delim::Paren),
        TokV::Punct(','),
    ] + crate::msg_type::cw_std_item(sylvia, "from_json") + tokens::colon2() + seq![TokV::Punct('<')] + ep.msg_name
        + seq![
        TokV::Punct('>'),
        TokV::Open(tokens::Delim::Paren),
        TokV::Punct('&'),
        TokV::Ident("msg"@),
        TokV::Close(tokens::Delim::Paren),
        TokV::Punct('?'),
        TokV::Close(tokens::Delim::Paren),
    ] + map_err_into()
}

/// `. map_err ( Into :: into )`
pub open spec fn map_err_into() -> Seq<TokV> {
    seq![
        TokV::Punct('.'),
        TokV::Ident("map_err"@),
        TokV::Open(tokens::Delim::Paren),
        TokV::Ident("Into"@),
        TokV::Punct(':'),
        TokV::Punct(':'),
        TokV::Ident("into"@),
        TokV::Close(tokens::Delim::Paren),
    ]
}

/// Appends `. map_err ( Into :: into )`.
pub fn push_map_err_into(dst: &mut Vec<Tok>)
    ensures
        tokens::toks(final(dst)@) == tokens::toks(old(dst)@) + map_err_into(),
{
    tokens::push_punct(dst, '.');
    tokens::push_ident(dst, "map_err");
    tokens::push_tok(dst, Tok::Open(tokens::Delim::Paren));
    tokens::push_ident(dst, "Into");
    tokens::push_punct(dst, ':');
    tokens::push_punct(dst, ':');
    tokens::push_ident(dst, "into");
    tokens::push_tok(dst, Tok::Close(tokens::Delim::Paren));
    assert(tokens::toks(dst@) =~= tokens::toks(old(dst)@) + map_err_into());
}

impl OverrideEntryPoint {
    /// The call through which a multitest proxy dispatches a message to the
    /// overriding entry point.
    pub fn emit_multitest_dispatch(&self, sylvia: &Vec<Tok>) -> (r: Vec<Tok>)
        ensures
            tokens::toks(r@) == multitest_dispatch(self@, tokens::toks(sylvia@)),
    {
        let mut r = tokens::copy_toks(&self.entry_point);
        tokens::push_tok(&mut r, Tok::Open(tokens::Delim::Paren));
        let values = self.msg_type.emit_ctx_values();
        tokens::extend_toks(&mut r, &values);
        tokens::push_punct(&mut r, '.');
        tokens::push_ident(&mut r, "into");
        tokens::push_tok(&mut r, Tok::Open(tokens::Delim::Paren));
        tokens::push_tok(&mut r, Tok::Close(tokens::Delim::Paren));
        tokens::push_punct(&mut r, ',');
        crate::msg_type::push_cw_std_item(&mut r, sylvia, "from_json");
        tokens::push_punct(&mut r, ':');
        tokens::push_punct(&mut r, ':');
        tokens::push_punct(&mut r, '<');
        tokens::extend_toks(&mut r, &self.msg_name);
        tokens::push_punct(&mut r, '>');
        tokens::push_tok(&mut r, Tok::Open(tokens::Delim::Paren));
        tokens::push_punct(&mut r, '&');
        tokens::push_ident(&mut r, "msg");
        tokens::push_tok(&mut r, Tok::Close(tokens::Delim::Paren));
        tokens::push_punct(&mut r, '?');
        tokens::push_tok(&mut r, Tok::Close(tokens::Delim::Paren));
        push_map_err_into(&mut r);
        assert(tokens::toks(r@) =~= multitest_dispatch(self@, tokens::toks(sylvia@)));
        r
    }
}


/// The error type of a contract, declared by `#[sv::error(Type)]`.
#[derive(Debug)]
pub struct ContractErrorAttr {
    pub error: Vec<Tok>,
}

/// The grammar of the arguments of `error(..)`: a single type.
pub open spec fn p_error_attr(t: Seq<TokV>) -> Result<Seq<TokV>, ParseError> {
    match grammar::p_type(t, 0, t.len() as int) {
        Err(e) => Err(e),
        Ok(e) => if e != t.len() {
            Err(ParseError::UnexpectedToken)
        } else {
            Ok(t)
        },
    }
}

/// The error type used when a contract declares none: `sylvia :: cw_std :: StdError`.
pub open spec fn std_error(sylvia: Seq<TokV>) -> Seq<TokV> {
    crate::msg_type::cw_std_item(sylvia, "StdError")
}

/// The error type declared by the attributes `as_`: the first `sv::error`
/// attribute that parses, or the standard error; with the errors met on the way.
pub open spec fn error_scan(as_: Seq<AttributeV>) -> (Option<Seq<TokV>>, Seq<Diag>)
    decreases as_.len(),
{
    if as_.len() == 0 {
        (None, Seq::empty())
    } else {
        let (found, diags) = error_scan(as_.drop_last());
        let k = (as_.len() - 1) as usize;
        let a = as_.last();
        if sylvia_attr(a) != Some("error"@) {
            (found, diags)
        } else {
            match a.args {
                None => (found, diags.push(Diag::AttrParse { attr: k, error: ParseError::ExpectedList })),
                Some(ts) => match p_error_attr(ts) {
                    Err(e) => (found, diags.push(Diag::AttrParse { attr: k, error: e })),
                    Ok(ty) => (if found is Some { found } else { Some(ty) }, diags),
                },
            }
        }
    }
}

impl ContractErrorAttr {
    /// Reads the arguments of `#[sv::error(..)]`.
    pub fn parse(t: &Vec<Tok>) -> (r: Result<ContractErrorAttr, ParseError>)
        ensures
            match r {
                Ok(a) => p_error_attr(tokens::toks(t@)) == Ok::<Seq<TokV>, ParseError>(tokens::toks(a.error@)),
                Err(e) => p_error_attr(tokens::toks(t@)) == Err::<Seq<TokV>, ParseError>(e),
            },
    {
        match grammar::parse_type(t, 0, t.len()) {
            Err(e) => Err(e),
            Ok(e) => if e != t.len() {
                Err(ParseError::UnexpectedToken)
            } else {
                Ok(ContractErrorAttr { error: tokens::copy_toks(t) })
            },
        }
    }

    /// The error type of a contract with the attributes `attrs`: the first
    /// `sv::error` attribute, or `StdError`; reports attributes that do not parse.
    pub fn new(attrs: &Vec<Attribute>, sylvia: &Vec<Tok>) -> (r: (ContractErrorAttr, Vec<Diag>))
        ensures
            tokens::toks(r.0.error@) == match error_scan(attrs_view(attrs@)).0 {
                Some(ty) => ty,
                None => std_error(tokens::toks(sylvia@)),
            },
            r.1@ == error_scan(attrs_view(attrs@)).1,
    {
        let ghost av = attrs_view(attrs@);
        let mut found: Option<ContractErrorAttr> = None;
        let mut diags: Vec<Diag> = Vec::new();
        let mut k: usize = 0;
        while k < attrs.len()
            invariant
                av == attrs_view(attrs@),
                k <= attrs.len(),
                error_scan(av.take(k as int)).1 == diags@,
                match found {
                    Some(f) => error_scan(av.take(k as int)).0 == Some(tokens::toks(f.error@)),
                    None => error_scan(av.take(k as int)).0 is None,
                },
            decreases attrs.len() - k,
        {
            assert(av.take(k + 1).drop_last() =~= av.take(k as int));
            assert(av.take(k + 1).last() == attrs@[k as int]@);
            let a = &attrs[k];
            if is_sylvia_attr_named(a, "error") {
                match &a.args {
                    None => {
                        diags.push(Diag::AttrParse { attr: k, error: ParseError::ExpectedList });
                    },
                    Some(ts) => match ContractErrorAttr::parse(ts) {
                        Err(e) => {
                            diags.push(Diag::AttrParse { attr: k, error: e });
                        },
                        Ok(ea) => {
                            if found.is_none() {
                                found = Some(ea);
                            }
                        },
                    },
                }
            }
            k = k + 1;
        }
        assert(av.take(k as int) =~= av);
        match found {
            Some(f) => (f, diags),
            None => {
                let mut e: Vec<Tok> = Vec::new();
                assert(tokens::toks(e@) =~= Seq::<TokV>::empty());
                crate::msg_type::push_cw_std_item(&mut e, sylvia, "StdError");
                assert(tokens::toks(e@) =~= std_error(tokens::toks(sylvia@)));
                (ContractErrorAttr { error: e }, diags)
            },
        }
    }
}


/// The kind of message named `s` in `#[sv::msg_attr(kind, ..)]`: any of
/// `exec`, `query`, `instantiate`, `migrate`, `sudo` and `reply`.
pub open spec fn kind_named(s: Seq<char>) -> Option<MsgType> {
    if s == "exec"@ {
        Some(MsgType::Exec)
    } else if s == "query"@ {
        Some(MsgType::Query)
    } else if s == "instantiate"@ {
        Some(MsgType::Instantiate)
    } else if s == "migrate"@ {
        Some(MsgType::Migrate)
    } else if s == "sudo"@ {
        Some(MsgType::Sudo)
    } else if s == "reply"@ {
        Some(MsgType::Reply)
    } else {
        None
    }
}

/// The attribute `#[sv::msg_attr(kind, attr)]` (or `#[msg_attr(..)]`):
/// `attr` is forwarded to the message of kind `kind`.
pub open spec fn forwarded_attr(a: AttributeV) -> Option<(MsgType, Seq<TokV>)> {
    if attr_named(a, "msg_attr"@) {
        match a.args {
            Some(t) => if t.len() > 2 && t[0] is Ident && t[1] == TokV::Punct(',') && kind_named(t[0]->Ident_0) is Some {
                Some((kind_named(t[0]->Ident_0)->0, t.skip(2)))
            } else {
                None
            },
            None => None,
        }
    } else {
        None
    }
}

/// The attributes forwarded to messages by the attributes `as_`, in order.
pub open spec fn forwarded_scan(as_: Seq<AttributeV>) -> Seq<(MsgType, Seq<TokV>)>
    decreases as_.len(),
{
    if as_.len() == 0 {
        Seq::empty()
    } else {
        match forwarded_attr(as_.last()) {
            Some(f) => forwarded_scan(as_.drop_last()).push(f),
            None => forwarded_scan(as_.drop_last()),
        }
    }
}

/// The values of forwarded attributes.
pub open spec fn forwarded_view(v: Seq<(MsgType, Vec<Tok>)>) -> Seq<(MsgType, Seq<TokV>)> {
    Seq::new(v.len(), |i: int| (v[i].0, tokens::toks(v[i].1@)))
}

/// The kind of message an identifier names.
fn kind_named_exec(s: &String) -> (r: Option<MsgType>)
    ensures
        r == kind_named(s@),
{
    if tokens::string_is(s, "exec") {
        Some(MsgType::Exec)
    } else if tokens::string_is(s, "query") {
        Some(MsgType::Query)
    } else if tokens::string_is(s, "instantiate") {
        Some(MsgType::Instantiate)
    } else if tokens::string_is(s, "migrate") {
        Some(MsgType::Migrate)
    } else if tokens::string_is(s, "sudo") {
        Some(MsgType::Sudo)
    } else if tokens::string_is(s, "reply") {
        Some(MsgType::Reply)
    } else {
        None
    }
}

/// The attributes that `#[sv::msg_attr(kind, ..)]` forwards to the message
/// of each kind, in order; other attributes are skipped.
pub fn msg_attrs_forward(attrs: &Vec<Attribute>) -> (r: Vec<(MsgType, Vec<Tok>)>)
    ensures
        forwarded_view(r@) == forwarded_scan(attrs_view(attrs@)),
{
    let ghost av = attrs_view(attrs@);
    let mut r: Vec<(MsgType, Vec<Tok>)> = Vec::new();
    let mut i: usize = 0;
    assert(av.take(0) =~= Seq::<AttributeV>::empty());
    while i < attrs.len()
        invariant
            av == attrs_view(attrs@),
            i <= attrs.len(),
            forwarded_view(r@) == forwarded_scan(av.take(i as int)),
        decreases attrs.len() - i,
    {
        assert(av.take(i + 1).drop_last() =~= av.take(i as int));
        assert(av.take(i + 1).last() == attrs@[i as int]@);
        let a = &attrs[i];
        if attr_is_named(a, "msg_attr") {
            match &a.args {
                Some(t) => {
                    let ghost tv = tokens::toks(t@);
                    if t.len() > 2 && t[1].is_punct(',') {
                        match &t[0] {
                            Tok::Ident(k) => {
                                match kind_named_exec(k) {
                                    Some(kind) => {
                                        let rest = tokens::slice_toks(t, 2, t.len());
                                        assert(tv.skip(2) =~= tv.subrange(2, tv.len() as int));
                                        let ghost prev = r@;
                                        r.push((kind, rest));
                                        assert(forwarded_view(r@) =~= forwarded_view(prev).push((kind, tv.skip(2))));
                                    },
                                    None => {},
                                }
                            },
                            _ => {},
                        }
                    }
                },
                None => {},
            }
        }
        i = i + 1;
    }
    assert(av.take(i as int) =~= av);
    r
}

/// The attribute `#[sv::msg_attr(k, rest..)]` as written in source.
pub open spec fn sv_msg_attr(k: Seq<char>, rest: Seq<TokV>) -> AttributeV {
    AttributeV { path: seq!["sv"@, "msg_attr"@], args: Some(seq![TokV::Ident(k), TokV::Punct(',')] + rest) }
}

/// `#[sv::msg_attr(kind, attr..)]` forwards `attr..` to the message of every
/// kind of message: `exec`, `query`, `instantiate`, `migrate`, `sudo` and
/// `reply` each name the message of that kind; any other identifier forwards
/// nothing.
pub proof fn msg_attr_forwards_every_kind(k: Seq<char>, rest: Seq<TokV>)
    requires
        rest.len() > 0,
    ensures
        forwarded_scan(seq![sv_msg_attr("exec"@, rest)]) == seq![(MsgType::Exec, rest)],
        forwarded_scan(seq![sv_msg_attr("query"@, rest)]) == seq![(MsgType::Query, rest)],
        forwarded_scan(seq![sv_msg_attr("instantiate"@, rest)]) == seq![(MsgType::Instantiate, rest)],
        forwarded_scan(seq![sv_msg_attr("migrate"@, rest)]) == seq![(MsgType::Migrate, rest)],
        forwarded_scan(seq![sv_msg_attr("sudo"@, rest)]) == seq![(MsgType::Sudo, rest)],
        forwarded_scan(seq![sv_msg_attr("reply"@, rest)]) == seq![(MsgType::Reply, rest)],
        k != "exec"@ && k != "query"@ && k != "instantiate"@ && k != "migrate"@ && k != "sudo"@ && k != "reply"@
            ==> forwarded_scan(seq![sv_msg_attr(k, rest)]).len() == 0,
{
    reveal_strlit("sv");
    reveal_strlit("msg_attr");
    reveal_strlit("exec");
    reveal_strlit("query");
    reveal_strlit("instantiate");
    reveal_strlit("migrate");
    reveal_strlit("sudo");
    reveal_strlit("reply");
    assert forall|q: Seq<char>| #[trigger] forwarded_scan(seq![sv_msg_attr(q, rest)]) == (match kind_named(q) {
        Some(m) => seq![(m, rest)],
        None => Seq::<(MsgType, Seq<TokV>)>::empty(),
    }) by {
        let a = sv_msg_attr(q, rest);
        let t = seq![TokV::Ident(q), TokV::Punct(',')] + rest;
        assert(t.skip(2) =~= rest);
        assert(t[0] == TokV::Ident(q));
        assert(t[1] == TokV::Punct(','));
        assert(attr_named(a, "msg_attr"@));
        assert(seq![a].drop_last() =~= Seq::<AttributeV>::empty());
        assert(seq![a].last() == a);
        assert(forwarded_scan(Seq::<AttributeV>::empty()) =~= Seq::<(MsgType, Seq<TokV>)>::empty());
    }
    assert("exec"@.len() == 4 && "query"@.len() == 5 && "instantiate"@.len() == 11);
    assert("migrate"@.len() == 7 && "sudo"@.len() == 4 && "reply"@.len() == 5);
    assert("exec"@[0] == 'e' && "sudo"@[0] == 's' && "query"@[0] == 'q' && "reply"@[0] == 'r');
    assert(kind_named("exec"@) == Some(MsgType::Exec));
    assert(kind_named("query"@) == Some(MsgType::Query));
    assert(kind_named("instantiate"@) == Some(MsgType::Instantiate));
    assert(kind_named("migrate"@) == Some(MsgType::Migrate));
    assert(kind_named("sudo"@) == Some(MsgType::Sudo));
    assert(kind_named("reply"@) == Some(MsgType::Reply));
}

} // verus!
