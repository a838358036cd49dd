//! Building blocks of the attribute grammars: types, paths, generic
//! arguments and parenthesized groups, located in a flat token stream.
//!
//! A type stands for the balanced run of tokens up to the next comma at its
//! own level; it is checked as a type once the generated code is parsed.
use vstd::prelude::*;
use crate::tokens::{self, Tok, TokV, Delim, ParseError};
use crate::tokens::{ident_at_exec, punct_at_exec};

verus! {

/// End of the type run starting at `i` and scanned no further than `hi`:
/// the first comma outside brackets, a group closing outside the run, or `hi`.
pub open spec fn scan_type(t: Seq<TokV>, i: int, hi: int, angle: nat, group: nat) -> int
    decreases hi - i,
{
    if i < 0 || i >= hi || i >= t.len() {
        i
    } else {
        match t[i] {
            TokV::Punct(c) => if c == ',' && angle == 0 && group == 0 {
                i
            } else if c == '<' && group == 0 {
                scan_type(t, i + 1, hi, angle + 1, group)
            } else if c == '>' && group == 0 && angle > 0 {
                scan_type(t, i + 1, hi, (angle - 1) as nat, group)
            } else {
                scan_type(t, i + 1, hi, angle, group)
            },
            TokV::Open(_) => scan_type(t, i + 1, hi, angle, group + 1),
            TokV::Close(_) => if group == 0 {
                i
            } else {
                scan_type(t, i + 1, hi, angle, (group - 1) as nat)
            },
            _ => scan_type(t, i + 1, hi, angle, group),
        }
    }
}

/// A type starting at `i`: its end, unless the run is empty.
pub open spec fn p_type(t: Seq<TokV>, i: int, hi: int) -> Result<int, ParseError> {
    let e = scan_type(t, i, hi, 0, 0);
    if e == i {
        Err(ParseError::ExpectedType)
    } else {
        Ok(e)
    }
}

/// Position after the `>` closing generic arguments whose content starts at `i`.
pub open spec fn angle_end(t: Seq<TokV>, i: int, depth: nat, group: nat) -> Option<int>
    decreases t.len() - i,
{
    if i < 0 || i >= t.len() {
        None
    } else {
        match t[i] {
            TokV::Open(_) => angle_end(t, i + 1, depth, group + 1),
            TokV::Close(_) => if group == 0 {
                None
            } else {
                angle_end(t, i + 1, depth, (group - 1) as nat)
            },
            TokV::Punct(c) => if c == '<' && group == 0 {
                angle_end(t, i + 1, depth + 1, group)
            } else if c == '>' && group == 0 {
                if depth == 0 {
                    Some(i + 1)
                } else {
                    angle_end(t, i + 1, (depth - 1) as nat, group)
                }
            } else {
                angle_end(t, i + 1, depth, group)
            },
            _ => angle_end(t, i + 1, depth, group),
        }
    }
}

pub proof fn lemma_angle_end(t: Seq<TokV>, i: int, depth: nat, group: nat)
    ensures
        angle_end(t, i, depth, group) matches Some(e) ==> i < e <= t.len(),
    decreases t.len() - i,
{
    if 0 <= i < t.len() {
        match t[i] {
            TokV::Open(_) => lemma_angle_end(t, i + 1, depth, group + 1),
            TokV::Close(_) => if group > 0 {
                lemma_angle_end(t, i + 1, depth, (group - 1) as nat)
            },
            TokV::Punct(c) => {
                if c == '<' && group == 0 {
                    lemma_angle_end(t, i + 1, depth + 1, group)
                } else if c == '>' && group == 0 {
                    if depth > 0 {
                        lemma_angle_end(t, i + 1, (depth - 1) as nat, group)
                    }
                } else {
                    lemma_angle_end(t, i + 1, depth, group)
                }
            },
            _ => lemma_angle_end(t, i + 1, depth, group),
        }
    }
}

/// Whether `i` starts `:: ident`.
pub open spec fn colon2_ident_at(t: Seq<TokV>, i: int) -> bool {
    tokens::punct_at(t, i, ':') && tokens::punct_at(t, i + 1, ':') && tokens::ident_at(t, i + 2)
}

/// A located path: whether it starts with `::`, its number of segments, the
/// position of the identifier of its last segment, the range of the generic
/// arguments of its last segment, and its end.
pub struct PathV {
    pub leading: bool,
    pub segs: nat,
    pub last: int,
    pub args: Option<(int, int)>,
    pub end: int,
}

/// The segments `ident [< args >] (:: ident [< args >])*` from `i` on.
pub open spec fn p_segs(t: Seq<TokV>, i: int, segs: nat) -> Result<(nat, int, Option<(int, int)>, int), ParseError>
    decreases t.len() - i,
{
    if !tokens::ident_at(t, i) {
        Err(ParseError::ExpectedIdent)
    } else if tokens::punct_at(t, i + 1, '<') {
        match angle_end(t, i + 2, 0, 0) {
            None => Err(ParseError::ExpectedPunct('>')),
            Some(e) => {
                proof {
                    lemma_angle_end(t, i + 2, 0, 0);
                }
                if colon2_ident_at(t, e) {
                    p_segs(t, e + 2, segs + 1)
                } else {
                    Ok((segs + 1, i, Some((i + 2, e - 1)), e))
                }
            },
        }
    } else if colon2_ident_at(t, i + 1) {
        p_segs(t, i + 3, segs + 1)
    } else {
        Ok((segs + 1, i, None, i + 1))
    }
}

/// A path starting at `i`.
pub open spec fn p_path(t: Seq<TokV>, i: int) -> Result<PathV, ParseError> {
    let leading = tokens::punct_at(t, i, ':') && tokens::punct_at(t, i + 1, ':');
    let s = if leading { i + 2 } else { i };
    match p_segs(t, s, 0) {
        Err(e) => Err(e),
        Ok((segs, last, args, end)) => Ok(PathV { leading, segs, last, args, end }),
    }
}

/// Whether a path is a single identifier.
pub open spec fn is_plain_ident(p: PathV) -> bool {
    !p.leading && p.segs == 1 && p.args is None
}

/// The generic arguments in `i .. hi`, split at the commas outside brackets.
pub open spec fn split_args(t: Seq<TokV>, i: int, hi: int) -> Seq<(int, int)>
    decreases hi - i,
{
    if i < 0 || i >= hi || hi > t.len() {
        Seq::empty()
    } else {
        let e = scan_type(t, i, hi, 0, 0);
        if e >= hi || e < i {
            seq![(i, hi)]
        } else {
            seq![(i, e)] + split_args(t, e + 1, hi)
        }
    }
}

/// The position of the group closing the one whose content starts at `i`.
pub open spec fn group_close(t: Seq<TokV>, i: int, depth: nat) -> Option<int>
    decreases t.len() - i,
{
    if i < 0 || i >= t.len() {
        None
    } else {
        match t[i] {
            TokV::Open(_) => group_close(t, i + 1, depth + 1),
            TokV::Close(_) => if depth == 0 {
                Some(i)
            } else {
                group_close(t, i + 1, (depth - 1) as nat)
            },
            _ => group_close(t, i + 1, depth),
        }
    }
}

/// A parenthesized group at `i`: the range of its content.
pub open spec fn p_paren(t: Seq<TokV>, i: int) -> Result<(int, int), ParseError> {
    if 0 <= i < t.len() && t[i] == TokV::Open(Delim::Paren) {
        match group_close(t, i + 1, 0) {
            Some(c) => Ok((i + 1, c)),
            None => Err(ParseError::ExpectedParen),
        }
    } else {
        Err(ParseError::ExpectedParen)
    }
}

pub proof fn lemma_scan_type(t: Seq<TokV>, i: int, hi: int, angle: nat, group: nat)
    requires
        0 <= i,
    ensures
        i <= scan_type(t, i, hi, angle, group),
        i <= hi && hi <= t.len() ==> scan_type(t, i, hi, angle, group) <= hi,
    decreases hi - i,
{
    if !(i >= hi || i >= t.len()) {
        match t[i] {
            TokV::Punct(c) => if c == ',' && angle == 0 && group == 0 {
            } else if c == '<' && group == 0 {
                lemma_scan_type(t, i + 1, hi, angle + 1, group);
            } else if c == '>' && group == 0 && angle > 0 {
                lemma_scan_type(t, i + 1, hi, (angle - 1) as nat, group);
            } else {
                lemma_scan_type(t, i + 1, hi, angle, group);
            },
            TokV::Open(_) => lemma_scan_type(t, i + 1, hi, angle, group + 1),
            TokV::Close(_) => if group != 0 {
                lemma_scan_type(t, i + 1, hi, angle, (group - 1) as nat);
            },
            _ => lemma_scan_type(t, i + 1, hi, angle, group),
        }
    }
}

pub proof fn lemma_group_close(t: Seq<TokV>, i: int, depth: nat)
    ensures
        group_close(t, i, depth) matches Some(c) ==> i <= c < t.len(),
    decreases t.len() - i,
{
    if 0 <= i < t.len() {
        match t[i] {
            TokV::Open(_) => lemma_group_close(t, i + 1, depth + 1),
            TokV::Close(_) => if depth != 0 {
                lemma_group_close(t, i + 1, (depth - 1) as nat)
            },
            _ => lemma_group_close(t, i + 1, depth),
        }
    }
}

/// End of the type run starting at `i`, no further than `hi`.
pub fn scan_type_exec(t: &Vec<Tok>, i: usize, hi: usize) -> (e: usize)
    requires
        i <= hi <= t.len(),
    ensures
        e == scan_type(tokens::toks(t@), i as int, hi as int, 0, 0),
        i <= e <= hi,
{
    let ghost tv = tokens::toks(t@);
    let mut j: usize = i;
    let mut angle: usize = 0;
    let mut group: usize = 0;
    proof {
        lemma_scan_type(tv, i as int, hi as int, 0, 0);
    }
    while j < hi
        invariant
            tv == tokens::toks(t@),
            i <= j <= hi,
            hi <= t.len(),
            angle <= j,
            group <= j,
            scan_type(tv, i as int, hi as int, 0, 0) == scan_type(tv, j as int, hi as int, angle as nat, group as nat),
        decreases hi - j,
    {
        assert(tv[j as int] == t@[j as int]@);
        match &t[j] {
            Tok::Punct(c) => {
                if *c == ',' && angle == 0 && group == 0 {
                    proof {
                        lemma_scan_type(tv, i as int, hi as int, 0, 0);
                    }
                    return j;
                } else if *c == '<' && group == 0 {
                    angle = angle + 1;
                } else if *c == '>' && group == 0 && angle > 0 {
                    angle = angle - 1;
                }
            },
            Tok::Open(_) => {
                group = group + 1;
            },
            Tok::Close(_) => {
                if group == 0 {
                    proof {
                        lemma_scan_type(tv, i as int, hi as int, 0, 0);
                    }
                    return j;
                } else {
                    group = group - 1;
                }
            },
            _ => {},
        }
        j = j + 1;
    }
    j
}

/// Position after the `>` closing generic arguments whose content starts at `i`.
pub fn angle_end_exec(t: &Vec<Tok>, i: usize) -> (r: Option<usize>)
    ensures
        match r {
            Some(e) => angle_end(tokens::toks(t@), i as int, 0, 0) == Some(e as int),
            None => angle_end(tokens::toks(t@), i as int, 0, 0) is None,
        },
{
    let ghost tv = tokens::toks(t@);
    let mut j: usize = i;
    let mut depth: usize = 0;
    let mut group: usize = 0;
    if j >= t.len() {
        return None;
    }
    while j < t.len()
        invariant
            tv == tokens::toks(t@),
            i <= j <= t.len(),
            depth <= j,
            group <= j,
            angle_end(tv, i as int, 0, 0) == angle_end(tv, j as int, depth as nat, group as nat),
        decreases t.len() - j,
    {
        assert(tv[j as int] == t@[j as int]@);
        match &t[j] {
            Tok::Open(_) => {
                group = group + 1;
            },
            Tok::Close(_) => {
                if group == 0 {
                    return None;
                }
                group = group - 1;
            },
            Tok::Punct(c) => {
                if *c == '<' && group == 0 {
                    depth = depth + 1;
                } else if *c == '>' && group == 0 {
                    if depth == 0 {
                        return Some(j + 1);
                    }
                    depth = depth - 1;
                }
            },
            _ => {},
        }
        j = j + 1;
    }
    None
}

/// Whether `i` starts `:: ident`.
pub fn colon2_ident_at_exec(t: &Vec<Tok>, i: usize) -> (b: bool)
    ensures
        b == colon2_ident_at(tokens::toks(t@), i as int),
{
    if i < t.len() && i + 1 < t.len() {
        punct_at_exec(t, i, ':') && punct_at_exec(t, i + 1, ':') && ident_at_exec(t, i + 2)
    } else {
        false
    }
}

/// A located path (see [`PathV`]).
#[derive(Clone, Copy, Debug)]
pub struct PathRange {
    pub leading: bool,
    pub segs: usize,
    pub last: usize,
    pub args: Option<(usize, usize)>,
    pub end: usize,
}

impl View for PathRange {
    type V = PathV;

    open spec fn view(&self) -> PathV {
        PathV {
            leading: self.leading,
            segs: self.segs as nat,
            last: self.last as int,
            args: match self.args {
                Some((a, b)) => Some((a as int, b as int)),
                None => None,
            },
            end: self.end as int,
        }
    }
}

/// The view of a parse result.
pub open spec fn res_view<A: View>(r: Result<A, ParseError>) -> Result<A::V, ParseError> {
    match r {
        Ok(a) => Ok(a@),
        Err(e) => Err(e),
    }
}

/// A position result as an integer result.
pub open spec fn res_int(r: Result<usize, ParseError>) -> Result<int, ParseError> {
    match r {
        Ok(a) => Ok(a as int),
        Err(e) => Err(e),
    }
}

/// A path starting at `i`.
pub fn parse_path(t: &Vec<Tok>, i: usize) -> (r: Result<PathRange, ParseError>)
    ensures
        res_view(r) == p_path(tokens::toks(t@), i as int),
        r matches Ok(p) ==> p.last < p.end <= t.len() && i < p.end && tokens::ident_at(tokens::toks(t@), p.last as int),
        r matches Ok(p) ==> (p.args matches Some((a, b)) ==> a <= b && b < p.end),
{
    let ghost tv = tokens::toks(t@);
    let leading = i < t.len() && punct_at_exec(t, i, ':') && punct_at_exec(t, i + 1, ':');
    let s: usize = if leading { i + 2 } else { i };
    let mut cur: usize = s;
    let mut segs: usize = 0;
    while cur < t.len()
        invariant
            tv == tokens::toks(t@),
            s <= cur,
            i <= s,
            segs <= cur,
            leading == (tokens::punct_at(tv, i as int, ':') && tokens::punct_at(tv, i as int + 1, ':')),
            s == (if leading { i + 2 } else { i as int }),
            p_segs(tv, s as int, 0) == p_segs(tv, cur as int, segs as nat),
        decreases t.len() - cur,
    {
        if !ident_at_exec(t, cur) {
            return Err(ParseError::ExpectedIdent);
        }
        if punct_at_exec(t, cur + 1, '<') {
            match angle_end_exec(t, cur + 2) {
                None => {
                    return Err(ParseError::ExpectedPunct('>'));
                },
                Some(e) => {
                    proof {
                        lemma_angle_end(tv, cur + 2, 0, 0);
                    }
                    if colon2_ident_at_exec(t, e) {
                        segs = segs + 1;
                        cur = e + 2;
                    } else {
                        return Ok(PathRange { leading, segs: segs + 1, last: cur, args: Some((cur + 2, e - 1)), end: e });
                    }
                },
            }
        } else if colon2_ident_at_exec(t, cur + 1) {
            segs = segs + 1;
            cur = cur + 3;
        } else {
            return Ok(PathRange { leading, segs: segs + 1, last: cur, args: None, end: cur + 1 });
        }
    }
    Err(ParseError::ExpectedIdent)
}

/// A type starting at `i`, scanned no further than `hi`: its end.
pub fn parse_type(t: &Vec<Tok>, i: usize, hi: usize) -> (r: Result<usize, ParseError>)
    requires
        i <= hi <= t.len(),
    ensures
        res_int(r) == p_type(tokens::toks(t@), i as int, hi as int),
        r matches Ok(e) ==> i < e <= hi,
{
    let e = scan_type_exec(t, i, hi);
    if e == i {
        Err(ParseError::ExpectedType)
    } else {
        Ok(e)
    }
}

/// The generic arguments in `i .. hi`, split at the commas outside brackets.
pub fn split_args_exec(t: &Vec<Tok>, i: usize, hi: usize) -> (r: Vec<(usize, usize)>)
    requires
        i <= hi <= t.len(),
    ensures
        r@.len() == split_args(tokens::toks(t@), i as int, hi as int).len(),
        forall|k: int|
            0 <= k < r@.len() ==> (#[trigger] r@[k]).0 as int == split_args(tokens::toks(t@), i as int, hi as int)[k].0
                && r@[k].1 as int == split_args(tokens::toks(t@), i as int, hi as int)[k].1 && r@[k].0 <= r@[k].1
                && r@[k].1 <= hi,
{
    let ghost tv = tokens::toks(t@);
    let ghost whole = split_args(tv, i as int, hi as int);
    let mut r: Vec<(usize, usize)> = Vec::new();
    let mut j: usize = i;
    let ghost mut done: Seq<(int, int)> = Seq::empty();
    while j < hi
        invariant
            tv == tokens::toks(t@),
            i <= j <= hi,
            hi <= t.len(),
            whole == split_args(tv, i as int, hi as int),
            whole == done + split_args(tv, j as int, hi as int),
            r@.len() == done.len(),
            forall|k: int|
                0 <= k < r@.len() ==> (#[trigger] r@[k]).0 as int == done[k].0 && r@[k].1 as int == done[k].1
                    && r@[k].0 <= r@[k].1 && r@[k].1 <= hi,
        decreases hi - j,
    {
        let e = scan_type_exec(t, j, hi);
        if e >= hi {
            r.push((j, hi));
            proof {
                done = done.push((j as int, hi as int));
                assert(whole =~= done);
                assert(split_args(tv, hi as int, hi as int) =~= Seq::<(int, int)>::empty());
            }
            j = hi;
        } else {
            r.push((j, e));
            proof {
                assert(split_args(tv, j as int, hi as int) == seq![(j as int, e as int)] + split_args(tv, e + 1, hi as int));
                done = done.push((j as int, e as int));
                assert(whole =~= done + split_args(tv, e + 1, hi as int));
            }
            j = e + 1;
        }
    }
    proof {
        assert(split_args(tv, j as int, hi as int) =~= Seq::<(int, int)>::empty());
        assert(whole =~= done);
    }
    r
}

/// The position of the group closing the one whose content starts at `i`.
fn group_close_exec(t: &Vec<Tok>, i: usize) -> (r: Option<usize>)
    ensures
        match r {
            Some(c) => group_close(tokens::toks(t@), i as int, 0) == Some(c as int) && i <= c < t.len(),
            None => group_close(tokens::toks(t@), i as int, 0) is None,
        },
{
    let ghost tv = tokens::toks(t@);
    if i >= t.len() {
        return None;
    }
    let mut j: usize = i;
    let mut depth: usize = 0;
    while j < t.len()
        invariant
            tv == tokens::toks(t@),
            i <= j <= t.len(),
            depth <= j,
            group_close(tv, i as int, 0) == group_close(tv, j as int, depth as nat),
        decreases t.len() - j,
    {
        assert(tv[j as int] == t@[j as int]@);
        match &t[j] {
            Tok::Open(_) => {
                depth = depth + 1;
            },
            Tok::Close(_) => {
                if depth == 0 {
                    return Some(j);
                }
                depth = depth - 1;
            },
            _ => {},
        }
        j = j + 1;
    }
    None
}

/// A parenthesized group at `i`: the range of its content.
pub fn parse_paren(t: &Vec<Tok>, i: usize) -> (r: Result<(usize, usize), ParseError>)
    ensures
        match r {
            Ok((a, b)) => p_paren(tokens::toks(t@), i as int) == Ok::<(int, int), ParseError>((a as int, b as int))
                && i < a <= b < t.len(),
            Err(e) => p_paren(tokens::toks(t@), i as int) == Err::<(int, int), ParseError>(e),
        },
{
    if i < t.len() {
        let open = match &t[i] {
            Tok::Open(Delim::Paren) => true,
            _ => false,
        };
        assert(open == (tokens::toks(t@)[i as int] == TokV::Open(Delim::Paren)));
        if open {
            match group_close_exec(t, i + 1) {
                Some(c) => Ok((i + 1, c)),
                None => Err(ParseError::ExpectedParen),
            }
        } else {
            Err(ParseError::ExpectedParen)
        }
    } else {
        Err(ParseError::ExpectedParen)
    }
}


pub proof fn lemma_p_segs(t: Seq<TokV>, i: int, segs: nat)
    ensures
        p_segs(t, i, segs) matches Ok((n, last, args, end)) ==> i <= last < end <= t.len() && i < end && n >= 1
            && (args matches Some((a, b)) ==> last < a <= b < end),
    decreases t.len() - i,
{
    if tokens::ident_at(t, i) {
        if tokens::punct_at(t, i + 1, '<') {
            lemma_angle_end(t, i + 2, 0, 0);
            match angle_end(t, i + 2, 0, 0) {
                Some(e) => if colon2_ident_at(t, e) {
                    lemma_p_segs(t, e + 2, segs + 1);
                },
                None => {},
            }
        } else if colon2_ident_at(t, i + 1) {
            lemma_p_segs(t, i + 3, segs + 1);
        }
    }
}

pub proof fn lemma_p_path(t: Seq<TokV>, i: int)
    ensures
        p_path(t, i) matches Ok(p) ==> i <= p.last < p.end <= t.len() && i < p.end && p.segs >= 1
            && (p.args matches Some((a, b)) ==> p.last < a <= b < p.end),
{
    let leading = tokens::punct_at(t, i, ':') && tokens::punct_at(t, i + 1, ':');
    let s = if leading { i + 2 } else { i };
    lemma_p_segs(t, s, 0);
}


/// Whether `t` and `u` hold the same tokens below position `n`.
pub open spec fn agree_below(t: Seq<TokV>, u: Seq<TokV>, n: int) -> bool {
    &&& 0 <= n <= t.len()
    &&& n <= u.len()
    &&& forall|k: int| 0 <= k < n ==> t[k] == u[k]
}

/// A type run scanned no further than `hi` depends on the tokens below `hi` only.
pub proof fn lemma_scan_type_prefix(t: Seq<TokV>, u: Seq<TokV>, i: int, hi: int, angle: nat, group: nat)
    requires
        agree_below(t, u, hi),
    ensures
        scan_type(t, i, hi, angle, group) == scan_type(u, i, hi, angle, group),
    decreases hi - i,
{
    if 0 <= i < hi {
        assert(t[i] == u[i]);
        match t[i] {
            TokV::Punct(c) => {
                if c == ',' && angle == 0 && group == 0 {
                } else if c == '<' && group == 0 {
                    lemma_scan_type_prefix(t, u, i + 1, hi, angle + 1, group);
                } else if c == '>' && group == 0 && angle > 0 {
                    lemma_scan_type_prefix(t, u, i + 1, hi, (angle - 1) as nat, group);
                } else {
                    lemma_scan_type_prefix(t, u, i + 1, hi, angle, group);
                }
            },
            TokV::Open(_) => lemma_scan_type_prefix(t, u, i + 1, hi, angle, group + 1),
            TokV::Close(_) => if group != 0 {
                lemma_scan_type_prefix(t, u, i + 1, hi, angle, (group - 1) as nat);
            },
            _ => lemma_scan_type_prefix(t, u, i + 1, hi, angle, group),
        }
    }
}

/// The generic arguments in `i .. hi` depend on the tokens below `hi` only,
/// and lie within `i .. hi`.
pub proof fn lemma_split_args_prefix(t: Seq<TokV>, u: Seq<TokV>, i: int, hi: int)
    requires
        agree_below(t, u, hi),
        0 <= i,
    ensures
        split_args(t, i, hi) == split_args(u, i, hi),
        forall|k: int|
            0 <= k < split_args(t, i, hi).len() ==> i <= (#[trigger] split_args(t, i, hi)[k]).0 <= split_args(t, i, hi)[k].1
                <= hi,
    decreases hi - i,
{
    if i < hi {
        lemma_scan_type_prefix(t, u, i, hi, 0, 0);
        lemma_scan_type(t, i, hi, 0, 0);
        let e = scan_type(t, i, hi, 0, 0);
        if !(e >= hi || e < i) {
            lemma_split_args_prefix(t, u, e + 1, hi);
            let rest = split_args(t, e + 1, hi);
            assert forall|k: int| 0 <= k < split_args(t, i, hi).len() implies i <= (#[trigger] split_args(t, i, hi)[k]).0
                <= split_args(t, i, hi)[k].1 <= hi by {
                if k > 0 {
                    assert(split_args(t, i, hi)[k] == rest[k - 1]);
                }
            }
        }
    }
}

/// The end of generic arguments depends on the tokens before it only.
pub proof fn lemma_angle_end_prefix(t: Seq<TokV>, u: Seq<TokV>, i: int, depth: nat, group: nat, e: int)
    requires
        angle_end(t, i, depth, group) == Some(e),
        agree_below(t, u, e),
    ensures
        angle_end(u, i, depth, group) == Some(e),
    decreases t.len() - i,
{
    lemma_angle_end(t, i, depth, group);
    assert(t[i] == u[i]);
    match t[i] {
        TokV::Open(_) => lemma_angle_end_prefix(t, u, i + 1, depth, group + 1, e),
        TokV::Close(_) => if group != 0 {
            lemma_angle_end_prefix(t, u, i + 1, depth, (group - 1) as nat, e);
        },
        TokV::Punct(c) => {
            if c == '<' && group == 0 {
                lemma_angle_end_prefix(t, u, i + 1, depth + 1, group, e);
            } else if c == '>' && group == 0 {
                if depth != 0 {
                    lemma_angle_end_prefix(t, u, i + 1, (depth - 1) as nat, group, e);
                }
            } else {
                lemma_angle_end_prefix(t, u, i + 1, depth, group, e);
            }
        },
        _ => lemma_angle_end_prefix(t, u, i + 1, depth, group, e),
    }
}

/// The segments of a path depend on its tokens and on the token after it
/// not continuing it: an identifier there ends the path at the same place.
pub proof fn lemma_p_segs_prefix(t: Seq<TokV>, u: Seq<TokV>, i: int, segs: nat)
    requires
        p_segs(t, i, segs) is Ok,
        agree_below(t, u, p_segs(t, i, segs)->Ok_0.3),
        p_segs(t, i, segs)->Ok_0.3 < u.len(),
        u[p_segs(t, i, segs)->Ok_0.3] is Ident,
    ensures
        p_segs(u, i, segs) == p_segs(t, i, segs),
    decreases t.len() - i,
{
    let end = p_segs(t, i, segs)->Ok_0.3;
    lemma_p_segs(t, i, segs);
    assert(t[i] == u[i]);
    if tokens::punct_at(t, i + 1, '<') {
        let e = angle_end(t, i + 2, 0, 0)->0;
        lemma_angle_end(t, i + 2, 0, 0);
        if colon2_ident_at(t, e) {
            lemma_p_segs(t, e + 2, segs + 1);
            assert(end > e + 2);
            assert(t[i + 1] == u[i + 1]);
            assert(t[e] == u[e] && t[e + 1] == u[e + 1] && t[e + 2] == u[e + 2]);
            lemma_angle_end_prefix(t, u, i + 2, 0, 0, e);
            lemma_p_segs_prefix(t, u, e + 2, segs + 1);
        } else {
            assert(end == e);
            assert(t[i + 1] == u[i + 1]);
            lemma_angle_end_prefix(t, u, i + 2, 0, 0, e);
        }
    } else if colon2_ident_at(t, i + 1) {
        lemma_p_segs(t, i + 3, segs + 1);
        assert(t[i + 1] == u[i + 1] && t[i + 2] == u[i + 2] && t[i + 3] == u[i + 3]);
        lemma_p_segs_prefix(t, u, i + 3, segs + 1);
    }
}

/// A path depends on its tokens and on the token after it not continuing
/// it: an identifier there ends the path at the same place.
pub proof fn lemma_p_path_prefix(t: Seq<TokV>, u: Seq<TokV>)
    requires
        p_path(t, 0) is Ok,
        agree_below(t, u, p_path(t, 0)->Ok_0.end),
        p_path(t, 0)->Ok_0.end < u.len(),
        u[p_path(t, 0)->Ok_0.end] is Ident,
    ensures
        p_path(u, 0) == p_path(t, 0),
{
    lemma_p_path(t, 0);
    let leading = tokens::punct_at(t, 0, ':') && tokens::punct_at(t, 1, ':');
    let s = if leading { 2int } else { 0int };
    lemma_p_segs(t, s, 0);
    assert(t[0] == u[0]);
    if tokens::punct_at(t, 0, ':') {
        assert(t[1] == u[1]);
    }
    lemma_p_segs_prefix(t, u, s, 0);
}

/// Whether `u` holds the tokens of `t` from position `from` on, moved `d` further.
pub open spec fn shifted(t: Seq<TokV>, u: Seq<TokV>, from: int, d: int) -> bool {
    &&& 0 <= from <= t.len()
    &&& 0 <= d
    &&& u.len() == t.len() + d
    &&& forall|k: int| from <= k < t.len() ==> u[k + d] == t[k]
}

/// The end of generic arguments moves with the tokens.
pub proof fn lemma_angle_end_shift(t: Seq<TokV>, u: Seq<TokV>, from: int, d: int, i: int, depth: nat, group: nat)
    requires
        shifted(t, u, from, d),
        from <= i,
    ensures
        angle_end(u, i + d, depth, group) == match angle_end(t, i, depth, group) {
            Some(e) => Some(e + d),
            None => None,
        },
    decreases t.len() - i,
{
    if i < t.len() {
        assert(u[i + d] == t[i]);
        match t[i] {
            TokV::Open(_) => lemma_angle_end_shift(t, u, from, d, i + 1, depth, group + 1),
            TokV::Close(_) => if group != 0 {
                lemma_angle_end_shift(t, u, from, d, i + 1, depth, (group - 1) as nat);
            },
            TokV::Punct(c) => {
                if c == '<' && group == 0 {
                    lemma_angle_end_shift(t, u, from, d, i + 1, depth + 1, group);
                } else if c == '>' && group == 0 {
                    if depth != 0 {
                        lemma_angle_end_shift(t, u, from, d, i + 1, (depth - 1) as nat, group);
                    }
                } else {
                    lemma_angle_end_shift(t, u, from, d, i + 1, depth, group);
                }
            },
            _ => lemma_angle_end_shift(t, u, from, d, i + 1, depth, group),
        }
    }
}

/// The segments of a path move with the tokens.
pub proof fn lemma_p_segs_shift(t: Seq<TokV>, u: Seq<TokV>, from: int, d: int, i: int, segs: nat)
    requires
        shifted(t, u, from, d),
        from <= i,
    ensures
        p_segs(u, i + d, segs) == match p_segs(t, i, segs) {
            Ok((n, last, args, end)) => Ok((
                n,
                last + d,
                match args {
                    Some((a, b)) => Some((a + d, b + d)),
                    None => None,
                },
                end + d,
            )),
            Err(e) => Err(e),
        },
    decreases t.len() - i,
{
    if i < t.len() {
        assert(u[i + d] == t[i]);
    }
    if i + 1 < t.len() {
        assert(u[i + 1 + d] == t[i + 1]);
    }
    if tokens::ident_at(t, i) {
        if tokens::punct_at(t, i + 1, '<') {
            lemma_angle_end_shift(t, u, from, d, i + 2, 0, 0);
            lemma_angle_end(t, i + 2, 0, 0);
            match angle_end(t, i + 2, 0, 0) {
                Some(e) => {
                    if e < t.len() {
                        assert(u[e + d] == t[e]);
                    }
                    if e + 1 < t.len() {
                        assert(u[e + 1 + d] == t[e + 1]);
                    }
                    if e + 2 < t.len() {
                        assert(u[e + 2 + d] == t[e + 2]);
                    }
                    assert(colon2_ident_at(u, e + d) == colon2_ident_at(t, e));
                    if colon2_ident_at(t, e) {
                        lemma_p_segs_shift(t, u, from, d, e + 2, segs + 1);
                    }
                },
                None => {},
            }
        } else {
            if i + 2 < t.len() {
                assert(u[i + 2 + d] == t[i + 2]);
            }
            if i + 3 < t.len() {
                assert(u[i + 3 + d] == t[i + 3]);
            }
            assert(colon2_ident_at(u, i + 1 + d) == colon2_ident_at(t, i + 1));
            if colon2_ident_at(t, i + 1) {
                lemma_p_segs_shift(t, u, from, d, i + 3, segs + 1);
            }
        }
    }
}

/// A path moves with the tokens.
pub proof fn lemma_p_path_shift(t: Seq<TokV>, u: Seq<TokV>, from: int, d: int, i: int)
    requires
        shifted(t, u, from, d),
        from <= i,
    ensures
        p_path(u, i + d) == match p_path(t, i) {
            Ok(p) => Ok(
                PathV {
                    last: p.last + d,
                    args: match p.args {
                        Some((a, b)) => Some((a + d, b + d)),
                        None => None,
                    },
                    end: p.end + d,
                    ..p
                },
            ),
            Err(e) => Err(e),
        },
{
    if i < t.len() {
        assert(u[i + d] == t[i]);
    }
    if i + 1 < t.len() {
        assert(u[i + 1 + d] == t[i + 1]);
    }
    let leading = tokens::punct_at(t, i, ':') && tokens::punct_at(t, i + 1, ':');
    let s = if leading { i + 2 } else { i };
    lemma_p_segs_shift(t, u, from, d, s, 0);
}

/// The closing of a group moves with the tokens.
pub proof fn lemma_group_close_shift(t: Seq<TokV>, u: Seq<TokV>, from: int, d: int, i: int, depth: nat)
    requires
        shifted(t, u, from, d),
        from <= i,
    ensures
        group_close(u, i + d, depth) == match group_close(t, i, depth) {
            Some(c) => Some(c + d),
            None => None,
        },
    decreases t.len() - i,
{
    if i < t.len() {
        assert(u[i + d] == t[i]);
        match t[i] {
            TokV::Open(_) => lemma_group_close_shift(t, u, from, d, i + 1, depth + 1),
            TokV::Close(_) => if depth != 0 {
                lemma_group_close_shift(t, u, from, d, i + 1, (depth - 1) as nat);
            },
            _ => lemma_group_close_shift(t, u, from, d, i + 1, depth),
        }
    }
}
} // verus!
