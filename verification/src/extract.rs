//! The signature extractor.
//!
//! A declaration's token sequence is scanned left to right: the identifier
//! after the `fn` keyword is the function's name, the first parenthesized
//! group after the name is the parameter list, and the first brace group ends
//! the signature and starts the body. The parameter list is scanned for the
//! names that a generated call can forward.
//!
//! The scans are specified as folds (`param_scan`, `sig_scan`) over the token
//! images, and the executable functions are proved to return exactly what the
//! folds say.

use vstd::prelude::*;

use crate::token::Delim;
use crate::token::Spacing;
use crate::token::Tok;
use crate::token::Token;
use crate::token::clone_token;
use crate::token::lemma_toks_of_elts;
use crate::token::lemma_toks_of_push;
use crate::token::tok_of;
use crate::token::toks_of;
use crate::TransformError;

verus! {

/// The receiver keyword: a parameter equal to it is forwarded verbatim.
pub open spec fn receiver_kw() -> Seq<char> {
    "self"@
}

/// The wildcard placeholder: a parameter equal to it cannot be forwarded.
pub open spec fn wildcard_kw() -> Seq<char> {
    "_"@
}

/// The function keyword that precedes the function's name.
pub open spec fn fn_kw() -> Seq<char> {
    "fn"@
}

/// The state of the parameter-list scan: a pending candidate name and the
/// names committed so far.
#[verifier::ext_equal]
pub ghost struct ParamState {
    pub candidate: Option<Seq<char>>,
    pub names: Seq<Seq<char>>,
}

/// The scan state before any token.
pub open spec fn param_init() -> ParamState {
    ParamState { candidate: None, names: Seq::empty() }
}

/// One step of the parameter-list scan; `None` is the failure on a
/// wildcard-named parameter.
///
/// A receiver keyword is committed at once; any other identifier becomes the
/// candidate. A lone colon commits the pending candidate as a parameter name;
/// a joint colon is the first half of a path qualifier and drops the
/// candidate instead.
pub open spec fn param_step(st: ParamState, t: Tok) -> Option<ParamState> {
    match t {
        Tok::Ident(s) => if s == receiver_kw() {
            Some(ParamState { names: st.names.push(s), ..st })
        } else if s == wildcard_kw() {
            None
        } else {
            Some(ParamState { candidate: Some(s), ..st })
        },
        Tok::Punct(c, sp) => if c == ':' {
            if sp == Spacing::Alone {
                match st.candidate {
                    Some(n) => Some(ParamState { candidate: None, names: st.names.push(n) }),
                    None => Some(st),
                }
            } else {
                Some(ParamState { candidate: None, ..st })
            }
        } else {
            Some(st)
        },
        _ => Some(st),
    }
}

/// The parameter-list scan over a whole token sequence.
pub open spec fn param_scan(ts: Seq<Tok>) -> Option<ParamState>
    decreases ts,
{
    if ts.len() == 0 {
        Some(param_init())
    } else {
        match param_scan(ts.drop_last()) {
            Some(st) => param_step(st, ts.last()),
            None => None,
        }
    }
}

/// `param_scan` of an extended sequence takes one more step.
pub broadcast proof fn lemma_param_scan_push(ts: Seq<Tok>, t: Tok)
    ensures
        #[trigger] param_scan(ts.push(t)) == (match param_scan(ts) {
            Some(st) => param_step(st, t),
            None => None,
        }),
{
    assert(ts.push(t).drop_last() =~= ts);
    assert(ts.push(t).last() == t);
}

/// A failed scan of a prefix fails the scan of the whole sequence.
pub proof fn lemma_param_scan_none_extends(ts: Seq<Tok>, i: int)
    requires
        0 <= i <= ts.len(),
        param_scan(ts.take(i)) is None,
    ensures
        param_scan(ts) is None,
    decreases ts.len() - i,
{
    broadcast use lemma_param_scan_push;

    if i < ts.len() {
        assert(ts.take(i + 1) =~= ts.take(i).push(ts[i]));
        lemma_param_scan_none_extends(ts, i + 1);
    } else {
        assert(ts.take(i) =~= ts);
    }
}

/// The parameter-list scan fails exactly when some token is an identifier
/// equal to the wildcard placeholder: a wildcard is never passed over in
/// silence, and nothing else fails the scan.
pub proof fn lemma_param_scan_fails_iff_wildcard(ts: Seq<Tok>)
    ensures
        param_scan(ts) is None <==> exists|i: int|
            0 <= i < ts.len() && ts[i] == Tok::Ident(wildcard_kw()),
    decreases ts,
{
    if ts.len() > 0 {
        let pre = ts.drop_last();
        lemma_param_scan_fails_iff_wildcard(pre);
        assert(forall|i: int| 0 <= i < pre.len() ==> pre[i] == ts[i]);
        match param_scan(pre) {
            None => {
                let i = choose|i: int| 0 <= i < pre.len() && pre[i] == Tok::Ident(wildcard_kw());
                assert(ts[i] == Tok::Ident(wildcard_kw()));
            },
            Some(st) => {
                if param_step(st, ts.last()) is None {
                    assert(ts[ts.len() - 1] == Tok::Ident(wildcard_kw()));
                } else {
                    assert forall|i: int| 0 <= i < ts.len() implies ts[i] != Tok::Ident(
                        wildcard_kw(),
                    ) by {
                        if i < ts.len() - 1 {
                            assert(pre[i] == ts[i]);
                        } else {
                            reveal_strlit("self");
                            reveal_strlit("_");
                            assert(receiver_kw().len() != wildcard_kw().len());
                            assert(ts[i] == ts.last());
                        }
                    }
                }
            },
        }
    }
}

/// A colon immediately followed by a second colon never terminates a
/// parameter name: after any scanned prefix, the joint first half of such a
/// pair drops the pending candidate without committing it, and the alone
/// second half then finds no candidate left, so neither half adds a name.
pub proof fn lemma_double_colon_commits_nothing(ts: Seq<Tok>, st: ParamState)
    requires
        param_scan(ts) == Some(st),
    ensures
        param_scan(ts.push(Tok::Punct(':', Spacing::Joint))) == Some(
            ParamState { candidate: None, names: st.names },
        ),
        param_scan(ts.push(Tok::Punct(':', Spacing::Joint)).push(Tok::Punct(':', Spacing::Alone)))
            == Some(ParamState { candidate: None, names: st.names }),
{
    lemma_param_scan_push(ts, Tok::Punct(':', Spacing::Joint));
    lemma_param_scan_push(
        ts.push(Tok::Punct(':', Spacing::Joint)),
        Tok::Punct(':', Spacing::Alone),
    );
}

/// The image of a sequence of names, character sequence by character
/// sequence.
pub open spec fn names_of(ss: Seq<String>) -> Seq<Seq<char>> {
    Seq::new(ss.len(), |i: int| ss[i]@)
}

/// `names_of` of an extended sequence extends the image.
pub broadcast proof fn lemma_names_of_push(ss: Seq<String>, s: String)
    ensures
        #[trigger] names_of(ss.push(s)) == names_of(ss).push(s@),
{
    assert(names_of(ss.push(s)) =~= names_of(ss).push(s@));
}

/// The image of an optional name.
pub open spec fn opt_name_of(o: Option<String>) -> Option<Seq<char>> {
    match o {
        None => None,
        Some(s) => Some(s@),
    }
}

/// True when the string equals the keyword.
fn is_kw(s: &String, kw: &str) -> (b: bool)
    ensures
        b == (s@ == kw@),
{
    let k: String = kw.to_owned();
    *s == k
}

/// Scan a parameter list's tokens for the forwardable parameter names, in
/// order; fail on a parameter named with the wildcard placeholder.
pub fn parse_arguments(tokens: &Vec<Token>) -> (r: Result<Vec<String>, TransformError>)
    ensures
        (match r {
            Ok(names) => param_scan(toks_of(tokens@)) matches Some(st) && st.names == names_of(
                names@,
            ),
            Err(e) => e == TransformError::UnnameableParameter && param_scan(toks_of(tokens@))
                is None,
        }),
{
    broadcast use lemma_param_scan_push, lemma_names_of_push, lemma_toks_of_elts;

    let ghost whole = toks_of(tokens@);
    let mut candidate: Option<String> = None;
    let mut names: Vec<String> = Vec::new();
    let n = tokens.len();
    for i in 0..n
        invariant
            n == tokens.len(),
            whole == toks_of(tokens@),
            whole.len() == n,
            param_scan(whole.take(i as int)) == Some(
                ParamState { candidate: opt_name_of(candidate), names: names_of(names@) },
            ),
        decreases n - i,
    {
        let ghost pre_st = ParamState { candidate: opt_name_of(candidate), names: names_of(names@) };
        proof {
            lemma_toks_of_elts(tokens@);
            assert(whole.take(i + 1) =~= whole.take(i as int).push(whole[i as int]));
            assert(whole[i as int] == tok_of(tokens@[i as int]));
            lemma_param_scan_push(whole.take(i as int), whole[i as int]);
            assert(param_scan(whole.take(i + 1)) == param_step(pre_st, whole[i as int]));
        }
        match &tokens[i] {
            Token::Ident(s) => {
                if is_kw(s, "self") {
                    names.push(s.clone());
                } else if is_kw(s, "_") {
                    proof {
                        lemma_param_scan_none_extends(whole, i + 1);
                    }
                    return Err(TransformError::UnnameableParameter);
                } else {
                    candidate = Some(s.clone());
                }
            },
            Token::Punct(c, sp) => {
                if *c == ':' {
                    match *sp {
                        Spacing::Alone => {
                            let pending = candidate.take();
                            if let Some(cand) = pending {
                                names.push(cand);
                            }
                        },
                        Spacing::Joint => {
                            candidate = None;
                        },
                    }
                }
            },
            _ => {},
        }
    }
    proof {
        assert(whole.take(n as int) =~= whole);
    }
    Ok(names)
}

/// The state of the signature scan.
///
/// `split` counts the tokens read up to and including the function's name;
/// `sig` collects every signature token read so far; `done` is set once the
/// body's brace group has been reached.
#[verifier::ext_equal]
pub ghost struct SigState {
    pub seen_fn: bool,
    pub name: Option<Seq<char>>,
    pub plist: Option<Seq<Tok>>,
    pub sig: Seq<Tok>,
    pub split: nat,
    pub done: bool,
}

/// The scan state before any token.
pub open spec fn sig_init() -> SigState {
    SigState { seen_fn: false, name: None, plist: None, sig: Seq::empty(), split: 0, done: false }
}

/// One step of the signature scan.
///
/// The identifier after the function keyword becomes the name; the first
/// parenthesized group after the name becomes the parameter list, later ones
/// pass through; the first brace group is the body, excluded from the
/// signature, and ends the scan.
pub open spec fn sig_step(st: SigState, t: Tok) -> SigState {
    if st.done {
        st
    } else {
        let split = if st.name is None {
            (st.split + 1) as nat
        } else {
            st.split
        };
        match t {
            Tok::Group(d, inner) => if d == Delim::Brace {
                SigState { split, done: true, ..st }
            } else if d == Delim::Paren && st.name is Some && st.plist is None {
                SigState { split, plist: Some(inner), sig: st.sig.push(t), ..st }
            } else {
                SigState { split, sig: st.sig.push(t), ..st }
            },
            Tok::Ident(s) => if st.name is None && st.seen_fn {
                SigState { split, name: Some(s), sig: st.sig.push(t), ..st }
            } else if s == fn_kw() {
                SigState { split, seen_fn: true, sig: st.sig.push(t), ..st }
            } else {
                SigState { split, sig: st.sig.push(t), ..st }
            },
            _ => SigState { split, sig: st.sig.push(t), ..st },
        }
    }
}

/// The signature scan over a whole token sequence.
pub open spec fn sig_scan(ts: Seq<Tok>) -> SigState
    decreases ts,
{
    if ts.len() == 0 {
        sig_init()
    } else {
        sig_step(sig_scan(ts.drop_last()), ts.last())
    }
}

/// `sig_scan` of an extended sequence takes one more step.
pub broadcast proof fn lemma_sig_scan_push(ts: Seq<Tok>, t: Tok)
    ensures
        #[trigger] sig_scan(ts.push(t)) == sig_step(sig_scan(ts), t),
{
    assert(ts.push(t).drop_last() =~= ts);
    assert(ts.push(t).last() == t);
}

/// After the body's brace group, further tokens change nothing.
pub proof fn lemma_sig_scan_done_extends(ts: Seq<Tok>, i: int)
    requires
        0 <= i <= ts.len(),
        sig_scan(ts.take(i)).done,
    ensures
        sig_scan(ts) == sig_scan(ts.take(i)),
    decreases ts.len() - i,
{
    if i < ts.len() {
        assert(ts.take(i + 1) =~= ts.take(i).push(ts[i]));
        lemma_sig_scan_push(ts.take(i), ts[i]);
        lemma_sig_scan_done_extends(ts, i + 1);
    } else {
        assert(ts.take(i) =~= ts);
    }
}

/// A name or a parameter list, once found, is kept with its value by the
/// rest of the scan.
pub proof fn lemma_sig_scan_keeps(ts: Seq<Tok>, i: int)
    requires
        0 <= i <= ts.len(),
    ensures
        sig_scan(ts.take(i)).name is Some ==> sig_scan(ts).name == sig_scan(ts.take(i)).name,
        sig_scan(ts.take(i)).plist is Some ==> sig_scan(ts).plist == sig_scan(ts.take(i)).plist,
    decreases ts.len() - i,
{
    if i < ts.len() {
        assert(ts.take(i + 1) =~= ts.take(i).push(ts[i]));
        lemma_sig_scan_push(ts.take(i), ts[i]);
        lemma_sig_scan_keeps(ts, i + 1);
    } else {
        assert(ts.take(i) =~= ts);
    }
}

/// Once the name is found, the split point lies within the signature.
pub proof fn lemma_sig_scan_split_in_sig(ts: Seq<Tok>)
    ensures
        sig_scan(ts).name is None && !sig_scan(ts).done ==> sig_scan(ts).split == sig_scan(
            ts,
        ).sig.len(),
        sig_scan(ts).name is Some ==> sig_scan(ts).split <= sig_scan(ts).sig.len(),
    decreases ts,
{
    if ts.len() > 0 {
        lemma_sig_scan_split_in_sig(ts.drop_last());
    }
}

/// What the extractor finds in a declaration: the name, the forwardable
/// parameter names in order, the signature tokens, and the index just past
/// the name within them.
#[verifier::ext_equal]
pub ghost struct SummaryModel {
    pub name: Seq<char>,
    pub params: Seq<Seq<char>>,
    pub sig: Seq<Tok>,
    pub split: nat,
}

/// The whole extraction: scan the declaration, then the parameter list.
///
/// A declaration without a function keyword, a name, or a parameter list
/// before its body is refused as malformed; a wildcard-named parameter is
/// refused as unnameable.
pub open spec fn extract(ts: Seq<Tok>) -> Result<SummaryModel, TransformError> {
    let st = sig_scan(ts);
    match st.name {
        None => Err(TransformError::Structure),
        Some(name) => match st.plist {
            None => Err(TransformError::Structure),
            Some(ptoks) => match param_scan(ptoks) {
                None => Err(TransformError::UnnameableParameter),
                Some(ps) => Ok(
                    SummaryModel { name, params: ps.names, sig: st.sig, split: st.split },
                ),
            },
        },
    }
}

/// The structured summary of one function declaration.
pub struct FunctionSummary {
    /// The function's name.
    pub name: String,
    /// The forwardable parameter names, in declaration order.
    pub parameters: Vec<String>,
    /// Every token before the body's brace group.
    pub signature_tokens: Vec<Token>,
    /// The index just past the name token within `signature_tokens`.
    pub split_index: usize,
}

impl FunctionSummary {
    /// The mathematical image of the summary.
    pub open spec fn model(&self) -> SummaryModel {
        SummaryModel {
            name: self.name@,
            params: names_of(self.parameters@),
            sig: toks_of(self.signature_tokens@),
            split: self.split_index as nat,
        }
    }
}

/// Scan a function declaration and produce its summary, or the error that
/// the extraction specification assigns to it.
pub fn parse_signature(item: &Vec<Token>) -> (r: Result<FunctionSummary, TransformError>)
    ensures
        (match r {
            Ok(s) => extract(toks_of(item@)) == Ok::<SummaryModel, TransformError>(s.model())
                && s.split_index <= s.signature_tokens.len(),
            Err(e) => extract(toks_of(item@)) == Err::<SummaryModel, TransformError>(e),
        }),
{
    broadcast use lemma_toks_of_push;

    let ghost whole = toks_of(item@);
    proof {
        lemma_toks_of_elts(item@);
    }
    let mut seen_fn = false;
    let mut name: Option<String> = None;
    let mut parameters: Option<Vec<String>> = None;
    let mut sig: Vec<Token> = Vec::new();
    let mut split: usize = 0;
    let mut done = false;
    let n = item.len();
    let mut i: usize = 0;
    while i < n && !done
        invariant
            n == item.len(),
            whole == toks_of(item@),
            whole.len() == n,
            i <= n,
            sig_scan(whole.take(i as int)).seen_fn == seen_fn,
            sig_scan(whole.take(i as int)).name == opt_name_of(name),
            sig_scan(whole.take(i as int)).sig == toks_of(sig@),
            sig_scan(whole.take(i as int)).split == split as nat,
            sig_scan(whole.take(i as int)).done == done,
            split <= i,
            (match parameters {
                None => sig_scan(whole.take(i as int)).plist is None,
                Some(ps) => sig_scan(whole.take(i as int)).plist matches Some(pt)
                    && param_scan(pt) matches Some(pst) && pst.names == names_of(ps@),
            }),
        decreases n - i,
    {
        let ghost pre = sig_scan(whole.take(i as int));
        proof {
            lemma_toks_of_elts(item@);
            assert(whole.take(i + 1) =~= whole.take(i as int).push(whole[i as int]));
            lemma_sig_scan_push(whole.take(i as int), whole[i as int]);
            assert(sig_scan(whole.take(i + 1)) == sig_step(pre, whole[i as int]));
            assert(whole[i as int] == tok_of(item@[i as int]));
        }
        if name.is_none() {
            split = split + 1;
        }
        match &item[i] {
            Token::Ident(s) => {
                if name.is_none() && seen_fn {
                    name = Some(s.clone());
                } else if is_kw(s, "fn") {
                    seen_fn = true;
                }
            },
            Token::Group(d, inner) => {
                if *d == Delim::Brace {
                    done = true;
                } else if *d == Delim::Paren && name.is_some() && parameters.is_none() {
                    match parse_arguments(inner) {
                        Ok(ps) => {
                            parameters = Some(ps);
                        },
                        Err(e) => {
                            proof {
                                lemma_sig_scan_keeps(whole, i + 1);
                            }
                            return Err(e);
                        },
                    }
                }
            },
            _ => {},
        }
        if !done {
            let c = clone_token(&item[i]);
            proof {
                lemma_toks_of_push(sig@, c);
            }
            sig.push(c);
        }
        i = i + 1;
    }
    proof {
        if done {
            lemma_sig_scan_done_extends(whole, i as int);
        } else {
            assert(whole.take(i as int) =~= whole);
        }
        assert(sig_scan(whole) == sig_scan(whole.take(i as int)));
    }
    if let Some(found_name) = name {
        if let Some(found_params) = parameters {
            proof {
                lemma_sig_scan_split_in_sig(whole);
                lemma_toks_of_elts(sig@);
            }
            Ok(
                FunctionSummary {
                    name: found_name,
                    parameters: found_params,
                    signature_tokens: sig,
                    split_index: split,
                },
            )
        } else {
            Err(TransformError::Structure)
        }
    } else {
        Err(TransformError::Structure)
    }
}

} // verus!
