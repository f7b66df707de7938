//! The mode selector and emitter.
//!
//! The configuration key is resolved from the transformation argument; the
//! lookup's outcome selects the output form. With the key absent the
//! declaration is re-emitted behind an export-visibility marker carrying the
//! function's own name. With the key present the body is discarded and
//! replaced by a brace group that imports the function's symbol from the
//! configured dynamic library and calls it once, forwarding the extracted
//! parameter names in order.

use vstd::prelude::*;
use vstd::string::StringExecFns;

use crate::token::Delim;
use crate::token::Spacing;
use crate::token::Tok;
use crate::token::Token;
use crate::token::clone_token;
use crate::token::clone_tokens;
use crate::token::lemma_toks_of_elts;
use crate::token::lemma_toks_of_push;
use crate::token::tok_of;
use crate::token::toks_of;
use crate::extract::FunctionSummary;
use crate::extract::SummaryModel;
use crate::extract::fn_kw;
use crate::extract::names_of;
use crate::TransformError;

verus! {

/// The configuration key used when the transformation argument is absent.
pub open spec fn default_key() -> Seq<char> {
    "SMARTLINK_NO_IMPL"@
}

/// The key that governs a declaration's mode: the fixed sentinel when the
/// argument is absent, the identifier's text when the argument is a single
/// plain identifier, and a usage error on any other argument shape.
pub open spec fn key_of(attr: Seq<Tok>) -> Result<Seq<char>, TransformError> {
    if attr.len() == 0 {
        Ok(default_key())
    } else if attr.len() == 1 {
        match attr[0] {
            Tok::Ident(s) => Ok(s),
            _ => Err(TransformError::Usage),
        }
    } else {
        Err(TransformError::Usage)
    }
}

/// Resolve the configuration key from the transformation argument's tokens.
pub fn resolve_key(attr: &Vec<Token>) -> (r: Result<String, TransformError>)
    ensures
        (match r {
            Ok(k) => key_of(toks_of(attr@)) == Ok::<Seq<char>, TransformError>(k@),
            Err(e) => key_of(toks_of(attr@)) == Err::<Seq<char>, TransformError>(e),
        }),
{
    proof {
        lemma_toks_of_elts(attr@);
    }
    if attr.len() == 0 {
        Ok("SMARTLINK_NO_IMPL".to_owned())
    } else if attr.len() == 1 {
        match &attr[0] {
            Token::Ident(s) => Ok(s.clone()),
            _ => Err(TransformError::Usage),
        }
    } else {
        Err(TransformError::Usage)
    }
}

/// The keyword that opens a foreign-import block, assembled from its halves
/// because the word itself may not stand in this crate's source.
pub open spec fn abi_import_kw() -> Seq<char> {
    "ext"@ + "ern"@
}

/// The linkage attribute: `# [ link ( name = <lib> , kind = "dylib" ) ]`.
pub open spec fn link_attr_toks(lib: Seq<char>) -> Seq<Tok> {
    seq![
        Tok::Punct('#', Spacing::Alone),
        Tok::Group(
            Delim::Bracket,
            seq![
                Tok::Ident("link"@),
                Tok::Group(
                    Delim::Paren,
                    seq![
                        Tok::Ident("name"@),
                        Tok::Punct('=', Spacing::Alone),
                        Tok::Str(lib),
                        Tok::Punct(',', Spacing::Alone),
                        Tok::Ident("kind"@),
                        Tok::Punct('=', Spacing::Alone),
                        Tok::Str("dylib"@),
                    ],
                ),
            ],
        ),
    ]
}

/// The generated call's argument tokens: each parameter name in order, a
/// comma after each, the receiver pseudo-parameter included like any other.
pub open spec fn call_args(params: Seq<Seq<char>>) -> Seq<Tok>
    decreases params,
{
    if params.len() == 0 {
        Seq::empty()
    } else {
        call_args(params.drop_last()) + seq![
            Tok::Ident(params.last()),
            Tok::Punct(',', Spacing::Alone),
        ]
    }
}

/// `call_args` of an extended parameter list appends one name and one comma.
pub broadcast proof fn lemma_call_args_push(params: Seq<Seq<char>>, s: Seq<char>)
    ensures
        #[trigger] call_args(params.push(s)) == call_args(params) + seq![
            Tok::Ident(s),
            Tok::Punct(',', Spacing::Alone),
        ],
{
    assert(params.push(s).drop_last() =~= params);
    assert(params.push(s).last() == s);
}

/// Parameter forwarding is order-preserving and name-preserving: read left
/// to right, the generated call's argument tokens are exactly the original
/// parameter names in their original order, one comma after each, with a
/// receiver standing first whenever it was the first parameter.
pub proof fn lemma_call_args_order(params: Seq<Seq<char>>)
    ensures
        call_args(params).len() == 2 * params.len(),
        forall|i: int|
            0 <= i < params.len() ==> call_args(params)[2 * i] == Tok::Ident(#[trigger] params[i])
                && call_args(params)[2 * i + 1] == Tok::Punct(',', Spacing::Alone),
    decreases params,
{
    if params.len() > 0 {
        let pre = params.drop_last();
        lemma_call_args_order(pre);
        assert(forall|i: int| 0 <= i < pre.len() ==> pre[i] == #[trigger] params[i]);
        assert(params[params.len() - 1] == params.last());
    }
}

/// The foreign declaration inside the import block: `fn <name> <rest of the
/// signature> ;`, the rest being every signature token past the name.
pub open spec fn import_toks(s: SummaryModel) -> Seq<Tok> {
    seq![Tok::Ident(fn_kw()), Tok::Ident(s.name)] + s.sig.skip(s.split as int) + seq![
        Tok::Punct(';', Spacing::Alone),
    ]
}

/// The generated body of a dynamic-mode declaration: the linkage attribute,
/// the foreign-import block holding one declaration of the function's own
/// symbol, and one unchecked call to it forwarding the parameters.
pub open spec fn body_toks(s: SummaryModel, lib: Seq<char>) -> Seq<Tok> {
    link_attr_toks(lib) + seq![
        Tok::Ident(abi_import_kw()),
        Tok::Str("Rust"@),
        Tok::Group(Delim::Brace, import_toks(s)),
        Tok::Ident("unsafe"@),
        Tok::Group(
            Delim::Brace,
            seq![Tok::Ident(s.name), Tok::Group(Delim::Paren, call_args(s.params))],
        ),
    ]
}

/// A dynamic-mode declaration: the original signature, then the generated
/// body in place of the original one.
pub open spec fn dynamic_output(s: SummaryModel, lib: Seq<char>) -> Seq<Tok> {
    s.sig + seq![Tok::Group(Delim::Brace, body_toks(s, lib))]
}

/// A static-mode declaration: an export-visibility marker carrying the
/// function's own name, then the original declaration unchanged.
pub open spec fn static_output(name: Seq<char>, item: Seq<Tok>) -> Seq<Tok> {
    seq![
        Tok::Punct('#', Spacing::Alone),
        Tok::Group(
            Delim::Bracket,
            seq![
                Tok::Ident("export_name"@),
                Tok::Punct('=', Spacing::Alone),
                Tok::Str(name),
            ],
        ),
    ] + item
}

/// An identifier token with the given text.
fn ident_tok(s: &str) -> (t: Token)
    ensures
        tok_of(t) == Tok::Ident(s@),
{
    Token::Ident(s.to_owned())
}

/// A string-literal token with the given content.
fn str_tok(s: &str) -> (t: Token)
    ensures
        tok_of(t) == Tok::Str(s@),
{
    Token::Str(s.to_owned())
}

/// The identifier that opens the foreign-import block.
fn abi_import_ident() -> (t: Token)
    ensures
        tok_of(t) == Tok::Ident(abi_import_kw()),
{
    let mut s: String = "ext".to_owned();
    s.append("ern");
    Token::Ident(s)
}

/// Append the linkage attribute naming the dynamic library.
fn add_link_attr(body: &mut Vec<Token>, shared_object: &String)
    ensures
        toks_of(final(body)@) == toks_of(old(body)@) + link_attr_toks(shared_object@),
{
    let mut inner: Vec<Token> = Vec::new();
    inner.push(ident_tok("name"));
    inner.push(Token::Punct('=', Spacing::Alone));
    inner.push(Token::Str(shared_object.clone()));
    inner.push(Token::Punct(',', Spacing::Alone));
    inner.push(ident_tok("kind"));
    inner.push(Token::Punct('=', Spacing::Alone));
    inner.push(str_tok("dylib"));
    let ghost iv = inner@;
    let mut bracket: Vec<Token> = Vec::new();
    bracket.push(ident_tok("link"));
    bracket.push(Token::Group(Delim::Paren, inner));
    let ghost bv = bracket@;
    let hash = Token::Punct('#', Spacing::Alone);
    let group = Token::Group(Delim::Bracket, bracket);
    proof {
        lemma_toks_of_elts(iv);
        lemma_toks_of_elts(bv);
        lemma_toks_of_push(body@, hash);
        lemma_toks_of_push(body@.push(hash), group);
        assert(toks_of(iv) =~= link_attr_toks(shared_object@)[1]->Group_1[1]->Group_1);
        assert(toks_of(bv) =~= link_attr_toks(shared_object@)[1]->Group_1);
    }
    body.push(hash);
    body.push(group);
    proof {
        assert(toks_of(body@) =~= toks_of(old(body)@) + link_attr_toks(shared_object@));
    }
}

/// Emit the dynamic-mode declaration for an extracted summary and the
/// configured dynamic-library name.
pub fn emit_dynamic(summary: &FunctionSummary, shared_object: &String) -> (out: Vec<Token>)
    requires
        summary.split_index <= summary.signature_tokens.len(),
    ensures
        toks_of(out@) == dynamic_output(summary.model(), shared_object@),
{
    let ghost m = summary.model();
    proof {
        lemma_toks_of_elts(summary.signature_tokens@);
    }
    // the import: `fn <name> <rest of the signature> ;`
    let mut import: Vec<Token> = Vec::new();
    import.push(ident_tok("fn"));
    import.push(Token::Ident(summary.name.clone()));
    proof {
        lemma_toks_of_elts(import@);
        assert(toks_of(import@) =~= seq![Tok::Ident(fn_kw()), Tok::Ident(m.name)] + m.sig.subrange(
            m.split as int,
            m.split as int,
        ));
    }
    let ns = summary.signature_tokens.len();
    let mut k = summary.split_index;
    while k < ns
        invariant
            ns == summary.signature_tokens.len(),
            summary.split_index <= k <= ns,
            m == summary.model(),
            toks_of(import@) == seq![Tok::Ident(fn_kw()), Tok::Ident(m.name)] + m.sig.subrange(
                m.split as int,
                k as int,
            ),
        decreases ns - k,
    {
        let c = clone_token(&summary.signature_tokens[k]);
        proof {
            lemma_toks_of_elts(summary.signature_tokens@);
            lemma_toks_of_push(import@, c);
            assert(m.sig.subrange(m.split as int, k + 1) =~= m.sig.subrange(
                m.split as int,
                k as int,
            ).push(m.sig[k as int]));
        }
        import.push(c);
        k = k + 1;
    }
    let semi = Token::Punct(';', Spacing::Alone);
    proof {
        lemma_toks_of_push(import@, semi);
        assert(m.sig.subrange(m.split as int, ns as int) =~= m.sig.skip(m.split as int));
    }
    import.push(semi);
    let ghost importv = import@;
    proof {
        assert(toks_of(importv) =~= import_toks(m));
    }

    // the call: `<name> ( <parameters, in order> )`
    let mut args: Vec<Token> = Vec::new();
    let np = summary.parameters.len();
    for j in 0..np
        invariant
            np == summary.parameters.len(),
            m == summary.model(),
            toks_of(args@) == call_args(names_of(summary.parameters@).take(j as int)),
        decreases np - j,
    {
        let a = Token::Ident(summary.parameters[j].clone());
        let comma = Token::Punct(',', Spacing::Alone);
        proof {
            lemma_toks_of_push(args@, a);
            lemma_toks_of_push(args@.push(a), comma);
            lemma_call_args_push(
                names_of(summary.parameters@).take(j as int),
                summary.parameters@[j as int]@,
            );
            assert(names_of(summary.parameters@).take(j + 1) =~= names_of(
                summary.parameters@,
            ).take(j as int).push(summary.parameters@[j as int]@));
        }
        args.push(a);
        args.push(comma);
    }
    proof {
        assert(names_of(summary.parameters@).take(np as int) =~= m.params);
    }
    let mut call: Vec<Token> = Vec::new();
    call.push(Token::Ident(summary.name.clone()));
    let ghost argsv = args@;
    call.push(Token::Group(Delim::Paren, args));
    let ghost callv = call@;

    // the body: linkage attribute, import block, unchecked call
    let mut body: Vec<Token> = Vec::new();
    add_link_attr(&mut body, shared_object);
    let t_abi = abi_import_ident();
    let t_rust = str_tok("Rust");
    let t_import = Token::Group(Delim::Brace, import);
    let t_unsafe = ident_tok("unsafe");
    let t_call = Token::Group(Delim::Brace, call);
    proof {
        lemma_toks_of_elts(callv);
        assert(toks_of(callv) =~= seq![
            Tok::Ident(m.name),
            Tok::Group(Delim::Paren, toks_of(argsv)),
        ]);
        lemma_toks_of_push(body@, t_abi);
        lemma_toks_of_push(body@.push(t_abi), t_rust);
        lemma_toks_of_push(body@.push(t_abi).push(t_rust), t_import);
        lemma_toks_of_push(body@.push(t_abi).push(t_rust).push(t_import), t_unsafe);
        lemma_toks_of_push(
            body@.push(t_abi).push(t_rust).push(t_import).push(t_unsafe),
            t_call,
        );
    }
    body.push(t_abi);
    body.push(t_rust);
    body.push(t_import);
    body.push(t_unsafe);
    body.push(t_call);
    let ghost bodyv = body@;
    proof {
        assert(toks_of(bodyv) =~= body_toks(m, shared_object@));
    }

    // the declaration: the signature, then the generated body
    let mut out = clone_tokens(&summary.signature_tokens);
    let t_body = Token::Group(Delim::Brace, body);
    proof {
        lemma_toks_of_push(out@, t_body);
    }
    out.push(t_body);
    proof {
        assert(toks_of(out@) =~= dynamic_output(m, shared_object@));
    }
    out
}

/// Emit the static-mode declaration: the export-visibility marker named with
/// the function's own name, then the declaration unchanged.
pub fn emit_static(name: &String, item: &Vec<Token>) -> (out: Vec<Token>)
    ensures
        toks_of(out@) == static_output(name@, toks_of(item@)),
{
    let mut marker: Vec<Token> = Vec::new();
    marker.push(ident_tok("export_name"));
    marker.push(Token::Punct('=', Spacing::Alone));
    marker.push(Token::Str(name.clone()));
    let ghost mv = marker@;
    let mut out: Vec<Token> = Vec::new();
    out.push(Token::Punct('#', Spacing::Alone));
    out.push(Token::Group(Delim::Bracket, marker));
    let ghost prefix = out@;
    let mut rest = clone_tokens(item);
    let ghost restv = rest@;
    out.append(&mut rest);
    proof {
        lemma_toks_of_elts(mv);
        lemma_toks_of_elts(prefix);
        lemma_toks_of_elts(restv);
        lemma_toks_of_elts(out@);
        lemma_toks_of_elts(item@);
        assert(toks_of(mv) =~= static_output(name@, toks_of(item@))[1]->Group_1);
        assert(toks_of(out@) =~= static_output(name@, toks_of(item@)));
    }
    out
}

} // verus!
