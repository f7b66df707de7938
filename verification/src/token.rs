//! The token model the transformation works on.
//!
//! A declaration is a sequence of token trees: identifiers, punctuation
//! marks, literals and delimited groups. `Token` is the executable form;
//! `Tok` is its mathematical image, with strings replaced by character
//! sequences, used by every contract in the crate.

use vstd::prelude::*;

verus! {

broadcast use vstd::std_specs::vec::group_vec_axioms;

/// The delimiter of a token group.
#[derive(Clone, Copy, PartialEq, Eq, Debug, Structural)]
pub enum Delim {
    Paren,
    Bracket,
    Brace,
}

/// Whether a punctuation mark is followed immediately by another one.
///
/// A `Joint` mark glues to the next punctuation token; a multi-character
/// operator such as a path qualifier arrives as joint marks closed by one
/// alone mark.
#[derive(Clone, Copy, PartialEq, Eq, Debug, Structural)]
pub enum Spacing {
    Alone,
    Joint,
}

/// One token tree of a declaration.
///
/// `Literal` carries a literal's source text verbatim; `Str` is a string
/// literal carrying its content, without the enclosing quotes. The library
/// never inspects a `Literal` and only ever constructs `Str` tokens.
#[derive(PartialEq, Eq, Debug)]
pub enum Token {
    Ident(String),
    Punct(char, Spacing),
    Literal(String),
    Str(String),
    Group(Delim, Vec<Token>),
}

/// The mathematical image of a [`Token`].
#[verifier::ext_equal]
pub enum Tok {
    Ident(Seq<char>),
    Punct(char, Spacing),
    Literal(Seq<char>),
    Str(Seq<char>),
    Group(Delim, Seq<Tok>),
}

/// The image of one token.
pub open spec fn tok_of(t: Token) -> Tok
    decreases t,
{
    match t {
        Token::Ident(s) => Tok::Ident(s@),
        Token::Punct(c, sp) => Tok::Punct(c, sp),
        Token::Literal(s) => Tok::Literal(s@),
        Token::Str(s) => Tok::Str(s@),
        Token::Group(d, ts) => Tok::Group(d, toks_of(ts@)),
    }
}

/// The image of a token sequence, element by element.
pub open spec fn toks_of(ts: Seq<Token>) -> Seq<Tok>
    decreases ts,
{
    if ts.len() == 0 {
        Seq::empty()
    } else {
        toks_of(ts.drop_last()).push(tok_of(ts.last()))
    }
}

/// `toks_of` maps each element through `tok_of` and keeps the length.
pub broadcast proof fn lemma_toks_of_elts(ts: Seq<Token>)
    ensures
        (#[trigger] toks_of(ts)).len() == ts.len(),
        forall|i: int| 0 <= i < ts.len() ==> toks_of(ts)[i] == tok_of(ts[i]),
    decreases ts.len(),
{
    if ts.len() > 0 {
        lemma_toks_of_elts(ts.drop_last());
    }
}

/// `toks_of` of an extended sequence extends the image.
pub broadcast proof fn lemma_toks_of_push(ts: Seq<Token>, t: Token)
    ensures
        #[trigger] toks_of(ts.push(t)) == toks_of(ts).push(tok_of(t)),
{
    assert(ts.push(t).drop_last() =~= ts);
    assert(ts.push(t).last() == t);
}

/// A deep copy of one token, equal to the original in the model.
pub fn clone_token(t: &Token) -> (r: Token)
    ensures
        tok_of(r) == tok_of(*t),
    decreases *t,
{
    match t {
        Token::Ident(s) => Token::Ident(s.clone()),
        Token::Punct(c, sp) => Token::Punct(*c, *sp),
        Token::Literal(s) => Token::Literal(s.clone()),
        Token::Str(s) => Token::Str(s.clone()),
        Token::Group(d, ts) => {
            let mut inner: Vec<Token> = Vec::new();
            let n = ts.len();
            for i in 0..n
                invariant
                    *t == Token::Group(*d, *ts),
                    n == ts.len(),
                    inner.len() == i,
                    forall|j: int| 0 <= j < i ==> tok_of(#[trigger] inner@[j]) == tok_of(ts@[j]),
                decreases n - i,
            {
                proof {
                    assert(decreases_to!(*t => t->Group_1));
                    assert(decreases_to!(t->Group_1 => t->Group_1@));
                    assert(decreases_to!(t->Group_1@ => t->Group_1@[i as int]));
                }
                let c = clone_token(&ts[i]);
                inner.push(c);
            }
            proof {
                broadcast use lemma_toks_of_elts;

                assert(toks_of(inner@) =~= toks_of(ts@));
            }
            Token::Group(*d, inner)
        },
    }
}

impl Clone for Token {
    /// A deep copy of the token, equal to the original in the model.
    fn clone(&self) -> (r: Self)
        ensures
            tok_of(r) == tok_of(*self),
    {
        clone_token(self)
    }
}

/// A deep copy of a token sequence, equal to the original in the model.
pub fn clone_tokens(ts: &Vec<Token>) -> (r: Vec<Token>)
    ensures
        toks_of(r@) == toks_of(ts@),
{
    let mut out: Vec<Token> = Vec::new();
    let n = ts.len();
    for i in 0..n
        invariant
            n == ts.len(),
            out.len() == i,
            forall|j: int| 0 <= j < i ==> tok_of(#[trigger] out@[j]) == tok_of(ts@[j]),
        decreases n - i,
    {
        let c = clone_token(&ts[i]);
        out.push(c);
    }
    proof {
        broadcast use lemma_toks_of_elts;

        assert(toks_of(out@) =~= toks_of(ts@));
    }
    out
}

} // verus!
