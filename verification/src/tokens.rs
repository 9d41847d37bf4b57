//! Token streams: their mathematical model and the operations on them.
//!
//! A `proc_macro2::TokenStream` is opaque to the verifier. Its contents are
//! modelled by [`trees`], a sequence of [`Tree`] values without spans. The
//! items of this module that are believed without proof say how each operation
//! of `proc_macro2` acts on that model.

use proc_macro2::{Delimiter, Group, Ident, Punct, Spacing, Span, TokenStream, TokenTree};
use vstd::prelude::*;

verus! {

/// How a group of tokens is delimited.
#[derive(Clone, Copy, Debug, PartialEq, Eq, Structural)]
pub enum Delim {
    /// `( ... )`
    Parenthesis,
    /// `{ ... }`
    Brace,
    /// `[ ... ]`
    Bracket,
    /// A group without visible delimiters.
    Invisible,
}

/// One token tree, without its span.
pub enum Tree {
    /// An identifier or keyword, by its text.
    Ident(Seq<char>),
    /// A punctuation character, and whether the next character joins it.
    Punct(char, bool),
    /// A literal, by its text.
    Literal(Seq<char>),
    /// A delimited group and the trees inside it.
    Group(Delim, Seq<Tree>),
}

#[verifier::external_type_specification]
#[verifier::external_body]
pub struct ExTokenStream(TokenStream);

#[verifier::external_type_specification]
#[verifier::external_body]
pub struct ExIdent(Ident);

/// The token trees that a stream yields when it is iterated, each without its
/// span: an identifier by what `to_string` gives, a punctuation by `as_char`
/// and whether its spacing is `Joint`, a literal by what `to_string` gives, a
/// group by `delimiter` and the trees of `stream`.
pub uninterp spec fn trees(ts: TokenStream) -> Seq<Tree>;

/// The text of an identifier: what `Ident::to_string` gives.
pub uninterp spec fn ident_text(ident: Ident) -> Seq<char>;

/// A single identifier token.
pub open spec fn word_tree(text: Seq<char>) -> Tree {
    Tree::Ident(text)
}

/// A punctuation token that stands alone.
pub open spec fn punct_tree(ch: char) -> Tree {
    Tree::Punct(ch, false)
}

/// Whether `text` is made of ASCII letters, digits and `_` and starts with a
/// letter: such a text is an identifier.
pub open spec fn is_word(text: Seq<char>) -> bool {
    &&& text.len() > 0
    &&& is_letter(text[0])
    &&& forall|i: int| 0 <= i < text.len() ==> is_letter(#[trigger] text[i]) || is_digit(text[i]) || text[i] == '_'
}

/// Whether `ch` is an ASCII letter.
pub open spec fn is_letter(ch: char) -> bool {
    ('a' <= ch && ch <= 'z') || ('A' <= ch && ch <= 'Z')
}

/// Whether `ch` is an ASCII digit.
pub open spec fn is_digit(ch: char) -> bool {
    '0' <= ch && ch <= '9'
}

/// Whether `ch` is one of the punctuation characters of the token grammar.
pub open spec fn is_punct_char(ch: char) -> bool {
    ch == '!' || ch == '#' || ch == '$' || ch == '%' || ch == '&' || ch == '\'' || ch == '*'
        || ch == '+' || ch == ',' || ch == '-' || ch == '.' || ch == '/' || ch == ':' || ch == ';'
        || ch == '<' || ch == '=' || ch == '>' || ch == '?' || ch == '@' || ch == '^' || ch == '|'
        || ch == '~'
}

/// The first token of a stream, as far as the pipeline grammar reads it.
pub enum Token {
    /// An identifier or keyword.
    Word(Ident),
    /// A punctuation character, and whether the next character joins it.
    Punct(char, bool),
    /// A literal.
    Literal,
    /// A delimited group and the stream inside it.
    Group(Delim, TokenStream),
}

impl Token {
    /// Whether this token stands for the tree `t`.
    pub open spec fn stands_for(self, t: Tree) -> bool {
        match self {
            Token::Word(ident) => t == Tree::Ident(ident_text(ident)),
            Token::Punct(ch, joint) => t == Tree::Punct(ch, joint),
            Token::Literal => t is Literal,
            Token::Group(delim, inner) => t == Tree::Group(delim, trees(inner)),
        }
    }
}

/// `TokenStream::new` returns a stream without token trees.
pub assume_specification[ proc_macro2::TokenStream::new ]() -> (r: TokenStream)
    ensures
        trees(r) == Seq::<Tree>::empty(),
;

/// `TokenStream::is_empty` tells whether the stream holds no token tree.
pub assume_specification[ proc_macro2::TokenStream::is_empty ](ts: &TokenStream) -> (r: bool)
    ensures
        r == (trees(*ts).len() == 0),
;

/// `TokenStream::clone` returns a stream with the same token trees.
pub assume_specification[ <proc_macro2::TokenStream as Clone>::clone ](ts: &TokenStream) -> (r:
    TokenStream)
    ensures
        trees(r) == trees(*ts),
;

/// `Extend<TokenStream>::extend` on a `TokenStream`: the trees of `src` are
/// put behind those of `dst`, in order.
#[verifier::external_body]
pub(crate) fn append(dst: &mut TokenStream, src: &TokenStream)
    ensures
        trees(*final(dst)) == trees(*old(dst)) + trees(*src),
{
    dst.extend(core::iter::once(src.clone()));
}

/// `Group::new`, turned into a stream by `TokenStream::from`: one group with
/// the given delimiter around the trees of `inner`.
#[verifier::external_body]
pub(crate) fn group(delim: Delim, inner: &TokenStream) -> (r: TokenStream)
    ensures
        trees(r) == seq![Tree::Group(delim, trees(*inner))],
{
    let delimiter = match delim {
        Delim::Parenthesis => Delimiter::Parenthesis,
        Delim::Brace => Delimiter::Brace,
        Delim::Bracket => Delimiter::Bracket,
        Delim::Invisible => Delimiter::None,
    };
    TokenStream::from(TokenTree::Group(Group::new(delimiter, inner.clone())))
}

/// `Ident::new` at the call site, turned into a stream by `TokenStream::from`:
/// one identifier with the given text. `Ident::new` panics on a text that is
/// no identifier, which `requires` leaves out.
#[verifier::external_body]
pub(crate) fn word(text: &str) -> (r: TokenStream)
    requires
        is_word(text@),
    ensures
        trees(r) == seq![word_tree(text@)],
{
    TokenStream::from(TokenTree::Ident(Ident::new(text, Span::call_site())))
}

/// `Punct::new` with `Spacing::Alone`, turned into a stream by
/// `TokenStream::from`: one punctuation token. `Punct::new` panics on a
/// character that is no punctuation, which `requires` leaves out.
#[verifier::external_body]
pub(crate) fn punct(ch: char) -> (r: TokenStream)
    requires
        is_punct_char(ch),
    ensures
        trees(r) == seq![punct_tree(ch)],
{
    TokenStream::from(TokenTree::Punct(Punct::new(ch, Spacing::Alone)))
}

/// `ToTokens::to_token_stream` on an `Ident`: a stream of that one identifier.
#[verifier::external_body]
pub(crate) fn ident_tokens(ident: &Ident) -> (r: TokenStream)
    ensures
        trees(r) == seq![word_tree(ident_text(*ident))],
{
    quote::ToTokens::to_token_stream(ident)
}

/// `Ident::to_string`: the text of the identifier.
#[verifier::external_body]
pub(crate) fn ident_string(ident: &Ident) -> (r: String)
    ensures
        r@ == ident_text(*ident),
{
    ident.to_string()
}

/// `TokenStream::into_iter` on a copy of `ts`: `Iterator::next` gives the
/// first token tree, and `collect` gathers the others into a stream. `None`
/// where the stream is empty.
#[verifier::external_body]
pub(crate) fn split_first(ts: &TokenStream) -> (r: Option<(Token, TokenStream)>)
    ensures
        match r {
            Some((first, rest)) => {
                &&& trees(*ts).len() > 0
                &&& first.stands_for(trees(*ts)[0])
                &&& trees(rest) == trees(*ts).skip(1)
            },
            None => trees(*ts).len() == 0,
        },
{
    let mut rest = ts.clone().into_iter();
    let first = match rest.next()? {
        TokenTree::Ident(i) => Token::Word(i),
        TokenTree::Punct(p) => Token::Punct(p.as_char(), p.spacing() == Spacing::Joint),
        TokenTree::Literal(_) => Token::Literal,
        TokenTree::Group(g) => match g.delimiter() {
            Delimiter::Parenthesis => Token::Group(Delim::Parenthesis, g.stream()),
            Delimiter::Brace => Token::Group(Delim::Brace, g.stream()),
            Delimiter::Bracket => Token::Group(Delim::Bracket, g.stream()),
            Delimiter::None => Token::Group(Delim::Invisible, g.stream()),
        },
    };
    Some((first, rest.collect()))
}

/// The tokens of `a` followed by those of `b`.
pub fn joined(a: &TokenStream, b: &TokenStream) -> (r: TokenStream)
    ensures
        trees(r) == trees(*a) + trees(*b),
{
    let mut r = a.clone();
    append(&mut r, b);
    r
}

/// The tokens of `inner` between braces.
pub fn braced(inner: &TokenStream) -> (r: TokenStream)
    ensures
        trees(r) == seq![Tree::Group(Delim::Brace, trees(*inner))],
{
    group(Delim::Brace, inner)
}

/// The tokens of `inner` between parentheses.
pub fn parenthesized(inner: &TokenStream) -> (r: TokenStream)
    ensures
        trees(r) == seq![Tree::Group(Delim::Parenthesis, trees(*inner))],
{
    group(Delim::Parenthesis, inner)
}

/// Whether `src` starts with the identifier `text`.
pub open spec fn starts_with_word(src: Seq<Tree>, text: Seq<char>) -> bool {
    src.len() > 0 && src[0] == Tree::Ident(text)
}

/// Whether `src` starts with the punctuation `ch`, whatever follows it.
pub open spec fn starts_with_punct(src: Seq<Tree>, ch: char) -> bool {
    src.len() > 0 && (src[0] == Tree::Punct(ch, false) || src[0] == Tree::Punct(ch, true))
}

/// Takes the identifier `text` from the front of `input`: what follows it,
/// or `None` where `input` does not start with it.
pub fn take_word(input: &TokenStream, text: &str) -> (r: Option<TokenStream>)
    ensures
        match r {
            Some(rest) => starts_with_word(trees(*input), text@) && trees(rest) == trees(
                *input,
            ).skip(1),
            None => !starts_with_word(trees(*input), text@),
        },
{
    match split_first(input) {
        Some((Token::Word(ident), rest)) => {
            if ident_string(&ident) == text.to_owned() {
                Some(rest)
            } else {
                None
            }
        },
        _ => None,
    }
}

/// Takes the punctuation `ch` from the front of `input`: whether the next
/// character joins it and what follows it, or `None` where `input` does not
/// start with it.
pub fn take_punct(input: &TokenStream, ch: char) -> (r: Option<(bool, TokenStream)>)
    ensures
        match r {
            Some((joint, rest)) => {
                &&& trees(*input).len() > 0
                &&& trees(*input)[0] == Tree::Punct(ch, joint)
                &&& trees(rest) == trees(*input).skip(1)
            },
            None => !starts_with_punct(trees(*input), ch),
        },
{
    match split_first(input) {
        Some((Token::Punct(found, joint), rest)) => {
            if found == ch {
                Some((joint, rest))
            } else {
                None
            }
        },
        _ => None,
    }
}

} // verus!
