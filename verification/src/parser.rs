//! The expression parser of the host language, as far as the pipeline uses
//! it.
//!
//! A `syn::Expr` is opaque to the verifier. What the pipeline reads of one is
//! its [`ExprModel`]. The items of this module that are believed without proof
//! say what each function of `syn` and `quote` returns, over that model and
//! over the model of token streams.

use crate::tokens::{ident_text, punct_tree, trees, Tree};
use proc_macro2::{Ident, TokenStream};
use quote::ToTokens;
use syn::parse::{ParseBuffer, Parser};
use syn::punctuated::Punctuated;
use syn::token::Comma;
use syn::Expr;
use vstd::prelude::*;

verus! {

#[verifier::external_type_specification]
#[verifier::external_body]
pub struct ExSynError(syn::Error);

#[verifier::external_type_specification]
#[verifier::external_body]
pub struct ExExpr(Expr);

#[verifier::external_type_specification]
#[verifier::external_body]
pub struct ExParseBuffer<'a>(ParseBuffer<'a>);

#[verifier::external_type_specification]
#[verifier::external_body]
pub struct ExComma(Comma);

#[verifier::external_type_specification]
#[verifier::external_body]
#[verifier::reject_recursive_types(T)]
#[verifier::reject_recursive_types(P)]
pub struct ExPunctuated<T, P>(Punctuated<T, P>);

/// The arguments of a call, each as a stream of tokens.
pub type Args = Punctuated<TokenStream, Comma>;

/// The kinds of expression that the classification knows: the variants of
/// `syn::Expr`. `Other` stands for a variant that it does not know.
#[derive(Clone, Copy, Debug, PartialEq, Eq, Structural)]
pub enum ExprKind {
    Array,
    Assign,
    Async,
    Await,
    Binary,
    Block,
    Break,
    Call,
    Cast,
    Closure,
    Const,
    Continue,
    Field,
    ForLoop,
    Group,
    If,
    Index,
    Infer,
    Let,
    Lit,
    Loop,
    Macro,
    Match,
    MethodCall,
    Paren,
    Path,
    Range,
    Reference,
    Repeat,
    Return,
    Struct,
    Try,
    TryBlock,
    Tuple,
    Unary,
    Unsafe,
    Verbatim,
    While,
    Yield,
    Other,
}

/// What the pipeline reads of a parsed expression.
pub struct ExprModel {
    /// The variant of `syn::Expr`.
    pub kind: ExprKind,
    /// The tokens of the whole expression.
    pub tokens: Seq<Tree>,
    /// Of a call or method call: the tokens of its attributes.
    pub attrs: Seq<Tree>,
    /// Of a call: the tokens of the function. Of a method call: those of the
    /// receiver.
    pub head: Seq<Tree>,
    /// Of a method call: the method's name. Of a call: nothing.
    pub method: Seq<Tree>,
    /// Of a method call: the generic arguments behind the method's name with
    /// their `::`, or nothing. Of a call: nothing.
    pub turbofish: Seq<Tree>,
    /// Of a call or method call: the tokens of each argument.
    pub args: Seq<Seq<Tree>>,
}

/// What a `syn::Expr` holds: its variant, the tokens that
/// `ToTokens::to_token_stream` gives for it and, for the variants `Call` and
/// `MethodCall`, the tokens that `to_token_stream` gives for each of the
/// fields `attrs`, `func` or `receiver`, `method`, `turbofish` and for each
/// item of `args`. A variant that [`ExprKind`] does not list has the kind
/// `Other`.
pub uninterp spec fn expr_model(expr: Expr) -> ExprModel;

/// The values that a punctuated list of arguments holds, each by its trees.
pub uninterp spec fn arg_items(args: Args) -> Seq<Seq<Tree>>;

/// Whether a punctuated list of arguments ends with a comma.
pub uninterp spec fn ends_with_comma(args: Args) -> bool;

/// What the expression parser makes of the start of `src`: `None` where it
/// refuses, else the expression and the tokens that it leaves.
pub uninterp spec fn expr_prefix(src: Seq<Tree>) -> Option<(ExprModel, Seq<Tree>)>;

/// What the expression parser makes of all of `src` when a method call is
/// asked for: `None` where it refuses.
pub uninterp spec fn method_call_of(src: Seq<Tree>) -> Option<ExprModel>;

/// Whether the parser takes an identifier with this text for a name: it
/// refuses `_` and the reserved words of the host language.
pub uninterp spec fn ident_accepted(text: Seq<char>) -> bool;

/// The kinds that [`kind_in_first_part`] tells apart.
pub open spec fn in_first_part(kind: ExprKind) -> bool {
    matches!(
        kind,
        ExprKind::Array | ExprKind::Assign | ExprKind::Async | ExprKind::Await
            | ExprKind::Binary | ExprKind::Block | ExprKind::Break | ExprKind::Call
            | ExprKind::Cast | ExprKind::Closure
    )
}

/// The variant of a `syn::Expr`, where it is one of `Array` to `Closure`
/// in the order of their names; `Other` for every other variant.
#[verifier::external_body]
fn kind_in_first_part(expr: &Expr) -> (kind: ExprKind)
    ensures
        kind == (if in_first_part(expr_model(*expr).kind) {
            expr_model(*expr).kind
        } else {
            ExprKind::Other
        }),
{
    match expr {
        Expr::Array(_) => ExprKind::Array,
        Expr::Assign(_) => ExprKind::Assign,
        Expr::Async(_) => ExprKind::Async,
        Expr::Await(_) => ExprKind::Await,
        Expr::Binary(_) => ExprKind::Binary,
        Expr::Block(_) => ExprKind::Block,
        Expr::Break(_) => ExprKind::Break,
        Expr::Call(_) => ExprKind::Call,
        Expr::Cast(_) => ExprKind::Cast,
        Expr::Closure(_) => ExprKind::Closure,
        _ => ExprKind::Other,
    }
}

/// The kinds that [`kind_in_second_part`] tells apart.
pub open spec fn in_second_part(kind: ExprKind) -> bool {
    matches!(
        kind,
        ExprKind::Const | ExprKind::Continue | ExprKind::Field | ExprKind::ForLoop
            | ExprKind::Group | ExprKind::If | ExprKind::Index | ExprKind::Infer | ExprKind::Let
            | ExprKind::Lit
    )
}

/// The variant of a `syn::Expr`, where it is one of `Const` to `Lit`
/// in the order of their names; `Other` for every other variant.
#[verifier::external_body]
fn kind_in_second_part(expr: &Expr) -> (kind: ExprKind)
    ensures
        kind == (if in_second_part(expr_model(*expr).kind) {
            expr_model(*expr).kind
        } else {
            ExprKind::Other
        }),
{
    match expr {
        Expr::Const(_) => ExprKind::Const,
        Expr::Continue(_) => ExprKind::Continue,
        Expr::Field(_) => ExprKind::Field,
        Expr::ForLoop(_) => ExprKind::ForLoop,
        Expr::Group(_) => ExprKind::Group,
        Expr::If(_) => ExprKind::If,
        Expr::Index(_) => ExprKind::Index,
        Expr::Infer(_) => ExprKind::Infer,
        Expr::Let(_) => ExprKind::Let,
        Expr::Lit(_) => ExprKind::Lit,
        _ => ExprKind::Other,
    }
}

/// The kinds that [`kind_in_third_part`] tells apart.
pub open spec fn in_third_part(kind: ExprKind) -> bool {
    matches!(
        kind,
        ExprKind::Loop | ExprKind::Macro | ExprKind::Match | ExprKind::MethodCall
            | ExprKind::Paren | ExprKind::Path | ExprKind::Range | ExprKind::Reference
            | ExprKind::Repeat | ExprKind::Return
    )
}

/// The variant of a `syn::Expr`, where it is one of `Loop` to `Return`
/// in the order of their names; `Other` for every other variant.
#[verifier::external_body]
fn kind_in_third_part(expr: &Expr) -> (kind: ExprKind)
    ensures
        kind == (if in_third_part(expr_model(*expr).kind) {
            expr_model(*expr).kind
        } else {
            ExprKind::Other
        }),
{
    match expr {
        Expr::Loop(_) => ExprKind::Loop,
        Expr::Macro(_) => ExprKind::Macro,
        Expr::Match(_) => ExprKind::Match,
        Expr::MethodCall(_) => ExprKind::MethodCall,
        Expr::Paren(_) => ExprKind::Paren,
        Expr::Path(_) => ExprKind::Path,
        Expr::Range(_) => ExprKind::Range,
        Expr::Reference(_) => ExprKind::Reference,
        Expr::Repeat(_) => ExprKind::Repeat,
        Expr::Return(_) => ExprKind::Return,
        _ => ExprKind::Other,
    }
}

/// The kinds that [`kind_in_last_part`] tells apart.
pub open spec fn in_last_part(kind: ExprKind) -> bool {
    matches!(
        kind,
        ExprKind::Struct | ExprKind::Try | ExprKind::TryBlock | ExprKind::Tuple
            | ExprKind::Unary | ExprKind::Unsafe | ExprKind::Verbatim | ExprKind::While
            | ExprKind::Yield
    )
}

/// The variant of a `syn::Expr`, where it is one of `Struct` to `Yield`
/// in the order of their names; `Other` for every other variant.
#[verifier::external_body]
fn kind_in_last_part(expr: &Expr) -> (kind: ExprKind)
    ensures
        kind == (if in_last_part(expr_model(*expr).kind) {
            expr_model(*expr).kind
        } else {
            ExprKind::Other
        }),
{
    match expr {
        Expr::Struct(_) => ExprKind::Struct,
        Expr::Try(_) => ExprKind::Try,
        Expr::TryBlock(_) => ExprKind::TryBlock,
        Expr::Tuple(_) => ExprKind::Tuple,
        Expr::Unary(_) => ExprKind::Unary,
        Expr::Unsafe(_) => ExprKind::Unsafe,
        Expr::Verbatim(_) => ExprKind::Verbatim,
        Expr::While(_) => ExprKind::While,
        Expr::Yield(_) => ExprKind::Yield,
        _ => ExprKind::Other,
    }
}

/// The kind of a parsed expression.
pub fn expr_kind(expr: &Expr) -> (kind: ExprKind)
    ensures
        kind == expr_model(*expr).kind,
{
    let first = kind_in_first_part(expr);
    if first != ExprKind::Other {
        return first;
    }
    let second = kind_in_second_part(expr);
    if second != ExprKind::Other {
        return second;
    }
    let third = kind_in_third_part(expr);
    if third != ExprKind::Other {
        return third;
    }
    kind_in_last_part(expr)
}

/// `ToTokens::to_token_stream` on a `syn::Expr`: the tokens of the expression.
#[verifier::external_body]
pub(crate) fn expr_tokens(expr: &Expr) -> (r: TokenStream)
    ensures
        trees(r) == expr_model(*expr).tokens,
{
    ToTokens::to_token_stream(expr)
}

/// What [`call_parts`] and [`method_call_parts`] take out of a call.
pub struct CallParts {
    /// The tokens of the attributes.
    pub attrs: TokenStream,
    /// The tokens of the function, or of the receiver.
    pub head: TokenStream,
    /// The method's name, empty for a plain call.
    pub method: TokenStream,
    /// The generic arguments behind the method's name, or empty.
    pub turbofish: TokenStream,
    /// The arguments.
    pub args: Args,
}

impl CallParts {
    /// Whether these are the parts that `model` holds.
    pub open spec fn parts_of(&self, model: ExprModel) -> bool {
        &&& trees(self.attrs) == model.attrs
        &&& trees(self.head) == model.head
        &&& trees(self.method) == model.method
        &&& trees(self.turbofish) == model.turbofish
        &&& arg_items(self.args) == model.args
        &&& !ends_with_comma(self.args)
    }
}

/// The fields of a `syn::ExprCall`, each through `to_token_stream`: `attrs`,
/// `func`, and the items of `args` gathered by `collect`, which puts no comma
/// behind the last. `None` for another variant. For a plain call the
/// method and the generic arguments are left empty.
#[verifier::external_body]
pub(crate) fn call_parts(expr: &Expr) -> (r: Option<CallParts>)
    ensures
        r is Some <==> expr_model(*expr).kind == ExprKind::Call,
        r matches Some(parts) ==> parts.parts_of(expr_model(*expr)),
{
    match expr {
        Expr::Call(call) => Some(CallParts {
            attrs: call.attrs.iter().map(ToTokens::to_token_stream).collect(),
            head: ToTokens::to_token_stream(&call.func),
            method: TokenStream::new(),
            turbofish: TokenStream::new(),
            args: call.args.iter().map(ToTokens::to_token_stream).collect(),
        }),
        _ => None,
    }
}

/// The fields of a `syn::ExprMethodCall`, each through `to_token_stream`:
/// `attrs`, `receiver`, `method`, `turbofish` (nothing where it is `None`),
/// and the items of `args` gathered by `collect`. `None` for another variant.
#[verifier::external_body]
pub(crate) fn method_call_parts(expr: &Expr) -> (r: Option<CallParts>)
    ensures
        r is Some <==> expr_model(*expr).kind == ExprKind::MethodCall,
        r matches Some(parts) ==> parts.parts_of(expr_model(*expr)),
{
    match expr {
        Expr::MethodCall(call) => Some(CallParts {
            attrs: call.attrs.iter().map(ToTokens::to_token_stream).collect(),
            head: ToTokens::to_token_stream(&call.receiver),
            method: ToTokens::to_token_stream(&call.method),
            turbofish: ToTokens::to_token_stream(&call.turbofish),
            args: call.args.iter().map(ToTokens::to_token_stream).collect(),
        }),
        _ => None,
    }
}

/// `Punctuated::new`: a list without values.
#[verifier::external_body]
pub(crate) fn args_new() -> (args: Args)
    ensures
        arg_items(args) == Seq::<Seq<Tree>>::empty(),
        !ends_with_comma(args),
{
    Punctuated::new()
}

/// `Punctuated::is_empty`: whether the list holds no value.
#[verifier::external_body]
pub(crate) fn args_is_empty(args: &Args) -> (r: bool)
    ensures
        r == (arg_items(*args).len() == 0),
{
    args.is_empty()
}

/// `Punctuated::insert` at the front: the value comes first, the others
/// follow, and a comma at the end stays only where values were there before.
#[verifier::external_body]
pub(crate) fn args_insert_first(args: &mut Args, value: &TokenStream)
    ensures
        arg_items(*final(args)) == seq![trees(*value)] + arg_items(*old(args)),
        ends_with_comma(*final(args)) == (ends_with_comma(*old(args)) && arg_items(*old(args)).len()
            > 0),
{
    args.insert(0, value.clone());
}

/// `Punctuated::push`: the value comes last, and no comma follows it.
#[verifier::external_body]
pub(crate) fn args_push(args: &mut Args, value: &TokenStream)
    ensures
        arg_items(*final(args)) == arg_items(*old(args)).push(trees(*value)),
        !ends_with_comma(*final(args)),
{
    args.push(value.clone());
}

/// The tokens of a list of arguments: the values in order, a comma between
/// each two.
pub open spec fn join_args(items: Seq<Seq<Tree>>) -> Seq<Tree>
    decreases items.len(),
{
    if items.len() == 0 {
        Seq::<Tree>::empty()
    } else if items.len() == 1 {
        items[0]
    } else {
        join_args(items.drop_last()) + seq![punct_tree(',')] + items.last()
    }
}

/// `ToTokens::to_token_stream` on a `Punctuated`: each value's tokens, each
/// followed by a comma but the last, which a comma follows only where the
/// list ends with one.
#[verifier::external_body]
pub(crate) fn args_tokens(args: &Args) -> (r: TokenStream)
    ensures
        trees(r) == join_args(arg_items(*args)) + (if ends_with_comma(*args) {
            seq![punct_tree(',')]
        } else {
            Seq::<Tree>::empty()
        }),
{
    ToTokens::to_token_stream(args)
}

/// `ParseBuffer::parse` for a `syn::Expr`: the expression at the front of the
/// stream, which moves past it.
#[verifier::external_body]
fn stream_expr(input: &ParseBuffer) -> (r: Result<Expr, syn::Error>) {
    input.parse::<Expr>()
}

/// `ParseBuffer::parse` for a `TokenStream`: all the tokens that are left.
/// Reading them cannot fail.
#[verifier::external_body]
fn stream_rest(input: &ParseBuffer) -> (r: Result<TokenStream, syn::Error>)
    ensures
        r is Ok,
{
    input.parse::<TokenStream>()
}

/// What becomes of an attempt to read an expression from `input`: the
/// expression that was read, with all that is left of the stream behind it,
/// or the error that kept it from being read. The stream is read on only
/// where there is an expression.
fn with_rest(read: Result<Expr, syn::Error>, input: &ParseBuffer) -> (r: Result<
    (Expr, TokenStream),
    syn::Error,
>)
    ensures
        match read {
            Ok(expr) => r matches Ok((same, _)) && same == expr,
            Err(error) => r == Err::<(Expr, TokenStream), syn::Error>(error),
        },
{
    match read {
        Ok(expr) => match stream_rest(input) {
            Ok(rest) => Ok((expr, rest)),
            Err(error) => Err(error),
        },
        Err(error) => Err(error),
    }
}

/// Reads an expression from the front of a parse stream, then all that is
/// left of the stream.
fn expr_and_rest(input: &ParseBuffer) -> (r: Result<(Expr, TokenStream), syn::Error>) {
    with_rest(stream_expr(input), input)
}

/// `Parser::parse2` with [`expr_and_rest`] on a copy of `ts`: the expression
/// at the front of the stream and the tokens behind it.
#[verifier::external_body]
pub(crate) fn split_expr(ts: &TokenStream) -> (r: Result<(Expr, TokenStream), syn::Error>)
    ensures
        match r {
            Ok((expr, rest)) => expr_prefix(trees(*ts)) == Some((expr_model(expr), trees(rest))),
            Err(_) => expr_prefix(trees(*ts)) is None,
        },
{
    Parser::parse2(expr_and_rest, ts.clone())
}

/// `syn::parse2` for a `syn::ExprMethodCall` on a copy of `ts`, the result put
/// into `Expr::MethodCall`: all of `ts` read as one method call.
#[verifier::external_body]
pub(crate) fn parse_method_call(ts: &TokenStream) -> (r: Result<Expr, syn::Error>)
    ensures
        match r {
            Ok(expr) => {
                &&& method_call_of(trees(*ts)) == Some(expr_model(expr))
                &&& expr_model(expr).kind == ExprKind::MethodCall
            },
            Err(_) => method_call_of(trees(*ts)) is None,
        },
{
    syn::parse2::<syn::ExprMethodCall>(ts.clone()).map(Expr::MethodCall)
}

/// `syn::parse2` for an `Ident` on the tokens of `ident`: whether the parser
/// takes it for a name.
#[verifier::external_body]
pub(crate) fn accepts_ident(ident: &Ident) -> (r: bool)
    ensures
        r == ident_accepted(ident_text(*ident)),
{
    syn::parse2::<Ident>(ToTokens::to_token_stream(ident)).is_ok()
}

/// `syn::Error::to_string`: the message of the parser's error.
#[verifier::external_body]
pub(crate) fn parser_message(error: &syn::Error) -> String {
    error.to_string()
}

} // verus!
