//! The instructions of a pipeline: expressions of the host language, the
//! method reference that the host language does not know, and how each is
//! split into a callee and its arguments.

use crate::error::{ErrorKind, ThreadError};
use crate::parser::{
    accepts_ident, arg_items, args_new, call_parts, ends_with_comma, expr_kind, expr_model,
    expr_prefix, expr_tokens, ident_accepted, method_call_of, method_call_parts,
    parse_method_call, split_expr, Args, CallParts, ExprKind, ExprModel,
};
use crate::tokens::{
    append, braced, ident_text, joined, parenthesized, punct, punct_tree, split_first, trees,
    Delim, Token, Tree,
};
use proc_macro2::{Ident, TokenStream};
use syn::Expr;
use vstd::prelude::*;

verus! {

/// A callee and the arguments that stand behind it.
pub struct Split {
    /// The tokens of the callee.
    pub callee: Seq<Tree>,
    /// The tokens of each argument.
    pub args: Seq<Seq<Tree>>,
}

/// The kinds of expression that are put between braces before anything is
/// applied to them, so that they are evaluated as one unit.
pub open spec fn is_braced_kind(kind: ExprKind) -> bool {
    matches!(
        kind,
        ExprKind::Assign | ExprKind::Binary | ExprKind::Break | ExprKind::Cast | ExprKind::Closure
            | ExprKind::Const | ExprKind::Continue | ExprKind::ForLoop | ExprKind::Group
            | ExprKind::Let | ExprKind::Loop | ExprKind::Range | ExprKind::Reference
            | ExprKind::Return | ExprKind::Try | ExprKind::TryBlock | ExprKind::Unary
            | ExprKind::Unsafe | ExprKind::While | ExprKind::Yield
    )
}

/// The callee of a plain call: its attributes, then the function.
pub open spec fn call_callee(model: ExprModel) -> Seq<Tree> {
    model.attrs + model.head
}

/// The callee of a method call: its attributes, the receiver, a dot, the
/// method's name and the generic arguments.
pub open spec fn method_callee(model: ExprModel) -> Seq<Tree> {
    model.attrs + model.head + seq![punct_tree('.')] + model.method + model.turbofish
}

/// How an expression is split. A call and a method call give their callee and
/// their arguments. Every other expression is a callee without arguments: as
/// it stands, or between braces where [`is_braced_kind`] says so.
pub open spec fn split_of(model: ExprModel) -> Split {
    if model.kind == ExprKind::Call {
        Split { callee: call_callee(model), args: model.args }
    } else if model.kind == ExprKind::MethodCall {
        Split { callee: method_callee(model), args: model.args }
    } else if is_braced_kind(model.kind) {
        Split {
            callee: seq![Tree::Group(Delim::Brace, model.tokens)],
            args: Seq::<Seq<Tree>>::empty(),
        }
    } else {
        Split { callee: model.tokens, args: Seq::<Seq<Tree>>::empty() }
    }
}

/// Whether the stream and the arguments are those of `split`, the arguments
/// without a comma at their end.
pub open spec fn is_split(callee: TokenStream, args: Args, split: Split) -> bool {
    &&& trees(callee) == split.callee
    &&& arg_items(args) == split.args
    &&& !ends_with_comma(args)
}

/// An expression that is a callee as it stands, without arguments.
fn split_default(expr: &Expr) -> (r: (TokenStream, Args))
    ensures
        trees(r.0) == expr_model(*expr).tokens,
        arg_items(r.1) == Seq::<Seq<Tree>>::empty(),
        !ends_with_comma(r.1),
{
    (expr_tokens(expr), args_new())
}

/// An expression that is a callee once it stands between braces, without
/// arguments.
fn split_braced(expr: &Expr) -> (r: (TokenStream, Args))
    ensures
        trees(r.0) == seq![Tree::Group(Delim::Brace, expr_model(*expr).tokens)],
        arg_items(r.1) == Seq::<Seq<Tree>>::empty(),
        !ends_with_comma(r.1),
{
    let tokens = expr_tokens(expr);
    (braced(&tokens), args_new())
}

/// Splits a plain call into its callee and its arguments.
pub fn split_call_args(parts: CallParts) -> (r: (TokenStream, Args))
    ensures
        trees(r.0) == trees(parts.attrs) + trees(parts.head),
        r.1 == parts.args,
{
    let callee = joined(&parts.attrs, &parts.head);
    (callee, parts.args)
}

/// Splits a method call into its callee and its arguments.
pub fn split_method_call_args(parts: CallParts) -> (r: (TokenStream, Args))
    ensures
        trees(r.0) == trees(parts.attrs) + trees(parts.head) + seq![punct_tree('.')] + trees(
            parts.method,
        ) + trees(parts.turbofish),
        r.1 == parts.args,
{
    let mut callee = joined(&parts.attrs, &parts.head);
    let dot = punct('.');
    append(&mut callee, &dot);
    append(&mut callee, &parts.method);
    append(&mut callee, &parts.turbofish);
    (callee, parts.args)
}

/// Splits an expression into its callee and its arguments, by its kind.
pub fn split_expr_args(expr: &Expr) -> (r: (TokenStream, Args))
    requires
        expr_model(*expr).kind != ExprKind::Other,
    ensures
        is_split(r.0, r.1, split_of(expr_model(*expr))),
{
    match expr_kind(expr) {
        ExprKind::Array => split_default(expr),
        ExprKind::Assign => split_braced(expr),
        ExprKind::Async => split_default(expr),
        ExprKind::Await => split_default(expr),
        ExprKind::Binary => split_braced(expr),
        ExprKind::Block => split_default(expr),
        ExprKind::Break => split_braced(expr),
        ExprKind::Call => match call_parts(expr) {
            Some(parts) => split_call_args(parts),
            None => split_default(expr),
        },
        ExprKind::Cast => split_braced(expr),
        ExprKind::Closure => split_braced(expr),
        ExprKind::Const => split_braced(expr),
        ExprKind::Continue => split_braced(expr),
        ExprKind::Field => split_default(expr),
        ExprKind::ForLoop => split_braced(expr),
        ExprKind::Group => split_braced(expr),
        ExprKind::If => split_default(expr),
        ExprKind::Index => split_default(expr),
        ExprKind::Infer => split_default(expr),
        ExprKind::Let => split_braced(expr),
        ExprKind::Lit => split_default(expr),
        ExprKind::Loop => split_braced(expr),
        ExprKind::Macro => split_default(expr),
        ExprKind::Match => split_default(expr),
        ExprKind::MethodCall => match method_call_parts(expr) {
            Some(parts) => split_method_call_args(parts),
            None => split_default(expr),
        },
        ExprKind::Paren => split_default(expr),
        ExprKind::Path => split_default(expr),
        ExprKind::Range => split_braced(expr),
        ExprKind::Reference => split_braced(expr),
        ExprKind::Repeat => split_default(expr),
        ExprKind::Return => split_braced(expr),
        ExprKind::Struct => split_default(expr),
        ExprKind::Try => split_braced(expr),
        ExprKind::TryBlock => split_braced(expr),
        ExprKind::Tuple => split_default(expr),
        ExprKind::Unary => split_braced(expr),
        ExprKind::Unsafe => split_braced(expr),
        ExprKind::Verbatim => split_default(expr),
        ExprKind::While => split_braced(expr),
        ExprKind::Yield => split_braced(expr),
        ExprKind::Other => split_default(expr),
    }
}


/// A method reference without its argument list, such as
/// `receiver.method::<T>`: the expression parser does not take it, since the
/// parentheses are missing.
#[derive(Clone)]
pub struct TurboMethod {
    /// The tokens of the attributes.
    pub attrs: TokenStream,
    /// The tokens of the receiver.
    pub receiver: TokenStream,
    /// The method's name.
    pub method: TokenStream,
    /// The generic arguments behind the method's name, with their `::`.
    pub turbofish: TokenStream,
}

/// The model of a [`TurboMethod`].
pub struct TurboModel {
    pub attrs: Seq<Tree>,
    pub receiver: Seq<Tree>,
    pub method: Seq<Tree>,
    pub turbofish: Seq<Tree>,
}

impl View for TurboMethod {
    type V = TurboModel;

    open spec fn view(&self) -> TurboModel {
        TurboModel {
            attrs: trees(self.attrs),
            receiver: trees(self.receiver),
            method: trees(self.method),
            turbofish: trees(self.turbofish),
        }
    }
}

/// An empty pair of parentheses: the argument list that a method reference
/// lacks.
pub open spec fn empty_call() -> Seq<Tree> {
    seq![Tree::Group(Delim::Parenthesis, Seq::<Tree>::empty())]
}

/// What [`TurboMethod::parse`] makes of `src`. With an empty argument list
/// put behind it, all of `src` must be one method call, and the method's name
/// must be followed by generic arguments.
pub open spec fn turbo_of(src: Seq<Tree>) -> Result<TurboModel, ErrorKind> {
    match method_call_of(src + empty_call()) {
        None => Err(ErrorKind::Expression),
        Some(model) => if model.turbofish.len() == 0 {
            Err(ErrorKind::MissingTurbofish)
        } else {
            Ok(
                TurboModel {
                    attrs: model.attrs,
                    receiver: model.head,
                    method: model.method,
                    turbofish: model.turbofish,
                },
            )
        },
    }
}

/// The tokens of a method reference: attributes, receiver, a dot, the
/// method's name and the generic arguments. No argument list belongs to it.
pub open spec fn turbo_tokens(turbo: TurboModel) -> Seq<Tree> {
    turbo.attrs + turbo.receiver + seq![punct_tree('.')] + turbo.method + turbo.turbofish
}

impl TurboMethod {
    /// Reads all of `input` as a method reference.
    pub fn parse(input: &TokenStream) -> (r: Result<TurboMethod, ThreadError>)
        ensures
            match r {
                Ok(turbo) => turbo_of(trees(*input)) == Ok::<TurboModel, ErrorKind>(
                    turbo@,
                ),
                Err(error) => turbo_of(trees(*input)) == Err::<TurboModel, ErrorKind>(
                    error.kind(),
                ),
            },
    {
        let nothing = TokenStream::new();
        let call = joined(input, &parenthesized(&nothing));
        let expr = match parse_method_call(&call) {
            Ok(expr) => expr,
            Err(error) => { return Err(ThreadError::Expression(error)); },
        };
        match method_call_parts(&expr) {
            Some(parts) => {
                if parts.turbofish.is_empty() {
                    Err(ThreadError::MissingTurbofish)
                } else {
                    Ok(
                        TurboMethod {
                            attrs: parts.attrs,
                            receiver: parts.head,
                            method: parts.method,
                            turbofish: parts.turbofish,
                        },
                    )
                }
            },
            None => Err(ThreadError::MissingTurbofish),
        }
    }

    /// The tokens of this method reference.
    pub fn to_tokens(&self) -> (r: TokenStream)
        ensures
            trees(r) == turbo_tokens(self@),
    {
        let mut r = joined(&self.attrs, &self.receiver);
        let dot = punct('.');
        append(&mut r, &dot);
        append(&mut r, &self.method);
        append(&mut r, &self.turbofish);
        r
    }

    /// The method reference as a callee, without arguments.
    pub fn split_args(&self) -> (r: (TokenStream, Args))
        ensures
            is_split(r.0, r.1, split_turbo(self@)),
    {
        (self.to_tokens(), args_new())
    }
}

/// How a method reference is split: it is the callee, and has no arguments.
pub open spec fn split_turbo(turbo: TurboModel) -> Split {
    Split { callee: turbo_tokens(turbo), args: Seq::<Seq<Tree>>::empty() }
}

/// The expressions that the expression parser does not know.
#[derive(Clone)]
pub enum ExtraExpr {
    TurboMethod(TurboMethod),
}

impl View for ExtraExpr {
    type V = TurboModel;

    open spec fn view(&self) -> TurboModel {
        match *self {
            ExtraExpr::TurboMethod(turbo) => turbo@,
        }
    }
}

impl ExtraExpr {
    /// Reads all of `input` as one of the extra expressions.
    pub fn parse(input: &TokenStream) -> (r: Result<ExtraExpr, ThreadError>)
        ensures
            match r {
                Ok(extra) => turbo_of(trees(*input)) == Ok::<TurboModel, ErrorKind>(
                    extra@,
                ),
                Err(error) => turbo_of(trees(*input)) == Err::<TurboModel, ErrorKind>(
                    error.kind(),
                ),
            },
    {
        match TurboMethod::parse(input) {
            Ok(turbo) => Ok(ExtraExpr::TurboMethod(turbo)),
            Err(error) => Err(error),
        }
    }

    /// The tokens of this expression.
    pub fn to_tokens(&self) -> (r: TokenStream)
        ensures
            trees(r) == turbo_tokens(self@),
    {
        match self {
            ExtraExpr::TurboMethod(turbo) => turbo.to_tokens(),
        }
    }

    /// This expression as a callee and its arguments.
    pub fn split_args(&self) -> (r: (TokenStream, Args))
        ensures
            is_split(r.0, r.1, split_turbo(self@)),
    {
        match self {
            ExtraExpr::TurboMethod(turbo) => turbo.split_args(),
        }
    }
}

/// One instruction of a pipeline: an expression of the host language, or one
/// of the extra expressions.
pub enum ExtendedExpr {
    Expr(Expr),
    Extra(ExtraExpr),
}

/// The model of an [`ExtendedExpr`].
pub enum ItemModel {
    Expr(ExprModel),
    Extra(TurboModel),
}

impl View for ExtendedExpr {
    type V = ItemModel;

    open spec fn view(&self) -> ItemModel {
        match *self {
            ExtendedExpr::Expr(expr) => ItemModel::Expr(expr_model(expr)),
            ExtendedExpr::Extra(extra) => ItemModel::Extra(extra@),
        }
    }
}

/// What [`ExtendedExpr::parse`] makes of `src`: the instruction and the tokens
/// behind it. The extra expressions are tried first, and take all of `src`.
/// Where none fits, the expression parser reads the start of `src`; what it
/// refuses is refused, and so is an expression of a kind that is not known.
pub open spec fn extended_of(src: Seq<Tree>) -> Result<(ItemModel, Seq<Tree>), ErrorKind> {
    match turbo_of(src) {
        Ok(turbo) => Ok((ItemModel::Extra(turbo), Seq::<Tree>::empty())),
        Err(_) => match expr_prefix(src) {
            None => Err(ErrorKind::Expression),
            Some((model, rest)) => if model.kind == ExprKind::Other {
                Err(ErrorKind::UnknownExpression)
            } else {
                Ok((ItemModel::Expr(model), rest))
            },
        },
    }
}

/// The tokens of an instruction.
pub open spec fn item_tokens(item: ItemModel) -> Seq<Tree> {
    match item {
        ItemModel::Expr(model) => model.tokens,
        ItemModel::Extra(turbo) => turbo_tokens(turbo),
    }
}

/// How an instruction is split into its callee and its arguments.
pub open spec fn split_item(item: ItemModel) -> Split {
    match item {
        ItemModel::Expr(model) => split_of(model),
        ItemModel::Extra(turbo) => split_turbo(turbo),
    }
}

impl ExtendedExpr {
    /// Whether the kind of this instruction is known, so that it can be
    /// split. [`ExtendedExpr::parse`] returns no other.
    pub open spec fn wf(&self) -> bool {
        match *self {
            ExtendedExpr::Expr(expr) => expr_model(expr).kind != ExprKind::Other,
            ExtendedExpr::Extra(_) => true,
        }
    }

    /// Reads one instruction from the front of `input`, and returns it with
    /// the tokens that follow it.
    pub fn parse(input: &TokenStream) -> (r: Result<(ExtendedExpr, TokenStream), ThreadError>)
        ensures
            match r {
                Ok((item, rest)) => {
                    &&& extended_of(trees(*input)) == Ok::<
                        (ItemModel, Seq<Tree>),
                        ErrorKind,
                    >((item@, trees(rest)))
                    &&& item.wf()
                },
                Err(error) => extended_of(trees(*input)) == Err::<
                    (ItemModel, Seq<Tree>),
                    ErrorKind,
                >(error.kind()),
            },
    {
        // The extra expressions are tried first.
        match ExtraExpr::parse(input) {
            Ok(extra) => Ok((ExtendedExpr::Extra(extra), TokenStream::new())),
            Err(_) => match split_expr(input) {
                Ok((expr, rest)) => {
                    match expr_kind(&expr) {
                        ExprKind::Other => Err(ThreadError::UnknownExpression),
                        _ => Ok((ExtendedExpr::Expr(expr), rest)),
                    }
                },
                Err(error) => Err(ThreadError::Expression(error)),
            },
        }
    }

    /// The tokens of this instruction.
    pub fn to_tokens(&self) -> (r: TokenStream)
        ensures
            trees(r) == item_tokens(self@),
    {
        match self {
            ExtendedExpr::Expr(expr) => expr_tokens(expr),
            ExtendedExpr::Extra(extra) => extra.to_tokens(),
        }
    }

    /// This instruction as a callee and its arguments.
    pub fn split_args(&self) -> (r: (TokenStream, Args))
        requires
            self.wf(),
        ensures
            is_split(r.0, r.1, split_item(self@)),
    {
        match self {
            ExtendedExpr::Extra(extra) => extra.split_args(),
            ExtendedExpr::Expr(expr) => split_expr_args(expr),
        }
    }
}


/// The name at the front of `src`, with what follows it: an identifier that
/// the parser takes for a name.
pub open spec fn ident_of(src: Seq<Tree>) -> Option<(Seq<char>, Seq<Tree>)> {
    if src.len() > 0 && src[0] is Ident && ident_accepted(src[0]->Ident_0) {
        Some((src[0]->Ident_0, src.skip(1)))
    } else {
        None
    }
}

/// Whether `src` starts with a group in parentheses.
pub open spec fn starts_with_parens(src: Seq<Tree>) -> bool {
    src.len() > 0 && src[0] is Group && src[0]->Group_0 == Delim::Parenthesis
}

/// The name in the parentheses at the front of `src`, with what follows them.
/// The parentheses hold the name and nothing else.
pub open spec fn required_parens_of(src: Seq<Tree>) -> Option<(Seq<char>, Seq<Tree>)> {
    if starts_with_parens(src) {
        match ident_of(src[0]->Group_1) {
            Some((text, inside)) => if inside.len() == 0 {
                Some((text, src.skip(1)))
            } else {
                None
            },
            None => None,
        }
    } else {
        None
    }
}

/// The name at the front of `src`, in parentheses or without.
pub open spec fn optional_parens_of(src: Seq<Tree>) -> Option<(Seq<char>, Seq<Tree>)> {
    if starts_with_parens(src) {
        required_parens_of(src)
    } else {
        ident_of(src)
    }
}

/// The name at the front of `src`: in parentheses where they are required,
/// else in parentheses or without.
pub open spec fn parens_of(src: Seq<Tree>, required: bool) -> Option<(Seq<char>, Seq<Tree>)> {
    if required {
        required_parens_of(src)
    } else {
        optional_parens_of(src)
    }
}

/// Whether `r` is the name that `expected` gives, with the tokens behind it,
/// or the refusal that stands for `None`.
pub open spec fn is_name(
    r: Result<(Ident, TokenStream), ThreadError>,
    expected: Option<(Seq<char>, Seq<Tree>)>,
) -> bool {
    match r {
        Ok((ident, rest)) => expected == Some((ident_text(ident), trees(rest))),
        Err(error) => expected is None && error.kind() == ErrorKind::ExpectedAlias,
    }
}

/// Reads a name from the front of `input`.
pub fn parse_ident(input: &TokenStream) -> (r: Result<(Ident, TokenStream), ThreadError>)
    ensures
        is_name(r, ident_of(trees(*input))),
{
    match split_first(input) {
        Some((Token::Word(ident), rest)) => {
            if accepts_ident(&ident) {
                Ok((ident, rest))
            } else {
                Err(ThreadError::ExpectedAlias)
            }
        },
        _ => Err(ThreadError::ExpectedAlias),
    }
}

/// Reads `(name)` from the front of `input`.
pub fn parse_required_parens(input: &TokenStream) -> (r: Result<
    (Ident, TokenStream),
    ThreadError,
>)
    ensures
        is_name(r, required_parens_of(trees(*input))),
{
    match split_first(input) {
        Some((Token::Group(Delim::Parenthesis, content), rest)) => {
            match parse_ident(&content) {
                Ok((ident, inside)) => {
                    if inside.is_empty() {
                        Ok((ident, rest))
                    } else {
                        Err(ThreadError::ExpectedAlias)
                    }
                },
                Err(error) => Err(error),
            }
        },
        _ => Err(ThreadError::ExpectedAlias),
    }
}

/// Reads `(name)` or `name` from the front of `input`.
pub fn parse_optional_parens(input: &TokenStream) -> (r: Result<
    (Ident, TokenStream),
    ThreadError,
>)
    ensures
        is_name(r, optional_parens_of(trees(*input))),
{
    let in_parens = match split_first(input) {
        Some((Token::Group(Delim::Parenthesis, _), _)) => true,
        _ => false,
    };
    if in_parens {
        parse_required_parens(input)
    } else {
        parse_ident(input)
    }
}

/// Reads `(name)` from the front of `input`, or `name` as well where the
/// parentheses are not required.
pub fn parse_parens(input: &TokenStream, required: bool) -> (r: Result<
    (Ident, TokenStream),
    ThreadError,
>)
    ensures
        is_name(r, parens_of(trees(*input), required)),
{
    if required {
        parse_required_parens(input)
    } else {
        parse_optional_parens(input)
    }
}

} // verus!
