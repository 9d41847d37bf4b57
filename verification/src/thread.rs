//! The pipeline itself: its preamble, its instructions, and how they are
//! lowered to one expression.

use crate::either::Either;
use crate::error::{ErrorKind, ThreadError};
use crate::extended_syn::{extended_of, split_item, ExtendedExpr, ItemModel};
use crate::parser::{
    arg_items, args_insert_first, args_is_empty, args_push, args_tokens, ends_with_comma,
    expr_model, expr_prefix, expr_tokens, join_args, split_expr, Args, ExprModel,
};
use crate::misc::{
    after_pattern, let_alias_of, pattern_of, placement_of, CondType, LetAlias, Pattern, Placement,
};
use crate::tokens::{
    append, braced, ident_text, ident_tokens, joined, parenthesized, punct, punct_tree,
    starts_with_punct, starts_with_word, take_punct, take_word, trees, word, word_tree, Delim,
    Tree,
};
use proc_macro2::{Ident, TokenStream};
use syn::Expr;
use vstd::prelude::*;

verus! {

/// What stands before the instructions of a pipeline.
pub struct ThreadMacro {
    pattern: Option<Pattern>,
    given_initial_expr: Expr,
    alias_or_placement: Either<Ident, Placement>,
}

/// The model of a [`ThreadMacro`].
pub struct ThreadModel {
    /// The pattern keyword, if there is one.
    pub pattern: Option<Pattern>,
    /// The initial value.
    pub initial: ExprModel,
    /// The alias by its text, or the placement.
    pub target: Either<Seq<char>, Placement>,
}

impl View for ThreadMacro {
    type V = ThreadModel;

    closed spec fn view(&self) -> ThreadModel {
        ThreadModel {
            pattern: self.pattern,
            initial: expr_model(self.given_initial_expr),
            target: match self.alias_or_placement {
                Either::Left(alias) => Either::Left(ident_text(alias)),
                Either::Right(placement) => Either::Right(placement),
            },
        }
    }
}

/// The arguments of an instruction once the value `value` has been added.
/// With a placement the value is put first or last, unless `skip` holds. With
/// an alias the arguments are left as they are, since they name the alias
/// where they need it; only an empty list gets the alias as its one argument.
pub open spec fn added(
    target: Either<Seq<char>, Placement>,
    args: Seq<Seq<Tree>>,
    value: Seq<Tree>,
    skip: bool,
) -> Seq<Seq<Tree>> {
    match target {
        Either::Right(Placement::First) => if skip {
            args
        } else {
            seq![value] + args
        },
        Either::Right(Placement::Last) => if skip {
            args
        } else {
            args.push(value)
        },
        Either::Left(alias) => if args.len() == 0 {
            seq![seq![word_tree(alias)]]
        } else {
            args
        },
    }
}

/// A call: the callee, then the arguments in parentheses.
pub open spec fn call(callee: Seq<Tree>, args: Seq<Seq<Tree>>) -> Seq<Tree> {
    callee + seq![Tree::Group(Delim::Parenthesis, join_args(args))]
}

/// The statement `let alias = value;`.
pub open spec fn let_statement(alias: Seq<char>, value: Seq<Tree>) -> Seq<Tree> {
    seq![word_tree("let"@), word_tree(alias), punct_tree('=')] + value + seq![punct_tree(';')]
}

/// What one instruction leaves behind. Without an alias that is its result.
/// With an alias the result is bound to the alias, behind what was there
/// before and a `;`, where anything was there.
pub open spec fn bound(
    target: Either<Seq<char>, Placement>,
    given: Seq<Tree>,
    results: Seq<Tree>,
) -> Seq<Tree> {
    match target {
        Either::Right(_) => results,
        Either::Left(alias) => if given.len() == 0 {
            let_statement(alias, results)
        } else {
            given + seq![punct_tree(';')] + let_statement(alias, results)
        },
    }
}

/// The whole lowered pipeline. Without an alias that is what the instructions
/// gave. With an alias it is a block that binds the alias to the initial
/// value and then holds the instructions; unless the pipeline maps, the block
/// ends with the alias, which is its value.
pub open spec fn wrapped(model: ThreadModel, instructions: Seq<Tree>, is_map: bool) -> Seq<Tree> {
    match model.target {
        Either::Right(_) => instructions,
        Either::Left(alias) => seq![
            Tree::Group(
                Delim::Brace,
                let_statement(alias, model.initial.tokens) + instructions + (if is_map {
                    Seq::<Tree>::empty()
                } else {
                    seq![punct_tree(';'), word_tree(alias)]
                }),
            ),
        ],
    }
}

impl ThreadMacro {
    /// Adds `new_arg` to the arguments of an instruction, as the alias or the
    /// placement asks.
    fn add_arg(&self, args: &mut Args, new_arg: &TokenStream, skip_if_placement_and_true: bool)
        requires
            !ends_with_comma(*old(args)),
        ensures
            arg_items(*final(args)) == added(
                self@.target,
                arg_items(*old(args)),
                trees(*new_arg),
                skip_if_placement_and_true,
            ),
            !ends_with_comma(*final(args)),
    {
        match &self.alias_or_placement {
            Either::Right(Placement::First) => {
                if !skip_if_placement_and_true {
                    args_insert_first(args, new_arg);
                }
            },
            Either::Right(Placement::Last) => {
                if !skip_if_placement_and_true {
                    args_push(args, new_arg);
                }
            },
            Either::Left(alias) => {
                if args_is_empty(args) {
                    let name = ident_tokens(alias);
                    args_push(args, &name);
                    assert(Seq::<Seq<Tree>>::empty().push(trees(name)) =~= seq![trees(name)]);
                }
            },
        }
    }

    /// The tokens of `let alias = value;`.
    fn let_tokens(alias: &Ident, value: &TokenStream) -> (r: TokenStream)
        ensures
            trees(r) == let_statement(ident_text(*alias), trees(*value)),
    {
        proof {
            reveal_strlit("let");
        }
        let mut r = word("let");
        let name = ident_tokens(alias);
        append(&mut r, &name);
        let assign = punct('=');
        append(&mut r, &assign);
        append(&mut r, value);
        let end = punct(';');
        append(&mut r, &end);
        r
    }

    /// Wraps the lowered instructions: as they are without an alias, else in
    /// a block that binds the alias to the initial value first.
    fn resolve_set_alias(&self, instructions: TokenStream, is_map: bool) -> (r: TokenStream)
        ensures
            trees(r) == wrapped(self@, trees(instructions), is_map),
    {
        let alias = match &self.alias_or_placement {
            Either::Left(alias) => alias,
            Either::Right(_) => { return instructions; },
        };
        let initial = expr_tokens(&self.given_initial_expr);
        let mut body = ThreadMacro::let_tokens(alias, &initial);
        append(&mut body, &instructions);
        if !is_map {
            let end = punct(';');
            append(&mut body, &end);
            let name = ident_tokens(alias);
            append(&mut body, &name);
        }
        assert(trees(body) =~= let_statement(ident_text(*alias), self@.initial.tokens) + trees(
            instructions,
        ) + (if is_map {
            Seq::<Tree>::empty()
        } else {
            seq![punct_tree(';'), word_tree(ident_text(*alias))]
        }));
        braced(&body)
    }

    /// What one instruction leaves behind: its result, bound to the alias
    /// where there is one.
    fn resolve_instruction_alias(&self, given_argument: &TokenStream, results: TokenStream) -> (r:
        TokenStream)
        ensures
            trees(r) == bound(self@.target, trees(*given_argument), trees(results)),
    {
        let alias = match &self.alias_or_placement {
            Either::Left(alias) => alias,
            Either::Right(_) => { return results; },
        };
        let results = ThreadMacro::let_tokens(alias, &results);
        // to prevent extra semicolons
        if given_argument.is_empty() {
            return results;
        }
        let mut r = given_argument.clone();
        let end = punct(';');
        append(&mut r, &end);
        append(&mut r, &results);
        r
    }
}


/// How the instructions of a pipeline are read and combined.
#[derive(Clone, Copy, Debug, PartialEq, Eq, Structural)]
pub enum Mode {
    /// Each instruction is called with what the one before it gave.
    Plain,
    /// Each instruction is mapped over the wrapper that the one before it
    /// gave.
    Mapped,
    /// Each instruction is called only where its condition holds.
    Conditional,
}

/// One instruction of a pipeline: an extended expression and, in a
/// conditional pipeline, the condition that stands before its `=>`.
pub struct Instruction {
    /// The condition, in a conditional pipeline.
    pub cond: Option<Expr>,
    /// What is called.
    pub body: ExtendedExpr,
}

/// The model of an [`Instruction`].
pub struct InstrModel {
    pub cond: Option<ExprModel>,
    pub body: ItemModel,
}

impl View for Instruction {
    type V = InstrModel;

    open spec fn view(&self) -> InstrModel {
        InstrModel {
            cond: match self.cond {
                Some(cond) => Some(expr_model(cond)),
                None => None,
            },
            body: self.body@,
        }
    }
}

impl Instruction {
    /// Whether the kind of the instruction's body is known.
    pub open spec fn wf(&self) -> bool {
        self.body.wf()
    }
}

/// The models of a list of instructions.
pub open spec fn models(items: Seq<Instruction>) -> Seq<InstrModel> {
    Seq::new(items.len(), |i: int| items[i]@)
}

/// The tokens of an instruction's condition; nothing where it has none.
pub open spec fn cond_tokens(instr: InstrModel) -> Seq<Tree> {
    match instr.cond {
        Some(cond) => cond.tokens,
        None => Seq::<Tree>::empty(),
    }
}

/// The step of a plain pipeline: the instruction is called with the carried
/// value among its arguments. Nothing is added where nothing is carried.
pub open spec fn plain_step(model: ThreadModel, acc: Seq<Tree>, item: ItemModel) -> Seq<Tree> {
    let split = split_item(item);
    let args = added(model.target, split.args, acc, acc.len() == 0);
    bound(model.target, acc, call(split.callee, args))
}

/// The name that a mapping step binds: the alias, or `i` without one.
pub open spec fn map_name(model: ThreadModel) -> Seq<Tree> {
    match model.target {
        Either::Left(alias) => seq![word_tree(alias)],
        Either::Right(_) => seq![word_tree("i"@)],
    }
}

/// The step of a mapping pipeline: `prefix.map(|name| callee(args))`, where
/// the prefix is what is carried, or the bound name where nothing is carried.
pub open spec fn map_step(model: ThreadModel, acc: Seq<Tree>, item: ItemModel) -> Seq<Tree> {
    let split = split_item(item);
    let args = added(model.target, split.args, seq![word_tree("i"@)], acc.len() == 0);
    let name = map_name(model);
    let prefix = if acc.len() == 0 {
        name
    } else {
        acc
    };
    prefix + seq![
        punct_tree('.'),
        word_tree("map"@),
        Tree::Group(
            Delim::Parenthesis,
            seq![punct_tree('|')] + name + seq![punct_tree('|')] + call(split.callee, args),
        ),
    ]
}

/// What a conditional step carries on: `(acc.clone())` where the pattern is
/// `CondClone` and something is carried, else what is carried as it is.
pub open spec fn carried(model: ThreadModel, acc: Seq<Tree>) -> Seq<Tree> {
    if acc.len() > 0 && model.pattern == Some(Pattern::Cond(CondType::CondClone)) {
        seq![
            Tree::Group(
                Delim::Parenthesis,
                acc + seq![
                    punct_tree('.'),
                    word_tree("clone"@),
                    Tree::Group(Delim::Parenthesis, Seq::<Tree>::empty()),
                ],
            ),
        ]
    } else {
        acc
    }
}

/// The block `{ if cond { then } else { otherwise } }`.
pub open spec fn choice(cond: Seq<Tree>, then: Seq<Tree>, otherwise: Seq<Tree>) -> Seq<Tree> {
    seq![
        Tree::Group(
            Delim::Brace,
            seq![word_tree("if"@)] + cond + seq![
                Tree::Group(Delim::Brace, then),
                word_tree("else"@),
                Tree::Group(Delim::Brace, otherwise),
            ],
        ),
    ]
}

/// The step of a conditional pipeline: where the condition holds the
/// instruction is called with the carried value, else the carried value
/// stays.
pub open spec fn cond_step(
    model: ThreadModel,
    acc: Seq<Tree>,
    cond: Seq<Tree>,
    item: ItemModel,
) -> Seq<Tree> {
    let split = split_item(item);
    let value = carried(model, acc);
    let args = added(model.target, split.args, value, acc.len() == 0);
    bound(model.target, value, choice(cond, call(split.callee, args), value))
}

/// One step of a pipeline in the given mode.
pub open spec fn step(model: ThreadModel, mode: Mode, acc: Seq<Tree>, instr: InstrModel) -> Seq<
    Tree,
> {
    match mode {
        Mode::Plain => plain_step(model, acc, instr.body),
        Mode::Mapped => map_step(model, acc, instr.body),
        Mode::Conditional => cond_step(model, acc, cond_tokens(instr), instr.body),
    }
}

/// What a pipeline carries before its first instruction: the initial value,
/// or nothing where an alias holds it.
pub open spec fn start(model: ThreadModel) -> Seq<Tree> {
    match model.target {
        Either::Left(_) => Seq::<Tree>::empty(),
        Either::Right(_) => model.initial.tokens,
    }
}

/// The instructions folded from the left: each step gets what the steps
/// before it gave.
pub open spec fn folded(model: ThreadModel, mode: Mode, items: Seq<InstrModel>) -> Seq<Tree>
    decreases items.len(),
{
    if items.len() == 0 {
        start(model)
    } else {
        step(model, mode, folded(model, mode, items.drop_last()), items.last())
    }
}

/// The lowered pipeline: the dedicated refusal for an empty list of
/// instructions, else the folded instructions, wrapped for the alias.
pub open spec fn lowered(model: ThreadModel, mode: Mode, items: Seq<InstrModel>) -> Result<
    Seq<Tree>,
    ErrorKind,
> {
    if items.len() == 0 {
        Err(ErrorKind::EmptyPipe)
    } else {
        Ok(wrapped(model, folded(model, mode, items), mode == Mode::Mapped))
    }
}

/// The tokens of a call of `func` with `args`.
fn call_tokens(func: &TokenStream, args: &Args) -> (r: TokenStream)
    requires
        !ends_with_comma(*args),
    ensures
        trees(r) == call(trees(*func), arg_items(*args)),
{
    let inside = args_tokens(args);
    assert(trees(inside) =~= join_args(arg_items(*args)));
    joined(func, &parenthesized(&inside))
}

impl ThreadMacro {
    /// The step of a plain pipeline.
    fn plain_step(&self, last_expr: TokenStream, expr: &ExtendedExpr) -> (r: TokenStream)
        requires
            expr.wf(),
        ensures
            trees(r) == plain_step(self@, trees(last_expr), expr@),
    {
        let (func, mut args) = expr.split_args();
        self.add_arg(&mut args, &last_expr, last_expr.is_empty());
        let results = call_tokens(&func, &args);
        self.resolve_instruction_alias(&last_expr, results)
    }

    /// The step of a mapping pipeline.
    fn map_step(&self, last_expr: TokenStream, expr: &ExtendedExpr) -> (r: TokenStream)
        requires
            expr.wf(),
        ensures
            trees(r) == map_step(self@, trees(last_expr), expr@),
    {
        proof {
            reveal_strlit("i");
            reveal_strlit("map");
        }
        let (func, mut args) = expr.split_args();
        let no_arg = last_expr.is_empty();

        let map_alias = word("i");
        self.add_arg(&mut args, &map_alias, no_arg);
        let final_alias = match self.alias_or_placement.left() {
            Some(alias) => ident_tokens(alias),
            None => map_alias,
        };

        // Where an alias is given, nothing is carried, and the alias stands
        // in its place.
        let mut r = if no_arg {
            final_alias.clone()
        } else {
            last_expr
        };
        let bar = punct('|');
        let mut closure = joined(&bar, &final_alias);
        append(&mut closure, &bar);
        let body = call_tokens(&func, &args);
        append(&mut closure, &body);

        let dot = punct('.');
        append(&mut r, &dot);
        let map = word("map");
        append(&mut r, &map);
        let inside = parenthesized(&closure);
        append(&mut r, &inside);
        assert(trees(r) =~= map_step(self@, trees(last_expr), expr@));
        r
    }

    /// The step of a conditional pipeline.
    fn cond_step(&self, last_expr: TokenStream, cond: &TokenStream, expr: &ExtendedExpr) -> (r:
        TokenStream)
        requires
            expr.wf(),
        ensures
            trees(r) == cond_step(self@, trees(last_expr), trees(*cond), expr@),
    {
        proof {
            reveal_strlit("clone");
            reveal_strlit("if");
            reveal_strlit("else");
        }
        let (func, mut args) = expr.split_args();
        let no_arg = last_expr.is_empty();

        let mut last_expr = last_expr;
        if !no_arg {
            if let Some(Pattern::Cond(CondType::CondClone)) = &self.pattern {
                let nothing = TokenStream::new();
                let dot = punct('.');
                let clone = word("clone");
                let mut cloned = joined(&last_expr, &dot);
                append(&mut cloned, &clone);
                append(&mut cloned, &parenthesized(&nothing));
                assert(trees(cloned) =~= trees(last_expr) + seq![
                    punct_tree('.'),
                    word_tree("clone"@),
                    Tree::Group(Delim::Parenthesis, Seq::<Tree>::empty()),
                ]);
                last_expr = parenthesized(&cloned);
            }
        }
        self.add_arg(&mut args, &last_expr, no_arg);

        let then = braced(&call_tokens(&func, &args));
        let otherwise = braced(&last_expr);
        let mut inside = word("if");
        append(&mut inside, cond);
        append(&mut inside, &then);
        let otherwise_word = word("else");
        append(&mut inside, &otherwise_word);
        append(&mut inside, &otherwise);
        assert(trees(inside) =~= seq![word_tree("if"@)] + trees(*cond) + seq![
            Tree::Group(Delim::Brace, call(split_item(expr@).callee, arg_items(args))),
            word_tree("else"@),
            Tree::Group(Delim::Brace, trees(last_expr)),
        ]);
        let block = braced(&inside);
        self.resolve_instruction_alias(&last_expr, block)
    }
}


/// Whether `src` starts with `=>`: a `=` that the next character joins, and
/// a `>`.
pub open spec fn starts_with_arrow(src: Seq<Tree>) -> bool {
    &&& src.len() >= 2
    &&& src[0] == Tree::Punct('=', true)
    &&& (src[1] == Tree::Punct('>', false) || src[1] == Tree::Punct('>', true))
}

/// What [`parse_instruction`] makes of `src`: one instruction and the tokens
/// behind it. In a conditional pipeline an instruction is a condition, `=>`
/// and an extended expression; in the others it is an extended expression.
pub open spec fn instruction_of(src: Seq<Tree>, conditional: bool) -> Result<
    (InstrModel, Seq<Tree>),
    ErrorKind,
> {
    if conditional {
        match expr_prefix(src) {
            None => Err(ErrorKind::Expression),
            Some((cond, behind)) => if !starts_with_arrow(behind) {
                Err(ErrorKind::ExpectedArrow)
            } else {
                match extended_of(behind.skip(2)) {
                    Err(kind) => Err(kind),
                    Ok((body, rest)) => Ok((InstrModel { cond: Some(cond), body }, rest)),
                }
            },
        }
    } else {
        match extended_of(src) {
            Err(kind) => Err(kind),
            Ok((body, rest)) => Ok((InstrModel { cond: None, body }, rest)),
        }
    }
}

/// The instructions `done`, followed by those of `more` where it holds any.
pub open spec fn prepend(done: Seq<InstrModel>, more: Result<Seq<InstrModel>, ErrorKind>) -> Result<
    Seq<InstrModel>,
    ErrorKind,
> {
    match more {
        Ok(items) => Ok(done + items),
        Err(kind) => Err(kind),
    }
}

/// What [`parse_list`] makes of `src` where a list holds at most `limit`
/// instructions: instructions with a comma between each two, and one more
/// comma behind the last if one likes.
pub open spec fn items_up_to(src: Seq<Tree>, conditional: bool, limit: nat) -> Result<
    Seq<InstrModel>,
    ErrorKind,
>
    decreases limit,
{
    if src.len() == 0 {
        Ok(Seq::<InstrModel>::empty())
    } else if limit == 0 {
        Err(ErrorKind::TooManyInstructions)
    } else {
        match instruction_of(src, conditional) {
            Err(kind) => Err(kind),
            Ok((item, rest)) => if rest.len() == 0 {
                Ok(seq![item])
            } else if !starts_with_punct(rest, ',') {
                Err(ErrorKind::ExpectedComma)
            } else {
                prepend(seq![item], items_up_to(rest.skip(1), conditional, (limit - 1) as nat))
            },
        }
    }
}

/// What [`parse_list`] makes of `src`: as many instructions as a list can
/// hold.
pub open spec fn items_of(src: Seq<Tree>, conditional: bool) -> Result<Seq<InstrModel>, ErrorKind> {
    items_up_to(src, conditional, usize::MAX as nat)
}

/// Reads one instruction from the front of `input`, and returns it with the
/// tokens that follow it.
pub fn parse_instruction(input: &TokenStream, conditional: bool) -> (r: Result<
    (Instruction, TokenStream),
    ThreadError,
>)
    ensures
        match r {
            Ok((item, rest)) => {
                &&& instruction_of(trees(*input), conditional) == Ok::<
                    (InstrModel, Seq<Tree>),
                    ErrorKind,
                >((item@, trees(rest)))
                &&& item.wf()
                &&& item.cond is Some <==> conditional
            },
            Err(error) => instruction_of(trees(*input), conditional) == Err::<
                (InstrModel, Seq<Tree>),
                ErrorKind,
            >(error.kind()),
        },
{
    if !conditional {
        return match ExtendedExpr::parse(input) {
            Ok((body, rest)) => Ok((Instruction { cond: None, body }, rest)),
            Err(error) => Err(error),
        };
    }
    let (cond, behind) = match split_expr(input) {
        Ok(found) => found,
        Err(error) => { return Err(ThreadError::Expression(error)); },
    };
    let behind_assign = match take_punct(&behind, '=') {
        Some((true, rest)) => rest,
        _ => { return Err(ThreadError::ExpectedArrow); },
    };
    let behind_arrow = match take_punct(&behind_assign, '>') {
        Some((_, rest)) => rest,
        None => { return Err(ThreadError::ExpectedArrow); },
    };
    assert(trees(behind_arrow) =~= trees(behind).skip(2));
    match ExtendedExpr::parse(&behind_arrow) {
        Ok((body, rest)) => Ok((Instruction { cond: Some(cond), body }, rest)),
        Err(error) => Err(error),
    }
}

/// Whether `r` is the list of instructions that `expected` gives, each of a
/// known kind and with a condition where the pipeline is conditional, or the
/// refusal that `expected` gives.
pub open spec fn is_list(
    r: Result<Vec<Instruction>, ThreadError>,
    expected: Result<Seq<InstrModel>, ErrorKind>,
    conditional: bool,
) -> bool {
    match r {
        Ok(items) => {
            &&& expected == Ok::<Seq<InstrModel>, ErrorKind>(models(items@))
            &&& forall|i: int| 0 <= i < items.len() ==> (#[trigger] items[i]).wf()
            &&& forall|i: int|
                0 <= i < items.len() ==> ((#[trigger] items[i]).cond is Some <==> conditional)
        },
        Err(error) => expected == Err::<Seq<InstrModel>, ErrorKind>(error.kind()),
    }
}

/// Reads the instructions of a pipeline: all of `input`.
pub fn parse_list(input: &TokenStream, conditional: bool) -> (r: Result<
    Vec<Instruction>,
    ThreadError,
>)
    ensures
        is_list(r, items_of(trees(*input), conditional), conditional),
{
    parse_list_up_to(input, conditional, usize::MAX)
}

/// Reads the instructions of a pipeline, all of `input`, and refuses more
/// than `limit` of them.
pub fn parse_list_up_to(input: &TokenStream, conditional: bool, limit: usize) -> (r: Result<
    Vec<Instruction>,
    ThreadError,
>)
    ensures
        is_list(r, items_up_to(trees(*input), conditional, limit as nat), conditional),
{
    let mut items: Vec<Instruction> = Vec::new();
    let mut current = input.clone();
    let ghost whole = items_up_to(trees(*input), conditional, limit as nat);
    let mut left = limit;
    assert(models(items@) =~= Seq::<InstrModel>::empty());
    assert(prepend(models(items@), whole) =~= whole) by {
        if let Ok(found) = whole {
            assert(models(items@) + found =~= found);
        }
    }
    loop
        invariant
            whole == items_up_to(trees(*input), conditional, limit as nat),
            whole == prepend(
                models(items@),
                items_up_to(trees(current), conditional, left as nat),
            ),
            forall|i: int| 0 <= i < items.len() ==> (#[trigger] items[i]).wf(),
            forall|i: int|
                0 <= i < items.len() ==> ((#[trigger] items[i]).cond is Some <==> conditional),
        decreases left,
    {
        if current.is_empty() {
            assert(models(items@) + Seq::<InstrModel>::empty() =~= models(items@));
            return Ok(items);
        }
        if left == 0 {
            return Err(ThreadError::TooManyInstructions);
        }
        let (item, rest) = match parse_instruction(&current, conditional) {
            Ok(found) => found,
            Err(error) => { return Err(error); },
        };
        let ghost before = models(items@);
        let ghost model = item@;
        items.push(item);
        assert(models(items@) =~= before + seq![model]);
        if rest.is_empty() {
            return Ok(items);
        }
        let next = match take_punct(&rest, ',') {
            Some((_, next)) => next,
            None => { return Err(ThreadError::ExpectedComma); },
        };
        proof {
            let more = items_up_to(trees(next), conditional, (left - 1) as nat);
            if let Ok(found) = more {
                assert(before + (seq![model] + found) =~= (before + seq![model]) + found);
            }
        }
        current = next;
        left = left - 1;
    }
}

impl ThreadMacro {
    /// Folds the instructions from the left and wraps the result for the
    /// alias. An empty list is refused.
    pub fn lower(&self, mode: Mode, items: &Vec<Instruction>) -> (r: Result<
        TokenStream,
        ThreadError,
    >)
        requires
            forall|i: int| 0 <= i < items.len() ==> (#[trigger] items[i]).wf(),
        ensures
            match r {
                Ok(tokens) => lowered(self@, mode, models(items@)) == Ok::<Seq<Tree>, ErrorKind>(
                    trees(tokens),
                ),
                Err(error) => lowered(self@, mode, models(items@)) == Err::<Seq<Tree>, ErrorKind>(
                    error.kind(),
                ),
            },
    {
        if items.len() == 0 {
            return Err(ThreadError::EmptyPipe);
        }
        // What is carried at first: the initial value, or nothing where an
        // alias holds it.
        let mut expr = match self.alias_or_placement {
            Either::Left(_) => TokenStream::new(),
            Either::Right(_) => expr_tokens(&self.given_initial_expr),
        };
        let mut done: usize = 0;
        assert(models(items@).take(0) =~= Seq::<InstrModel>::empty());
        while done < items.len()
            invariant
                done <= items.len(),
                forall|i: int| 0 <= i < items.len() ==> (#[trigger] items[i]).wf(),
                trees(expr) == folded(self@, mode, models(items@).take(done as int)),
            decreases items.len() - done,
        {
            let item = &items[done];
            proof {
                let upto = models(items@).take(done + 1);
                assert(upto.drop_last() =~= models(items@).take(done as int));
                assert(upto.last() == item@);
            }
            expr = match mode {
                Mode::Plain => self.plain_step(expr, &item.body),
                Mode::Mapped => self.map_step(expr, &item.body),
                Mode::Conditional => {
                    let cond = match &item.cond {
                        Some(cond) => expr_tokens(cond),
                        None => TokenStream::new(),
                    };
                    self.cond_step(expr, &cond, &item.body)
                },
            };
            done = done + 1;
        }
        assert(models(items@).take(done as int) =~= models(items@));
        Ok(self.resolve_set_alias(expr, mode == Mode::Mapped))
    }
}


/// The tokens behind an optional placement keyword at the front of `src`.
pub open spec fn after_placement(src: Seq<Tree>) -> Seq<Tree> {
    if placement_of(src) is Some {
        src.skip(1)
    } else {
        src
    }
}

/// The placement keyword at the front of `src`, or the default without one.
pub open spec fn placement_or_default(src: Seq<Tree>) -> Placement {
    match placement_of(src) {
        Some(placement) => placement,
        None => Placement::First,
    }
}

/// The preamble that binds an alias.
pub open spec fn model_of_let(binding: crate::misc::LetModel) -> ThreadModel {
    ThreadModel {
        pattern: binding.pattern,
        initial: binding.value,
        target: Either::Left(binding.alias),
    }
}

/// What [`ThreadMacro::parse_preamble`] makes of `src`: the preamble and the
/// tokens behind it. A preamble that starts with `let` binds an alias. Any
/// other is an optional pattern keyword, the initial value and an optional
/// placement keyword, without which the placement is `first`. Behind the
/// value of a `let` preamble a placement keyword is read as well, and has no
/// effect.
pub open spec fn preamble_of(src: Seq<Tree>) -> Result<(ThreadModel, Seq<Tree>), ErrorKind> {
    if starts_with_word(src, "let"@) {
        match let_alias_of(src) {
            Err(kind) => Err(kind),
            Ok((binding, rest)) => Ok((model_of_let(binding), after_placement(rest))),
        }
    } else {
        match expr_prefix(after_pattern(src)) {
            None => Err(ErrorKind::Expression),
            Some((initial, rest)) => Ok(
                (
                    ThreadModel {
                        pattern: pattern_of(src),
                        initial,
                        target: Either::Right(placement_or_default(rest)),
                    },
                    after_placement(rest),
                ),
            ),
        }
    }
}

/// The mode in which a pipeline with this pattern keyword is read.
pub open spec fn mode_of(pattern: Option<Pattern>) -> Mode {
    match pattern {
        Some(Pattern::Cond(_)) => Mode::Conditional,
        None => Mode::Plain,
        Some(Pattern::Mapping(_)) => Mode::Mapped,
    }
}

/// What the instructions in `src` are lowered to, behind the preamble
/// `model`: they are read, an empty list is refused, and the others are
/// folded and wrapped.
pub open spec fn instructions_of(model: ThreadModel, mode: Mode, src: Seq<Tree>) -> Result<
    Seq<Tree>,
    ErrorKind,
> {
    match items_of(src, mode == Mode::Conditional) {
        Err(kind) => Err(kind),
        Ok(items) => lowered(model, mode, items),
    }
}

/// What a whole pipeline is lowered to: its preamble, the keyword `in`, and
/// its instructions in the mode that the pattern keyword selects.
pub open spec fn generated(src: Seq<Tree>) -> Result<Seq<Tree>, ErrorKind> {
    match preamble_of(src) {
        Err(kind) => Err(kind),
        Ok((model, rest)) => if !starts_with_word(rest, "in"@) {
            Err(ErrorKind::ExpectedIn)
        } else {
            instructions_of(model, mode_of(model.pattern), rest.skip(1))
        },
    }
}

/// Whether `r` is what `expected` says: the same tokens, or a refusal of the
/// same kind.
pub open spec fn is_outcome(r: Result<TokenStream, ThreadError>, expected: Result<
    Seq<Tree>,
    ErrorKind,
>) -> bool {
    match r {
        Ok(tokens) => expected == Ok::<Seq<Tree>, ErrorKind>(trees(tokens)),
        Err(error) => expected == Err::<Seq<Tree>, ErrorKind>(error.kind()),
    }
}

impl From<LetAlias> for ThreadMacro {
    /// The preamble that binds the alias of `value`.
    fn from(value: LetAlias) -> (r: ThreadMacro)
        ensures
            r@ == model_of_let(value@),
    {
        ThreadMacro {
            pattern: value.pattern,
            given_initial_expr: value.value,
            alias_or_placement: Either::Left(value.alias),
        }
    }
}

impl vstd::std_specs::convert::FromSpecImpl<LetAlias> for ThreadMacro {
    open spec fn obeys_from_spec() -> bool {
        true
    }

    closed spec fn from_spec(value: LetAlias) -> ThreadMacro {
        ThreadMacro {
            pattern: value.pattern,
            given_initial_expr: value.value,
            alias_or_placement: Either::Left(value.alias),
        }
    }
}

impl ThreadMacro {
    /// Reads the instructions in `input` and lowers them in the given mode.
    fn parse_instructions(&self, input: &TokenStream, mode: Mode) -> (r: Result<
        TokenStream,
        ThreadError,
    >)
        ensures
            is_outcome(r, instructions_of(self@, mode, trees(*input))),
    {
        let instructions = match parse_list(input, mode == Mode::Conditional) {
            Ok(instructions) => instructions,
            Err(error) => { return Err(error); },
        };
        self.lower(mode, &instructions)
    }

    /// Reads and lowers the instructions of a mapping pipeline.
    fn parse_map_instructions(&self, input: &TokenStream) -> (r: Result<TokenStream, ThreadError>)
        ensures
            is_outcome(r, instructions_of(self@, Mode::Mapped, trees(*input))),
    {
        self.parse_instructions(input, Mode::Mapped)
    }

    /// Reads and lowers the instructions of a plain pipeline.
    fn parse_no_map_instructions(&self, input: &TokenStream) -> (r: Result<
        TokenStream,
        ThreadError,
    >)
        ensures
            is_outcome(r, instructions_of(self@, Mode::Plain, trees(*input))),
    {
        self.parse_instructions(input, Mode::Plain)
    }

    /// Reads and lowers the instructions of a conditional pipeline.
    fn parse_cond_instructions(&self, input: &TokenStream) -> (r: Result<TokenStream, ThreadError>)
        ensures
            is_outcome(r, instructions_of(self@, Mode::Conditional, trees(*input))),
    {
        self.parse_instructions(input, Mode::Conditional)
    }

    /// Lowers a whole pipeline to one expression.
    pub fn generate_tokens(input: &TokenStream) -> (r: Result<TokenStream, ThreadError>)
        ensures
            is_outcome(r, generated(trees(*input))),
    {
        let (results, rest) = match ThreadMacro::parse_preamble(input) {
            Ok(found) => found,
            Err(error) => { return Err(error); },
        };
        let instructions = match take_word(&rest, "in") {
            Some(instructions) => instructions,
            None => { return Err(ThreadError::ExpectedIn); },
        };
        match &results.pattern {
            Some(Pattern::Cond(_)) => results.parse_cond_instructions(&instructions),
            None => results.parse_no_map_instructions(&instructions),
            Some(Pattern::Mapping(_)) => results.parse_map_instructions(&instructions),
        }
    }

    /// Reads the preamble of a pipeline: all that stands before `in`. It is
    /// returned with the tokens that follow it.
    pub fn parse_preamble(input: &TokenStream) -> (r: Result<
        (ThreadMacro, TokenStream),
        ThreadError,
    >)
        ensures
            match r {
                Ok((preamble, rest)) => preamble_of(trees(*input)) == Ok::<
                    (ThreadModel, Seq<Tree>),
                    ErrorKind,
                >((preamble@, trees(rest))),
                Err(error) => preamble_of(trees(*input)) == Err::<
                    (ThreadModel, Seq<Tree>),
                    ErrorKind,
                >(error.kind()),
            },
    {
        if take_word(input, "let").is_some() {
            let (binding, behind) = match LetAlias::parse(input) {
                Ok(found) => found,
                Err(error) => { return Err(error); },
            };
            // A placement has no effect beside an alias.
            let rest = match Placement::parse(&behind) {
                Ok((_, rest)) => rest,
                Err(_) => behind,
            };
            Ok((ThreadMacro::from(binding), rest))
        } else {
            let (pattern, behind_pattern) = match Pattern::parse(input) {
                Ok((pattern, rest)) => (Some(pattern), rest),
                Err(_) => (None, input.clone()),
            };
            let (initial_expr, behind) = match split_expr(&behind_pattern) {
                Ok(found) => found,
                Err(error) => { return Err(ThreadError::Expression(error)); },
            };
            let (placement, rest) = match Placement::parse(&behind) {
                Ok(found) => found,
                Err(_) => (Placement::default(), behind),
            };
            Ok(
                (
                    ThreadMacro {
                        pattern,
                        given_initial_expr: initial_expr,
                        alias_or_placement: Either::Right(placement),
                    },
                    rest,
                ),
            )
        }
    }
}

} // verus!
