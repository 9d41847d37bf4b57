//! What holds of every pipeline, proved over the model of the lowering.

use crate::either::Either;
use crate::error::ErrorKind;
use crate::extended_syn::{empty_call, extended_of, split_item, turbo_of, ItemModel, TurboModel};
use crate::parser::{expr_prefix, method_call_of, ExprKind};
use crate::misc::{after_pattern, placement_of, CondType, Pattern, Placement};
use crate::thread::{
    added, bound, call, carried, choice, cond_step, folded, generated, instructions_of,
    let_statement, lowered, map_step, mode_of, plain_step, preamble_of, start, wrapped,
    InstrModel, Mode, ThreadModel,
};
use crate::tokens::{punct_tree, starts_with_word, word_tree, Delim, Tree};
use vstd::prelude::*;

verus! {

/// With the placement `first` a plain instruction gets the carried value
/// before its own arguments: `f(a, b)` becomes `f(x, a, b)`.
pub proof fn law_first_placement(model: ThreadModel, acc: Seq<Tree>, item: ItemModel)
    requires
        model.target == Either::<Seq<char>, Placement>::Right(Placement::First),
        acc.len() > 0,
    ensures
        plain_step(model, acc, item) == call(
            split_item(item).callee,
            seq![acc] + split_item(item).args,
        ),
{
}

/// With the placement `last` a plain instruction gets the carried value
/// behind its own arguments: `f(a, b)` becomes `f(a, b, x)`.
pub proof fn law_last_placement(model: ThreadModel, acc: Seq<Tree>, item: ItemModel)
    requires
        model.target == Either::<Seq<char>, Placement>::Right(Placement::Last),
        acc.len() > 0,
    ensures
        plain_step(model, acc, item) == call(
            split_item(item).callee,
            split_item(item).args.push(acc),
        ),
{
}

/// A preamble without `let` and without a placement keyword behind its
/// initial value has the placement `first`.
pub proof fn law_default_placement(src: Seq<Tree>)
    requires
        !starts_with_word(src, "let"@),
        expr_prefix(after_pattern(src)) matches Some((_, rest)) && placement_of(rest) is None,
    ensures
        preamble_of(src) matches Ok((model, _)) && model.target == Either::<
            Seq<char>,
            Placement,
        >::Right(Placement::First),
{
}

/// A plain pipeline of one instruction without an alias is that instruction,
/// called with the initial value at the place that the placement names.
pub proof fn law_single_instruction(model: ThreadModel, instr: InstrModel)
    requires
        model.target is Right,
        model.initial.tokens.len() > 0,
    ensures
        lowered(model, Mode::Plain, seq![instr]) == Ok::<Seq<Tree>, ErrorKind>(
            call(
                split_item(instr.body).callee,
                if model.target->Right_0 == Placement::First {
                    seq![model.initial.tokens] + split_item(instr.body).args
                } else {
                    split_item(instr.body).args.push(model.initial.tokens)
                },
            ),
        ),
{
    let items = seq![instr];
    assert(items.drop_last() =~= Seq::<InstrModel>::empty());
    assert(folded(model, Mode::Plain, items.drop_last()) == start(model));
    assert(folded(model, Mode::Plain, items) == plain_step(model, start(model), instr.body));
}

/// An instruction without arguments of its own receives exactly one: the
/// carried value where a placement stands, whichever it is, and the alias
/// where an alias stands.
pub proof fn law_empty_arguments(
    target: Either<Seq<char>, Placement>,
    value: Seq<Tree>,
)
    ensures
        added(target, Seq::<Seq<Tree>>::empty(), value, false) == (match target {
            Either::Right(_) => seq![value],
            Either::Left(alias) => seq![seq![word_tree(alias)]],
        }),
{
    let none = Seq::<Seq<Tree>>::empty();
    assert(seq![value] + none =~= seq![value]);
    assert(none.push(value) =~= seq![value]);
}

/// A call holds at least one token.
pub proof fn lemma_call_not_empty(callee: Seq<Tree>, args: Seq<Seq<Tree>>)
    ensures
        call(callee, args).len() > 0,
{
}

/// Plain threading without an alias nests from the left: with one more
/// instruction that has no arguments of its own, the pipeline is that
/// instruction called with what the pipeline before it gave.
pub proof fn law_left_associative(model: ThreadModel, items: Seq<InstrModel>, last: InstrModel)
    requires
        model.target is Right,
        folded(model, Mode::Plain, items).len() > 0,
        split_item(last.body).args.len() == 0,
    ensures
        folded(model, Mode::Plain, items.push(last)) == call(
            split_item(last.body).callee,
            seq![folded(model, Mode::Plain, items)],
        ),
{
    let all = items.push(last);
    assert(all.drop_last() =~= items);
    assert(all.last() == last);
    law_empty_arguments(model.target, folded(model, Mode::Plain, items));
}

/// `x in f, g, h` with callees that have no arguments of their own is
/// `h(g(f(x)))`.
pub proof fn law_three_instructions(
    model: ThreadModel,
    f: InstrModel,
    g: InstrModel,
    h: InstrModel,
)
    requires
        model.target is Right,
        model.initial.tokens.len() > 0,
        split_item(f.body).args.len() == 0,
        split_item(g.body).args.len() == 0,
        split_item(h.body).args.len() == 0,
    ensures
        folded(model, Mode::Plain, seq![f, g, h]) == call(
            split_item(h.body).callee,
            seq![
                call(
                    split_item(g.body).callee,
                    seq![call(split_item(f.body).callee, seq![model.initial.tokens])],
                ),
            ],
        ),
{
    let none = Seq::<InstrModel>::empty();
    assert(folded(model, Mode::Plain, none) == model.initial.tokens);
    law_left_associative(model, none, f);
    assert(none.push(f) =~= seq![f]);
    lemma_call_not_empty(split_item(f.body).callee, seq![model.initial.tokens]);
    law_left_associative(model, seq![f], g);
    assert(seq![f].push(g) =~= seq![f, g]);
    lemma_call_not_empty(
        split_item(g.body).callee,
        seq![call(split_item(f.body).callee, seq![model.initial.tokens])],
    );
    law_left_associative(model, seq![f, g], h);
    assert(seq![f, g].push(h) =~= seq![f, g, h]);
}

/// A mapping step without an alias maps over what is carried and binds `i`,
/// which the instruction gets at the place that the placement names:
/// `acc.map(|i| f(i, a))`.
pub proof fn law_map_step(model: ThreadModel, acc: Seq<Tree>, item: ItemModel)
    requires
        model.target is Right,
        acc.len() > 0,
    ensures
        map_step(model, acc, item) == acc + seq![
            punct_tree('.'),
            word_tree("map"@),
            Tree::Group(
                Delim::Parenthesis,
                seq![punct_tree('|'), word_tree("i"@), punct_tree('|')] + call(
                    split_item(item).callee,
                    if model.target->Right_0 == Placement::First {
                        seq![seq![word_tree("i"@)]] + split_item(item).args
                    } else {
                        split_item(item).args.push(seq![word_tree("i"@)])
                    },
                ),
            ),
        ],
{
    let name = seq![word_tree("i"@)];
    assert(seq![punct_tree('|')] + name + seq![punct_tree('|')] =~= seq![
        punct_tree('|'),
        word_tree("i"@),
        punct_tree('|'),
    ]);
}

/// A conditional step without an alias is a choice: the instruction called
/// with the carried value where the condition holds, else the carried value.
/// Under `CondClone` the carried value is a clone in both branches, so that
/// what it was taken from stays usable.
pub proof fn law_cond_step(model: ThreadModel, acc: Seq<Tree>, cond: Seq<Tree>, item: ItemModel)
    requires
        model.target is Right,
        acc.len() > 0,
    ensures
        cond_step(model, acc, cond, item) == choice(
            cond,
            call(
                split_item(item).callee,
                if model.target->Right_0 == Placement::First {
                    seq![carried(model, acc)] + split_item(item).args
                } else {
                    split_item(item).args.push(carried(model, acc))
                },
            ),
            carried(model, acc),
        ),
        model.pattern != Some(Pattern::Cond(CondType::CondClone)) ==> carried(model, acc) == acc,
{
}

/// With an alias the arguments of an instruction that has any are left as
/// they are: they name the alias where they need it, and nothing is added by
/// position.
pub proof fn law_alias_skips_injection(
    alias: Seq<char>,
    args: Seq<Seq<Tree>>,
    value: Seq<Tree>,
    skip: bool,
)
    requires
        args.len() > 0,
    ensures
        added(Either::<Seq<char>, Placement>::Left(alias), args, value, skip) == args,
{
}

/// With an alias the lowered pipeline is one block that starts by binding
/// the alias to the initial value, and the first instruction leaves its
/// result bound to the alias.
pub proof fn law_alias_bound_once(
    model: ThreadModel,
    instructions: Seq<Tree>,
    is_map: bool,
    results: Seq<Tree>,
)
    requires
        model.target is Left,
    ensures
        wrapped(model, instructions, is_map).len() == 1,
        wrapped(model, instructions, is_map)[0] is Group,
        wrapped(model, instructions, is_map)[0]->Group_0 == Delim::Brace,
        wrapped(model, instructions, is_map)[0]->Group_1.take(
            let_statement(model.target->Left_0, model.initial.tokens).len() as int,
        ) == let_statement(model.target->Left_0, model.initial.tokens),
        bound(model.target, Seq::<Tree>::empty(), results) == let_statement(
            model.target->Left_0,
            results,
        ),
{
    let alias = model.target->Left_0;
    let head = let_statement(alias, model.initial.tokens);
    let inside = wrapped(model, instructions, is_map)[0]->Group_1;
    assert(inside.take(head.len() as int) =~= head);
}

/// A pipeline without instructions is refused with the dedicated error, in
/// each of the three modes.
pub proof fn law_empty_pipe(model: ThreadModel, mode: Mode)
    ensures
        instructions_of(model, mode, Seq::<Tree>::empty()) == Err::<Seq<Tree>, ErrorKind>(
            ErrorKind::EmptyPipe,
        ),
{
}

/// A whole pipeline whose preamble is followed by `in` and nothing else is
/// refused with the dedicated error.
pub proof fn law_empty_pipe_generated(src: Seq<Tree>)
    requires
        preamble_of(src) is Ok,
        preamble_of(src)->Ok_0.1 == seq![word_tree("in"@)],
    ensures
        generated(src) == Err::<Seq<Tree>, ErrorKind>(ErrorKind::EmptyPipe),
{
    let rest = preamble_of(src)->Ok_0.1;
    assert(rest.skip(1) =~= Seq::<Tree>::empty());
    law_empty_pipe(preamble_of(src)->Ok_0.0, mode_of(preamble_of(src)->Ok_0.0.pattern));
}

/// A method reference without generic arguments behind the method's name is
/// refused as a method reference, and the instruction is then whatever the
/// expression parser makes of it.
pub proof fn law_missing_turbofish(src: Seq<Tree>)
    requires
        method_call_of(src + empty_call()) is Some,
        method_call_of(src + empty_call())->Some_0.turbofish.len() == 0,
    ensures
        turbo_of(src) == Err::<TurboModel, ErrorKind>(ErrorKind::MissingTurbofish),
        extended_of(src) == (match expr_prefix(src) {
            None => Err::<(ItemModel, Seq<Tree>), ErrorKind>(ErrorKind::Expression),
            Some((model, rest)) => if model.kind == ExprKind::Other {
                Err(ErrorKind::UnknownExpression)
            } else {
                Ok((ItemModel::Expr(model), rest))
            },
        }),
{
}

} // verus!
