use proc_macro2::TokenStream;
use thread::error::ErrorKind;
use thread::thread::ThreadMacro;

fn flat_modes(text: &str) -> String {
    let tokens: TokenStream = text.parse().unwrap();
    tokens.to_string().chars().filter(|c| !c.is_whitespace()).collect()
}

fn expand_modes(pipeline: &str) -> String {
    let input: TokenStream = pipeline.parse().unwrap();
    let output = ThreadMacro::generate_tokens(&input).unwrap();
    flat_modes(&output.to_string())
}

fn refused(pipeline: &str) -> ErrorKind {
    let input: TokenStream = pipeline.parse().unwrap();
    ThreadMacro::generate_tokens(&input).unwrap_err().kind()
}

fn shout(s: String) -> String {
    s.to_uppercase()
}

fn twice(s: String) -> String {
    format!("{s}{s}")
}

fn halve(n: i32) -> Result<i32, String> {
    if n % 2 == 0 {
        Ok(n / 2)
    } else {
        Err(format!("{n} is odd"))
    }
}

#[test]
fn first_placement_puts_value_before_arguments() {
    assert_eq!(expand_modes("x first in f(a, b)"), flat_modes("f(x, a, b)"));
}

#[test]
fn last_placement_puts_value_behind_arguments() {
    assert_eq!(expand_modes("x last in f(a, b)"), flat_modes("f(a, b, x)"));
}

#[test]
fn missing_placement_is_first() {
    assert_eq!(expand_modes("x in f(a, b)"), expand_modes("x first in f(a, b)"));
}

#[test]
fn empty_argument_list_gets_one_argument() {
    assert_eq!(expand_modes("x first in f()"), flat_modes("f(x)"));
    assert_eq!(expand_modes("x last in f()"), flat_modes("f(x)"));
    assert_eq!(expand_modes("x last in f"), flat_modes("f(x)"));
    assert_eq!(
        expand_modes("let a = x in f()"),
        flat_modes("{ let a = x; let a = f(a); ; a }"),
    );
}

#[test]
fn three_instructions_nest_from_the_left() {
    assert_eq!(expand_modes("x in f, g, h"), flat_modes("h(g(f(x)))"));
    let x = "ab".to_string();
    assert_eq!(shout(twice(shout(x))), "ABAB");
}

#[test]
fn mixed_placements_of_each_step() {
    assert_eq!(expand_modes("x last in f(1), g(2), h"), flat_modes("h(g(2, f(1, x)))"));
}

#[test]
fn method_call_is_split_at_its_arguments() {
    assert_eq!(expand_modes("x in a.b(c)"), flat_modes("a.b(x, c)"));
    assert_eq!(expand_modes("x last in a.b::<T>(c, d)"), flat_modes("a.b::<T>(c, d, x)"));
}

#[test]
fn method_reference_with_generic_arguments() {
    assert_eq!(expand_modes("x in a.b::<T>"), flat_modes("a.b::<T>(x)"));
    assert_eq!(expand_modes("x in f, a.b::<T, U>"), flat_modes("a.b::<T, U>(f(x))"));
}

#[test]
fn method_reference_without_generic_arguments_is_a_field() {
    assert_eq!(expand_modes("x in a.b"), flat_modes("a.b(x)"));
}

#[test]
fn expressions_that_are_no_calls_stand_in_braces_where_needed() {
    assert_eq!(expand_modes("x in a + b"), flat_modes("{ a + b }(x)"));
    assert_eq!(expand_modes("x in &f"), flat_modes("{ &f }(x)"));
    assert_eq!(expand_modes("x in (f)"), flat_modes("(f)(x)"));
    assert_eq!(expand_modes("x in m!(a)"), flat_modes("m!(a)(x)"));
    assert_eq!(expand_modes("x in fs[0]"), flat_modes("fs[0](x)"));
}

#[test]
fn map_over_ok() {
    assert_eq!(
        expand_modes("Ok(halve(8)) in twice_of, shout"),
        flat_modes("(halve(8)).map(|i| twice_of(i)).map(|i| shout(i))"),
    );
    let twice_of = |n: i32| n * 2;
    assert_eq!((halve(8)).map(|i| twice_of(i)), Ok(8));
    assert_eq!((halve(7)).map(|i| twice_of(i)), Err("7 is odd".to_string()));
}

#[test]
fn map_with_alias() {
    assert_eq!(
        expand_modes("let Some(a) = v in f(a), g(1, a)"),
        flat_modes("{ let a = v; a.map(|a| f(a)).map(|a| g(1, a)) }"),
    );
    let v = Some(2);
    let f = |n: i32| n + 1;
    let g = |m: i32, n: i32| m + n;
    assert_eq!(
        {
            let a = v;
            a.map(|a| f(a)).map(|a| g(1, a))
        },
        Some(4)
    );
}

#[test]
fn cond_keeps_value_where_condition_fails() {
    assert_eq!(
        expand_modes("Cond x in c => f"),
        flat_modes("{ if c { f(x) } else { x } }"),
    );
    let f = shout;
    let x = "a".to_string();
    let c = false;
    assert_eq!({ if c { f(x) } else { x } }, "a");
    let x = "a".to_string();
    let c = true;
    assert_eq!({ if c { f(x) } else { x } }, "A");
}

#[test]
fn cond_with_two_instructions() {
    assert_eq!(
        expand_modes("Cond x last in c => f(1), d => g,"),
        flat_modes(
            "{ if d { g({ if c { f(1, x) } else { x } }) } else { { if c { f(1, x) } else { x } } } }"
        ),
    );
}

#[test]
fn cond_clone_leaves_the_carried_value_usable() {
    assert_eq!(
        expand_modes("CondClone x in c => f, d => g"),
        flat_modes(
            "{ if d { g(({ if c { f((x.clone())) } else { (x.clone()) } }.clone())) }
               else { ({ if c { f((x.clone())) } else { (x.clone()) } }.clone()) } }"
        ),
    );
    let f = shout;
    let g = twice;
    let x = "a".to_string();
    for (c, d, expected) in [
        (false, false, "a"),
        (true, false, "A"),
        (false, true, "aa"),
        (true, true, "AA"),
    ] {
        let y = {
            if d {
                g(({ if c { f((x.clone())) } else { (x.clone()) } }.clone()))
            } else {
                ({ if c { f((x.clone())) } else { (x.clone()) } }.clone())
            }
        };
        assert_eq!(y, expected);
        assert_eq!(x, "a");
    }
}

#[test]
fn cond_with_alias() {
    assert_eq!(
        expand_modes("let Cond(a) = x in c => f(a)"),
        flat_modes("{ let a = x; let a = { if c { f(a) } else { } }; ; a }"),
    );
}

#[test]
fn alias_is_bound_once_and_named_by_each_instruction() {
    assert_eq!(
        expand_modes("let a = x in f(a), g(a)"),
        flat_modes("{ let a = x; let a = f(a); ; let a = g(a); ; a }"),
    );
    let f = |n: i32| n + 1;
    let g = |n: i32| n * 10;
    let x = 1;
    assert_eq!(
        {
            let a = x;
            let a = f(a);
            let a = g(a);
            a
        },
        20
    );
}

#[test]
fn alias_in_parentheses() {
    assert_eq!(expand_modes("let (a) = x in f(a)"), expand_modes("let a = x in f(a)"));
}

#[test]
fn placement_behind_the_value_of_an_alias_has_no_effect() {
    assert_eq!(expand_modes("let a = x last in f(1, a)"), expand_modes("let a = x in f(1, a)"));
}

#[test]
fn empty_pipe_is_refused_in_each_mode() {
    assert_eq!(refused("x in"), ErrorKind::EmptyPipe);
    assert_eq!(refused("x first in"), ErrorKind::EmptyPipe);
    assert_eq!(refused("let a = x in"), ErrorKind::EmptyPipe);
    assert_eq!(refused("Some(x) in"), ErrorKind::EmptyPipe);
    assert_eq!(refused("Ok(x) last in"), ErrorKind::EmptyPipe);
    assert_eq!(refused("Cond x in"), ErrorKind::EmptyPipe);
    assert_eq!(refused("CondClone x in"), ErrorKind::EmptyPipe);
}

#[test]
fn each_refusal_has_its_input() {
    assert_eq!(refused("x f"), ErrorKind::ExpectedIn);
    assert_eq!(refused("x"), ErrorKind::ExpectedIn);
    assert_eq!(refused("let a x in f"), ErrorKind::ExpectedAssign);
    assert_eq!(refused("let 1 = x in f"), ErrorKind::ExpectedAlias);
    assert_eq!(refused("let Some a = x in f"), ErrorKind::ExpectedAlias);
    assert_eq!(refused("let Some(a b) = x in f"), ErrorKind::ExpectedAlias);
    assert_eq!(refused("let let = x in f"), ErrorKind::ExpectedAlias);
    assert_eq!(refused("x in f g"), ErrorKind::ExpectedComma);
    assert_eq!(refused("Cond x in c f"), ErrorKind::ExpectedArrow);
    assert_eq!(refused("Cond x in c, f"), ErrorKind::ExpectedArrow);
    assert_eq!(refused("Cond x in c = > f"), ErrorKind::Expression);
    assert_eq!(refused("in f"), ErrorKind::Expression);
    assert_eq!(refused("x in +"), ErrorKind::Expression);
    assert_eq!(refused(""), ErrorKind::Expression);
}

#[test]
fn messages_of_refusals() {
    let input: TokenStream = "x in".parse().unwrap();
    let error = ThreadMacro::generate_tokens(&input).unwrap_err();
    assert_eq!(error.message(), "expected some functions as pipe");

    let input: TokenStream = "x f".parse().unwrap();
    let error = ThreadMacro::generate_tokens(&input).unwrap_err();
    assert_eq!(error.message(), "expected `in`");

    let input: TokenStream = "x in +".parse().unwrap();
    let error = ThreadMacro::generate_tokens(&input).unwrap_err();
    assert_eq!(error.kind(), ErrorKind::Expression);
    assert!(!error.message().is_empty());
}
