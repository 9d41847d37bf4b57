use proc_macro2::TokenStream;
use thread::thread::ThreadMacro;

fn only_first(s: &str, _: ()) -> String {
    s.to_string()
}

fn only_last(_: (), s: &str) -> String {
    s.to_string()
}

fn flat(text: &str) -> String {
    let tokens: TokenStream = text.parse().unwrap();
    tokens.to_string().chars().filter(|c| !c.is_whitespace()).collect()
}

fn expand(pipeline: &str) -> String {
    let input: TokenStream = pipeline.parse().unwrap();
    let output = ThreadMacro::generate_tokens(&input).unwrap();
    flat(&output.to_string())
}

#[test]
fn literal_string() {
    assert_eq!(
        expand("\"hello\" in ToString::to_string"),
        flat("ToString::to_string(\"hello\")"),
    );
    assert_eq!(ToString::to_string("hello"), "hello".to_string());
}

#[test]
fn ident() {
    let x = "hello";
    assert_eq!(expand("x in ToString::to_string"), flat("ToString::to_string(x)"));
    assert_eq!(ToString::to_string(x), "hello".to_string());
}

#[test]
fn first() {
    assert_eq!(
        expand("\"hello\" first in only_first(())"),
        flat("only_first(\"hello\", ())"),
    );
    assert_eq!(only_first("hello", ()), "hello".to_string());
}

#[test]
fn optional_first() {
    assert_eq!(expand("\"hello\" in only_first(())"), flat("only_first(\"hello\", ())"));
    assert_eq!(only_first("hello", ()), "hello".to_string());
}

#[test]
fn last() {
    assert_eq!(
        expand("\"hello\" last in {|_: (), s: &str| s.to_string()}(())"),
        flat("{|_: (), s: &str| s.to_string()}((), \"hello\")"),
    );
    assert_eq!({ |_: (), s: &str| s.to_string() }((), "hello"), "hello".to_string());
}

#[test]
fn syntax_first() {
    let v = Some("hello");
    assert_eq!(
        expand("Some(v) first in only_first(())"),
        flat("(v).map(|i| only_first(i, ()))"),
    );
    assert_eq!((v).map(|i| only_first(i, ())), Some("hello".to_string()));

    assert_eq!(
        expand("Some(None) first in only_first(())"),
        flat("(None).map(|i| only_first(i, ()))"),
    );
    assert_eq!((None).map(|i| only_first(i, ())), None);
}

#[test]
fn syntax_optional_first() {
    let v = Some("hello");
    assert_eq!(expand("Some(v) in only_first(())"), flat("(v).map(|i| only_first(i, ()))"));
    assert_eq!((v).map(|i| only_first(i, ())), Some("hello".to_string()));

    assert_eq!(
        expand("Some(None) in only_first(())"),
        flat("(None).map(|i| only_first(i, ()))"),
    );
    assert_eq!((None).map(|i| only_first(i, ())), None);
}

#[test]
fn syntax_last() {
    let v = Some("hello");
    assert_eq!(expand("Some(v) last in only_last(())"), flat("(v).map(|i| only_last((), i))"));
    assert_eq!((v).map(|i| only_last((), i)), Some("hello".to_string()));

    assert_eq!(
        expand("Some(None) last in only_last(())"),
        flat("(None).map(|i| only_last((), i))"),
    );
    assert_eq!((None).map(|i| only_last((), i)), None);
}

#[test]
fn as_magic() {
    assert_eq!(
        expand("Some(None) last in only_last(())"),
        flat("(None).map(|i| only_last((), i))"),
    );
    assert_eq!((None).map(|i| only_last((), i)), None);
}

#[test]
fn trailing_comma() {
    assert_eq!(
        expand("\"hello\" first in ToString::to_string,"),
        flat("ToString::to_string(\"hello\")"),
    );
    assert_eq!(ToString::to_string("hello"), "hello".to_string());
}

#[test]
fn no_trailing_comma() {
    assert_eq!(
        expand("\"hello\" first in ToString::to_string"),
        flat("ToString::to_string(\"hello\")"),
    );
    assert_eq!(ToString::to_string("hello"), "hello".to_string());
}

#[test]
fn symbol() {
    let f = |s: &str| s.to_string();
    assert_eq!(expand("\"hello\" first in f"), flat("f(\"hello\")"));
    assert_eq!(f("hello"), "hello".to_string());
}

#[test]
fn path() {
    assert_eq!(
        expand("\"hello\" in ToString::to_string"),
        flat("ToString::to_string(\"hello\")"),
    );
    assert_eq!(ToString::to_string("hello"), "hello".to_string());
}

#[test]
fn closure() {
    assert_eq!(
        expand("\"hello\" first in |s: &str| s.to_string()"),
        flat("{ |s: &str| s.to_string() }(\"hello\")"),
    );
    assert_eq!({ |s: &str| s.to_string() }("hello"), "hello".to_string());
}

#[test]
fn closure_and_ident() {
    // The pipeline makes little sense; it is here for its syntax.
    let f = |s: String| s.len();
    assert_eq!(
        expand(
            "\"hello\" first in
             |s: &str| s.split_once('l').unwrap().1.to_string(),
             f,"
        ),
        flat("f({ |s: &str| s.split_once('l').unwrap().1.to_string() }(\"hello\"))"),
    );
    assert_eq!(
        f({ |s: &str| s.split_once('l').unwrap().1.to_string() }("hello")),
        2
    );
}

#[test]
fn macro_call() {
    assert_eq!(
        expand("\"hello\" last in {|_: (), s: &str| s.to_string()}(())"),
        flat("{|_: (), s: &str| s.to_string()}((), \"hello\")"),
    );
    assert_eq!({ |_: (), s: &str| s.to_string() }((), "hello"), "hello".to_string());
}
