use proc_macro2::TokenStream;
use thread::either::Either;
use thread::error::{ErrorKind, ThreadError};
use thread::extended_syn::{
    parse_ident, parse_optional_parens, parse_parens, parse_required_parens, split_expr_args,
    ExtendedExpr, ExtraExpr, TurboMethod,
};
use thread::parser::{expr_kind, ExprKind};
use thread::misc::{CondType, LetAlias, MapType, Pattern, Placement};
use thread::thread::parse_instruction;
use thread::thread::parse_list;
use thread::thread::parse_list_up_to;
use thread::thread::Mode;
use thread::thread::ThreadMacro;
use thread::tokens::{braced, joined, parenthesized, take_punct, take_word};

fn stream(text: &str) -> TokenStream {
    text.parse().unwrap()
}

fn text_of(tokens: &TokenStream) -> String {
    tokens.to_string().chars().filter(|c| !c.is_whitespace()).collect()
}

fn kind_of(text: &str) -> ExprKind {
    expr_kind(&syn::parse_str::<syn::Expr>(text).unwrap())
}

#[test]
fn either_gives_its_side() {
    let left: Either<u8, bool> = Either::Left(3);
    assert_eq!(left.left(), Some(&3));
    assert_eq!(left.right(), None);
    let right: Either<u8, bool> = Either::Right(true);
    assert_eq!(right.left(), None);
    assert_eq!(right.right(), Some(&true));
}

#[test]
fn streams_are_joined_in_order() {
    assert_eq!(text_of(&joined(&stream("a b"), &stream("c"))), "abc");
    assert_eq!(text_of(&joined(&stream(""), &stream("c"))), "c");
    assert_eq!(text_of(&braced(&stream("a + b"))), "{a+b}");
    assert_eq!(text_of(&parenthesized(&stream(""))), "()");
    assert_eq!(text_of(&parenthesized(&stream("a, b"))), "(a,b)");
}

#[test]
fn a_word_is_taken_only_where_it_stands() {
    assert_eq!(text_of(&take_word(&stream("in f, g"), "in").unwrap()), "f,g");
    assert!(take_word(&stream("inner f"), "in").is_none());
    assert!(take_word(&stream("(in) f"), "in").is_none());
    assert!(take_word(&stream("\"in\" f"), "in").is_none());
    assert!(take_word(&stream(""), "in").is_none());
}

#[test]
fn a_punctuation_is_taken_with_its_spacing() {
    let (joint, rest) = take_punct(&stream("=> f"), '=').unwrap();
    assert!(joint);
    assert_eq!(text_of(&rest), ">f");
    let (joint, rest) = take_punct(&stream("= f"), '=').unwrap();
    assert!(!joint);
    assert_eq!(text_of(&rest), "f");
    assert!(take_punct(&stream(", f"), '=').is_none());
    assert!(take_punct(&stream(""), '=').is_none());
}

#[test]
fn keywords_are_read_and_written() {
    let (map, rest) = MapType::parse(&stream("Some(x)")).unwrap();
    assert_eq!(map, MapType::OfSome);
    assert_eq!(text_of(&rest), "(x)");
    assert_eq!(MapType::parse(&stream("Ok x")).unwrap().0, MapType::OfOk);
    assert_eq!(MapType::parse(&stream("x")).unwrap_err().kind(), ErrorKind::ExpectedMapKeyword);

    assert_eq!(CondType::parse(&stream("Cond x")).unwrap().0, CondType::Cond);
    assert_eq!(CondType::parse(&stream("CondClone x")).unwrap().0, CondType::CondClone);
    assert_eq!(
        CondType::parse(&stream("Some x")).unwrap_err().kind(),
        ErrorKind::ExpectedCondKeyword
    );

    assert_eq!(Placement::parse(&stream("first in")).unwrap().0, Placement::First);
    assert_eq!(Placement::parse(&stream("last in")).unwrap().0, Placement::Last);
    assert_eq!(
        Placement::parse(&stream("in")).unwrap_err().kind(),
        ErrorKind::ExpectedPlacement
    );
    assert_eq!(Placement::default(), Placement::First);

    assert_eq!(
        Pattern::parse(&stream("Ok x")).unwrap().0,
        Pattern::Mapping(MapType::OfOk)
    );
    assert_eq!(
        Pattern::parse(&stream("CondClone x")).unwrap().0,
        Pattern::Cond(CondType::CondClone)
    );
    assert!(Pattern::parse(&stream("first x")).is_err());

    assert_eq!(text_of(&MapType::OfSome.to_tokens()), "Some");
    assert_eq!(text_of(&MapType::OfOk.to_tokens()), "Ok");
    assert_eq!(text_of(&CondType::Cond.to_tokens()), "Cond");
    assert_eq!(text_of(&CondType::CondClone.to_tokens()), "CondClone");
    assert_eq!(text_of(&Placement::First.to_tokens()), "first");
    assert_eq!(text_of(&Placement::Last.to_tokens()), "last");
    assert_eq!(text_of(&Pattern::Cond(CondType::Cond).to_tokens()), "Cond");
    assert_eq!(text_of(&Pattern::Mapping(MapType::OfOk).to_tokens()), "Ok");
}

#[test]
fn names_are_read_with_and_without_parentheses() {
    let (name, rest) = parse_ident(&stream("abc = 1")).unwrap();
    assert_eq!(name.to_string(), "abc");
    assert_eq!(text_of(&rest), "=1");
    assert_eq!(parse_ident(&stream("fn = 1")).unwrap_err().kind(), ErrorKind::ExpectedAlias);
    assert_eq!(parse_ident(&stream("_ = 1")).unwrap_err().kind(), ErrorKind::ExpectedAlias);
    assert_eq!(parse_ident(&stream("(abc)")).unwrap_err().kind(), ErrorKind::ExpectedAlias);
    assert_eq!(parse_ident(&stream("r#fn = 1")).unwrap().0.to_string(), "r#fn");

    assert_eq!(parse_required_parens(&stream("(abc) = 1")).unwrap().0.to_string(), "abc");
    assert!(parse_required_parens(&stream("abc = 1")).is_err());
    assert!(parse_required_parens(&stream("[abc] = 1")).is_err());
    assert!(parse_required_parens(&stream("(abc, d) = 1")).is_err());
    assert!(parse_required_parens(&stream("() = 1")).is_err());

    assert_eq!(parse_optional_parens(&stream("(abc) = 1")).unwrap().0.to_string(), "abc");
    assert_eq!(parse_optional_parens(&stream("abc = 1")).unwrap().0.to_string(), "abc");
    assert!(parse_optional_parens(&stream("(1) = 1")).is_err());

    assert!(parse_parens(&stream("abc"), true).is_err());
    assert!(parse_parens(&stream("abc"), false).is_ok());
    assert!(parse_parens(&stream("(abc)"), true).is_ok());
}

#[test]
fn binding_of_an_alias_is_read() {
    let (binding, rest) = LetAlias::parse(&stream("let Ok(a) = b + c in f")).unwrap();
    assert_eq!(binding.pattern, Some(Pattern::Mapping(MapType::OfOk)));
    assert_eq!(binding.alias.to_string(), "a");
    assert_eq!(expr_kind(&binding.value), ExprKind::Binary);
    assert_eq!(text_of(&rest), "inf");

    let (binding, _) = LetAlias::parse(&stream("let a = b")).unwrap();
    assert_eq!(binding.pattern, None);

    assert_eq!(LetAlias::parse(&stream("a = b")).err().unwrap().kind(), ErrorKind::ExpectedLet);
    assert_eq!(
        LetAlias::parse(&stream("let Ok a = b")).err().unwrap().kind(),
        ErrorKind::ExpectedAlias
    );
    assert_eq!(
        LetAlias::parse(&stream("let a b")).err().unwrap().kind(),
        ErrorKind::ExpectedAssign
    );
    assert_eq!(
        LetAlias::parse(&stream("let a = ")).err().unwrap().kind(),
        ErrorKind::Expression
    );
}

#[test]
fn preamble_is_read_up_to_in() {
    let (_, rest) = ThreadMacro::parse_preamble(&stream("Some(v) last in f")).ok().unwrap();
    assert_eq!(text_of(&rest), "inf");
    let (_, rest) = ThreadMacro::parse_preamble(&stream("x y")).ok().unwrap();
    assert_eq!(text_of(&rest), "y");
    let (_, rest) = ThreadMacro::parse_preamble(&stream("let a = x first in f")).ok().unwrap();
    assert_eq!(text_of(&rest), "inf");
    assert_eq!(
        ThreadMacro::parse_preamble(&stream("let = x")).err().unwrap().kind(),
        ErrorKind::ExpectedAlias
    );
}

#[test]
fn kinds_of_expressions_are_told_apart() {
    assert_eq!(kind_of("[a, b]"), ExprKind::Array);
    assert_eq!(kind_of("a = b"), ExprKind::Assign);
    assert_eq!(kind_of("async { a }"), ExprKind::Async);
    assert_eq!(kind_of("a.await"), ExprKind::Await);
    assert_eq!(kind_of("a + b"), ExprKind::Binary);
    assert_eq!(kind_of("{ a }"), ExprKind::Block);
    assert_eq!(kind_of("break"), ExprKind::Break);
    assert_eq!(kind_of("f(a)"), ExprKind::Call);
    assert_eq!(kind_of("a as u8"), ExprKind::Cast);
    assert_eq!(kind_of("|a| a"), ExprKind::Closure);
    assert_eq!(kind_of("const { 1 }"), ExprKind::Const);
    assert_eq!(kind_of("continue"), ExprKind::Continue);
    assert_eq!(kind_of("a.b"), ExprKind::Field);
    assert_eq!(kind_of("for a in b {}"), ExprKind::ForLoop);
    assert_eq!(kind_of("if a {}"), ExprKind::If);
    assert_eq!(kind_of("a[0]"), ExprKind::Index);
    assert_eq!(kind_of("_"), ExprKind::Infer);
    assert_eq!(kind_of("let a = b"), ExprKind::Let);
    assert_eq!(kind_of("1"), ExprKind::Lit);
    assert_eq!(kind_of("loop {}"), ExprKind::Loop);
    assert_eq!(kind_of("m!(a)"), ExprKind::Macro);
    assert_eq!(kind_of("match a {}"), ExprKind::Match);
    assert_eq!(kind_of("a.b(c)"), ExprKind::MethodCall);
    assert_eq!(kind_of("(a)"), ExprKind::Paren);
    assert_eq!(kind_of("a::b"), ExprKind::Path);
    assert_eq!(kind_of("a..b"), ExprKind::Range);
    assert_eq!(kind_of("&a"), ExprKind::Reference);
    assert_eq!(kind_of("[a; 2]"), ExprKind::Repeat);
    assert_eq!(kind_of("return a"), ExprKind::Return);
    assert_eq!(kind_of("S { a: 1 }"), ExprKind::Struct);
    assert_eq!(kind_of("a?"), ExprKind::Try);
    assert_eq!(kind_of("try { a }"), ExprKind::TryBlock);
    assert_eq!(kind_of("(a, b)"), ExprKind::Tuple);
    assert_eq!(kind_of("!a"), ExprKind::Unary);
    assert_eq!(kind_of("unsafe { a }"), ExprKind::Unsafe);
    assert_eq!(kind_of("while a {}"), ExprKind::While);
    assert_eq!(kind_of("yield a"), ExprKind::Yield);
    assert_eq!(expr_kind(&syn::Expr::Verbatim(stream("a b"))), ExprKind::Verbatim);
    assert_eq!(kind_of("&raw const a"), ExprKind::Other);
}

#[test]
fn expressions_are_split_by_their_kind() {
    let split = |text: &str| {
        let (callee, args) = split_expr_args(&syn::parse_str::<syn::Expr>(text).unwrap());
        let args: Vec<String> = args.iter().map(text_of).collect();
        (text_of(&callee), args)
    };
    assert_eq!(split("f(a, b + 1)"), ("f".to_string(), vec!["a".to_string(), "b+1".to_string()]));
    assert_eq!(split("#[x] f()"), ("#[x]f".to_string(), vec![]));
    assert_eq!(split("a.b::<T>(c)"), ("a.b::<T>".to_string(), vec!["c".to_string()]));
    assert_eq!(split("#[x] a.b()"), ("#[x]a.b".to_string(), vec![]));
    assert_eq!(split("a::b"), ("a::b".to_string(), vec![]));
    assert_eq!(split("|a, b| a"), ("{|a,b|a}".to_string(), vec![]));
    assert_eq!(split("a?"), ("{a?}".to_string(), vec![]));
    assert_eq!(split("a.await"), ("a.await".to_string(), vec![]));
}

#[test]
fn method_reference_is_read_whole() {
    let turbo = TurboMethod::parse(&stream("a.b(c).d::<T>")).ok().unwrap();
    assert_eq!(text_of(&turbo.receiver), "a.b(c)");
    assert_eq!(text_of(&turbo.method), "d");
    assert_eq!(text_of(&turbo.turbofish), "::<T>");
    assert_eq!(text_of(&turbo.to_tokens()), "a.b(c).d::<T>");
    let (callee, args) = turbo.split_args();
    assert_eq!(text_of(&callee), "a.b(c).d::<T>");
    assert!(args.is_empty());

    assert_eq!(
        TurboMethod::parse(&stream("a.b")).err().unwrap().kind(),
        ErrorKind::MissingTurbofish
    );
    assert_eq!(
        TurboMethod::parse(&stream("a.b::<T>, c")).err().unwrap().kind(),
        ErrorKind::Expression
    );
    assert_eq!(TurboMethod::parse(&stream("f")).err().unwrap().kind(), ErrorKind::Expression);
    assert_eq!(TurboMethod::parse(&stream("")).err().unwrap().kind(), ErrorKind::Expression);

    let extra = ExtraExpr::parse(&stream("a.d::<T>")).ok().unwrap();
    assert_eq!(text_of(&extra.to_tokens()), "a.d::<T>");
    assert_eq!(text_of(&extra.split_args().0), "a.d::<T>");
    assert!(ExtraExpr::parse(&stream("a.d")).is_err());
}

#[test]
fn instruction_is_read_from_the_front() {
    let (item, rest) = ExtendedExpr::parse(&stream("f(a), g")).ok().unwrap();
    assert!(matches!(item, ExtendedExpr::Expr(_)));
    assert_eq!(text_of(&item.to_tokens()), "f(a)");
    assert_eq!(text_of(&rest), ",g");
    let (callee, args) = item.split_args();
    assert_eq!(text_of(&callee), "f");
    assert_eq!(args.len(), 1);

    let (item, rest) = ExtendedExpr::parse(&stream("a.b::<T>")).ok().unwrap();
    assert!(matches!(item, ExtendedExpr::Extra(_)));
    assert!(rest.is_empty());
    assert_eq!(text_of(&item.split_args().0), "a.b::<T>");

    assert_eq!(
        ExtendedExpr::parse(&stream("&raw const a")).err().unwrap().kind(),
        ErrorKind::UnknownExpression
    );
    assert_eq!(ExtendedExpr::parse(&stream(", a")).err().unwrap().kind(), ErrorKind::Expression);

    let (item, rest) = parse_instruction(&stream("a > 1 => f, g"), true).ok().unwrap();
    assert_eq!(expr_kind(item.cond.as_ref().unwrap()), ExprKind::Binary);
    assert_eq!(text_of(&item.body.to_tokens()), "f");
    assert_eq!(text_of(&rest), ",g");
    let (item, _) = parse_instruction(&stream("f, g"), false).ok().unwrap();
    assert!(item.cond.is_none());
}

#[test]
fn list_of_instructions_is_read_to_its_end() {
    assert_eq!(parse_list(&stream(""), false).ok().unwrap().len(), 0);
    assert_eq!(parse_list(&stream("f"), false).ok().unwrap().len(), 1);
    assert_eq!(parse_list(&stream("f,"), false).ok().unwrap().len(), 1);
    assert_eq!(parse_list(&stream("f, g(a, b), |x| x"), false).ok().unwrap().len(), 3);
    assert_eq!(parse_list(&stream("c => f, d => g,"), true).ok().unwrap().len(), 2);
    assert_eq!(
        parse_list(&stream("f,, g"), false).err().unwrap().kind(),
        ErrorKind::Expression
    );
    assert_eq!(
        parse_list(&stream("f; g"), false).err().unwrap().kind(),
        ErrorKind::ExpectedComma
    );
}

#[test]
fn list_of_instructions_has_a_limit() {
    assert_eq!(parse_list_up_to(&stream("f, g, h"), false, 3).ok().unwrap().len(), 3);
    assert_eq!(parse_list_up_to(&stream("f, g, h,"), false, 3).ok().unwrap().len(), 3);
    assert_eq!(parse_list_up_to(&stream(""), false, 0).ok().unwrap().len(), 0);
    assert_eq!(
        parse_list_up_to(&stream("f, g, h"), false, 2).err().unwrap().kind(),
        ErrorKind::TooManyInstructions
    );
    assert_eq!(
        parse_list_up_to(&stream("f"), true, 0).err().unwrap().kind(),
        ErrorKind::TooManyInstructions
    );
}

#[test]
fn instructions_are_lowered_in_a_given_mode() {
    let (preamble, _) = ThreadMacro::parse_preamble(&stream("x last")).ok().unwrap();
    let items = parse_list(&stream("f(1), g"), false).ok().unwrap();
    assert_eq!(
        text_of(&preamble.lower(Mode::Plain, &items).ok().unwrap()),
        "g(f(1,x))"
    );
    assert_eq!(
        text_of(&preamble.lower(Mode::Mapped, &items).ok().unwrap()),
        "x.map(|i|f(1,i)).map(|i|g(i))"
    );
    let none = parse_list(&stream(""), false).ok().unwrap();
    for mode in [Mode::Plain, Mode::Mapped, Mode::Conditional] {
        assert_eq!(preamble.lower(mode, &none).err().unwrap().kind(), ErrorKind::EmptyPipe);
    }
}

#[test]
fn every_kind_of_error_has_a_message() {
    let fixed = [
        (ThreadError::ExpectedMapKeyword, "expected `Some` or `Ok`"),
        (ThreadError::ExpectedCondKeyword, "expected `Cond` or `CondClone`"),
        (ThreadError::ExpectedPlacement, "expected `first` or `last`"),
        (ThreadError::ExpectedLet, "expected `let`"),
        (ThreadError::ExpectedIn, "expected `in`"),
        (ThreadError::ExpectedAssign, "expected `=`"),
        (ThreadError::ExpectedAlias, "expected identifier"),
        (ThreadError::ExpectedComma, "expected `,`"),
        (ThreadError::ExpectedArrow, "expected `=>`"),
        (ThreadError::EmptyPipe, "expected some functions as pipe"),
        (ThreadError::TooManyInstructions, "too many functions as pipe"),
        (ThreadError::MissingTurbofish, "expected `::<...>` after method name"),
        (ThreadError::UnknownExpression, "unknown new syntax for an expression"),
    ];
    for (error, message) in fixed {
        assert_eq!(error.message(), message);
    }
    let inner = syn::parse_str::<syn::Expr>("+").err().unwrap();
    let expected = inner.to_string();
    let error = ThreadError::Expression(inner);
    assert_eq!(error.kind(), ErrorKind::Expression);
    assert_eq!(error.message(), expected);
}
