use async_gen::rewrite::{gen_inner, out, Delim, Out, Tok, Word};

fn yield_call(expr: Vec<&'static str>) -> Vec<Out<&'static str>> {
    let mut v = vec![
        Out::Ident(Word::Yield),
        Out::Punct('.'),
        Out::Ident(Word::Yield),
        Out::Open(Delim::Paren),
    ];
    v.extend(expr.into_iter().map(Out::Kept));
    v.extend(vec![
        Out::Close(Delim::Paren),
        Out::Punct('.'),
        Out::Ident(Word::Await),
        Out::Punct(';'),
    ]);
    v
}

#[test]
fn rewrites_each_yield_statement() {
    let body = vec![
        Tok::Yield("yield"),
        Tok::Other("\"hello\""),
        Tok::Semi(";"),
        Tok::Yield("yield"),
        Tok::Other("\"world\""),
        Tok::Semi(";"),
    ];
    let mut has_yielded = false;
    let r = out(body, &mut has_yielded);
    let mut expected = yield_call(vec!["\"hello\""]);
    expected.extend(yield_call(vec!["\"world\""]));
    assert_eq!(r, expected);
    assert!(has_yielded);
}

#[test]
fn rewrites_inside_brace_groups() {
    let body = vec![
        Tok::Other("if"),
        Tok::Other("x"),
        Tok::Block("{ yield 1; }", vec![Tok::Yield("yield"), Tok::Other("1"), Tok::Semi(";")]),
        Tok::Semi(";"),
    ];
    let mut has_yielded = false;
    let r = out(body, &mut has_yielded);
    let mut expected = vec![Out::Kept("if"), Out::Kept("x"), Out::Open(Delim::Brace)];
    expected.extend(yield_call(vec!["1"]));
    expected.extend(vec![Out::Close(Delim::Brace), Out::Kept(";")]);
    assert_eq!(r, expected);
    assert!(has_yielded);
}

#[test]
fn yield_expression_is_kept_whole() {
    let body = vec![
        Tok::Yield("yield"),
        Tok::Other("f"),
        Tok::Block("{ yield 2; }", vec![Tok::Yield("yield"), Tok::Other("2"), Tok::Semi(";")]),
        Tok::Semi(";"),
        Tok::Other("done"),
    ];
    let mut has_yielded = false;
    let r = out(body, &mut has_yielded);
    let mut expected = yield_call(vec!["f", "{ yield 2; }"]);
    expected.push(Out::Kept("done"));
    assert_eq!(r, expected);
}

#[test]
fn yield_without_semicolon_takes_the_rest() {
    let body = vec![Tok::Yield("yield"), Tok::Other("a"), Tok::Other("+"), Tok::Other("b")];
    let mut has_yielded = false;
    let r = out(body, &mut has_yielded);
    assert_eq!(r, yield_call(vec!["a", "+", "b"]));
    assert!(has_yielded);
}

#[test]
fn bare_yield_yields_unit() {
    let body = vec![Tok::Yield("yield"), Tok::Semi(";")];
    let mut has_yielded = false;
    assert_eq!(out(body, &mut has_yielded), yield_call(vec![]));
    assert!(has_yielded);
}

#[test]
fn body_without_yield_is_kept() {
    let body = vec![Tok::Other("x"), Tok::Semi(";"), Tok::Block("{}", vec![])];
    let mut has_yielded = false;
    let r = out(body, &mut has_yielded);
    assert_eq!(
        r,
        vec![Out::Kept("x"), Out::Kept(";"), Out::Open(Delim::Brace), Out::Close(Delim::Brace)]
    );
    assert!(!has_yielded);
    let mut already = true;
    let _ = out(vec![Tok::Other("x")], &mut already);
    assert!(already);
}

#[test]
fn spans_preserved() {
    // Tokens of the body come back as the very values that went in.
    let body = vec![
        Tok::Other(("assert_eq", 8)),
        Tok::Other(("!", 8)),
        Tok::Other(("(line!(), 8)", 8)),
        Tok::Semi((";", 8)),
    ];
    let r = gen_inner(body);
    let kept: Vec<(&str, u32)> = r
        .into_iter()
        .filter_map(|o| match o {
            Out::Kept(t) => Some(t),
            _ => None,
        })
        .collect();
    assert_eq!(kept, vec![("assert_eq", 8), ("!", 8), ("(line!(), 8)", 8), (";", 8)]);
}

fn frame(typed: bool, body: Vec<Out<&'static str>>) -> Vec<Out<&'static str>> {
    let mut v = vec![
        Out::CratePath,
        Out::PathSep,
        Out::Ident(Word::Gen),
        Out::Open(Delim::Paren),
        Out::Punct('|'),
        Out::Ident(Word::Mut),
        Out::Ident(Word::Yield),
    ];
    if typed {
        v.extend(vec![
            Out::Punct(':'),
            Out::CratePath,
            Out::PathSep,
            Out::Ident(Word::YieldType),
        ]);
    }
    v.extend(vec![
        Out::Punct('|'),
        Out::Ident(Word::Async),
        Out::Ident(Word::Move),
        Out::Open(Delim::Brace),
        Out::Ident(Word::Let),
        Out::Ident(Word::Value),
        Out::Punct('='),
        Out::Ident(Word::Async),
        Out::Open(Delim::Brace),
    ]);
    v.extend(body);
    v.extend(vec![
        Out::Close(Delim::Brace),
        Out::Punct('.'),
        Out::Ident(Word::Await),
        Out::Punct(';'),
        Out::Ident(Word::Yield),
        Out::Punct('.'),
        Out::Ident(Word::Return),
        Out::Open(Delim::Paren),
        Out::Ident(Word::Value),
        Out::Close(Delim::Paren),
        Out::Close(Delim::Brace),
        Out::Close(Delim::Paren),
    ]);
    v
}

#[test]
fn expansion_of_empty_body_types_the_handle() {
    assert_eq!(gen_inner::<&'static str>(vec![]), frame(true, vec![]));
}

#[test]
fn expansion_of_yielding_body() {
    let body = vec![Tok::Yield("yield"), Tok::Other("42"), Tok::Semi(";")];
    assert_eq!(gen_inner(body), frame(false, yield_call(vec!["42"])));
}

#[test]
fn words_are_spelled() {
    assert_eq!(Word::Yield.as_str(), "yield_");
    assert_eq!(Word::YieldType.as_str(), "Yield");
    assert_eq!(Word::Return.as_str(), "return_");
    assert_eq!(Word::Value.as_str(), "v");
    assert_eq!(Word::Await.as_str(), "await");
}

#[test]
fn nested_fn_body_is_left_alone() {
    let body = vec![
        Tok::Item("fn"),
        Tok::Other("f"),
        Tok::Other("()"),
        Tok::Block("{ yield x; }", vec![Tok::Yield("yield"), Tok::Other("x"), Tok::Semi(";")]),
    ];
    let mut has_yielded = false;
    let r = out(body, &mut has_yielded);
    assert_eq!(
        r,
        vec![Out::Kept("fn"), Out::Kept("f"), Out::Kept("()"), Out::Kept("{ yield x; }")]
    );
    assert!(!has_yielded);
}

#[test]
fn closure_body_is_left_alone() {
    let body = vec![
        Tok::Other("let"),
        Tok::Other("c"),
        Tok::Other("="),
        Tok::Bar("|"),
        Tok::Bar("|"),
        Tok::Block("{ yield 1; }", vec![Tok::Yield("yield"), Tok::Other("1"), Tok::Semi(";")]),
        Tok::Semi(";"),
    ];
    let mut has_yielded = false;
    let r = out(body, &mut has_yielded);
    assert_eq!(r[5], Out::Kept("{ yield 1; }"));
    assert_eq!(r.len(), 7);
    assert!(!has_yielded);
}

#[test]
fn item_keyword_before_semicolon_does_not_shield_later_blocks() {
    let body = vec![
        Tok::Other("let"),
        Tok::Other("f"),
        Tok::Other(":"),
        Tok::Item("fn"),
        Tok::Other("()"),
        Tok::Other("="),
        Tok::Other("g"),
        Tok::Semi(";"),
        Tok::Other("if"),
        Tok::Other("c"),
        Tok::Block("{ yield 2; }", vec![Tok::Yield("yield"), Tok::Other("2"), Tok::Semi(";")]),
    ];
    let mut has_yielded = false;
    let r = out(body, &mut has_yielded);
    assert!(has_yielded);
    assert_eq!(r[10], Out::Open(Delim::Brace));
    assert_eq!(r[11], Out::Ident(Word::Yield));
}

#[test]
fn bitwise_or_does_not_shield_a_block() {
    let body = vec![
        Tok::Other("if"),
        Tok::Other("a"),
        Tok::Bar("|"),
        Tok::Other("b"),
        Tok::Block("{ yield 3; }", vec![Tok::Yield("yield"), Tok::Other("3"), Tok::Semi(";")]),
    ];
    let mut has_yielded = false;
    let _ = out(body, &mut has_yielded);
    assert!(has_yielded);
}
