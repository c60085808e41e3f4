//! The rewriting behind the generator macro: a block of token trees in which
//! each `yield expr;` becomes `yield_.yield_(expr).await;`, wrapped into a
//! call of `gen`. Tokens are those of the caller, carried as `T`; the rewriter
//! reads only whether a token is the word `yield`, a `;`, a brace group, a
//! keyword that opens a nested definition, or a `|`. The bodies of nested
//! functions, items and closures belong to another scope and are kept as
//! they are.
use vstd::prelude::*;

verus! {

/// A token tree of the macro input, as far as the rewriter reads it. Each
/// variant carries the caller's token tree, which is handed back unchanged
/// wherever the rewriter keeps it.
pub enum Tok<T> {
    /// The identifier `yield`.
    Yield(T),
    /// A `;` punctuation mark.
    Semi(T),
    /// A keyword that opens a nested definition: `fn`, `impl`, `mod`,
    /// `trait`, `struct`, `enum` or `union`. The next brace group before a
    /// `;` is that definition's body.
    Item(T),
    /// A `|` punctuation mark; a brace group right after it is a closure body.
    Bar(T),
    /// A brace-delimited group, with the token trees inside it.
    Block(T, Vec<Tok<T>>),
    /// Any other token tree.
    Other(T),
}

/// The delimiters of the groups that the rewriter makes.
#[derive(PartialEq, Eq, Debug, Clone, Copy)]
pub enum Delim {
    Paren,
    Brace,
}

/// The identifiers that the rewriter makes.
#[derive(PartialEq, Eq, Debug, Clone, Copy)]
pub enum Word {
    /// `yield_`: the producer handle, and its method that yields.
    Yield,
    /// `await`
    Await,
    /// `gen`
    Gen,
    /// `mut`
    Mut,
    /// `Yield`: the producer handle's type.
    YieldType,
    /// `async`
    Async,
    /// `move`
    Move,
    /// `let`
    Let,
    /// `v`: the body's value.
    Value,
    /// `return_`
    Return,
}

/// A token of the macro output; a group is written as its opening
/// delimiter, its contents and its closing delimiter.
#[derive(PartialEq, Eq, Debug)]
pub enum Out<T> {
    /// A token tree of the input, unchanged.
    Kept(T),
    /// An identifier.
    Ident(Word),
    /// A punctuation mark that stands alone.
    Punct(char),
    /// The path separator `::`.
    PathSep,
    /// The opening delimiter of a group.
    Open(Delim),
    /// The closing delimiter of a group.
    Close(Delim),
    /// The path of the generator crate, given to the macro with its input.
    CratePath,
}

impl Word {
    /// How the identifier is written.
    pub open spec fn text(self) -> Seq<char> {
        match self {
            Word::Yield => "yield_"@,
            Word::Await => "await"@,
            Word::Gen => "gen"@,
            Word::Mut => "mut"@,
            Word::YieldType => "Yield"@,
            Word::Async => "async"@,
            Word::Move => "move"@,
            Word::Let => "let"@,
            Word::Value => "v"@,
            Word::Return => "return_"@,
        }
    }

    /// How the identifier is written.
    pub fn as_str(&self) -> (r: &'static str)
        ensures
            r@ == self.text(),
    {
        match self {
            Word::Yield => "yield_",
            Word::Await => "await",
            Word::Gen => "gen",
            Word::Mut => "mut",
            Word::YieldType => "Yield",
            Word::Async => "async",
            Word::Move => "move",
            Word::Let => "let",
            Word::Value => "v",
            Word::Return => "return_",
        }
    }
}

impl<T> Tok<T> {
    /// The caller's token tree.
    pub open spec fn token(self) -> T {
        match self {
            Tok::Yield(t) => t,
            Tok::Semi(t) => t,
            Tok::Item(t) => t,
            Tok::Bar(t) => t,
            Tok::Block(t, _) => t,
            Tok::Other(t) => t,
        }
    }

    /// Hands back the caller's token tree.
    pub fn into_token(self) -> (r: T)
        ensures
            r == self.token(),
    {
        match self {
            Tok::Yield(t) => t,
            Tok::Semi(t) => t,
            Tok::Item(t) => t,
            Tok::Bar(t) => t,
            Tok::Block(t, _) => t,
            Tok::Other(t) => t,
        }
    }
}

/// How many token trees of `s` come before its first `;` (all of them when it
/// has none): the expression of a `yield`.
pub open spec fn expr_len<T>(s: Seq<Tok<T>>) -> nat
    decreases s.len(),
{
    if s.len() == 0 {
        0
    } else if s[0] is Semi {
        0
    } else {
        1 + expr_len(s.drop_first())
    }
}

/// `yield_.yield_(expr).await;` for the token trees of `expr`, kept unchanged.
pub open spec fn yield_call<T>(expr: Seq<Tok<T>>) -> Seq<Out<T>> {
    seq![
        Out::Ident(Word::Yield),
        Out::Punct('.'),
        Out::Ident(Word::Yield),
        Out::Open(Delim::Paren),
    ] + kept_seq(expr) + seq![
        Out::Close(Delim::Paren),
        Out::Punct('.'),
        Out::Ident(Word::Await),
        Out::Punct(';'),
    ]
}

/// The token trees of `s`, kept unchanged.
pub open spec fn kept_seq<T>(s: Seq<Tok<T>>) -> Seq<Out<T>> {
    s.map_values(|t: Tok<T>| Out::Kept(t.token()))
}

/// The rewritten token trees of `s`, and whether a `yield` was rewritten.
/// `item` says that a nested definition has been opened and its body not
/// reached yet; `bar` that the previous token tree is a `|`. A `yield` takes
/// the token trees up to the next `;` as its expression, which is kept as it
/// is; a brace group that is the body of a nested definition or closure is
/// kept as it is; any other brace group is rewritten in turn; every other
/// token tree is kept.
pub open spec fn rewrite_in<T>(s: Seq<Tok<T>>, item: bool, bar: bool) -> (Seq<Out<T>>, bool)
    decreases s,
{
    if s.len() == 0 {
        (seq![], false)
    } else {
        let rest = s.drop_first();
        match s[0] {
            Tok::Yield(_) => {
                let n = expr_len(rest);
                let tail = if n < rest.len() {
                    rewrite_in(s.subrange(n + 2int, s.len() as int), false, false)
                } else {
                    (seq![], false)
                };
                (yield_call(rest.subrange(0, n as int)) + tail.0, true)
            },
            Tok::Block(t, inner) => {
                let tail = rewrite_in(rest, false, false);
                if item || bar {
                    (seq![Out::Kept(t)] + tail.0, tail.1)
                } else {
                    let g = rewrite_in(inner@, false, false);
                    (seq![Out::Open(Delim::Brace)] + g.0 + seq![Out::Close(Delim::Brace)] + tail.0, g.1
                        || tail.1)
                }
            },
            Tok::Semi(t) => {
                let tail = rewrite_in(rest, false, false);
                (seq![Out::Kept(t)] + tail.0, tail.1)
            },
            Tok::Item(t) => {
                let tail = rewrite_in(rest, true, false);
                (seq![Out::Kept(t)] + tail.0, tail.1)
            },
            Tok::Bar(t) => {
                let tail = rewrite_in(rest, item, true);
                (seq![Out::Kept(t)] + tail.0, tail.1)
            },
            Tok::Other(t) => {
                let tail = rewrite_in(rest, item, false);
                (seq![Out::Kept(t)] + tail.0, tail.1)
            },
        }
    }
}

/// The rewritten token trees of a block, and whether a `yield` was rewritten.
pub open spec fn rewrite<T>(s: Seq<Tok<T>>) -> (Seq<Out<T>>, bool) {
    rewrite_in(s, false, false)
}

/// The expression of a `yield` holds no `;` and ends at the first one.
pub proof fn lemma_expr_len_bound<T>(s: Seq<Tok<T>>)
    ensures
        expr_len(s) <= s.len(),
        forall|i: int| 0 <= i < expr_len(s) ==> !(#[trigger] s[i] is Semi),
        expr_len(s) < s.len() ==> s[expr_len(s) as int] is Semi,
    decreases s.len(),
{
    if s.len() > 0 && !(s[0] is Semi) {
        lemma_expr_len_bound(s.drop_first());
        assert forall|i: int| 0 <= i < expr_len(s) implies !(#[trigger] s[i] is Semi) by {
            if i > 0 {
                assert(s[i] == s.drop_first()[i - 1]);
            }
        }
    }
}

/// How many groups are open after `s`, starting with `d` open; `None` when
/// `s` closes a group that is not open.
pub open spec fn walk<T>(s: Seq<Out<T>>, d: nat) -> Option<nat>
    decreases s.len(),
{
    if s.len() == 0 {
        Some(d)
    } else {
        match s[0] {
            Out::Open(_) => walk(s.drop_first(), d + 1),
            Out::Close(_) => if d > 0 {
                walk(s.drop_first(), (d - 1) as nat)
            } else {
                None
            },
            _ => walk(s.drop_first(), d),
        }
    }
}

/// Every group that `s` opens it closes, and it closes none that it did not
/// open.
pub open spec fn balanced<T>(s: Seq<Out<T>>) -> bool {
    walk(s, 0) == Some(0nat)
}

proof fn lemma_walk_concat<T>(a: Seq<Out<T>>, b: Seq<Out<T>>, d: nat)
    ensures
        walk(a + b, d) == match walk(a, d) {
            Some(e) => walk(b, e),
            None => None,
        },
    decreases a.len(),
{
    if a.len() == 0 {
        assert(a + b =~= b);
    } else {
        assert((a + b).drop_first() =~= a.drop_first() + b);
        match a[0] {
            Out::Open(_) => lemma_walk_concat(a.drop_first(), b, d + 1),
            Out::Close(_) => if d > 0 {
                lemma_walk_concat(a.drop_first(), b, (d - 1) as nat);
            },
            _ => lemma_walk_concat(a.drop_first(), b, d),
        }
    }
}

proof fn lemma_walk_shift<T>(a: Seq<Out<T>>, d: nat, k: nat)
    requires
        walk(a, d) is Some,
    ensures
        walk(a, d + k) == Some(walk(a, d)->0 + k),
    decreases a.len(),
{
    if a.len() > 0 {
        match a[0] {
            Out::Open(_) => lemma_walk_shift(a.drop_first(), d + 1, k),
            Out::Close(_) => lemma_walk_shift(a.drop_first(), (d - 1) as nat, k),
            _ => lemma_walk_shift(a.drop_first(), d, k),
        }
    }
}

proof fn lemma_kept_walk<T>(s: Seq<Tok<T>>, d: nat)
    ensures
        walk(kept_seq(s), d) == Some(d),
    decreases s.len(),
{
    if s.len() > 0 {
        assert(kept_seq(s).drop_first() =~= kept_seq(s.drop_first()));
        lemma_kept_walk(s.drop_first(), d);
    }
}

proof fn lemma_kept_then<T>(x: Out<T>, tail: Seq<Out<T>>)
    requires
        x is Kept,
        balanced(tail),
    ensures
        balanced(seq![x] + tail),
{
    assert((seq![x] + tail).drop_first() =~= tail);
}

/// The rewritten token trees close every group they open.
pub proof fn lemma_rewrite_balanced<T>(s: Seq<Tok<T>>, item: bool, bar: bool)
    ensures
        balanced(rewrite_in(s, item, bar).0),
    decreases s,
{
    if s.len() == 0 {
        assert(walk(Seq::<Out<T>>::empty(), 0) == Some(0nat));
    } else {
        let rest = s.drop_first();
        match s[0] {
            Tok::Yield(_) => {
                let n = expr_len(rest);
                let tail = if n < rest.len() {
                    lemma_rewrite_balanced(s.subrange(n + 2int, s.len() as int), false, false);
                    rewrite_in(s.subrange(n + 2int, s.len() as int), false, false)
                } else {
                    (seq![], false)
                };
                let e = rest.subrange(0, n as int);
                let p1 = seq![
                    Out::Ident(Word::Yield),
                    Out::Punct('.'),
                    Out::Ident(Word::Yield),
                    Out::Open(Delim::Paren),
                ];
                let p3 = seq![
                    Out::Close(Delim::Paren),
                    Out::Punct('.'),
                    Out::Ident(Word::Await),
                    Out::Punct(';'),
                ];
                assert(walk(p1, 0) == Some(1nat)) by {
                    reveal_with_fuel(walk, 5);
                }
                assert(walk(p3, 1) == Some(0nat)) by {
                    reveal_with_fuel(walk, 5);
                }
                lemma_kept_walk(e, 1);
                lemma_walk_concat(p1, kept_seq(e), 0);
                lemma_walk_concat(p1 + kept_seq(e), p3, 0);
                assert(yield_call(e) == p1 + kept_seq(e) + p3);
                lemma_walk_concat(yield_call(e), tail.0, 0);
                assert(rewrite_in(s, item, bar).0 == yield_call(e) + tail.0);
            },
            Tok::Block(t, inner) => {
                lemma_rewrite_balanced(rest, false, false);
                let tail = rewrite_in(rest, false, false);
                if item || bar {
                    lemma_kept_then(Out::Kept(t), tail.0);
                } else {
                    lemma_rewrite_balanced(inner@, false, false);
                    let g = rewrite_in(inner@, false, false).0;
                    let open = seq![Out::<T>::Open(Delim::Brace)];
                    let close = seq![Out::<T>::Close(Delim::Brace)];
                    lemma_walk_shift(g, 0, 1);
                    assert(walk(open, 0) == Some(1nat)) by {
                        reveal_with_fuel(walk, 2);
                    }
                    assert(walk(close, 1) == Some(0nat)) by {
                        reveal_with_fuel(walk, 2);
                    }
                    lemma_walk_concat(open, g, 0);
                    lemma_walk_concat(open + g, close, 0);
                    lemma_walk_concat(open + g + close, tail.0, 0);
                    assert(rewrite_in(s, item, bar).0 == open + g + close + tail.0);
                }
            },
            Tok::Semi(t) => {
                lemma_rewrite_balanced(rest, false, false);
                lemma_kept_then(Out::Kept(t), rewrite_in(rest, false, false).0);
            },
            Tok::Item(t) => {
                lemma_rewrite_balanced(rest, true, false);
                lemma_kept_then(Out::Kept(t), rewrite_in(rest, true, false).0);
            },
            Tok::Bar(t) => {
                lemma_rewrite_balanced(rest, item, true);
                lemma_kept_then(Out::Kept(t), rewrite_in(rest, item, true).0);
            },
            Tok::Other(t) => {
                lemma_rewrite_balanced(rest, item, false);
                lemma_kept_then(Out::Kept(t), rewrite_in(rest, item, false).0);
            },
        }
    }
}

/// Rewrites the token trees of a block as `rewrite` says; `has_yielded`
/// becomes true when a `yield` was rewritten and is otherwise left as it was.
#[verifier::rlimit(50)]
pub fn out<T>(block: Vec<Tok<T>>, has_yielded: &mut bool) -> (r: Vec<Out<T>>)
    ensures
        r@ == rewrite(block@).0,
        balanced(r@),
        *final(has_yielded) == (*old(has_yielded) || rewrite(block@).1),
    decreases block,
{
    let ghost orig = block@;
    let ghost hy0 = *has_yielded;
    let mut tokens = block;
    let mut o: Vec<Out<T>> = Vec::new();
    let mut item = false;
    let mut bar = false;
    while tokens.len() > 0
        invariant
            orig == block@,
            tokens@.len() <= orig.len(),
            tokens@ == orig.subrange(orig.len() - tokens@.len(), orig.len() as int),
            o@ + rewrite_in(tokens@, item, bar).0 == rewrite(orig).0,
            (*has_yielded || rewrite_in(tokens@, item, bar).1) == (hy0 || rewrite(orig).1),
        decreases tokens.len(),
    {
        let ghost cur = tokens@;
        let ghost k = orig.len() - cur.len();
        assert(cur[0] == orig[k]);
        let tt = tokens.remove(0);
        assert(tokens@ =~= cur.drop_first());
        match tt {
            Tok::Yield(_) => {
                *has_yielded = true;
                item = false;
                bar = false;
                let ghost start = tokens@;
                let ghost n = expr_len(start);
                proof {
                    lemma_expr_len_bound(start);
                }
                let mut expr: Vec<Out<T>> = Vec::new();
                let mut done = false;
                while !done && tokens.len() > 0
                    invariant
                        n == expr_len(start),
                        n <= start.len(),
                        forall|i: int| 0 <= i < n ==> !(#[trigger] start[i] is Semi),
                        n < start.len() ==> start[n as int] is Semi,
                        expr@.len() <= n,
                        expr@ == kept_seq(start.subrange(0, expr@.len() as int)),
                        !done ==> tokens@ == start.subrange(expr@.len() as int, start.len() as int),
                        done ==> expr@.len() == n && n < start.len() && tokens@ == start.subrange(
                            n + 1int,
                            start.len() as int,
                        ),
                    decreases tokens.len(),
                {
                    let ghost i = expr@.len() as int;
                    assert(tokens@[0] == start[i]);
                    let t = tokens.remove(0);
                    match t {
                        Tok::Semi(_) => {
                            done = true;
                        },
                        other => {
                            expr.push(Out::Kept(other.into_token()));
                            assert(expr@ =~= kept_seq(start.subrange(0, i + 1)));
                        },
                    }
                    assert(tokens@ =~= start.subrange(i + 1, start.len() as int));
                }
                assert(expr@ =~= kept_seq(start.subrange(0, n as int)));
                let ghost call = yield_call(start.subrange(0, n as int));
                o.push(Out::Ident(Word::Yield));
                o.push(Out::Punct('.'));
                o.push(Out::Ident(Word::Yield));
                o.push(Out::Open(Delim::Paren));
                o.append(&mut expr);
                o.push(Out::Close(Delim::Paren));
                o.push(Out::Punct('.'));
                o.push(Out::Ident(Word::Await));
                o.push(Out::Punct(';'));
                proof {
                    if n < start.len() {
                        assert(cur.subrange(n + 2int, cur.len() as int) =~= tokens@);
                    } else {
                        assert(tokens@ =~= seq![]);
                    }
                }
            },
            Tok::Block(t, _) if item || bar => {
                o.push(Out::Kept(t));
                item = false;
                bar = false;
            },
            Tok::Block(_, inner) => {
                proof {
                    broadcast use vstd::std_specs::vec::axiom_vec_decreases_to_view;
                    broadcast use vstd::seq::axiom_seq_index_decreases;

                    assert(decreases_to!(block => block@));
                    assert(decreases_to!(block@ => block@[k]));
                    assert(decreases_to!(block@[k] => inner));
                    assert(decreases_to!(block => inner));
                }
                let mut g = out(inner, has_yielded);
                o.push(Out::Open(Delim::Brace));
                o.append(&mut g);
                o.push(Out::Close(Delim::Brace));
            },
            Tok::Semi(t) => {
                o.push(Out::Kept(t));
                item = false;
                bar = false;
            },
            Tok::Item(t) => {
                o.push(Out::Kept(t));
                item = true;
                bar = false;
            },
            Tok::Bar(t) => {
                o.push(Out::Kept(t));
                bar = true;
            },
            Tok::Other(t) => {
                o.push(Out::Kept(t));
                bar = false;
            },
        }
        assert(tokens@ =~= orig.subrange(orig.len() - tokens@.len(), orig.len() as int));
        assert(o@ + rewrite_in(tokens@, item, bar).0 =~= rewrite(orig).0);
    }
    assert(o@ =~= o@ + rewrite_in(tokens@, item, bar).0);
    proof {
        lemma_rewrite_balanced(block@, false, false);
    }
    o
}

/// The expansion of the generator macro for a rewritten body:
/// `CRATE::gen(|mut yield_| async move { let v = async { BODY }.await;
/// yield_.return_(v) })`, where the handle is written `yield_: CRATE::Yield`
/// when the body never yields, so that its type is known.
pub open spec fn expansion<T>(body: Seq<Out<T>>, has_yielded: bool) -> Seq<Out<T>> {
    let handle = if has_yielded {
        seq![Out::Ident(Word::Mut), Out::Ident(Word::Yield)]
    } else {
        seq![
            Out::Ident(Word::Mut),
            Out::Ident(Word::Yield),
            Out::Punct(':'),
            Out::CratePath,
            Out::PathSep,
            Out::Ident(Word::YieldType),
        ]
    };
    seq![
        Out::CratePath,
        Out::PathSep,
        Out::Ident(Word::Gen),
        Out::Open(Delim::Paren),
        Out::Punct('|'),
    ] + handle + seq![
        Out::Punct('|'),
        Out::Ident(Word::Async),
        Out::Ident(Word::Move),
        Out::Open(Delim::Brace),
        Out::Ident(Word::Let),
        Out::Ident(Word::Value),
        Out::Punct('='),
        Out::Ident(Word::Async),
        Out::Open(Delim::Brace),
    ] + body + seq![
        Out::Close(Delim::Brace),
        Out::Punct('.'),
        Out::Ident(Word::Await),
        Out::Punct(';'),
        Out::Ident(Word::Yield),
        Out::Punct('.'),
        Out::Ident(Word::Return),
        Out::Open(Delim::Paren),
        Out::Ident(Word::Value),
        Out::Close(Delim::Paren),
        Out::Close(Delim::Brace),
        Out::Close(Delim::Paren),
    ]
}

/// The expansion closes every group it opens when the body does.
pub proof fn lemma_expansion_balanced<T>(body: Seq<Out<T>>, has_yielded: bool)
    requires
        balanced(body),
    ensures
        balanced(expansion(body, has_yielded)),
{
    let handle = if has_yielded {
        seq![Out::Ident(Word::Mut), Out::Ident(Word::Yield)]
    } else {
        seq![
            Out::Ident(Word::Mut),
            Out::Ident(Word::Yield),
            Out::Punct(':'),
            Out::CratePath,
            Out::PathSep,
            Out::Ident(Word::YieldType),
        ]
    };
    let p1 = seq![
        Out::CratePath,
        Out::PathSep,
        Out::Ident(Word::Gen),
        Out::Open(Delim::Paren),
        Out::Punct('|'),
    ];
    let p2 = seq![
        Out::Punct('|'),
        Out::Ident(Word::Async),
        Out::Ident(Word::Move),
        Out::Open(Delim::Brace),
        Out::Ident(Word::Let),
        Out::Ident(Word::Value),
        Out::Punct('='),
        Out::Ident(Word::Async),
        Out::Open(Delim::Brace),
    ];
    let p3 = seq![
        Out::Close(Delim::Brace),
        Out::Punct('.'),
        Out::Ident(Word::Await),
        Out::Punct(';'),
        Out::Ident(Word::Yield),
        Out::Punct('.'),
        Out::Ident(Word::Return),
        Out::Open(Delim::Paren),
        Out::Ident(Word::Value),
        Out::Close(Delim::Paren),
        Out::Close(Delim::Brace),
        Out::Close(Delim::Paren),
    ];
    assert(walk(p1, 0) == Some(1nat)) by {
        reveal_with_fuel(walk, 6);
    }
    assert(walk(handle, 1) == Some(1nat)) by {
        reveal_with_fuel(walk, 7);
    }
    assert(walk(p2, 1) == Some(3nat)) by {
        reveal_with_fuel(walk, 10);
    }
    assert(walk(p3, 3) == Some(0nat)) by {
        reveal_with_fuel(walk, 13);
    }
    lemma_walk_shift(body, 0, 3);
    lemma_walk_concat(p1, handle, 0);
    lemma_walk_concat(p1 + handle, p2, 0);
    lemma_walk_concat(p1 + handle + p2, body, 0);
    lemma_walk_concat(p1 + handle + p2 + body, p3, 0);
    assert(expansion(body, has_yielded) == p1 + handle + p2 + body + p3);
}

/// Expands the generator macro on the token trees of its body (those after
/// the crate path): the body is rewritten by `out` and wrapped as
/// `expansion` says.
pub fn gen_inner<T>(body: Vec<Tok<T>>) -> (r: Vec<Out<T>>)
    ensures
        r@ == expansion(rewrite(body@).0, rewrite(body@).1),
        balanced(r@),
{
    let mut has_yielded = false;
    let mut output = out(body, &mut has_yielded);
    let mut o: Vec<Out<T>> = Vec::new();
    o.push(Out::CratePath);
    o.push(Out::PathSep);
    o.push(Out::Ident(Word::Gen));
    o.push(Out::Open(Delim::Paren));
    o.push(Out::Punct('|'));
    o.push(Out::Ident(Word::Mut));
    o.push(Out::Ident(Word::Yield));
    if !has_yielded {
        o.push(Out::Punct(':'));
        o.push(Out::CratePath);
        o.push(Out::PathSep);
        o.push(Out::Ident(Word::YieldType));
    }
    o.push(Out::Punct('|'));
    o.push(Out::Ident(Word::Async));
    o.push(Out::Ident(Word::Move));
    o.push(Out::Open(Delim::Brace));
    o.push(Out::Ident(Word::Let));
    o.push(Out::Ident(Word::Value));
    o.push(Out::Punct('='));
    o.push(Out::Ident(Word::Async));
    o.push(Out::Open(Delim::Brace));
    o.append(&mut output);
    o.push(Out::Close(Delim::Brace));
    o.push(Out::Punct('.'));
    o.push(Out::Ident(Word::Await));
    o.push(Out::Punct(';'));
    o.push(Out::Ident(Word::Yield));
    o.push(Out::Punct('.'));
    o.push(Out::Ident(Word::Return));
    o.push(Out::Open(Delim::Paren));
    o.push(Out::Ident(Word::Value));
    o.push(Out::Close(Delim::Paren));
    o.push(Out::Close(Delim::Brace));
    o.push(Out::Close(Delim::Paren));
    assert(o@ =~= expansion(rewrite(body@).0, rewrite(body@).1));
    proof {
        lemma_expansion_balanced(rewrite(body@).0, rewrite(body@).1);
    }
    o
}

} // verus!
