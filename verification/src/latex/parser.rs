use vstd::prelude::*;

use rowan::GreenNode;
use vstd::utf8::encode_utf8;

use crate::config::SyntaxConfig;
use crate::green::{green_node_view, to_green};
use crate::tree::{green_kind, green_leaves, green_text, elements_leaves, elements_text, elements_view, lemma_add_assoc, lemma_empty_add, push_node, push_token, GreenView, SyntaxElement, SyntaxNode, SyntaxToken};

use super::kind::SyntaxKind;
use super::progress::{follows, lemma_follows_drop_first, lemma_follows_refl, lemma_follows_trans};
use super::shape::{curly_closed, errors_ok, is_curly_error, lemma_seq_errors_push, no_curly_errors, seq_errors_ok};
use super::lexer::{concat_texts, lex, token_syntax_kind, Lexer};
use super::token::{CommandName, ParagraphLevel, SectionLevel, Token};

verus! {

broadcast use lemma_add_assoc, lemma_empty_add, lemma_seq_errors_push, lemma_follows_trans, lemma_follows_refl;


/// What the parser allows in the content it is reading.
#[derive(Debug, Clone, Copy)]
pub struct ParserContext {
    pub allow_environment: bool,
    pub allow_comma: bool,
}

impl Default for ParserContext {
    fn default() -> (c: Self)
        ensures
            c.allow_environment && c.allow_comma,
    {
        Self { allow_environment: true, allow_comma: true }
    }
}

/// A LaTeX parser: the tokens that are left to read.
#[derive(Debug)]
pub struct Parser {
    lexer: Lexer,
}

impl Parser {
    /// The text that is left to read.
    pub closed spec fn rest(&self) -> Seq<char> {
        concat_texts(self.lexer@)
    }

    /// The tokens that are left to read, next first.
    pub closed spec fn tokens(&self) -> Seq<(Token, Seq<char>)> {
        self.lexer@
    }

    /// The number of tokens that are left to read.
    pub closed spec fn left(&self) -> nat {
        self.lexer@.len()
    }

    /// The texts of the tokens that are left to read, next first.
    pub open spec fn rest_tokens(&self) -> Seq<Seq<char>> {
        token_texts(self.tokens())
    }
}

/// The texts of tokens, in order.
pub open spec fn token_texts(ts: Seq<(Token, Seq<char>)>) -> Seq<Seq<char>> {
    Seq::new(ts.len(), |i: int| ts[i].1)
}

/// `n` is a node of kind `kind` that covers exactly the text taken from `p1`
/// to leave `p2`, holds exactly the tokens taken, and it took at least one
/// token.
pub open spec fn builds(p1: Parser, p2: Parser, n: SyntaxNode, kind: SyntaxKind) -> bool {
    &&& p2.left() < p1.left()
    &&& n.kind == kind.raw()
    &&& n.text() + p2.rest() == p1.rest()
    &&& n.leaves() + p2.rest_tokens() == p1.rest_tokens()
    &&& follows(p1.tokens(), p2.tokens())
    &&& errors_ok(n.view())
}

/// The elements appended to `o1` to give `o2` cover exactly the text taken
/// from `p1` to leave `p2`.
pub open spec fn takes(p1: Parser, p2: Parser, o1: Seq<SyntaxElement>, o2: Seq<SyntaxElement>) -> bool {
    &&& p2.left() <= p1.left()
    &&& elements_text(o2) + p2.rest() == elements_text(o1) + p1.rest()
    &&& elements_leaves(o2) + p2.rest_tokens() == elements_leaves(o1) + p1.rest_tokens()
    &&& follows(p1.tokens(), p2.tokens())
    &&& (seq_errors_ok(elements_view(o1)) ==> seq_errors_ok(elements_view(o2)))
}

/// `o2` is `o1` with elements appended.
pub open spec fn extends(o1: Seq<SyntaxElement>, o2: Seq<SyntaxElement>) -> bool {
    &&& o1.len() <= o2.len()
    &&& forall|i: int| 0 <= i < o1.len() ==> #[trigger] o2[i] == o1[i]
}

/// Whether the next token is `t`.
pub closed spec fn next_is(p: Parser, t: Token) -> bool {
    p.left() > 0 && p.lexer@[0].0 == t
}

impl Parser {
    fn peek(&self) -> (r: Option<Token>)
        ensures
            self.left() == 0 ==> r is None,
            self.left() > 0 ==> r == Some(self.lexer@[0].0),
    {
        self.lexer.peek()
    }

    /// Takes the next token into `out`.
    fn eat(&mut self, out: &mut Vec<SyntaxElement>)
        requires
            old(self).left() > 0,
        ensures
            final(self).lexer@ == old(self).lexer@.drop_first(),
            elements_view(final(out)@) == elements_view(old(out)@).push(
                GreenView::Token(token_syntax_kind(old(self).lexer@[0].0).raw(), old(self).lexer@[0].1),
            ),
            final(out)@.len() == old(out)@.len() + 1,
            is_token_of(final(out)@.last(), old(self).lexer@[0]),
            takes(*old(self), *final(self), old(out)@, final(out)@),
            extends(old(out)@, final(out)@),
    {
        let ghost before = self.tokens();
        let (kind, text) = self.lexer.eat().unwrap();
        push_token(out, SyntaxToken { kind: kind.to_raw(), text });
        proof {
            assert(token_texts(before) =~= seq![before[0].1] + token_texts(self.tokens()));
            lemma_follows_drop_first(before);
        }
    }

    /// Takes the next token into `out` as a token of kind `kind`.
    fn eat_remap(&mut self, out: &mut Vec<SyntaxElement>, kind: SyntaxKind)
        requires
            old(self).left() > 0,
        ensures
            final(self).lexer@ == old(self).lexer@.drop_first(),
            elements_view(final(out)@) == elements_view(old(out)@).push(
                GreenView::Token(kind.raw(), old(self).lexer@[0].1),
            ),
            takes(*old(self), *final(self), old(out)@, final(out)@),
            extends(old(out)@, final(out)@),
            final(out)@.len() == old(out)@.len() + 1,
            final(out)@.last() is Token,
            is_token_kind(final(out)@.last(), kind),
    {
        let ghost before = self.tokens();
        let (_, text) = self.lexer.eat().unwrap();
        push_token(out, SyntaxToken { kind: kind.to_raw(), text });
        proof {
            assert(token_texts(before) =~= seq![before[0].1] + token_texts(self.tokens()));
            lemma_follows_drop_first(before);
        }
    }

    /// Takes line breaks, white space and comments into `out`, as long as they come.
    fn trivia(&mut self, out: &mut Vec<SyntaxElement>)
        ensures
            takes(*old(self), *final(self), old(out)@, final(out)@),
            extends(old(out)@, final(out)@),
            final(self).left() == 0 || !is_trivia(final(self).lexer@[0].0),
            final(self).lexer@ == old(self).lexer@.skip(old(self).left() - final(self).left()),
            forall|i: int|
                0 <= i < old(self).left() - final(self).left() ==> is_trivia(
                    #[trigger] old(self).lexer@[i].0,
                ),
            forall|i: int|
                old(out)@.len() <= i < final(out)@.len() ==> (#[trigger] final(out)@[i]) is Token,
            forall|i: int|
                old(out)@.len() <= i < final(out)@.len() ==> is_trivia_token(#[trigger] final(out)@[i]),
            final(out)@.len() - old(out)@.len() == old(self).left() - final(self).left(),
            elements_view(final(out)@) == elements_view(old(out)@) + token_views(
                old(self).lexer@.take(old(self).left() - final(self).left()),
            ),
    {
        let ghost p0 = *self;
        let ghost o0 = out@;
        assert(p0.lexer@.skip(0) =~= p0.lexer@);
        assert(token_views(p0.lexer@.take(0)) =~= Seq::<GreenView>::empty());
        while matches!(self.peek(), Some(Token::LineBreak | Token::Whitespace | Token::LineComment))
            invariant
                takes(p0, *self, o0, out@),
                extends(o0, out@),
                o0 == old(out)@,
                p0 == *old(self),
                self.left() <= p0.left(),
                self.lexer@ == p0.lexer@.skip(p0.left() - self.left()),
                forall|i: int| 0 <= i < p0.left() - self.left() ==> is_trivia(#[trigger] p0.lexer@[i].0),
                forall|i: int| o0.len() <= i < out@.len() ==> (#[trigger] out@[i]) is Token,
                forall|i: int| o0.len() <= i < out@.len() ==> is_trivia_token(#[trigger] out@[i]),
                out@.len() - o0.len() == p0.left() - self.left(),
                elements_view(out@) == elements_view(o0) + token_views(
                    p0.lexer@.take(p0.left() - self.left()),
                ),
            decreases self.left(),
        {
            let ghost k = p0.left() - self.left();
            assert(self.lexer@[0] == p0.lexer@[k]);
            let ghost before = out@;
            self.eat(out);
            assert(out@.drop_last() =~= before) by {
                assert forall|i: int| 0 <= i < before.len() implies out@[i] == before[i] by {}
            }
            assert(self.lexer@ =~= p0.lexer@.skip(k + 1));
            assert(token_views(p0.lexer@.take(k + 1)) =~= token_views(p0.lexer@.take(k)).push(
                GreenView::Token(token_syntax_kind(p0.lexer@[k].0).raw(), p0.lexer@[k].1),
            ));
            assert(elements_view(out@) =~= elements_view(o0) + token_views(p0.lexer@.take(k + 1)));
        }
    }

    /// Takes a token of kind `kind`, with the trivia after it, if it comes next.
    fn expect(&mut self, out: &mut Vec<SyntaxElement>, kind: Token)
        ensures
            takes(*old(self), *final(self), old(out)@, final(out)@),
            extends(old(out)@, final(out)@),
            next_is(*old(self), kind) ==> final(self).left() < old(self).left(),
            forall|i: int|
                old(out)@.len() <= i < final(out)@.len() ==> (#[trigger] final(out)@[i]) is Token,
            !next_is(*old(self), kind) ==> *final(self) == *old(self) && final(out)@ == old(out)@,
            next_is(*old(self), kind) ==> {
                &&& final(out)@.len() > old(out)@.len()
                &&& is_token_of(final(out)@[old(out)@.len() as int], old(self).tokens()[0])
                &&& forall|i: int|
                    old(out)@.len() < i < final(out)@.len() ==> is_trivia_token(
                        #[trigger] final(out)@[i],
                    )
            },
    {
        if self.peek() == Some(kind) {
            self.eat(out);
            self.trivia(out);
        }
    }
}

/// Line breaks, white space and comments.
pub open spec fn is_trivia(t: Token) -> bool {
    t == Token::LineBreak || t == Token::Whitespace || t == Token::LineComment
}


/// The position of the first token at or after `i` that is not trivia (the
/// end when there is none).
pub open spec fn skip_trivia(ts: Seq<(Token, Seq<char>)>, i: int) -> int
    decreases ts.len() - i,
{
    if 0 <= i < ts.len() && is_trivia(ts[i].0) {
        skip_trivia(ts, i + 1)
    } else {
        i
    }
}

/// A run of trivia from `i` on, of length `k`, that ends at the end or
/// before a token that is not trivia, is what `skip_trivia` skips.
proof fn lemma_skip_trivia(ts: Seq<(Token, Seq<char>)>, i: int, k: int)
    requires
        0 <= i,
        0 <= k,
        i + k <= ts.len(),
        forall|q: int| i <= q < i + k ==> is_trivia(#[trigger] ts[q].0),
        i + k == ts.len() || !is_trivia(ts[i + k].0),
    ensures
        skip_trivia(ts, i) == i + k,
    decreases k,
{
    if k > 0 {
        lemma_skip_trivia(ts, i + 1, k - 1);
    }
}

/// Whether a path of `\graphicspath` may start with `t`: a word, `=`, a
/// bracket or a generic command.
pub open spec fn starts_path(t: Token) -> bool {
    t == Token::Word || t == Token::Eq || t == Token::LBrack || t == Token::RBrack || t
        == Token::CommandName(CommandName::Generic)
}

/// The kind of the group of a `\graphicspath` command whose tokens are `ts`:
/// none when no `{` follows the command and its trivia; else a word group
/// when a path starts after the `{` and its trivia, and a curly group of
/// path groups otherwise.
pub open spec fn graphics_path_group_kind(ts: Seq<(Token, Seq<char>)>) -> Option<SyntaxKind> {
    let j = skip_trivia(ts, 1);
    if j < ts.len() && ts[j].0 == Token::LCurly {
        let k = skip_trivia(ts, j + 1);
        if k < ts.len() && starts_path(ts[k].0) {
            Some(SyntaxKind::CURLY_GROUP_WORD)
        } else {
            Some(SyntaxKind::CURLY_GROUP)
        }
    } else {
        None
    }
}

/// Whether `t` may continue a path: white space, a comment, a word, `=`, a
/// bracket, a parenthesis, a dollar, a generic command or a nested group.
pub open spec fn continues_path(t: Token) -> bool {
    t == Token::Whitespace || t == Token::LineComment || t == Token::Word || t == Token::Eq
        || t == Token::LBrack || t == Token::RBrack || t == Token::LParen || t == Token::RParen
        || t == Token::Dollar || t == Token::CommandName(CommandName::Generic) || t == Token::LCurly
}

/// Whether a group's children end at child `c`: there are no more, or a `}`
/// closes the group there.
pub open spec fn ends_group(children: Seq<SyntaxElement>, c: int) -> bool {
    c == children.len() || closes_at(children, c)
}

/// The children of the group of a `\graphicspath` command whose tokens are
/// `ts`, of kind `kind`: the `{` token, the trivia tokens after it, then
/// either (a word group) the path as a `KEY` node that starts at the first
/// token after that trivia, or (a curly group) path groups, each a word
/// group; and after them the closing `}` with its trivia, where it comes.
pub open spec fn graphics_path_group(
    children: Seq<SyntaxElement>,
    ts: Seq<(Token, Seq<char>)>,
    kind: SyntaxKind,
) -> bool {
    let j = skip_trivia(ts, 1);
    let k = skip_trivia(ts, j + 1);
    &&& children.len() >= k - j
    &&& is_token_of(children[0], ts[j])
    &&& forall|i: int| 0 < i < k - j ==> is_trivia_token(#[trigger] children[i])
    &&& kind == SyntaxKind::CURLY_GROUP_WORD ==> {
        &&& children.len() > k - j
        &&& children[k - j] matches SyntaxElement::Node(key)
        &&& key.kind == SyntaxKind::KEY.raw()
        &&& key.children@.len() > 0
        &&& is_token_of(key.children@[0], ts[k])
        &&& ends_group(children, k - j + 1)
    }
    &&& kind == SyntaxKind::CURLY_GROUP ==> exists|c: int|
        {
            &&& k - j <= c
            &&& forall|i: int|
                k - j <= i < c ==> is_node_of_kind(#[trigger] children[i], SyntaxKind::CURLY_GROUP_WORD)
            &&& ends_group(children, c)
        }
}

/// Whether `e` is the token that the lexer's token `tok` becomes.
pub open spec fn is_token_of(e: SyntaxElement, tok: (Token, Seq<char>)) -> bool {
    match e {
        SyntaxElement::Token(t) => t.kind == token_syntax_kind(tok.0).raw() && t.text@ == tok.1,
        SyntaxElement::Node(_) => false,
    }
}

/// Whether `e` is a token of kind `k`.
pub open spec fn is_token_kind(e: SyntaxElement, k: SyntaxKind) -> bool {
    match e {
        SyntaxElement::Token(t) => t.kind == k.raw(),
        SyntaxElement::Node(_) => false,
    }
}

/// Whether `e` is a line break, white space or comment token.
pub open spec fn is_trivia_token(e: SyntaxElement) -> bool {
    is_token_kind(e, SyntaxKind::LINE_BREAK) || is_token_kind(e, SyntaxKind::WHITESPACE)
        || is_token_kind(e, SyntaxKind::COMMENT)
}

/// Whether the children of a group close at child `j`: it is the first `}`
/// token after the opening one, and only trivia tokens follow it.
pub open spec fn closes_at(children: Seq<SyntaxElement>, j: int) -> bool {
    &&& 0 < j < children.len()
    &&& is_token_kind(children[j], SyntaxKind::R_CURLY)
    &&& forall|i: int| 0 < i < j ==> !is_token_kind(#[trigger] children[i], SyntaxKind::R_CURLY)
    &&& forall|i: int| j < i < children.len() ==> is_trivia_token(#[trigger] children[i])
}

/// The shape of a curly group built from `p1` to leave `p2`: it starts with
/// the `{` token taken first and ends at the first `}` of its own level,
/// which is its child `j` with only trivia after it; or, where no such `}`
/// came before the text ran out, it holds no `}` token and nothing is left.
pub open spec fn curly_group_shape(p1: Parser, p2: Parser, children: Seq<SyntaxElement>) -> bool {
    &&& children.len() > 0
    &&& is_token_of(children[0], p1.tokens()[0])
    &&& (exists|j: int| closes_at(children, j)) || (p2.left() == 0 && forall|i: int|
        0 < i < children.len() ==> !is_token_kind(#[trigger] children[i], SyntaxKind::R_CURLY))
}

/// The views of the tokens that the lexer's tokens `ts` become, in order.
pub open spec fn token_views(ts: Seq<(Token, Seq<char>)>) -> Seq<GreenView> {
    Seq::new(ts.len(), |i: int| GreenView::Token(token_syntax_kind(ts[i].0).raw(), ts[i].1))
}

/// The views of tokens of kind `k` with the texts of the lexer's tokens `ts`.
pub open spec fn remapped_views(ts: Seq<(Token, Seq<char>)>, k: SyntaxKind) -> Seq<GreenView> {
    Seq::new(ts.len(), |i: int| GreenView::Token(k.raw(), ts[i].1))
}

/// The position just after the first `|` at or after `i` in `ts`, or the end
/// when no `|` comes.
pub open spec fn after_pipe(ts: Seq<(Token, Seq<char>)>, i: int) -> int
    decreases ts.len() - i,
{
    if 0 <= i < ts.len() {
        if ts[i].0 == Token::Pipe {
            i + 1
        } else {
            after_pipe(ts, i + 1)
        }
    } else {
        ts.len() as int
    }
}

/// The number of tokens that a verbatim command whose tokens are `ts` takes:
/// the command and its trivia, and, when a `|` follows them, every token
/// through the next `|` (or to the end).
pub open spec fn verbatim_length(ts: Seq<(Token, Seq<char>)>) -> int {
    let t = skip_trivia(ts, 1);
    if t < ts.len() && ts[t].0 == Token::Pipe {
        after_pipe(ts, t + 1)
    } else {
        t
    }
}

/// The views of the elements that a verbatim command whose tokens are `ts`
/// adds: the command as a `GENERIC_COMMAND` node that holds its token, its
/// trivia tokens, then each token it takes after them as a `VERBATIM` token
/// with the same text.
pub open spec fn verbatim_views(ts: Seq<(Token, Seq<char>)>) -> Seq<GreenView> {
    let t = skip_trivia(ts, 1);
    seq![GreenView::Node(SyntaxKind::GENERIC_COMMAND.raw(), token_views(ts.take(1)))] + token_views(
        ts.subrange(1, t),
    ) + remapped_views(ts.subrange(t, verbatim_length(ts)), SyntaxKind::VERBATIM)
}

/// Whether `e` may stand between the braces of a list of keys: a `KEY`
/// node, or a comma, word, line break, white space or comment token.
pub open spec fn is_list_item(e: SyntaxElement) -> bool {
    is_node_of_kind(e, SyntaxKind::KEY) || is_trivia_token(e) || is_token_kind(e, SyntaxKind::COMMA)
        || is_token_kind(e, SyntaxKind::WORD)
}

/// The children of a list of keys built from `p1`: the `{` token taken
/// first, then keys and separators up to child `c`, where the group ends.
pub open spec fn word_list_shape(p1: Parser, children: Seq<SyntaxElement>) -> bool {
    &&& children.len() > 0
    &&& is_token_of(children[0], p1.tokens()[0])
    &&& exists|c: int|
        {
            &&& 0 < c <= children.len()
            &&& forall|i: int| 0 < i < c ==> is_list_item(#[trigger] children[i])
            &&& ends_group(children, c)
        }
}

/// The children of a word group whose tokens are `ts`: the `{` token, the
/// trivia tokens after it, then, when a word follows them, a `KEY` node that
/// starts at that word; when a command follows, what it makes; and then the
/// closing `}` with its trivia, where it comes.
pub open spec fn word_group_shape(ts: Seq<(Token, Seq<char>)>, children: Seq<SyntaxElement>) -> bool {
    let t = skip_trivia(ts, 1);
    &&& children.len() >= t
    &&& is_token_of(children[0], ts[0])
    &&& forall|i: int| 0 < i < t ==> is_trivia_token(#[trigger] children[i])
    &&& if t < ts.len() && (ts[t].0 == Token::Word || ts[t].0 == Token::Pipe) {
        &&& children.len() > t
        &&& children[t] matches SyntaxElement::Node(key)
        &&& key.kind == SyntaxKind::KEY.raw()
        &&& key.children@.len() > 0
        &&& is_token_of(key.children@[0], ts[t])
        &&& ends_group(children, t + 1)
    } else if t < ts.len() && ts[t].0 is CommandName {
        exists|c: int|
            {
                &&& t < c <= children.len()
                &&& forall|i: int| t <= i < c ==> !is_token_kind(#[trigger] children[i], SyntaxKind::R_CURLY)
                &&& ends_group(children, c)
            }
    } else {
        ends_group(children, t)
    }
}

/// The children of a command node that takes an optional word group, whose
/// tokens are `ts`: the command's token, the trivia tokens after it, then,
/// exactly when a `{` follows them, the word group that starts there, and
/// nothing else.
pub open spec fn command_with_word_group(ts: Seq<(Token, Seq<char>)>, children: Seq<SyntaxElement>) -> bool {
    let t = skip_trivia(ts, 1);
    &&& children.len() >= t
    &&& is_token_of(children[0], ts[0])
    &&& forall|i: int| 0 < i < t ==> is_trivia_token(#[trigger] children[i])
    &&& if t < ts.len() && ts[t].0 == Token::LCurly {
        &&& children.len() == t + 1
        &&& children[t] matches SyntaxElement::Node(g)
        &&& g.kind == SyntaxKind::CURLY_GROUP_WORD.raw()
        &&& word_group_shape(ts.skip(t), g.children@)
    } else {
        children.len() == t
    }
}

/// The children of a command node that takes one optional group of kind
/// `kind`, whose tokens are `ts`: the command's token, the trivia tokens
/// after it, then, exactly when a `{` follows them, a group of kind `kind`
/// that starts with that `{`, and nothing else.
pub open spec fn command_with_group(
    ts: Seq<(Token, Seq<char>)>,
    children: Seq<SyntaxElement>,
    kind: SyntaxKind,
) -> bool {
    let t = skip_trivia(ts, 1);
    &&& children.len() >= t
    &&& is_token_of(children[0], ts[0])
    &&& forall|i: int| 0 < i < t ==> is_trivia_token(#[trigger] children[i])
    &&& if t < ts.len() && ts[t].0 == Token::LCurly {
        &&& children.len() == t + 1
        &&& children[t] matches SyntaxElement::Node(g)
        &&& g.kind == kind.raw()
        &&& g.children@.len() > 0
        &&& is_token_of(g.children@[0], ts[t])
    } else {
        children.len() == t
    }
}

/// The trivia that follows a command's token: when the tokens after the
/// command are `rest1 == ts.skip(1)` and `k` trivia tokens of them were taken
/// to leave `rest2`, the first token that is not trivia is at `1 + k`.
proof fn lemma_after_command_trivia(
    ts: Seq<(Token, Seq<char>)>,
    rest1: Seq<(Token, Seq<char>)>,
    rest2: Seq<(Token, Seq<char>)>,
    k: int,
)
    requires
        ts.len() > 0,
        rest1 == ts.skip(1),
        0 <= k <= rest1.len(),
        rest2 == rest1.skip(k),
        forall|i: int| 0 <= i < k ==> is_trivia(#[trigger] rest1[i].0),
        rest2.len() == 0 || !is_trivia(rest2[0].0),
    ensures
        skip_trivia(ts, 1) == 1 + k,
        rest2.len() > 0 ==> rest2[0] == ts[1 + k],
{
    assert forall|q: int| 1 <= q < 1 + k implies is_trivia(#[trigger] ts[q].0) by {
        assert(rest1[q - 1] == ts[q]);
    }
    if 1 + k < ts.len() {
        assert(rest2[0] == ts[1 + k]);
    }
    lemma_skip_trivia(ts, 1, k);
}

/// The kind of the one optional group that a command with token `t` takes,
/// for the commands that take exactly one: a bibliography item's key and a
/// color's name are word groups, the labels of a reference and the libraries
/// of a TikZ import are lists of words, and `\numberline` takes a curly group.
pub open spec fn group_command_kind(t: Token) -> Option<SyntaxKind> {
    match t {
        Token::CommandName(CommandName::BibItem) => Some(SyntaxKind::CURLY_GROUP_WORD),
        Token::CommandName(CommandName::ColorReference) => Some(SyntaxKind::CURLY_GROUP_WORD),
        Token::CommandName(CommandName::LabelReference) => Some(SyntaxKind::CURLY_GROUP_WORD_LIST),
        Token::CommandName(CommandName::TikzLibraryImport) => Some(SyntaxKind::CURLY_GROUP_WORD_LIST),
        Token::CommandName(CommandName::TocNumberLine) => Some(SyntaxKind::CURLY_GROUP),
        _ => None,
    }
}

/// The children of a command node from child `i` on, when the tokens from
/// position `pos` of `ts` on are read by the optional groups `args` in turn,
/// each given by its opening token and its node kind: a group whose opening
/// token comes next is there, as a node of its kind that takes the tokens
/// from there on; a group whose opening token does not come next is absent;
/// and no other child follows.
pub open spec fn optional_groups(
    ts: Seq<(Token, Seq<char>)>,
    pos: int,
    children: Seq<SyntaxElement>,
    i: int,
    args: Seq<(Token, SyntaxKind)>,
) -> bool
    decreases args.len(),
{
    if args.len() == 0 {
        i == children.len()
    } else if 0 <= pos < ts.len() && ts[pos].0 == args[0].0 {
        &&& 0 <= i < children.len()
        &&& children[i] matches SyntaxElement::Node(g)
        &&& g.kind == args[0].1.raw()
        &&& g.leaves().len() > 0
        &&& optional_groups(ts, pos + g.leaves().len(), children, i + 1, args.drop_first())
    } else {
        optional_groups(ts, pos, children, i, args.drop_first())
    }
}

/// The children of a command node whose tokens are `ts` and that takes the
/// optional groups `args`: the command's token, the trivia tokens after it,
/// then the groups as `optional_groups` reads them.
pub open spec fn command_with_groups(
    ts: Seq<(Token, Seq<char>)>,
    children: Seq<SyntaxElement>,
    args: Seq<(Token, SyntaxKind)>,
) -> bool {
    let t = skip_trivia(ts, 1);
    &&& children.len() >= t
    &&& is_token_of(children[0], ts[0])
    &&& forall|i: int| 0 < i < t ==> is_trivia_token(#[trigger] children[i])
    &&& optional_groups(ts, t, children, t, args)
}

/// One step of `optional_groups`: the first group is there as the node at
/// child `i`, taking the tokens from `pos` to `pos2`, or its opening token
/// does not come next and nothing was taken; either way the rest of the
/// groups are read from `pos2` and child `i2` on.
proof fn lemma_groups_step(
    ts: Seq<(Token, Seq<char>)>,
    pos: int,
    pos2: int,
    children: Seq<SyntaxElement>,
    i: int,
    i2: int,
    args: Seq<(Token, SyntaxKind)>,
)
    requires
        args.len() > 0,
        optional_groups(ts, pos2, children, i2, args.drop_first()),
        if 0 <= pos < ts.len() && ts[pos].0 == args[0].0 {
            &&& 0 <= i < children.len()
            &&& i2 == i + 1
            &&& children[i] matches SyntaxElement::Node(g)
            &&& g.kind == args[0].1.raw()
            &&& g.leaves().len() > 0
            &&& pos2 == pos + g.leaves().len()
        } else {
            i2 == i && pos2 == pos
        },
    ensures
        optional_groups(ts, pos, children, i, args),
{
}

/// A group that was read: the tokens left after it are those after the
/// tokens it holds.
proof fn lemma_group_read(ts: Seq<(Token, Seq<char>)>, pos: int, p1: Parser, p2: Parser, g: SyntaxNode, kind: SyntaxKind)
    requires
        0 <= pos <= ts.len(),
        p1.tokens() == ts.skip(pos),
        builds(p1, p2, g, kind),
    ensures
        g.leaves().len() == p1.left() - p2.left(),
        g.leaves().len() > 0,
        p2.tokens() == ts.skip(pos + g.leaves().len()),
{
    assert(p1.rest_tokens().len() == p1.left());
    assert(p2.rest_tokens().len() == p2.left());
    super::progress::lemma_follows_unfold(p1.tokens(), p2.tokens());
    assert(p2.tokens() =~= ts.skip(pos + g.leaves().len()));
}

/// Whether a generic command's arguments go on with a token `t`: trivia, or
/// the opening of a curly, square or round group.
pub open spec fn continues_arguments(t: Token) -> bool {
    is_trivia(t) || t == Token::LCurly || t == Token::LBrack || t == Token::LParen
}

/// Whether `e` may follow a generic command's name among its children: a
/// trivia token, a curly group or a mixed group.
pub open spec fn is_argument_element(e: SyntaxElement) -> bool {
    is_trivia_token(e) || is_node_of_kind(e, SyntaxKind::CURLY_GROUP) || is_node_of_kind(
        e,
        SyntaxKind::MIXED_GROUP,
    )
}

/// The first children of a command node whose tokens are `ts`, which may
/// start with a group opened by `opener`: the command's token, the trivia
/// tokens after it, and, when `opener` follows them, a node of kind `kind`
/// that takes the tokens from there on.
pub open spec fn heading_group(
    ts: Seq<(Token, Seq<char>)>,
    children: Seq<SyntaxElement>,
    opener: Token,
    kind: SyntaxKind,
) -> bool {
    let t = skip_trivia(ts, 1);
    &&& 1 <= t <= children.len()
    &&& is_token_of(children[0], ts[0])
    &&& forall|i: int| 0 < i < t ==> is_trivia_token(#[trigger] children[i])
    &&& t < ts.len() && ts[t].0 == opener ==> children.len() > t && is_node_of_kind(children[t], kind)
}

/// Children that only grow keep their heading.
proof fn lemma_heading_group_extends(
    ts: Seq<(Token, Seq<char>)>,
    head: Seq<SyntaxElement>,
    children: Seq<SyntaxElement>,
    opener: Token,
    kind: SyntaxKind,
)
    requires
        heading_group(ts, head, opener, kind),
        head.len() <= children.len(),
        forall|i: int| 0 <= i < head.len() ==> #[trigger] children[i] == head[i],
    ensures
        heading_group(ts, children, opener, kind),
{
    let t = skip_trivia(ts, 1);
    assert forall|i: int| 0 < i < t implies is_trivia_token(#[trigger] children[i]) by {
        assert(children[i] == head[i]);
    }
    if t < ts.len() && ts[t].0 == opener {
        assert(children[t] == head[t]);
    }
    assert(children[0] == head[0]);
}

/// Whether a run of text goes on with a token `t`: a word, a pipe, trivia,
/// or a comma where commas are allowed.
pub open spec fn continues_text(t: Token, context: ParserContext) -> bool {
    t == Token::Word || t == Token::Pipe || is_trivia(t) || (t == Token::Comma && context.allow_comma)
}

/// Whether `e` is a node of kind `k`.
pub open spec fn is_node_of_kind(e: SyntaxElement, k: SyntaxKind) -> bool {
    match e {
        SyntaxElement::Node(n) => n.kind == k.raw(),
        SyntaxElement::Token(_) => false,
    }
}

/// Whether `e` is an `ERROR` node that holds the token `tok` and nothing
/// else.
pub open spec fn is_error_around(e: SyntaxElement, tok: (Token, Seq<char>)) -> bool {
    match e {
        SyntaxElement::Node(n) => n.kind == SyntaxKind::ERROR.raw() && n.children@.len() == 1
            && is_token_of(n.children@[0], tok),
        SyntaxElement::Token(_) => false,
    }
}

/// The kind of the node that `content` makes of content that starts with the
/// token `t`: none for a token that it takes as it is (trivia and `=`) and
/// for a verbatim command, which adds several elements.
pub open spec fn content_node_kind(t: Token, context: ParserContext) -> Option<SyntaxKind> {
    match t {
        Token::LineBreak | Token::Whitespace | Token::LineComment | Token::Eq => None,
        Token::LCurly => Some(SyntaxKind::CURLY_GROUP),
        Token::LBrack | Token::LParen => Some(SyntaxKind::MIXED_GROUP),
        Token::RCurly | Token::RBrack | Token::RParen => Some(SyntaxKind::ERROR),
        Token::Pipe | Token::Word | Token::Comma => Some(SyntaxKind::TEXT),
        Token::Dollar => Some(SyntaxKind::FORMULA),
        Token::CommandName(name) => match name {
            CommandName::BeginEnvironment => if context.allow_environment {
                Some(SyntaxKind::ENVIRONMENT)
            } else {
                Some(SyntaxKind::GENERIC_COMMAND)
            },
            CommandName::VerbatimBlock => None,
                CommandName::Generic => Some(SyntaxKind::GENERIC_COMMAND),
                CommandName::EndEnvironment => Some(SyntaxKind::GENERIC_COMMAND),
                CommandName::BeginEquation => Some(SyntaxKind::EQUATION),
                CommandName::EndEquation => Some(SyntaxKind::GENERIC_COMMAND),
                CommandName::Section(level) => Some(section_kind(level)),
                CommandName::Paragraph(level) => Some(paragraph_kind(level)),
                CommandName::EnumItem => Some(SyntaxKind::ENUM_ITEM),
                CommandName::Caption => Some(SyntaxKind::CAPTION),
                CommandName::Citation => Some(SyntaxKind::CITATION),
                CommandName::PackageInclude => Some(SyntaxKind::PACKAGE_INCLUDE),
                CommandName::ClassInclude => Some(SyntaxKind::CLASS_INCLUDE),
                CommandName::LatexInclude => Some(SyntaxKind::LATEX_INCLUDE),
                CommandName::BiblatexInclude => Some(SyntaxKind::BIBLATEX_INCLUDE),
                CommandName::BibtexInclude => Some(SyntaxKind::BIBTEX_INCLUDE),
                CommandName::GraphicsInclude => Some(SyntaxKind::GRAPHICS_INCLUDE),
                CommandName::SvgInclude => Some(SyntaxKind::SVG_INCLUDE),
                CommandName::InkscapeInclude => Some(SyntaxKind::INKSCAPE_INCLUDE),
                CommandName::VerbatimInclude => Some(SyntaxKind::VERBATIM_INCLUDE),
                CommandName::Import => Some(SyntaxKind::IMPORT),
                CommandName::LabelDefinition => Some(SyntaxKind::LABEL_DEFINITION),
                CommandName::LabelReference => Some(SyntaxKind::LABEL_REFERENCE),
                CommandName::LabelReferenceRange => Some(SyntaxKind::LABEL_REFERENCE_RANGE),
                CommandName::LabelNumber => Some(SyntaxKind::LABEL_NUMBER),
                CommandName::OldCommandDefinition => Some(SyntaxKind::OLD_COMMAND_DEFINITION),
                CommandName::NewCommandDefinition => Some(SyntaxKind::COMMAND_DEFINITION),
                CommandName::MathOperator => Some(SyntaxKind::MATH_OPERATOR),
                CommandName::GlossaryEntryDefinition => Some(SyntaxKind::GLOSSARY_ENTRY_DEFINITION),
                CommandName::GlossaryEntryReference => Some(SyntaxKind::GLOSSARY_ENTRY_REFERENCE),
                CommandName::AcronymDefinition => Some(SyntaxKind::ACRONYM_DEFINITION),
                CommandName::AcronymDeclaration => Some(SyntaxKind::ACRONYM_DECLARATION),
                CommandName::AcronymReference => Some(SyntaxKind::ACRONYM_REFERENCE),
                CommandName::TheoremDefinitionAmsThm => Some(SyntaxKind::THEOREM_DEFINITION_AMSTHM),
                CommandName::TheoremDefinitionThmTools => Some(SyntaxKind::THEOREM_DEFINITION_THMTOOLS),
                CommandName::ColorReference => Some(SyntaxKind::COLOR_REFERENCE),
                CommandName::ColorDefinition => Some(SyntaxKind::COLOR_DEFINITION),
                CommandName::ColorSetDefinition => Some(SyntaxKind::COLOR_SET_DEFINITION),
                CommandName::TikzLibraryImport => Some(SyntaxKind::TIKZ_LIBRARY_IMPORT),
                CommandName::EnvironmentDefinition => Some(SyntaxKind::ENVIRONMENT_DEFINITION),
                CommandName::BeginBlockComment => Some(SyntaxKind::BLOCK_COMMENT),
                CommandName::EndBlockComment => Some(SyntaxKind::GENERIC_COMMAND),
                CommandName::GraphicsPath => Some(SyntaxKind::GRAPHICS_PATH),
                CommandName::BibItem => Some(SyntaxKind::BIBITEM),
                CommandName::TocContentsLine => Some(SyntaxKind::TOC_CONTENTS_LINE),
                CommandName::TocNumberLine => Some(SyntaxKind::TOC_NUMBER_LINE),
        },
    }
}

/// Options for the tokens that a key may hold.
#[derive(Debug, Clone, Copy)]
pub struct KeyOptions {
    pub allow_eq: bool,
    pub allow_parens: bool,
    pub allow_bracks: bool,
}

/// Children that open with `{`, hold no `}` token before child `c` and end
/// there are closed as a curly group's children must be.
proof fn lemma_curly_closed(children: Seq<SyntaxElement>, c: int)
    requires
        children.len() > 0,
        is_token_kind(children[0], SyntaxKind::L_CURLY),
        forall|i: int| 0 < i < c ==> !is_token_kind(#[trigger] children[i], SyntaxKind::R_CURLY),
        ends_group(children, c),
    ensures
        curly_closed(elements_view(children)),
{
    crate::tree::lemma_elements_view_index(children);
}

/// A node of kind `kind` with `children`.
fn node(kind: SyntaxKind, children: Vec<SyntaxElement>) -> (n: SyntaxNode)
    ensures
        n.kind == kind.raw(),
        n.children@ == children@,
        n.text() == elements_text(children@),
        n.leaves() == elements_leaves(children@),
        kind != SyntaxKind::ERROR && kind != SyntaxKind::CURLY_GROUP && kind
            != SyntaxKind::CURLY_GROUP_WORD && kind != SyntaxKind::CURLY_GROUP_WORD_LIST ==> errors_ok(
            n.view(),
        ) == seq_errors_ok(elements_view(children@)),
        kind == SyntaxKind::CURLY_GROUP_WORD || kind == SyntaxKind::CURLY_GROUP_WORD_LIST ==> errors_ok(
            n.view(),
        ) == (seq_errors_ok(elements_view(children@)) && curly_closed(elements_view(children@))),
        kind == SyntaxKind::CURLY_GROUP ==> errors_ok(n.view()) == (seq_errors_ok(
            elements_view(children@),
        ) && no_curly_errors(elements_view(children@)) && curly_closed(elements_view(children@))),
{
    SyntaxNode { kind: kind.to_raw(), children }
}

impl Parser {
    /// A parser of `text`.
    pub fn new(text: &str, config: &SyntaxConfig) -> (p: Self)
        ensures
            p.tokens() == lex(text@, crate::config::string_set_contents(config.citation_commands)),
            p.rest() == text@,
    {
        let p = Parser { lexer: Lexer::new(text, config) };
        proof {
            super::lexer::lemma_lex_lossless(
                text@,
                crate::config::string_set_contents(config.citation_commands),
            );
        }
        p
    }

    /// Takes a token of kind `kind1` or `kind2`, with the trivia after it, if
    /// one comes next.
    fn expect2(&mut self, out: &mut Vec<SyntaxElement>, kind1: Token, kind2: Token)
        ensures
            takes(*old(self), *final(self), old(out)@, final(out)@),
            extends(old(out)@, final(out)@),
            !(next_is(*old(self), kind1) || next_is(*old(self), kind2)) ==> *final(self) == *old(
                self,
            ) && final(out)@ == old(out)@,
            next_is(*old(self), kind1) || next_is(*old(self), kind2) ==> {
                &&& final(self).left() < old(self).left()
                &&& final(self).tokens() == old(self).tokens().skip(
                    old(self).left() - final(self).left(),
                )
                &&& forall|i: int|
                    1 <= i < old(self).left() - final(self).left() ==> is_trivia(
                        #[trigger] old(self).tokens()[i].0,
                    )
                &&& final(self).left() == 0 || !is_trivia(final(self).tokens()[0].0)
                &&& final(out)@.len() > old(out)@.len()
                &&& elements_view(final(out)@)[old(out)@.len() as int] == GreenView::Token(
                    token_syntax_kind(old(self).tokens()[0].0).raw(),
                    old(self).tokens()[0].1,
                )
            },
    {
        let ghost p0 = *self;
        let ghost o0 = out@;
        let next = self.peek();
        if next == Some(kind1) || next == Some(kind2) {
            self.eat(out);
            let ghost p1 = *self;
            let ghost o1 = out@;
            self.trivia(out);
            proof {
                let k = p1.left() - self.left();
                assert(self.lexer@ =~= p0.lexer@.skip(k + 1));
                assert forall|i: int| 1 <= i < p0.left() - self.left() implies is_trivia(
                    #[trigger] p0.lexer@[i].0,
                ) by {
                    assert(p1.lexer@[i - 1] == p0.lexer@[i]);
                }
                crate::tree::lemma_elements_view_index(o0);
                crate::tree::lemma_elements_view_index(o1);
                crate::tree::lemma_elements_view_index(out@);
                assert(o1.len() == o0.len() + 1);
                assert(out@[o0.len() as int] == o1[o0.len() as int]);
                assert(elements_view(o1)[o0.len() as int] == GreenView::Token(
                    token_syntax_kind(p0.tokens()[0].0).raw(),
                    p0.tokens()[0].1,
                ));
                assert(elements_view(out@)[o0.len() as int] == elements_view(o1)[o0.len() as int]);
                assert(self.tokens() == p0.tokens().skip(p0.left() - self.left()));
                assert(self.left() == 0 || !is_trivia(self.tokens()[0].0));
            }
        }
    }

    /// Parses the whole text into a tree whose root is a `ROOT` node; its
    /// first child is the `PREAMBLE`.
    pub fn parse_tree(self) -> (n: SyntaxNode)
        ensures
            n.kind == SyntaxKind::ROOT.raw(),
            n.text() == self.rest(),
            n.leaves() == self.rest_tokens(),
            errors_ok(n.view()),
            n.children@.len() > 0,
            n.children@[0] matches SyntaxElement::Node(preamble) && preamble.kind
                == SyntaxKind::PREAMBLE.raw(),
    {
        let mut parser = self;
        let ghost p0 = parser;
        let mut children: Vec<SyntaxElement> = Vec::new();
        proof {
            assert(elements_view(children@) =~= Seq::<GreenView>::empty());
            assert(seq_errors_ok(Seq::<GreenView>::empty()));
        }
        let preamble = parser.preamble();
        push_node(&mut children, preamble);
        while parser.peek().is_some()
            invariant
                elements_text(children@) + parser.rest() == p0.rest(),
                elements_leaves(children@) + parser.rest_tokens() == p0.rest_tokens(),
                seq_errors_ok(elements_view(children@)),
                children@.len() > 0,
                children@[0] matches SyntaxElement::Node(preamble) && preamble.kind
                    == SyntaxKind::PREAMBLE.raw(),
            decreases parser.left(),
        {
            parser.content(&mut children, ParserContext::default());
        }
        proof {
            assert(parser.rest() =~= Seq::<char>::empty());
            assert(elements_text(children@) + Seq::<char>::empty() =~= elements_text(children@));
            assert(parser.rest_tokens() =~= Seq::<Seq<char>>::empty());
            assert(elements_leaves(children@) + Seq::<Seq<char>>::empty() =~= elements_leaves(children@));
        }
        node(SyntaxKind::ROOT, children)
    }

    /// Parses one piece of content into `out`: a token, a group, a command
    /// with its arguments, an environment, a formula or a run of text.
    #[verifier::rlimit(40)]
    fn content(&mut self, out: &mut Vec<SyntaxElement>, context: ParserContext)
        requires
            old(self).left() > 0,
        ensures
            final(self).left() < old(self).left(),
            takes(*old(self), *final(self), old(out)@, final(out)@),
            extends(old(out)@, final(out)@),
            final(out)@.len() > old(out)@.len(),
            content_node_kind(old(self).tokens()[0].0, context) matches Some(k) ==> {
                &&& final(out)@.len() == old(out)@.len() + 1
                &&& is_node_of_kind(final(out)@.last(), k)
            },
            is_trivia(old(self).tokens()[0].0) || old(self).tokens()[0].0 == Token::Eq ==> {
                &&& final(out)@.len() == old(out)@.len() + 1
                &&& is_token_of(final(out)@.last(), old(self).tokens()[0])
            },
            old(self).tokens()[0].0 == Token::RCurly || old(self).tokens()[0].0 == Token::RBrack
                || old(self).tokens()[0].0 == Token::RParen ==> is_error_around(
                final(out)@.last(),
                old(self).tokens()[0],
            ),
            old(self).tokens()[0].0 != Token::RCurly ==> forall|i: int|
                old(out)@.len() <= i < final(out)@.len() ==> !is_curly_error(
                    (#[trigger] final(out)@[i]).view(),
                ),
            forall|i: int|
                old(out)@.len() <= i < final(out)@.len() ==> !is_token_kind(
                    #[trigger] final(out)@[i],
                    SyntaxKind::R_CURLY,
                ),
            group_command_kind(old(self).tokens()[0].0) matches Some(k) ==> (final(out)@.last() matches SyntaxElement::Node(n)
                && command_with_group(old(self).tokens(), n.children@, k)),
            old(self).tokens()[0].0 == Token::CommandName(CommandName::VerbatimBlock) ==> {
                &&& elements_view(final(out)@) == elements_view(old(out)@) + verbatim_views(
                    old(self).tokens(),
                )
                &&& final(self).tokens() == old(self).tokens().skip(
                    verbatim_length(old(self).tokens()),
                )
            },
        decreases old(self).left(), 3nat,
    {
        match self.peek().unwrap() {
            Token::LineBreak | Token::Whitespace | Token::LineComment => self.eat(out),
            Token::LCurly => {
                if context.allow_environment {
                    let n = self.curly_group();
                    push_node(out, n);
                } else {
                    let n = self.curly_group_without_environments();
                    push_node(out, n);
                }
            },
            Token::LBrack | Token::LParen => {
                let n = self.mixed_group();
                push_node(out, n);
            },
            Token::RCurly | Token::RBrack | Token::RParen => {
                let ghost p0 = *self;
                let mut children: Vec<SyntaxElement> = Vec::new();
                self.eat(&mut children);
                let n = node(SyntaxKind::ERROR, children);
                push_node(out, n);
            },
            Token::Pipe | Token::Word | Token::Comma => {
                let n = self.text(context);
                push_node(out, n);
            },
            Token::Eq => self.eat(out),
            Token::Dollar => {
                let n = self.formula();
                push_node(out, n);
            },
            Token::CommandName(name) => match name {
                CommandName::Generic => {
                    let n = self.generic_command();
                    push_node(out, n);
                },
                CommandName::BeginEnvironment => {
                    if context.allow_environment {
                        let n = self.environment();
                        push_node(out, n);
                    } else {
                        let n = self.generic_command();
                        push_node(out, n);
                    }
                },
                CommandName::EndEnvironment => {
                    let n = self.generic_command();
                    push_node(out, n);
                },
                CommandName::BeginEquation => {
                    let n = self.equation();
                    push_node(out, n);
                },
                CommandName::EndEquation => {
                    let n = self.generic_command();
                    push_node(out, n);
                },
                CommandName::Section(level) => {
                    let n = self.section(level);
                    push_node(out, n);
                },
                CommandName::Paragraph(level) => {
                    let n = self.paragraph(level);
                    push_node(out, n);
                },
                CommandName::EnumItem => {
                    let n = self.enum_item();
                    push_node(out, n);
                },
                CommandName::Caption => {
                    let n = self.caption();
                    push_node(out, n);
                },
                CommandName::Citation => {
                    let n = self.citation();
                    push_node(out, n);
                },
                CommandName::PackageInclude => {
                    let n = self.package_include();
                    push_node(out, n);
                },
                CommandName::ClassInclude => {
                    let n = self.class_include();
                    push_node(out, n);
                },
                CommandName::LatexInclude => {
                    let n = self.latex_include();
                    push_node(out, n);
                },
                CommandName::BiblatexInclude => {
                    let n = self.biblatex_include();
                    push_node(out, n);
                },
                CommandName::BibtexInclude => {
                    let n = self.bibtex_include();
                    push_node(out, n);
                },
                CommandName::GraphicsInclude => {
                    let n = self.graphics_include();
                    push_node(out, n);
                },
                CommandName::SvgInclude => {
                    let n = self.svg_include();
                    push_node(out, n);
                },
                CommandName::InkscapeInclude => {
                    let n = self.inkscape_include();
                    push_node(out, n);
                },
                CommandName::VerbatimInclude => {
                    let n = self.verbatim_include();
                    push_node(out, n);
                },
                CommandName::Import => {
                    let n = self.import();
                    push_node(out, n);
                },
                CommandName::LabelDefinition => {
                    let n = self.label_definition();
                    push_node(out, n);
                },
                CommandName::LabelReference => {
                    let n = self.label_reference();
                    push_node(out, n);
                },
                CommandName::LabelReferenceRange => {
                    let n = self.label_reference_range();
                    push_node(out, n);
                },
                CommandName::LabelNumber => {
                    let n = self.label_number();
                    push_node(out, n);
                },
                CommandName::OldCommandDefinition => {
                    let n = self.old_command_definition();
                    push_node(out, n);
                },
                CommandName::NewCommandDefinition => {
                    let n = self.new_command_definition();
                    push_node(out, n);
                },
                CommandName::MathOperator => {
                    let n = self.math_operator();
                    push_node(out, n);
                },
                CommandName::GlossaryEntryDefinition => {
                    let n = self.glossary_entry_definition();
                    push_node(out, n);
                },
                CommandName::GlossaryEntryReference => {
                    let n = self.glossary_entry_reference();
                    push_node(out, n);
                },
                CommandName::AcronymDefinition => {
                    let n = self.acronym_definition();
                    push_node(out, n);
                },
                CommandName::AcronymDeclaration => {
                    let n = self.acronym_declaration();
                    push_node(out, n);
                },
                CommandName::AcronymReference => {
                    let n = self.acronym_reference();
                    push_node(out, n);
                },
                CommandName::TheoremDefinitionAmsThm => {
                    let n = self.theorem_definition_amsthm();
                    push_node(out, n);
                },
                CommandName::TheoremDefinitionThmTools => {
                    let n = self.theorem_definition_thmtools();
                    push_node(out, n);
                },
                CommandName::ColorReference => {
                    let n = self.color_reference();
                    push_node(out, n);
                },
                CommandName::ColorDefinition => {
                    let n = self.color_definition();
                    push_node(out, n);
                },
                CommandName::ColorSetDefinition => {
                    let n = self.color_set_definition();
                    push_node(out, n);
                },
                CommandName::TikzLibraryImport => {
                    let n = self.tikz_library_import();
                    push_node(out, n);
                },
                CommandName::EnvironmentDefinition => {
                    let n = self.environment_definition();
                    push_node(out, n);
                },
                CommandName::BeginBlockComment => {
                    let n = self.block_comment();
                    push_node(out, n);
                },
                CommandName::EndBlockComment => {
                    let n = self.generic_command();
                    push_node(out, n);
                },
                CommandName::VerbatimBlock => self.verbatim_block(out),
                CommandName::GraphicsPath => {
                    let n = self.graphics_path();
                    push_node(out, n);
                },
                CommandName::BibItem => {
                    let n = self.bibitem();
                    push_node(out, n);
                },
                CommandName::TocContentsLine => {
                    let n = self.toc_contents_line();
                    push_node(out, n);
                },
                CommandName::TocNumberLine => {
                    let n = self.toc_number_line();
                    push_node(out, n);
                },
            },
        }
    }

    /// A run of words, pipes, commas (where allowed) and trivia.
    fn text(&mut self, context: ParserContext) -> (n: SyntaxNode)
        requires
            old(self).left() > 0,
        ensures
            builds(*old(self), *final(self), n, SyntaxKind::TEXT),
            forall|i: int| 0 <= i < n.children@.len() ==> (#[trigger] n.children@[i]) is Token,
            final(self).left() == 0 || !continues_text(final(self).tokens()[0].0, context),
        decreases old(self).left(), 1nat,
    {
        let ghost p0 = *self;
        let mut children: Vec<SyntaxElement> = Vec::new();
        self.eat(&mut children);
        loop
            invariant
                p0 == *old(self),
                elements_text(children@) + self.rest() == p0.rest(),
                elements_leaves(children@) + self.rest_tokens() == p0.rest_tokens(),
                follows(p0.tokens(), self.tokens()),
                seq_errors_ok(elements_view(children@)),
                self.left() < p0.left(),
                forall|i: int| 0 <= i < children@.len() ==> (#[trigger] children@[i]) is Token,
            ensures
                self.left() == 0 || !continues_text(self.tokens()[0].0, context),
            decreases self.left(),
        {
            match self.peek() {
                Some(Token::LineBreak) | Some(Token::Whitespace) | Some(Token::LineComment) | Some(
                    Token::Word,
                ) | Some(Token::Pipe) => self.eat(&mut children),
                Some(Token::Comma) => {
                    if context.allow_comma {
                        self.eat(&mut children);
                    } else {
                        break ;
                    }
                },
                _ => break ,
            }
        }
        node(SyntaxKind::TEXT, children)
    }

    /// `{` with any content up to a matching `}`.
    fn curly_group(&mut self) -> (n: SyntaxNode)
        requires
            old(self).left() > 0,
            next_is(*old(self), Token::LCurly),
        ensures
            builds(*old(self), *final(self), n, SyntaxKind::CURLY_GROUP),
            curly_group_shape(*old(self), *final(self), n.children@),
        decreases old(self).left(), 1nat,
    {
        let ghost p0 = *self;
        let mut children: Vec<SyntaxElement> = Vec::new();
        self.eat(&mut children);
        while self.peek().is_some() && !matches!(self.peek(), Some(Token::RCurly))
            invariant
                p0 == *old(self),
                elements_text(children@) + self.rest() == p0.rest(),
                elements_leaves(children@) + self.rest_tokens() == p0.rest_tokens(),
                follows(p0.tokens(), self.tokens()),
                seq_errors_ok(elements_view(children@)),
                self.left() < p0.left(),
                forall|i: int| 0 <= i < children@.len() ==> !is_curly_error((#[trigger] children@[i]).view()),
                children@.len() > 0,
                is_token_of(children@[0], p0.tokens()[0]),
                forall|i: int| 0 < i < children@.len() ==> !is_token_kind(#[trigger] children@[i], SyntaxKind::R_CURLY),
            decreases self.left(),
        {
            self.content(&mut children, ParserContext::default());
        }
        let ghost before = children@;
        let ghost q = *self;
        self.expect(&mut children, Token::RCurly);
        proof {
            crate::tree::lemma_elements_view_index(children@);
            if next_is(q, Token::RCurly) {
                assert(closes_at(children@, before.len() as int));
            }
        }
        node(SyntaxKind::CURLY_GROUP, children)
    }

    /// The body of a command definition: like a curly group, but `\begin` and
    /// `\end` stand alone there instead of making an environment.
    fn curly_group_impl(&mut self) -> (n: SyntaxNode)
        requires
            old(self).left() > 0,
            next_is(*old(self), Token::LCurly),
        ensures
            builds(*old(self), *final(self), n, SyntaxKind::CURLY_GROUP),
            curly_group_shape(*old(self), *final(self), n.children@),
        decreases old(self).left(), 1nat,
    {
        let ghost p0 = *self;
        let mut children: Vec<SyntaxElement> = Vec::new();
        self.eat(&mut children);
        loop
            invariant
                p0 == *old(self),
                elements_text(children@) + self.rest() == p0.rest(),
                elements_leaves(children@) + self.rest_tokens() == p0.rest_tokens(),
                follows(p0.tokens(), self.tokens()),
                seq_errors_ok(elements_view(children@)),
                self.left() < p0.left(),
                forall|i: int| 0 <= i < children@.len() ==> !is_curly_error((#[trigger] children@[i]).view()),
                children@.len() > 0,
                is_token_of(children@[0], p0.tokens()[0]),
                forall|i: int| 0 < i < children@.len() ==> !is_token_kind(#[trigger] children@[i], SyntaxKind::R_CURLY),
            ensures
                self.left() == 0 || next_is(*self, Token::RCurly),
            decreases self.left(),
        {
            match self.peek() {
                None => break ,
                Some(Token::RCurly) => break ,
                Some(Token::CommandName(CommandName::BeginEnvironment)) => {
                    let child = self.begin();
                    push_node(&mut children, child);
                },
                Some(Token::CommandName(CommandName::EndEnvironment)) => {
                    let child = self.end();
                    push_node(&mut children, child);
                },
                Some(_) => self.content(&mut children, ParserContext::default()),
            }
        }
        let ghost before = children@;
        let ghost q = *self;
        self.expect(&mut children, Token::RCurly);
        proof {
            crate::tree::lemma_elements_view_index(children@);
            if next_is(q, Token::RCurly) {
                assert(closes_at(children@, before.len() as int));
            }
        }
        node(SyntaxKind::CURLY_GROUP, children)
    }

    /// A curly group in which `\begin` does not start an environment.
    fn curly_group_without_environments(&mut self) -> (n: SyntaxNode)
        requires
            old(self).left() > 0,
            next_is(*old(self), Token::LCurly),
        ensures
            builds(*old(self), *final(self), n, SyntaxKind::CURLY_GROUP),
            curly_group_shape(*old(self), *final(self), n.children@),
        decreases old(self).left(), 1nat,
    {
        let ghost p0 = *self;
        let mut children: Vec<SyntaxElement> = Vec::new();
        self.eat(&mut children);
        while self.peek().is_some() && !matches!(self.peek(), Some(Token::RCurly))
            invariant
                p0 == *old(self),
                elements_text(children@) + self.rest() == p0.rest(),
                elements_leaves(children@) + self.rest_tokens() == p0.rest_tokens(),
                follows(p0.tokens(), self.tokens()),
                seq_errors_ok(elements_view(children@)),
                self.left() < p0.left(),
                forall|i: int| 0 <= i < children@.len() ==> !is_curly_error((#[trigger] children@[i]).view()),
                children@.len() > 0,
                is_token_of(children@[0], p0.tokens()[0]),
                forall|i: int| 0 < i < children@.len() ==> !is_token_kind(#[trigger] children@[i], SyntaxKind::R_CURLY),
            decreases self.left(),
        {
            self.content(&mut children, ParserContext { allow_environment: false, allow_comma: true });
        }
        let ghost before = children@;
        let ghost q = *self;
        self.expect(&mut children, Token::RCurly);
        proof {
            crate::tree::lemma_elements_view_index(children@);
            if next_is(q, Token::RCurly) {
                assert(closes_at(children@, before.len() as int));
            }
        }
        node(SyntaxKind::CURLY_GROUP, children)
    }

    /// `{` with one key or one command, then `}`.
    fn curly_group_word(&mut self) -> (n: SyntaxNode)
        requires
            old(self).left() > 0,
            next_is(*old(self), Token::LCurly),
        ensures
            builds(*old(self), *final(self), n, SyntaxKind::CURLY_GROUP_WORD),
            word_group_shape(old(self).tokens(), n.children@),
        decreases old(self).left(), 1nat,
    {
        let ghost p0 = *self;
        let ghost ts = p0.lexer@;
        let mut children: Vec<SyntaxElement> = Vec::new();
        self.eat(&mut children);
        let ghost c1 = children@;
        let ghost q1 = *self;
        self.trivia(&mut children);
        let ghost k1 = q1.left() - self.left();
        let ghost t = 1 + k1;
        proof {
            assert(q1.lexer@ =~= ts.skip(1));
            assert forall|q: int| 1 <= q < 1 + k1 implies is_trivia(#[trigger] ts[q].0) by {
                assert(q1.lexer@[q - 1] == ts[q]);
            }
            assert(self.lexer@ =~= ts.skip(1 + k1));
            if 1 + k1 < ts.len() {
                assert(self.lexer@[0] == ts[1 + k1]);
            }
            lemma_skip_trivia(ts, 1, k1);
            assert(children@[0] == c1[0]);
        }
        let ghost g0 = children@;
        match self.peek() {
            Some(Token::Word) | Some(Token::Pipe) => {
                let child = self.key();
                assert(is_token_of(child.children@[0], ts[t]));
                push_node(&mut children, child);
                assert(children@[t] == SyntaxElement::Node(child));
            },
            Some(Token::CommandName(_)) => {
                self.content(&mut children, ParserContext::default());
            },
            _ => {},
        }
        let ghost before = children@;
        let ghost q = *self;
        self.expect(&mut children, Token::RCurly);
        proof {
            assert forall|i: int| 0 <= i < before.len() implies #[trigger] children@[i] == before[i] by {}
            assert forall|i: int| 0 <= i < t implies #[trigger] before[i] == g0[i] by {}
            assert forall|i: int| 0 < i < before.len() implies !is_token_kind(#[trigger] children@[i], SyntaxKind::R_CURLY) by {
                assert(children@[i] == before[i]);
                if i < t {
                    assert(before[i] == g0[i]);
                    assert(is_trivia_token(g0[i]));
                }
            }
            if next_is(q, Token::RCurly) {
                assert(closes_at(children@, before.len() as int));
            }
            assert(ends_group(children@, before.len() as int));
            lemma_curly_closed(children@, before.len() as int);
        }
        node(SyntaxKind::CURLY_GROUP_WORD, children)
    }

    /// `{` with keys separated by commas and trivia, then `}`.
    fn curly_group_word_list(&mut self) -> (n: SyntaxNode)
        requires
            old(self).left() > 0,
            next_is(*old(self), Token::LCurly),
        ensures
            builds(*old(self), *final(self), n, SyntaxKind::CURLY_GROUP_WORD_LIST),
            word_list_shape(*old(self), n.children@),
        decreases old(self).left(), 1nat,
    {
        let ghost p0 = *self;
        let mut children: Vec<SyntaxElement> = Vec::new();
        self.eat(&mut children);
        loop
            invariant
                p0 == *old(self),
                elements_text(children@) + self.rest() == p0.rest(),
                elements_leaves(children@) + self.rest_tokens() == p0.rest_tokens(),
                follows(p0.tokens(), self.tokens()),
                seq_errors_ok(elements_view(children@)),
                self.left() < p0.left(),
                children@.len() > 0,
                is_token_of(children@[0], p0.tokens()[0]),
                forall|i: int| 0 < i < children@.len() ==> is_list_item(#[trigger] children@[i]),
            decreases self.left(),
        {
            match self.peek() {
                Some(Token::Word) => {
                    let child = self.key();
                    push_node(&mut children, child);
                },
                Some(Token::LineBreak) | Some(Token::Whitespace) | Some(Token::LineComment) | Some(
                    Token::Pipe,
                ) | Some(Token::Comma) => self.eat(&mut children),
                _ => break ,
            }
        }
        let ghost before = children@;
        let ghost q = *self;
        self.expect(&mut children, Token::RCurly);
        proof {
            if next_is(q, Token::RCurly) {
                assert(closes_at(children@, before.len() as int));
            }
            assert(ends_group(children@, before.len() as int));
            assert forall|i: int| 0 < i < before.len() implies !is_token_kind(#[trigger] children@[i], SyntaxKind::R_CURLY) by {
                assert(children@[i] == before[i]);
                assert(is_list_item(before[i]));
            }
            lemma_curly_closed(children@, before.len() as int);
        }
        node(SyntaxKind::CURLY_GROUP_WORD_LIST, children)
    }

    /// `{` with one command name, then `}`.
    fn curly_group_command(&mut self) -> (n: SyntaxNode)
        requires
            old(self).left() > 0,
        ensures
            builds(*old(self), *final(self), n, SyntaxKind::CURLY_GROUP_COMMAND),
        decreases old(self).left(), 1nat,
    {
        let ghost p0 = *self;
        let mut children: Vec<SyntaxElement> = Vec::new();
        self.eat(&mut children);
        self.trivia(&mut children);
        if matches!(self.peek(), Some(Token::CommandName(_))) {
            self.eat(&mut children);
            self.trivia(&mut children);
        }
        self.expect(&mut children, Token::RCurly);
        node(SyntaxKind::CURLY_GROUP_COMMAND, children)
    }

    /// Whether `t` ends a bracket group: a closing brace or bracket, a
    /// sectioning command, `\item` or `\end`.
    fn ends_brack_group(t: Token) -> (b: bool)
        ensures
            b == (t == Token::RCurly || t == Token::RBrack || t matches Token::CommandName(
                CommandName::Section(_),
            ) || t == Token::CommandName(CommandName::EnumItem) || t == Token::CommandName(
                CommandName::EndEnvironment,
            )),
    {
        matches!(
            t,
            Token::RCurly | Token::RBrack | Token::CommandName(CommandName::Section(_))
                | Token::CommandName(CommandName::EnumItem) | Token::CommandName(
                CommandName::EndEnvironment,
            )
        )
    }

    /// `[` with any content up to `]`.
    fn brack_group(&mut self) -> (n: SyntaxNode)
        requires
            old(self).left() > 0,
        ensures
            builds(*old(self), *final(self), n, SyntaxKind::BRACK_GROUP),
        decreases old(self).left(), 1nat,
    {
        let ghost p0 = *self;
        let mut children: Vec<SyntaxElement> = Vec::new();
        self.eat(&mut children);
        loop
            invariant
                p0 == *old(self),
                elements_text(children@) + self.rest() == p0.rest(),
                elements_leaves(children@) + self.rest_tokens() == p0.rest_tokens(),
                follows(p0.tokens(), self.tokens()),
                seq_errors_ok(elements_view(children@)),
                self.left() < p0.left(),
            decreases self.left(),
        {
            match self.peek() {
                Some(t) => {
                    if Self::ends_brack_group(t) {
                        break ;
                    }
                    self.content(&mut children, ParserContext::default());
                },
                None => break ,
            }
        }
        self.expect(&mut children, Token::RBrack);
        node(SyntaxKind::BRACK_GROUP, children)
    }

    /// `[` with one key, then `]`.
    fn brack_group_word(&mut self) -> (n: SyntaxNode)
        requires
            old(self).left() > 0,
        ensures
            builds(*old(self), *final(self), n, SyntaxKind::BRACK_GROUP_WORD),
        decreases old(self).left(), 1nat,
    {
        let ghost p0 = *self;
        let mut children: Vec<SyntaxElement> = Vec::new();
        self.eat(&mut children);
        self.trivia(&mut children);
        if matches!(self.peek(), Some(Token::Word) | Some(Token::Pipe)) {
            let child = self.key_with_opts(
                KeyOptions { allow_eq: true, allow_bracks: false, allow_parens: true },
            );
            push_node(&mut children, child);
        }
        self.expect(&mut children, Token::RBrack);
        node(SyntaxKind::BRACK_GROUP_WORD, children)
    }

    /// `[` or `(` with any content up to `]` or `)`.
    fn mixed_group(&mut self) -> (n: SyntaxNode)
        requires
            old(self).left() > 0,
        ensures
            builds(*old(self), *final(self), n, SyntaxKind::MIXED_GROUP),
        decreases old(self).left(), 1nat,
    {
        let ghost p0 = *self;
        let mut children: Vec<SyntaxElement> = Vec::new();
        self.eat(&mut children);
        self.trivia(&mut children);
        loop
            invariant
                p0 == *old(self),
                elements_text(children@) + self.rest() == p0.rest(),
                elements_leaves(children@) + self.rest_tokens() == p0.rest_tokens(),
                follows(p0.tokens(), self.tokens()),
                seq_errors_ok(elements_view(children@)),
                self.left() < p0.left(),
            decreases self.left(),
        {
            match self.peek() {
                Some(t) => {
                    if Self::ends_brack_group(t) || t == Token::RParen {
                        break ;
                    }
                    self.content(&mut children, ParserContext::default());
                },
                None => break ,
            }
        }
        self.expect2(&mut children, Token::RBrack, Token::RParen);
        node(SyntaxKind::MIXED_GROUP, children)
    }

    /// A key that may hold `=`, parentheses and brackets.
    fn key(&mut self) -> (n: SyntaxNode)
        requires
            old(self).left() > 0,
        ensures
            builds(*old(self), *final(self), n, SyntaxKind::KEY),
            n.children@.len() > 0,
            is_token_of(n.children@[0], old(self).tokens()[0]),
        decreases old(self).left(), 2nat,
    {
        self.key_with_opts(KeyOptions { allow_eq: true, allow_parens: true, allow_bracks: true })
    }

    /// A key: words, pipes, white space and comments, and the delimiters that
    /// `options` allow, then trivia.
    fn key_with_opts(&mut self, options: KeyOptions) -> (n: SyntaxNode)
        requires
            old(self).left() > 0,
        ensures
            builds(*old(self), *final(self), n, SyntaxKind::KEY),
            n.children@.len() > 0,
            is_token_of(n.children@[0], old(self).tokens()[0]),
        decreases old(self).left(), 1nat,
    {
        let ghost p0 = *self;
        let mut children: Vec<SyntaxElement> = Vec::new();
        self.eat(&mut children);
        loop
            invariant
                p0 == *old(self),
                elements_text(children@) + self.rest() == p0.rest(),
                elements_leaves(children@) + self.rest_tokens() == p0.rest_tokens(),
                follows(p0.tokens(), self.tokens()),
                seq_errors_ok(elements_view(children@)),
                self.left() < p0.left(),
                children@.len() > 0,
                is_token_of(children@[0], p0.tokens()[0]),
            decreases self.left(),
        {
            match self.peek() {
                Some(Token::Whitespace) | Some(Token::LineComment) | Some(Token::Word) | Some(
                    Token::Pipe,
                ) => self.eat(&mut children),
                Some(Token::LBrack) | Some(Token::RBrack) => {
                    if options.allow_bracks {
                        self.eat(&mut children);
                    } else {
                        break ;
                    }
                },
                Some(Token::LParen) | Some(Token::RParen) => {
                    if options.allow_parens {
                        self.eat(&mut children);
                    } else {
                        break ;
                    }
                },
                Some(Token::Eq) => {
                    if options.allow_eq {
                        self.eat(&mut children);
                    } else {
                        break ;
                    }
                },
                _ => break ,
            }
        }
        self.trivia(&mut children);
        node(SyntaxKind::KEY, children)
    }

    /// The value of a key-value pair: content up to a comma or a closing
    /// brace or bracket. It may be empty.
    fn value(&mut self) -> (n: SyntaxNode)
        ensures
            final(self).left() <= old(self).left(),
            n.kind == SyntaxKind::VALUE.raw(),
            n.text() + final(self).rest() == old(self).rest(),
            n.leaves() + final(self).rest_tokens() == old(self).rest_tokens(),
            follows(old(self).tokens(), final(self).tokens()),
            errors_ok(n.view()),
        decreases old(self).left(), 4nat,
    {
        let ghost p0 = *self;
        let mut children: Vec<SyntaxElement> = Vec::new();
        loop
            invariant
                p0 == *old(self),
                elements_text(children@) + self.rest() == p0.rest(),
                elements_leaves(children@) + self.rest_tokens() == p0.rest_tokens(),
                follows(p0.tokens(), self.tokens()),
                seq_errors_ok(elements_view(children@)),
                self.left() <= p0.left(),
            decreases self.left(),
        {
            match self.peek() {
                None => break ,
                Some(Token::Comma) | Some(Token::RBrack) | Some(Token::RCurly) => break ,
                Some(_) => self.content(
                    &mut children,
                    ParserContext { allow_environment: true, allow_comma: false },
                ),
            }
        }
        node(SyntaxKind::VALUE, children)
    }

    /// A key, then optionally `=` and a value.
    fn key_value_pair(&mut self) -> (n: SyntaxNode)
        requires
            old(self).left() > 0,
        ensures
            builds(*old(self), *final(self), n, SyntaxKind::KEY_VALUE_PAIR),
        decreases old(self).left(), 2nat,
    {
        let ghost p0 = *self;
        let mut children: Vec<SyntaxElement> = Vec::new();
        let key = self.key_with_opts(
            KeyOptions { allow_eq: false, allow_parens: true, allow_bracks: false },
        );
        push_node(&mut children, key);
        if matches!(self.peek(), Some(Token::Eq)) {
            self.eat(&mut children);
            self.trivia(&mut children);
            match self.peek() {
                Some(Token::CommandName(CommandName::EndEnvironment)) | Some(Token::RCurly) | Some(
                    Token::RBrack,
                ) | Some(Token::RParen) | Some(Token::Comma) | None => {},
                Some(_) => {
                    let value = self.value();
                    push_node(&mut children, value);
                },
            }
        }
        node(SyntaxKind::KEY_VALUE_PAIR, children)
    }

    /// Key-value pairs separated by commas, with trivia. It may be empty.
    fn key_value_body(&mut self) -> (n: SyntaxNode)
        ensures
            final(self).left() <= old(self).left(),
            n.kind == SyntaxKind::KEY_VALUE_BODY.raw(),
            n.text() + final(self).rest() == old(self).rest(),
            n.leaves() + final(self).rest_tokens() == old(self).rest_tokens(),
            follows(old(self).tokens(), final(self).tokens()),
            errors_ok(n.view()),
        decreases old(self).left(), 3nat,
    {
        let ghost p0 = *self;
        let mut children: Vec<SyntaxElement> = Vec::new();
        loop
            invariant
                p0 == *old(self),
                elements_text(children@) + self.rest() == p0.rest(),
                elements_leaves(children@) + self.rest_tokens() == p0.rest_tokens(),
                follows(p0.tokens(), self.tokens()),
                seq_errors_ok(elements_view(children@)),
                self.left() <= p0.left(),
            decreases self.left(),
        {
            match self.peek() {
                Some(Token::LineBreak) | Some(Token::Whitespace) | Some(Token::LineComment) => self.eat(
                    &mut children,
                ),
                Some(Token::Word) | Some(Token::Pipe) => {
                    let pair = self.key_value_pair();
                    push_node(&mut children, pair);
                    if matches!(self.peek(), Some(Token::Comma)) {
                        self.eat(&mut children);
                    } else {
                        break ;
                    }
                },
                _ => break ,
            }
        }
        node(SyntaxKind::KEY_VALUE_BODY, children)
    }

    /// An opening delimiter, trivia, a key-value body and the closing
    /// delimiter `right_kind`.
    fn group_key_value(&mut self, node_kind: SyntaxKind, right_kind: Token) -> (n: SyntaxNode)
        requires
            old(self).left() > 0,
            node_kind != SyntaxKind::ERROR,
            node_kind != SyntaxKind::CURLY_GROUP,
            node_kind != SyntaxKind::CURLY_GROUP_WORD,
            node_kind != SyntaxKind::CURLY_GROUP_WORD_LIST,
        ensures
            builds(*old(self), *final(self), n, node_kind),
        decreases old(self).left(), 1nat,
    {
        let ghost p0 = *self;
        let mut children: Vec<SyntaxElement> = Vec::new();
        self.eat(&mut children);
        self.trivia(&mut children);
        let body = self.key_value_body();
        push_node(&mut children, body);
        self.expect(&mut children, right_kind);
        node(node_kind, children)
    }

    fn curly_group_key_value(&mut self) -> (n: SyntaxNode)
        requires
            old(self).left() > 0,
        ensures
            builds(*old(self), *final(self), n, SyntaxKind::CURLY_GROUP_KEY_VALUE),
        decreases old(self).left(), 2nat,
    {
        self.group_key_value(SyntaxKind::CURLY_GROUP_KEY_VALUE, Token::RCurly)
    }

    fn brack_group_key_value(&mut self) -> (n: SyntaxNode)
        requires
            old(self).left() > 0,
        ensures
            builds(*old(self), *final(self), n, SyntaxKind::BRACK_GROUP_KEY_VALUE),
        decreases old(self).left(), 2nat,
    {
        self.group_key_value(SyntaxKind::BRACK_GROUP_KEY_VALUE, Token::RBrack)
    }

    /// `$` or `$$` with content up to the closing dollar.
    fn formula(&mut self) -> (n: SyntaxNode)
        requires
            old(self).left() > 0,
        ensures
            builds(*old(self), *final(self), n, SyntaxKind::FORMULA),
        decreases old(self).left(), 1nat,
    {
        let ghost p0 = *self;
        let mut children: Vec<SyntaxElement> = Vec::new();
        self.eat(&mut children);
        self.trivia(&mut children);
        loop
            invariant
                p0 == *old(self),
                elements_text(children@) + self.rest() == p0.rest(),
                elements_leaves(children@) + self.rest_tokens() == p0.rest_tokens(),
                follows(p0.tokens(), self.tokens()),
                seq_errors_ok(elements_view(children@)),
                self.left() < p0.left(),
            decreases self.left(),
        {
            match self.peek() {
                None => break ,
                Some(Token::RCurly) | Some(Token::CommandName(CommandName::EndEnvironment)) | Some(
                    Token::Dollar,
                ) => break ,
                Some(_) => self.content(&mut children, ParserContext::default()),
            }
        }
        self.expect(&mut children, Token::Dollar);
        node(SyntaxKind::FORMULA, children)
    }

    /// A command name with the trivia, curly groups and mixed groups after it.
    fn generic_command(&mut self) -> (n: SyntaxNode)
        requires
            old(self).left() > 0,
        ensures
            builds(*old(self), *final(self), n, SyntaxKind::GENERIC_COMMAND),
            n.children@.len() > 0,
            is_token_of(n.children@[0], old(self).tokens()[0]),
            forall|i: int| 0 < i < n.children@.len() ==> is_argument_element(#[trigger] n.children@[i]),
            final(self).left() == 0 || !continues_arguments(final(self).tokens()[0].0),
        decreases old(self).left(), 1nat,
    {
        let ghost p0 = *self;
        let mut children: Vec<SyntaxElement> = Vec::new();
        self.eat(&mut children);
        loop
            invariant
                p0 == *old(self),
                elements_text(children@) + self.rest() == p0.rest(),
                elements_leaves(children@) + self.rest_tokens() == p0.rest_tokens(),
                follows(p0.tokens(), self.tokens()),
                seq_errors_ok(elements_view(children@)),
                self.left() < p0.left(),
                children@.len() > 0,
                is_token_of(children@[0], p0.tokens()[0]),
                forall|i: int| 0 < i < children@.len() ==> is_argument_element(#[trigger] children@[i]),
            ensures
                self.left() == 0 || !continues_arguments(self.tokens()[0].0),
            decreases self.left(),
        {
            match self.peek() {
                Some(Token::LineBreak) | Some(Token::Whitespace) | Some(Token::LineComment) => self.eat(
                    &mut children,
                ),
                Some(Token::LCurly) => {
                    let child = self.curly_group();
                    push_node(&mut children, child);
                },
                Some(Token::LBrack) | Some(Token::LParen) => {
                    let child = self.mixed_group();
                    push_node(&mut children, child);
                },
                _ => break ,
            }
        }
        node(SyntaxKind::GENERIC_COMMAND, children)
    }

    /// `\[` with content up to `\]`.
    fn equation(&mut self) -> (n: SyntaxNode)
        requires
            old(self).left() > 0,
        ensures
            builds(*old(self), *final(self), n, SyntaxKind::EQUATION),
        decreases old(self).left(), 1nat,
    {
        let ghost p0 = *self;
        let mut children: Vec<SyntaxElement> = Vec::new();
        self.eat(&mut children);
        loop
            invariant
                p0 == *old(self),
                elements_text(children@) + self.rest() == p0.rest(),
                elements_leaves(children@) + self.rest_tokens() == p0.rest_tokens(),
                follows(p0.tokens(), self.tokens()),
                seq_errors_ok(elements_view(children@)),
                self.left() < p0.left(),
            decreases self.left(),
        {
            match self.peek() {
                None => break ,
                Some(Token::CommandName(CommandName::EndEnvironment)) | Some(Token::RCurly) | Some(
                    Token::CommandName(CommandName::EndEquation),
                ) => break ,
                Some(_) => self.content(&mut children, ParserContext::default()),
            }
        }
        self.expect(&mut children, Token::CommandName(CommandName::EndEquation));
        node(SyntaxKind::EQUATION, children)
    }

    /// `\begin{..}`, the content up to `\end` or a closing brace, and the
    /// `\end{..}` if it comes.
    fn environment(&mut self) -> (n: SyntaxNode)
        requires
            old(self).left() > 0,
        ensures
            builds(*old(self), *final(self), n, SyntaxKind::ENVIRONMENT),
            n.children@.len() > 0,
            is_node_of_kind(n.children@[0], SyntaxKind::BEGIN),
            is_node_of_kind(n.children@.last(), SyntaxKind::END) || final(self).left() == 0 || next_is(
                *final(self),
                Token::RCurly,
            ),
        decreases old(self).left(), 2nat,
    {
        let ghost p0 = *self;
        let mut children: Vec<SyntaxElement> = Vec::new();
        let begin = self.begin();
        push_node(&mut children, begin);
        loop
            invariant
                p0 == *old(self),
                elements_text(children@) + self.rest() == p0.rest(),
                elements_leaves(children@) + self.rest_tokens() == p0.rest_tokens(),
                follows(p0.tokens(), self.tokens()),
                seq_errors_ok(elements_view(children@)),
                self.left() < p0.left(),
                children@.len() > 0,
                is_node_of_kind(children@[0], SyntaxKind::BEGIN),
            ensures
                self.left() == 0 || next_is(*self, Token::RCurly) || next_is(
                    *self,
                    Token::CommandName(CommandName::EndEnvironment),
                ),
            decreases self.left(),
        {
            match self.peek() {
                None => break ,
                Some(Token::RCurly) | Some(Token::CommandName(CommandName::EndEnvironment)) => break ,
                Some(_) => self.content(&mut children, ParserContext::default()),
            }
        }
        if matches!(self.peek(), Some(Token::CommandName(CommandName::EndEnvironment))) {
            let end = self.end();
            push_node(&mut children, end);
        }
        node(SyntaxKind::ENVIRONMENT, children)
    }

    /// The content before the first unmatched `\end`. It may be empty.
    fn preamble(&mut self) -> (n: SyntaxNode)
        ensures
            final(self).left() <= old(self).left(),
            n.kind == SyntaxKind::PREAMBLE.raw(),
            n.text() + final(self).rest() == old(self).rest(),
            n.leaves() + final(self).rest_tokens() == old(self).rest_tokens(),
            errors_ok(n.view()),
        decreases old(self).left(), 4nat,
    {
        let ghost p0 = *self;
        let mut children: Vec<SyntaxElement> = Vec::new();
        loop
            invariant
                p0 == *old(self),
                elements_text(children@) + self.rest() == p0.rest(),
                elements_leaves(children@) + self.rest_tokens() == p0.rest_tokens(),
                follows(p0.tokens(), self.tokens()),
                seq_errors_ok(elements_view(children@)),
                self.left() <= p0.left(),
            decreases self.left(),
        {
            match self.peek() {
                None => break ,
                Some(Token::CommandName(CommandName::EndEnvironment)) => break ,
                Some(_) => self.content(&mut children, ParserContext::default()),
            }
        }
        node(SyntaxKind::PREAMBLE, children)
    }

    /// A sectioning command with its title and the content up to the next
    /// command of its level or further out, `\end` or a closing brace.
    fn section(&mut self, level: SectionLevel) -> (n: SyntaxNode)
        requires
            old(self).left() > 0,
        ensures
            builds(*old(self), *final(self), n, section_kind(level)),
        decreases old(self).left(), 1nat,
    {
        let node_kind = match level {
            SectionLevel::Part => SyntaxKind::PART,
            SectionLevel::Chapter => SyntaxKind::CHAPTER,
            SectionLevel::Section => SyntaxKind::SECTION,
            SectionLevel::Subsection => SyntaxKind::SUBSECTION,
            SectionLevel::Subsubsection => SyntaxKind::SUBSUBSECTION,
        };
        let ghost p0 = *self;
        let mut children: Vec<SyntaxElement> = Vec::new();
        self.eat(&mut children);
        self.trivia(&mut children);
        if matches!(self.peek(), Some(Token::LCurly)) {
            let child = self.curly_group();
            push_node(&mut children, child);
        }
        loop
            invariant
                p0 == *old(self),
                elements_text(children@) + self.rest() == p0.rest(),
                elements_leaves(children@) + self.rest_tokens() == p0.rest_tokens(),
                follows(p0.tokens(), self.tokens()),
                seq_errors_ok(elements_view(children@)),
                self.left() < p0.left(),
            decreases self.left(),
        {
            match self.peek() {
                None => break ,
                Some(Token::RCurly) | Some(Token::CommandName(CommandName::EndEnvironment)) => break ,
                Some(Token::CommandName(CommandName::Section(nested))) => {
                    if nested.at_or_above(level) {
                        break ;
                    }
                    self.content(&mut children, ParserContext::default());
                },
                Some(_) => self.content(&mut children, ParserContext::default()),
            }
        }
        node(node_kind, children)
    }

    /// A paragraph command with its title and the content up to the next
    /// paragraph command of its level or further out, a sectioning command,
    /// `\end` or a closing brace.
    fn paragraph(&mut self, level: ParagraphLevel) -> (n: SyntaxNode)
        requires
            old(self).left() > 0,
        ensures
            builds(*old(self), *final(self), n, paragraph_kind(level)),
        decreases old(self).left(), 1nat,
    {
        let node_kind = match level {
            ParagraphLevel::Paragraph => SyntaxKind::PARAGRAPH,
            ParagraphLevel::Subparagraph => SyntaxKind::SUBPARAGRAPH,
        };
        let ghost p0 = *self;
        let mut children: Vec<SyntaxElement> = Vec::new();
        self.eat(&mut children);
        self.trivia(&mut children);
        if matches!(self.peek(), Some(Token::LCurly)) {
            let child = self.curly_group();
            push_node(&mut children, child);
        }
        loop
            invariant
                p0 == *old(self),
                elements_text(children@) + self.rest() == p0.rest(),
                elements_leaves(children@) + self.rest_tokens() == p0.rest_tokens(),
                follows(p0.tokens(), self.tokens()),
                seq_errors_ok(elements_view(children@)),
                self.left() < p0.left(),
            decreases self.left(),
        {
            match self.peek() {
                None => break ,
                Some(Token::RCurly) | Some(Token::CommandName(CommandName::EndEnvironment)) | Some(
                    Token::CommandName(CommandName::Section(_)),
                ) => break ,
                Some(Token::CommandName(CommandName::Paragraph(nested))) => {
                    if nested.at_or_above(level) {
                        break ;
                    }
                    self.content(&mut children, ParserContext::default());
                },
                Some(_) => self.content(&mut children, ParserContext::default()),
            }
        }
        node(node_kind, children)
    }

    /// `\item`, its optional label and the content up to the next `\item`, a
    /// sectioning command, `\end` or a closing brace.
    fn enum_item(&mut self) -> (n: SyntaxNode)
        requires
            old(self).left() > 0,
        ensures
            builds(*old(self), *final(self), n, SyntaxKind::ENUM_ITEM),
            heading_group(old(self).tokens(), n.children@, Token::LBrack, SyntaxKind::BRACK_GROUP),
        decreases old(self).left(), 1nat,
    {
        let ghost p0 = *self;
        let ghost ts = p0.lexer@;
        let mut children: Vec<SyntaxElement> = Vec::new();
        self.eat(&mut children);
        let ghost first = children@;
        let ghost q1 = *self;
        self.trivia(&mut children);
        let ghost t = 1 + q1.left() - self.left();
        proof {
            lemma_after_command_trivia(ts, q1.lexer@, self.lexer@, t - 1);
            assert(children@[0] == first[0]);
        }
        if matches!(self.peek(), Some(Token::LBrack)) {
            let child = self.brack_group();
            push_node(&mut children, child);
        }
        let ghost head = children@;
        assert(heading_group(ts, head, Token::LBrack, SyntaxKind::BRACK_GROUP));
        loop
            invariant
                head.len() <= children@.len(),
                forall|i: int| 0 <= i < head.len() ==> #[trigger] children@[i] == head[i],
                heading_group(ts, head, Token::LBrack, SyntaxKind::BRACK_GROUP),
                p0 == *old(self),
                elements_text(children@) + self.rest() == p0.rest(),
                elements_leaves(children@) + self.rest_tokens() == p0.rest_tokens(),
                follows(p0.tokens(), self.tokens()),
                seq_errors_ok(elements_view(children@)),
                self.left() < p0.left(),
            decreases self.left(),
        {
            match self.peek() {
                None => break ,
                Some(Token::CommandName(CommandName::EndEnvironment)) | Some(Token::RCurly) | Some(
                    Token::CommandName(CommandName::Section(_)),
                ) | Some(Token::CommandName(CommandName::EnumItem)) => break ,
                Some(_) => self.content(&mut children, ParserContext::default()),
            }
        }
        proof {
            lemma_heading_group_extends(ts, head, children@, Token::LBrack, SyntaxKind::BRACK_GROUP);
        }
        node(SyntaxKind::ENUM_ITEM, children)
    }

    /// `\iffalse`, every token up to the matching `\fi` (nested ones
    /// included), and that `\fi`.
    fn block_comment(&mut self) -> (n: SyntaxNode)
        requires
            old(self).left() > 0,
        ensures
            builds(*old(self), *final(self), n, SyntaxKind::BLOCK_COMMENT),
        decreases old(self).left(), 1nat,
    {
        let ghost p0 = *self;
        let mut children: Vec<SyntaxElement> = Vec::new();
        self.eat(&mut children);
        loop
            invariant
                p0 == *old(self),
                elements_text(children@) + self.rest() == p0.rest(),
                elements_leaves(children@) + self.rest_tokens() == p0.rest_tokens(),
                follows(p0.tokens(), self.tokens()),
                seq_errors_ok(elements_view(children@)),
                self.left() < p0.left(),
            decreases self.left(),
        {
            match self.peek() {
                None => break ,
                Some(Token::CommandName(CommandName::BeginBlockComment)) => {
                    let child = self.block_comment();
                    push_node(&mut children, child);
                },
                Some(Token::CommandName(CommandName::EndBlockComment)) => {
                    self.eat(&mut children);
                    break ;
                },
                Some(_) => self.eat(&mut children),
            }
        }
        node(SyntaxKind::BLOCK_COMMENT, children)
    }

    /// An include command: its optional key-value options (where `options`)
    /// and its list of paths.
    fn generic_include(&mut self, kind: SyntaxKind, options: bool) -> (n: SyntaxNode)
        requires
            old(self).left() > 0,
            kind != SyntaxKind::ERROR,
            kind != SyntaxKind::CURLY_GROUP,
            kind != SyntaxKind::CURLY_GROUP_WORD,
            kind != SyntaxKind::CURLY_GROUP_WORD_LIST,
        ensures
            builds(*old(self), *final(self), n, kind),
        decreases old(self).left(), 1nat,
    {
        let ghost p0 = *self;
        let mut children: Vec<SyntaxElement> = Vec::new();
        self.eat(&mut children);
        self.trivia(&mut children);
        if options && matches!(self.peek(), Some(Token::LBrack)) {
            let child = self.brack_group_key_value();
            push_node(&mut children, child);
        }
        if matches!(self.peek(), Some(Token::LCurly)) {
            let child = self.curly_group_path_list();
            push_node(&mut children, child);
        }
        node(kind, children)
    }

    /// `{` with one path (nested braces allowed), then `}`.
    fn curly_group_path(&mut self) -> (n: SyntaxNode)
        requires
            old(self).left() > 0,
            next_is(*old(self), Token::LCurly),
        ensures
            builds(*old(self), *final(self), n, SyntaxKind::CURLY_GROUP_WORD),
        decreases old(self).left(), 1nat,
    {
        let ghost p0 = *self;
        let mut children: Vec<SyntaxElement> = Vec::new();
        self.eat(&mut children);
        self.trivia(&mut children);
        loop
            invariant
                p0 == *old(self),
                elements_text(children@) + self.rest() == p0.rest(),
                elements_leaves(children@) + self.rest_tokens() == p0.rest_tokens(),
                follows(p0.tokens(), self.tokens()),
                seq_errors_ok(elements_view(children@)),
                self.left() < p0.left(),
                children@.len() > 0,
                is_token_of(children@[0], p0.tokens()[0]),
                forall|i: int| 0 < i < children@.len() ==> !is_token_kind(#[trigger] children@[i], SyntaxKind::R_CURLY),
            decreases self.left(),
        {
            match self.peek() {
                Some(Token::LineComment) | Some(Token::Word) | Some(Token::Eq) | Some(Token::Comma)
                | Some(Token::LBrack) | Some(Token::RBrack) | Some(Token::Dollar) | Some(
                    Token::CommandName(CommandName::Generic),
                ) => {
                    let child = self.path();
                    push_node(&mut children, child);
                },
                Some(Token::LCurly) => {
                    let child = self.curly_group_path();
                    push_node(&mut children, child);
                },
                Some(Token::Whitespace) | Some(Token::Pipe) => self.eat(&mut children),
                _ => break ,
            }
        }
        let ghost before = children@;
        let ghost q = *self;
        self.expect(&mut children, Token::RCurly);
        proof {
            if next_is(q, Token::RCurly) {
                assert(closes_at(children@, before.len() as int));
            }
            assert(ends_group(children@, before.len() as int));
            lemma_curly_closed(children@, before.len() as int);
        }
        node(SyntaxKind::CURLY_GROUP_WORD, children)
    }

    /// `{` with paths separated by commas and trivia, then `}`.
    fn curly_group_path_list(&mut self) -> (n: SyntaxNode)
        requires
            old(self).left() > 0,
            next_is(*old(self), Token::LCurly),
        ensures
            builds(*old(self), *final(self), n, SyntaxKind::CURLY_GROUP_WORD_LIST),
        decreases old(self).left(), 1nat,
    {
        let ghost p0 = *self;
        let mut children: Vec<SyntaxElement> = Vec::new();
        self.eat(&mut children);
        self.trivia(&mut children);
        loop
            invariant
                p0 == *old(self),
                elements_text(children@) + self.rest() == p0.rest(),
                elements_leaves(children@) + self.rest_tokens() == p0.rest_tokens(),
                follows(p0.tokens(), self.tokens()),
                seq_errors_ok(elements_view(children@)),
                self.left() < p0.left(),
                children@.len() > 0,
                is_token_of(children@[0], p0.tokens()[0]),
                forall|i: int| 0 < i < children@.len() ==> !is_token_kind(#[trigger] children@[i], SyntaxKind::R_CURLY),
            decreases self.left(),
        {
            match self.peek() {
                Some(Token::Word) | Some(Token::Eq) | Some(Token::LBrack) | Some(Token::RBrack) | Some(
                    Token::LParen,
                ) | Some(Token::RParen) | Some(Token::Dollar) | Some(
                    Token::CommandName(CommandName::Generic),
                ) => {
                    let child = self.path();
                    push_node(&mut children, child);
                },
                Some(Token::Whitespace) | Some(Token::LineBreak) | Some(Token::LineComment) | Some(
                    Token::Comma,
                ) | Some(Token::Pipe) => self.eat(&mut children),
                Some(Token::LCurly) => {
                    let child = self.curly_group_path();
                    push_node(&mut children, child);
                },
                _ => break ,
            }
        }
        let ghost before = children@;
        let ghost q = *self;
        self.expect(&mut children, Token::RCurly);
        proof {
            if next_is(q, Token::RCurly) {
                assert(closes_at(children@, before.len() as int));
            }
            assert(ends_group(children@, before.len() as int));
            lemma_curly_closed(children@, before.len() as int);
        }
        node(SyntaxKind::CURLY_GROUP_WORD_LIST, children)
    }

    /// A path: words, `=`, brackets, parentheses, dollars, generic commands,
    /// white space, comments and nested path groups.
    fn path(&mut self) -> (n: SyntaxNode)
        requires
            old(self).left() > 0,
        ensures
            builds(*old(self), *final(self), n, SyntaxKind::KEY),
            n.children@.len() > 0,
            is_token_of(n.children@[0], old(self).tokens()[0]),
            final(self).left() == 0 || !continues_path(final(self).tokens()[0].0),
        decreases old(self).left(), 1nat,
    {
        let ghost p0 = *self;
        let mut children: Vec<SyntaxElement> = Vec::new();
        self.eat(&mut children);
        loop
            invariant
                p0 == *old(self),
                elements_text(children@) + self.rest() == p0.rest(),
                elements_leaves(children@) + self.rest_tokens() == p0.rest_tokens(),
                follows(p0.tokens(), self.tokens()),
                seq_errors_ok(elements_view(children@)),
                self.left() < p0.left(),
                children@.len() > 0,
                is_token_of(children@[0], p0.tokens()[0]),
            ensures
                self.left() == 0 || !continues_path(self.tokens()[0].0),
            decreases self.left(),
        {
            match self.peek() {
                Some(Token::Whitespace) | Some(Token::LineComment) | Some(Token::Word) | Some(
                    Token::Eq,
                ) | Some(Token::LBrack) | Some(Token::RBrack) | Some(Token::LParen) | Some(
                    Token::RParen,
                ) | Some(Token::Dollar) | Some(Token::CommandName(CommandName::Generic)) => self.eat(
                    &mut children,
                ),
                Some(Token::LCurly) => {
                    let child = self.curly_group_path();
                    push_node(&mut children, child);
                },
                _ => break ,
            }
        }
        node(SyntaxKind::KEY, children)
    }

    fn package_include(&mut self) -> (n: SyntaxNode)
        requires
            old(self).left() > 0,
        ensures
            builds(*old(self), *final(self), n, SyntaxKind::PACKAGE_INCLUDE),
        decreases old(self).left(), 2nat,
    {
        self.generic_include(SyntaxKind::PACKAGE_INCLUDE, true)
    }

    fn class_include(&mut self) -> (n: SyntaxNode)
        requires
            old(self).left() > 0,
        ensures
            builds(*old(self), *final(self), n, SyntaxKind::CLASS_INCLUDE),
        decreases old(self).left(), 2nat,
    {
        self.generic_include(SyntaxKind::CLASS_INCLUDE, true)
    }

    fn latex_include(&mut self) -> (n: SyntaxNode)
        requires
            old(self).left() > 0,
        ensures
            builds(*old(self), *final(self), n, SyntaxKind::LATEX_INCLUDE),
        decreases old(self).left(), 2nat,
    {
        self.generic_include(SyntaxKind::LATEX_INCLUDE, false)
    }

    fn biblatex_include(&mut self) -> (n: SyntaxNode)
        requires
            old(self).left() > 0,
        ensures
            builds(*old(self), *final(self), n, SyntaxKind::BIBLATEX_INCLUDE),
        decreases old(self).left(), 2nat,
    {
        self.generic_include(SyntaxKind::BIBLATEX_INCLUDE, true)
    }

    fn bibtex_include(&mut self) -> (n: SyntaxNode)
        requires
            old(self).left() > 0,
        ensures
            builds(*old(self), *final(self), n, SyntaxKind::BIBTEX_INCLUDE),
        decreases old(self).left(), 2nat,
    {
        self.generic_include(SyntaxKind::BIBTEX_INCLUDE, false)
    }

    fn graphics_include(&mut self) -> (n: SyntaxNode)
        requires
            old(self).left() > 0,
        ensures
            builds(*old(self), *final(self), n, SyntaxKind::GRAPHICS_INCLUDE),
        decreases old(self).left(), 2nat,
    {
        self.generic_include(SyntaxKind::GRAPHICS_INCLUDE, true)
    }

    fn svg_include(&mut self) -> (n: SyntaxNode)
        requires
            old(self).left() > 0,
        ensures
            builds(*old(self), *final(self), n, SyntaxKind::SVG_INCLUDE),
        decreases old(self).left(), 2nat,
    {
        self.generic_include(SyntaxKind::SVG_INCLUDE, true)
    }

    fn inkscape_include(&mut self) -> (n: SyntaxNode)
        requires
            old(self).left() > 0,
        ensures
            builds(*old(self), *final(self), n, SyntaxKind::INKSCAPE_INCLUDE),
        decreases old(self).left(), 2nat,
    {
        self.generic_include(SyntaxKind::INKSCAPE_INCLUDE, true)
    }

    fn verbatim_include(&mut self) -> (n: SyntaxNode)
        requires
            old(self).left() > 0,
        ensures
            builds(*old(self), *final(self), n, SyntaxKind::VERBATIM_INCLUDE),
        decreases old(self).left(), 2nat,
    {
        self.generic_include(SyntaxKind::VERBATIM_INCLUDE, false)
    }

    /// `\label`, an optional bracket group and the label's name.
    fn label_definition(&mut self) -> (n: SyntaxNode)
        requires
            old(self).left() > 0,
        ensures
            builds(*old(self), *final(self), n, SyntaxKind::LABEL_DEFINITION),
        decreases old(self).left(), 1nat,
    {
        let ghost p0 = *self;
        let mut children: Vec<SyntaxElement> = Vec::new();
        self.eat(&mut children);
        self.trivia(&mut children);
        if matches!(self.peek(), Some(Token::LBrack)) {
            let child = self.brack_group();
            push_node(&mut children, child);
        }
        if matches!(self.peek(), Some(Token::LCurly)) {
            let ghost p1 = *self;
            let mut group: Vec<SyntaxElement> = Vec::new();
            self.eat(&mut group);
            self.trivia(&mut group);
            let ghost g1 = group@;
            if matches!(self.peek(), Some(Token::Word) | Some(Token::Pipe)) {
                let key = self.key();
                push_node(&mut group, key);
            }
            let ghost g2 = group@;
            if matches!(self.peek(), Some(Token::CommandName(_))) {
                self.content(&mut group, ParserContext::default());
            }
            let ghost before = group@;
            let ghost q = *self;
            self.expect(&mut group, Token::RCurly);
            proof {
                assert forall|i: int| 0 < i < before.len() implies !is_token_kind(#[trigger] group@[i], SyntaxKind::R_CURLY) by {
                    assert(group@[i] == before[i]);
                    if i < g2.len() {
                        assert(before[i] == g2[i]);
                        if i < g1.len() {
                            assert(g2[i] == g1[i]);
                            assert(is_trivia_token(g1[i]));
                        }
                    }
                }
                assert(group@[0] == g1[0]);
                if next_is(q, Token::RCurly) {
                    assert(closes_at(group@, before.len() as int));
                }
                lemma_curly_closed(group@, before.len() as int);
            }
            let child = node(SyntaxKind::CURLY_GROUP_WORD, group);
            push_node(&mut children, child);
        }
        node(SyntaxKind::LABEL_DEFINITION, children)
    }

    /// `\graphicspath` and its group: one path, or a group of path groups.
    #[verifier::rlimit(50)]
    #[verifier::spinoff_prover]
    fn graphics_path(&mut self) -> (n: SyntaxNode)
        requires
            old(self).left() > 0,
        ensures
            builds(*old(self), *final(self), n, SyntaxKind::GRAPHICS_PATH),
            n.children@.len() > 0,
            is_token_of(n.children@[0], old(self).tokens()[0]),
            match graphics_path_group_kind(old(self).tokens()) {
                Some(k) => n.children@.last() matches SyntaxElement::Node(g) && g.kind == k.raw()
                    && graphics_path_group(g.children@, old(self).tokens(), k),
                None => forall|i: int| 0 <= i < n.children@.len() ==> (#[trigger] n.children@[i]) is Token,
            },
        decreases old(self).left(), 1nat,
    {
        let ghost p0 = *self;
        let ghost ts = p0.lexer@;
        let mut children: Vec<SyntaxElement> = Vec::new();
        self.eat(&mut children);
        let ghost c1 = children@;
        let ghost q1 = *self;
        self.trivia(&mut children);
        proof {
            let k1 = q1.left() - self.left();
            assert(q1.lexer@ =~= ts.skip(1));
            assert forall|q: int| 1 <= q < 1 + k1 implies is_trivia(#[trigger] ts[q].0) by {
                assert(q1.lexer@[q - 1] == ts[q]);
            }
            assert(self.lexer@ =~= ts.skip(1 + k1));
            if 1 + k1 < ts.len() {
                assert(self.lexer@[0] == ts[1 + k1]);
            }
            lemma_skip_trivia(ts, 1, k1);
            assert(children@[0] == c1[0]);
        }
        if matches!(self.peek(), Some(Token::LCurly)) {
            let ghost p1 = *self;
            let ghost j = p0.left() - p1.left();
            let mut group: Vec<SyntaxElement> = Vec::new();
            self.eat(&mut group);
            let ghost q2 = *self;
            let ghost e1 = group@;
            self.trivia(&mut group);
            let ghost k2 = q2.left() - self.left();
            proof {
                assert(p1.lexer@[0] == ts[j]);
                assert(group@[0] == e1[0]);
                assert(q2.lexer@ =~= ts.skip(j + 1));
                assert forall|q: int| j + 1 <= q < j + 1 + k2 implies is_trivia(#[trigger] ts[q].0) by {
                    assert(q2.lexer@[q - j - 1] == ts[q]);
                }
                assert(self.lexer@ =~= ts.skip(j + 1 + k2));
                if j + 1 + k2 < ts.len() {
                    assert(self.lexer@[0] == ts[j + 1 + k2]);
                }
                lemma_skip_trivia(ts, j + 1, k2);
            }
            let ghost g0 = group@;
            let ghost m = g0.len() as int;
            let ghost tsk = self.tokens();
            assert(m == 1 + k2);
            assert(forall|i: int| 0 < i < m ==> is_trivia_token(#[trigger] g0[i]));
            let kind = if matches!(
                self.peek(),
                Some(Token::Word) | Some(Token::Eq) | Some(Token::LBrack) | Some(Token::RBrack) | Some(
                    Token::CommandName(CommandName::Generic),
                )
            ) {
                let child = self.path();
                assert(is_token_of(child.children@[0], ts[j + 1 + k2]));
                push_node(&mut group, child);
                assert(group@.subrange(0, m) =~= g0);
                SyntaxKind::CURLY_GROUP_WORD
            } else {
                while matches!(self.peek(), Some(Token::LCurly))
                    invariant
                        p1.left() < old(self).left(),
                        elements_text(group@) + self.rest() == p1.rest(),
                        elements_leaves(group@) + self.rest_tokens() == p1.rest_tokens(),
                        follows(p1.tokens(), self.tokens()),
                        seq_errors_ok(elements_view(group@)),
                        self.left() < p1.left(),
                        forall|i: int| 0 <= i < group@.len() ==> !is_curly_error((#[trigger] group@[i]).view()),
                        group@.len() >= m,
                        m == g0.len(),
                        group@.subrange(0, m) == g0,
                        forall|j: int| m <= j < group@.len() ==> is_node_of_kind(#[trigger] group@[j], SyntaxKind::CURLY_GROUP_WORD),
                    decreases self.left(),
                {
                    let ghost gb = group@;
                    let child = self.curly_group_path();
                    push_node(&mut group, child);
                    proof {
                        assert(forall|i: int| 0 <= i < gb.len() ==> group@[i] == gb[i]);
                        assert(forall|i: int| m <= i < gb.len() ==> is_node_of_kind(gb[i], SyntaxKind::CURLY_GROUP_WORD));
                        assert(is_node_of_kind(group@[gb.len() as int], SyntaxKind::CURLY_GROUP_WORD));
                        assert(group@.subrange(0, m) =~= gb.subrange(0, m));
                    }
                }
                SyntaxKind::CURLY_GROUP
            };
            let ghost before = group@;
            let ghost q = *self;
            self.expect(&mut group, Token::RCurly);
            proof {
                crate::tree::lemma_elements_view_index(group@);
                assert(before.subrange(0, m) == g0);
                assert forall|i: int| 0 <= i < before.len() implies #[trigger] group@[i] == before[i] by {}
                assert forall|i: int| 0 < i < m implies #[trigger] before[i] == g0[i] by {
                    assert(before.subrange(0, m)[i] == before[i]);
                }
                assert forall|i: int| m <= i < before.len() implies (#[trigger] before[i]) is Node by {
                    if kind == SyntaxKind::CURLY_GROUP {
                        assert(is_node_of_kind(before[i], SyntaxKind::CURLY_GROUP_WORD));
                    }
                }
                assert forall|i: int| 0 < i < before.len() implies !is_token_kind(#[trigger] group@[i], SyntaxKind::R_CURLY) by {
                    assert(group@[i] == before[i]);
                    if i < m {
                        assert(before[i] == g0[i]);
                        assert(is_trivia_token(g0[i]));
                    }
                }
                if next_is(q, Token::RCurly) {
                    assert(closes_at(group@, before.len() as int));
                }
                assert(ends_group(group@, before.len() as int));
                if kind == SyntaxKind::CURLY_GROUP {
                    assert(forall|i: int| m <= i < before.len() ==> is_node_of_kind(#[trigger] group@[i], SyntaxKind::CURLY_GROUP_WORD));
                }
                assert(graphics_path_group(group@, ts, kind));
                lemma_curly_closed(group@, before.len() as int);
            }
            let child = node(kind, group);
            push_node(&mut children, child);
        }
        node(SyntaxKind::GRAPHICS_PATH, children)
    }

    /// A verbatim command such as `\verb`: the command as a generic command,
    /// then, when a `|` follows the trivia, every token up to the next `|`
    /// as verbatim tokens.
    fn verbatim_block(&mut self, out: &mut Vec<SyntaxElement>)
        requires
            old(self).left() > 0,
        ensures
            final(self).left() < old(self).left(),
            takes(*old(self), *final(self), old(out)@, final(out)@),
            extends(old(out)@, final(out)@),
            forall|i: int|
                old(out)@.len() <= i < final(out)@.len() ==> !is_curly_error(
                    (#[trigger] final(out)@[i]).view(),
                ),
            forall|i: int|
                old(out)@.len() <= i < final(out)@.len() ==> !is_token_kind(
                    #[trigger] final(out)@[i],
                    SyntaxKind::R_CURLY,
                ),
            elements_view(final(out)@) == elements_view(old(out)@) + verbatim_views(old(self).tokens()),
            final(self).tokens() == old(self).tokens().skip(verbatim_length(old(self).tokens())),
            final(out)@.len() > old(out)@.len(),
    {
        let ghost p0 = *self;
        let ghost ts = p0.lexer@;
        let ghost o0 = out@;
        let mut command: Vec<SyntaxElement> = Vec::new();
        self.eat(&mut command);
        let ghost cv = elements_view(command@);
        let n = node(SyntaxKind::GENERIC_COMMAND, command);
        push_node(out, n);
        let ghost q1 = *self;
        let ghost o1 = out@;
        self.trivia(out);
        let ghost k1 = q1.left() - self.left();
        let ghost t = 1 + k1;
        proof {
            assert(cv =~= token_views(ts.take(1)));
            assert(q1.lexer@ =~= ts.skip(1));
            assert forall|q: int| 1 <= q < 1 + k1 implies is_trivia(#[trigger] ts[q].0) by {
                assert(q1.lexer@[q - 1] == ts[q]);
            }
            assert(self.lexer@ =~= ts.skip(1 + k1));
            if 1 + k1 < ts.len() {
                assert(self.lexer@[0] == ts[1 + k1]);
            }
            lemma_skip_trivia(ts, 1, k1);
            assert(q1.lexer@.take(k1) =~= ts.subrange(1, t));
        }
        let ghost base = elements_view(out@);
        if matches!(self.peek(), Some(Token::Pipe)) {
            self.eat_remap(out, SyntaxKind::VERBATIM);
            proof {
                assert(remapped_views(ts.subrange(t, t + 1), SyntaxKind::VERBATIM) =~= seq![
                    GreenView::Token(SyntaxKind::VERBATIM.raw(), ts[t].1),
                ]);
                assert(self.lexer@ =~= ts.skip(t + 1));
            }
            loop
                invariant_except_break
                    after_pipe(ts, t + 1) == after_pipe(ts, ts.len() - self.left()),
                invariant
                    p0 == *old(self),
                    takes(p0, *self, old(out)@, out@),
                    extends(old(out)@, out@),
                    self.left() < p0.left(),
                    forall|i: int|
                        old(out)@.len() <= i < out@.len() ==> !is_curly_error(
                            (#[trigger] out@[i]).view(),
                        ),
                    forall|i: int|
                        old(out)@.len() <= i < out@.len() ==> !is_token_kind(
                            #[trigger] out@[i],
                            SyntaxKind::R_CURLY,
                        ),
                    ts == p0.lexer@,
                    out@.len() > o0.len(),
                    0 < t < ts.len() - self.left(),
                    self.lexer@ == ts.skip(ts.len() - self.left()),
                    elements_view(out@) == base + remapped_views(
                        ts.subrange(t, ts.len() - self.left()),
                        SyntaxKind::VERBATIM,
                    ),
                ensures
                    after_pipe(ts, t + 1) == ts.len() - self.left(),
                decreases self.left(),
            {
                let ghost pos = ts.len() - self.left();
                match self.peek() {
                    None => break ,
                    Some(kind) => {
                        assert(self.lexer@[0] == ts[pos]);
                        self.eat_remap(out, SyntaxKind::VERBATIM);
                        proof {
                            assert(self.lexer@ =~= ts.skip(pos + 1));
                            assert(remapped_views(ts.subrange(t, pos + 1), SyntaxKind::VERBATIM)
                                =~= remapped_views(ts.subrange(t, pos), SyntaxKind::VERBATIM).push(
                                GreenView::Token(SyntaxKind::VERBATIM.raw(), ts[pos].1),
                            ));
                        }
                        if kind == Token::Pipe {
                            break ;
                        }
                    },
                }
            }
        }
        proof {
            assert(ts.skip(verbatim_length(ts)) =~= self.lexer@);
            assert(elements_view(out@) =~= elements_view(o0) + verbatim_views(ts)) by {
                assert(elements_view(o0) + verbatim_views(ts) =~= elements_view(o0) + seq![
                    GreenView::Node(SyntaxKind::GENERIC_COMMAND.raw(), token_views(ts.take(1))),
                ] + token_views(ts.subrange(1, t)) + remapped_views(
                    ts.subrange(t, verbatim_length(ts)),
                    SyntaxKind::VERBATIM,
                ));
            }
        }
    }
}

impl Parser {
    /// Parses the whole text into a rowan green tree: the tree of
    /// `parse_tree`. Its text must fit the `u32` lengths of rowan.
    pub fn parse(self) -> (g: GreenNode)
        requires
            encode_utf8(self.rest()).len() <= u32::MAX,
        ensures
            green_text(green_node_view(g)) == self.rest(),
            green_leaves(green_node_view(g)) == self.rest_tokens(),
            errors_ok(green_node_view(g)),
            green_kind(green_node_view(g)) == SyntaxKind::ROOT.raw(),
    {
        let tree = self.parse_tree();
        to_green(&tree)
    }
}

/// Parses a LaTeX document into a tree of its own nodes. The tree covers the
/// text exactly: its tokens' texts, in order, make up `text`, and its tokens
/// are the lexer's tokens, none split or joined. A closing brace, bracket or
/// parenthesis that closes nothing stands alone in an `ERROR` node, and
/// every curly group opens with `{` and ends at its first `}`.
pub fn parse_latex_tree(text: &str, config: &SyntaxConfig) -> (n: SyntaxNode)
    ensures
        n.kind == SyntaxKind::ROOT.raw(),
        n.text() == text@,
        n.leaves() == token_texts(lex(text@, crate::config::string_set_contents(config.citation_commands))),
        errors_ok(n.view()),
        n.children@.len() > 0,
        n.children@[0] matches SyntaxElement::Node(preamble) && preamble.kind
            == SyntaxKind::PREAMBLE.raw(),
{
    Parser::new(text, config).parse_tree()
}

/// Parses a LaTeX document into a rowan green tree whose root is a `ROOT`
/// node, whose text is `text` and whose tokens are the lexer's tokens, with
/// errors and curly groups placed as `parse_latex_tree` places them. The
/// text must fit the `u32` lengths of rowan.
pub fn parse_latex(text: &str, config: &SyntaxConfig) -> (g: GreenNode)
    requires
        encode_utf8(text@).len() <= u32::MAX,
    ensures
        green_text(green_node_view(g)) == text@,
        green_leaves(green_node_view(g)) == token_texts(lex(text@, crate::config::string_set_contents(config.citation_commands))),
        errors_ok(green_node_view(g)),
        green_kind(green_node_view(g)) == SyntaxKind::ROOT.raw(),
{
    Parser::new(text, config).parse()
}

/// The node kind of a sectioning command of level `level`.
pub open spec fn section_kind(level: SectionLevel) -> SyntaxKind {
    match level {
        SectionLevel::Part => SyntaxKind::PART,
        SectionLevel::Chapter => SyntaxKind::CHAPTER,
        SectionLevel::Section => SyntaxKind::SECTION,
        SectionLevel::Subsection => SyntaxKind::SUBSECTION,
        SectionLevel::Subsubsection => SyntaxKind::SUBSUBSECTION,
    }
}

/// The node kind of a paragraph command of level `level`.
pub open spec fn paragraph_kind(level: ParagraphLevel) -> SyntaxKind {
    match level {
        ParagraphLevel::Paragraph => SyntaxKind::PARAGRAPH,
        ParagraphLevel::Subparagraph => SyntaxKind::SUBPARAGRAPH,
    }
}

impl Parser {
    /// `\caption`, its optional short caption in brackets and its caption in
    /// braces.
    fn caption(&mut self) -> (n: SyntaxNode)
        requires
            old(self).left() > 0,
        ensures
            builds(*old(self), *final(self), n, SyntaxKind::CAPTION),
            command_with_groups(
                old(self).tokens(),
                n.children@,
                seq![(Token::LBrack, SyntaxKind::BRACK_GROUP), (Token::LCurly, SyntaxKind::CURLY_GROUP)],
            ),
        decreases old(self).left(), 1nat,
    {
        let ghost p0 = *self;
        let ghost ts = p0.lexer@;
        let mut children: Vec<SyntaxElement> = Vec::new();
        self.eat(&mut children);
        let ghost c1 = children@;
        let ghost q1 = *self;
        self.trivia(&mut children);
        let ghost k1 = q1.left() - self.left();
        let ghost t = 1 + k1;
        proof {
            lemma_after_command_trivia(ts, q1.lexer@, self.lexer@, k1);
            assert(self.lexer@ =~= ts.skip(t));
            assert(children@[0] == c1[0]);
        }
        let ghost c0 = children@;
        let ghost pa = *self;
        if matches!(self.peek(), Some(Token::LBrack)) {
            let child = self.brack_group();
            proof { lemma_group_read(ts, t, pa, *self, child, SyntaxKind::BRACK_GROUP); }
            push_node(&mut children, child);
        }
        let ghost ca = children@;
        let ghost pb = *self;
        let ghost posb = ts.len() - pb.left();
        proof {
            if ca.len() == c0.len() {
                assert(pb == pa);
            }
            assert(pb.tokens() =~= ts.skip(posb));
        }
        if matches!(self.peek(), Some(Token::LCurly)) {
            let child = self.curly_group();
            proof { lemma_group_read(ts, posb, pb, *self, child, SyntaxKind::CURLY_GROUP); }
            push_node(&mut children, child);
        }
        proof {
            let args = seq![(Token::LBrack, SyntaxKind::BRACK_GROUP), (Token::LCurly, SyntaxKind::CURLY_GROUP)];
            assert(args.drop_first().drop_first() =~= Seq::<(Token, SyntaxKind)>::empty());
            assert forall|i: int| 0 <= i < ca.len() implies #[trigger] children@[i] == ca[i] by {}
            assert forall|i: int| 0 <= i < c0.len() implies #[trigger] ca[i] == c0[i] by {}
            let rest = args.drop_first();
            if children@.len() > ca.len() {
                let g = children@[ca.len() as int]->Node_0;
                assert(optional_groups(ts, posb + g.leaves().len(), children@, (ca.len() + 1) as int, rest.drop_first()));
            } else {
                assert(optional_groups(ts, posb, children@, ca.len() as int, rest.drop_first()));
            }
            assert(optional_groups(ts, posb, children@, ca.len() as int, rest));
            assert(optional_groups(ts, t, children@, t, args));
        }
        node(SyntaxKind::CAPTION, children)
    }

    #[verifier::rlimit(40)]
    fn citation(&mut self) -> (n: SyntaxNode)
        requires
            old(self).left() > 0,
        ensures
            builds(*old(self), *final(self), n, SyntaxKind::CITATION),
            command_with_groups(old(self).tokens(), n.children@, seq![(Token::LBrack, SyntaxKind::BRACK_GROUP), (Token::LBrack, SyntaxKind::BRACK_GROUP), (Token::LCurly, SyntaxKind::CURLY_GROUP_WORD_LIST)]),
        decreases old(self).left(), 1nat,
    {
        let ghost p0 = *self;
        let ghost ts = p0.lexer@;
        let ghost args = seq![(Token::LBrack, SyntaxKind::BRACK_GROUP), (Token::LBrack, SyntaxKind::BRACK_GROUP), (Token::LCurly, SyntaxKind::CURLY_GROUP_WORD_LIST)];
        let mut children: Vec<SyntaxElement> = Vec::new();
        self.eat(&mut children);
        let ghost first = children@;
        let ghost q1 = *self;
        self.trivia(&mut children);
        let ghost t = 1 + q1.left() - self.left();
        proof {
            lemma_after_command_trivia(ts, q1.lexer@, self.lexer@, t - 1);
            assert(self.lexer@ =~= ts.skip(t));
            assert(children@[0] == first[0]);
        }
        let ghost c0 = children@;
        let ghost p0_ = *self;
        let ghost pos0 = ts.len() - self.left();
        proof {
            assert(self.tokens() =~= ts.skip(pos0));
        }
        if matches!(self.peek(), Some(Token::LBrack)) {
            let child = self.brack_group();
            proof {
                lemma_group_read(ts, pos0, p0_, *self, child, SyntaxKind::BRACK_GROUP);
            }
            push_node(&mut children, child);
        }
        let ghost c1 = children@;
        let ghost p1_ = *self;
        let ghost pos1 = ts.len() - self.left();
        proof {
            assert(self.tokens() =~= ts.skip(pos1));
        }
        if matches!(self.peek(), Some(Token::LBrack)) {
            let child = self.brack_group();
            proof {
                lemma_group_read(ts, pos1, p1_, *self, child, SyntaxKind::BRACK_GROUP);
            }
            push_node(&mut children, child);
        }
        let ghost c2 = children@;
        let ghost p2_ = *self;
        let ghost pos2 = ts.len() - self.left();
        proof {
            assert(self.tokens() =~= ts.skip(pos2));
        }
        if matches!(self.peek(), Some(Token::LCurly)) {
            let child = self.curly_group_word_list();
            proof {
                lemma_group_read(ts, pos2, p2_, *self, child, SyntaxKind::CURLY_GROUP_WORD_LIST);
            }
            push_node(&mut children, child);
        }
        let ghost c3 = children@;
        let ghost pos3 = ts.len() - self.left();
        proof {
            assert(args.skip(3) =~= Seq::<(Token, SyntaxKind)>::empty());
            assert(optional_groups(ts, pos3, children@, c3.len() as int, args.skip(3)));
            assert(args.skip(2).drop_first() =~= args.skip(3));
            assert(args.skip(2)[0] == args[2]);
            assert forall|i: int| 0 <= i < c3.len() implies #[trigger] children@[i] == c3[i] by {}
            lemma_groups_step(ts, pos2, pos3, children@, c2.len() as int, c3.len() as int, args.skip(2));
            assert(args.skip(1).drop_first() =~= args.skip(2));
            assert(args.skip(1)[0] == args[1]);
            assert forall|i: int| 0 <= i < c2.len() implies #[trigger] children@[i] == c2[i] by {}
            lemma_groups_step(ts, pos1, pos2, children@, c1.len() as int, c2.len() as int, args.skip(1));
            assert(args.skip(0).drop_first() =~= args.skip(1));
            assert(args.skip(0)[0] == args[0]);
            assert forall|i: int| 0 <= i < c1.len() implies #[trigger] children@[i] == c1[i] by {}
            lemma_groups_step(ts, pos0, pos1, children@, c0.len() as int, c1.len() as int, args.skip(0));
            assert(args.skip(0) =~= args);
            assert forall|i: int| 0 <= i < c0.len() implies #[trigger] children@[i] == c0[i] by {}
        }
        node(SyntaxKind::CITATION, children)
    }

    #[verifier::rlimit(40)]
    fn import(&mut self) -> (n: SyntaxNode)
        requires
            old(self).left() > 0,
        ensures
            builds(*old(self), *final(self), n, SyntaxKind::IMPORT),
            command_with_groups(old(self).tokens(), n.children@, seq![(Token::LCurly, SyntaxKind::CURLY_GROUP_WORD), (Token::LCurly, SyntaxKind::CURLY_GROUP_WORD)]),
        decreases old(self).left(), 1nat,
    {
        let ghost p0 = *self;
        let ghost ts = p0.lexer@;
        let ghost args = seq![(Token::LCurly, SyntaxKind::CURLY_GROUP_WORD), (Token::LCurly, SyntaxKind::CURLY_GROUP_WORD)];
        let mut children: Vec<SyntaxElement> = Vec::new();
        self.eat(&mut children);
        let ghost first = children@;
        let ghost q1 = *self;
        self.trivia(&mut children);
        let ghost t = 1 + q1.left() - self.left();
        proof {
            lemma_after_command_trivia(ts, q1.lexer@, self.lexer@, t - 1);
            assert(self.lexer@ =~= ts.skip(t));
            assert(children@[0] == first[0]);
        }
        let ghost c0 = children@;
        let ghost p0_ = *self;
        let ghost pos0 = ts.len() - self.left();
        proof {
            assert(self.tokens() =~= ts.skip(pos0));
        }
        if matches!(self.peek(), Some(Token::LCurly)) {
            let child = self.curly_group_word();
            proof {
                lemma_group_read(ts, pos0, p0_, *self, child, SyntaxKind::CURLY_GROUP_WORD);
            }
            push_node(&mut children, child);
        }
        let ghost c1 = children@;
        let ghost p1_ = *self;
        let ghost pos1 = ts.len() - self.left();
        proof {
            assert(self.tokens() =~= ts.skip(pos1));
        }
        if matches!(self.peek(), Some(Token::LCurly)) {
            let child = self.curly_group_word();
            proof {
                lemma_group_read(ts, pos1, p1_, *self, child, SyntaxKind::CURLY_GROUP_WORD);
            }
            push_node(&mut children, child);
        }
        let ghost c2 = children@;
        let ghost pos2 = ts.len() - self.left();
        proof {
            assert(args.skip(2) =~= Seq::<(Token, SyntaxKind)>::empty());
            assert(optional_groups(ts, pos2, children@, c2.len() as int, args.skip(2)));
            assert(args.skip(1).drop_first() =~= args.skip(2));
            assert(args.skip(1)[0] == args[1]);
            assert forall|i: int| 0 <= i < c2.len() implies #[trigger] children@[i] == c2[i] by {}
            lemma_groups_step(ts, pos1, pos2, children@, c1.len() as int, c2.len() as int, args.skip(1));
            assert(args.skip(0).drop_first() =~= args.skip(1));
            assert(args.skip(0)[0] == args[0]);
            assert forall|i: int| 0 <= i < c1.len() implies #[trigger] children@[i] == c1[i] by {}
            lemma_groups_step(ts, pos0, pos1, children@, c0.len() as int, c1.len() as int, args.skip(0));
            assert(args.skip(0) =~= args);
            assert forall|i: int| 0 <= i < c0.len() implies #[trigger] children@[i] == c0[i] by {}
        }
        node(SyntaxKind::IMPORT, children)
    }

    /// A label reference and, when a `{` follows the trivia, its labels as a
    /// list of words.
    fn label_reference(&mut self) -> (n: SyntaxNode)
        requires
            old(self).left() > 0,
        ensures
            builds(*old(self), *final(self), n, SyntaxKind::LABEL_REFERENCE),
            command_with_group(old(self).tokens(), n.children@, SyntaxKind::CURLY_GROUP_WORD_LIST),
        decreases old(self).left(), 1nat,
    {
        let ghost p0 = *self;
        let ghost ts = p0.lexer@;
        let mut children: Vec<SyntaxElement> = Vec::new();
        self.eat(&mut children);
        let ghost c1 = children@;
        let ghost q1 = *self;
        self.trivia(&mut children);
        let ghost k1 = q1.left() - self.left();
        proof {
            lemma_after_command_trivia(ts, q1.lexer@, self.lexer@, k1);
            assert(children@[0] == c1[0]);
        }
        if matches!(self.peek(), Some(Token::LCurly)) {
            let ghost g0 = children@;
            let child = self.curly_group_word_list();
            push_node(&mut children, child);
            proof {
                assert(children@[1 + k1] == SyntaxElement::Node(child));
                assert forall|i: int| 0 <= i < 1 + k1 implies #[trigger] children@[i] == g0[i] by {}
            }
        }
        node(SyntaxKind::LABEL_REFERENCE, children)
    }

    #[verifier::rlimit(40)]
    fn label_reference_range(&mut self) -> (n: SyntaxNode)
        requires
            old(self).left() > 0,
        ensures
            builds(*old(self), *final(self), n, SyntaxKind::LABEL_REFERENCE_RANGE),
            command_with_groups(old(self).tokens(), n.children@, seq![(Token::LCurly, SyntaxKind::CURLY_GROUP_WORD), (Token::LCurly, SyntaxKind::CURLY_GROUP_WORD)]),
        decreases old(self).left(), 1nat,
    {
        let ghost p0 = *self;
        let ghost ts = p0.lexer@;
        let ghost args = seq![(Token::LCurly, SyntaxKind::CURLY_GROUP_WORD), (Token::LCurly, SyntaxKind::CURLY_GROUP_WORD)];
        let mut children: Vec<SyntaxElement> = Vec::new();
        self.eat(&mut children);
        let ghost first = children@;
        let ghost q1 = *self;
        self.trivia(&mut children);
        let ghost t = 1 + q1.left() - self.left();
        proof {
            lemma_after_command_trivia(ts, q1.lexer@, self.lexer@, t - 1);
            assert(self.lexer@ =~= ts.skip(t));
            assert(children@[0] == first[0]);
        }
        let ghost c0 = children@;
        let ghost p0_ = *self;
        let ghost pos0 = ts.len() - self.left();
        proof {
            assert(self.tokens() =~= ts.skip(pos0));
        }
        if matches!(self.peek(), Some(Token::LCurly)) {
            let child = self.curly_group_word();
            proof {
                lemma_group_read(ts, pos0, p0_, *self, child, SyntaxKind::CURLY_GROUP_WORD);
            }
            push_node(&mut children, child);
        }
        let ghost c1 = children@;
        let ghost p1_ = *self;
        let ghost pos1 = ts.len() - self.left();
        proof {
            assert(self.tokens() =~= ts.skip(pos1));
        }
        if matches!(self.peek(), Some(Token::LCurly)) {
            let child = self.curly_group_word();
            proof {
                lemma_group_read(ts, pos1, p1_, *self, child, SyntaxKind::CURLY_GROUP_WORD);
            }
            push_node(&mut children, child);
        }
        let ghost c2 = children@;
        let ghost pos2 = ts.len() - self.left();
        proof {
            assert(args.skip(2) =~= Seq::<(Token, SyntaxKind)>::empty());
            assert(optional_groups(ts, pos2, children@, c2.len() as int, args.skip(2)));
            assert(args.skip(1).drop_first() =~= args.skip(2));
            assert(args.skip(1)[0] == args[1]);
            assert forall|i: int| 0 <= i < c2.len() implies #[trigger] children@[i] == c2[i] by {}
            lemma_groups_step(ts, pos1, pos2, children@, c1.len() as int, c2.len() as int, args.skip(1));
            assert(args.skip(0).drop_first() =~= args.skip(1));
            assert(args.skip(0)[0] == args[0]);
            assert forall|i: int| 0 <= i < c1.len() implies #[trigger] children@[i] == c1[i] by {}
            lemma_groups_step(ts, pos0, pos1, children@, c0.len() as int, c1.len() as int, args.skip(0));
            assert(args.skip(0) =~= args);
            assert forall|i: int| 0 <= i < c0.len() implies #[trigger] children@[i] == c0[i] by {}
        }
        node(SyntaxKind::LABEL_REFERENCE_RANGE, children)
    }

    #[verifier::rlimit(40)]
    fn label_number(&mut self) -> (n: SyntaxNode)
        requires
            old(self).left() > 0,
        ensures
            builds(*old(self), *final(self), n, SyntaxKind::LABEL_NUMBER),
            command_with_groups(old(self).tokens(), n.children@, seq![(Token::LCurly, SyntaxKind::CURLY_GROUP_WORD), (Token::LCurly, SyntaxKind::CURLY_GROUP)]),
        decreases old(self).left(), 1nat,
    {
        let ghost p0 = *self;
        let ghost ts = p0.lexer@;
        let ghost args = seq![(Token::LCurly, SyntaxKind::CURLY_GROUP_WORD), (Token::LCurly, SyntaxKind::CURLY_GROUP)];
        let mut children: Vec<SyntaxElement> = Vec::new();
        self.eat(&mut children);
        let ghost first = children@;
        let ghost q1 = *self;
        self.trivia(&mut children);
        let ghost t = 1 + q1.left() - self.left();
        proof {
            lemma_after_command_trivia(ts, q1.lexer@, self.lexer@, t - 1);
            assert(self.lexer@ =~= ts.skip(t));
            assert(children@[0] == first[0]);
        }
        let ghost c0 = children@;
        let ghost p0_ = *self;
        let ghost pos0 = ts.len() - self.left();
        proof {
            assert(self.tokens() =~= ts.skip(pos0));
        }
        if matches!(self.peek(), Some(Token::LCurly)) {
            let child = self.curly_group_word();
            proof {
                lemma_group_read(ts, pos0, p0_, *self, child, SyntaxKind::CURLY_GROUP_WORD);
            }
            push_node(&mut children, child);
        }
        let ghost c1 = children@;
        let ghost p1_ = *self;
        let ghost pos1 = ts.len() - self.left();
        proof {
            assert(self.tokens() =~= ts.skip(pos1));
        }
        if matches!(self.peek(), Some(Token::LCurly)) {
            let child = self.curly_group();
            proof {
                lemma_group_read(ts, pos1, p1_, *self, child, SyntaxKind::CURLY_GROUP);
            }
            push_node(&mut children, child);
        }
        let ghost c2 = children@;
        let ghost pos2 = ts.len() - self.left();
        proof {
            assert(args.skip(2) =~= Seq::<(Token, SyntaxKind)>::empty());
            assert(optional_groups(ts, pos2, children@, c2.len() as int, args.skip(2)));
            assert(args.skip(1).drop_first() =~= args.skip(2));
            assert(args.skip(1)[0] == args[1]);
            assert forall|i: int| 0 <= i < c2.len() implies #[trigger] children@[i] == c2[i] by {}
            lemma_groups_step(ts, pos1, pos2, children@, c1.len() as int, c2.len() as int, args.skip(1));
            assert(args.skip(0).drop_first() =~= args.skip(1));
            assert(args.skip(0)[0] == args[0]);
            assert forall|i: int| 0 <= i < c1.len() implies #[trigger] children@[i] == c1[i] by {}
            lemma_groups_step(ts, pos0, pos1, children@, c0.len() as int, c1.len() as int, args.skip(0));
            assert(args.skip(0) =~= args);
            assert forall|i: int| 0 <= i < c0.len() implies #[trigger] children@[i] == c0[i] by {}
        }
        node(SyntaxKind::LABEL_NUMBER, children)
    }

    #[verifier::rlimit(40)]
    fn math_operator(&mut self) -> (n: SyntaxNode)
        requires
            old(self).left() > 0,
        ensures
            builds(*old(self), *final(self), n, SyntaxKind::MATH_OPERATOR),
            command_with_groups(old(self).tokens(), n.children@, seq![(Token::LCurly, SyntaxKind::CURLY_GROUP_COMMAND), (Token::LCurly, SyntaxKind::CURLY_GROUP)]),
        decreases old(self).left(), 1nat,
    {
        let ghost p0 = *self;
        let ghost ts = p0.lexer@;
        let ghost args = seq![(Token::LCurly, SyntaxKind::CURLY_GROUP_COMMAND), (Token::LCurly, SyntaxKind::CURLY_GROUP)];
        let mut children: Vec<SyntaxElement> = Vec::new();
        self.eat(&mut children);
        let ghost first = children@;
        let ghost q1 = *self;
        self.trivia(&mut children);
        let ghost t = 1 + q1.left() - self.left();
        proof {
            lemma_after_command_trivia(ts, q1.lexer@, self.lexer@, t - 1);
            assert(self.lexer@ =~= ts.skip(t));
            assert(children@[0] == first[0]);
        }
        let ghost c0 = children@;
        let ghost p0_ = *self;
        let ghost pos0 = ts.len() - self.left();
        proof {
            assert(self.tokens() =~= ts.skip(pos0));
        }
        if matches!(self.peek(), Some(Token::LCurly)) {
            let child = self.curly_group_command();
            proof {
                lemma_group_read(ts, pos0, p0_, *self, child, SyntaxKind::CURLY_GROUP_COMMAND);
            }
            push_node(&mut children, child);
        }
        let ghost c1 = children@;
        let ghost p1_ = *self;
        let ghost pos1 = ts.len() - self.left();
        proof {
            assert(self.tokens() =~= ts.skip(pos1));
        }
        if matches!(self.peek(), Some(Token::LCurly)) {
            let child = self.curly_group_impl();
            proof {
                lemma_group_read(ts, pos1, p1_, *self, child, SyntaxKind::CURLY_GROUP);
            }
            push_node(&mut children, child);
        }
        let ghost c2 = children@;
        let ghost pos2 = ts.len() - self.left();
        proof {
            assert(args.skip(2) =~= Seq::<(Token, SyntaxKind)>::empty());
            assert(optional_groups(ts, pos2, children@, c2.len() as int, args.skip(2)));
            assert(args.skip(1).drop_first() =~= args.skip(2));
            assert(args.skip(1)[0] == args[1]);
            assert forall|i: int| 0 <= i < c2.len() implies #[trigger] children@[i] == c2[i] by {}
            lemma_groups_step(ts, pos1, pos2, children@, c1.len() as int, c2.len() as int, args.skip(1));
            assert(args.skip(0).drop_first() =~= args.skip(1));
            assert(args.skip(0)[0] == args[0]);
            assert forall|i: int| 0 <= i < c1.len() implies #[trigger] children@[i] == c1[i] by {}
            lemma_groups_step(ts, pos0, pos1, children@, c0.len() as int, c1.len() as int, args.skip(0));
            assert(args.skip(0) =~= args);
            assert forall|i: int| 0 <= i < c0.len() implies #[trigger] children@[i] == c0[i] by {}
        }
        node(SyntaxKind::MATH_OPERATOR, children)
    }

    #[verifier::rlimit(40)]
    fn glossary_entry_definition(&mut self) -> (n: SyntaxNode)
        requires
            old(self).left() > 0,
        ensures
            builds(*old(self), *final(self), n, SyntaxKind::GLOSSARY_ENTRY_DEFINITION),
            command_with_groups(old(self).tokens(), n.children@, seq![(Token::LCurly, SyntaxKind::CURLY_GROUP_WORD), (Token::LCurly, SyntaxKind::CURLY_GROUP_KEY_VALUE)]),
        decreases old(self).left(), 1nat,
    {
        let ghost p0 = *self;
        let ghost ts = p0.lexer@;
        let ghost args = seq![(Token::LCurly, SyntaxKind::CURLY_GROUP_WORD), (Token::LCurly, SyntaxKind::CURLY_GROUP_KEY_VALUE)];
        let mut children: Vec<SyntaxElement> = Vec::new();
        self.eat(&mut children);
        let ghost first = children@;
        let ghost q1 = *self;
        self.trivia(&mut children);
        let ghost t = 1 + q1.left() - self.left();
        proof {
            lemma_after_command_trivia(ts, q1.lexer@, self.lexer@, t - 1);
            assert(self.lexer@ =~= ts.skip(t));
            assert(children@[0] == first[0]);
        }
        let ghost c0 = children@;
        let ghost p0_ = *self;
        let ghost pos0 = ts.len() - self.left();
        proof {
            assert(self.tokens() =~= ts.skip(pos0));
        }
        if matches!(self.peek(), Some(Token::LCurly)) {
            let child = self.curly_group_word();
            proof {
                lemma_group_read(ts, pos0, p0_, *self, child, SyntaxKind::CURLY_GROUP_WORD);
            }
            push_node(&mut children, child);
        }
        let ghost c1 = children@;
        let ghost p1_ = *self;
        let ghost pos1 = ts.len() - self.left();
        proof {
            assert(self.tokens() =~= ts.skip(pos1));
        }
        if matches!(self.peek(), Some(Token::LCurly)) {
            let child = self.curly_group_key_value();
            proof {
                lemma_group_read(ts, pos1, p1_, *self, child, SyntaxKind::CURLY_GROUP_KEY_VALUE);
            }
            push_node(&mut children, child);
        }
        let ghost c2 = children@;
        let ghost pos2 = ts.len() - self.left();
        proof {
            assert(args.skip(2) =~= Seq::<(Token, SyntaxKind)>::empty());
            assert(optional_groups(ts, pos2, children@, c2.len() as int, args.skip(2)));
            assert(args.skip(1).drop_first() =~= args.skip(2));
            assert(args.skip(1)[0] == args[1]);
            assert forall|i: int| 0 <= i < c2.len() implies #[trigger] children@[i] == c2[i] by {}
            lemma_groups_step(ts, pos1, pos2, children@, c1.len() as int, c2.len() as int, args.skip(1));
            assert(args.skip(0).drop_first() =~= args.skip(1));
            assert(args.skip(0)[0] == args[0]);
            assert forall|i: int| 0 <= i < c1.len() implies #[trigger] children@[i] == c1[i] by {}
            lemma_groups_step(ts, pos0, pos1, children@, c0.len() as int, c1.len() as int, args.skip(0));
            assert(args.skip(0) =~= args);
            assert forall|i: int| 0 <= i < c0.len() implies #[trigger] children@[i] == c0[i] by {}
        }
        node(SyntaxKind::GLOSSARY_ENTRY_DEFINITION, children)
    }

    #[verifier::rlimit(40)]
    fn glossary_entry_reference(&mut self) -> (n: SyntaxNode)
        requires
            old(self).left() > 0,
        ensures
            builds(*old(self), *final(self), n, SyntaxKind::GLOSSARY_ENTRY_REFERENCE),
            command_with_groups(old(self).tokens(), n.children@, seq![(Token::LBrack, SyntaxKind::BRACK_GROUP_KEY_VALUE), (Token::LCurly, SyntaxKind::CURLY_GROUP_WORD)]),
        decreases old(self).left(), 1nat,
    {
        let ghost p0 = *self;
        let ghost ts = p0.lexer@;
        let ghost args = seq![(Token::LBrack, SyntaxKind::BRACK_GROUP_KEY_VALUE), (Token::LCurly, SyntaxKind::CURLY_GROUP_WORD)];
        let mut children: Vec<SyntaxElement> = Vec::new();
        self.eat(&mut children);
        let ghost first = children@;
        let ghost q1 = *self;
        self.trivia(&mut children);
        let ghost t = 1 + q1.left() - self.left();
        proof {
            lemma_after_command_trivia(ts, q1.lexer@, self.lexer@, t - 1);
            assert(self.lexer@ =~= ts.skip(t));
            assert(children@[0] == first[0]);
        }
        let ghost c0 = children@;
        let ghost p0_ = *self;
        let ghost pos0 = ts.len() - self.left();
        proof {
            assert(self.tokens() =~= ts.skip(pos0));
        }
        if matches!(self.peek(), Some(Token::LBrack)) {
            let child = self.brack_group_key_value();
            proof {
                lemma_group_read(ts, pos0, p0_, *self, child, SyntaxKind::BRACK_GROUP_KEY_VALUE);
            }
            push_node(&mut children, child);
        }
        let ghost c1 = children@;
        let ghost p1_ = *self;
        let ghost pos1 = ts.len() - self.left();
        proof {
            assert(self.tokens() =~= ts.skip(pos1));
        }
        if matches!(self.peek(), Some(Token::LCurly)) {
            let child = self.curly_group_word();
            proof {
                lemma_group_read(ts, pos1, p1_, *self, child, SyntaxKind::CURLY_GROUP_WORD);
            }
            push_node(&mut children, child);
        }
        let ghost c2 = children@;
        let ghost pos2 = ts.len() - self.left();
        proof {
            assert(args.skip(2) =~= Seq::<(Token, SyntaxKind)>::empty());
            assert(optional_groups(ts, pos2, children@, c2.len() as int, args.skip(2)));
            assert(args.skip(1).drop_first() =~= args.skip(2));
            assert(args.skip(1)[0] == args[1]);
            assert forall|i: int| 0 <= i < c2.len() implies #[trigger] children@[i] == c2[i] by {}
            lemma_groups_step(ts, pos1, pos2, children@, c1.len() as int, c2.len() as int, args.skip(1));
            assert(args.skip(0).drop_first() =~= args.skip(1));
            assert(args.skip(0)[0] == args[0]);
            assert forall|i: int| 0 <= i < c1.len() implies #[trigger] children@[i] == c1[i] by {}
            lemma_groups_step(ts, pos0, pos1, children@, c0.len() as int, c1.len() as int, args.skip(0));
            assert(args.skip(0) =~= args);
            assert forall|i: int| 0 <= i < c0.len() implies #[trigger] children@[i] == c0[i] by {}
        }
        node(SyntaxKind::GLOSSARY_ENTRY_REFERENCE, children)
    }

    fn acronym_definition(&mut self) -> (n: SyntaxNode)
        requires
            old(self).left() > 0,
        ensures
            builds(*old(self), *final(self), n, SyntaxKind::ACRONYM_DEFINITION),
        decreases old(self).left(), 1nat,
    {
        let ghost p0 = *self;
        let mut children: Vec<SyntaxElement> = Vec::new();
        self.eat(&mut children);
        self.trivia(&mut children);
        if matches!(self.peek(), Some(Token::LBrack)) {
            let child = self.brack_group_key_value();
            push_node(&mut children, child);
        }
        if matches!(self.peek(), Some(Token::LCurly)) {
            let child = self.curly_group_word();
            push_node(&mut children, child);
        }
        if matches!(self.peek(), Some(Token::LBrack)) {
            let child = self.brack_group();
            push_node(&mut children, child);
        }
        if matches!(self.peek(), Some(Token::LCurly)) {
            let child = self.curly_group();
            push_node(&mut children, child);
        }
        if matches!(self.peek(), Some(Token::LCurly)) {
            let child = self.curly_group();
            push_node(&mut children, child);
        }
        node(SyntaxKind::ACRONYM_DEFINITION, children)
    }

    #[verifier::rlimit(40)]
    fn acronym_declaration(&mut self) -> (n: SyntaxNode)
        requires
            old(self).left() > 0,
        ensures
            builds(*old(self), *final(self), n, SyntaxKind::ACRONYM_DECLARATION),
            command_with_groups(old(self).tokens(), n.children@, seq![(Token::LCurly, SyntaxKind::CURLY_GROUP_WORD), (Token::LCurly, SyntaxKind::CURLY_GROUP_KEY_VALUE)]),
        decreases old(self).left(), 1nat,
    {
        let ghost p0 = *self;
        let ghost ts = p0.lexer@;
        let ghost args = seq![(Token::LCurly, SyntaxKind::CURLY_GROUP_WORD), (Token::LCurly, SyntaxKind::CURLY_GROUP_KEY_VALUE)];
        let mut children: Vec<SyntaxElement> = Vec::new();
        self.eat(&mut children);
        let ghost first = children@;
        let ghost q1 = *self;
        self.trivia(&mut children);
        let ghost t = 1 + q1.left() - self.left();
        proof {
            lemma_after_command_trivia(ts, q1.lexer@, self.lexer@, t - 1);
            assert(self.lexer@ =~= ts.skip(t));
            assert(children@[0] == first[0]);
        }
        let ghost c0 = children@;
        let ghost p0_ = *self;
        let ghost pos0 = ts.len() - self.left();
        proof {
            assert(self.tokens() =~= ts.skip(pos0));
        }
        if matches!(self.peek(), Some(Token::LCurly)) {
            let child = self.curly_group_word();
            proof {
                lemma_group_read(ts, pos0, p0_, *self, child, SyntaxKind::CURLY_GROUP_WORD);
            }
            push_node(&mut children, child);
        }
        let ghost c1 = children@;
        let ghost p1_ = *self;
        let ghost pos1 = ts.len() - self.left();
        proof {
            assert(self.tokens() =~= ts.skip(pos1));
        }
        if matches!(self.peek(), Some(Token::LCurly)) {
            let child = self.curly_group_key_value();
            proof {
                lemma_group_read(ts, pos1, p1_, *self, child, SyntaxKind::CURLY_GROUP_KEY_VALUE);
            }
            push_node(&mut children, child);
        }
        let ghost c2 = children@;
        let ghost pos2 = ts.len() - self.left();
        proof {
            assert(args.skip(2) =~= Seq::<(Token, SyntaxKind)>::empty());
            assert(optional_groups(ts, pos2, children@, c2.len() as int, args.skip(2)));
            assert(args.skip(1).drop_first() =~= args.skip(2));
            assert(args.skip(1)[0] == args[1]);
            assert forall|i: int| 0 <= i < c2.len() implies #[trigger] children@[i] == c2[i] by {}
            lemma_groups_step(ts, pos1, pos2, children@, c1.len() as int, c2.len() as int, args.skip(1));
            assert(args.skip(0).drop_first() =~= args.skip(1));
            assert(args.skip(0)[0] == args[0]);
            assert forall|i: int| 0 <= i < c1.len() implies #[trigger] children@[i] == c1[i] by {}
            lemma_groups_step(ts, pos0, pos1, children@, c0.len() as int, c1.len() as int, args.skip(0));
            assert(args.skip(0) =~= args);
            assert forall|i: int| 0 <= i < c0.len() implies #[trigger] children@[i] == c0[i] by {}
        }
        node(SyntaxKind::ACRONYM_DECLARATION, children)
    }

    #[verifier::rlimit(40)]
    fn acronym_reference(&mut self) -> (n: SyntaxNode)
        requires
            old(self).left() > 0,
        ensures
            builds(*old(self), *final(self), n, SyntaxKind::ACRONYM_REFERENCE),
            command_with_groups(old(self).tokens(), n.children@, seq![(Token::LBrack, SyntaxKind::BRACK_GROUP_KEY_VALUE), (Token::LCurly, SyntaxKind::CURLY_GROUP_WORD)]),
        decreases old(self).left(), 1nat,
    {
        let ghost p0 = *self;
        let ghost ts = p0.lexer@;
        let ghost args = seq![(Token::LBrack, SyntaxKind::BRACK_GROUP_KEY_VALUE), (Token::LCurly, SyntaxKind::CURLY_GROUP_WORD)];
        let mut children: Vec<SyntaxElement> = Vec::new();
        self.eat(&mut children);
        let ghost first = children@;
        let ghost q1 = *self;
        self.trivia(&mut children);
        let ghost t = 1 + q1.left() - self.left();
        proof {
            lemma_after_command_trivia(ts, q1.lexer@, self.lexer@, t - 1);
            assert(self.lexer@ =~= ts.skip(t));
            assert(children@[0] == first[0]);
        }
        let ghost c0 = children@;
        let ghost p0_ = *self;
        let ghost pos0 = ts.len() - self.left();
        proof {
            assert(self.tokens() =~= ts.skip(pos0));
        }
        if matches!(self.peek(), Some(Token::LBrack)) {
            let child = self.brack_group_key_value();
            proof {
                lemma_group_read(ts, pos0, p0_, *self, child, SyntaxKind::BRACK_GROUP_KEY_VALUE);
            }
            push_node(&mut children, child);
        }
        let ghost c1 = children@;
        let ghost p1_ = *self;
        let ghost pos1 = ts.len() - self.left();
        proof {
            assert(self.tokens() =~= ts.skip(pos1));
        }
        if matches!(self.peek(), Some(Token::LCurly)) {
            let child = self.curly_group_word();
            proof {
                lemma_group_read(ts, pos1, p1_, *self, child, SyntaxKind::CURLY_GROUP_WORD);
            }
            push_node(&mut children, child);
        }
        let ghost c2 = children@;
        let ghost pos2 = ts.len() - self.left();
        proof {
            assert(args.skip(2) =~= Seq::<(Token, SyntaxKind)>::empty());
            assert(optional_groups(ts, pos2, children@, c2.len() as int, args.skip(2)));
            assert(args.skip(1).drop_first() =~= args.skip(2));
            assert(args.skip(1)[0] == args[1]);
            assert forall|i: int| 0 <= i < c2.len() implies #[trigger] children@[i] == c2[i] by {}
            lemma_groups_step(ts, pos1, pos2, children@, c1.len() as int, c2.len() as int, args.skip(1));
            assert(args.skip(0).drop_first() =~= args.skip(1));
            assert(args.skip(0)[0] == args[0]);
            assert forall|i: int| 0 <= i < c1.len() implies #[trigger] children@[i] == c1[i] by {}
            lemma_groups_step(ts, pos0, pos1, children@, c0.len() as int, c1.len() as int, args.skip(0));
            assert(args.skip(0) =~= args);
            assert forall|i: int| 0 <= i < c0.len() implies #[trigger] children@[i] == c0[i] by {}
        }
        node(SyntaxKind::ACRONYM_REFERENCE, children)
    }

    #[verifier::rlimit(100)]
    #[verifier::spinoff_prover]
    fn theorem_definition_amsthm(&mut self) -> (n: SyntaxNode)
        requires
            old(self).left() > 0,
        ensures
            builds(*old(self), *final(self), n, SyntaxKind::THEOREM_DEFINITION_AMSTHM),
            command_with_groups(old(self).tokens(), n.children@, seq![(Token::LCurly, SyntaxKind::CURLY_GROUP_WORD), (Token::LBrack, SyntaxKind::BRACK_GROUP_WORD), (Token::LCurly, SyntaxKind::CURLY_GROUP), (Token::LBrack, SyntaxKind::BRACK_GROUP_WORD)]),
        decreases old(self).left(), 1nat,
    {
        let ghost p0 = *self;
        let ghost ts = p0.lexer@;
        let ghost args = seq![(Token::LCurly, SyntaxKind::CURLY_GROUP_WORD), (Token::LBrack, SyntaxKind::BRACK_GROUP_WORD), (Token::LCurly, SyntaxKind::CURLY_GROUP), (Token::LBrack, SyntaxKind::BRACK_GROUP_WORD)];
        let mut children: Vec<SyntaxElement> = Vec::new();
        self.eat(&mut children);
        let ghost first = children@;
        let ghost q1 = *self;
        self.trivia(&mut children);
        let ghost t = 1 + q1.left() - self.left();
        proof {
            lemma_after_command_trivia(ts, q1.lexer@, self.lexer@, t - 1);
            assert(self.lexer@ =~= ts.skip(t));
            assert(children@[0] == first[0]);
        }
        let ghost c0 = children@;
        let ghost p0_ = *self;
        let ghost pos0 = ts.len() - self.left();
        proof {
            assert(self.tokens() =~= ts.skip(pos0));
        }
        if matches!(self.peek(), Some(Token::LCurly)) {
            let child = self.curly_group_word();
            proof {
                lemma_group_read(ts, pos0, p0_, *self, child, SyntaxKind::CURLY_GROUP_WORD);
            }
            push_node(&mut children, child);
        }
        let ghost c1 = children@;
        let ghost p1_ = *self;
        let ghost pos1 = ts.len() - self.left();
        proof {
            assert(self.tokens() =~= ts.skip(pos1));
        }
        if matches!(self.peek(), Some(Token::LBrack)) {
            let child = self.brack_group_word();
            proof {
                lemma_group_read(ts, pos1, p1_, *self, child, SyntaxKind::BRACK_GROUP_WORD);
            }
            push_node(&mut children, child);
        }
        let ghost c2 = children@;
        let ghost p2_ = *self;
        let ghost pos2 = ts.len() - self.left();
        proof {
            assert(self.tokens() =~= ts.skip(pos2));
        }
        if matches!(self.peek(), Some(Token::LCurly)) {
            let child = self.curly_group();
            proof {
                lemma_group_read(ts, pos2, p2_, *self, child, SyntaxKind::CURLY_GROUP);
            }
            push_node(&mut children, child);
        }
        let ghost c3 = children@;
        let ghost p3_ = *self;
        let ghost pos3 = ts.len() - self.left();
        proof {
            assert(self.tokens() =~= ts.skip(pos3));
        }
        if matches!(self.peek(), Some(Token::LBrack)) {
            let child = self.brack_group_word();
            proof {
                lemma_group_read(ts, pos3, p3_, *self, child, SyntaxKind::BRACK_GROUP_WORD);
            }
            push_node(&mut children, child);
        }
        let ghost c4 = children@;
        let ghost pos4 = ts.len() - self.left();
        proof {
            assert(args.skip(4) =~= Seq::<(Token, SyntaxKind)>::empty());
            assert(optional_groups(ts, pos4, children@, c4.len() as int, args.skip(4)));
            assert(args.skip(3).drop_first() =~= args.skip(4));
            assert(args.skip(3)[0] == args[3]);
            assert forall|i: int| 0 <= i < c4.len() implies #[trigger] children@[i] == c4[i] by {}
            lemma_groups_step(ts, pos3, pos4, children@, c3.len() as int, c4.len() as int, args.skip(3));
            assert(args.skip(2).drop_first() =~= args.skip(3));
            assert(args.skip(2)[0] == args[2]);
            assert forall|i: int| 0 <= i < c3.len() implies #[trigger] children@[i] == c3[i] by {}
            lemma_groups_step(ts, pos2, pos3, children@, c2.len() as int, c3.len() as int, args.skip(2));
            assert(args.skip(1).drop_first() =~= args.skip(2));
            assert(args.skip(1)[0] == args[1]);
            assert forall|i: int| 0 <= i < c2.len() implies #[trigger] children@[i] == c2[i] by {}
            lemma_groups_step(ts, pos1, pos2, children@, c1.len() as int, c2.len() as int, args.skip(1));
            assert(args.skip(0).drop_first() =~= args.skip(1));
            assert(args.skip(0)[0] == args[0]);
            assert forall|i: int| 0 <= i < c1.len() implies #[trigger] children@[i] == c1[i] by {}
            lemma_groups_step(ts, pos0, pos1, children@, c0.len() as int, c1.len() as int, args.skip(0));
            assert(args.skip(0) =~= args);
            assert forall|i: int| 0 <= i < c0.len() implies #[trigger] children@[i] == c0[i] by {}
        }
        node(SyntaxKind::THEOREM_DEFINITION_AMSTHM, children)
    }

    #[verifier::rlimit(40)]
    fn theorem_definition_thmtools(&mut self) -> (n: SyntaxNode)
        requires
            old(self).left() > 0,
        ensures
            builds(*old(self), *final(self), n, SyntaxKind::THEOREM_DEFINITION_THMTOOLS),
            command_with_groups(old(self).tokens(), n.children@, seq![(Token::LBrack, SyntaxKind::BRACK_GROUP_KEY_VALUE), (Token::LCurly, SyntaxKind::CURLY_GROUP_WORD)]),
        decreases old(self).left(), 1nat,
    {
        let ghost p0 = *self;
        let ghost ts = p0.lexer@;
        let ghost args = seq![(Token::LBrack, SyntaxKind::BRACK_GROUP_KEY_VALUE), (Token::LCurly, SyntaxKind::CURLY_GROUP_WORD)];
        let mut children: Vec<SyntaxElement> = Vec::new();
        self.eat(&mut children);
        let ghost first = children@;
        let ghost q1 = *self;
        self.trivia(&mut children);
        let ghost t = 1 + q1.left() - self.left();
        proof {
            lemma_after_command_trivia(ts, q1.lexer@, self.lexer@, t - 1);
            assert(self.lexer@ =~= ts.skip(t));
            assert(children@[0] == first[0]);
        }
        let ghost c0 = children@;
        let ghost p0_ = *self;
        let ghost pos0 = ts.len() - self.left();
        proof {
            assert(self.tokens() =~= ts.skip(pos0));
        }
        if matches!(self.peek(), Some(Token::LBrack)) {
            let child = self.brack_group_key_value();
            proof {
                lemma_group_read(ts, pos0, p0_, *self, child, SyntaxKind::BRACK_GROUP_KEY_VALUE);
            }
            push_node(&mut children, child);
        }
        let ghost c1 = children@;
        let ghost p1_ = *self;
        let ghost pos1 = ts.len() - self.left();
        proof {
            assert(self.tokens() =~= ts.skip(pos1));
        }
        if matches!(self.peek(), Some(Token::LCurly)) {
            let child = self.curly_group_word();
            proof {
                lemma_group_read(ts, pos1, p1_, *self, child, SyntaxKind::CURLY_GROUP_WORD);
            }
            push_node(&mut children, child);
        }
        let ghost c2 = children@;
        let ghost pos2 = ts.len() - self.left();
        proof {
            assert(args.skip(2) =~= Seq::<(Token, SyntaxKind)>::empty());
            assert(optional_groups(ts, pos2, children@, c2.len() as int, args.skip(2)));
            assert(args.skip(1).drop_first() =~= args.skip(2));
            assert(args.skip(1)[0] == args[1]);
            assert forall|i: int| 0 <= i < c2.len() implies #[trigger] children@[i] == c2[i] by {}
            lemma_groups_step(ts, pos1, pos2, children@, c1.len() as int, c2.len() as int, args.skip(1));
            assert(args.skip(0).drop_first() =~= args.skip(1));
            assert(args.skip(0)[0] == args[0]);
            assert forall|i: int| 0 <= i < c1.len() implies #[trigger] children@[i] == c1[i] by {}
            lemma_groups_step(ts, pos0, pos1, children@, c0.len() as int, c1.len() as int, args.skip(0));
            assert(args.skip(0) =~= args);
            assert forall|i: int| 0 <= i < c0.len() implies #[trigger] children@[i] == c0[i] by {}
        }
        node(SyntaxKind::THEOREM_DEFINITION_THMTOOLS, children)
    }

    /// `\color` and friends and, when a `{` follows the trivia, the color's name as
    /// a word group.
    fn color_reference(&mut self) -> (n: SyntaxNode)
        requires
            old(self).left() > 0,
        ensures
            builds(*old(self), *final(self), n, SyntaxKind::COLOR_REFERENCE),
            command_with_group(old(self).tokens(), n.children@, SyntaxKind::CURLY_GROUP_WORD),
        decreases old(self).left(), 1nat,
    {
        let ghost p0 = *self;
        let ghost ts = p0.lexer@;
        let mut children: Vec<SyntaxElement> = Vec::new();
        self.eat(&mut children);
        let ghost c1 = children@;
        let ghost q1 = *self;
        self.trivia(&mut children);
        let ghost k1 = q1.left() - self.left();
        proof {
            lemma_after_command_trivia(ts, q1.lexer@, self.lexer@, k1);
            assert(children@[0] == c1[0]);
        }
        if matches!(self.peek(), Some(Token::LCurly)) {
            let ghost g0 = children@;
            let child = self.curly_group_word();
            push_node(&mut children, child);
            proof {
                assert(children@[1 + k1] == SyntaxElement::Node(child));
                assert forall|i: int| 0 <= i < 1 + k1 implies #[trigger] children@[i] == g0[i] by {}
            }
        }
        node(SyntaxKind::COLOR_REFERENCE, children)
    }

    #[verifier::rlimit(40)]
    fn color_definition(&mut self) -> (n: SyntaxNode)
        requires
            old(self).left() > 0,
        ensures
            builds(*old(self), *final(self), n, SyntaxKind::COLOR_DEFINITION),
            command_with_groups(old(self).tokens(), n.children@, seq![(Token::LCurly, SyntaxKind::CURLY_GROUP_WORD), (Token::LCurly, SyntaxKind::CURLY_GROUP_WORD), (Token::LCurly, SyntaxKind::CURLY_GROUP)]),
        decreases old(self).left(), 1nat,
    {
        let ghost p0 = *self;
        let ghost ts = p0.lexer@;
        let ghost args = seq![(Token::LCurly, SyntaxKind::CURLY_GROUP_WORD), (Token::LCurly, SyntaxKind::CURLY_GROUP_WORD), (Token::LCurly, SyntaxKind::CURLY_GROUP)];
        let mut children: Vec<SyntaxElement> = Vec::new();
        self.eat(&mut children);
        let ghost first = children@;
        let ghost q1 = *self;
        self.trivia(&mut children);
        let ghost t = 1 + q1.left() - self.left();
        proof {
            lemma_after_command_trivia(ts, q1.lexer@, self.lexer@, t - 1);
            assert(self.lexer@ =~= ts.skip(t));
            assert(children@[0] == first[0]);
        }
        let ghost c0 = children@;
        let ghost p0_ = *self;
        let ghost pos0 = ts.len() - self.left();
        proof {
            assert(self.tokens() =~= ts.skip(pos0));
        }
        if matches!(self.peek(), Some(Token::LCurly)) {
            let child = self.curly_group_word();
            proof {
                lemma_group_read(ts, pos0, p0_, *self, child, SyntaxKind::CURLY_GROUP_WORD);
            }
            push_node(&mut children, child);
        }
        let ghost c1 = children@;
        let ghost p1_ = *self;
        let ghost pos1 = ts.len() - self.left();
        proof {
            assert(self.tokens() =~= ts.skip(pos1));
        }
        if matches!(self.peek(), Some(Token::LCurly)) {
            let child = self.curly_group_word();
            proof {
                lemma_group_read(ts, pos1, p1_, *self, child, SyntaxKind::CURLY_GROUP_WORD);
            }
            push_node(&mut children, child);
        }
        let ghost c2 = children@;
        let ghost p2_ = *self;
        let ghost pos2 = ts.len() - self.left();
        proof {
            assert(self.tokens() =~= ts.skip(pos2));
        }
        if matches!(self.peek(), Some(Token::LCurly)) {
            let child = self.curly_group();
            proof {
                lemma_group_read(ts, pos2, p2_, *self, child, SyntaxKind::CURLY_GROUP);
            }
            push_node(&mut children, child);
        }
        let ghost c3 = children@;
        let ghost pos3 = ts.len() - self.left();
        proof {
            assert(args.skip(3) =~= Seq::<(Token, SyntaxKind)>::empty());
            assert(optional_groups(ts, pos3, children@, c3.len() as int, args.skip(3)));
            assert(args.skip(2).drop_first() =~= args.skip(3));
            assert(args.skip(2)[0] == args[2]);
            assert forall|i: int| 0 <= i < c3.len() implies #[trigger] children@[i] == c3[i] by {}
            lemma_groups_step(ts, pos2, pos3, children@, c2.len() as int, c3.len() as int, args.skip(2));
            assert(args.skip(1).drop_first() =~= args.skip(2));
            assert(args.skip(1)[0] == args[1]);
            assert forall|i: int| 0 <= i < c2.len() implies #[trigger] children@[i] == c2[i] by {}
            lemma_groups_step(ts, pos1, pos2, children@, c1.len() as int, c2.len() as int, args.skip(1));
            assert(args.skip(0).drop_first() =~= args.skip(1));
            assert(args.skip(0)[0] == args[0]);
            assert forall|i: int| 0 <= i < c1.len() implies #[trigger] children@[i] == c1[i] by {}
            lemma_groups_step(ts, pos0, pos1, children@, c0.len() as int, c1.len() as int, args.skip(0));
            assert(args.skip(0) =~= args);
            assert forall|i: int| 0 <= i < c0.len() implies #[trigger] children@[i] == c0[i] by {}
        }
        node(SyntaxKind::COLOR_DEFINITION, children)
    }

    #[verifier::rlimit(100)]
    #[verifier::spinoff_prover]
    fn color_set_definition(&mut self) -> (n: SyntaxNode)
        requires
            old(self).left() > 0,
        ensures
            builds(*old(self), *final(self), n, SyntaxKind::COLOR_SET_DEFINITION),
            command_with_groups(old(self).tokens(), n.children@, seq![(Token::LBrack, SyntaxKind::BRACK_GROUP_WORD), (Token::LCurly, SyntaxKind::CURLY_GROUP_WORD_LIST), (Token::LCurly, SyntaxKind::CURLY_GROUP_WORD), (Token::LCurly, SyntaxKind::CURLY_GROUP_WORD), (Token::LCurly, SyntaxKind::CURLY_GROUP_WORD)]),
        decreases old(self).left(), 1nat,
    {
        let ghost p0 = *self;
        let ghost ts = p0.lexer@;
        let ghost args = seq![(Token::LBrack, SyntaxKind::BRACK_GROUP_WORD), (Token::LCurly, SyntaxKind::CURLY_GROUP_WORD_LIST), (Token::LCurly, SyntaxKind::CURLY_GROUP_WORD), (Token::LCurly, SyntaxKind::CURLY_GROUP_WORD), (Token::LCurly, SyntaxKind::CURLY_GROUP_WORD)];
        let mut children: Vec<SyntaxElement> = Vec::new();
        self.eat(&mut children);
        let ghost first = children@;
        let ghost q1 = *self;
        self.trivia(&mut children);
        let ghost t = 1 + q1.left() - self.left();
        proof {
            lemma_after_command_trivia(ts, q1.lexer@, self.lexer@, t - 1);
            assert(self.lexer@ =~= ts.skip(t));
            assert(children@[0] == first[0]);
        }
        let ghost c0 = children@;
        let ghost p0_ = *self;
        let ghost pos0 = ts.len() - self.left();
        proof {
            assert(self.tokens() =~= ts.skip(pos0));
        }
        if matches!(self.peek(), Some(Token::LBrack)) {
            let child = self.brack_group_word();
            proof {
                lemma_group_read(ts, pos0, p0_, *self, child, SyntaxKind::BRACK_GROUP_WORD);
            }
            push_node(&mut children, child);
        }
        let ghost c1 = children@;
        let ghost p1_ = *self;
        let ghost pos1 = ts.len() - self.left();
        proof {
            assert(self.tokens() =~= ts.skip(pos1));
        }
        if matches!(self.peek(), Some(Token::LCurly)) {
            let child = self.curly_group_word_list();
            proof {
                lemma_group_read(ts, pos1, p1_, *self, child, SyntaxKind::CURLY_GROUP_WORD_LIST);
            }
            push_node(&mut children, child);
        }
        let ghost c2 = children@;
        let ghost p2_ = *self;
        let ghost pos2 = ts.len() - self.left();
        proof {
            assert(self.tokens() =~= ts.skip(pos2));
        }
        if matches!(self.peek(), Some(Token::LCurly)) {
            let child = self.curly_group_word();
            proof {
                lemma_group_read(ts, pos2, p2_, *self, child, SyntaxKind::CURLY_GROUP_WORD);
            }
            push_node(&mut children, child);
        }
        let ghost c3 = children@;
        let ghost p3_ = *self;
        let ghost pos3 = ts.len() - self.left();
        proof {
            assert(self.tokens() =~= ts.skip(pos3));
        }
        if matches!(self.peek(), Some(Token::LCurly)) {
            let child = self.curly_group_word();
            proof {
                lemma_group_read(ts, pos3, p3_, *self, child, SyntaxKind::CURLY_GROUP_WORD);
            }
            push_node(&mut children, child);
        }
        let ghost c4 = children@;
        let ghost p4_ = *self;
        let ghost pos4 = ts.len() - self.left();
        proof {
            assert(self.tokens() =~= ts.skip(pos4));
        }
        if matches!(self.peek(), Some(Token::LCurly)) {
            let child = self.curly_group_word();
            proof {
                lemma_group_read(ts, pos4, p4_, *self, child, SyntaxKind::CURLY_GROUP_WORD);
            }
            push_node(&mut children, child);
        }
        let ghost c5 = children@;
        let ghost pos5 = ts.len() - self.left();
        proof {
            assert(args.skip(5) =~= Seq::<(Token, SyntaxKind)>::empty());
            assert(optional_groups(ts, pos5, children@, c5.len() as int, args.skip(5)));
            assert(args.skip(4).drop_first() =~= args.skip(5));
            assert(args.skip(4)[0] == args[4]);
            assert forall|i: int| 0 <= i < c5.len() implies #[trigger] children@[i] == c5[i] by {}
            lemma_groups_step(ts, pos4, pos5, children@, c4.len() as int, c5.len() as int, args.skip(4));
            assert(args.skip(3).drop_first() =~= args.skip(4));
            assert(args.skip(3)[0] == args[3]);
            assert forall|i: int| 0 <= i < c4.len() implies #[trigger] children@[i] == c4[i] by {}
            lemma_groups_step(ts, pos3, pos4, children@, c3.len() as int, c4.len() as int, args.skip(3));
            assert(args.skip(2).drop_first() =~= args.skip(3));
            assert(args.skip(2)[0] == args[2]);
            assert forall|i: int| 0 <= i < c3.len() implies #[trigger] children@[i] == c3[i] by {}
            lemma_groups_step(ts, pos2, pos3, children@, c2.len() as int, c3.len() as int, args.skip(2));
            assert(args.skip(1).drop_first() =~= args.skip(2));
            assert(args.skip(1)[0] == args[1]);
            assert forall|i: int| 0 <= i < c2.len() implies #[trigger] children@[i] == c2[i] by {}
            lemma_groups_step(ts, pos1, pos2, children@, c1.len() as int, c2.len() as int, args.skip(1));
            assert(args.skip(0).drop_first() =~= args.skip(1));
            assert(args.skip(0)[0] == args[0]);
            assert forall|i: int| 0 <= i < c1.len() implies #[trigger] children@[i] == c1[i] by {}
            lemma_groups_step(ts, pos0, pos1, children@, c0.len() as int, c1.len() as int, args.skip(0));
            assert(args.skip(0) =~= args);
            assert forall|i: int| 0 <= i < c0.len() implies #[trigger] children@[i] == c0[i] by {}
        }
        node(SyntaxKind::COLOR_SET_DEFINITION, children)
    }

    /// A TikZ library import and, when a `{` follows the trivia, its libraries
    /// as a list of words.
    fn tikz_library_import(&mut self) -> (n: SyntaxNode)
        requires
            old(self).left() > 0,
        ensures
            builds(*old(self), *final(self), n, SyntaxKind::TIKZ_LIBRARY_IMPORT),
            command_with_group(old(self).tokens(), n.children@, SyntaxKind::CURLY_GROUP_WORD_LIST),
        decreases old(self).left(), 1nat,
    {
        let ghost p0 = *self;
        let ghost ts = p0.lexer@;
        let mut children: Vec<SyntaxElement> = Vec::new();
        self.eat(&mut children);
        let ghost c1 = children@;
        let ghost q1 = *self;
        self.trivia(&mut children);
        let ghost k1 = q1.left() - self.left();
        proof {
            lemma_after_command_trivia(ts, q1.lexer@, self.lexer@, k1);
            assert(children@[0] == c1[0]);
        }
        if matches!(self.peek(), Some(Token::LCurly)) {
            let ghost g0 = children@;
            let child = self.curly_group_word_list();
            push_node(&mut children, child);
            proof {
                assert(children@[1 + k1] == SyntaxElement::Node(child));
                assert forall|i: int| 0 <= i < 1 + k1 implies #[trigger] children@[i] == g0[i] by {}
            }
        }
        node(SyntaxKind::TIKZ_LIBRARY_IMPORT, children)
    }

    /// `\bibitem` and, when a `{` follows its trivia, the item's key as a
    /// word group.
    fn bibitem(&mut self) -> (n: SyntaxNode)
        requires
            old(self).left() > 0,
        ensures
            builds(*old(self), *final(self), n, SyntaxKind::BIBITEM),
            command_with_word_group(old(self).tokens(), n.children@),
            command_with_group(old(self).tokens(), n.children@, SyntaxKind::CURLY_GROUP_WORD),
        decreases old(self).left(), 1nat,
    {
        let ghost p0 = *self;
        let ghost ts = p0.lexer@;
        let mut children: Vec<SyntaxElement> = Vec::new();
        self.eat(&mut children);
        let ghost c1 = children@;
        let ghost q1 = *self;
        self.trivia(&mut children);
        let ghost k1 = q1.left() - self.left();
        proof {
            lemma_after_command_trivia(ts, q1.lexer@, self.lexer@, k1);
            assert(self.lexer@ =~= ts.skip(1 + k1));
            assert(children@[0] == c1[0]);
        }
        if matches!(self.peek(), Some(Token::LCurly)) {
            let ghost g0 = children@;
            let child = self.curly_group_word();
            push_node(&mut children, child);
            proof {
                assert(children@[1 + k1] == SyntaxElement::Node(child));
                assert forall|i: int| 0 <= i < 1 + k1 implies #[trigger] children@[i] == g0[i] by {}
            }
        }
        node(SyntaxKind::BIBITEM, children)
    }

    #[verifier::rlimit(40)]
    fn toc_contents_line(&mut self) -> (n: SyntaxNode)
        requires
            old(self).left() > 0,
        ensures
            builds(*old(self), *final(self), n, SyntaxKind::TOC_CONTENTS_LINE),
            command_with_groups(old(self).tokens(), n.children@, seq![(Token::LCurly, SyntaxKind::CURLY_GROUP), (Token::LCurly, SyntaxKind::CURLY_GROUP), (Token::LCurly, SyntaxKind::CURLY_GROUP)]),
        decreases old(self).left(), 1nat,
    {
        let ghost p0 = *self;
        let ghost ts = p0.lexer@;
        let ghost args = seq![(Token::LCurly, SyntaxKind::CURLY_GROUP), (Token::LCurly, SyntaxKind::CURLY_GROUP), (Token::LCurly, SyntaxKind::CURLY_GROUP)];
        let mut children: Vec<SyntaxElement> = Vec::new();
        self.eat(&mut children);
        let ghost first = children@;
        let ghost q1 = *self;
        self.trivia(&mut children);
        let ghost t = 1 + q1.left() - self.left();
        proof {
            lemma_after_command_trivia(ts, q1.lexer@, self.lexer@, t - 1);
            assert(self.lexer@ =~= ts.skip(t));
            assert(children@[0] == first[0]);
        }
        let ghost c0 = children@;
        let ghost p0_ = *self;
        let ghost pos0 = ts.len() - self.left();
        proof {
            assert(self.tokens() =~= ts.skip(pos0));
        }
        if matches!(self.peek(), Some(Token::LCurly)) {
            let child = self.curly_group();
            proof {
                lemma_group_read(ts, pos0, p0_, *self, child, SyntaxKind::CURLY_GROUP);
            }
            push_node(&mut children, child);
        }
        let ghost c1 = children@;
        let ghost p1_ = *self;
        let ghost pos1 = ts.len() - self.left();
        proof {
            assert(self.tokens() =~= ts.skip(pos1));
        }
        if matches!(self.peek(), Some(Token::LCurly)) {
            let child = self.curly_group();
            proof {
                lemma_group_read(ts, pos1, p1_, *self, child, SyntaxKind::CURLY_GROUP);
            }
            push_node(&mut children, child);
        }
        let ghost c2 = children@;
        let ghost p2_ = *self;
        let ghost pos2 = ts.len() - self.left();
        proof {
            assert(self.tokens() =~= ts.skip(pos2));
        }
        if matches!(self.peek(), Some(Token::LCurly)) {
            let child = self.curly_group();
            proof {
                lemma_group_read(ts, pos2, p2_, *self, child, SyntaxKind::CURLY_GROUP);
            }
            push_node(&mut children, child);
        }
        let ghost c3 = children@;
        let ghost pos3 = ts.len() - self.left();
        proof {
            assert(args.skip(3) =~= Seq::<(Token, SyntaxKind)>::empty());
            assert(optional_groups(ts, pos3, children@, c3.len() as int, args.skip(3)));
            assert(args.skip(2).drop_first() =~= args.skip(3));
            assert(args.skip(2)[0] == args[2]);
            assert forall|i: int| 0 <= i < c3.len() implies #[trigger] children@[i] == c3[i] by {}
            lemma_groups_step(ts, pos2, pos3, children@, c2.len() as int, c3.len() as int, args.skip(2));
            assert(args.skip(1).drop_first() =~= args.skip(2));
            assert(args.skip(1)[0] == args[1]);
            assert forall|i: int| 0 <= i < c2.len() implies #[trigger] children@[i] == c2[i] by {}
            lemma_groups_step(ts, pos1, pos2, children@, c1.len() as int, c2.len() as int, args.skip(1));
            assert(args.skip(0).drop_first() =~= args.skip(1));
            assert(args.skip(0)[0] == args[0]);
            assert forall|i: int| 0 <= i < c1.len() implies #[trigger] children@[i] == c1[i] by {}
            lemma_groups_step(ts, pos0, pos1, children@, c0.len() as int, c1.len() as int, args.skip(0));
            assert(args.skip(0) =~= args);
            assert forall|i: int| 0 <= i < c0.len() implies #[trigger] children@[i] == c0[i] by {}
        }
        node(SyntaxKind::TOC_CONTENTS_LINE, children)
    }

    /// `\numberline` and, when a `{` follows the trivia, its number as a curly
    /// group.
    fn toc_number_line(&mut self) -> (n: SyntaxNode)
        requires
            old(self).left() > 0,
        ensures
            builds(*old(self), *final(self), n, SyntaxKind::TOC_NUMBER_LINE),
            command_with_group(old(self).tokens(), n.children@, SyntaxKind::CURLY_GROUP),
        decreases old(self).left(), 1nat,
    {
        let ghost p0 = *self;
        let ghost ts = p0.lexer@;
        let mut children: Vec<SyntaxElement> = Vec::new();
        self.eat(&mut children);
        let ghost c1 = children@;
        let ghost q1 = *self;
        self.trivia(&mut children);
        let ghost k1 = q1.left() - self.left();
        proof {
            lemma_after_command_trivia(ts, q1.lexer@, self.lexer@, k1);
            assert(children@[0] == c1[0]);
        }
        if matches!(self.peek(), Some(Token::LCurly)) {
            let ghost g0 = children@;
            let child = self.curly_group();
            push_node(&mut children, child);
            proof {
                assert(children@[1 + k1] == SyntaxElement::Node(child));
                assert forall|i: int| 0 <= i < 1 + k1 implies #[trigger] children@[i] == g0[i] by {}
            }
        }
        node(SyntaxKind::TOC_NUMBER_LINE, children)
    }

    #[verifier::rlimit(40)]
    fn begin(&mut self) -> (n: SyntaxNode)
        requires
            old(self).left() > 0,
        ensures
            builds(*old(self), *final(self), n, SyntaxKind::BEGIN),
            command_with_groups(old(self).tokens(), n.children@, seq![(Token::LCurly, SyntaxKind::CURLY_GROUP_WORD), (Token::LBrack, SyntaxKind::BRACK_GROUP)]),
        decreases old(self).left(), 1nat,
    {
        let ghost p0 = *self;
        let ghost ts = p0.lexer@;
        let ghost args = seq![(Token::LCurly, SyntaxKind::CURLY_GROUP_WORD), (Token::LBrack, SyntaxKind::BRACK_GROUP)];
        let mut children: Vec<SyntaxElement> = Vec::new();
        self.eat(&mut children);
        let ghost first = children@;
        let ghost q1 = *self;
        self.trivia(&mut children);
        let ghost t = 1 + q1.left() - self.left();
        proof {
            lemma_after_command_trivia(ts, q1.lexer@, self.lexer@, t - 1);
            assert(self.lexer@ =~= ts.skip(t));
            assert(children@[0] == first[0]);
        }
        let ghost c0 = children@;
        let ghost p0_ = *self;
        let ghost pos0 = ts.len() - self.left();
        proof {
            assert(self.tokens() =~= ts.skip(pos0));
        }
        if matches!(self.peek(), Some(Token::LCurly)) {
            let child = self.curly_group_word();
            proof {
                lemma_group_read(ts, pos0, p0_, *self, child, SyntaxKind::CURLY_GROUP_WORD);
            }
            push_node(&mut children, child);
        }
        let ghost c1 = children@;
        let ghost p1_ = *self;
        let ghost pos1 = ts.len() - self.left();
        proof {
            assert(self.tokens() =~= ts.skip(pos1));
        }
        if matches!(self.peek(), Some(Token::LBrack)) {
            let child = self.brack_group();
            proof {
                lemma_group_read(ts, pos1, p1_, *self, child, SyntaxKind::BRACK_GROUP);
            }
            push_node(&mut children, child);
        }
        let ghost c2 = children@;
        let ghost pos2 = ts.len() - self.left();
        proof {
            assert(args.skip(2) =~= Seq::<(Token, SyntaxKind)>::empty());
            assert(optional_groups(ts, pos2, children@, c2.len() as int, args.skip(2)));
            assert(args.skip(1).drop_first() =~= args.skip(2));
            assert(args.skip(1)[0] == args[1]);
            assert forall|i: int| 0 <= i < c2.len() implies #[trigger] children@[i] == c2[i] by {}
            lemma_groups_step(ts, pos1, pos2, children@, c1.len() as int, c2.len() as int, args.skip(1));
            assert(args.skip(0).drop_first() =~= args.skip(1));
            assert(args.skip(0)[0] == args[0]);
            assert forall|i: int| 0 <= i < c1.len() implies #[trigger] children@[i] == c1[i] by {}
            lemma_groups_step(ts, pos0, pos1, children@, c0.len() as int, c1.len() as int, args.skip(0));
            assert(args.skip(0) =~= args);
            assert forall|i: int| 0 <= i < c0.len() implies #[trigger] children@[i] == c0[i] by {}
        }
        node(SyntaxKind::BEGIN, children)
    }

    /// `\end` and, when a `{` follows the trivia, the environment's name as a
    /// word group.
    fn end(&mut self) -> (n: SyntaxNode)
        requires
            old(self).left() > 0,
        ensures
            builds(*old(self), *final(self), n, SyntaxKind::END),
            command_with_group(old(self).tokens(), n.children@, SyntaxKind::CURLY_GROUP_WORD),
        decreases old(self).left(), 1nat,
    {
        let ghost p0 = *self;
        let ghost ts = p0.lexer@;
        let mut children: Vec<SyntaxElement> = Vec::new();
        self.eat(&mut children);
        let ghost c1 = children@;
        let ghost q1 = *self;
        self.trivia(&mut children);
        let ghost k1 = q1.left() - self.left();
        proof {
            lemma_after_command_trivia(ts, q1.lexer@, self.lexer@, k1);
            assert(children@[0] == c1[0]);
        }
        if matches!(self.peek(), Some(Token::LCurly)) {
            let ghost g0 = children@;
            let child = self.curly_group_word();
            push_node(&mut children, child);
            proof {
                assert(children@[1 + k1] == SyntaxElement::Node(child));
                assert forall|i: int| 0 <= i < 1 + k1 implies #[trigger] children@[i] == g0[i] by {}
            }
        }
        node(SyntaxKind::END, children)
    }

    fn new_command_definition(&mut self) -> (n: SyntaxNode)
        requires
            old(self).left() > 0,
        ensures
            builds(*old(self), *final(self), n, SyntaxKind::COMMAND_DEFINITION),
        decreases old(self).left(), 1nat,
    {
        let ghost p0 = *self;
        let mut children: Vec<SyntaxElement> = Vec::new();
        self.eat(&mut children);
        self.trivia(&mut children);
        if matches!(self.peek(), Some(Token::LCurly)) {
            let child = self.curly_group_command();
            push_node(&mut children, child);
        }
        if matches!(self.peek(), Some(Token::LBrack)) {
            let child = self.brack_group_word();
            push_node(&mut children, child);
            if matches!(self.peek(), Some(Token::LBrack)) {
                let child = self.brack_group();
                push_node(&mut children, child);
            }
        }
        if matches!(self.peek(), Some(Token::LCurly)) {
            let child = self.curly_group_impl();
            push_node(&mut children, child);
        }
        node(SyntaxKind::COMMAND_DEFINITION, children)
    }

    fn environment_definition(&mut self) -> (n: SyntaxNode)
        requires
            old(self).left() > 0,
        ensures
            builds(*old(self), *final(self), n, SyntaxKind::ENVIRONMENT_DEFINITION),
        decreases old(self).left(), 1nat,
    {
        let ghost p0 = *self;
        let mut children: Vec<SyntaxElement> = Vec::new();
        self.eat(&mut children);
        self.trivia(&mut children);
        if matches!(self.peek(), Some(Token::LCurly)) {
            let child = self.curly_group_word();
            push_node(&mut children, child);
        }
        if matches!(self.peek(), Some(Token::LBrack)) {
            let child = self.brack_group_word();
            push_node(&mut children, child);
            if matches!(self.peek(), Some(Token::LBrack)) {
                let child = self.brack_group();
                push_node(&mut children, child);
            }
        }
        if matches!(self.peek(), Some(Token::LCurly)) {
            let child = self.curly_group_without_environments();
            push_node(&mut children, child);
        }
        if matches!(self.peek(), Some(Token::LCurly)) {
            let child = self.curly_group_without_environments();
            push_node(&mut children, child);
        }
        node(SyntaxKind::ENVIRONMENT_DEFINITION, children)
    }

    fn old_command_definition(&mut self) -> (n: SyntaxNode)
        requires
            old(self).left() > 0,
        ensures
            builds(*old(self), *final(self), n, SyntaxKind::OLD_COMMAND_DEFINITION),
        decreases old(self).left(), 1nat,
    {
        let ghost p0 = *self;
        let mut children: Vec<SyntaxElement> = Vec::new();
        self.eat(&mut children);
        self.trivia(&mut children);
        if matches!(self.peek(), Some(Token::CommandName(_))) {
            self.eat(&mut children);
            self.trivia(&mut children);
        }
        node(SyntaxKind::OLD_COMMAND_DEFINITION, children)
    }
}

} // verus!
