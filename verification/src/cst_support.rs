use vstd::prelude::*;

use crate::text::{is_white_space, is_whitespace};
use crate::tree::{elements_view, green_seq_text, SyntaxElement, SyntaxNode, SyntaxToken};

verus! {

/// The children of a node that are nodes, in order.
pub open spec fn child_nodes(s: Seq<SyntaxElement>) -> Seq<SyntaxNode>
    decreases s.len(),
{
    if s.len() == 0 {
        Seq::empty()
    } else {
        match s.last() {
            SyntaxElement::Node(n) => child_nodes(s.drop_last()).push(n),
            SyntaxElement::Token(_) => child_nodes(s.drop_last()),
        }
    }
}

/// The children of a node that are tokens, in order.
pub open spec fn child_tokens(s: Seq<SyntaxElement>) -> Seq<SyntaxToken>
    decreases s.len(),
{
    if s.len() == 0 {
        Seq::empty()
    } else {
        match s.last() {
            SyntaxElement::Token(t) => child_tokens(s.drop_last()).push(t),
            SyntaxElement::Node(_) => child_tokens(s.drop_last()),
        }
    }
}

/// The nodes of `s` whose kind is one of `kinds`, in order.
pub open spec fn nodes_with_kind(s: Seq<SyntaxNode>, kinds: Seq<u16>) -> Seq<SyntaxNode>
    decreases s.len(),
{
    if s.len() == 0 {
        Seq::empty()
    } else if kinds.contains(s.last().kind) {
        nodes_with_kind(s.drop_last(), kinds).push(s.last())
    } else {
        nodes_with_kind(s.drop_last(), kinds)
    }
}

/// The tokens of `s` whose kind is one of `kinds`, in order.
pub open spec fn tokens_with_kind(s: Seq<SyntaxToken>, kinds: Seq<u16>) -> Seq<SyntaxToken>
    decreases s.len(),
{
    if s.len() == 0 {
        Seq::empty()
    } else if kinds.contains(s.last().kind) {
        tokens_with_kind(s.drop_last(), kinds).push(s.last())
    } else {
        tokens_with_kind(s.drop_last(), kinds)
    }
}

/// The tokens of `s` whose kind is none of `kinds`, in order.
pub open spec fn tokens_without_kind(s: Seq<SyntaxToken>, kinds: Seq<u16>) -> Seq<SyntaxToken>
    decreases s.len(),
{
    if s.len() == 0 {
        Seq::empty()
    } else if !kinds.contains(s.last().kind) {
        tokens_without_kind(s.drop_last(), kinds).push(s.last())
    } else {
        tokens_without_kind(s.drop_last(), kinds)
    }
}

/// The first token of a node in document order: the first child when it is
/// a token, else the first token of the first child; none for a node without
/// children.
pub open spec fn first_token_of(n: SyntaxNode) -> Option<SyntaxToken>
    decreases n,
{
    if n.children@.len() == 0 {
        None
    } else {
        match n.children@[0] {
            SyntaxElement::Token(t) => Some(t),
            SyntaxElement::Node(m) => {
                proof {
                    assert(decreases_to!(n => n.children));
                    assert(decreases_to!(n.children => n.children@));
                    assert(decreases_to!(n.children@ => n.children@[0]));
                }
                first_token_of(m)
            },
        }
    }
}

/// The nodes of a subtree in document order, its root first.
pub open spec fn descendants(n: SyntaxNode) -> Seq<SyntaxNode>
    decreases n,
{
    seq![n] + descendants_of_seq(n.children@)
}

/// The nodes of the subtrees in `s`, in document order.
pub open spec fn descendants_of_seq(s: Seq<SyntaxElement>) -> Seq<SyntaxNode>
    decreases s,
{
    if s.len() == 0 {
        Seq::empty()
    } else {
        descendants_of_seq(s.drop_last()) + match s.last() {
            SyntaxElement::Node(m) => descendants(m),
            SyntaxElement::Token(_) => Seq::empty(),
        }
    }
}

/// The tokens of a subtree in document order.
pub open spec fn descendant_tokens(n: SyntaxNode) -> Seq<SyntaxToken>
    decreases n,
{
    descendant_tokens_of_seq(n.children@)
}

/// The tokens of the elements `s`, in document order.
pub open spec fn descendant_tokens_of_seq(s: Seq<SyntaxElement>) -> Seq<SyntaxToken>
    decreases s,
{
    if s.len() == 0 {
        Seq::empty()
    } else {
        descendant_tokens_of_seq(s.drop_last()) + match s.last() {
            SyntaxElement::Node(m) => descendant_tokens(m),
            SyntaxElement::Token(t) => seq![t],
        }
    }
}

/// The texts of tokens, concatenated.
pub open spec fn tokens_text(s: Seq<SyntaxToken>) -> Seq<char>
    decreases s.len(),
{
    if s.len() == 0 {
        Seq::empty()
    } else {
        tokens_text(s.drop_last()) + s.last().text@
    }
}

/// `s` without the white space at its end.
pub open spec fn trim_end(s: Seq<char>) -> Seq<char>
    decreases s.len(),
{
    if s.len() > 0 && is_white_space(s.last()) {
        trim_end(s.drop_last())
    } else {
        s
    }
}

/// `s` without the white space at its start.
pub open spec fn trim_start(s: Seq<char>) -> Seq<char>
    decreases s.len(),
{
    if s.len() > 0 && is_white_space(s[0]) {
        trim_start(s.drop_first())
    } else {
        s
    }
}

/// `s` without the white space at either end, as `str::trim` gives it.
pub open spec fn trim(s: Seq<char>) -> Seq<char> {
    trim_start(trim_end(s))
}

fn kind_in(kind: u16, kinds: &Vec<u16>) -> (b: bool)
    ensures
        b == kinds@.contains(kind),
{
    let mut i: usize = 0;
    while i < kinds.len()
        invariant
            i <= kinds.len(),
            forall|j: int| 0 <= j < i ==> kinds@[j] != kind,
        decreases kinds.len() - i,
    {
        if kinds[i] == kind {
            return true;
        }
        i += 1;
    }
    false
}

proof fn lemma_with_kind_push(x: Seq<SyntaxNode>, n: SyntaxNode, y: Seq<SyntaxToken>, t: SyntaxToken, kinds: Seq<u16>)
    ensures
        nodes_with_kind(x.push(n), kinds) == if kinds.contains(n.kind) {
            nodes_with_kind(x, kinds).push(n)
        } else {
            nodes_with_kind(x, kinds)
        },
        tokens_with_kind(y.push(t), kinds) == if kinds.contains(t.kind) {
            tokens_with_kind(y, kinds).push(t)
        } else {
            tokens_with_kind(y, kinds)
        },
        tokens_without_kind(y.push(t), kinds) == if !kinds.contains(t.kind) {
            tokens_without_kind(y, kinds).push(t)
        } else {
            tokens_without_kind(y, kinds)
        },
{
    assert(x.push(n).drop_last() =~= x);
    assert(y.push(t).drop_last() =~= y);
}

/// How the filtered children grow by one element.
proof fn lemma_step(s: Seq<SyntaxElement>, i: int, kinds: Seq<u16>)
    requires
        0 <= i < s.len(),
    ensures
        nodes_with_kind(child_nodes(s.take(i + 1)), kinds) == match s[i] {
            SyntaxElement::Node(n) => if kinds.contains(n.kind) {
                nodes_with_kind(child_nodes(s.take(i)), kinds).push(n)
            } else {
                nodes_with_kind(child_nodes(s.take(i)), kinds)
            },
            SyntaxElement::Token(_) => nodes_with_kind(child_nodes(s.take(i)), kinds),
        },
        tokens_with_kind(child_tokens(s.take(i + 1)), kinds) == match s[i] {
            SyntaxElement::Token(t) => if kinds.contains(t.kind) {
                tokens_with_kind(child_tokens(s.take(i)), kinds).push(t)
            } else {
                tokens_with_kind(child_tokens(s.take(i)), kinds)
            },
            SyntaxElement::Node(_) => tokens_with_kind(child_tokens(s.take(i)), kinds),
        },
        tokens_without_kind(child_tokens(s.take(i + 1)), kinds) == match s[i] {
            SyntaxElement::Token(t) => if !kinds.contains(t.kind) {
                tokens_without_kind(child_tokens(s.take(i)), kinds).push(t)
            } else {
                tokens_without_kind(child_tokens(s.take(i)), kinds)
            },
            SyntaxElement::Node(_) => tokens_without_kind(child_tokens(s.take(i)), kinds),
        },
{
    lemma_child_nodes_push(s, i);
    match s[i] {
        SyntaxElement::Node(n) => {
            lemma_with_kind_push(child_nodes(s.take(i)), n, child_tokens(s.take(i)), arbitrary(), kinds);
        },
        SyntaxElement::Token(t) => {
            lemma_with_kind_push(child_nodes(s.take(i)), arbitrary(), child_tokens(s.take(i)), t, kinds);
        },
    }
}

proof fn lemma_child_nodes_push(s: Seq<SyntaxElement>, i: int)
    requires
        0 <= i < s.len(),
    ensures
        child_nodes(s.take(i + 1)) == match s[i] {
            SyntaxElement::Node(n) => child_nodes(s.take(i)).push(n),
            SyntaxElement::Token(_) => child_nodes(s.take(i)),
        },
        child_tokens(s.take(i + 1)) == match s[i] {
            SyntaxElement::Token(t) => child_tokens(s.take(i)).push(t),
            SyntaxElement::Node(_) => child_tokens(s.take(i)),
        },
{
    assert(s.take(i + 1).drop_last() =~= s.take(i));
}

/// The child node of `node` that is the `skip`-th (from 0) of those whose kind
/// is one of `kinds`, if there is one.
pub fn nth_child_node<'a>(node: &'a SyntaxNode, kinds: &Vec<u16>, skip: usize) -> (r: Option<
    &'a SyntaxNode,
>)
    ensures
        r.is_some() == (skip < nodes_with_kind(child_nodes(node.children@), kinds@).len()),
        r.is_some() ==> *r.unwrap() == nodes_with_kind(child_nodes(node.children@), kinds@)[skip as int],
{
    let ghost all = node.children@;
    let mut count: usize = 0;
    let mut i: usize = 0;
    while i < node.children.len()
        invariant
            i <= all.len(),
            all == node.children@,
            count == nodes_with_kind(child_nodes(all.take(i as int)), kinds@).len(),
            count <= skip,
        decreases all.len() - i,
    {
        proof {
            lemma_step(all, i as int, kinds@);
        }
        match &node.children[i] {
            SyntaxElement::Node(n) => {
                if kind_in(n.kind, kinds) {
                    if count == skip {
                        proof {
                            lemma_with_kind_prefix(all, i as int + 1, kinds@);
                            assert(nodes_with_kind(child_nodes(all.take(i + 1)), kinds@)[skip as int] == *n);
                        }
                        return Some(n);
                    }
                    count += 1;
                }
            },
            SyntaxElement::Token(_) => {},
        }
        i += 1;
    }
    proof {
        assert(all.take(i as int) =~= all);
    }
    None
}

/// Filtering a prefix of the children gives a prefix of the filtered children.
proof fn lemma_with_kind_prefix(s: Seq<SyntaxElement>, i: int, kinds: Seq<u16>)
    requires
        0 <= i <= s.len(),
    ensures
        nodes_with_kind(child_nodes(s.take(i)), kinds).len() <= nodes_with_kind(child_nodes(s), kinds).len(),
        forall|j: int|
            0 <= j < nodes_with_kind(child_nodes(s.take(i)), kinds).len() ==> #[trigger] nodes_with_kind(
                child_nodes(s.take(i)),
                kinds,
            )[j] == nodes_with_kind(child_nodes(s), kinds)[j],
        tokens_with_kind(child_tokens(s.take(i)), kinds).len() <= tokens_with_kind(child_tokens(s), kinds).len(),
        forall|j: int|
            0 <= j < tokens_with_kind(child_tokens(s.take(i)), kinds).len() ==> #[trigger] tokens_with_kind(
                child_tokens(s.take(i)),
                kinds,
            )[j] == tokens_with_kind(child_tokens(s), kinds)[j],
    decreases s.len() - i,
{
    if i < s.len() {
        lemma_with_kind_prefix(s, i + 1, kinds);
        lemma_step(s, i, kinds);
        let a = nodes_with_kind(child_nodes(s.take(i)), kinds);
        let b = nodes_with_kind(child_nodes(s.take(i + 1)), kinds);
        assert forall|j: int| 0 <= j < a.len() implies #[trigger] a[j] == nodes_with_kind(
            child_nodes(s),
            kinds,
        )[j] by {
            assert(a[j] == b[j]);
        }
        let c = tokens_with_kind(child_tokens(s.take(i)), kinds);
        let d = tokens_with_kind(child_tokens(s.take(i + 1)), kinds);
        assert forall|j: int| 0 <= j < c.len() implies #[trigger] c[j] == tokens_with_kind(
            child_tokens(s),
            kinds,
        )[j] by {
            assert(c[j] == d[j]);
        }
    } else {
        assert(s.take(i) =~= s);
    }
}

/// The child token of `node` that is the `skip`-th (from 0) of those whose
/// kind is one of `kinds`, if there is one.
pub fn nth_child_token<'a>(node: &'a SyntaxNode, kinds: &Vec<u16>, skip: usize) -> (r: Option<
    &'a SyntaxToken,
>)
    ensures
        r.is_some() == (skip < tokens_with_kind(child_tokens(node.children@), kinds@).len()),
        r.is_some() ==> *r.unwrap() == tokens_with_kind(child_tokens(node.children@), kinds@)[skip as int],
{
    let ghost all = node.children@;
    let mut count: usize = 0;
    let mut i: usize = 0;
    while i < node.children.len()
        invariant
            i <= all.len(),
            all == node.children@,
            count == tokens_with_kind(child_tokens(all.take(i as int)), kinds@).len(),
            count <= skip,
        decreases all.len() - i,
    {
        proof {
            lemma_step(all, i as int, kinds@);
        }
        match &node.children[i] {
            SyntaxElement::Token(t) => {
                if kind_in(t.kind, kinds) {
                    if count == skip {
                        proof {
                            lemma_with_kind_prefix(all, i as int + 1, kinds@);
                            assert(tokens_with_kind(child_tokens(all.take(i + 1)), kinds@)[skip as int] == *t);
                        }
                        return Some(t);
                    }
                    count += 1;
                }
            },
            SyntaxElement::Node(_) => {},
        }
        i += 1;
    }
    proof {
        assert(all.take(i as int) =~= all);
    }
    None
}

/// The child nodes of `node` whose kind is one of `kinds`, in order.
pub fn child_nodes_with_kind<'a>(node: &'a SyntaxNode, kinds: &Vec<u16>) -> (r: Vec<&'a SyntaxNode>)
    ensures
        r@.len() == nodes_with_kind(child_nodes(node.children@), kinds@).len(),
        forall|j: int| 0 <= j < r@.len() ==> *#[trigger] r@[j] == nodes_with_kind(child_nodes(node.children@), kinds@)[j],
{
    let ghost all = node.children@;
    let mut r: Vec<&'a SyntaxNode> = Vec::new();
    let mut i: usize = 0;
    while i < node.children.len()
        invariant
            i <= all.len(),
            all == node.children@,
            r@.len() == nodes_with_kind(child_nodes(all.take(i as int)), kinds@).len(),
            forall|j: int| 0 <= j < r@.len() ==> *#[trigger] r@[j] == nodes_with_kind(child_nodes(all.take(i as int)), kinds@)[j],
        decreases all.len() - i,
    {
        proof {
            lemma_step(all, i as int, kinds@);
        }
        match &node.children[i] {
            SyntaxElement::Node(n) => {
                if kind_in(n.kind, kinds) {
                    r.push(n);
                }
            },
            SyntaxElement::Token(_) => {},
        }
        i += 1;
    }
    proof {
        assert(all.take(i as int) =~= all);
    }
    r
}

/// The child tokens of `node` whose kind is none of `kinds`, in order.
pub fn child_tokens_without_kind<'a>(node: &'a SyntaxNode, kinds: &Vec<u16>) -> (r: Vec<&'a SyntaxToken>)
    ensures
        r@.len() == tokens_without_kind(child_tokens(node.children@), kinds@).len(),
        forall|j: int| 0 <= j < r@.len() ==> *#[trigger] r@[j] == tokens_without_kind(child_tokens(node.children@), kinds@)[j],
{
    let ghost all = node.children@;
    let mut r: Vec<&'a SyntaxToken> = Vec::new();
    let mut i: usize = 0;
    while i < node.children.len()
        invariant
            i <= all.len(),
            all == node.children@,
            r@.len() == tokens_without_kind(child_tokens(all.take(i as int)), kinds@).len(),
            forall|j: int| 0 <= j < r@.len() ==> *#[trigger] r@[j] == tokens_without_kind(child_tokens(all.take(i as int)), kinds@)[j],
        decreases all.len() - i,
    {
        proof {
            lemma_step(all, i as int, kinds@);
        }
        match &node.children[i] {
            SyntaxElement::Token(t) => {
                if !kind_in(t.kind, kinds) {
                    r.push(t);
                }
            },
            SyntaxElement::Node(_) => {},
        }
        i += 1;
    }
    proof {
        assert(all.take(i as int) =~= all);
    }
    r
}

/// The child tokens of `node` whose kind is one of `kinds`, in order.
pub fn child_tokens_with_kind<'a>(node: &'a SyntaxNode, kinds: &Vec<u16>) -> (r: Vec<&'a SyntaxToken>)
    ensures
        r@.len() == tokens_with_kind(child_tokens(node.children@), kinds@).len(),
        forall|j: int| 0 <= j < r@.len() ==> *#[trigger] r@[j] == tokens_with_kind(child_tokens(node.children@), kinds@)[j],
{
    let ghost all = node.children@;
    let mut r: Vec<&'a SyntaxToken> = Vec::new();
    let mut i: usize = 0;
    while i < node.children.len()
        invariant
            i <= all.len(),
            all == node.children@,
            r@.len() == tokens_with_kind(child_tokens(all.take(i as int)), kinds@).len(),
            forall|j: int| 0 <= j < r@.len() ==> *#[trigger] r@[j] == tokens_with_kind(child_tokens(all.take(i as int)), kinds@)[j],
        decreases all.len() - i,
    {
        proof {
            lemma_step(all, i as int, kinds@);
        }
        match &node.children[i] {
            SyntaxElement::Token(t) => {
                if kind_in(t.kind, kinds) {
                    r.push(t);
                }
            },
            SyntaxElement::Node(_) => {},
        }
        i += 1;
    }
    proof {
        assert(all.take(i as int) =~= all);
    }
    r
}

/// The first token of `node` in document order.
pub fn first_token<'a>(node: &'a SyntaxNode) -> (r: Option<&'a SyntaxToken>)
    ensures
        r.is_some() == first_token_of(*node).is_some(),
        r.is_some() ==> *r.unwrap() == first_token_of(*node).unwrap(),
    decreases node,
{
    if node.children.len() == 0 {
        None
    } else {
        match &node.children[0] {
            SyntaxElement::Token(t) => Some(t),
            SyntaxElement::Node(m) => {
                proof {
                    assert(decreases_to!(node => node.children));
                    assert(decreases_to!(node.children => node.children@));
                    assert(decreases_to!(node.children@ => node.children@[0]));
                }
                first_token(m)
            },
        }
    }
}


/// The nodes that references point to.
pub open spec fn deref_nodes(s: Seq<&SyntaxNode>) -> Seq<SyntaxNode> {
    Seq::new(s.len(), |i: int| *s[i])
}

/// Filtering nodes by kind distributes over concatenation.
pub proof fn lemma_nodes_with_kind_add(a: Seq<SyntaxNode>, b: Seq<SyntaxNode>, kinds: Seq<u16>)
    ensures
        nodes_with_kind(a + b, kinds) == nodes_with_kind(a, kinds) + nodes_with_kind(b, kinds),
    decreases b.len(),
{
    if b.len() == 0 {
        assert(a + b =~= a);
        assert(nodes_with_kind(a, kinds) + nodes_with_kind(b, kinds) =~= nodes_with_kind(a, kinds));
    } else {
        lemma_nodes_with_kind_add(a, b.drop_last(), kinds);
        assert((a + b).drop_last() =~= a + b.drop_last());
        assert((a + b).last() == b.last());
        if kinds.contains(b.last().kind) {
            assert(nodes_with_kind(a + b, kinds) =~= nodes_with_kind(a, kinds) + nodes_with_kind(b, kinds));
        } else {
            assert(nodes_with_kind(a + b, kinds) =~= nodes_with_kind(a, kinds) + nodes_with_kind(b, kinds));
        }
    }
}

/// Filtering out tokens by kind distributes over concatenation.
pub proof fn lemma_tokens_without_kind_add(a: Seq<SyntaxToken>, b: Seq<SyntaxToken>, kinds: Seq<u16>)
    ensures
        tokens_without_kind(a + b, kinds) == tokens_without_kind(a, kinds) + tokens_without_kind(b, kinds),
    decreases b.len(),
{
    if b.len() == 0 {
        assert(a + b =~= a);
        assert(tokens_without_kind(a, kinds) + tokens_without_kind(b, kinds) =~= tokens_without_kind(a, kinds));
    } else {
        lemma_tokens_without_kind_add(a, b.drop_last(), kinds);
        assert((a + b).drop_last() =~= a + b.drop_last());
        assert((a + b).last() == b.last());
        assert(tokens_without_kind(a + b, kinds) =~= tokens_without_kind(a, kinds) + tokens_without_kind(b, kinds));
    }
}

/// The text of concatenated tokens is the concatenation of their texts.
pub proof fn lemma_tokens_text_add(a: Seq<SyntaxToken>, b: Seq<SyntaxToken>)
    ensures
        tokens_text(a + b) == tokens_text(a) + tokens_text(b),
    decreases b.len(),
{
    if b.len() == 0 {
        assert(a + b =~= a);
        assert(tokens_text(a) + tokens_text(b) =~= tokens_text(a));
    } else {
        lemma_tokens_text_add(a, b.drop_last());
        assert((a + b).drop_last() =~= a + b.drop_last());
        assert((a + b).last() == b.last());
        assert(tokens_text(a + b) =~= tokens_text(a) + tokens_text(b));
    }
}

/// Appends to `out` the nodes of the subtree of `node`, in document order,
/// whose kind is one of `kinds`.
pub fn descendants_with_kind<'a>(node: &'a SyntaxNode, kinds: &Vec<u16>, out: &mut Vec<&'a SyntaxNode>)
    ensures
        deref_nodes(final(out)@) == deref_nodes(old(out)@) + nodes_with_kind(descendants(*node), kinds@),
    decreases node,
{
    let ghost start = deref_nodes(out@);
    if kind_in(node.kind, kinds) {
        out.push(node);
    }
    proof {
        assert(seq![*node].drop_last() =~= Seq::<SyntaxNode>::empty());
        assert(nodes_with_kind(Seq::<SyntaxNode>::empty(), kinds@) =~= Seq::<SyntaxNode>::empty());
        assert(node.children@.take(0) =~= Seq::<SyntaxElement>::empty());
        assert(seq![*node] + descendants_of_seq(node.children@.take(0)) =~= seq![*node]);
        assert(deref_nodes(out@) =~= start + nodes_with_kind(seq![*node] + descendants_of_seq(node.children@.take(0)), kinds@));
    }
    let ghost all = node.children@;
    let mut i: usize = 0;
    while i < node.children.len()
        invariant
            i <= all.len(),
            all == node.children@,
            deref_nodes(out@) == start + nodes_with_kind(seq![*node] + descendants_of_seq(all.take(i as int)), kinds@),
        decreases all.len() - i,
    {
        let ghost before = deref_nodes(out@);
        proof {
            assert(all.take(i + 1).drop_last() =~= all.take(i as int));
            assert(all.take(i + 1).last() == all[i as int]);
        }
        match &node.children[i] {
            SyntaxElement::Node(m) => {
                proof {
                    assert(decreases_to!(node => node.children));
                    assert(decreases_to!(node.children => node.children@));
                    assert(decreases_to!(node.children@ => node.children@[i as int]));
                }
                descendants_with_kind(m, kinds, out);
                proof {
                    let d = descendants_of_seq(all.take(i as int));
                    assert(descendants_of_seq(all.take(i + 1)) == d + descendants(*m));
                    assert(seq![*node] + (d + descendants(*m)) =~= (seq![*node] + d) + descendants(*m));
                    lemma_nodes_with_kind_add(seq![*node] + d, descendants(*m), kinds@);
                    assert(deref_nodes(out@) =~= start + nodes_with_kind(seq![*node] + descendants_of_seq(all.take(i + 1)), kinds@));
                }
            },
            SyntaxElement::Token(_) => {
                proof {
                    let d = descendants_of_seq(all.take(i as int));
                    assert(descendants_of_seq(all.take(i + 1)) =~= d + Seq::<SyntaxNode>::empty());
                    assert(d + Seq::<SyntaxNode>::empty() =~= d);
                }
            },
        }
        i += 1;
    }
    proof {
        assert(all.take(i as int) =~= all);
    }
}

/// Appends to `out` the characters of the tokens of the subtree of `node`, in
/// document order, leaving out tokens of kind `excluded`.
pub fn collect_text(node: &SyntaxNode, excluded: u16, out: &mut Vec<char>)
    ensures
        final(out)@ == old(out)@ + tokens_text(tokens_without_kind(descendant_tokens(*node), seq![excluded])),
    decreases node,
{
    let ghost start = out@;
    let ghost ex = seq![excluded];
    let ghost all = node.children@;
    proof {
        assert(all.take(0) =~= Seq::<SyntaxElement>::empty());
        assert(tokens_without_kind(Seq::<SyntaxToken>::empty(), ex) =~= Seq::<SyntaxToken>::empty());
        assert(tokens_text(Seq::<SyntaxToken>::empty()) =~= Seq::<char>::empty());
        assert(out@ =~= start + tokens_text(tokens_without_kind(descendant_tokens_of_seq(all.take(0)), ex)));
    }
    let mut i: usize = 0;
    while i < node.children.len()
        invariant
            i <= all.len(),
            all == node.children@,
            ex == seq![excluded],
            out@ == start + tokens_text(tokens_without_kind(descendant_tokens_of_seq(all.take(i as int)), ex)),
        decreases all.len() - i,
    {
        let ghost before = out@;
        let ghost d = descendant_tokens_of_seq(all.take(i as int));
        proof {
            assert(all.take(i + 1).drop_last() =~= all.take(i as int));
            assert(all.take(i + 1).last() == all[i as int]);
        }
        match &node.children[i] {
            SyntaxElement::Node(m) => {
                proof {
                    assert(decreases_to!(node => node.children));
                    assert(decreases_to!(node.children => node.children@));
                    assert(decreases_to!(node.children@ => node.children@[i as int]));
                }
                collect_text(m, excluded, out);
                proof {
                    assert(descendant_tokens_of_seq(all.take(i + 1)) == d + descendant_tokens(*m));
                    lemma_tokens_without_kind_add(d, descendant_tokens(*m), ex);
                    lemma_tokens_text_add(tokens_without_kind(d, ex), tokens_without_kind(descendant_tokens(*m), ex));
                    assert(out@ =~= start + tokens_text(tokens_without_kind(descendant_tokens_of_seq(all.take(i + 1)), ex)));
                }
            },
            SyntaxElement::Token(t) => {
                if t.kind != excluded {
                    let cs = crate::text::chars_of(t.text.as_str());
                    let mut j: usize = 0;
                    while j < cs.len()
                        invariant
                            j <= cs.len(),
                            out@ == before + cs@.take(j as int),
                        decreases cs.len() - j,
                    {
                        out.push(cs[j]);
                        assert(cs@.take(j + 1) =~= cs@.take(j as int).push(cs@[j as int]));
                        j += 1;
                    }
                    assert(cs@.take(j as int) =~= cs@);
                }
                proof {
                    assert(descendant_tokens_of_seq(all.take(i + 1)) == d + seq![*t]);
                    lemma_tokens_without_kind_add(d, seq![*t], ex);
                    lemma_tokens_text_add(tokens_without_kind(d, ex), tokens_without_kind(seq![*t], ex));
                    assert(seq![*t].drop_last() =~= Seq::<SyntaxToken>::empty());
                    assert(tokens_without_kind(Seq::<SyntaxToken>::empty(), ex) =~= Seq::<SyntaxToken>::empty());
                    assert(seq![*t].last() == *t);
                    assert(ex.contains(t.kind) == (t.kind == excluded)) by {
                        if t.kind == excluded {
                            assert(ex[0] == excluded);
                        }
                    }
                    if t.kind != excluded {
                        assert(tokens_without_kind(seq![*t], ex) =~= seq![*t]);
                        assert(tokens_text(Seq::<SyntaxToken>::empty()) =~= Seq::<char>::empty());
                        assert(tokens_text(seq![*t]) =~= t.text@);
                    } else {
                        assert(tokens_without_kind(seq![*t], ex) =~= Seq::<SyntaxToken>::empty());
                    }
                    assert(out@ =~= start + tokens_text(tokens_without_kind(descendant_tokens_of_seq(all.take(i + 1)), ex)));
                }
            },
        }
        i += 1;
    }
    proof {
        assert(all.take(i as int) =~= all);
    }
}

/// The position after the last character of `s[..end]` that is not white
/// space.
pub fn trim_end_len(s: &Vec<char>, end: usize) -> (e: usize)
    requires
        end <= s.len(),
    ensures
        e <= end,
        s@.take(e as int) == trim_end(s@.take(end as int)),
{
    let mut e = end;
    while e > 0 && is_whitespace(s[e - 1])
        invariant
            e <= end <= s.len(),
            trim_end(s@.take(e as int)) == trim_end(s@.take(end as int)),
        decreases e,
    {
        assert(s@.take(e as int).drop_last() =~= s@.take(e - 1));
        e -= 1;
    }
    proof {
        if e > 0 {
            assert(s@.take(e as int).last() == s@[e - 1]);
        }
    }
    e
}

/// The position of the first character of `s[start..end]` that is not white
/// space.
pub fn trim_start_pos(s: &Vec<char>, start: usize, end: usize) -> (b: usize)
    requires
        start <= end <= s.len(),
    ensures
        start <= b <= end,
        s@.subrange(b as int, end as int) == trim_start(s@.subrange(start as int, end as int)),
{
    let mut b = start;
    while b < end && is_whitespace(s[b])
        invariant
            start <= b <= end <= s.len(),
            trim_start(s@.subrange(b as int, end as int)) == trim_start(s@.subrange(start as int, end as int)),
        decreases end - b,
    {
        assert(s@.subrange(b as int, end as int).drop_first() =~= s@.subrange(b + 1, end as int));
        b += 1;
    }
    proof {
        if b < end {
            assert(s@.subrange(b as int, end as int)[0] == s@[b as int]);
        }
    }
    b
}

/// The text of a group with its delimiters: its tokens' texts, comments (of
/// kind `comment`) left out, without white space at the end.
pub open spec fn group_text(node: SyntaxNode, comment: u16) -> Seq<char> {
    trim_end(tokens_text(tokens_without_kind(descendant_tokens(node), seq![comment])))
}

/// Whether the group text can lose its first and last character as single
/// bytes: it has at least two characters and both are ASCII.
pub open spec fn group_text_sliceable(node: SyntaxNode, comment: u16) -> bool {
    let t = group_text(node, comment);
    t.len() >= 2 && (t[0] as u32) < 0x80 && (t.last() as u32) < 0x80
}

/// The content of a group: its text without the first and last character
/// (the delimiters) and without white space at either end.
pub open spec fn group_content(node: SyntaxNode, comment: u16) -> Seq<char> {
    let t = group_text(node, comment);
    trim(t.subrange(1, t.len() - 1))
}

/// The content of a group as a string.
pub fn group_content_text(node: &SyntaxNode, comment: u16) -> (r: String)
    requires
        group_text_sliceable(*node, comment),
    ensures
        r@ == group_content(*node, comment),
{
    let mut chars: Vec<char> = Vec::new();
    collect_text(node, comment, &mut chars);
    assert(chars@ =~= tokens_text(tokens_without_kind(descendant_tokens(*node), seq![comment])));
    let e = trim_end_len(&chars, chars.len());
    assert(chars@.take(chars.len() as int) =~= chars@);
    let ghost t = group_text(*node, comment);
    assert(t == chars@.take(e as int));
    let mut inner: Vec<char> = Vec::new();
    let mut i: usize = 1;
    while i < e - 1
        invariant
            1 <= i <= e - 1,
            e <= chars@.len(),
            inner@ == chars@.subrange(1, i as int),
        decreases e - 1 - i,
    {
        inner.push(chars[i]);
        assert(inner@ =~= chars@.subrange(1, i + 1));
        i += 1;
    }
    assert(inner@ =~= t.subrange(1, t.len() - 1));
    let e2 = trim_end_len(&inner, inner.len());
    assert(inner@.take(inner.len() as int) =~= inner@);
    let b = trim_start_pos(&inner, 0, e2);
    assert(inner@.subrange(0, e2 as int) =~= inner@.take(e2 as int));
    crate::text::string_of_range(&inner, b, e2)
}


/// The `i`-th (from 0) child node of `n` whose kind is one of `kinds`.
pub open spec fn nth_node(n: SyntaxNode, kinds: Seq<u16>, i: int) -> Option<SyntaxNode> {
    let f = nodes_with_kind(child_nodes(n.children@), kinds);
    if 0 <= i < f.len() {
        Some(f[i])
    } else {
        None
    }
}

/// The `i`-th (from 0) child token of `n` whose kind is one of `kinds`.
pub open spec fn nth_token(n: SyntaxNode, kinds: Seq<u16>, i: int) -> Option<SyntaxToken> {
    let f = tokens_with_kind(child_tokens(n.children@), kinds);
    if 0 <= i < f.len() {
        Some(f[i])
    } else {
        None
    }
}

/// A list of one kind.
pub fn kinds1(a: u16) -> (v: Vec<u16>)
    ensures
        v@ == seq![a],
{
    let mut v = Vec::new();
    v.push(a);
    v
}

/// A list of two kinds.
pub fn kinds2(a: u16, b: u16) -> (v: Vec<u16>)
    ensures
        v@ == seq![a, b],
{
    let mut v = Vec::new();
    v.push(a);
    v.push(b);
    v
}

/// Appends the characters of `text` to `out`.
pub fn push_str_chars(out: &mut Vec<char>, text: &str)
    ensures
        final(out)@ == old(out)@ + text@,
{
    let cs = crate::text::chars_of(text);
    let ghost before = out@;
    let mut j: usize = 0;
    while j < cs.len()
        invariant
            j <= cs.len(),
            cs@ == text@,
            out@ == before + cs@.take(j as int),
        decreases cs.len() - j,
    {
        out.push(cs[j]);
        assert(cs@.take(j + 1) =~= cs@.take(j as int).push(cs@[j as int]));
        j += 1;
    }
    assert(cs@.take(j as int) =~= cs@);
}

/// Appends the text of `node` to `out`.
pub fn collect_node_text(node: &SyntaxNode, out: &mut Vec<char>)
    ensures
        final(out)@ == old(out)@ + node.text(),
    decreases node,
{
    let ghost start = out@;
    let ghost all = node.children@;
    let ghost views = elements_view(all);
    proof {
        crate::tree::lemma_elements_view_index(all);
        assert(views.take(0) =~= Seq::<crate::tree::GreenView>::empty());
        assert(out@ =~= start + green_seq_text(views.take(0)));
    }
    let mut i: usize = 0;
    while i < node.children.len()
        invariant
            i <= all.len(),
            all == node.children@,
            views == elements_view(all),
            views.len() == all.len(),
            forall|j: int| 0 <= j < all.len() ==> #[trigger] views[j] == all[j].view(),
            out@ == start + green_seq_text(views.take(i as int)),
        decreases all.len() - i,
    {
        let ghost before = out@;
        proof {
            assert(views.take(i + 1) =~= views.take(i as int).push(views[i as int]));
            crate::tree::lemma_green_seq_push(views.take(i as int), views[i as int]);
        }
        match &node.children[i] {
            SyntaxElement::Node(m) => {
                proof {
                    assert(decreases_to!(node => node.children));
                    assert(decreases_to!(node.children => node.children@));
                    assert(decreases_to!(node.children@ => node.children@[i as int]));
                }
                collect_node_text(m, out);
            },
            SyntaxElement::Token(t) => {
                push_str_chars(out, t.text.as_str());
            },
        }
        i += 1;
    }
    proof {
        assert(views.take(i as int) =~= views);
    }
}

/// The text of `node` as a string.
pub fn node_text_string(node: &SyntaxNode) -> (s: String)
    ensures
        s@ == node.text(),
{
    let mut chars: Vec<char> = Vec::new();
    collect_node_text(node, &mut chars);
    assert(chars@ =~= node.text());
    crate::text::string_of_range(&chars, 0, chars.len())
}

/// A node that filtering by kinds keeps has one of the kinds.
pub proof fn lemma_nodes_with_kind_kinds(s: Seq<SyntaxNode>, kinds: Seq<u16>)
    ensures
        forall|i: int| 0 <= i < nodes_with_kind(s, kinds).len() ==> kinds.contains(
            #[trigger] nodes_with_kind(s, kinds)[i].kind,
        ),
    decreases s.len(),
{
    if s.len() > 0 {
        lemma_nodes_with_kind_kinds(s.drop_last(), kinds);
        let r = nodes_with_kind(s, kinds);
        let p = nodes_with_kind(s.drop_last(), kinds);
        assert forall|i: int| 0 <= i < r.len() implies kinds.contains(#[trigger] r[i].kind) by {
            if kinds.contains(s.last().kind) && i < p.len() {
                assert(r[i] == p[i]);
            }
        }
    }
}
/// The tokens that references point to.
pub open spec fn deref_tokens(s: Seq<&SyntaxToken>) -> Seq<SyntaxToken> {
    Seq::new(s.len(), |i: int| *s[i])
}

/// Appends to `out` the tokens of the subtree of `node`, in document order.
pub fn collect_tokens<'a>(node: &'a SyntaxNode, out: &mut Vec<&'a SyntaxToken>)
    ensures
        deref_tokens(final(out)@) == deref_tokens(old(out)@) + descendant_tokens(*node),
    decreases node,
{
    let ghost start = deref_tokens(out@);
    let ghost all = node.children@;
    proof {
        assert(all.take(0) =~= Seq::<SyntaxElement>::empty());
        assert(deref_tokens(out@) =~= start + descendant_tokens_of_seq(all.take(0)));
    }
    let mut i: usize = 0;
    while i < node.children.len()
        invariant
            i <= all.len(),
            all == node.children@,
            deref_tokens(out@) == start + descendant_tokens_of_seq(all.take(i as int)),
        decreases all.len() - i,
    {
        let ghost d = descendant_tokens_of_seq(all.take(i as int));
        proof {
            assert(all.take(i + 1).drop_last() =~= all.take(i as int));
            assert(all.take(i + 1).last() == all[i as int]);
        }
        match &node.children[i] {
            SyntaxElement::Node(m) => {
                proof {
                    assert(decreases_to!(node => node.children));
                    assert(decreases_to!(node.children => node.children@));
                    assert(decreases_to!(node.children@ => node.children@[i as int]));
                }
                collect_tokens(m, out);
                proof {
                    assert(descendant_tokens_of_seq(all.take(i + 1)) == d + descendant_tokens(*m));
                    assert(deref_tokens(out@) =~= start + descendant_tokens_of_seq(all.take(i + 1)));
                }
            },
            SyntaxElement::Token(t) => {
                let ghost before = deref_tokens(out@);
                out.push(t);
                proof {
                    assert(descendant_tokens_of_seq(all.take(i + 1)) == d + seq![*t]);
                    assert(deref_tokens(out@) =~= before + seq![*t]);
                    assert(deref_tokens(out@) =~= start + descendant_tokens_of_seq(all.take(i + 1)));
                }
            },
        }
        i += 1;
    }
    proof {
        assert(all.take(i as int) =~= all);
    }
}

/// Whether the text of a group can lose its delimiters by slicing: what
/// `content_text` and the functions built on it need of a group.
pub fn group_text_is_sliceable(node: &SyntaxNode, comment: u16) -> (b: bool)
    ensures
        b == group_text_sliceable(*node, comment),
{
    let mut chars: Vec<char> = Vec::new();
    collect_text(node, comment, &mut chars);
    let e = trim_end_len(&chars, chars.len());
    proof {
        assert(chars@.take(chars@.len() as int) =~= chars@);
        assert(chars@ =~= Seq::<char>::empty() + chars@);
    }
    let ghost t = group_text(*node, comment);
    assert(t == chars@.take(e as int));
    e >= 2 && (chars[0] as u32) < 0x80 && (chars[e - 1] as u32) < 0x80
}

} // verus!
