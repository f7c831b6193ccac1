use vstd::prelude::*;

verus! {

/// The abstract value of a syntax element, as plain values: a token (its raw
/// kind and its text) or a node (its raw kind and its children in order).
pub enum GreenView {
    Token(u16, Seq<char>),
    Node(u16, Seq<GreenView>),
}

/// The text that a syntax element covers: its tokens' texts, concatenated in
/// order.
pub open spec fn green_text(g: GreenView) -> Seq<char>
    decreases g,
{
    match g {
        GreenView::Token(_, text) => text,
        GreenView::Node(_, children) => green_seq_text(children),
    }
}

/// The concatenated text of a sequence of syntax elements.
pub open spec fn green_seq_text(children: Seq<GreenView>) -> Seq<char>
    decreases children,
{
    if children.len() == 0 {
        Seq::empty()
    } else {
        green_seq_text(children.drop_last()) + green_text(children.last())
    }
}

/// The texts of the tokens that a syntax element holds, in order.
pub open spec fn green_leaves(g: GreenView) -> Seq<Seq<char>>
    decreases g,
{
    match g {
        GreenView::Token(_, text) => seq![text],
        GreenView::Node(_, children) => green_seq_leaves(children),
    }
}

/// The texts of the tokens that a sequence of syntax elements holds, in
/// order.
pub open spec fn green_seq_leaves(children: Seq<GreenView>) -> Seq<Seq<char>>
    decreases children,
{
    if children.len() == 0 {
        Seq::empty()
    } else {
        green_seq_leaves(children.drop_last()) + green_leaves(children.last())
    }
}

/// The raw kind of a syntax element.
pub open spec fn green_kind(g: GreenView) -> u16 {
    match g {
        GreenView::Token(k, _) => k,
        GreenView::Node(k, _) => k,
    }
}

/// A token of a syntax tree: its raw kind and its text.
#[derive(Debug, PartialEq, Eq, Clone)]
pub struct SyntaxToken {
    pub kind: u16,
    pub text: String,
}

/// A node of a syntax tree: its raw kind and its children in order.
#[derive(Debug, PartialEq, Eq)]
pub struct SyntaxNode {
    pub kind: u16,
    pub children: Vec<SyntaxElement>,
}

/// A child of a node: a node or a token.
#[derive(Debug, PartialEq, Eq)]
pub enum SyntaxElement {
    Node(SyntaxNode),
    Token(SyntaxToken),
}

impl SyntaxToken {
    pub open spec fn view(&self) -> GreenView {
        GreenView::Token(self.kind, self.text@)
    }
}

impl SyntaxElement {
    pub open spec fn view(&self) -> GreenView
        decreases self,
    {
        match self {
            SyntaxElement::Token(t) => GreenView::Token(t.kind, t.text@),
            SyntaxElement::Node(n) => GreenView::Node(n.kind, elements_view(n.children@)),
        }
    }
}

impl SyntaxNode {
    pub open spec fn view(&self) -> GreenView {
        GreenView::Node(self.kind, elements_view(self.children@))
    }

    /// The text that the node covers.
    pub open spec fn text(&self) -> Seq<char> {
        green_text(self.view())
    }

    /// The texts of the node's tokens, in order.
    pub open spec fn leaves(&self) -> Seq<Seq<char>> {
        green_leaves(self.view())
    }
}

/// The views of a sequence of elements.
pub open spec fn elements_view(s: Seq<SyntaxElement>) -> Seq<GreenView>
    decreases s,
{
    if s.len() == 0 {
        Seq::empty()
    } else {
        elements_view(s.drop_last()).push(s.last().view())
    }
}

/// The concatenated text of a sequence of elements.
pub open spec fn elements_text(s: Seq<SyntaxElement>) -> Seq<char> {
    green_seq_text(elements_view(s))
}

/// The texts of the tokens of a sequence of elements, in order.
pub open spec fn elements_leaves(s: Seq<SyntaxElement>) -> Seq<Seq<char>> {
    green_seq_leaves(elements_view(s))
}

/// Concatenation of sequences is associative.
pub broadcast proof fn lemma_add_assoc<A>(a: Seq<A>, b: Seq<A>, c: Seq<A>)
    ensures
        #[trigger] ((a + b) + c) == a + (b + c),
{
    assert((a + b) + c =~= a + (b + c));
}

/// The empty sequence is a left unit of concatenation.
pub broadcast proof fn lemma_empty_add<A>(a: Seq<A>)
    ensures
        #[trigger] (Seq::<A>::empty() + a) == a,
{
    assert(Seq::<A>::empty() + a =~= a);
}

/// The views of a sequence keep their length and position.
pub proof fn lemma_elements_view_index(s: Seq<SyntaxElement>)
    ensures
        elements_view(s).len() == s.len(),
        forall|i: int| 0 <= i < s.len() ==> #[trigger] elements_view(s)[i] == s[i].view(),
    decreases s.len(),
{
    if s.len() > 0 {
        lemma_elements_view_index(s.drop_last());
    }
}

/// Appending an element appends its view and its text.
pub proof fn lemma_elements_push(s: Seq<SyntaxElement>, e: SyntaxElement)
    ensures
        elements_view(s.push(e)) == elements_view(s).push(e.view()),
        elements_text(s.push(e)) == elements_text(s) + green_text(e.view()),
        elements_leaves(s.push(e)) == elements_leaves(s) + green_leaves(e.view()),
{
    assert(s.push(e).drop_last() =~= s);
    assert(elements_view(s).push(e.view()).drop_last() =~= elements_view(s));
}

/// Appending a view appends its text.
pub proof fn lemma_green_seq_push(s: Seq<GreenView>, g: GreenView)
    ensures
        green_seq_text(s.push(g)) == green_seq_text(s) + green_text(g),
{
    assert(s.push(g).drop_last() =~= s);
}

/// The text of a concatenation is the concatenation of the texts.
pub proof fn lemma_green_seq_add(a: Seq<GreenView>, b: Seq<GreenView>)
    ensures
        green_seq_text(a + b) == green_seq_text(a) + green_seq_text(b),
    decreases b.len(),
{
    if b.len() == 0 {
        assert(a + b =~= a);
        assert(green_seq_text(b) =~= Seq::<char>::empty());
        assert(green_seq_text(a) + green_seq_text(b) =~= green_seq_text(a));
    } else {
        lemma_green_seq_add(a, b.drop_last());
        assert((a + b).drop_last() =~= a + b.drop_last());
        assert((a + b).last() == b.last());
    }
}

/// Appends a node to a sequence of elements.
pub fn push_node(out: &mut Vec<SyntaxElement>, n: SyntaxNode)
    ensures
        final(out)@ == old(out)@.push(SyntaxElement::Node(n)),
        elements_view(final(out)@) == elements_view(old(out)@).push(n.view()),
        elements_text(final(out)@) == elements_text(old(out)@) + n.text(),
        elements_leaves(final(out)@) == elements_leaves(old(out)@) + n.leaves(),
{
    let ghost before = out@;
    proof {
        lemma_elements_push(before, SyntaxElement::Node(n));
    }
    out.push(SyntaxElement::Node(n));
}

/// Appends a token to a sequence of elements.
pub fn push_token(out: &mut Vec<SyntaxElement>, t: SyntaxToken)
    ensures
        final(out)@ == old(out)@.push(SyntaxElement::Token(t)),
        elements_view(final(out)@) == elements_view(old(out)@).push(t.view()),
        elements_text(final(out)@) == elements_text(old(out)@) + t.text@,
        elements_leaves(final(out)@) == elements_leaves(old(out)@) + seq![t.text@],
{
    let ghost before = out@;
    proof {
        lemma_elements_push(before, SyntaxElement::Token(t));
    }
    out.push(SyntaxElement::Token(t));
}

} // verus!
