use rowan::{GreenNode, GreenNodeBuilder};
use vstd::prelude::*;
use vstd::utf8::encode_utf8;

use crate::tree::{
    elements_view, green_seq_text, green_text, lemma_elements_push, lemma_green_seq_add, GreenView,
    SyntaxElement, SyntaxNode,
};

verus! {

/// Declares `rowan::GreenNode`, an immutable syntax tree.
#[verifier::external_type_specification]
#[verifier::external_body]
pub struct ExGreenNode(rowan::GreenNode);

/// Declares `rowan::GreenNodeBuilder`, which builds a `GreenNode` from the
/// nodes and tokens it is given in order.
#[verifier::external_type_specification]
#[verifier::external_body]
pub struct ExGreenNodeBuilder<'cache>(rowan::GreenNodeBuilder<'cache>);

/// The nodes that a builder has open, outermost first: each with its kind and
/// the number of finished elements that came before it.
pub uninterp spec fn builder_parents(b: GreenNodeBuilder<'static>) -> Seq<(u16, nat)>;

/// The elements that a builder has finished and not yet put into a node, in
/// order.
pub uninterp spec fn builder_children(b: GreenNodeBuilder<'static>) -> Seq<GreenView>;

/// The tree that a green node holds.
pub uninterp spec fn green_node_view(n: GreenNode) -> GreenView;

/// Calls `GreenNodeBuilder::new`: a builder with no open node and no finished
/// element.
#[verifier::external_body]
fn builder_new() -> (b: GreenNodeBuilder<'static>)
    ensures
        builder_parents(b) == Seq::<(u16, nat)>::empty(),
        builder_children(b) == Seq::<GreenView>::empty(),
{
    GreenNodeBuilder::new()
}

/// Calls `GreenNodeBuilder::start_node`: opens a node of kind `kind`, whose
/// children are the elements finished from now on.
#[verifier::external_body]
fn builder_start_node(b: &mut GreenNodeBuilder<'static>, kind: u16)
    ensures
        builder_parents(*final(b)) == builder_parents(*old(b)).push(
            (kind, builder_children(*old(b)).len()),
        ),
        builder_children(*final(b)) == builder_children(*old(b)),
{
    b.start_node(rowan::SyntaxKind(kind))
}

/// Calls `GreenNodeBuilder::token`: finishes a token of kind `kind` with text
/// `text`.
#[verifier::external_body]
fn builder_token(b: &mut GreenNodeBuilder<'static>, kind: u16, text: &str)
    ensures
        builder_parents(*final(b)) == builder_parents(*old(b)),
        builder_children(*final(b)) == builder_children(*old(b)).push(GreenView::Token(kind, text@)),
{
    b.token(rowan::SyntaxKind(kind), text)
}

/// Calls `GreenNodeBuilder::finish_node`: closes the innermost open node, whose
/// children are the elements finished since it was opened. The node's text
/// must fit the `u32` lengths that rowan counts in; there must be an open
/// node.
#[verifier::external_body]
fn builder_finish_node(b: &mut GreenNodeBuilder<'static>)
    requires
        builder_parents(*old(b)).len() > 0,
        builder_parents(*old(b)).last().1 <= builder_children(*old(b)).len(),
        encode_utf8(
            green_seq_text(
                builder_children(*old(b)).skip(builder_parents(*old(b)).last().1 as int),
            ),
        ).len() <= u32::MAX,
    ensures
        builder_parents(*final(b)) == builder_parents(*old(b)).drop_last(),
        builder_children(*final(b)) == builder_children(*old(b)).take(
            builder_parents(*old(b)).last().1 as int,
        ).push(
            GreenView::Node(
                builder_parents(*old(b)).last().0,
                builder_children(*old(b)).skip(builder_parents(*old(b)).last().1 as int),
            ),
        ),
{
    b.finish_node()
}

/// Calls `GreenNodeBuilder::finish`: the one finished node, when no node is
/// open.
#[verifier::external_body]
fn builder_finish(b: GreenNodeBuilder<'static>) -> (n: GreenNode)
    requires
        builder_parents(b).len() == 0,
        builder_children(b).len() == 1,
        builder_children(b)[0] is Node,
    ensures
        green_node_view(n) == builder_children(b)[0],
{
    b.finish()
}

/// UTF-8 encoding distributes over concatenation.
pub proof fn lemma_encode_utf8_add(a: Seq<char>, b: Seq<char>)
    ensures
        encode_utf8(a + b) == encode_utf8(a) + encode_utf8(b),
    decreases a.len(),
{
    if a.len() == 0 {
        assert(a + b =~= b);
        assert(encode_utf8(a) =~= Seq::<u8>::empty());
        assert(encode_utf8(a) + encode_utf8(b) =~= encode_utf8(b));
    } else {
        lemma_encode_utf8_add(a.drop_first(), b);
        assert((a + b).drop_first() =~= a.drop_first() + b);
        assert((a + b)[0] == a[0]);
        assert(encode_utf8(a + b) =~= encode_utf8(a) + encode_utf8(b));
    }
}

/// An element's text is no longer in UTF-8 than the text of a sequence that
/// holds it.
proof fn lemma_child_encoded_len(s: Seq<GreenView>, i: int)
    requires
        0 <= i < s.len(),
    ensures
        encode_utf8(green_text(s[i])).len() <= encode_utf8(green_seq_text(s)).len(),
{
    let pre = s.take(i);
    let mid = seq![s[i]];
    let post = s.skip(i + 1);
    assert(s =~= pre + (mid + post));
    lemma_green_seq_add(pre, mid + post);
    lemma_green_seq_add(mid, post);
    assert(mid.drop_last() =~= Seq::<GreenView>::empty());
    assert(green_seq_text(Seq::<GreenView>::empty()) =~= Seq::<char>::empty());
    assert(mid.last() == s[i]);
    assert(green_seq_text(mid) == green_seq_text(mid.drop_last()) + green_text(mid.last()));
    assert(green_seq_text(mid) =~= green_text(s[i]));
    lemma_encode_utf8_add(green_seq_text(pre), green_seq_text(mid + post));
    lemma_encode_utf8_add(green_text(s[i]), green_seq_text(post));
}

/// Gives `node` to the builder: afterwards it is one more finished element.
fn emit_node(b: &mut GreenNodeBuilder<'static>, node: &SyntaxNode)
    requires
        encode_utf8(node.text()).len() <= u32::MAX,
    ensures
        builder_parents(*final(b)) == builder_parents(*old(b)),
        builder_children(*final(b)) == builder_children(*old(b)).push(node.view()),
    decreases node,
{
    let ghost parents0 = builder_parents(*b);
    let ghost children0 = builder_children(*b);
    let ghost views = elements_view(node.children@);
    proof {
        crate::tree::lemma_elements_view_index(node.children@);
    }
    builder_start_node(b, node.kind);
    let mut i: usize = 0;
    while i < node.children.len()
        invariant
            i <= node.children@.len(),
            views == elements_view(node.children@),
            views.len() == node.children@.len(),
            forall|j: int| 0 <= j < node.children@.len() ==> #[trigger] views[j] == node.children@[j].view(),
            encode_utf8(green_seq_text(views)).len() <= u32::MAX,
            builder_parents(*b) == parents0.push((node.kind, children0.len())),
            builder_children(*b) == children0 + views.take(i as int),
        decreases node.children@.len() - i,
    {
        let ghost before = builder_children(*b);
        match &node.children[i] {
            SyntaxElement::Token(t) => {
                proof {
                    lemma_child_encoded_len(views, i as int);
                }
                builder_token(b, t.kind, t.text.as_str());
            },
            SyntaxElement::Node(n) => {
                proof {
                    lemma_child_encoded_len(views, i as int);
                    assert(decreases_to!(node => node.children));
                    assert(decreases_to!(node.children => node.children@));
                    assert(decreases_to!(node.children@ => node.children@[i as int]));
                }
                emit_node(b, n);
            },
        }
        assert(views.take(i + 1) =~= views.take(i as int).push(views[i as int]));
        assert(builder_children(*b) =~= children0 + views.take(i + 1));
        i += 1;
    }
    assert(views.take(i as int) =~= views);
    assert((children0 + views).take(children0.len() as int) =~= children0);
    assert((children0 + views).skip(children0.len() as int) =~= views);
    builder_finish_node(b);
}

/// The green node of `node`, built by rowan.
pub fn to_green(node: &SyntaxNode) -> (g: GreenNode)
    requires
        encode_utf8(node.text()).len() <= u32::MAX,
    ensures
        green_node_view(g) == node.view(),
{
    let mut b = builder_new();
    emit_node(&mut b, node);
    assert(builder_children(b) =~= seq![node.view()]);
    builder_finish(b)
}

} // verus!
