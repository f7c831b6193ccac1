use vstd::prelude::*;

use crate::tree::GreenView;

use super::kind::SyntaxKind;
use super::token::Token;

verus! {

/// Whether a syntax element is a closing brace, bracket or parenthesis.
pub open spec fn is_closer_view(g: GreenView) -> bool {
    match g {
        GreenView::Token(k, _) => k == SyntaxKind::R_CURLY.raw() || k == SyntaxKind::R_BRACK.raw()
            || k == SyntaxKind::R_PAREN.raw(),
        GreenView::Node(_, _) => false,
    }
}

/// Whether a syntax element is an `ERROR` node around a closing brace.
pub open spec fn is_curly_error(g: GreenView) -> bool {
    match g {
        GreenView::Node(k, children) => k == SyntaxKind::ERROR.raw() && children.len() == 1
            && (children[0] matches GreenView::Token(t, _) && t == SyntaxKind::R_CURLY.raw()),
        GreenView::Token(_, _) => false,
    }
}

/// Whether no element of `children` is an `ERROR` node around a closing
/// brace.
pub open spec fn no_curly_errors(children: Seq<GreenView>) -> bool {
    forall|i: int| 0 <= i < children.len() ==> !is_curly_error(#[trigger] children[i])
}

/// Whether a syntax element is a token of raw kind `k`.
pub open spec fn is_token_view(g: GreenView, k: u16) -> bool {
    match g {
        GreenView::Token(t, _) => t == k,
        GreenView::Node(_, _) => false,
    }
}

/// Whether a syntax element is a line break, white space or comment token.
pub open spec fn is_trivia_view(g: GreenView) -> bool {
    is_token_view(g, SyntaxKind::LINE_BREAK.raw()) || is_token_view(g, SyntaxKind::WHITESPACE.raw())
        || is_token_view(g, SyntaxKind::COMMENT.raw())
}

/// Whether the children of a curly group open with a `{` token and end at
/// their `}`: after a `}` token, only trivia tokens follow.
pub open spec fn curly_closed(children: Seq<GreenView>) -> bool {
    &&& children.len() > 0
    &&& is_token_view(children[0], SyntaxKind::L_CURLY.raw())
    &&& forall|i: int, j: int|
        0 <= i < j < children.len() && is_token_view(#[trigger] children[i], SyntaxKind::R_CURLY.raw())
            ==> is_trivia_view(#[trigger] children[j])
}

/// Whether `k` is the raw kind of a group in braces: a curly group, a word
/// group or a list of words.
pub open spec fn is_brace_group_kind(k: u16) -> bool {
    k == SyntaxKind::CURLY_GROUP.raw() || k == SyntaxKind::CURLY_GROUP_WORD.raw() || k
        == SyntaxKind::CURLY_GROUP_WORD_LIST.raw()
}

/// Where errors and braces stand in a syntax element: every `ERROR` node
/// holds exactly one token, a closing brace, bracket or parenthesis; a curly
/// group holds no such node around a closing brace; and a curly group, a
/// word group or a list of words opens with `{` and ends at its first
/// closing brace, after which only trivia follows.
pub open spec fn errors_ok(g: GreenView) -> bool
    decreases g,
{
    match g {
        GreenView::Token(_, _) => true,
        GreenView::Node(k, children) => (k == SyntaxKind::ERROR.raw() ==> children.len() == 1
            && is_closer_view(children[0])) && (k == SyntaxKind::CURLY_GROUP.raw() ==> no_curly_errors(
            children,
        )) && (is_brace_group_kind(k) ==> curly_closed(children)) && seq_errors_ok(children),
    }
}

/// Whether `errors_ok` holds of every element of a sequence.
pub open spec fn seq_errors_ok(children: Seq<GreenView>) -> bool
    decreases children,
{
    if children.len() == 0 {
        true
    } else {
        seq_errors_ok(children.drop_last()) && errors_ok(children.last())
    }
}

/// Appending an element keeps `seq_errors_ok` exactly when the element
/// satisfies `errors_ok`.
pub broadcast proof fn lemma_seq_errors_push(s: Seq<GreenView>, g: GreenView)
    ensures
        #[trigger] seq_errors_ok(s.push(g)) == (seq_errors_ok(s) && errors_ok(g)),
{
    assert(s.push(g).drop_last() =~= s);
}

/// Skipping `a` items and then `b` more skips `a + b`.
pub broadcast proof fn lemma_skip_skip(s: Seq<(Token, Seq<char>)>, a: int, b: int)
    requires
        0 <= a,
        0 <= b,
        a + b <= s.len(),
    ensures
        #[trigger] s.skip(a).skip(b) == s.skip(a + b),
{
    assert(s.skip(a).skip(b) =~= s.skip(a + b));
}

/// Skipping nothing leaves a sequence as it is.
pub broadcast proof fn lemma_skip_zero(s: Seq<(Token, Seq<char>)>)
    ensures
        #[trigger] s.skip(0) == s,
{
    assert(s.skip(0) =~= s);
}

} // verus!
