use vstd::prelude::*;

use super::token::Token;

verus! {

/// `rest` is what is left of the tokens `all` after some were taken from the
/// front: `all` without its first `all.len() - rest.len()` tokens.
#[verifier::opaque]
pub open spec fn follows(all: Seq<(Token, Seq<char>)>, rest: Seq<(Token, Seq<char>)>) -> bool {
    rest.len() <= all.len() && rest == all.skip(all.len() - rest.len())
}

/// What is left of what is left is what is left of the first tokens.
pub broadcast proof fn lemma_follows_trans(
    a: Seq<(Token, Seq<char>)>,
    b: Seq<(Token, Seq<char>)>,
    c: Seq<(Token, Seq<char>)>,
)
    requires
        #[trigger] follows(a, b),
        #[trigger] follows(b, c),
    ensures
        follows(a, c),
{
    reveal(follows);
    assert(a.skip(a.len() - b.len()).skip(b.len() - c.len()) =~= a.skip(a.len() - c.len()));
}

/// Tokens are what is left of themselves.
pub broadcast proof fn lemma_follows_refl(a: Seq<(Token, Seq<char>)>)
    ensures
        #[trigger] follows(a, a),
{
    reveal(follows);
    assert(a.skip(0) =~= a);
}

/// Taking the first token leaves the rest.
pub proof fn lemma_follows_drop_first(a: Seq<(Token, Seq<char>)>)
    requires
        a.len() > 0,
    ensures
        follows(a, a.drop_first()),
{
    reveal(follows);
    assert(a.skip(1) =~= a.drop_first());
}

/// What is left when `k` tokens were taken.
pub proof fn lemma_follows_skip(a: Seq<(Token, Seq<char>)>, k: int)
    requires
        0 <= k <= a.len(),
    ensures
        follows(a, a.skip(k)),
{
    reveal(follows);
}

/// What `follows` says, unfolded.
pub proof fn lemma_follows_unfold(a: Seq<(Token, Seq<char>)>, b: Seq<(Token, Seq<char>)>)
    requires
        follows(a, b),
    ensures
        b.len() <= a.len(),
        b == a.skip(a.len() - b.len()),
{
    reveal(follows);
}

} // verus!
