use vstd::prelude::*;
use crate::crypto::PeerIdentity;
use crate::social::{Post, PostView, PostVisibility};

verus! {

/// Lexicographic order on character sequences, by code point; the empty
/// sequence comes first.
pub open spec fn lex_le(a: Seq<char>, b: Seq<char>) -> bool
    decreases a.len(),
{
    if a.len() == 0 {
        true
    } else if b.len() == 0 {
        false
    } else if a[0] != b[0] {
        (a[0] as int) < (b[0] as int)
    } else {
        lex_le(a.drop_first(), b.drop_first())
    }
}

/// The symmetric key of a pair: the two identifiers in ascending order,
/// joined by a colon.
pub open spec fn pair_key(a: Seq<char>, b: Seq<char>) -> Seq<char> {
    if lex_le(a, b) {
        a + seq![':'] + b
    } else {
        b + seq![':'] + a
    }
}

/// Any two sequences are ordered one way or the other.
pub proof fn lemma_lex_total(a: Seq<char>, b: Seq<char>)
    ensures
        lex_le(a, b) || lex_le(b, a),
    decreases a.len(),
{
    if a.len() > 0 && b.len() > 0 {
        if a[0] == b[0] {
            lemma_lex_total(a.drop_first(), b.drop_first());
        } else {
        }
    }
}

/// Two sequences ordered both ways are equal.
pub proof fn lemma_lex_antisymmetric(a: Seq<char>, b: Seq<char>)
    requires
        lex_le(a, b),
        lex_le(b, a),
    ensures
        a == b,
    decreases a.len(),
{
    if a.len() > 0 {
        lemma_lex_antisymmetric(a.drop_first(), b.drop_first());
        assert(a == seq![a[0]] + a.drop_first());
        assert(b == seq![b[0]] + b.drop_first());
    } else {
        assert(b.len() == 0);
        assert(a == b);
    }
}

/// The key of a pair does not depend on the order in which it is given.
pub proof fn lemma_pair_key_symmetric(a: Seq<char>, b: Seq<char>)
    ensures
        pair_key(a, b) == pair_key(b, a),
{
    lemma_lex_total(a, b);
    if lex_le(a, b) && lex_le(b, a) {
        lemma_lex_antisymmetric(a, b);
    }
}

fn str_lex_le(a: &str, b: &str) -> (r: bool)
    ensures
        r == lex_le(a@, b@),
{
    let la = a.unicode_len();
    let lb = b.unicode_len();
    let mut i: usize = 0;
    assert(a@.skip(0) == a@);
    assert(b@.skip(0) == b@);
    while i < la && i < lb
        invariant
            la == a@.len(),
            lb == b@.len(),
            i <= la,
            i <= lb,
            lex_le(a@, b@) == lex_le(a@.skip(i as int), b@.skip(i as int)),
        decreases la - i,
    {
        let ca = a.get_char(i);
        let cb = b.get_char(i);
        assert(a@.skip(i as int)[0] == ca);
        assert(b@.skip(i as int)[0] == cb);
        if ca != cb {
            return (ca as u32) < (cb as u32);
        }
        assert(a@.skip(i as int).drop_first() == a@.skip(i + 1));
        assert(b@.skip(i as int).drop_first() == b@.skip(i + 1));
        i = i + 1;
    }
    i == la
}

/// The key under which the friendship of `a` and `b` is stored.
pub fn friendship_key(a: &PeerIdentity, b: &PeerIdentity) -> (r: String)
    ensures
        r@ == pair_key(a@, b@),
{
    let sep = ":";
    proof {
        reveal_strlit(":");
    }
    if str_lex_le(a.as_str(), b.as_str()) {
        a.to_string().concat(sep).concat(b.as_str())
    } else {
        b.to_string().concat(sep).concat(a.as_str())
    }
}

/// A post may be seen by its author, and by anyone when it is public. The
/// other tiers have no follow graph behind them and admit the author alone.
pub open spec fn visible_to(viewer: Seq<char>, p: PostView) -> bool {
    p.visibility == PostVisibility::Public || p.author_id == viewer
}

/// Whether `viewer` may see `post`.
pub fn can_view(viewer: &PeerIdentity, post: &Post) -> (r: bool)
    ensures
        r == visible_to(viewer@, post@),
{
    if post.visibility == PostVisibility::Public {
        return true;
    }
    post.author_id == *viewer
}

} // verus!
