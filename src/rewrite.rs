//! The declaration rewriter: keeps a declaration's tokens up to its body and
//! puts a new body in its place.
use vstd::prelude::*;

use crate::token::{brace_group, is_brace_group, is_group, Delimiter, TokenTree};

verus! {

/// Where the body of `s` stands: the index of its first top-level group
/// delimited by braces, or the length of `s` when it has none.
pub open spec fn body_position(s: Seq<TokenTree>) -> nat
    decreases s.len(),
{
    if s.len() == 0 {
        0
    } else if is_brace_group(s[0]) {
        0
    } else {
        1 + body_position(s.drop_first())
    }
}

/// The tokens of `item` before its body.
pub open spec fn head_of(item: Seq<TokenTree>) -> Seq<TokenTree> {
    item.take(body_position(item) as int)
}

/// `item` with its body, and everything after it, replaced by `{ body }`.
pub open spec fn rewritten(item: Seq<TokenTree>, body: Vec<TokenTree>) -> Seq<TokenTree> {
    head_of(item).push(brace_group(body))
}

/// The body position is the one index `k` before which no token is a brace
/// group and at which, unless `k` is the end, one is.
pub proof fn lemma_body_position(s: Seq<TokenTree>, k: int)
    ensures
        0 <= body_position(s) <= s.len(),
        forall|j: int| 0 <= j < body_position(s) ==> !is_brace_group(#[trigger] s[j]),
        body_position(s) < s.len() ==> is_brace_group(s[body_position(s) as int]),
        (0 <= k <= s.len() && (forall|j: int| 0 <= j < k ==> !is_brace_group(#[trigger] s[j])) && (k
            < s.len() ==> is_brace_group(s[k]))) ==> k == body_position(s),
    decreases s.len(),
{
    if s.len() > 0 && !is_brace_group(s[0]) {
        let t = s.drop_first();
        lemma_body_position(t, k - 1);
        assert forall|j: int| 0 <= j < body_position(s) implies !is_brace_group(#[trigger] s[j]) by {
            if j > 0 {
                assert(s[j] == t[j - 1]);
            }
        }
        if 0 <= k <= s.len() && (forall|j: int| 0 <= j < k ==> !is_brace_group(#[trigger] s[j])) && (k
            < s.len() ==> is_brace_group(s[k])) {
            assert(k > 0) by {
                if k == 0 {
                    assert(is_brace_group(s[0]));
                }
            }
            assert forall|j: int| 0 <= j < k - 1 implies !is_brace_group(#[trigger] t[j]) by {
                assert(t[j] == s[j + 1]);
            }
            assert(k - 1 < t.len() ==> t[k - 1] == s[k]);
        }
    }
}

/// When `item` holds a top-level brace group, the rewritten tokens without
/// their final group are exactly the tokens of `item` before its first brace
/// group, in their order.
pub proof fn law_head_kept(item: Seq<TokenTree>, body: Vec<TokenTree>)
    requires
        exists|i: int| 0 <= i < item.len() && is_brace_group(#[trigger] item[i]),
    ensures
        body_position(item) < item.len(),
        is_brace_group(item[body_position(item) as int]),
        forall|j: int| 0 <= j < body_position(item) ==> !is_brace_group(#[trigger] item[j]),
        rewritten(item, body).drop_last() == item.take(body_position(item) as int),
{
    lemma_body_position(item, 0);
    let i = choose|i: int| 0 <= i < item.len() && is_brace_group(#[trigger] item[i]);
    if body_position(item) == item.len() {
        assert(!is_brace_group(item[i]));
    }
    assert(rewritten(item, body).drop_last() =~= item.take(body_position(item) as int));
}

/// Whatever `item` is, the rewritten tokens end in `{ body }`, and that group
/// is the only top-level group among them delimited by braces.
pub proof fn law_single_body(item: Seq<TokenTree>, body: Vec<TokenTree>)
    ensures
        rewritten(item, body).len() >= 1,
        rewritten(item, body).last() == brace_group(body),
        forall|j: int|
            0 <= j < rewritten(item, body).len() - 1 ==> !is_brace_group(
                #[trigger] rewritten(item, body)[j],
            ),
{
    lemma_body_position(item, 0);
    let r = rewritten(item, body);
    assert forall|j: int| 0 <= j < r.len() - 1 implies !is_brace_group(#[trigger] r[j]) by {
        assert(r[j] == item[j]);
    }
}

/// When no group of any delimiter stands before the body of `item`, the
/// rewritten tokens hold exactly one top-level group: `{ body }`, at the end.
pub proof fn law_only_group(item: Seq<TokenTree>, body: Vec<TokenTree>)
    requires
        forall|j: int| 0 <= j < body_position(item) ==> !is_group(#[trigger] item[j]),
    ensures
        is_group(rewritten(item, body).last()),
        rewritten(item, body).last() == brace_group(body),
        forall|j: int|
            0 <= j < rewritten(item, body).len() - 1 ==> !is_group(
                #[trigger] rewritten(item, body)[j],
            ),
{
    lemma_body_position(item, 0);
    let r = rewritten(item, body);
    assert forall|j: int| 0 <= j < r.len() - 1 implies !is_group(#[trigger] r[j]) by {
        assert(r[j] == item[j]);
    }
}

/// Replaces the body of `item`, its first top-level group delimited by
/// braces, with `{ body }`. The tokens before it are kept in their order;
/// those after it are dropped. An item without such a group gets `{ body }`
/// appended.
pub fn rewrite(item: Vec<TokenTree>, body: Vec<TokenTree>) -> (r: Vec<TokenTree>)
    ensures
        r@ == rewritten(item@, body),
{
    let mut item = item;
    let n = item.len();
    let mut i: usize = 0;
    while i < n && !item[i].is_brace_group()
        invariant
            n == item@.len(),
            0 <= i <= n,
            forall|j: int| 0 <= j < i ==> !is_brace_group(#[trigger] item@[j]),
        decreases n - i,
    {
        i = i + 1;
    }
    proof {
        lemma_body_position(item@, i as int);
    }
    item.truncate(i);
    item.push(TokenTree::Group { delimiter: Delimiter::Brace, stream: body });
    item
}

} // verus!
