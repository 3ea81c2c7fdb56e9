//! Facts about traversals that the engine and its users build on.
use vstd::prelude::*;
use crate::acceptor::{offered_by_all, Acceptor};
use crate::node::Node;
use crate::visitor::{traversed, visited, Visitor};

verus! {

/// A traversal of `a` that ended in `first`, followed where it did not fail
/// by a traversal of `b`, is a traversal of `a + b`. Where the traversal of
/// `a` failed, nothing of `b` is visited; where it succeeded, its value is
/// dropped and the result is that of `b`.
pub proof fn lemma_traversed_then<V: Visitor<E>, E>(
    a: Seq<Node>,
    a_hands_back: bool,
    b: Seq<Node>,
    hands_back: bool,
    pre: V,
    first: (V, Result<V::Value, E>),
    out: (V, Result<V::Value, E>),
)
    requires
        traversed(a, a_hands_back, pre, first.0, first.1),
        match first.1 {
            Err(e) => out.0 == first.0 && out.1 == Err::<V::Value, E>(e),
            Ok(_) => traversed(b, hands_back, first.0, out.0, out.1),
        },
        hands_back ==> b.len() > 0,
    ensures
        traversed(a + b, hands_back, pre, out.0, out.1),
    decreases a.len(),
{
    if a.len() == 0 {
        assert(a + b =~= b);
    } else {
        let (mid, r) = choose|mid: V, r: Result<V::Value, E>| #[trigger]
            visited(a[0], pre, mid, r) && match r {
                Err(e) => first.0 == mid && first.1 == Err::<V::Value, E>(e),
                Ok(value) => if a_hands_back && a.len() == 1 {
                    first.0 == mid && first.1 == Ok::<V::Value, E>(value)
                } else {
                    traversed(a.drop_first(), a_hands_back, mid, first.0, first.1)
                },
            };
        assert((a + b)[0] == a[0]);
        assert((a + b).drop_first() =~= a.drop_first() + b);
        if r is Ok {
            if a_hands_back && a.len() == 1 {
                assert(a.drop_first() + b =~= b);
            } else {
                lemma_traversed_then(a.drop_first(), a_hands_back, b, hands_back, mid, first, out);
            }
        }
    }
}

/// One step of the traversal of a sequence. Take a traversal of `all` from
/// `start` that has come to the pass `before` with `first + rest` left to
/// visit, so that whatever visiting those leads to is an outcome of the
/// whole. After `first` is visited, with the outcome `stepped`, the same
/// holds of `rest`: a failure in `first` is the outcome of the whole, and
/// otherwise whatever visiting `rest` leads to is.
pub proof fn lemma_traversed_step<V: Visitor<E>, E>(
    all: Seq<Node>,
    start: V,
    first: Seq<Node>,
    first_hands_back: bool,
    rest: Seq<Node>,
    before: V,
    stepped: (V, Result<V::Value, E>),
)
    requires
        forall|post: V, res: Result<V::Value, E>| #[trigger]
            traversed(first + rest, false, before, post, res) ==> traversed(
                all,
                false,
                start,
                post,
                res,
            ),
        traversed(first, first_hands_back, before, stepped.0, stepped.1),
    ensures
        stepped.1 matches Err(e) ==> traversed(
            all,
            false,
            start,
            stepped.0,
            Err::<V::Value, E>(e),
        ),
        stepped.1 is Ok ==> forall|post: V, res: Result<V::Value, E>| #[trigger]
            traversed(rest, false, stepped.0, post, res) ==> traversed(
                all,
                false,
                start,
                post,
                res,
            ),
{
    match stepped.1 {
        Err(e) => {
            let failed = (stepped.0, Err::<V::Value, E>(e));
            lemma_traversed_then(first, first_hands_back, rest, false, before, stepped, failed);
        },
        Ok(_) => {
            assert forall|post: V, res: Result<V::Value, E>| #[trigger]
                traversed(rest, false, stepped.0, post, res) implies traversed(
                all,
                false,
                start,
                post,
                res,
            ) by {
                lemma_traversed_then(
                    first,
                    first_hands_back,
                    rest,
                    false,
                    before,
                    stepped,
                    (post, res),
                );
            }
        },
    }
}

/// The callback of a node, which returned `called`, followed where it did
/// not fail by a traversal of `rest`, is a traversal of the node and then
/// `rest`: the value of the callback is dropped, and the result is that of
/// `rest`.
pub proof fn lemma_traversed_node<V: Visitor<E>, E>(
    node: Node,
    rest: Seq<Node>,
    hands_back: bool,
    pre: V,
    called: (V, Result<V::Value, E>),
    out: (V, Result<V::Value, E>),
)
    requires
        visited(node, pre, called.0, called.1),
        match called.1 {
            Err(e) => out.0 == called.0 && out.1 == Err::<V::Value, E>(e),
            Ok(_) => traversed(rest, hands_back, called.0, out.0, out.1),
        },
        hands_back ==> rest.len() > 0,
    ensures
        traversed(seq![node] + rest, hands_back, pre, out.0, out.1),
{
    assert((seq![node] + rest)[0] == node);
    assert((seq![node] + rest).drop_first() =~= rest);
}

/// The callback of a node without children is a traversal of that node,
/// which hands back what the callback returned.
pub proof fn lemma_traversed_leaf<V: Visitor<E>, E>(
    node: Node,
    pre: V,
    called: (V, Result<V::Value, E>),
)
    requires
        visited(node, pre, called.0, called.1),
    ensures
        traversed(seq![node], true, pre, called.0, called.1),
{
    assert(seq![node][0] == node);
}

/// Whether a traversal fails, with which error, and which pass it leaves,
/// does not depend on what it would hand back.
pub proof fn lemma_failure_hands_nothing_back<V: Visitor<E>, E>(
    nodes: Seq<Node>,
    hands_back: bool,
    other: bool,
    pre: V,
    post: V,
    e: E,
)
    requires
        traversed(nodes, hands_back, pre, post, Err::<V::Value, E>(e)),
    ensures
        traversed(nodes, other, pre, post, Err::<V::Value, E>(e)),
    decreases nodes.len(),
{
    if nodes.len() > 0 {
        let res = Err::<V::Value, E>(e);
        let (mid, first) = choose|mid: V, first: Result<V::Value, E>| #[trigger]
            visited(nodes[0], pre, mid, first) && match first {
                Err(f) => post == mid && res == Err::<V::Value, E>(f),
                Ok(value) => if hands_back && nodes.len() == 1 {
                    post == mid && res == Ok::<V::Value, E>(value)
                } else {
                    traversed(nodes.drop_first(), hands_back, mid, post, res)
                },
            };
        if first is Ok {
            lemma_failure_hands_nothing_back(nodes.drop_first(), hands_back, other, mid, post, e);
        }
    }
}

/// How many of `nodes` are of the kinds that `counted` picks.
pub open spec fn count_of(nodes: Seq<Node>, counted: spec_fn(Node) -> bool) -> nat
    decreases nodes.len(),
{
    if nodes.len() == 0 {
        0
    } else {
        (if counted(nodes[0]) {
            1nat
        } else {
            0nat
        }) + count_of(nodes.drop_first(), counted)
    }
}

/// A traversal reaches every node, once.
///
/// Take a pass that keeps a counter, `count`, which every callback of the
/// kinds in `counted` raises by one while the counter is below `limit`, and
/// which no other callback changes, and whose callbacks do not fail. A
/// traversal of `nodes` that has room below `limit` succeeds and raises the
/// counter by the number of nodes of those kinds, however deep they lie.
pub proof fn lemma_traversal_reaches_every_node<V: Visitor<E>, E>(
    nodes: Seq<Node>,
    hands_back: bool,
    counted: spec_fn(Node) -> bool,
    count: spec_fn(V) -> nat,
    limit: nat,
    pre: V,
    post: V,
    res: Result<V::Value, E>,
)
    requires
        forall|node: Node, a: V, b: V, r: Result<V::Value, E>| #[trigger]
            visited(node, a, b, r) && counted(node) && count(a) < limit ==> r is Ok && count(b)
                == count(a) + 1,
        forall|node: Node, a: V, b: V, r: Result<V::Value, E>| #[trigger]
            visited(node, a, b, r) && !counted(node) ==> r is Ok && count(b) == count(a),
        traversed(nodes, hands_back, pre, post, res),
        count(pre) + count_of(nodes, counted) <= limit,
    ensures
        res is Ok,
        count(post) == count(pre) + count_of(nodes, counted),
    decreases nodes.len(),
{
    if nodes.len() > 0 {
        let (mid, first) = choose|mid: V, first: Result<V::Value, E>| #[trigger]
            visited(nodes[0], pre, mid, first) && match first {
                Err(e) => post == mid && res == Err::<V::Value, E>(e),
                Ok(value) => if hands_back && nodes.len() == 1 {
                    post == mid && res == Ok::<V::Value, E>(value)
                } else {
                    traversed(nodes.drop_first(), hands_back, mid, post, res)
                },
            };
        if hands_back && nodes.len() == 1 {
            assert(count_of(nodes.drop_first(), counted) == 0);
        } else {
            lemma_traversal_reaches_every_node(
                nodes.drop_first(),
                hands_back,
                counted,
                count,
                limit,
                mid,
                post,
                res,
            );
        }
    }
}

/// Whether the callbacks of `nodes`, called in order, may all succeed and
/// take the pass `pre` to the pass `post`.
pub open spec fn passes<V: Visitor<E>, E>(nodes: Seq<Node>, pre: V, post: V) -> bool
    decreases nodes.len(),
{
    if nodes.len() == 0 {
        post == pre
    } else {
        exists|mid: V, value: V::Value| #[trigger]
            visited(nodes[0], pre, mid, Ok::<V::Value, E>(value)) && passes::<V, E>(
                nodes.drop_first(),
                mid,
                post,
            )
    }
}

/// A traversal that succeeds is one in which every callback succeeds.
pub proof fn lemma_success_passes<V: Visitor<E>, E>(
    nodes: Seq<Node>,
    hands_back: bool,
    pre: V,
    post: V,
    value: V::Value,
)
    requires
        traversed(nodes, hands_back, pre, post, Ok::<V::Value, E>(value)),
    ensures
        passes::<V, E>(nodes, pre, post),
    decreases nodes.len(),
{
    if nodes.len() > 0 {
        let res = Ok::<V::Value, E>(value);
        let (mid, first) = choose|mid: V, first: Result<V::Value, E>| #[trigger]
            visited(nodes[0], pre, mid, first) && match first {
                Err(e) => post == mid && res == Err::<V::Value, E>(e),
                Ok(value) => if hands_back && nodes.len() == 1 {
                    post == mid && res == Ok::<V::Value, E>(value)
                } else {
                    traversed(nodes.drop_first(), hands_back, mid, post, res)
                },
            };
        if hands_back && nodes.len() == 1 {
            assert(passes::<V, E>(nodes.drop_first(), mid, post));
        } else {
            lemma_success_passes(nodes.drop_first(), hands_back, mid, post, value);
        }
        assert(visited(nodes[0], pre, mid, Ok::<V::Value, E>(first->Ok_0)));
    }
}

/// Callbacks that all succeed over `a`, then over `b`, all succeed over
/// `a + b`.
pub proof fn lemma_passes_concat<V: Visitor<E>, E>(
    a: Seq<Node>,
    b: Seq<Node>,
    pre: V,
    mid: V,
    post: V,
)
    requires
        passes::<V, E>(a, pre, mid),
        passes::<V, E>(b, mid, post),
    ensures
        passes::<V, E>(a + b, pre, post),
    decreases a.len(),
{
    if a.len() == 0 {
        assert(a + b =~= b);
    } else {
        let (next, value) = choose|next: V, value: V::Value| #[trigger]
            visited(a[0], pre, next, Ok::<V::Value, E>(value)) && passes::<V, E>(
                a.drop_first(),
                next,
                mid,
            );
        assert((a + b)[0] == a[0]);
        assert((a + b).drop_first() =~= a.drop_first() + b);
        lemma_passes_concat::<V, E>(a.drop_first(), b, next, mid, post);
    }
}

/// Where every callback of `a` succeeds, a traversal of `a + b` is a
/// traversal of `b` from the pass that `a` leaves.
pub proof fn lemma_passes_then<V: Visitor<E>, E>(
    a: Seq<Node>,
    b: Seq<Node>,
    hands_back: bool,
    pre: V,
    mid: V,
    post: V,
    res: Result<V::Value, E>,
)
    requires
        passes::<V, E>(a, pre, mid),
        traversed(b, hands_back, mid, post, res),
        hands_back ==> b.len() > 0,
    ensures
        traversed(a + b, hands_back, pre, post, res),
    decreases a.len(),
{
    if a.len() == 0 {
        assert(a + b =~= b);
    } else {
        let (next, value) = choose|next: V, value: V::Value| #[trigger]
            visited(a[0], pre, next, Ok::<V::Value, E>(value)) && passes::<V, E>(
                a.drop_first(),
                next,
                mid,
            );
        assert((a + b)[0] == a[0]);
        assert((a + b).drop_first() =~= a.drop_first() + b);
        lemma_passes_then(a.drop_first(), b, hands_back, next, mid, post, res);
    }
}

/// A traversal of `a + b` that fails has failed in `a`, or every callback of
/// `a` succeeded and the traversal of `b` from the pass that `a` left has
/// failed.
pub proof fn lemma_failure_splits<V: Visitor<E>, E>(
    a: Seq<Node>,
    b: Seq<Node>,
    hands_back: bool,
    pre: V,
    post: V,
    e: E,
)
    requires
        traversed(a + b, hands_back, pre, post, Err::<V::Value, E>(e)),
    ensures
        traversed(a, hands_back, pre, post, Err::<V::Value, E>(e)) || exists|mid: V| #[trigger]
            passes::<V, E>(a, pre, mid) && traversed(
                b,
                hands_back,
                mid,
                post,
                Err::<V::Value, E>(e),
            ),
    decreases a.len(),
{
    let res = Err::<V::Value, E>(e);
    if a.len() == 0 {
        assert(a + b =~= b);
        assert(passes::<V, E>(a, pre, pre));
    } else {
        let all = a + b;
        let (mid, first) = choose|mid: V, first: Result<V::Value, E>| #[trigger]
            visited(all[0], pre, mid, first) && match first {
                Err(f) => post == mid && res == Err::<V::Value, E>(f),
                Ok(value) => if hands_back && all.len() == 1 {
                    post == mid && res == Ok::<V::Value, E>(value)
                } else {
                    traversed(all.drop_first(), hands_back, mid, post, res)
                },
            };
        assert(all[0] == a[0]);
        assert(all.drop_first() =~= a.drop_first() + b);
        match first {
            Err(f) => {
                assert(traversed(a, hands_back, pre, post, res));
            },
            Ok(value) => {
                lemma_failure_splits(a.drop_first(), b, hands_back, mid, post, e);
                if traversed(a.drop_first(), hands_back, mid, post, res) {
                    assert(a.drop_first().len() > 0);
                    assert(traversed(a, hands_back, pre, post, res));
                } else {
                    let later = choose|later: V| #[trigger]
                        passes::<V, E>(a.drop_first(), mid, later) && traversed(
                            b,
                            hands_back,
                            later,
                            post,
                            res,
                        );
                    assert(visited(a[0], pre, mid, Ok::<V::Value, E>(value)));
                    assert(passes::<V, E>(a, pre, later));
                }
            },
        }
    }
}

/// What a sequence offers is what its first `j` elements offer, followed by
/// what the others offer.
pub proof fn lemma_offered_by_all_splits<X: Acceptor>(items: Seq<X>, j: int)
    requires
        0 <= j <= items.len(),
    ensures
        offered_by_all(items) == offered_by_all(items.take(j)) + offered_by_all(items.skip(j)),
    decreases j,
{
    if j == 0 {
        assert(items.skip(0) =~= items);
        assert(offered_by_all(items.take(0)) =~= Seq::<Node>::empty());
        assert(Seq::<Node>::empty() + offered_by_all(items) =~= offered_by_all(items));
    } else {
        let later = items.drop_first();
        lemma_offered_by_all_splits(later, j - 1);
        assert(items.take(j)[0] == items[0]);
        assert(items.take(j).drop_first() =~= later.take(j - 1));
        assert(later.skip(j - 1) =~= items.skip(j));
        assert(items[0].offered() + (offered_by_all(later.take(j - 1)) + offered_by_all(
            items.skip(j),
        )) =~= items[0].offered() + offered_by_all(later.take(j - 1)) + offered_by_all(
            items.skip(j),
        ));
    }
}

/// The first element that fails ends a sequence.
///
/// Take a sequence `items` whose elements before index `j` all succeed and
/// take the pass `pre` to the pass `mid`, and whose element `j` then fails
/// with `e` and leaves the pass `post`. Then the traversal of the whole
/// sequence fails with `e` and leaves `post`: no element after `j` is
/// visited.
pub proof fn lemma_first_failure_ends_sequence<X: Acceptor, V: Visitor<E>, E>(
    items: Seq<X>,
    j: int,
    pre: V,
    mid: V,
    post: V,
    e: E,
)
    requires
        0 <= j < items.len(),
        passes::<V, E>(offered_by_all(items.take(j)), pre, mid),
        traversed(items[j].offered(), items[j].hands_back(), mid, post, Err::<V::Value, E>(e)),
    ensures
        traversed(offered_by_all(items), false, pre, post, Err::<V::Value, E>(e)),
{
    let before = offered_by_all(items.take(j));
    let at = items[j].offered();
    let after = offered_by_all(items.skip(j + 1));
    let failed = (post, Err::<V::Value, E>(e));
    lemma_offered_by_all_splits(items, j);
    assert(items.skip(j)[0] == items[j]);
    assert(items.skip(j).drop_first() =~= items.skip(j + 1));
    lemma_traversed_then(at, items[j].hands_back(), after, false, mid, failed, failed);
    lemma_passes_then(before, at + after, false, pre, mid, post, failed.1);
}

/// A sequence fails only where one of its elements fails.
///
/// Where the traversal of a sequence `items` fails with `e` and leaves the
/// pass `post`, there is an element `j` such that the elements before it all
/// succeeded, and the element `j` failed with `e` and left `post`.
pub proof fn lemma_sequence_fails_at_an_element<X: Acceptor, V: Visitor<E>, E>(
    items: Seq<X>,
    pre: V,
    post: V,
    e: E,
) -> (at: (int, V))
    requires
        traversed(offered_by_all(items), false, pre, post, Err::<V::Value, E>(e)),
    ensures
        0 <= at.0 < items.len(),
        passes::<V, E>(offered_by_all(items.take(at.0)), pre, at.1),
        traversed(
            items[at.0].offered(),
            items[at.0].hands_back(),
            at.1,
            post,
            Err::<V::Value, E>(e),
        ),
    decreases items.len(),
{
    if items.len() == 0 {
        (0, pre)
    } else {
        let res = Err::<V::Value, E>(e);
        let later = items.drop_first();
        lemma_failure_splits(items[0].offered(), offered_by_all(later), false, pre, post, e);
        if traversed(items[0].offered(), false, pre, post, res) {
            lemma_failure_hands_nothing_back(
                items[0].offered(),
                false,
                items[0].hands_back(),
                pre,
                post,
                e,
            );
            assert(offered_by_all(items.take(0)) =~= Seq::<Node>::empty());
            (0, pre)
        } else {
            let mid = choose|mid: V| #[trigger]
                passes::<V, E>(items[0].offered(), pre, mid) && traversed(
                    offered_by_all(later),
                    false,
                    mid,
                    post,
                    res,
                );
            let (j, at) = lemma_sequence_fails_at_an_element(later, mid, post, e);
            lemma_passes_concat::<V, E>(
                items[0].offered(),
                offered_by_all(later.take(j)),
                pre,
                mid,
                at,
            );
            assert(items.take(j + 1)[0] == items[0]);
            assert(items.take(j + 1).drop_first() =~= later.take(j));
            (j + 1, at)
        }
    }
}

/// Where no callback of a pass has two outcomes, no traversal has.
///
/// Take a pass whose callbacks, called on the same node and the same pass,
/// always hand back the same pass, and either always succeed or always fail
/// with the same error. Then two traversals of the same nodes from the same
/// pass end with the same pass, and either both succeed or both fail with
/// the same error.
pub proof fn lemma_traversal_has_one_outcome<V: Visitor<E>, E>(
    nodes: Seq<Node>,
    hands_back: bool,
    pre: V,
    post1: V,
    res1: Result<V::Value, E>,
    post2: V,
    res2: Result<V::Value, E>,
)
    requires
        forall|node: Node, a: V, b1: V, r1: Result<V::Value, E>, b2: V, r2: Result<V::Value, E>|
            #[trigger] visited(node, a, b1, r1) && #[trigger] visited(node, a, b2, r2) ==> b1 == b2
                && (r1 is Ok <==> r2 is Ok) && (r1 is Err ==> r1 == r2),
        traversed(nodes, hands_back, pre, post1, res1),
        traversed(nodes, hands_back, pre, post2, res2),
    ensures
        post1 == post2,
        res1 is Ok <==> res2 is Ok,
        res1 is Err ==> res1 == res2,
    decreases nodes.len(),
{
    if nodes.len() > 0 {
        let (mid1, first1) = choose|mid: V, first: Result<V::Value, E>| #[trigger]
            visited(nodes[0], pre, mid, first) && match first {
                Err(e) => post1 == mid && res1 == Err::<V::Value, E>(e),
                Ok(value) => if hands_back && nodes.len() == 1 {
                    post1 == mid && res1 == Ok::<V::Value, E>(value)
                } else {
                    traversed(nodes.drop_first(), hands_back, mid, post1, res1)
                },
            };
        let (mid2, first2) = choose|mid: V, first: Result<V::Value, E>| #[trigger]
            visited(nodes[0], pre, mid, first) && match first {
                Err(e) => post2 == mid && res2 == Err::<V::Value, E>(e),
                Ok(value) => if hands_back && nodes.len() == 1 {
                    post2 == mid && res2 == Ok::<V::Value, E>(value)
                } else {
                    traversed(nodes.drop_first(), hands_back, mid, post2, res2)
                },
            };
        if first1 is Ok && !(hands_back && nodes.len() == 1) {
            lemma_traversal_has_one_outcome(
                nodes.drop_first(),
                hands_back,
                mid1,
                post1,
                res1,
                post2,
                res2,
            );
        }
    }
}

} // verus!
