//! Offering a value's nodes to a visitor.
use vstd::prelude::*;
use crate::node::Node;
use crate::traversal::{lemma_traversed_leaf, lemma_traversed_step};
use crate::visitor::{traversed, visited, Visitor};

verus! {

/// A part of the tree that can be handed to a visitor.
///
/// What a value offers, in which order, and whose result comes back, is
/// fixed by the shape of the tree: a visitor has no say in it.
pub trait Acceptor {
    /// The nodes that this value offers to a visitor, in the order in which
    /// their callbacks are called.
    spec fn offered(&self) -> Seq<Node>;

    /// Whether a traversal of this value that succeeds hands back what the
    /// callback of the last offered node returned. Where it does not, it
    /// hands back the default value.
    ///
    /// A node without children hands back what its callback returned, and a
    /// node with children what its last child hands back. A sequence hands
    /// back the default value, and so does a value that offers nothing.
    spec fn hands_back(&self) -> bool;

    /// Hands `visitor` to the callbacks of the offered nodes, in order, until
    /// one of them fails, and returns the visitor with that failure. When
    /// none fails, returns the visitor with what the last callback returned,
    /// or with the default value, as `hands_back` says.
    fn accept<V: Visitor<E>, E>(&self, visitor: V) -> (out: (V, Result<V::Value, E>))
        ensures
            traversed(self.offered(), self.hands_back(), visitor, out.0, out.1),
    ;
}

/// What each of `items` offers, in the order of `items`.
pub open spec fn offered_by_all<X: Acceptor>(items: Seq<X>) -> Seq<Node>
    decreases items.len(),
{
    if items.len() == 0 {
        Seq::empty()
    } else {
        items[0].offered() + offered_by_all(items.drop_first())
    }
}

/// A traversal that visits nothing: the visitor as it came, with the default
/// value.
pub fn done<V: Visitor<E>, E>(visitor: V) -> (out: (V, Result<V::Value, E>))
    ensures
        traversed(Seq::<Node>::empty(), false, visitor, out.0, out.1),
{
    (visitor, Ok(V::Value::default()))
}

/// The visit of a node without children, whose callback returned `called`:
/// that is the result, the value included.
pub(crate) fn leaf<V: Visitor<E>, E>(
    Ghost(node): Ghost<Node>,
    Ghost(pre): Ghost<V>,
    called: (V, Result<V::Value, E>),
) -> (out: (V, Result<V::Value, E>))
    requires
        visited(node, pre, called.0, called.1),
    ensures
        out == called,
        traversed(seq![node], true, pre, out.0, out.1),
{
    proof {
        lemma_traversed_leaf(node, pre, called);
    }
    called
}

/// A sequence offers what its elements offer, in order. The first element
/// that fails ends the traversal; the elements after it are not visited.
/// When none fails, the sequence hands back the default value, whatever its
/// elements handed back.
impl<X: Acceptor> Acceptor for Vec<X> {
    open spec fn offered(&self) -> Seq<Node> {
        offered_by_all(self@)
    }

    open spec fn hands_back(&self) -> bool {
        false
    }

    fn accept<V: Visitor<E>, E>(&self, visitor: V) -> (out: (V, Result<V::Value, E>)) {
        let ghost all = offered_by_all(self@);
        let mut v = visitor;
        let mut i: usize = 0;
        assert(self.offered() == all && !self.hands_back());
        assert(self@.skip(0) =~= self@);
        while i < self.len()
            invariant
                i <= self.len(),
                self.offered() == all,
                !self.hands_back(),
                forall|post: V, res: Result<V::Value, E>| #[trigger]
                    traversed(offered_by_all(self@.skip(i as int)), false, v, post, res)
                        ==> traversed(all, false, visitor, post, res),
            decreases self.len() - i,
        {
            let ghost before = v;
            let stepped = self[i].accept(v);
            proof {
                let first = self@[i as int].offered();
                let rest = offered_by_all(self@.skip(i + 1));
                assert(self@.skip(i as int)[0] == self@[i as int]);
                assert(self@.skip(i as int).drop_first() =~= self@.skip(i + 1));
                assert(offered_by_all(self@.skip(i as int)) == first + rest);
                lemma_traversed_step(
                    all,
                    visitor,
                    first,
                    self@[i as int].hands_back(),
                    rest,
                    before,
                    stepped,
                );
            }
            match stepped {
                (after, Err(e)) => {
                    return (after, Err(e));
                },
                (after, Ok(_)) => {
                    v = after;
                },
            }
            i = i + 1;
        }
        assert(offered_by_all(self@.skip(i as int)) =~= Seq::<Node>::empty());
        done(v)
    }
}

/// An optional value offers what the value offers where there is one, and
/// hands back what it hands back. Where there is none it offers nothing and
/// hands back the default value.
impl<X: Acceptor> Acceptor for Option<X> {
    open spec fn offered(&self) -> Seq<Node> {
        match self {
            Some(x) => x.offered(),
            None => Seq::empty(),
        }
    }

    open spec fn hands_back(&self) -> bool {
        match self {
            Some(x) => x.hands_back(),
            None => false,
        }
    }

    fn accept<V: Visitor<E>, E>(&self, visitor: V) -> (out: (V, Result<V::Value, E>)) {
        assert(self.offered() == match self {
            Some(x) => x.offered(),
            None => Seq::empty(),
        });
        assert(self.hands_back() == match self {
            Some(x) => x.hands_back(),
            None => false,
        });
        match self {
            Some(x) => x.accept(visitor),
            None => done(visitor),
        }
    }
}

} // verus!
