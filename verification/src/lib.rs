use vstd::prelude::*;

verus! {

/// A node of a disjoint-set (union-find) forest.
///
/// Each node carries a `value` and an optional owned `parent`. A node with
/// `parent == None` is the canonical node (representative) of its set; a node
/// with `parent == Some(p)` belongs to the set whose canonical node is reached
/// by following the parent chain. Because the parent is owned (`Box`), a chain
/// is always finite and acyclic, so walking it terminates.
#[derive(PartialEq, Debug)]
pub struct UnionFind<T> {
    /// The value carried by this node.
    pub value: T,
    /// `Some(parent)` for a node linked below another node, or `None` for a
    /// canonical node.
    pub parent: Option<Box<UnionFind<T>>>,
}

impl<T> UnionFind<T> {
    /// The canonical node of the set containing this node: the end of the
    /// parent chain.
    pub open spec fn root(self) -> UnionFind<T>
        decreases self,
    {
        match self.parent {
            Some(p) => p.root(),
            None => self,
        }
    }

    /// The number of parent dereferences from this node to its canonical node.
    pub open spec fn depth(self) -> nat
        decreases self,
    {
        match self.parent {
            Some(p) => p.depth() + 1,
            None => 0,
        }
    }

    /// Two nodes are in the same set when their parent chains end at the same
    /// canonical node.
    pub open spec fn in_same_set(self, other: UnionFind<T>) -> bool {
        self.root() == other.root()
    }

    /// Wraps `value` into a fresh singleton set: a canonical node with no
    /// parent.
    pub fn make_set(value: T) -> (r: UnionFind<T>)
        ensures
            r.value == value,
            r.parent is None,
    {
        UnionFind { value, parent: None }
    }

    /// Walks the parent chain and returns the canonical node of the set
    /// containing this node, consuming the node. A canonical node is returned
    /// unchanged. No path compression is performed: every call re-walks the
    /// whole chain, so the cost is one dereference per level of `depth`.
    pub fn find(self) -> (r: UnionFind<T>)
        ensures
            r == self.root(),
            r.parent is None,
            self.parent is None ==> r == self,
        decreases self,
    {
        let UnionFind { value, parent } = self;
        match parent {
            Some(p) => (*p).find(),
            None => UnionFind { value, parent: None },
        }
    }

    /// Merges the set containing `self` into the structure held by `other` by
    /// linking `other` directly below `self`: after the call `other`'s parent
    /// is `self`, so `other`'s canonical node is `self`'s. The chain `other`
    /// previously pointed at is discarded; no balancing is performed, so each
    /// call grows `other`'s depth to one more than `self`'s.
    pub fn union(self, other: &mut UnionFind<T>)
        ensures
            final(other).value == old(other).value,
            final(other).parent matches Some(p) && *p == self,
            final(other).root() == self.root(),
            final(other).depth() == self.depth() + 1,
    {
        other.parent = Some(Box::new(self));
    }

    /// The number of parent dereferences a `find` starting at this node
    /// performs: the length of the chain from this node to its canonical
    /// node. A run of sequential unions in one direction grows this by one
    /// per call, so the worst-case cost of `find` is linear in the number of
    /// unions.
    pub fn chain_length(&self) -> (n: usize)
        requires
            self.depth() <= usize::MAX,
        ensures
            n == self.depth(),
        decreases self,
    {
        match &self.parent {
            Some(p) => 1 + (&**p).chain_length(),
            None => 0,
        }
    }

    /// Law: union establishes reachability. After `union(a, b)` the node `b`
    /// holds `a` as its parent, so when `a` was canonical before the call,
    /// `b`'s canonical node — what `find` on `b` returns — is `a` itself, and
    /// in particular carries `a.value`.
    pub proof fn lemma_union_establishes_reachability(a: UnionFind<T>, b: UnionFind<T>)
        requires
            b.parent matches Some(p) && *p == a,
            a.parent is None,
        ensures
            b.root() == a,
            b.root().value == a.value,
    {
        assert(a.root() == a);
        assert(b.root() == a.root());
    }

    /// Law: equality of `find` results reflects set membership. `find`
    /// returns the canonical node, so two nodes of one set — joined directly
    /// or through intermediaries — yield one and the same result, while a
    /// node of a disjoint set yields a different one.
    pub proof fn lemma_find_reflects_set_membership(
        a: UnionFind<T>,
        b: UnionFind<T>,
        c: UnionFind<T>,
    )
        requires
            a.in_same_set(b),
            !a.in_same_set(c),
        ensures
            a.root() == b.root(),
            a.root() != c.root(),
    {
    }

    /// Law: equality is structural, not identity-based. Two canonical nodes
    /// carrying equal values are equal, even when created independently as
    /// logically distinct singleton sets; telling such sets apart needs an
    /// external unique key.
    pub proof fn lemma_equal_values_equal_singletons(a: UnionFind<T>, b: UnionFind<T>)
        requires
            a.value == b.value,
            a.parent is None,
            b.parent is None,
        ensures
            a == b,
    {
    }
}

impl<T: Clone> UnionFind<T> {
    /// `other` has the same chain shape as this node, and each value along
    /// `other`'s chain is a possible `T::clone` of the value at the same
    /// level of this node's chain.
    pub open spec fn mirrors(self, other: UnionFind<T>) -> bool
        decreases self,
    {
        &&& cloned::<T>(self.value, other.value)
        &&& match self.parent {
                Some(p) => other.parent matches Some(q) && p.mirrors(*q),
                None => other.parent is None,
            }
    }
}

impl<T: Clone> Clone for UnionFind<T> {
    /// Deep-copies the node and its whole parent chain. The copy has the same
    /// shape (same depth, canonical exactly where the original is), and each
    /// value along its chain is whatever `T::clone` produced from the
    /// original's value at that level.
    fn clone(&self) -> (res: Self)
        ensures
            self.mirrors(res),
            res.depth() == self.depth(),
        decreases self,
    {
        UnionFind {
            value: self.value.clone(),
            parent: (match &self.parent {
                Some(p) => Some(Box::new((&**p).clone())),
                None => None,
            }),
        }
    }
}

} // verus!
