//! Rose trees of generated artifacts.
//!
//! A code generator walks interface definitions and produces one artifact
//! per node; [`Tree`] and [`Forest`] carry those artifacts and support
//! mapping a function over every node while keeping the shape.

use vstd::prelude::*;

verus! {

/// A tree: a value at the root and any number of subtrees.
#[derive(Debug)]
pub struct Tree<T> {
    pub root: T,
    pub children: Vec<Tree<T>>,
}

/// A forest: any number of trees.
#[derive(Debug)]
pub struct Forest<T> {
    pub roots: Vec<Tree<T>>,
}

/// `b` has the shape of `a`, with every node's value a possible output of
/// `f` on the corresponding node of `a`.
pub open spec fn maps_tree<T, O, F: Fn(&T) -> O>(f: F, a: Tree<T>, b: Tree<O>) -> bool
    decreases a,
{
    &&& call_ensures(f, (&a.root,), b.root)
    &&& a.children@.len() == b.children@.len()
    &&& forall|i: int|
        0 <= i < a.children@.len() ==> maps_tree(f, #[trigger] a.children@[i], b.children@[i])
}

/// `b` has the shape of `a`, with every node's value a possible output of
/// `f` consuming the corresponding node of `a`.
pub open spec fn maps_tree_into<T, O, F: Fn(T) -> O>(f: F, a: Tree<T>, b: Tree<O>) -> bool
    decreases a,
{
    &&& call_ensures(f, (a.root,), b.root)
    &&& a.children@.len() == b.children@.len()
    &&& forall|i: int|
        0 <= i < a.children@.len() ==> maps_tree_into(f, #[trigger] a.children@[i], b.children@[i])
}

impl<T> Tree<T> {
    /// A tree of one node.
    pub fn leaf(root: T) -> (r: Self)
        ensures
            r.root == root,
            r.children@ == Seq::<Tree<T>>::empty(),
    {
        Tree { root, children: Vec::new() }
    }

    /// A tree from a root value and its subtrees.
    pub fn new(root: T, children: Vec<Tree<T>>) -> (r: Self)
        ensures
            r.root == root,
            r.children == children,
    {
        Tree { root, children }
    }

    /// Maps `f` over every node, keeping the shape.
    pub fn map<O, F: Fn(&T) -> O + Copy>(&self, f: F) -> (r: Tree<O>)
        requires
            forall|t: &T| #[trigger] call_requires(f, (t,)),
        ensures
            maps_tree(f, *self, r),
        decreases *self,
    {
        let root = f(&self.root);
        let mut children: Vec<Tree<O>> = Vec::new();
        let mut i: usize = 0;
        while i < self.children.len()
            invariant
                forall|t: &T| #[trigger] call_requires(f, (t,)),
                i <= self.children@.len(),
                children@.len() == i,
                forall|j: int|
                    0 <= j < i ==> maps_tree(f, #[trigger] self.children@[j], children@[j]),
            decreases self.children@.len() - i,
        {
            let c = self.children[i].map(f);
            children.push(c);
            i = i + 1;
        }
        Tree { root, children }
    }

    /// Maps `f` over every node, consuming the tree, keeping the shape.
    pub fn map_into<O, F: Fn(T) -> O + Copy>(self, f: F) -> (r: Tree<O>)
        requires
            forall|t: T| #[trigger] call_requires(f, (t,)),
        ensures
            maps_tree_into(f, self, r),
        decreases self,
    {
        let ghost orig = self;
        let Tree { root, mut children } = self;
        let new_root = f(root);
        let ghost total = children@;
        let mut out: Vec<Tree<O>> = Vec::new();
        while children.len() > 0
            invariant
                forall|t: T| #[trigger] call_requires(f, (t,)),
                orig == self,
                orig.children@ == total,
                out@.len() + children@.len() == total.len(),
                children@ == total.skip(out@.len() as int),
                forall|j: int|
                    0 <= j < out@.len() ==> maps_tree_into(f, #[trigger] total[j], out@[j]),
            decreases children@.len(),
        {
            let ghost done = out@.len() as int;
            let c = children.remove(0);
            proof {
                assert(c == total[done]);
                assert(children@ =~= total.skip(done + 1));
                assert(decreases_to!(orig => orig.children));
                assert(decreases_to!(orig.children => orig.children@[done]));
                assert(decreases_to!(orig => c));
            }
            let m = c.map_into(f);
            out.push(m);
        }
        proof {
            assert(total.skip(out@.len() as int) =~= Seq::<Tree<T>>::empty());
        }
        Tree { root: new_root, children: out }
    }
}

impl<T> Forest<T> {
    /// A forest from its trees.
    pub fn new(roots: Vec<Tree<T>>) -> (r: Self)
        ensures
            r.roots == roots,
    {
        Forest { roots }
    }

    /// The trees of the forest, for reading.
    pub fn iter(&self) -> (r: &Vec<Tree<T>>)
        ensures
            r == &self.roots,
    {
        &self.roots
    }

    /// The trees of the forest, for changing in place.
    pub fn iter_mut(&mut self) -> (r: &mut Vec<Tree<T>>)
        ensures
            *r == old(self).roots,
            final(self).roots == *final(r),
    {
        &mut self.roots
    }
}

} // verus!
