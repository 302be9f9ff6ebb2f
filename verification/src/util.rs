//! Index-addressed, append-only tree container and a name-keyed store.
//!
//! `IndexTree` holds nodes of a generic payload type in one flat backing
//! vector; all parent/child relationships are integer indices into that
//! vector, so the structure is cycle-free by construction and is only ever
//! grown, never mutated in place.

use vstd::prelude::*;

verus! {

/// One node of an [`IndexTree`]: its own index, its payload, the index of its
/// parent (if any) and the ordered indices of its children.
#[derive(Debug)]
pub struct IndexNode<T> {
    pub idx: usize,
    pub val: T,
    pub parent: Option<usize>,
    pub children: Vec<usize>,
}

/// Well-formedness of the node stored at position `j` of a tree with `n`
/// nodes: it knows its own position, its parent was appended strictly
/// earlier, and every child was appended strictly later.
pub open spec fn node_wf_at<T>(node: IndexNode<T>, j: int, n: int) -> bool {
    &&& node.idx == j
    &&& match node.parent {
        Option::Some(p) => (p as int) < j,
        Option::None => true,
    }
    &&& forall|k: int|
        0 <= k < node.children@.len() ==> j < (#[trigger] node.children@[k]) as int
            && (node.children@[k] as int) < n
}

impl<T> IndexNode<T> {
    pub fn new(idx: usize, parent_idx: Option<usize>, val: T) -> (n: IndexNode<T>)
        ensures
            n.idx == idx,
            n.val == val,
            n.parent == parent_idx,
            n.children@ =~= Seq::<usize>::empty(),
    {
        IndexNode { idx, val, parent: parent_idx, children: Vec::new() }
    }

    pub fn val(&self) -> (r: &T)
        ensures
            r == &self.val,
    {
        &self.val
    }

    pub fn idx(&self) -> (r: usize)
        ensures
            r == self.idx,
    {
        self.idx
    }
}

/// An append-only tree whose nodes live in one flat vector and refer to each
/// other by index.  Appending returns the new node's index, to be handed back
/// as the `parent` argument for later children; nothing is ever removed or
/// reparented.
#[derive(Debug)]
pub struct IndexTree<T> {
    pub nodes: Vec<IndexNode<T>>,
}

impl<T> View for IndexTree<T> {
    type V = Seq<IndexNode<T>>;

    open spec fn view(&self) -> Seq<IndexNode<T>> {
        self.nodes@
    }
}

impl<T> IndexTree<T> {
    /// Every node of the tree is well formed at its position: children point
    /// strictly forward, parents strictly backward.
    pub open spec fn wf(&self) -> bool {
        forall|j: int| 0 <= j < self@.len() ==> node_wf_at(#[trigger] self@[j], j, self@.len() as int)
    }

    pub fn new() -> (t: IndexTree<T>)
        ensures
            t@ =~= Seq::<IndexNode<T>>::empty(),
            t.wf(),
    {
        IndexTree { nodes: Vec::new() }
    }

    /// Appends a node holding `val`, registers it as the last child of
    /// `parent_idx` if one is given, and returns its index.
    pub fn add_node(&mut self, parent_idx: Option<usize>, val: T) -> (idx: usize)
        requires
            old(self).wf(),
            match parent_idx {
                Option::Some(p) => (p as int) < old(self)@.len(),
                Option::None => true,
            },
        ensures
            final(self).wf(),
            idx as int == old(self)@.len(),
            final(self)@.len() == old(self)@.len() + 1,
            final(self)@[idx as int].idx == idx,
            final(self)@[idx as int].val == val,
            final(self)@[idx as int].parent == parent_idx,
            final(self)@[idx as int].children@ =~= Seq::<usize>::empty(),
            forall|j: int|
                0 <= j < old(self)@.len() && parent_idx != Option::Some(j as usize)
                    ==> final(self)@[j] == old(self)@[j],
            match parent_idx {
                Option::Some(p) => {
                    &&& final(self)@[p as int].children@ =~= old(self)@[p as int].children@.push(idx)
                    &&& final(self)@[p as int].idx == old(self)@[p as int].idx
                    &&& final(self)@[p as int].val == old(self)@[p as int].val
                    &&& final(self)@[p as int].parent == old(self)@[p as int].parent
                },
                Option::None => true,
            },
    {
        let idx = self.nodes.len();
        self.nodes.push(IndexNode::new(idx, parent_idx, val));
        self.add_child(parent_idx, idx);
        idx
    }

    fn add_child(&mut self, parent_idx: Option<usize>, child_idx: usize)
        requires
            match parent_idx {
                Option::Some(p) => (p as int) < old(self)@.len(),
                Option::None => true,
            },
        ensures
            match parent_idx {
                Option::Some(p) => {
                    &&& final(self)@.len() == old(self)@.len()
                    &&& final(self)@[p as int].children@ =~= old(self)@[p as int].children@.push(
                        child_idx,
                    )
                    &&& final(self)@[p as int].idx == old(self)@[p as int].idx
                    &&& final(self)@[p as int].val == old(self)@[p as int].val
                    &&& final(self)@[p as int].parent == old(self)@[p as int].parent
                    &&& forall|j: int|
                        0 <= j < old(self)@.len() && j != p as int ==> final(self)@[j] == old(self)@[j]
                },
                Option::None => final(self)@ =~= old(self)@,
            },
    {
        match parent_idx {
            Option::Some(i) => {
                self.nodes[i].children.push(child_idx);
            },
            Option::None => (),
        }
    }

    /// The node appended first; the conventional root of the tree.
    pub fn root(&self) -> (r: &IndexNode<T>)
        requires
            self@.len() > 0,
        ensures
            r == &self@[0],
    {
        &self.nodes[0]
    }

    pub fn node(&self, idx: usize) -> (r: &IndexNode<T>)
        requires
            (idx as int) < self@.len(),
        ensures
            r == &self@[idx as int],
    {
        &self.nodes[idx]
    }

    /// The payload of the parent of the node at `idx`, or `None` for a root.
    pub fn parent(&self, idx: usize) -> (r: Option<&T>)
        requires
            self.wf(),
            (idx as int) < self@.len(),
        ensures
            match self@[idx as int].parent {
                Option::Some(p) => r == Option::Some(&self@[p as int].val),
                Option::None => r is None,
            },
    {
        let parent_idx = self.nodes[idx].parent;
        match parent_idx {
            Option::Some(i) => Option::Some(self.node_val(i)),
            Option::None => Option::None,
        }
    }

    /// The nodes that are children of the node at `idx`, in insertion order.
    pub fn children(&self, idx: usize) -> (r: Vec<&IndexNode<T>>)
        requires
            self.wf(),
            (idx as int) < self@.len(),
        ensures
            r@.len() == self@[idx as int].children@.len(),
            forall|k: int|
                0 <= k < r@.len() ==> #[trigger] r@[k] == &self@[
                    self@[idx as int].children@[k] as int
                ],
    {
        let child_indices = &self.nodes[idx].children;
        let mut result: Vec<&IndexNode<T>> = Vec::new();
        let mut k: usize = 0;
        while k < child_indices.len()
            invariant
                self.wf(),
                (idx as int) < self@.len(),
                child_indices == &self@[idx as int].children,
                k as int <= child_indices@.len(),
                result@.len() == k as int,
                forall|m: int|
                    0 <= m < k as int ==> #[trigger] result@[m] == &self@[
                        self@[idx as int].children@[m] as int
                    ],
            decreases child_indices@.len() - k as int,
        {
            let c = child_indices[k];
            result.push(&self.nodes[c]);
            k = k + 1;
        }
        result
    }

    /// The indices of the children of the node at `idx`, in insertion order.
    pub fn children_idx(&self, idx: usize) -> (r: Vec<usize>)
        requires
            self.wf(),
            (idx as int) < self@.len(),
        ensures
            r@ =~= self@[idx as int].children@,
    {
        let nodes = self.children(idx);
        let mut result: Vec<usize> = Vec::new();
        let mut k: usize = 0;
        while k < nodes.len()
            invariant
                self.wf(),
                (idx as int) < self@.len(),
                nodes@.len() == self@[idx as int].children@.len(),
                forall|m: int|
                    0 <= m < nodes@.len() ==> #[trigger] nodes@[m] == &self@[
                        self@[idx as int].children@[m] as int
                    ],
                k as int <= nodes@.len(),
                result@.len() == k as int,
                forall|m: int|
                    0 <= m < k as int ==> #[trigger] result@[m] == self@[idx as int].children@[m],
            decreases nodes@.len() - k as int,
        {
            proof {
                assert(self@[idx as int].children@[k as int] as int == self@[
                    self@[idx as int].children@[k as int] as int
                ].idx as int);
            }
            result.push(nodes[k].idx());
            k = k + 1;
        }
        result
    }

    /// The payloads of the children of the node at `idx`, in insertion order.
    pub fn children_val(&self, idx: usize) -> (r: Vec<&T>)
        requires
            self.wf(),
            (idx as int) < self@.len(),
        ensures
            r@.len() == self@[idx as int].children@.len(),
            forall|k: int|
                0 <= k < r@.len() ==> #[trigger] r@[k] == &self@[
                    self@[idx as int].children@[k] as int
                ].val,
    {
        let nodes = self.children(idx);
        let mut result: Vec<&T> = Vec::new();
        let mut k: usize = 0;
        while k < nodes.len()
            invariant
                self.wf(),
                (idx as int) < self@.len(),
                nodes@.len() == self@[idx as int].children@.len(),
                forall|m: int|
                    0 <= m < nodes@.len() ==> #[trigger] nodes@[m] == &self@[
                        self@[idx as int].children@[m] as int
                    ],
                k as int <= nodes@.len(),
                result@.len() == k as int,
                forall|m: int|
                    0 <= m < k as int ==> #[trigger] result@[m] == &self@[
                        self@[idx as int].children@[m] as int
                    ].val,
            decreases nodes@.len() - k as int,
        {
            result.push(nodes[k].val());
            k = k + 1;
        }
        result
    }

    pub fn node_val(&self, idx: usize) -> (r: &T)
        requires
            (idx as int) < self@.len(),
        ensures
            r == &self@[idx as int].val,
    {
        self.nodes[idx].val()
    }

    pub fn node_idx(&self, idx: usize) -> (r: usize)
        requires
            (idx as int) < self@.len(),
        ensures
            r == self@[idx as int].idx,
    {
        self.nodes[idx].idx()
    }
}

/// Something that carries a name; the key under which a [`NameMap`] stores it.
pub trait Named {
    spec fn spec_name(&self) -> Seq<char>;

    fn name(&self) -> (s: String)
        ensures
            s@ == self.spec_name(),
    ;
}

/// The one failure of [`NameMap::insert`]: the item's name is already taken.
/// The rejected item is handed back to the caller.
#[derive(Debug)]
pub enum NameMapError<T: Named> {
    NameAlreadyExists(T),
}

/// A store of named items in which each name occurs at most once.  Insertion
/// under a taken name is refused; it never replaces or merges.
#[derive(Debug)]
pub struct NameMap<T: Named> {
    pub items: Vec<T>,
}

impl<T: Named> View for NameMap<T> {
    type V = Seq<T>;

    open spec fn view(&self) -> Seq<T> {
        self.items@
    }
}

/// Whether some item in `items` carries the name `name`.
pub open spec fn contains_name<T: Named>(items: Seq<T>, name: Seq<char>) -> bool {
    exists|i: int| 0 <= i < items.len() && (#[trigger] items[i]).spec_name() == name
}

/// The first item in `items` carrying `name`, if any: lookup scans in
/// insertion order.
pub open spec fn first_named<T: Named>(items: Seq<T>, name: Seq<char>) -> Option<T>
    decreases items.len(),
{
    if items.len() == 0 {
        Option::None
    } else if items[0].spec_name() == name {
        Option::Some(items[0])
    } else {
        first_named(items.subrange(1, items.len() as int), name)
    }
}

impl<T: Named> NameMap<T> {
    /// All stored names are distinct.
    pub open spec fn wf(&self) -> bool {
        forall|i: int, j: int|
            0 <= i < j < self@.len() ==> (#[trigger] self@[i]).spec_name() != (
            #[trigger] self@[j]).spec_name()
    }

    pub fn new() -> (m: NameMap<T>)
        ensures
            m@ =~= Seq::<T>::empty(),
            m.wf(),
    {
        NameMap { items: Vec::new() }
    }

    /// Stores `item` under its name; fails, handing the item back and leaving
    /// the map unchanged, when the name is already present.
    pub fn insert(&mut self, item: T) -> (r: Result<(), NameMapError<T>>)
        requires
            old(self).wf(),
        ensures
            final(self).wf(),
            if contains_name(old(self)@, item.spec_name()) {
                &&& r == Result::<(), NameMapError<T>>::Err(NameMapError::NameAlreadyExists(item))
                &&& final(self)@ == old(self)@
            } else {
                &&& r is Ok
                &&& final(self)@ =~= old(self)@.push(item)
            },
    {
        let item_name = item.name();
        let mut i: usize = 0;
        while i < self.items.len()
            invariant
                self.wf(),
                self@ == old(self)@,
                item_name@ == item.spec_name(),
                i as int <= self@.len(),
                forall|m: int| 0 <= m < i as int ==> (#[trigger] self@[m]).spec_name() != item.spec_name(),
            decreases self@.len() - i as int,
        {
            if self.items[i].name() == item_name {
                proof {
                    assert(contains_name(old(self)@, item.spec_name()));
                }
                return Result::Err(NameMapError::NameAlreadyExists(item));
            }
            i = i + 1;
        }
        self.items.push(item);
        Result::Ok(())
    }

    /// The item stored under `name`, if any.
    pub fn get(&self, name: &str) -> (r: Option<&T>)
        requires
            self.wf(),
        ensures
            match r {
                Option::Some(item) => {
                    &&& first_named(self@, name@) == Option::Some(*item)
                    &&& item.spec_name() == name@
                    &&& contains_name(self@, name@)
                },
                Option::None => !contains_name(self@, name@),
            },
    {
        let owned: String = name.to_owned();
        proof {
            assert(self@.subrange(0, self@.len() as int) =~= self@);
        }
        let mut i: usize = 0;
        while i < self.items.len()
            invariant
                self.wf(),
                owned@ == name@,
                i as int <= self@.len(),
                forall|m: int| 0 <= m < i as int ==> (#[trigger] self@[m]).spec_name() != name@,
                first_named(self@, name@) == first_named(
                    self@.subrange(i as int, self@.len() as int),
                    name@,
                ),
            decreases self@.len() - i as int,
        {
            if self.items[i].name() == owned {
                proof {
                    let rest = self@.subrange(i as int, self@.len() as int);
                    assert(rest[0] == self@[i as int]);
                }
                return Option::Some(&self.items[i]);
            }
            proof {
                let rest = self@.subrange(i as int, self@.len() as int);
                assert(rest.subrange(1, rest.len() as int) =~= self@.subrange(
                    i as int + 1,
                    self@.len() as int,
                ));
            }
            i = i + 1;
        }
        Option::None
    }
}

/// Lookup finds an item exactly when its name is stored: `first_named` is
/// `Some` if and only if `contains_name` holds, and the item found carries
/// the looked-up name.
pub proof fn lemma_first_named_contains<T: Named>(items: Seq<T>, name: Seq<char>)
    ensures
        first_named(items, name) is Some <==> contains_name(items, name),
        match first_named(items, name) {
            Option::Some(item) => item.spec_name() == name && exists|i: int|
                0 <= i < items.len() && items[i] == item,
            Option::None => true,
        },
    decreases items.len(),
{
    if items.len() > 0 {
        if items[0].spec_name() == name {
            assert(items[0] == first_named(items, name)->Some_0);
        } else {
            let rest = items.subrange(1, items.len() as int);
            lemma_first_named_contains(rest, name);
            if contains_name(items, name) {
                let i = choose|i: int|
                    0 <= i < items.len() && (#[trigger] items[i]).spec_name() == name;
                assert(rest[i - 1] == items[i]);
                assert(contains_name(rest, name));
            }
            if contains_name(rest, name) {
                let i = choose|i: int|
                    0 <= i < rest.len() && (#[trigger] rest[i]).spec_name() == name;
                assert(items[i + 1] == rest[i]);
                assert(contains_name(items, name));
            }
            match first_named(rest, name) {
                Option::Some(item) => {
                    let i = choose|i: int| 0 <= i < rest.len() && rest[i] == item;
                    assert(items[i + 1] == rest[i]);
                },
                Option::None => {},
            }
        }
    }
}

} // verus!
