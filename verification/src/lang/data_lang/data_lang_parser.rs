//! Syntax-tree nodes for the declaration sub-language, with the reshaping
//! helpers that turn a parsed module into name-keyed form.  Reading source
//! text into these nodes is the business of the textual front end around
//! this library.

use vstd::prelude::*;

verus! {

/// One node of a parsed declaration file.
#[derive(Debug)]
pub enum Node {
    File(String, Box<Node>),
    Module(String, Vec<Node>),
    TypeAlias(String, Box<Node>),
    TypeName(String),
    Entity(String, Box<Node>),
    EntityDef { extends: Option<String>, attrs: Vec<(String, Node)> },
    Attr(String, Box<Node>),
}

/// The name-and-content pair a named node reshapes to; `None` for the
/// variants that carry no single named child.
pub open spec fn spec_node_tuple(n: Node) -> Option<(String, Node)> {
    match n {
        Node::TypeAlias(name, node) => Option::Some((name, *node)),
        Node::Entity(name, node) => Option::Some((name, *node)),
        Node::Attr(name, node) => Option::Some((name, *node)),
        _ => Option::None,
    }
}

impl Node {
    pub fn bx(self) -> (r: Box<Node>)
        ensures
            r == self,
    {
        Box::new(self)
    }

    /// Splits a named node into its name and its content.  The caller
    /// guarantees a named variant; the parser produces nothing else in the
    /// positions this is applied to.
    pub fn node_to_tuple(self) -> (r: (String, Node))
        requires
            spec_node_tuple(self) is Some,
        ensures
            r == spec_node_tuple(self)->Some_0,
    {
        match self {
            Node::TypeAlias(name, node) => (name, *node),
            Node::Entity(name, node) => (name, *node),
            Node::Attr(name, node) => (name, *node),
            _ => {
                proof {
                    assert(false);
                }
                unreached()
            },
        }
    }

    /// Reshapes a list of named nodes into name-keyed pairs, in order.
    pub fn nodes_to_hm(nodes: Vec<Node>) -> (r: Vec<(String, Node)>)
        requires
            forall|i: int|
                0 <= i < nodes@.len() ==> spec_node_tuple(#[trigger] nodes@[i]) is Some,
        ensures
            r@ == nodes@.map_values(|n: Node| spec_node_tuple(n)->Some_0),
    {
        let ghost orig = nodes@;
        let mut nodes = nodes;
        let mut r: Vec<(String, Node)> = Vec::new();
        while nodes.len() > 0
            invariant
                r@.len() + nodes@.len() == orig.len(),
                nodes@ =~= orig.skip(r@.len() as int),
                forall|i: int|
                    0 <= i < orig.len() ==> spec_node_tuple(#[trigger] orig[i]) is Some,
                r@ =~= orig.take(r@.len() as int).map_values(
                    |n: Node| spec_node_tuple(n)->Some_0,
                ),
            decreases nodes@.len(),
        {
            let ghost k = r@.len() as int;
            let n = nodes.remove(0);
            proof {
                assert(n == orig[k]);
                assert(nodes@ =~= orig.skip(k + 1));
            }
            r.push(n.node_to_tuple());
            proof {
                assert(r@ =~= orig.take(k + 1).map_values(|n: Node| spec_node_tuple(n)->Some_0));
            }
        }
        proof {
            assert(orig.take(orig.len() as int) =~= orig);
        }
        r
    }

    /// Splits a parsed module into its name and its name-keyed contents.
    pub fn to_hm(self) -> (r: (String, Vec<(String, Node)>))
        requires
            self is Module,
            forall|i: int|
                0 <= i < self->Module_1@.len() ==> spec_node_tuple(
                    #[trigger] self->Module_1@[i],
                ) is Some,
        ensures
            r.0 == self->Module_0,
            r.1@ == self->Module_1@.map_values(|n: Node| spec_node_tuple(n)->Some_0),
    {
        match self {
            Node::Module(s, ns) => (s, Node::nodes_to_hm(ns)),
            _ => {
                proof {
                    assert(false);
                }
                unreached()
            },
        }
    }
}

} // verus!
