//! Nodes and the node builder.
//!
//! A [`Node`] is the immutable output of a component function: a tagged tree
//! element (kind, key, optional identity, properties, ordered children),
//! owned by its parent. [`build`] assembles one as a pure snapshot of its
//! arguments; [`build_checked`] additionally lets the caller opt into
//! rejecting duplicate sibling keys.

use vstd::prelude::*;

use crate::error::ComposeError;
use crate::props::{remap, Props};

verus! {

/// The widget kind of a node: which downstream widget behavior of the
/// external layout-and-render driver interprets it. The navigable box kinds
/// differ from their plain counterparts only in that they additionally
/// participate in focus traversal.
#[derive(Clone, Copy, PartialEq, Eq, Structural, Debug)]
pub enum NodeKind {
    /// A vertical directional layout box.
    VerticalBox,
    /// A vertical directional layout box that participates in focus traversal.
    NavVerticalBox,
    /// A grid layout box.
    GridBox,
    /// A grid layout box that participates in focus traversal.
    NavGridBox,
    /// A visual backing ("paper") wrapped around a single child.
    Decoration,
}

/// A shared handle under which an external driver can later retrieve a
/// mounted node's runtime state. The token is the shared identity: any number
/// of nodes across composition passes may carry the same token, and carrying
/// one never takes exclusive ownership of the underlying slot.
#[derive(Clone, Copy, PartialEq, Eq, Structural, Debug)]
pub struct IdentityRef {
    /// The identity slot this handle refers to.
    pub token: u64,
}

/// An immutable tree element produced by composition.
#[derive(Debug)]
pub struct Node {
    /// Which downstream widget behavior interprets this node.
    pub kind: NodeKind,
    /// Identifies this node among its siblings for diffing; assigned by the
    /// parent and unique among the sibling list it is inserted into.
    pub key: String,
    /// Optional shared identity handle for later external lookup.
    pub identity: Option<IdentityRef>,
    /// The properties this node carries.
    pub props: Props,
    /// The ordered children of this node.
    pub children: Vec<Node>,
}

impl Node {
    /// Substitutes a remapped property set into this node: every other part
    /// of the node is kept, and the new properties are exactly what
    /// `transform` produces from the old ones. Used by a parent to adjust a
    /// forwarded child's layout participation without touching the child's
    /// own composition logic.
    pub fn remap_props<F: Fn(Props) -> Props>(self, transform: F) -> (node: Node)
        requires
            call_requires(transform, (self.props,)),
        ensures
            node.kind == self.kind,
            node.key == self.key,
            node.identity == self.identity,
            node.children == self.children,
            call_ensures(transform, (self.props,), node.props),
    {
        let Node { kind, key, identity, props, children } = self;
        let props = remap(props, transform);
        Node { kind, key, identity, props, children }
    }
}

/// No two of the nodes share a key.
pub open spec fn keys_distinct(nodes: Seq<Node>) -> bool {
    forall|i: int, j: int| 0 <= i < j < nodes.len() ==> nodes[i].key@ != nodes[j].key@
}

/// The node builder: assembles an immutable snapshot node from a widget
/// kind, key, optional identity, properties and an ordered child list. Pure
/// and side-effect free; it performs no validation (see [`build_checked`] for
/// the opt-in duplicate-key check).
pub fn build(
    kind: NodeKind,
    key: String,
    identity: Option<IdentityRef>,
    props: Props,
    children: Vec<Node>,
) -> (node: Node)
    ensures
        node.kind == kind,
        node.key == key,
        node.identity == identity,
        node.props == props,
        node.children == children,
{
    Node { kind, key, identity, props, children }
}

/// [`build`] with opt-in structural validation: when `enforce_unique_keys`
/// is set, a child list in which two siblings share a key is rejected with
/// [`ComposeError::DuplicateKey`] naming a repeated key; otherwise the node
/// is assembled exactly as [`build`] assembles it.
pub fn build_checked(
    kind: NodeKind,
    key: String,
    identity: Option<IdentityRef>,
    props: Props,
    children: Vec<Node>,
    enforce_unique_keys: bool,
) -> (result: Result<Node, ComposeError>)
    ensures
        result is Err <==> enforce_unique_keys && !keys_distinct(children@),
        result matches Ok(node) ==> {
            &&& node.kind == kind
            &&& node.key == key
            &&& node.identity == identity
            &&& node.props == props
            &&& node.children == children
        },
        result matches Err(e) ==> e matches ComposeError::DuplicateKey { key: dup } && exists|
            i: int,
            j: int,
        |
            0 <= i < j < children@.len() && children@[i].key@ == children@[j].key@ && dup@
                == children@[i].key@,
{
    if enforce_unique_keys {
        let mut j: usize = 0;
        while j < children.len()
            invariant
                enforce_unique_keys,
                j <= children@.len(),
                forall|a: int, b: int| 0 <= a < b < j ==> children@[a].key@ != children@[b].key@,
            decreases children@.len() - j,
        {
            let mut i: usize = 0;
            while i < j
                invariant
                    enforce_unique_keys,
                    i <= j < children@.len(),
                    forall|a: int| 0 <= a < i ==> children@[a].key@ != children@[j as int].key@,
                decreases j - i,
            {
                if children[i].key == children[j].key {
                    proof {
                        assert(children@[i as int].key@ == children@[j as int].key@);
                        assert(!keys_distinct(children@));
                    }
                    return Err(ComposeError::DuplicateKey { key: children[i].key.clone() });
                }
                i = i + 1;
            }
            j = j + 1;
        }
        Ok(Node { kind, key, identity, props, children })
    } else {
        Ok(Node { kind, key, identity, props, children })
    }
}

} // verus!
