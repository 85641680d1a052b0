//! Component functions: the concrete composition patterns.
//!
//! Two shapes, both specializations of the same rule set:
//!
//! * [`app`], a fixed-arity composite that unpacks a title and a content
//!   slot, pins the title's layout participation to rigid, and arranges both
//!   inside a navigable vertical box;
//! * the decorated-container family ([`paper_container`] and its four named
//!   variants), which forwards a listed slot into a grid or vertical layout
//!   box and wraps that box as the sole child of a decoration node carrying
//!   the context's identity and key.

use vstd::prelude::*;

use crate::context::{named_lookup, named_seq, listed_seq, unpack_named, forward_listed, Context};
use crate::error::ComposeError;
use crate::node::{build, Node, NodeKind};
use crate::props::{lemma_lookup_push, lookup, PropTag, PropValue, Props};

verus! {

/// Spacing, in abstract layout units, between the two regions of the [`app`]
/// composite.
pub const APP_SEPARATION: u64 = 16;

/// The layout-participation facet [`app`] pins onto its title child: rigid
/// in the vertical layout, neither growing nor shrinking.
pub open spec fn rigid_flex_item() -> PropValue {
    PropValue::FlexItem { grow: 0, shrink: 0 }
}

/// The name under which [`app`] consumes its title slot.
pub open spec fn title_slot_name() -> Seq<char> {
    "title"@
}

/// The name under which [`app`] consumes its content slot.
pub open spec fn content_slot_name() -> Seq<char> {
    "content"@
}

/// Whether a context supplies both named slots [`app`] declares.
pub open spec fn app_accepts(context: Context) -> bool {
    &&& named_lookup(named_seq(context.slots), title_slot_name()) is Some
    &&& named_lookup(named_seq(context.slots), content_slot_name()) is Some
}

/// The properties the [`app`] composite constructs for itself: the spacing
/// of the vertical box, then the marker that focus traversal wraps at the
/// ends of the group.
pub open spec fn app_props() -> Seq<PropValue> {
    seq![
        PropValue::VerticalLayout { separation: APP_SEPARATION },
        PropValue::NavJumpLooped,
    ]
}

/// The exact shape of the node [`app`] emits for an accepted context: a
/// navigable vertical box under the context's key, whose children are, in
/// fixed order, the title child with its layout participation remapped to
/// rigid (grow and shrink both zero, whatever the input title carried) and
/// the content child exactly as supplied.
pub open spec fn app_output_shape(context: Context, node: Node) -> bool {
    let slots = named_seq(context.slots);
    let title = named_lookup(slots, title_slot_name())->Some_0;
    let content = named_lookup(slots, content_slot_name())->Some_0;
    &&& node.kind == NodeKind::NavVerticalBox
    &&& node.key == context.key
    &&& node.identity is None
    &&& node.props@ == app_props()
    &&& node.children@.len() == 2
    &&& node.children@[0].kind == title.kind
    &&& node.children@[0].key == title.key
    &&& node.children@[0].identity == title.identity
    &&& node.children@[0].children == title.children
    &&& node.children@[0].props@ == title.props@.push(rigid_flex_item())
    &&& lookup(node.children@[0].props@, PropTag::FlexItem) == Some(rigid_flex_item())
    &&& node.children@[1] == content
}

/// The property transform [`app`] applies to its title child: composes the
/// rigid layout-participation facet onto whatever properties the child
/// carried, so the facet shadows any earlier one.
fn rigid_remap(props: Props) -> (remapped: Props)
    ensures
        remapped@ == props@.push(rigid_flex_item()),
{
    props.with(PropValue::FlexItem { grow: 0, shrink: 0 })
}

/// The fixed-arity application composite: arranges a title region above a
/// content region inside a navigable vertical layout box.
///
/// Unpacks exactly the two named slots it declares, remaps the title's
/// properties so the title neither grows nor shrinks in the vertical layout,
/// builds its own properties (spacing and the wrap-focus marker), and emits
/// the box under the context's key. A context missing a declared slot is a
/// fatal composition error naming the missing slot — the title slot if that
/// one is absent, otherwise the content slot — never a silently empty child.
pub fn app(context: Context) -> (result: Result<Node, ComposeError>)
    ensures
        result is Ok <==> app_accepts(context),
        result matches Ok(node) ==> app_output_shape(context, node),
        result matches Err(e) ==> e matches ComposeError::MissingSlot { name } && name@ == if
            named_lookup(named_seq(context.slots), title_slot_name()) is None {
            title_slot_name()
        } else {
            content_slot_name()
        },
{
    let Context { idref: _, key, props: _, slots } = context;
    let mut names: Vec<String> = Vec::new();
    names.push(String::from_str("title"));
    names.push(String::from_str("content"));
    proof {
        reveal_strlit("title");
        reveal_strlit("content");
        assert(names@[0]@ == title_slot_name());
        assert(names@[1]@ == content_slot_name());
        assert(names@[0]@ != names@[1]@);
    }
    let mut nodes = match unpack_named(slots, &names) {
        Ok(nodes) => nodes,
        Err(e) => {
            return Err(e);
        },
    };
    proof {
        assert(named_lookup(named_seq(context.slots), names@[0]@) is Some);
        assert(named_lookup(named_seq(context.slots), names@[1]@) is Some);
    }
    let content = nodes.pop().unwrap();
    let title = nodes.pop().unwrap();
    let ghost title_props_before = title.props@;
    let title = title.remap_props(rigid_remap);
    proof {
        lemma_lookup_push(title_props_before, rigid_flex_item(), PropTag::FlexItem);
    }
    let props = Props::new().with(PropValue::VerticalLayout { separation: APP_SEPARATION }).with(
        PropValue::NavJumpLooped,
    );
    proof {
        assert(props@ =~= app_props());
    }
    let mut children: Vec<Node> = Vec::new();
    children.push(title);
    children.push(content);
    Ok(build(NodeKind::NavVerticalBox, key, None, props, children))
}

/// The layout-box kind the decorated-container family selects for a choice
/// of layout discipline and navigability.
pub open spec fn layout_kind(grid: bool, navigable: bool) -> NodeKind {
    if grid {
        if navigable {
            NodeKind::NavGridBox
        } else {
            NodeKind::GridBox
        }
    } else {
        if navigable {
            NodeKind::NavVerticalBox
        } else {
            NodeKind::VerticalBox
        }
    }
}

/// The fixed sub-key the inner layout box of the decorated-container family
/// is given.
pub open spec fn layout_sub_key(grid: bool) -> Seq<char> {
    if grid {
        "grid"@
    } else {
        "vertical"@
    }
}

/// The exact shape of the node the decorated-container family emits: the
/// outer node is a decoration carrying the context's identity, key and
/// properties, and its sole child is the selected layout box, under its
/// fixed sub-key, carrying the same properties and, in order, exactly the
/// context's listed children.
pub open spec fn paper_shape(grid: bool, navigable: bool, context: Context, node: Node) -> bool {
    &&& node.kind == NodeKind::Decoration
    &&& node.key == context.key
    &&& node.identity == context.idref
    &&& node.props@ == context.props@
    &&& node.children@.len() == 1
    &&& node.children@[0].kind == layout_kind(grid, navigable)
    &&& node.children@[0].key@ == layout_sub_key(grid)
    &&& node.children@[0].identity is None
    &&& node.children@[0].props@ == context.props@
    &&& node.children@[0].children@ == listed_seq(context.slots)
}

/// The decorated-container family: wraps the context's listed children in a
/// layout box (grid or vertical, navigable or not, by the two flags) and
/// wraps that box as the sole child of a decoration node. The context's
/// identity and key go to the outer decoration node; the inherited
/// properties are shared unchanged by both nodes. An empty listed slot is
/// valid and yields a layout box with no children.
pub fn paper_container(grid: bool, navigable: bool, context: Context) -> (node: Node)
    ensures
        paper_shape(grid, navigable, context, node),
{
    let Context { idref, key, props, slots } = context;
    let listed = forward_listed(slots);
    let inner_kind = if grid {
        if navigable {
            NodeKind::NavGridBox
        } else {
            NodeKind::GridBox
        }
    } else {
        if navigable {
            NodeKind::NavVerticalBox
        } else {
            NodeKind::VerticalBox
        }
    };
    let sub_key = if grid {
        String::from_str("grid")
    } else {
        String::from_str("vertical")
    };
    let inner = build(inner_kind, sub_key, None, props.clone(), listed);
    let mut outer_children: Vec<Node> = Vec::new();
    outer_children.push(inner);
    build(NodeKind::Decoration, key, idref, props, outer_children)
}

/// Paper around a grid box: decoration outside, plain grid layout inside.
pub fn grid_paper(context: Context) -> (node: Node)
    ensures
        paper_shape(true, false, context, node),
{
    paper_container(true, false, context)
}

/// Paper around a navigable grid box.
pub fn nav_grid_paper(context: Context) -> (node: Node)
    ensures
        paper_shape(true, true, context, node),
{
    paper_container(true, true, context)
}

/// Paper around a vertical box: decoration outside, plain vertical layout
/// inside.
pub fn vertical_paper(context: Context) -> (node: Node)
    ensures
        paper_shape(false, false, context, node),
{
    paper_container(false, false, context)
}

/// Paper around a navigable vertical box.
pub fn nav_vertical_paper(context: Context) -> (node: Node)
    ensures
        paper_shape(false, true, context, node),
{
    paper_container(false, true, context)
}

/// Composition is deterministic for the decorated-container family: two runs
/// over equal contexts agree, component by component, on the emitted tree —
/// same outer kind, key, identity and properties, and the same inner layout
/// box over the same forwarded children.
pub proof fn lemma_paper_deterministic(
    grid: bool,
    navigable: bool,
    c1: Context,
    c2: Context,
    n1: Node,
    n2: Node,
)
    requires
        c1 == c2,
        paper_shape(grid, navigable, c1, n1),
        paper_shape(grid, navigable, c2, n2),
    ensures
        n1.kind == n2.kind,
        n1.key == n2.key,
        n1.identity == n2.identity,
        n1.props@ == n2.props@,
        n1.children@.len() == n2.children@.len(),
        n1.children@[0].kind == n2.children@[0].kind,
        n1.children@[0].key@ == n2.children@[0].key@,
        n1.children@[0].identity == n2.children@[0].identity,
        n1.children@[0].props@ == n2.children@[0].props@,
        n1.children@[0].children@ == n2.children@[0].children@,
{
}

/// Composition is deterministic for the fixed-arity composite: on equal
/// contexts that supply the declared named slots, two runs both succeed and
/// agree, component by component, on the emitted tree — including the
/// remapped title child and the forwarded content child.
pub proof fn lemma_app_deterministic(
    c1: Context,
    c2: Context,
    r1: Result<Node, ComposeError>,
    r2: Result<Node, ComposeError>,
)
    requires
        c1 == c2,
        app_accepts(c1),
        r1 is Ok ==> app_output_shape(c1, r1->Ok_0),
        r2 is Ok ==> app_output_shape(c2, r2->Ok_0),
        r1 is Ok <==> app_accepts(c1),
        r2 is Ok <==> app_accepts(c2),
    ensures
        r1 is Ok,
        r2 is Ok,
        r1->Ok_0.kind == r2->Ok_0.kind,
        r1->Ok_0.key == r2->Ok_0.key,
        r1->Ok_0.identity == r2->Ok_0.identity,
        r1->Ok_0.props@ == r2->Ok_0.props@,
        r1->Ok_0.children@.len() == r2->Ok_0.children@.len(),
        r1->Ok_0.children@[0].kind == r2->Ok_0.children@[0].kind,
        r1->Ok_0.children@[0].key == r2->Ok_0.children@[0].key,
        r1->Ok_0.children@[0].identity == r2->Ok_0.children@[0].identity,
        r1->Ok_0.children@[0].props@ == r2->Ok_0.children@[0].props@,
        r1->Ok_0.children@[0].children == r2->Ok_0.children@[0].children,
        r1->Ok_0.children@[1] == r2->Ok_0.children@[1],
{
}

} // verus!
