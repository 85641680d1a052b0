//! Contexts and the slot forwarder.
//!
//! A [`Context`] is the immutable per-invocation input of a component
//! function: optional identity, display key, inherited properties, and the
//! child slots. A component declares up front which slot discipline it uses —
//! named or listed — and [`Slots`] is constructed accordingly by the caller.
//!
//! [`unpack_named`] unpacks one child per requested name and fails with
//! [`ComposeError::MissingSlot`] naming the first absent name;
//! [`forward_listed`] hands the listed children on as a block, preserving
//! their relative order end-to-end and accepting an empty list.

use vstd::prelude::*;

use crate::error::ComposeError;
use crate::node::{IdentityRef, Node};
use crate::props::Props;

verus! {

/// A named slot: a single child contributed under a unique name.
pub struct NamedSlot {
    /// The name under which the component consumes this child.
    pub name: String,
    /// The contributed child.
    pub node: Node,
}

/// The child slots of a context. Named and listed forwarding are mutually
/// exclusive per context, so the slot set is one or the other.
pub enum Slots {
    /// One child per declared name, unpacked by name.
    Named(Vec<NamedSlot>),
    /// An ordered sequence of children of arbitrary length, forwarded as a
    /// block.
    Listed(Vec<Node>),
}

/// The immutable input bundle of a component function.
pub struct Context {
    /// Optional shared identity handle the produced node should carry.
    pub idref: Option<IdentityRef>,
    /// The key the produced node is given within its sibling list.
    pub key: String,
    /// The properties inherited from the caller.
    pub props: Props,
    /// The child slots contributed by the caller.
    pub slots: Slots,
}

/// The named slots a slot set carries (none, for a listed slot set).
pub open spec fn named_seq(slots: Slots) -> Seq<NamedSlot> {
    match slots {
        Slots::Named(v) => v@,
        Slots::Listed(_) => Seq::<NamedSlot>::empty(),
    }
}

/// The listed children a slot set carries, in order (none, for a named slot
/// set).
pub open spec fn listed_seq(slots: Slots) -> Seq<Node> {
    match slots {
        Slots::Named(_) => Seq::<Node>::empty(),
        Slots::Listed(v) => v@,
    }
}

/// The child a named slot sequence associates with `name`: the first slot
/// carrying that name (a well-formed context carries each consumed name
/// exactly once).
pub open spec fn named_lookup(slots: Seq<NamedSlot>, name: Seq<char>) -> Option<Node>
    decreases slots.len(),
{
    if slots.len() == 0 {
        None
    } else if slots[0].name@ == name {
        Some(slots[0].node)
    } else {
        named_lookup(slots.drop_first(), name)
    }
}

/// Removing a slot whose name is not `name` does not change what `name`
/// resolves to.
proof fn lemma_named_lookup_remove(slots: Seq<NamedSlot>, at: int, name: Seq<char>)
    requires
        0 <= at < slots.len(),
        slots[at].name@ != name,
    ensures
        named_lookup(slots.remove(at), name) == named_lookup(slots, name),
    decreases slots.len(),
{
    if at == 0 {
        assert(slots.remove(0) =~= slots.drop_first());
    } else {
        assert(slots.remove(at).drop_first() =~= slots.drop_first().remove(at - 1));
        assert(slots.remove(at)[0] == slots[0]);
        lemma_named_lookup_remove(slots.drop_first(), at - 1, name);
    }
}

/// If the slots at positions before `at` do not carry `name` and the slot at
/// `at` does, then `name` resolves to that slot's child.
proof fn lemma_named_lookup_first_match(slots: Seq<NamedSlot>, at: int, name: Seq<char>)
    requires
        0 <= at < slots.len(),
        slots[at].name@ == name,
        forall|k: int| 0 <= k < at ==> slots[k].name@ != name,
    ensures
        named_lookup(slots, name) == Some(slots[at].node),
    decreases at,
{
    if at > 0 {
        lemma_named_lookup_first_match(slots.drop_first(), at - 1, name);
    }
}

/// If no slot carries `name`, `name` resolves to nothing.
proof fn lemma_named_lookup_absent(slots: Seq<NamedSlot>, name: Seq<char>)
    requires
        forall|k: int| 0 <= k < slots.len() ==> slots[k].name@ != name,
    ensures
        named_lookup(slots, name) is None,
    decreases slots.len(),
{
    if slots.len() > 0 {
        lemma_named_lookup_absent(slots.drop_first(), name);
    }
}

/// The position of the first slot carrying `name`, if any.
fn find_named(slots: &Vec<NamedSlot>, name: &String) -> (result: Option<usize>)
    ensures
        result matches Some(at) ==> {
            &&& (at as int) < slots@.len()
            &&& slots@[at as int].name@ == name@
            &&& forall|a: int| 0 <= a < at ==> slots@[a].name@ != name@
        },
        result is None ==> forall|a: int| 0 <= a < slots@.len() ==> slots@[a].name@ != name@,
{
    let mut i: usize = 0;
    while i < slots.len()
        invariant
            i <= slots@.len(),
            forall|a: int| 0 <= a < i ==> slots@[a].name@ != name@,
        decreases slots@.len() - i,
    {
        if slots[i].name == *name {
            return Some(i);
        }
        i = i + 1;
    }
    None
}

/// Unpacks exactly one child per requested name, in the order of `names`.
///
/// Succeeds if and only if every requested name is present, and then hands
/// back, for each name, the child that name resolves to. If a requested name
/// is absent the whole composition fails with
/// [`ComposeError::MissingSlot`] naming the first absent name — never a
/// silently empty child. Slots whose names are not requested are dropped.
pub fn unpack_named(slots: Slots, names: &Vec<String>) -> (result: Result<Vec<Node>, ComposeError>)
    requires
        forall|a: int, b: int| 0 <= a < b < names@.len() ==> names@[a]@ != names@[b]@,
    ensures
        result is Ok <==> forall|k: int|
            0 <= k < names@.len() ==> named_lookup(named_seq(slots), names@[k]@) is Some,
        result matches Ok(nodes) ==> {
            &&& nodes@.len() == names@.len()
            &&& forall|k: int|
                0 <= k < names@.len() ==> named_lookup(named_seq(slots), names@[k]@) == Some(
                    nodes@[k],
                )
        },
        result matches Err(e) ==> e matches ComposeError::MissingSlot { name } && exists|j: int|
            {
                &&& 0 <= j < names@.len()
                &&& named_lookup(named_seq(slots), names@[j]@) is None
                &&& name@ == names@[j]@
                &&& forall|k: int| 0 <= k < j ==> named_lookup(named_seq(slots), names@[k]@) is Some
            },
{
    let ghost original = named_seq(slots);
    let mut remaining: Vec<NamedSlot> = match slots {
        Slots::Named(v) => v,
        Slots::Listed(_) => Vec::new(),
    };
    let mut nodes: Vec<Node> = Vec::new();
    let mut k: usize = 0;
    while k < names.len()
        invariant
            original == named_seq(slots),
            k <= names@.len(),
            nodes@.len() == k,
            forall|a: int, b: int| 0 <= a < b < names@.len() ==> names@[a]@ != names@[b]@,
            forall|t: int|
                0 <= t < k ==> #[trigger] named_lookup(original, names@[t]@) == Some(nodes@[t]),
            forall|t: int|
                k <= t < names@.len() ==> #[trigger] named_lookup(remaining@, names@[t]@)
                    == named_lookup(original, names@[t]@),
        decreases names@.len() - k,
    {
        match find_named(&remaining, &names[k]) {
            Some(at) => {
                proof {
                    lemma_named_lookup_first_match(remaining@, at as int, names@[k as int]@);
                }
                let ghost before = remaining@;
                let slot = remaining.remove(at);
                nodes.push(slot.node);
                proof {
                    assert forall|t: int| k + 1 <= t < names@.len() implies named_lookup(
                        remaining@,
                        names@[t]@,
                    ) == named_lookup(original, names@[t]@) by {
                        lemma_named_lookup_remove(before, at as int, names@[t]@);
                    }
                }
            },
            None => {
                proof {
                    lemma_named_lookup_absent(remaining@, names@[k as int]@);
                    assert(named_lookup(named_seq(slots), names@[k as int]@) is None);
                    assert(forall|t: int|
                        0 <= t < k ==> #[trigger] named_lookup(named_seq(slots), names@[t]@)
                            == Some(nodes@[t]));
                }
                return Err(ComposeError::MissingSlot { name: names[k].clone() });
            },
        }
        k = k + 1;
    }
    proof {
        assert(forall|t: int|
            0 <= t < names@.len() ==> #[trigger] named_lookup(named_seq(slots), names@[t]@)
                == Some(nodes@[t]));
    }
    Ok(nodes)
}

/// Forwards the listed children as a block: the result is exactly the listed
/// slot, in its original order. An empty listed slot is valid and yields an
/// empty sequence; so does a named slot set, which carries no listed
/// children.
pub fn forward_listed(slots: Slots) -> (nodes: Vec<Node>)
    ensures
        nodes@ == listed_seq(slots),
{
    match slots {
        Slots::Listed(v) => v,
        Slots::Named(_) => {
            let nodes: Vec<Node> = Vec::new();
            proof {
                assert(nodes@ =~= listed_seq(slots));
            }
            nodes
        },
    }
}

} // verus!
