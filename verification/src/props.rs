//! Properties: a mapping from type-tagged keys to typed values.
//!
//! A [`Props`] value is built by structural composition: [`Props::with`]
//! appends a facet, and a later facet shadows an earlier one with the same
//! tag. The observable mapping is the spec function [`lookup`], which scans
//! from the most recently added facet. A `Props` value is never mutated in
//! place: `with` consumes its receiver and produces a new value, and cloning
//! yields a value with the same facets.

use vstd::prelude::*;

verus! {

/// The type tag of a property facet: which aspect of a node it configures.
#[derive(Clone, Copy, PartialEq, Eq, Structural, Debug)]
pub enum PropTag {
    /// Layout participation of a child inside a directional box.
    FlexItem,
    /// Configuration of a vertical directional box (spacing between children).
    VerticalLayout,
    /// Marker: focus traversal wraps at the ends of this group.
    NavJump,
}

/// One property facet: a tagged, typed value attached to a node.
///
/// Scalar fields are in abstract layout units; the external layout driver
/// gives them a concrete interpretation.
#[derive(Clone, Copy, PartialEq, Eq, Structural, Debug)]
pub enum PropValue {
    /// How a child participates in its parent's directional layout:
    /// `grow` and `shrink` factors (0 means rigid in that direction).
    FlexItem { grow: u64, shrink: u64 },
    /// Spacing between consecutive children of a vertical box.
    VerticalLayout { separation: u64 },
    /// Marker facet: focus traversal wraps at the ends of this group.
    NavJumpLooped,
}

/// The tag under which a facet is stored.
pub open spec fn tag_of(value: PropValue) -> PropTag {
    match value {
        PropValue::FlexItem { .. } => PropTag::FlexItem,
        PropValue::VerticalLayout { .. } => PropTag::VerticalLayout,
        PropValue::NavJumpLooped => PropTag::NavJump,
    }
}

/// The value a facet sequence associates with `tag`: the facet added last
/// wins, so `lookup` scans from the end of the sequence.
pub open spec fn lookup(entries: Seq<PropValue>, tag: PropTag) -> Option<PropValue>
    decreases entries.len(),
{
    if entries.len() == 0 {
        None
    } else if tag_of(entries.last()) == tag {
        Some(entries.last())
    } else {
        lookup(entries.drop_last(), tag)
    }
}

/// A property set: an ordered sequence of facets where a later facet shadows
/// an earlier one with the same tag (see [`lookup`]).
#[derive(Debug)]
pub struct Props {
    entries: Vec<PropValue>,
}

impl View for Props {
    type V = Seq<PropValue>;

    closed spec fn view(&self) -> Seq<PropValue> {
        self.entries@
    }
}

impl Props {
    /// The empty property set: every tag is unmapped.
    pub fn new() -> (props: Props)
        ensures
            props@ == Seq::<PropValue>::empty(),
    {
        Props { entries: Vec::new() }
    }

    /// Structural composition: a new property set that maps `tag_of(value)`
    /// to `value` and every other tag as `self` did (see
    /// [`lemma_lookup_push`]). The receiver is consumed; no existing `Props`
    /// value is mutated.
    pub fn with(self, value: PropValue) -> (props: Props)
        ensures
            props@ == self@.push(value),
    {
        let mut entries = self.entries;
        entries.push(value);
        Props { entries }
    }

    /// The typed read accessor: the facet stored under `tag`, if any.
    pub fn get(&self, tag: PropTag) -> (result: Option<PropValue>)
        ensures
            result == lookup(self@, tag),
    {
        let mut i: usize = self.entries.len();
        proof {
            assert(self@.take(i as int) =~= self@);
        }
        while i > 0
            invariant
                i <= self.entries.len(),
                lookup(self@, tag) == lookup(self@.take(i as int), tag),
            decreases i,
        {
            i = i - 1;
            let entry = self.entries[i];
            proof {
                assert(self@.take(i as int + 1).last() == self@[i as int]);
                assert(self@.take(i as int + 1).drop_last() =~= self@.take(i as int));
            }
            if prop_tag(&entry) == tag {
                return Some(entry);
            }
        }
        proof {
            assert(self@.take(0) =~= Seq::<PropValue>::empty());
        }
        None
    }
}

/// The tag under which `value` is stored; executable counterpart of
/// [`tag_of`].
pub fn prop_tag(value: &PropValue) -> (tag: PropTag)
    ensures
        tag == tag_of(*value),
{
    match value {
        PropValue::FlexItem { .. } => PropTag::FlexItem,
        PropValue::VerticalLayout { .. } => PropTag::VerticalLayout,
        PropValue::NavJumpLooped => PropTag::NavJump,
    }
}

impl Clone for Props {
    /// A clone carries exactly the facets of the original.
    fn clone(&self) -> (props: Self)
        ensures
            props@ == self@,
    {
        let mut entries: Vec<PropValue> = Vec::new();
        let mut i: usize = 0;
        while i < self.entries.len()
            invariant
                i <= self.entries.len(),
                entries@ == self@.take(i as int),
            decreases self.entries.len() - i,
        {
            entries.push(self.entries[i]);
            i = i + 1;
            proof {
                assert(self@.take(i as int) =~= self@.take(i as int - 1).push(self@[i - 1]));
            }
        }
        proof {
            assert(self@.take(self.entries.len() as int) =~= self@);
        }
        Props { entries }
    }
}

/// Composing a facet onto a property set maps its tag to the new facet and
/// leaves every other tag's association unchanged.
pub proof fn lemma_lookup_push(entries: Seq<PropValue>, value: PropValue, tag: PropTag)
    ensures
        lookup(entries.push(value), tag) == if tag == tag_of(value) {
            Some(value)
        } else {
            lookup(entries, tag)
        },
{
    assert(entries.push(value).last() == value);
    assert(entries.push(value).drop_last() =~= entries);
}

/// Pure application of a property transform: the remapped value is exactly
/// what `transform` produces from `props`, and the caller reasons about it
/// through the transform's own contract.
pub fn remap<F: Fn(Props) -> Props>(props: Props, transform: F) -> (result: Props)
    requires
        call_requires(transform, (props,)),
    ensures
        call_ensures(transform, (props,), result),
{
    transform(props)
}

} // verus!
