//! The scene annotator: a one-time pass over a freshly built scene that
//! infers semantic direction tags from the concrete properties each node was
//! built with, taking the default-language configuration as the semantic
//! baseline.
//!
//! The pass must run exactly once, after construction and before the first
//! restyle: tags record authorial intent fixed at build time, and running it
//! again after a language change would bake the flipped properties in as the
//! new baseline.

use vstd::prelude::*;

use crate::node::{
    AlignIntent, CrossAlign, FlexDirection, JustifyIntent, RowDirectionIntent, TextJustify, UiNode,
};

verus! {

/// The justify intent inferred from a concrete justification; `None` for a
/// direction-invariant value.
pub open spec fn inferred_justify(justify: TextJustify) -> Option<JustifyIntent> {
    match justify {
        TextJustify::Left => Some(JustifyIntent::Start),
        TextJustify::Right => Some(JustifyIntent::End),
        TextJustify::Center => None,
    }
}

/// The row direction intent inferred from a concrete direction; `None` for a
/// direction-invariant value.
pub open spec fn inferred_row(direction: FlexDirection) -> Option<RowDirectionIntent> {
    match direction {
        FlexDirection::Row => Some(RowDirectionIntent::Forward),
        FlexDirection::RowReverse => Some(RowDirectionIntent::Backward),
        FlexDirection::Column => None,
    }
}

/// The alignment intent inferred from a concrete alignment; `None` for a
/// direction-invariant value.
pub open spec fn inferred_align(alignment: CrossAlign) -> Option<AlignIntent> {
    match alignment {
        CrossAlign::Start => Some(AlignIntent::Forward),
        CrossAlign::End => Some(AlignIntent::Backward),
        CrossAlign::Center => None,
        CrossAlign::Stretch => None,
    }
}

/// The node after annotation: the three layout tag slots are filled from the
/// node's concrete properties, everything else is untouched. Text keys and
/// mirroring cannot be inferred from layout and keep whatever tags the
/// builder attached.
pub open spec fn annotated(n: UiNode) -> UiNode {
    UiNode {
        justify_intent: inferred_justify(n.justify),
        row_intent: inferred_row(n.row_direction),
        align_intent: inferred_align(n.alignment),
        ..n
    }
}

/// Infer the layout tags of one node from its concrete properties.
pub fn annotate_node(node: &mut UiNode)
    ensures
        *final(node) == annotated(*old(node)),
{
    node.justify_intent = match node.justify {
        TextJustify::Left => Some(JustifyIntent::Start),
        TextJustify::Right => Some(JustifyIntent::End),
        TextJustify::Center => None,
    };
    node.row_intent = match node.row_direction {
        FlexDirection::Row => Some(RowDirectionIntent::Forward),
        FlexDirection::RowReverse => Some(RowDirectionIntent::Backward),
        FlexDirection::Column => None,
    };
    node.align_intent = match node.alignment {
        CrossAlign::Start => Some(AlignIntent::Forward),
        CrossAlign::End => Some(AlignIntent::Backward),
        CrossAlign::Center => None,
        CrossAlign::Stretch => None,
    };
}

/// The one-time annotation pass over the whole scene.
pub fn annotate_scene(scene: &mut Vec<UiNode>)
    ensures
        final(scene)@.len() == old(scene)@.len(),
        forall|i: int|
            0 <= i < old(scene)@.len() ==> final(scene)@[i] == annotated(old(scene)@[i]),
{
    let ghost orig = scene@;
    let mut i: usize = 0;
    while i < scene.len()
        invariant
            i <= scene@.len(),
            scene@.len() == orig.len(),
            forall|j: int| 0 <= j < i ==> scene@[j] == annotated(orig[j]),
            forall|j: int| i <= j < orig.len() ==> scene@[j] == orig[j],
        decreases scene@.len() - i,
    {
        let node = vstd::std_specs::vec::vec_index_mut(scene, i);
        annotate_node(node);
        i = i + 1;
    }
}

} // verus!
