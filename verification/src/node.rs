//! The UI node model: concrete presentation properties plus the semantic
//! direction tags that record how each property should vary with the layout
//! direction.
//!
//! Tags record authorial *intent* ("this row reverses under RTL"), not the
//! current direction. A node carries zero or more tags; the tag families are
//! independent of one another and attaching them is order-insensitive.

use vstd::prelude::*;

verus! {

/// Concrete text justification of a node.
#[derive(Clone, Copy, Debug, PartialEq, Eq, Structural)]
pub enum TextJustify {
    Left,
    Right,
    Center,
}

/// Concrete main-axis layout direction of a container node.
#[derive(Clone, Copy, Debug, PartialEq, Eq, Structural)]
pub enum FlexDirection {
    Row,
    RowReverse,
    Column,
}

/// Concrete cross-axis alignment of a container node.
#[derive(Clone, Copy, Debug, PartialEq, Eq, Structural)]
pub enum CrossAlign {
    Start,
    End,
    Center,
    Stretch,
}

/// Justification intent: `Start` hugs the reading edge (left under LTR),
/// `End` hugs the opposite edge; both flip under RTL.
#[derive(Clone, Copy, Debug, PartialEq, Eq, Structural)]
pub enum JustifyIntent {
    Start,
    End,
}

/// Row direction intent: `Forward` is a plain row under LTR and reverses
/// under RTL; `Backward` is the inverse.
#[derive(Clone, Copy, Debug, PartialEq, Eq, Structural)]
pub enum RowDirectionIntent {
    Forward,
    Backward,
}

/// Cross-axis alignment intent: `Forward` aligns to the start edge under
/// LTR and flips under RTL; `Backward` is the inverse.
#[derive(Clone, Copy, Debug, PartialEq, Eq, Structural)]
pub enum AlignIntent {
    Forward,
    Backward,
}

/// A semantic direction tag, attachable to a node. Each variant describes
/// how one property family behaves as a function of the layout direction.
#[derive(Clone, Debug, PartialEq, Eq)]
pub enum DirectionTag {
    /// The node's displayed text is the localized string for this key.
    TextKeyRef(String),
    /// The node's text justification follows the direction.
    Justify(JustifyIntent),
    /// The node's row layout direction follows the direction.
    RowDirection(RowDirectionIntent),
    /// The node's cross-axis alignment follows the direction.
    Align(AlignIntent),
    /// The node's image is mirrored horizontally exactly under RTL.
    MirrorOnRtl,
}

/// A UI node of the scene registry: its concrete presentation properties,
/// and one optional tag slot per tag family.
#[derive(Clone, Debug, PartialEq, Eq)]
pub struct UiNode {
    /// Displayed text (empty for non-text nodes).
    pub text: String,
    /// Concrete text justification.
    pub justify: TextJustify,
    /// Concrete main-axis direction.
    pub row_direction: FlexDirection,
    /// Concrete cross-axis alignment.
    pub alignment: CrossAlign,
    /// Whether the node's image is horizontally mirrored.
    pub mirrored: bool,
    /// Localization key whose translation replaces `text`.
    pub text_key: Option<String>,
    /// Justification intent.
    pub justify_intent: Option<JustifyIntent>,
    /// Row direction intent.
    pub row_intent: Option<RowDirectionIntent>,
    /// Cross-axis alignment intent.
    pub align_intent: Option<AlignIntent>,
    /// Whether the node mirrors under RTL.
    pub mirror_on_rtl: bool,
}

/// The node `n` with `tag` attached: the slot of the tag's family is filled,
/// every other field is untouched.
pub open spec fn with_tag(n: UiNode, tag: DirectionTag) -> UiNode {
    match tag {
        DirectionTag::TextKeyRef(key) => UiNode { text_key: Some(key), ..n },
        DirectionTag::Justify(intent) => UiNode { justify_intent: Some(intent), ..n },
        DirectionTag::RowDirection(intent) => UiNode { row_intent: Some(intent), ..n },
        DirectionTag::Align(intent) => UiNode { align_intent: Some(intent), ..n },
        DirectionTag::MirrorOnRtl => UiNode { mirror_on_rtl: true, ..n },
    }
}

/// The tag family a tag belongs to; tags of distinct families are
/// independent of one another.
pub open spec fn tag_family(tag: DirectionTag) -> int {
    match tag {
        DirectionTag::TextKeyRef(_) => 0,
        DirectionTag::Justify(_) => 1,
        DirectionTag::RowDirection(_) => 2,
        DirectionTag::Align(_) => 3,
        DirectionTag::MirrorOnRtl => 4,
    }
}

impl UiNode {
    /// A fresh, untagged, direction-invariant node: empty centered text in a
    /// column with stretched alignment, unmirrored.
    pub fn new() -> (r: UiNode)
        ensures
            r.text@ == Seq::<char>::empty(),
            r.justify == TextJustify::Center,
            r.row_direction == FlexDirection::Column,
            r.alignment == CrossAlign::Stretch,
            !r.mirrored,
            r.text_key is None,
            r.justify_intent is None,
            r.row_intent is None,
            r.align_intent is None,
            !r.mirror_on_rtl,
    {
        UiNode {
            text: String::new(),
            justify: TextJustify::Center,
            row_direction: FlexDirection::Column,
            alignment: CrossAlign::Stretch,
            mirrored: false,
            text_key: None,
            justify_intent: None,
            row_intent: None,
            align_intent: None,
            mirror_on_rtl: false,
        }
    }

    /// Attach one semantic tag to the node, filling its family's slot and
    /// leaving everything else as it was.
    pub fn attach(&mut self, tag: DirectionTag)
        ensures
            *final(self) == with_tag(*old(self), tag),
    {
        match tag {
            DirectionTag::TextKeyRef(key) => self.text_key = Some(key),
            DirectionTag::Justify(intent) => self.justify_intent = Some(intent),
            DirectionTag::RowDirection(intent) => self.row_intent = Some(intent),
            DirectionTag::Align(intent) => self.align_intent = Some(intent),
            DirectionTag::MirrorOnRtl => self.mirror_on_rtl = true,
        }
    }
}

/// Tags are additive and order-insensitive: attaching two tags of distinct
/// families yields the same node in either order.
pub proof fn lemma_tags_commute(n: UiNode, first: DirectionTag, second: DirectionTag)
    requires
        tag_family(first) != tag_family(second),
    ensures
        with_tag(with_tag(n, first), second) == with_tag(with_tag(n, second), first),
{
}

} // verus!
