//! The style updater: rewrites every tagged node's concrete properties to
//! what its tags imply under the current language's direction.
//!
//! Each tag family is updated independently and unconditionally, so the pass
//! is idempotent for a fixed language. A missing translation leaves the
//! previous text in place.

use vstd::prelude::*;

use crate::language::{is_ltr_code, is_supported_code, resolve};
use crate::localization::{lookup_spec, LocalizationEntry, LocalizationTable};
use crate::node::{
    AlignIntent, CrossAlign, FlexDirection, JustifyIntent, RowDirectionIntent, TextJustify, UiNode,
};

verus! {

/// The concrete justification a justify intent yields under a direction.
pub open spec fn justify_for(intent: JustifyIntent, left_to_right: bool) -> TextJustify {
    match intent {
        JustifyIntent::Start => if left_to_right {
            TextJustify::Left
        } else {
            TextJustify::Right
        },
        JustifyIntent::End => if left_to_right {
            TextJustify::Right
        } else {
            TextJustify::Left
        },
    }
}

/// The concrete row direction a row intent yields under a direction.
pub open spec fn row_for(intent: RowDirectionIntent, left_to_right: bool) -> FlexDirection {
    match intent {
        RowDirectionIntent::Forward => if left_to_right {
            FlexDirection::Row
        } else {
            FlexDirection::RowReverse
        },
        RowDirectionIntent::Backward => if left_to_right {
            FlexDirection::RowReverse
        } else {
            FlexDirection::Row
        },
    }
}

/// The concrete cross-axis alignment an alignment intent yields under a
/// direction.
pub open spec fn align_for(intent: AlignIntent, left_to_right: bool) -> CrossAlign {
    match intent {
        AlignIntent::Forward => if left_to_right {
            CrossAlign::Start
        } else {
            CrossAlign::End
        },
        AlignIntent::Backward => if left_to_right {
            CrossAlign::End
        } else {
            CrossAlign::Start
        },
    }
}

/// The text a node shows after a restyle: the translation for its key under
/// `language`, or its previous text when it has no key or the translation is
/// missing.
pub open spec fn restyled_text(
    n: UiNode,
    language: Seq<char>,
    entries: Seq<LocalizationEntry>,
) -> String {
    match n.text_key {
        Some(key) => match lookup_spec(entries, language, key@) {
            Some(value) => value,
            None => n.text,
        },
        None => n.text,
    }
}

/// The node after one pass of the style updater under `language`: every
/// tagged property family is rewritten from its intent, untagged families
/// and the tags themselves are untouched.
pub open spec fn restyled(
    n: UiNode,
    language: Seq<char>,
    entries: Seq<LocalizationEntry>,
) -> UiNode {
    UiNode {
        text: restyled_text(n, language, entries),
        justify: match n.justify_intent {
            Some(intent) => justify_for(intent, is_ltr_code(language)),
            None => n.justify,
        },
        row_direction: match n.row_intent {
            Some(intent) => row_for(intent, is_ltr_code(language)),
            None => n.row_direction,
        },
        alignment: match n.align_intent {
            Some(intent) => align_for(intent, is_ltr_code(language)),
            None => n.alignment,
        },
        mirrored: if n.mirror_on_rtl {
            !is_ltr_code(language)
        } else {
            n.mirrored
        },
        ..n
    }
}

/// The whole scene after one pass of the style updater: every node restyled
/// under `language`.
pub open spec fn restyled_scene(
    scene: Seq<UiNode>,
    language: Seq<char>,
    entries: Seq<LocalizationEntry>,
) -> Seq<UiNode> {
    Seq::new(scene.len(), |i: int| restyled(scene[i], language, entries))
}

/// Executable counterpart of [`justify_for`].
pub fn justify_direction(intent: JustifyIntent, left_to_right: bool) -> (r: TextJustify)
    ensures
        r == justify_for(intent, left_to_right),
{
    match intent {
        JustifyIntent::Start => if left_to_right {
            TextJustify::Left
        } else {
            TextJustify::Right
        },
        JustifyIntent::End => if left_to_right {
            TextJustify::Right
        } else {
            TextJustify::Left
        },
    }
}

/// Executable counterpart of [`row_for`].
pub fn row_direction(intent: RowDirectionIntent, left_to_right: bool) -> (r: FlexDirection)
    ensures
        r == row_for(intent, left_to_right),
{
    match intent {
        RowDirectionIntent::Forward => if left_to_right {
            FlexDirection::Row
        } else {
            FlexDirection::RowReverse
        },
        RowDirectionIntent::Backward => if left_to_right {
            FlexDirection::RowReverse
        } else {
            FlexDirection::Row
        },
    }
}

/// Executable counterpart of [`align_for`].
pub fn align_direction(intent: AlignIntent, left_to_right: bool) -> (r: CrossAlign)
    ensures
        r == align_for(intent, left_to_right),
{
    match intent {
        AlignIntent::Forward => if left_to_right {
            CrossAlign::Start
        } else {
            CrossAlign::End
        },
        AlignIntent::Backward => if left_to_right {
            CrossAlign::End
        } else {
            CrossAlign::Start
        },
    }
}

/// One pass of the style updater over a single node.
pub fn restyle_node(node: &UiNode, language: &str, table: &LocalizationTable) -> (r: UiNode)
    requires
        is_supported_code(language@),
    ensures
        r == restyled(*node, language@, table@),
{
    let left_to_right = match resolve(language) {
        Ok(flag) => flag,
        Err(_) => unreached(),
    };
    let text = match &node.text_key {
        Some(key) => match table.lookup(language, key.as_str()) {
            Some(value) => value,
            None => node.text.clone(),
        },
        None => node.text.clone(),
    };
    let justify = match node.justify_intent {
        Some(intent) => justify_direction(intent, left_to_right),
        None => node.justify,
    };
    let row = match node.row_intent {
        Some(intent) => row_direction(intent, left_to_right),
        None => node.row_direction,
    };
    let alignment = match node.align_intent {
        Some(intent) => align_direction(intent, left_to_right),
        None => node.alignment,
    };
    let mirrored = if node.mirror_on_rtl {
        !left_to_right
    } else {
        node.mirrored
    };
    let text_key = match &node.text_key {
        Some(key) => Some(key.clone()),
        None => None,
    };
    UiNode {
        text,
        justify,
        row_direction: row,
        alignment,
        mirrored,
        text_key,
        justify_intent: node.justify_intent,
        row_intent: node.row_intent,
        align_intent: node.align_intent,
        mirror_on_rtl: node.mirror_on_rtl,
    }
}

/// One pass of the style updater over the whole scene: every node is
/// restyled under `language`, in place.
pub fn apply_styles(scene: &mut Vec<UiNode>, language: &str, table: &LocalizationTable)
    requires
        is_supported_code(language@),
    ensures
        final(scene)@ == restyled_scene(old(scene)@, language@, table@),
{
    let mut updated: Vec<UiNode> = Vec::new();
    let mut i: usize = 0;
    while i < scene.len()
        invariant
            is_supported_code(language@),
            i <= scene@.len(),
            updated@.len() == i,
            forall|j: int|
                0 <= j < i ==> updated@[j] == restyled(scene@[j], language@, table@),
        decreases scene@.len() - i,
    {
        let node = restyle_node(&scene[i], language, table);
        updated.push(node);
        i = i + 1;
    }
    proof {
        assert(updated@ =~= restyled_scene(scene@, language@, table@));
    }
    *scene = updated;
}

} // verus!
