//! The library's general laws, proved once and for all nodes, languages and
//! tables: idempotence of the style updater, the language round trip, the
//! per-tag direction mappings, and the neutrality of the annotation pass
//! under the baseline direction.

use vstd::prelude::*;

use crate::annotate::annotated;
use crate::language::is_supported_code;
use crate::localization::{lookup_spec, LocalizationEntry};
use crate::node::{FlexDirection, JustifyIntent, RowDirectionIntent, TextJustify, UiNode};
use crate::style::{restyled, restyled_scene};

verus! {

/// The node's text survives a round trip from `first` through `second` and
/// back: its key is translated into `first`, or into neither language. A key
/// translated only into `second` would stay stale — the tolerated
/// missing-translation defect.
pub open spec fn translation_round_trips(
    n: UiNode,
    first: Seq<char>,
    second: Seq<char>,
    entries: Seq<LocalizationEntry>,
) -> bool {
    match n.text_key {
        Some(key) => lookup_spec(entries, first, key@) is Some || lookup_spec(
            entries,
            second,
            key@,
        ) is None,
        None => true,
    }
}

/// The style updater is idempotent: a second pass under the same language
/// and table reproduces the node property for property.
pub proof fn lemma_restyle_idempotent(
    n: UiNode,
    language: Seq<char>,
    entries: Seq<LocalizationEntry>,
)
    ensures
        restyled(restyled(n, language, entries), language, entries) == restyled(
            n,
            language,
            entries,
        ),
{
}

/// The language round trip: styling for `first`, then `second`, then `first`
/// again leaves every property as the first styling set it, provided the
/// node's translations round-trip.
pub proof fn lemma_restyle_round_trip(
    n: UiNode,
    first: Seq<char>,
    second: Seq<char>,
    entries: Seq<LocalizationEntry>,
)
    requires
        translation_round_trips(n, first, second, entries),
    ensures
        restyled(restyled(restyled(n, first, entries), second, entries), first, entries)
            == restyled(n, first, entries),
{
}

/// The round trip of the demo's toggle: styling for "en", toggling to "ar"
/// and back restores every tagged node's properties exactly.
pub proof fn lemma_toggle_round_trip(n: UiNode, entries: Seq<LocalizationEntry>)
    requires
        translation_round_trips(n, "en"@, "ar"@, entries),
    ensures
        restyled(restyled(restyled(n, "en"@, entries), "ar"@, entries), "en"@, entries)
            == restyled(n, "en"@, entries),
{
    lemma_restyle_round_trip(n, "en"@, "ar"@, entries);
}

/// Scene-wide idempotence: a second style pass under the same language and
/// table reproduces the whole scene.
pub proof fn lemma_scene_restyle_idempotent(
    scene: Seq<UiNode>,
    language: Seq<char>,
    entries: Seq<LocalizationEntry>,
)
    ensures
        restyled_scene(restyled_scene(scene, language, entries), language, entries)
            == restyled_scene(scene, language, entries),
{
    let once = restyled_scene(scene, language, entries);
    let twice = restyled_scene(once, language, entries);
    assert forall|i: int| 0 <= i < scene.len() implies twice[i] == once[i] by {
        lemma_restyle_idempotent(scene[i], language, entries);
    }
    assert(twice =~= once);
}

/// Scene-wide round trip: styling the scene for "en", toggling to "ar" and
/// back restores every tagged node exactly, provided every node's
/// translations round-trip.
pub proof fn lemma_scene_toggle_round_trip(scene: Seq<UiNode>, entries: Seq<LocalizationEntry>)
    requires
        forall|i: int|
            0 <= i < scene.len() ==> translation_round_trips(
                #[trigger] scene[i],
                "en"@,
                "ar"@,
                entries,
            ),
    ensures
        restyled_scene(
            restyled_scene(restyled_scene(scene, "en"@, entries), "ar"@, entries),
            "en"@,
            entries,
        ) == restyled_scene(scene, "en"@, entries),
{
    let styled = restyled_scene(scene, "en"@, entries);
    let flipped = restyled_scene(styled, "ar"@, entries);
    let restored = restyled_scene(flipped, "en"@, entries);
    assert forall|i: int| 0 <= i < scene.len() implies restored[i] == styled[i] by {
        lemma_toggle_round_trip(scene[i], entries);
    }
    assert(restored =~= styled);
}

/// Row direction law: a node tagged `Forward` lays out as a row under "en"
/// and as a reversed row under "ar"; `Backward` is the exact inverse.
pub proof fn lemma_row_direction_law(
    n: UiNode,
    language: Seq<char>,
    entries: Seq<LocalizationEntry>,
)
    requires
        is_supported_code(language),
    ensures
        n.row_intent == Some(RowDirectionIntent::Forward) ==> restyled(
            n,
            language,
            entries,
        ).row_direction == if language == "en"@ {
            FlexDirection::Row
        } else {
            FlexDirection::RowReverse
        },
        n.row_intent == Some(RowDirectionIntent::Backward) ==> restyled(
            n,
            language,
            entries,
        ).row_direction == if language == "en"@ {
            FlexDirection::RowReverse
        } else {
            FlexDirection::Row
        },
{
}

/// Justification law: a node tagged `Start` justifies left under "en" and
/// right under "ar"; `End` is the exact inverse.
pub proof fn lemma_justify_law(n: UiNode, language: Seq<char>, entries: Seq<LocalizationEntry>)
    requires
        is_supported_code(language),
    ensures
        n.justify_intent == Some(JustifyIntent::Start) ==> restyled(
            n,
            language,
            entries,
        ).justify == if language == "en"@ {
            TextJustify::Left
        } else {
            TextJustify::Right
        },
        n.justify_intent == Some(JustifyIntent::End) ==> restyled(
            n,
            language,
            entries,
        ).justify == if language == "en"@ {
            TextJustify::Right
        } else {
            TextJustify::Left
        },
{
}

/// Mirroring law: for a node tagged `MirrorOnRtl`, the mirror flag after a
/// restyle equals exactly "the language is Arabic".
pub proof fn lemma_mirror_law(n: UiNode, language: Seq<char>, entries: Seq<LocalizationEntry>)
    requires
        is_supported_code(language),
        n.mirror_on_rtl,
    ensures
        restyled(n, language, entries).mirrored == (language == "ar"@),
{
    reveal_strlit("en");
    reveal_strlit("ar");
    assert("en"@[0] == 'e' && "ar"@[0] == 'a');
}

/// The annotation pass is baseline-neutral: annotating a scene and then
/// restyling it under the left-to-right baseline "en" reproduces exactly the
/// layout properties the tags were inferred from.
pub proof fn lemma_annotate_baseline_neutral(n: UiNode, entries: Seq<LocalizationEntry>)
    ensures
        restyled(annotated(n), "en"@, entries).justify == n.justify,
        restyled(annotated(n), "en"@, entries).row_direction == n.row_direction,
        restyled(annotated(n), "en"@, entries).alignment == n.alignment,
{
}

} // verus!
