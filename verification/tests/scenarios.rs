use bidimail::context::{tick, AppContext};
use bidimail::control::{Interaction, ToggleControl, VisualStyle};
use bidimail::localization::LocalizationTable;
use bidimail::node::{DirectionTag, JustifyIntent, TextJustify, UiNode};

fn folders_node() -> UiNode {
    let mut node = UiNode::new();
    node.text = String::from("Folders");
    node.attach(DirectionTag::TextKeyRef(String::from("folders")));
    node
}

#[test]
fn stale_text_survives_toggle_to_untranslated_language() {
    let mut table = LocalizationTable::new();
    table.insert("en", "folders", "Folders");
    let mut ctx = AppContext::new();
    let mut control = ToggleControl::new();
    let mut scene = vec![folders_node()];

    tick(&mut ctx, &mut control, &mut scene, &table, Interaction::Idle);
    assert_eq!(scene[0].text, "Folders");

    tick(
        &mut ctx,
        &mut control,
        &mut scene,
        &table,
        Interaction::PressedEdge,
    );
    assert_eq!(ctx.language, "ar");
    assert_eq!(scene[0].text, "Folders");
    assert!(!scene[0].text.is_empty());
}

#[test]
fn one_tick_sequence_flips_language_exactly_once() {
    let table = LocalizationTable::new();
    let mut ctx = AppContext::new();
    let mut control = ToggleControl::new();
    let mut scene: Vec<UiNode> = Vec::new();
    assert_eq!(ctx.language, "en");

    tick(&mut ctx, &mut control, &mut scene, &table, Interaction::Hovered);
    assert_eq!(control.visual, VisualStyle::Highlighted);
    assert_eq!(ctx.language, "en");

    tick(
        &mut ctx,
        &mut control,
        &mut scene,
        &table,
        Interaction::PressedEdge,
    );
    assert_eq!(control.visual, VisualStyle::Neutral);
    assert_eq!(ctx.language, "ar");

    tick(&mut ctx, &mut control, &mut scene, &table, Interaction::Idle);
    assert_eq!(control.visual, VisualStyle::Neutral);
    assert_eq!(ctx.language, "ar");
}

#[test]
fn highlighted_only_while_hovered() {
    let table = LocalizationTable::new();
    let mut ctx = AppContext::new();
    let mut control = ToggleControl::new();
    let mut scene: Vec<UiNode> = Vec::new();
    let sequence = [
        (Interaction::Idle, VisualStyle::Neutral),
        (Interaction::Hovered, VisualStyle::Highlighted),
        (Interaction::PressedEdge, VisualStyle::Neutral),
        (Interaction::Hovered, VisualStyle::Highlighted),
        (Interaction::Idle, VisualStyle::Neutral),
    ];
    for (interaction, expected) in sequence {
        tick(&mut ctx, &mut control, &mut scene, &table, interaction);
        assert_eq!(control.visual, expected);
    }
}

#[test]
fn style_updater_is_edge_triggered() {
    let mut table = LocalizationTable::new();
    table.insert("en", "folders", "Folders");
    table.insert("ar", "folders", "Majallat");
    let mut ctx = AppContext::new();
    let mut control = ToggleControl::new();
    let mut tagged = folders_node();
    tagged.attach(DirectionTag::Justify(JustifyIntent::Start));
    let mut scene = vec![tagged];

    tick(&mut ctx, &mut control, &mut scene, &table, Interaction::Idle);
    assert_eq!(scene[0].text, "Folders");
    assert_eq!(scene[0].justify, TextJustify::Left);

    // Scribble on a tagged property; with no language change, the gated
    // updater must not rewrite it (a pass would reset it to Left).
    scene[0].justify = TextJustify::Right;
    tick(&mut ctx, &mut control, &mut scene, &table, Interaction::Idle);
    assert_eq!(scene[0].justify, TextJustify::Right);

    // The press flips the language, so this tick restyles.
    tick(
        &mut ctx,
        &mut control,
        &mut scene,
        &table,
        Interaction::PressedEdge,
    );
    assert_eq!(scene[0].text, "Majallat");

    // Toggling back restores the original text.
    tick(
        &mut ctx,
        &mut control,
        &mut scene,
        &table,
        Interaction::PressedEdge,
    );
    assert_eq!(scene[0].text, "Folders");
    assert_eq!(scene[0].justify, TextJustify::Left);
    assert_eq!(ctx.language, "en");
}

#[test]
fn first_tick_styles_the_fresh_scene() {
    let mut table = LocalizationTable::new();
    table.insert("en", "good_morning", "Good morning ");
    let mut ctx = AppContext::new();
    let mut control = ToggleControl::new();
    let mut greeting = UiNode::new();
    greeting.text = String::from("good_morning");
    greeting.attach(DirectionTag::TextKeyRef(String::from("good_morning")));
    let mut scene = vec![greeting];

    assert!(ctx.styled_language.is_none());
    tick(&mut ctx, &mut control, &mut scene, &table, Interaction::Idle);
    assert_eq!(scene[0].text, "Good morning ");
    assert_eq!(ctx.styled_language.as_deref(), Some("en"));
}
