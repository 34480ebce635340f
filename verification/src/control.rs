//! The toggle control: the clickable region that flips the language state
//! and drives its own hover/press visual feedback.
//!
//! Three interaction states are observable. Idle and Hovered only select the
//! visual; the pressed edge is the single event that mutates the language
//! state, and the only trigger the style updater reacts to.

use vstd::prelude::*;

use crate::language::{is_supported_code, toggle_code, toggled_code};

verus! {

/// The interaction state the host reports for the control on one tick.
#[derive(Clone, Copy, Debug, PartialEq, Eq, Structural)]
pub enum Interaction {
    /// No pointer over the control.
    Idle,
    /// Pointer over the control, not pressed.
    Hovered,
    /// The transition into pressed, reported once per press.
    PressedEdge,
}

/// The control's visual feedback: background and border scheme.
#[derive(Clone, Copy, Debug, PartialEq, Eq, Structural)]
pub enum VisualStyle {
    /// Plain background and border.
    Neutral,
    /// Highlighted background and border, shown while hovered.
    Highlighted,
}

/// The visual the control shows for an interaction state: highlighted during
/// Hovered and nothing else.
pub open spec fn visual_for(interaction: Interaction) -> VisualStyle {
    match interaction {
        Interaction::Hovered => VisualStyle::Highlighted,
        Interaction::Idle => VisualStyle::Neutral,
        Interaction::PressedEdge => VisualStyle::Neutral,
    }
}

/// The language-toggling control.
pub struct ToggleControl {
    /// The visual feedback currently shown.
    pub visual: VisualStyle,
}

impl ToggleControl {
    /// A fresh control, shown neutral.
    pub fn new() -> (r: ToggleControl)
        ensures
            r.visual == VisualStyle::Neutral,
    {
        ToggleControl { visual: VisualStyle::Neutral }
    }

    /// React to one tick's interaction state: refresh the visual, and flip
    /// the language exactly on the pressed edge.
    pub fn interact(&mut self, language: &mut String, interaction: Interaction)
        requires
            is_supported_code(old(language)@),
        ensures
            final(self).visual == visual_for(interaction),
            final(language)@ == if interaction is PressedEdge {
                toggled_code(old(language)@)
            } else {
                old(language)@
            },
            is_supported_code(final(language)@),
    {
        match interaction {
            Interaction::PressedEdge => {
                *language = toggle_code(language);
                self.visual = VisualStyle::Neutral;
            },
            Interaction::Hovered => {
                self.visual = VisualStyle::Highlighted;
            },
            Interaction::Idle => {
                self.visual = VisualStyle::Neutral;
            },
        }
    }
}

} // verus!
