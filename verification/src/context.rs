//! The application context and the per-frame tick.
//!
//! The context carries the language state and remembers which language the
//! scene was last styled for, so the style updater is edge-triggered: it
//! runs only on ticks where the language actually changed (or was never
//! applied), never every frame. Within one tick the updater runs strictly
//! after the toggle control's mutation and sees the new language.

use vstd::prelude::*;

use crate::control::{visual_for, Interaction, ToggleControl};
use crate::language::{is_supported_code, toggled_code};
use crate::localization::LocalizationTable;
use crate::node::UiNode;
use crate::style::{apply_styles, restyled_scene};

verus! {

/// The process-wide language state: initialized to the default language at
/// startup, mutated only by the toggle control, reset on every start.
pub struct AppContext {
    /// The active language code.
    pub language: String,
    /// The language the scene was last styled for; `None` before the first
    /// style pass.
    pub styled_language: Option<String>,
}

/// The style updater owes a pass: `language` is not the code the scene was
/// last styled for (or the scene was never styled).
pub open spec fn pass_due(styled_language: Option<String>, language: Seq<char>) -> bool {
    match styled_language {
        Some(code) => code@ != language,
        None => true,
    }
}

impl AppContext {
    /// The context is well formed: every code it holds is supported.
    pub open spec fn wf(&self) -> bool {
        &&& is_supported_code(self.language@)
        &&& match self.styled_language {
            Some(code) => is_supported_code(code@),
            None => true,
        }
    }

    /// The style updater owes a pass: the active language is not the one the
    /// scene currently shows.
    pub open spec fn style_pass_due(&self) -> bool {
        pass_due(self.styled_language, self.language@)
    }

    /// A fresh context: the default language "en", no style pass done yet.
    pub fn new() -> (r: AppContext)
        ensures
            r.wf(),
            r.language@ == "en"@,
            r.styled_language is None,
            r.style_pass_due(),
    {
        AppContext { language: "en".to_owned(), styled_language: None }
    }
}

/// One frame of the core: feed the toggle control the tick's interaction
/// state, then restyle the scene exactly when the language state no longer
/// matches what the scene shows.
pub fn tick(
    ctx: &mut AppContext,
    control: &mut ToggleControl,
    scene: &mut Vec<UiNode>,
    table: &LocalizationTable,
    interaction: Interaction,
)
    requires
        old(ctx).wf(),
    ensures
        final(ctx).wf(),
        final(ctx).language@ == if interaction is PressedEdge {
            toggled_code(old(ctx).language@)
        } else {
            old(ctx).language@
        },
        final(control).visual == visual_for(interaction),
        !pass_due(old(ctx).styled_language, final(ctx).language@) ==> {
            &&& final(scene)@ == old(scene)@
            &&& final(ctx).styled_language == old(ctx).styled_language
        },
        pass_due(old(ctx).styled_language, final(ctx).language@) ==> {
            &&& final(scene)@ == restyled_scene(old(scene)@, final(ctx).language@, table@)
            &&& final(ctx).styled_language matches Some(code) && code@ == final(ctx).language@
        },
        !final(ctx).style_pass_due(),
{
    control.interact(&mut ctx.language, interaction);
    let due = match &ctx.styled_language {
        Some(code) => !(*code == ctx.language),
        None => true,
    };
    if due {
        apply_styles(scene, ctx.language.as_str(), table);
        ctx.styled_language = Some(ctx.language.clone());
    }
}

} // verus!
