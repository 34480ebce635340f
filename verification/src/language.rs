//! The closed set of language codes and the direction resolver.
//!
//! The application supports exactly two languages: English ("en"), laid out
//! left-to-right, and Arabic ("ar"), laid out right-to-left. A code outside
//! that set is a programming error, reported as [`UnsupportedLanguage`]
//! rather than silently defaulted.

use vstd::prelude::*;

verus! {

/// A code belongs to the closed set of supported languages.
pub open spec fn is_supported_code(code: Seq<char>) -> bool {
    code == "en"@ || code == "ar"@
}

/// The layout direction a code resolves to: left-to-right exactly for "en".
pub open spec fn is_ltr_code(code: Seq<char>) -> bool {
    code == "en"@
}

/// The code the toggle control switches to: "en" becomes "ar", anything
/// else becomes "en".
pub open spec fn toggled_code(code: Seq<char>) -> Seq<char> {
    if code == "en"@ {
        "ar"@
    } else {
        "en"@
    }
}

/// The direction resolver received a code outside the closed language set.
/// This is fatal: the language set is fixed at compile time, so no recovery
/// is attempted.
#[derive(Clone, Copy, Debug, PartialEq, Eq, Structural)]
pub struct UnsupportedLanguage;

/// Direction resolver: maps a language code to its "left-to-right" flag.
/// Total and deterministic on the supported set; any other code yields
/// `Err(UnsupportedLanguage)` instead of a default direction.
pub fn resolve(code: &str) -> (r: Result<bool, UnsupportedLanguage>)
    ensures
        r is Ok <==> is_supported_code(code@),
        is_supported_code(code@) ==> r == Ok::<bool, UnsupportedLanguage>(is_ltr_code(code@)),
{
    proof {
        reveal_strlit("en");
        reveal_strlit("ar");
    }
    let c = code.to_owned();
    let en = "en".to_owned();
    let ar = "ar".to_owned();
    if c == en {
        Ok(true)
    } else if c == ar {
        Ok(false)
    } else {
        Err(UnsupportedLanguage)
    }
}

/// The code the language state moves to on a toggle: "en" and "ar" swap.
pub fn toggle_code(code: &String) -> (r: String)
    ensures
        r@ == toggled_code(code@),
        is_supported_code(r@),
{
    proof {
        reveal_strlit("en");
        reveal_strlit("ar");
    }
    let en = "en".to_owned();
    let ar = "ar".to_owned();
    if *code == en {
        ar
    } else {
        en
    }
}

/// Toggling twice returns to the starting code, for any supported code.
pub proof fn lemma_toggle_involutive(code: Seq<char>)
    requires
        is_supported_code(code),
    ensures
        toggled_code(toggled_code(code)) == code,
{
    reveal_strlit("en");
    reveal_strlit("ar");
}

} // verus!
