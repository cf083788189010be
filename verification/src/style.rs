//! Styling of display strings. Colors are purely cosmetic: every width or
//! comparison downstream works on the unstyled string, so the contracts
//! here promise only that styling never shortens the text. Whether escape
//! codes are actually emitted depends on the color library's global
//! controls (terminal detection, environment), so no exact result can be
//! stated.

use vstd::prelude::*;

verus! {

/// Relies on `colored::Colorize::bright_red`: the result is the input,
/// either unchanged (coloring globally disabled) or wrapped in ANSI escape
/// sequences, never shortened.
#[verifier::external_body]
fn bright_red_str(s: &str) -> (r: String)
    ensures
        r@.len() >= s@.len(),
{
    colored::Colorize::bright_red(s).to_string()
}

/// Relies on `colored::Colorize::bright_white`: the result is the input,
/// either unchanged or wrapped in ANSI escape sequences, never shortened.
#[verifier::external_body]
fn bright_white_str(s: &str) -> (r: String)
    ensures
        r@.len() >= s@.len(),
{
    colored::Colorize::bright_white(s).to_string()
}

/// Relies on `colored::Colorize::bright_cyan`: the result is the input,
/// either unchanged or wrapped in ANSI escape sequences, never shortened.
#[verifier::external_body]
fn bright_cyan_str(s: &str) -> (r: String)
    ensures
        r@.len() >= s@.len(),
{
    colored::Colorize::bright_cyan(s).to_string()
}

/// Relies on `colored::Colorize::bright_green`: the result is the input,
/// either unchanged or wrapped in ANSI escape sequences, never shortened.
#[verifier::external_body]
fn bright_green_str(s: &str) -> (r: String)
    ensures
        r@.len() >= s@.len(),
{
    colored::Colorize::bright_green(s).to_string()
}

/// Relies on `colored::Colorize::bright_blue`: the result is the input,
/// either unchanged or wrapped in ANSI escape sequences, never shortened.
#[verifier::external_body]
fn bright_blue_str(s: &str) -> (r: String)
    ensures
        r@.len() >= s@.len(),
{
    colored::Colorize::bright_blue(s).to_string()
}

/// Relies on `colored::Colorize::green`: the result is the input, either
/// unchanged or wrapped in ANSI escape sequences, never shortened.
#[verifier::external_body]
fn green_str(s: &str) -> (r: String)
    ensures
        r@.len() >= s@.len(),
{
    colored::Colorize::green(s).to_string()
}

/// The accent given to a null cell when colors are on.
pub fn style_null(s: String, color_enabled: bool) -> (r: String)
    ensures
        !color_enabled ==> r@ == s@,
        r@.len() >= s@.len(),
{
    if color_enabled {
        bright_red_str(s.as_str())
    } else {
        s
    }
}

/// The accent given to a non-null cell when colors are on.
pub fn style_value(s: String, color_enabled: bool) -> (r: String)
    ensures
        !color_enabled ==> r@ == s@,
        r@.len() >= s@.len(),
{
    if color_enabled {
        bright_white_str(s.as_str())
    } else {
        s
    }
}

/// The accent given to a header cell when colors are on.
pub fn style_header(s: String, color_enabled: bool) -> (r: String)
    ensures
        !color_enabled ==> r@ == s@,
        r@.len() >= s@.len(),
{
    if color_enabled {
        bright_cyan_str(s.as_str())
    } else {
        s
    }
}

/// The accent given to a prompt when colors are on.
pub fn style_prompt(s: String, color_enabled: bool) -> (r: String)
    ensures
        !color_enabled ==> r@ == s@,
        r@.len() >= s@.len(),
{
    if color_enabled {
        bright_green_str(s.as_str())
    } else {
        s
    }
}

/// The accent given to the welcome banner when colors are on.
pub fn style_banner(s: String, color_enabled: bool) -> (r: String)
    ensures
        !color_enabled ==> r@ == s@,
        r@.len() >= s@.len(),
{
    if color_enabled {
        bright_blue_str(s.as_str())
    } else {
        s
    }
}

/// The accent given to a confirmation or summary line when colors are on.
pub fn style_notice(s: String, color_enabled: bool) -> (r: String)
    ensures
        !color_enabled ==> r@ == s@,
        r@.len() >= s@.len(),
{
    if color_enabled {
        green_str(s.as_str())
    } else {
        s
    }
}

/// The accent given to an error report when colors are on.
pub fn style_error(s: String, color_enabled: bool) -> (r: String)
    ensures
        !color_enabled ==> r@ == s@,
        r@.len() >= s@.len(),
{
    if color_enabled {
        bright_red_str(s.as_str())
    } else {
        s
    }
}

} // verus!
