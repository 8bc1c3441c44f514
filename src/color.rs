//! The colour setting of the summary printer.
use crate::xml::is_named;
use vstd::prelude::*;

verus! {

/// When the printer colours its output.
#[derive(Clone, Copy, Debug, PartialEq, Eq, Structural)]
pub enum ColorMode {
    /// Always, through the terminal's own means.
    Always,
    /// Always, with ANSI escape codes.
    AlwaysAnsi,
    /// Where the output is a terminal.
    Auto,
    /// Never.
    Never,
}

/// `always`, `ansi` and `auto` name their modes; any other word means never.
pub open spec fn color_mode_of(word: Seq<char>) -> ColorMode {
    if word == "always"@ {
        ColorMode::Always
    } else if word == "ansi"@ {
        ColorMode::AlwaysAnsi
    } else if word == "auto"@ {
        ColorMode::Auto
    } else {
        ColorMode::Never
    }
}

/// Reads the colour setting given on the command line.
pub fn color_mode(word: &str) -> (r: ColorMode)
    ensures
        r == color_mode_of(word@),
{
    let w = word.to_owned();
    if is_named(&w, "always") {
        ColorMode::Always
    } else if is_named(&w, "ansi") {
        ColorMode::AlwaysAnsi
    } else if is_named(&w, "auto") {
        ColorMode::Auto
    } else {
        ColorMode::Never
    }
}

} // verus!
