//! The warnings shown in place of a listing.

use vstd::prelude::*;

verus! {

/// A text between the escape sequences that set the foreground to red and
/// back to the default.
pub open spec fn red_text(s: Seq<char>) -> Seq<char> {
    seq!['\u{1b}', '[', '3', '1', 'm'] + s + seq!['\u{1b}', '[', '3', '9', 'm']
}

/// The warning for a path that does not exist.
pub open spec fn missing_text() -> Seq<char> {
    red_text("Path does't exist"@)
}

/// The warning for a path of which the filesystem could not say whether it
/// exists.
pub open spec fn unreadable_text() -> Seq<char> {
    red_text("error reading directory"@)
}

/// Calls `owo_colors::OwoColorize::red` on a `str` and collects what the
/// coloured value displays.
///
/// Trusted: owo-colors writes `ESC [ 3 1 m`, then the text as it stands,
/// then `ESC [ 3 9 m`.
#[verifier::external_body]
fn red(s: &str) -> (r: String)
    ensures
        r@ == red_text(s@),
{
    format!("{}", owo_colors::OwoColorize::red(&s))
}

/// Writes the warning for a path that does not exist.
pub fn missing_warning() -> (r: String)
    ensures
        r@ == missing_text(),
{
    red("Path does't exist")
}

/// Writes the warning for a path whose existence could not be checked.
pub fn unreadable_warning() -> (r: String)
    ensures
        r@ == unreadable_text(),
{
    red("error reading directory")
}

} // verus!
