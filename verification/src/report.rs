//! The lines the tool prints: failures in bright red, success in bright
//! green.

use owo_colors::OwoColorize;
use vstd::prelude::*;
use vstd::string::*;

use crate::error::LinkError;
use crate::link_type::LinkType;

verus! {

/// The escape sequence that sets the foreground colour back to the default.
pub open spec fn reset_foreground() -> Seq<char> {
    seq!['\u{1b}', '[', '3', '9', 'm']
}

/// `text` between the escape sequences for a bright red foreground.
pub open spec fn in_bright_red(text: Seq<char>) -> Seq<char> {
    seq!['\u{1b}', '[', '9', '1', 'm'] + text + reset_foreground()
}

/// `text` between the escape sequences for a bright green foreground.
pub open spec fn in_bright_green(text: Seq<char>) -> Seq<char> {
    seq!['\u{1b}', '[', '9', '2', 'm'] + text + reset_foreground()
}

/// Calls `owo_colors::OwoColorize::bright_red` on `text` and renders the
/// result with `Display`. The contract claims what the crate's formatter
/// writes: the escape sequence `ESC [ 9 1 m`, then the text unchanged, then
/// `ESC [ 3 9 m`.
#[verifier::external_body]
fn bright_red(text: &str) -> (painted: String)
    ensures
        painted@ == in_bright_red(text@),
{
    format!("{}", text.bright_red())
}

/// Calls `owo_colors::OwoColorize::bright_green` on `text` and renders the
/// result with `Display`. The contract claims what the crate's formatter
/// writes: the escape sequence `ESC [ 9 2 m`, then the text unchanged, then
/// `ESC [ 3 9 m`.
#[verifier::external_body]
fn bright_green(text: &str) -> (painted: String)
    ensures
        painted@ == in_bright_green(text@),
{
    format!("{}", text.bright_green())
}

/// The line that reports `error`.
pub open spec fn spec_error_line(error: LinkError) -> Seq<char> {
    in_bright_red("error:"@) + " "@ + in_bright_red(error.spec_message())
}

/// The line that reports a link of kind `kind`, created at `link` and
/// pointing to `target`.
pub open spec fn spec_success_line(kind: LinkType, link: Seq<char>, target: Seq<char>) -> Seq<
    char,
> {
    in_bright_green(kind.spec_name()) + " "@ + in_bright_green("created at source"@) + " "@
        + in_bright_green("→"@) + " "@ + in_bright_green(link) + ", "@ + in_bright_green(
        "pointing to"@,
    ) + " "@ + in_bright_green(target)
}

/// Renders the line for the error stream: the word `error:` and the
/// failure's message, each in bright red.
pub fn error_line(error: &LinkError) -> (line: String)
    ensures
        line@ == spec_error_line(*error),
{
    let message = error.message();
    bright_red("error:").concat(" ").concat(bright_red(message.as_str()).as_str())
}

/// Renders the line that announces the new link, every part in bright green.
/// `link` and `target` are the two paths as they are to be shown.
pub fn success_line(kind: LinkType, link: &str, target: &str) -> (line: String)
    ensures
        line@ == spec_success_line(kind, link@, target@),
{
    let mut line = bright_green(kind.name());
    line.append(" ");
    line.append(bright_green("created at source").as_str());
    line.append(" ");
    line.append(bright_green("→").as_str());
    line.append(" ");
    line.append(bright_green(link).as_str());
    line.append(", ");
    line.append(bright_green("pointing to").as_str());
    line.append(" ");
    line.append(bright_green(target).as_str());
    line
}

} // verus!
