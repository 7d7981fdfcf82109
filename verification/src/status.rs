//! Progress lines of the chat stream: `[step] message`, with the step tag
//! colored by what the step is doing when the output is a terminal.

use vstd::prelude::*;
use vstd::string::*;
use crate::text::same_text;

verus! {

pub const CYAN: &'static str = "\x1b[36m";

pub const MAGENTA: &'static str = "\x1b[35m";

pub const YELLOW: &'static str = "\x1b[33m";

pub const GREEN: &'static str = "\x1b[32m";

pub const RED: &'static str = "\x1b[31m";

pub const BLUE: &'static str = "\x1b[34m";

/// The color of a step, grouped by activity; steps the client does not know
/// get blue.
pub open spec fn step_color_spec(step: Seq<char>) -> Seq<char> {
    if step == "tools"@ || step == "web_search"@ || step == "explore"@ {
        CYAN@
    } else if step == "plan"@ {
        MAGENTA@
    } else if step == "model"@ {
        YELLOW@
    } else if step == "preparing"@ || step == "streaming"@ {
        GREEN@
    } else if step == "error"@ {
        RED@
    } else {
        BLUE@
    }
}

/// The progress line for `step` and `message`, with ANSI colors or plain.
pub open spec fn status_line_spec(step: Seq<char>, message: Seq<char>, colored: bool) -> Seq<
    char,
> {
    if colored {
        "\x1b[2m[\x1b[0m"@ + step_color_spec(step) + step + "\x1b[0m\x1b[2m]\x1b[0m "@ + message
    } else {
        "["@ + step + "] "@ + message
    }
}

/// The ANSI color code for a status step.
pub fn step_color(step: &str) -> (r: &'static str)
    ensures
        r@ == step_color_spec(step@),
{
    if same_text(step, "tools") || same_text(step, "web_search") || same_text(step, "explore") {
        CYAN
    } else if same_text(step, "plan") {
        MAGENTA
    } else if same_text(step, "model") {
        YELLOW
    } else if same_text(step, "preparing") || same_text(step, "streaming") {
        GREEN
    } else if same_text(step, "error") {
        RED
    } else {
        BLUE
    }
}

/// The `[step] message` line: the step tag dimmed in brackets and colored
/// when `colored`, plain text otherwise.
pub fn status_line(step: &str, message: &str, colored: bool) -> (r: String)
    ensures
        r@ == status_line_spec(step@, message@, colored),
{
    if colored {
        let mut r = String::from_str("\x1b[2m[\x1b[0m");
        r.append(step_color(step));
        r.append(step);
        r.append("\x1b[0m\x1b[2m]\x1b[0m ");
        r.append(message);
        r
    } else {
        let mut r = String::from_str("[");
        r.append(step);
        r.append("] ");
        r.append(message);
        r
    }
}

/// Steps outside the known vocabulary are still shown, in blue: the server's
/// step names are not a fixed contract.
pub proof fn lemma_unknown_step_is_blue(step: Seq<char>)
    requires
        step != "tools"@,
        step != "web_search"@,
        step != "explore"@,
        step != "plan"@,
        step != "model"@,
        step != "preparing"@,
        step != "streaming"@,
        step != "error"@,
    ensures
        step_color_spec(step) == BLUE@,
{
}

} // verus!
