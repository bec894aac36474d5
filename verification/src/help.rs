//! The summary of commands that is shown when a command line is turned down.

use vstd::prelude::*;
use crate::text::{lines_view, no_lines, push_text};

verus! {

/// The lines of the command summary: a blank line, a heading, one line for
/// each of the five commands, and a blank line.
pub open spec fn summary_lines() -> Seq<Seq<char>> {
    seq![
        ""@,
        "Commands:"@,
        "  address   Get your public key"@,
        "  balance   Get your account balance"@,
        "  airdrop   Request a batch of tokens"@,
        "  pay       Send tokens to a public key"@,
        "  confirm   Confirm your last payment by signature"@,
        ""@,
    ]
}

/// The command summary, line by line, for the caller to print.
pub fn display_actions() -> (lines: Vec<String>)
    ensures
        lines_view(lines@) == summary_lines(),
{
    let mut lines = no_lines();
    push_text(&mut lines, "");
    push_text(&mut lines, "Commands:");
    push_text(&mut lines, "  address   Get your public key");
    push_text(&mut lines, "  balance   Get your account balance");
    push_text(&mut lines, "  airdrop   Request a batch of tokens");
    push_text(&mut lines, "  pay       Send tokens to a public key");
    push_text(&mut lines, "  confirm   Confirm your last payment by signature");
    push_text(&mut lines, "");
    assert(lines_view(lines@) =~= summary_lines());
    lines
}

} // verus!
