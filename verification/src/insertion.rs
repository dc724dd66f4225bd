//! The AppleScript snippets that paste text and carry out spoken editing
//! commands.
use crate::text::{push_str, same_text, string_from_chars};
use vstd::prelude::*;

verus! {

/// Presses ⌘V in the frontmost application.
pub const PASTE_SCRIPT: &'static str = "tell application \"System Events\" to keystroke \"v\" using command down";

/// Presses ⌘Z in the frontmost application.
pub const UNDO_SCRIPT: &'static str = "tell application \"System Events\" to keystroke \"z\" using command down";

/// Presses ⌘A in the frontmost application.
pub const SELECT_ALL_SCRIPT: &'static str = "tell application \"System Events\" to keystroke \"a\" using command down";

/// The script that carries out an editing command: undo for "delete that"
/// and "undo that", select all for "select all"; any other command is
/// refused with a message naming it.
pub open spec fn editing_script_spec(command: Seq<char>) -> Result<Seq<char>, Seq<char>> {
    if command == "delete that"@ || command == "undo that"@ {
        Ok(UNDO_SCRIPT@)
    } else if command == "select all"@ {
        Ok(SELECT_ALL_SCRIPT@)
    } else {
        Err("Unknown editing command: "@ + command)
    }
}

/// The script for a spoken editing command.
pub fn editing_script(command: &str) -> (r: Result<&'static str, String>)
    ensures
        r matches Ok(s) ==> editing_script_spec(command@) == Ok::<Seq<char>, Seq<char>>(s@),
        r matches Err(e) ==> editing_script_spec(command@) == Err::<Seq<char>, Seq<char>>(e@),
{
    if same_text(command, "delete that") || same_text(command, "undo that") {
        Ok(UNDO_SCRIPT)
    } else if same_text(command, "select all") {
        Ok(SELECT_ALL_SCRIPT)
    } else {
        let mut out: Vec<char> = Vec::new();
        push_str(&mut out, "Unknown editing command: ");
        push_str(&mut out, command);
        Err(string_from_chars(&out))
    }
}

} // verus!
