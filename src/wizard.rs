use vstd::prelude::*;

use crate::config::Position;
use crate::feeds::{lower_of, lowercase};
use crate::reader::{trim_chars, trim_end, trim_start};
use crate::text::{chars_of, string_of};

verus! {

/// The reply to a yes/no question once trimmed and folded to lower case: "y" or
/// "yes" is yes, "n" or "no" is no, anything else (an empty reply too) is the default.
pub open spec fn folded_answer(reply: Seq<char>, default: bool) -> bool {
    if reply == "y"@ || reply == "yes"@ {
        true
    } else if reply == "n"@ || reply == "no"@ {
        false
    } else {
        default
    }
}

fn same_text(a: &str, b: &str) -> (r: bool)
    ensures
        r == (a@ == b@),
{
    a.to_owned() == b.to_owned()
}

/// The answer a trimmed, lower-case reply gives.
pub fn answer_for_folded(reply: &str, default: bool) -> (r: bool)
    ensures
        r == folded_answer(reply@, default),
{
    if same_text(reply, "y") || same_text(reply, "yes") {
        true
    } else if same_text(reply, "n") || same_text(reply, "no") {
        false
    } else {
        default
    }
}

/// The answer a typed reply gives: trimmed, folded to lower case, then read as
/// `folded_answer` says.
pub fn prompt_answer(input: &str, default: bool) -> (r: bool)
    ensures
        r == folded_answer(lower_of(trim_end(trim_start(input@))), default),
{
    let t = string_of(&trim_chars(&chars_of(input)));
    let folded = lowercase(t.as_str());
    answer_for_folded(folded.as_str(), default)
}

/// Where the configuration wizard puts the next widget: row by row, at most three
/// to a row once wrapping applies.
pub struct GridPlacer {
    pub row: usize,
    pub col: usize,
}

impl GridPlacer {
    pub fn new() -> (r: GridPlacer)
        ensures
            r.row == 0 && r.col == 0,
    {
        GridPlacer { row: 0, col: 0 }
    }

    /// The cell for the next widget. With `wrap`, a full row (three or more
    /// columns used) moves placement to the start of the next row first.
    pub fn place(&mut self, wrap: bool) -> (p: Position)
        requires
            old(self).row < usize::MAX,
            old(self).col < usize::MAX,
        ensures
            wrap && old(self).col >= 3 ==> p == (Position { row: (old(self).row + 1) as usize, col: 0 }),
            !(wrap && old(self).col >= 3) ==> p == (Position { row: old(self).row, col: old(self).col }),
            final(self).row == p.row,
            final(self).col == p.col + 1,
    {
        if wrap && self.col >= 3 {
            self.row = self.row + 1;
            self.col = 0;
        }
        let p = Position { row: self.row, col: self.col };
        self.col = self.col + 1;
        p
    }
}

} // verus!
