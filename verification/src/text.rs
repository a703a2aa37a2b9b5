//! The cursor-position text readout.

use vstd::prelude::*;
use vstd::string::StringExecFns;

verus! {

/// The line shown for a cursor at window coordinates `x`/`y`, each
/// coordinate already rendered as text.
pub open spec fn coords_line(x: Seq<char>, y: Seq<char>) -> Seq<char> {
    "World coords: "@ + x + "/"@ + y
}

/// The line the readout shows before any cursor position has been seen.
pub open spec fn placeholder_line() -> Seq<char> {
    "Hello, Bevy!"@
}

/// A cursor position inside the window, each raw window-space coordinate
/// already rendered as text by the front end.
pub struct CursorPos {
    /// The X coordinate, as text.
    pub x: String,
    /// The Y coordinate, as text.
    pub y: String,
}

/// The single text readout that mirrors the cursor position.
pub struct CursorReadout {
    /// The string currently displayed.
    pub value: String,
}

impl CursorReadout {
    /// A fresh readout, showing the placeholder line.
    pub fn new() -> (r: CursorReadout)
        ensures
            r.value@ == placeholder_line(),
    {
        CursorReadout { value: String::from_str("Hello, Bevy!") }
    }

    /// One scheduler tick of the coordinate reporter: with the cursor
    /// inside the window the displayed string becomes exactly the
    /// coordinate line; with the cursor outside (`None`) it is left
    /// unchanged.
    pub fn tick(&mut self, cursor: Option<&CursorPos>)
        ensures
            match cursor {
                Some(p) => final(self).value@ == coords_line(p.x@, p.y@),
                None => final(self).value@ == old(self).value@,
            },
    {
        match cursor {
            Some(p) => {
                let mut line = String::from_str("World coords: ");
                line.append(p.x.as_str());
                line.append("/");
                line.append(p.y.as_str());
                self.value = line;
            },
            None => {},
        }
    }
}

} // verus!
