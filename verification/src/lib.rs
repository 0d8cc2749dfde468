//! A terminal vocabulary drill.
//!
//! Word pairs are previewed, shuffled afresh each round, and asked one by one;
//! the player types an answer and is told whether it matched exactly.
//!
//! The crate holds the verified core: the rules parsed from the command line,
//! the decimal parsing and formatting they need, the terminal session model
//! (cursor bookkeeping, key classification, line editing), and the round
//! controller that sequences greeting, previews, and questions. The raw
//! terminal device and the word-list file live outside the library; callers
//! render the emitted commands and feed decoded key events back in.

pub mod decimal;
pub mod game;
pub mod game_rules;
pub mod io;

use vstd::prelude::*;

verus! {

/// Relies on `String::push`: appends the given character to the end of the
/// string.
pub assume_specification[ String::push ](s: &mut String, ch: char)
    ensures
        final(s)@ == old(s)@.push(ch),
;

/// Relies on `String::pop`: removes the last character and returns it, or
/// returns `None` and leaves the string unchanged when it is empty.
pub assume_specification[ String::pop ](s: &mut String) -> (r: Option<char>)
    ensures
        old(s)@.len() == 0 ==> r is None && final(s)@ == old(s)@,
        old(s)@.len() > 0 ==> r == Some(old(s)@.last()) && final(s)@ == old(s)@.drop_last(),
;

} // verus!
