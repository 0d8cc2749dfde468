//! The terminal session model: cursor bookkeeping, the key-event alphabet,
//! and the blocking input primitives' decision logic.
//!
//! The raw terminal device itself lives outside the library. A renderer keeps
//! an `IO` value beside the device: every method here updates the logical
//! cursor and says what must be drawn, and the scripted input primitives
//! decide from already-decoded key events exactly as the interactive ones
//! must.

use vstd::prelude::*;

verus! {

/// A decoded key event: the closed alphabet the game needs. Anything richer
/// than a printable character, backspace or enter collapses into `Other` at
/// the decode boundary.
#[derive(Clone, Copy, Debug)]
pub enum KeyEvent {
    Character(char),
    Backspace,
    Enter,
    Other,
}

/// The outcome of a confirmation prompt.
#[derive(Clone, Copy, Debug, PartialEq, Eq)]
pub enum Reply {
    Yes,
    No,
}

/// A finished line of user input.
#[derive(Debug)]
pub struct UserInput(pub String);

/// The column after writing `n` characters at column `x`. The column
/// saturates at the right edge instead of wrapping.
pub open spec fn col_after(x: u16, n: nat) -> u16 {
    if x + n <= u16::MAX {
        (x + n) as u16
    } else {
        u16::MAX
    }
}

/// The row after one line feed; it saturates at the bottom edge.
pub open spec fn row_after(y: u16) -> u16 {
    if y < u16::MAX {
        (y + 1) as u16
    } else {
        u16::MAX
    }
}

/// What a confirmation prompt makes of one key: y/Y and n/N decide, anything
/// else is silently discarded.
pub open spec fn spec_confirm_key(key: KeyEvent) -> Option<Reply> {
    match key {
        KeyEvent::Character(c) => if c == 'y' || c == 'Y' {
            Some(Reply::Yes)
        } else if c == 'n' || c == 'N' {
            Some(Reply::No)
        } else {
            None
        },
        _ => None,
    }
}

/// The reply a whole key sequence yields: the first qualifying key wins, and
/// an exhausted stream means no.
pub open spec fn spec_confirm(keys: Seq<KeyEvent>) -> Reply
    decreases keys.len(),
{
    if keys.len() == 0 {
        Reply::No
    } else {
        match spec_confirm_key(keys[0]) {
            Some(r) => r,
            None => spec_confirm(keys.drop_first()),
        }
    }
}

/// What one key does to the line editor's buffer: printable characters
/// append, backspace removes the last character when there is one, and
/// everything else leaves the buffer alone.
pub open spec fn spec_edit(buf: Seq<char>, key: KeyEvent) -> Seq<char> {
    match key {
        KeyEvent::Character(c) => buf.push(c),
        KeyEvent::Backspace => if buf.len() > 0 {
            buf.drop_last()
        } else {
            buf
        },
        KeyEvent::Enter => buf,
        KeyEvent::Other => buf,
    }
}

/// What the renderer must do for one key fed to the line editor.
pub open spec fn spec_edit_step(buf: Seq<char>, key: KeyEvent) -> EditStep {
    match key {
        KeyEvent::Character(c) => EditStep::Echoed(c),
        KeyEvent::Backspace => if buf.len() > 0 {
            EditStep::Erased
        } else {
            EditStep::Ignored
        },
        KeyEvent::Enter => EditStep::Submitted,
        KeyEvent::Other => EditStep::Ignored,
    }
}

/// The buffer left behind by the keys up to the first enter (or all of them,
/// when the stream ends first).
pub open spec fn spec_line_from(buf: Seq<char>, keys: Seq<KeyEvent>) -> Seq<char>
    decreases keys.len(),
{
    if keys.len() == 0 {
        buf
    } else if keys[0] is Enter {
        buf
    } else {
        spec_line_from(spec_edit(buf, keys[0]), keys.drop_first())
    }
}

/// The line a whole key sequence types, starting from an empty buffer.
pub open spec fn spec_line(keys: Seq<KeyEvent>) -> Seq<char> {
    spec_line_from(Seq::empty(), keys)
}

/// Classifies one key for a confirmation prompt.
pub fn classify_confirm_key(key: &KeyEvent) -> (r: Option<Reply>)
    ensures
        r == spec_confirm_key(*key),
{
    match key {
        KeyEvent::Character(c) => {
            if *c == 'y' || *c == 'Y' {
                Some(Reply::Yes)
            } else if *c == 'n' || *c == 'N' {
                Some(Reply::No)
            } else {
                None
            }
        },
        _ => None,
    }
}

/// What one key did to the line editor, for the renderer: echo the
/// character, erase the last echoed one, do nothing, or submit the line.
#[derive(Clone, Copy, Debug, PartialEq, Eq)]
pub enum EditStep {
    Echoed(char),
    Erased,
    Ignored,
    Submitted,
}

/// The insert-at-end, delete-from-end line editor.
pub struct LineEdit {
    pub buffer: String,
}

impl LineEdit {
    /// An empty buffer.
    pub fn new() -> (e: LineEdit)
        ensures
            e.buffer@ == Seq::<char>::empty(),
    {
        LineEdit { buffer: String::new() }
    }

    /// Feeds one key to the editor and says what the renderer must do.
    /// Backspace on an empty buffer is a complete no-op.
    pub fn apply(&mut self, key: KeyEvent) -> (step: EditStep)
        ensures
            final(self).buffer@ == spec_edit(old(self).buffer@, key),
            step == spec_edit_step(old(self).buffer@, key),
    {
        match key {
            KeyEvent::Character(c) => {
                self.buffer.push(c);
                EditStep::Echoed(c)
            },
            KeyEvent::Backspace => {
                match self.buffer.pop() {
                    Some(_) => EditStep::Erased,
                    None => EditStep::Ignored,
                }
            },
            KeyEvent::Enter => EditStep::Submitted,
            KeyEvent::Other => EditStep::Ignored,
        }
    }
}

/// The cursor bookkeeping of the terminal session: 1-indexed column and row,
/// kept in lockstep with what the renderer draws.
pub struct IO {
    pub current_x: u16,
    pub current_y: u16,
}

impl IO {
    /// A fresh session: the cursor at the top left.
    pub fn new() -> (io: IO)
        ensures
            io.current_x == 1,
            io.current_y == 1,
    {
        IO { current_x: 1, current_y: 1 }
    }

    fn advance(&mut self, n: usize)
        ensures
            final(self).current_x == col_after(old(self).current_x, n as nat),
            final(self).current_y == old(self).current_y,
    {
        let room = (u16::MAX - self.current_x) as usize;
        if n <= room {
            self.current_x = self.current_x + (n as u16);
        } else {
            self.current_x = u16::MAX;
        }
    }

    /// Advances the column for `string` written inline at the cursor; the
    /// renderer draws the text itself.
    pub fn write_string(&mut self, string: &str)
        ensures
            final(self).current_x == col_after(old(self).current_x, string@.len()),
            final(self).current_y == old(self).current_y,
    {
        let n: usize = string.unicode_len();
        self.advance(n);
    }

    /// Ends the line: column 1, next row. Returns the position the renderer
    /// must move the physical cursor to.
    pub fn new_line(&mut self) -> (pos: (u16, u16))
        ensures
            final(self).current_x == 1,
            final(self).current_y == row_after(old(self).current_y),
            pos == (1u16, final(self).current_y),
    {
        self.current_x = 1;
        if self.current_y < u16::MAX {
            self.current_y = self.current_y + 1;
        }
        (self.current_x, self.current_y)
    }

    /// One step left for an erased character, never below column 1. Returns
    /// whether the cursor moved, and so whether the erase must be drawn.
    pub fn move_cursor_left(&mut self) -> (moved: bool)
        ensures
            final(self).current_y == old(self).current_y,
            old(self).current_x > 1 ==> moved && final(self).current_x == old(self).current_x
                - 1,
            old(self).current_x <= 1 ==> !moved && final(self).current_x == old(
                self,
            ).current_x,
    {
        if self.current_x > 1 {
            self.current_x = self.current_x - 1;
            true
        } else {
            false
        }
    }

    /// The whole screen is cleared; the cursor returns to the top left.
    pub fn clear(&mut self)
        ensures
            final(self).current_x == 1,
            final(self).current_y == 1,
    {
        self.current_x = 1;
        self.current_y = 1;
    }

    /// A full line: the text, then a line feed.
    pub fn put_string(&mut self, string: &str) -> (pos: (u16, u16))
        ensures
            final(self).current_x == 1,
            final(self).current_y == row_after(old(self).current_y),
            pos == (1u16, final(self).current_y),
    {
        self.write_string(string);
        self.new_line()
    }

    /// Writes `question` and the fixed "Y/n" line (the renderer draws them),
    /// then decides from the key events: the first of y/Y/n/N wins,
    /// everything else is silently discarded — neither echoed nor kept — and
    /// an exhausted stream resolves to no.
    pub fn request_confirmation(&mut self, question: &str, keys: &Vec<KeyEvent>) -> (r: Reply)
        ensures
            r == spec_confirm(keys@),
            final(self).current_x == 1,
            final(self).current_y == row_after(row_after(old(self).current_y)),
    {
        self.put_string(question);
        self.put_string("Y/n");
        let n: usize = keys.len();
        let mut idx: usize = 0;
        proof {
            assert(keys@.skip(0) =~= keys@);
        }
        while idx < n
            invariant
                idx <= n,
                n == keys@.len(),
                spec_confirm(keys@.skip(idx as int)) == spec_confirm(keys@),
                self.current_x == 1,
                self.current_y == row_after(row_after(old(self).current_y)),
            decreases n - idx,
        {
            proof {
                assert(keys@.skip(idx as int)[0] == keys@[idx as int]);
                assert(keys@.skip(idx as int).drop_first() =~= keys@.skip(idx as int + 1));
            }
            match classify_confirm_key(&keys[idx]) {
                Some(r) => {
                    return r;
                },
                None => {},
            }
            idx += 1;
        }
        proof {
            assert(keys@.skip(n as int) =~= Seq::<KeyEvent>::empty());
        }
        Reply::No
    }

    /// The fixed any-key prompt. Waiting for the keystroke itself is the
    /// caller's part: any event at all, of any kind, ends the wait, and an
    /// exhausted stream ends it too.
    pub fn request_any_key(&mut self)
        ensures
            final(self).current_x == 1,
            final(self).current_y == row_after(old(self).current_y),
    {
        self.put_string("Press any key");
    }

    /// The line-edit prompt: an optional inline prefix, then the editor runs
    /// over the key events — echo on printable characters, a visible erase on
    /// backspace, everything else ignored — and a final line feed follows
    /// submission.
    pub fn request_user_input(&mut self, prompt: Option<&str>, keys: &Vec<KeyEvent>) -> (r:
        UserInput)
        ensures
            r.0@ == spec_line(keys@),
            final(self).current_x == 1,
            final(self).current_y == row_after(old(self).current_y),
    {
        match prompt {
            Some(request) => self.write_string(request),
            None => {},
        }
        let mut edit = LineEdit::new();
        let n: usize = keys.len();
        let mut idx: usize = 0;
        let mut done = false;
        proof {
            assert(keys@.skip(0) =~= keys@);
        }
        while !done && idx < n
            invariant
                idx <= n,
                n == keys@.len(),
                !done ==> spec_line_from(edit.buffer@, keys@.skip(idx as int)) == spec_line(
                    keys@,
                ),
                done ==> edit.buffer@ == spec_line(keys@),
                self.current_y == old(self).current_y,
            decreases n - idx,
        {
            proof {
                assert(keys@.skip(idx as int)[0] == keys@[idx as int]);
                assert(keys@.skip(idx as int).drop_first() =~= keys@.skip(idx as int + 1));
            }
            let key = keys[idx];
            let step = edit.apply(key);
            match step {
                EditStep::Submitted => {
                    done = true;
                },
                EditStep::Echoed(_) => {
                    self.advance(1);
                },
                EditStep::Erased => {
                    let _ = self.move_cursor_left();
                },
                EditStep::Ignored => {},
            }
            idx += 1;
        }
        proof {
            if !done {
                assert(keys@.skip(n as int) =~= Seq::<KeyEvent>::empty());
            }
        }
        let _ = self.new_line();
        UserInput(edit.buffer)
    }
}

} // verus!
