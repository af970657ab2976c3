//! Modal dialog state machines: confirmation, single and dual text input,
//! read-only presentation and selectable navigation lists.  Each dialog is a
//! pure transition function from its private state and one keystroke to the
//! next state and, when a termination key arrives, a typed result; the
//! blocking key-read loop and all drawing live outside the library.

use vstd::prelude::*;
use vstd::string::*;
use crate::content::nav_clamp;

verus! {

/// One recognized keystroke.  Unrecognized keys arrive as `Other` and are
/// ignored by every state machine.
#[derive(Clone, Copy, PartialEq, Eq, Structural)]
pub enum Key {
    Up,
    Down,
    Left,
    Right,
    PageUp,
    PageDown,
    Home,
    End,
    Tab,
    Enter,
    Escape,
    Backspace,
    Char(char),
    F(u8),
    Other,
}

/// The outcome of a modal interaction: a confirmed value, or cancellation,
/// which callers treat as "do nothing".
pub enum DialogResult<T> {
    Confirmed(T),
    Cancelled,
}

/// Printable ASCII, the only characters a text field accepts.
pub open spec fn is_printable(c: char) -> bool {
    0x20 <= c as u32 <= 0x7e
}

/// Relies on `FromIterator<char> for String`: collecting characters yields
/// the string made of exactly those characters, in order.
#[verifier::external_body]
fn string_from_chars(v: &Vec<char>) -> (r: String)
    ensures
        r@ == v@,
{
    v.iter().collect()
}

/// The characters of a string slice, gathered one by one.
fn str_to_chars(s: &str) -> (r: Vec<char>)
    ensures
        r@ == s@,
{
    let n = s.unicode_len();
    let mut r: Vec<char> = Vec::new();
    let mut i: usize = 0;
    while i < n
        invariant
            i <= n,
            n == s@.len(),
            r@ == s@.subrange(0, i as int),
        decreases n - i,
    {
        r.push(s.get_char(i));
        i = i + 1;
        assert(r@ =~= s@.subrange(0, i as int));
    }
    assert(s@.subrange(0, n as int) =~= s@);
    r
}

/// The single-input dialog's private state: one editable text field.
pub struct InputState {
    pub text: Vec<char>,
}

impl InputState {
    /// A field pre-seeded with a default value.
    pub fn new(seed: &str) -> (r: InputState)
        ensures
            r.text@ == seed@,
    {
        InputState { text: str_to_chars(seed) }
    }

    /// One keystroke: Enter confirms the edited text, Escape cancels,
    /// printable characters append, Backspace removes the last character,
    /// anything else is ignored.
    pub fn step(&mut self, key: Key) -> (r: Option<DialogResult<String>>)
        ensures
            match key {
                Key::Enter => r matches Some(DialogResult::Confirmed(s)) && s@ == old(self).text@ && final(self).text@ == old(self).text@,
                Key::Escape => (r matches Some(DialogResult::Cancelled)) && final(self).text@
                    == old(self).text@,
                Key::Char(c) => r is None && final(self).text@ == (if is_printable(c) {
                    old(self).text@.push(c)
                } else {
                    old(self).text@
                }),
                Key::Backspace => r is None && final(self).text@ == (if old(self).text@.len() == 0 {
                    old(self).text@
                } else {
                    old(self).text@.drop_last()
                }),
                _ => r is None && final(self).text@ == old(self).text@,
            },
    {
        match key {
            Key::Enter => Some(DialogResult::Confirmed(string_from_chars(&self.text))),
            Key::Escape => Some(DialogResult::Cancelled),
            Key::Char(c) => {
                if 0x20 <= c as u32 && c as u32 <= 0x7e {
                    self.text.push(c);
                }
                None
            },
            Key::Backspace => {
                if self.text.len() > 0 {
                    self.text.pop();
                }
                None
            },
            _ => None,
        }
    }
}

/// The dual-input dialog's private state: two editable text fields and a
/// flag naming the field that receives keystrokes.
pub struct DualInputState {
    pub first: Vec<char>,
    pub second: Vec<char>,
    pub editing_second: bool,
}

impl DualInputState {
    /// Two pre-seeded fields.  Focus starts on the first field unless its
    /// seed is non-empty, in which case it starts on the second.
    pub fn new(seed1: &str, seed2: &str) -> (r: DualInputState)
        ensures
            r.first@ == seed1@,
            r.second@ == seed2@,
            r.editing_second == (seed1@.len() > 0),
    {
        DualInputState {
            first: str_to_chars(seed1),
            second: str_to_chars(seed2),
            editing_second: !seed1.is_empty(),
        }
    }

    /// One keystroke: Enter confirms both texts, Escape cancels, Tab moves
    /// the focus to the other field, printable characters and Backspace
    /// edit the focused field, anything else is ignored.
    pub fn step(&mut self, key: Key) -> (r: Option<DialogResult<(String, String)>>)
        ensures
            match key {
                Key::Enter => r matches Some(DialogResult::Confirmed(p)) && p.0@ == old(self).first@ && p.1@ == old(self).second@ && *final(self) == *old(self),
                Key::Escape => (r matches Some(DialogResult::Cancelled)) && *final(self) == *old(self),
                Key::Tab => r is None && final(self).editing_second == !old(self).editing_second
                    && final(self).first@ == old(self).first@ && final(self).second@ == old(self).second@,
                Key::Char(c) => r is None && final(self).editing_second == old(self).editing_second && (if !is_printable(c) {
                    final(self).first@ == old(self).first@ && final(self).second@ == old(self).second@
                } else if old(self).editing_second {
                    final(self).first@ == old(self).first@ && final(self).second@ == old(self).second@.push(c)
                } else {
                    final(self).first@ == old(self).first@.push(c) && final(self).second@
                        == old(self).second@
                }),
                Key::Backspace => r is None && final(self).editing_second == old(self).editing_second && (if old(self).editing_second {
                    final(self).first@ == old(self).first@ && final(self).second@ == (if old(self).second@.len() == 0 {
                        old(self).second@
                    } else {
                        old(self).second@.drop_last()
                    })
                } else {
                    final(self).second@ == old(self).second@ && final(self).first@ == (if old(self).first@.len() == 0 {
                        old(self).first@
                    } else {
                        old(self).first@.drop_last()
                    })
                }),
                _ => r is None && *final(self) == *old(self),
            },
    {
        match key {
            Key::Enter => Some(
                DialogResult::Confirmed(
                    (string_from_chars(&self.first), string_from_chars(&self.second)),
                ),
            ),
            Key::Escape => Some(DialogResult::Cancelled),
            Key::Tab => {
                self.editing_second = !self.editing_second;
                None
            },
            Key::Char(c) => {
                if 0x20 <= c as u32 && c as u32 <= 0x7e {
                    if self.editing_second {
                        self.second.push(c);
                    } else {
                        self.first.push(c);
                    }
                }
                None
            },
            Key::Backspace => {
                if self.editing_second {
                    if self.second.len() > 0 {
                        self.second.pop();
                    }
                } else {
                    if self.first.len() > 0 {
                        self.first.pop();
                    }
                }
                None
            },
            _ => None,
        }
    }
}

/// The confirmation dialog: a single keystroke decides the outcome.  Enter
/// confirms; any other key cancels.
pub fn confirm_step(key: Key) -> (r: DialogResult<()>)
    ensures
        (r matches DialogResult::Confirmed(u)) <==> key == Key::Enter,
{
    match key {
        Key::Enter => DialogResult::Confirmed(()),
        _ => DialogResult::Cancelled,
    }
}

/// Where the scroll window starts after following the cursor: it moves only
/// when the cursor would leave the `height`-row window.
pub open spec fn window_follow(position: int, start: int, height: int) -> int {
    if height <= 0 {
        start
    } else if position < start {
        position
    } else if position >= start + height {
        position - height + 1
    } else {
        start
    }
}

/// A scroll offset clamped into `[0, max(0, count - height)]`.
pub open spec fn off_clamp(target: int, count: int, height: int) -> int {
    let maxs = if count > height {
        count - height
    } else {
        0
    };
    if target < 0 {
        0
    } else if target > maxs {
        maxs
    } else {
        target
    }
}

/// Moves the scroll window only when the cursor would leave it: the
/// window-follow rule shared by the panes and the list dialogs.
pub fn scroll(position: usize, start_from: usize, height: usize) -> (r: usize)
    ensures
        r == window_follow(position as int, start_from as int, height as int),
{
    if height == 0 {
        start_from
    } else if position < start_from {
        position
    } else if position - start_from >= height {
        position - (height - 1)
    } else {
        start_from
    }
}

/// How far one keystroke scrolls a read-only line display.
pub open spec fn present_delta(key: Key) -> int {
    match key {
        Key::Up => -1,
        Key::Down => 1,
        Key::PageUp => -10,
        Key::PageDown => 10,
        _ => 0,
    }
}

/// A key that closes a read-only line display.
pub open spec fn is_close_key(key: Key) -> bool {
    key == Key::Enter || key == Key::Escape || key == (Key::F(10u8))
}

/// The presentation dialog's private state: a scroll offset over a fixed
/// line sequence.
pub struct PresentationState {
    pub start_from: usize,
}

impl PresentationState {
    /// A fresh display, scrolled to the top.
    pub fn new() -> (r: PresentationState)
        ensures
            r.start_from == 0,
    {
        PresentationState { start_from: 0 }
    }

    /// One keystroke over `line_count` lines in a viewport of `height`
    /// rows: Up/Down move by one line, Page-Up/Page-Down by ten, and the
    /// offset is clamped into `[0, max(0, line_count - height)]`.  Enter,
    /// Escape and the explicit close key end the dialog.
    pub fn step(&mut self, key: Key, line_count: usize, height: usize) -> (done: bool)
        ensures
            done == is_close_key(key),
            done ==> final(self).start_from == old(self).start_from,
            !done ==> final(self).start_from == off_clamp(
                old(self).start_from + present_delta(key),
                line_count as int,
                height as int,
            ),
    {
        let delta: i128 = match key {
            Key::Enter | Key::Escape => { return true },
            Key::F(k) => {
                if k == 10 {
                    return true;
                }
                0
            },
            Key::Up => -1,
            Key::Down => 1,
            Key::PageUp => -10,
            Key::PageDown => 10,
            _ => 0,
        };
        let target: i128 = self.start_from as i128 + delta;
        let maxs: usize = if line_count > height {
            line_count - height
        } else {
            0
        };
        if target < 0 {
            self.start_from = 0;
        } else if target > maxs as i128 {
            self.start_from = maxs;
        } else {
            self.start_from = target as usize;
        }
        false
    }
}

/// The navigation dialog's private state: a cursor and a scroll offset over
/// a fixed line sequence, scrolled by the panes' window-follow rule.
pub struct NavigationState {
    pub position: usize,
    pub start_from: usize,
}

impl NavigationState {
    /// A fresh list, cursor and offset at the top.
    pub fn new() -> (r: NavigationState)
        ensures
            r.position == 0,
            r.start_from == 0,
    {
        NavigationState { position: 0, start_from: 0 }
    }

    /// One keystroke over `lines` in a viewport of `height` rows: the
    /// cursor moves clamped into the list and the window follows it; Enter
    /// confirms the line under the cursor (or cancels when the list is
    /// empty), the "create new" key confirms the empty string, Escape and
    /// the explicit close key cancel.
    pub fn step(&mut self, lines: &Vec<String>, height: usize, key: Key) -> (r: Option<
        DialogResult<String>,
    >)
        requires
            lines@.len() == 0 ==> old(self).position == 0,
            lines@.len() > 0 ==> old(self).position < lines@.len(),
        ensures
            match key {
                Key::Enter => *final(self) == *old(self) && (if lines@.len() == 0 {
                    r matches Some(DialogResult::Cancelled)
                } else {
                    r matches Some(DialogResult::Confirmed(s)) && s@ == lines@[old(self).position as int]@
                }),
                Key::Escape => *final(self) == *old(self) && (r matches Some(
                    DialogResult::Cancelled,
                )),
                Key::F(k) => *final(self) == *old(self) && (if k == 2 {
                    r matches Some(DialogResult::Confirmed(s)) && s@.len() == 0
                } else if k == 10 {
                    r matches Some(DialogResult::Cancelled)
                } else {
                    r is None
                }),
                Key::Up | Key::Down | Key::PageUp | Key::PageDown => r is None && final(self).position == nav_clamp(
                    old(self).position + present_delta(key),
                    lines@.len(),
                ) && final(self).start_from == off_clamp(
                    window_follow(
                        final(self).position as int,
                        old(self).start_from as int,
                        height as int,
                    ),
                    lines@.len() as int,
                    height as int,
                ),
                _ => r is None && *final(self) == *old(self),
            },
            lines@.len() == 0 ==> final(self).position == 0,
            lines@.len() > 0 ==> final(self).position < lines@.len(),
    {
        let delta: i128 = match key {
            Key::Enter => {
                if lines.len() == 0 {
                    return Some(DialogResult::Cancelled);
                }
                return Some(DialogResult::Confirmed(lines[self.position].clone()));
            },
            Key::Escape => { return Some(DialogResult::Cancelled) },
            Key::F(k) => {
                if k == 2 {
                    return Some(DialogResult::Confirmed(String::new()));
                }
                if k == 10 {
                    return Some(DialogResult::Cancelled);
                }
                return None;
            },
            Key::Up => -1,
            Key::Down => 1,
            Key::PageUp => -10,
            Key::PageDown => 10,
            _ => { return None },
        };
        let target: i128 = self.position as i128 + delta;
        if target < 0 || lines.len() == 0 {
            self.position = 0;
        } else if target > (lines.len() - 1) as i128 {
            self.position = lines.len() - 1;
        } else {
            self.position = target as usize;
        }
        let followed = scroll(self.position, self.start_from, height);
        let maxs: usize = if lines.len() > height {
            lines.len() - height
        } else {
            0
        };
        if followed > maxs {
            self.start_from = maxs;
        } else {
            self.start_from = followed;
        }
        None
    }
}

/// A line cut or padded with spaces to exactly `width - 2` characters (or
/// to nothing when the window is narrower than its two border columns).
pub open spec fn fitted(s: Seq<char>, width: int) -> Seq<char> {
    let w: int = if width >= 2 {
        width - 2
    } else {
        0
    };
    if s.len() > w {
        s.subrange(0, w)
    } else {
        s + Seq::new((w - s.len()) as nat, |i: int| ' ')
    }
}

/// Cuts or pads a line with spaces to exactly `width - 2` characters, so
/// that drawing it fills a bordered window row completely.
pub fn fit_to_window(source_line: &str, width: usize) -> (r: String)
    ensures
        r@ == fitted(source_line@, width as int),
{
    let w: usize = if width >= 2 {
        width - 2
    } else {
        0
    };
    let n = source_line.unicode_len();
    if n > w {
        let cut = source_line.substring_char(0, w);
        return cut.to_owned();
    }
    let mut line = source_line.to_owned();
    proof {
        reveal_strlit(" ");
        assert(" "@ =~= seq![' ']);
        assert(line@ =~= source_line@ + Seq::new(0nat, |i: int| ' '));
    }
    let mut i = n;
    while i < w
        invariant
            n <= i <= w,
            n == source_line@.len(),
            " "@ == seq![' '],
            line@ == source_line@ + Seq::new((i - n) as nat, |k: int| ' '),
        decreases w - i,
    {
        line.append(" ");
        i = i + 1;
        assert(line@ =~= source_line@ + Seq::new((i - n) as nat, |k: int| ' '));
    }
    line
}

/// The top-left corner that centers a `height` by `width` region on a
/// screen of `max_y` rows and `max_x` columns.
pub fn center_window(max_y: i32, max_x: i32, height: i32, width: i32) -> (r: (i32, i32))
    requires
        0 <= max_y,
        0 <= max_x,
        0 <= height,
        0 <= width,
    ensures
        r.0 == max_y / 2 - height / 2,
        r.1 == max_x / 2 - width / 2,
{
    (max_y / 2 - height / 2, max_x / 2 - width / 2)
}

} // verus!
