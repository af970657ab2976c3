//! Session controller: two panes, a single focus flag, and the top-level
//! key router that turns one keystroke into pane navigation, a focus
//! switch, a category switch, session exit, or a request to run one of the
//! per-category operations.

use vstd::prelude::*;
use crate::content::{Content, ContentType, nav_clamp, spec_next_type};
use crate::dialog::{Key, present_delta};

verus! {

/// The operations a function key can request, resolved against the focused
/// pane's category by the operation table.
#[derive(Clone, Copy, PartialEq, Eq, Structural)]
pub enum Operation {
    Help,
    SnapshotDiff,
    SnapshotSend,
    DatasetPromote,
    TakeSnapshot,
    CloneSnapshot,
    Rename,
    Scrub,
    CreateDataset,
    CreateVolume,
    Rollback,
    Destroy,
    GetAll,
}

/// The operation table: which operation, if any, a function key triggers
/// for a pane showing the given category.
pub open spec fn spec_key_f(t: ContentType, k: u8) -> Option<Operation> {
    if k == 1 {
        Some(Operation::Help)
    } else if k == 2 {
        match t {
            ContentType::Datasets => Some(Operation::DatasetPromote),
            ContentType::Snapshots => Some(Operation::SnapshotDiff),
            _ => None,
        }
    } else if k == 3 {
        match t {
            ContentType::Snapshots => Some(Operation::SnapshotSend),
            _ => None,
        }
    } else if k == 5 {
        match t {
            ContentType::Datasets => Some(Operation::TakeSnapshot),
            ContentType::Volumes => Some(Operation::TakeSnapshot),
            ContentType::Snapshots => Some(Operation::CloneSnapshot),
            _ => None,
        }
    } else if k == 6 {
        match t {
            ContentType::Pools => None,
            _ => Some(Operation::Rename),
        }
    } else if k == 7 {
        match t {
            ContentType::Pools => Some(Operation::Scrub),
            ContentType::Datasets => Some(Operation::CreateDataset),
            ContentType::Volumes => Some(Operation::CreateVolume),
            ContentType::Snapshots => Some(Operation::Rollback),
        }
    } else if k == 8 {
        Some(Operation::Destroy)
    } else if k == 9 {
        Some(Operation::GetAll)
    } else {
        None
    }
}

/// Looks a function key up in the operation table for one category.
pub fn key_f(content_type: ContentType, function_key: u8) -> (r: Option<Operation>)
    ensures
        r == spec_key_f(content_type, function_key),
{
    if function_key == 1 {
        Some(Operation::Help)
    } else if function_key == 2 {
        match content_type {
            ContentType::Datasets => Some(Operation::DatasetPromote),
            ContentType::Snapshots => Some(Operation::SnapshotDiff),
            _ => None,
        }
    } else if function_key == 3 {
        match content_type {
            ContentType::Snapshots => Some(Operation::SnapshotSend),
            _ => None,
        }
    } else if function_key == 5 {
        match content_type {
            ContentType::Datasets => Some(Operation::TakeSnapshot),
            ContentType::Volumes => Some(Operation::TakeSnapshot),
            ContentType::Snapshots => Some(Operation::CloneSnapshot),
            _ => None,
        }
    } else if function_key == 6 {
        match content_type {
            ContentType::Pools => None,
            _ => Some(Operation::Rename),
        }
    } else if function_key == 7 {
        match content_type {
            ContentType::Pools => Some(Operation::Scrub),
            ContentType::Datasets => Some(Operation::CreateDataset),
            ContentType::Volumes => Some(Operation::CreateVolume),
            ContentType::Snapshots => Some(Operation::Rollback),
        }
    } else if function_key == 8 {
        Some(Operation::Destroy)
    } else if function_key == 9 {
        Some(Operation::GetAll)
    } else {
        None
    }
}

/// What the session does after one keystroke: keep running, terminate, or
/// run an operation on the named item of the focused pane.
pub enum SessionAction {
    Stay,
    Exit,
    Run(Operation, String),
}

/// Two panes agree on everything but the focus flag.
pub open spec fn same_pane_mod_focus(a: Content, b: Content) -> bool {
    a.content_type == b.content_type && a.position == b.position && a.start == b.start && a.list@
        == b.list@
}

/// Two panes agree on everything.
pub open spec fn pane_eq(a: Content, b: Content) -> bool {
    same_pane_mod_focus(a, b) && a.is_selected == b.is_selected
}

/// Pane `b` is pane `a` after one clamped cursor move to `target`.
pub open spec fn pane_jumped(a: Content, b: Content, target: int) -> bool {
    b.is_selected == a.is_selected && b.content_type == a.content_type && b.start == a.start
        && b.list@ == a.list@ && b.position == nav_clamp(target, a.list@.len())
}

/// Pane `b` is pane `a` replaced by a fresh, focused pane showing the next
/// category in the cycling order.
pub open spec fn pane_cycled(a: Content, b: Content) -> bool {
    b.is_selected && b.content_type == spec_next_type(a.content_type) && b.position == 0 && b.start
        == 0 && b.list@.len() == 0
}

/// The transition of the focused pane under one pane-directed keystroke.
pub open spec fn pane_step_ok(a: Content, b: Content, key: Key) -> bool {
    match key {
        Key::Up | Key::Down | Key::PageUp | Key::PageDown => pane_jumped(
            a,
            b,
            a.position + present_delta(key),
        ),
        Key::Home => pane_jumped(a, b, 0),
        Key::End => pane_jumped(a, b, a.list@.len() - 1),
        Key::Tab => pane_cycled(a, b),
        _ => pane_eq(a, b),
    }
}

/// What a function key must yield for the focused pane `c`: the operation
/// the table binds, with the item under the cursor — but never an item from
/// an empty list, and the help display needs no item at all.
pub open spec fn f_action_ok(c: Content, k: u8, r: SessionAction) -> bool {
    match spec_key_f(c.content_type, k) {
        None => r is Stay,
        Some(op) => {
            if op == Operation::Help {
                r matches SessionAction::Run(o, s) && o == op && s@.len() == 0
            } else if c.list@.len() == 0 {
                r is Stay
            } else {
                r matches SessionAction::Run(o, s) && o == op && s@ == c.list@[c.position as int]@
            }
        },
    }
}

/// Applies one pane-directed keystroke to one pane.
fn pane_key(c: &mut Content, key: Key)
    requires
        old(c).wf(),
    ensures
        final(c).wf(),
        pane_step_ok(*old(c), *final(c), key),
{
    match key {
        Key::Up => c.jump(-1),
        Key::Down => c.jump(1),
        Key::PageUp => c.jump(-10),
        Key::PageDown => c.jump(10),
        Key::Home => c.jump_to(0),
        Key::End => c.jump_to_last(),
        Key::Tab => c.switch_mode(),
        _ => (),
    }
}

/// The session state: the two panes.  Exactly one of them holds the focus.
pub struct Engine {
    pub left: Content,
    pub right: Content,
}

impl Engine {
    /// Both panes are well formed and exactly one has the focus.
    pub open spec fn wf(&self) -> bool {
        self.left.wf() && self.right.wf() && (self.left.is_selected != self.right.is_selected)
    }

    /// The pane that currently has the focus.
    pub open spec fn focused(&self) -> Content {
        if self.left.is_selected {
            self.left
        } else {
            self.right
        }
    }

    /// A fresh session: the focused left pane lists datasets, the right
    /// pane lists snapshots.
    pub fn new() -> (r: Engine)
        ensures
            r.wf(),
            r.left.is_selected,
            r.left.content_type == ContentType::Datasets,
            r.right.content_type == ContentType::Snapshots,
            r.left.list@.len() == 0,
            r.right.list@.len() == 0,
            r.left.position == 0,
            r.right.position == 0,
    {
        Engine {
            left: Content::new(true, ContentType::Datasets),
            right: Content::new(false, ContentType::Snapshots),
        }
    }

    /// Moves the focus to the other pane; nothing else changes.
    pub fn switch_window(&mut self)
        requires
            old(self).wf(),
        ensures
            final(self).wf(),
            final(self).left.is_selected == !old(self).left.is_selected,
            final(self).right.is_selected == !old(self).right.is_selected,
            same_pane_mod_focus(old(self).left, final(self).left),
            same_pane_mod_focus(old(self).right, final(self).right),
    {
        if self.left.is_selected {
            self.left.is_selected = false;
            self.right.is_selected = true;
        } else {
            self.left.is_selected = true;
            self.right.is_selected = false;
        }
    }

    /// Routes one keystroke: the arrow-sideways keys switch the focus, the
    /// vertical navigation keys move the focused pane's cursor, Tab cycles
    /// the focused pane's category, the exit key terminates the session,
    /// and a function key asks for the bound operation on the item under
    /// the cursor.  Unrecognized keys change nothing.
    pub fn handle_keys(&mut self, key: Key) -> (r: SessionAction)
        requires
            old(self).wf(),
        ensures
            final(self).wf(),
            match key {
                Key::Left | Key::Right => r is Stay && final(self).left.is_selected == !old(
                    self,
                ).left.is_selected && final(self).right.is_selected == !old(self).right.is_selected
                    && same_pane_mod_focus(old(self).left, final(self).left)
                    && same_pane_mod_focus(old(self).right, final(self).right),
                Key::F(k) => pane_eq(old(self).left, final(self).left) && pane_eq(
                    old(self).right,
                    final(self).right,
                ) && (if k == 10 {
                    r is Exit
                } else {
                    f_action_ok(old(self).focused(), k, r)
                }),
                _ => (if old(self).left.is_selected {
                    pane_step_ok(old(self).left, final(self).left, key) && pane_eq(
                        old(self).right,
                        final(self).right,
                    )
                } else {
                    pane_step_ok(old(self).right, final(self).right, key) && pane_eq(
                        old(self).left,
                        final(self).left,
                    )
                }) && r is Stay,
            },
    {
        match key {
            Key::Left | Key::Right => {
                self.switch_window();
                SessionAction::Stay
            },
            Key::F(k) => {
                if k == 10 {
                    return SessionAction::Exit;
                }
                let pane = if self.left.is_selected {
                    &self.left
                } else {
                    &self.right
                };
                match key_f(pane.content_type, k) {
                    None => SessionAction::Stay,
                    Some(op) => {
                        if op == Operation::Help {
                            SessionAction::Run(op, String::new())
                        } else if pane.list.len() == 0 {
                            SessionAction::Stay
                        } else {
                            SessionAction::Run(op, pane.list[pane.position].clone())
                        }
                    },
                }
            },
            _ => {
                if self.left.is_selected {
                    pane_key(&mut self.left, key);
                } else {
                    pane_key(&mut self.right, key);
                }
                SessionAction::Stay
            },
        }
    }
}

/// The bottom menu line shown for a pane of the given category.
pub fn menu_text(content_type: ContentType) -> (r: String)
    ensures
        r@ == spec_menu_text(content_type),
{
    match content_type {
        ContentType::Pools => String::from_str(
            " F1 Help  F2 ____  F3 ____  F4 ____  F5 ____  F6 ____  F7 Scrub  F8 Destroy  F9 Get all  F10 Exit",
        ),
        ContentType::Datasets => String::from_str(
            " F1 Help  F2 Promote  F3 ____  F4 ____  F5 Snapshot  F6 Rename  F7 Create  F8 Destroy  F9 Get all  F10 Exit",
        ),
        ContentType::Volumes => String::from_str(
            " F1 Help  F2 ____  F3 ____  F4 ____  F5 Snapshot  F6 Rename  F7 Create  F8 Destroy  F9 Get all  F10 Exit",
        ),
        ContentType::Snapshots => String::from_str(
            " F1 Help  F2 Diff  F3 Send  F4 ____  F5 Clone  F6 Rename  F7 Rollback  F8 Destroy  F9 Get all  F10 Exit",
        ),
    }
}

/// The bottom menu line of each category.
pub open spec fn spec_menu_text(t: ContentType) -> Seq<char> {
    match t {
        ContentType::Pools => " F1 Help  F2 ____  F3 ____  F4 ____  F5 ____  F6 ____  F7 Scrub  F8 Destroy  F9 Get all  F10 Exit"@,
        ContentType::Datasets => " F1 Help  F2 Promote  F3 ____  F4 ____  F5 Snapshot  F6 Rename  F7 Create  F8 Destroy  F9 Get all  F10 Exit"@,
        ContentType::Volumes => " F1 Help  F2 ____  F3 ____  F4 ____  F5 Snapshot  F6 Rename  F7 Create  F8 Destroy  F9 Get all  F10 Exit"@,
        ContentType::Snapshots => " F1 Help  F2 Diff  F3 Send  F4 ____  F5 Clone  F6 Rename  F7 Rollback  F8 Destroy  F9 Get all  F10 Exit"@,
    }
}

} // verus!
