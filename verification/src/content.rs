//! Pane content model: one pane's resource category, item list, cursor and
//! scroll offset, with clamped navigation and the window-follow scroll rule.

use vstd::prelude::*;
use vstd::string::*;

verus! {

/// The closed set of resource categories a pane can display, with a fixed
/// cycling order: pools, datasets, volumes, snapshots, and back to pools.
#[derive(Clone, Copy, PartialEq, Eq, Structural)]
pub enum ContentType {
    Pools,
    Datasets,
    Volumes,
    Snapshots,
}

impl ContentType {
    /// The category that follows `self` in the fixed cycling order.
    pub fn next(&self) -> (r: ContentType)
        ensures
            r == spec_next_type(*self),
    {
        match self {
            ContentType::Pools => ContentType::Datasets,
            ContentType::Datasets => ContentType::Volumes,
            ContentType::Volumes => ContentType::Snapshots,
            ContentType::Snapshots => ContentType::Pools,
        }
    }
}

/// The fixed cycling order of the categories.
pub open spec fn spec_next_type(t: ContentType) -> ContentType {
    match t {
        ContentType::Pools => ContentType::Datasets,
        ContentType::Datasets => ContentType::Volumes,
        ContentType::Volumes => ContentType::Snapshots,
        ContentType::Snapshots => ContentType::Pools,
    }
}

/// Where a cursor lands after any navigation request: the target clamped
/// into `[0, len - 1]`, or 0 when the list is empty.
pub open spec fn nav_clamp(target: int, len: nat) -> int {
    if len == 0 {
        0
    } else if target < 0 {
        0
    } else if target > len - 1 {
        len - 1
    } else {
        target
    }
}

/// Any single navigation step leaves the cursor inside
/// `[0, max(0, len - 1)]`; since every navigation operation yields
/// `nav_clamp` of its target, the cursor stays in that range under any
/// sequence of such calls.
pub proof fn lemma_nav_clamp_in_range(target: int, len: nat)
    ensures
        0 <= nav_clamp(target, len),
        len == 0 ==> nav_clamp(target, len) == 0,
        len > 0 ==> nav_clamp(target, len) <= len - 1,
{
}

/// One pane of the session: which category it lists, the listed items, the
/// cursor (`position`), the index of the first visible item (`start`) and
/// whether this pane currently has the focus.
pub struct Content {
    pub is_selected: bool,
    pub content_type: ContentType,
    pub position: usize,
    pub start: usize,
    pub list: Vec<String>,
}

impl Content {
    /// The cursor is a valid index, or pinned to 0 when the list is empty.
    pub open spec fn wf(&self) -> bool {
        if self.list@.len() == 0 {
            self.position == 0
        } else {
            self.position < self.list@.len()
        }
    }

    /// A fresh pane: empty list, cursor and scroll offset at 0.
    pub fn new(is_selected: bool, content_type: ContentType) -> (r: Content)
        ensures
            r.is_selected == is_selected,
            r.content_type == content_type,
            r.position == 0,
            r.start == 0,
            r.list@.len() == 0,
            r.wf(),
    {
        Content { is_selected, content_type, position: 0, start: 0, list: Vec::new() }
    }

    /// Replaces the item list wholesale and clamps the cursor into the new
    /// length; old indices are not remapped.  Category, focus and scroll
    /// offset are untouched.
    pub fn update(&mut self, items: Vec<String>)
        ensures
            final(self).list@ == items@,
            final(self).position == nav_clamp(old(self).position as int, items@.len()),
            final(self).is_selected == old(self).is_selected,
            final(self).content_type == old(self).content_type,
            final(self).start == old(self).start,
            final(self).wf(),
    {
        self.list = items;
        if self.list.len() == 0 {
            self.position = 0;
        } else if self.position > self.list.len() - 1 {
            self.position = self.list.len() - 1;
        }
    }

    /// Switches the pane to the next category in the cycling order,
    /// clearing the items and resetting cursor and scroll offset.
    pub fn next(&mut self)
        ensures
            final(self).content_type == spec_next_type(old(self).content_type),
            final(self).is_selected == old(self).is_selected,
            final(self).position == 0,
            final(self).start == 0,
            final(self).list@.len() == 0,
            final(self).wf(),
    {
        self.content_type = self.content_type.next();
        self.position = 0;
        self.start = 0;
        self.list = Vec::new();
    }

    /// Replaces the whole pane by a fresh, focused one showing the next
    /// category in the cycling order.
    pub fn switch_mode(&mut self)
        ensures
            final(self).content_type == spec_next_type(old(self).content_type),
            final(self).is_selected,
            final(self).position == 0,
            final(self).start == 0,
            final(self).list@.len() == 0,
            final(self).wf(),
    {
        let t = self.content_type.next();
        *self = Content::new(true, t);
    }

    /// Moves the cursor to the requested index, clamped into the list.
    pub fn jump_to(&mut self, position: i32)
        ensures
            final(self).position == nav_clamp(position as int, old(self).list@.len()),
            final(self).is_selected == old(self).is_selected,
            final(self).content_type == old(self).content_type,
            final(self).start == old(self).start,
            final(self).list@ == old(self).list@,
            final(self).wf(),
    {
        if position < 0 || self.list.len() == 0 {
            self.position = 0;
        } else if position as usize > self.list.len() - 1 {
            self.position = self.list.len() - 1;
        } else {
            self.position = position as usize;
        }
    }

    /// Moves the cursor by a relative amount, clamped into the list.
    pub fn jump(&mut self, elements: i32)
        ensures
            final(self).position == nav_clamp(
                old(self).position + elements as int,
                old(self).list@.len(),
            ),
            final(self).is_selected == old(self).is_selected,
            final(self).content_type == old(self).content_type,
            final(self).start == old(self).start,
            final(self).list@ == old(self).list@,
            final(self).wf(),
    {
        let target: i128 = self.position as i128 + elements as i128;
        if target < 0 || self.list.len() == 0 {
            self.position = 0;
        } else if target > (self.list.len() - 1) as i128 {
            self.position = self.list.len() - 1;
        } else {
            self.position = target as usize;
        }
    }

    /// Moves the cursor to the last item, or to 0 when the list is empty.
    pub fn jump_to_last(&mut self)
        ensures
            final(self).position == (if old(self).list@.len() == 0 {
                0int
            } else {
                old(self).list@.len() - 1
            }),
            final(self).is_selected == old(self).is_selected,
            final(self).content_type == old(self).content_type,
            final(self).start == old(self).start,
            final(self).list@ == old(self).list@,
            final(self).wf(),
    {
        if self.list.len() == 0 {
            self.position = 0;
        } else {
            self.position = self.list.len() - 1;
        }
    }

    /// Re-establishes the scroll window around the cursor for a viewport of
    /// `height` rows: the window moves only when the cursor would leave it
    /// (never by recentering), and the offset is then clamped into
    /// `[0, max(0, len - height)]`.  A non-positive height is a no-op.
    pub fn scroll(&mut self, height: i32)
        requires
            old(self).wf(),
        ensures
            final(self).is_selected == old(self).is_selected,
            final(self).content_type == old(self).content_type,
            final(self).position == old(self).position,
            final(self).list@ == old(self).list@,
            final(self).wf(),
            height <= 0 ==> final(self).start == old(self).start,
            height > 0 ==> final(self).start == crate::dialog::off_clamp(
                crate::dialog::window_follow(
                    old(self).position as int,
                    old(self).start as int,
                    height as int,
                ),
                old(self).list@.len() as int,
                height as int,
            ),
            height > 0 ==> final(self).start <= final(self).position
                < final(self).start + height,
            height > 0 && final(self).list@.len() > height ==> final(self).start
                <= final(self).list@.len() - height,
            height > 0 && final(self).list@.len() <= height ==> final(self).start == 0,
    {
        if height <= 0 {
            return ;
        }
        let h = height as usize;
        if self.position < self.start {
            self.start = self.position;
        } else if self.position - self.start >= h {
            self.start = self.position - (h - 1);
        }
        let max_start = if self.list.len() > h {
            self.list.len() - h
        } else {
            0
        };
        if self.start > max_start {
            self.start = max_start;
        }
    }

    /// The display title of the pane's category.
    pub fn title(&self) -> (r: String)
        ensures
            r@ == spec_title(self.content_type),
    {
        match self.content_type {
            ContentType::Pools => String::from_str("Pools"),
            ContentType::Datasets => String::from_str("Datasets"),
            ContentType::Volumes => String::from_str("Volumes"),
            ContentType::Snapshots => String::from_str("Snapshots"),
        }
    }

    /// The pane header text of the pane's category.
    pub fn type_text(&self) -> (r: String)
        ensures
            r@ == spec_type_text(self.content_type),
    {
        match self.content_type {
            ContentType::Pools => String::from_str(" Pools: "),
            ContentType::Datasets => String::from_str(" Datasets: "),
            ContentType::Volumes => String::from_str(" Volumes: "),
            ContentType::Snapshots => String::from_str(" Snapshots: "),
        }
    }

    /// The current selection: the single item under the cursor, or nothing
    /// when the list is empty (an operation must never be handed an item
    /// from an empty list).
    pub fn selected_elements(&self) -> (r: Vec<String>)
        requires
            self.wf(),
        ensures
            self.list@.len() == 0 ==> r@.len() == 0,
            self.list@.len() > 0 ==> r@.len() == 1 && r@[0]@ == self.list@[
                self.position as int
            ]@,
    {
        let mut r: Vec<String> = Vec::new();
        if self.list.len() > 0 {
            r.push(self.list[self.position].clone());
        }
        r
    }
}

/// The display title of a category.
pub open spec fn spec_title(t: ContentType) -> Seq<char> {
    match t {
        ContentType::Pools => "Pools"@,
        ContentType::Datasets => "Datasets"@,
        ContentType::Volumes => "Volumes"@,
        ContentType::Snapshots => "Snapshots"@,
    }
}

/// The pane header text of a category.
pub open spec fn spec_type_text(t: ContentType) -> Seq<char> {
    match t {
        ContentType::Pools => " Pools: "@,
        ContentType::Datasets => " Datasets: "@,
        ContentType::Volumes => " Volumes: "@,
        ContentType::Snapshots => " Snapshots: "@,
    }
}

} // verus!
