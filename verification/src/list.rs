//! An ordered list of records with a selection cursor.

use vstd::prelude::*;
use ratatui::widgets::ListState;
use crate::video::{Video, VideoView, views_of};

verus! {

/// What a [`VideoList`] is: its records in order, and the selected index.
pub struct VideoListView {
    pub items: Seq<VideoView>,
    pub cursor: Option<usize>,
}

/// The cursor rule: an empty list has no selection, a list with records has
/// one, and it is an index into the list.
pub open spec fn cursor_fits(cursor: Option<usize>, len: nat) -> bool {
    match cursor {
        None => len == 0,
        Some(i) => i < len,
    }
}

/// Where the cursor stands after a step towards the end: one further, and
/// unchanged on the last record.
pub open spec fn cursor_after_next(cursor: Option<usize>, len: nat) -> Option<usize> {
    match cursor {
        None => None,
        Some(i) => if i + 1 < len { Some((i + 1) as usize) } else { Some(i) },
    }
}

/// Where the cursor stands after a step towards the start: one back, and
/// unchanged on the first record.
pub open spec fn cursor_after_previous(cursor: Option<usize>) -> Option<usize> {
    match cursor {
        None => None,
        Some(i) => if i > 0 { Some((i - 1) as usize) } else { Some(i) },
    }
}

/// The cursor of a list that has just been given `len` records.
pub open spec fn cursor_at_start(len: nat) -> Option<usize> {
    if len == 0 { None } else { Some(0usize) }
}

/// `ratatui::widgets::ListState::select_next`, on a state made with
/// `with_selected` and read back with `selected`: the index after the selected
/// one, saturating at `usize::MAX`, and 0 where nothing was selected.
#[verifier::external_body]
fn list_state_next(selected: Option<usize>) -> (next: Option<usize>)
    ensures
        next == Some(
            match selected {
                None => 0usize,
                Some(i) => if i < usize::MAX { (i + 1) as usize } else { i },
            },
        ),
{
    let mut state = ListState::default().with_selected(selected);
    state.select_next();
    state.selected()
}

/// `ratatui::widgets::ListState::select_previous`, on a state made with
/// `with_selected` and read back with `selected`: the index before the selected
/// one, saturating at 0, and `usize::MAX` where nothing was selected.
#[verifier::external_body]
fn list_state_previous(selected: Option<usize>) -> (previous: Option<usize>)
    ensures
        previous == Some(
            match selected {
                None => usize::MAX,
                Some(i) => if i > 0 { (i - 1) as usize } else { i },
            },
        ),
{
    let mut state = ListState::default().with_selected(selected);
    state.select_previous();
    state.selected()
}

/// Records in insertion order, with the cursor that the interface moves.
#[derive(Debug)]
pub struct VideoList {
    items: Vec<Video>,
    cursor: Option<usize>,
}

impl View for VideoList {
    type V = VideoListView;

    closed spec fn view(&self) -> VideoListView {
        VideoListView { items: views_of(self.items@), cursor: self.cursor }
    }
}

impl VideoList {
    /// The list is valid when its cursor obeys the cursor rule.
    pub open spec fn wf(&self) -> bool {
        cursor_fits(self@.cursor, self@.items.len())
    }

    /// The empty list, with no selection.
    pub fn new() -> (list: VideoList)
        ensures
            list.wf(),
            list@.items == Seq::<VideoView>::empty(),
            list@.cursor == None::<usize>,
    {
        let list = VideoList { items: Vec::new(), cursor: None };
        assert(list@.items =~= Seq::<VideoView>::empty());
        list
    }

    /// The number of records.
    pub fn len(&self) -> (n: usize)
        ensures
            n == self@.items.len(),
    {
        self.items.len()
    }

    /// Whether the list holds no record.
    pub fn is_empty(&self) -> (empty: bool)
        ensures
            empty == (self@.items.len() == 0),
    {
        self.items.len() == 0
    }

    /// The selected index, if there is one.
    pub fn selected(&self) -> (cursor: Option<usize>)
        ensures
            cursor == self@.cursor,
    {
        self.cursor
    }

    /// The record at `index`, if the list is that long.
    pub fn get(&self, index: usize) -> (item: Option<&Video>)
        ensures
            item is Some <==> index < self@.items.len(),
            item matches Some(video) ==> video@ == self@.items[index as int],
    {
        if index < self.items.len() {
            Some(&self.items[index])
        } else {
            None
        }
    }

    /// The record under the cursor, if anything is selected.
    pub fn selected_item(&self) -> (item: Option<&Video>)
        requires
            self.wf(),
        ensures
            item is Some <==> self@.cursor is Some,
            item matches Some(video) ==> video@ == self@.items[self@.cursor->0 as int],
    {
        match self.cursor {
            Some(index) => Some(&self.items[index]),
            None => None,
        }
    }

    /// All records, in order.
    pub fn items(&self) -> (items: &Vec<Video>)
        ensures
            views_of(items@) == self@.items,
    {
        &self.items
    }

    /// Replaces the records. The cursor goes to the first record, or to no
    /// selection where `items` is empty.
    pub fn replace(&mut self, items: Vec<Video>)
        ensures
            final(self).wf(),
            final(self)@.items == views_of(items@),
            final(self)@.cursor == cursor_at_start(items@.len()),
    {
        let cursor = if items.len() == 0 { None } else { Some(0) };
        self.items = items;
        self.cursor = cursor;
    }

    /// Removes every record and the selection.
    pub fn clear(&mut self)
        ensures
            final(self).wf(),
            final(self)@.items == Seq::<VideoView>::empty(),
            final(self)@.cursor == None::<usize>,
    {
        self.items.clear();
        self.cursor = None;
        assert(self@.items =~= Seq::<VideoView>::empty());
    }

    /// Appends a record. An empty list gets its cursor on the new record; any
    /// other list keeps its cursor.
    pub fn push(&mut self, video: Video)
        requires
            old(self).wf(),
        ensures
            final(self).wf(),
            final(self)@.items == old(self)@.items.push(video@),
            final(self)@.cursor == match old(self)@.cursor {
                None => Some(0usize),
                Some(i) => Some(i),
            },
    {
        self.items.push(video);
        if self.cursor.is_none() {
            self.cursor = Some(0);
        }
        assert(self@.items =~= old(self)@.items.push(video@));
    }

    /// Moves the cursor one record towards the end; on the last record, and on
    /// an empty list, nothing changes.
    pub fn select_next(&mut self)
        requires
            old(self).wf(),
        ensures
            final(self).wf(),
            final(self)@.items == old(self)@.items,
            final(self)@.cursor == cursor_after_next(old(self)@.cursor, old(self)@.items.len()),
    {
        let len = self.items.len();
        if len > 0 {
            self.cursor = match list_state_next(self.cursor) {
                Some(next) if next < len => Some(next),
                _ => Some(len - 1),
            };
        }
    }

    /// Moves the cursor one record towards the start; on the first record, and
    /// on an empty list, nothing changes.
    pub fn select_previous(&mut self)
        requires
            old(self).wf(),
        ensures
            final(self).wf(),
            final(self)@.items == old(self)@.items,
            final(self)@.cursor == cursor_after_previous(old(self)@.cursor),
    {
        let len = self.items.len();
        if len > 0 {
            self.cursor = match list_state_previous(self.cursor) {
                Some(previous) if previous < len => Some(previous),
                _ => Some(len - 1),
            };
        }
    }
}

} // verus!
