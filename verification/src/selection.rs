use vstd::prelude::*;

verus! {

/// The cursor of a list: the index of the highlighted row, if any, and the index of the
/// first row that is shown.
///
/// The operations follow the list state of the terminal widget library: moving the
/// cursor may leave it past the last row, and the widget pulls it back when it draws
/// the list (see [`ListSelection::clamp_to`]).
#[derive(Clone, Copy, PartialEq, Eq, Debug)]
pub struct ListSelection {
    pub selected: Option<usize>,
    pub offset: usize,
}

impl ListSelection {
    /// A fresh cursor on the given row, as a value.
    pub open spec fn with_selected_spec(selected: Option<usize>) -> ListSelection {
        ListSelection { selected, offset: 0 }
    }

    /// No row highlighted, the list shown from its top.
    pub fn new() -> (r: ListSelection)
        ensures
            r.selected is None,
            r.offset == 0,
    {
        ListSelection { selected: None, offset: 0 }
    }

    /// A fresh cursor on the given row.
    pub fn with_selected(selected: Option<usize>) -> (r: ListSelection)
        ensures
            r == Self::with_selected_spec(selected),
    {
        ListSelection { selected, offset: 0 }
    }

    /// The highlighted row.
    pub fn selected(&self) -> (r: Option<usize>)
        ensures
            r == self.selected,
    {
        self.selected
    }

    /// The first row shown.
    pub fn offset(&self) -> (r: usize)
        ensures
            r == self.offset,
    {
        self.offset
    }

    /// Highlights `index`; clearing the highlight also scrolls back to the top.
    pub fn select(&mut self, index: Option<usize>)
        ensures
            final(self).selected == index,
            final(self).offset == (if index is None { 0 } else { old(self).offset }),
    {
        self.selected = index;
        if index.is_none() {
            self.offset = 0;
        }
    }

    /// Moves the highlight one row down, or onto the first row when there is none.
    pub fn select_next(&mut self)
        ensures
            final(self).selected == Some(
                match old(self).selected {
                    Some(i) => if i == usize::MAX { usize::MAX } else { (i + 1) as usize },
                    None => 0usize,
                },
            ),
            final(self).offset == old(self).offset,
    {
        let next = match self.selected {
            Some(i) => i.saturating_add(1),
            None => 0,
        };
        self.select(Some(next));
    }

    /// Moves the highlight one row up (not past the first), or onto the last possible
    /// row when there is none.
    pub fn select_previous(&mut self)
        ensures
            final(self).selected == Some(
                match old(self).selected {
                    Some(i) => if i == 0 { 0usize } else { (i - 1) as usize },
                    None => usize::MAX,
                },
            ),
            final(self).offset == old(self).offset,
    {
        let previous = match self.selected {
            Some(i) => i.saturating_sub(1),
            None => usize::MAX,
        };
        self.select(Some(previous));
    }

    /// Highlights the first row.
    pub fn select_first(&mut self)
        ensures
            final(self).selected == Some(0usize),
            final(self).offset == old(self).offset,
    {
        self.select(Some(0));
    }
}

} // verus!
